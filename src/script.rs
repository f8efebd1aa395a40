//! The value types of script inputs and outputs.

use vstd::prelude::*;
use crate::errors::Error;
use crate::text::str_eq;

verus! {

/// The type of a script input or output, as the service names it.
#[derive(Clone, Copy, Debug, PartialEq, Eq, Structural)]
pub enum Type {
    /// The type named `string`.
    String,
    /// The type named `categorical`.
    Categorical,
    /// The type named `text`.
    Text,
    /// The type named `items`.
    Items,
    /// The type named `number`.
    Number,
    /// The type named `numeric`.
    Numeric,
    /// The type named `integer`.
    Integer,
    /// The type named `boolean`.
    Boolean,
    /// The type named `list`.
    List,
    /// The type named `map`.
    MapType,
    /// The type named `list-of-string`.
    ListOfString,
    /// The type named `list-of-integer`.
    ListOfInteger,
    /// The type named `list-of-number`.
    ListOfNumber,
    /// The type named `list-of-map`.
    ListOfMap,
    /// The type named `list-of-boolean`.
    ListOfBoolean,
    /// The type named `resource-id`.
    ResourceId,
    /// The type named `supervised-model-id`.
    SupervisedModelId,
    /// The type named `project-id`.
    ProjectId,
    /// The type named `source-id`.
    SourceId,
    /// The type named `dataset-id`.
    DatasetId,
    /// The type named `sample-id`.
    SampleId,
    /// The type named `model-id`.
    ModelId,
    /// The type named `ensemble-id`.
    EnsembleId,
    /// The type named `logisticregression-id`.
    LogisticRegressionId,
    /// The type named `deepnet-id`.
    DeepnetId,
    /// The type named `timeseries-id`.
    TimeseriesId,
    /// The type named `prediction-id`.
    PredictionId,
    /// The type named `batchprediction-id`.
    BatchPredictionId,
    /// The type named `evaluation-id`.
    EvaluationId,
    /// The type named `anomaly-id`.
    AnomalyId,
    /// The type named `anomalyscore-id`.
    AnomalyScoreId,
    /// The type named `batchanomalyscore-id`.
    BatchAnomolayScoreId,
    /// The type named `cluster-id`.
    ClusterId,
    /// The type named `centroid-id`.
    CentroidId,
    /// The type named `batchcentroid-id`.
    BatchCentroidId,
    /// The type named `association-id`.
    AssociationId,
    /// The type named `associationset-id`.
    AssociationSetId,
    /// The type named `topicmodel-id`.
    TopicModelId,
    /// The type named `topicdistribution-id`.
    TopicDistributionId,
    /// The type named `batchtopicdistribution-id`.
    BatchTopicDistribution,
    /// The type named `correlation-id`.
    CorrelationId,
    /// The type named `statisticaltest-id`.
    StatisticalTestId,
    /// The type named `library-id`.
    LibraryId,
    /// The type named `script-id`.
    ScriptId,
    /// The type named `execution-id`.
    ExecutionId,
    /// The type named `configuration-id`.
    Configuration,
}

/// The name of each type in the service's interface.
pub open spec fn api_name(t: Type) -> Seq<char> {
    match t {
        Type::String => "string"@,
        Type::Categorical => "categorical"@,
        Type::Text => "text"@,
        Type::Items => "items"@,
        Type::Number => "number"@,
        Type::Numeric => "numeric"@,
        Type::Integer => "integer"@,
        Type::Boolean => "boolean"@,
        Type::List => "list"@,
        Type::MapType => "map"@,
        Type::ListOfString => "list-of-string"@,
        Type::ListOfInteger => "list-of-integer"@,
        Type::ListOfNumber => "list-of-number"@,
        Type::ListOfMap => "list-of-map"@,
        Type::ListOfBoolean => "list-of-boolean"@,
        Type::ResourceId => "resource-id"@,
        Type::SupervisedModelId => "supervised-model-id"@,
        Type::ProjectId => "project-id"@,
        Type::SourceId => "source-id"@,
        Type::DatasetId => "dataset-id"@,
        Type::SampleId => "sample-id"@,
        Type::ModelId => "model-id"@,
        Type::EnsembleId => "ensemble-id"@,
        Type::LogisticRegressionId => "logisticregression-id"@,
        Type::DeepnetId => "deepnet-id"@,
        Type::TimeseriesId => "timeseries-id"@,
        Type::PredictionId => "prediction-id"@,
        Type::BatchPredictionId => "batchprediction-id"@,
        Type::EvaluationId => "evaluation-id"@,
        Type::AnomalyId => "anomaly-id"@,
        Type::AnomalyScoreId => "anomalyscore-id"@,
        Type::BatchAnomolayScoreId => "batchanomalyscore-id"@,
        Type::ClusterId => "cluster-id"@,
        Type::CentroidId => "centroid-id"@,
        Type::BatchCentroidId => "batchcentroid-id"@,
        Type::AssociationId => "association-id"@,
        Type::AssociationSetId => "associationset-id"@,
        Type::TopicModelId => "topicmodel-id"@,
        Type::TopicDistributionId => "topicdistribution-id"@,
        Type::BatchTopicDistribution => "batchtopicdistribution-id"@,
        Type::CorrelationId => "correlation-id"@,
        Type::StatisticalTestId => "statisticaltest-id"@,
        Type::LibraryId => "library-id"@,
        Type::ScriptId => "script-id"@,
        Type::ExecutionId => "execution-id"@,
        Type::Configuration => "configuration-id"@,
    }
}

impl Type {
    /// The name of this type in the service's interface.
    pub fn as_str(self) -> (r: &'static str)
        ensures
            r@ == api_name(self),
    {
        match self {
            Type::String => "string",
            Type::Categorical => "categorical",
            Type::Text => "text",
            Type::Items => "items",
            Type::Number => "number",
            Type::Numeric => "numeric",
            Type::Integer => "integer",
            Type::Boolean => "boolean",
            Type::List => "list",
            Type::MapType => "map",
            Type::ListOfString => "list-of-string",
            Type::ListOfInteger => "list-of-integer",
            Type::ListOfNumber => "list-of-number",
            Type::ListOfMap => "list-of-map",
            Type::ListOfBoolean => "list-of-boolean",
            Type::ResourceId => "resource-id",
            Type::SupervisedModelId => "supervised-model-id",
            Type::ProjectId => "project-id",
            Type::SourceId => "source-id",
            Type::DatasetId => "dataset-id",
            Type::SampleId => "sample-id",
            Type::ModelId => "model-id",
            Type::EnsembleId => "ensemble-id",
            Type::LogisticRegressionId => "logisticregression-id",
            Type::DeepnetId => "deepnet-id",
            Type::TimeseriesId => "timeseries-id",
            Type::PredictionId => "prediction-id",
            Type::BatchPredictionId => "batchprediction-id",
            Type::EvaluationId => "evaluation-id",
            Type::AnomalyId => "anomaly-id",
            Type::AnomalyScoreId => "anomalyscore-id",
            Type::BatchAnomolayScoreId => "batchanomalyscore-id",
            Type::ClusterId => "cluster-id",
            Type::CentroidId => "centroid-id",
            Type::BatchCentroidId => "batchcentroid-id",
            Type::AssociationId => "association-id",
            Type::AssociationSetId => "associationset-id",
            Type::TopicModelId => "topicmodel-id",
            Type::TopicDistributionId => "topicdistribution-id",
            Type::BatchTopicDistribution => "batchtopicdistribution-id",
            Type::CorrelationId => "correlation-id",
            Type::StatisticalTestId => "statisticaltest-id",
            Type::LibraryId => "library-id",
            Type::ScriptId => "script-id",
            Type::ExecutionId => "execution-id",
            Type::Configuration => "configuration-id",
        }
    }

    /// The type named `s`, if there is one.
    pub fn from_name(s: &str) -> (r: Option<Type>)
        ensures
            match r {
                Some(t) => api_name(t) == s@,
                None => forall|t: Type| api_name(t) != s@,
            },
    {
        if str_eq(s, "string") {
            return Some(Type::String);
        }
        if str_eq(s, "categorical") {
            return Some(Type::Categorical);
        }
        if str_eq(s, "text") {
            return Some(Type::Text);
        }
        if str_eq(s, "items") {
            return Some(Type::Items);
        }
        if str_eq(s, "number") {
            return Some(Type::Number);
        }
        if str_eq(s, "numeric") {
            return Some(Type::Numeric);
        }
        if str_eq(s, "integer") {
            return Some(Type::Integer);
        }
        if str_eq(s, "boolean") {
            return Some(Type::Boolean);
        }
        if str_eq(s, "list") {
            return Some(Type::List);
        }
        if str_eq(s, "map") {
            return Some(Type::MapType);
        }
        if str_eq(s, "list-of-string") {
            return Some(Type::ListOfString);
        }
        if str_eq(s, "list-of-integer") {
            return Some(Type::ListOfInteger);
        }
        if str_eq(s, "list-of-number") {
            return Some(Type::ListOfNumber);
        }
        if str_eq(s, "list-of-map") {
            return Some(Type::ListOfMap);
        }
        if str_eq(s, "list-of-boolean") {
            return Some(Type::ListOfBoolean);
        }
        if str_eq(s, "resource-id") {
            return Some(Type::ResourceId);
        }
        if str_eq(s, "supervised-model-id") {
            return Some(Type::SupervisedModelId);
        }
        if str_eq(s, "project-id") {
            return Some(Type::ProjectId);
        }
        if str_eq(s, "source-id") {
            return Some(Type::SourceId);
        }
        if str_eq(s, "dataset-id") {
            return Some(Type::DatasetId);
        }
        if str_eq(s, "sample-id") {
            return Some(Type::SampleId);
        }
        if str_eq(s, "model-id") {
            return Some(Type::ModelId);
        }
        if str_eq(s, "ensemble-id") {
            return Some(Type::EnsembleId);
        }
        if str_eq(s, "logisticregression-id") {
            return Some(Type::LogisticRegressionId);
        }
        if str_eq(s, "deepnet-id") {
            return Some(Type::DeepnetId);
        }
        if str_eq(s, "timeseries-id") {
            return Some(Type::TimeseriesId);
        }
        if str_eq(s, "prediction-id") {
            return Some(Type::PredictionId);
        }
        if str_eq(s, "batchprediction-id") {
            return Some(Type::BatchPredictionId);
        }
        if str_eq(s, "evaluation-id") {
            return Some(Type::EvaluationId);
        }
        if str_eq(s, "anomaly-id") {
            return Some(Type::AnomalyId);
        }
        if str_eq(s, "anomalyscore-id") {
            return Some(Type::AnomalyScoreId);
        }
        if str_eq(s, "batchanomalyscore-id") {
            return Some(Type::BatchAnomolayScoreId);
        }
        if str_eq(s, "cluster-id") {
            return Some(Type::ClusterId);
        }
        if str_eq(s, "centroid-id") {
            return Some(Type::CentroidId);
        }
        if str_eq(s, "batchcentroid-id") {
            return Some(Type::BatchCentroidId);
        }
        if str_eq(s, "association-id") {
            return Some(Type::AssociationId);
        }
        if str_eq(s, "associationset-id") {
            return Some(Type::AssociationSetId);
        }
        if str_eq(s, "topicmodel-id") {
            return Some(Type::TopicModelId);
        }
        if str_eq(s, "topicdistribution-id") {
            return Some(Type::TopicDistributionId);
        }
        if str_eq(s, "batchtopicdistribution-id") {
            return Some(Type::BatchTopicDistribution);
        }
        if str_eq(s, "correlation-id") {
            return Some(Type::CorrelationId);
        }
        if str_eq(s, "statisticaltest-id") {
            return Some(Type::StatisticalTestId);
        }
        if str_eq(s, "library-id") {
            return Some(Type::LibraryId);
        }
        if str_eq(s, "script-id") {
            return Some(Type::ScriptId);
        }
        if str_eq(s, "execution-id") {
            return Some(Type::ExecutionId);
        }
        if str_eq(s, "configuration-id") {
            return Some(Type::Configuration);
        }
        None
    }

    /// The type named `s`, or `UnknownBigMlType` if there is none.
    pub fn parse_name(s: &str) -> (r: Result<Type, Error>)
        ensures
            match r {
                Ok(t) => api_name(t) == s@,
                Err(Error::UnknownBigMlType { name }) => name@ == s@ && forall|t: Type| api_name(t) != s@,
                Err(_) => false,
            },
    {
        match Type::from_name(s) {
            Some(t) => Ok(t),
            None => Err(Error::UnknownBigMlType { name: s.to_owned() }),
        }
    }

    /// The name of this type, as an owned string.
    pub fn to_string(self) -> (r: String)
        ensures
            r@ == api_name(self),
    {
        self.as_str().to_owned()
    }
}

impl std::str::FromStr for Type {
    type Err = Error;

    fn from_str(s: &str) -> Result<Type, Error> {
        Type::parse_name(s)
    }
}

} // verus!
