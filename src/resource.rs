//! Plain data that the remote service reports about its resources.

use vstd::prelude::*;
use std::collections::HashMap;
use crate::text::str_eq;

verus! {

/// The type of a data field.
#[derive(Clone, Copy, Debug, PartialEq, Eq, Structural)]
pub enum Optype {
    /// Treat this as a date value.
    DateTime,
    /// Treat this as a numeric value.
    Numeric,
    /// Treat this as a category with multiple possible values, but not
    /// arbitrary strings.
    Categorical,
    /// Treat this as text. This uses different machine learning algorithms
    /// than `Categorical`.
    Text,
    /// Treat this as a list of multiple items separated by an
    /// auto-detected separator.
    Items,
}

/// The name of each field type in the service's interface.
pub open spec fn optype_name(t: Optype) -> Seq<char> {
    match t {
        Optype::DateTime => "datetime"@,
        Optype::Numeric => "numeric"@,
        Optype::Categorical => "categorical"@,
        Optype::Text => "text"@,
        Optype::Items => "items"@,
    }
}

impl Optype {
    /// The name of this field type in the service's interface.
    pub fn as_str(self) -> (r: &'static str)
        ensures
            r@ == optype_name(self),
    {
        match self {
            Optype::DateTime => "datetime",
            Optype::Numeric => "numeric",
            Optype::Categorical => "categorical",
            Optype::Text => "text",
            Optype::Items => "items",
        }
    }

    /// The field type named `s`, if there is one.
    pub fn from_name(s: &str) -> (r: Option<Optype>)
        ensures
            match r {
                Some(t) => optype_name(t) == s@,
                None => forall|t: Optype| optype_name(t) != s@,
            },
    {
        if str_eq(s, "datetime") {
            Some(Optype::DateTime)
        } else if str_eq(s, "numeric") {
            Some(Optype::Numeric)
        } else if str_eq(s, "categorical") {
            Some(Optype::Categorical)
        } else if str_eq(s, "text") {
            Some(Optype::Text)
        } else if str_eq(s, "items") {
            Some(Optype::Items)
        } else {
            None
        }
    }
}

/// Information about a field in a data source.
#[derive(Clone, Debug)]
pub struct Field {
    /// The name of this field.
    pub name: String,
    /// The type of data stored in this field.
    pub optype: Optype,
}

/// The logging level of a log message of a script.
#[derive(Clone, Copy, Debug, PartialEq, Eq, Structural)]
pub enum LogLevel {
    /// Generated by `log-info`.
    Info,
    /// Generated by `log-warn`.
    Warning,
    /// Generated by `log-error`.
    Error,
}

/// The name of each logging level in the service's interface.
pub open spec fn log_level_name(l: LogLevel) -> Seq<char> {
    match l {
        LogLevel::Info => "info"@,
        LogLevel::Warning => "warning"@,
        LogLevel::Error => "error"@,
    }
}

impl LogLevel {
    /// The name of this level in the service's interface.
    pub fn as_str(self) -> (r: &'static str)
        ensures
            r@ == log_level_name(self),
    {
        match self {
            LogLevel::Info => "info",
            LogLevel::Warning => "warning",
            LogLevel::Error => "error",
        }
    }

    /// The level named `s`, if there is one.
    pub fn from_name(s: &str) -> (r: Option<LogLevel>)
        ensures
            match r {
                Some(l) => log_level_name(l) == s@,
                None => forall|l: LogLevel| log_level_name(l) != s@,
            },
    {
        if str_eq(s, "info") {
            Some(LogLevel::Info)
        } else if str_eq(s, "warning") {
            Some(LogLevel::Warning)
        } else if str_eq(s, "error") {
            Some(LogLevel::Error)
        } else {
            None
        }
    }
}

/// A location in an execution's source code.
#[derive(Clone, Copy, Debug, PartialEq, Eq)]
pub struct SourceLocation {
    /// Start and end column.
    pub columns: (u64, u64),
    /// Start and end line.
    pub lines: (u64, u64),
    /// The source file, as a position in the execution's list of sources.
    pub origin: usize,
}

/// Information on the instruction where an error occurred.
#[derive(Clone, Debug)]
pub struct Instruction {
    /// The name of the instruction.
    pub instruction: String,
    /// The source location where the error occurred.
    pub source: SourceLocation,
}

/// Information about an ensemble.
#[derive(Clone, Debug)]
pub struct EnsembleInfo {
    /// Information about the ensemble's fields, keyed by field ID.
    pub fields: HashMap<String, EnsembleField>,
}

/// A field of an ensemble.
#[derive(Clone, Debug)]
pub struct EnsembleField {
    /// The original name of this field (not its field ID).
    pub name: String,
}

/// Fields which are present on all resources.
#[derive(Clone, Debug)]
pub struct ResourceCommon {
    /// Used to classify by industry or category. 0 is "Miscellaneous".
    pub category: i64,
    /// An HTTP status code, typically either 201 or 200.
    pub code: u16,
    /// Was this created in development mode?
    pub dev: Option<bool>,
    /// Text describing this resource. May contain limited Markdown.
    pub description: String,
    /// The name of this resource.
    pub name: String,
    /// Has this been shared using a private link?
    pub shared: bool,
    /// Was this created using a subscription plan?
    pub subscription: bool,
    /// User-defined tags.
    pub tags: Vec<String>,
}

} // verus!
