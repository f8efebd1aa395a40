//! The errors of this library, and which of them are worth a retry.

use vstd::prelude::*;
use crate::credentials::{redacted_url, url_without_api_key};
use crate::wait::WaitStatus;

verus! {

/// HTTP status: payment required (the account's plan limits are reached).
pub const HTTP_PAYMENT_REQUIRED: u16 = 402;
/// HTTP status: internal server error.
pub const HTTP_INTERNAL_SERVER_ERROR: u16 = 500;
/// HTTP status: service unavailable.
pub const HTTP_SERVICE_UNAVAILABLE: u16 = 503;
/// HTTP status: gateway timeout.
pub const HTTP_GATEWAY_TIMEOUT: u16 = 504;

/// An error of this library.
///
/// URLs are held as text with their credential already hidden; `None`
/// stands for a URL that could not be parsed and so is not shown at all.
#[derive(Debug)]
#[allow(inconsistent_fields)]
pub enum Error {
    /// We could not access the specified URL.
    CouldNotAccessUrl { url: Option<String>, source: Box<Error> },
    /// We could not get an output value from a remote script.
    CouldNotGetOutput { name: String, source: Box<Error> },
    /// We could not parse a URL made from this domain.
    CouldNotParseUrlWithDomain { domain: String, source: url::ParseError },
    /// We could not read a file.
    CouldNotReadFile { path: String, source: Box<Error> },
    /// The user must specify the environment variable `var`.
    MissingEnvVar { var: String },
    /// An output value of a remote script is not (yet?) available.
    OutputNotAvailable,
    /// The service says that payment is required for this request, perhaps
    /// because plan limits were hit.
    PaymentRequired { url: Option<String>, body: String },
    /// A wait ran out of time.
    Timeout,
    /// We received an unexpected HTTP status code.
    UnexpectedHttpStatus { url: Option<String>, status: u16, body: String },
    /// We encountered an unknown value type of the service.
    UnknownBigMlType { name: String },
    /// A remote resource that we were waiting on reported an error.
    WaitFailed { id: String, message: String },
    /// A resource ID did not start with the expected prefix.
    WrongResourceType { expected: String, found: String },
    /// A script input given as text was not of the form `name=value`.
    InvalidInput { input: String },
    /// Another kind of error occurred; this is its message.
    Other { message: String },
}

/// An optional string as characters.
pub open spec fn opt_view(s: Option<String>) -> Option<Seq<char>> {
    match s {
        Some(s) => Some(s@),
        None => None,
    }
}

/// Is an HTTP status one that tends to go away by itself?
pub open spec fn is_transient_status(status: u16) -> bool {
    status == HTTP_INTERNAL_SERVER_ERROR || status == HTTP_SERVICE_UNAVAILABLE
        || status == HTTP_GATEWAY_TIMEOUT
}

/// Is this error likely to be temporary? Wrappers ask their cause; quota
/// errors and server-side HTTP failures are temporary; all the rest,
/// `WaitFailed` and `Timeout` among them, are not.
pub open spec fn is_transient(e: Error) -> bool
    decreases e,
{
    match e {
        Error::CouldNotAccessUrl { source, .. } => is_transient(*source),
        Error::CouldNotGetOutput { source, .. } => is_transient(*source),
        Error::CouldNotReadFile { source, .. } => is_transient(*source),
        Error::PaymentRequired { .. } => true,
        Error::UnexpectedHttpStatus { status, .. } => is_transient_status(status),
        _ => false,
    }
}

/// The innermost error under the wrappers that only add a location.
pub open spec fn original_of(e: Error) -> Error
    decreases e,
{
    match e {
        Error::CouldNotAccessUrl { source, .. } => original_of(*source),
        Error::CouldNotGetOutput { source, .. } => original_of(*source),
        Error::CouldNotReadFile { source, .. } => original_of(*source),
        _ => e,
    }
}

/// The outcome that a failed probe reports for `e`: temporary where `e` may
/// go away by itself, permanent otherwise.
pub open spec fn outcome_of<T>(e: Error) -> WaitStatus<T, Error> {
    if is_transient(e) {
        WaitStatus::FailedTemporarily(e)
    } else {
        WaitStatus::FailedPermanently(e)
    }
}

impl Error {
    /// Is this error likely to be temporary?
    pub fn might_be_temporary(&self) -> (r: bool)
        ensures
            r == is_transient(*self),
        decreases *self,
    {
        match self {
            Error::CouldNotAccessUrl { source, .. } => source.might_be_temporary(),
            Error::CouldNotGetOutput { source, .. } => source.might_be_temporary(),
            Error::CouldNotReadFile { source, .. } => source.might_be_temporary(),
            Error::PaymentRequired { .. } => true,
            Error::UnexpectedHttpStatus { status, .. } => {
                *status == HTTP_INTERNAL_SERVER_ERROR || *status == HTTP_SERVICE_UNAVAILABLE
                    || *status == HTTP_GATEWAY_TIMEOUT
            },
            _ => false,
        }
    }

    /// Return the original error that caused this error, without any
    /// wrapper errors.
    pub fn original_bigml_error(&self) -> (r: &Error)
        ensures
            *r == original_of(*self),
        decreases *self,
    {
        match self {
            Error::CouldNotAccessUrl { source, .. } => source.original_bigml_error(),
            Error::CouldNotGetOutput { source, .. } => source.original_bigml_error(),
            Error::CouldNotReadFile { source, .. } => source.original_bigml_error(),
            _ => self,
        }
    }

    /// An `Error::CouldNotAccessUrl`, with the credential taken out of
    /// `url`.
    pub fn could_not_access_url(url: &str, error: Error) -> (r: Error)
        ensures
            match r {
                Error::CouldNotAccessUrl { url: u, source } => opt_view(u) == redacted_url(url@)
                    && *source == error,
                _ => false,
            },
    {
        Error::CouldNotAccessUrl { url: url_without_api_key(url), source: Box::new(error) }
    }

    /// An `Error::CouldNotGetOutput` for the output `name`.
    pub fn could_not_get_output(name: &str, error: Error) -> (r: Error)
        ensures
            match r {
                Error::CouldNotGetOutput { name: n, source } => n@ == name@ && *source == error,
                _ => false,
            },
    {
        Error::CouldNotGetOutput { name: name.to_owned(), source: Box::new(error) }
    }

    /// An `Error::CouldNotParseUrlWithDomain` for `domain`.
    pub fn could_not_parse_url_with_domain(domain: &str, error: url::ParseError) -> (r: Error)
        ensures
            match r {
                Error::CouldNotParseUrlWithDomain { domain: d, source } => d@ == domain@ && source == error,
                _ => false,
            },
    {
        Error::CouldNotParseUrlWithDomain { domain: domain.to_owned(), source: error }
    }

    /// An `Error::CouldNotReadFile` for `path`.
    pub fn could_not_read_file(path: &str, error: Error) -> (r: Error)
        ensures
            match r {
                Error::CouldNotReadFile { path: p, source } => p@ == path@ && *source == error,
                _ => false,
            },
    {
        Error::CouldNotReadFile { path: path.to_owned(), source: Box::new(error) }
    }

    /// An `Error::MissingEnvVar` for `var`.
    pub fn missing_env_var(var: &str) -> (r: Error)
        ensures
            match r {
                Error::MissingEnvVar { var: v } => v@ == var@,
                _ => false,
            },
    {
        Error::MissingEnvVar { var: var.to_owned() }
    }

    /// The error for a response with a failing HTTP `status` to a request
    /// for `url`: `PaymentRequired` for 402, `UnexpectedHttpStatus`
    /// otherwise. The credential is taken out of `url`.
    pub fn for_http_status(url: &str, status: u16, body: String) -> (r: Error)
        ensures
            status == HTTP_PAYMENT_REQUIRED ==> match r {
                Error::PaymentRequired { url: u, body: b } => opt_view(u) == redacted_url(url@) && b == body,
                _ => false,
            },
            status != HTTP_PAYMENT_REQUIRED ==> match r {
                Error::UnexpectedHttpStatus { url: u, status: s, body: b } => opt_view(u)
                    == redacted_url(url@) && s == status && b == body,
                _ => false,
            },
    {
        let url = url_without_api_key(url);
        if status == HTTP_PAYMENT_REQUIRED {
            Error::PaymentRequired { url, body }
        } else {
            Error::UnexpectedHttpStatus { url, status, body }
        }
    }
}

/// The value of `r`, or, for an error, the report that this probe failed
/// temporarily or for good, as the error is classified.
pub fn classified_failure<T, U>(r: Result<T, Error>) -> (o: Result<T, WaitStatus<U, Error>>)
    ensures
        o == match r {
            Ok(v) => Ok::<T, WaitStatus<U, Error>>(v),
            Err(e) => Err(outcome_of::<U>(e)),
        },
{
    match r {
        Ok(v) => Ok(v),
        Err(e) => Err(WaitStatus::from(e)),
    }
}

impl<T> From<Error> for WaitStatus<T, Error> {
    /// Convert an [`Error`] to either [`WaitStatus::FailedTemporarily`] or
    /// [`WaitStatus::FailedPermanently`] depending on
    /// [`Error::might_be_temporary`].
    fn from(error: Error) -> (r: Self)
        ensures
            r == outcome_of::<T>(error),
    {
        if error.might_be_temporary() {
            WaitStatus::FailedTemporarily(error)
        } else {
            WaitStatus::FailedPermanently(error)
        }
    }
}

impl<T> vstd::std_specs::convert::FromSpecImpl<Error> for WaitStatus<T, Error> {
    open spec fn obeys_from_spec() -> bool {
        true
    }

    open spec fn from_spec(v: Error) -> Self {
        outcome_of::<T>(v)
    }
}

} // verus!
