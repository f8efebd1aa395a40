//! Status codes that the remote service reports for its resources.

use vstd::prelude::*;

verus! {

/// A status code of a remote resource.
#[derive(Debug, Clone, Copy, PartialEq, Eq, Structural)]
pub enum StatusCode {
    /// The service is waiting on another resource before processing this one.
    Waiting,
    /// The processing job has been added to the queue.
    Queued,
    /// Actual processing has started.
    Started,
    /// Part of the job has been performed.
    InProgress,
    /// Summary statistics for a dataset are available.
    Summarized,
    /// The resource is ready.
    Finished,
    /// Something went wrong processing the task.
    Faulty,
    /// Something has gone wrong in the service, perhaps an outage.
    Unknown,
}

/// The name under which older code knows [`StatusCode`].
pub type ResourceStatusCode = StatusCode;

/// The number under which the service sends each status code.
pub open spec fn code_number(code: StatusCode) -> int {
    match code {
        StatusCode::Waiting => 0,
        StatusCode::Queued => 1,
        StatusCode::Started => 2,
        StatusCode::InProgress => 3,
        StatusCode::Summarized => 4,
        StatusCode::Finished => 5,
        StatusCode::Faulty => -1,
        StatusCode::Unknown => -2,
    }
}

/// Still being worked on.
pub open spec fn is_working_code(code: StatusCode) -> bool {
    code == StatusCode::Waiting || code == StatusCode::Queued || code == StatusCode::Started
        || code == StatusCode::InProgress || code == StatusCode::Summarized
}

/// Successfully finished.
pub open spec fn is_ready_code(code: StatusCode) -> bool {
    code == StatusCode::Finished
}

/// Failed.
pub open spec fn is_err_code(code: StatusCode) -> bool {
    code == StatusCode::Faulty || code == StatusCode::Unknown
}

impl StatusCode {
    /// Is the service still working on ingesting and processing this resource?
    pub fn is_working(self) -> (r: bool)
        ensures
            r == is_working_code(self),
    {
        match self {
            StatusCode::Waiting | StatusCode::Queued | StatusCode::Started
            | StatusCode::InProgress | StatusCode::Summarized => true,
            _ => false,
        }
    }

    /// Has the service successfully finished processing this resource?
    pub fn is_ready(self) -> (r: bool)
        ensures
            r == is_ready_code(self),
    {
        self == StatusCode::Finished
    }

    /// Did something go wrong while processing this resource?
    pub fn is_err(self) -> (r: bool)
        ensures
            r == is_err_code(self),
    {
        self == StatusCode::Faulty || self == StatusCode::Unknown
    }

    /// The status code that the service sends as `number`, if any: 0 to 5
    /// for the stages from `Waiting` to `Finished`, -1 and -2 for the two
    /// kinds of failure.
    pub fn from_number(number: i64) -> (r: Option<StatusCode>)
        ensures
            match r {
                Some(code) => code_number(code) == number,
                None => -2 > number || number > 5,
            },
    {
        match number {
            0 => Some(StatusCode::Waiting),
            1 => Some(StatusCode::Queued),
            2 => Some(StatusCode::Started),
            3 => Some(StatusCode::InProgress),
            4 => Some(StatusCode::Summarized),
            5 => Some(StatusCode::Finished),
            -1 => Some(StatusCode::Faulty),
            -2 => Some(StatusCode::Unknown),
            _ => None,
        }
    }

    /// The number under which the service sends this status code.
    pub fn number(self) -> (r: i64)
        ensures
            r == code_number(self),
    {
        match self {
            StatusCode::Waiting => 0,
            StatusCode::Queued => 1,
            StatusCode::Started => 2,
            StatusCode::InProgress => 3,
            StatusCode::Summarized => 4,
            StatusCode::Finished => 5,
            StatusCode::Faulty => -1,
            StatusCode::Unknown => -2,
        }
    }
}

/// Every status code is exactly one of working, ready or failed.
pub proof fn law_status_kinds(code: StatusCode)
    ensures
        is_working_code(code) || is_ready_code(code) || is_err_code(code),
        !(is_working_code(code) && is_ready_code(code)),
        !(is_working_code(code) && is_err_code(code)),
        !(is_ready_code(code) && is_err_code(code)),
{
}

/// Each status code is read back from the number it is sent as, and
/// distinct codes have distinct numbers.
pub proof fn law_status_number_round_trip(code: StatusCode, other: StatusCode)
    ensures
        -2 <= code_number(code) <= 5,
        code_number(code) == code_number(other) ==> code == other,
{
}

} // verus!
