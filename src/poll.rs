//! Polling a remote resource until it is ready.
//!
//! Each poll fetches the resource, shows it to the progress callback if
//! there is one, and then reads its status. [`poll_outcome`] turns what
//! happened into the report that the wait engine expects.

use vstd::prelude::*;
use crate::errors::Error;
use crate::status::StatusCode;
use crate::wait::{permanent_failure, temporary_failure, BackoffType, WaitOptions, WaitStatus};

verus! {

/// A fetched resource, with what the poll needs to know of it.
#[derive(Debug)]
pub struct Snapshot<R> {
    /// The resource as it was fetched.
    pub resource: R,
    /// Its status code.
    pub code: StatusCode,
    /// Its human-readable status message.
    pub message: String,
}

/// Options specifying how to report progress: an optional callback that
/// sees each fetched value. A callback that fails ends the wait for good,
/// since its failure is a bug of the caller, not a passing condition.
pub struct ProgressOptions<F> {
    /// The callback, if any.
    pub callback: Option<F>,
}

impl<F> ProgressOptions<F> {
    /// Specify a callback to be called whenever we see a new value.
    pub fn callback(self, callback: F) -> (r: Self)
        ensures
            r.callback == Some(callback),
    {
        ProgressOptions { callback: Some(callback) }
    }

    /// No callback.
    pub fn none() -> (r: Self)
        ensures
            r.callback is None,
    {
        ProgressOptions { callback: None }
    }
}

/// The options of a poll when the caller gives none: exponential backoff
/// from ten seconds, six tolerated temporary failures, no timeout.
pub fn default_poll_options() -> (r: WaitOptions)
    ensures
        r.timeout is None,
        r.retry_interval == 10_000,
        r.backoff_type == BackoffType::Exponential,
        r.allowed_errors == 6,
{
    WaitOptions::default().backoff_type(BackoffType::Exponential).retry_interval(10_000).allowed_errors(6)
}

/// Decide what one poll of the resource `id` reports: a failed fetch is a
/// temporary failure; a failed progress callback is a permanent one; then
/// a ready resource finishes the wait, a failed one ends it for good with
/// `WaitFailed` (retrying in place cannot help: the resource must be made
/// anew), and any other status asks for another poll.
pub fn poll_outcome<R>(id: &str, fetched: Result<Snapshot<R>, Error>, progress: Result<(), Error>) -> (r: WaitStatus<R, Error>)
    ensures
        match fetched {
            Err(e) => r == WaitStatus::<R, Error>::FailedTemporarily(e),
            Ok(snapshot) => match progress {
                Err(e) => r == WaitStatus::<R, Error>::FailedPermanently(e),
                Ok(()) => if snapshot.code == StatusCode::Finished {
                    r == WaitStatus::<R, Error>::Finished(snapshot.resource)
                } else if snapshot.code == StatusCode::Faulty || snapshot.code == StatusCode::Unknown {
                    match r {
                        WaitStatus::FailedPermanently(Error::WaitFailed { id: i, message: m }) =>
                            i@ == id@ && m == snapshot.message,
                        _ => false,
                    }
                } else {
                    r is Waiting
                },
            },
        },
{
    let snapshot = match temporary_failure(fetched) {
        Ok(snapshot) => snapshot,
        Err(report) => return report,
    };
    if let Err(report) = permanent_failure::<(), R, Error>(progress) {
        return report;
    }
    if snapshot.code.is_ready() {
        WaitStatus::Finished(snapshot.resource)
    } else if snapshot.code.is_err() {
        WaitStatus::FailedPermanently(Error::WaitFailed { id: id.to_owned(), message: snapshot.message })
    } else {
        WaitStatus::Waiting
    }
}

/// The media type under which the service answers "not yet" to a download.
pub open spec fn json_media_type() -> Seq<u8> {
    "application/json"@.map_values(|c: char| c as u8)
}

/// Does a `Content-Type` header value announce JSON?
pub fn is_json_content_type(content_type: &[u8]) -> (r: bool)
    ensures
        r == (content_type@.len() >= json_media_type().len()
            && content_type@.take(json_media_type().len() as int) == json_media_type()),
{
    let prefix: [u8; 16] = [97, 112, 112, 108, 105, 99, 97, 116, 105, 111, 110, 47, 106, 115, 111, 110];
    proof {
        reveal_strlit("application/json");
        assert(prefix@ =~= json_media_type());
    }
    if content_type.len() < 16 {
        return false;
    }
    let mut i: usize = 0;
    while i < 16
        invariant
            i <= 16,
            content_type@.len() >= 16,
            prefix@ == json_media_type(),
            forall|j: int| 0 <= j < i ==> content_type@[j] == prefix@[j],
        decreases 16 - i,
    {
        if content_type[i] != prefix[i] {
            assert(content_type@.take(16)[i as int] != json_media_type()[i as int]);
            return false;
        }
        i = i + 1;
    }
    assert(content_type@.take(16) =~= json_media_type());
    true
}

/// What one download attempt reports: a failure to get an answer, or an
/// answer with a failing status (`error`), is temporary; a JSON answer
/// means the file is not ready yet; any other answer is the file.
pub fn download_outcome<R>(answer: Result<R, Error>, is_json: bool) -> (r: WaitStatus<R, Error>)
    ensures
        r == match answer {
            Err(e) => WaitStatus::FailedTemporarily(e),
            Ok(response) => if is_json {
                WaitStatus::Waiting
            } else {
                WaitStatus::Finished(response)
            },
        },
{
    match answer {
        Err(e) => WaitStatus::FailedTemporarily(e),
        Ok(response) => {
            if is_json {
                WaitStatus::Waiting
            } else {
                WaitStatus::Finished(response)
            }
        },
    }
}

/// The options of a download when the caller gives none: those of
/// [`WaitOptions::default`] with a ten-minute timeout, since the service
/// can take minutes before a freshly made dataset can be downloaded.
pub fn default_download_options() -> (r: WaitOptions)
    ensures
        r.timeout == Some(600_000u64),
        r.retry_interval == 10_000,
        r.backoff_type == BackoffType::Linear,
        r.allowed_errors == 2,
{
    WaitOptions::default().timeout(Some(600_000))
}

} // verus!
