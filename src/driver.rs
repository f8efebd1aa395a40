//! Running many executions of a remote script, a bounded number at a time.
//!
//! Each input resource gets one task, which creates a remote execution
//! (retrying temporary failures of the creation), then polls it until it
//! is done (retrying the whole task when its failure message matches a
//! user-supplied pattern). The [`Scheduler`] decides when a new task may
//! start and keeps track of which ones have completed; whoever runs the
//! tasks asks it before starting one and tells it when one completes.

use vstd::prelude::*;
use crate::errors::{classified_failure, original_of, outcome_of, Error};
use crate::wait::{BackoffType, WaitOptions, WaitStatus};

verus! {

/// Is `pattern` a regular expression that the `regex` crate compiles?
pub uninterp spec fn is_regex(pattern: Seq<char>) -> bool;

/// Does the regular expression written `pattern` match somewhere in `text`?
pub uninterp spec fn regex_matches(pattern: Seq<char>, text: Seq<char>) -> bool;

/// Relies on `regex::Regex::new`: the compiled form of `pattern`, or the
/// `regex` crate's message saying why it is not a valid regular expression.
#[verifier::external_body]
fn compile(pattern: &str) -> (r: Result<regex::Regex, String>)
    ensures
        r is Ok == is_regex(pattern@),
{
    regex::Regex::new(pattern).map_err(|e| e.to_string())
}

/// A regular expression matched against the failure messages of remote
/// executions, together with the text it was compiled from. Its fields are
/// private and [`RetryPattern::new`] is its only constructor, so the
/// compiled expression is always the one written in `pattern`.
pub struct RetryPattern {
    pattern: String,
    regex: regex::Regex,
}

impl RetryPattern {
    /// The text of the regular expression.
    pub closed spec fn pattern(&self) -> Seq<char> {
        self.pattern@
    }

    /// Compile `pattern`, or say (with the `regex` crate's message) why it
    /// is not a valid regular expression.
    pub fn new(pattern: &str) -> (r: Result<RetryPattern, String>)
        ensures
            r is Ok == is_regex(pattern@),
            r matches Ok(p) ==> p.pattern() == pattern@,
    {
        match compile(pattern) {
            Ok(regex) => Ok(RetryPattern { pattern: pattern.to_owned(), regex }),
            Err(message) => Err(message),
        }
    }

    /// Relies on `regex::Regex::is_match`: does the pattern match somewhere
    /// in `text`?
    #[verifier::external_body]
    pub(crate) fn is_match(&self, text: &str) -> (r: bool)
        ensures
            r == regex_matches(self.pattern(), text@),
    {
        self.regex.is_match(text)
    }
}

/// The options of the wait around a whole task: exponential backoff from
/// two minutes, `retry_count` tolerated retries, no timeout.
pub fn execution_wait_options(retry_count: u16) -> (r: WaitOptions)
    ensures
        r.timeout is None,
        r.retry_interval == 120_000,
        r.backoff_type == BackoffType::Exponential,
        r.allowed_errors == retry_count,
{
    WaitOptions::default().retry_interval(120_000).backoff_type(BackoffType::Exponential).allowed_errors(retry_count)
}

/// The options of the wait around the creation of an execution:
/// exponential backoff from one minute, six tolerated temporary failures
/// (creation mostly fails for want of free slots on the account).
pub fn create_wait_options() -> (r: WaitOptions)
    ensures
        r.timeout is None,
        r.retry_interval == 60_000,
        r.backoff_type == BackoffType::Exponential,
        r.allowed_errors == 6,
{
    WaitOptions::default().retry_interval(60_000).backoff_type(BackoffType::Exponential).allowed_errors(6)
}

/// What one attempt at creating a resource reports: the created resource
/// finishes the wait; an error is temporary or permanent as it is
/// classified.
pub fn create_outcome<T>(created: Result<T, Error>) -> (r: WaitStatus<T, Error>)
    ensures
        r == match created {
            Ok(v) => WaitStatus::Finished(v),
            Err(e) => outcome_of::<T>(e),
        },
{
    match classified_failure(created) {
        Ok(v) => WaitStatus::Finished(v),
        Err(report) => report,
    }
}

/// The message of a failed remote resource under `e`, if `e` comes from one.
pub open spec fn failure_message_of(e: Error) -> Option<String> {
    match original_of(e) {
        Error::WaitFailed { message, .. } => Some(message),
        _ => None,
    }
}

/// The message of the failed remote resource that caused `e`, if that is
/// what caused it.
pub fn failure_message(e: &Error) -> (r: Option<&String>)
    ensures
        match (r, failure_message_of(*e)) {
            (Some(a), Some(b)) => *a == b,
            (None, None) => true,
            _ => false,
        },
{
    match e.original_bigml_error() {
        Error::WaitFailed { message, .. } => Some(message),
        _ => None,
    }
}

/// What one whole task reports, given the result of waiting on its
/// execution and whether the retry pattern matched the failure message:
/// a finished execution finishes; a failed execution whose message matched
/// is worth a fresh task; any other error is final.
pub fn task_outcome_given<R>(waited: Result<R, Error>, message_matched: bool) -> (r: WaitStatus<R, Error>)
    ensures
        r == match waited {
            Ok(v) => WaitStatus::Finished(v),
            Err(e) => if message_matched && failure_message_of(e) is Some {
                WaitStatus::FailedTemporarily(e)
            } else {
                WaitStatus::FailedPermanently(e)
            },
        },
{
    match waited {
        Ok(v) => WaitStatus::Finished(v),
        Err(e) => {
            if message_matched && failure_message(&e).is_some() {
                WaitStatus::FailedTemporarily(e)
            } else {
                WaitStatus::FailedPermanently(e)
            }
        },
    }
}

/// What one whole task reports: as [`task_outcome_given`], where the
/// message matched if there is a retry pattern and it matches the message
/// of the failed remote execution.
pub fn task_outcome<R>(waited: Result<R, Error>, retry_on: Option<&RetryPattern>) -> (r: WaitStatus<R, Error>)
    ensures
        r == match waited {
            Ok(v) => WaitStatus::Finished(v),
            Err(e) => match (retry_on, failure_message_of(e)) {
                (Some(p), Some(m)) => if regex_matches(p.pattern(), m@) {
                    WaitStatus::FailedTemporarily(e)
                } else {
                    WaitStatus::FailedPermanently(e)
                },
                _ => WaitStatus::FailedPermanently(e),
            },
        },
{
    let matched = match &waited {
        Ok(_) => false,
        Err(e) => match (retry_on, failure_message(e)) {
            (Some(p), Some(m)) => p.is_match(m.as_str()),
            _ => false,
        },
    };
    task_outcome_given(waited, matched)
}

/// How many of `done` are still `false`: the tasks still running.
pub open spec fn count_running(done: Seq<bool>) -> nat
    decreases done.len(),
{
    if done.len() == 0 {
        0
    } else {
        count_running(done.drop_last()) + if done.last() { 0nat } else { 1nat }
    }
}

proof fn lemma_count_push(done: Seq<bool>, b: bool)
    ensures
        count_running(done.push(b)) == count_running(done) + if b { 0nat } else { 1nat },
{
    assert(done.push(b).drop_last() =~= done);
}

proof fn lemma_count_finish(done: Seq<bool>, i: int)
    requires
        0 <= i < done.len(),
        !done[i],
    ensures
        count_running(done.update(i, true)) + 1 == count_running(done),
    decreases done.len(),
{
    let u = done.update(i, true);
    if i == done.len() - 1 {
        assert(u.drop_last() =~= done.drop_last());
    } else {
        assert(u.drop_last() =~= done.drop_last().update(i, true));
        lemma_count_finish(done.drop_last(), i);
    }
}

proof fn lemma_count_zero(done: Seq<bool>, i: int)
    requires
        count_running(done) == 0,
        0 <= i < done.len(),
    ensures
        done[i],
    decreases done.len(),
{
    if i < done.len() - 1 {
        lemma_count_zero(done.drop_last(), i);
    }
}

/// Bookkeeping of the tasks of a parallel run.
///
/// Tasks are numbered from 0 in the order in which they start. `done[i]`
/// says whether task `i` has completed, `completed` lists the completed
/// tasks in the order in which they completed, and at most `max_tasks`
/// tasks run at any time. Change it only through its methods.
#[derive(Debug)]
pub struct Scheduler {
    /// How many tasks may run at once.
    pub max_tasks: usize,
    /// Whether more input may come.
    pub input_open: bool,
    /// For each task started so far, whether it has completed.
    pub done: Vec<bool>,
    /// The tasks that have completed, in the order in which they did.
    pub completed: Vec<usize>,
    /// How many tasks are running.
    pub in_flight: usize,
}

impl Scheduler {
    /// The consistency of the bookkeeping.
    pub open spec fn wf(&self) -> bool {
        &&& self.in_flight == count_running(self.done@)
        &&& self.in_flight <= self.max_tasks
        &&& self.done@.len() <= usize::MAX
        &&& self.completed@.no_duplicates()
        &&& forall|j: int| 0 <= j < self.completed@.len() ==> #[trigger] self.completed@[j] < self.done@.len()
        &&& forall|i: int| 0 <= i < self.done@.len() ==> (#[trigger] self.done@[i] <==> self.completed@.contains(i as usize))
    }

    /// A run that lets `max_tasks` tasks run at once and has seen no input.
    pub fn new(max_tasks: usize) -> (r: Scheduler)
        ensures
            r.wf(),
            r.max_tasks == max_tasks,
            r.input_open,
            r.done@.len() == 0,
            r.completed@.len() == 0,
            r.in_flight == 0,
    {
        Scheduler { max_tasks, input_open: true, done: Vec::new(), completed: Vec::new(), in_flight: 0 }
    }

    /// May a new task start now? Only while input may still come and a
    /// slot is free.
    pub fn can_start(&self) -> (r: bool)
        ensures
            r == (self.input_open && self.in_flight < self.max_tasks && self.done@.len() < usize::MAX),
    {
        self.input_open && self.in_flight < self.max_tasks && self.done.len() < usize::MAX
    }

    /// Record that a new task starts, and give its number.
    pub fn start(&mut self) -> (index: usize)
        requires
            old(self).wf(),
            old(self).input_open,
            old(self).in_flight < old(self).max_tasks,
            old(self).done@.len() < usize::MAX,
        ensures
            final(self).wf(),
            index == old(self).done@.len(),
            final(self).done@ == old(self).done@.push(false),
            final(self).completed@ == old(self).completed@,
            final(self).in_flight == old(self).in_flight + 1,
            final(self).max_tasks == old(self).max_tasks,
            final(self).input_open == old(self).input_open,
    {
        let index = self.done.len();
        proof {
            lemma_count_push(self.done@, false);
        }
        self.done.push(false);
        self.in_flight = self.in_flight + 1;
        assert forall|i: int| 0 <= i < self.done@.len() implies
            (#[trigger] self.done@[i] <==> self.completed@.contains(i as usize)) by {
            if i == index {
                if self.completed@.contains(i as usize) {
                    let j = choose|j: int| 0 <= j < self.completed@.len() && self.completed@[j] == i as usize;
                    assert(self.completed@[j] < old(self).done@.len());
                }
            } else {
                assert(self.done@[i] == old(self).done@[i]);
            }
        }
        index
    }

    /// Record that no more input will come.
    pub fn input_ended(&mut self)
        requires
            old(self).wf(),
        ensures
            final(self).wf(),
            !final(self).input_open,
            final(self).done@ == old(self).done@,
            final(self).completed@ == old(self).completed@,
            final(self).in_flight == old(self).in_flight,
            final(self).max_tasks == old(self).max_tasks,
    {
        self.input_open = false;
    }

    /// Record that task `index` has completed. Returns whether it was
    /// running; a task that is not running (never started, or already
    /// completed) changes nothing.
    pub fn finish(&mut self, index: usize) -> (r: bool)
        requires
            old(self).wf(),
        ensures
            final(self).wf(),
            r == (index < old(self).done@.len() && !old(self).done@[index as int]),
            r ==> final(self).done@ == old(self).done@.update(index as int, true),
            r ==> final(self).completed@ == old(self).completed@.push(index),
            r ==> final(self).in_flight == old(self).in_flight - 1,
            !r ==> final(self).done@ == old(self).done@ && final(self).completed@ == old(self).completed@
                && final(self).in_flight == old(self).in_flight,
            final(self).max_tasks == old(self).max_tasks,
            final(self).input_open == old(self).input_open,
    {
        if index >= self.done.len() || self.done[index] {
            return false;
        }
        proof {
            lemma_count_finish(self.done@, index as int);
            assert(!self.completed@.contains(index));
        }
        self.done.set(index, true);
        self.completed.push(index);
        self.in_flight = self.in_flight - 1;
        assert forall|i: int| 0 <= i < self.done@.len() implies
            (#[trigger] self.done@[i] <==> self.completed@.contains(i as usize)) by {
            if i != index {
                assert(self.done@[i] == old(self).done@[i]);
                if self.completed@.contains(i as usize) {
                    let j = choose|j: int| 0 <= j < self.completed@.len() && self.completed@[j] == i as usize;
                    assert(j < old(self).completed@.len());
                    assert(old(self).completed@[j] == i as usize);
                }
                if old(self).completed@.contains(i as usize) {
                    let j = choose|j: int| 0 <= j < old(self).completed@.len() && old(self).completed@[j] == i as usize;
                    assert(self.completed@[j] == i as usize);
                }
            } else {
                assert(self.completed@[self.completed@.len() - 1] == index);
            }
        }
        assert forall|a: int, b: int| 0 <= a < b < self.completed@.len() implies
            self.completed@[a] != self.completed@[b] by {
            if b == self.completed@.len() - 1 {
                assert(old(self).completed@[a] == self.completed@[a]);
                assert(old(self).completed@.contains(self.completed@[a]));
            }
        }
        true
    }

    /// Is the run over: no more input, and no task running?
    pub fn is_done(&self) -> (r: bool)
        ensures
            r == (!self.input_open && self.in_flight == 0),
    {
        !self.input_open && self.in_flight == 0
    }
}

/// However the run goes, no more than `max_tasks` tasks are running at
/// once, and no task is reported complete twice.
pub proof fn law_bounded_and_once(s: Scheduler)
    requires
        s.wf(),
    ensures
        s.in_flight <= s.max_tasks,
        s.completed@.no_duplicates(),
{
}

/// When no task is running, every task that was started has completed,
/// and each appears exactly once among the completed ones.
pub proof fn law_all_complete(s: Scheduler)
    requires
        s.wf(),
        s.in_flight == 0,
    ensures
        forall|i: usize| (i as int) < s.done@.len() ==> #[trigger] s.completed@.contains(i),
        s.completed@.no_duplicates(),
        s.completed@.len() == s.done@.len(),
{
    assert forall|i: usize| (i as int) < s.done@.len() implies #[trigger] s.completed@.contains(i) by {
        lemma_count_zero(s.done@, i as int);
        assert(s.done@[i as int]);
    }
    let c = s.completed@.to_set();
    let d = Set::new(|i: usize| (i as int) < s.done@.len());
    assert(c =~= d) by {
        assert forall|x: usize| c.contains(x) <==> d.contains(x) by {
            if c.contains(x) {
                let j = choose|j: int| 0 <= j < s.completed@.len() && s.completed@[j] == x;
                assert(s.completed@[j] < s.done@.len());
            }
            if d.contains(x) {
                assert(s.completed@.contains(x as int as usize));
            }
        }
    }
    s.completed@.unique_seq_to_set();
    assert(d =~= Set::new(|i: usize| (i as int) < s.done@.len()));
    lemma_indices_set_len(s.done@.len());
}

proof fn lemma_indices_set_len(n: nat)
    requires
        n <= usize::MAX,
    ensures
        Set::new(|i: usize| (i as int) < n).len() == n,
        Set::new(|i: usize| (i as int) < n).finite(),
    decreases n,
{
    let s = Set::new(|i: usize| (i as int) < n);
    if n == 0 {
        assert(s =~= Set::empty());
    } else {
        let t = Set::new(|i: usize| (i as int) < n - 1);
        lemma_indices_set_len((n - 1) as nat);
        assert(s =~= t.insert((n - 1) as usize));
    }
}

} // verus!
