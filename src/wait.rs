//! Waiting, timeouts and error retries.
//!
//! A wait calls a probe again and again until it reports a final outcome.
//! The decisions between two probes are made by [`WaitState::step`], which
//! is told what the probe returned and what time it is, and answers with the
//! next thing to do: finish, fail, time out, or sleep for some milliseconds.
//! Whoever drives the probe performs the sleep and calls `step` again.
//!
//! All durations and instants are counted in milliseconds.

use vstd::prelude::*;
use vstd::arithmetic::power2::pow2;

verus! {

/// Shortest pause between two probes, in milliseconds. The remote service
/// asks its clients not to poll more often than this.
pub const MIN_SLEEP_MILLIS: u64 = 4000;

/// How should we back off if we fail?
#[derive(Copy, Clone, Debug, PartialEq, Eq, Structural)]
pub enum BackoffType {
    /// Use the same interval for each retry.
    Linear,
    /// Double the interval after each failure.
    Exponential,
}

/// Options controlling how long we wait and what makes us give up.
/// This uses a "builder" pattern:
/// `WaitOptions::default().timeout(Some(120_000)).allowed_errors(5)`.
#[derive(Copy, Clone, Debug)]
pub struct WaitOptions {
    /// How long the whole wait may last, if it is limited.
    pub timeout: Option<u64>,
    /// How long to wait between two probes at first.
    pub retry_interval: u64,
    /// What kind of back-off should we use?
    pub backoff_type: BackoffType,
    /// How many temporary failures are tolerated before giving up?
    pub allowed_errors: u16,
}

impl WaitOptions {
    /// Set an optional timeout after which to abandon the wait.
    pub fn timeout(self, timeout: Option<u64>) -> (r: Self)
        ensures
            r.timeout == timeout,
            r.retry_interval == self.retry_interval,
            r.backoff_type == self.backoff_type,
            r.allowed_errors == self.allowed_errors,
    {
        let mut r = self;
        r.timeout = timeout;
        r
    }

    /// How long should we wait between retries? Whatever is set here, no
    /// sleep is ever shorter than [`MIN_SLEEP_MILLIS`].
    pub fn retry_interval(self, interval: u64) -> (r: Self)
        ensures
            r.timeout == self.timeout,
            r.retry_interval == interval,
            r.backoff_type == self.backoff_type,
            r.allowed_errors == self.allowed_errors,
    {
        let mut r = self;
        r.retry_interval = interval;
        r
    }

    /// Should we use linear (default) or exponential backoff?
    pub fn backoff_type(self, backoff_type: BackoffType) -> (r: Self)
        ensures
            r.timeout == self.timeout,
            r.retry_interval == self.retry_interval,
            r.backoff_type == backoff_type,
            r.allowed_errors == self.allowed_errors,
    {
        let mut r = self;
        r.backoff_type = backoff_type;
        r
    }

    /// How many temporary failures should be tolerated before giving up?
    pub fn allowed_errors(self, count: u16) -> (r: Self)
        ensures
            r.timeout == self.timeout,
            r.retry_interval == self.retry_interval,
            r.backoff_type == self.backoff_type,
            r.allowed_errors == count,
    {
        let mut r = self;
        r.allowed_errors = count;
        r
    }
}

impl Default for WaitOptions {
    /// No timeout, ten seconds between probes, linear backoff, two
    /// tolerated temporary failures.
    fn default() -> (r: Self)
        ensures
            r.timeout is None,
            r.retry_interval == 10_000,
            r.backoff_type == BackoffType::Linear,
            r.allowed_errors == 2,
    {
        WaitOptions {
            timeout: None,
            retry_interval: 10_000,
            backoff_type: BackoffType::Linear,
            allowed_errors: 2,
        }
    }
}

/// What a probe reports each time it is called.
#[derive(Debug)]
pub enum WaitStatus<T, E> {
    /// The task has finished.
    Finished(T),
    /// The task hasn't finished yet, so wait a while and try again.
    Waiting,
    /// The task has failed, but the failure is believed to be temporary.
    FailedTemporarily(E),
    /// The task has failed, and we don't believe that it will ever succeed.
    FailedPermanently(E),
}

/// The value of `r`, or, for an error, the report that this probe failed
/// temporarily with it: for use with `?`-style early returns in a probe.
pub fn temporary_failure<T, U, E>(r: Result<T, E>) -> (o: Result<T, WaitStatus<U, E>>)
    ensures
        o == match r {
            Ok(v) => Ok::<T, WaitStatus<U, E>>(v),
            Err(e) => Err(WaitStatus::FailedTemporarily(e)),
        },
{
    match r {
        Ok(v) => Ok(v),
        Err(e) => Err(WaitStatus::FailedTemporarily(e)),
    }
}

/// The value of `r`, or, for an error, the report that this probe failed
/// for good with it.
pub fn permanent_failure<T, U, E>(r: Result<T, E>) -> (o: Result<T, WaitStatus<U, E>>)
    ensures
        o == match r {
            Ok(v) => Ok::<T, WaitStatus<U, E>>(v),
            Err(e) => Err(WaitStatus::FailedPermanently(e)),
        },
{
    match r {
        Ok(v) => Ok(v),
        Err(e) => Err(WaitStatus::FailedPermanently(e)),
    }
}

/// The pause actually taken for a given interval: never below the floor.
pub open spec fn sleep_for(interval: u64) -> u64 {
    if interval < MIN_SLEEP_MILLIS {
        MIN_SLEEP_MILLIS
    } else {
        interval
    }
}

/// Would sleeping from `now` for the pause of `interval` end after the
/// deadline, if there is one?
pub open spec fn exceeds_deadline(now: u64, interval: u64, deadline: Option<u64>) -> bool {
    match deadline {
        Some(d) => now + sleep_for(interval) > d,
        None => false,
    }
}

/// The interval after one more round: unchanged under linear backoff,
/// doubled under exponential backoff (held at `u64::MAX` where doubling
/// would not fit).
pub open spec fn interval_after(backoff: BackoffType, interval: u64) -> u64 {
    match backoff {
        BackoffType::Linear => interval,
        BackoffType::Exponential => if interval <= u64::MAX / 2 {
            (2 * interval) as u64
        } else {
            u64::MAX
        },
    }
}

/// The pause to take for the current interval.
pub fn effective_sleep(interval: u64) -> (r: u64)
    ensures
        r == sleep_for(interval),
        r >= MIN_SLEEP_MILLIS,
        r >= interval,
{
    if interval < MIN_SLEEP_MILLIS {
        MIN_SLEEP_MILLIS
    } else {
        interval
    }
}

/// Would the next pause, taken at `now`, end after `deadline`?
pub fn would_exceed_deadline(now: u64, interval: u64, deadline: Option<u64>) -> (r: bool)
    ensures
        r == exceeds_deadline(now, interval, deadline),
{
    match deadline {
        None => false,
        Some(d) => {
            let pause = effective_sleep(interval);
            if now > d {
                true
            } else {
                pause > d - now
            }
        },
    }
}

/// The interval to use after this one.
pub fn next_interval(backoff: BackoffType, interval: u64) -> (r: u64)
    ensures
        r == interval_after(backoff, interval),
{
    match backoff {
        BackoffType::Linear => interval,
        BackoffType::Exponential => {
            if interval <= u64::MAX / 2 {
                2 * interval
            } else {
                u64::MAX
            }
        },
    }
}

/// What to do after a probe has reported.
#[derive(Debug)]
pub enum WaitAction<T, E> {
    /// Return this value: the wait has succeeded.
    Finish(T),
    /// Return this error: the wait has failed.
    Fail(E),
    /// The next pause would end after the deadline: the wait has timed out.
    Timeout,
    /// Sleep this many milliseconds, then call the probe again.
    Sleep(u64),
}

/// The state of one wait between two probes.
#[derive(Copy, Clone, Debug)]
pub struct WaitState {
    /// When the wait must end, if it has a timeout.
    pub deadline: Option<u64>,
    /// The current interval between probes, before the floor is applied.
    pub retry_interval: u64,
    /// How many temporary failures have been tolerated so far.
    pub errors_seen: u16,
}

/// The deadline of a wait that starts at `now`; a deadline past the end of
/// the clock is held at `u64::MAX`.
pub open spec fn deadline_from(now: u64, timeout: Option<u64>) -> Option<u64> {
    match timeout {
        Some(t) => Some(if now + t <= u64::MAX { (now + t) as u64 } else { u64::MAX }),
        None => None,
    }
}

/// The state in which a wait that starts at `now` begins.
pub open spec fn initial_state(options: WaitOptions, now: u64) -> WaitState {
    WaitState {
        deadline: deadline_from(now, options.timeout),
        retry_interval: options.retry_interval,
        errors_seen: 0,
    }
}

/// After a probe that neither finished nor ended the wait: time out if the
/// next pause would cross the deadline, else sleep and back off.
pub open spec fn carry_on<T, E>(options: WaitOptions, state: WaitState, now: u64) -> (WaitState, WaitAction<T, E>) {
    if exceeds_deadline(now, state.retry_interval, state.deadline) {
        (state, WaitAction::Timeout)
    } else {
        (
            WaitState {
                retry_interval: interval_after(options.backoff_type, state.retry_interval),
                ..state
            },
            WaitAction::Sleep(sleep_for(state.retry_interval)),
        )
    }
}

/// One transition of a wait: the new state and the action, given what the
/// probe reported at `now`.
pub open spec fn next_step<T, E>(
    options: WaitOptions,
    state: WaitState,
    status: WaitStatus<T, E>,
    now: u64,
) -> (WaitState, WaitAction<T, E>) {
    match status {
        WaitStatus::Finished(v) => (state, WaitAction::Finish(v)),
        WaitStatus::Waiting => carry_on(options, state, now),
        WaitStatus::FailedTemporarily(e) => if state.errors_seen < options.allowed_errors {
            carry_on(options, WaitState { errors_seen: (state.errors_seen + 1) as u16, ..state }, now)
        } else {
            (state, WaitAction::Fail(e))
        },
        WaitStatus::FailedPermanently(e) => (state, WaitAction::Fail(e)),
    }
}

impl WaitState {
    /// Begin a wait at `now`: the deadline is fixed here, once.
    pub fn start(options: &WaitOptions, now: u64) -> (r: WaitState)
        ensures
            r == initial_state(*options, now),
    {
        let deadline = match options.timeout {
            Some(t) => Some(if t <= u64::MAX - now { now + t } else { u64::MAX }),
            None => None,
        };
        WaitState { deadline, retry_interval: options.retry_interval, errors_seen: 0 }
    }

    /// Decide what to do after the probe reported `status` at `now`.
    pub fn step<T, E>(&mut self, options: &WaitOptions, status: WaitStatus<T, E>, now: u64) -> (r: WaitAction<T, E>)
        ensures
            (*final(self), r) == next_step(*options, *old(self), status, now),
    {
        match status {
            WaitStatus::Finished(v) => WaitAction::Finish(v),
            WaitStatus::Waiting => self.carry_on(options, now),
            WaitStatus::FailedTemporarily(e) => {
                if self.errors_seen < options.allowed_errors {
                    self.errors_seen = self.errors_seen + 1;
                    self.carry_on(options, now)
                } else {
                    WaitAction::Fail(e)
                }
            },
            WaitStatus::FailedPermanently(e) => WaitAction::Fail(e),
        }
    }

    fn carry_on<T, E>(&mut self, options: &WaitOptions, now: u64) -> (r: WaitAction<T, E>)
        ensures
            (*final(self), r) == carry_on::<T, E>(*options, *old(self), now),
    {
        if would_exceed_deadline(now, self.retry_interval, self.deadline) {
            WaitAction::Timeout
        } else {
            let pause = effective_sleep(self.retry_interval);
            self.retry_interval = next_interval(options.backoff_type, self.retry_interval);
            WaitAction::Sleep(pause)
        }
    }
}

/// The course of a wait whose probe reports `statuses` in turn, the clock
/// reading `clock` at each report: the pauses taken, the final action if
/// the wait ended within the reports, and how many times the probe ran.
pub open spec fn run<T, E>(
    options: WaitOptions,
    state: WaitState,
    statuses: Seq<WaitStatus<T, E>>,
    clock: Seq<u64>,
) -> (Seq<u64>, Option<WaitAction<T, E>>, nat)
    decreases statuses.len(),
{
    if statuses.len() == 0 || clock.len() == 0 {
        (Seq::empty(), None, 0)
    } else {
        let (next, action) = next_step(options, state, statuses[0], clock[0]);
        match action {
            WaitAction::Sleep(pause) => {
                let rest = run(options, next, statuses.drop_first(), clock.drop_first());
                (seq![pause] + rest.0, rest.1, rest.2 + 1)
            },
            _ => (Seq::empty(), Some(action), 1),
        }
    }
}

proof fn lemma_exponential_pauses<T, E>(
    options: WaitOptions,
    state: WaitState,
    statuses: Seq<WaitStatus<T, E>>,
    clock: Seq<u64>,
    i: nat,
)
    requires
        options.backoff_type == BackoffType::Exponential,
        i < run(options, state, statuses, clock).0.len(),
        state.retry_interval * pow2(i) <= u64::MAX,
    ensures
        run(options, state, statuses, clock).0[i as int] == sleep_for((state.retry_interval * pow2(i)) as u64),
    decreases statuses.len(),
{
    let (next, action) = next_step(options, state, statuses[0], clock[0]);
    let r = state.retry_interval as int;
    if i == 0 {
        vstd::arithmetic::power::lemma_pow0(2);
        assert(pow2(0) == 1);
        assert(r * pow2(0) == r) by (nonlinear_arith)
            requires pow2(0) == 1;
    } else {
        let p = pow2((i - 1) as nat) as int;
        vstd::arithmetic::power2::lemma_pow2_unfold(i);
        vstd::arithmetic::power2::lemma_pow2_pos((i - 1) as nat);
        assert(r * pow2(i) == (2 * r) * p) by (nonlinear_arith)
            requires pow2(i) == 2 * p;
        assert(2 * r <= u64::MAX) by (nonlinear_arith)
            requires (2 * r) * p <= u64::MAX, p >= 1, r >= 0;
        assert(next.retry_interval == 2 * r);
        lemma_exponential_pauses(options, next, statuses.drop_first(), clock.drop_first(), (i - 1) as nat);
    }
}

/// Under exponential backoff, the pause before the probe numbered `i`
/// (from 0) of the waiting rounds is the initial interval times `2^i`,
/// raised to the floor, for as long as that product fits in a `u64`.
pub proof fn law_exponential_backoff<T, E>(
    options: WaitOptions,
    start: u64,
    statuses: Seq<WaitStatus<T, E>>,
    clock: Seq<u64>,
    i: nat,
)
    requires
        options.backoff_type == BackoffType::Exponential,
        i < run(options, initial_state(options, start), statuses, clock).0.len(),
        options.retry_interval * pow2(i) <= u64::MAX,
    ensures
        run(options, initial_state(options, start), statuses, clock).0[i as int]
            == sleep_for((options.retry_interval * pow2(i)) as u64),
{
    lemma_exponential_pauses(options, initial_state(options, start), statuses, clock, i);
}

proof fn lemma_linear_pauses<T, E>(
    options: WaitOptions,
    state: WaitState,
    statuses: Seq<WaitStatus<T, E>>,
    clock: Seq<u64>,
    i: nat,
)
    requires
        options.backoff_type == BackoffType::Linear,
        i < run(options, state, statuses, clock).0.len(),
    ensures
        run(options, state, statuses, clock).0[i as int] == sleep_for(state.retry_interval),
    decreases statuses.len(),
{
    let (next, action) = next_step(options, state, statuses[0], clock[0]);
    if i > 0 {
        lemma_linear_pauses(options, next, statuses.drop_first(), clock.drop_first(), (i - 1) as nat);
    }
}

/// Under linear backoff, every pause of a wait is the configured interval
/// raised to the floor: the interval never changes.
pub proof fn law_linear_backoff<T, E>(
    options: WaitOptions,
    start: u64,
    statuses: Seq<WaitStatus<T, E>>,
    clock: Seq<u64>,
    i: nat,
)
    requires
        options.backoff_type == BackoffType::Linear,
        i < run(options, initial_state(options, start), statuses, clock).0.len(),
    ensures
        run(options, initial_state(options, start), statuses, clock).0[i as int]
            == sleep_for(options.retry_interval),
{
    lemma_linear_pauses(options, initial_state(options, start), statuses, clock, i);
}

/// One temporary failure for each of `errors`, in their order.
pub open spec fn temporary_failures<T, E>(errors: Seq<E>) -> Seq<WaitStatus<T, E>> {
    Seq::new(errors.len(), |j: int| WaitStatus::FailedTemporarily(errors[j]))
}

proof fn lemma_tolerated_failures<T, E>(
    options: WaitOptions,
    state: WaitState,
    errors: Seq<E>,
    rest: Seq<WaitStatus<T, E>>,
    clock: Seq<u64>,
)
    requires
        state.deadline is None,
        state.errors_seen + errors.len() <= options.allowed_errors,
        clock.len() > errors.len(),
    ensures
        ({
            let r = run(options, state, temporary_failures::<T, E>(errors) + rest, clock);
            let after = run(options, WaitState {
                errors_seen: (state.errors_seen + errors.len()) as u16,
                retry_interval: r_interval(options, state.retry_interval, errors.len()),
                ..state
            }, rest, clock.subrange(errors.len() as int, clock.len() as int));
            &&& r.0.len() == errors.len() + after.0.len()
            &&& r.1 == after.1
            &&& r.2 == errors.len() + after.2
        }),
    decreases errors.len(),
{
    let statuses = temporary_failures::<T, E>(errors) + rest;
    if errors.len() > 0 {
        let next = WaitState {
            errors_seen: (state.errors_seen + 1) as u16,
            retry_interval: interval_after(options.backoff_type, state.retry_interval),
            ..state
        };
        assert(statuses[0] == WaitStatus::<T, E>::FailedTemporarily(errors[0]));
        assert(statuses.drop_first() =~= temporary_failures::<T, E>(errors.drop_first()) + rest);
        lemma_tolerated_failures(options, next, errors.drop_first(), rest, clock.drop_first());
        assert(clock.drop_first().subrange((errors.len() - 1) as int, (clock.len() - 1) as int)
            =~= clock.subrange(errors.len() as int, clock.len() as int));
    } else {
        assert(statuses =~= rest);
        assert(clock.subrange(0, clock.len() as int) =~= clock);
    }
}

/// The interval after `n` rounds of backoff from `interval`.
pub open spec fn r_interval(options: WaitOptions, interval: u64, n: nat) -> u64
    decreases n,
{
    if n == 0 {
        interval
    } else {
        r_interval(options, interval_after(options.backoff_type, interval), (n - 1) as nat)
    }
}

/// A probe without deadline that fails temporarily exactly as many times
/// as the options allow, and then finishes, makes the wait succeed with
/// its value after exactly that many pauses, and is not called again.
pub proof fn law_tolerated_failures_then_success<T, E>(
    options: WaitOptions,
    start: u64,
    errors: Seq<E>,
    value: T,
    clock: Seq<u64>,
)
    requires
        options.timeout is None,
        errors.len() == options.allowed_errors,
        clock.len() > errors.len(),
    ensures
        ({
            let r = run(options, initial_state(options, start),
                temporary_failures::<T, E>(errors) + seq![WaitStatus::Finished(value)], clock);
            &&& r.1 == Some(WaitAction::<T, E>::Finish(value))
            &&& r.0.len() == options.allowed_errors
            &&& r.2 == options.allowed_errors + 1
        }),
{
    let rest = seq![WaitStatus::<T, E>::Finished(value)];
    lemma_tolerated_failures(options, initial_state(options, start), errors, rest, clock);
}

/// A probe without deadline that fails temporarily once more than the
/// options allow ends the wait with its last error, and the probe is never
/// called again, whatever it would have reported next.
pub proof fn law_too_many_failures<T, E>(
    options: WaitOptions,
    start: u64,
    errors: Seq<E>,
    later: Seq<WaitStatus<T, E>>,
    clock: Seq<u64>,
)
    requires
        options.timeout is None,
        errors.len() == options.allowed_errors + 1,
        clock.len() >= errors.len(),
    ensures
        ({
            let r = run(options, initial_state(options, start),
                temporary_failures::<T, E>(errors) + later, clock);
            &&& r.1 == Some(WaitAction::<T, E>::Fail(errors.last()))
            &&& r.0.len() == options.allowed_errors
            &&& r.2 == options.allowed_errors + 1
        }),
{
    let k = options.allowed_errors as nat;
    let first = errors.subrange(0, k as int);
    let rest = seq![WaitStatus::<T, E>::FailedTemporarily(errors.last())] + later;
    assert(temporary_failures::<T, E>(errors) + later =~= temporary_failures::<T, E>(first) + rest);
    lemma_tolerated_failures(options, initial_state(options, start), first, rest, clock);
}

/// A probe that fails permanently at once ends the wait with that error,
/// without any pause and without a second call.
pub proof fn law_permanent_failure<T, E>(
    options: WaitOptions,
    start: u64,
    error: E,
    later: Seq<WaitStatus<T, E>>,
    clock: Seq<u64>,
)
    requires
        clock.len() >= 1,
    ensures
        ({
            let r = run(options, initial_state(options, start),
                seq![WaitStatus::FailedPermanently(error)] + later, clock);
            &&& r.1 == Some(WaitAction::<T, E>::Fail(error))
            &&& r.0.len() == 0
            &&& r.2 == 1
        }),
{
    let statuses = seq![WaitStatus::FailedPermanently(error)] + later;
    assert(statuses[0] == WaitStatus::<T, E>::FailedPermanently(error));
}

/// Each reading of the clock comes at least a floor pause after the one
/// before it.
pub open spec fn paced(clock: Seq<u64>) -> bool {
    forall|j: int| 1 <= j < clock.len() ==> #[trigger] clock[j] >= clock[j - 1] + MIN_SLEEP_MILLIS
}

/// `n` reports of `Waiting`.
pub open spec fn always_waiting<T, E>(n: nat) -> Seq<WaitStatus<T, E>> {
    Seq::new(n, |j: int| WaitStatus::Waiting)
}

proof fn lemma_waiting_within_deadline<T, E>(
    options: WaitOptions,
    state: WaitState,
    n: nat,
    clock: Seq<u64>,
    d: u64,
    i: nat,
)
    requires
        state.deadline == Some(d),
        i < run(options, state, always_waiting::<T, E>(n), clock).0.len(),
    ensures
        i < clock.len(),
        clock[i as int] + run(options, state, always_waiting::<T, E>(n), clock).0[i as int] <= d,
    decreases n,
{
    let statuses = always_waiting::<T, E>(n);
    assert(statuses[0] == WaitStatus::<T, E>::Waiting);
    let (next, action) = next_step(options, state, statuses[0], clock[0]);
    if i > 0 {
        assert(statuses.drop_first() =~= always_waiting::<T, E>((n - 1) as nat));
        lemma_waiting_within_deadline::<T, E>(options, next, (n - 1) as nat, clock.drop_first(), d, (i - 1) as nat);
        assert(clock.drop_first()[(i - 1) as int] == clock[i as int]);
    }
}

proof fn lemma_waiting_times_out<T, E>(
    options: WaitOptions,
    state: WaitState,
    n: nat,
    clock: Seq<u64>,
    d: u64,
)
    requires
        state.deadline == Some(d),
        n >= 1,
        clock.len() == n,
        paced(clock),
        clock[0] + n * MIN_SLEEP_MILLIS > d,
    ensures
        run(options, state, always_waiting::<T, E>(n), clock).1 == Some(WaitAction::<T, E>::Timeout),
    decreases n,
{
    let statuses = always_waiting::<T, E>(n);
    assert(statuses[0] == WaitStatus::<T, E>::Waiting);
    let (next, action) = next_step(options, state, statuses[0], clock[0]);
    if !exceeds_deadline(clock[0], state.retry_interval, state.deadline) {
        assert(n > 1);
        assert(statuses.drop_first() =~= always_waiting::<T, E>((n - 1) as nat));
        lemma_waiting_times_out::<T, E>(options, next, (n - 1) as nat, clock.drop_first(), d);
    }
}

/// With a timeout, a probe that keeps reporting `Waiting` never sleeps past
/// the deadline fixed at the start; and when each report comes at least a
/// floor pause after the one before, the wait ends with `Timeout` once the
/// next pause would cross the deadline, within the reports that fit before
/// it.
pub proof fn law_timeout<T, E>(
    options: WaitOptions,
    start: u64,
    timeout: u64,
    n: nat,
    clock: Seq<u64>,
)
    requires
        options.timeout == Some(timeout),
        start + timeout <= u64::MAX,
        clock.len() == n,
    ensures
        forall|i: nat| i < run(options, initial_state(options, start), always_waiting::<T, E>(n), clock).0.len()
            ==> clock[i as int] + run(options, initial_state(options, start), always_waiting::<T, E>(n), clock).0[i as int]
                <= start + timeout,
        n >= 1 && clock[0] >= start && n * MIN_SLEEP_MILLIS > timeout
            && (paced(clock))
            ==> run(options, initial_state(options, start), always_waiting::<T, E>(n), clock).1
                == Some(WaitAction::<T, E>::Timeout),
{
    let state = initial_state(options, start);
    let d = (start + timeout) as u64;
    assert forall|i: nat| i < run(options, state, always_waiting::<T, E>(n), clock).0.len()
        implies clock[i as int] + run(options, state, always_waiting::<T, E>(n), clock).0[i as int] <= d by {
        lemma_waiting_within_deadline::<T, E>(options, state, n, clock, d, i);
    }
    if n >= 1 && clock[0] >= start && n * MIN_SLEEP_MILLIS > timeout
        && (paced(clock)) {
        lemma_waiting_times_out::<T, E>(options, state, n, clock, d);
    }
}

} // verus!
