use bigml::wait::{
    effective_sleep, next_interval, permanent_failure, temporary_failure, would_exceed_deadline, BackoffType, WaitAction, WaitOptions,
    WaitState, WaitStatus, MIN_SLEEP_MILLIS,
};

/// Drive a wait over scripted probe reports, the clock advancing by each
/// pause. Returns the pauses, the final action and how many probes ran.
fn drive(
    options: &WaitOptions,
    start: u64,
    mut reports: Vec<WaitStatus<&'static str, &'static str>>,
) -> (Vec<u64>, Option<WaitAction<&'static str, &'static str>>, usize) {
    reports.reverse();
    let mut now = start;
    let mut state = WaitState::start(options, now);
    let mut pauses = Vec::new();
    let mut probes = 0;
    while let Some(report) = reports.pop() {
        probes += 1;
        match state.step(options, report, now) {
            WaitAction::Sleep(ms) => {
                pauses.push(ms);
                now += ms;
            }
            other => return (pauses, Some(other), probes),
        }
    }
    (pauses, None, probes)
}

#[test]
fn default_options() {
    let o = WaitOptions::default();
    assert_eq!(o.timeout, None);
    assert_eq!(o.retry_interval, 10_000);
    assert_eq!(o.backoff_type, BackoffType::Linear);
    assert_eq!(o.allowed_errors, 2);
}

#[test]
fn builder_sets_each_option() {
    let o = WaitOptions::default()
        .timeout(Some(120_000))
        .allowed_errors(5)
        .retry_interval(1_000)
        .backoff_type(BackoffType::Exponential);
    assert_eq!(o.timeout, Some(120_000));
    assert_eq!(o.allowed_errors, 5);
    assert_eq!(o.retry_interval, 1_000);
    assert_eq!(o.backoff_type, BackoffType::Exponential);
}

#[test]
fn sleep_floor_applies() {
    assert_eq!(effective_sleep(0), MIN_SLEEP_MILLIS);
    assert_eq!(effective_sleep(1_000), 4_000);
    assert_eq!(effective_sleep(4_000), 4_000);
    assert_eq!(effective_sleep(9_000), 9_000);
}

#[test]
fn deadline_check_uses_floored_pause() {
    assert!(!would_exceed_deadline(1_000, 10, None));
    assert!(!would_exceed_deadline(1_000, 10, Some(5_000)));
    assert!(would_exceed_deadline(1_001, 10, Some(5_000)));
    assert!(would_exceed_deadline(9_000, 10, Some(5_000)));
    assert!(!would_exceed_deadline(0, u64::MAX, Some(u64::MAX)));
    assert!(would_exceed_deadline(1, u64::MAX, Some(u64::MAX)));
}

#[test]
fn next_interval_by_backoff() {
    assert_eq!(next_interval(BackoffType::Linear, 7_000), 7_000);
    assert_eq!(next_interval(BackoffType::Exponential, 7_000), 14_000);
    assert_eq!(next_interval(BackoffType::Exponential, u64::MAX), u64::MAX);
}

#[test]
fn exponential_intervals_double_and_respect_floor() {
    let o = WaitOptions::default()
        .retry_interval(1_000)
        .backoff_type(BackoffType::Exponential)
        .allowed_errors(1);
    let reports = vec![
        WaitStatus::Waiting,
        WaitStatus::FailedTemporarily("flaky"),
        WaitStatus::Waiting,
        WaitStatus::Waiting,
        WaitStatus::Waiting,
    ];
    let (pauses, end, probes) = drive(&o, 0, reports);
    // 1 s, 2 s, 4 s, 8 s, 16 s, raised to the 4 s floor.
    assert_eq!(pauses, vec![4_000, 4_000, 4_000, 8_000, 16_000]);
    assert!(end.is_none());
    assert_eq!(probes, 5);
}

#[test]
fn linear_interval_never_changes() {
    let o = WaitOptions::default().retry_interval(6_000).allowed_errors(2);
    let reports = vec![
        WaitStatus::Waiting,
        WaitStatus::FailedTemporarily("a"),
        WaitStatus::Waiting,
        WaitStatus::FailedTemporarily("b"),
    ];
    let (pauses, end, _) = drive(&o, 0, reports);
    assert_eq!(pauses, vec![6_000, 6_000, 6_000, 6_000]);
    assert!(end.is_none());
}

#[test]
fn tolerated_failures_then_success() {
    let o = WaitOptions::default().allowed_errors(3);
    let reports = vec![
        WaitStatus::FailedTemporarily("e1"),
        WaitStatus::FailedTemporarily("e2"),
        WaitStatus::FailedTemporarily("e3"),
        WaitStatus::Finished("value"),
        WaitStatus::Finished("never reached"),
    ];
    let (pauses, end, probes) = drive(&o, 0, reports);
    assert!(matches!(end, Some(WaitAction::Finish("value"))));
    assert_eq!(pauses.len(), 3);
    assert_eq!(probes, 4);
}

#[test]
fn one_failure_too_many() {
    let o = WaitOptions::default().allowed_errors(2);
    let reports = vec![
        WaitStatus::FailedTemporarily("e1"),
        WaitStatus::FailedTemporarily("e2"),
        WaitStatus::FailedTemporarily("e3"),
        WaitStatus::Finished("never reached"),
    ];
    let (pauses, end, probes) = drive(&o, 0, reports);
    assert!(matches!(end, Some(WaitAction::Fail("e3"))));
    assert_eq!(pauses.len(), 2);
    assert_eq!(probes, 3);
}

#[test]
fn no_tolerance_fails_on_first_temporary_error() {
    let o = WaitOptions::default().allowed_errors(0);
    let (pauses, end, probes) = drive(&o, 0, vec![WaitStatus::FailedTemporarily("e")]);
    assert!(matches!(end, Some(WaitAction::Fail("e"))));
    assert!(pauses.is_empty());
    assert_eq!(probes, 1);
}

#[test]
fn permanent_failure_stops_at_once() {
    let o = WaitOptions::default().allowed_errors(10);
    let reports = vec![WaitStatus::FailedPermanently("fatal"), WaitStatus::Finished("no")];
    let (pauses, end, probes) = drive(&o, 0, reports);
    assert!(matches!(end, Some(WaitAction::Fail("fatal"))));
    assert!(pauses.is_empty());
    assert_eq!(probes, 1);
}

#[test]
fn waiting_times_out_before_crossing_deadline() {
    let o = WaitOptions::default().retry_interval(10_000).timeout(Some(35_000));
    let start = 1_000_000;
    let reports = (0..10).map(|_| WaitStatus::Waiting).collect();
    let (pauses, end, probes) = drive(&o, start, reports);
    assert!(matches!(end, Some(WaitAction::Timeout)));
    // Pauses end at +10 s, +20 s, +30 s; a fourth would end at +40 s.
    assert_eq!(pauses, vec![10_000, 10_000, 10_000]);
    assert_eq!(probes, 4);
    let slept: u64 = pauses.iter().sum();
    assert!(slept <= 35_000);
}

#[test]
fn timeout_counts_the_floor() {
    let o = WaitOptions::default().retry_interval(1).timeout(Some(3_999));
    let (pauses, end, probes) = drive(&o, 0, vec![WaitStatus::Waiting]);
    assert!(matches!(end, Some(WaitAction::Timeout)));
    assert!(pauses.is_empty());
    assert_eq!(probes, 1);
}

#[test]
fn deadline_is_fixed_at_start() {
    let o = WaitOptions::default().timeout(Some(60_000));
    let s = WaitState::start(&o, 5_000);
    assert_eq!(s.deadline, Some(65_000));
    assert_eq!(s.retry_interval, 10_000);
    assert_eq!(s.errors_seen, 0);
    let far = WaitState::start(&o, u64::MAX - 10);
    assert_eq!(far.deadline, Some(u64::MAX));
    let none = WaitState::start(&WaitOptions::default(), 5_000);
    assert_eq!(none.deadline, None);
}

#[test]
fn waiting_leaves_error_budget_untouched() {
    let o = WaitOptions::default().allowed_errors(1);
    let mut s = WaitState::start(&o, 0);
    let a = s.step(&o, WaitStatus::<(), ()>::Waiting, 0);
    assert!(matches!(a, WaitAction::Sleep(10_000)));
    assert_eq!(s.errors_seen, 0);
    let b = s.step(&o, WaitStatus::<(), ()>::FailedTemporarily(()), 0);
    assert!(matches!(b, WaitAction::Sleep(10_000)));
    assert_eq!(s.errors_seen, 1);
}

#[test]
fn early_return_helpers() {
    let ok: Result<u8, WaitStatus<(), &str>> = temporary_failure(Ok::<u8, &str>(3));
    assert!(matches!(ok, Ok(3)));
    let t: Result<u8, WaitStatus<(), &str>> = temporary_failure(Err("net"));
    assert!(matches!(t, Err(WaitStatus::FailedTemporarily("net"))));
    let p: Result<u8, WaitStatus<(), &str>> = permanent_failure(Err("bug"));
    assert!(matches!(p, Err(WaitStatus::FailedPermanently("bug"))));
    let ok: Result<u8, WaitStatus<(), &str>> = permanent_failure(Ok::<u8, &str>(4));
    assert!(matches!(ok, Ok(4)));
}
