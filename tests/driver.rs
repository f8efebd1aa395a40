use bigml::driver::{
    create_outcome, create_wait_options, execution_wait_options, failure_message, task_outcome,
    task_outcome_given, RetryPattern, Scheduler,
};
use bigml::errors::Error;
use bigml::poll::{default_poll_options, poll_outcome, Snapshot};
use bigml::status::StatusCode;
use bigml::wait::{BackoffType, WaitAction, WaitOptions, WaitState, WaitStatus};
use serde_json::Value;

fn wait_failed(message: &str) -> Error {
    Error::could_not_access_url(
        "https://bigml.io/execution/1?api_key=k",
        Error::WaitFailed { id: "execution/1".to_owned(), message: message.to_owned() },
    )
}

/// Run one wait to its end over a probe, the clock advancing by each pause.
fn run_wait<T>(options: &WaitOptions, mut probe: impl FnMut() -> WaitStatus<T, Error>) -> Result<T, Error> {
    let mut now = 0;
    let mut state = WaitState::start(options, now);
    loop {
        match state.step(options, probe(), now) {
            WaitAction::Finish(v) => return Ok(v),
            WaitAction::Fail(e) => return Err(e),
            WaitAction::Timeout => return Err(Error::Timeout),
            WaitAction::Sleep(ms) => now += ms,
        }
    }
}

#[test]
fn driver_policies() {
    let outer = execution_wait_options(3);
    assert_eq!(outer.retry_interval, 120_000);
    assert_eq!(outer.backoff_type, BackoffType::Exponential);
    assert_eq!(outer.allowed_errors, 3);
    let create = create_wait_options();
    assert_eq!(create.retry_interval, 60_000);
    assert_eq!(create.backoff_type, BackoffType::Exponential);
    assert_eq!(create.allowed_errors, 6);
}

#[test]
fn creation_outcomes() {
    assert!(matches!(create_outcome::<u8>(Ok(7)), WaitStatus::Finished(7)));
    let quota = Error::for_http_status("https://bigml.io/execution?api_key=k", 402, String::new());
    assert!(matches!(create_outcome::<u8>(Err(quota)), WaitStatus::FailedTemporarily(_)));
    let bad = Error::for_http_status("https://bigml.io/execution?api_key=k", 400, String::new());
    assert!(matches!(create_outcome::<u8>(Err(bad)), WaitStatus::FailedPermanently(_)));
}

#[test]
fn retry_pattern_decides_task_retry() {
    let pattern = RetryPattern::new("out of (memory|slots)").unwrap();
    assert!(matches!(
        task_outcome(Err::<u8, _>(wait_failed("the job ran out of memory")), Some(&pattern)),
        WaitStatus::FailedTemporarily(_)
    ));
    assert!(matches!(
        task_outcome(Err::<u8, _>(wait_failed("ran out of slots")), Some(&pattern)),
        WaitStatus::FailedTemporarily(_)
    ));
    assert!(matches!(
        task_outcome(Err::<u8, _>(wait_failed("syntax error")), Some(&pattern)),
        WaitStatus::FailedPermanently(_)
    ));
    assert!(matches!(
        task_outcome(Err::<u8, _>(wait_failed("ran out of slots")), None),
        WaitStatus::FailedPermanently(_)
    ));
    assert!(matches!(
        task_outcome(Err::<u8, _>(Error::Timeout), Some(&pattern)),
        WaitStatus::FailedPermanently(Error::Timeout)
    ));
    assert!(matches!(task_outcome(Ok::<u8, Error>(1), Some(&pattern)), WaitStatus::Finished(1)));
}

#[test]
fn invalid_retry_pattern() {
    assert!(RetryPattern::new("(unclosed").is_err());
}

#[test]
fn task_outcome_from_match_result() {
    assert!(matches!(
        task_outcome_given(Err::<u8, _>(wait_failed("x")), true),
        WaitStatus::FailedTemporarily(_)
    ));
    assert!(matches!(
        task_outcome_given(Err::<u8, _>(wait_failed("x")), false),
        WaitStatus::FailedPermanently(_)
    ));
    assert!(matches!(
        task_outcome_given(Err::<u8, _>(Error::OutputNotAvailable), true),
        WaitStatus::FailedPermanently(Error::OutputNotAvailable)
    ));
    assert_eq!(failure_message(&wait_failed("why")).map(|m| m.as_str()), Some("why"));
    assert_eq!(failure_message(&Error::Timeout), None);
}

#[test]
fn scheduler_bounds_running_tasks() {
    let inputs = ["a", "b", "c", "d", "e"];
    let mut next_input = 0;
    let mut s = Scheduler::new(2);
    let mut running: Vec<usize> = Vec::new();
    let mut emitted: Vec<usize> = Vec::new();
    let mut most_running = 0;
    while !s.is_done() {
        while s.can_start() {
            if next_input == inputs.len() {
                s.input_ended();
                break;
            }
            next_input += 1;
            running.push(s.start());
            most_running = most_running.max(running.len());
            assert!(s.in_flight <= 2);
        }
        if let Some(index) = running.pop() {
            // The newest task completes first: output follows completion.
            assert!(s.finish(index));
            emitted.push(index);
        }
    }
    assert_eq!(most_running, 2);
    assert_eq!(s.completed, emitted);
    let mut sorted = emitted.clone();
    sorted.sort();
    assert_eq!(sorted, vec![0, 1, 2, 3, 4]);
    assert_ne!(emitted, sorted);
}

#[test]
fn scheduler_rejects_unknown_or_repeated_completion() {
    let mut s = Scheduler::new(3);
    let a = s.start();
    assert!(!s.finish(5));
    assert!(s.finish(a));
    assert!(!s.finish(a));
    assert_eq!(s.completed, vec![a]);
    assert_eq!(s.in_flight, 0);
    assert!(!s.is_done());
    s.input_ended();
    assert!(s.is_done());
    assert!(!s.can_start());
}

#[test]
fn failing_task_stops_run_after_emitting_earlier_results() {
    // Tasks complete in input order; task 3 of 5 fails for good.
    let mut s = Scheduler::new(2);
    let mut emitted = Vec::new();
    let mut started = 0;
    let mut failure = None;
    while failure.is_none() && !s.is_done() {
        while s.can_start() && started < 5 {
            s.start();
            started += 1;
        }
        if started == 5 && s.input_open {
            s.input_ended();
        }
        let index = (0..s.done.len()).find(|i| !s.done[*i]).unwrap();
        let outcome = task_outcome(
            if index == 2 { Err(wait_failed("fatal")) } else { Ok(index) },
            None,
        );
        match outcome {
            WaitStatus::Finished(v) => {
                assert!(s.finish(index));
                emitted.push(v);
            }
            WaitStatus::FailedPermanently(e) => failure = Some(e),
            _ => unreachable!(),
        }
    }
    assert!(matches!(failure, Some(Error::CouldNotAccessUrl { .. })));
    assert_eq!(emitted, vec![0, 1]);
    assert_eq!(s.completed, vec![0, 1]);
}

/// A remote service stub: creation succeeds at once; each execution is
/// in progress at its first poll and finished at its second.
#[test]
fn two_resources_end_to_end() {
    let input = "resource/1\nresource/2\n";
    let ids: Vec<&str> = input.lines().filter(|l| !l.is_empty()).collect();
    let mut s = Scheduler::new(2);
    let mut lines = Vec::new();
    let mut running = Vec::new();
    for id in &ids {
        assert!(s.can_start());
        running.push((s.start(), id.to_string()));
    }
    s.input_ended();
    for (index, id) in running {
        let execution = run_wait(&execution_wait_options(0), || {
            let created = run_wait(&create_wait_options(), || create_outcome(Ok(format!("execution-for-{}", id))));
            let created = match created {
                Ok(c) => c,
                Err(e) => return WaitStatus::FailedPermanently(e),
            };
            let mut polls = 0;
            let waited = run_wait(&default_poll_options(), || {
                polls += 1;
                let code = if polls < 2 { StatusCode::InProgress } else { StatusCode::Finished };
                poll_outcome(
                    &created,
                    Ok(Snapshot { resource: (created.clone(), code), code, message: String::new() }),
                    Ok(()),
                )
            });
            task_outcome(waited, None)
        })
        .unwrap();
        assert!(s.finish(index));
        let mut object = serde_json::Map::new();
        object.insert("input".to_owned(), Value::String(id.clone()));
        object.insert("resource".to_owned(), Value::String(execution.0));
        object.insert("status".to_owned(), Value::String(format!("{:?}", execution.1)));
        lines.push(serde_json::to_string(&Value::Object(object)).unwrap());
    }
    assert!(s.is_done());
    assert_eq!(lines.len(), 2);
    assert!(lines[0].contains("resource/1") && lines[0].contains("Finished"));
    assert!(lines[1].contains("resource/2") && lines[1].contains("Finished"));
}
