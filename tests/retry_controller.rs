use site_pulse::retry::{resolve, Action, Attempt, CheckOutcome, RawAttempt, RetryController};

fn ok(code: u16, nanos: u64) -> Attempt {
    Attempt { result: RawAttempt::Responded(code), nanos }
}

fn err(desc: &str, nanos: u64) -> Attempt {
    Attempt { result: RawAttempt::TransportError(desc.to_string()), nanos }
}

fn success_code(o: &CheckOutcome) -> Option<u16> {
    match o {
        CheckOutcome::Success(c) => Some(*c),
        CheckOutcome::Failure(_) => None,
    }
}

fn failure_message(o: &CheckOutcome) -> Option<String> {
    match o {
        CheckOutcome::Success(_) => None,
        CheckOutcome::Failure(m) => Some(m.clone()),
    }
}

#[test]
fn always_ok_target_succeeds_first_time() {
    let (outcome, probes, elapsed) = resolve(&vec![ok(200, 7)], 0);
    assert_eq!(success_code(&outcome), Some(200));
    assert_eq!(probes, 1);
    assert_eq!(elapsed, 7);
}

#[test]
fn flaky_target_recovers_on_third_attempt() {
    let attempts = vec![err("refused", 10), err("timed out", 20), ok(200, 30)];
    let (outcome, probes, elapsed) = resolve(&attempts, 2);
    assert_eq!(success_code(&outcome), Some(200));
    assert_eq!(probes, 3);
    assert!(elapsed >= 60);
    assert_eq!(elapsed, 60);
}

#[test]
fn flaky_target_fails_when_budget_is_short() {
    let attempts = vec![err("refused", 10), err("timed out", 20), ok(200, 30)];
    let (outcome, probes, elapsed) = resolve(&attempts, 1);
    assert_eq!(failure_message(&outcome), Some("timed out".to_string()));
    assert_eq!(probes, 2);
    assert_eq!(elapsed, 30);
}

#[test]
fn no_retries_means_one_attempt() {
    let (outcome, probes, _) = resolve(&vec![err("dns", 1), ok(200, 1)], 0);
    assert_eq!(failure_message(&outcome), Some("dns".to_string()));
    assert_eq!(probes, 1);
}

#[test]
fn any_status_code_counts_as_success() {
    for code in [200u16, 404, 500] {
        let (outcome, probes, _) = resolve(&vec![ok(code, 3)], 3);
        assert_eq!(success_code(&outcome), Some(code));
        assert_eq!(probes, 1);
    }
}

#[test]
fn controller_steps_until_budget_is_spent() {
    let mut ctl = RetryController::new(1);
    assert!(matches!(ctl.step(err("a", 5)), Action::Probe));
    match ctl.step(err("b", 6)) {
        Action::Finish(o) => assert_eq!(failure_message(&o), Some("b".to_string())),
        Action::Probe => panic!("budget was spent"),
    }
    assert!(ctl.finished);
    assert_eq!(ctl.attempts, 2);
    assert_eq!(ctl.elapsed_nanos, 11);
}
