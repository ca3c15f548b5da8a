use da2013::driver::{AttemptResult, CommandSession, ExchangeOutcome, ATTEMPT_BUDGET};

/// Drives one command session against a scripted device: each element of
/// `script` is the outcome of one round-trip. Returns the session and how
/// many round-trips were performed.
fn run_scripted(script: &[ExchangeOutcome]) -> (CommandSession, usize) {
    let mut session = CommandSession::new();
    let mut round_trips = 0usize;
    while session.needs_attempt() {
        assert!(round_trips < script.len(), "script shorter than the attempt budget");
        session.record(script[round_trips]);
        round_trips += 1;
    }
    (session, round_trips)
}

#[test]
fn budget_is_three() {
    assert_eq!(ATTEMPT_BUDGET, 3);
}

#[test]
fn invalid_twice_then_ok_succeeds_on_third() {
    // The device answers status 4 (invalid) twice, then status 0: exactly
    // three round-trips, success reported on the third, nothing escalated.
    let script = [
        ExchangeOutcome::Status(4),
        ExchangeOutcome::Status(4),
        ExchangeOutcome::Status(0),
    ];
    let (session, round_trips) = run_scripted(&script);
    assert_eq!(round_trips, 3);
    assert!(session.acknowledged());
    assert!(matches!(session.results[0], AttemptResult::Rejected(4)));
    assert!(matches!(session.results[1], AttemptResult::Rejected(4)));
    assert!(matches!(session.results[2], AttemptResult::Acknowledged(0)));
    assert_eq!(session.warning_count(), 2);
}

#[test]
fn write_always_failing_stays_non_fatal() {
    // The write step fails on every attempt: exactly three attempts are
    // made, three warnings are due, and the session ends normally.
    let script = [
        ExchangeOutcome::WriteFailed,
        ExchangeOutcome::WriteFailed,
        ExchangeOutcome::WriteFailed,
    ];
    let (session, round_trips) = run_scripted(&script);
    assert_eq!(round_trips, 3);
    assert_eq!(session.warning_count(), 3);
    assert!(!session.acknowledged());
    for r in &session.results {
        assert!(matches!(r, AttemptResult::Transport));
    }
}

#[test]
fn early_acknowledgement_does_not_shrink_the_budget() {
    // Success on the first attempt: the remaining attempts are still made.
    let script = [
        ExchangeOutcome::Status(0),
        ExchangeOutcome::Status(2),
        ExchangeOutcome::Status(1),
    ];
    let (session, round_trips) = run_scripted(&script);
    assert_eq!(round_trips, 3);
    assert!(session.acknowledged());
    assert_eq!(session.warning_count(), 0);
}

#[test]
fn status_reading_is_tolerant() {
    // Status bytes 0 through 3 acknowledge; anything above is a rejection.
    let script = [
        ExchangeOutcome::Status(3),
        ExchangeOutcome::Status(5),
        ExchangeOutcome::ReadFailed,
    ];
    let (session, _) = run_scripted(&script);
    assert!(matches!(session.results[0], AttemptResult::Acknowledged(3)));
    assert!(matches!(session.results[1], AttemptResult::Rejected(5)));
    assert!(matches!(session.results[2], AttemptResult::Transport));
    assert!(session.acknowledged());
    assert_eq!(session.warning_count(), 2);
}

#[test]
fn fresh_session_needs_all_attempts() {
    let session = CommandSession::new();
    assert!(session.needs_attempt());
    assert!(!session.acknowledged());
    assert_eq!(session.warning_count(), 0);
    assert_eq!(session.results.len(), 0);
}
