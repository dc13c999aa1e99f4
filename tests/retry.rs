use clearstreet::retry::{
    backoff_delay, AttemptOutcome, BackoffState, RetryDecision, BASE_DELAY_MS, MAX_ATTEMPTS, MAX_DELAY_MS,
};
use clearstreet::ErrorType;

#[test]
fn backoff_doubles_up_to_the_ceiling() {
    assert_eq!(BASE_DELAY_MS, 100);
    assert_eq!(MAX_DELAY_MS, 500);
    assert_eq!(backoff_delay(1), 100);
    assert_eq!(backoff_delay(2), 200);
    assert_eq!(backoff_delay(3), 400);
    assert_eq!(backoff_delay(4), 500);
    assert_eq!(backoff_delay(40), 500);
    assert_eq!(backoff_delay(0), 100);
}

fn run(outcomes: Vec<AttemptOutcome>) -> (Vec<u64>, Option<RetryDecision>) {
    let mut st = BackoffState::new();
    let mut sleeps = Vec::new();
    for o in outcomes {
        match st.on_outcome(o) {
            RetryDecision::SleepThenRetry(d) => sleeps.push(d),
            other => return (sleeps, Some(other)),
        }
    }
    (sleeps, None)
}

#[test]
fn transport_failures_then_success() {
    for k in 0..MAX_ATTEMPTS as usize {
        let mut outcomes: Vec<AttemptOutcome> =
            (0..k).map(|_| AttemptOutcome::TransportFailed("connection reset".to_string())).collect();
        outcomes.push(AttemptOutcome::Responded(200));
        let (sleeps, end) = run(outcomes);
        assert!(matches!(end, Some(RetryDecision::Deliver)));
        assert_eq!(sleeps.len(), k);
        assert!(sleeps.windows(2).all(|w| w[0] <= w[1]));
        assert!(sleeps.iter().all(|d| *d <= MAX_DELAY_MS));
    }
    let outcomes = vec![
        AttemptOutcome::TransportFailed("a".to_string()),
        AttemptOutcome::TransportFailed("b".to_string()),
        AttemptOutcome::TransportFailed("c".to_string()),
        AttemptOutcome::Responded(204),
    ];
    let (sleeps, _) = run(outcomes);
    assert_eq!(sleeps, vec![100, 200, 400]);
}

#[test]
fn http_error_status_is_not_retried() {
    for status in [400u16, 404, 500, 503] {
        let mut st = BackoffState::new();
        let d = st.on_outcome(AttemptOutcome::Responded(status));
        assert!(matches!(d, RetryDecision::Deliver));
        assert_eq!(st.attempt, 1);
    }
}

#[test]
fn exhausted_attempts_time_out() {
    let outcomes: Vec<AttemptOutcome> =
        (0..MAX_ATTEMPTS).map(|_| AttemptOutcome::TransportFailed("dns failure".to_string())).collect();
    let (sleeps, end) = run(outcomes);
    assert_eq!(sleeps, vec![100, 200, 400, 500]);
    match end {
        Some(RetryDecision::GiveUp(e)) => {
            assert_eq!(e.error_type, ErrorType::TimeoutError);
            assert_eq!(e.message, "request failed after retries: dns failure");
        }
        _ => panic!("expected a timeout"),
    }
}

#[test]
fn unrepeatable_request_is_internal_error() {
    let mut st = BackoffState::new();
    match st.on_outcome(AttemptOutcome::NotRepeatable) {
        RetryDecision::GiveUp(e) => assert_eq!(e.error_type, ErrorType::InternalError),
        _ => panic!("expected an internal error"),
    }
}
