use quorum_node::consensus::{
    classify_attempt, http_success, run_verifier_retries, AttemptClass, RetryDecision, RetryState,
    VerifierVerdict, RETRY_BASE_DELAY_SECS, RETRY_MAX_ATTEMPTS,
};

#[test]
fn retry_constants_are_the_documented_defaults() {
    assert_eq!(RETRY_MAX_ATTEMPTS, 3);
    assert_eq!(RETRY_BASE_DELAY_SECS, 1);
}

#[test]
fn persistent_500_gets_three_attempts_with_doubling_delays() {
    let classes = vec![
        AttemptClass::Transient,
        AttemptClass::Transient,
        AttemptClass::Transient,
    ];
    let (attempts, delays, verdict) = run_verifier_retries(&classes);
    assert_eq!(attempts, 3);
    assert_eq!(delays, vec![1, 2]);
    assert!(matches!(verdict, VerifierVerdict::ExhaustedRetries));
}

#[test]
fn first_attempt_422_aborts_after_exactly_one_attempt() {
    let classes = vec![
        AttemptClass::FatalReject,
        AttemptClass::Transient,
        AttemptClass::Transient,
    ];
    let (attempts, delays, verdict) = run_verifier_retries(&classes);
    assert_eq!(attempts, 1);
    assert!(delays.is_empty());
    assert!(matches!(verdict, VerifierVerdict::Rejected));
}

#[test]
fn success_after_one_transient_failure_accepts_on_the_second_attempt() {
    let classes = vec![
        AttemptClass::Transient,
        AttemptClass::Success,
        AttemptClass::Transient,
    ];
    let (attempts, delays, verdict) = run_verifier_retries(&classes);
    assert_eq!(attempts, 2);
    assert_eq!(delays, vec![1]);
    assert!(matches!(verdict, VerifierVerdict::Accepted));
}

#[test]
fn immediate_success_spends_one_attempt() {
    let classes = vec![
        AttemptClass::Success,
        AttemptClass::Success,
        AttemptClass::Success,
    ];
    let (attempts, delays, verdict) = run_verifier_retries(&classes);
    assert_eq!(attempts, 1);
    assert!(delays.is_empty());
    assert!(matches!(verdict, VerifierVerdict::Accepted));
}

#[test]
fn statuses_classify_as_documented() {
    assert!(matches!(classify_attempt(Some(200)), AttemptClass::Success));
    assert!(matches!(classify_attempt(Some(204)), AttemptClass::Success));
    assert!(matches!(
        classify_attempt(Some(422)),
        AttemptClass::FatalReject
    ));
    assert!(matches!(classify_attempt(Some(500)), AttemptClass::Transient));
    assert!(matches!(classify_attempt(Some(404)), AttemptClass::Transient));
    assert!(matches!(classify_attempt(Some(301)), AttemptClass::Transient));
    assert!(matches!(classify_attempt(None), AttemptClass::Transient));
}

#[test]
fn http_success_is_the_2xx_range() {
    assert!(http_success(200));
    assert!(http_success(299));
    assert!(!http_success(199));
    assert!(!http_success(300));
    assert!(!http_success(422));
    assert!(!http_success(500));
}

#[test]
fn step_by_step_policy_doubles_the_delay() {
    let mut state = RetryState::start();
    assert_eq!(state.attempts_used, 0);
    assert_eq!(state.next_delay_secs, 1);

    let d1 = state.step(AttemptClass::Transient);
    assert!(matches!(d1, RetryDecision::RetryAfter(1)));
    assert_eq!(state.attempts_used, 1);
    assert_eq!(state.next_delay_secs, 2);

    let d2 = state.step(AttemptClass::Transient);
    assert!(matches!(d2, RetryDecision::RetryAfter(2)));

    let d3 = state.step(AttemptClass::Transient);
    assert!(matches!(d3, RetryDecision::GiveUp));
}

#[test]
fn step_rejects_fatal_class_at_once() {
    let mut state = RetryState::start();
    let d = state.step(AttemptClass::FatalReject);
    assert!(matches!(d, RetryDecision::Reject));
    assert_eq!(state.attempts_used, 1);
}
