use quorum_node::quorum::{
    classify_outcome, count_passed, decide_quorum, quorum_passed, Outcome, QUORUM_DENOMINATOR,
    QUORUM_NUMERATOR, VALIDATION_TIMEOUT_SECS,
};

#[test]
fn quorum_constants_are_the_documented_defaults() {
    assert_eq!(QUORUM_NUMERATOR, 4);
    assert_eq!(QUORUM_DENOMINATOR, 5);
    assert_eq!(VALIDATION_TIMEOUT_SECS, 5);
}

#[test]
fn four_of_five_passes_exactly_at_the_fraction() {
    let outcomes = vec![
        Outcome::Pass,
        Outcome::Pass,
        Outcome::Pass,
        Outcome::Pass,
        Outcome::Fail,
    ];
    let r = decide_quorum(&outcomes);
    assert_eq!(r.passed_count, 4);
    assert_eq!(r.total_count, 5);
    assert!(r.passed);
}

#[test]
fn three_of_five_fails() {
    let outcomes = vec![
        Outcome::Pass,
        Outcome::Pass,
        Outcome::Pass,
        Outcome::Fail,
        Outcome::Fail,
    ];
    let r = decide_quorum(&outcomes);
    assert_eq!(r.passed_count, 3);
    assert_eq!(r.total_count, 5);
    assert!(!r.passed);
}

#[test]
fn empty_registry_round_fails_without_panicking() {
    let outcomes: Vec<Outcome> = vec![];
    let r = decide_quorum(&outcomes);
    assert_eq!(r.passed_count, 0);
    assert_eq!(r.total_count, 0);
    assert!(!r.passed);
}

#[test]
fn quorum_boundary_values() {
    assert!(quorum_passed(4, 5));
    assert!(!quorum_passed(3, 5));
    assert!(quorum_passed(5, 5));
    assert!(quorum_passed(1, 1));
    assert!(!quorum_passed(0, 1));
    assert!(!quorum_passed(0, 0));
    assert!(quorum_passed(8, 10));
    assert!(!quorum_passed(7, 10));
}

#[test]
fn timed_out_call_counts_as_not_passed() {
    assert_eq!(classify_outcome(None), Outcome::Timeout);
    assert_eq!(classify_outcome(Some(true)), Outcome::Pass);
    assert_eq!(classify_outcome(Some(false)), Outcome::Fail);

    let outcomes = vec![
        Outcome::Pass,
        Outcome::Pass,
        Outcome::Pass,
        Outcome::Pass,
        Outcome::Timeout,
    ];
    let r = decide_quorum(&outcomes);
    assert_eq!(r.passed_count, 4);
    assert!(r.passed);

    let outcomes = vec![
        Outcome::Pass,
        Outcome::Pass,
        Outcome::Pass,
        Outcome::Timeout,
        Outcome::Timeout,
    ];
    let r = decide_quorum(&outcomes);
    assert_eq!(r.passed_count, 3);
    assert!(!r.passed);
}

#[test]
fn count_passed_ignores_fail_and_timeout() {
    let outcomes = vec![
        Outcome::Timeout,
        Outcome::Fail,
        Outcome::Pass,
        Outcome::Timeout,
        Outcome::Pass,
    ];
    assert_eq!(count_passed(&outcomes), 2);
}
