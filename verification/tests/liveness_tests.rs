use quorum_node::liveness::{LivenessMonitor, EVICTION_THRESHOLD, PROBE_INTERVAL_SECS, PROBE_TIMEOUT_SECS};

#[test]
fn liveness_constants_are_the_documented_defaults() {
    assert_eq!(EVICTION_THRESHOLD, 3);
    assert_eq!(PROBE_INTERVAL_SECS, 5);
    assert_eq!(PROBE_TIMEOUT_SECS, 5);
}

#[test]
fn two_failures_then_success_resets_and_never_evicts() {
    let mut monitor = LivenessMonitor::new();
    assert!(!monitor.record_probe("peer-a", false));
    assert_eq!(monitor.count_for("peer-a"), 1);
    assert!(!monitor.record_probe("peer-a", false));
    assert_eq!(monitor.count_for("peer-a"), 2);
    assert!(!monitor.record_probe("peer-a", true));
    assert_eq!(monitor.count_for("peer-a"), 0);
    // More failures start over from zero.
    assert!(!monitor.record_probe("peer-a", false));
    assert_eq!(monitor.count_for("peer-a"), 1);
}

#[test]
fn three_consecutive_failures_evict() {
    let mut monitor = LivenessMonitor::new();
    assert!(!monitor.record_probe("peer-b", false));
    assert!(!monitor.record_probe("peer-b", false));
    assert!(monitor.record_probe("peer-b", false));
    // The evicted peer's counter is discarded.
    assert_eq!(monitor.count_for("peer-b"), 0);
}

#[test]
fn success_for_an_unknown_peer_records_nothing() {
    let mut monitor = LivenessMonitor::new();
    assert!(!monitor.record_probe("peer-c", true));
    assert_eq!(monitor.count_for("peer-c"), 0);
}

#[test]
fn counters_are_tracked_per_peer() {
    let mut monitor = LivenessMonitor::new();
    assert!(!monitor.record_probe("peer-a", false));
    assert!(!monitor.record_probe("peer-b", false));
    assert!(!monitor.record_probe("peer-b", false));
    assert_eq!(monitor.count_for("peer-a"), 1);
    assert_eq!(monitor.count_for("peer-b"), 2);
    assert!(!monitor.record_probe("peer-a", true));
    assert_eq!(monitor.count_for("peer-a"), 0);
    assert_eq!(monitor.count_for("peer-b"), 2);
    assert!(monitor.record_probe("peer-b", false));
    assert_eq!(monitor.count_for("peer-b"), 0);
}
