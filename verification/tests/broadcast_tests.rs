use quorum_node::broadcast::{broadcast_url, finalize_with_broadcast, probe_url, summarize_broadcast};
use quorum_node::consensus::RequestOutcome;

#[test]
fn broadcast_url_defaults_to_the_unencrypted_scheme() {
    assert_eq!(
        broadcast_url("10.0.0.1:8080"),
        "http://10.0.0.1:8080/receive_broadcast"
    );
}

#[test]
fn broadcast_url_keeps_a_declared_scheme_and_trims_trailing_slashes() {
    assert_eq!(
        broadcast_url("https://peer.example.com/"),
        "https://peer.example.com/receive_broadcast"
    );
    assert_eq!(
        broadcast_url("http://peer.example.com///"),
        "http://peer.example.com/receive_broadcast"
    );
    assert_eq!(
        broadcast_url("http://peer.example.com"),
        "http://peer.example.com/receive_broadcast"
    );
}

#[test]
fn probe_url_targets_the_nodes_endpoint() {
    assert_eq!(probe_url("10.0.0.2:9000"), "http://10.0.0.2:9000/nodes");
}

#[test]
fn half_unreachable_broadcast_still_succeeds_for_the_caller() {
    let outcomes = vec![true, false, true, false];
    let (sealed, summary) = finalize_with_broadcast(
        RequestOutcome::Success("ledger-body".to_owned()),
        &outcomes,
    );
    match sealed {
        RequestOutcome::Success(body) => assert_eq!(body, "ledger-body"),
        _ => panic!("broadcast failures must not change the request outcome"),
    }
    assert_eq!(summary.attempted, 4);
    assert_eq!(summary.delivered, 2);
}

#[test]
fn all_unreachable_broadcast_still_succeeds_for_the_caller() {
    let outcomes = vec![false, false, false];
    let (sealed, summary) = finalize_with_broadcast(
        RequestOutcome::Success("body".to_owned()),
        &outcomes,
    );
    assert!(matches!(sealed, RequestOutcome::Success(_)));
    assert_eq!(summary.delivered, 0);
}

#[test]
fn broadcast_summary_counts_deliveries() {
    let outcomes = vec![true, false, true, false, false];
    let summary = summarize_broadcast(&outcomes);
    assert_eq!(summary.attempted, 5);
    assert_eq!(summary.delivered, 2);

    let empty: Vec<bool> = vec![];
    let summary = summarize_broadcast(&empty);
    assert_eq!(summary.attempted, 0);
    assert_eq!(summary.delivered, 0);
}
