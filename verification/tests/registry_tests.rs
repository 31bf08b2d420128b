use quorum_node::api::{node_from_request, RegisterNodeRequest};
use quorum_node::node::{Node, NodeList};

fn peer(id: &str, address: &str, key: &str) -> Node {
    Node {
        id: id.to_owned(),
        address: address.to_owned(),
        public_key: key.to_owned(),
        validated: Some(true),
    }
}

#[test]
fn registered_peer_reads_back_unchanged_with_validated_false() {
    let req = RegisterNodeRequest {
        id: "node-1".to_owned(),
        address: "10.0.0.1:8080".to_owned(),
        public_key: "pk-node-1".to_owned(),
    };
    let node = node_from_request(&req);

    let mut registry = NodeList::new();
    registry.add_node(node);

    let snapshot = registry.get_nodes();
    assert_eq!(snapshot.len(), 1);
    assert_eq!(snapshot[0].id, "node-1");
    assert_eq!(snapshot[0].address, "10.0.0.1:8080");
    assert_eq!(snapshot[0].public_key, "pk-node-1");
    assert_eq!(snapshot[0].validated, Some(false));
}

#[test]
fn inserting_an_existing_id_overwrites() {
    let mut registry = NodeList::new();
    registry.add_node(peer("n1", "addr-old", "key-old"));
    registry.add_node(peer("n2", "addr-2", "key-2"));
    registry.add_node(peer("n1", "addr-new", "key-new"));

    let snapshot = registry.get_nodes();
    assert_eq!(snapshot.len(), 2);
    let found = registry.find_node_by_uuid("n1").unwrap();
    assert_eq!(found.address, "addr-new");
    assert_eq!(found.public_key, "key-new");
}

#[test]
fn remove_reports_presence() {
    let mut registry = NodeList::new();
    registry.add_node(peer("n1", "a", "k"));
    assert!(registry.remove_node_by_uuid("n1"));
    assert!(!registry.remove_node_by_uuid("n1"));
    assert!(registry.find_node_by_uuid("n1").is_none());
    assert_eq!(registry.get_nodes().len(), 0);
}

#[test]
fn find_misses_an_unknown_id() {
    let mut registry = NodeList::new();
    registry.add_node(peer("n1", "a", "k"));
    assert!(registry.find_node_by_uuid("n2").is_none());
}

#[test]
fn update_validation_touches_only_the_status() {
    let mut registry = NodeList::new();
    registry.add_node(peer("n1", "a", "k"));
    registry.update_validation("n1", false);
    let found = registry.find_node_by_uuid("n1").unwrap();
    assert_eq!(found.validated, Some(false));
    assert_eq!(found.address, "a");
    registry.update_validation("missing", true);
    assert_eq!(registry.get_nodes().len(), 1);
}

#[test]
fn from_nodes_keeps_the_last_duplicate() {
    let nodes = vec![
        peer("n1", "first", "k1"),
        peer("n2", "addr", "k2"),
        peer("n1", "second", "k3"),
    ];
    let registry = NodeList::from_nodes(nodes);
    let snapshot = registry.get_nodes();
    assert_eq!(snapshot.len(), 2);
    let found = registry.find_node_by_uuid("n1").unwrap();
    assert_eq!(found.address, "second");
}

#[test]
fn replace_all_swaps_the_whole_contents() {
    let mut registry = NodeList::new();
    registry.add_node(peer("old-1", "a", "k"));
    registry.add_node(peer("old-2", "b", "k"));
    registry.replace_all(vec![peer("new-1", "c", "k")]);
    let snapshot = registry.get_nodes();
    assert_eq!(snapshot.len(), 1);
    assert_eq!(snapshot[0].id, "new-1");
    assert!(registry.find_node_by_uuid("old-1").is_none());
}

#[test]
fn snapshot_is_a_genuine_copy() {
    let mut registry = NodeList::new();
    registry.add_node(peer("n1", "a", "k"));
    let snapshot = registry.get_nodes();
    registry.remove_node_by_uuid("n1");
    // The earlier snapshot still holds the removed peer.
    assert_eq!(snapshot.len(), 1);
    assert_eq!(snapshot[0].id, "n1");
    assert_eq!(registry.get_nodes().len(), 0);
}
