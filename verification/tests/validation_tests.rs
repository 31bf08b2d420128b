use quorum_node::api::{broadcast_response, broadcast_storage_key, registration_response};
use quorum_node::config::Config;
use quorum_node::validation::{validate_data, DataField, Meta, Metadata, TransactionData};

fn valid_transaction() -> TransactionData {
    TransactionData {
        transaction_type: "transfer".to_owned(),
        sender: "alice".to_owned(),
        private_key: "a".repeat(64),
        receiver: "bob".to_owned(),
        amount: 10,
        denom: "usd".to_owned(),
        fee: 1,
        flags: 0,
        data_type: "data".to_owned(),
        data: DataField { data: "content".to_owned() },
        metadata: Metadata { meta: Meta { value: "m".to_owned() } },
        model_type: "default_model".to_owned(),
    }
}

#[test]
fn a_complete_transaction_validates() {
    assert!(validate_data(&valid_transaction()));
}

#[test]
fn every_schema_violation_collapses_to_false() {
    let mut t = valid_transaction();
    t.transaction_type = String::new();
    assert!(!validate_data(&t));

    let mut t = valid_transaction();
    t.sender = String::new();
    assert!(!validate_data(&t));

    let mut t = valid_transaction();
    t.receiver = String::new();
    assert!(!validate_data(&t));

    let mut t = valid_transaction();
    t.private_key = "a".repeat(63);
    assert!(!validate_data(&t));

    let mut t = valid_transaction();
    t.private_key = "a".repeat(65);
    assert!(!validate_data(&t));

    let mut t = valid_transaction();
    t.amount = 0;
    assert!(!validate_data(&t));

    let mut t = valid_transaction();
    t.denom = String::new();
    assert!(!validate_data(&t));

    let mut t = valid_transaction();
    t.fee = 0;
    assert!(!validate_data(&t));

    let mut t = valid_transaction();
    t.data.data = String::new();
    assert!(!validate_data(&t));

    let mut t = valid_transaction();
    t.metadata.meta.value = String::new();
    assert!(!validate_data(&t));
}

#[test]
fn flags_and_model_type_are_not_checked() {
    let mut t = valid_transaction();
    t.flags = 99;
    t.model_type = String::new();
    assert!(validate_data(&t));
}

#[test]
fn handler_texts_match_the_interface() {
    assert_eq!(
        registration_response("node-7"),
        "Node node-7 registered successfully"
    );
    assert_eq!(broadcast_storage_key(), "broadcasted_transaction");
    assert_eq!(broadcast_response(), "Broadcast received successfully");
}

#[test]
fn config_tracks_its_wallet_address() {
    let mut config = Config::new("uuid-1".to_owned(), "127.0.0.1:8080".to_owned(), None);
    assert!(!config.has_wallet_address());
    config.set_wallet_address("wallet-1".to_owned());
    assert!(config.has_wallet_address());
    assert_eq!(config.uuid, "uuid-1");
    assert_eq!(config.address, "127.0.0.1:8080");
    assert_eq!(config.wallet_address, Some("wallet-1".to_owned()));
}
