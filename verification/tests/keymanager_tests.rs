use quorum_node::keymanager::{
    generate_address, generate_key_pair_from_mnemonic, generate_key_pair_with_prefix,
};

const KNOWN_MNEMONIC: &str =
    "abandon abandon abandon abandon abandon abandon abandon abandon abandon abandon abandon about";

#[test]
fn address_of_the_empty_string_matches_the_known_digest() {
    // SHA-256 of the empty input, first twenty bytes, in lowercase hex.
    assert_eq!(
        generate_address(""),
        "e3b0c44298fc1c149afbf4c8996fb92427ae41e4"
    );
}

#[test]
fn address_of_abc_matches_the_known_digest() {
    assert_eq!(
        generate_address("abc"),
        "ba7816bf8f01cfea414140de5dae2223b00361a3"
    );
}

#[test]
fn key_pair_from_a_known_mnemonic_is_deterministic_and_consistent() {
    let (pk1, sk1, addr1) = generate_key_pair_from_mnemonic(KNOWN_MNEMONIC, "COSMOS").unwrap();
    let (pk2, sk2, addr2) = generate_key_pair_from_mnemonic(KNOWN_MNEMONIC, "COSMOS").unwrap();
    assert_eq!(pk1, pk2);
    assert_eq!(sk1, sk2);
    assert_eq!(addr1, addr2);

    // 32-byte keys, rendered as 64 hex digits.
    assert_eq!(pk1.len(), 64);
    assert_eq!(sk1.len(), 64);
    assert!(pk1.chars().all(|c| c.is_ascii_hexdigit()));
    assert!(sk1.chars().all(|c| c.is_ascii_hexdigit()));

    // The verifying key is a real derivation, not the secret echoed back.
    assert_ne!(pk1, sk1);

    // The address is the lowercased prefix plus the public key's hashed
    // suffix.
    assert_eq!(addr1, format!("cosmos{}", generate_address(&pk1)));
}

#[test]
fn an_invalid_mnemonic_is_refused() {
    assert!(generate_key_pair_from_mnemonic("not a mnemonic", "pre").is_none());
    assert!(generate_key_pair_from_mnemonic("", "pre").is_none());
}

#[test]
fn the_seed_is_not_the_phrase_echoed_back() {
    let (_, sk, _) = generate_key_pair_from_mnemonic(KNOWN_MNEMONIC, "pre").unwrap();
    let phrase_prefix_hex = hex::encode(&KNOWN_MNEMONIC.as_bytes()[..32]);
    assert_ne!(sk, phrase_prefix_hex);
}

#[test]
fn fresh_key_pairs_carry_a_24_word_mnemonic_and_a_prefixed_address() {
    let (pk, sk, words, addr) = generate_key_pair_with_prefix("PRE").unwrap();
    assert_eq!(words.split_whitespace().count(), 24);
    assert_eq!(pk.len(), 64);
    assert_eq!(sk.len(), 64);
    assert!(addr.starts_with("pre"));
    assert_eq!(addr, format!("pre{}", generate_address(&pk)));

    // The mnemonic reproduces the same keys.
    let (pk2, sk2, addr2) = generate_key_pair_from_mnemonic(&words, "PRE").unwrap();
    assert_eq!(pk, pk2);
    assert_eq!(sk, sk2);
    assert_eq!(addr, addr2);
}

#[test]
fn distinct_entropy_gives_distinct_keys() {
    let (pk1, _, _, _) = generate_key_pair_with_prefix("a").unwrap();
    let (pk2, _, _, _) = generate_key_pair_with_prefix("a").unwrap();
    assert_ne!(pk1, pk2);
}
