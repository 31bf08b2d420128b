use quorum_node::init::{is_ip_port, is_url, resolve_step, validate_address, ResolveStep,
    RESOLVE_DELAY_STEP_SECS, RESOLVE_MAX_ATTEMPTS};

#[test]
fn ip_port_addresses_are_accepted() {
    assert!(validate_address("127.0.0.1:8080"));
    assert!(validate_address("10.0.0.1:80"));
    assert!(validate_address("255.255.255.255:65535"));
    // The grammar bounds digits per group, not their value.
    assert!(validate_address("999.0.0.1:1"));
}

#[test]
fn malformed_ip_ports_are_refused() {
    assert!(!is_ip_port("127.0.0.1"));
    assert!(!is_ip_port("127.0.0:8080"));
    assert!(!is_ip_port("127.0.0.1:"));
    assert!(!is_ip_port("1234.0.0.1:80"));
    assert!(!is_ip_port(".0.0.1:80"));
    assert!(!is_ip_port("127.0.0.1:80x"));
    assert!(!is_ip_port("127.0.0.1:80:81"));
    assert!(!is_ip_port(""));
}

#[test]
fn url_addresses_are_accepted() {
    assert!(validate_address("example.com"));
    assert!(validate_address("http://example.com"));
    assert!(validate_address("https://example.com"));
    assert!(validate_address("https://example.com:8443"));
    assert!(validate_address("sub-domain.example9.co"));
    assert!(validate_address("sub.example.co:80"));
    // Dots may repeat inside the host part.
    assert!(is_url("example..com"));
}

#[test]
fn malformed_urls_are_refused() {
    assert!(!is_url("example"));
    assert!(!is_url("example.c"));
    assert!(!is_url(".com"));
    assert!(!is_url("example.com:"));
    assert!(!is_url("example.com:port"));
    assert!(!is_url("http://"));
    assert!(!is_url("https://x"));
    assert!(!is_url("exa mple.com"));
    assert!(!is_url("example.com/path"));
    assert!(!validate_address(""));
    assert!(!validate_address("x"));
}

#[test]
fn resolution_schedule_grows_by_five_seconds() {
    assert_eq!(RESOLVE_MAX_ATTEMPTS, 5);
    assert_eq!(RESOLVE_DELAY_STEP_SECS, 5);
    assert_eq!(resolve_step(1, true), ResolveStep::Resolved);
    assert_eq!(resolve_step(1, false), ResolveStep::RetryAfter(5));
    assert_eq!(resolve_step(2, false), ResolveStep::RetryAfter(10));
    assert_eq!(resolve_step(4, false), ResolveStep::RetryAfter(20));
    assert_eq!(resolve_step(5, false), ResolveStep::GiveUp);
    assert_eq!(resolve_step(5, true), ResolveStep::Resolved);
}
