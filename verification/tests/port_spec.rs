//! Port-token grammar: parsing and expansion.

use portzap::cli::parse_ports;
use portzap::errors::KillportError;
use portzap::process::{PortSpec, expand_all};

#[test]
fn parse_single_port() {
    let spec = PortSpec::parse("3000").unwrap();
    assert!(matches!(spec, PortSpec::Single(3000)));
    assert_eq!(spec.expand(), vec![3000]);
}

#[test]
fn parse_port_range() {
    let spec = PortSpec::parse("3000-3005").unwrap();
    assert!(matches!(spec, PortSpec::Range(3000, 3005)));
    assert_eq!(spec.expand(), vec![3000, 3001, 3002, 3003, 3004, 3005]);
}

#[test]
fn parse_invalid_port_zero() {
    assert!(PortSpec::parse("0").is_err());
}

#[test]
fn parse_invalid_port_too_large() {
    assert!(PortSpec::parse("99999").is_err());
}

#[test]
fn parse_invalid_port_text() {
    assert!(PortSpec::parse("abc").is_err());
}

#[test]
fn parse_reversed_range() {
    assert!(PortSpec::parse("3010-3000").is_err());
}

#[test]
fn parse_range_starting_at_zero() {
    assert!(PortSpec::parse("0-100").is_err());
}

#[test]
fn single_port_round_trips_across_the_range() {
    for s in ["1", "80", "1024", "54321", "65535"] {
        let spec = PortSpec::parse(s).unwrap();
        let expanded = spec.expand();
        assert_eq!(expanded.len(), 1);
        assert_eq!(expanded[0].to_string(), s);
    }
}

#[test]
fn range_expansion_is_full_ascending_inclusive() {
    let spec = PortSpec::parse("65530-65535").unwrap();
    assert_eq!(spec.expand(), vec![65530, 65531, 65532, 65533, 65534, 65535]);
    let one = PortSpec::parse("42-42").unwrap();
    assert_eq!(one.expand(), vec![42]);
}

#[test]
fn malformed_tokens_are_rejected() {
    for s in ["", "-", "80-", "-80", "1-2-3", "65536", "1-65536", "4294967296", " 80", "8 0", "+80"] {
        assert!(PortSpec::parse(s).is_err(), "token {:?} should be rejected", s);
    }
}

#[test]
fn error_variants_name_the_offence() {
    match PortSpec::parse("0") {
        Err(KillportError::InvalidPort(0, tok)) => assert_eq!(tok, "0"),
        other => panic!("expected InvalidPort naming the token, got {:?}", other),
    }
    match PortSpec::parse("99999") {
        Err(KillportError::InvalidPort(99999, tok)) => assert_eq!(tok, "99999"),
        other => panic!("expected InvalidPort naming the token, got {:?}", other),
    }
    match PortSpec::parse("abc") {
        Err(KillportError::InvalidPort(0, tok)) => assert_eq!(tok, "abc"),
        other => panic!("expected InvalidPort naming the token, got {:?}", other),
    }
    match PortSpec::parse("3010-3000") {
        Err(KillportError::InvalidPortRange(tok)) => assert_eq!(tok, "3010-3000"),
        other => panic!("expected InvalidPortRange naming the token, got {:?}", other),
    }
    assert!(matches!(
        PortSpec::parse("a-b"),
        Err(KillportError::InvalidPortRange(_))
    ));
}

#[test]
fn parse_ports_batches_tokens() {
    let raw = vec!["3000".to_string(), "4000-4002".to_string()];
    let specs = parse_ports(&raw).unwrap();
    assert_eq!(specs.len(), 2);
    assert!(matches!(specs[0], PortSpec::Single(3000)));
    assert!(matches!(specs[1], PortSpec::Range(4000, 4002)));
    let bad = vec!["3000".to_string(), "oops".to_string()];
    match parse_ports(&bad) {
        Err(e) => assert!(e.message().contains("oops"), "the error must name the token"),
        Ok(_) => panic!("malformed token must fail"),
    }
}

#[test]
fn expand_all_concatenates_in_order() {
    let specs = vec![PortSpec::Range(10, 12), PortSpec::Single(7)];
    assert_eq!(expand_all(&specs), vec![10, 11, 12, 7]);
    assert_eq!(expand_all(&Vec::new()), Vec::<u16>::new());
}
