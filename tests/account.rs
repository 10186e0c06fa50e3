use std::str::FromStr;

use svc_authn::jose::Claims;
use svc_authn::AccountId;

#[test]
fn new_keeps_label_and_audience() {
    let id = AccountId::new("alice", "svcA");
    assert_eq!(id.label(), "alice");
    assert_eq!(id.audience(), "svcA");
}

#[test]
fn parse_splits_at_first_dot_only() {
    let id = AccountId::parse("a.b.c").expect("a.b.c parses");
    assert_eq!(id.label(), "a");
    assert_eq!(id.audience(), "b.c");
}

#[test]
fn parse_without_separator_fails() {
    let err = AccountId::parse("no-separator").unwrap_err();
    assert_eq!(
        err.message(),
        "invalid value for the application name: no-separator"
    );
}

#[test]
fn parse_empty_text_fails() {
    assert!(AccountId::parse("").is_err());
}

#[test]
fn parse_allows_empty_parts() {
    let id = AccountId::parse(".").unwrap();
    assert_eq!(id.label(), "");
    assert_eq!(id.audience(), "");
}

#[test]
fn from_str_agrees_with_parse() {
    let id = AccountId::from_str("alice.svcA").unwrap();
    assert_eq!(id, AccountId::new("alice", "svcA"));
    assert!(AccountId::from_str("alice").is_err());
}

#[test]
fn to_string_is_label_dot_audience() {
    assert_eq!(AccountId::new("alice", "svcA").to_string(), "alice.svcA");
    assert_eq!(AccountId::new("a", "b.c").to_string(), "a.b.c");
}

#[test]
fn parse_of_format_gives_back_identity() {
    let id = AccountId::new("alice", "svc.example.org");
    let back = AccountId::parse(&id.to_string()).unwrap();
    assert_eq!(back, id);
}

#[test]
fn format_of_parse_gives_back_text() {
    let text = "bob.x.y:z";
    assert_eq!(AccountId::parse(text).unwrap().to_string(), text);
}

#[test]
fn delegate_builds_composite_audience() {
    let id = AccountId::new("alice", "svcA").delegate("svcB");
    assert_eq!(id.label(), "alice");
    assert_eq!(id.audience(), "svcA:svcB");
}

#[test]
fn from_claims_takes_subject_and_audience() {
    let claims = Claims::new("issuer1", "svcA", "alice".to_string());
    let id = AccountId::from_claims(&claims);
    assert_eq!(id, AccountId::new("alice", "svcA"));
}
