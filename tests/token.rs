use http::header::HeaderValue;
use svc_authn::jose::{Algorithm, Config, ConfigMap, Validation};
use svc_authn::token::jws_compact::extract::{
    config_for_claims, decode_jws_compact, decode_jws_compact_at, decode_jws_compact_with_config,
    decode_jws_compact_with_config_at, extract_jws_compact, home_audience_of, parse_jws_compact,
    validation_for,
};
use svc_authn::token::jws_compact::TokenBuilder;
use svc_authn::AccountId;

const SECRET: &[u8] = b"a shared secret";

fn trust(issuer: &str, audience: &str, algorithm: Algorithm, key: &[u8]) -> ConfigMap {
    let mut map = ConfigMap::new();
    map.insert(
        issuer,
        Config::new(vec![audience.to_string()], algorithm, key.to_vec()),
    );
    map
}

fn alice_token(expires_in: i64) -> String {
    let id = AccountId::new("alice", "svcA");
    TokenBuilder::new()
        .issuer("issuer1")
        .subject(&id)
        .key(Algorithm::HS256, SECRET)
        .expires_in(expires_in)
        .build()
        .expect("token builds")
}

#[test]
fn round_trip_hs256() {
    let token = alice_token(3600);
    let authn = trust("issuer1", "svcA", Algorithm::HS256, SECRET);
    let claims = decode_jws_compact_with_config(&token, &authn).expect("token verifies");
    assert_eq!(claims.subject(), "alice");
    assert_eq!(claims.audience(), "svcA");
    assert_eq!(claims.issuer(), "issuer1");
    assert!(claims.expiration_time().is_some());
}

#[test]
fn token_has_three_segments() {
    let token = alice_token(3600);
    assert_eq!(token.split('.').count(), 3);
}

#[test]
fn different_key_fails() {
    let token = alice_token(3600);
    let authn = trust("issuer1", "svcA", Algorithm::HS256, b"another secret");
    let err = decode_jws_compact_with_config(&token, &authn).unwrap_err();
    assert!(err
        .message()
        .starts_with("verification of the authentication token failed"));
}

#[test]
fn different_supported_algorithm_fails() {
    let token = alice_token(3600);
    let authn = trust("issuer1", "svcA", Algorithm::ES256, SECRET);
    assert!(decode_jws_compact_with_config(&token, &authn).is_err());
}

#[test]
fn unsupported_algorithm_in_config_fails() {
    let token = alice_token(3600);
    let authn = trust("issuer1", "svcA", Algorithm::HS384, SECRET);
    let err = decode_jws_compact_with_config(&token, &authn).unwrap_err();
    assert_eq!(err.message(), "unsupported algorithm HS384");
}

#[test]
fn unknown_issuer_fails() {
    let token = alice_token(3600);
    let authn = trust("issuer2", "svcA", Algorithm::HS256, SECRET);
    let err = decode_jws_compact_with_config(&token, &authn).unwrap_err();
    assert_eq!(
        err.message(),
        "issuer = issuer1 of the authentication token is not allowed"
    );
}

#[test]
fn audience_not_allowed_fails() {
    let token = alice_token(3600);
    let authn = trust("issuer1", "svcB", Algorithm::HS256, SECRET);
    let err = decode_jws_compact_with_config(&token, &authn).unwrap_err();
    assert_eq!(
        err.message(),
        "audience = svcA of the authentication token is not allowed"
    );
}

#[test]
fn cross_audience_delegation() {
    let id = AccountId::new("alice", "svcA").delegate("svcB");
    let token = TokenBuilder::new()
        .issuer("issuer1")
        .subject(&id)
        .key(Algorithm::HS256, SECRET)
        .expires_in(3600)
        .build()
        .unwrap();
    let unverified = parse_jws_compact(&token).unwrap();
    assert_eq!(unverified.subject(), "alice");
    assert_eq!(unverified.audience(), "svcA:svcB");
    let authn = trust("issuer1", "svcA", Algorithm::HS256, SECRET);
    let claims = decode_jws_compact_with_config(&token, &authn).expect("home segment matches");
    assert_eq!(claims.audience(), "svcA:svcB");
    assert_eq!(claims.subject(), "alice");
}

#[test]
fn delegated_audience_is_checked_by_home_segment() {
    let id = AccountId::new("alice", "svcB").delegate("svcA");
    let token = TokenBuilder::new()
        .issuer("issuer1")
        .subject(&id)
        .key(Algorithm::HS256, SECRET)
        .build()
        .unwrap();
    let authn = trust("issuer1", "svcA", Algorithm::HS256, SECRET);
    assert!(decode_jws_compact_with_config(&token, &authn).is_err());
}

#[test]
fn expired_token_fails() {
    let token = alice_token(-1);
    let authn = trust("issuer1", "svcA", Algorithm::HS256, SECRET);
    let err = decode_jws_compact_with_config(&token, &authn).unwrap_err();
    assert!(err.message().contains("ExpiredSignature"));
}

#[test]
fn token_without_expiry_never_expires() {
    let id = AccountId::new("alice", "svcA");
    let token = TokenBuilder::new()
        .issuer("issuer1")
        .subject(&id)
        .key(Algorithm::HS256, SECRET)
        .build()
        .unwrap();
    let unverified = parse_jws_compact(&token).unwrap();
    assert_eq!(unverified.expiration_time(), None);
    let authn = trust("issuer1", "svcA", Algorithm::HS256, SECRET);
    let claims = decode_jws_compact_with_config(&token, &authn).unwrap();
    assert_eq!(claims.expiration_time(), None);
}

#[test]
fn build_at_sets_expiry_from_now() {
    let id = AccountId::new("alice", "svcA");
    let token = TokenBuilder::new()
        .issuer("issuer1")
        .subject(&id)
        .key(Algorithm::HS256, SECRET)
        .expires_in(3600)
        .build_at(1_000)
        .unwrap();
    let claims = parse_jws_compact(&token).unwrap();
    assert_eq!(claims.expiration_time(), Some(4_600));
}

#[test]
fn build_at_expiry_before_epoch_fails() {
    let id = AccountId::new("alice", "svcA");
    let err = TokenBuilder::new()
        .issuer("issuer1")
        .subject(&id)
        .key(Algorithm::HS256, SECRET)
        .expires_in(-10)
        .build_at(5)
        .unwrap_err();
    assert_eq!(err.message(), "expiration out of range");
}

#[test]
fn build_without_key_fails() {
    let id = AccountId::new("alice", "svcA");
    let err = TokenBuilder::new()
        .issuer("issuer1")
        .subject(&id)
        .expires_in(3600)
        .build()
        .unwrap_err();
    assert_eq!(err.message(), "missing algorithm");
}

#[test]
fn build_without_issuer_fails() {
    let id = AccountId::new("alice", "svcA");
    let err = TokenBuilder::new()
        .subject(&id)
        .key(Algorithm::HS256, SECRET)
        .build()
        .unwrap_err();
    assert_eq!(err.message(), "invalid issuer");
}

#[test]
fn build_without_subject_fails() {
    let err = TokenBuilder::new()
        .issuer("issuer1")
        .key(Algorithm::HS256, SECRET)
        .build()
        .unwrap_err();
    assert_eq!(err.message(), "missing subject");
}

#[test]
fn build_with_unsupported_algorithm_fails() {
    let id = AccountId::new("alice", "svcA");
    let err = TokenBuilder::new()
        .issuer("issuer1")
        .subject(&id)
        .key(Algorithm::RS256, SECRET)
        .build()
        .unwrap_err();
    assert_eq!(err.message(), "unsupported algorithm RS256");
}

#[test]
fn build_with_bad_ec_key_fails() {
    let id = AccountId::new("alice", "svcA");
    let err = TokenBuilder::new()
        .issuer("issuer1")
        .subject(&id)
        .key(Algorithm::ES256, b"not a key")
        .build()
        .unwrap_err();
    assert!(err.message().starts_with("encoding error, "));
}

#[test]
fn tampered_signature_fails() {
    let token = alice_token(3600);
    let at = token.len() - 5;
    let old = token.as_bytes()[at] as char;
    let replacement = if old == 'A' { "B" } else { "A" };
    let tampered = format!("{}{}{}", &token[..at], replacement, &token[at + 1..]);
    assert_ne!(tampered, token);
    let authn = trust("issuer1", "svcA", Algorithm::HS256, SECRET);
    assert!(decode_jws_compact_with_config(&token, &authn).is_ok());
    assert!(decode_jws_compact_with_config(&tampered, &authn).is_err());
}

#[test]
fn malformed_token_fails_to_parse() {
    let err = parse_jws_compact("not-a-token").unwrap_err();
    assert_eq!(err.message(), "invalid claims of the authentication token");
    let authn = trust("issuer1", "svcA", Algorithm::HS256, SECRET);
    assert!(decode_jws_compact_with_config("a.b.c", &authn).is_err());
}

#[test]
fn decode_checks_issuer_when_asked() {
    let token = alice_token(3600);
    let mut v = Validation::new(Algorithm::HS256);
    v.iss = Some("someone else".to_string());
    assert!(decode_jws_compact(&token, &v, SECRET, Algorithm::HS256).is_err());
    v.iss = Some("issuer1".to_string());
    let claims = decode_jws_compact(&token, &v, SECRET, Algorithm::HS256).unwrap();
    assert_eq!(claims.subject(), "alice");
}

#[test]
fn decode_with_unsupported_algorithm_fails() {
    let token = alice_token(3600);
    let v = Validation::new(Algorithm::PS256);
    let err = decode_jws_compact(&token, &v, SECRET, Algorithm::PS256).unwrap_err();
    assert_eq!(err.message(), "unsupported algorithm PS256");
}

#[test]
fn home_audience_is_before_first_colon() {
    assert_eq!(home_audience_of("svcA:svcB"), "svcA");
    assert_eq!(home_audience_of("svcA:svcB:svcC"), "svcA");
    assert_eq!(home_audience_of("svcA"), "svcA");
    assert_eq!(home_audience_of(":x"), "");
}

#[test]
fn config_for_claims_picks_issuer_config() {
    let token = alice_token(3600);
    let claims = parse_jws_compact(&token).unwrap();
    let authn = trust("issuer1", "svcA", Algorithm::HS256, SECRET);
    let config = config_for_claims(&claims, &authn).unwrap();
    assert_eq!(config.key(), &SECRET.to_vec());
}

#[test]
fn extract_from_bearer_header() {
    let token = alice_token(3600);
    let header = HeaderValue::from_str(&format!("Bearer {}", token)).unwrap();
    let authn = trust("issuer1", "svcA", Algorithm::HS256, SECRET);
    let claims = extract_jws_compact(&header, &authn).unwrap();
    assert_eq!(claims.subject(), "alice");
    let bad = HeaderValue::from_str(&format!("Token {}", token)).unwrap();
    assert!(extract_jws_compact(&bad, &authn).is_err());
}

fn alice_token_at(now: i64, expires_in: Option<i64>) -> String {
    let id = AccountId::new("alice", "svcA");
    let b = TokenBuilder::new()
        .issuer("issuer1")
        .subject(&id)
        .key(Algorithm::HS256, SECRET);
    let b = match expires_in {
        Some(v) => b.expires_in(v),
        None => b,
    };
    b.build_at(now).unwrap()
}

#[test]
fn hs256_build_is_deterministic_in_setter_order() {
    let id = AccountId::new("alice", "svcA");
    let a = TokenBuilder::new()
        .issuer("issuer1")
        .subject(&id)
        .key(Algorithm::HS256, SECRET)
        .expires_in(60)
        .build_at(1_000)
        .unwrap();
    let b = TokenBuilder::new()
        .expires_in(60)
        .key(Algorithm::HS256, SECRET)
        .issuer("other")
        .subject(&id)
        .issuer("issuer1")
        .build_at(1_000)
        .unwrap();
    assert_eq!(a, b);
}

#[test]
fn verification_at_a_given_time() {
    let token = alice_token_at(1_000, Some(60));
    let authn = trust("issuer1", "svcA", Algorithm::HS256, SECRET);
    let c = decode_jws_compact_with_config_at(&token, &authn, 1_060).unwrap();
    assert_eq!(c.expiration_time(), Some(1_060));
    let err = decode_jws_compact_with_config_at(&token, &authn, 1_061).unwrap_err();
    assert_eq!(
        err.message(),
        "verification of the authentication token failed – ExpiredSignature"
    );
}

#[test]
fn token_without_expiry_verifies_at_any_time() {
    let token = alice_token_at(1_000, None);
    let authn = trust("issuer1", "svcA", Algorithm::HS256, SECRET);
    assert!(decode_jws_compact_with_config_at(&token, &authn, i64::MAX).is_ok());
}

#[test]
fn decode_with_mismatched_expected_algorithm_fails() {
    let token = alice_token(3600);
    let v = Validation::new(Algorithm::ES256);
    let err = decode_jws_compact(&token, &v, SECRET, Algorithm::HS256).unwrap_err();
    assert_eq!(
        err.message(),
        "verification of the authentication token failed – InvalidAlgorithm"
    );
}

#[test]
fn decode_at_checks_expiry_only_when_asked() {
    let token = alice_token_at(1_000, Some(10));
    let mut v = Validation::new(Algorithm::HS256);
    assert!(decode_jws_compact_at(&token, &v, SECRET, Algorithm::HS256, 2_000).is_err());
    v.validate_exp = false;
    assert!(decode_jws_compact_at(&token, &v, SECRET, Algorithm::HS256, 2_000).is_ok());
}

#[test]
fn decode_at_with_expiry_check_needs_exp() {
    let token = alice_token_at(1_000, None);
    let v = Validation::new(Algorithm::HS256);
    let err = decode_jws_compact_at(&token, &v, SECRET, Algorithm::HS256, 0).unwrap_err();
    assert!(err.message().ends_with("ExpiredSignature"));
}

#[test]
fn validation_for_follows_claims_and_config() {
    let authn = trust("issuer1", "svcA", Algorithm::HS256, SECRET);
    let config = authn.get("issuer1").unwrap();
    let with_exp = parse_jws_compact(&alice_token_at(1_000, Some(5))).unwrap();
    let v = validation_for(&with_exp, config);
    assert_eq!(v.algorithm, Algorithm::HS256);
    assert!(v.validate_exp);
    assert_eq!(v.iss.as_deref(), Some("issuer1"));
    let without = parse_jws_compact(&alice_token_at(1_000, None)).unwrap();
    assert!(!validation_for(&without, config).validate_exp);
}

#[test]
fn unverified_parse_ignores_signature_segment() {
    let token = alice_token(3600);
    let cut = token.rfind('.').unwrap();
    let other = format!("{}.{}", &token[..cut], "AAAA");
    let a = parse_jws_compact(&token).unwrap();
    let b = parse_jws_compact(&other).unwrap();
    assert_eq!(a.subject(), b.subject());
    assert_eq!(a.expiration_time(), b.expiration_time());
    let authn = trust("issuer1", "svcA", Algorithm::HS256, SECRET);
    assert!(decode_jws_compact_with_config(&other, &authn).is_err());
}

#[test]
fn extract_with_invalid_header_bytes_fails() {
    let header = HeaderValue::from_bytes(b"Bearer \xfftok").unwrap();
    let authn = trust("issuer1", "svcA", Algorithm::HS256, SECRET);
    let err = extract_jws_compact(&header, &authn).unwrap_err();
    assert_eq!(err.message(), "invalid characters in the authorization header");
}
