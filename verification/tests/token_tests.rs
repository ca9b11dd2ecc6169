//! Session tokens and the request guard against the real signer.

use bread::api::token::authenticate_request;
use bread::api::token::SessionTokenService;
use bread::errors::AppError;

fn service() -> SessionTokenService {
    SessionTokenService::new(b"a shared test signing key".to_vec())
}

/// A token signed outside the library with a chosen expiry, so the
/// validation path that accepts a live token can be exercised at all:
/// the library's own issue policy stamps an elapsed expiry into
/// everything it signs.
fn foreign_token(key: &[u8], sub: &str, exp: u64) -> String {
    let mut claims = serde_json::Map::new();
    claims.insert("sub".to_string(), serde_json::Value::from(sub));
    claims.insert("exp".to_string(), serde_json::Value::from(exp));
    let encoding_key = jsonwebtoken::EncodingKey::from_secret(key);
    jsonwebtoken::encode(
        &jsonwebtoken::Header::default(),
        &serde_json::Value::Object(claims),
        &encoding_key,
    )
    .unwrap()
}

#[test]
fn issued_token_fails_validation_immediately() {
    // The observed expiry policy makes every fresh token already elapsed;
    // this documents that behavior as a regression, it is not desired.
    let tokens = service();
    let token = tokens.issue("alice").unwrap();
    assert!(tokens.validate(token.as_str(), 0).is_err());
    assert!(tokens.validate(token.as_str(), 1_700_000_000).is_err());
}

#[test]
fn issued_token_carries_subject_and_elapsed_expiry() {
    let tokens = service();
    let token = tokens.issue("alice").unwrap();
    let mut validation = jsonwebtoken::Validation::default();
    validation.validate_exp = false;
    let key = jsonwebtoken::DecodingKey::from_secret(b"a shared test signing key");
    let data =
        jsonwebtoken::decode::<serde_json::Value>(token.as_str(), &key, &validation).unwrap();
    assert_eq!(data.claims.get("sub").and_then(|v| v.as_str()), Some("alice"));
    assert_eq!(data.claims.get("exp").and_then(|v| v.as_u64()), Some(0));
}

#[test]
fn live_token_validates_and_yields_its_claims() {
    let tokens = service();
    let token = foreign_token(b"a shared test signing key", "alice", 2_000_000_000);
    let claims = tokens.validate(token.as_str(), 1_700_000_000).unwrap();
    assert_eq!(claims.sub, "alice");
    assert_eq!(claims.exp, 2_000_000_000);
}

#[test]
fn elapsed_expiry_is_rejected() {
    let tokens = service();
    let token = foreign_token(b"a shared test signing key", "alice", 1_000);
    assert!(tokens.validate(token.as_str(), 1_000).is_err());
    assert!(tokens.validate(token.as_str(), 2_000).is_err());
    assert!(tokens.validate(token.as_str(), 999).is_ok());
}

#[test]
fn wrong_key_and_tampering_are_rejected() {
    let tokens = service();
    let forged = foreign_token(b"another key entirely", "alice", 2_000_000_000);
    assert!(tokens.validate(forged.as_str(), 0).is_err());

    let good = foreign_token(b"a shared test signing key", "alice", 2_000_000_000);
    let mut tampered = good.clone();
    tampered.push('A');
    assert!(tokens.validate(tampered.as_str(), 0).is_err());
    assert!(tokens.validate("not.a.token", 0).is_err());
}

#[test]
fn guard_rejects_a_missing_cookie() {
    let tokens = service();
    assert!(matches!(authenticate_request(&tokens, None, 0), Err(AppError::AuthError)));
}

#[test]
fn guard_accepts_a_live_cookie_and_rejects_the_rest() {
    let tokens = service();
    let live = foreign_token(b"a shared test signing key", "alice", 2_000_000_000);
    let claims = authenticate_request(&tokens, Some(live.as_str()), 1_700_000_000).unwrap();
    assert_eq!(claims.sub, "alice");

    // An issued token is already elapsed, and garbage is garbage: the
    // guard collapses every failure to the same rejection.
    let issued = tokens.issue("alice").unwrap();
    assert!(matches!(
        authenticate_request(&tokens, Some(issued.as_str()), 0),
        Err(AppError::AuthError)
    ));
    assert!(matches!(authenticate_request(&tokens, Some("garbage"), 0), Err(AppError::AuthError)));
}
