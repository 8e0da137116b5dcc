use base64::Engine;
use auth_service::token::{claims_at, JwtKeys, TokenError, ACCESS_TOKEN_TTL};

fn test_keys() -> JwtKeys {
    JwtKeys::new(
        b"a test signing secret at least 32 bytes long!!",
        ACCESS_TOKEN_TTL,
    )
}

#[test]
fn issue_and_verify_roundtrip() {
    let keys = test_keys();
    let (token, issued_claims) = keys.issue_access_token("user-123", "test-jkt").unwrap();
    let verified_claims = keys.verify_access_token(&token).unwrap();

    assert_eq!(verified_claims.sub, "user-123");
    assert_eq!(verified_claims.jti, issued_claims.jti);
    assert_eq!(verified_claims.exp - verified_claims.iat, 600);
    assert_eq!(verified_claims.cnf.jkt, "test-jkt");
}

#[test]
fn tampered_token_fails_verification() {
    let keys = test_keys();
    let (token, _) = keys.issue_access_token("user-123", "test-jkt").unwrap();
    let mut tampered = token.clone();
    tampered.push('x');

    assert!(keys.verify_access_token(&tampered).is_err());
}

#[test]
fn wrong_secret_fails_verification() {
    let keys_a = test_keys();
    let keys_b = JwtKeys::new(
        b"a different signing secret, also 32+ bytes!",
        ACCESS_TOKEN_TTL,
    );
    let (token, _) = keys_a.issue_access_token("user-123", "test-jkt").unwrap();

    assert!(keys_b.verify_access_token(&token).is_err());
}

#[test]
fn two_tokens_for_same_user_have_different_jti() {
    let keys = test_keys();
    let (_, claims_a) = keys.issue_access_token("user-123", "test-jkt").unwrap();
    let (_, claims_b) = keys.issue_access_token("user-123", "test-jkt").unwrap();

    assert_ne!(claims_a.jti, claims_b.jti);
}

#[test]
fn token_past_its_end_and_leeway_fails_verification() {
    let keys = test_keys();
    let now = jsonwebtoken::get_current_timestamp();
    // Ended ten minutes ago.
    let (old, _) =
        keys.issue_access_token_at("user-123", "test-jkt", "some-jti".to_string(), now - 1200).unwrap();
    assert_eq!(keys.verify_access_token(&old).err(), Some(TokenError::Invalid));
    // Ended half a minute ago: within the leeway.
    let (token, recent) =
        keys.issue_access_token_at("user-123", "test-jkt", "some-jti".to_string(), now - 630).unwrap();
    let verified = keys.verify_access_token(&token).unwrap();
    assert_eq!(verified.jti, "some-jti");
    assert_eq!(verified.exp, recent.exp);
}

#[test]
fn claims_that_cannot_be_written_are_not_made() {
    assert!(claims_at("u", "k", "j".to_string(), u64::MAX, 600).is_none());
    assert!(claims_at("u", "k", "j".to_string(), i64::MAX as u64, 1).is_none());
    let last = claims_at("u", "k", "j".to_string(), i64::MAX as u64 - 1, 1).unwrap();
    assert_eq!(last.exp, i64::MAX);
}

#[test]
fn clock_out_of_range_is_an_error() {
    let keys = JwtKeys::new(b"a test signing secret at least 32 bytes long!!", u64::MAX);
    assert_eq!(
        keys.issue_access_token("user-123", "test-jkt").err(),
        Some(TokenError::ClockOutOfRange)
    );
}

#[test]
fn token_carries_five_claims() {
    let keys = test_keys();
    let (token, claims) = keys.issue_access_token("user-123", "test-jkt").unwrap();
    let payload = token.split('.').nth(1).unwrap();
    let bytes = base64::engine::general_purpose::URL_SAFE_NO_PAD.decode(payload).unwrap();
    let object: serde_json::Map<String, serde_json::Value> = serde_json::from_slice(&bytes).unwrap();
    let mut names: Vec<&str> = object.keys().map(|name| name.as_str()).collect();
    names.sort();
    assert_eq!(names, vec!["cnf", "exp", "iat", "jti", "sub"]);
    assert_eq!(object["sub"], "user-123");
    assert_eq!(object["iat"], claims.iat);
    assert_eq!(object["cnf"]["jkt"], "test-jkt");
    let header = token.split('.').next().unwrap();
    let bytes = base64::engine::general_purpose::URL_SAFE_NO_PAD.decode(header).unwrap();
    let object: serde_json::Map<String, serde_json::Value> = serde_json::from_slice(&bytes).unwrap();
    assert_eq!(object["alg"], "HS256");
}

#[test]
fn token_without_key_binding_fails_verification() {
    let secret = b"a test signing secret at least 32 bytes long!!";
    let mut claims = serde_json::Map::new();
    let now = jsonwebtoken::get_current_timestamp() as i64;
    claims.insert("sub".to_string(), "user-123".into());
    claims.insert("iat".to_string(), now.into());
    claims.insert("exp".to_string(), (now + 600).into());
    claims.insert("jti".to_string(), "some-jti".into());
    let token = jsonwebtoken::encode(
        &jsonwebtoken::Header::new(jsonwebtoken::Algorithm::HS256),
        &claims,
        &jsonwebtoken::EncodingKey::from_secret(secret),
    )
    .unwrap();
    assert!(test_keys().verify_access_token(&token).is_err());
}

#[test]
fn short_signing_secret_is_refused() {
    assert!(JwtKeys::from_signing_secret("thirty-one bytes, one too few!!").is_none());
    let keys = JwtKeys::from_signing_secret("exactly thirty-two bytes, enough").unwrap();
    assert_eq!(keys.ttl(), 600);
    let (token, _) = keys.issue_access_token("user-123", "test-jkt").unwrap();
    assert!(keys.verify_access_token(&token).is_ok());
}
