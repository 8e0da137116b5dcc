use auth_service::random::{generate_opaque_token, hash_token};

#[test]
fn generate_opaque_token_is_unique_and_correct_length() {
    let a = generate_opaque_token(16);
    let b = generate_opaque_token(16);
    assert_ne!(a, b);
    assert_eq!(a.len(), 32); // 16 bytes -> 32 hex chars
}

#[test]
fn hash_token_is_deterministic_and_not_the_input() {
    let token = "some-opaque-token";
    let hash_a = hash_token(token);
    let hash_b = hash_token(token);
    assert_eq!(hash_a, hash_b);
    assert_ne!(hash_a, token);
    assert_eq!(hash_a.len(), 64); // SHA-256 -> 32 bytes -> 64 hex chars
}

#[test]
fn hash_token_is_the_sha256_digest_in_lower_case() {
    assert_eq!(
        hash_token("abc"),
        "ba7816bf8f01cfea414140de5dae2223b00361a396177a9cb410ff61f20015ad"
    );
    assert_eq!(
        hash_token(""),
        "e3b0c44298fc1c149afbf4c8996fb92427ae41e4649b934ca495991b7852b855"
    );
}

#[test]
fn opaque_tokens_hold_lower_case_hexadecimal_digits() {
    let token = generate_opaque_token(64);
    assert_eq!(token.len(), 128);
    assert!(token.chars().all(|c| c.is_ascii_digit() || ('a'..='f').contains(&c)));
    assert_eq!(generate_opaque_token(0), "");
}
