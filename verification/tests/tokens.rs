use backend::tokens::{
    token_from_bytes,
    generate_password_reset_token, generate_random_password, generate_refresh_token_string,
    generate_verification_token, hash_password, hash_password_reset_token, hash_token,
    hash_verification_token, is_valid_unsubscribe_token_format, verify_password, PasswordError,
};

#[test]
fn test_generate_verification_token_is_64_chars_hex() {
    let token = generate_verification_token();
    assert_eq!(token.len(), 64); // 32 bytes = 64 hex chars
    assert!(token.chars().all(|c| c.is_ascii_hexdigit()));
}

#[test]
fn test_generate_verification_token_is_random() {
    let token1 = generate_verification_token();
    let token2 = generate_verification_token();
    assert_ne!(token1, token2);
}

#[test]
fn test_hash_verification_token_is_deterministic() {
    let token = "test_token_123";
    let hash1 = hash_verification_token(token);
    let hash2 = hash_verification_token(token);
    assert_eq!(hash1, hash2);
    assert_eq!(hash1.len(), 64); // SHA-256 = 64 hex chars
}

#[test]
fn test_hash_verification_token_different_inputs() {
    let hash1 = hash_verification_token("token1");
    let hash2 = hash_verification_token("token2");
    assert_ne!(hash1, hash2);
}

#[test]
fn test_generate_password_reset_token_is_64_chars_hex() {
    let token = generate_password_reset_token();
    assert_eq!(token.len(), 64); // 32 bytes = 64 hex chars
    assert!(token.chars().all(|c| c.is_ascii_hexdigit()));
}

#[test]
fn test_generate_password_reset_token_is_random() {
    let token1 = generate_password_reset_token();
    let token2 = generate_password_reset_token();
    assert_ne!(token1, token2);
}

#[test]
fn test_hash_password_reset_token_is_deterministic() {
    let token = "test_token_123";
    let hash1 = hash_password_reset_token(token);
    let hash2 = hash_password_reset_token(token);
    assert_eq!(hash1, hash2);
    assert_eq!(hash1.len(), 64); // SHA-256 = 64 hex chars
}

#[test]
fn test_hash_password_reset_token_different_inputs() {
    let hash1 = hash_password_reset_token("token1");
    let hash2 = hash_password_reset_token("token2");
    assert_ne!(hash1, hash2);
}

#[test]
fn hash_token_is_sha256_hex() {
    // SHA-256 of the empty string and of "abc".
    assert_eq!(
        hash_token(""),
        "e3b0c44298fc1c149afbf4c8996fb92427ae41e4649b934ca495991b7852b855"
    );
    assert_eq!(
        hash_token("abc"),
        "ba7816bf8f01cfea414140de5dae2223b00361a396177a9cb410ff61f20015ad"
    );
}

#[test]
fn refresh_tokens_are_lowercase_hex() {
    let t = generate_refresh_token_string();
    assert_eq!(t.len(), 64);
    assert!(t.chars().all(|c| c.is_ascii_digit() || ('a'..='f').contains(&c)));
}

#[test]
fn unsubscribe_token_format() {
    let good = "a".repeat(64);
    assert!(is_valid_unsubscribe_token_format(&good));
    assert!(is_valid_unsubscribe_token_format(&"ABCDEF0123456789".repeat(4)));
    assert!(!is_valid_unsubscribe_token_format("abc123"));
    assert!(!is_valid_unsubscribe_token_format(&"g".repeat(64)));
    assert!(!is_valid_unsubscribe_token_format(&"a".repeat(65)));
    assert!(!is_valid_unsubscribe_token_format(""));
}

#[test]
fn random_password_is_twelve_alphanumerics() {
    let p = generate_random_password();
    assert_eq!(p.chars().count(), 12);
    assert!(p.chars().all(|c| c.is_ascii_alphanumeric()));
}

#[test]
fn password_hash_verifies() {
    let h = hash_password("s3cret!").unwrap();
    assert_eq!(verify_password("s3cret!", &h), Ok(true));
    assert_eq!(verify_password("wrong", &h), Ok(false));
    assert!(matches!(verify_password("x", "not-a-hash"), Err(PasswordError::MalformedHash(_))));
}

#[test]
fn tokens_are_the_hex_of_their_bytes() {
    assert_eq!(token_from_bytes(&[0x00, 0x0f, 0xa5, 0xff]), "000fa5ff");
    assert_eq!(token_from_bytes(&[]), "");
    assert_eq!(token_from_bytes(&[7u8; 32]).len(), 64);
}
