use backend::oauth_state::{
    build_state_parameter, parse_state_parameter, pkce_storage_key, validate_redirect_url,
};
use base64::Engine;

#[test]
fn test_validate_redirect_url_valid() {
    assert!(validate_redirect_url("/profile"));
    assert!(validate_redirect_url("/"));
    assert!(validate_redirect_url("/profile/edit"));
    assert!(validate_redirect_url("/profile?tab=security"));
}

#[test]
fn test_validate_redirect_url_invalid() {
    // Protocol-relative URLs (open redirect attack)
    assert!(!validate_redirect_url("//evil.com"));
    assert!(!validate_redirect_url("//evil.com/phishing"));

    // Absolute URLs
    assert!(!validate_redirect_url("http://evil.com"));
    assert!(!validate_redirect_url("https://evil.com"));

    // Other protocols
    assert!(!validate_redirect_url("javascript:alert(1)"));
    assert!(!validate_redirect_url("data:text/html,<script>alert(1)</script>"));

    // Empty string
    assert!(!validate_redirect_url(""));
}

#[test]
fn test_parse_state_parameter_with_redirect() {
    let redirect_url = "/profile";
    let encoded_redirect = base64::engine::general_purpose::STANDARD.encode(redirect_url.as_bytes());
    let state = format!("csrf-token-123|{}", encoded_redirect);

    let (csrf, redirect) = parse_state_parameter(&state);

    assert_eq!(csrf, "csrf-token-123");
    assert_eq!(redirect, Some("/profile".to_string()));
}

#[test]
fn test_parse_state_parameter_without_redirect() {
    let state = "csrf-token-only";

    let (csrf, redirect) = parse_state_parameter(state);

    assert_eq!(csrf, "csrf-token-only");
    assert_eq!(redirect, None);
}

#[test]
fn test_parse_state_parameter_with_special_characters() {
    let redirect_url = "/profile?tab=security&foo=bar";
    let encoded_redirect = base64::engine::general_purpose::STANDARD.encode(redirect_url.as_bytes());
    let state = format!("csrf-123|{}", encoded_redirect);

    let (csrf, redirect) = parse_state_parameter(&state);

    assert_eq!(csrf, "csrf-123");
    assert_eq!(redirect, Some("/profile?tab=security&foo=bar".to_string()));
}

#[test]
fn test_parse_state_parameter_with_invalid_base64() {
    // Invalid base64 should not crash, just return None for redirect
    let state = "csrf-token|invalid-base64!!!";

    let (csrf, redirect) = parse_state_parameter(state);

    assert_eq!(csrf, "csrf-token");
    // Invalid base64 should result in None
    assert_eq!(redirect, None);
}

#[test]
fn parse_state_rejects_external_redirects() {
    let encoded = base64::engine::general_purpose::STANDARD.encode("//evil.com".as_bytes());
    let (csrf, redirect) = parse_state_parameter(&format!("t|{}", encoded));
    assert_eq!(csrf, "t");
    assert_eq!(redirect, None);
}

#[test]
fn built_state_round_trips() {
    let state = build_state_parameter("csrf-1", Some("/blog/post?x=1".to_string())).unwrap();
    assert_eq!(state, format!("csrf-1|{}", base64::engine::general_purpose::STANDARD.encode("/blog/post?x=1")));
    let (csrf, redirect) = parse_state_parameter(&state);
    assert_eq!(csrf, "csrf-1");
    assert_eq!(redirect, Some("/blog/post?x=1".to_string()));
    assert_eq!(build_state_parameter("csrf-1", Some("https://evil.com".to_string())), None);
    assert_eq!(build_state_parameter("csrf-1", None), None);
}

#[test]
fn pkce_key_prefers_custom_state() {
    assert_eq!(pkce_storage_key(Some("a|b".to_string()), "tok"), "a|b");
    assert_eq!(pkce_storage_key(None, "tok"), "tok");
}

#[test]
fn only_canonical_redirects_parse() {
    // Without its padding the same redirect does not decode.
    assert_eq!(parse_state_parameter("c|L3Byb2ZpbGU").1, None);
    assert_eq!(parse_state_parameter("c|L3Byb2ZpbGU=").1.as_deref(), Some("/profile"));
}
