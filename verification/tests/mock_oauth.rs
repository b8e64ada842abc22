use backend::mock_oauth::{GoogleOAuthConfig, GoogleUserInfo, MockGoogleOAuthService, OAuthError};

fn info(sub: &str, email: &str) -> GoogleUserInfo {
    GoogleUserInfo {
        sub: sub.to_string(),
        email: email.to_string(),
        name: Some("Jane".to_string()),
        email_verified: Some(false),
        picture: None,
        given_name: None,
        family_name: None,
        locale: Some("fr".to_string()),
    }
}

#[test]
fn default_authorization_url() {
    let (url, csrf, verifier) = MockGoogleOAuthService::new().get_authorization_url(None).ok().unwrap();
    assert_eq!(csrf, "mock_csrf_token");
    assert_eq!(verifier, "mock_pkce_verifier");
    assert_eq!(
        url,
        "https://accounts.google.com/o/oauth2/v2/auth?client_id=mock_client_id&redirect_uri=https%3A%2F%2Flocalhost%2Fcallback&response_type=code&scope=openid+email+profile&state=mock_csrf_token&code_challenge=mock_code_challenge&code_challenge_method=S256"
    );
}

#[test]
fn custom_state_is_used_in_the_url() {
    let (url, csrf, _) = MockGoogleOAuthService::default()
        .get_authorization_url(Some("abc|L3Byb2ZpbGU=".to_string()))
        .ok()
        .unwrap();
    assert_eq!(csrf, "abc|L3Byb2ZpbGU=");
    assert!(url.contains("&state=abc|L3Byb2ZpbGU=&code_challenge="));
}

#[test]
fn configured_failures() {
    let m = MockGoogleOAuthService::new().with_url_failure();
    assert_eq!(m.get_authorization_url(None).err(), Some(OAuthError::UrlGenerationFailed));
    let m = MockGoogleOAuthService::new().with_exchange_failure();
    assert_eq!(m.exchange_code_for_token("code", "v").err(), Some(OAuthError::TokenExchangeFailed));
    assert!(m.get_authorization_url(None).is_ok());
    let m = MockGoogleOAuthService::new().with_user_info_failure();
    assert!(matches!(m.get_user_info("t"), Err(OAuthError::UserInfoFailed)));
    assert_eq!(OAuthError::UrlGenerationFailed.message(), "Mock URL generation failure");
    assert_eq!(OAuthError::TokenExchangeFailed.message(), "Mock token exchange failure");
    assert_eq!(OAuthError::UserInfoFailed.message(), "Mock user info fetch failure");
}

#[test]
fn access_tokens() {
    assert_eq!(
        MockGoogleOAuthService::new().exchange_code_for_token("c", "v").ok(),
        Some("mock_access_token".to_string())
    );
    let m = MockGoogleOAuthService::new().with_access_token("tok-1".to_string());
    assert_eq!(m.exchange_code_for_token("c", "v").ok(), Some("tok-1".to_string()));
}

#[test]
fn user_info_default_and_configured() {
    let d = MockGoogleOAuthService::new().get_user_info("t").ok().unwrap();
    assert_eq!(d.sub, "mock_google_user_id");
    assert_eq!(d.email, "mock@example.com");
    assert_eq!(d.name.as_deref(), Some("Mock User"));
    assert_eq!(d.email_verified, Some(true));
    assert_eq!(d.picture.as_deref(), Some("https://example.com/mock_user.jpg"));
    assert_eq!(d.given_name.as_deref(), Some("Mock"));
    assert_eq!(d.family_name.as_deref(), Some("User"));
    assert_eq!(d.locale.as_deref(), Some("en"));

    let m = MockGoogleOAuthService::new().with_user_info(info("g-1", "jane@example.com"));
    let got = m.get_user_info("t").ok().unwrap();
    assert_eq!(got.sub, "g-1");
    assert_eq!(got.email, "jane@example.com");
    assert_eq!(got.name.as_deref(), Some("Jane"));
    assert_eq!(got.email_verified, Some(false));
    assert_eq!(got.locale.as_deref(), Some("fr"));
    assert!(got.picture.is_none());
    let copy = got.copy();
    assert_eq!(copy.sub, "g-1");
}

#[test]
fn oauth_config_holds_its_settings() {
    let c = GoogleOAuthConfig {
        client_id: "test_id".to_string(),
        client_secret: "test_secret".to_string(),
        redirect_uri: "https://localhost/callback".to_string(),
    };
    assert_eq!(c.client_id, "test_id");
    assert_eq!(c.redirect_uri, "https://localhost/callback");
}
