use backend::mock_oauth::GoogleUserInfo;
use backend::oauth_flow::{
    oauth_slug_after_step, OAuthSlugStep,
    auth_response, callback_after_login_user, callback_after_verifier, callback_response,
    new_oauth_user, oauth_profile_update, CallbackError, CallbackStep,
};

fn info(name: Option<&str>) -> GoogleUserInfo {
    GoogleUserInfo {
        sub: "g-123".to_string(),
        email: "jane@example.com".to_string(),
        name: name.map(|s| s.to_string()),
        email_verified: Some(true),
        picture: Some("https://example.com/p.jpg".to_string()),
        given_name: None,
        family_name: None,
        locale: None,
    }
}

#[test]
fn a_missing_verifier_means_an_invalid_state() {
    assert_eq!(callback_after_verifier(None), CallbackStep::Fail(CallbackError::InvalidState));
    assert_eq!(
        callback_after_verifier(Some("v".to_string())),
        CallbackStep::Exchange("v".to_string())
    );
    assert_eq!(CallbackError::InvalidState.message(), "Invalid or expired OAuth state");
}

#[test]
fn a_known_login_needs_its_user() {
    assert_eq!(callback_after_login_user(true), Ok(()));
    assert_eq!(callback_after_login_user(false), Err(CallbackError::UserNotFoundForLogin));
    assert_eq!(
        CallbackError::UserNotFoundForLogin.message(),
        "User not found for external login"
    );
}

#[test]
fn profile_and_new_user_from_the_provider() {
    let p = oauth_profile_update(&info(Some("Jane Doe")));
    assert_eq!(p.real_name.as_deref(), Some("Jane Doe"));
    assert_eq!(p.avatar_url.as_deref(), Some("https://example.com/p.jpg"));
    assert!(p.bio.is_none() && p.location.is_none() && p.website.is_none());

    let u = new_oauth_user(&info(Some("Jane Doe")), "jane-doe".to_string());
    assert_eq!(u.email, "jane@example.com");
    assert_eq!(u.display_name, "Jane Doe");
    assert_eq!(u.slug, "jane-doe");
    assert_eq!(u.provider, "google");
    assert_eq!(u.provider_user_id, "g-123");
    assert_eq!(u.roles_to_add, vec!["email-verified".to_string()]);
    assert_eq!(new_oauth_user(&info(None), "jane".to_string()).display_name, "User");
}

#[test]
fn the_response_carries_the_states_redirect() {
    // "L3Byb2ZpbGU=" is base64 for "/profile".
    let r = callback_response("csrf|L3Byb2ZpbGU=", "t".to_string(), "rt".to_string(), 7u8);
    assert_eq!(r.redirect_url.as_deref(), Some("/profile"));
    assert_eq!((r.token.as_str(), r.refresh_token.as_str(), r.user), ("t", "rt", 7));
    let r = callback_response("csrf-only", "t".to_string(), "rt".to_string(), 7u8);
    assert!(r.redirect_url.is_none());
    // "Ly9ldmlsLmNvbQ==" is base64 for "//evil.com".
    let r = callback_response("c|Ly9ldmlsLmNvbQ==", "t".to_string(), "rt".to_string(), 7u8);
    assert!(r.redirect_url.is_none());
    assert!(auth_response("t".to_string(), "rt".to_string(), 1u8).redirect_url.is_none());
}

#[test]
fn new_user_slug_steps() {
    use_step_helpers();
}

fn use_step_helpers() {
    let search = backend::user_slug::ensure_unique_slug("jane");
    match oauth_slug_after_step(search.step(false)) {
        OAuthSlugStep::Use(s) => assert_eq!(s, "jane"),
        _ => panic!("expected a free slug"),
    }
    let mut search = backend::user_slug::ensure_unique_slug("x");
    let mut steps = 0;
    loop {
        match oauth_slug_after_step(search.step(true)) {
            OAuthSlugStep::Continue(next) => {
                search = next;
                steps += 1;
            }
            OAuthSlugStep::Fail(e) => {
                assert_eq!(e, CallbackError::SlugExhausted);
                assert_eq!(e.message(), "Could not generate unique slug");
                break;
            }
            OAuthSlugStep::Use(_) => panic!("every slug is taken"),
        }
    }
    // The base and base-1 to base-999 were tried.
    assert_eq!(steps, 999);
}
