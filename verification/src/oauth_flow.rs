//! The Google sign-in callback as a sequence of steps: the stored PKCE
//! verifier, the account the provider's user resolves to, the profile data
//! taken from the provider, and the response with the redirect carried by
//! the state.

use vstd::prelude::*;

use crate::mock_oauth::GoogleUserInfo;
use crate::oauth_state::{parse_state_parameter, parsed_state};
use crate::user_slug::{SlugSearch, SlugStep};

verus! {

/// Why a sign-in callback fails in the service itself.
#[derive(Clone, Copy, PartialEq, Eq, Debug)]
pub enum CallbackError {
    /// No PKCE verifier is stored for the state: it is unknown or expired.
    InvalidState,
    /// The provider login is known but its user no longer exists.
    UserNotFoundForLogin,
    /// Every slug variant for a new user is taken.
    SlugExhausted,
}

impl CallbackError {
    /// The text of the message for this error.
    pub open spec fn text(self) -> Seq<char> {
        match self {
            CallbackError::InvalidState => "Invalid or expired OAuth state"@,
            CallbackError::UserNotFoundForLogin => "User not found for external login"@,
            CallbackError::SlugExhausted => "Could not generate unique slug"@,
        }
    }

    /// The message shown for this error.
    pub fn message(&self) -> (r: String)
        ensures
            r@ == self.text(),
    {
        match self {
            CallbackError::InvalidState => "Invalid or expired OAuth state".to_owned(),
            CallbackError::UserNotFoundForLogin => "User not found for external login".to_owned(),
            CallbackError::SlugExhausted => "Could not generate unique slug".to_owned(),
        }
    }
}

/// What a callback does next.
#[derive(Clone, PartialEq, Eq, Debug)]
pub enum CallbackStep {
    /// Stop with this error.
    Fail(CallbackError),
    /// Exchange the authorization code for an access token with this PKCE
    /// verifier, then fetch the provider's user information.
    Exchange(String),
}

/// First step of a callback, with the PKCE verifier taken (and deleted) from
/// storage under the full state: without one the state is invalid or expired.
pub fn callback_after_verifier(verifier: Option<String>) -> (r: CallbackStep)
    ensures
        verifier is None ==> r == CallbackStep::Fail(CallbackError::InvalidState),
        verifier matches Some(v) ==> (r matches CallbackStep::Exchange(w) && w@ == v@),
{
    match verifier {
        None => CallbackStep::Fail(CallbackError::InvalidState),
        Some(v) => CallbackStep::Exchange(v),
    }
}

/// With a known provider login, whether its user was found.
pub fn callback_after_login_user(user_found: bool) -> (r: Result<(), CallbackError>)
    ensures
        user_found ==> r is Ok,
        !user_found ==> r == Err::<(), CallbackError>(CallbackError::UserNotFoundForLogin),
{
    if user_found {
        Ok(())
    } else {
        Err(CallbackError::UserNotFoundForLogin)
    }
}

/// The profile fields a sign-in writes: the provider's name as the real name
/// and its picture as the avatar; the rest stays empty.
pub struct OAuthProfileUpdate {
    pub real_name: Option<String>,
    pub avatar_url: Option<String>,
    pub bio: Option<String>,
    pub location: Option<String>,
    pub website: Option<String>,
}

/// Two optional strings hold the same text.
pub open spec fn same_opt(a: Option<String>, b: Option<String>) -> bool {
    match (a, b) {
        (Some(x), Some(y)) => x@ == y@,
        (None, None) => true,
        _ => false,
    }
}

fn copy_opt(a: &Option<String>) -> (r: Option<String>)
    ensures
        same_opt(*a, r),
{
    match a {
        Some(s) => Some(s.clone()),
        None => None,
    }
}

/// The profile update for a user signing in with Google.
pub fn oauth_profile_update(info: &GoogleUserInfo) -> (r: OAuthProfileUpdate)
    ensures
        same_opt(r.real_name, info.name),
        same_opt(r.avatar_url, info.picture),
        r.bio is None,
        r.location is None,
        r.website is None,
{
    OAuthProfileUpdate {
        real_name: copy_opt(&info.name),
        avatar_url: copy_opt(&info.picture),
        bio: None,
        location: None,
        website: None,
    }
}

/// The provider of Google sign-ins, as stored with the external login.
pub open spec fn google_provider() -> Seq<char> {
    "google"@
}

/// What the search for a new Google user's slug does after a step.
pub enum OAuthSlugStep {
    /// The slug is free: use it.
    Use(String),
    /// Check the next candidate.
    Continue(SlugSearch),
    /// Stop with this error.
    Fail(CallbackError),
}

/// Read a step of the search for a new Google user's slug: exhaustion
/// fails with "Could not generate unique slug".
pub fn oauth_slug_after_step(step: SlugStep) -> (r: OAuthSlugStep)
    ensures
        step matches SlugStep::Found(s) ==> (r matches OAuthSlugStep::Use(t) && t@ == s@),
        step matches SlugStep::Next(n) ==> (r matches OAuthSlugStep::Continue(m) && m == n),
        step is Exhausted ==> (r matches OAuthSlugStep::Fail(e) && e == CallbackError::SlugExhausted),
{
    match step {
        SlugStep::Found(s) => OAuthSlugStep::Use(s),
        SlugStep::Next(n) => OAuthSlugStep::Continue(n),
        SlugStep::Exhausted => OAuthSlugStep::Fail(CallbackError::SlugExhausted),
    }
}

/// The role a new Google user receives: the provider has verified the
/// address.
pub open spec fn oauth_user_roles() -> Seq<Seq<char>> {
    seq!["email-verified"@]
}

/// The records a new Google user starts with, and the roles it is given
/// beyond the base role.
pub struct NewOAuthUser {
    pub email: String,
    pub display_name: String,
    pub slug: String,
    pub provider: String,
    pub provider_user_id: String,
    pub roles_to_add: Vec<String>,
}

/// The new user for a Google sign-in that matched no account: the
/// provider's email, its name (or `User`), the free slug found for it, and
/// the external login `google` with the provider's user id; it is given the
/// `email-verified` role.
pub fn new_oauth_user(info: &GoogleUserInfo, slug: String) -> (r: NewOAuthUser)
    ensures
        r.email@ == info.email@,
        r.display_name@ == (match info.name {
            Some(n) => n@,
            None => "User"@,
        }),
        r.slug@ == slug@,
        r.provider@ == google_provider(),
        r.provider_user_id@ == info.sub@,
        r.roles_to_add@.len() == 1,
        r.roles_to_add@[0]@ == oauth_user_roles()[0],
{
    let mut roles_to_add: Vec<String> = Vec::new();
    roles_to_add.push("email-verified".to_owned());
    NewOAuthUser {
        email: info.email.clone(),
        display_name: crate::auth_rules::oauth_display_name(copy_opt(&info.name)),
        slug,
        provider: "google".to_owned(),
        provider_user_id: info.sub.clone(),
        roles_to_add,
    }
}

/// The answer to a successful sign-in.
pub struct AuthResponse<U> {
    pub token: String,
    pub refresh_token: String,
    pub user: U,
    pub redirect_url: Option<String>,
}

/// The answer to a callback: the tokens, the user, and the redirect the
/// state carries (only an internal one).
pub fn callback_response<U>(state: &str, token: String, refresh_token: String, user: U) -> (r:
    AuthResponse<U>)
    ensures
        r.token@ == token@,
        r.refresh_token@ == refresh_token@,
        r.user == user,
        r.redirect_url matches Some(u) ==> parsed_state(state@).1 == Some(u@),
        r.redirect_url is None ==> parsed_state(state@).1 is None,
{
    let (_csrf, redirect_url) = parse_state_parameter(state);
    AuthResponse { token, refresh_token, user, redirect_url }
}

/// The answer to a sign-in that carries no redirect (registration, login).
pub fn auth_response<U>(token: String, refresh_token: String, user: U) -> (r: AuthResponse<U>)
    ensures
        r.token@ == token@,
        r.refresh_token@ == refresh_token@,
        r.user == user,
        r.redirect_url is None,
{
    AuthResponse { token, refresh_token, user, redirect_url: None }
}

} // verus!
