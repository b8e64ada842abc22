//! A scripted Google OAuth provider for tests, and the provider's data types.

use vstd::prelude::*;

verus! {

/// The user information Google returns.
pub struct GoogleUserInfo {
    pub sub: String,
    pub email: String,
    pub name: Option<String>,
    pub email_verified: Option<bool>,
    pub picture: Option<String>,
    pub given_name: Option<String>,
    pub family_name: Option<String>,
    pub locale: Option<String>,
}

/// Two optional strings hold the same text.
pub open spec fn same_text(a: Option<String>, b: Option<String>) -> bool {
    match (a, b) {
        (Some(x), Some(y)) => x@ == y@,
        (None, None) => true,
        _ => false,
    }
}

/// Two user informations hold the same data.
pub open spec fn same_info(a: GoogleUserInfo, b: GoogleUserInfo) -> bool {
    &&& a.sub@ == b.sub@
    &&& a.email@ == b.email@
    &&& same_text(a.name, b.name)
    &&& a.email_verified == b.email_verified
    &&& same_text(a.picture, b.picture)
    &&& same_text(a.given_name, b.given_name)
    &&& same_text(a.family_name, b.family_name)
    &&& same_text(a.locale, b.locale)
}

fn copy_text(a: &Option<String>) -> (r: Option<String>)
    ensures
        same_text(*a, r),
{
    match a {
        Some(s) => Some(s.clone()),
        None => None,
    }
}

impl GoogleUserInfo {
    /// A copy of this information.
    pub fn copy(&self) -> (r: GoogleUserInfo)
        ensures
            same_info(*self, r),
    {
        GoogleUserInfo {
            sub: self.sub.clone(),
            email: self.email.clone(),
            name: copy_text(&self.name),
            email_verified: self.email_verified,
            picture: copy_text(&self.picture),
            given_name: copy_text(&self.given_name),
            family_name: copy_text(&self.family_name),
            locale: copy_text(&self.locale),
        }
    }
}

/// The Google OAuth client settings.
pub struct GoogleOAuthConfig {
    pub client_id: String,
    pub client_secret: String,
    pub redirect_uri: String,
}

/// Why a call to the (scripted) provider fails.
#[derive(Clone, Copy, PartialEq, Eq, Debug)]
pub enum OAuthError {
    UrlGenerationFailed,
    TokenExchangeFailed,
    UserInfoFailed,
}

impl OAuthError {
    /// The text of the message for this error.
    pub open spec fn text(self) -> Seq<char> {
        match self {
            OAuthError::UrlGenerationFailed => "Mock URL generation failure"@,
            OAuthError::TokenExchangeFailed => "Mock token exchange failure"@,
            OAuthError::UserInfoFailed => "Mock user info fetch failure"@,
        }
    }

    /// The message shown for this error.
    pub fn message(&self) -> (r: String)
        ensures
            r@ == self.text(),
    {
        match self {
            OAuthError::UrlGenerationFailed => "Mock URL generation failure".to_owned(),
            OAuthError::TokenExchangeFailed => "Mock token exchange failure".to_owned(),
            OAuthError::UserInfoFailed => "Mock user info fetch failure".to_owned(),
        }
    }
}

/// A Google OAuth provider whose answers are configured in advance.
pub struct MockGoogleOAuthService {
    url_should_fail: bool,
    exchange_should_fail: bool,
    user_info_should_fail: bool,
    mock_user_info: Option<GoogleUserInfo>,
    mock_access_token: Option<String>,
}

/// The authorization URL the provider returns for a state.
pub open spec fn mock_auth_url(state: Seq<char>) -> Seq<char> {
    "https://accounts.google.com/o/oauth2/v2/auth?client_id=mock_client_id&redirect_uri=https%3A%2F%2Flocalhost%2Fcallback&response_type=code&scope=openid+email+profile&state="@
        + state + "&code_challenge=mock_code_challenge&code_challenge_method=S256"@
}

/// The information returned when none was configured.
pub open spec fn default_user_info(i: GoogleUserInfo) -> bool {
    &&& i.sub@ == "mock_google_user_id"@
    &&& i.email@ == "mock@example.com"@
    &&& i.name matches Some(n) && n@ == "Mock User"@
    &&& i.email_verified == Some(true)
    &&& i.picture matches Some(p) && p@ == "https://example.com/mock_user.jpg"@
    &&& i.given_name matches Some(g) && g@ == "Mock"@
    &&& i.family_name matches Some(f) && f@ == "User"@
    &&& i.locale matches Some(l) && l@ == "en"@
}

impl Default for MockGoogleOAuthService {
    /// A provider that succeeds with its default answers.
    fn default() -> (r: Self)
        ensures
            !r.fails_url(),
            !r.fails_exchange(),
            !r.fails_user_info(),
            r.user_info_view() is None,
            r.access_token_view() is None,
    {
        Self::new()
    }
}

impl MockGoogleOAuthService {
    pub closed spec fn fails_url(&self) -> bool {
        self.url_should_fail
    }

    pub closed spec fn fails_exchange(&self) -> bool {
        self.exchange_should_fail
    }

    pub closed spec fn fails_user_info(&self) -> bool {
        self.user_info_should_fail
    }

    pub closed spec fn user_info_view(&self) -> Option<GoogleUserInfo> {
        self.mock_user_info
    }

    pub closed spec fn access_token_view(&self) -> Option<Seq<char>> {
        match self.mock_access_token {
            Some(t) => Some(t@),
            None => None,
        }
    }

    /// A provider that succeeds with default answers.
    pub fn new() -> (r: Self)
        ensures
            !r.fails_url(),
            !r.fails_exchange(),
            !r.fails_user_info(),
            r.user_info_view() is None,
            r.access_token_view() is None,
    {
        MockGoogleOAuthService {
            url_should_fail: false,
            exchange_should_fail: false,
            user_info_should_fail: false,
            mock_user_info: None,
            mock_access_token: None,
        }
    }

    /// Make `get_authorization_url` fail.
    pub fn with_url_failure(self) -> (r: Self)
        ensures
            r.fails_url(),
            r.fails_exchange() == self.fails_exchange(),
            r.fails_user_info() == self.fails_user_info(),
            r.user_info_view() == self.user_info_view(),
            r.access_token_view() == self.access_token_view(),
    {
        MockGoogleOAuthService { url_should_fail: true, ..self }
    }

    /// Make `exchange_code_for_token` fail.
    pub fn with_exchange_failure(self) -> (r: Self)
        ensures
            r.fails_url() == self.fails_url(),
            r.fails_exchange(),
            r.fails_user_info() == self.fails_user_info(),
            r.user_info_view() == self.user_info_view(),
            r.access_token_view() == self.access_token_view(),
    {
        MockGoogleOAuthService { exchange_should_fail: true, ..self }
    }

    /// Make `get_user_info` fail.
    pub fn with_user_info_failure(self) -> (r: Self)
        ensures
            r.fails_url() == self.fails_url(),
            r.fails_exchange() == self.fails_exchange(),
            r.fails_user_info(),
            r.user_info_view() == self.user_info_view(),
            r.access_token_view() == self.access_token_view(),
    {
        MockGoogleOAuthService { user_info_should_fail: true, ..self }
    }

    /// Return this user information from `get_user_info`.
    pub fn with_user_info(self, user_info: GoogleUserInfo) -> (r: Self)
        ensures
            r.fails_url() == self.fails_url(),
            r.fails_exchange() == self.fails_exchange(),
            r.fails_user_info() == self.fails_user_info(),
            r.user_info_view() == Some(user_info),
            r.access_token_view() == self.access_token_view(),
    {
        MockGoogleOAuthService { mock_user_info: Some(user_info), ..self }
    }

    /// Return this access token from `exchange_code_for_token`.
    pub fn with_access_token(self, token: String) -> (r: Self)
        ensures
            r.fails_url() == self.fails_url(),
            r.fails_exchange() == self.fails_exchange(),
            r.fails_user_info() == self.fails_user_info(),
            r.user_info_view() == self.user_info_view(),
            r.access_token_view() == Some(token@),
    {
        MockGoogleOAuthService { mock_access_token: Some(token), ..self }
    }

    /// The authorization URL, the CSRF token and the PKCE verifier for a
    /// request; the state is the custom one or `mock_csrf_token`.
    pub fn get_authorization_url(&self, custom_state: Option<String>) -> (r: Result<
        (String, String, String),
        OAuthError,
    >)
        ensures
            self.fails_url() ==> r == Err::<(String, String, String), OAuthError>(
                OAuthError::UrlGenerationFailed,
            ),
            !self.fails_url() ==> (r matches Ok((url, csrf, verifier)) && csrf@ == (
            match custom_state {
                Some(s) => s@,
                None => "mock_csrf_token"@,
            }) && url@ == mock_auth_url(csrf@) && verifier@ == "mock_pkce_verifier"@),
    {
        if self.url_should_fail {
            return Err(OAuthError::UrlGenerationFailed);
        }
        let state = match custom_state {
            Some(s) => s,
            None => "mock_csrf_token".to_owned(),
        };
        let prefix = "https://accounts.google.com/o/oauth2/v2/auth?client_id=mock_client_id&redirect_uri=https%3A%2F%2Flocalhost%2Fcallback&response_type=code&scope=openid+email+profile&state=";
        let suffix = "&code_challenge=mock_code_challenge&code_challenge_method=S256";
        let mut url = crate::text::chars_of(prefix);
        let sv = crate::text::chars_of(state.as_str());
        let xv = crate::text::chars_of(suffix);
        crate::text::append_all(&mut url, &sv);
        crate::text::append_all(&mut url, &xv);
        let url = crate::text::string_of(&url);
        Ok((url, state, "mock_pkce_verifier".to_owned()))
    }

    /// The access token for an authorization code: the configured one or
    /// `mock_access_token`.
    pub fn exchange_code_for_token(&self, code: &str, verifier: &str) -> (r: Result<
        String,
        OAuthError,
    >)
        ensures
            self.fails_exchange() ==> r == Err::<String, OAuthError>(
                OAuthError::TokenExchangeFailed,
            ),
            !self.fails_exchange() ==> (r matches Ok(t) && t@ == match self.access_token_view() {
                Some(c) => c,
                None => "mock_access_token"@,
            }),
    {
        if self.exchange_should_fail {
            return Err(OAuthError::TokenExchangeFailed);
        }
        match &self.mock_access_token {
            Some(t) => Ok(t.clone()),
            None => Ok("mock_access_token".to_owned()),
        }
    }

    /// The user information: the configured one or the default mock user.
    pub fn get_user_info(&self, access_token: &str) -> (r: Result<GoogleUserInfo, OAuthError>)
        ensures
            self.fails_user_info() ==> r is Err && r == Err::<GoogleUserInfo, OAuthError>(
                OAuthError::UserInfoFailed,
            ),
            !self.fails_user_info() ==> (r matches Ok(i) && match self.user_info_view() {
                Some(c) => same_info(c, i),
                None => default_user_info(i),
            }),
    {
        if self.user_info_should_fail {
            return Err(OAuthError::UserInfoFailed);
        }
        match &self.mock_user_info {
            Some(info) => Ok(info.copy()),
            None => Ok(
                GoogleUserInfo {
                    sub: "mock_google_user_id".to_owned(),
                    email: "mock@example.com".to_owned(),
                    name: Some("Mock User".to_owned()),
                    email_verified: Some(true),
                    picture: Some("https://example.com/mock_user.jpg".to_owned()),
                    given_name: Some("Mock".to_owned()),
                    family_name: Some("User".to_owned()),
                    locale: Some("en".to_owned()),
                },
            ),
        }
    }
}

} // verus!
