//! Request parameters of the HTTP endpoints, with the defaults the endpoints
//! apply, and the unsubscribe endpoint's responses.

use vstd::prelude::*;

use crate::text::str_eq;
use crate::tokens::{hash_token, is_valid_unsubscribe_token_format, token_hash, valid_unsubscribe_token};

verus! {

/// Query parameters of the admin phrase list.
pub struct AdminPhraseQuery {
    pub include_inactive: Option<bool>,
    pub limit: Option<i64>,
    pub offset: Option<i64>,
    pub search: Option<String>,
}

impl AdminPhraseQuery {
    /// Inactive phrases are excluded unless asked for.
    pub fn include_inactive_or_default(&self) -> (r: bool)
        ensures
            r == match self.include_inactive {
                Some(b) => b,
                None => false,
            },
    {
        match self.include_inactive {
            Some(b) => b,
            None => false,
        }
    }
}

/// Query parameters of the user phrase lists.
pub struct PhraseListQuery {
    pub limit: Option<i64>,
    pub offset: Option<i64>,
    pub search: Option<String>,
}

/// Path of a blog post addressed by slug.
pub struct PostSlugPath {
    pub slug: String,
}

/// Path of the public timer of a user.
pub struct UserSlugPath {
    pub user_slug: String,
}

/// Path of a song addressed by slug.
pub struct SongSlugPath {
    pub slug: String,
}

/// Query parameters of the blog post list.
pub struct ListPostsQuery {
    pub page: Option<i32>,
    pub limit: Option<i32>,
    pub status: Option<String>,
    pub tag: Option<String>,
}

/// Query parameters of the blog search.
pub struct SearchQuery {
    pub q: String,
    pub page: Option<i32>,
    pub limit: Option<i32>,
}

/// Query parameters of the tag list.
pub struct TagsQuery {
    pub status: Option<String>,
}

/// Query parameters of the song lists.
pub struct ListSongsQuery {
    pub page: Option<i32>,
    pub limit: Option<i32>,
    pub status: Option<String>,
}

/// The given value, or the default.
pub open spec fn or_default(v: Option<i32>, d: i32) -> i32 {
    match v {
        Some(x) => x,
        None => d,
    }
}

fn value_or(v: Option<i32>, d: i32) -> (r: i32)
    ensures
        r == or_default(v, d),
{
    match v {
        Some(x) => x,
        None => d,
    }
}

impl ListPostsQuery {
    /// The page, 1 by default.
    pub fn page_or_default(&self) -> (r: i32)
        ensures
            r == or_default(self.page, 1),
    {
        value_or(self.page, 1)
    }

    /// The page size, 10 by default.
    pub fn limit_or_default(&self) -> (r: i32)
        ensures
            r == or_default(self.limit, 10),
    {
        value_or(self.limit, 10)
    }
}

impl SearchQuery {
    /// The page, 1 by default.
    pub fn page_or_default(&self) -> (r: i32)
        ensures
            r == or_default(self.page, 1),
    {
        value_or(self.page, 1)
    }

    /// The page size, 10 by default.
    pub fn limit_or_default(&self) -> (r: i32)
        ensures
            r == or_default(self.limit, 10),
    {
        value_or(self.limit, 10)
    }
}

impl ListSongsQuery {
    /// The page, 1 by default.
    pub fn page_or_default(&self) -> (r: i32)
        ensures
            r == or_default(self.page, 1),
    {
        value_or(self.page, 1)
    }

    /// The page size of the public list, 50 by default.
    pub fn public_limit_or_default(&self) -> (r: i32)
        ensures
            r == or_default(self.limit, 50),
    {
        value_or(self.limit, 50)
    }

    /// The page size of the admin list, 100 by default.
    pub fn admin_limit_or_default(&self) -> (r: i32)
        ensures
            r == or_default(self.limit, 100),
    {
        value_or(self.limit, 100)
    }
}

/// Request body for unsubscribing.
pub struct UnsubscribeRequest {
    pub token: String,
}

/// Response of the unsubscribe endpoint.
pub struct UnsubscribeResponse {
    pub success: bool,
    pub message: String,
    pub email_type: Option<String>,
}

/// Result of an unsubscribe operation.
pub struct UnsubscribeResult {
    pub email_type: String,
}

impl UnsubscribeResponse {
    /// The response for a successful unsubscribe.
    pub fn unsubscribed(result: UnsubscribeResult) -> (r: UnsubscribeResponse)
        ensures
            r.success,
            r.message@ == "Successfully unsubscribed"@,
            r.email_type matches Some(t) && t@ == result.email_type@,
    {
        UnsubscribeResponse {
            success: true,
            message: "Successfully unsubscribed".to_owned(),
            email_type: Some(result.email_type),
        }
    }

    /// The response for a refused unsubscribe, carrying the error message.
    pub fn refused(message: String) -> (r: UnsubscribeResponse)
        ensures
            !r.success,
            r.message@ == message@,
            r.email_type is None,
    {
        UnsubscribeResponse { success: false, message, email_type: None }
    }
}

/// Why an unsubscribe token is refused.
#[derive(Clone, Copy, PartialEq, Eq, Debug)]
pub enum UnsubscribeError {
    /// The token is not 64 hex digits.
    InvalidFormat,
    /// No stored token has this hash (or it expired).
    NotFound,
    /// The token's email type is not one the service knows.
    UnknownEmailType,
}

impl UnsubscribeError {
    /// The text of the message for this error.
    pub open spec fn text(self) -> Seq<char> {
        match self {
            UnsubscribeError::InvalidFormat => "Invalid unsubscribe token format"@,
            UnsubscribeError::NotFound => "Unsubscribe token not found or expired"@,
            UnsubscribeError::UnknownEmailType => "Unknown email type"@,
        }
    }

    /// The message shown for this error.
    pub fn message(&self) -> (r: String)
        ensures
            r@ == self.text(),
    {
        match self {
            UnsubscribeError::InvalidFormat => "Invalid unsubscribe token format".to_owned(),
            UnsubscribeError::NotFound => "Unsubscribe token not found or expired".to_owned(),
            UnsubscribeError::UnknownEmailType => "Unknown email type".to_owned(),
        }
    }
}

/// The email type of blog notification emails.
pub open spec fn blog_notifications_type() -> Seq<char> {
    "blog_notifications"@
}

/// Check the format of an unsubscribe token and give the hash it is stored
/// under.
pub fn unsubscribe_token_hash(raw_token: &str) -> (r: Result<String, UnsubscribeError>)
    ensures
        r is Ok <==> valid_unsubscribe_token(raw_token@),
        r matches Ok(h) ==> h@ == token_hash(raw_token@),
        r is Err ==> r == Err::<String, UnsubscribeError>(UnsubscribeError::InvalidFormat),
{
    if !is_valid_unsubscribe_token_format(raw_token) {
        return Err(UnsubscribeError::InvalidFormat);
    }
    Ok(hash_token(raw_token))
}

/// The email preference an unsubscribe turns off.
#[derive(Clone, Copy, PartialEq, Eq, Debug)]
pub enum EmailPreference {
    BlogNotifications,
}

/// What an unsubscribe does with the email type stored for its token (none
/// when no token has the hash): turn off the matching preference, or refuse.
pub fn unsubscribe_target(email_type: Option<&str>) -> (r: Result<EmailPreference, UnsubscribeError>)
    ensures
        email_type is None ==> r == Err::<EmailPreference, UnsubscribeError>(
            UnsubscribeError::NotFound,
        ),
        email_type matches Some(t) ==> (if t@ == blog_notifications_type() {
            r == Ok::<EmailPreference, UnsubscribeError>(EmailPreference::BlogNotifications)
        } else {
            r == Err::<EmailPreference, UnsubscribeError>(UnsubscribeError::UnknownEmailType)
        }),
{
    match email_type {
        None => Err(UnsubscribeError::NotFound),
        Some(t) => if str_eq(t, "blog_notifications") {
            Ok(EmailPreference::BlogNotifications)
        } else {
            Err(UnsubscribeError::UnknownEmailType)
        },
    }
}

/// HTTP status of an unsubscribe refusal: bad request for a malformed token,
/// not found for an unknown one, server error otherwise.
pub fn unsubscribe_status(e: UnsubscribeError) -> (r: u16)
    ensures
        e == UnsubscribeError::InvalidFormat ==> r == 400,
        e == UnsubscribeError::NotFound ==> r == 404,
        e == UnsubscribeError::UnknownEmailType ==> r == 500,
{
    match e {
        UnsubscribeError::InvalidFormat => 400,
        UnsubscribeError::NotFound => 404,
        UnsubscribeError::UnknownEmailType => 500,
    }
}

} // verus!
