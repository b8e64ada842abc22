//! Account rules of the authentication service: passwords, refresh-token
//! lifetimes, account deletion, timer privacy, OAuth account linking and
//! slug previews.

use vstd::prelude::*;

use crate::roles::is_email_verified;
use crate::text::{
    chars_of, contains_text, decimal, find, find_at, lemma_find, push_decimal,
    slice_of, str_eq, string_of, trim, trim_delimiters, Delimiter,
};
use crate::tokens::{bcrypt_verdict, hash_password, verify_password, random_in_range, PasswordError};
use crate::user_slug::{display_name_slug, generate_slug_from_display_name};

verus! {

/// Why an account operation is refused.
#[derive(Clone, PartialEq, Eq, Debug)]
pub enum AuthError {
    UserNotFound,
    CannotDeleteSystemUser,
    OAuthOnlyAccount,
    CurrentPasswordIncorrect,
    AlreadyHasPassword,
    ShowInListRequiresPublic,
    InvalidSlugFormat,
    SlugTaken,
    Password(PasswordError),
}

impl AuthError {
    /// The text of the message for this error.
    pub open spec fn text(self) -> Seq<char> {
        match self {
            AuthError::UserNotFound => "User not found"@,
            AuthError::CannotDeleteSystemUser => "Cannot delete system user"@,
            AuthError::OAuthOnlyAccount => "Cannot change password for OAuth-only accounts"@,
            AuthError::CurrentPasswordIncorrect => "Current password is incorrect"@,
            AuthError::AlreadyHasPassword => "User already has password credentials. Use change-password endpoint instead."@,
            AuthError::ShowInListRequiresPublic => "Cannot enable 'Show in List' when timer is not public"@,
            AuthError::InvalidSlugFormat => "Invalid slug format"@,
            AuthError::SlugTaken => "Slug already taken"@,
            AuthError::Password(e) => e.text(),
        }
    }

    /// The message shown for this error.
    pub fn message(&self) -> (r: String)
        ensures
            r@ == self.text(),
    {
        match self {
            AuthError::UserNotFound => "User not found".to_owned(),
            AuthError::CannotDeleteSystemUser => "Cannot delete system user".to_owned(),
            AuthError::OAuthOnlyAccount => "Cannot change password for OAuth-only accounts".to_owned(),
            AuthError::CurrentPasswordIncorrect => "Current password is incorrect".to_owned(),
            AuthError::AlreadyHasPassword => "User already has password credentials. Use change-password endpoint instead.".to_owned(),
            AuthError::ShowInListRequiresPublic => "Cannot enable 'Show in List' when timer is not public".to_owned(),
            AuthError::InvalidSlugFormat => "Invalid slug format".to_owned(),
            AuthError::SlugTaken => "Slug already taken".to_owned(),
            AuthError::Password(e) => e.message(),
        }
    }
}

// ---------------------------------------------------------------------------
// Passwords
// ---------------------------------------------------------------------------

/// First step of a password change or a first password: the user must
/// exist before its credentials are looked at.
pub fn require_user(user_found: bool) -> (r: Result<(), AuthError>)
    ensures
        user_found ==> r is Ok,
        !user_found ==> r == Err::<(), AuthError>(AuthError::UserNotFound),
{
    if user_found {
        Ok(())
    } else {
        Err(AuthError::UserNotFound)
    }
}

/// Check a login password against the stored hash: an account without a
/// password (OAuth only) never matches.
pub fn check_login_password(stored_hash: Option<&str>, password: &str) -> (r: Result<
    bool,
    PasswordError,
>)
    ensures
        stored_hash is None ==> r == Ok::<bool, PasswordError>(false),
        stored_hash matches Some(h) ==> (match bcrypt_verdict(password@, h@) {
            Some(b) => r == Ok::<bool, PasswordError>(b),
            None => r matches Err(PasswordError::MalformedHash(_)),
        }),
{
    match stored_hash {
        None => Ok(false),
        Some(h) => verify_password(password, h),
    }
}

/// The new password hash for a password change: the account needs a password
/// and the current one must match.
pub fn change_password_hash(
    stored_hash: Option<&str>,
    current_password: &str,
    new_password: &str,
) -> (r: Result<String, AuthError>)
    ensures
        stored_hash is None ==> r == Err::<String, AuthError>(AuthError::OAuthOnlyAccount),
        stored_hash matches Some(h) && bcrypt_verdict(current_password@, h@) is None ==> r matches Err(
            AuthError::Password(PasswordError::MalformedHash(_)),
        ),
        stored_hash matches Some(h) && bcrypt_verdict(current_password@, h@) == Some(false) ==> r
            == Err::<String, AuthError>(AuthError::CurrentPasswordIncorrect),
        r matches Ok(n) ==> stored_hash matches Some(h) && bcrypt_verdict(current_password@, h@)
            == Some(true) && bcrypt_verdict(new_password@, n@) == Some(true),
        stored_hash matches Some(h) && bcrypt_verdict(current_password@, h@) == Some(true) ==> (
        r is Ok || r matches Err(AuthError::Password(PasswordError::HashingFailed(_)))),
{
    let h = match stored_hash {
        None => {
            return Err(AuthError::OAuthOnlyAccount);
        },
        Some(h) => h,
    };
    match verify_password(current_password, h) {
        Err(e) => Err(AuthError::Password(e)),
        Ok(false) => Err(AuthError::CurrentPasswordIncorrect),
        Ok(true) => match hash_password(new_password) {
            Ok(n) => Ok(n),
            Err(e) => Err(AuthError::Password(e)),
        },
    }
}

/// The password hash for a user who has none yet; a user with a password
/// must change it instead.
pub fn set_password_hash(has_credentials: bool, new_password: &str) -> (r: Result<String, AuthError>)
    ensures
        has_credentials ==> r == Err::<String, AuthError>(AuthError::AlreadyHasPassword),
        r matches Ok(n) ==> !has_credentials && bcrypt_verdict(new_password@, n@) == Some(true),
        !has_credentials ==> (r is Ok || r matches Err(
            AuthError::Password(PasswordError::HashingFailed(_)),
        )),
{
    if has_credentials {
        return Err(AuthError::AlreadyHasPassword);
    }
    match hash_password(new_password) {
        Ok(n) => Ok(n),
        Err(e) => Err(AuthError::Password(e)),
    }
}

/// The answer to a password-reset request. It is given whether or not an
/// account has the address, so that the answer reveals no accounts.
pub fn forgot_password_message() -> (r: String)
    ensures
        r@ == "If an account exists with that email, you will receive a password reset link."@,
{
    "If an account exists with that email, you will receive a password reset link.".to_owned()
}

/// The answer to a successful password reset.
pub fn reset_password_message() -> (r: String)
    ensures
        r@ == "Password reset successfully. You can now login with your new password."@,
{
    "Password reset successfully. You can now login with your new password.".to_owned()
}

// ---------------------------------------------------------------------------
// Token lifetimes
// ---------------------------------------------------------------------------

/// Seconds in a day.
pub const SECONDS_PER_DAY: i64 = 86400;

/// Refresh tokens live 7 days from issue.
pub const REFRESH_TOKEN_DAYS: i64 = 7;

/// No refresh token is honoured more than 180 days after it was created.
pub const REFRESH_HARD_LIMIT_DAYS: i64 = 180;

/// Access tokens live one hour.
pub const ACCESS_TOKEN_SECONDS: i64 = 3600;

/// Email verification tokens live 24 hours; password reset tokens one hour.
pub const VERIFICATION_TOKEN_SECONDS: i64 = 86400;
pub const PASSWORD_RESET_TOKEN_SECONDS: i64 = 3600;

/// A refresh token can still be used when it was created no more than 180
/// days before `now` (times in seconds).
pub open spec fn within_hard_limit(created_at: int, now: int) -> bool {
    created_at >= now - 180 * 86400
}

/// Whether a refresh token created at `created_at` is still within the
/// six-month hard limit at `now`.
pub fn refresh_token_within_hard_limit(created_at: i64, now: i64) -> (r: bool)
    ensures
        r == within_hard_limit(created_at as int, now as int),
{
    (created_at as i128) >= (now as i128) - (REFRESH_HARD_LIMIT_DAYS as i128) * (
    SECONDS_PER_DAY as i128)
}

/// What a refresh needs next.
#[derive(Clone, Copy, PartialEq, Eq, Debug)]
pub enum RefreshStep {
    /// Refuse the refresh.
    Reject,
    /// Delete the presented token, then refuse.
    DeleteAndReject,
    /// Load the token's user and its roles, then call `refresh_after_roles`.
    LoadRoles,
    /// Issue an access token, and replace the presented refresh token by a
    /// new one that expires at `expires_at`.
    Rotate { expires_at: i64 },
}

/// First step of a refresh, with the creation time of the stored unexpired
/// token that has the presented hash (none when there is none): an unknown
/// token is refused, one past the hard limit is deleted and refused.
pub fn refresh_after_lookup(created_at: Option<i64>, now: i64) -> (r: RefreshStep)
    ensures
        created_at is None ==> r == RefreshStep::Reject,
        created_at matches Some(c) && !within_hard_limit(c as int, now as int) ==> r
            == RefreshStep::DeleteAndReject,
        created_at matches Some(c) && within_hard_limit(c as int, now as int) ==> r
            == RefreshStep::LoadRoles,
{
    match created_at {
        None => RefreshStep::Reject,
        Some(c) => if refresh_token_within_hard_limit(c, now) {
            RefreshStep::LoadRoles
        } else {
            RefreshStep::DeleteAndReject
        },
    }
}

/// Second step of a refresh, with the roles of the token's user (none when
/// the user no longer exists): rotate the token, with a fresh seven-day
/// expiry.
pub fn refresh_after_roles(roles: Option<Vec<String>>, now: i64) -> (r: RefreshStep)
    requires
        roles is Some ==> now + 7 * 86400 <= i64::MAX,
    ensures
        roles is None ==> r == RefreshStep::Reject,
        roles is Some ==> r == (RefreshStep::Rotate { expires_at: (now + 7 * 86400) as i64 }),
{
    match roles {
        None => RefreshStep::Reject,
        Some(_) => RefreshStep::Rotate { expires_at: refresh_token_expiry(now) },
    }
}

/// A stored refresh token as a rotation reads it.
pub struct StoredRefreshToken<Id, Info> {
    pub user_id: Id,
    pub device_info: Option<Info>,
    pub created_at: i64,
}

/// The refresh token stored in place of a rotated one.
pub struct NewRefreshToken<Id, Info> {
    pub user_id: Id,
    pub token_hash: String,
    pub device_info: Option<Info>,
    pub expires_at: i64,
}

/// The row that replaces a rotated refresh token: same user and device
/// information, the hash of the new token, and the expiry the rotation step
/// gave. The old row is deleted with the same write, so the old token is
/// refused afterwards.
pub fn rotated_refresh_token<Id, Info>(
    old: StoredRefreshToken<Id, Info>,
    new_token: &str,
    expires_at: i64,
) -> (r: NewRefreshToken<Id, Info>)
    ensures
        r.user_id == old.user_id,
        r.device_info == old.device_info,
        r.token_hash@ == crate::tokens::token_hash(new_token@),
        r.expires_at == expires_at,
{
    NewRefreshToken {
        user_id: old.user_id,
        token_hash: crate::tokens::hash_token(new_token),
        device_info: old.device_info,
        expires_at,
    }
}

/// The expiry time of a token issued at `now` with the given lifetime.
pub fn expiry_after(now: i64, lifetime_seconds: i64) -> (r: i64)
    requires
        i64::MIN <= now + lifetime_seconds <= i64::MAX,
    ensures
        r == now + lifetime_seconds,
{
    now + lifetime_seconds
}

/// The expiry of a refresh token issued at `now`: seven days later.
pub fn refresh_token_expiry(now: i64) -> (r: i64)
    requires
        now + 7 * 86400 <= i64::MAX,
    ensures
        r == now + 7 * 86400,
{
    expiry_after(now, REFRESH_TOKEN_DAYS * SECONDS_PER_DAY)
}

// ---------------------------------------------------------------------------
// Accounts
// ---------------------------------------------------------------------------

/// The address of the system account, which cannot be deleted.
pub open spec fn system_email() -> Seq<char> {
    "system@kennwilliamson.org"@
}

/// Check that an account may be deleted: it must exist and not be the
/// system account.
pub fn check_account_deletion(user_email: Option<&str>) -> (r: Result<(), AuthError>)
    ensures
        user_email is None ==> r == Err::<(), AuthError>(AuthError::UserNotFound),
        user_email matches Some(e) && e@ == system_email() ==> r == Err::<(), AuthError>(
            AuthError::CannotDeleteSystemUser,
        ),
        user_email matches Some(e) && e@ != system_email() ==> r is Ok,
{
    match user_email {
        None => Err(AuthError::UserNotFound),
        Some(e) => if str_eq(e, "system@kennwilliamson.org") {
            Err(AuthError::CannotDeleteSystemUser)
        } else {
            Ok(())
        },
    }
}

/// Timer privacy: a timer can only be listed when it is public.
pub fn check_timer_privacy(is_public: bool, show_in_list: bool) -> (r: Result<(), AuthError>)
    ensures
        r is Ok <==> !(show_in_list && !is_public),
        r is Err ==> r == Err::<(), AuthError>(AuthError::ShowInListRequiresPublic),
{
    if show_in_list && !is_public {
        Err(AuthError::ShowInListRequiresPublic)
    } else {
        Ok(())
    }
}

/// Whether a user's roles mark the email as verified.
pub fn email_verified(roles: &Vec<String>) -> (r: bool)
    ensures
        r == contains_text(roles@, "email-verified"@),
{
    is_email_verified(roles)
}

// ---------------------------------------------------------------------------
// OAuth account linking
// ---------------------------------------------------------------------------

/// How an OAuth sign-in is resolved to an account.
#[derive(Clone, Copy, PartialEq, Eq, Debug)]
pub enum OAuthAccount {
    /// The provider login is known: sign in its user.
    ExistingLogin,
    /// The email belongs to an account: link the provider login to it.
    LinkByEmail,
    /// Neither is known: create a new user.
    CreateUser,
}

/// Resolve an OAuth sign-in: a known provider login wins, then a known email.
pub fn resolve_oauth_account(login_known: bool, email_known: bool) -> (r: OAuthAccount)
    ensures
        login_known ==> r == OAuthAccount::ExistingLogin,
        !login_known && email_known ==> r == OAuthAccount::LinkByEmail,
        !login_known && !email_known ==> r == OAuthAccount::CreateUser,
{
    if login_known {
        OAuthAccount::ExistingLogin
    } else if email_known {
        OAuthAccount::LinkByEmail
    } else {
        OAuthAccount::CreateUser
    }
}

/// Linking an account by email trusts the provider: the `email-verified`
/// role is added when missing.
pub fn needs_email_verified_role(roles: &Vec<String>) -> (r: bool)
    ensures
        r == !contains_text(roles@, "email-verified"@),
{
    !is_email_verified(roles)
}

/// The part of an email address before the first `@` (all of it without one).
pub open spec fn email_local_part(email: Seq<char>) -> Seq<char> {
    match find(email, seq!['@']) {
        Some(i) => email.take(i),
        None => email,
    }
}

/// The base slug of a new OAuth user: from the name when the provider gives
/// one, else from the local part of the email.
pub fn oauth_base_slug(name: Option<&str>, email: &str) -> (r: String)
    ensures
        name matches Some(n) ==> r@ == display_name_slug(n@),
        name is None ==> r@ == display_name_slug(email_local_part(email@)),
{
    match name {
        Some(n) => generate_slug_from_display_name(n),
        None => {
            let e = chars_of(email);
            let at: Vec<char> = vec!['@'];
            assert(at@ =~= seq!['@']);
            let local = match find_at(&e, &at, 0) {
                Some(i) => {
                    proof {
                        lemma_find(e@, seq!['@']);
                    }
                    let v = slice_of(&e, 0, i);
                    assert(v@ =~= e@.take(i as int));
                    v
                },
                None => e,
            };
            let s = string_of(&local);
            generate_slug_from_display_name(s.as_str())
        },
    }
}

/// The display name of a new OAuth user: the provider's name, or `User`.
pub fn oauth_display_name(name: Option<String>) -> (r: String)
    ensures
        name matches Some(n) ==> r@ == n@,
        name is None ==> r@ == "User"@,
{
    match name {
        Some(n) => n,
        None => "User".to_owned(),
    }
}

// ---------------------------------------------------------------------------
// Slug previews and profile updates
// ---------------------------------------------------------------------------

/// The slug offered in a preview: the slug itself when free, otherwise the
/// slug with a number from 1 to 999 appended.
pub open spec fn preview_final_slug(slug: Seq<char>, available: bool, n: nat) -> Seq<char> {
    if available {
        slug
    } else {
        slug + seq!['-'] + decimal(n)
    }
}

/// The final slug of a preview; a taken slug gets a random suffix.
pub fn preview_final(slug: &str, available: bool) -> (r: String)
    ensures
        exists|n: nat| 1 <= n <= 999 && r@ == preview_final_slug(slug@, available, n),
{
    if available {
        let r = slug.to_owned();
        assert(r@ == preview_final_slug(slug@, available, 1));
        return r;
    }
    let n = random_in_range(1, 999);
    let mut out = chars_of(slug);
    out.push('-');
    push_decimal(&mut out, n as u64);
    let r = string_of(&out);
    assert(r@ =~= preview_final_slug(slug@, available, n as nat));
    r
}

/// The answer to a slug check: whether it is well-formed, and whether it is
/// free. A malformed slug is reported unavailable without asking the store;
/// `taken` is what the store says of a well-formed one.
pub fn slug_validation(slug: &str, taken: bool) -> (r: (bool, bool))
    ensures
        r.0 == crate::user_slug::valid_slug(slug@),
        r.1 == (crate::user_slug::valid_slug(slug@) && !taken),
{
    if !crate::user_slug::is_valid_slug(slug) {
        return (false, false);
    }
    (true, !taken)
}

/// First step of a profile update, before the store is asked anything: a
/// malformed slug is refused at once, and only a well-formed one needs the
/// query whether another user has it.
pub fn profile_slug_format(slug: &str) -> (r: Result<(), AuthError>)
    ensures
        r is Ok <==> crate::user_slug::valid_slug(slug@),
        r is Err ==> r == Err::<(), AuthError>(AuthError::InvalidSlugFormat),
{
    if crate::user_slug::is_valid_slug(slug) {
        Ok(())
    } else {
        Err(AuthError::InvalidSlugFormat)
    }
}

/// The fields a profile update writes.
pub struct UserUpdates {
    pub display_name: String,
    pub slug: String,
}

/// Second step of a profile update, with the store's answer whether another
/// user has the slug: a taken slug is refused, otherwise the requested name
/// and slug are written.
pub fn profile_updates_after_query(
    display_name: String,
    slug: String,
    taken_by_other: bool,
) -> (r: Result<UserUpdates, AuthError>)
    ensures
        taken_by_other ==> r matches Err(AuthError::SlugTaken),
        !taken_by_other ==> (r matches Ok(u) && u.display_name@ == display_name@ && u.slug@
            == slug@),
{
    if taken_by_other {
        return Err(AuthError::SlugTaken);
    }
    Ok(UserUpdates { display_name, slug })
}

/// Check a requested profile slug: well-formed and not taken by another user.
pub fn check_profile_slug(slug: &str, taken_by_other: bool) -> (r: Result<(), AuthError>)
    ensures
        !crate::user_slug::valid_slug(slug@) ==> r == Err::<(), AuthError>(
            AuthError::InvalidSlugFormat,
        ),
        crate::user_slug::valid_slug(slug@) && taken_by_other ==> r == Err::<(), AuthError>(
            AuthError::SlugTaken,
        ),
        crate::user_slug::valid_slug(slug@) && !taken_by_other ==> r is Ok,
{
    if !crate::user_slug::is_valid_slug(slug) {
        return Err(AuthError::InvalidSlugFormat);
    }
    if taken_by_other {
        return Err(AuthError::SlugTaken);
    }
    Ok(())
}

// ---------------------------------------------------------------------------
// Public timer list
// ---------------------------------------------------------------------------

/// Pagination of the public timer list: the page is at least 1, the page size
/// is between 1 and 100 (20 by default), and the offset skips earlier pages.
pub struct TimerListPage {
    pub page_size: i64,
    pub offset: i64,
    pub search: Option<String>,
}

/// The page number used: the requested one, at least 1.
pub open spec fn effective_page(page: Option<i64>) -> int {
    match page {
        Some(p) => if p < 1 {
            1
        } else {
            p as int
        },
        None => 1,
    }
}

/// The page size used: the requested one (20 by default) clamped to 1..=100.
pub open spec fn effective_page_size(page_size: Option<i64>) -> int {
    let s = match page_size {
        Some(s) => s as int,
        None => 20,
    };
    if s > 100 {
        100
    } else if s < 1 {
        1
    } else {
        s
    }
}

/// Work out the page size, offset and search text of a public timer list
/// request; a blank search is no search.
pub fn timer_list_page(page: Option<i64>, page_size: Option<i64>, search: Option<String>) -> (r:
    TimerListPage)
    requires
        (effective_page(page) - 1) * effective_page_size(page_size) <= i64::MAX,
    ensures
        r.page_size == effective_page_size(page_size),
        r.offset == (effective_page(page) - 1) * effective_page_size(page_size),
        search is None ==> r.search is None,
        search matches Some(s) ==> (if trim(s@, Delimiter::Whitespace).len() == 0 {
            r.search is None
        } else {
            r.search matches Some(t) && t@ == trim(s@, Delimiter::Whitespace)
        }),
{
    let p: i64 = match page {
        Some(p) => if p < 1 {
            1
        } else {
            p
        },
        None => 1,
    };
    let s0: i64 = match page_size {
        Some(s) => s,
        None => 20,
    };
    let size: i64 = if s0 > 100 {
        100
    } else if s0 < 1 {
        1
    } else {
        s0
    };
    assert((p - 1) * size >= 0) by (nonlinear_arith)
        requires
            p >= 1,
            size >= 1,
    ;
    let offset = (p - 1) * size;
    let search = match search {
        None => None,
        Some(s) => {
            let v = chars_of(s.as_str());
            let t = trim_delimiters(&v, Delimiter::Whitespace);
            if t.len() == 0 {
                None
            } else {
                Some(string_of(&t))
            }
        },
    };
    TimerListPage { page_size: size, offset, search }
}

} // verus!
