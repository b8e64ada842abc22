//! The user records the service hands out: the detailed user response and
//! the export of all of a user's data.
//!
//! Ids and times are type parameters: the service instantiates them with its
//! own id, time and device-information types.

use vstd::prelude::*;

use crate::roles::is_email_verified;
use crate::text::contains_text;

verus! {

/// Whether a role list marks the email as verified.
pub open spec fn verified_email(roles: Seq<String>) -> bool {
    contains_text(roles, "email-verified"@)
}

/// The list given, or an empty one when the source is not configured.
pub open spec fn listed<T>(v: Option<Vec<T>>) -> Seq<T> {
    match v {
        Some(x) => x@,
        None => Seq::empty(),
    }
}

fn list_or_empty<T>(v: Option<Vec<T>>) -> (r: Vec<T>)
    ensures
        r@ == listed(v),
{
    match v {
        Some(x) => x,
        None => Vec::new(),
    }
}

// ---------------------------------------------------------------------------
// The detailed user response
// ---------------------------------------------------------------------------

/// The stored core of a user.
pub struct UserSummary<Id, Time> {
    pub id: Id,
    pub email: String,
    pub display_name: String,
    pub slug: String,
    pub created_at: Time,
}

/// Profile data shown with a user.
pub struct ProfileData {
    pub real_name: Option<String>,
    pub bio: Option<String>,
    pub avatar_url: Option<String>,
    pub location: Option<String>,
    pub website: Option<String>,
}

/// A linked external account.
pub struct ExternalAccount<Time> {
    pub provider: String,
    pub linked_at: Time,
}

/// Timer preferences shown with a user.
#[derive(Clone, Copy, PartialEq, Eq, Debug)]
pub struct PreferencesData {
    pub timer_is_public: bool,
    pub timer_show_in_list: bool,
}

/// A user with roles, credentials, profile, external accounts and
/// preferences.
pub struct UserResponse<Id, Time> {
    pub id: Id,
    pub email: String,
    pub display_name: String,
    pub slug: String,
    pub roles: Vec<String>,
    pub email_verified: bool,
    pub has_credentials: bool,
    pub created_at: Time,
    pub profile: Option<ProfileData>,
    pub external_accounts: Vec<ExternalAccount<Time>>,
    pub preferences: Option<PreferencesData>,
}

/// Build the detailed response of a user from its roles and what each
/// configured store holds: `has_credentials` is whether a password
/// credential was found (none when that store is not configured), and
/// `accounts` the linked logins (none when that store is not configured).
pub fn user_response_with_details<Id: Copy, Time: Copy>(
    user: &UserSummary<Id, Time>,
    roles: Vec<String>,
    has_credentials: Option<bool>,
    profile: Option<ProfileData>,
    preferences: Option<PreferencesData>,
    accounts: Option<Vec<ExternalAccount<Time>>>,
) -> (r: UserResponse<Id, Time>)
    ensures
        r.id == user.id,
        r.email@ == user.email@,
        r.display_name@ == user.display_name@,
        r.slug@ == user.slug@,
        r.created_at == user.created_at,
        r.roles@ == roles@,
        r.email_verified == verified_email(roles@),
        r.has_credentials == (has_credentials == Some(true)),
        r.profile == profile,
        r.preferences == preferences,
        r.external_accounts@ == listed(accounts),
{
    let email_verified = is_email_verified(&roles);
    let has = match has_credentials {
        Some(b) => b,
        None => false,
    };
    UserResponse {
        id: user.id,
        email: user.email.clone(),
        display_name: user.display_name.clone(),
        slug: user.slug.clone(),
        roles,
        email_verified,
        has_credentials: has,
        created_at: user.created_at,
        profile,
        external_accounts: list_or_empty(accounts),
        preferences,
    }
}

// ---------------------------------------------------------------------------
// The data export
// ---------------------------------------------------------------------------

/// The stored user as exported.
pub struct ExportUser<Id, Time> {
    pub id: Id,
    pub email: String,
    pub display_name: String,
    pub slug: String,
    pub active: bool,
    pub created_at: Time,
    pub updated_at: Time,
}

/// The user part of an export.
pub struct UserExportData<Id, Time> {
    pub id: Id,
    pub email: String,
    pub display_name: String,
    pub slug: String,
    pub active: bool,
    pub email_verified: bool,
    pub created_at: Time,
    pub updated_at: Time,
    pub roles: Vec<String>,
}

/// Whether the user has a password, and when it last changed.
pub struct AuthenticationExport<Time> {
    pub has_password: bool,
    pub password_last_changed: Option<Time>,
}

pub struct ExternalLoginExport<Time> {
    pub provider: String,
    pub provider_user_id: String,
    pub linked_at: Time,
}

pub struct ProfileExport {
    pub real_name: Option<String>,
    pub bio: Option<String>,
    pub avatar_url: Option<String>,
    pub location: Option<String>,
    pub website: Option<String>,
}

#[derive(Clone, Copy, PartialEq, Eq, Debug)]
pub struct PreferencesExport {
    pub timer_is_public: bool,
    pub timer_show_in_list: bool,
}

pub struct IncidentTimerExportData<Id, Time> {
    pub id: Id,
    pub reset_timestamp: Time,
    pub notes: Option<String>,
    pub created_at: Time,
    pub updated_at: Time,
}

pub struct PhraseSuggestionExportData<Id, Time> {
    pub id: Id,
    pub user_id: Id,
    pub phrase_text: String,
    pub status: String,
    pub admin_reason: Option<String>,
    pub created_at: Time,
    pub updated_at: Time,
}

pub struct PhraseExclusionExportData<Id, Time> {
    pub id: Id,
    pub phrase_text: String,
    pub excluded_at: Time,
}

pub struct SessionExportData<Id, Time, Info> {
    pub id: Id,
    pub device_info: Option<Info>,
    pub created_at: Time,
    pub last_used_at: Option<Time>,
    pub expires_at: Time,
}

pub struct VerificationTokenExportData<Id, Time> {
    pub id: Id,
    pub expires_at: Time,
    pub created_at: Time,
}

pub struct PasswordResetExportData<Id, Time> {
    pub id: Id,
    pub expires_at: Time,
    pub used_at: Option<Time>,
    pub created_at: Time,
}

/// Everything held about a user, as exported.
pub struct UserDataExport<Id, Time, Info, Sup> {
    pub export_date: Time,
    pub export_version: String,
    pub user: UserExportData<Id, Time>,
    pub authentication: AuthenticationExport<Time>,
    pub external_logins: Vec<ExternalLoginExport<Time>>,
    pub profile: Option<ProfileExport>,
    pub preferences: Option<PreferencesExport>,
    pub incident_timers: Vec<IncidentTimerExportData<Id, Time>>,
    pub phrase_suggestions: Vec<PhraseSuggestionExportData<Id, Time>>,
    pub phrase_exclusions: Vec<PhraseExclusionExportData<Id, Time>>,
    pub active_sessions: Vec<SessionExportData<Id, Time, Info>>,
    pub verification_history: Vec<VerificationTokenExportData<Id, Time>>,
    pub password_reset_history: Vec<PasswordResetExportData<Id, Time>>,
    pub email_suppression: Option<Sup>,
}

/// What each store gave for an export. A list or record is `None` when its
/// store is not configured (or, for the sections that tolerate it, when the
/// store failed); `credentials` is whether a password exists and when it
/// last changed.
pub struct ExportSources<Id, Time, Info> {
    pub credentials: Option<(bool, Option<Time>)>,
    pub external_logins: Option<Vec<ExternalLoginExport<Time>>>,
    pub profile: Option<ProfileExport>,
    pub preferences: Option<PreferencesExport>,
    pub incident_timers: Option<Vec<IncidentTimerExportData<Id, Time>>>,
    pub phrase_suggestions: Option<Vec<PhraseSuggestionExportData<Id, Time>>>,
    pub phrase_exclusions: Option<Vec<PhraseExclusionExportData<Id, Time>>>,
    pub active_sessions: Vec<SessionExportData<Id, Time, Info>>,
    pub verification_history: Option<Vec<VerificationTokenExportData<Id, Time>>>,
    pub password_reset_history: Option<Vec<PasswordResetExportData<Id, Time>>>,
}

/// Assemble a user's data export, version `1.0`, made at `export_date`: the
/// user with its roles and whether its email is verified, and every section
/// as its store gave it, empty when the store is not configured. Email
/// suppressions are not part of the export yet.
pub fn user_data_export<Id: Copy, Time: Copy, Info, Sup>(
    export_date: Time,
    user: ExportUser<Id, Time>,
    roles: Vec<String>,
    sources: ExportSources<Id, Time, Info>,
) -> (r: UserDataExport<Id, Time, Info, Sup>)
    ensures
        r.export_date == export_date,
        r.export_version@ == "1.0"@,
        r.user.id == user.id,
        r.user.email@ == user.email@,
        r.user.display_name@ == user.display_name@,
        r.user.slug@ == user.slug@,
        r.user.active == user.active,
        r.user.created_at == user.created_at,
        r.user.updated_at == user.updated_at,
        r.user.roles@ == roles@,
        r.user.email_verified == verified_email(roles@),
        r.authentication.has_password == (match sources.credentials {
            Some((b, _)) => b,
            None => false,
        }),
        r.authentication.password_last_changed == (match sources.credentials {
            Some((_, t)) => t,
            None => None,
        }),
        r.external_logins@ == listed(sources.external_logins),
        r.profile == sources.profile,
        r.preferences == sources.preferences,
        r.incident_timers@ == listed(sources.incident_timers),
        r.phrase_suggestions@ == listed(sources.phrase_suggestions),
        r.phrase_exclusions@ == listed(sources.phrase_exclusions),
        r.active_sessions@ == sources.active_sessions@,
        r.verification_history@ == listed(sources.verification_history),
        r.password_reset_history@ == listed(sources.password_reset_history),
        r.email_suppression is None,
{
    let email_verified = is_email_verified(&roles);
    let (has_password, password_last_changed) = match sources.credentials {
        Some((b, t)) => (b, t),
        None => (false, None),
    };
    UserDataExport {
        export_date,
        export_version: "1.0".to_owned(),
        user: UserExportData {
            id: user.id,
            email: user.email,
            display_name: user.display_name,
            slug: user.slug,
            active: user.active,
            email_verified,
            created_at: user.created_at,
            updated_at: user.updated_at,
            roles,
        },
        authentication: AuthenticationExport { has_password, password_last_changed },
        external_logins: list_or_empty(sources.external_logins),
        profile: sources.profile,
        preferences: sources.preferences,
        incident_timers: list_or_empty(sources.incident_timers),
        phrase_suggestions: list_or_empty(sources.phrase_suggestions),
        phrase_exclusions: list_or_empty(sources.phrase_exclusions),
        active_sessions: sources.active_sessions,
        verification_history: list_or_empty(sources.verification_history),
        password_reset_history: list_or_empty(sources.password_reset_history),
        email_suppression: None,
    }
}

/// The stores an export reads.
#[derive(Clone, Copy, PartialEq, Eq, Debug)]
pub enum ExportSection {
    User,
    Roles,
    Credentials,
    ExternalLogins,
    Profile,
    Preferences,
    IncidentTimers,
    PhraseSuggestions,
    PhraseExclusions,
    ActiveSessions,
    VerificationHistory,
    PasswordResetHistory,
}

/// Whether a failing store aborts the export: the user, roles, timers,
/// phrases, sessions and verification history must be read; credentials,
/// external logins, profile, preferences and password-reset history are
/// left out (empty) when their store fails.
pub open spec fn aborts_export(section: ExportSection) -> bool {
    match section {
        ExportSection::User => true,
        ExportSection::Roles => true,
        ExportSection::IncidentTimers => true,
        ExportSection::PhraseSuggestions => true,
        ExportSection::PhraseExclusions => true,
        ExportSection::ActiveSessions => true,
        ExportSection::VerificationHistory => true,
        _ => false,
    }
}

/// Whether a store failure for this section aborts the export.
pub fn failure_aborts_export(section: ExportSection) -> (r: bool)
    ensures
        r == aborts_export(section),
{
    match section {
        ExportSection::User => true,
        ExportSection::Roles => true,
        ExportSection::IncidentTimers => true,
        ExportSection::PhraseSuggestions => true,
        ExportSection::PhraseExclusions => true,
        ExportSection::ActiveSessions => true,
        ExportSection::VerificationHistory => true,
        _ => false,
    }
}

/// Why an export is refused.
#[derive(Clone, Copy, PartialEq, Eq, Debug)]
pub enum ExportError {
    UserNotFound,
}

impl ExportError {
    /// The text of the message for this error.
    pub open spec fn text(self) -> Seq<char> {
        match self {
            ExportError::UserNotFound => "User not found"@,
        }
    }

    /// The message shown for this error.
    pub fn message(&self) -> (r: String)
        ensures
            r@ == self.text(),
    {
        match self {
            ExportError::UserNotFound => "User not found".to_owned(),
        }
    }
}

/// First step of an export: the user must exist.
pub fn export_after_user_lookup(user_found: bool) -> (r: Result<(), ExportError>)
    ensures
        user_found ==> r is Ok,
        !user_found ==> r == Err::<(), ExportError>(ExportError::UserNotFound),
{
    if user_found {
        Ok(())
    } else {
        Err(ExportError::UserNotFound)
    }
}

} // verus!
