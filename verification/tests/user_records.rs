use backend::user_records::{
    export_after_user_lookup, failure_aborts_export, ExportError, ExportSection,
    user_data_export, user_response_with_details, ExportSources, ExportUser, ExternalAccount,
    ExternalLoginExport, IncidentTimerExportData, PreferencesData, PreferencesExport, ProfileData,
    SessionExportData, UserSummary,
};

fn summary() -> UserSummary<u32, i64> {
    UserSummary {
        id: 7,
        email: "kenn@example.com".to_string(),
        display_name: "Kenn".to_string(),
        slug: "kenn".to_string(),
        created_at: 100,
    }
}

#[test]
fn detailed_user_response() {
    let roles = vec!["user".to_string(), "email-verified".to_string()];
    let r = user_response_with_details(
        &summary(),
        roles.clone(),
        Some(true),
        Some(ProfileData { real_name: Some("K W".to_string()), bio: None, avatar_url: None, location: None, website: None }),
        Some(PreferencesData { timer_is_public: true, timer_show_in_list: false }),
        Some(vec![ExternalAccount { provider: "google".to_string(), linked_at: 5i64 }]),
    );
    assert_eq!(r.id, 7);
    assert_eq!(r.email, "kenn@example.com");
    assert_eq!(r.slug, "kenn");
    assert_eq!(r.roles, roles);
    assert!(r.email_verified);
    assert!(r.has_credentials);
    assert_eq!(r.created_at, 100);
    assert_eq!(r.profile.unwrap().real_name.as_deref(), Some("K W"));
    assert_eq!(r.preferences, Some(PreferencesData { timer_is_public: true, timer_show_in_list: false }));
    assert_eq!(r.external_accounts.len(), 1);
    assert_eq!(r.external_accounts[0].provider, "google");

    let bare = user_response_with_details(&summary(), vec!["user".to_string()], None, None, None, None);
    assert!(!bare.email_verified);
    assert!(!bare.has_credentials);
    assert!(bare.external_accounts.is_empty());
    assert!(bare.profile.is_none());
    let no_pw = user_response_with_details(&summary(), vec![], Some(false), None, None, None);
    assert!(!no_pw.has_credentials);
}

fn sources() -> ExportSources<u32, i64, String> {
    ExportSources {
        credentials: None,
        external_logins: None,
        profile: None,
        preferences: None,
        incident_timers: None,
        phrase_suggestions: None,
        phrase_exclusions: None,
        active_sessions: vec![],
        verification_history: None,
        password_reset_history: None,
    }
}

fn export_user() -> ExportUser<u32, i64> {
    ExportUser {
        id: 3,
        email: "a@example.com".to_string(),
        display_name: "A".to_string(),
        slug: "a".to_string(),
        active: true,
        created_at: 1,
        updated_at: 2,
    }
}

#[test]
fn empty_export() {
    let e = user_data_export::<u32, i64, String, ()>(99, export_user(), vec!["user".to_string()], sources());
    assert_eq!(e.export_version, "1.0");
    assert_eq!(e.export_date, 99);
    assert_eq!(e.user.id, 3);
    assert_eq!(e.user.email, "a@example.com");
    assert!(e.user.active);
    assert!(!e.user.email_verified);
    assert!(!e.authentication.has_password);
    assert!(e.authentication.password_last_changed.is_none());
    assert!(e.external_logins.is_empty());
    assert!(e.incident_timers.is_empty());
    assert!(e.active_sessions.is_empty());
    assert!(e.profile.is_none());
    assert!(e.email_suppression.is_none());
}

#[test]
fn full_export_keeps_each_section_in_order() {
    let mut s = sources();
    s.credentials = Some((true, Some(50)));
    s.external_logins = Some(vec![
        ExternalLoginExport { provider: "google".to_string(), provider_user_id: "g1".to_string(), linked_at: 10 },
        ExternalLoginExport { provider: "github".to_string(), provider_user_id: "h2".to_string(), linked_at: 11 },
    ]);
    s.preferences = Some(PreferencesExport { timer_is_public: true, timer_show_in_list: true });
    s.incident_timers = Some(vec![IncidentTimerExportData { id: 1, reset_timestamp: 5, notes: Some("n".to_string()), created_at: 5, updated_at: 6 }]);
    s.active_sessions = vec![SessionExportData { id: 4, device_info: Some("phone".to_string()), created_at: 1, last_used_at: None, expires_at: 9 }];
    let roles = vec!["user".to_string(), "email-verified".to_string()];
    let e = user_data_export::<u32, i64, String, ()>(99, export_user(), roles.clone(), s);
    assert!(e.user.email_verified);
    assert_eq!(e.user.roles, roles);
    assert!(e.authentication.has_password);
    assert_eq!(e.authentication.password_last_changed, Some(50));
    assert_eq!(e.external_logins.len(), 2);
    assert_eq!(e.external_logins[1].provider, "github");
    assert_eq!(e.incident_timers[0].notes.as_deref(), Some("n"));
    assert_eq!(e.active_sessions[0].device_info.as_deref(), Some("phone"));
    assert_eq!(e.preferences, Some(PreferencesExport { timer_is_public: true, timer_show_in_list: true }));
}

#[test]
fn export_error_policy() {
    assert_eq!(export_after_user_lookup(false), Err(ExportError::UserNotFound));
    assert_eq!(ExportError::UserNotFound.message(), "User not found");
    assert_eq!(export_after_user_lookup(true), Ok(()));
    for s in [
        ExportSection::User,
        ExportSection::Roles,
        ExportSection::IncidentTimers,
        ExportSection::PhraseSuggestions,
        ExportSection::PhraseExclusions,
        ExportSection::ActiveSessions,
        ExportSection::VerificationHistory,
    ] {
        assert!(failure_aborts_export(s));
    }
    for s in [
        ExportSection::Credentials,
        ExportSection::ExternalLogins,
        ExportSection::Profile,
        ExportSection::Preferences,
        ExportSection::PasswordResetHistory,
    ] {
        assert!(!failure_aborts_export(s));
    }
}
