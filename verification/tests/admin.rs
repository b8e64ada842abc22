use backend::admin::{
    cleanup_total, pending_requests_response, pending_suggestions_response,
    AccessRequestModerationService, AccessRequestModerationServiceBuilder, BuildError,
    CleanupService, PendingAccessRequest, PendingSuggestion, PhraseModerationService,
    RequestNotification, StatsService, SystemStatsResponse,
};

type Service = AccessRequestModerationService<u8, u16, u32, u64>;
type Builder = AccessRequestModerationServiceBuilder<u8, u16, u32, u64>;

#[test]
fn access_request_builder_requires_its_repository() {
    let r = Builder::new().with_admin_repository(1).build();
    assert_eq!(r.err(), Some(BuildError::MissingAccessRequestRepository));
    assert_eq!(
        BuildError::MissingAccessRequestRepository.message(),
        "AccessRequestRepository is required"
    );
    let s = Builder::default()
        .with_access_request_repository(3)
        .with_frontend_url("https://example.org".to_string())
        .build()
        .ok()
        .unwrap();
    assert_eq!(*s.access_request_repository(), 3);
    assert_eq!(s.frontend_url(), Some("https://example.org"));
    assert_eq!(*s.admin_repository(), None);
}

#[test]
fn notification_after_a_new_request() {
    let with_bus = Service::builder()
        .with_access_request_repository(1)
        .with_event_bus(9)
        .build()
        .ok()
        .unwrap();
    assert_eq!(with_bus.notification_after_create(), RequestNotification::PublishEvent);
    assert!(with_bus.publishes_moderation_events());

    let bare = Service::new(1);
    assert_eq!(bare.notification_after_create(), RequestNotification::SkipNoAdminRepository);
    assert!(!bare.publishes_moderation_events());

    let no_email = Builder::new()
        .with_access_request_repository(1)
        .with_admin_repository(2)
        .build()
        .ok()
        .unwrap();
    assert_eq!(no_email.notification_after_create(), RequestNotification::SkipNoEmailService);

    let no_url = Builder::new()
        .with_access_request_repository(1)
        .with_admin_repository(2)
        .with_email_service(3)
        .build()
        .ok()
        .unwrap();
    assert_eq!(no_url.notification_after_create(), RequestNotification::SkipNoFrontendUrl);

    let full = Builder::new()
        .with_access_request_repository(1)
        .with_admin_repository(2)
        .with_email_service(3)
        .with_frontend_url("https://example.org".to_string())
        .build()
        .ok()
        .unwrap();
    assert_eq!(full.notification_after_create(), RequestNotification::FetchAdminEmails);
    assert_eq!(full.after_admin_emails(&vec![]), RequestNotification::SkipNoAdmins);
    assert_eq!(
        full.after_admin_emails(&vec!["admin@example.com".to_string()]),
        RequestNotification::SendEmail
    );
}

#[test]
fn pending_requests_are_listed_as_pending() {
    let reqs = vec![
        PendingAccessRequest {
            id: 1u32,
            user_id: 10u32,
            user_email: "a@example.com".to_string(),
            user_display_name: "A".to_string(),
            message: "please".to_string(),
            requested_role: "trusted-contact".to_string(),
            created_at: 100i64,
        },
        PendingAccessRequest {
            id: 2u32,
            user_id: 20u32,
            user_email: "b@example.com".to_string(),
            user_display_name: "B".to_string(),
            message: "me too".to_string(),
            requested_role: "trusted-contact".to_string(),
            created_at: 200i64,
        },
    ];
    let r = pending_requests_response(reqs);
    assert_eq!(r.total, 2);
    assert_eq!(r.requests.len(), 2);
    let second = &r.requests[1];
    assert_eq!(second.id, 2);
    assert_eq!(second.user_email, "b@example.com");
    assert_eq!(second.status, "pending");
    assert!(second.admin_id.is_none());
    assert!(second.admin_reason.is_none());
    assert_eq!(second.updated_at, 200);
    assert_eq!(pending_requests_response::<u32, i64>(vec![]).total, 0);
}

#[test]
fn pending_suggestions_fill_in_unknown_users() {
    let s = vec![
        PendingSuggestion {
            id: 1u32,
            phrase_text: "hello".to_string(),
            created_at: 5i64,
            user_display_name: None,
            user_email: None,
        },
        PendingSuggestion {
            id: 2u32,
            phrase_text: "world".to_string(),
            created_at: 6i64,
            user_display_name: Some("Kenn".to_string()),
            user_email: Some("kenn@example.com".to_string()),
        },
    ];
    let r = pending_suggestions_response(s);
    assert_eq!(r.total, 2);
    assert_eq!(r.suggestions[0].user_display_name, "Unknown");
    assert_eq!(r.suggestions[0].user_email, "unknown@example.com");
    assert_eq!(r.suggestions[1].user_display_name, "Kenn");
    assert_eq!(r.suggestions[1].user_email, "kenn@example.com");
    assert_eq!(r.suggestions[1].phrase_text, "world");
}

#[test]
fn services_hold_their_repositories() {
    let p = PhraseModerationService::new(4u8);
    assert_eq!(*p.phrase_repository(), 4);
    let stats = StatsService::new(1u8, 2u8);
    assert_eq!(*stats.phrase_repository(), 1);
    assert_eq!(*stats.admin_repository(), 2);
    assert_eq!(
        stats.system_stats(10, 8, 3, 42),
        SystemStatsResponse { total_users: 10, active_users: 8, pending_suggestions: 3, total_phrases: 42 }
    );
    let c = CleanupService::new(1u8, 2u16, 3u32);
    assert_eq!(*c.refresh_token_repository(), 1);
    assert_eq!(*c.verification_token_repository(), 2);
    assert_eq!(*c.password_reset_token_repository(), 3);
}

#[test]
fn cleanup_total_adds_the_counts() {
    assert_eq!(cleanup_total(5, 3, 2), 10);
    assert_eq!(cleanup_total(0, 0, 0), 0);
}

/// The same fields, shown through `std::fmt::DebugStruct`.
struct Shape {
    admin: bool,
    email: bool,
    url: Option<String>,
    bus: bool,
}

impl std::fmt::Debug for Shape {
    fn fmt(&self, f: &mut std::fmt::Formatter<'_>) -> std::fmt::Result {
        f.debug_struct("AccessRequestModerationService")
            .field("access_request_repository", &"Arc<dyn AccessRequestRepository>")
            .field("admin_repository", &self.admin.then_some("Arc<dyn AdminRepository>"))
            .field("email_service", &self.email.then_some("Arc<dyn EmailService>"))
            .field("frontend_url", &self.url)
            .field("event_bus", &self.bus.then_some("Arc<dyn EventPublisher>"))
            .finish()
    }
}

#[test]
fn debug_text_names_the_configured_handles() {
    let bare = Service::new(1);
    assert_eq!(
        bare.debug_string(),
        "AccessRequestModerationService { access_request_repository: \"Arc<dyn AccessRequestRepository>\", admin_repository: None, email_service: None, frontend_url: None, event_bus: None }"
    );
    let full = Builder::new()
        .with_access_request_repository(1)
        .with_admin_repository(2)
        .with_email_service(3)
        .with_frontend_url("https://example.org/\"q\"".to_string())
        .with_event_bus(4)
        .build()
        .ok()
        .unwrap();
    let expected = Shape { admin: true, email: true, url: Some("https://example.org/\"q\"".to_string()), bus: true };
    assert_eq!(full.debug_string(), format!("{:?}", expected));
    let some = Builder::new().with_access_request_repository(1).with_email_service(3).build().ok().unwrap();
    let expected = Shape { admin: false, email: true, url: None, bus: false };
    assert_eq!(some.debug_string(), format!("{:?}", expected));
}

#[test]
fn the_notification_goes_to_every_admin() {
    let full = Builder::new()
        .with_access_request_repository(1)
        .with_admin_repository(2)
        .with_email_service(3)
        .with_frontend_url("https://example.org".to_string())
        .build()
        .ok()
        .unwrap();
    let admins = vec!["admin@example.com".to_string(), "root@example.com".to_string()];
    let e = full
        .notification_email(admins.clone(), "Jane".to_string(), "please".to_string(), "trusted-contact".to_string())
        .unwrap();
    assert_eq!(e.recipients, admins);
    assert_eq!(e.user_display_name, "Jane");
    assert_eq!(e.message, "please");
    assert_eq!(e.requested_role, "trusted-contact");
    assert_eq!(e.frontend_url, "https://example.org");
    assert!(full
        .notification_email(vec![], "Jane".to_string(), "m".to_string(), "r".to_string())
        .is_none());
    let no_url = Builder::new()
        .with_access_request_repository(1)
        .with_admin_repository(2)
        .with_email_service(3)
        .build()
        .ok()
        .unwrap();
    assert!(no_url
        .notification_email(admins, "Jane".to_string(), "m".to_string(), "r".to_string())
        .is_none());
}
