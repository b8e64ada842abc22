//! Administrative services: access-request moderation, phrase moderation,
//! system statistics and token cleanup.
//!
//! The services are generic over the handles of the repositories and
//! services they use; the application instantiates them with its own.

use vstd::prelude::*;

use crate::text::{append_all, chars_of, string_of};

verus! {

/// The text `{:?}` gives for a string: the string in double quotes, with
/// quotes, backslashes and control characters escaped.
pub uninterp spec fn debug_quoted(s: Seq<char>) -> Seq<char>;

/// `<str as Debug>::fmt`, written into a `String`: its result is named by
/// `debug_quoted`.
#[verifier::external_body]
fn debug_str(s: &str) -> (r: String)
    ensures
        r@ == debug_quoted(s@),
{
    format!("{:?}", s)
}

/// Why a service could not be built.
#[derive(Clone, Copy, PartialEq, Eq, Debug)]
pub enum BuildError {
    MissingAccessRequestRepository,
    MissingBlogRepository,
    MissingImageStorage,
}

impl BuildError {
    /// The text of the message for this error.
    pub open spec fn text(self) -> Seq<char> {
        match self {
            BuildError::MissingAccessRequestRepository => "AccessRequestRepository is required"@,
            BuildError::MissingBlogRepository => "BlogRepository is required"@,
            BuildError::MissingImageStorage => "ImageStorage is required"@,
        }
    }

    /// The message shown for this error.
    pub fn message(&self) -> (r: String)
        ensures
            r@ == self.text(),
    {
        match self {
            BuildError::MissingAccessRequestRepository => "AccessRequestRepository is required".to_owned(),
            BuildError::MissingBlogRepository => "BlogRepository is required".to_owned(),
            BuildError::MissingImageStorage => "ImageStorage is required".to_owned(),
        }
    }
}

// ---------------------------------------------------------------------------
// Access requests
// ---------------------------------------------------------------------------

/// Access request moderation service for admin operations.
pub struct AccessRequestModerationService<R, A, E, B> {
    access_request_repository: R,
    admin_repository: Option<A>,
    email_service: Option<E>,
    frontend_url: Option<String>,
    event_bus: Option<B>,
}

/// Builder for `AccessRequestModerationService`.
pub struct AccessRequestModerationServiceBuilder<R, A, E, B> {
    access_request_repository: Option<R>,
    admin_repository: Option<A>,
    email_service: Option<E>,
    frontend_url: Option<String>,
    event_bus: Option<B>,
}

impl<R, A, E, B> AccessRequestModerationServiceBuilder<R, A, E, B> {
    pub closed spec fn repository_view(&self) -> Option<R> {
        self.access_request_repository
    }

    pub closed spec fn admin_view(&self) -> Option<A> {
        self.admin_repository
    }

    pub closed spec fn email_view(&self) -> Option<E> {
        self.email_service
    }

    pub closed spec fn frontend_view(&self) -> Option<Seq<char>> {
        match self.frontend_url {
            Some(u) => Some(u@),
            None => None,
        }
    }

    pub closed spec fn event_bus_view(&self) -> Option<B> {
        self.event_bus
    }

    /// A builder with nothing set.
    pub fn new() -> (r: Self)
        ensures
            r.repository_view() is None,
            r.admin_view() is None,
            r.email_view() is None,
            r.frontend_view() is None,
            r.event_bus_view() is None,
    {
        AccessRequestModerationServiceBuilder {
            access_request_repository: None,
            admin_repository: None,
            email_service: None,
            frontend_url: None,
            event_bus: None,
        }
    }

    pub fn with_access_request_repository(self, repo: R) -> (r: Self)
        ensures
            r.repository_view() == Some(repo),
            r.admin_view() == self.admin_view(),
            r.email_view() == self.email_view(),
            r.frontend_view() == self.frontend_view(),
            r.event_bus_view() == self.event_bus_view(),
    {
        AccessRequestModerationServiceBuilder { access_request_repository: Some(repo), ..self }
    }

    pub fn with_admin_repository(self, repo: A) -> (r: Self)
        ensures
            r.repository_view() == self.repository_view(),
            r.admin_view() == Some(repo),
            r.email_view() == self.email_view(),
            r.frontend_view() == self.frontend_view(),
            r.event_bus_view() == self.event_bus_view(),
    {
        AccessRequestModerationServiceBuilder { admin_repository: Some(repo), ..self }
    }

    pub fn with_email_service(self, service: E) -> (r: Self)
        ensures
            r.repository_view() == self.repository_view(),
            r.admin_view() == self.admin_view(),
            r.email_view() == Some(service),
            r.frontend_view() == self.frontend_view(),
            r.event_bus_view() == self.event_bus_view(),
    {
        AccessRequestModerationServiceBuilder { email_service: Some(service), ..self }
    }

    pub fn with_frontend_url(self, url: String) -> (r: Self)
        ensures
            r.repository_view() == self.repository_view(),
            r.admin_view() == self.admin_view(),
            r.email_view() == self.email_view(),
            r.frontend_view() == Some(url@),
            r.event_bus_view() == self.event_bus_view(),
    {
        AccessRequestModerationServiceBuilder { frontend_url: Some(url), ..self }
    }

    pub fn with_event_bus(self, event_bus: B) -> (r: Self)
        ensures
            r.repository_view() == self.repository_view(),
            r.admin_view() == self.admin_view(),
            r.email_view() == self.email_view(),
            r.frontend_view() == self.frontend_view(),
            r.event_bus_view() == Some(event_bus),
    {
        AccessRequestModerationServiceBuilder { event_bus: Some(event_bus), ..self }
    }

    /// Build the service; the access-request repository is required.
    pub fn build(self) -> (r: Result<AccessRequestModerationService<R, A, E, B>, BuildError>)
        ensures
            self.repository_view() is None ==> r == Err::<
                AccessRequestModerationService<R, A, E, B>,
                BuildError,
            >(BuildError::MissingAccessRequestRepository),
            self.repository_view() is Some ==> (r matches Ok(s) && Some(s.repository_view())
                == self.repository_view() && s.admin_view() == self.admin_view()
                && s.email_view() == self.email_view() && s.frontend_view()
                == self.frontend_view() && s.event_bus_view() == self.event_bus_view()),
    {
        match self.access_request_repository {
            None => Err(BuildError::MissingAccessRequestRepository),
            Some(repo) => Ok(
                AccessRequestModerationService {
                    access_request_repository: repo,
                    admin_repository: self.admin_repository,
                    email_service: self.email_service,
                    frontend_url: self.frontend_url,
                    event_bus: self.event_bus,
                },
            ),
        }
    }
}

impl<R, A, E, B> Default for AccessRequestModerationServiceBuilder<R, A, E, B> {
    /// A builder with nothing set.
    fn default() -> (r: Self)
        ensures
            r.repository_view() is None,
            r.admin_view() is None,
            r.email_view() is None,
            r.frontend_view() is None,
            r.event_bus_view() is None,
    {
        Self::new()
    }
}

/// The notification about a new access request: who receives it, and what
/// the access-request template is filled with.
pub struct NotificationEmail {
    pub recipients: Vec<String>,
    pub user_display_name: String,
    pub message: String,
    pub requested_role: String,
    pub frontend_url: String,
}

/// How an optional handle shows in debug text: `Some("kind")` or `None`.
pub open spec fn present_debug(present: bool, kind: Seq<char>) -> Seq<char> {
    if present {
        "Some(\""@ + kind + "\")"@
    } else {
        "None"@
    }
}

fn push_present(out: &mut Vec<char>, present: bool, kind: &str)
    ensures
        final(out)@ == old(out)@ + present_debug(present, kind@),
{
    if present {
        append_all(out, &chars_of("Some(\""));
        append_all(out, &chars_of(kind));
        append_all(out, &chars_of("\")"));
    } else {
        append_all(out, &chars_of("None"));
    }
}

/// What creating an access request does after storing it.
#[derive(Clone, Copy, PartialEq, Eq, Debug)]
pub enum RequestNotification {
    /// Publish an `AccessRequestCreated` event on the event bus.
    PublishEvent,
    /// Fetch the admins' email addresses and call `after_admin_emails`.
    FetchAdminEmails,
    /// Send nothing: the admin repository is not configured.
    SkipNoAdminRepository,
    /// Send nothing: the email service is not configured.
    SkipNoEmailService,
    /// Send nothing: the frontend URL is not configured.
    SkipNoFrontendUrl,
    /// Send nothing: there are no admin addresses.
    SkipNoAdmins,
    /// Email the admins.
    SendEmail,
}

impl<R, A, E, B> AccessRequestModerationService<R, A, E, B> {
    pub closed spec fn repository_view(&self) -> R {
        self.access_request_repository
    }

    pub closed spec fn admin_view(&self) -> Option<A> {
        self.admin_repository
    }

    pub closed spec fn email_view(&self) -> Option<E> {
        self.email_service
    }

    pub closed spec fn frontend_view(&self) -> Option<Seq<char>> {
        match self.frontend_url {
            Some(u) => Some(u@),
            None => None,
        }
    }

    pub closed spec fn event_bus_view(&self) -> Option<B> {
        self.event_bus
    }

    /// A new builder.
    pub fn builder() -> (r: AccessRequestModerationServiceBuilder<R, A, E, B>)
        ensures
            r.repository_view() is None,
            r.admin_view() is None,
            r.email_view() is None,
            r.frontend_view() is None,
            r.event_bus_view() is None,
    {
        AccessRequestModerationServiceBuilder::new()
    }

    /// A service with only the access-request repository.
    pub fn new(access_request_repository: R) -> (r: Self)
        ensures
            r.repository_view() == access_request_repository,
            r.admin_view() is None,
            r.email_view() is None,
            r.frontend_view() is None,
            r.event_bus_view() is None,
    {
        AccessRequestModerationService {
            access_request_repository,
            admin_repository: None,
            email_service: None,
            frontend_url: None,
            event_bus: None,
        }
    }

    pub fn access_request_repository(&self) -> (r: &R)
        ensures
            *r == self.repository_view(),
    {
        &self.access_request_repository
    }

    pub fn admin_repository(&self) -> (r: &Option<A>)
        ensures
            *r == self.admin_view(),
    {
        &self.admin_repository
    }

    pub fn email_service(&self) -> (r: &Option<E>)
        ensures
            *r == self.email_view(),
    {
        &self.email_service
    }

    pub fn frontend_url(&self) -> (r: Option<&str>)
        ensures
            r matches Some(u) ==> self.frontend_view() == Some(u@),
            r is None ==> self.frontend_view() is None,
    {
        match &self.frontend_url {
            Some(u) => Some(u.as_str()),
            None => None,
        }
    }

    pub fn event_bus(&self) -> (r: &Option<B>)
        ensures
            *r == self.event_bus_view(),
    {
        &self.event_bus
    }

        /// The debug text of the service: which handles are configured, and the
    /// frontend URL.
    pub closed spec fn debug_text(&self) -> Seq<char> {
        "AccessRequestModerationService { access_request_repository: \"Arc<dyn AccessRequestRepository>\", admin_repository: "@
            + present_debug(self.admin_repository is Some, "Arc<dyn AdminRepository>"@)
            + ", email_service: "@ + present_debug(
            self.email_service is Some,
            "Arc<dyn EmailService>"@,
        ) + ", frontend_url: "@ + match self.frontend_url {
            Some(u) => "Some("@ + debug_quoted(u@) + ")"@,
            None => "None"@,
        } + ", event_bus: "@ + present_debug(self.event_bus is Some, "Arc<dyn EventPublisher>"@)
            + " }"@
    }

    /// The debug text of the service (what `{:?}` shows): the handles are
    /// named by their kind, the frontend URL is shown as is.
    pub fn debug_string(&self) -> (r: String)
        ensures
            r@ == self.debug_text(),
    {
        let mut out = chars_of(
            "AccessRequestModerationService { access_request_repository: \"Arc<dyn AccessRequestRepository>\", admin_repository: ",
        );
        push_present(&mut out, self.admin_repository.is_some(), "Arc<dyn AdminRepository>");
        append_all(&mut out, &chars_of(", email_service: "));
        push_present(&mut out, self.email_service.is_some(), "Arc<dyn EmailService>");
        append_all(&mut out, &chars_of(", frontend_url: "));
        match &self.frontend_url {
            Some(u) => {
                append_all(&mut out, &chars_of("Some("));
                let q = debug_str(u.as_str());
                append_all(&mut out, &chars_of(q.as_str()));
                append_all(&mut out, &chars_of(")"));
            },
            None => {
                append_all(&mut out, &chars_of("None"));
            },
        }
        append_all(&mut out, &chars_of(", event_bus: "));
        push_present(&mut out, self.event_bus.is_some(), "Arc<dyn EventPublisher>");
        append_all(&mut out, &chars_of(" }"));
        let r = string_of(&out);
        proof {
            assert(r@ =~= self.debug_text());
        }
        r
    }

    /// After a request is stored: publish an event when an event bus is
    /// configured; otherwise email the admins when the admin repository,
    /// email service and frontend URL are all configured.
    pub fn notification_after_create(&self) -> (r: RequestNotification)
        ensures
            self.event_bus_view() is Some ==> r == RequestNotification::PublishEvent,
            self.event_bus_view() is None && self.admin_view() is None ==> r
                == RequestNotification::SkipNoAdminRepository,
            self.event_bus_view() is None && self.admin_view() is Some
                && self.email_view() is None ==> r == RequestNotification::SkipNoEmailService,
            self.event_bus_view() is None && self.admin_view() is Some
                && self.email_view() is Some && self.frontend_view() is None ==> r
                == RequestNotification::SkipNoFrontendUrl,
            self.event_bus_view() is None && self.admin_view() is Some
                && self.email_view() is Some && self.frontend_view() is Some ==> r
                == RequestNotification::FetchAdminEmails,
    {
        if self.event_bus.is_some() {
            RequestNotification::PublishEvent
        } else if self.admin_repository.is_none() {
            RequestNotification::SkipNoAdminRepository
        } else if self.email_service.is_none() {
            RequestNotification::SkipNoEmailService
        } else if self.frontend_url.is_none() {
            RequestNotification::SkipNoFrontendUrl
        } else {
            RequestNotification::FetchAdminEmails
        }
    }

    /// With the admin addresses fetched: email them, unless there are none.
    pub fn after_admin_emails(&self, admin_emails: &Vec<String>) -> (r: RequestNotification)
        ensures
            admin_emails@.len() == 0 ==> r == RequestNotification::SkipNoAdmins,
            admin_emails@.len() > 0 ==> r == RequestNotification::SendEmail,
    {
        if admin_emails.len() == 0 {
            RequestNotification::SkipNoAdmins
        } else {
            RequestNotification::SendEmail
        }
    }

    /// The notification email for a new request, once the admin addresses
    /// are fetched: none when there are no addresses or when the admin
    /// repository, email service or frontend URL is not configured;
    /// otherwise one email to all the admin addresses, whose template gets
    /// the requester's name, message and role and the frontend URL.
    pub fn notification_email(
        &self,
        admin_emails: Vec<String>,
        user_display_name: String,
        message: String,
        requested_role: String,
    ) -> (r: Option<NotificationEmail>)
        ensures
            r is Some <==> (self.admin_view() is Some && self.email_view() is Some
                && self.frontend_view() is Some && admin_emails@.len() > 0),
            r matches Some(e) ==> (e.recipients@ == admin_emails@ && e.user_display_name@
                == user_display_name@ && e.message@ == message@ && e.requested_role@
                == requested_role@ && self.frontend_view() == Some(e.frontend_url@)),
    {
        if self.admin_repository.is_none() || self.email_service.is_none() {
            return None;
        }
        match &self.frontend_url {
            None => None,
            Some(url) => {
                if admin_emails.len() == 0 {
                    return None;
                }
                Some(
                    NotificationEmail {
                        recipients: admin_emails,
                        user_display_name,
                        message,
                        requested_role,
                        frontend_url: url.clone(),
                    },
                )
            },
        }
    }

    /// Whether approving or rejecting a request publishes an event.
    pub fn publishes_moderation_events(&self) -> (r: bool)
        ensures
            r == self.event_bus_view() is Some,
    {
        self.event_bus.is_some()
    }
}

/// A pending access request as stored, with its requester.
pub struct PendingAccessRequest<Id, Time> {
    pub id: Id,
    pub user_id: Id,
    pub user_email: String,
    pub user_display_name: String,
    pub message: String,
    pub requested_role: String,
    pub created_at: Time,
}

/// An access request as shown to administrators.
pub struct AccessRequestWithUserResponse<Id, Time> {
    pub id: Id,
    pub user_id: Id,
    pub user_email: String,
    pub user_display_name: String,
    pub message: String,
    pub requested_role: String,
    pub status: String,
    pub admin_id: Option<Id>,
    pub admin_reason: Option<String>,
    pub created_at: Time,
    pub updated_at: Time,
}

/// The list of pending access requests with its size.
pub struct AccessRequestListResponse<Id, Time> {
    pub requests: Vec<AccessRequestWithUserResponse<Id, Time>>,
    pub total: i64,
}

/// The response for one pending request: status `pending`, no admin decision,
/// and `updated_at` equal to `created_at`.
pub open spec fn pending_response_of<Id, Time>(
    req: PendingAccessRequest<Id, Time>,
    resp: AccessRequestWithUserResponse<Id, Time>,
) -> bool {
    &&& resp.id == req.id
    &&& resp.user_id == req.user_id
    &&& resp.user_email@ == req.user_email@
    &&& resp.user_display_name@ == req.user_display_name@
    &&& resp.message@ == req.message@
    &&& resp.requested_role@ == req.requested_role@
    &&& resp.status@ == "pending"@
    &&& resp.admin_id is None
    &&& resp.admin_reason is None
    &&& resp.created_at == req.created_at
    &&& resp.updated_at == req.created_at
}

/// Turn the stored pending requests into the admin list response.
pub fn pending_requests_response<Id: Copy, Time: Copy>(
    requests: Vec<PendingAccessRequest<Id, Time>>,
) -> (r: AccessRequestListResponse<Id, Time>)
    requires
        requests@.len() <= i64::MAX,
    ensures
        r.requests@.len() == requests@.len(),
        r.total == requests@.len(),
        forall|i: int|
            0 <= i < requests@.len() ==> pending_response_of(
                #[trigger] requests@[i],
                r.requests@[i],
            ),
{
    let mut out: Vec<AccessRequestWithUserResponse<Id, Time>> = Vec::new();
    let n = requests.len();
    let mut i: usize = 0;
    while i < n
        invariant
            i <= n == requests@.len(),
            out@.len() == i,
            forall|j: int| 0 <= j < i ==> pending_response_of(#[trigger] requests@[j], out@[j]),
        decreases n - i,
    {
        let req = &requests[i];
        let resp = AccessRequestWithUserResponse {
            id: req.id,
            user_id: req.user_id,
            user_email: req.user_email.clone(),
            user_display_name: req.user_display_name.clone(),
            message: req.message.clone(),
            requested_role: req.requested_role.clone(),
            status: "pending".to_owned(),
            admin_id: None,
            admin_reason: None,
            created_at: req.created_at,
            updated_at: req.created_at,
        };
        out.push(resp);
        i = i + 1;
    }
    let total = n as i64;
    AccessRequestListResponse { requests: out, total }
}

// ---------------------------------------------------------------------------
// Phrase moderation
// ---------------------------------------------------------------------------

/// Phrase moderation service for admin operations.
pub struct PhraseModerationService<P> {
    phrase_repository: P,
}

impl<P> PhraseModerationService<P> {
    pub closed spec fn repository_view(&self) -> P {
        self.phrase_repository
    }

    pub fn new(phrase_repository: P) -> (r: Self)
        ensures
            r.repository_view() == phrase_repository,
    {
        PhraseModerationService { phrase_repository }
    }

    pub fn phrase_repository(&self) -> (r: &P)
        ensures
            *r == self.repository_view(),
    {
        &self.phrase_repository
    }
}

/// A pending phrase suggestion as stored.
pub struct PendingSuggestion<Id, Time> {
    pub id: Id,
    pub phrase_text: String,
    pub created_at: Time,
    pub user_display_name: Option<String>,
    pub user_email: Option<String>,
}

/// A pending phrase suggestion as shown to administrators.
pub struct PendingSuggestionResponse<Id, Time> {
    pub id: Id,
    pub phrase_text: String,
    pub created_at: Time,
    pub user_display_name: String,
    pub user_email: String,
}

/// The list of pending suggestions with its size.
pub struct PendingSuggestionsResponse<Id, Time> {
    pub suggestions: Vec<PendingSuggestionResponse<Id, Time>>,
    pub total: i64,
}

/// The response for one suggestion: missing names read `Unknown`, missing
/// addresses `unknown@example.com`.
pub open spec fn suggestion_response_of<Id, Time>(
    s: PendingSuggestion<Id, Time>,
    r: PendingSuggestionResponse<Id, Time>,
) -> bool {
    &&& r.id == s.id
    &&& r.phrase_text@ == s.phrase_text@
    &&& r.created_at == s.created_at
    &&& r.user_display_name@ == match s.user_display_name {
        Some(n) => n@,
        None => "Unknown"@,
    }
    &&& r.user_email@ == match s.user_email {
        Some(e) => e@,
        None => "unknown@example.com"@,
    }
}

/// Turn the stored pending suggestions into the admin list response.
pub fn pending_suggestions_response<Id: Copy, Time: Copy>(
    suggestions: Vec<PendingSuggestion<Id, Time>>,
) -> (r: PendingSuggestionsResponse<Id, Time>)
    requires
        suggestions@.len() <= i64::MAX,
    ensures
        r.suggestions@.len() == suggestions@.len(),
        r.total == suggestions@.len(),
        forall|i: int|
            0 <= i < suggestions@.len() ==> suggestion_response_of(
                #[trigger] suggestions@[i],
                r.suggestions@[i],
            ),
{
    let mut out: Vec<PendingSuggestionResponse<Id, Time>> = Vec::new();
    let n = suggestions.len();
    let mut i: usize = 0;
    while i < n
        invariant
            i <= n == suggestions@.len(),
            out@.len() == i,
            forall|j: int|
                0 <= j < i ==> suggestion_response_of(#[trigger] suggestions@[j], out@[j]),
        decreases n - i,
    {
        let s = &suggestions[i];
        let name = match &s.user_display_name {
            Some(n) => n.clone(),
            None => "Unknown".to_owned(),
        };
        let email = match &s.user_email {
            Some(e) => e.clone(),
            None => "unknown@example.com".to_owned(),
        };
        out.push(
            PendingSuggestionResponse {
                id: s.id,
                phrase_text: s.phrase_text.clone(),
                created_at: s.created_at,
                user_display_name: name,
                user_email: email,
            },
        );
        i = i + 1;
    }
    let total = n as i64;
    PendingSuggestionsResponse { suggestions: out, total }
}

// ---------------------------------------------------------------------------
// Statistics
// ---------------------------------------------------------------------------

/// Statistics service for admin operations.
pub struct StatsService<P, A> {
    phrase_repository: P,
    admin_repository: A,
}

/// System statistics shown to administrators.
#[derive(Clone, Copy, PartialEq, Eq, Debug)]
pub struct SystemStatsResponse {
    pub total_users: i64,
    pub active_users: i64,
    pub pending_suggestions: i64,
    pub total_phrases: i64,
}

impl<P, A> StatsService<P, A> {
    pub closed spec fn phrase_view(&self) -> P {
        self.phrase_repository
    }

    pub closed spec fn admin_view(&self) -> A {
        self.admin_repository
    }

    pub fn new(phrase_repository: P, admin_repository: A) -> (r: Self)
        ensures
            r.phrase_view() == phrase_repository,
            r.admin_view() == admin_repository,
    {
        StatsService { phrase_repository, admin_repository }
    }

    pub fn phrase_repository(&self) -> (r: &P)
        ensures
            *r == self.phrase_view(),
    {
        &self.phrase_repository
    }

    pub fn admin_repository(&self) -> (r: &A)
        ensures
            *r == self.admin_view(),
    {
        &self.admin_repository
    }

    /// The statistics from the four counts.
    pub fn system_stats(
        &self,
        total_users: i64,
        active_users: i64,
        pending_suggestions: i64,
        total_phrases: i64,
    ) -> (r: SystemStatsResponse)
        ensures
            r == (SystemStatsResponse {
                total_users,
                active_users,
                pending_suggestions,
                total_phrases,
            }),
    {
        SystemStatsResponse { total_users, active_users, pending_suggestions, total_phrases }
    }
}

// ---------------------------------------------------------------------------
// Token cleanup
// ---------------------------------------------------------------------------

/// Removes expired refresh, verification and password-reset tokens.
pub struct CleanupService<R, V, P> {
    refresh_token_repository: R,
    verification_token_repository: V,
    password_reset_token_repository: P,
}

impl<R, V, P> CleanupService<R, V, P> {
    pub closed spec fn refresh_view(&self) -> R {
        self.refresh_token_repository
    }

    pub closed spec fn verification_view(&self) -> V {
        self.verification_token_repository
    }

    pub closed spec fn password_reset_view(&self) -> P {
        self.password_reset_token_repository
    }

    pub fn new(
        refresh_token_repository: R,
        verification_token_repository: V,
        password_reset_token_repository: P,
    ) -> (r: Self)
        ensures
            r.refresh_view() == refresh_token_repository,
            r.verification_view() == verification_token_repository,
            r.password_reset_view() == password_reset_token_repository,
    {
        CleanupService {
            refresh_token_repository,
            verification_token_repository,
            password_reset_token_repository,
        }
    }

    pub fn refresh_token_repository(&self) -> (r: &R)
        ensures
            *r == self.refresh_view(),
    {
        &self.refresh_token_repository
    }

    pub fn verification_token_repository(&self) -> (r: &V)
        ensures
            *r == self.verification_view(),
    {
        &self.verification_token_repository
    }

    pub fn password_reset_token_repository(&self) -> (r: &P)
        ensures
            *r == self.password_reset_view(),
    {
        &self.password_reset_token_repository
    }
}

/// The total number of tokens deleted by a cleanup.
pub fn cleanup_total(refresh_count: u64, verification_count: u64, password_reset_count: u64) -> (r: u64)
    requires
        refresh_count + verification_count + password_reset_count <= u64::MAX,
    ensures
        r == refresh_count + verification_count + password_reset_count,
{
    refresh_count + verification_count + password_reset_count
}

} // verus!
