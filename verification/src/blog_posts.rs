//! Blog post rules: the service and its builder, request validation, slug
//! and excerpt defaults, and the publishing timestamp.

use vstd::prelude::*;

use crate::admin::BuildError;
use crate::blog_text::{
    generate_excerpt, generate_slug, is_byte_boundary, markdown_plain_text, title_slug, utf8_len,
};
use crate::text::{append_all, chars_of, is_whitespace, str_eq, string_of, whitespace};
use crate::user_slug::SlugSearch;

verus! {

// ---------------------------------------------------------------------------
// Service and builder
// ---------------------------------------------------------------------------

/// Blog post business logic over a repository, an image storage and an
/// optional event bus.
pub struct BlogService<R, I, B> {
    repository: R,
    image_storage: I,
    event_bus: Option<B>,
}

/// Builder for `BlogService` with validation.
pub struct BlogServiceBuilder<R, I, B> {
    repository: Option<R>,
    image_storage: Option<I>,
    event_bus: Option<B>,
}

impl<R, I, B> BlogServiceBuilder<R, I, B> {
    pub closed spec fn repository_view(&self) -> Option<R> {
        self.repository
    }

    pub closed spec fn image_storage_view(&self) -> Option<I> {
        self.image_storage
    }

    pub closed spec fn event_bus_view(&self) -> Option<B> {
        self.event_bus
    }

    /// A builder with nothing set.
    pub fn new() -> (r: Self)
        ensures
            r.repository_view() is None,
            r.image_storage_view() is None,
            r.event_bus_view() is None,
    {
        BlogServiceBuilder { repository: None, image_storage: None, event_bus: None }
    }

    pub fn with_repository(self, repository: R) -> (r: Self)
        ensures
            r.repository_view() == Some(repository),
            r.image_storage_view() == self.image_storage_view(),
            r.event_bus_view() == self.event_bus_view(),
    {
        BlogServiceBuilder { repository: Some(repository), ..self }
    }

    pub fn with_image_storage(self, image_storage: I) -> (r: Self)
        ensures
            r.repository_view() == self.repository_view(),
            r.image_storage_view() == Some(image_storage),
            r.event_bus_view() == self.event_bus_view(),
    {
        BlogServiceBuilder { image_storage: Some(image_storage), ..self }
    }

    pub fn with_event_bus(self, event_bus: B) -> (r: Self)
        ensures
            r.repository_view() == self.repository_view(),
            r.image_storage_view() == self.image_storage_view(),
            r.event_bus_view() == Some(event_bus),
    {
        BlogServiceBuilder { event_bus: Some(event_bus), ..self }
    }

    /// Build the service; the repository and the image storage are required
    /// (the repository is checked first).
    pub fn build(self) -> (r: Result<BlogService<R, I, B>, BuildError>)
        ensures
            self.repository_view() is None ==> r == Err::<BlogService<R, I, B>, BuildError>(
                BuildError::MissingBlogRepository,
            ),
            self.repository_view() is Some && self.image_storage_view() is None ==> r == Err::<
                BlogService<R, I, B>,
                BuildError,
            >(BuildError::MissingImageStorage),
            self.repository_view() is Some && self.image_storage_view() is Some ==> (r matches Ok(
                s,
            ) && Some(s.repository_view()) == self.repository_view() && Some(
                s.image_storage_view(),
            ) == self.image_storage_view() && s.event_bus_view() == self.event_bus_view()),
    {
        match self.repository {
            None => Err(BuildError::MissingBlogRepository),
            Some(repository) => match self.image_storage {
                None => Err(BuildError::MissingImageStorage),
                Some(image_storage) => Ok(
                    BlogService { repository, image_storage, event_bus: self.event_bus },
                ),
            },
        }
    }
}

impl<R, I, B> Default for BlogServiceBuilder<R, I, B> {
    /// A builder with nothing set.
    fn default() -> (r: Self)
        ensures
            r.repository_view() is None,
            r.image_storage_view() is None,
            r.event_bus_view() is None,
    {
        Self::new()
    }
}

impl<R, I, B> BlogService<R, I, B> {
    pub closed spec fn repository_view(&self) -> R {
        self.repository
    }

    pub closed spec fn image_storage_view(&self) -> I {
        self.image_storage
    }

    pub closed spec fn event_bus_view(&self) -> Option<B> {
        self.event_bus
    }

    /// A new builder.
    pub fn builder() -> (r: BlogServiceBuilder<R, I, B>)
        ensures
            r.repository_view() is None,
            r.image_storage_view() is None,
            r.event_bus_view() is None,
    {
        BlogServiceBuilder::new()
    }

    /// A service without an event bus.
    pub fn new(repository: R, image_storage: I) -> (r: Self)
        ensures
            r.repository_view() == repository,
            r.image_storage_view() == image_storage,
            r.event_bus_view() is None,
    {
        BlogService { repository, image_storage, event_bus: None }
    }

    pub fn repository(&self) -> (r: &R)
        ensures
            *r == self.repository_view(),
    {
        &self.repository
    }

    pub fn image_storage(&self) -> (r: &I)
        ensures
            *r == self.image_storage_view(),
    {
        &self.image_storage
    }

    pub fn event_bus(&self) -> (r: &Option<B>)
        ensures
            *r == self.event_bus_view(),
    {
        &self.event_bus
    }

    /// Whether publishing a post emits an event.
    pub fn publishes_events(&self) -> (r: bool)
        ensures
            r == self.event_bus_view() is Some,
    {
        self.event_bus.is_some()
    }
}

// ---------------------------------------------------------------------------
// Creating posts
// ---------------------------------------------------------------------------

/// Why a blog request is refused.
#[derive(Clone, PartialEq, Eq, Debug)]
pub enum BlogError {
    /// The title is empty or only whitespace.
    EmptyTitle,
    /// The status (given here) is neither `draft` nor `published`.
    InvalidStatus(String),
    /// No post has the given id.
    NotFound,
    /// Every numbered variant of the base slug (given here) up to the limit
    /// is taken.
    SlugExhausted(String),
}

impl BlogError {
    /// The text of the message for this error.
    pub open spec fn text(self) -> Seq<char> {
        match self {
            BlogError::EmptyTitle => "Title cannot be empty"@,
            BlogError::InvalidStatus(st) => "Status must be 'draft' or 'published', got '"@ + st@
                + "'"@,
            BlogError::NotFound => "Blog post not found"@,
            BlogError::SlugExhausted(base) => "Unable to generate unique slug after 100 attempts for base '"@
                + base@ + "'"@,
        }
    }

    /// The message shown for this error.
    pub fn message(&self) -> (r: String)
        ensures
            r@ == self.text(),
    {
        match self {
            BlogError::EmptyTitle => "Title cannot be empty".to_owned(),
            BlogError::InvalidStatus(st) => quoted_after(
                "Status must be 'draft' or 'published', got '",
                st.as_str(),
            ),
            BlogError::NotFound => "Blog post not found".to_owned(),
            BlogError::SlugExhausted(base) => quoted_after(
                "Unable to generate unique slug after 100 attempts for base '",
                base.as_str(),
            ),
        }
    }
}

/// `prefix`, then `value`, then a closing single quote.
fn quoted_after(prefix: &str, value: &str) -> (r: String)
    ensures
        r@ == prefix@ + value@ + "'"@,
{
    let mut out = chars_of(prefix);
    append_all(&mut out, &chars_of(value));
    append_all(&mut out, &chars_of("'"));
    string_of(&out)
}

/// The length of an automatic excerpt, in bytes.
pub const EXCERPT_LEN: usize = 160;

/// Whether a text is blank (empty or only whitespace).
pub open spec fn is_blank(s: Seq<char>) -> bool {
    forall|i: int| 0 <= i < s.len() ==> is_whitespace(#[trigger] s[i])
}

/// The statuses a post can have.
pub open spec fn valid_status(s: Seq<char>) -> bool {
    s == "draft"@ || s == "published"@
}

/// Whether a title is blank: empty or only whitespace.
pub fn title_is_blank(s: &str) -> (r: bool)
    ensures
        r == is_blank(s@),
{
    let v = chars_of(s);
    let mut i: usize = 0;
    while i < v.len()
        invariant
            i <= v.len(),
            v@ == s@,
            forall|j: int| 0 <= j < i ==> is_whitespace(#[trigger] v@[j]),
        decreases v.len() - i,
    {
        if !whitespace(v[i]) {
            return false;
        }
        i = i + 1;
    }
    true
}

/// Whether a status is `draft` or `published`.
pub fn is_valid_status(status: &str) -> (r: bool)
    ensures
        r == valid_status(status@),
{
    str_eq(status, "draft") || str_eq(status, "published")
}

/// What the service stores for a new post, apart from the fields it copies:
/// the slug to start the uniqueness search from, the excerpt, and whether
/// the post is published now.
pub struct NewPostPlan {
    pub base_slug: String,
    pub excerpt: Option<String>,
    pub publish_now: bool,
}

/// The excerpt an automatic excerpt needs to be computable: the plain text
/// fits, or its 160-byte cut falls between characters.
pub open spec fn excerpt_computable(content: Seq<char>) -> bool {
    utf8_len(markdown_plain_text(content)) > EXCERPT_LEN ==> is_byte_boundary(
        markdown_plain_text(content),
        EXCERPT_LEN as int,
    )
}

/// Whether the automatic excerpt of this content can be computed.
pub fn excerpt_is_computable(content: &str) -> (r: bool)
    ensures
        r == excerpt_computable(content@),
{
    let plain = crate::blog_text::strip_markdown(content);
    crate::blog_text::can_truncate(plain.as_str(), EXCERPT_LEN)
}

/// Validate a new post and work out its base slug, excerpt and publication.
///
/// The title must not be blank and the status must be `draft` or `published`;
/// a missing slug is derived from the title and a missing excerpt from the
/// content's plain text (160 bytes).
pub fn plan_new_post(
    title: &str,
    status: &str,
    slug: Option<String>,
    excerpt: Option<String>,
    content: &str,
) -> (r: Result<NewPostPlan, BlogError>)
    requires
        !is_blank(title@) && valid_status(status@) && excerpt is None ==> excerpt_computable(
            content@,
        ),
    ensures
        is_blank(title@) ==> r == Err::<NewPostPlan, BlogError>(BlogError::EmptyTitle),
        !is_blank(title@) && !valid_status(status@) ==> (r matches Err(
            BlogError::InvalidStatus(st),
        ) && st@ == status@),
        !is_blank(title@) && valid_status(status@) ==> (r matches Ok(p) && p.base_slug@ == (
        match slug {
            Some(s) => s@,
            None => title_slug(title@),
        }) && p.publish_now == (status@ == "published"@) && (p.excerpt matches Some(e) && e@
            == match excerpt {
            Some(x) => x@,
            None => crate::blog_text::truncated(
                markdown_plain_text(content@),
                EXCERPT_LEN as int,
            ),
        })),
{
    if title_is_blank(title) {
        return Err(BlogError::EmptyTitle);
    }
    if !is_valid_status(status) {
        return Err(BlogError::InvalidStatus(status.to_owned()));
    }
    let base_slug = match slug {
        Some(s) => s,
        None => generate_slug(title),
    };
    let excerpt = match excerpt {
        Some(e) => Some(e),
        None => Some(generate_excerpt(content, EXCERPT_LEN)),
    };
    let publish_now = str_eq(status, "published");
    Ok(NewPostPlan { base_slug, excerpt, publish_now })
}

/// Begin making a post slug unique: collisions get `-2`, `-3`, ... and the
/// search gives up once the counter passes 100.
pub fn unique_post_slug(base_slug: &str) -> (r: SlugSearch)
    ensures
        r.wf() && r.base_view() == base_slug@ && r.first_view() == 2 && r.limit_view() == 100
            && r.tries_view() == 0,
{
    SlugSearch::new(base_slug, 2, 100)
}

// ---------------------------------------------------------------------------
// Updating posts
// ---------------------------------------------------------------------------

/// The publication timestamp an update stores.
#[derive(Clone, Copy, PartialEq, Eq, Debug)]
pub enum PublishedAt<T> {
    /// The post's current value (possibly none).
    Existing(Option<T>),
    /// The time of the update.
    Now,
    /// No timestamp.
    Unset,
}

/// The timestamp for an update from the post's status and the requested one:
/// publishing a draft stamps it now, unpublishing clears it, a draft that
/// stays a draft has none, and everything else keeps the current value.
pub open spec fn published_at_after_update<T>(
    existing_status: Seq<char>,
    existing: Option<T>,
    requested: Option<Seq<char>>,
) -> PublishedAt<T> {
    if existing_status == "published"@ {
        match requested {
            None => PublishedAt::Existing(existing),
            Some(s) => if s == "published"@ {
                PublishedAt::Existing(existing)
            } else if s == "draft"@ {
                PublishedAt::Unset
            } else {
                PublishedAt::Existing(existing)
            },
        }
    } else if existing_status == "draft"@ {
        match requested {
            None => PublishedAt::Unset,
            Some(s) => if s == "published"@ {
                PublishedAt::Now
            } else if s == "draft"@ {
                PublishedAt::Unset
            } else {
                PublishedAt::Existing(existing)
            },
        }
    } else {
        PublishedAt::Existing(existing)
    }
}

/// Validate a requested status and decide the publication timestamp of an
/// update to an existing post.
pub fn plan_post_update<T: Copy>(
    existing_status: &str,
    existing_published_at: Option<T>,
    requested_status: Option<&str>,
) -> (r: Result<PublishedAt<T>, BlogError>)
    ensures
        requested_status is Some && !valid_status(requested_status->0@) ==> (r matches Err(
            BlogError::InvalidStatus(st),
        ) && st@ == requested_status->0@),
        (requested_status matches Some(s) ==> valid_status(s@)) ==> r == Ok::<
            PublishedAt<T>,
            BlogError,
        >(
            published_at_after_update(
                existing_status@,
                existing_published_at,
                match requested_status {
                    Some(s) => Some(s@),
                    None => None,
                },
            ),
        ),
{
    if let Some(s) = requested_status {
        if !is_valid_status(s) {
            return Err(BlogError::InvalidStatus(s.to_owned()));
        }
    }
    let published = str_eq(existing_status, "published");
    let draft = str_eq(existing_status, "draft");
    let (req_published, req_draft) = match requested_status {
        Some(s) => (str_eq(s, "published"), str_eq(s, "draft")),
        None => (false, false),
    };
    let none = requested_status.is_none();
    if published {
        if none || req_published {
            Ok(PublishedAt::Existing(existing_published_at))
        } else if req_draft {
            Ok(PublishedAt::Unset)
        } else {
            Ok(PublishedAt::Existing(existing_published_at))
        }
    } else if draft {
        if none {
            Ok(PublishedAt::Unset)
        } else if req_published {
            Ok(PublishedAt::Now)
        } else if req_draft {
            Ok(PublishedAt::Unset)
        } else {
            Ok(PublishedAt::Existing(existing_published_at))
        }
    } else {
        Ok(PublishedAt::Existing(existing_published_at))
    }
}

} // verus!
