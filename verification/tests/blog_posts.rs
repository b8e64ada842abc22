use backend::admin::BuildError;
use backend::blog_posts::{
    excerpt_is_computable, is_valid_status, title_is_blank, plan_new_post, plan_post_update, unique_post_slug,
    BlogError, BlogService, BlogServiceBuilder, PublishedAt,
};
use backend::user_slug::{SlugSearch, SlugStep};

fn run_search(mut search: SlugSearch, taken: &[String]) -> Option<String> {
    loop {
        let candidate = search.candidate();
        let is_taken = taken.contains(&candidate);
        match search.step(is_taken) {
            SlugStep::Found(s) => return Some(s),
            SlugStep::Next(next) => search = next,
            SlugStep::Exhausted => return None,
        }
    }
}

#[test]
fn builder_requires_repository_then_image_storage() {
    let none: BlogServiceBuilder<u8, u16, u32> = BlogServiceBuilder::new();
    assert_eq!(none.build().err(), Some(BuildError::MissingBlogRepository));
    let no_repo = BlogService::<u8, u16, u32>::builder().with_image_storage(2);
    assert_eq!(no_repo.build().err(), Some(BuildError::MissingBlogRepository));
    let no_storage = BlogServiceBuilder::<u8, u16, u32>::default().with_repository(1);
    assert_eq!(no_storage.build().err(), Some(BuildError::MissingImageStorage));
    assert_eq!(BuildError::MissingBlogRepository.message(), "BlogRepository is required");
    assert_eq!(BuildError::MissingImageStorage.message(), "ImageStorage is required");
}

#[test]
fn builder_keeps_its_parts() {
    let service = BlogServiceBuilder::<u8, u16, u32>::new()
        .with_repository(7)
        .with_image_storage(9)
        .with_event_bus(11)
        .build()
        .ok()
        .unwrap();
    assert_eq!(*service.repository(), 7);
    assert_eq!(*service.image_storage(), 9);
    assert_eq!(*service.event_bus(), Some(11));
    assert!(service.publishes_events());

    let plain: BlogService<u8, u16, u32> = BlogService::new(1, 2);
    assert_eq!(*plain.event_bus(), None);
    assert!(!plain.publishes_events());
}

#[test]
fn statuses() {
    assert!(is_valid_status("draft"));
    assert!(is_valid_status("published"));
    assert!(!is_valid_status("archived"));
    assert!(!is_valid_status("Draft"));
}

#[test]
fn new_posts_are_validated() {
    let r = plan_new_post("   ", "draft", None, None, "body");
    assert_eq!(r.err(), Some(BlogError::EmptyTitle));
    let r = plan_new_post("Title", "archived", None, None, "body");
    assert_eq!(r.err(), Some(BlogError::InvalidStatus("archived".to_string())));
    // An empty title is reported before a bad status.
    let r = plan_new_post("", "archived", None, None, "body");
    assert_eq!(r.err(), Some(BlogError::EmptyTitle));
}

#[test]
fn new_post_defaults() {
    let p = plan_new_post("Hello World", "published", None, None, "# Hi **there**")
        .ok()
        .unwrap();
    assert_eq!(p.base_slug, "hello-world");
    assert_eq!(p.excerpt.as_deref(), Some("Hi there"));
    assert!(p.publish_now);

    let p = plan_new_post(
        "Hello World",
        "draft",
        Some("custom".to_string()),
        Some("Given".to_string()),
        "ignored",
    )
    .ok()
    .unwrap();
    assert_eq!(p.base_slug, "custom");
    assert_eq!(p.excerpt.as_deref(), Some("Given"));
    assert!(!p.publish_now);
}

#[test]
fn long_content_gets_a_160_byte_excerpt() {
    let content = "word ".repeat(100);
    assert!(excerpt_is_computable(&content));
    let p = plan_new_post("T", "draft", None, None, &content).ok().unwrap();
    let e = p.excerpt.unwrap();
    assert!(e.ends_with("..."));
    assert!(e.len() <= 163);
    assert_eq!(e, format!("{}...", "word ".repeat(32).trim_end()));
}

#[test]
fn post_slugs_are_numbered_from_two_up_to_ninety_nine() {
    let taken = vec!["post".to_string(), "post-2".to_string()];
    assert_eq!(run_search(unique_post_slug("post"), &taken), Some("post-3".to_string()));
    assert_eq!(run_search(unique_post_slug("post"), &[]), Some("post".to_string()));

    let mut all = vec!["p".to_string()];
    for i in 2..=99 {
        all.push(format!("p-{}", i));
    }
    assert_eq!(run_search(unique_post_slug("p"), &all), None);
    all.pop();
    assert_eq!(run_search(unique_post_slug("p"), &all), Some("p-99".to_string()));
}

#[test]
fn publication_timestamp_on_update() {
    type P = PublishedAt<i64>;
    assert_eq!(plan_post_update("draft", None, Some("published")), Ok(P::Now));
    assert_eq!(plan_post_update("published", Some(5), Some("draft")), Ok(P::Unset));
    assert_eq!(plan_post_update("published", Some(5), Some("published")), Ok(P::Existing(Some(5))));
    assert_eq!(plan_post_update("published", Some(5), None), Ok(P::Existing(Some(5))));
    assert_eq!(plan_post_update("draft", Some(5), None), Ok(P::Unset));
    assert_eq!(plan_post_update("draft", None, Some("draft")), Ok(P::Unset));
    assert_eq!(
        plan_post_update::<i64>("draft", None, Some("deleted")),
        Err(BlogError::InvalidStatus("deleted".to_string()))
    );
}

#[test]
fn blog_error_messages() {
    assert_eq!(BlogError::EmptyTitle.message(), "Title cannot be empty");
    assert_eq!(
        BlogError::InvalidStatus("invalid".to_string()).message(),
        "Status must be 'draft' or 'published', got 'invalid'"
    );
    assert_eq!(
        BlogError::SlugExhausted("post".to_string()).message(),
        "Unable to generate unique slug after 100 attempts for base 'post'"
    );
}

#[test]
fn invalid_requests_are_refused_before_the_excerpt() {
    // Content whose 160-byte cut falls inside a character: only a valid
    // request needs its excerpt.
    let content = format!("{}é{}", "a".repeat(159), "b".repeat(10));
    assert!(!excerpt_is_computable(&content));
    let r = plan_new_post("   ", "invalid", None, None, &content);
    assert_eq!(r.err(), Some(BlogError::EmptyTitle));
    let r = plan_new_post("Title", "invalid", None, None, &content);
    assert_eq!(r.err(), Some(BlogError::InvalidStatus("invalid".to_string())));
    assert!(title_is_blank(" \t\n"));
    assert!(!title_is_blank(" x "));
}
