use backend::slug_utils::SlugUtils;
use backend::user_slug::{SlugSearch, SlugStep};

type Utils = SlugUtils<()>;

fn run_search(mut search: SlugSearch, taken: &[String]) -> Option<String> {
    loop {
        let candidate = search.candidate();
        let is_taken = taken.contains(&candidate);
        match search.step(is_taken) {
            SlugStep::Found(s) => return Some(s),
            SlugStep::Next(next) => search = next,
            SlugStep::Exhausted => return None,
        }
    }
}

fn preview(base: &str, taken: &[String], timestamp: i64) -> (bool, String) {
    let outcome = run_search(Utils::find_available_slug(base), taken);
    Utils::available_slug(base, outcome, timestamp)
}

#[test]
fn preview_slugs_from_display_names() {
    assert_eq!(Utils::generate_slug("John Doe"), "john-doe");
    assert_eq!(Utils::generate_slug("  Café Owner  "), "café-owner");
    assert_eq!(Utils::generate_slug("a  b"), "a--b");
    assert_eq!(Utils::generate_slug("-Hello, World!-"), "hello-world");
    assert_eq!(Utils::generate_slug("!!!"), "");
    assert_eq!(Utils::generate_slug("user_name 42"), "username-42");
}

#[test]
fn a_free_base_is_available() {
    assert_eq!(preview("kenn", &[], 1), (true, "kenn".to_string()));
}

#[test]
fn taken_bases_get_numbered_from_two() {
    let taken = vec!["kenn".to_string()];
    assert_eq!(preview("kenn", &taken, 1), (false, "kenn-2".to_string()));
    let taken = vec!["kenn".to_string(), "kenn-2".to_string(), "kenn-3".to_string()];
    assert_eq!(preview("kenn", &taken, 1), (false, "kenn-4".to_string()));
}

#[test]
fn exhausted_searches_fall_back_to_the_timestamp() {
    let mut taken = vec!["x".to_string()];
    for i in 2..=999 {
        taken.push(format!("x-{}", i));
    }
    assert_eq!(preview("x", &taken, 1_700_000_000), (false, "x-1700000000".to_string()));
    assert_eq!(Utils::available_slug("x", None, -5), (false, "x--5".to_string()));
    assert_eq!(
        Utils::available_slug("x", None, i64::MIN),
        (false, "x--9223372036854775808".to_string())
    );
    taken.pop();
    assert_eq!(preview("x", &taken, 7), (false, "x-999".to_string()));
}

#[test]
fn the_store_handle_is_kept() {
    let u = SlugUtils::new(5u8);
    assert_eq!(*u.pool(), 5);
}

#[test]
fn available_exactly_when_unchanged() {
    for (outcome, ts) in [(Some("k".to_string()), 0i64), (Some("k-2".to_string()), 0), (None, 3), (None, -3)] {
        let (available, slug) = Utils::available_slug("k", outcome, ts);
        assert_eq!(available, slug == "k");
    }
}

#[test]
fn canonical_slugs() {
    assert!(Utils::is_canonical_slug("kenn-williamson"));
    assert!(Utils::is_canonical_slug("café-2"));
    assert!(!Utils::is_canonical_slug("Kenn"));
    assert!(!Utils::is_canonical_slug("-kenn"));
    assert!(!Utils::is_canonical_slug("kenn williamson"));
    assert!(!Utils::is_canonical_slug("kenn_w"));
}
