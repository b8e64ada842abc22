use backend::user_slug::{
    ensure_unique_slug, generate_slug, generate_slug_from_display_name, is_valid_slug,
    SlugError, SlugSearch, SlugStep,
};

#[test]
fn test_is_valid_slug() {
    // Valid slugs
    assert!(is_valid_slug("kenn"));
    assert!(is_valid_slug("john-doe"));
    assert!(is_valid_slug("user123"));
    assert!(is_valid_slug("test-user-123"));
    assert!(is_valid_slug("a"));
    assert!(is_valid_slug("123"));

    // Invalid slugs
    assert!(!is_valid_slug("")); // Empty
    assert!(!is_valid_slug("-kenn")); // Leading hyphen
    assert!(!is_valid_slug("kenn-")); // Trailing hyphen
    assert!(!is_valid_slug("Kenn")); // Uppercase letters
    assert!(!is_valid_slug("kenn_williamson")); // Underscore
    assert!(!is_valid_slug("kenn%20williamson")); // URL-encoded characters
    assert!(!is_valid_slug("kenn@williamson")); // Special characters
    assert!(!is_valid_slug("kenn williamson")); // Spaces
    assert!(!is_valid_slug("kenn.williamson")); // Dots
    assert!(!is_valid_slug("kenn+williamson")); // Plus signs
}

#[test]
fn test_generate_slug_from_display_name() {
    // Test cases: (input, expected_output)
    let test_cases = vec![
        ("John Doe", "john-doe"),
        ("John's Café & Bar!", "johns-caf-bar"), // Special chars + accented chars
        ("José María", "jos-mara"),              // Accented characters (é and í filtered out)
        ("John    Doe   Smith", "john-doe-smith"), // Multiple spaces
        ("User123", "user123"),                  // Numbers
        ("Test-User", "test-user"),              // Already has hyphens
        ("UPPERCASE", "uppercase"),              // Case conversion
        ("Mixed123Case", "mixed123case"),        // Mixed case + numbers
        ("Special@#$%", "special"),              // Only special chars (some valid)
        ("   Spaces   ", "spaces"),              // Leading/trailing spaces
    ];

    for (input, expected) in test_cases {
        let result = generate_slug_from_display_name(input);
        assert_eq!(result, expected, "Failed for input: '{}'", input);
    }
}

/// Drive a search with a set of taken slugs.
fn run_search(mut search: SlugSearch, taken: &[&str]) -> Option<String> {
    loop {
        let candidate = search.candidate();
        let is_taken = taken.contains(&candidate.as_str());
        match search.step(is_taken) {
            SlugStep::Found(s) => return Some(s),
            SlugStep::Next(next) => search = next,
            SlugStep::Exhausted => return None,
        }
    }
}

#[test]
fn generates_unique_slug_when_exists() {
    let search = generate_slug("John Doe").ok().unwrap();
    assert_eq!(run_search(search, &["john-doe"]), Some("john-doe-1".to_string()));
}

#[test]
fn generates_slugs_with_various_inputs() {
    let search = generate_slug("John's Café & Bar!").ok().unwrap();
    assert_eq!(run_search(search, &[]), Some("johns-caf-bar".to_string()));
}

#[test]
fn generate_slug_rejects_names_without_letters_or_digits() {
    for input in ["!!!@@@###", "   ", "---", "!!!", "   !!!   ", "😀🎉🎊"] {
        assert!(matches!(generate_slug(input), Err(SlugError::NoLetterOrNumber)));
    }
}

#[test]
fn registration_search_gives_up_after_998_numbered_variants() {
    let mut taken: Vec<String> = vec!["x".to_string()];
    for i in 1..=997 {
        taken.push(format!("x-{}", i));
    }
    let refs: Vec<&str> = taken.iter().map(|s| s.as_str()).collect();
    let search = generate_slug("x").ok().unwrap();
    assert_eq!(run_search(search, &refs), Some("x-998".to_string()));
    taken.push("x-998".to_string());
    let refs: Vec<&str> = taken.iter().map(|s| s.as_str()).collect();
    let search = generate_slug("x").ok().unwrap();
    assert_eq!(run_search(search, &refs), None);
}

#[test]
fn oauth_search_numbers_from_one() {
    let search = ensure_unique_slug("jane");
    assert_eq!(
        run_search(search, &["jane", "jane-1", "jane-2"]),
        Some("jane-3".to_string())
    );
}

#[test]
fn display_name_slugs_are_ascii_slugs() {
    for name in ["  -John-  ", "A  -  B", "José María", "snake_case", "Ω mega 9", "---"] {
        let s = generate_slug_from_display_name(name);
        assert!(s.chars().all(|c| c.is_ascii_alphanumeric() || c == '-'), "{}", s);
        assert!(!s.starts_with('-') && !s.ends_with('-'), "{}", s);
        assert_eq!(is_valid_slug(&s), !s.is_empty(), "{}", s);
    }
    assert_eq!(generate_slug_from_display_name("A  -  B"), "a---b");
}

#[test]
fn display_name_slugs_are_empty_only_without_ascii_letters_or_digits() {
    for name in ["---", "!!!", "   ", "😀🎉🎊", "éàü", "x", "Z9", "a-b", " _ 1 _ "] {
        let s = generate_slug_from_display_name(name);
        let has = name.to_lowercase().chars().any(|c| c.is_ascii_alphanumeric());
        assert_eq!(s.is_empty(), !has, "{}", name);
        assert!(s.is_empty() || is_valid_slug(&s), "{}", name);
    }
}
