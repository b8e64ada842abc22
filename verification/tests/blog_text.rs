use backend::blog_text::{can_truncate, generate_excerpt, generate_slug, strip_markdown, truncate_text};

#[test]
fn test_generate_slug() {
    assert_eq!(generate_slug("Hello World"), "hello-world");
    assert_eq!(generate_slug("Rust & Actix-Web"), "rust-actix-web");
    assert_eq!(generate_slug("  Multiple   Spaces  "), "multiple-spaces");
    assert_eq!(
        generate_slug("Special!@#$%^&*()Characters"),
        "special-characters"
    );
    assert_eq!(generate_slug(""), "");
}

#[test]
fn test_strip_markdown() {
    assert_eq!(strip_markdown("# Hello **World**"), "Hello World");
    assert_eq!(strip_markdown("[Link](url) with `code`"), "Link with code");
    assert_eq!(strip_markdown("**Bold** and *italic*"), "Bold and italic");
    assert_eq!(strip_markdown("## Header\n\nParagraph"), "Header Paragraph");
}

#[test]
fn test_strip_markdown_code_blocks() {
    let markdown = "Text before\n```rust\ncode here\n```\nText after";
    assert_eq!(strip_markdown(markdown), "Text before Text after");
}

#[test]
fn test_truncate_text() {
    assert_eq!(truncate_text("Short text", 20), "Short text");
    assert_eq!(
        truncate_text("This is a very long text", 10),
        "This is a..."
    );
    assert_eq!(truncate_text("NoSpacesHere", 5), "NoSpa...");
}

#[test]
fn test_generate_excerpt() {
    let markdown = "# Hello\n\nThis is a **bold** statement with [link](url).";
    let excerpt = generate_excerpt(markdown, 20);
    assert!(excerpt.len() <= 23); // 20 + "..."
    assert!(excerpt.starts_with("Hello"));
}

#[test]
fn test_generate_excerpt_short_content() {
    let markdown = "Short";
    assert_eq!(generate_excerpt(markdown, 160), "Short");
}

#[test]
fn generate_slug_keeps_unicode_letters_and_digits() {
    assert_eq!(generate_slug("Café 42 Über"), "café-42-über");
    assert_eq!(generate_slug("---"), "");
    assert_eq!(generate_slug("a--b"), "a-b");
}

#[test]
fn strip_markdown_unclosed_constructs_are_kept() {
    // An unclosed fence stays, and so does a bracket that starts no link.
    assert_eq!(strip_markdown("a ``` b"), "a b");
    assert_eq!(strip_markdown("[not a link"), "[not a link");
    // The link text runs from the first '[' to the first "](" after it.
    assert_eq!(strip_markdown("see [x] and [y](z)"), "see x] and [y");
}

#[test]
fn strip_markdown_nested_links_and_headings() {
    assert_eq!(strip_markdown("[a](b) [c](d)"), "a c");
    assert_eq!(strip_markdown("### Title\n  # not heading"), "Title # not heading");
    assert_eq!(strip_markdown("snake_case and __init__"), "snakecase and init");
    assert_eq!(strip_markdown(""), "");
}

#[test]
fn truncate_text_edges() {
    assert_eq!(truncate_text("exact", 5), "exact");
    assert_eq!(truncate_text("ab cd", 0), "...");
    assert_eq!(truncate_text("ab cd ef", 5), "ab...");
    // Byte lengths: "é" is two bytes.
    assert_eq!(truncate_text("éé", 2), "é...");
    assert!(can_truncate("éé", 2));
    assert!(!can_truncate("éé", 1));
    assert!(!can_truncate("é", 1));
    assert!(can_truncate("é", 2));
}

#[test]
fn title_slugs_have_no_stray_hyphens() {
    for title in ["--Hello--World--", " a - - b ", "!!!x!!!", "Ünïcödé & Co.", "---", "one"] {
        let s = generate_slug(title);
        assert!(!s.starts_with('-'), "{}", s);
        assert!(!s.ends_with('-'), "{}", s);
        assert!(!s.contains("--"), "{}", s);
    }
}

#[test]
fn plain_text_is_single_spaced() {
    for md in ["  # A \n\n  b\t\tc  ", "**x**   *y*\n\n\n`z`", "\u{a0}lead and trail\u{2003}"] {
        let t = strip_markdown(md);
        assert!(!t.starts_with(char::is_whitespace), "{:?}", t);
        assert!(!t.ends_with(char::is_whitespace), "{:?}", t);
        assert!(!t.contains("  "), "{:?}", t);
        assert!(t.chars().all(|c| c == ' ' || !c.is_whitespace()), "{:?}", t);
    }
    // A heading mark after leading spaces is not at the start of its line.
    assert_eq!(strip_markdown("  # A \n\n  b\t\tc  "), "# A b c");
}

#[test]
fn truncation_adds_at_most_three_bytes() {
    let text = "The quick brown fox jumps over the lazy dog";
    for max in 0..=text.len() {
        let t = truncate_text(text, max);
        assert!(t.len() <= max + 3);
        if text.len() > max {
            assert!(t.ends_with("..."));
        } else {
            assert_eq!(t, text);
        }
    }
}

#[test]
fn plain_text_has_no_markers() {
    for md in ["**bold** _it_ `code` ```unclosed", "a*b_c`d", "[*x*](u) __y__"] {
        let t = strip_markdown(md);
        assert!(!t.contains(['*', '_', '`']), "{}", t);
    }
    assert_eq!(strip_markdown("[*x*](u) __y__"), "x y");
}

#[test]
fn truncation_cuts_before_a_space() {
    let text = "alpha beta gamma delta";
    for max in 0..text.len() {
        let t = truncate_text(text, max);
        let kept = &t[..t.len() - 3];
        assert!(text.starts_with(kept));
        if text[..max].contains(' ') {
            assert_eq!(text.as_bytes()[kept.len()], b' ');
        } else {
            assert_eq!(kept.len(), max);
        }
    }
}
