use iskra::bible::{citation_query_at_cursor, find_citations, render_display, search_books, sort_key};

#[test]
fn parses_simple_citation() {
    let found = find_citations("Read @john3:16 aloud");
    assert_eq!(found.len(), 1);
    assert_eq!(found[0].citation.display(), "John 3:16");
    assert_eq!(&"Read @john3:16 aloud"[found[0].start..found[0].end], "@john3:16");
}

#[test]
fn parses_with_space_and_verse_range() {
    let found = find_citations("@1 Cor 13:4-7");
    assert_eq!(found.len(), 1);
    assert_eq!(found[0].citation.display(), "1 Corinthians 13:4-7");
}

#[test]
fn parses_numbered_book_without_space() {
    let found = find_citations("@1cor13:4");
    assert_eq!(found.len(), 1);
    assert_eq!(found[0].citation.book, "1 Corinthians");
}

#[test]
fn ignores_incomplete_citation() {
    assert!(find_citations("@john").is_empty());
    assert!(find_citations("@john3").is_empty());
    assert!(find_citations("@john3:").is_empty());
    assert!(find_citations("@notabook3:16").is_empty());
}

#[test]
fn finds_multiple_citations() {
    let found = find_citations("@john3:16 and also @rom8:28");
    assert_eq!(found.len(), 2);
    assert_eq!(found[0].citation.display(), "John 3:16");
    assert_eq!(found[1].citation.display(), "Romans 8:28");
}

#[test]
fn render_display_substitutes_in_place() {
    assert_eq!(render_display("See @john3:16 for it."), "See John 3:16 for it.");
    assert_eq!(render_display("no citation here"), "no citation here");
}

#[test]
fn citation_query_finds_in_progress_book_name() {
    let text = "Read @jo";
    let cursor = text.len();
    let (start, end, query) = citation_query_at_cursor(text, cursor).unwrap();
    assert_eq!(&text[start..end], "@jo");
    assert_eq!(query, "jo");
}

#[test]
fn citation_query_none_once_digit_typed() {
    assert!(citation_query_at_cursor("Read @john3", 11).is_none());
}

#[test]
fn citation_query_none_without_at() {
    assert!(citation_query_at_cursor("no at sign here", 5).is_none());
}

#[test]
fn search_books_matches_prefix_and_alias() {
    assert!(search_books("jo").contains(&"John"));
    assert!(search_books("jo").contains(&"Job"));
    assert!(search_books("1co").contains(&"1 Corinthians"));
    assert!(search_books("xyz").is_empty());
}

#[test]
fn sort_key_orders_canonically() {
    let mut tags = vec!["Romans 8:28".to_string(), "Genesis 1:1".to_string(), "John 3:16".to_string()];
    tags.sort_by_key(|t| sort_key(t));
    assert_eq!(tags, vec!["Genesis 1:1", "John 3:16", "Romans 8:28"]);
}

#[test]
fn sort_key_handles_verse_ranges_and_unrecognized_tags() {
    let mut tags = vec!["repentance".to_string(), "Isaiah 55:1-13".to_string()];
    tags.sort_by_key(|t| sort_key(t));
    assert_eq!(tags, vec!["Isaiah 55:1-13", "repentance"]);
}

#[test]
fn citation_with_multibyte_text_before_reports_byte_offsets() {
    let text = "Léon @rom8:28";
    let found = find_citations(text);
    assert_eq!(found.len(), 1);
    assert_eq!(&text[found[0].start..found[0].end], "@rom8:28");
    assert_eq!(found[0].citation.chapter, 8);
    assert_eq!(found[0].citation.verse_start, 28);
    assert_eq!(found[0].citation.verse_end, None);
}

#[test]
fn render_display_keeps_incomplete_citations_as_typed() {
    assert_eq!(render_display("@john3: and @rom8:28"), "@john3: and Romans 8:28");
}

#[test]
fn citation_query_with_cursor_past_the_end_is_clamped() {
    let (start, end, query) = citation_query_at_cursor("x @ge", 100).unwrap();
    assert_eq!((start, end), (2, 5));
    assert_eq!(query, "ge");
}

#[test]
fn search_books_empty_query_gives_nothing() {
    assert!(search_books("").is_empty());
}

#[test]
fn render_display_replaces_exactly_the_found_spans() {
    let text = "See @john3:16 and @rom8:28-30, not @nothing1:1 or @ps";
    let found = find_citations(text);
    let mut expected = String::new();
    let mut at = 0;
    for f in &found {
        assert_eq!(&text[f.start..f.start + 1], "@");
        assert!(f.start < f.end && f.end <= text.len() && at <= f.start);
        expected.push_str(&text[at..f.start]);
        expected.push_str(&f.citation.display());
        at = f.end;
    }
    expected.push_str(&text[at..]);
    assert_eq!(found.len(), 2);
    assert_eq!(render_display(text), expected);
    assert_eq!(render_display("no citation here"), "no citation here");
}

#[test]
fn a_found_citation_read_alone_is_that_citation() {
    let text = "Read @1cor13:4-7, then @john3:16-x and @ps23:1.";
    for f in find_citations(text) {
        let alone = &text[f.start..f.end];
        let again = find_citations(alone);
        assert_eq!(again.len(), 1, "{alone}");
        assert_eq!((again[0].start, again[0].end), (0, f.end - f.start));
        assert_eq!(again[0].citation.display(), f.citation.display());
    }
}
