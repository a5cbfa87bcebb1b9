use iskra::model::{Idea, Movement, Sermon};
use iskra::palette::{default_commands, highlight_match, markup_escape, outline_items};

#[test]
fn highlight_match_wraps_the_match_in_bold() {
    let out = highlight_match("hello world", "world");
    assert_eq!(out, "hello <b>world</b>");
}

#[test]
fn highlight_match_does_not_panic_when_lowercasing_shifts_byte_offsets_mid_character() {
    let text = "stanİ日";
    let out = highlight_match(text, "stan");
    assert!(out.contains("<b>"), "should still produce a highlighted result: {out}");
}

#[test]
fn highlight_match_returns_escaped_text_unchanged_when_no_match() {
    let out = highlight_match("<tag> hello", "zzz");
    assert_eq!(out, "&lt;tag&gt; hello");
}

#[test]
fn outline_items_lists_movements_and_ideas_in_order() {
    let mut s = Sermon::new();
    s.movements.clear();
    let mut m = Movement::new(0);
    m.name = "Movement One".into();
    let mut idea = Idea::new();
    idea.text = "First idea".into();
    m.ideas.push(idea);
    s.movements.push(m);

    let items = outline_items(&s);
    assert_eq!(items.len(), 2);
    assert!(items[0].label.contains("Movement One"));
    assert!(items[1].label.contains("First idea"));
}

#[test]
fn highlight_match_is_case_insensitive_and_escapes_each_part() {
    assert_eq!(highlight_match("Grace & Truth", "TRUTH".to_lowercase().as_str()), "Grace &amp; <b>Truth</b>");
    assert_eq!(highlight_match("a<b", ""), "a&lt;b");
    assert_eq!(highlight_match("Ärger", "är"), "<b>Är</b>ger");
}

#[test]
fn highlight_match_widens_to_whole_characters() {
    // 'İ' lowercases to two characters, so the lowercased text is one byte
    // longer; a match after it lands mid-character and is widened.
    let out = highlight_match("İx日", "x");
    assert!(out.contains("<b>"));
    assert!(!out.contains('\u{fffd}'));
}

#[test]
fn markup_escape_writes_entities_and_control_references() {
    assert_eq!(markup_escape("a & b < c > d 'e' \"f\""), "a &amp; b &lt; c &gt; d &#39;e&#39; &quot;f&quot;");
    assert_eq!(markup_escape("tab\there\nnew"), "tab\there\nnew");
    assert_eq!(markup_escape("\u{1}\u{1f}\u{7f}\u{85}\u{9f}"), "&#x1;&#x1f;&#x7f;\u{85}&#x9f;");
}

#[test]
fn outline_rows_carry_ids_counts_and_placeholders() {
    let mut s = Sermon::new();
    s.movements.clear();
    let mut m = Movement::new(0);
    m.ideas.push(Idea::new());
    let mid = m.id.clone();
    let iid = m.ideas[0].id.clone();
    s.movements.push(m);
    let items = outline_items(&s);
    assert_eq!(items[0].id, format!("movement:{mid}"));
    assert_eq!(items[0].label, "≡ Movement One");
    assert_eq!(items[0].subtitle, "1 idea(s)");
    assert_eq!(items[1].id, format!("idea:{iid}"));
    assert_eq!(items[1].label, "  · (untitled idea)");
    assert_eq!(items[1].subtitle, "Movement One");
}

#[test]
fn default_commands_lists_the_builtin_actions() {
    let items = default_commands();
    assert_eq!(items.len(), 10);
    assert_eq!(items[0].id, "new_sermon");
    assert_eq!(items[5].label, "Undo");
    assert_eq!(items[9].subtitle, "View what's changed in this version");
}
