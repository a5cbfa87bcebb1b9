use std::path::PathBuf;

use iskra::commands::SermonTagKind;
use iskra::library::{quick_picks, tag_suggestions, Census, LibraryFilter, LibraryIndex};
use iskra::model::{Idea, Movement, Sermon};

fn seeded() -> LibraryIndex {
    let mut a = Sermon::new();
    a.title = "Fruit in Season".into();
    a.s_tags = vec!["Luke 13".into()];
    a.t_tags = vec!["repentance".into()];
    a.series = Some("Parables".into());
    let mut idea = Idea::new();
    idea.text = "The fig tree is not condemned yet".into();
    idea.idea_tag = "image".into();
    a.movements[0].ideas.push(idea);

    let mut b = Sermon::new();
    b.title = "Bread for the Journey".into();
    b.t_tags = vec!["provision".into(), "repentance".into()];
    let mut m2 = Movement::new(1);
    let mut idea2 = Idea::new();
    idea2.text = "manna in the wilderness".into();
    idea2.idea_tag = "image".into();
    m2.ideas.push(idea2);
    b.movements.push(m2);

    LibraryIndex { sermons: vec![(PathBuf::from("a.toml"), a), (PathBuf::from("b.toml"), b)] }
}

#[test]
fn filter_matches_title() {
    let idx = seeded();
    assert_eq!(idx.filter("fruit", None).len(), 1);
    assert_eq!(idx.filter("bread", None).len(), 1);
    assert_eq!(idx.filter("", None).len(), 2);
}

#[test]
fn filter_matches_idea_text_and_tags() {
    let idx = seeded();
    assert_eq!(idx.filter("manna", None).len(), 1);
    assert_eq!(idx.filter("luke 13", None).len(), 1);
}

#[test]
fn filter_by_sermon_tag() {
    let idx = seeded();
    assert_eq!(
        idx.filter("", Some(&LibraryFilter::Tag(SermonTagKind::T, "repentance".into()))).len(),
        2
    );
    assert_eq!(idx.filter("", Some(&LibraryFilter::Tag(SermonTagKind::S, "Luke 13".into()))).len(), 1);
}

#[test]
fn series_census_and_filter() {
    let idx = seeded();
    assert_eq!(idx.series_census().get("Parables"), Some(&1));
    assert_eq!(idx.filter("", Some(&LibraryFilter::Series("Parables".into()))).len(), 1);
    assert_eq!(idx.filter("", Some(&LibraryFilter::Series("Nonexistent".into()))).len(), 0);
}

#[test]
fn tag_census_counts_occurrences() {
    let idx = seeded();
    assert_eq!(idx.t_tag_census().get("repentance"), Some(&2));
    assert_eq!(idx.idea_tag_census().get("image"), Some(&2));
}

#[test]
fn census_is_ordered_and_skips_empty_values() {
    let idx = seeded();
    let t = idx.t_tag_census();
    let keys: Vec<&str> = t.entries.iter().map(|e| e.0.as_str()).collect();
    assert_eq!(keys, vec!["provision", "repentance"]);
    assert_eq!(t.len(), 2);
    let parts = idx.part_tag_census();
    assert_eq!(parts.len(), 0);
    assert_eq!(parts.get(""), None);
    assert_eq!(idx.s_tag_census().get("Luke 13"), Some(&1));
    assert_eq!(idx.series_census().len(), 1);
}

#[test]
fn filter_query_is_trimmed_and_case_insensitive_and_keeps_order() {
    let idx = seeded();
    let found = idx.filter("  REPENTANCE ", None);
    assert_eq!(found.len(), 2);
    assert_eq!(found[0].1.title, "Fruit in Season");
    assert_eq!(found[1].1.title, "Bread for the Journey");
    assert!(idx.filter("nowhere", None).is_empty());
}

#[test]
fn quick_picks_offer_the_most_used_first() {
    let census = Census {
        entries: vec![
            ("alpha".to_string(), 1),
            ("beta".to_string(), 3),
            ("delta".to_string(), 3),
            ("gamma".to_string(), 2),
        ],
    };
    assert_eq!(quick_picks(&census), vec!["beta", "delta", "gamma", "alpha"]);
    let many = Census { entries: (0..9).map(|i| (format!("t{i}"), 1)).collect() };
    assert_eq!(quick_picks(&many).len(), 6);
}

#[test]
fn tag_suggestions_match_inside_values_but_not_the_typed_value_itself() {
    let census = Census {
        entries: vec![
            ("Grace".to_string(), 1),
            ("grace".to_string(), 1),
            ("Graceful".to_string(), 2),
            ("Mercy".to_string(), 1),
        ],
    };
    assert_eq!(tag_suggestions(&census, "GRACE"), vec!["Graceful"]);
    assert_eq!(tag_suggestions(&census, "rc"), vec!["Mercy"]);
    assert!(tag_suggestions(&census, "").is_empty());
}
