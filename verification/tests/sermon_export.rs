use iskra::date::Date;
use iskra::model::{Idea, LectionaryLink, Movement, Sermon};
use iskra::sermon_export::{export_doc, export_filename, file_date, render_typst_body, tag_suffix, typst_escape};

fn sample_sermon() -> Sermon {
    let mut s = Sermon::new();
    s.title = "Fruit in Season".into();
    s.planned_date = Some(Date::from_ymd(2026, 8, 16).unwrap());
    s.s_tags = vec!["Luke 13".into()];
    s.t_tags = vec!["repentance".into()];
    s.movements.clear();

    let mut m = Movement::new(0);
    m.name = "Movement One".into();
    let mut idea1 = Idea::new();
    idea1.text = "The fig tree is not yet fruitless".into();
    idea1.notes = "Owner wants it cut down.\nGardener asks for one more year.".into();
    let mut idea2 = Idea::new();
    idea2.text = "Patience is not passivity".into();
    idea2.idea_tag = "image".into();
    idea2.part_tag = "closing".into();
    m.ideas.push(idea1);
    m.ideas.push(idea2);
    s.movements.push(m);
    s
}

#[test]
fn escape_table_matches_rubric_order_and_backslash_form() {
    assert_eq!(typst_escape("a\\b"), "a\\u{5c}b");
    assert_eq!(typst_escape("#hashtag"), "\\#hashtag");
    assert_eq!(typst_escape("*bold* _italic_"), "\\*bold\\* \\_italic\\_");
    assert_eq!(typst_escape("$math$ `code`"), "\\$math\\$ \\`code\\`");
    assert_eq!(typst_escape("a<b>c"), "a\\<b\\>c");
    assert_eq!(typst_escape("plain text"), "plain text");
}

#[test]
fn body_renders_heading_numbered_bullets_and_notes() {
    let body = render_typst_body(&sample_sermon(), false);
    assert_eq!(
        body,
        "= Movement One\n\
         - *1.* The fig tree is not yet fruitless\n\
         \x20\x20Owner wants it cut down.\n\
         \x20\x20Gardener asks for one more year.\n\
         - *2.* Patience is not passivity"
    );
}

#[test]
fn sermon_export_numbering_is_continuous_across_movements() {
    let mut s = sample_sermon();
    let mut m2 = Movement::new(1);
    m2.name = "Movement Two".into();
    let mut idea3 = Idea::new();
    idea3.text = "Third idea".into();
    m2.ideas.push(idea3);
    s.movements.push(m2);

    let body = render_typst_body(&s, false);
    assert!(body.contains("- *3.* Third idea"));
    assert!(body.contains("= Movement Two"));
}

#[test]
fn tag_suffix_included_only_when_toggled_and_present() {
    let s = sample_sermon();
    let without = render_typst_body(&s, false);
    assert!(!without.contains("_[image"));

    let with = render_typst_body(&s, true);
    assert!(with.contains("- *2.* Patience is not passivity _[image · closing]_"));
    assert!(with.contains("- *1.* The fig tree is not yet fruitless\n"));
}

#[test]
fn user_text_is_escaped_in_body() {
    let mut s = sample_sermon();
    s.movements[0].ideas[0].text = "Cost is $5 and *urgent*".into();
    let body = render_typst_body(&s, false);
    assert!(body.contains("Cost is \\$5 and \\*urgent\\*"));
}

#[test]
fn export_filename_uses_date_and_slug() {
    let s = sample_sermon();
    assert_eq!(export_filename(&s), "2026-08-16-fruit-in-season.sermon");
}

#[test]
fn export_doc_carries_title_date_tags_and_body() {
    let s = sample_sermon();
    let doc = export_doc(&s, true, "iskra 0.1.0");
    assert_eq!(doc.spec_version, 1);
    assert_eq!(doc.generator, "iskra 0.1.0");
    assert_eq!(doc.sermon.title, "Fruit in Season");
    assert_eq!(doc.sermon.date, "2026-08-16");
    assert_eq!(doc.sermon.id, s.id);
    assert_eq!(doc.sermon.s_tags, vec!["Luke 13"]);
    assert_eq!(doc.sermon.t_tags, vec!["repentance"]);
    assert!(doc.typst.contains("= Movement One"));
    assert_eq!(doc.typst, render_typst_body(&s, true));
}

#[test]
fn export_doc_omits_lectionary_fields_without_a_link() {
    let mut s = sample_sermon();
    s.planned_date = None;
    s.lectionary = None;
    let doc = export_doc(&s, false, "g");
    assert_eq!(doc.sermon.date, "");
    assert!(doc.sermon.season.is_none());
    assert!(doc.sermon.lectionary_week.is_none());
    assert!(doc.sermon.gospel.is_none());
}

#[test]
fn export_doc_copies_the_lectionary_link() {
    let mut s = sample_sermon();
    s.lectionary = Some(LectionaryLink {
        source: iskra::lectionary::LectionaryKind::Rcl,
        week: "Proper 15, Year C".into(),
        season: "Ordinary".into(),
        year: "C".into(),
        colour: "Green".into(),
        colour_hex: "#15803D".into(),
        readings: vec![
            ("OT".into(), "Jer 23:23-29".into()),
            ("Psalm".into(), "Ps 82".into()),
            ("Epistle".into(), "Heb 11:29-12:2".into()),
            ("Gospel".into(), "Luke 12:49-56".into()),
        ],
        ot: "Jer 23:23-29".into(),
        psalm: String::new(),
        epistle: String::new(),
        gospel: "Luke 12:49-56".into(),
    });
    let doc = export_doc(&s, false, "g");
    assert_eq!(doc.sermon.lectionary_week.as_deref(), Some("Proper 15, Year C"));
    assert_eq!(doc.sermon.season.as_deref(), Some("Ordinary"));
    assert_eq!(doc.sermon.gospel.as_deref(), Some("Luke 12:49-56"));
    assert_eq!(doc.sermon.ot.as_deref(), Some("Jer 23:23-29"));
    assert_eq!(doc.sermon.psalm.as_deref(), Some(""));
}

#[test]
fn tag_suffix_forms() {
    assert_eq!(tag_suffix("", ""), "");
    assert_eq!(tag_suffix("image", ""), " _[image]_");
    assert_eq!(tag_suffix("", "closing"), " _[closing]_");
    assert_eq!(tag_suffix("image", "closing"), " _[image · closing]_");
}

#[test]
fn file_date_falls_back_to_created_day() {
    let mut s = sample_sermon();
    assert_eq!(file_date(&s), "2026-08-16");
    s.planned_date = None;
    assert_eq!(file_date(&s).len(), 10);
}
