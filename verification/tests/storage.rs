use iskra::date::Date;
use iskra::model::{Idea, Movement, Sermon, SCHEMA_VERSION};
use std::path::PathBuf;

use iskra::storage::{check_schema, filename_for, sort_newest_first, SchemaTooNew};

fn sample() -> Sermon {
    let mut s = Sermon::new();
    s.title = "Fruit in Season".into();
    s.planned_date = Some(Date::from_ymd(2026, 8, 16).unwrap());
    s.s_tags = vec!["Luke 13".into(), "Isaiah 55".into()];
    s.t_tags = vec!["repentance".into()];
    let mut idea = Idea::new();
    idea.text = "The fig tree is not condemned yet".into();
    idea.notes = "Owner wants it cut down.\nGardener asks for one more year.".into();
    idea.idea_tag = "image".into();
    idea.part_tag = "opening".into();
    s.movements[0].ideas.push(idea);
    let mut second = Movement::new(1);
    second.ideas.push(Idea::new());
    s.movements.push(second);
    s
}

#[test]
fn filename_uses_date_slug_and_id() {
    let s = sample();
    let name = filename_for(&s);
    assert!(name.starts_with("2026-08-16-fruit-in-season-"));
    assert!(name.ends_with(".toml"));
}

#[test]
fn filename_falls_back_to_created_date() {
    let mut s = sample();
    s.planned_date = None;
    assert!(filename_for(&s).starts_with(&s.created.date().to_iso_string()));
}

#[test]
fn filename_takes_six_id_characters_skipping_hyphens() {
    let mut s = sample();
    s.id = "ab-cd-ef-gh".into();
    assert_eq!(filename_for(&s), "2026-08-16-fruit-in-season-abcdef.toml");
    s.id = "x-y".into();
    s.title = String::new();
    assert_eq!(filename_for(&s), "2026-08-16-untitled-xy.toml");
}

#[test]
fn schema_too_new_is_rejected() {
    assert_eq!(check_schema(SCHEMA_VERSION), Ok(()));
    assert_eq!(check_schema(0), Ok(()));
    assert_eq!(
        check_schema(SCHEMA_VERSION + 1),
        Err(SchemaTooNew { found: SCHEMA_VERSION + 1, supported: SCHEMA_VERSION })
    );
}

#[test]
fn sort_newest_first_orders_by_filing_day_and_keeps_ties_in_order() {
    let mut older = sample();
    older.planned_date = Some(Date::from_ymd(2026, 1, 4).unwrap());
    let newer = sample();
    let mut tie = sample();
    tie.title = "Same day".into();
    let mut entries = vec![
        (PathBuf::from("older.toml"), older),
        (PathBuf::from("newer.toml"), newer),
        (PathBuf::from("tie.toml"), tie),
    ];
    sort_newest_first(&mut entries);
    let names: Vec<&str> = entries.iter().map(|e| e.0.to_str().unwrap()).collect();
    assert_eq!(names, vec!["newer.toml", "tie.toml", "older.toml"]);
}
