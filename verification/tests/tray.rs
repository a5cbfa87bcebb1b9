use iskra::commands::Cmd;
use iskra::editing::{record_deletions, restore_cmd, sermon_deletions, MAX_RECENT_DELETIONS};
use iskra::model::{DeletedRecord, Idea, Movement, Sermon};

fn idea_record(sermon_id: &str, text: &str, movement: usize, index: usize) -> DeletedRecord {
    let mut idea = Idea::new();
    idea.text = text.into();
    DeletedRecord::Idea { sermon_id: sermon_id.into(), movement, index, idea }
}

#[test]
fn record_deletions_puts_newest_first_and_caps_the_tray() {
    let mut list = vec![idea_record("s", "old", 0, 0)];
    record_deletions(&mut list, vec![idea_record("s", "a", 0, 0), idea_record("s", "b", 0, 0)]);
    let labels: Vec<String> = list.iter().map(|r| r.label()).collect();
    assert_eq!(labels, vec!["b", "a", "old"]);
    let many: Vec<DeletedRecord> = (0..30).map(|i| idea_record("s", &format!("{i}"), 0, 0)).collect();
    record_deletions(&mut list, many);
    assert_eq!(list.len(), MAX_RECENT_DELETIONS);
    assert_eq!(list[0].label(), "29");
}

#[test]
fn tray_offers_only_the_open_sermons_deletions() {
    let list = vec![idea_record("a", "one", 0, 0), idea_record("b", "two", 0, 0), idea_record("a", "", 0, 0)];
    assert_eq!(sermon_deletions(&list, "a"), vec![(0, "one".to_string()), (2, "(untitled idea)".to_string())]);
    assert!(sermon_deletions(&list, "c").is_empty());
}

#[test]
fn restore_clamps_into_the_current_shape() {
    let mut s = Sermon::new();
    s.movements[0].ideas.push(Idea::new());
    match restore_cmd(&s, idea_record(&s.id, "back", 5, 9)).unwrap() {
        Cmd::InsertIdea { movement, index, idea } => {
            assert_eq!((movement, index), (0, 1));
            assert_eq!(idea.text, "back");
        }
        _ => panic!("an insertion"),
    }
    let m = Movement::new(3);
    match restore_cmd(&s, DeletedRecord::Movement { sermon_id: s.id.clone(), at: 7, movement: m }).unwrap() {
        Cmd::InsertMovement { at, .. } => assert_eq!(at, 1),
        _ => panic!("an insertion"),
    }
    s.movements.clear();
    assert!(restore_cmd(&s, idea_record(&s.id, "lost", 0, 0)).is_none());
}
