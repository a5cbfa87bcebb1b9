use iskra::config::{push_recent, MAX_RECENT};

#[test]
fn push_recent_moves_an_existing_path_to_the_front() {
    let mut recent = vec!["a".to_string(), "b".to_string(), "c".to_string()];
    push_recent(&mut recent, "b".to_string());
    assert_eq!(recent, vec!["b", "a", "c"]);
}

#[test]
fn push_recent_keeps_at_most_ten() {
    let mut recent: Vec<String> = (0..MAX_RECENT).map(|i| format!("p{i}")).collect();
    push_recent(&mut recent, "new".to_string());
    assert_eq!(recent.len(), MAX_RECENT);
    assert_eq!(recent[0], "new");
    assert_eq!(recent[MAX_RECENT - 1], format!("p{}", MAX_RECENT - 2));
}
