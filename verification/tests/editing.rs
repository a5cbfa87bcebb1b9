use iskra::commands::{Cmd, TagKind, UndoStack};
use iskra::editing::{
    bulk_delete_cmd, idea_drop_cmd, idea_text_edit_cmd, ideas_drop_cmd, merge_into_previous_cmd,
    move_movement_cmd, movement_drop_cmd, parse_payload, rename_tag_everywhere, split_movement_cmd,
    DragPayload, DropTarget,
};
use iskra::model::{Idea, Movement, Sermon};

fn sermon() -> Sermon {
    let mut s = Sermon::new();
    s.movements.clear();
    for m in 0..2 {
        let mut mv = Movement::new(m);
        for k in 0..3 {
            let mut i = Idea::new();
            i.text = format!("{m}.{k}");
            i.idea_tag = if k == 1 { "image".into() } else { String::new() };
            mv.ideas.push(i);
        }
        s.movements.push(mv);
    }
    s
}

fn texts(s: &Sermon) -> Vec<Vec<String>> {
    s.movements.iter().map(|m| m.ideas.iter().map(|i| i.text.clone()).collect()).collect()
}

#[test]
fn bulk_delete_removes_the_selection_and_undoes_in_one_step() {
    let mut s = sermon();
    let before = s.clone();
    let ids = vec![
        s.movements[0].ideas[0].id.clone(),
        s.movements[1].ideas[2].id.clone(),
        s.movements[0].ideas[2].id.clone(),
        "missing".to_string(),
    ];
    let cmd = bulk_delete_cmd(&s, &ids).expect("three ideas are selected");
    match &cmd {
        Cmd::Composite(cs) => {
            let positions: Vec<(usize, usize)> = cs
                .iter()
                .map(|c| match c {
                    Cmd::DeleteIdea { movement, index, .. } => (*movement, *index),
                    _ => panic!("only deletions"),
                })
                .collect();
            assert_eq!(positions, vec![(1, 2), (0, 2), (0, 0)]);
        }
        _ => panic!("a composite"),
    }
    let mut stack = UndoStack::new();
    stack.push_applying(&mut s, cmd);
    assert_eq!(texts(&s), vec![vec!["0.1".to_string()], vec!["1.0".to_string(), "1.1".to_string()]]);
    assert!(stack.undo(&mut s));
    assert_eq!(s, before);
}

#[test]
fn bulk_delete_of_nothing_found_is_none() {
    let s = sermon();
    assert!(bulk_delete_cmd(&s, &vec!["nope".to_string()]).is_none());
    assert!(bulk_delete_cmd(&s, &vec![]).is_none());
}

#[test]
fn rename_tag_everywhere_sets_every_matching_tag() {
    let mut s = sermon();
    let cmd = rename_tag_everywhere(&s, TagKind::Idea, "image", "picture").expect("two ideas carry it");
    match &cmd {
        Cmd::Composite(cs) => assert_eq!(cs.len(), 2),
        _ => panic!("a composite"),
    }
    cmd.apply_to(&mut s);
    assert_eq!(s.movements[0].ideas[1].idea_tag, "picture");
    assert_eq!(s.movements[1].ideas[1].idea_tag, "picture");
    assert_eq!(s.movements[0].ideas[0].idea_tag, "");
}

#[test]
fn rename_tag_everywhere_refuses_empty_unchanged_or_unused_names() {
    let s = sermon();
    assert!(rename_tag_everywhere(&s, TagKind::Idea, "", "x").is_none());
    assert!(rename_tag_everywhere(&s, TagKind::Idea, "image", "image").is_none());
    assert!(rename_tag_everywhere(&s, TagKind::Part, "image", "x").is_none());
}

#[test]
fn payloads_are_read_by_prefix() {
    assert_eq!(parse_payload("ideas:a,b"), Some(DragPayload::Ideas(vec!["a".into(), "b".into()])));
    assert_eq!(parse_payload("idea:x"), Some(DragPayload::Idea("x".into())));
    assert_eq!(parse_payload("movement:m"), Some(DragPayload::Movement("m".into())));
    assert_eq!(parse_payload("other"), None);
}

#[test]
fn dropping_an_idea_lower_in_its_movement_accounts_for_its_own_row() {
    let mut s = sermon();
    let id = s.movements[0].ideas[0].id.clone();
    let cmd = idea_drop_cmd(&s, &id, DropTarget::IntoMovement { movement: 0, insertion: 3 }).unwrap();
    match &cmd {
        Cmd::MoveIdea { from, to } => {
            assert_eq!(*from, (0, 0));
            assert_eq!(*to, (0, 2));
        }
        _ => panic!("a move"),
    }
    cmd.apply_to(&mut s);
    assert_eq!(texts(&s)[0], vec!["0.1", "0.2", "0.0"]);
}

#[test]
fn dropping_an_idea_past_the_end_of_another_movement_is_clamped() {
    let s = sermon();
    let id = s.movements[0].ideas[1].id.clone();
    match idea_drop_cmd(&s, &id, DropTarget::IntoMovement { movement: 1, insertion: 9 }).unwrap() {
        Cmd::MoveIdea { from, to } => {
            assert_eq!(from, (0, 1));
            assert_eq!(to, (1, 3));
        }
        _ => panic!("a move"),
    }
    assert!(idea_drop_cmd(&s, "gone", DropTarget::BlankSpace { at: 0 }).is_none());
}

#[test]
fn dropping_an_idea_on_blank_space_makes_a_movement_for_it() {
    let mut s = sermon();
    let before = s.clone();
    let id = s.movements[1].ideas[2].id.clone();
    let cmd = idea_drop_cmd(&s, &id, DropTarget::BlankSpace { at: 0 }).unwrap();
    let mut stack = UndoStack::new();
    stack.push_applying(&mut s, cmd);
    assert_eq!(s.movements.len(), 3);
    assert_eq!(texts(&s)[0], vec!["1.2"]);
    assert_eq!(s.movements[0].name, "Movement One");
    assert!(stack.undo(&mut s));
    assert_eq!(s, before);
}

#[test]
fn dropping_a_selection_moves_it_in_order() {
    let mut s = sermon();
    let ids = vec![s.movements[0].ideas[2].id.clone(), s.movements[0].ideas[0].id.clone()];
    let cmd = ideas_drop_cmd(&s, &ids, DropTarget::IntoMovement { movement: 1, insertion: 1 }).unwrap();
    cmd.apply_to(&mut s);
    assert_eq!(texts(&s)[0], vec!["0.1"]);
    assert_eq!(texts(&s)[1], vec!["1.0", "0.0", "0.2", "1.1", "1.2"]);
}

#[test]
fn dropping_a_selection_in_its_own_movement_replays_each_move_in_turn() {
    let s = sermon();
    let ids = vec![s.movements[0].ideas[0].id.clone(), s.movements[0].ideas[1].id.clone()];
    let cmd = ideas_drop_cmd(&s, &ids, DropTarget::IntoMovement { movement: 0, insertion: 3 }).unwrap();
    match cmd {
        Cmd::Composite(cs) => {
            let moves: Vec<((usize, usize), (usize, usize))> = cs
                .iter()
                .map(|c| match c {
                    Cmd::MoveIdea { from, to } => (*from, *to),
                    _ => panic!("only moves"),
                })
                .collect();
            assert_eq!(moves, vec![((0, 0), (0, 1)), ((0, 0), (0, 2))]);
        }
        _ => panic!("a composite"),
    }
    let none: Vec<String> = vec!["gone".into()];
    assert!(ideas_drop_cmd(&s, &none, DropTarget::BlankSpace { at: 1 }).is_none());
}

#[test]
fn dropping_a_selection_on_blank_space() {
    let mut s = sermon();
    let ids = vec![s.movements[1].ideas[0].id.clone(), s.movements[1].ideas[2].id.clone()];
    let cmd = ideas_drop_cmd(&s, &ids, DropTarget::BlankSpace { at: 1 }).unwrap();
    cmd.apply_to(&mut s);
    assert_eq!(s.movements.len(), 3);
    assert_eq!(texts(&s)[1], vec!["1.0", "1.2"]);
    assert_eq!(texts(&s)[2], vec!["1.1"]);
}

#[test]
fn dropping_a_movement_below_itself_lands_one_earlier() {
    let mut s = sermon();
    let id = s.movements[0].id.clone();
    match movement_drop_cmd(&s, &id, 2).unwrap() {
        Cmd::MoveMovement { from, to } => assert_eq!((from, to), (0, 1)),
        _ => panic!("a move"),
    }
    movement_drop_cmd(&s, &id, 2).unwrap().apply_to(&mut s);
    assert_eq!(texts(&s)[1][0], "0.0");
    assert!(movement_drop_cmd(&s, "gone", 0).is_none());
}

#[test]
fn merge_into_previous_moves_every_idea_up_and_removes_the_movement() {
    let mut s = sermon();
    let id0 = s.movements[0].id.clone();
    let id1 = s.movements[1].id.clone();
    assert!(merge_into_previous_cmd(&s, &id0).is_none());
    assert!(merge_into_previous_cmd(&s, "missing").is_none());
    let cmd = merge_into_previous_cmd(&s, &id1).expect("second movement");
    match &cmd {
        Cmd::Composite(cs) => {
            assert_eq!(cs.len(), 4);
            assert!(matches!(cs[0], Cmd::MoveIdea { from: (1, 0), to: (0, 3) }));
            assert!(matches!(cs[2], Cmd::MoveIdea { from: (1, 0), to: (0, 5) }));
            assert!(matches!(&cs[3], Cmd::DeleteMovement { at: 1, movement } if movement.ideas.is_empty()));
        }
        other => panic!("expected a composite, got {other:?}"),
    }
    let before = s.clone();
    let mut stack = UndoStack::new();
    stack.push_applying(&mut s, cmd);
    assert_eq!(texts(&s), vec![vec!["0.0", "0.1", "0.2", "1.0", "1.1", "1.2"]]);
    assert!(stack.undo(&mut s));
    assert_eq!(s, before);
}

#[test]
fn move_movement_by_an_offset_or_to_either_end() {
    let s = sermon();
    let id0 = s.movements[0].id.clone();
    let id1 = s.movements[1].id.clone();
    assert!(matches!(move_movement_cmd(&s, &id0, 1), Some(Cmd::MoveMovement { from: 0, to: 1 })));
    assert!(move_movement_cmd(&s, &id0, -1).is_none());
    assert!(move_movement_cmd(&s, &id1, 1).is_none());
    assert!(matches!(move_movement_cmd(&s, &id1, i32::MIN), Some(Cmd::MoveMovement { from: 1, to: 0 })));
    assert!(matches!(move_movement_cmd(&s, &id0, i32::MAX), Some(Cmd::MoveMovement { from: 0, to: 1 })));
    assert!(move_movement_cmd(&s, "missing", 1).is_none());
}

#[test]
fn split_movement_moves_the_tail_into_a_new_movement() {
    let mut s = sermon();
    let id0 = s.movements[0].id.clone();
    assert!(split_movement_cmd(&s, &id0, 3).is_none());
    let cmd = split_movement_cmd(&s, &id0, 1).expect("split inside the movement");
    let mut stack = UndoStack::new();
    stack.push_applying(&mut s, cmd);
    assert_eq!(texts(&s), vec![vec!["0.0"], vec!["0.1", "0.2"], vec!["1.0", "1.1", "1.2"]]);
    assert_eq!(s.movements[1].name, "Movement Two");
}

#[test]
fn typing_a_citation_adds_its_scripture_tag_once() {
    let s = sermon();
    let id = s.movements[0].ideas[1].id.clone();
    match idea_text_edit_cmd(&s, &id, "plain words") {
        Cmd::EditIdeaText { old, new, .. } => {
            assert_eq!(old, "0.1");
            assert_eq!(new, "plain words");
        }
        other => panic!("expected a text edit, got {other:?}"),
    }
    match idea_text_edit_cmd(&s, &id, "see @john3:16 and @john3:16, @rom8:28") {
        Cmd::Composite(cs) => {
            assert_eq!(cs.len(), 2);
            match &cs[1] {
                Cmd::SetSermonTags { old, new, .. } => {
                    assert!(old.is_empty());
                    assert_eq!(new, &vec!["John 3:16".to_string(), "Romans 8:28".to_string()]);
                }
                other => panic!("expected tags, got {other:?}"),
            }
        }
        other => panic!("expected a composite, got {other:?}"),
    }
}
