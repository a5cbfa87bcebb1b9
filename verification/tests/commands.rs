use iskra::commands::{demote_movement_to_idea, promote_idea_to_movement, Cmd, UndoStack, MAX_STACK};
use iskra::model::{Idea, Movement, Sermon};

fn sermon_two_movements() -> Sermon {
    let mut s = Sermon::new();
    s.movements.clear();
    for (name, texts) in [("One", vec!["a", "b"]), ("Two", vec!["c"])] {
        let mut m = Movement::new(0);
        m.name = name.to_string();
        m.ideas.clear();
        for text in texts {
            let mut i = Idea::new();
            i.text = text.to_string();
            m.ideas.push(i);
        }
        s.movements.push(m);
    }
    s
}

#[test]
fn promote_moves_the_idea_out_and_names_the_new_movement_after_it() {
    let mut s = sermon_two_movements();
    let cmd = promote_idea_to_movement(&s, 0, 1).expect("valid position");
    cmd.apply_to(&mut s);
    assert_eq!(s.movements.len(), 3);
    assert_eq!(s.movements[0].ideas.len(), 1);
    assert_eq!(s.movements[0].ideas[0].text, "a");
    assert_eq!(s.movements[1].name, "b");
    assert!(s.movements[1].ideas.is_empty());
    assert_eq!(s.movements[2].name, "Two");
}

#[test]
fn promote_keeps_an_idea_that_carries_notes() {
    let mut s = sermon_two_movements();
    s.movements[0].ideas[1].notes = "worth keeping".to_string();
    let cmd = promote_idea_to_movement(&s, 0, 1).expect("valid position");
    cmd.apply_to(&mut s);
    assert_eq!(s.movements[1].name, "b");
    assert_eq!(s.movements[1].ideas.len(), 1);
    assert_eq!(s.movements[1].ideas[0].notes, "worth keeping");
}

#[test]
fn promote_rejects_an_out_of_range_position() {
    let s = sermon_two_movements();
    assert!(promote_idea_to_movement(&s, 0, 9).is_none());
    assert!(promote_idea_to_movement(&s, 9, 0).is_none());
}

#[test]
fn demote_folds_the_movement_into_the_one_above_name_first() {
    let mut s = sermon_two_movements();
    let cmd = demote_movement_to_idea(&s, 1).expect("not the first movement");
    cmd.apply_to(&mut s);
    assert_eq!(s.movements.len(), 1);
    let texts: Vec<_> = s.movements[0].ideas.iter().map(|i| i.text.as_str()).collect();
    assert_eq!(texts, vec!["a", "b", "Two", "c"]);
}

#[test]
fn demote_refuses_the_first_movement() {
    let s = sermon_two_movements();
    assert!(demote_movement_to_idea(&s, 0).is_none());
}

#[test]
fn promote_then_undo_restores_the_original_shape() {
    let mut s = sermon_two_movements();
    let before = s.clone();
    let mut undo = UndoStack::new();
    let cmd = promote_idea_to_movement(&s, 0, 1).expect("valid position");
    undo.push_applying(&mut s, cmd);
    assert_ne!(s, before);
    assert!(undo.undo(&mut s));
    assert_eq!(s, before);
}

#[test]
fn demote_then_undo_restores_the_original_shape() {
    let mut s = sermon_two_movements();
    let before = s.clone();
    let mut undo = UndoStack::new();
    let cmd = demote_movement_to_idea(&s, 1).expect("not the first movement");
    undo.push_applying(&mut s, cmd);
    assert_ne!(s, before);
    assert!(undo.undo(&mut s));
    assert_eq!(s, before);
}

fn sermon_with_one_idea() -> (Sermon, String) {
    let mut s = Sermon::new();
    s.movements.clear();
    s.movements.push(Movement::new(0));
    let idea = Idea::new();
    let id = idea.id.clone();
    s.movements[0].ideas.push(idea);
    (s, id)
}

#[test]
fn insert_delete_idea_are_inverses() {
    let (mut s, _) = sermon_with_one_idea();
    let before = s.clone();
    let idea = Idea::new();
    let cmd = Cmd::InsertIdea {
        movement: 0,
        index: 1,
        idea: idea.clone(),
    };
    cmd.apply_to(&mut s);
    assert_eq!(s.movements[0].ideas.len(), 2);
    cmd.inverted().apply_to(&mut s);
    assert_eq!(s, before);
}

#[test]
fn move_idea_inverse_restores_position() {
    let mut s = Sermon::new();
    s.movements.clear();
    s.movements.push(Movement::new(0));
    s.movements.push(Movement::new(1));
    s.movements[0].ideas.push(Idea::new());
    s.movements[0].ideas.push(Idea::new());
    let before = s.clone();
    let cmd = Cmd::MoveIdea {
        from: (0, 0),
        to: (1, 0),
    };
    cmd.apply_to(&mut s);
    assert_eq!(s.movements[0].ideas.len(), 1);
    assert_eq!(s.movements[1].ideas.len(), 1);
    cmd.inverted().apply_to(&mut s);
    assert_eq!(s, before);
}

#[test]
fn composite_inverse_reverses_and_inverts_children() {
    let mut s = Sermon::new();
    s.movements.clear();
    s.movements.push(Movement::new(0));
    s.movements[0].ideas.push(Idea::new());
    let idea_id = s.movements[0].ideas[0].id.clone();
    let before = s.clone();

    let new_movement = Movement::new(1);
    let new_movement_id = new_movement.id.clone();
    let cmd = Cmd::Composite(vec![
        Cmd::InsertMovement {
            at: 1,
            movement: new_movement,
        },
        Cmd::MoveIdea {
            from: (0, 0),
            to: (1, 0),
        },
    ]);
    cmd.apply_to(&mut s);
    assert_eq!(s.movements.len(), 2);
    assert_eq!(s.movements[1].ideas[0].id, idea_id);
    assert_eq!(s.movements[1].id, new_movement_id);

    cmd.inverted().apply_to(&mut s);
    assert_eq!(s, before);
}

#[test]
fn split_movement_composite_moves_the_tail_into_a_new_movement_in_order() {
    let mut s = Sermon::new();
    s.movements.clear();
    s.movements.push(Movement::new(0));
    for _ in 0..4 {
        s.movements[0].ideas.push(Idea::new());
    }
    let ids: Vec<String> = s.movements[0].ideas.iter().map(|i| i.id.clone()).collect();
    let before = s.clone();
    let split_at = 2;
    let ideas_len = s.movements[0].ideas.len();

    let mut cmds = vec![Cmd::InsertMovement {
        at: 1,
        movement: Movement::new(1),
    }];
    for offset in 0..(ideas_len - split_at) {
        cmds.push(Cmd::MoveIdea {
            from: (0, split_at),
            to: (1, offset),
        });
    }
    let cmd = Cmd::Composite(cmds);
    cmd.apply_to(&mut s);

    assert_eq!(s.movements.len(), 2);
    assert_eq!(
        s.movements[0].ideas.iter().map(|i| i.id.clone()).collect::<Vec<_>>(),
        ids[..2]
    );
    assert_eq!(
        s.movements[1].ideas.iter().map(|i| i.id.clone()).collect::<Vec<_>>(),
        ids[2..]
    );

    cmd.inverted().apply_to(&mut s);
    assert_eq!(s, before);
}

#[test]
fn bulk_delete_composite_removes_highest_index_first() {
    let mut s = Sermon::new();
    s.movements.clear();
    s.movements.push(Movement::new(0));
    for _ in 0..5 {
        s.movements[0].ideas.push(Idea::new());
    }
    let ids: Vec<String> = s.movements[0].ideas.iter().map(|i| i.id.clone()).collect();
    let before = s.clone();

    let mut positions = vec![(0usize, 1usize), (0, 4), (0, 3)];
    positions.sort_by(|a, b| b.cmp(a));
    let cmd = Cmd::Composite(
        positions
            .into_iter()
            .map(|(m, i)| Cmd::DeleteIdea {
                movement: m,
                index: i,
                idea: s.movements[m].ideas[i].clone(),
            })
            .collect(),
    );
    cmd.apply_to(&mut s);

    assert_eq!(
        s.movements[0].ideas.iter().map(|i| i.id.clone()).collect::<Vec<_>>(),
        vec![ids[0].clone(), ids[2].clone()]
    );

    cmd.inverted().apply_to(&mut s);
    assert_eq!(s, before);
}

#[test]
fn text_edits_coalesce_within_window() {
    let (mut s, id) = sermon_with_one_idea();
    let mut stack = UndoStack::new();

    stack.push_applying(
        &mut s,
        Cmd::EditIdeaText {
            id: id.clone(),
            old: "".into(),
            new: "T".into(),
        },
    );
    stack.push_applying(
        &mut s,
        Cmd::EditIdeaText {
            id: id.clone(),
            old: "T".into(),
            new: "Th".into(),
        },
    );
    stack.push_applying(
        &mut s,
        Cmd::EditIdeaText {
            id: id.clone(),
            old: "Th".into(),
            new: "The".into(),
        },
    );

    assert_eq!(stack.undo.len(), 1, "consecutive same-field edits should merge");
    stack.undo(&mut s);
    assert_eq!(s.idea(&id).unwrap().text, "");
}

#[test]
fn coalescing_breaks_on_different_target() {
    let mut s = Sermon::new();
    s.movements.clear();
    s.movements.push(Movement::new(0));
    s.movements[0].ideas.push(Idea::new());
    s.movements[0].ideas.push(Idea::new());
    let id_a = s.movements[0].ideas[0].id.clone();
    let id_b = s.movements[0].ideas[1].id.clone();
    let mut stack = UndoStack::new();

    stack.push_applying(
        &mut s,
        Cmd::EditIdeaText {
            id: id_a.clone(),
            old: "".into(),
            new: "A".into(),
        },
    );
    stack.push_applying(
        &mut s,
        Cmd::EditIdeaText {
            id: id_b.clone(),
            old: "".into(),
            new: "B".into(),
        },
    );

    assert_eq!(stack.undo.len(), 2, "edits to different ideas must not merge");
}

#[test]
fn coalescing_breaks_after_explicit_break() {
    let (mut s, id) = sermon_with_one_idea();
    let mut stack = UndoStack::new();
    stack.push_applying(
        &mut s,
        Cmd::EditIdeaText {
            id: id.clone(),
            old: "".into(),
            new: "A".into(),
        },
    );
    stack.break_coalescing();
    stack.push_applying(
        &mut s,
        Cmd::EditIdeaText {
            id: id.clone(),
            old: "A".into(),
            new: "AB".into(),
        },
    );
    assert_eq!(stack.undo.len(), 2, "break_coalescing should force a new step");
}

#[test]
fn undo_redo_round_trip() {
    let (mut s, _) = sermon_with_one_idea();
    let before = s.clone();
    let mut stack = UndoStack::new();
    let new_movement = Movement::new(1);
    stack.push_applying(
        &mut s,
        Cmd::InsertMovement {
            at: 1,
            movement: new_movement,
        },
    );
    assert_eq!(s.movements.len(), 2);
    assert!(stack.undo(&mut s));
    assert_eq!(s, before);
    assert!(!stack.can_undo());
    assert!(stack.can_redo());
    assert!(stack.redo(&mut s));
    assert_eq!(s.movements.len(), 2);
}

#[test]
fn is_structural_classification() {
    assert!(!Cmd::EditIdeaText {
        id: "x".into(),
        old: "".into(),
        new: "a".into()
    }
    .is_structural());
    assert!(Cmd::InsertIdea {
        movement: 0,
        index: 0,
        idea: Idea::new()
    }
    .is_structural());
    assert!(Cmd::Composite(vec![Cmd::InsertMovement {
        at: 0,
        movement: Movement::new(0)
    }])
    .is_structural());
}

#[test]
fn stack_cap_evicts_oldest() {
    let (mut s, id) = sermon_with_one_idea();
    let mut stack = UndoStack::new();
    for i in 0..(MAX_STACK + 10) {
        stack.break_coalescing();
        stack.push_applying(
            &mut s,
            Cmd::EditIdeaText {
                id: id.clone(),
                old: format!("{}", i),
                new: format!("{}", i + 1),
            },
        );
    }
    assert_eq!(stack.undo.len(), MAX_STACK);
}


#[test]
fn inverting_twice_gives_the_same_effect() {
    let mut s = sermon_two_movements();
    let before = s.clone();
    let cmd = Cmd::MoveMovement { from: 0, to: 1 };
    cmd.inverted().inverted().apply_to(&mut s);
    assert_eq!(s.movements[0].name, "Two");
    cmd.inverted().apply_to(&mut s);
    assert_eq!(s, before);
}

#[test]
fn redo_is_cleared_by_a_new_command() {
    let (mut s, id) = sermon_with_one_idea();
    let mut stack = UndoStack::new();
    stack.push_applying(&mut s, Cmd::EditIdeaNotes { id: id.clone(), old: "".into(), new: "n".into() });
    assert!(stack.undo(&mut s));
    assert!(stack.can_redo());
    stack.push_applying(&mut s, Cmd::SetTitle { old: "".into(), new: "T".into() });
    assert!(!stack.can_redo());
    assert!(!stack.redo(&mut s));
    assert_eq!(s.title, "T");
}

#[test]
fn undo_on_an_empty_stack_changes_nothing() {
    let (mut s, _) = sermon_with_one_idea();
    let before = s.clone();
    let mut stack = UndoStack::new();
    assert!(!stack.can_undo());
    assert!(!stack.undo(&mut s));
    assert_eq!(s, before);
}

#[test]
fn inverting_twice_gives_the_command_back() {
    let cmd = Cmd::Composite(vec![
        Cmd::MoveIdea { from: (0, 1), to: (1, 0) },
        Cmd::EditIdeaText { id: "x".to_string(), old: "a".to_string(), new: "b".to_string() },
        Cmd::MoveMovement { from: 0, to: 1 },
    ]);
    let twice = cmd.inverted().inverted();
    match twice {
        Cmd::Composite(cs) => {
            assert_eq!(cs.len(), 3);
            assert!(matches!(cs[0], Cmd::MoveIdea { from: (0, 1), to: (1, 0) }));
            assert!(matches!(&cs[1], Cmd::EditIdeaText { id, old, new }
                if id == "x" && old == "a" && new == "b"));
            assert!(matches!(cs[2], Cmd::MoveMovement { from: 0, to: 1 }));
        }
        other => panic!("expected a composite, got {other:?}"),
    }
}

#[test]
fn undo_and_redo_keep_the_history_within_the_cap() {
    let mut s = sermon_two_movements();
    let mut stack = UndoStack::new();
    for i in 0..(MAX_STACK + 5) {
        stack.break_coalescing();
        let old = s.title.clone();
        stack.push_applying(&mut s, Cmd::SetTitle { old, new: format!("t{i}") });
    }
    for _ in 0..3 {
        assert!(stack.undo(&mut s));
    }
    assert_eq!(stack.undo.len() + stack.redo.len(), MAX_STACK);
    assert!(stack.redo(&mut s));
    assert_eq!(stack.undo.len() + stack.redo.len(), MAX_STACK);
}

#[test]
fn applies_to_tells_whether_an_undo_can_run() {
    let mut s = sermon_two_movements();
    let mut stack = UndoStack::new();
    let cmd = Cmd::MoveIdea { from: (0, 0), to: (1, 1) };
    assert!(cmd.applies_to(&s));
    stack.push_applying(&mut s, cmd);
    assert!(stack.undo.last().unwrap().inverted().applies_to(&s));
    assert!(stack.undo(&mut s));
    assert!(!Cmd::DeleteIdea { movement: 1, index: 5, idea: Idea::new() }.applies_to(&s));
    assert!(!Cmd::MoveMovement { from: 0, to: 2 }.applies_to(&s));
    let steps = Cmd::Composite(vec![
        Cmd::DeleteMovement { at: 1, movement: s.movements[1].clone() },
        Cmd::DeleteIdea { movement: 1, index: 0, idea: Idea::new() },
    ]);
    assert!(!steps.applies_to(&s));
}
