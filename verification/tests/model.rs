use iskra::model::{default_movement_name, new_id, slug, DeletedRecord, Idea, Movement, Sermon};

fn sermon_with(counts: &[usize]) -> Sermon {
    let mut s = Sermon::new();
    s.movements.clear();
    for (m, &count) in counts.iter().enumerate() {
        let mut movement = Movement::new(m);
        for _ in 0..count {
            movement.ideas.push(Idea::new());
        }
        s.movements.push(movement);
    }
    s
}

#[test]
fn model_numbering_is_continuous_across_movements() {
    let s = sermon_with(&[2, 2]);
    let nums = s.numbering();
    assert_eq!(
        nums.iter().map(|&(m, i, n)| (m, i, n)).collect::<Vec<_>>(),
        vec![(0, 0, 1), (0, 1, 2), (1, 0, 3), (1, 1, 4)]
    );
}

#[test]
fn numbering_skips_empty_movements() {
    let s = sermon_with(&[1, 0, 2]);
    let nums = s.numbering();
    assert_eq!(nums.last().unwrap().2, 3);
    assert_eq!(nums[1], (2, 0, 2));
}

#[test]
fn find_idea_locates_position() {
    let s = sermon_with(&[1, 3]);
    let id = s.movements[1].ideas[2].id.clone();
    assert_eq!(s.find_idea(&id), Some((1, 2)));
    assert_eq!(s.find_idea("nonexistent"), None);
}

#[test]
fn idea_duplicate_gets_a_fresh_id_but_same_content() {
    let mut idea = Idea::new();
    idea.text = "Original".into();
    idea.notes = "Some notes".into();
    let dup = idea.duplicate();
    assert_ne!(dup.id, idea.id);
    assert_eq!(dup.text, idea.text);
    assert_eq!(dup.notes, idea.notes);
}

#[test]
fn movement_duplicate_gets_fresh_ids_for_itself_and_every_idea() {
    let mut m = Movement::new(0);
    m.ideas.push(Idea::new());
    m.ideas.push(Idea::new());
    let dup = m.duplicate();
    assert_ne!(dup.id, m.id);
    assert_eq!(dup.ideas.len(), m.ideas.len());
    for (orig, cloned) in m.ideas.iter().zip(dup.ideas.iter()) {
        assert_ne!(orig.id, cloned.id);
    }
}

#[test]
fn movement_names() {
    assert_eq!(default_movement_name(0), "Movement One");
    assert_eq!(default_movement_name(11), "Movement Twelve");
    assert_eq!(default_movement_name(12), "Movement 13");
}

#[test]
fn slug_normalizes() {
    assert_eq!(slug("Fruit in Season"), "fruit-in-season");
    assert_eq!(slug("  What's Next?! "), "what-s-next");
    assert_eq!(slug(""), "untitled");
    assert_eq!(slug("###"), "untitled");
}

#[test]
fn ids_are_unique() {
    assert_ne!(new_id(), new_id());
}

#[test]
fn new_sermon_has_one_empty_movement_and_untitled_display_title() {
    let s = Sermon::new();
    assert_eq!(s.movements.len(), 1);
    assert_eq!(s.movements[0].name, "Movement One");
    assert!(s.movements[0].ideas.is_empty());
    assert_eq!(s.display_title(), "Untitled Sermon");
    assert!(s.numbering().is_empty());
}

#[test]
fn find_movement_and_idea_by_id() {
    let mut s = sermon_with(&[1, 1]);
    s.movements[1].ideas[0].text = "Point".into();
    let mid = s.movements[1].id.clone();
    let iid = s.movements[1].ideas[0].id.clone();
    assert_eq!(s.find_movement(&mid), Some(1));
    assert_eq!(s.find_movement("nope"), None);
    assert_eq!(s.idea(&iid).map(|i| i.text.as_str()), Some("Point"));
    assert!(s.idea("nope").is_none());
}

#[test]
fn deleted_record_labels() {
    let mut idea = Idea::new();
    let blank = DeletedRecord::Idea { sermon_id: "s1".into(), movement: 0, index: 0, idea: idea.clone() };
    assert_eq!(blank.label(), "(untitled idea)");
    idea.text = "Grace".into();
    let named = DeletedRecord::Idea { sermon_id: "s1".into(), movement: 0, index: 0, idea };
    assert_eq!(named.label(), "Grace");
    assert_eq!(named.sermon_id(), "s1");
    let mut m = Movement::new(0);
    let mv = DeletedRecord::Movement { sermon_id: "s2".into(), at: 1, movement: m.clone() };
    assert_eq!(mv.label(), "Movement: Movement One");
    m.name = "  ".into();
    let unnamed = DeletedRecord::Movement { sermon_id: "s2".into(), at: 1, movement: m };
    assert_eq!(unnamed.label(), "(untitled movement)");
    assert_eq!(unnamed.sermon_id(), "s2");
}

#[test]
fn new_idea_is_blank_with_a_v4_uuid_id() {
    let idea = Idea::new();
    assert!(idea.text.is_empty() && idea.notes.is_empty());
    assert!(idea.idea_tag.is_empty() && idea.part_tag.is_empty() && !idea.expanded);
    let id: Vec<char> = idea.id.chars().collect();
    assert_eq!(id.len(), 36);
    for (i, c) in id.iter().enumerate() {
        if i == 8 || i == 13 || i == 18 || i == 23 {
            assert_eq!(*c, '-');
        } else {
            assert!(c.is_ascii_digit() || ('a'..='f').contains(c));
        }
    }
    assert_eq!(id[14], '4');
    assert!(['8', '9', 'a', 'b'].contains(&id[19]));
    assert_ne!(Idea::new().id, idea.id);
}

#[test]
fn a_slug_is_its_own_slug() {
    for title in ["Hello, World!", "  --The Lord's Prayer--  ", "", "!!!", "Psalm 23 (part 2)"] {
        let once = slug(title);
        assert_eq!(slug(&once), once, "{title:?}");
    }
    assert_eq!(slug("!!!"), "untitled");
    assert_eq!(slug("Hello, World!"), "hello-world");
}

#[test]
fn idea_mut_changes_only_the_idea_found() {
    let mut s = sermon_with(&[2, 1]);
    let id = s.movements[1].ideas[0].id.clone();
    let before = s.clone();
    s.idea_mut(&id).expect("the idea exists").text = "changed".to_string();
    assert_eq!(s.movements[1].ideas[0].text, "changed");
    assert_eq!(s.movements[0], before.movements[0]);
    assert!(s.idea_mut("missing").is_none());
}
