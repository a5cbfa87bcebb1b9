use iskra::sermon_templates::{build_sermon, templates, TEMPLATE_COUNT};

#[test]
fn none_gives_a_blank_sermon() {
    let sermon = build_sermon(None);
    assert_eq!(sermon.movements.len(), 1);
    assert!(sermon.movements[0].ideas.is_empty());
}

#[test]
fn unknown_id_falls_back_to_blank() {
    let sermon = build_sermon(Some("does-not-exist"));
    assert_eq!(sermon.movements.len(), 1);
}

#[test]
fn three_point_template_has_five_movements() {
    let sermon = build_sermon(Some("three-point"));
    assert_eq!(sermon.movements.len(), 5);
    assert_eq!(sermon.movements[0].name, "Introduction");
    assert_eq!(sermon.movements[0].ideas.len(), 3);
    assert_eq!(sermon.movements[0].ideas[0].text, "Hook");
}

#[test]
fn every_template_produces_unique_ids() {
    for template in templates() {
        let sermon = build_sermon(Some(template.id));
        let mut ids: Vec<&str> = sermon.movements.iter().map(|m| m.id.as_str()).collect();
        ids.extend(sermon.movements.iter().flat_map(|m| m.ideas.iter()).map(|i| i.id.as_str()));
        let unique: std::collections::HashSet<&str> = ids.iter().copied().collect();
        assert_eq!(ids.len(), unique.len(), "duplicate id in template {}", template.id);
    }
}

#[test]
fn templates_are_listed_with_distinct_ids() {
    let all = templates();
    assert_eq!(all.len(), TEMPLATE_COUNT);
    assert_eq!(all[0].id, "three-point");
    let ids: std::collections::HashSet<&str> = all.iter().map(|t| t.id).collect();
    assert_eq!(ids.len(), all.len());
}
