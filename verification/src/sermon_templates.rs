//! Starting outlines for a new sermon.

use vstd::prelude::*;

use crate::bible::books::strs_view;
use crate::model::{movement_name, Idea, Movement, Sermon, SCHEMA_VERSION};
use crate::text::{owned, str_eq};

verus! {

/// A named outline: movements, each with its starting ideas.
pub struct SermonTemplate {
    pub id: &'static str,
    pub name: &'static str,
    pub description: &'static str,
    movements: Vec<(&'static str, Vec<&'static str>)>,
}

/// The outline of a template as text: movement names with their idea texts.
pub open spec fn outline_view(v: Seq<(&'static str, Vec<&'static str>)>) -> Seq<(Seq<char>, Seq<Seq<char>>)> {
    v.map_values(|m: (&'static str, Vec<&'static str>)| (m.0@, strs_view(m.1@)))
}

impl SermonTemplate {
    pub closed spec fn outline(&self) -> Seq<(Seq<char>, Seq<Seq<char>>)> {
        outline_view(self.movements@)
    }
}

/// Number of templates.
pub const TEMPLATE_COUNT: usize = 3;

/// Template `i`: id, name, description and outline.
pub open spec fn template_spec(i: int) -> (Seq<char>, Seq<char>, Seq<char>, Seq<(Seq<char>, Seq<Seq<char>>)>) {
    if i == 0 {
        (
            "three-point"@,
            "Three-Point Expository"@,
            "Introduction, three points, and a conclusion."@,
            seq![
                ("Introduction"@, seq!["Hook"@, "Context"@, "Big idea"@]),
                ("Point One"@, seq![]),
                ("Point Two"@, seq![]),
                ("Point Three"@, seq![]),
                ("Conclusion"@, seq!["Summary"@, "Call to action"@]),
            ],
        )
    } else if i == 1 {
        (
            "narrative-arc"@,
            "Narrative Arc"@,
            "Setting, rising tension, a turning point, and resolution."@,
            seq![
                ("Setting the Scene"@, seq![]),
                ("Rising Tension"@, seq![]),
                ("Turning Point"@, seq![]),
                ("Resolution"@, seq![]),
                ("So What?"@, seq!["Application"@]),
            ],
        )
    } else {
        (
            "topical"@,
            "Topical"@,
            "The problem, what Scripture says, and the response."@,
            seq![
                ("The Problem"@, seq![]),
                ("What Scripture Says"@, seq![]),
                ("The Response"@, seq![]),
            ],
        )
    }
}

pub closed spec fn template_view(t: SermonTemplate) -> (Seq<char>, Seq<char>, Seq<char>, Seq<(Seq<char>, Seq<Seq<char>>)>) {
    (t.id@, t.name@, t.description@, t.outline())
}

fn template_at(i: usize) -> (r: SermonTemplate)
    requires
        i < TEMPLATE_COUNT,
    ensures
        template_view(r) == template_spec(i as int),
{
    let r = if i == 0 {
        SermonTemplate {
            id: "three-point",
            name: "Three-Point Expository",
            description: "Introduction, three points, and a conclusion.",
            movements: vec![
                ("Introduction", vec!["Hook", "Context", "Big idea"]),
                ("Point One", vec![]),
                ("Point Two", vec![]),
                ("Point Three", vec![]),
                ("Conclusion", vec!["Summary", "Call to action"]),
            ],
        }
    } else if i == 1 {
        SermonTemplate {
            id: "narrative-arc",
            name: "Narrative Arc",
            description: "Setting, rising tension, a turning point, and resolution.",
            movements: vec![
                ("Setting the Scene", vec![]),
                ("Rising Tension", vec![]),
                ("Turning Point", vec![]),
                ("Resolution", vec![]),
                ("So What?", vec!["Application"]),
            ],
        }
    } else {
        SermonTemplate {
            id: "topical",
            name: "Topical",
            description: "The problem, what Scripture says, and the response.",
            movements: vec![
                ("The Problem", vec![]),
                ("What Scripture Says", vec![]),
                ("The Response", vec![]),
            ],
        }
    };
    proof {
        let o = outline_view(r.movements@);
        let t = template_spec(i as int).3;
        assert(o.len() == t.len());
        assert forall|k: int| 0 <= k < o.len() implies o[k] =~~= t[k] by {
            assert(strs_view(r.movements@[k].1@) =~= t[k].1);
        }
        assert(o =~~= t);
    }
    r
}

/// The three built-in templates.
pub fn templates() -> (r: Vec<SermonTemplate>)
    ensures
        r@.len() == TEMPLATE_COUNT,
        forall|i: int| 0 <= i < TEMPLATE_COUNT ==> template_view(#[trigger] r@[i]) == template_spec(i),
{
    let mut v: Vec<SermonTemplate> = Vec::new();
    let mut i: usize = 0;
    while i < TEMPLATE_COUNT
        invariant
            i <= TEMPLATE_COUNT,
            v@.len() == i,
            forall|j: int| 0 <= j < i ==> template_view(#[trigger] v@[j]) == template_spec(j),
        decreases TEMPLATE_COUNT - i,
    {
        v.push(template_at(i));
        i = i + 1;
    }
    v
}

/// Index of the template whose id is `id`.
pub open spec fn template_index(id: Seq<char>) -> Option<int> {
    if id == template_spec(0).0 {
        Some(0)
    } else if id == template_spec(1).0 {
        Some(1)
    } else if id == template_spec(2).0 {
        Some(2)
    } else {
        None
    }
}

/// A new sermon (see `Sermon::new`) whose movements follow the template
/// with id `template_id`: one movement per outline entry, named as there,
/// holding fresh ideas with the outline's texts. Without a template, or
/// for an unknown id, the blank new sermon.
pub fn build_sermon(template_id: Option<&str>) -> (r: Sermon)
    ensures
        r.schema_version == SCHEMA_VERSION,
        r.title@.len() == 0,
        r.series is None,
        r.planned_date is None,
        r.created == r.modified,
        r.s_tags@.len() == 0,
        r.t_tags@.len() == 0,
        r.lectionary is None,
        match template_id {
            Some(id) => template_index(id@) is Some,
            None => false,
        } ==> ({
            let outline = template_spec(template_index(template_id->0@)->0).3;
            &&& r.movements@.len() == outline.len()
            &&& forall|m: int|
                0 <= m < outline.len() ==> {
                    &&& (#[trigger] r.movements@[m]).name@ == outline[m].0
                    &&& !r.movements@[m].collapsed
                    &&& r.movements@[m].ideas@.len() == outline[m].1.len()
                    &&& forall|i: int|
                        0 <= i < outline[m].1.len() ==> (#[trigger] r.movements@[m].ideas@[i]).text@
                            == outline[m].1[i] && r.movements@[m].ideas@[i].notes@.len() == 0
                            && r.movements@[m].ideas@[i].idea_tag@.len() == 0
                            && r.movements@[m].ideas@[i].part_tag@.len() == 0
                            && !r.movements@[m].ideas@[i].expanded
                }
        }),
        !(match template_id {
            Some(id) => template_index(id@) is Some,
            None => false,
        }) ==> r.movements@.len() == 1 && r.movements@[0].name@ == movement_name(0)
            && r.movements@[0].ideas@.len() == 0 && !r.movements@[0].collapsed,
{
    let mut sermon = Sermon::new();
    let id = match template_id {
        Some(id) => id,
        None => return sermon,
    };
    let all = templates();
    let mut t: usize = 0;
    while t < TEMPLATE_COUNT
        invariant
            t <= TEMPLATE_COUNT,
            all@.len() == TEMPLATE_COUNT,
            forall|j: int| 0 <= j < TEMPLATE_COUNT ==> template_view(#[trigger] all@[j]) == template_spec(j),
            forall|j: int| 0 <= j < t ==> template_spec(j).0 != id@,
        ensures
            t <= TEMPLATE_COUNT,
            forall|j: int| 0 <= j < t ==> template_spec(j).0 != id@,
            t < TEMPLATE_COUNT ==> template_spec(t as int).0 == id@,
        decreases TEMPLATE_COUNT - t,
    {
        assert(template_view(all@[t as int]) == template_spec(t as int));
        if str_eq(all[t].id, id) {
            break;
        }
        t = t + 1;
    }
    if t == TEMPLATE_COUNT {
        return sermon;
    }
    assert(template_view(all@[t as int]) == template_spec(t as int));
    assert(template_index(id@) == Some(t as int));
    let template = &all[t];
    let ghost outline = template_spec(t as int).3;
    assert(outline_view(template.movements@) == outline);
    let mut movements: Vec<Movement> = Vec::new();
    let mut m: usize = 0;
    while m < template.movements.len()
        invariant
            outline_view(template.movements@) == outline,
            outline.len() == template.movements@.len(),
            outline.len() <= 5,
            m <= outline.len(),
            movements@.len() == m,
            forall|k: int|
                0 <= k < m ==> {
                    &&& (#[trigger] movements@[k]).name@ == outline[k].0
                    &&& !movements@[k].collapsed
                    &&& movements@[k].ideas@.len() == outline[k].1.len()
                    &&& forall|i: int|
                        0 <= i < outline[k].1.len() ==> (#[trigger] movements@[k].ideas@[i]).text@
                            == outline[k].1[i] && movements@[k].ideas@[i].notes@.len() == 0
                            && movements@[k].ideas@[i].idea_tag@.len() == 0
                            && movements@[k].ideas@[i].part_tag@.len() == 0
                            && !movements@[k].ideas@[i].expanded
                },
        decreases outline.len() - m,
    {
        let (name, ideas) = &template.movements[m];
        assert(outline[m as int].0 == name@);
        assert(outline[m as int].1 == strs_view(ideas@));
        let mut movement = Movement::new(m);
        movement.name = owned(name);
        let mut list: Vec<Idea> = Vec::new();
        let mut i: usize = 0;
        while i < ideas.len()
            invariant
                i <= ideas@.len(),
                list@.len() == i,
                forall|j: int|
                    0 <= j < i ==> (#[trigger] list@[j]).text@ == ideas@[j]@ && list@[j].notes@.len()
                        == 0 && list@[j].idea_tag@.len() == 0 && list@[j].part_tag@.len() == 0
                        && !list@[j].expanded,
            decreases ideas@.len() - i,
        {
            let mut idea = Idea::new();
            idea.text = owned(ideas[i]);
            list.push(idea);
            i = i + 1;
        }
        movement.ideas = list;
        movements.push(movement);
        m = m + 1;
    }
    sermon.movements = movements;
    sermon
}

} // verus!
