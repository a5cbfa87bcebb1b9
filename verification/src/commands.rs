//! The undoable command language of the editor. Every change to a sermon is
//! a `Cmd`; each carries enough of the state before it to be inverted, and
//! `UndoStack` keeps the history.

use vstd::prelude::*;

use crate::date::Date;
use crate::model::{
    clone_opt_link, clone_opt_string, clone_strings, find_idea_spec, find_movement_spec, idea_at,
    idea_ids, lemma_find_in_table_valid, lemma_find_in_list_valid, movement_ids, ideas_view, opt_date_view, opt_link_view, opt_string_view,
    strings_view, Idea, IdeaView, LectionaryLink, Movement, MovementView, Sermon, SermonView,
};
use crate::text::{is_blank, is_blank_text};

verus! {

/// Which of an idea's two tags a command sets.
#[derive(Clone, Copy, Debug, PartialEq, Eq, Structural)]
pub enum TagKind {
    Idea,
    Part,
}

/// Which of a sermon's two tag lists a command sets: scripture (s.) or
/// topic (t.).
#[derive(Clone, Copy, Debug, PartialEq, Eq, Structural)]
pub enum SermonTagKind {
    S,
    T,
}

/// One change to a sermon, carrying the state it replaces.
#[derive(Debug)]
pub enum Cmd {
    InsertIdea { movement: usize, index: usize, idea: Idea },
    DeleteIdea { movement: usize, index: usize, idea: Idea },
    EditIdeaText { id: String, old: String, new: String },
    EditIdeaNotes { id: String, old: String, new: String },
    SetIdeaTag { id: String, kind: TagKind, old: String, new: String },
    MoveIdea { from: (usize, usize), to: (usize, usize) },
    InsertMovement { at: usize, movement: Movement },
    DeleteMovement { at: usize, movement: Movement },
    RenameMovement { id: String, old: String, new: String },
    MoveMovement { from: usize, to: usize },
    ToggleMovementCollapsed { id: String },
    SetTitle { old: String, new: String },
    SetSeries { old: Option<String>, new: Option<String> },
    SetPlannedDate {
        old: (Option<Date>, Option<LectionaryLink>),
        new: (Option<Date>, Option<LectionaryLink>),
    },
    SetSermonTags { kind: SermonTagKind, old: Vec<String>, new: Vec<String> },
    Composite(Vec<Cmd>),
}

// ---------------------------------------------------------------------------
// What a command does, over views.

pub open spec fn set_ideas(s: SermonView, m: int, ideas: Seq<IdeaView>) -> SermonView {
    SermonView {
        movements: s.movements.update(m, MovementView { ideas, ..s.movements[m] }),
        ..s
    }
}

pub open spec fn set_idea(s: SermonView, m: int, i: int, idea: IdeaView) -> SermonView {
    set_ideas(s, m, s.movements[m].ideas.update(i, idea))
}

pub open spec fn with_text(i: IdeaView, t: Seq<char>) -> IdeaView {
    IdeaView { text: t, ..i }
}

pub open spec fn with_notes(i: IdeaView, t: Seq<char>) -> IdeaView {
    IdeaView { notes: t, ..i }
}

pub open spec fn with_tag(i: IdeaView, kind: TagKind, t: Seq<char>) -> IdeaView {
    match kind {
        TagKind::Idea => IdeaView { idea_tag: t, ..i },
        TagKind::Part => IdeaView { part_tag: t, ..i },
    }
}

pub open spec fn tag_of(i: IdeaView, kind: TagKind) -> Seq<char> {
    match kind {
        TagKind::Idea => i.idea_tag,
        TagKind::Part => i.part_tag,
    }
}

pub open spec fn set_movements(s: SermonView, ms: Seq<MovementView>) -> SermonView {
    SermonView { movements: ms, ..s }
}

pub open spec fn apply_cmd(c: Cmd, s: SermonView) -> SermonView
    decreases c,
{
    let ms = s.movements;
    match c {
        Cmd::InsertIdea { movement, index, idea } => set_ideas(
            s,
            movement as int,
            ms[movement as int].ideas.insert(index as int, idea@),
        ),
        Cmd::DeleteIdea { movement, index, .. } => set_ideas(
            s,
            movement as int,
            ms[movement as int].ideas.remove(index as int),
        ),
        Cmd::EditIdeaText { id, new, .. } => match find_idea_spec(ms, id@) {
            Some(p) => set_idea(s, p.0, p.1, with_text(ms[p.0].ideas[p.1], new@)),
            None => s,
        },
        Cmd::EditIdeaNotes { id, new, .. } => match find_idea_spec(ms, id@) {
            Some(p) => set_idea(s, p.0, p.1, with_notes(ms[p.0].ideas[p.1], new@)),
            None => s,
        },
        Cmd::SetIdeaTag { id, kind, new, .. } => match find_idea_spec(ms, id@) {
            Some(p) => set_idea(s, p.0, p.1, with_tag(ms[p.0].ideas[p.1], kind, new@)),
            None => s,
        },
        Cmd::MoveIdea { from, to } => {
            let moved = ms[from.0 as int].ideas[from.1 as int];
            let s1 = set_ideas(s, from.0 as int, ms[from.0 as int].ideas.remove(from.1 as int));
            set_ideas(s1, to.0 as int, s1.movements[to.0 as int].ideas.insert(to.1 as int, moved))
        },
        Cmd::InsertMovement { at, movement } => set_movements(
            s,
            ms.insert(at as int, movement@),
        ),
        Cmd::DeleteMovement { at, .. } => set_movements(s, ms.remove(at as int)),
        Cmd::RenameMovement { id, new, .. } => match find_movement_spec(ms, id@) {
            Some(k) => set_movements(s, ms.update(k, MovementView { name: new@, ..ms[k] })),
            None => s,
        },
        Cmd::MoveMovement { from, to } => set_movements(
            s,
            ms.remove(from as int).insert(to as int, ms[from as int]),
        ),
        Cmd::ToggleMovementCollapsed { id } => match find_movement_spec(ms, id@) {
            Some(k) => set_movements(
                s,
                ms.update(k, MovementView { collapsed: !ms[k].collapsed, ..ms[k] }),
            ),
            None => s,
        },
        Cmd::SetTitle { new, .. } => SermonView { title: new@, ..s },
        Cmd::SetSeries { new, .. } => SermonView { series: opt_string_view(new), ..s },
        Cmd::SetPlannedDate { new, .. } => SermonView {
            planned_date: opt_date_view(new.0),
            lectionary: opt_link_view(new.1),
            ..s
        },
        Cmd::SetSermonTags { kind, new, .. } => match kind {
            SermonTagKind::S => SermonView { s_tags: strings_view(new@), ..s },
            SermonTagKind::T => SermonView { t_tags: strings_view(new@), ..s },
        },
        Cmd::Composite(cs) => apply_cmds(cs@, s),
    }
}

/// Commands applied one after another, first to last.
pub open spec fn apply_cmds(cs: Seq<Cmd>, s: SermonView) -> SermonView
    decreases cs,
{
    if cs.len() == 0 {
        s
    } else {
        apply_cmds(cs.drop_first(), apply_cmd(cs[0], s))
    }
}

/// The positions a command touches exist, so applying it cannot fail.
pub open spec fn applicable(c: Cmd, s: SermonView) -> bool
    decreases c,
{
    let ms = s.movements;
    match c {
        Cmd::InsertIdea { movement, index, .. } => movement < ms.len() && index
            <= ms[movement as int].ideas.len(),
        Cmd::DeleteIdea { movement, index, .. } => idea_at(ms, movement as int, index as int),
        Cmd::MoveIdea { from, to } => idea_at(ms, from.0 as int, from.1 as int) && to.0
            < ms.len() && to.1 + (if to.0 == from.0 {
            1int
        } else {
            0
        }) <= ms[to.0 as int].ideas.len(),
        Cmd::InsertMovement { at, .. } => at <= ms.len(),
        Cmd::DeleteMovement { at, .. } => at < ms.len(),
        Cmd::MoveMovement { from, to } => from < ms.len() && to < ms.len(),
        Cmd::Composite(cs) => applicable_cmds(cs@, s),
        _ => true,
    }
}

pub open spec fn applicable_cmds(cs: Seq<Cmd>, s: SermonView) -> bool
    decreases cs,
{
    cs.len() == 0 || (applicable(cs[0], s) && applicable_cmds(cs.drop_first(), apply_cmd(cs[0], s)))
}

/// The command applies to `s` and the state it carries as "before" is what
/// `s` holds, so its inverse restores `s`.
pub open spec fn undoable(c: Cmd, s: SermonView) -> bool
    decreases c,
{
    let ms = s.movements;
    match c {
        Cmd::DeleteIdea { movement, index, idea } => idea_at(ms, movement as int, index as int)
            && ms[movement as int].ideas[index as int] == idea@,
        Cmd::EditIdeaText { id, old, .. } => match find_idea_spec(ms, id@) {
            Some(p) => ms[p.0].ideas[p.1].text == old@,
            None => true,
        },
        Cmd::EditIdeaNotes { id, old, .. } => match find_idea_spec(ms, id@) {
            Some(p) => ms[p.0].ideas[p.1].notes == old@,
            None => true,
        },
        Cmd::SetIdeaTag { id, kind, old, .. } => match find_idea_spec(ms, id@) {
            Some(p) => tag_of(ms[p.0].ideas[p.1], kind) == old@,
            None => true,
        },
        Cmd::DeleteMovement { at, movement } => at < ms.len() && ms[at as int] == movement@,
        Cmd::RenameMovement { id, old, .. } => match find_movement_spec(ms, id@) {
            Some(k) => ms[k].name == old@,
            None => true,
        },
        Cmd::SetTitle { old, .. } => s.title == old@,
        Cmd::SetSeries { old, .. } => s.series == opt_string_view(old),
        Cmd::SetPlannedDate { old, .. } => s.planned_date == opt_date_view(old.0) && s.lectionary
            == opt_link_view(old.1),
        Cmd::SetSermonTags { kind, old, .. } => match kind {
            SermonTagKind::S => s.s_tags == strings_view(old@),
            SermonTagKind::T => s.t_tags == strings_view(old@),
        },
        Cmd::Composite(cs) => undoable_cmds(cs@, s),
        _ => applicable(c, s),
    }
}

pub open spec fn undoable_cmds(cs: Seq<Cmd>, s: SermonView) -> bool
    decreases cs,
{
    cs.len() == 0 || (undoable(cs[0], s) && undoable_cmds(cs.drop_first(), apply_cmd(cs[0], s)))
}

/// `d` is the inverse of `c`: insert and delete swap, moves swap their
/// ends, edits swap old and new, and a composite holds the inverses of
/// its children in reverse order.
pub open spec fn is_inverse(c: Cmd, d: Cmd) -> bool
    decreases c,
{
    match c {
        Cmd::InsertIdea { movement, index, idea } => d matches Cmd::DeleteIdea {
            movement: m2,
            index: i2,
            idea: idea2,
        } && m2 == movement && i2 == index && idea2@ == idea@,
        Cmd::DeleteIdea { movement, index, idea } => d matches Cmd::InsertIdea {
            movement: m2,
            index: i2,
            idea: idea2,
        } && m2 == movement && i2 == index && idea2@ == idea@,
        Cmd::EditIdeaText { id, old, new } => d matches Cmd::EditIdeaText {
            id: id2,
            old: old2,
            new: new2,
        } && id2@ == id@ && old2@ == new@ && new2@ == old@,
        Cmd::EditIdeaNotes { id, old, new } => d matches Cmd::EditIdeaNotes {
            id: id2,
            old: old2,
            new: new2,
        } && id2@ == id@ && old2@ == new@ && new2@ == old@,
        Cmd::SetIdeaTag { id, kind, old, new } => d matches Cmd::SetIdeaTag {
            id: id2,
            kind: kind2,
            old: old2,
            new: new2,
        } && id2@ == id@ && kind2 == kind && old2@ == new@ && new2@ == old@,
        Cmd::MoveIdea { from, to } => d matches Cmd::MoveIdea { from: from2, to: to2 } && from2
            == to && to2 == from,
        Cmd::InsertMovement { at, movement } => d matches Cmd::DeleteMovement {
            at: at2,
            movement: movement2,
        } && at2 == at && movement2@ == movement@,
        Cmd::DeleteMovement { at, movement } => d matches Cmd::InsertMovement {
            at: at2,
            movement: movement2,
        } && at2 == at && movement2@ == movement@,
        Cmd::RenameMovement { id, old, new } => d matches Cmd::RenameMovement {
            id: id2,
            old: old2,
            new: new2,
        } && id2@ == id@ && old2@ == new@ && new2@ == old@,
        Cmd::MoveMovement { from, to } => d matches Cmd::MoveMovement { from: from2, to: to2 }
            && from2 == to && to2 == from,
        Cmd::ToggleMovementCollapsed { id } => d matches Cmd::ToggleMovementCollapsed { id: id2 }
            && id2@ == id@,
        Cmd::SetTitle { old, new } => d matches Cmd::SetTitle { old: old2, new: new2 } && old2@
            == new@ && new2@ == old@,
        Cmd::SetSeries { old, new } => d matches Cmd::SetSeries { old: old2, new: new2 }
            && opt_string_view(old2) == opt_string_view(new) && opt_string_view(new2)
            == opt_string_view(old),
        Cmd::SetPlannedDate { old, new } => d matches Cmd::SetPlannedDate { old: old2, new: new2 }
            && opt_date_view(old2.0) == opt_date_view(new.0) && opt_link_view(old2.1)
            == opt_link_view(new.1) && opt_date_view(new2.0) == opt_date_view(old.0)
            && opt_link_view(new2.1) == opt_link_view(old.1),
        Cmd::SetSermonTags { kind, old, new } => d matches Cmd::SetSermonTags {
            kind: kind2,
            old: old2,
            new: new2,
        } && kind2 == kind && strings_view(old2@) == strings_view(new@) && strings_view(new2@)
            == strings_view(old@),
        Cmd::Composite(cs) => d matches Cmd::Composite(ds) && ds@.len() == cs@.len() && forall|
            k: int,
        | 0 <= k < cs@.len() ==> is_inverse(#[trigger] cs@[k], ds@[cs@.len() - 1 - k]),
    }
}

/// Two commands agree field by field, each field taken by its view.
pub open spec fn same_cmd(c: Cmd, d: Cmd) -> bool
    decreases c,
{
    match c {
        Cmd::InsertIdea { movement, index, idea } => d matches Cmd::InsertIdea {
            movement: m2,
            index: i2,
            idea: idea2,
        } && m2 == movement && i2 == index && idea2@ == idea@,
        Cmd::DeleteIdea { movement, index, idea } => d matches Cmd::DeleteIdea {
            movement: m2,
            index: i2,
            idea: idea2,
        } && m2 == movement && i2 == index && idea2@ == idea@,
        Cmd::EditIdeaText { id, old, new } => d matches Cmd::EditIdeaText {
            id: id2,
            old: old2,
            new: new2,
        } && id2@ == id@ && old2@ == old@ && new2@ == new@,
        Cmd::EditIdeaNotes { id, old, new } => d matches Cmd::EditIdeaNotes {
            id: id2,
            old: old2,
            new: new2,
        } && id2@ == id@ && old2@ == old@ && new2@ == new@,
        Cmd::SetIdeaTag { id, kind, old, new } => d matches Cmd::SetIdeaTag {
            id: id2,
            kind: kind2,
            old: old2,
            new: new2,
        } && id2@ == id@ && kind2 == kind && old2@ == old@ && new2@ == new@,
        Cmd::MoveIdea { from, to } => d matches Cmd::MoveIdea { from: from2, to: to2 } && from2
            == from && to2 == to,
        Cmd::InsertMovement { at, movement } => d matches Cmd::InsertMovement {
            at: at2,
            movement: movement2,
        } && at2 == at && movement2@ == movement@,
        Cmd::DeleteMovement { at, movement } => d matches Cmd::DeleteMovement {
            at: at2,
            movement: movement2,
        } && at2 == at && movement2@ == movement@,
        Cmd::RenameMovement { id, old, new } => d matches Cmd::RenameMovement {
            id: id2,
            old: old2,
            new: new2,
        } && id2@ == id@ && old2@ == old@ && new2@ == new@,
        Cmd::MoveMovement { from, to } => d matches Cmd::MoveMovement { from: from2, to: to2 }
            && from2 == from && to2 == to,
        Cmd::ToggleMovementCollapsed { id } => d matches Cmd::ToggleMovementCollapsed { id: id2 }
            && id2@ == id@,
        Cmd::SetTitle { old, new } => d matches Cmd::SetTitle { old: old2, new: new2 } && old2@
            == old@ && new2@ == new@,
        Cmd::SetSeries { old, new } => d matches Cmd::SetSeries { old: old2, new: new2 }
            && opt_string_view(old2) == opt_string_view(old) && opt_string_view(new2)
            == opt_string_view(new),
        Cmd::SetPlannedDate { old, new } => d matches Cmd::SetPlannedDate { old: old2, new: new2 }
            && opt_date_view(old2.0) == opt_date_view(old.0) && opt_link_view(old2.1)
            == opt_link_view(old.1) && opt_date_view(new2.0) == opt_date_view(new.0)
            && opt_link_view(new2.1) == opt_link_view(new.1),
        Cmd::SetSermonTags { kind, old, new } => d matches Cmd::SetSermonTags {
            kind: kind2,
            old: old2,
            new: new2,
        } && kind2 == kind && strings_view(old2@) == strings_view(old@) && strings_view(new2@)
            == strings_view(new@),
        Cmd::Composite(cs) => d matches Cmd::Composite(ds) && ds@.len() == cs@.len() && forall|
            k: int,
        | 0 <= k < cs@.len() ==> same_cmd(#[trigger] cs@[k], ds@[k]),
    }
}

/// Inverting twice gives the command back: an inverse of an inverse of `c`
/// agrees with `c` field by field.
pub proof fn lemma_inverse_twice(c: Cmd, d: Cmd, e: Cmd)
    requires
        is_inverse(c, d),
        is_inverse(d, e),
    ensures
        same_cmd(c, e),
    decreases c,
{
    if let Cmd::Composite(cs) = c {
        if let Cmd::Composite(ds) = d {
            if let Cmd::Composite(es) = e {
                let n = cs@.len();
                assert forall|k: int| 0 <= k < n implies same_cmd(#[trigger] cs@[k], es@[k]) by {
                    assert(is_inverse(cs@[k], ds@[n - 1 - k]));
                    assert(is_inverse(ds@[n - 1 - k], es@[n - 1 - (n - 1 - k)]));
                    lemma_inverse_twice(cs@[k], ds@[n - 1 - k], es@[k]);
                }
            }
        }
    }
}

/// A command has one inverse up to the views of its fields: two inverses
/// of `c` agree field by field.
pub proof fn lemma_inverse_unique(c: Cmd, d1: Cmd, d2: Cmd)
    requires
        is_inverse(c, d1),
        is_inverse(c, d2),
    ensures
        same_cmd(d1, d2),
    decreases c,
{
    if let Cmd::Composite(cs) = c {
        if let Cmd::Composite(ds1) = d1 {
            if let Cmd::Composite(ds2) = d2 {
                let n = cs@.len();
                assert forall|j: int| 0 <= j < n implies same_cmd(#[trigger] ds1@[j], ds2@[j]) by {
                    let k = n - 1 - j;
                    assert(is_inverse(cs@[k], ds1@[n - 1 - k]));
                    assert(is_inverse(cs@[k], ds2@[n - 1 - k]));
                    lemma_inverse_unique(cs@[k], ds1@[j], ds2@[j]);
                }
            }
        }
    }
}

/// Commands that agree field by field act alike: each applies where the
/// other does and leaves the same sermon.
pub proof fn lemma_same_cmd_acts_alike(a: Cmd, b: Cmd, s: SermonView)
    requires
        same_cmd(a, b),
    ensures
        applicable(a, s) == applicable(b, s),
        apply_cmd(a, s) == apply_cmd(b, s),
    decreases a, 1int, 0int,
{
    if let Cmd::Composite(cs) = a {
        if let Cmd::Composite(ds) = b {
            lemma_same_cmds_act_alike(a, cs@, ds@, s);
        }
    }
}

proof fn lemma_same_cmds_act_alike(parent: Cmd, cs: Seq<Cmd>, ds: Seq<Cmd>, s: SermonView)
    requires
        parent matches Cmd::Composite(v) && (forall|k: int| 0 <= k < cs.len() ==> #[trigger] cs[k]
            == v@[v@.len() - cs.len() + k]) && cs.len() <= v@.len(),
        ds.len() == cs.len(),
        forall|k: int| 0 <= k < cs.len() ==> same_cmd(#[trigger] cs[k], ds[k]),
    ensures
        applicable_cmds(cs, s) == applicable_cmds(ds, s),
        apply_cmds(cs, s) == apply_cmds(ds, s),
    decreases parent, 0int, cs.len(),
{
    if cs.len() > 0 {
        let v = parent->Composite_0;
        assert(cs[0] == v@[v@.len() - cs.len()]);
        lemma_same_cmd_acts_alike(cs[0], ds[0], s);
        let rest = cs.drop_first();
        assert forall|k: int| 0 <= k < rest.len() implies #[trigger] rest[k] == v@[v@.len()
            - rest.len() + k] by {
            assert(rest[k] == cs[k + 1]);
        }
        assert forall|k: int| 0 <= k < rest.len() implies same_cmd(#[trigger] rest[k], ds.drop_first()[k]) by {
            assert(rest[k] == cs[k + 1]);
        }
        lemma_same_cmds_act_alike(parent, rest, ds.drop_first(), apply_cmd(cs[0], s));
    }
}

// ---------------------------------------------------------------------------
// Facts about sequences of commands.

/// Running `p` then `q` is running `p + q`; likewise for applicability and
/// undoability.
pub proof fn lemma_cmds_split(p: Seq<Cmd>, q: Seq<Cmd>, s: SermonView)
    ensures
        apply_cmds(p + q, s) == apply_cmds(q, apply_cmds(p, s)),
        applicable_cmds(p + q, s) == (applicable_cmds(p, s) && applicable_cmds(
            q,
            apply_cmds(p, s),
        )),
        undoable_cmds(p + q, s) == (undoable_cmds(p, s) && undoable_cmds(q, apply_cmds(p, s))),
    decreases p.len(),
{
    if p.len() == 0 {
        assert(p + q =~= q);
    } else {
        assert((p + q).drop_first() =~= p.drop_first() + q);
        assert((p + q)[0] == p[0]);
        lemma_cmds_split(p.drop_first(), q, apply_cmd(p[0], s));
    }
}

proof fn lemma_cmds_single(c: Cmd, s: SermonView)
    ensures
        apply_cmds(seq![c], s) == apply_cmd(c, s),
        applicable_cmds(seq![c], s) == applicable(c, s),
        undoable_cmds(seq![c], s) == undoable(c, s),
{
    reveal_with_fuel(apply_cmds, 2);
    reveal_with_fuel(applicable_cmds, 2);
    reveal_with_fuel(undoable_cmds, 2);
    assert(seq![c].drop_first() =~= Seq::<Cmd>::empty());
    assert(seq![c][0] == c);
}

/// An undoable command is applicable.
pub proof fn lemma_undoable_applicable(c: Cmd, s: SermonView)
    requires
        undoable(c, s),
    ensures
        applicable(c, s),
    decreases c,
{
    if let Cmd::Composite(cs) = c {
        lemma_undoable_applicable_cmds(cs@, s);
    }
}

proof fn lemma_undoable_applicable_cmds(cs: Seq<Cmd>, s: SermonView)
    requires
        undoable_cmds(cs, s),
    ensures
        applicable_cmds(cs, s),
    decreases cs,
{
    if cs.len() > 0 {
        lemma_undoable_applicable(cs[0], s);
        lemma_undoable_applicable_cmds(cs.drop_first(), apply_cmd(cs[0], s));
    }
}

// ---------------------------------------------------------------------------
// Executing commands.

fn clone_opt_date_link(p: &(Option<Date>, Option<LectionaryLink>)) -> (r: (
    Option<Date>,
    Option<LectionaryLink>,
))
    ensures
        opt_date_view(r.0) == opt_date_view(p.0),
        opt_link_view(r.1) == opt_link_view(p.1),
{
    (p.0, clone_opt_link(&p.1))
}

impl Cmd {
    /// Whether the command applies to `s`: every position it touches
    /// exists, each step of a composite in the sermon the steps before it
    /// leave.
    pub fn applies_to(&self, s: &Sermon) -> (r: bool)
        ensures
            r == applicable(*self, s@),
        decreases self,
    {
        match self {
            Cmd::InsertIdea { movement, index, .. } => *movement < s.movements.len() && *index
                <= s.movements[*movement].ideas.len(),
            Cmd::DeleteIdea { movement, index, .. } => *movement < s.movements.len() && *index
                < s.movements[*movement].ideas.len(),
            Cmd::MoveIdea { from, to } => {
                if !(from.0 < s.movements.len() && from.1 < s.movements[from.0].ideas.len()
                    && to.0 < s.movements.len()) {
                    return false;
                }
                let room = s.movements[to.0].ideas.len();
                if to.0 == from.0 {
                    to.1 < room
                } else {
                    to.1 <= room
                }
            },
            Cmd::InsertMovement { at, .. } => *at <= s.movements.len(),
            Cmd::DeleteMovement { at, .. } => *at < s.movements.len(),
            Cmd::MoveMovement { from, to } => *from < s.movements.len() && *to < s.movements.len(),
            Cmd::Composite(cs) => {
                let mut t = s.clone();
                let mut k: usize = 0;
                assert(cs@.skip(0) =~= cs@);
                while k < cs.len()
                    invariant
                        k <= cs@.len(),
                        *self == Cmd::Composite(*cs),
                        applicable_cmds(cs@, s@) == applicable_cmds(cs@.skip(k as int), t@),
                    decreases cs@.len() - k,
                {
                    let ghost rest = cs@.skip(k as int);
                    assert(rest.len() > 0 && rest[0] == cs@[k as int]);
                    assert(rest.drop_first() =~= cs@.skip(k + 1));
                    proof {
                        let v: Vec<Cmd> = (*self)->Composite_0;
                        assert(v == *cs);
                        assert(decreases_to!(*self => v));
                        assert(decreases_to!(v => v@));
                        assert(decreases_to!(v@ => v@[k as int]));
                        assert(decreases_to!(*self => cs@[k as int]));
                    }
                    if !cs[k].applies_to(&t) {
                        return false;
                    }
                    cs[k].apply_to(&mut t);
                    k = k + 1;
                }
                true
            },
            _ => true,
        }
    }
}

fn exec_insert_idea(s: &mut Sermon, m: usize, i: usize, idea: &Idea)
    requires
        m < old(s)@.movements.len(),
        i <= old(s)@.movements[m as int].ideas.len(),
    ensures
        final(s)@ == set_ideas(old(s)@, m as int, old(s)@.movements[m as int].ideas.insert(i as int, idea@)),
{
    let ghost s0 = s@;
    s.movements[m].ideas.insert(i, idea.clone());
    assert(ideas_view(s.movements@[m as int].ideas@) =~= s0.movements[m as int].ideas.insert(i as int, idea@));
    assert(s@.movements =~= set_ideas(s0, m as int, s0.movements[m as int].ideas.insert(i as int, idea@)).movements);
}

fn exec_delete_idea(s: &mut Sermon, m: usize, i: usize) -> (r: Idea)
    requires
        idea_at(old(s)@.movements, m as int, i as int),
    ensures
        final(s)@ == set_ideas(old(s)@, m as int, old(s)@.movements[m as int].ideas.remove(i as int)),
        r@ == old(s)@.movements[m as int].ideas[i as int],
{
    let ghost s0 = s@;
    let r = s.movements[m].ideas.remove(i);
    assert(ideas_view(s.movements@[m as int].ideas@) =~= s0.movements[m as int].ideas.remove(i as int));
    assert(s@.movements =~= set_ideas(s0, m as int, s0.movements[m as int].ideas.remove(i as int)).movements);
    r
}

/// Which idea field an edit writes.
enum IdeaField {
    Text,
    Notes,
    Tag(TagKind),
}

spec fn with_field(i: IdeaView, f: IdeaField, t: Seq<char>) -> IdeaView {
    match f {
        IdeaField::Text => with_text(i, t),
        IdeaField::Notes => with_notes(i, t),
        IdeaField::Tag(k) => with_tag(i, k, t),
    }
}

fn exec_edit_idea(s: &mut Sermon, id: &String, f: IdeaField, new: &String)
    ensures
        final(s)@ == (match find_idea_spec(old(s)@.movements, id@) {
            Some(p) => set_idea(old(s)@, p.0, p.1, with_field(old(s)@.movements[p.0].ideas[p.1], f, new@)),
            None => old(s)@,
        }),
{
    let ghost s0 = s@;
    proof {
        lemma_find_in_table_valid(idea_ids(s0.movements), id@);
    }
    if let Some((m, i)) = s.find_idea(id.as_str()) {
        match f {
            IdeaField::Text => {
                s.movements[m].ideas[i].text = new.clone();
            },
            IdeaField::Notes => {
                s.movements[m].ideas[i].notes = new.clone();
            },
            IdeaField::Tag(TagKind::Idea) => {
                s.movements[m].ideas[i].idea_tag = new.clone();
            },
            IdeaField::Tag(TagKind::Part) => {
                s.movements[m].ideas[i].part_tag = new.clone();
            },
        }
        assert(ideas_view(s.movements@[m as int].ideas@) =~= s0.movements[m as int].ideas.update(i as int, with_field(s0.movements[m as int].ideas[i as int], f, new@)));
        assert(s@.movements =~= set_idea(s0, m as int, i as int, with_field(s0.movements[m as int].ideas[i as int], f, new@)).movements);
    }
}

impl Cmd {
    /// Applies the command to `s`.
    #[verifier::rlimit(40)]
    pub fn apply_to(&self, s: &mut Sermon)
        requires
            applicable(*self, old(s)@),
        ensures
            final(s)@ == apply_cmd(*self, old(s)@),
        decreases self,
    {
        let ghost s0 = s@;
        match self {
            Cmd::InsertIdea { movement, index, idea } => {
                exec_insert_idea(s, *movement, *index, idea);
            },
            Cmd::DeleteIdea { movement, index, .. } => {
                exec_delete_idea(s, *movement, *index);
            },
            Cmd::EditIdeaText { id, new, .. } => {
                exec_edit_idea(s, id, IdeaField::Text, new);
            },
            Cmd::EditIdeaNotes { id, new, .. } => {
                exec_edit_idea(s, id, IdeaField::Notes, new);
            },
            Cmd::SetIdeaTag { id, kind, new, .. } => {
                exec_edit_idea(s, id, IdeaField::Tag(*kind), new);
            },
            Cmd::MoveIdea { from, to } => {
                let idea = exec_delete_idea(s, from.0, from.1);
                exec_insert_idea(s, to.0, to.1, &idea);
            },
            Cmd::InsertMovement { at, movement } => {
                s.movements.insert(*at, movement.clone());
                assert(s@.movements =~= apply_cmd(*self, s0).movements);
            },
            Cmd::DeleteMovement { at, .. } => {
                s.movements.remove(*at);
                assert(s@.movements =~= apply_cmd(*self, s0).movements);
            },
            Cmd::RenameMovement { id, new, .. } => {
                proof {
                    lemma_find_in_list_valid(movement_ids(s0.movements), id@);
                }
                if let Some(k) = s.find_movement(id.as_str()) {
                    s.movements[k].name = new.clone();
                    assert(s@.movements =~= apply_cmd(*self, s0).movements);
                }
            },
            Cmd::MoveMovement { from, to } => {
                let m = s.movements.remove(*from);
                s.movements.insert(*to, m);
                assert(s@.movements =~= apply_cmd(*self, s0).movements);
            },
            Cmd::ToggleMovementCollapsed { id } => {
                proof {
                    lemma_find_in_list_valid(movement_ids(s0.movements), id@);
                }
                if let Some(k) = s.find_movement(id.as_str()) {
                    let flipped = !s.movements[k].collapsed;
                    s.movements[k].collapsed = flipped;
                    assert(s@.movements =~= apply_cmd(*self, s0).movements);
                }
            },
            Cmd::SetTitle { new, .. } => {
                s.title = new.clone();
            },
            Cmd::SetSeries { new, .. } => {
                s.series = clone_opt_string(new);
            },
            Cmd::SetPlannedDate { new, .. } => {
                let (d, l) = clone_opt_date_link(new);
                s.planned_date = d;
                s.lectionary = l;
            },
            Cmd::SetSermonTags { kind, new, .. } => match kind {
                SermonTagKind::S => {
                    s.s_tags = clone_strings(new);
                },
                SermonTagKind::T => {
                    s.t_tags = clone_strings(new);
                },
            },
            Cmd::Composite(cmds) => {
                let n = cmds.len();
                let mut k: usize = 0;
                assert(cmds@.subrange(0, 0) =~= Seq::<Cmd>::empty());
                while k < n
                    invariant
                        n == cmds@.len(),
                        k <= n,
                        *self == Cmd::Composite(*cmds),
                        applicable_cmds(cmds@, s0),
                        s@ == apply_cmds(cmds@.subrange(0, k as int), s0),
                    decreases n - k,
                {
                    proof {
                        let pre = cmds@.subrange(0, k as int);
                        let rest = cmds@.subrange(k as int, n as int);
                        assert(pre + rest =~= cmds@);
                        lemma_cmds_split(pre, rest, s0);
                        assert(rest[0] == cmds@[k as int]);
                        lemma_cmds_split(pre, seq![cmds@[k as int]], s0);
                        lemma_cmds_single(cmds@[k as int], apply_cmds(pre, s0));
                        assert(pre + seq![cmds@[k as int]] =~= cmds@.subrange(0, k + 1));
                    }
                    proof {
                        let v: Vec<Cmd> = (*self)->Composite_0;
                        assert(v == *cmds);
                        assert(decreases_to!(*self => v));
                        assert(decreases_to!(v => v@));
                        assert(decreases_to!(v@ => v@[k as int]));
                        assert(decreases_to!(*self => cmds@[k as int]));
                    }
                    cmds[k].apply_to(s);
                    k = k + 1;
                }
                assert(cmds@.subrange(0, n as int) =~= cmds@);
            },
        }
    }
}


impl Cmd {
    /// The command that undoes this one.
    pub fn inverted(&self) -> (r: Cmd)
        ensures
            is_inverse(*self, r),
        decreases self,
    {
        match self {
            Cmd::InsertIdea { movement, index, idea } => Cmd::DeleteIdea {
                movement: *movement,
                index: *index,
                idea: idea.clone(),
            },
            Cmd::DeleteIdea { movement, index, idea } => Cmd::InsertIdea {
                movement: *movement,
                index: *index,
                idea: idea.clone(),
            },
            Cmd::EditIdeaText { id, old, new } => Cmd::EditIdeaText {
                id: id.clone(),
                old: new.clone(),
                new: old.clone(),
            },
            Cmd::EditIdeaNotes { id, old, new } => Cmd::EditIdeaNotes {
                id: id.clone(),
                old: new.clone(),
                new: old.clone(),
            },
            Cmd::SetIdeaTag { id, kind, old, new } => Cmd::SetIdeaTag {
                id: id.clone(),
                kind: *kind,
                old: new.clone(),
                new: old.clone(),
            },
            Cmd::MoveIdea { from, to } => Cmd::MoveIdea { from: *to, to: *from },
            Cmd::InsertMovement { at, movement } => Cmd::DeleteMovement {
                at: *at,
                movement: movement.clone(),
            },
            Cmd::DeleteMovement { at, movement } => Cmd::InsertMovement {
                at: *at,
                movement: movement.clone(),
            },
            Cmd::RenameMovement { id, old, new } => Cmd::RenameMovement {
                id: id.clone(),
                old: new.clone(),
                new: old.clone(),
            },
            Cmd::MoveMovement { from, to } => Cmd::MoveMovement { from: *to, to: *from },
            Cmd::ToggleMovementCollapsed { id } => Cmd::ToggleMovementCollapsed { id: id.clone() },
            Cmd::SetTitle { old, new } => Cmd::SetTitle { old: new.clone(), new: old.clone() },
            Cmd::SetSeries { old, new } => Cmd::SetSeries {
                old: clone_opt_string(new),
                new: clone_opt_string(old),
            },
            Cmd::SetPlannedDate { old, new } => Cmd::SetPlannedDate {
                old: clone_opt_date_link(new),
                new: clone_opt_date_link(old),
            },
            Cmd::SetSermonTags { kind, old, new } => Cmd::SetSermonTags {
                kind: *kind,
                old: clone_strings(new),
                new: clone_strings(old),
            },
            Cmd::Composite(cmds) => {
                let n = cmds.len();
                let mut out: Vec<Cmd> = Vec::new();
                let mut k: usize = n;
                while k > 0
                    invariant
                        n == cmds@.len(),
                        k <= n,
                        *self == Cmd::Composite(*cmds),
                        out@.len() == n - k,
                        forall|j: int|
                            0 <= j < out@.len() ==> is_inverse(
                                cmds@[n - 1 - j],
                                #[trigger] out@[j],
                            ),
                    decreases k,
                {
                    k = k - 1;
                    proof {
                        let v: Vec<Cmd> = (*self)->Composite_0;
                        assert(v == *cmds);
                        assert(decreases_to!(*self => v));
                        assert(decreases_to!(v => v@));
                        assert(decreases_to!(v@ => v@[k as int]));
                    }
                    let inv = cmds[k].inverted();
                    out.push(inv);
                }
                let r = Cmd::Composite(out);
                assert forall|j: int| 0 <= j < cmds@.len() implies is_inverse(
                    #[trigger] cmds@[j],
                    out@[cmds@.len() - 1 - j],
                ) by {
                    assert(n - 1 - (n - 1 - j) == j);
                }
                r
            },
        }
    }
}

// ---------------------------------------------------------------------------
// The inverse of a command undoes it.

proof fn lemma_seq_insert_remove<T>(v: Seq<T>, i: int, x: T)
    requires
        0 <= i <= v.len(),
    ensures
        v.insert(i, x).remove(i) == v,
{
    assert(v.insert(i, x).remove(i) =~= v);
}

proof fn lemma_seq_remove_insert<T>(v: Seq<T>, i: int)
    requires
        0 <= i < v.len(),
    ensures
        v.remove(i).insert(i, v[i]) == v,
{
    assert(v.remove(i).insert(i, v[i]) =~= v);
}

/// Rewriting one idea without changing its id keeps every id table.
proof fn lemma_set_idea_ids(s: SermonView, m: int, i: int, x: IdeaView)
    requires
        idea_at(s.movements, m, i),
        x.id == s.movements[m].ideas[i].id,
    ensures
        idea_ids(set_idea(s, m, i, x).movements) == idea_ids(s.movements),
        movement_ids(set_idea(s, m, i, x).movements) == movement_ids(s.movements),
{
    let ms2 = set_idea(s, m, i, x).movements;
    assert(ms2[m].ideas.map_values(|iv: IdeaView| iv.id) =~= s.movements[m].ideas.map_values(
        |iv: IdeaView| iv.id,
    ));
    assert(idea_ids(ms2) =~= idea_ids(s.movements));
    assert(movement_ids(ms2) =~= movement_ids(s.movements));
}

/// Rewriting one movement without touching its id or ideas keeps every id
/// table.
proof fn lemma_set_movement_ids(ms: Seq<MovementView>, k: int, mv: MovementView)
    requires
        0 <= k < ms.len(),
        mv.id == ms[k].id,
        mv.ideas == ms[k].ideas,
    ensures
        idea_ids(ms.update(k, mv)) == idea_ids(ms),
        movement_ids(ms.update(k, mv)) == movement_ids(ms),
{
    assert(idea_ids(ms.update(k, mv)) =~= idea_ids(ms));
    assert(movement_ids(ms.update(k, mv)) =~= movement_ids(ms));
}

proof fn lemma_undo_edit(s: SermonView, id: Seq<char>, f: IdeaField, new: Seq<char>, old: Seq<char>)
    requires
        match find_idea_spec(s.movements, id) {
            Some(p) => field_of(s.movements[p.0].ideas[p.1], f) == old,
            None => true,
        },
    ensures
        ({
            let s1 = edit_spec(s, id, f, new);
            edit_spec(s1, id, f, old) == s
        }),
{
    lemma_find_in_table_valid(idea_ids(s.movements), id);
    match find_idea_spec(s.movements, id) {
        Some(p) => {
            let iv = s.movements[p.0].ideas[p.1];
            let s1 = set_idea(s, p.0, p.1, with_field(iv, f, new));
            lemma_set_idea_ids(s, p.0, p.1, with_field(iv, f, new));
            assert(find_idea_spec(s1.movements, id) == Some(p));
            assert(s1.movements[p.0].ideas[p.1] == with_field(iv, f, new));
            assert(with_field(with_field(iv, f, new), f, old) =~= iv);
            let s2 = set_idea(s1, p.0, p.1, iv);
            assert(s2.movements[p.0].ideas =~= s.movements[p.0].ideas);
            assert(s2.movements =~= s.movements);
            assert(s2 =~= s);
        },
        None => {},
    }
}

spec fn field_of(i: IdeaView, f: IdeaField) -> Seq<char> {
    match f {
        IdeaField::Text => i.text,
        IdeaField::Notes => i.notes,
        IdeaField::Tag(k) => tag_of(i, k),
    }
}

spec fn edit_spec(s: SermonView, id: Seq<char>, f: IdeaField, new: Seq<char>) -> SermonView {
    match find_idea_spec(s.movements, id) {
        Some(p) => set_idea(s, p.0, p.1, with_field(s.movements[p.0].ideas[p.1], f, new)),
        None => s,
    }
}

proof fn lemma_undo_movement_edit(s: SermonView, id: Seq<char>, toggle: bool, new: Seq<char>, old: Seq<char>)
    requires
        toggle || (match find_movement_spec(s.movements, id) {
            Some(k) => s.movements[k].name == old,
            None => true,
        }),
    ensures
        ({
            let s1 = movement_edit_spec(s, id, toggle, new);
            movement_edit_spec(s1, id, toggle, old) == s
        }),
{
    lemma_find_in_list_valid(movement_ids(s.movements), id);
    match find_movement_spec(s.movements, id) {
        Some(k) => {
            let ms = s.movements;
            let mv1 = if toggle {
                MovementView { collapsed: !ms[k].collapsed, ..ms[k] }
            } else {
                MovementView { name: new, ..ms[k] }
            };
            lemma_set_movement_ids(ms, k, mv1);
            let s1 = set_movements(s, ms.update(k, mv1));
            assert(find_movement_spec(s1.movements, id) == Some(k));
            let mv2 = if toggle {
                MovementView { collapsed: !mv1.collapsed, ..mv1 }
            } else {
                MovementView { name: old, ..mv1 }
            };
            assert(mv2 =~= ms[k]);
            assert(ms.update(k, mv1).update(k, mv2) =~= ms);
            assert(set_movements(s1, s1.movements.update(k, mv2)) =~= s);
        },
        None => {},
    }
}

spec fn movement_edit_spec(s: SermonView, id: Seq<char>, toggle: bool, new: Seq<char>) -> SermonView {
    let ms = s.movements;
    match find_movement_spec(ms, id) {
        Some(k) => set_movements(
            s,
            ms.update(
                k,
                if toggle {
                    MovementView { collapsed: !ms[k].collapsed, ..ms[k] }
                } else {
                    MovementView { name: new, ..ms[k] }
                },
            ),
        ),
        None => s,
    }
}

proof fn lemma_undo_move_idea(s: SermonView, from: (usize, usize), to: (usize, usize))
    requires
        applicable(Cmd::MoveIdea { from, to }, s),
    ensures
        ({
            let s1 = apply_cmd(Cmd::MoveIdea { from, to }, s);
            applicable(Cmd::MoveIdea { from: to, to: from }, s1) && apply_cmd(
                Cmd::MoveIdea { from: to, to: from },
                s1,
            ) == s
        }),
{
    let ms = s.movements;
    let (a, i) = (from.0 as int, from.1 as int);
    let (b, j) = (to.0 as int, to.1 as int);
    let moved = ms[a].ideas[i];
    let s1a = set_ideas(s, a, ms[a].ideas.remove(i));
    let s1 = set_ideas(s1a, b, s1a.movements[b].ideas.insert(j, moved));
    assert(s1 == apply_cmd(Cmd::MoveIdea { from, to }, s));
    assert(s1.movements[b].ideas[j] == moved);
    let s2a = set_ideas(s1, b, s1.movements[b].ideas.remove(j));
    lemma_seq_insert_remove(s1a.movements[b].ideas, j, moved);
    assert(s2a.movements =~= s1a.movements);
    assert(s2a =~= s1a);
    let s2 = set_ideas(s2a, a, s2a.movements[a].ideas.insert(i, moved));
    lemma_seq_remove_insert(ms[a].ideas, i);
    assert(s2.movements[a].ideas =~= ms[a].ideas);
    assert(s2.movements =~= ms);
    assert(s2 =~= s);
}

/// Undoing: `d`, the inverse of `c`, applies after `c` and brings back the
/// sermon `c` was applied to, whenever `c` is undoable there.
pub proof fn lemma_inverse_undoes(c: Cmd, d: Cmd, s: SermonView)
    requires
        is_inverse(c, d),
        undoable(c, s),
    ensures
        applicable(d, apply_cmd(c, s)),
        apply_cmd(d, apply_cmd(c, s)) == s,
    decreases c,
{
    let ms = s.movements;
    match c {
        Cmd::InsertIdea { movement, index, idea } => {
            let m = movement as int;
            lemma_seq_insert_remove(ms[m].ideas, index as int, idea@);
            let s1 = apply_cmd(c, s);
            assert(apply_cmd(d, s1).movements =~= ms);
            assert(apply_cmd(d, s1) =~= s);
        },
        Cmd::DeleteIdea { movement, index, idea } => {
            let m = movement as int;
            lemma_seq_remove_insert(ms[m].ideas, index as int);
            let s1 = apply_cmd(c, s);
            assert(apply_cmd(d, s1).movements =~= ms);
            assert(apply_cmd(d, s1) =~= s);
        },
        Cmd::EditIdeaText { id, old, new } => {
            lemma_undo_edit(s, id@, IdeaField::Text, new@, old@);
        },
        Cmd::EditIdeaNotes { id, old, new } => {
            lemma_undo_edit(s, id@, IdeaField::Notes, new@, old@);
        },
        Cmd::SetIdeaTag { id, kind, old, new } => {
            lemma_undo_edit(s, id@, IdeaField::Tag(kind), new@, old@);
        },
        Cmd::MoveIdea { from, to } => {
            lemma_undo_move_idea(s, from, to);
        },
        Cmd::InsertMovement { at, movement } => {
            lemma_seq_insert_remove(ms, at as int, movement@);
            assert(apply_cmd(d, apply_cmd(c, s)) =~= s);
        },
        Cmd::DeleteMovement { at, movement } => {
            lemma_seq_remove_insert(ms, at as int);
            assert(apply_cmd(d, apply_cmd(c, s)) =~= s);
        },
        Cmd::RenameMovement { id, old, new } => {
            lemma_undo_movement_edit(s, id@, false, new@, old@);
        },
        Cmd::MoveMovement { from, to } => {
            let x = ms[from as int];
            let ms1 = ms.remove(from as int).insert(to as int, x);
            assert(ms1[to as int] == x);
            lemma_seq_insert_remove(ms.remove(from as int), to as int, x);
            lemma_seq_remove_insert(ms, from as int);
            assert(apply_cmd(d, apply_cmd(c, s)) =~= s);
        },
        Cmd::ToggleMovementCollapsed { id } => {
            lemma_undo_movement_edit(s, id@, true, seq![], seq![]);
        },
        Cmd::SetTitle { .. } => {
            assert(apply_cmd(d, apply_cmd(c, s)) =~= s);
        },
        Cmd::SetSeries { .. } => {
            assert(apply_cmd(d, apply_cmd(c, s)) =~= s);
        },
        Cmd::SetPlannedDate { .. } => {
            assert(apply_cmd(d, apply_cmd(c, s)) =~= s);
        },
        Cmd::SetSermonTags { kind, .. } => {
            assert(apply_cmd(d, apply_cmd(c, s)) =~= s);
        },
        Cmd::Composite(cs) => {
            let ds = d->Composite_0;
            assert(decreases_to!(c => cs));
            assert(decreases_to!(cs => cs@));
            lemma_inverse_undoes_cmds(cs@, ds@, s);
        },
    }
}

/// The sequence form of `lemma_inverse_undoes`: the inverses of a command
/// sequence, in reverse order, undo it.
pub proof fn lemma_inverse_undoes_cmds(cs: Seq<Cmd>, ds: Seq<Cmd>, s: SermonView)
    requires
        ds.len() == cs.len(),
        forall|k: int| 0 <= k < cs.len() ==> is_inverse(#[trigger] cs[k], ds[cs.len() - 1 - k]),
        undoable_cmds(cs, s),
    ensures
        applicable_cmds(ds, apply_cmds(cs, s)),
        apply_cmds(ds, apply_cmds(cs, s)) == s,
    decreases cs,
{
    if cs.len() == 0 {
    } else {
        let n = cs.len();
        let c0 = cs[0];
        let s1 = apply_cmd(c0, s);
        let rest = cs.drop_first();
        let dl = ds[n - 1];
        let dfront = ds.take(n - 1);
        assert(is_inverse(cs[0], ds[n - 1 - 0]));
        assert forall|k: int| 0 <= k < rest.len() implies is_inverse(
            #[trigger] rest[k],
            dfront[rest.len() - 1 - k],
        ) by {
            assert(rest[k] == cs[k + 1]);
            assert(is_inverse(cs[k + 1], ds[n - 1 - (k + 1)]));
        }
        lemma_inverse_undoes_cmds(rest, dfront, s1);
        let t = apply_cmds(cs, s);
        assert(t == apply_cmds(rest, s1));
        assert(dfront + seq![dl] =~= ds);
        lemma_cmds_split(dfront, seq![dl], t);
        lemma_cmds_single(dl, apply_cmds(dfront, t));
        lemma_inverse_undoes(c0, dl, s);
    }
}

// ---------------------------------------------------------------------------
// Classification and coalescing.

/// Commands that add, remove or reorder rows (forcing the editor to rebuild)
/// as opposed to text edits made in place.
pub open spec fn structural(c: Cmd) -> bool
    decreases c,
{
    match c {
        Cmd::EditIdeaText { .. } | Cmd::EditIdeaNotes { .. } | Cmd::SetIdeaTag { .. }
        | Cmd::SetTitle { .. } | Cmd::SetSeries { .. } | Cmd::SetSermonTags { .. }
        | Cmd::RenameMovement { .. } => false,
        Cmd::Composite(cs) => exists|k: int| 0 <= k < cs@.len() && structural(#[trigger] cs@[k]),
        _ => true,
    }
}

/// Identity of "the same editable field": two consecutive commands with the
/// same key merge into one undo step. Tags: 0 idea text, 1 idea notes,
/// 2 movement name, 3 title, 4 series.
pub open spec fn key_of(c: Cmd) -> Option<(int, Seq<char>)> {
    match c {
        Cmd::EditIdeaText { id, .. } => Some((0, id@)),
        Cmd::EditIdeaNotes { id, .. } => Some((1, id@)),
        Cmd::RenameMovement { id, .. } => Some((2, id@)),
        Cmd::SetTitle { .. } => Some((3, seq![])),
        Cmd::SetSeries { .. } => Some((4, seq![])),
        _ => None,
    }
}

/// Which editable field a text edit touched.
#[derive(Debug)]
pub enum CoalesceKey {
    IdeaText(String),
    IdeaNotes(String),
    MovementName(String),
    Title,
    Series,
}

pub open spec fn key_view(k: CoalesceKey) -> (int, Seq<char>) {
    match k {
        CoalesceKey::IdeaText(id) => (0, id@),
        CoalesceKey::IdeaNotes(id) => (1, id@),
        CoalesceKey::MovementName(id) => (2, id@),
        CoalesceKey::Title => (3, seq![]),
        CoalesceKey::Series => (4, seq![]),
    }
}

pub open spec fn opt_key_view(k: Option<CoalesceKey>) -> Option<(int, Seq<char>)> {
    match k {
        Some(k) => Some(key_view(k)),
        None => None,
    }
}

fn same_key(a: &Option<CoalesceKey>, b: &Option<CoalesceKey>) -> (r: bool)
    ensures
        r == (opt_key_view(*a) == opt_key_view(*b)),
{
    match (a, b) {
        (Some(CoalesceKey::IdeaText(x)), Some(CoalesceKey::IdeaText(y))) => crate::text::str_eq(
            x.as_str(),
            y.as_str(),
        ),
        (Some(CoalesceKey::IdeaNotes(x)), Some(CoalesceKey::IdeaNotes(y))) => crate::text::str_eq(
            x.as_str(),
            y.as_str(),
        ),
        (Some(CoalesceKey::MovementName(x)), Some(CoalesceKey::MovementName(y))) => crate::text::str_eq(
            x.as_str(),
            y.as_str(),
        ),
        (Some(CoalesceKey::Title), Some(CoalesceKey::Title)) => true,
        (Some(CoalesceKey::Series), Some(CoalesceKey::Series)) => true,
        (None, None) => true,
        _ => false,
    }
}

/// `top` with its "after" value replaced by that of `next`: a burst of edits
/// to one field collapses into one step from the value before the burst to
/// the value after it.
pub open spec fn merged(top: Cmd, next: Cmd) -> Cmd {
    match (top, next) {
        (Cmd::EditIdeaText { id, old, .. }, Cmd::EditIdeaText { new, .. }) => Cmd::EditIdeaText {
            id,
            old,
            new,
        },
        (Cmd::EditIdeaNotes { id, old, .. }, Cmd::EditIdeaNotes { new, .. }) => Cmd::EditIdeaNotes {
            id,
            old,
            new,
        },
        (Cmd::RenameMovement { id, old, .. }, Cmd::RenameMovement { new, .. }) => Cmd::RenameMovement {
            id,
            old,
            new,
        },
        (Cmd::SetTitle { old, .. }, Cmd::SetTitle { new, .. }) => Cmd::SetTitle { old, new },
        (Cmd::SetSeries { old, .. }, Cmd::SetSeries { new, .. }) => Cmd::SetSeries { old, new },
        _ => top,
    }
}

/// Merges `next` into `top`; both carry the same coalescing key.
fn merge_into(top: &mut Cmd, next: &Cmd)
    requires
        key_of(*old(top)) is Some,
        key_of(*old(top)) == key_of(*next),
    ensures
        *final(top) == merged(*old(top), *next),
{
    match (top, next) {
        (Cmd::EditIdeaText { new, .. }, Cmd::EditIdeaText { new: next_new, .. }) => {
            *new = next_new.clone();
        },
        (Cmd::EditIdeaNotes { new, .. }, Cmd::EditIdeaNotes { new: next_new, .. }) => {
            *new = next_new.clone();
        },
        (Cmd::RenameMovement { new, .. }, Cmd::RenameMovement { new: next_new, .. }) => {
            *new = next_new.clone();
        },
        (Cmd::SetTitle { new, .. }, Cmd::SetTitle { new: next_new, .. }) => {
            *new = next_new.clone();
        },
        (Cmd::SetSeries { new, .. }, Cmd::SetSeries { new: next_new, .. }) => {
            *new = clone_opt_string(next_new);
        },
        _ => {},
    }
}

proof fn lemma_edit_twice(s: SermonView, id: Seq<char>, f: IdeaField, a: Seq<char>, b: Seq<char>)
    ensures
        edit_spec(edit_spec(s, id, f, a), id, f, b) == edit_spec(s, id, f, b),
{
    lemma_find_in_table_valid(idea_ids(s.movements), id);
    match find_idea_spec(s.movements, id) {
        Some(p) => {
            let iv = s.movements[p.0].ideas[p.1];
            lemma_set_idea_ids(s, p.0, p.1, with_field(iv, f, a));
            let s1 = set_idea(s, p.0, p.1, with_field(iv, f, a));
            assert(find_idea_spec(s1.movements, id) == Some(p));
            assert(with_field(with_field(iv, f, a), f, b) =~= with_field(iv, f, b));
            let s2 = set_idea(s1, p.0, p.1, with_field(iv, f, b));
            let s3 = set_idea(s, p.0, p.1, with_field(iv, f, b));
            assert(s2.movements[p.0].ideas =~= s3.movements[p.0].ideas);
            assert(s2.movements =~= s3.movements);
            assert(s2 =~= s3);
        },
        None => {},
    }
}

proof fn lemma_rename_twice(s: SermonView, id: Seq<char>, a: Seq<char>, b: Seq<char>)
    ensures
        movement_edit_spec(movement_edit_spec(s, id, false, a), id, false, b)
            == movement_edit_spec(s, id, false, b),
{
    lemma_find_in_list_valid(movement_ids(s.movements), id);
    match find_movement_spec(s.movements, id) {
        Some(k) => {
            let ms = s.movements;
            let mv1 = MovementView { name: a, ..ms[k] };
            lemma_set_movement_ids(ms, k, mv1);
            let s1 = set_movements(s, ms.update(k, mv1));
            assert(find_movement_spec(s1.movements, id) == Some(k));
            assert(MovementView { name: b, ..mv1 } =~= MovementView { name: b, ..ms[k] });
            assert(ms.update(k, mv1).update(k, MovementView { name: b, ..mv1 }) =~= ms.update(
                k,
                MovementView { name: b, ..ms[k] },
            ));
        },
        None => {},
    }
}

/// Coalescing loses nothing: when two commands edit the same field, the
/// merged command applied to the state before the first does what the two
/// do one after the other, and it can be undone wherever the first could.
pub proof fn lemma_merged_composes(top: Cmd, next: Cmd, s: SermonView)
    requires
        key_of(top) is Some,
        key_of(top) == key_of(next),
    ensures
        apply_cmd(merged(top, next), s) == apply_cmd(next, apply_cmd(top, s)),
        undoable(top, s) ==> undoable(merged(top, next), s),
{
    match (top, next) {
        (Cmd::EditIdeaText { id, new, .. }, Cmd::EditIdeaText { new: new2, .. }) => {
            lemma_edit_twice(s, id@, IdeaField::Text, new@, new2@);
        },
        (Cmd::EditIdeaNotes { id, new, .. }, Cmd::EditIdeaNotes { new: new2, .. }) => {
            lemma_edit_twice(s, id@, IdeaField::Notes, new@, new2@);
        },
        (Cmd::RenameMovement { id, new, .. }, Cmd::RenameMovement { new: new2, .. }) => {
            lemma_rename_twice(s, id@, new@, new2@);
        },
        (Cmd::SetTitle { .. }, Cmd::SetTitle { .. }) => {
            assert(apply_cmd(merged(top, next), s) =~= apply_cmd(next, apply_cmd(top, s)));
        },
        (Cmd::SetSeries { .. }, Cmd::SetSeries { .. }) => {
            assert(apply_cmd(merged(top, next), s) =~= apply_cmd(next, apply_cmd(top, s)));
        },
        _ => {},
    }
}

impl Cmd {
    /// Whether applying the command changes the shape of the outline.
    pub fn is_structural(&self) -> (r: bool)
        ensures
            r == structural(*self),
        decreases self,
    {
        match self {
            Cmd::EditIdeaText { .. } | Cmd::EditIdeaNotes { .. } | Cmd::SetIdeaTag { .. }
            | Cmd::SetTitle { .. } | Cmd::SetSeries { .. } | Cmd::SetSermonTags { .. }
            | Cmd::RenameMovement { .. } => false,
            Cmd::Composite(cmds) => {
                let mut k: usize = 0;
                while k < cmds.len()
                    invariant
                        k <= cmds@.len(),
                        *self == Cmd::Composite(*cmds),
                        forall|j: int| 0 <= j < k ==> !structural(#[trigger] cmds@[j]),
                    decreases cmds@.len() - k,
                {
                    proof {
                        let v: Vec<Cmd> = (*self)->Composite_0;
                        assert(v == *cmds);
                        assert(decreases_to!(*self => v));
                        assert(decreases_to!(v => v@));
                        assert(decreases_to!(v@ => v@[k as int]));
                    }
                    if cmds[k].is_structural() {
                        return true;
                    }
                    k = k + 1;
                }
                false
            },
            _ => true,
        }
    }

    fn coalesce_key(&self) -> (r: Option<CoalesceKey>)
        ensures
            opt_key_view(r) == key_of(*self),
    {
        match self {
            Cmd::EditIdeaText { id, .. } => Some(CoalesceKey::IdeaText(id.clone())),
            Cmd::EditIdeaNotes { id, .. } => Some(CoalesceKey::IdeaNotes(id.clone())),
            Cmd::RenameMovement { id, .. } => Some(CoalesceKey::MovementName(id.clone())),
            Cmd::SetTitle { .. } => Some(CoalesceKey::Title),
            Cmd::SetSeries { .. } => Some(CoalesceKey::Series),
            _ => None,
        }
    }
}

// ---------------------------------------------------------------------------
// The undo history.

#[verifier::external_type_specification]
#[verifier::external_body]
pub struct ExInstant(std::time::Instant);

/// `Instant::now`: the monotonic clock. Nothing is promised of the value.
#[verifier::external_body]
fn instant_now() -> (r: std::time::Instant) {
    std::time::Instant::now()
}

/// `Instant::duration_since`, in nanoseconds. It depends on the clock, so
/// nothing is promised of the value.
#[verifier::external_body]
fn nanos_between(earlier: &std::time::Instant, later: &std::time::Instant) -> (r: u128) {
    later.duration_since(*earlier).as_nanos()
}

/// Two edits to the same field less than this many nanoseconds apart merge
/// into one undo step.
pub const COALESCE_WINDOW_NANOS: u128 = 2_000_000_000;

/// Most undo steps kept; older ones are dropped.
pub const MAX_STACK: usize = 200;

/// Undo and redo history of applied commands.
#[derive(Debug)]
pub struct UndoStack {
    pub undo: Vec<Cmd>,
    pub redo: Vec<Cmd>,
    pub last_edit: Option<std::time::Instant>,
    pub last_key: Option<CoalesceKey>,
}

/// The stack after pushing `cmd`, with the oldest entry dropped past the cap.
pub open spec fn pushed(undo: Seq<Cmd>, cmd: Cmd) -> Seq<Cmd> {
    if undo.len() + 1 > MAX_STACK {
        undo.push(cmd).drop_first()
    } else {
        undo.push(cmd)
    }
}

impl UndoStack {
    /// The coalescing key, when set, is that of the top of the undo stack,
    /// and the two stacks together hold at most `MAX_STACK` steps.
    pub open spec fn wf(&self) -> bool {
        &&& self.last_key matches Some(k) ==> self.undo@.len() > 0 && key_of(self.undo@.last())
            == Some(key_view(k))
        &&& self.undo@.len() + self.redo@.len() <= MAX_STACK
    }

    /// Whether the next edit may merge into the top entry (a coalescing key
    /// is held).
    pub open spec fn chain_open(&self) -> bool {
        self.last_key is Some
    }

    /// The key of the previous edit, while the coalescing chain is open.
    pub open spec fn chain_key(&self) -> Option<(int, Seq<char>)> {
        opt_key_view(self.last_key)
    }

    pub fn new() -> (r: UndoStack)
        ensures
            r.wf(),
            r.undo@.len() == 0,
            r.redo@.len() == 0,
            !r.chain_open(),
    {
        UndoStack { undo: Vec::new(), redo: Vec::new(), last_edit: None, last_key: None }
    }

    /// Applies `cmd` to `sermon`, clears redo and records the command —
    /// merging it into the top entry when it edits the same field as the
    /// previous command and follows it within the coalescing window.
    pub fn push_applying(&mut self, sermon: &mut Sermon, cmd: Cmd)
        requires
            old(self).wf(),
            applicable(cmd, old(sermon)@),
        ensures
            final(self).wf(),
            final(sermon)@ == apply_cmd(cmd, old(sermon)@),
            final(self).redo@.len() == 0,
            final(self).undo@ == pushed(old(self).undo@, cmd) || (old(self).chain_key()
                == key_of(cmd) && key_of(cmd) is Some && final(self).undo@ == old(
                self,
            ).undo@.drop_last().push(merged(old(self).undo@.last(), cmd))),
            !old(self).chain_open() ==> final(self).undo@ == pushed(old(self).undo@, cmd),
    {
        let now = instant_now();
        let within = match &self.last_edit {
            Some(t) => nanos_between(t, &now) < COALESCE_WINDOW_NANOS,
            None => false,
        };
        self.push_with_window(sermon, cmd, within, now);
    }

    /// `push_applying` with the clock's answer given: `within_window` is
    /// whether the previous edit was less than the coalescing window ago.
    pub fn push_with_window(
        &mut self,
        sermon: &mut Sermon,
        cmd: Cmd,
        within_window: bool,
        now: std::time::Instant,
    )
        requires
            old(self).wf(),
            applicable(cmd, old(sermon)@),
        ensures
            final(self).wf(),
            final(sermon)@ == apply_cmd(cmd, old(sermon)@),
            final(self).redo@.len() == 0,
            ({
                let merge = within_window && key_of(cmd) is Some && old(self).chain_key() == key_of(
                    cmd,
                );
                if merge {
                    final(self).undo@ == old(self).undo@.drop_last().push(
                        merged(old(self).undo@.last(), cmd),
                    ) && final(self).chain_key() == key_of(cmd)
                } else {
                    final(self).undo@ == pushed(old(self).undo@, cmd) && final(self).chain_key()
                        == key_of(cmd)
                }
            }),
    {
        cmd.apply_to(sermon);
        self.redo.clear();
        let key = cmd.coalesce_key();
        let can_coalesce = within_window && key.is_some() && same_key(&key, &self.last_key);
        if can_coalesce {
            let n = self.undo.len();
            let mut top = self.undo.pop().unwrap();
            merge_into(&mut top, &cmd);
            self.undo.push(top);
            self.last_edit = Some(now);
            assert(key_of(self.undo@.last()) == key_of(cmd));
            return;
        }
        self.undo.push(cmd);
        if self.undo.len() > MAX_STACK {
            self.undo.remove(0);
        }
        self.last_key = key;
        self.last_edit = Some(now);
    }

    /// Ends the coalescing chain: the next edit starts a new undo step.
    pub fn break_coalescing(&mut self)
        requires
            old(self).wf(),
        ensures
            final(self).wf(),
            !final(self).chain_open(),
            final(self).undo@ == old(self).undo@,
            final(self).redo@ == old(self).redo@,
    {
        self.last_edit = None;
        self.last_key = None;
    }

    /// Undoes the top entry: applies its inverse and moves it to redo.
    /// Answers whether there was anything to undo. The inverse must apply
    /// to the sermon, as `applies_to` on `inverted()` of the top entry tells;
    /// it does whenever the sermon is what the top entry left.
    pub fn undo(&mut self, sermon: &mut Sermon) -> (r: bool)
        requires
            old(self).wf(),
            old(self).undo@.len() > 0 ==> forall|d: Cmd|
                is_inverse(old(self).undo@.last(), d) ==> #[trigger] applicable(d, old(sermon)@),
        ensures
            final(self).wf(),
            !final(self).chain_open(),
            r == (old(self).undo@.len() > 0),
            !r ==> final(sermon)@ == old(sermon)@ && final(self).undo@ == old(self).undo@
                && final(self).redo@ == old(self).redo@,
            r ==> final(self).undo@ == old(self).undo@.drop_last() && final(self).redo@ == old(
                self,
            ).redo@.push(old(self).undo@.last()) && forall|s0: SermonView|
                undoable(old(self).undo@.last(), s0) && apply_cmd(old(self).undo@.last(), s0)
                    == old(sermon)@ ==> final(sermon)@ == s0,
            r ==> forall|d: Cmd|
                is_inverse(old(self).undo@.last(), d) ==> final(sermon)@ == #[trigger] apply_cmd(
                    d,
                    old(sermon)@,
                ),
    {
        self.break_coalescing();
        match self.undo.pop() {
            Some(cmd) => {
                let inverse = cmd.inverted();
                proof {
                    assert(applicable(inverse, old(sermon)@));
                    assert forall|d: Cmd| is_inverse(cmd, d) implies apply_cmd(inverse, old(sermon)@)
                        == #[trigger] apply_cmd(d, old(sermon)@) by {
                        lemma_inverse_unique(cmd, inverse, d);
                        lemma_same_cmd_acts_alike(inverse, d, old(sermon)@);
                    }
                    assert forall|s1: SermonView|
                        undoable(cmd, s1) && apply_cmd(cmd, s1) == old(sermon)@ implies apply_cmd(
                        inverse,
                        old(sermon)@,
                    ) == s1 by {
                        lemma_inverse_undoes(cmd, inverse, s1);
                    }
                }
                inverse.apply_to(sermon);
                self.redo.push(cmd);
                true
            },
            None => false,
        }
    }

    /// Re-applies the most recently undone entry and moves it back to undo.
    /// Answers whether there was anything to redo.
    pub fn redo(&mut self, sermon: &mut Sermon) -> (r: bool)
        requires
            old(self).wf(),
            old(self).redo@.len() > 0 ==> applicable(old(self).redo@.last(), old(sermon)@),
        ensures
            final(self).wf(),
            !final(self).chain_open(),
            r == (old(self).redo@.len() > 0),
            !r ==> final(sermon)@ == old(sermon)@ && final(self).undo@ == old(self).undo@
                && final(self).redo@ == old(self).redo@,
            r ==> final(self).redo@ == old(self).redo@.drop_last() && final(self).undo@ == old(
                self,
            ).undo@.push(old(self).redo@.last()) && final(sermon)@ == apply_cmd(
                old(self).redo@.last(),
                old(sermon)@,
            ),
    {
        self.break_coalescing();
        match self.redo.pop() {
            Some(cmd) => {
                cmd.apply_to(sermon);
                self.undo.push(cmd);
                true
            },
            None => false,
        }
    }

    pub fn can_undo(&self) -> (r: bool)
        ensures
            r == (self.undo@.len() > 0),
    {
        self.undo.len() > 0
    }

    pub fn can_redo(&self) -> (r: bool)
        ensures
            r == (self.redo@.len() > 0),
    {
        self.redo.len() > 0
    }
}

/// Pushing then undoing gives the sermon back: a command pushed without
/// merging into the step before it (as `push_applying` does when no edit
/// chain is open) is the top of the new undo stack, and where the command
/// was undoable on the sermon it was applied to, every inverse of it
/// applies to the result and restores that sermon, which is what `undo`
/// then does.
pub proof fn lemma_push_then_undo(undo: Seq<Cmd>, cmd: Cmd, s0: SermonView)
    requires
        undoable(cmd, s0),
    ensures
        pushed(undo, cmd).len() > 0,
        pushed(undo, cmd).last() == cmd,
        forall|d: Cmd|
            is_inverse(cmd, d) ==> applicable(d, apply_cmd(cmd, s0)) && #[trigger] apply_cmd(
                d,
                apply_cmd(cmd, s0),
            ) == s0,
{
    assert forall|d: Cmd| is_inverse(cmd, d) implies applicable(d, apply_cmd(cmd, s0))
        && #[trigger] apply_cmd(d, apply_cmd(cmd, s0)) == s0 by {
        lemma_inverse_undoes(cmd, d, s0);
    }
}

/// The history is bounded: every stack that `new`, `push_applying`,
/// `push_with_window`, `break_coalescing`, `undo` and `redo` leave behind is
/// well formed, so it never holds more than `MAX_STACK` undo steps, nor more
/// than that many steps to undo and redo together.
pub proof fn lemma_history_bounded(st: UndoStack)
    requires
        st.wf(),
    ensures
        st.undo@.len() <= MAX_STACK,
        st.redo@.len() <= MAX_STACK,
{
}

impl Default for UndoStack {
    fn default() -> (r: UndoStack)
        ensures
            r.wf(),
            r.undo@.len() == 0,
            r.redo@.len() == 0,
    {
        UndoStack::new()
    }
}
} // verus!
verus! {

// ---------------------------------------------------------------------------
// Reshaping the outline.

/// An idea with notes or a tag, which promotion keeps rather than drops.
pub open spec fn carries_content(i: IdeaView) -> bool {
    !is_blank_text(i.notes) || !is_blank_text(i.idea_tag) || !is_blank_text(i.part_tag)
}

/// What `promote_idea_to_movement` builds for the idea at (`m`, `i`) of `s`:
/// delete the idea, then insert below its movement a new expanded movement
/// named after the idea's text, holding the idea itself when it carries
/// content and nothing otherwise.
pub open spec fn promoted_shape(c: Cmd, s: SermonView, m: int, i: int) -> bool {
    &&& c matches Cmd::Composite(cs)
    &&& cs@.len() == 2
    &&& cs@[0] matches Cmd::DeleteIdea { movement, index, idea } && movement == m && index == i
        && idea@ == s.movements[m].ideas[i]
    &&& cs@[1] matches Cmd::InsertMovement { at, movement: mv } && at == m + 1 && mv@.name
        == s.movements[m].ideas[i].text && !mv@.collapsed && mv@.ideas == (if carries_content(
        s.movements[m].ideas[i],
    ) {
        seq![s.movements[m].ideas[i]]
    } else {
        Seq::<IdeaView>::empty()
    })
}

/// Turns the idea at (`movement`, `index`) into a movement of its own,
/// inserted directly below its movement; `None` when there is no such idea.
pub fn promote_idea_to_movement(sermon: &Sermon, movement: usize, index: usize) -> (r: Option<Cmd>)
    requires
        sermon@.movements.len() < usize::MAX,
    ensures
        r is Some <==> idea_at(sermon@.movements, movement as int, index as int),
        r matches Some(c) ==> promoted_shape(c, sermon@, movement as int, index as int)
            && undoable(c, sermon@),
{
    if movement >= sermon.movements.len() || index >= sermon.movements[movement].ideas.len() {
        return None;
    }
    let idea = sermon.movements[movement].ideas[index].clone();
    let carries = !is_blank(idea.notes.as_str()) || !is_blank(idea.idea_tag.as_str()) || !is_blank(
        idea.part_tag.as_str(),
    );
    let mut new_movement = Movement::new(movement + 1);
    new_movement.name = idea.text.clone();
    if carries {
        new_movement.ideas.push(idea.clone());
    }
    let ghost s = sermon@;
    let ghost iv = idea@;
    let del = Cmd::DeleteIdea { movement, index, idea };
    let ins = Cmd::InsertMovement { at: movement + 1, movement: new_movement };
    let mut cmds: Vec<Cmd> = Vec::new();
    cmds.push(del);
    cmds.push(ins);
    let c = Cmd::Composite(cmds);
    proof {
        assert(new_movement@.ideas =~= (if carries_content(iv) {
            seq![iv]
        } else {
            Seq::<IdeaView>::empty()
        }));
        let s1 = apply_cmd(cmds@[0], s);
        assert(undoable(cmds@[0], s));
        assert(undoable(cmds@[1], s1));
        lemma_cmds_single(cmds@[0], s);
        lemma_cmds_single(cmds@[1], s1);
        lemma_cmds_split(seq![cmds@[0]], seq![cmds@[1]], s);
        assert(seq![cmds@[0]] + seq![cmds@[1]] =~= cmds@);
        assert(undoable(c, s));
        assert(iv == s.movements[movement as int].ideas[index as int]);
        assert(carries == carries_content(iv));
        assert(promoted_shape(c, s, movement as int, index as int));
    }
    Some(c)
}


/// What `demote_movement_to_idea` builds for movement `at` of `s`: delete
/// the movement, then append to the movement above, in order, a heading
/// idea holding its name (unless the name is blank) and its ideas.
pub open spec fn demoted_shape(cs: Seq<Cmd>, s: SermonView, at: int) -> bool {
    let mv = s.movements[at];
    let off: int = if is_blank_text(mv.name) {
        0
    } else {
        1
    };
    let base = s.movements[at - 1].ideas.len();
    &&& cs.len() == 1 + off + mv.ideas.len()
    &&& cs[0] matches Cmd::DeleteMovement { at: a, movement } && a == at && movement@ == mv
    &&& off == 1 ==> inserts_heading(cs[1], at - 1, base as int, mv.name)
    &&& forall|k: int|
        0 <= k < mv.ideas.len() ==> inserts_idea(
            #[trigger] cs[1 + off + k],
            at - 1,
            base + off + k,
            mv.ideas[k],
        )
}

/// `c` inserts at (`m`, `i`) a fresh idea whose text is `text` and whose
/// other fields are empty.
pub open spec fn inserts_heading(c: Cmd, m: int, i: int, text: Seq<char>) -> bool {
    c matches Cmd::InsertIdea { movement, index, idea } && movement == m && index == i
        && idea@.text == text && idea@.notes.len() == 0 && idea@.idea_tag.len() == 0
        && idea@.part_tag.len() == 0 && !idea@.expanded
}

/// `c` inserts `iv` at (`m`, `i`).
pub open spec fn inserts_idea(c: Cmd, m: int, i: int, iv: IdeaView) -> bool {
    c matches Cmd::InsertIdea { movement, index, idea } && movement == m && index == i && idea@
        == iv
}

/// Folds movement `at` into the movement above it: its name becomes an
/// idea and its ideas follow in order. `None` for the first movement, which
/// has nothing above it, and for a position past the end.
pub fn demote_movement_to_idea(sermon: &Sermon, at: usize) -> (r: Option<Cmd>)
    requires
        0 < at < sermon@.movements.len() ==> sermon@.movements[at - 1].ideas.len()
            + sermon@.movements[at as int].ideas.len() < usize::MAX,
    ensures
        r is Some <==> 0 < at < sermon@.movements.len(),
        r matches Some(c) ==> c matches Cmd::Composite(cs) && demoted_shape(
            cs@,
            sermon@,
            at as int,
        ) && undoable(c, sermon@),
{
    if at == 0 || at >= sermon.movements.len() {
        return None;
    }
    let ghost s = sermon@;
    let movement = sermon.movements[at].clone();
    let target = at - 1;
    let base = sermon.movements[target].ideas.len();
    let ghost mv = movement@;
    let ghost off: int = if is_blank_text(mv.name) {
        0
    } else {
        1
    };
    let named = !is_blank(movement.name.as_str());
    let del = Cmd::DeleteMovement { at, movement: movement.clone() };
    let mut cmds: Vec<Cmd> = Vec::new();
    cmds.push(del);
    proof {
        lemma_cmds_single(cmds@[0], s);
        assert(apply_cmds(cmds@, s).movements =~= s.movements.remove(at as int));
    }
    let mut next = base;
    if named {
        let mut heading = Idea::new();
        heading.text = movement.name.clone();
        let ins = Cmd::InsertIdea { movement: target, index: next, idea: heading };
        proof {
            let p = cmds@;
            let t = apply_cmds(p, s);
            lemma_cmds_single(ins, t);
            lemma_cmds_split(p, seq![ins], s);
            assert(p + seq![ins] =~= p.push(ins));
        }
        cmds.push(ins);
        next = next + 1;
        proof {
            let t = apply_cmds(cmds@, s);
            assert(t.movements.len() == s.movements.len() - 1);
        }
    }
    let ideas = movement.ideas;
    let mut k: usize = 0;
    while k < ideas.len()
        invariant
            k <= ideas@.len(),
            ideas_view(ideas@) == mv.ideas,
            mv == s.movements[at as int],
            0 < at < s.movements.len(),
            target == at - 1,
            base == s.movements[at - 1].ideas.len(),
            off == (if is_blank_text(mv.name) {
                0int
            } else {
                1
            }),
            base + mv.ideas.len() < usize::MAX,
            next == base + off + k,
            cmds@.len() == 1 + off + k,
            undoable_cmds(cmds@, s),
            apply_cmds(cmds@, s).movements.len() == s.movements.len() - 1,
            apply_cmds(cmds@, s).movements[at - 1].ideas.len() == next,
            cmds@[0] matches Cmd::DeleteMovement { at: a, movement } && a == at && movement@ == mv,
            off == 1 ==> inserts_heading(cmds@[1], at - 1, base as int, mv.name),
            forall|j: int|
                0 <= j < k ==> inserts_idea(
                    #[trigger] cmds@[1 + off + j],
                    at - 1,
                    base + off + j,
                    mv.ideas[j],
                ),
        decreases ideas@.len() - k,
    {
        let ins = Cmd::InsertIdea { movement: target, index: next, idea: ideas[k].clone() };
        proof {
            let p = cmds@;
            let t = apply_cmds(p, s);
            lemma_cmds_single(ins, t);
            lemma_cmds_split(p, seq![ins], s);
            assert(p + seq![ins] =~= p.push(ins));
        }
        cmds.push(ins);
        next = next + 1;
        k = k + 1;
    }
    Some(Cmd::Composite(cmds))
}

} // verus!
