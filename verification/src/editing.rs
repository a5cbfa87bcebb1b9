//! Commands the editor builds from a selection: deleting several ideas at
//! once and renaming a tag on every idea that carries it.

use vstd::prelude::*;

use crate::commands::{applicable, applicable_cmds, apply_cmd, tag_of, undoable, undoable_cmds, Cmd, TagKind};
use crate::model::{DeletedRecord, find_idea_spec, find_movement_spec, idea_at, strings_view, IdeaView, MovementView, Sermon, SermonView};

verus! {

// ---------------------------------------------------------------------------
// Deleting a selection.

/// Reading order of idea positions.
pub open spec fn pos_lt(a: (usize, usize), b: (usize, usize)) -> bool {
    a.0 < b.0 || (a.0 == b.0 && a.1 < b.1)
}

/// The position a deletion removes.
pub open spec fn delete_pos(c: Cmd) -> (usize, usize) {
    match c {
        Cmd::DeleteIdea { movement, index, .. } => (movement, index),
        _ => (0, 0),
    }
}

/// `cs` deletes ideas of `s`, the latest position first, each command
/// carrying the idea it removes.
pub open spec fn descending_deletes(cs: Seq<Cmd>, s: SermonView) -> bool {
    &&& forall|k: int|
        0 <= k < cs.len() ==> match #[trigger] cs[k] {
            Cmd::DeleteIdea { movement, index, idea } => idea_at(s.movements, movement as int, index as int)
                && s.movements[movement as int].ideas[index as int] == idea@,
            _ => false,
        }
    &&& forall|j: int, k: int|
        0 <= j < k < cs.len() ==> pos_lt(delete_pos(#[trigger] cs[k]), delete_pos(#[trigger] cs[j]))
}

/// Deleting ideas latest position first keeps every queued deletion valid:
/// a removal shifts only later ideas of its own movement, so the whole
/// batch applies, and undoes, as one step.
pub proof fn lemma_descending_deletes_undoable(cs: Seq<Cmd>, s: SermonView)
    requires
        descending_deletes(cs, s),
    ensures
        applicable_cmds(cs, s),
        undoable_cmds(cs, s),
    decreases cs.len(),
{
    if cs.len() > 0 {
        let c = cs[0];
        assert(c matches Cmd::DeleteIdea { .. });
        let (m, i) = delete_pos(c);
        let s1 = apply_cmd(c, s);
        let rest = cs.drop_first();
        assert(applicable(c, s) && undoable(c, s));
        assert forall|k: int| 0 <= k < rest.len() implies match #[trigger] rest[k] {
            Cmd::DeleteIdea { movement, index, idea } => idea_at(s1.movements, movement as int, index as int)
                && s1.movements[movement as int].ideas[index as int] == idea@,
            _ => false,
        } by {
            assert(rest[k] == cs[k + 1]);
            assert(pos_lt(delete_pos(cs[k + 1]), delete_pos(cs[0])));
            match cs[k + 1] {
                Cmd::DeleteIdea { movement: m2, index: i2, .. } => {
                    if m2 == m {
                        assert(s1.movements[m2 as int].ideas == s.movements[m as int].ideas.remove(i as int));
                        assert(i2 < i);
                    } else {
                        assert(s1.movements[m2 as int] == s.movements[m2 as int]);
                    }
                },
                _ => {},
            }
        }
        assert forall|j: int, k: int| 0 <= j < k < rest.len() implies pos_lt(
            delete_pos(#[trigger] rest[k]),
            delete_pos(#[trigger] rest[j]),
        ) by {
            assert(rest[k] == cs[k + 1] && rest[j] == cs[j + 1]);
        }
        lemma_descending_deletes_undoable(rest, s1);
    }
}

/// Some id of `ids` names the idea at `p`.
pub open spec fn found_at(s: SermonView, ids: Seq<Seq<char>>, p: (usize, usize)) -> bool {
    exists|k: int|
        0 <= k < ids.len() && find_idea_spec(s.movements, #[trigger] ids[k]) == Some(
            (p.0 as int, p.1 as int),
        )
}

pub open spec fn strictly_descending(v: Seq<(usize, usize)>) -> bool {
    forall|j: int, k: int| 0 <= j < k < v.len() ==> pos_lt(#[trigger] v[k], #[trigger] v[j])
}

/// Adds `p` to positions kept latest first, unless it is there already.
fn insert_descending(v: &mut Vec<(usize, usize)>, p: (usize, usize))
    requires
        strictly_descending(old(v)@),
    ensures
        strictly_descending(final(v)@),
        forall|q: (usize, usize)| final(v)@.contains(q) <==> (old(v)@.contains(q) || q == p),
{
    let mut q: usize = 0;
    while q < v.len() && pos_lt_exec(p, v[q])
        invariant
            q <= v@.len(),
            strictly_descending(v@),
            v@ == old(v)@,
            forall|j: int| 0 <= j < q ==> pos_lt(p, #[trigger] v@[j]),
        decreases v@.len() - q,
    {
        q = q + 1;
    }
    if q < v.len() && v[q].0 == p.0 && v[q].1 == p.1 {
        return;
    }
    proof {
        assert forall|k: int| q <= k < v@.len() implies pos_lt(#[trigger] v@[k], p) by {
            if k > q {
                assert(pos_lt(v@[k], v@[q as int]));
            }
        }
    }
    v.insert(q, p);
    proof {
        assert forall|x: (usize, usize)| v@.contains(x) <==> (old(v)@.contains(x) || x == p) by {
            if v@.contains(x) {
                let k = choose|k: int| 0 <= k < v@.len() && v@[k] == x;
                if k < q {
                    assert(old(v)@[k] == x);
                } else if k > q {
                    assert(old(v)@[k - 1] == x);
                }
            }
            if old(v)@.contains(x) {
                let k = choose|k: int| 0 <= k < old(v)@.len() && old(v)@[k] == x;
                if k < q {
                    assert(v@[k] == x);
                } else {
                    assert(v@[k + 1] == x);
                }
            }
            if x == p {
                assert(v@[q as int] == p);
            }
        }
    }
}

fn pos_lt_exec(a: (usize, usize), b: (usize, usize)) -> (r: bool)
    ensures
        r == pos_lt(a, b),
{
    a.0 < b.0 || (a.0 == b.0 && a.1 < b.1)
}

/// One command deleting every idea of the selection `ids` that still names
/// an idea, latest position first so the queued positions stay valid;
/// `None` when none does.
pub fn bulk_delete_cmd(sermon: &Sermon, ids: &Vec<String>) -> (r: Option<Cmd>)
    ensures
        r is None <==> forall|k: int|
            0 <= k < ids@.len() ==> find_idea_spec(sermon@.movements, #[trigger] strings_view(ids@)[k]) is None,
        r matches Some(c) ==> (c matches Cmd::Composite(cs) && descending_deletes(cs@, sermon@)
            && forall|p: (usize, usize)|
            (exists|k: int| 0 <= k < cs@.len() && delete_pos(#[trigger] cs@[k]) == p) <==> #[trigger] found_at(
                sermon@,
                strings_view(ids@),
                p,
            )),
        r matches Some(c) ==> applicable(c, sermon@) && undoable(c, sermon@),
{
    let ghost idv = strings_view(ids@);
    let mut positions: Vec<(usize, usize)> = Vec::new();
    let mut k: usize = 0;
    while k < ids.len()
        invariant
            k <= ids@.len(),
            idv == strings_view(ids@),
            strictly_descending(positions@),
            forall|q: (usize, usize)|
                positions@.contains(q) <==> exists|j: int|
                    0 <= j < k && find_idea_spec(sermon@.movements, #[trigger] idv[j]) == Some(
                        (q.0 as int, q.1 as int),
                    ),
            forall|q: (usize, usize)| positions@.contains(q) ==> idea_at(sermon@.movements, q.0 as int, q.1 as int),
            positions@.len() == 0 <==> forall|j: int|
                0 <= j < k ==> find_idea_spec(sermon@.movements, #[trigger] idv[j]) is None,
        decreases ids@.len() - k,
    {
        assert(idv[k as int] == ids@[k as int]@);
        match sermon.find_idea(ids[k].as_str()) {
            Some(p) => {
                proof {
                    crate::model::lemma_find_in_table_valid(crate::model::idea_ids(sermon@.movements), ids@[k as int]@);
                }
                insert_descending(&mut positions, p);
                assert(positions@.contains(p));
            },
            None => {},
        }
        k = k + 1;
    }
    if positions.len() == 0 {
        return None;
    }
    assert forall|q: (usize, usize)| positions@.contains(q) <==> #[trigger] found_at(sermon@, strings_view(ids@), q) by {}
    let mut cmds: Vec<Cmd> = Vec::new();
    let mut t: usize = 0;
    while t < positions.len()
        invariant
            t <= positions@.len(),
            forall|q: (usize, usize)| positions@.contains(q) <==> #[trigger] found_at(sermon@, strings_view(ids@), q),
            cmds@.len() == t,
            strictly_descending(positions@),
            forall|q: (usize, usize)| positions@.contains(q) ==> idea_at(sermon@.movements, q.0 as int, q.1 as int),
            forall|j: int|
                0 <= j < t ==> ((#[trigger] cmds@[j]) matches Cmd::DeleteIdea { movement, index, idea }
                    && (movement, index) == positions@[j] && sermon@.movements[movement as int].ideas[index
                    as int] == idea@),
        decreases positions@.len() - t,
    {
        let p = positions[t];
        assert(positions@.contains(p));
        let idea = sermon.movements[p.0].ideas[p.1].clone();
        cmds.push(Cmd::DeleteIdea { movement: p.0, index: p.1, idea });
        t = t + 1;
    }
    proof {
        assert forall|k: int| 0 <= k < cmds@.len() implies delete_pos(#[trigger] cmds@[k]) == positions@[k] by {}
        assert forall|p: (usize, usize)|
            (exists|k: int| 0 <= k < cmds@.len() && delete_pos(#[trigger] cmds@[k]) == p) <==> positions@.contains(p) by {
            if positions@.contains(p) {
                let k = choose|k: int| 0 <= k < positions@.len() && positions@[k] == p;
                assert(delete_pos(cmds@[k]) == p);
            }
        }
        assert forall|j: int, k: int| 0 <= j < k < cmds@.len() implies pos_lt(
            delete_pos(#[trigger] cmds@[k]),
            delete_pos(#[trigger] cmds@[j]),
        ) by {
            assert(delete_pos(cmds@[k]) == positions@[k] && delete_pos(cmds@[j]) == positions@[j]);
        }
        assert forall|k: int| 0 <= k < cmds@.len() implies match #[trigger] cmds@[k] {
            Cmd::DeleteIdea { movement, index, idea } => idea_at(sermon@.movements, movement as int, index as int)
                && sermon@.movements[movement as int].ideas[index as int] == idea@,
            _ => false,
        } by {
            assert(positions@.contains(positions@[k]));
        }
    }
    proof {
        lemma_descending_deletes_undoable(cmds@, sermon@);
    }
    Some(Cmd::Composite(cmds))
}

// ---------------------------------------------------------------------------
// Renaming a tag.

/// The ids of the ideas whose tag of `kind` is `old`, in order.
pub open spec fn tagged_in(ideas: Seq<IdeaView>, kind: TagKind, old: Seq<char>) -> Seq<Seq<char>>
    decreases ideas.len(),
{
    if ideas.len() == 0 {
        seq![]
    } else if tag_of(ideas.last(), kind) == old {
        tagged_in(ideas.drop_last(), kind, old).push(ideas.last().id)
    } else {
        tagged_in(ideas.drop_last(), kind, old)
    }
}

/// The ids of the sermon's ideas whose tag of `kind` is `old`, in reading
/// order.
pub open spec fn tagged_ids(ms: Seq<MovementView>, kind: TagKind, old: Seq<char>) -> Seq<Seq<char>>
    decreases ms.len(),
{
    if ms.len() == 0 {
        seq![]
    } else {
        tagged_ids(ms.drop_last(), kind, old) + tagged_in(ms.last().ideas, kind, old)
    }
}

/// "Rename everywhere" from a tag popover: one command setting the tag of
/// `kind` from `old` to `new` on every idea that carries `old`, in reading
/// order; `None` for an empty or unchanged name or when no idea carries it.
pub fn rename_tag_everywhere(sermon: &Sermon, kind: TagKind, old: &str, new: &str) -> (r: Option<Cmd>)
    ensures
        ({
            let ts = tagged_ids(sermon@.movements, kind, old@);
            if old@.len() == 0 || old@ == new@ || ts.len() == 0 {
                r is None
            } else {
                r matches Some(Cmd::Composite(cs)) && retag_cmds(cs@, ts, kind, old@, new@)
            }
        }),
{
    if old.is_empty() || crate::text::str_eq(old, new) {
        return None;
    }
    let ghost ms = sermon@.movements;
    let mut cmds: Vec<Cmd> = Vec::new();
    let mut m: usize = 0;
    assert(ms.take(0) =~= Seq::<MovementView>::empty());
    while m < sermon.movements.len()
        invariant
            m <= ms.len(),
            ms == sermon@.movements,
            cmds@.len() == tagged_ids(ms.take(m as int), kind, old@).len(),
            forall|k: int|
                0 <= k < cmds@.len() ==> (#[trigger] cmds@[k] matches Cmd::SetIdeaTag {
                    id,
                    kind: k2,
                    old: o,
                    new: n,
                } && id@ == tagged_ids(ms.take(m as int), kind, old@)[k] && k2 == kind && o@ == old@
                    && n@ == new@),
        decreases ms.len() - m,
    {
        let ideas = &sermon.movements[m].ideas;
        let ghost iv = ms[m as int].ideas;
        let ghost base = tagged_ids(ms.take(m as int), kind, old@);
        assert(iv == crate::model::ideas_view(ideas@));
        let mut i: usize = 0;
        assert(iv.take(0) =~= Seq::<IdeaView>::empty());
        while i < ideas.len()
            invariant
                i <= ideas@.len(),
                iv == crate::model::ideas_view(ideas@),
                iv.len() == ideas@.len(),
                cmds@.len() == base.len() + tagged_in(iv.take(i as int), kind, old@).len(),
                forall|k: int|
                    0 <= k < cmds@.len() ==> (#[trigger] cmds@[k] matches Cmd::SetIdeaTag {
                        id,
                        kind: k2,
                        old: o,
                        new: n,
                    } && id@ == (base + tagged_in(iv.take(i as int), kind, old@))[k] && k2 == kind && o@
                        == old@ && n@ == new@),
            decreases ideas@.len() - i,
        {
            let idea = &ideas[i];
            assert(iv[i as int] == idea@);
            assert(iv.take(i + 1).drop_last() =~= iv.take(i as int));
            assert(iv.take(i + 1).last() == idea@);
            let tag = match kind {
                TagKind::Idea => idea.idea_tag.as_str(),
                TagKind::Part => idea.part_tag.as_str(),
            };
            if crate::text::str_eq(tag, old) {
                let ghost before = base + tagged_in(iv.take(i as int), kind, old@);
                cmds.push(
                    Cmd::SetIdeaTag {
                        id: idea.id.clone(),
                        kind,
                        old: crate::text::owned(old),
                        new: crate::text::owned(new),
                    },
                );
                assert(base + tagged_in(iv.take(i + 1), kind, old@) =~= before.push(idea@.id));
            } else {
                assert(base + tagged_in(iv.take(i + 1), kind, old@) =~= base + tagged_in(
                    iv.take(i as int),
                    kind,
                    old@,
                ));
            }
            i = i + 1;
        }
        assert(iv.take(ideas@.len() as int) =~= iv);
        assert(ms.take(m + 1).drop_last() =~= ms.take(m as int));
        assert(tagged_ids(ms.take(m + 1), kind, old@) =~= base + tagged_in(iv, kind, old@));
        m = m + 1;
    }
    assert(ms.take(ms.len() as int) =~= ms);
    if cmds.len() == 0 {
        return None;
    }
    Some(Cmd::Composite(cmds))
}

// ---------------------------------------------------------------------------
// Dropping dragged ideas and movements.

/// What a drag carries: the selected ideas, one idea, or one movement, each
/// by id.
#[derive(Debug, PartialEq, Eq)]
pub enum DragPayload {
    Ideas(Vec<String>),
    Idea(String),
    Movement(String),
}

pub const IDEAS_PAYLOAD_PREFIX: &'static str = "ideas:";
pub const IDEA_PAYLOAD_PREFIX: &'static str = "idea:";
pub const MOVEMENT_PAYLOAD_PREFIX: &'static str = "movement:";

/// Where dragged ideas were released, as the layout resolves the pointer:
/// among a movement's ideas before row `insertion`, or in the space between
/// movement cards, where a new movement would stand at `at`.
#[derive(Clone, Copy, Debug, PartialEq, Eq, Structural)]
pub enum DropTarget {
    IntoMovement { movement: usize, insertion: usize },
    BlankSpace { at: usize },
}

/// The text after prefix `p`, when `s` starts with it.
fn strip_prefix(s: &str, p: &str) -> (r: Option<String>)
    ensures
        crate::text::has_prefix(s@, p@) ==> (r matches Some(t) && t@ == s@.skip(p@.len() as int)),
        !crate::text::has_prefix(s@, p@) ==> r is None,
{
    if crate::text::starts_with(s, p) {
        let cs = crate::text::chars_of(s);
        let pl = crate::text::chars_of(p).len();
        let mut out = String::new();
        let mut i = pl;
        assert(cs@.subrange(pl as int, pl as int) =~= Seq::<char>::empty());
        while i < cs.len()
            invariant
                pl <= i <= cs@.len(),
                out@ == cs@.subrange(pl as int, i as int),
            decreases cs@.len() - i,
        {
            crate::text::push_char(&mut out, cs[i]);
            assert(out@ =~= cs@.subrange(pl as int, i + 1));
            i = i + 1;
        }
        assert(out@ =~= s@.skip(p@.len() as int));
        Some(out)
    } else {
        None
    }
}

/// How a drag's text reads: "ideas:" and comma-separated ids, "idea:" and
/// an id, or "movement:" and an id.
pub open spec fn payload_of(s: Seq<char>) -> Option<(int, Seq<Seq<char>>)> {
    if crate::text::has_prefix(s, "ideas:"@) {
        Some((0, crate::text::split_on(s.skip(6), ',')))
    } else if crate::text::has_prefix(s, "idea:"@) {
        Some((1, seq![s.skip(5)]))
    } else if crate::text::has_prefix(s, "movement:"@) {
        Some((2, seq![s.skip(9)]))
    } else {
        None
    }
}

pub open spec fn payload_view(p: DragPayload) -> (int, Seq<Seq<char>>) {
    match p {
        DragPayload::Ideas(ids) => (0, strings_view(ids@)),
        DragPayload::Idea(id) => (1, seq![id@]),
        DragPayload::Movement(id) => (2, seq![id@]),
    }
}

/// Reads the text a drag carries.
pub fn parse_payload(s: &str) -> (r: Option<DragPayload>)
    ensures
        match payload_of(s@) {
            Some(v) => r matches Some(p) && payload_view(p) == v,
            None => r is None,
        },
{
    proof {
        reveal_strlit("ideas:");
        reveal_strlit("idea:");
        reveal_strlit("movement:");
    }
    if let Some(rest) = strip_prefix(s, IDEAS_PAYLOAD_PREFIX) {
        let ids = crate::text::split_char(rest.as_str(), ',');
        assert(strings_view(ids@) =~= ids@.map_values(|t: String| t@));
        Some(DragPayload::Ideas(ids))
    } else if let Some(rest) = strip_prefix(s, IDEA_PAYLOAD_PREFIX) {
        Some(DragPayload::Idea(rest))
    } else if let Some(rest) = strip_prefix(s, MOVEMENT_PAYLOAD_PREFIX) {
        Some(DragPayload::Movement(rest))
    } else {
        None
    }
}

/// Where a moved idea lands among a movement's ideas: one row earlier when
/// it came from above the insertion row of the same movement, and never
/// past the end of the movement.
pub open spec fn landing_index(from: (int, int), movement: int, insertion: int, len: int) -> int {
    let adjusted = if from.0 == movement && from.1 < insertion {
        insertion - 1
    } else {
        insertion
    };
    if adjusted < len {
        adjusted
    } else {
        len
    }
}

/// The command for one dragged idea: a move within or between movements,
/// or, over blank space, a new movement holding it; `None` when the idea
/// is gone.
pub fn idea_drop_cmd(sermon: &Sermon, id: &str, target: DropTarget) -> (r: Option<Cmd>)
    requires
        match target {
            DropTarget::IntoMovement { movement, .. } => movement < sermon@.movements.len(),
            DropTarget::BlankSpace { at } => at <= sermon@.movements.len() < usize::MAX,
        },
    ensures
        match find_idea_spec(sermon@.movements, id@) {
            None => r is None,
            Some(p) => match target {
                DropTarget::IntoMovement { movement, insertion } => r matches Some(
                    Cmd::MoveIdea { from, to },
                ) && from == (p.0 as usize, p.1 as usize) && to == (
                    movement,
                    landing_index(
                        p,
                        movement as int,
                        insertion as int,
                        sermon@.movements[movement as int].ideas.len() as int,
                    ) as usize,
                ),
                DropTarget::BlankSpace { at } => r matches Some(Cmd::Composite(cs)) && cs@.len() == 2
                    && (cs@[0] matches Cmd::InsertMovement { at: a, movement: mv } && a == at
                    && mv@.name == crate::model::movement_name(at as nat) && mv@.ideas.len() == 0
                    && !mv@.collapsed) && (cs@[1] matches Cmd::MoveIdea { from, to } && from == ((if p.0
                    >= at {
                    p.0 + 1
                } else {
                    p.0
                }) as usize, p.1 as usize) && to == (at, 0usize)),
            },
        },
        (match target {
            DropTarget::IntoMovement { movement, insertion } => insertion
                <= sermon@.movements[movement as int].ideas.len(),
            DropTarget::BlankSpace { .. } => true,
        }) ==> (r matches Some(c) ==> applicable(c, sermon@)),
{
    let found = sermon.find_idea(id);
    let (fm, fi) = match found {
        Some(p) => p,
        None => {
            return None;
        },
    };
    proof {
        crate::model::lemma_find_in_table_valid(crate::model::idea_ids(sermon@.movements), id@);
        assert(crate::model::idea_ids(sermon@.movements)[fm as int].len()
            == sermon@.movements[fm as int].ideas.len());
        assert(idea_at(sermon@.movements, fm as int, fi as int));
    }
    match target {
        DropTarget::IntoMovement { movement, insertion } => {
            let adjusted = if fm == movement && fi < insertion {
                insertion - 1
            } else {
                insertion
            };
            let len = sermon.movements[movement].ideas.len();
            assert(len == sermon@.movements[movement as int].ideas.len());
            let to = if adjusted < len {
                adjusted
            } else {
                len
            };
            let c = Cmd::MoveIdea { from: (fm, fi), to: (movement, to) };
            proof {
                let ms = sermon@.movements;
                if insertion <= ms[movement as int].ideas.len() {
                    assert(idea_at(ms, fm as int, fi as int));
                    assert(movement < ms.len());
                    if movement == fm {
                        assert(to + 1 <= ms[movement as int].ideas.len());
                    } else {
                        assert(to <= ms[movement as int].ideas.len());
                    }
                    assert(applicable(c, sermon@));
                }
            }
            Some(c)
        },
        DropTarget::BlankSpace { at } => {
            let from_m = if fm >= at {
                fm + 1
            } else {
                fm
            };
            let mv = crate::model::Movement::new(at);
            let ghost s1 = apply_cmd(Cmd::InsertMovement { at, movement: mv }, sermon@);
            assert(s1.movements == sermon@.movements.insert(at as int, mv@));
            assert(s1.movements[from_m as int] == sermon@.movements[fm as int]);
            let mut cmds: Vec<Cmd> = Vec::new();
            cmds.push(Cmd::InsertMovement { at, movement: mv });
            cmds.push(Cmd::MoveIdea { from: (from_m, fi), to: (at, 0) });
            proof {
                let ms = sermon@.movements;
                let c0 = cmds@[0];
                let c1 = cmds@[1];
                assert(cmds@.drop_first().drop_first() =~= Seq::<Cmd>::empty());
                assert(cmds@.drop_first()[0] == c1);
                assert(applicable(c0, sermon@));
                assert(s1 == apply_cmd(c0, sermon@));
                assert(idea_at(s1.movements, from_m as int, fi as int));
                assert(s1.movements[at as int].ideas.len() == 0);
                assert(applicable(c1, s1));
                assert(applicable_cmds(cmds@.drop_first().drop_first(), apply_cmd(c1, s1)));
                assert(applicable_cmds(cmds@.drop_first(), s1));
                assert(applicable_cmds(cmds@, sermon@));
            }
            Some(Cmd::Composite(cmds))
        },
    }
}

/// The command for a dragged movement released before card `insertion`:
/// moved there (one place earlier when it came from above); `None` when
/// the movement is gone.
pub fn movement_drop_cmd(sermon: &Sermon, id: &str, insertion: usize) -> (r: Option<Cmd>)
    ensures
        match find_movement_spec(sermon@.movements, id@) {
            None => r is None,
            Some(k) => r matches Some(Cmd::MoveMovement { from, to }) && from == k && to == (if insertion
                > k {
                insertion - 1
            } else {
                insertion as int
            }),
        },
        insertion <= sermon@.movements.len() ==> (r matches Some(c) ==> applicable(c, sermon@)),
{
    match sermon.find_movement(id) {
        None => None,
        Some(from) => {
            proof {
                crate::model::lemma_find_in_list_valid(crate::model::movement_ids(sermon@.movements), id@);
            }
            let to = if insertion > from {
                insertion - 1
            } else {
                insertion
            };
            Some(Cmd::MoveMovement { from, to })
        },
    }
}

pub open spec fn strictly_ascending(v: Seq<(usize, usize)>) -> bool {
    forall|j: int, k: int| 0 <= j < k < v.len() ==> pos_lt(#[trigger] v[j], #[trigger] v[k])
}

/// The positions of the ideas the selection `ids` still names, in reading
/// order.
pub open spec fn selection(s: SermonView, ids: Seq<Seq<char>>) -> Seq<(usize, usize)> {
    choose|ps: Seq<(usize, usize)>|
        strictly_ascending(ps) && forall|q: (usize, usize)| #[trigger] ps.contains(q) <==> found_at(s, ids, q)
}

/// Two lists in reading order with the same positions are the same list.
proof fn lemma_ascending_unique(a: Seq<(usize, usize)>, b: Seq<(usize, usize)>)
    requires
        strictly_ascending(a),
        strictly_ascending(b),
        forall|q: (usize, usize)| a.contains(q) <==> b.contains(q),
    ensures
        a == b,
    decreases a.len(),
{
    if a.len() == 0 {
        if b.len() > 0 {
            assert(b.contains(b[0]));
        }
        assert(b.len() == 0);
        assert(a =~= b);
    } else {
        assert(a.contains(a[0]));
        assert(b.len() > 0);
        assert(b.contains(b[0]));
        let i = choose|i: int| 0 <= i < b.len() && b[i] == a[0];
        let j = choose|j: int| 0 <= j < a.len() && a[j] == b[0];
        if i > 0 {
            assert(pos_lt(b[0], b[i]));
            if j > 0 {
                assert(pos_lt(a[0], a[j]));
            }
        }
        if j > 0 {
            assert(pos_lt(a[0], a[j]));
        }
        assert(a[0] == b[0]);
        let a1 = a.drop_first();
        let b1 = b.drop_first();
        assert forall|q: (usize, usize)| a1.contains(q) <==> b1.contains(q) by {
            if a1.contains(q) {
                let k = choose|k: int| 0 <= k < a1.len() && a1[k] == q;
                assert(a.contains(q));
                assert(pos_lt(a[0], a[k + 1]));
                let m = choose|m: int| 0 <= m < b.len() && b[m] == q;
                assert(m != 0);
                assert(b1[m - 1] == q);
            }
            if b1.contains(q) {
                let k = choose|k: int| 0 <= k < b1.len() && b1[k] == q;
                assert(b.contains(q));
                assert(pos_lt(b[0], b[k + 1]));
                let m = choose|m: int| 0 <= m < a.len() && a[m] == q;
                assert(m != 0);
                assert(a1[m - 1] == q);
            }
        }
        lemma_ascending_unique(a1, b1);
        assert(a =~= seq![a[0]] + a1);
        assert(b =~= seq![b[0]] + b1);
    }
}

/// Adds `p` to positions kept in reading order, unless it is there already.
fn insert_ascending(v: &mut Vec<(usize, usize)>, p: (usize, usize))
    requires
        strictly_ascending(old(v)@),
    ensures
        strictly_ascending(final(v)@),
        forall|q: (usize, usize)| final(v)@.contains(q) <==> (old(v)@.contains(q) || q == p),
{
    let mut q: usize = 0;
    while q < v.len() && pos_lt_exec(v[q], p)
        invariant
            q <= v@.len(),
            strictly_ascending(v@),
            v@ == old(v)@,
            forall|j: int| 0 <= j < q ==> pos_lt(#[trigger] v@[j], p),
        decreases v@.len() - q,
    {
        q = q + 1;
    }
    if q < v.len() && v[q].0 == p.0 && v[q].1 == p.1 {
        return;
    }
    proof {
        assert forall|k: int| q <= k < v@.len() implies pos_lt(p, #[trigger] v@[k]) by {
            if k > q {
                assert(pos_lt(v@[q as int], v@[k]));
            }
        }
    }
    v.insert(q, p);
    proof {
        assert forall|x: (usize, usize)| v@.contains(x) <==> (old(v)@.contains(x) || x == p) by {
            if v@.contains(x) {
                let k = choose|k: int| 0 <= k < v@.len() && v@[k] == x;
                if k < q {
                    assert(old(v)@[k] == x);
                } else if k > q {
                    assert(old(v)@[k - 1] == x);
                }
            }
            if old(v)@.contains(x) {
                let k = choose|k: int| 0 <= k < old(v)@.len() && old(v)@[k] == x;
                if k < q {
                    assert(v@[k] == x);
                } else {
                    assert(v@[k + 1] == x);
                }
            }
            if x == p {
                assert(v@[q as int] == p);
            }
        }
    }
}

/// The leading selected positions that come before row `x`.
pub open spec fn leading_below(ps: Seq<(usize, usize)>, x: usize) -> nat
    decreases ps.len(),
{
    if ps.len() == 0 || ps[0].1 >= x {
        0
    } else {
        1 + leading_below(ps.drop_first(), x)
    }
}

/// The ideas of a selection all belong to one movement.
pub open spec fn one_movement(s: SermonView, ids: Seq<Seq<char>>) -> bool {
    forall|j: int, k: int|
        0 <= j < ids.len() && 0 <= k < ids.len() ==> match (
            find_idea_spec(s.movements, #[trigger] ids[j]),
            find_idea_spec(s.movements, #[trigger] ids[k]),
        ) {
            (Some(p), Some(q)) => p.0 == q.0,
            _ => true,
        }
}

proof fn lemma_rows_grow(ps: Seq<(usize, usize)>, m: usize)
    requires
        strictly_ascending(ps),
        forall|k: int| 0 <= k < ps.len() ==> (#[trigger] ps[k]).0 == m,
    ensures
        forall|k: int| 0 <= k < ps.len() ==> (#[trigger] ps[k]).1 >= k,
        forall|j: int, k: int| 0 <= j < k < ps.len() ==> (#[trigger] ps[j]).1 < (#[trigger] ps[k]).1,
    decreases ps.len(),
{
    assert forall|j: int, k: int| 0 <= j < k < ps.len() implies (#[trigger] ps[j]).1 < (#[trigger] ps[k]).1 by {
        assert(pos_lt(ps[j], ps[k]));
    }
    if ps.len() > 0 {
        let front = ps.drop_last();
        assert forall|j: int, k: int| 0 <= j < k < front.len() implies pos_lt(#[trigger] front[j], #[trigger] front[k]) by {
            assert(front[j] == ps[j] && front[k] == ps[k]);
        }
        lemma_rows_grow(front, m);
        assert forall|k: int| 0 <= k < ps.len() implies (#[trigger] ps[k]).1 >= k by {
            if k < ps.len() - 1 {
                assert(front[k] == ps[k]);
            } else if k > 0 {
                assert(front[k - 1] == ps[k - 1]);
                assert(ps[k - 1].1 < ps[k].1);
            }
        }
    }
}

proof fn lemma_leading_below_bound(ps: Seq<(usize, usize)>, x: usize, base: int)
    requires
        forall|k: int| 0 <= k < ps.len() ==> (#[trigger] ps[k]).1 >= k + base,
        base >= 0,
    ensures
        leading_below(ps, x) + base <= x || leading_below(ps, x) == 0,
    decreases ps.len(),
{
    if ps.len() > 0 && ps[0].1 < x {
        let rest = ps.drop_first();
        assert forall|k: int| 0 <= k < rest.len() implies (#[trigger] rest[k]).1 >= k + (base + 1) by {
            assert(rest[k] == ps[k + 1]);
        }
        lemma_leading_below_bound(rest, x, base + 1);
        assert(ps[0].1 >= base);
    }
}

/// The command for a dragged selection of ideas of one movement: each
/// moved in reading order to consecutive rows from the insertion row (less
/// the rows the selection itself vacates above it in the same movement),
/// or, over blank space, into a new movement; `None` when none is left.
#[verifier::spinoff_prover]
#[verifier::rlimit(40)]
pub fn ideas_drop_cmd(sermon: &Sermon, ids: &Vec<String>, target: DropTarget) -> (r: Option<Cmd>)
    requires
        one_movement(sermon@, strings_view(ids@)),
        forall|j: int, k: int| 0 <= j < k < ids@.len() ==> (#[trigger] ids@[j])@ != (#[trigger] ids@[k])@,
        match target {
            DropTarget::IntoMovement { movement, insertion } => movement < sermon@.movements.len()
                && insertion + crate::model::ideas_before(sermon@.movements, sermon@.movements.len() as int)
                <= usize::MAX,
            DropTarget::BlankSpace { at } => at <= sermon@.movements.len() < usize::MAX,
        },
    ensures
        ({
            let ps = selection(sermon@, strings_view(ids@));
            &&& ps.len() == 0 ==> r is None
            &&& ps.len() > 0 ==> match target {
                DropTarget::IntoMovement { movement, insertion } => {
                    let src = ps[0].0;
                    let base = if movement == src {
                        insertion - leading_below(ps, insertion)
                    } else {
                        insertion as int
                    };
                    r matches Some(Cmd::Composite(cs)) && cs@.len() == ps.len() && forall|k: int|
                        0 <= k < cs@.len() ==> (#[trigger] cs@[k] matches Cmd::MoveIdea { from, to }
                            && from.0 == src && from.1 == ps[k].1 - k && to.0 == movement && to.1
                            == base + k)
                },
                DropTarget::BlankSpace { at } => {
                    let src = ps[0].0;
                    let adj = if src >= at {
                        src + 1
                    } else {
                        src as int
                    };
                    r matches Some(Cmd::Composite(cs)) && cs@.len() == ps.len() + 1 && (cs@[0] matches Cmd::InsertMovement {
                        at: a,
                        movement: mv,
                    } && a == at && mv@.name == crate::model::movement_name(at as nat) && mv@.ideas.len()
                        == 0 && !mv@.collapsed) && forall|k: int|
                        0 <= k < ps.len() ==> (#[trigger] cs@[k + 1] matches Cmd::MoveIdea { from, to }
                            && from.0 == adj && from.1 == ps[k].1 - k && to.0 == at && to.1 == k)
                },
            }
        }),
{
    let ghost idv = strings_view(ids@);
    let mut positions: Vec<(usize, usize)> = Vec::new();
    let mut k: usize = 0;
    while k < ids.len()
        invariant
            k <= ids@.len(),
            idv == strings_view(ids@),
            strictly_ascending(positions@),
            forall|q: (usize, usize)|
                positions@.contains(q) <==> exists|j: int|
                    0 <= j < k && find_idea_spec(sermon@.movements, #[trigger] idv[j]) == Some(
                        (q.0 as int, q.1 as int),
                    ),
            forall|q: (usize, usize)| positions@.contains(q) ==> idea_at(sermon@.movements, q.0 as int, q.1 as int),
        decreases ids@.len() - k,
    {
        assert(idv[k as int] == ids@[k as int]@);
        match sermon.find_idea(ids[k].as_str()) {
            Some(p) => {
                proof {
                    crate::model::lemma_find_in_table_valid(crate::model::idea_ids(sermon@.movements), ids@[k as int]@);
                    assert(crate::model::idea_ids(sermon@.movements)[p.0 as int].len()
                        == sermon@.movements[p.0 as int].ideas.len());
                }
                insert_ascending(&mut positions, p);
                assert(positions@.contains(p));
            },
            None => {},
        }
        k = k + 1;
    }
    proof {
        assert forall|q: (usize, usize)| #[trigger] positions@.contains(q) <==> found_at(sermon@, idv, q) by {}
        lemma_ascending_unique(positions@, selection(sermon@, idv));
    }
    if positions.len() == 0 {
        return None;
    }
    let ghost ps = positions@;
    let src = positions[0].0;
    proof {
        assert(ps.contains(ps[0]));
        assert forall|j: int| 0 <= j < ps.len() implies (#[trigger] ps[j]).0 == src by {
            assert(ps.contains(ps[j]));
            let a = choose|a: int| 0 <= a < idv.len() && find_idea_spec(sermon@.movements, #[trigger] idv[a]) == Some((ps[j].0 as int, ps[j].1 as int));
            let b = choose|b: int| 0 <= b < idv.len() && find_idea_spec(sermon@.movements, #[trigger] idv[b]) == Some((ps[0].0 as int, ps[0].1 as int));
            assert(find_idea_spec(sermon@.movements, idv[a]) is Some);
            assert(find_idea_spec(sermon@.movements, idv[b]) is Some);
            assert(match (find_idea_spec(sermon@.movements, idv[a]), find_idea_spec(sermon@.movements, idv[b])) {
                (Some(p), Some(q)) => p.0 == q.0,
                _ => true,
            });
        }
        lemma_rows_grow(ps, src);
        assert(ps.contains(ps[ps.len() - 1]));
        assert(idea_at(sermon@.movements, src as int, ps[ps.len() - 1].1 as int));
        assert(ps.len() <= sermon@.movements[src as int].ideas.len());
    }
    let n = positions.len();
    match target {
        DropTarget::IntoMovement { movement, insertion } => {
            proof {
                lemma_ideas_total(sermon@.movements, src as int);
            }
            let mut below: usize = 0;
            assert(ps.skip(0) =~= ps);
            while below < n && positions[below].1 < insertion
                invariant
                    below <= n,
                    n == ps.len(),
                    ps == positions@,
                    leading_below(ps, insertion) == below + leading_below(ps.skip(below as int), insertion),
                decreases n - below,
            {
                assert(ps.skip(below as int).drop_first() =~= ps.skip(below + 1));
                below = below + 1;
            }
            proof {
                if below < n {
                    assert(ps.skip(below as int)[0] == ps[below as int]);
                } else {
                    assert(ps.skip(below as int) =~= Seq::<(usize, usize)>::empty());
                }
                assert forall|k: int| 0 <= k < ps.len() implies (#[trigger] ps[k]).1 >= k + 0 by {}
                lemma_leading_below_bound(ps, insertion, 0);
            }
            let base = if movement == src {
                insertion - below
            } else {
                insertion
            };
            let mut cmds: Vec<Cmd> = Vec::new();
            let mut t: usize = 0;
            while t < n
                invariant
                    t <= n,
                    n == ps.len(),
                    ps == positions@,
                    base <= insertion,
                    insertion + ps.len() <= usize::MAX + 1,
                    forall|k: int| 0 <= k < ps.len() ==> (#[trigger] ps[k]).1 >= k,
                    cmds@.len() == t,
                    forall|k: int|
                        0 <= k < t ==> (#[trigger] cmds@[k] matches Cmd::MoveIdea { from, to }
                            && from.0 == src && from.1 == ps[k].1 - k && to.0 == movement && to.1
                            == base + k),
                decreases n - t,
            {
                let row = positions[t].1;
                cmds.push(Cmd::MoveIdea { from: (src, row - t), to: (movement, base + t) });
                t = t + 1;
            }
            Some(Cmd::Composite(cmds))
        },
        DropTarget::BlankSpace { at } => {
            let from_m = if src >= at {
                src + 1
            } else {
                src
            };
            let mut cmds: Vec<Cmd> = Vec::new();
            cmds.push(Cmd::InsertMovement { at, movement: crate::model::Movement::new(at) });
            let mut t: usize = 0;
            while t < n
                invariant
                    t <= n,
                    n == ps.len(),
                    ps == positions@,
                    forall|k: int| 0 <= k < ps.len() ==> (#[trigger] ps[k]).1 >= k,
                    cmds@.len() == t + 1,
                    cmds@[0] matches Cmd::InsertMovement { at: a, movement: mv } && a == at && mv@.name
                        == crate::model::movement_name(at as nat) && mv@.ideas.len() == 0 && !mv@.collapsed,
                    forall|k: int|
                        0 <= k < t ==> (#[trigger] cmds@[k + 1] matches Cmd::MoveIdea { from, to }
                            && from.0 == from_m && from.1 == ps[k].1 - k && to.0 == at && to.1 == k),
                decreases n - t,
            {
                let row = positions[t].1;
                cmds.push(Cmd::MoveIdea { from: (from_m, row - t), to: (at, t) });
                t = t + 1;
            }
            Some(Cmd::Composite(cmds))
        },
    }
}

proof fn lemma_ideas_total(ms: Seq<MovementView>, m: int)
    requires
        0 <= m < ms.len(),
    ensures
        ms[m].ideas.len() <= crate::model::ideas_before(ms, ms.len() as int),
{
    lemma_ideas_before_grows(ms, 0, m);
    lemma_ideas_before_grows(ms, m + 1, ms.len() as int);
    assert(crate::model::ideas_before(ms, m + 1) == crate::model::ideas_before(ms, m) + ms[m].ideas.len());
}

proof fn lemma_ideas_before_grows(ms: Seq<MovementView>, a: int, b: int)
    requires
        0 <= a <= b,
    ensures
        crate::model::ideas_before(ms, a) <= crate::model::ideas_before(ms, b),
    decreases b - a,
{
    if a < b {
        lemma_ideas_before_grows(ms, a, b - 1);
    }
}

// ---------------------------------------------------------------------------
// What renaming a tag does.

/// No two ideas of the sermon share an id.
pub open spec fn distinct_ids(ms: Seq<MovementView>) -> bool {
    forall|m1: int, i1: int, m2: int, i2: int|
        idea_at(ms, m1, i1) && idea_at(ms, m2, i2) && (m1 != m2 || i1 != i2)
            ==> #[trigger] ms[m1].ideas[i1].id != #[trigger] ms[m2].ideas[i2].id
}

/// An idea with its tag of `kind` set to `new` when its id is among `ids`.
pub open spec fn retag_idea(i: IdeaView, kind: TagKind, new: Seq<char>, ids: Seq<Seq<char>>) -> IdeaView {
    if ids.contains(i.id) {
        crate::commands::with_tag(i, kind, new)
    } else {
        i
    }
}

pub open spec fn retag_movement(mv: MovementView, kind: TagKind, new: Seq<char>, ids: Seq<Seq<char>>) -> MovementView {
    MovementView { ideas: mv.ideas.map_values(|i: IdeaView| retag_idea(i, kind, new, ids)), ..mv }
}

pub open spec fn retagged(ms: Seq<MovementView>, kind: TagKind, new: Seq<char>, ids: Seq<Seq<char>>) -> Seq<MovementView> {
    ms.map_values(|mv: MovementView| retag_movement(mv, kind, new, ids))
}

/// The movements with every idea whose tag of `kind` is `old` given `new`.
pub open spec fn renamed_idea(i: IdeaView, kind: TagKind, old: Seq<char>, new: Seq<char>) -> IdeaView {
    if tag_of(i, kind) == old {
        crate::commands::with_tag(i, kind, new)
    } else {
        i
    }
}

pub open spec fn renamed(ms: Seq<MovementView>, kind: TagKind, old: Seq<char>, new: Seq<char>) -> Seq<MovementView> {
    ms.map_values(
        |mv: MovementView|
            MovementView { ideas: mv.ideas.map_values(|i: IdeaView| renamed_idea(i, kind, old, new)), ..mv },
    )
}

/// `cs` sets the tag of `kind` from `old` to `new` on the ideas `ts`, in
/// order.
pub open spec fn retag_cmds(cs: Seq<Cmd>, ts: Seq<Seq<char>>, kind: TagKind, old: Seq<char>, new: Seq<char>) -> bool {
    cs.len() == ts.len() && forall|k: int|
        0 <= k < cs.len() ==> (#[trigger] cs[k] matches Cmd::SetIdeaTag { id, kind: k2, old: o, new: n }
            && id@ == ts[k] && k2 == kind && o@ == old && n@ == new)
}

proof fn lemma_retag_one(s: SermonView, c: Cmd, id: Seq<char>, kind: TagKind, new: Seq<char>)
    requires
        distinct_ids(s.movements),
        (c matches Cmd::SetIdeaTag { id: cid, kind: k2, new: n, .. } && cid@ == id && k2 == kind && n@ == new),
    ensures
        apply_cmd(c, s) == (SermonView { movements: retagged(s.movements, kind, new, seq![id]), ..s }),
{
    let ms = s.movements;
    let r = retagged(ms, kind, new, seq![id]);
    let ids = crate::model::idea_ids(ms);
    crate::model::lemma_find_in_table_valid(ids, id);
    match find_idea_spec(ms, id) {
        Some(p) => {
            assert(ids[p.0][p.1] == id);
            assert(ms[p.0].ideas[p.1].id == id);
            assert(seq![id].contains(id)) by {
                assert(seq![id][0] == id);
            }
            let t = apply_cmd(c, s);
            assert forall|m: int| 0 <= m < ms.len() implies t.movements[m] == r[m] by {
                assert(t.movements[m].ideas =~= r[m].ideas) by {
                    assert forall|i: int| 0 <= i < ms[m].ideas.len() implies t.movements[m].ideas[i] == r[m].ideas[i] by {
                        if m == p.0 && i == p.1 {
                        } else {
                            assert(ms[m].ideas[i].id != ms[p.0].ideas[p.1].id);
                            assert(!seq![id].contains(ms[m].ideas[i].id)) by {
                                if seq![id].contains(ms[m].ideas[i].id) {
                                    assert(seq![id][0] == id);
                                }
                            }
                        }
                    }
                }
            }
            assert(t.movements =~= r);
        },
        None => {
            assert forall|m: int| 0 <= m < ms.len() implies ms[m] == r[m] by {
                assert(ms[m].ideas =~= r[m].ideas) by {
                    assert forall|i: int| 0 <= i < ms[m].ideas.len() implies ms[m].ideas[i] == r[m].ideas[i] by {
                        assert(crate::model::in_table(ids, m, i));
                        assert(ids[m][i] == ms[m].ideas[i].id);
                        assert(!seq![id].contains(ms[m].ideas[i].id));
                    }
                }
            }
            assert(ms =~= r);
        },
    }
}

proof fn lemma_retag_twice(ms: Seq<MovementView>, kind: TagKind, new: Seq<char>, a: Seq<Seq<char>>, b: Seq<Seq<char>>)
    ensures
        retagged(retagged(ms, kind, new, a), kind, new, b) == retagged(ms, kind, new, a + b),
        distinct_ids(ms) ==> distinct_ids(retagged(ms, kind, new, a)),
{
    let r1 = retagged(ms, kind, new, a);
    let r2 = retagged(r1, kind, new, b);
    let r3 = retagged(ms, kind, new, a + b);
    assert forall|m: int| 0 <= m < ms.len() implies r2[m] == r3[m] by {
        assert(r2[m].ideas =~= r3[m].ideas) by {
            assert forall|i: int| 0 <= i < ms[m].ideas.len() implies r2[m].ideas[i] == r3[m].ideas[i] by {
                let x = ms[m].ideas[i];
                assert((a + b).contains(x.id) <==> (a.contains(x.id) || b.contains(x.id))) by {
                    if (a + b).contains(x.id) {
                        let k = choose|k: int| 0 <= k < (a + b).len() && (a + b)[k] == x.id;
                        if k < a.len() {
                            assert(a[k] == x.id);
                        } else {
                            assert(b[k - a.len()] == x.id);
                        }
                    }
                    if a.contains(x.id) {
                        let k = choose|k: int| 0 <= k < a.len() && a[k] == x.id;
                        assert((a + b)[k] == x.id);
                    }
                    if b.contains(x.id) {
                        let k = choose|k: int| 0 <= k < b.len() && b[k] == x.id;
                        assert((a + b)[a.len() + k] == x.id);
                    }
                }
            }
        }
    }
    assert(r2 =~= r3);
}

proof fn lemma_retag_all(s: SermonView, cs: Seq<Cmd>, ts: Seq<Seq<char>>, kind: TagKind, old: Seq<char>, new: Seq<char>)
    requires
        distinct_ids(s.movements),
        retag_cmds(cs, ts, kind, old, new),
    ensures
        crate::commands::apply_cmds(cs, s) == (SermonView { movements: retagged(s.movements, kind, new, ts), ..s }),
    decreases cs.len(),
{
    if cs.len() == 0 {
        assert(s.movements =~= retagged(s.movements, kind, new, ts)) by {
            assert forall|m: int| 0 <= m < s.movements.len() implies s.movements[m] == retagged(s.movements, kind, new, ts)[m] by {
                assert(s.movements[m].ideas =~= retagged(s.movements, kind, new, ts)[m].ideas);
            }
        }
    } else {
        lemma_retag_one(s, cs[0], ts[0], kind, new);
        let s1 = apply_cmd(cs[0], s);
        lemma_retag_twice(s.movements, kind, new, seq![ts[0]], ts.drop_first());
        assert forall|k: int| 0 <= k < cs.drop_first().len() implies (#[trigger] cs.drop_first()[k] matches Cmd::SetIdeaTag { id, kind: k2, old: o, new: n }
            && id@ == ts.drop_first()[k] && k2 == kind && o@ == old && n@ == new) by {
            assert(cs.drop_first()[k] == cs[k + 1]);
        }
        lemma_retag_all(s1, cs.drop_first(), ts.drop_first(), kind, old, new);
        assert(seq![ts[0]] + ts.drop_first() =~= ts);
    }
}

proof fn lemma_tagged_in_member(ideas: Seq<IdeaView>, kind: TagKind, old: Seq<char>, x: Seq<char>)
    ensures
        tagged_in(ideas, kind, old).contains(x) <==> exists|i: int|
            0 <= i < ideas.len() && (#[trigger] ideas[i]).id == x && tag_of(ideas[i], kind) == old,
    decreases ideas.len(),
{
    if ideas.len() > 0 {
        let front = ideas.drop_last();
        let last = ideas.last();
        lemma_tagged_in_member(front, kind, old, x);
        let t = tagged_in(ideas, kind, old);
        let f = tagged_in(front, kind, old);
        let here = tag_of(last, kind) == old && last.id == x;
        assert(t.contains(x) <==> (f.contains(x) || here)) by {
            if tag_of(last, kind) == old {
                assert(t == f.push(last.id));
                if t.contains(x) {
                    let k = choose|k: int| 0 <= k < t.len() && t[k] == x;
                    if k < f.len() {
                        assert(f[k] == x);
                    }
                }
                if f.contains(x) {
                    let k = choose|k: int| 0 <= k < f.len() && f[k] == x;
                    assert(t[k] == x);
                }
                if here {
                    assert(t[f.len() as int] == x);
                }
            } else {
                assert(t == f);
            }
        }
        let all = exists|i: int| 0 <= i < ideas.len() && (#[trigger] ideas[i]).id == x && tag_of(ideas[i], kind) == old;
        let before = exists|i: int| 0 <= i < front.len() && (#[trigger] front[i]).id == x && tag_of(front[i], kind) == old;
        assert(all <==> (before || here)) by {
            if all {
                let i = choose|i: int| 0 <= i < ideas.len() && (#[trigger] ideas[i]).id == x && tag_of(ideas[i], kind) == old;
                if i < front.len() {
                    assert(front[i] == ideas[i]);
                }
            }
            if before {
                let i = choose|i: int| 0 <= i < front.len() && (#[trigger] front[i]).id == x && tag_of(front[i], kind) == old;
                assert(ideas[i] == front[i]);
            }
            if here {
                assert(ideas[ideas.len() - 1] == last);
            }
        }
    }
}

proof fn lemma_tagged_ids_member(ms: Seq<MovementView>, kind: TagKind, old: Seq<char>, x: Seq<char>)
    ensures
        tagged_ids(ms, kind, old).contains(x) <==> exists|m: int, i: int|
            idea_at(ms, m, i) && (#[trigger] ms[m].ideas[i]).id == x && tag_of(ms[m].ideas[i], kind) == old,
    decreases ms.len(),
{
    if ms.len() > 0 {
        let front = ms.drop_last();
        let last = ms.last();
        lemma_tagged_ids_member(front, kind, old, x);
        lemma_tagged_in_member(last.ideas, kind, old, x);
        let a = tagged_ids(front, kind, old);
        let b = tagged_in(last.ideas, kind, old);
        assert((a + b).contains(x) <==> (a.contains(x) || b.contains(x))) by {
            if (a + b).contains(x) {
                let k = choose|k: int| 0 <= k < (a + b).len() && (a + b)[k] == x;
                if k < a.len() {
                    assert(a[k] == x);
                } else {
                    assert(b[k - a.len()] == x);
                }
            }
            if a.contains(x) {
                let k = choose|k: int| 0 <= k < a.len() && a[k] == x;
                assert((a + b)[k] == x);
            }
            if b.contains(x) {
                let k = choose|k: int| 0 <= k < b.len() && b[k] == x;
                assert((a + b)[a.len() + k] == x);
            }
        }
        if exists|m: int, i: int| idea_at(ms, m, i) && (#[trigger] ms[m].ideas[i]).id == x && tag_of(ms[m].ideas[i], kind) == old {
            let (m, i) = choose|m: int, i: int| idea_at(ms, m, i) && (#[trigger] ms[m].ideas[i]).id == x && tag_of(ms[m].ideas[i], kind) == old;
            if m < front.len() {
                assert(front[m] == ms[m]);
                assert(idea_at(front, m, i));
            } else {
                assert(last.ideas[i] == ms[m].ideas[i]);
            }
        }
        if a.contains(x) {
            let (m, i) = choose|m: int, i: int| idea_at(front, m, i) && (#[trigger] front[m].ideas[i]).id == x && tag_of(front[m].ideas[i], kind) == old;
            assert(front[m] == ms[m]);
            assert(idea_at(ms, m, i));
        }
        if b.contains(x) {
            let i = choose|i: int| 0 <= i < last.ideas.len() && (#[trigger] last.ideas[i]).id == x && tag_of(last.ideas[i], kind) == old;
            assert(ms[ms.len() - 1] == last);
            assert(idea_at(ms, ms.len() - 1, i));
        }
    }
}

/// "Rename everywhere" renames the tag on exactly the ideas that carry it:
/// with the sermon's idea ids distinct, the command gives every idea whose
/// tag of `kind` is `old` the tag `new`, and leaves every other idea, every
/// movement's name and the rest of the sermon as they were.
pub proof fn lemma_rename_everywhere(s: SermonView, cs: Seq<Cmd>, kind: TagKind, old: Seq<char>, new: Seq<char>)
    requires
        distinct_ids(s.movements),
        retag_cmds(cs, tagged_ids(s.movements, kind, old), kind, old, new),
    ensures
        crate::commands::apply_cmds(cs, s) == (SermonView { movements: renamed(s.movements, kind, old, new), ..s }),
{
    let ms = s.movements;
    let ts = tagged_ids(ms, kind, old);
    lemma_retag_all(s, cs, ts, kind, old, new);
    let r = retagged(ms, kind, new, ts);
    let q = renamed(ms, kind, old, new);
    assert forall|m: int| 0 <= m < ms.len() implies r[m] == q[m] by {
        assert(r[m].ideas =~= q[m].ideas) by {
            assert forall|i: int| 0 <= i < ms[m].ideas.len() implies r[m].ideas[i] == q[m].ideas[i] by {
                let x = ms[m].ideas[i];
                lemma_tagged_ids_member(ms, kind, old, x.id);
                if ts.contains(x.id) {
                    let (m2, i2) = choose|m2: int, i2: int|
                        idea_at(ms, m2, i2) && (#[trigger] ms[m2].ideas[i2]).id == x.id && tag_of(ms[m2].ideas[i2], kind) == old;
                    if m2 != m || i2 != i {
                        assert(ms[m2].ideas[i2].id != ms[m].ideas[i].id);
                    }
                } else {
                    assert(idea_at(ms, m, i));
                }
            }
        }
    }
    assert(r =~= q);
}

// ---------------------------------------------------------------------------
// The tray of recently deleted ideas and movements.

/// Most deletions the tray remembers.
pub const MAX_RECENT_DELETIONS: usize = 20;

pub open spec fn deletions_after(list: Seq<DeletedRecord>, entries: Seq<DeletedRecord>) -> Seq<DeletedRecord> {
    let all = entries.reverse() + list;
    if all.len() > MAX_RECENT_DELETIONS {
        all.take(MAX_RECENT_DELETIONS as int)
    } else {
        all
    }
}

/// Records new deletions in the tray: each in turn put first, the list cut
/// to the most recent `MAX_RECENT_DELETIONS`.
pub fn record_deletions(list: &mut Vec<DeletedRecord>, entries: Vec<DeletedRecord>)
    ensures
        final(list)@ == deletions_after(old(list)@, entries@),
        final(list)@.len() <= MAX_RECENT_DELETIONS || (entries@.len() == 0 && final(list)@ == old(list)@),
{
    if entries.len() == 0 {
        assert(entries@.reverse() + list@ =~= list@);
        if list.len() > MAX_RECENT_DELETIONS {
            let ghost before = list@;
            list.truncate(MAX_RECENT_DELETIONS);
            assert(list@ =~= before.take(MAX_RECENT_DELETIONS as int));
        }
        return;
    }
    let ghost orig = list@;
    let mut fresh = entries;
    let ghost es = fresh@;
    let n0 = fresh.len();
    let mut k: usize = 0;
    while fresh.len() > 0
        invariant
            k <= es.len(),
            es.len() == n0,
            fresh@ == es.skip(k as int),
            list@ == es.take(k as int).reverse() + orig,
        decreases fresh@.len(),
    {
        let e = fresh.remove(0);
        assert(e == es[k as int]);
        let ghost before = list@;
        list.insert(0, e);
        assert(es.take(k + 1).reverse() =~= seq![es[k as int]] + es.take(k as int).reverse());
        assert(list@ =~= es.take(k + 1).reverse() + orig);
        assert(es.skip(k as int).remove(0) =~= es.skip(k + 1));
        k = k + 1;
    }
    assert(es.take(k as int) =~= es);
    if list.len() > MAX_RECENT_DELETIONS {
        let ghost before = list@;
        list.truncate(MAX_RECENT_DELETIONS);
        assert(list@ =~= before.take(MAX_RECENT_DELETIONS as int));
    }
}

/// The tray rows of the open sermon: each of its deletions' place in the
/// list with its label, newest first.
pub open spec fn tray_rows(list: Seq<DeletedRecord>, sermon_id: Seq<char>, n: int) -> Seq<(usize, Seq<char>)>
    decreases n,
{
    if n <= 0 {
        seq![]
    } else if crate::model::deleted_sermon_id(list[n - 1]) == sermon_id {
        tray_rows(list, sermon_id, n - 1).push(((n - 1) as usize, crate::model::deleted_label(list[n - 1])))
    } else {
        tray_rows(list, sermon_id, n - 1)
    }
}

pub open spec fn rows_view(v: Seq<(usize, String)>) -> Seq<(usize, Seq<char>)> {
    v.map_values(|r: (usize, String)| (r.0, r.1@))
}

/// The rows the tray offers for the sermon `sermon_id`: deletions of other
/// sermons stay in the list but are not offered.
pub fn sermon_deletions(list: &Vec<DeletedRecord>, sermon_id: &str) -> (r: Vec<(usize, String)>)
    ensures
        rows_view(r@) == tray_rows(list@, sermon_id@, list@.len() as int),
{
    let mut out: Vec<(usize, String)> = Vec::new();
    let mut i: usize = 0;
    while i < list.len()
        invariant
            i <= list@.len(),
            rows_view(out@) == tray_rows(list@, sermon_id@, i as int),
        decreases list@.len() - i,
    {
        if crate::text::str_eq(list[i].sermon_id(), sermon_id) {
            let ghost before = rows_view(out@);
            out.push((i, list[i].label()));
            assert(rows_view(out@) =~= before.push((i, crate::model::deleted_label(list@[i as int]))));
        }
        i = i + 1;
    }
    out
}

/// The command putting a deleted idea or movement back: at its old place,
/// clamped into the sermon's current shape; `None` for an idea when no
/// movement is left to hold it.
pub fn restore_cmd(sermon: &Sermon, record: DeletedRecord) -> (r: Option<Cmd>)
    ensures
        match record {
            DeletedRecord::Idea { movement, index, idea, .. } => if sermon@.movements.len() == 0 {
                r is None
            } else {
                let m = if movement < sermon@.movements.len() {
                    movement as int
                } else {
                    sermon@.movements.len() - 1
                };
                let n = sermon@.movements[m].ideas.len();
                r matches Some(Cmd::InsertIdea { movement: m2, index: i2, idea: idea2 }) && m2 == m && i2 == (
                if index < n {
                    index as int
                } else {
                    n as int
                }) && idea2 == idea
            },
            DeletedRecord::Movement { at, movement, .. } => r matches Some(
                Cmd::InsertMovement { at: a2, movement: mv2 },
            ) && a2 == (if at < sermon@.movements.len() {
                at as int
            } else {
                sermon@.movements.len() as int
            }) && mv2 == movement,
        },
        r matches Some(c) ==> applicable(c, sermon@),
{
    let len = sermon.movements.len();
    match record {
        DeletedRecord::Idea { movement, index, idea, .. } => {
            if len == 0 {
                return None;
            }
            let m = if movement < len {
                movement
            } else {
                len - 1
            };
            let n = sermon.movements[m].ideas.len();
            assert(n == sermon@.movements[m as int].ideas.len());
            let i = if index < n {
                index
            } else {
                n
            };
            Some(Cmd::InsertIdea { movement: m, index: i, idea })
        },
        DeletedRecord::Movement { at, movement, .. } => {
            let a = if at < len {
                at
            } else {
                len
            };
            Some(Cmd::InsertMovement { at: a, movement })
        },
    }
}

} // verus!

verus! {

// ---------------------------------------------------------------------------
// Reshaping movements from the editor.

/// `merge_into_previous_cmd`'s command for the movement at `idx > 0`: each
/// of its ideas moved in turn from its front to the end of the movement
/// before it, then the emptied movement deleted.
pub open spec fn merge_shape(cs: Seq<Cmd>, s: SermonView, idx: int) -> bool {
    let this = s.movements[idx];
    let prev_len = s.movements[idx - 1].ideas.len();
    let n = this.ideas.len();
    &&& cs.len() == n + 1
    &&& forall|k: int|
        0 <= k < n ==> (#[trigger] cs[k] matches Cmd::MoveIdea { from, to } && from == (
            idx as usize,
            0usize,
        ) && to.0 == idx - 1 && to.1 == prev_len + k)
    &&& cs[n as int] matches Cmd::DeleteMovement { at, movement } && at == idx && movement@
        == MovementView { ideas: seq![], ..this }
}

/// Merges the movement `id` into the one before it: its ideas go to the end
/// of the previous movement in order and the movement is deleted; `None`
/// for the first movement or an unknown id.
pub fn merge_into_previous_cmd(sermon: &Sermon, id: &str) -> (r: Option<Cmd>)
    requires
        forall|m: int|
            1 <= m < sermon@.movements.len() ==> sermon@.movements[m - 1].ideas.len()
                + #[trigger] sermon@.movements[m].ideas.len() <= usize::MAX,
    ensures
        match find_movement_spec(sermon@.movements, id@) {
            Some(idx) => if idx == 0 {
                r is None
            } else {
                r matches Some(Cmd::Composite(cs)) && merge_shape(cs@, sermon@, idx)
            },
            None => r is None,
        },
{
    proof {
        crate::model::lemma_find_in_list_valid(crate::model::movement_ids(sermon@.movements), id@);
    }
    let idx = match sermon.find_movement(id) {
        Some(i) => i,
        None => return None,
    };
    if idx == 0 {
        return None;
    }
    assert(sermon@.movements[idx as int].ideas.len() == sermon.movements@[idx as int].ideas@.len());
    let this = &sermon.movements[idx];
    let prev_len = sermon.movements[idx - 1].ideas.len();
    let n = this.ideas.len();
    let mut cmds: Vec<Cmd> = Vec::new();
    let mut k: usize = 0;
    while k < n
        invariant
            1 <= idx,
            k <= n,
            n == sermon@.movements[idx as int].ideas.len(),
            prev_len == sermon@.movements[idx - 1].ideas.len(),
            prev_len + n <= usize::MAX,
            cmds@.len() == k,
            forall|j: int|
                0 <= j < k ==> (#[trigger] cmds@[j] matches Cmd::MoveIdea { from, to } && from == (
                    idx,
                    0usize,
                ) && to.0 == idx - 1 && to.1 == prev_len + j),
        decreases n - k,
    {
        cmds.push(Cmd::MoveIdea { from: (idx, 0), to: (idx - 1, prev_len + k) });
        k = k + 1;
    }
    let emptied = crate::model::Movement {
        id: this.id.clone(),
        name: this.name.clone(),
        collapsed: this.collapsed,
        ideas: Vec::new(),
    };
    assert(emptied@ == MovementView { ideas: seq![], ..sermon@.movements[idx as int] });
    cmds.push(Cmd::DeleteMovement { at: idx, movement: emptied });
    Some(Cmd::Composite(cmds))
}

/// Where a movement at `from` of `len` moves for the step `dir`: to the top
/// for `i32::MIN`, to the bottom for `i32::MAX`, otherwise `dir` places on,
/// and nowhere when that leaves the outline.
pub open spec fn offset_target(from: int, len: int, dir: int) -> Option<int> {
    if dir == i32::MIN {
        Some(0)
    } else if dir == i32::MAX {
        Some(len - 1)
    } else if from + dir < 0 || from + dir >= len {
        None
    } else {
        Some(from + dir)
    }
}

/// Moves the movement `id` by `dir` places (to the top or bottom for
/// `i32::MIN` or `i32::MAX`); `None` for an unknown id or a step that
/// leaves the outline.
pub fn move_movement_cmd(sermon: &Sermon, id: &str, dir: i32) -> (r: Option<Cmd>)
    requires
        sermon@.movements.len() <= i32::MAX,
        dir == i32::MAX || dir + sermon@.movements.len() <= i32::MAX,
    ensures
        match find_movement_spec(sermon@.movements, id@) {
            Some(from) => match offset_target(from, sermon@.movements.len() as int, dir as int) {
                Some(t) => r matches Some(Cmd::MoveMovement { from: f, to }) && f == from && to == t,
                None => r is None,
            },
            None => r is None,
        },
{
    proof {
        crate::model::lemma_find_in_list_valid(crate::model::movement_ids(sermon@.movements), id@);
    }
    let from = match sermon.find_movement(id) {
        Some(i) => i,
        None => return None,
    };
    let len = sermon.movements.len();
    let to: usize = if dir == i32::MIN {
        0
    } else if dir == i32::MAX {
        len - 1
    } else {
        let t: i64 = from as i64 + dir as i64;
        if t < 0 || t >= len as i64 {
            return None;
        }
        t as usize
    };
    Some(Cmd::MoveMovement { from, to })
}

/// `split_movement_cmd`'s command for movement `m` of `s` split at idea
/// `at`: a new empty, expanded movement with its default name inserted
/// after it, then the ideas from `at` on moved into it in order.
pub open spec fn split_shape(cs: Seq<Cmd>, s: SermonView, m: int, at: int) -> bool {
    let n = s.movements[m].ideas.len();
    &&& cs.len() == 1 + n - at
    &&& cs[0] matches Cmd::InsertMovement { at: a, movement } && a == m + 1 && movement@.name
        == crate::model::movement_name((m + 1) as nat) && !movement@.collapsed
        && movement@.ideas.len() == 0
    &&& forall|k: int|
        0 <= k < n - at ==> (#[trigger] cs[k + 1] matches Cmd::MoveIdea { from, to } && from == (
            m as usize,
            at as usize,
        ) && to == ((m + 1) as usize, k as usize))
}

/// Splits the movement `id` before its idea `split_at`: the ideas from there
/// on go, in order, into a new movement inserted after it; `None` for an
/// unknown id or a split past the last idea.
pub fn split_movement_cmd(sermon: &Sermon, id: &str, split_at: usize) -> (r: Option<Cmd>)
    requires
        sermon@.movements.len() < usize::MAX,
    ensures
        match find_movement_spec(sermon@.movements, id@) {
            Some(m) => if split_at >= sermon@.movements[m].ideas.len() {
                r is None
            } else {
                r matches Some(Cmd::Composite(cs)) && split_shape(cs@, sermon@, m, split_at as int)
            },
            None => r is None,
        },
{
    proof {
        crate::model::lemma_find_in_list_valid(crate::model::movement_ids(sermon@.movements), id@);
    }
    let m = match sermon.find_movement(id) {
        Some(i) => i,
        None => return None,
    };
    assert(sermon@.movements[m as int].ideas.len() == sermon.movements@[m as int].ideas@.len());
    let n = sermon.movements[m].ideas.len();
    if split_at >= n {
        return None;
    }
    let fresh = crate::model::Movement::new(m + 1);
    let mut cmds: Vec<Cmd> = Vec::new();
    cmds.push(Cmd::InsertMovement { at: m + 1, movement: fresh });
    let mut k: usize = 0;
    while k < n - split_at
        invariant
            split_at < n,
            m + 1 <= usize::MAX,
            k <= n - split_at,
            cmds@.len() == 1 + k,
            cmds@[0] matches Cmd::InsertMovement { at: a, movement } && a == m + 1 && movement@.name
                == crate::model::movement_name((m + 1) as nat) && !movement@.collapsed
                && movement@.ideas.len() == 0,
            forall|j: int|
                0 <= j < k ==> (#[trigger] cmds@[j + 1] matches Cmd::MoveIdea { from, to } && from == (
                    m,
                    split_at,
                ) && to == ((m + 1) as usize, j as usize)),
        decreases n - split_at - k,
    {
        cmds.push(Cmd::MoveIdea { from: (m, split_at), to: (m + 1, k) });
        k = k + 1;
    }
    Some(Cmd::Composite(cmds))
}

// ---------------------------------------------------------------------------
// Editing an idea's text.

/// The tags after adding each of `ds` in turn that is not yet there.
pub open spec fn added_tags(acc: Seq<Seq<char>>, ds: Seq<Seq<char>>) -> Seq<Seq<char>>
    decreases ds.len(),
{
    if ds.len() == 0 {
        acc
    } else {
        let next = if acc.contains(ds[0]) {
            acc
        } else {
            acc.push(ds[0])
        };
        added_tags(next, ds.drop_first())
    }
}

/// The display forms of the complete citations of `t`, in order.
pub open spec fn cited_displays(t: Seq<char>) -> Seq<Seq<char>> {
    crate::bible::citations_from(t, 0).map_values(
        |x: (int, int, crate::bible::CitationView)| crate::bible::display_text(x.2),
    )
}

/// The current text of the first idea with `id`, or empty when there is
/// none.
pub open spec fn current_text(s: SermonView, id: Seq<char>) -> Seq<char> {
    match find_idea_spec(s.movements, id) {
        Some(p) => s.movements[p.0].ideas[p.1].text,
        None => seq![],
    }
}

proof fn lemma_added_keeps(acc: Seq<Seq<char>>, ds: Seq<Seq<char>>)
    ensures
        added_tags(acc, ds).len() >= acc.len(),
        added_tags(acc, ds).take(acc.len() as int) == acc,
    decreases ds.len(),
{
    if ds.len() > 0 {
        let next = if acc.contains(ds[0]) {
            acc
        } else {
            acc.push(ds[0])
        };
        lemma_added_keeps(next, ds.drop_first());
        let r = added_tags(acc, ds);
        assert(r.take(next.len() as int) == next);
        assert(r.take(acc.len() as int) =~= next.take(acc.len() as int));
        assert(next.take(acc.len() as int) =~= acc);
    }
}

/// `c` sets idea `id`'s text from `old` to `new`.
pub open spec fn is_text_edit(c: Cmd, id: Seq<char>, old: Seq<char>, new: Seq<char>) -> bool {
    c matches Cmd::EditIdeaText { id: i, old: o, new: n } && i@ == id && o@ == old && n@ == new
}

/// `c` sets the sermon's scripture tags from `old` to `new`.
pub open spec fn is_scripture_tags(c: Cmd, old: Seq<Seq<char>>, new: Seq<Seq<char>>) -> bool {
    c matches Cmd::SetSermonTags { kind, old: o, new: n } && kind == crate::commands::SermonTagKind::S
        && strings_view(o@) == old && strings_view(n@) == new
}

fn has_string(v: &Vec<String>, t: &str) -> (r: bool)
    ensures
        r == strings_view(v@).contains(t@),
{
    let mut k: usize = 0;
    while k < v.len()
        invariant
            k <= v@.len(),
            forall|j: int| 0 <= j < k ==> v@[j]@ != t@,
        decreases v@.len() - k,
    {
        if crate::text::str_eq(v[k].as_str(), t) {
            assert(strings_view(v@)[k as int] == t@);
            return true;
        }
        k = k + 1;
    }
    proof {
        if strings_view(v@).contains(t@) {
            let j = choose|j: int| 0 <= j < strings_view(v@).len() && strings_view(v@)[j] == t@;
            assert(v@[j]@ == t@);
        }
    }
    false
}

/// The command for typing `text` into the idea `id`: the text edit, and
/// when a complete citation in the new text names a scripture not yet among
/// the sermon's scripture tags, also the tags with those added (the edit and
/// the tags then form one step). A tag is never removed here.
pub fn idea_text_edit_cmd(sermon: &Sermon, id: &str, text: &str) -> (r: Cmd)
    ensures
        added_tags(sermon@.s_tags, cited_displays(text@)) == sermon@.s_tags ==> is_text_edit(
            r,
            id@,
            current_text(sermon@, id@),
            text@,
        ),
        added_tags(sermon@.s_tags, cited_displays(text@)) != sermon@.s_tags ==> (r matches Cmd::Composite(cs)
            && cs@.len() == 2 && is_text_edit(cs@[0], id@, current_text(sermon@, id@), text@)
            && is_scripture_tags(cs@[1], sermon@.s_tags, added_tags(sermon@.s_tags, cited_displays(text@)))),
{
    let old = match sermon.idea(id) {
        Some(i) => i.text.clone(),
        None => String::new(),
    };
    let edit = Cmd::EditIdeaText { id: crate::text::owned(id), old, new: crate::text::owned(text) };
    let existing = crate::model::clone_strings(&sermon.s_tags);
    let mut tags = crate::model::clone_strings(&sermon.s_tags);
    let found = crate::bible::find_citations(text);
    let ghost ds = cited_displays(text@);
    proof {
        assert(found@.map_values(|f: crate::bible::Found| crate::bible::found_view(f)).len()
            == found@.len());
        assert(crate::bible::found_spans(text@).len() == crate::bible::citations_from(text@, 0).len());
        assert(found@.len() == ds.len());
        assert(ds.skip(0) =~= ds);
    }
    let mut k: usize = 0;
    while k < found.len()
        invariant
            k <= found@.len(),
            found@.map_values(|f: crate::bible::Found| crate::bible::found_view(f))
                == crate::bible::found_spans(text@),
            ds == cited_displays(text@),
            found@.len() == ds.len(),
            added_tags(sermon@.s_tags, ds) == added_tags(strings_view(tags@), ds.skip(k as int)),
        decreases found@.len() - k,
    {
        let d = found[k].citation.display();
        proof {
            assert(crate::bible::found_view(found@[k as int]) == crate::bible::found_spans(text@)[k as int]);
            assert(d@ == ds[k as int]);
            assert(ds.skip(k as int).drop_first() =~= ds.skip(k + 1));
            assert(ds.skip(k as int)[0] == ds[k as int]);
        }
        if !has_string(&tags, d.as_str()) {
            let ghost before = strings_view(tags@);
            tags.push(d);
            assert(strings_view(tags@) =~= before.push(ds[k as int]));
        }
        k = k + 1;
    }
    proof {
        assert(ds.skip(found@.len() as int) =~= Seq::<Seq<char>>::empty());
        lemma_added_keeps(sermon@.s_tags, ds);
        let nt = added_tags(sermon@.s_tags, ds);
        if nt.len() == sermon@.s_tags.len() {
            assert(nt =~= nt.take(sermon@.s_tags.len() as int));
        }
    }
    if tags.len() == existing.len() {
        edit
    } else {
        let mut cs: Vec<Cmd> = Vec::new();
        cs.push(edit);
        cs.push(Cmd::SetSermonTags { kind: crate::commands::SermonTagKind::S, old: existing, new: tags });
        Cmd::Composite(cs)
    }
}

} // verus!
