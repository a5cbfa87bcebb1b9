//! Application settings that are logic rather than storage: the colour
//! theme and the recent-sermons list.

use vstd::prelude::*;

use crate::model::strings_view;
use crate::text::str_eq;

verus! {

/// The colour scheme the user chose.
#[derive(Clone, Copy, Debug, Default, PartialEq, Eq, Structural)]
pub enum Theme {
    #[default]
    System,
    Light,
    Dark,
}

/// Most recent sermons remembered.
pub const MAX_RECENT: usize = 10;

/// `s` without any copy of `x`.
pub open spec fn without(s: Seq<Seq<char>>, x: Seq<char>) -> Seq<Seq<char>>
    decreases s.len(),
{
    if s.len() == 0 {
        s
    } else if s.last() == x {
        without(s.drop_last(), x)
    } else {
        without(s.drop_last(), x).push(s.last())
    }
}

/// `recent` with every copy of `path` removed and `path` put first, cut to
/// the ten most recent.
pub open spec fn recent_after(recent: Seq<Seq<char>>, path: Seq<char>) -> Seq<Seq<char>> {
    let moved = seq![path] + without(recent, path);
    if moved.len() > MAX_RECENT {
        moved.take(MAX_RECENT as int)
    } else {
        moved
    }
}

/// Records `path` as the most recently opened sermon.
pub fn push_recent(recent: &mut Vec<String>, path: String)
    ensures
        strings_view(final(recent)@) == recent_after(strings_view(old(recent)@), path@),
{
    let ghost orig = strings_view(recent@);
    let mut kept: Vec<String> = Vec::new();
    kept.push(path);
    let mut i: usize = 0;
    assert(orig.take(0) =~= Seq::<Seq<char>>::empty());
    while i < recent.len()
        invariant
            orig == strings_view(recent@),
            i <= recent@.len(),
            kept@.len() >= 1,
            kept@[0]@ == path@,
            strings_view(kept@) == seq![path@] + without(orig.take(i as int), path@),
        decreases recent@.len() - i,
    {
        assert(orig.take(i + 1).drop_last() =~= orig.take(i as int));
        assert(orig.take(i + 1).last() == recent@[i as int]@);
        if !str_eq(recent[i].as_str(), kept[0].as_str()) {
            let ghost before = strings_view(kept@);
            kept.push(recent[i].clone());
            assert(strings_view(kept@) =~= before.push(recent@[i as int]@));
        }
        i = i + 1;
    }
    assert(orig.take(recent@.len() as int) =~= orig);
    if kept.len() > MAX_RECENT {
        kept.truncate(MAX_RECENT);
        assert(strings_view(kept@) =~= (seq![path@] + without(orig, path@)).take(MAX_RECENT as int));
    }
    *recent = kept;
}

} // verus!
