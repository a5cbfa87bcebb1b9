//! Sermon files: the file name a sermon is saved under and the check that a
//! loaded file's schema is one this build reads. Reading and writing the
//! files is the application's part.

use vstd::prelude::*;

use crate::model::{slug, slug_spec, Sermon, SCHEMA_VERSION};
use crate::sermon_export::{file_date, file_date_text};
use crate::text::{chars_of, push_char, push_str};

verus! {

/// The first six characters of an id other than '-'.
pub open spec fn id_prefix(id: Seq<char>, n: nat) -> Seq<char>
    decreases id.len(),
{
    if id.len() == 0 || n == 0 {
        seq![]
    } else if id[0] == '-' {
        id_prefix(id.drop_first(), n)
    } else {
        seq![id[0]] + id_prefix(id.drop_first(), (n - 1) as nat)
    }
}

/// "<date>-<slug of the title>-<six id characters>.toml".
pub open spec fn sermon_filename(s: crate::model::SermonView) -> Seq<char> {
    file_date_text(s) + "-"@ + slug_spec(s.title) + "-"@ + id_prefix(s.id, 6) + ".toml"@
}

/// The file name a sermon is saved under: its planned (else creation)
/// date, the slug of its title and six characters of its id.
pub fn filename_for(sermon: &Sermon) -> (r: String)
    ensures
        r@ == sermon_filename(sermon@),
{
    let mut s = file_date(sermon);
    push_str(&mut s, "-");
    let sl = slug(sermon.title.as_str());
    push_str(&mut s, sl.as_str());
    push_str(&mut s, "-");
    let id = chars_of(sermon.id.as_str());
    let ghost head = s@;
    let mut i: usize = 0;
    let mut taken: usize = 0;
    assert(id@.skip(0) =~= id@);
    while i < id.len() && taken < 6
        invariant
            id@ == sermon@.id,
            i <= id@.len(),
            taken <= 6,
            s@ + id_prefix(id@.skip(i as int), (6 - taken) as nat) == head + id_prefix(id@, 6),
        decreases id@.len() - i,
    {
        assert(id@.skip(i as int).drop_first() =~= id@.skip(i + 1));
        assert(id@.skip(i as int)[0] == id@[i as int]);
        if id[i] != '-' {
            let ghost before = s@;
            push_char(&mut s, id[i]);
            assert(before + id_prefix(id@.skip(i as int), (6 - taken) as nat) =~= s@ + id_prefix(
                id@.skip(i + 1),
                (6 - taken - 1) as nat,
            ));
            taken = taken + 1;
        }
        i = i + 1;
    }
    assert(id_prefix(id@.skip(i as int), (6 - taken) as nat) =~= Seq::<char>::empty());
    push_str(&mut s, ".toml");
    s
}

/// A sermon file written by a newer build than this one.
#[derive(Clone, Copy, Debug, PartialEq, Eq, Structural)]
pub struct SchemaTooNew {
    pub found: u32,
    pub supported: u32,
}

/// Accepts a loaded file's schema version up to `SCHEMA_VERSION`.
pub fn check_schema(found: u32) -> (r: Result<(), SchemaTooNew>)
    ensures
        r is Ok <==> found <= SCHEMA_VERSION,
        r matches Err(e) ==> e.found == found && e.supported == SCHEMA_VERSION,
{
    if found > SCHEMA_VERSION {
        Err(SchemaTooNew { found, supported: SCHEMA_VERSION })
    } else {
        Ok(())
    }
}

// ---------------------------------------------------------------------------
// The order of the library: newest first.

/// The day a sermon is filed under: its planned date, else the UTC day it
/// was created.
pub open spec fn filing_day(s: crate::model::SermonView) -> int {
    match s.planned_date {
        Some(d) => d,
        None => crate::date::utc_day(s.created),
    }
}

pub open spec fn entry_day(e: (std::path::PathBuf, Sermon)) -> int {
    filing_day(e.1@)
}

/// Where `x` goes in a list ordered newest first: before the first entry
/// filed strictly earlier, so after every entry of its own day or later.
pub open spec fn slot(s: Seq<(std::path::PathBuf, Sermon)>, x: (std::path::PathBuf, Sermon)) -> int
    decreases s.len(),
{
    if s.len() == 0 {
        0
    } else if entry_day(s[0]) < entry_day(x) {
        0
    } else {
        1 + slot(s.drop_first(), x)
    }
}

/// The entries ordered newest first, entries of one day keeping their
/// order: each entry, in turn, put into its slot.
pub open spec fn newest_first(s: Seq<(std::path::PathBuf, Sermon)>) -> Seq<(std::path::PathBuf, Sermon)>
    decreases s.len(),
{
    if s.len() == 0 {
        s
    } else {
        let r = newest_first(s.drop_last());
        r.insert(slot(r, s.last()), s.last())
    }
}

proof fn lemma_slot_bounds(s: Seq<(std::path::PathBuf, Sermon)>, x: (std::path::PathBuf, Sermon))
    ensures
        0 <= slot(s, x) <= s.len(),
        forall|j: int| 0 <= j < slot(s, x) ==> entry_day(#[trigger] s[j]) >= entry_day(x),
        slot(s, x) < s.len() ==> entry_day(s[slot(s, x)]) < entry_day(x),
    decreases s.len(),
{
    if s.len() > 0 && entry_day(s[0]) >= entry_day(x) {
        lemma_slot_bounds(s.drop_first(), x);
        assert forall|j: int| 0 <= j < slot(s, x) implies entry_day(#[trigger] s[j]) >= entry_day(x) by {
            if j > 0 {
                assert(s[j] == s.drop_first()[j - 1]);
            }
        }
    }
}

proof fn lemma_slot_is(s: Seq<(std::path::PathBuf, Sermon)>, x: (std::path::PathBuf, Sermon), p: int)
    requires
        0 <= p <= s.len(),
        forall|j: int| 0 <= j < p ==> entry_day(#[trigger] s[j]) >= entry_day(x),
        p < s.len() ==> entry_day(s[p]) < entry_day(x),
    ensures
        slot(s, x) == p,
    decreases p,
{
    if p > 0 {
        assert(entry_day(s[0]) >= entry_day(x));
        assert forall|j: int| 0 <= j < p - 1 implies entry_day(#[trigger] s.drop_first()[j]) >= entry_day(x) by {
            assert(s.drop_first()[j] == s[j + 1]);
        }
        lemma_slot_is(s.drop_first(), x, p - 1);
    }
}

/// The library order lists newer sermons first and keeps every entry: it
/// is ordered by filing day, latest first, and holds exactly the entries it
/// was given.
pub proof fn lemma_newest_first_sorted(s: Seq<(std::path::PathBuf, Sermon)>)
    ensures
        forall|i: int, j: int|
            0 <= i < j < newest_first(s).len() ==> entry_day(#[trigger] newest_first(s)[i]) >= entry_day(
                #[trigger] newest_first(s)[j],
            ),
        newest_first(s).to_multiset() =~= s.to_multiset(),
    decreases s.len(),
{
    if s.len() > 0 {
        let r = newest_first(s.drop_last());
        let x = s.last();
        lemma_newest_first_sorted(s.drop_last());
        lemma_slot_bounds(r, x);
        let p = slot(r, x);
        let t = r.insert(p, x);
        assert(t == newest_first(s));
        assert forall|i: int, j: int| 0 <= i < j < t.len() implies entry_day(#[trigger] t[i]) >= entry_day(
            #[trigger] t[j],
        ) by {
            if j < p {
                assert(t[i] == r[i] && t[j] == r[j]);
            } else if j == p {
                assert(t[i] == r[i]);
            } else if i < p {
                assert(t[i] == r[i] && t[j] == r[j - 1]);
            } else if i == p {
                assert(t[j] == r[j - 1]);
                assert(entry_day(r[p]) >= entry_day(r[j - 1]) || p == j - 1);
            } else {
                assert(t[i] == r[i - 1] && t[j] == r[j - 1]);
            }
        }
        vstd::seq_lib::to_multiset_insert(r, p, x);
        assert(s =~= s.drop_last().push(x));
        vstd::seq_lib::to_multiset_build(s.drop_last(), x);
    }
}

fn filing_day_of(s: &Sermon) -> (r: i32)
    ensures
        r == filing_day(s@),
{
    match s.planned_date {
        Some(d) => d.days(),
        None => s.created.date().days(),
    }
}

/// Orders the library newest first: by planned date, else creation day,
/// latest first; sermons of one day keep their order.
pub fn sort_newest_first(entries: &mut Vec<(std::path::PathBuf, Sermon)>)
    ensures
        final(entries)@ == newest_first(old(entries)@),
{
    let ghost orig = entries@;
    let n0 = entries.len();
    let mut out: Vec<(std::path::PathBuf, Sermon)> = Vec::new();
    let mut k: usize = 0;
    assert(orig.take(0) =~= Seq::<(std::path::PathBuf, Sermon)>::empty());
    assert(orig.skip(0) =~= orig);
    while entries.len() > 0
        invariant
            k <= orig.len(),
            orig.len() == n0,
            entries@ == orig.skip(k as int),
            out@ == newest_first(orig.take(k as int)),
        decreases entries@.len(),
    {
        let x = entries.remove(0);
        assert(x == orig[k as int]);
        let day = filing_day_of(&x.1);
        let mut p: usize = 0;
        while p < out.len() && filing_day_of(&out[p].1) >= day
            invariant
                p <= out@.len(),
                day == entry_day(x),
                forall|j: int| 0 <= j < p ==> entry_day(#[trigger] out@[j]) >= entry_day(x),
            decreases out@.len() - p,
        {
            p = p + 1;
        }
        proof {
            lemma_slot_is(out@, x, p as int);
            assert(orig.take(k + 1).drop_last() =~= orig.take(k as int));
            assert(orig.take(k + 1).last() == x);
            assert(orig.skip(k as int).remove(0) =~= orig.skip(k + 1));
        }
        out.insert(p, x);
        k = k + 1;
    }
    assert(orig.take(k as int) =~= orig);
    *entries = out;
}

} // verus!
