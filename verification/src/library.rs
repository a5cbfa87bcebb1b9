//! The library of every sermon on disk, held in memory: search and sidebar
//! filters, and the censuses of series and tags in use. Scanning the folder
//! is the application's part.

use vstd::prelude::*;

use crate::commands::SermonTagKind;
use crate::date::date_iso_text;
use crate::model::{opt_string_view, strings_view, IdeaView, MovementView, Sermon, SermonView};
use crate::text::{contains, contains_text, lowercase_text, str_eq, to_lowercase, trim, trim_text};

verus! {

#[verifier::external_type_specification]
#[verifier::external_body]
pub struct ExPathBuf(std::path::PathBuf);

/// A sidebar selection in the library window: a sermon tag or a series.
#[derive(Clone, Debug, PartialEq, Eq)]
pub enum LibraryFilter {
    Tag(SermonTagKind, String),
    Series(String),
}

/// Every sermon of the library with the file it was read from.
pub struct LibraryIndex {
    pub sermons: Vec<(std::path::PathBuf, Sermon)>,
}

// ---------------------------------------------------------------------------
// Matching.

/// Whether a sermon passes a sidebar filter: it carries the tag, or belongs
/// to the series.
pub open spec fn matches_filter(s: SermonView, f: LibraryFilter) -> bool {
    match f {
        LibraryFilter::Tag(SermonTagKind::S, tag) => s.s_tags.contains(tag@),
        LibraryFilter::Tag(SermonTagKind::T, tag) => s.t_tags.contains(tag@),
        LibraryFilter::Series(series) => s.series == Some(series@),
    }
}

/// Whether `q` occurs in the lowercased `t`.
pub open spec fn mentions(t: Seq<char>, q: Seq<char>) -> bool {
    contains_text(lowercase_text(t), q)
}

pub open spec fn idea_mentions(i: IdeaView, q: Seq<char>) -> bool {
    mentions(i.text, q) || mentions(i.notes, q) || mentions(i.idea_tag, q) || mentions(i.part_tag, q)
}

pub open spec fn movement_mentions(m: MovementView, q: Seq<char>) -> bool {
    mentions(m.name, q) || exists|i: int| 0 <= i < m.ideas.len() && idea_mentions(#[trigger] m.ideas[i], q)
}

/// Whether the lowercase query `q` occurs in the sermon's title, planned
/// date, lectionary week, tags, movement names or idea texts, notes and
/// tags (each lowercased, the date as written).
pub open spec fn sermon_mentions(s: SermonView, q: Seq<char>) -> bool {
    ||| mentions(s.title, q)
    ||| (s.planned_date matches Some(d) && contains_text(date_iso_text(d), q))
    ||| (s.lectionary matches Some(l) && mentions(l.week, q))
    ||| exists|k: int| 0 <= k < s.s_tags.len() && mentions(#[trigger] s.s_tags[k], q)
    ||| exists|k: int| 0 <= k < s.t_tags.len() && mentions(#[trigger] s.t_tags[k], q)
    ||| exists|m: int| 0 <= m < s.movements.len() && movement_mentions(#[trigger] s.movements[m], q)
}

fn any_mentions(v: &Vec<String>, q: &str) -> (r: bool)
    ensures
        r == exists|k: int| 0 <= k < v@.len() && mentions(#[trigger] strings_view(v@)[k], q@),
{
    let mut k: usize = 0;
    while k < v.len()
        invariant
            k <= v@.len(),
            forall|j: int| 0 <= j < k ==> !mentions(#[trigger] strings_view(v@)[j], q@),
        decreases v@.len() - k,
    {
        if contains(to_lowercase(v[k].as_str()).as_str(), q) {
            assert(mentions(strings_view(v@)[k as int], q@));
            return true;
        }
        k = k + 1;
    }
    false
}

fn lower_contains(t: &str, q: &str) -> (r: bool)
    ensures
        r == mentions(t@, q@),
{
    contains(to_lowercase(t).as_str(), q)
}

fn movement_matches(m: &crate::model::Movement, q: &str) -> (r: bool)
    ensures
        r == movement_mentions(m@, q@),
{
    if lower_contains(m.name.as_str(), q) {
        return true;
    }
    let mut i: usize = 0;
    while i < m.ideas.len()
        invariant
            i <= m.ideas@.len(),
            forall|j: int| 0 <= j < i ==> !idea_mentions(#[trigger] m@.ideas[j], q@),
        decreases m.ideas@.len() - i,
    {
        let idea = &m.ideas[i];
        assert(m@.ideas[i as int] == idea@);
        if lower_contains(idea.text.as_str(), q) || lower_contains(idea.notes.as_str(), q)
            || lower_contains(idea.idea_tag.as_str(), q) || lower_contains(idea.part_tag.as_str(), q) {
            return true;
        }
        i = i + 1;
    }
    false
}

/// Whether the lowercase query occurs anywhere in the sermon.
fn sermon_matches(s: &Sermon, query_lower: &str) -> (r: bool)
    ensures
        r == sermon_mentions(s@, query_lower@),
{
    if lower_contains(s.title.as_str(), query_lower) {
        return true;
    }
    if let Some(d) = s.planned_date {
        if contains(d.to_iso_string().as_str(), query_lower) {
            return true;
        }
    }
    if let Some(link) = &s.lectionary {
        if lower_contains(link.week.as_str(), query_lower) {
            return true;
        }
    }
    assert(s@.s_tags == strings_view(s.s_tags@));
    assert(s@.t_tags == strings_view(s.t_tags@));
    if any_mentions(&s.s_tags, query_lower) {
        proof {
            let k = choose|k: int|
                0 <= k < s.s_tags@.len() && mentions(#[trigger] strings_view(s.s_tags@)[k], query_lower@);
            assert(mentions(s@.s_tags[k], query_lower@));
        }
        return true;
    }
    if any_mentions(&s.t_tags, query_lower) {
        proof {
            let k = choose|k: int|
                0 <= k < s.t_tags@.len() && mentions(#[trigger] strings_view(s.t_tags@)[k], query_lower@);
            assert(mentions(s@.t_tags[k], query_lower@));
        }
        return true;
    }
    let mut m: usize = 0;
    while m < s.movements.len()
        invariant
            m <= s.movements@.len(),
            forall|j: int| 0 <= j < m ==> !movement_mentions(#[trigger] s@.movements[j], query_lower@),
        decreases s.movements@.len() - m,
    {
        assert(s@.movements[m as int] == s.movements@[m as int]@);
        if movement_matches(&s.movements[m], query_lower) {
            return true;
        }
        m = m + 1;
    }
    false
}

fn list_has(v: &Vec<String>, x: &str) -> (r: bool)
    ensures
        r == strings_view(v@).contains(x@),
{
    let mut k: usize = 0;
    while k < v.len()
        invariant
            k <= v@.len(),
            forall|j: int| 0 <= j < k ==> strings_view(v@)[j] != x@,
        decreases v@.len() - k,
    {
        if str_eq(v[k].as_str(), x) {
            assert(strings_view(v@)[k as int] == x@);
            return true;
        }
        k = k + 1;
    }
    false
}

fn sermon_matches_filter(s: &Sermon, filter: &LibraryFilter) -> (r: bool)
    ensures
        r == matches_filter(s@, *filter),
{
    match filter {
        LibraryFilter::Tag(SermonTagKind::S, tag) => list_has(&s.s_tags, tag.as_str()),
        LibraryFilter::Tag(SermonTagKind::T, tag) => list_has(&s.t_tags, tag.as_str()),
        LibraryFilter::Series(series) => match &s.series {
            Some(x) => str_eq(x.as_str(), series.as_str()),
            None => false,
        },
    }
}

/// Whether a sermon is listed for the lowercase query `q` (every sermon for
/// an empty query) and the optional filter.
pub open spec fn listed(s: SermonView, q: Seq<char>, f: Option<LibraryFilter>) -> bool {
    (match f {
        Some(f) => matches_filter(s, f),
        None => true,
    }) && (q.len() == 0 || sermon_mentions(s, q))
}

/// Positions of the first `n` entries that are listed, in order.
pub open spec fn listed_positions(
    es: Seq<(std::path::PathBuf, Sermon)>,
    n: int,
    q: Seq<char>,
    f: Option<LibraryFilter>,
) -> Seq<int>
    decreases n,
{
    if n <= 0 {
        seq![]
    } else if listed(es[n - 1].1@, q, f) {
        listed_positions(es, n - 1, q, f).push(n - 1)
    } else {
        listed_positions(es, n - 1, q, f)
    }
}

/// Search finds every mention: a sermon is listed for the query `q` (with
/// no sidebar filter) whenever `q` occurs, lowercased, in its title, its
/// lectionary week, one of its tags, a movement name, or the text, notes,
/// idea tag or part tag of any idea of any movement.
pub proof fn lemma_search_finds_mentions(s: SermonView, q: Seq<char>, m: int, i: int, k: int)
    requires
        0 <= m < s.movements.len(),
        0 <= i < s.movements[m].ideas.len(),
    ensures
        contains_text(lowercase_text(s.movements[m].ideas[i].text), q) ==> listed(s, q, None),
        contains_text(lowercase_text(s.movements[m].ideas[i].notes), q) ==> listed(s, q, None),
        contains_text(lowercase_text(s.movements[m].ideas[i].idea_tag), q) ==> listed(s, q, None),
        contains_text(lowercase_text(s.movements[m].ideas[i].part_tag), q) ==> listed(s, q, None),
        contains_text(lowercase_text(s.movements[m].name), q) ==> listed(s, q, None),
        contains_text(lowercase_text(s.title), q) ==> listed(s, q, None),
        (s.lectionary matches Some(l) && contains_text(lowercase_text(l.week), q)) ==> listed(
            s,
            q,
            None,
        ),
        0 <= k < s.s_tags.len() && contains_text(lowercase_text(s.s_tags[k]), q) ==> listed(
            s,
            q,
            None,
        ),
        0 <= k < s.t_tags.len() && contains_text(lowercase_text(s.t_tags[k]), q) ==> listed(
            s,
            q,
            None,
        ),
{
    let mv = s.movements[m];
    if idea_mentions(mv.ideas[i], q) {
        assert(movement_mentions(mv, q));
    }
    if mentions(mv.name, q) {
        assert(movement_mentions(mv, q));
    }
}

/// Every sermon that is listed is in the list, at its place among the
/// listed ones.
pub proof fn lemma_listed_in_positions(
    es: Seq<(std::path::PathBuf, Sermon)>,
    n: int,
    q: Seq<char>,
    f: Option<LibraryFilter>,
    j: int,
)
    requires
        0 <= j < n <= es.len(),
        listed(es[j].1@, q, f),
    ensures
        listed_positions(es, n, q, f).contains(j),
    decreases n,
{
    if j < n - 1 {
        lemma_listed_in_positions(es, n - 1, q, f, j);
        let prev = listed_positions(es, n - 1, q, f);
        let k = choose|k: int| 0 <= k < prev.len() && prev[k] == j;
        if listed(es[n - 1].1@, q, f) {
            assert(listed_positions(es, n, q, f)[k] == j);
        }
    } else {
        let ps = listed_positions(es, n, q, f);
        assert(ps[ps.len() - 1] == j);
    }
}

impl LibraryIndex {
    /// The sermons whose title, date, lectionary week, tags, movement names
    /// or ideas contain `query` (trimmed; case-insensitive), among those
    /// passing `filter`; an empty query matches every sermon.
    pub fn filter<'a>(&'a self, query: &str, filter: Option<&LibraryFilter>) -> (r: Vec<
        &'a (std::path::PathBuf, Sermon),
    >)
        ensures
            ({
                let q = lowercase_text(trim_text(query@));
                let f = match filter {
                    Some(f) => Some(*f),
                    None => None,
                };
                let ps = listed_positions(self.sermons@, self.sermons@.len() as int, q, f);
                &&& r@.len() == ps.len()
                &&& forall|k: int| 0 <= k < ps.len() ==> *r@[k] == self.sermons@[#[trigger] ps[k]]
            }),
    {
        let q = to_lowercase(trim(query).as_str());
        let ghost f = match filter {
            Some(f) => Some(*f),
            None => None,
        };
        let mut out: Vec<&'a (std::path::PathBuf, Sermon)> = Vec::new();
        let mut i: usize = 0;
        while i < self.sermons.len()
            invariant
                i <= self.sermons@.len(),
                q@ == lowercase_text(trim_text(query@)),
                f == (match filter {
                    Some(f) => Some(*f),
                    None => None,
                }),
                out@.len() == listed_positions(self.sermons@, i as int, q@, f).len(),
                forall|k: int|
                    0 <= k < out@.len() ==> *out@[k] == self.sermons@[#[trigger] listed_positions(
                        self.sermons@,
                        i as int,
                        q@,
                        f,
                    )[k]],
            decreases self.sermons@.len() - i,
        {
            let entry = &self.sermons[i];
            let pass_filter = match filter {
                Some(fl) => sermon_matches_filter(&entry.1, fl),
                None => true,
            };
            let keep = pass_filter && (q.as_str().is_empty() || sermon_matches(&entry.1, q.as_str()));
            assert(keep == listed(self.sermons@[i as int].1@, q@, f));
            if keep {
                out.push(entry);
            }
            i = i + 1;
        }
        out
    }
}

// ---------------------------------------------------------------------------
// Censuses.

/// Lexicographic order of texts by character code, the order of `String`.
pub open spec fn text_lt(a: Seq<char>, b: Seq<char>) -> bool
    decreases a.len(),
{
    if a.len() == 0 {
        b.len() > 0
    } else if b.len() == 0 {
        false
    } else if a[0] < b[0] {
        true
    } else if a[0] > b[0] {
        false
    } else {
        text_lt(a.drop_first(), b.drop_first())
    }
}

proof fn lemma_text_lt_irreflexive(a: Seq<char>)
    ensures
        !text_lt(a, a),
    decreases a.len(),
{
    if a.len() > 0 {
        lemma_text_lt_irreflexive(a.drop_first());
    }
}

proof fn lemma_text_lt_transitive(a: Seq<char>, b: Seq<char>, c: Seq<char>)
    requires
        text_lt(a, b),
        text_lt(b, c),
    ensures
        text_lt(a, c),
    decreases a.len(),
{
    if a.len() > 0 && b.len() > 0 && c.len() > 0 {
        if a[0] == b[0] && b[0] == c[0] {
            lemma_text_lt_transitive(a.drop_first(), b.drop_first(), c.drop_first());
        }
    }
}

proof fn lemma_text_lt_total(a: Seq<char>, b: Seq<char>)
    requires
        a != b,
    ensures
        text_lt(a, b) || text_lt(b, a),
    decreases a.len(),
{
    if a.len() > 0 && b.len() > 0 && a[0] == b[0] {
        if a.drop_first() == b.drop_first() {
            assert(a =~= seq![a[0]] + a.drop_first());
            assert(b =~= seq![b[0]] + b.drop_first());
        }
        lemma_text_lt_total(a.drop_first(), b.drop_first());
    } else if a.len() == 0 && b.len() == 0 {
        assert(a =~= b);
    }
}

fn text_less(a: &str, b: &str) -> (r: bool)
    ensures
        r == text_lt(a@, b@),
{
    let x = crate::text::chars_of(a);
    let y = crate::text::chars_of(b);
    let mut i: usize = 0;
    assert(x@.skip(0) =~= x@);
    assert(y@.skip(0) =~= y@);
    while i < x.len() && i < y.len() && x[i] == y[i]
        invariant
            x@ == a@,
            y@ == b@,
            i <= x@.len(),
            i <= y@.len(),
            text_lt(a@, b@) == text_lt(x@.skip(i as int), y@.skip(i as int)),
        decreases x@.len() - i,
    {
        assert(x@.skip(i as int).drop_first() =~= x@.skip(i + 1));
        assert(y@.skip(i as int).drop_first() =~= y@.skip(i + 1));
        i = i + 1;
    }
    if i == x.len() {
        return i < y.len();
    }
    if i == y.len() {
        return false;
    }
    assert(x@.skip(i as int)[0] == x@[i as int]);
    assert(y@.skip(i as int)[0] == y@[i as int]);
    x[i] < y[i]
}

/// How often `v` occurs in `vs`.
pub open spec fn count_of(vs: Seq<Seq<char>>, v: Seq<char>) -> nat
    decreases vs.len(),
{
    if vs.len() == 0 {
        0
    } else {
        count_of(vs.drop_last(), v) + if vs.last() == v {
            1nat
        } else {
            0
        }
    }
}

/// The census of `vs` is `es`: its keys in increasing order, each a
/// non-empty value of `vs` counted as often as it occurs, and every
/// non-empty value of `vs` among them.
pub open spec fn is_census(es: Seq<(Seq<char>, nat)>, vs: Seq<Seq<char>>) -> bool {
    &&& forall|i: int, j: int| 0 <= i < j < es.len() ==> text_lt(es[i].0, es[j].0)
    &&& forall|i: int|
        0 <= i < es.len() ==> (#[trigger] es[i]).0.len() > 0 && es[i].1 == count_of(vs, es[i].0)
    &&& forall|k: int|
        0 <= k < vs.len() && (#[trigger] vs[k]).len() > 0 ==> exists|i: int|
            0 <= i < es.len() && es[i].0 == vs[k]
}

/// Values in use with how often each occurs, ordered by value.
pub struct Census {
    pub entries: Vec<(String, usize)>,
}

pub open spec fn census_view(v: Seq<(String, usize)>) -> Seq<(Seq<char>, nat)> {
    v.map_values(|e: (String, usize)| (e.0@, e.1 as nat))
}

impl Census {
    /// The count recorded for `key`.
    pub fn get(&self, key: &str) -> (r: Option<&usize>)
        ensures
            r matches Some(c) ==> exists|i: int|
                0 <= i < self.entries@.len() && self.entries@[i].0@ == key@ && self.entries@[i].1
                    == *c,
            r is None ==> forall|i: int| 0 <= i < self.entries@.len() ==> self.entries@[i].0@ != key@,
    {
        let mut i: usize = 0;
        while i < self.entries.len()
            invariant
                i <= self.entries@.len(),
                forall|j: int| 0 <= j < i ==> self.entries@[j].0@ != key@,
            decreases self.entries@.len() - i,
        {
            if str_eq(self.entries[i].0.as_str(), key) {
                return Some(&self.entries[i].1);
            }
            i = i + 1;
        }
        None
    }

    /// Number of distinct values.
    pub fn len(&self) -> (r: usize)
        ensures
            r == self.entries@.len(),
    {
        self.entries.len()
    }
}

/// The census of the non-empty values of `values`.
fn census(values: &Vec<String>) -> (r: Census)
    ensures
        is_census(census_view(r.entries@), strings_view(values@)),
{
    let ghost vs = strings_view(values@);
    let mut es: Vec<(String, usize)> = Vec::new();
    let mut n: usize = 0;
    assert(vs.take(0) =~= Seq::<Seq<char>>::empty());
    while n < values.len()
        invariant
            vs == strings_view(values@),
            n <= values@.len(),
            is_census(census_view(es@), vs.take(n as int)),
            forall|i: int| 0 <= i < es@.len() ==> es@[i].1 <= n,
        decreases values@.len() - n,
    {
        let ghost before = census_view(es@);
        let ghost pre = vs.take(n as int);
        let ghost post = vs.take(n + 1);
        let v = &values[n];
        assert(vs[n as int] == v@);
        assert(post.drop_last() =~= pre);
        assert(forall|w: Seq<char>| #[trigger] count_of(post, w) == count_of(pre, w) + if v@ == w {
            1nat
        } else {
            0
        });
        if !v.as_str().is_empty() {
            // First position whose key is not below v.
            let mut p: usize = 0;
            while p < es.len() && text_less(es[p].0.as_str(), v.as_str())
                invariant
                    p <= es@.len(),
                    forall|j: int| 0 <= j < p ==> text_lt(es@[j].0@, v@),
                decreases es@.len() - p,
            {
                p = p + 1;
            }
            if p < es.len() && str_eq(es[p].0.as_str(), v.as_str()) {
                let c = es[p].1;
                let key = es[p].0.clone();
                es.set(p, (key, c + 1));
                proof {
                    let after = census_view(es@);
                    assert forall|i: int| 0 <= i < after.len() implies (#[trigger] after[i]).0
                        == before[i].0 by {}
                    assert forall|i: int| 0 <= i < after.len() implies (#[trigger] after[i]).0.len()
                        > 0 && after[i].1 == count_of(post, after[i].0) by {
                        if i != p {
                            assert(after[i] == before[i]);
                            if before[i].0 == v@ {
                                if i < p {
                                    lemma_text_lt_irreflexive(v@);
                                } else {
                                    lemma_text_lt_transitive(before[p as int].0, before[i].0, v@);
                                    lemma_text_lt_irreflexive(v@);
                                    assert(false);
                                }
                            }
                        }
                    }
                    assert forall|k: int| 0 <= k < post.len() && (#[trigger] post[k]).len() > 0 implies exists|i: int|
                        0 <= i < after.len() && after[i].0 == post[k] by {
                        if k < pre.len() {
                            assert(post[k] == pre[k]);
                            let i = choose|i: int| 0 <= i < before.len() && before[i].0 == pre[k];
                            assert(after[i].0 == before[i].0);
                        } else {
                            assert(after[p as int].0 == post[k]);
                        }
                    }
                }

            } else {
                proof {
                    if p < es@.len() {
                        lemma_text_lt_total(es@[p as int].0@, v@);
                    }
                }
                es.insert(p, (v.clone(), 1));
                proof {
                    let after = census_view(es@);
                    assert(after.len() == before.len() + 1);
                    assert forall|i: int| 0 <= i < after.len() implies after[i] == (if i < p {
                        before[i]
                    } else if i == p {
                        (v@, 1nat)
                    } else {
                        before[i - 1]
                    }) by {}
                    assert forall|i: int, j: int| 0 <= i < j < after.len() implies text_lt(
                        after[i].0,
                        after[j].0,
                    ) by {
                        if i < p && j == p {
                        } else if i < p && j > p {
                            if p < before.len() {
                                lemma_text_lt_transitive(before[i].0, v@, before[p as int].0);
                                if j - 1 > p {
                                    lemma_text_lt_transitive(before[i].0, before[p as int].0, before[j - 1].0);
                                }
                            }
                        } else if i == p && j > p {
                            if j - 1 > p {
                                lemma_text_lt_transitive(v@, before[p as int].0, before[j - 1].0);
                            }
                        }
                    }
                    assert forall|i: int| 0 <= i < after.len() implies (#[trigger] after[i]).0.len()
                        > 0 && after[i].1 == count_of(post, after[i].0) by {
                        if i != p {
                            let b = if i < p {
                                before[i]
                            } else {
                                before[i - 1]
                            };
                            assert(after[i] == b);
                            if b.0 == v@ {
                                if i < p {
                                    lemma_text_lt_irreflexive(v@);
                                } else {
                                    if i - 1 > p {
                                        lemma_text_lt_transitive(before[p as int].0, b.0, v@);
                                    }
                                    lemma_text_lt_irreflexive(v@);
                                    assert(false);
                                }
                            }
                        } else {
                            assert(count_of(pre, v@) == 0) by {
                                if count_of(pre, v@) > 0 {
                                    lemma_count_positive(pre, v@);
                                    let k = choose|k: int| 0 <= k < pre.len() && pre[k] == v@;
                                    assert(pre[k].len() > 0);
                                    let i2 = choose|i2: int| 0 <= i2 < before.len() && before[i2].0 == pre[k];
                                    if i2 < p {
                                        lemma_text_lt_irreflexive(v@);
                                    } else if i2 > p {
                                        lemma_text_lt_transitive(before[p as int].0, before[i2].0, v@);
                                        lemma_text_lt_irreflexive(v@);
                                    }
                                }
                            }
                        }
                    }
                    assert forall|k: int| 0 <= k < post.len() && (#[trigger] post[k]).len() > 0 implies exists|i: int|
                        0 <= i < after.len() && after[i].0 == post[k] by {
                        if k < pre.len() {
                            assert(post[k] == pre[k]);
                            let i = choose|i: int| 0 <= i < before.len() && before[i].0 == pre[k];
                            if i < p {
                                assert(after[i].0 == pre[k]);
                            } else {
                                assert(after[i + 1].0 == pre[k]);
                            }
                        } else {
                            assert(after[p as int].0 == post[k]);
                        }
                    }
                }
            }
        } else {
            proof {
                let after = census_view(es@);
                assert forall|k: int| 0 <= k < post.len() && (#[trigger] post[k]).len() > 0 implies exists|i: int|
                    0 <= i < after.len() && after[i].0 == post[k] by {
                    assert(post[k] == pre[k]);
                }
            }
        }

        n = n + 1;
    }
    assert(vs.take(values@.len() as int) =~= vs);
    Census { entries: es }
}

proof fn lemma_count_positive(vs: Seq<Seq<char>>, v: Seq<char>)
    requires
        count_of(vs, v) > 0,
    ensures
        exists|k: int| 0 <= k < vs.len() && vs[k] == v,
    decreases vs.len(),
{
    if vs.last() != v {
        lemma_count_positive(vs.drop_last(), v);
        let k = choose|k: int| 0 <= k < vs.drop_last().len() && vs.drop_last()[k] == v;
        assert(vs[k] == v);
    }
}


// ---------------------------------------------------------------------------
// The values each census counts.

/// Series names of the sermons, in order, one for each sermon in a series.
pub open spec fn series_values(ss: Seq<SermonView>) -> Seq<Seq<char>>
    decreases ss.len(),
{
    if ss.len() == 0 {
        seq![]
    } else {
        series_values(ss.drop_last()) + match ss.last().series {
            Some(x) => seq![x],
            None => seq![],
        }
    }
}

/// Scripture tags of the sermons, in order, with repeats.
pub open spec fn s_tag_values(ss: Seq<SermonView>) -> Seq<Seq<char>>
    decreases ss.len(),
{
    if ss.len() == 0 {
        seq![]
    } else {
        s_tag_values(ss.drop_last()) + ss.last().s_tags
    }
}

/// Theme tags of the sermons, in order, with repeats.
pub open spec fn t_tag_values(ss: Seq<SermonView>) -> Seq<Seq<char>>
    decreases ss.len(),
{
    if ss.len() == 0 {
        seq![]
    } else {
        t_tag_values(ss.drop_last()) + ss.last().t_tags
    }
}

/// The idea tags (or, with `part`, the part tags) of every idea of the
/// movements, in order.
pub open spec fn movement_tags(ms: Seq<MovementView>, part: bool) -> Seq<Seq<char>>
    decreases ms.len(),
{
    if ms.len() == 0 {
        seq![]
    } else {
        movement_tags(ms.drop_last(), part) + ms.last().ideas.map_values(
            |i: IdeaView|
                if part {
                    i.part_tag
                } else {
                    i.idea_tag
                },
        )
    }
}

/// Idea tags (or part tags) of every idea of every sermon, in order.
pub open spec fn idea_tag_values(ss: Seq<SermonView>, part: bool) -> Seq<Seq<char>>
    decreases ss.len(),
{
    if ss.len() == 0 {
        seq![]
    } else {
        idea_tag_values(ss.drop_last(), part) + movement_tags(ss.last().movements, part)
    }
}

/// The sermons of an index, without their paths.
pub open spec fn sermon_views(es: Seq<(std::path::PathBuf, Sermon)>) -> Seq<SermonView> {
    es.map_values(|e: (std::path::PathBuf, Sermon)| e.1@)
}

fn push_all(out: &mut Vec<String>, v: &Vec<String>)
    ensures
        strings_view(final(out)@) == strings_view(old(out)@) + strings_view(v@),
{
    let ghost start = strings_view(out@);
    let mut i: usize = 0;
    while i < v.len()
        invariant
            i <= v@.len(),
            strings_view(out@) == start + strings_view(v@).take(i as int),
        decreases v@.len() - i,
    {
        let ghost pre = out@;
        out.push(v[i].clone());
        assert(strings_view(out@) =~= strings_view(pre).push(v@[i as int]@));
        assert(strings_view(v@).take(i + 1) =~= strings_view(v@).take(i as int).push(v@[i as int]@));
        assert(strings_view(out@) =~= start + strings_view(v@).take(i + 1));
        i = i + 1;
    }
    assert(strings_view(v@).take(v@.len() as int) =~= strings_view(v@));
}

fn push_movement_tags(out: &mut Vec<String>, ms: &Vec<crate::model::Movement>, part: bool)
    ensures
        strings_view(final(out)@) == strings_view(old(out)@) + movement_tags(
            crate::model::movements_view(ms@),
            part,
        ),
{
    let ghost start = strings_view(out@);
    let ghost mv = crate::model::movements_view(ms@);
    let mut m: usize = 0;
    while m < ms.len()
        invariant
            m <= ms@.len(),
            mv == crate::model::movements_view(ms@),
            strings_view(out@) == start + movement_tags(mv.take(m as int), part),
        decreases ms@.len() - m,
    {
        let ideas = &ms[m].ideas;
        let ghost before = strings_view(out@);
        let ghost iv = mv[m as int].ideas;
        let ghost tags = iv.map_values(
            |i: IdeaView|
                if part {
                    i.part_tag
                } else {
                    i.idea_tag
                },
        );
        assert(iv == crate::model::ideas_view(ideas@));
        let mut k: usize = 0;
        while k < ideas.len()
            invariant
                k <= ideas@.len(),
                iv == crate::model::ideas_view(ideas@),
                tags.len() == iv.len(),
                forall|j: int| 0 <= j < iv.len() ==> #[trigger] tags[j] == if part {
                    iv[j].part_tag
                } else {
                    iv[j].idea_tag
                },
                strings_view(out@) == before + tags.take(k as int),
            decreases ideas@.len() - k,
        {
            let ghost pre = out@;
            if part {
                out.push(ideas[k].part_tag.clone());
            } else {
                out.push(ideas[k].idea_tag.clone());
            }
            assert(strings_view(out@) =~= strings_view(pre).push(tags[k as int]));
            assert(tags.take(k + 1) =~= tags.take(k as int).push(tags[k as int]));
            assert(strings_view(out@) =~= before + tags.take(k + 1));
            k = k + 1;
        }
        assert(tags.take(ideas@.len() as int) =~= tags);
        assert(mv.take(m + 1).drop_last() =~= mv.take(m as int));
        assert(strings_view(out@) =~= start + movement_tags(mv.take(m + 1), part));
        m = m + 1;
    }
    assert(mv.take(ms@.len() as int) =~= mv);
}

impl LibraryIndex {
    /// Series names in use, each with the number of sermons in it.
    pub fn series_census(&self) -> (r: Census)
        ensures
            is_census(census_view(r.entries@), series_values(sermon_views(self.sermons@))),
    {
        let ghost ss = sermon_views(self.sermons@);
        let mut vals: Vec<String> = Vec::new();
        let mut i: usize = 0;
        while i < self.sermons.len()
            invariant
                i <= self.sermons@.len(),
                ss == sermon_views(self.sermons@),
                strings_view(vals@) == series_values(ss.take(i as int)),
            decreases self.sermons@.len() - i,
        {
            assert(ss.take(i + 1).drop_last() =~= ss.take(i as int));
            match &self.sermons[i].1.series {
                Some(x) => {
                    vals.push(x.clone());
                },
                None => {},
            }
            assert(strings_view(vals@) =~= series_values(ss.take(i + 1)));
            i = i + 1;
        }
        assert(ss.take(self.sermons@.len() as int) =~= ss);
        census(&vals)
    }

    /// Scripture (s.) tags in use, each with its number of occurrences.
    pub fn s_tag_census(&self) -> (r: Census)
        ensures
            is_census(census_view(r.entries@), s_tag_values(sermon_views(self.sermons@))),
    {
        let ghost ss = sermon_views(self.sermons@);
        let mut vals: Vec<String> = Vec::new();
        let mut i: usize = 0;
        while i < self.sermons.len()
            invariant
                i <= self.sermons@.len(),
                ss == sermon_views(self.sermons@),
                strings_view(vals@) == s_tag_values(ss.take(i as int)),
            decreases self.sermons@.len() - i,
        {
            assert(ss.take(i + 1).drop_last() =~= ss.take(i as int));
            push_all(&mut vals, &self.sermons[i].1.s_tags);
            i = i + 1;
        }
        assert(ss.take(self.sermons@.len() as int) =~= ss);
        census(&vals)
    }

    /// Theme (t.) tags in use, each with its number of occurrences.
    pub fn t_tag_census(&self) -> (r: Census)
        ensures
            is_census(census_view(r.entries@), t_tag_values(sermon_views(self.sermons@))),
    {
        let ghost ss = sermon_views(self.sermons@);
        let mut vals: Vec<String> = Vec::new();
        let mut i: usize = 0;
        while i < self.sermons.len()
            invariant
                i <= self.sermons@.len(),
                ss == sermon_views(self.sermons@),
                strings_view(vals@) == t_tag_values(ss.take(i as int)),
            decreases self.sermons@.len() - i,
        {
            assert(ss.take(i + 1).drop_last() =~= ss.take(i as int));
            push_all(&mut vals, &self.sermons[i].1.t_tags);
            i = i + 1;
        }
        assert(ss.take(self.sermons@.len() as int) =~= ss);
        census(&vals)
    }

    fn tag_census(&self, part: bool) -> (r: Census)
        ensures
            is_census(census_view(r.entries@), idea_tag_values(sermon_views(self.sermons@), part)),
    {
        let ghost ss = sermon_views(self.sermons@);
        let mut vals: Vec<String> = Vec::new();
        let mut i: usize = 0;
        while i < self.sermons.len()
            invariant
                i <= self.sermons@.len(),
                ss == sermon_views(self.sermons@),
                strings_view(vals@) == idea_tag_values(ss.take(i as int), part),
            decreases self.sermons@.len() - i,
        {
            assert(ss.take(i + 1).drop_last() =~= ss.take(i as int));
            push_movement_tags(&mut vals, &self.sermons[i].1.movements, part);
            i = i + 1;
        }
        assert(ss.take(self.sermons@.len() as int) =~= ss);
        census(&vals)
    }

    /// Idea tags used anywhere in the library, each with its number of
    /// occurrences.
    pub fn idea_tag_census(&self) -> (r: Census)
        ensures
            is_census(census_view(r.entries@), idea_tag_values(sermon_views(self.sermons@), false)),
    {
        self.tag_census(false)
    }

    /// Part tags used anywhere in the library, each with its number of
    /// occurrences.
    pub fn part_tag_census(&self) -> (r: Census)
        ensures
            is_census(census_view(r.entries@), idea_tag_values(sermon_views(self.sermons@), true)),
    {
        self.tag_census(true)
    }
}

// ---------------------------------------------------------------------------
// The tag popover's offers.

/// Most values the tag popover offers at once.
pub const MAX_OFFERS: usize = 6;

/// Where an entry goes in a list ordered by count, most used first: after
/// every entry used at least as often.
pub open spec fn count_slot(s: Seq<(Seq<char>, nat)>, x: (Seq<char>, nat)) -> int
    decreases s.len(),
{
    if s.len() == 0 {
        0
    } else if s[0].1 < x.1 {
        0
    } else {
        1 + count_slot(s.drop_first(), x)
    }
}

/// The entries by count, most used first; entries used equally often keep
/// their order.
pub open spec fn by_count(s: Seq<(Seq<char>, nat)>) -> Seq<(Seq<char>, nat)>
    decreases s.len(),
{
    if s.len() == 0 {
        s
    } else {
        let r = by_count(s.drop_last());
        r.insert(count_slot(r, s.last()), s.last())
    }
}

proof fn lemma_count_slot(s: Seq<(Seq<char>, nat)>, x: (Seq<char>, nat), p: int)
    requires
        0 <= p <= s.len(),
        forall|j: int| 0 <= j < p ==> (#[trigger] s[j]).1 >= x.1,
        p < s.len() ==> s[p].1 < x.1,
    ensures
        count_slot(s, x) == p,
    decreases p,
{
    if p > 0 {
        assert(s[0].1 >= x.1);
        assert forall|j: int| 0 <= j < p - 1 implies (#[trigger] s.drop_first()[j]).1 >= x.1 by {
            assert(s.drop_first()[j] == s[j + 1]);
        }
        lemma_count_slot(s.drop_first(), x, p - 1);
    }
}

proof fn lemma_count_slot_bounds(s: Seq<(Seq<char>, nat)>, x: (Seq<char>, nat))
    ensures
        0 <= count_slot(s, x) <= s.len(),
        forall|j: int| 0 <= j < count_slot(s, x) ==> (#[trigger] s[j]).1 >= x.1,
        count_slot(s, x) < s.len() ==> s[count_slot(s, x)].1 < x.1,
    decreases s.len(),
{
    if s.len() > 0 && s[0].1 >= x.1 {
        lemma_count_slot_bounds(s.drop_first(), x);
        assert forall|j: int| 0 <= j < count_slot(s, x) implies (#[trigger] s[j]).1 >= x.1 by {
            if j > 0 {
                assert(s[j] == s.drop_first()[j - 1]);
            }
        }
    }
}

/// The quick picks come most used first and lose no value: the order by
/// count is descending in count and holds exactly the census entries.
pub proof fn lemma_by_count_ordered(s: Seq<(Seq<char>, nat)>)
    ensures
        forall|i: int, j: int|
            0 <= i < j < by_count(s).len() ==> (#[trigger] by_count(s)[i]).1 >= (#[trigger] by_count(s)[j]).1,
        by_count(s).to_multiset() =~= s.to_multiset(),
    decreases s.len(),
{
    if s.len() > 0 {
        let r = by_count(s.drop_last());
        let x = s.last();
        lemma_by_count_ordered(s.drop_last());
        lemma_count_slot_bounds(r, x);
        let p = count_slot(r, x);
        let t = r.insert(p, x);
        assert(t == by_count(s));
        assert forall|i: int, j: int| 0 <= i < j < t.len() implies (#[trigger] t[i]).1 >= (#[trigger] t[j]).1 by {
            if j < p {
                assert(t[i] == r[i] && t[j] == r[j]);
            } else if j == p {
                assert(t[i] == r[i]);
            } else if i < p {
                assert(t[i] == r[i] && t[j] == r[j - 1]);
            } else if i == p {
                assert(t[j] == r[j - 1]);
                assert(r[p].1 >= r[j - 1].1 || p == j - 1);
            } else {
                assert(t[i] == r[i - 1] && t[j] == r[j - 1]);
            }
        }
        vstd::seq_lib::to_multiset_insert(r, p, x);
        assert(s =~= s.drop_last().push(x));
        vstd::seq_lib::to_multiset_build(s.drop_last(), x);
    }
}

/// The census values to offer before anything is typed: the most used
/// first (equally used ones by value), at most `MAX_OFFERS`.
pub fn quick_picks(census: &Census) -> (r: Vec<String>)
    ensures
        strings_view(r@) == {
            let ordered = by_count(census_view(census.entries@));
            let n = if ordered.len() < MAX_OFFERS {
                ordered.len() as int
            } else {
                MAX_OFFERS as int
            };
            ordered.take(n).map_values(|e: (Seq<char>, nat)| e.0)
        },
{
    let ghost es = census_view(census.entries@);
    let mut order: Vec<usize> = Vec::new();
    let mut k: usize = 0;
    assert(es.take(0) =~= Seq::<(Seq<char>, nat)>::empty());
    while k < census.entries.len()
        invariant
            k <= census.entries@.len(),
            es == census_view(census.entries@),
            order@.len() == k,
            forall|j: int| 0 <= j < k ==> #[trigger] order@[j] < census.entries@.len(),
            order@.map_values(|i: usize| es[i as int]) == by_count(es.take(k as int)),
        decreases census.entries@.len() - k,
    {
        let c = census.entries[k].1;
        let ghost sorted = order@.map_values(|i: usize| es[i as int]);
        let mut p: usize = 0;
        while p < order.len() && census.entries[order[p]].1 >= c
            invariant
                p <= order@.len(),
                k < census.entries@.len(),
                c == census.entries@[k as int].1,
                es == census_view(census.entries@),
                forall|j: int| 0 <= j < order@.len() ==> #[trigger] order@[j] < census.entries@.len(),
                sorted == order@.map_values(|i: usize| es[i as int]),
                forall|j: int| 0 <= j < p ==> (#[trigger] sorted[j]).1 >= es[k as int].1,
            decreases order@.len() - p,
        {
            assert(sorted[p as int] == es[order@[p as int] as int]);
            p = p + 1;
        }
        proof {
            if p < order@.len() {
                assert(sorted[p as int] == es[order@[p as int] as int]);
            }
            lemma_count_slot(sorted, es[k as int], p as int);
            assert(es.take(k + 1).drop_last() =~= es.take(k as int));
            assert(es.take(k + 1).last() == es[k as int]);
        }
        order.insert(p, k);
        assert(order@.map_values(|i: usize| es[i as int]) =~= sorted.insert(p as int, es[k as int]));
        k = k + 1;
    }
    assert(es.take(census.entries@.len() as int) =~= es);
    let ghost ordered = by_count(es);
    let mut out: Vec<String> = Vec::new();
    let mut t: usize = 0;
    while t < order.len() && t < MAX_OFFERS
        invariant
            t <= order@.len(),
            t <= MAX_OFFERS,
            es == census_view(census.entries@),
            forall|j: int| 0 <= j < order@.len() ==> #[trigger] order@[j] < census.entries@.len(),
            order@.map_values(|i: usize| es[i as int]) == ordered,
            strings_view(out@) == ordered.take(t as int).map_values(|e: (Seq<char>, nat)| e.0),
        decreases order@.len() - t,
    {
        let i = order[t];
        let ghost before = strings_view(out@);
        let v = census.entries[i].0.clone();
        assert(v@ == census.entries@[i as int].0@);
        assert(es[i as int].0 == census.entries@[i as int].0@);
        out.push(v);
        assert(ordered[t as int] == es[i as int]);
        assert(strings_view(out@) =~= before.push(es[i as int].0));
        assert(strings_view(out@) =~= ordered.take(t + 1).map_values(|e: (Seq<char>, nat)| e.0));
        t = t + 1;
    }
    out
}

/// Whether a census value is offered for the typed `query` (lowercased):
/// it holds the query, case-insensitively, without being it.
pub open spec fn offered(v: Seq<char>, query: Seq<char>) -> bool {
    query.len() > 0 && contains_text(lowercase_text(v), query) && lowercase_text(v) != query
}

pub open spec fn offers(es: Seq<(Seq<char>, nat)>, query: Seq<char>) -> Seq<Seq<char>>
    decreases es.len(),
{
    if es.len() == 0 {
        seq![]
    } else if offered(es.last().0, query) {
        offers(es.drop_last(), query).push(es.last().0)
    } else {
        offers(es.drop_last(), query)
    }
}

/// The census values to offer for what has been typed: those that hold it
/// (case-insensitively) without being it, in order, at most `MAX_OFFERS`.
pub fn tag_suggestions(census: &Census, typed: &str) -> (r: Vec<String>)
    ensures
        strings_view(r@) == {
            let all = offers(census_view(census.entries@), lowercase_text(typed@));
            if all.len() < MAX_OFFERS {
                all
            } else {
                all.take(MAX_OFFERS as int)
            }
        },
{
    let query = to_lowercase(typed);
    let ghost es = census_view(census.entries@);
    let mut out: Vec<String> = Vec::new();
    let mut k: usize = 0;
    assert(es.take(0) =~= Seq::<(Seq<char>, nat)>::empty());
    while k < census.entries.len() && out.len() < MAX_OFFERS
        invariant
            k <= census.entries@.len(),
            es == census_view(census.entries@),
            query@ == lowercase_text(typed@),
            out@.len() <= MAX_OFFERS,
            strings_view(out@) == offers(es.take(k as int), query@),
        decreases census.entries@.len() - k,
    {
        let v = &census.entries[k].0;
        let lower = to_lowercase(v.as_str());
        assert(es.take(k + 1).drop_last() =~= es.take(k as int));
        assert(es.take(k + 1).last() == es[k as int]);
        if !query.as_str().is_empty() && contains(lower.as_str(), query.as_str()) && !str_eq(
            lower.as_str(),
            query.as_str(),
        ) {
            let ghost before = strings_view(out@);
            out.push(v.clone());
            assert(strings_view(out@) =~= before.push(v@));
        }
        k = k + 1;
    }
    proof {
        lemma_offers_prefix(es, query@, k as int);
        if k == census.entries@.len() {
            assert(es.take(k as int) =~= es);
        }
    }
    out
}

proof fn lemma_offers_prefix(es: Seq<(Seq<char>, nat)>, q: Seq<char>, k: int)
    requires
        0 <= k <= es.len(),
    ensures
        offers(es.take(k), q).len() >= MAX_OFFERS ==> offers(es, q).take(MAX_OFFERS as int) == offers(
            es.take(k),
            q,
        ).take(MAX_OFFERS as int),
        offers(es.take(k), q).len() <= offers(es, q).len(),
        offers(es, q).take(offers(es.take(k), q).len() as int) == offers(es.take(k), q),
    decreases es.len() - k,
{
    if k < es.len() {
        lemma_offers_prefix(es, q, k + 1);
        assert(es.take(k + 1).drop_last() =~= es.take(k));
        let a = offers(es.take(k), q);
        let b = offers(es.take(k + 1), q);
        let full = offers(es, q);
        assert(full.take(a.len() as int) =~= a) by {
            assert(b.take(a.len() as int) =~= a);
            assert(full.take(b.len() as int) == b);
        }
        if a.len() >= MAX_OFFERS {
            assert(b.take(MAX_OFFERS as int) =~= a.take(MAX_OFFERS as int));
        }
    } else {
        assert(es.take(k) =~= es);
        assert(offers(es, q).take(offers(es, q).len() as int) =~= offers(es, q));
    }
}

} // verus!
