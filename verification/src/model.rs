//! The sermon document: movements (sections) holding ideas (single-line
//! points with optional notes and tags), plus sermon-level metadata. Each
//! type has a view over plain sequences so that contracts can speak of
//! content rather than of `String` values.

use vstd::prelude::*;

use crate::date::{Date, Timestamp};
use crate::lectionary::{pairs_view, LectionaryKind};
use crate::text::{
    char_is_alphanumeric, decimal, decimal_text, is_alphanumeric, is_blank, is_blank_text,
    lowercase_text, owned, push_char, push_str, string_from_chars, to_lowercase, chars_of,
    ascii_alnum, ascii_char, ascii_lower, ascii_text, ascii_upper,
};

verus! {

/// Newest sermon-file schema this build reads and writes.
pub const SCHEMA_VERSION: u32 = 1;

/// A lowercase hexadecimal digit.
pub open spec fn lower_hex_digit(c: char) -> bool {
    ('0' as int <= c as int <= '9' as int) || ('a' as int <= c as int <= 'f' as int)
}

/// The text of a version-4 UUID in hyphenated lowercase form: 36
/// characters, hyphens after the 8th, 12th, 16th and 20th hex digit, the
/// version digit `4`, and a variant digit of `8`, `9`, `a` or `b`.
pub open spec fn uuid_v4_text(s: Seq<char>) -> bool {
    &&& s.len() == 36
    &&& forall|i: int|
        0 <= i < 36 ==> (if i == 8 || i == 13 || i == 18 || i == 23 {
            s[i] == '-'
        } else {
            lower_hex_digit(#[trigger] s[i])
        })
    &&& s[14] == '4'
    &&& (s[19] == '8' || s[19] == '9' || s[19] == 'a' || s[19] == 'b')
}

/// A fresh random identifier from `uuid::Uuid::new_v4`, written with its
/// `Display` impl (the hyphenated lowercase form). Which random bits it
/// holds is left unsaid; its shape is stated.
#[verifier::external_body]
pub fn new_id() -> (r: String)
    ensures
        uuid_v4_text(r@),
{
    uuid::Uuid::new_v4().to_string()
}

/// The lectionary data resolved for a sermon's planned date, stored with the
/// sermon so the file stands on its own.
#[derive(Debug, PartialEq)]
pub struct LectionaryLink {
    pub source: LectionaryKind,
    pub week: String,
    pub season: String,
    pub year: String,
    pub colour: String,
    pub colour_hex: String,
    /// (label, citation) pairs in display order.
    pub readings: Vec<(String, String)>,
    /// Four-slot readings of files written before `readings` existed;
    /// read but never written.
    pub ot: String,
    pub psalm: String,
    pub epistle: String,
    pub gospel: String,
}

#[verifier::ext_equal]
pub struct LinkView {
    pub source: LectionaryKind,
    pub week: Seq<char>,
    pub season: Seq<char>,
    pub year: Seq<char>,
    pub colour: Seq<char>,
    pub colour_hex: Seq<char>,
    pub readings: Seq<(Seq<char>, Seq<char>)>,
    pub ot: Seq<char>,
    pub psalm: Seq<char>,
    pub epistle: Seq<char>,
    pub gospel: Seq<char>,
}

impl View for LectionaryLink {
    type V = LinkView;

    open spec fn view(&self) -> LinkView {
        LinkView {
            source: self.source,
            week: self.week@,
            season: self.season@,
            year: self.year@,
            colour: self.colour@,
            colour_hex: self.colour_hex@,
            readings: pairs_view(self.readings@),
            ot: self.ot@,
            psalm: self.psalm@,
            epistle: self.epistle@,
            gospel: self.gospel@,
        }
    }
}

fn clone_pairs(v: &Vec<(String, String)>) -> (r: Vec<(String, String)>)
    ensures
        r@ == v@,
{
    let mut out: Vec<(String, String)> = Vec::new();
    let mut i: usize = 0;
    while i < v.len()
        invariant
            i <= v@.len(),
            out@ == v@.subrange(0, i as int),
        decreases v@.len() - i,
    {
        out.push((v[i].0.clone(), v[i].1.clone()));
        assert(out@ =~= v@.subrange(0, i + 1));
        i = i + 1;
    }
    assert(v@.subrange(0, v@.len() as int) =~= v@);
    out
}

impl Clone for LectionaryLink {
    fn clone(&self) -> (r: Self)
        ensures
            r@ == self@,
    {
        LectionaryLink {
            source: self.source,
            week: self.week.clone(),
            season: self.season.clone(),
            year: self.year.clone(),
            colour: self.colour.clone(),
            colour_hex: self.colour_hex.clone(),
            readings: clone_pairs(&self.readings),
            ot: self.ot.clone(),
            psalm: self.psalm.clone(),
            epistle: self.epistle.clone(),
            gospel: self.gospel.clone(),
        }
    }
}

/// The readings of a link: the stored list, or for an old file whose list is
/// empty, the non-empty legacy slots in OT, Psalm, Epistle, Gospel order.
pub open spec fn readings_or_legacy_spec(l: LinkView) -> Seq<(Seq<char>, Seq<char>)> {
    if l.readings.len() > 0 {
        l.readings
    } else {
        let slots = seq![("OT"@, l.ot), ("Psalm"@, l.psalm), ("Epistle"@, l.epistle), ("Gospel"@, l.gospel)];
        slots.filter(|p: (Seq<char>, Seq<char>)| p.1.len() > 0)
    }
}

impl LectionaryLink {
    /// `readings`, or for a file saved before that field existed, pairs
    /// built from the legacy OT/Psalm/Epistle/Gospel slots.
    pub fn readings_or_legacy(&self) -> (r: Vec<(String, String)>)
        ensures
            pairs_view(r@) == readings_or_legacy_spec(self@),
    {
        if self.readings.len() > 0 {
            return clone_pairs(&self.readings);
        }
        let ghost slots = seq![("OT"@, self.ot@), ("Psalm"@, self.psalm@), ("Epistle"@, self.epistle@), ("Gospel"@, self.gospel@)];
        let ghost keep = |p: (Seq<char>, Seq<char>)| p.1.len() > 0;
        let mut out: Vec<(String, String)> = Vec::new();
        proof {
            reveal_with_fuel(Seq::filter, 5);
            assert(slots.subrange(0, 0) =~= Seq::<(Seq<char>, Seq<char>)>::empty());
        }
        if !self.ot.as_str().is_empty() {
            out.push((owned("OT"), self.ot.clone()));
        }
        proof {
            assert(slots.subrange(0, 1).drop_last() =~= slots.subrange(0, 0));
            assert(pairs_view(out@) =~= slots.subrange(0, 1).filter(keep));
        }
        if !self.psalm.as_str().is_empty() {
            out.push((owned("Psalm"), self.psalm.clone()));
        }
        proof {
            assert(slots.subrange(0, 2).drop_last() =~= slots.subrange(0, 1));
            assert(pairs_view(out@) =~= slots.subrange(0, 2).filter(keep));
        }
        if !self.epistle.as_str().is_empty() {
            out.push((owned("Epistle"), self.epistle.clone()));
        }
        proof {
            assert(slots.subrange(0, 3).drop_last() =~= slots.subrange(0, 2));
            assert(pairs_view(out@) =~= slots.subrange(0, 3).filter(keep));
        }
        if !self.gospel.as_str().is_empty() {
            out.push((owned("Gospel"), self.gospel.clone()));
        }
        proof {
            assert(slots.subrange(0, 4).drop_last() =~= slots.subrange(0, 3));
            assert(slots.subrange(0, 4) =~= slots);
            assert(pairs_view(out@) =~= slots.filter(keep));
        }
        out
    }
}

/// A single point of a sermon.
#[derive(Debug, PartialEq)]
pub struct Idea {
    pub id: String,
    pub text: String,
    pub notes: String,
    pub idea_tag: String,
    pub part_tag: String,
    pub expanded: bool,
}

#[verifier::ext_equal]
pub struct IdeaView {
    pub id: Seq<char>,
    pub text: Seq<char>,
    pub notes: Seq<char>,
    pub idea_tag: Seq<char>,
    pub part_tag: Seq<char>,
    pub expanded: bool,
}

impl View for Idea {
    type V = IdeaView;

    open spec fn view(&self) -> IdeaView {
        IdeaView {
            id: self.id@,
            text: self.text@,
            notes: self.notes@,
            idea_tag: self.idea_tag@,
            part_tag: self.part_tag@,
            expanded: self.expanded,
        }
    }
}

impl Clone for Idea {
    fn clone(&self) -> (r: Self)
        ensures
            r == *self,
    {
        Idea {
            id: self.id.clone(),
            text: self.text.clone(),
            notes: self.notes.clone(),
            idea_tag: self.idea_tag.clone(),
            part_tag: self.part_tag.clone(),
            expanded: self.expanded,
        }
    }
}

/// Two ideas agree on everything but their id.
pub open spec fn same_content(a: IdeaView, b: IdeaView) -> bool {
    a.text == b.text && a.notes == b.notes && a.idea_tag == b.idea_tag && a.part_tag == b.part_tag
        && a.expanded == b.expanded
}

impl Idea {
    /// A blank, collapsed idea with a fresh id.
    pub fn new() -> (r: Idea)
        ensures
            uuid_v4_text(r.id@),
            r.text@.len() == 0,
            r.notes@.len() == 0,
            r.idea_tag@.len() == 0,
            r.part_tag@.len() == 0,
            !r.expanded,
    {
        Idea {
            id: new_id(),
            text: String::new(),
            notes: String::new(),
            idea_tag: String::new(),
            part_tag: String::new(),
            expanded: false,
        }
    }

    /// A copy with a fresh id, for "Duplicate idea".
    pub fn duplicate(&self) -> (r: Idea)
        ensures
            same_content(r@, self@),
    {
        Idea {
            id: new_id(),
            text: self.text.clone(),
            notes: self.notes.clone(),
            idea_tag: self.idea_tag.clone(),
            part_tag: self.part_tag.clone(),
            expanded: self.expanded,
        }
    }
}

pub open spec fn ideas_view(v: Seq<Idea>) -> Seq<IdeaView> {
    v.map_values(|i: Idea| i@)
}

fn clone_ideas(v: &Vec<Idea>) -> (r: Vec<Idea>)
    ensures
        r@ == v@,
{
    let mut out: Vec<Idea> = Vec::new();
    let mut i: usize = 0;
    while i < v.len()
        invariant
            i <= v@.len(),
            out@ == v@.subrange(0, i as int),
        decreases v@.len() - i,
    {
        out.push(v[i].clone());
        assert(out@ =~= v@.subrange(0, i + 1));
        i = i + 1;
    }
    assert(v@.subrange(0, v@.len() as int) =~= v@);
    out
}

/// A section of a sermon: a name and its ideas in order.
#[derive(Debug, PartialEq)]
pub struct Movement {
    pub id: String,
    pub name: String,
    pub collapsed: bool,
    pub ideas: Vec<Idea>,
}

#[verifier::ext_equal]
pub struct MovementView {
    pub id: Seq<char>,
    pub name: Seq<char>,
    pub collapsed: bool,
    pub ideas: Seq<IdeaView>,
}

impl View for Movement {
    type V = MovementView;

    open spec fn view(&self) -> MovementView {
        MovementView {
            id: self.id@,
            name: self.name@,
            collapsed: self.collapsed,
            ideas: ideas_view(self.ideas@),
        }
    }
}

impl Clone for Movement {
    fn clone(&self) -> (r: Self)
        ensures
            r@ == self@,
    {
        Movement {
            id: self.id.clone(),
            name: self.name.clone(),
            collapsed: self.collapsed,
            ideas: clone_ideas(&self.ideas),
        }
    }
}

pub open spec fn number_word(i: int) -> Seq<char> {
    if i == 0 {
        "One"@
    } else if i == 1 {
        "Two"@
    } else if i == 2 {
        "Three"@
    } else if i == 3 {
        "Four"@
    } else if i == 4 {
        "Five"@
    } else if i == 5 {
        "Six"@
    } else if i == 6 {
        "Seven"@
    } else if i == 7 {
        "Eight"@
    } else if i == 8 {
        "Nine"@
    } else if i == 9 {
        "Ten"@
    } else if i == 10 {
        "Eleven"@
    } else {
        "Twelve"@
    }
}

/// "Movement One" .. "Movement Twelve" for the first twelve positions, then
/// "Movement 13" and on.
pub open spec fn movement_name(index: nat) -> Seq<char> {
    if index < 12 {
        "Movement "@ + number_word(index as int)
    } else {
        "Movement "@ + decimal_text(index + 1)
    }
}

fn number_word_exec(i: usize) -> (r: &'static str)
    requires
        i < 12,
    ensures
        r@ == number_word(i as int),
{
    if i == 0 {
        "One"
    } else if i == 1 {
        "Two"
    } else if i == 2 {
        "Three"
    } else if i == 3 {
        "Four"
    } else if i == 4 {
        "Five"
    } else if i == 5 {
        "Six"
    } else if i == 6 {
        "Seven"
    } else if i == 7 {
        "Eight"
    } else if i == 8 {
        "Nine"
    } else if i == 9 {
        "Ten"
    } else if i == 10 {
        "Eleven"
    } else {
        "Twelve"
    }
}

/// Default name of the movement at position `index` (0-based).
pub fn default_movement_name(index: usize) -> (r: String)
    requires
        index < u64::MAX,
    ensures
        r@ == movement_name(index as nat),
{
    let mut s = owned("Movement ");
    if index < 12 {
        push_str(&mut s, number_word_exec(index));
    } else {
        let n = decimal(index as u64 + 1);
        push_str(&mut s, n.as_str());
    }
    s
}

impl Movement {
    /// An empty, expanded movement with a fresh id and its default name.
    pub fn new(index: usize) -> (r: Movement)
        requires
            index < u64::MAX,
        ensures
            r.name@ == movement_name(index as nat),
            !r.collapsed,
            r.ideas@.len() == 0,
    {
        Movement {
            id: new_id(),
            name: default_movement_name(index),
            collapsed: false,
            ideas: Vec::new(),
        }
    }

    /// A copy with fresh ids for the movement and every idea in it.
    pub fn duplicate(&self) -> (r: Movement)
        ensures
            r.name@ == self.name@,
            r.collapsed == self.collapsed,
            r.ideas@.len() == self.ideas@.len(),
            forall|i: int|
                0 <= i < self.ideas@.len() ==> same_content(
                    #[trigger] r.ideas@[i]@,
                    self.ideas@[i]@,
                ),
    {
        let mut ideas: Vec<Idea> = Vec::new();
        let mut i: usize = 0;
        while i < self.ideas.len()
            invariant
                i <= self.ideas@.len(),
                ideas@.len() == i,
                forall|j: int| 0 <= j < i ==> same_content(#[trigger] ideas@[j]@, self.ideas@[j]@),
            decreases self.ideas@.len() - i,
        {
            ideas.push(self.ideas[i].duplicate());
            i = i + 1;
        }
        Movement { id: new_id(), name: self.name.clone(), collapsed: self.collapsed, ideas }
    }
}

pub open spec fn movements_view(v: Seq<Movement>) -> Seq<MovementView> {
    v.map_values(|m: Movement| m@)
}

pub open spec fn strings_view(v: Seq<String>) -> Seq<Seq<char>> {
    v.map_values(|s: String| s@)
}

pub open spec fn opt_string_view(o: Option<String>) -> Option<Seq<char>> {
    match o {
        Some(s) => Some(s@),
        None => None,
    }
}

pub open spec fn opt_date_view(o: Option<Date>) -> Option<int> {
    match o {
        Some(d) => Some(d@),
        None => None,
    }
}

pub open spec fn opt_link_view(o: Option<LectionaryLink>) -> Option<LinkView> {
    match o {
        Some(l) => Some(l@),
        None => None,
    }
}

/// A sermon: metadata plus its movements in reading order.
#[derive(Debug, PartialEq)]
pub struct Sermon {
    pub schema_version: u32,
    pub id: String,
    pub title: String,
    pub series: Option<String>,
    pub planned_date: Option<Date>,
    pub created: Timestamp,
    pub modified: Timestamp,
    pub s_tags: Vec<String>,
    pub t_tags: Vec<String>,
    pub lectionary: Option<LectionaryLink>,
    pub movements: Vec<Movement>,
}

#[verifier::ext_equal]
pub struct SermonView {
    pub schema_version: u32,
    pub id: Seq<char>,
    pub title: Seq<char>,
    pub series: Option<Seq<char>>,
    pub planned_date: Option<int>,
    pub created: (int, int),
    pub modified: (int, int),
    pub s_tags: Seq<Seq<char>>,
    pub t_tags: Seq<Seq<char>>,
    pub lectionary: Option<LinkView>,
    pub movements: Seq<MovementView>,
}

impl View for Sermon {
    type V = SermonView;

    open spec fn view(&self) -> SermonView {
        SermonView {
            schema_version: self.schema_version,
            id: self.id@,
            title: self.title@,
            series: opt_string_view(self.series),
            planned_date: opt_date_view(self.planned_date),
            created: self.created@,
            modified: self.modified@,
            s_tags: strings_view(self.s_tags@),
            t_tags: strings_view(self.t_tags@),
            lectionary: opt_link_view(self.lectionary),
            movements: movements_view(self.movements@),
        }
    }
}

pub fn clone_strings(v: &Vec<String>) -> (r: Vec<String>)
    ensures
        r@ == v@,
{
    let mut out: Vec<String> = Vec::new();
    let mut i: usize = 0;
    while i < v.len()
        invariant
            i <= v@.len(),
            out@ == v@.subrange(0, i as int),
        decreases v@.len() - i,
    {
        out.push(v[i].clone());
        assert(out@ =~= v@.subrange(0, i + 1));
        i = i + 1;
    }
    assert(v@.subrange(0, v@.len() as int) =~= v@);
    out
}

pub fn clone_movements(v: &Vec<Movement>) -> (r: Vec<Movement>)
    ensures
        movements_view(r@) == movements_view(v@),
{
    let mut out: Vec<Movement> = Vec::new();
    let mut i: usize = 0;
    while i < v.len()
        invariant
            i <= v@.len(),
            out@.len() == i,
            forall|k: int| 0 <= k < i ==> #[trigger] out@[k]@ == v@[k]@,
        decreases v@.len() - i,
    {
        out.push(v[i].clone());
        i = i + 1;
    }
    assert(movements_view(out@) =~= movements_view(v@));
    out
}

pub fn clone_opt_string(o: &Option<String>) -> (r: Option<String>)
    ensures
        r == *o,
{
    match o {
        Some(s) => Some(s.clone()),
        None => None,
    }
}

pub fn clone_opt_link(o: &Option<LectionaryLink>) -> (r: Option<LectionaryLink>)
    ensures
        opt_link_view(r) == opt_link_view(*o),
{
    match o {
        Some(l) => Some(l.clone()),
        None => None,
    }
}

impl Clone for Sermon {
    fn clone(&self) -> (r: Self)
        ensures
            r@ == self@,
    {
        Sermon {
            schema_version: self.schema_version,
            id: self.id.clone(),
            title: self.title.clone(),
            series: clone_opt_string(&self.series),
            planned_date: self.planned_date,
            created: self.created,
            modified: self.modified,
            s_tags: clone_strings(&self.s_tags),
            t_tags: clone_strings(&self.t_tags),
            lectionary: clone_opt_link(&self.lectionary),
            movements: clone_movements(&self.movements),
        }
    }
}

/// Ideas in the movements before position `m`.
pub open spec fn ideas_before(ms: Seq<MovementView>, m: int) -> int
    decreases m,
{
    if m <= 0 {
        0
    } else {
        ideas_before(ms, m - 1) + ms[m - 1].ideas.len()
    }
}

/// Idea `(m, i)` comes before idea `(m2, i2)` in reading order.
pub open spec fn reads_before(m: int, i: int, m2: int, i2: int) -> bool {
    m < m2 || (m == m2 && i < i2)
}

/// The ids of every movement's ideas.
pub open spec fn idea_ids(ms: Seq<MovementView>) -> Seq<Seq<Seq<char>>> {
    ms.map_values(|mv: MovementView| mv.ideas.map_values(|i: IdeaView| i.id))
}

/// The ids of the movements.
pub open spec fn movement_ids(ms: Seq<MovementView>) -> Seq<Seq<char>> {
    ms.map_values(|mv: MovementView| mv.id)
}

/// Position `(m, i)` exists in an id table.
pub open spec fn in_table(ids: Seq<Seq<Seq<char>>>, m: int, i: int) -> bool {
    0 <= m < ids.len() && 0 <= i < ids[m].len()
}

/// Position `(m, i)` names an idea of the sermon.
pub open spec fn idea_at(ms: Seq<MovementView>, m: int, i: int) -> bool {
    0 <= m < ms.len() && 0 <= i < ms[m].ideas.len()
}

/// `(m, i)` is the first entry in reading order equal to `id`.
pub open spec fn first_with_id(ids: Seq<Seq<Seq<char>>>, id: Seq<char>, m: int, i: int) -> bool {
    &&& in_table(ids, m, i)
    &&& ids[m][i] == id
    &&& forall|m2: int, i2: int|
        in_table(ids, m2, i2) && reads_before(m2, i2, m, i) ==> #[trigger] ids[m2][i2] != id
}

pub open spec fn table_has(ids: Seq<Seq<Seq<char>>>, id: Seq<char>) -> bool {
    exists|m: int, i: int| in_table(ids, m, i) && #[trigger] ids[m][i] == id
}

/// Reading-order position of the first idea with `id`, when there is one.
pub open spec fn find_in_table(ids: Seq<Seq<Seq<char>>>, id: Seq<char>) -> Option<(int, int)> {
    if table_has(ids, id) {
        Some(choose|p: (int, int)| first_with_id(ids, id, p.0, p.1))
    } else {
        None
    }
}

/// Reading-order position of the first idea of the sermon with `id`.
pub open spec fn find_idea_spec(ms: Seq<MovementView>, id: Seq<char>) -> Option<(int, int)> {
    find_in_table(idea_ids(ms), id)
}

/// Position of the first entry equal to `id`.
pub open spec fn find_in_list(ids: Seq<Seq<char>>, id: Seq<char>) -> Option<int> {
    if exists|k: int| 0 <= k < ids.len() && #[trigger] ids[k] == id {
        Some(
            choose|k: int|
                0 <= k < ids.len() && #[trigger] ids[k] == id && forall|j: int|
                    0 <= j < k ==> #[trigger] ids[j] != id,
        )
    } else {
        None
    }
}

/// Position of the first movement of the sermon with `id`.
pub open spec fn find_movement_spec(ms: Seq<MovementView>, id: Seq<char>) -> Option<int> {
    find_in_list(movement_ids(ms), id)
}

pub proof fn lemma_first_with_id_unique(ids: Seq<Seq<Seq<char>>>, id: Seq<char>, m: int, i: int)
    requires
        first_with_id(ids, id, m, i),
    ensures
        find_in_table(ids, id) == Some((m, i)),
{
    assert(in_table(ids, m, i) && ids[m][i] == id);
    let p = choose|p: (int, int)| first_with_id(ids, id, p.0, p.1);
    assert(first_with_id(ids, id, (m, i).0, (m, i).1));
    if reads_before(p.0, p.1, m, i) {
        assert(ids[p.0][p.1] != id);
    } else if reads_before(m, i, p.0, p.1) {
        assert(ids[m][i] != id);
    }
}

proof fn lemma_exists_first(ids: Seq<Seq<Seq<char>>>, id: Seq<char>, a: int, b: int)
    requires
        in_table(ids, a, b),
        ids[a][b] == id,
    ensures
        exists|p: (int, int)| first_with_id(ids, id, p.0, p.1),
    decreases a, b,
{
    if first_with_id(ids, id, a, b) {
        assert(first_with_id(ids, id, (a, b).0, (a, b).1));
    } else {
        let (a2, b2) = choose|a2: int, b2: int|
            in_table(ids, a2, b2) && reads_before(a2, b2, a, b) && #[trigger] ids[a2][b2] == id;
        lemma_exists_first(ids, id, a2, b2);
    }
}

/// A position that `find_in_table` reports holds the id and is first.
pub proof fn lemma_find_in_table_valid(ids: Seq<Seq<Seq<char>>>, id: Seq<char>)
    ensures
        find_in_table(ids, id) matches Some(p) ==> first_with_id(ids, id, p.0, p.1),
{
    if table_has(ids, id) {
        let (a, b) = choose|a: int, b: int| in_table(ids, a, b) && #[trigger] ids[a][b] == id;
        lemma_exists_first(ids, id, a, b);
    }
}

/// A position that `find_in_list` reports holds the id and is first.
pub proof fn lemma_find_in_list_valid(ids: Seq<Seq<char>>, id: Seq<char>)
    ensures
        find_in_list(ids, id) matches Some(k) ==> 0 <= k < ids.len() && ids[k] == id && forall|
            j: int,
        | 0 <= j < k ==> #[trigger] ids[j] != id,
{
    if exists|k: int| 0 <= k < ids.len() && #[trigger] ids[k] == id {
        let k = choose|k: int| 0 <= k < ids.len() && #[trigger] ids[k] == id;
        lemma_list_exists_first(ids, id, k);
    }
}

proof fn lemma_list_exists_first(ids: Seq<Seq<char>>, id: Seq<char>, k: int)
    requires
        0 <= k < ids.len(),
        ids[k] == id,
    ensures
        exists|c: int|
            0 <= c < ids.len() && #[trigger] ids[c] == id && forall|j: int|
                0 <= j < c ==> #[trigger] ids[j] != id,
    decreases k,
{
    if exists|j: int| 0 <= j < k && #[trigger] ids[j] == id {
        let j = choose|j: int| 0 <= j < k && #[trigger] ids[j] == id;
        lemma_list_exists_first(ids, id, j);
    } else {
        assert(0 <= k < ids.len() && ids[k] == id && forall|j: int|
            0 <= j < k ==> #[trigger] ids[j] != id);
    }
}

pub proof fn lemma_find_in_list_first(ids: Seq<Seq<char>>, id: Seq<char>, k: int)
    requires
        0 <= k < ids.len(),
        ids[k] == id,
        forall|j: int| 0 <= j < k ==> #[trigger] ids[j] != id,
    ensures
        find_in_list(ids, id) == Some(k),
{
    let c = choose|c: int|
        0 <= c < ids.len() && #[trigger] ids[c] == id && forall|j: int|
            0 <= j < c ==> #[trigger] ids[j] != id;
    if c < k {
        assert(ids[c] != id);
    } else if k < c {
        assert(ids[k] != id);
    }
}

/// The ideas of a sermon in reading order, numbered from 1.
pub open spec fn numbering_spec(ms: Seq<MovementView>) -> Seq<(int, int, int)> {
    Seq::new(
        ideas_before(ms, ms.len() as int) as nat,
        |k: int|
            {
                let m = choose|m: int|
                    0 <= m < ms.len() && #[trigger] ideas_before(ms, m) <= k < ideas_before(ms, m + 1);
                (m, k - ideas_before(ms, m), k + 1)
            },
    )
}

proof fn lemma_ideas_before_mono(ms: Seq<MovementView>, a: int, b: int)
    requires
        a <= b,
    ensures
        ideas_before(ms, a) <= ideas_before(ms, b),
    decreases b - a,
{
    if a < b {
        lemma_ideas_before_mono(ms, a, b - 1);
    }
}

proof fn lemma_numbering_entry(ms: Seq<MovementView>, m: int, i: int)
    requires
        idea_at(ms, m, i),
    ensures
        0 <= ideas_before(ms, m) + i < ideas_before(ms, ms.len() as int),
        numbering_spec(ms)[ideas_before(ms, m) + i] == (m, i, ideas_before(ms, m) + i + 1),
{
    let k = ideas_before(ms, m) + i;
    lemma_ideas_before_mono(ms, 0, m);
    lemma_ideas_before_mono(ms, m + 1, ms.len() as int);
    let m2 = choose|m2: int|
        0 <= m2 < ms.len() && #[trigger] ideas_before(ms, m2) <= k < ideas_before(ms, m2 + 1);
    if m2 < m {
        lemma_ideas_before_mono(ms, m2 + 1, m);
    } else if m < m2 {
        lemma_ideas_before_mono(ms, m + 1, m2);
    }
}

impl Sermon {
    /// A new sermon: current schema, fresh id, created now, one empty
    /// movement named "Movement One".
    pub fn new() -> (r: Sermon)
        ensures
            r.schema_version == SCHEMA_VERSION,
            r.title@.len() == 0,
            r.series is None,
            r.planned_date is None,
            r.created == r.modified,
            r.s_tags@.len() == 0,
            r.t_tags@.len() == 0,
            r.lectionary is None,
            r.movements@.len() == 1,
            r.movements@[0].name@ == movement_name(0),
            r.movements@[0].ideas@.len() == 0,
            !r.movements@[0].collapsed,
    {
        let now = Timestamp::now();
        let mut movements: Vec<Movement> = Vec::new();
        movements.push(Movement::new(0));
        Sermon {
            schema_version: SCHEMA_VERSION,
            id: new_id(),
            title: String::new(),
            series: None,
            planned_date: None,
            created: now,
            modified: now,
            s_tags: Vec::new(),
            t_tags: Vec::new(),
            lectionary: None,
            movements,
        }
    }

    /// The title, or "Untitled Sermon" while it is empty.
    pub fn display_title(&self) -> (r: &str)
        ensures
            r@ == (if self.title@.len() == 0 {
                "Untitled Sermon"@
            } else {
                self.title@
            }),
    {
        if self.title.as_str().is_empty() {
            "Untitled Sermon"
        } else {
            self.title.as_str()
        }
    }

    /// Continuous 1-based numbering in reading order: every idea's
    /// (movement index, idea index, number).
    pub fn numbering(&self) -> (r: Vec<(usize, usize, usize)>)
        requires
            ideas_before(self@.movements, self@.movements.len() as int) < usize::MAX,
        ensures
            r@.len() == numbering_spec(self@.movements).len(),
            forall|k: int|
                0 <= k < r@.len() ==> (#[trigger] r@[k].0 as int, r@[k].1 as int, r@[k].2 as int)
                    == numbering_spec(self@.movements)[k],
    {
        let ghost ms = self@.movements;
        let mut out: Vec<(usize, usize, usize)> = Vec::new();
        let mut n: usize = 1;
        let mut m: usize = 0;
        while m < self.movements.len()
            invariant
                ms == self@.movements,
                m <= ms.len(),
                ideas_before(ms, ms.len() as int) < usize::MAX,
                out@.len() == ideas_before(ms, m as int),
                n == out@.len() + 1,
                forall|k: int|
                    0 <= k < out@.len() ==> (#[trigger] out@[k].0 as int, out@[k].1 as int, out@[k].2 as int)
                        == numbering_spec(ms)[k],
            decreases ms.len() - m,
        {
            let count = self.movements[m].ideas.len();
            let mut i: usize = 0;
            proof {
                lemma_ideas_before_mono(ms, m + 1, ms.len() as int);
            }
            while i < count
                invariant
                    ms == self@.movements,
                    m < ms.len(),
                    count == ms[m as int].ideas.len(),
                    i <= count,
                    ideas_before(ms, ms.len() as int) < usize::MAX,
                    ideas_before(ms, m + 1) <= ideas_before(ms, ms.len() as int),
                    out@.len() == ideas_before(ms, m as int) + i,
                    n == out@.len() + 1,
                    forall|k: int|
                        0 <= k < out@.len() ==> (#[trigger] out@[k].0 as int, out@[k].1 as int, out@[k].2 as int)
                            == numbering_spec(ms)[k],
                decreases count - i,
            {
                proof {
                    lemma_numbering_entry(ms, m as int, i as int);
                }
                out.push((m, i, n));
                n = n + 1;
                i = i + 1;
            }
            m = m + 1;
        }
        out
    }

    /// Reading-order position of the first idea whose id is `id`.
    pub fn find_idea(&self, id: &str) -> (r: Option<(usize, usize)>)
        ensures
            r matches Some(p) ==> find_idea_spec(self@.movements, id@) == Some(
                (p.0 as int, p.1 as int),
            ),
            r is None ==> find_idea_spec(self@.movements, id@) is None,
    {
        let ghost ms = self@.movements;
        let ghost ids = idea_ids(ms);
        let mut m: usize = 0;
        while m < self.movements.len()
            invariant
                ms == self@.movements,
                ids == idea_ids(ms),
                m <= ms.len(),
                forall|m2: int, i2: int|
                    in_table(ids, m2, i2) && m2 < m ==> #[trigger] ids[m2][i2] != id@,
            decreases ms.len() - m,
        {
            let mut i: usize = 0;
            while i < self.movements[m].ideas.len()
                invariant
                    ms == self@.movements,
                    ids == idea_ids(ms),
                    m < ms.len(),
                    i <= ms[m as int].ideas.len(),
                    forall|m2: int, i2: int|
                        in_table(ids, m2, i2) && reads_before(m2, i2, m as int, i as int)
                            ==> #[trigger] ids[m2][i2] != id@,
                decreases ms[m as int].ideas.len() - i,
            {
                assert(ids[m as int][i as int] == self.movements@[m as int].ideas@[i as int].id@);
                if crate::text::str_eq(self.movements[m].ideas[i].id.as_str(), id) {
                    proof {
                        lemma_first_with_id_unique(ids, id@, m as int, i as int);
                    }
                    return Some((m, i));
                }
                i = i + 1;
            }
            m = m + 1;
        }
        proof {
            if table_has(ids, id@) {
                let (a, b) = choose|a: int, b: int| in_table(ids, a, b) && #[trigger] ids[a][b] == id@;
                assert(ids[a][b] != id@);
            }
        }
        None
    }

    /// Position of the first movement whose id is `id`.
    pub fn find_movement(&self, id: &str) -> (r: Option<usize>)
        ensures
            r matches Some(k) ==> find_movement_spec(self@.movements, id@) == Some(k as int),
            r is None ==> find_movement_spec(self@.movements, id@) is None,
    {
        let ghost ids = movement_ids(self@.movements);
        let mut k: usize = 0;
        while k < self.movements.len()
            invariant
                ids == movement_ids(self@.movements),
                k <= ids.len(),
                forall|j: int| 0 <= j < k ==> #[trigger] ids[j] != id@,
            decreases ids.len() - k,
        {
            assert(ids[k as int] == self.movements@[k as int].id@);
            if crate::text::str_eq(self.movements[k].id.as_str(), id) {
                proof {
                    lemma_find_in_list_first(ids, id@, k as int);
                }
                return Some(k);
            }
            k = k + 1;
        }
        None
    }

    /// The first idea in reading order whose id is `id`.
    pub fn idea(&self, id: &str) -> (r: Option<&Idea>)
        ensures
            match find_idea_spec(self@.movements, id@) {
                Some(p) => r matches Some(idea) && idea@ == self@.movements[p.0].ideas[p.1],
                None => r is None,
            },
    {
        proof {
            lemma_find_in_table_valid(idea_ids(self@.movements), id@);
        }
        match self.find_idea(id) {
            Some((m, i)) => Some(&self.movements[m].ideas[i]),
            None => None,
        }
    }

    /// The first idea in reading order whose id is `id`, to change in
    /// place: whatever it holds when the borrow ends is what the sermon
    /// holds there, and nothing else of the sermon changes
    /// (`lemma_idea_replaced` gives the same over views).
    pub fn idea_mut(&mut self, id: &str) -> (r: Option<&mut Idea>)
        ensures
            match find_idea_spec(old(self)@.movements, id@) {
                Some(p) => r matches Some(x) && (*x)@ == old(self)@.movements[p.0].ideas[p.1]
                    && idea_replaced(*old(self), *final(self), p.0, p.1, *final(x)),
                None => r is None && *final(self) == *old(self),
            },
    {
        proof {
            lemma_find_in_table_valid(idea_ids(self@.movements), id@);
        }
        match self.find_idea(id) {
            Some((m, i)) => Some(&mut self.movements[m].ideas[i]),
            None => None,
        }
    }
}

/// `s1` is `s0` with the idea at (`m`, `i`) replaced by `x`, and nothing
/// else changed.
pub open spec fn idea_replaced(s0: Sermon, s1: Sermon, m: int, i: int, x: Idea) -> bool {
    let ms0 = s0.movements@;
    let ms1 = s1.movements@;
    &&& s1.schema_version == s0.schema_version && s1.id == s0.id && s1.title == s0.title
    &&& s1.series == s0.series && s1.planned_date == s0.planned_date && s1.created == s0.created
    &&& s1.modified == s0.modified && s1.s_tags == s0.s_tags && s1.t_tags == s0.t_tags
    &&& s1.lectionary == s0.lectionary
    &&& ms1.len() == ms0.len()
    &&& forall|j: int| 0 <= j < ms0.len() && j != m ==> #[trigger] ms1[j] == ms0[j]
    &&& ms1[m].id == ms0[m].id && ms1[m].name == ms0[m].name && ms1[m].collapsed
        == ms0[m].collapsed
    &&& ms1[m].ideas@ == ms0[m].ideas@.update(i, x)
}

/// What `idea_replaced` means over views.
pub proof fn lemma_idea_replaced(s0: Sermon, s1: Sermon, m: int, i: int, x: Idea)
    requires
        0 <= m < s0.movements@.len(),
        0 <= i < s0.movements@[m].ideas@.len(),
        idea_replaced(s0, s1, m, i, x),
    ensures
        s1@ == sermon_with_idea(s0@, m, i, x@),
{
    let ms0 = s0.movements@;
    let ms1 = s1.movements@;
    assert(ideas_view(ms1[m].ideas@) =~= ideas_view(ms0[m].ideas@).update(i, x@));
    assert(movements_view(ms1) =~= sermon_with_idea(s0@, m, i, x@).movements);
}

/// `s` with the idea at (`m`, `i`) replaced by `idea`.
pub open spec fn sermon_with_idea(s: SermonView, m: int, i: int, idea: IdeaView) -> SermonView {
    SermonView {
        movements: s.movements.update(
            m,
            MovementView { ideas: s.movements[m].ideas.update(i, idea), ..s.movements[m] },
        ),
        ..s
    }
}

/// `squash(s, started, pending)` keeps the non-dash characters of `s` and
/// puts a single dash between runs that dashes separated; leading and
/// trailing dashes vanish. `started`: a run was already emitted; `pending`:
/// a dash was seen since.
pub open spec fn squash(s: Seq<char>, started: bool, pending: bool) -> Seq<char>
    decreases s.len(),
{
    if s.len() == 0 {
        seq![]
    } else if s[0] == '-' {
        squash(s.drop_first(), started, started)
    } else {
        (if pending {
            seq!['-']
        } else {
            seq![]
        }) + seq![s[0]] + squash(s.drop_first(), true, false)
    }
}

/// Alphanumeric characters kept, every other character a dash.
pub open spec fn dash_non_alnum(s: Seq<char>) -> Seq<char> {
    s.map_values(|c: char| if char_is_alphanumeric(c) { c } else { '-' })
}

/// Lowercased, dash-separated title for file names; "untitled" when no
/// alphanumeric character is left.
pub open spec fn slug_spec(title: Seq<char>) -> Seq<char> {
    let s = squash(dash_non_alnum(lowercase_text(title)), false, false);
    if s.len() == 0 {
        "untitled"@
    } else {
        s
    }
}

/// File-name form of a title.
pub fn slug(title: &str) -> (r: String)
    ensures
        r@ == slug_spec(title@),
{
    let lower = to_lowercase(title);
    let cs = chars_of(lower.as_str());
    let ghost mapped = dash_non_alnum(cs@);
    let mut out: Vec<char> = Vec::new();
    let mut started = false;
    let mut pending = false;
    let mut i: usize = 0;
    proof {
        assert(mapped.skip(0) =~= mapped);
    }
    while i < cs.len()
        invariant
            mapped == dash_non_alnum(cs@),
            i <= cs@.len(),
            out@ + squash(mapped.skip(i as int), started, pending) == squash(mapped, false, false),
            started <==> out@.len() > 0,
        decreases cs@.len() - i,
    {
        let c = cs[i];
        let ghost rest = mapped.skip(i as int);
        proof {
            assert(rest.drop_first() =~= mapped.skip(i + 1));
            assert(rest[0] == mapped[i as int]);
        }
        let kept = if is_alphanumeric(c) {
            c
        } else {
            '-'
        };
        if kept != '-' {
            let c = kept;
            let ghost before = out@;
            if pending {
                out.push('-');
            }
            out.push(c);
            proof {
                let head = (if pending { seq!['-'] } else { seq![] }) + seq![c];
                assert(out@ =~= before + head);
                assert(before + squash(rest, started, pending) =~= before + head + squash(
                    mapped.skip(i + 1),
                    true,
                    false,
                ));
            }
            started = true;
            pending = false;
        } else {
            pending = started;
        }
        i = i + 1;
    }
    proof {
        assert(mapped.skip(i as int).len() == 0);
        assert(out@ + seq![] =~= out@);
    }
    if out.len() == 0 {
        owned("untitled")
    } else {
        string_from_chars(out.as_slice())
    }
}

/// A character a slug may hold: a dash, or an ASCII small letter or digit.
pub open spec fn slug_char(c: char) -> bool {
    c == '-' || (ascii_alnum(c) && !ascii_upper(c))
}

/// No dash at either end and never two dashes in a row.
pub open spec fn dashes_single(s: Seq<char>) -> bool {
    &&& s.len() == 0 || (s[0] != '-' && s.last() != '-')
    &&& forall|k: int| 0 <= k < s.len() - 1 && #[trigger] s[k] == '-' ==> s[k + 1] != '-'
}

proof fn lemma_squash_shape(x: Seq<char>, st: bool, pd: bool)
    ensures
        ({
            let o = squash(x, st, pd);
            &&& forall|k: int|
                0 <= k < o.len() && #[trigger] o[k] == '-' ==> k + 1 < o.len() && o[k + 1] != '-'
            &&& forall|k: int|
                0 <= k < o.len() && #[trigger] o[k] != '-' ==> exists|j: int|
                    0 <= j < x.len() && x[j] == o[k]
            &&& o.len() > 0 && o[0] == '-' ==> pd || st
        }),
    decreases x.len(),
{
    if x.len() > 0 {
        let rest = x.drop_first();
        if x[0] == '-' {
            lemma_squash_shape(rest, st, st);
            let o = squash(x, st, pd);
            let o2 = squash(rest, st, st);
            assert(o == o2);
            assert forall|k: int| 0 <= k < o.len() && #[trigger] o[k] != '-' implies exists|j: int|
                0 <= j < x.len() && x[j] == o[k] by {
                assert(o2[k] != '-');
                let j = choose|j: int| 0 <= j < rest.len() && rest[j] == o2[k];
                assert(x[j + 1] == o[k]);
            }
        } else {
            lemma_squash_shape(rest, true, false);
            let t = squash(rest, true, false);
            let pre = if pd {
                seq!['-']
            } else {
                Seq::<char>::empty()
            };
            let o = squash(x, st, pd);
            assert(o == pre + seq![x[0]] + t);
            let p = pre.len() as int;
            assert forall|k: int|
                0 <= k < o.len() && #[trigger] o[k] == '-' implies k + 1 < o.len() && o[k + 1]
                != '-' by {
                if k < p {
                    assert(o[k + 1] == x[0]);
                } else if k > p {
                    assert(o[k] == t[k - p - 1]);
                    assert(o[k + 1] == t[k - p]);
                }
            }
            assert forall|k: int| 0 <= k < o.len() && #[trigger] o[k] != '-' implies exists|j: int|
                0 <= j < x.len() && x[j] == o[k] by {
                if k == p {
                    assert(x[0] == o[k]);
                } else {
                    assert(k > p);
                    assert(o[k] == t[k - p - 1]);
                    let j = choose|j: int| 0 <= j < rest.len() && rest[j] == t[k - p - 1];
                    assert(x[j + 1] == o[k]);
                }
            }
        }
    }
}

proof fn lemma_squash_keeps(s: Seq<char>)
    requires
        s.len() == 0 || s.last() != '-',
        forall|k: int| 0 <= k < s.len() - 1 && #[trigger] s[k] == '-' ==> s[k + 1] != '-',
    ensures
        squash(s, true, false) == s,
        s.len() == 0 || s[0] != '-' ==> squash(s, false, false) == s,
    decreases s.len(),
{
    if s.len() > 0 {
        let rest = s.drop_first();
        if s[0] == '-' {
            assert(rest.len() > 0 && rest[0] != '-') by {
                assert(s[0] == '-');
            }
            let rest2 = rest.drop_first();
            assert forall|k: int| 0 <= k < rest2.len() - 1 && #[trigger] rest2[k] == '-' implies rest2[k
                + 1] != '-' by {
                assert(s[k + 2] == rest2[k]);
            }
            if rest2.len() > 0 {
                assert(rest2.last() == s.last());
            }
            lemma_squash_keeps(rest2);
            assert(squash(s, true, false) == squash(rest, true, true));
            assert(squash(rest, true, true) == seq!['-'] + seq![rest[0]] + squash(rest2, true, false));
            assert(seq!['-'] + seq![rest[0]] + rest2 =~= s);
        } else {
            assert forall|k: int| 0 <= k < rest.len() - 1 && #[trigger] rest[k] == '-' implies rest[k
                + 1] != '-' by {
                assert(s[k + 1] == rest[k]);
            }
            if rest.len() > 0 {
                assert(rest.last() == s.last());
            }
            lemma_squash_keeps(rest);
            assert(seq![s[0]] + rest =~= s);
            assert(squash(s, true, false) =~= Seq::<char>::empty() + seq![s[0]] + rest);
            assert(squash(s, false, false) =~= Seq::<char>::empty() + seq![s[0]] + rest);
        }
    }
}

proof fn lemma_slug_fixed(s: Seq<char>)
    requires
        s.len() > 0,
        dashes_single(s),
        forall|k: int| 0 <= k < s.len() ==> slug_char(#[trigger] s[k]),
    ensures
        slug_spec(s) == s,
{
    assert(ascii_text(s));
    assert(lowercase_text(s) =~= s);
    assert(dash_non_alnum(s) =~= s);
    lemma_squash_keeps(s);
}

/// A slug is its own slug: taking the slug of an ASCII title's slug gives
/// the same slug back.
pub proof fn lemma_slug_idempotent(title: Seq<char>)
    requires
        ascii_text(title),
    ensures
        slug_spec(slug_spec(title)) == slug_spec(title),
{
    let l = lowercase_text(title);
    let m = dash_non_alnum(l);
    assert forall|j: int| 0 <= j < m.len() implies slug_char(#[trigger] m[j]) by {
        let c = title[j];
        assert(ascii_char(c));
        assert(l[j] == ascii_lower(c));
        if ascii_upper(c) {
            assert(97 <= (ascii_lower(c) as u32) <= 122);
        }
    }
    let s1 = squash(m, false, false);
    lemma_squash_shape(m, false, false);
    if s1.len() > 0 {
        assert forall|k: int| 0 <= k < s1.len() implies slug_char(#[trigger] s1[k]) by {
            if s1[k] != '-' {
                let j = choose|j: int| 0 <= j < m.len() && m[j] == s1[k];
                assert(slug_char(m[j]));
            }
        }
        assert forall|k: int| 0 <= k < s1.len() - 1 && #[trigger] s1[k] == '-' implies s1[k + 1]
            != '-' by {}
        if s1.last() == '-' {
            assert(s1[s1.len() - 1] == '-');
        }
        lemma_slug_fixed(s1);
    } else {
        reveal_strlit("untitled");
        let u = "untitled"@;
        assert forall|k: int| 0 <= k < u.len() implies slug_char(#[trigger] u[k]) by {}
        lemma_slug_fixed(u);
    }
}

/// A deleted idea or movement held for restoring, tagged with the sermon it
/// came from so it can only go back there.
#[derive(Debug, Clone, PartialEq)]
pub enum DeletedRecord {
    Idea { sermon_id: String, movement: usize, index: usize, idea: Idea },
    Movement { sermon_id: String, at: usize, movement: Movement },
}

pub open spec fn deleted_label(r: DeletedRecord) -> Seq<char> {
    match r {
        DeletedRecord::Idea { idea, .. } => if !is_blank_text(idea.text@) {
            idea.text@
        } else {
            "(untitled idea)"@
        },
        DeletedRecord::Movement { movement, .. } => if !is_blank_text(movement.name@) {
            "Movement: "@ + movement.name@
        } else {
            "(untitled movement)"@
        },
    }
}

/// Id of the sermon a record was deleted from.
pub open spec fn deleted_sermon_id(r: DeletedRecord) -> Seq<char> {
    match r {
        DeletedRecord::Idea { sermon_id, .. } => sermon_id@,
        DeletedRecord::Movement { sermon_id, .. } => sermon_id@,
    }
}

impl DeletedRecord {
    /// Id of the sermon the record was deleted from.
    pub fn sermon_id(&self) -> (r: &str)
        ensures
            r@ == deleted_sermon_id(*self),
    {
        match self {
            DeletedRecord::Idea { sermon_id, .. } => sermon_id.as_str(),
            DeletedRecord::Movement { sermon_id, .. } => sermon_id.as_str(),
        }
    }

    /// Text shown in the "Recently deleted" tray.
    pub fn label(&self) -> (r: String)
        ensures
            r@ == deleted_label(*self),
    {
        match self {
            DeletedRecord::Idea { idea, .. } => {
                if !is_blank(idea.text.as_str()) {
                    idea.text.clone()
                } else {
                    owned("(untitled idea)")
                }
            },
            DeletedRecord::Movement { movement, .. } => {
                if !is_blank(movement.name.as_str()) {
                    let mut s = owned("Movement: ");
                    push_str(&mut s, movement.name.as_str());
                    s
                } else {
                    owned("(untitled movement)")
                }
            },
        }
    }
}

} // verus!
