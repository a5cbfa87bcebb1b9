//! The `.sermon` interchange export: a Typst body in the small subset Rubric
//! renders (`=` headings, `*bold*`, `_italic_`, `-` bullets, plain text),
//! the metadata block written beside it, and the export file name.

use vstd::prelude::*;

use crate::date::{date_iso_text, Date};
use crate::model::{
    ideas_before, opt_date_view, slug, slug_spec, IdeaView, LectionaryLink, MovementView, Sermon,
    SermonView,
};
use crate::text::{
    chars_of, decimal, decimal_text, is_blank, is_blank_text, lines, lines_of, owned, push_char,
    push_str, trim_end, trim_end_text,
};

verus! {

/// Version of the interchange format written.
pub const SPEC_VERSION: u32 = 1;

/// The escape Typst needs for a character of plain text, or the character
/// itself. A backslash becomes the Unicode escape `\u{5c}`.
pub open spec fn escape_char(c: char) -> Seq<char> {
    if c == '\\' {
        "\\u{5c}"@
    } else if c == '#' || c == '@' || c == '*' || c == '_' || c == '~' || c == '$' || c == '`'
        || c == '<' || c == '>' {
        seq!['\\', c]
    } else {
        seq![c]
    }
}

/// Plain text with each character escaped for Typst.
pub open spec fn typst_escaped(s: Seq<char>) -> Seq<char>
    decreases s.len(),
{
    if s.len() == 0 {
        seq![]
    } else {
        typst_escaped(s.drop_last()) + escape_char(s.last())
    }
}

/// Escapes the characters Typst treats specially in plain text: `\ # @ * _
/// ~ $ ` < >`.
pub fn typst_escape(text: &str) -> (r: String)
    ensures
        r@ == typst_escaped(text@),
{
    let cs = chars_of(text);
    let mut out = String::new();
    let mut i: usize = 0;
    assert(cs@.take(0) =~= Seq::<char>::empty());
    while i < cs.len()
        invariant
            cs@ == text@,
            i <= cs@.len(),
            out@ == typst_escaped(cs@.take(i as int)),
        decreases cs@.len() - i,
    {
        let c = cs[i];
        assert(cs@.take(i + 1).drop_last() =~= cs@.take(i as int));
        if c == '\\' {
            push_str(&mut out, "\\u{5c}");
        } else if c == '#' || c == '@' || c == '*' || c == '_' || c == '~' || c == '$' || c == '`'
            || c == '<' || c == '>' {
            let ghost before = out@;
            push_char(&mut out, '\\');
            push_char(&mut out, c);
            assert(out@ =~= before + seq!['\\', c]);
        } else {
            let ghost before = out@;
            push_char(&mut out, c);
            assert(out@ =~= before + seq![c]);
        }
        i = i + 1;
    }
    assert(cs@.take(cs@.len() as int) =~= cs@);
    out
}

/// The characters Typst treats specially in plain text.
pub open spec fn typst_special(c: char) -> bool {
    c == '\\' || c == '#' || c == '@' || c == '*' || c == '_' || c == '~' || c == '$' || c == '`'
        || c == '<' || c == '>'
}

proof fn lemma_escaped_one(c: char)
    ensures
        typst_escaped(seq![c]) == escape_char(c),
{
    let one = seq![c];
    assert(one.drop_last() =~= Seq::<char>::empty());
    assert(one.last() == c);
    assert(typst_escaped(Seq::<char>::empty()) == Seq::<char>::empty());
    assert(typst_escaped(one) == typst_escaped(one.drop_last()) + escape_char(one.last()));
    assert(Seq::<char>::empty() + escape_char(c) =~= escape_char(c));
}

/// What escaping does to one character: a backslash becomes the Unicode
/// escape `\u{5c}`, each of `# @ * _ ~ $ ` < >` gets a backslash in front,
/// and every other character stays as it is.
pub proof fn lemma_typst_escape_table(c: char)
    ensures
        c == '\\' ==> typst_escaped(seq![c]) == seq!['\\', 'u', '{', '5', 'c', '}'],
        c == '#' ==> typst_escaped(seq![c]) == seq!['\\', '#'],
        c == '@' ==> typst_escaped(seq![c]) == seq!['\\', '@'],
        c == '*' ==> typst_escaped(seq![c]) == seq!['\\', '*'],
        c == '_' ==> typst_escaped(seq![c]) == seq!['\\', '_'],
        c == '~' ==> typst_escaped(seq![c]) == seq!['\\', '~'],
        c == '$' ==> typst_escaped(seq![c]) == seq!['\\', '$'],
        c == '`' ==> typst_escaped(seq![c]) == seq!['\\', '`'],
        c == '<' ==> typst_escaped(seq![c]) == seq!['\\', '<'],
        c == '>' ==> typst_escaped(seq![c]) == seq!['\\', '>'],
        !typst_special(c) ==> typst_escaped(seq![c]) == seq![c],
{
    lemma_escaped_one(c);
    reveal_strlit("\\u{5c}");
    assert("\\u{5c}"@ =~= seq!['\\', 'u', '{', '5', 'c', '}']);
}

/// No special character is left bare: in the escaped text every `# @ * _ ~
/// $ ` < >` has a backslash right before it.
pub proof fn lemma_typst_escape_no_bare(s: Seq<char>)
    ensures
        forall|k: int|
            0 <= k < typst_escaped(s).len() && typst_special(#[trigger] typst_escaped(s)[k])
                && typst_escaped(s)[k] != '\\' ==> k > 0 && typst_escaped(s)[k - 1] == '\\',
    decreases s.len(),
{
    if s.len() > 0 {
        lemma_typst_escape_no_bare(s.drop_last());
        let p = typst_escaped(s.drop_last());
        let t = typst_escaped(s);
        let c = s.last();
        reveal_strlit("\\u{5c}");
        assert(t == p + escape_char(c));
        assert forall|k: int|
            0 <= k < t.len() && typst_special(#[trigger] t[k]) && t[k] != '\\' implies k > 0
                && t[k - 1] == '\\' by {
            if k < p.len() {
                assert(t[k] == p[k]);
                assert(p[k - 1] == t[k - 1]);
            } else {
                assert(t[k] == escape_char(c)[k - p.len()]);
                if k - p.len() == 1 {
                    assert(t[k - 1] == escape_char(c)[0]);
                }
            }
        }
    }
}

/// The tag suffix of a bullet: " _[idea · part]_", with whichever of the
/// two tags is set, or nothing when neither is.
pub open spec fn tag_suffix_text(idea_tag: Seq<char>, part_tag: Seq<char>) -> Seq<char> {
    if idea_tag.len() == 0 && part_tag.len() == 0 {
        seq![]
    } else if part_tag.len() == 0 {
        " _["@ + typst_escaped(idea_tag) + "]_"@
    } else if idea_tag.len() == 0 {
        " _["@ + typst_escaped(part_tag) + "]_"@
    } else {
        " _["@ + typst_escaped(idea_tag) + " · "@ + typst_escaped(part_tag) + "]_"@
    }
}

pub fn tag_suffix(idea_tag: &str, part_tag: &str) -> (r: String)
    ensures
        r@ == tag_suffix_text(idea_tag@, part_tag@),
{
    let no_idea = idea_tag.is_empty();
    let no_part = part_tag.is_empty();
    if no_idea && no_part {
        return String::new();
    }
    let mut s = owned(" _[");
    if no_part {
        let e = typst_escape(idea_tag);
        push_str(&mut s, e.as_str());
    } else if no_idea {
        let e = typst_escape(part_tag);
        push_str(&mut s, e.as_str());
    } else {
        let e = typst_escape(idea_tag);
        push_str(&mut s, e.as_str());
        push_str(&mut s, " · ");
        let f = typst_escape(part_tag);
        push_str(&mut s, f.as_str());
    }
    push_str(&mut s, "]_");
    s
}

/// Note lines that are not blank, each indented two spaces and escaped.
pub open spec fn notes_block(lines: Seq<Seq<char>>) -> Seq<char>
    decreases lines.len(),
{
    if lines.len() == 0 {
        seq![]
    } else {
        let rest = notes_block(lines.drop_last());
        if is_blank_text(lines.last()) {
            rest
        } else {
            rest + "  "@ + typst_escaped(lines.last()) + "\n"@
        }
    }
}

/// The bullet of idea number `n`: "- *n.* text", the tag suffix when asked
/// for, then its note lines.
pub open spec fn idea_block(iv: IdeaView, n: nat, include_tags: bool) -> Seq<char> {
    "- *"@ + decimal_text(n) + ".* "@ + typst_escaped(iv.text) + (if include_tags {
        tag_suffix_text(iv.idea_tag, iv.part_tag)
    } else {
        seq![]
    }) + "\n"@ + notes_block(lines_of(iv.notes))
}

/// The bullets of `ideas`, numbered from `first`.
pub open spec fn ideas_block(ideas: Seq<IdeaView>, first: nat, include_tags: bool) -> Seq<char>
    decreases ideas.len(),
{
    if ideas.len() == 0 {
        seq![]
    } else {
        ideas_block(ideas.drop_last(), first, include_tags) + idea_block(
            ideas.last(),
            (first + ideas.len() - 1) as nat,
            include_tags,
        )
    }
}

/// Movement `m`: a blank line before every movement but the first, its
/// heading, then its bullets numbered on from the ideas before it.
pub open spec fn movement_block(ms: Seq<MovementView>, m: int, include_tags: bool) -> Seq<char> {
    (if m > 0 {
        "\n"@
    } else {
        seq![]
    }) + "= "@ + typst_escaped(ms[m].name) + "\n"@ + ideas_block(
        ms[m].ideas,
        (ideas_before(ms, m) + 1) as nat,
        include_tags,
    )
}

/// The first `n` movements, one after another.
pub open spec fn movements_block(ms: Seq<MovementView>, n: int, include_tags: bool) -> Seq<char>
    decreases n,
{
    if n <= 0 {
        seq![]
    } else {
        movements_block(ms, n - 1, include_tags) + movement_block(ms, n - 1, include_tags)
    }
}

/// The Typst body of a sermon: every movement, without trailing whitespace.
pub open spec fn typst_body(ms: Seq<MovementView>, include_tags: bool) -> Seq<char> {
    trim_end_text(movements_block(ms, ms.len() as int, include_tags))
}

fn push_notes(out: &mut String, notes: &str)
    ensures
        final(out)@ == old(out)@ + notes_block(lines_of(notes@)),
{
    let ls = lines(notes);
    let ghost lv = ls@.map_values(|t: String| t@);
    let ghost start = out@;
    let mut k: usize = 0;
    assert(lv.take(0) =~= Seq::<Seq<char>>::empty());
    while k < ls.len()
        invariant
            lv == ls@.map_values(|t: String| t@),
            lv == lines_of(notes@),
            k <= ls@.len(),
            out@ == start + notes_block(lv.take(k as int)),
        decreases ls@.len() - k,
    {
        let line = &ls[k];
        assert(lv.take(k + 1).drop_last() =~= lv.take(k as int));
        assert(lv.take(k + 1).last() == line@);
        if !is_blank(line.as_str()) {
            push_str(out, "  ");
            let e = typst_escape(line.as_str());
            push_str(out, e.as_str());
            push_str(out, "\n");
            assert(out@ =~= start + notes_block(lv.take(k + 1)));
        }
        k = k + 1;
    }
    assert(lv.take(ls@.len() as int) =~= lv);
}

fn push_idea(out: &mut String, idea: &crate::model::Idea, n: usize, include_tags: bool)
    ensures
        final(out)@ == old(out)@ + idea_block(idea@, n as nat, include_tags),
{
    let ghost start = out@;
    push_str(out, "- *");
    let digits = decimal(n as u64);
    push_str(out, digits.as_str());
    push_str(out, ".* ");
    let text = typst_escape(idea.text.as_str());
    push_str(out, text.as_str());
    if include_tags {
        let suffix = tag_suffix(idea.idea_tag.as_str(), idea.part_tag.as_str());
        push_str(out, suffix.as_str());
    }
    push_str(out, "\n");
    let ghost mid = out@;
    push_notes(out, idea.notes.as_str());
    assert(out@ =~= start + idea_block(idea@, n as nat, include_tags));
}

/// The Typst body of `sermon`: each movement a `=` heading, each idea a
/// bullet numbered continuously across movements, each non-blank note line
/// indented below it, tags appended when `include_tags`; trailing
/// whitespace removed.
pub fn render_typst_body(sermon: &Sermon, include_tags: bool) -> (r: String)
    requires
        ideas_before(sermon@.movements, sermon@.movements.len() as int) < usize::MAX,
    ensures
        r@ == typst_body(sermon@.movements, include_tags),
{
    let ghost ms = sermon@.movements;
    let mut out = String::new();
    let mut n: usize = 1;
    let mut m: usize = 0;
    while m < sermon.movements.len()
        invariant
            ms == sermon@.movements,
            m <= ms.len(),
            ideas_before(ms, ms.len() as int) < usize::MAX,
            n == ideas_before(ms, m as int) + 1,
            out@ == movements_block(ms, m as int, include_tags),
        decreases ms.len() - m,
    {
        let movement = &sermon.movements[m];
        let ghost start = out@;
        if m > 0 {
            push_str(&mut out, "\n");
        }
        push_str(&mut out, "= ");
        let name = typst_escape(movement.name.as_str());
        push_str(&mut out, name.as_str());
        push_str(&mut out, "\n");
        let ghost head = out@;
        let ghost ideas = ms[m as int].ideas;
        let mut i: usize = 0;
        proof {
            lemma_ideas_before_step(ms, m as int);
            lemma_ideas_before_le(ms, m + 1, ms.len() as int);
            lemma_ideas_before_le(ms, 0, m as int);
            assert(ideas.take(0) =~= Seq::<IdeaView>::empty());
            assert(ideas.len() == movement.ideas@.len());
        }
        while i < movement.ideas.len()
            invariant
                ms == sermon@.movements,
                m < ms.len(),
                ideas == ms[m as int].ideas,
                movement@ == ms[m as int],
                ideas.len() == movement.ideas@.len(),
                ideas_before(ms, m as int) >= 0,
                i <= ideas.len(),
                ideas_before(ms, m + 1) == ideas_before(ms, m as int) + ideas.len(),
                ideas_before(ms, m + 1) < usize::MAX,
                n == ideas_before(ms, m as int) + 1 + i,
                out@ == head + ideas_block(
                    ideas.take(i as int),
                    (ideas_before(ms, m as int) + 1) as nat,
                    include_tags,
                ),
            decreases ideas.len() - i,
        {
            let ghost first = (ideas_before(ms, m as int) + 1) as nat;
            assert(ideas.take(i + 1).drop_last() =~= ideas.take(i as int));
            assert(ideas.take(i + 1).last() == movement.ideas@[i as int]@);
            assert(ideas_block(ideas.take(i + 1), first, include_tags) == ideas_block(
                ideas.take(i as int),
                first,
                include_tags,
            ) + idea_block(movement.ideas@[i as int]@, n as nat, include_tags));
            let ghost before = out@;
            push_idea(&mut out, &movement.ideas[i], n, include_tags);
            assert(out@ =~= head + ideas_block(ideas.take(i + 1), first, include_tags));
            n = n + 1;
            i = i + 1;
        }
        assert(ideas.take(ideas.len() as int) =~= ideas);
        assert(out@ =~= start + movement_block(ms, m as int, include_tags));
        m = m + 1;
    }
    trim_end(out.as_str())
}

proof fn lemma_ideas_before_step(ms: Seq<MovementView>, m: int)
    requires
        0 <= m < ms.len(),
    ensures
        ideas_before(ms, m + 1) == ideas_before(ms, m) + ms[m].ideas.len(),
{
}

proof fn lemma_ideas_before_le(ms: Seq<MovementView>, a: int, b: int)
    requires
        a <= b,
    ensures
        ideas_before(ms, a) <= ideas_before(ms, b),
    decreases b - a,
{
    if a < b {
        lemma_ideas_before_le(ms, a, b - 1);
    }
}

// ---------------------------------------------------------------------------
// The export document.

/// The `[sermon]` metadata block of an export. Lectionary fields are `None`
/// without a lectionary link; `date` is empty without a planned date.
pub struct SermonMeta {
    pub id: String,
    pub title: String,
    pub date: String,
    pub lectionary_week: Option<String>,
    pub season: Option<String>,
    pub year: Option<String>,
    pub colour: Option<String>,
    pub ot: Option<String>,
    pub psalm: Option<String>,
    pub epistle: Option<String>,
    pub gospel: Option<String>,
    pub s_tags: Vec<String>,
    pub t_tags: Vec<String>,
}

/// The whole export document before it is written out as TOML.
pub struct ExportDoc {
    pub spec_version: u32,
    pub generator: String,
    pub sermon: SermonMeta,
    pub typst: String,
}

pub open spec fn opt_text(o: Option<String>) -> Option<Seq<char>> {
    match o {
        Some(s) => Some(s@),
        None => None,
    }
}

/// The planned date as text, or the empty text.
pub open spec fn planned_date_text(s: SermonView) -> Seq<char> {
    match s.planned_date {
        Some(d) => date_iso_text(d),
        None => seq![],
    }
}

fn link_field(link: &Option<LectionaryLink>, which: u8) -> (r: Option<String>)
    ensures
        match link {
            Some(l) => r matches Some(t) && t@ == (if which == 0 {
                l.week@
            } else if which == 1 {
                l.season@
            } else if which == 2 {
                l.year@
            } else if which == 3 {
                l.colour@
            } else if which == 4 {
                l.ot@
            } else if which == 5 {
                l.psalm@
            } else if which == 6 {
                l.epistle@
            } else {
                l.gospel@
            }),
            None => r is None,
        },
{
    match link {
        Some(l) => Some(
            if which == 0 {
                l.week.clone()
            } else if which == 1 {
                l.season.clone()
            } else if which == 2 {
                l.year.clone()
            } else if which == 3 {
                l.colour.clone()
            } else if which == 4 {
                l.ot.clone()
            } else if which == 5 {
                l.psalm.clone()
            } else if which == 6 {
                l.epistle.clone()
            } else {
                l.gospel.clone()
            },
        ),
        None => None,
    }
}

/// The export document of `sermon`: format version, generator, the
/// metadata block and the Typst body. The application writes it as TOML.
pub fn export_doc(sermon: &Sermon, include_tags: bool, generator: &str) -> (r: ExportDoc)
    requires
        ideas_before(sermon@.movements, sermon@.movements.len() as int) < usize::MAX,
    ensures
        r.spec_version == SPEC_VERSION,
        r.generator@ == generator@,
        r.sermon.id@ == sermon@.id,
        r.sermon.title@ == sermon@.title,
        r.sermon.date@ == planned_date_text(sermon@),
        r.sermon.lectionary_week is Some <==> sermon.lectionary is Some,
        sermon.lectionary matches Some(l) ==> opt_text(r.sermon.lectionary_week) == Some(l.week@)
            && opt_text(r.sermon.season) == Some(l.season@) && opt_text(r.sermon.year) == Some(
            l.year@,
        ) && opt_text(r.sermon.colour) == Some(l.colour@) && opt_text(r.sermon.ot) == Some(l.ot@)
            && opt_text(r.sermon.psalm) == Some(l.psalm@) && opt_text(r.sermon.epistle) == Some(
            l.epistle@,
        ) && opt_text(r.sermon.gospel) == Some(l.gospel@),
        sermon.lectionary is None ==> r.sermon.season is None && r.sermon.year is None
            && r.sermon.colour is None && r.sermon.ot is None && r.sermon.psalm is None
            && r.sermon.epistle is None && r.sermon.gospel is None,
        crate::model::strings_view(r.sermon.s_tags@) == sermon@.s_tags,
        crate::model::strings_view(r.sermon.t_tags@) == sermon@.t_tags,
        r.typst@ == typst_body(sermon@.movements, include_tags),
{
    let date = match sermon.planned_date {
        Some(d) => d.to_iso_string(),
        None => String::new(),
    };
    let link = &sermon.lectionary;
    ExportDoc {
        spec_version: SPEC_VERSION,
        generator: owned(generator),
        sermon: SermonMeta {
            id: sermon.id.clone(),
            title: sermon.title.clone(),
            date,
            lectionary_week: link_field(link, 0),
            season: link_field(link, 1),
            year: link_field(link, 2),
            colour: link_field(link, 3),
            ot: link_field(link, 4),
            psalm: link_field(link, 5),
            epistle: link_field(link, 6),
            gospel: link_field(link, 7),
            s_tags: crate::model::clone_strings(&sermon.s_tags),
            t_tags: crate::model::clone_strings(&sermon.t_tags),
        },
        typst: render_typst_body(sermon, include_tags),
    }
}

/// The date a file name carries: the planned date, else the day the sermon
/// was created (in UTC).
pub open spec fn file_date_text(s: SermonView) -> Seq<char> {
    match s.planned_date {
        Some(d) => date_iso_text(d),
        None => date_iso_text(crate::date::utc_day(s.created)),
    }
}

/// The date part of file names: the planned date, else the creation day.
pub fn file_date(sermon: &Sermon) -> (r: String)
    ensures
        r@ == file_date_text(sermon@),
{
    match sermon.planned_date {
        Some(d) => d.to_iso_string(),
        None => sermon.created.date().to_iso_string(),
    }
}

/// "<date>-<slug of the title>.sermon".
pub fn export_filename(sermon: &Sermon) -> (r: String)
    ensures
        r@ == file_date_text(sermon@) + "-"@ + slug_spec(sermon@.title) + ".sermon"@,
{
    let mut s = file_date(sermon);
    push_str(&mut s, "-");
    let sl = slug(sermon.title.as_str());
    push_str(&mut s, sl.as_str());
    push_str(&mut s, ".sermon");
    s
}

} // verus!
