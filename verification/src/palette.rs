//! The command palette's text: Pango markup escaping, the highlighted match
//! of a search, the built-in commands and the sermon outline it offers.

use vstd::prelude::*;

use crate::bible::lemma_bytes_strictly_grow;
use crate::git_sync::{first_from, first_occurrence, lemma_first_from};
use crate::model::{IdeaView, MovementView, Sermon};
use crate::text::{
    byte_len, byte_length, char_len_utf8, chars_of, lemma_byte_len_concat, lemma_byte_len_prefix,
    lemma_byte_len_step, lowercase_text, owned, push_char, push_str, to_lowercase, utf8_len,
};

verus! {

// ---------------------------------------------------------------------------
// Markup escaping.

pub open spec fn hex_digit(d: int) -> char {
    if d < 10 {
        ('0' as int + d) as char
    } else {
        ('a' as int + d - 10) as char
    }
}

/// `n` in lowercase hexadecimal without leading zeros (`n` below 256).
pub open spec fn hex_text(n: int) -> Seq<char> {
    if n < 16 {
        seq![hex_digit(n)]
    } else {
        seq![hex_digit(n / 16), hex_digit(n % 16)]
    }
}

/// A control character that the markup parser takes only as a character
/// reference: C0 controls but tab, newline and carriage return, and the C1
/// range but U+0085.
pub open spec fn control_ref(c: char) -> bool {
    let n = c as u32;
    (1 <= n <= 8) || (11 <= n <= 12) || (14 <= n <= 31) || (127 <= n <= 132) || (134 <= n <= 159)
}

/// How one character is written in Pango markup.
pub open spec fn escaped_char(c: char) -> Seq<char> {
    if c == '&' {
        "&amp;"@
    } else if c == '<' {
        "&lt;"@
    } else if c == '>' {
        "&gt;"@
    } else if c == '\'' {
        "&#39;"@
    } else if c == '"' {
        "&quot;"@
    } else if control_ref(c) {
        "&#x"@ + hex_text(c as u32 as int) + ";"@
    } else {
        seq![c]
    }
}

/// Text written so the markup parser reads it verbatim, as GLib's
/// `g_markup_escape_text` writes it.
pub open spec fn markup_escaped(t: Seq<char>) -> Seq<char>
    decreases t.len(),
{
    if t.len() == 0 {
        seq![]
    } else {
        markup_escaped(t.drop_last()) + escaped_char(t.last())
    }
}

fn hex_char(d: u32) -> (r: char)
    requires
        d < 16,
    ensures
        r == hex_digit(d as int),
{
    if d < 10 {
        let c = (48 + d) as u8 as char;
        assert(c == hex_digit(d as int)) by {
            assert((48 + d) as u8 as char == ('0' as int + d) as char);
        }
        c
    } else {
        let c = (87 + d) as u8 as char;
        assert(c == hex_digit(d as int)) by {
            assert((87 + d) as u8 as char == ('a' as int + d - 10) as char);
        }
        c
    }
}

fn push_escaped(out: &mut String, c: char)
    ensures
        final(out)@ == old(out)@ + escaped_char(c),
{
    if c == '&' {
        push_str(out, "&amp;");
    } else if c == '<' {
        push_str(out, "&lt;");
    } else if c == '>' {
        push_str(out, "&gt;");
    } else if c == '\'' {
        push_str(out, "&#39;");
    } else if c == '"' {
        push_str(out, "&quot;");
    } else {
        let n = c as u32;
        if (1 <= n && n <= 8) || (11 <= n && n <= 12) || (14 <= n && n <= 31) || (127 <= n && n
            <= 132) || (134 <= n && n <= 159) {
            let ghost before = out@;
            push_str(out, "&#x");
            if n < 16 {
                push_char(out, hex_char(n));
            } else {
                push_char(out, hex_char(n / 16));
                push_char(out, hex_char(n % 16));
            }
            push_str(out, ";");
            assert(out@ =~= before + escaped_char(c));
        } else {
            push_char(out, c);
            assert(out@ =~= old(out)@ + escaped_char(c));
        }
    }
}

pub(crate) fn escape_range(out: &mut String, cs: &Vec<char>, from: usize, to: usize)
    requires
        from <= to <= cs@.len(),
    ensures
        final(out)@ == old(out)@ + markup_escaped(cs@.subrange(from as int, to as int)),
{
    let mut i = from;
    assert(cs@.subrange(from as int, from as int) =~= Seq::<char>::empty());
    while i < to
        invariant
            from <= i <= to <= cs@.len(),
            out@ == old(out)@ + markup_escaped(cs@.subrange(from as int, i as int)),
        decreases to - i,
    {
        assert(cs@.subrange(from as int, i + 1).drop_last() =~= cs@.subrange(from as int, i as int));
        push_escaped(out, cs[i]);
        assert(out@ =~= old(out)@ + markup_escaped(cs@.subrange(from as int, i + 1)));
        i = i + 1;
    }
}

/// `text` escaped for Pango markup: '&', '<', '>', quotes and control
/// characters become entities or character references.
pub fn markup_escape(text: &str) -> (r: String)
    ensures
        r@ == markup_escaped(text@),
{
    let cs = chars_of(text);
    let mut out = String::new();
    escape_range(&mut out, &cs, 0, cs.len());
    assert(cs@.subrange(0, cs@.len() as int) =~= cs@);
    assert(out@ =~= markup_escaped(text@));
    out
}

// ---------------------------------------------------------------------------
// Highlighting a search match.

/// The most characters of `t` whose bytes fit within `b`: the character
/// boundary at or before byte `b`.
pub open spec fn floor_pos(t: Seq<char>, b: int) -> int {
    choose|k: int|
        0 <= k <= t.len() && byte_len(#[trigger] t.take(k)) <= b && (k == t.len() || byte_len(
            t.take(k + 1),
        ) > b)
}

/// The fewest characters of `t` whose bytes reach `b`: the character
/// boundary at or after byte `b`.
pub open spec fn ceil_pos(t: Seq<char>, b: int) -> int {
    choose|k: int|
        0 <= k <= t.len() && byte_len(#[trigger] t.take(k)) >= b && (k == 0 || byte_len(
            t.take(k - 1),
        ) < b)
}

/// `text` escaped for markup with the first case-insensitive match of
/// `query` in bold. The match is found in the lowercased text and its byte
/// span carried over to the text itself, clamped to it and widened to whole
/// characters (lowercasing can change byte lengths). Without a query or a
/// match the text is only escaped.
pub open spec fn highlighted(t: Seq<char>, q: Seq<char>) -> Seq<char> {
    let lt = lowercase_text(t);
    if q.len() == 0 {
        markup_escaped(t)
    } else {
        match first_from(lt, q, 0) {
            None => markup_escaped(t),
            Some(k) => {
                let start = byte_len(lt.take(k)) as int;
                let end = start + byte_len(q);
                let tb = byte_len(t) as int;
                let cs = floor_pos(t, if start < tb { start } else { tb });
                let ce0 = ceil_pos(t, if end < tb { end } else { tb });
                let ce = if ce0 < cs { cs } else { ce0 };
                markup_escaped(t.take(cs)) + "<b>"@ + markup_escaped(t.subrange(cs, ce)) + "</b>"@
                    + markup_escaped(t.skip(ce))
            },
        }
    }
}

/// Bytes of the first `k` characters.
fn prefix_bytes(cs: &Vec<char>, k: usize, total: usize) -> (r: usize)
    requires
        k <= cs@.len(),
        total == byte_len(cs@),
    ensures
        r == byte_len(cs@.take(k as int)),
{
    let mut i: usize = 0;
    let mut n: usize = 0;
    assert(cs@.take(0) =~= Seq::<char>::empty());
    while i < k
        invariant
            i <= k <= cs@.len(),
            total == byte_len(cs@),
            n == byte_len(cs@.take(i as int)),
        decreases k - i,
    {
        proof {
            lemma_byte_len_step(cs@, i as int);
            lemma_byte_len_prefix(cs@, i + 1);
        }
        n = n + char_len_utf8(cs[i]);
        i = i + 1;
    }
    n
}

/// The character boundary at or before byte `b`.
fn floor_index(cs: &Vec<char>, b: usize, total: usize) -> (r: usize)
    requires
        total == byte_len(cs@),
    ensures
        r == floor_pos(cs@, b as int),
        r <= cs@.len(),
{
    let len = cs.len();
    let mut k: usize = 0;
    let mut n: usize = 0;
    let mut done = false;
    assert(cs@.take(0) =~= Seq::<char>::empty());
    while !done && k < len
        invariant
            len == cs@.len(),
            k <= cs@.len(),
            total == byte_len(cs@),
            n == byte_len(cs@.take(k as int)),
            n <= b,
            n <= total,
            done ==> k < cs@.len() && byte_len(cs@.take(k + 1)) > b,
        decreases cs@.len() - k + if done {
            0int
        } else {
            1int
        },
    {
        proof {
            lemma_byte_len_step(cs@, k as int);
            lemma_byte_len_prefix(cs@, k + 1);
        }
        let c = char_len_utf8(cs[k]);
        if n + c <= b {
            n = n + c;
            k = k + 1;
        } else {
            done = true;
        }
    }
    proof {
        if k < cs@.len() {
            lemma_byte_len_step(cs@, k as int);
        }
        let w = choose|j: int|
            0 <= j <= cs@.len() && byte_len(#[trigger] cs@.take(j)) <= b && (j == cs@.len()
                || byte_len(cs@.take(j + 1)) > b);
        assert(0 <= w <= cs@.len() && byte_len(cs@.take(w)) <= b && (w == cs@.len() || byte_len(
            cs@.take(w + 1),
        ) > b));
        if w < k {
            if w + 1 < k {
                lemma_bytes_strictly_grow(cs@, w + 1, k as int);
            }
        } else if w > k {
            if k + 1 < w {
                lemma_bytes_strictly_grow(cs@, k + 1, w);
            }
        }
    }
    k
}

/// The character boundary at or after byte `b`, for `b` within the text.
fn ceil_index(cs: &Vec<char>, b: usize, total: usize) -> (r: usize)
    requires
        total == byte_len(cs@),
        b <= total,
    ensures
        r == ceil_pos(cs@, b as int),
        r <= cs@.len(),
{
    let len = cs.len();
    let mut k: usize = 0;
    let mut n: usize = 0;
    assert(cs@.take(0) =~= Seq::<char>::empty());
    while n < b
        invariant
            len == cs@.len(),
            k <= cs@.len(),
            total == byte_len(cs@),
            b <= total,
            n == byte_len(cs@.take(k as int)),
            k > 0 ==> byte_len(cs@.take(k - 1)) < b,
        decreases cs@.len() - k,
    {
        proof {
            if k == cs@.len() {
                assert(cs@.take(k as int) =~= cs@);
            }
            lemma_byte_len_step(cs@, k as int);
            lemma_byte_len_prefix(cs@, k + 1);
        }
        n = n + char_len_utf8(cs[k]);
        k = k + 1;
        assert(cs@.take(k as int).drop_last() =~= cs@.take(k - 1));
    }
    proof {
        let w = choose|j: int|
            0 <= j <= cs@.len() && byte_len(#[trigger] cs@.take(j)) >= b && (j == 0 || byte_len(
                cs@.take(j - 1),
            ) < b);
        assert(0 <= w <= cs@.len() && byte_len(cs@.take(w)) >= b && (w == 0 || byte_len(cs@.take(w - 1)) < b));
        if w < k {
            if w < k - 1 {
                lemma_bytes_strictly_grow(cs@, w, k - 1);
            }
        } else if w > k {
            if k < w - 1 {
                lemma_bytes_strictly_grow(cs@, k as int, w - 1);
            }
        }
    }
    k
}

/// A palette row's title: `text` escaped for markup, with the first
/// case-insensitive match of `query` in bold.
pub fn highlight_match(text: &str, query: &str) -> (r: String)
    ensures
        r@ == highlighted(text@, query@),
{
    if query.is_empty() {
        return markup_escape(text);
    }
    let lower = to_lowercase(text);
    let lc = chars_of(lower.as_str());
    let qc = chars_of(query);
    match first_occurrence(&lc, &qc, 0) {
        None => markup_escape(text),
        Some(k) => {
            proof {
                lemma_first_from(lc@, qc@, 0);
            }
            let lower_total = byte_length(lower.as_str());
            let start = prefix_bytes(&lc, k, lower_total);
            proof {
                assert(lc@.take(k + qc@.len()) =~= lc@.take(k as int) + qc@);
                lemma_byte_len_concat(lc@.take(k as int), qc@);
                lemma_byte_len_prefix(lc@, k + qc@.len());
            }
            let end = start + byte_length(query);
            let tc = chars_of(text);
            let tb = byte_length(text);
            let s1 = if start < tb {
                start
            } else {
                tb
            };
            let e1 = if end < tb {
                end
            } else {
                tb
            };
            let cs = floor_index(&tc, s1, tb);
            let ce0 = ceil_index(&tc, e1, tb);
            let ce = if ce0 < cs {
                cs
            } else {
                ce0
            };
            let mut out = String::new();
            escape_range(&mut out, &tc, 0, cs);
            push_str(&mut out, "<b>");
            escape_range(&mut out, &tc, cs, ce);
            push_str(&mut out, "</b>");
            escape_range(&mut out, &tc, ce, tc.len());
            assert(tc@.subrange(0, cs as int) =~= tc@.take(cs as int));
            assert(tc@.subrange(ce as int, tc@.len() as int) =~= tc@.skip(ce as int));
            assert(out@ =~= highlighted(text@, query@));
            out
        },
    }
}

// ---------------------------------------------------------------------------
// Palette items.

/// One row of the palette: the id it activates, its title and a subtitle.
#[derive(Clone, Debug, PartialEq, Eq)]
pub struct PaletteItem {
    pub id: String,
    pub label: String,
    pub subtitle: String,
}

pub open spec fn item_view(p: PaletteItem) -> (Seq<char>, Seq<char>, Seq<char>) {
    (p.id@, p.label@, p.subtitle@)
}

pub open spec fn items_view(v: Seq<PaletteItem>) -> Seq<(Seq<char>, Seq<char>, Seq<char>)> {
    v.map_values(|p: PaletteItem| item_view(p))
}

fn item(id: &str, label: &str, subtitle: &str) -> (r: PaletteItem)
    ensures
        item_view(r) == (id@, label@, subtitle@),
{
    PaletteItem { id: owned(id), label: owned(label), subtitle: owned(subtitle) }
}

/// The application's own commands, in palette order.
pub open spec fn command_rows() -> Seq<(Seq<char>, Seq<char>, Seq<char>)> {
    seq![
        ("new_sermon"@, "New Sermon"@, "Start a new sermon"@),
        ("open_library"@, "Open Library…"@, "Search and open a sermon (Ctrl+L)"@),
        ("export"@, "Export…"@, "Export as a .sermon file for Rubric (Ctrl+E)"@),
        ("preaching_view"@, "Preaching View"@, "Large-print, chrome-free pulpit display (Ctrl+Shift+P)"@),
        ("history"@, "History…"@, "Browse and restore past committed versions (Ctrl+Shift+H)"@),
        ("undo"@, "Undo"@, "Undo the last change (Ctrl+Z)"@),
        ("redo"@, "Redo"@, "Redo the last undone change (Ctrl+Shift+Z)"@),
        ("toggle_sidebar"@, "Toggle Sidebar"@, "Show or hide the lectionary sidebar"@),
        ("add_movement"@, "Add Movement"@, "Append a new movement to the sermon"@),
        ("changelog"@, "Changelog"@, "View what's changed in this version"@),
    ]
}

/// The built-in commands the palette always lists.
pub fn default_commands() -> (r: Vec<PaletteItem>)
    ensures
        items_view(r@) == command_rows(),
{
    let mut v: Vec<PaletteItem> = Vec::new();
    v.push(item("new_sermon", "New Sermon", "Start a new sermon"));
    v.push(item("open_library", "Open Library…", "Search and open a sermon (Ctrl+L)"));
    v.push(item("export", "Export…", "Export as a .sermon file for Rubric (Ctrl+E)"));
    v.push(item("preaching_view", "Preaching View", "Large-print, chrome-free pulpit display (Ctrl+Shift+P)"));
    v.push(item("history", "History…", "Browse and restore past committed versions (Ctrl+Shift+H)"));
    v.push(item("undo", "Undo", "Undo the last change (Ctrl+Z)"));
    v.push(item("redo", "Redo", "Redo the last undone change (Ctrl+Shift+Z)"));
    v.push(item("toggle_sidebar", "Toggle Sidebar", "Show or hide the lectionary sidebar"));
    v.push(item("add_movement", "Add Movement", "Append a new movement to the sermon"));
    v.push(item("changelog", "Changelog", "View what's changed in this version"));
    assert(items_view(v@) =~= command_rows());
    v
}

/// The palette row of a movement: its id, "≡ name" and its idea count.
pub open spec fn movement_row(m: MovementView) -> (Seq<char>, Seq<char>, Seq<char>) {
    ("movement:"@ + m.id, "≡ "@ + m.name, crate::text::decimal_text(m.ideas.len()) + " idea(s)"@)
}

/// The palette row of an idea: its id, "  · text" (or a placeholder for an
/// idea without text) and its movement's name.
pub open spec fn idea_row(m: MovementView, i: IdeaView) -> (Seq<char>, Seq<char>, Seq<char>) {
    (
        "idea:"@ + i.id,
        "  · "@ + if i.text.len() == 0 {
            "(untitled idea)"@
        } else {
            i.text
        },
        m.name,
    )
}

pub open spec fn idea_rows(m: MovementView, ideas: Seq<IdeaView>) -> Seq<(Seq<char>, Seq<char>, Seq<char>)>
    decreases ideas.len(),
{
    if ideas.len() == 0 {
        seq![]
    } else {
        idea_rows(m, ideas.drop_last()).push(idea_row(m, ideas.last()))
    }
}

/// The outline: each movement's row followed by the rows of its ideas.
pub open spec fn outline_rows(ms: Seq<MovementView>) -> Seq<(Seq<char>, Seq<char>, Seq<char>)>
    decreases ms.len(),
{
    if ms.len() == 0 {
        seq![]
    } else {
        outline_rows(ms.drop_last()) + seq![movement_row(ms.last())] + idea_rows(
            ms.last(),
            ms.last().ideas,
        )
    }
}

/// One palette item per movement and idea of the sermon, in document order:
/// choosing one jumps to that movement's name or that idea's text.
pub fn outline_items(sermon: &Sermon) -> (r: Vec<PaletteItem>)
    ensures
        items_view(r@) == outline_rows(sermon@.movements),
{
    let ghost ms = sermon@.movements;
    let mut out: Vec<PaletteItem> = Vec::new();
    let mut m: usize = 0;
    assert(ms.take(0) =~= Seq::<MovementView>::empty());
    while m < sermon.movements.len()
        invariant
            m <= sermon.movements@.len(),
            ms == sermon@.movements,
            items_view(out@) == outline_rows(ms.take(m as int)),
        decreases sermon.movements@.len() - m,
    {
        let mv = &sermon.movements[m];
        let ghost mview = ms[m as int];
        assert(mview == mv@);
        let ghost before = items_view(out@);
        let mut id = owned("movement:");
        push_str(&mut id, mv.id.as_str());
        let mut label = owned("≡ ");
        push_str(&mut label, mv.name.as_str());
        let mut sub = crate::text::decimal(mv.ideas.len() as u64);
        push_str(&mut sub, " idea(s)");
        out.push(PaletteItem { id, label, subtitle: sub });
        assert(items_view(out@) =~= before.push(movement_row(mview)));
        let ghost with_row = items_view(out@);
        let mut i: usize = 0;
        assert(mview.ideas.take(0) =~= Seq::<IdeaView>::empty());
        while i < mv.ideas.len()
            invariant
                i <= mv.ideas@.len(),
                mview == mv@,
                mview.ideas.len() == mv.ideas@.len(),
                items_view(out@) == with_row + idea_rows(mview, mview.ideas.take(i as int)),
            decreases mv.ideas@.len() - i,
        {
            let idea = &mv.ideas[i];
            assert(mview.ideas[i as int] == idea@);
            let ghost before_i = items_view(out@);
            let mut iid = owned("idea:");
            push_str(&mut iid, idea.id.as_str());
            let mut ilabel = owned("  · ");
            if idea.text.as_str().is_empty() {
                push_str(&mut ilabel, "(untitled idea)");
            } else {
                push_str(&mut ilabel, idea.text.as_str());
            }
            out.push(PaletteItem { id: iid, label: ilabel, subtitle: mv.name.clone() });
            assert(mview.ideas.take(i + 1).drop_last() =~= mview.ideas.take(i as int));
            assert(mview.ideas.take(i + 1).last() == idea@);
            assert(item_view(out@.last()) == idea_row(mview, idea@));
            assert(items_view(out@) =~= before_i.push(idea_row(mview, idea@)));
            assert(items_view(out@) =~= with_row + idea_rows(mview, mview.ideas.take(i + 1)));
            i = i + 1;
        }
        assert(mview.ideas.take(mv.ideas@.len() as int) =~= mview.ideas);
        assert(ms.take(m + 1).drop_last() =~= ms.take(m as int));
        assert(items_view(out@) =~= outline_rows(ms.take(m + 1)));
        m = m + 1;
    }
    assert(ms.take(sermon.movements@.len() as int) =~= ms);
    out
}

} // verus!
