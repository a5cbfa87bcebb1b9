//! Scripture citations in idea text: the `@book chapter:verse[-verse]`
//! syntax. `find_citations` finds complete citations, `render_display`
//! writes them out in display form, `citation_query_at_cursor` finds the
//! book name being typed for autocomplete, `search_books` filters book
//! names, and `sort_key` orders display-form citations canonically.
//!
//! Positions in `find_citations` and `citation_query_at_cursor` are byte
//! offsets into the UTF-8 text, as `str` indexing uses them.

pub mod books;

use vstd::prelude::*;

use crate::bible::books::{book_aliases, book_aliases_at, book_name, book_name_at, strs_view, BOOK_COUNT};
use crate::text::{
    byte_len, byte_length, char_is_alphanumeric, char_is_whitespace, char_len_utf8,
    char_lower_text, char_to_lowercase, chars_of, decimal, decimal_text, digits_value, has_prefix,
    is_alphanumeric, is_digit, is_whitespace, lemma_byte_len_prefix, lemma_byte_len_step, owned,
    push_char, push_str, string_from_chars, utf8_len,
};

verus! {

// ---------------------------------------------------------------------------
// Citations.

/// A parsed scripture reference.
#[derive(Debug, PartialEq, Eq)]
pub struct Citation {
    pub book: String,
    pub chapter: u32,
    pub verse_start: u32,
    pub verse_end: Option<u32>,
}

pub struct CitationView {
    pub book: Seq<char>,
    pub chapter: u32,
    pub verse_start: u32,
    pub verse_end: Option<u32>,
}

impl View for Citation {
    type V = CitationView;

    open spec fn view(&self) -> CitationView {
        CitationView {
            book: self.book@,
            chapter: self.chapter,
            verse_start: self.verse_start,
            verse_end: self.verse_end,
        }
    }
}

/// "Book C:V", or "Book C:V-W" when the citation ends on another verse.
pub open spec fn display_text(c: CitationView) -> Seq<char> {
    let base = c.book + " "@ + decimal_text(c.chapter as nat) + ":"@ + decimal_text(
        c.verse_start as nat,
    );
    match c.verse_end {
        Some(end) => if end != c.verse_start {
            base + "-"@ + decimal_text(end as nat)
        } else {
            base
        },
        None => base,
    }
}

impl Clone for Citation {
    fn clone(&self) -> (r: Self)
        ensures
            r@ == self@,
    {
        Citation {
            book: self.book.clone(),
            chapter: self.chapter,
            verse_start: self.verse_start,
            verse_end: self.verse_end,
        }
    }
}

impl Citation {
    /// The citation in display form.
    pub fn display(&self) -> (r: String)
        ensures
            r@ == display_text(self@),
    {
        let mut s = owned(self.book.as_str());
        push_str(&mut s, " ");
        let ch = decimal(self.chapter as u64);
        push_str(&mut s, ch.as_str());
        push_str(&mut s, ":");
        let vs = decimal(self.verse_start as u64);
        push_str(&mut s, vs.as_str());
        match self.verse_end {
            Some(end) => {
                if end != self.verse_start {
                    push_str(&mut s, "-");
                    let ve = decimal(end as u64);
                    push_str(&mut s, ve.as_str());
                }
            },
            None => {},
        }
        s
    }
}

// ---------------------------------------------------------------------------
// Normalised matching.

/// A text with everything but letters and digits dropped and the rest
/// lowercased.
pub open spec fn normalize_text(s: Seq<char>) -> Seq<char>
    decreases s.len(),
{
    if s.len() == 0 {
        seq![]
    } else {
        normalize_text(s.drop_last()) + if char_is_alphanumeric(s.last()) {
            char_lower_text(s.last())
        } else {
            seq![]
        }
    }
}

/// The characters of `s`, keeping letters and digits, lowercased.
fn normalize(s: &str) -> (r: Vec<char>)
    ensures
        r@ == normalize_text(s@),
{
    let cs = chars_of(s);
    let mut out: Vec<char> = Vec::new();
    let mut i: usize = 0;
    assert(cs@.take(0) =~= Seq::<char>::empty());
    while i < cs.len()
        invariant
            cs@ == s@,
            i <= cs@.len(),
            out@ == normalize_text(cs@.take(i as int)),
        decreases cs@.len() - i,
    {
        let c = cs[i];
        assert(cs@.take(i + 1).drop_last() =~= cs@.take(i as int));
        if is_alphanumeric(c) {
            let low = char_to_lowercase(c);
            let lc = chars_of(low.as_str());
            let mut k: usize = 0;
            let ghost base = out@;
            while k < lc.len()
                invariant
                    k <= lc@.len(),
                    out@ == base + lc@.take(k as int),
                decreases lc@.len() - k,
            {
                out.push(lc[k]);
                assert(out@ =~= base + lc@.take(k + 1));
                k = k + 1;
            }
            assert(lc@.take(lc@.len() as int) =~= lc@);
        } else {
            assert(out@ =~= normalize_text(cs@.take(i as int)) + Seq::<char>::empty());
        }
        i = i + 1;
    }
    assert(cs@.take(cs@.len() as int) =~= cs@);
    out
}

/// The first character `char::to_lowercase` yields.
pub open spec fn lower_first(c: char) -> char {
    char_lower_text(c)[0]
}

fn lowercase_first(c: char) -> (r: char)
    ensures
        r == lower_first(c),
{
    let low = char_to_lowercase(c);
    let lc = chars_of(low.as_str());
    lc[0]
}

/// Matching `alias` against `t` from position `i` (alias position `j`):
/// characters that are not letters or digits are skipped, and each letter
/// or digit, lowercased, must be the next alias character. The answer is
/// where in `t` the alias ended, or `None` when it does not match.
pub open spec fn normalized_match(t: Seq<char>, a: Seq<char>, i: int, j: int) -> Option<int>
    decreases t.len() - i,
{
    if j >= a.len() {
        Some(i)
    } else if i < 0 || i >= t.len() {
        None
    } else if !char_is_alphanumeric(t[i]) {
        normalized_match(t, a, i + 1, j)
    } else if lower_first(t[i]) != a[j] {
        None
    } else {
        normalized_match(t, a, i + 1, j + 1)
    }
}

proof fn lemma_normalized_match_end(t: Seq<char>, a: Seq<char>, i: int, j: int)
    requires
        0 <= i,
    ensures
        normalized_match(t, a, i, j) matches Some(e) ==> i <= e <= t.len() || (j >= a.len() && e
            == i),
    decreases t.len() - i,
{
    if j < a.len() && i < t.len() {
        lemma_normalized_match_end(t, a, i + 1, j);
        lemma_normalized_match_end(t, a, i + 1, j + 1);
    }
}

/// Where in `t` the normalised alias `alias` ends when matched from `p`.
fn text_starts_with_normalized(t: &Vec<char>, p: usize, alias: &Vec<char>) -> (r: Option<usize>)
    requires
        p <= t@.len(),
    ensures
        match normalized_match(t@, alias@, p as int, 0) {
            Some(e) => r matches Some(x) && x == e,
            None => r is None,
        },
        r matches Some(e) ==> p <= e <= t@.len(),
{
    let mut i = p;
    let mut j: usize = 0;
    while j < alias.len()
        invariant
            p <= i <= t@.len(),
            j <= alias@.len(),
            normalized_match(t@, alias@, p as int, 0) == normalized_match(
                t@,
                alias@,
                i as int,
                j as int,
            ),
        decreases t@.len() - i, alias@.len() - j,
    {
        if i >= t.len() {
            return None;
        }
        let c = t[i];
        if is_alphanumeric(c) {
            if lowercase_first(c) != alias[j] {
                return None;
            }
            j = j + 1;
        }
        i = i + 1;
    }
    Some(i)
}

/// Bytes of the characters of `t` from `p` up to `e`.
fn bytes_between(t: &Vec<char>, p: usize, e: usize) -> (r: usize)
    requires
        p <= e <= t@.len(),
        byte_len(t@) <= usize::MAX,
    ensures
        r == byte_len(t@.subrange(p as int, e as int)),
{
    let mut k = p;
    let mut b: usize = 0;
    proof {
        assert(t@.subrange(p as int, p as int) =~= Seq::<char>::empty());
    }
    while k < e
        invariant
            p <= k <= e <= t@.len(),
            byte_len(t@) <= usize::MAX,
            b == byte_len(t@.subrange(p as int, k as int)),
        decreases e - k,
    {
        proof {
            assert(t@.subrange(p as int, k + 1).drop_last() =~= t@.subrange(p as int, k as int));
            lemma_subrange_bytes(t@, p as int, k + 1);
        }
        b = b + char_len_utf8(t[k]);
        k = k + 1;
    }
    b
}

proof fn lemma_subrange_bytes(s: Seq<char>, p: int, e: int)
    requires
        0 <= p <= e <= s.len(),
    ensures
        byte_len(s.subrange(p, e)) <= byte_len(s),
{
    crate::text::lemma_byte_len_concat(s.take(p), s.subrange(p, e));
    assert(s.take(p) + s.subrange(p, e) =~= s.take(e));
    lemma_byte_len_prefix(s, e);
}

// ---------------------------------------------------------------------------
// Finding the book.

/// The forms a book may be written in: its normalised name, then its aliases.
pub open spec fn candidates(i: usize) -> Seq<Seq<char>> {
    seq![normalize_text(book_name(i))] + book_aliases(i)
}

/// The best match so far after trying `alias` of book `bi` at `p`: a match
/// replaces the best when it spans more bytes. The best is (book, bytes,
/// end position).
pub open spec fn consider(
    t: Seq<char>,
    p: int,
    bi: int,
    alias: Seq<char>,
    best: Option<(int, int, int)>,
) -> Option<(int, int, int)> {
    match normalized_match(t, alias, p, 0) {
        Some(e) => {
            let b = byte_len(t.subrange(p, e)) as int;
            let better = match best {
                Some(x) => b > x.1,
                None => true,
            };
            if better {
                Some((bi, b, e))
            } else {
                best
            }
        },
        None => best,
    }
}

/// The best match after the first `m` forms of book `bi`.
pub open spec fn forms_fold(t: Seq<char>, p: int, bi: int, m: int, best: Option<(int, int, int)>) -> Option<
    (int, int, int),
>
    decreases m,
{
    if m <= 0 {
        best
    } else {
        consider(t, p, bi, candidates(bi as usize)[m - 1], forms_fold(t, p, bi, m - 1, best))
    }
}

/// The best match after the first `n` books.
pub open spec fn books_fold(t: Seq<char>, p: int, n: int) -> Option<(int, int, int)>
    decreases n,
{
    if n <= 0 {
        None
    } else {
        let bi = n - 1;
        forms_fold(t, p, bi, candidates(bi as usize).len() as int, books_fold(t, p, n - 1))
    }
}

/// The book whose name or alias, matched from `p`, spans the most bytes
/// (the first in canonical order among equals): its index, the bytes
/// matched and where the match ends.
pub open spec fn book_match(t: Seq<char>, p: int) -> Option<(int, int, int)> {
    books_fold(t, p, BOOK_COUNT as int)
}

proof fn lemma_consider_bounds(
    t: Seq<char>,
    p: int,
    bi: int,
    alias: Seq<char>,
    best: Option<(int, int, int)>,
)
    requires
        0 <= p <= t.len(),
        0 <= bi < BOOK_COUNT,
        best matches Some(x) ==> 0 <= x.0 < BOOK_COUNT && p <= x.2 <= t.len(),
    ensures
        consider(t, p, bi, alias, best) matches Some(x) ==> 0 <= x.0 < BOOK_COUNT && p <= x.2
            <= t.len(),
{
    lemma_normalized_match_end(t, alias, p, 0);
}

fn candidate_forms(i: usize) -> (r: Vec<Vec<char>>)
    ensures
        r@.map_values(|v: Vec<char>| v@) == candidates(i),
{
    let name = book_name_at(i);
    let aliases = book_aliases_at(i);
    let mut out: Vec<Vec<char>> = Vec::new();
    out.push(normalize(name));
    let mut k: usize = 0;
    while k < aliases.len()
        invariant
            k <= aliases@.len(),
            strs_view(aliases@) == book_aliases(i),
            out@.map_values(|v: Vec<char>| v@) == seq![normalize_text(book_name(i))]
                + book_aliases(i).take(k as int),
        decreases aliases@.len() - k,
    {
        let ghost before = out@.map_values(|v: Vec<char>| v@);
        out.push(chars_of(aliases[k]));
        assert(out@.map_values(|v: Vec<char>| v@) =~= before.push(aliases@[k as int]@));
        assert(book_aliases(i).take(k + 1) =~= book_aliases(i).take(k as int).push(
            aliases@[k as int]@,
        ));
        k = k + 1;
    }
    assert(book_aliases(i).take(aliases@.len() as int) =~= book_aliases(i));
    out
}

/// The longest book name or alias at position `p` of `t`: the book's index
/// and where the match ends.
fn match_book(t: &Vec<char>, p: usize) -> (r: Option<(usize, usize)>)
    requires
        p <= t@.len(),
        byte_len(t@) <= usize::MAX,
    ensures
        match book_match(t@, p as int) {
            Some(x) => r == Some((x.0 as usize, x.2 as usize)) && x.0 < BOOK_COUNT && p <= x.2
                <= t@.len(),
            None => r is None,
        },
{
    let mut best: Option<(usize, usize, usize)> = None;
    let mut bi: usize = 0;
    while bi < BOOK_COUNT
        invariant
            bi <= BOOK_COUNT,
            p <= t@.len(),
            byte_len(t@) <= usize::MAX,
            (match best {
                Some(x) => Some((x.0 as int, x.1 as int, x.2 as int)),
                None => None,
            }) == books_fold(t@, p as int, bi as int),
            best matches Some(x) ==> x.0 < BOOK_COUNT && p <= x.2 <= t@.len(),
        decreases BOOK_COUNT - bi,
    {
        let forms = candidate_forms(bi);
        let mut m: usize = 0;
        let ghost start = books_fold(t@, p as int, bi as int);
        while m < forms.len()
            invariant
                bi < BOOK_COUNT,
                m <= forms@.len(),
                p <= t@.len(),
                byte_len(t@) <= usize::MAX,
                forms@.map_values(|v: Vec<char>| v@) == candidates(bi),
                (match best {
                    Some(x) => Some((x.0 as int, x.1 as int, x.2 as int)),
                    None => None,
                }) == forms_fold(t@, p as int, bi as int, m as int, start),
                best matches Some(x) ==> x.0 < BOOK_COUNT && p <= x.2 <= t@.len(),
            decreases forms@.len() - m,
        {
            let ghost prev = forms_fold(t@, p as int, bi as int, m as int, start);
            assert(forms@[m as int]@ == candidates(bi)[m as int]);
            proof {
                lemma_normalized_match_end(t@, candidates(bi)[m as int], p as int, 0);
            }
            let form = &forms[m];
            let found = text_starts_with_normalized(t, p, form);
            assert(form@ == candidates(bi)[m as int]);
            assert(found is Some ==> normalized_match(t@, form@, p as int, 0) is Some);
            match found {
                Some(e) => {
                    assert(p <= e <= t@.len());
                    let consumed = bytes_between(t, p, e);
                    let better = match best {
                        Some(x) => consumed > x.1,
                        None => true,
                    };
                    assert(normalized_match(t@, candidates(bi)[m as int], p as int, 0) == Some(
                        e as int,
                    ));
                    assert(consumed == byte_len(t@.subrange(p as int, e as int)));
                    if better {
                        best = Some((bi, consumed, e));
                    }
                },
                None => {},
            }
            assert(forms_fold(t@, p as int, bi as int, m + 1, start) == consider(
                t@,
                p as int,
                bi as int,
                candidates(bi)[m as int],
                prev,
            ));
            m = m + 1;
        }
        bi = bi + 1;
    }
    match best {
        Some(x) => Some((x.0, x.2)),
        None => None,
    }
}

// ---------------------------------------------------------------------------
// Digits.

/// How many ASCII digits `s` starts with.
pub open spec fn digit_run(s: Seq<char>) -> nat
    decreases s.len(),
{
    if s.len() > 0 && is_digit(s[0]) {
        1 + digit_run(s.drop_first())
    } else {
        0
    }
}

/// The number `s` starts with and how many digits it takes; `None` when it
/// starts with no digit or the number does not fit in a `u32`.
pub open spec fn leading_number(s: Seq<char>) -> Option<(u32, nat)> {
    let n = digit_run(s);
    if n == 0 {
        None
    } else if digits_value(s.take(n as int)) <= u32::MAX {
        Some((digits_value(s.take(n as int)) as u32, n))
    } else {
        None
    }
}

proof fn lemma_digit_run(s: Seq<char>, k: int)
    requires
        0 <= k <= digit_run(s),
    ensures
        digit_run(s) <= s.len(),
        forall|j: int| 0 <= j < k ==> is_digit(#[trigger] s[j]),
        k == digit_run(s) ==> !(k < s.len() && is_digit(s[k])),
    decreases s.len(),
{
    if s.len() > 0 && is_digit(s[0]) {
        if k > 0 {
            lemma_digit_run(s.drop_first(), k - 1);
            assert forall|j: int| 0 <= j < k implies is_digit(#[trigger] s[j]) by {
                if j > 0 {
                    assert(s[j] == s.drop_first()[j - 1]);
                }
            }
        } else {
            lemma_digit_run(s.drop_first(), 0);
        }
    }
}

proof fn lemma_digits_value_nonneg(s: Seq<char>)
    requires
        forall|j: int| 0 <= j < s.len() ==> is_digit(#[trigger] s[j]),
    ensures
        digits_value(s) >= 0,
    decreases s.len(),
{
    if s.len() > 0 {
        lemma_digits_value_nonneg(s.drop_last());
        assert(is_digit(s[s.len() - 1]));
    }
}

proof fn lemma_digits_value_grows(s: Seq<char>, k: int, n: int)
    requires
        0 <= k <= n <= s.len(),
        forall|j: int| 0 <= j < n ==> is_digit(#[trigger] s[j]),
    ensures
        digits_value(s.take(k)) <= digits_value(s.take(n)),
    decreases n - k,
{
    if k < n {
        lemma_digits_value_grows(s, k + 1, n);
        assert(s.take(k + 1).drop_last() =~= s.take(k));
        assert(s.take(k + 1).last() == s[k]);
        assert(is_digit(s[k]));
        lemma_digits_value_nonneg(s.take(k));
    }
}

/// The number at position `p` of `t` and how many digits it takes.
fn take_digits(t: &Vec<char>, p: usize) -> (r: Option<(u32, usize)>)
    requires
        p <= t@.len(),
    ensures
        match leading_number(t@.skip(p as int)) {
            Some(x) => r == Some((x.0, x.1 as usize)),
            None => r is None,
        },
{
    let ghost s = t@.skip(p as int);
    proof {
        lemma_digit_run(s, 0);
        lemma_digit_run(s, digit_run(s) as int);
    }
    let mut i = p;
    let mut v: u64 = 0;
    assert(s.take(0) =~= Seq::<char>::empty());
    while i < t.len() && '0' <= t[i] && t[i] <= '9'
        invariant
            p <= i <= t@.len(),
            s == t@.skip(p as int),
            i - p <= digit_run(s),
            forall|j: int| 0 <= j < digit_run(s) ==> is_digit(#[trigger] s[j]),
            digit_run(s) <= s.len(),
            v == digits_value(s.take(i - p)),
            v <= u32::MAX,
        decreases t@.len() - i,
    {
        assert(s[i - p] == t@[i as int]);
        proof {
            if i - p == digit_run(s) {
                lemma_digit_run(s, digit_run(s) as int);
            }
        }
        assert(s.take(i - p + 1).drop_last() =~= s.take(i - p));
        let d = (t[i] as u32 - '0' as u32) as u64;
        v = v * 10 + d;
        i = i + 1;
        if v > u32::MAX as u64 {
            proof {
                lemma_digits_value_grows(s, i - p, digit_run(s) as int);
            }
            return None;
        }
    }
    proof {
        if i - p < digit_run(s) {
            assert(is_digit(s[i - p]));
            assert(s[i - p] == t@[i as int]);
        }
    }
    if i == p {
        return None;
    }
    Some((v as u32, i - p))
}

// ---------------------------------------------------------------------------
// Complete citations.

/// The citation whose book starts at position `p` (just after an `@`), and
/// where it ends: a book name or alias, an optional single space, the
/// chapter, ':', the first verse, and optionally '-' and a last verse.
pub open spec fn citation_at(t: Seq<char>, p: int) -> Option<(CitationView, int)> {
    match book_match(t, p) {
        None => None,
        Some(m) => {
            let pos = if m.2 < t.len() && t[m.2] == ' ' {
                m.2 + 1
            } else {
                m.2
            };
            match leading_number(t.skip(pos)) {
                None => None,
                Some(ch) => {
                    let colon = pos + ch.1;
                    if colon < t.len() && t[colon] == ':' {
                        match leading_number(t.skip(colon + 1)) {
                            None => None,
                            Some(v) => {
                                let e = colon + 1 + v.1;
                                let last = if e < t.len() && t[e] == '-' {
                                    leading_number(t.skip(e + 1))
                                } else {
                                    None
                                };
                                let c = CitationView {
                                    book: book_name(m.0 as usize),
                                    chapter: ch.0,
                                    verse_start: v.0,
                                    verse_end: match last {
                                        Some(l) => Some(l.0),
                                        None => None,
                                    },
                                };
                                let end = match last {
                                    Some(l) => e + 1 + l.1,
                                    None => e,
                                };
                                Some((c, end))
                            },
                        }
                    } else {
                        None
                    }
                },
            }
        },
    }
}

proof fn lemma_citation_end(t: Seq<char>, p: int)
    requires
        0 <= p <= t.len(),
    ensures
        citation_at(t, p) matches Some(x) ==> p < x.1 <= t.len(),
{
    lemma_normalized_match_end(t, seq![], p, 0);
    match book_match(t, p) {
        None => {},
        Some(m) => {
            lemma_book_match_bounds(t, p);
            let pos = if m.2 < t.len() && t[m.2] == ' ' {
                m.2 + 1
            } else {
                m.2
            };
            lemma_digit_run(t.skip(pos), 0);
            if let Some(ch) = leading_number(t.skip(pos)) {
                let colon = pos + ch.1;
                lemma_digit_run(t.skip(colon + 1), 0);
                if colon < t.len() && t[colon] == ':' {
                    if let Some(v) = leading_number(t.skip(colon + 1)) {
                        let e = colon + 1 + v.1;
                        lemma_digit_run(t.skip(e + 1), 0);
                    }
                }
            }
        },
    }
}

proof fn lemma_book_match_bounds(t: Seq<char>, p: int)
    requires
        0 <= p <= t.len(),
    ensures
        book_match(t, p) matches Some(x) ==> 0 <= x.0 < BOOK_COUNT && p <= x.2 <= t.len(),
{
    lemma_books_fold_bounds(t, p, BOOK_COUNT as int);
}

proof fn lemma_books_fold_bounds(t: Seq<char>, p: int, n: int)
    requires
        0 <= p <= t.len(),
        n <= BOOK_COUNT,
    ensures
        books_fold(t, p, n) matches Some(x) ==> 0 <= x.0 < BOOK_COUNT && p <= x.2 <= t.len(),
    decreases n,
{
    if n > 0 {
        lemma_books_fold_bounds(t, p, n - 1);
        lemma_forms_fold_bounds(
            t,
            p,
            n - 1,
            candidates((n - 1) as usize).len() as int,
            books_fold(t, p, n - 1),
        );
    }
}

proof fn lemma_forms_fold_bounds(t: Seq<char>, p: int, bi: int, m: int, best: Option<(int, int, int)>)
    requires
        0 <= p <= t.len(),
        0 <= bi < BOOK_COUNT,
        best matches Some(x) ==> 0 <= x.0 < BOOK_COUNT && p <= x.2 <= t.len(),
    ensures
        forms_fold(t, p, bi, m, best) matches Some(x) ==> 0 <= x.0 < BOOK_COUNT && p <= x.2
            <= t.len(),
    decreases m,
{
    if m > 0 {
        lemma_forms_fold_bounds(t, p, bi, m - 1, best);
        lemma_consider_bounds(
            t,
            p,
            bi,
            candidates(bi as usize)[m - 1],
            forms_fold(t, p, bi, m - 1, best),
        );
    }
}

/// The complete citations of `t` from position `i` on, as (start, end,
/// citation) with positions counted in characters; a citation's start is
/// its '@'. Scanning resumes after each citation found, and one character
/// further on at an '@' that starts none.
pub open spec fn citations_from(t: Seq<char>, i: int) -> Seq<(int, int, CitationView)>
    decreases t.len() - i,
{
    if i < 0 || i >= t.len() {
        seq![]
    } else {
        match citation_at(t, i + 1) {
            Some(x) => if t[i] == '@' && i < x.1 <= t.len() {
                seq![(i, x.1, x.0)] + citations_from(t, x.1)
            } else {
                citations_from(t, i + 1)
            },
            None => citations_from(t, i + 1),
        }
    }
}

/// The citation at position `p` (just after an `@`) and where it ends.
fn parse_citation(t: &Vec<char>, p: usize) -> (r: Option<(Citation, usize)>)
    requires
        p <= t@.len(),
        byte_len(t@) <= usize::MAX,
    ensures
        match citation_at(t@, p as int) {
            Some(x) => r matches Some(y) && y.0@ == x.0 && y.1 == x.1,
            None => r is None,
        },
{
    let (bi, after) = match match_book(t, p) {
        Some(m) => m,
        None => return None,
    };
    let mut pos = after;
    if pos < t.len() && t[pos] == ' ' {
        pos = pos + 1;
    }
    let (chapter, len) = match take_digits(t, pos) {
        Some(x) => x,
        None => return None,
    };
    proof {
        lemma_digit_run(t@.skip(pos as int), 0);
    }
    let colon = pos + len;
    if !(colon < t.len() && t[colon] == ':') {
        return None;
    }
    let (verse, vlen) = match take_digits(t, colon + 1) {
        Some(x) => x,
        None => return None,
    };
    proof {
        lemma_digit_run(t@.skip(colon + 1), 0);
    }
    let e = colon + 1 + vlen;
    let mut end = e;
    let mut verse_end: Option<u32> = None;
    if e < t.len() && t[e] == '-' {
        if let Some((v2, v2len)) = take_digits(t, e + 1) {
            proof {
                lemma_digit_run(t@.skip(e + 1), 0);
            }
            verse_end = Some(v2);
            end = e + 1 + v2len;
        }
    }
    let c = Citation { book: owned(book_name_at(bi)), chapter, verse_start: verse, verse_end };
    Some((c, end))
}

/// One complete citation found in a text: its byte span (from the '@') and
/// its parsed value.
pub struct Found {
    pub start: usize,
    pub end: usize,
    pub citation: Citation,
}

/// The complete citations of `t` as found spans in bytes.
pub open spec fn found_spans(t: Seq<char>) -> Seq<(int, int, CitationView)> {
    citations_from(t, 0).map_values(
        |x: (int, int, CitationView)|
            (byte_len(t.take(x.0)) as int, byte_len(t.take(x.1)) as int, x.2),
    )
}

pub open spec fn found_view(f: Found) -> (int, int, CitationView) {
    (f.start as int, f.end as int, f.citation@)
}

/// A citation found by `scan_citations`: its start and end as character
/// positions and as byte offsets, and its value.
pub type Span = (usize, usize, usize, usize, Citation);

pub open spec fn span_chars(x: Span) -> (int, int, CitationView) {
    (x.0 as int, x.1 as int, x.4@)
}

/// The complete citations of `t`, with character positions and byte offsets.
fn scan_citations(t: &Vec<char>) -> (r: Vec<Span>)
    requires
        byte_len(t@) <= usize::MAX,
    ensures
        r@.map_values(|x: Span| span_chars(x)) == citations_from(t@, 0),
        forall|k: int|
            0 <= k < r@.len() ==> #[trigger] r@[k].2 == byte_len(t@.take(r@[k].0 as int))
                && r@[k].3 == byte_len(t@.take(r@[k].1 as int)),
{
    let mut out: Vec<Span> = Vec::new();
    let mut i: usize = 0;
    let mut b: usize = 0;
    assert(t@.take(0) =~= Seq::<char>::empty());
    while i < t.len()
        invariant
            i <= t@.len(),
            byte_len(t@) <= usize::MAX,
            b == byte_len(t@.take(i as int)),
            out@.map_values(|x: Span| span_chars(x)) + citations_from(t@, i as int)
                == citations_from(t@, 0),
            forall|k: int|
                0 <= k < out@.len() ==> #[trigger] out@[k].2 == byte_len(t@.take(out@[k].0 as int))
                    && out@[k].3 == byte_len(t@.take(out@[k].1 as int)),
        decreases t@.len() - i,
    {
        proof {
            lemma_byte_len_step(t@, i as int);
            lemma_byte_len_prefix(t@, i + 1);
        }
        if t[i] == '@' {
            proof {
                lemma_citation_end(t@, i + 1);
            }
            match parse_citation(t, i + 1) {
                Some((c, end)) => {
                    let between = bytes_between(t, i, end);
                    proof {
                        crate::text::lemma_byte_len_concat(
                            t@.take(i as int),
                            t@.subrange(i as int, end as int),
                        );
                        assert(t@.take(i as int) + t@.subrange(i as int, end as int) =~= t@.take(
                            end as int,
                        ));
                        lemma_byte_len_prefix(t@, end as int);
                    }
                    let be = b + between;
                    let ghost before = out@.map_values(|x: Span| span_chars(x));
                    let ghost item = (i as int, end as int, c@);
                    let ghost old_out = out@;
                    out.push((i, end, b, be, c));
                    assert(out@.map_values(|x: Span| span_chars(x)) =~= before.push(item));
                    assert forall|k: int|
                        0 <= k < out@.len() implies #[trigger] out@[k].2 == byte_len(
                        t@.take(out@[k].0 as int),
                    ) && out@[k].3 == byte_len(t@.take(out@[k].1 as int)) by {
                        if k < old_out.len() {
                            assert(out@[k] == old_out[k]);
                        }
                    }
                    assert(before.push(item) + citations_from(t@, end as int) =~= before + (seq![
                        item,
                    ] + citations_from(t@, end as int)));
                    i = end;
                    b = be;
                    continue ;
                },
                None => {},
            }
        }
        b = b + char_len_utf8(t[i]);
        i = i + 1;
    }
    assert(citations_from(t@, i as int) =~= Seq::<(int, int, CitationView)>::empty());
    assert(out@.map_values(|x: Span| span_chars(x)) + Seq::<(int, int, CitationView)>::empty()
        =~= out@.map_values(|x: Span| span_chars(x)));
    out
}

/// The complete citations in `text`, in order. A book not followed by a
/// valid `chapter:verse` is no citation at all.
pub fn find_citations(text: &str) -> (r: Vec<Found>)
    ensures
        r@.map_values(|f: Found| found_view(f)) == found_spans(text@),
{
    let _n = byte_length(text);
    let t = chars_of(text);
    let spans = scan_citations(&t);
    let mut out: Vec<Found> = Vec::new();
    let mut k: usize = 0;
    let ghost cs = citations_from(t@, 0);
    while k < spans.len()
        invariant
            t@ == text@,
            spans@.map_values(|x: Span| span_chars(x)) == cs,
            cs == citations_from(t@, 0),
            forall|j: int|
                0 <= j < spans@.len() ==> #[trigger] spans@[j].2 == byte_len(
                    t@.take(spans@[j].0 as int),
                ) && spans@[j].3 == byte_len(t@.take(spans@[j].1 as int)),
            k <= spans@.len(),
            out@.map_values(|f: Found| found_view(f)) == found_spans(t@).take(k as int),
        decreases spans@.len() - k,
    {
        let bs = spans[k].2;
        let be = spans[k].3;
        let c = spans[k].4.clone();
        assert(span_chars(spans@[k as int]) == cs[k as int]);
        let ghost before = out@.map_values(|f: Found| found_view(f));
        let f = Found { start: bs, end: be, citation: c };
        out.push(f);
        assert(out@.map_values(|f: Found| found_view(f)) =~= before.push(found_view(f)));
        assert(found_spans(t@).take(k + 1) =~= found_spans(t@).take(k as int).push(
            found_spans(t@)[k as int],
        ));
        k = k + 1;
    }
    assert(found_spans(t@).take(spans@.len() as int) =~= found_spans(t@));
    out
}

// ---------------------------------------------------------------------------
// Display form.

/// `t` from position `i` on with each complete citation written in display
/// form.
pub open spec fn render_from(t: Seq<char>, i: int) -> Seq<char>
    decreases t.len() - i,
{
    if i < 0 || i >= t.len() {
        seq![]
    } else {
        match citation_at(t, i + 1) {
            Some(x) => if t[i] == '@' && i < x.1 <= t.len() {
                display_text(x.0) + render_from(t, x.1)
            } else {
                seq![t[i]] + render_from(t, i + 1)
            },
            None => seq![t[i]] + render_from(t, i + 1),
        }
    }
}

/// `text` with every complete citation replaced by its display form:
/// "Read @john3:16 aloud" becomes "Read John 3:16 aloud".
pub fn render_display(text: &str) -> (r: String)
    ensures
        r@ == render_from(text@, 0),
{
    let _n = byte_length(text);
    let t = chars_of(text);
    let mut out = String::new();
    let mut i: usize = 0;
    while i < t.len()
        invariant
            t@ == text@,
            i <= t@.len(),
            byte_len(t@) <= usize::MAX,
            out@ + render_from(t@, i as int) == render_from(t@, 0),
        decreases t@.len() - i,
    {
        if t[i] == '@' {
            proof {
                lemma_citation_end(t@, i + 1);
            }
            match parse_citation(&t, i + 1) {
                Some((c, end)) => {
                    let shown = c.display();
                    let ghost before = out@;
                    push_str(&mut out, shown.as_str());
                    assert(before + render_from(t@, i as int) =~= out@ + render_from(t@, end as int));
                    i = end;
                    continue ;
                },
                None => {},
            }
        }
        let ghost before = out@;
        push_char(&mut out, t[i]);
        assert(before + render_from(t@, i as int) =~= out@ + render_from(t@, i + 1));
        i = i + 1;
    }
    assert(out@ + render_from(t@, i as int) =~= out@);
    out
}

// ---------------------------------------------------------------------------
// How the found citations lie in the text.

/// Citations (start, end, value) lie in order in `t` from position `i`:
/// each starts at an '@' at or after `i`, is not empty, ends within `t`,
/// and ends no later than the next one starts.
pub open spec fn well_placed(t: Seq<char>, cs: Seq<(int, int, CitationView)>, i: int) -> bool {
    &&& forall|k: int|
        0 <= k < cs.len() ==> i <= (#[trigger] cs[k]).0 < cs[k].1 <= t.len() && t[cs[k].0]
            == '@'
    &&& forall|k: int| 0 <= k < cs.len() - 1 ==> (#[trigger] cs[k]).1 <= cs[k + 1].0
}

/// `t` from position `i` on with each of the citations `cs` written in
/// display form in place of its span.
pub open spec fn spliced(t: Seq<char>, cs: Seq<(int, int, CitationView)>, i: int) -> Seq<char>
    decreases cs.len(),
{
    if cs.len() == 0 {
        t.skip(i)
    } else {
        t.subrange(i, cs[0].0) + display_text(cs[0].2) + spliced(t, cs.drop_first(), cs[0].1)
    }
}

proof fn lemma_citations_placed(t: Seq<char>, i: int)
    requires
        0 <= i <= t.len(),
    ensures
        well_placed(t, citations_from(t, i), i),
    decreases t.len() - i,
{
    if i < t.len() {
        match citation_at(t, i + 1) {
            Some(x) => {
                if t[i] == '@' && i < x.1 <= t.len() {
                    lemma_citations_placed(t, x.1);
                    let rest = citations_from(t, x.1);
                    let cs = seq![(i, x.1, x.0)] + rest;
                    assert(citations_from(t, i) == cs);
                    assert forall|k: int| 0 <= k < cs.len() implies i <= (#[trigger] cs[k]).0
                        < cs[k].1 <= t.len() && t[cs[k].0] == '@' by {
                        if k > 0 {
                            assert(cs[k] == rest[k - 1]);
                        }
                    }
                    assert forall|k: int| 0 <= k < cs.len() - 1 implies (#[trigger] cs[k]).1
                        <= cs[k + 1].0 by {
                        assert(cs[k + 1] == rest[k]);
                        if k > 0 {
                            assert(cs[k] == rest[k - 1]);
                        }
                    }
                } else {
                    lemma_citations_placed(t, i + 1);
                }
            },
            None => {
                lemma_citations_placed(t, i + 1);
            },
        }
    }
}

proof fn lemma_render_spliced(t: Seq<char>, i: int)
    requires
        0 <= i <= t.len(),
    ensures
        render_from(t, i) == spliced(t, citations_from(t, i), i),
    decreases t.len() - i,
{
    if i == t.len() {
        assert(t.skip(i) =~= Seq::<char>::empty());
    } else {
        let found = match citation_at(t, i + 1) {
            Some(x) => t[i] == '@' && i < x.1 <= t.len(),
            None => false,
        };
        if found {
            let x = citation_at(t, i + 1).unwrap();
            lemma_render_spliced(t, x.1);
            let cs = citations_from(t, i);
            assert(cs.drop_first() =~= citations_from(t, x.1));
            assert(t.subrange(i, i) =~= Seq::<char>::empty());
            assert(spliced(t, cs, i) =~= display_text(x.0) + render_from(t, x.1));
        } else {
            lemma_render_spliced(t, i + 1);
            lemma_citations_placed(t, i + 1);
            let cs = citations_from(t, i + 1);
            assert(citations_from(t, i) == cs);
            if cs.len() == 0 {
                assert(t.skip(i) =~= seq![t[i]] + t.skip(i + 1));
            } else {
                assert(i + 1 <= cs[0].0);
                let a = t.subrange(i + 1, cs[0].0);
                let d = display_text(cs[0].2);
                let r = spliced(t, cs.drop_first(), cs[0].1);
                assert(t.subrange(i, cs[0].0) =~= seq![t[i]] + a);
                assert((seq![t[i]] + a) + d + r =~= seq![t[i]] + (a + d + r));
            }
        }
    }
}

/// Where `find_citations` finds citations and what `render_display`
/// makes of them: the citations lie in order, each beginning at an '@',
/// none empty, none past the end; `render_display`'s text is the text with
/// each found citation's span replaced by its display form, and the text
/// unchanged when none is found.
pub proof fn lemma_render_replaces_citations(t: Seq<char>)
    ensures
        well_placed(t, citations_from(t, 0), 0),
        render_from(t, 0) == spliced(t, citations_from(t, 0), 0),
        citations_from(t, 0).len() == 0 ==> render_from(t, 0) == t,
{
    lemma_citations_placed(t, 0);
    lemma_render_spliced(t, 0);
    assert(t.skip(0) =~= t);
}

proof fn lemma_bytes_grow(t: Seq<char>, j: int, k: int)
    requires
        0 <= j <= k <= t.len(),
    ensures
        byte_len(t.take(j)) <= byte_len(t.take(k)),
{
    if j < k {
        lemma_bytes_strictly_grow(t, j, k);
    }
}

/// The byte spans `find_citations` reports are in order, none empty, each
/// starting at an '@' and ending within the text, with both ends on
/// character boundaries.
pub proof fn lemma_found_spans_placed(t: Seq<char>)
    ensures
        ({
            let fs = found_spans(t);
            let cs = citations_from(t, 0);
            &&& fs.len() == cs.len()
            &&& forall|k: int|
                0 <= k < fs.len() ==> (#[trigger] fs[k]).0 < fs[k].1 <= byte_len(t) && on_boundary(
                    t,
                    fs[k].0,
                ) && on_boundary(t, fs[k].1) && fs[k].0 == byte_len(t.take(cs[k].0)) && t[cs[k].0]
                    == '@' && fs[k].2 == cs[k].2
            &&& forall|k: int| 0 <= k < fs.len() - 1 ==> (#[trigger] fs[k]).1 <= fs[k + 1].0
        }),
{
    lemma_citations_placed(t, 0);
    let fs = found_spans(t);
    let cs = citations_from(t, 0);
    assert(t.take(t.len() as int) =~= t);
    assert forall|k: int| 0 <= k < fs.len() implies (#[trigger] fs[k]).0 < fs[k].1 <= byte_len(t)
        && on_boundary(t, fs[k].0) && on_boundary(t, fs[k].1) && fs[k].0 == byte_len(
        t.take(cs[k].0),
    ) && t[cs[k].0] == '@' && fs[k].2 == cs[k].2 by {
        assert(0 <= cs[k].0 < cs[k].1 <= t.len());
        lemma_bytes_strictly_grow(t, cs[k].0, cs[k].1);
        lemma_bytes_grow(t, cs[k].1, t.len() as int);
    }
    assert forall|k: int| 0 <= k < fs.len() - 1 implies (#[trigger] fs[k]).1 <= fs[k + 1].0 by {
        assert(cs[k].1 <= cs[k + 1].0);
        lemma_bytes_grow(t, cs[k].1, cs[k + 1].0);
    }
}

// ---------------------------------------------------------------------------
// A found citation read on its own.

/// Where alias `a` matched from `i` ends, if it does so by `e`.
pub open spec fn match_within(t: Seq<char>, a: Seq<char>, i: int, j: int, q: int, e: int) -> Option<
    int,
> {
    match normalized_match(t, a, i, j) {
        Some(x) => if x <= e {
            Some(x - q)
        } else {
            None
        },
        None => None,
    }
}

proof fn lemma_match_local(t: Seq<char>, a: Seq<char>, i: int, j: int, q: int, e: int)
    requires
        0 <= q <= i <= e <= t.len(),
    ensures
        normalized_match(t.subrange(q, e), a, i - q, j) == match_within(t, a, i, j, q, e),
    decreases t.len() - i,
{
    let u = t.subrange(q, e);
    if j >= a.len() {
    } else if i >= t.len() {
    } else if i == e {
        lemma_normalized_match_end(t, a, i + 1, j);
        lemma_normalized_match_end(t, a, i + 1, j + 1);
    } else {
        assert(u[i - q] == t[i]);
        lemma_match_local(t, a, i + 1, j, q, e);
        lemma_match_local(t, a, i + 1, j + 1, q, e);
    }
}

/// A best match (book, bytes, end) moved `q` positions to the left.
pub open spec fn shift_best(b: Option<(int, int, int)>, q: int) -> Option<(int, int, int)> {
    match b {
        Some(x) => Some((x.0, x.1, x.2 - q)),
        None => None,
    }
}

/// Alias `a` does not match from `p` or ends by `e`.
pub open spec fn ends_by(t: Seq<char>, a: Seq<char>, p: int, e: int) -> bool {
    normalized_match(t, a, p, 0) matches Some(x) ==> x <= e
}

proof fn lemma_consider_local(
    t: Seq<char>,
    p: int,
    bi: int,
    a: Seq<char>,
    best: Option<(int, int, int)>,
    q: int,
    e: int,
)
    requires
        0 <= q <= p <= e <= t.len(),
        ends_by(t, a, p, e),
    ensures
        consider(t.subrange(q, e), p - q, bi, a, shift_best(best, q)) == shift_best(
            consider(t, p, bi, a, best),
            q,
        ),
{
    lemma_match_local(t, a, p, 0, q, e);
    lemma_normalized_match_end(t, a, p, 0);
    if let Some(x) = normalized_match(t, a, p, 0) {
        assert(t.subrange(q, e).subrange(p - q, x - q) =~= t.subrange(p, x));
    }
}

proof fn lemma_forms_local(
    t: Seq<char>,
    p: int,
    bi: int,
    m: int,
    best: Option<(int, int, int)>,
    q: int,
    e: int,
)
    requires
        0 <= q <= p <= e <= t.len(),
        m <= candidates(bi as usize).len(),
        forall|k: int| 0 <= k < m ==> ends_by(t, #[trigger] candidates(bi as usize)[k], p, e),
    ensures
        forms_fold(t.subrange(q, e), p - q, bi, m, shift_best(best, q)) == shift_best(
            forms_fold(t, p, bi, m, best),
            q,
        ),
    decreases m,
{
    if m > 0 {
        lemma_forms_local(t, p, bi, m - 1, best, q, e);
        lemma_consider_local(
            t,
            p,
            bi,
            candidates(bi as usize)[m - 1],
            forms_fold(t, p, bi, m - 1, best),
            q,
            e,
        );
    }
}

proof fn lemma_books_local(t: Seq<char>, p: int, n: int, q: int, e: int)
    requires
        0 <= q <= p <= e <= t.len(),
        n <= BOOK_COUNT,
        forall|bi: int, k: int|
            0 <= bi < n && 0 <= k < candidates(bi as usize).len() ==> ends_by(
                t,
                #[trigger] candidates(bi as usize)[k],
                p,
                e,
            ),
    ensures
        books_fold(t.subrange(q, e), p - q, n) == shift_best(books_fold(t, p, n), q),
    decreases n,
{
    if n > 0 {
        lemma_books_local(t, p, n - 1, q, e);
        let bi = n - 1;
        lemma_forms_local(t, p, bi, candidates(bi as usize).len() as int, books_fold(t, p, n - 1), q, e);
    }
}

/// The bytes of `t` from `p` up to `x`.
pub open spec fn span_bytes(t: Seq<char>, p: int, x: int) -> int {
    byte_len(t.subrange(p, x)) as int
}

/// A best match so far spans at least `b` bytes and records the bytes it
/// spans.
pub open spec fn best_at_least(t: Seq<char>, p: int, best: Option<(int, int, int)>, b: int) -> bool {
    best matches Some(z) && z.1 >= b
}

pub open spec fn best_honest(t: Seq<char>, p: int, best: Option<(int, int, int)>) -> bool {
    best matches Some(z) ==> p <= z.2 <= t.len() && z.1 == span_bytes(t, p, z.2)
}

proof fn lemma_consider_max(t: Seq<char>, p: int, bi: int, a: Seq<char>, best: Option<(int, int, int)>)
    requires
        0 <= p <= t.len(),
        best_honest(t, p, best),
    ensures
        best_honest(t, p, consider(t, p, bi, a, best)),
        best matches Some(y) ==> best_at_least(t, p, consider(t, p, bi, a, best), y.1),
        normalized_match(t, a, p, 0) matches Some(x) ==> best_at_least(
            t,
            p,
            consider(t, p, bi, a, best),
            span_bytes(t, p, x),
        ),
{
    lemma_normalized_match_end(t, a, p, 0);
}

proof fn lemma_forms_max(t: Seq<char>, p: int, bi: int, m: int, best: Option<(int, int, int)>)
    requires
        0 <= p <= t.len(),
        best_honest(t, p, best),
        m <= candidates(bi as usize).len(),
    ensures
        best_honest(t, p, forms_fold(t, p, bi, m, best)),
        best matches Some(y) ==> best_at_least(t, p, forms_fold(t, p, bi, m, best), y.1),
        forall|k: int|
            0 <= k < m ==> (normalized_match(t, #[trigger] candidates(bi as usize)[k], p, 0) matches Some(x)
                ==> best_at_least(t, p, forms_fold(t, p, bi, m, best), span_bytes(t, p, x))),
    decreases m,
{
    if m > 0 {
        let prev = forms_fold(t, p, bi, m - 1, best);
        lemma_forms_max(t, p, bi, m - 1, best);
        lemma_consider_max(t, p, bi, candidates(bi as usize)[m - 1], prev);
    }
}

proof fn lemma_books_max(t: Seq<char>, p: int, n: int)
    requires
        0 <= p <= t.len(),
        n <= BOOK_COUNT,
    ensures
        best_honest(t, p, books_fold(t, p, n)),
        forall|bi: int, k: int|
            0 <= bi < n && 0 <= k < candidates(bi as usize).len() ==> (normalized_match(
                t,
                #[trigger] candidates(bi as usize)[k],
                p,
                0,
            ) matches Some(x) ==> best_at_least(t, p, books_fold(t, p, n), span_bytes(t, p, x))),
    decreases n,
{
    if n > 0 {
        let bi = n - 1;
        let prev = books_fold(t, p, n - 1);
        lemma_books_max(t, p, n - 1);
        lemma_forms_max(t, p, bi, candidates(bi as usize).len() as int, prev);
    }
}

proof fn lemma_span_bytes_grow(t: Seq<char>, p: int, a: int, b: int)
    requires
        0 <= p <= a < b <= t.len(),
    ensures
        span_bytes(t, p, a) < span_bytes(t, p, b),
{
    let w = t.subrange(p, b);
    lemma_bytes_strictly_grow(w, a - p, b - p);
    assert(w.take(a - p) =~= t.subrange(p, a));
    assert(w.take(b - p) =~= w);
}

proof fn lemma_digit_run_take(s: Seq<char>, k: int)
    requires
        digit_run(s) <= k <= s.len(),
    ensures
        digit_run(s.take(k)) == digit_run(s),
        leading_number(s.take(k)) == leading_number(s),
    decreases s.len(),
{
    if s.len() > 0 && is_digit(s[0]) {
        assert(s.take(k).drop_first() =~= s.drop_first().take(k - 1));
        lemma_digit_run_take(s.drop_first(), k - 1);
    } else if k > 0 {
        assert(s.take(k)[0] == s[0]);
    }
    let n = digit_run(s) as int;
    assert(s.take(k).take(n) =~= s.take(n));
}

/// A citation found at `p` is found just the same in the text cut to run
/// from any earlier `q` to the citation's end.
proof fn lemma_citation_local(t: Seq<char>, p: int, q: int)
    requires
        0 <= q < p <= t.len(),
        citation_at(t, p) is Some,
    ensures
        match citation_at(t, p) {
            Some(x) => citation_at(t.subrange(q, x.1), p - q) == Some((x.0, x.1 - q)),
            None => true,
        },
{
    let x = citation_at(t, p).unwrap();
    let end = x.1;
    lemma_citation_end(t, p);
    let u = t.subrange(q, end);
    let m = book_match(t, p).unwrap();
    lemma_book_match_bounds(t, p);
    lemma_books_max(t, p, BOOK_COUNT as int);
    let pos = if m.2 < t.len() && t[m.2] == ' ' {
        m.2 + 1
    } else {
        m.2
    };
    lemma_digit_run(t.skip(pos), 0);
    let ch = leading_number(t.skip(pos)).unwrap();
    let colon = pos + ch.1;
    lemma_digit_run(t.skip(colon + 1), 0);
    let v = leading_number(t.skip(colon + 1)).unwrap();
    let ev = colon + 1 + v.1;
    assert(m.2 < end);
    assert forall|bi: int, k: int|
        0 <= bi < BOOK_COUNT && 0 <= k < candidates(bi as usize).len() implies ends_by(
        t,
        #[trigger] candidates(bi as usize)[k],
        p,
        end,
    ) by {
        if let Some(y) = normalized_match(t, candidates(bi as usize)[k], p, 0) {
            lemma_normalized_match_end(t, candidates(bi as usize)[k], p, 0);
            if y > m.2 {
                lemma_span_bytes_grow(t, p, m.2, y);
            }
        }
    }
    lemma_books_local(t, p, BOOK_COUNT as int, q, end);
    assert(book_match(u, p - q) == shift_best(book_match(t, p), q));
    assert(u[m.2 - q] == t[m.2]);
    assert(u.skip(pos - q) =~= t.skip(pos).take(end - pos));
    lemma_digit_run_take(t.skip(pos), end - pos);
    assert(u[colon - q] == t[colon]);
    assert(u.skip(colon + 1 - q) =~= t.skip(colon + 1).take(end - colon - 1));
    lemma_digit_run_take(t.skip(colon + 1), end - colon - 1);
    if ev < end {
        assert(u[ev - q] == t[ev]);
        lemma_digit_run(t.skip(ev + 1), 0);
        assert(u.skip(ev + 1 - q) =~= t.skip(ev + 1).take(end - ev - 1));
        lemma_digit_run_take(t.skip(ev + 1), end - ev - 1);
    }
}

proof fn lemma_citations_parse(t: Seq<char>, i: int)
    requires
        0 <= i <= t.len(),
    ensures
        forall|k: int|
            0 <= k < citations_from(t, i).len() ==> citation_at(
                t,
                (#[trigger] citations_from(t, i)[k]).0 + 1,
            ) == Some((citations_from(t, i)[k].2, citations_from(t, i)[k].1)),
    decreases t.len() - i,
{
    if i < t.len() {
        match citation_at(t, i + 1) {
            Some(x) => {
                if t[i] == '@' && i < x.1 <= t.len() {
                    lemma_citations_parse(t, x.1);
                    let rest = citations_from(t, x.1);
                    let cs = citations_from(t, i);
                    assert forall|k: int| 0 <= k < cs.len() implies citation_at(
                        t,
                        (#[trigger] cs[k]).0 + 1,
                    ) == Some((cs[k].2, cs[k].1)) by {
                        if k > 0 {
                            assert(cs[k] == rest[k - 1]);
                        }
                    }
                } else {
                    lemma_citations_parse(t, i + 1);
                }
            },
            None => {
                lemma_citations_parse(t, i + 1);
            },
        }
    }
}

/// A found citation read on its own: the text of any citation that
/// `find_citations` finds, cut out from its '@' to its end, holds exactly
/// that one citation, spanning all of it.
pub proof fn lemma_found_citation_alone(t: Seq<char>, k: int)
    requires
        0 <= k < citations_from(t, 0).len(),
    ensures
        ({
            let f = citations_from(t, 0)[k];
            citations_from(t.subrange(f.0, f.1), 0) == seq![(0int, f.1 - f.0, f.2)]
        }),
{
    let f = citations_from(t, 0)[k];
    lemma_citations_placed(t, 0);
    lemma_citations_parse(t, 0);
    lemma_citation_local(t, f.0 + 1, f.0);
    let u = t.subrange(f.0, f.1);
    assert(u[0] == '@');
    assert(citation_at(u, 1) == Some((f.2, f.1 - f.0)));
    assert(citations_from(u, f.1 - f.0) =~= Seq::<(int, int, CitationView)>::empty());
    assert(citations_from(u, 0) =~= seq![(0int, f.1 - f.0, f.2)] + citations_from(u, f.1 - f.0));
}

// ---------------------------------------------------------------------------
// Autocomplete.

/// Position of the last '@' of `s`.
pub open spec fn last_at(s: Seq<char>) -> Option<int>
    decreases s.len(),
{
    if s.len() == 0 {
        None
    } else if s.last() == '@' {
        Some(s.len() - 1)
    } else {
        last_at(s.drop_last())
    }
}

proof fn lemma_last_at(s: Seq<char>)
    ensures
        last_at(s) matches Some(a) ==> 0 <= a < s.len() && s[a] == '@',
        last_at(s) is None ==> forall|j: int| 0 <= j < s.len() ==> s[j] != '@',
    decreases s.len(),
{
    if s.len() > 0 && s.last() != '@' {
        lemma_last_at(s.drop_last());
        assert forall|j: int| 0 <= j < s.len() - 1 implies s.drop_last()[j] == s[j] by {}
    }
}

/// A character that ends the book name being typed.
pub open spec fn ends_query(c: char) -> bool {
    char_is_whitespace(c) || is_digit(c) || c == ':'
}

/// The character position of a text whose prefix takes `b` bytes.
pub open spec fn char_pos_at(t: Seq<char>, b: int) -> int {
    choose|k: int| 0 <= k <= t.len() && byte_len(t.take(k)) == b
}

/// Whether `b` bytes into `t` falls between two characters (or at the end).
pub open spec fn on_boundary(t: Seq<char>, b: int) -> bool {
    exists|k: int| 0 <= k <= t.len() && byte_len(t.take(k)) == b
}

/// The book name being typed just before character position `k`: the text
/// after the last '@' before `k`, unless it holds a whitespace, a digit or a
/// ':'. Answers the '@' position and `k` as byte offsets, and the name.
pub open spec fn query_before(t: Seq<char>, k: int) -> Option<(int, int, Seq<char>)> {
    let before = t.take(k);
    match last_at(before) {
        None => None,
        Some(a) => {
            let q = before.skip(a + 1);
            if exists|j: int| 0 <= j < q.len() && ends_query(#[trigger] q[j]) {
                None
            } else {
                Some((byte_len(t.take(a)) as int, byte_len(before) as int, q))
            }
        },
    }
}

/// `query_before` at byte offset `cursor`, clamped to the end of `t`.
pub open spec fn query_at(t: Seq<char>, cursor: int) -> Option<(int, int, Seq<char>)> {
    let c = if cursor >= byte_len(t) {
        byte_len(t) as int
    } else {
        cursor
    };
    query_before(t, char_pos_at(t, c))
}

/// Whether byte offset `b` of `text` falls between two characters, or at
/// its end.
pub fn is_boundary_at(text: &str, b: usize) -> (r: bool)
    ensures
        r == on_boundary(text@, b as int),
{
    let t = chars_of(text);
    let total = byte_length(text);
    let mut k: usize = 0;
    let mut n: usize = 0;
    assert(t@.take(0) =~= Seq::<char>::empty());
    while n < b && k < t.len()
        invariant
            t@ == text@,
            total == byte_len(t@),
            k <= t@.len(),
            n == byte_len(t@.take(k as int)),
            forall|j: int| 0 <= j < k ==> byte_len(#[trigger] t@.take(j)) < b,
        decreases t@.len() - k,
    {
        proof {
            lemma_byte_len_step(t@, k as int);
            lemma_byte_len_prefix(t@, k + 1);
        }
        n = n + char_len_utf8(t[k]);
        k = k + 1;
    }
    proof {
        if n == b {
            assert(on_boundary(text@, b as int));
        } else {
            assert forall|j: int| 0 <= j <= t@.len() implies byte_len(#[trigger] t@.take(j)) != b by {
                if j > k {
                    lemma_bytes_strictly_grow(t@, k as int, j);
                }
            }
        }
    }
    n == b
}

pub proof fn lemma_bytes_strictly_grow(t: Seq<char>, j: int, k: int)
    requires
        0 <= j < k <= t.len(),
    ensures
        byte_len(t.take(j)) < byte_len(t.take(k)),
{
    lemma_byte_len_prefix(t.take(k), j);
    assert(t.take(k).take(j) =~= t.take(j));
}

/// The `@`-prefixed book name being typed at byte offset `cursor` (clamped
/// to the end of the text): the span from its '@' to the cursor, in bytes,
/// and the name typed so far. `None` when no '@' comes before the cursor or
/// a whitespace, digit or ':' has been typed since it.
pub fn citation_query_at_cursor(text: &str, cursor: usize) -> (r: Option<(usize, usize, String)>)
    requires
        cursor >= byte_len(text@) || on_boundary(text@, cursor as int),
    ensures
        match query_at(text@, cursor as int) {
            Some(x) => r matches Some(y) && y.0 == x.0 && y.1 == x.1 && y.2@ == x.2,
            None => r is None,
        },
{
    let n = byte_length(text);
    let t = chars_of(text);
    let c = if cursor >= n {
        n
    } else {
        cursor
    };
    proof {
        if cursor >= n {
            assert(t@.take(t@.len() as int) =~= t@);
        }
    }
    let ghost target = char_pos_at(t@, c as int);
    let mut k: usize = 0;
    let mut b: usize = 0;
    assert(t@.take(0) =~= Seq::<char>::empty());
    while b < c
        invariant
            t@ == text@,
            n == byte_len(t@),
            c <= n,
            0 <= target <= t@.len(),
            byte_len(t@.take(target)) == c,
            k <= target,
            b == byte_len(t@.take(k as int)),
        decreases target - k,
    {
        proof {
            if k == target {
                assert(false);
            }
            lemma_byte_len_step(t@, k as int);
            if k + 1 < target {
                lemma_bytes_strictly_grow(t@, k + 1, target);
            }
        }
        b = b + char_len_utf8(t[k]);
        k = k + 1;
    }
    proof {
        if k < target {
            lemma_bytes_strictly_grow(t@, k as int, target);
        }
    }
    assert(k == target);
    let ghost before = t@.take(k as int);
    // The last '@' before the cursor.
    let mut a = k;
    let mut ab = b;
    proof {
        lemma_last_at(before);
        assert(before.take(a as int) =~= before);
    }
    while a > 0 && t[a - 1] != '@'
        invariant
            a <= k <= t@.len(),
            before == t@.take(k as int),
            ab == byte_len(t@.take(a as int)),
            last_at(before) == last_at(before.take(a as int)),
        decreases a,
    {
        proof {
            lemma_byte_len_step(t@, a - 1);
            assert(before.take(a as int).drop_last() =~= before.take(a - 1));
        }
        ab = ab - char_len_utf8(t[a - 1]);
        a = a - 1;
    }
    if a == 0 {
        proof {
            assert(before.take(0) =~= Seq::<char>::empty());
            assert(last_at(before) is None);
            assert(char_pos_at(text@, c as int) == k);
            assert(query_before(text@, k as int) is None);
            assert(query_at(text@, cursor as int) is None);
        }
        return None;
    }
    let at = a - 1;
    proof {
        lemma_byte_len_step(t@, at as int);
        assert(before.take(a as int).last() == '@');
    }
    let at_byte = ab - char_len_utf8(t[at]);
    proof {
        assert(before.take(a as int).drop_last() =~= before.take(at as int));
        assert(last_at(before) == Some(at as int));
        assert(char_pos_at(text@, c as int) == k);
    }
    let ghost q = before.skip(at + 1);
    let mut j = a;
    let mut chars: Vec<char> = Vec::new();
    while j < k
        invariant
            a <= j <= k <= t@.len(),
            at + 1 == a,
            t@ == text@,
            last_at(before) == Some(at as int),
            query_at(text@, cursor as int) == query_before(text@, k as int),
            before == t@.take(k as int),
            q == before.skip(a as int),
            chars@ == q.take(j - a),
            forall|i: int| 0 <= i < j - a ==> !ends_query(#[trigger] q[i]),
        decreases k - j,
    {
        let ch = t[j];
        assert(q[j - a] == ch);
        if is_whitespace(ch) || ('0' <= ch && ch <= '9') || ch == ':' {
            assert(ends_query(q[j - a]));
            return None;
        }
        chars.push(ch);
        assert(chars@ =~= q.take(j - a + 1));
        j = j + 1;
    }
    assert(q.take(k - a) =~= q);
    Some((at_byte, c, string_from_chars(chars.as_slice())))
}

/// Whether `q` starts book `i`'s normalised name or one of its aliases.
pub open spec fn book_matches(q: Seq<char>, i: usize) -> bool {
    has_prefix(normalize_text(book_name(i)), q) || exists|j: int|
        0 <= j < book_aliases(i).len() && has_prefix(#[trigger] book_aliases(i)[j], q)
}

/// Names of the first `n` books that `q` matches, in canonical order.
pub open spec fn books_matching(q: Seq<char>, n: int) -> Seq<Seq<char>>
    decreases n,
{
    if n <= 0 {
        seq![]
    } else if book_matches(q, (n - 1) as usize) {
        books_matching(q, n - 1).push(book_name((n - 1) as usize))
    } else {
        books_matching(q, n - 1)
    }
}

fn prefix_chars(t: &Vec<char>, p: &Vec<char>) -> (r: bool)
    ensures
        r == has_prefix(t@, p@),
{
    if p.len() > t.len() {
        return false;
    }
    let mut i: usize = 0;
    while i < p.len()
        invariant
            p@.len() <= t@.len(),
            i <= p@.len(),
            forall|j: int| 0 <= j < i ==> t@[j] == p@[j],
        decreases p@.len() - i,
    {
        if t[i] != p[i] {
            assert(t@.subrange(0, p@.len() as int)[i as int] != p@[i as int]);
            return false;
        }
        i = i + 1;
    }
    assert(t@.subrange(0, p@.len() as int) =~= p@);
    true
}

/// Canonical names of the books whose normalised name or an alias starts
/// with the normalised `query`; none for an empty query.
pub fn search_books(query: &str) -> (r: Vec<&'static str>)
    ensures
        strs_view(r@) == (if query@.len() == 0 {
            Seq::<Seq<char>>::empty()
        } else {
            books_matching(normalize_text(query@), BOOK_COUNT as int)
        }),
{
    let mut out: Vec<&'static str> = Vec::new();
    if query.is_empty() {
        assert(strs_view(out@) =~= Seq::<Seq<char>>::empty());
        return out;
    }
    let q = normalize(query);
    let mut i: usize = 0;
    assert(strs_view(out@) =~= Seq::<Seq<char>>::empty());
    while i < BOOK_COUNT
        invariant
            i <= BOOK_COUNT,
            q@ == normalize_text(query@),
            strs_view(out@) == books_matching(q@, i as int),
        decreases BOOK_COUNT - i,
    {
        let name = book_name_at(i);
        let forms = candidate_forms(i);
        proof {
            assert(forms@.map_values(|v: Vec<char>| v@).len() == forms@.len());
            assert(candidates(i).len() == book_aliases(i).len() + 1);
            assert(forms@.map_values(|v: Vec<char>| v@)[0] == forms@[0]@);
        }
        let mut hit = prefix_chars(&forms[0], &q);
        let mut j: usize = 1;
        assert(forms@[0]@ == candidates(i)[0]);
        while j < forms.len() && !hit
            invariant
                1 <= j <= forms@.len(),
                forms@.map_values(|v: Vec<char>| v@) == candidates(i),
                hit ==> book_matches(q@, i),
                candidates(i).len() == book_aliases(i).len() + 1,
                forms@.len() == candidates(i).len(),
                !hit ==> !has_prefix(normalize_text(book_name(i)), q@) && forall|m: int|
                    0 <= m < j - 1 ==> !has_prefix(#[trigger] book_aliases(i)[m], q@),
            decreases forms@.len() - j,
        {
            assert(forms@.map_values(|v: Vec<char>| v@)[j as int] == forms@[j as int]@);
            assert(candidates(i).len() == book_aliases(i).len() + 1);
            assert(candidates(i)[j as int] == book_aliases(i)[j - 1]);
            if prefix_chars(&forms[j], &q) {
                hit = true;
            }
            j = j + 1;
        }
        assert(candidates(i).len() == book_aliases(i).len() + 1);
        if hit {
            let ghost before = strs_view(out@);
            out.push(name);
            assert(strs_view(out@) =~= before.push(name@));
        }
        i = i + 1;
    }
    out
}

// ---------------------------------------------------------------------------
// Canonical order.

/// How many whitespace characters `s` starts with.
pub open spec fn space_run(s: Seq<char>) -> nat
    decreases s.len(),
{
    if s.len() > 0 && char_is_whitespace(s[0]) {
        1 + space_run(s.drop_first())
    } else {
        0
    }
}

/// Chapter and verse of a display-form citation of book `i`: `t` starts
/// with the book's name, then optional whitespace, the chapter, ':' and the
/// verse.
pub open spec fn chapter_verse(t: Seq<char>, i: usize) -> Option<(u32, u32)> {
    let name = book_name(i);
    if has_prefix(t, name) {
        let rest0 = t.skip(name.len() as int);
        let rest = rest0.skip(space_run(rest0) as int);
        match leading_number(rest) {
            Some(ch) => if ch.1 < rest.len() && rest[ch.1 as int] == ':' {
                match leading_number(rest.skip(ch.1 as int + 1)) {
                    Some(v) => Some((ch.0, v.0)),
                    None => None,
                }
            } else {
                None
            },
            None => None,
        }
    } else {
        None
    }
}

/// The sort key of a tag, trying the books from `i` on: the first book
/// whose display-form citation the tag is, with its chapter and verse.
pub open spec fn sort_scan(t: Seq<char>, i: int) -> (int, u32, u32)
    decreases BOOK_COUNT - i,
{
    if i < 0 || i >= BOOK_COUNT {
        (usize::MAX as int, 0, 0)
    } else {
        match chapter_verse(t, i as usize) {
            Some(cv) => (i, cv.0, cv.1),
            None => sort_scan(t, i + 1),
        }
    }
}

proof fn lemma_space_run(s: Seq<char>, k: int)
    requires
        0 <= k <= space_run(s),
    ensures
        space_run(s) <= s.len(),
        forall|j: int| 0 <= j < k ==> char_is_whitespace(#[trigger] s[j]),
        k == space_run(s) ==> !(k < s.len() && char_is_whitespace(s[k])),
    decreases s.len(),
{
    if s.len() > 0 && char_is_whitespace(s[0]) {
        if k > 0 {
            lemma_space_run(s.drop_first(), k - 1);
            assert forall|j: int| 0 <= j < k implies char_is_whitespace(#[trigger] s[j]) by {
                if j > 0 {
                    assert(s[j] == s.drop_first()[j - 1]);
                }
            }
        } else {
            lemma_space_run(s.drop_first(), 0);
        }
    }
}

/// Chapter and verse of `t` read as a citation of book `i`.
fn chapter_verse_exec(t: &Vec<char>, i: usize) -> (r: Option<(u32, u32)>)
    ensures
        r == chapter_verse(t@, i),
{
    let name = chars_of(book_name_at(i));
    if !prefix_chars(t, &name) {
        return None;
    }
    let ghost rest0 = t@.skip(name@.len() as int);
    let mut p = name.len();
    proof {
        lemma_space_run(rest0, 0);
        lemma_space_run(rest0, space_run(rest0) as int);
    }
    while p < t.len() && is_whitespace(t[p])
        invariant
            name@.len() <= p <= t@.len(),
            rest0 == t@.skip(name@.len() as int),
            p - name@.len() <= space_run(rest0),
            forall|j: int| 0 <= j < space_run(rest0) ==> char_is_whitespace(#[trigger] rest0[j]),
            space_run(rest0) <= rest0.len(),
        decreases t@.len() - p,
    {
        assert(rest0[p - name@.len()] == t@[p as int]);
        proof {
            if p - name@.len() == space_run(rest0) {
                lemma_space_run(rest0, space_run(rest0) as int);
            }
        }
        p = p + 1;
    }
    proof {
        if p - name@.len() < space_run(rest0) {
            assert(char_is_whitespace(rest0[p - name@.len()]));
            assert(rest0[p - name@.len()] == t@[p as int]);
        }
    }
    let ghost rest = rest0.skip(space_run(rest0) as int);
    assert(t@.skip(p as int) =~= rest);
    let (chapter, len) = match take_digits(t, p) {
        Some(x) => x,
        None => return None,
    };
    proof {
        lemma_digit_run(rest, 0);
    }
    let colon = p + len;
    if !(colon < t.len() && t[colon] == ':') {
        return None;
    }
    assert(t@.skip(colon + 1) =~= rest.skip(len + 1));
    match take_digits(t, colon + 1) {
        Some((verse, _)) => Some((chapter, verse)),
        None => None,
    }
}

/// Sort key putting display-form citations ("John 3:16") in canonical
/// order: book index, chapter, verse, then the tag; anything else sorts
/// after every citation, by its text.
pub fn sort_key(tag: &str) -> (r: (usize, u32, u32, String))
    ensures
        (r.0 as int, r.1, r.2) == sort_scan(tag@, 0),
        r.3@ == tag@,
{
    let t = chars_of(tag);
    let mut i: usize = 0;
    while i < BOOK_COUNT
        invariant
            i <= BOOK_COUNT,
            t@ == tag@,
            sort_scan(t@, 0) == sort_scan(t@, i as int),
        decreases BOOK_COUNT - i,
    {
        if let Some((chapter, verse)) = chapter_verse_exec(&t, i) {
            return (i, chapter, verse, owned(tag));
        }
        i = i + 1;
    }
    (usize::MAX, 0, 0, owned(tag))
}

} // verus!
