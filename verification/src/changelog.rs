//! Changelog lines as Pango markup: `**bold**`, `` `code` `` and
//! `[text](url)` links (kept as their text) of the changelog's Markdown.

use vstd::prelude::*;

use crate::git_sync::{first_from, first_occurrence, lemma_first_from};
use crate::palette::markup_escaped;
use crate::text::{chars_of, occurs_at, push_char, push_str};

verus! {

/// Where `pat` first occurs in `s`, or the end of `s` when it does not.
pub open spec fn upto(s: Seq<char>, pat: Seq<char>) -> int {
    match first_from(s, pat, 0) {
        Some(j) => j,
        None => s.len() as int,
    }
}

/// What follows the first `pat` of `s`: nothing when there is none.
pub open spec fn after(s: Seq<char>, pat: Seq<char>) -> Seq<char> {
    let j = upto(s, pat);
    if j < s.len() {
        s.skip(j + pat.len())
    } else {
        seq![]
    }
}

/// A plain character of the line: '&', '<' and '>' become entities.
pub open spec fn plain_char(c: char) -> Seq<char> {
    if c == '&' {
        "&amp;"@
    } else if c == '<' {
        "&lt;"@
    } else if c == '>' {
        "&gt;"@
    } else {
        seq![c]
    }
}

pub proof fn lemma_upto(s: Seq<char>, pat: Seq<char>)
    requires
        pat.len() > 0,
    ensures
        0 <= upto(s, pat) <= s.len(),
        upto(s, pat) < s.len() ==> upto(s, pat) + pat.len() <= s.len(),
        after(s, pat).len() < s.len() + 1,
        s.len() > 0 ==> after(s, pat).len() < s.len() || upto(s, pat) == s.len(),
{
    lemma_first_from(s, pat, 0);
}

/// The markup of a changelog line: a bold span runs to the next "**" (or the
/// end), a code span to the next '`', a link's text to the next ']' and, when
/// a '(' follows, its target to the next ')' is dropped; span contents are
/// escaped as markup, other characters only for '&', '<' and '>'.
pub open spec fn md_markup(s: Seq<char>) -> Seq<char>
    decreases s.len(),
{
    if s.len() == 0 {
        seq![]
    } else if s[0] == '*' && s.len() >= 2 && s[1] == '*' {
        let rest = s.skip(2);
        proof {
            lemma_upto(rest, seq!['*', '*']);
        }
        "<b>"@ + markup_escaped(rest.take(upto(rest, seq!['*', '*']))) + "</b>"@ + md_markup(after(rest, seq!['*', '*']))
    } else if s[0] == '`' {
        let rest = s.skip(1);
        proof {
            lemma_upto(rest, seq!['`']);
        }
        "<tt>"@ + markup_escaped(rest.take(upto(rest, seq!['`']))) + "</tt>"@ + md_markup(after(rest, seq!['`']))
    } else if s[0] == '[' {
        let rest = s.skip(1);
        proof {
            lemma_upto(rest, seq![']']);
        }
        let tail = after(rest, seq![']']);
        if tail.len() > 0 && tail[0] == '(' {
            proof {
                lemma_upto(tail.skip(1), seq![')']);
            }
            markup_escaped(rest.take(upto(rest, seq![']']))) + md_markup(after(tail.skip(1), seq![')']))
        } else {
            markup_escaped(rest.take(upto(rest, seq![']']))) + md_markup(tail)
        }
    } else {
        plain_char(s[0]) + md_markup(s.skip(1))
    }
}

proof fn lemma_first_from_skip(s: Seq<char>, pat: Seq<char>, a: int, k: int)
    requires
        0 <= a <= s.len(),
        0 <= k,
    ensures
        first_from(s.skip(a), pat, k) == (match first_from(s, pat, a + k) {
            Some(j) => Some(j - a),
            None => None,
        }),
    decreases s.len() + 1 - (a + k),
{
    if a + k + pat.len() <= s.len() {
        assert(s.skip(a).subrange(k, k + pat.len()) =~= s.subrange(a + k, a + k + pat.len()));
        assert(occurs_at(s.skip(a), pat, k) == occurs_at(s, pat, a + k));
        lemma_first_from_skip(s, pat, a, k + 1);
    }
}

/// Where `pat` next occurs in `cs` from `from` on, or the end.
fn find_from(cs: &Vec<char>, pat: &Vec<char>, from: usize) -> (r: usize)
    requires
        from <= cs@.len(),
        pat@.len() > 0,
    ensures
        r == from + upto(cs@.skip(from as int), pat@),
        from <= r <= cs@.len(),
        r < cs@.len() ==> r + pat@.len() <= cs@.len(),
{
    proof {
        lemma_first_from_skip(cs@, pat@, from as int, 0);
        lemma_first_from(cs@, pat@, from as int);
    }
    match first_occurrence(cs, pat, from) {
        Some(j) => j,
        None => cs.len(),
    }
}

fn bold_step(out: &mut String, cs: &Vec<char>, i: usize) -> (next: usize)
    requires
        i + 1 < cs@.len(),
        cs@[i as int] == '*',
        cs@[i + 1] == '*',
    ensures
        i < next <= cs@.len(),
        final(out)@ + md_markup(cs@.skip(next as int)) == old(out)@ + md_markup(cs@.skip(i as int)),
{
    let n = cs.len();
    let stars: Vec<char> = vec!['*', '*'];
    assert(stars@ =~= seq!['*', '*']);
    let ghost t = cs@.skip(i as int);
    let ghost before = out@;
    assert(t.skip(2) =~= cs@.skip(i + 2));
    let j = find_from(cs, &stars, i + 2);
    push_str(out, "<b>");
    crate::palette::escape_range(out, cs, i + 2, j);
    push_str(out, "</b>");
    let next = if j < n {
        j + 2
    } else {
        n
    };
    proof {
        let rest = cs@.skip(i + 2);
        assert(rest.take(j - (i + 2)) =~= cs@.subrange(i + 2, j as int));
        if j < n {
            assert(rest.skip(j - (i + 2) + 2) =~= cs@.skip(next as int));
        } else {
            assert(cs@.skip(n as int) =~= Seq::<char>::empty());
        }
        assert(t[0] == '*' && t[1] == '*');
    }
    next
}

fn code_step(out: &mut String, cs: &Vec<char>, i: usize) -> (next: usize)
    requires
        i < cs@.len(),
        cs@[i as int] == '`',
    ensures
        i < next <= cs@.len(),
        final(out)@ + md_markup(cs@.skip(next as int)) == old(out)@ + md_markup(cs@.skip(i as int)),
{
    let n = cs.len();
    let tick: Vec<char> = vec!['`'];
    assert(tick@ =~= seq!['`']);
    let ghost t = cs@.skip(i as int);
    assert(t.skip(1) =~= cs@.skip(i + 1));
    let j = find_from(cs, &tick, i + 1);
    push_str(out, "<tt>");
    crate::palette::escape_range(out, cs, i + 1, j);
    push_str(out, "</tt>");
    let next = if j < n {
        j + 1
    } else {
        n
    };
    proof {
        let rest = cs@.skip(i + 1);
        assert(rest.take(j - (i + 1)) =~= cs@.subrange(i + 1, j as int));
        if j < n {
            assert(rest.skip(j - (i + 1) + 1) =~= cs@.skip(next as int));
        } else {
            assert(cs@.skip(n as int) =~= Seq::<char>::empty());
        }
        assert(t[0] == '`');
        assert(!(t[0] == '*'));
    }
    next
}

fn link_step(out: &mut String, cs: &Vec<char>, i: usize) -> (next: usize)
    requires
        i < cs@.len(),
        cs@[i as int] == '[',
    ensures
        i < next <= cs@.len(),
        final(out)@ + md_markup(cs@.skip(next as int)) == old(out)@ + md_markup(cs@.skip(i as int)),
{
    let n = cs.len();
    let close_bracket: Vec<char> = vec![']'];
    let close_paren: Vec<char> = vec![')'];
    assert(close_bracket@ =~= seq![']']);
    assert(close_paren@ =~= seq![')']);
    let ghost t = cs@.skip(i as int);
    assert(t.skip(1) =~= cs@.skip(i + 1));
    let j = find_from(cs, &close_bracket, i + 1);
    crate::palette::escape_range(out, cs, i + 1, j);
    let next = if j < n {
        j + 1
    } else {
        n
    };
    proof {
        let rest = cs@.skip(i + 1);
        assert(rest.take(j - (i + 1)) =~= cs@.subrange(i + 1, j as int));
        if j < n {
            assert(rest.skip(j - (i + 1) + 1) =~= cs@.skip(next as int));
        } else {
            assert(cs@.skip(n as int) =~= Seq::<char>::empty());
        }
        assert(after(rest, seq![']']) == cs@.skip(next as int));
        assert(t[0] == '[');
    }
    if next < n && cs[next] == '(' {
        let ghost tail = cs@.skip(next as int);
        assert(tail.skip(1) =~= cs@.skip(next + 1));
        assert(tail[0] == '(');
        let k = find_from(cs, &close_paren, next + 1);
        let next2 = if k < n {
            k + 1
        } else {
            n
        };
        proof {
            let r2 = cs@.skip(next + 1);
            if k < n {
                assert(r2.skip(k - (next + 1) + 1) =~= cs@.skip(next2 as int));
            } else {
                assert(cs@.skip(n as int) =~= Seq::<char>::empty());
            }
            assert(after(tail.skip(1), seq![')']) == cs@.skip(next2 as int));
        }
        next2
    } else {
        proof {
            if next >= n {
                assert(cs@.skip(next as int) =~= Seq::<char>::empty());
            }
        }
        next
    }
}

fn plain_step(out: &mut String, cs: &Vec<char>, i: usize) -> (next: usize)
    requires
        i < cs@.len(),
        !(cs@[i as int] == '*' && i + 1 < cs@.len() && cs@[i + 1] == '*'),
        cs@[i as int] != '`',
        cs@[i as int] != '[',
    ensures
        next == i + 1,
        final(out)@ + md_markup(cs@.skip(next as int)) == old(out)@ + md_markup(cs@.skip(i as int)),
{
    let n = cs.len();
    let ghost t = cs@.skip(i as int);
    let ghost before = out@;
    let c = cs[i];
    assert(t[0] == c);
    if c == '&' {
        push_str(out, "&amp;");
    } else if c == '<' {
        push_str(out, "&lt;");
    } else if c == '>' {
        push_str(out, "&gt;");
    } else {
        push_char(out, c);
        assert(out@ =~= before + seq![c]);
    }
    assert(t.skip(1) =~= cs@.skip(i + 1));
    assert(!(t[0] == '*' && t.len() >= 2 && t[1] == '*'));
    i + 1
}

/// A changelog line's inline Markdown as Pango markup.
pub fn md_inline_to_pango(s: &str) -> (r: String)
    ensures
        r@ == md_markup(s@),
{
    let cs = chars_of(s);
    let n = cs.len();
    let mut out = String::new();
    let mut i: usize = 0;
    assert(cs@.skip(0) =~= cs@);
    while i < n
        invariant
            n == cs@.len(),
            i <= n,
            cs@ == s@,
            md_markup(s@) == out@ + md_markup(cs@.skip(i as int)),
        decreases n - i,
    {
        let c = cs[i];
        if c == '*' && i + 1 < n && cs[i + 1] == '*' {
            i = bold_step(&mut out, &cs, i);
        } else if c == '`' {
            i = code_step(&mut out, &cs, i);
        } else if c == '[' {
            i = link_step(&mut out, &cs, i);
        } else {
            i = plain_step(&mut out, &cs, i);
        }
    }
    assert(cs@.skip(n as int) =~= Seq::<char>::empty());
    out
}

} // verus!
