//! Text building blocks shared by the rest of the crate: the few std string
//! and character operations the logic needs, each behind a small trusted
//! wrapper, plus verified helpers built on them.

use vstd::prelude::*;

verus! {

/// A character of the ASCII range.
pub open spec fn ascii_char(c: char) -> bool {
    (c as u32) < 128
}

/// A text of ASCII characters only.
pub open spec fn ascii_text(s: Seq<char>) -> bool {
    forall|i: int| 0 <= i < s.len() ==> ascii_char(#[trigger] s[i])
}

/// An ASCII capital letter, 'A' to 'Z'.
pub open spec fn ascii_upper(c: char) -> bool {
    65 <= (c as u32) <= 90
}

/// An ASCII letter or digit.
pub open spec fn ascii_alnum(c: char) -> bool {
    ascii_upper(c) || 97 <= (c as u32) <= 122 || 48 <= (c as u32) <= 57
}

/// The ASCII lowercase of a character: capitals become small letters, every
/// other character stays.
pub open spec fn ascii_lower(c: char) -> char {
    if ascii_upper(c) {
        ((c as u32) + 32) as char
    } else {
        c
    }
}

/// What `char::is_alphanumeric` answers for a character beyond ASCII.
pub uninterp spec fn alphanumeric_beyond_ascii(c: char) -> bool;

/// What `char::is_alphanumeric` answers: for ASCII, the letters and digits.
pub open spec fn char_is_alphanumeric(c: char) -> bool {
    if ascii_char(c) {
        ascii_alnum(c)
    } else {
        alphanumeric_beyond_ascii(c)
    }
}

/// What `char::is_whitespace` answers: the characters of the Unicode
/// White_Space property, U+0009 to U+000D, U+0020, U+0085, U+00A0, U+1680,
/// U+2000 to U+200A, U+2028, U+2029, U+202F, U+205F and U+3000.
pub open spec fn char_is_whitespace(c: char) -> bool {
    let u = c as u32;
    (9 <= u <= 13) || u == 0x20 || u == 0x85 || u == 0xA0 || u == 0x1680 || (0x2000 <= u
        <= 0x200A) || u == 0x2028 || u == 0x2029 || u == 0x202F || u == 0x205F || u == 0x3000
}

/// What `str::to_lowercase` returns for a text holding a character beyond
/// ASCII.
pub uninterp spec fn lowercase_beyond_ascii(s: Seq<char>) -> Seq<char>;

/// What `str::to_lowercase` returns: for an ASCII text, each capital made
/// small.
pub open spec fn lowercase_text(s: Seq<char>) -> Seq<char> {
    if ascii_text(s) {
        s.map_values(|c: char| ascii_lower(c))
    } else {
        lowercase_beyond_ascii(s)
    }
}

/// `char::is_alphanumeric`: Unicode Alphabetic or Numeric, which in ASCII
/// are the letters and digits. Beyond ASCII its answer is named
/// `alphanumeric_beyond_ascii`.
#[verifier::external_body]
pub(crate) fn is_alphanumeric(c: char) -> (r: bool)
    ensures
        r == char_is_alphanumeric(c),
        !ascii_char(c) ==> r == alphanumeric_beyond_ascii(c),
{
    c.is_alphanumeric()
}

/// `char::is_whitespace`: the Unicode White_Space property, whose 25
/// characters `char_is_whitespace` lists.
#[verifier::external_body]
pub(crate) fn is_whitespace(c: char) -> (r: bool)
    ensures
        r == char_is_whitespace(c),
{
    c.is_whitespace()
}

/// `str::to_lowercase`: the Unicode lowercase mapping of the whole text,
/// which on ASCII makes each capital small. Beyond ASCII its result is
/// named `lowercase_beyond_ascii`.
#[verifier::external_body]
pub(crate) fn to_lowercase(s: &str) -> (r: String)
    ensures
        r@ == lowercase_text(s@),
        !ascii_text(s@) ==> r@ == lowercase_beyond_ascii(s@),
{
    s.to_lowercase()
}

/// `String::push`: appends one character.
#[verifier::external_body]
pub(crate) fn push_char(s: &mut String, c: char)
    ensures
        final(s)@ == old(s)@.push(c),
{
    s.push(c)
}

/// `str::chars`, collected: the characters of a text in order.
#[verifier::external_body]
pub(crate) fn chars_of(s: &str) -> (r: Vec<char>)
    ensures
        r@ == s@,
{
    s.chars().collect()
}

/// `String` from characters, via `FromIterator<char>`.
#[verifier::external_body]
pub(crate) fn string_from_chars(v: &[char]) -> (r: String)
    ensures
        r@ == v@,
{
    v.iter().collect()
}

/// `PartialEq` for `str`: equal exactly when the characters are.
#[verifier::external_body]
pub(crate) fn str_eq(a: &str, b: &str) -> (r: bool)
    ensures
        r == (a@ == b@),
{
    a == b
}

/// Copies a text into a new `String`.
pub fn owned(s: &str) -> (r: String)
    ensures
        r@ == s@,
{
    String::from_str(s)
}

/// Appends `t` to `s`.
pub fn push_str(s: &mut String, t: &str)
    ensures
        final(s)@ == old(s)@ + t@,
{
    s.append(t);
}

/// Concatenation of a sequence of texts.
pub open spec fn concat_all(parts: Seq<Seq<char>>) -> Seq<char>
    decreases parts.len(),
{
    if parts.len() == 0 {
        seq![]
    } else {
        concat_all(parts.drop_last()) + parts.last()
    }
}

/// Decimal digits of a natural number, most significant first.
pub open spec fn decimal_text(n: nat) -> Seq<char>
    decreases n,
{
    if n < 10 {
        seq![digit_char(n)]
    } else {
        decimal_text(n / 10).push(digit_char(n % 10))
    }
}

pub open spec fn digit_char(d: nat) -> char {
    if d == 0 {
        '0'
    } else if d == 1 {
        '1'
    } else if d == 2 {
        '2'
    } else if d == 3 {
        '3'
    } else if d == 4 {
        '4'
    } else if d == 5 {
        '5'
    } else if d == 6 {
        '6'
    } else if d == 7 {
        '7'
    } else if d == 8 {
        '8'
    } else {
        '9'
    }
}

fn digit(d: u64) -> (r: char)
    requires
        d < 10,
    ensures
        r == digit_char(d as nat),
{
    if d == 0 {
        '0'
    } else if d == 1 {
        '1'
    } else if d == 2 {
        '2'
    } else if d == 3 {
        '3'
    } else if d == 4 {
        '4'
    } else if d == 5 {
        '5'
    } else if d == 6 {
        '6'
    } else if d == 7 {
        '7'
    } else if d == 8 {
        '8'
    } else {
        '9'
    }
}

/// Decimal text of `n`, as `to_string` writes an unsigned integer.
pub fn decimal(n: u64) -> (r: String)
    ensures
        r@ == decimal_text(n as nat),
    decreases n,
{
    if n < 10 {
        let mut s = String::new();
        push_char(&mut s, digit(n));
        s
    } else {
        let mut s = decimal(n / 10);
        push_char(&mut s, digit(n % 10));
        s
    }
}

/// Whether `s` occurs in `t` starting at position `i`.
pub open spec fn occurs_at(t: Seq<char>, s: Seq<char>, i: int) -> bool {
    0 <= i && i + s.len() <= t.len() && t.subrange(i, i + s.len()) == s
}

/// Whether `s` occurs anywhere in `t`, as `str::contains` answers.
pub open spec fn contains_text(t: Seq<char>, s: Seq<char>) -> bool {
    exists|i: int| occurs_at(t, s, i)
}

fn occurs_at_exec(t: &Vec<char>, s: &Vec<char>, i: usize) -> (r: bool)
    requires
        i + s@.len() <= t@.len(),
    ensures
        r == occurs_at(t@, s@, i as int),
{
    let mut k: usize = 0;
    let tn = t.len();
    while k < s.len()
        invariant
            tn == t@.len(),
            k <= s@.len(),
            i + s@.len() <= t@.len(),
            forall|j: int| 0 <= j < k ==> t@[i + j] == s@[j],
        decreases s@.len() - k,
    {
        if t[i + k] != s[k] {
            assert(t@.subrange(i as int, i + s@.len())[k as int] != s@[k as int]);
            return false;
        }
        k = k + 1;
    }
    assert(t@.subrange(i as int, i + s@.len()) =~= s@);
    true
}

/// Substring search on character sequences.
pub fn contains_chars(t: &Vec<char>, s: &Vec<char>) -> (r: bool)
    ensures
        r == contains_text(t@, s@),
{
    if s.len() > t.len() {
        return false;
    }
    let last = t.len() - s.len();
    let mut i: usize = 0;
    loop
        invariant
            last == t@.len() - s@.len(),
            s@.len() <= t@.len(),
            i <= last,
            forall|j: int| 0 <= j < i ==> !occurs_at(t@, s@, j),
        decreases last - i,
    {
        if occurs_at_exec(t, s, i) {
            return true;
        }
        if i == last {
            assert forall|j: int| !occurs_at(t@, s@, j) by {
                if 0 <= j < i {
                }
            }
            return false;
        }
        i = i + 1;
    }
}

/// `str::contains` for a text pattern.
pub fn contains(t: &str, s: &str) -> (r: bool)
    ensures
        r == contains_text(t@, s@),
{
    let tc = chars_of(t);
    let sc = chars_of(s);
    contains_chars(&tc, &sc)
}

/// Whether `p` is a prefix of `t`, as `str::starts_with` answers.
pub open spec fn has_prefix(t: Seq<char>, p: Seq<char>) -> bool {
    p.len() <= t.len() && t.subrange(0, p.len() as int) == p
}

/// `str::starts_with` for a text pattern.
pub fn starts_with(t: &str, p: &str) -> (r: bool)
    ensures
        r == has_prefix(t@, p@),
{
    let tc = chars_of(t);
    let pc = chars_of(p);
    if pc.len() > tc.len() {
        return false;
    }
    let r = occurs_at_exec(&tc, &pc, 0);
    r
}

/// Whether every character of a text is whitespace (so `trim` leaves it empty).
pub open spec fn is_blank_text(s: Seq<char>) -> bool {
    forall|i: int| 0 <= i < s.len() ==> char_is_whitespace(#[trigger] s[i])
}

/// `s.trim().is_empty()`.
pub fn is_blank(s: &str) -> (r: bool)
    ensures
        r == is_blank_text(s@),
{
    let cs = chars_of(s);
    let mut i: usize = 0;
    while i < cs.len()
        invariant
            cs@ == s@,
            i <= cs@.len(),
            forall|j: int| 0 <= j < i ==> char_is_whitespace(#[trigger] cs@[j]),
        decreases cs@.len() - i,
    {
        if !is_whitespace(cs[i]) {
            return false;
        }
        i = i + 1;
    }
    true
}

} // verus!

verus! {

/// The texts between occurrences of `sep`, as `str::split` yields them: one
/// empty text for an empty input, and an empty text at either end where
/// `sep` starts or ends the input.
pub open spec fn split_on(s: Seq<char>, sep: char) -> Seq<Seq<char>>
    decreases s.len(),
{
    if s.len() == 0 {
        seq![seq![]]
    } else {
        let rest = split_on(s.drop_last(), sep);
        if s.last() == sep {
            rest.push(seq![])
        } else {
            rest.update(rest.len() - 1, rest.last().push(s.last()))
        }
    }
}

proof fn lemma_split_nonempty(s: Seq<char>, sep: char)
    ensures
        split_on(s, sep).len() >= 1,
    decreases s.len(),
{
    if s.len() > 0 {
        lemma_split_nonempty(s.drop_last(), sep);
    }
}

/// `str::split` on a character, collected.
pub fn split_char(s: &str, sep: char) -> (r: Vec<String>)
    ensures
        r@.map_values(|t: String| t@) == split_on(s@, sep),
{
    let cs = chars_of(s);
    let mut parts: Vec<String> = Vec::new();
    let mut cur = String::new();
    let mut i: usize = 0;
    assert(cs@.take(0) =~= Seq::<char>::empty());
    while i < cs.len()
        invariant
            cs@ == s@,
            i <= cs@.len(),
            parts@.map_values(|t: String| t@).push(cur@) == split_on(cs@.take(i as int), sep),
        decreases cs@.len() - i,
    {
        let c = cs[i];
        proof {
            assert(cs@.take(i + 1).drop_last() =~= cs@.take(i as int));
            assert(cs@.take(i + 1).last() == c);
            lemma_split_nonempty(cs@.take(i as int), sep);
        }
        let ghost before = parts@.map_values(|t: String| t@);
        if c == sep {
            let done = cur;
            parts.push(done);
            cur = String::new();
            assert(parts@.map_values(|t: String| t@) =~= before.push(done@));
            assert(parts@.map_values(|t: String| t@).push(cur@) =~= before.push(done@).push(
                seq![],
            ));
        } else {
            let ghost old_cur = cur@;
            push_char(&mut cur, c);
            assert(parts@.map_values(|t: String| t@) =~= before);
            assert(before.push(cur@) =~= before.push(old_cur).update(before.len() as int, old_cur.push(c)));
        }
        i = i + 1;
    }
    assert(cs@.take(cs@.len() as int) =~= cs@);
    let ghost before = parts@.map_values(|t: String| t@);
    let last = cur;
    parts.push(last);
    assert(parts@.map_values(|t: String| t@) =~= before.push(last@));
    parts
}

pub open spec fn is_digit(c: char) -> bool {
    '0' <= c <= '9'
}

/// Value of a run of decimal digits, most significant first.
pub open spec fn digits_value(t: Seq<char>) -> int
    decreases t.len(),
{
    if t.len() == 0 {
        0
    } else {
        digits_value(t.drop_last()) * 10 + (t.last() as int - '0' as int)
    }
}

pub open spec fn all_digits(t: Seq<char>) -> bool {
    t.len() > 0 && forall|i: int| 0 <= i < t.len() ==> is_digit(#[trigger] t[i])
}

/// What `str::parse::<i32>` gives: an optional `+` or `-` sign followed by
/// one or more ASCII digits, whose value fits in an `i32`; anything else is
/// an error (`None` here).
pub open spec fn parse_i32_text(s: Seq<char>) -> Option<i32> {
    if s.len() > 0 && s[0] == '-' {
        let t = s.drop_first();
        if all_digits(t) && -digits_value(t) >= i32::MIN {
            Some((-digits_value(t)) as i32)
        } else {
            None
        }
    } else {
        let t = if s.len() > 0 && s[0] == '+' {
            s.drop_first()
        } else {
            s
        };
        if all_digits(t) && digits_value(t) <= i32::MAX {
            Some(digits_value(t) as i32)
        } else {
            None
        }
    }
}

/// `str::parse::<i32>`, with the error dropped.
#[verifier::external_body]
pub(crate) fn parse_i32(s: &str) -> (r: Option<i32>)
    ensures
        r == parse_i32_text(s@),
{
    s.parse::<i32>().ok()
}

} // verus!

verus! {

/// What `char::to_lowercase` yields for a character beyond ASCII,
/// collected.
pub uninterp spec fn char_lower_beyond_ascii(c: char) -> Seq<char>;

/// What `char::to_lowercase` yields for a character, collected: for ASCII,
/// the character made small.
pub open spec fn char_lower_text(c: char) -> Seq<char> {
    if ascii_char(c) {
        seq![ascii_lower(c)]
    } else {
        char_lower_beyond_ascii(c)
    }
}

/// `char::to_lowercase`, collected into a `String`. The documentation
/// promises one or more characters; on ASCII it is the character made
/// small. Beyond ASCII its result is named `char_lower_beyond_ascii`.
#[verifier::external_body]
pub(crate) fn char_to_lowercase(c: char) -> (r: String)
    ensures
        r@ == char_lower_text(c),
        !ascii_char(c) ==> r@ == char_lower_beyond_ascii(c),
        r@.len() >= 1,
{
    c.to_lowercase().collect()
}

/// Number of bytes UTF-8 takes for a character.
pub open spec fn utf8_len(c: char) -> nat {
    if (c as u32) < 0x80 {
        1
    } else if (c as u32) < 0x800 {
        2
    } else if (c as u32) < 0x10000 {
        3
    } else {
        4
    }
}

/// Length in bytes of the UTF-8 encoding of a text.
pub open spec fn byte_len(s: Seq<char>) -> nat
    decreases s.len(),
{
    if s.len() == 0 {
        0
    } else {
        byte_len(s.drop_last()) + utf8_len(s.last())
    }
}

/// `char::len_utf8`.
pub fn char_len_utf8(c: char) -> (r: usize)
    ensures
        r == utf8_len(c),
        1 <= r <= 4,
{
    let v = c as u32;
    if v < 0x80 {
        1
    } else if v < 0x800 {
        2
    } else if v < 0x10000 {
        3
    } else {
        4
    }
}

/// `str::len`: the length of the text in bytes.
#[verifier::external_body]
pub(crate) fn byte_length(s: &str) -> (r: usize)
    ensures
        r == byte_len(s@),
{
    s.len()
}

/// Bytes of a concatenation add up.
pub proof fn lemma_byte_len_concat(a: Seq<char>, b: Seq<char>)
    ensures
        byte_len(a + b) == byte_len(a) + byte_len(b),
    decreases b.len(),
{
    if b.len() == 0 {
        assert(a + b =~= a);
    } else {
        lemma_byte_len_concat(a, b.drop_last());
        assert((a + b).drop_last() =~= a + b.drop_last());
    }
}

/// A prefix takes no more bytes than the whole, and each character at least one.
pub proof fn lemma_byte_len_prefix(s: Seq<char>, k: int)
    requires
        0 <= k <= s.len(),
    ensures
        byte_len(s.take(k)) <= byte_len(s),
        byte_len(s.take(k)) + (s.len() - k) <= byte_len(s),
    decreases s.len() - k,
{
    if k < s.len() {
        lemma_byte_len_prefix(s, k + 1);
        assert(s.take(k + 1).drop_last() =~= s.take(k));
    } else {
        assert(s.take(k) =~= s);
    }
}

/// The bytes of `s.take(k + 1)` are those of `s.take(k)` and of `s[k]`.
pub proof fn lemma_byte_len_step(s: Seq<char>, k: int)
    requires
        0 <= k < s.len(),
    ensures
        byte_len(s.take(k + 1)) == byte_len(s.take(k)) + utf8_len(s[k]),
{
    assert(s.take(k + 1).drop_last() =~= s.take(k));
}

} // verus!

verus! {

/// `s` without one final '\r'.
pub open spec fn strip_cr(s: Seq<char>) -> Seq<char> {
    if s.len() > 0 && s.last() == '\r' {
        s.drop_last()
    } else {
        s
    }
}

/// The lines of a text as `str::lines` yields them: split at each '\n',
/// with a '\r' just before a '\n' dropped, and no empty final line after a
/// final '\n'.
pub open spec fn lines_of(s: Seq<char>) -> Seq<Seq<char>> {
    let parts = split_on(s, '\n');
    let ended = parts.drop_last().map_values(|p: Seq<char>| strip_cr(p));
    if parts.last().len() > 0 {
        ended.push(parts.last())
    } else {
        ended
    }
}

/// `str::lines`, collected.
pub fn lines(s: &str) -> (r: Vec<String>)
    ensures
        r@.map_values(|t: String| t@) == lines_of(s@),
{
    let parts = split_char(s, '\n');
    proof {
        lemma_split_nonempty(s@, '\n');
    }
    let ghost pv = parts@.map_values(|t: String| t@);
    let n = parts.len();
    let mut out: Vec<String> = Vec::new();
    let mut i: usize = 0;
    while i + 1 < n
        invariant
            n == parts@.len(),
            n >= 1,
            pv == parts@.map_values(|t: String| t@),
            pv == split_on(s@, '\n'),
            i + 1 <= n,
            out@.map_values(|t: String| t@) == pv.drop_last().take(i as int).map_values(
                |p: Seq<char>| strip_cr(p),
            ),
        decreases n - i,
    {
        let part = &parts[i];
        let cs = chars_of(part.as_str());
        let mut line = String::new();
        let k = if cs.len() > 0 && cs[cs.len() - 1] == '\r' {
            cs.len() - 1
        } else {
            cs.len()
        };
        let mut j: usize = 0;
        while j < k
            invariant
                k <= cs@.len(),
                j <= k,
                line@ == cs@.take(j as int),
            decreases k - j,
        {
            push_char(&mut line, cs[j]);
            assert(line@ =~= cs@.take(j + 1));
            j = j + 1;
        }
        assert(pv[i as int] == cs@);
        assert(line@ =~= strip_cr(cs@));
        let ghost before = out@.map_values(|t: String| t@);
        out.push(line);
        assert(out@.map_values(|t: String| t@) =~= before.push(strip_cr(cs@)));
        assert(pv.drop_last().take(i + 1) =~= pv.drop_last().take(i as int).push(pv[i as int]));
        assert(pv.drop_last().take(i + 1).map_values(|p: Seq<char>| strip_cr(p)) =~= pv.drop_last().take(
            i as int,
        ).map_values(|p: Seq<char>| strip_cr(p)).push(strip_cr(pv[i as int])));
        i = i + 1;
    }
    assert(pv.drop_last().take(i as int) =~= pv.drop_last());
    let last = &parts[n - 1];
    assert(pv.last() == last@);
    if !last.as_str().is_empty() {
        let ghost before = out@.map_values(|t: String| t@);
        out.push(owned(last.as_str()));
        assert(out@.map_values(|t: String| t@) =~= before.push(pv.last()));
    }
    out
}

/// `s` without its trailing whitespace, as `str::trim_end` leaves it.
pub open spec fn trim_end_text(s: Seq<char>) -> Seq<char>
    decreases s.len(),
{
    if s.len() > 0 && char_is_whitespace(s.last()) {
        trim_end_text(s.drop_last())
    } else {
        s
    }
}

/// `s` without its leading whitespace, as `str::trim_start` leaves it.
pub open spec fn trim_start_text(s: Seq<char>) -> Seq<char>
    decreases s.len(),
{
    if s.len() > 0 && char_is_whitespace(s[0]) {
        trim_start_text(s.drop_first())
    } else {
        s
    }
}

/// `s` without leading or trailing whitespace, as `str::trim` leaves it.
pub open spec fn trim_text(s: Seq<char>) -> Seq<char> {
    trim_end_text(trim_start_text(s))
}

/// The characters of `cs` from `lo` up to `hi`, as a `String`.
fn string_of_range(cs: &Vec<char>, lo: usize, hi: usize) -> (r: String)
    requires
        lo <= hi <= cs@.len(),
    ensures
        r@ == cs@.subrange(lo as int, hi as int),
{
    let mut s = String::new();
    let mut j = lo;
    assert(cs@.subrange(lo as int, lo as int) =~= Seq::<char>::empty());
    while j < hi
        invariant
            lo <= j <= hi <= cs@.len(),
            s@ == cs@.subrange(lo as int, j as int),
        decreases hi - j,
    {
        push_char(&mut s, cs[j]);
        assert(s@ =~= cs@.subrange(lo as int, j + 1));
        j = j + 1;
    }
    s
}

proof fn lemma_trim_end_prefix(s: Seq<char>, hi: int)
    requires
        0 <= hi <= s.len(),
        forall|j: int| hi <= j < s.len() ==> char_is_whitespace(#[trigger] s[j]),
    ensures
        trim_end_text(s) == trim_end_text(s.take(hi)),
    decreases s.len() - hi,
{
    if hi < s.len() {
        assert(s.drop_last() =~= s.take(s.len() - 1));
        assert(char_is_whitespace(s[s.len() - 1]));
        lemma_trim_end_prefix(s.drop_last(), hi);
        assert(s.drop_last().take(hi) =~= s.take(hi));
    } else {
        assert(s.take(hi) =~= s);
    }
}

proof fn lemma_trim_start_suffix(s: Seq<char>, lo: int)
    requires
        0 <= lo <= s.len(),
        forall|j: int| 0 <= j < lo ==> char_is_whitespace(#[trigger] s[j]),
    ensures
        trim_start_text(s) == trim_start_text(s.skip(lo)),
    decreases lo,
{
    if lo > 0 {
        assert(char_is_whitespace(s[0]));
        assert forall|j: int| 0 <= j < lo - 1 implies char_is_whitespace(#[trigger] s.drop_first()[j]) by {
            assert(s.drop_first()[j] == s[j + 1]);
        }
        lemma_trim_start_suffix(s.drop_first(), lo - 1);
        assert(s.drop_first().skip(lo - 1) =~= s.skip(lo));
    } else {
        assert(s.skip(0) =~= s);
    }
}

/// `str::trim_end`.
pub fn trim_end(s: &str) -> (r: String)
    ensures
        r@ == trim_end_text(s@),
{
    let cs = chars_of(s);
    let mut hi = cs.len();
    while hi > 0 && is_whitespace(cs[hi - 1])
        invariant
            hi <= cs@.len(),
            cs@ == s@,
            forall|j: int| hi <= j < cs@.len() ==> char_is_whitespace(#[trigger] cs@[j]),
        decreases hi,
    {
        hi = hi - 1;
    }
    proof {
        lemma_trim_end_prefix(cs@, hi as int);
        if hi > 0 {
            assert(cs@.take(hi as int).last() == cs@[hi - 1]);
        } else {
            assert(cs@.take(0) =~= Seq::<char>::empty());
        }
    }
    let r = string_of_range(&cs, 0, hi);
    assert(cs@.subrange(0, hi as int) =~= cs@.take(hi as int));
    r
}

/// `str::trim`.
pub fn trim(s: &str) -> (r: String)
    ensures
        r@ == trim_text(s@),
{
    let cs = chars_of(s);
    let mut lo: usize = 0;
    while lo < cs.len() && is_whitespace(cs[lo])
        invariant
            lo <= cs@.len(),
            cs@ == s@,
            forall|j: int| 0 <= j < lo ==> char_is_whitespace(#[trigger] cs@[j]),
        decreases cs@.len() - lo,
    {
        lo = lo + 1;
    }
    proof {
        lemma_trim_start_suffix(cs@, lo as int);
        if lo < cs@.len() {
            assert(cs@.skip(lo as int)[0] == cs@[lo as int]);
        }
    }
    let rest = string_of_range(&cs, lo, cs.len());
    assert(cs@.subrange(lo as int, cs@.len() as int) =~= cs@.skip(lo as int));
    trim_end(rest.as_str())
}

} // verus!
