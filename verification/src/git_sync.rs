//! The logic of the git backup workflow: recognising local paths and GitHub
//! remotes, building the authentication header, base64, classifying git's
//! error text, composing commit messages, and reading git's output. The
//! application runs git itself and hands the output here.

use vstd::prelude::*;

use crate::text::{
    byte_len, chars_of, contains, contains_text, decimal, decimal_text, has_prefix, lines,
    lines_of, owned, push_char, push_str, starts_with, str_eq, trim, trim_text,
};

verus! {

// ---------------------------------------------------------------------------
// Remotes.

/// Whether a remote target is a filesystem path rather than a git URL: it
/// starts with '/', '~', "./" or "../".
pub open spec fn local_path_text(s: Seq<char>) -> bool {
    has_prefix(s, "/"@) || has_prefix(s, "~"@) || has_prefix(s, "./"@) || has_prefix(s, "../"@)
}

pub fn is_local_path(s: &str) -> (r: bool)
    ensures
        r == local_path_text(s@),
{
    starts_with(s, "/") || starts_with(s, "~") || starts_with(s, "./") || starts_with(s, "../")
}

/// Whether `url` is an `https://github.com/...` remote, the only kind the
/// stored token may be sent to.
pub fn is_github_https(url: &str) -> (r: bool)
    ensures
        r == has_prefix(url@, "https://github.com/"@),
{
    starts_with(url, "https://github.com/")
}

// ---------------------------------------------------------------------------
// Base64 and the authentication header.

/// The UTF-8 bytes of a character.
pub open spec fn utf8_char_bytes(c: char) -> Seq<u8> {
    let v = c as u32 as int;
    if v < 0x80 {
        seq![v as u8]
    } else if v < 0x800 {
        seq![(0xC0 + v / 64) as u8, (0x80 + v % 64) as u8]
    } else if v < 0x10000 {
        seq![(0xE0 + v / 4096) as u8, (0x80 + (v / 64) % 64) as u8, (0x80 + v % 64) as u8]
    } else {
        seq![
            (0xF0 + v / 262144) as u8,
            (0x80 + (v / 4096) % 64) as u8,
            (0x80 + (v / 64) % 64) as u8,
            (0x80 + v % 64) as u8,
        ]
    }
}

/// The UTF-8 encoding of a text.
pub open spec fn utf8_bytes(s: Seq<char>) -> Seq<u8>
    decreases s.len(),
{
    if s.len() == 0 {
        seq![]
    } else {
        utf8_bytes(s.drop_last()) + utf8_char_bytes(s.last())
    }
}

/// `str::as_bytes`, copied: the UTF-8 encoding of the text.
#[verifier::external_body]
fn str_bytes(s: &str) -> (r: Vec<u8>)
    ensures
        r@ == utf8_bytes(s@),
{
    s.as_bytes().to_vec()
}

/// The base64 digit of a six-bit value.
pub open spec fn b64_digit(i: int) -> char {
    "ABCDEFGHIJKLMNOPQRSTUVWXYZabcdefghijklmnopqrstuvwxyz0123456789+/"@[i]
}

/// Base64 of one chunk of one to three bytes, padded with '='.
pub open spec fn b64_chunk(b: Seq<u8>) -> Seq<char> {
    let b0 = b[0] as int;
    let b1 = if b.len() > 1 {
        b[1] as int
    } else {
        0
    };
    let b2 = if b.len() > 2 {
        b[2] as int
    } else {
        0
    };
    let n = b0 * 65536 + b1 * 256 + b2;
    seq![
        b64_digit((n / 262144) % 64),
        b64_digit((n / 4096) % 64),
        if b.len() > 1 {
            b64_digit((n / 64) % 64)
        } else {
            '='
        },
        if b.len() > 2 {
            b64_digit(n % 64)
        } else {
            '='
        },
    ]
}

/// Standard base64 with padding.
pub open spec fn base64_text(s: Seq<u8>) -> Seq<char>
    decreases s.len(),
{
    if s.len() == 0 {
        seq![]
    } else if s.len() <= 3 {
        b64_chunk(s)
    } else {
        b64_chunk(s.take(3)) + base64_text(s.skip(3))
    }
}

/// Standard base64 (RFC 4648 alphabet, '=' padding).
pub fn base64_encode(input: &[u8]) -> (r: String)
    ensures
        r@ == base64_text(input@),
{
    let alphabet = chars_of("ABCDEFGHIJKLMNOPQRSTUVWXYZabcdefghijklmnopqrstuvwxyz0123456789+/");
    proof {
        reveal_strlit("ABCDEFGHIJKLMNOPQRSTUVWXYZabcdefghijklmnopqrstuvwxyz0123456789+/");
    }
    let mut out = String::new();
    let mut i: usize = 0;
    assert(input@.skip(0) =~= input@);
    while i < input.len()
        invariant
            i <= input@.len(),
            alphabet@ == "ABCDEFGHIJKLMNOPQRSTUVWXYZabcdefghijklmnopqrstuvwxyz0123456789+/"@,
            alphabet@.len() == 64,
            out@ + base64_text(input@.skip(i as int)) == base64_text(input@),
        decreases input@.len() - i,
    {
        let left = input.len() - i;
        let b0 = input[i] as u32;
        let b1 = if left > 1 {
            input[i + 1] as u32
        } else {
            0
        };
        let b2 = if left > 2 {
            input[i + 2] as u32
        } else {
            0
        };
        let n = b0 * 65536 + b1 * 256 + b2;
        let ghost rest = input@.skip(i as int);
        let ghost chunk = if left <= 3 {
            rest
        } else {
            rest.take(3)
        };
        assert(chunk[0] == b0);
        assert(chunk.len() > 1 ==> chunk[1] == b1);
        assert(chunk.len() > 2 ==> chunk[2] == b2);
        let ghost before = out@;
        push_char(&mut out, alphabet[((n / 262144) % 64) as usize]);
        push_char(&mut out, alphabet[((n / 4096) % 64) as usize]);
        push_char(
            &mut out,
            if left > 1 {
                alphabet[((n / 64) % 64) as usize]
            } else {
                '='
            },
        );
        push_char(
            &mut out,
            if left > 2 {
                alphabet[(n % 64) as usize]
            } else {
                '='
            },
        );
        assert(out@ =~= before + b64_chunk(chunk));
        let step: usize = if left > 3 {
            3
        } else {
            left
        };
        proof {
            if left > 3 {
                assert(rest.skip(3) =~= input@.skip(i + 3));
            } else {
                assert(input@.skip(i + left) =~= Seq::<u8>::empty());
            }
        }
        i = i + step;
    }
    assert(input@.skip(i as int) =~= Seq::<u8>::empty());
    out
}

pub open spec fn auth_header_text(token: Seq<char>) -> Seq<char> {
    "http.https://github.com/.extraHeader=AUTHORIZATION: basic "@ + base64_text(
        utf8_bytes("x-access-token:"@ + token),
    )
}

/// The `-c http.https://github.com/.extraHeader=...` arguments that
/// authenticate git as `token` with GitHub only: the token travels as git
/// configuration, base64-encoded, never in a URL.
pub fn github_auth_args(token: &str) -> (r: Vec<String>)
    ensures
        r@.len() == 2,
        r@[0]@ == "-c"@,
        r@[1]@ == auth_header_text(token@),
{
    let mut credential = owned("x-access-token:");
    push_str(&mut credential, token);
    let encoded = base64_encode(str_bytes(credential.as_str()).as_slice());
    let mut header = owned("http.https://github.com/.extraHeader=AUTHORIZATION: basic ");
    push_str(&mut header, encoded.as_str());
    let mut out: Vec<String> = Vec::new();
    out.push(owned("-c"));
    out.push(header);
    out
}

// ---------------------------------------------------------------------------
// Git's messages.

/// Text that marks an authentication failure.
pub open spec fn auth_error_text(msg: Seq<char>) -> bool {
    contains_text(msg, "Authentication failed"@) || contains_text(msg, "403"@) || contains_text(
        msg,
        "401"@,
    ) || contains_text(msg, "could not read Username"@) || contains_text(
        msg,
        "remote: Invalid username"@,
    )
}

/// Whether git's error text looks like an authentication failure.
pub fn is_auth_error(msg: &str) -> (r: bool)
    ensures
        r == auth_error_text(msg@),
{
    contains(msg, "Authentication failed") || contains(msg, "403") || contains(msg, "401")
        || contains(msg, "could not read Username") || contains(msg, "remote: Invalid username")
}

/// What `String::from_utf8_lossy` makes of bytes.
pub uninterp spec fn lossy_text(b: Seq<u8>) -> Seq<char>;

/// `String::from_utf8_lossy`: invalid UTF-8 becomes U+FFFD.
#[verifier::external_body]
pub(crate) fn utf8_lossy(b: &[u8]) -> (r: String)
    ensures
        r@ == lossy_text(b@),
{
    String::from_utf8_lossy(b).to_string()
}

/// Git's stdout and stderr, each trimmed, joined by a newline when both say
/// something.
pub open spec fn combined_text(stdout: Seq<char>, stderr: Seq<char>) -> Seq<char> {
    let o = trim_text(stdout);
    let e = trim_text(stderr);
    if o.len() == 0 {
        e
    } else if e.len() == 0 {
        o
    } else {
        o + "\n"@ + e
    }
}

/// Both output streams of a git run, so no diagnostic is lost: git spreads
/// one failure's messages over both.
pub fn lossy_combined(stdout: &[u8], stderr: &[u8]) -> (r: String)
    ensures
        r@ == combined_text(lossy_text(stdout@), lossy_text(stderr@)),
{
    let o = trim(utf8_lossy(stdout).as_str());
    let e = trim(utf8_lossy(stderr).as_str());
    if o.as_str().is_empty() {
        e
    } else if e.as_str().is_empty() {
        o
    } else {
        let mut s = o;
        push_str(&mut s, "\n");
        push_str(&mut s, e.as_str());
        s
    }
}

/// The non-empty trimmed lines of a text: `git remote` lists one name a line.
pub open spec fn trimmed_lines(ls: Seq<Seq<char>>) -> Seq<Seq<char>>
    decreases ls.len(),
{
    if ls.len() == 0 {
        seq![]
    } else {
        let rest = trimmed_lines(ls.drop_last());
        if trim_text(ls.last()).len() == 0 {
            rest
        } else {
            rest.push(trim_text(ls.last()))
        }
    }
}

/// Remote names from `git remote`'s output.
pub fn remote_names(stdout: &[u8]) -> (r: Vec<String>)
    ensures
        r@.map_values(|t: String| t@) == trimmed_lines(lines_of(lossy_text(stdout@))),
{
    let text = utf8_lossy(stdout);
    let ls = lines(text.as_str());
    let ghost lv = ls@.map_values(|t: String| t@);
    let mut out: Vec<String> = Vec::new();
    let mut k: usize = 0;
    assert(lv.take(0) =~= Seq::<Seq<char>>::empty());
    while k < ls.len()
        invariant
            lv == ls@.map_values(|t: String| t@),
            lv == lines_of(lossy_text(stdout@)),
            k <= ls@.len(),
            out@.map_values(|t: String| t@) == trimmed_lines(lv.take(k as int)),
        decreases ls@.len() - k,
    {
        assert(lv.take(k + 1).drop_last() =~= lv.take(k as int));
        assert(lv.take(k + 1).last() == ls@[k as int]@);
        let t = trim(ls[k].as_str());
        if !t.as_str().is_empty() {
            let ghost before = out@.map_values(|t: String| t@);
            out.push(t);
            assert(out@.map_values(|t: String| t@) =~= before.push(trim_text(ls@[k as int]@)));
        }
        k = k + 1;
    }
    assert(lv.take(ls@.len() as int) =~= lv);
    out
}

/// The trimmed output of a git query, unless it is empty.
pub fn trimmed_output(stdout: &[u8]) -> (r: Option<String>)
    ensures
        match r {
            Some(t) => t@ == trim_text(lossy_text(stdout@)) && t@.len() > 0,
            None => trim_text(lossy_text(stdout@)).len() == 0,
        },
{
    let t = trim(utf8_lossy(stdout).as_str());
    if t.as_str().is_empty() {
        None
    } else {
        Some(t)
    }
}

// ---------------------------------------------------------------------------
// Commit messages.

/// `parts` joined with `sep` between them.
pub open spec fn joined_text(parts: Seq<Seq<char>>, sep: Seq<char>) -> Seq<char>
    decreases parts.len(),
{
    if parts.len() == 0 {
        seq![]
    } else if parts.len() == 1 {
        parts[0]
    } else {
        joined_text(parts.drop_last(), sep) + sep + parts.last()
    }
}

/// The commit message for the changed files at time `ts`: "Auto-save: ts"
/// for none, "Edited f: ts" for one, otherwise "Edits to " with the first
/// five names, a "(+n)" count of the rest, a blank line and `ts`.
pub open spec fn commit_message(changed: Seq<Seq<char>>, ts: Seq<char>) -> Seq<char> {
    if changed.len() == 0 {
        "Auto-save: "@ + ts
    } else if changed.len() == 1 {
        "Edited "@ + changed[0] + ": "@ + ts
    } else {
        let shown = if changed.len() > 5 {
            changed.take(5)
        } else {
            changed
        };
        let suffix = if changed.len() > 5 {
            " (+"@ + decimal_text((changed.len() - 5) as nat) + ")"@
        } else {
            seq![]
        };
        "Edits to "@ + joined_text(shown, ", "@) + suffix + "\n\n"@ + ts
    }
}

/// The commit message for `changed` stamped with the time text `ts`.
pub fn craft_message_at(changed: &[String], ts: &str) -> (r: String)
    ensures
        r@ == commit_message(crate::model::strings_view(changed@), ts@),
{
    let ghost cv = crate::model::strings_view(changed@);
    let n = changed.len();
    if n == 0 {
        let mut s = owned("Auto-save: ");
        push_str(&mut s, ts);
        return s;
    }
    if n == 1 {
        let mut s = owned("Edited ");
        push_str(&mut s, changed[0].as_str());
        push_str(&mut s, ": ");
        push_str(&mut s, ts);
        return s;
    }
    let shown = if n > 5 {
        5
    } else {
        n
    };
    let ghost sv = if n > 5 {
        cv.take(5)
    } else {
        cv
    };
    let mut s = owned("Edits to ");
    let ghost head = s@;
    push_str(&mut s, changed[0].as_str());
    let mut k: usize = 1;
    assert(sv.take(1) =~= seq![sv[0]]);
    while k < shown
        invariant
            2 <= n == changed@.len(),
            cv == crate::model::strings_view(changed@),
            shown == (if n > 5 {
                5
            } else {
                n
            }),
            sv.len() == shown,
            sv == (if n > 5 {
                cv.take(5)
            } else {
                cv
            }),
            1 <= k <= shown,
            s@ == head + joined_text(sv.take(k as int), ", "@),
        decreases shown - k,
    {
        assert(sv.take(k + 1).drop_last() =~= sv.take(k as int));
        assert(sv.take(k + 1).last() == changed@[k as int]@);
        push_str(&mut s, ", ");
        push_str(&mut s, changed[k].as_str());
        k = k + 1;
    }
    assert(sv.take(shown as int) =~= sv);
    if n > 5 {
        push_str(&mut s, " (+");
        let more = decimal((n - 5) as u64);
        push_str(&mut s, more.as_str());
        push_str(&mut s, ")");
    }
    push_str(&mut s, "\n\n");
    push_str(&mut s, ts);
    s
}

/// A date and time to the minute as chrono's "%Y-%m-%d %H:%M" writes it:
/// the year as `year_text` gives it, then two-digit month, day, hour and
/// minute.
pub open spec fn minute_text(y: int, mo: int, d: int, h: int, mi: int) -> Seq<char> {
    crate::date::year_text(y) + seq!['-'] + crate::date::two_digits(mo) + seq!['-']
        + crate::date::two_digits(d) + seq![' '] + crate::date::two_digits(h) + seq![':']
        + crate::date::two_digits(mi)
}

/// The text of some calendar day and minute in `minute_text`'s form.
pub open spec fn is_minute_text(s: Seq<char>) -> bool {
    exists|y: int, mo: int, d: int, h: int, mi: int|
        crate::date::valid_ymd(y, mo, d) && 0 <= h < 24 && 0 <= mi < 60 && s == #[trigger] minute_text(
            y,
            mo,
            d,
            h,
            mi,
        )
}

/// The local time as "YYYY-MM-DD HH:MM", from chrono's `Local::now` and
/// `format`. Which minute it names depends on the clock and the machine's
/// time zone and is left unsaid; its form is stated.
#[verifier::external_body]
fn local_minute_text() -> (r: String)
    ensures
        is_minute_text(r@),
{
    chrono::Local::now().format("%Y-%m-%d %H:%M").to_string()
}

/// The commit message for `changed`, stamped with the local time to the
/// minute.
pub fn craft_message(changed: &[String]) -> (r: String)
    ensures
        exists|ts: Seq<char>|
            is_minute_text(ts) && r@ == #[trigger] commit_message(crate::model::strings_view(changed@), ts),
{
    let ts = local_minute_text();
    craft_message_at(changed, ts.as_str())
}

// ---------------------------------------------------------------------------
// Changed files.

/// What `Path::file_name` gives for a path text, as text: its last
/// component, or `None` for a path ending in "..", a root or an empty path.
pub uninterp spec fn path_file_name(p: Seq<char>) -> Option<Seq<char>>;

/// `Path::file_name` converted with `OsStr::to_str`.
#[verifier::external_body]
fn file_name_of(p: &str) -> (r: Option<String>)
    ensures
        match path_file_name(p@) {
            Some(n) => r matches Some(x) && x@ == n,
            None => r is None,
        },
{
    std::path::Path::new(p).file_name().and_then(|n| n.to_str()).map(|n| n.to_string())
}

/// Where `pat` first occurs in `s` at or after position `i`.
pub open spec fn first_from(s: Seq<char>, pat: Seq<char>, i: int) -> Option<int>
    decreases s.len() + 1 - i,
{
    if i < 0 || i + pat.len() > s.len() {
        None
    } else if crate::text::occurs_at(s, pat, i) {
        Some(i)
    } else {
        first_from(s, pat, i + 1)
    }
}

/// The text after the last of the non-overlapping occurrences of `pat`
/// found scanning from position `i` (the whole rest when there is none), as
/// the last piece of `str::split` is.
pub open spec fn last_piece(s: Seq<char>, pat: Seq<char>, i: int) -> Seq<char>
    decreases s.len() - i,
{
    match first_from(s, pat, i) {
        Some(j) => if pat.len() > 0 && i <= j && j + pat.len() <= s.len() {
            last_piece(s, pat, j + pat.len())
        } else {
            s.skip(i)
        },
        None => s.skip(i),
    }
}

/// The file a `git status --porcelain` line names: the text after its
/// first three bytes, after any " -> " of a rename, trimmed, reduced to its
/// file name where it has one.
pub open spec fn porcelain_file(line: Seq<char>) -> Seq<char> {
    let entry = line.skip(crate::bible::char_pos_at(line, 3));
    let name = trim_text(last_piece(entry, " -> "@, 0));
    match path_file_name(name) {
        Some(b) => b,
        None => name,
    }
}

/// The distinct file names of porcelain lines, in first-seen order; lines
/// under four bytes are skipped.
pub open spec fn changed_names(ls: Seq<Seq<char>>) -> Seq<Seq<char>>
    decreases ls.len(),
{
    if ls.len() == 0 {
        seq![]
    } else {
        let rest = changed_names(ls.drop_last());
        if byte_len(ls.last()) < 4 || rest.contains(porcelain_file(ls.last())) {
            rest
        } else {
            rest.push(porcelain_file(ls.last()))
        }
    }
}

/// Every line of four bytes or more can be cut after its third byte.
pub open spec fn porcelain_cuttable(text: Seq<char>) -> bool {
    forall|k: int|
        0 <= k < lines_of(text).len() && byte_len(#[trigger] lines_of(text)[k]) >= 4
            ==> crate::bible::on_boundary(lines_of(text)[k], 3)
}

pub(crate) fn first_occurrence(s: &Vec<char>, pat: &Vec<char>, from: usize) -> (r: Option<usize>)
    requires
        from <= s@.len(),
    ensures
        match first_from(s@, pat@, from as int) {
            Some(j) => r matches Some(x) && x == j,
            None => r is None,
        },
{
    let n = s.len();
    let mut i = from;
    while i <= n && pat.len() <= n - i
        invariant
            n == s@.len(),
            from <= i <= s@.len() + 1,
            first_from(s@, pat@, from as int) == first_from(s@, pat@, i as int),
        decreases s@.len() + 1 - i,
    {
        let mut m: usize = 0;
        let mut ok = true;
        while m < pat.len()
            invariant
                n == s@.len(),
                i + pat@.len() <= s@.len(),
                m <= pat@.len(),
                !ok ==> m > 0,
                ok ==> forall|q: int| 0 <= q < m ==> s@[i + q] == pat@[q],
                !ok ==> !crate::text::occurs_at(s@, pat@, i as int),
            decreases pat@.len() - m,
        {
            if s[i + m] != pat[m] {
                assert(s@.subrange(i as int, i + pat@.len())[m as int] != pat@[m as int]);
                ok = false;
            }
            m = m + 1;
        }
        if ok {
            assert(s@.subrange(i as int, i + pat@.len()) =~= pat@);
            return Some(i);
        }
        i = i + 1;
    }
    None
}

pub proof fn lemma_first_from(s: Seq<char>, pat: Seq<char>, i: int)
    requires
        0 <= i,
    ensures
        first_from(s, pat, i) matches Some(j) ==> i <= j && j + pat.len() <= s.len()
            && crate::text::occurs_at(s, pat, j),
    decreases s.len() + 1 - i,
{
    if i + pat.len() <= s.len() {
        lemma_first_from(s, pat, i + 1);
    }
}

fn last_piece_exec(s: &Vec<char>, pat: &Vec<char>) -> (r: Vec<char>)
    requires
        pat@.len() > 0,
    ensures
        r@ == last_piece(s@, pat@, 0),
{
    let n = s.len();
    let mut i: usize = 0;
    loop
        invariant
            n == s@.len(),
            i <= s@.len(),
            pat@.len() > 0,
            last_piece(s@, pat@, 0) == last_piece(s@, pat@, i as int),
        ensures
            i <= s@.len(),
            last_piece(s@, pat@, 0) == last_piece(s@, pat@, i as int),
            first_from(s@, pat@, i as int) is None,
        decreases s@.len() - i,
    {
        proof {
            lemma_first_from(s@, pat@, i as int);
        }
        match first_occurrence(s, pat, i) {
            Some(j) => {
                i = j + pat.len();
            },
            None => {
                break ;
            },
        }
    }
    let mut out: Vec<char> = Vec::new();
    let mut k = i;
    assert(s@.skip(i as int).take(0) =~= Seq::<char>::empty());
    while k < s.len()
        invariant
            i <= k <= s@.len(),
            out@ == s@.skip(i as int).take(k - i),
        decreases s@.len() - k,
    {
        out.push(s[k]);
        assert(out@ =~= s@.skip(i as int).take(k - i + 1));
        k = k + 1;
    }
    assert(s@.skip(i as int).take(s@.len() - i) =~= s@.skip(i as int));
    out
}

fn string_of(cs: &Vec<char>) -> (r: String)
    ensures
        r@ == cs@,
{
    crate::text::string_from_chars(cs.as_slice())
}

/// The file name a porcelain line of at least four bytes names.
fn porcelain_file_exec(line: &str) -> (r: String)
    requires
        byte_len(line@) >= 4,
        crate::bible::on_boundary(line@, 3),
    ensures
        r@ == porcelain_file(line@),
{
    let cs = chars_of(line);
    let ghost t = cs@;
    let ghost target = crate::bible::char_pos_at(t, 3);
    let mut k: usize = 0;
    let mut b: usize = 0;
    assert(t.take(0) =~= Seq::<char>::empty());
    proof {
        crate::text::lemma_byte_len_prefix(t, target);
    }
    while b < 3
        invariant
            t == cs@,
            t == line@,
            0 <= target <= t.len(),
            byte_len(t.take(target)) == 3,
            k <= target,
            b == byte_len(t.take(k as int)),
            b <= 3,
        decreases target - k,
    {
        proof {
            if k == target {
                assert(false);
            }
            crate::text::lemma_byte_len_step(t, k as int);
            if k + 1 < target {
                crate::bible::lemma_bytes_strictly_grow(t, k + 1, target);
            }
        }
        b = b + crate::text::char_len_utf8(cs[k]);
        k = k + 1;
    }
    proof {
        if k < target {
            crate::bible::lemma_bytes_strictly_grow(t, k as int, target);
        }
    }
    assert(k == target);
    let mut entry: Vec<char> = Vec::new();
    let mut j = k;
    assert(t.skip(k as int).take(0) =~= Seq::<char>::empty());
    while j < cs.len()
        invariant
            t == cs@,
            k <= j <= t.len(),
            entry@ == t.skip(k as int).take(j - k),
        decreases t.len() - j,
    {
        entry.push(cs[j]);
        assert(entry@ =~= t.skip(k as int).take(j - k + 1));
        j = j + 1;
    }
    assert(t.skip(k as int).take(t.len() - k) =~= t.skip(k as int));
    let arrow = chars_of(" -> ");
    proof {
        reveal_strlit(" -> ");
    }
    let piece = last_piece_exec(&entry, &arrow);
    let name = trim(string_of(&piece).as_str());
    match file_name_of(name.as_str()) {
        Some(b) => b,
        None => name,
    }
}

fn contains_string(v: &Vec<String>, s: &String) -> (r: bool)
    ensures
        r == crate::model::strings_view(v@).contains(s@),
{
    let mut i: usize = 0;
    while i < v.len()
        invariant
            i <= v@.len(),
            forall|j: int| 0 <= j < i ==> v@[j]@ != s@,
        decreases v@.len() - i,
    {
        if str_eq(v[i].as_str(), s.as_str()) {
            assert(crate::model::strings_view(v@)[i as int] == s@);
            return true;
        }
        i = i + 1;
    }
    proof {
        if crate::model::strings_view(v@).contains(s@) {
            let j = choose|j: int|
                0 <= j < crate::model::strings_view(v@).len() && crate::model::strings_view(v@)[j]
                    == s@;
            assert(v@[j]@ == s@);
        }
    }
    false
}

/// The distinct file names in `git status --porcelain` output, in the order
/// first listed; a rename counts by its new name.
pub fn changed_files_in(text: &str) -> (r: Vec<String>)
    requires
        porcelain_cuttable(text@),
    ensures
        crate::model::strings_view(r@) == changed_names(lines_of(text@)),
{
    let ls = lines(text);
    let ghost lv = ls@.map_values(|t: String| t@);
    let mut names: Vec<String> = Vec::new();
    let mut k: usize = 0;
    assert(lv.take(0) =~= Seq::<Seq<char>>::empty());
    while k < ls.len()
        invariant
            lv == ls@.map_values(|t: String| t@),
            lv == lines_of(text@),
            porcelain_cuttable(text@),
            k <= ls@.len(),
            crate::model::strings_view(names@) == changed_names(lv.take(k as int)),
        decreases ls@.len() - k,
    {
        let line = &ls[k];
        assert(lv.take(k + 1).drop_last() =~= lv.take(k as int));
        assert(lv.take(k + 1).last() == line@);
        assert(lv[k as int] == line@);
        if crate::text::byte_length(line.as_str()) >= 4 {
            let base = porcelain_file_exec(line.as_str());
            if !contains_string(&names, &base) {
                let ghost before = crate::model::strings_view(names@);
                names.push(base);
                assert(crate::model::strings_view(names@) =~= before.push(porcelain_file(line@)));
            }
        }
        k = k + 1;
    }
    assert(lv.take(ls@.len() as int) =~= lv);
    names
}


// ---------------------------------------------------------------------------
// Git's replies.

/// What running one git command gave back.
pub enum GitOutput {
    /// The command could not be started; the error's words.
    Failed(String),
    /// The command ran, with its exit status and its two output streams.
    Ran { success: bool, stdout: Vec<u8>, stderr: Vec<u8> },
}

/// The text a failed git command is reported by: the error of a command
/// that could not start, else both output streams.
pub open spec fn failure_text(out: GitOutput) -> Seq<char> {
    match out {
        GitOutput::Failed(e) => e@,
        GitOutput::Ran { stdout, stderr, .. } => combined_text(
            lossy_text(stdout@),
            lossy_text(stderr@),
        ),
    }
}

fn failure_message(out: &GitOutput) -> (r: String)
    ensures
        r@ == failure_text(*out),
{
    match out {
        GitOutput::Failed(e) => e.clone(),
        GitOutput::Ran { stdout, stderr, .. } => lossy_combined(stdout.as_slice(), stderr.as_slice()),
    }
}

/// The repository root `git rev-parse --show-toplevel` reported, if it
/// succeeded and said anything.
pub fn git_repo_root(out: &GitOutput) -> (r: Option<String>)
    ensures
        match *out {
            GitOutput::Ran { success: true, stdout, .. } => match r {
                Some(t) => t@ == trim_text(lossy_text(stdout@)) && t@.len() > 0,
                None => trim_text(lossy_text(stdout@)).len() == 0,
            },
            _ => r is None,
        },
{
    match out {
        GitOutput::Ran { success: true, stdout, .. } => trimmed_output(stdout.as_slice()),
        _ => None,
    }
}

/// ASCII whitespace, as `u8::is_ascii_whitespace` knows it.
pub open spec fn ascii_space(b: u8) -> bool {
    b == 32 || b == 9 || b == 10 || b == 12 || b == 13
}

/// Whether `git remote` listed anything: its output holds a byte other than
/// ASCII whitespace.
pub fn has_remote(out: &GitOutput) -> (r: bool)
    ensures
        r == (match *out {
            GitOutput::Ran { stdout, .. } => exists|i: int|
                0 <= i < stdout@.len() && !ascii_space(#[trigger] stdout@[i]),
            GitOutput::Failed(_) => false,
        }),
{
    match out {
        GitOutput::Failed(_) => false,
        GitOutput::Ran { stdout, .. } => any_visible(stdout.as_slice()),
    }
}

fn any_visible(b: &[u8]) -> (r: bool)
    ensures
        r == exists|i: int| 0 <= i < b@.len() && !ascii_space(#[trigger] b@[i]),
{
    let mut i: usize = 0;
    while i < b.len()
        invariant
            i <= b@.len(),
            forall|j: int| 0 <= j < i ==> ascii_space(#[trigger] b@[j]),
        decreases b@.len() - i,
    {
        let c = b[i];
        if !(c == 32 || c == 9 || c == 10 || c == 12 || c == 13) {
            assert(!ascii_space(b@[i as int]));
            return true;
        }
        i = i + 1;
    }
    false
}

/// The remote names `git remote` listed; none when it could not run.
pub fn list_remotes(out: &GitOutput) -> (r: Vec<String>)
    ensures
        crate::model::strings_view(r@) == (match *out {
            GitOutput::Ran { stdout, .. } => trimmed_lines(lines_of(lossy_text(stdout@))),
            GitOutput::Failed(_) => seq![],
        }),
{
    match out {
        GitOutput::Failed(_) => Vec::new(),
        GitOutput::Ran { stdout, .. } => {
            let r = remote_names(stdout.as_slice());
            assert(crate::model::strings_view(r@) =~= r@.map_values(|t: String| t@));
            r
        },
    }
}

/// The URL `git remote get-url` printed, when it succeeded with one.
pub fn get_remote_url(out: &GitOutput) -> (r: Option<String>)
    ensures
        match *out {
            GitOutput::Ran { success: true, stdout, .. } => match r {
                Some(t) => t@ == trim_text(lossy_text(stdout@)) && t@.len() > 0,
                None => trim_text(lossy_text(stdout@)).len() == 0,
            },
            _ => r is None,
        },
{
    git_repo_root(out)
}

/// The branch `git rev-parse --abbrev-ref HEAD` named; "main" when git
/// could not run.
pub open spec fn branch_text(out: GitOutput) -> Seq<char> {
    match out {
        GitOutput::Ran { stdout, .. } => trim_text(lossy_text(stdout@)),
        GitOutput::Failed(_) => "main"@,
    }
}

pub fn current_branch(out: &GitOutput) -> (r: String)
    ensures
        r@ == branch_text(*out),
{
    match out {
        GitOutput::Ran { stdout, .. } => trim(utf8_lossy(stdout.as_slice()).as_str()),
        GitOutput::Failed(_) => owned("main"),
    }
}

/// The `commit:path` that `git show` reads a file's old version by.
pub fn commit_file_spec(commit: &str, rel_path: &str) -> (r: String)
    ensures
        r@ == commit@ + ":"@ + rel_path@,
{
    let mut s = owned(commit);
    push_str(&mut s, ":");
    push_str(&mut s, rel_path);
    s
}

/// The file's old contents `git show` printed, if it succeeded.
pub fn show_file_at_commit(out: &GitOutput) -> (r: Option<String>)
    ensures
        match *out {
            GitOutput::Ran { success: true, stdout, .. } => r matches Some(t) && t@ == lossy_text(
                stdout@,
            ),
            _ => r is None,
        },
{
    match out {
        GitOutput::Ran { success: true, stdout, .. } => Some(utf8_lossy(stdout.as_slice())),
        _ => None,
    }
}

// ---------------------------------------------------------------------------
// A file's history.

/// What `Path::strip_prefix` gives for `path` under `base`: the rest of the
/// path after `base`'s components, or `None` when `base` is not a prefix of
/// `path` by whole components.
pub uninterp spec fn path_relative(path: Seq<char>, base: Seq<char>) -> Option<Seq<char>>;

/// `std::path::Path::strip_prefix`, on UTF-8 paths. Its result is named
/// `path_relative`; the component rules behind it are left to std.
#[verifier::external_body]
fn strip_path_prefix(path: &str, base: &str) -> (r: Option<String>)
    ensures
        match path_relative(path@, base@) {
            Some(rel) => r matches Some(x) && x@ == rel,
            None => r is None,
        },
{
    std::path::Path::new(path).strip_prefix(base).ok().and_then(|p| p.to_str()).map(|p| p.to_string())
}

/// The instant an RFC 3339 text names: seconds since the Unix epoch,
/// nanoseconds, and the text's offset from UTC in seconds; `None` when
/// `chrono` rejects the text.
pub uninterp spec fn rfc3339_value(s: Seq<char>) -> Option<(int, int, int)>;

/// `chrono::DateTime::parse_from_rfc3339`, read back as its timestamp,
/// sub-second nanoseconds and UTC offset. Its result is named
/// `rfc3339_value`; the grammar is left to chrono.
#[verifier::external_body]
fn parse_rfc3339(s: &str) -> (r: Option<(i64, u32, i32)>)
    ensures
        match rfc3339_value(s@) {
            Some(t) => r matches Some(x) && (x.0 as int, x.1 as int, x.2 as int) == t,
            None => r is None,
        },
{
    chrono::DateTime::parse_from_rfc3339(s).ok().map(
        |d| (d.timestamp(), d.timestamp_subsec_nanos(), d.offset().local_minus_utc()),
    )
}

/// The arguments of the `git log` that lists the commits touching
/// `file_path`, which is named relative to `repo_path`; `None` when the file
/// is not inside the repository.
pub fn history_args(repo_path: &str, file_path: &str) -> (r: Option<Vec<String>>)
    ensures
        match path_relative(file_path@, repo_path@) {
            Some(rel) => r matches Some(a) && crate::model::strings_view(a@) == seq![
                "log"@,
                "--follow"@,
                "--format=%H%x1f%aI%x1f%s"@,
                "--"@,
                rel,
            ],
            None => r is None,
        },
{
    match strip_path_prefix(file_path, repo_path) {
        None => None,
        Some(rel) => {
            let mut a: Vec<String> = Vec::new();
            a.push(owned("log"));
            a.push(owned("--follow"));
            a.push(owned("--format=%H%x1f%aI%x1f%s"));
            a.push(owned("--"));
            a.push(rel);
            assert(crate::model::strings_view(a@) =~= seq![
                "log"@,
                "--follow"@,
                "--format=%H%x1f%aI%x1f%s"@,
                "--"@,
                a@[4]@,
            ]);
            Some(a)
        },
    }
}

/// The arguments of the `git show` that prints `file_path` as of `commit`;
/// `None` when the file is not inside the repository.
pub fn show_args(repo_path: &str, file_path: &str, commit: &str) -> (r: Option<Vec<String>>)
    ensures
        match path_relative(file_path@, repo_path@) {
            Some(rel) => r matches Some(a) && crate::model::strings_view(a@) == seq![
                "show"@,
                commit@ + ":"@ + rel,
            ],
            None => r is None,
        },
{
    match strip_path_prefix(file_path, repo_path) {
        None => None,
        Some(rel) => {
            let mut a: Vec<String> = Vec::new();
            a.push(owned("show"));
            a.push(commit_file_spec(commit, rel.as_str()));
            assert(crate::model::strings_view(a@) =~= seq!["show"@, a@[1]@]);
            Some(a)
        },
    }
}

/// The field separator of the history format: the unit separator, U+001F.
pub open spec fn unit_sep() -> Seq<char> {
    seq!['\u{1f}']
}

/// One commit of a file's history: its hash, the author date as seconds,
/// nanoseconds and UTC offset, and the subject line.
#[derive(Debug, PartialEq, Eq)]
pub struct HistoryEntry {
    pub commit: String,
    pub secs: i64,
    pub nanos: u32,
    pub offset: i32,
    pub message: String,
}

pub open spec fn entry_view(e: HistoryEntry) -> (Seq<char>, (int, int, int), Seq<char>) {
    (e.commit@, (e.secs as int, e.nanos as int, e.offset as int), e.message@)
}

pub open spec fn history_view(v: Seq<HistoryEntry>) -> Seq<(Seq<char>, (int, int, int), Seq<char>)> {
    v.map_values(|e: HistoryEntry| entry_view(e))
}

/// The entry a `hash<US>date<US>subject` line gives, split as
/// `splitn(3, US)` splits it: no entry without a second field or with a
/// date chrono rejects; the subject is everything after the second
/// separator, or empty when there is none.
pub open spec fn entry_of(line: Seq<char>) -> Option<(Seq<char>, (int, int, int), Seq<char>)> {
    match first_from(line, unit_sep(), 0) {
        None => None,
        Some(i) => {
            let (date, message) = match first_from(line, unit_sep(), i + 1) {
                None => (line.skip(i + 1), Seq::<char>::empty()),
                Some(j) => (line.subrange(i + 1, j), line.skip(j + 1)),
            };
            match rfc3339_value(date) {
                None => None,
                Some(t) => Some((line.take(i), t, message)),
            }
        },
    }
}

/// The entries of the lines that give one, in order.
pub open spec fn history_of(ls: Seq<Seq<char>>) -> Seq<(Seq<char>, (int, int, int), Seq<char>)>
    decreases ls.len(),
{
    if ls.len() == 0 {
        seq![]
    } else {
        let rest = history_of(ls.drop_last());
        match entry_of(ls.last()) {
            Some(e) => rest.push(e),
            None => rest,
        }
    }
}

fn chars_between(cs: &Vec<char>, lo: usize, hi: usize) -> (r: String)
    requires
        lo <= hi <= cs@.len(),
    ensures
        r@ == cs@.subrange(lo as int, hi as int),
{
    let mut out: Vec<char> = Vec::new();
    let mut k = lo;
    assert(cs@.subrange(lo as int, lo as int) =~= Seq::<char>::empty());
    while k < hi
        invariant
            lo <= k <= hi <= cs@.len(),
            out@ == cs@.subrange(lo as int, k as int),
        decreases hi - k,
    {
        out.push(cs[k]);
        assert(out@ =~= cs@.subrange(lo as int, k + 1));
        k = k + 1;
    }
    string_of(&out)
}

fn entry_exec(line: &str) -> (r: Option<HistoryEntry>)
    ensures
        match entry_of(line@) {
            Some(e) => r matches Some(x) && entry_view(x) == e,
            None => r is None,
        },
{
    let cs = chars_of(line);
    let mut us: Vec<char> = Vec::new();
    us.push('\u{1f}');
    assert(us@ =~= unit_sep());
    let n = cs.len();
    proof {
        lemma_first_from(cs@, us@, 0);
    }
    match first_occurrence(&cs, &us, 0) {
        None => None,
        Some(i) => {
            proof {
                lemma_first_from(cs@, us@, i + 1);
            }
            let commit = chars_between(&cs, 0, i);
            let (date, message) = match first_occurrence(&cs, &us, i + 1) {
                None => (chars_between(&cs, i + 1, n), String::new()),
                Some(j) => (chars_between(&cs, i + 1, j), chars_between(&cs, j + 1, n)),
            };
            assert(cs@.subrange(0, i as int) =~= line@.take(i as int));
            assert(cs@.subrange(i + 1, n as int) =~= line@.skip(i + 1));
            proof {
                if let Some(j) = first_from(line@, unit_sep(), i + 1) {
                    assert(cs@.subrange(j + 1, n as int) =~= line@.skip(j + 1));
                }
            }
            match parse_rfc3339(date.as_str()) {
                None => None,
                Some(t) => Some(HistoryEntry { commit, secs: t.0, nanos: t.1, offset: t.2, message }),
            }
        },
    }
}

/// The commits `git log --format=%H%x1f%aI%x1f%s` printed, newest first as
/// git lists them; lines without a date chrono reads are skipped.
pub fn history_entries(stdout: &[u8]) -> (r: Vec<HistoryEntry>)
    ensures
        history_view(r@) == history_of(lines_of(lossy_text(stdout@))),
{
    let text = utf8_lossy(stdout);
    let ls = lines(text.as_str());
    let ghost lv = ls@.map_values(|t: String| t@);
    let mut out: Vec<HistoryEntry> = Vec::new();
    let mut k: usize = 0;
    assert(lv.take(0) =~= Seq::<Seq<char>>::empty());
    while k < ls.len()
        invariant
            lv == ls@.map_values(|t: String| t@),
            lv == lines_of(lossy_text(stdout@)),
            k <= ls@.len(),
            history_view(out@) == history_of(lv.take(k as int)),
        decreases ls@.len() - k,
    {
        assert(lv.take(k + 1).drop_last() =~= lv.take(k as int));
        assert(lv.take(k + 1).last() == ls@[k as int]@);
        match entry_exec(ls[k].as_str()) {
            Some(e) => {
                let ghost before = out@;
                out.push(e);
                assert(history_view(out@) =~= history_view(before).push(entry_view(e)));
            },
            None => {},
        }
        k = k + 1;
    }
    assert(lv.take(ls@.len() as int) =~= lv);
    out
}

/// The remotes other than "origin" whose URL is known, with that URL: the
/// backups a sync pushes to besides the main remote.
pub open spec fn backup_pairs(listing: Seq<(Seq<char>, Option<Seq<char>>)>) -> Seq<
    (Seq<char>, Seq<char>),
>
    decreases listing.len(),
{
    if listing.len() == 0 {
        seq![]
    } else {
        let rest = backup_pairs(listing.drop_last());
        let (name, url) = listing.last();
        match url {
            Some(u) => if name != "origin"@ {
                rest.push((name, u))
            } else {
                rest
            },
            None => rest,
        }
    }
}

pub open spec fn listing_view(v: Seq<(String, Option<String>)>) -> Seq<(Seq<char>, Option<Seq<char>>)> {
    v.map_values(|e: (String, Option<String>)| (e.0@, crate::model::opt_string_view(e.1)))
}

pub open spec fn pairs_view(v: Seq<(String, String)>) -> Seq<(Seq<char>, Seq<char>)> {
    v.map_values(|e: (String, String)| (e.0@, e.1@))
}

/// Each remote with the URL git gave for it, reduced to the backup remotes.
pub fn list_backup_remotes(listing: &Vec<(String, Option<String>)>) -> (r: Vec<(String, String)>)
    ensures
        pairs_view(r@) == backup_pairs(listing_view(listing@)),
{
    let ghost lv = listing_view(listing@);
    let mut out: Vec<(String, String)> = Vec::new();
    let mut i: usize = 0;
    while i < listing.len()
        invariant
            i <= listing@.len(),
            lv == listing_view(listing@),
            pairs_view(out@) == backup_pairs(lv.take(i as int)),
        decreases listing@.len() - i,
    {
        assert(lv.take(i + 1).drop_last() =~= lv.take(i as int));
        assert(lv.take(i + 1).last() == lv[i as int]);
        let (name, url) = &listing[i];
        match url {
            Some(u) => {
                if !str_eq(name.as_str(), "origin") {
                    let ghost before = pairs_view(out@);
                    out.push((name.clone(), u.clone()));
                    assert(pairs_view(out@) =~= before.push((name@, u@)));
                }
            },
            None => {},
        }
        i = i + 1;
    }
    assert(lv.take(listing@.len() as int) =~= lv);
    out
}

/// `shellexpand::tilde`: a leading "~" (alone or before '/') becomes the
/// home directory, when there is one. The contract says that a text not
/// starting with '~' comes back unchanged, and that otherwise the result is
/// the text itself or ends with what followed the '~'; the home directory
/// comes from the environment and is not stated.
#[verifier::external_body]
fn expand_tilde(s: &str) -> (r: String)
    ensures
        !has_prefix(s@, "~"@) ==> r@ == s@,
        has_prefix(s@, "~"@) ==> r@ == s@ || (r@.len() >= s@.len() - 1 && r@.skip(
            r@.len() - (s@.len() - 1),
        ) == s@.skip(1)),
{
    shellexpand::tilde(s).into_owned()
}

/// Where a new remote points: a local path with its leading "~" expanded
/// (and `true`, so a bare repository is made there first), or the URL as
/// given.
pub fn remote_target(url: &str) -> (r: (String, bool))
    ensures
        r.1 == local_path_text(url@),
        !r.1 ==> r.0@ == url@,
        r.1 && !has_prefix(url@, "~"@) ==> r.0@ == url@,
        r.1 && has_prefix(url@, "~"@) ==> r.0@ == url@ || (r.0@.len() >= url@.len() - 1
            && r.0@.skip(r.0@.len() - (url@.len() - 1)) == url@.skip(1)),
{
    if is_local_path(url) {
        (expand_tilde(url), true)
    } else {
        (owned(url), false)
    }
}

/// Whether a porcelain text can be read without cutting a character: every
/// line of four bytes or more has a character boundary after its third byte.
fn porcelain_readable(text: &str) -> (r: bool)
    ensures
        r == porcelain_cuttable(text@),
{
    let ls = lines(text);
    let ghost lv = ls@.map_values(|t: String| t@);
    assert(lv == lines_of(text@));
    let mut k: usize = 0;
    while k < ls.len()
        invariant
            k <= ls@.len(),
            lv == ls@.map_values(|t: String| t@),
            lv == lines_of(text@),
            forall|j: int|
                0 <= j < k && byte_len(#[trigger] lv[j]) >= 4 ==> crate::bible::on_boundary(
                    lv[j],
                    3,
                ),
        decreases ls@.len() - k,
    {
        assert(lv[k as int] == ls@[k as int]@);
        if crate::text::byte_length(ls[k].as_str()) >= 4 && !crate::bible::is_boundary_at(
            ls[k].as_str(),
            3,
        ) {
            return false;
        }
        k = k + 1;
    }
    true
}

/// The files `git status --porcelain` reported changed: none when git did
/// not run or failed; `None` when a line of its output cannot be cut after
/// its status columns.
pub fn changed_files(out: &GitOutput) -> (r: Option<Vec<String>>)
    ensures
        match *out {
            GitOutput::Ran { success: true, stdout, .. } => if porcelain_cuttable(
                lossy_text(stdout@),
            ) {
                r matches Some(v) && crate::model::strings_view(v@) == changed_names(
                    lines_of(lossy_text(stdout@)),
                )
            } else {
                r is None
            },
            _ => r matches Some(v) && v@.len() == 0,
        },
{
    match out {
        GitOutput::Ran { success: true, stdout, .. } => {
            let text = utf8_lossy(stdout.as_slice());
            if porcelain_readable(text.as_str()) {
                Some(changed_files_in(text.as_str()))
            } else {
                None
            }
        },
        _ => Some(Vec::new()),
    }
}


// ---------------------------------------------------------------------------
// A sync: stage everything, commit, then pull and push each remote.

/// What a sync achieved.
pub struct SyncResult {
    pub committed: bool,
    /// At least one remote was pushed.
    pub pushed: bool,
    pub commit_message: String,
    /// The failure that stopped the sync before any remote was tried.
    pub error: Option<String>,
    /// One line per remote that failed: "(name) reason".
    pub push_errors: Vec<String>,
    /// Some remote turned the credentials down.
    pub auth_failed: bool,
}

pub struct SyncResultView {
    pub committed: bool,
    pub pushed: bool,
    pub commit_message: Seq<char>,
    pub error: Option<Seq<char>>,
    pub push_errors: Seq<Seq<char>>,
    pub auth_failed: bool,
}

impl View for SyncResult {
    type V = SyncResultView;

    open spec fn view(&self) -> SyncResultView {
        SyncResultView {
            committed: self.committed,
            pushed: self.pushed,
            commit_message: self.commit_message@,
            error: crate::model::opt_string_view(self.error),
            push_errors: crate::model::strings_view(self.push_errors@),
            auth_failed: self.auth_failed,
        }
    }
}

/// Where a sync stands: the git command it waits on next.
#[derive(Clone, Copy, Debug, PartialEq, Eq, Structural)]
pub enum SyncStage {
    Add,
    Commit,
    Remotes,
    Branch,
    Url,
    Pull,
    Abort,
    Push,
    Done,
}

/// A sync under way.
pub struct SyncRun {
    pub stage: SyncStage,
    pub token: Option<String>,
    pub message: String,
    pub committed: bool,
    pub remotes: Vec<String>,
    pub branch: String,
    /// The remote being worked on.
    pub next: usize,
    /// The authentication arguments for that remote.
    pub auth: Vec<String>,
    /// What the failed pull of that remote said.
    pub pull_error: String,
    pub pushed: bool,
    pub push_errors: Vec<String>,
    pub auth_failed: bool,
    pub error: Option<String>,
}

pub struct SyncRunView {
    pub stage: SyncStage,
    pub token: Option<Seq<char>>,
    pub message: Seq<char>,
    pub committed: bool,
    pub remotes: Seq<Seq<char>>,
    pub branch: Seq<char>,
    pub next: nat,
    pub auth: Seq<Seq<char>>,
    pub pull_error: Seq<char>,
    pub pushed: bool,
    pub push_errors: Seq<Seq<char>>,
    pub auth_failed: bool,
    pub error: Option<Seq<char>>,
}

impl View for SyncRun {
    type V = SyncRunView;

    open spec fn view(&self) -> SyncRunView {
        SyncRunView {
            stage: self.stage,
            token: crate::model::opt_string_view(self.token),
            message: self.message@,
            committed: self.committed,
            remotes: crate::model::strings_view(self.remotes@),
            branch: self.branch@,
            next: self.next as nat,
            auth: crate::model::strings_view(self.auth@),
            pull_error: self.pull_error@,
            pushed: self.pushed,
            push_errors: crate::model::strings_view(self.push_errors@),
            auth_failed: self.auth_failed,
            error: crate::model::opt_string_view(self.error),
        }
    }
}

/// While a remote is worked on, it is one of the remotes; its URL is only
/// asked for when there is a token.
pub open spec fn run_wf(s: SyncRunView) -> bool {
    &&& match s.stage {
        SyncStage::Url | SyncStage::Pull | SyncStage::Abort | SyncStage::Push => s.next < s.remotes.len(),
        _ => true,
    }
    &&& s.stage == SyncStage::Url ==> s.token is Some
}

/// Whether a token was given that is worth sending.
pub open spec fn has_token(s: SyncRunView) -> bool {
    s.token matches Some(t) && t.len() > 0
}

/// Turning to remote `s.next`: done when none is left; else its URL is
/// looked up first when there is a token, and it is pulled straight away
/// when there is none.
pub open spec fn begin_remote(s: SyncRunView) -> SyncRunView {
    if s.next >= s.remotes.len() {
        SyncRunView { stage: SyncStage::Done, ..s }
    } else if has_token(s) {
        SyncRunView { stage: SyncStage::Url, auth: seq![], ..s }
    } else {
        SyncRunView { stage: SyncStage::Pull, auth: seq![], ..s }
    }
}

pub open spec fn next_remote(s: SyncRunView) -> SyncRunView {
    begin_remote(SyncRunView { next: s.next + 1, ..s })
}

pub open spec fn mid_rebase_text() -> Seq<char> {
    ". Repository may be in mid-rebase state — run 'git rebase --abort' manually."@
}

/// What is reported of a remote whose pull failed, given what
/// `git rebase --abort` did next: the pull's own message unless the abort
/// failed for a reason other than there being no rebase to abort.
pub open spec fn pull_report(remote: Seq<char>, pull_msg: Seq<char>, out: GitOutput) -> Seq<char> {
    match out {
        GitOutput::Failed(e) => "("@ + remote + ") Pull failed and could not run rebase --abort: "@
            + e@ + mid_rebase_text(),
        GitOutput::Ran { success, stdout, stderr } => {
            let a = combined_text(lossy_text(stdout@), lossy_text(stderr@));
            if !success && !contains_text(a, "No rebase in progress"@) {
                "("@ + remote + ") Pull failed and rebase --abort also failed: "@ + a
                    + mid_rebase_text()
            } else {
                "("@ + remote + ") Couldn't pull latest changes: "@ + pull_msg
            }
        },
    }
}

/// After `git add .`: on to the commit, or stopped with git's error.
pub open spec fn after_add(s: SyncRunView, out: GitOutput) -> SyncRunView {
    if out matches GitOutput::Ran { success: true, .. } {
        SyncRunView { stage: SyncStage::Commit, ..s }
    } else {
        SyncRunView { stage: SyncStage::Done, error: Some("git add: "@ + failure_text(out)), ..s }
    }
}

/// After `git commit`: committed; or nothing to commit; or stopped.
pub open spec fn after_commit(s: SyncRunView, out: GitOutput) -> SyncRunView {
    match out {
        GitOutput::Failed(e) => SyncRunView {
            stage: SyncStage::Done,
            error: Some("git commit: "@ + e@),
            ..s
        },
        GitOutput::Ran { success: true, .. } => SyncRunView {
            stage: SyncStage::Remotes,
            committed: true,
            ..s
        },
        GitOutput::Ran { success: false, .. } => if contains_text(
            failure_text(out),
            "nothing to commit"@,
        ) {
            SyncRunView { stage: SyncStage::Remotes, ..s }
        } else {
            SyncRunView { stage: SyncStage::Done, error: Some(failure_text(out)), ..s }
        },
    }
}

/// After `git remote`: the remotes to push to.
pub open spec fn after_remotes(s: SyncRunView, out: GitOutput) -> SyncRunView {
    SyncRunView {
        stage: SyncStage::Branch,
        remotes: match out {
            GitOutput::Ran { stdout, .. } => trimmed_lines(lines_of(lossy_text(stdout@))),
            GitOutput::Failed(_) => seq![],
        },
        ..s
    }
}

/// After asking for the branch: the first remote is taken up.
pub open spec fn after_branch(s: SyncRunView, out: GitOutput) -> SyncRunView {
    begin_remote(SyncRunView { branch: branch_text(out), next: 0, ..s })
}

/// Whether `git remote get-url` named an `https://github.com/` remote.
pub open spec fn github_remote(out: GitOutput) -> bool {
    match out {
        GitOutput::Ran { success: true, stdout, .. } => {
            let u = trim_text(lossy_text(stdout@));
            u.len() > 0 && has_prefix(u, "https://github.com/"@)
        },
        _ => false,
    }
}

/// After the remote's URL: the token goes along only to GitHub.
pub open spec fn after_url(s: SyncRunView, out: GitOutput) -> SyncRunView {
    SyncRunView {
        stage: SyncStage::Pull,
        auth: if github_remote(out) {
            seq!["-c"@, auth_header_text(s.token->0)]
        } else {
            seq![]
        },
        ..s
    }
}

/// After `git pull --rebase`: a failure is remembered and the rebase
/// aborted; otherwise (also when git could not start) on to the push.
pub open spec fn after_pull(s: SyncRunView, out: GitOutput) -> SyncRunView {
    match out {
        GitOutput::Ran { success: false, .. } => SyncRunView {
            stage: SyncStage::Abort,
            pull_error: failure_text(out),
            auth_failed: s.auth_failed || auth_error_text(failure_text(out)),
            ..s
        },
        _ => SyncRunView { stage: SyncStage::Push, ..s },
    }
}

/// After `git rebase --abort`: the remote's failure is reported and the
/// next remote taken up.
pub open spec fn after_abort(s: SyncRunView, out: GitOutput) -> SyncRunView {
    next_remote(
        SyncRunView {
            push_errors: s.push_errors.push(pull_report(s.remotes[s.next as int], s.pull_error, out)),
            ..s
        },
    )
}

/// After `git push`: pushed, or the failure reported; then the next remote.
pub open spec fn after_push(s: SyncRunView, out: GitOutput) -> SyncRunView {
    next_remote(
        match out {
            GitOutput::Ran { success: true, .. } => SyncRunView { pushed: true, ..s },
            _ => SyncRunView {
                auth_failed: s.auth_failed || (out is Ran && auth_error_text(failure_text(out))),
                push_errors: s.push_errors.push("("@ + s.remotes[s.next as int] + ") "@ + failure_text(out)),
                ..s
            },
        },
    )
}

/// The sync after git answered the command of its stage.
pub open spec fn advanced(s: SyncRunView, out: GitOutput) -> SyncRunView {
    match s.stage {
        SyncStage::Add => after_add(s, out),
        SyncStage::Commit => after_commit(s, out),
        SyncStage::Remotes => after_remotes(s, out),
        SyncStage::Branch => after_branch(s, out),
        SyncStage::Url => after_url(s, out),
        SyncStage::Pull => after_pull(s, out),
        SyncStage::Abort => after_abort(s, out),
        SyncStage::Push => after_push(s, out),
        SyncStage::Done => s,
    }
}

/// How far a sync is from its end: the steps before the remotes are known,
/// then the git commands at most left for the remotes.
pub open spec fn steps_before_remotes(s: SyncRunView) -> nat {
    match s.stage {
        SyncStage::Add => 4,
        SyncStage::Commit => 3,
        SyncStage::Remotes => 2,
        SyncStage::Branch => 1,
        _ => 0,
    }
}

pub open spec fn steps_for_remotes(s: SyncRunView) -> nat {
    let after = if s.next < s.remotes.len() {
        4 * (s.remotes.len() - s.next - 1)
    } else {
        0
    };
    match s.stage {
        SyncStage::Url => (after + 3) as nat,
        SyncStage::Pull => (after + 2) as nat,
        SyncStage::Abort | SyncStage::Push => (after + 1) as nat,
        _ => 0,
    }
}

/// A sync always ends: every reply from git brings an unfinished sync
/// closer to its end, first through the steps before the remotes are
/// known, then through the commands left for the remotes.
pub proof fn lemma_sync_progresses(s: SyncRunView, out: GitOutput)
    requires
        run_wf(s),
        s.stage != SyncStage::Done,
    ensures
        ({
            let t = advanced(s, out);
            steps_before_remotes(t) < steps_before_remotes(s) || (steps_before_remotes(t)
                == steps_before_remotes(s) && steps_for_remotes(t) < steps_for_remotes(s))
        }),
{
}

/// The token is sent to a remote only when git named that remote's URL as
/// an `https://github.com/` address: while the sync is under way,
/// authentication arguments appear only in answer to the URL query, stay
/// only while the same remote is worked on, and are dropped when another
/// remote is taken up.
pub proof fn lemma_token_only_to_github(s: SyncRunView, out: GitOutput)
    requires
        run_wf(s),
    ensures
        ({
            let t = advanced(s, out);
            t.auth.len() > 0 && t.stage != SyncStage::Done ==> (s.stage == SyncStage::Url && github_remote(out)
                && t.auth == seq!["-c"@, auth_header_text(s.token->0)]) || (t.auth == s.auth
                && t.next == s.next)
        }),
        ({
            let t = advanced(s, out);
            t.next != s.next && t.stage != SyncStage::Done ==> t.auth.len() == 0
        }),
{
}

/// A sync reports a push only when git accepted one: `pushed` turns true
/// exactly on a successful `git push`, and once true stays true.
pub proof fn lemma_pushed_only_on_success(s: SyncRunView, out: GitOutput)
    requires
        run_wf(s),
    ensures
        advanced(s, out).pushed == (s.pushed || (s.stage == SyncStage::Push
            && out matches GitOutput::Ran { success: true, .. })),
{
}

/// A failure of `git add` or `git commit` (other than there being nothing
/// to commit) ends the sync at once with that error, before any remote is
/// tried; no later step sets an error.
pub proof fn lemma_error_only_before_remotes(s: SyncRunView, out: GitOutput)
    requires
        run_wf(s),
        s.error is None,
    ensures
        advanced(s, out).error is Some ==> (s.stage == SyncStage::Add || s.stage == SyncStage::Commit)
            && advanced(s, out).stage == SyncStage::Done && advanced(s, out).push_errors == s.push_errors
            && advanced(s, out).pushed == s.pushed,
{
}

/// The git arguments of the command a sync waits on.
pub open spec fn run_args(s: SyncRunView) -> Seq<Seq<char>> {
    match s.stage {
        SyncStage::Add => seq!["add"@, "."@],
        SyncStage::Commit => seq!["commit"@, "-m"@, s.message],
        SyncStage::Remotes => seq!["remote"@],
        SyncStage::Branch => seq!["rev-parse"@, "--abbrev-ref"@, "HEAD"@],
        SyncStage::Url => seq!["remote"@, "get-url"@, s.remotes[s.next as int]],
        SyncStage::Pull => s.auth + seq!["pull"@, "--rebase"@, s.remotes[s.next as int], s.branch],
        SyncStage::Abort => seq!["rebase"@, "--abort"@],
        SyncStage::Push => s.auth + seq!["push"@, "-u"@, s.remotes[s.next as int], s.branch],
        SyncStage::Done => seq![],
    }
}

/// What a finished sync reports.
pub open spec fn run_result(s: SyncRunView) -> SyncResultView {
    SyncResultView {
        committed: s.committed,
        pushed: s.pushed,
        commit_message: s.message,
        error: s.error,
        push_errors: s.push_errors,
        auth_failed: s.auth_failed,
    }
}

/// What a sync asks of the application next.
pub enum SyncAction {
    /// Run git in the repository with these arguments, and hand back what
    /// it gave.
    Run(Vec<String>),
    /// The sync is over.
    Finish(SyncResult),
}

fn args1(a: &str) -> (r: Vec<String>)
    ensures
        crate::model::strings_view(r@) == seq![a@],
{
    let mut v: Vec<String> = Vec::new();
    v.push(owned(a));
    assert(crate::model::strings_view(v@) =~= seq![a@]);
    v
}

fn args2(a: &str, b: &str) -> (r: Vec<String>)
    ensures
        crate::model::strings_view(r@) == seq![a@, b@],
{
    let mut v: Vec<String> = Vec::new();
    v.push(owned(a));
    v.push(owned(b));
    assert(crate::model::strings_view(v@) =~= seq![a@, b@]);
    v
}

fn args3(a: &str, b: &str, c: &str) -> (r: Vec<String>)
    ensures
        crate::model::strings_view(r@) == seq![a@, b@, c@],
{
    let mut v: Vec<String> = Vec::new();
    v.push(owned(a));
    v.push(owned(b));
    v.push(owned(c));
    assert(crate::model::strings_view(v@) =~= seq![a@, b@, c@]);
    v
}

fn url_is_github(out: &GitOutput) -> (r: bool)
    ensures
        r == github_remote(*out),
{
    match get_remote_url(out) {
        Some(u) => is_github_https(u.as_str()),
        None => false,
    }
}

fn report(remote: &str, middle: &str, detail: &str) -> (r: String)
    ensures
        r@ == "("@ + remote@ + middle@ + detail@,
{
    let mut s = owned("(");
    push_str(&mut s, remote);
    push_str(&mut s, middle);
    push_str(&mut s, detail);
    s
}

impl SyncRun {
    /// A sync of the repository whose changed files are `changed`, with the
    /// GitHub token if one is stored; its commit message is made now.
    pub fn new(token: Option<String>, changed: &[String]) -> (r: SyncRun)
        ensures
            r@.stage == SyncStage::Add,
            r@.token == crate::model::opt_string_view(token),
            exists|ts: Seq<char>| r@.message == #[trigger] commit_message(crate::model::strings_view(changed@), ts),
            !r@.committed && !r@.pushed && !r@.auth_failed,
            r@.push_errors.len() == 0,
            r@.error is None,
            run_wf(r@),
    {
        let message = craft_message(changed);
        SyncRun {
            stage: SyncStage::Add,
            token,
            message,
            committed: false,
            remotes: Vec::new(),
            branch: String::new(),
            next: 0,
            auth: Vec::new(),
            pull_error: String::new(),
            pushed: false,
            push_errors: Vec::new(),
            auth_failed: false,
            error: None,
        }
    }

    /// The git command the sync waits on, or its result once it is over.
    pub fn action(&self) -> (r: SyncAction)
        requires
            run_wf(self@),
        ensures
            self@.stage == SyncStage::Done ==> (r matches SyncAction::Finish(res) && res@ == run_result(
                self@,
            )),
            self@.stage != SyncStage::Done ==> (r matches SyncAction::Run(args)
                && crate::model::strings_view(args@) == run_args(self@)),
    {
        match self.stage {
            SyncStage::Add => SyncAction::Run(args2("add", ".")),
            SyncStage::Commit => SyncAction::Run(args3("commit", "-m", self.message.as_str())),
            SyncStage::Remotes => SyncAction::Run(args1("remote")),
            SyncStage::Branch => SyncAction::Run(args3("rev-parse", "--abbrev-ref", "HEAD")),
            SyncStage::Url => SyncAction::Run(
                args3("remote", "get-url", self.remotes[self.next].as_str()),
            ),
            SyncStage::Pull => SyncAction::Run(self.remote_args("pull", "--rebase")),
            SyncStage::Abort => SyncAction::Run(args2("rebase", "--abort")),
            SyncStage::Push => SyncAction::Run(self.remote_args("push", "-u")),
            SyncStage::Done => SyncAction::Finish(
                SyncResult {
                    committed: self.committed,
                    pushed: self.pushed,
                    commit_message: self.message.clone(),
                    error: crate::model::clone_opt_string(&self.error),
                    push_errors: crate::model::clone_strings(&self.push_errors),
                    auth_failed: self.auth_failed,
                },
            ),
        }
    }

    fn remote_args(&self, verb: &str, flag: &str) -> (r: Vec<String>)
        requires
            self.next < self.remotes@.len(),
        ensures
            crate::model::strings_view(r@) == self@.auth + seq![
                verb@,
                flag@,
                self@.remotes[self.next as int],
                self@.branch,
            ],
    {
        let mut v = crate::model::clone_strings(&self.auth);
        let ghost before = crate::model::strings_view(v@);
        v.push(owned(verb));
        v.push(owned(flag));
        v.push(self.remotes[self.next].clone());
        v.push(self.branch.clone());
        assert(crate::model::strings_view(v@) =~= before + seq![
            verb@,
            flag@,
            self@.remotes[self.next as int],
            self@.branch,
        ]);
        v
    }

    fn begin_remote(&mut self)
        requires
            old(self).next <= old(self).remotes@.len(),
        ensures
            final(self)@ == begin_remote(old(self)@),
            run_wf(final(self)@),
    {
        if self.next >= self.remotes.len() {
            self.stage = SyncStage::Done;
        } else {
            let send = match &self.token {
                Some(t) => !t.as_str().is_empty(),
                None => false,
            };
            self.auth = Vec::new();
            if send {
                self.stage = SyncStage::Url;
            } else {
                self.stage = SyncStage::Pull;
            }
            assert(crate::model::strings_view(self.auth@) =~= Seq::<Seq<char>>::empty());
        }
    }

    /// Hands the sync what git gave for the command of its stage.
    pub fn advance(&mut self, out: GitOutput)
        requires
            run_wf(old(self)@),
        ensures
            final(self)@ == advanced(old(self)@, out),
            run_wf(final(self)@),
    {
        match self.stage {
            SyncStage::Add => self.on_add(&out),
            SyncStage::Commit => self.on_commit(&out),
            SyncStage::Remotes => self.on_remotes(&out),
            SyncStage::Branch => self.on_branch(&out),
            SyncStage::Url => self.on_url(&out),
            SyncStage::Pull => self.on_pull(&out),
            SyncStage::Abort => self.on_abort(&out),
            SyncStage::Push => self.on_push(&out),
            SyncStage::Done => {},
        }
    }

    fn on_add(&mut self, out: &GitOutput)
        requires
            old(self).stage == SyncStage::Add,
            run_wf(old(self)@),
        ensures
            final(self)@ == after_add(old(self)@, *out),
            run_wf(final(self)@),
    {
        if let GitOutput::Ran { success: true, .. } = out {
            self.stage = SyncStage::Commit;
        } else {
            let mut e = owned("git add: ");
            push_str(&mut e, failure_message(out).as_str());
            self.error = Some(e);
            self.stage = SyncStage::Done;
        }
    
    }

    fn on_commit(&mut self, out: &GitOutput)
        requires
            old(self).stage == SyncStage::Commit,
            run_wf(old(self)@),
        ensures
            final(self)@ == after_commit(old(self)@, *out),
            run_wf(final(self)@),
    {
        match out {
            GitOutput::Failed(e) => {
                let mut m = owned("git commit: ");
                push_str(&mut m, e.as_str());
                self.error = Some(m);
                self.stage = SyncStage::Done;
            },
            GitOutput::Ran { success: true, .. } => {
                self.committed = true;
                self.stage = SyncStage::Remotes;
            },
            GitOutput::Ran { success: false, .. } => {
                let t = failure_message(out);
                if contains(t.as_str(), "nothing to commit") {
                    self.stage = SyncStage::Remotes;
                } else {
                    self.error = Some(t);
                    self.stage = SyncStage::Done;
                }
            },
        }
    
    }

    fn on_remotes(&mut self, out: &GitOutput)
        requires
            old(self).stage == SyncStage::Remotes,
            run_wf(old(self)@),
        ensures
            final(self)@ == after_remotes(old(self)@, *out),
            run_wf(final(self)@),
    {
        self.remotes = list_remotes(out);
        self.stage = SyncStage::Branch;
    
    }

    fn on_branch(&mut self, out: &GitOutput)
        requires
            old(self).stage == SyncStage::Branch,
            run_wf(old(self)@),
        ensures
            final(self)@ == after_branch(old(self)@, *out),
            run_wf(final(self)@),
    {
        self.branch = current_branch(out);
        self.next = 0;
        self.begin_remote();
    
    }

    fn on_url(&mut self, out: &GitOutput)
        requires
            old(self).stage == SyncStage::Url,
            run_wf(old(self)@),
        ensures
            final(self)@ == after_url(old(self)@, *out),
            run_wf(final(self)@),
    {
        let github = url_is_github(out);
        match &self.token {
            Some(t) => {
                if github {
                    let args = github_auth_args(t.as_str());
                    self.auth = args;
                    assert(crate::model::strings_view(self.auth@) =~= seq![
                        "-c"@,
                        auth_header_text(old(self)@.token->0),
                    ]);
                } else {
                    self.auth = Vec::new();
                    assert(crate::model::strings_view(self.auth@) =~= Seq::<Seq<char>>::empty());
                }
            },
            None => {},
        }
        self.stage = SyncStage::Pull;
    }

    fn on_pull(&mut self, out: &GitOutput)
        requires
            old(self).stage == SyncStage::Pull,
            run_wf(old(self)@),
        ensures
            final(self)@ == after_pull(old(self)@, *out),
            run_wf(final(self)@),
    {
        if let GitOutput::Ran { success: false, .. } = out {
            let t = failure_message(out);
            if is_auth_error(t.as_str()) {
                self.auth_failed = true;
            }
            self.pull_error = t;
            self.stage = SyncStage::Abort;
        } else {
            self.stage = SyncStage::Push;
        }
    
    }

    fn on_abort(&mut self, out: &GitOutput)
        requires
            old(self).stage == SyncStage::Abort,
            run_wf(old(self)@),
        ensures
            final(self)@ == after_abort(old(self)@, *out),
            run_wf(final(self)@),
    {
        let n = self.remotes.len();
        assert(self.next < n);
        let remote = self.remotes[self.next].as_str();
        let line = match out {
            GitOutput::Failed(e) => {
                let mut l = report(remote, ") Pull failed and could not run rebase --abort: ", e.as_str());
                push_str(
                    &mut l,
                    ". Repository may be in mid-rebase state — run 'git rebase --abort' manually.",
                );
                l
            },
            GitOutput::Ran { success, .. } => {
                let a = failure_message(out);
                if !*success && !contains(a.as_str(), "No rebase in progress") {
                    let mut l = report(remote, ") Pull failed and rebase --abort also failed: ", a.as_str());
                    push_str(
                        &mut l,
                        ". Repository may be in mid-rebase state — run 'git rebase --abort' manually.",
                    );
                    l
                } else {
                    report(remote, ") Couldn't pull latest changes: ", self.pull_error.as_str())
                }
            },
        };
        assert(line@ == pull_report(old(self)@.remotes[old(self)@.next as int], old(self)@.pull_error, *out));
        let ghost before = crate::model::strings_view(self.push_errors@);
        self.push_errors.push(line);
        assert(crate::model::strings_view(self.push_errors@) =~= before.push(line@));
        self.next = self.next + 1;
        self.begin_remote();
    }

    fn on_push(&mut self, out: &GitOutput)
        requires
            old(self).stage == SyncStage::Push,
            run_wf(old(self)@),
        ensures
            final(self)@ == after_push(old(self)@, *out),
            run_wf(final(self)@),
    {
        let n = self.remotes.len();
        assert(self.next < n);
        if let GitOutput::Ran { success: true, .. } = out {
            self.pushed = true;
        } else {
            let t = failure_message(out);
            if let GitOutput::Ran { .. } = out {
                if is_auth_error(t.as_str()) {
                    self.auth_failed = true;
                }
            }
            let line = report(self.remotes[self.next].as_str(), ") ", t.as_str());
            let ghost before = crate::model::strings_view(self.push_errors@);
            self.push_errors.push(line);
            assert(crate::model::strings_view(self.push_errors@) =~= before.push(line@));
        }
        self.next = self.next + 1;
        self.begin_remote();
    }
}

} // verus!
