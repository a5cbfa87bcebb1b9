//! The books of the Bible in canonical order, each with its canonical name
//! and the lowercase alphanumeric aliases a citation may use for it.

use vstd::prelude::*;

verus! {

/// Number of books.
pub const BOOK_COUNT: usize = 66;

pub open spec fn strs_view(v: Seq<&'static str>) -> Seq<Seq<char>> {
    v.map_values(|s: &'static str| s@)
}

/// Canonical name of book `i` (0 is Genesis).
pub open spec fn book_name(i: usize) -> Seq<char> {
    match i {
        0 => "Genesis"@,
        1 => "Exodus"@,
        2 => "Leviticus"@,
        3 => "Numbers"@,
        4 => "Deuteronomy"@,
        5 => "Joshua"@,
        6 => "Judges"@,
        7 => "Ruth"@,
        8 => "1 Samuel"@,
        9 => "2 Samuel"@,
        10 => "1 Kings"@,
        11 => "2 Kings"@,
        12 => "1 Chronicles"@,
        13 => "2 Chronicles"@,
        14 => "Ezra"@,
        15 => "Nehemiah"@,
        16 => "Esther"@,
        17 => "Job"@,
        18 => "Psalms"@,
        19 => "Proverbs"@,
        20 => "Ecclesiastes"@,
        21 => "Song of Solomon"@,
        22 => "Isaiah"@,
        23 => "Jeremiah"@,
        24 => "Lamentations"@,
        25 => "Ezekiel"@,
        26 => "Daniel"@,
        27 => "Hosea"@,
        28 => "Joel"@,
        29 => "Amos"@,
        30 => "Obadiah"@,
        31 => "Jonah"@,
        32 => "Micah"@,
        33 => "Nahum"@,
        34 => "Habakkuk"@,
        35 => "Zephaniah"@,
        36 => "Haggai"@,
        37 => "Zechariah"@,
        38 => "Malachi"@,
        39 => "Matthew"@,
        40 => "Mark"@,
        41 => "Luke"@,
        42 => "John"@,
        43 => "Acts"@,
        44 => "Romans"@,
        45 => "1 Corinthians"@,
        46 => "2 Corinthians"@,
        47 => "Galatians"@,
        48 => "Ephesians"@,
        49 => "Philippians"@,
        50 => "Colossians"@,
        51 => "1 Thessalonians"@,
        52 => "2 Thessalonians"@,
        53 => "1 Timothy"@,
        54 => "2 Timothy"@,
        55 => "Titus"@,
        56 => "Philemon"@,
        57 => "Hebrews"@,
        58 => "James"@,
        59 => "1 Peter"@,
        60 => "2 Peter"@,
        61 => "1 John"@,
        62 => "2 John"@,
        63 => "3 John"@,
        64 => "Jude"@,
        _ => "Revelation"@,
    }
}

/// Aliases of book `i`.
pub open spec fn book_aliases(i: usize) -> Seq<Seq<char>> {
    match i {
        0 => seq!["gen"@, "ge"@, "gn"@],
        1 => seq!["exo"@, "ex"@, "exod"@],
        2 => seq!["lev"@, "le"@, "lv"@],
        3 => seq!["num"@, "nu"@, "nm"@, "nb"@],
        4 => seq!["deut"@, "dt"@, "deu"@],
        5 => seq!["josh"@, "jos"@, "jsh"@],
        6 => seq!["judg"@, "jdg"@, "jg"@, "jdgs"@],
        7 => seq!["rth"@, "ru"@],
        8 => seq!["1sam"@, "1sa"@, "1s"@, "isam"@],
        9 => seq!["2sam"@, "2sa"@, "2s"@, "iisam"@],
        10 => seq!["1kgs"@, "1ki"@, "1k"@],
        11 => seq!["2kgs"@, "2ki"@, "2k"@],
        12 => seq!["1chr"@, "1ch"@],
        13 => seq!["2chr"@, "2ch"@],
        14 => seq!["ezr"@, "ez"@],
        15 => seq!["neh"@, "ne"@],
        16 => seq!["esth"@, "est"@, "es"@],
        17 => seq!["jb"@],
        18 => seq!["ps"@, "psa"@, "psalm"@, "pslm"@, "psalms"@],
        19 => seq!["prov"@, "pro"@, "prv"@, "pr"@],
        20 => seq!["eccl"@, "ecc"@, "ec"@, "qoh"@],
        21 => seq!["song"@, "sos"@, "sng"@, "canticles"@, "songofsongs"@],
        22 => seq!["isa"@, "is"@],
        23 => seq!["jer"@, "je"@, "jr"@],
        24 => seq!["lam"@, "la"@],
        25 => seq!["ezek"@, "eze"@, "ezk"@],
        26 => seq!["dan"@, "da"@, "dn"@],
        27 => seq!["hos"@, "ho"@],
        28 => seq!["jl"@],
        29 => seq!["am"@],
        30 => seq!["obad"@, "ob"@],
        31 => seq!["jnh"@, "jon"@],
        32 => seq!["mic"@, "mi"@],
        33 => seq!["nah"@, "na"@],
        34 => seq!["hab"@, "hb"@],
        35 => seq!["zeph"@, "zep"@, "zp"@],
        36 => seq!["hag"@, "hg"@],
        37 => seq!["zech"@, "zec"@, "zc"@],
        38 => seq!["mal"@, "ml"@],
        39 => seq!["matt"@, "mt"@],
        40 => seq!["mrk"@, "mk"@, "mr"@],
        41 => seq!["luk"@, "lk"@],
        42 => seq!["jn"@, "jhn"@, "joh"@],
        43 => seq!["act"@, "ac"@],
        44 => seq!["rom"@, "ro"@, "rm"@],
        45 => seq!["1cor"@, "1co"@, "icor"@],
        46 => seq!["2cor"@, "2co"@, "iicor"@],
        47 => seq!["gal"@, "ga"@],
        48 => seq!["eph"@, "ephes"@],
        49 => seq!["phil"@, "php"@, "pp"@],
        50 => seq!["col"@, "co"@],
        51 => seq!["1thess"@, "1th"@, "ithess"@],
        52 => seq!["2thess"@, "2th"@, "iithess"@],
        53 => seq!["1tim"@, "1ti"@, "itim"@],
        54 => seq!["2tim"@, "2ti"@, "iitim"@],
        55 => seq!["tit"@, "ti"@],
        56 => seq!["phlm"@, "phm"@, "pm"@],
        57 => seq!["heb"@],
        58 => seq!["jas"@, "jm"@],
        59 => seq!["1pet"@, "1pe"@, "1pt"@, "ipet"@],
        60 => seq!["2pet"@, "2pe"@, "2pt"@, "iipet"@],
        61 => seq!["1john"@, "1jn"@, "1jo"@, "ijohn"@],
        62 => seq!["2john"@, "2jn"@, "2jo"@, "iijohn"@],
        63 => seq!["3john"@, "3jn"@, "3jo"@, "iiijohn"@],
        64 => seq!["jud"@],
        _ => seq!["rev"@, "re"@, "revelations"@],
    }
}

pub fn book_name_at(i: usize) -> (r: &'static str)
    ensures
        r@ == book_name(i),
{
    match i {
        0 => "Genesis",
        1 => "Exodus",
        2 => "Leviticus",
        3 => "Numbers",
        4 => "Deuteronomy",
        5 => "Joshua",
        6 => "Judges",
        7 => "Ruth",
        8 => "1 Samuel",
        9 => "2 Samuel",
        10 => "1 Kings",
        11 => "2 Kings",
        12 => "1 Chronicles",
        13 => "2 Chronicles",
        14 => "Ezra",
        15 => "Nehemiah",
        16 => "Esther",
        17 => "Job",
        18 => "Psalms",
        19 => "Proverbs",
        20 => "Ecclesiastes",
        21 => "Song of Solomon",
        22 => "Isaiah",
        23 => "Jeremiah",
        24 => "Lamentations",
        25 => "Ezekiel",
        26 => "Daniel",
        27 => "Hosea",
        28 => "Joel",
        29 => "Amos",
        30 => "Obadiah",
        31 => "Jonah",
        32 => "Micah",
        33 => "Nahum",
        34 => "Habakkuk",
        35 => "Zephaniah",
        36 => "Haggai",
        37 => "Zechariah",
        38 => "Malachi",
        39 => "Matthew",
        40 => "Mark",
        41 => "Luke",
        42 => "John",
        43 => "Acts",
        44 => "Romans",
        45 => "1 Corinthians",
        46 => "2 Corinthians",
        47 => "Galatians",
        48 => "Ephesians",
        49 => "Philippians",
        50 => "Colossians",
        51 => "1 Thessalonians",
        52 => "2 Thessalonians",
        53 => "1 Timothy",
        54 => "2 Timothy",
        55 => "Titus",
        56 => "Philemon",
        57 => "Hebrews",
        58 => "James",
        59 => "1 Peter",
        60 => "2 Peter",
        61 => "1 John",
        62 => "2 John",
        63 => "3 John",
        64 => "Jude",
        _ => "Revelation",
    }
}

pub fn book_aliases_at(i: usize) -> (r: Vec<&'static str>)
    ensures
        strs_view(r@) == book_aliases(i),
{
    let r = match i {
        0 => vec!["gen", "ge", "gn"],
        1 => vec!["exo", "ex", "exod"],
        2 => vec!["lev", "le", "lv"],
        3 => vec!["num", "nu", "nm", "nb"],
        4 => vec!["deut", "dt", "deu"],
        5 => vec!["josh", "jos", "jsh"],
        6 => vec!["judg", "jdg", "jg", "jdgs"],
        7 => vec!["rth", "ru"],
        8 => vec!["1sam", "1sa", "1s", "isam"],
        9 => vec!["2sam", "2sa", "2s", "iisam"],
        10 => vec!["1kgs", "1ki", "1k"],
        11 => vec!["2kgs", "2ki", "2k"],
        12 => vec!["1chr", "1ch"],
        13 => vec!["2chr", "2ch"],
        14 => vec!["ezr", "ez"],
        15 => vec!["neh", "ne"],
        16 => vec!["esth", "est", "es"],
        17 => vec!["jb"],
        18 => vec!["ps", "psa", "psalm", "pslm", "psalms"],
        19 => vec!["prov", "pro", "prv", "pr"],
        20 => vec!["eccl", "ecc", "ec", "qoh"],
        21 => vec!["song", "sos", "sng", "canticles", "songofsongs"],
        22 => vec!["isa", "is"],
        23 => vec!["jer", "je", "jr"],
        24 => vec!["lam", "la"],
        25 => vec!["ezek", "eze", "ezk"],
        26 => vec!["dan", "da", "dn"],
        27 => vec!["hos", "ho"],
        28 => vec!["jl"],
        29 => vec!["am"],
        30 => vec!["obad", "ob"],
        31 => vec!["jnh", "jon"],
        32 => vec!["mic", "mi"],
        33 => vec!["nah", "na"],
        34 => vec!["hab", "hb"],
        35 => vec!["zeph", "zep", "zp"],
        36 => vec!["hag", "hg"],
        37 => vec!["zech", "zec", "zc"],
        38 => vec!["mal", "ml"],
        39 => vec!["matt", "mt"],
        40 => vec!["mrk", "mk", "mr"],
        41 => vec!["luk", "lk"],
        42 => vec!["jn", "jhn", "joh"],
        43 => vec!["act", "ac"],
        44 => vec!["rom", "ro", "rm"],
        45 => vec!["1cor", "1co", "icor"],
        46 => vec!["2cor", "2co", "iicor"],
        47 => vec!["gal", "ga"],
        48 => vec!["eph", "ephes"],
        49 => vec!["phil", "php", "pp"],
        50 => vec!["col", "co"],
        51 => vec!["1thess", "1th", "ithess"],
        52 => vec!["2thess", "2th", "iithess"],
        53 => vec!["1tim", "1ti", "itim"],
        54 => vec!["2tim", "2ti", "iitim"],
        55 => vec!["tit", "ti"],
        56 => vec!["phlm", "phm", "pm"],
        57 => vec!["heb"],
        58 => vec!["jas", "jm"],
        59 => vec!["1pet", "1pe", "1pt", "ipet"],
        60 => vec!["2pet", "2pe", "2pt", "iipet"],
        61 => vec!["1john", "1jn", "1jo", "ijohn"],
        62 => vec!["2john", "2jn", "2jo", "iijohn"],
        63 => vec!["3john", "3jn", "3jo", "iiijohn"],
        64 => vec!["jud"],
        _ => vec!["rev", "re", "revelations"],
    };
    assert(strs_view(r@) =~= book_aliases(i));
    r
}

} // verus!
