//! Revised Common Lectionary tables: the Semicontinuous readings for every
//! Sunday and feast of Years A, B and C, the Complementary Old Testament and
//! Psalm pairings of Ordinary Time, the liturgical colours, and the dates
//! around which each Proper of Ordinary Time is centred.

use vstd::prelude::*;

verus! {


/// OT, Psalm, Epistle and Gospel citations of one week.
pub type Readings = (&'static str, &'static str, &'static str, &'static str);

/// A reading-table row as text: cycle year, week id, and the four citations.
pub type ReadingRow = (Seq<char>, Seq<char>, (Seq<char>, Seq<char>, Seq<char>, Seq<char>));

pub open spec fn readings_text(r: Readings) -> (Seq<char>, Seq<char>, Seq<char>, Seq<char>) {
    (r.0@, r.1@, r.2@, r.3@)
}

pub open spec fn row_view(r: (&'static str, &'static str, Readings)) -> ReadingRow {
    (r.0@, r.1@, readings_text(r.2))
}


/// Rows in the Revised Common Lectionary table.
pub const RCL_ROWS: usize = 170;

/// Row `i` of the Revised Common Lectionary table: cycle year ("A", "B", "C" or "ALL"),
/// week id, then the OT, Psalm, Epistle and Gospel citations.
pub open spec fn rcl_row(i: usize) -> ReadingRow {
    match i {
        0 => ("A"@, "Advent1"@, ("Isa 2:1–5"@, "Ps 122"@, "Rom 13:11–14"@, "Matt 24:36–44"@)),
        1 => ("A"@, "Advent2"@, ("Isa 11:1–10"@, "Ps 72:1–7, 18–19"@, "Rom 15:4–13"@, "Matt 3:1–12"@)),
        2 => ("A"@, "Advent3"@, ("Isa 35:1–10"@, "Ps 146:5–10"@, "Jas 5:7–10"@, "Matt 11:2–11"@)),
        3 => ("A"@, "Advent4"@, ("Isa 7:10–16"@, "Ps 80:1–7, 17–19"@, "Rom 1:1–7"@, "Matt 1:18–25"@)),
        4 => ("B"@, "Advent1"@, ("Isa 64:1–9"@, "Ps 80:1–7, 17–19"@, "1 Cor 1:3–9"@, "Mark 13:24–37"@)),
        5 => ("B"@, "Advent2"@, ("Isa 40:1–11"@, "Ps 85:1–2, 8–13"@, "2 Pet 3:8–15a"@, "Mark 1:1–8"@)),
        6 => ("B"@, "Advent3"@, ("Isa 61:1–4, 8–11"@, "Ps 126"@, "1 Thess 5:16–24"@, "John 1:6–8, 19–28"@)),
        7 => ("B"@, "Advent4"@, ("2 Sam 7:1–11, 16"@, "Luke 1:47–55"@, "Rom 16:25–27"@, "Luke 1:26–38"@)),
        8 => ("C"@, "Advent1"@, ("Jer 33:14–16"@, "Ps 25:1–10"@, "1 Thess 3:9–13"@, "Luke 21:25–36"@)),
        9 => ("C"@, "Advent2"@, ("Mal 3:1–4"@, "Luke 1:68–79"@, "Phil 1:3–11"@, "Luke 3:1–6"@)),
        10 => ("C"@, "Advent3"@, ("Zeph 3:14–20"@, "Isa 12:2–6"@, "Phil 4:4–7"@, "Luke 3:7–18"@)),
        11 => ("C"@, "Advent4"@, ("Mic 5:2–5a"@, "Luke 1:47–55"@, "Heb 10:5–10"@, "Luke 1:39–45"@)),
        12 => ("ALL"@, "Christmas1A"@, ("Isa 63:7–9"@, "Ps 148"@, "Heb 2:10–18"@, "Matt 2:13–23"@)),
        13 => ("ALL"@, "Christmas1B"@, ("Isa 61:10–62:3"@, "Ps 148"@, "Gal 4:4–7"@, "Luke 2:22–40"@)),
        14 => ("ALL"@, "Christmas1C"@, ("1 Sam 2:18–20, 26"@, "Ps 148"@, "Col 3:12–17"@, "Luke 2:41–52"@)),
        15 => ("ALL"@, "Christmas2"@, ("Jer 31:7–14"@, "Ps 147:12–20"@, "Eph 1:3–14"@, "John 1:[1–9]10–18"@)),
        16 => ("A"@, "Epiphany1"@, ("Isa 42:1–9"@, "Ps 29"@, "Acts 10:34–43"@, "Matt 3:13–17"@)),
        17 => ("B"@, "Epiphany1"@, ("Gen 1:1–5"@, "Ps 29"@, "Acts 19:1–7"@, "Mark 1:4–11"@)),
        18 => ("C"@, "Epiphany1"@, ("Isa 43:1–7"@, "Ps 29"@, "Acts 8:14–17"@, "Luke 3:15–17, 21–22"@)),
        19 => ("A"@, "Epiphany2"@, ("Isa 49:1–7"@, "Ps 40:1–11"@, "1 Cor 1:1–9"@, "John 1:29–42"@)),
        20 => ("B"@, "Epiphany2"@, ("1 Sam 3:1–10"@, "Ps 139:1–6, 13–18"@, "1 Cor 6:12–20"@, "John 1:43–51"@)),
        21 => ("C"@, "Epiphany2"@, ("Isa 62:1–5"@, "Ps 36:5–10"@, "1 Cor 12:1–11"@, "John 2:1–11"@)),
        22 => ("A"@, "Epiphany3"@, ("Isa 9:1–4"@, "Ps 27:1, 4–9"@, "1 Cor 1:10–18"@, "Matt 4:12–23"@)),
        23 => ("B"@, "Epiphany3"@, ("Jon 3:1–5, 10"@, "Ps 62:5–12"@, "1 Cor 7:29–31"@, "Mark 1:14–20"@)),
        24 => ("C"@, "Epiphany3"@, ("Neh 8:1–3, 5–6, 8–10"@, "Ps 19"@, "1 Cor 12:12–31a"@, "Luke 4:14–21"@)),
        25 => ("A"@, "Epiphany4"@, ("Mic 6:1–8"@, "Ps 15"@, "1 Cor 1:18–31"@, "Matt 5:1–12"@)),
        26 => ("B"@, "Epiphany4"@, ("Deut 18:15–20"@, "Ps 111"@, "1 Cor 8:1–13"@, "Mark 1:21–28"@)),
        27 => ("C"@, "Epiphany4"@, ("Jer 1:4–10"@, "Ps 71:1–6"@, "1 Cor 13:1–13"@, "Luke 4:21–30"@)),
        28 => ("A"@, "Epiphany5"@, ("Isa 58:1–9a"@, "Ps 112:1–9"@, "1 Cor 2:1–12"@, "Matt 5:13–20"@)),
        29 => ("B"@, "Epiphany5"@, ("Isa 40:21–31"@, "Ps 147:1–11, 20c"@, "1 Cor 9:16–23"@, "Mark 1:29–39"@)),
        30 => ("C"@, "Epiphany5"@, ("Isa 6:1–8"@, "Ps 138"@, "1 Cor 15:1–11"@, "Luke 5:1–11"@)),
        31 => ("A"@, "Epiphany6"@, ("Deut 30:15–20"@, "Ps 119:1–8"@, "1 Cor 3:1–9"@, "Matt 5:21–37"@)),
        32 => ("B"@, "Epiphany6"@, ("2 Kgs 5:1–14"@, "Ps 30"@, "1 Cor 9:24–27"@, "Mark 1:40–45"@)),
        33 => ("C"@, "Epiphany6"@, ("Jer 17:5–10"@, "Ps 1"@, "1 Cor 15:12–20"@, "Luke 6:17–26"@)),
        34 => ("A"@, "Epiphany7"@, ("Lev 19:1–2, 9–18"@, "Ps 119:33–40"@, "1 Cor 3:10–11, 16–23"@, "Matt 5:38–48"@)),
        35 => ("B"@, "Epiphany7"@, ("Isa 43:18–25"@, "Ps 41"@, "2 Cor 1:18–22"@, "Mark 2:1–12"@)),
        36 => ("C"@, "Epiphany7"@, ("Gen 45:3–11, 15"@, "Ps 37:1–11, 39–40"@, "1 Cor 15:35–38, 42–50"@, "Luke 6:27–38"@)),
        37 => ("A"@, "Epiphany8"@, ("Isa 49:8–16a"@, "Ps 131"@, "1 Cor 4:1–5"@, "Matt 6:24–34"@)),
        38 => ("B"@, "Epiphany8"@, ("Hos 2:14–20"@, "Ps 103:1–13, 22"@, "2 Cor 3:1–6"@, "Mark 2:13–22"@)),
        39 => ("C"@, "Epiphany8"@, ("Isa 55:10–13"@, "Ps 92:1–4, 12–15"@, "1 Cor 15:51–58"@, "Luke 6:39–49"@)),
        40 => ("A"@, "Transfiguration"@, ("Exod 24:12–18"@, "Ps 2"@, "2 Pet 1:16–21"@, "Matt 17:1–9"@)),
        41 => ("B"@, "Transfiguration"@, ("2 Kgs 2:1–12"@, "Ps 50:1–6"@, "2 Cor 4:3–6"@, "Mark 9:2–9"@)),
        42 => ("C"@, "Transfiguration"@, ("Exod 34:29–35"@, "Ps 99"@, "2 Cor 3:12–4:2"@, "Luke 9:28–36"@)),
        43 => ("ALL"@, "AshWednesday"@, ("Joel 2:1–2, 12–17"@, "Ps 51:1–17"@, "2 Cor 5:20b–6:10"@, "Matt 6:1–6, 16–21"@)),
        44 => ("A"@, "Lent1"@, ("Gen 2:15–17; 3:1–7"@, "Ps 32"@, "Rom 5:12–19"@, "Matt 4:1–11"@)),
        45 => ("B"@, "Lent1"@, ("Gen 9:8–17"@, "Ps 25:1–10"@, "1 Pet 3:18–22"@, "Mark 1:9–15"@)),
        46 => ("C"@, "Lent1"@, ("Deut 26:1–11"@, "Ps 91:1–2, 9–16"@, "Rom 10:8b–13"@, "Luke 4:1–13"@)),
        47 => ("A"@, "Lent2"@, ("Gen 12:1–4a"@, "Ps 121"@, "Rom 4:1–5, 13–17"@, "John 3:1–17"@)),
        48 => ("B"@, "Lent2"@, ("Gen 17:1–7, 15–16"@, "Ps 22:23–31"@, "Rom 4:13–25"@, "Mark 8:31–38"@)),
        49 => ("C"@, "Lent2"@, ("Gen 15:1–12, 17–18"@, "Ps 27"@, "Phil 3:17–4:1"@, "Luke 13:31–35"@)),
        50 => ("A"@, "Lent3"@, ("Exod 17:1–7"@, "Ps 95"@, "Rom 5:1–11"@, "John 4:5–42"@)),
        51 => ("B"@, "Lent3"@, ("Exod 20:1–17"@, "Ps 19"@, "1 Cor 1:18–25"@, "John 2:13–22"@)),
        52 => ("C"@, "Lent3"@, ("Isa 55:1–9"@, "Ps 63:1–8"@, "1 Cor 10:1–13"@, "Luke 13:1–9"@)),
        53 => ("A"@, "Lent4"@, ("1 Sam 16:1–13"@, "Ps 23"@, "Eph 5:8–14"@, "John 9:1–41"@)),
        54 => ("B"@, "Lent4"@, ("Num 21:4–9"@, "Ps 107:1–3, 17–22"@, "Eph 2:1–10"@, "John 3:14–21"@)),
        55 => ("C"@, "Lent4"@, ("Josh 5:9–12"@, "Ps 32"@, "2 Cor 5:16–21"@, "Luke 15:1–3, 11b–32"@)),
        56 => ("A"@, "Lent5"@, ("Ezek 37:1–14"@, "Ps 130"@, "Rom 8:6–11"@, "John 11:1–45"@)),
        57 => ("B"@, "Lent5"@, ("Jer 31:31–34"@, "Ps 51:1–12"@, "Heb 5:5–10"@, "John 12:20–33"@)),
        58 => ("C"@, "Lent5"@, ("Isa 43:16–21"@, "Ps 126"@, "Phil 3:4b–14"@, "John 12:1–8"@)),
        59 => ("A"@, "PalmSunday"@, ("Isa 50:4–9a"@, "Ps 31:9–16"@, "Phil 2:5–11"@, "Matt 26:14–27:66"@)),
        60 => ("B"@, "PalmSunday"@, ("Isa 50:4–9a"@, "Ps 31:9–16"@, "Phil 2:5–11"@, "Mark 14:1–15:47"@)),
        61 => ("C"@, "PalmSunday"@, ("Isa 50:4–9a"@, "Ps 31:9–16"@, "Phil 2:5–11"@, "Luke 22:14–23:56"@)),
        62 => ("ALL"@, "HolyThursday"@, ("Exod 12:1–4, 11–14"@, "Ps 116:1–2, 12–19"@, "1 Cor 11:23–26"@, "John 13:1–17, 31b–35"@)),
        63 => ("ALL"@, "GoodFriday"@, ("Isa 52:13–53:12"@, "Ps 22"@, "Heb 10:16–25"@, "John 18:1–19:42"@)),
        64 => ("A"@, "Easter"@, ("Acts 10:34–43"@, "Ps 118:1–2, 14–24"@, "Col 3:1–4"@, "John 20:1–18"@)),
        65 => ("B"@, "Easter"@, ("Acts 10:34–43"@, "Ps 118:1–2, 14–24"@, "1 Cor 15:1–11"@, "John 20:1–18"@)),
        66 => ("C"@, "Easter"@, ("Acts 10:34–43"@, "Ps 118:1–2, 14–24"@, "1 Cor 15:19–26"@, "John 20:1–18"@)),
        67 => ("A"@, "Easter2"@, ("Acts 2:14a, 22–32"@, "Ps 16"@, "1 Pet 1:3–9"@, "John 20:19–31"@)),
        68 => ("B"@, "Easter2"@, ("Acts 4:32–35"@, "Ps 133"@, "1 John 1:1–2:2"@, "John 20:19–31"@)),
        69 => ("C"@, "Easter2"@, ("Acts 5:27–32"@, "Ps 118:14–29"@, "Rev 1:4–8"@, "John 20:19–31"@)),
        70 => ("A"@, "Easter3"@, ("Acts 2:14a, 36–41"@, "Ps 116:1–4, 12–19"@, "1 Pet 1:17–23"@, "Luke 24:13–35"@)),
        71 => ("B"@, "Easter3"@, ("Acts 3:12–19"@, "Ps 4"@, "1 John 3:1–7"@, "Luke 24:36b–48"@)),
        72 => ("C"@, "Easter3"@, ("Acts 9:1–6"@, "Ps 30"@, "Rev 5:11–14"@, "John 21:1–19"@)),
        73 => ("A"@, "Easter4"@, ("Acts 2:42–47"@, "Ps 23"@, "1 Pet 2:19–25"@, "John 10:1–10"@)),
        74 => ("B"@, "Easter4"@, ("Acts 4:5–12"@, "Ps 23"@, "1 John 3:16–24"@, "John 10:11–18"@)),
        75 => ("C"@, "Easter4"@, ("Acts 9:36–43"@, "Ps 23"@, "Rev 7:9–17"@, "John 10:22–30"@)),
        76 => ("A"@, "Easter5"@, ("Acts 7:55–60"@, "Ps 31:1–5, 15–16"@, "1 Pet 2:2–10"@, "John 14:1–14"@)),
        77 => ("B"@, "Easter5"@, ("Acts 8:26–40"@, "Ps 22:25–31"@, "1 John 4:7–21"@, "John 15:1–8"@)),
        78 => ("C"@, "Easter5"@, ("Acts 11:1–18"@, "Ps 148"@, "Rev 21:1–6"@, "John 13:31–35"@)),
        79 => ("A"@, "Easter6"@, ("Acts 17:22–31"@, "Ps 66:8–20"@, "1 Pet 3:13–22"@, "John 14:15–21"@)),
        80 => ("B"@, "Easter6"@, ("Acts 10:44–48"@, "Ps 98"@, "1 John 5:1–6"@, "John 15:9–17"@)),
        81 => ("C"@, "Easter6"@, ("Acts 16:9–15"@, "Ps 67"@, "Rev 21:10, 22–22:5"@, "John 14:23–29"@)),
        82 => ("ALL"@, "Ascension"@, ("Acts 1:1–11"@, "Ps 47"@, "Eph 1:15–23"@, "Luke 24:44–53"@)),
        83 => ("A"@, "Easter7"@, ("Acts 1:6–14"@, "Ps 68:1–10, 32–35"@, "1 Pet 4:12–14; 5:6–11"@, "John 17:1–11"@)),
        84 => ("B"@, "Easter7"@, ("Acts 1:15–17, 21–26"@, "Ps 1"@, "1 John 5:9–13"@, "John 17:6–19"@)),
        85 => ("C"@, "Easter7"@, ("Acts 16:16–34"@, "Ps 97"@, "Rev 22:12–14, 16–17, 20–21"@, "John 17:20–26"@)),
        86 => ("A"@, "Pentecost"@, ("Acts 2:1–21"@, "Ps 104:24–34, 35b"@, "1 Cor 12:3b–13"@, "John 20:19–23"@)),
        87 => ("B"@, "Pentecost"@, ("Acts 2:1–21"@, "Ps 104:24–34, 35b"@, "Rom 8:22–27"@, "John 15:26–27; 16:4b–15"@)),
        88 => ("C"@, "Pentecost"@, ("Acts 2:1–21"@, "Ps 104:24–34, 35b"@, "Rom 8:14–17"@, "John 14:8–17"@)),
        89 => ("A"@, "Trinity"@, ("Gen 1:1–2:4a"@, "Ps 8"@, "2 Cor 13:11–13"@, "Matt 28:16–20"@)),
        90 => ("B"@, "Trinity"@, ("Isa 6:1–8"@, "Ps 29"@, "Rom 8:12–17"@, "John 3:1–17"@)),
        91 => ("C"@, "Trinity"@, ("Prov 8:1–4, 22–31"@, "Ps 8"@, "Rom 5:1–5"@, "John 16:12–15"@)),
        92 => ("A"@, "Proper4"@, ("Gen 6:9–22; 7:24; 8:14–19"@, "Ps 46"@, "Rom 1:16–17; 3:22b–28"@, "Matt 7:21–29"@)),
        93 => ("B"@, "Proper4"@, ("1 Sam 3:1–10"@, "Ps 139:1–6, 13–18"@, "2 Cor 4:5–12"@, "Mark 2:23–3:6"@)),
        94 => ("C"@, "Proper4"@, ("1 Kgs 18:20–21, 30–39"@, "Ps 96"@, "Gal 1:1–12"@, "Luke 7:1–10"@)),
        95 => ("A"@, "Proper5"@, ("Gen 12:1–9"@, "Ps 33:1–12"@, "Rom 4:13–25"@, "Matt 9:9–13, 18–26"@)),
        96 => ("B"@, "Proper5"@, ("1 Sam 8:4–11, 16–20"@, "Ps 138"@, "2 Cor 4:13–5:1"@, "Mark 3:20–35"@)),
        97 => ("C"@, "Proper5"@, ("1 Kgs 17:8–16"@, "Ps 146"@, "Gal 1:11–24"@, "Luke 7:11–17"@)),
        98 => ("A"@, "Proper6"@, ("Gen 18:1–15"@, "Ps 116:1–2, 12–19"@, "Rom 5:1–8"@, "Matt 9:35–10:8"@)),
        99 => ("B"@, "Proper6"@, ("1 Sam 15:34–16:13"@, "Ps 20"@, "2 Cor 5:6–10, 14–17"@, "Mark 4:26–34"@)),
        100 => ("C"@, "Proper6"@, ("1 Kgs 21:1–10, 15–21a"@, "Ps 5:1–8"@, "Gal 2:15–21"@, "Luke 7:36–8:3"@)),
        101 => ("A"@, "Proper7"@, ("Gen 21:8–21"@, "Ps 86:1–10, 16–17"@, "Rom 6:1b–11"@, "Matt 10:24–39"@)),
        102 => ("B"@, "Proper7"@, ("1 Sam 17:32–49"@, "Ps 9:9–20"@, "2 Cor 6:1–13"@, "Mark 4:35–41"@)),
        103 => ("C"@, "Proper7"@, ("1 Kgs 19:1–4, 8–15a"@, "Ps 42"@, "Gal 3:23–29"@, "Luke 8:26–39"@)),
        104 => ("A"@, "Proper8"@, ("Gen 22:1–14"@, "Ps 13"@, "Rom 6:12–23"@, "Matt 10:40–42"@)),
        105 => ("B"@, "Proper8"@, ("2 Sam 1:1, 17–27"@, "Ps 130"@, "2 Cor 8:7–15"@, "Mark 5:21–43"@)),
        106 => ("C"@, "Proper8"@, ("2 Kgs 2:1–2, 6–14"@, "Ps 77:1–2, 11–20"@, "Gal 5:1, 13–25"@, "Luke 9:51–62"@)),
        107 => ("A"@, "Proper9"@, ("Gen 24:34–38, 42–49, 58–67"@, "Ps 45:10–17"@, "Rom 7:15–25a"@, "Matt 11:16–19, 25–30"@)),
        108 => ("B"@, "Proper9"@, ("2 Sam 5:1–5, 9–10"@, "Ps 48"@, "2 Cor 12:2–10"@, "Mark 6:1–13"@)),
        109 => ("C"@, "Proper9"@, ("2 Kgs 5:1–14"@, "Ps 30"@, "Gal 6:1–16"@, "Luke 10:1–11, 16–20"@)),
        110 => ("A"@, "Proper10"@, ("Gen 25:19–34"@, "Ps 119:105–112"@, "Rom 8:1–11"@, "Matt 13:1–9, 18–23"@)),
        111 => ("B"@, "Proper10"@, ("2 Sam 6:1–5, 12b–19"@, "Ps 24"@, "Eph 1:3–14"@, "Mark 6:14–29"@)),
        112 => ("C"@, "Proper10"@, ("Amos 7:7–17"@, "Ps 82"@, "Col 1:1–14"@, "Luke 10:25–37"@)),
        113 => ("A"@, "Proper11"@, ("Gen 28:10–19a"@, "Ps 139:1–12, 23–24"@, "Rom 8:12–25"@, "Matt 13:24–30, 36–43"@)),
        114 => ("B"@, "Proper11"@, ("2 Sam 7:1–14a"@, "Ps 89:20–37"@, "Eph 2:11–22"@, "Mark 6:30–34, 53–56"@)),
        115 => ("C"@, "Proper11"@, ("Amos 8:1–12"@, "Ps 52"@, "Col 1:15–28"@, "Luke 10:38–42"@)),
        116 => ("A"@, "Proper12"@, ("Gen 29:15–28"@, "Ps 105:1–11, 45b"@, "Rom 8:26–39"@, "Matt 13:31–33, 44–52"@)),
        117 => ("B"@, "Proper12"@, ("2 Sam 11:1–15"@, "Ps 14"@, "Eph 3:14–21"@, "John 6:1–21"@)),
        118 => ("C"@, "Proper12"@, ("Hos 1:2–10"@, "Ps 85"@, "Col 2:6–15"@, "Luke 11:1–13"@)),
        119 => ("A"@, "Proper13"@, ("Gen 32:22–31"@, "Ps 17:1–7, 15"@, "Rom 9:1–5"@, "Matt 14:13–21"@)),
        120 => ("B"@, "Proper13"@, ("2 Sam 11:26–12:13a"@, "Ps 51:1–12"@, "Eph 4:1–16"@, "John 6:24–35"@)),
        121 => ("C"@, "Proper13"@, ("Hos 11:1–11"@, "Ps 107:1–9, 43"@, "Col 3:1–11"@, "Luke 12:13–21"@)),
        122 => ("A"@, "Proper14"@, ("Gen 37:1–4, 12–28"@, "Ps 105:1–6, 16–22"@, "Rom 10:5–15"@, "Matt 14:22–33"@)),
        123 => ("B"@, "Proper14"@, ("2 Sam 18:5–9, 15, 31–33"@, "Ps 130"@, "Eph 4:25–5:2"@, "John 6:35, 41–51"@)),
        124 => ("C"@, "Proper14"@, ("Isa 1:1, 10–20"@, "Ps 50:1–8, 22–23"@, "Heb 11:1–3, 8–16"@, "Luke 12:32–40"@)),
        125 => ("A"@, "Proper15"@, ("Gen 45:1–15"@, "Ps 133"@, "Rom 11:1–2a, 29–32"@, "Matt 15:21–28"@)),
        126 => ("B"@, "Proper15"@, ("1 Kgs 2:10–12; 3:3–14"@, "Ps 111"@, "Eph 5:15–20"@, "John 6:51–58"@)),
        127 => ("C"@, "Proper15"@, ("Isa 5:1–7"@, "Ps 80:1–2, 8–19"@, "Heb 11:29–12:2"@, "Luke 12:49–56"@)),
        128 => ("A"@, "Proper16"@, ("Exod 1:8–2:10"@, "Ps 124"@, "Rom 12:1–8"@, "Matt 16:13–20"@)),
        129 => ("B"@, "Proper16"@, ("1 Kgs 8:1, 6, 10–11, 22–30"@, "Ps 84"@, "Eph 6:10–20"@, "John 6:56–69"@)),
        130 => ("C"@, "Proper16"@, ("Isa 58:9b–14"@, "Ps 103:1–8"@, "Heb 12:18–29"@, "Luke 13:10–17"@)),
        131 => ("A"@, "Proper17"@, ("Exod 3:1–15"@, "Ps 105:1–6, 23–26"@, "Rom 12:9–21"@, "Matt 16:21–28"@)),
        132 => ("B"@, "Proper17"@, ("Song 2:8–13"@, "Ps 45:1–2, 6–9"@, "Jas 1:17–27"@, "Mark 7:1–8, 14–15, 21–23"@)),
        133 => ("C"@, "Proper17"@, ("Jer 2:4–13"@, "Ps 81:1, 10–16"@, "Heb 13:1–8, 15–16"@, "Luke 14:1, 7–14"@)),
        134 => ("A"@, "Proper18"@, ("Exod 12:1–14"@, "Ps 149"@, "Rom 13:8–14"@, "Matt 18:15–20"@)),
        135 => ("B"@, "Proper18"@, ("Prov 22:1–2, 8–9, 22–23"@, "Ps 125"@, "Jas 2:1–17"@, "Mark 7:24–37"@)),
        136 => ("C"@, "Proper18"@, ("Jer 18:1–11"@, "Ps 139:1–6, 13–18"@, "Phlm 1–21"@, "Luke 14:25–33"@)),
        137 => ("A"@, "Proper19"@, ("Exod 14:19–31"@, "Ps 114"@, "Rom 14:1–12"@, "Matt 18:21–35"@)),
        138 => ("B"@, "Proper19"@, ("Prov 1:20–33"@, "Ps 19"@, "Jas 3:1–12"@, "Mark 8:27–38"@)),
        139 => ("C"@, "Proper19"@, ("Jer 4:11–12, 22–28"@, "Ps 14"@, "1 Tim 1:12–17"@, "Luke 15:1–10"@)),
        140 => ("A"@, "Proper20"@, ("Exod 16:2–15"@, "Ps 105:1–6, 37–45"@, "Phil 1:21–30"@, "Matt 20:1–16"@)),
        141 => ("B"@, "Proper20"@, ("Prov 31:10–31"@, "Ps 1"@, "Jas 3:13–4:3, 7–8a"@, "Mark 9:30–37"@)),
        142 => ("C"@, "Proper20"@, ("Jer 8:18–9:1"@, "Ps 79:1–9"@, "1 Tim 2:1–7"@, "Luke 16:1–13"@)),
        143 => ("A"@, "Proper21"@, ("Exod 17:1–7"@, "Ps 78:1–4, 12–16"@, "Phil 2:1–13"@, "Matt 21:23–32"@)),
        144 => ("B"@, "Proper21"@, ("Esth 7:1–6, 9–10; 9:20–22"@, "Ps 124"@, "Jas 5:13–20"@, "Mark 9:38–50"@)),
        145 => ("C"@, "Proper21"@, ("Jer 32:1–3a, 6–15"@, "Ps 91:1–6, 14–16"@, "1 Tim 6:6–19"@, "Luke 16:19–31"@)),
        146 => ("A"@, "Proper22"@, ("Exod 20:1–4, 7–9, 12–20"@, "Ps 19"@, "Phil 3:4b–14"@, "Matt 21:33–46"@)),
        147 => ("B"@, "Proper22"@, ("Job 1:1; 2:1–10"@, "Ps 26"@, "Heb 1:1–4; 2:5–12"@, "Mark 10:2–16"@)),
        148 => ("C"@, "Proper22"@, ("Lam 1:1–6"@, "Ps 137"@, "2 Tim 1:1–14"@, "Luke 17:5–10"@)),
        149 => ("A"@, "Proper23"@, ("Exod 32:1–14"@, "Ps 106:1–6, 19–23"@, "Phil 4:1–9"@, "Matt 22:1–14"@)),
        150 => ("B"@, "Proper23"@, ("Job 23:1–9, 16–17"@, "Ps 22:1–15"@, "Heb 4:12–16"@, "Mark 10:17–31"@)),
        151 => ("C"@, "Proper23"@, ("Jer 29:1, 4–7"@, "Ps 66:1–12"@, "2 Tim 2:8–15"@, "Luke 17:11–19"@)),
        152 => ("A"@, "Proper24"@, ("Exod 33:12–23"@, "Ps 99"@, "1 Thess 1:1–10"@, "Matt 22:15–22"@)),
        153 => ("B"@, "Proper24"@, ("Job 38:1–7"@, "Ps 104:1–9, 24, 35c"@, "Heb 5:1–10"@, "Mark 10:35–45"@)),
        154 => ("C"@, "Proper24"@, ("Jer 31:27–34"@, "Ps 119:97–104"@, "2 Tim 3:14–4:5"@, "Luke 18:1–8"@)),
        155 => ("A"@, "Proper25"@, ("Deut 34:1–12"@, "Ps 90:1–6, 13–17"@, "1 Thess 2:1–8"@, "Matt 22:34–46"@)),
        156 => ("B"@, "Proper25"@, ("Job 42:1–6, 10–17"@, "Ps 34:1–8"@, "Heb 7:23–28"@, "Mark 10:46–52"@)),
        157 => ("C"@, "Proper25"@, ("Joel 2:23–32"@, "Ps 65"@, "2 Tim 4:6–8, 16–18"@, "Luke 18:9–14"@)),
        158 => ("A"@, "Proper26"@, ("Josh 3:7–17"@, "Ps 107:1–7, 33–37"@, "1 Thess 2:9–13"@, "Matt 23:1–12"@)),
        159 => ("B"@, "Proper26"@, ("Ruth 1:1–18"@, "Ps 146"@, "Heb 9:11–14"@, "Mark 12:28–34"@)),
        160 => ("C"@, "Proper26"@, ("Hab 1:1–4; 2:1–4"@, "Ps 119:137–144"@, "2 Thess 1:1–4, 11–12"@, "Luke 19:1–10"@)),
        161 => ("A"@, "Proper27"@, ("Josh 24:1–3a, 14–25"@, "Ps 78:1–7"@, "1 Thess 4:13–18"@, "Matt 25:1–13"@)),
        162 => ("B"@, "Proper27"@, ("Ruth 3:1–5; 4:13–17"@, "Ps 127"@, "Heb 9:24–28"@, "Mark 12:38–44"@)),
        163 => ("C"@, "Proper27"@, ("Hag 1:15b–2:9"@, "Ps 145:1–5, 17–21"@, "2 Thess 2:1–5, 13–17"@, "Luke 20:27–38"@)),
        164 => ("A"@, "Proper28"@, ("Judg 4:1–7"@, "Ps 123"@, "1 Thess 5:1–11"@, "Matt 25:14–30"@)),
        165 => ("B"@, "Proper28"@, ("1 Sam 1:4–20"@, "1 Sam 2:1–10"@, "Heb 10:11–14, 19–25"@, "Mark 13:1–8"@)),
        166 => ("C"@, "Proper28"@, ("Isa 65:17–25"@, "Isa 12"@, "2 Thess 3:6–13"@, "Luke 21:5–19"@)),
        167 => ("A"@, "Proper29"@, ("Ezek 34:11–16, 20–24"@, "Ps 95:1–7a"@, "Eph 1:15–23"@, "Matt 25:31–46"@)),
        168 => ("B"@, "Proper29"@, ("2 Sam 23:1–7"@, "Ps 132:1–12"@, "Rev 1:4b–8"@, "John 18:33–37"@)),
        _ => ("C"@, "Proper29"@, ("Jer 23:1–6"@, "Ps 46"@, "Col 1:11–20"@, "Luke 23:33–43"@)),
    }
}

/// Row `i` of the Revised Common Lectionary table.
/// The readings table has one row for the Ascension: row 82, shared by all
/// three years.
pub proof fn lemma_ascension_row(i: usize)
    ensures
        rcl_row(i).1 == "Ascension"@ ==> i == 82,
        rcl_row(82) == ("ALL"@, "Ascension"@, ("Acts 1:1–11"@, "Ps 47"@, "Eph 1:15–23"@, "Luke 24:44–53"@)),
{
    reveal_strlit("Ascension");
    assert("Ascension"@.len() == 9);
    if i == 0 {
        reveal_strlit("Advent1");
        assert(rcl_row(i).1.len() != 9);
    } else if i == 1 {
        reveal_strlit("Advent2");
        assert(rcl_row(i).1.len() != 9);
    } else if i == 2 {
        reveal_strlit("Advent3");
        assert(rcl_row(i).1.len() != 9);
    } else if i == 3 {
        reveal_strlit("Advent4");
        assert(rcl_row(i).1.len() != 9);
    } else if i == 4 {
        reveal_strlit("Advent1");
        assert(rcl_row(i).1.len() != 9);
    } else if i == 5 {
        reveal_strlit("Advent2");
        assert(rcl_row(i).1.len() != 9);
    } else if i == 6 {
        reveal_strlit("Advent3");
        assert(rcl_row(i).1.len() != 9);
    } else if i == 7 {
        reveal_strlit("Advent4");
        assert(rcl_row(i).1.len() != 9);
    } else if i == 8 {
        reveal_strlit("Advent1");
        assert(rcl_row(i).1.len() != 9);
    } else if i == 9 {
        reveal_strlit("Advent2");
        assert(rcl_row(i).1.len() != 9);
    } else if i == 10 {
        reveal_strlit("Advent3");
        assert(rcl_row(i).1.len() != 9);
    } else if i == 11 {
        reveal_strlit("Advent4");
        assert(rcl_row(i).1.len() != 9);
    } else if i == 12 {
        reveal_strlit("Christmas1A");
        assert(rcl_row(i).1.len() != 9);
    } else if i == 13 {
        reveal_strlit("Christmas1B");
        assert(rcl_row(i).1.len() != 9);
    } else if i == 14 {
        reveal_strlit("Christmas1C");
        assert(rcl_row(i).1.len() != 9);
    } else if i == 15 {
        reveal_strlit("Christmas2");
        assert(rcl_row(i).1.len() != 9);
    } else if i == 16 {
        reveal_strlit("Epiphany1");
        assert(rcl_row(i).1[0] != 'A');
    } else if i == 17 {
        reveal_strlit("Epiphany1");
        assert(rcl_row(i).1[0] != 'A');
    } else if i == 18 {
        reveal_strlit("Epiphany1");
        assert(rcl_row(i).1[0] != 'A');
    } else if i == 19 {
        reveal_strlit("Epiphany2");
        assert(rcl_row(i).1[0] != 'A');
    } else if i == 20 {
        reveal_strlit("Epiphany2");
        assert(rcl_row(i).1[0] != 'A');
    } else if i == 21 {
        reveal_strlit("Epiphany2");
        assert(rcl_row(i).1[0] != 'A');
    } else if i == 22 {
        reveal_strlit("Epiphany3");
        assert(rcl_row(i).1[0] != 'A');
    } else if i == 23 {
        reveal_strlit("Epiphany3");
        assert(rcl_row(i).1[0] != 'A');
    } else if i == 24 {
        reveal_strlit("Epiphany3");
        assert(rcl_row(i).1[0] != 'A');
    } else if i == 25 {
        reveal_strlit("Epiphany4");
        assert(rcl_row(i).1[0] != 'A');
    } else if i == 26 {
        reveal_strlit("Epiphany4");
        assert(rcl_row(i).1[0] != 'A');
    } else if i == 27 {
        reveal_strlit("Epiphany4");
        assert(rcl_row(i).1[0] != 'A');
    } else if i == 28 {
        reveal_strlit("Epiphany5");
        assert(rcl_row(i).1[0] != 'A');
    } else if i == 29 {
        reveal_strlit("Epiphany5");
        assert(rcl_row(i).1[0] != 'A');
    } else if i == 30 {
        reveal_strlit("Epiphany5");
        assert(rcl_row(i).1[0] != 'A');
    } else if i == 31 {
        reveal_strlit("Epiphany6");
        assert(rcl_row(i).1[0] != 'A');
    } else if i == 32 {
        reveal_strlit("Epiphany6");
        assert(rcl_row(i).1[0] != 'A');
    } else if i == 33 {
        reveal_strlit("Epiphany6");
        assert(rcl_row(i).1[0] != 'A');
    } else if i == 34 {
        reveal_strlit("Epiphany7");
        assert(rcl_row(i).1[0] != 'A');
    } else if i == 35 {
        reveal_strlit("Epiphany7");
        assert(rcl_row(i).1[0] != 'A');
    } else if i == 36 {
        reveal_strlit("Epiphany7");
        assert(rcl_row(i).1[0] != 'A');
    } else if i == 37 {
        reveal_strlit("Epiphany8");
        assert(rcl_row(i).1[0] != 'A');
    } else if i == 38 {
        reveal_strlit("Epiphany8");
        assert(rcl_row(i).1[0] != 'A');
    } else if i == 39 {
        reveal_strlit("Epiphany8");
        assert(rcl_row(i).1[0] != 'A');
    } else if i == 40 {
        reveal_strlit("Transfiguration");
        assert(rcl_row(i).1.len() != 9);
    } else if i == 41 {
        reveal_strlit("Transfiguration");
        assert(rcl_row(i).1.len() != 9);
    } else if i == 42 {
        reveal_strlit("Transfiguration");
        assert(rcl_row(i).1.len() != 9);
    } else if i == 43 {
        reveal_strlit("AshWednesday");
        assert(rcl_row(i).1.len() != 9);
    } else if i == 44 {
        reveal_strlit("Lent1");
        assert(rcl_row(i).1.len() != 9);
    } else if i == 45 {
        reveal_strlit("Lent1");
        assert(rcl_row(i).1.len() != 9);
    } else if i == 46 {
        reveal_strlit("Lent1");
        assert(rcl_row(i).1.len() != 9);
    } else if i == 47 {
        reveal_strlit("Lent2");
        assert(rcl_row(i).1.len() != 9);
    } else if i == 48 {
        reveal_strlit("Lent2");
        assert(rcl_row(i).1.len() != 9);
    } else if i == 49 {
        reveal_strlit("Lent2");
        assert(rcl_row(i).1.len() != 9);
    } else if i == 50 {
        reveal_strlit("Lent3");
        assert(rcl_row(i).1.len() != 9);
    } else if i == 51 {
        reveal_strlit("Lent3");
        assert(rcl_row(i).1.len() != 9);
    } else if i == 52 {
        reveal_strlit("Lent3");
        assert(rcl_row(i).1.len() != 9);
    } else if i == 53 {
        reveal_strlit("Lent4");
        assert(rcl_row(i).1.len() != 9);
    } else if i == 54 {
        reveal_strlit("Lent4");
        assert(rcl_row(i).1.len() != 9);
    } else if i == 55 {
        reveal_strlit("Lent4");
        assert(rcl_row(i).1.len() != 9);
    } else if i == 56 {
        reveal_strlit("Lent5");
        assert(rcl_row(i).1.len() != 9);
    } else if i == 57 {
        reveal_strlit("Lent5");
        assert(rcl_row(i).1.len() != 9);
    } else if i == 58 {
        reveal_strlit("Lent5");
        assert(rcl_row(i).1.len() != 9);
    } else if i == 59 {
        reveal_strlit("PalmSunday");
        assert(rcl_row(i).1.len() != 9);
    } else if i == 60 {
        reveal_strlit("PalmSunday");
        assert(rcl_row(i).1.len() != 9);
    } else if i == 61 {
        reveal_strlit("PalmSunday");
        assert(rcl_row(i).1.len() != 9);
    } else if i == 62 {
        reveal_strlit("HolyThursday");
        assert(rcl_row(i).1.len() != 9);
    } else if i == 63 {
        reveal_strlit("GoodFriday");
        assert(rcl_row(i).1.len() != 9);
    } else if i == 64 {
        reveal_strlit("Easter");
        assert(rcl_row(i).1.len() != 9);
    } else if i == 65 {
        reveal_strlit("Easter");
        assert(rcl_row(i).1.len() != 9);
    } else if i == 66 {
        reveal_strlit("Easter");
        assert(rcl_row(i).1.len() != 9);
    } else if i == 67 {
        reveal_strlit("Easter2");
        assert(rcl_row(i).1.len() != 9);
    } else if i == 68 {
        reveal_strlit("Easter2");
        assert(rcl_row(i).1.len() != 9);
    } else if i == 69 {
        reveal_strlit("Easter2");
        assert(rcl_row(i).1.len() != 9);
    } else if i == 70 {
        reveal_strlit("Easter3");
        assert(rcl_row(i).1.len() != 9);
    } else if i == 71 {
        reveal_strlit("Easter3");
        assert(rcl_row(i).1.len() != 9);
    } else if i == 72 {
        reveal_strlit("Easter3");
        assert(rcl_row(i).1.len() != 9);
    } else if i == 73 {
        reveal_strlit("Easter4");
        assert(rcl_row(i).1.len() != 9);
    } else if i == 74 {
        reveal_strlit("Easter4");
        assert(rcl_row(i).1.len() != 9);
    } else if i == 75 {
        reveal_strlit("Easter4");
        assert(rcl_row(i).1.len() != 9);
    } else if i == 76 {
        reveal_strlit("Easter5");
        assert(rcl_row(i).1.len() != 9);
    } else if i == 77 {
        reveal_strlit("Easter5");
        assert(rcl_row(i).1.len() != 9);
    } else if i == 78 {
        reveal_strlit("Easter5");
        assert(rcl_row(i).1.len() != 9);
    } else if i == 79 {
        reveal_strlit("Easter6");
        assert(rcl_row(i).1.len() != 9);
    } else if i == 80 {
        reveal_strlit("Easter6");
        assert(rcl_row(i).1.len() != 9);
    } else if i == 81 {
        reveal_strlit("Easter6");
        assert(rcl_row(i).1.len() != 9);
    } else if i == 82 {
        assert(rcl_row(i).0 == "ALL"@);
    } else if i == 83 {
        reveal_strlit("Easter7");
        assert(rcl_row(i).1.len() != 9);
    } else if i == 84 {
        reveal_strlit("Easter7");
        assert(rcl_row(i).1.len() != 9);
    } else if i == 85 {
        reveal_strlit("Easter7");
        assert(rcl_row(i).1.len() != 9);
    } else if i == 86 {
        reveal_strlit("Pentecost");
        assert(rcl_row(i).1[0] != 'A');
    } else if i == 87 {
        reveal_strlit("Pentecost");
        assert(rcl_row(i).1[0] != 'A');
    } else if i == 88 {
        reveal_strlit("Pentecost");
        assert(rcl_row(i).1[0] != 'A');
    } else if i == 89 {
        reveal_strlit("Trinity");
        assert(rcl_row(i).1.len() != 9);
    } else if i == 90 {
        reveal_strlit("Trinity");
        assert(rcl_row(i).1.len() != 9);
    } else if i == 91 {
        reveal_strlit("Trinity");
        assert(rcl_row(i).1.len() != 9);
    } else if i == 92 {
        reveal_strlit("Proper4");
        assert(rcl_row(i).1.len() != 9);
    } else if i == 93 {
        reveal_strlit("Proper4");
        assert(rcl_row(i).1.len() != 9);
    } else if i == 94 {
        reveal_strlit("Proper4");
        assert(rcl_row(i).1.len() != 9);
    } else if i == 95 {
        reveal_strlit("Proper5");
        assert(rcl_row(i).1.len() != 9);
    } else if i == 96 {
        reveal_strlit("Proper5");
        assert(rcl_row(i).1.len() != 9);
    } else if i == 97 {
        reveal_strlit("Proper5");
        assert(rcl_row(i).1.len() != 9);
    } else if i == 98 {
        reveal_strlit("Proper6");
        assert(rcl_row(i).1.len() != 9);
    } else if i == 99 {
        reveal_strlit("Proper6");
        assert(rcl_row(i).1.len() != 9);
    } else if i == 100 {
        reveal_strlit("Proper6");
        assert(rcl_row(i).1.len() != 9);
    } else if i == 101 {
        reveal_strlit("Proper7");
        assert(rcl_row(i).1.len() != 9);
    } else if i == 102 {
        reveal_strlit("Proper7");
        assert(rcl_row(i).1.len() != 9);
    } else if i == 103 {
        reveal_strlit("Proper7");
        assert(rcl_row(i).1.len() != 9);
    } else if i == 104 {
        reveal_strlit("Proper8");
        assert(rcl_row(i).1.len() != 9);
    } else if i == 105 {
        reveal_strlit("Proper8");
        assert(rcl_row(i).1.len() != 9);
    } else if i == 106 {
        reveal_strlit("Proper8");
        assert(rcl_row(i).1.len() != 9);
    } else if i == 107 {
        reveal_strlit("Proper9");
        assert(rcl_row(i).1.len() != 9);
    } else if i == 108 {
        reveal_strlit("Proper9");
        assert(rcl_row(i).1.len() != 9);
    } else if i == 109 {
        reveal_strlit("Proper9");
        assert(rcl_row(i).1.len() != 9);
    } else if i == 110 {
        reveal_strlit("Proper10");
        assert(rcl_row(i).1.len() != 9);
    } else if i == 111 {
        reveal_strlit("Proper10");
        assert(rcl_row(i).1.len() != 9);
    } else if i == 112 {
        reveal_strlit("Proper10");
        assert(rcl_row(i).1.len() != 9);
    } else if i == 113 {
        reveal_strlit("Proper11");
        assert(rcl_row(i).1.len() != 9);
    } else if i == 114 {
        reveal_strlit("Proper11");
        assert(rcl_row(i).1.len() != 9);
    } else if i == 115 {
        reveal_strlit("Proper11");
        assert(rcl_row(i).1.len() != 9);
    } else if i == 116 {
        reveal_strlit("Proper12");
        assert(rcl_row(i).1.len() != 9);
    } else if i == 117 {
        reveal_strlit("Proper12");
        assert(rcl_row(i).1.len() != 9);
    } else if i == 118 {
        reveal_strlit("Proper12");
        assert(rcl_row(i).1.len() != 9);
    } else if i == 119 {
        reveal_strlit("Proper13");
        assert(rcl_row(i).1.len() != 9);
    } else if i == 120 {
        reveal_strlit("Proper13");
        assert(rcl_row(i).1.len() != 9);
    } else if i == 121 {
        reveal_strlit("Proper13");
        assert(rcl_row(i).1.len() != 9);
    } else if i == 122 {
        reveal_strlit("Proper14");
        assert(rcl_row(i).1.len() != 9);
    } else if i == 123 {
        reveal_strlit("Proper14");
        assert(rcl_row(i).1.len() != 9);
    } else if i == 124 {
        reveal_strlit("Proper14");
        assert(rcl_row(i).1.len() != 9);
    } else if i == 125 {
        reveal_strlit("Proper15");
        assert(rcl_row(i).1.len() != 9);
    } else if i == 126 {
        reveal_strlit("Proper15");
        assert(rcl_row(i).1.len() != 9);
    } else if i == 127 {
        reveal_strlit("Proper15");
        assert(rcl_row(i).1.len() != 9);
    } else if i == 128 {
        reveal_strlit("Proper16");
        assert(rcl_row(i).1.len() != 9);
    } else if i == 129 {
        reveal_strlit("Proper16");
        assert(rcl_row(i).1.len() != 9);
    } else if i == 130 {
        reveal_strlit("Proper16");
        assert(rcl_row(i).1.len() != 9);
    } else if i == 131 {
        reveal_strlit("Proper17");
        assert(rcl_row(i).1.len() != 9);
    } else if i == 132 {
        reveal_strlit("Proper17");
        assert(rcl_row(i).1.len() != 9);
    } else if i == 133 {
        reveal_strlit("Proper17");
        assert(rcl_row(i).1.len() != 9);
    } else if i == 134 {
        reveal_strlit("Proper18");
        assert(rcl_row(i).1.len() != 9);
    } else if i == 135 {
        reveal_strlit("Proper18");
        assert(rcl_row(i).1.len() != 9);
    } else if i == 136 {
        reveal_strlit("Proper18");
        assert(rcl_row(i).1.len() != 9);
    } else if i == 137 {
        reveal_strlit("Proper19");
        assert(rcl_row(i).1.len() != 9);
    } else if i == 138 {
        reveal_strlit("Proper19");
        assert(rcl_row(i).1.len() != 9);
    } else if i == 139 {
        reveal_strlit("Proper19");
        assert(rcl_row(i).1.len() != 9);
    } else if i == 140 {
        reveal_strlit("Proper20");
        assert(rcl_row(i).1.len() != 9);
    } else if i == 141 {
        reveal_strlit("Proper20");
        assert(rcl_row(i).1.len() != 9);
    } else if i == 142 {
        reveal_strlit("Proper20");
        assert(rcl_row(i).1.len() != 9);
    } else if i == 143 {
        reveal_strlit("Proper21");
        assert(rcl_row(i).1.len() != 9);
    } else if i == 144 {
        reveal_strlit("Proper21");
        assert(rcl_row(i).1.len() != 9);
    } else if i == 145 {
        reveal_strlit("Proper21");
        assert(rcl_row(i).1.len() != 9);
    } else if i == 146 {
        reveal_strlit("Proper22");
        assert(rcl_row(i).1.len() != 9);
    } else if i == 147 {
        reveal_strlit("Proper22");
        assert(rcl_row(i).1.len() != 9);
    } else if i == 148 {
        reveal_strlit("Proper22");
        assert(rcl_row(i).1.len() != 9);
    } else if i == 149 {
        reveal_strlit("Proper23");
        assert(rcl_row(i).1.len() != 9);
    } else if i == 150 {
        reveal_strlit("Proper23");
        assert(rcl_row(i).1.len() != 9);
    } else if i == 151 {
        reveal_strlit("Proper23");
        assert(rcl_row(i).1.len() != 9);
    } else if i == 152 {
        reveal_strlit("Proper24");
        assert(rcl_row(i).1.len() != 9);
    } else if i == 153 {
        reveal_strlit("Proper24");
        assert(rcl_row(i).1.len() != 9);
    } else if i == 154 {
        reveal_strlit("Proper24");
        assert(rcl_row(i).1.len() != 9);
    } else if i == 155 {
        reveal_strlit("Proper25");
        assert(rcl_row(i).1.len() != 9);
    } else if i == 156 {
        reveal_strlit("Proper25");
        assert(rcl_row(i).1.len() != 9);
    } else if i == 157 {
        reveal_strlit("Proper25");
        assert(rcl_row(i).1.len() != 9);
    } else if i == 158 {
        reveal_strlit("Proper26");
        assert(rcl_row(i).1.len() != 9);
    } else if i == 159 {
        reveal_strlit("Proper26");
        assert(rcl_row(i).1.len() != 9);
    } else if i == 160 {
        reveal_strlit("Proper26");
        assert(rcl_row(i).1.len() != 9);
    } else if i == 161 {
        reveal_strlit("Proper27");
        assert(rcl_row(i).1.len() != 9);
    } else if i == 162 {
        reveal_strlit("Proper27");
        assert(rcl_row(i).1.len() != 9);
    } else if i == 163 {
        reveal_strlit("Proper27");
        assert(rcl_row(i).1.len() != 9);
    } else if i == 164 {
        reveal_strlit("Proper28");
        assert(rcl_row(i).1.len() != 9);
    } else if i == 165 {
        reveal_strlit("Proper28");
        assert(rcl_row(i).1.len() != 9);
    } else if i == 166 {
        reveal_strlit("Proper28");
        assert(rcl_row(i).1.len() != 9);
    } else if i == 167 {
        reveal_strlit("Proper29");
        assert(rcl_row(i).1.len() != 9);
    } else if i == 168 {
        reveal_strlit("Proper29");
        assert(rcl_row(i).1.len() != 9);
    } else {
        reveal_strlit("Proper29");
        assert(rcl_row(i).1.len() != 9);
    }
}

/// Every gospel of the readings table is a citation, never the "—" that
/// marks a week without readings.
#[verifier::rlimit(100)]
pub proof fn lemma_gospels_cited(i: usize)
    ensures
        rcl_row(i).2.3 != "—"@,
{
    reveal_strlit("—");
    assert("—"@.len() == 1);
    if i == 0 {
        reveal_strlit("Matt 24:36–44");
        assert(rcl_row(i).2.3.len() >= 2);
    } else if i == 1 {
        reveal_strlit("Matt 3:1–12");
        assert(rcl_row(i).2.3.len() >= 2);
    } else if i == 2 {
        reveal_strlit("Matt 11:2–11");
        assert(rcl_row(i).2.3.len() >= 2);
    } else if i == 3 {
        reveal_strlit("Matt 1:18–25");
        assert(rcl_row(i).2.3.len() >= 2);
    } else if i == 4 {
        reveal_strlit("Mark 13:24–37");
        assert(rcl_row(i).2.3.len() >= 2);
    } else if i == 5 {
        reveal_strlit("Mark 1:1–8");
        assert(rcl_row(i).2.3.len() >= 2);
    } else if i == 6 {
        reveal_strlit("John 1:6–8, 19–28");
        assert(rcl_row(i).2.3.len() >= 2);
    } else if i == 7 {
        reveal_strlit("Luke 1:26–38");
        assert(rcl_row(i).2.3.len() >= 2);
    } else if i == 8 {
        reveal_strlit("Luke 21:25–36");
        assert(rcl_row(i).2.3.len() >= 2);
    } else if i == 9 {
        reveal_strlit("Luke 3:1–6");
        assert(rcl_row(i).2.3.len() >= 2);
    } else if i == 10 {
        reveal_strlit("Luke 3:7–18");
        assert(rcl_row(i).2.3.len() >= 2);
    } else if i == 11 {
        reveal_strlit("Luke 1:39–45");
        assert(rcl_row(i).2.3.len() >= 2);
    } else if i == 12 {
        reveal_strlit("Matt 2:13–23");
        assert(rcl_row(i).2.3.len() >= 2);
    } else if i == 13 {
        reveal_strlit("Luke 2:22–40");
        assert(rcl_row(i).2.3.len() >= 2);
    } else if i == 14 {
        reveal_strlit("Luke 2:41–52");
        assert(rcl_row(i).2.3.len() >= 2);
    } else if i == 15 {
        reveal_strlit("John 1:[1–9]10–18");
        assert(rcl_row(i).2.3.len() >= 2);
    } else if i == 16 {
        reveal_strlit("Matt 3:13–17");
        assert(rcl_row(i).2.3.len() >= 2);
    } else if i == 17 {
        reveal_strlit("Mark 1:4–11");
        assert(rcl_row(i).2.3.len() >= 2);
    } else if i == 18 {
        reveal_strlit("Luke 3:15–17, 21–22");
        assert(rcl_row(i).2.3.len() >= 2);
    } else if i == 19 {
        reveal_strlit("John 1:29–42");
        assert(rcl_row(i).2.3.len() >= 2);
    } else if i == 20 {
        reveal_strlit("John 1:43–51");
        assert(rcl_row(i).2.3.len() >= 2);
    } else if i == 21 {
        reveal_strlit("John 2:1–11");
        assert(rcl_row(i).2.3.len() >= 2);
    } else if i == 22 {
        reveal_strlit("Matt 4:12–23");
        assert(rcl_row(i).2.3.len() >= 2);
    } else if i == 23 {
        reveal_strlit("Mark 1:14–20");
        assert(rcl_row(i).2.3.len() >= 2);
    } else if i == 24 {
        reveal_strlit("Luke 4:14–21");
        assert(rcl_row(i).2.3.len() >= 2);
    } else if i == 25 {
        reveal_strlit("Matt 5:1–12");
        assert(rcl_row(i).2.3.len() >= 2);
    } else if i == 26 {
        reveal_strlit("Mark 1:21–28");
        assert(rcl_row(i).2.3.len() >= 2);
    } else if i == 27 {
        reveal_strlit("Luke 4:21–30");
        assert(rcl_row(i).2.3.len() >= 2);
    } else if i == 28 {
        reveal_strlit("Matt 5:13–20");
        assert(rcl_row(i).2.3.len() >= 2);
    } else if i == 29 {
        reveal_strlit("Mark 1:29–39");
        assert(rcl_row(i).2.3.len() >= 2);
    } else if i == 30 {
        reveal_strlit("Luke 5:1–11");
        assert(rcl_row(i).2.3.len() >= 2);
    } else if i == 31 {
        reveal_strlit("Matt 5:21–37");
        assert(rcl_row(i).2.3.len() >= 2);
    } else if i == 32 {
        reveal_strlit("Mark 1:40–45");
        assert(rcl_row(i).2.3.len() >= 2);
    } else if i == 33 {
        reveal_strlit("Luke 6:17–26");
        assert(rcl_row(i).2.3.len() >= 2);
    } else if i == 34 {
        reveal_strlit("Matt 5:38–48");
        assert(rcl_row(i).2.3.len() >= 2);
    } else if i == 35 {
        reveal_strlit("Mark 2:1–12");
        assert(rcl_row(i).2.3.len() >= 2);
    } else if i == 36 {
        reveal_strlit("Luke 6:27–38");
        assert(rcl_row(i).2.3.len() >= 2);
    } else if i == 37 {
        reveal_strlit("Matt 6:24–34");
        assert(rcl_row(i).2.3.len() >= 2);
    } else if i == 38 {
        reveal_strlit("Mark 2:13–22");
        assert(rcl_row(i).2.3.len() >= 2);
    } else if i == 39 {
        reveal_strlit("Luke 6:39–49");
        assert(rcl_row(i).2.3.len() >= 2);
    } else if i == 40 {
        reveal_strlit("Matt 17:1–9");
        assert(rcl_row(i).2.3.len() >= 2);
    } else if i == 41 {
        reveal_strlit("Mark 9:2–9");
        assert(rcl_row(i).2.3.len() >= 2);
    } else if i == 42 {
        reveal_strlit("Luke 9:28–36");
        assert(rcl_row(i).2.3.len() >= 2);
    } else if i == 43 {
        reveal_strlit("Matt 6:1–6, 16–21");
        assert(rcl_row(i).2.3.len() >= 2);
    } else if i == 44 {
        reveal_strlit("Matt 4:1–11");
        assert(rcl_row(i).2.3.len() >= 2);
    } else if i == 45 {
        reveal_strlit("Mark 1:9–15");
        assert(rcl_row(i).2.3.len() >= 2);
    } else if i == 46 {
        reveal_strlit("Luke 4:1–13");
        assert(rcl_row(i).2.3.len() >= 2);
    } else if i == 47 {
        reveal_strlit("John 3:1–17");
        assert(rcl_row(i).2.3.len() >= 2);
    } else if i == 48 {
        reveal_strlit("Mark 8:31–38");
        assert(rcl_row(i).2.3.len() >= 2);
    } else if i == 49 {
        reveal_strlit("Luke 13:31–35");
        assert(rcl_row(i).2.3.len() >= 2);
    } else if i == 50 {
        reveal_strlit("John 4:5–42");
        assert(rcl_row(i).2.3.len() >= 2);
    } else if i == 51 {
        reveal_strlit("John 2:13–22");
        assert(rcl_row(i).2.3.len() >= 2);
    } else if i == 52 {
        reveal_strlit("Luke 13:1–9");
        assert(rcl_row(i).2.3.len() >= 2);
    } else if i == 53 {
        reveal_strlit("John 9:1–41");
        assert(rcl_row(i).2.3.len() >= 2);
    } else if i == 54 {
        reveal_strlit("John 3:14–21");
        assert(rcl_row(i).2.3.len() >= 2);
    } else if i == 55 {
        reveal_strlit("Luke 15:1–3, 11b–32");
        assert(rcl_row(i).2.3.len() >= 2);
    } else if i == 56 {
        reveal_strlit("John 11:1–45");
        assert(rcl_row(i).2.3.len() >= 2);
    } else if i == 57 {
        reveal_strlit("John 12:20–33");
        assert(rcl_row(i).2.3.len() >= 2);
    } else if i == 58 {
        reveal_strlit("John 12:1–8");
        assert(rcl_row(i).2.3.len() >= 2);
    } else if i == 59 {
        reveal_strlit("Matt 26:14–27:66");
        assert(rcl_row(i).2.3.len() >= 2);
    } else if i == 60 {
        reveal_strlit("Mark 14:1–15:47");
        assert(rcl_row(i).2.3.len() >= 2);
    } else if i == 61 {
        reveal_strlit("Luke 22:14–23:56");
        assert(rcl_row(i).2.3.len() >= 2);
    } else if i == 62 {
        reveal_strlit("John 13:1–17, 31b–35");
        assert(rcl_row(i).2.3.len() >= 2);
    } else if i == 63 {
        reveal_strlit("John 18:1–19:42");
        assert(rcl_row(i).2.3.len() >= 2);
    } else if i == 64 {
        reveal_strlit("John 20:1–18");
        assert(rcl_row(i).2.3.len() >= 2);
    } else if i == 65 {
        reveal_strlit("John 20:1–18");
        assert(rcl_row(i).2.3.len() >= 2);
    } else if i == 66 {
        reveal_strlit("John 20:1–18");
        assert(rcl_row(i).2.3.len() >= 2);
    } else if i == 67 {
        reveal_strlit("John 20:19–31");
        assert(rcl_row(i).2.3.len() >= 2);
    } else if i == 68 {
        reveal_strlit("John 20:19–31");
        assert(rcl_row(i).2.3.len() >= 2);
    } else if i == 69 {
        reveal_strlit("John 20:19–31");
        assert(rcl_row(i).2.3.len() >= 2);
    } else if i == 70 {
        reveal_strlit("Luke 24:13–35");
        assert(rcl_row(i).2.3.len() >= 2);
    } else if i == 71 {
        reveal_strlit("Luke 24:36b–48");
        assert(rcl_row(i).2.3.len() >= 2);
    } else if i == 72 {
        reveal_strlit("John 21:1–19");
        assert(rcl_row(i).2.3.len() >= 2);
    } else if i == 73 {
        reveal_strlit("John 10:1–10");
        assert(rcl_row(i).2.3.len() >= 2);
    } else if i == 74 {
        reveal_strlit("John 10:11–18");
        assert(rcl_row(i).2.3.len() >= 2);
    } else if i == 75 {
        reveal_strlit("John 10:22–30");
        assert(rcl_row(i).2.3.len() >= 2);
    } else if i == 76 {
        reveal_strlit("John 14:1–14");
        assert(rcl_row(i).2.3.len() >= 2);
    } else if i == 77 {
        reveal_strlit("John 15:1–8");
        assert(rcl_row(i).2.3.len() >= 2);
    } else if i == 78 {
        reveal_strlit("John 13:31–35");
        assert(rcl_row(i).2.3.len() >= 2);
    } else if i == 79 {
        reveal_strlit("John 14:15–21");
        assert(rcl_row(i).2.3.len() >= 2);
    } else if i == 80 {
        reveal_strlit("John 15:9–17");
        assert(rcl_row(i).2.3.len() >= 2);
    } else if i == 81 {
        reveal_strlit("John 14:23–29");
        assert(rcl_row(i).2.3.len() >= 2);
    } else if i == 82 {
        reveal_strlit("Luke 24:44–53");
        assert(rcl_row(i).2.3.len() >= 2);
    } else if i == 83 {
        reveal_strlit("John 17:1–11");
        assert(rcl_row(i).2.3.len() >= 2);
    } else if i == 84 {
        reveal_strlit("John 17:6–19");
        assert(rcl_row(i).2.3.len() >= 2);
    } else if i == 85 {
        reveal_strlit("John 17:20–26");
        assert(rcl_row(i).2.3.len() >= 2);
    } else if i == 86 {
        reveal_strlit("John 20:19–23");
        assert(rcl_row(i).2.3.len() >= 2);
    } else if i == 87 {
        reveal_strlit("John 15:26–27; 16:4b–15");
        assert(rcl_row(i).2.3.len() >= 2);
    } else if i == 88 {
        reveal_strlit("John 14:8–17");
        assert(rcl_row(i).2.3.len() >= 2);
    } else if i == 89 {
        reveal_strlit("Matt 28:16–20");
        assert(rcl_row(i).2.3.len() >= 2);
    } else if i == 90 {
        reveal_strlit("John 3:1–17");
        assert(rcl_row(i).2.3.len() >= 2);
    } else if i == 91 {
        reveal_strlit("John 16:12–15");
        assert(rcl_row(i).2.3.len() >= 2);
    } else if i == 92 {
        reveal_strlit("Matt 7:21–29");
        assert(rcl_row(i).2.3.len() >= 2);
    } else if i == 93 {
        reveal_strlit("Mark 2:23–3:6");
        assert(rcl_row(i).2.3.len() >= 2);
    } else if i == 94 {
        reveal_strlit("Luke 7:1–10");
        assert(rcl_row(i).2.3.len() >= 2);
    } else if i == 95 {
        reveal_strlit("Matt 9:9–13, 18–26");
        assert(rcl_row(i).2.3.len() >= 2);
    } else if i == 96 {
        reveal_strlit("Mark 3:20–35");
        assert(rcl_row(i).2.3.len() >= 2);
    } else if i == 97 {
        reveal_strlit("Luke 7:11–17");
        assert(rcl_row(i).2.3.len() >= 2);
    } else if i == 98 {
        reveal_strlit("Matt 9:35–10:8");
        assert(rcl_row(i).2.3.len() >= 2);
    } else if i == 99 {
        reveal_strlit("Mark 4:26–34");
        assert(rcl_row(i).2.3.len() >= 2);
    } else if i == 100 {
        reveal_strlit("Luke 7:36–8:3");
        assert(rcl_row(i).2.3.len() >= 2);
    } else if i == 101 {
        reveal_strlit("Matt 10:24–39");
        assert(rcl_row(i).2.3.len() >= 2);
    } else if i == 102 {
        reveal_strlit("Mark 4:35–41");
        assert(rcl_row(i).2.3.len() >= 2);
    } else if i == 103 {
        reveal_strlit("Luke 8:26–39");
        assert(rcl_row(i).2.3.len() >= 2);
    } else if i == 104 {
        reveal_strlit("Matt 10:40–42");
        assert(rcl_row(i).2.3.len() >= 2);
    } else if i == 105 {
        reveal_strlit("Mark 5:21–43");
        assert(rcl_row(i).2.3.len() >= 2);
    } else if i == 106 {
        reveal_strlit("Luke 9:51–62");
        assert(rcl_row(i).2.3.len() >= 2);
    } else if i == 107 {
        reveal_strlit("Matt 11:16–19, 25–30");
        assert(rcl_row(i).2.3.len() >= 2);
    } else if i == 108 {
        reveal_strlit("Mark 6:1–13");
        assert(rcl_row(i).2.3.len() >= 2);
    } else if i == 109 {
        reveal_strlit("Luke 10:1–11, 16–20");
        assert(rcl_row(i).2.3.len() >= 2);
    } else if i == 110 {
        reveal_strlit("Matt 13:1–9, 18–23");
        assert(rcl_row(i).2.3.len() >= 2);
    } else if i == 111 {
        reveal_strlit("Mark 6:14–29");
        assert(rcl_row(i).2.3.len() >= 2);
    } else if i == 112 {
        reveal_strlit("Luke 10:25–37");
        assert(rcl_row(i).2.3.len() >= 2);
    } else if i == 113 {
        reveal_strlit("Matt 13:24–30, 36–43");
        assert(rcl_row(i).2.3.len() >= 2);
    } else if i == 114 {
        reveal_strlit("Mark 6:30–34, 53–56");
        assert(rcl_row(i).2.3.len() >= 2);
    } else if i == 115 {
        reveal_strlit("Luke 10:38–42");
        assert(rcl_row(i).2.3.len() >= 2);
    } else if i == 116 {
        reveal_strlit("Matt 13:31–33, 44–52");
        assert(rcl_row(i).2.3.len() >= 2);
    } else if i == 117 {
        reveal_strlit("John 6:1–21");
        assert(rcl_row(i).2.3.len() >= 2);
    } else if i == 118 {
        reveal_strlit("Luke 11:1–13");
        assert(rcl_row(i).2.3.len() >= 2);
    } else if i == 119 {
        reveal_strlit("Matt 14:13–21");
        assert(rcl_row(i).2.3.len() >= 2);
    } else if i == 120 {
        reveal_strlit("John 6:24–35");
        assert(rcl_row(i).2.3.len() >= 2);
    } else if i == 121 {
        reveal_strlit("Luke 12:13–21");
        assert(rcl_row(i).2.3.len() >= 2);
    } else if i == 122 {
        reveal_strlit("Matt 14:22–33");
        assert(rcl_row(i).2.3.len() >= 2);
    } else if i == 123 {
        reveal_strlit("John 6:35, 41–51");
        assert(rcl_row(i).2.3.len() >= 2);
    } else if i == 124 {
        reveal_strlit("Luke 12:32–40");
        assert(rcl_row(i).2.3.len() >= 2);
    } else if i == 125 {
        reveal_strlit("Matt 15:21–28");
        assert(rcl_row(i).2.3.len() >= 2);
    } else if i == 126 {
        reveal_strlit("John 6:51–58");
        assert(rcl_row(i).2.3.len() >= 2);
    } else if i == 127 {
        reveal_strlit("Luke 12:49–56");
        assert(rcl_row(i).2.3.len() >= 2);
    } else if i == 128 {
        reveal_strlit("Matt 16:13–20");
        assert(rcl_row(i).2.3.len() >= 2);
    } else if i == 129 {
        reveal_strlit("John 6:56–69");
        assert(rcl_row(i).2.3.len() >= 2);
    } else if i == 130 {
        reveal_strlit("Luke 13:10–17");
        assert(rcl_row(i).2.3.len() >= 2);
    } else if i == 131 {
        reveal_strlit("Matt 16:21–28");
        assert(rcl_row(i).2.3.len() >= 2);
    } else if i == 132 {
        reveal_strlit("Mark 7:1–8, 14–15, 21–23");
        assert(rcl_row(i).2.3.len() >= 2);
    } else if i == 133 {
        reveal_strlit("Luke 14:1, 7–14");
        assert(rcl_row(i).2.3.len() >= 2);
    } else if i == 134 {
        reveal_strlit("Matt 18:15–20");
        assert(rcl_row(i).2.3.len() >= 2);
    } else if i == 135 {
        reveal_strlit("Mark 7:24–37");
        assert(rcl_row(i).2.3.len() >= 2);
    } else if i == 136 {
        reveal_strlit("Luke 14:25–33");
        assert(rcl_row(i).2.3.len() >= 2);
    } else if i == 137 {
        reveal_strlit("Matt 18:21–35");
        assert(rcl_row(i).2.3.len() >= 2);
    } else if i == 138 {
        reveal_strlit("Mark 8:27–38");
        assert(rcl_row(i).2.3.len() >= 2);
    } else if i == 139 {
        reveal_strlit("Luke 15:1–10");
        assert(rcl_row(i).2.3.len() >= 2);
    } else if i == 140 {
        reveal_strlit("Matt 20:1–16");
        assert(rcl_row(i).2.3.len() >= 2);
    } else if i == 141 {
        reveal_strlit("Mark 9:30–37");
        assert(rcl_row(i).2.3.len() >= 2);
    } else if i == 142 {
        reveal_strlit("Luke 16:1–13");
        assert(rcl_row(i).2.3.len() >= 2);
    } else if i == 143 {
        reveal_strlit("Matt 21:23–32");
        assert(rcl_row(i).2.3.len() >= 2);
    } else if i == 144 {
        reveal_strlit("Mark 9:38–50");
        assert(rcl_row(i).2.3.len() >= 2);
    } else if i == 145 {
        reveal_strlit("Luke 16:19–31");
        assert(rcl_row(i).2.3.len() >= 2);
    } else if i == 146 {
        reveal_strlit("Matt 21:33–46");
        assert(rcl_row(i).2.3.len() >= 2);
    } else if i == 147 {
        reveal_strlit("Mark 10:2–16");
        assert(rcl_row(i).2.3.len() >= 2);
    } else if i == 148 {
        reveal_strlit("Luke 17:5–10");
        assert(rcl_row(i).2.3.len() >= 2);
    } else if i == 149 {
        reveal_strlit("Matt 22:1–14");
        assert(rcl_row(i).2.3.len() >= 2);
    } else if i == 150 {
        reveal_strlit("Mark 10:17–31");
        assert(rcl_row(i).2.3.len() >= 2);
    } else if i == 151 {
        reveal_strlit("Luke 17:11–19");
        assert(rcl_row(i).2.3.len() >= 2);
    } else if i == 152 {
        reveal_strlit("Matt 22:15–22");
        assert(rcl_row(i).2.3.len() >= 2);
    } else if i == 153 {
        reveal_strlit("Mark 10:35–45");
        assert(rcl_row(i).2.3.len() >= 2);
    } else if i == 154 {
        reveal_strlit("Luke 18:1–8");
        assert(rcl_row(i).2.3.len() >= 2);
    } else if i == 155 {
        reveal_strlit("Matt 22:34–46");
        assert(rcl_row(i).2.3.len() >= 2);
    } else if i == 156 {
        reveal_strlit("Mark 10:46–52");
        assert(rcl_row(i).2.3.len() >= 2);
    } else if i == 157 {
        reveal_strlit("Luke 18:9–14");
        assert(rcl_row(i).2.3.len() >= 2);
    } else if i == 158 {
        reveal_strlit("Matt 23:1–12");
        assert(rcl_row(i).2.3.len() >= 2);
    } else if i == 159 {
        reveal_strlit("Mark 12:28–34");
        assert(rcl_row(i).2.3.len() >= 2);
    } else if i == 160 {
        reveal_strlit("Luke 19:1–10");
        assert(rcl_row(i).2.3.len() >= 2);
    } else if i == 161 {
        reveal_strlit("Matt 25:1–13");
        assert(rcl_row(i).2.3.len() >= 2);
    } else if i == 162 {
        reveal_strlit("Mark 12:38–44");
        assert(rcl_row(i).2.3.len() >= 2);
    } else if i == 163 {
        reveal_strlit("Luke 20:27–38");
        assert(rcl_row(i).2.3.len() >= 2);
    } else if i == 164 {
        reveal_strlit("Matt 25:14–30");
        assert(rcl_row(i).2.3.len() >= 2);
    } else if i == 165 {
        reveal_strlit("Mark 13:1–8");
        assert(rcl_row(i).2.3.len() >= 2);
    } else if i == 166 {
        reveal_strlit("Luke 21:5–19");
        assert(rcl_row(i).2.3.len() >= 2);
    } else if i == 167 {
        reveal_strlit("Matt 25:31–46");
        assert(rcl_row(i).2.3.len() >= 2);
    } else if i == 168 {
        reveal_strlit("John 18:33–37");
        assert(rcl_row(i).2.3.len() >= 2);
    } else {
        reveal_strlit("Luke 23:33–43");
        assert(rcl_row(i).2.3.len() >= 2);
    }
}

pub fn rcl_row_at(i: usize) -> (r: (&'static str, &'static str, Readings))
    ensures
        row_view(r) == rcl_row(i),
{
    match i {
        0 => ("A", "Advent1", ("Isa 2:1–5", "Ps 122", "Rom 13:11–14", "Matt 24:36–44")),
        1 => ("A", "Advent2", ("Isa 11:1–10", "Ps 72:1–7, 18–19", "Rom 15:4–13", "Matt 3:1–12")),
        2 => ("A", "Advent3", ("Isa 35:1–10", "Ps 146:5–10", "Jas 5:7–10", "Matt 11:2–11")),
        3 => ("A", "Advent4", ("Isa 7:10–16", "Ps 80:1–7, 17–19", "Rom 1:1–7", "Matt 1:18–25")),
        4 => ("B", "Advent1", ("Isa 64:1–9", "Ps 80:1–7, 17–19", "1 Cor 1:3–9", "Mark 13:24–37")),
        5 => ("B", "Advent2", ("Isa 40:1–11", "Ps 85:1–2, 8–13", "2 Pet 3:8–15a", "Mark 1:1–8")),
        6 => ("B", "Advent3", ("Isa 61:1–4, 8–11", "Ps 126", "1 Thess 5:16–24", "John 1:6–8, 19–28")),
        7 => ("B", "Advent4", ("2 Sam 7:1–11, 16", "Luke 1:47–55", "Rom 16:25–27", "Luke 1:26–38")),
        8 => ("C", "Advent1", ("Jer 33:14–16", "Ps 25:1–10", "1 Thess 3:9–13", "Luke 21:25–36")),
        9 => ("C", "Advent2", ("Mal 3:1–4", "Luke 1:68–79", "Phil 1:3–11", "Luke 3:1–6")),
        10 => ("C", "Advent3", ("Zeph 3:14–20", "Isa 12:2–6", "Phil 4:4–7", "Luke 3:7–18")),
        11 => ("C", "Advent4", ("Mic 5:2–5a", "Luke 1:47–55", "Heb 10:5–10", "Luke 1:39–45")),
        12 => ("ALL", "Christmas1A", ("Isa 63:7–9", "Ps 148", "Heb 2:10–18", "Matt 2:13–23")),
        13 => ("ALL", "Christmas1B", ("Isa 61:10–62:3", "Ps 148", "Gal 4:4–7", "Luke 2:22–40")),
        14 => ("ALL", "Christmas1C", ("1 Sam 2:18–20, 26", "Ps 148", "Col 3:12–17", "Luke 2:41–52")),
        15 => ("ALL", "Christmas2", ("Jer 31:7–14", "Ps 147:12–20", "Eph 1:3–14", "John 1:[1–9]10–18")),
        16 => ("A", "Epiphany1", ("Isa 42:1–9", "Ps 29", "Acts 10:34–43", "Matt 3:13–17")),
        17 => ("B", "Epiphany1", ("Gen 1:1–5", "Ps 29", "Acts 19:1–7", "Mark 1:4–11")),
        18 => ("C", "Epiphany1", ("Isa 43:1–7", "Ps 29", "Acts 8:14–17", "Luke 3:15–17, 21–22")),
        19 => ("A", "Epiphany2", ("Isa 49:1–7", "Ps 40:1–11", "1 Cor 1:1–9", "John 1:29–42")),
        20 => ("B", "Epiphany2", ("1 Sam 3:1–10", "Ps 139:1–6, 13–18", "1 Cor 6:12–20", "John 1:43–51")),
        21 => ("C", "Epiphany2", ("Isa 62:1–5", "Ps 36:5–10", "1 Cor 12:1–11", "John 2:1–11")),
        22 => ("A", "Epiphany3", ("Isa 9:1–4", "Ps 27:1, 4–9", "1 Cor 1:10–18", "Matt 4:12–23")),
        23 => ("B", "Epiphany3", ("Jon 3:1–5, 10", "Ps 62:5–12", "1 Cor 7:29–31", "Mark 1:14–20")),
        24 => ("C", "Epiphany3", ("Neh 8:1–3, 5–6, 8–10", "Ps 19", "1 Cor 12:12–31a", "Luke 4:14–21")),
        25 => ("A", "Epiphany4", ("Mic 6:1–8", "Ps 15", "1 Cor 1:18–31", "Matt 5:1–12")),
        26 => ("B", "Epiphany4", ("Deut 18:15–20", "Ps 111", "1 Cor 8:1–13", "Mark 1:21–28")),
        27 => ("C", "Epiphany4", ("Jer 1:4–10", "Ps 71:1–6", "1 Cor 13:1–13", "Luke 4:21–30")),
        28 => ("A", "Epiphany5", ("Isa 58:1–9a", "Ps 112:1–9", "1 Cor 2:1–12", "Matt 5:13–20")),
        29 => ("B", "Epiphany5", ("Isa 40:21–31", "Ps 147:1–11, 20c", "1 Cor 9:16–23", "Mark 1:29–39")),
        30 => ("C", "Epiphany5", ("Isa 6:1–8", "Ps 138", "1 Cor 15:1–11", "Luke 5:1–11")),
        31 => ("A", "Epiphany6", ("Deut 30:15–20", "Ps 119:1–8", "1 Cor 3:1–9", "Matt 5:21–37")),
        32 => ("B", "Epiphany6", ("2 Kgs 5:1–14", "Ps 30", "1 Cor 9:24–27", "Mark 1:40–45")),
        33 => ("C", "Epiphany6", ("Jer 17:5–10", "Ps 1", "1 Cor 15:12–20", "Luke 6:17–26")),
        34 => ("A", "Epiphany7", ("Lev 19:1–2, 9–18", "Ps 119:33–40", "1 Cor 3:10–11, 16–23", "Matt 5:38–48")),
        35 => ("B", "Epiphany7", ("Isa 43:18–25", "Ps 41", "2 Cor 1:18–22", "Mark 2:1–12")),
        36 => ("C", "Epiphany7", ("Gen 45:3–11, 15", "Ps 37:1–11, 39–40", "1 Cor 15:35–38, 42–50", "Luke 6:27–38")),
        37 => ("A", "Epiphany8", ("Isa 49:8–16a", "Ps 131", "1 Cor 4:1–5", "Matt 6:24–34")),
        38 => ("B", "Epiphany8", ("Hos 2:14–20", "Ps 103:1–13, 22", "2 Cor 3:1–6", "Mark 2:13–22")),
        39 => ("C", "Epiphany8", ("Isa 55:10–13", "Ps 92:1–4, 12–15", "1 Cor 15:51–58", "Luke 6:39–49")),
        40 => ("A", "Transfiguration", ("Exod 24:12–18", "Ps 2", "2 Pet 1:16–21", "Matt 17:1–9")),
        41 => ("B", "Transfiguration", ("2 Kgs 2:1–12", "Ps 50:1–6", "2 Cor 4:3–6", "Mark 9:2–9")),
        42 => ("C", "Transfiguration", ("Exod 34:29–35", "Ps 99", "2 Cor 3:12–4:2", "Luke 9:28–36")),
        43 => ("ALL", "AshWednesday", ("Joel 2:1–2, 12–17", "Ps 51:1–17", "2 Cor 5:20b–6:10", "Matt 6:1–6, 16–21")),
        44 => ("A", "Lent1", ("Gen 2:15–17; 3:1–7", "Ps 32", "Rom 5:12–19", "Matt 4:1–11")),
        45 => ("B", "Lent1", ("Gen 9:8–17", "Ps 25:1–10", "1 Pet 3:18–22", "Mark 1:9–15")),
        46 => ("C", "Lent1", ("Deut 26:1–11", "Ps 91:1–2, 9–16", "Rom 10:8b–13", "Luke 4:1–13")),
        47 => ("A", "Lent2", ("Gen 12:1–4a", "Ps 121", "Rom 4:1–5, 13–17", "John 3:1–17")),
        48 => ("B", "Lent2", ("Gen 17:1–7, 15–16", "Ps 22:23–31", "Rom 4:13–25", "Mark 8:31–38")),
        49 => ("C", "Lent2", ("Gen 15:1–12, 17–18", "Ps 27", "Phil 3:17–4:1", "Luke 13:31–35")),
        50 => ("A", "Lent3", ("Exod 17:1–7", "Ps 95", "Rom 5:1–11", "John 4:5–42")),
        51 => ("B", "Lent3", ("Exod 20:1–17", "Ps 19", "1 Cor 1:18–25", "John 2:13–22")),
        52 => ("C", "Lent3", ("Isa 55:1–9", "Ps 63:1–8", "1 Cor 10:1–13", "Luke 13:1–9")),
        53 => ("A", "Lent4", ("1 Sam 16:1–13", "Ps 23", "Eph 5:8–14", "John 9:1–41")),
        54 => ("B", "Lent4", ("Num 21:4–9", "Ps 107:1–3, 17–22", "Eph 2:1–10", "John 3:14–21")),
        55 => ("C", "Lent4", ("Josh 5:9–12", "Ps 32", "2 Cor 5:16–21", "Luke 15:1–3, 11b–32")),
        56 => ("A", "Lent5", ("Ezek 37:1–14", "Ps 130", "Rom 8:6–11", "John 11:1–45")),
        57 => ("B", "Lent5", ("Jer 31:31–34", "Ps 51:1–12", "Heb 5:5–10", "John 12:20–33")),
        58 => ("C", "Lent5", ("Isa 43:16–21", "Ps 126", "Phil 3:4b–14", "John 12:1–8")),
        59 => ("A", "PalmSunday", ("Isa 50:4–9a", "Ps 31:9–16", "Phil 2:5–11", "Matt 26:14–27:66")),
        60 => ("B", "PalmSunday", ("Isa 50:4–9a", "Ps 31:9–16", "Phil 2:5–11", "Mark 14:1–15:47")),
        61 => ("C", "PalmSunday", ("Isa 50:4–9a", "Ps 31:9–16", "Phil 2:5–11", "Luke 22:14–23:56")),
        62 => ("ALL", "HolyThursday", ("Exod 12:1–4, 11–14", "Ps 116:1–2, 12–19", "1 Cor 11:23–26", "John 13:1–17, 31b–35")),
        63 => ("ALL", "GoodFriday", ("Isa 52:13–53:12", "Ps 22", "Heb 10:16–25", "John 18:1–19:42")),
        64 => ("A", "Easter", ("Acts 10:34–43", "Ps 118:1–2, 14–24", "Col 3:1–4", "John 20:1–18")),
        65 => ("B", "Easter", ("Acts 10:34–43", "Ps 118:1–2, 14–24", "1 Cor 15:1–11", "John 20:1–18")),
        66 => ("C", "Easter", ("Acts 10:34–43", "Ps 118:1–2, 14–24", "1 Cor 15:19–26", "John 20:1–18")),
        67 => ("A", "Easter2", ("Acts 2:14a, 22–32", "Ps 16", "1 Pet 1:3–9", "John 20:19–31")),
        68 => ("B", "Easter2", ("Acts 4:32–35", "Ps 133", "1 John 1:1–2:2", "John 20:19–31")),
        69 => ("C", "Easter2", ("Acts 5:27–32", "Ps 118:14–29", "Rev 1:4–8", "John 20:19–31")),
        70 => ("A", "Easter3", ("Acts 2:14a, 36–41", "Ps 116:1–4, 12–19", "1 Pet 1:17–23", "Luke 24:13–35")),
        71 => ("B", "Easter3", ("Acts 3:12–19", "Ps 4", "1 John 3:1–7", "Luke 24:36b–48")),
        72 => ("C", "Easter3", ("Acts 9:1–6", "Ps 30", "Rev 5:11–14", "John 21:1–19")),
        73 => ("A", "Easter4", ("Acts 2:42–47", "Ps 23", "1 Pet 2:19–25", "John 10:1–10")),
        74 => ("B", "Easter4", ("Acts 4:5–12", "Ps 23", "1 John 3:16–24", "John 10:11–18")),
        75 => ("C", "Easter4", ("Acts 9:36–43", "Ps 23", "Rev 7:9–17", "John 10:22–30")),
        76 => ("A", "Easter5", ("Acts 7:55–60", "Ps 31:1–5, 15–16", "1 Pet 2:2–10", "John 14:1–14")),
        77 => ("B", "Easter5", ("Acts 8:26–40", "Ps 22:25–31", "1 John 4:7–21", "John 15:1–8")),
        78 => ("C", "Easter5", ("Acts 11:1–18", "Ps 148", "Rev 21:1–6", "John 13:31–35")),
        79 => ("A", "Easter6", ("Acts 17:22–31", "Ps 66:8–20", "1 Pet 3:13–22", "John 14:15–21")),
        80 => ("B", "Easter6", ("Acts 10:44–48", "Ps 98", "1 John 5:1–6", "John 15:9–17")),
        81 => ("C", "Easter6", ("Acts 16:9–15", "Ps 67", "Rev 21:10, 22–22:5", "John 14:23–29")),
        82 => ("ALL", "Ascension", ("Acts 1:1–11", "Ps 47", "Eph 1:15–23", "Luke 24:44–53")),
        83 => ("A", "Easter7", ("Acts 1:6–14", "Ps 68:1–10, 32–35", "1 Pet 4:12–14; 5:6–11", "John 17:1–11")),
        84 => ("B", "Easter7", ("Acts 1:15–17, 21–26", "Ps 1", "1 John 5:9–13", "John 17:6–19")),
        85 => ("C", "Easter7", ("Acts 16:16–34", "Ps 97", "Rev 22:12–14, 16–17, 20–21", "John 17:20–26")),
        86 => ("A", "Pentecost", ("Acts 2:1–21", "Ps 104:24–34, 35b", "1 Cor 12:3b–13", "John 20:19–23")),
        87 => ("B", "Pentecost", ("Acts 2:1–21", "Ps 104:24–34, 35b", "Rom 8:22–27", "John 15:26–27; 16:4b–15")),
        88 => ("C", "Pentecost", ("Acts 2:1–21", "Ps 104:24–34, 35b", "Rom 8:14–17", "John 14:8–17")),
        89 => ("A", "Trinity", ("Gen 1:1–2:4a", "Ps 8", "2 Cor 13:11–13", "Matt 28:16–20")),
        90 => ("B", "Trinity", ("Isa 6:1–8", "Ps 29", "Rom 8:12–17", "John 3:1–17")),
        91 => ("C", "Trinity", ("Prov 8:1–4, 22–31", "Ps 8", "Rom 5:1–5", "John 16:12–15")),
        92 => ("A", "Proper4", ("Gen 6:9–22; 7:24; 8:14–19", "Ps 46", "Rom 1:16–17; 3:22b–28", "Matt 7:21–29")),
        93 => ("B", "Proper4", ("1 Sam 3:1–10", "Ps 139:1–6, 13–18", "2 Cor 4:5–12", "Mark 2:23–3:6")),
        94 => ("C", "Proper4", ("1 Kgs 18:20–21, 30–39", "Ps 96", "Gal 1:1–12", "Luke 7:1–10")),
        95 => ("A", "Proper5", ("Gen 12:1–9", "Ps 33:1–12", "Rom 4:13–25", "Matt 9:9–13, 18–26")),
        96 => ("B", "Proper5", ("1 Sam 8:4–11, 16–20", "Ps 138", "2 Cor 4:13–5:1", "Mark 3:20–35")),
        97 => ("C", "Proper5", ("1 Kgs 17:8–16", "Ps 146", "Gal 1:11–24", "Luke 7:11–17")),
        98 => ("A", "Proper6", ("Gen 18:1–15", "Ps 116:1–2, 12–19", "Rom 5:1–8", "Matt 9:35–10:8")),
        99 => ("B", "Proper6", ("1 Sam 15:34–16:13", "Ps 20", "2 Cor 5:6–10, 14–17", "Mark 4:26–34")),
        100 => ("C", "Proper6", ("1 Kgs 21:1–10, 15–21a", "Ps 5:1–8", "Gal 2:15–21", "Luke 7:36–8:3")),
        101 => ("A", "Proper7", ("Gen 21:8–21", "Ps 86:1–10, 16–17", "Rom 6:1b–11", "Matt 10:24–39")),
        102 => ("B", "Proper7", ("1 Sam 17:32–49", "Ps 9:9–20", "2 Cor 6:1–13", "Mark 4:35–41")),
        103 => ("C", "Proper7", ("1 Kgs 19:1–4, 8–15a", "Ps 42", "Gal 3:23–29", "Luke 8:26–39")),
        104 => ("A", "Proper8", ("Gen 22:1–14", "Ps 13", "Rom 6:12–23", "Matt 10:40–42")),
        105 => ("B", "Proper8", ("2 Sam 1:1, 17–27", "Ps 130", "2 Cor 8:7–15", "Mark 5:21–43")),
        106 => ("C", "Proper8", ("2 Kgs 2:1–2, 6–14", "Ps 77:1–2, 11–20", "Gal 5:1, 13–25", "Luke 9:51–62")),
        107 => ("A", "Proper9", ("Gen 24:34–38, 42–49, 58–67", "Ps 45:10–17", "Rom 7:15–25a", "Matt 11:16–19, 25–30")),
        108 => ("B", "Proper9", ("2 Sam 5:1–5, 9–10", "Ps 48", "2 Cor 12:2–10", "Mark 6:1–13")),
        109 => ("C", "Proper9", ("2 Kgs 5:1–14", "Ps 30", "Gal 6:1–16", "Luke 10:1–11, 16–20")),
        110 => ("A", "Proper10", ("Gen 25:19–34", "Ps 119:105–112", "Rom 8:1–11", "Matt 13:1–9, 18–23")),
        111 => ("B", "Proper10", ("2 Sam 6:1–5, 12b–19", "Ps 24", "Eph 1:3–14", "Mark 6:14–29")),
        112 => ("C", "Proper10", ("Amos 7:7–17", "Ps 82", "Col 1:1–14", "Luke 10:25–37")),
        113 => ("A", "Proper11", ("Gen 28:10–19a", "Ps 139:1–12, 23–24", "Rom 8:12–25", "Matt 13:24–30, 36–43")),
        114 => ("B", "Proper11", ("2 Sam 7:1–14a", "Ps 89:20–37", "Eph 2:11–22", "Mark 6:30–34, 53–56")),
        115 => ("C", "Proper11", ("Amos 8:1–12", "Ps 52", "Col 1:15–28", "Luke 10:38–42")),
        116 => ("A", "Proper12", ("Gen 29:15–28", "Ps 105:1–11, 45b", "Rom 8:26–39", "Matt 13:31–33, 44–52")),
        117 => ("B", "Proper12", ("2 Sam 11:1–15", "Ps 14", "Eph 3:14–21", "John 6:1–21")),
        118 => ("C", "Proper12", ("Hos 1:2–10", "Ps 85", "Col 2:6–15", "Luke 11:1–13")),
        119 => ("A", "Proper13", ("Gen 32:22–31", "Ps 17:1–7, 15", "Rom 9:1–5", "Matt 14:13–21")),
        120 => ("B", "Proper13", ("2 Sam 11:26–12:13a", "Ps 51:1–12", "Eph 4:1–16", "John 6:24–35")),
        121 => ("C", "Proper13", ("Hos 11:1–11", "Ps 107:1–9, 43", "Col 3:1–11", "Luke 12:13–21")),
        122 => ("A", "Proper14", ("Gen 37:1–4, 12–28", "Ps 105:1–6, 16–22", "Rom 10:5–15", "Matt 14:22–33")),
        123 => ("B", "Proper14", ("2 Sam 18:5–9, 15, 31–33", "Ps 130", "Eph 4:25–5:2", "John 6:35, 41–51")),
        124 => ("C", "Proper14", ("Isa 1:1, 10–20", "Ps 50:1–8, 22–23", "Heb 11:1–3, 8–16", "Luke 12:32–40")),
        125 => ("A", "Proper15", ("Gen 45:1–15", "Ps 133", "Rom 11:1–2a, 29–32", "Matt 15:21–28")),
        126 => ("B", "Proper15", ("1 Kgs 2:10–12; 3:3–14", "Ps 111", "Eph 5:15–20", "John 6:51–58")),
        127 => ("C", "Proper15", ("Isa 5:1–7", "Ps 80:1–2, 8–19", "Heb 11:29–12:2", "Luke 12:49–56")),
        128 => ("A", "Proper16", ("Exod 1:8–2:10", "Ps 124", "Rom 12:1–8", "Matt 16:13–20")),
        129 => ("B", "Proper16", ("1 Kgs 8:1, 6, 10–11, 22–30", "Ps 84", "Eph 6:10–20", "John 6:56–69")),
        130 => ("C", "Proper16", ("Isa 58:9b–14", "Ps 103:1–8", "Heb 12:18–29", "Luke 13:10–17")),
        131 => ("A", "Proper17", ("Exod 3:1–15", "Ps 105:1–6, 23–26", "Rom 12:9–21", "Matt 16:21–28")),
        132 => ("B", "Proper17", ("Song 2:8–13", "Ps 45:1–2, 6–9", "Jas 1:17–27", "Mark 7:1–8, 14–15, 21–23")),
        133 => ("C", "Proper17", ("Jer 2:4–13", "Ps 81:1, 10–16", "Heb 13:1–8, 15–16", "Luke 14:1, 7–14")),
        134 => ("A", "Proper18", ("Exod 12:1–14", "Ps 149", "Rom 13:8–14", "Matt 18:15–20")),
        135 => ("B", "Proper18", ("Prov 22:1–2, 8–9, 22–23", "Ps 125", "Jas 2:1–17", "Mark 7:24–37")),
        136 => ("C", "Proper18", ("Jer 18:1–11", "Ps 139:1–6, 13–18", "Phlm 1–21", "Luke 14:25–33")),
        137 => ("A", "Proper19", ("Exod 14:19–31", "Ps 114", "Rom 14:1–12", "Matt 18:21–35")),
        138 => ("B", "Proper19", ("Prov 1:20–33", "Ps 19", "Jas 3:1–12", "Mark 8:27–38")),
        139 => ("C", "Proper19", ("Jer 4:11–12, 22–28", "Ps 14", "1 Tim 1:12–17", "Luke 15:1–10")),
        140 => ("A", "Proper20", ("Exod 16:2–15", "Ps 105:1–6, 37–45", "Phil 1:21–30", "Matt 20:1–16")),
        141 => ("B", "Proper20", ("Prov 31:10–31", "Ps 1", "Jas 3:13–4:3, 7–8a", "Mark 9:30–37")),
        142 => ("C", "Proper20", ("Jer 8:18–9:1", "Ps 79:1–9", "1 Tim 2:1–7", "Luke 16:1–13")),
        143 => ("A", "Proper21", ("Exod 17:1–7", "Ps 78:1–4, 12–16", "Phil 2:1–13", "Matt 21:23–32")),
        144 => ("B", "Proper21", ("Esth 7:1–6, 9–10; 9:20–22", "Ps 124", "Jas 5:13–20", "Mark 9:38–50")),
        145 => ("C", "Proper21", ("Jer 32:1–3a, 6–15", "Ps 91:1–6, 14–16", "1 Tim 6:6–19", "Luke 16:19–31")),
        146 => ("A", "Proper22", ("Exod 20:1–4, 7–9, 12–20", "Ps 19", "Phil 3:4b–14", "Matt 21:33–46")),
        147 => ("B", "Proper22", ("Job 1:1; 2:1–10", "Ps 26", "Heb 1:1–4; 2:5–12", "Mark 10:2–16")),
        148 => ("C", "Proper22", ("Lam 1:1–6", "Ps 137", "2 Tim 1:1–14", "Luke 17:5–10")),
        149 => ("A", "Proper23", ("Exod 32:1–14", "Ps 106:1–6, 19–23", "Phil 4:1–9", "Matt 22:1–14")),
        150 => ("B", "Proper23", ("Job 23:1–9, 16–17", "Ps 22:1–15", "Heb 4:12–16", "Mark 10:17–31")),
        151 => ("C", "Proper23", ("Jer 29:1, 4–7", "Ps 66:1–12", "2 Tim 2:8–15", "Luke 17:11–19")),
        152 => ("A", "Proper24", ("Exod 33:12–23", "Ps 99", "1 Thess 1:1–10", "Matt 22:15–22")),
        153 => ("B", "Proper24", ("Job 38:1–7", "Ps 104:1–9, 24, 35c", "Heb 5:1–10", "Mark 10:35–45")),
        154 => ("C", "Proper24", ("Jer 31:27–34", "Ps 119:97–104", "2 Tim 3:14–4:5", "Luke 18:1–8")),
        155 => ("A", "Proper25", ("Deut 34:1–12", "Ps 90:1–6, 13–17", "1 Thess 2:1–8", "Matt 22:34–46")),
        156 => ("B", "Proper25", ("Job 42:1–6, 10–17", "Ps 34:1–8", "Heb 7:23–28", "Mark 10:46–52")),
        157 => ("C", "Proper25", ("Joel 2:23–32", "Ps 65", "2 Tim 4:6–8, 16–18", "Luke 18:9–14")),
        158 => ("A", "Proper26", ("Josh 3:7–17", "Ps 107:1–7, 33–37", "1 Thess 2:9–13", "Matt 23:1–12")),
        159 => ("B", "Proper26", ("Ruth 1:1–18", "Ps 146", "Heb 9:11–14", "Mark 12:28–34")),
        160 => ("C", "Proper26", ("Hab 1:1–4; 2:1–4", "Ps 119:137–144", "2 Thess 1:1–4, 11–12", "Luke 19:1–10")),
        161 => ("A", "Proper27", ("Josh 24:1–3a, 14–25", "Ps 78:1–7", "1 Thess 4:13–18", "Matt 25:1–13")),
        162 => ("B", "Proper27", ("Ruth 3:1–5; 4:13–17", "Ps 127", "Heb 9:24–28", "Mark 12:38–44")),
        163 => ("C", "Proper27", ("Hag 1:15b–2:9", "Ps 145:1–5, 17–21", "2 Thess 2:1–5, 13–17", "Luke 20:27–38")),
        164 => ("A", "Proper28", ("Judg 4:1–7", "Ps 123", "1 Thess 5:1–11", "Matt 25:14–30")),
        165 => ("B", "Proper28", ("1 Sam 1:4–20", "1 Sam 2:1–10", "Heb 10:11–14, 19–25", "Mark 13:1–8")),
        166 => ("C", "Proper28", ("Isa 65:17–25", "Isa 12", "2 Thess 3:6–13", "Luke 21:5–19")),
        167 => ("A", "Proper29", ("Ezek 34:11–16, 20–24", "Ps 95:1–7a", "Eph 1:15–23", "Matt 25:31–46")),
        168 => ("B", "Proper29", ("2 Sam 23:1–7", "Ps 132:1–12", "Rev 1:4b–8", "John 18:33–37")),
        _ => ("C", "Proper29", ("Jer 23:1–6", "Ps 46", "Col 1:11–20", "Luke 23:33–43")),
    }
}

/// Rows in the Complementary-track table.
pub const COMPLEMENTARY_ROWS: usize = 78;

/// Row `i` of the Complementary-track table: cycle year, Proper id, Old
/// Testament and Psalm citations.
pub open spec fn complementary_row(i: usize) -> (Seq<char>, Seq<char>, (Seq<char>, Seq<char>)) {
    match i {
        0 => ("A"@, "Proper4"@, ("Deut 11:18–21, 26–28"@, "Ps 31:1–5, 19–24"@)),
        1 => ("B"@, "Proper4"@, ("Deut 5:12–15"@, "Ps 81:1–10"@)),
        2 => ("C"@, "Proper4"@, ("1 Kgs 8:22–23, 41–43"@, "Ps 96:1–9"@)),
        3 => ("A"@, "Proper5"@, ("Hos 5:15–6:6"@, "Ps 50:7–15"@)),
        4 => ("B"@, "Proper5"@, ("Gen 3:8–15"@, "Ps 130"@)),
        5 => ("C"@, "Proper5"@, ("1 Kgs 17:17–24"@, "Ps 30"@)),
        6 => ("A"@, "Proper6"@, ("Exod 19:2–8a"@, "Ps 100"@)),
        7 => ("B"@, "Proper6"@, ("Ezek 17:22–24"@, "Ps 92:1–4, 12–15"@)),
        8 => ("C"@, "Proper6"@, ("2 Sam 11:26–12:10, 13–15"@, "Ps 32"@)),
        9 => ("A"@, "Proper7"@, ("Jer 20:7–13"@, "Ps 69:7–10[11–15]16–18"@)),
        10 => ("B"@, "Proper7"@, ("Job 38:1–11"@, "Ps 107:1–3, 23–32"@)),
        11 => ("C"@, "Proper7"@, ("Isa 65:1–9"@, "Ps 22:19–28"@)),
        12 => ("A"@, "Proper8"@, ("Jer 28:5–9"@, "Ps 89:1–4, 15–18"@)),
        13 => ("B"@, "Proper8"@, ("Lam 3:22–33"@, "Ps 30"@)),
        14 => ("C"@, "Proper8"@, ("1 Kgs 19:15–16, 19–21"@, "Ps 16"@)),
        15 => ("A"@, "Proper9"@, ("Zech 9:9–12"@, "Ps 145:8–14"@)),
        16 => ("B"@, "Proper9"@, ("Ezek 2:1–5"@, "Ps 123"@)),
        17 => ("C"@, "Proper9"@, ("Isa 66:10–14"@, "Ps 66:1–9"@)),
        18 => ("A"@, "Proper10"@, ("Isa 55:10–13"@, "Ps 65:[1–8]9–13"@)),
        19 => ("B"@, "Proper10"@, ("Amos 7:7–15"@, "Ps 85:8–13"@)),
        20 => ("C"@, "Proper10"@, ("Deut 30:9–14"@, "Ps 25:1–10"@)),
        21 => ("A"@, "Proper11"@, ("Isa 44:6–8"@, "Ps 86:11–17"@)),
        22 => ("B"@, "Proper11"@, ("Jer 23:1–6"@, "Ps 23"@)),
        23 => ("C"@, "Proper11"@, ("Gen 18:1–10a"@, "Ps 15"@)),
        24 => ("A"@, "Proper12"@, ("1 Kgs 3:5–12"@, "Ps 119:129–136"@)),
        25 => ("B"@, "Proper12"@, ("2 Kgs 4:42–44"@, "Ps 145:10–18"@)),
        26 => ("C"@, "Proper12"@, ("Gen 18:20–32"@, "Ps 138"@)),
        27 => ("A"@, "Proper13"@, ("Isa 55:1–5"@, "Ps 145:8–9, 14–21"@)),
        28 => ("B"@, "Proper13"@, ("Exod 16:2–4, 9–15"@, "Ps 78:23–29"@)),
        29 => ("C"@, "Proper13"@, ("Eccl 1:2, 12–14; 2:18–23"@, "Ps 49:1–12"@)),
        30 => ("A"@, "Proper14"@, ("1 Kgs 19:9–18"@, "Ps 85:8–13"@)),
        31 => ("B"@, "Proper14"@, ("1 Kgs 19:4–8"@, "Ps 34:1–8"@)),
        32 => ("C"@, "Proper14"@, ("Gen 15:1–6"@, "Ps 33:12–22"@)),
        33 => ("A"@, "Proper15"@, ("Isa 56:1, 6–8"@, "Ps 67"@)),
        34 => ("B"@, "Proper15"@, ("Prov 9:1–6"@, "Ps 34:9–14"@)),
        35 => ("C"@, "Proper15"@, ("Jer 23:23–29"@, "Ps 82"@)),
        36 => ("A"@, "Proper16"@, ("Isa 51:1–6"@, "Ps 138"@)),
        37 => ("B"@, "Proper16"@, ("Josh 24:1–2a, 14–18"@, "Ps 34:15–22"@)),
        38 => ("C"@, "Proper16"@, ("Isa 58:9b–14"@, "Ps 103:1–8"@)),
        39 => ("A"@, "Proper17"@, ("Jer 15:15–21"@, "Ps 26:1–8"@)),
        40 => ("B"@, "Proper17"@, ("Deut 4:1–2, 6–9"@, "Ps 15"@)),
        41 => ("C"@, "Proper17"@, ("Prov 25:6–7"@, "Ps 112"@)),
        42 => ("A"@, "Proper18"@, ("Ezek 33:7–11"@, "Ps 119:33–40"@)),
        43 => ("B"@, "Proper18"@, ("Isa 35:4–7a"@, "Ps 146"@)),
        44 => ("C"@, "Proper18"@, ("Deut 30:15–20"@, "Ps 1"@)),
        45 => ("A"@, "Proper19"@, ("Gen 50:15–21"@, "Ps 103:[1–7]8–13"@)),
        46 => ("B"@, "Proper19"@, ("Isa 50:4–9a"@, "Ps 116:1–9"@)),
        47 => ("C"@, "Proper19"@, ("Exod 32:7–14"@, "Ps 51:1–10"@)),
        48 => ("A"@, "Proper20"@, ("Jon 3:10–4:11"@, "Ps 145:1–8"@)),
        49 => ("B"@, "Proper20"@, ("Jer 11:18–20"@, "Ps 54"@)),
        50 => ("C"@, "Proper20"@, ("Amos 8:4–7"@, "Ps 113"@)),
        51 => ("A"@, "Proper21"@, ("Ezek 18:1–4, 25–32"@, "Ps 25:1–9"@)),
        52 => ("B"@, "Proper21"@, ("Num 11:4–6, 10–16, 24–29"@, "Ps 19:7–14"@)),
        53 => ("C"@, "Proper21"@, ("Amos 6:1a, 4–7"@, "Ps 146"@)),
        54 => ("A"@, "Proper22"@, ("Isa 5:1–7"@, "Ps 80:7–15"@)),
        55 => ("B"@, "Proper22"@, ("Gen 2:18–24"@, "Ps 8"@)),
        56 => ("C"@, "Proper22"@, ("Hab 1:1–4; 2:1–4"@, "Ps 37:1–9"@)),
        57 => ("A"@, "Proper23"@, ("Isa 25:1–9"@, "Ps 23"@)),
        58 => ("B"@, "Proper23"@, ("Amos 5:6–7, 10–15"@, "Ps 90:12–17"@)),
        59 => ("C"@, "Proper23"@, ("2 Kgs 5:1–3, 7–15c"@, "Ps 111"@)),
        60 => ("A"@, "Proper24"@, ("Isa 45:1–7"@, "Ps 96:1–9[10–13]"@)),
        61 => ("B"@, "Proper24"@, ("Isa 53:4–12"@, "Ps 91:9–16"@)),
        62 => ("C"@, "Proper24"@, ("Gen 32:22–31"@, "Ps 121"@)),
        63 => ("A"@, "Proper25"@, ("Lev 19:1–2, 15–18"@, "Ps 1"@)),
        64 => ("B"@, "Proper25"@, ("Jer 31:7–9"@, "Ps 126"@)),
        65 => ("C"@, "Proper25"@, ("Jer 14:7–10, 19–22"@, "Ps 84:1–7"@)),
        66 => ("A"@, "Proper26"@, ("Mic 3:5–12"@, "Ps 43"@)),
        67 => ("B"@, "Proper26"@, ("Deut 6:1–9"@, "Ps 119:1–8"@)),
        68 => ("C"@, "Proper26"@, ("Isa 1:10–18"@, "Ps 32:1–7"@)),
        69 => ("A"@, "Proper27"@, ("Amos 5:18–24"@, "Ps 70"@)),
        70 => ("B"@, "Proper27"@, ("1 Kgs 17:8–16"@, "Ps 146"@)),
        71 => ("C"@, "Proper27"@, ("Job 19:23–27a"@, "Ps 17:1–9"@)),
        72 => ("A"@, "Proper28"@, ("Zeph 1:7, 12–18"@, "Ps 90:1–8[9–11]12"@)),
        73 => ("B"@, "Proper28"@, ("Dan 12:1–3"@, "Ps 16"@)),
        74 => ("C"@, "Proper28"@, ("Mal 4:1–2a"@, "Ps 98"@)),
        75 => ("A"@, "Proper29"@, ("Ezek 34:11–16, 20–24"@, "Ps 95:1–7a"@)),
        76 => ("B"@, "Proper29"@, ("Dan 7:9–10, 13–14"@, "Ps 93"@)),
        _ => ("C"@, "Proper29"@, ("Jer 23:1–6"@, "Ps 46"@)),
    }
}

pub fn complementary_row_at(i: usize) -> (r: (&'static str, &'static str, (&'static str, &'static str)))
    ensures
        (r.0@, r.1@, (r.2.0@, r.2.1@)) == complementary_row(i),
{
    match i {
        0 => ("A", "Proper4", ("Deut 11:18–21, 26–28", "Ps 31:1–5, 19–24")),
        1 => ("B", "Proper4", ("Deut 5:12–15", "Ps 81:1–10")),
        2 => ("C", "Proper4", ("1 Kgs 8:22–23, 41–43", "Ps 96:1–9")),
        3 => ("A", "Proper5", ("Hos 5:15–6:6", "Ps 50:7–15")),
        4 => ("B", "Proper5", ("Gen 3:8–15", "Ps 130")),
        5 => ("C", "Proper5", ("1 Kgs 17:17–24", "Ps 30")),
        6 => ("A", "Proper6", ("Exod 19:2–8a", "Ps 100")),
        7 => ("B", "Proper6", ("Ezek 17:22–24", "Ps 92:1–4, 12–15")),
        8 => ("C", "Proper6", ("2 Sam 11:26–12:10, 13–15", "Ps 32")),
        9 => ("A", "Proper7", ("Jer 20:7–13", "Ps 69:7–10[11–15]16–18")),
        10 => ("B", "Proper7", ("Job 38:1–11", "Ps 107:1–3, 23–32")),
        11 => ("C", "Proper7", ("Isa 65:1–9", "Ps 22:19–28")),
        12 => ("A", "Proper8", ("Jer 28:5–9", "Ps 89:1–4, 15–18")),
        13 => ("B", "Proper8", ("Lam 3:22–33", "Ps 30")),
        14 => ("C", "Proper8", ("1 Kgs 19:15–16, 19–21", "Ps 16")),
        15 => ("A", "Proper9", ("Zech 9:9–12", "Ps 145:8–14")),
        16 => ("B", "Proper9", ("Ezek 2:1–5", "Ps 123")),
        17 => ("C", "Proper9", ("Isa 66:10–14", "Ps 66:1–9")),
        18 => ("A", "Proper10", ("Isa 55:10–13", "Ps 65:[1–8]9–13")),
        19 => ("B", "Proper10", ("Amos 7:7–15", "Ps 85:8–13")),
        20 => ("C", "Proper10", ("Deut 30:9–14", "Ps 25:1–10")),
        21 => ("A", "Proper11", ("Isa 44:6–8", "Ps 86:11–17")),
        22 => ("B", "Proper11", ("Jer 23:1–6", "Ps 23")),
        23 => ("C", "Proper11", ("Gen 18:1–10a", "Ps 15")),
        24 => ("A", "Proper12", ("1 Kgs 3:5–12", "Ps 119:129–136")),
        25 => ("B", "Proper12", ("2 Kgs 4:42–44", "Ps 145:10–18")),
        26 => ("C", "Proper12", ("Gen 18:20–32", "Ps 138")),
        27 => ("A", "Proper13", ("Isa 55:1–5", "Ps 145:8–9, 14–21")),
        28 => ("B", "Proper13", ("Exod 16:2–4, 9–15", "Ps 78:23–29")),
        29 => ("C", "Proper13", ("Eccl 1:2, 12–14; 2:18–23", "Ps 49:1–12")),
        30 => ("A", "Proper14", ("1 Kgs 19:9–18", "Ps 85:8–13")),
        31 => ("B", "Proper14", ("1 Kgs 19:4–8", "Ps 34:1–8")),
        32 => ("C", "Proper14", ("Gen 15:1–6", "Ps 33:12–22")),
        33 => ("A", "Proper15", ("Isa 56:1, 6–8", "Ps 67")),
        34 => ("B", "Proper15", ("Prov 9:1–6", "Ps 34:9–14")),
        35 => ("C", "Proper15", ("Jer 23:23–29", "Ps 82")),
        36 => ("A", "Proper16", ("Isa 51:1–6", "Ps 138")),
        37 => ("B", "Proper16", ("Josh 24:1–2a, 14–18", "Ps 34:15–22")),
        38 => ("C", "Proper16", ("Isa 58:9b–14", "Ps 103:1–8")),
        39 => ("A", "Proper17", ("Jer 15:15–21", "Ps 26:1–8")),
        40 => ("B", "Proper17", ("Deut 4:1–2, 6–9", "Ps 15")),
        41 => ("C", "Proper17", ("Prov 25:6–7", "Ps 112")),
        42 => ("A", "Proper18", ("Ezek 33:7–11", "Ps 119:33–40")),
        43 => ("B", "Proper18", ("Isa 35:4–7a", "Ps 146")),
        44 => ("C", "Proper18", ("Deut 30:15–20", "Ps 1")),
        45 => ("A", "Proper19", ("Gen 50:15–21", "Ps 103:[1–7]8–13")),
        46 => ("B", "Proper19", ("Isa 50:4–9a", "Ps 116:1–9")),
        47 => ("C", "Proper19", ("Exod 32:7–14", "Ps 51:1–10")),
        48 => ("A", "Proper20", ("Jon 3:10–4:11", "Ps 145:1–8")),
        49 => ("B", "Proper20", ("Jer 11:18–20", "Ps 54")),
        50 => ("C", "Proper20", ("Amos 8:4–7", "Ps 113")),
        51 => ("A", "Proper21", ("Ezek 18:1–4, 25–32", "Ps 25:1–9")),
        52 => ("B", "Proper21", ("Num 11:4–6, 10–16, 24–29", "Ps 19:7–14")),
        53 => ("C", "Proper21", ("Amos 6:1a, 4–7", "Ps 146")),
        54 => ("A", "Proper22", ("Isa 5:1–7", "Ps 80:7–15")),
        55 => ("B", "Proper22", ("Gen 2:18–24", "Ps 8")),
        56 => ("C", "Proper22", ("Hab 1:1–4; 2:1–4", "Ps 37:1–9")),
        57 => ("A", "Proper23", ("Isa 25:1–9", "Ps 23")),
        58 => ("B", "Proper23", ("Amos 5:6–7, 10–15", "Ps 90:12–17")),
        59 => ("C", "Proper23", ("2 Kgs 5:1–3, 7–15c", "Ps 111")),
        60 => ("A", "Proper24", ("Isa 45:1–7", "Ps 96:1–9[10–13]")),
        61 => ("B", "Proper24", ("Isa 53:4–12", "Ps 91:9–16")),
        62 => ("C", "Proper24", ("Gen 32:22–31", "Ps 121")),
        63 => ("A", "Proper25", ("Lev 19:1–2, 15–18", "Ps 1")),
        64 => ("B", "Proper25", ("Jer 31:7–9", "Ps 126")),
        65 => ("C", "Proper25", ("Jer 14:7–10, 19–22", "Ps 84:1–7")),
        66 => ("A", "Proper26", ("Mic 3:5–12", "Ps 43")),
        67 => ("B", "Proper26", ("Deut 6:1–9", "Ps 119:1–8")),
        68 => ("C", "Proper26", ("Isa 1:10–18", "Ps 32:1–7")),
        69 => ("A", "Proper27", ("Amos 5:18–24", "Ps 70")),
        70 => ("B", "Proper27", ("1 Kgs 17:8–16", "Ps 146")),
        71 => ("C", "Proper27", ("Job 19:23–27a", "Ps 17:1–9")),
        72 => ("A", "Proper28", ("Zeph 1:7, 12–18", "Ps 90:1–8[9–11]12")),
        73 => ("B", "Proper28", ("Dan 12:1–3", "Ps 16")),
        74 => ("C", "Proper28", ("Mal 4:1–2a", "Ps 98")),
        75 => ("A", "Proper29", ("Ezek 34:11–16, 20–24", "Ps 95:1–7a")),
        76 => ("B", "Proper29", ("Dan 7:9–10, 13–14", "Ps 93")),
        _ => ("C", "Proper29", ("Jer 23:1–6", "Ps 46")),
    }
}

/// Rows in the colour table.
pub const COLOUR_ROWS: usize = 14;

/// Row `i` of the colour table: season key, colour name, colour as hex.
pub open spec fn colour_row(i: usize) -> (Seq<char>, (Seq<char>, Seq<char>)) {
    match i {
        0 => ("Advent"@, ("Purple"@, "#6B21A8"@)),
        1 => ("Christmas"@, ("White / Gold"@, "#B45309"@)),
        2 => ("Epiphany"@, ("Green"@, "#15803D"@)),
        3 => ("Baptism"@, ("White / Gold"@, "#B45309"@)),
        4 => ("Transfiguration"@, ("White / Gold"@, "#B45309"@)),
        5 => ("Lent"@, ("Purple"@, "#6B21A8"@)),
        6 => ("Palm Sunday"@, ("Scarlet"@, "#B91C1C"@)),
        7 => ("Holy Thursday"@, ("White / Gold"@, "#B45309"@)),
        8 => ("Good Friday"@, ("Black"@, "#111827"@)),
        9 => ("Easter"@, ("White / Gold"@, "#B45309"@)),
        10 => ("Pentecost"@, ("Red"@, "#B91C1C"@)),
        11 => ("Trinity"@, ("White / Gold"@, "#B45309"@)),
        12 => ("Ordinary"@, ("Green"@, "#15803D"@)),
        _ => ("Christ the King"@, ("White / Gold"@, "#B45309"@)),
    }
}

pub fn colour_row_at(i: usize) -> (r: (&'static str, (&'static str, &'static str)))
    ensures
        (r.0@, (r.1.0@, r.1.1@)) == colour_row(i),
{
    match i {
        0 => ("Advent", ("Purple", "#6B21A8")),
        1 => ("Christmas", ("White / Gold", "#B45309")),
        2 => ("Epiphany", ("Green", "#15803D")),
        3 => ("Baptism", ("White / Gold", "#B45309")),
        4 => ("Transfiguration", ("White / Gold", "#B45309")),
        5 => ("Lent", ("Purple", "#6B21A8")),
        6 => ("Palm Sunday", ("Scarlet", "#B91C1C")),
        7 => ("Holy Thursday", ("White / Gold", "#B45309")),
        8 => ("Good Friday", ("Black", "#111827")),
        9 => ("Easter", ("White / Gold", "#B45309")),
        10 => ("Pentecost", ("Red", "#B91C1C")),
        11 => ("Trinity", ("White / Gold", "#B45309")),
        12 => ("Ordinary", ("Green", "#15803D")),
        _ => ("Christ the King", ("White / Gold", "#B45309")),
    }
}

/// Rows in the Proper-centre table.
pub const PROPER_ROWS: usize = 26;

/// Row `i` of the Proper-centre table: Proper number, then the month and day
/// at the centre of its week.
pub open spec fn proper_centre(i: usize) -> (u32, (u32, u32)) {
    match i {
        0 => (4, (5, 31)),
        1 => (5, (6, 7)),
        2 => (6, (6, 14)),
        3 => (7, (6, 21)),
        4 => (8, (6, 28)),
        5 => (9, (7, 5)),
        6 => (10, (7, 12)),
        7 => (11, (7, 19)),
        8 => (12, (7, 26)),
        9 => (13, (8, 2)),
        10 => (14, (8, 9)),
        11 => (15, (8, 16)),
        12 => (16, (8, 23)),
        13 => (17, (8, 30)),
        14 => (18, (9, 6)),
        15 => (19, (9, 13)),
        16 => (20, (9, 20)),
        17 => (21, (9, 27)),
        18 => (22, (10, 4)),
        19 => (23, (10, 11)),
        20 => (24, (10, 18)),
        21 => (25, (10, 25)),
        22 => (26, (11, 1)),
        23 => (27, (11, 8)),
        24 => (28, (11, 15)),
        _ => (29, (11, 22)),
    }
}

pub fn proper_centre_at(i: usize) -> (r: (u32, (u32, u32)))
    ensures
        r == proper_centre(i),
{
    match i {
        0 => (4, (5, 31)),
        1 => (5, (6, 7)),
        2 => (6, (6, 14)),
        3 => (7, (6, 21)),
        4 => (8, (6, 28)),
        5 => (9, (7, 5)),
        6 => (10, (7, 12)),
        7 => (11, (7, 19)),
        8 => (12, (7, 26)),
        9 => (13, (8, 2)),
        10 => (14, (8, 9)),
        11 => (15, (8, 16)),
        12 => (16, (8, 23)),
        13 => (17, (8, 30)),
        14 => (18, (9, 6)),
        15 => (19, (9, 13)),
        16 => (20, (9, 20)),
        17 => (21, (9, 27)),
        18 => (22, (10, 4)),
        19 => (23, (10, 11)),
        20 => (24, (10, 18)),
        21 => (25, (10, 25)),
        22 => (26, (11, 1)),
        23 => (27, (11, 8)),
        24 => (28, (11, 15)),
        _ => (29, (11, 22)),
    }
}

} // verus!
