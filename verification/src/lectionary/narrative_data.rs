//! Narrative Lectionary (Luther Seminary / Working Preacher) readings: the
//! four program years of its cycle, one per gospel, each running from the
//! Sunday after Labor Day to Pentecost, and the one summer series published
//! outside the cycle (2026).

use vstd::prelude::*;

verus! {

/// One week of a Narrative Lectionary program year.
#[derive(Clone, Debug, PartialEq)]
pub struct Week {
    /// Luther Seminary's slot code, e.g. "NL101".
    pub code: &'static str,
    pub title: &'static str,
    /// The liturgical-season label, the week's date-independent key.
    pub season: &'static str,
    /// One or two co-equal primary texts.
    pub primary: Vec<&'static str>,
    pub alt_primary: Option<&'static str>,
    pub accompanying: Option<&'static str>,
    /// The month and day the week fell on in the program year transcribed.
    pub source_date: &'static str,
}

#[verifier::ext_equal]
pub struct WeekView {
    pub code: Seq<char>,
    pub title: Seq<char>,
    pub season: Seq<char>,
    pub primary: Seq<Seq<char>>,
    pub alt_primary: Option<Seq<char>>,
    pub accompanying: Option<Seq<char>>,
    pub source_date: Seq<char>,
}

pub open spec fn opt_text(o: Option<&'static str>) -> Option<Seq<char>> {
    match o {
        Some(s) => Some(s@),
        None => None,
    }
}

pub open spec fn texts(v: Seq<&'static str>) -> Seq<Seq<char>> {
    v.map_values(|s: &'static str| s@)
}

impl View for Week {
    type V = WeekView;

    open spec fn view(&self) -> WeekView {
        WeekView {
            code: self.code@,
            title: self.title@,
            season: self.season@,
            primary: texts(self.primary@),
            alt_primary: opt_text(self.alt_primary),
            accompanying: opt_text(self.accompanying),
            source_date: self.source_date@,
        }
    }
}

/// The four program years of the cycle.
#[derive(Clone, Copy, Debug, PartialEq, Eq, Structural)]
pub enum ProgramYear {
    Matthew,
    Mark,
    Luke,
    John,
}

/// Number of weeks in each program year.
pub open spec fn year_len(y: ProgramYear) -> nat {
    match y {
        ProgramYear::Matthew => 41,
        ProgramYear::Mark => 42,
        ProgramYear::Luke => 45,
        ProgramYear::John => 43,
    }
}

pub fn year_len_of(y: ProgramYear) -> (r: usize)
    ensures
        r == year_len(y),
{
    match y {
        ProgramYear::Matthew => 41,
        ProgramYear::Mark => 42,
        ProgramYear::Luke => 45,
        ProgramYear::John => 43,
    }
}

/// Week `i` of Year 1 (Matthew), "Narrative Lectionary 2026-27".
pub open spec fn matthew_week(i: usize) -> WeekView {
    match i {
        0 => WeekView { code: "NL101"@, title: "Flood and Promise"@, season: "Sixteenth Sunday after Pentecost"@, primary: seq!["Gen 6:5–22; 8:6–12; 9:8–17"@], alt_primary: None, accompanying: Some("Matt 8:24–27"@), source_date: "September 13"@ },
        1 => WeekView { code: "NL102"@, title: "Call of Abraham"@, season: "Seventeenth Sunday after Pentecost"@, primary: seq!["Gen 12:1–9"@], alt_primary: None, accompanying: Some("Matt 28:19–20"@), source_date: "September 20"@ },
        2 => WeekView { code: "NL103"@, title: "Joseph in Prison"@, season: "Eighteenth Sunday after Pentecost"@, primary: seq!["Gen 39:1–23"@], alt_primary: None, accompanying: Some("Matt 5:11–12"@), source_date: "September 27"@ },
        3 => WeekView { code: "NL104"@, title: "Rescue at the Sea"@, season: "Nineteenth Sunday after Pentecost"@, primary: seq!["Exod 14:5–7, 10–14, 21–29"@], alt_primary: None, accompanying: Some("Matt 2:13–15"@), source_date: "October 4"@ },
        4 => WeekView { code: "NL105"@, title: "Covenant and Commandments"@, season: "Twentieth Sunday after Pentecost"@, primary: seq!["Exod 19:3–7; 20:1–17"@], alt_primary: None, accompanying: Some("Matt 5:17"@), source_date: "October 11"@ },
        5 => WeekView { code: "NL106"@, title: "Joshua Renews the Covenant"@, season: "Twenty-first Sunday after Pentecost"@, primary: seq!["Josh 24:1–15 [16–26]"@], alt_primary: None, accompanying: Some("Matt 4:8–10"@), source_date: "October 18"@ },
        6 => WeekView { code: "NL107"@, title: "David and Bathsheba"@, season: "Twenty-second Sunday after Pentecost"@, primary: seq!["2 Sam 11:1–5, 26–27; 12:1–9"@, "Ps 51:1–9"@], alt_primary: None, accompanying: Some("Matt 21:33–41"@), source_date: "October 25"@ },
        7 => WeekView { code: "NL108"@, title: "Solomon's Wisdom"@, season: "Twenty-third Sunday after Pentecost"@, primary: seq!["1 Kgs 3:4–9, [10–15], 16–28"@], alt_primary: None, accompanying: Some("Matt 6:9–10"@), source_date: "November 1"@ },
        8 => WeekView { code: "NL109"@, title: "Elisha Heals Naaman"@, season: "Twenty-fourth Sunday after Pentecost"@, primary: seq!["2 Kgs 5:1–15a"@], alt_primary: None, accompanying: Some("Matt 8:2–3"@), source_date: "November 8"@ },
        9 => WeekView { code: "NL110"@, title: "Micah"@, season: "Twenty-fifth Sunday after Pentecost"@, primary: seq!["Mic [1:3–5]; 5:2–5a; 6:6–8"@], alt_primary: None, accompanying: Some("Matt 9:13"@), source_date: "November 15"@ },
        10 => WeekView { code: "NL111"@, title: "Swords into Plowshares"@, season: "Christ the King / Reign of Christ Sunday"@, primary: seq!["Isa 36:1–3, 13–20; 37:1–7; 2:1–4"@], alt_primary: None, accompanying: Some("Matt 5:14"@), source_date: "November 22"@ },
        11 => WeekView { code: "NL113"@, title: "Faith as a Way of Life"@, season: "First Sunday of Advent"@, primary: seq!["Hab 1:1–7; 2:1–4; 3:[3b–6], 17–19"@], alt_primary: None, accompanying: Some("Matt 26:36–38"@), source_date: "November 29"@ },
        12 => WeekView { code: "NL114"@, title: "Esther"@, season: "Second Sunday of Advent"@, primary: seq!["Esth 4:1–17"@], alt_primary: None, accompanying: Some("Matt 5:13–16"@), source_date: "December 6"@ },
        13 => WeekView { code: "NL115"@, title: "Light to the Nations"@, season: "Third Sunday of Advent"@, primary: seq!["Isa 42:1–9"@], alt_primary: None, accompanying: Some("Matt 12:15–21"@), source_date: "December 13"@ },
        14 => WeekView { code: "NL116"@, title: "Jesus as Immanuel"@, season: "Fourth Sunday of Advent"@, primary: seq!["Matt 1:18–25"@], alt_primary: None, accompanying: Some("Ps 23:1–4, or 23:4"@), source_date: "December 20"@ },
        15 => WeekView { code: "NL117"@, title: "Birth of Jesus"@, season: "Christmas Eve"@, primary: seq!["Luke 2:1–14 [15–20]"@], alt_primary: None, accompanying: Some("Ps 96:10–13"@), source_date: "December 24"@ },
        16 => WeekView { code: "NL118"@, title: "Shepherds Visit"@, season: "Christmas Day"@, primary: seq!["Luke 2:8–20"@], alt_primary: None, accompanying: Some("Ps 95:6–7"@), source_date: "December 25"@ },
        17 => WeekView { code: "NL119"@, title: "Genealogy of Jesus"@, season: "First Sunday of Christmas"@, primary: seq!["Matt 1:1–17"@], alt_primary: None, accompanying: Some("Ps 132:11–12"@), source_date: "December 27"@ },
        18 => WeekView { code: "NL120"@, title: "Flight to Egypt"@, season: "Second Sunday of Christmas"@, primary: seq!["Matt 2:1–23"@], alt_primary: None, accompanying: Some("Ps 96:10–13 [opt: Ps 11:1–3]"@), source_date: "January 3"@ },
        19 => WeekView { code: "NL121"@, title: "Jesus' Baptism: Matthew"@, season: "Baptism of Our Lord"@, primary: seq!["Matt 3:1–17"@], alt_primary: None, accompanying: Some("Ps 2:7–8"@), source_date: "January 10"@ },
        20 => WeekView { code: "NL122"@, title: "Tempted in the Wilderness"@, season: "Second Sunday after Epiphany"@, primary: seq!["Matt 4:1–17"@], alt_primary: None, accompanying: Some("Ps 91:9–12"@), source_date: "January 17"@ },
        21 => WeekView { code: "NL123"@, title: "Beatitudes"@, season: "Third Sunday after Epiphany"@, primary: seq!["Matt 5:1–20"@], alt_primary: None, accompanying: Some("Ps 1:1–3"@), source_date: "January 24"@ },
        22 => WeekView { code: "NL124"@, title: "Treasure in Heaven"@, season: "Fourth Sunday after Epiphany"@, primary: seq!["Matt 6:7–21 [25–34]"@], alt_primary: None, accompanying: Some("Ps 20:7"@), source_date: "January 31"@ },
        23 => WeekView { code: "NL129"@, title: "Transfiguration"@, season: "Transfiguration"@, primary: seq!["Matt 16:24–17:8"@], alt_primary: None, accompanying: Some("Ps 41:7–10"@), source_date: "February 7"@ },
        24 => WeekView { code: "NL130"@, title: "Who Is the Greatest?"@, season: "Ash Wednesday"@, primary: seq!["Matt 18:1–9"@], alt_primary: None, accompanying: Some("Ps 146:7c–10 or 51:1–3"@), source_date: "February 10"@ },
        25 => WeekView { code: "NL131"@, title: "Forgiveness"@, season: "First Sunday in Lent"@, primary: seq!["Matt 18:15–35"@], alt_primary: None, accompanying: Some("Ps 32:1–2"@), source_date: "February 14"@ },
        26 => WeekView { code: "NL132"@, title: "Laborers in the Vineyard"@, season: "Second Sunday in Lent"@, primary: seq!["Matt 20:1–16"@], alt_primary: None, accompanying: Some("Ps 16:5–8"@), source_date: "February 21"@ },
        27 => WeekView { code: "NL133"@, title: "Wedding Banquet"@, season: "Third Sunday in Lent"@, primary: seq!["Matt 22:1–14"@], alt_primary: None, accompanying: Some("Ps 45:6–7"@), source_date: "February 28"@ },
        28 => WeekView { code: "NL134"@, title: "Bridesmaids (and Talents)"@, season: "Fourth Sunday in Lent"@, primary: seq!["Matt 25:1–13 [14–30]"@], alt_primary: None, accompanying: Some("Ps 43:3–4"@), source_date: "March 7"@ },
        29 => WeekView { code: "NL135"@, title: "Last Judgment"@, season: "Fifth Sunday in Lent"@, primary: seq!["Matt 25:31–46"@], alt_primary: None, accompanying: Some("Ps 98:7–9"@), source_date: "March 14"@ },
        30 => WeekView { code: "NL136"@, title: "Triumphal Entry"@, season: "Palm Sunday"@, primary: seq!["Matt 21:1–17"@], alt_primary: None, accompanying: Some("Ps 118:25–29"@), source_date: "March 21"@ },
        31 => WeekView { code: "NL137"@, title: "Words of Institution"@, season: "Maundy Thursday"@, primary: seq!["Matt 26:17–30"@], alt_primary: None, accompanying: Some("Ps 116:12–15"@), source_date: "March 25"@ },
        32 => WeekView { code: "NL138"@, title: "Crucifixion: Matthew"@, season: "Good Friday"@, primary: seq!["Matt 27:27–61"@], alt_primary: None, accompanying: Some("Ps 22:1–2, [14–18]"@), source_date: "March 26"@ },
        33 => WeekView { code: "NL139"@, title: "Easter: Matthew"@, season: "Easter"@, primary: seq!["Matt 28:1–10"@], alt_primary: None, accompanying: Some("Ps 118:19–24"@), source_date: "March 28"@ },
        34 => WeekView { code: "NL140"@, title: "Great Commission"@, season: "Second Sunday of Easter"@, primary: seq!["Matt 28:16–20"@], alt_primary: None, accompanying: Some("Ps 40:9–10"@), source_date: "April 4"@ },
        35 => WeekView { code: "NL141"@, title: "Peter's Vision"@, season: "Third Sunday of Easter"@, primary: seq!["Acts 10:1–17, 34–48"@], alt_primary: None, accompanying: Some("Matt 9:36–37"@), source_date: "April 11"@ },
        36 => WeekView { code: "NL142"@, title: "Paul's Mission"@, season: "Fourth Sunday of Easter"@, primary: seq!["Acts 13:1–3; 14:8–18"@], alt_primary: None, accompanying: Some("Matt 10:40–42"@), source_date: "April 18"@ },
        37 => WeekView { code: "NL143"@, title: "Gospel as Salvation"@, season: "Fifth Sunday of Easter"@, primary: seq!["Rom 1:1–17"@], alt_primary: None, accompanying: Some("Matt 9:10–13"@), source_date: "April 25"@ },
        38 => WeekView { code: "NL144"@, title: "God's Love Poured Out"@, season: "Sixth Sunday of Easter"@, primary: seq!["Rom [3:28–30] 5:1–11"@], alt_primary: None, accompanying: Some("Matt 11:28–30"@), source_date: "May 2"@ },
        39 => WeekView { code: "NL145"@, title: "Hope of Resurrection"@, season: "Seventh Sunday of Easter"@, primary: seq!["Rom 6:1–14"@], alt_primary: None, accompanying: Some("Matt 6:24"@), source_date: "May 9"@ },
        _ => WeekView { code: "NL146"@, title: "Nothing Can Separate Us"@, season: "Pentecost"@, primary: seq!["Acts 2:1–4"@, "Rom 8:14–39"@], alt_primary: None, accompanying: Some("Matt 28:16–20"@), source_date: "May 16"@ },
    }
}

fn matthew_week_at(i: usize) -> (r: Week)
    ensures
        r@ == matthew_week(i),
{
    let r = match i {
        0 => Week { code: "NL101", title: "Flood and Promise", season: "Sixteenth Sunday after Pentecost", primary: vec!["Gen 6:5–22; 8:6–12; 9:8–17"], alt_primary: None, accompanying: Some("Matt 8:24–27"), source_date: "September 13" },
        1 => Week { code: "NL102", title: "Call of Abraham", season: "Seventeenth Sunday after Pentecost", primary: vec!["Gen 12:1–9"], alt_primary: None, accompanying: Some("Matt 28:19–20"), source_date: "September 20" },
        2 => Week { code: "NL103", title: "Joseph in Prison", season: "Eighteenth Sunday after Pentecost", primary: vec!["Gen 39:1–23"], alt_primary: None, accompanying: Some("Matt 5:11–12"), source_date: "September 27" },
        3 => Week { code: "NL104", title: "Rescue at the Sea", season: "Nineteenth Sunday after Pentecost", primary: vec!["Exod 14:5–7, 10–14, 21–29"], alt_primary: None, accompanying: Some("Matt 2:13–15"), source_date: "October 4" },
        4 => Week { code: "NL105", title: "Covenant and Commandments", season: "Twentieth Sunday after Pentecost", primary: vec!["Exod 19:3–7; 20:1–17"], alt_primary: None, accompanying: Some("Matt 5:17"), source_date: "October 11" },
        5 => Week { code: "NL106", title: "Joshua Renews the Covenant", season: "Twenty-first Sunday after Pentecost", primary: vec!["Josh 24:1–15 [16–26]"], alt_primary: None, accompanying: Some("Matt 4:8–10"), source_date: "October 18" },
        6 => Week { code: "NL107", title: "David and Bathsheba", season: "Twenty-second Sunday after Pentecost", primary: vec!["2 Sam 11:1–5, 26–27; 12:1–9", "Ps 51:1–9"], alt_primary: None, accompanying: Some("Matt 21:33–41"), source_date: "October 25" },
        7 => Week { code: "NL108", title: "Solomon's Wisdom", season: "Twenty-third Sunday after Pentecost", primary: vec!["1 Kgs 3:4–9, [10–15], 16–28"], alt_primary: None, accompanying: Some("Matt 6:9–10"), source_date: "November 1" },
        8 => Week { code: "NL109", title: "Elisha Heals Naaman", season: "Twenty-fourth Sunday after Pentecost", primary: vec!["2 Kgs 5:1–15a"], alt_primary: None, accompanying: Some("Matt 8:2–3"), source_date: "November 8" },
        9 => Week { code: "NL110", title: "Micah", season: "Twenty-fifth Sunday after Pentecost", primary: vec!["Mic [1:3–5]; 5:2–5a; 6:6–8"], alt_primary: None, accompanying: Some("Matt 9:13"), source_date: "November 15" },
        10 => Week { code: "NL111", title: "Swords into Plowshares", season: "Christ the King / Reign of Christ Sunday", primary: vec!["Isa 36:1–3, 13–20; 37:1–7; 2:1–4"], alt_primary: None, accompanying: Some("Matt 5:14"), source_date: "November 22" },
        11 => Week { code: "NL113", title: "Faith as a Way of Life", season: "First Sunday of Advent", primary: vec!["Hab 1:1–7; 2:1–4; 3:[3b–6], 17–19"], alt_primary: None, accompanying: Some("Matt 26:36–38"), source_date: "November 29" },
        12 => Week { code: "NL114", title: "Esther", season: "Second Sunday of Advent", primary: vec!["Esth 4:1–17"], alt_primary: None, accompanying: Some("Matt 5:13–16"), source_date: "December 6" },
        13 => Week { code: "NL115", title: "Light to the Nations", season: "Third Sunday of Advent", primary: vec!["Isa 42:1–9"], alt_primary: None, accompanying: Some("Matt 12:15–21"), source_date: "December 13" },
        14 => Week { code: "NL116", title: "Jesus as Immanuel", season: "Fourth Sunday of Advent", primary: vec!["Matt 1:18–25"], alt_primary: None, accompanying: Some("Ps 23:1–4, or 23:4"), source_date: "December 20" },
        15 => Week { code: "NL117", title: "Birth of Jesus", season: "Christmas Eve", primary: vec!["Luke 2:1–14 [15–20]"], alt_primary: None, accompanying: Some("Ps 96:10–13"), source_date: "December 24" },
        16 => Week { code: "NL118", title: "Shepherds Visit", season: "Christmas Day", primary: vec!["Luke 2:8–20"], alt_primary: None, accompanying: Some("Ps 95:6–7"), source_date: "December 25" },
        17 => Week { code: "NL119", title: "Genealogy of Jesus", season: "First Sunday of Christmas", primary: vec!["Matt 1:1–17"], alt_primary: None, accompanying: Some("Ps 132:11–12"), source_date: "December 27" },
        18 => Week { code: "NL120", title: "Flight to Egypt", season: "Second Sunday of Christmas", primary: vec!["Matt 2:1–23"], alt_primary: None, accompanying: Some("Ps 96:10–13 [opt: Ps 11:1–3]"), source_date: "January 3" },
        19 => Week { code: "NL121", title: "Jesus' Baptism: Matthew", season: "Baptism of Our Lord", primary: vec!["Matt 3:1–17"], alt_primary: None, accompanying: Some("Ps 2:7–8"), source_date: "January 10" },
        20 => Week { code: "NL122", title: "Tempted in the Wilderness", season: "Second Sunday after Epiphany", primary: vec!["Matt 4:1–17"], alt_primary: None, accompanying: Some("Ps 91:9–12"), source_date: "January 17" },
        21 => Week { code: "NL123", title: "Beatitudes", season: "Third Sunday after Epiphany", primary: vec!["Matt 5:1–20"], alt_primary: None, accompanying: Some("Ps 1:1–3"), source_date: "January 24" },
        22 => Week { code: "NL124", title: "Treasure in Heaven", season: "Fourth Sunday after Epiphany", primary: vec!["Matt 6:7–21 [25–34]"], alt_primary: None, accompanying: Some("Ps 20:7"), source_date: "January 31" },
        23 => Week { code: "NL129", title: "Transfiguration", season: "Transfiguration", primary: vec!["Matt 16:24–17:8"], alt_primary: None, accompanying: Some("Ps 41:7–10"), source_date: "February 7" },
        24 => Week { code: "NL130", title: "Who Is the Greatest?", season: "Ash Wednesday", primary: vec!["Matt 18:1–9"], alt_primary: None, accompanying: Some("Ps 146:7c–10 or 51:1–3"), source_date: "February 10" },
        25 => Week { code: "NL131", title: "Forgiveness", season: "First Sunday in Lent", primary: vec!["Matt 18:15–35"], alt_primary: None, accompanying: Some("Ps 32:1–2"), source_date: "February 14" },
        26 => Week { code: "NL132", title: "Laborers in the Vineyard", season: "Second Sunday in Lent", primary: vec!["Matt 20:1–16"], alt_primary: None, accompanying: Some("Ps 16:5–8"), source_date: "February 21" },
        27 => Week { code: "NL133", title: "Wedding Banquet", season: "Third Sunday in Lent", primary: vec!["Matt 22:1–14"], alt_primary: None, accompanying: Some("Ps 45:6–7"), source_date: "February 28" },
        28 => Week { code: "NL134", title: "Bridesmaids (and Talents)", season: "Fourth Sunday in Lent", primary: vec!["Matt 25:1–13 [14–30]"], alt_primary: None, accompanying: Some("Ps 43:3–4"), source_date: "March 7" },
        29 => Week { code: "NL135", title: "Last Judgment", season: "Fifth Sunday in Lent", primary: vec!["Matt 25:31–46"], alt_primary: None, accompanying: Some("Ps 98:7–9"), source_date: "March 14" },
        30 => Week { code: "NL136", title: "Triumphal Entry", season: "Palm Sunday", primary: vec!["Matt 21:1–17"], alt_primary: None, accompanying: Some("Ps 118:25–29"), source_date: "March 21" },
        31 => Week { code: "NL137", title: "Words of Institution", season: "Maundy Thursday", primary: vec!["Matt 26:17–30"], alt_primary: None, accompanying: Some("Ps 116:12–15"), source_date: "March 25" },
        32 => Week { code: "NL138", title: "Crucifixion: Matthew", season: "Good Friday", primary: vec!["Matt 27:27–61"], alt_primary: None, accompanying: Some("Ps 22:1–2, [14–18]"), source_date: "March 26" },
        33 => Week { code: "NL139", title: "Easter: Matthew", season: "Easter", primary: vec!["Matt 28:1–10"], alt_primary: None, accompanying: Some("Ps 118:19–24"), source_date: "March 28" },
        34 => Week { code: "NL140", title: "Great Commission", season: "Second Sunday of Easter", primary: vec!["Matt 28:16–20"], alt_primary: None, accompanying: Some("Ps 40:9–10"), source_date: "April 4" },
        35 => Week { code: "NL141", title: "Peter's Vision", season: "Third Sunday of Easter", primary: vec!["Acts 10:1–17, 34–48"], alt_primary: None, accompanying: Some("Matt 9:36–37"), source_date: "April 11" },
        36 => Week { code: "NL142", title: "Paul's Mission", season: "Fourth Sunday of Easter", primary: vec!["Acts 13:1–3; 14:8–18"], alt_primary: None, accompanying: Some("Matt 10:40–42"), source_date: "April 18" },
        37 => Week { code: "NL143", title: "Gospel as Salvation", season: "Fifth Sunday of Easter", primary: vec!["Rom 1:1–17"], alt_primary: None, accompanying: Some("Matt 9:10–13"), source_date: "April 25" },
        38 => Week { code: "NL144", title: "God's Love Poured Out", season: "Sixth Sunday of Easter", primary: vec!["Rom [3:28–30] 5:1–11"], alt_primary: None, accompanying: Some("Matt 11:28–30"), source_date: "May 2" },
        39 => Week { code: "NL145", title: "Hope of Resurrection", season: "Seventh Sunday of Easter", primary: vec!["Rom 6:1–14"], alt_primary: None, accompanying: Some("Matt 6:24"), source_date: "May 9" },
        _ => Week { code: "NL146", title: "Nothing Can Separate Us", season: "Pentecost", primary: vec!["Acts 2:1–4", "Rom 8:14–39"], alt_primary: None, accompanying: Some("Matt 28:16–20"), source_date: "May 16" },
    };
    assert(r@ =~= matthew_week(i));
    r
}

/// Week `i` of Year 2 (Mark), "Narrative Lectionary 2023-24".
pub open spec fn mark_week(i: usize) -> WeekView {
    match i {
        0 => WeekView { code: "NL201"@, title: "Garden of Eden"@, season: "Fifteenth Sunday after Pentecost"@, primary: seq!["Gen 2:4b–25"@], alt_primary: None, accompanying: Some("Mark 1:16–20 or Mark 10:6–8"@), source_date: "September 10"@ },
        1 => WeekView { code: "NL202"@, title: "Isaac Born to Sarah"@, season: "Sixteenth Sunday after Pentecost"@, primary: seq!["Gen 18:1–15; 21:1–7"@], alt_primary: None, accompanying: Some("Mark 10:27"@), source_date: "September 17"@ },
        2 => WeekView { code: "NL203"@, title: "Jacob Wrestles God"@, season: "Seventeenth Sunday after Pentecost"@, primary: seq!["Gen 32:[9–13] 22–30"@], alt_primary: None, accompanying: Some("Mark 14:32–36"@), source_date: "September 24"@ },
        3 => WeekView { code: "NL204"@, title: "Moses and God's Name"@, season: "Eighteenth Sunday after Pentecost"@, primary: seq!["Exod 1:8–14 [1:15–2:10]; 3:1–15"@], alt_primary: None, accompanying: Some("Mark 12:26–27a"@), source_date: "October 1"@ },
        4 => WeekView { code: "NL205"@, title: "Hear O Israel"@, season: "Nineteenth Sunday after Pentecost"@, primary: seq!["Deut 5:1–21; 6:4–9"@], alt_primary: None, accompanying: Some("Mark 12:28–31"@), source_date: "October 8"@ },
        5 => WeekView { code: "NL206"@, title: "Ruth"@, season: "Twentieth Sunday after Pentecost"@, primary: seq!["Ruth 1:1–17 [4:13–17]"@], alt_primary: None, accompanying: Some("Mark 3:33–35"@), source_date: "October 15"@ },
        6 => WeekView { code: "NL207"@, title: "David Anointed King"@, season: "Twenty-first Sunday after Pentecost"@, primary: seq!["2 Sam 5:1–5; 6:1–5"@, "Ps 150"@], alt_primary: None, accompanying: Some("Mark 11:8–10"@), source_date: "October 22"@ },
        7 => WeekView { code: "NL208"@, title: "Kingdom Divided"@, season: "Twenty-second Sunday after Pentecost"@, primary: seq!["1 Kgs 12:1–17, 25–29"@], alt_primary: None, accompanying: Some("Mark 10:42–45"@), source_date: "October 29"@ },
        8 => WeekView { code: "NL209"@, title: "Elijah at Mount Carmel"@, season: "Twenty-third Sunday after Pentecost"@, primary: seq!["1 Kgs 18:[17–19] 20–39"@], alt_primary: None, accompanying: Some("Mark 9:2–4"@), source_date: "November 5"@ },
        9 => WeekView { code: "NL210"@, title: "Hosea"@, season: "Twenty-fourth Sunday after Pentecost"@, primary: seq!["Hos 11:1–9"@], alt_primary: None, accompanying: Some("Mark 10:13–14"@), source_date: "November 12"@ },
        10 => WeekView { code: "NL211"@, title: "Isaiah's Vineyard Song"@, season: "Twenty-fifth Sunday after Pentecost"@, primary: seq!["Isa 5:1–7; 11:1–5"@], alt_primary: None, accompanying: Some("Mark 12:1–3"@), source_date: "November 19"@ },
        11 => WeekView { code: "NL212"@, title: "Josiah's Reform"@, season: "Christ the King Sunday"@, primary: seq!["2 Kgs 22:1–10 [11–20]; 23:1–3"@], alt_primary: None, accompanying: Some("Luke 24:30–32"@), source_date: "November 26"@ },
        12 => WeekView { code: "NL213"@, title: "Promise of the Messiah"@, season: "First Sunday of Advent"@, primary: seq!["Jer 33:[10–11], 14–18"@], alt_primary: None, accompanying: Some("Mark 8:27–29"@), source_date: "December 3"@ },
        13 => WeekView { code: "NL214"@, title: "Isaiah of the Exile"@, season: "Second Sunday of Advent"@, primary: seq!["Isa 40:1–11"@], alt_primary: None, accompanying: Some("Mark 1:1–4"@), source_date: "December 10"@ },
        14 => WeekView { code: "NL215"@, title: "Rebuilding the Temple"@, season: "Third Sunday of Advent"@, primary: seq!["Ezra 1:1–4; 3:1–4, 10–13"@], alt_primary: None, accompanying: Some("Luke 2:25–32"@), source_date: "December 17"@ },
        15 => WeekView { code: "NL216"@, title: "Zechariah's Song"@, season: "Fourth Sunday of Advent"@, primary: seq!["Luke 1:5–13 [14–25] 57–80"@], alt_primary: None, accompanying: Some("Ps 113"@), source_date: "December 24"@ },
        16 => WeekView { code: "NL217"@, title: "Birth of Jesus"@, season: "Christmas Eve"@, primary: seq!["Luke 2:1–14 [15–20]"@], alt_primary: None, accompanying: Some("Ps 146:5–10 or Luke 1:46–55"@), source_date: "December 24"@ },
        17 => WeekView { code: "NL218"@, title: "Shepherds Visit"@, season: "Christmas Day"@, primary: seq!["Luke 2:8–20"@], alt_primary: Some("Matt 2:1–12 (The Magi)"@), accompanying: Some("Ps 108:1–4"@), source_date: "December 25"@ },
        18 => WeekView { code: "NL219"@, title: "Beginning of Good News"@, season: "First Sunday of Christmas"@, primary: seq!["Mark 1:1–20"@], alt_primary: None, accompanying: Some("Ps 91:9–12"@), source_date: "December 31"@ },
        19 => WeekView { code: "NL221"@, title: "Jesus Heals and Teaches"@, season: "Baptism of the Lord"@, primary: seq!["Mark 2:1–22"@], alt_primary: None, accompanying: Some("Ps 103:6–14"@), source_date: "January 7"@ },
        20 => WeekView { code: "NL222"@, title: "Parables in Mark"@, season: "Second Sunday after Epiphany"@, primary: seq!["Mark 4:1–34"@], alt_primary: None, accompanying: Some("Ps 126"@), source_date: "January 14"@ },
        21 => WeekView { code: "NL223"@, title: "Jesus and the Gerasene Demoniac"@, season: "Third Sunday after Epiphany"@, primary: seq!["Mark 5:1–20"@], alt_primary: None, accompanying: Some("Ps 89:1–4"@), source_date: "January 21"@ },
        22 => WeekView { code: "NL224"@, title: "Jairus' Daughter Healed"@, season: "Fourth Sunday after Epiphany"@, primary: seq!["Mark 5:21–43"@], alt_primary: None, accompanying: Some("Ps 131"@), source_date: "January 28"@ },
        23 => WeekView { code: "NL225"@, title: "Death of John the Baptist"@, season: "Fifth Sunday after Epiphany"@, primary: seq!["Mark 6:1–29"@], alt_primary: None, accompanying: Some("Ps 122"@), source_date: "February 4"@ },
        24 => WeekView { code: "NL229"@, title: "Transfiguration"@, season: "Transfiguration Sunday"@, primary: seq!["Mark 8:27–9:8"@], alt_primary: None, accompanying: Some("Ps 27:1–4"@), source_date: "February 11"@ },
        25 => WeekView { code: "NL230"@, title: "Passion Prediction"@, season: "Ash Wednesday"@, primary: seq!["Mark 9:30–37"@], alt_primary: None, accompanying: Some("Ps 32:1–5"@), source_date: "February 14"@ },
        26 => WeekView { code: "NL231"@, title: "First Last and Last First"@, season: "First Sunday in Lent"@, primary: seq!["Mark 10:17–31"@], alt_primary: None, accompanying: Some("Ps 19:7–10"@), source_date: "February 18"@ },
        27 => WeekView { code: "NL232"@, title: "Bartimaeus Healed"@, season: "Second Sunday in Lent"@, primary: seq!["Mark 10:32–52"@], alt_primary: None, accompanying: Some("Ps 34:11–14"@), source_date: "February 25"@ },
        28 => WeekView { code: "NL233"@, title: "Parable of the Tenants [Taxes to Caesar]"@, season: "Third Sunday in Lent"@, primary: seq!["Mark 12:1–12 [13–17]"@], alt_primary: None, accompanying: Some("Ps 80:8–13"@), source_date: "March 3"@ },
        29 => WeekView { code: "NL234"@, title: "Great Commandment"@, season: "Fourth Sunday in Lent"@, primary: seq!["Mark 12:28–44"@], alt_primary: None, accompanying: Some("Ps 89:1–4"@), source_date: "March 10"@ },
        30 => WeekView { code: "NL235"@, title: "End of the Age"@, season: "Fifth Sunday in Lent"@, primary: seq!["Mark 13:1–8, 24–37"@], alt_primary: None, accompanying: Some("Ps 102:12–17"@), source_date: "March 17"@ },
        31 => WeekView { code: "NL236"@, title: "Triumphal Entry (or Anointing at Bethany)"@, season: "Palm/Passion Sunday"@, primary: seq!["Mark 11:1–11"@, "Mark 14:3–9"@], alt_primary: None, accompanying: Some("Ps 118:25–29"@), source_date: "March 24"@ },
        32 => WeekView { code: "NL237"@, title: "Lord's Supper, Prayer in Gethsemane"@, season: "Maundy Thursday"@, primary: seq!["Mark 14:22–42"@], alt_primary: None, accompanying: Some("Ps 116:12–19"@), source_date: "March 28"@ },
        33 => WeekView { code: "NL238"@, title: "Crucifixion"@, season: "Good Friday"@, primary: seq!["Mark 15:16–39"@], alt_primary: None, accompanying: Some("Ps 22:1–2, 14–21"@), source_date: "March 29"@ },
        34 => WeekView { code: "NL239"@, title: "Resurrection"@, season: "Easter Sunday"@, primary: seq!["Mark 16:1–8"@], alt_primary: None, accompanying: Some("Ps 118:21–27"@), source_date: "March 31"@ },
        35 => WeekView { code: "NL240"@, title: "You Shall Be My Witnesses"@, season: "Second Sunday of Easter"@, primary: seq!["Acts 1:1–14"@], alt_primary: None, accompanying: Some("Mark 6:7–13"@), source_date: "April 7"@ },
        36 => WeekView { code: "NL241"@, title: "Peter Heals in Jerusalem"@, season: "Third Sunday of Easter"@, primary: seq!["Acts 3:1–10"@], alt_primary: None, accompanying: Some("Mark 6:53–56"@), source_date: "April 14"@ },
        37 => WeekView { code: "NL242"@, title: "Church at Thessalonica"@, season: "Fourth Sunday of Easter"@, primary: seq!["Acts 17:1–9"@, "1 Thess 1:1–10"@], alt_primary: None, accompanying: Some("Mark 13:9–11"@), source_date: "April 21"@ },
        38 => WeekView { code: "NL243"@, title: "Church at Corinth"@, season: "Fifth Sunday of Easter"@, primary: seq!["Acts 18:1–4"@, "1 Cor 1:10–18"@], alt_primary: None, accompanying: Some("Mark 9:34–35"@), source_date: "April 28"@ },
        39 => WeekView { code: "NL244"@, title: "Faith, Hope, and Love"@, season: "Sixth Sunday of Easter"@, primary: seq!["1 Cor 13:1–13"@], alt_primary: None, accompanying: Some("Mark 12:28–31"@), source_date: "May 5"@ },
        40 => WeekView { code: "NL245"@, title: "Death Swallowed in Life"@, season: "Seventh Sunday of Easter"@, primary: seq!["1 Cor 15:1–26, 51–57"@], alt_primary: None, accompanying: Some("Mark 12:26–27a"@), source_date: "May 12"@ },
        _ => WeekView { code: "NL246"@, title: "Gifts of the Spirit"@, season: "Day of Pentecost"@, primary: seq!["Acts 2:1–4"@, "1 Cor 12:1–13"@], alt_primary: None, accompanying: Some("Mark 1:4–8"@), source_date: "May 19"@ },
    }
}

fn mark_week_at(i: usize) -> (r: Week)
    ensures
        r@ == mark_week(i),
{
    let r = match i {
        0 => Week { code: "NL201", title: "Garden of Eden", season: "Fifteenth Sunday after Pentecost", primary: vec!["Gen 2:4b–25"], alt_primary: None, accompanying: Some("Mark 1:16–20 or Mark 10:6–8"), source_date: "September 10" },
        1 => Week { code: "NL202", title: "Isaac Born to Sarah", season: "Sixteenth Sunday after Pentecost", primary: vec!["Gen 18:1–15; 21:1–7"], alt_primary: None, accompanying: Some("Mark 10:27"), source_date: "September 17" },
        2 => Week { code: "NL203", title: "Jacob Wrestles God", season: "Seventeenth Sunday after Pentecost", primary: vec!["Gen 32:[9–13] 22–30"], alt_primary: None, accompanying: Some("Mark 14:32–36"), source_date: "September 24" },
        3 => Week { code: "NL204", title: "Moses and God's Name", season: "Eighteenth Sunday after Pentecost", primary: vec!["Exod 1:8–14 [1:15–2:10]; 3:1–15"], alt_primary: None, accompanying: Some("Mark 12:26–27a"), source_date: "October 1" },
        4 => Week { code: "NL205", title: "Hear O Israel", season: "Nineteenth Sunday after Pentecost", primary: vec!["Deut 5:1–21; 6:4–9"], alt_primary: None, accompanying: Some("Mark 12:28–31"), source_date: "October 8" },
        5 => Week { code: "NL206", title: "Ruth", season: "Twentieth Sunday after Pentecost", primary: vec!["Ruth 1:1–17 [4:13–17]"], alt_primary: None, accompanying: Some("Mark 3:33–35"), source_date: "October 15" },
        6 => Week { code: "NL207", title: "David Anointed King", season: "Twenty-first Sunday after Pentecost", primary: vec!["2 Sam 5:1–5; 6:1–5", "Ps 150"], alt_primary: None, accompanying: Some("Mark 11:8–10"), source_date: "October 22" },
        7 => Week { code: "NL208", title: "Kingdom Divided", season: "Twenty-second Sunday after Pentecost", primary: vec!["1 Kgs 12:1–17, 25–29"], alt_primary: None, accompanying: Some("Mark 10:42–45"), source_date: "October 29" },
        8 => Week { code: "NL209", title: "Elijah at Mount Carmel", season: "Twenty-third Sunday after Pentecost", primary: vec!["1 Kgs 18:[17–19] 20–39"], alt_primary: None, accompanying: Some("Mark 9:2–4"), source_date: "November 5" },
        9 => Week { code: "NL210", title: "Hosea", season: "Twenty-fourth Sunday after Pentecost", primary: vec!["Hos 11:1–9"], alt_primary: None, accompanying: Some("Mark 10:13–14"), source_date: "November 12" },
        10 => Week { code: "NL211", title: "Isaiah's Vineyard Song", season: "Twenty-fifth Sunday after Pentecost", primary: vec!["Isa 5:1–7; 11:1–5"], alt_primary: None, accompanying: Some("Mark 12:1–3"), source_date: "November 19" },
        11 => Week { code: "NL212", title: "Josiah's Reform", season: "Christ the King Sunday", primary: vec!["2 Kgs 22:1–10 [11–20]; 23:1–3"], alt_primary: None, accompanying: Some("Luke 24:30–32"), source_date: "November 26" },
        12 => Week { code: "NL213", title: "Promise of the Messiah", season: "First Sunday of Advent", primary: vec!["Jer 33:[10–11], 14–18"], alt_primary: None, accompanying: Some("Mark 8:27–29"), source_date: "December 3" },
        13 => Week { code: "NL214", title: "Isaiah of the Exile", season: "Second Sunday of Advent", primary: vec!["Isa 40:1–11"], alt_primary: None, accompanying: Some("Mark 1:1–4"), source_date: "December 10" },
        14 => Week { code: "NL215", title: "Rebuilding the Temple", season: "Third Sunday of Advent", primary: vec!["Ezra 1:1–4; 3:1–4, 10–13"], alt_primary: None, accompanying: Some("Luke 2:25–32"), source_date: "December 17" },
        15 => Week { code: "NL216", title: "Zechariah's Song", season: "Fourth Sunday of Advent", primary: vec!["Luke 1:5–13 [14–25] 57–80"], alt_primary: None, accompanying: Some("Ps 113"), source_date: "December 24" },
        16 => Week { code: "NL217", title: "Birth of Jesus", season: "Christmas Eve", primary: vec!["Luke 2:1–14 [15–20]"], alt_primary: None, accompanying: Some("Ps 146:5–10 or Luke 1:46–55"), source_date: "December 24" },
        17 => Week { code: "NL218", title: "Shepherds Visit", season: "Christmas Day", primary: vec!["Luke 2:8–20"], alt_primary: Some("Matt 2:1–12 (The Magi)"), accompanying: Some("Ps 108:1–4"), source_date: "December 25" },
        18 => Week { code: "NL219", title: "Beginning of Good News", season: "First Sunday of Christmas", primary: vec!["Mark 1:1–20"], alt_primary: None, accompanying: Some("Ps 91:9–12"), source_date: "December 31" },
        19 => Week { code: "NL221", title: "Jesus Heals and Teaches", season: "Baptism of the Lord", primary: vec!["Mark 2:1–22"], alt_primary: None, accompanying: Some("Ps 103:6–14"), source_date: "January 7" },
        20 => Week { code: "NL222", title: "Parables in Mark", season: "Second Sunday after Epiphany", primary: vec!["Mark 4:1–34"], alt_primary: None, accompanying: Some("Ps 126"), source_date: "January 14" },
        21 => Week { code: "NL223", title: "Jesus and the Gerasene Demoniac", season: "Third Sunday after Epiphany", primary: vec!["Mark 5:1–20"], alt_primary: None, accompanying: Some("Ps 89:1–4"), source_date: "January 21" },
        22 => Week { code: "NL224", title: "Jairus' Daughter Healed", season: "Fourth Sunday after Epiphany", primary: vec!["Mark 5:21–43"], alt_primary: None, accompanying: Some("Ps 131"), source_date: "January 28" },
        23 => Week { code: "NL225", title: "Death of John the Baptist", season: "Fifth Sunday after Epiphany", primary: vec!["Mark 6:1–29"], alt_primary: None, accompanying: Some("Ps 122"), source_date: "February 4" },
        24 => Week { code: "NL229", title: "Transfiguration", season: "Transfiguration Sunday", primary: vec!["Mark 8:27–9:8"], alt_primary: None, accompanying: Some("Ps 27:1–4"), source_date: "February 11" },
        25 => Week { code: "NL230", title: "Passion Prediction", season: "Ash Wednesday", primary: vec!["Mark 9:30–37"], alt_primary: None, accompanying: Some("Ps 32:1–5"), source_date: "February 14" },
        26 => Week { code: "NL231", title: "First Last and Last First", season: "First Sunday in Lent", primary: vec!["Mark 10:17–31"], alt_primary: None, accompanying: Some("Ps 19:7–10"), source_date: "February 18" },
        27 => Week { code: "NL232", title: "Bartimaeus Healed", season: "Second Sunday in Lent", primary: vec!["Mark 10:32–52"], alt_primary: None, accompanying: Some("Ps 34:11–14"), source_date: "February 25" },
        28 => Week { code: "NL233", title: "Parable of the Tenants [Taxes to Caesar]", season: "Third Sunday in Lent", primary: vec!["Mark 12:1–12 [13–17]"], alt_primary: None, accompanying: Some("Ps 80:8–13"), source_date: "March 3" },
        29 => Week { code: "NL234", title: "Great Commandment", season: "Fourth Sunday in Lent", primary: vec!["Mark 12:28–44"], alt_primary: None, accompanying: Some("Ps 89:1–4"), source_date: "March 10" },
        30 => Week { code: "NL235", title: "End of the Age", season: "Fifth Sunday in Lent", primary: vec!["Mark 13:1–8, 24–37"], alt_primary: None, accompanying: Some("Ps 102:12–17"), source_date: "March 17" },
        31 => Week { code: "NL236", title: "Triumphal Entry (or Anointing at Bethany)", season: "Palm/Passion Sunday", primary: vec!["Mark 11:1–11", "Mark 14:3–9"], alt_primary: None, accompanying: Some("Ps 118:25–29"), source_date: "March 24" },
        32 => Week { code: "NL237", title: "Lord's Supper, Prayer in Gethsemane", season: "Maundy Thursday", primary: vec!["Mark 14:22–42"], alt_primary: None, accompanying: Some("Ps 116:12–19"), source_date: "March 28" },
        33 => Week { code: "NL238", title: "Crucifixion", season: "Good Friday", primary: vec!["Mark 15:16–39"], alt_primary: None, accompanying: Some("Ps 22:1–2, 14–21"), source_date: "March 29" },
        34 => Week { code: "NL239", title: "Resurrection", season: "Easter Sunday", primary: vec!["Mark 16:1–8"], alt_primary: None, accompanying: Some("Ps 118:21–27"), source_date: "March 31" },
        35 => Week { code: "NL240", title: "You Shall Be My Witnesses", season: "Second Sunday of Easter", primary: vec!["Acts 1:1–14"], alt_primary: None, accompanying: Some("Mark 6:7–13"), source_date: "April 7" },
        36 => Week { code: "NL241", title: "Peter Heals in Jerusalem", season: "Third Sunday of Easter", primary: vec!["Acts 3:1–10"], alt_primary: None, accompanying: Some("Mark 6:53–56"), source_date: "April 14" },
        37 => Week { code: "NL242", title: "Church at Thessalonica", season: "Fourth Sunday of Easter", primary: vec!["Acts 17:1–9", "1 Thess 1:1–10"], alt_primary: None, accompanying: Some("Mark 13:9–11"), source_date: "April 21" },
        38 => Week { code: "NL243", title: "Church at Corinth", season: "Fifth Sunday of Easter", primary: vec!["Acts 18:1–4", "1 Cor 1:10–18"], alt_primary: None, accompanying: Some("Mark 9:34–35"), source_date: "April 28" },
        39 => Week { code: "NL244", title: "Faith, Hope, and Love", season: "Sixth Sunday of Easter", primary: vec!["1 Cor 13:1–13"], alt_primary: None, accompanying: Some("Mark 12:28–31"), source_date: "May 5" },
        40 => Week { code: "NL245", title: "Death Swallowed in Life", season: "Seventh Sunday of Easter", primary: vec!["1 Cor 15:1–26, 51–57"], alt_primary: None, accompanying: Some("Mark 12:26–27a"), source_date: "May 12" },
        _ => Week { code: "NL246", title: "Gifts of the Spirit", season: "Day of Pentecost", primary: vec!["Acts 2:1–4", "1 Cor 12:1–13"], alt_primary: None, accompanying: Some("Mark 1:4–8"), source_date: "May 19" },
    };
    assert(r@ =~= mark_week(i));
    r
}

/// Week `i` of Year 3 (Luke), "Narrative Lectionary 2024-25".
pub open spec fn luke_week(i: usize) -> WeekView {
    match i {
        0 => WeekView { code: "NL301"@, title: "Creation and Fall"@, season: "Sixteenth Sunday after Pentecost"@, primary: seq!["Gen 2:4b–7, 15–17; 3:1–8"@], alt_primary: None, accompanying: Some("Luke 11:4"@), source_date: "September 8"@ },
        1 => WeekView { code: "NL302"@, title: "God's Promise to Abraham"@, season: "Seventeenth Sunday after Pentecost"@, primary: seq!["Gen 15:1–6"@], alt_primary: None, accompanying: Some("Luke 3:8"@), source_date: "September 15"@ },
        2 => WeekView { code: "NL303"@, title: "God Works through Joseph"@, season: "Eighteenth Sunday after Pentecost"@, primary: seq!["Gen 37:3–8, 17b–22, 26–34; 50:15–21"@], alt_primary: None, accompanying: Some("Luke 6:35"@), source_date: "September 22"@ },
        3 => WeekView { code: "NL304"@, title: "The Promise of Passover"@, season: "Nineteenth Sunday after Pentecost"@, primary: seq!["Exod 12:1–13; 13:1–8"@], alt_primary: None, accompanying: Some("Luke 22:14–20"@), source_date: "September 29"@ },
        4 => WeekView { code: "NL305"@, title: "Golden Calf"@, season: "Twentieth Sunday after Pentecost"@, primary: seq!["Exod 32:1–14"@], alt_primary: None, accompanying: Some("Luke 23:34"@), source_date: "October 6"@ },
        5 => WeekView { code: "NL306"@, title: "God Answers Hannah"@, season: "Twenty-first Sunday after Pentecost"@, primary: seq!["1 Sam 1:9–11, 19–20; 2:1–10"@], alt_primary: None, accompanying: Some("Luke 1:46–55"@), source_date: "October 13"@ },
        6 => WeekView { code: "NL307"@, title: "God's Promise to David"@, season: "Twenty-second Sunday after Pentecost"@, primary: seq!["2 Sam 7:1–17"@], alt_primary: None, accompanying: Some("Luke 1:30–33"@), source_date: "October 20"@ },
        7 => WeekView { code: "NL308"@, title: "Solomon Dedicates the Temple"@, season: "Twenty-third Sunday after Pentecost (or Reformation)"@, primary: seq!["1 Kgs 5:1–5; 8:27–30, 41–43"@], alt_primary: None, accompanying: Some("Luke 19:45–46"@), source_date: "October 27"@ },
        8 => WeekView { code: "NL309"@, title: "God's Care for the Widow"@, season: "Twenty-fourth Sunday after Pentecost (or All Saints)"@, primary: seq!["1 Kgs 17:1–16 [17–24]"@], alt_primary: None, accompanying: Some("Luke 4:24–26"@), source_date: "November 3"@ },
        9 => WeekView { code: "NL310"@, title: "Jonah and God's Mercy"@, season: "Twenty-fifth Sunday after Pentecost"@, primary: seq!["Jonah 1:1–17; 3:1–10 [4:1–11]"@], alt_primary: None, accompanying: Some("Luke 18:13"@), source_date: "November 10"@ },
        10 => WeekView { code: "NL311"@, title: "God Calls Isaiah"@, season: "Twenty-sixth Sunday after Pentecost"@, primary: seq!["Isa 6:1–8"@], alt_primary: None, accompanying: Some("Luke 5:8–10"@), source_date: "November 17"@ },
        11 => WeekView { code: "NL312"@, title: "God Promises a New Covenant"@, season: "Christ the King / Reign of Christ Sunday"@, primary: seq!["Jer 36:1–8, 21–23, 27–28; 31:31–34"@], alt_primary: None, accompanying: Some("Luke 22:19–20"@), source_date: "November 24"@ },
        12 => WeekView { code: "NL313"@, title: "Daniel's Hope in God"@, season: "First Sunday of Advent"@, primary: seq!["Dan 6:6–27"@], alt_primary: None, accompanying: Some("Luke 23:1–5"@), source_date: "December 1"@ },
        13 => WeekView { code: "NL314"@, title: "Joel: God's Promised Spirit"@, season: "Second Sunday of Advent"@, primary: seq!["Joel 2:12–13, 28–29"@], alt_primary: None, accompanying: Some("Luke 11:13"@), source_date: "December 8"@ },
        14 => WeekView { code: "NL315"@, title: "Spirit of the Lord upon Me"@, season: "Third Sunday of Advent"@, primary: seq!["Isa 61:1–11"@], alt_primary: None, accompanying: Some("Luke 4:16–21"@), source_date: "December 15"@ },
        15 => WeekView { code: "NL316"@, title: "Jesus' Birth Announced"@, season: "Fourth Sunday of Advent"@, primary: seq!["Luke 1:26–45 [46–56]"@], alt_primary: None, accompanying: Some("Ps 113"@), source_date: "December 22"@ },
        16 => WeekView { code: "NL317"@, title: "Birth of Jesus"@, season: "Christmas Eve"@, primary: seq!["Luke 2:1–14 [15–20]"@], alt_primary: None, accompanying: Some("Ps 96"@), source_date: "December 24"@ },
        17 => WeekView { code: "NL318"@, title: "Shepherds Visit"@, season: "Christmas Day"@, primary: seq!["Luke 2:8–20"@], alt_primary: None, accompanying: Some("Ps 123:1–2"@), source_date: "December 25"@ },
        18 => WeekView { code: "NL319"@, title: "Simeon and Anna"@, season: "First Sunday of Christmas"@, primary: seq!["Luke 2:21–38"@], alt_primary: None, accompanying: Some("Ps 131"@), source_date: "December 29"@ },
        19 => WeekView { code: "NL320"@, title: "Boy in the Temple"@, season: "Second Sunday of Christmas"@, primary: seq!["Luke 2:41–52"@], alt_primary: None, accompanying: Some("Ps 2:7–8"@), source_date: "January 5"@ },
        20 => WeekView { code: "NL321"@, title: "Jesus' Baptism"@, season: "Baptism of Our Lord"@, primary: seq!["Luke 3:1–22"@], alt_primary: None, accompanying: Some("Ps 51:6–17"@), source_date: "January 12"@ },
        21 => WeekView { code: "NL322"@, title: "Sermon at Nazareth"@, season: "Second Sunday after Epiphany"@, primary: seq!["Luke 4:14–30"@], alt_primary: None, accompanying: Some("Ps 146"@), source_date: "January 19"@ },
        22 => WeekView { code: "NL323"@, title: "Fish for People"@, season: "Third Sunday after Epiphany"@, primary: seq!["Luke 5:1–11"@], alt_primary: None, accompanying: Some("Ps 90:14–17"@), source_date: "January 26"@ },
        23 => WeekView { code: "NL324"@, title: "Healing on the Sabbath"@, season: "Fourth Sunday after Epiphany"@, primary: seq!["Luke 6:1–16"@], alt_primary: None, accompanying: Some("Ps 92"@), source_date: "February 2"@ },
        24 => WeekView { code: "NL325"@, title: "Raising the Widow's Son"@, season: "Fifth Sunday after Epiphany"@, primary: seq!["Luke 7:1–17"@], alt_primary: None, accompanying: Some("Ps 119:105–107"@), source_date: "February 9"@ },
        25 => WeekView { code: "NL326"@, title: "More than a Prophet"@, season: "Sixth Sunday after Epiphany"@, primary: seq!["Luke 7:18–35"@], alt_primary: None, accompanying: Some("Ps 146:5–10"@), source_date: "February 16"@ },
        26 => WeekView { code: "NL327"@, title: "Forgiven at Jesus' Feet"@, season: "Seventh Sunday after Epiphany"@, primary: seq!["Luke 7:36–50"@], alt_primary: None, accompanying: Some("Ps 103:3–6"@), source_date: "February 23"@ },
        27 => WeekView { code: "NL329"@, title: "Transfiguration"@, season: "Transfiguration of Our Lord"@, primary: seq!["Luke 9:28–45"@], alt_primary: None, accompanying: Some("Ps 36:5–10"@), source_date: "March 2"@ },
        28 => WeekView { code: "NL330"@, title: "Jesus Turns to Jerusalem"@, season: "Ash Wednesday"@, primary: seq!["Luke 9:51–62"@], alt_primary: None, accompanying: Some("Ps 5:7–8"@), source_date: "March 5"@ },
        29 => WeekView { code: "NL331"@, title: "Good Samaritan"@, season: "First Sunday in Lent"@, primary: seq!["Luke 10:25–42"@], alt_primary: None, accompanying: Some("Ps 15"@), source_date: "March 9"@ },
        30 => WeekView { code: "NL332"@, title: "Lament over Jerusalem"@, season: "Second Sunday in Lent"@, primary: seq!["Luke 13:1–9, 31–35"@], alt_primary: None, accompanying: Some("Ps 122"@), source_date: "March 16"@ },
        31 => WeekView { code: "NL333"@, title: "Lost Sheep, Coin, Son"@, season: "Third Sunday in Lent"@, primary: seq!["Luke 15:1–32"@], alt_primary: None, accompanying: Some("Ps 119:167–176"@), source_date: "March 23"@ },
        32 => WeekView { code: "NL334"@, title: "Rich Man and Lazarus"@, season: "Fourth Sunday in Lent"@, primary: seq!["Luke 16:19–31"@], alt_primary: None, accompanying: Some("Ps 41:1–3"@), source_date: "March 30"@ },
        33 => WeekView { code: "NL335"@, title: "Zacchaeus"@, season: "Fifth Sunday in Lent"@, primary: seq!["Luke 18:31–19:10"@], alt_primary: None, accompanying: Some("Ps 84:1–4, 10–12"@), source_date: "April 6"@ },
        34 => WeekView { code: "NL336"@, title: "Triumphal Entry"@, season: "Palm/Passion Sunday"@, primary: seq!["Luke 19:29–44"@], alt_primary: None, accompanying: Some("Ps 118:19–23"@), source_date: "April 13"@ },
        35 => WeekView { code: "NL337"@, title: "Last Supper"@, season: "Maundy Thursday"@, primary: seq!["Luke 22:1–27"@], alt_primary: None, accompanying: Some("Ps 34:8–10"@), source_date: "April 17"@ },
        36 => WeekView { code: "NL338"@, title: "Crucifixion"@, season: "Good Friday"@, primary: seq!["Luke 23:32–47"@], alt_primary: None, accompanying: Some("Ps 31:5–13"@), source_date: "April 18"@ },
        37 => WeekView { code: "NL339"@, title: "Resurrection"@, season: "Resurrection of Our Lord"@, primary: seq!["Luke 24:1–12"@], alt_primary: None, accompanying: Some("Ps 118:17, 21–24"@), source_date: "April 20"@ },
        38 => WeekView { code: "NL340"@, title: "Emmaus Road"@, season: "Second Sunday of Easter"@, primary: seq!["Luke 24:13–35"@], alt_primary: None, accompanying: Some("Ps 30"@), source_date: "April 27"@ },
        39 => WeekView { code: "NL341"@, title: "Stephen's Witness"@, season: "Third Sunday of Easter"@, primary: seq!["Acts 6:1–7:2a, 44–60"@], alt_primary: None, accompanying: Some("Luke 23:33–34a, 46"@), source_date: "May 4"@ },
        40 => WeekView { code: "NL342"@, title: "Ethiopian Eunuch Baptized"@, season: "Fourth Sunday of Easter"@, primary: seq!["Acts 8:26–39"@], alt_primary: None, accompanying: Some("Luke 24:44–47"@), source_date: "May 11"@ },
        41 => WeekView { code: "NL343"@, title: "Council at Jerusalem"@, season: "Fifth Sunday of Easter"@, primary: seq!["Acts 15:1–18"@], alt_primary: None, accompanying: Some("Luke 2:29–32"@), source_date: "May 18"@ },
        42 => WeekView { code: "NL344"@, title: "Living by Faith"@, season: "Sixth Sunday of Easter"@, primary: seq!["Gal 1:13–17; 2:11–21"@], alt_primary: None, accompanying: Some("Luke 18:9–14"@), source_date: "May 25"@ },
        43 => WeekView { code: "NL345"@, title: "One in Christ"@, season: "Seventh Sunday of Easter"@, primary: seq!["Gal 3:1–9, 23–29"@], alt_primary: None, accompanying: Some("Luke 1:68–79"@), source_date: "June 1"@ },
        _ => WeekView { code: "NL346"@, title: "Pentecost; Fruits of the Spirit"@, season: "Day of Pentecost"@, primary: seq!["Acts 2:1–4"@, "Gal 4:1–7 [5:16–26]"@], alt_primary: None, accompanying: Some("Luke 11:11–13"@), source_date: "June 8"@ },
    }
}

fn luke_week_at(i: usize) -> (r: Week)
    ensures
        r@ == luke_week(i),
{
    let r = match i {
        0 => Week { code: "NL301", title: "Creation and Fall", season: "Sixteenth Sunday after Pentecost", primary: vec!["Gen 2:4b–7, 15–17; 3:1–8"], alt_primary: None, accompanying: Some("Luke 11:4"), source_date: "September 8" },
        1 => Week { code: "NL302", title: "God's Promise to Abraham", season: "Seventeenth Sunday after Pentecost", primary: vec!["Gen 15:1–6"], alt_primary: None, accompanying: Some("Luke 3:8"), source_date: "September 15" },
        2 => Week { code: "NL303", title: "God Works through Joseph", season: "Eighteenth Sunday after Pentecost", primary: vec!["Gen 37:3–8, 17b–22, 26–34; 50:15–21"], alt_primary: None, accompanying: Some("Luke 6:35"), source_date: "September 22" },
        3 => Week { code: "NL304", title: "The Promise of Passover", season: "Nineteenth Sunday after Pentecost", primary: vec!["Exod 12:1–13; 13:1–8"], alt_primary: None, accompanying: Some("Luke 22:14–20"), source_date: "September 29" },
        4 => Week { code: "NL305", title: "Golden Calf", season: "Twentieth Sunday after Pentecost", primary: vec!["Exod 32:1–14"], alt_primary: None, accompanying: Some("Luke 23:34"), source_date: "October 6" },
        5 => Week { code: "NL306", title: "God Answers Hannah", season: "Twenty-first Sunday after Pentecost", primary: vec!["1 Sam 1:9–11, 19–20; 2:1–10"], alt_primary: None, accompanying: Some("Luke 1:46–55"), source_date: "October 13" },
        6 => Week { code: "NL307", title: "God's Promise to David", season: "Twenty-second Sunday after Pentecost", primary: vec!["2 Sam 7:1–17"], alt_primary: None, accompanying: Some("Luke 1:30–33"), source_date: "October 20" },
        7 => Week { code: "NL308", title: "Solomon Dedicates the Temple", season: "Twenty-third Sunday after Pentecost (or Reformation)", primary: vec!["1 Kgs 5:1–5; 8:27–30, 41–43"], alt_primary: None, accompanying: Some("Luke 19:45–46"), source_date: "October 27" },
        8 => Week { code: "NL309", title: "God's Care for the Widow", season: "Twenty-fourth Sunday after Pentecost (or All Saints)", primary: vec!["1 Kgs 17:1–16 [17–24]"], alt_primary: None, accompanying: Some("Luke 4:24–26"), source_date: "November 3" },
        9 => Week { code: "NL310", title: "Jonah and God's Mercy", season: "Twenty-fifth Sunday after Pentecost", primary: vec!["Jonah 1:1–17; 3:1–10 [4:1–11]"], alt_primary: None, accompanying: Some("Luke 18:13"), source_date: "November 10" },
        10 => Week { code: "NL311", title: "God Calls Isaiah", season: "Twenty-sixth Sunday after Pentecost", primary: vec!["Isa 6:1–8"], alt_primary: None, accompanying: Some("Luke 5:8–10"), source_date: "November 17" },
        11 => Week { code: "NL312", title: "God Promises a New Covenant", season: "Christ the King / Reign of Christ Sunday", primary: vec!["Jer 36:1–8, 21–23, 27–28; 31:31–34"], alt_primary: None, accompanying: Some("Luke 22:19–20"), source_date: "November 24" },
        12 => Week { code: "NL313", title: "Daniel's Hope in God", season: "First Sunday of Advent", primary: vec!["Dan 6:6–27"], alt_primary: None, accompanying: Some("Luke 23:1–5"), source_date: "December 1" },
        13 => Week { code: "NL314", title: "Joel: God's Promised Spirit", season: "Second Sunday of Advent", primary: vec!["Joel 2:12–13, 28–29"], alt_primary: None, accompanying: Some("Luke 11:13"), source_date: "December 8" },
        14 => Week { code: "NL315", title: "Spirit of the Lord upon Me", season: "Third Sunday of Advent", primary: vec!["Isa 61:1–11"], alt_primary: None, accompanying: Some("Luke 4:16–21"), source_date: "December 15" },
        15 => Week { code: "NL316", title: "Jesus' Birth Announced", season: "Fourth Sunday of Advent", primary: vec!["Luke 1:26–45 [46–56]"], alt_primary: None, accompanying: Some("Ps 113"), source_date: "December 22" },
        16 => Week { code: "NL317", title: "Birth of Jesus", season: "Christmas Eve", primary: vec!["Luke 2:1–14 [15–20]"], alt_primary: None, accompanying: Some("Ps 96"), source_date: "December 24" },
        17 => Week { code: "NL318", title: "Shepherds Visit", season: "Christmas Day", primary: vec!["Luke 2:8–20"], alt_primary: None, accompanying: Some("Ps 123:1–2"), source_date: "December 25" },
        18 => Week { code: "NL319", title: "Simeon and Anna", season: "First Sunday of Christmas", primary: vec!["Luke 2:21–38"], alt_primary: None, accompanying: Some("Ps 131"), source_date: "December 29" },
        19 => Week { code: "NL320", title: "Boy in the Temple", season: "Second Sunday of Christmas", primary: vec!["Luke 2:41–52"], alt_primary: None, accompanying: Some("Ps 2:7–8"), source_date: "January 5" },
        20 => Week { code: "NL321", title: "Jesus' Baptism", season: "Baptism of Our Lord", primary: vec!["Luke 3:1–22"], alt_primary: None, accompanying: Some("Ps 51:6–17"), source_date: "January 12" },
        21 => Week { code: "NL322", title: "Sermon at Nazareth", season: "Second Sunday after Epiphany", primary: vec!["Luke 4:14–30"], alt_primary: None, accompanying: Some("Ps 146"), source_date: "January 19" },
        22 => Week { code: "NL323", title: "Fish for People", season: "Third Sunday after Epiphany", primary: vec!["Luke 5:1–11"], alt_primary: None, accompanying: Some("Ps 90:14–17"), source_date: "January 26" },
        23 => Week { code: "NL324", title: "Healing on the Sabbath", season: "Fourth Sunday after Epiphany", primary: vec!["Luke 6:1–16"], alt_primary: None, accompanying: Some("Ps 92"), source_date: "February 2" },
        24 => Week { code: "NL325", title: "Raising the Widow's Son", season: "Fifth Sunday after Epiphany", primary: vec!["Luke 7:1–17"], alt_primary: None, accompanying: Some("Ps 119:105–107"), source_date: "February 9" },
        25 => Week { code: "NL326", title: "More than a Prophet", season: "Sixth Sunday after Epiphany", primary: vec!["Luke 7:18–35"], alt_primary: None, accompanying: Some("Ps 146:5–10"), source_date: "February 16" },
        26 => Week { code: "NL327", title: "Forgiven at Jesus' Feet", season: "Seventh Sunday after Epiphany", primary: vec!["Luke 7:36–50"], alt_primary: None, accompanying: Some("Ps 103:3–6"), source_date: "February 23" },
        27 => Week { code: "NL329", title: "Transfiguration", season: "Transfiguration of Our Lord", primary: vec!["Luke 9:28–45"], alt_primary: None, accompanying: Some("Ps 36:5–10"), source_date: "March 2" },
        28 => Week { code: "NL330", title: "Jesus Turns to Jerusalem", season: "Ash Wednesday", primary: vec!["Luke 9:51–62"], alt_primary: None, accompanying: Some("Ps 5:7–8"), source_date: "March 5" },
        29 => Week { code: "NL331", title: "Good Samaritan", season: "First Sunday in Lent", primary: vec!["Luke 10:25–42"], alt_primary: None, accompanying: Some("Ps 15"), source_date: "March 9" },
        30 => Week { code: "NL332", title: "Lament over Jerusalem", season: "Second Sunday in Lent", primary: vec!["Luke 13:1–9, 31–35"], alt_primary: None, accompanying: Some("Ps 122"), source_date: "March 16" },
        31 => Week { code: "NL333", title: "Lost Sheep, Coin, Son", season: "Third Sunday in Lent", primary: vec!["Luke 15:1–32"], alt_primary: None, accompanying: Some("Ps 119:167–176"), source_date: "March 23" },
        32 => Week { code: "NL334", title: "Rich Man and Lazarus", season: "Fourth Sunday in Lent", primary: vec!["Luke 16:19–31"], alt_primary: None, accompanying: Some("Ps 41:1–3"), source_date: "March 30" },
        33 => Week { code: "NL335", title: "Zacchaeus", season: "Fifth Sunday in Lent", primary: vec!["Luke 18:31–19:10"], alt_primary: None, accompanying: Some("Ps 84:1–4, 10–12"), source_date: "April 6" },
        34 => Week { code: "NL336", title: "Triumphal Entry", season: "Palm/Passion Sunday", primary: vec!["Luke 19:29–44"], alt_primary: None, accompanying: Some("Ps 118:19–23"), source_date: "April 13" },
        35 => Week { code: "NL337", title: "Last Supper", season: "Maundy Thursday", primary: vec!["Luke 22:1–27"], alt_primary: None, accompanying: Some("Ps 34:8–10"), source_date: "April 17" },
        36 => Week { code: "NL338", title: "Crucifixion", season: "Good Friday", primary: vec!["Luke 23:32–47"], alt_primary: None, accompanying: Some("Ps 31:5–13"), source_date: "April 18" },
        37 => Week { code: "NL339", title: "Resurrection", season: "Resurrection of Our Lord", primary: vec!["Luke 24:1–12"], alt_primary: None, accompanying: Some("Ps 118:17, 21–24"), source_date: "April 20" },
        38 => Week { code: "NL340", title: "Emmaus Road", season: "Second Sunday of Easter", primary: vec!["Luke 24:13–35"], alt_primary: None, accompanying: Some("Ps 30"), source_date: "April 27" },
        39 => Week { code: "NL341", title: "Stephen's Witness", season: "Third Sunday of Easter", primary: vec!["Acts 6:1–7:2a, 44–60"], alt_primary: None, accompanying: Some("Luke 23:33–34a, 46"), source_date: "May 4" },
        40 => Week { code: "NL342", title: "Ethiopian Eunuch Baptized", season: "Fourth Sunday of Easter", primary: vec!["Acts 8:26–39"], alt_primary: None, accompanying: Some("Luke 24:44–47"), source_date: "May 11" },
        41 => Week { code: "NL343", title: "Council at Jerusalem", season: "Fifth Sunday of Easter", primary: vec!["Acts 15:1–18"], alt_primary: None, accompanying: Some("Luke 2:29–32"), source_date: "May 18" },
        42 => Week { code: "NL344", title: "Living by Faith", season: "Sixth Sunday of Easter", primary: vec!["Gal 1:13–17; 2:11–21"], alt_primary: None, accompanying: Some("Luke 18:9–14"), source_date: "May 25" },
        43 => Week { code: "NL345", title: "One in Christ", season: "Seventh Sunday of Easter", primary: vec!["Gal 3:1–9, 23–29"], alt_primary: None, accompanying: Some("Luke 1:68–79"), source_date: "June 1" },
        _ => Week { code: "NL346", title: "Pentecost; Fruits of the Spirit", season: "Day of Pentecost", primary: vec!["Acts 2:1–4", "Gal 4:1–7 [5:16–26]"], alt_primary: None, accompanying: Some("Luke 11:11–13"), source_date: "June 8" },
    };
    assert(r@ =~= luke_week(i));
    r
}

/// Week `i` of Year 4 (John), "Narrative Lectionary 2025-26".
pub open spec fn john_week(i: usize) -> WeekView {
    match i {
        0 => WeekView { code: "NL401"@, title: "Creation by the Word"@, season: "Thirteenth Sunday after Pentecost"@, primary: seq!["Gen 1:1–2:4a"@], alt_primary: None, accompanying: Some("John 1:1–5"@), source_date: "September 7"@ },
        1 => WeekView { code: "NL402"@, title: "Binding of Isaac"@, season: "Fourteenth Sunday after Pentecost"@, primary: seq!["Gen 21:1–3; 22:1–14"@], alt_primary: None, accompanying: Some("John 1:29"@), source_date: "September 14"@ },
        2 => WeekView { code: "NL403"@, title: "Jacob's Dream"@, season: "Fifteenth Sunday after Pentecost"@, primary: seq!["Gen 27:1–4, 15–23; 28:10–17"@], alt_primary: None, accompanying: Some("John 1:50–51"@), source_date: "September 21"@ },
        3 => WeekView { code: "NL404"@, title: "God's Name Is Revealed"@, season: "Sixteenth Sunday after Pentecost"@, primary: seq!["Exod 2:23–25; 3:1–15; 4:10–17"@], alt_primary: None, accompanying: Some("John 8:58"@), source_date: "September 28"@ },
        4 => WeekView { code: "NL405"@, title: "God Provides Manna"@, season: "Seventeenth Sunday after Pentecost"@, primary: seq!["Exod 16:1–18"@], alt_primary: None, accompanying: Some("John 6:51"@), source_date: "October 5"@ },
        5 => WeekView { code: "NL406"@, title: "God Calls Samuel"@, season: "Eighteenth Sunday after Pentecost"@, primary: seq!["1 Sam 3:1–21"@], alt_primary: None, accompanying: Some("John 20:21–23"@), source_date: "October 12"@ },
        6 => WeekView { code: "NL407"@, title: "God Calls David"@, season: "Nineteenth Sunday after Pentecost"@, primary: seq!["1 Sam 16:1–13"@, "Ps 51:10–14"@], alt_primary: None, accompanying: Some("John 7:24"@), source_date: "October 19"@ },
        7 => WeekView { code: "NL408"@, title: "Solomon's Temple"@, season: "Twentieth Sunday after Pentecost (or Reformation Sunday)"@, primary: seq!["1 Kgs 5:1–5; 8:1–13"@], alt_primary: None, accompanying: Some("John 2:19–21"@), source_date: "October 26"@ },
        8 => WeekView { code: "NL409"@, title: "God Speaks to Elijah"@, season: "Twenty-first Sunday after Pentecost (or All Saints Sunday)"@, primary: seq!["1 Kgs 19:1–18"@], alt_primary: None, accompanying: Some("John 12:27–28"@), source_date: "November 2"@ },
        9 => WeekView { code: "NL410"@, title: "Amos: Justice Rolls Down"@, season: "Twenty-second Sunday after Pentecost"@, primary: seq!["Amos 1:1–2; 5:14–15, 21–24"@], alt_primary: None, accompanying: Some("John 7:37–38"@), source_date: "November 9"@ },
        10 => WeekView { code: "NL411"@, title: "Isaiah: A Child Is Born"@, season: "Twenty-third Sunday after Pentecost"@, primary: seq!["Isa 9:1–7"@], alt_primary: None, accompanying: Some("John 8:12"@), source_date: "November 16"@ },
        11 => WeekView { code: "NL412"@, title: "Jeremiah's Letter to Exiles"@, season: "Christ the King / Reign of Christ Sunday"@, primary: seq!["Jer 29:1, 4–14"@], alt_primary: None, accompanying: Some("John 14:27"@), source_date: "November 23"@ },
        12 => WeekView { code: "NL413"@, title: "Daniel"@, season: "First Sunday of Advent"@, primary: seq!["Dan 3:1, [2–7] 8–30"@], alt_primary: None, accompanying: Some("John 18:36–37"@), source_date: "November 30"@ },
        13 => WeekView { code: "NL414"@, title: "Ezekiel: Valley of Dry Bones"@, season: "Second Sunday of Advent"@, primary: seq!["Ezek 37:1–14"@], alt_primary: None, accompanying: Some("John 11:25–26"@), source_date: "December 7"@ },
        14 => WeekView { code: "NL415"@, title: "Word Accomplishes God's Purpose"@, season: "Third Sunday of Advent"@, primary: seq!["Isa 55:1–13"@], alt_primary: None, accompanying: Some("John 4:13–14"@), source_date: "December 14"@ },
        15 => WeekView { code: "NL416"@, title: "Word Made Flesh"@, season: "Fourth Sunday of Advent"@, primary: seq!["John 1:1–18"@], alt_primary: None, accompanying: Some("Ps 130:5–8"@), source_date: "December 21"@ },
        16 => WeekView { code: "NL417"@, title: "Birth of Jesus"@, season: "Christmas Eve"@, primary: seq!["Luke 2:1–14 [15–20]"@], alt_primary: None, accompanying: Some("Ps 96:7–10"@), source_date: "December 24"@ },
        17 => WeekView { code: "NL418"@, title: "Shepherds Visit"@, season: "Christmas Day"@, primary: seq!["Luke 2:8–20"@], alt_primary: None, accompanying: Some("Ps 123:1–2 or 123:2"@), source_date: "December 25"@ },
        18 => WeekView { code: "NL419"@, title: "A Voice in the Wilderness"@, season: "First Sunday of Christmas"@, primary: seq!["John 1:19–34"@], alt_primary: None, accompanying: Some("Ps 32:1–2"@), source_date: "December 28"@ },
        19 => WeekView { code: "NL420"@, title: "Jesus Says Come and See"@, season: "Second Sunday of Christmas"@, primary: seq!["John 1:35–51"@], alt_primary: None, accompanying: Some("Ps 66:1–5"@), source_date: "January 4"@ },
        20 => WeekView { code: "NL421"@, title: "Wedding at Cana"@, season: "Baptism of Our Lord"@, primary: seq!["John 2:1–11"@], alt_primary: None, accompanying: Some("Ps 104:14–16"@), source_date: "January 11"@ },
        21 => WeekView { code: "NL422"@, title: "Jesus Cleanses the Temple"@, season: "Second Sunday after Epiphany"@, primary: seq!["John 2:13–25"@], alt_primary: None, accompanying: Some("Ps 127:1–2"@), source_date: "January 18"@ },
        22 => WeekView { code: "NL423"@, title: "Nicodemus"@, season: "Third Sunday after Epiphany"@, primary: seq!["John 3:1–21"@], alt_primary: None, accompanying: Some("Ps 139:13–18"@), source_date: "January 25"@ },
        23 => WeekView { code: "NL424"@, title: "The Woman at the Well"@, season: "Fourth Sunday after Epiphany"@, primary: seq!["John 4:1–42"@], alt_primary: None, accompanying: Some("Ps 42:1–3"@), source_date: "February 1"@ },
        24 => WeekView { code: "NL425"@, title: "Healing Stories"@, season: "Fifth Sunday after Epiphany"@, primary: seq!["John 4:46–54 [5:1–18]"@], alt_primary: None, accompanying: Some("Ps 40:1–5"@), source_date: "February 8"@ },
        25 => WeekView { code: "NL429"@, title: "The Man Born Blind"@, season: "Transfiguration of Our Lord"@, primary: seq!["John 9:1–41"@], alt_primary: None, accompanying: Some("Ps 27:1–4"@), source_date: "February 15"@ },
        26 => WeekView { code: "NL430"@, title: "The Good Shepherd"@, season: "Ash Wednesday"@, primary: seq!["John 10:1–18"@], alt_primary: None, accompanying: Some("Ps 23"@), source_date: "February 18"@ },
        27 => WeekView { code: "NL431"@, title: "Jesus Raises Lazarus"@, season: "First Sunday in Lent"@, primary: seq!["John 11:1–44"@], alt_primary: None, accompanying: Some("Ps 104:27–30"@), source_date: "February 22"@ },
        28 => WeekView { code: "NL432"@, title: "Jesus Washes Feet"@, season: "Second Sunday in Lent"@, primary: seq!["John 13:1–17"@], alt_primary: None, accompanying: Some("Ps 51:7–12"@), source_date: "March 1"@ },
        29 => WeekView { code: "NL433"@, title: "Peter's Denial"@, season: "Third Sunday in Lent"@, primary: seq!["John 18:12–27"@], alt_primary: None, accompanying: Some("Ps 17:1–7"@), source_date: "March 8"@ },
        30 => WeekView { code: "NL434"@, title: "Jesus and Pilate"@, season: "Fourth Sunday in Lent"@, primary: seq!["John 18:28–40"@], alt_primary: None, accompanying: Some("Ps 145:10–13"@), source_date: "March 15"@ },
        31 => WeekView { code: "NL435"@, title: "Jesus Condemned"@, season: "Fifth Sunday in Lent"@, primary: seq!["John 19:1–16a"@], alt_primary: None, accompanying: Some("Ps 146"@), source_date: "March 22"@ },
        32 => WeekView { code: "NL436"@, title: "The Crucified Messiah"@, season: "Palm/Passion Sunday"@, primary: seq!["John 19:16b–22"@], alt_primary: Some("John 12:12–27 (Triumphal Entry)"@), accompanying: Some("Ps 24"@), source_date: "March 29"@ },
        33 => WeekView { code: "NL437"@, title: "Jesus' Last Words"@, season: "Maundy Thursday"@, primary: seq!["John 19:23–30"@], alt_primary: None, accompanying: Some("Ps 26:3"@), source_date: "April 2"@ },
        34 => WeekView { code: "NL438"@, title: "Jesus the Passover Lamb"@, season: "Good Friday"@, primary: seq!["John 19:31–42"@], alt_primary: None, accompanying: Some("Ps 31:9–18"@), source_date: "April 3"@ },
        35 => WeekView { code: "NL439"@, title: "Resurrection"@, season: "Resurrection of Our Lord"@, primary: seq!["John 20:1–18"@], alt_primary: None, accompanying: Some("Ps 118:21–29"@), source_date: "April 5"@ },
        36 => WeekView { code: "NL440"@, title: "Thomas"@, season: "Second Sunday of Easter"@, primary: seq!["John 20:19–31"@], alt_primary: None, accompanying: Some("Ps 145:13–21"@), source_date: "April 12"@ },
        37 => WeekView { code: "NL441"@, title: "Paul's Conversion"@, season: "Third Sunday of Easter"@, primary: seq!["Acts 9:1–19a"@], alt_primary: None, accompanying: Some("Matt 6:24"@), source_date: "April 19"@ },
        38 => WeekView { code: "NL442"@, title: "Paul and Silas"@, season: "Fourth Sunday of Easter"@, primary: seq!["Acts 16:16–34"@], alt_primary: None, accompanying: Some("Luke 6:18–19, 22–23"@), source_date: "April 26"@ },
        39 => WeekView { code: "NL443"@, title: "Paul's Sermon at Athens"@, season: "Fifth Sunday of Easter"@, primary: seq!["Acts 17:16–31"@], alt_primary: None, accompanying: Some("John 1:16–18"@), source_date: "May 3"@ },
        40 => WeekView { code: "NL444"@, title: "Partnership in the Gospel"@, season: "Sixth Sunday of Easter"@, primary: seq!["Phil 1:1–18a"@], alt_primary: None, accompanying: Some("Luke 9:46–48"@), source_date: "May 10"@ },
        41 => WeekView { code: "NL445"@, title: "The Christ Hymn"@, season: "Seventh Sunday of Easter"@, primary: seq!["Phil 2:1–13"@], alt_primary: None, accompanying: Some("Luke 6:43–45"@), source_date: "May 17"@ },
        _ => WeekView { code: "NL446"@, title: "Pentecost; Rejoice in the Lord"@, season: "Day of Pentecost"@, primary: seq!["Acts 2:1–21"@, "Phil 4:4–7"@], alt_primary: None, accompanying: Some("John 14:16–17"@), source_date: "May 24"@ },
    }
}

fn john_week_at(i: usize) -> (r: Week)
    ensures
        r@ == john_week(i),
{
    let r = match i {
        0 => Week { code: "NL401", title: "Creation by the Word", season: "Thirteenth Sunday after Pentecost", primary: vec!["Gen 1:1–2:4a"], alt_primary: None, accompanying: Some("John 1:1–5"), source_date: "September 7" },
        1 => Week { code: "NL402", title: "Binding of Isaac", season: "Fourteenth Sunday after Pentecost", primary: vec!["Gen 21:1–3; 22:1–14"], alt_primary: None, accompanying: Some("John 1:29"), source_date: "September 14" },
        2 => Week { code: "NL403", title: "Jacob's Dream", season: "Fifteenth Sunday after Pentecost", primary: vec!["Gen 27:1–4, 15–23; 28:10–17"], alt_primary: None, accompanying: Some("John 1:50–51"), source_date: "September 21" },
        3 => Week { code: "NL404", title: "God's Name Is Revealed", season: "Sixteenth Sunday after Pentecost", primary: vec!["Exod 2:23–25; 3:1–15; 4:10–17"], alt_primary: None, accompanying: Some("John 8:58"), source_date: "September 28" },
        4 => Week { code: "NL405", title: "God Provides Manna", season: "Seventeenth Sunday after Pentecost", primary: vec!["Exod 16:1–18"], alt_primary: None, accompanying: Some("John 6:51"), source_date: "October 5" },
        5 => Week { code: "NL406", title: "God Calls Samuel", season: "Eighteenth Sunday after Pentecost", primary: vec!["1 Sam 3:1–21"], alt_primary: None, accompanying: Some("John 20:21–23"), source_date: "October 12" },
        6 => Week { code: "NL407", title: "God Calls David", season: "Nineteenth Sunday after Pentecost", primary: vec!["1 Sam 16:1–13", "Ps 51:10–14"], alt_primary: None, accompanying: Some("John 7:24"), source_date: "October 19" },
        7 => Week { code: "NL408", title: "Solomon's Temple", season: "Twentieth Sunday after Pentecost (or Reformation Sunday)", primary: vec!["1 Kgs 5:1–5; 8:1–13"], alt_primary: None, accompanying: Some("John 2:19–21"), source_date: "October 26" },
        8 => Week { code: "NL409", title: "God Speaks to Elijah", season: "Twenty-first Sunday after Pentecost (or All Saints Sunday)", primary: vec!["1 Kgs 19:1–18"], alt_primary: None, accompanying: Some("John 12:27–28"), source_date: "November 2" },
        9 => Week { code: "NL410", title: "Amos: Justice Rolls Down", season: "Twenty-second Sunday after Pentecost", primary: vec!["Amos 1:1–2; 5:14–15, 21–24"], alt_primary: None, accompanying: Some("John 7:37–38"), source_date: "November 9" },
        10 => Week { code: "NL411", title: "Isaiah: A Child Is Born", season: "Twenty-third Sunday after Pentecost", primary: vec!["Isa 9:1–7"], alt_primary: None, accompanying: Some("John 8:12"), source_date: "November 16" },
        11 => Week { code: "NL412", title: "Jeremiah's Letter to Exiles", season: "Christ the King / Reign of Christ Sunday", primary: vec!["Jer 29:1, 4–14"], alt_primary: None, accompanying: Some("John 14:27"), source_date: "November 23" },
        12 => Week { code: "NL413", title: "Daniel", season: "First Sunday of Advent", primary: vec!["Dan 3:1, [2–7] 8–30"], alt_primary: None, accompanying: Some("John 18:36–37"), source_date: "November 30" },
        13 => Week { code: "NL414", title: "Ezekiel: Valley of Dry Bones", season: "Second Sunday of Advent", primary: vec!["Ezek 37:1–14"], alt_primary: None, accompanying: Some("John 11:25–26"), source_date: "December 7" },
        14 => Week { code: "NL415", title: "Word Accomplishes God's Purpose", season: "Third Sunday of Advent", primary: vec!["Isa 55:1–13"], alt_primary: None, accompanying: Some("John 4:13–14"), source_date: "December 14" },
        15 => Week { code: "NL416", title: "Word Made Flesh", season: "Fourth Sunday of Advent", primary: vec!["John 1:1–18"], alt_primary: None, accompanying: Some("Ps 130:5–8"), source_date: "December 21" },
        16 => Week { code: "NL417", title: "Birth of Jesus", season: "Christmas Eve", primary: vec!["Luke 2:1–14 [15–20]"], alt_primary: None, accompanying: Some("Ps 96:7–10"), source_date: "December 24" },
        17 => Week { code: "NL418", title: "Shepherds Visit", season: "Christmas Day", primary: vec!["Luke 2:8–20"], alt_primary: None, accompanying: Some("Ps 123:1–2 or 123:2"), source_date: "December 25" },
        18 => Week { code: "NL419", title: "A Voice in the Wilderness", season: "First Sunday of Christmas", primary: vec!["John 1:19–34"], alt_primary: None, accompanying: Some("Ps 32:1–2"), source_date: "December 28" },
        19 => Week { code: "NL420", title: "Jesus Says Come and See", season: "Second Sunday of Christmas", primary: vec!["John 1:35–51"], alt_primary: None, accompanying: Some("Ps 66:1–5"), source_date: "January 4" },
        20 => Week { code: "NL421", title: "Wedding at Cana", season: "Baptism of Our Lord", primary: vec!["John 2:1–11"], alt_primary: None, accompanying: Some("Ps 104:14–16"), source_date: "January 11" },
        21 => Week { code: "NL422", title: "Jesus Cleanses the Temple", season: "Second Sunday after Epiphany", primary: vec!["John 2:13–25"], alt_primary: None, accompanying: Some("Ps 127:1–2"), source_date: "January 18" },
        22 => Week { code: "NL423", title: "Nicodemus", season: "Third Sunday after Epiphany", primary: vec!["John 3:1–21"], alt_primary: None, accompanying: Some("Ps 139:13–18"), source_date: "January 25" },
        23 => Week { code: "NL424", title: "The Woman at the Well", season: "Fourth Sunday after Epiphany", primary: vec!["John 4:1–42"], alt_primary: None, accompanying: Some("Ps 42:1–3"), source_date: "February 1" },
        24 => Week { code: "NL425", title: "Healing Stories", season: "Fifth Sunday after Epiphany", primary: vec!["John 4:46–54 [5:1–18]"], alt_primary: None, accompanying: Some("Ps 40:1–5"), source_date: "February 8" },
        25 => Week { code: "NL429", title: "The Man Born Blind", season: "Transfiguration of Our Lord", primary: vec!["John 9:1–41"], alt_primary: None, accompanying: Some("Ps 27:1–4"), source_date: "February 15" },
        26 => Week { code: "NL430", title: "The Good Shepherd", season: "Ash Wednesday", primary: vec!["John 10:1–18"], alt_primary: None, accompanying: Some("Ps 23"), source_date: "February 18" },
        27 => Week { code: "NL431", title: "Jesus Raises Lazarus", season: "First Sunday in Lent", primary: vec!["John 11:1–44"], alt_primary: None, accompanying: Some("Ps 104:27–30"), source_date: "February 22" },
        28 => Week { code: "NL432", title: "Jesus Washes Feet", season: "Second Sunday in Lent", primary: vec!["John 13:1–17"], alt_primary: None, accompanying: Some("Ps 51:7–12"), source_date: "March 1" },
        29 => Week { code: "NL433", title: "Peter's Denial", season: "Third Sunday in Lent", primary: vec!["John 18:12–27"], alt_primary: None, accompanying: Some("Ps 17:1–7"), source_date: "March 8" },
        30 => Week { code: "NL434", title: "Jesus and Pilate", season: "Fourth Sunday in Lent", primary: vec!["John 18:28–40"], alt_primary: None, accompanying: Some("Ps 145:10–13"), source_date: "March 15" },
        31 => Week { code: "NL435", title: "Jesus Condemned", season: "Fifth Sunday in Lent", primary: vec!["John 19:1–16a"], alt_primary: None, accompanying: Some("Ps 146"), source_date: "March 22" },
        32 => Week { code: "NL436", title: "The Crucified Messiah", season: "Palm/Passion Sunday", primary: vec!["John 19:16b–22"], alt_primary: Some("John 12:12–27 (Triumphal Entry)"), accompanying: Some("Ps 24"), source_date: "March 29" },
        33 => Week { code: "NL437", title: "Jesus' Last Words", season: "Maundy Thursday", primary: vec!["John 19:23–30"], alt_primary: None, accompanying: Some("Ps 26:3"), source_date: "April 2" },
        34 => Week { code: "NL438", title: "Jesus the Passover Lamb", season: "Good Friday", primary: vec!["John 19:31–42"], alt_primary: None, accompanying: Some("Ps 31:9–18"), source_date: "April 3" },
        35 => Week { code: "NL439", title: "Resurrection", season: "Resurrection of Our Lord", primary: vec!["John 20:1–18"], alt_primary: None, accompanying: Some("Ps 118:21–29"), source_date: "April 5" },
        36 => Week { code: "NL440", title: "Thomas", season: "Second Sunday of Easter", primary: vec!["John 20:19–31"], alt_primary: None, accompanying: Some("Ps 145:13–21"), source_date: "April 12" },
        37 => Week { code: "NL441", title: "Paul's Conversion", season: "Third Sunday of Easter", primary: vec!["Acts 9:1–19a"], alt_primary: None, accompanying: Some("Matt 6:24"), source_date: "April 19" },
        38 => Week { code: "NL442", title: "Paul and Silas", season: "Fourth Sunday of Easter", primary: vec!["Acts 16:16–34"], alt_primary: None, accompanying: Some("Luke 6:18–19, 22–23"), source_date: "April 26" },
        39 => Week { code: "NL443", title: "Paul's Sermon at Athens", season: "Fifth Sunday of Easter", primary: vec!["Acts 17:16–31"], alt_primary: None, accompanying: Some("John 1:16–18"), source_date: "May 3" },
        40 => Week { code: "NL444", title: "Partnership in the Gospel", season: "Sixth Sunday of Easter", primary: vec!["Phil 1:1–18a"], alt_primary: None, accompanying: Some("Luke 9:46–48"), source_date: "May 10" },
        41 => Week { code: "NL445", title: "The Christ Hymn", season: "Seventh Sunday of Easter", primary: vec!["Phil 2:1–13"], alt_primary: None, accompanying: Some("Luke 6:43–45"), source_date: "May 17" },
        _ => Week { code: "NL446", title: "Pentecost; Rejoice in the Lord", season: "Day of Pentecost", primary: vec!["Acts 2:1–21", "Phil 4:4–7"], alt_primary: None, accompanying: Some("John 14:16–17"), source_date: "May 24" },
    };
    assert(r@ =~= john_week(i));
    r
}

/// Week `i` of program year `y`.
pub open spec fn week_of(y: ProgramYear, i: usize) -> WeekView {
    match y {
        ProgramYear::Matthew => matthew_week(i),
        ProgramYear::Mark => mark_week(i),
        ProgramYear::Luke => luke_week(i),
        ProgramYear::John => john_week(i),
    }
}

pub fn week_at(y: ProgramYear, i: usize) -> (r: Week)
    ensures
        r@ == week_of(y, i),
{
    match y {
        ProgramYear::Matthew => matthew_week_at(i),
        ProgramYear::Mark => mark_week_at(i),
        ProgramYear::Luke => luke_week_at(i),
        ProgramYear::John => john_week_at(i),
    }
}

/// One week of a summer series, outside the four-year cycle.
#[derive(Clone, Copy, Debug, PartialEq)]
pub struct SummerWeek {
    /// The Sunday, written month/day/year.
    pub date: &'static str,
    pub series: &'static str,
    pub title: &'static str,
    pub primary: &'static str,
    pub accompanying: &'static str,
}

pub open spec fn summer_view(w: SummerWeek) -> (Seq<char>, Seq<char>, Seq<char>, Seq<char>, Seq<char>) {
    (w.date@, w.series@, w.title@, w.primary@, w.accompanying@)
}

/// Weeks of the summer 2026 series.
pub const SUMMER_2026_LEN: usize = 15;

/// Week `i` of the summer 2026 series: date, series, title, primary and
/// accompanying texts.
pub open spec fn summer_2026_week(i: usize) -> (Seq<char>, Seq<char>, Seq<char>, Seq<char>, Seq<char>) {
    match i {
        0 => ("5/31/2026"@, "Ruth & Esther"@, "Loss and Loyalty"@, "Ruth 1:1–22"@, "Matt 5:3–9 (The Beatitudes)"@),
        1 => ("6/7/2026"@, "Ruth & Esther"@, "Gleaning and Hope"@, "Ruth 2:1–23"@, "Luke 6:36–38 (Give and It Will Be Given)"@),
        2 => ("6/14/2026"@, "Ruth & Esther"@, "Daring to Act"@, "Ruth 3:1–18"@, "Matt 7:7–8 (Ask and You Will Receive)"@),
        3 => ("6/21/2026"@, "Ruth & Esther"@, "New Life"@, "Ruth 4:1–22"@, "Luke 1:46–55 (Mary Praises God)"@),
        4 => ("6/28/2026"@, "Ruth & Esther"@, "For a Moment Like This"@, "Esth 4:1–17"@, "Luke 9:23–24 (Call to Discipleship)"@),
        5 => ("7/5/2026"@, "Ruth & Esther"@, "From Sadness to Joy"@, "Esth 7:1–10; 9:1–2, 20–22, 29–32"@, "Luke 1:68–72 (God Saves Israel)"@),
        6 => ("7/12/2026"@, "1 & 2 Timothy"@, "Have Confidence in the Gospel"@, "1 Tim 1:12–17"@, "Luke 15:4–7"@),
        7 => ("7/19/2026"@, "1 & 2 Timothy"@, "Take Hold of Eternal Life"@, "1 Tim 6:6–19"@, "Luke 16:27–30"@),
        8 => ("7/26/2026"@, "1 & 2 Timothy"@, "Rekindle the Gift of God"@, "2 Tim 1:1–14"@, "Luke 17:5–6"@),
        9 => ("8/2/2026"@, "1 & 2 Timothy"@, "Remember Jesus Christ, Raised from the Dead"@, "2 Tim 2:8–15"@, "Luke 17:16–19"@),
        10 => ("8/9/2026"@, "1 & 2 Timothy"@, "The Lord Stood by Me"@, "2 Tim 3:14–4:8, 16–18"@, "Luke 18:6–8"@),
        11 => ("8/16/2026"@, "Ten Commandments"@, "Nineteen Comes before Twenty"@, "Exod 19:1–6; 20:1–2"@, "Matt 22:34–40 (The Great Commandment)"@),
        12 => ("8/23/2026"@, "Ten Commandments"@, "Tuned into God"@, "Exod 20:3–11"@, "Matt 22:34–40 (The Great Commandment)"@),
        13 => ("8/30/2026"@, "Ten Commandments"@, "Tuned toward the Neighbor"@, "Exod 20:12–16"@, "Matt 22:34–40 (The Great Commandment)"@),
        _ => ("9/6/2026"@, "Ten Commandments"@, "Do Not Covet"@, "Exod 20:17"@, "Matt 22:34–40 (The Great Commandment)"@),
    }
}

pub fn summer_2026_at(i: usize) -> (r: SummerWeek)
    ensures
        summer_view(r) == summer_2026_week(i),
{
    match i {
        0 => SummerWeek { date: "5/31/2026", series: "Ruth & Esther", title: "Loss and Loyalty", primary: "Ruth 1:1–22", accompanying: "Matt 5:3–9 (The Beatitudes)" },
        1 => SummerWeek { date: "6/7/2026", series: "Ruth & Esther", title: "Gleaning and Hope", primary: "Ruth 2:1–23", accompanying: "Luke 6:36–38 (Give and It Will Be Given)" },
        2 => SummerWeek { date: "6/14/2026", series: "Ruth & Esther", title: "Daring to Act", primary: "Ruth 3:1–18", accompanying: "Matt 7:7–8 (Ask and You Will Receive)" },
        3 => SummerWeek { date: "6/21/2026", series: "Ruth & Esther", title: "New Life", primary: "Ruth 4:1–22", accompanying: "Luke 1:46–55 (Mary Praises God)" },
        4 => SummerWeek { date: "6/28/2026", series: "Ruth & Esther", title: "For a Moment Like This", primary: "Esth 4:1–17", accompanying: "Luke 9:23–24 (Call to Discipleship)" },
        5 => SummerWeek { date: "7/5/2026", series: "Ruth & Esther", title: "From Sadness to Joy", primary: "Esth 7:1–10; 9:1–2, 20–22, 29–32", accompanying: "Luke 1:68–72 (God Saves Israel)" },
        6 => SummerWeek { date: "7/12/2026", series: "1 & 2 Timothy", title: "Have Confidence in the Gospel", primary: "1 Tim 1:12–17", accompanying: "Luke 15:4–7" },
        7 => SummerWeek { date: "7/19/2026", series: "1 & 2 Timothy", title: "Take Hold of Eternal Life", primary: "1 Tim 6:6–19", accompanying: "Luke 16:27–30" },
        8 => SummerWeek { date: "7/26/2026", series: "1 & 2 Timothy", title: "Rekindle the Gift of God", primary: "2 Tim 1:1–14", accompanying: "Luke 17:5–6" },
        9 => SummerWeek { date: "8/2/2026", series: "1 & 2 Timothy", title: "Remember Jesus Christ, Raised from the Dead", primary: "2 Tim 2:8–15", accompanying: "Luke 17:16–19" },
        10 => SummerWeek { date: "8/9/2026", series: "1 & 2 Timothy", title: "The Lord Stood by Me", primary: "2 Tim 3:14–4:8, 16–18", accompanying: "Luke 18:6–8" },
        11 => SummerWeek { date: "8/16/2026", series: "Ten Commandments", title: "Nineteen Comes before Twenty", primary: "Exod 19:1–6; 20:1–2", accompanying: "Matt 22:34–40 (The Great Commandment)" },
        12 => SummerWeek { date: "8/23/2026", series: "Ten Commandments", title: "Tuned into God", primary: "Exod 20:3–11", accompanying: "Matt 22:34–40 (The Great Commandment)" },
        13 => SummerWeek { date: "8/30/2026", series: "Ten Commandments", title: "Tuned toward the Neighbor", primary: "Exod 20:12–16", accompanying: "Matt 22:34–40 (The Great Commandment)" },
        _ => SummerWeek { date: "9/6/2026", series: "Ten Commandments", title: "Do Not Covet", primary: "Exod 20:17", accompanying: "Matt 22:34–40 (The Great Commandment)" },
    }
}

} // verus!
