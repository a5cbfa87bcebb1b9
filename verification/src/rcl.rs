//! Revised Common Lectionary: which Sunday or feast a date is, its season,
//! liturgical colour and its four readings (Old Testament and Psalm from the
//! Semicontinuous track).

use vstd::prelude::*;

use crate::date::{
    civil_days, in_day_range, lemma_day_range, lemma_month_offsets, lemma_year_end, month_of,
    weekday_of, year_of, Date, MAX_YEAR,
};
pub use crate::lectionary::calendar::{advent_sunday, easter, lectionary_year};
use crate::lectionary::calendar::{
    lemma_easter_in_spring, lemma_easter_window, easter_defined, advent_day, easter_day, easter_month_day, is_sunday, lectionary_year_text, nearest_sunday, nearest_sunday_day,
    python_weekday, sunday_on_or_before, sunday_on_or_before_day,
};
use crate::lectionary::RclTrack;
use crate::lectionary::rcl_data::{
    complementary_row, complementary_row_at, COMPLEMENTARY_ROWS,
    colour_row, colour_row_at, proper_centre, proper_centre_at, rcl_row, rcl_row_at, readings_text,
    lemma_ascension_row, lemma_gospels_cited, Readings, COLOUR_ROWS, PROPER_ROWS, RCL_ROWS,
};
use crate::text::{decimal, decimal_text, owned, push_str, str_eq};

verus! {

/// What the Revised Common Lectionary gives for a date.
#[derive(Debug, Clone, PartialEq, Eq)]
pub struct LiturgicalInfo {
    pub season: String,
    pub week: String,
    pub year: String,
    pub colour: String,
    pub colour_hex: String,
    pub ot: String,
    pub psalm: String,
    pub epistle: String,
    pub gospel: String,
    /// Whether the readings table had the week.
    pub found: bool,
}

#[verifier::ext_equal]
pub struct InfoView {
    pub season: Seq<char>,
    pub week: Seq<char>,
    pub year: Seq<char>,
    pub colour: Seq<char>,
    pub colour_hex: Seq<char>,
    pub ot: Seq<char>,
    pub psalm: Seq<char>,
    pub epistle: Seq<char>,
    pub gospel: Seq<char>,
    pub found: bool,
}

impl View for LiturgicalInfo {
    type V = InfoView;

    open spec fn view(&self) -> InfoView {
        InfoView {
            season: self.season@,
            week: self.week@,
            year: self.year@,
            colour: self.colour@,
            colour_hex: self.colour_hex@,
            ot: self.ot@,
            psalm: self.psalm@,
            epistle: self.epistle@,
            gospel: self.gospel@,
            found: self.found,
        }
    }
}

// ---------------------------------------------------------------------------
// Table lookups.

/// Index of the first readings row at or after `i` for cycle year `key` and
/// week `id`.
pub open spec fn rcl_scan(key: Seq<char>, id: Seq<char>, i: int) -> Option<int>
    decreases RCL_ROWS - i,
{
    if i >= RCL_ROWS {
        None
    } else if rcl_row(i as usize).0 == key && rcl_row(i as usize).1 == id {
        Some(i)
    } else {
        rcl_scan(key, id, i + 1)
    }
}

/// The readings of week `id` for cycle year `key`, falling back to a row
/// shared by all three years.
pub open spec fn rcl_lookup(key: Seq<char>, id: Seq<char>) -> Option<
    (Seq<char>, Seq<char>, Seq<char>, Seq<char>),
> {
    match rcl_scan(key, id, 0) {
        Some(i) => Some(rcl_row(i as usize).2),
        None => match rcl_scan("ALL"@, id, 0) {
            Some(i) => Some(rcl_row(i as usize).2),
            None => None,
        },
    }
}

proof fn lemma_rcl_scan_found(key: Seq<char>, id: Seq<char>, i: int)
    requires
        0 <= i,
    ensures
        rcl_scan(key, id, i) matches Some(j) ==> i <= j < RCL_ROWS && rcl_row(j as usize).0 == key
            && rcl_row(j as usize).1 == id,
    decreases RCL_ROWS - i,
{
    if i < RCL_ROWS {
        lemma_rcl_scan_found(key, id, i + 1);
    }
}

fn scan_rows(key: &str, id: &str) -> (r: Option<Readings>)
    ensures
        match rcl_scan(key@, id@, 0) {
            Some(i) => r matches Some(x) && readings_text(x) == rcl_row(i as usize).2,
            None => r is None,
        },
{
    let mut i: usize = 0;
    while i < RCL_ROWS
        invariant
            i <= RCL_ROWS,
            rcl_scan(key@, id@, 0) == rcl_scan(key@, id@, i as int),
        decreases RCL_ROWS - i,
    {
        let row = rcl_row_at(i);
        if str_eq(row.0, key) && str_eq(row.1, id) {
            return Some(row.2);
        }
        i = i + 1;
    }
    None
}

/// The readings of `sunday_id` in year `key_year`, or in the rows shared by
/// all years.
fn lookup(key_year: &str, sunday_id: &str) -> (r: Option<Readings>)
    ensures
        match rcl_lookup(key_year@, sunday_id@) {
            Some(t) => r matches Some(x) && readings_text(x) == t,
            None => r is None,
        },
{
    match scan_rows(key_year, sunday_id) {
        Some(r) => Some(r),
        None => {
            proof {
                reveal_strlit("ALL");
            }
            scan_rows("ALL", sunday_id)
        },
    }
}

/// Index of the first colour row at or after `i` for season `key`.
pub open spec fn colour_scan(key: Seq<char>, i: int) -> Option<int>
    decreases COLOUR_ROWS - i,
{
    if i >= COLOUR_ROWS {
        None
    } else if colour_row(i as usize).0 == key {
        Some(i)
    } else {
        colour_scan(key, i + 1)
    }
}

/// Colour name and hex of a season, green for an unknown season.
pub open spec fn colour_of(key: Seq<char>) -> (Seq<char>, Seq<char>) {
    match colour_scan(key, 0) {
        Some(i) => colour_row(i as usize).1,
        None => ("Green"@, "#15803D"@),
    }
}

/// The liturgical colour of a season: its name and hex value.
pub fn colour_for(season_key: &str) -> (r: (&'static str, &'static str))
    ensures
        (r.0@, r.1@) == colour_of(season_key@),
{
    let mut i: usize = 0;
    while i < COLOUR_ROWS
        invariant
            i <= COLOUR_ROWS,
            colour_scan(season_key@, 0) == colour_scan(season_key@, i as int),
        decreases COLOUR_ROWS - i,
    {
        let row = colour_row_at(i);
        if str_eq(row.0, season_key) {
            return row.1;
        }
        i = i + 1;
    }
    ("Green", "#15803D")
}

/// The result for a week found by its id: the readings of `sunday_id` in
/// year `year_key` (the date's own lectionary year when `None`).
/// Index of the first Complementary-track row at or after `i` for cycle
/// year `key` and week `id`.
pub open spec fn complementary_scan(key: Seq<char>, id: Seq<char>, i: int) -> Option<int>
    decreases COMPLEMENTARY_ROWS - i,
{
    if i >= COMPLEMENTARY_ROWS {
        None
    } else if complementary_row(i as usize).0 == key && complementary_row(i as usize).1 == id {
        Some(i)
    } else {
        complementary_scan(key, id, i + 1)
    }
}

/// The Complementary Old Testament and Psalm of week `id` in year `key`.
pub open spec fn complementary_lookup(key: Seq<char>, id: Seq<char>) -> Option<
    (Seq<char>, Seq<char>),
> {
    match complementary_scan(key, id, 0) {
        Some(i) => Some(complementary_row(i as usize).2),
        None => None,
    }
}

fn complementary_lookup_exec(key: &str, id: &str) -> (r: Option<(&'static str, &'static str)>)
    ensures
        match complementary_lookup(key@, id@) {
            Some(t) => r matches Some(x) && (x.0@, x.1@) == t,
            None => r is None,
        },
{
    let mut i: usize = 0;
    while i < COMPLEMENTARY_ROWS
        invariant
            i <= COMPLEMENTARY_ROWS,
            complementary_scan(key@, id@, 0) == complementary_scan(key@, id@, i as int),
        decreases COMPLEMENTARY_ROWS - i,
    {
        let row = complementary_row_at(i);
        if str_eq(row.0, key) && str_eq(row.1, id) {
            return Some(row.2);
        }
        i = i + 1;
    }
    None
}

/// The result for a week found by its id: the readings of `sunday_id` in
/// year `year_key` (the date's own lectionary year when `None`). On the
/// Complementary track the Old Testament and Psalm come from that track's
/// table where it has the week.
pub open spec fn rcl_result(
    track: RclTrack,
    lec_year: Seq<char>,
    season: Seq<char>,
    week: Seq<char>,
    sunday_id: Seq<char>,
    year_key: Option<Seq<char>>,
) -> InfoView {
    let key = match year_key {
        Some(k) => k,
        None => lec_year,
    };
    let r = rcl_lookup(key, sunday_id);
    let comp = if track == RclTrack::Complementary {
        complementary_lookup(key, sunday_id)
    } else {
        None
    };
    let c = colour_of(season);
    InfoView {
        season,
        week,
        year: lec_year,
        colour: c.0,
        colour_hex: c.1,
        ot: match comp {
            Some(t) => t.0,
            None => match r {
                Some(t) => t.0,
                None => "—"@,
            },
        },
        psalm: match comp {
            Some(t) => t.1,
            None => match r {
                Some(t) => t.1,
                None => "—"@,
            },
        },
        epistle: match r {
            Some(t) => t.2,
            None => "—"@,
        },
        gospel: match r {
            Some(t) => t.3,
            None => "—"@,
        },
        found: r is Some,
    }
}

fn result_for(
    track: RclTrack,
    lec_year: &str,
    season_key: &str,
    week_label: &str,
    sunday_id: &str,
    year_key: Option<&str>,
) -> (r: LiturgicalInfo)
    ensures
        r@ == rcl_result(
            track,
            lec_year@,
            season_key@,
            week_label@,
            sunday_id@,
            match year_key {
                Some(k) => Some(k@),
                None => None,
            },
        ),
{
    let yk = match year_key {
        Some(k) => k,
        None => lec_year,
    };
    let r = lookup(yk, sunday_id);
    let comp = match track {
        RclTrack::Complementary => complementary_lookup_exec(yk, sunday_id),
        RclTrack::Semicontinuous => None,
    };
    let (colour_name, colour_hex) = colour_for(season_key);
    proof {
        reveal_strlit("—");
    }
    let (ot, psalm, epistle, gospel) = match r {
        Some(t) => (t.0, t.1, t.2, t.3),
        None => ("—", "—", "—", "—"),
    };
    let (ot, psalm) = match comp {
        Some(t) => t,
        None => (ot, psalm),
    };
    LiturgicalInfo {
        season: owned(season_key),
        week: owned(week_label),
        year: owned(lec_year),
        colour: owned(colour_name),
        colour_hex: owned(colour_hex),
        ot: owned(ot),
        psalm: owned(psalm),
        epistle: owned(epistle),
        gospel: owned(gospel),
        found: r.is_some(),
    }
}

/// A result with fixed readings, for the feasts the table does not key.
fn fixed_info(
    lec_year: &str,
    season: &str,
    week: &str,
    colour_key: &str,
    readings: Readings,
    found: bool,
) -> (r: LiturgicalInfo)
    ensures
        r@ == (InfoView {
            season: season@,
            week: week@,
            year: lec_year@,
            colour: colour_of(colour_key@).0,
            colour_hex: colour_of(colour_key@).1,
            ot: readings.0@,
            psalm: readings.1@,
            epistle: readings.2@,
            gospel: readings.3@,
            found,
        }),
{
    let (colour_name, colour_hex) = colour_for(colour_key);
    LiturgicalInfo {
        season: owned(season),
        week: owned(week),
        year: owned(lec_year),
        colour: owned(colour_name),
        colour_hex: owned(colour_hex),
        ot: owned(readings.0),
        psalm: owned(readings.1),
        epistle: owned(readings.2),
        gospel: owned(readings.3),
        found,
    }
}

// ---------------------------------------------------------------------------
// Propers of Ordinary Time.

pub open spec fn abs_diff(a: int, b: int) -> int {
    if a >= b {
        a - b
    } else {
        b - a
    }
}

/// Day number of the centre of table row `i`'s Proper in `year`.
pub open spec fn centre_day(year: int, i: usize) -> int {
    civil_days(year, proper_centre(i).1.0 as int, proper_centre(i).1.1 as int)
}

/// Smallest distance from `x` to the centres of the first `n` rows, and the
/// Proper of the first row at that distance (starting from distance 999).
pub open spec fn proper_best(x: int, n: int) -> (int, Option<u32>)
    decreases n,
{
    if n <= 0 {
        (999, None)
    } else {
        let prev = proper_best(x, n - 1);
        let diff = abs_diff(x, centre_day(year_of(x), (n - 1) as usize));
        if diff < prev.0 {
            (diff, Some(proper_centre((n - 1) as usize).0))
        } else {
            prev
        }
    }
}

/// The Proper (4 to 29) whose centre lies within three days of `x`.
pub open spec fn proper_of(x: int) -> Option<u32> {
    let best = proper_best(x, PROPER_ROWS as int);
    if best.0 <= 3 {
        best.1
    } else {
        None
    }
}

proof fn lemma_centres_valid(i: usize)
    requires
        i < PROPER_ROWS,
    ensures
        5 <= proper_centre(i).1.0 <= 11,
        1 <= proper_centre(i).1.1 <= 30 || (proper_centre(i).1.0 == 5 && proper_centre(i).1.1 == 31),
        4 <= proper_centre(i).0 <= 29,
{
}

proof fn lemma_proper_best_range(x: int, n: int)
    requires
        n <= PROPER_ROWS,
    ensures
        proper_best(x, n).1 matches Some(p) ==> 4 <= p <= 29,
    decreases n,
{
    if n > 0 {
        lemma_proper_best_range(x, n - 1);
        lemma_centres_valid((n - 1) as usize);
    }
}

/// Every Proper a date resolves to is one of Propers 4 to 29.
pub proof fn lemma_proper_in_range(x: int)
    ensures
        proper_of(x) matches Some(p) ==> 4 <= p <= 29,
{
    lemma_proper_best_range(x, PROPER_ROWS as int);
}

proof fn lemma_proper_best_nearest(x: int, n: int)
    requires
        n <= PROPER_ROWS,
    ensures
        ({
            let b = proper_best(x, n);
            let y = year_of(x);
            &&& b.0 <= 999
            &&& forall|k: usize| k < n ==> b.0 <= abs_diff(x, #[trigger] centre_day(y, k))
            &&& b.1 is None ==> b.0 == 999
            &&& b.1 matches Some(p) ==> exists|i: usize|
                i < n && abs_diff(x, #[trigger] centre_day(y, i)) == b.0 && proper_centre(i).0 == p
        }),
    decreases n,
{
    if n > 0 {
        lemma_proper_best_nearest(x, n - 1);
        let y = year_of(x);
        let b = proper_best(x, n);
        let i = (n - 1) as usize;
        if abs_diff(x, centre_day(y, i)) < proper_best(x, n - 1).0 {
            assert(abs_diff(x, centre_day(y, i)) == b.0 && proper_centre(i).0 == b.1->0);
        }
    }
}

/// The Proper of a date, stated directly: when the date has one, it is the
/// Proper of a row whose centre lies within three days of the date and no
/// centre lies nearer; when some centre lies within three days, the date
/// has a Proper; when it has none, every centre is more than three days
/// away.
pub proof fn lemma_proper_nearest_centre(x: int)
    ensures
        proper_of(x) matches Some(p) ==> exists|i: usize|
            i < PROPER_ROWS && abs_diff(x, #[trigger] centre_day(year_of(x), i)) <= 3
                && proper_centre(i).0 == p && forall|k: usize|
                k < PROPER_ROWS ==> abs_diff(x, centre_day(year_of(x), i)) <= abs_diff(
                    x,
                    #[trigger] centre_day(year_of(x), k),
                ),
        (exists|i: usize| i < PROPER_ROWS && abs_diff(x, #[trigger] centre_day(year_of(x), i)) <= 3)
            ==> proper_of(x) is Some,
        proper_of(x) is None ==> forall|i: usize|
            i < PROPER_ROWS ==> abs_diff(x, #[trigger] centre_day(year_of(x), i)) > 3,
{
    lemma_proper_best_nearest(x, PROPER_ROWS as int);
    let b = proper_best(x, PROPER_ROWS as int);
    if let Some(p) = proper_of(x) {
        let i = choose|i: usize|
            i < PROPER_ROWS && abs_diff(x, #[trigger] centre_day(year_of(x), i)) == b.0
                && proper_centre(i).0 == p;
        assert(abs_diff(x, centre_day(year_of(x), i)) <= 3);
    }
}

/// The Proper of Ordinary Time whose week holds `d`, if any.
pub fn proper_for_date(d: Date) -> (r: Option<u32>)
    ensures
        r == proper_of(d@),
{
    let year = d.year();
    let x = d.days();
    let mut best_proper: Option<u32> = None;
    let mut best_diff: i64 = 999;
    let mut i: usize = 0;
    while i < PROPER_ROWS
        invariant
            i <= PROPER_ROWS,
            year == year_of(d@),
            x == d@,
            crate::date::MIN_YEAR <= year <= MAX_YEAR,
            (best_diff as int, best_proper) == proper_best(d@, i as int),
        decreases PROPER_ROWS - i,
    {
        let (proper_num, (mo, dy)) = proper_centre_at(i);
        proof {
            lemma_centres_valid(i);
        }
        let centre = Date::from_ymd(year, mo, dy).unwrap();
        let c = centre.days();
        let diff: i64 = if x >= c {
            (x as i64) - (c as i64)
        } else {
            (c as i64) - (x as i64)
        };
        if diff < best_diff {
            best_diff = diff;
            best_proper = Some(proper_num);
        }
        i = i + 1;
    }
    if best_diff <= 3 {
        best_proper
    } else {
        None
    }
}

// ---------------------------------------------------------------------------
// The calendar.

/// `prefix`, then `n`, then ", Year " and the lectionary year.
pub open spec fn numbered_label(prefix: Seq<char>, n: nat, lec_year: Seq<char>) -> Seq<char> {
    prefix + decimal_text(n) + ", Year "@ + lec_year
}

pub fn make_numbered_label(prefix: &str, n: u64, lec_year: &str) -> (r: String)
    ensures
        r@ == numbered_label(prefix@, n as nat, lec_year@),
{
    let mut s = owned(prefix);
    let digits = decimal(n);
    push_str(&mut s, digits.as_str());
    push_str(&mut s, ", Year ");
    push_str(&mut s, lec_year);
    proof {
        reveal_strlit(", Year ");
    }
    s
}

/// `prefix` followed by `suffix`.
pub fn joined(prefix: &str, suffix: &str) -> (r: String)
    ensures
        r@ == prefix@ + suffix@,
{
    let mut s = owned(prefix);
    push_str(&mut s, suffix);
    s
}

pub fn id_with_number(prefix: &str, n: u64) -> (r: String)
    ensures
        r@ == prefix@ + decimal_text(n as nat),
{
    let digits = decimal(n);
    joined(prefix, digits.as_str())
}

/// What the Revised Common Lectionary gives for the day numbered `x`, taken
/// in this order: Good Friday, Maundy Thursday, Ash Wednesday; the four
/// Sundays of Advent; then `rcl_christmas_epiphany`.
pub open spec fn rcl_info(x: int, track: RclTrack) -> InfoView {
    let year = year_of(x);
    let ly = lectionary_year_text(x);
    let e = easter_day(year);
    let adv = advent_day(year);
    if x == e - 2 {
        rcl_result(track, ly, "Good Friday"@, "Good Friday"@, "GoodFriday"@, None)
    } else if x == e - 3 {
        rcl_result(track, ly, "Holy Thursday"@, "Maundy Thursday"@, "HolyThursday"@, None)
    } else if x == e - 46 {
        rcl_result(track, ly, "Lent"@, "Ash Wednesday"@, "AshWednesday"@, None)
    } else if adv <= x <= adv + 21 && (x - adv) % 7 == 0 {
        let n = ((x - adv) / 7 + 1) as nat;
        rcl_result(track, ly, "Advent"@, numbered_label("Advent "@, n, ly), "Advent"@ + decimal_text(n), None)
    } else {
        rcl_christmas_epiphany(x, track)
    }
}

/// `rcl_info` from Christmas on: December 25 to 31; the Second Sunday of
/// Christmas (a Sunday of January 1 to 5); Epiphany (January 6); the Baptism
/// of the Lord (the Sunday nearest Epiphany); the Transfiguration (the
/// Sunday before Ash Wednesday); the Sundays after Epiphany up to the
/// eighth; then `rcl_lent_easter`.
pub open spec fn rcl_christmas_epiphany(x: int, track: RclTrack) -> InfoView {
    let year = year_of(x);
    if civil_days(year, 12, 25) <= x <= civil_days(year, 12, 31) {
        rcl_christmastide(x, track)
    } else {
        rcl_epiphany(x, track)
    }
}

/// December 25 to 31: Christmas Day; the First Sunday of Christmas while the
/// coming Sunday is still in December; otherwise Christmastide without
/// readings.
pub open spec fn rcl_christmastide(x: int, track: RclTrack) -> InfoView {
    let ly = lectionary_year_text(x);
    if x == civil_days(year_of(x), 12, 25) {
        InfoView {
            season: "Christmas"@,
            week: "Christmas Day"@,
            year: ly,
            colour: colour_of("Christmas"@).0,
            colour_hex: colour_of("Christmas"@).1,
            ot: "Isa 9:2–7"@,
            psalm: "Ps 96"@,
            epistle: "Titus 2:11–14"@,
            gospel: "Luke 2:1–14"@,
            found: true,
        }
    } else if month_of(x + (6 - weekday_of(x)) % 7) == 12 {
        rcl_result(track, ly, "Christmas"@, numbered_label("Christmas "@, 1, ly), "Christmas1"@ + ly, None)
    } else {
        InfoView {
            season: "Christmas"@,
            week: "Christmastide"@,
            year: ly,
            colour: colour_of("Christmas"@).0,
            colour_hex: colour_of("Christmas"@).1,
            ot: "—"@,
            psalm: "—"@,
            epistle: "—"@,
            gospel: "—"@,
            found: false,
        }
    }
}

/// January to Lent: the Second Sunday of Christmas (a Sunday of January 1
/// to 5); Epiphany (January 6); the Baptism of the Lord (the Sunday nearest
/// Epiphany); the Transfiguration (the Sunday before Ash Wednesday); the
/// Sundays after Epiphany up to the eighth; then `rcl_lent_easter`.
pub open spec fn rcl_epiphany(x: int, track: RclTrack) -> InfoView {
    let year = year_of(x);
    let ly = lectionary_year_text(x);
    let ash_wed = easter_day(year) - 46;
    let epiphany = civil_days(year, 1, 6);
    let ep1 = nearest_sunday_day(epiphany);
    let sunday = weekday_of(x) == 6;
    if civil_days(year, 1, 1) <= x <= civil_days(year, 1, 5) && sunday {
        rcl_result(track, ly, "Christmas"@, "Christmas 2"@, "Christmas2"@, None)
    } else if x == epiphany {
        InfoView {
            season: "Epiphany"@,
            week: "Epiphany (Jan 6)"@,
            year: ly,
            colour: colour_of("Christmas"@).0,
            colour_hex: colour_of("Christmas"@).1,
            ot: "Isa 60:1–6"@,
            psalm: "Ps 72:1–7, 10–14"@,
            epistle: "Eph 3:1–12"@,
            gospel: "Matt 2:1–12"@,
            found: true,
        }
    } else if x == ep1 {
        rcl_result(track, ly, "Baptism"@, "Baptism of the Lord, Year "@ + ly, "Epiphany1"@, None)
    } else if x == sunday_on_or_before_day(ash_wed - 1) {
        rcl_result(track, ly, "Transfiguration"@, "Transfiguration, Year "@ + ly, "Transfiguration"@, None)
    } else if epiphany < x < ash_wed && sunday && 0 <= (x - ep1) / 7 <= 7 {
        let n = ((x - ep1) / 7 + 1) as nat;
        rcl_result(
            track,
            ly,
            "Epiphany"@,
            numbered_label("Epiphany "@, n, ly),
            "Epiphany"@ + decimal_text(n),
            None,
        )
    } else {
        rcl_lent_easter(x, track)
    }
}

/// `rcl_info` from Lent on: the Sundays of Lent and Palm Sunday; Easter and
/// its Sundays; Ascension; Pentecost; Trinity Sunday; Christ the King; then
/// `rcl_ordinary`.
pub open spec fn rcl_lent_easter(x: int, track: RclTrack) -> InfoView {
    let year = year_of(x);
    let ly = lectionary_year_text(x);
    let e = easter_day(year);
    let adv = advent_day(year);
    if e - 42 <= x <= e - 7 && (e - x) % 7 == 0 {
        let w = (7 - (e - x) / 7) as nat;
        if w == 6 {
            rcl_result(track, ly, "Palm Sunday"@, "Palm / Passion Sunday, Year "@ + ly, "PalmSunday"@, None)
        } else {
            rcl_result(track, ly, "Lent"@, numbered_label("Lent "@, w, ly), "Lent"@ + decimal_text(w), None)
        }
    } else if x == e {
        rcl_result(track, ly, "Easter"@, "Easter Sunday, Year "@ + ly, "Easter"@, None)
    } else if e + 7 <= x <= e + 42 && (x - e) % 7 == 0 {
        let w = ((x - e) / 7 + 1) as nat;
        if w == 7 {
            rcl_result(track, ly, "Easter"@, "Easter 7 (Ascension Sunday), Year "@ + ly, "Easter7"@, None)
        } else {
            rcl_result(track, ly, "Easter"@, numbered_label("Easter "@, w, ly), "Easter"@ + decimal_text(w), None)
        }
    } else if x == e + 39 {
        rcl_result(track, ly, "Easter"@, "Ascension of the Lord"@, "Ascension"@, None)
    } else if x == e + 49 {
        rcl_result(track, ly, "Pentecost"@, "Day of Pentecost, Year "@ + ly, "Pentecost"@, None)
    } else if x == e + 56 {
        rcl_result(track, ly, "Trinity"@, "Trinity Sunday, Year "@ + ly, "Trinity"@, None)
    } else if x == adv - 7 {
        rcl_result(
            track,
            ly,
            "Christ the King"@,
            "Reign of Christ / Christ the King, Year "@ + ly,
            "Proper29"@,
            None,
        )
    } else {
        rcl_ordinary(x, track)
    }
}

/// `rcl_info` for the rest of the year: the Propers after Trinity Sunday; the
/// Propers of last year's Ordinary Time before Ash Wednesday, read from that
/// cycle year; otherwise plain Ordinary Time with no readings.
pub open spec fn rcl_ordinary(x: int, track: RclTrack) -> InfoView {
    let year = year_of(x);
    let ly = lectionary_year_text(x);
    let e = easter_day(year);
    let adv = advent_day(year);
    let prev_trinity = easter_day(year - 1) + 56;
    if e + 56 < x < adv && proper_of(x) is Some {
        let p = proper_of(x)->0;
        let label = if p == 29 {
            "Christ the King"@
        } else {
            "Ordinary "@ + decimal_text(p as nat)
        };
        rcl_result(track, ly, "Ordinary"@, label + ", Year "@ + ly, "Proper"@ + decimal_text(p as nat), None)
    } else if prev_trinity <= x < e - 46 && proper_of(x) is Some {
        let p = proper_of(x)->0;
        rcl_result(
            track,
            ly,
            "Ordinary"@,
            numbered_label("Ordinary "@, p as nat, ly),
            "Proper"@ + decimal_text(p as nat),
            Some(ly),
        )
    } else {
        InfoView {
            season: "Ordinary"@,
            week: "Ordinary Time"@,
            year: ly,
            colour: colour_of("Ordinary"@).0,
            colour_hex: colour_of("Ordinary"@).1,
            ot: "—"@,
            psalm: "—"@,
            epistle: "—"@,
            gospel: "—"@,
            found: false,
        }
    }
}

// ---------------------------------------------------------------------------
// What every result holds.

/// A colour pair of the colour table, or the green of an unknown season.
pub open spec fn colour_listed(colour: Seq<char>, hex: Seq<char>) -> bool {
    (exists|i: usize| i < COLOUR_ROWS && #[trigger] colour_row(i).1 == (colour, hex)) || (
    colour, hex) == ("Green"@, "#15803D"@)
}

/// The fields of a result agree with one another: its year is the
/// lectionary year `ly`; it was found exactly when its gospel is a
/// citation rather than "—"; a result not found has "—" for its epistle and
/// gospel, and on the Semicontinuous track for every reading; and its
/// colour is a pair of the colour table or the default green.
pub open spec fn fields_agree(v: InfoView, ly: Seq<char>, track: RclTrack) -> bool {
    &&& v.year == ly
    &&& (v.found <==> v.gospel != "—"@)
    &&& !v.found ==> v.epistle == "—"@ && v.gospel == "—"@
    &&& (!v.found && track == RclTrack::Semicontinuous) ==> v.ot == "—"@ && v.psalm == "—"@
    &&& colour_listed(v.colour, v.colour_hex)
}

proof fn lemma_colour_scan_found(key: Seq<char>, i: int)
    requires
        0 <= i,
    ensures
        colour_scan(key, i) matches Some(j) ==> i <= j < COLOUR_ROWS,
    decreases COLOUR_ROWS - i,
{
    if i < COLOUR_ROWS {
        lemma_colour_scan_found(key, i + 1);
    }
}

proof fn lemma_colour_listed(key: Seq<char>)
    ensures
        colour_listed(colour_of(key).0, colour_of(key).1),
{
    lemma_colour_scan_found(key, 0);
    if let Some(j) = colour_scan(key, 0) {
        assert(colour_row(j as usize).1 == (colour_of(key).0, colour_of(key).1));
    }
}

proof fn lemma_result_fields(
    track: RclTrack,
    ly: Seq<char>,
    season: Seq<char>,
    week: Seq<char>,
    id: Seq<char>,
    yk: Option<Seq<char>>,
)
    ensures
        fields_agree(rcl_result(track, ly, season, week, id, yk), ly, track),
{
    let key = match yk {
        Some(k) => k,
        None => ly,
    };
    lemma_colour_listed(season);
    lemma_rcl_scan_found(key, id, 0);
    lemma_rcl_scan_found("ALL"@, id, 0);
    match rcl_scan(key, id, 0) {
        Some(i) => lemma_gospels_cited(i as usize),
        None => match rcl_scan("ALL"@, id, 0) {
            Some(i) => lemma_gospels_cited(i as usize),
            None => {},
        },
    }
}

/// Whatever the date and track, the fields of the Revised Common
/// Lectionary's result agree with one another: the year is the date's
/// lectionary year, one of "A", "B" and "C"; the result was found exactly
/// when its gospel is not "—"; a result not found has "—" for every
/// reading of the Semicontinuous track, and for the epistle and gospel of
/// either track; and the colour pair is one of the colour table or the
/// default green.
pub proof fn lemma_rcl_info_fields(x: int, track: RclTrack)
    ensures
        fields_agree(rcl_info(x, track), lectionary_year_text(x), track),
        lectionary_year_text(x) == seq!['A'] || lectionary_year_text(x) == seq!['B']
            || lectionary_year_text(x) == seq!['C'],
{
    assert forall|tr: RclTrack, ly: Seq<char>, s: Seq<char>, w: Seq<char>, id: Seq<char>, yk: Option<Seq<char>>|
        fields_agree(#[trigger] rcl_result(tr, ly, s, w, id, yk), ly, tr) by {
        lemma_result_fields(tr, ly, s, w, id, yk);
    }
    lemma_colour_listed("Christmas"@);
    lemma_colour_listed("Ordinary"@);
    reveal_strlit("—");
    reveal_strlit("Luke 2:1–14");
    reveal_strlit("Matt 2:1–12");
    assert("Luke 2:1–14"@.len() > 1);
    assert("Matt 2:1–12"@.len() > 1);
}

/// The years the Revised Common Lectionary answers for: one after the
/// earliest year and before the last, where the computus gives a real date
/// for the year and the year before it (always so from year 1 on).
pub open spec fn rcl_year_ok(y: int) -> bool {
    &&& crate::date::MIN_YEAR < y < MAX_YEAR
    &&& easter_defined(y)
    &&& easter_defined(y - 1)
}

proof fn lemma_rcl_scan_none(key: Seq<char>, id: Seq<char>, i: int)
    requires
        0 <= i,
        forall|k: int|
            i <= k < RCL_ROWS ==> !(#[trigger] rcl_row(k as usize).0 == key && rcl_row(k as usize).1
                == id),
    ensures
        rcl_scan(key, id, i) is None,
    decreases RCL_ROWS - i,
{
    if i < RCL_ROWS {
        lemma_rcl_scan_none(key, id, i + 1);
    }
}

proof fn lemma_rcl_scan_first(key: Seq<char>, id: Seq<char>, i: int, j: int)
    requires
        0 <= i <= j < RCL_ROWS,
        rcl_row(j as usize).0 == key && rcl_row(j as usize).1 == id,
        forall|k: int|
            i <= k < j ==> !(#[trigger] rcl_row(k as usize).0 == key && rcl_row(k as usize).1 == id),
    ensures
        rcl_scan(key, id, i) == Some(j),
    decreases j - i,
{
    if i < j {
        lemma_rcl_scan_first(key, id, i + 1, j);
    }
}

/// The Ascension is kept on the fortieth day of Easter, counting Easter
/// Sunday as the first: for every year whose Easter the computus gives, the
/// Revised Common Lectionary answers for the day 39 days after Easter with
/// the Ascension of the Lord in the Easter season and its readings (Acts
/// 1:1–11, Psalm 47, Ephesians 1:15–23, Luke 24:44–53). From year 0 on,
/// where Easter is a Sunday, that day is a Thursday.
#[verifier::spinoff_prover]
pub proof fn lemma_ascension_day(y: int)
    requires
        crate::date::MIN_YEAR <= y <= MAX_YEAR,
        easter_defined(y),
    ensures
        ({
            let v = rcl_info(easter_day(y) + 39, RclTrack::Semicontinuous);
            &&& v.season == "Easter"@
            &&& v.week == "Ascension of the Lord"@
            &&& v.found
            &&& v.ot == "Acts 1:1–11"@
            &&& v.psalm == "Ps 47"@
            &&& v.epistle == "Eph 1:15–23"@
            &&& v.gospel == "Luke 24:44–53"@
        }),
        y >= 0 ==> weekday_of(easter_day(y) + 39) == 3,
{
    let e = easter_day(y);
    let x = e + 39;
    lemma_easter_window(y);
    lemma_month_offsets(y);
    crate::date::lemma_year_of_day(y, x);
    lemma_rcl_info_fields(x, RclTrack::Semicontinuous);
    let ly = lectionary_year_text(x);
    reveal_strlit("ALL");
    assert("ALL"@.len() == 3);
    assert forall|k: int| 0 <= k < RCL_ROWS implies !(#[trigger] rcl_row(k as usize).0 == ly
        && rcl_row(k as usize).1 == "Ascension"@) by {
        lemma_ascension_row(k as usize);
        lemma_ascension_row(82);
    }
    lemma_rcl_scan_none(ly, "Ascension"@, 0);
    assert forall|k: int| 0 <= k < 82 implies !(#[trigger] rcl_row(k as usize).0 == "ALL"@
        && rcl_row(k as usize).1 == "Ascension"@) by {
        lemma_ascension_row(k as usize);
    }
    lemma_ascension_row(82);
    lemma_rcl_scan_first("ALL"@, "Ascension"@, 0, 82);
    if y >= 0 {
        crate::lectionary::calendar::lemma_easter_on_sunday(y);
        crate::date::lemma_weekday_shift(e, 39);
    }
}

/// The days of Holy Week, Easter and after, counted from Easter Sunday: from
/// year 0 on, the Revised Common Lectionary answers for Ash Wednesday 46
/// days before Easter, Palm Sunday 7 days before, Maundy Thursday 3 days
/// before, Good Friday 2 days before, Easter Sunday itself, the Day of
/// Pentecost 49 days after and Trinity Sunday 56 days after, each with its
/// season and week, on either track.
#[verifier::spinoff_prover]
pub proof fn lemma_rcl_easter_days(y: int, track: RclTrack)
    requires
        0 <= y < MAX_YEAR,
    ensures
        ({
            let e = easter_day(y);
            &&& rcl_info(e - 46, track).season == "Lent"@
            &&& rcl_info(e - 46, track).week == "Ash Wednesday"@
            &&& rcl_info(e - 7, track).season == "Palm Sunday"@
            &&& rcl_info(e - 7, track).week == "Palm / Passion Sunday, Year "@
                + lectionary_year_text(e - 7)
            &&& rcl_info(e - 3, track).season == "Holy Thursday"@
            &&& rcl_info(e - 3, track).week == "Maundy Thursday"@
            &&& rcl_info(e - 2, track).season == "Good Friday"@
            &&& rcl_info(e - 2, track).week == "Good Friday"@
            &&& rcl_info(e, track).season == "Easter"@
            &&& rcl_info(e, track).week == "Easter Sunday, Year "@ + lectionary_year_text(e)
            &&& rcl_info(e + 49, track).season == "Pentecost"@
            &&& rcl_info(e + 49, track).week == "Day of Pentecost, Year "@ + lectionary_year_text(
                e + 49,
            )
            &&& rcl_info(e + 56, track).season == "Trinity"@
            &&& rcl_info(e + 56, track).week == "Trinity Sunday, Year "@ + lectionary_year_text(
                e + 56,
            )
        }),
{
    let e = easter_day(y);
    crate::lectionary::calendar::lemma_easter_in_spring(y);
    lemma_month_offsets(y);
    crate::date::lemma_year_of_day(y, e - 46);
    crate::date::lemma_year_of_day(y, e - 7);
    crate::date::lemma_year_of_day(y, e - 3);
    crate::date::lemma_year_of_day(y, e - 2);
    crate::date::lemma_year_of_day(y, e);
    crate::date::lemma_year_of_day(y, e + 49);
    crate::date::lemma_year_of_day(y, e + 56);
}

/// Facts about the year of a date that the stages below rely on.
proof fn lemma_year_facts(x: int)
    requires
        rcl_year_ok(year_of(x)),
    ensures
        ({
            let y = year_of(x);
            &&& civil_days(y, 1, 1) + 40 <= easter_day(y) <= civil_days(y, 1, 1) + 122
            &&& in_day_range(civil_days(y, 1, 1))
            &&& in_day_range(civil_days(y, 1, 3))
            &&& in_day_range(civil_days(y, 1, 9))
            &&& in_day_range(civil_days(y, 12, 31) + 7)
            &&& civil_days(y, 1, 3) == civil_days(y, 1, 6) - 3
            &&& civil_days(y, 1, 9) == civil_days(y, 1, 6) + 3
        }),
{
    let y = year_of(x);
    lemma_month_offsets(y);
    lemma_month_offsets(y + 1);
    lemma_day_range(y, 1, 1);
    lemma_day_range(y, 1, 3);
    lemma_day_range(y, 1, 9);
    lemma_day_range(y + 1, 1, 7);
    lemma_year_end(y);
    lemma_easter_window(y);
}

/// Season, week, colour and readings of the Revised Common Lectionary for
/// `d` (see `rcl_info` for the order in which the calendar is consulted),
/// with the Old Testament and Psalm of the Semicontinuous track.
pub fn get_liturgical_info(d: Date) -> (r: LiturgicalInfo)
    requires
        rcl_year_ok(year_of(d@)),
    ensures
        r@ == rcl_info(d@, RclTrack::Semicontinuous),
{
    liturgical_info_for_track(d, RclTrack::Semicontinuous)
}

/// `get_liturgical_info` on the given Old Testament/Psalm track.
pub fn liturgical_info_for_track(d: Date, track: RclTrack) -> (r: LiturgicalInfo)
    requires
        rcl_year_ok(year_of(d@)),
    ensures
        r@ == rcl_info(d@, track),
{
    let year = d.year();
    let ly = lectionary_year(d);
    let x = d.days();
    let e_date = easter(year);
    let e = e_date.days();
    let adv = advent_sunday(year).days();
    if x == e - 2 {
        return result_for(track, ly, "Good Friday", "Good Friday", "GoodFriday", None);
    }
    if x == e - 3 {
        return result_for(track, ly, "Holy Thursday", "Maundy Thursday", "HolyThursday", None);
    }
    if x == e - 46 {
        return result_for(track, ly, "Lent", "Ash Wednesday", "AshWednesday", None);
    }
    if adv <= x && x <= adv + 21 && ((x - adv) as u32) % 7 == 0 {
        let n: u64 = ((x - adv) as u32 / 7 + 1) as u64;
        let label = make_numbered_label("Advent ", n, ly);
        let id = id_with_number("Advent", n);
        return result_for(track, ly, "Advent", label.as_str(), id.as_str(), None);
    }
    christmas_epiphany(track, d, ly, e_date)
}

fn christmas_epiphany(track: RclTrack, d: Date, ly: &'static str, e_date: Date) -> (r: LiturgicalInfo)
    requires
        rcl_year_ok(year_of(d@)),
        ly@ == lectionary_year_text(d@),
        e_date@ == easter_day(year_of(d@)),
    ensures
        r@ == rcl_christmas_epiphany(d@, track),
{
    let year = d.year();
    let x = d.days();
    let xmas = Date::from_ymd(year, 12, 25).unwrap().days();
    let dec31 = Date::from_ymd(year, 12, 31).unwrap().days();
    if xmas <= x && x <= dec31 {
        christmastide(track, d, ly)
    } else {
        epiphany_season(track, d, ly, e_date)
    }
}

#[verifier::spinoff_prover]
#[verifier::rlimit(40)]
fn christmastide(track: RclTrack, d: Date, ly: &'static str) -> (r: LiturgicalInfo)
    requires
        rcl_year_ok(year_of(d@)),
        ly@ == lectionary_year_text(d@),
        civil_days(year_of(d@), 12, 25) <= d@ <= civil_days(year_of(d@), 12, 31),
    ensures
        r@ == rcl_christmastide(d@, track),
{
    proof {
        lemma_year_facts(d@);
    }
    let xmas = Date::from_ymd(d.year(), 12, 25).unwrap().days();
    if d.days() == xmas {
        return fixed_info(
            ly,
            "Christmas",
            "Christmas Day",
            "Christmas",
            ("Isa 9:2–7", "Ps 96", "Titus 2:11–14", "Luke 2:1–14"),
            true,
        );
    }
    let to_next_sunday: i64 = 6 - python_weekday(d);
    let next_sun = d.add_days(to_next_sunday as i32);
    if next_sun.month() == 12 {
        let label = make_numbered_label("Christmas ", 1, ly);
        let id = joined("Christmas1", ly);
        return result_for(track, ly, "Christmas", label.as_str(), id.as_str(), None);
    }
    proof {
        reveal_strlit("—");
    }
    fixed_info(ly, "Christmas", "Christmastide", "Christmas", ("—", "—", "—", "—"), false)
}

/// A Sunday after `day` is on or after the Sunday nearest `day`.
proof fn lemma_sunday_after_nearest(x: int, day: int)
    requires
        weekday_of(x) == 6,
        x > day,
    ensures
        x >= nearest_sunday_day(day),
{
}

#[verifier::spinoff_prover]
fn epiphany_season(track: RclTrack, d: Date, ly: &'static str, e_date: Date) -> (r: LiturgicalInfo)
    requires
        rcl_year_ok(year_of(d@)),
        ly@ == lectionary_year_text(d@),
        e_date@ == easter_day(year_of(d@)),
    ensures
        r@ == rcl_epiphany(d@, track),
{
    proof {
        lemma_year_facts(d@);
    }
    let year = d.year();
    let x = d.days();
    let ash_wed = e_date.days() - 46;
    let jan1 = Date::from_ymd(year, 1, 1).unwrap().days();
    let jan5 = Date::from_ymd(year, 1, 5).unwrap().days();
    let sunday = is_sunday(d);
    if jan1 <= x && x <= jan5 && sunday {
        return result_for(track, ly, "Christmas", "Christmas 2", "Christmas2", None);
    }
    let epiphany_date = Date::from_ymd(year, 1, 6).unwrap();
    let epiphany = epiphany_date.days();
    if x == epiphany {
        return fixed_info(
            ly,
            "Epiphany",
            "Epiphany (Jan 6)",
            "Christmas",
            ("Isa 60:1–6", "Ps 72:1–7, 10–14", "Eph 3:1–12", "Matt 2:1–12"),
            true,
        );
    }
    let ep1 = nearest_sunday(epiphany_date).days();
    if x == ep1 {
        let label = joined("Baptism of the Lord, Year ", ly);
        return result_for(track, ly, "Baptism", label.as_str(), "Epiphany1", None);
    }
    let transfig = sunday_on_or_before(e_date.add_days(-47)).days();
    if x == transfig {
        let label = joined("Transfiguration, Year ", ly);
        return result_for(track, ly, "Transfiguration", label.as_str(), "Transfiguration", None);
    }
    if epiphany < x && x < ash_wed && sunday {
        proof {
            lemma_sunday_after_nearest(x as int, epiphany as int);
        }
        let weeks_after: u32 = (x - ep1) as u32 / 7;
        if weeks_after <= 7 {
            let n: u64 = (weeks_after + 1) as u64;
            let label = make_numbered_label("Epiphany ", n, ly);
            let id = id_with_number("Epiphany", n);
            return result_for(track, ly, "Epiphany", label.as_str(), id.as_str(), None);
        }
    }
    lent_easter(track, d, ly, e_date)
}

fn lent_easter(track: RclTrack, d: Date, ly: &'static str, e_date: Date) -> (r: LiturgicalInfo)
    requires
        rcl_year_ok(year_of(d@)),
        ly@ == lectionary_year_text(d@),
        e_date@ == easter_day(year_of(d@)),
    ensures
        r@ == rcl_lent_easter(d@, track),
{
    let year = d.year();
    let x = d.days();
    let e = e_date.days();
    let adv = advent_sunday(year).days();
    if e - 42 <= x && x <= e - 7 && ((e - x) as u32) % 7 == 0 {
        let w: u64 = (7 - (e - x) as u32 / 7) as u64;
        if w == 6 {
            let label = joined("Palm / Passion Sunday, Year ", ly);
            return result_for(track, ly, "Palm Sunday", label.as_str(), "PalmSunday", None);
        }
        let label = make_numbered_label("Lent ", w, ly);
        let id = id_with_number("Lent", w);
        return result_for(track, ly, "Lent", label.as_str(), id.as_str(), None);
    }
    if x == e {
        let label = joined("Easter Sunday, Year ", ly);
        return result_for(track, ly, "Easter", label.as_str(), "Easter", None);
    }
    if e + 7 <= x && x <= e + 42 && ((x - e) as u32) % 7 == 0 {
        let w: u64 = ((x - e) as u32 / 7 + 1) as u64;
        if w == 7 {
            let label = joined("Easter 7 (Ascension Sunday), Year ", ly);
            return result_for(track, ly, "Easter", label.as_str(), "Easter7", None);
        }
        let label = make_numbered_label("Easter ", w, ly);
        let id = id_with_number("Easter", w);
        return result_for(track, ly, "Easter", label.as_str(), id.as_str(), None);
    }
    if x == e + 39 {
        return result_for(track, ly, "Easter", "Ascension of the Lord", "Ascension", None);
    }
    if x == e + 49 {
        let label = joined("Day of Pentecost, Year ", ly);
        return result_for(track, ly, "Pentecost", label.as_str(), "Pentecost", None);
    }
    if x == e + 56 {
        let label = joined("Trinity Sunday, Year ", ly);
        return result_for(track, ly, "Trinity", label.as_str(), "Trinity", None);
    }
    if x == adv - 7 {
        let label = joined("Reign of Christ / Christ the King, Year ", ly);
        return result_for(track, ly, "Christ the King", label.as_str(), "Proper29", None);
    }
    ordinary(track, d, ly, e_date)
}

fn ordinary(track: RclTrack, d: Date, ly: &'static str, e_date: Date) -> (r: LiturgicalInfo)
    requires
        rcl_year_ok(year_of(d@)),
        ly@ == lectionary_year_text(d@),
        e_date@ == easter_day(year_of(d@)),
    ensures
        r@ == rcl_ordinary(d@, track),
{
    let year = d.year();
    let x = d.days();
    let e = e_date.days();
    let adv = advent_sunday(year).days();
    proof {
        if year == 0 {
            assert(easter_month_day(-1) == (3int, 20int));
        }
    }
    let prev_trinity = easter(year - 1).days() + 56;
    let proper = proper_for_date(d);
    if e + 56 < x && x < adv {
        if let Some(p) = proper {
            let label = if p == 29 {
                owned("Christ the King")
            } else {
                id_with_number("Ordinary ", p as u64)
            };
            let week = joined(label.as_str(), ", Year ");
            let week = joined(week.as_str(), ly);
            let id = id_with_number("Proper", p as u64);
            return result_for(track, ly, "Ordinary", week.as_str(), id.as_str(), None);
        }
    }
    if prev_trinity <= x && x < e - 46 {
        if let Some(p) = proper {
            let label = make_numbered_label("Ordinary ", p as u64, ly);
            let id = id_with_number("Proper", p as u64);
            return result_for(track, ly, "Ordinary", label.as_str(), id.as_str(), Some(ly));
        }
    }
    proof {
        reveal_strlit("—");
    }
    fixed_info(ly, "Ordinary", "Ordinary Time", "Ordinary", ("—", "—", "—", "—"), false)
}

} // verus!
