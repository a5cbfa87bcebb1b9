//! The Narrative Lectionary: a four-year cycle, one gospel a year, each
//! program year running from the Sunday after Labor Day to Pentecost. The
//! Fall is indexed by Sundays counted from Labor Day; Advent through
//! Pentecost follows the Western calendar and finds each week by its
//! season label; the summer lies outside the cycle and only the 2026
//! series is known.

use vstd::prelude::*;

use crate::date::{
    civil_days, in_day_range, lemma_day_range, lemma_month_offsets, valid_ymd, weekday_of, year_of,
    Date, MAX_YEAR,
};
use crate::lectionary::calendar::{
    advent_day, advent_sunday, easter, easter_day, easter_defined, is_sunday, lemma_easter_window,
    nearest_sunday, nearest_sunday_day, sunday_on_or_before, sunday_on_or_before_day,
};
use crate::lectionary::narrative_data::{
    summer_2026_at, summer_2026_week, week_at, week_of, year_len, year_len_of, ProgramYear,
    SummerWeek, Week, WeekView, SUMMER_2026_LEN,
};
use crate::lectionary::{pairs_view, LitView, LiturgicalInfo};
use crate::rcl::{colour_for, colour_of, id_with_number, joined};
use crate::text::{
    contains, contains_text, decimal_text, owned, parse_i32, parse_i32_text, split_char, split_on,
    str_eq,
};

verus! {

// ---------------------------------------------------------------------------
// Labels.

pub open spec fn ordinal_text(n: int) -> Seq<char> {
    if n == 1 {
        "First"@
    } else if n == 2 {
        "Second"@
    } else if n == 3 {
        "Third"@
    } else if n == 4 {
        "Fourth"@
    } else if n == 5 {
        "Fifth"@
    } else if n == 6 {
        "Sixth"@
    } else if n == 7 {
        "Seventh"@
    } else if n == 8 {
        "Eighth"@
    } else if n == 9 {
        "Ninth"@
    } else {
        "Nth"@
    }
}

/// "First" to "Ninth", and "Nth" past them.
fn ordinal(n: i64) -> (r: &'static str)
    ensures
        r@ == ordinal_text(n as int),
{
    if n == 1 {
        "First"
    } else if n == 2 {
        "Second"
    } else if n == 3 {
        "Third"
    } else if n == 4 {
        "Fourth"
    } else if n == 5 {
        "Fifth"
    } else if n == 6 {
        "Sixth"
    } else if n == 7 {
        "Seventh"
    } else if n == 8 {
        "Eighth"
    } else if n == 9 {
        "Ninth"
    } else {
        "Nth"
    }
}

// ---------------------------------------------------------------------------
// The program year.

/// Day number of Labor Day (the first Monday of September) in `year`.
pub open spec fn labor_day_day(year: int) -> int {
    let sep1 = civil_days(year, 9, 1);
    sep1 + (7 - weekday_of(sep1)) % 7
}

/// US Labor Day: the first Monday of September.
pub fn labor_day(year: i32) -> (r: Date)
    requires
        crate::date::MIN_YEAR <= year <= MAX_YEAR,
    ensures
        r@ == labor_day_day(year as int),
        weekday_of(r@) == 0,
        civil_days(year as int, 9, 1) <= r@ <= civil_days(year as int, 9, 7),
{
    proof {
        lemma_month_offsets(year as int);
        lemma_day_range(year as int, 9, 7);
    }
    let sep1 = Date::from_ymd(year, 9, 1).unwrap();
    let offset: u32 = (7 - sep1.weekday_from_monday()) % 7;
    proof {
        crate::date::lemma_weekday_shift(sep1@, offset as int);
    }
    sep1.add_days(offset as i32)
}

/// The program year holding `days`: the year whose Labor Day is the last on
/// or before it.
pub open spec fn program_year_of(days: int) -> int {
    if days >= labor_day_day(year_of(days)) {
        year_of(days)
    } else {
        year_of(days) - 1
    }
}

/// The program year of `d`: a date before Labor Day belongs to the program
/// year that began the previous September.
pub fn program_year(d: Date) -> (r: i32)
    ensures
        r == program_year_of(d@),
{
    let y = d.year();
    if d.days() >= labor_day(y).days() {
        y
    } else {
        y - 1
    }
}

/// Which gospel year a program year is: 2023 began a Mark year, and the
/// cycle repeats every four years.
pub open spec fn cycle_year(py: int) -> ProgramYear {
    let i = (py - 2023) % 4;
    if i == 0 {
        ProgramYear::Mark
    } else if i == 1 {
        ProgramYear::Luke
    } else if i == 2 {
        ProgramYear::John
    } else {
        ProgramYear::Matthew
    }
}

pub open spec fn year_label(y: ProgramYear) -> Seq<char> {
    match y {
        ProgramYear::Matthew => "1 (Matthew)"@,
        ProgramYear::Mark => "2 (Mark)"@,
        ProgramYear::Luke => "3 (Luke)"@,
        ProgramYear::John => "4 (John)"@,
    }
}

/// The weeks of a program year, in order.
pub open spec fn year_table(y: ProgramYear) -> Seq<WeekView> {
    Seq::new(year_len(y), |i: int| week_of(y, i as usize))
}

pub open spec fn weeks_view(v: Seq<Week>) -> Seq<WeekView> {
    v.map_values(|w: Week| w@)
}

/// All weeks of one program year.
pub fn weeks_of(y: ProgramYear) -> (r: Vec<Week>)
    ensures
        weeks_view(r@) == year_table(y),
{
    let n = year_len_of(y);
    let mut v: Vec<Week> = Vec::new();
    let mut i: usize = 0;
    while i < n
        invariant
            n == year_len(y),
            i <= n,
            weeks_view(v@) == year_table(y).take(i as int),
        decreases n - i,
    {
        let w = week_at(y, i);
        let ghost before = weeks_view(v@);
        v.push(w);
        assert(year_table(y)[i as int] == week_of(y, i));
        assert(weeks_view(v@) =~= before.push(w@));
        assert(weeks_view(v@) =~= year_table(y).take(i + 1));
        i = i + 1;
    }
    assert(year_table(y).take(n as int) =~= year_table(y));
    v
}

/// Year 1 of the cycle, Matthew.
pub fn year1_matthew() -> (r: Vec<Week>)
    ensures
        weeks_view(r@) == year_table(ProgramYear::Matthew),
{
    weeks_of(ProgramYear::Matthew)
}

/// Year 2 of the cycle, Mark.
pub fn year2_mark() -> (r: Vec<Week>)
    ensures
        weeks_view(r@) == year_table(ProgramYear::Mark),
{
    weeks_of(ProgramYear::Mark)
}

/// Year 3 of the cycle, Luke.
pub fn year3_luke() -> (r: Vec<Week>)
    ensures
        weeks_view(r@) == year_table(ProgramYear::Luke),
{
    weeks_of(ProgramYear::Luke)
}

/// Year 4 of the cycle, John.
pub fn year4_john() -> (r: Vec<Week>)
    ensures
        weeks_view(r@) == year_table(ProgramYear::John),
{
    weeks_of(ProgramYear::John)
}

/// The label ("1 (Matthew)" to "4 (John)") and the weeks of a program year.
pub fn weeks_for_program_year(program_year: i32) -> (r: (&'static str, Vec<Week>))
    ensures
        r.0@ == year_label(cycle_year(program_year as int)),
        weeks_view(r.1@) == year_table(cycle_year(program_year as int)),
{
    let v: i64 = (program_year as i64) - 2023 + 4000000000;
    let i = v % 4;
    assert(i == (program_year - 2023) % 4);
    if i == 0 {
        ("2 (Mark)", weeks_of(ProgramYear::Mark))
    } else if i == 1 {
        ("3 (Luke)", weeks_of(ProgramYear::Luke))
    } else if i == 2 {
        ("4 (John)", weeks_of(ProgramYear::John))
    } else {
        ("1 (Matthew)", weeks_of(ProgramYear::Matthew))
    }
}

// ---------------------------------------------------------------------------
// Finding weeks.

/// Index of the first week at or after `i` whose season contains `needle`
/// (equals it, when `exact`).
pub open spec fn season_scan(weeks: Seq<WeekView>, needle: Seq<char>, exact: bool, i: int) -> Option<
    int,
>
    decreases weeks.len() - i,
{
    if i < 0 || i >= weeks.len() {
        None
    } else if (exact && weeks[i].season == needle) || (!exact && contains_text(
        weeks[i].season,
        needle,
    )) {
        Some(i)
    } else {
        season_scan(weeks, needle, exact, i + 1)
    }
}

pub proof fn lemma_season_scan(weeks: Seq<WeekView>, needle: Seq<char>, exact: bool, i: int)
    requires
        0 <= i,
    ensures
        season_scan(weeks, needle, exact, i) matches Some(j) ==> i <= j < weeks.len(),
    decreases weeks.len() - i,
{
    if i < weeks.len() {
        lemma_season_scan(weeks, needle, exact, i + 1);
    }
}

fn scan_seasons(weeks: &[Week], needle: &str, exact: bool) -> (r: Option<usize>)
    ensures
        match r {
            Some(i) => season_scan(weeks_view(weeks@), needle@, exact, 0) == Some(i as int),
            None => season_scan(weeks_view(weeks@), needle@, exact, 0) is None,
        },
{
    let mut i: usize = 0;
    while i < weeks.len()
        invariant
            i <= weeks@.len(),
            season_scan(weeks_view(weeks@), needle@, exact, 0) == season_scan(
                weeks_view(weeks@),
                needle@,
                exact,
                i as int,
            ),
        decreases weeks@.len() - i,
    {
        let season = weeks[i].season;
        let hit = if exact {
            str_eq(season, needle)
        } else {
            contains(season, needle)
        };
        if hit {
            return Some(i);
        }
        i = i + 1;
    }
    None
}

/// How many weeks the Fall takes: the index of the first week whose season
/// mentions "Sunday of Advent", or all of them.
pub open spec fn fall_len_of(weeks: Seq<WeekView>) -> int {
    match season_scan(weeks, "Sunday of Advent"@, false, 0) {
        Some(i) => i,
        None => weeks.len() as int,
    }
}

fn fall_len(weeks: &[Week]) -> (r: usize)
    ensures
        r == fall_len_of(weeks_view(weeks@)),
{
    proof {
        lemma_season_scan(weeks_view(weeks@), "Sunday of Advent"@, false, 0);
    }
    let r = scan_seasons(weeks, "Sunday of Advent", false);
    match r {
        Some(i) => {
            assert(season_scan(weeks_view(weeks@), "Sunday of Advent"@, false, 0) == Some(i as int));
            i
        },
        None => {
            assert(weeks_view(weeks@).len() == weeks@.len());
            weeks.len()
        },
    }
}

/// The first week whose season is exactly `season`.
fn find_exact<'a>(weeks: &'a [Week], season: &str) -> (r: Option<&'a Week>)
    ensures
        match season_scan(weeks_view(weeks@), season@, true, 0) {
            Some(j) => r matches Some(w) && w@ == weeks_view(weeks@)[j],
            None => r is None,
        },
{
    proof {
        lemma_season_scan(weeks_view(weeks@), season@, true, 0);
    }
    match scan_seasons(weeks, season, true) {
        Some(i) => Some(&weeks[i]),
        None => None,
    }
}

/// The first week whose season contains `needle`.
fn find_contains<'a>(weeks: &'a [Week], needle: &str) -> (r: Option<&'a Week>)
    ensures
        match season_scan(weeks_view(weeks@), needle@, false, 0) {
            Some(j) => r matches Some(w) && w@ == weeks_view(weeks@)[j],
            None => r is None,
        },
{
    proof {
        lemma_season_scan(weeks_view(weeks@), needle@, false, 0);
    }
    match scan_seasons(weeks, needle, false) {
        Some(i) => Some(&weeks[i]),
        None => None,
    }
}

// ---------------------------------------------------------------------------
// Results.

/// The primary texts of a week with their labels.
pub open spec fn primary_readings(w: WeekView) -> Seq<(Seq<char>, Seq<char>)> {
    Seq::new(w.primary.len(), |i: int| (primary_label(w.primary.len() as int, i), w.primary[i]))
}

pub open spec fn primary_label(n: int, i: int) -> Seq<char> {
    if n > 1 {
        "Reading "@ + decimal_text((i + 1) as nat)
    } else {
        "Reading"@
    }
}

/// Labelled readings of a week: "Reading" for a single primary text,
/// "Reading 1", "Reading 2" for several; then "Alternate" and
/// "Accompanying" where the week has them.
pub open spec fn week_readings(w: WeekView) -> Seq<(Seq<char>, Seq<char>)> {
    let primary = primary_readings(w);
    let with_alt = match w.alt_primary {
        Some(a) => primary.push(("Alternate"@, a)),
        None => primary,
    };
    match w.accompanying {
        Some(a) => with_alt.push(("Accompanying"@, a)),
        None => with_alt,
    }
}

fn readings_vec(week: &Week) -> (r: Vec<(String, String)>)
    ensures
        pairs_view(r@) == week_readings(week@),
{
    let ghost w = week@;
    let ghost primary = primary_readings(w);
    let n = week.primary.len();
    let mut out: Vec<(String, String)> = Vec::new();
    let mut i: usize = 0;
    while i < n
        invariant
            n == week.primary@.len(),
            w == week@,
            i <= n,
            primary == primary_readings(w),
            pairs_view(out@) == primary.take(i as int),
        decreases n - i,
    {
        let label = if n > 1 {
            id_with_number("Reading ", (i + 1) as u64)
        } else {
            owned("Reading")
        };
        let text = owned(week.primary[i]);
        let ghost before = pairs_view(out@);
        assert(w.primary[i as int] == text@);
        assert(primary[i as int].1 == text@);
        assert(primary[i as int].0 == label@);
        assert(primary[i as int] == (label@, text@));
        out.push((label, text));
        assert(pairs_view(out@) =~= before.push(primary[i as int]));
        assert(pairs_view(out@) =~= primary.take(i + 1));
        i = i + 1;
    }
    assert(primary.take(n as int) =~= primary);
    if let Some(alt) = week.alt_primary {
        let ghost before = pairs_view(out@);
        out.push((owned("Alternate"), owned(alt)));
        assert(pairs_view(out@) =~= before.push(("Alternate"@, alt@)));
    }
    if let Some(acc) = week.accompanying {
        let ghost before = pairs_view(out@);
        out.push((owned("Accompanying"), owned(acc)));
        assert(pairs_view(out@) =~= before.push(("Accompanying"@, acc@)));
    }
    out
}

/// The colour key of a Narrative Lectionary season label, by the first of
/// these words it mentions.
pub open spec fn season_colour_key(s: Seq<char>) -> Seq<char> {
    if contains_text(s, "Advent"@) {
        "Advent"@
    } else if contains_text(s, "Christmas"@) {
        "Christmas"@
    } else if contains_text(s, "Epiphany"@) || contains_text(s, "Baptism"@) {
        "Epiphany"@
    } else if contains_text(s, "Transfiguration"@) {
        "Transfiguration"@
    } else if contains_text(s, "Lent"@) || contains_text(s, "Ash Wednesday"@) {
        "Lent"@
    } else if contains_text(s, "Palm"@) {
        "Palm Sunday"@
    } else if contains_text(s, "Maundy"@) {
        "Holy Thursday"@
    } else if contains_text(s, "Good Friday"@) {
        "Good Friday"@
    } else if contains_text(s, "Easter"@) {
        "Easter"@
    } else if contains_text(s, "Pentecost"@) {
        "Pentecost"@
    } else if contains_text(s, "Christ the King"@) || contains_text(s, "Reign of Christ"@) {
        "Christ the King"@
    } else {
        "Ordinary"@
    }
}

fn season_key(season: &str) -> (r: &'static str)
    ensures
        r@ == season_colour_key(season@),
{
    if contains(season, "Advent") {
        "Advent"
    } else if contains(season, "Christmas") {
        "Christmas"
    } else if contains(season, "Epiphany") || contains(season, "Baptism") {
        "Epiphany"
    } else if contains(season, "Transfiguration") {
        "Transfiguration"
    } else if contains(season, "Lent") || contains(season, "Ash Wednesday") {
        "Lent"
    } else if contains(season, "Palm") {
        "Palm Sunday"
    } else if contains(season, "Maundy") {
        "Holy Thursday"
    } else if contains(season, "Good Friday") {
        "Good Friday"
    } else if contains(season, "Easter") {
        "Easter"
    } else if contains(season, "Pentecost") {
        "Pentecost"
    } else if contains(season, "Christ the King") || contains(season, "Reign of Christ") {
        "Christ the King"
    } else {
        "Ordinary"
    }
}

/// The liturgical colour for a season label.
fn narrative_colour(season: &str) -> (r: (&'static str, &'static str))
    ensures
        (r.0@, r.1@) == colour_of(season_colour_key(season@)),
{
    colour_for(season_key(season))
}

pub open spec fn narrative_result(year_label: Seq<char>, w: WeekView) -> LitView {
    let c = colour_of(season_colour_key(w.season));
    LitView {
        season: w.season,
        week: w.title + " · Year "@ + year_label,
        year: year_label,
        colour: c.0,
        colour_hex: c.1,
        readings: week_readings(w),
        found: true,
    }
}

fn result_for(year_label: &str, week: &Week) -> (r: LiturgicalInfo)
    ensures
        r@ == narrative_result(year_label@, week@),
{
    let (colour_name, colour_hex) = narrative_colour(week.season);
    let label = joined(week.title, " · Year ");
    let label = joined(label.as_str(), year_label);
    LiturgicalInfo {
        season: owned(week.season),
        week: label,
        year: owned(year_label),
        colour: owned(colour_name),
        colour_hex: owned(colour_hex),
        readings: readings_vec(week),
        found: true,
    }
}

pub open spec fn not_found_view() -> LitView {
    LitView {
        season: "Narrative"@,
        week: "No Narrative Lectionary reading for this date"@,
        year: seq![],
        colour: "Green"@,
        colour_hex: "#15803D"@,
        readings: seq![],
        found: false,
    }
}

fn not_found() -> (r: LiturgicalInfo)
    ensures
        r@ == not_found_view(),
{
    let r = LiturgicalInfo {
        season: owned("Narrative"),
        week: owned("No Narrative Lectionary reading for this date"),
        year: String::new(),
        colour: owned("Green"),
        colour_hex: owned("#15803D"),
        readings: Vec::new(),
        found: false,
    };
    assert(r@.readings =~= Seq::<(Seq<char>, Seq<char>)>::empty());
    r
}

// ---------------------------------------------------------------------------
// The summer series.

/// The parts of a text split on '/' that parse as integers, in order.
pub open spec fn parsed_parts(parts: Seq<Seq<char>>) -> Seq<i32>
    decreases parts.len(),
{
    if parts.len() == 0 {
        seq![]
    } else {
        let rest = parsed_parts(parts.drop_last());
        match parse_i32_text(parts.last()) {
            Some(v) => rest.push(v),
            None => rest,
        }
    }
}

/// The day number of a `month/day/year` text, or `None` when it does not
/// name a date.
pub open spec fn us_date(s: Seq<char>) -> Option<int> {
    let p = parsed_parts(split_on(s, '/'));
    if p.len() == 3 && valid_ymd(p[2] as int, p[0] as int, p[1] as int) {
        Some(civil_days(p[2] as int, p[0] as int, p[1] as int))
    } else {
        None
    }
}

/// Reads a `month/day/year` date; parts that are not integers are skipped.
fn parse_us_date(s: &str) -> (r: Option<Date>)
    ensures
        match us_date(s@) {
            Some(n) => r matches Some(d) && d@ == n,
            None => r is None,
        },
{
    let segs = split_char(s, '/');
    let ghost segv = segs@.map_values(|t: String| t@);
    let mut parts: Vec<i32> = Vec::new();
    let mut i: usize = 0;
    assert(segv.take(0) =~= Seq::<Seq<char>>::empty());
    while i < segs.len()
        invariant
            segv == segs@.map_values(|t: String| t@),
            i <= segs@.len(),
            parts@ == parsed_parts(segv.take(i as int)),
        decreases segs@.len() - i,
    {
        assert(segv.take(i + 1).drop_last() =~= segv.take(i as int));
        if let Some(v) = parse_i32(segs[i].as_str()) {
            parts.push(v);
        }
        i = i + 1;
    }
    assert(segv.take(segs@.len() as int) =~= segv);
    if parts.len() != 3 {
        return None;
    }
    let (m, day, y) = (parts[0], parts[1], parts[2]);
    if m < 0 || day < 0 {
        return None;
    }
    Date::from_ymd(y, m as u32, day as u32)
}

/// Index of the first summer week at or after `i` whose date is day `x`.
pub open spec fn summer_scan(x: int, i: int) -> Option<int>
    decreases SUMMER_2026_LEN - i,
{
    if i < 0 || i >= SUMMER_2026_LEN {
        None
    } else if us_date(summer_2026_week(i as usize).0) == Some(x) {
        Some(i)
    } else {
        summer_scan(x, i + 1)
    }
}

fn summer_week_for(d: Date) -> (r: Option<SummerWeek>)
    ensures
        match summer_scan(d@, 0) {
            Some(i) => r matches Some(w) && crate::lectionary::narrative_data::summer_view(w)
                == summer_2026_week(i as usize),
            None => r is None,
        },
{
    let mut i: usize = 0;
    while i < SUMMER_2026_LEN
        invariant
            i <= SUMMER_2026_LEN,
            summer_scan(d@, 0) == summer_scan(d@, i as int),
        decreases SUMMER_2026_LEN - i,
    {
        let w = summer_2026_at(i);
        match parse_us_date(w.date) {
            Some(p) => {
                if p.days() == d.days() {
                    return Some(w);
                }
            },
            None => {},
        }
        i = i + 1;
    }
    None
}

// ---------------------------------------------------------------------------
// The calendar.

/// The week of program year `y` whose season is exactly `season`.
pub open spec fn found_exact(y: ProgramYear, season: Seq<char>) -> Option<WeekView> {
    match season_scan(year_table(y), season, true, 0) {
        Some(j) => Some(year_table(y)[j]),
        None => None,
    }
}

/// The first week of program year `y` whose season contains `needle`.
pub open spec fn found_contains(y: ProgramYear, needle: Seq<char>) -> Option<WeekView> {
    match season_scan(year_table(y), needle, false, 0) {
        Some(j) => Some(year_table(y)[j]),
        None => None,
    }
}

/// What the Narrative Lectionary gives for the day numbered `x`: a Sunday
/// of the Fall of its program year, by Sundays counted from Labor Day;
/// otherwise `narrative_advent_epiphany`.
pub open spec fn narrative_info(x: int) -> LitView {
    let py = program_year_of(x);
    let y = cycle_year(py);
    let ld = labor_day_day(py);
    if x >= ld && weekday_of(x) == 6 && (x - ld) / 7 < fall_len_of(year_table(y)) {
        narrative_result(year_label(y), year_table(y)[(x - ld) / 7])
    } else {
        narrative_advent_epiphany(x, y)
    }
}

/// The Sundays of Advent, Christmas Eve and Day, the First and Second
/// Sundays of Christmas, the Baptism of Our Lord (the Sunday nearest
/// January 6) and the Sundays after Epiphany, each where the program year
/// has a week with that season; otherwise `narrative_lent_easter`.
pub open spec fn narrative_advent_epiphany(x: int, y: ProgramYear) -> LitView {
    let year = year_of(x);
    let label = year_label(y);
    let adv = advent_day(year);
    let xmas = civil_days(year, 12, 25);
    let baptism = nearest_sunday_day(civil_days(year, 1, 6));
    let ash_wed = easter_day(year) - 46;
    let sunday = weekday_of(x) == 6;
    let advent_week = found_exact(y, ordinal_text((x - adv) / 7 + 1) + " Sunday of Advent"@);
    let epiphany_week = found_exact(y, ordinal_text((x - baptism) / 7 + 1) + " Sunday after Epiphany"@);
    if adv <= x <= adv + 21 && (x - adv) % 7 == 0 && advent_week is Some {
        narrative_result(label, advent_week->0)
    } else if x == xmas - 1 && found_exact(y, "Christmas Eve"@) is Some {
        narrative_result(label, found_exact(y, "Christmas Eve"@)->0)
    } else if x == xmas && found_exact(y, "Christmas Day"@) is Some {
        narrative_result(label, found_exact(y, "Christmas Day"@)->0)
    } else if xmas < x <= civil_days(year, 12, 31) && sunday && found_exact(
        y,
        "First Sunday of Christmas"@,
    ) is Some {
        narrative_result(label, found_exact(y, "First Sunday of Christmas"@)->0)
    } else if civil_days(year, 1, 1) <= x <= civil_days(year, 1, 5) && sunday && found_exact(
        y,
        "Second Sunday of Christmas"@,
    ) is Some {
        narrative_result(label, found_exact(y, "Second Sunday of Christmas"@)->0)
    } else if x == baptism && found_exact(y, "Baptism of Our Lord"@) is Some {
        narrative_result(label, found_exact(y, "Baptism of Our Lord"@)->0)
    } else if baptism < x < ash_wed && sunday && epiphany_week is Some {
        narrative_result(label, epiphany_week->0)
    } else {
        narrative_lent_easter(x, y)
    }
}

/// The Transfiguration (the Sunday before Ash Wednesday), Ash Wednesday,
/// the first five Sundays in Lent, Palm Sunday, Maundy Thursday, Good
/// Friday, Easter, the Sundays of Easter and Pentecost, each where the
/// program year has that week; then a week of the 2026 summer series whose
/// date is `x`; otherwise no reading.
pub open spec fn narrative_lent_easter(x: int, y: ProgramYear) -> LitView {
    let year = year_of(x);
    let label = year_label(y);
    let e = easter_day(year);
    let ash_wed = e - 46;
    let lent_week = found_exact(y, ordinal_text(7 - (e - x) / 7) + " Sunday in Lent"@);
    let easter_week = found_exact(y, ordinal_text((x - e) / 7 + 1) + " Sunday of Easter"@);
    if x == sunday_on_or_before_day(ash_wed - 1) && found_exact(y, "Transfiguration"@) is Some {
        narrative_result(label, found_exact(y, "Transfiguration"@)->0)
    } else if x == ash_wed && found_exact(y, "Ash Wednesday"@) is Some {
        narrative_result(label, found_exact(y, "Ash Wednesday"@)->0)
    } else if e - 42 <= x <= e - 14 && (e - x) % 7 == 0 && lent_week is Some {
        narrative_result(label, lent_week->0)
    } else if x == e - 7 && found_contains(y, "Palm"@) is Some {
        narrative_result(label, found_contains(y, "Palm"@)->0)
    } else if x == e - 3 && found_exact(y, "Maundy Thursday"@) is Some {
        narrative_result(label, found_exact(y, "Maundy Thursday"@)->0)
    } else if x == e - 2 && found_exact(y, "Good Friday"@) is Some {
        narrative_result(label, found_exact(y, "Good Friday"@)->0)
    } else if x == e && found_exact(y, "Easter"@) is Some {
        narrative_result(label, found_exact(y, "Easter"@)->0)
    } else if e + 7 <= x <= e + 42 && (x - e) % 7 == 0 && easter_week is Some {
        narrative_result(label, easter_week->0)
    } else if x == e + 49 && found_exact(y, "Pentecost"@) is Some {
        narrative_result(label, found_exact(y, "Pentecost"@)->0)
    } else if summer_scan(x, 0) is Some {
        let w = summer_2026_week(summer_scan(x, 0)->0 as usize);
        LitView {
            season: w.1,
            week: w.2,
            year: seq![],
            colour: colour_of("Ordinary"@).0,
            colour_hex: colour_of("Ordinary"@).1,
            readings: seq![("Primary"@, w.3), ("Accompanying"@, w.4)],
            found: true,
        }
    } else {
        not_found_view()
    }
}

/// The names of the first five Sundays in Lent.
pub open spec fn lent_sunday_name(n: int) -> Seq<char> {
    if n == 1 {
        "First Sunday in Lent"@
    } else if n == 2 {
        "Second Sunday in Lent"@
    } else if n == 3 {
        "Third Sunday in Lent"@
    } else if n == 4 {
        "Fourth Sunday in Lent"@
    } else {
        "Fifth Sunday in Lent"@
    }
}

proof fn lemma_lent_names(n: int)
    requires
        1 <= n <= 5,
    ensures
        ordinal_text(n) + " Sunday in Lent"@ == lent_sunday_name(n),
{
    reveal_strlit(" Sunday in Lent");
    reveal_strlit("First");
    reveal_strlit("Second");
    reveal_strlit("Third");
    reveal_strlit("Fourth");
    reveal_strlit("Fifth");
    reveal_strlit("First Sunday in Lent");
    reveal_strlit("Second Sunday in Lent");
    reveal_strlit("Third Sunday in Lent");
    reveal_strlit("Fourth Sunday in Lent");
    reveal_strlit("Fifth Sunday in Lent");
    assert(ordinal_text(n) + " Sunday in Lent"@ =~= lent_sunday_name(n));
}

proof fn lemma_scan_finds(weeks: Seq<WeekView>, needle: Seq<char>, i: int, j: int)
    requires
        0 <= i <= j < weeks.len(),
        contains_text(weeks[j].season, needle),
    ensures
        season_scan(weeks, needle, false, i) matches Some(k) && k <= j,
    decreases j - i,
{
    if i < j {
        lemma_scan_finds(weeks, needle, i + 1, j);
    }
}

/// The Fall of every program year ends by its thirteenth week, where the
/// First Sunday of Advent begins.
proof fn lemma_fall_len_bound(y: ProgramYear)
    ensures
        fall_len_of(year_table(y)) <= 12,
{
    let t = year_table(y);
    let i: int = match y {
        ProgramYear::Matthew => 11,
        _ => 12,
    };
    assert(t[i] == week_of(y, i as usize));
    reveal_strlit("First Sunday of Advent");
    reveal_strlit("Sunday of Advent");
    let a = "First Sunday of Advent"@;
    assert(t[i].season == a);
    assert(a.subrange(6, 22) =~= "Sunday of Advent"@);
    assert(crate::text::occurs_at(a, "Sunday of Advent"@, 6));
    lemma_scan_finds(t, "Sunday of Advent"@, 0, i);
}

/// The Sundays in Lent are counted back from Easter: from year 0 on, the
/// Narrative Lectionary answers for the Sunday `7 * (7 - n)` days before
/// Easter (n from 1 to 5; the Sunday 42 days before Easter is the first)
/// with the week of the program year named the n-th Sunday in Lent, wherever
/// the program year has such a week.
#[verifier::spinoff_prover]
pub proof fn lemma_lent_sundays(y: int, n: int)
    requires
        0 <= y <= MAX_YEAR,
        1 <= n <= 5,
    ensures
        ({
            let x = easter_day(y) - 7 * (7 - n);
            let py = cycle_year(y - 1);
            found_exact(py, lent_sunday_name(n)) matches Some(w) ==> narrative_info(x)
                == narrative_result(year_label(py), w)
        }),
{
    let e = easter_day(y);
    let x = e - 7 * (7 - n);
    crate::lectionary::calendar::lemma_easter_in_spring(y);
    lemma_month_offsets(y);
    lemma_month_offsets(y - 1);
    crate::date::lemma_year_end(y - 1);
    crate::date::lemma_year_of_day(y, x);
    lemma_fall_len_bound(cycle_year(y - 1));
    lemma_lent_names(n);
    assert((e - x) / 7 == 7 - n);
    assert((e - x) % 7 == 0);
    assert(program_year_of(x) == y - 1);
    assert((x - labor_day_day(y - 1)) / 7 >= 22);
}

/// The days of Lent's end, Easter and Pentecost, counted from Easter Sunday:
/// from year 0 on, the Narrative Lectionary answers for Ash Wednesday 46
/// days before Easter, Maundy Thursday 3 days before, Good Friday 2 days
/// before, Easter Sunday and Pentecost 49 days after with the program
/// year's week of that name, wherever the program year has one.
#[verifier::spinoff_prover]
pub proof fn lemma_narrative_easter_days(y: int)
    requires
        0 <= y <= MAX_YEAR,
    ensures
        ({
            let e = easter_day(y);
            let py = cycle_year(y - 1);
            let label = year_label(py);
            &&& found_exact(py, "Ash Wednesday"@) matches Some(w) ==> narrative_info(e - 46)
                == narrative_result(label, w)
            &&& found_exact(py, "Maundy Thursday"@) matches Some(w) ==> narrative_info(e - 3)
                == narrative_result(label, w)
            &&& found_exact(py, "Good Friday"@) matches Some(w) ==> narrative_info(e - 2)
                == narrative_result(label, w)
            &&& found_exact(py, "Easter"@) matches Some(w) ==> narrative_info(e)
                == narrative_result(label, w)
            &&& found_exact(py, "Pentecost"@) matches Some(w) ==> narrative_info(e + 49)
                == narrative_result(label, w)
        }),
{
    let e = easter_day(y);
    crate::lectionary::calendar::lemma_easter_in_spring(y);
    lemma_month_offsets(y);
    lemma_month_offsets(y - 1);
    crate::date::lemma_year_end(y - 1);
    lemma_fall_len_bound(cycle_year(y - 1));
    crate::date::lemma_year_of_day(y, e - 46);
    crate::date::lemma_year_of_day(y, e - 3);
    crate::date::lemma_year_of_day(y, e - 2);
    crate::date::lemma_year_of_day(y, e);
    crate::date::lemma_year_of_day(y, e + 49);
    assert(program_year_of(e - 46) == y - 1);
    assert(program_year_of(e - 3) == y - 1);
    assert(program_year_of(e - 2) == y - 1);
    assert(program_year_of(e) == y - 1);
    assert(program_year_of(e + 49) == y - 1);
}

fn lookup_exact<'a>(weeks: &'a [Week], Ghost(y): Ghost<ProgramYear>, season: &str) -> (r: Option<&'a Week>)
    requires
        weeks_view(weeks@) == year_table(y),
    ensures
        match found_exact(y, season@) {
            Some(w) => r matches Some(x) && x@ == w,
            None => r is None,
        },
{
    find_exact(weeks, season)
}

/// Season, week, colour and readings of the Narrative Lectionary for `d`
/// (see `narrative_info` for the order in which the calendar is consulted).
pub fn get_liturgical_info(d: Date) -> (r: LiturgicalInfo)
    requires
        crate::date::MIN_YEAR < year_of(d@) <= MAX_YEAR,
        easter_defined(year_of(d@)),
    ensures
        r@ == narrative_info(d@),
{
    let py = program_year(d);
    let ld = labor_day(py).days();
    let (label, weeks) = weeks_for_program_year(py);
    let ghost y = cycle_year(py as int);
    let fl = fall_len(weeks.as_slice());
    let x = d.days();
    if x >= ld && is_sunday(d) {
        let idx: usize = ((x - ld) as u32 / 7) as usize;
        if idx < fl {
            proof {
                lemma_season_scan(year_table(y), "Sunday of Advent"@, false, 0);
            }
            return result_for(label, &weeks[idx]);
        }
    }
    advent_epiphany(d, label, weeks.as_slice(), Ghost(y))
}

#[verifier::spinoff_prover]
fn advent_epiphany(d: Date, label: &str, weeks: &[Week], Ghost(y): Ghost<ProgramYear>) -> (r:
    LiturgicalInfo)
    requires
        crate::date::MIN_YEAR < year_of(d@) <= MAX_YEAR,
        easter_defined(year_of(d@)),
        label@ == year_label(y),
        weeks_view(weeks@) == year_table(y),
    ensures
        r@ == narrative_advent_epiphany(d@, y),
{
    let year = d.year();
    let x = d.days();
    proof {
        lemma_month_offsets(year as int);
        lemma_day_range(year as int, 1, 1);
        lemma_day_range(year as int, 1, 3);
        lemma_day_range(year as int, 1, 9);
        lemma_easter_window(year as int);
    }
    let adv = advent_sunday(year).days();
    if adv <= x && x <= adv + 21 && ((x - adv) as u32) % 7 == 0 {
        let n: i64 = ((x - adv) as u32 / 7 + 1) as i64;
        let season = joined(ordinal(n), " Sunday of Advent");
        if let Some(week) = lookup_exact(weeks, Ghost(y), season.as_str()) {
            return result_for(label, week);
        }
    }
    let xmas = Date::from_ymd(year, 12, 25).unwrap().days();
    if x == xmas - 1 {
        if let Some(week) = lookup_exact(weeks, Ghost(y), "Christmas Eve") {
            return result_for(label, week);
        }
    }
    if x == xmas {
        if let Some(week) = lookup_exact(weeks, Ghost(y), "Christmas Day") {
            return result_for(label, week);
        }
    }
    let sunday = is_sunday(d);
    let dec31 = Date::from_ymd(year, 12, 31).unwrap().days();
    if xmas < x && x <= dec31 && sunday {
        if let Some(week) = lookup_exact(weeks, Ghost(y), "First Sunday of Christmas") {
            return result_for(label, week);
        }
    }
    let jan1 = Date::from_ymd(year, 1, 1).unwrap().days();
    let jan5 = Date::from_ymd(year, 1, 5).unwrap().days();
    if jan1 <= x && x <= jan5 && sunday {
        if let Some(week) = lookup_exact(weeks, Ghost(y), "Second Sunday of Christmas") {
            return result_for(label, week);
        }
    }
    let baptism = nearest_sunday(Date::from_ymd(year, 1, 6).unwrap()).days();
    if x == baptism {
        if let Some(week) = lookup_exact(weeks, Ghost(y), "Baptism of Our Lord") {
            return result_for(label, week);
        }
    }
    let ash_wed = easter(year).days() - 46;
    if baptism < x && x < ash_wed && sunday {
        let n: i64 = ((x - baptism) as u32 / 7 + 1) as i64;
        let season = joined(ordinal(n), " Sunday after Epiphany");
        if let Some(week) = lookup_exact(weeks, Ghost(y), season.as_str()) {
            return result_for(label, week);
        }
    }
    lent_easter(d, label, weeks, Ghost(y))
}

#[verifier::spinoff_prover]
fn lent_easter(d: Date, label: &str, weeks: &[Week], Ghost(y): Ghost<ProgramYear>) -> (r:
    LiturgicalInfo)
    requires
        crate::date::MIN_YEAR < year_of(d@) <= MAX_YEAR,
        easter_defined(year_of(d@)),
        label@ == year_label(y),
        weeks_view(weeks@) == year_table(y),
    ensures
        r@ == narrative_lent_easter(d@, y),
{
    let year = d.year();
    let x = d.days();
    proof {
        lemma_month_offsets(year as int);
        lemma_day_range(year as int, 1, 1);
        lemma_easter_window(year as int);
    }
    let e_date = easter(year);
    let e = e_date.days();
    let ash_wed = e - 46;
    let transfig = sunday_on_or_before(e_date.add_days(-47)).days();
    if x == transfig {
        if let Some(week) = lookup_exact(weeks, Ghost(y), "Transfiguration") {
            return result_for(label, week);
        }
    }
    if x == ash_wed {
        if let Some(week) = lookup_exact(weeks, Ghost(y), "Ash Wednesday") {
            return result_for(label, week);
        }
    }
    if e - 42 <= x && x <= e - 14 && ((e - x) as u32) % 7 == 0 {
        let w: i64 = (7 - (e - x) as u32 / 7) as i64;
        let season = joined(ordinal(w), " Sunday in Lent");
        if let Some(week) = lookup_exact(weeks, Ghost(y), season.as_str()) {
            return result_for(label, week);
        }
    }
    if x == e - 7 {
        proof {
            lemma_season_scan(year_table(y), "Palm"@, false, 0);
        }
        if let Some(week) = find_contains(weeks, "Palm") {
            return result_for(label, week);
        }
    }
    if x == e - 3 {
        if let Some(week) = lookup_exact(weeks, Ghost(y), "Maundy Thursday") {
            return result_for(label, week);
        }
    }
    if x == e - 2 {
        if let Some(week) = lookup_exact(weeks, Ghost(y), "Good Friday") {
            return result_for(label, week);
        }
    }
    if x == e {
        if let Some(week) = lookup_exact(weeks, Ghost(y), "Easter") {
            return result_for(label, week);
        }
    }
    if e + 7 <= x && x <= e + 42 && ((x - e) as u32) % 7 == 0 {
        let w: i64 = ((x - e) as u32 / 7 + 1) as i64;
        let season = joined(ordinal(w), " Sunday of Easter");
        if let Some(week) = lookup_exact(weeks, Ghost(y), season.as_str()) {
            return result_for(label, week);
        }
    }
    if x == e + 49 {
        if let Some(week) = lookup_exact(weeks, Ghost(y), "Pentecost") {
            return result_for(label, week);
        }
    }
    if let Some(week) = summer_week_for(d) {
        let (colour_name, colour_hex) = colour_for("Ordinary");
        let mut readings: Vec<(String, String)> = Vec::new();
        readings.push((owned("Primary"), owned(week.primary)));
        readings.push((owned("Accompanying"), owned(week.accompanying)));
        let r = LiturgicalInfo {
            season: owned(week.series),
            week: owned(week.title),
            year: String::new(),
            colour: owned(colour_name),
            colour_hex: owned(colour_hex),
            readings,
            found: true,
        };
        assert(r@.readings =~= seq![("Primary"@, week.primary@), ("Accompanying"@, week.accompanying@)]);
        return r;
    }
    not_found()
}

} // verus!
