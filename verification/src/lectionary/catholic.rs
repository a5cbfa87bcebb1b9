//! Roman Catholic Sunday Lectionary for Mass. It keeps the Western calendar
//! of `calendar` for every fixed point; Ordinary Time is numbered
//! sequentially instead: from 2 on the Sunday after the Baptism of the Lord
//! up to Lent, and after Corpus Christi counting back from Christ the King,
//! which is always the 34th Sunday.

use vstd::prelude::*;

use crate::date::{civil_days, in_day_range, lemma_day_range, lemma_month_offsets, weekday_of, year_of, Date, MAX_YEAR, MIN_YEAR};
use crate::lectionary::calendar::{
    advent_day, advent_sunday, easter, easter_day, is_sunday, lectionary_year,
    lectionary_year_text, easter_defined, lemma_easter_window,
};
use crate::lectionary::catholic_data::{catholic_row, catholic_row_at, CATHOLIC_ROWS};
use crate::lectionary::rcl_data::{readings_text, Readings};
use crate::lectionary::{pairs_view, LitView, LiturgicalInfo};
use crate::rcl::{colour_for, colour_of, id_with_number, joined, make_numbered_label, numbered_label};
use crate::text::{decimal_text, owned, str_eq};

verus! {

/// Index of the first Catholic row at or after `i` for year `key` and week
/// `id`.
pub open spec fn catholic_scan(key: Seq<char>, id: Seq<char>, i: int) -> Option<int>
    decreases CATHOLIC_ROWS - i,
{
    if i >= CATHOLIC_ROWS {
        None
    } else if catholic_row(i as usize).0 == key && catholic_row(i as usize).1 == id {
        Some(i)
    } else {
        catholic_scan(key, id, i + 1)
    }
}

/// The readings of week `id` in year `key`, falling back to a row shared by
/// all three years.
pub open spec fn catholic_lookup(key: Seq<char>, id: Seq<char>) -> Option<
    (Seq<char>, Seq<char>, Seq<char>, Seq<char>),
> {
    match catholic_scan(key, id, 0) {
        Some(i) => Some(catholic_row(i as usize).2),
        None => match catholic_scan("ALL"@, id, 0) {
            Some(i) => Some(catholic_row(i as usize).2),
            None => None,
        },
    }
}

fn scan_rows(key: &str, id: &str) -> (r: Option<Readings>)
    ensures
        match catholic_scan(key@, id@, 0) {
            Some(i) => r matches Some(x) && readings_text(x) == catholic_row(i as usize).2,
            None => r is None,
        },
{
    let mut i: usize = 0;
    while i < CATHOLIC_ROWS
        invariant
            i <= CATHOLIC_ROWS,
            catholic_scan(key@, id@, 0) == catholic_scan(key@, id@, i as int),
        decreases CATHOLIC_ROWS - i,
    {
        let row = catholic_row_at(i);
        if str_eq(row.0, key) && str_eq(row.1, id) {
            return Some(row.2);
        }
        i = i + 1;
    }
    None
}

fn lookup(key_year: &str, week_id: &str) -> (r: Option<Readings>)
    ensures
        match catholic_lookup(key_year@, week_id@) {
            Some(t) => r matches Some(x) && readings_text(x) == t,
            None => r is None,
        },
{
    match scan_rows(key_year, week_id) {
        Some(r) => Some(r),
        None => {
            proof {
                reveal_strlit("ALL");
            }
            scan_rows("ALL", week_id)
        },
    }
}

/// The four readings as labelled pairs, each "—" when the week is missing.
pub open spec fn four_readings(r: Option<(Seq<char>, Seq<char>, Seq<char>, Seq<char>)>) -> Seq<
    (Seq<char>, Seq<char>),
> {
    let t = match r {
        Some(t) => t,
        None => ("—"@, "—"@, "—"@, "—"@),
    };
    seq![("OT"@, t.0), ("Psalm"@, t.1), ("Epistle"@, t.2), ("Gospel"@, t.3)]
}

fn readings_vec(r: Option<Readings>) -> (v: Vec<(String, String)>)
    ensures
        pairs_view(v@) == four_readings(
            match r {
                Some(x) => Some(readings_text(x)),
                None => None,
            },
        ),
{
    proof {
        reveal_strlit("—");
    }
    let (ot, psalm, epistle, gospel) = match r {
        Some(t) => t,
        None => ("—", "—", "—", "—"),
    };
    let mut v: Vec<(String, String)> = Vec::new();
    v.push((owned("OT"), owned(ot)));
    v.push((owned("Psalm"), owned(psalm)));
    v.push((owned("Epistle"), owned(epistle)));
    v.push((owned("Gospel"), owned(gospel)));
    proof {
        assert(pairs_view(v@) =~= four_readings(
            match r {
                Some(x) => Some(readings_text(x)),
                None => None,
            },
        ));
    }
    v
}

/// The result for week `week_id` of cycle year `lec_year`.
pub open spec fn catholic_result(
    lec_year: Seq<char>,
    season: Seq<char>,
    week: Seq<char>,
    week_id: Seq<char>,
) -> LitView {
    let r = catholic_lookup(lec_year, week_id);
    LitView {
        season,
        week,
        year: lec_year,
        colour: colour_of(season).0,
        colour_hex: colour_of(season).1,
        readings: four_readings(r),
        found: r is Some,
    }
}

fn result_for(lec_year: &str, season_key: &str, week_label: &str, week_id: &str) -> (r:
    LiturgicalInfo)
    ensures
        r@ == catholic_result(lec_year@, season_key@, week_label@, week_id@),
{
    let r = lookup(lec_year, week_id);
    let (colour_name, colour_hex) = colour_for(season_key);
    LiturgicalInfo {
        season: owned(season_key),
        week: owned(week_label),
        year: owned(lec_year),
        colour: owned(colour_name),
        colour_hex: owned(colour_hex),
        readings: readings_vec(r),
        found: r.is_some(),
    }
}

/// Day number of Epiphany as kept in the United States: the one Sunday of
/// January 2 to 8.
pub open spec fn epiphany_sunday_day(year: int) -> int {
    let jan2 = civil_days(year, 1, 2);
    jan2 + (6 - weekday_of(jan2))
}

/// The Sunday of January 2 to 8 of `year`.
#[verifier::spinoff_prover]
pub fn epiphany_sunday(year: i32) -> (r: Date)
    requires
        MIN_YEAR <= year <= MAX_YEAR,
    ensures
        r@ == epiphany_sunday_day(year as int),
        weekday_of(r@) == 6,
{
    proof {
        lemma_month_offsets(year as int);
        lemma_day_range(year as int, 1, 2);
        lemma_day_range(year as int, 1, 8);
    }
    let jan2 = Date::from_ymd(year, 1, 2).unwrap();
    let mut i: i32 = 0;
    while i < 7
        invariant
            0 <= i <= 6 - weekday_of(jan2@),
            jan2@ == civil_days(year as int, 1, 2),
            in_day_range(jan2@ + 6),
        decreases 7 - i,
    {
        let day = jan2.add_days(i);
        if is_sunday(day) {
            return day;
        }
        i = i + 1;
    }
    jan2
}

/// What the Catholic lectionary gives for the day numbered `x`: Good Friday,
/// Holy Thursday, Ash Wednesday; the four Sundays of Advent; then
/// `catholic_christmas_ordinary`.
pub open spec fn catholic_info(x: int) -> LitView {
    let year = year_of(x);
    let ly = lectionary_year_text(x);
    let e = easter_day(year);
    let adv = advent_day(year);
    if x == e - 2 {
        catholic_result(ly, "Good Friday"@, "Good Friday"@, "GoodFriday"@)
    } else if x == e - 3 {
        catholic_result(ly, "Holy Thursday"@, "Holy Thursday"@, "HolyThursday"@)
    } else if x == e - 46 {
        catholic_result(ly, "Lent"@, "Ash Wednesday"@, "AshWednesday"@)
    } else if adv <= x <= adv + 21 && (x - adv) % 7 == 0 {
        let n = ((x - adv) / 7 + 1) as nat;
        catholic_result(ly, "Advent"@, numbered_label("Advent "@, n, ly), "Advent"@ + decimal_text(n))
    } else {
        catholic_christmas_ordinary(x)
    }
}

/// Christmas Day; Mary, Mother of God (January 1); Holy Family (a Sunday of
/// December 26 to 31); Epiphany; the Baptism of the Lord a week later; the
/// Sundays of Ordinary Time up to Ash Wednesday, numbered from 2; then
/// `catholic_lent_easter`.
pub open spec fn catholic_christmas_ordinary(x: int) -> LitView {
    let year = year_of(x);
    let ly = lectionary_year_text(x);
    let ash_wed = easter_day(year) - 46;
    let xmas = civil_days(year, 12, 25);
    let epiphany = epiphany_sunday_day(year);
    let baptism = epiphany + 7;
    let sunday = weekday_of(x) == 6;
    if x == xmas {
        catholic_result(ly, "Christmas"@, "The Nativity of the Lord"@, "Christmas"@)
    } else if x == civil_days(year, 1, 1) {
        catholic_result(ly, "Christmas"@, "Mary, Mother of God"@, "MaryMotherOfGod"@)
    } else if xmas < x <= civil_days(year, 12, 31) && sunday {
        catholic_result(ly, "Christmas"@, "Holy Family, Year "@ + ly, "HolyFamily"@)
    } else if x == epiphany {
        catholic_result(ly, "Epiphany"@, "The Epiphany of the Lord"@, "Epiphany"@)
    } else if x == baptism {
        catholic_result(ly, "Baptism"@, "Baptism of the Lord, Year "@ + ly, "BaptismOfLord"@)
    } else if baptism < x < ash_wed && sunday {
        let n = ((x - baptism) / 7 + 1) as nat;
        catholic_result(
            ly,
            "Ordinary"@,
            numbered_label("Ordinary Time "@, n, ly),
            "Ordinary"@ + decimal_text(n),
        )
    } else {
        catholic_lent_easter(x)
    }
}

/// Lent and Palm Sunday; Easter and its Sundays; Pentecost; Trinity Sunday;
/// Corpus Christi a week later; Christ the King (Ordinary Time 34); the
/// Sundays between Corpus Christi and Christ the King, counted back from 34;
/// otherwise plain Ordinary Time with no readings.
pub open spec fn catholic_lent_easter(x: int) -> LitView {
    let year = year_of(x);
    let ly = lectionary_year_text(x);
    let e = easter_day(year);
    let christ_king = advent_day(year) - 7;
    let corpus_christi = e + 63;
    if e - 42 <= x <= e - 7 && (e - x) % 7 == 0 {
        let w = (7 - (e - x) / 7) as nat;
        if w == 6 {
            catholic_result(ly, "Palm Sunday"@, "Palm Sunday of the Passion, Year "@ + ly, "PalmSunday"@)
        } else {
            catholic_result(ly, "Lent"@, numbered_label("Lent "@, w, ly), "Lent"@ + decimal_text(w))
        }
    } else if x == e {
        catholic_result(ly, "Easter"@, "Easter Sunday, Year "@ + ly, "Easter"@)
    } else if e + 7 <= x <= e + 42 && (x - e) % 7 == 0 {
        let w = ((x - e) / 7 + 1) as nat;
        if w == 7 {
            catholic_result(ly, "Easter"@, "Easter 7 (Ascension observed), Year "@ + ly, "Easter7"@)
        } else {
            catholic_result(ly, "Easter"@, numbered_label("Easter "@, w, ly), "Easter"@ + decimal_text(w))
        }
    } else if x == e + 49 {
        catholic_result(ly, "Pentecost"@, "Pentecost, Year "@ + ly, "Pentecost"@)
    } else if x == e + 56 {
        catholic_result(ly, "Trinity"@, "Trinity Sunday, Year "@ + ly, "Trinity"@)
    } else if x == corpus_christi {
        catholic_result(ly, "Trinity"@, "Corpus Christi, Year "@ + ly, "CorpusChristi"@)
    } else if x == christ_king {
        catholic_result(ly, "Christ the King"@, "Christ the King, Year "@ + ly, "Ordinary34"@)
    } else if corpus_christi < x < christ_king && weekday_of(x) == 6 {
        let n = (34 - (christ_king - x) / 7) as nat;
        catholic_result(
            ly,
            "Ordinary"@,
            numbered_label("Ordinary Time "@, n, ly),
            "Ordinary"@ + decimal_text(n),
        )
    } else {
        LitView {
            season: "Ordinary"@,
            week: "Ordinary Time"@,
            year: ly,
            colour: colour_of("Ordinary"@).0,
            colour_hex: colour_of("Ordinary"@).1,
            readings: Seq::empty(),
            found: false,
        }
    }
}

/// Good Friday is two days before Easter: for every year whose Easter the
/// computus gives, the Catholic lectionary answers "Good Friday" (season
/// and week) for the day two days before Easter Sunday, and for no other
/// day of that year.
#[verifier::spinoff_prover]
pub proof fn lemma_good_friday(y: int)
    requires
        MIN_YEAR <= y <= MAX_YEAR,
        easter_defined(y),
    ensures
        catholic_info(easter_day(y) - 2).season == "Good Friday"@,
        catholic_info(easter_day(y) - 2).week == "Good Friday"@,
        forall|x: int|
            year_of(x) == y && x != easter_day(y) - 2 ==> (#[trigger] catholic_info(x)).season
                != "Good Friday"@,
{
    lemma_easter_window(y);
    lemma_month_offsets(y);
    crate::date::lemma_year_of_day(y, easter_day(y) - 2);
    reveal_strlit("Good Friday");
    reveal_strlit("Holy Thursday");
    reveal_strlit("Lent");
    reveal_strlit("Advent");
    reveal_strlit("Christmas");
    reveal_strlit("Epiphany");
    reveal_strlit("Baptism");
    reveal_strlit("Ordinary");
    reveal_strlit("Palm Sunday");
    reveal_strlit("Easter");
    reveal_strlit("Pentecost");
    reveal_strlit("Trinity");
    reveal_strlit("Christ the King");
    let gf = "Good Friday"@;
    assert(gf.len() == 11 && gf[0] == 'G');
    assert("Holy Thursday"@.len() == 13);
    assert("Lent"@.len() == 4);
    assert("Advent"@.len() == 6);
    assert("Christmas"@.len() == 9);
    assert("Epiphany"@.len() == 8);
    assert("Baptism"@.len() == 7);
    assert("Ordinary"@.len() == 8);
    assert("Palm Sunday"@[0] == 'P');
    assert("Easter"@.len() == 6);
    assert("Pentecost"@.len() == 9);
    assert("Trinity"@.len() == 7);
    assert("Christ the King"@.len() == 15);
    assert forall|x: int| year_of(x) == y && x != easter_day(y) - 2 implies (#[trigger] catholic_info(
        x,
    )).season != "Good Friday"@ by {}
}

/// The days around Easter, counted from Easter Sunday: from year 0 on, the
/// Catholic lectionary answers for Ash Wednesday 46 days before Easter,
/// Palm Sunday 7 days before, Holy Thursday 3 days before, Easter Sunday,
/// Pentecost 49 days after, Trinity Sunday 56 days after and Corpus
/// Christi 63 days after, each with its season and week.
#[verifier::spinoff_prover]
pub proof fn lemma_catholic_easter_days(y: int)
    requires
        0 <= y <= MAX_YEAR,
    ensures
        ({
            let e = easter_day(y);
            &&& catholic_info(e - 46).season == "Lent"@
            &&& catholic_info(e - 46).week == "Ash Wednesday"@
            &&& catholic_info(e - 7).season == "Palm Sunday"@
            &&& catholic_info(e - 7).week == "Palm Sunday of the Passion, Year "@
                + lectionary_year_text(e - 7)
            &&& catholic_info(e - 3).season == "Holy Thursday"@
            &&& catholic_info(e - 3).week == "Holy Thursday"@
            &&& catholic_info(e).season == "Easter"@
            &&& catholic_info(e).week == "Easter Sunday, Year "@ + lectionary_year_text(e)
            &&& catholic_info(e + 49).season == "Pentecost"@
            &&& catholic_info(e + 49).week == "Pentecost, Year "@ + lectionary_year_text(e + 49)
            &&& catholic_info(e + 56).season == "Trinity"@
            &&& catholic_info(e + 56).week == "Trinity Sunday, Year "@ + lectionary_year_text(
                e + 56,
            )
            &&& catholic_info(e + 63).week == "Corpus Christi, Year "@ + lectionary_year_text(
                e + 63,
            )
        }),
{
    let e = easter_day(y);
    crate::lectionary::calendar::lemma_easter_in_spring(y);
    lemma_month_offsets(y);
    crate::date::lemma_year_of_day(y, e - 46);
    crate::date::lemma_year_of_day(y, e - 7);
    crate::date::lemma_year_of_day(y, e - 3);
    crate::date::lemma_year_of_day(y, e);
    crate::date::lemma_year_of_day(y, e + 49);
    crate::date::lemma_year_of_day(y, e + 56);
    crate::date::lemma_year_of_day(y, e + 63);
}

/// Season, week, colour and readings of the Catholic lectionary for `d`
/// (see `catholic_info` for the order in which the calendar is consulted).
pub fn get_liturgical_info(d: Date) -> (r: LiturgicalInfo)
    requires
        MIN_YEAR <= year_of(d@) <= MAX_YEAR,
        easter_defined(year_of(d@)),
    ensures
        r@ == catholic_info(d@),
{
    let year = d.year();
    let ly = lectionary_year(d);
    let x = d.days();
    let e_date = easter(year);
    let e = e_date.days();
    let adv = advent_sunday(year).days();
    if x == e - 2 {
        return result_for(ly, "Good Friday", "Good Friday", "GoodFriday");
    }
    if x == e - 3 {
        return result_for(ly, "Holy Thursday", "Holy Thursday", "HolyThursday");
    }
    if x == e - 46 {
        return result_for(ly, "Lent", "Ash Wednesday", "AshWednesday");
    }
    if adv <= x && x <= adv + 21 && ((x - adv) as u32) % 7 == 0 {
        let n: u64 = ((x - adv) as u32 / 7 + 1) as u64;
        let label = make_numbered_label("Advent ", n, ly);
        let id = id_with_number("Advent", n);
        return result_for(ly, "Advent", label.as_str(), id.as_str());
    }
    christmas_ordinary(d, ly, e_date)
}

#[verifier::spinoff_prover]
fn christmas_ordinary(d: Date, ly: &'static str, e_date: Date) -> (r: LiturgicalInfo)
    requires
        MIN_YEAR <= year_of(d@) <= MAX_YEAR,
        easter_defined(year_of(d@)),
        ly@ == lectionary_year_text(d@),
        e_date@ == easter_day(year_of(d@)),
    ensures
        r@ == catholic_christmas_ordinary(d@),
{
    let year = d.year();
    let x = d.days();
    let ash_wed = e_date.days() - 46;
    let xmas = Date::from_ymd(year, 12, 25).unwrap().days();
    if x == xmas {
        return result_for(ly, "Christmas", "The Nativity of the Lord", "Christmas");
    }
    let jan1 = Date::from_ymd(year, 1, 1).unwrap().days();
    if x == jan1 {
        return result_for(ly, "Christmas", "Mary, Mother of God", "MaryMotherOfGod");
    }
    let dec31 = Date::from_ymd(year, 12, 31).unwrap().days();
    let sunday = is_sunday(d);
    if xmas < x && x <= dec31 && sunday {
        let label = joined("Holy Family, Year ", ly);
        return result_for(ly, "Christmas", label.as_str(), "HolyFamily");
    }
    let epiphany = epiphany_sunday(year).days();
    if x == epiphany {
        return result_for(ly, "Epiphany", "The Epiphany of the Lord", "Epiphany");
    }
    let baptism = epiphany + 7;
    if x == baptism {
        let label = joined("Baptism of the Lord, Year ", ly);
        return result_for(ly, "Baptism", label.as_str(), "BaptismOfLord");
    }
    if baptism < x && x < ash_wed && sunday {
        let n: u64 = ((x - baptism) as u32 / 7 + 1) as u64;
        let label = make_numbered_label("Ordinary Time ", n, ly);
        let id = id_with_number("Ordinary", n);
        return result_for(ly, "Ordinary", label.as_str(), id.as_str());
    }
    lent_easter(d, ly, e_date)
}

#[verifier::spinoff_prover]
fn lent_easter(d: Date, ly: &'static str, e_date: Date) -> (r: LiturgicalInfo)
    requires
        MIN_YEAR <= year_of(d@) <= MAX_YEAR,
        easter_defined(year_of(d@)),
        ly@ == lectionary_year_text(d@),
        e_date@ == easter_day(year_of(d@)),
    ensures
        r@ == catholic_lent_easter(d@),
{
    let year = d.year();
    let x = d.days();
    let e = e_date.days();
    let christ_king = advent_sunday(year).days() - 7;
    let corpus_christi = e + 63;
    if e - 42 <= x && x <= e - 7 && ((e - x) as u32) % 7 == 0 {
        let w: u64 = (7 - (e - x) as u32 / 7) as u64;
        if w == 6 {
            let label = joined("Palm Sunday of the Passion, Year ", ly);
            return result_for(ly, "Palm Sunday", label.as_str(), "PalmSunday");
        }
        let label = make_numbered_label("Lent ", w, ly);
        let id = id_with_number("Lent", w);
        return result_for(ly, "Lent", label.as_str(), id.as_str());
    }
    if x == e {
        let label = joined("Easter Sunday, Year ", ly);
        return result_for(ly, "Easter", label.as_str(), "Easter");
    }
    if e + 7 <= x && x <= e + 42 && ((x - e) as u32) % 7 == 0 {
        let w: u64 = ((x - e) as u32 / 7 + 1) as u64;
        if w == 7 {
            let label = joined("Easter 7 (Ascension observed), Year ", ly);
            return result_for(ly, "Easter", label.as_str(), "Easter7");
        }
        let label = make_numbered_label("Easter ", w, ly);
        let id = id_with_number("Easter", w);
        return result_for(ly, "Easter", label.as_str(), id.as_str());
    }
    if x == e + 49 {
        let label = joined("Pentecost, Year ", ly);
        return result_for(ly, "Pentecost", label.as_str(), "Pentecost");
    }
    if x == e + 56 {
        let label = joined("Trinity Sunday, Year ", ly);
        return result_for(ly, "Trinity", label.as_str(), "Trinity");
    }
    if x == corpus_christi {
        let label = joined("Corpus Christi, Year ", ly);
        return result_for(ly, "Trinity", label.as_str(), "CorpusChristi");
    }
    if x == christ_king {
        let label = joined("Christ the King, Year ", ly);
        return result_for(ly, "Christ the King", label.as_str(), "Ordinary34");
    }
    if corpus_christi < x && x < christ_king && is_sunday(d) {
        proof {
            lemma_easter_window(year as int);
            lemma_month_offsets(year as int);
            assert(christ_king - corpus_christi <= 238);
        }
        let n: u64 = (34 - (christ_king - x) as u32 / 7) as u64;
        let label = make_numbered_label("Ordinary Time ", n, ly);
        let id = id_with_number("Ordinary", n);
        return result_for(ly, "Ordinary", label.as_str(), id.as_str());
    }
    let (colour_name, colour_hex) = colour_for("Ordinary");
    LiturgicalInfo {
        season: owned("Ordinary"),
        week: owned("Ordinary Time"),
        year: owned(ly),
        colour: owned(colour_name),
        colour_hex: owned(colour_hex),
        readings: Vec::new(),
        found: false,
    }
}

} // verus!
