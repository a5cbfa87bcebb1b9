//! The Western liturgical calendar shared by the Revised Common Lectionary
//! and the Roman Catholic lectionary: Easter, the first Sunday of Advent,
//! the three-year cycle, and finding Sundays near a date.

use vstd::prelude::*;

use crate::date::{
    civil_days, days_before_month, days_before_year, days_in_month, in_day_range, lemma_day_range, lemma_month_offsets,
    valid_ymd,
    weekday_of, year_of, Date, MAX_YEAR, MIN_YEAR,
};

verus! {

/// Integer division rounding toward zero, as Rust's `/` on signed integers.
pub open spec fn tdiv(a: int, b: int) -> int {
    if a >= 0 {
        a / b
    } else {
        -((-a) / b)
    }
}

/// The remainder of `tdiv`, carrying the sign of `a`, as Rust's `%`.
pub open spec fn tmod(a: int, b: int) -> int {
    if a >= 0 {
        a % b
    } else {
        -((-a) % b)
    }
}

/// Month and day of Easter Sunday in `year` by the Anonymous Gregorian
/// algorithm, its divisions rounding toward zero as on `i32`. Before year
/// 0 the steps run on negative numbers and need not give Easter, nor even a
/// valid date.
pub open spec fn easter_month_day(year: int) -> (int, int) {
    if year >= 0 {
        let a = year % 19;
        let b = year / 100;
        let c = year % 100;
        let d = b / 4;
        let e = b % 4;
        let f = (b + 8) / 25;
        let g = (b - f + 1) / 3;
        let h = (19 * a + b - d - g + 15) % 30;
        let i = c / 4;
        let k = c % 4;
        let l = (32 + 2 * e + 2 * i - h - k) % 7;
        let m = (a + 11 * h + 22 * l) / 451;
        let x = h + l - 7 * m + 114;
        (x / 31, x % 31 + 1)
    } else {
        let a = tmod(year, 19);
        let b = tdiv(year, 100);
        let c = tmod(year, 100);
        let d = tdiv(b, 4);
        let e = tmod(b, 4);
        let f = tdiv(b + 8, 25);
        let g = tdiv(b - f + 1, 3);
        let h = tmod(19 * a + b - d - g + 15, 30);
        let i = tdiv(c, 4);
        let k = tmod(c, 4);
        let l = tmod(32 + 2 * e + 2 * i - h - k, 7);
        let m = tdiv(a + 11 * h + 22 * l, 451);
        let x = h + l - 7 * m + 114;
        (tdiv(x, 31), tmod(x, 31) + 1)
    }
}

fn tdiv_exec(a: i64, b: i64) -> (r: i64)
    requires
        b > 0,
        -1_000_000 <= a <= 1_000_000,
    ensures
        r == tdiv(a as int, b as int),
        a >= 0 ==> 0 <= r <= a,
        a < 0 ==> a <= r <= 0,
{
    if a >= 0 {
        ((a as u64) / (b as u64)) as i64
    } else {
        -((((-a) as u64) / (b as u64)) as i64)
    }
}

fn tmod_exec(a: i64, b: i64) -> (r: i64)
    requires
        b > 0,
        -1_000_000 <= a <= 1_000_000,
    ensures
        r == tmod(a as int, b as int),
        -b < r < b,
{
    if a >= 0 {
        ((a as u64) % (b as u64)) as i64
    } else {
        -((((-a) as u64) % (b as u64)) as i64)
    }
}

/// Month and day of `easter_month_day` for a year before 0.
fn easter_before_year_zero(year: i32) -> (r: (i64, i64))
    requires
        MIN_YEAR <= year < 0,
    ensures
        (r.0 as int, r.1 as int) == easter_month_day(year as int),
{
    let y = year as i64;
    let a = tmod_exec(y, 19);
    let b = tdiv_exec(y, 100);
    let c = tmod_exec(y, 100);
    let d = tdiv_exec(b, 4);
    let e = tmod_exec(b, 4);
    let f = tdiv_exec(b + 8, 25);
    let g = tdiv_exec(b - f + 1, 3);
    let h = tmod_exec(19 * a + b - d - g + 15, 30);
    let i = tdiv_exec(c, 4);
    let k = tmod_exec(c, 4);
    let l = tmod_exec(32 + 2 * e + 2 * i - h - k, 7);
    let m = tdiv_exec(a + 11 * h + 22 * l, 451);
    let x = h + l - 7 * m + 114;
    (tdiv_exec(x, 31), tmod_exec(x, 31) + 1)
}

/// Day number of Easter Sunday in `year`.
pub open spec fn easter_day(year: int) -> int {
    civil_days(year, easter_month_day(year).0, easter_month_day(year).1)
}

/// Days from the last Sunday on or before a day to that day (0 on a Sunday).
pub open spec fn days_since_sunday(days: int) -> int {
    (weekday_of(days) + 1) % 7
}

/// Day number of the first Sunday of Advent: the fourth Sunday before
/// Christmas Day, that is three weeks before the last Sunday strictly
/// before it.
pub open spec fn advent_day(year: int) -> int {
    let xmas = civil_days(year, 12, 25);
    if days_since_sunday(xmas) == 0 {
        xmas - 28
    } else {
        xmas - days_since_sunday(xmas) - 21
    }
}

/// The civil year whose Advent opens the lectionary year holding `days`.
pub open spec fn lectionary_base(days: int) -> int {
    let y = year_of(days);
    if days >= advent_day(y) {
        y + 1
    } else {
        y
    }
}

/// Letter of a cycle position: 0 is "A", 1 is "B", 2 is "C".
pub open spec fn cycle_letter(i: int) -> Seq<char> {
    if i == 0 {
        seq!['A']
    } else if i == 1 {
        seq!['B']
    } else {
        seq!['C']
    }
}

/// The lectionary year ("A", "B" or "C") holding `days`: the year that
/// ended with Advent 2022 was a Year A.
pub open spec fn lectionary_year_text(days: int) -> Seq<char> {
    cycle_letter((lectionary_base(days) - 2023) % 3)
}

/// The lectionary years run A, B, C and again A: a year's letter is the
/// letter of the year three before it, and two consecutive years differ.
pub proof fn lemma_three_year_cycle(base: int)
    ensures
        cycle_letter((base + 3 - 2023) % 3) == cycle_letter((base - 2023) % 3),
        cycle_letter((base + 1 - 2023) % 3) != cycle_letter((base - 2023) % 3),
{
    let i = (base - 2023) % 3;
    let j = (base + 1 - 2023) % 3;
    assert(j == (i + 1) % 3);
    if i == 0 {
        assert(cycle_letter(i)[0] == 'A' && cycle_letter(j)[0] == 'B');
    } else if i == 1 {
        assert(cycle_letter(i)[0] == 'B' && cycle_letter(j)[0] == 'C');
    } else {
        assert(cycle_letter(i)[0] == 'C' && cycle_letter(j)[0] == 'A');
    }
}

/// Day number of the Sunday nearest `days` (the day itself on a Sunday).
pub open spec fn nearest_sunday_day(days: int) -> int {
    let wd = days_since_sunday(days);
    if wd <= 3 {
        days - wd
    } else {
        days + (7 - wd)
    }
}

/// Day number of the last Sunday on or before `days`.
pub open spec fn sunday_on_or_before_day(days: int) -> int {
    days - days_since_sunday(days)
}

proof fn lemma_easter_bounds(year: int)
    requires
        year >= 0,
    ensures
        ({
            let (m, d) = easter_month_day(year);
            (m == 3 && 22 <= d <= 31) || (m == 4 && 1 <= d <= 25)
        }),
{
    let a = year % 19;
    let b = year / 100;
    let c = year % 100;
    let d = b / 4;
    let e = b % 4;
    let f = (b + 8) / 25;
    let g = (b - f + 1) / 3;
    let h = (19 * a + b - d - g + 15) % 30;
    let i = c / 4;
    let k = c % 4;
    let l = (32 + 2 * e + 2 * i - h - k) % 7;
    let m = (a + 11 * h + 22 * l) / 451;
    assert(0 <= a < 19 && 0 <= h < 30 && 0 <= l < 7);
    assert(0 <= a + 11 * h + 22 * l < 902);
    assert(m == 0 || m == 1);
    if m == 1 {
        assert(h + l >= 7) by {
            if h + l < 7 {
                assert(11 * h + 22 * l <= 22 * (h + l));
            }
        }
    } else {
        assert(h + l <= 34) by {
            if h + l >= 35 {
                assert(h == 29 && l == 6);
            }
        }
    }
    let x = h + l - 7 * m + 114;
    assert(114 <= x <= 148);
}

/// Easter Sunday of `year`, by the Anonymous Gregorian algorithm. It is a
/// Sunday between March 22 and April 25.
pub fn easter(year: i32) -> (r: Date)
    requires
        MIN_YEAR <= year <= MAX_YEAR,
        year < 0 ==> valid_ymd(
            year as int,
            easter_month_day(year as int).0,
            easter_month_day(year as int).1,
        ),
    ensures
        r@ == easter_day(year as int),
        valid_ymd(year as int, easter_month_day(year as int).0, easter_month_day(year as int).1),
        year >= 0 ==> (easter_month_day(year as int).0 == 3 && 22 <= easter_month_day(
            year as int,
        ).1) || (easter_month_day(year as int).0 == 4 && easter_month_day(year as int).1 <= 25),
        year >= 0 ==> weekday_of(r@) == 6,
{
    if year < 0 {
        let (month, day) = easter_before_year_zero(year);
        return Date::from_ymd(year, month as u32, day as u32).unwrap();
    }
    proof {
        lemma_easter_bounds(year as int);
        lemma_easter_on_sunday(year as int);
    }
    let y: u32 = year as u32;
    let a = y % 19;
    let b = y / 100;
    let c = y % 100;
    let d = b / 4;
    let e = b % 4;
    let f = (b + 8) / 25;
    let g = (b - f + 1) / 3;
    let h = (19 * a + b - d - g + 15) % 30;
    let i = c / 4;
    let k = c % 4;
    let l = (32 + 2 * e + 2 * i - h - k) % 7;
    let m = (a + 11 * h + 22 * l) / 451;
    let x = h + l - 7 * m + 114;
    let month = x / 31;
    let day = x % 31 + 1;
    assert(month as int == easter_month_day(year as int).0);
    assert(day as int == easter_month_day(year as int).1);
    match Date::from_ymd(year, month, day) {
        Some(date) => date,
        None => {
            assert(false);
            Date::from_ymd(year, 3, 22).unwrap()
        },
    }
}

/// The computus gives a real date for `year`: always from year 0 on;
/// before it, where its steps on negative numbers happen to.
pub open spec fn easter_defined(year: int) -> bool {
    year >= 0 || valid_ymd(year, easter_month_day(year).0, easter_month_day(year).1)
}

/// Whether the computus gives a real date for `year`, so that `easter`
/// and the lectionaries built on it answer for it.
pub fn easter_is_defined(year: i32) -> (r: bool)
    requires
        MIN_YEAR <= year <= MAX_YEAR,
    ensures
        r == easter_defined(year as int),
{
    if year >= 0 {
        return true;
    }
    let (month, day) = easter_before_year_zero(year);
    if month < 1 || month > 12 || day < 1 || day > 31 {
        return false;
    }
    Date::from_ymd(year, month as u32, day as u32).is_some()
}

proof fn lemma_tmod_bounds(a: int, b: int)
    requires
        b > 0,
    ensures
        -b < tmod(a, b) < b,
        a >= 0 ==> tmod(a, b) >= 0,
{
}

proof fn lemma_easter_steps_before_zero(year: int)
    requires
        year < 0,
    ensures
        ({
            let (mo, d) = easter_month_day(year);
            (mo == 2 && 11 <= d) || mo == 3 || mo == 4 || (mo == 5 && d <= 2)
        }),
{
    let a = tmod(year, 19);
    let b = tdiv(year, 100);
    let c = tmod(year, 100);
    let d = tdiv(b, 4);
    let e = tmod(b, 4);
    let f = tdiv(b + 8, 25);
    let g = tdiv(b - f + 1, 3);
    let h = tmod(19 * a + b - d - g + 15, 30);
    let i = tdiv(c, 4);
    let k = tmod(c, 4);
    let l = tmod(32 + 2 * e + 2 * i - h - k, 7);
    lemma_tmod_bounds(year, 19);
    lemma_tmod_bounds(19 * a + b - d - g + 15, 30);
    lemma_tmod_bounds(32 + 2 * e + 2 * i - h - k, 7);
    let v = a + 11 * h + 22 * l;
    assert(-902 < v < 902);
    let m = tdiv(v, 451);
    assert(-1 <= m <= 1);
    let x = h + l - 7 * m + 114;
    assert(72 <= x <= 156);
    assert(easter_month_day(year) == (x / 31, x % 31 + 1));
}

/// Wherever the computus gives a real date, Easter lies from the 41st to
/// the 123rd day of its year; from year 0 on, from March 22 to April 25.
pub proof fn lemma_easter_window(year: int)
    requires
        MIN_YEAR <= year <= MAX_YEAR,
        easter_defined(year),
    ensures
        civil_days(year, 1, 1) + 40 <= easter_day(year) <= civil_days(year, 1, 1) + 122,
        valid_ymd(year, easter_month_day(year).0, easter_month_day(year).1),
{
    lemma_month_offsets(year);
    if year >= 0 {
        lemma_easter_bounds(year);
    } else {
        lemma_easter_steps_before_zero(year);
    }
}

/// Easter falls between March 22 and April 25.
pub proof fn lemma_easter_in_spring(year: int)
    requires
        year >= 0,
    ensures
        civil_days(year, 3, 22) <= easter_day(year) <= civil_days(year, 4, 25),
{
    lemma_easter_bounds(year);
    lemma_month_offsets(year);
}

proof fn lemma_before_march(y: int)
    requires
        y >= 0,
    ensures
        days_before_year(y) + days_before_month(y, 3) == 365 * (y - 1) + y / 4 - y / 100 + y
            / 400 + 59,
{
    assert(days_before_month(y, 3) == 31 + days_in_month(y, 2)) by {
        reveal_with_fuel(days_before_month, 3);
    }
}

#[verifier::spinoff_prover]
proof fn lemma_march_22_weekday(y: int, b: int, c: int, d: int, e: int, i: int, k: int)
    requires
        y == 100 * b + c,
        0 <= c < 100,
        b == 4 * d + e,
        0 <= e < 4,
        c == 4 * i + k,
        0 <= k < 4,
        b >= 0,
    ensures
        (365 * (y - 1) + y / 4 - y / 100 + y / 400 + 80 + 32 + 2 * e + 2 * i - k) % 7 == 6,
{
    assert(y / 4 == 25 * b + i);
    assert(y / 100 == b);
    assert(y / 400 == d);
}

/// The Sunday term of the computus: how far Easter lies past March 22,
/// less whole weeks.
pub open spec fn computus_shift(y: int) -> int {
    32 + 2 * ((y / 100) % 4) + 2 * ((y % 100) / 4) - (y % 100) % 4
}

#[verifier::spinoff_prover]
proof fn lemma_easter_offset(y: int) -> (t: int)
    requires
        y >= 0,
    ensures
        easter_day(y) == civil_days(y, 3, 22) + computus_shift(y) + 7 * t,
{
    lemma_easter_bounds(y);
    assert(days_before_month(y, 4) == days_before_month(y, 3) + 31) by {
        reveal_with_fuel(days_before_month, 4);
    }
    let a = y % 19;
    let b = y / 100;
    let c = y % 100;
    let d = b / 4;
    let e = b % 4;
    let f = (b + 8) / 25;
    let g = (b - f + 1) / 3;
    let h = (19 * a + b - d - g + 15) % 30;
    let i = c / 4;
    let k = c % 4;
    let q = 32 + 2 * e + 2 * i - h - k;
    let l = q % 7;
    let m = (a + 11 * h + 22 * l) / 451;
    assert(easter_day(y) == civil_days(y, 3, 22) + h + l - 7 * m);
    assert(l == q - 7 * (q / 7));
    assert(easter_day(y) - civil_days(y, 3, 22) - computus_shift(y) == 7 * (-(q / 7) - m));
    -(q / 7) - m
}

#[verifier::spinoff_prover]
proof fn lemma_march_22_shift(y: int)
    requires
        y >= 0,
    ensures
        (civil_days(y, 3, 22) - 1 + computus_shift(y)) % 7 == 6,
{
    lemma_before_march(y);
    let b = y / 100;
    let c = y % 100;
    lemma_march_22_weekday(y, b, c, b / 4, b % 4, c / 4, c % 4);
}

/// Easter falls on a Sunday.
pub proof fn lemma_easter_on_sunday(year: int)
    requires
        year >= 0,
    ensures
        weekday_of(easter_day(year)) == 6,
{
    let t = lemma_easter_offset(year);
    lemma_march_22_shift(year);
    let base = civil_days(year, 3, 22) - 1 + computus_shift(year);
    vstd::arithmetic::div_mod::lemma_mod_multiples_vanish(t, base, 7);
    assert(easter_day(year) - 1 == 7 * t + base);
}

proof fn lemma_december(y: int)
    ensures
        days_before_month(y, 12) == days_before_month(y, 11) + 30,
        days_before_month(y, 12) >= 300,
{
    reveal_with_fuel(days_before_month, 12);
}

/// The first Sunday of Advent in `year`: the fourth Sunday before
/// Christmas Day. It is a Sunday between November 27 and December 3.
pub fn advent_sunday(year: i32) -> (r: Date)
    requires
        MIN_YEAR <= year <= MAX_YEAR,
    ensures
        r@ == advent_day(year as int),
        weekday_of(r@) == 6,
        civil_days(year as int, 11, 27) <= r@ <= civil_days(year as int, 12, 3),
{
    let xmas = Date::from_ymd(year, 12, 25).unwrap();
    let ds: u32 = (xmas.weekday_from_monday() + 1) % 7;
    let back: u32 = if ds == 0 { 7 } else { ds };
    proof {
        let y = year as int;
        lemma_december(y);
        lemma_day_range(y, 1, 1);
        lemma_day_range(y, 12, 25);
        assert(in_day_range(xmas@ - back - 21));
        let w = weekday_of(xmas@);
        assert(weekday_of(xmas@ - back - 21) == 6) by {
            assert((xmas@ - 1) % 7 == w);
            assert(ds == (w + 1) % 7);
        }
    }
    xmas.add_days(-(back as i32) - 21)
}

/// "A", "B" or "C": the lectionary year holding `d`. A lectionary year
/// begins on the first Sunday of Advent.
pub fn lectionary_year(d: Date) -> (r: &'static str)
    ensures
        r@ == lectionary_year_text(d@),
{
    let y = d.year();
    let adv = advent_sunday(y);
    let base: i32 = if d.days() >= adv.days() {
        y + 1
    } else {
        y
    };
    let v: u32 = (base + 297977) as u32;
    let idx = v % 3;
    proof {
        assert((base - 2023) % 3 == idx as int) by {
            assert(base - 2023 == v - 300000);
        }
        reveal_strlit("A");
        reveal_strlit("B");
        reveal_strlit("C");
    }
    if idx == 0 {
        "A"
    } else if idx == 1 {
        "B"
    } else {
        "C"
    }
}

/// Day of the week with Monday 0 and Sunday 6.
pub fn python_weekday(d: Date) -> (r: i64)
    ensures
        r == weekday_of(d@),
        0 <= r < 7,
{
    d.weekday_from_monday() as i64
}

pub fn is_sunday(d: Date) -> (r: bool)
    ensures
        r == (weekday_of(d@) == 6),
{
    (python_weekday(d) + 1) % 7 == 0
}

/// The Sunday nearest `d`, or `d` itself on a Sunday; ties (Wednesday and
/// Thursday are both three days away from a Sunday) go back for Wednesday and
/// forward for Thursday.
pub fn nearest_sunday(d: Date) -> (r: Date)
    requires
        in_day_range(nearest_sunday_day(d@)),
    ensures
        r@ == nearest_sunday_day(d@),
        weekday_of(r@) == 6,
        d@ - 3 <= r@ <= d@ + 3,
{
    let wd: i64 = (python_weekday(d) + 1) % 7;
    proof {
        assert(weekday_of(nearest_sunday_day(d@)) == 6);
    }
    if wd <= 3 {
        d.add_days(-(wd as i32))
    } else {
        d.add_days((7 - wd) as i32)
    }
}

/// The last Sunday on or before `d`.
pub fn sunday_on_or_before(d: Date) -> (r: Date)
    requires
        in_day_range(sunday_on_or_before_day(d@)),
    ensures
        r@ == sunday_on_or_before_day(d@),
        weekday_of(r@) == 6,
        d@ - 6 <= r@ <= d@,
{
    let wd: i64 = (python_weekday(d) + 1) % 7;
    d.add_days(-(wd as i32))
}

} // verus!
