//! Calendar dates in the proleptic Gregorian calendar, held as a day number
//! (January 1 of year 1 is day 1, the numbering `chrono` uses), and UTC
//! timestamps. The conversions to and from year/month/day go through
//! `chrono`; the calendar itself is stated below as spec functions.

use chrono::Datelike;
use vstd::prelude::*;

verus! {

/// Earliest year a date may have.
pub const MIN_YEAR: i32 = -262143;

/// Latest year a date may have.
pub const MAX_YEAR: i32 = 262142;

/// Day number of January 1 of `MIN_YEAR`.
pub const MIN_DAYS: i32 = -95746129;

/// Day number of December 31 of `MAX_YEAR`.
pub const MAX_DAYS: i32 = 95745399;

pub open spec fn is_leap_year(y: int) -> bool {
    (y % 4 == 0 && y % 100 != 0) || y % 400 == 0
}

pub open spec fn year_len(y: int) -> int {
    if is_leap_year(y) {
        366
    } else {
        365
    }
}

pub open spec fn days_in_month(y: int, m: int) -> int {
    if m == 2 {
        if is_leap_year(y) {
            29
        } else {
            28
        }
    } else if m == 4 || m == 6 || m == 9 || m == 11 {
        30
    } else {
        31
    }
}

/// A year/month/day triple that names a real day within the supported range.
pub open spec fn valid_ymd(y: int, m: int, d: int) -> bool {
    MIN_YEAR <= y <= MAX_YEAR && 1 <= m <= 12 && 1 <= d <= days_in_month(y, m)
}

/// Days in all years before `y` (counting from year 1).
pub open spec fn days_before_year(y: int) -> int {
    let p = y - 1;
    365 * p + p / 4 - p / 100 + p / 400
}

/// Days in the months of year `y` before month `m`.
pub open spec fn days_before_month(y: int, m: int) -> int
    decreases m,
{
    if m <= 1 {
        0
    } else {
        days_before_month(y, m - 1) + days_in_month(y, m - 1)
    }
}

/// The day number of a calendar date: January 1 of year 1 is day 1.
pub open spec fn civil_days(y: int, m: int, d: int) -> int {
    days_before_year(y) + days_before_month(y, m) + d
}

/// Day of the week of a day number: 0 is Monday, 6 is Sunday.
pub open spec fn weekday_of(days: int) -> int {
    (days - 1) % 7
}

pub open spec fn in_day_range(days: int) -> bool {
    MIN_DAYS <= days <= MAX_DAYS
}

/// The calendar date of a day number.
pub open spec fn ymd_of(days: int) -> (int, int, int) {
    choose|t: (int, int, int)| valid_ymd(t.0, t.1, t.2) && civil_days(t.0, t.1, t.2) == days
}

pub open spec fn year_of(days: int) -> int {
    ymd_of(days).0
}

pub open spec fn month_of(days: int) -> int {
    ymd_of(days).1
}

pub open spec fn day_of(days: int) -> int {
    ymd_of(days).2
}

/// Two decimal digits, zero-padded.
pub open spec fn two_digits(v: int) -> Seq<char> {
    seq![crate::text::digit_char((v / 10) as nat), crate::text::digit_char((v % 10) as nat)]
}

/// At least four decimal digits, zero-padded.
pub open spec fn four_digits(v: nat) -> Seq<char> {
    let d = crate::text::decimal_text(v);
    if v < 10 {
        "000"@ + d
    } else if v < 100 {
        "00"@ + d
    } else if v < 1000 {
        "0"@ + d
    } else {
        d
    }
}

/// A year as ISO 8601 writes it: four digits for years 0 to 9999, else a
/// sign and at least four digits.
pub open spec fn year_text(y: int) -> Seq<char> {
    if 0 <= y <= 9999 {
        two_digits(y / 100) + two_digits(y % 100)
    } else if y < 0 {
        seq!['-'] + four_digits((-y) as nat)
    } else {
        seq!['+'] + four_digits(y as nat)
    }
}

/// Text of a date as `chrono` displays it: year, two-digit month and
/// two-digit day joined by '-' (`2026-08-16`).
pub open spec fn date_iso_text(days: int) -> Seq<char> {
    year_text(year_of(days)) + seq!['-'] + two_digits(month_of(days)) + seq!['-'] + two_digits(day_of(days))
}

proof fn lemma_year_step(y: int)
    ensures
        days_before_year(y + 1) == days_before_year(y) + year_len(y),
{
}

proof fn lemma_years_ordered(y1: int, y2: int)
    requires
        y1 < y2,
    ensures
        days_before_year(y1) + year_len(y1) <= days_before_year(y2),
    decreases y2 - y1,
{
    lemma_year_step(y1);
    if y1 + 1 < y2 {
        lemma_years_ordered(y1 + 1, y2);
    }
}

proof fn lemma_month_table(y: int)
    ensures
        days_before_month(y, 1) == 0,
        days_before_month(y, 2) == 31,
        days_before_month(y, 3) == 31 + days_in_month(y, 2),
        days_before_month(y, 4) == 62 + days_in_month(y, 2),
        days_before_month(y, 5) == 92 + days_in_month(y, 2),
        days_before_month(y, 6) == 123 + days_in_month(y, 2),
        days_before_month(y, 7) == 153 + days_in_month(y, 2),
        days_before_month(y, 8) == 184 + days_in_month(y, 2),
        days_before_month(y, 9) == 215 + days_in_month(y, 2),
        days_before_month(y, 10) == 245 + days_in_month(y, 2),
        days_before_month(y, 11) == 276 + days_in_month(y, 2),
        days_before_month(y, 12) == 306 + days_in_month(y, 2),
        days_before_month(y, 13) == year_len(y),
{
    reveal_with_fuel(days_before_month, 14);
}

proof fn lemma_months_ordered(y: int, m1: int, m2: int)
    requires
        1 <= m1 < m2 <= 13,
    ensures
        days_before_month(y, m1) + days_in_month(y, m1) <= days_before_month(y, m2),
{
    lemma_month_table(y);
}

/// Distinct valid dates have distinct day numbers.
pub proof fn lemma_civil_days_injective(y1: int, m1: int, d1: int, y2: int, m2: int, d2: int)
    requires
        valid_ymd(y1, m1, d1),
        valid_ymd(y2, m2, d2),
        civil_days(y1, m1, d1) == civil_days(y2, m2, d2),
    ensures
        y1 == y2 && m1 == m2 && d1 == d2,
{
    lemma_month_table(y1);
    lemma_month_table(y2);
    if y1 < y2 {
        lemma_years_ordered(y1, y2);
        lemma_months_ordered(y1, m1, 13);
        assert(false);
    } else if y2 < y1 {
        lemma_years_ordered(y2, y1);
        lemma_months_ordered(y2, m2, 13);
        assert(false);
    } else if m1 < m2 {
        lemma_months_ordered(y1, m1, m2);
    } else if m2 < m1 {
        lemma_months_ordered(y1, m2, m1);
    }
}

/// The calendar date of a valid triple's day number is that triple.
pub proof fn lemma_ymd_of_civil(y: int, m: int, d: int)
    requires
        valid_ymd(y, m, d),
    ensures
        ymd_of(civil_days(y, m, d)) == (y, m, d),
{
    let n = civil_days(y, m, d);
    assert(valid_ymd((y, m, d).0, (y, m, d).1, (y, m, d).2) && civil_days(
        (y, m, d).0,
        (y, m, d).1,
        (y, m, d).2,
    ) == n);
    let t = ymd_of(n);
    lemma_civil_days_injective(t.0, t.1, t.2, y, m, d);
}

/// Builds the day number of a calendar date with `chrono`.
#[verifier::external_body]
fn chrono_days_from_ymd(y: i32, m: u32, d: u32) -> (r: Option<i32>)
    ensures
        r is Some <==> valid_ymd(y as int, m as int, d as int),
        r matches Some(n) ==> n == civil_days(y as int, m as int, d as int),
{
    match chrono::NaiveDate::from_ymd_opt(y, m, d) {
        Some(date) => Some(date.num_days_from_ce()),
        None => None,
    }
}

/// Splits a day number into year, month and day with `chrono`.
#[verifier::external_body]
fn chrono_ymd_from_days(n: i32) -> (r: (i32, u32, u32))
    requires
        in_day_range(n as int),
    ensures
        valid_ymd(r.0 as int, r.1 as int, r.2 as int),
        civil_days(r.0 as int, r.1 as int, r.2 as int) == n,
{
    let date = chrono::NaiveDate::from_num_days_from_ce_opt(n).unwrap();
    (date.year(), date.month(), date.day())
}

/// Day of the week (Monday 0 to Sunday 6) of a day number, from `chrono`.
#[verifier::external_body]
fn chrono_weekday_from_monday(n: i32) -> (r: u32)
    requires
        in_day_range(n as int),
    ensures
        r == weekday_of(n as int),
{
    chrono::NaiveDate::from_num_days_from_ce_opt(n).unwrap().weekday().num_days_from_monday()
}

/// `chrono`'s `Display` text of the date with this day number.
#[verifier::external_body]
fn chrono_date_text(n: i32) -> (r: String)
    requires
        in_day_range(n as int),
    ensures
        r@ == date_iso_text(n as int),
{
    chrono::NaiveDate::from_num_days_from_ce_opt(n).unwrap().to_string()
}

/// A calendar date.
#[derive(Clone, Copy, Debug, PartialEq, Eq, PartialOrd, Ord, Hash)]
pub struct Date {
    days: i32,
}

impl View for Date {
    type V = int;

    closed spec fn view(&self) -> int {
        self.days as int
    }
}

impl Date {
    #[verifier::type_invariant]
    spec fn in_range(self) -> bool {
        in_day_range(self.days as int)
    }

    /// The date of the given calendar day, or `None` when no such day exists.
    pub fn from_ymd(y: i32, m: u32, d: u32) -> (r: Option<Date>)
        ensures
            r is Some <==> valid_ymd(y as int, m as int, d as int),
            r matches Some(date) ==> date@ == civil_days(y as int, m as int, d as int),
    {
        match chrono_days_from_ymd(y, m, d) {
            Some(n) => {
                proof {
                    lemma_day_range(y as int, m as int, d as int);
                }
                Some(Date { days: n })
            },
            None => None,
        }
    }

    /// The date with the given day number, or `None` outside the supported range.
    pub fn from_days(n: i32) -> (r: Option<Date>)
        ensures
            r is Some <==> in_day_range(n as int),
            r matches Some(date) ==> date@ == n,
    {
        if MIN_DAYS <= n && n <= MAX_DAYS {
            Some(Date { days: n })
        } else {
            None
        }
    }

    /// Day number: January 1 of year 1 is day 1.
    pub fn days(&self) -> (r: i32)
        ensures
            r == self@,
            in_day_range(r as int),
    {
        proof {
            use_type_invariant(self);
        }
        self.days
    }

    /// The date `k` days later (earlier for negative `k`).
    pub fn add_days(&self, k: i32) -> (r: Date)
        requires
            in_day_range(self@ + k),
        ensures
            r@ == self@ + k,
    {
        Date { days: self.days + k }
    }

    /// Year, month and day of the date.
    pub fn ymd(&self) -> (r: (i32, u32, u32))
        ensures
            r.0 == year_of(self@),
            r.1 == month_of(self@),
            r.2 == day_of(self@),
            valid_ymd(r.0 as int, r.1 as int, r.2 as int),
            civil_days(r.0 as int, r.1 as int, r.2 as int) == self@,
    {
        proof {
            use_type_invariant(self);
        }
        let r = chrono_ymd_from_days(self.days);
        proof {
            lemma_ymd_of_civil(r.0 as int, r.1 as int, r.2 as int);
        }
        r
    }

    pub fn year(&self) -> (r: i32)
        ensures
            r == year_of(self@),
            MIN_YEAR <= r <= MAX_YEAR,
    {
        self.ymd().0
    }

    pub fn month(&self) -> (r: u32)
        ensures
            r == month_of(self@),
            1 <= r <= 12,
    {
        self.ymd().1
    }

    pub fn day(&self) -> (r: u32)
        ensures
            r == day_of(self@),
            1 <= r <= 31,
    {
        self.ymd().2
    }

    /// Day of the week: Monday is 0, Sunday is 6.
    pub fn weekday_from_monday(&self) -> (r: u32)
        ensures
            r == weekday_of(self@),
            r < 7,
    {
        proof {
            use_type_invariant(self);
        }
        chrono_weekday_from_monday(self.days)
    }

    /// The date as text, `YYYY-MM-DD` for the years 0 to 9999.
    pub fn to_iso_string(&self) -> (r: String)
        ensures
            r@ == date_iso_text(self@),
    {
        proof {
            use_type_invariant(self);
        }
        chrono_date_text(self.days)
    }
}

/// Every valid calendar date has a day number in the supported range.
pub proof fn lemma_day_range(y: int, m: int, d: int)
    requires
        valid_ymd(y, m, d),
    ensures
        in_day_range(civil_days(y, m, d)),
{
    lemma_month_table(y);
    lemma_month_table(MIN_YEAR as int);
    lemma_month_table(MAX_YEAR as int);
    if MIN_YEAR < y {
        lemma_years_ordered(MIN_YEAR as int, y);
    }
    if y < MAX_YEAR {
        lemma_years_ordered(y, MAX_YEAR as int);
    }
    lemma_months_ordered(y, m, 13);
    assert(days_before_year(MIN_YEAR as int) + 1 == MIN_DAYS);
    assert(days_before_year(MAX_YEAR as int) + year_len(MAX_YEAR as int) == MAX_DAYS);
}

/// December 31 is followed by January 1 of the next year.
pub proof fn lemma_year_end(y: int)
    ensures
        civil_days(y, 12, 31) + 1 == civil_days(y + 1, 1, 1),
{
    lemma_month_table(y);
    lemma_month_table(y + 1);
    lemma_year_step(y);
}

/// Day numbers of a year in calendar order: month `m`, day `d` lies
/// `days_before_month(y, m) + d - 1` days after January 1.
pub proof fn lemma_month_offsets(y: int)
    ensures
        days_before_month(y, 1) == 0,
        days_before_month(y, 2) == 31,
        days_before_month(y, 3) == 31 + days_in_month(y, 2),
        days_before_month(y, 4) == 62 + days_in_month(y, 2),
        days_before_month(y, 5) == 92 + days_in_month(y, 2),
        days_before_month(y, 6) == 123 + days_in_month(y, 2),
        days_before_month(y, 7) == 153 + days_in_month(y, 2),
        days_before_month(y, 8) == 184 + days_in_month(y, 2),
        days_before_month(y, 9) == 215 + days_in_month(y, 2),
        days_before_month(y, 10) == 245 + days_in_month(y, 2),
        days_before_month(y, 11) == 276 + days_in_month(y, 2),
        days_before_month(y, 12) == 306 + days_in_month(y, 2),
        28 <= days_in_month(y, 2) <= 29,
{
    lemma_month_table(y);
}

/// Every day from January 1 to December 31 of a year in range lies in that
/// year.
pub proof fn lemma_year_of_day(y: int, d: int)
    requires
        MIN_YEAR <= y <= MAX_YEAR,
        civil_days(y, 1, 1) <= d <= civil_days(y, 12, 31),
    ensures
        year_of(d) == y,
{
    lemma_month_offsets(y);
    let k = d - civil_days(y, 1, 1);
    let m = if k >= days_before_month(y, 12) {
        12
    } else if k >= days_before_month(y, 11) {
        11
    } else if k >= days_before_month(y, 10) {
        10
    } else if k >= days_before_month(y, 9) {
        9
    } else if k >= days_before_month(y, 8) {
        8
    } else if k >= days_before_month(y, 7) {
        7
    } else if k >= days_before_month(y, 6) {
        6
    } else if k >= days_before_month(y, 5) {
        5
    } else if k >= days_before_month(y, 4) {
        4
    } else if k >= days_before_month(y, 3) {
        3
    } else if k >= days_before_month(y, 2) {
        2
    } else {
        1
    };
    let dd = k - days_before_month(y, m) + 1;
    assert(valid_ymd(y, m, dd));
    assert(civil_days(y, m, dd) == d);
    lemma_ymd_of_civil(y, m, dd);
}

/// Moving `k` days ahead moves the day of the week `k` places, cyclically.
pub proof fn lemma_weekday_shift(x: int, k: int)
    ensures
        weekday_of(x + k) == (weekday_of(x) + k) % 7,
{
}

/// Seconds and nanoseconds that `chrono` accepts as a UTC instant: the day
/// is in range, and a nanosecond count past one second only marks a leap
/// second at the end of a minute.
pub open spec fn valid_timestamp(secs: int, nanos: int) -> bool {
    &&& in_day_range(secs / 86400 + 719163)
    &&& (nanos < 1_000_000_000 || (nanos < 2_000_000_000 && secs % 60 == 59))
}

/// The current UTC time from `chrono`, as seconds and nanoseconds since the
/// Unix epoch.
#[verifier::external_body]
fn chrono_utc_now() -> (r: (i64, u32))
    ensures
        valid_timestamp(r.0 as int, r.1 as int),
{
    let now = chrono::Utc::now();
    (now.timestamp(), now.timestamp_subsec_nanos())
}

/// Whether `chrono` accepts the seconds and nanoseconds as a UTC instant.
#[verifier::external_body]
fn chrono_timestamp_valid(secs: i64, nanos: u32) -> (r: bool)
    ensures
        r == valid_timestamp(secs as int, nanos as int),
{
    chrono::DateTime::from_timestamp(secs, nanos).is_some()
}

/// Day number of the UTC calendar day of a timestamp, from `chrono`.
#[verifier::external_body]
fn chrono_utc_date_days(secs: i64, nanos: u32) -> (r: i32)
    requires
        valid_timestamp(secs as int, nanos as int),
    ensures
        r == secs / 86400 + 719163,
{
    chrono::DateTime::from_timestamp(secs, nanos).unwrap().date_naive().num_days_from_ce()
}

/// Day number of the UTC calendar day of an instant given as (seconds,
/// nanoseconds) since the Unix epoch.
pub open spec fn utc_day(t: (int, int)) -> int {
    t.0 / 86400 + 719163
}

/// A UTC instant with nanosecond precision.
#[derive(Clone, Copy, Debug, PartialEq, Eq, PartialOrd, Ord, Hash)]
pub struct Timestamp {
    secs: i64,
    nanos: u32,
}

impl View for Timestamp {
    type V = (int, int);

    closed spec fn view(&self) -> (int, int) {
        (self.secs as int, self.nanos as int)
    }
}

impl Timestamp {
    #[verifier::type_invariant]
    spec fn valid(self) -> bool {
        valid_timestamp(self.secs as int, self.nanos as int)
    }

    /// The instant `secs` seconds and `nanos` nanoseconds after the Unix
    /// epoch, or `None` when `chrono` could not represent it.
    pub fn from_parts(secs: i64, nanos: u32) -> (r: Option<Timestamp>)
        ensures
            r is Some <==> valid_timestamp(secs as int, nanos as int),
            r matches Some(t) ==> t@ == (secs as int, nanos as int),
    {
        if chrono_timestamp_valid(secs, nanos) {
            Some(Timestamp { secs, nanos })
        } else {
            None
        }
    }

    /// The current time: some instant `chrono` can represent.
    pub fn now() -> (r: Timestamp)
        ensures
            valid_timestamp(r@.0, r@.1),
    {
        let (secs, nanos) = chrono_utc_now();
        Timestamp { secs, nanos }
    }

    pub fn secs(&self) -> (r: i64)
        ensures
            r == self@.0,
    {
        self.secs
    }

    pub fn nanos(&self) -> (r: u32)
        ensures
            r == self@.1,
    {
        self.nanos
    }

    /// The UTC calendar day of the instant.
    pub fn date(&self) -> (r: Date)
        ensures
            r@ == utc_day(self@),
    {
        proof {
            use_type_invariant(self);
        }
        let n = chrono_utc_date_days(self.secs, self.nanos);
        Date { days: n }
    }
}

} // verus!
