use iskra::date::Date;
use iskra::lectionary::calendar::{
    advent_sunday, easter, easter_is_defined, is_sunday, lectionary_year, nearest_sunday, sunday_on_or_before,
};

fn d(y: i32, m: u32, day: u32) -> Date {
    Date::from_ymd(y, m, day).unwrap()
}

#[test]
fn calendar_easter_2024() {
    assert_eq!(easter(2024), d(2024, 3, 31));
}

#[test]
fn calendar_advent_2024() {
    assert_eq!(advent_sunday(2024), d(2024, 12, 1));
}

#[test]
fn calendar_advent_is_sunday() {
    for year in 2020..2030 {
        let day = advent_sunday(year);
        assert_eq!(day.weekday_from_monday(), 6);
    }
}

#[test]
fn calendar_three_year_cycle() {
    let years: std::collections::HashSet<_> =
        (0..6).map(|i| lectionary_year(d(2020 + i, 6, 1))).collect();
    assert_eq!(years.len(), 3);
}

#[test]
fn easter_falls_between_march_22_and_april_25() {
    for year in 1900..2200 {
        let e = easter(year);
        assert!(is_sunday(e));
        assert!(d(year, 3, 22) <= e && e <= d(year, 4, 25), "{year}: {e:?}");
    }
}

#[test]
fn advent_sunday_when_christmas_is_a_sunday() {
    assert_eq!(d(2022, 12, 25).weekday_from_monday(), 6);
    assert_eq!(advent_sunday(2022), d(2022, 11, 27));
    assert_eq!(d(2033, 12, 25).weekday_from_monday(), 6);
    assert_eq!(advent_sunday(2033), d(2033, 11, 27));
}

#[test]
fn advent_sunday_falls_from_november_27_to_december_3() {
    for year in 1900..2200 {
        let a = advent_sunday(year);
        assert!(d(year, 11, 27) <= a && a <= d(year, 12, 3), "{year}: {a:?}");
        assert!(is_sunday(a));
    }
}

#[test]
fn nearest_and_previous_sunday() {
    assert_eq!(nearest_sunday(d(2026, 1, 6)), d(2026, 1, 4));
    assert_eq!(nearest_sunday(d(2026, 1, 8)), d(2026, 1, 11));
    assert_eq!(nearest_sunday(d(2026, 1, 4)), d(2026, 1, 4));
    assert_eq!(sunday_on_or_before(d(2026, 1, 10)), d(2026, 1, 4));
    assert_eq!(sunday_on_or_before(d(2026, 1, 11)), d(2026, 1, 11));
}

#[test]
fn easter_before_year_zero_follows_the_same_steps() {
    assert_eq!(easter(-1), d(-1, 3, 20));
    assert_eq!(easter(-4), d(-4, 3, 24));
    assert_eq!(easter(0), d(0, 4, 9));
}

#[test]
fn the_computus_gives_no_date_for_some_years_before_zero() {
    assert!(easter_is_defined(2024) && easter_is_defined(0) && easter_is_defined(-1));
    assert!(!easter_is_defined(-2));
    assert!(easter_is_defined(-3) && easter_is_defined(-4));
}
