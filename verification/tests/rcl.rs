use iskra::date::Date;
use iskra::lectionary::calendar::is_sunday;
use iskra::lectionary::RclTrack;
use iskra::rcl::{
    advent_sunday, easter, get_liturgical_info, lectionary_year, liturgical_info_for_track,
    proper_for_date,
};

fn d(y: i32, m: u32, day: u32) -> Date {
    Date::from_ymd(y, m, day).unwrap()
}

#[test]
fn rcl_easter_2024() {
    assert_eq!(easter(2024), d(2024, 3, 31));
}

#[test]
fn easter_2025() {
    assert_eq!(easter(2025), d(2025, 4, 20));
}

#[test]
fn easter_2026() {
    assert_eq!(easter(2026), d(2026, 4, 5));
}

#[test]
fn easter_2027() {
    assert_eq!(easter(2027), d(2027, 3, 28));
}

#[test]
fn easter_2028() {
    assert_eq!(easter(2028), d(2028, 4, 16));
}

#[test]
fn rcl_advent_2024() {
    assert_eq!(advent_sunday(2024), d(2024, 12, 1));
}

#[test]
fn advent_2025() {
    assert_eq!(advent_sunday(2025), d(2025, 11, 30));
}

#[test]
fn advent_2026() {
    assert_eq!(advent_sunday(2026), d(2026, 11, 29));
}

#[test]
fn rcl_advent_is_sunday() {
    for year in 2020..2030 {
        let day = advent_sunday(year);
        assert_eq!(day.weekday_from_monday(), 6, "Advent {year} is not a Sunday: {day:?}");
    }
}

#[test]
fn year_b_advent_2023() {
    assert_eq!(lectionary_year(d(2023, 12, 3)), "B");
}

#[test]
fn year_b_christmas_2023() {
    assert_eq!(lectionary_year(d(2023, 12, 25)), "B");
}

#[test]
fn year_c_advent_2024() {
    assert_eq!(lectionary_year(d(2024, 12, 1)), "C");
}

#[test]
fn year_b_mid_2024() {
    assert_eq!(lectionary_year(d(2024, 6, 1)), "B");
}

#[test]
fn year_c_mid_2025() {
    assert_eq!(lectionary_year(d(2025, 6, 1)), "C");
}

#[test]
fn year_a_mid_2026() {
    assert_eq!(lectionary_year(d(2026, 6, 1)), "A");
}

#[test]
fn rcl_three_year_cycle() {
    let years: std::collections::HashSet<_> =
        (0..6).map(|i| lectionary_year(d(2020 + i, 6, 1))).collect();
    assert_eq!(years.len(), 3);
}

#[test]
fn proper_4_june_1() {
    assert_eq!(proper_for_date(d(2024, 6, 1)), Some(4));
}

#[test]
fn proper_4_may_28() {
    assert_eq!(proper_for_date(d(2024, 5, 28)), Some(4));
}

#[test]
fn proper_29_nov_23() {
    assert_eq!(proper_for_date(d(2024, 11, 23)), Some(29));
}

#[test]
fn proper_29_nov_19() {
    assert_eq!(proper_for_date(d(2024, 11, 19)), Some(29));
}

#[test]
fn proper_in_range() {
    for date in [d(2024, 6, 1), d(2024, 7, 1), d(2024, 9, 1), d(2024, 11, 1)] {
        let p = proper_for_date(date).unwrap();
        assert!((4..=29).contains(&p));
    }
}

#[test]
fn ash_wednesday_2024_season() {
    assert_eq!(get_liturgical_info(d(2024, 2, 14)).season, "Lent");
}

#[test]
fn ash_wednesday_2024_week() {
    assert_eq!(get_liturgical_info(d(2024, 2, 14)).week, "Ash Wednesday");
}

#[test]
fn lent_has_readings() {
    let info = get_liturgical_info(d(2024, 3, 10));
    assert!(info.found);
    assert_ne!(info.gospel, "—");
}

#[test]
fn palm_sunday_2024_season() {
    assert_eq!(get_liturgical_info(d(2024, 3, 24)).season, "Palm Sunday");
}

#[test]
fn good_friday_2024() {
    let info = get_liturgical_info(d(2024, 3, 29));
    assert!(info.found);
    assert_eq!(info.season, "Good Friday");
}

#[test]
fn easter_sunday_2024_season() {
    assert_eq!(get_liturgical_info(d(2024, 3, 31)).season, "Easter");
}

#[test]
fn easter_sunday_2024_week() {
    assert!(get_liturgical_info(d(2024, 3, 31)).week.contains("Easter Sunday"));
}

#[test]
fn easter_has_readings() {
    let info = get_liturgical_info(d(2024, 3, 31));
    assert!(info.found);
    assert_ne!(info.gospel, "—");
}

#[test]
fn advent_1_2024_season() {
    assert_eq!(get_liturgical_info(d(2024, 12, 1)).season, "Advent");
}

#[test]
fn advent_has_readings() {
    let info = get_liturgical_info(d(2024, 12, 1));
    assert!(info.found);
    assert_ne!(info.gospel, "—");
}

#[test]
fn christmas_2024() {
    let info = get_liturgical_info(d(2024, 12, 25));
    assert_eq!(info.season, "Christmas");
    assert!(info.found);
}

#[test]
fn ordinary_time_season() {
    assert_eq!(get_liturgical_info(d(2024, 7, 14)).season, "Ordinary");
}

#[test]
fn ordinary_time_has_proper() {
    assert!(get_liturgical_info(d(2024, 7, 14)).week.contains("Ordinary"));
}

#[test]
fn ordinary_time_has_readings() {
    assert!(get_liturgical_info(d(2024, 7, 14)).found);
}

#[test]
fn advent_colour_purple() {
    let colour = get_liturgical_info(d(2024, 12, 1)).colour.to_lowercase();
    assert!(colour == "purple" || colour == "violet");
}

#[test]
fn easter_colour_white() {
    let colour = get_liturgical_info(d(2024, 3, 31)).colour.to_lowercase();
    assert!(colour.contains("white"));
}

#[test]
fn ordinary_colour_green() {
    assert_eq!(get_liturgical_info(d(2024, 7, 14)).colour.to_lowercase(), "green");
}

#[test]
fn lent_colour_purple() {
    let colour = get_liturgical_info(d(2024, 3, 10)).colour.to_lowercase();
    assert!(colour == "purple" || colour == "violet");
}

#[test]
fn year_in_info() {
    let year = get_liturgical_info(d(2024, 7, 14)).year;
    assert!(year == "A" || year == "B" || year == "C");
}

#[test]
fn year_b_easter_2024() {
    assert_eq!(get_liturgical_info(d(2024, 3, 31)).year, "B");
}

#[test]
fn epiphany_season_weekdays_do_not_crash() {
    let start = d(2026, 1, 1);
    for i in 0..90 {
        let _ = get_liturgical_info(start.add_days(i));
    }
}

#[test]
fn january_weekday_no_crash_specific() {
    let info = get_liturgical_info(d(2026, 1, 13));
    assert!(!info.season.is_empty());
}

#[test]
fn dec26_31_stays_christmas_when_christmas_day_is_sunday() {
    assert_eq!(d(2033, 12, 25).weekday_from_monday(), 6);
    for day in 26..=31 {
        let info = get_liturgical_info(d(2033, 12, day));
        assert_eq!(info.season, "Christmas");
    }
}

#[test]
fn christmas_day_on_a_sunday_is_christmas_not_advent() {
    for year in [2022, 2033] {
        let info = get_liturgical_info(d(year, 12, 25));
        assert_eq!(info.season, "Christmas", "{year}");
        let adv4 = get_liturgical_info(d(year, 12, 18));
        assert_eq!(adv4.season, "Advent", "{year}");
        assert_eq!(advent_sunday(year), d(year, 11, 27));
    }
}

#[test]
fn golden_year_of_sundays_2026() {
    let expectations: &[(&str, &str)] = &[
        ("2026-01-04", "Christmas"),
        ("2026-01-11", "Epiphany"),
        ("2026-01-18", "Epiphany"),
        ("2026-01-25", "Epiphany"),
        ("2026-02-01", "Epiphany"),
        ("2026-02-08", "Epiphany"),
        ("2026-02-15", "Transfiguration"),
        ("2026-02-22", "Lent"),
        ("2026-03-01", "Lent"),
        ("2026-03-08", "Lent"),
        ("2026-03-15", "Lent"),
        ("2026-03-22", "Lent"),
        ("2026-03-29", "Palm Sunday"),
        ("2026-04-05", "Easter"),
        ("2026-04-12", "Easter"),
        ("2026-04-19", "Easter"),
        ("2026-04-26", "Easter"),
        ("2026-05-03", "Easter"),
        ("2026-05-10", "Easter"),
        ("2026-05-17", "Easter"),
        ("2026-05-24", "Pentecost"),
        ("2026-05-31", "Trinity"),
        ("2026-11-22", "Christ the King"),
        ("2026-11-29", "Advent"),
        ("2026-12-06", "Advent"),
        ("2026-12-13", "Advent"),
        ("2026-12-20", "Advent"),
        ("2026-12-25", "Christmas"),
        ("2026-12-27", "Christmas"),
    ];
    for &(date_str, expected_season) in expectations {
        let parts: Vec<i32> = date_str.split('-').map(|p| p.parse().unwrap()).collect();
        let date = d(parts[0], parts[1] as u32, parts[2] as u32);
        let info = get_liturgical_info(date);
        assert_eq!(
            info.season, expected_season,
            "{date_str}: expected season {expected_season}, got {}",
            info.season
        );
    }
}

#[test]
fn golden_year_all_sundays_resolve_without_panic_and_have_valid_year() {
    let mut day = d(2026, 1, 1);
    let end = d(2027, 1, 1);
    while day < end {
        if is_sunday(day) {
            let info = get_liturgical_info(day);
            assert!(matches!(info.year.as_str(), "A" | "B" | "C"));
        }
        day = day.add_days(1);
    }
}

#[test]
fn complementary_track_keeps_epistle_and_gospel() {
    let date = d(2024, 7, 14);
    let semi = liturgical_info_for_track(date, RclTrack::Semicontinuous);
    let comp = liturgical_info_for_track(date, RclTrack::Complementary);
    assert_eq!(semi.season, comp.season);
    assert_eq!(semi.week, comp.week);
    assert_eq!(semi.epistle, comp.epistle);
    assert_eq!(semi.gospel, comp.gospel);
    assert_eq!(semi, get_liturgical_info(date));
}

#[test]
fn result_fields_agree_across_a_year() {
    let mut day = d(2025, 1, 1);
    while day <= d(2026, 12, 31) {
        let info = get_liturgical_info(day);
        assert!(["A", "B", "C"].contains(&info.year.as_str()));
        assert_eq!(info.year, lectionary_year(day));
        assert_eq!(info.found, info.gospel != "—", "{day:?}");
        if !info.found {
            assert_eq!((info.ot.as_str(), info.psalm.as_str()), ("—", "—"));
            assert_eq!((info.epistle.as_str(), info.gospel.as_str()), ("—", "—"));
        }
        day = day.add_days(1);
    }
}

#[test]
fn year_zero_has_a_lectionary() {
    let info = get_liturgical_info(d(0, 6, 1));
    assert!(["A", "B", "C"].contains(&info.year.as_str()));
    assert!(!info.season.is_empty());
}

#[test]
fn years_before_zero_have_a_lectionary_where_easter_is_defined() {
    for day in [d(-3, 1, 1), d(-3, 3, 15), d(-3, 6, 1), d(-3, 12, 25)] {
        let info = get_liturgical_info(day);
        assert!(["A", "B", "C"].contains(&info.year.as_str()));
        assert_eq!(info.found, info.gospel != "—");
    }
}
