use iskra::date::Date;
use iskra::lectionary::narrative::{
    get_liturgical_info, labor_day, program_year, weeks_for_program_year, year1_matthew, year2_mark,
    year3_luke, year4_john,
};

fn d(y: i32, m: u32, day: u32) -> Date {
    Date::from_ymd(y, m, day).unwrap()
}

#[test]
fn labor_day_2026_is_first_monday_of_september() {
    let ld = labor_day(2026);
    assert_eq!(ld.weekday_from_monday(), 0);
    assert_eq!(ld.month(), 9);
    assert!(ld.day() <= 7);
}

#[test]
fn program_year_before_labor_day_is_previous_year() {
    assert_eq!(program_year(d(2027, 3, 1)), 2026);
}

#[test]
fn program_year_after_labor_day_is_same_year() {
    assert_eq!(program_year(d(2026, 9, 20)), 2026);
}

#[test]
fn year1_matthew_maps_to_2026_program_year() {
    let (label, weeks) = weeks_for_program_year(2026);
    assert_eq!(label, "1 (Matthew)");
    assert_eq!(weeks, year1_matthew());
}

#[test]
fn fall_sunday_after_labor_day_2026_resolves() {
    let info = get_liturgical_info(d(2026, 9, 13));
    assert!(info.found);
    assert_eq!(info.season, "Sixteenth Sunday after Pentecost");
}

#[test]
fn christmas_eve_2026_resolves() {
    let info = get_liturgical_info(d(2026, 12, 24));
    assert!(info.found);
    assert_eq!(info.season, "Christmas Eve");
}

#[test]
fn easter_sunday_resolves_to_exact_season_not_a_later_sunday() {
    let info = get_liturgical_info(d(2027, 3, 28));
    assert!(info.found);
    assert_eq!(info.season, "Easter");
}

#[test]
fn pentecost_2027_resolves() {
    let info = get_liturgical_info(d(2027, 5, 16));
    assert!(info.found);
    assert_eq!(info.season, "Pentecost");
}

#[test]
fn summer_2026_week_resolves() {
    let info = get_liturgical_info(d(2026, 5, 31));
    assert!(info.found);
    assert_eq!(info.week, "Loss and Loyalty");
}

#[test]
fn narrative_every_sunday_of_2026_resolves_without_panic() {
    let mut day = d(2026, 1, 1);
    let end = d(2027, 1, 1);
    while day < end {
        let _ = get_liturgical_info(day);
        day = day.add_days(1);
    }
}

#[test]
fn program_years_cycle_through_the_four_gospels() {
    assert_eq!(weeks_for_program_year(2027), ("2 (Mark)", year2_mark()));
    assert_eq!(weeks_for_program_year(2028), ("3 (Luke)", year3_luke()));
    assert_eq!(weeks_for_program_year(2029), ("4 (John)", year4_john()));
    assert_eq!(weeks_for_program_year(2030).0, "1 (Matthew)");
}

#[test]
fn labor_day_is_program_year_boundary() {
    let ld = labor_day(2026);
    assert_eq!(ld, d(2026, 9, 7));
    assert_eq!(program_year(ld), 2026);
    assert_eq!(program_year(ld.add_days(-1)), 2025);
}

#[test]
fn narrative_years_before_zero_where_easter_is_defined() {
    for day in [Date::from_ymd(-3, 1, 1).unwrap(), Date::from_ymd(-3, 10, 4).unwrap()] {
        let info = get_liturgical_info(day);
        assert!(!info.season.is_empty());
    }
}
