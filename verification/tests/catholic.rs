use iskra::date::Date;
use iskra::lectionary::calendar::is_sunday;
use iskra::lectionary::catholic::{epiphany_sunday, get_liturgical_info};

fn d(y: i32, m: u32, day: u32) -> Date {
    Date::from_ymd(y, m, day).unwrap()
}

#[test]
fn christ_the_king_is_ordinary_34() {
    let info = get_liturgical_info(d(2026, 11, 22));
    assert_eq!(info.season, "Christ the King");
}

#[test]
fn trinity_sunday_2026() {
    let info = get_liturgical_info(d(2026, 5, 31));
    assert_eq!(info.season, "Trinity");
}

#[test]
fn corpus_christi_follows_trinity_by_a_week() {
    let info = get_liturgical_info(d(2026, 6, 7));
    assert_eq!(info.week, "Corpus Christi, Year A");
}

#[test]
fn baptism_of_lord_is_the_sunday_after_epiphany() {
    let epiphany = epiphany_sunday(2026);
    let info = get_liturgical_info(epiphany.add_days(7));
    assert_eq!(info.season, "Baptism");
}

#[test]
fn ordinary_time_numbering_starts_at_2() {
    let epiphany = epiphany_sunday(2026);
    let baptism = epiphany.add_days(7);
    let info = get_liturgical_info(baptism.add_days(7));
    assert_eq!(info.week, "Ordinary Time 2, Year A");
}

#[test]
fn ordinary_time_after_pentecost_reaches_34_at_christ_the_king() {
    let info = get_liturgical_info(d(2026, 11, 22));
    assert_eq!(info.week, "Christ the King, Year A");
}

#[test]
fn catholic_every_sunday_of_2026_resolves_without_panic() {
    let mut day = d(2026, 1, 1);
    let end = d(2027, 1, 1);
    while day < end {
        if is_sunday(day) {
            let info = get_liturgical_info(day);
            assert!(!info.season.is_empty());
        }
        day = day.add_days(1);
    }
}

#[test]
fn epiphany_sunday_is_the_sunday_of_january_2_to_8() {
    assert_eq!(epiphany_sunday(2026), d(2026, 1, 4));
    assert_eq!(epiphany_sunday(2027), d(2027, 1, 3));
    assert_eq!(epiphany_sunday(2028), d(2028, 1, 2));
}

#[test]
fn ordinary_time_before_christ_the_king_counts_back() {
    let info = get_liturgical_info(d(2026, 11, 15));
    assert_eq!(info.week, "Ordinary Time 33, Year A");
    assert_eq!(info.season, "Ordinary");
}

#[test]
fn a_weekday_falls_back_to_unfound_ordinary_time() {
    let info = get_liturgical_info(d(2026, 7, 15));
    assert_eq!(info.season, "Ordinary");
    assert_eq!(info.week, "Ordinary Time");
    assert!(!info.found);
    assert!(info.readings.is_empty());
}

#[test]
fn catholic_years_before_zero_where_easter_is_defined() {
    for day in [d(-3, 1, 1), d(-3, 3, 15), d(-3, 6, 1), d(-3, 12, 25)] {
        let info = get_liturgical_info(day);
        assert!(!info.season.is_empty());
    }
}
