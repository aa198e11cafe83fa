use chrono::{Datelike, NaiveDate};
use mach::service::config::WeekStart;
use mach::tui::date::{Date, MAX_DAY, MIN_DAY};
use mach::tui::state::{start_of_week, week_fits_around, weekday_label, WeekState};

fn ymd(y: i32, m: u32, d: u32) -> Date {
    Date::from_ymd(y, m, d).unwrap()
}

#[test]
fn day_number_range_matches_chrono() {
    assert_eq!(NaiveDate::MIN.num_days_from_ce(), MIN_DAY);
    assert_eq!(NaiveDate::MAX.num_days_from_ce(), MAX_DAY);
    assert!(Date::from_day_number(MIN_DAY - 1).is_none());
    assert!(Date::from_day_number(MAX_DAY + 1).is_none());
    assert!(Date::from_day_number(MAX_DAY).is_some());
}

#[test]
fn date_parts_come_from_the_calendar() {
    let d = ymd(2024, 6, 13);
    assert_eq!(d.day_number(), 739050);
    assert_eq!(d.month(), 6);
    assert_eq!(d.day(), 13);
    assert_eq!(d.weekday_from_sunday(), 4);
    assert_eq!(ymd(1, 1, 1).day_number(), 1);
    assert_eq!(ymd(1, 1, 1).weekday_from_sunday(), 1);
    assert!(Date::from_ymd(2023, 2, 29).is_none());
    assert!(Date::from_ymd(2024, 13, 1).is_none());
    let leap = ymd(2024, 2, 29);
    assert_eq!(leap.add_days(1), ymd(2024, 3, 1));
    assert_eq!(leap.add_days(-60), ymd(2023, 12, 31));
}

#[test]
fn window_for_thursday_sunday_first() {
    let today = ymd(2024, 6, 13);
    let w = WeekState::new(today, WeekStart::Sunday);
    assert_eq!(w.week_start, ymd(2024, 6, 9));
    let titles: Vec<&str> = w.columns.iter().map(|c| c.title.as_str()).collect();
    assert_eq!(
        titles,
        vec!["Sun 06/09", "Mon 06/10", "Tue 06/11", "Wed 06/12", "Thu 06/13", "Fri 06/14", "Sat 06/15"]
    );
    for (i, c) in w.columns.iter().enumerate() {
        assert_eq!(c.date, ymd(2024, 6, 9 + i as u32));
    }
}

#[test]
fn window_for_thursday_monday_first() {
    let w = WeekState::new(ymd(2024, 6, 13), WeekStart::Monday);
    assert_eq!(w.week_start, ymd(2024, 6, 10));
    assert_eq!(w.columns[0].title, "Mon 06/10");
    assert_eq!(w.columns[6].title, "Sun 06/16");
}

#[test]
fn anchor_is_on_or_before_the_day() {
    for day in 1..=30u32 {
        let d = ymd(2024, 9, day);
        let sun = start_of_week(d, WeekStart::Sunday);
        let mon = start_of_week(d, WeekStart::Monday);
        assert_eq!(sun.weekday_from_sunday(), 0);
        assert_eq!(mon.weekday_from_sunday(), 1);
        assert!(sun.day_number() <= d.day_number() && d.day_number() < sun.day_number() + 7);
        assert!(mon.day_number() <= d.day_number() && d.day_number() < mon.day_number() + 7);
    }
    // A Sunday starts its own Sunday-first week and ends a Monday-first one.
    assert_eq!(start_of_week(ymd(2024, 6, 9), WeekStart::Sunday), ymd(2024, 6, 9));
    assert_eq!(start_of_week(ymd(2024, 6, 9), WeekStart::Monday), ymd(2024, 6, 3));
}

#[test]
fn labels_cross_month_and_year() {
    let w = WeekState::new(ymd(2024, 12, 31), WeekStart::Sunday);
    assert_eq!(w.columns[0].title, "Sun 12/29");
    assert_eq!(w.columns[3].title, "Wed 01/01");
    assert_eq!(weekday_label(0), "Sun");
    assert_eq!(weekday_label(6), "Sat");
}

#[test]
fn shift_then_shift_back_restores_anchor() {
    let mut w = WeekState::new(ymd(2024, 6, 13), WeekStart::Sunday);
    let start = w.week_start;
    w.shift(3);
    assert_eq!(w.week_start, ymd(2024, 6, 30));
    assert_eq!(w.columns[0].title, "Sun 06/30");
    w.shift(-3);
    assert_eq!(w.week_start, start);
    w.next_week();
    assert_eq!(w.week_start, ymd(2024, 6, 16));
    w.prev_week();
    w.prev_week();
    assert_eq!(w.week_start, ymd(2024, 6, 2));
    assert_eq!(w.columns[6].title, "Sat 06/08");
}

#[test]
fn column_index_only_inside_window() {
    let w = WeekState::new(ymd(2024, 6, 13), WeekStart::Sunday);
    assert_eq!(w.column_index(ymd(2024, 6, 9)), Some(0));
    assert_eq!(w.column_index(ymd(2024, 6, 13)), Some(4));
    assert_eq!(w.column_index(ymd(2024, 6, 15)), Some(6));
    assert_eq!(w.column_index(ymd(2024, 6, 8)), None);
    assert_eq!(w.column_index(ymd(2024, 6, 16)), None);
}

#[test]
fn week_fits_near_the_ends() {
    let day = |n: i32| Date::from_day_number(n).unwrap();
    assert!(week_fits_around(ymd(2024, 6, 13), WeekStart::Sunday));
    // The earliest day is a Thursday: its Sunday-first week starts before it.
    assert_eq!(day(MIN_DAY).weekday_from_sunday(), 4);
    assert!(!week_fits_around(day(MIN_DAY), WeekStart::Sunday));
    assert!(!week_fits_around(day(MIN_DAY + 2), WeekStart::Sunday));
    assert!(week_fits_around(day(MIN_DAY + 3), WeekStart::Sunday));
    assert!(week_fits_around(day(MIN_DAY + 4), WeekStart::Monday));
    // The latest day is a Monday: its week ends after it.
    assert_eq!(day(MAX_DAY).weekday_from_sunday(), 1);
    assert!(!week_fits_around(day(MAX_DAY), WeekStart::Sunday));
    assert!(!week_fits_around(day(MAX_DAY - 1), WeekStart::Sunday));
    assert!(week_fits_around(day(MAX_DAY - 2), WeekStart::Sunday));
    assert!(!week_fits_around(day(MAX_DAY), WeekStart::Monday));
    assert!(week_fits_around(day(MAX_DAY - 1), WeekStart::Monday));
    // A first day of a week close to the earliest day still has its window.
    assert_eq!(start_of_week(day(MIN_DAY + 3), WeekStart::Sunday), day(MIN_DAY + 3));
}

#[test]
fn calendar_dates_exist_exactly_when_valid() {
    assert!(Date::from_ymd(2024, 2, 29).is_some());
    assert!(Date::from_ymd(1900, 2, 29).is_none());
    assert!(Date::from_ymd(2000, 2, 29).is_some());
    assert!(Date::from_ymd(2024, 4, 31).is_none());
    assert!(Date::from_ymd(2024, 0, 1).is_none());
    assert!(Date::from_ymd(2024, 1, 0).is_none());
    assert!(Date::from_ymd(mach::tui::date::MAX_YEAR, 12, 31).is_some());
    assert!(Date::from_ymd(mach::tui::date::MAX_YEAR + 1, 1, 1).is_none());
    assert!(Date::from_ymd(mach::tui::date::MIN_YEAR, 1, 1).is_some());
    assert!(Date::from_ymd(mach::tui::date::MIN_YEAR - 1, 12, 31).is_none());
}
