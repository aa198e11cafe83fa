use mach::cmd::add::Args;
use mach::service::config::{week_start_setting, WeekStart};
use mach::service::connection::sqlite_url;
use mach::tui::date::Date;

#[test]
fn week_start_names() {
    assert_eq!(WeekStart::Sunday.as_str(), "sunday");
    assert_eq!(WeekStart::Monday.as_str(), "monday");
    assert_eq!(WeekStart::from("monday"), WeekStart::Monday);
    assert_eq!(WeekStart::from("Monday"), WeekStart::Sunday);
    assert_eq!(WeekStart::from("mondays"), WeekStart::Sunday);
    assert_eq!(WeekStart::from(""), WeekStart::Sunday);
    assert_eq!(WeekStart::from("sunday"), WeekStart::Sunday);
    assert_eq!(WeekStart::Sunday.toggle(), WeekStart::Monday);
    assert_eq!(WeekStart::Monday.toggle(), WeekStart::Sunday);
    assert_eq!(week_start_setting(Some("monday")), WeekStart::Monday);
    assert_eq!(week_start_setting(None), WeekStart::Sunday);
}

#[test]
fn sqlite_url_wraps_path() {
    assert_eq!(sqlite_url("/tmp/mach.db"), "sqlite:///tmp/mach.db?mode=rwc");
}

#[test]
fn add_args_title_and_day() {
    let args = Args { some_day: false, title: vec!["buy".to_string(), "oat".to_string(), "milk".to_string()] };
    assert_eq!(args.title(), "buy oat milk");
    let today = Date::from_ymd(2024, 6, 13).unwrap();
    assert_eq!(args.scheduled_for(today), Some(today));
    let later = Args { some_day: true, title: vec!["x".to_string()] };
    assert_eq!(later.title(), "x");
    assert_eq!(later.scheduled_for(today), None);
    let empty = Args { some_day: true, title: vec![] };
    assert_eq!(empty.title(), "");
}
