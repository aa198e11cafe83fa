use mach::service::config::WeekStart;
use mach::tui::date::Date;
use mach::tui::engine::{BacklogTodo, Effect, Engine, ScheduledTodo};
use mach::tui::input::{ChordState, Key, KeyCode, UiMode};
use mach::tui::state::TodoView;

fn ymd(y: i32, m: u32, d: u32) -> Date {
    Date::from_ymd(y, m, d).unwrap()
}

fn todo(id: u128, title: &str) -> TodoView {
    TodoView { id, title: title.to_string(), status: "pending".to_string() }
}

fn ch(c: char) -> Key {
    Key { code: KeyCode::Char(c), ctrl: false }
}

fn sample() -> Engine {
    let mut e = Engine::new(ymd(2024, 6, 13), WeekStart::Sunday);
    e.apply_refresh(
        vec![
            ScheduledTodo { date: ymd(2024, 6, 10), todo: todo(1, "mon a") },
            ScheduledTodo { date: ymd(2024, 6, 13), todo: todo(2, "thu a") },
            ScheduledTodo { date: ymd(2024, 6, 10), todo: todo(3, "mon b") },
            ScheduledTodo { date: ymd(2024, 6, 13), todo: todo(4, "thu b") },
            ScheduledTodo { date: ymd(2024, 7, 1), todo: todo(5, "elsewhere") },
        ],
        vec![
            BacklogTodo { column: Some(2), todo: todo(6, "later") },
            BacklogTodo { column: None, todo: todo(7, "someday") },
            BacklogTodo { column: Some(9), todo: todo(8, "odd") },
        ],
    );
    e
}

#[test]
fn new_engine_focuses_today() {
    let e = Engine::new(ymd(2024, 6, 13), WeekStart::Sunday);
    assert_eq!(e.week.week_start, ymd(2024, 6, 9));
    assert_eq!(e.cursor.column, 4);
    assert_eq!(e.cursor.row, None);
    assert_eq!((e.backlog_cursor.column, e.backlog_cursor.row), (0, None));
    assert_eq!(e.board.days.len(), 7);
    assert!(e.board.days.iter().all(|d| d.is_empty()));
    assert!(e.board.backlog_columns.iter().all(|c| c.is_empty()));
    assert_eq!(e.input.mode, UiMode::DayBoard);
    assert_eq!(e.input.chord, ChordState::Idle);
    assert!(!e.should_quit);
}

#[test]
fn refresh_groups_by_date_and_column() {
    let e = sample();
    assert_eq!(e.board.find_day_position(1), Some((1, 0)));
    assert_eq!(e.board.find_day_position(3), Some((1, 1)));
    assert_eq!(e.board.find_day_position(4), Some((4, 1)));
    assert_eq!(e.board.find_day_position(5), None);
    assert_eq!(e.board.find_backlog_position(6), Some((2, 0)));
    assert_eq!(e.board.find_backlog_position(7), Some((0, 0)));
    assert_eq!(e.board.find_backlog_position(8), Some((0, 1)));
    assert_eq!((e.cursor.column, e.cursor.row), (4, Some(0)));
}

#[test]
fn jump_chord_focuses_today() {
    let mut e = sample();
    e.handle_key(ch('h'));
    e.handle_key(ch('h'));
    e.handle_key(ch('h'));
    assert_eq!((e.cursor.column, e.cursor.row), (1, Some(0)));
    e.handle_key(ch('j'));
    assert_eq!(e.cursor.row, Some(1));
    assert_eq!(e.handle_key(ch('g')), Effect::Nothing);
    assert_eq!(e.handle_key(ch('g')), Effect::Nothing);
    let today = e.week.column_index(e.today);
    assert_eq!(today, Some(4));
    assert_eq!((Some(e.cursor.column), e.cursor.row), (today, Some(0)));
}

#[test]
fn jump_chord_returns_to_todays_week() {
    let mut e = sample();
    assert_eq!(e.handle_key(ch(']')), Effect::Refresh);
    assert_eq!(e.week.week_start, ymd(2024, 6, 16));
    e.handle_key(ch('g'));
    assert_eq!(e.handle_key(ch('g')), Effect::Refresh);
    assert_eq!(e.week.week_start, ymd(2024, 6, 9));
    assert_eq!(e.cursor.column, 4);
}

#[test]
fn delete_chord_needs_both_keys() {
    let mut e = sample();
    assert_eq!(e.handle_key(ch('d')), Effect::Nothing);
    assert_eq!(e.handle_key(ch('x')), Effect::Nothing);
    assert_eq!(e.input.chord, ChordState::Idle);
    assert_eq!(e.board.find_day_position(2), Some((4, 0)));
    e.handle_key(ch('d'));
    assert_eq!(e.handle_key(ch('d')), Effect::Delete(2));
}

#[test]
fn delete_in_backlog_uses_backlog_cursor() {
    let mut e = sample();
    e.handle_key(Key { code: KeyCode::Tab, ctrl: false });
    e.handle_key(ch('j'));
    e.handle_key(ch('d'));
    assert_eq!(e.handle_key(ch('d')), Effect::Delete(8));
    e.handle_key(ch('l'));
    e.handle_key(ch('d'));
    assert_eq!(e.handle_key(ch('d')), Effect::Nothing);
}

#[test]
fn quit_sets_flag() {
    let mut e = sample();
    assert_eq!(e.handle_key(Key { code: KeyCode::Char('c'), ctrl: true }), Effect::Quit);
    assert!(e.should_quit);
}
