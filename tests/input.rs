use mach::tui::cursor::{FocusCursor, Region};
use mach::tui::input::{dispatch, Action, ChordState, Direction, InputState, Key, KeyCode, UiMode};

fn ch(c: char) -> Key {
    Key { code: KeyCode::Char(c), ctrl: false }
}

fn board() -> InputState {
    InputState::new()
}

#[test]
fn cursor_clamps_at_edges() {
    let lens = vec![2, 0, 5];
    let mut c = FocusCursor::new(Region::Day, &lens);
    assert_eq!((c.column, c.row), (0, Some(0)));
    c.move_column(-1, &lens);
    assert_eq!((c.column, c.row), (0, Some(0)));
    c.move_row(1, &lens);
    c.move_row(1, &lens);
    assert_eq!(c.row, Some(1));
    c.move_column(2, &lens);
    assert_eq!((c.column, c.row), (2, Some(1)));
    c.move_column(1, &lens);
    assert_eq!(c.column, 2);
    c.move_row(-3, &lens);
    assert_eq!(c.row, Some(0));
}

#[test]
fn moving_into_empty_column_gives_sentinel() {
    let lens = vec![3, 0, 1];
    let mut c = FocusCursor::new(Region::Day, &lens);
    c.move_row(1, &lens);
    c.move_row(1, &lens);
    assert_eq!(c.row, Some(2));
    c.move_column(1, &lens);
    assert_eq!((c.column, c.row), (1, None));
    c.move_row(1, &lens);
    assert_eq!(c.row, None);
    c.move_column(1, &lens);
    assert_eq!((c.column, c.row), (2, Some(0)));
}

#[test]
fn shorter_column_snaps_row_to_last() {
    let lens = vec![5, 2];
    let mut c = FocusCursor::new(Region::Backlog, &lens);
    c.set_focus(0, 4, &lens);
    assert_eq!(c.row, Some(4));
    c.move_column(1, &lens);
    assert_eq!((c.column, c.row), (1, Some(1)));
    c.set_focus(9, 9, &lens);
    assert_eq!((c.column, c.row), (1, Some(1)));
    let shrunk = vec![5, 0];
    c.clamp(&shrunk);
    assert_eq!((c.column, c.row), (1, None));
    assert_eq!(c.region, Region::Backlog);
}

#[test]
fn jump_chord_fires_on_consecutive_keys() {
    let (a, s) = dispatch(ch('g'), board());
    assert_eq!(a, Action::NoOp);
    assert_eq!(s.chord, ChordState::PendingJump);
    let (a, s) = dispatch(ch('g'), s);
    assert_eq!(a, Action::JumpToday);
    assert_eq!(s.chord, ChordState::Idle);
    // A third press arms again rather than firing.
    let (a, s) = dispatch(ch('g'), s);
    assert_eq!(a, Action::NoOp);
    assert_eq!(s.chord, ChordState::PendingJump);
}

#[test]
fn interleaved_key_disarms_chord() {
    let (_, s) = dispatch(ch('g'), board());
    let (a, s) = dispatch(ch('j'), s);
    assert_eq!(a, Action::MoveFocus(Direction::Down));
    assert_eq!(s.chord, ChordState::Idle);
    let (a, s) = dispatch(ch('g'), s);
    assert_eq!(a, Action::NoOp);
    assert_eq!(s.chord, ChordState::PendingJump);
}

#[test]
fn delete_chord_then_unrelated_key() {
    let (a, s) = dispatch(ch('d'), board());
    assert_eq!(a, Action::RequestDelete);
    assert_eq!(s.chord, ChordState::PendingDelete);
    let (a, s) = dispatch(ch('x'), s);
    assert_ne!(a, Action::ConfirmDelete);
    assert_eq!(a, Action::NoOp);
    assert_eq!(s.chord, ChordState::Idle);
}

#[test]
fn arming_one_chord_disarms_the_other() {
    let (_, s) = dispatch(ch('d'), board());
    let (a, s) = dispatch(ch('g'), s);
    assert_eq!(a, Action::NoOp);
    assert_eq!(s.chord, ChordState::PendingJump);
    let (a, s) = dispatch(ch('d'), s);
    assert_eq!(a, Action::RequestDelete);
    assert_eq!(s.chord, ChordState::PendingDelete);
    let (a, _) = dispatch(ch('d'), s);
    assert_eq!(a, Action::ConfirmDelete);
}

#[test]
fn quit_overrides_everything() {
    let (_, s) = dispatch(ch('d'), board());
    let (a, s2) = dispatch(ch('q'), s);
    assert_eq!(a, Action::Quit);
    assert_eq!(s2.chord, ChordState::Idle);
    let help = InputState { mode: UiMode::HelpOverlay(Region::Backlog), chord: ChordState::Idle };
    let (a, _) = dispatch(Key { code: KeyCode::Char('c'), ctrl: true }, help);
    assert_eq!(a, Action::Quit);
}

#[test]
fn help_returns_to_prior_board() {
    let (a, s) = dispatch(Key { code: KeyCode::Tab, ctrl: false }, board());
    assert_eq!(a, Action::SwitchRegion);
    assert_eq!(s.mode, UiMode::BacklogBoard);
    let (a, s) = dispatch(ch('?'), s);
    assert_eq!(a, Action::ToggleHelp);
    assert_eq!(s.mode, UiMode::HelpOverlay(Region::Backlog));
    let (a, s) = dispatch(ch('g'), s);
    assert_eq!(a, Action::ToggleHelp);
    assert_eq!(s.mode, UiMode::BacklogBoard);
    assert_eq!(s.chord, ChordState::Idle);
}

#[test]
fn week_shift_only_on_day_board() {
    let (a, _) = dispatch(ch(']'), board());
    assert_eq!(a, Action::ShiftWeek(1));
    let (a, _) = dispatch(ch('['), board());
    assert_eq!(a, Action::ShiftWeek(-1));
    let backlog = InputState { mode: UiMode::BacklogBoard, chord: ChordState::Idle };
    let (a, _) = dispatch(ch(']'), backlog);
    assert_eq!(a, Action::NoOp);
    let (a, _) = dispatch(Key { code: KeyCode::Left, ctrl: false }, backlog);
    assert_eq!(a, Action::MoveFocus(Direction::Left));
}
