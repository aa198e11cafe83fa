//! The modal, chorded keyboard state machine.
//!
//! Two chords are recognised: `g g` jumps to today and `d d` deletes the
//! selected task. The first key arms the chord; the very next key fires it
//! when it is the chord's second key, and otherwise disarms it and is handled
//! as if nothing were armed. Quitting (`q`, or Ctrl-C) overrides everything.

use vstd::prelude::*;
use crate::tui::cursor::Region;

verus! {

/// Which part of the screen has the keyboard; the help overlay remembers the
/// board region to go back to.
#[derive(Clone, Copy, Debug, PartialEq, Eq, Structural)]
pub enum UiMode {
    DayBoard,
    BacklogBoard,
    HelpOverlay(Region),
}

/// The armed chord, if any: at most one is armed at a time.
#[derive(Clone, Copy, Debug, PartialEq, Eq, Structural)]
pub enum ChordState {
    Idle,
    PendingJump,
    PendingDelete,
}

/// The key that was pressed.
#[derive(Clone, Copy, Debug, PartialEq, Eq, Structural)]
pub enum KeyCode {
    Char(char),
    Left,
    Right,
    Up,
    Down,
    Tab,
    Esc,
    Enter,
    Other,
}

/// A key event: the key and whether Control was held.
#[derive(Clone, Copy, Debug, PartialEq, Eq, Structural)]
pub struct Key {
    pub code: KeyCode,
    pub ctrl: bool,
}

/// A direction of focus movement.
#[derive(Clone, Copy, Debug, PartialEq, Eq, Structural)]
pub enum Direction {
    Left,
    Right,
    Up,
    Down,
}

/// What a key asks the board to do.
#[derive(Clone, Copy, Debug, PartialEq, Eq, Structural)]
pub enum Action {
    MoveFocus(Direction),
    SwitchRegion,
    ToggleHelp,
    /// Move the window by this many weeks (1 or -1).
    ShiftWeek(i32),
    RequestDelete,
    ConfirmDelete,
    JumpToday,
    Quit,
    NoOp,
}

/// The mode and the armed chord.
#[derive(Clone, Copy, Debug, PartialEq, Eq, Structural)]
pub struct InputState {
    pub mode: UiMode,
    pub chord: ChordState,
}

/// A chord.
#[derive(Clone, Copy, Debug, PartialEq, Eq, Structural)]
pub enum Chord {
    /// `g g`: focus today's column.
    Jump,
    /// `d d`: delete the selected task.
    Delete,
}

/// A plain key press of a character.
pub open spec fn plain(c: char) -> Key {
    Key { code: KeyCode::Char(c), ctrl: false }
}

/// The key that arms a chord, which is also the key that fires it.
pub open spec fn chord_key(c: Chord) -> Key {
    match c {
        Chord::Jump => plain('g'),
        Chord::Delete => plain('d'),
    }
}

/// Whether the chord is armed.
pub open spec fn armed(s: ChordState, c: Chord) -> bool {
    match c {
        Chord::Jump => s == ChordState::PendingJump,
        Chord::Delete => s == ChordState::PendingDelete,
    }
}

/// Whether an action is the firing of the chord.
pub open spec fn fires(a: Action, c: Chord) -> bool {
    match c {
        Chord::Jump => a == Action::JumpToday,
        Chord::Delete => a == Action::ConfirmDelete,
    }
}

/// Whether a key quits: `q`, or Ctrl-C.
pub open spec fn is_quit(k: Key) -> bool {
    k == plain('q') || k == (Key { code: KeyCode::Char('c'), ctrl: true })
}

/// Whether the mode is one of the two boards.
pub open spec fn is_board(m: UiMode) -> bool {
    m == UiMode::DayBoard || m == UiMode::BacklogBoard
}

/// The board mode of a region.
pub open spec fn board_mode(r: Region) -> UiMode {
    match r {
        Region::Day => UiMode::DayBoard,
        Region::Backlog => UiMode::BacklogBoard,
    }
}

/// The region of a board mode.
pub open spec fn region_of(m: UiMode) -> Region {
    match m {
        UiMode::BacklogBoard => Region::Backlog,
        UiMode::HelpOverlay(r) => r,
        UiMode::DayBoard => Region::Day,
    }
}

/// What a key that arms or fires no chord does on a board, with the mode it
/// leads to.
pub open spec fn board_key(code: KeyCode, mode: UiMode) -> (Action, UiMode) {
    match code {
        KeyCode::Char('?') => (Action::ToggleHelp, UiMode::HelpOverlay(region_of(mode))),
        KeyCode::Tab => (
            Action::SwitchRegion,
            if mode == UiMode::DayBoard {
                UiMode::BacklogBoard
            } else {
                UiMode::DayBoard
            },
        ),
        KeyCode::Char('h') | KeyCode::Left => (Action::MoveFocus(Direction::Left), mode),
        KeyCode::Char('l') | KeyCode::Right => (Action::MoveFocus(Direction::Right), mode),
        KeyCode::Char('k') | KeyCode::Up => (Action::MoveFocus(Direction::Up), mode),
        KeyCode::Char('j') | KeyCode::Down => (Action::MoveFocus(Direction::Down), mode),
        KeyCode::Char('[') => (
            if mode == UiMode::DayBoard {
                Action::ShiftWeek(-1i32)
            } else {
                Action::NoOp
            },
            mode,
        ),
        KeyCode::Char(']') => (
            if mode == UiMode::DayBoard {
                Action::ShiftWeek(1i32)
            } else {
                Action::NoOp
            },
            mode,
        ),
        _ => (Action::NoOp, mode),
    }
}

/// One step of the state machine: the action of a key and the next state.
pub open spec fn step(k: Key, s: InputState) -> (Action, InputState) {
    if is_quit(k) {
        (Action::Quit, InputState { mode: s.mode, chord: ChordState::Idle })
    } else if let UiMode::HelpOverlay(prior) = s.mode {
        (Action::ToggleHelp, InputState { mode: board_mode(prior), chord: ChordState::Idle })
    } else if k == plain('g') {
        if s.chord == ChordState::PendingJump {
            (Action::JumpToday, InputState { mode: UiMode::DayBoard, chord: ChordState::Idle })
        } else {
            (Action::NoOp, InputState { mode: s.mode, chord: ChordState::PendingJump })
        }
    } else if k == plain('d') {
        if s.chord == ChordState::PendingDelete {
            (Action::ConfirmDelete, InputState { mode: s.mode, chord: ChordState::Idle })
        } else {
            (Action::RequestDelete, InputState { mode: s.mode, chord: ChordState::PendingDelete })
        }
    } else if k.ctrl {
        (Action::NoOp, InputState { mode: s.mode, chord: ChordState::Idle })
    } else {
        let (a, m) = board_key(k.code, s.mode);
        (a, InputState { mode: m, chord: ChordState::Idle })
    }
}

impl InputState {
    /// The state at start: the day board with no chord armed.
    pub fn new() -> (r: Self)
        ensures
            r == (InputState { mode: UiMode::DayBoard, chord: ChordState::Idle }),
    {
        InputState { mode: UiMode::DayBoard, chord: ChordState::Idle }
    }
}

/// The region of a board mode.
pub(crate) fn region_of_mode(m: UiMode) -> (r: Region)
    ensures
        r == region_of(m),
{
    match m {
        UiMode::BacklogBoard => Region::Backlog,
        UiMode::HelpOverlay(r) => r,
        UiMode::DayBoard => Region::Day,
    }
}

/// The action of a key that arms or fires no chord, on a board.
fn board_action(code: KeyCode, mode: UiMode) -> (r: (Action, UiMode))
    ensures
        r == board_key(code, mode),
{
    match code {
        KeyCode::Char('?') => (Action::ToggleHelp, UiMode::HelpOverlay(region_of_mode(mode))),
        KeyCode::Tab => (
            Action::SwitchRegion,
            match mode {
                UiMode::DayBoard => UiMode::BacklogBoard,
                _ => UiMode::DayBoard,
            },
        ),
        KeyCode::Char('h') | KeyCode::Left => (Action::MoveFocus(Direction::Left), mode),
        KeyCode::Char('l') | KeyCode::Right => (Action::MoveFocus(Direction::Right), mode),
        KeyCode::Char('k') | KeyCode::Up => (Action::MoveFocus(Direction::Up), mode),
        KeyCode::Char('j') | KeyCode::Down => (Action::MoveFocus(Direction::Down), mode),
        KeyCode::Char('[') => (
            match mode {
                UiMode::DayBoard => Action::ShiftWeek(-1),
                _ => Action::NoOp,
            },
            mode,
        ),
        KeyCode::Char(']') => (
            match mode {
                UiMode::DayBoard => Action::ShiftWeek(1),
                _ => Action::NoOp,
            },
            mode,
        ),
        _ => (Action::NoOp, mode),
    }
}

/// Turns a key event into exactly one action and the next state.
pub fn dispatch(key: Key, state: InputState) -> (r: (Action, InputState))
    ensures
        r == step(key, state),
{
    let quit = match key.code {
        KeyCode::Char('q') => !key.ctrl,
        KeyCode::Char('c') => key.ctrl,
        _ => false,
    };
    if quit {
        return (Action::Quit, InputState { mode: state.mode, chord: ChordState::Idle });
    }
    if let UiMode::HelpOverlay(prior) = state.mode {
        let mode = match prior {
            Region::Day => UiMode::DayBoard,
            Region::Backlog => UiMode::BacklogBoard,
        };
        return (Action::ToggleHelp, InputState { mode, chord: ChordState::Idle });
    }
    let g = match key.code {
        KeyCode::Char('g') => !key.ctrl,
        _ => false,
    };
    let d = match key.code {
        KeyCode::Char('d') => !key.ctrl,
        _ => false,
    };
    if g {
        match state.chord {
            ChordState::PendingJump => (
                Action::JumpToday,
                InputState { mode: UiMode::DayBoard, chord: ChordState::Idle },
            ),
            _ => (Action::NoOp, InputState { mode: state.mode, chord: ChordState::PendingJump }),
        }
    } else if d {
        match state.chord {
            ChordState::PendingDelete => (
                Action::ConfirmDelete,
                InputState { mode: state.mode, chord: ChordState::Idle },
            ),
            _ => (
                Action::RequestDelete,
                InputState { mode: state.mode, chord: ChordState::PendingDelete },
            ),
        }
    } else if key.ctrl {
        (Action::NoOp, InputState { mode: state.mode, chord: ChordState::Idle })
    } else {
        let (a, m) = board_action(key.code, state.mode);
        (a, InputState { mode: m, chord: ChordState::Idle })
    }
}

/// A chord fires on a key exactly when it was armed, the key is its second
/// key, and a board has the keyboard.
pub proof fn lemma_chord_fires_only_when_armed(k: Key, s: InputState, c: Chord)
    ensures
        fires(step(k, s).0, c) <==> (armed(s.chord, c) && k == chord_key(c) && is_board(s.mode)),
{
}

/// A chord is armed after a key exactly when the key is its first key, it was
/// not armed already, and a board has the keyboard.
pub proof fn lemma_chord_arms_on_first_key(k: Key, s: InputState, c: Chord)
    ensures
        armed(step(k, s).1.chord, c) <==> (k == chord_key(c) && !armed(s.chord, c) && is_board(
            s.mode,
        )),
{
}

/// From a board with the chord not armed, two keys fire it exactly when both
/// are the chord's key.
pub proof fn lemma_chord_two_keys(s: InputState, k1: Key, k2: Key, c: Chord)
    requires
        is_board(s.mode),
        !armed(s.chord, c),
    ensures
        fires(step(k2, step(k1, s).1).0, c) <==> (k1 == chord_key(c) && k2 == chord_key(c)),
{
    lemma_chord_arms_on_first_key(k1, s, c);
    lemma_chord_fires_only_when_armed(k2, step(k1, s).1, c);
}

/// A key other than the armed chord's second key disarms it without firing
/// it.
pub proof fn lemma_interleaved_key_disarms(s: InputState, k: Key, c: Chord)
    requires
        armed(s.chord, c),
        k != chord_key(c),
    ensures
        !fires(step(k, s).0, c),
        !armed(step(k, s).1.chord, c),
{
}

} // verus!
