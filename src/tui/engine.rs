//! The board engine: the window, the board, both cursors and the input state,
//! with the effect of each key and the rebuild of the board from the store.

use vstd::prelude::*;
use crate::service::config::WeekStart;
use crate::tui::cursor::{FocusCursor, Region, clamp_index, fit_row, moved_row, row_is};
use crate::tui::date::{Date, in_range, MIN_DAY, MAX_DAY};
use crate::tui::input::{
    Action, ChordState, Direction, InputState, Key, UiMode, dispatch, step, region_of, region_of_mode,
};
use crate::tui::state::{
    BoardData, TodoView, WeekState, anchor_of, is_empty_board, empty_backlog, empty_lists, lists_of, week_fits, shifted,
    lemma_anchor_on_preferred_weekday, BACKLOG_COLUMNS, DAYS_PER_WEEK,
};

verus! {

/// A scheduled task as the store returns it.
pub struct ScheduledTodo {
    pub date: Date,
    pub todo: TodoView,
}

/// An unscheduled task as the store returns it, with its stored backlog
/// column if it has one.
pub struct BacklogTodo {
    pub column: Option<u32>,
    pub todo: TodoView,
}

/// What the caller has to do after a key.
#[derive(Clone, Copy, Debug, PartialEq, Eq, Structural)]
pub enum Effect {
    Nothing,
    /// Reload the board for the current window.
    Refresh,
    /// Delete the task with this identifier, then reload.
    Delete(u128),
    /// Leave the event loop.
    Quit,
}

/// The backlog column of an unscheduled task: its stored column, or the first
/// column when it has none or one that the backlog does not have.
pub open spec fn backlog_slot(column: Option<u32>) -> int {
    match column {
        Some(i) => if i < BACKLOG_COLUMNS {
            i as int
        } else {
            0
        },
        None => 0,
    }
}

/// The tasks scheduled on a day, in the order the store returned them.
pub open spec fn tasks_on(s: Seq<ScheduledTodo>, day: int) -> Seq<TodoView>
    decreases s.len(),
{
    if s.len() == 0 {
        Seq::empty()
    } else if s.last().date@ == day {
        tasks_on(s.drop_last(), day).push(s.last().todo)
    } else {
        tasks_on(s.drop_last(), day)
    }
}

/// The unscheduled tasks of a backlog column, in the order the store returned
/// them.
pub open spec fn tasks_in_slot(s: Seq<BacklogTodo>, slot: int) -> Seq<TodoView>
    decreases s.len(),
{
    if s.len() == 0 {
        Seq::empty()
    } else if backlog_slot(s.last().column) == slot {
        tasks_in_slot(s.drop_last(), slot).push(s.last().todo)
    } else {
        tasks_in_slot(s.drop_last(), slot)
    }
}

/// The lengths of lists.
pub open spec fn lens_of(lists: Seq<Seq<TodoView>>) -> Seq<usize> {
    lists.map_values(|l: Seq<TodoView>| l.len() as usize)
}

/// The lengths of the lists of a region.
fn column_lengths(lists: &[Vec<TodoView>]) -> (r: Vec<usize>)
    ensures
        r@ == lens_of(lists_of(lists@)),
        forall|i: int| 0 <= i < r@.len() ==> #[trigger] r@[i] as int == lists_of(lists@)[i].len(),
{
    let mut r: Vec<usize> = Vec::new();
    let mut i: usize = 0;
    while i < lists.len()
        invariant
            0 <= i <= lists@.len(),
            r@ == lens_of(lists_of(lists@)).take(i as int),
            forall|k: int| 0 <= k < i ==> #[trigger] r@[k] as int == lists_of(lists@)[k].len(),
        decreases lists@.len() - i,
    {
        r.push(lists[i].len());
        i = i + 1;
        assert(r@ =~= lens_of(lists_of(lists@)).take(i as int));
    }
    assert(r@ =~= lens_of(lists_of(lists@)));
    r
}

/// Whether `after` is `before` moved one step in a direction over columns of
/// the given lengths.
pub open spec fn moved_one(before: FocusCursor, after: FocusCursor, dir: Direction, lens: Seq<usize>) -> bool {
    &&& after.region == before.region
    &&& after.wf(lens)
    &&& match dir {
        Direction::Left | Direction::Right => {
            let delta: int = if dir == Direction::Left {
                -1
            } else {
                1
            };
            &&& after.column as int == clamp_index(before.column + delta, lens.len() as int)
            &&& row_is(after.row, fit_row(before.row, lens[after.column as int] as int))
        },
        Direction::Up | Direction::Down => {
            let delta: int = if dir == Direction::Up {
                -1
            } else {
                1
            };
            &&& after.column == before.column
            &&& row_is(after.row, moved_row(before.row, delta, lens[before.column as int] as int))
        },
    }
}

/// A step right lands on the next column: on the empty sentinel when that
/// column is empty, else on the same row, or on its last row when it is
/// shorter, or on its first row when coming from the sentinel.
pub proof fn lemma_move_right_into_column(
    before: FocusCursor,
    after: FocusCursor,
    lens: Seq<usize>,
)
    requires
        before.wf(lens),
        moved_one(before, after, Direction::Right, lens),
        before.column + 1 < lens.len(),
    ensures
        after.column == before.column + 1,
        lens[before.column + 1] == 0 ==> after.row is None,
        lens[before.column + 1] > 0 ==> after.row == Some(
            match before.row {
                None => 0usize,
                Some(r) => if r < lens[before.column + 1] {
                    r
                } else {
                    (lens[before.column + 1] - 1) as usize
                },
            },
        ),
{
}

/// The whole state of the board.
pub struct Engine {
    pub today: Date,
    pub week_pref: WeekStart,
    pub week: WeekState,
    pub board: BoardData,
    pub cursor: FocusCursor,
    pub backlog_cursor: FocusCursor,
    pub input: InputState,
    pub should_quit: bool,
}

impl Engine {
    /// The engine's invariant.
    pub open spec fn wf(&self) -> bool {
        &&& self.today.wf()
        &&& week_fits(self.today@, self.week_pref)
        &&& self.week.wf()
        &&& self.board.wf()
        &&& self.board.day_lists().len() == DAYS_PER_WEEK
        &&& self.cursor.region == Region::Day
        &&& self.backlog_cursor.region == Region::Backlog
        &&& self.cursor.wf(lens_of(self.board.day_lists()))
        &&& self.backlog_cursor.wf(lens_of(self.board.backlog_lists()))
    }

    /// The column of today in the window, if the window holds it.
    pub open spec fn today_column(&self) -> Option<int> {
        let k = self.today@ - self.week.week_start@;
        if 0 <= k < 7 {
            Some(k)
        } else {
            None
        }
    }

    /// The identifier of the task under the cursor of a region.
    pub open spec fn selected_id(&self, region: Region) -> Option<u128> {
        let (c, lists) = match region {
            Region::Day => (self.cursor, self.board.day_lists()),
            Region::Backlog => (self.backlog_cursor, self.board.backlog_lists()),
        };
        match c.row {
            Some(r) => Some(lists[c.column as int][r as int].id),
            None => None,
        }
    }

    /// Whether the day cursor is on today's column, on its first row.
    pub open spec fn focused_on_today(&self) -> bool {
        &&& self.today_column() is Some
        &&& self.cursor.column as int == self.today_column()->0
        &&& row_is(
            self.cursor.row,
            fit_row(Some(0), self.board.day_lists()[self.cursor.column as int].len() as int),
        )
    }

    /// An empty board on the week of `today`, focused on today.
    pub fn new(today: Date, week_pref: WeekStart) -> (r: Self)
        requires
            today.wf(),
            week_fits(today@, week_pref),
        ensures
            r.wf(),
            is_empty_board(r.board, DAYS_PER_WEEK as nat),
            r.backlog_cursor.column == 0,
            r.backlog_cursor.row is None,
            r.today == today,
            r.week_pref == week_pref,
            r.week.week_start@ == anchor_of(today@, week_pref),
            r.focused_on_today(),
            r.input == (InputState { mode: UiMode::DayBoard, chord: ChordState::Idle }),
            !r.should_quit,
    {
        let week = WeekState::new(today, week_pref);
        let board = BoardData::new(DAYS_PER_WEEK);
        let day_lens = column_lengths(board.days.as_slice());
        let backlog_lens = column_lengths(&board.backlog_columns);
        assert(backlog_lens@[0] as int == board.backlog_lists()[0].len());
        let mut cursor = FocusCursor::new(Region::Day, &day_lens);
        let backlog_cursor = FocusCursor::new(Region::Backlog, &backlog_lens);
        proof {
            lemma_anchor_on_preferred_weekday(today@, week_pref);
        }
        let idx = week.column_index(today);
        if let Some(i) = idx {
            cursor.set_focus(i, 0, &day_lens);
        }
        Engine {
            today,
            week_pref,
            week,
            board,
            cursor,
            backlog_cursor,
            input: InputState::new(),
            should_quit: false,
        }
    }

    /// The identifier of the task under the cursor of a region.
    pub fn selected_task(&self, region: Region) -> (r: Option<u128>)
        requires
            self.wf(),
        ensures
            r == self.selected_id(region),
    {
        let (c, lists): (FocusCursor, &[Vec<TodoView>]) = match region {
            Region::Day => (self.cursor, self.board.days.as_slice()),
            Region::Backlog => (self.backlog_cursor, &self.board.backlog_columns),
        };
        match c.row {
            Some(r) => Some(lists[c.column][r].id),
            None => None,
        }
    }

    /// Replaces the board with what the store returned for the window:
    /// scheduled tasks go to the column of their date, in the order given, and
    /// tasks outside the window are left out; unscheduled tasks go to their
    /// backlog column. The day cursor then lands on today's column when the
    /// window holds it, else on the first column, at the first row; the
    /// backlog cursor is brought back into its grid.
    pub fn apply_refresh(&mut self, scheduled: Vec<ScheduledTodo>, unscheduled: Vec<BacklogTodo>)
        requires
            old(self).wf(),
        ensures
            final(self).wf(),
            final(self).today == old(self).today,
            final(self).week_pref == old(self).week_pref,
            final(self).week == old(self).week,
            final(self).input == old(self).input,
            final(self).should_quit == old(self).should_quit,
            forall|c: int|
                0 <= c < DAYS_PER_WEEK ==> #[trigger] final(self).board.day_lists()[c] == tasks_on(
                    scheduled@,
                    old(self).week.week_start@ + c,
                ),
            forall|k: int|
                0 <= k < BACKLOG_COLUMNS ==> #[trigger] final(self).board.backlog_lists()[k]
                    == tasks_in_slot(unscheduled@, k),
            final(self).cursor.column as int == match old(self).today_column() {
                Some(k) => k,
                None => 0,
            },
            row_is(
                final(self).cursor.row,
                fit_row(Some(0), final(self).board.day_lists()[final(self).cursor.column as int].len() as int),
            ),
            final(self).backlog_cursor.column == old(self).backlog_cursor.column,
            row_is(
                final(self).backlog_cursor.row,
                fit_row(
                    old(self).backlog_cursor.row,
                    final(self).board.backlog_lists()[final(self).backlog_cursor.column as int].len() as int,
                ),
            ),
    {
        let ghost anchor = self.week.week_start@;
        let mut days = empty_lists(DAYS_PER_WEEK);
        let ghost orig = scheduled@;
        let mut rest = scheduled;
        let ghost mut i: int = 0;
        while rest.len() > 0
            invariant
                self.wf(),
                self.week.week_start@ == anchor,
                0 <= i <= orig.len(),
                rest@ == orig.skip(i),
                days@.len() == DAYS_PER_WEEK,
                forall|c: int| 0 <= c < DAYS_PER_WEEK ==> #[trigger] days@[c]@ == tasks_on(orig.take(i), anchor + c),
            decreases rest@.len(),
        {
            let item = rest.remove(0);
            assert(orig.take(i + 1).drop_last() =~= orig.take(i));
            assert(orig.take(i + 1).last() == item);
            match self.week.column_index(item.date) {
                Some(c) => {
                    days[c].push(item.todo);
                },
                None => {},
            }
            proof {
                i = i + 1;
                assert(rest@ =~= orig.skip(i));
            }
        }
        assert(orig.take(i) =~= orig);
        let mut backlog = empty_backlog();
        let ghost origb = unscheduled@;
        let mut restb = unscheduled;
        let ghost mut j: int = 0;
        while restb.len() > 0
            invariant
                0 <= j <= origb.len(),
                restb@ == origb.skip(j),
                backlog@.len() == BACKLOG_COLUMNS,
                forall|k: int| 0 <= k < BACKLOG_COLUMNS ==> #[trigger] backlog@[k]@ == tasks_in_slot(origb.take(j), k),
            decreases restb@.len(),
        {
            let item = restb.remove(0);
            assert(origb.take(j + 1).drop_last() =~= origb.take(j));
            assert(origb.take(j + 1).last() == item);
            let slot: usize = match item.column {
                Some(k) => if (k as usize) < BACKLOG_COLUMNS {
                    k as usize
                } else {
                    0
                },
                None => 0,
            };
            backlog[slot].push(item.todo);
            proof {
                j = j + 1;
                assert(restb@ =~= origb.skip(j));
            }
        }
        assert(origb.take(j) =~= origb);
        self.board.days = days;
        self.board.backlog_columns = backlog;
        let day_lens = column_lengths(self.board.days.as_slice());
        let backlog_lens = column_lengths(&self.board.backlog_columns);
        let col = match self.week.column_index(self.today) {
            Some(k) => k,
            None => 0,
        };
        self.cursor.set_focus(col, 0, &day_lens);
        self.backlog_cursor.clamp(&backlog_lens);
    }

    /// Moves the cursor of a region one step.
    fn move_focus(&mut self, region: Region, dir: Direction)
        requires
            old(self).wf(),
        ensures
            final(self).wf(),
            final(self).today == old(self).today,
            final(self).week_pref == old(self).week_pref,
            final(self).week == old(self).week,
            final(self).board == old(self).board,
            final(self).input == old(self).input,
            final(self).should_quit == old(self).should_quit,
            region == Region::Day ==> final(self).backlog_cursor == old(self).backlog_cursor
                && moved_one(old(self).cursor, final(self).cursor, dir, lens_of(old(self).board.day_lists())),
            region == Region::Backlog ==> final(self).cursor == old(self).cursor
                && moved_one(old(self).backlog_cursor, final(self).backlog_cursor, dir, lens_of(old(self).board.backlog_lists())),
    {
        let lens = match region {
            Region::Day => column_lengths(self.board.days.as_slice()),
            Region::Backlog => column_lengths(&self.board.backlog_columns),
        };
        let target = match region {
            Region::Day => &mut self.cursor,
            Region::Backlog => &mut self.backlog_cursor,
        };
        match dir {
            Direction::Left => target.move_column(-1, &lens),
            Direction::Right => target.move_column(1, &lens),
            Direction::Up => target.move_row(-1, &lens),
            Direction::Down => target.move_row(1, &lens),
        }
    }

    /// Focuses today's column, first moving the window to today's week when it
    /// does not hold today (the day columns are then emptied until a reload).
    fn jump_to_today(&mut self) -> (r: Effect)
        requires
            old(self).wf(),
        ensures
            final(self).wf(),
            final(self).focused_on_today(),
            final(self).today == old(self).today,
            final(self).week_pref == old(self).week_pref,
            final(self).input == old(self).input,
            final(self).should_quit == old(self).should_quit,
            final(self).backlog_cursor == old(self).backlog_cursor,
            final(self).board.backlog_columns == old(self).board.backlog_columns,
            old(self).today_column() is Some ==> r == Effect::Nothing && final(self).week == old(self).week
                && final(self).board == old(self).board,
            old(self).today_column() is None ==> r == Effect::Refresh
                && final(self).week.week_start@ == anchor_of(old(self).today@, old(self).week_pref)
                && forall|c: int| 0 <= c < DAYS_PER_WEEK ==> (#[trigger] final(self).board.day_lists()[c]).len() == 0,
    {
        match self.week.column_index(self.today) {
            Some(i) => {
                let lens = column_lengths(self.board.days.as_slice());
                self.cursor.set_focus(i, 0, &lens);
                Effect::Nothing
            },
            None => {
                self.week = WeekState::new(self.today, self.week_pref);
                self.board.days = empty_lists(DAYS_PER_WEEK);
                let lens = column_lengths(self.board.days.as_slice());
                proof {
                    lemma_anchor_on_preferred_weekday(self.today@, self.week_pref);
                }
                let col = match self.week.column_index(self.today) {
                    Some(k) => k,
                    None => 0,
                };
                self.cursor.set_focus(col, 0, &lens);
                Effect::Refresh
            },
        }
    }

    /// Handles one key: runs the input state machine and applies the action
    /// it gives to the window and the cursors. What needs the store is handed
    /// back as an effect.
    pub fn handle_key(&mut self, key: Key) -> (r: Effect)
        requires
            old(self).wf(),
        ensures
            final(self).wf(),
            final(self).today == old(self).today,
            final(self).week_pref == old(self).week_pref,
            final(self).input == step(key, old(self).input).1,
            ({
                let action = step(key, old(self).input).0;
                let region = region_of(old(self).input.mode);
                let unmoved = final(self).week == old(self).week && final(self).board == old(self).board
                    && final(self).cursor == old(self).cursor
                    && final(self).backlog_cursor == old(self).backlog_cursor;
                &&& action == Action::Quit ==> r == Effect::Quit && final(self).should_quit && unmoved
                &&& action != Action::Quit ==> final(self).should_quit == old(self).should_quit
                &&& action == Action::ConfirmDelete ==> unmoved && r == match old(self).selected_id(region) {
                    Some(id) => Effect::Delete(id),
                    None => Effect::Nothing,
                }
                &&& action matches Action::MoveFocus(dir) ==> r == Effect::Nothing
                    && final(self).week == old(self).week && final(self).board == old(self).board && (
                region == Region::Day ==> final(self).backlog_cursor == old(self).backlog_cursor
                    && moved_one(old(self).cursor, final(self).cursor, dir, lens_of(old(self).board.day_lists())))
                    && (region == Region::Backlog ==> final(self).cursor == old(self).cursor
                    && moved_one(old(self).backlog_cursor, final(self).backlog_cursor, dir, lens_of(old(self).board.backlog_lists())))
                &&& action matches Action::ShiftWeek(d) ==> final(self).board == old(self).board
                    && final(self).cursor == old(self).cursor
                    && final(self).backlog_cursor == old(self).backlog_cursor && if in_range(
                    shifted(old(self).week.week_start@, d as int),
                ) && in_range(shifted(old(self).week.week_start@, d as int) + 6) {
                    r == Effect::Refresh && final(self).week.week_start@ == shifted(old(self).week.week_start@, d as int)
                } else {
                    r == Effect::Nothing && final(self).week == old(self).week
                }
                &&& action == Action::JumpToday ==> final(self).focused_on_today()
                    && final(self).backlog_cursor == old(self).backlog_cursor
                    && (old(self).today_column() is Some ==> r == Effect::Nothing
                    && final(self).week == old(self).week && final(self).board == old(self).board)
                    && (old(self).today_column() is None ==> r == Effect::Refresh
                    && final(self).week.week_start@ == anchor_of(old(self).today@, old(self).week_pref)
                    && final(self).board.backlog_columns == old(self).board.backlog_columns
                    && forall|c: int| 0 <= c < DAYS_PER_WEEK ==> (#[trigger] final(self).board.day_lists()[c]).len() == 0)
                &&& (action == Action::SwitchRegion || action == Action::ToggleHelp || action == Action::RequestDelete
                    || action == Action::NoOp) ==> r == Effect::Nothing && unmoved
            }),
    {
        let (action, next) = dispatch(key, self.input);
        let region = region_of_mode(self.input.mode);
        self.input = next;
        match action {
            Action::Quit => {
                self.should_quit = true;
                Effect::Quit
            },
            Action::MoveFocus(dir) => {
                self.move_focus(region, dir);
                Effect::Nothing
            },
            Action::ShiftWeek(d) => {
                let anchor = self.week.week_start.day_number() as i64;
                let target = anchor + 7 * (d as i64);
                if target >= MIN_DAY as i64 && target + 6 <= MAX_DAY as i64 {
                    self.week.shift(d);
                    Effect::Refresh
                } else {
                    Effect::Nothing
                }
            },
            Action::ConfirmDelete => match self.selected_task(region) {
                Some(id) => Effect::Delete(id),
                None => Effect::Nothing,
            },
            Action::JumpToday => self.jump_to_today(),
            _ => Effect::Nothing,
        }
    }
}

} // verus!
