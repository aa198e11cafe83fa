//! The calendar window and the board projection.

use vstd::prelude::*;
use crate::service::config::WeekStart;
use crate::tui::date::{Date, in_range, weekday, month_of, day_of_month, MIN_DAY, MAX_DAY};
use crate::tui::text::{concat, pad2, two_digits, same_text};

verus! {

broadcast use vstd::array::group_array_axioms;

/// The number of backlog columns.
pub const BACKLOG_COLUMNS: usize = 4;

/// The number of day columns of a week.
pub const DAYS_PER_WEEK: usize = 7;

/// How many days a date lies after the first day of its week.
pub open spec fn week_offset(days: int, preference: WeekStart) -> int {
    match preference {
        WeekStart::Sunday => weekday(days),
        WeekStart::Monday => (weekday(days) + 6) % 7,
    }
}

/// The first day of the week that holds `days`.
pub open spec fn anchor_of(days: int, preference: WeekStart) -> int {
    days - week_offset(days, preference)
}

/// The weekday that opens a week under a preference (Sunday is 0).
pub open spec fn first_weekday(preference: WeekStart) -> int {
    match preference {
        WeekStart::Sunday => 0,
        WeekStart::Monday => 1,
    }
}

/// The three-letter name of a weekday counted from Sunday.
pub open spec fn weekday_abbrev(w: int) -> Seq<char> {
    if w == 0 {
        "Sun"@
    } else if w == 1 {
        "Mon"@
    } else if w == 2 {
        "Tue"@
    } else if w == 3 {
        "Wed"@
    } else if w == 4 {
        "Thu"@
    } else if w == 5 {
        "Fri"@
    } else {
        "Sat"@
    }
}

/// The title of a day column: weekday name, then month and day with two
/// digits each (`Sun 06/09`).
pub open spec fn column_label(days: int) -> Seq<char> {
    weekday_abbrev(weekday(days)) + " "@ + two_digits(month_of(days)) + "/"@ + two_digits(
        day_of_month(days),
    )
}

/// Whether the whole week that holds a date is representable.
pub open spec fn week_fits(days: int, preference: WeekStart) -> bool {
    in_range(anchor_of(days, preference)) && in_range(anchor_of(days, preference) + 6)
}

/// The anchor after moving a window by `weeks` whole weeks.
pub open spec fn shifted(anchor: int, weeks: int) -> int {
    anchor + 7 * weeks
}

/// The window of any date starts on the preferred weekday, on or before that
/// date and less than a week before it.
pub proof fn lemma_anchor_on_preferred_weekday(days: int, preference: WeekStart)
    ensures
        weekday(anchor_of(days, preference)) == first_weekday(preference),
        anchor_of(days, preference) <= days < anchor_of(days, preference) + 7,
{
}

/// Two windows on the same first day show the same columns: moving a window
/// away and back restores its dates and titles.
pub proof fn lemma_window_determined_by_anchor(a: WeekState, b: WeekState)
    requires
        a.wf(),
        b.wf(),
        a.week_start@ == b.week_start@,
    ensures
        a.columns@.len() == b.columns@.len(),
        forall|i: int|
            0 <= i < a.columns@.len() ==> (#[trigger] a.columns@[i]).date@ == b.columns@[i].date@
                && a.columns@[i].title@ == b.columns@[i].title@,
{
    assert forall|i: int| 0 <= i < a.columns@.len() implies (#[trigger] a.columns@[i]).date@
        == b.columns@[i].date@ && a.columns@[i].title@ == b.columns@[i].title@ by {
        assert(a.columns@[i].date@ == a.week_start@ + i);
        assert(b.columns@[i].date@ == b.week_start@ + i);
    }
}

/// Moving a window by `weeks` and then by `-weeks` brings back its anchor.
pub proof fn lemma_shift_round_trip(anchor: int, weeks: int)
    ensures
        shifted(shifted(anchor, weeks), -weeks) == anchor,
{
}

/// A day column of the visible week.
pub struct ColumnMeta {
    pub title: String,
    pub date: Date,
}

/// The visible week: its first day and its seven columns.
pub struct WeekState {
    pub week_start: Date,
    pub columns: Vec<ColumnMeta>,
}

/// Whether `cols` are the seven columns of the week that starts on `anchor`.
pub open spec fn columns_of(cols: Seq<ColumnMeta>, anchor: int) -> bool {
    &&& cols.len() == DAYS_PER_WEEK
    &&& forall|i: int|
        0 <= i < 7 ==> {
            &&& #[trigger] cols[i].date@ == anchor + i
            &&& cols[i].date.wf()
            &&& cols[i].title@ == column_label(anchor + i)
        }
}

/// The three-letter name of a weekday counted from Sunday (0) to Saturday (6).
pub fn weekday_label(day: u32) -> (r: &'static str)
    requires
        day < 7,
    ensures
        r@ == weekday_abbrev(day as int),
{
    if day == 0 {
        "Sun"
    } else if day == 1 {
        "Mon"
    } else if day == 2 {
        "Tue"
    } else if day == 3 {
        "Wed"
    } else if day == 4 {
        "Thu"
    } else if day == 5 {
        "Fri"
    } else {
        "Sat"
    }
}

/// The offset of a weekday (counted from Sunday) from the first day of the
/// week.
fn offset_in_week(weekday: u32, preference: WeekStart) -> (r: u32)
    requires
        weekday < 7,
    ensures
        r < 7,
        weekday == weekday % 7 ==> r as int == match preference {
            WeekStart::Sunday => weekday as int,
            WeekStart::Monday => (weekday + 6) % 7,
        },
{
    match preference {
        WeekStart::Sunday => weekday,
        WeekStart::Monday => (weekday + 6) % 7,
    }
}

/// Whether the whole week that holds `date` is representable, as a window on
/// it needs.
pub fn week_fits_around(date: Date, preference: WeekStart) -> (r: bool)
    requires
        date.wf(),
    ensures
        r == week_fits(date@, preference),
{
    let offset = offset_in_week(date.weekday_from_sunday(), preference);
    let anchor = date.day_number() as i64 - offset as i64;
    anchor >= MIN_DAY as i64 && anchor + 6 <= MAX_DAY as i64
}

/// The first day of the week that holds `date`: the nearest Sunday (or Monday)
/// on or before it.
pub fn start_of_week(date: Date, preference: WeekStart) -> (r: Date)
    requires
        date.wf(),
        in_range(anchor_of(date@, preference)),
    ensures
        r@ == anchor_of(date@, preference),
        r.wf(),
        weekday(r@) == first_weekday(preference),
        r@ <= date@ < r@ + 7,
{
    proof {
        lemma_anchor_on_preferred_weekday(date@, preference);
    }
    let offset = offset_in_week(date.weekday_from_sunday(), preference);
    date.add_days(-(offset as i64))
}

/// The label of a day column.
fn label_for(date: Date) -> (r: String)
    requires
        date.wf(),
    ensures
        r@ == column_label(date@),
{
    let name = weekday_label(date.weekday_from_sunday());
    let month = pad2(date.month());
    let day = pad2(date.day());
    let a = concat(name, " ");
    let b = concat(a.as_str(), month.as_str());
    let c = concat(b.as_str(), "/");
    concat(c.as_str(), day.as_str())
}

/// The seven columns of the week that starts on `week_start`.
fn build_columns(week_start: Date) -> (r: Vec<ColumnMeta>)
    requires
        week_start.wf(),
        in_range(week_start@ + 6),
    ensures
        columns_of(r@, week_start@),
{
    let mut cols: Vec<ColumnMeta> = Vec::with_capacity(7);
    let mut offset: i64 = 0;
    while offset < 7
        invariant
            0 <= offset <= 7,
            cols@.len() == offset,
            week_start.wf(),
            in_range(week_start@ + 6),
            forall|i: int|
                0 <= i < offset ==> {
                    &&& #[trigger] cols@[i].date@ == week_start@ + i
                    &&& cols@[i].date.wf()
                    &&& cols@[i].title@ == column_label(week_start@ + i)
                },
        decreases 7 - offset,
    {
        let date = week_start.add_days(offset);
        let title = label_for(date);
        cols.push(ColumnMeta { title, date });
        offset = offset + 1;
    }
    cols
}

impl WeekState {
    /// The window's invariant: a representable week and its seven columns.
    pub open spec fn wf(&self) -> bool {
        &&& self.week_start.wf()
        &&& in_range(self.week_start@ + 6)
        &&& columns_of(self.columns@, self.week_start@)
    }

    /// The window of the week that holds `today`.
    pub fn new(today: Date, preference: WeekStart) -> (r: Self)
        requires
            today.wf(),
            week_fits(today@, preference),
        ensures
            r.wf(),
            r.week_start@ == anchor_of(today@, preference),
            weekday(r.week_start@) == first_weekday(preference),
            r.week_start@ <= today@ < r.week_start@ + 7,
    {
        let week_start = start_of_week(today, preference);
        WeekState { week_start, columns: build_columns(week_start) }
    }

    /// Moves the window by `weeks` whole weeks, later for a positive count.
    pub fn shift(&mut self, weeks: i32)
        requires
            old(self).wf(),
            in_range(shifted(old(self).week_start@, weeks as int)),
            in_range(shifted(old(self).week_start@, weeks as int) + 6),
        ensures
            final(self).wf(),
            final(self).week_start@ == shifted(old(self).week_start@, weeks as int),
    {
        self.week_start = self.week_start.add_days(7 * (weeks as i64));
        self.columns = build_columns(self.week_start);
    }

    /// Moves the window one week back.
    pub fn prev_week(&mut self)
        requires
            old(self).wf(),
            in_range(old(self).week_start@ - 7),
        ensures
            final(self).wf(),
            final(self).week_start@ == old(self).week_start@ - 7,
    {
        self.shift(-1);
    }

    /// Moves the window one week on.
    pub fn next_week(&mut self)
        requires
            old(self).wf(),
            in_range(old(self).week_start@ + 13),
        ensures
            final(self).wf(),
            final(self).week_start@ == old(self).week_start@ + 7,
    {
        self.shift(1);
    }

    /// The column that shows `date`, if the window holds it.
    pub fn column_index(&self, date: Date) -> (r: Option<usize>)
        requires
            self.wf(),
        ensures
            r matches Some(i) ==> i < 7 && date@ == self.week_start@ + i,
            r is None <==> !(self.week_start@ <= date@ <= self.week_start@ + 6),
    {
        let target = date.day_number();
        let mut i: usize = 0;
        while i < self.columns.len()
            invariant
                self.wf(),
                0 <= i <= 7,
                target == date@,
                !(self.week_start@ <= date@ < self.week_start@ + i),
            decreases 7 - i,
        {
            if self.columns[i].date.day_number() == target {
                return Some(i);
            }
            assert(self.columns@[i as int].date@ == self.week_start@ + i);
            i = i + 1;
        }
        None
    }
}

/// A task as the board shows it.
pub struct TodoView {
    pub id: u128,
    pub title: String,
    pub status: String,
}

impl TodoView {
    /// Whether the task is completed.
    pub fn is_done(&self) -> (r: bool)
        ensures
            r == (self.status@ == "done"@),
    {
        same_text(self.status.as_str(), "done")
    }

    /// The text of the task's line, with a marker in front when it is selected.
    pub fn display_text(&self, selected: bool) -> (r: String)
        ensures
            r@ == (if selected {
                "\u{203a} "@ + self.title@
            } else {
                self.title@
            }),
    {
        if selected {
            concat("\u{203a} ", self.title.as_str())
        } else {
            self.title.clone()
        }
    }
}

/// The lists of a board region, as sequences.
pub open spec fn lists_of(v: Seq<Vec<TodoView>>) -> Seq<Seq<TodoView>> {
    v.map_values(|l: Vec<TodoView>| l@)
}

/// Whether some list holds a task with the identifier.
pub open spec fn holds_id(lists: Seq<Seq<TodoView>>, id: u128) -> bool {
    exists|c: int, p: int|
        0 <= c < lists.len() && 0 <= p < lists[c].len() && (#[trigger] lists[c][p]).id == id
}

/// Whether `(c, p)` is the first place, in column order and then row order,
/// that holds a task with the identifier.
pub open spec fn first_place(lists: Seq<Seq<TodoView>>, id: u128, c: int, p: int) -> bool {
    &&& 0 <= c < lists.len()
    &&& 0 <= p < lists[c].len()
    &&& lists[c][p].id == id
    &&& forall|c2: int, p2: int|
        0 <= c2 < c && 0 <= p2 < lists[c2].len() ==> (#[trigger] lists[c2][p2]).id != id
    &&& forall|p2: int| 0 <= p2 < p ==> (#[trigger] lists[c][p2]).id != id
}

/// The first place of a task in a region's lists.
fn find_position(lists: &[Vec<TodoView>], id: u128) -> (r: Option<(usize, usize)>)
    ensures
        match r {
            Some((c, p)) => first_place(lists_of(lists@), id, c as int, p as int),
            None => !holds_id(lists_of(lists@), id),
        },
{
    let ghost v = lists_of(lists@);
    let mut c: usize = 0;
    while c < lists.len()
        invariant
            0 <= c <= lists@.len(),
            v == lists_of(lists@),
            forall|c2: int, p2: int|
                0 <= c2 < c && 0 <= p2 < v[c2].len() ==> (#[trigger] v[c2][p2]).id != id,
        decreases lists@.len() - c,
    {
        let col = &lists[c];
        let mut p: usize = 0;
        while p < col.len()
            invariant
                0 <= c < lists@.len(),
                0 <= p <= col@.len(),
                col@ == v[c as int],
                v == lists_of(lists@),
                forall|c2: int, p2: int|
                    0 <= c2 < c && 0 <= p2 < v[c2].len() ==> (#[trigger] v[c2][p2]).id != id,
                forall|p2: int| 0 <= p2 < p ==> (#[trigger] v[c as int][p2]).id != id,
            decreases col@.len() - p,
        {
            if col[p].id == id {
                return Some((c, p));
            }
            p = p + 1;
        }
        c = c + 1;
    }
    None
}

/// The day lists after list `idx` is replaced by `todos`, with empty lists
/// added first where there were too few.
pub open spec fn replaced_day(before: Seq<Seq<TodoView>>, idx: int, todos: Seq<TodoView>) -> Seq<
    Seq<TodoView>,
> {
    let len = if idx < before.len() {
        before.len() as int
    } else {
        idx + 1
    };
    Seq::new(
        len as nat,
        |i: int|
            if i == idx {
                todos
            } else if i < before.len() {
                before[i]
            } else {
                Seq::<TodoView>::empty()
            },
    )
}

/// Whether a board is the empty board with `n` day columns.
pub open spec fn is_empty_board(b: BoardData, n: nat) -> bool {
    &&& b.wf()
    &&& b.day_lists().len() == n
    &&& forall|i: int| 0 <= i < n ==> (#[trigger] b.day_lists()[i]).len() == 0
    &&& forall|i: int| 0 <= i < BACKLOG_COLUMNS ==> (#[trigger] b.backlog_lists()[i]).len() == 0
}

/// The number of tasks in day column `idx` (0 past the last column).
pub open spec fn day_count(lists: Seq<Seq<TodoView>>, idx: int) -> nat {
    if 0 <= idx < lists.len() {
        lists[idx].len()
    } else {
        0
    }
}

/// After a reset to seven columns, every day column of the week is empty.
pub proof fn lemma_reset_empties_week(b: BoardData, i: int)
    requires
        is_empty_board(b, DAYS_PER_WEEK as nat),
        0 <= i < 7,
    ensures
        b.day_lists()[i].len() == 0,
        day_count(b.day_lists(), i) == 0,
{
}

/// After day list `idx` is replaced by `todos`, the task at row `j` of `todos`
/// is found at `(idx, j)`, provided that no earlier day column and no earlier
/// row of `todos` holds its identifier.
pub proof fn lemma_set_day_then_find(
    before: Seq<Seq<TodoView>>,
    idx: int,
    todos: Seq<TodoView>,
    j: int,
)
    requires
        0 <= idx,
        0 <= j < todos.len(),
        forall|c: int, p: int|
            0 <= c < idx && c < before.len() && 0 <= p < before[c].len() ==> (#[trigger] before[c][p]).id
                != todos[j].id,
        forall|k: int| 0 <= k < j ==> (#[trigger] todos[k]).id != todos[j].id,
    ensures
        first_place(replaced_day(before, idx, todos), todos[j].id, idx, j),
{
    let after = replaced_day(before, idx, todos);
    assert forall|c2: int, p2: int|
        0 <= c2 < idx && 0 <= p2 < after[c2].len() implies (#[trigger] after[c2][p2]).id
        != todos[j].id by {
        if c2 >= before.len() {
            assert(after[c2].len() == 0);
        } else {
            assert(after[c2][p2] == before[c2][p2]);
        }
    }
}

/// The tasks of the visible week, one list per day column, and of the backlog
/// columns.
pub struct BoardData {
    pub days: Vec<Vec<TodoView>>,
    pub backlog_columns: [Vec<TodoView>; BACKLOG_COLUMNS],
}

/// The backlog with every column empty.
pub(crate) fn empty_backlog() -> (r: [Vec<TodoView>; BACKLOG_COLUMNS])
    ensures
        forall|i: int| 0 <= i < BACKLOG_COLUMNS ==> (#[trigger] r@[i])@.len() == 0,
{
    [Vec::new(), Vec::new(), Vec::new(), Vec::new()]
}

/// `n` empty lists.
pub(crate) fn empty_lists(n: usize) -> (r: Vec<Vec<TodoView>>)
    ensures
        r@.len() == n,
        forall|i: int| 0 <= i < n ==> (#[trigger] r@[i])@.len() == 0,
{
    let mut v: Vec<Vec<TodoView>> = Vec::with_capacity(n);
    let mut i: usize = 0;
    while i < n
        invariant
            0 <= i <= n,
            v@.len() == i,
            forall|k: int| 0 <= k < i ==> (#[trigger] v@[k])@.len() == 0,
        decreases n - i,
    {
        v.push(Vec::new());
        i = i + 1;
    }
    v
}

impl BoardData {
    /// The day lists.
    pub open spec fn day_lists(&self) -> Seq<Seq<TodoView>> {
        lists_of(self.days@)
    }

    /// The backlog lists.
    pub open spec fn backlog_lists(&self) -> Seq<Seq<TodoView>> {
        lists_of(self.backlog_columns@)
    }

    /// The board's invariant: the backlog has its fixed number of columns.
    pub open spec fn wf(&self) -> bool {
        self.backlog_columns@.len() == BACKLOG_COLUMNS
    }

    /// An empty board with `num_days` day columns.
    pub fn new(num_days: usize) -> (r: Self)
        ensures
            is_empty_board(r, num_days as nat),
    {
        BoardData { days: empty_lists(num_days), backlog_columns: empty_backlog() }
    }

    /// Empties the board and gives it `num_days` day columns.
    pub fn reset(&mut self, num_days: usize)
        ensures
            is_empty_board(*final(self), num_days as nat),
    {
        self.days = empty_lists(num_days);
        self.backlog_columns = empty_backlog();
    }

    /// Replaces the list of day column `idx`, adding empty columns first when
    /// the board has fewer.
    pub fn set_day(&mut self, idx: usize, todos: Vec<TodoView>)
        requires
            idx < usize::MAX,
        ensures
            final(self).backlog_columns == old(self).backlog_columns,
            final(self).day_lists() == replaced_day(old(self).day_lists(), idx as int, todos@),
    {
        let ghost before = self.day_lists();
        while self.days.len() <= idx
            invariant
                idx < usize::MAX,
                self.backlog_columns == old(self).backlog_columns,
                old(self).days@.len() <= self.days@.len() <= if idx < old(self).days@.len() {
                    old(self).days@.len() as int
                } else {
                    idx + 1
                },
                before == old(self).day_lists(),
                forall|i: int|
                    0 <= i < self.days@.len() ==> #[trigger] self.day_lists()[i] == if i < before.len() {
                        before[i]
                    } else {
                        Seq::<TodoView>::empty()
                    },
            decreases idx + 1 - self.days@.len(),
        {
            let ghost prev = self.day_lists();
            self.days.push(Vec::new());
            assert(self.day_lists() =~= prev.push(Seq::empty()));
        }
        let ghost prev = self.day_lists();
        self.days.set(idx, todos);
        assert(self.day_lists() =~= prev.update(idx as int, todos@));
        assert(self.day_lists() =~= replaced_day(before, idx as int, todos@));
    }

    /// The length of day column `idx`, 0 when there is no such column.
    pub fn day_len(&self, idx: usize) -> (r: usize)
        ensures
            r == day_count(self.day_lists(), idx as int),
    {
        if idx < self.days.len() {
            self.days[idx].len()
        } else {
            0
        }
    }

    /// The identifier of the task at a place of the day grid.
    pub fn day_todo_id_at(&self, col: usize, row: usize) -> (r: Option<u128>)
        ensures
            r == if col < self.day_lists().len() && row < self.day_lists()[col as int].len() {
                Some(self.day_lists()[col as int][row as int].id)
            } else {
                None
            },
    {
        if col < self.days.len() && row < self.days[col].len() {
            Some(self.days[col][row].id)
        } else {
            None
        }
    }

    /// Replaces backlog column `col`; does nothing for a column the backlog
    /// does not have.
    pub fn set_backlog_column(&mut self, col: usize, todos: Vec<TodoView>)
        ensures
            final(self).days == old(self).days,
            final(self).backlog_lists() == if col < BACKLOG_COLUMNS {
                old(self).backlog_lists().update(col as int, todos@)
            } else {
                old(self).backlog_lists()
            },
    {
        if col < BACKLOG_COLUMNS {
            self.backlog_columns.set(col, todos);
            assert(self.backlog_lists() =~= old(self).backlog_lists().update(col as int, todos@));
        }
    }

    /// The length of backlog column `col`, 0 when there is no such column.
    pub fn backlog_col_len(&self, col: usize) -> (r: usize)
        ensures
            r == if col < BACKLOG_COLUMNS {
                self.backlog_lists()[col as int].len()
            } else {
                0
            },
    {
        if col < BACKLOG_COLUMNS {
            self.backlog_columns[col].len()
        } else {
            0
        }
    }

    /// The identifier of the task at a place of the backlog grid.
    pub fn backlog_todo_id_at(&self, col: usize, row: usize) -> (r: Option<u128>)
        ensures
            r == if col < self.backlog_lists().len() && row < self.backlog_lists()[col as int].len() {
                Some(self.backlog_lists()[col as int][row as int].id)
            } else {
                None
            },
    {
        if col < BACKLOG_COLUMNS && row < self.backlog_columns[col].len() {
            Some(self.backlog_columns[col][row].id)
        } else {
            None
        }
    }

    /// The first (column, row) of the day grid that holds the task.
    pub fn find_day_position(&self, id: u128) -> (r: Option<(usize, usize)>)
        ensures
            match r {
                Some((c, p)) => first_place(self.day_lists(), id, c as int, p as int),
                None => !holds_id(self.day_lists(), id),
            },
    {
        find_position(self.days.as_slice(), id)
    }

    /// The first (column, row) of the backlog grid that holds the task.
    pub fn find_backlog_position(&self, id: u128) -> (r: Option<(usize, usize)>)
        ensures
            match r {
                Some((c, p)) => first_place(self.backlog_lists(), id, c as int, p as int),
                None => !holds_id(self.backlog_lists(), id),
            },
    {
        find_position(&self.backlog_columns, id)
    }

    /// The status of the task in the day grid, at its first place.
    pub fn day_status_of(&self, id: u128) -> (r: Option<&str>)
        ensures
            match r {
                Some(s) => exists|c: int, p: int|
                    first_place(self.day_lists(), id, c, p) && s@ == (
                    #[trigger] self.day_lists()[c][p]).status@,
                None => !holds_id(self.day_lists(), id),
            },
    {
        match find_position(self.days.as_slice(), id) {
            Some((c, p)) => {
                let s = self.days[c][p].status.as_str();
                assert(self.day_lists()[c as int][p as int] == self.days@[c as int]@[p as int]);
                Some(s)
            },
            None => None,
        }
    }

    /// The status of the task in the backlog grid, at its first place.
    pub fn backlog_status_of(&self, id: u128) -> (r: Option<&str>)
        ensures
            match r {
                Some(s) => exists|c: int, p: int|
                    first_place(self.backlog_lists(), id, c, p) && s@ == (
                    #[trigger] self.backlog_lists()[c][p]).status@,
                None => !holds_id(self.backlog_lists(), id),
            },
    {
        match find_position(&self.backlog_columns, id) {
            Some((c, p)) => {
                let s = self.backlog_columns[c][p].status.as_str();
                assert(self.backlog_lists()[c as int][p as int] == self.backlog_columns@[c as int]@[p as int]);
                Some(s)
            },
            None => None,
        }
    }
}

} // verus!
