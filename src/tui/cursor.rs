//! Focus cursors over a grid of columns of different lengths.

use vstd::prelude::*;

verus! {

/// A region of the board.
#[derive(Clone, Copy, Debug, PartialEq, Eq, Structural)]
pub enum Region {
    Day,
    Backlog,
}

/// `x` brought into `[0, n - 1]`.
pub open spec fn clamp_index(x: int, n: int) -> int {
    if x < 0 {
        0
    } else if x >= n {
        n - 1
    } else {
        x
    }
}

/// A row kept within a column of `len` tasks: the empty sentinel (`None`) for
/// an empty column, the first row when coming from the sentinel, and the last
/// row when the column is shorter than the row.
pub open spec fn fit_row(row: Option<usize>, len: int) -> Option<int> {
    if len <= 0 {
        None
    } else {
        match row {
            None => Some(0),
            Some(r) => Some(clamp_index(r as int, len)),
        }
    }
}

/// The row after moving `delta` rows within a column of `len` tasks.
pub open spec fn moved_row(row: Option<usize>, delta: int, len: int) -> Option<int> {
    if len <= 0 {
        None
    } else {
        match row {
            None => Some(0),
            Some(r) => Some(clamp_index(r + delta, len)),
        }
    }
}

/// Whether an optional row equals a spec value.
pub open spec fn row_is(row: Option<usize>, spec_row: Option<int>) -> bool {
    match (row, spec_row) {
        (Some(a), Some(b)) => a as int == b,
        (None, None) => true,
        _ => false,
    }
}

/// The selected cell of one region: a column, and a row or `None` when the
/// column is empty.
#[derive(Clone, Copy, Debug, PartialEq, Eq, Structural)]
pub struct FocusCursor {
    pub region: Region,
    pub column: usize,
    pub row: Option<usize>,
}

/// `x` brought into `[0, n - 1]`.
fn clamp_exec(x: i128, n: usize) -> (r: usize)
    requires
        n > 0,
    ensures
        r as int == clamp_index(x as int, n as int),
{
    if x < 0 {
        0
    } else if x >= n as i128 {
        n - 1
    } else {
        x as usize
    }
}

/// The row kept within a column of `len` tasks.
fn fit_row_exec(row: Option<usize>, len: usize) -> (r: Option<usize>)
    ensures
        row_is(r, fit_row(row, len as int)),
{
    if len == 0 {
        None
    } else {
        match row {
            None => Some(0),
            Some(x) => Some(clamp_exec(x as i128, len)),
        }
    }
}

impl FocusCursor {
    /// The cursor's invariant over the lengths of the region's columns: the
    /// column exists, and the row is a valid index into it, or the sentinel
    /// exactly when the column is empty.
    pub open spec fn wf(&self, lens: Seq<usize>) -> bool {
        &&& self.column < lens.len()
        &&& match self.row {
            None => lens[self.column as int] == 0,
            Some(r) => r < lens[self.column as int],
        }
    }

    /// A cursor on the first cell of the region.
    pub fn new(region: Region, lens: &Vec<usize>) -> (r: Self)
        requires
            lens@.len() > 0,
        ensures
            r.wf(lens@),
            r.region == region,
            r.column == 0,
            row_is(r.row, fit_row(Some(0), lens@[0] as int)),
    {
        FocusCursor { region, column: 0, row: fit_row_exec(Some(0), lens[0]) }
    }

    /// Jumps to a cell, brought into the grid.
    pub fn set_focus(&mut self, column: usize, row: usize, lens: &Vec<usize>)
        requires
            lens@.len() > 0,
        ensures
            final(self).wf(lens@),
            final(self).region == old(self).region,
            final(self).column as int == clamp_index(column as int, lens@.len() as int),
            row_is(final(self).row, fit_row(Some(row), lens@[final(self).column as int] as int)),
    {
        let c = clamp_exec(column as i128, lens.len());
        self.column = c;
        self.row = fit_row_exec(Some(row), lens[c]);
    }

    /// Brings the cursor back into the grid after the columns changed: the
    /// column is clamped and the row re-fitted.
    pub fn clamp(&mut self, lens: &Vec<usize>)
        requires
            lens@.len() > 0,
        ensures
            final(self).wf(lens@),
            final(self).region == old(self).region,
            final(self).column as int == clamp_index(old(self).column as int, lens@.len() as int),
            row_is(final(self).row, fit_row(old(self).row, lens@[final(self).column as int] as int)),
    {
        let c = clamp_exec(self.column as i128, lens.len());
        self.column = c;
        self.row = fit_row_exec(self.row, lens[c]);
    }

    /// Moves `delta` columns, stopping at the edges, and re-fits the row to
    /// the new column.
    pub fn move_column(&mut self, delta: i32, lens: &Vec<usize>)
        requires
            old(self).wf(lens@),
        ensures
            final(self).wf(lens@),
            final(self).region == old(self).region,
            final(self).column as int == clamp_index(
                old(self).column + delta,
                lens@.len() as int,
            ),
            row_is(final(self).row, fit_row(old(self).row, lens@[final(self).column as int] as int)),
    {
        let c = clamp_exec(self.column as i128 + delta as i128, lens.len());
        self.column = c;
        self.row = fit_row_exec(self.row, lens[c]);
    }

    /// Moves `delta` rows within the column, stopping at its ends.
    pub fn move_row(&mut self, delta: i32, lens: &Vec<usize>)
        requires
            old(self).wf(lens@),
        ensures
            final(self).wf(lens@),
            final(self).region == old(self).region,
            final(self).column == old(self).column,
            row_is(
                final(self).row,
                moved_row(old(self).row, delta as int, lens@[old(self).column as int] as int),
            ),
    {
        let len = lens[self.column];
        if len == 0 {
            self.row = None;
        } else {
            match self.row {
                None => {
                    self.row = Some(0);
                },
                Some(r) => {
                    self.row = Some(clamp_exec(r as i128 + delta as i128, len));
                },
            }
        }
    }
}

/// A cursor never reports a row at or past the end of its column, and a move
/// into an empty column gives the empty sentinel.
pub proof fn lemma_cursor_rows_in_column(c: FocusCursor, lens: Seq<usize>, delta: int)
    requires
        c.wf(lens),
    ensures
        c.row matches Some(r) ==> r < lens[c.column as int],
        ({
            let target = clamp_index(c.column + delta, lens.len() as int);
            lens[target] == 0 ==> fit_row(c.row, lens[target] as int) is None
        }),
{
}

} // verus!
