//! The cursor: a position over the buffer, moved one step at a time and held
//! inside bounds that the caller supplies.

use vstd::prelude::*;

verus! {

/// One step towards zero: `max(0, v - 1)`.
pub open spec fn step_back(v: int) -> int {
    if v > 0 {
        v - 1
    } else {
        0
    }
}

/// One step away from zero that never passes `bound`: `min(bound, v + 1)`.
pub open spec fn step_forward(v: int, bound: int) -> int {
    if v + 1 <= bound {
        v + 1
    } else {
        bound
    }
}

/// A position in the buffer. `column` counts characters from the start of a
/// line and `row` counts lines from the top, both from zero.
///
/// The cursor knows nothing of the buffer: every bound is handed in.
#[derive(Clone, Copy, Debug, PartialEq, Eq, Structural)]
pub struct Cursor {
    pub column: usize,
    pub row: usize,
}

impl Cursor {
    /// The cursor at the top left corner.
    pub fn new() -> (cursor: Self)
        ensures
            cursor.column == 0,
            cursor.row == 0,
    {
        Cursor { column: 0, row: 0 }
    }

    /// Moves one column to the left and stays where it is at column 0.
    pub fn move_left(&mut self)
        ensures
            final(self).column == step_back(old(self).column as int),
            final(self).row == old(self).row,
            old(self).column == 0 ==> final(self).column == 0,
    {
        if self.column > 0 {
            self.column = self.column - 1;
        }
    }

    /// Moves one column to the right, to `boundary` at most. A cursor that
    /// stands beyond `boundary` is brought back onto it.
    pub fn move_right(&mut self, boundary: usize)
        ensures
            final(self).column == step_forward(old(self).column as int, boundary as int),
            final(self).row == old(self).row,
            final(self).column <= boundary,
    {
        if self.column < boundary {
            self.column = self.column + 1;
        } else {
            self.column = boundary;
        }
    }

    /// Moves one row down, to `boundary` at most. A cursor that stands beyond
    /// `boundary` is brought back onto it.
    pub fn move_down(&mut self, boundary: usize)
        ensures
            final(self).row == step_forward(old(self).row as int, boundary as int),
            final(self).column == old(self).column,
            final(self).row <= boundary,
    {
        if self.row < boundary {
            self.row = self.row + 1;
        } else {
            self.row = boundary;
        }
    }

    /// Moves one row up and stays where it is at row 0.
    pub fn move_up(&mut self)
        ensures
            final(self).row == step_back(old(self).row as int),
            final(self).column == old(self).column,
            old(self).row == 0 ==> final(self).row == 0,
    {
        if self.row > 0 {
            self.row = self.row - 1;
        }
    }

    /// Moves to the first column of the first row.
    pub fn move_cursor_to_begin(&mut self)
        ensures
            final(self).column == 0,
            final(self).row == 0,
    {
        self.column = 0;
        self.row = 0;
    }

    /// Moves to the first column of the last row, whose index the caller
    /// hands in.
    pub fn move_cursor_to_end(&mut self, last_row: usize)
        ensures
            final(self).column == 0,
            final(self).row == last_row,
    {
        self.column = 0;
        self.row = last_row;
    }

    /// The position as `(column, row)`.
    pub fn get_position(&self) -> (position: (usize, usize))
        ensures
            position.0 == self.column,
            position.1 == self.row,
    {
        (self.column, self.row)
    }
}

} // verus!
