//! The line buffer: the text as a list of lines, each a list of characters.
//!
//! The buffer always holds at least one line. Rows and columns count from
//! zero; callers check a row against `line_count` and a column against
//! `line_length` before they hand them in.

use vstd::prelude::*;
use vstd::seq_lib::lemma_flatten_concat;
use crate::cursor::{step_back, step_forward};

verus! {

/// The characters of each line, in order.
pub open spec fn lines_view(lines: Seq<Vec<char>>) -> Seq<Seq<char>> {
    lines.map_values(|line: Vec<char>| line@)
}

/// `line` with `ch` put in before the character at `column`, or at the end
/// when `column` is at or past the end.
pub open spec fn line_with_char(line: Seq<char>, column: int, ch: char) -> Seq<char> {
    if column < line.len() {
        line.insert(column, ch)
    } else {
        line.push(ch)
    }
}

/// `lines` with the line at `row` moved to the end of the line above it.
pub open spec fn joined_with_previous(lines: Seq<Seq<char>>, row: int) -> Seq<Seq<char>> {
    lines.update(row - 1, lines[row - 1] + lines[row]).remove(row)
}

/// Joining a line to the one above loses no character and moves none: the
/// text read line after line is what it was, in one line less.
pub proof fn lemma_join_keeps_the_text(lines: Seq<Seq<char>>, row: int)
    requires
        0 < row < lines.len(),
    ensures
        joined_with_previous(lines, row).len() == lines.len() - 1,
        joined_with_previous(lines, row).flatten() == lines.flatten(),
{
    let above = lines.subrange(0, row - 1);
    let below = lines.subrange(row + 1, lines.len() as int);
    let upper = lines[row - 1];
    let lower = lines[row];
    let apart = seq![upper].push(lower);
    let joined = seq![upper + lower];
    assert(lines =~= above + apart + below);
    assert(joined_with_previous(lines, row) =~= above + joined + below);
    assert(apart.flatten() == joined.flatten()) by {
        seq![upper].lemma_flatten_one_element();
        seq![upper].lemma_flatten_push(lower);
        joined.lemma_flatten_one_element();
    }
    lemma_flatten_concat(above, apart);
    lemma_flatten_concat(above + apart, below);
    lemma_flatten_concat(above, joined);
    lemma_flatten_concat(above + joined, below);
}

/// The lines after the character before `(column, row)` is deleted. At the
/// start of a line the line is joined to the one above, so that no character
/// is lost; at the start of the first line nothing happens.
pub open spec fn lines_after_delete_before(lines: Seq<Seq<char>>, row: int, column: int) -> Seq<
    Seq<char>,
> {
    if column > 0 {
        lines.update(row, lines[row].remove(column - 1))
    } else if row > 0 {
        joined_with_previous(lines, row)
    } else {
        lines
    }
}

/// Where the cursor stands after that deletion, as `(column, row)`: one
/// column to the left, or, after a join, where the two lines meet.
pub open spec fn position_after_delete_before(lines: Seq<Seq<char>>, row: int, column: int) -> (
    int,
    int,
) {
    if column > 0 {
        (column - 1, row)
    } else if row > 0 {
        (lines[row - 1].len() as int, row - 1)
    } else {
        (column, row)
    }
}

/// The line after the character at `column` is deleted. An empty line stays
/// as it is.
pub open spec fn line_after_delete_at(line: Seq<char>, column: int) -> Seq<char> {
    if line.len() == 0 {
        line
    } else {
        line.remove(column)
    }
}

/// The cursor's column after that deletion: one to the left when the last
/// character of the line went, else unchanged.
pub open spec fn column_after_delete_at(line: Seq<char>, column: int) -> int {
    if line.len() > 0 && column == line.len() - 1 {
        step_back(column)
    } else {
        column
    }
}

/// The text: one or more lines of characters.
pub struct LineBuffer {
    lines: Vec<Vec<char>>,
}

impl View for LineBuffer {
    type V = Seq<Seq<char>>;

    closed spec fn view(&self) -> Seq<Seq<char>> {
        lines_view(self.lines@)
    }
}

impl LineBuffer {
    /// The buffer is never without a line.
    pub open spec fn wf(&self) -> bool {
        self@.len() >= 1
    }

    /// A buffer of one empty line.
    pub fn new() -> (buffer: Self)
        ensures
            buffer.wf(),
            buffer@ == seq![Seq::<char>::empty()],
    {
        let mut lines: Vec<Vec<char>> = Vec::new();
        lines.push(Vec::new());
        let buffer = LineBuffer { lines };
        assert(buffer@ =~= seq![Seq::<char>::empty()]);
        buffer
    }

    /// The number of lines.
    pub fn line_count(&self) -> (count: usize)
        ensures
            count == self@.len(),
    {
        self.lines.len()
    }

    /// The number of characters in the line at `row`.
    pub fn line_length(&self, row: usize) -> (length: usize)
        requires
            row < self@.len(),
        ensures
            length == self@[row as int].len(),
    {
        self.lines[row].len()
    }

    /// The line at `row`.
    pub fn line(&self, row: usize) -> (line: &Vec<char>)
        requires
            row < self@.len(),
        ensures
            line@ == self@[row as int],
    {
        &self.lines[row]
    }

    /// All lines, from the top.
    pub fn lines(&self) -> (lines: &Vec<Vec<char>>)
        ensures
            lines_view(lines@) == self@,
    {
        &self.lines
    }

    /// Puts `ch` into the line at `row`, before the character at `column`, or
    /// at the end of the line when `column` is at or past its end. Returns the
    /// column after the new character's.
    pub fn insert_char(&mut self, row: usize, column: usize, ch: char) -> (next_column: usize)
        requires
            old(self).wf(),
            row < old(self)@.len(),
        ensures
            final(self).wf(),
            final(self)@ == old(self)@.update(
                row as int,
                line_with_char(old(self)@[row as int], column as int, ch),
            ),
            next_column == step_forward(column as int, usize::MAX as int),
    {
        let line = &mut self.lines[row];
        if column < line.len() {
            line.insert(column, ch);
        } else {
            line.push(ch);
        }
        assert(self@ =~= old(self)@.update(
            row as int,
            line_with_char(old(self)@[row as int], column as int, ch),
        ));
        if column < usize::MAX {
            column + 1
        } else {
            column
        }
    }

    /// Opens an empty line below the line at `row`.
    pub fn insert_line_after(&mut self, row: usize)
        requires
            old(self).wf(),
            row < old(self)@.len(),
        ensures
            final(self).wf(),
            final(self)@ == old(self)@.insert(row + 1, Seq::<char>::empty()),
    {
        assert(row < self.lines.len());
        self.lines.insert(row + 1, Vec::new());
        assert(self@ =~= old(self)@.insert(row + 1, Seq::<char>::empty()));
    }

    /// Takes out the line at `row`, unless it is the only line: then the
    /// buffer stays as it is. Says whether a line was taken out.
    pub fn remove_line(&mut self, row: usize) -> (removed: bool)
        requires
            old(self).wf(),
            row < old(self)@.len(),
        ensures
            final(self).wf(),
            removed <==> old(self)@.len() > 1,
            removed ==> final(self)@ == old(self)@.remove(row as int),
            !removed ==> final(self)@ == old(self)@,
    {
        if self.lines.len() > 1 {
            self.lines.remove(row);
            assert(self@ =~= old(self)@.remove(row as int));
            true
        } else {
            false
        }
    }

    /// Deletes the character before `(column, row)`. At column 0 of a lower
    /// row the line is joined to the one above it; at column 0 of row 0
    /// nothing happens. Returns the cursor's new place as `(column, row)`.
    pub fn delete_char_before(&mut self, row: usize, column: usize) -> (position: (usize, usize))
        requires
            old(self).wf(),
            row < old(self)@.len(),
            column <= old(self)@[row as int].len(),
        ensures
            final(self).wf(),
            final(self)@ == lines_after_delete_before(old(self)@, row as int, column as int),
            (position.0 as int, position.1 as int) == position_after_delete_before(
                old(self)@,
                row as int,
                column as int,
            ),
    {
        if column > 0 {
            let line = &mut self.lines[row];
            line.remove(column - 1);
            assert(self@ =~= old(self)@.update(
                row as int,
                old(self)@[row as int].remove(column - 1),
            ));
            (column - 1, row)
        } else if row > 0 {
            let mut tail = self.lines.remove(row);
            let line = &mut self.lines[row - 1];
            let boundary = line.len();
            line.append(&mut tail);
            assert(self@ =~= joined_with_previous(old(self)@, row as int));
            (boundary, row - 1)
        } else {
            (column, row)
        }
    }

    /// Deletes the character at `(column, row)`; an empty line stays as it
    /// is. Returns the cursor's new column: one to the left when the last
    /// character of the line went, else `column`.
    pub fn delete_char_at(&mut self, row: usize, column: usize) -> (next_column: usize)
        requires
            old(self).wf(),
            row < old(self)@.len(),
            old(self)@[row as int].len() > 0 ==> column < old(self)@[row as int].len(),
        ensures
            final(self).wf(),
            final(self)@ == old(self)@.update(
                row as int,
                line_after_delete_at(old(self)@[row as int], column as int),
            ),
            next_column == column_after_delete_at(old(self)@[row as int], column as int),
    {
        let line = &mut self.lines[row];
        if line.len() == 0 {
            assert(self@ =~= old(self)@.update(row as int, old(self)@[row as int]));
            column
        } else {
            line.remove(column);
            let remaining = line.len();
            assert(self@ =~= old(self)@.update(
                row as int,
                old(self)@[row as int].remove(column as int),
            ));
            if column == remaining && column > 0 {
                column - 1
            } else {
                column
            }
        }
    }
}

} // verus!
