//! The public terminal state: a grid of cells plus the high-level
//! operations that the dispatcher and the host drive it with.

use vstd::prelude::*;

use crate::cell::Cell;
use crate::grid::{
    index_cell, lemma_cells_updated_at, render_seq, spec_init, Column, Grid, GridIterator,
    GridView, Indexed, Line, Point,
};

verus! {

/// Writing a character: the cursor cell takes the character and the
/// template's colors, then the cursor advances one column, wrapping to the
/// start of the next line — exactly as a new line does — when it would pass
/// the last column.
pub open spec fn spec_input(v: GridView, ch: char) -> GridView {
    let written = GridView {
        cells: v.cells.update(
            v.cursor_line,
            v.cells[v.cursor_line].update(
                v.cursor_col,
                Cell { c: ch, fg: v.template.fg, bg: v.template.bg },
            ),
        ),
        ..v
    };
    if v.cursor_col + 1 < v.columns {
        GridView { cursor_col: v.cursor_col + 1, ..written }
    } else {
        spec_new_line(written)
    }
}

/// Direct cursor positioning: the cursor moves, nothing else changes.
pub open spec fn spec_goto(v: GridView, line: int, column: int) -> GridView {
    GridView { cursor_line: line, cursor_col: column, ..v }
}

/// A new line: the column resets to zero, and the line advances by one
/// unless the cursor already sits on the last visible line — content never
/// scrolls in this scope.
pub open spec fn spec_new_line(v: GridView) -> GridView {
    GridView {
        cursor_col: 0,
        cursor_line: if v.cursor_line < v.lines - 1 {
            v.cursor_line + 1
        } else {
            v.cursor_line
        },
        ..v
    }
}

/// A carriage return: the column resets to zero, nothing else changes.
pub open spec fn spec_carriage_return(v: GridView) -> GridView {
    GridView { cursor_col: 0, ..v }
}

/// Destructive backspace: at column zero nothing happens; otherwise the
/// cursor steps one column left and the cell it lands on becomes blank.
pub open spec fn spec_backspace(v: GridView) -> GridView {
    if v.cursor_col == 0 {
        v
    } else {
        let col = v.cursor_col - 1;
        GridView {
            cursor_col: col,
            cells: v.cells.update(
                v.cursor_line,
                v.cells[v.cursor_line].update(col, Cell::default_spec()),
            ),
            ..v
        }
    }
}

/// Cursor right by `n`, clamped to the last column — never wrapping.
pub open spec fn spec_move_cursor_right(v: GridView, n: int) -> GridView {
    GridView {
        cursor_col: if v.cursor_col + n <= v.columns - 1 {
            v.cursor_col + n
        } else {
            v.columns - 1
        },
        ..v
    }
}

/// Cursor up by `n`, saturating at the top line.
pub open spec fn spec_move_cursor_up(v: GridView, n: int) -> GridView {
    GridView {
        cursor_line: if v.cursor_line - n >= 0 {
            v.cursor_line - n
        } else {
            0
        },
        ..v
    }
}

/// A new line taken while already on the last visible line leaves the line
/// unchanged — content never shifts — but always resets the column to zero.
pub proof fn lemma_new_line_at_bottom(v: GridView)
    requires
        v.cursor_line == v.lines - 1,
    ensures
        spec_new_line(v).cursor_line == v.cursor_line,
        spec_new_line(v).cursor_col == 0,
        spec_new_line(v).cells == v.cells,
{
}

/// Backspace at column zero mutates nothing at all.
pub proof fn lemma_backspace_at_column_zero(v: GridView)
    requires
        v.cursor_col == 0,
    ensures
        spec_backspace(v) == v,
{
}

/// Cursor motion clamps for every count `n`: moving right never produces a
/// column at or past `columns`, and moving up never produces a negative
/// line; both keep the state well-formed.
pub proof fn lemma_cursor_motion_clamped(v: GridView, n: int)
    requires
        v.wf(),
        0 <= n,
    ensures
        spec_move_cursor_right(v, n).cursor_col < v.columns,
        spec_move_cursor_right(v, n).wf(),
        spec_move_cursor_up(v, n).cursor_line >= 0,
        spec_move_cursor_up(v, n).wf(),
{
}

/// Rendering is read-only and deterministic: the sequence is a function of
/// the terminal state alone, so two renderings with no mutation in between
/// are identical.
pub proof fn lemma_render_repeatable(v: GridView, first: Seq<Indexed>, second: Seq<Indexed>)
    requires
        first == render_seq(v),
        second == render_seq(v),
    ensures
        first == second,
{
}

/// The terminal state: one grid of cells, owned exclusively.
pub struct Term {
    grid: Grid,
}

impl View for Term {
    type V = GridView;

    closed spec fn view(&self) -> GridView {
        self.grid@
    }
}

impl Term {
    /// Creates a terminal of `lines` by `columns` blank cells, cursor at the
    /// origin.
    pub fn new(lines: usize, columns: usize) -> (term: Term)
        requires
            1 <= lines,
            lines as int <= i32::MAX as int,
            1 <= columns,
        ensures
            term@ == spec_init(lines as int, columns as int),
            term@.wf(),
    {
        Term { grid: Grid::new(lines, columns) }
    }

    /// Writes `c` with the template's colors at the cursor and advances the
    /// cursor, wrapping at the last column.
    pub fn input(&mut self, c: char)
        requires
            old(self)@.wf(),
        ensures
            final(self)@ == spec_input(old(self)@, c),
            final(self)@.wf(),
    {
        let fg = self.grid.cursor.template.fg;
        let bg = self.grid.cursor.template.bg;
        let cursor_cell = self.grid.cursor_cell();

        cursor_cell.c = c;
        cursor_cell.fg = fg;
        cursor_cell.bg = bg;

        proof {
            lemma_cells_updated_at(
                old(self)@.cells,
                self@.cells,
                old(self)@.cursor_line,
                old(self)@.cursor_col,
                Cell { c, fg, bg },
            );
        }

        if self.grid.cursor.point.column.0 + 1 < self.grid.columns {
            self.grid.cursor.point.column = Column(self.grid.cursor.point.column.0 + 1);
        } else {
            self.new_line();
        }
    }

    /// Sets the cursor point directly: trusted low-level positioning, so the
    /// target must lie inside the grid.
    pub fn goto(&mut self, line: i32, col: usize)
        requires
            old(self)@.wf(),
            0 <= line < old(self)@.lines,
            col < old(self)@.columns,
        ensures
            final(self)@ == spec_goto(old(self)@, line as int, col as int),
            final(self)@.wf(),
    {
        self.grid.cursor.point.line = Line(line);
        self.grid.cursor.point.column = Column(col);
    }

    /// Resets the column and advances the line, unless the cursor is already
    /// on the last visible line.
    pub fn new_line(&mut self)
        requires
            old(self)@.wf(),
        ensures
            final(self)@ == spec_new_line(old(self)@),
            final(self)@.wf(),
    {
        if self.grid.cursor.point.line.0 < (self.grid.lines as i32) - 1 {
            self.grid.cursor.point.line = Line(self.grid.cursor.point.line.0 + 1);
        }
        self.grid.cursor.point.column = Column(0);
    }

    /// Resets the column only.
    pub fn carriage_return(&mut self)
        requires
            old(self)@.wf(),
        ensures
            final(self)@ == spec_carriage_return(old(self)@),
            final(self)@.wf(),
    {
        self.grid.cursor.point.column = Column(0);
    }

    /// Destructive backspace: steps left and blanks the cell there; a no-op
    /// at column zero.
    pub fn backspace(&mut self)
        requires
            old(self)@.wf(),
        ensures
            final(self)@ == spec_backspace(old(self)@),
            final(self)@.wf(),
    {
        if self.grid.cursor.point.column.0 > 0 {
            self.grid.cursor.point.column = Column(self.grid.cursor.point.column.0 - 1);
            let cursor_cell = self.grid.cursor_cell();
            cursor_cell.reset();
            proof {
                lemma_cells_updated_at(
                    old(self)@.cells,
                    self@.cells,
                    old(self)@.cursor_line,
                    old(self)@.cursor_col - 1,
                    Cell::default_spec(),
                );
            }
        }
    }

    /// Moves the cursor `n` columns right, clamped to the last column.
    pub fn move_cursor_right(&mut self, n: usize)
        requires
            old(self)@.wf(),
        ensures
            final(self)@ == spec_move_cursor_right(old(self)@, n as int),
            final(self)@.wf(),
    {
        let col = self.grid.cursor.point.column.0;
        let last = self.grid.columns - 1;
        let moved = if n <= last - col {
            col + n
        } else {
            last
        };
        self.grid.cursor.point.column = Column(moved);
    }

    /// Moves the cursor `n` lines up, saturating at the top line.
    pub fn move_cursor_up(&mut self, n: usize)
        requires
            old(self)@.wf(),
        ensures
            final(self)@ == spec_move_cursor_up(old(self)@, n as int),
            final(self)@.wf(),
    {
        let line = self.grid.cursor.point.line.0;
        let moved = if n >= (line as usize) {
            0
        } else {
            line - (n as i32)
        };
        self.grid.cursor.point.line = Line(moved);
    }

    /// Decides well-formedness at run time, so that unverified callers can
    /// test it before driving the terminal.
    pub fn well_formed(&self) -> (b: bool)
        ensures
            b == self@.wf(),
    {
        if !(1 <= self.grid.lines && self.grid.lines <= (i32::MAX as usize) && 1
            <= self.grid.columns) {
            return false;
        }
        if self.grid.raw.len() != self.grid.lines {
            return false;
        }
        let mut l: usize = 0;
        while l < self.grid.lines
            invariant
                l <= self.grid.lines,
                self.grid.raw@.len() == self.grid.lines,
                self.grid.lines <= i32::MAX,
                forall|j: int| 0 <= j < l ==> (#[trigger] self.grid.raw@[j]).len()
                    == self.grid.columns,
            decreases self.grid.lines - l,
        {
            if self.grid.raw.row(Line(l as i32)).len() != self.grid.columns {
                return false;
            }
            l = l + 1;
        }
        let cursor = self.grid.cursor.point;
        let saved = self.grid.saved_cursor.point;
        0 <= cursor.line.0 && (cursor.line.0 as usize) < self.grid.lines && cursor.column.0
            < self.grid.columns && 0 <= saved.line.0 && (saved.line.0 as usize) < self.grid.lines
            && saved.column.0 < self.grid.columns
    }

    /// The cursor's current position.
    pub fn cursor_point(&self) -> (point: Point)
        ensures
            point.line.0 == self@.cursor_line,
            point.column.0 == self@.cursor_col,
    {
        self.grid.cursor.point
    }

    /// Starts a read-only, restartable iteration over the whole grid in
    /// row-major order. Each call reflects the current state and never
    /// mutates it.
    pub fn renderable_content(&self) -> (it: GridIterator)
        requires
            self@.wf(),
        ensures
            it.wf(),
            it.gv() == self@,
            it.pos() == -1,
    {
        self.grid.display_iter()
    }

    /// Collects the full renderable content: exactly `lines * columns`
    /// items in row-major order. The result is a function of the terminal
    /// state alone, so two calls with no mutation in between return the
    /// same sequence.
    pub fn renderable_cells(&self) -> (cells: Vec<Indexed>)
        requires
            self@.wf(),
        ensures
            cells@ == render_seq(self@),
            cells@.len() == self@.lines * self@.columns,
    {
        let mut it = self.renderable_content();
        let mut cells: Vec<Indexed> = Vec::new();
        loop
            invariant
                self@.wf(),
                it.wf(),
                it.gv() == self@,
                cells@.len() == it.pos() + 1,
                forall|j: int| 0 <= j <= it.pos() ==> cells@[j] == index_cell(self@, j),
            ensures
                it.pos() == self@.lines * self@.columns - 1,
                cells@.len() == it.pos() + 1,
                forall|j: int| 0 <= j <= it.pos() ==> cells@[j] == index_cell(self@, j),
            decreases self@.lines * self@.columns - it.pos(),
        {
            proof {
                it.lemma_pos_in_range();
            }
            match it.next() {
                Some(item) => {
                    cells.push(item);
                },
                None => {
                    break ;
                },
            }
        }
        proof {
            assert(cells@ =~= render_seq(self@));
        }
        cells
    }
}

} // verus!

