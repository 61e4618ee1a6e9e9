//! The dense rectangular buffer of cells: typed coordinates, the cursor,
//! the storage of rows, and full-coverage iteration in row-major order.

mod row;
mod storage;

use vstd::prelude::*;

use core::cmp::Ordering;

use vstd::arithmetic::div_mod::{
    lemma_fundamental_div_mod, lemma_fundamental_div_mod_converse, lemma_mod_bound,
};

use crate::cell::Cell;

pub use row::Row;
pub use storage::Storage;

verus! {

/// An unsigned column offset, bounded by `columns - 1`.
#[derive(Clone, Copy, Debug, PartialEq, Eq, Structural)]
pub struct Column(pub usize);

/// A signed line offset; signed to leave room for negative (scrollback)
/// addressing, although the visible grid only uses `0 ..= lines - 1`.
#[derive(Clone, Copy, Debug, PartialEq, Eq, Structural)]
pub struct Line(pub i32);

/// A grid position: a line and a column.
#[derive(Clone, Copy, Debug, PartialEq, Eq, Structural)]
pub struct Point {
    pub line: Line,
    pub column: Column,
}

impl Point {
    /// Points are ordered by line first, then column.
    pub open spec fn spec_cmp(self, other: Point) -> Ordering {
        if self.line.0 < other.line.0 {
            Ordering::Less
        } else if self.line.0 > other.line.0 {
            Ordering::Greater
        } else if self.column.0 < other.column.0 {
            Ordering::Less
        } else if self.column.0 > other.column.0 {
            Ordering::Greater
        } else {
            Ordering::Equal
        }
    }
}

impl PartialOrd for Point {
    fn partial_cmp(&self, other: &Point) -> (r: Option<Ordering>) {
        if self.line.0 < other.line.0 {
            Some(Ordering::Less)
        } else if self.line.0 > other.line.0 {
            Some(Ordering::Greater)
        } else if self.column.0 < other.column.0 {
            Some(Ordering::Less)
        } else if self.column.0 > other.column.0 {
            Some(Ordering::Greater)
        } else {
            Some(Ordering::Equal)
        }
    }
}

impl vstd::std_specs::cmp::PartialOrdSpecImpl for Point {
    open spec fn obeys_partial_cmp_spec() -> bool {
        true
    }

    open spec fn partial_cmp_spec(&self, other: &Point) -> Option<Ordering> {
        Some(self.spec_cmp(*other))
    }
}

/// A write position: a point, and the template cell whose colors are applied
/// to every character written there.
#[derive(Clone, Copy, Debug, PartialEq, Eq, Structural)]
pub struct Cursor {
    pub point: Point,
    pub template: Cell,
}

/// A cell paired with the point it sits at, produced by iteration only.
#[derive(Clone, Copy, Debug, PartialEq, Eq, Structural)]
pub struct Indexed {
    pub point: Point,
    pub cell: Cell,
}

/// The mathematical state of a grid: its dimensions, its cells line by line,
/// and the two cursors.
pub struct GridView {
    pub lines: int,
    pub columns: int,
    pub cells: Seq<Seq<Cell>>,
    pub cursor_line: int,
    pub cursor_col: int,
    pub template: Cell,
    pub saved_line: int,
    pub saved_col: int,
    pub saved_template: Cell,
}

impl GridView {
    /// Well-formedness: the dimensions are at least one and fit the
    /// coordinate types, every line holds exactly `columns` cells, and both
    /// cursors sit inside the grid.
    pub open spec fn wf(self) -> bool {
        &&& 1 <= self.lines <= i32::MAX
        &&& 1 <= self.columns <= usize::MAX
        &&& self.cells.len() == self.lines
        &&& forall|l: int| 0 <= l < self.lines ==> (#[trigger] self.cells[l]).len() == self.columns
        &&& 0 <= self.cursor_line < self.lines
        &&& 0 <= self.cursor_col < self.columns
        &&& 0 <= self.saved_line < self.lines
        &&& 0 <= self.saved_col < self.columns
    }

    /// The cell at the given position.
    pub open spec fn cell_at(self, l: int, c: int) -> Cell {
        self.cells[l][c]
    }
}

/// The state of a freshly constructed grid: all cells blank, both cursors at
/// the origin with a blank template.
pub open spec fn spec_init(lines: int, columns: int) -> GridView {
    GridView {
        lines: lines,
        columns: columns,
        cells: Seq::new(lines as nat, |l: int| Seq::new(columns as nat, |c: int| Cell::default_spec())),
        cursor_line: 0,
        cursor_col: 0,
        template: Cell::default_spec(),
        saved_line: 0,
        saved_col: 0,
        saved_template: Cell::default_spec(),
    }
}

/// Holds when `new_cells` equals `old_cells` with the single cell at
/// `(l, c)` replaced by `cell`, stated pointwise.
pub open spec fn cells_updated_at(
    old_cells: Seq<Seq<Cell>>,
    new_cells: Seq<Seq<Cell>>,
    l: int,
    c: int,
    cell: Cell,
) -> bool {
    &&& new_cells.len() == old_cells.len()
    &&& forall|j: int| 0 <= j < old_cells.len() && j != l ==> new_cells[j] == old_cells[j]
    &&& new_cells[l].len() == old_cells[l].len()
    &&& forall|k: int| 0 <= k < old_cells[l].len() && k != c ==> new_cells[l][k] == old_cells[l][k]
    &&& new_cells[l][c] == cell
}

/// The pointwise description of a single-cell write is the same thing as the
/// sequence update that writes `cell` at `(l, c)`.
pub proof fn lemma_cells_updated_at(
    old_cells: Seq<Seq<Cell>>,
    new_cells: Seq<Seq<Cell>>,
    l: int,
    c: int,
    cell: Cell,
)
    requires
        cells_updated_at(old_cells, new_cells, l, c, cell),
        0 <= l < old_cells.len(),
        0 <= c < old_cells[l].len(),
    ensures
        new_cells == old_cells.update(l, old_cells[l].update(c, cell)),
{
    assert(new_cells[l] =~= old_cells[l].update(c, cell));
    assert(new_cells =~= old_cells.update(l, old_cells[l].update(c, cell)));
}

/// The point that encodes the flat index `k` of row-major iteration: line
/// `k / columns`, column `k % columns`.
pub open spec fn point_at(v: GridView, k: int) -> Point {
    Point { line: Line((k / v.columns) as i32), column: Column((k % v.columns) as usize) }
}

/// The `k`-th item of row-major iteration: the point encoding `k` paired
/// with the cell there.
pub open spec fn index_cell(v: GridView, k: int) -> Indexed {
    Indexed { point: point_at(v, k), cell: v.cells[k / v.columns][k % v.columns] }
}

/// The full renderable content of a grid: one item per cell, row-major,
/// top-to-bottom and left-to-right — exactly `lines * columns` items.
pub open spec fn render_seq(v: GridView) -> Seq<Indexed> {
    Seq::new((v.lines * v.columns) as nat, |k: int| index_cell(v, k))
}

/// Strict ordering of points: line first, then column.
pub open spec fn point_lt(a: Point, b: Point) -> bool {
    a.spec_cmp(b) == Ordering::Less
}

/// Full coverage in row-major order: rendering a well-formed grid yields
/// exactly `lines * columns` items; the `k`-th stands at line
/// `k / columns`, column `k % columns`, holding the cell there; and the
/// points of consecutive items strictly increase, so the sequence runs
/// top-to-bottom and left-to-right.
pub proof fn lemma_render_seq_row_major(v: GridView)
    requires
        v.wf(),
    ensures
        render_seq(v).len() == v.lines * v.columns,
        forall|k: int|
            0 <= k < v.lines * v.columns ==> (#[trigger] render_seq(v)[k]) == index_cell(v, k),
        forall|k: int|
            0 <= k < v.lines * v.columns - 1 ==> point_lt(
                #[trigger] point_at(v, k),
                point_at(v, k + 1),
            ),
{
    assert(v.lines * v.columns >= 1) by (nonlinear_arith)
        requires
            v.lines >= 1,
            v.columns >= 1,
    ;
    assert forall|k: int|
        0 <= k < v.lines * v.columns - 1 implies point_lt(
        #[trigger] point_at(v, k),
        point_at(v, k + 1),
    ) by {
        let cols = v.columns;
        lemma_fundamental_div_mod(k, cols);
        lemma_mod_bound(k, cols);
        let q = k / cols;
        let r = k % cols;
        assert(0 <= q < v.lines) by (nonlinear_arith)
            requires
                k == cols * q + r,
                0 <= r < cols,
                0 <= k,
                k < v.lines * cols,
                1 <= cols,
        ;
        if r < cols - 1 {
            lemma_fundamental_div_mod_converse(k + 1, cols, q, r + 1);
        } else {
            assert(k + 1 == (q + 1) * cols + 0) by (nonlinear_arith)
                requires
                    k == cols * q + r,
                    r == cols - 1,
            ;
            lemma_fundamental_div_mod_converse(k + 1, cols, q + 1, 0);
        }
    }
}

/// A position `(l, c)` inside the iteration range encodes the flat index
/// `l * columns + c`; that index is the last one exactly when the position
/// is the bottom-right cell.
proof fn lemma_pos_at_end(l: int, c: int, lines: int, columns: int)
    requires
        1 <= lines,
        1 <= columns,
        -1 <= l < lines,
        0 <= c < columns,
        l == -1 ==> c == columns - 1,
    ensures
        (l * columns + c == lines * columns - 1) <==> (l == lines - 1 && c == columns - 1),
        -1 <= l * columns + c < lines * columns,
{
    assert((l * columns + c == lines * columns - 1) <==> (l == lines - 1 && c == columns - 1))
        by (nonlinear_arith)
        requires
            1 <= lines,
            1 <= columns,
            -1 <= l < lines,
            0 <= c < columns,
            l == -1 ==> c == columns - 1,
    ;
    assert(-1 <= l * columns + c < lines * columns) by (nonlinear_arith)
        requires
            1 <= lines,
            1 <= columns,
            -1 <= l < lines,
            0 <= c < columns,
            l == -1 ==> c == columns - 1,
    ;
}

/// The dense buffer: storage, cursor, saved cursor and dimensions.
pub struct Grid {
    /// Current cursor for writing data.
    pub cursor: Cursor,
    /// Last saved cursor; state only, no operation in this scope touches it.
    pub saved_cursor: Cursor,
    /// One row per visible line.
    pub raw: Storage,
    /// Number of columns.
    pub columns: usize,
    /// Number of visible lines.
    pub lines: usize,
}

impl View for Grid {
    type V = GridView;

    open spec fn view(&self) -> GridView {
        GridView {
            lines: self.lines as int,
            columns: self.columns as int,
            cells: self.raw@,
            cursor_line: self.cursor.point.line.0 as int,
            cursor_col: self.cursor.point.column.0 as int,
            template: self.cursor.template,
            saved_line: self.saved_cursor.point.line.0 as int,
            saved_col: self.saved_cursor.point.column.0 as int,
            saved_template: self.saved_cursor.template,
        }
    }
}

impl Grid {
    /// Allocates a `lines` by `columns` grid of blank cells, with the cursor
    /// at the origin.
    pub fn new(lines: usize, columns: usize) -> (grid: Grid)
        requires
            1 <= lines,
            lines as int <= i32::MAX as int,
            1 <= columns,
        ensures
            grid@ == spec_init(lines as int, columns as int),
            grid@.wf(),
    {
        let origin = Cursor {
            point: Point { line: Line(0), column: Column(0) },
            template: Cell::default(),
        };
        let grid = Grid {
            cursor: origin,
            saved_cursor: origin,
            raw: Storage::with_capacity(lines, columns),
            columns,
            lines,
        };
        proof {
            let target = spec_init(lines as int, columns as int);
            assert forall|l: int| 0 <= l < lines implies grid@.cells[l] =~= target.cells[l] by {}
            assert(grid@.cells =~= target.cells);
        }
        grid
    }

    /// The rightmost column of the grid.
    pub fn last_column(&self) -> (column: Column)
        requires
            self@.wf(),
        ensures
            column.0 == self@.columns - 1,
    {
        Column(self.columns - 1)
    }

    /// Exclusive access to the cell under the cursor. Every other cell, the
    /// cursors and the dimensions are untouched, whatever the caller writes
    /// through the returned reference.
    pub fn cursor_cell(&mut self) -> (cell: &mut Cell)
        requires
            old(self)@.wf(),
        ensures
            *cell == old(self)@.cell_at(old(self)@.cursor_line, old(self)@.cursor_col),
            cells_updated_at(
                old(self)@.cells,
                final(self)@.cells,
                old(self)@.cursor_line,
                old(self)@.cursor_col,
                *final(cell),
            ),
            final(self)@ == (GridView { cells: final(self)@.cells, ..old(self)@ }),
    {
        let point = self.cursor.point;
        let row = self.raw.row_mut(point.line);
        row.cell_mut(point.column)
    }

    /// Starts a full-coverage iteration over the grid: the iterator stands
    /// one position before the top-left cell, and each `next` yields one
    /// cell in row-major order.
    pub fn display_iter(&self) -> (it: GridIterator)
        requires
            self@.wf(),
        ensures
            it.wf(),
            it.gv() == self@,
            it.pos() == -1,
    {
        let start = Point { line: Line(-1), column: self.last_column() };
        let end = Point {
            line: Line((self.lines - 1) as i32),
            column: self.last_column(),
        };
        let it = GridIterator { grid: self, point: start, end };
        proof {
            let cols = self@.columns;
            assert((-1) * cols + (cols - 1) == -1) by (nonlinear_arith);
        }
        it
    }
}

/// A cursor over the cells of a grid, yielding every cell exactly once in
/// row-major order. It reads the grid and never mutates it.
pub struct GridIterator<'a> {
    grid: &'a Grid,
    point: Point,
    end: Point,
}

impl<'a> GridIterator<'a> {
    /// The state of the grid being iterated.
    pub closed spec fn gv(&self) -> GridView {
        (*self.grid)@
    }

    /// The position the iterator currently stands at.
    pub closed spec fn spec_point(&self) -> Point {
        self.point
    }

    /// The flat row-major index of the current position; `-1` before the
    /// first item, `lines * columns - 1` once exhausted.
    pub open spec fn pos(&self) -> int {
        self.spec_point().line.0 * self.gv().columns + self.spec_point().column.0
    }

    /// The iterator points inside the iteration range of a well-formed grid
    /// and its end sentinel is the bottom-right cell.
    pub closed spec fn wf(&self) -> bool {
        &&& self.gv().wf()
        &&& -1 <= self.point.line.0 < self.gv().lines
        &&& 0 <= self.point.column.0 < self.gv().columns
        &&& (self.point.line.0 == -1 ==> self.point.column.0 == self.gv().columns - 1)
        &&& self.end.line.0 == self.gv().lines - 1
        &&& self.end.column.0 == self.gv().columns - 1
    }

    /// A well-formed iterator's flat index stays in the iteration range.
    pub proof fn lemma_pos_in_range(&self)
        requires
            self.wf(),
        ensures
            self.gv().wf(),
            -1 <= self.pos() < self.gv().lines * self.gv().columns,
    {
        lemma_pos_at_end(
            self.point.line.0 as int,
            self.point.column.0 as int,
            self.gv().lines,
            self.gv().columns,
        );
    }

    /// Current iterator position.
    pub fn point(&self) -> (point: Point)
        ensures
            point == self.spec_point(),
    {
        self.point
    }

    /// Cell at the current iterator position.
    pub fn cell(&self) -> (cell: &'a Cell)
        requires
            self.wf(),
            self.pos() >= 0,
        ensures
            *cell == index_cell(self.gv(), self.pos()).cell,
    {
        proof {
            if self.point.line.0 == -1 {
                assert(self.pos() == -1 * self.gv().columns + (self.gv().columns - 1));
            }
            lemma_fundamental_div_mod_converse(
                self.pos(),
                self.gv().columns,
                self.point.line.0 as int,
                self.point.column.0 as int,
            );
        }
        let row = self.grid.raw.row(self.point.line);
        row.cell(self.point.column)
    }

    /// Advances one position and yields the cell now pointed at; `None` once
    /// the bottom-right cell has been yielded. The grid itself is untouched.
    pub fn next(&mut self) -> (item: Option<Indexed>)
        requires
            old(self).wf(),
        ensures
            final(self).wf(),
            final(self).gv() == old(self).gv(),
            old(self).pos() == old(self).gv().lines * old(self).gv().columns - 1
                ==> item.is_none() && final(self).pos() == old(self).pos(),
            old(self).pos() < old(self).gv().lines * old(self).gv().columns - 1
                ==> final(self).pos() == old(self).pos() + 1
                    && item == Some(index_cell(old(self).gv(), old(self).pos() + 1)),
    {
        proof {
            lemma_pos_at_end(
                self.point.line.0 as int,
                self.point.column.0 as int,
                self.gv().lines,
                self.gv().columns,
            );
        }
        // Stop once the end of the grid was reached.
        if self.point >= self.end {
            return None;
        }
        if self.point.column == self.grid.last_column() {
            self.point.column = Column(0);
            self.point.line = Line(self.point.line.0 + 1);
            proof {
                let prev_line = old(self).point.line.0 as int;
                let cols = self.gv().columns;
                assert((prev_line + 1) * cols == prev_line * cols + cols) by (nonlinear_arith);
            }
        } else {
            self.point.column = Column(self.point.column.0 + 1);
        }
        proof {
            lemma_fundamental_div_mod_converse(
                self.pos(),
                self.gv().columns,
                self.point.line.0 as int,
                self.point.column.0 as int,
            );
        }
        let row = self.grid.raw.row(self.point.line);
        let cell = *row.cell(self.point.column);
        Some(Indexed { point: self.point, cell })
    }
}

} // verus!
