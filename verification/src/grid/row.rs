//! A single row of the grid: it owns exactly one cell per column, and its
//! length never changes after construction.

use vstd::prelude::*;

use crate::cell::Cell;
use crate::grid::Column;

verus! {

/// A row in the grid.
pub struct Row {
    inner: Vec<Cell>,
}

impl View for Row {
    type V = Seq<Cell>;

    closed spec fn view(&self) -> Seq<Cell> {
        self.inner@
    }
}

impl Row {
    /// Allocates a row of exactly `columns` blank cells.
    pub fn new(columns: usize) -> (row: Row)
        requires
            columns >= 1,
        ensures
            row@.len() == columns,
            forall|c: int| 0 <= c < columns ==> row@[c] == Cell::default_spec(),
    {
        let mut inner: Vec<Cell> = Vec::with_capacity(columns);
        let mut c: usize = 0;
        while c < columns
            invariant
                c <= columns,
                inner@.len() == c,
                forall|j: int| 0 <= j < c ==> inner@[j] == Cell::default_spec(),
            decreases columns - c,
        {
            inner.push(Cell::default());
            c = c + 1;
        }
        Row { inner }
    }

    /// The number of cells in this row.
    pub fn len(&self) -> (n: usize)
        ensures
            n == self@.len(),
    {
        self.inner.len()
    }

    /// The cell at the given column.
    pub fn cell(&self, index: Column) -> (cell: &Cell)
        requires
            index.0 < self@.len(),
        ensures
            *cell == self@[index.0 as int],
    {
        &self.inner[index.0]
    }

    /// Exclusive access to the cell at the given column.
    pub fn cell_mut(&mut self, index: Column) -> (cell: &mut Cell)
        requires
            index.0 < old(self)@.len(),
        ensures
            *cell == old(self)@[index.0 as int],
            final(self)@ == old(self)@.update(index.0 as int, *final(cell)),
    {
        &mut self.inner[index.0]
    }
}

} // verus!
