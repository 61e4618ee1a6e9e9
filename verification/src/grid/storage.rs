//! The ordered collection of rows backing the grid, one row per visible
//! line, allocated once at construction.

use vstd::prelude::*;

use crate::cell::Cell;
use crate::grid::Line;
use crate::grid::row::Row;

verus! {

/// The rows of the grid, addressed by a signed line coordinate.
pub struct Storage {
    inner: Vec<Row>,
}

impl View for Storage {
    type V = Seq<Seq<Cell>>;

    closed spec fn view(&self) -> Seq<Seq<Cell>> {
        Seq::new(self.inner@.len() as nat, |l: int| self.inner@[l]@)
    }
}

impl Storage {
    /// Allocates `visible_lines` rows of `columns` blank cells each.
    pub fn with_capacity(visible_lines: usize, columns: usize) -> (storage: Storage)
        requires
            visible_lines >= 1,
            columns >= 1,
        ensures
            storage@.len() == visible_lines,
            forall|l: int| 0 <= l < visible_lines ==> (#[trigger] storage@[l]).len() == columns,
            forall|l: int, c: int|
                0 <= l < visible_lines && 0 <= c < columns ==> storage@[l][c]
                    == Cell::default_spec(),
    {
        let mut inner: Vec<Row> = Vec::with_capacity(visible_lines);
        let mut l: usize = 0;
        while l < visible_lines
            invariant
                l <= visible_lines,
                columns >= 1,
                inner@.len() == l,
                forall|j: int| 0 <= j < l ==> (#[trigger] inner@[j]@).len() == columns,
                forall|j: int, c: int|
                    0 <= j < l && 0 <= c < columns ==> inner@[j]@[c] == Cell::default_spec(),
            decreases visible_lines - l,
        {
            inner.push(Row::new(columns));
            l = l + 1;
        }
        Storage { inner }
    }

    /// The number of rows.
    pub fn len(&self) -> (n: usize)
        ensures
            n == self@.len(),
    {
        self.inner.len()
    }

    /// The row at the given line.
    pub fn row(&self, index: Line) -> (row: &Row)
        requires
            0 <= index.0,
            index.0 < self@.len(),
        ensures
            row@ == self@[index.0 as int],
    {
        &self.inner[index.0 as usize]
    }

    /// Exclusive access to the row at the given line. Rows other than the
    /// addressed one are untouched, whatever the caller writes through the
    /// returned reference.
    pub fn row_mut(&mut self, index: Line) -> (row: &mut Row)
        requires
            0 <= index.0,
            index.0 < old(self)@.len(),
        ensures
            (*row)@ == old(self)@[index.0 as int],
            final(self)@.len() == old(self)@.len(),
            final(self)@[index.0 as int] == (*final(row))@,
            forall|j: int|
                0 <= j < old(self)@.len() && j != index.0 ==> final(self)@[j] == old(self)@[j],
    {
        &mut self.inner[index.0 as usize]
    }
}

} // verus!
