//! The read-only cursor over the cells of a matrix.
use crate::grid::Grid;
use vstd::prelude::*;

verus! {

/// A cursor that yields every cell of a matrix once, row after row, together
/// with its row and column. To traverse again, create a new cursor.
pub struct MatrixIterator<'a, T: Copy> {
    row_idx: usize,
    col_idx: usize,
    idx: usize,
    data: &'a [T],
    n_rows: usize,
    n_cols: usize,
}

impl<'a, T: Copy> MatrixIterator<'a, T> {
    /// The grid that the cursor walks over.
    pub closed spec fn grid(&self) -> Grid<T> {
        Grid { n_rows: self.n_rows as nat, n_cols: self.n_cols as nat, cells: self.data@ }
    }

    /// The flat index of the cell that comes next; the number of cells once
    /// the cursor is exhausted.
    pub closed spec fn position(&self) -> nat {
        self.idx as nat
    }

    /// The cursor's row, column and flat index agree, and lie inside the
    /// grid or at its end.
    pub closed spec fn wf(&self) -> bool {
        &&& self.grid().wf()
        &&& self.col_idx <= self.n_cols
        &&& self.idx == self.row_idx * self.n_cols + self.col_idx
        &&& self.idx <= self.data@.len()
    }

    /// A cursor never stands beyond the end of its grid.
    pub proof fn lemma_position_bound(&self)
        requires
            self.wf(),
        ensures
            self.grid().wf(),
            self.position() <= self.grid().cells.len(),
    {
    }

    /// A cursor over `data`, read as `n_rows` rows of `n_cols` cells, that
    /// stands at row `row_idx`, column `col_idx`, flat index `idx`.
    pub fn new(
        row_idx: usize,
        col_idx: usize,
        idx: usize,
        data: &'a [T],
        n_rows: usize,
        n_cols: usize,
    ) -> (it: MatrixIterator<'a, T>)
        requires
            data@.len() == n_rows * n_cols,
            col_idx <= n_cols,
            idx == row_idx * n_cols + col_idx,
            idx <= data@.len(),
        ensures
            it.wf(),
            it.grid() == (Grid { n_rows: n_rows as nat, n_cols: n_cols as nat, cells: data@ }),
            it.position() == idx,
    {
        MatrixIterator { row_idx, col_idx, idx, data, n_rows, n_cols }
    }

    /// Yields the next cell with its row and column, or `None` once every
    /// cell has been yielded.
    pub fn next(&mut self) -> (item: Option<(&'a T, usize, usize)>)
        requires
            old(self).wf(),
        ensures
            final(self).wf(),
            final(self).grid() == old(self).grid(),
            old(self).position() < old(self).grid().cells.len() ==> {
                &&& item matches Some((e, row, col))
                &&& *e == old(self).grid().cells[old(self).position() as int]
                &&& row < old(self).grid().n_rows
                &&& col < old(self).grid().n_cols
                &&& row * old(self).grid().n_cols + col == old(self).position()
                &&& final(self).position() == old(self).position() + 1
            },
            old(self).position() >= old(self).grid().cells.len() ==> {
                &&& item is None
                &&& final(self).position() == old(self).position()
            },
    {
        if self.idx >= self.data.len() {
            return None;
        }
        proof {
            Self::lemma_inside(*self);
        }
        if self.col_idx == self.n_cols {
            self.row_idx += 1;
            self.col_idx = 0;
        }
        let col_idx: usize = self.col_idx;
        let idx: usize = self.idx;
        self.col_idx += 1;
        self.idx += 1;
        Some((&self.data[idx], self.row_idx, col_idx))
    }

    /// Before the end of the data the cursor's row lies inside the grid,
    /// also after a step from the end of one row to the start of the next.
    proof fn lemma_inside(it: Self)
        requires
            it.wf(),
            it.idx < it.data@.len(),
        ensures
            it.col_idx < it.n_cols ==> it.row_idx < it.n_rows,
            it.col_idx == it.n_cols ==> it.row_idx + 1 < it.n_rows && it.n_cols > 0
                && it.idx == (it.row_idx + 1) * it.n_cols,
    {
        let r = it.row_idx as int;
        let c = it.col_idx as int;
        let n = it.n_rows as int;
        let m = it.n_cols as int;
        assert(r * m + c < n * m ==> r < n) by (nonlinear_arith)
            requires
                0 <= r,
                0 <= c,
                0 <= n,
                0 <= m,
        ;
        if c == m {
            assert((r + 1) * m == r * m + m) by (nonlinear_arith);
            assert((r + 1) * m < n * m ==> r + 1 < n) by (nonlinear_arith)
                requires
                    0 <= r,
                    0 <= n,
                    0 <= m,
            ;
            assert(m > 0) by (nonlinear_arith)
                requires
                    r * m + c < n * m,
                    c == m,
                    0 <= m,
                    0 <= r,
                    0 <= n,
            ;
        }
    }
}

} // verus!
