//! The writing cursor over the cells of a matrix.
use vstd::prelude::*;

verus! {

/// `<[E]>::split_first_mut`: an empty slice gives `None`; any other slice
/// gives its first element and the slice of all the others, and what is
/// written through the two is what the slice holds afterwards.
pub assume_specification<E>[ <[E]>::split_first_mut ](slice: &mut [E]) -> (parts: Option<
    (&mut E, &mut [E]),
>)
    ensures
        old(slice)@.len() == 0 ==> parts is None && final(slice)@ == old(slice)@,
        old(slice)@.len() != 0 ==> {
            &&& parts is Some
            &&& *parts.unwrap().0 == old(slice)@[0]
            &&& parts.unwrap().1@ == old(slice)@.subrange(1, old(slice)@.len() as int)
            &&& final(slice)@ == seq![*final(parts.unwrap().0)] + final(parts.unwrap().1)@
        },
;

/// `core::mem::replace`: `src` is moved into `dest` and the value that
/// `dest` held before is returned.
pub assume_specification<E>[ core::mem::replace::<E> ](dest: &mut E, src: E) -> (previous: E)
    ensures
        *final(dest) == src,
        previous == *old(dest),
;

/// A cursor that yields an exclusive reference to every cell of a matrix
/// once, row after row, together with the cell's row and column.
///
/// `data` is the part of the storage that has not been yielded yet: each
/// step splits off its first cell and keeps the rest, so no two of the
/// references that the cursor hands out overlap. A cursor over a storage
/// that is shorter than the grid yields the cells that there are; one over a
/// longer storage ends with the rows. The fields are public so
/// that the contract of [`MatrixIteratorMut::next`] can say what the borrowed
/// storage holds in the end.
pub struct MatrixIteratorMut<'a, T: Copy> {
    pub row_idx: usize,
    pub col_idx: usize,
    pub data: &'a mut [T],
    pub n_rows: usize,
    pub n_cols: usize,
}

impl<'a, T: Copy> MatrixIteratorMut<'a, T> {
    /// The flat index of the cell that comes next; the number of cells once
    /// the cursor is exhausted.
    pub open spec fn position(&self) -> int {
        self.row_idx * self.n_cols + self.col_idx
    }

    /// The cells that are left are those from the cursor's position to the
    /// end of the grid.
    pub open spec fn wf(&self) -> bool {
        &&& self.col_idx <= self.n_cols
        &&& self.position() + self.data@.len() == self.n_rows * self.n_cols
    }

    /// The row of the cell that comes next: the cursor's own row, or the one
    /// below once the cursor stands behind the last column.
    pub open spec fn next_row(&self) -> int {
        if self.col_idx == self.n_cols {
            self.row_idx + 1
        } else {
            self.row_idx as int
        }
    }

    /// The column of the cell that comes next.
    pub open spec fn next_col(&self) -> int {
        if self.col_idx == self.n_cols {
            0
        } else {
            self.col_idx as int
        }
    }

    /// Nothing more is yielded: no cell is left, or the row that comes next
    /// is the one behind the last.
    pub open spec fn at_end(&self) -> bool {
        self.data@.len() == 0 || self.next_row() == self.n_rows
    }

    /// A step keeps the row and the column within the machine's limits. A
    /// cursor that is `wf` always does.
    pub open spec fn may_step(&self) -> bool {
        ||| self.wf()
        ||| self.data@.len() == 0
        ||| {
            &&& self.next_row() <= usize::MAX
            &&& self.next_row() != self.n_rows ==> self.next_col() < usize::MAX
        }
    }

    /// A cursor that stands at row `row_idx`, column `col_idx` of a grid of
    /// `n_rows` rows and `n_cols` columns, with `data` the cells from there
    /// on.
    pub fn new(
        row_idx: usize,
        col_idx: usize,
        data: &'a mut [T],
        n_rows: usize,
        n_cols: usize,
    ) -> (it: MatrixIteratorMut<'a, T>)
        ensures
            it.row_idx == row_idx,
            it.col_idx == col_idx,
            it.n_rows == n_rows,
            it.n_cols == n_cols,
            it.data@ == old(data)@,
            final(data)@ == final(it.data)@,
    {
        MatrixIteratorMut { row_idx, col_idx, data, n_rows, n_cols }
    }

    /// Yields the next cell with its row and column, or `None` once no cell
    /// is left or the row that comes next is the one behind the last.
    ///
    /// What the storage that the cursor had borrowed holds in the end is the
    /// final value of the yielded cell, followed by what the rest holds in
    /// the end. For a cursor that is `wf` the yielded row and column are
    /// those of the cursor's position in the grid, and the cells end with the
    /// rows.
    pub fn next(&mut self) -> (item: Option<(&'a mut T, usize, usize)>)
        requires
            old(self).may_step(),
        ensures
            final(self).n_rows == old(self).n_rows,
            final(self).n_cols == old(self).n_cols,
            old(self).at_end() ==> item is None,
            old(self).data@.len() == 0 ==> *final(self) == *old(self),
            old(self).data@.len() > 0 && old(self).at_end() ==> {
                &&& final(self).row_idx == old(self).next_row()
                &&& final(self).col_idx == old(self).next_col()
                &&& final(self).data@ == old(self).data@
                &&& final(old(self).data)@ == final(final(self).data)@
            },
            !old(self).at_end() ==> {
                &&& item is Some
                &&& *item.unwrap().0 == old(self).data@[0]
                &&& item.unwrap().1 == old(self).next_row()
                &&& item.unwrap().2 == old(self).next_col()
                &&& final(self).row_idx == old(self).next_row()
                &&& final(self).col_idx == old(self).next_col() + 1
                &&& final(self).data@ == old(self).data@.subrange(1, old(self).data@.len() as int)
                &&& final(old(self).data)@
                    == seq![*final(item.unwrap().0)] + final(final(self).data)@
            },
            old(self).wf() ==> {
                &&& final(self).wf()
                &&& old(self).data@.len() > 0 ==> {
                    &&& item is Some
                    &&& item.unwrap().1 < old(self).n_rows
                    &&& item.unwrap().2 < old(self).n_cols
                    &&& item.unwrap().1 * old(self).n_cols + item.unwrap().2 == old(self).position()
                    &&& final(self).position() == old(self).position() + 1
                }
            },
    {
        if self.data.len() == 0 {
            return None;
        }
        proof {
            if self.wf() {
                Self::lemma_inside(
                    self.row_idx as int,
                    self.col_idx as int,
                    self.n_rows as int,
                    self.n_cols as int,
                );
            }
        }
        if self.col_idx == self.n_cols {
            self.row_idx += 1;
            self.col_idx = 0;
        }
        if self.row_idx == self.n_rows {
            return None;
        }
        let col_idx: usize = self.col_idx;
        let data: &'a mut [T] = core::mem::replace(&mut self.data, &mut []);
        if let Some((v, rest)) = data.split_first_mut() {
            self.col_idx += 1;
            self.data = rest;
            Some((v, self.row_idx, col_idx))
        } else {
            None
        }
    }

    /// Before the end of the grid the position's row lies inside the grid,
    /// also after a step from the end of one row to the start of the next.
    proof fn lemma_inside(r: int, c: int, n: int, m: int)
        requires
            0 <= r,
            0 <= c <= m,
            0 <= n,
            r * m + c < n * m,
        ensures
            c < m ==> r < n,
            c == m ==> r + 1 < n && m > 0 && (r + 1) * m == r * m + c,
    {
        assert(r < n) by (nonlinear_arith)
            requires
                0 <= r,
                0 <= c,
                0 <= n,
                0 <= m,
                r * m + c < n * m,
        ;
        if c == m {
            assert((r + 1) * m == r * m + m) by (nonlinear_arith);
            assert(r + 1 < n && m > 0) by (nonlinear_arith)
                requires
                    (r + 1) * m < n * m,
                    0 <= r,
                    0 <= n,
                    0 <= m,
            ;
        }
    }
}

} // verus!
