//! Application of a stored transformation to every cell of a matrix, written
//! `func % matrix`; for owned and borrowed operands.
use super::func::{Func, Transform};
use super::Matrix;
use crate::grid::{lemma_flat_index, Grid};
use core::ops::Rem;
use vstd::prelude::*;
use vstd::std_specs::ops::RemSpecImpl;

verus! {

impl<T: Copy + PartialEq> Func<T> {
    /// The transformation may be invoked on every cell of `grid`.
    pub open spec fn accepts_all(&self, grid: Grid<T>) -> bool {
        &&& grid.wf()
        &&& forall|p: int| 0 <= p < grid.cells.len() ==> self.0.accepts(#[trigger] grid.cells[p])
    }

    /// `out` has the shape of `grid`, and each of its cells is what the
    /// transformation gave for the cell of `grid` at the same place.
    pub open spec fn maps(&self, grid: Grid<T>, out: Grid<T>) -> bool {
        &&& out.wf()
        &&& out.same_shape(grid)
        &&& forall|p: int|
            0 <= p < grid.cells.len() ==> self.0.relates(grid.cells[p], #[trigger] out.cells[p])
        &&& forall|i: int, j: int|
            0 <= i < grid.n_rows && 0 <= j < grid.n_cols ==> self.0.relates(
                grid.at(i, j),
                #[trigger] out.at(i, j),
            )
    }
}

/// What `%` asks of its operands; what it gives is stated on `rem`.
impl<T: Copy + PartialEq> RemSpecImpl<&Matrix<T>> for &Func<T> {
    open spec fn obeys_rem_spec() -> bool {
        false
    }

    open spec fn rem_req(self, rhs: &Matrix<T>) -> bool {
        self.accepts_all(rhs@)
    }

    open spec fn rem_spec(self, rhs: &Matrix<T>) -> Matrix<T> {
        arbitrary()
    }
}

impl<T: Copy + PartialEq> Rem<&Matrix<T>> for &Func<T> {
    type Output = Matrix<T>;

    /// The matrix of the values `f(rhs[i][j])`.
    fn rem(self, rhs: &Matrix<T>) -> (out: Matrix<T>)
        ensures
            self.maps(rhs@, out@),
    {
        let mut res: Vec<T> = Vec::new();
        let mut it = rhs.iter();
        loop
            invariant
                self.accepts_all(rhs@),
                it.wf(),
                it.grid() == rhs@,
                it.position() == res@.len(),
                forall|p: int|
                    0 <= p < res@.len() ==> self.0.relates(rhs@.cells[p], #[trigger] res@[p]),
            ensures
                res@.len() == rhs@.cells.len(),
                forall|p: int|
                    0 <= p < res@.len() ==> self.0.relates(rhs@.cells[p], #[trigger] res@[p]),
            decreases rhs@.cells.len() - it.position(),
        {
            proof {
                it.lemma_position_bound();
            }
            match it.next() {
                Some((e, _, _)) => {
                    res.push(self.0.apply(*e));
                },
                None => {
                    break ;
                },
            }
        }
        let out = Matrix::create_from_data(res, rhs.n_rows, rhs.n_cols);
        proof {
            assert forall|i: int, j: int| 0 <= i < rhs@.n_rows && 0 <= j < rhs@.n_cols implies self.0.relates(
                rhs@.at(i, j),
                #[trigger] out@.at(i, j),
            ) by {
                lemma_flat_index(i, j, rhs@.n_rows as int, rhs@.n_cols as int);
            }
        }
        out
    }
}

/// What `%` asks of its operands; what it gives is stated on `rem`.
impl<T: Copy + PartialEq> RemSpecImpl<Matrix<T>> for Func<T> {
    open spec fn obeys_rem_spec() -> bool {
        false
    }

    open spec fn rem_req(self, rhs: Matrix<T>) -> bool {
        self.accepts_all(rhs@)
    }

    open spec fn rem_spec(self, rhs: Matrix<T>) -> Matrix<T> {
        arbitrary()
    }
}

impl<T: Copy + PartialEq> Rem<Matrix<T>> for Func<T> {
    type Output = Matrix<T>;

    fn rem(self, rhs: Matrix<T>) -> (out: Matrix<T>)
        ensures
            self.maps(rhs@, out@),
    {
        (&self).rem(&rhs)
    }
}

/// What `%` asks of its operands; what it gives is stated on `rem`.
impl<T: Copy + PartialEq> RemSpecImpl<&Matrix<T>> for Func<T> {
    open spec fn obeys_rem_spec() -> bool {
        false
    }

    open spec fn rem_req(self, rhs: &Matrix<T>) -> bool {
        self.accepts_all(rhs@)
    }

    open spec fn rem_spec(self, rhs: &Matrix<T>) -> Matrix<T> {
        arbitrary()
    }
}

impl<T: Copy + PartialEq> Rem<&Matrix<T>> for Func<T> {
    type Output = Matrix<T>;

    fn rem(self, rhs: &Matrix<T>) -> (out: Matrix<T>)
        ensures
            self.maps(rhs@, out@),
    {
        (&self).rem(rhs)
    }
}

/// What `%` asks of its operands; what it gives is stated on `rem`.
impl<T: Copy + PartialEq> RemSpecImpl<Matrix<T>> for &Func<T> {
    open spec fn obeys_rem_spec() -> bool {
        false
    }

    open spec fn rem_req(self, rhs: Matrix<T>) -> bool {
        self.accepts_all(rhs@)
    }

    open spec fn rem_spec(self, rhs: Matrix<T>) -> Matrix<T> {
        arbitrary()
    }
}

impl<T: Copy + PartialEq> Rem<Matrix<T>> for &Func<T> {
    type Output = Matrix<T>;

    fn rem(self, rhs: Matrix<T>) -> (out: Matrix<T>)
        ensures
            self.maps(rhs@, out@),
    {
        self.rem(&rhs)
    }
}

} // verus!
