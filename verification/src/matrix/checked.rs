//! Constructors, element access and the matrix product that test their
//! input and refuse it with an error where the plain operations have a
//! precondition.
use super::matrix_mul::{is_product, product_req};
use super::{grid_of_rows, rectangular, Matrix};
use crate::grid::Grid;
use core::iter::Sum;
use core::ops::{Add, Mul};
use vstd::prelude::*;

verus! {

/// Why an operation refused its input.
#[derive(Debug, Clone, Copy, PartialEq, Eq)]
pub enum MatrixError {
    /// The number of cells does not fit the shape, the rows differ in
    /// length, or the inner dimensions of a product differ.
    DimensionMismatch,
    /// A row or column index lies outside the matrix.
    OutOfBounds,
    /// There is no first row to take the number of columns from.
    EmptyInput,
}

impl<T: Copy + PartialEq> Matrix<T> {
    /// Creates a matrix from its rows, or says why they are no matrix:
    /// `EmptyInput` without a row, `DimensionMismatch` where a row differs in
    /// length from the first.
    pub fn try_new(v: Vec<Vec<T>>) -> (r: Result<Matrix<T>, MatrixError>)
        ensures
            v@.len() == 0 ==> r == Err::<Matrix<T>, MatrixError>(MatrixError::EmptyInput),
            v@.len() > 0 && !rectangular(v@) ==> r == Err::<Matrix<T>, MatrixError>(
                MatrixError::DimensionMismatch,
            ),
            v@.len() > 0 && rectangular(v@) ==> r is Ok && r.unwrap().wf() && r.unwrap()@
                == grid_of_rows(v@),
    {
        if v.len() == 0 {
            return Err(MatrixError::EmptyInput);
        }
        let n_cols: usize = v[0].len();
        let mut i: usize = 1;
        while i < v.len()
            invariant
                v@.len() > 0,
                n_cols == v@[0]@.len(),
                1 <= i <= v@.len(),
                forall|k: int| 0 <= k < i ==> (#[trigger] v@[k])@.len() == n_cols,
            decreases v@.len() - i,
        {
            if v[i].len() != n_cols {
                return Err(MatrixError::DimensionMismatch);
            }
            i += 1;
        }
        Ok(Matrix::new(v))
    }

    /// Creates a matrix from its cells in row-major order, or refuses them
    /// with `DimensionMismatch` where their number is not
    /// `n_rows * n_cols`.
    pub fn try_create_from_data(data: Vec<T>, n_rows: usize, n_cols: usize) -> (r: Result<
        Matrix<T>,
        MatrixError,
    >)
        ensures
            data@.len() != n_rows * n_cols ==> r == Err::<Matrix<T>, MatrixError>(
                MatrixError::DimensionMismatch,
            ),
            data@.len() == n_rows * n_cols ==> r is Ok && r.unwrap().wf() && r.unwrap()@ == (Grid {
                n_rows: n_rows as nat,
                n_cols: n_cols as nat,
                cells: data@,
            }),
    {
        let len: usize = data.len();
        match n_rows.checked_mul(n_cols) {
            Some(n) => {
                if len == n {
                    Ok(Matrix::create_from_data(data, n_rows, n_cols))
                } else {
                    Err(MatrixError::DimensionMismatch)
                }
            },
            None => Err(MatrixError::DimensionMismatch),
        }
    }

    /// The cell in row `i` and column `j`, or `OutOfBounds` where there is
    /// no such row or column.
    pub fn try_get(&self, i: usize, j: usize) -> (r: Result<T, MatrixError>)
        requires
            self.wf(),
        ensures
            i < self@.n_rows && j < self@.n_cols ==> r == Ok::<T, MatrixError>(
                self@.at(i as int, j as int),
            ),
            i >= self@.n_rows || j >= self@.n_cols ==> r == Err::<T, MatrixError>(
                MatrixError::OutOfBounds,
            ),
    {
        if i < self.n_rows && j < self.n_cols {
            Ok(self.get(i, j))
        } else {
            Err(MatrixError::OutOfBounds)
        }
    }
}

impl<T: Sum + Mul<Output = T> + Add<Output = T> + Copy + PartialEq> Matrix<T> {
    /// The matrix product, or `DimensionMismatch` where `self` has not as
    /// many columns as `rhs` has rows.
    pub fn try_product(&self, rhs: &Matrix<T>) -> (r: Result<Matrix<T>, MatrixError>)
        requires
            self.wf(),
            rhs.wf(),
            self@.n_cols == rhs@.n_rows ==> product_req(self@, rhs@),
        ensures
            self@.n_cols != rhs@.n_rows ==> r == Err::<Matrix<T>, MatrixError>(
                MatrixError::DimensionMismatch,
            ),
            self@.n_cols == rhs@.n_rows ==> r is Ok && is_product(self@, rhs@, r.unwrap()@),
    {
        if rhs.n_rows != self.n_cols {
            Err(MatrixError::DimensionMismatch)
        } else {
            Ok(self.product(rhs))
        }
    }
}

} // verus!
