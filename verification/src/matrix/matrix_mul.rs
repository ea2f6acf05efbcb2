//! The matrix product: `*` for owned and borrowed operands, and
//! [`Matrix::product`], which multiplies over an inner dimension of zero as
//! well.
use super::Matrix;
use crate::grid::{lemma_flat_index, Grid};
use core::iter::Sum;
use core::ops::{Add, Mul};
use vstd::prelude::*;
use vstd::std_specs::ops::{AddSpec, MulSpec, MulSpecImpl};

verus! {

/// `Iterator::sum` over a vector without items: what the scalar type gives
/// as the sum of no terms. Nothing is claimed of that value. Only a vector
/// without items is taken, since a sum of items may overflow.
#[verifier::external_body]
fn sum_of<T: Sum>(terms: Vec<T>) -> T
    requires
        terms@.len() == 0,
{
    terms.into_iter().sum()
}

/// What the matrix product asks of two matrices: the left one has as many
/// columns as the right one has rows, the scalar arithmetic of the dot
/// products may be carried out, and the number of cells of the product fits
/// the machine.
pub open spec fn product_req<T: Add<Output = T> + Mul<Output = T>>(
    lhs: Grid<T>,
    rhs: Grid<T>,
) -> bool {
    &&& lhs.product_req(rhs)
    &&& lhs.n_rows * rhs.n_cols <= usize::MAX
}

/// What the operator `*` asks beyond that: with `+` and `*` alone there is no
/// value for a sum of no terms, so over an inner dimension of zero the
/// product must be without cells. [`Matrix::product`] has no such limit.
pub open spec fn operator_req<T: Add<Output = T> + Mul<Output = T>>(
    lhs: Grid<T>,
    rhs: Grid<T>,
) -> bool {
    &&& product_req(lhs, rhs)
    &&& lhs.n_cols > 0 || lhs.n_rows == 0 || rhs.n_cols == 0
}

/// What the matrix product gives: `out` is a product of `lhs` and `rhs`, and
/// it is `lhs.product(rhs)` over a positive inner dimension where the scalar
/// type's `+` and `*` do what `add_spec` and `mul_spec` say.
pub open spec fn is_product<T: Add<Output = T> + Mul<Output = T>>(
    lhs: Grid<T>,
    rhs: Grid<T>,
    out: Grid<T>,
) -> bool {
    &&& lhs.product_gives(rhs, out)
    &&& lhs.n_cols > 0 && T::obeys_add_spec() && T::obeys_mul_spec() ==> out == lhs.product(rhs)
}

impl<T: Mul<Output = T> + Add<Output = T> + Copy + PartialEq> Matrix<T> {
    /// The dot product of row `i` of `self` and column `j` of `rhs`, summed
    /// from the left in the order of the inner index.
    fn dot(&self, rhs: &Matrix<T>, i: usize, j: usize) -> (sum: T)
        requires
            self@.product_req(rhs@),
            self@.n_cols > 0,
            i < self@.n_rows,
            j < rhs@.n_cols,
        ensures
            self@.dot_gives(rhs@, i as int, j as int, (self@.n_cols - 1) as nat, sum),
    {
        let n: usize = self.n_cols;
        proof {
            assert(self.data.len() == self.data@.len());
            assert(rhs.data.len() == rhs.data@.len());
            lemma_flat_index(i as int, 0, self.n_rows as int, self.n_cols as int);
            lemma_flat_index(0, j as int, rhs.n_rows as int, rhs.n_cols as int);
            self@.lemma_dot_req_prefix(rhs@, i as int, j as int, (n - 1) as nat, 0);
        }
        let mut acc: T = self.data[i * n] * rhs.data[j];
        let mut k: usize = 1;
        while k < n
            invariant
                self@.product_req(rhs@),
                n == self.n_cols,
                i < self.n_rows,
                j < rhs.n_cols,
                1 <= k <= n,
                self@.dot_gives(rhs@, i as int, j as int, (k - 1) as nat, acc),
            decreases n - k,
        {
            proof {
                assert(self.data.len() == self.data@.len());
                assert(rhs.data.len() == rhs.data@.len());
                lemma_flat_index(i as int, k as int, self.n_rows as int, self.n_cols as int);
                lemma_flat_index(k as int, j as int, rhs.n_rows as int, rhs.n_cols as int);
                self@.lemma_dot_req_prefix(rhs@, i as int, j as int, (n - 1) as nat, k as nat);
            }
            let term: T = self.data[i * n + k] * rhs.data[j + k * rhs.n_cols];
            proof {
                assert(call_requires(<T as Add>::add, (acc, term)));
            }
            let ghost before = acc;
            acc = acc + term;
            proof {
                assert(call_ensures(<T as Add>::add, (before, term), acc));
            }
            k += 1;
        }
        acc
    }
}

/// What `*` asks of its operands; what it gives is stated on `mul`.
impl<T: Mul<Output = T> + Add<Output = T> + Copy + PartialEq> MulSpecImpl<&Matrix<T>> for &Matrix<T> {
    open spec fn obeys_mul_spec() -> bool {
        false
    }

    open spec fn mul_req(self, rhs: &Matrix<T>) -> bool {
        operator_req(self@, rhs@)
    }

    open spec fn mul_spec(self, rhs: &Matrix<T>) -> Matrix<T> {
        arbitrary()
    }
}

impl<T: Mul<Output = T> + Add<Output = T> + Copy + PartialEq> Mul<&Matrix<T>> for &Matrix<T> {
    type Output = Matrix<T>;

    /// The matrix product: cell `(i, j)` is the sum over `k` of
    /// `self[i][k] * rhs[k][j]`, taken in the order of `k`.
    ///
    /// Over an inner dimension of zero the product must be without cells,
    /// since `+` and `*` alone give no value for a sum of no terms;
    /// [`Matrix::product`] has no such limit.
    fn mul(self, rhs: &Matrix<T>) -> (out: Matrix<T>)
        ensures
            is_product(self@, rhs@, out@),
    {
        let mut res: Vec<T> = Vec::new();
        let ghost w = rhs.n_cols as int;
        let ghost last = (self.n_cols - 1) as nat;
        let mut i: usize = 0;
        while i < self.n_rows
            invariant
                operator_req(self@, rhs@),
                w == rhs.n_cols,
                last == (self.n_cols - 1) as nat,
                i <= self.n_rows,
                res@.len() == i * rhs.n_cols,
                forall|p: int|
                    0 <= p < res@.len() ==> self@.dot_gives(rhs@, p / w, p % w, last, #[trigger] res@[p]),
            decreases self.n_rows - i,
        {
            let mut j: usize = 0;
            while j < rhs.n_cols
                invariant
                    operator_req(self@, rhs@),
                    w == rhs.n_cols,
                    last == (self.n_cols - 1) as nat,
                    i < self.n_rows,
                    j <= rhs.n_cols,
                    res@.len() == i * rhs.n_cols + j,
                    forall|p: int|
                        0 <= p < res@.len() ==> self@.dot_gives(
                            rhs@,
                            p / w,
                            p % w,
                            last,
                            #[trigger] res@[p],
                        ),
                decreases rhs.n_cols - j,
            {
                proof {
                    lemma_flat_index(i as int, j as int, self.n_rows as int, rhs.n_cols as int);
                }
                res.push(self.dot(rhs, i, j));
                j += 1;
            }
            proof {
                assert((i + 1) * rhs.n_cols == i * rhs.n_cols + rhs.n_cols) by (nonlinear_arith);
            }
            i += 1;
        }
        let out = Matrix::create_from_data(res, self.n_rows, rhs.n_cols);
        proof {
            if self.n_cols == 0 {
                assert(self.n_rows * rhs.n_cols == 0) by (nonlinear_arith)
                    requires
                        self.n_rows == 0 || rhs.n_cols == 0,
                ;
                let zero: T = arbitrary();
                assert(out@.cells =~= Grid::filled(self@.n_rows, rhs@.n_cols, zero).cells);
            } else {
                assert forall|i: int, j: int|
                    0 <= i < self@.n_rows && 0 <= j < rhs@.n_cols implies self@.dot_gives(
                    rhs@,
                    i,
                    j,
                    last,
                    #[trigger] out@.at(i, j),
                ) by {
                    lemma_flat_index(i, j, self@.n_rows as int, w);
                }
                if T::obeys_add_spec() && T::obeys_mul_spec() {
                    self@.lemma_product_gives_product(rhs@, out@);
                }
            }
        }
        out
    }
}

/// What `*` asks of its operands; what it gives is stated on `mul`.
impl<T: Mul<Output = T> + Add<Output = T> + Copy + PartialEq> MulSpecImpl<Matrix<T>> for Matrix<T> {
    open spec fn obeys_mul_spec() -> bool {
        false
    }

    open spec fn mul_req(self, rhs: Matrix<T>) -> bool {
        operator_req(self@, rhs@)
    }

    open spec fn mul_spec(self, rhs: Matrix<T>) -> Matrix<T> {
        arbitrary()
    }
}

impl<T: Mul<Output = T> + Add<Output = T> + Copy + PartialEq> Mul<Matrix<T>> for Matrix<T> {
    type Output = Matrix<T>;

    fn mul(self, rhs: Matrix<T>) -> (out: Matrix<T>)
        ensures
            is_product(self@, rhs@, out@),
    {
        (&self).mul(&rhs)
    }
}

/// What `*` asks of its operands; what it gives is stated on `mul`.
impl<T: Mul<Output = T> + Add<Output = T> + Copy + PartialEq> MulSpecImpl<Matrix<T>> for &Matrix<T> {
    open spec fn obeys_mul_spec() -> bool {
        false
    }

    open spec fn mul_req(self, rhs: Matrix<T>) -> bool {
        operator_req(self@, rhs@)
    }

    open spec fn mul_spec(self, rhs: Matrix<T>) -> Matrix<T> {
        arbitrary()
    }
}

impl<T: Mul<Output = T> + Add<Output = T> + Copy + PartialEq> Mul<Matrix<T>> for &Matrix<T> {
    type Output = Matrix<T>;

    fn mul(self, rhs: Matrix<T>) -> (out: Matrix<T>)
        ensures
            is_product(self@, rhs@, out@),
    {
        self.mul(&rhs)
    }
}

/// What `*` asks of its operands; what it gives is stated on `mul`.
impl<T: Mul<Output = T> + Add<Output = T> + Copy + PartialEq> MulSpecImpl<&Matrix<T>> for Matrix<T> {
    open spec fn obeys_mul_spec() -> bool {
        false
    }

    open spec fn mul_req(self, rhs: &Matrix<T>) -> bool {
        operator_req(self@, rhs@)
    }

    open spec fn mul_spec(self, rhs: &Matrix<T>) -> Matrix<T> {
        arbitrary()
    }
}

impl<T: Mul<Output = T> + Add<Output = T> + Copy + PartialEq> Mul<&Matrix<T>> for Matrix<T> {
    type Output = Matrix<T>;

    fn mul(self, rhs: &Matrix<T>) -> (out: Matrix<T>)
        ensures
            is_product(self@, rhs@, out@),
    {
        (&self).mul(rhs)
    }
}

impl<T: Sum + Mul<Output = T> + Add<Output = T> + Copy + PartialEq> Matrix<T> {
    /// The matrix product, also over an inner dimension of zero, where every
    /// cell of the result is the scalar type's sum of no terms.
    pub fn product(&self, rhs: &Matrix<T>) -> (out: Matrix<T>)
        requires
            product_req(self@, rhs@),
        ensures
            is_product(self@, rhs@, out@),
    {
        if self.n_cols == 0 {
            let zero: T = sum_of(Vec::new());
            Matrix::filled(zero, self.n_rows, rhs.n_cols)
        } else {
            self.mul(rhs)
        }
    }
}

} // verus!
