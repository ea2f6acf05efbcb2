//! The cellwise (Hadamard) product of matrices, written with `%` since `*` is
//! the matrix product; for owned and borrowed operands.
use super::Matrix;
use core::ops::{Mul, Rem};
use vstd::prelude::*;
use vstd::std_specs::ops::{MulSpec, RemSpecImpl};

verus! {

/// What `%` asks of its operands; what it gives is stated on `rem`.
impl<T: Mul<Output = T> + Copy + PartialEq> RemSpecImpl<&Matrix<T>> for &Matrix<T> {
    open spec fn obeys_rem_spec() -> bool {
        false
    }

    open spec fn rem_req(self, rhs: &Matrix<T>) -> bool {
        self@.hadamard_req(rhs@)
    }

    open spec fn rem_spec(self, rhs: &Matrix<T>) -> Matrix<T> {
        arbitrary()
    }
}

impl<T: Mul<Output = T> + Copy + PartialEq> Rem<&Matrix<T>> for &Matrix<T> {
    type Output = Matrix<T>;

    /// The matrix of the products `self[i][j] * rhs[i][j]`.
    fn rem(self, rhs: &Matrix<T>) -> (out: Matrix<T>)
        ensures
            self@.hadamard_gives(rhs@, out@),
            T::obeys_mul_spec() ==> out@ == self@.hadamard(rhs@),
    {
        let mut res: Vec<T> = Vec::new();
        let mut it = self.iter();
        loop
            invariant
                self@.hadamard_req(rhs@),
                it.wf(),
                it.grid() == self@,
                it.position() == res@.len(),
                forall|p: int|
                    0 <= p < res@.len() ==> call_ensures(
                        <T as Mul>::mul,
                        (self@.cells[p], rhs@.cells[p]),
                        #[trigger] res@[p],
                    ),
            ensures
                res@.len() == self@.cells.len(),
                forall|p: int|
                    0 <= p < res@.len() ==> call_ensures(
                        <T as Mul>::mul,
                        (self@.cells[p], rhs@.cells[p]),
                        #[trigger] res@[p],
                    ),
            decreases self@.cells.len() - it.position(),
        {
            proof {
                it.lemma_position_bound();
            }
            match it.next() {
                Some((e, row, col)) => {
                    res.push(*e * rhs.get(row, col));
                },
                None => {
                    break ;
                },
            }
        }
        proof {
            if T::obeys_mul_spec() {
                assert(res@ =~= self@.hadamard(rhs@).cells);
            }
        }
        Matrix::create_from_data(res, self.n_rows, self.n_cols)
    }
}

/// What `%` asks of its operands; what it gives is stated on `rem`.
impl<T: Mul<Output = T> + Copy + PartialEq> RemSpecImpl<Matrix<T>> for Matrix<T> {
    open spec fn obeys_rem_spec() -> bool {
        false
    }

    open spec fn rem_req(self, rhs: Matrix<T>) -> bool {
        self@.hadamard_req(rhs@)
    }

    open spec fn rem_spec(self, rhs: Matrix<T>) -> Matrix<T> {
        arbitrary()
    }
}

impl<T: Mul<Output = T> + Copy + PartialEq> Rem<Matrix<T>> for Matrix<T> {
    type Output = Matrix<T>;

    fn rem(self, rhs: Matrix<T>) -> (out: Matrix<T>)
        ensures
            self@.hadamard_gives(rhs@, out@),
            T::obeys_mul_spec() ==> out@ == self@.hadamard(rhs@),
    {
        (&self).rem(&rhs)
    }
}

/// What `%` asks of its operands; what it gives is stated on `rem`.
impl<T: Mul<Output = T> + Copy + PartialEq> RemSpecImpl<Matrix<T>> for &Matrix<T> {
    open spec fn obeys_rem_spec() -> bool {
        false
    }

    open spec fn rem_req(self, rhs: Matrix<T>) -> bool {
        self@.hadamard_req(rhs@)
    }

    open spec fn rem_spec(self, rhs: Matrix<T>) -> Matrix<T> {
        arbitrary()
    }
}

impl<T: Mul<Output = T> + Copy + PartialEq> Rem<Matrix<T>> for &Matrix<T> {
    type Output = Matrix<T>;

    fn rem(self, rhs: Matrix<T>) -> (out: Matrix<T>)
        ensures
            self@.hadamard_gives(rhs@, out@),
            T::obeys_mul_spec() ==> out@ == self@.hadamard(rhs@),
    {
        self.rem(&rhs)
    }
}

/// What `%` asks of its operands; what it gives is stated on `rem`.
impl<T: Mul<Output = T> + Copy + PartialEq> RemSpecImpl<&Matrix<T>> for Matrix<T> {
    open spec fn obeys_rem_spec() -> bool {
        false
    }

    open spec fn rem_req(self, rhs: &Matrix<T>) -> bool {
        self@.hadamard_req(rhs@)
    }

    open spec fn rem_spec(self, rhs: &Matrix<T>) -> Matrix<T> {
        arbitrary()
    }
}

impl<T: Mul<Output = T> + Copy + PartialEq> Rem<&Matrix<T>> for Matrix<T> {
    type Output = Matrix<T>;

    fn rem(self, rhs: &Matrix<T>) -> (out: Matrix<T>)
        ensures
            self@.hadamard_gives(rhs@, out@),
            T::obeys_mul_spec() ==> out@ == self@.hadamard(rhs@),
    {
        (&self).rem(rhs)
    }
}

} // verus!
