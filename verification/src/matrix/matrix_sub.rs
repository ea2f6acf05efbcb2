//! Cellwise subtraction of matrices with `-`, for owned and borrowed operands.
use super::Matrix;
use core::ops::Sub;
use vstd::prelude::*;
use vstd::std_specs::ops::{SubSpec, SubSpecImpl};

verus! {

/// What `-` asks of its operands; what it gives is stated on `sub`.
impl<T: Sub<Output = T> + Copy + PartialEq> SubSpecImpl<&Matrix<T>> for &Matrix<T> {
    open spec fn obeys_sub_spec() -> bool {
        false
    }

    open spec fn sub_req(self, rhs: &Matrix<T>) -> bool {
        self@.minus_req(rhs@)
    }

    open spec fn sub_spec(self, rhs: &Matrix<T>) -> Matrix<T> {
        arbitrary()
    }
}

impl<T: Sub<Output = T> + Copy + PartialEq> Sub<&Matrix<T>> for &Matrix<T> {
    type Output = Matrix<T>;

    /// The matrix of the differences `self[i][j] - rhs[i][j]`.
    fn sub(self, rhs: &Matrix<T>) -> (out: Matrix<T>)
        ensures
            self@.minus_gives(rhs@, out@),
            T::obeys_sub_spec() ==> out@ == self@.minus(rhs@),
    {
        let mut res: Vec<T> = Vec::new();
        let mut it = self.iter();
        loop
            invariant
                self@.minus_req(rhs@),
                it.wf(),
                it.grid() == self@,
                it.position() == res@.len(),
                forall|p: int|
                    0 <= p < res@.len() ==> call_ensures(
                        <T as Sub>::sub,
                        (self@.cells[p], rhs@.cells[p]),
                        #[trigger] res@[p],
                    ),
            ensures
                res@.len() == self@.cells.len(),
                forall|p: int|
                    0 <= p < res@.len() ==> call_ensures(
                        <T as Sub>::sub,
                        (self@.cells[p], rhs@.cells[p]),
                        #[trigger] res@[p],
                    ),
            decreases self@.cells.len() - it.position(),
        {
            proof {
                it.lemma_position_bound();
            }
            match it.next() {
                Some((e, row, col)) => {
                    res.push(*e - rhs.get(row, col));
                },
                None => {
                    break ;
                },
            }
        }
        proof {
            if T::obeys_sub_spec() {
                assert(res@ =~= self@.minus(rhs@).cells);
            }
        }
        Matrix::create_from_data(res, self.n_rows, self.n_cols)
    }
}

/// What `-` asks of its operands; what it gives is stated on `sub`.
impl<T: Sub<Output = T> + Copy + PartialEq> SubSpecImpl<Matrix<T>> for Matrix<T> {
    open spec fn obeys_sub_spec() -> bool {
        false
    }

    open spec fn sub_req(self, rhs: Matrix<T>) -> bool {
        self@.minus_req(rhs@)
    }

    open spec fn sub_spec(self, rhs: Matrix<T>) -> Matrix<T> {
        arbitrary()
    }
}

impl<T: Sub<Output = T> + Copy + PartialEq> Sub<Matrix<T>> for Matrix<T> {
    type Output = Matrix<T>;

    fn sub(self, rhs: Matrix<T>) -> (out: Matrix<T>)
        ensures
            self@.minus_gives(rhs@, out@),
            T::obeys_sub_spec() ==> out@ == self@.minus(rhs@),
    {
        (&self).sub(&rhs)
    }
}

/// What `-` asks of its operands; what it gives is stated on `sub`.
impl<T: Sub<Output = T> + Copy + PartialEq> SubSpecImpl<Matrix<T>> for &Matrix<T> {
    open spec fn obeys_sub_spec() -> bool {
        false
    }

    open spec fn sub_req(self, rhs: Matrix<T>) -> bool {
        self@.minus_req(rhs@)
    }

    open spec fn sub_spec(self, rhs: Matrix<T>) -> Matrix<T> {
        arbitrary()
    }
}

impl<T: Sub<Output = T> + Copy + PartialEq> Sub<Matrix<T>> for &Matrix<T> {
    type Output = Matrix<T>;

    fn sub(self, rhs: Matrix<T>) -> (out: Matrix<T>)
        ensures
            self@.minus_gives(rhs@, out@),
            T::obeys_sub_spec() ==> out@ == self@.minus(rhs@),
    {
        self.sub(&rhs)
    }
}

/// What `-` asks of its operands; what it gives is stated on `sub`.
impl<T: Sub<Output = T> + Copy + PartialEq> SubSpecImpl<&Matrix<T>> for Matrix<T> {
    open spec fn obeys_sub_spec() -> bool {
        false
    }

    open spec fn sub_req(self, rhs: &Matrix<T>) -> bool {
        self@.minus_req(rhs@)
    }

    open spec fn sub_spec(self, rhs: &Matrix<T>) -> Matrix<T> {
        arbitrary()
    }
}

impl<T: Sub<Output = T> + Copy + PartialEq> Sub<&Matrix<T>> for Matrix<T> {
    type Output = Matrix<T>;

    fn sub(self, rhs: &Matrix<T>) -> (out: Matrix<T>)
        ensures
            self@.minus_gives(rhs@, out@),
            T::obeys_sub_spec() ==> out@ == self@.minus(rhs@),
    {
        (&self).sub(rhs)
    }
}

} // verus!
