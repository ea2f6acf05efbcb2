//! Cellwise division of matrices with `/`, for owned and borrowed operands.
use super::Matrix;
use core::ops::Div;
use vstd::prelude::*;
use vstd::std_specs::ops::{DivSpec, DivSpecImpl};

verus! {

/// What `/` asks of its operands; what it gives is stated on `div`.
impl<T: Div<Output = T> + Copy + PartialEq> DivSpecImpl<&Matrix<T>> for &Matrix<T> {
    open spec fn obeys_div_spec() -> bool {
        false
    }

    open spec fn div_req(self, rhs: &Matrix<T>) -> bool {
        self@.quotient_req(rhs@)
    }

    open spec fn div_spec(self, rhs: &Matrix<T>) -> Matrix<T> {
        arbitrary()
    }
}

impl<T: Div<Output = T> + Copy + PartialEq> Div<&Matrix<T>> for &Matrix<T> {
    type Output = Matrix<T>;

    /// The matrix of the quotients `self[i][j] / rhs[i][j]`.
    fn div(self, rhs: &Matrix<T>) -> (out: Matrix<T>)
        ensures
            self@.quotient_gives(rhs@, out@),
            T::obeys_div_spec() ==> out@ == self@.quotient(rhs@),
    {
        let mut res: Vec<T> = Vec::new();
        let mut it = self.iter();
        loop
            invariant
                self@.quotient_req(rhs@),
                it.wf(),
                it.grid() == self@,
                it.position() == res@.len(),
                forall|p: int|
                    0 <= p < res@.len() ==> call_ensures(
                        <T as Div>::div,
                        (self@.cells[p], rhs@.cells[p]),
                        #[trigger] res@[p],
                    ),
            ensures
                res@.len() == self@.cells.len(),
                forall|p: int|
                    0 <= p < res@.len() ==> call_ensures(
                        <T as Div>::div,
                        (self@.cells[p], rhs@.cells[p]),
                        #[trigger] res@[p],
                    ),
            decreases self@.cells.len() - it.position(),
        {
            proof {
                it.lemma_position_bound();
            }
            match it.next() {
                Some((e, row, col)) => {
                    res.push(*e / rhs.get(row, col));
                },
                None => {
                    break ;
                },
            }
        }
        proof {
            if T::obeys_div_spec() {
                assert(res@ =~= self@.quotient(rhs@).cells);
            }
        }
        Matrix::create_from_data(res, self.n_rows, self.n_cols)
    }
}

/// What `/` asks of its operands; what it gives is stated on `div`.
impl<T: Div<Output = T> + Copy + PartialEq> DivSpecImpl<Matrix<T>> for Matrix<T> {
    open spec fn obeys_div_spec() -> bool {
        false
    }

    open spec fn div_req(self, rhs: Matrix<T>) -> bool {
        self@.quotient_req(rhs@)
    }

    open spec fn div_spec(self, rhs: Matrix<T>) -> Matrix<T> {
        arbitrary()
    }
}

impl<T: Div<Output = T> + Copy + PartialEq> Div<Matrix<T>> for Matrix<T> {
    type Output = Matrix<T>;

    fn div(self, rhs: Matrix<T>) -> (out: Matrix<T>)
        ensures
            self@.quotient_gives(rhs@, out@),
            T::obeys_div_spec() ==> out@ == self@.quotient(rhs@),
    {
        (&self).div(&rhs)
    }
}

/// What `/` asks of its operands; what it gives is stated on `div`.
impl<T: Div<Output = T> + Copy + PartialEq> DivSpecImpl<Matrix<T>> for &Matrix<T> {
    open spec fn obeys_div_spec() -> bool {
        false
    }

    open spec fn div_req(self, rhs: Matrix<T>) -> bool {
        self@.quotient_req(rhs@)
    }

    open spec fn div_spec(self, rhs: Matrix<T>) -> Matrix<T> {
        arbitrary()
    }
}

impl<T: Div<Output = T> + Copy + PartialEq> Div<Matrix<T>> for &Matrix<T> {
    type Output = Matrix<T>;

    fn div(self, rhs: Matrix<T>) -> (out: Matrix<T>)
        ensures
            self@.quotient_gives(rhs@, out@),
            T::obeys_div_spec() ==> out@ == self@.quotient(rhs@),
    {
        self.div(&rhs)
    }
}

/// What `/` asks of its operands; what it gives is stated on `div`.
impl<T: Div<Output = T> + Copy + PartialEq> DivSpecImpl<&Matrix<T>> for Matrix<T> {
    open spec fn obeys_div_spec() -> bool {
        false
    }

    open spec fn div_req(self, rhs: &Matrix<T>) -> bool {
        self@.quotient_req(rhs@)
    }

    open spec fn div_spec(self, rhs: &Matrix<T>) -> Matrix<T> {
        arbitrary()
    }
}

impl<T: Div<Output = T> + Copy + PartialEq> Div<&Matrix<T>> for Matrix<T> {
    type Output = Matrix<T>;

    fn div(self, rhs: &Matrix<T>) -> (out: Matrix<T>)
        ensures
            self@.quotient_gives(rhs@, out@),
            T::obeys_div_spec() ==> out@ == self@.quotient(rhs@),
    {
        (&self).div(rhs)
    }
}

} // verus!
