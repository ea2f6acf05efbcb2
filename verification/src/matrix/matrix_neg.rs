//! Cellwise negation of a matrix with unary `-`.
use super::Matrix;
use core::ops::Neg;
use vstd::prelude::*;
use vstd::std_specs::ops::{NegSpec, NegSpecImpl};

verus! {

/// What unary `-` asks of its operand; what it gives is stated on `neg`.
impl<T: Neg<Output = T> + Copy + PartialEq> NegSpecImpl for &Matrix<T> {
    open spec fn obeys_neg_spec() -> bool {
        false
    }

    open spec fn neg_req(self) -> bool {
        self@.negated_req()
    }

    open spec fn neg_spec(self) -> Matrix<T> {
        arbitrary()
    }
}

impl<T: Neg<Output = T> + Copy + PartialEq> Neg for &Matrix<T> {
    type Output = Matrix<T>;

    /// The matrix of the negations `-self[i][j]`.
    fn neg(self) -> (out: Matrix<T>)
        ensures
            self@.negated_gives(out@),
            T::obeys_neg_spec() ==> out@ == self@.negated(),
    {
        let mut res: Vec<T> = Vec::new();
        let mut it = self.iter();
        loop
            invariant
                self@.negated_req(),
                it.wf(),
                it.grid() == self@,
                it.position() == res@.len(),
                forall|p: int|
                    0 <= p < res@.len() ==> call_ensures(
                        <T as Neg>::neg,
                        (self@.cells[p],),
                        #[trigger] res@[p],
                    ),
            ensures
                res@.len() == self@.cells.len(),
                forall|p: int|
                    0 <= p < res@.len() ==> call_ensures(
                        <T as Neg>::neg,
                        (self@.cells[p],),
                        #[trigger] res@[p],
                    ),
            decreases self@.cells.len() - it.position(),
        {
            proof {
                it.lemma_position_bound();
            }
            match it.next() {
                Some((e, _, _)) => {
                    res.push((*e).neg());
                },
                None => {
                    break ;
                },
            }
        }
        proof {
            if T::obeys_neg_spec() {
                assert(res@ =~= self@.negated().cells);
            }
        }
        Matrix::create_from_data(res, self.n_rows, self.n_cols)
    }
}

/// What unary `-` asks of its operand; what it gives is stated on `neg`.
impl<T: Neg<Output = T> + Copy + PartialEq> NegSpecImpl for Matrix<T> {
    open spec fn obeys_neg_spec() -> bool {
        false
    }

    open spec fn neg_req(self) -> bool {
        self@.negated_req()
    }

    open spec fn neg_spec(self) -> Matrix<T> {
        arbitrary()
    }
}

impl<T: Neg<Output = T> + Copy + PartialEq> Neg for Matrix<T> {
    type Output = Matrix<T>;

    fn neg(self) -> (out: Matrix<T>)
        ensures
            self@.negated_gives(out@),
            T::obeys_neg_spec() ==> out@ == self@.negated(),
    {
        (&self).neg()
    }
}

} // verus!
