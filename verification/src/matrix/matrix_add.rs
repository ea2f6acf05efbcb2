//! Cellwise addition of matrices with `+`, for owned and borrowed operands.
use super::Matrix;
use core::ops::Add;
use vstd::prelude::*;
use vstd::std_specs::ops::{AddSpec, AddSpecImpl};

verus! {

/// What `+` asks of its operands; what it gives is stated on `add`.
impl<T: Add<Output = T> + Copy + PartialEq> AddSpecImpl<&Matrix<T>> for &Matrix<T> {
    open spec fn obeys_add_spec() -> bool {
        false
    }

    open spec fn add_req(self, rhs: &Matrix<T>) -> bool {
        self@.plus_req(rhs@)
    }

    open spec fn add_spec(self, rhs: &Matrix<T>) -> Matrix<T> {
        arbitrary()
    }
}

impl<T: Add<Output = T> + Copy + PartialEq> Add<&Matrix<T>> for &Matrix<T> {
    type Output = Matrix<T>;

    /// The matrix of the sums `self[i][j] + rhs[i][j]`.
    fn add(self, rhs: &Matrix<T>) -> (out: Matrix<T>)
        ensures
            self@.plus_gives(rhs@, out@),
            T::obeys_add_spec() ==> out@ == self@.plus(rhs@),
    {
        let mut res: Vec<T> = Vec::new();
        let mut it = self.iter();
        loop
            invariant
                self@.plus_req(rhs@),
                it.wf(),
                it.grid() == self@,
                it.position() == res@.len(),
                forall|p: int|
                    0 <= p < res@.len() ==> call_ensures(
                        <T as Add>::add,
                        (self@.cells[p], rhs@.cells[p]),
                        #[trigger] res@[p],
                    ),
            ensures
                res@.len() == self@.cells.len(),
                forall|p: int|
                    0 <= p < res@.len() ==> call_ensures(
                        <T as Add>::add,
                        (self@.cells[p], rhs@.cells[p]),
                        #[trigger] res@[p],
                    ),
            decreases self@.cells.len() - it.position(),
        {
            proof {
                it.lemma_position_bound();
            }
            match it.next() {
                Some((e, row, col)) => {
                    res.push(*e + rhs.get(row, col));
                },
                None => {
                    break ;
                },
            }
        }
        proof {
            if T::obeys_add_spec() {
                assert(res@ =~= self@.plus(rhs@).cells);
            }
        }
        Matrix::create_from_data(res, self.n_rows, self.n_cols)
    }
}

/// What `+` asks of its operands; what it gives is stated on `add`.
impl<T: Add<Output = T> + Copy + PartialEq> AddSpecImpl<Matrix<T>> for Matrix<T> {
    open spec fn obeys_add_spec() -> bool {
        false
    }

    open spec fn add_req(self, rhs: Matrix<T>) -> bool {
        self@.plus_req(rhs@)
    }

    open spec fn add_spec(self, rhs: Matrix<T>) -> Matrix<T> {
        arbitrary()
    }
}

impl<T: Add<Output = T> + Copy + PartialEq> Add<Matrix<T>> for Matrix<T> {
    type Output = Matrix<T>;

    fn add(self, rhs: Matrix<T>) -> (out: Matrix<T>)
        ensures
            self@.plus_gives(rhs@, out@),
            T::obeys_add_spec() ==> out@ == self@.plus(rhs@),
    {
        (&self).add(&rhs)
    }
}

/// What `+` asks of its operands; what it gives is stated on `add`.
impl<T: Add<Output = T> + Copy + PartialEq> AddSpecImpl<Matrix<T>> for &Matrix<T> {
    open spec fn obeys_add_spec() -> bool {
        false
    }

    open spec fn add_req(self, rhs: Matrix<T>) -> bool {
        self@.plus_req(rhs@)
    }

    open spec fn add_spec(self, rhs: Matrix<T>) -> Matrix<T> {
        arbitrary()
    }
}

impl<T: Add<Output = T> + Copy + PartialEq> Add<Matrix<T>> for &Matrix<T> {
    type Output = Matrix<T>;

    fn add(self, rhs: Matrix<T>) -> (out: Matrix<T>)
        ensures
            self@.plus_gives(rhs@, out@),
            T::obeys_add_spec() ==> out@ == self@.plus(rhs@),
    {
        self.add(&rhs)
    }
}

/// What `+` asks of its operands; what it gives is stated on `add`.
impl<T: Add<Output = T> + Copy + PartialEq> AddSpecImpl<&Matrix<T>> for Matrix<T> {
    open spec fn obeys_add_spec() -> bool {
        false
    }

    open spec fn add_req(self, rhs: &Matrix<T>) -> bool {
        self@.plus_req(rhs@)
    }

    open spec fn add_spec(self, rhs: &Matrix<T>) -> Matrix<T> {
        arbitrary()
    }
}

impl<T: Add<Output = T> + Copy + PartialEq> Add<&Matrix<T>> for Matrix<T> {
    type Output = Matrix<T>;

    fn add(self, rhs: &Matrix<T>) -> (out: Matrix<T>)
        ensures
            self@.plus_gives(rhs@, out@),
            T::obeys_add_spec() ==> out@ == self@.plus(rhs@),
    {
        (&self).add(rhs)
    }
}

} // verus!
