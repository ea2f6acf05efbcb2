//! Products with a scalar: `Scalar * Scalar`, `Scalar * Matrix` and
//! `Matrix * scalar`, for owned and borrowed operands. A matrix times a
//! scalar and the scalar times the matrix are the same matrix, each cell
//! multiplied from the left by the scalar.
use super::scalar::Scalar;
use super::Matrix;
use core::ops::Mul;
use vstd::prelude::*;
use vstd::std_specs::ops::{MulSpec, MulSpecImpl};

verus! {

/// `*` on wrapped scalars asks and gives what `*` on the scalars does.
impl<T: Mul<Output = T> + Copy> MulSpecImpl<Scalar<T>> for Scalar<T> {
    open spec fn obeys_mul_spec() -> bool {
        T::obeys_mul_spec()
    }

    open spec fn mul_req(self, rhs: Scalar<T>) -> bool {
        call_requires(<T as Mul>::mul, (self.0, rhs.0))
    }

    open spec fn mul_spec(self, rhs: Scalar<T>) -> Scalar<T> {
        Scalar(self.0.mul_spec(rhs.0))
    }
}

impl<T: Mul<Output = T> + Copy> Mul<Scalar<T>> for Scalar<T> {
    type Output = Scalar<T>;

    /// The product of the two wrapped scalars.
    fn mul(self, rhs: Scalar<T>) -> (out: Scalar<T>)
        ensures
            call_ensures(<T as Mul>::mul, (self.0, rhs.0), out.0),
            T::obeys_mul_spec() ==> out == Scalar(self.0.mul_spec(rhs.0)),
    {
        Scalar(self.0 * rhs.0)
    }
}

/// `*` on wrapped scalars asks and gives what `*` on the scalars does.
impl<T: Mul<Output = T> + Copy> MulSpecImpl<Scalar<T>> for &Scalar<T> {
    open spec fn obeys_mul_spec() -> bool {
        T::obeys_mul_spec()
    }

    open spec fn mul_req(self, rhs: Scalar<T>) -> bool {
        call_requires(<T as Mul>::mul, (self.0, rhs.0))
    }

    open spec fn mul_spec(self, rhs: Scalar<T>) -> Scalar<T> {
        Scalar(self.0.mul_spec(rhs.0))
    }
}

impl<T: Mul<Output = T> + Copy> Mul<Scalar<T>> for &Scalar<T> {
    type Output = Scalar<T>;

    fn mul(self, rhs: Scalar<T>) -> (out: Scalar<T>)
        ensures
            call_ensures(<T as Mul>::mul, (self.0, rhs.0), out.0),
            T::obeys_mul_spec() ==> out == Scalar(self.0.mul_spec(rhs.0)),
    {
        Scalar(self.0 * rhs.0)
    }
}

/// `*` on wrapped scalars asks and gives what `*` on the scalars does.
impl<T: Mul<Output = T> + Copy> MulSpecImpl<&Scalar<T>> for &Scalar<T> {
    open spec fn obeys_mul_spec() -> bool {
        T::obeys_mul_spec()
    }

    open spec fn mul_req(self, rhs: &Scalar<T>) -> bool {
        call_requires(<T as Mul>::mul, (self.0, rhs.0))
    }

    open spec fn mul_spec(self, rhs: &Scalar<T>) -> Scalar<T> {
        Scalar(self.0.mul_spec(rhs.0))
    }
}

impl<T: Mul<Output = T> + Copy> Mul<&Scalar<T>> for &Scalar<T> {
    type Output = Scalar<T>;

    fn mul(self, rhs: &Scalar<T>) -> (out: Scalar<T>)
        ensures
            call_ensures(<T as Mul>::mul, (self.0, rhs.0), out.0),
            T::obeys_mul_spec() ==> out == Scalar(self.0.mul_spec(rhs.0)),
    {
        Scalar(self.0 * rhs.0)
    }
}

/// `*` on wrapped scalars asks and gives what `*` on the scalars does.
impl<T: Mul<Output = T> + Copy> MulSpecImpl<&Scalar<T>> for Scalar<T> {
    open spec fn obeys_mul_spec() -> bool {
        T::obeys_mul_spec()
    }

    open spec fn mul_req(self, rhs: &Scalar<T>) -> bool {
        call_requires(<T as Mul>::mul, (self.0, rhs.0))
    }

    open spec fn mul_spec(self, rhs: &Scalar<T>) -> Scalar<T> {
        Scalar(self.0.mul_spec(rhs.0))
    }
}

impl<T: Mul<Output = T> + Copy> Mul<&Scalar<T>> for Scalar<T> {
    type Output = Scalar<T>;

    fn mul(self, rhs: &Scalar<T>) -> (out: Scalar<T>)
        ensures
            call_ensures(<T as Mul>::mul, (self.0, rhs.0), out.0),
            T::obeys_mul_spec() ==> out == Scalar(self.0.mul_spec(rhs.0)),
    {
        Scalar(self.0 * rhs.0)
    }
}

/// What `*` asks of its operands; what it gives is stated on `mul`.
impl<T: Mul<Output = T> + Copy + PartialEq> MulSpecImpl<&Matrix<T>> for &Scalar<T> {
    open spec fn obeys_mul_spec() -> bool {
        false
    }

    open spec fn mul_req(self, rhs: &Matrix<T>) -> bool {
        rhs@.scaled_req(self.0)
    }

    open spec fn mul_spec(self, rhs: &Matrix<T>) -> Matrix<T> {
        arbitrary()
    }
}

impl<T: Mul<Output = T> + Copy + PartialEq> Mul<&Matrix<T>> for &Scalar<T> {
    type Output = Matrix<T>;

    /// The matrix of the products `scalar * rhs[i][j]`.
    fn mul(self, rhs: &Matrix<T>) -> (out: Matrix<T>)
        ensures
            rhs@.scaled_gives(self.0, out@),
            T::obeys_mul_spec() ==> out@ == rhs@.scaled(self.0),
    {
        let mut res: Vec<T> = Vec::new();
        let n: usize = rhs.data.len();
        let mut p: usize = 0;
        while p < n
            invariant
                rhs@.scaled_req(self.0),
                n == rhs@.cells.len(),
                p <= n,
                res@.len() == p,
                forall|q: int|
                    0 <= q < p ==> call_ensures(
                        <T as Mul>::mul,
                        (self.0, rhs@.cells[q]),
                        #[trigger] res@[q],
                    ),
            decreases n - p,
        {
            res.push(self.0 * rhs.data[p]);
            p += 1;
        }
        proof {
            if T::obeys_mul_spec() {
                assert(res@ =~= rhs@.scaled(self.0).cells);
            }
        }
        Matrix::create_from_data(res, rhs.n_rows, rhs.n_cols)
    }
}

/// What `*` asks of its operands; what it gives is stated on `mul`.
impl<T: Mul<Output = T> + Copy + PartialEq> MulSpecImpl<Matrix<T>> for Scalar<T> {
    open spec fn obeys_mul_spec() -> bool {
        false
    }

    open spec fn mul_req(self, rhs: Matrix<T>) -> bool {
        rhs@.scaled_req(self.0)
    }

    open spec fn mul_spec(self, rhs: Matrix<T>) -> Matrix<T> {
        arbitrary()
    }
}

impl<T: Mul<Output = T> + Copy + PartialEq> Mul<Matrix<T>> for Scalar<T> {
    type Output = Matrix<T>;

    fn mul(self, rhs: Matrix<T>) -> (out: Matrix<T>)
        ensures
            rhs@.scaled_gives(self.0, out@),
            T::obeys_mul_spec() ==> out@ == rhs@.scaled(self.0),
    {
        (&self).mul(&rhs)
    }
}

/// What `*` asks of its operands; what it gives is stated on `mul`.
impl<T: Mul<Output = T> + Copy + PartialEq> MulSpecImpl<&Matrix<T>> for Scalar<T> {
    open spec fn obeys_mul_spec() -> bool {
        false
    }

    open spec fn mul_req(self, rhs: &Matrix<T>) -> bool {
        rhs@.scaled_req(self.0)
    }

    open spec fn mul_spec(self, rhs: &Matrix<T>) -> Matrix<T> {
        arbitrary()
    }
}

impl<T: Mul<Output = T> + Copy + PartialEq> Mul<&Matrix<T>> for Scalar<T> {
    type Output = Matrix<T>;

    fn mul(self, rhs: &Matrix<T>) -> (out: Matrix<T>)
        ensures
            rhs@.scaled_gives(self.0, out@),
            T::obeys_mul_spec() ==> out@ == rhs@.scaled(self.0),
    {
        (&self).mul(rhs)
    }
}

/// What `*` asks of its operands; what it gives is stated on `mul`.
impl<T: Mul<Output = T> + Copy + PartialEq> MulSpecImpl<Matrix<T>> for &Scalar<T> {
    open spec fn obeys_mul_spec() -> bool {
        false
    }

    open spec fn mul_req(self, rhs: Matrix<T>) -> bool {
        rhs@.scaled_req(self.0)
    }

    open spec fn mul_spec(self, rhs: Matrix<T>) -> Matrix<T> {
        arbitrary()
    }
}

impl<T: Mul<Output = T> + Copy + PartialEq> Mul<Matrix<T>> for &Scalar<T> {
    type Output = Matrix<T>;

    fn mul(self, rhs: Matrix<T>) -> (out: Matrix<T>)
        ensures
            rhs@.scaled_gives(self.0, out@),
            T::obeys_mul_spec() ==> out@ == rhs@.scaled(self.0),
    {
        self.mul(&rhs)
    }
}

/// What `*` asks of its operands; what it gives is stated on `mul`.
impl<T: Mul<Output = T> + Copy + PartialEq> MulSpecImpl<T> for Matrix<T> {
    open spec fn obeys_mul_spec() -> bool {
        false
    }

    open spec fn mul_req(self, rhs: T) -> bool {
        self@.scaled_req(rhs)
    }

    open spec fn mul_spec(self, rhs: T) -> Matrix<T> {
        arbitrary()
    }
}

impl<T: Mul<Output = T> + Copy + PartialEq> Mul<T> for Matrix<T> {
    type Output = Matrix<T>;

    /// The matrix of the products `rhs * self[i][j]`.
    fn mul(self, rhs: T) -> (out: Matrix<T>)
        ensures
            self@.scaled_gives(rhs, out@),
            T::obeys_mul_spec() ==> out@ == self@.scaled(rhs),
    {
        (&Scalar(rhs)).mul(&self)
    }
}

/// What `*` asks of its operands; what it gives is stated on `mul`.
impl<T: Mul<Output = T> + Copy + PartialEq> MulSpecImpl<T> for &Matrix<T> {
    open spec fn obeys_mul_spec() -> bool {
        false
    }

    open spec fn mul_req(self, rhs: T) -> bool {
        self@.scaled_req(rhs)
    }

    open spec fn mul_spec(self, rhs: T) -> Matrix<T> {
        arbitrary()
    }
}

impl<T: Mul<Output = T> + Copy + PartialEq> Mul<T> for &Matrix<T> {
    type Output = Matrix<T>;

    fn mul(self, rhs: T) -> (out: Matrix<T>)
        ensures
            self@.scaled_gives(rhs, out@),
            T::obeys_mul_spec() ==> out@ == self@.scaled(rhs),
    {
        (&Scalar(rhs)).mul(self)
    }
}

} // verus!
