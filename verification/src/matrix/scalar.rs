//! A wrapper that lets a scalar stand on the left of a matrix in a product.
use vstd::prelude::*;
use vstd::std_specs::cmp::{PartialEqSpec, PartialEqSpecImpl};

verus! {

/// Wraps a scalar such as `i32` so that `Scalar(s) * matrix` can be written.
#[derive(Debug, Clone)]
pub struct Scalar<T>(pub T);

impl<T: PartialEq> PartialEq for Scalar<T> {
    fn eq(&self, other: &Scalar<T>) -> (r: bool) {
        self.0 == other.0
    }
}

impl<T: PartialEq> PartialEqSpecImpl for Scalar<T> {
    open spec fn obeys_eq_spec() -> bool {
        T::obeys_eq_spec()
    }

    open spec fn eq_spec(&self, other: &Scalar<T>) -> bool {
        self.0.eq_spec(&other.0)
    }
}

} // verus!
