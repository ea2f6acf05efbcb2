//! A stored unary transformation that can be applied to every cell of a
//! matrix.
use vstd::prelude::*;

verus! {

/// A transformation of scalars that can be invoked any number of times.
///
/// `accepts` says on which arguments it may be invoked, `relates` which
/// results an invocation may give. Every `Fn(T) -> T` is one, with its own
/// precondition and postcondition.
pub trait Transform<T> {
    spec fn accepts(&self, x: T) -> bool;

    spec fn relates(&self, x: T, y: T) -> bool;

    fn apply(&self, x: T) -> (y: T)
        requires
            self.accepts(x),
        ensures
            self.relates(x, y),
    ;
}

impl<T, F: Fn(T) -> T> Transform<T> for F {
    open spec fn accepts(&self, x: T) -> bool {
        self.requires((x,))
    }

    open spec fn relates(&self, x: T, y: T) -> bool {
        self.ensures((x,), y)
    }

    fn apply(&self, x: T) -> (y: T) {
        self(x)
    }
}

/// Wraps a closure or a function so that it can be applied cell by cell to a
/// matrix with `%`.
#[verifier::reject_recursive_types(T)]
pub struct Func<T: Copy + PartialEq>(pub Box<dyn Transform<T>>);

impl<T: Copy + PartialEq> Func<T> {
    /// Stores `f`. The wrapper accepts what `f` accepts and gives what `f`
    /// gives.
    pub fn new<F: 'static + Fn(T) -> T>(f: F) -> (func: Func<T>)
        ensures
            forall|x: T| func.0.accepts(x) == f.requires((x,)),
            forall|x: T, y: T| func.0.relates(x, y) == f.ensures((x,), y),
    {
        Func(Box::new(f))
    }
}

} // verus!
