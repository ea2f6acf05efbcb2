//! Dense matrices over an arbitrary scalar type, with verified arithmetic.
//!
//! The core types are [`Matrix`], [`Scalar`] and [`Func`]. Every operation is
//! specified against [`grid::Grid`], the mathematical model of a matrix, and
//! the algebraic laws of the operations are proved in [`laws`] and
//! [`product_laws`].
pub mod grid;
pub mod laws;
pub mod matrix;
pub mod product_laws;

pub use grid::Grid;
pub use matrix::checked::MatrixError;
pub use matrix::func::Func;
pub use matrix::func::Transform;
pub use matrix::matrix_iter_mut::MatrixIteratorMut;
pub use matrix::matrix_iterator::MatrixIterator;
pub use matrix::scalar::Scalar;
pub use matrix::Matrix;
