//! Algebraic laws of the cellwise operations, of transposition and of rows,
//! stated over [`Grid`] and proved from the laws of the scalar type's own
//! arithmetic.
use crate::grid::{lemma_flat_index, Grid};
use core::ops::{Add, Mul, Neg, Sub};
use vstd::prelude::*;
use vstd::std_specs::ops::{AddSpec, MulSpec, NegSpec, SubSpec};

verus! {

/// Cellwise addition is commutative where the scalar's addition is:
/// `a + b == b + a` for grids of one shape. The scalar's law is asked only of
/// the cells that are added.
pub proof fn lemma_plus_commutative<T: Add<Output = T>>(a: Grid<T>, b: Grid<T>)
    requires
        a.wf(),
        b.wf(),
        a.same_shape(b),
        forall|p: int|
            0 <= p < a.cells.len() ==> #[trigger] a.cells[p].add_spec(b.cells[p])
                == b.cells[p].add_spec(a.cells[p]),
    ensures
        a.plus(b) == b.plus(a),
{
    assert(a.plus(b).cells =~= b.plus(a).cells);
}

/// Cellwise addition is associative where the scalar's addition is:
/// `(a + b) + c == a + (b + c)` for grids of one shape. The scalar's law is
/// asked only of the cells that are added.
pub proof fn lemma_plus_associative<T: Add<Output = T>>(a: Grid<T>, b: Grid<T>, c: Grid<T>)
    requires
        a.wf(),
        b.wf(),
        c.wf(),
        a.same_shape(b),
        b.same_shape(c),
        forall|p: int|
            0 <= p < a.cells.len() ==> #[trigger] a.cells[p].add_spec(b.cells[p]).add_spec(
                c.cells[p],
            ) == a.cells[p].add_spec(b.cells[p].add_spec(c.cells[p])),
    ensures
        a.plus(b).plus(c) == a.plus(b.plus(c)),
{
    assert(a.plus(b).plus(c).cells =~= a.plus(b.plus(c)).cells);
}

/// Negating twice gives the grid back where it gives each of its cells
/// back: `-(-a) == a`.
pub proof fn lemma_negated_twice<T: Neg<Output = T>>(a: Grid<T>)
    requires
        a.wf(),
        forall|p: int|
            0 <= p < a.cells.len() ==> #[trigger] a.cells[p].neg_spec().neg_spec() == a.cells[p],
    ensures
        a.negated().negated() == a,
{
    assert(a.negated().negated().cells =~= a.cells);
}

/// A grid minus itself holds `zero` in every cell, where `zero` is what the
/// scalar type gives for each of the cells minus itself.
pub proof fn lemma_minus_self<T: Sub<Output = T>>(a: Grid<T>, zero: T)
    requires
        a.wf(),
        forall|p: int| 0 <= p < a.cells.len() ==> #[trigger] a.cells[p].sub_spec(a.cells[p]) == zero,
    ensures
        a.minus(a) == Grid::filled(a.n_rows, a.n_cols, zero),
{
    assert(a.minus(a).cells =~= Grid::filled(a.n_rows, a.n_cols, zero).cells);
}

/// Transposing twice gives the grid back.
pub proof fn lemma_transposed_twice<T>(a: Grid<T>)
    requires
        a.wf(),
    ensures
        a.transposed().wf(),
        a.transposed().transposed() == a,
{
    let r = a.n_rows as int;
    let c = a.n_cols as int;
    let t = a.transposed();
    let tt = t.transposed();
    assert(c * r == r * c) by (nonlinear_arith);
    assert forall|q: int| 0 <= q < a.cells.len() implies tt.cells[q] == a.cells[q] by {
        assert(c > 0 && r > 0) by (nonlinear_arith)
            requires
                0 <= q < r * c,
                0 <= r,
                0 <= c,
        ;
        let i = q / c;
        let j = q % c;
        vstd::arithmetic::div_mod::lemma_fundamental_div_mod(q, c);
        assert(c * i == i * c) by (nonlinear_arith);
        assert(0 <= j < c);
        assert(0 <= i < r) by (nonlinear_arith)
            requires
                q == i * c + j,
                0 <= j < c,
                0 <= q < r * c,
        ;
        lemma_flat_index(j, i, c, r);
        assert(tt.cells[q] == t.at(j, i));
        assert(t.at(j, i) == t.cells[j * r + i]);
        assert(t.cells[j * r + i] == a.at(i, j));
    }
    assert(tt.cells =~= a.cells);
}

/// Cell `(j, i)` of the transpose is cell `(i, j)` of the grid.
pub proof fn lemma_transposed_at<T>(a: Grid<T>, i: int, j: int)
    requires
        a.wf(),
        0 <= i < a.n_rows,
        0 <= j < a.n_cols,
    ensures
        a.transposed().at(j, i) == a.at(i, j),
{
    lemma_flat_index(j, i, a.n_cols as int, a.n_rows as int);
}

/// Row `i` of a grid is a well-formed grid of one row whose cell `(0, j)`
/// is cell `(i, j)` of the grid.
pub proof fn lemma_row_at<T>(a: Grid<T>, i: int, j: int)
    requires
        a.wf(),
        0 <= i < a.n_rows,
        0 <= j < a.n_cols,
    ensures
        a.row(i).wf(),
        a.row(i).n_rows == 1,
        a.row(i).n_cols == a.n_cols,
        a.row(i).at(0, j) == a.at(i, j),
{
}

/// The cellwise product is commutative where the scalar's product is:
/// `a % b == b % a` for grids of one shape. The scalar's law is asked only of
/// the cells that are multiplied.
pub proof fn lemma_hadamard_commutative<T: Mul<Output = T>>(a: Grid<T>, b: Grid<T>)
    requires
        a.wf(),
        b.wf(),
        a.same_shape(b),
        forall|p: int|
            0 <= p < a.cells.len() ==> #[trigger] a.cells[p].mul_spec(b.cells[p])
                == b.cells[p].mul_spec(a.cells[p]),
    ensures
        a.hadamard(b) == b.hadamard(a),
{
    assert(a.hadamard(b).cells =~= b.hadamard(a).cells);
}

/// The cellwise product is associative where the scalar's product is:
/// `(a % b) % c == a % (b % c)` for grids of one shape. The scalar's law is
/// asked only of the cells that are multiplied.
pub proof fn lemma_hadamard_associative<T: Mul<Output = T>>(a: Grid<T>, b: Grid<T>, c: Grid<T>)
    requires
        a.wf(),
        b.wf(),
        c.wf(),
        a.same_shape(b),
        b.same_shape(c),
        forall|p: int|
            0 <= p < a.cells.len() ==> #[trigger] a.cells[p].mul_spec(b.cells[p]).mul_spec(
                c.cells[p],
            ) == a.cells[p].mul_spec(b.cells[p].mul_spec(c.cells[p])),
    ensures
        a.hadamard(b).hadamard(c) == a.hadamard(b.hadamard(c)),
{
    assert(a.hadamard(b).hadamard(c).cells =~= a.hadamard(b.hadamard(c)).cells);
}

/// Multiplication by a scalar distributes over cellwise addition where the
/// scalar's product distributes over its sum:
/// `s * (a + b) == s * a + s * b` for grids of one shape. The scalar's law is
/// asked only of the cells that are added.
pub proof fn lemma_scaled_distributes<T: Add<Output = T> + Mul<Output = T>>(
    s: T,
    a: Grid<T>,
    b: Grid<T>,
)
    requires
        a.wf(),
        b.wf(),
        a.same_shape(b),
        forall|p: int|
            0 <= p < a.cells.len() ==> #[trigger] s.mul_spec(a.cells[p].add_spec(b.cells[p]))
                == s.mul_spec(a.cells[p]).add_spec(s.mul_spec(b.cells[p])),
    ensures
        a.plus(b).scaled(s) == a.scaled(s).plus(b.scaled(s)),
{
    assert(a.plus(b).scaled(s).cells =~= a.scaled(s).plus(b.scaled(s)).cells);
}

} // verus!
