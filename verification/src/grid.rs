//! The mathematical model of a matrix: a shape and a row-major sequence of
//! cells. All contracts of the crate are stated over this model.
use core::ops::{Add, Div, Mul, Neg, Sub};
use vstd::prelude::*;
use vstd::std_specs::ops::{AddSpec, DivSpec, MulSpec, NegSpec, SubSpec};

verus! {

/// A shape together with the cells in row-major order.
pub struct Grid<T> {
    pub n_rows: nat,
    pub n_cols: nat,
    pub cells: Seq<T>,
}

impl<T> Grid<T> {
    /// The number of cells agrees with the shape.
    pub open spec fn wf(self) -> bool {
        self.cells.len() == self.n_rows * self.n_cols
    }

    /// The cell in row `i` and column `j`.
    pub open spec fn at(self, i: int, j: int) -> T {
        self.cells[i * self.n_cols + j]
    }

    /// The two grids have as many rows and as many columns.
    pub open spec fn same_shape(self, other: Grid<T>) -> bool {
        self.n_rows == other.n_rows && self.n_cols == other.n_cols
    }

    /// The grid of the given shape whose cells all hold `value`.
    pub open spec fn filled(n_rows: nat, n_cols: nat, value: T) -> Grid<T> {
        Grid { n_rows, n_cols, cells: Seq::new(n_rows * n_cols, |p: int| value) }
    }

    /// Row `i` as a grid with one row.
    pub open spec fn row(self, i: int) -> Grid<T> {
        Grid {
            n_rows: 1,
            n_cols: self.n_cols,
            cells: Seq::new(self.n_cols, |j: int| self.at(i, j)),
        }
    }

    /// Column `j` as a grid with one column.
    pub open spec fn col(self, j: int) -> Grid<T> {
        Grid {
            n_rows: self.n_rows,
            n_cols: 1,
            cells: Seq::new(self.n_rows, |i: int| self.at(i, j)),
        }
    }

    /// The transpose: cell `(j, i)` of the result is cell `(i, j)` of `self`.
    pub open spec fn transposed(self) -> Grid<T> {
        Grid {
            n_rows: self.n_cols,
            n_cols: self.n_rows,
            cells: Seq::new(
                self.n_cols * self.n_rows,
                |p: int| self.at(p % (self.n_rows as int), p / (self.n_rows as int)),
            ),
        }
    }
}

impl<T: Add<Output = T>> Grid<T> {
    /// The two grids have one shape and every pair of corresponding cells
    /// may be added.
    pub open spec fn plus_req(self, rhs: Grid<T>) -> bool {
        &&& self.wf()
        &&& rhs.wf()
        &&& self.same_shape(rhs)
        &&& forall|p: int|
            #![trigger self.cells[p]]
            0 <= p < self.cells.len() ==> call_requires(
                <T as Add>::add,
                (self.cells[p], rhs.cells[p]),
            )
    }

    /// `out` has the shape of `self`, and each of its cells is what the
    /// scalar type's `+` gave for the cells of `self` and `rhs` at the
    /// same place.
    pub open spec fn plus_gives(self, rhs: Grid<T>, out: Grid<T>) -> bool {
        &&& out.wf()
        &&& out.same_shape(self)
        &&& forall|p: int|
            0 <= p < self.cells.len() ==> call_ensures(
                <T as Add>::add,
                (self.cells[p], rhs.cells[p]),
                #[trigger] out.cells[p],
            )
    }

    /// The cellwise sum, for a scalar type whose `+` does what `add_spec`
    /// says.
    pub open spec fn plus(self, rhs: Grid<T>) -> Grid<T> {
        Grid {
            n_rows: self.n_rows,
            n_cols: self.n_cols,
            cells: Seq::new(self.cells.len(), |p: int| self.cells[p].add_spec(rhs.cells[p])),
        }
    }
}

impl<T: Sub<Output = T>> Grid<T> {
    /// The two grids have one shape and every pair of corresponding cells
    /// may be subtracted.
    pub open spec fn minus_req(self, rhs: Grid<T>) -> bool {
        &&& self.wf()
        &&& rhs.wf()
        &&& self.same_shape(rhs)
        &&& forall|p: int|
            #![trigger self.cells[p]]
            0 <= p < self.cells.len() ==> call_requires(
                <T as Sub>::sub,
                (self.cells[p], rhs.cells[p]),
            )
    }

    /// `out` has the shape of `self`, and each of its cells is what the
    /// scalar type's `-` gave for the cells of `self` and `rhs` at the
    /// same place.
    pub open spec fn minus_gives(self, rhs: Grid<T>, out: Grid<T>) -> bool {
        &&& out.wf()
        &&& out.same_shape(self)
        &&& forall|p: int|
            0 <= p < self.cells.len() ==> call_ensures(
                <T as Sub>::sub,
                (self.cells[p], rhs.cells[p]),
                #[trigger] out.cells[p],
            )
    }

    /// The cellwise difference, for a scalar type whose `-` does what `sub_spec`
    /// says.
    pub open spec fn minus(self, rhs: Grid<T>) -> Grid<T> {
        Grid {
            n_rows: self.n_rows,
            n_cols: self.n_cols,
            cells: Seq::new(self.cells.len(), |p: int| self.cells[p].sub_spec(rhs.cells[p])),
        }
    }
}

impl<T: Div<Output = T>> Grid<T> {
    /// The two grids have one shape and every pair of corresponding cells
    /// may be divided.
    pub open spec fn quotient_req(self, rhs: Grid<T>) -> bool {
        &&& self.wf()
        &&& rhs.wf()
        &&& self.same_shape(rhs)
        &&& forall|p: int|
            #![trigger self.cells[p]]
            0 <= p < self.cells.len() ==> call_requires(
                <T as Div>::div,
                (self.cells[p], rhs.cells[p]),
            )
    }

    /// `out` has the shape of `self`, and each of its cells is what the
    /// scalar type's `/` gave for the cells of `self` and `rhs` at the
    /// same place.
    pub open spec fn quotient_gives(self, rhs: Grid<T>, out: Grid<T>) -> bool {
        &&& out.wf()
        &&& out.same_shape(self)
        &&& forall|p: int|
            0 <= p < self.cells.len() ==> call_ensures(
                <T as Div>::div,
                (self.cells[p], rhs.cells[p]),
                #[trigger] out.cells[p],
            )
    }

    /// The cellwise quotient, for a scalar type whose `/` does what `div_spec`
    /// says.
    pub open spec fn quotient(self, rhs: Grid<T>) -> Grid<T> {
        Grid {
            n_rows: self.n_rows,
            n_cols: self.n_cols,
            cells: Seq::new(self.cells.len(), |p: int| self.cells[p].div_spec(rhs.cells[p])),
        }
    }
}

impl<T: Neg<Output = T>> Grid<T> {
    /// Every cell may be negated.
    pub open spec fn negated_req(self) -> bool {
        &&& self.wf()
        &&& forall|p: int|
            #![trigger self.cells[p]]
            0 <= p < self.cells.len() ==> call_requires(<T as Neg>::neg, (self.cells[p],))
    }

    /// `out` has the shape of `self`, and each of its cells is what the
    /// scalar type's unary `-` gave for the cell of `self` at the same place.
    pub open spec fn negated_gives(self, out: Grid<T>) -> bool {
        &&& out.wf()
        &&& out.same_shape(self)
        &&& forall|p: int|
            0 <= p < self.cells.len() ==> call_ensures(
                <T as Neg>::neg,
                (self.cells[p],),
                #[trigger] out.cells[p],
            )
    }

    /// The cellwise negation, for a scalar type whose unary `-` does what
    /// `neg_spec` says.
    pub open spec fn negated(self) -> Grid<T> {
        Grid {
            n_rows: self.n_rows,
            n_cols: self.n_cols,
            cells: Seq::new(self.cells.len(), |p: int| self.cells[p].neg_spec()),
        }
    }
}

impl<T: Mul<Output = T>> Grid<T> {
    /// The two grids have one shape and every pair of corresponding cells
    /// may be multiplied.
    pub open spec fn hadamard_req(self, rhs: Grid<T>) -> bool {
        &&& self.wf()
        &&& rhs.wf()
        &&& self.same_shape(rhs)
        &&& forall|p: int|
            #![trigger self.cells[p]]
            0 <= p < self.cells.len() ==> call_requires(
                <T as Mul>::mul,
                (self.cells[p], rhs.cells[p]),
            )
    }

    /// `out` has the shape of `self`, and each of its cells is what the
    /// scalar type's `*` gave for the cells of `self` and `rhs` at the
    /// same place.
    pub open spec fn hadamard_gives(self, rhs: Grid<T>, out: Grid<T>) -> bool {
        &&& out.wf()
        &&& out.same_shape(self)
        &&& forall|p: int|
            0 <= p < self.cells.len() ==> call_ensures(
                <T as Mul>::mul,
                (self.cells[p], rhs.cells[p]),
                #[trigger] out.cells[p],
            )
    }

    /// The cellwise (Hadamard) product, for a scalar type whose `*` does what `mul_spec`
    /// says.
    pub open spec fn hadamard(self, rhs: Grid<T>) -> Grid<T> {
        Grid {
            n_rows: self.n_rows,
            n_cols: self.n_cols,
            cells: Seq::new(self.cells.len(), |p: int| self.cells[p].mul_spec(rhs.cells[p])),
        }
    }
}

impl<T: Mul<Output = T>> Grid<T> {
    /// `scalar` may be multiplied with every cell.
    pub open spec fn scaled_req(self, scalar: T) -> bool {
        &&& self.wf()
        &&& forall|p: int|
            #![trigger self.cells[p]]
            0 <= p < self.cells.len() ==> call_requires(<T as Mul>::mul, (scalar, self.cells[p]))
    }

    /// `out` has the shape of `self`, and each of its cells is what the
    /// scalar type's `*` gave for `scalar` and the cell of `self` at the same
    /// place.
    pub open spec fn scaled_gives(self, scalar: T, out: Grid<T>) -> bool {
        &&& out.wf()
        &&& out.same_shape(self)
        &&& forall|p: int|
            0 <= p < self.cells.len() ==> call_ensures(
                <T as Mul>::mul,
                (scalar, self.cells[p]),
                #[trigger] out.cells[p],
            )
    }

    /// Every cell multiplied from the left by `scalar`, for a scalar type
    /// whose `*` does what `mul_spec` says.
    pub open spec fn scaled(self, scalar: T) -> Grid<T> {
        Grid {
            n_rows: self.n_rows,
            n_cols: self.n_cols,
            cells: Seq::new(self.cells.len(), |p: int| scalar.mul_spec(self.cells[p])),
        }
    }
}

impl<T: Add<Output = T> + Mul<Output = T>> Grid<T> {
    /// `r` is what the scalar type may give as the dot product of row `i` of
    /// `self` and column `j` of `rhs` over the indices `0..=k`, summed from
    /// the left: `(..(t(0) + t(1)) + ..) + t(k)` with
    /// `t(k) = self[i][k] * rhs[k][j]`.
    pub open spec fn dot_gives(self, rhs: Grid<T>, i: int, j: int, k: nat, r: T) -> bool
        decreases k,
    {
        if k == 0 {
            call_ensures(<T as Mul>::mul, (self.at(i, 0), rhs.at(0, j)), r)
        } else {
            exists|before: T, t: T|
                {
                    &&& self.dot_gives(rhs, i, j, (k - 1) as nat, before)
                    &&& call_ensures(<T as Mul>::mul, (self.at(i, k as int), rhs.at(k as int, j)), t)
                    &&& #[trigger] call_ensures(<T as Add>::add, (before, t), r)
                }
        }
    }

    /// Every product and every sum that the dot product of row `i` of `self`
    /// and column `j` of `rhs` over the indices `0..=k` takes may be taken,
    /// whatever the ones before have given.
    pub open spec fn dot_req(self, rhs: Grid<T>, i: int, j: int, k: nat) -> bool
        decreases k,
    {
        &&& call_requires(<T as Mul>::mul, (self.at(i, k as int), rhs.at(k as int, j)))
        &&& k > 0 ==> {
            &&& self.dot_req(rhs, i, j, (k - 1) as nat)
            &&& forall|before: T, t: T|
                self.dot_gives(rhs, i, j, (k - 1) as nat, before) && call_ensures(
                    <T as Mul>::mul,
                    (self.at(i, k as int), rhs.at(k as int, j)),
                    t,
                ) ==> #[trigger] call_requires(<T as Add>::add, (before, t))
        }
    }

    /// The inner dimensions agree, and every dot product of a row of `self`
    /// and a column of `rhs` may be taken.
    pub open spec fn product_req(self, rhs: Grid<T>) -> bool {
        &&& self.wf()
        &&& rhs.wf()
        &&& self.n_cols == rhs.n_rows
        &&& forall|i: int, j: int|
            0 <= i < self.n_rows && 0 <= j < rhs.n_cols && self.n_cols > 0
                ==> #[trigger] self.dot_req(rhs, i, j, (self.n_cols - 1) as nat)
    }

    /// `out` has the rows of `self` and the columns of `rhs`. With a positive
    /// inner dimension its cell `(i, j)` is what the scalar type gave as the
    /// dot product of row `i` of `self` and column `j` of `rhs`. With an
    /// inner dimension of zero every cell holds one and the same value, the
    /// scalar type's sum of no terms.
    pub open spec fn product_gives(self, rhs: Grid<T>, out: Grid<T>) -> bool {
        &&& out.wf()
        &&& out.n_rows == self.n_rows
        &&& out.n_cols == rhs.n_cols
        &&& self.n_cols > 0 ==> forall|i: int, j: int|
            0 <= i < self.n_rows && 0 <= j < rhs.n_cols ==> self.dot_gives(
                rhs,
                i,
                j,
                (self.n_cols - 1) as nat,
                #[trigger] out.at(i, j),
            )
        &&& self.n_cols == 0 ==> exists|zero: T| out == Grid::filled(self.n_rows, rhs.n_cols, zero)
    }

    /// The product of cell `(i, k)` of `self` and cell `(k, j)` of `rhs`, for
    /// a scalar type whose `*` does what `mul_spec` says.
    pub open spec fn term(self, rhs: Grid<T>, i: int, j: int, k: int) -> T {
        self.at(i, k).mul_spec(rhs.at(k, j))
    }

    /// The dot product of row `i` of `self` and column `j` of `rhs` over the
    /// indices `0..=k`, summed from the left, for a scalar type whose `+` and
    /// `*` do what `add_spec` and `mul_spec` say.
    pub open spec fn dot(self, rhs: Grid<T>, i: int, j: int, k: nat) -> T
        decreases k,
    {
        if k == 0 {
            self.term(rhs, i, j, 0)
        } else {
            self.dot(rhs, i, j, (k - 1) as nat).add_spec(self.term(rhs, i, j, k as int))
        }
    }

    /// The matrix product for a positive inner dimension and a scalar type
    /// whose `+` and `*` do what `add_spec` and `mul_spec` say: cell `(i, j)`
    /// is the dot product of row `i` of `self` and column `j` of `rhs`.
    pub open spec fn product(self, rhs: Grid<T>) -> Grid<T> {
        Grid {
            n_rows: self.n_rows,
            n_cols: rhs.n_cols,
            cells: Seq::new(
                self.n_rows * rhs.n_cols,
                |p: int|
                    self.dot(
                        rhs,
                        p / (rhs.n_cols as int),
                        p % (rhs.n_cols as int),
                        (self.n_cols - 1) as nat,
                    ),
            ),
        }
    }

    /// The matrix product also over an inner dimension of zero, where every
    /// cell holds `zero`, the sum of no terms.
    pub open spec fn product_from(self, rhs: Grid<T>, zero: T) -> Grid<T> {
        if self.n_cols == 0 {
            Grid::filled(self.n_rows, rhs.n_cols, zero)
        } else {
            self.product(rhs)
        }
    }

    /// For a scalar type whose `+` and `*` do what `add_spec` and `mul_spec`
    /// say: every product and every sum of the dot product of row `i` of
    /// `self` and column `j` of `rhs` over the indices `0..=k` meets
    /// `mul_req` or `add_req`. For the machine integers this says that
    /// nothing overflows.
    pub open spec fn dot_defined(self, rhs: Grid<T>, i: int, j: int, k: nat) -> bool
        decreases k,
    {
        &&& self.at(i, k as int).mul_req(rhs.at(k as int, j))
        &&& k > 0 ==> {
            &&& self.dot_defined(rhs, i, j, (k - 1) as nat)
            &&& self.dot(rhs, i, j, (k - 1) as nat).add_req(self.term(rhs, i, j, k as int))
        }
    }

    /// The inner dimensions agree, and every dot product of a row of `self`
    /// and a column of `rhs` is `dot_defined`.
    pub open spec fn product_defined(self, rhs: Grid<T>) -> bool {
        &&& self.wf()
        &&& rhs.wf()
        &&& self.n_cols == rhs.n_rows
        &&& forall|i: int, j: int|
            0 <= i < self.n_rows && 0 <= j < rhs.n_cols && self.n_cols > 0
                ==> #[trigger] self.dot_defined(rhs, i, j, (self.n_cols - 1) as nat)
    }

    /// If the dot product over `0..=n` is defined, so is the one over
    /// `0..=k` for any `k` below.
    pub proof fn lemma_dot_defined_prefix(self, rhs: Grid<T>, i: int, j: int, n: nat, k: nat)
        requires
            self.dot_defined(rhs, i, j, n),
            k <= n,
        ensures
            self.dot_defined(rhs, i, j, k),
        decreases n,
    {
        if k < n {
            self.lemma_dot_defined_prefix(rhs, i, j, (n - 1) as nat, k);
        }
    }

    /// Where the scalar type's `+` and `*` do what `add_spec` and `mul_spec`
    /// say, a dot product that is defined may be taken.
    pub proof fn lemma_dot_defined_req(self, rhs: Grid<T>, i: int, j: int, k: nat)
        requires
            T::obeys_add_spec(),
            T::obeys_mul_spec(),
            self.dot_defined(rhs, i, j, k),
        ensures
            self.dot_req(rhs, i, j, k),
        decreases k,
    {
        if k > 0 {
            self.lemma_dot_defined_req(rhs, i, j, (k - 1) as nat);
            assert forall|before: T, t: T|
                self.dot_gives(rhs, i, j, (k - 1) as nat, before) && call_ensures(
                    <T as Mul>::mul,
                    (self.at(i, k as int), rhs.at(k as int, j)),
                    t,
                ) implies #[trigger] call_requires(<T as Add>::add, (before, t)) by {
                self.lemma_dot_gives_dot(rhs, i, j, (k - 1) as nat, before);
                assert(before.add_req(t));
            }
        }
    }

    /// Where the scalar type's `+` and `*` do what `add_spec` and `mul_spec`
    /// say, a product that is defined may be taken.
    pub proof fn lemma_product_defined_req(self, rhs: Grid<T>)
        requires
            T::obeys_add_spec(),
            T::obeys_mul_spec(),
            self.product_defined(rhs),
        ensures
            self.product_req(rhs),
    {
        assert forall|i: int, j: int|
            0 <= i < self.n_rows && 0 <= j < rhs.n_cols && self.n_cols > 0
                implies #[trigger] self.dot_req(rhs, i, j, (self.n_cols - 1) as nat) by {
            assert(self.dot_defined(rhs, i, j, (self.n_cols - 1) as nat));
            self.lemma_dot_defined_req(rhs, i, j, (self.n_cols - 1) as nat);
        }
    }

    /// If the dot product over `0..=n` may be taken, so may the one over
    /// `0..=k` for any `k` below.
    pub proof fn lemma_dot_req_prefix(self, rhs: Grid<T>, i: int, j: int, n: nat, k: nat)
        requires
            self.dot_req(rhs, i, j, n),
            k <= n,
        ensures
            self.dot_req(rhs, i, j, k),
        decreases n,
    {
        if k < n {
            self.lemma_dot_req_prefix(rhs, i, j, (n - 1) as nat, k);
        }
    }

    /// Where the scalar type's `+` and `*` do what `add_spec` and `mul_spec`
    /// say, the dot product can only give `dot`.
    pub proof fn lemma_dot_gives_dot(self, rhs: Grid<T>, i: int, j: int, k: nat, r: T)
        requires
            T::obeys_add_spec(),
            T::obeys_mul_spec(),
            self.dot_gives(rhs, i, j, k, r),
        ensures
            r == self.dot(rhs, i, j, k),
        decreases k,
    {
        if k > 0 {
            let (before, t) = choose|before: T, t: T|
                {
                    &&& self.dot_gives(rhs, i, j, (k - 1) as nat, before)
                    &&& call_ensures(<T as Mul>::mul, (self.at(i, k as int), rhs.at(k as int, j)), t)
                    &&& #[trigger] call_ensures(<T as Add>::add, (before, t), r)
                };
            self.lemma_dot_gives_dot(rhs, i, j, (k - 1) as nat, before);
        }
    }

    /// Where the scalar type's `+` and `*` do what `add_spec` and `mul_spec`
    /// say, the product over a positive inner dimension can only give
    /// `product`.
    pub proof fn lemma_product_gives_product(self, rhs: Grid<T>, out: Grid<T>)
        requires
            T::obeys_add_spec(),
            T::obeys_mul_spec(),
            self.n_cols > 0,
            self.product_gives(rhs, out),
        ensures
            out == self.product(rhs),
    {
        let w = rhs.n_cols as int;
        let n = self.n_rows as int;
        assert forall|p: int| 0 <= p < n * w implies out.cells[p] == self.product(rhs).cells[p] by {
            assert(w > 0 && n > 0) by (nonlinear_arith)
                requires
                    0 <= p < n * w,
                    0 <= n,
                    0 <= w,
            ;
            let i = p / w;
            let j = p % w;
            vstd::arithmetic::div_mod::lemma_fundamental_div_mod(p, w);
            assert(w * i == i * w) by (nonlinear_arith);
            assert(0 <= i < n) by (nonlinear_arith)
                requires
                    p == i * w + j,
                    0 <= j < w,
                    0 <= p < n * w,
            ;
            assert(out.at(i, j) == out.cells[p]);
            self.lemma_dot_gives_dot(rhs, i, j, (self.n_cols - 1) as nat, out.at(i, j));
        }
        assert(out.cells =~= self.product(rhs).cells);
    }
}

/// `i * n_cols + j` is a valid flat index whenever `(i, j)` lies inside the
/// shape.
pub proof fn lemma_flat_index(i: int, j: int, n_rows: int, n_cols: int)
    requires
        0 <= i < n_rows,
        0 <= j < n_cols,
    ensures
        0 <= i * n_cols,
        0 <= i * n_cols + j < n_rows * n_cols,
        i * n_cols + n_cols <= n_rows * n_cols,
        (i * n_cols + j) / n_cols == i,
        (i * n_cols + j) % n_cols == j,
{
    assert(i * n_cols >= 0) by (nonlinear_arith)
        requires
            0 <= i,
            0 < n_cols,
    ;
    assert((i + 1) * n_cols <= n_rows * n_cols) by (nonlinear_arith)
        requires
            i + 1 <= n_rows,
            0 < n_cols,
    ;
    assert((i + 1) * n_cols == i * n_cols + n_cols) by (nonlinear_arith);
    vstd::arithmetic::div_mod::lemma_fundamental_div_mod_converse(i * n_cols + j, n_cols, i, j);
}

} // verus!
