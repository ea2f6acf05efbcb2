//! Associativity of the matrix product.
//!
//! The law is proved through a valuation: a function from the scalar type
//! into a type with a lawful `plus` and `times` that carries the sums and
//! products of the dot products over. For a scalar type with lawful
//! arithmetic the valuation is the identity; for a machine integer it is the
//! integer's value, and the arithmetic is carried over wherever it does not
//! overflow.
use crate::grid::{lemma_flat_index, Grid};
use core::ops::{Add, Mul};
use vstd::prelude::*;
use vstd::std_specs::ops::{AddSpec, MulSpec};

verus! {

/// `plus` is commutative and associative, `times` is associative and
/// distributes over `plus` from both sides.
pub open spec fn ring_laws<R>(plus: spec_fn(R, R) -> R, times: spec_fn(R, R) -> R) -> bool {
    &&& forall|x: R, y: R| #[trigger] plus(x, y) == plus(y, x)
    &&& forall|x: R, y: R, z: R| #[trigger] plus(plus(x, y), z) == plus(x, plus(y, z))
    &&& forall|x: R, y: R, z: R| #[trigger] times(times(x, y), z) == times(x, times(y, z))
    &&& forall|x: R, y: R, z: R| #[trigger] times(x, plus(y, z)) == plus(times(x, y), times(x, z))
    &&& forall|x: R, y: R, z: R| #[trigger] times(plus(x, y), z) == plus(times(x, z), times(y, z))
}

/// `val` carries every product and every sum that the dot products of
/// `a.product(b)` take over to `times` and `plus`.
pub open spec fn carried<T: Add<Output = T> + Mul<Output = T>, R>(
    a: Grid<T>,
    b: Grid<T>,
    val: spec_fn(T) -> R,
    plus: spec_fn(R, R) -> R,
    times: spec_fn(R, R) -> R,
) -> bool {
    forall|i: int, j: int, k: int|
        0 <= i < a.n_rows && 0 <= j < b.n_cols && 0 <= k < a.n_cols ==> {
            &&& val(#[trigger] a.term(b, i, j, k)) == times(val(a.at(i, k)), val(b.at(k, j)))
            &&& k > 0 ==> val(a.dot(b, i, j, k as nat)) == plus(
                val(a.dot(b, i, j, (k - 1) as nat)),
                val(a.term(b, i, j, k)),
            )
        }
}

/// `val` tells the cells of `x` from those of `y`: cells at the same place
/// with the same value are equal.
pub open spec fn told_apart<T, R>(x: Grid<T>, y: Grid<T>, val: spec_fn(T) -> R) -> bool {
    forall|p: int|
        0 <= p < x.cells.len() && val(#[trigger] x.cells[p]) == val(y.cells[p]) ==> x.cells[p]
            == y.cells[p]
}

/// The matrix product is associative: `(a * b) * c == a * (b * c)` for grids
/// whose shapes conform, with positive inner dimensions, where a valuation
/// into a type with lawful `plus` and `times` carries the arithmetic of the
/// four products over and tells the cells of the two results apart. Of the
/// scalar type's own `+` and `*` nothing is asked but on the values that the
/// four products take.
pub proof fn lemma_product_associative<T: Add<Output = T> + Mul<Output = T>, R>(
    a: Grid<T>,
    b: Grid<T>,
    c: Grid<T>,
    val: spec_fn(T) -> R,
    plus: spec_fn(R, R) -> R,
    times: spec_fn(R, R) -> R,
)
    requires
        a.wf(),
        b.wf(),
        c.wf(),
        a.n_cols == b.n_rows,
        b.n_cols == c.n_rows,
        a.n_cols > 0,
        b.n_cols > 0,
        ring_laws(plus, times),
        carried(a, b, val, plus, times),
        carried(a.product(b), c, val, plus, times),
        carried(b, c, val, plus, times),
        carried(a, b.product(c), val, plus, times),
        told_apart(a.product(b).product(c), a.product(b.product(c)), val),
    ensures
        a.product(b).product(c) == a.product(b.product(c)),
{
    let left = a.product(b).product(c);
    let right = a.product(b.product(c));
    let n = a.n_rows as int;
    let q = c.n_cols as int;
    assert forall|p: int| 0 <= p < n * q implies left.cells[p] == right.cells[p] by {
        assert(q > 0 && n > 0) by (nonlinear_arith)
            requires
                0 <= p < n * q,
                0 <= n,
                0 <= q,
        ;
        let i = p / q;
        let j = p % q;
        vstd::arithmetic::div_mod::lemma_fundamental_div_mod(p, q);
        assert(q * i == i * q) by (nonlinear_arith);
        assert(0 <= i < n) by (nonlinear_arith)
            requires
                p == i * q + j,
                0 <= j < q,
                0 <= p < n * q,
        ;
        lemma_cell_associative(a, b, c, i, j, val, plus, times);
        assert(val(left.cells[p]) == val(right.cells[p]));
    }
    assert(left.cells =~= right.cells);
}

/// The sum `f(0) + f(1) + .. + f(k)`, taken from the left.
spec fn sum_to<R>(plus: spec_fn(R, R) -> R, f: spec_fn(int) -> R, k: nat) -> R
    decreases k,
{
    if k == 0 {
        f(0)
    } else {
        plus(sum_to(plus, f, (k - 1) as nat), f(k as int))
    }
}

/// The values of the terms of the dot product of row `i` of `a` and column
/// `j` of `b`.
spec fn values<T, R>(
    a: Grid<T>,
    b: Grid<T>,
    i: int,
    j: int,
    val: spec_fn(T) -> R,
    times: spec_fn(R, R) -> R,
) -> spec_fn(int) -> R {
    |t: int| times(val(a.at(i, t)), val(b.at(t, j)))
}

/// `g` with its second argument fixed.
spec fn with_second<R>(g: spec_fn(int, int) -> R, k: int) -> spec_fn(int) -> R {
    |t: int| g(t, k)
}

/// `g` with its first argument fixed.
spec fn with_first<R>(g: spec_fn(int, int) -> R, t: int) -> spec_fn(int) -> R {
    |k: int| g(t, k)
}

/// The values of `a[i][t] * (b[t][k] * c[k][j])` as a function of `t` and
/// `k`.
spec fn triple<T, R>(
    a: Grid<T>,
    b: Grid<T>,
    c: Grid<T>,
    i: int,
    j: int,
    val: spec_fn(T) -> R,
    times: spec_fn(R, R) -> R,
) -> spec_fn(int, int) -> R {
    |t: int, k: int| times(val(a.at(i, t)), times(val(b.at(t, k)), val(c.at(k, j))))
}

/// The value of a dot product is the sum of the values of its terms.
proof fn lemma_dot_value<T: Add<Output = T> + Mul<Output = T>, R>(
    a: Grid<T>,
    b: Grid<T>,
    i: int,
    j: int,
    k: nat,
    val: spec_fn(T) -> R,
    plus: spec_fn(R, R) -> R,
    times: spec_fn(R, R) -> R,
)
    requires
        carried(a, b, val, plus, times),
        0 <= i < a.n_rows,
        0 <= j < b.n_cols,
        k < a.n_cols,
    ensures
        val(a.dot(b, i, j, k)) == sum_to(plus, values(a, b, i, j, val, times), k),
    decreases k,
{
    let t = a.term(b, i, j, k as int);
    assert(val(t) == times(val(a.at(i, k as int)), val(b.at(k as int, j))));
    if k > 0 {
        lemma_dot_value(a, b, i, j, (k - 1) as nat, val, plus, times);
    }
}

/// Sums of equal terms are equal.
proof fn lemma_sum_to_equal<R>(
    plus: spec_fn(R, R) -> R,
    f: spec_fn(int) -> R,
    g: spec_fn(int) -> R,
    k: nat,
)
    requires
        forall|t: int| 0 <= t <= k ==> #[trigger] f(t) == g(t),
    ensures
        sum_to(plus, f, k) == sum_to(plus, g, k),
    decreases k,
{
    if k > 0 {
        lemma_sum_to_equal(plus, f, g, (k - 1) as nat);
    }
}

/// A sum times `z` is the sum of the terms times `z`.
proof fn lemma_sum_to_times<R>(
    plus: spec_fn(R, R) -> R,
    times: spec_fn(R, R) -> R,
    f: spec_fn(int) -> R,
    z: R,
    h: spec_fn(int) -> R,
    k: nat,
)
    requires
        ring_laws(plus, times),
        forall|t: int| 0 <= t <= k ==> #[trigger] h(t) == times(f(t), z),
    ensures
        sum_to(plus, h, k) == times(sum_to(plus, f, k), z),
    decreases k,
{
    if k > 0 {
        lemma_sum_to_times(plus, times, f, z, h, (k - 1) as nat);
        let s = sum_to(plus, f, (k - 1) as nat);
        assert(times(plus(s, f(k as int)), z) == plus(times(s, z), times(f(k as int), z)));
    }
}

/// `z` times a sum is the sum of `z` times the terms.
proof fn lemma_times_sum_to<R>(
    plus: spec_fn(R, R) -> R,
    times: spec_fn(R, R) -> R,
    z: R,
    f: spec_fn(int) -> R,
    h: spec_fn(int) -> R,
    k: nat,
)
    requires
        ring_laws(plus, times),
        forall|t: int| 0 <= t <= k ==> #[trigger] h(t) == times(z, f(t)),
    ensures
        sum_to(plus, h, k) == times(z, sum_to(plus, f, k)),
    decreases k,
{
    if k > 0 {
        lemma_times_sum_to(plus, times, z, f, h, (k - 1) as nat);
        let s = sum_to(plus, f, (k - 1) as nat);
        assert(times(z, plus(s, f(k as int))) == plus(times(z, s), times(z, f(k as int))));
    }
}

/// The sum of the sums of two terms is the sum of the two sums.
proof fn lemma_sum_to_plus<R>(
    plus: spec_fn(R, R) -> R,
    times: spec_fn(R, R) -> R,
    f: spec_fn(int) -> R,
    g: spec_fn(int) -> R,
    h: spec_fn(int) -> R,
    k: nat,
)
    requires
        ring_laws(plus, times),
        forall|t: int| 0 <= t <= k ==> #[trigger] h(t) == plus(f(t), g(t)),
    ensures
        sum_to(plus, h, k) == plus(sum_to(plus, f, k), sum_to(plus, g, k)),
    decreases k,
{
    if k > 0 {
        lemma_sum_to_plus(plus, times, f, g, h, (k - 1) as nat);
        let sf = sum_to(plus, f, (k - 1) as nat);
        let sg = sum_to(plus, g, (k - 1) as nat);
        let x = f(k as int);
        let y = g(k as int);
        assert(plus(plus(sf, sg), plus(x, y)) == plus(sf, plus(sg, plus(x, y))));
        assert(plus(plus(sg, x), y) == plus(sg, plus(x, y)));
        assert(plus(sg, x) == plus(x, sg));
        assert(plus(plus(x, sg), y) == plus(x, plus(sg, y)));
        assert(plus(plus(sf, x), plus(sg, y)) == plus(sf, plus(x, plus(sg, y))));
    }
}

/// A double sum may be taken in either order: when `outer(k)` is the sum of
/// `g(t, k)` over `t` and `inner(t)` is the sum of `g(t, k)` over `k`, the
/// sum of `outer` is the sum of `inner`.
proof fn lemma_sum_to_exchange<R>(
    plus: spec_fn(R, R) -> R,
    times: spec_fn(R, R) -> R,
    g: spec_fn(int, int) -> R,
    outer: spec_fn(int) -> R,
    inner: spec_fn(int) -> R,
    l: nat,
    m: nat,
)
    requires
        ring_laws(plus, times),
        forall|k: int| 0 <= k <= l ==> #[trigger] outer(k) == sum_to(plus, with_second(g, k), m),
        forall|t: int| 0 <= t <= m ==> #[trigger] inner(t) == sum_to(plus, with_first(g, t), l),
    ensures
        sum_to(plus, outer, l) == sum_to(plus, inner, m),
    decreases l,
{
    if l == 0 {
        assert forall|t: int| 0 <= t <= m implies #[trigger] inner(t) == with_second(g, 0)(t) by {
            assert(sum_to(plus, with_first(g, t), 0) == with_first(g, t)(0));
        }
        lemma_sum_to_equal(plus, inner, with_second(g, 0), m);
    } else {
        let before = |t: int| sum_to(plus, with_first(g, t), (l - 1) as nat);
        lemma_sum_to_exchange(plus, times, g, outer, before, (l - 1) as nat, m);
        assert forall|t: int| 0 <= t <= m implies #[trigger] inner(t) == plus(
            before(t),
            with_second(g, l as int)(t),
        ) by {
            assert(sum_to(plus, with_first(g, t), l) == plus(
                sum_to(plus, with_first(g, t), (l - 1) as nat),
                with_first(g, t)(l as int),
            ));
        }
        lemma_sum_to_plus(plus, times, before, with_second(g, l as int), inner, m);
    }
}

/// Cell `(i, j)` of `(a * b) * c` has the value of cell `(i, j)` of
/// `a * (b * c)`.
proof fn lemma_cell_associative<T: Add<Output = T> + Mul<Output = T>, R>(
    a: Grid<T>,
    b: Grid<T>,
    c: Grid<T>,
    i: int,
    j: int,
    val: spec_fn(T) -> R,
    plus: spec_fn(R, R) -> R,
    times: spec_fn(R, R) -> R,
)
    requires
        a.wf(),
        b.wf(),
        c.wf(),
        a.n_cols == b.n_rows,
        b.n_cols == c.n_rows,
        a.n_cols > 0,
        b.n_cols > 0,
        0 <= i < a.n_rows,
        0 <= j < c.n_cols,
        ring_laws(plus, times),
        carried(a, b, val, plus, times),
        carried(a.product(b), c, val, plus, times),
        carried(b, c, val, plus, times),
        carried(a, b.product(c), val, plus, times),
    ensures
        val(a.product(b).dot(c, i, j, (b.n_cols - 1) as nat)) == val(
            a.dot(b.product(c), i, j, (a.n_cols - 1) as nat),
        ),
{
    let ab = a.product(b);
    let bc = b.product(c);
    let m = (a.n_cols - 1) as nat;
    let l = (b.n_cols - 1) as nat;
    let g = triple(a, b, c, i, j, val, times);
    let outer = values(ab, c, i, j, val, times);
    let inner = values(a, bc, i, j, val, times);
    assert forall|k: int| 0 <= k <= l implies #[trigger] outer(k) == sum_to(
        plus,
        with_second(g, k),
        m,
    ) by {
        lemma_flat_index(i, k, a.n_rows as int, b.n_cols as int);
        assert(ab.at(i, k) == a.dot(b, i, k, m));
        lemma_dot_value(a, b, i, k, m, val, plus, times);
        let z = val(c.at(k, j));
        let f = values(a, b, i, k, val, times);
        assert forall|t: int| 0 <= t <= m implies #[trigger] with_second(g, k)(t) == times(
            f(t),
            z,
        ) by {
            assert(times(times(val(a.at(i, t)), val(b.at(t, k))), z) == times(
                val(a.at(i, t)),
                times(val(b.at(t, k)), z),
            ));
        }
        lemma_sum_to_times(plus, times, f, z, with_second(g, k), m);
    }
    assert forall|t: int| 0 <= t <= m implies #[trigger] inner(t) == sum_to(
        plus,
        with_first(g, t),
        l,
    ) by {
        lemma_flat_index(t, j, b.n_rows as int, c.n_cols as int);
        assert(bc.at(t, j) == b.dot(c, t, j, l));
        lemma_dot_value(b, c, t, j, l, val, plus, times);
        lemma_times_sum_to(
            plus,
            times,
            val(a.at(i, t)),
            values(b, c, t, j, val, times),
            with_first(g, t),
            l,
        );
    }
    lemma_sum_to_exchange(plus, times, g, outer, inner, l, m);
    lemma_dot_value(ab, c, i, j, l, val, plus, times);
    lemma_dot_value(a, bc, i, j, m, val, plus, times);
}

/// The scalar type's `+` and `*` obey the ring laws on all its values.
pub open spec fn semiring_laws<T: Add<Output = T> + Mul<Output = T>>() -> bool {
    ring_laws(own_plus::<T>(), own_times::<T>())
}

/// The scalar type's own `+`.
pub open spec fn own_plus<T: Add<Output = T>>() -> spec_fn(T, T) -> T {
    |x: T, y: T| x.add_spec(y)
}

/// The scalar type's own `*`.
pub open spec fn own_times<T: Mul<Output = T>>() -> spec_fn(T, T) -> T {
    |x: T, y: T| x.mul_spec(y)
}

/// Every value as itself.
pub open spec fn itself<T>() -> spec_fn(T) -> T {
    |x: T| x
}

/// The matrix product is associative for a scalar type whose `+` and `*`
/// obey the ring laws on all its values: `(a * b) * c == a * (b * c)` for
/// grids whose shapes conform, with positive inner dimensions.
pub proof fn lemma_product_associative_lawful<T: Add<Output = T> + Mul<Output = T>>(
    a: Grid<T>,
    b: Grid<T>,
    c: Grid<T>,
)
    requires
        a.wf(),
        b.wf(),
        c.wf(),
        a.n_cols == b.n_rows,
        b.n_cols == c.n_rows,
        a.n_cols > 0,
        b.n_cols > 0,
        semiring_laws::<T>(),
    ensures
        a.product(b).product(c) == a.product(b.product(c)),
{
    lemma_product_associative(a, b, c, itself::<T>(), own_plus::<T>(), own_times::<T>());
}

/// The matrix product is associative over an inner dimension of zero:
/// `(a * b) * c == a * (b * c)` for grids whose shapes conform, where `zero`
/// is the sum of no terms, `zero + zero` is `zero`, and a cell that is
/// multiplied with `zero` gives `zero`.
pub proof fn lemma_product_associative_over_nothing<T: Add<Output = T> + Mul<Output = T>>(
    a: Grid<T>,
    b: Grid<T>,
    c: Grid<T>,
    zero: T,
)
    requires
        a.wf(),
        b.wf(),
        c.wf(),
        a.n_cols == b.n_rows,
        b.n_cols == c.n_rows,
        a.n_cols == 0 || b.n_cols == 0,
        zero.add_spec(zero) == zero,
        a.n_cols == 0 ==> forall|k: int, j: int|
            0 <= k < c.n_rows && 0 <= j < c.n_cols ==> zero.mul_spec(#[trigger] c.at(k, j)) == zero,
        b.n_cols == 0 ==> forall|i: int, t: int|
            0 <= i < a.n_rows && 0 <= t < a.n_cols ==> (#[trigger] a.at(i, t)).mul_spec(zero) == zero,
    ensures
        a.product_from(b, zero).product_from(c, zero) == a.product_from(
            b.product_from(c, zero),
            zero,
        ),
{
    let n = a.n_rows as int;
    let q = c.n_cols as int;
    let left = a.product_from(b, zero).product_from(c, zero);
    let right = a.product_from(b.product_from(c, zero), zero);
    let all_zero = Grid::filled(a.n_rows, c.n_cols, zero);
    if a.n_cols == 0 && b.n_cols > 0 {
        let ab = a.product_from(b, zero);
        assert forall|p: int| 0 <= p < n * q implies left.cells[p] == zero by {
            lemma_cell_of(p, n, q);
            lemma_dot_of_zero_row(ab, c, p / q, p % q, (b.n_cols - 1) as nat, zero);
        }
        assert(left.cells =~= all_zero.cells);
    } else if a.n_cols > 0 && b.n_cols == 0 {
        let bc = b.product_from(c, zero);
        assert forall|p: int| 0 <= p < n * q implies right.cells[p] == zero by {
            lemma_cell_of(p, n, q);
            lemma_dot_of_zero_column(a, bc, p / q, p % q, (a.n_cols - 1) as nat, zero);
        }
        assert(right.cells =~= all_zero.cells);
    }
}

/// The flat index `p` of a grid of `n` rows and `q` columns lies in row
/// `p / q` and column `p % q`.
proof fn lemma_cell_of(p: int, n: int, q: int)
    requires
        0 <= p < n * q,
        0 <= n,
        0 <= q,
    ensures
        0 <= p / q < n,
        0 <= p % q < q,
{
    assert(q > 0 && n > 0) by (nonlinear_arith)
        requires
            0 <= p < n * q,
            0 <= n,
            0 <= q,
    ;
    let i = p / q;
    let j = p % q;
    vstd::arithmetic::div_mod::lemma_fundamental_div_mod(p, q);
    assert(q * i == i * q) by (nonlinear_arith);
    assert(0 <= i < n) by (nonlinear_arith)
        requires
            p == i * q + j,
            0 <= j < q,
            0 <= p < n * q,
    ;
}

/// The dot product of a row of zeros and a column is zero.
proof fn lemma_dot_of_zero_row<T: Add<Output = T> + Mul<Output = T>>(
    z: Grid<T>,
    c: Grid<T>,
    i: int,
    j: int,
    k: nat,
    zero: T,
)
    requires
        z == Grid::filled(z.n_rows, z.n_cols, zero),
        z.n_cols == c.n_rows,
        0 <= i < z.n_rows,
        0 <= j < c.n_cols,
        k < z.n_cols,
        zero.add_spec(zero) == zero,
        forall|k: int, j: int|
            0 <= k < c.n_rows && 0 <= j < c.n_cols ==> zero.mul_spec(#[trigger] c.at(k, j)) == zero,
    ensures
        z.dot(c, i, j, k) == zero,
    decreases k,
{
    lemma_flat_index(i, k as int, z.n_rows as int, z.n_cols as int);
    assert(z.at(i, k as int) == zero);
    assert(zero.mul_spec(c.at(k as int, j)) == zero);
    if k > 0 {
        lemma_dot_of_zero_row(z, c, i, j, (k - 1) as nat, zero);
    }
}

/// The dot product of a row and a column of zeros is zero.
proof fn lemma_dot_of_zero_column<T: Add<Output = T> + Mul<Output = T>>(
    a: Grid<T>,
    z: Grid<T>,
    i: int,
    j: int,
    k: nat,
    zero: T,
)
    requires
        z == Grid::filled(z.n_rows, z.n_cols, zero),
        a.n_cols == z.n_rows,
        0 <= i < a.n_rows,
        0 <= j < z.n_cols,
        k < a.n_cols,
        zero.add_spec(zero) == zero,
        forall|i: int, t: int|
            0 <= i < a.n_rows && 0 <= t < a.n_cols ==> (#[trigger] a.at(i, t)).mul_spec(zero) == zero,
    ensures
        a.dot(z, i, j, k) == zero,
    decreases k,
{
    lemma_flat_index(k as int, j, z.n_rows as int, z.n_cols as int);
    assert(z.at(k as int, j) == zero);
    assert(a.at(i, k as int).mul_spec(zero) == zero);
    if k > 0 {
        lemma_dot_of_zero_column(a, z, i, j, (k - 1) as nat, zero);
    }
}

/// The sum of two integers.
pub open spec fn int_plus() -> spec_fn(int, int) -> int {
    |x: int, y: int| x + y
}

/// The product of two integers.
pub open spec fn int_times() -> spec_fn(int, int) -> int {
    |x: int, y: int| x * y
}

/// The integers obey the ring laws.
pub proof fn lemma_int_ring_laws()
    ensures
        ring_laws(int_plus(), int_times()),
{
    let plus = int_plus();
    let times = int_times();
    assert forall|x: int, y: int, z: int| #[trigger]
        times(times(x, y), z) == times(x, times(y, z)) by {
        assert((x * y) * z == x * (y * z)) by (nonlinear_arith);
    }
    assert forall|x: int, y: int, z: int| #[trigger]
        times(x, plus(y, z)) == plus(times(x, y), times(x, z)) by {
        assert(x * (y + z) == x * y + x * z) by (nonlinear_arith);
    }
    assert forall|x: int, y: int, z: int| #[trigger]
        times(plus(x, y), z) == plus(times(x, z), times(y, z)) by {
        assert((x + y) * z == x * z + y * z) by (nonlinear_arith);
    }
}

/// The value of an `i32`.
pub open spec fn i32_value() -> spec_fn(i32) -> int {
    |x: i32| x as int
}

/// Where the product of two `i32` grids is defined, nothing in it overflows,
/// so the integers' `+` and `*` carry it.
pub proof fn lemma_carried_i32(a: Grid<i32>, b: Grid<i32>)
    requires
        a.product_defined(b),
    ensures
        carried(a, b, i32_value(), int_plus(), int_times()),
{
    let val = i32_value();
    let plus = int_plus();
    let times = int_times();
    assert forall|i: int, j: int, k: int|
        0 <= i < a.n_rows && 0 <= j < b.n_cols && 0 <= k < a.n_cols implies {
        &&& val(#[trigger] a.term(b, i, j, k)) == times(val(a.at(i, k)), val(b.at(k, j)))
        &&& k > 0 ==> val(a.dot(b, i, j, k as nat)) == plus(
            val(a.dot(b, i, j, (k - 1) as nat)),
            val(a.term(b, i, j, k)),
        )
    } by {
        assert(a.dot_defined(b, i, j, (a.n_cols - 1) as nat));
        a.lemma_dot_defined_prefix(b, i, j, (a.n_cols - 1) as nat, k as nat);
        assert(a.at(i, k).mul_req(b.at(k, j)));
        if k > 0 {
            assert(a.dot(b, i, j, (k - 1) as nat).add_req(a.term(b, i, j, k)));
        }
    }
}

/// The matrix product of `i32` grids is associative wherever the four
/// products are defined, that is, wherever none of them overflows:
/// `(a * b) * c == a * (b * c)`.
pub proof fn lemma_product_associative_i32(a: Grid<i32>, b: Grid<i32>, c: Grid<i32>)
    requires
        a.n_cols > 0,
        b.n_cols > 0,
        a.product_defined(b),
        a.product(b).product_defined(c),
        b.product_defined(c),
        a.product_defined(b.product(c)),
    ensures
        a.product(b).product(c) == a.product(b.product(c)),
{
    lemma_int_ring_laws();
    lemma_carried_i32(a, b);
    lemma_carried_i32(a.product(b), c);
    lemma_carried_i32(b, c);
    lemma_carried_i32(a, b.product(c));
    lemma_product_associative(a, b, c, i32_value(), int_plus(), int_times());
}

/// The value of an `i64`.
pub open spec fn i64_value() -> spec_fn(i64) -> int {
    |x: i64| x as int
}

/// Where the product of two `i64` grids is defined, nothing in it overflows,
/// so the integers' `+` and `*` carry it.
pub proof fn lemma_carried_i64(a: Grid<i64>, b: Grid<i64>)
    requires
        a.product_defined(b),
    ensures
        carried(a, b, i64_value(), int_plus(), int_times()),
{
    let val = i64_value();
    let plus = int_plus();
    let times = int_times();
    assert forall|i: int, j: int, k: int|
        0 <= i < a.n_rows && 0 <= j < b.n_cols && 0 <= k < a.n_cols implies {
        &&& val(#[trigger] a.term(b, i, j, k)) == times(val(a.at(i, k)), val(b.at(k, j)))
        &&& k > 0 ==> val(a.dot(b, i, j, k as nat)) == plus(
            val(a.dot(b, i, j, (k - 1) as nat)),
            val(a.term(b, i, j, k)),
        )
    } by {
        assert(a.dot_defined(b, i, j, (a.n_cols - 1) as nat));
        a.lemma_dot_defined_prefix(b, i, j, (a.n_cols - 1) as nat, k as nat);
        assert(a.at(i, k).mul_req(b.at(k, j)));
        if k > 0 {
            assert(a.dot(b, i, j, (k - 1) as nat).add_req(a.term(b, i, j, k)));
        }
    }
}

/// The matrix product of `i64` grids is associative wherever the four
/// products are defined, that is, wherever none of them overflows:
/// `(a * b) * c == a * (b * c)`.
pub proof fn lemma_product_associative_i64(a: Grid<i64>, b: Grid<i64>, c: Grid<i64>)
    requires
        a.n_cols > 0,
        b.n_cols > 0,
        a.product_defined(b),
        a.product(b).product_defined(c),
        b.product_defined(c),
        a.product_defined(b.product(c)),
    ensures
        a.product(b).product(c) == a.product(b.product(c)),
{
    lemma_int_ring_laws();
    lemma_carried_i64(a, b);
    lemma_carried_i64(a.product(b), c);
    lemma_carried_i64(b, c);
    lemma_carried_i64(a, b.product(c));
    lemma_product_associative(a, b, c, i64_value(), int_plus(), int_times());
}

} // verus!
