//! Numerical differentiation on discrete index spaces.
//!
//! [`Differentiable`] describes any object with an indexed coordinate/value
//! lookup and a valid index range; [`Derivation`] computes a finite-difference
//! derivative of such an object along a chosen axis. The provided engine,
//! [`DiscreteDerivative`], uses a central difference with clamped one-sided
//! fallback: the two neighbours of the queried index along the axis are
//! clamped to the axis range, the physical step is the sum of the forward and
//! backward spacing, and the result is the value difference divided by that
//! step. Centrally this is second-order accurate; at a boundary the clamping
//! collapses one spacing to zero and the estimate degenerates to the
//! first-order one-sided difference.
//!
//! This module also fixes the row-major flat indexing of N-dimensional grids
//! ([`flat_index`], [`grid_size`]) used by the discrete field storage.

use vstd::prelude::*;

use crate::fields::scalar::DiscreteScalarField;
use crate::prelude::rational::{rat_div, rat_eqv, rat_linear, rat_sub, rat_wf, Rat};
use crate::prelude::{Addition, AlgebraField, Division, Subtraction};

verus! {

/// The number of points of a grid with the given per-axis extents: the
/// product of all extents (one for the empty shape).
pub open spec fn grid_size(shape: Seq<usize>) -> int
    decreases shape.len(),
{
    if shape.len() == 0 {
        1
    } else {
        grid_size(shape.drop_last()) * shape.last()
    }
}

/// The row-major flat position of the multi-index `idx` in a grid of the
/// given shape.
pub open spec fn flat_index(idx: Seq<usize>, shape: Seq<usize>) -> int
    decreases idx.len(),
{
    if idx.len() == 0 {
        0
    } else {
        flat_index(idx.drop_last(), shape.drop_last()) * shape.last() + idx.last()
    }
}

/// A grid with at least one point along every axis has at least one point.
pub proof fn lemma_grid_size_pos(shape: Seq<usize>)
    requires
        forall|k: int| 0 <= k < shape.len() ==> shape[k] >= 1,
    ensures
        grid_size(shape) >= 1,
    decreases shape.len(),
{
    if shape.len() > 0 {
        lemma_grid_size_pos(shape.drop_last());
        assert(grid_size(shape.drop_last()) * shape.last() >= 1) by (nonlinear_arith)
            requires
                grid_size(shape.drop_last()) >= 1,
                shape.last() >= 1,
        ;
    }
}

/// The size of a grid splits as the size of its first `k` axes times the
/// size of the rest.
pub proof fn lemma_grid_size_split(shape: Seq<usize>, k: int)
    requires
        0 <= k <= shape.len(),
    ensures
        grid_size(shape) == grid_size(shape.take(k)) * grid_size(shape.skip(k)),
    decreases shape.len(),
{
    if k == shape.len() {
        assert(shape.take(k) =~= shape);
        assert(shape.skip(k).len() == 0);
    } else {
        let dl = shape.drop_last();
        lemma_grid_size_split(dl, k);
        assert(dl.take(k) =~= shape.take(k));
        assert(shape.skip(k).drop_last() =~= dl.skip(k));
        assert(shape.skip(k).last() == shape.last());
        assert(grid_size(shape.skip(k)) == grid_size(dl.skip(k)) * shape.last());
        assert(grid_size(shape) == (grid_size(shape.take(k)) * grid_size(dl.skip(k)))
            * shape.last()) by (nonlinear_arith)
            requires
                grid_size(shape) == grid_size(dl) * shape.last(),
                grid_size(dl) == grid_size(shape.take(k)) * grid_size(dl.skip(k)),
        ;
        assert((grid_size(shape.take(k)) * grid_size(dl.skip(k))) * shape.last() == grid_size(
            shape.take(k),
        ) * (grid_size(dl.skip(k)) * shape.last())) by (nonlinear_arith);
    }
}

/// A valid multi-index maps to a flat position inside the grid.
pub proof fn lemma_flat_index_bounds(idx: Seq<usize>, shape: Seq<usize>)
    requires
        idx.len() == shape.len(),
        forall|k: int| 0 <= k < idx.len() ==> idx[k] < shape[k],
    ensures
        0 <= flat_index(idx, shape) < grid_size(shape),
    decreases idx.len(),
{
    if idx.len() > 0 {
        lemma_flat_index_bounds(idx.drop_last(), shape.drop_last());
        let f = flat_index(idx.drop_last(), shape.drop_last());
        let g = grid_size(shape.drop_last());
        assert(0 <= f * (shape.last() as int) + (idx.last() as int) < g * (shape.last() as int))
            by (nonlinear_arith)
            requires
                0 <= f < g,
                0 <= (idx.last() as int) < (shape.last() as int),
        ;
    }
}

/// Computes the row-major flat position of `idx` in a grid of the given
/// shape. `total` is any number of stored points at least as large as the
/// grid size; it bounds the intermediate products.
pub fn flat_of<const N: usize>(idx: [usize; N], shape: [usize; N], total: usize) -> (r: usize)
    requires
        forall|k: int| 0 <= k < N ==> idx@[k] < shape@[k],
        grid_size(shape@) <= total as int,
    ensures
        r as int == flat_index(idx@, shape@),
{
    proof {
        assert(idx@.take(0) =~= Seq::<usize>::empty());
        assert(shape@.take(0) =~= Seq::<usize>::empty());
    }
    let mut f: usize = 0;
    let mut k: usize = 0;
    while k < N
        invariant
            k <= N,
            idx@.len() == N && shape@.len() == N,
            forall|j: int| 0 <= j < N ==> idx@[j] < shape@[j],
            grid_size(shape@) <= total as int,
            f as int == flat_index(idx@.take(k as int), shape@.take(k as int)),
            (f as int) < grid_size(shape@.take(k as int)),
        decreases N - k,
    {
        proof {
            let ki = k as int;
            assert(idx@.take(ki + 1).drop_last() =~= idx@.take(ki));
            assert(shape@.take(ki + 1).drop_last() =~= shape@.take(ki));
            assert(forall|j: int|
                0 <= j < idx@.take(ki + 1).len() ==> #[trigger] idx@.take(ki + 1)[j]
                    < shape@.take(ki + 1)[j]);
            lemma_flat_index_bounds(idx@.take(ki + 1), shape@.take(ki + 1));
            lemma_grid_size_split(shape@, ki + 1);
            assert(forall|j: int|
                0 <= j < shape@.skip(ki + 1).len() ==> #[trigger] shape@.skip(ki + 1)[j] >= 1);
            lemma_grid_size_pos(shape@.skip(ki + 1));
            assert(grid_size(shape@.take(ki + 1)) <= grid_size(shape@)) by (nonlinear_arith)
                requires
                    grid_size(shape@) == grid_size(shape@.take(ki + 1)) * grid_size(
                        shape@.skip(ki + 1),
                    ),
                    grid_size(shape@.skip(ki + 1)) >= 1,
                    grid_size(shape@.take(ki + 1)) > 0,
            ;
        }
        f = f * shape[k] + idx[k];
        k += 1;
    }
    proof {
        assert(idx@.take(N as int) =~= idx@);
        assert(shape@.take(N as int) =~= shape@);
    }
    f
}

/// Any object that is differentiable must implement this: an indexed
/// coordinate lookup, an indexed value lookup, and the valid index range.
pub trait Differentiable {
    /// The input of the differentiable object. For discrete grids this is
    /// the (multi-)index of a sample.
    type Input;

    /// The space (the X in f: X -> Y) of the differentiable object. For
    /// analytical functions this equals `Self::Input`.
    type Space;

    /// The singular coordinate type: one component of the space.
    type Coordinate: AlgebraField;

    /// The resulting value (the Y in f: X -> Y); it must support the
    /// difference quotient.
    type Value: Subtraction + Division<Self::Coordinate> + Copy;

    /// Admits the inputs on which the coordinate lookup is defined.
    spec fn coord_req(&self, inp: Self::Input) -> bool;

    /// Relates an input to its coordinates.
    spec fn coord_ens(&self, inp: Self::Input, r: Self::Space) -> bool;

    /// Admits the inputs on which the value lookup is defined.
    spec fn value_req(&self, inp: Self::Input) -> bool;

    /// Relates an input to the value sampled there.
    spec fn value_ens(&self, inp: Self::Input, r: Self::Value) -> bool;

    /// Admits the states in which the input range is defined.
    spec fn input_range_req(&self) -> bool;

    /// Relates the object to its inclusive (minimum, maximum) input range.
    spec fn input_range_ens(&self, r: (Self::Input, Self::Input)) -> bool;

    /// The coordinates at the input.
    fn coord(&self, inp: Self::Input) -> (r: Self::Space)
        requires
            self.coord_req(inp),
        ensures
            self.coord_ens(inp, r),
    ;

    /// The value at the input.
    fn value(&self, inp: Self::Input) -> (r: Self::Value)
        requires
            self.value_req(inp),
        ensures
            self.value_ens(inp, r),
    ;

    /// The valid input range, as an inclusive (minimum, maximum) pair.
    fn input_range(&self) -> (r: (Self::Input, Self::Input))
        requires
            self.input_range_req(),
        ensures
            self.input_range_ens(r),
    ;
}

/// Base derivation trait: computes the derivative of a [`Differentiable`]
/// object at an input, along the axis `nth` when the index space has more
/// than one axis.
pub trait Derivation<I: Differentiable, const D: usize> {
    /// The output of the derivation.
    type Output;

    /// Admits the (input, index, axis) triples the derivation is defined on.
    spec fn derivate_req(&self, input: I, coord: I::Input, nth: Option<usize>) -> bool;

    /// Relates the (input, index, axis) triple to the derivation result.
    spec fn derivate_ens(&self, input: I, coord: I::Input, nth: Option<usize>, r: Self::Output) -> bool;

    /// The derivation itself.
    fn derivate_at(&self, input: I, coord: I::Input, nth: Option<usize>) -> (r: Self::Output)
        requires
            self.derivate_req(input, coord, nth),
        ensures
            self.derivate_ens(input, coord, nth, r),
    ;
}

/// The axis a derivation differentiates along: implicit (and equal to the
/// only axis) when the index space is one-dimensional, the caller's `nth`
/// otherwise. `None` means the caller omitted a mandatory axis selector.
pub open spec fn axis_choice(nth: Option<usize>, dim: int) -> Option<int> {
    if dim == 1 {
        Some(0int)
    } else {
        match nth {
            Some(n) => Some(n as int),
            None => None,
        }
    }
}

/// The multi-index `idx` with the component along axis `n` incremented by
/// one, clamped to the inclusive maximum `hi`.
pub open spec fn step_up(idx: Seq<usize>, n: int, hi: int) -> Seq<usize> {
    if (idx[n] as int) < hi {
        idx.update(n, (idx[n] + 1) as usize)
    } else {
        idx
    }
}

/// The multi-index `idx` with the component along axis `n` decremented by
/// one, clamped to the inclusive minimum zero.
pub open spec fn step_down(idx: Seq<usize>, n: int) -> Seq<usize> {
    if idx[n] > 0 {
        idx.update(n, (idx[n] - 1) as usize)
    } else {
        idx
    }
}

/// Discrete derivation that performs a clamped central finite difference on
/// a whole discrete space.
#[derive(Debug, Copy, Clone, PartialEq, Eq, Structural)]
pub struct DiscreteDerivative;

impl<T: AlgebraField, V: Subtraction + Division<T> + Copy, const N: usize>
    Derivation<DiscreteScalarField<T, V, N>, N> for DiscreteDerivative {
    type Output = Option<V>;

    /// Defined whenever the axis is available (implicit for one axis,
    /// otherwise given by `nth`) and the clamped difference quotient along
    /// it admits its operations; with more than one axis and no selector,
    /// always defined (and the result is empty).
    open spec fn derivate_req(
        &self,
        input: DiscreteScalarField<T, V, N>,
        coord: [usize; N],
        nth: Option<usize>,
    ) -> bool {
        match axis_choice(nth, N as int) {
            Some(n) => input.derivative_req_along(coord@, n),
            None => true,
        }
    }

    /// The result is the clamped central finite difference along the chosen
    /// axis, or nothing when more than one axis exists and the mandatory
    /// selector was omitted.
    open spec fn derivate_ens(
        &self,
        input: DiscreteScalarField<T, V, N>,
        coord: [usize; N],
        nth: Option<usize>,
        r: Option<V>,
    ) -> bool {
        match axis_choice(nth, N as int) {
            Some(n) => input.derivative_ens_along(coord@, n, r),
            None => r is None,
        }
    }

    fn derivate_at(
        &self,
        input: DiscreteScalarField<T, V, N>,
        coord: [usize; N],
        nth: Option<usize>,
    ) -> (r: Option<V>) {
        let n: usize = if N == 1 {
            0
        } else {
            match nth {
                Some(m) => m,
                None => {
                    return None;
                },
            }
        };
        let (lo, hi) = input.input_range();
        let mut a = coord;
        if a[n] < hi[n] {
            a[n] = a[n] + 1;
        }
        let mut b = coord;
        if b[n] > lo[n] {
            b[n] = b[n] - 1;
        }
        proof {
            assert(a@ =~= step_up(coord@, n as int, input.shape@[n as int] - 1));
            assert(b@ =~= step_down(coord@, n as int));
            assert(input.valid_index(a@));
            assert(input.valid_index(b@));
        }
        let ac = input.coord(a);
        let bc = input.coord(b);
        let mc = input.coord(coord);
        let h1 = ac[n].sub(mc[n]);
        let h2 = mc[n].sub(bc[n]);
        let h = h1.add(h2);
        let va = input.value(a);
        let vb = input.value(b);
        let dv = va.sub(vb);
        Some(dv.div(h))
    }
}

/// Law: the finite difference along an axis of a grid function constant
/// along that axis is zero everywhere along that axis.
pub proof fn lemma_derivative_of_constant_axis<const N: usize>(
    engine: DiscreteDerivative,
    g: DiscreteScalarField<Rat, Rat, N>,
    coord: [usize; N],
    nth: Option<usize>,
    n: int,
    r: Option<Rat>,
)
    requires
        axis_choice(nth, N as int) == Some(n),
        engine.derivate_req(g, coord, nth),
        engine.derivate_ens(g, coord, nth, r),
        forall|i1: Seq<usize>, i2: Seq<usize>|
            (g.valid_index(i1) && g.valid_index(i2) && (forall|k: int|
                0 <= k < N && k != n ==> i1[k] == i2[k])) ==> rat_eqv(
                #[trigger] g.value_at(i1),
                #[trigger] g.value_at(i2),
            ),
    ensures
        r matches Some(v) && rat_eqv(v, Rat { num: 0, den: 1 }),
{
    let idx = coord@;
    let a = step_up(idx, n, g.shape@[n] - 1);
    let b = step_down(idx, n);
    let xa = g.coord_axis(a, n);
    let xm = g.coord_axis(idx, n);
    let xb = g.coord_axis(b, n);
    let va = g.value_at(a);
    let vb = g.value_at(b);
    let (h1, h2, h, dv, v) = choose|h1: Rat, h2: Rat, h: Rat, dv: Rat, v: Rat|
        #![auto]
        xa.sub_ens(xm, h1) && xm.sub_ens(xb, h2) && h1.add_ens(h2, h) && va.sub_ens(vb, dv)
            && dv.div_ens(h, v) && r == Some(v);
    assert(g.valid_index(a));
    assert(g.valid_index(b));
    assert(forall|k: int| 0 <= k < N && k != n ==> a[k] == b[k]);
    assert(rat_eqv(va, vb));
    assert(dv == rat_sub(va, vb));
    assert(dv.num == 0);
    assert(v == rat_div(dv, h));
    assert(dv.num * h.den == 0) by (nonlinear_arith)
        requires
            dv.num == 0,
    ;
    assert(v.num == 0);
    assert(0 * v.den == 0) by (nonlinear_arith);
    assert(rat_eqv(v, Rat { num: 0, den: 1 }));
}

/// Law: the finite difference of a grid sampling the linear function
/// `f(x) == c * x + d` on a one-dimensional grid equals the slope `c`
/// exactly — at interior points via the central difference, at boundary
/// points via the clamped one-sided difference.
#[verifier::rlimit(100)]
pub proof fn lemma_derivative_of_linear_grid(
    engine: DiscreteDerivative,
    g: DiscreteScalarField<Rat, Rat, 1>,
    coord: [usize; 1],
    nth: Option<usize>,
    c: Rat,
    d: Rat,
    r: Option<Rat>,
)
    requires
        engine.derivate_req(g, coord, nth),
        engine.derivate_ens(g, coord, nth, r),
        rat_wf(c),
        rat_wf(d),
        forall|i: Seq<usize>| #[trigger]
            g.valid_index(i) ==> rat_wf(g.coord_axis(i, 0)) && rat_wf(g.value_at(i)),
        forall|i: Seq<usize>| #[trigger]
            g.valid_index(i) ==> rat_linear(g.value_at(i), c, g.coord_axis(i, 0), d),
    ensures
        r matches Some(v) && rat_eqv(v, c),
{
    let idx = coord@;
    let a = step_up(idx, 0, g.shape@[0] - 1);
    let b = step_down(idx, 0);
    let xa = g.coord_axis(a, 0);
    let xm = g.coord_axis(idx, 0);
    let xb = g.coord_axis(b, 0);
    let va = g.value_at(a);
    let vb = g.value_at(b);
    let (h1, h2, h, dv, v) = choose|h1: Rat, h2: Rat, h: Rat, dv: Rat, v: Rat|
        #![auto]
        xa.sub_ens(xm, h1) && xm.sub_ens(xb, h2) && h1.add_ens(h2, h) && va.sub_ens(vb, dv)
            && dv.div_ens(h, v) && r == Some(v);
    assert(g.valid_index(idx));
    assert(g.valid_index(a));
    assert(g.valid_index(b));
    // the operations along the way are admitted, so every cast is exact
    assert(xa.sub_req(xm));
    assert(xm.sub_req(xb));
    assert(h1.add_req(h2));
    assert(dv.div_req(h));
    let an = xa.num as int;
    let ad = xa.den as int;
    let mn = xm.num as int;
    let md = xm.den as int;
    let bn = xb.num as int;
    let bd = xb.den as int;
    let pn = va.num as int;
    let pd = va.den as int;
    let qn = vb.num as int;
    let qd = vb.den as int;
    let cn = c.num as int;
    let cd = c.den as int;
    let dn = d.num as int;
    let dd = d.den as int;
    assert(h1.num == an * md - mn * ad && h1.den == ad * md);
    assert(h2.num == mn * bd - bn * md && h2.den == md * bd);
    assert(h.num == h1.num * h2.den + h2.num * h1.den && h.den == h1.den * h2.den);
    assert(dv.num == pn * qd - qn * pd && dv.den == pd * qd);
    assert(rat_linear(va, c, xa, d));
    assert(rat_linear(vb, c, xb, d));
    // the division branches give the quotient fields in closed form
    if h.num > 0 {
        assert(v.num == dv.num * h.den && v.den == dv.den * h.num);
        assert(v.num == (pn * qd - qn * pd) * (h.den as int) && v.den == (pd * qd) * (
        h.num as int));
    } else {
        assert(v.num == -(dv.num * h.den) && v.den == -(dv.den * h.num));
        assert(v.num == -((pn * qd - qn * pd) * (h.den as int)) && v.den == -((pd * qd) * (
        h.num as int)));
    }
    lemma_linear_core(
        an, ad, mn, md, bn, bd,
        pn, pd, qn, qd,
        cn, cd, dn, dd,
        h.num as int, h.den as int, v.num as int, v.den as int,
    );
    assert(rat_eqv(v, c));
}

/// Distributing a difference over a product.
proof fn lemma_mul_dist_sub(x: int, y: int, z: int)
    ensures
        (x - y) * z == x * z - y * z,
{
    assert((x - y) * z == x * z - y * z) by (nonlinear_arith);
}

/// Distributing a sum over a product.
proof fn lemma_mul_dist_add(x: int, y: int, z: int)
    ensures
        (x + y) * z == x * z + y * z,
{
    assert((x + y) * z == x * z + y * z) by (nonlinear_arith);
}

/// Distributing a difference over a product, from the left.
proof fn lemma_mul_dist_sub_left(x: int, u: int, w: int)
    ensures
        x * (u - w) == x * u - x * w,
{
    assert(x * (u - w) == x * u - x * w) by (nonlinear_arith);
}

/// Regrouping a product of two pairs.
proof fn lemma_mul4_rearrange(a: int, b: int, c: int, d: int)
    ensures
        (a * b) * (c * d) == (a * d) * (c * b),
        (a * b) * (c * d) == (a * c) * (d * b),
        (a * b) * (c * d) == (a * c) * (b * d),
{
    assert((a * b) * (c * d) == (a * d) * (c * b) && (a * b) * (c * d) == (a * c) * (d * b) && (a
        * b) * (c * d) == (a * c) * (b * d)) by (nonlinear_arith);
}

/// Multiplying both sides of an equation preserves it.
proof fn lemma_mul_congruence(x: int, y: int, z: int)
    requires
        x == y,
    ensures
        x * z == y * z,
{
}

/// Pulling the last factor of a six-factor product to the outside.
proof fn lemma_regroup_outer(p: int, c: int, x: int, d: int, q: int, y: int)
    ensures
        (p * (c * (x * d))) * (q * y) == ((p * q) * (c * (x * y))) * d,
{
    assert((p * (c * (x * d))) * (q * y) == ((p * q) * (c * (x * y))) * d) by (nonlinear_arith);
}

/// Regrouping the slope term of a scaled linearity equation.
proof fn lemma_regroup_slope(c: int, a: int, d: int, p: int, q: int, y: int)
    ensures
        (((c * a) * d) * p) * (q * y) == (c * ((p * q) * (a * y))) * d,
{
    assert((((c * a) * d) * p) * (q * y) == (c * ((p * q) * (a * y))) * d) by (nonlinear_arith);
}

/// Regrouping the offset term of a scaled linearity equation.
proof fn lemma_regroup_offset(d: int, c: int, x: int, p: int, q: int, y: int)
    ensures
        ((d * (c * x)) * p) * (q * y) == (d * c) * ((x * y) * (p * q)),
{
    assert(((d * (c * x)) * p) * (q * y) == (d * c) * ((x * y) * (p * q))) by (nonlinear_arith);
}

/// Regrouping the numerator of the difference quotient.
proof fn lemma_regroup_quotient(s: int, a: int, m: int, b: int, c: int)
    ensures
        (s * ((a * m) * (m * b))) * c == (s * (c * (a * b))) * (m * m),
{
    assert((s * ((a * m) * (m * b))) * c == (s * (c * (a * b))) * (m * m)) by (nonlinear_arith);
}

/// Regrouping the denominator of the difference quotient.
proof fn lemma_regroup_denominator(c: int, p: int, m: int, e: int)
    ensures
        c * (p * (m * e)) == (c * (p * e)) * m,
{
    assert(c * (p * (m * e)) == (c * (p * e)) * m) by (nonlinear_arith);
}

/// Negation moves out of a product.
proof fn lemma_mul_neg(x: int, y: int)
    ensures
        (-x) * y == -(x * y),
        x * (-y) == -(x * y),
{
    assert((-x) * y == -(x * y) && x * (-y) == -(x * y)) by (nonlinear_arith);
}

/// Integer-level core of the linear-grid law: if two samples `pn/pd` and
/// `qn/qd` lie exactly on the line with slope `cn/cd` and offset `dn/dd` at
/// the coordinates `an/ad` and `bn/bd`, then their difference quotient over
/// the telescoped step equals the slope.
proof fn lemma_linear_core(
    an: int, ad: int, mn: int, md: int, bn: int, bd: int,
    pn: int, pd: int, qn: int, qd: int,
    cn: int, cd: int, dn: int, dd: int,
    hn: int, hd: int, vn: int, vd: int,
)
    requires
        dd > 0,
        pn * (cd * (ad * dd)) == ((cn * an) * dd + dn * (cd * ad)) * pd,
        qn * (cd * (bd * dd)) == ((cn * bn) * dd + dn * (cd * bd)) * qd,
        hn == (an * md - mn * ad) * (md * bd) + (mn * bd - bn * md) * (ad * md),
        hd == (ad * md) * (md * bd),
        (vn == (pn * qd - qn * pd) * hd && vd == (pd * qd) * hn) || (vn == -((pn * qd - qn * pd)
            * hd) && vd == -((pd * qd) * hn)),
    ensures
        vn * cd == cn * vd,
{
    broadcast use vstd::arithmetic::mul::lemma_mul_is_commutative;

    let ea = an * bd - bn * ad;
    let s = pn * qd - qn * pd;
    // the physical step telescopes: both spacings sum to the full spacing
    lemma_mul_dist_sub(an * md, mn * ad, md * bd);
    lemma_mul4_rearrange(an, md, md, bd);
    lemma_mul_dist_sub(mn * bd, bn * md, ad * md);
    lemma_mul4_rearrange(mn, bd, ad, md);
    lemma_mul4_rearrange(bn, md, ad, md);
    assert(hn == (an * bd) * (md * md) - (bn * ad) * (md * md));
    lemma_mul_dist_sub(an * bd, bn * ad, md * md);
    assert(hn == ea * (md * md));
    // scale the first linearity equation by the second denominator pair
    lemma_mul_congruence(
        pn * (cd * (ad * dd)),
        ((cn * an) * dd + dn * (cd * ad)) * pd,
        qd * bd,
    );
    lemma_regroup_outer(pn, cd, ad, dd, qd, bd);
    lemma_mul_dist_add((cn * an) * dd, dn * (cd * ad), pd);
    lemma_mul_dist_add(((cn * an) * dd) * pd, (dn * (cd * ad)) * pd, qd * bd);
    lemma_regroup_slope(cn, an, dd, pd, qd, bd);
    lemma_regroup_offset(dn, cd, ad, pd, qd, bd);
    assert(((pn * qd) * (cd * (ad * bd))) * dd == (cn * ((pd * qd) * (an * bd))) * dd + (dn * cd)
        * ((ad * bd) * (pd * qd)));
    // scale the second linearity equation by the first denominator pair
    lemma_mul_congruence(
        qn * (cd * (bd * dd)),
        ((cn * bn) * dd + dn * (cd * bd)) * qd,
        pd * ad,
    );
    lemma_regroup_outer(qn, cd, bd, dd, pd, ad);
    lemma_mul_dist_add((cn * bn) * dd, dn * (cd * bd), qd);
    lemma_mul_dist_add(((cn * bn) * dd) * qd, (dn * (cd * bd)) * qd, pd * ad);
    lemma_regroup_slope(cn, bn, dd, qd, pd, ad);
    lemma_regroup_offset(dn, cd, bd, qd, pd, ad);
    assert(cd * (bd * ad) == cd * (ad * bd));
    assert(qd * pd == pd * qd);
    assert((bd * ad) * (qd * pd) == (ad * bd) * (pd * qd));
    assert(((qn * pd) * (cd * (ad * bd))) * dd == (cn * ((pd * qd) * (bn * ad))) * dd + (dn * cd)
        * ((ad * bd) * (pd * qd)));
    // subtract: the offset terms cancel
    assert(((pn * qd) * (cd * (ad * bd))) * dd - ((qn * pd) * (cd * (ad * bd))) * dd == (cn * ((pd
        * qd) * (an * bd))) * dd - (cn * ((pd * qd) * (bn * ad))) * dd);
    lemma_mul_dist_sub((pn * qd) * (cd * (ad * bd)), (qn * pd) * (cd * (ad * bd)), dd);
    lemma_mul_dist_sub(pn * qd, qn * pd, cd * (ad * bd));
    lemma_mul_dist_sub(cn * ((pd * qd) * (an * bd)), cn * ((pd * qd) * (bn * ad)), dd);
    lemma_mul_dist_sub_left(cn, (pd * qd) * (an * bd), (pd * qd) * (bn * ad));
    lemma_mul_dist_sub_left(pd * qd, an * bd, bn * ad);
    assert((s * (cd * (ad * bd))) * dd == (cn * ((pd * qd) * ea)) * dd);
    // cancel the (positive) offset denominator
    assert(dd * (s * (cd * (ad * bd))) == dd * (cn * ((pd * qd) * ea)));
    vstd::arithmetic::mul::lemma_mul_equality_converse(
        dd,
        s * (cd * (ad * bd)),
        cn * ((pd * qd) * ea),
    );
    assert(s * (cd * (ad * bd)) == cn * ((pd * qd) * ea));
    // divide by the step and compare against the slope
    lemma_regroup_quotient(s, ad, md, bd, cd);
    assert((s * hd) * cd == (cn * ((pd * qd) * ea)) * (md * md));
    lemma_regroup_denominator(cn, pd * qd, md * md, ea);
    assert(ea * (md * md) == (md * md) * ea);
    assert(cn * ((pd * qd) * hn) == (cn * ((pd * qd) * ea)) * (md * md));
    if vn == s * hd && vd == (pd * qd) * hn {
        assert(vn * cd == cn * vd);
    } else {
        assert(vn == -(s * hd) && vd == -((pd * qd) * hn));
        lemma_mul_neg(s * hd, cd);
        lemma_mul_neg(cn, (pd * qd) * hn);
        assert(vn * cd == -((s * hd) * cd));
        assert(cn * vd == -(cn * ((pd * qd) * hn)));
        assert(vn * cd == cn * vd);
    }
}

} // verus!
