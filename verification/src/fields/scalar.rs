//! Scalar fields: the discrete grid-sampled scalar field and the always-zero
//! scalar field.

use vstd::prelude::*;

use crate::fields::vector::ZeroVectorField;
use crate::fields::{ElementField, ScalarField};
use crate::prelude::derivative::{
    flat_index, flat_of, grid_size, lemma_flat_index_bounds, step_down, step_up, Differentiable,
};
use crate::prelude::{Addition, AlgebraField, Division, Subtraction, Zero};

verus! {

/// Base N-dimensional discrete scalar field: parallel coordinate and value
/// storage over an N-dimensional shape, with a row-major flat index. `T` is
/// the coordinate scalar, `V` the sampled value type.
#[derive(Clone)]
pub struct DiscreteScalarField<T: AlgebraField, V, const N: usize> {
    /// Coordinates of the scalar field.
    pub coords: Vec<[T; N]>,
    /// Values of the scalar field.
    pub data: Vec<V>,
    /// Shape of the scalar field.
    pub shape: [usize; N],
}

impl<T: AlgebraField, V, const N: usize> DiscreteScalarField<T, V, N> {
    /// Well-formedness: the coordinate and value storage both hold exactly
    /// one entry per grid point, and every axis has at least one point.
    pub open spec fn wf(self) -> bool {
        &&& self.coords@.len() == grid_size(self.shape@)
        &&& self.data@.len() == grid_size(self.shape@)
        &&& forall|k: int| 0 <= k < N ==> self.shape@[k] >= 1
    }

    /// Whether `idx` is a valid multi-index into this grid.
    pub open spec fn valid_index(self, idx: Seq<usize>) -> bool {
        idx.len() == N && forall|k: int| 0 <= k < N ==> idx[k] < self.shape@[k]
    }

    /// The coordinate component along axis `n` of the grid point at `idx`.
    pub open spec fn coord_axis(self, idx: Seq<usize>, n: int) -> T {
        self.coords@[flat_index(idx, self.shape@)]@[n]
    }

    /// The value sampled at the grid point at `idx`.
    pub open spec fn value_at(self, idx: Seq<usize>) -> V {
        self.data@[flat_index(idx, self.shape@)]
    }

    /// Samples a continuous field onto the given grid: the resulting discrete
    /// field stores, for each grid point, exactly the value of `f` at that
    /// point's coordinate, so reading `data` back reproduces the continuous
    /// field's values.
    pub fn sample<F: ElementField<T, V, N, Domain = [T; N]>>(
        f: &F,
        coords: Vec<[T; N]>,
        shape: [usize; N],
    ) -> (r: Self)
        requires
            forall|i: int| 0 <= i < coords@.len() ==> f.value_req(#[trigger] coords@[i]),
        ensures
            r.coords@ == coords@,
            r.shape == shape,
            r.data@.len() == coords@.len(),
            forall|i: int| 0 <= i < coords@.len() ==> f.value_ens(coords@[i], #[trigger] r.data@[i]),
    {
        let mut data: Vec<V> = Vec::new();
        let mut i: usize = 0;
        while i < coords.len()
            invariant
                i <= coords@.len(),
                data@.len() == i,
                forall|k: int| 0 <= k < coords@.len() ==> f.value_req(#[trigger] coords@[k]),
                forall|k: int|
                    0 <= k < i ==> f.value_ens(coords@[k], #[trigger] data@[k]),
            decreases coords@.len() - i,
        {
            let x = coords[i];
            data.push(f.value(x));
            i += 1;
        }
        DiscreteScalarField { coords, data, shape }
    }
}

impl<T: AlgebraField, V: Subtraction + Division<T> + Copy, const N: usize>
    DiscreteScalarField<T, V, N> {
    /// The neighbour spacings and values entering the clamped central
    /// difference along axis `n` at `idx` all admit their operations.
    pub open spec fn derivative_req_along(self, idx: Seq<usize>, n: int) -> bool {
        let a = step_up(idx, n, self.shape@[n] - 1);
        let b = step_down(idx, n);
        let xa = self.coord_axis(a, n);
        let xm = self.coord_axis(idx, n);
        let xb = self.coord_axis(b, n);
        let va = self.value_at(a);
        let vb = self.value_at(b);
        &&& self.wf()
        &&& self.valid_index(idx)
        &&& 0 <= n < N
        &&& xa.sub_req(xm)
        &&& xm.sub_req(xb)
        &&& forall|h1: T, h2: T| xa.sub_ens(xm, h1) && xm.sub_ens(xb, h2) ==> h1.add_req(h2)
        &&& va.sub_req(vb)
        &&& forall|h1: T, h2: T, h: T, dv: V|
            xa.sub_ens(xm, h1) && xm.sub_ens(xb, h2) && h1.add_ens(h2, h) && va.sub_ens(vb, dv)
                ==> dv.div_req(h)
    }

    /// Relates the grid, an index and an axis to the clamped central
    /// finite-difference estimate: the value difference of the two clamped
    /// neighbours divided by the physical step, which is the sum of the
    /// forward and the backward spacing.
    pub open spec fn derivative_ens_along(self, idx: Seq<usize>, n: int, r: Option<V>) -> bool {
        let a = step_up(idx, n, self.shape@[n] - 1);
        let b = step_down(idx, n);
        let xa = self.coord_axis(a, n);
        let xm = self.coord_axis(idx, n);
        let xb = self.coord_axis(b, n);
        let va = self.value_at(a);
        let vb = self.value_at(b);
        exists|h1: T, h2: T, h: T, dv: V, v: V|
            #![auto]
            xa.sub_ens(xm, h1) && xm.sub_ens(xb, h2) && h1.add_ens(h2, h) && va.sub_ens(vb, dv)
                && dv.div_ens(h, v) && r == Some(v)
    }
}

impl<T: AlgebraField, V: Subtraction + Division<T> + Copy, const N: usize> Differentiable
    for DiscreteScalarField<T, V, N> {
    type Input = [usize; N];

    type Space = [T; N];

    type Coordinate = T;

    type Value = V;

    open spec fn coord_req(&self, inp: [usize; N]) -> bool {
        self.wf() && self.valid_index(inp@)
    }

    /// The coordinates of a grid point come from the coordinate storage at
    /// the row-major flat position of its multi-index.
    open spec fn coord_ens(&self, inp: [usize; N], r: [T; N]) -> bool {
        r == self.coords@[flat_index(inp@, self.shape@)]
    }

    open spec fn value_req(&self, inp: [usize; N]) -> bool {
        self.wf() && self.valid_index(inp@)
    }

    /// The value of a grid point comes from the value storage at the
    /// row-major flat position of its multi-index.
    open spec fn value_ens(&self, inp: [usize; N], r: V) -> bool {
        r == self.value_at(inp@)
    }

    open spec fn input_range_req(&self) -> bool {
        self.wf()
    }

    /// The inclusive index range runs from all-zeros to the shape minus one
    /// along every axis.
    open spec fn input_range_ens(&self, r: ([usize; N], [usize; N])) -> bool {
        &&& forall|k: int| 0 <= k < N ==> r.0@[k] == 0
        &&& forall|k: int| 0 <= k < N ==> r.1@[k] == self.shape@[k] - 1
    }

    fn coord(&self, inp: [usize; N]) -> (r: [T; N]) {
        proof {
            lemma_flat_index_bounds(inp@, self.shape@);
        }
        let total = self.coords.len();
        let i = flat_of(inp, self.shape, total);
        self.coords[i]
    }

    fn value(&self, inp: [usize; N]) -> (r: V) {
        proof {
            lemma_flat_index_bounds(inp@, self.shape@);
        }
        let total = self.data.len();
        let i = flat_of(inp, self.shape, total);
        self.data[i]
    }

    fn input_range(&self) -> (r: ([usize; N], [usize; N])) {
        let lo = [0usize; N];
        let mut hi = [0usize; N];
        let mut k: usize = 0;
        while k < N
            invariant
                k <= N,
                self.wf(),
                hi@.len() == N,
                forall|j: int| 0 <= j < k ==> hi@[j] == self.shape@[j] - 1,
            decreases N - k,
        {
            hi[k] = self.shape[k] - 1;
            k += 1;
        }
        (lo, hi)
    }
}

impl<T: AlgebraField, V, const N: usize> Addition<ZeroScalarField>
    for DiscreteScalarField<T, V, N> {
    open spec fn add_req(self, rhs: ZeroScalarField) -> bool {
        true
    }

    /// Adding the zero scalar field is the identity, in constant time.
    open spec fn add_ens(self, rhs: ZeroScalarField, r: Self) -> bool {
        r == self
    }

    fn add(self, rhs: ZeroScalarField) -> (r: Self) {
        self
    }

    fn add_assign(&mut self, rhs: ZeroScalarField) {
    }
}

/// A zero scalar field: the value is the scalar zero everywhere. It is the
/// additive identity among scalar fields and absorbs its differential
/// operators in constant time.
#[derive(Debug, Copy, Clone, PartialEq, Eq, Structural)]
pub struct ZeroScalarField;

impl ZeroScalarField {
    /// Adding any field to the zero scalar field yields that field,
    /// unchanged and in constant time.
    pub fn add<U>(self, rhs: U) -> (r: U)
        ensures
            r == rhs,
    {
        rhs
    }
}

impl<T: AlgebraField, const N: usize> ElementField<T, T, N> for ZeroScalarField {
    type Space = ();

    type Domain = [T; N];

    open spec fn coordinates_req(&self, x: Self::Domain) -> bool {
        true
    }

    open spec fn coordinates_ens(&self, x: Self::Domain, r: Self::Space) -> bool {
        true
    }

    open spec fn value_req(&self, x: Self::Domain) -> bool {
        true
    }

    /// The value is the scalar zero at every point.
    open spec fn value_ens(&self, x: Self::Domain, r: T) -> bool {
        T::zero_ens(r)
    }

    fn coordinates(&self, x: Self::Domain) -> (r: Self::Space) {
        ()
    }

    fn value(&self, x: Self::Domain) -> (r: T) {
        T::zero()
    }
}

impl<T: AlgebraField, D, const N: usize> ScalarField<T, D, N> for ZeroScalarField {
    type Grad = ZeroVectorField;

    type Laplacian = ZeroScalarField;

    open spec fn grad_req(&self, diff: D) -> bool {
        true
    }

    /// The gradient of the zero scalar field is the zero vector field.
    open spec fn grad_ens(&self, diff: D, r: Self::Grad) -> bool {
        r == ZeroVectorField
    }

    open spec fn laplacian_req(&self, diff: D) -> bool {
        true
    }

    /// The Laplacian of the zero scalar field is the zero scalar field.
    open spec fn laplacian_ens(&self, diff: D, r: Self::Laplacian) -> bool {
        r == ZeroScalarField
    }

    fn grad(&self, diff: D) -> (r: Self::Grad) {
        ZeroVectorField
    }

    fn laplacian(&self, diff: D) -> (r: Self::Laplacian) {
        ZeroScalarField
    }
}

} // verus!
