//! Vector fields: the discrete grid-sampled vector field, the always-zero
//! vector field, and the zero-sized markers recording caller-asserted
//! analytic properties.
//!
//! The property markers ([`ConservativeField`], [`DivFreeField`],
//! [`AnyField`]) record an unverified caller assertion (curl-free,
//! divergence-free, nothing known); the engine never derives or checks them.

use core::marker::PhantomData;

use vstd::prelude::*;

use crate::fields::scalar::ZeroScalarField;
use crate::fields::{ElementField, ScalarField, VectorField};
use crate::prelude::coordinate::CoordinateSystem;
use crate::prelude::{
    Addition, AlgebraField, Division, FiniteVectorSpace, Multiplication, Subtraction, Zero,
};

verus! {

/// Modifier recording whether the curl of a field is known to vanish.
pub trait CurlModifier: Copy + Clone {}

/// Modifier recording whether the divergence of a field is known to vanish.
pub trait DivModifier: Copy + Clone {}

/// Marker for the kind of a field.
pub trait FieldType: Copy + Clone {}

/// Marker for a conservative (curl-free) vector field.
#[derive(Debug, Copy, Clone, PartialEq, Eq, Structural)]
pub struct ConservativeField;

/// Marker for a divergence-free vector field.
#[derive(Debug, Copy, Clone, PartialEq, Eq, Structural)]
pub struct DivFreeField;

/// Marker for a field where no information on curl or divergence exists.
#[derive(Debug, Copy, Clone, PartialEq, Eq, Structural)]
pub struct AnyField;

impl CurlModifier for ConservativeField {}

impl CurlModifier for DivFreeField {}

impl CurlModifier for AnyField {}

impl DivModifier for ConservativeField {}

impl DivModifier for DivFreeField {}

impl DivModifier for AnyField {}

impl FieldType for AnyField {}

/// A zero vector field: the value is the zero vector everywhere. It is the
/// additive identity among fields and absorbs every differential operator in
/// constant time.
#[derive(Debug, Copy, Clone, PartialEq, Eq, Structural)]
pub struct ZeroVectorField;

/// Base N-dimensional discrete vector field: parallel coordinate and value
/// storage over an N-dimensional shape, with a row-major flat index.
pub struct DiscreteVectorField<
    T: AlgebraField,
    V: FiniteVectorSpace<T>,
    const N: usize,
    A: CurlModifier + DivModifier,
    C: CoordinateSystem,
    F: FieldType,
> {
    /// The coordinate data.
    pub coords: Vec<[T; N]>,
    /// Values of the vector field.
    pub data: Vec<V>,
    /// Shape of the vector field.
    pub shape: [usize; N],
    /// Marker for the curl/divergence modifier.
    pub _a: PhantomData<A>,
    /// Marker for the coordinate system.
    pub _c: PhantomData<C>,
    /// Marker for the field type.
    pub _f: PhantomData<F>,
}

impl<
    T: AlgebraField,
    V: FiniteVectorSpace<T>,
    const N: usize,
    C: CoordinateSystem,
> DiscreteVectorField<T, V, N, AnyField, C, AnyField> {
    /// Creates a new empty vector field.
    pub fn new() -> (r: Self)
        ensures
            r.coords@.len() == 0,
            r.data@.len() == 0,
            forall|k: int| 0 <= k < N ==> r.shape@[k] == 0,
    {
        DiscreteVectorField {
            coords: Vec::new(),
            data: Vec::new(),
            shape: [0usize; N],
            _a: PhantomData,
            _c: PhantomData,
            _f: PhantomData,
        }
    }
}

impl<
    T: AlgebraField,
    V: FiniteVectorSpace<T> + Copy,
    const N: usize,
    A: CurlModifier + DivModifier,
    C: CoordinateSystem,
    F: FieldType,
> Addition for DiscreteVectorField<T, V, N, A, C, F> {
    /// Pointwise addition is defined on fields of identical shape whose
    /// corresponding values admit addition.
    open spec fn add_req(self, rhs: Self) -> bool {
        &&& rhs.data@.len() == self.data@.len()
        &&& rhs.shape@ == self.shape@
        &&& forall|i: int|
            0 <= i < self.data@.len() ==> self.data@[i].add_req(#[trigger] rhs.data@[i])
    }

    /// The result keeps the left operand's coordinates and shape and adds the
    /// value grids pointwise.
    open spec fn add_ens(self, rhs: Self, r: Self) -> bool {
        &&& r.coords@ == self.coords@
        &&& r.shape@ == self.shape@
        &&& r.data@.len() == self.data@.len()
        &&& forall|i: int|
            0 <= i < self.data@.len() ==> self.data@[i].add_ens(
                rhs.data@[i],
                #[trigger] r.data@[i],
            )
    }

    fn add(self, rhs: Self) -> (r: Self) {
        let mut data: Vec<V> = Vec::new();
        let mut i: usize = 0;
        while i < self.data.len()
            invariant
                i <= self.data@.len(),
                data@.len() == i,
                self.add_req(rhs),
                forall|j: int|
                    0 <= j < i ==> self.data@[j].add_ens(rhs.data@[j], #[trigger] data@[j]),
            decreases self.data@.len() - i,
        {
            let a = self.data[i];
            let b = rhs.data[i];
            data.push(a.add(b));
            i += 1;
        }
        DiscreteVectorField {
            coords: self.coords,
            data,
            shape: self.shape,
            _a: self._a,
            _c: self._c,
            _f: self._f,
        }
    }

    fn add_assign(&mut self, rhs: Self) {
        let mut data: Vec<V> = Vec::new();
        let mut i: usize = 0;
        while i < self.data.len()
            invariant
                i <= self.data@.len(),
                data@.len() == i,
                old(self).add_req(rhs),
                self == old(self),
                forall|j: int|
                    0 <= j < i ==> self.data@[j].add_ens(rhs.data@[j], #[trigger] data@[j]),
            decreases self.data@.len() - i,
        {
            let a = self.data[i];
            let b = rhs.data[i];
            data.push(a.add(b));
            i += 1;
        }
        self.data = data;
    }
}

impl<
    T: AlgebraField,
    V: FiniteVectorSpace<T> + Copy,
    const N: usize,
    A: CurlModifier + DivModifier,
    C: CoordinateSystem,
    F: FieldType,
> Subtraction for DiscreteVectorField<T, V, N, A, C, F> {
    /// Pointwise subtraction is defined on fields of identical shape whose
    /// corresponding values admit subtraction.
    open spec fn sub_req(self, rhs: Self) -> bool {
        &&& rhs.data@.len() == self.data@.len()
        &&& rhs.shape@ == self.shape@
        &&& forall|i: int|
            0 <= i < self.data@.len() ==> self.data@[i].sub_req(#[trigger] rhs.data@[i])
    }

    /// The result keeps the left operand's coordinates and shape and
    /// subtracts the value grids pointwise.
    open spec fn sub_ens(self, rhs: Self, r: Self) -> bool {
        &&& r.coords@ == self.coords@
        &&& r.shape@ == self.shape@
        &&& r.data@.len() == self.data@.len()
        &&& forall|i: int|
            0 <= i < self.data@.len() ==> self.data@[i].sub_ens(
                rhs.data@[i],
                #[trigger] r.data@[i],
            )
    }

    fn sub(self, rhs: Self) -> (r: Self) {
        let mut data: Vec<V> = Vec::new();
        let mut i: usize = 0;
        while i < self.data.len()
            invariant
                i <= self.data@.len(),
                data@.len() == i,
                self.sub_req(rhs),
                forall|j: int|
                    0 <= j < i ==> self.data@[j].sub_ens(rhs.data@[j], #[trigger] data@[j]),
            decreases self.data@.len() - i,
        {
            let a = self.data[i];
            let b = rhs.data[i];
            data.push(a.sub(b));
            i += 1;
        }
        DiscreteVectorField {
            coords: self.coords,
            data,
            shape: self.shape,
            _a: self._a,
            _c: self._c,
            _f: self._f,
        }
    }

    fn sub_assign(&mut self, rhs: Self) {
        let mut data: Vec<V> = Vec::new();
        let mut i: usize = 0;
        while i < self.data.len()
            invariant
                i <= self.data@.len(),
                data@.len() == i,
                old(self).sub_req(rhs),
                self == old(self),
                forall|j: int|
                    0 <= j < i ==> self.data@[j].sub_ens(rhs.data@[j], #[trigger] data@[j]),
            decreases self.data@.len() - i,
        {
            let a = self.data[i];
            let b = rhs.data[i];
            data.push(a.sub(b));
            i += 1;
        }
        self.data = data;
    }
}

impl<
    T: AlgebraField,
    V: FiniteVectorSpace<T> + Copy,
    const N: usize,
    A: CurlModifier + DivModifier,
    C: CoordinateSystem,
    F: FieldType,
> Multiplication<T> for DiscreteVectorField<T, V, N, A, C, F> {
    /// Pointwise scaling is defined when every stored value admits scaling by
    /// the scalar.
    open spec fn mul_req(self, rhs: T) -> bool {
        forall|i: int| 0 <= i < self.data@.len() ==> (#[trigger] self.data@[i]).mul_req(rhs)
    }

    /// The result keeps the coordinates and shape and scales every value.
    open spec fn mul_ens(self, rhs: T, r: Self) -> bool {
        &&& r.coords@ == self.coords@
        &&& r.shape@ == self.shape@
        &&& r.data@.len() == self.data@.len()
        &&& forall|i: int|
            0 <= i < self.data@.len() ==> self.data@[i].mul_ens(rhs, #[trigger] r.data@[i])
    }

    fn mul(self, rhs: T) -> (r: Self) {
        let mut data: Vec<V> = Vec::new();
        let mut i: usize = 0;
        while i < self.data.len()
            invariant
                i <= self.data@.len(),
                data@.len() == i,
                self.mul_req(rhs),
                forall|j: int| 0 <= j < i ==> self.data@[j].mul_ens(rhs, #[trigger] data@[j]),
            decreases self.data@.len() - i,
        {
            let a = self.data[i];
            data.push(a.mul(rhs));
            i += 1;
        }
        DiscreteVectorField {
            coords: self.coords,
            data,
            shape: self.shape,
            _a: self._a,
            _c: self._c,
            _f: self._f,
        }
    }

    fn mul_assign(&mut self, rhs: T) {
        let mut data: Vec<V> = Vec::new();
        let mut i: usize = 0;
        while i < self.data.len()
            invariant
                i <= self.data@.len(),
                data@.len() == i,
                old(self).mul_req(rhs),
                self == old(self),
                forall|j: int| 0 <= j < i ==> self.data@[j].mul_ens(rhs, #[trigger] data@[j]),
            decreases self.data@.len() - i,
        {
            let a = self.data[i];
            data.push(a.mul(rhs));
            i += 1;
        }
        self.data = data;
    }
}

impl<
    T: AlgebraField,
    V: FiniteVectorSpace<T> + Copy,
    const N: usize,
    A: CurlModifier + DivModifier,
    C: CoordinateSystem,
    F: FieldType,
> Division<T> for DiscreteVectorField<T, V, N, A, C, F> {
    /// Pointwise division is defined when every stored value admits division
    /// by the scalar.
    open spec fn div_req(self, rhs: T) -> bool {
        forall|i: int| 0 <= i < self.data@.len() ==> (#[trigger] self.data@[i]).div_req(rhs)
    }

    /// The result keeps the coordinates and shape and divides every value.
    open spec fn div_ens(self, rhs: T, r: Self) -> bool {
        &&& r.coords@ == self.coords@
        &&& r.shape@ == self.shape@
        &&& r.data@.len() == self.data@.len()
        &&& forall|i: int|
            0 <= i < self.data@.len() ==> self.data@[i].div_ens(rhs, #[trigger] r.data@[i])
    }

    fn div(self, rhs: T) -> (r: Self) {
        let mut data: Vec<V> = Vec::new();
        let mut i: usize = 0;
        while i < self.data.len()
            invariant
                i <= self.data@.len(),
                data@.len() == i,
                self.div_req(rhs),
                forall|j: int| 0 <= j < i ==> self.data@[j].div_ens(rhs, #[trigger] data@[j]),
            decreases self.data@.len() - i,
        {
            let a = self.data[i];
            data.push(a.div(rhs));
            i += 1;
        }
        DiscreteVectorField {
            coords: self.coords,
            data,
            shape: self.shape,
            _a: self._a,
            _c: self._c,
            _f: self._f,
        }
    }

    fn div_assign(&mut self, rhs: T) {
        let mut data: Vec<V> = Vec::new();
        let mut i: usize = 0;
        while i < self.data.len()
            invariant
                i <= self.data@.len(),
                data@.len() == i,
                old(self).div_req(rhs),
                self == old(self),
                forall|j: int| 0 <= j < i ==> self.data@[j].div_ens(rhs, #[trigger] data@[j]),
            decreases self.data@.len() - i,
        {
            let a = self.data[i];
            data.push(a.div(rhs));
            i += 1;
        }
        self.data = data;
    }
}

impl<
    T: AlgebraField,
    V: FiniteVectorSpace<T>,
    const N: usize,
    A: CurlModifier + DivModifier,
    C: CoordinateSystem,
    F: FieldType,
> Addition<ZeroVectorField> for DiscreteVectorField<T, V, N, A, C, F> {
    open spec fn add_req(self, rhs: ZeroVectorField) -> bool {
        true
    }

    /// Adding the zero vector field is the identity, in constant time.
    open spec fn add_ens(self, rhs: ZeroVectorField, r: Self) -> bool {
        r == self
    }

    fn add(self, rhs: ZeroVectorField) -> (r: Self) {
        self
    }

    fn add_assign(&mut self, rhs: ZeroVectorField) {
    }
}

// What follows are the ZeroVectorField implementations: every arithmetic and
// differential operator short-circuits in constant time.

impl ZeroVectorField {
    /// Adding any field to the zero vector field yields that field,
    /// unchanged and in constant time.
    pub fn add<U>(self, rhs: U) -> (r: U)
        ensures
            r == rhs,
    {
        rhs
    }

    /// Subtracting from the zero vector field yields the operand, unchanged
    /// and in constant time.
    pub fn sub<U>(self, rhs: U) -> (r: U)
        ensures
            r == rhs,
    {
        rhs
    }
}

impl Addition for ZeroVectorField {
    open spec fn add_req(self, rhs: Self) -> bool {
        true
    }

    open spec fn add_ens(self, rhs: Self, r: Self) -> bool {
        r == ZeroVectorField
    }

    fn add(self, rhs: Self) -> (r: Self) {
        ZeroVectorField
    }

    fn add_assign(&mut self, rhs: Self) {
    }
}

impl Subtraction for ZeroVectorField {
    open spec fn sub_req(self, rhs: Self) -> bool {
        true
    }

    open spec fn sub_ens(self, rhs: Self, r: Self) -> bool {
        r == ZeroVectorField
    }

    fn sub(self, rhs: Self) -> (r: Self) {
        ZeroVectorField
    }

    fn sub_assign(&mut self, rhs: Self) {
    }
}

impl<U> Multiplication<U> for ZeroVectorField {
    open spec fn mul_req(self, rhs: U) -> bool {
        true
    }

    open spec fn mul_ens(self, rhs: U, r: Self) -> bool {
        r == ZeroVectorField
    }

    fn mul(self, rhs: U) -> (r: Self) {
        self
    }

    fn mul_assign(&mut self, rhs: U) {
    }
}

impl<U> Division<U> for ZeroVectorField {
    open spec fn div_req(self, rhs: U) -> bool {
        true
    }

    open spec fn div_ens(self, rhs: U, r: Self) -> bool {
        r == ZeroVectorField
    }

    fn div(self, rhs: U) -> (r: Self) {
        self
    }

    fn div_assign(&mut self, rhs: U) {
    }
}

impl Zero for ZeroVectorField {
    open spec fn zero_ens(r: Self) -> bool {
        r == ZeroVectorField
    }

    fn zero() -> (r: Self) {
        ZeroVectorField
    }
}

impl<T: AlgebraField> FiniteVectorSpace<T> for ZeroVectorField {}

impl<T: AlgebraField, V: FiniteVectorSpace<T>, const N: usize> ElementField<T, V, N>
    for ZeroVectorField {
    type Space = ();

    type Domain = [T; N];

    open spec fn coordinates_req(&self, x: Self::Domain) -> bool {
        true
    }

    open spec fn coordinates_ens(&self, x: Self::Domain, r: Self::Space) -> bool {
        true
    }

    open spec fn value_req(&self, x: Self::Domain) -> bool {
        true
    }

    /// The value is the zero vector at every point.
    open spec fn value_ens(&self, x: Self::Domain, r: V) -> bool {
        V::zero_ens(r)
    }

    fn coordinates(&self, x: Self::Domain) -> (r: Self::Space) {
        ()
    }

    fn value(&self, x: Self::Domain) -> (r: V) {
        V::zero()
    }
}

impl<T: AlgebraField, D, V: FiniteVectorSpace<T>, const N: usize> VectorField<T, D, V, N>
    for ZeroVectorField {
    type Divergence = ZeroScalarField;

    type Curl = ZeroVectorField;

    type Laplacian = ZeroVectorField;

    type DotOut = ZeroScalarField;

    type CrossOut = ZeroVectorField;

    type Mag = ZeroScalarField;

    open spec fn divergence_req(&self, diff: D) -> bool {
        true
    }

    /// The divergence of the zero vector field is the zero scalar field.
    open spec fn divergence_ens(&self, diff: D, r: Self::Divergence) -> bool {
        r == ZeroScalarField
    }

    open spec fn curl_req(&self, diff: D) -> bool {
        true
    }

    /// The curl of the zero vector field is the zero vector field.
    open spec fn curl_ens(&self, diff: D, r: Self::Curl) -> bool {
        r == ZeroVectorField
    }

    open spec fn laplacian_req(&self, diff: D) -> bool {
        true
    }

    /// The Laplacian of the zero vector field is the zero vector field.
    open spec fn laplacian_ens(&self, diff: D, r: Self::Laplacian) -> bool {
        r == ZeroVectorField
    }

    open spec fn dot_req(&self, rhs: V) -> bool {
        true
    }

    /// A dot product against the zero vector field is the zero scalar field.
    open spec fn dot_ens(&self, rhs: V, r: Self::DotOut) -> bool {
        r == ZeroScalarField
    }

    open spec fn dotf_req(&self, rhs: Self) -> bool {
        true
    }

    /// A dot product against the zero vector field is the zero scalar field.
    open spec fn dotf_ens(&self, rhs: Self, r: Self::DotOut) -> bool {
        r == ZeroScalarField
    }

    open spec fn cross_req(&self, rhs: V) -> bool {
        true
    }

    /// A cross product against the zero vector field is the zero vector
    /// field.
    open spec fn cross_ens(&self, rhs: V, r: Self::CrossOut) -> bool {
        r == ZeroVectorField
    }

    open spec fn crossf_req(&self, rhs: Self) -> bool {
        true
    }

    /// A cross product against the zero vector field is the zero vector
    /// field.
    open spec fn crossf_ens(&self, rhs: Self, r: Self::CrossOut) -> bool {
        r == ZeroVectorField
    }

    open spec fn mag_req(&self) -> bool {
        true
    }

    /// The magnitude of the zero vector field is the zero scalar field.
    open spec fn mag_ens(&self, r: Self::Mag) -> bool {
        r == ZeroScalarField
    }

    fn divergence(&self, diff: D) -> (r: Self::Divergence) {
        ZeroScalarField
    }

    fn curl(&self, diff: D) -> (r: Self::Curl) {
        ZeroVectorField
    }

    fn laplacian(&self, diff: D) -> (r: Self::Laplacian) {
        ZeroVectorField
    }

    fn dot(&self, rhs: V) -> (r: Self::DotOut) {
        ZeroScalarField
    }

    fn dotf(&self, rhs: Self) -> (r: Self::DotOut) {
        ZeroScalarField
    }

    fn cross(&self, rhs: V) -> (r: Self::CrossOut) {
        ZeroVectorField
    }

    fn crossf(&self, rhs: Self) -> (r: Self::CrossOut) {
        ZeroVectorField
    }

    fn mag(&self) -> (r: Self::Mag) {
        ZeroScalarField
    }
}

} // verus!
