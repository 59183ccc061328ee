//! Field abstractions: mappings from a domain point to scalar or vector
//! values, together with their differential operators.
//!
//! Each operator is paired with spec functions stating when it is defined
//! (`*_req`) and what it returns (`*_ens`); implementations fix both. The
//! differentiation-context parameter `D` (step size, grid handle) is threaded
//! through but interpreted only by concrete implementations.

pub mod scalar;
pub mod vector;

use vstd::prelude::*;

use crate::prelude::{AlgebraField, FiniteVectorSpace};

verus! {

/// The base field: a mapping from an N-scalar domain point to a coordinate
/// (in `Space`) and a value of type `V`. All scalar/vector/tensor fields
/// implement this.
pub trait ElementField<T: AlgebraField, V, const N: usize> {
    /// The coordinates to which input values correspond.
    type Space;

    /// The input domain. For analytical (continuous) domains this is the same
    /// as the space.
    type Domain;

    /// Admits the domain points on which the coordinate lookup is defined.
    spec fn coordinates_req(&self, x: Self::Domain) -> bool;

    /// Relates a domain point to its coordinates.
    spec fn coordinates_ens(&self, x: Self::Domain, r: Self::Space) -> bool;

    /// Admits the domain points on which the value lookup is defined.
    spec fn value_req(&self, x: Self::Domain) -> bool;

    /// Relates a domain point to the field's value there.
    spec fn value_ens(&self, x: Self::Domain, r: V) -> bool;

    /// Coordinates at a point, mainly used when dealing with discrete spaces.
    fn coordinates(&self, x: Self::Domain) -> (r: Self::Space)
        requires
            self.coordinates_req(x),
        ensures
            self.coordinates_ens(x, r),
    ;

    /// Value at a point.
    fn value(&self, x: Self::Domain) -> (r: V)
        requires
            self.value_req(x),
        ensures
            self.value_ens(x, r),
    ;
}

/// The base scalar field: a mapping into the scalar field itself, exposing a
/// gradient and a Laplacian.
pub trait ScalarField<T: AlgebraField, D, const N: usize>: ElementField<T, T, N> {
    /// The vector field returned by [`ScalarField::grad`]; implementations
    /// pick a type satisfying [`VectorField`].
    type Grad;

    /// The scalar field returned by [`ScalarField::laplacian`];
    /// implementations pick a type satisfying [`ScalarField`].
    type Laplacian;

    /// Admits the contexts in which the gradient is defined.
    spec fn grad_req(&self, diff: D) -> bool;

    /// Relates the field to its gradient.
    spec fn grad_ens(&self, diff: D, r: Self::Grad) -> bool;

    /// Admits the contexts in which the Laplacian is defined.
    spec fn laplacian_req(&self, diff: D) -> bool;

    /// Relates the field to its Laplacian.
    spec fn laplacian_ens(&self, diff: D, r: Self::Laplacian) -> bool;

    /// Gradient of the scalar field.
    fn grad(&self, diff: D) -> (r: Self::Grad)
        requires
            self.grad_req(diff),
        ensures
            self.grad_ens(diff, r),
    ;

    /// Laplacian of the scalar field.
    fn laplacian(&self, diff: D) -> (r: Self::Laplacian)
        requires
            self.laplacian_req(diff),
        ensures
            self.laplacian_ens(diff, r),
    ;
}

/// The base vector field: a mapping into a finite vector space over the
/// scalar field, exposing divergence, curl, Laplacian, pointwise dot and
/// cross products, and a magnitude field.
pub trait VectorField<T: AlgebraField, D, V: FiniteVectorSpace<T>, const N: usize>:
    ElementField<T, V, N> + FiniteVectorSpace<T> {
    /// The scalar field returned by [`VectorField::divergence`];
    /// implementations pick a type satisfying [`ScalarField`].
    type Divergence;

    /// The vector field returned by [`VectorField::curl`]; implementations
    /// pick a type satisfying [`VectorField`].
    type Curl;

    /// The vector field returned by [`VectorField::laplacian`];
    /// implementations pick a type satisfying [`VectorField`].
    type Laplacian;

    /// The scalar field returned by [`VectorField::dot`] and
    /// [`VectorField::dotf`]; implementations pick a type satisfying
    /// [`ScalarField`].
    type DotOut;

    /// The vector field returned by [`VectorField::cross`] and
    /// [`VectorField::crossf`]; implementations pick a type satisfying
    /// [`VectorField`].
    type CrossOut;

    /// The scalar field returned by [`VectorField::mag`]; implementations
    /// pick a type satisfying [`ScalarField`].
    type Mag;

    /// Admits the contexts in which the divergence is defined.
    spec fn divergence_req(&self, diff: D) -> bool;

    /// Relates the field to its divergence.
    spec fn divergence_ens(&self, diff: D, r: Self::Divergence) -> bool;

    /// Admits the contexts in which the curl is defined.
    spec fn curl_req(&self, diff: D) -> bool;

    /// Relates the field to its curl.
    spec fn curl_ens(&self, diff: D, r: Self::Curl) -> bool;

    /// Admits the contexts in which the Laplacian is defined.
    spec fn laplacian_req(&self, diff: D) -> bool;

    /// Relates the field to its Laplacian.
    spec fn laplacian_ens(&self, diff: D, r: Self::Laplacian) -> bool;

    /// Admits the vectors the pointwise dot product is defined against.
    spec fn dot_req(&self, rhs: V) -> bool;

    /// Relates the field and a vector to their pointwise dot product field.
    spec fn dot_ens(&self, rhs: V, r: Self::DotOut) -> bool;

    /// Admits the fields the pointwise dot product is defined against.
    spec fn dotf_req(&self, rhs: Self) -> bool;

    /// Relates two fields to their pointwise dot product field.
    spec fn dotf_ens(&self, rhs: Self, r: Self::DotOut) -> bool;

    /// Admits the vectors the pointwise cross product is defined against.
    spec fn cross_req(&self, rhs: V) -> bool;

    /// Relates the field and a vector to their pointwise cross product field.
    spec fn cross_ens(&self, rhs: V, r: Self::CrossOut) -> bool;

    /// Admits the fields the pointwise cross product is defined against.
    spec fn crossf_req(&self, rhs: Self) -> bool;

    /// Relates two fields to their pointwise cross product field.
    spec fn crossf_ens(&self, rhs: Self, r: Self::CrossOut) -> bool;

    /// Admits the states in which the magnitude field is defined.
    spec fn mag_req(&self) -> bool;

    /// Relates the field to its pointwise magnitude field.
    spec fn mag_ens(&self, r: Self::Mag) -> bool;

    /// Divergence of the vector field.
    fn divergence(&self, diff: D) -> (r: Self::Divergence)
        requires
            self.divergence_req(diff),
        ensures
            self.divergence_ens(diff, r),
    ;

    /// Curl of the vector field.
    fn curl(&self, diff: D) -> (r: Self::Curl)
        requires
            self.curl_req(diff),
        ensures
            self.curl_ens(diff, r),
    ;

    /// Laplacian of the vector field.
    fn laplacian(&self, diff: D) -> (r: Self::Laplacian)
        requires
            self.laplacian_req(diff),
        ensures
            self.laplacian_ens(diff, r),
    ;

    /// Pointwise dot product with a vector.
    fn dot(&self, rhs: V) -> (r: Self::DotOut)
        requires
            self.dot_req(rhs),
        ensures
            self.dot_ens(rhs, r),
    ;

    /// Pointwise dot product with another vector field.
    fn dotf(&self, rhs: Self) -> (r: Self::DotOut)
        requires
            self.dotf_req(rhs),
        ensures
            self.dotf_ens(rhs, r),
    ;

    /// Pointwise cross product with a vector.
    fn cross(&self, rhs: V) -> (r: Self::CrossOut)
        requires
            self.cross_req(rhs),
        ensures
            self.cross_ens(rhs, r),
    ;

    /// Pointwise cross product with another vector field.
    fn crossf(&self, rhs: Self) -> (r: Self::CrossOut)
        requires
            self.crossf_req(rhs),
        ensures
            self.crossf_ens(rhs, r),
    ;

    /// Pointwise magnitude of the vector field.
    fn mag(&self) -> (r: Self::Mag)
        requires
            self.mag_req(),
        ensures
            self.mag_ens(r),
    ;
}

} // verus!
