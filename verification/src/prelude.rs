//! Abstract algebra scaffolding: arithmetic capability traits, the composite
//! `AlgebraField` / `FiniteVectorSpace` capability sets, and the product-space
//! extensions.
//!
//! Every arithmetic trait pairs each executable operation with two spec
//! functions: a precondition (`*_req`) that admits exactly the operand pairs
//! the operation is defined on (for bounded representations this excludes
//! overflow), and a postcondition (`*_ens`) that pins the result down.
//! Composite capabilities such as [`AlgebraField`] are never implemented
//! directly: blanket implementations derive them from the primitive
//! operations, so any backend that supplies the primitives is accepted.

pub mod base;
pub mod coordinate;
pub mod derivative;
pub mod rational;

use vstd::prelude::*;

verus! {

/// Closed addition: an operation `self + rhs` producing `Self`, together with
/// its in-place variant.
pub trait Addition<Rhs = Self>: Sized {
    /// Admits the operand pairs the addition is defined on.
    spec fn add_req(self, rhs: Rhs) -> bool;

    /// Relates the operands to the sum.
    spec fn add_ens(self, rhs: Rhs, r: Self) -> bool;

    /// The sum `self + rhs`.
    fn add(self, rhs: Rhs) -> (r: Self)
        requires
            self.add_req(rhs),
        ensures
            self.add_ens(rhs, r),
    ;

    /// Replaces `self` with `self + rhs`.
    fn add_assign(&mut self, rhs: Rhs)
        requires
            old(self).add_req(rhs),
        ensures
            old(self).add_ens(rhs, *final(self)),
    ;
}

/// Closed subtraction: an operation `self - rhs` producing `Self`, together
/// with its in-place variant.
pub trait Subtraction<Rhs = Self>: Sized {
    /// Admits the operand pairs the subtraction is defined on.
    spec fn sub_req(self, rhs: Rhs) -> bool;

    /// Relates the operands to the difference.
    spec fn sub_ens(self, rhs: Rhs, r: Self) -> bool;

    /// The difference `self - rhs`.
    fn sub(self, rhs: Rhs) -> (r: Self)
        requires
            self.sub_req(rhs),
        ensures
            self.sub_ens(rhs, r),
    ;

    /// Replaces `self` with `self - rhs`.
    fn sub_assign(&mut self, rhs: Rhs)
        requires
            old(self).sub_req(rhs),
        ensures
            old(self).sub_ens(rhs, *final(self)),
    ;
}

/// Closed multiplication: an operation `self * rhs` producing `Self`,
/// together with its in-place variant.
pub trait Multiplication<Rhs = Self>: Sized {
    /// Admits the operand pairs the multiplication is defined on.
    spec fn mul_req(self, rhs: Rhs) -> bool;

    /// Relates the operands to the product.
    spec fn mul_ens(self, rhs: Rhs, r: Self) -> bool;

    /// The product `self * rhs`.
    fn mul(self, rhs: Rhs) -> (r: Self)
        requires
            self.mul_req(rhs),
        ensures
            self.mul_ens(rhs, r),
    ;

    /// Replaces `self` with `self * rhs`.
    fn mul_assign(&mut self, rhs: Rhs)
        requires
            old(self).mul_req(rhs),
        ensures
            old(self).mul_ens(rhs, *final(self)),
    ;
}

/// Closed division: an operation `self / rhs` producing `Self`, together with
/// its in-place variant.
pub trait Division<Rhs = Self>: Sized {
    /// Admits the operand pairs the division is defined on (a zero divisor is
    /// never admitted).
    spec fn div_req(self, rhs: Rhs) -> bool;

    /// Relates the operands to the quotient.
    spec fn div_ens(self, rhs: Rhs, r: Self) -> bool;

    /// The quotient `self / rhs`.
    fn div(self, rhs: Rhs) -> (r: Self)
        requires
            self.div_req(rhs),
        ensures
            self.div_ens(rhs, r),
    ;

    /// Replaces `self` with `self / rhs`.
    fn div_assign(&mut self, rhs: Rhs)
        requires
            old(self).div_req(rhs),
        ensures
            old(self).div_ens(rhs, *final(self)),
    ;
}

/// Combined capability: both division and multiplication by `Rhs`.
pub trait DivMul<Rhs = Self>: Multiplication<Rhs> + Division<Rhs> {}

impl<Rhs, T: Multiplication<Rhs> + Division<Rhs>> DivMul<Rhs> for T {}

/// Types that can be conjugated. Conjugation must be the identity on real
/// scalars and true conjugation on complex scalars, so that the
/// conjugate-based inner product stays positive-definite.
pub trait Conjugate: Sized {
    /// Admits the values the conjugation is defined on.
    spec fn conj_req(self) -> bool;

    /// Relates a value to its conjugate.
    spec fn conj_ens(self, r: Self) -> bool;

    /// The conjugate of `self`.
    fn conj(self) -> (r: Self)
        requires
            self.conj_req(),
        ensures
            self.conj_ens(r),
    ;
}

/// Types with an additive identity.
pub trait Zero: Sized {
    /// Recognises the additive identity returned by [`Zero::zero`].
    spec fn zero_ens(r: Self) -> bool;

    /// The additive identity.
    fn zero() -> (r: Self)
        ensures
            Self::zero_ens(r),
    ;
}

/// Types with a multiplicative identity.
pub trait One: Sized {
    /// Recognises the multiplicative identity returned by [`One::one`].
    spec fn one_ens(r: Self) -> bool;

    /// The multiplicative identity.
    fn one() -> (r: Self)
        ensures
            Self::one_ens(r),
    ;
}

/// The base scalar field capability: closed `+ - * /`, additive and
/// multiplicative identities, copyability and conjugation. Implemented
/// automatically for any type supplying the primitive operations.
pub trait AlgebraField:
    Addition + Subtraction + Multiplication + Division + Zero + One + Clone + Copy + Conjugate {
}

impl<
    T: Addition + Subtraction + Multiplication + Division + Zero + One + Clone + Copy + Conjugate,
> AlgebraField for T {
}

/// The base scalar ring capability: closed `+ - *`. Implemented automatically
/// for any type supplying the primitive operations.
pub trait AlgebraRing: Addition + Subtraction + Multiplication {}

impl<T: Addition + Subtraction + Multiplication> AlgebraRing for T {}

/// The basic vector space abstraction: closed addition and subtraction with
/// itself, scaling (multiplication and division) by a field element, and a
/// zero vector.
pub trait FiniteVectorSpace<T: AlgebraField>:
    Addition<Self> + Subtraction<Self> + Multiplication<T> + Division<T> + Zero + Clone {
}

/// Vector spaces with an inner product. The product conjugates the right
/// operand, so over complex scalars it is Hermitian.
pub trait InnerProductSpace<T: AlgebraField>: FiniteVectorSpace<T> {
    /// Admits the operand pairs the inner product is defined on.
    spec fn dot_req(self, rhs: Self) -> bool;

    /// Relates the operands to the inner product.
    spec fn dot_ens(self, rhs: Self, r: T) -> bool;

    /// The inner product of `self` with `rhs` (conjugating `rhs`).
    fn dot(self, rhs: Self) -> (r: T)
        requires
            self.dot_req(rhs),
        ensures
            self.dot_ens(rhs, r),
    ;
}

/// Vector spaces with a cross product (three dimensions only).
pub trait CrossProductSpace<T: AlgebraField>: FiniteVectorSpace<T> {
    /// Admits the operand pairs the cross product is defined on.
    spec fn cross_req(self, rhs: Self) -> bool;

    /// Relates the operands to the cross product.
    spec fn cross_ens(self, rhs: Self, r: Self) -> bool;

    /// The cross product `self x rhs`.
    fn cross(self, rhs: Self) -> (r: Self)
        requires
            self.cross_req(rhs),
        ensures
            self.cross_ens(rhs, r),
    ;
}

/// Marker for three dimensional vector spaces: a finite vector space carrying
/// both an inner and a cross product.
pub trait ThreeDVectorSpace<T: AlgebraField>:
    FiniteVectorSpace<T> + InnerProductSpace<T> + CrossProductSpace<T> {
}

} // verus!
