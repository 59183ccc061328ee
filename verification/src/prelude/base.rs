//! The base N-dimensional vector type: a fixed-length ordered tuple of
//! scalars with component-wise arithmetic, a conjugating inner product, and a
//! three-dimensional cross product.

use vstd::prelude::*;

use crate::prelude::{
    Addition, AlgebraField, Conjugate, CrossProductSpace, Division, FiniteVectorSpace,
    InnerProductSpace, Multiplication, Subtraction, ThreeDVectorSpace, Zero,
};

verus! {

/// Base N-dimensional vector type over the scalar `T`.
#[derive(Debug, Copy, Clone)]
pub struct Vector<T: AlgebraField, const N: usize>(pub [T; N]);

/// Base 3-dimensional vector.
pub type Vector3<T> = Vector<T, 3>;

impl<T: AlgebraField, const N: usize> View for Vector<T, N> {
    type V = Seq<T>;

    open spec fn view(&self) -> Seq<T> {
        self.0@
    }
}

impl<T: AlgebraField, const N: usize> Vector<T, N> {
    /// Builds a vector from its components.
    pub fn new(components: [T; N]) -> (r: Self)
        ensures
            r@ == components@,
    {
        Vector(components)
    }

    /// The component at position `idx`.
    pub fn index(&self, idx: usize) -> (r: T)
        requires
            idx < N,
        ensures
            r == self@[idx as int],
    {
        self.0[idx]
    }

    /// Replaces the component at position `idx`.
    pub fn set(&mut self, idx: usize, value: T)
        requires
            idx < N,
        ensures
            final(self)@ == old(self)@.update(idx as int, value),
    {
        self.0[idx] = value;
    }
}

impl<T: AlgebraField, const N: usize> Zero for Vector<T, N> {
    open spec fn zero_ens(r: Self) -> bool {
        forall|j: int| 0 <= j < N ==> T::zero_ens(#[trigger] r@[j])
    }

    fn zero() -> (r: Self) {
        Vector([T::zero(); N])
    }
}

impl<T: AlgebraField, const N: usize> Default for Vector<T, N> {
    /// Builds the zero vector.
    fn default() -> (r: Self)
        ensures
            Self::zero_ens(r),
    {
        Vector([T::zero(); N])
    }
}

impl<T: AlgebraField, const N: usize> Addition for Vector<T, N> {
    open spec fn add_req(self, rhs: Self) -> bool {
        forall|j: int| 0 <= j < N ==> self@[j].add_req(#[trigger] rhs@[j])
    }

    open spec fn add_ens(self, rhs: Self, r: Self) -> bool {
        forall|j: int| 0 <= j < N ==> self@[j].add_ens(rhs@[j], #[trigger] r@[j])
    }

    fn add(self, rhs: Self) -> (r: Self) {
        let mut v = [T::zero(); N];
        let mut i: usize = 0;
        while i < N
            invariant
                i <= N,
                self.add_req(rhs),
                forall|j: int| 0 <= j < i ==> self@[j].add_ens(rhs@[j], #[trigger] v@[j]),
            decreases N - i,
        {
            proof {
                assert(self@[i as int].add_req(rhs@[i as int]));
            }
            v[i] = self.0[i].add(rhs.0[i]);
            i += 1;
        }
        Vector(v)
    }

    fn add_assign(&mut self, rhs: Self) {
        let s = *self;
        *self = s.add(rhs);
    }
}

impl<T: AlgebraField, const N: usize> Subtraction for Vector<T, N> {
    open spec fn sub_req(self, rhs: Self) -> bool {
        forall|j: int| 0 <= j < N ==> self@[j].sub_req(#[trigger] rhs@[j])
    }

    open spec fn sub_ens(self, rhs: Self, r: Self) -> bool {
        forall|j: int| 0 <= j < N ==> self@[j].sub_ens(rhs@[j], #[trigger] r@[j])
    }

    fn sub(self, rhs: Self) -> (r: Self) {
        let mut v = [T::zero(); N];
        let mut i: usize = 0;
        while i < N
            invariant
                i <= N,
                self.sub_req(rhs),
                forall|j: int| 0 <= j < i ==> self@[j].sub_ens(rhs@[j], #[trigger] v@[j]),
            decreases N - i,
        {
            proof {
                assert(self@[i as int].sub_req(rhs@[i as int]));
            }
            v[i] = self.0[i].sub(rhs.0[i]);
            i += 1;
        }
        Vector(v)
    }

    fn sub_assign(&mut self, rhs: Self) {
        let s = *self;
        *self = s.sub(rhs);
    }
}

impl<T: AlgebraField, const N: usize> Multiplication<T> for Vector<T, N> {
    open spec fn mul_req(self, rhs: T) -> bool {
        forall|j: int| 0 <= j < N ==> (#[trigger] self@[j]).mul_req(rhs)
    }

    open spec fn mul_ens(self, rhs: T, r: Self) -> bool {
        forall|j: int| 0 <= j < N ==> self@[j].mul_ens(rhs, #[trigger] r@[j])
    }

    fn mul(self, rhs: T) -> (r: Self) {
        let mut v = [T::zero(); N];
        let mut i: usize = 0;
        while i < N
            invariant
                i <= N,
                self.mul_req(rhs),
                forall|j: int| 0 <= j < i ==> self@[j].mul_ens(rhs, #[trigger] v@[j]),
            decreases N - i,
        {
            proof {
                assert(self@[i as int].mul_req(rhs));
            }
            v[i] = self.0[i].mul(rhs);
            i += 1;
        }
        Vector(v)
    }

    fn mul_assign(&mut self, rhs: T) {
        let s = *self;
        *self = s.mul(rhs);
    }
}

impl<T: AlgebraField, const N: usize> Division<T> for Vector<T, N> {
    open spec fn div_req(self, rhs: T) -> bool {
        forall|j: int| 0 <= j < N ==> (#[trigger] self@[j]).div_req(rhs)
    }

    open spec fn div_ens(self, rhs: T, r: Self) -> bool {
        forall|j: int| 0 <= j < N ==> self@[j].div_ens(rhs, #[trigger] r@[j])
    }

    fn div(self, rhs: T) -> (r: Self) {
        let mut v = [T::zero(); N];
        let mut i: usize = 0;
        while i < N
            invariant
                i <= N,
                self.div_req(rhs),
                forall|j: int| 0 <= j < i ==> self@[j].div_ens(rhs, #[trigger] v@[j]),
            decreases N - i,
        {
            proof {
                assert(self@[i as int].div_req(rhs));
            }
            v[i] = self.0[i].div(rhs);
            i += 1;
        }
        Vector(v)
    }

    fn div_assign(&mut self, rhs: T) {
        let s = *self;
        *self = s.div(rhs);
    }
}

impl<T: AlgebraField, const N: usize> FiniteVectorSpace<T> for Vector<T, N> {}

/// The conditions under which the conjugating inner-product fold of `a`
/// against `b`, started from the accumulator `acc`, runs entirely on admitted
/// operand pairs: at each step the fold conjugates the right component,
/// multiplies it onto the left component, and adds the product onto the
/// accumulator.
pub open spec fn dot_chain_req<T: AlgebraField>(a: Seq<T>, b: Seq<T>, acc: T) -> bool
    decreases a.len(),
{
    if a.len() != b.len() {
        false
    } else if a.len() == 0 {
        true
    } else {
        &&& b[0].conj_req()
        &&& forall|c: T| b[0].conj_ens(c) ==> a[0].mul_req(c)
        &&& forall|c: T, m: T| b[0].conj_ens(c) && a[0].mul_ens(c, m) ==> acc.add_req(m)
        &&& forall|c: T, m: T, acc2: T|
            b[0].conj_ens(c) && a[0].mul_ens(c, m) && acc.add_ens(m, acc2) ==> dot_chain_req(
                a.skip(1),
                b.skip(1),
                acc2,
            )
    }
}

/// Relates the sequences `a` and `b` and the accumulator `acc` to the result
/// `r` of the conjugating inner-product fold.
pub open spec fn dot_chain_ens<T: AlgebraField>(a: Seq<T>, b: Seq<T>, acc: T, r: T) -> bool
    decreases a.len(),
{
    if a.len() == 0 {
        r == acc
    } else {
        exists|c: T, m: T, acc2: T|
            #![auto]
            b[0].conj_ens(c) && a[0].mul_ens(c, m) && acc.add_ens(m, acc2) && dot_chain_ens(
                a.skip(1),
                b.skip(1),
                acc2,
                r,
            )
    }
}

impl<T: AlgebraField, const N: usize> InnerProductSpace<T> for Vector<T, N> {
    open spec fn dot_req(self, rhs: Self) -> bool {
        forall|z: T| T::zero_ens(z) ==> dot_chain_req(self@, rhs@, z)
    }

    open spec fn dot_ens(self, rhs: Self, r: T) -> bool {
        exists|z: T| #![auto] T::zero_ens(z) && dot_chain_ens(self@, rhs@, z, r)
    }

    fn dot(self, rhs: Self) -> (r: T) {
        let mut acc = T::zero();
        let ghost z = acc;
        proof {
            assert(self@.skip(0) =~= self@);
            assert(rhs@.skip(0) =~= rhs@);
        }
        let mut i: usize = 0;
        while i < N
            invariant
                i <= N,
                T::zero_ens(z),
                self@.len() == N && rhs@.len() == N,
                dot_chain_req(self@.skip(i as int), rhs@.skip(i as int), acc),
                forall|rr: T|
                    dot_chain_ens(self@.skip(i as int), rhs@.skip(i as int), acc, rr)
                        ==> dot_chain_ens(self@, rhs@, z, rr),
            decreases N - i,
        {
            let ghost acc0 = acc;
            proof {
                assert(self@.skip(i as int)[0] == self@[i as int]);
                assert(rhs@.skip(i as int)[0] == rhs@[i as int]);
            }
            let c = rhs.0[i].conj();
            let m = self.0[i].mul(c);
            acc = acc.add(m);
            proof {
                assert(self@.skip(i as int).skip(1) =~= self@.skip(i as int + 1));
                assert(rhs@.skip(i as int).skip(1) =~= rhs@.skip(i as int + 1));
                assert forall|rr: T|
                    dot_chain_ens(self@.skip(i as int + 1), rhs@.skip(i as int + 1), acc, rr)
                        implies dot_chain_ens(self@, rhs@, z, rr) by {
                    assert(dot_chain_ens(self@.skip(i as int), rhs@.skip(i as int), acc0, rr));
                };
            }
            i += 1;
        }
        proof {
            assert(dot_chain_ens(self@.skip(i as int), rhs@.skip(i as int), acc, acc));
        }
        acc
    }
}

/// The conditions under which one cross-product component, built from
/// positions `j` and `k` of `a` and `b` as `a[j] * b[k] - a[k] * b[j]`, runs
/// entirely on admitted operand pairs.
pub open spec fn cross_pair_req<T: AlgebraField>(a: Seq<T>, b: Seq<T>, j: int, k: int) -> bool {
    &&& a[j].mul_req(b[k])
    &&& a[k].mul_req(b[j])
    &&& forall|m1: T, m2: T| a[j].mul_ens(b[k], m1) && a[k].mul_ens(b[j], m2) ==> m1.sub_req(m2)
}

/// Relates positions `j` and `k` of `a` and `b` to the cross-product
/// component `r == a[j] * b[k] - a[k] * b[j]`.
pub open spec fn cross_pair_ens<T: AlgebraField>(a: Seq<T>, b: Seq<T>, j: int, k: int, r: T) -> bool {
    exists|m1: T, m2: T|
        #![auto]
        a[j].mul_ens(b[k], m1) && a[k].mul_ens(b[j], m2) && m1.sub_ens(m2, r)
}

impl<T: AlgebraField> CrossProductSpace<T> for Vector<T, 3> {
    open spec fn cross_req(self, rhs: Self) -> bool {
        &&& cross_pair_req(self@, rhs@, 1, 2)
        &&& cross_pair_req(self@, rhs@, 2, 0)
        &&& cross_pair_req(self@, rhs@, 0, 1)
    }

    open spec fn cross_ens(self, rhs: Self, r: Self) -> bool {
        &&& cross_pair_ens(self@, rhs@, 1, 2, r@[0])
        &&& cross_pair_ens(self@, rhs@, 2, 0, r@[1])
        &&& cross_pair_ens(self@, rhs@, 0, 1, r@[2])
    }

    fn cross(self, rhs: Self) -> (r: Self) {
        let c0 = self.0[1].mul(rhs.0[2]).sub(self.0[2].mul(rhs.0[1]));
        let c1 = self.0[2].mul(rhs.0[0]).sub(self.0[0].mul(rhs.0[2]));
        let c2 = self.0[0].mul(rhs.0[1]).sub(self.0[1].mul(rhs.0[0]));
        let mut v = [T::zero(); 3];
        v[0] = c0;
        v[1] = c1;
        v[2] = c2;
        Vector(v)
    }
}

impl<T: AlgebraField> ThreeDVectorSpace<T> for Vector<T, 3> {}

} // verus!
