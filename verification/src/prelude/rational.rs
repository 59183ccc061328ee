//! An exact rational scalar backend for the algebra traits.
//!
//! [`Rat`] is a fraction of two machine integers with a positive denominator;
//! it is not kept in lowest terms, so mathematical equality of two values is
//! the cross-multiplied relation [`rat_eqv`], not structural equality. The
//! arithmetic operations are exact: each `*_req` admits exactly the operand
//! pairs whose result fits the representation, and each `*_ens` gives the
//! result fields in closed form.

use vstd::prelude::*;

use crate::prelude::base::{cross_pair_ens, cross_pair_req, dot_chain_ens, dot_chain_req, Vector};
use crate::prelude::{
    Addition, Conjugate, CrossProductSpace, Division, InnerProductSpace, Multiplication, One,
    Subtraction, Zero,
};

verus! {

broadcast use vstd::arithmetic::mul::lemma_mul_is_commutative;

/// An exact rational number `num / den` with `den > 0`.
#[derive(Debug, Clone, Copy, PartialEq, Eq, Structural)]
pub struct Rat {
    /// Numerator.
    pub num: i64,
    /// Denominator; well-formed values keep it strictly positive.
    pub den: i64,
}

/// Well-formedness: the denominator is strictly positive.
pub open spec fn rat_wf(a: Rat) -> bool {
    a.den > 0
}

/// Mathematical equality of two fractions: `a.num / a.den == b.num / b.den`,
/// cross-multiplied so it needs no division.
pub open spec fn rat_eqv(a: Rat, b: Rat) -> bool {
    a.num * b.den == b.num * a.den
}

/// Whether a mathematical integer fits the numerator and denominator type.
pub open spec fn fits_i64(x: int) -> bool {
    i64::MIN <= x <= i64::MAX
}

/// The exact statement that `v == c * x + d` as mathematical rationals,
/// cross-multiplied so it needs no arithmetic on fractions.
pub open spec fn rat_linear(v: Rat, c: Rat, x: Rat, d: Rat) -> bool {
    v.num * (c.den * (x.den * d.den)) == (c.num * x.num * d.den + d.num * (c.den * x.den)) * v.den
}

/// The sum of two fractions, in closed form.
pub open spec fn rat_add(a: Rat, b: Rat) -> Rat {
    Rat {
        num: (a.num * b.den + b.num * a.den) as i64,
        den: (a.den * b.den) as i64,
    }
}

/// Whether the sum of two fractions is representable.
pub open spec fn rat_add_req(a: Rat, b: Rat) -> bool {
    &&& rat_wf(a)
    &&& rat_wf(b)
    &&& fits_i64(a.num * b.den)
    &&& fits_i64(b.num * a.den)
    &&& fits_i64(a.num * b.den + b.num * a.den)
    &&& fits_i64(a.den * b.den)
}

/// The difference of two fractions, in closed form.
pub open spec fn rat_sub(a: Rat, b: Rat) -> Rat {
    Rat {
        num: (a.num * b.den - b.num * a.den) as i64,
        den: (a.den * b.den) as i64,
    }
}

/// Whether the difference of two fractions is representable.
pub open spec fn rat_sub_req(a: Rat, b: Rat) -> bool {
    &&& rat_wf(a)
    &&& rat_wf(b)
    &&& fits_i64(a.num * b.den)
    &&& fits_i64(b.num * a.den)
    &&& fits_i64(a.num * b.den - b.num * a.den)
    &&& fits_i64(a.den * b.den)
}

/// The product of two fractions, in closed form.
pub open spec fn rat_mul(a: Rat, b: Rat) -> Rat {
    Rat {
        num: (a.num * b.num) as i64,
        den: (a.den * b.den) as i64,
    }
}

/// Whether the product of two fractions is representable.
pub open spec fn rat_mul_req(a: Rat, b: Rat) -> bool {
    &&& rat_wf(a)
    &&& rat_wf(b)
    &&& fits_i64(a.num * b.num)
    &&& fits_i64(a.den * b.den)
}

/// The quotient of two fractions, in closed form. The sign of the divisor's
/// numerator moves into the result's numerator so the denominator stays
/// positive.
pub open spec fn rat_div(a: Rat, b: Rat) -> Rat {
    if b.num > 0 {
        Rat {
            num: (a.num * b.den) as i64,
            den: (a.den * b.num) as i64,
        }
    } else {
        Rat {
            num: (-(a.num * b.den)) as i64,
            den: (-(a.den * b.num)) as i64,
        }
    }
}

/// Whether the quotient of two fractions is defined and representable: the
/// divisor must not be zero.
pub open spec fn rat_div_req(a: Rat, b: Rat) -> bool {
    &&& rat_wf(a)
    &&& rat_wf(b)
    &&& b.num != 0
    &&& fits_i64(a.num * b.den)
    &&& fits_i64(a.den * b.num)
    &&& fits_i64(-(a.num * b.den))
    &&& fits_i64(-(a.den * b.num))
}

/// The product of two numerator/denominator sized integers stays within the
/// wide integer type used for exact comparisons.
proof fn lemma_i64_product_fits_i128(x: int, y: int)
    requires
        i64::MIN <= x <= i64::MAX,
        i64::MIN <= y <= i64::MAX,
    ensures
        i128::MIN <= x * y <= i128::MAX,
{
    assert(i128::MIN <= x * y <= i128::MAX) by (nonlinear_arith)
        requires
            -0x8000_0000_0000_0000 <= x <= 0x7fff_ffff_ffff_ffff,
            -0x8000_0000_0000_0000 <= y <= 0x7fff_ffff_ffff_ffff,
    ;
}

impl Rat {
    /// Whether two fractions represent the same rational number.
    pub fn equivalent(self, rhs: Rat) -> (r: bool)
        ensures
            r == rat_eqv(self, rhs),
    {
        proof {
            lemma_i64_product_fits_i128(self.num as int, rhs.den as int);
            lemma_i64_product_fits_i128(rhs.num as int, self.den as int);
        }
        (self.num as i128) * (rhs.den as i128) == (rhs.num as i128) * (self.den as i128)
    }

    /// Builds the fraction `num / den`.
    pub fn new(num: i64, den: i64) -> (r: Rat)
        requires
            den > 0,
        ensures
            r == (Rat { num, den }),
            rat_wf(r),
    {
        Rat { num, den }
    }

    /// Embeds an integer as a fraction with denominator one.
    pub fn from_int(n: i64) -> (r: Rat)
        ensures
            r == (Rat { num: n, den: 1 }),
            rat_wf(r),
    {
        Rat { num: n, den: 1 }
    }
}

impl Addition for Rat {
    open spec fn add_req(self, rhs: Rat) -> bool {
        rat_add_req(self, rhs)
    }

    open spec fn add_ens(self, rhs: Rat, r: Rat) -> bool {
        r == rat_add(self, rhs)
    }

    fn add(self, rhs: Rat) -> (r: Rat) {
        Rat {
            num: self.num * rhs.den + rhs.num * self.den,
            den: self.den * rhs.den,
        }
    }

    fn add_assign(&mut self, rhs: Rat) {
        *self = Rat {
            num: self.num * rhs.den + rhs.num * self.den,
            den: self.den * rhs.den,
        };
    }
}

impl Subtraction for Rat {
    open spec fn sub_req(self, rhs: Rat) -> bool {
        rat_sub_req(self, rhs)
    }

    open spec fn sub_ens(self, rhs: Rat, r: Rat) -> bool {
        r == rat_sub(self, rhs)
    }

    fn sub(self, rhs: Rat) -> (r: Rat) {
        Rat {
            num: self.num * rhs.den - rhs.num * self.den,
            den: self.den * rhs.den,
        }
    }

    fn sub_assign(&mut self, rhs: Rat) {
        *self = Rat {
            num: self.num * rhs.den - rhs.num * self.den,
            den: self.den * rhs.den,
        };
    }
}

impl Multiplication for Rat {
    open spec fn mul_req(self, rhs: Rat) -> bool {
        rat_mul_req(self, rhs)
    }

    open spec fn mul_ens(self, rhs: Rat, r: Rat) -> bool {
        r == rat_mul(self, rhs)
    }

    fn mul(self, rhs: Rat) -> (r: Rat) {
        Rat {
            num: self.num * rhs.num,
            den: self.den * rhs.den,
        }
    }

    fn mul_assign(&mut self, rhs: Rat) {
        *self = Rat {
            num: self.num * rhs.num,
            den: self.den * rhs.den,
        };
    }
}

impl Division for Rat {
    open spec fn div_req(self, rhs: Rat) -> bool {
        rat_div_req(self, rhs)
    }

    open spec fn div_ens(self, rhs: Rat, r: Rat) -> bool {
        r == rat_div(self, rhs)
    }

    fn div(self, rhs: Rat) -> (r: Rat) {
        if rhs.num > 0 {
            Rat {
                num: self.num * rhs.den,
                den: self.den * rhs.num,
            }
        } else {
            Rat {
                num: -(self.num * rhs.den),
                den: -(self.den * rhs.num),
            }
        }
    }

    fn div_assign(&mut self, rhs: Rat) {
        if rhs.num > 0 {
            *self = Rat {
                num: self.num * rhs.den,
                den: self.den * rhs.num,
            };
        } else {
            *self = Rat {
                num: -(self.num * rhs.den),
                den: -(self.den * rhs.num),
            };
        }
    }
}

impl Conjugate for Rat {
    open spec fn conj_req(self) -> bool {
        true
    }

    open spec fn conj_ens(self, r: Rat) -> bool {
        r == self
    }

    fn conj(self) -> (r: Rat) {
        self
    }
}

impl Zero for Rat {
    open spec fn zero_ens(r: Rat) -> bool {
        r == (Rat { num: 0, den: 1 })
    }

    fn zero() -> (r: Rat) {
        Rat { num: 0, den: 1 }
    }
}

impl One for Rat {
    open spec fn one_ens(r: Rat) -> bool {
        r == (Rat { num: 1, den: 1 })
    }

    fn one() -> (r: Rat) {
        Rat { num: 1, den: 1 }
    }
}

/// A complex scalar with exact rational real and imaginary parts.
#[derive(Debug, Clone, Copy, PartialEq, Eq, Structural)]
pub struct ComplexRat {
    /// Real part.
    pub re: Rat,
    /// Imaginary part.
    pub im: Rat,
}

/// Well-formedness: both parts are well-formed fractions.
pub open spec fn crat_wf(z: ComplexRat) -> bool {
    rat_wf(z.re) && rat_wf(z.im)
}

/// Mathematical equality of two complex rationals, part by part.
pub open spec fn crat_eqv(a: ComplexRat, b: ComplexRat) -> bool {
    rat_eqv(a.re, b.re) && rat_eqv(a.im, b.im)
}

/// The negation of a fraction, in closed form.
pub open spec fn rat_neg(a: Rat) -> Rat {
    Rat { num: (-a.num) as i64, den: a.den }
}

/// The sum of two complex rationals, part by part.
pub open spec fn crat_add(a: ComplexRat, b: ComplexRat) -> ComplexRat {
    ComplexRat { re: rat_add(a.re, b.re), im: rat_add(a.im, b.im) }
}

/// Whether the sum of two complex rationals is representable.
pub open spec fn crat_add_req(a: ComplexRat, b: ComplexRat) -> bool {
    rat_add_req(a.re, b.re) && rat_add_req(a.im, b.im)
}

/// The difference of two complex rationals, part by part.
pub open spec fn crat_sub(a: ComplexRat, b: ComplexRat) -> ComplexRat {
    ComplexRat { re: rat_sub(a.re, b.re), im: rat_sub(a.im, b.im) }
}

/// Whether the difference of two complex rationals is representable.
pub open spec fn crat_sub_req(a: ComplexRat, b: ComplexRat) -> bool {
    rat_sub_req(a.re, b.re) && rat_sub_req(a.im, b.im)
}

/// The product of two complex rationals:
/// `(a.re * b.re - a.im * b.im) + (a.re * b.im + a.im * b.re) i`.
pub open spec fn crat_mul(a: ComplexRat, b: ComplexRat) -> ComplexRat {
    ComplexRat {
        re: rat_sub(rat_mul(a.re, b.re), rat_mul(a.im, b.im)),
        im: rat_add(rat_mul(a.re, b.im), rat_mul(a.im, b.re)),
    }
}

/// Whether the product of two complex rationals is representable.
pub open spec fn crat_mul_req(a: ComplexRat, b: ComplexRat) -> bool {
    &&& rat_mul_req(a.re, b.re)
    &&& rat_mul_req(a.im, b.im)
    &&& rat_sub_req(rat_mul(a.re, b.re), rat_mul(a.im, b.im))
    &&& rat_mul_req(a.re, b.im)
    &&& rat_mul_req(a.im, b.re)
    &&& rat_add_req(rat_mul(a.re, b.im), rat_mul(a.im, b.re))
}

/// The squared magnitude of a complex rational: `re * re + im * im`.
pub open spec fn crat_norm_sq(b: ComplexRat) -> Rat {
    rat_add(rat_mul(b.re, b.re), rat_mul(b.im, b.im))
}

/// The conjugate of a complex rational: the imaginary part negated.
pub open spec fn crat_conj(a: ComplexRat) -> ComplexRat {
    ComplexRat { re: a.re, im: rat_neg(a.im) }
}

/// The quotient of two complex rationals:
/// `a * conj(b)` divided, part by part, by the squared magnitude of `b`.
pub open spec fn crat_div(a: ComplexRat, b: ComplexRat) -> ComplexRat {
    ComplexRat {
        re: rat_div(crat_mul(a, crat_conj(b)).re, crat_norm_sq(b)),
        im: rat_div(crat_mul(a, crat_conj(b)).im, crat_norm_sq(b)),
    }
}

/// Whether the quotient of two complex rationals is defined and
/// representable: the divisor must not be zero.
pub open spec fn crat_div_req(a: ComplexRat, b: ComplexRat) -> bool {
    &&& fits_i64(-b.im.num)
    &&& crat_mul_req(a, crat_conj(b))
    &&& rat_mul_req(b.re, b.re)
    &&& rat_mul_req(b.im, b.im)
    &&& rat_add_req(rat_mul(b.re, b.re), rat_mul(b.im, b.im))
    &&& rat_div_req(crat_mul(a, crat_conj(b)).re, crat_norm_sq(b))
    &&& rat_div_req(crat_mul(a, crat_conj(b)).im, crat_norm_sq(b))
}

impl Addition for ComplexRat {
    open spec fn add_req(self, rhs: ComplexRat) -> bool {
        crat_add_req(self, rhs)
    }

    open spec fn add_ens(self, rhs: ComplexRat, r: ComplexRat) -> bool {
        r == crat_add(self, rhs)
    }

    fn add(self, rhs: ComplexRat) -> (r: ComplexRat) {
        ComplexRat { re: self.re.add(rhs.re), im: self.im.add(rhs.im) }
    }

    fn add_assign(&mut self, rhs: ComplexRat) {
        *self = ComplexRat { re: self.re.add(rhs.re), im: self.im.add(rhs.im) };
    }
}

impl Subtraction for ComplexRat {
    open spec fn sub_req(self, rhs: ComplexRat) -> bool {
        crat_sub_req(self, rhs)
    }

    open spec fn sub_ens(self, rhs: ComplexRat, r: ComplexRat) -> bool {
        r == crat_sub(self, rhs)
    }

    fn sub(self, rhs: ComplexRat) -> (r: ComplexRat) {
        ComplexRat { re: self.re.sub(rhs.re), im: self.im.sub(rhs.im) }
    }

    fn sub_assign(&mut self, rhs: ComplexRat) {
        *self = ComplexRat { re: self.re.sub(rhs.re), im: self.im.sub(rhs.im) };
    }
}

impl Multiplication for ComplexRat {
    open spec fn mul_req(self, rhs: ComplexRat) -> bool {
        crat_mul_req(self, rhs)
    }

    open spec fn mul_ens(self, rhs: ComplexRat, r: ComplexRat) -> bool {
        r == crat_mul(self, rhs)
    }

    fn mul(self, rhs: ComplexRat) -> (r: ComplexRat) {
        ComplexRat {
            re: self.re.mul(rhs.re).sub(self.im.mul(rhs.im)),
            im: self.re.mul(rhs.im).add(self.im.mul(rhs.re)),
        }
    }

    fn mul_assign(&mut self, rhs: ComplexRat) {
        let s = *self;
        *self = s.mul(rhs);
    }
}

impl Division for ComplexRat {
    open spec fn div_req(self, rhs: ComplexRat) -> bool {
        crat_div_req(self, rhs)
    }

    open spec fn div_ens(self, rhs: ComplexRat, r: ComplexRat) -> bool {
        r == crat_div(self, rhs)
    }

    fn div(self, rhs: ComplexRat) -> (r: ComplexRat) {
        let conj = rhs.conj();
        let num = self.mul(conj);
        let m = rhs.re.mul(rhs.re).add(rhs.im.mul(rhs.im));
        ComplexRat { re: num.re.div(m), im: num.im.div(m) }
    }

    fn div_assign(&mut self, rhs: ComplexRat) {
        let s = *self;
        *self = s.div(rhs);
    }
}

impl Conjugate for ComplexRat {
    open spec fn conj_req(self) -> bool {
        fits_i64(-self.im.num)
    }

    /// True complex conjugation: the imaginary part changes sign.
    open spec fn conj_ens(self, r: ComplexRat) -> bool {
        r == crat_conj(self)
    }

    fn conj(self) -> (r: ComplexRat) {
        ComplexRat { re: self.re, im: Rat { num: -self.im.num, den: self.im.den } }
    }
}

impl Zero for ComplexRat {
    open spec fn zero_ens(r: ComplexRat) -> bool {
        r == (ComplexRat { re: Rat { num: 0, den: 1 }, im: Rat { num: 0, den: 1 } })
    }

    fn zero() -> (r: ComplexRat) {
        ComplexRat { re: Rat { num: 0, den: 1 }, im: Rat { num: 0, den: 1 } }
    }
}

impl One for ComplexRat {
    open spec fn one_ens(r: ComplexRat) -> bool {
        r == (ComplexRat { re: Rat { num: 1, den: 1 }, im: Rat { num: 0, den: 1 } })
    }

    fn one() -> (r: ComplexRat) {
        ComplexRat { re: Rat { num: 1, den: 1 }, im: Rat { num: 0, den: 1 } }
    }
}

/// One cross-product component of a rational vector against itself is zero:
/// it has the shape `a[x] * a[y] - a[y] * a[x]`, and rational multiplication
/// commutes.
proof fn lemma_cross_pair_self(a: Seq<Rat>, x: int, y: int, r: Rat)
    requires
        cross_pair_req(a, a, x, y),
        cross_pair_ens(a, a, x, y, r),
    ensures
        rat_eqv(r, Rat { num: 0, den: 1 }),
{
    let (m1, m2) = choose|m1: Rat, m2: Rat|
        #![auto]
        a[x].mul_ens(a[y], m1) && a[y].mul_ens(a[x], m2) && m1.sub_ens(m2, r);
    assert(m1 == rat_mul(a[x], a[y]));
    assert(m2 == rat_mul(a[y], a[x]));
    assert(m1 == m2);
    assert(r.num == 0);
}

/// Law: the cross product of any rational vector with itself is the zero
/// vector — every component equals zero as a mathematical rational.
pub proof fn lemma_cross_self_vanishes(v: Vector<Rat, 3>, r: Vector<Rat, 3>)
    requires
        v.cross_req(v),
        v.cross_ens(v, r),
    ensures
        forall|j: int| 0 <= j < 3 ==> rat_eqv(#[trigger] r@[j], Rat { num: 0, den: 1 }),
{
    assert forall|j: int| 0 <= j < 3 implies rat_eqv(#[trigger] r@[j], Rat { num: 0, den: 1 }) by {
        if j == 0 {
            lemma_cross_pair_self(v@, 1, 2, r@[0]);
        } else if j == 1 {
            lemma_cross_pair_self(v@, 2, 0, r@[1]);
        } else {
            lemma_cross_pair_self(v@, 0, 1, r@[2]);
        }
    }
}

/// One cross-product component of a complex rational vector against itself
/// is zero: complex rational multiplication commutes part by part.
proof fn lemma_crat_cross_pair_self(a: Seq<ComplexRat>, x: int, y: int, r: ComplexRat)
    requires
        cross_pair_req(a, a, x, y),
        cross_pair_ens(a, a, x, y, r),
    ensures
        rat_eqv(r.re, Rat { num: 0, den: 1 }),
        rat_eqv(r.im, Rat { num: 0, den: 1 }),
{
    let (m1, m2) = choose|m1: ComplexRat, m2: ComplexRat|
        #![auto]
        a[x].mul_ens(a[y], m1) && a[y].mul_ens(a[x], m2) && m1.sub_ens(m2, r);
    assert(m1 == crat_mul(a[x], a[y]));
    assert(m2 == crat_mul(a[y], a[x]));
    assert(m1 == m2);
    assert(r.re.num == 0);
    assert(r.im.num == 0);
}

/// Law: the cross product of any complex rational vector with itself is the
/// zero vector — every component equals zero as a mathematical complex
/// rational.
pub proof fn lemma_crat_cross_self_vanishes(v: Vector<ComplexRat, 3>, r: Vector<ComplexRat, 3>)
    requires
        v.cross_req(v),
        v.cross_ens(v, r),
    ensures
        forall|j: int|
            0 <= j < 3 ==> crat_eqv(
                #[trigger] r@[j],
                ComplexRat { re: Rat { num: 0, den: 1 }, im: Rat { num: 0, den: 1 } },
            ),
{
    assert forall|j: int|
        0 <= j < 3 implies crat_eqv(
        #[trigger] r@[j],
        ComplexRat { re: Rat { num: 0, den: 1 }, im: Rat { num: 0, den: 1 } },
    ) by {
        if j == 0 {
            lemma_crat_cross_pair_self(v@, 1, 2, r@[0]);
        } else if j == 1 {
            lemma_crat_cross_pair_self(v@, 2, 0, r@[1]);
        } else {
            lemma_crat_cross_pair_self(v@, 0, 1, r@[2]);
        }
    }
}

/// The conjugating inner-product fold of a complex rational sequence against
/// itself keeps the accumulator real and non-negative: each step adds a term
/// `z * conj(z)`, whose imaginary part is exactly zero and whose real part is
/// a sum of squares.
proof fn lemma_dot_self_chain(a: Seq<ComplexRat>, acc: ComplexRat, r: ComplexRat)
    requires
        forall|i: int| 0 <= i < a.len() ==> crat_wf(#[trigger] a[i]),
        crat_wf(acc),
        acc.im.num == 0,
        acc.re.num >= 0,
        dot_chain_req(a, a, acc),
        dot_chain_ens(a, a, acc, r),
    ensures
        crat_wf(r),
        r.im.num == 0,
        r.re.num >= 0,
    decreases a.len(),
{
    if a.len() == 0 {
        assert(r == acc);
    } else {
        let (c, m, acc2) = choose|c: ComplexRat, m: ComplexRat, acc2: ComplexRat|
            #![auto]
            a[0].conj_ens(c) && a[0].mul_ens(c, m) && acc.add_ens(m, acc2) && dot_chain_ens(
                a.skip(1),
                a.skip(1),
                acc2,
                r,
            );
        let z = a[0];
        // the head operations are admitted, so every cast below is exact
        assert(a[0].conj_req());
        assert(a[0].mul_req(c));
        assert(acc.add_req(m));
        assert(c == crat_conj(z));
        assert(m == crat_mul(z, c));
        let pn = z.re.num as int;
        let pd = z.re.den as int;
        let qn = z.im.num as int;
        let qd = z.im.den as int;
        assert(c.im.num == -qn);
        assert(c.im.den == qd);
        // imaginary part of z * conj(z): pn * (-qn) * (qd * pd) + qn * pn * (pd * qd) == 0
        let u = rat_mul(z.re, c.im);
        let w = rat_mul(z.im, c.re);
        assert(m.im == rat_add(u, w));
        assert(u.num == pn * (-qn) && u.den == pd * qd);
        assert(w.num == qn * pn && w.den == qd * pd);
        assert(u.num * w.den + w.num * u.den == 0) by (nonlinear_arith)
            requires
                u.num == pn * (-qn),
                w.num == qn * pn,
                u.den == pd * qd,
                w.den == qd * pd,
        ;
        assert(m.im.num == 0);
        assert(u.den * w.den > 0) by (nonlinear_arith)
            requires
                u.den == pd * qd,
                w.den == qd * pd,
                pd > 0,
                qd > 0,
        ;
        assert(m.im.den > 0);
        // real part of z * conj(z): pn^2 * qd^2 + qn^2 * pd^2 >= 0, over
        // pd^2 * qd^2 > 0
        let v1 = rat_mul(z.re, c.re);
        let v2 = rat_mul(z.im, c.im);
        assert(m.re == rat_sub(v1, v2));
        assert(v1.num == pn * pn && v1.den == pd * pd);
        assert(v2.num == qn * (-qn) && v2.den == qd * qd);
        assert(v1.num * v2.den - v2.num * v1.den >= 0) by (nonlinear_arith)
            requires
                v1.num == pn * pn,
                v2.num == qn * (-qn),
                v1.den == pd * pd,
                v2.den == qd * qd,
        ;
        assert(m.re.num >= 0);
        assert(v1.den * v2.den > 0) by (nonlinear_arith)
            requires
                v1.den == pd * pd,
                v2.den == qd * qd,
                pd > 0,
                qd > 0,
        ;
        assert(m.re.den > 0);
        // the new accumulator stays real and non-negative
        assert(acc2 == crat_add(acc, m));
        assert(acc.im.num * m.im.den + m.im.num * acc.im.den == 0) by (nonlinear_arith)
            requires
                acc.im.num == 0,
                m.im.num == 0,
        ;
        assert(acc2.im.num == 0);
        assert(acc2.re.num >= 0) by (nonlinear_arith)
            requires
                acc2.re.num == acc.re.num * m.re.den + m.re.num * acc.re.den,
                acc.re.num >= 0,
                m.re.num >= 0,
                acc.re.den > 0,
                m.re.den > 0,
        ;
        assert(acc2.re.den > 0) by (nonlinear_arith)
            requires
                acc2.re.den == acc.re.den * m.re.den,
                acc.re.den > 0,
                m.re.den > 0,
        ;
        assert(acc2.im.den > 0) by (nonlinear_arith)
            requires
                acc2.im.den == acc.im.den * m.im.den,
                acc.im.den > 0,
                m.im.den > 0,
        ;
        assert(forall|i: int| 0 <= i < a.skip(1).len() ==> crat_wf(#[trigger] a.skip(1)[i]));
        lemma_dot_self_chain(a.skip(1), acc2, r);
    }
}

/// Law: for complex rational vectors, the conjugate-based inner product of a
/// vector with itself is real (its imaginary part equals zero) and
/// non-negative (its real part is at least zero).
pub proof fn lemma_dot_self_hermitian<const N: usize>(v: Vector<ComplexRat, N>, r: ComplexRat)
    requires
        forall|i: int| 0 <= i < N ==> crat_wf(#[trigger] v@[i]),
        v.dot_req(v),
        v.dot_ens(v, r),
    ensures
        rat_eqv(r.im, Rat { num: 0, den: 1 }),
        r.re.num >= 0,
{
    let z = choose|z: ComplexRat| #![auto] ComplexRat::zero_ens(z) && dot_chain_ens(v@, v@, z, r);
    assert(z == (ComplexRat { re: Rat { num: 0, den: 1 }, im: Rat { num: 0, den: 1 } }));
    lemma_dot_self_chain(v@, z, r);
}

} // verus!
