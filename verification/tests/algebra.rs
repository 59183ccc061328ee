//! Exact arithmetic of the rational and complex rational scalar backends.

use empre::prelude::rational::{ComplexRat, Rat};
use empre::prelude::{Addition, Conjugate, Division, Multiplication, One, Subtraction, Zero};

fn r(num: i64, den: i64) -> Rat {
    Rat::new(num, den)
}

#[test]
fn rat_add_exact() {
    // 1/2 + 1/3 == 5/6
    let s = r(1, 2).add(r(1, 3));
    assert_eq!(s, r(5, 6));
}

#[test]
fn rat_sub_exact() {
    // 1/2 - 1/3 == 1/6
    let d = r(1, 2).sub(r(1, 3));
    assert_eq!(d, r(1, 6));
}

#[test]
fn rat_mul_exact() {
    // 2/3 * 9/4 == 18/12 == 3/2
    let p = r(2, 3).mul(r(9, 4));
    assert_eq!(p, r(18, 12));
    assert!(p.equivalent(r(3, 2)));
}

#[test]
fn rat_div_exact() {
    // (1/2) / (3/4) == 4/6 == 2/3
    let q = r(1, 2).div(r(3, 4));
    assert_eq!(q, r(4, 6));
    assert!(q.equivalent(r(2, 3)));
}

#[test]
fn rat_div_negative_divisor_keeps_denominator_positive() {
    // (1/2) / (-3/4) == -4/6
    let q = r(1, 2).div(r(-3, 4));
    assert_eq!(q, r(-4, 6));
    assert!(q.den > 0);
    assert!(q.equivalent(r(-2, 3)));
}

#[test]
fn rat_assign_variants_match() {
    let mut a = r(1, 2);
    a.add_assign(r(1, 3));
    assert_eq!(a, r(1, 2).add(r(1, 3)));
    let mut s = r(1, 2);
    s.sub_assign(r(1, 3));
    assert_eq!(s, r(1, 2).sub(r(1, 3)));
    let mut m = r(2, 3);
    m.mul_assign(r(9, 4));
    assert_eq!(m, r(2, 3).mul(r(9, 4)));
    let mut d = r(1, 2);
    d.div_assign(r(3, 4));
    assert_eq!(d, r(1, 2).div(r(3, 4)));
}

#[test]
fn rat_conjugation_is_identity() {
    assert_eq!(r(-7, 3).conj(), r(-7, 3));
}

#[test]
fn rat_zero_and_one() {
    assert_eq!(Rat::zero(), r(0, 1));
    assert_eq!(Rat::one(), r(1, 1));
    assert_eq!(Rat::from_int(-4), r(-4, 1));
    // adding zero changes nothing up to equivalence
    let s = r(5, 7).add(Rat::zero());
    assert!(s.equivalent(r(5, 7)));
}

#[test]
fn rat_equivalence_ignores_scaling() {
    assert!(r(2, 4).equivalent(r(1, 2)));
    assert!(!r(2, 4).equivalent(r(2, 3)));
    assert!(r(-3, 6).equivalent(r(-1, 2)));
    assert!(r(0, 5).equivalent(Rat::zero()));
}

fn c(re_n: i64, re_d: i64, im_n: i64, im_d: i64) -> ComplexRat {
    ComplexRat {
        re: Rat::new(re_n, re_d),
        im: Rat::new(im_n, im_d),
    }
}

#[test]
fn complex_add_and_sub_are_componentwise() {
    let a = c(1, 2, 1, 3);
    let b = c(1, 4, 1, 6);
    let s = a.add(b);
    assert_eq!(s.re, r(1, 2).add(r(1, 4)));
    assert_eq!(s.im, r(1, 3).add(r(1, 6)));
    let d = a.sub(b);
    assert_eq!(d.re, r(1, 2).sub(r(1, 4)));
    assert_eq!(d.im, r(1, 3).sub(r(1, 6)));
}

#[test]
fn complex_mul_exact() {
    // (1 + 2i) * (3 + 4i) == -5 + 10i
    let a = c(1, 1, 2, 1);
    let b = c(3, 1, 4, 1);
    let p = a.mul(b);
    assert!(p.re.equivalent(r(-5, 1)));
    assert!(p.im.equivalent(r(10, 1)));
}

#[test]
fn complex_div_exact() {
    // (1 + 2i) / (3 + 4i) == (11 + 2i) / 25
    let a = c(1, 1, 2, 1);
    let b = c(3, 1, 4, 1);
    let q = a.div(b);
    assert!(q.re.equivalent(r(11, 25)));
    assert!(q.im.equivalent(r(2, 25)));
}

#[test]
fn complex_conjugation_negates_imaginary_part() {
    let z = c(1, 2, 3, 4);
    let w = z.conj();
    assert_eq!(w.re, r(1, 2));
    assert_eq!(w.im, r(-3, 4));
}

#[test]
fn complex_zero_and_one() {
    let z = ComplexRat::zero();
    assert_eq!(z.re, r(0, 1));
    assert_eq!(z.im, r(0, 1));
    let o = ComplexRat::one();
    assert_eq!(o.re, r(1, 1));
    assert_eq!(o.im, r(0, 1));
}
