//! Component-wise vector arithmetic, the conjugating inner product, and the
//! three-dimensional cross product.

use empre::prelude::base::{Vector, Vector3};
use empre::prelude::rational::{ComplexRat, Rat};
use empre::prelude::{
    Addition, CrossProductSpace, Division, InnerProductSpace, Multiplication, Subtraction, Zero,
};

fn r(num: i64, den: i64) -> Rat {
    Rat::new(num, den)
}

fn c(re: i64, im: i64) -> ComplexRat {
    ComplexRat {
        re: Rat::new(re, 1),
        im: Rat::new(im, 1),
    }
}

#[test]
fn vector_zero_and_default() {
    let z: Vector<Rat, 4> = Vector::zero();
    let d: Vector<Rat, 4> = Default::default();
    for i in 0..4 {
        assert_eq!(z.index(i), Rat::zero());
        assert_eq!(d.index(i), Rat::zero());
    }
}

#[test]
fn vector_set_and_index() {
    let mut v: Vector<Rat, 3> = Vector::zero();
    v.set(1, r(7, 2));
    assert_eq!(v.index(0), Rat::zero());
    assert_eq!(v.index(1), r(7, 2));
    assert_eq!(v.index(2), Rat::zero());
}

#[test]
fn vector_add_componentwise() {
    let a = Vector::new([r(1, 2), r(1, 3), r(1, 4)]);
    let b = Vector::new([r(1, 2), r(2, 3), r(3, 4)]);
    let s = a.add(b);
    assert_eq!(s.index(0), r(1, 2).add(r(1, 2)));
    assert_eq!(s.index(1), r(1, 3).add(r(2, 3)));
    assert_eq!(s.index(2), r(1, 4).add(r(3, 4)));
}

#[test]
fn vector_sub_componentwise() {
    let a = Vector::new([r(1, 2), r(1, 3)]);
    let b = Vector::new([r(1, 3), r(1, 2)]);
    let d = a.sub(b);
    assert!(d.index(0).equivalent(r(1, 6)));
    assert!(d.index(1).equivalent(r(-1, 6)));
}

#[test]
fn vector_scaling() {
    let a = Vector::new([r(1, 2), r(3, 4)]);
    let m = a.mul(r(2, 1));
    assert!(m.index(0).equivalent(r(1, 1)));
    assert!(m.index(1).equivalent(r(3, 2)));
    let d = a.div(r(2, 1));
    assert!(d.index(0).equivalent(r(1, 4)));
    assert!(d.index(1).equivalent(r(3, 8)));
}

#[test]
fn vector_assign_variants_match() {
    let a = Vector::new([r(1, 2), r(1, 3)]);
    let b = Vector::new([r(1, 4), r(1, 5)]);
    let mut s = a;
    s.add_assign(b);
    let t = a.add(b);
    assert_eq!(s.index(0), t.index(0));
    assert_eq!(s.index(1), t.index(1));
    let mut m = a;
    m.mul_assign(r(3, 1));
    let n = a.mul(r(3, 1));
    assert_eq!(m.index(0), n.index(0));
    assert_eq!(m.index(1), n.index(1));
}

#[test]
fn rational_dot_product_exact() {
    // (1, 2, 3) . (4, 5, 6) == 32
    let a = Vector::new([r(1, 1), r(2, 1), r(3, 1)]);
    let b = Vector::new([r(4, 1), r(5, 1), r(6, 1)]);
    let d = a.dot(b);
    assert!(d.equivalent(r(32, 1)));
}

#[test]
fn complex_dot_conjugates_right_operand() {
    // (i) . (i) == i * conj(i) == 1, not -1
    let a: Vector<ComplexRat, 1> = Vector::new([c(0, 1)]);
    let b: Vector<ComplexRat, 1> = Vector::new([c(0, 1)]);
    let d = a.dot(b);
    assert!(d.re.equivalent(r(1, 1)));
    assert!(d.im.equivalent(r(0, 1)));
}

#[test]
fn complex_dot_self_is_real_and_non_negative() {
    // |1+2i|^2 + |3-1i|^2 == 5 + 10 == 15
    let v: Vector<ComplexRat, 2> = Vector::new([c(1, 2), c(3, -1)]);
    let d = v.dot(v);
    assert!(d.im.equivalent(r(0, 1)));
    assert!(d.re.equivalent(r(15, 1)));
    assert!(d.re.num >= 0);
}

#[test]
fn cross_product_exact() {
    // (1, 0, 0) x (0, 1, 0) == (0, 0, 1)
    let x: Vector3<Rat> = Vector::new([r(1, 1), r(0, 1), r(0, 1)]);
    let y: Vector3<Rat> = Vector::new([r(0, 1), r(1, 1), r(0, 1)]);
    let z = x.cross(y);
    assert!(z.index(0).equivalent(r(0, 1)));
    assert!(z.index(1).equivalent(r(0, 1)));
    assert!(z.index(2).equivalent(r(1, 1)));
}

#[test]
fn cross_self_vanishes() {
    let v: Vector3<Rat> = Vector::new([r(3, 2), r(-5, 7), r(9, 4)]);
    let z = v.cross(v);
    for i in 0..3 {
        assert!(z.index(i).equivalent(Rat::zero()));
    }
}

#[test]
fn complex_cross_self_vanishes() {
    let v: Vector3<ComplexRat> = Vector::new([c(1, 2), c(-3, 4), c(5, -6)]);
    let z = v.cross(v);
    for i in 0..3 {
        assert!(z.index(i).re.equivalent(Rat::zero()));
        assert!(z.index(i).im.equivalent(Rat::zero()));
    }
}
