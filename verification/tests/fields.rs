//! Field composition: the zero fields as additive identities and absorbing
//! elements of the differential operators, discrete field arithmetic, and the
//! sampling round trip.

use std::marker::PhantomData;

use empre::fields::scalar::{DiscreteScalarField, ZeroScalarField};
use empre::fields::vector::{AnyField, DiscreteVectorField, ZeroVectorField};
use empre::fields::{ScalarField, VectorField};
use empre::prelude::base::Vector;
use empre::prelude::coordinate::CartesianCoordinates;
use empre::prelude::rational::Rat;
use empre::prelude::{Addition, Division, Multiplication, Subtraction, Zero};

fn r(num: i64, den: i64) -> Rat {
    Rat::new(num, den)
}

type Field1 = DiscreteVectorField<
    Rat,
    Vector<Rat, 1>,
    1,
    AnyField,
    CartesianCoordinates,
    AnyField,
>;

fn sample_field(values: &[i64]) -> Field1 {
    let coords: Vec<[Rat; 1]> = (0..values.len()).map(|i| [Rat::from_int(i as i64)]).collect();
    let data: Vec<Vector<Rat, 1>> = values.iter().map(|&v| Vector::new([Rat::from_int(v)])).collect();
    DiscreteVectorField {
        coords,
        data,
        shape: [values.len()],
        _a: PhantomData,
        _c: PhantomData,
        _f: PhantomData,
    }
}

#[test]
fn new_vector_field_is_empty() {
    let f: Field1 = DiscreteVectorField::new();
    assert!(f.coords.is_empty());
    assert!(f.data.is_empty());
    assert_eq!(f.shape, [0]);
}

#[test]
fn zero_plus_field_is_field() {
    // Zero + F == F, for both field kinds
    let f = sample_field(&[4, 5, 6]);
    let g = ZeroVectorField.add(f);
    for (i, &v) in [4i64, 5, 6].iter().enumerate() {
        assert_eq!(g.data[i].index(0), Rat::from_int(v));
        assert_eq!(g.coords[i][0], Rat::from_int(i as i64));
    }
    let s = DiscreteScalarField::<Rat, Rat, 1> {
        coords: vec![[r(0, 1)]],
        data: vec![r(7, 2)],
        shape: [1],
    };
    let t = ZeroScalarField.add(s);
    assert_eq!(t.data[0], r(7, 2));
}

#[test]
fn field_plus_zero_is_field() {
    // F + Zero == F, for both field kinds
    let f = sample_field(&[1, 2, 3]);
    let g = f.add(ZeroVectorField);
    for (i, &v) in [1i64, 2, 3].iter().enumerate() {
        assert_eq!(g.data[i].index(0), Rat::from_int(v));
    }
    let s = DiscreteScalarField::<Rat, Rat, 1> {
        coords: vec![[r(0, 1)]],
        data: vec![r(7, 2)],
        shape: [1],
    };
    let t = s.add(ZeroScalarField);
    assert_eq!(t.data[0], r(7, 2));
}

#[test]
fn zero_scalar_field_operators_return_zero_fields() {
    let z = ZeroScalarField;
    let g: ZeroVectorField = ScalarField::<Rat, (), 3>::grad(&z, ());
    assert_eq!(g, ZeroVectorField);
    let l: ZeroScalarField = ScalarField::<Rat, (), 3>::laplacian(&z, ());
    assert_eq!(l, ZeroScalarField);
}

#[test]
fn zero_vector_field_operators_return_zero_fields() {
    let z = ZeroVectorField;
    type V3 = Vector<Rat, 3>;
    let d: ZeroScalarField = VectorField::<Rat, (), V3, 3>::divergence(&z, ());
    assert_eq!(d, ZeroScalarField);
    let c: ZeroVectorField = VectorField::<Rat, (), V3, 3>::curl(&z, ());
    assert_eq!(c, ZeroVectorField);
    let l: ZeroVectorField = VectorField::<Rat, (), V3, 3>::laplacian(&z, ());
    assert_eq!(l, ZeroVectorField);
    let dv: ZeroScalarField = VectorField::<Rat, (), V3, 3>::dot(&z, Vector::zero());
    assert_eq!(dv, ZeroScalarField);
    let df: ZeroScalarField = VectorField::<Rat, (), V3, 3>::dotf(&z, ZeroVectorField);
    assert_eq!(df, ZeroScalarField);
    let cv: ZeroVectorField = VectorField::<Rat, (), V3, 3>::cross(&z, Vector::zero());
    assert_eq!(cv, ZeroVectorField);
    let cf: ZeroVectorField = VectorField::<Rat, (), V3, 3>::crossf(&z, ZeroVectorField);
    assert_eq!(cf, ZeroVectorField);
    let m: ZeroScalarField = VectorField::<Rat, (), V3, 3>::mag(&z);
    assert_eq!(m, ZeroScalarField);
}

#[test]
fn discrete_field_addition_is_pointwise_and_keeps_coords() {
    let a = sample_field(&[1, 2, 3]);
    let b = sample_field(&[10, 20, 30]);
    let s = a.add(b);
    for (i, &v) in [11i64, 22, 33].iter().enumerate() {
        assert!(s.data[i].index(0).equivalent(Rat::from_int(v)));
        assert_eq!(s.coords[i][0], Rat::from_int(i as i64));
    }
    assert_eq!(s.shape, [3]);
}

#[test]
fn discrete_field_subtraction_is_pointwise() {
    let a = sample_field(&[10, 20, 30]);
    let b = sample_field(&[1, 2, 3]);
    let d = a.sub(b);
    for (i, &v) in [9i64, 18, 27].iter().enumerate() {
        assert!(d.data[i].index(0).equivalent(Rat::from_int(v)));
    }
}

#[test]
fn discrete_field_scaling_is_pointwise() {
    let a = sample_field(&[1, 2, 3]);
    let m = a.mul(r(3, 1));
    for (i, &v) in [3i64, 6, 9].iter().enumerate() {
        assert!(m.data[i].index(0).equivalent(Rat::from_int(v)));
    }
    let b = sample_field(&[2, 4, 6]);
    let d = b.div(r(2, 1));
    for (i, &v) in [1i64, 2, 3].iter().enumerate() {
        assert!(d.data[i].index(0).equivalent(Rat::from_int(v)));
    }
}

#[test]
fn discrete_field_assign_variants_match() {
    let mut a = sample_field(&[1, 2, 3]);
    a.add_assign(sample_field(&[10, 20, 30]));
    for (i, &v) in [11i64, 22, 33].iter().enumerate() {
        assert!(a.data[i].index(0).equivalent(Rat::from_int(v)));
    }
    let mut m = sample_field(&[1, 2, 3]);
    m.mul_assign(r(2, 1));
    for (i, &v) in [2i64, 4, 6].iter().enumerate() {
        assert!(m.data[i].index(0).equivalent(Rat::from_int(v)));
    }
}

#[test]
fn sampling_round_trip_reproduces_field_values() {
    // sampling the zero field onto a grid and reading the data back gives
    // exactly the field's value at every stored coordinate
    let coords: Vec<[Rat; 2]> = vec![
        [r(0, 1), r(0, 1)],
        [r(0, 1), r(1, 1)],
        [r(1, 1), r(0, 1)],
        [r(1, 1), r(1, 1)],
    ];
    let g: DiscreteScalarField<Rat, Rat, 2> =
        DiscreteScalarField::sample(&ZeroScalarField, coords.clone(), [2, 2]);
    assert_eq!(g.data.len(), 4);
    for i in 0..4 {
        assert_eq!(g.coords[i], coords[i]);
        assert_eq!(g.data[i], Rat::zero());
    }
    assert_eq!(g.shape, [2, 2]);
}
