//! The clamped central finite difference on discrete grids.

use empre::fields::scalar::DiscreteScalarField;
use empre::prelude::derivative::{Derivation, DiscreteDerivative};
use empre::prelude::rational::Rat;

fn r(num: i64, den: i64) -> Rat {
    Rat::new(num, den)
}

/// A one-dimensional grid with the given coordinates and values.
fn grid1(coords: &[Rat], values: &[Rat]) -> DiscreteScalarField<Rat, Rat, 1> {
    DiscreteScalarField {
        coords: coords.iter().map(|&x| [x]).collect(),
        data: values.to_vec(),
        shape: [coords.len()],
    }
}

/// The grid of five uniformly spaced points 0..=4 sampling f(x) == 2 x.
fn doubling_grid() -> DiscreteScalarField<Rat, Rat, 1> {
    let coords: Vec<Rat> = (0..5).map(Rat::from_int).collect();
    let values: Vec<Rat> = (0..5).map(|x| Rat::from_int(2 * x)).collect();
    grid1(&coords, &values)
}

#[test]
fn linear_interior_point_is_exact() {
    // f(x) == 2 x at index 2: central difference (f(3) - f(1)) / 2 == 2
    let v = DiscreteDerivative.derivate_at(doubling_grid(), [2], None).unwrap();
    assert_eq!(v, r(4, 2));
    assert!(v.equivalent(r(2, 1)));
}

#[test]
fn linear_left_boundary_uses_single_spacing() {
    // at index 0 the backward neighbour clamps onto the point itself, so the
    // step is the single grid spacing (1), not double, and the one-sided
    // slope (f(1) - f(0)) / 1 == 2 comes out exactly
    let v = DiscreteDerivative.derivate_at(doubling_grid(), [0], None).unwrap();
    assert_eq!(v, r(2, 1));
}

#[test]
fn linear_right_boundary_uses_single_spacing() {
    let v = DiscreteDerivative.derivate_at(doubling_grid(), [4], None).unwrap();
    assert_eq!(v, r(2, 1));
}

#[test]
fn linear_on_non_uniform_grid_is_still_exact() {
    // f(x) == 2 x + 1 sampled at 0, 1, 3: the telescoped step at index 1 is
    // (3 - 1) + (1 - 0) == 3 and (f(3) - f(0)) / 3 == 2 exactly
    let coords = [r(0, 1), r(1, 1), r(3, 1)];
    let values = [r(1, 1), r(3, 1), r(7, 1)];
    let v = DiscreteDerivative.derivate_at(grid1(&coords, &values), [1], None).unwrap();
    assert!(v.equivalent(r(2, 1)));
}

/// A 2 x 3 grid with unit spacing whose value at (i, j) is the given
/// function of the multi-index.
fn grid2(f: impl Fn(i64, i64) -> Rat) -> DiscreteScalarField<Rat, Rat, 2> {
    let mut coords: Vec<[Rat; 2]> = Vec::new();
    let mut data: Vec<Rat> = Vec::new();
    for i in 0..2 {
        for j in 0..3 {
            coords.push([Rat::from_int(i), Rat::from_int(j)]);
            data.push(f(i, j));
        }
    }
    DiscreteScalarField { coords, data, shape: [2, 3] }
}

#[test]
fn constant_axis_gives_zero_everywhere() {
    // the value depends only on the first index, so the derivative along the
    // second axis is zero at every grid point
    let g = grid2(|i, _| Rat::from_int(10 * i));
    for i in 0..2 {
        for j in 0..3 {
            let v = DiscreteDerivative
                .derivate_at(g.clone(), [i, j], Some(1))
                .unwrap();
            assert!(v.equivalent(Rat::from_int(0)));
        }
    }
}

#[test]
fn axis_selection_differentiates_the_chosen_axis() {
    // f(i, j) == 3 i + 5 j with unit spacing along both axes
    let g = grid2(|i, j| Rat::from_int(3 * i + 5 * j));
    let di = DiscreteDerivative.derivate_at(g.clone(), [0, 1], Some(0)).unwrap();
    assert!(di.equivalent(Rat::from_int(3)));
    let dj = DiscreteDerivative.derivate_at(g.clone(), [1, 1], Some(1)).unwrap();
    assert!(dj.equivalent(Rat::from_int(5)));
}

#[test]
fn omitted_axis_on_multi_axis_grid_yields_no_result() {
    let g = grid2(|i, j| Rat::from_int(i + j));
    assert_eq!(DiscreteDerivative.derivate_at(g, [1, 1], None), None);
}

#[test]
fn one_axis_grid_ignores_the_axis_selector() {
    let v = DiscreteDerivative.derivate_at(doubling_grid(), [2], Some(0)).unwrap();
    assert!(v.equivalent(r(2, 1)));
}
