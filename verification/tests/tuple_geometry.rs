// Magnitude, normalization, dot product and cross product.
// Coordinates are in fixed-point units: 1_000_000 units per 1.0.

use tuple4::tuple::Tuple;
use tuple4::tuple::EPSILON;
use tuple4::tuple::SCALE;

#[test]
fn mag_of_unit_x() {
    let v = Tuple::vector(SCALE, 0, 0);
    assert_eq!(v.mag(), SCALE);
}

#[test]
fn mag_of_unit_y() {
    let v = Tuple::vector(0, SCALE, 0);
    assert_eq!(v.mag(), SCALE);
}

#[test]
fn mag_of_unit_z() {
    let v = Tuple::vector(0, 0, SCALE);
    assert_eq!(v.mag(), SCALE);
}

#[test]
fn mag_of_one_two_three() {
    // sqrt(14) is 3.741657..., rounded down to whole units
    let v = Tuple::vector(1_000_000, 2_000_000, 3_000_000);
    assert_eq!(v.mag(), 3_741_657);
}

#[test]
fn mag_of_negated_one_two_three() {
    let v = Tuple::vector(-1_000_000, -2_000_000, -3_000_000);
    assert_eq!(v.mag(), 3_741_657);
}

#[test]
fn norm_of_axis_vector() {
    let v = Tuple::vector(4_000_000, 0, 0);
    let expected = Tuple::vector(1_000_000, 0, 0);
    assert_eq!(v.norm(), expected);
}

#[test]
fn norm_of_one_two_three() {
    // (1, 2, 3) / sqrt(14), rounded toward zero in whole units
    let v = Tuple::vector(1_000_000, 2_000_000, 3_000_000);
    let n = v.norm();
    assert_eq!(n.x, 267_261);
    assert_eq!(n.y, 534_522);
    assert_eq!(n.z, 801_783);
    assert_eq!(n.w, 0);
}

#[test]
fn mag_of_norm_is_one() {
    let v = Tuple::vector(1_000_000, 2_000_000, 3_000_000);
    let m = v.norm().mag();
    assert!((m - SCALE).abs() < EPSILON);
}

#[test]
fn mag_of_norm_of_large_vector() {
    let v = Tuple::vector(300_000_000, -400_000_000, 1_200_000_000);
    assert_eq!(v.mag(), 1_300_000_000);
    let m = v.norm().mag();
    assert!((m - SCALE).abs() < EPSILON);
}

#[test]
fn dot_of_vectors() {
    let a = Tuple::vector(1_000_000, 2_000_000, 3_000_000);
    let b = Tuple::vector(2_000_000, 3_000_000, 4_000_000);
    assert_eq!(a.dot(&b), 20_000_000);
}

#[test]
fn cross_of_vectors() {
    let a = Tuple::vector(1_000_000, 2_000_000, 3_000_000);
    let b = Tuple::vector(2_000_000, 3_000_000, 4_000_000);
    let expected = Tuple::vector(-1_000_000, 2_000_000, -1_000_000);
    assert_eq!(a.cross(&b), expected);
    assert!(a.cross(&b).is_vector());
}

#[test]
fn cross_reversed() {
    let a = Tuple::vector(1_000_000, 2_000_000, 3_000_000);
    let b = Tuple::vector(2_000_000, 3_000_000, 4_000_000);
    let expected = Tuple::vector(1_000_000, -2_000_000, 1_000_000);
    assert_eq!(b.cross(&a), expected);
}

#[test]
fn cross_anticommutes() {
    let a = Tuple::vector(7_000_000, -3_500_000, 250_000);
    let b = Tuple::vector(-1_250_000, 9_000_000, 4_000_000);
    let lhs = a.cross(&b);
    let rhs = b.cross(&a).negate();
    assert_eq!(lhs.x, rhs.x);
    assert_eq!(lhs.y, rhs.y);
    assert_eq!(lhs.z, rhs.z);
    assert_eq!(lhs.w, rhs.w);
}
