// Construction, classification, and the arithmetic operators.
// Coordinates are in fixed-point units: 1_000_000 units per 1.0.

use tuple4::tuple::Tuple;
use tuple4::tuple::SCALE;

#[test]
fn new_holds_fields() {
    let t = Tuple::new(4_300_000, -4_200_000, 3_100_000, SCALE);
    assert_eq!(t.x, 4_300_000);
    assert_eq!(t.y, -4_200_000);
    assert_eq!(t.z, 3_100_000);
    assert_eq!(t.w, 1_000_000);
}

#[test]
fn point_sets_w_to_one() {
    let p = Tuple::point(4_000_000, -4_000_000, 3_000_000);
    assert_eq!(p.w, SCALE);
}

#[test]
fn vector_sets_w_to_zero() {
    let v = Tuple::vector(4_000_000, -4_000_000, 3_000_000);
    assert_eq!(v.w, 0);
}

#[test]
fn point_classifies_as_point() {
    let p = Tuple::point(4_300_000, -4_200_000, 3_100_000);
    assert!(p.is_point());
    assert!(!p.is_vector());
}

#[test]
fn vector_classifies_as_vector() {
    let v = Tuple::vector(4_300_000, -4_200_000, 3_100_000);
    assert!(v.is_vector());
    assert!(!v.is_point());
}

#[test]
fn add_point_and_vector() {
    let a1 = Tuple::new(3_000_000, -2_000_000, 5_000_000, SCALE);
    let a2 = Tuple::new(-2_000_000, 3_000_000, 1_000_000, 0);
    let sum = a1.add(a2);
    let expected = Tuple::new(1_000_000, 1_000_000, 6_000_000, SCALE);
    assert_eq!(sum, expected);
    assert!(sum.is_point());
}

#[test]
fn add_two_vectors_is_vector() {
    let v1 = Tuple::vector(3_000_000, -2_000_000, 5_000_000);
    let v2 = Tuple::vector(-2_000_000, 3_000_000, 1_000_000);
    assert!(v1.add(v2).is_vector());
}

#[test]
fn sub_point_from_point() {
    let p1 = Tuple::point(3_000_000, 2_000_000, 1_000_000);
    let p2 = Tuple::point(5_000_000, 6_000_000, 7_000_000);
    let diff = p1.sub(p2);
    let expected = Tuple::vector(-2_000_000, -4_000_000, -6_000_000);
    assert_eq!(diff, expected);
    assert!(diff.is_vector());
}

#[test]
fn sub_vector_from_point() {
    let p = Tuple::point(3_000_000, 2_000_000, 1_000_000);
    let v = Tuple::vector(5_000_000, 6_000_000, 7_000_000);
    let diff = p.sub(v);
    let expected = Tuple::point(-2_000_000, -4_000_000, -6_000_000);
    assert_eq!(diff, expected);
    assert!(diff.is_point());
}

#[test]
fn sub_vector_from_vector() {
    let v1 = Tuple::vector(3_000_000, 2_000_000, 1_000_000);
    let v2 = Tuple::vector(5_000_000, 6_000_000, 7_000_000);
    let diff = v1.sub(v2);
    let expected = Tuple::vector(-2_000_000, -4_000_000, -6_000_000);
    assert_eq!(diff, expected);
    assert!(diff.is_vector());
}

#[test]
fn sub_from_zero_vector() {
    let zero = Tuple::vector(0, 0, 0);
    let v = Tuple::vector(1_000_000, -2_000_000, 3_000_000);
    let expected = Tuple::vector(-1_000_000, 2_000_000, -3_000_000);
    assert_eq!(zero.sub(v), expected);
}

#[test]
fn negate_flips_all_fields() {
    let a = Tuple::new(1_000_000, -2_000_000, 3_000_000, -4_000_000);
    let expected = Tuple::new(-1_000_000, 2_000_000, -3_000_000, 4_000_000);
    let n = a.negate();
    assert_eq!(n.x, expected.x);
    assert_eq!(n.y, expected.y);
    assert_eq!(n.z, expected.z);
    assert_eq!(n.w, expected.w);
}

#[test]
fn negate_twice_restores_value() {
    let a = Tuple::new(1_000_000, -2_000_000, 3_000_000, -4_000_000);
    let back = a.negate().negate();
    assert_eq!(back.x, a.x);
    assert_eq!(back.y, a.y);
    assert_eq!(back.z, a.z);
    assert_eq!(back.w, a.w);
}

#[test]
fn scale_by_scalar() {
    // 3.5 is 3_500_000 units
    let a = Tuple::new(1_000_000, -2_000_000, 3_000_000, -4_000_000);
    let expected = Tuple::new(3_500_000, -7_000_000, 10_500_000, -14_000_000);
    let scaled = a.scale(3_500_000);
    assert_eq!(scaled.x, expected.x);
    assert_eq!(scaled.y, expected.y);
    assert_eq!(scaled.z, expected.z);
    assert_eq!(scaled.w, expected.w);
}

#[test]
fn scale_by_fraction() {
    // 0.5 is 500_000 units
    let a = Tuple::new(1_000_000, -2_000_000, 3_000_000, -4_000_000);
    let expected = Tuple::new(500_000, -1_000_000, 1_500_000, -2_000_000);
    let scaled = a.scale(500_000);
    assert_eq!(scaled.x, expected.x);
    assert_eq!(scaled.y, expected.y);
    assert_eq!(scaled.z, expected.z);
    assert_eq!(scaled.w, expected.w);
}

#[test]
fn divide_by_scalar() {
    // 2.0 is 2_000_000 units
    let a = Tuple::new(1_000_000, -2_000_000, 3_000_000, -4_000_000);
    let expected = Tuple::new(500_000, -1_000_000, 1_500_000, -2_000_000);
    let halved = a.divide(2_000_000);
    assert_eq!(halved.x, expected.x);
    assert_eq!(halved.y, expected.y);
    assert_eq!(halved.z, expected.z);
    assert_eq!(halved.w, expected.w);
}

#[test]
fn scale_distributes_over_add() {
    let a = Tuple::new(3_000_000, -2_000_000, 5_000_000, SCALE);
    let b = Tuple::new(-2_000_000, 3_000_000, 1_000_000, 0);
    let k: i64 = 3_500_000;
    let lhs = a.add(b).scale(k);
    let rhs = a.scale(k).add(b.scale(k));
    assert_eq!(lhs, rhs);
}
