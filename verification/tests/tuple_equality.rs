// The approximate-equality policy: x, y, z within EPSILON, w exact.
// Coordinates are in fixed-point units: 1_000_000 units per 1.0.

use tuple4::tuple::Tuple;

#[test]
fn equal_within_tolerance() {
    // nine units is 0.000009, inside the 0.00001 tolerance
    let a = Tuple::new(4_000_000, -4_000_000, 3_000_000, 1_000_000);
    let b = Tuple::new(4_000_009, -4_000_009, 3_000_009, 1_000_000);
    assert!(a.approx_eq(&b));
    assert_eq!(a, b);
}

#[test]
fn unequal_beyond_tolerance() {
    // ten units is 0.00001, at the tolerance, so unequal
    let a = Tuple::new(4_000_000, -4_000_000, 3_000_000, 1_000_000);
    let bx = Tuple::new(4_000_010, -4_000_000, 3_000_000, 1_000_000);
    let by = Tuple::new(4_000_000, -4_000_010, 3_000_000, 1_000_000);
    let bz = Tuple::new(4_000_000, -4_000_000, 3_000_010, 1_000_000);
    assert!(!a.approx_eq(&bx));
    assert!(!a.approx_eq(&by));
    assert!(!a.approx_eq(&bz));
    assert_ne!(a, bx);
}

#[test]
fn unequal_on_w() {
    // w is compared exactly: one single unit of difference separates them
    let a = Tuple::new(4_000_000, -4_000_000, 3_000_000, 1_000_000);
    let b = Tuple::new(4_000_000, -4_000_000, 3_000_000, 999_999);
    assert!(!a.approx_eq(&b));
    assert_ne!(a, b);
}

#[test]
fn point_equals_literal() {
    let p = Tuple::point(4_000_000, -4_000_000, 3_000_000);
    let literal = Tuple::new(4_000_000, -4_000_000, 3_000_000, 1_000_000);
    assert!(p.approx_eq(&literal));
    assert_eq!(p, literal);
    assert!(p.is_point());
}

#[test]
fn approx_eq_agrees_with_operator() {
    let a = Tuple::vector(1_000_004, 2_000_000, 3_000_000);
    let b = Tuple::vector(1_000_000, 2_000_000, 3_000_000);
    assert_eq!(a.approx_eq(&b), a == b);
}
