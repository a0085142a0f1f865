use vec3::arith::scale;
use vec3::Color;
use vec3::Point3;
use vec3::Vec3;

#[test]
fn test_vec_add() {
    let result = Vec3::new(0.0, 0.0, 0.0) + Vec3::new(1.0, 1.0, 1.0);
    assert_eq!(result, Vec3::new(1.0, 1.0, 1.0));
}

#[test]
fn test_vec_mult() {
    let result = Vec3::new(5.0, 5.0, 1.0) * 3.0;
    assert_eq!(result, Vec3::new(15.0, 15.0, 3.0));
}

#[test]
fn new_keeps_the_components_in_order() {
    let v = Vec3::new(1.5, -2.0, 3.25);
    assert_eq!(v.x(), 1.5);
    assert_eq!(v.y(), -2.0);
    assert_eq!(v.z(), 3.25);
}

#[test]
fn new_accepts_non_finite_components() {
    let v = Vec3::new(f64::NAN, f64::INFINITY, f64::NEG_INFINITY);
    assert!(v.x().is_nan());
    assert_eq!(v.y(), f64::INFINITY);
    assert_eq!(v.z(), f64::NEG_INFINITY);
}

#[test]
fn index_reads_the_component_at_each_position() {
    let v = Vec3::new(7.0, 8.0, 9.0);
    assert_eq!(v[0], 7.0);
    assert_eq!(v[1], 8.0);
    assert_eq!(v[2], 9.0);
    assert_eq!(v[0], v.x());
    assert_eq!(v[1], v.y());
    assert_eq!(v[2], v.z());
}

#[test]
fn index_write_changes_one_component_only() {
    let mut v = Vec3::new(7.0, 8.0, 9.0);
    v[1] = -1.0;
    assert_eq!(v, Vec3::new(7.0, -1.0, 9.0));
    v[0] = 0.5;
    v[2] = 2.5;
    assert_eq!(v, Vec3::new(0.5, -1.0, 2.5));
}

#[test]
fn a_vector_is_copied_by_value() {
    let a = Vec3::new(1.0, 2.0, 3.0);
    let mut b = a;
    b[0] = 10.0;
    assert_eq!(a, Vec3::new(1.0, 2.0, 3.0));
    assert_eq!(b, Vec3::new(10.0, 2.0, 3.0));
    let c = a.clone();
    assert_eq!(c, a);
}

#[test]
fn point_and_color_are_the_vector_type() {
    let p: Point3<f64> = Vec3::new(1.0, 2.0, 3.0);
    let c: Color<f64> = p;
    let v: Vec3<f64> = c;
    assert_eq!(v, Vec3::new(1.0, 2.0, 3.0));
}

#[test]
fn add_is_component_wise() {
    let r = Vec3::new(1.0, 2.0, 3.0) + Vec3::new(0.5, -2.0, 10.0);
    assert_eq!(r, Vec3::new(1.5, 0.0, 13.0));
}

#[test]
fn sub_is_component_wise() {
    let r = Vec3::new(1.0, 2.0, 3.0) - Vec3::new(0.5, -2.0, 10.0);
    assert_eq!(r, Vec3::new(0.5, 4.0, -7.0));
}

#[test]
fn mul_scales_each_component() {
    let r = Vec3::new(1.0, -2.0, 0.25) * 4.0;
    assert_eq!(r, Vec3::new(4.0, -8.0, 1.0));
}

#[test]
fn div_divides_each_component() {
    let r = Vec3::new(1.0, -2.0, 9.0) / 4.0;
    assert_eq!(r, Vec3::new(0.25, -0.5, 2.25));
}

#[test]
fn add_assign_matches_add() {
    let a = Vec3::new(1.0, 2.0, 3.0);
    let b = Vec3::new(0.5, -2.0, 10.0);
    let mut m = a;
    m += b;
    assert_eq!(m, Vec3::new(1.5, 0.0, 13.0));
    assert_eq!(m, a + b);
}

#[test]
fn sub_assign_matches_sub() {
    let a = Vec3::new(1.0, 2.0, 3.0);
    let b = Vec3::new(0.5, -2.0, 10.0);
    let mut m = a;
    m -= b;
    assert_eq!(m, Vec3::new(0.5, 4.0, -7.0));
    assert_eq!(m, a - b);
}

#[test]
fn mul_assign_matches_mul() {
    let a = Vec3::new(1.0, -2.0, 0.25);
    let mut m = a;
    m *= 4.0;
    assert_eq!(m, Vec3::new(4.0, -8.0, 1.0));
    assert_eq!(m, a * 4.0);
}

#[test]
fn div_assign_matches_div() {
    let a = Vec3::new(1.0, -2.0, 9.0);
    let mut m = a;
    m /= 4.0;
    assert_eq!(m, Vec3::new(0.25, -0.5, 2.25));
    assert_eq!(m, a / 4.0);
}

#[test]
fn scalar_may_stand_on_either_side() {
    let v = Vec3::new(5.0, 5.0, 1.0);
    assert_eq!(scale(3.0, v), Vec3::new(15.0, 15.0, 3.0));
    assert_eq!(scale(3.0, v), v * 3.0);
    let w = Vec3::new(0.1, -0.7, 1e300);
    assert_eq!(scale(0.3, w), w * 0.3);
}

#[test]
fn division_by_zero_gives_infinity_or_nan() {
    let r = Vec3::new(1.0, -1.0, 0.0) / 0.0;
    assert_eq!(r.x(), f64::INFINITY);
    assert_eq!(r.y(), f64::NEG_INFINITY);
    assert!(r.z().is_nan());
}

#[test]
fn equal_when_all_components_are_equal() {
    assert!(Vec3::new(1.0, 2.0, 3.0) == Vec3::new(1.0, 2.0, 3.0));
    assert!(Vec3::new(1.0, 2.0, 3.0) != Vec3::new(9.0, 2.0, 3.0));
    assert!(Vec3::new(1.0, 2.0, 3.0) != Vec3::new(1.0, 9.0, 3.0));
    assert!(Vec3::new(1.0, 2.0, 3.0) != Vec3::new(1.0, 2.0, 9.0));
    assert!(Vec3::new(0.0, 0.0, 0.0) == Vec3::new(-0.0, -0.0, -0.0));
}

#[test]
fn nan_is_not_equal_to_itself() {
    let v = Vec3::new(1.0, f64::NAN, 3.0);
    assert!(v != v);
    assert!(!(v == v));
}

#[test]
fn integer_vectors_use_integer_arithmetic() {
    let a = Vec3::new(7, -2, 9);
    let b = Vec3::new(2, 5, -3);
    assert_eq!(a + b, Vec3::new(9, 3, 6));
    assert_eq!(a - b, Vec3::new(5, -7, 12));
    assert_eq!(a * 3, Vec3::new(21, -6, 27));
    assert_eq!(a / 2, Vec3::new(3, -1, 4));
    assert_eq!(scale(3, a), a * 3);
}
