use vec3::Vec3;

#[test]
fn subtracting_what_was_added_gives_the_vector_back() {
    let a = Vec3::new(1.5, -2.0, 1024.0);
    let b = Vec3::new(0.25, 8.0, -3.0);
    assert_eq!(a + b - b, a);
    let m = Vec3::new(7, -2, 9);
    let n = Vec3::new(2, 5, -3);
    assert_eq!(m + n - n, m);
}

#[test]
fn dividing_by_the_factor_gives_the_vector_back() {
    let a = Vec3::new(1.5, -2.0, 1024.0);
    assert_eq!((a * 4.0) / 4.0, a);
    assert_eq!((a * -0.5) / -0.5, a);
    let m = Vec3::new(7, -2, 9);
    assert_eq!((m * 3) / 3, m);
}

#[test]
fn dot_gives_the_same_in_either_order() {
    let a = Vec3::new(0.1, -0.7, 3.3);
    let b = Vec3::new(2.9, 0.3, -1.1);
    assert_eq!(a.dot(b), b.dot(a));
    let m = Vec3::new(7, -2, 9);
    let n = Vec3::new(2, 5, -3);
    assert_eq!(m.dot(n), n.dot(m));
}

#[test]
fn cross_changes_sign_when_the_operands_are_exchanged() {
    let a = Vec3::new(0.1, -0.7, 3.3);
    let b = Vec3::new(2.9, 0.3, -1.1);
    let ab = a.cross(b);
    let ba = b.cross(a);
    assert_eq!(ab, Vec3::new(-ba.x(), -ba.y(), -ba.z()));
    let m = Vec3::new(7, -2, 9);
    let n = Vec3::new(2, 5, -3);
    let mn = m.cross(n);
    let nm = n.cross(m);
    assert_eq!(mn, Vec3::new(-nm.x(), -nm.y(), -nm.z()));
}

#[test]
fn cross_of_a_vector_with_itself_is_zero() {
    let a = Vec3::new(0.1, -0.7, 3.3);
    assert_eq!(a.cross(a), Vec3::new(0.0, 0.0, 0.0));
    let m = Vec3::new(7, -2, 9);
    assert_eq!(m.cross(m), Vec3::new(0, 0, 0));
}

#[test]
fn cross_of_a_vector_with_an_infinite_component_with_itself_is_not_zero() {
    let a: Vec3<f64> = Vec3::new(f64::INFINITY, 1.0, 1.0);
    let c = a.cross(a);
    assert_eq!(c.x(), 0.0);
    assert!(c.y().is_nan());
    assert!(c.z().is_nan());
}

#[test]
fn a_vector_divided_by_its_length_has_length_one() {
    let a: Vec3<f64> = Vec3::new(3.0, 4.0, 0.0);
    let length = a.dot(a).sqrt();
    assert_eq!(length, 5.0);
    let unit = a / length;
    assert_eq!(unit, Vec3::new(0.6, 0.8, 0.0));
    let unit_length = unit.dot(unit).sqrt();
    assert!((unit_length - 1.0).abs() < 1e-12);
    let b: Vec3<f64> = Vec3::new(0.1, -0.7, 3.3);
    let unit_b = b / b.dot(b).sqrt();
    assert!((unit_b.dot(unit_b).sqrt() - 1.0).abs() < 1e-12);
}

#[test]
fn a_zero_vector_divided_by_its_length_is_nan() {
    let zero: Vec3<f64> = Vec3::new(0.0, 0.0, 0.0);
    let length = zero.dot(zero).sqrt();
    assert_eq!(length, 0.0);
    let n = zero / length;
    assert!(n.x().is_nan());
    assert!(n.y().is_nan());
    assert!(n.z().is_nan());
}
