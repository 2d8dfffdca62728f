use korome::Vector2;

#[test]
fn feminism() {
    let v0 = Vector2::from((3., 6.));
    let v1 = Vector2::from([3., 6.]);
    let something_different = Vector2(455., 1.2);
    let nan = Vector2(4., 0. / 0.);

    assert_eq!(v0, v1);
    assert_eq!(v1, v0);
    assert_eq!(something_different, something_different);
    assert!(nan != nan);
    assert!(nan != v0);
    assert!(nan != v1);
    assert!(v0 != something_different);
    assert!(something_different != v0);
    assert!(v1 != something_different);
    assert!(something_different != v1);
}

#[test]
fn numberwang() {
    let v0 = Vector2(5., 3.);
    let v1 = Vector2(4., 4.);

    assert_eq!(v0 - v1, Vector2(1., -1.));
    assert_eq!(v0 + v1, Vector2(9., 7.));
    assert_eq!(v0 * 4., Vector2(20., 12.));
    assert_eq!(v0 / 2., Vector2(2.5, 1.5));
    assert_eq!(v1 * 1., v1);
    assert_eq!(v1 / 2., Vector2(2., 2.));
    assert_eq!(-v0, Vector2(-5., -3.));
    assert_eq!(-v1, Vector2(-4., -4.));
}

#[test]
fn following_directions() {
    let v = Vector2(3., 4.);

    assert_eq!(v.length(), 5.);
    assert_eq!(v.normalise().length(), 1.);
    assert_eq!(v.direction(), 0.9272952180016122);
    assert!((v.normalise() - Vector2::unit_vector(0.9272952180016122)).length() < std::f64::EPSILON);
    assert_eq!(Vector2(1., 1.).direction(), std::f64::consts::FRAC_PI_4);
    assert_eq!(Vector2(2., -4.).distance_to(Vector2(4., -4.)), 2.);
    assert_eq!(Vector2(2., -4.).direction_to(Vector2(4., -4.)), 0.);
    assert_eq!(Vector2(2., 2.).direction_to(Vector2(4., 4.)), std::f64::consts::FRAC_PI_4);
}

#[test]
fn integer_vectors_add_sub_cancel() {
    let a = Vector2(7i64, -3);
    let b = Vector2(-20i64, 11);
    assert_eq!(a + b - b, a);
    assert_eq!(a - a, Vector2(0, 0));
    assert_eq!((a * 5) / 5, a);
    assert_eq!((a * -3) / -3, a);
}

#[test]
fn float_vectors_add_sub_cancel() {
    let a = Vector2(1.5f64, -2.25);
    let b = Vector2(0.5f64, 4.0);
    assert_eq!(a + b - b, a);
    assert_eq!(a - a, Vector2(0., 0.));
    assert_eq!((a * 4.) / 4., a);
}

#[test]
fn dot_product() {
    assert_eq!(Vector2(2i64, 3).dot(Vector2(4, -5)), -7);
    assert_eq!(Vector2(1.5f64, 2.).dot(Vector2(2., 0.25)), 3.5);
}

#[test]
fn conversions_round_trip() {
    let t = (3i32, -8i32);
    let v = Vector2::from(t);
    assert_eq!(v, Vector2(3, -8));
    let back: (i32, i32) = v.into();
    assert_eq!(back, t);

    let a = [1.25f32, 9.5];
    let w = Vector2::from(a);
    assert_eq!(w, Vector2(1.25, 9.5));
    let back: [f32; 2] = w.into();
    assert_eq!(back, a);
}

#[test]
fn unit_vectors_have_length_one() {
    let u = Vector2::unit_vector(0f64);
    assert_eq!(u, Vector2(1., 0.));
    for i in 0..64 {
        let angle = i as f64 * 0.1 - 3.2;
        let len = Vector2::unit_vector(angle).length();
        assert!((len - 1.).abs() < 1e-12);
    }
    let up = Vector2::unit_vector(std::f64::consts::FRAC_PI_2);
    assert!((up.0).abs() < 1e-12 && (up.1 - 1.).abs() < 1e-12);
}

#[test]
fn normalised_vectors_have_length_one() {
    for &(x, y) in &[(3f64, 4f64), (-1e-3, 2.5), (1e6, -7.), (0.1, 0.1)] {
        let len = Vector2(x, y).normalise().length();
        assert!((len - 1.).abs() < 1e-12);
    }
    assert!(Vector2(0f64, 0.).normalise().is_nan());
}

#[test]
fn distance_and_direction_agree_with_difference() {
    let a = Vector2(-2.5f64, 7.);
    let b = Vector2(4f64, 1.5);
    assert_eq!(a.distance_to(b), (b - a).length());
    assert_eq!(a.direction_to(b), (b - a).direction());
    assert_eq!(Vector2(0f32, 0.).distance_to(Vector2(3., 4.)), 5.);
    assert_eq!(Vector2(0f64, 0.).direction_to(Vector2(-1., 0.)), std::f64::consts::PI);
}

#[test]
fn float_classification() {
    let nan = Vector2(1f64, f64::NAN);
    let inf = Vector2(f64::INFINITY, 2.);
    let plain = Vector2(1f64, 2.);
    let zero = Vector2(0f64, 0.);
    assert!(nan.is_nan());
    assert!(!plain.is_nan());
    assert!(inf.is_infinite());
    assert!(!plain.is_infinite());
    assert!(plain.is_finite());
    assert!(inf.is_finite());
    assert!(!Vector2(f64::NAN, f64::INFINITY).is_finite());
    assert!(plain.is_normal());
    assert!(!zero.is_normal());
    assert!(Vector2(0f64, 3.).is_normal());
}
