use raytracer::ray::Ray;
use raytracer::scalar::Scalar;
use raytracer::text::FRACTION_DIGITS;
use raytracer::traceable::HitRecord;
use raytracer::vector::Vec3;

fn int3(x: i64, y: i64, z: i64) -> Vec3 {
    Vec3::new(Scalar::from_int(x), Scalar::from_int(y), Scalar::from_int(z))
}

#[test]
fn scalar_text_has_ten_fraction_digits() {
    assert_eq!(FRACTION_DIGITS, 10);
    assert_eq!(Scalar::zero().to_text(), "0.0000000000");
    assert_eq!(Scalar::one().to_text(), "1.0000000000");
    assert_eq!(Scalar::from_ratio(3, 2).to_text(), "1.5000000000");
    assert_eq!(Scalar::from_ratio(-1, 4).to_text(), "-0.2500000000");
    assert_eq!(Scalar::from_int(-1000).to_text(), "-1000.0000000000");
    assert_eq!(Scalar::from_ratio(1, 3).to_text(), "0.3333333332");
    assert_eq!(Scalar::from_ratio(1, 1000).to_text(), "0.0009999999");
}

#[test]
fn scalar_text_at_the_ends_of_the_range() {
    assert_eq!(Scalar::from_raw(1).to_text(), "0.0000000002");
    assert_eq!(Scalar::from_raw(-1).to_text(), "-0.0000000002");
    assert_eq!(Scalar::infinity().to_text(), "2147483647.9999999997");
    assert_eq!(Scalar::neg_infinity().to_text(), "-2147483647.9999999997");
}

#[test]
fn scalar_text_agrees_with_the_value() {
    for raw in [123456789i64, -987654321012, 4294967295, 4294967297, 55555555555555] {
        let text = Scalar::from_raw(raw).to_text();
        let value: f64 = text.parse().unwrap();
        assert!((value - raw as f64 / 4294967296.0).abs() < 1e-9, "{}", text);
    }
}

#[test]
fn push_text_appends() {
    let mut s = String::from("t=");
    Scalar::from_ratio(1, 2).push_text(&mut s);
    assert_eq!(s, "t=0.5000000000");
    int3(1, -2, 3).push_text(&mut s);
    assert_eq!(s, "t=0.50000000001.0000000000 -2.0000000000 3.0000000000");
}

#[test]
fn vector_text_separates_by_blanks() {
    assert_eq!(int3(1, -2, 3).to_text(), "1.0000000000 -2.0000000000 3.0000000000");
    assert_eq!(Vec3::zero().to_text(), "0.0000000000 0.0000000000 0.0000000000");
}

#[test]
fn ray_text_names_origin_and_direction() {
    let r = Ray::from(int3(0, 1, 2), int3(0, 0, -1), Scalar::from_ratio(1, 2));
    assert_eq!(
        r.to_text(),
        "Ray(origin: 0.0000000000 1.0000000000 2.0000000000, direction: 0.0000000000 0.0000000000 -1.0000000000)"
    );
}

#[test]
fn record_text_names_every_field() {
    let mut h = HitRecord::new();
    assert_eq!(
        h.to_text(),
        "HitRecord { point: 0.0000000000 0.0000000000 0.0000000000, normal: 0.0000000000 0.0000000000 0.0000000000, parameter: 0.0000000000, ray_faces_outside: true }"
    );
    h.set_point(int3(1, 2, 3));
    h.set_normal(int3(0, 0, 1));
    h.set_parameter(Scalar::from_ratio(5, 2));
    h.set_ray_faces_outside(false);
    assert_eq!(
        h.to_text(),
        "HitRecord { point: 1.0000000000 2.0000000000 3.0000000000, normal: 0.0000000000 0.0000000000 1.0000000000, parameter: 2.5000000000, ray_faces_outside: false }"
    );
}
