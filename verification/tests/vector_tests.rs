use raytracer::scalar::{Scalar, MAX_RAW, ONE_RAW};
use raytracer::vector::{dot, Vec3, MAX_DRAWS, NEAR_ZERO_RAW};

fn int3(x: i64, y: i64, z: i64) -> Vec3 {
    Vec3::new(Scalar::from_int(x), Scalar::from_int(y), Scalar::from_int(z))
}

fn raw3(x: i64, y: i64, z: i64) -> Vec3 {
    Vec3::new(Scalar::from_raw(x), Scalar::from_raw(y), Scalar::from_raw(z))
}

fn raws(v: Vec3) -> (i64, i64, i64) {
    (v.x().raw(), v.y().raw(), v.z().raw())
}

#[test]
fn construction_and_components() {
    let v = int3(1, -2, 3);
    assert_eq!(raws(v), (ONE_RAW, -2 * ONE_RAW, 3 * ONE_RAW));
    assert_eq!(raws(Vec3::zero()), (0, 0, 0));
    assert_eq!(v.index(0).raw(), ONE_RAW);
    assert_eq!(v.index(1).raw(), -2 * ONE_RAW);
    assert_eq!(v.index(2).raw(), 3 * ONE_RAW);
}

#[test]
fn index_mut_replaces_one_component() {
    let mut v = int3(1, 2, 3);
    *v.index_mut(1) = Scalar::from_int(9);
    assert_eq!(raws(v), (ONE_RAW, 9 * ONE_RAW, 3 * ONE_RAW));
    *v.index_mut(0) = Scalar::from_int(7);
    *v.index_mut(2) = Scalar::from_int(8);
    assert_eq!(raws(v), (7 * ONE_RAW, 9 * ONE_RAW, 8 * ONE_RAW));
}

#[test]
fn sum_difference_and_negation() {
    let a = int3(1, 2, 3);
    let b = int3(4, -5, 6);
    assert_eq!(raws(a + b), raws(int3(5, -3, 9)));
    assert_eq!(raws(a - b), raws(int3(-3, 7, -3)));
    assert_eq!(raws(-a), raws(int3(-1, -2, -3)));
}

#[test]
fn products_and_quotients() {
    let a = int3(1, 2, 3);
    let b = int3(4, -5, 6);
    assert_eq!(raws(a * b), (17179869184, -42949672960, 77309411328));
    assert_eq!(raws(Scalar::from_int(2) * a), raws(int3(2, 4, 6)));
    assert_eq!(raws(a * Scalar::from_int(2)), raws(int3(2, 4, 6)));
    assert_eq!(raws(a / Scalar::from_int(2)), (2147483648, 4294967296, 6442450944));
    assert_eq!(raws(a / b), (1073741824, -1717986918, 2147483648));
    assert_eq!(raws(Scalar::one() / a), (4294967296, 2147483648, 1431655765));
}

#[test]
fn assignment_operators() {
    let mut v = int3(1, 2, 3);
    v += int3(1, 1, 1);
    assert_eq!(raws(v), raws(int3(2, 3, 4)));
    v -= int3(2, 2, 2);
    assert_eq!(raws(v), raws(int3(0, 1, 2)));
    v *= Scalar::from_int(4);
    assert_eq!(raws(v), raws(int3(0, 4, 8)));
    v /= Scalar::from_int(4);
    assert_eq!(raws(v), raws(int3(0, 1, 2)));
}

#[test]
fn dot_and_cross_products() {
    let a = int3(1, 2, 3);
    let b = int3(4, -5, 6);
    assert_eq!(a.dot(&b).raw(), 12 * ONE_RAW);
    assert_eq!(dot(&a, &b).raw(), 12 * ONE_RAW);
    assert_eq!(raws(a.cross(&b)), raws(int3(27, 6, -13)));
    assert_eq!(raws(int3(1, 0, 0).cross(&int3(0, 1, 0))), raws(int3(0, 0, 1)));
}

#[test]
fn dot_with_the_opposite_is_the_opposite() {
    let d = raw3(123456789, -987654321, 5555555555);
    let n = raw3(-4294967296, 33333333, MAX_RAW);
    assert_eq!(d.dot(&(-n)).raw(), -d.dot(&n).raw());
    assert_eq!((-d).dot(&n).raw(), -d.dot(&n).raw());
}

#[test]
fn length_and_squared_length() {
    let a = int3(1, 2, 3);
    assert_eq!(a.magnitude().raw(), 14 * ONE_RAW);
    assert_eq!(a.length().raw(), 16070296109);
    assert_eq!(int3(3, 4, 0).length().raw(), 5 * ONE_RAW);
    assert_eq!(Vec3::zero().length().raw(), 0);
}

#[test]
fn normalize_divides_by_the_length() {
    assert_eq!(raws(int3(3, 4, 0).normalize()), (2576980377, 3435973836, 0));
    assert_eq!(raws(int3(1, 2, 3).normalize()), (1147878293, 2295756587, 3443634880));
    assert_eq!(raws(int3(0, 0, -7).normalize()), (0, 0, -ONE_RAW));
}

#[test]
fn normalize_leaves_the_zero_vector() {
    assert_eq!(raws(Vec3::zero().normalize()), (0, 0, 0));
}

#[test]
fn approx_zero_is_strict_at_its_bound() {
    assert_eq!(NEAR_ZERO_RAW, 43);
    assert!(Vec3::zero().approx_zero());
    assert!(raw3(42, -42, 42).approx_zero());
    assert!(!raw3(43, 0, 0).approx_zero());
    assert!(!raw3(0, -43, 0).approx_zero());
    assert!(!raw3(0, 0, 43).approx_zero());
}

#[test]
fn reflect_mirrors_at_the_plane() {
    let v = Vec3::new(Scalar::from_ratio(1, 2), Scalar::from_int(-1), Scalar::from_ratio(1, 4));
    let n = int3(0, 1, 0);
    assert_eq!(raws(Vec3::reflect(&v, &n)), (2147483648, 4294967296, 1073741824));
}

#[test]
fn refract_follows_snell() {
    let uv = Vec3::new(Scalar::from_ratio(3, 5), -Scalar::from_ratio(4, 5), Scalar::zero());
    let n = int3(0, 1, 0);
    assert_eq!(raws(Vec3::refract(&uv, &n, Scalar::from_ratio(2, 3))), (1717986917, -3936402548, 0));
    assert_eq!(raws(Vec3::refract(&uv, &n, Scalar::one())), (2576980377, -3435973837, 0));
}

#[test]
fn unit_from_candidate_accepts_inside_the_ball_only() {
    let inside = Vec3::new(Scalar::from_ratio(3, 10), Scalar::from_ratio(4, 10), Scalar::zero());
    let unit = Vec3::unit_from_candidate(&inside);
    assert!(unit.is_some());
    assert_eq!(raws(unit.unwrap()), raws(inside.normalize()));
    assert!(Vec3::unit_from_candidate(&int3(1, 0, 0)).is_none());
    assert!(Vec3::unit_from_candidate(&int3(1, 1, 1)).is_none());
    assert!(Vec3::unit_from_candidate(&Vec3::zero()).is_some());
}

#[test]
fn toward_turns_to_the_side_of_the_normal() {
    let n = int3(0, 1, 0);
    assert_eq!(raws(Vec3::toward(int3(1, 2, 3), &n)), raws(int3(1, 2, 3)));
    assert_eq!(raws(Vec3::toward(int3(1, -2, 3), &n)), raws(int3(-1, 2, -3)));
    assert_eq!(raws(Vec3::toward(int3(1, 0, 3), &n)), raws(int3(-1, 0, -3)));
}

#[test]
fn random_vectors_lie_in_their_boxes() {
    for _ in 0..200 {
        let v = Vec3::random();
        for c in [v.x(), v.y(), v.z()] {
            assert!(c.raw() >= 0 && c.raw() < ONE_RAW);
        }
        let w = Vec3::random_in_range(Scalar::from_int(-3), Scalar::from_ratio(1, 2));
        for c in [w.x(), w.y(), w.z()] {
            assert!(c.raw() >= -3 * ONE_RAW && c.raw() <= ONE_RAW / 2);
        }
    }
}

#[test]
fn random_unit_vectors_have_unit_length() {
    assert_eq!(MAX_DRAWS, 128);
    let mut distinct = false;
    let first = raws(Vec3::random_unit_sphere_vector());
    for _ in 0..200 {
        let v = Vec3::random_unit_sphere_vector();
        let len = v.length().raw();
        assert!((len - ONE_RAW).abs() <= 1 << 20, "length {}", len);
        if raws(v) != first {
            distinct = true;
        }
    }
    assert!(distinct);
}

#[test]
fn random_disc_points_lie_in_the_disc() {
    for _ in 0..200 {
        let p = Vec3::random_unit_disk_point();
        assert_eq!(p.z().raw(), 0);
        assert!(p.magnitude().raw() < ONE_RAW);
    }
}

#[test]
fn hemisphere_vectors_do_not_oppose_the_normal() {
    let n = Vec3::new(Scalar::from_ratio(1, 3), Scalar::from_ratio(-2, 3), Scalar::from_ratio(2, 3));
    for _ in 0..200 {
        let v = Vec3::random_surface_hemisphere_vector(&n);
        assert!(v.dot(&n).raw() >= 0);
    }
}
