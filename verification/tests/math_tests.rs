use raytracer::rt_math::{
    cos, degrees_to_radians, pi, random_number, random_number_in_range, sin, tan, unit_from_bits,
    PI_RAW,
};
use raytracer::scalar::{Scalar, MAX_RAW, ONE_RAW};

fn fl(s: Scalar) -> f64 {
    s.raw() as f64 / 4294967296.0
}

fn fx(v: f64) -> Scalar {
    Scalar::from_raw((v * 4294967296.0).round() as i64)
}

#[test]
fn pi_is_rounded_toward_zero() {
    assert_eq!(PI_RAW, (std::f64::consts::PI * 4294967296.0).floor() as i64);
    assert_eq!(pi().raw(), 13493037704);
}

#[test]
fn degrees_to_radians_scales_by_pi_over_180() {
    assert_eq!(degrees_to_radians(Scalar::from_int(180)).raw(), PI_RAW);
    assert_eq!(degrees_to_radians(Scalar::from_int(90)).raw(), PI_RAW / 2);
    assert_eq!(degrees_to_radians(Scalar::zero()).raw(), 0);
    assert_eq!(degrees_to_radians(Scalar::from_int(-180)).raw(), -PI_RAW);
    assert!((fl(degrees_to_radians(fx(20.0))) - 20.0f64.to_radians()).abs() < 1e-8);
}

#[test]
fn sine_and_cosine_have_exact_landmarks() {
    assert_eq!(sin(Scalar::zero()).raw(), 0);
    assert_eq!(cos(Scalar::zero()).raw(), ONE_RAW);
    assert_eq!(sin(Scalar::from_raw(PI_RAW / 2)).raw(), ONE_RAW);
    assert_eq!(cos(Scalar::from_raw(PI_RAW / 2)).raw(), 0);
    assert_eq!(sin(Scalar::from_ratio(1, 2)).raw(), 2059117009);
    assert_eq!(cos(Scalar::one()).raw(), 2320580734);
}

#[test]
fn series_agree_with_the_real_functions() {
    let mut k = 0;
    while k <= 157 {
        let x = k as f64 / 100.0;
        assert!((fl(sin(fx(x))) - x.sin()).abs() < 2e-9, "sin {}", x);
        assert!((fl(cos(fx(x))) - x.cos()).abs() < 2e-9, "cos {}", x);
        k += 1;
    }
}

#[test]
fn tangent_is_the_quotient() {
    assert_eq!(tan(Scalar::zero()).raw(), 0);
    assert_eq!(tan(Scalar::from_raw(PI_RAW / 4)).raw(), 4294967294);
    assert_eq!(tan(degrees_to_radians(Scalar::from_int(10))).raw(), 757318614);
    assert_eq!(tan(degrees_to_radians(Scalar::from_int(85))).raw(), 49091700803);
    assert_eq!(tan(Scalar::from_raw(PI_RAW / 2)).raw(), MAX_RAW);
}

#[test]
fn tangent_agrees_with_the_real_function() {
    let mut k = 1;
    while k <= 80 {
        let x = (k as f64).to_radians();
        let got = fl(tan(fx(x)));
        assert!((got - x.tan()).abs() < 1e-7 * (1.0 + x.tan() * x.tan()), "tan {}", k);
        k += 1;
    }
}

#[test]
fn unit_from_bits_is_the_fraction() {
    assert_eq!(unit_from_bits(0).raw(), 0);
    assert_eq!(unit_from_bits(1 << 31).raw(), ONE_RAW / 2);
    assert_eq!(unit_from_bits(u32::MAX).raw(), ONE_RAW - 1);
}

#[test]
fn random_numbers_lie_in_the_unit_range() {
    let mut low = false;
    let mut high = false;
    for _ in 0..1000 {
        let r = random_number().raw();
        assert!(r >= 0 && r < ONE_RAW);
        if r < ONE_RAW / 2 {
            low = true;
        } else {
            high = true;
        }
    }
    assert!(low && high);
}

#[test]
fn random_numbers_in_range_stay_in_range() {
    let min = Scalar::from_int(-1);
    let max = Scalar::from_int(1);
    let mut differs_from_min = false;
    let mut differs_from_max = false;
    for _ in 0..1000 {
        let r = random_number_in_range(min, max).raw();
        assert!(r >= -ONE_RAW && r <= ONE_RAW);
        if r != -ONE_RAW {
            differs_from_min = true;
        }
        if r != ONE_RAW {
            differs_from_max = true;
        }
    }
    assert!(differs_from_min && differs_from_max);
}

#[test]
fn random_number_in_a_point_range_is_that_point() {
    let p = Scalar::from_ratio(3, 7);
    assert_eq!(random_number_in_range(p, p).raw(), p.raw());
    let whole = random_number_in_range(Scalar::neg_infinity(), Scalar::infinity()).raw();
    assert!(whole >= -MAX_RAW && whole <= MAX_RAW);
}
