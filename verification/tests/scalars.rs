use first_person_camera::controls::clamp_pitch;
use first_person_camera::linear::{Mat4, Vec3};
use first_person_camera::scalar::Scalar;
use first_person_camera::wide::Wide;

fn s(x: f32) -> Scalar {
    Scalar::from_bits(x.to_bits())
}

fn samples() -> Vec<f32> {
    vec![
        0.0,
        -0.0,
        f32::from_bits(1),
        -f32::from_bits(1),
        f32::from_bits(0x007f_ffff),
        f32::MIN_POSITIVE,
        -f32::MIN_POSITIVE,
        0.01,
        0.1,
        0.5,
        1.0,
        -1.0,
        1.0 + f32::EPSILON,
        std::f32::consts::PI,
        f32::from_bits(std::f32::consts::PI.to_bits() - 1),
        -std::f32::consts::PI,
        1024.0,
        -1024.0,
        f32::MAX,
        f32::MIN,
        f32::INFINITY,
        f32::NEG_INFINITY,
        f32::NAN,
        -f32::NAN,
        f32::from_bits(0x7f80_0001),
        f32::from_bits(0xffff_ffff),
    ]
}

#[test]
fn bits_round_trip() {
    assert_eq!(Scalar::from_bits(0x3f80_0000).to_bits(), 0x3f80_0000);
    assert_eq!(s(1.0).to_bits(), 0x3f80_0000);
    assert_eq!(s(-0.0).to_bits(), 0x8000_0000);
}

#[test]
fn classification_agrees_with_binary32() {
    for x in samples() {
        assert_eq!(s(x).is_nan(), x.is_nan(), "is_nan of {:?}", x);
        assert_eq!(s(x).is_finite(), x.is_finite(), "is_finite of {:?}", x);
        assert_eq!(
            s(x).is_positive_finite(),
            x.is_finite() && x > 0.0,
            "is_positive_finite of {:?}",
            x
        );
    }
}

#[test]
fn less_than_agrees_with_binary32() {
    for a in samples() {
        for b in samples() {
            assert_eq!(s(a).lt(s(b)), a < b, "{:?} < {:?}", a, b);
        }
    }
}

#[test]
fn numeric_equality_agrees_with_binary32() {
    for a in samples() {
        for b in samples() {
            assert_eq!(s(a).eq_number(s(b)), a == b, "{:?} == {:?}", a, b);
        }
    }
}

#[test]
fn comparisons_agree_on_a_sweep_of_patterns() {
    // A fixed linear congruential sequence of patterns, NaNs and subnormals included.
    let mut seed: u64 = 0x2545_f491_4f6c_dd1d;
    let mut next = || {
        seed = seed.wrapping_mul(6364136223846793005).wrapping_add(1442695040888963407);
        (seed >> 32) as u32
    };
    for _ in 0..200_000 {
        let (a, b) = (next(), next());
        let (x, y) = (f32::from_bits(a), f32::from_bits(b));
        let (p, q) = (Scalar::from_bits(a), Scalar::from_bits(b));
        assert_eq!(p.lt(q), x < y, "{:#x} < {:#x}", a, b);
        assert_eq!(p.eq_number(q), x == y, "{:#x} == {:#x}", a, b);
        assert_eq!(p.is_nan(), x.is_nan(), "is_nan of {:#x}", a);
        assert_eq!(p.is_finite(), x.is_finite(), "is_finite of {:#x}", a);
        assert_eq!(p.is_positive(), x > 0.0, "is_positive of {:#x}", a);
        // Neighbours in pattern are neighbours in value.
        let near = Scalar::from_bits(a ^ 1);
        assert_eq!(p.lt(near), x < f32::from_bits(a ^ 1), "{:#x} and its neighbour", a);
    }
}

#[test]
fn zeros_are_one_number_and_two_patterns() {
    assert!(s(0.0).eq_number(s(-0.0)));
    assert_ne!(s(0.0), s(-0.0));
    assert!(!s(-0.0).lt(s(0.0)));
    assert!(!s(0.0).lt(s(-0.0)));
}

#[test]
fn nan_is_no_number() {
    let nan = s(f32::NAN);
    assert!(!nan.eq_number(nan));
    assert!(!nan.lt(s(1.0)));
    assert!(!s(1.0).lt(nan));
    assert_eq!(nan, nan);
}

#[test]
fn negation_flips_the_sign_bit_only() {
    for x in samples() {
        assert_eq!(s(x).neg().to_bits(), (-x).to_bits(), "negation of {:?}", x);
        assert_eq!(s(x).neg().neg(), s(x));
    }
    assert_eq!(s(1.5).neg(), s(-1.5));
    assert_eq!(s(0.0).neg().to_bits(), 0x8000_0000);
}

#[test]
fn absolute_value_clears_the_sign_bit_only() {
    for x in samples() {
        assert_eq!(s(x).abs().to_bits(), x.abs().to_bits(), "absolute value of {:?}", x);
    }
    assert_eq!(s(-2.5).abs(), s(2.5));
    assert_eq!(s(-0.0).abs(), s(0.0));
}

#[test]
fn positive_numbers_include_infinity() {
    for x in samples() {
        assert_eq!(s(x).is_positive(), x > 0.0, "is_positive of {:?}", x);
    }
    assert!(s(f32::INFINITY).is_positive());
    assert!(!s(f32::INFINITY).is_positive_finite());
}

#[test]
fn largest_scalar_below_pi_is_below_pi() {
    let pi = s(std::f32::consts::PI);
    let below = Scalar::from_bits(pi.to_bits() - 1);
    assert!(below.lt(pi));
    assert!(!pi.lt(pi));
    assert!((f32::from_bits(below.to_bits()) as f64) < std::f64::consts::PI);
    assert!((f32::from_bits(pi.to_bits()) as f64) > std::f64::consts::PI);
}

#[test]
fn points_coincide_as_numbers() {
    let p = Vec3::new(s(1.0), s(0.0), s(-3.5));
    let q = Vec3::new(s(1.0), s(-0.0), s(-3.5));
    assert!(p.coincides(q));
    assert_ne!(p, q);
    assert!(!p.coincides(Vec3::new(s(1.0), s(0.0), s(-3.0))));
    let broken = Vec3::new(s(f32::NAN), s(0.0), s(0.0));
    assert!(!broken.coincides(broken));
}

#[test]
fn axes_and_opposites() {
    assert_eq!(Vec3::x_axis(), Vec3::new(s(1.0), s(0.0), s(0.0)));
    assert_eq!(Vec3::y_axis(), Vec3::new(s(0.0), s(1.0), s(0.0)));
    assert_eq!(
        Vec3::new(s(1.0), s(-2.0), s(0.0)).neg(),
        Vec3::new(s(-1.0), s(2.0), s(-0.0))
    );
}

#[test]
fn zero_matrix_is_all_zero_patterns() {
    let m = Mat4::zero();
    for column in [m.c0, m.c1, m.c2, m.c3] {
        for entry in [column.x, column.y, column.z, column.w] {
            assert_eq!(entry.to_bits(), 0);
        }
    }
}

#[test]
fn singular_outcome_keeps_the_previous_inverse() {
    let previous = Mat4::zero();
    let mut fresh = Mat4::zero();
    fresh.c0.x = s(2.0);
    assert_eq!(Mat4::keep_or_replace(previous, Some(fresh)), fresh);
    assert_eq!(Mat4::keep_or_replace(previous, None), previous);
    assert_eq!(Mat4::keep_or_replace(fresh, None), fresh);
}

#[test]
fn pitch_is_kept_off_the_poles() {
    let low = 0.01f32;
    let high = std::f32::consts::PI - 0.01;
    assert_eq!(clamp_pitch(s(0.0)), s(low));
    assert_eq!(clamp_pitch(s(-2.0)), s(low));
    assert_eq!(clamp_pitch(s(std::f32::consts::PI)), s(high));
    assert_eq!(clamp_pitch(s(10.0)), s(high));
    assert_eq!(clamp_pitch(s(f32::INFINITY)), s(high));
    assert_eq!(clamp_pitch(s(f32::NEG_INFINITY)), s(low));
    assert_eq!(clamp_pitch(s(1.0)), s(1.0));
    assert_eq!(clamp_pitch(s(low)), s(low));
    assert_eq!(clamp_pitch(s(high)), s(high));
    assert!(clamp_pitch(s(f32::NAN)).is_nan());
    for x in samples() {
        let mut expected = x;
        if expected > high {
            expected = high;
        } else if expected < low {
            expected = low;
        }
        assert_eq!(clamp_pitch(s(x)).to_bits(), expected.to_bits(), "clamp of {:?}", x);
    }
}

fn wide_samples() -> Vec<f64> {
    vec![
        0.0,
        -0.0,
        f64::from_bits(1),
        -f64::from_bits(1),
        f64::from_bits(0x000f_ffff_ffff_ffff),
        f64::MIN_POSITIVE,
        2.0,
        10.0,
        -10.0,
        200.0,
        499.999999,
        500.0,
        -500.0,
        1.0 + f64::EPSILON,
        f64::MAX,
        f64::MIN,
        f64::INFINITY,
        f64::NEG_INFINITY,
        f64::NAN,
        -f64::NAN,
        f64::from_bits(0x7ff0_0000_0000_0001),
    ]
}

#[test]
fn wide_comparisons_agree_with_binary64() {
    let w = |x: f64| Wide::from_bits(x.to_bits());
    for a in wide_samples() {
        assert_eq!(w(a).is_nan(), a.is_nan(), "is_nan of {:?}", a);
        assert_eq!(w(a).abs().to_bits(), a.abs().to_bits(), "absolute value of {:?}", a);
        for b in wide_samples() {
            assert_eq!(w(a).lt(w(b)), a < b, "{:?} < {:?}", a, b);
            assert_eq!(w(a).eq_number(w(b)), a == b, "{:?} == {:?}", a, b);
        }
    }
}

#[test]
fn wide_comparisons_agree_on_a_sweep_of_patterns() {
    let mut seed: u64 = 0x9e37_79b9_7f4a_7c15;
    let mut next = || {
        seed = seed.wrapping_mul(6364136223846793005).wrapping_add(1442695040888963407);
        seed ^ (seed >> 29)
    };
    for _ in 0..200_000 {
        let (a, b) = (next(), next());
        let (x, y) = (f64::from_bits(a), f64::from_bits(b));
        let (p, q) = (Wide::from_bits(a), Wide::from_bits(b));
        assert_eq!(p.lt(q), x < y, "{:#x} < {:#x}", a, b);
        assert_eq!(p.eq_number(q), x == y, "{:#x} == {:#x}", a, b);
        assert_eq!(p.is_nan(), x.is_nan(), "is_nan of {:#x}", a);
        let near = Wide::from_bits(a ^ 1);
        assert_eq!(p.lt(near), x < f64::from_bits(a ^ 1), "{:#x} and its neighbour", a);
    }
}
