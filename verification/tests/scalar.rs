use arbitra::camera;
use arbitra::renderer;
use arbitra::scalar::Scalar;
use arbitra::scalar::HALF;
use arbitra::scalar::INFINITY_MAGNITUDE;
use arbitra::scalar::ONE;
use arbitra::scalar::SIGN_BIT;
use arbitra::scalar::ZERO;
use arbitra::scene;

fn s(v: f32) -> Scalar {
    Scalar::from_bits(v.to_bits())
}

fn f(v: Scalar) -> f32 {
    f32::from_bits(v.to_bits())
}

fn samples() -> Vec<f32> {
    vec![
        0.0,
        -0.0,
        1.0,
        -1.0,
        1.5,
        -1.5,
        1.5000001,
        -1.5000001,
        1.4999999,
        0.5,
        2.0,
        1e-45,
        -1e-45,
        1e-39,
        f32::MIN_POSITIVE,
        f32::MAX,
        f32::MIN,
        f32::INFINITY,
        f32::NEG_INFINITY,
        f32::NAN,
        -f32::NAN,
        f32::from_bits(0x7f80_0001),
        f32::from_bits(0xffff_ffff),
        f32::EPSILON,
        3.25e7,
        -7.125e-12,
    ]
}

#[test]
fn scalar_bits_round_trip() {
    for v in samples() {
        assert_eq!(s(v).to_bits(), v.to_bits());
        assert_eq!(Scalar::from_bits(v.to_bits()).bits, v.to_bits());
    }
}

#[test]
fn scalar_constants_are_the_values_they_name() {
    assert_eq!(ZERO, 0.0f32.to_bits());
    assert_eq!(HALF, 0.5f32.to_bits());
    assert_eq!(ONE, 1.0f32.to_bits());
    assert_eq!(SIGN_BIT, (-0.0f32).to_bits());
    assert_eq!(INFINITY_MAGNITUDE, f32::INFINITY.to_bits());
    assert_eq!(camera::PITCH_MAX, 1.5f32.to_bits());
    assert_eq!(camera::PITCH_MIN, (-1.5f32).to_bits());
    assert_eq!(camera::SENSITIVITY, 0.002f32.to_bits());
    assert_eq!(camera::TWO, 2.0f32.to_bits());
    assert_eq!(camera::START_FOVY, 45.0f32.to_bits());
    assert_eq!(camera::START_ZNEAR, 0.1f32.to_bits());
    assert_eq!(camera::START_ZFAR, 100.0f32.to_bits());
    assert_eq!(camera::START_YAW, (-std::f32::consts::FRAC_PI_2).to_bits());
    assert_eq!(camera::START_PITCH, (-0.4f32).to_bits());
    assert_eq!(renderer::CAMERA_SPEED, 0.004f32.to_bits());
    assert_eq!(scene::LIGHT_DIRECTION_X, 0.3f32.to_bits());
    assert_eq!(scene::LIGHT_DIRECTION_Y, (-1.0f32).to_bits());
    assert_eq!(scene::LIGHT_DIRECTION_Z, 0.5f32.to_bits());
    assert_eq!(scene::AMBIENT_STRENGTH, 0.2f32.to_bits());
}

#[test]
fn scalar_is_nan_agrees_with_the_machine() {
    for v in samples() {
        assert_eq!(s(v).is_nan(), v.is_nan(), "{v}");
    }
}

#[test]
fn scalar_less_than_agrees_with_the_machine() {
    for a in samples() {
        for b in samples() {
            assert_eq!(s(a).less_than(s(b)), a < b, "{a} < {b}");
        }
    }
}

#[test]
fn scalar_is_positive_agrees_with_the_machine() {
    for v in samples() {
        assert_eq!(s(v).is_positive(), v > 0.0, "{v}");
    }
    assert!(!s(0.0).is_positive());
    assert!(!s(-0.0).is_positive());
    assert!(s(1e-45).is_positive());
    assert!(!s(f32::NAN).is_positive());
}

#[test]
fn scalar_is_nonzero_agrees_with_the_machine() {
    for v in samples() {
        assert_eq!(s(v).is_nonzero(), v != 0.0, "{v}");
    }
}

#[test]
fn scalar_clamp_agrees_with_the_machine() {
    let bounds = [(-1.5f32, 1.5f32), (0.0, 0.0), (-0.0, 0.0), (0.0, 1.0), (f32::NEG_INFINITY, f32::INFINITY), (2.0, 2.0)];
    for (lo, hi) in bounds {
        for v in samples() {
            let got = f(s(v).clamp(s(lo), s(hi)));
            let want = v.clamp(lo, hi);
            if want.is_nan() {
                assert!(got.is_nan());
            } else {
                assert_eq!(got.to_bits(), want.to_bits(), "{v} in [{lo}, {hi}]");
            }
        }
    }
}

#[test]
fn scalar_clamp_exact_values() {
    assert_eq!(f(s(7.0).clamp(s(-1.5), s(1.5))), 1.5);
    assert_eq!(f(s(-7.0).clamp(s(-1.5), s(1.5))), -1.5);
    assert_eq!(f(s(0.25).clamp(s(-1.5), s(1.5))), 0.25);
    assert_eq!(f(s(f32::INFINITY).clamp(s(-1.5), s(1.5))), 1.5);
    assert_eq!(s(1.5).clamp(s(-1.5), s(1.5)), s(1.5));
}

#[test]
fn scalar_equality_is_by_pattern() {
    assert_ne!(s(0.0), s(-0.0));
    assert_eq!(s(f32::NAN), s(f32::NAN));
    assert!(!s(0.0).less_than(s(-0.0)));
    assert!(!s(-0.0).less_than(s(0.0)));
}

fn patterns() -> Vec<u32> {
    let mut v: Vec<u32> = Vec::new();
    let mut x: u32 = 0;
    for _ in 0..1500 {
        v.push(x);
        x = x.wrapping_mul(1_664_525).wrapping_add(1_013_904_223);
    }
    for edge in [0u32, 1, 0x007f_ffff, 0x0080_0000, 0x7f7f_ffff, 0x7f80_0000, 0x7f80_0001, 0x7fc0_0000, 0x7fff_ffff] {
        v.push(edge);
        v.push(edge | 0x8000_0000);
    }
    v
}

#[test]
fn scalar_order_agrees_with_the_machine_on_many_patterns() {
    let all = patterns();
    for &a in &all {
        let x = f32::from_bits(a);
        assert_eq!(Scalar::from_bits(a).is_nan(), x.is_nan());
        assert_eq!(Scalar::from_bits(a).is_positive(), x > 0.0);
        assert_eq!(Scalar::from_bits(a).is_nonzero(), x != 0.0);
        for &b in &all {
            let y = f32::from_bits(b);
            assert_eq!(Scalar::from_bits(a).less_than(Scalar::from_bits(b)), x < y, "{a:#x} < {b:#x}");
        }
    }
}

#[test]
fn scalar_clamp_agrees_with_the_machine_on_many_patterns() {
    let lo = -1.5f32;
    let hi = 1.5f32;
    for a in patterns() {
        let x = f32::from_bits(a);
        let got = Scalar::from_bits(a).clamp(s(lo), s(hi));
        let want = x.clamp(lo, hi);
        if want.is_nan() {
            assert!(f(got).is_nan());
            assert_eq!(got.bits, a);
        } else {
            assert_eq!(got.bits, want.to_bits(), "{a:#x}");
        }
    }
}
