use raytracer::float::{Float, INFINITY_BITS, ONE_BITS, SIGN_BIT};

fn f(x: f32) -> Float {
    Float::from_bits(x.to_bits())
}

fn v(x: Float) -> f32 {
    f32::from_bits(x.to_bits())
}

fn samples() -> Vec<f32> {
    let mut all = vec![
        0.0,
        -0.0,
        1.0,
        -1.0,
        0.5,
        -0.5,
        2.0,
        360.0,
        1.0e-5,
        -1.0e-5,
        0.9999,
        1.0001,
        3.1415927,
        6.2831855,
        f32::MIN_POSITIVE,
        -f32::MIN_POSITIVE,
        f32::from_bits(1),
        f32::from_bits(0x8000_0001),
        f32::from_bits(0x007f_ffff),
        f32::MAX,
        f32::MIN,
        f32::INFINITY,
        f32::NEG_INFINITY,
        f32::NAN,
        f32::from_bits(0xffc0_0001),
        f32::from_bits(0x7f80_0001),
    ];
    let mut state: u32 = 0x1234_5678;
    for _ in 0..200 {
        state = state.wrapping_mul(1_664_525).wrapping_add(1_013_904_223);
        all.push(f32::from_bits(state));
    }
    all
}

#[test]
fn constants_are_the_numbers_they_name() {
    assert_eq!(v(Float::zero()), 0.0);
    assert!(v(Float::zero()).is_sign_positive());
    assert_eq!(v(Float::one()), 1.0);
    assert_eq!(v(Float::infinity()), f32::INFINITY);
    assert_eq!(ONE_BITS, 1.0f32.to_bits());
    assert_eq!(INFINITY_BITS, f32::INFINITY.to_bits());
    assert_eq!(SIGN_BIT, (-0.0f32).to_bits());
}

#[test]
fn bits_round_trip() {
    for x in samples() {
        assert_eq!(f(x).to_bits(), x.to_bits());
        assert_eq!(Float::from_bits(x.to_bits()), f(x));
    }
}

#[test]
fn classification_agrees_with_the_hardware() {
    for x in samples() {
        assert_eq!(f(x).is_nan(), x.is_nan(), "{:?}", x);
        assert_eq!(f(x).is_finite(), x.is_finite(), "{:?}", x);
        assert_eq!(f(x).is_zero(), x == 0.0, "{:?}", x);
        assert_eq!(f(x).is_sign_negative(), x.is_sign_negative(), "{:?}", x);
    }
}

#[test]
fn comparisons_agree_with_the_hardware() {
    let all = samples();
    for &a in &all {
        for &b in &all {
            assert_eq!(f(a).lt(f(b)), a < b, "{:?} < {:?}", a, b);
            assert_eq!(f(a).le(f(b)), a <= b, "{:?} <= {:?}", a, b);
            assert_eq!(f(a).gt(f(b)), a > b, "{:?} > {:?}", a, b);
            assert_eq!(f(a).ge(f(b)), a >= b, "{:?} >= {:?}", a, b);
            assert_eq!(f(a).equals(f(b)), a == b, "{:?} == {:?}", a, b);
        }
    }
}

#[test]
fn the_two_zeros_are_equal_and_not_identical() {
    assert!(f(0.0).equals(f(-0.0)));
    assert_ne!(f(0.0), f(-0.0));
    assert!(!f(-0.0).lt(f(0.0)));
    assert!(f(-0.0).le(f(0.0)));
}

#[test]
fn a_nan_compares_with_nothing() {
    let nan = f(f32::NAN);
    assert!(!nan.equals(nan));
    assert!(!nan.lt(f(1.0)));
    assert!(!nan.gt(f(1.0)));
    assert!(!nan.le(nan));
    assert!(!nan.ge(nan));
}

#[test]
fn sign_operations_agree_with_the_hardware() {
    for x in samples() {
        assert_eq!(f(x).neg().to_bits(), (-x).to_bits(), "{:?}", x);
        assert_eq!(f(x).abs().to_bits(), x.abs().to_bits(), "{:?}", x);
        assert_eq!(f(x).neg().neg(), f(x));
    }
    assert_eq!(v(f(1.5).neg()), -1.5);
    assert_eq!(v(f(-2.0).abs()), 2.0);
}

#[test]
fn min_and_max_agree_with_the_hardware() {
    let all = samples();
    for &a in &all {
        for &b in &all {
            let lo = v(f(a).min(f(b)));
            let hi = v(f(a).max(f(b)));
            if a.is_nan() && b.is_nan() {
                assert!(lo.is_nan() && hi.is_nan());
            } else {
                assert!(lo == a.min(b), "min {:?} {:?}", a, b);
                assert!(hi == a.max(b), "max {:?} {:?}", a, b);
            }
        }
    }
    assert_eq!(v(f(3.0).min(f(-4.0))), -4.0);
    assert_eq!(v(f(3.0).max(f(-4.0))), 3.0);
    assert_eq!(v(f(f32::NAN).min(f(2.0))), 2.0);
    assert_eq!(v(f(2.0).max(f(f32::NAN))), 2.0);
}

#[test]
fn clamp_agrees_with_the_hardware() {
    let bounds = [(-1.0f32, 1.0f32), (0.0, 360.0), (-0.0, 0.0), (2.0, 2.0), (f32::NEG_INFINITY, f32::INFINITY)];
    for x in samples() {
        for &(lo, hi) in &bounds {
            let got = f(x).clamp(f(lo), f(hi));
            let want = x.clamp(lo, hi);
            assert_eq!(got.to_bits(), want.to_bits(), "{:?} in [{:?}, {:?}]", x, lo, hi);
        }
    }
    assert_eq!(v(f(5.0).clamp(f(-1.0), f(1.0))), 1.0);
    assert_eq!(v(f(-5.0).clamp(f(-1.0), f(1.0))), -1.0);
    assert_eq!(v(f(0.25).clamp(f(-1.0), f(1.0))), 0.25);
    assert!(v(f(f32::NAN).clamp(f(-1.0), f(1.0))).is_nan());
}

#[test]
fn steps_to_the_neighbouring_numbers() {
    for x in samples() {
        let up = v(f(x).next_up());
        let down = v(f(x).next_down());
        if x.is_nan() {
            assert_eq!(f(x).next_up(), f(x));
            assert_eq!(f(x).next_down(), f(x));
            continue;
        }
        if x == f32::INFINITY {
            assert_eq!(up, f32::INFINITY);
        } else {
            assert!(up > x, "{:?}", x);
            assert_eq!(v(f(up).next_down()), if x == 0.0 { 0.0 } else { x });
        }
        if x == f32::NEG_INFINITY {
            assert_eq!(down, f32::NEG_INFINITY);
        } else {
            assert!(down < x, "{:?}", x);
            assert_eq!(v(f(down).next_up()), if x == 0.0 { 0.0 } else { x });
        }
    }
    assert_eq!(v(f(1.0).next_up()), 1.0 + f32::EPSILON);
    assert_eq!(v(f(1.0).next_down()), 1.0 - f32::EPSILON / 2.0);
    assert_eq!(f(0.0).next_up().to_bits(), 1);
    assert_eq!(f(-0.0).next_up().to_bits(), 1);
    assert_eq!(f(0.0).next_down().to_bits(), 0x8000_0001);
    assert_eq!(v(f(f32::MAX).next_up()), f32::INFINITY);
    assert_eq!(v(f(f32::NEG_INFINITY).next_up()), f32::MIN);
    assert_eq!(f(f32::from_bits(0x8000_0001)).next_up().to_bits(), 0x8000_0000);
}
