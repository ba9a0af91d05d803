use gs_slam_core::bits::{clamp_unit, clamp_unit3, is_abs_le, INFINITY, ONE, SIGN};

fn samples() -> Vec<f32> {
    vec![
        0.0,
        -0.0,
        f32::from_bits(1),
        -f32::from_bits(1),
        f32::MIN_POSITIVE,
        1.0e-3,
        0.25,
        0.5,
        -0.5,
        0.999_999_94,
        1.0,
        1.000_000_1,
        -1.0,
        1.5,
        -2.0,
        1.0e20,
        f32::MAX,
        f32::MIN,
        f32::INFINITY,
        f32::NEG_INFINITY,
        f32::NAN,
        -f32::NAN,
    ]
}

#[test]
fn constants_are_the_patterns_they_name() {
    assert_eq!(ONE, 1.0f32.to_bits());
    assert_eq!(INFINITY, f32::INFINITY.to_bits());
    assert_eq!(SIGN, (-0.0f32).to_bits());
}

#[test]
fn comparison_agrees_with_floating_point() {
    for a in samples() {
        for b in samples() {
            assert_eq!(is_abs_le(a.to_bits(), b.to_bits()), a.abs() <= b.abs());
        }
    }
}

#[test]
fn clamping_agrees_with_floating_point() {
    for v in samples() {
        let expected = v.clamp(0.0, 1.0);
        let got = f32::from_bits(clamp_unit(v.to_bits()));
        if v.is_nan() {
            assert!(got.is_nan());
            assert_eq!(clamp_unit(v.to_bits()), v.to_bits());
        } else {
            assert_eq!(got.to_bits(), expected.to_bits());
            assert!((0.0..=1.0).contains(&got));
        }
    }
}

#[test]
fn clamping_exact_values() {
    assert_eq!(clamp_unit(0.5f32.to_bits()), 0.5f32.to_bits());
    assert_eq!(clamp_unit(2.0f32.to_bits()), ONE);
    assert_eq!(clamp_unit(f32::INFINITY.to_bits()), ONE);
    assert_eq!(clamp_unit((-2.0f32).to_bits()), 0);
    assert_eq!(clamp_unit(f32::NEG_INFINITY.to_bits()), 0);
    assert_eq!(clamp_unit(SIGN), SIGN);
    assert_eq!(clamp_unit(0), 0);
    assert_eq!(clamp_unit(ONE), ONE);
    assert_eq!(clamp_unit(ONE + 1), ONE);
    assert_eq!(clamp_unit(SIGN + 1), 0);
    assert_eq!(clamp_unit(0x7fc0_0000), 0x7fc0_0000);
    assert_eq!(clamp_unit(0xffc0_0000), 0xffc0_0000);
}

#[test]
fn clamping_is_idempotent() {
    for v in samples() {
        let once = clamp_unit(v.to_bits());
        assert_eq!(clamp_unit(once), once);
    }
}

#[test]
fn clamping_three_components() {
    assert_eq!(
        clamp_unit3(&[(-1.0f32).to_bits(), 0.25f32.to_bits(), 7.0f32.to_bits()]),
        [0, 0.25f32.to_bits(), ONE]
    );
}
