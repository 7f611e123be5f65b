use capture::level::{level_clamp_unit, level_exceeds, level_is_nan};

fn samples() -> Vec<f32> {
    vec![
        0.0,
        -0.0,
        f32::MIN_POSITIVE,
        -f32::MIN_POSITIVE,
        1.0e-40,
        -1.0e-40,
        0.005,
        0.15,
        0.35,
        0.5,
        0.999_999_94,
        1.0,
        1.000_000_1,
        -1.0,
        2.5,
        -2.5,
        f32::MAX,
        f32::MIN,
        f32::INFINITY,
        f32::NEG_INFINITY,
        f32::NAN,
        -f32::NAN,
    ]
}

#[test]
fn exceeds_agrees_with_the_comparison_of_floats() {
    for a in samples() {
        for b in samples() {
            assert_eq!(level_exceeds(a.to_bits(), b.to_bits()), a > b, "{a} > {b}");
        }
    }
}

#[test]
fn clamp_agrees_with_the_clamp_of_floats() {
    for a in samples() {
        let expected = a.clamp(0.0, 1.0);
        let got = f32::from_bits(level_clamp_unit(a.to_bits()));
        if a.is_nan() {
            assert!(got.is_nan());
        } else {
            assert_eq!(got.to_bits(), expected.to_bits(), "clamp {a}");
        }
    }
}

#[test]
fn nan_is_recognised() {
    for a in samples() {
        assert_eq!(level_is_nan(a.to_bits()), a.is_nan());
    }
}

#[test]
fn exact_values_of_the_ordering() {
    assert!(level_exceeds(0.36f32.to_bits(), 0.35f32.to_bits()));
    assert!(!level_exceeds(0.35f32.to_bits(), 0.35f32.to_bits()));
    assert!(!level_exceeds(0.0f32.to_bits(), (-0.0f32).to_bits()));
    assert!(level_exceeds(0.0f32.to_bits(), (-1.0f32).to_bits()));
    assert_eq!(level_clamp_unit(1.5f32.to_bits()), 0x3F80_0000);
    assert_eq!(level_clamp_unit((-3.0f32).to_bits()), 0);
    assert_eq!(level_clamp_unit(0.25f32.to_bits()), 0.25f32.to_bits());
}
