use ds4_metal::command::F32;
use ds4_metal::f16::f32_to_f16_bits;

fn half(f: f32) -> u16 {
    f32_to_f16_bits(F32(f.to_bits()))
}

#[test]
fn zero_round_trips() {
    assert_eq!(half(0.0), 0x0000);
    assert_eq!(half(-0.0), 0x8000);
}

#[test]
fn one_is_exact() {
    assert_eq!(half(1.0), 0x3c00);
    assert_eq!(half(-1.0), 0xbc00);
    assert_eq!(half(2.0), 0x4000);
}

#[test]
fn small_normals_match_known_values() {
    assert_eq!(half(0.5), 0x3800);
    assert_eq!(half(0.25), 0x3400);
    assert_eq!(half(1.5), 0x3e00);
}

#[test]
fn overflow_to_inf() {
    let bits = half(1.0e6);
    assert_eq!(bits, 0x7c00);
    let nbits = half(-1.0e6);
    assert_eq!(nbits, 0xfc00);
}

#[test]
fn nan_stays_nan() {
    let bits = half(f32::NAN);
    assert_eq!(bits & 0x7c00, 0x7c00);
    assert_ne!(bits & 0x03ff, 0);
}

#[test]
fn inf_preserved() {
    assert_eq!(half(f32::INFINITY), 0x7c00);
    assert_eq!(half(f32::NEG_INFINITY), 0xfc00);
}

#[test]
fn ties_go_to_even() {
    // Between 1.0 and the next half, 1.0009765625.
    assert_eq!(half(1.00048828125), 0x3c00);
    // Between 0x3c01 and 0x3c02.
    assert_eq!(half(1.00146484375), 0x3c02);
    // Just above the first middle.
    assert_eq!(f32_to_f16_bits(F32(1.00048828125f32.to_bits() + 1)), 0x3c01);
    // Just below it.
    assert_eq!(f32_to_f16_bits(F32(1.00048828125f32.to_bits() - 1)), 0x3c00);
}

#[test]
fn rounding_carries_into_the_exponent() {
    // The largest fraction below two rounds up to two.
    assert_eq!(half(1.9998), 0x4000);
    // The largest finite half, and half a step above it.
    assert_eq!(half(65504.0), 0x7bff);
    assert_eq!(half(65519.0), 0x7bff);
    assert_eq!(half(65520.0), 0x7c00);
}

#[test]
fn below_the_smallest_normal_is_flushed() {
    assert_eq!(half(6.103515625e-5), 0x0400);
    assert_eq!(half(6.1035e-5), 0x0000);
    assert_eq!(half(-6.1035e-5), 0x8000);
    assert_eq!(half(5.9604645e-8), 0x0000);
    assert_eq!(half(-1.0e-45), 0x8000);
}

#[test]
fn nan_payload_keeps_its_leading_bits() {
    assert_eq!(f32_to_f16_bits(F32(0x7f80_0001)), 0x7e00);
    assert_eq!(f32_to_f16_bits(F32(0xffc0_2000)), 0xfe01);
    assert_eq!(f32_to_f16_bits(F32(0x7f80_2000)), 0x7e01);
}

#[test]
fn no_neighbour_is_nearer() {
    let value = |h: u16| -> f64 {
        let e = (h >> 10) as i32 - 15;
        (1.0 + (h & 0x3ff) as f64 / 1024.0) * 2f64.powi(e)
    };
    for bits in [0x3f80_1234u32, 0x4049_0fdb, 0x3dcc_cccd, 0x4715_8000, 0x3880_0fff] {
        let x = f32::from_bits(bits) as f64;
        let h = f32_to_f16_bits(F32(bits));
        let d = (value(h) - x).abs();
        assert!(d <= (value(h + 1) - x).abs());
        assert!(d <= (value(h - 1) - x).abs());
    }
}

#[test]
fn larger_values_have_larger_halves() {
    let mut last = 0;
    for i in 0..2000u32 {
        let h = f32_to_f16_bits(F32(0x3800_0000 + i * 0x1_0000));
        assert!(h >= last);
        last = h;
    }
}
