use kahan::KahanSummator;
use srgb::gamma::{self, Step};
use srgb::rec709::{
    decode_rec709_10bit, decode_rec709_8bit, encode_rec709_10bit, encode_rec709_8bit,
};
use srgb::{
    arr_map, normalised_from_u8, normalised_from_xyz, u8_from_normalised, u8_from_xyz,
    xyz_from_u8,
};

const WHITE_X: f64 = 0.312713;
const WHITE_Y: f64 = 0.329016;

fn bits(v: [f32; 3]) -> [u32; 3] {
    v.map(f32::to_bits)
}

fn floats(v: [u32; 3]) -> [f32; 3] {
    v.map(f32::from_bits)
}

fn raised(step: Step<u32>) -> u32 {
    match step {
        Step::Done(v) => v,
        Step::Raise { base, exponent } => {
            f32::from_bits(base).powf(f32::from_bits(exponent)).to_bits()
        }
    }
}

fn xyz_from_normalised(rgb: [f32; 3]) -> [f32; 3] {
    floats(srgb::xyz::xyz_from_linear(gamma::linear_from_normalised(bits(rgb)).map(raised)))
}

fn measure_grey_chromaticity_error(f: impl Fn(u8) -> [f32; 3]) -> f64 {
    // Grey colours should have chromaticity equal white point’s
    // chromaticity.
    let mut error = kahan::KahanSum::new();
    for i in 1..=255 {
        let [x, y, z] = f(i);
        let d: f64 = [x as f64, y as f64, z as f64].iter().kahan_sum().sum();
        let x = x as f64 / d - WHITE_X;
        let y = y as f64 / d - WHITE_Y;
        error += x * x;
        error += y * y;
    }
    error.sum() * 1e15
}

#[test]
fn test_grey_chromaticity_error_u8() {
    assert_eq!(
        48.99296021015466,
        measure_grey_chromaticity_error(|i| floats(xyz_from_u8([i, i, i])))
    );
}

#[test]
fn test_grey_chromaticity_error_normalised() {
    assert_eq!(
        39.81365168327802,
        measure_grey_chromaticity_error(|i| {
            let v = i as f32 / 255.0;
            xyz_from_normalised([v, v, v])
        })
    );
}

#[test]
fn test_grey_chromaticity_error_linear() {
    assert_eq!(
        50.927415198412874,
        measure_grey_chromaticity_error(|i| {
            let v = i as f32 / 255.0;
            floats(srgb::xyz::xyz_from_linear(bits([v, v, v])))
        })
    );
}

#[test]
fn normalised_from_u8_examples() {
    assert_eq!([0.9137255, 0.9098039, 0.90588236], floats(normalised_from_u8([233, 232, 231])));
    assert_eq!([0.83137256, 0.12941177, 0.23921569], floats(normalised_from_u8([212, 33, 61])));
    for v in 0..=255u8 {
        assert_eq!([v as f32 / 255.0; 3], floats(normalised_from_u8([v; 3])));
    }
}

#[test]
fn u8_from_normalised_examples() {
    assert_eq!([233, 232, 231], u8_from_normalised(bits([0.9137255, 0.9098039, 0.90588236])));
    assert_eq!([212, 33, 61], u8_from_normalised(bits([0.83137256, 0.12941177, 0.23921569])));
    assert_eq!([0, 0, 255], u8_from_normalised(bits([-0.5, f32::NAN, 1.5])));
    assert_eq!([0, 255, 0], u8_from_normalised(bits([-0.0, f32::INFINITY, f32::NEG_INFINITY])));
    let mut b: u32 = 0;
    while b < 0x3f90_0000 {
        let v = f32::from_bits(b);
        let want = v.clamp(0.0, 1.0).mul_add(255.0, 0.5) as u8;
        assert_eq!([want; 3], u8_from_normalised([b; 3]), "{:#x}", b);
        b += 7919;
    }
}

#[test]
fn u8_round_trip_through_normalised() {
    for v in 0..=255u8 {
        assert_eq!([v; 3], u8_from_normalised(normalised_from_u8([v; 3])));
    }
}

#[test]
fn xyz_and_u8() {
    for r in [0u8, 1, 17, 128, 254, 255] {
        for g in [0u8, 5, 99, 255] {
            for b in [0u8, 61, 200, 255] {
                assert_eq!([r, g, b], u8_from_xyz(xyz_from_u8([r, g, b])));
            }
        }
    }
    let white = floats(xyz_from_u8([255, 255, 255]));
    let want = floats(srgb::xyz::D65_XYZ);
    for i in 0..3 {
        assert!((white[i] - want[i]).abs() <= 0.0000002);
    }
    assert_eq!(
        gamma::u8_from_linear(srgb::xyz::linear_from_xyz(bits([0.2990163, 0.16, 0.0655738]))),
        u8_from_xyz(bits([0.2990163, 0.16, 0.0655738]))
    );
}

#[test]
fn normalised_from_xyz_is_compression_after_the_matrix() {
    let xyz = bits([0.8071875, 0.82, 0.9353125]);
    let linear = srgb::xyz::linear_from_xyz(xyz);
    assert_eq!(gamma::normalised_from_linear(linear), normalised_from_xyz(xyz));
    assert_eq!(
        [Step::Done(0), Step::Done(0), Step::Done(0)],
        normalised_from_xyz(bits([0.0, 0.0, 0.0]))
    );
}

#[test]
fn arr_map_keeps_the_order() {
    assert_eq!([2, 4, 6], arr_map([1, 2, 3], |v: u8| 2 * v as u16));
    assert_eq!([false, true, false], arr_map([1.5f32, -2.0, 0.0], |v: f32| v < 0.0));
}

#[test]
fn decode_rec709_examples() {
    assert_eq!(0.0, f32::from_bits(decode_rec709_8bit(0)));
    assert_eq!(0.0, f32::from_bits(decode_rec709_8bit(16)));
    assert_eq!(0.5022831, f32::from_bits(decode_rec709_8bit(126)));
    assert_eq!(1.0, f32::from_bits(decode_rec709_8bit(235)));
    assert_eq!(1.0, f32::from_bits(decode_rec709_8bit(255)));
    assert_eq!(0.0, f32::from_bits(decode_rec709_10bit(0)));
    assert_eq!(0.0, f32::from_bits(decode_rec709_10bit(64)));
    assert_eq!(0.50570774, f32::from_bits(decode_rec709_10bit(507)));
    assert_eq!(1.0, f32::from_bits(decode_rec709_10bit(940)));
    assert_eq!(1.0, f32::from_bits(decode_rec709_10bit(1023)));
    assert_eq!(1.0, f32::from_bits(decode_rec709_10bit(65535)));
}

#[test]
fn decode_rec709_agrees_with_the_processor() {
    for v in 0..=255u8 {
        let want = (v.clamp(16, 235) - 16) as f32 / (235 - 16) as f32;
        assert_eq!(want.to_bits(), decode_rec709_8bit(v));
    }
    for v in 0..=1023u16 {
        let want = (v.clamp(64, 940) - 64) as f32 / (940 - 64) as f32;
        assert_eq!(want.to_bits(), decode_rec709_10bit(v));
    }
}

#[test]
fn encode_rec709_agrees_with_the_processor() {
    let mut b: u32 = 0;
    while b < 0x3f90_0000 {
        let v = f32::from_bits(b);
        assert_eq!(v.clamp(0.0, 1.0).mul_add((235 - 16) as f32, 16.5) as u8, encode_rec709_8bit(b));
        assert_eq!(v.clamp(0.0, 1.0).mul_add((940 - 64) as f32, 64.5) as u16, encode_rec709_10bit(b));
        b += 6911;
    }
    for v in [-1.0f32, -0.0, f32::NEG_INFINITY, f32::INFINITY, 2.0, f32::MIN_POSITIVE] {
        assert_eq!(
            v.clamp(0.0, 1.0).mul_add((235 - 16) as f32, 16.5) as u8,
            encode_rec709_8bit(v.to_bits())
        );
        assert_eq!(
            v.clamp(0.0, 1.0).mul_add((940 - 64) as f32, 64.5) as u16,
            encode_rec709_10bit(v.to_bits())
        );
    }
    assert_eq!(16, encode_rec709_8bit(0.0f32.to_bits()));
    assert_eq!(235, encode_rec709_8bit(1.0f32.to_bits()));
    assert_eq!(64, encode_rec709_10bit(0.0f32.to_bits()));
    assert_eq!(940, encode_rec709_10bit(1.0f32.to_bits()));
}

#[test]
fn encode_rec709_never_leaves_the_range() {
    // a NaN, of either sign and with any payload, has the first code
    for nan in [f32::NAN.to_bits(), 0xffc0_0000, 0x7f80_0001, 0xffff_ffff] {
        assert_eq!(16, encode_rec709_8bit(nan));
        assert_eq!(64, encode_rec709_10bit(nan));
    }
    for v in [-1.0f32, -0.0, 0.0, f32::NEG_INFINITY, -f32::MIN_POSITIVE, f32::MIN] {
        assert_eq!(16, encode_rec709_8bit(v.to_bits()));
        assert_eq!(64, encode_rec709_10bit(v.to_bits()));
    }
    for v in [1.0f32, 1.0000001, 2.0, f32::MAX, f32::INFINITY] {
        assert_eq!(235, encode_rec709_8bit(v.to_bits()));
        assert_eq!(940, encode_rec709_10bit(v.to_bits()));
    }
    let mut b: u32 = 0;
    loop {
        let e = encode_rec709_8bit(b);
        assert!((16..=235).contains(&e), "{:#x}", b);
        let e = encode_rec709_10bit(b);
        assert!((64..=940).contains(&e), "{:#x}", b);
        if b > u32::MAX - 65_521 {
            break;
        }
        b += 65_521;
    }
}

#[test]
fn rec709_codes_round_trip() {
    for v in 0..=255u8 {
        assert_eq!(v.clamp(16, 235), encode_rec709_8bit(decode_rec709_8bit(v)));
    }
    for v in 0..=1023u16 {
        assert_eq!(v.clamp(64, 940), encode_rec709_10bit(decode_rec709_10bit(v)));
    }
    assert_eq!(940, encode_rec709_10bit(decode_rec709_10bit(65535)));
}
