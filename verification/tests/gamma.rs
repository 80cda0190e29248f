use approx::{AbsDiffEq, UlpsEq};
use float_next_after::NextAfter;
use srgb::gamma;
use srgb::gamma::{
    compress_u8, expand_u8, Step, E_0, FAST_BITS_OFFSET, FAST_LUT, FAST_SHIFT,
    FAST_START_255_AT, FAST_START_AT, S_0, U8_TO_LINEAR_LUT,
};

const CASES: [(f32, u8); 12] = [
    (0.0, 0),
    (0.001517635, 5),
    (0.003035270, 10),
    (0.014443844, 32),
    (0.051269458, 64),
    (0.181164244, 118),
    (0.215860500, 128),
    (0.351532599, 160),
    (0.502886458, 188),
    (0.527115125, 192),
    (0.745404209, 224),
    (1.0, 255),
];

fn expand(e: u8) -> f32 {
    f32::from_bits(expand_u8(e))
}

fn compress(s: f32) -> u8 {
    compress_u8(s.to_bits())
}

fn raise(base: u32, exponent: u32) -> u32 {
    f32::from_bits(base).powf(f32::from_bits(exponent)).to_bits()
}

fn compress_u8_precise(s: f32) -> u8 {
    match gamma::compress_u8_precise(s.to_bits()) {
        Step::Done(e) => e,
        Step::Raise { base, exponent } => {
            gamma::compress_u8_precise_from_power(raise(base, exponent))
        }
    }
}

fn expand_normalised(e: f32) -> f32 {
    match gamma::expand_normalised(e.to_bits()) {
        Step::Done(s) => f32::from_bits(s),
        Step::Raise { base, exponent } => f32::from_bits(raise(base, exponent)),
    }
}

fn compress_normalised(s: f32) -> f32 {
    match gamma::compress_normalised(s.to_bits()) {
        Step::Done(e) => f32::from_bits(e),
        Step::Raise { base, exponent } => {
            f32::from_bits(gamma::compress_normalised_from_power(raise(base, exponent)))
        }
    }
}

fn expand_rec709_8bit(e: u8) -> f32 {
    match gamma::expand_rec709_8bit(e) {
        Step::Done(s) => f32::from_bits(s),
        Step::Raise { base, exponent } => f32::from_bits(raise(base, exponent)),
    }
}

fn expand_rec709_10bit(e: u16) -> f32 {
    match gamma::expand_rec709_10bit(e) {
        Step::Done(s) => f32::from_bits(s),
        Step::Raise { base, exponent } => f32::from_bits(raise(base, exponent)),
    }
}

fn compress_rec709_8bit(s: f32) -> u8 {
    match gamma::compress_rec709_8bit(s.to_bits()) {
        Step::Done(e) => e,
        Step::Raise { base, exponent } => {
            gamma::compress_rec709_8bit_from_power(raise(base, exponent))
        }
    }
}

fn compress_rec709_10bit(s: f32) -> u16 {
    match gamma::compress_rec709_10bit(s.to_bits()) {
        Step::Done(e) => e,
        Step::Raise { base, exponent } => {
            gamma::compress_rec709_10bit_from_power(raise(base, exponent))
        }
    }
}

fn ulps_eq(a: f32, b: f32, max_ulps: u32) -> bool {
    a.ulps_eq(&b, f32::default_epsilon(), max_ulps)
}

fn run_round_trip_test(
    min: u16,
    max: u16,
    to_lin: impl Fn(u16) -> f32,
    from_lin: impl Fn(f32) -> u16,
) {
    for v in min..=max {
        let lin = to_lin(v);
        let got = from_lin(lin);
        assert_eq!((v, lin), (got, lin));
    }
}

/// The interpolation of `compress_u8` written with the processor's own
/// arithmetic.
fn compress_on_the_processor(s: f32) -> u8 {
    if !(s > f32::from_bits(FAST_START_AT)) {
        let d: f32 = 12.92 * 255.0;
        d.mul_add(s.max(0.0), 0.5) as u8
    } else if s < f32::from_bits(FAST_START_255_AT) {
        let bits = s.to_bits() - FAST_BITS_OFFSET;
        let lft_x = (bits >> FAST_SHIFT) as usize;
        let rht_x = lft_x + 1;
        let lft = f32::from_bits(FAST_LUT[lft_x]);
        let rht = f32::from_bits(FAST_LUT[rht_x]);
        let lft_x = f32::from_bits(FAST_BITS_OFFSET + ((lft_x as u32) << FAST_SHIFT));
        let rht_x = f32::from_bits(FAST_BITS_OFFSET + ((rht_x as u32) << FAST_SHIFT));
        let dx = rht_x - lft_x;
        let ox = s - lft_x;
        (lft + (rht - lft) * ox / dx) as u8
    } else {
        255
    }
}

#[test]
fn test_expand_u8() {
    for (s, e) in CASES.iter().copied() {
        assert_eq!(s, expand(e));
    }
}

#[test]
fn test_compress_u8() {
    for e in 0..=255 {
        assert_eq!(e, compress(expand(e)));
    }
    for (s, e) in CASES.iter().copied() {
        assert_eq!(e, compress(s));
    }
}

#[test]
fn test_compress_u8_precise() {
    for (s, e) in CASES.iter().copied() {
        assert_eq!(e, compress_u8_precise(s));
    }
}

#[test]
fn test_expand_normalised() {
    for (s, e) in CASES.iter().copied() {
        assert!(ulps_eq(s, expand_normalised(e as f32 / 255.0), 5));
    }
}

#[test]
fn test_compress_normalised() {
    for (s, e) in CASES.iter().copied() {
        assert!(ulps_eq(e as f32 / 255.0, compress_normalised(s), f32::default_max_ulps()));
    }
}

#[test]
fn test_round_trip_u8_precise() {
    run_round_trip_test(0, 255, |v| expand(v as u8), |v| compress_u8_precise(v) as u16);
}

#[test]
fn test_round_trip_u8() {
    run_round_trip_test(0, 255, |v| expand(v as u8), |v| compress(v) as u16);
}

#[test]
fn test_round_trip_rec709_8bit() {
    run_round_trip_test(
        16,
        235,
        |v| expand_rec709_8bit(v as u8),
        |v| compress_rec709_8bit(v) as u16,
    );
}

#[test]
fn test_round_trip_rec709_10bit() {
    run_round_trip_test(64, 940, expand_rec709_10bit, compress_rec709_10bit);
}

#[test]
fn test_rec709_scaling() {
    for v in 16..=235 {
        let expanded = expand_rec709_8bit(v);
        assert_eq!(expanded, expand_rec709_10bit(v as u16 * 4));
        assert_eq!(
            compress_rec709_8bit(expanded) as u16 * 4,
            compress_rec709_10bit(expanded)
        );
    }
}

#[test]
fn test_round_trip_normalised() {
    for i in 0..=1000 {
        let want = i as f32 / 1000.0;
        let got = compress_normalised(expand_normalised(want));
        assert!(ulps_eq(want, got, f32::default_max_ulps()));
    }
}

#[test]
fn test_round_trip_error() {
    let mut error_ec = kahan::KahanSum::new();
    let mut error_ce = kahan::KahanSum::new();
    for i in 0..=1000 {
        let want = i as f32 / 1000.0;
        let diff = want as f64 - compress_normalised(expand_normalised(want)) as f64;
        error_ec += diff * diff;
        let diff = want as f64 - expand_normalised(compress_normalised(want)) as f64;
        error_ce += diff * diff;
    }

    assert_eq!(
        (0.24183433033897472, 2.3217916846930695),
        (error_ec.sum() * 1e12, error_ce.sum() * 1e12)
    );
}

#[test]
fn test_compress_u8_statistics() {
    fn edges(compress: fn(f32) -> u8) -> [f32; 255] {
        let mut edges = [0.0; 255];
        let mut x = 0.0001;
        while compress(x) != 0 {
            x *= 0.5;
            assert_ne!(x, 0.0);
        }
        edges[0] = x;
        loop {
            x = x.next_after(std::f32::INFINITY);
            assert!(x < 1.0);
            let y = compress(x);
            if y == 255 {
                break edges;
            }
            edges[y as usize] = x;
        }
    }

    let want = edges(compress_u8_precise);
    let got = edges(compress);

    let mut max_abs_error = 0.0;
    let mut abs_error = kahan::KahanSum::new();
    let mut squared_error = kahan::KahanSum::new();
    for (a, b) in want.iter().zip(got.iter()) {
        let err = (a - b).abs();
        abs_error += err;
        squared_error += err * err;
        if err > max_abs_error {
            max_abs_error = err;
        }
    }

    let scale = (1 << 14) as f32;
    let count = want.len() as f32;
    let aad = abs_error.sum() / count * scale;
    let rmse = (squared_error.sum() / count).sqrt() * scale;
    max_abs_error *= scale;

    assert_eq!((0.8496094, 0.27195325, 0.34617355), (max_abs_error, aad, rmse));
}

#[test]
fn test_compress_u8_increases() {
    // Starting at 0.0 makes this test dramatically slower so skip the first
    // few values.
    let mut value: f32 = 0.0001;
    let mut prev = compress(value);
    assert_eq!(0, prev, "Didn’t start at zero");
    while value < 1.0 {
        let next = value.next_after(std::f32::INFINITY);
        let res = compress(next);
        assert!(prev <= res, "{} = f({}) > f({}) = {}", prev, value, next, res);
        assert!(res - prev <= 1, "f({}) - f({}) = {} - {} > 1", next, value, res, prev);
        value = next;
        prev = res;
    }
    assert_eq!(255, prev, "Didn’t reach 255");
}

#[test]
fn expand_u8_examples() {
    assert_eq!(0.0, expand(0));
    assert_eq!(0.001517635, expand(5));
    assert_eq!(0.046665087, expand(61));
    assert_eq!(0.8148466, expand(233));
    assert_eq!(1.0, expand(255));
}

#[test]
fn compress_u8_examples() {
    assert_eq!(0, compress(0.0));
    assert_eq!(5, compress(0.0015176348));
    assert_eq!(61, compress(0.046665084));
    assert_eq!(233, compress(0.8148465));
    assert_eq!(255, compress(1.0));
}

#[test]
fn compress_u8_outside_the_unit_interval() {
    assert_eq!(0, compress(-0.0));
    assert_eq!(0, compress(-1.0));
    assert_eq!(0, compress(f32::NEG_INFINITY));
    assert_eq!(0, compress(f32::NAN));
    assert_eq!(0, compress_u8(0xffc0_0000));
    assert_eq!(0, compress(f32::MIN_POSITIVE));
    assert_eq!(0, compress(f32::from_bits(1)));
    assert_eq!(255, compress(1.5));
    assert_eq!(255, compress(f32::MAX));
    assert_eq!(255, compress(f32::INFINITY));
}

#[test]
fn compress_u8_agrees_with_the_processor() {
    let mut b: u32 = 0;
    while b < 0x3f90_0000 {
        let s = f32::from_bits(b);
        assert_eq!(compress_on_the_processor(s), compress(s), "{:#x}", b);
        b += 977;
    }
    // every pattern about each sample point and each threshold
    for i in 0..136u32 {
        let x = FAST_BITS_OFFSET + (i << FAST_SHIFT);
        for b in (x - 64)..(x + 64) {
            let s = f32::from_bits(b);
            assert_eq!(compress_on_the_processor(s), compress(s), "{:#x}", b);
        }
    }
    for x in [FAST_START_AT, FAST_START_255_AT] {
        for b in (x - 64)..(x + 64) {
            let s = f32::from_bits(b);
            assert_eq!(compress_on_the_processor(s), compress(s), "{:#x}", b);
        }
    }
}

#[test]
fn compress_u8_precise_examples() {
    assert_eq!(0, compress_u8_precise(0.0));
    assert_eq!(5, compress_u8_precise(0.0015176348));
    assert_eq!(61, compress_u8_precise(0.046665084));
    assert_eq!(233, compress_u8_precise(0.8148465));
    assert_eq!(255, compress_u8_precise(1.0));
    assert_eq!(0, compress_u8_precise(-3.0));
    assert_eq!(0, compress_u8_precise(f32::NAN));
    assert_eq!(255, compress_u8_precise(7.0));
    assert_eq!(255, compress_u8_precise(f32::INFINITY));
}

#[test]
fn compress_u8_precise_takes_the_power_above_the_threshold() {
    let s0 = f32::from_bits(S_0);
    assert!(matches!(gamma::compress_u8_precise(S_0), Step::Done(10)));
    assert_eq!(
        Step::Raise { base: S_0 + 1, exponent: gamma::COMPRESS_EXPONENT },
        gamma::compress_u8_precise(S_0 + 1)
    );
    assert_eq!(
        Step::Raise { base: 1.0f32.to_bits(), exponent: (1.0f32 / 2.4).to_bits() },
        gamma::compress_u8_precise(2.5f32.to_bits())
    );
    assert_eq!(0.0031306685, s0);
    assert_eq!(E_0, (12.92 * s0).to_bits());
    assert_eq!(255, gamma::compress_u8_precise_from_power(1.0f32.to_bits()));
    assert_eq!(255, gamma::compress_u8_precise_from_power(9.0f32.to_bits()));
    assert_eq!(0, gamma::compress_u8_precise_from_power(0.0f32.to_bits()));
    assert_eq!(0, gamma::compress_u8_precise_from_power(f32::NAN.to_bits()));
}

#[test]
fn expand_rec709_examples() {
    assert_eq!(0.0, expand_rec709_8bit(0));
    assert_eq!(0.0, expand_rec709_8bit(16));
    assert_eq!(0.0020294266, expand_rec709_8bit(18));
    assert_eq!(0.9548653, expand_rec709_8bit(230));
    assert_eq!(1.0, expand_rec709_8bit(235));
    assert_eq!(1.0, expand_rec709_8bit(255));
    assert_eq!(0.0, expand_rec709_10bit(0));
    assert_eq!(0.0, expand_rec709_10bit(64));
    assert_eq!(0.00152207, expand_rec709_10bit(70));
    assert_eq!(0.7077097, expand_rec709_10bit(800));
    assert_eq!(1.0, expand_rec709_10bit(940));
    assert_eq!(1.0, expand_rec709_10bit(1023));
    assert_eq!(1.0, expand_rec709_10bit(65535));
}

#[test]
fn expand_rec709_pieces() {
    assert_eq!(Step::Done(0), gamma::expand_rec709_8bit(16));
    assert_eq!(Step::Done((17.0f32 / 985.5).to_bits()), gamma::expand_rec709_8bit(33));
    assert_eq!(
        Step::Raise {
            base: ((18.0f32 + 0.099 * 219.0) / (1.099 * 219.0)).to_bits(),
            exponent: 2.2f32.to_bits()
        },
        gamma::expand_rec709_8bit(34)
    );
    assert!(matches!(gamma::expand_rec709_8bit(234), Step::Raise { .. }));
    assert_eq!(Step::Done(1.0f32.to_bits()), gamma::expand_rec709_8bit(235));
    assert_eq!(Step::Done((70.0f32 / 3942.0).to_bits()), gamma::expand_rec709_10bit(134));
    assert_eq!(
        Step::Raise {
            base: ((71.0f32 + 0.099 * 876.0) / (1.099 * 876.0)).to_bits(),
            exponent: 2.2f32.to_bits()
        },
        gamma::expand_rec709_10bit(135)
    );
    assert!(matches!(gamma::expand_rec709_10bit(939), Step::Raise { .. }));
    assert_eq!(Step::Done(1.0f32.to_bits()), gamma::expand_rec709_10bit(940));
}

#[test]
fn compress_rec709_examples() {
    assert_eq!(16, compress_rec709_8bit(0.0));
    assert_eq!(18, compress_rec709_8bit(0.002));
    assert_eq!(230, compress_rec709_8bit(0.954));
    assert_eq!(235, compress_rec709_8bit(1.0));
    assert_eq!(64, compress_rec709_10bit(0.0));
    assert_eq!(70, compress_rec709_10bit(0.0015));
    assert_eq!(800, compress_rec709_10bit(0.7077));
    assert_eq!(940, compress_rec709_10bit(1.0));
    assert_eq!(16, compress_rec709_8bit(-1.0));
    assert_eq!(16, compress_rec709_8bit(f32::NAN));
    assert_eq!(235, compress_rec709_8bit(4.0));
    assert_eq!(235, compress_rec709_8bit(f32::INFINITY));
    assert_eq!(64, compress_rec709_10bit(-1.0));
    assert_eq!(64, compress_rec709_10bit(f32::NAN));
    assert_eq!(940, compress_rec709_10bit(4.0));
}

#[test]
fn compress_rec709_pieces() {
    let at_break = 0.018f32.to_bits();
    assert_eq!(Step::Done(16 + 18), gamma::compress_rec709_8bit(at_break));
    assert_eq!(Step::Done(64 + 71), gamma::compress_rec709_10bit(at_break));
    assert_eq!(
        Step::Raise { base: at_break + 1, exponent: (1.0f32 / 2.2).to_bits() },
        gamma::compress_rec709_8bit(at_break + 1)
    );
    assert_eq!(
        Step::Raise { base: 1.0f32.to_bits(), exponent: (1.0f32 / 2.2).to_bits() },
        gamma::compress_rec709_10bit(3.0f32.to_bits())
    );
    assert_eq!(235, gamma::compress_rec709_8bit_from_power(1.0f32.to_bits()));
    assert_eq!(235, gamma::compress_rec709_8bit_from_power(2.0f32.to_bits()));
    assert_eq!(16, gamma::compress_rec709_8bit_from_power(0.0f32.to_bits()));
    assert_eq!(940, gamma::compress_rec709_10bit_from_power(1.0f32.to_bits()));
    assert_eq!(940, gamma::compress_rec709_10bit_from_power(f32::INFINITY.to_bits()));
    assert_eq!(64, gamma::compress_rec709_10bit_from_power(f32::NAN.to_bits()));
}

#[test]
fn rec709_constants_are_the_rounded_products() {
    assert_eq!((4.5f32 * 219.0).to_bits(), gamma::REC709_SLOPE_8BIT);
    assert_eq!((4.5f32 * 876.0).to_bits(), gamma::REC709_SLOPE_10BIT);
    assert_eq!((0.099f32 * 219.0).to_bits(), gamma::REC709_OFFSET_8BIT);
    assert_eq!((0.099f32 * 876.0).to_bits(), gamma::REC709_OFFSET_10BIT);
    assert_eq!((1.099f32 * 219.0).to_bits(), gamma::REC709_GAIN_8BIT);
    assert_eq!((1.099f32 * 876.0).to_bits(), gamma::REC709_GAIN_10BIT);
    assert_eq!((-(0.099f32 * 219.0) + 0.5).to_bits(), gamma::REC709_BIAS_8BIT);
    assert_eq!((-(0.099f32 * 876.0) + 0.5).to_bits(), gamma::REC709_BIAS_10BIT);
    assert_eq!((4.5f32 * 0.018 * 219.0) as u16 + 16, gamma::REC709_LINEAR_8BIT);
    assert_eq!((4.5f32 * 0.018 * 876.0) as u16 + 64, gamma::REC709_LINEAR_10BIT);
    assert_eq!(0.018f32.to_bits(), gamma::REC709_BREAK);
    assert_eq!(2.2f32.to_bits(), gamma::REC709_EXPAND_EXPONENT);
    assert_eq!((1.0f32 / 2.2).to_bits(), gamma::REC709_COMPRESS_EXPONENT);
}

#[test]
fn srgb_constants_are_the_rounded_products() {
    assert_eq!((12.92f32 * 255.0).to_bits(), gamma::LINEAR_SLOPE);
    assert_eq!((1.055f32 * 255.0).to_bits(), gamma::POWER_GAIN);
    assert_eq!((-(0.055f32 * 255.0) + 0.5).to_bits(), gamma::POWER_BIAS);
    assert_eq!(12.92f32.to_bits(), gamma::SRGB_SLOPE);
    assert_eq!(1.055f32.to_bits(), gamma::SRGB_GAIN);
    assert_eq!(0.055f32.to_bits(), gamma::SRGB_OFFSET);
    assert_eq!(2.4f32.to_bits(), gamma::EXPAND_EXPONENT);
    assert_eq!((1.0f32 / 2.4).to_bits(), gamma::COMPRESS_EXPONENT);
    assert_eq!((5.0f32 / 12.0).to_bits(), gamma::COMPRESS_EXPONENT);
    assert_eq!(0.5f32.to_bits(), gamma::HALF);
    assert_eq!(0.0031919535067975154f32.to_bits(), FAST_START_AT);
    assert_eq!(0.9954979522975671f32.to_bits(), FAST_START_255_AT);
    assert_eq!(10.842953690763022f32.to_bits(), FAST_LUT[0]);
    assert_eq!(134.8231304635986f32.to_bits(), FAST_LUT[101]);
    assert_eq!(260.01981786784313f32.to_bits(), FAST_LUT[135]);
    assert_eq!(136, FAST_LUT.len());
}

#[test]
fn normalised_examples() {
    assert_eq!(0.0, expand_normalised(0.0));
    assert_eq!(0.046665084, expand_normalised(0.23921567));
    assert_eq!(0.8148465, expand_normalised(0.91372544));
    assert_eq!(1.0, expand_normalised(1.0));
    assert_eq!(0.0, compress_normalised(0.0));
    assert_eq!(0.23921567, compress_normalised(0.046665084));
    assert_eq!(0.91372544, compress_normalised(0.8148465));
    assert_eq!(0.99999994, compress_normalised(1.0));
}

#[test]
fn normalised_pieces() {
    let e0 = f32::from_bits(E_0);
    let s0 = f32::from_bits(S_0);
    assert_eq!(Step::Done((e0 / 12.92).to_bits()), gamma::expand_normalised(E_0));
    assert_eq!(
        Step::Raise {
            base: ((f32::from_bits(E_0 + 1) + 0.055) / 1.055).to_bits(),
            exponent: 2.4f32.to_bits()
        },
        gamma::expand_normalised(E_0 + 1)
    );
    assert_eq!(Step::Done((12.92 * s0).to_bits()), gamma::compress_normalised(S_0));
    assert_eq!(
        Step::Raise { base: S_0 + 1, exponent: (1.0f32 / 2.4).to_bits() },
        gamma::compress_normalised(S_0 + 1)
    );
    // a NaN goes the way of the linear piece: expansion leaves it a NaN,
    // compression holds it at zero
    for nan in [f32::NAN.to_bits(), 0xffc0_0000, 0x7f80_0001] {
        assert!(matches!(gamma::expand_normalised(nan), Step::Done(v) if f32::from_bits(v).is_nan()));
        assert_eq!(Step::Done(0), gamma::compress_normalised(nan));
    }
    assert_eq!(Step::Done((-2.0f32 / 12.92).to_bits()), gamma::expand_normalised((-2.0f32).to_bits()));
    assert_eq!(
        (1.055f32 * 0.5 + -0.055).to_bits(),
        gamma::compress_normalised_from_power(0.5f32.to_bits())
    );
}

#[test]
fn compress_normalised_holds_its_argument() {
    for v in [-1.0f32, -2.0, -0.0, 0.0, f32::NEG_INFINITY, -f32::MIN_POSITIVE, f32::NAN] {
        assert_eq!(Step::Done(0), gamma::compress_normalised(v.to_bits()));
        assert_eq!(0.0, compress_normalised(v));
        assert_eq!(0, compress_normalised(v).to_bits());
    }
    let one = gamma::compress_normalised(1.0f32.to_bits());
    assert_eq!(
        Step::Raise { base: 1.0f32.to_bits(), exponent: (1.0f32 / 2.4).to_bits() },
        one
    );
    for v in [1.0000001f32, 2.0, 1e30, f32::MAX, f32::INFINITY] {
        assert_eq!(one, gamma::compress_normalised(v.to_bits()));
        assert_eq!(compress_normalised(1.0), compress_normalised(v));
    }
    let mut b: u32 = 0;
    loop {
        let e = compress_normalised(f32::from_bits(b));
        assert!((0.0..=1.0).contains(&e), "{:#x} {}", b, e);
        if b > u32::MAX - 65_521 {
            break;
        }
        b += 65_521;
    }
    assert_eq!(
        [Step::Done(0), Step::Done(0), one],
        gamma::normalised_from_linear([(-1.0f32).to_bits(), f32::NAN.to_bits(), 2.0f32.to_bits()])
    );
}

#[test]
fn three_components_keep_their_order() {
    assert_eq!(
        [0.8148466, 0.80695224, 0.7991027],
        gamma::linear_from_u8([233, 232, 231]).map(f32::from_bits)
    );
    assert_eq!(
        [0.65837485, 0.015208514, 0.046665087],
        gamma::linear_from_u8([212, 33, 61]).map(f32::from_bits)
    );
    assert_eq!(
        [233, 232, 231],
        gamma::u8_from_linear([0.8148465f32, 0.80695224, 0.7991027].map(f32::to_bits))
    );
    assert_eq!(
        [212, 33, 61],
        gamma::u8_from_linear([0.6583748f32, 0.015208514, 0.046665084].map(f32::to_bits))
    );
    let raised = |s: Step<u32>| match s {
        Step::Done(v) => f32::from_bits(v),
        Step::Raise { base, exponent } => f32::from_bits(raise(base, exponent)),
    };
    assert_eq!(
        [0.8148467, 0.80695236, 0.79910284],
        gamma::linear_from_normalised([0.9137255f32, 0.9098039, 0.90588236].map(f32::to_bits))
            .map(raised)
    );
    assert_eq!(
        [0.65837485, 0.015208514, 0.046665095],
        gamma::linear_from_normalised([0.83137256f32, 0.12941177, 0.2392157].map(f32::to_bits))
            .map(raised)
    );
    let finished = |s: Step<u32>| match s {
        Step::Done(v) => f32::from_bits(v),
        Step::Raise { base, exponent } => {
            f32::from_bits(gamma::compress_normalised_from_power(raise(base, exponent)))
        }
    };
    assert_eq!(
        [0.9137255, 0.9098039, 0.90588236],
        gamma::normalised_from_linear([0.8148467f32, 0.80695236, 0.79910284].map(f32::to_bits))
            .map(finished)
    );
    assert_eq!(
        [0.83137256, 0.1294117, 0.23921564],
        gamma::normalised_from_linear([0.65837485f32, 0.0152085, 0.04666508].map(f32::to_bits))
            .map(finished)
    );
}

#[test]
fn codes_survive_coarse_powers() {
    let tolerance = srgb::survival::TOLERANCE;
    assert_eq!(4096, tolerance);
    for v in 34..235u8 {
        match gamma::expand_rec709_8bit(v) {
            Step::Raise { base, .. } => {
                for p in [base - tolerance, base, base + tolerance] {
                    assert_eq!(v, gamma::compress_rec709_8bit_from_power(p));
                }
            }
            Step::Done(_) => panic!("code {} is on the power piece", v),
        }
    }
    for v in 135..940u16 {
        match gamma::expand_rec709_10bit(v) {
            Step::Raise { base, .. } => {
                for p in [base - tolerance, base, base + tolerance] {
                    assert_eq!(v, gamma::compress_rec709_10bit_from_power(p));
                }
            }
            Step::Done(_) => panic!("code {} is on the power piece", v),
        }
    }
    for v in 11..=255u32 {
        let base = ((1000 * v + 14025) as f32 / 269025.0).to_bits();
        for p in [base - tolerance, base, base + tolerance] {
            assert_eq!(v as u8, gamma::compress_u8_precise_from_power(p));
        }
        // the power that the processor takes lies well within
        let taken = expand(v as u8).powf(5.0 / 12.0).to_bits();
        assert!(taken.abs_diff(base) <= 4, "{} {:#x} {:#x}", v, taken, base);
    }
}

#[test]
fn fast_edges_are_the_largest_values() {
    let edges = srgb::edges::FAST_EDGES;
    assert_eq!(255, edges.len());
    let mut worst: f64 = 0.0;
    for n in 0..255usize {
        assert_eq!(n as u8, compress_u8(edges[n]));
        assert_eq!(n as u8 + 1, compress_u8(edges[n] + 1));
        let exact = if n < 10 {
            (n as f64 + 0.5) / 3294.6
        } else {
            ((n as f64 + 14.525) / 269.025).powf(2.4)
        };
        let error = (f32::from_bits(edges[n]) as f64 - exact).abs() * 16384.0;
        assert!(error <= 0.85, "{} {}", n, error);
        worst = worst.max(error);
    }
    assert!(worst > 0.849 && worst < 0.8499, "{}", worst);
}

#[test]
fn last_codes_survive_coarse_powers() {
    let tolerance = srgb::survival::TOLERANCE;
    let one = 1.0f32.to_bits();
    assert_eq!(Step::Done(one), gamma::expand_rec709_8bit(235));
    assert_eq!(Step::Done(one), gamma::expand_rec709_10bit(940));
    assert_eq!(
        Step::Raise { base: one, exponent: gamma::REC709_COMPRESS_EXPONENT },
        gamma::compress_rec709_8bit(one)
    );
    assert_eq!(
        Step::Raise { base: one, exponent: gamma::REC709_COMPRESS_EXPONENT },
        gamma::compress_rec709_10bit(one)
    );
    for p in (one - tolerance)..=(one + tolerance) {
        assert_eq!(235, gamma::compress_rec709_8bit_from_power(p));
        assert_eq!(940, gamma::compress_rec709_10bit_from_power(p));
    }
    assert_eq!(one, 1.0f32.powf(f32::from_bits(gamma::REC709_COMPRESS_EXPONENT)).to_bits());
}

#[test]
fn finishing_rises_with_the_power() {
    let mut powers: Vec<u32> = vec![
        0xff80_0000, 0xff7f_ffff, 0xbf80_0000, 0x8000_0001, 0x8000_0000, 0, 1, 0x0080_0000,
    ];
    let mut b: u32 = 0x3000_0000;
    while b < 0x4200_0000 {
        powers.push(b);
        b += 48_611;
    }
    powers.extend([0x7f7f_ffff, 0x7f80_0000]);
    let mut last = (0u8, 16u8, 64u16);
    for &p in powers.iter() {
        let now = (
            gamma::compress_u8_precise_from_power(p),
            gamma::compress_rec709_8bit_from_power(p),
            gamma::compress_rec709_10bit_from_power(p),
        );
        assert!(last.0 <= now.0 && last.1 <= now.1 && last.2 <= now.2, "{:#x}", p);
        if f32::from_bits(p) <= 0.0 {
            assert_eq!((0, 16, 64), now);
        }
        last = now;
    }
    assert_eq!((255, 235, 940), last);
}

#[test]
fn exact_compression_rises_on_the_linear_piece() {
    let mut last = 0u8;
    for b in (0..=S_0).step_by(997) {
        match gamma::compress_u8_precise(b) {
            Step::Done(e) => {
                assert!(last <= e, "{:#x}", b);
                last = e;
            }
            Step::Raise { .. } => panic!("{:#x} is on the linear piece", b),
        }
    }
    assert_eq!(Step::Done(10), gamma::compress_u8_precise(S_0));
    for v in [-1.0f32, -0.0, f32::NEG_INFINITY, f32::NAN] {
        assert_eq!(Step::Done(0), gamma::compress_u8_precise(v.to_bits()));
    }
}

#[test]
fn linear_codes_need_no_power() {
    for v in 16..=33u8 {
        match gamma::expand_rec709_8bit(v) {
            Step::Done(x) => assert_eq!(Step::Done(v), gamma::compress_rec709_8bit(x)),
            Step::Raise { .. } => panic!("code {} is on the linear piece", v),
        }
    }
    for v in 64..=134u16 {
        match gamma::expand_rec709_10bit(v) {
            Step::Done(x) => assert_eq!(Step::Done(v), gamma::compress_rec709_10bit(x)),
            Step::Raise { .. } => panic!("code {} is on the linear piece", v),
        }
    }
    for v in 0..=10u8 {
        assert_eq!(Step::Done(v), gamma::compress_u8_precise(expand_u8(v)));
    }
    for v in 11..=255u8 {
        assert_eq!(
            Step::Raise { base: expand_u8(v), exponent: gamma::COMPRESS_EXPONENT },
            gamma::compress_u8_precise(expand_u8(v))
        );
    }
}

#[test]
fn rec709_codings_expand_alike() {
    for v in 16..=235u8 {
        assert_eq!(gamma::expand_rec709_8bit(v), gamma::expand_rec709_10bit(v as u16 * 4));
    }
}

#[test]
fn compress_u8_steps_by_one() {
    // about every threshold and every sample point, and from zero on
    let mut starts: Vec<u32> = vec![0, FAST_START_AT - 64, FAST_START_255_AT - 64, 0x3f80_0000 - 128];
    for i in 0..135u32 {
        starts.push(FAST_BITS_OFFSET + (i << FAST_SHIFT) - 64);
    }
    for e in 1..=255u8 {
        starts.push(expand_u8(e) - 64);
    }
    for start in starts {
        for s in start..(start + 128) {
            if s < 0x3f80_0000 {
                let (a, b) = (compress_u8(s), compress_u8(s + 1));
                assert!(a <= b && b - a <= 1, "{:#x}", s);
            }
        }
    }
}

#[test]
fn expand_u8_rises() {
    for e in 0..255u8 {
        assert!(expand(e) < expand(e + 1));
    }
    assert_eq!(256, U8_TO_LINEAR_LUT.len());
}

#[test]
fn expansion_table_follows_the_formula() {
    for v in 0..=255u32 {
        let want = if v <= 10 {
            (v as f64 * 10.0) / 32946.0
        } else {
            ((v as f64 * 1000.0 + 55.0 * 255.0) / (1055.0 * 255.0)).powf(2.4)
        };
        assert_eq!(want as f32, expand(v as u8), "{}", v);
    }
}
