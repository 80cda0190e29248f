use srgb::arith::{div, fused, quantise};
use srgb::binary32::{from_u32, gt, lt, min, positive, to_u16, to_u8};

/// A fixed sequence of patterns that visits every class of number.
fn patterns() -> Vec<u32> {
    let mut out: Vec<u32> = vec![
        0x0000_0000, 0x8000_0000, 0x0000_0001, 0x8000_0001, 0x007f_ffff, 0x0080_0000,
        0x0080_0001, 0x00ff_ffff, 0x0100_0000, 0x3f80_0000, 0xbf80_0000, 0x3f7f_ffff,
        0x3f80_0001, 0x4000_0000, 0x7f7f_ffff, 0xff7f_ffff, 0x7f80_0000, 0xff80_0000,
        0x7fc0_0000, 0xffc0_0001, 0x7f80_0001, 0x3300_0000, 0x3380_0000, 0x3400_0000,
        0x4b00_0000, 0x4b80_0000, 0x4b7f_ffff, 0x3eaa_aaab, 0x3f00_0000, 0x3e80_0000,
        0x437f_0000, 0x4380_0000, 0x437f_ffff, 0x477f_ff00, 0x4780_0000, 0x4f00_0000,
    ];
    let mut state: u64 = 0x9e37_79b9_7f4a_7c15;
    for _ in 0..400 {
        state ^= state << 13;
        state ^= state >> 7;
        state ^= state << 17;
        out.push((state >> 16) as u32);
        out.push(0x3f00_0000 | ((state >> 40) as u32 & 0x00ff_ffff));
    }
    out
}

fn same(got: u32, want: f32) -> bool {
    if want.is_nan() {
        f32::from_bits(got).is_nan()
    } else {
        got == want.to_bits()
    }
}

#[test]
fn div_agrees_with_the_processor() {
    let p = patterns();
    for &a in p.iter() {
        for &b in p.iter() {
            let want = f32::from_bits(a) / f32::from_bits(b);
            assert!(same(div(a, b), want), "{:#x} / {:#x}", a, b);
        }
    }
}

#[test]
fn fused_agrees_with_the_processor() {
    let all = patterns();
    let p: Vec<u32> = all.iter().copied().take(96).collect();
    for &a in p.iter() {
        for &b in p.iter() {
            for &c in p.iter() {
                let want = f32::from_bits(a).mul_add(f32::from_bits(b), f32::from_bits(c));
                assert!(same(fused(a, b, c), want), "{:#x} * {:#x} + {:#x}", a, b, c);
            }
        }
    }
}

#[test]
fn fused_agrees_with_the_processor_on_the_scales() {
    let factors: [f32; 5] = [255.0, 219.0, 876.0, 12.92 * 255.0, 1.0];
    let terms: [f32; 4] = [0.5, 16.5, 64.5, 4096.0];
    let mut xs: Vec<u32> = patterns();
    let mut b: u32 = 0;
    while b <= 0x3f80_0000 {
        xs.push(b);
        b += 104_729;
    }
    for &x in xs.iter() {
        for k in factors {
            for c in terms {
                let want = f32::from_bits(x).mul_add(k, c);
                assert!(same(fused(x, k.to_bits(), c.to_bits()), want), "{:#x}", x);
            }
        }
    }
}

#[test]
fn fused_rounds_once() {
    // (1 + 2^-12)^2 = 1 + 2^-11 + 2^-24: the last term survives only where
    // the product is not rounded before the sum.
    let x = (1.0f32 + 1.0 / 4096.0).to_bits();
    let c = (-(1.0f32 + 1.0 / 2048.0)).to_bits();
    assert_eq!((1.0f32 / 16_777_216.0).to_bits(), fused(x, x, c));
    assert_eq!(0, srgb::maths::mul_add(x, x, c));
}

#[test]
fn fused_lets_a_far_term_tip_the_rounding() {
    // 3 * 2^-24 lies half way between two numbers about 1; what is added
    // to it or taken from it decides, however small.
    let a = (1.0f32 + 3.0 / 16_777_216.0).to_bits();
    let x = 3.0f32.to_bits();
    let y = (1.0f32 / 16_777_216.0).to_bits();
    let tiny = f32::from_bits(1);
    for (c, want) in [(1.0f32, 1.0f32), (1.0, 1.0)] {
        assert_eq!((c + 0.0).to_bits(), want.to_bits());
    }
    for small in [tiny, -tiny, f32::MIN_POSITIVE, -f32::MIN_POSITIVE, 1e-30, -1e-30] {
        // x * y + 1 is exact at a tie only where it is taken apart
        let p = f32::from_bits(a);
        let want = p.mul_add(p, small);
        assert_eq!(want.to_bits(), fused(a, a, small.to_bits()), "{}", small);
        let want = f32::from_bits(x).mul_add(f32::from_bits(y), small);
        assert_eq!(want.to_bits(), fused(x, y, small.to_bits()), "{}", small);
        let want = small.mul_add(small, p);
        assert_eq!(want.to_bits(), fused(small.to_bits(), small.to_bits(), a), "{}", small);
        let want = small.mul_add(-small, p);
        assert_eq!(want.to_bits(), fused(small.to_bits(), (-small).to_bits(), a), "{}", small);
    }
    // a tie between 1 and the number after it, tipped from far below
    let half_way_product = (1.0f32 + 1.0 / 4096.0).to_bits();
    for small in [tiny, -tiny] {
        let h = f32::from_bits(half_way_product);
        let want = h.mul_add(h, small);
        assert_eq!(want.to_bits(), fused(half_way_product, half_way_product, small.to_bits()));
    }
}

#[test]
fn quantise_agrees_with_the_processor() {
    let mut b: u32 = 0;
    while b < 0x3f90_0000 {
        let v = f32::from_bits(b);
        let want = v.clamp(0.0, 1.0).mul_add(255.0, 0.5) as u8;
        assert_eq!(want as u32, quantise(b, 255.0f32.to_bits(), 0.5f32.to_bits(), 255));
        let want = v.clamp(0.0, 1.0).mul_add(1000.0, 0.5) as u16;
        assert_eq!(want as u32, quantise(b, 1000.0f32.to_bits(), 0.5f32.to_bits(), 65535));
        assert_eq!((want as u32).min(7), quantise(b, 1000.0f32.to_bits(), 0.5f32.to_bits(), 7));
        b += 9973;
    }
    assert_eq!(0, quantise(f32::NAN.to_bits(), 255.0f32.to_bits(), 0.5f32.to_bits(), 255));
    assert_eq!(0, quantise((-3.0f32).to_bits(), 255.0f32.to_bits(), 0.5f32.to_bits(), 255));
    assert_eq!(255, quantise(3.0f32.to_bits(), 255.0f32.to_bits(), 0.5f32.to_bits(), 255));
}

#[test]
fn order_agrees_with_the_processor() {
    let p = patterns();
    for &a in p.iter() {
        for &b in p.iter() {
            let (x, y) = (f32::from_bits(a), f32::from_bits(b));
            assert_eq!(x < y, lt(a, b), "{:#x} < {:#x}", a, b);
            assert_eq!(x > y, gt(a, b), "{:#x} > {:#x}", a, b);
            if x != y || a == b {
                assert!(same(min(a, b), x.min(y)), "min {:#x} {:#x}", a, b);
            }
        }
    }
}

#[test]
fn positive_part_agrees_with_the_processor() {
    for &v in patterns().iter() {
        let want = f32::from_bits(v).max(0.0);
        assert_eq!(want, f32::from_bits(positive(v)), "{:#x}", v);
        assert!(positive(v) < 0x8000_0000);
    }
    assert_eq!(0, positive(f32::NAN.to_bits()));
    assert_eq!(0, positive(0x8000_0000));
    assert_eq!(0x7f80_0000, positive(0x7f80_0000));
}

#[test]
fn truncation_agrees_with_the_processor() {
    for &v in patterns().iter() {
        let x = f32::from_bits(v);
        assert_eq!(x as u8, to_u8(v), "{:#x}", v);
        assert_eq!(x as u16, to_u16(v), "{:#x}", v);
    }
    assert_eq!(255, to_u8(255.99f32.to_bits()));
    assert_eq!(254, to_u8(254.99f32.to_bits()));
    assert_eq!(0, to_u8(0.99f32.to_bits()));
    assert_eq!(65535, to_u16(1e9f32.to_bits()));
    assert_eq!(0, to_u16(f32::NAN.to_bits()));
}

#[test]
fn integers_convert_as_on_the_processor() {
    let mut n: u32 = 0;
    loop {
        assert_eq!((n as f32).to_bits(), from_u32(n), "{}", n);
        if n > u32::MAX - 7_919_113 {
            break;
        }
        n += 7_919_113;
    }
    for n in [0, 1, 2, 3, 16, 219, 235, 255, 876, 940, 1023, 0xff_ffff, 0x100_0000, 0x100_0001,
        0x100_0003, u32::MAX, u32::MAX - 64, u32::MAX - 128, 0x7fff_ffc0]
    {
        assert_eq!((n as f32).to_bits(), from_u32(n), "{}", n);
    }
}
