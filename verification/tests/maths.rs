use srgb::arith;
use srgb::maths::{
    dot_product, dot_product_fallback, dot_product_sse, dot_product_sse4_1, has_sse, has_sse4_1,
    matrix_product, matrix_product_with, mul_add, select_kernel, Kernel,
};

fn bits(v: [f32; 3]) -> [u32; 3] {
    [v[0].to_bits(), v[1].to_bits(), v[2].to_bits()]
}

fn floats(v: [u32; 3]) -> [f32; 3] {
    [f32::from_bits(v[0]), f32::from_bits(v[1]), f32::from_bits(v[2])]
}

const A: [f32; 3] = [1.0, 2.0, 3.0];
const B: [f32; 3] = [2.0, 20.0, 200.0];
const WANT: f32 = 642.0;

/// A fixed sequence of patterns that visits every class of number.
fn patterns() -> Vec<u32> {
    let mut out: Vec<u32> = vec![
        0x0000_0000, 0x8000_0000, 0x0000_0001, 0x8000_0001, 0x007f_ffff, 0x0080_0000,
        0x0080_0001, 0x00ff_ffff, 0x0100_0000, 0x3f80_0000, 0xbf80_0000, 0x3f7f_ffff,
        0x3f80_0001, 0x4000_0000, 0x7f7f_ffff, 0xff7f_ffff, 0x7f80_0000, 0xff80_0000,
        0x7fc0_0000, 0xffc0_0001, 0x7f80_0001, 0x3300_0000, 0x3380_0000, 0x3400_0000,
        0x4b00_0000, 0x4b80_0000, 0x4b7f_ffff, 0x3eaa_aaab, 0x3f00_0000, 0x3e80_0000,
    ];
    let mut state: u64 = 0x2545_f491_4f6c_dd1d;
    for _ in 0..400 {
        state ^= state << 13;
        state ^= state >> 7;
        state ^= state << 17;
        out.push((state >> 16) as u32);
        // the same significand near one, where sums cancel and carry
        out.push(0x3f00_0000 | ((state >> 40) as u32 & 0x00ff_ffff));
    }
    out
}

fn same(got: u32, want: f32) -> bool {
    if want.is_nan() {
        f32::from_bits(got).is_nan()
    } else {
        got == want.to_bits()
    }
}

#[test]
fn test_matrix_product() {
    let matrix = [bits([1.0, 2.0, 3.0]), bits([4.0, 5.0, 6.0]), bits([7.0, 8.0, 9.0])];
    assert_eq!(
        [321.0, 654.0, 987.0],
        floats(matrix_product(&matrix, bits([1.0, 10.0, 100.0])))
    );
}

#[test]
fn test_dot_product() {
    assert_eq!(WANT, f32::from_bits(dot_product_fallback(&bits(A), &bits(B))));
}

#[test]
fn maths_testdot_product_sse() {
    assert_eq!(WANT, f32::from_bits(dot_product_sse(&bits(A), &bits(B))));
    assert_eq!(WANT, f32::from_bits(dot_product_sse4_1(&bits(A), &bits(B))));
}

#[test]
fn mul_agrees_with_the_processor() {
    let p = patterns();
    for &a in p.iter() {
        for &b in p.iter() {
            let want = f32::from_bits(a) * f32::from_bits(b);
            assert!(same(arith::mul(a, b), want), "{:#x} * {:#x}", a, b);
        }
    }
}

#[test]
fn add_agrees_with_the_processor() {
    let p = patterns();
    for &a in p.iter() {
        for &b in p.iter() {
            let want = f32::from_bits(a) + f32::from_bits(b);
            assert!(same(arith::add(a, b), want), "{:#x} + {:#x}", a, b);
        }
    }
}

#[test]
fn sub_agrees_with_the_processor() {
    let p = patterns();
    for &a in p.iter() {
        for &b in p.iter() {
            let want = f32::from_bits(a) - f32::from_bits(b);
            assert!(same(arith::sub(a, b), want), "{:#x} - {:#x}", a, b);
        }
    }
}

#[test]
fn mul_add_rounds_twice() {
    // 1 + 2^-12 squared is 1 + 2^-11 + 2^-24: the product rounds to
    // 1 + 2^-11, and the last term is lost before the sum.
    let x = (1.0f32 + 1.0 / 4096.0).to_bits();
    let c = (-(1.0f32 + 1.0 / 2048.0)).to_bits();
    assert_eq!(0.0, f32::from_bits(mul_add(x, x, c)));
    let y = f32::from_bits(x);
    assert_eq!((y * y + f32::from_bits(c)).to_bits(), mul_add(x, x, c));
}

#[test]
fn kernels_differ_in_the_sign_of_zero_only() {
    let a = bits([0.0, 0.0, -0.0]);
    let b = bits([-1.0, -1.0, 1.0]);
    assert_eq!(0x8000_0000, dot_product(Kernel::Scalar, &a, &b));
    assert_eq!(0x0000_0000, dot_product(Kernel::Sse, &a, &b));
    assert_eq!(0x0000_0000, dot_product(Kernel::Sse41, &a, &b));
    let p = patterns();
    for w in p.chunks(6) {
        if w.len() == 6 {
            let a = [w[0], w[1], w[2]];
            let b = [w[3], w[4], w[5]];
            let s = f32::from_bits(dot_product(Kernel::Scalar, &a, &b));
            let v = f32::from_bits(dot_product(Kernel::Sse, &a, &b));
            assert!((s.is_nan() && v.is_nan()) || s == v);
        }
    }
}

#[test]
fn kernel_follows_the_capabilities() {
    assert!(has_sse(true, false));
    assert!(has_sse(false, true));
    assert!(!has_sse(false, false));
    assert!(has_sse4_1(true, false));
    assert!(has_sse4_1(false, true));
    assert!(!has_sse4_1(false, false));
    assert_eq!(Kernel::Scalar, select_kernel(false, false));
    assert_eq!(Kernel::Scalar, select_kernel(false, true));
    assert_eq!(Kernel::Sse, select_kernel(true, false));
    assert_eq!(Kernel::Sse41, select_kernel(true, true));
}

#[test]
fn matrix_product_with_each_kernel() {
    let matrix = [bits([1.0, 2.0, 3.0]), bits([4.0, 5.0, 6.0]), bits([7.0, 8.0, 9.0])];
    for k in [Kernel::Scalar, Kernel::Sse, Kernel::Sse41] {
        assert_eq!(
            [321.0, 654.0, 987.0],
            floats(matrix_product_with(k, &matrix, bits([1.0, 10.0, 100.0])))
        );
    }
}
