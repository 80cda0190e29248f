//! Rec.709 compression undoes expansion on the linear piece: a code up to
//! the last code of that piece expands to a value whose code it is.  A
//! range of codes is one calculation, on significands that are known but
//! for the code.

use vstd::prelude::*;
use vstd::arithmetic::power2::{lemma2_to64, lemma2_to64_rest};
use crate::arith::{div_spec, mul_spec};
use crate::binary32::{number, whole_part};
use crate::gamma::{
    compress_rec709_spec, expand_rec709_spec, Step, HALF, REC709_BREAK, REC709_GAIN_10BIT,
    REC709_GAIN_8BIT, REC709_OFFSET_10BIT, REC709_OFFSET_8BIT, REC709_SLOPE_10BIT,
    REC709_SLOPE_8BIT,
};
use crate::known::{
    lemma_high_powers, lemma_number_known, lemma_product_known, lemma_quotient_known,
    lemma_sum_known, lemma_whole_known,
};
use crate::maths::mul_add_spec;
use crate::rounding::nearest_even;

verus! {

/// Whether `x` is a positive value of the linear piece whose code lies `n`
/// above the first code of a coding with the given slope.
#[verifier::opaque]
pub open spec fn has_code(x: u32, slope: u32, n: nat) -> bool {
    &&& 0 < x <= REC709_BREAK
    &&& whole_part(mul_add_spec(x, slope, HALF)) == n
}

/// Proof that the first code of a coding expands to zero, whose code it
/// is.
proof fn lemma_first_code(slope: u32)
    requires
        0x0d80_0000 <= slope < 0x7f80_0000,
    ensures
        whole_part(mul_add_spec(0, slope, HALF)) == 0,
{
    lemma2_to64();
    assert(0 * crate::binary32::significand(slope as nat) == 0) by (nonlinear_arith);
    crate::order::lemma_round_zero(0 + crate::binary32::binade(slope as nat) - 149);
    assert(mul_spec(0, slope) == 0);
    crate::arith::lemma_add_absorbs(HALF, 0);
    lemma_whole_known(0x3f00_0000, 0x80_0000, 125, 0x100_0000);
}

/// The codes whose count from the first is 1 to 1.
#[verifier::rlimit(80)]
proof fn lemma_8bit_1_to_1(n: nat)
    requires
        1 <= n <= 1,
    ensures
        has_code(div_spec(number(n), REC709_SLOPE_8BIT), REC709_SLOPE_8BIT, n),
{
    reveal(has_code);
    lemma2_to64();
    lemma2_to64_rest();
    lemma_high_powers();
    let slope: nat = 0xf6_6000;
    lemma_number_known(n, 1, 0x1, 0x80_0000);
    let big_n = number(n);
    let sn = n * 0x80_0000;
    assert(big_n == 126 * 0x80_0000 + sn);
    let q = (sn * 0x1_0000_0000_0000_0000) / slope;
    let rest = (sn * 0x1_0000_0000_0000_0000) % slope;
    let nq: nat = if rest != 0 {
        2 * q + 1
    } else {
        2 * q
    };
    assert(0x8000_0000_0000_0000 <= q < 0x1_0000_0000_0000_0000);
    lemma_quotient_known(big_n, REC709_SLOPE_8BIT, sn, 126, slope, 135, q, rest, 65, 0x1_0000_0000_0000_0000, 0x200_0000_0000);
    let x = div_spec(big_n, REC709_SLOPE_8BIT);
    let sx = nearest_even(nq, 0x200_0000_0000);
    assert(x == 116 * 0x80_0000 + sx);
    assert(0x80_0000 <= sx < 0x100_0000);
    let prod = sx * slope;
    lemma_product_known(x, REC709_SLOPE_8BIT, sx, 116, slope, 135, prod, 47, 0x4000_0000_0000, 0x80_0000);
    let m1 = mul_spec(x, REC709_SLOPE_8BIT);
    let s1: nat = 0x80_0000;
    assert(nearest_even(prod, 0x80_0000) == 0x100_0000);
    assert(m1 == 126 * 0x80_0000 + s1);
    assert(0x80_0000 <= s1 < 0x100_0000);
    let x2 = s1 * 0x2 + 0x80_0000;
    assert(s1 * 0x2 + 0x80_0000 * 1 == x2);
    lemma_sum_known(m1, HALF, false, s1, 126, 0x80_0000, 125, 0x2, 1, x2, 25, 0x100_0000, 0x2);
    let s2 = nearest_even(x2, 0x2);
    let m2 = mul_add_spec(x, REC709_SLOPE_8BIT, HALF);
    assert(m2 == 126 * 0x80_0000 + s2);
    lemma_whole_known(m2, s2, 126, 0x80_0000);
    assert(s2 / 0x80_0000 == n);
}

/// The codes whose count from the first is 2 to 2.
#[verifier::rlimit(80)]
proof fn lemma_8bit_2_to_2(n: nat)
    requires
        2 <= n <= 2,
    ensures
        has_code(div_spec(number(n), REC709_SLOPE_8BIT), REC709_SLOPE_8BIT, n),
{
    reveal(has_code);
    lemma2_to64();
    lemma2_to64_rest();
    lemma_high_powers();
    let slope: nat = 0xf6_6000;
    lemma_number_known(n, 2, 0x2, 0x40_0000);
    let big_n = number(n);
    let sn = n * 0x40_0000;
    assert(big_n == 127 * 0x80_0000 + sn);
    let q = (sn * 0x1_0000_0000_0000_0000) / slope;
    let rest = (sn * 0x1_0000_0000_0000_0000) % slope;
    let nq: nat = if rest != 0 {
        2 * q + 1
    } else {
        2 * q
    };
    assert(0x8000_0000_0000_0000 <= q < 0x1_0000_0000_0000_0000);
    lemma_quotient_known(big_n, REC709_SLOPE_8BIT, sn, 127, slope, 135, q, rest, 65, 0x1_0000_0000_0000_0000, 0x200_0000_0000);
    let x = div_spec(big_n, REC709_SLOPE_8BIT);
    let sx = nearest_even(nq, 0x200_0000_0000);
    assert(x == 117 * 0x80_0000 + sx);
    assert(0x80_0000 <= sx < 0x100_0000);
    let prod = sx * slope;
    lemma_product_known(x, REC709_SLOPE_8BIT, sx, 117, slope, 135, prod, 47, 0x4000_0000_0000, 0x80_0000);
    let m1 = mul_spec(x, REC709_SLOPE_8BIT);
    let s1: nat = 0x80_0000;
    assert(nearest_even(prod, 0x80_0000) == 0x100_0000);
    assert(m1 == 127 * 0x80_0000 + s1);
    assert(0x80_0000 <= s1 < 0x100_0000);
    let x2 = s1 * 0x4 + 0x80_0000;
    assert(s1 * 0x4 + 0x80_0000 * 1 == x2);
    lemma_sum_known(m1, HALF, false, s1, 127, 0x80_0000, 125, 0x4, 1, x2, 26, 0x200_0000, 0x4);
    let s2 = nearest_even(x2, 0x4);
    let m2 = mul_add_spec(x, REC709_SLOPE_8BIT, HALF);
    assert(m2 == 127 * 0x80_0000 + s2);
    lemma_whole_known(m2, s2, 127, 0x40_0000);
    assert(s2 / 0x40_0000 == n);
}

/// The codes whose count from the first is 3 to 3.
#[verifier::rlimit(80)]
proof fn lemma_8bit_3_to_3(n: nat)
    requires
        3 <= n <= 3,
    ensures
        has_code(div_spec(number(n), REC709_SLOPE_8BIT), REC709_SLOPE_8BIT, n),
{
    reveal(has_code);
    lemma2_to64();
    lemma2_to64_rest();
    lemma_high_powers();
    let slope: nat = 0xf6_6000;
    lemma_number_known(n, 2, 0x2, 0x40_0000);
    let big_n = number(n);
    let sn = n * 0x40_0000;
    assert(big_n == 127 * 0x80_0000 + sn);
    let q = (sn * 0x1_0000_0000_0000_0000) / slope;
    let rest = (sn * 0x1_0000_0000_0000_0000) % slope;
    let nq: nat = if rest != 0 {
        2 * q + 1
    } else {
        2 * q
    };
    assert(0x8000_0000_0000_0000 <= q < 0x1_0000_0000_0000_0000);
    lemma_quotient_known(big_n, REC709_SLOPE_8BIT, sn, 127, slope, 135, q, rest, 65, 0x1_0000_0000_0000_0000, 0x200_0000_0000);
    let x = div_spec(big_n, REC709_SLOPE_8BIT);
    let sx = nearest_even(nq, 0x200_0000_0000);
    assert(x == 117 * 0x80_0000 + sx);
    assert(0x80_0000 <= sx < 0x100_0000);
    let prod = sx * slope;
    lemma_product_known(x, REC709_SLOPE_8BIT, sx, 117, slope, 135, prod, 48, 0x8000_0000_0000, 0x100_0000);
    let m1 = mul_spec(x, REC709_SLOPE_8BIT);
    let s1 = nearest_even(prod, 0x100_0000);
    assert(m1 == 127 * 0x80_0000 + s1);
    assert(0x80_0000 <= s1 < 0x100_0000);
    let x2 = s1 * 0x4 + 0x80_0000;
    assert(s1 * 0x4 + 0x80_0000 * 1 == x2);
    lemma_sum_known(m1, HALF, false, s1, 127, 0x80_0000, 125, 0x4, 1, x2, 26, 0x200_0000, 0x4);
    let s2 = nearest_even(x2, 0x4);
    let m2 = mul_add_spec(x, REC709_SLOPE_8BIT, HALF);
    assert(m2 == 127 * 0x80_0000 + s2);
    lemma_whole_known(m2, s2, 127, 0x40_0000);
    assert(s2 / 0x40_0000 == n);
}

/// The codes whose count from the first is 4 to 4.
#[verifier::rlimit(80)]
proof fn lemma_8bit_4_to_4(n: nat)
    requires
        4 <= n <= 4,
    ensures
        has_code(div_spec(number(n), REC709_SLOPE_8BIT), REC709_SLOPE_8BIT, n),
{
    reveal(has_code);
    lemma2_to64();
    lemma2_to64_rest();
    lemma_high_powers();
    let slope: nat = 0xf6_6000;
    lemma_number_known(n, 3, 0x4, 0x20_0000);
    let big_n = number(n);
    let sn = n * 0x20_0000;
    assert(big_n == 128 * 0x80_0000 + sn);
    let q = (sn * 0x1_0000_0000_0000_0000) / slope;
    let rest = (sn * 0x1_0000_0000_0000_0000) % slope;
    let nq: nat = if rest != 0 {
        2 * q + 1
    } else {
        2 * q
    };
    assert(0x8000_0000_0000_0000 <= q < 0x1_0000_0000_0000_0000);
    lemma_quotient_known(big_n, REC709_SLOPE_8BIT, sn, 128, slope, 135, q, rest, 65, 0x1_0000_0000_0000_0000, 0x200_0000_0000);
    let x = div_spec(big_n, REC709_SLOPE_8BIT);
    let sx = nearest_even(nq, 0x200_0000_0000);
    assert(x == 118 * 0x80_0000 + sx);
    assert(0x80_0000 <= sx < 0x100_0000);
    let prod = sx * slope;
    lemma_product_known(x, REC709_SLOPE_8BIT, sx, 118, slope, 135, prod, 47, 0x4000_0000_0000, 0x80_0000);
    let m1 = mul_spec(x, REC709_SLOPE_8BIT);
    let s1: nat = 0x80_0000;
    assert(nearest_even(prod, 0x80_0000) == 0x100_0000);
    assert(m1 == 128 * 0x80_0000 + s1);
    assert(0x80_0000 <= s1 < 0x100_0000);
    let x2 = s1 * 0x8 + 0x80_0000;
    assert(s1 * 0x8 + 0x80_0000 * 1 == x2);
    lemma_sum_known(m1, HALF, false, s1, 128, 0x80_0000, 125, 0x8, 1, x2, 27, 0x400_0000, 0x8);
    let s2 = nearest_even(x2, 0x8);
    let m2 = mul_add_spec(x, REC709_SLOPE_8BIT, HALF);
    assert(m2 == 128 * 0x80_0000 + s2);
    lemma_whole_known(m2, s2, 128, 0x20_0000);
    assert(s2 / 0x20_0000 == n);
}

/// The codes whose count from the first is 5 to 7.
#[verifier::rlimit(80)]
proof fn lemma_8bit_5_to_7(n: nat)
    requires
        5 <= n <= 7,
    ensures
        has_code(div_spec(number(n), REC709_SLOPE_8BIT), REC709_SLOPE_8BIT, n),
{
    reveal(has_code);
    lemma2_to64();
    lemma2_to64_rest();
    lemma_high_powers();
    let slope: nat = 0xf6_6000;
    lemma_number_known(n, 3, 0x4, 0x20_0000);
    let big_n = number(n);
    let sn = n * 0x20_0000;
    assert(big_n == 128 * 0x80_0000 + sn);
    let q = (sn * 0x1_0000_0000_0000_0000) / slope;
    let rest = (sn * 0x1_0000_0000_0000_0000) % slope;
    let nq: nat = if rest != 0 {
        2 * q + 1
    } else {
        2 * q
    };
    assert(0x8000_0000_0000_0000 <= q < 0x1_0000_0000_0000_0000);
    lemma_quotient_known(big_n, REC709_SLOPE_8BIT, sn, 128, slope, 135, q, rest, 65, 0x1_0000_0000_0000_0000, 0x200_0000_0000);
    let x = div_spec(big_n, REC709_SLOPE_8BIT);
    let sx = nearest_even(nq, 0x200_0000_0000);
    assert(x == 118 * 0x80_0000 + sx);
    assert(0x80_0000 <= sx < 0x100_0000);
    let prod = sx * slope;
    lemma_product_known(x, REC709_SLOPE_8BIT, sx, 118, slope, 135, prod, 48, 0x8000_0000_0000, 0x100_0000);
    let m1 = mul_spec(x, REC709_SLOPE_8BIT);
    let s1 = nearest_even(prod, 0x100_0000);
    assert(m1 == 128 * 0x80_0000 + s1);
    assert(0x80_0000 <= s1 < 0x100_0000);
    let x2 = s1 * 0x8 + 0x80_0000;
    assert(s1 * 0x8 + 0x80_0000 * 1 == x2);
    lemma_sum_known(m1, HALF, false, s1, 128, 0x80_0000, 125, 0x8, 1, x2, 27, 0x400_0000, 0x8);
    let s2 = nearest_even(x2, 0x8);
    let m2 = mul_add_spec(x, REC709_SLOPE_8BIT, HALF);
    assert(m2 == 128 * 0x80_0000 + s2);
    lemma_whole_known(m2, s2, 128, 0x20_0000);
    assert(s2 / 0x20_0000 == n);
}

/// The codes whose count from the first is 8 to 8.
#[verifier::rlimit(80)]
proof fn lemma_8bit_8_to_8(n: nat)
    requires
        8 <= n <= 8,
    ensures
        has_code(div_spec(number(n), REC709_SLOPE_8BIT), REC709_SLOPE_8BIT, n),
{
    reveal(has_code);
    lemma2_to64();
    lemma2_to64_rest();
    lemma_high_powers();
    let slope: nat = 0xf6_6000;
    lemma_number_known(n, 4, 0x8, 0x10_0000);
    let big_n = number(n);
    let sn = n * 0x10_0000;
    assert(big_n == 129 * 0x80_0000 + sn);
    let q = (sn * 0x1_0000_0000_0000_0000) / slope;
    let rest = (sn * 0x1_0000_0000_0000_0000) % slope;
    let nq: nat = if rest != 0 {
        2 * q + 1
    } else {
        2 * q
    };
    assert(0x8000_0000_0000_0000 <= q < 0x1_0000_0000_0000_0000);
    lemma_quotient_known(big_n, REC709_SLOPE_8BIT, sn, 129, slope, 135, q, rest, 65, 0x1_0000_0000_0000_0000, 0x200_0000_0000);
    let x = div_spec(big_n, REC709_SLOPE_8BIT);
    let sx = nearest_even(nq, 0x200_0000_0000);
    assert(x == 119 * 0x80_0000 + sx);
    assert(0x80_0000 <= sx < 0x100_0000);
    let prod = sx * slope;
    lemma_product_known(x, REC709_SLOPE_8BIT, sx, 119, slope, 135, prod, 47, 0x4000_0000_0000, 0x80_0000);
    let m1 = mul_spec(x, REC709_SLOPE_8BIT);
    let s1: nat = 0x80_0000;
    assert(nearest_even(prod, 0x80_0000) == 0x100_0000);
    assert(m1 == 129 * 0x80_0000 + s1);
    assert(0x80_0000 <= s1 < 0x100_0000);
    let x2 = s1 * 0x10 + 0x80_0000;
    assert(s1 * 0x10 + 0x80_0000 * 1 == x2);
    lemma_sum_known(m1, HALF, false, s1, 129, 0x80_0000, 125, 0x10, 1, x2, 28, 0x800_0000, 0x10);
    let s2 = nearest_even(x2, 0x10);
    let m2 = mul_add_spec(x, REC709_SLOPE_8BIT, HALF);
    assert(m2 == 129 * 0x80_0000 + s2);
    lemma_whole_known(m2, s2, 129, 0x10_0000);
    assert(s2 / 0x10_0000 == n);
}

/// The codes whose count from the first is 9 to 15.
#[verifier::rlimit(80)]
proof fn lemma_8bit_9_to_15(n: nat)
    requires
        9 <= n <= 15,
    ensures
        has_code(div_spec(number(n), REC709_SLOPE_8BIT), REC709_SLOPE_8BIT, n),
{
    reveal(has_code);
    lemma2_to64();
    lemma2_to64_rest();
    lemma_high_powers();
    let slope: nat = 0xf6_6000;
    lemma_number_known(n, 4, 0x8, 0x10_0000);
    let big_n = number(n);
    let sn = n * 0x10_0000;
    assert(big_n == 129 * 0x80_0000 + sn);
    let q = (sn * 0x1_0000_0000_0000_0000) / slope;
    let rest = (sn * 0x1_0000_0000_0000_0000) % slope;
    let nq: nat = if rest != 0 {
        2 * q + 1
    } else {
        2 * q
    };
    assert(0x8000_0000_0000_0000 <= q < 0x1_0000_0000_0000_0000);
    lemma_quotient_known(big_n, REC709_SLOPE_8BIT, sn, 129, slope, 135, q, rest, 65, 0x1_0000_0000_0000_0000, 0x200_0000_0000);
    let x = div_spec(big_n, REC709_SLOPE_8BIT);
    let sx = nearest_even(nq, 0x200_0000_0000);
    assert(x == 119 * 0x80_0000 + sx);
    assert(0x80_0000 <= sx < 0x100_0000);
    let prod = sx * slope;
    lemma_product_known(x, REC709_SLOPE_8BIT, sx, 119, slope, 135, prod, 48, 0x8000_0000_0000, 0x100_0000);
    let m1 = mul_spec(x, REC709_SLOPE_8BIT);
    let s1 = nearest_even(prod, 0x100_0000);
    assert(m1 == 129 * 0x80_0000 + s1);
    assert(0x80_0000 <= s1 < 0x100_0000);
    let x2 = s1 * 0x10 + 0x80_0000;
    assert(s1 * 0x10 + 0x80_0000 * 1 == x2);
    lemma_sum_known(m1, HALF, false, s1, 129, 0x80_0000, 125, 0x10, 1, x2, 28, 0x800_0000, 0x10);
    let s2 = nearest_even(x2, 0x10);
    let m2 = mul_add_spec(x, REC709_SLOPE_8BIT, HALF);
    assert(m2 == 129 * 0x80_0000 + s2);
    lemma_whole_known(m2, s2, 129, 0x10_0000);
    assert(s2 / 0x10_0000 == n);
}

/// The codes whose count from the first is 16 to 16.
#[verifier::rlimit(80)]
proof fn lemma_8bit_16_to_16(n: nat)
    requires
        16 <= n <= 16,
    ensures
        has_code(div_spec(number(n), REC709_SLOPE_8BIT), REC709_SLOPE_8BIT, n),
{
    reveal(has_code);
    lemma2_to64();
    lemma2_to64_rest();
    lemma_high_powers();
    let slope: nat = 0xf6_6000;
    lemma_number_known(n, 5, 0x10, 0x8_0000);
    let big_n = number(n);
    let sn = n * 0x8_0000;
    assert(big_n == 130 * 0x80_0000 + sn);
    let q = (sn * 0x1_0000_0000_0000_0000) / slope;
    let rest = (sn * 0x1_0000_0000_0000_0000) % slope;
    let nq: nat = if rest != 0 {
        2 * q + 1
    } else {
        2 * q
    };
    assert(0x8000_0000_0000_0000 <= q < 0x1_0000_0000_0000_0000);
    lemma_quotient_known(big_n, REC709_SLOPE_8BIT, sn, 130, slope, 135, q, rest, 65, 0x1_0000_0000_0000_0000, 0x200_0000_0000);
    let x = div_spec(big_n, REC709_SLOPE_8BIT);
    let sx = nearest_even(nq, 0x200_0000_0000);
    assert(x == 120 * 0x80_0000 + sx);
    assert(0x80_0000 <= sx < 0x100_0000);
    let prod = sx * slope;
    lemma_product_known(x, REC709_SLOPE_8BIT, sx, 120, slope, 135, prod, 47, 0x4000_0000_0000, 0x80_0000);
    let m1 = mul_spec(x, REC709_SLOPE_8BIT);
    let s1: nat = 0x80_0000;
    assert(nearest_even(prod, 0x80_0000) == 0x100_0000);
    assert(m1 == 130 * 0x80_0000 + s1);
    assert(0x80_0000 <= s1 < 0x100_0000);
    let x2 = s1 * 0x20 + 0x80_0000;
    assert(s1 * 0x20 + 0x80_0000 * 1 == x2);
    lemma_sum_known(m1, HALF, false, s1, 130, 0x80_0000, 125, 0x20, 1, x2, 29, 0x1000_0000, 0x20);
    let s2 = nearest_even(x2, 0x20);
    let m2 = mul_add_spec(x, REC709_SLOPE_8BIT, HALF);
    assert(m2 == 130 * 0x80_0000 + s2);
    lemma_whole_known(m2, s2, 130, 0x8_0000);
    assert(s2 / 0x8_0000 == n);
}

/// The codes whose count from the first is 17 to 17.
#[verifier::rlimit(80)]
proof fn lemma_8bit_17_to_17(n: nat)
    requires
        17 <= n <= 17,
    ensures
        has_code(div_spec(number(n), REC709_SLOPE_8BIT), REC709_SLOPE_8BIT, n),
{
    reveal(has_code);
    lemma2_to64();
    lemma2_to64_rest();
    lemma_high_powers();
    let slope: nat = 0xf6_6000;
    lemma_number_known(n, 5, 0x10, 0x8_0000);
    let big_n = number(n);
    let sn = n * 0x8_0000;
    assert(big_n == 130 * 0x80_0000 + sn);
    let q = (sn * 0x1_0000_0000_0000_0000) / slope;
    let rest = (sn * 0x1_0000_0000_0000_0000) % slope;
    let nq: nat = if rest != 0 {
        2 * q + 1
    } else {
        2 * q
    };
    assert(0x8000_0000_0000_0000 <= q < 0x1_0000_0000_0000_0000);
    lemma_quotient_known(big_n, REC709_SLOPE_8BIT, sn, 130, slope, 135, q, rest, 65, 0x1_0000_0000_0000_0000, 0x200_0000_0000);
    let x = div_spec(big_n, REC709_SLOPE_8BIT);
    let sx = nearest_even(nq, 0x200_0000_0000);
    assert(x == 120 * 0x80_0000 + sx);
    assert(0x80_0000 <= sx < 0x100_0000);
    let prod = sx * slope;
    lemma_product_known(x, REC709_SLOPE_8BIT, sx, 120, slope, 135, prod, 48, 0x8000_0000_0000, 0x100_0000);
    let m1 = mul_spec(x, REC709_SLOPE_8BIT);
    let s1 = nearest_even(prod, 0x100_0000);
    assert(m1 == 130 * 0x80_0000 + s1);
    assert(0x80_0000 <= s1 < 0x100_0000);
    let x2 = s1 * 0x20 + 0x80_0000;
    assert(s1 * 0x20 + 0x80_0000 * 1 == x2);
    lemma_sum_known(m1, HALF, false, s1, 130, 0x80_0000, 125, 0x20, 1, x2, 29, 0x1000_0000, 0x20);
    let s2 = nearest_even(x2, 0x20);
    let m2 = mul_add_spec(x, REC709_SLOPE_8BIT, HALF);
    assert(m2 == 130 * 0x80_0000 + s2);
    lemma_whole_known(m2, s2, 130, 0x8_0000);
    assert(s2 / 0x8_0000 == n);
}

/// In the 8-bit coding, a code of the linear piece expands to a value that
/// is compressed to that code.
pub proof fn lemma_rec709_8bit_linear_codes_round_trip(v: int)
    requires
        16 <= v <= 33,
    ensures
        expand_rec709_spec(v, 16, 33, 235, REC709_SLOPE_8BIT, REC709_OFFSET_8BIT, REC709_GAIN_8BIT) matches Step::Done(x)
            && compress_rec709_spec(x, 16, 219, REC709_SLOPE_8BIT, Step::Done(v as nat)),
{
    reveal(has_code);
    if v == 16 {
        lemma_first_code(REC709_SLOPE_8BIT);
        crate::binary32::lemma_less_by_rank(REC709_BREAK, 0);
        crate::binary32::lemma_less_by_rank(0, 0);
    } else {
        let n = (v - 16) as nat;
        if n <= 1 {
            lemma_8bit_1_to_1(n);
        } else if n <= 2 {
            lemma_8bit_2_to_2(n);
        } else if n <= 3 {
            lemma_8bit_3_to_3(n);
        } else if n <= 4 {
            lemma_8bit_4_to_4(n);
        } else if n <= 7 {
            lemma_8bit_5_to_7(n);
        } else if n <= 8 {
            lemma_8bit_8_to_8(n);
        } else if n <= 15 {
            lemma_8bit_9_to_15(n);
        } else if n <= 16 {
            lemma_8bit_16_to_16(n);
        } else if n <= 17 {
            lemma_8bit_17_to_17(n);
        }
        let x = div_spec(number(n), REC709_SLOPE_8BIT);
        crate::binary32::lemma_less_by_rank(REC709_BREAK, x);
        crate::binary32::lemma_less_by_rank(0, x);
    }
}

/// The codes whose count from the first is 1 to 1.
#[verifier::rlimit(80)]
proof fn lemma_10bit_1_to_1(n: nat)
    requires
        1 <= n <= 1,
    ensures
        has_code(div_spec(number(n), REC709_SLOPE_10BIT), REC709_SLOPE_10BIT, n),
{
    reveal(has_code);
    lemma2_to64();
    lemma2_to64_rest();
    lemma_high_powers();
    let slope: nat = 0xf6_6000;
    lemma_number_known(n, 1, 0x1, 0x80_0000);
    let big_n = number(n);
    let sn = n * 0x80_0000;
    assert(big_n == 126 * 0x80_0000 + sn);
    let q = (sn * 0x1_0000_0000_0000_0000) / slope;
    let rest = (sn * 0x1_0000_0000_0000_0000) % slope;
    let nq: nat = if rest != 0 {
        2 * q + 1
    } else {
        2 * q
    };
    assert(0x8000_0000_0000_0000 <= q < 0x1_0000_0000_0000_0000);
    lemma_quotient_known(big_n, REC709_SLOPE_10BIT, sn, 126, slope, 137, q, rest, 65, 0x1_0000_0000_0000_0000, 0x200_0000_0000);
    let x = div_spec(big_n, REC709_SLOPE_10BIT);
    let sx = nearest_even(nq, 0x200_0000_0000);
    assert(x == 114 * 0x80_0000 + sx);
    assert(0x80_0000 <= sx < 0x100_0000);
    let prod = sx * slope;
    lemma_product_known(x, REC709_SLOPE_10BIT, sx, 114, slope, 137, prod, 47, 0x4000_0000_0000, 0x80_0000);
    let m1 = mul_spec(x, REC709_SLOPE_10BIT);
    let s1: nat = 0x80_0000;
    assert(nearest_even(prod, 0x80_0000) == 0x100_0000);
    assert(m1 == 126 * 0x80_0000 + s1);
    assert(0x80_0000 <= s1 < 0x100_0000);
    let x2 = s1 * 0x2 + 0x80_0000;
    assert(s1 * 0x2 + 0x80_0000 * 1 == x2);
    lemma_sum_known(m1, HALF, false, s1, 126, 0x80_0000, 125, 0x2, 1, x2, 25, 0x100_0000, 0x2);
    let s2 = nearest_even(x2, 0x2);
    let m2 = mul_add_spec(x, REC709_SLOPE_10BIT, HALF);
    assert(m2 == 126 * 0x80_0000 + s2);
    lemma_whole_known(m2, s2, 126, 0x80_0000);
    assert(s2 / 0x80_0000 == n);
}

/// The codes whose count from the first is 2 to 2.
#[verifier::rlimit(80)]
proof fn lemma_10bit_2_to_2(n: nat)
    requires
        2 <= n <= 2,
    ensures
        has_code(div_spec(number(n), REC709_SLOPE_10BIT), REC709_SLOPE_10BIT, n),
{
    reveal(has_code);
    lemma2_to64();
    lemma2_to64_rest();
    lemma_high_powers();
    let slope: nat = 0xf6_6000;
    lemma_number_known(n, 2, 0x2, 0x40_0000);
    let big_n = number(n);
    let sn = n * 0x40_0000;
    assert(big_n == 127 * 0x80_0000 + sn);
    let q = (sn * 0x1_0000_0000_0000_0000) / slope;
    let rest = (sn * 0x1_0000_0000_0000_0000) % slope;
    let nq: nat = if rest != 0 {
        2 * q + 1
    } else {
        2 * q
    };
    assert(0x8000_0000_0000_0000 <= q < 0x1_0000_0000_0000_0000);
    lemma_quotient_known(big_n, REC709_SLOPE_10BIT, sn, 127, slope, 137, q, rest, 65, 0x1_0000_0000_0000_0000, 0x200_0000_0000);
    let x = div_spec(big_n, REC709_SLOPE_10BIT);
    let sx = nearest_even(nq, 0x200_0000_0000);
    assert(x == 115 * 0x80_0000 + sx);
    assert(0x80_0000 <= sx < 0x100_0000);
    let prod = sx * slope;
    lemma_product_known(x, REC709_SLOPE_10BIT, sx, 115, slope, 137, prod, 47, 0x4000_0000_0000, 0x80_0000);
    let m1 = mul_spec(x, REC709_SLOPE_10BIT);
    let s1: nat = 0x80_0000;
    assert(nearest_even(prod, 0x80_0000) == 0x100_0000);
    assert(m1 == 127 * 0x80_0000 + s1);
    assert(0x80_0000 <= s1 < 0x100_0000);
    let x2 = s1 * 0x4 + 0x80_0000;
    assert(s1 * 0x4 + 0x80_0000 * 1 == x2);
    lemma_sum_known(m1, HALF, false, s1, 127, 0x80_0000, 125, 0x4, 1, x2, 26, 0x200_0000, 0x4);
    let s2 = nearest_even(x2, 0x4);
    let m2 = mul_add_spec(x, REC709_SLOPE_10BIT, HALF);
    assert(m2 == 127 * 0x80_0000 + s2);
    lemma_whole_known(m2, s2, 127, 0x40_0000);
    assert(s2 / 0x40_0000 == n);
}

/// The codes whose count from the first is 3 to 3.
#[verifier::rlimit(80)]
proof fn lemma_10bit_3_to_3(n: nat)
    requires
        3 <= n <= 3,
    ensures
        has_code(div_spec(number(n), REC709_SLOPE_10BIT), REC709_SLOPE_10BIT, n),
{
    reveal(has_code);
    lemma2_to64();
    lemma2_to64_rest();
    lemma_high_powers();
    let slope: nat = 0xf6_6000;
    lemma_number_known(n, 2, 0x2, 0x40_0000);
    let big_n = number(n);
    let sn = n * 0x40_0000;
    assert(big_n == 127 * 0x80_0000 + sn);
    let q = (sn * 0x1_0000_0000_0000_0000) / slope;
    let rest = (sn * 0x1_0000_0000_0000_0000) % slope;
    let nq: nat = if rest != 0 {
        2 * q + 1
    } else {
        2 * q
    };
    assert(0x8000_0000_0000_0000 <= q < 0x1_0000_0000_0000_0000);
    lemma_quotient_known(big_n, REC709_SLOPE_10BIT, sn, 127, slope, 137, q, rest, 65, 0x1_0000_0000_0000_0000, 0x200_0000_0000);
    let x = div_spec(big_n, REC709_SLOPE_10BIT);
    let sx = nearest_even(nq, 0x200_0000_0000);
    assert(x == 115 * 0x80_0000 + sx);
    assert(0x80_0000 <= sx < 0x100_0000);
    let prod = sx * slope;
    lemma_product_known(x, REC709_SLOPE_10BIT, sx, 115, slope, 137, prod, 48, 0x8000_0000_0000, 0x100_0000);
    let m1 = mul_spec(x, REC709_SLOPE_10BIT);
    let s1 = nearest_even(prod, 0x100_0000);
    assert(m1 == 127 * 0x80_0000 + s1);
    assert(0x80_0000 <= s1 < 0x100_0000);
    let x2 = s1 * 0x4 + 0x80_0000;
    assert(s1 * 0x4 + 0x80_0000 * 1 == x2);
    lemma_sum_known(m1, HALF, false, s1, 127, 0x80_0000, 125, 0x4, 1, x2, 26, 0x200_0000, 0x4);
    let s2 = nearest_even(x2, 0x4);
    let m2 = mul_add_spec(x, REC709_SLOPE_10BIT, HALF);
    assert(m2 == 127 * 0x80_0000 + s2);
    lemma_whole_known(m2, s2, 127, 0x40_0000);
    assert(s2 / 0x40_0000 == n);
}

/// The codes whose count from the first is 4 to 4.
#[verifier::rlimit(80)]
proof fn lemma_10bit_4_to_4(n: nat)
    requires
        4 <= n <= 4,
    ensures
        has_code(div_spec(number(n), REC709_SLOPE_10BIT), REC709_SLOPE_10BIT, n),
{
    reveal(has_code);
    lemma2_to64();
    lemma2_to64_rest();
    lemma_high_powers();
    let slope: nat = 0xf6_6000;
    lemma_number_known(n, 3, 0x4, 0x20_0000);
    let big_n = number(n);
    let sn = n * 0x20_0000;
    assert(big_n == 128 * 0x80_0000 + sn);
    let q = (sn * 0x1_0000_0000_0000_0000) / slope;
    let rest = (sn * 0x1_0000_0000_0000_0000) % slope;
    let nq: nat = if rest != 0 {
        2 * q + 1
    } else {
        2 * q
    };
    assert(0x8000_0000_0000_0000 <= q < 0x1_0000_0000_0000_0000);
    lemma_quotient_known(big_n, REC709_SLOPE_10BIT, sn, 128, slope, 137, q, rest, 65, 0x1_0000_0000_0000_0000, 0x200_0000_0000);
    let x = div_spec(big_n, REC709_SLOPE_10BIT);
    let sx = nearest_even(nq, 0x200_0000_0000);
    assert(x == 116 * 0x80_0000 + sx);
    assert(0x80_0000 <= sx < 0x100_0000);
    let prod = sx * slope;
    lemma_product_known(x, REC709_SLOPE_10BIT, sx, 116, slope, 137, prod, 47, 0x4000_0000_0000, 0x80_0000);
    let m1 = mul_spec(x, REC709_SLOPE_10BIT);
    let s1: nat = 0x80_0000;
    assert(nearest_even(prod, 0x80_0000) == 0x100_0000);
    assert(m1 == 128 * 0x80_0000 + s1);
    assert(0x80_0000 <= s1 < 0x100_0000);
    let x2 = s1 * 0x8 + 0x80_0000;
    assert(s1 * 0x8 + 0x80_0000 * 1 == x2);
    lemma_sum_known(m1, HALF, false, s1, 128, 0x80_0000, 125, 0x8, 1, x2, 27, 0x400_0000, 0x8);
    let s2 = nearest_even(x2, 0x8);
    let m2 = mul_add_spec(x, REC709_SLOPE_10BIT, HALF);
    assert(m2 == 128 * 0x80_0000 + s2);
    lemma_whole_known(m2, s2, 128, 0x20_0000);
    assert(s2 / 0x20_0000 == n);
}

/// The codes whose count from the first is 5 to 7.
#[verifier::rlimit(80)]
proof fn lemma_10bit_5_to_7(n: nat)
    requires
        5 <= n <= 7,
    ensures
        has_code(div_spec(number(n), REC709_SLOPE_10BIT), REC709_SLOPE_10BIT, n),
{
    reveal(has_code);
    lemma2_to64();
    lemma2_to64_rest();
    lemma_high_powers();
    let slope: nat = 0xf6_6000;
    lemma_number_known(n, 3, 0x4, 0x20_0000);
    let big_n = number(n);
    let sn = n * 0x20_0000;
    assert(big_n == 128 * 0x80_0000 + sn);
    let q = (sn * 0x1_0000_0000_0000_0000) / slope;
    let rest = (sn * 0x1_0000_0000_0000_0000) % slope;
    let nq: nat = if rest != 0 {
        2 * q + 1
    } else {
        2 * q
    };
    assert(0x8000_0000_0000_0000 <= q < 0x1_0000_0000_0000_0000);
    lemma_quotient_known(big_n, REC709_SLOPE_10BIT, sn, 128, slope, 137, q, rest, 65, 0x1_0000_0000_0000_0000, 0x200_0000_0000);
    let x = div_spec(big_n, REC709_SLOPE_10BIT);
    let sx = nearest_even(nq, 0x200_0000_0000);
    assert(x == 116 * 0x80_0000 + sx);
    assert(0x80_0000 <= sx < 0x100_0000);
    let prod = sx * slope;
    lemma_product_known(x, REC709_SLOPE_10BIT, sx, 116, slope, 137, prod, 48, 0x8000_0000_0000, 0x100_0000);
    let m1 = mul_spec(x, REC709_SLOPE_10BIT);
    let s1 = nearest_even(prod, 0x100_0000);
    assert(m1 == 128 * 0x80_0000 + s1);
    assert(0x80_0000 <= s1 < 0x100_0000);
    let x2 = s1 * 0x8 + 0x80_0000;
    assert(s1 * 0x8 + 0x80_0000 * 1 == x2);
    lemma_sum_known(m1, HALF, false, s1, 128, 0x80_0000, 125, 0x8, 1, x2, 27, 0x400_0000, 0x8);
    let s2 = nearest_even(x2, 0x8);
    let m2 = mul_add_spec(x, REC709_SLOPE_10BIT, HALF);
    assert(m2 == 128 * 0x80_0000 + s2);
    lemma_whole_known(m2, s2, 128, 0x20_0000);
    assert(s2 / 0x20_0000 == n);
}

/// The codes whose count from the first is 8 to 8.
#[verifier::rlimit(80)]
proof fn lemma_10bit_8_to_8(n: nat)
    requires
        8 <= n <= 8,
    ensures
        has_code(div_spec(number(n), REC709_SLOPE_10BIT), REC709_SLOPE_10BIT, n),
{
    reveal(has_code);
    lemma2_to64();
    lemma2_to64_rest();
    lemma_high_powers();
    let slope: nat = 0xf6_6000;
    lemma_number_known(n, 4, 0x8, 0x10_0000);
    let big_n = number(n);
    let sn = n * 0x10_0000;
    assert(big_n == 129 * 0x80_0000 + sn);
    let q = (sn * 0x1_0000_0000_0000_0000) / slope;
    let rest = (sn * 0x1_0000_0000_0000_0000) % slope;
    let nq: nat = if rest != 0 {
        2 * q + 1
    } else {
        2 * q
    };
    assert(0x8000_0000_0000_0000 <= q < 0x1_0000_0000_0000_0000);
    lemma_quotient_known(big_n, REC709_SLOPE_10BIT, sn, 129, slope, 137, q, rest, 65, 0x1_0000_0000_0000_0000, 0x200_0000_0000);
    let x = div_spec(big_n, REC709_SLOPE_10BIT);
    let sx = nearest_even(nq, 0x200_0000_0000);
    assert(x == 117 * 0x80_0000 + sx);
    assert(0x80_0000 <= sx < 0x100_0000);
    let prod = sx * slope;
    lemma_product_known(x, REC709_SLOPE_10BIT, sx, 117, slope, 137, prod, 47, 0x4000_0000_0000, 0x80_0000);
    let m1 = mul_spec(x, REC709_SLOPE_10BIT);
    let s1: nat = 0x80_0000;
    assert(nearest_even(prod, 0x80_0000) == 0x100_0000);
    assert(m1 == 129 * 0x80_0000 + s1);
    assert(0x80_0000 <= s1 < 0x100_0000);
    let x2 = s1 * 0x10 + 0x80_0000;
    assert(s1 * 0x10 + 0x80_0000 * 1 == x2);
    lemma_sum_known(m1, HALF, false, s1, 129, 0x80_0000, 125, 0x10, 1, x2, 28, 0x800_0000, 0x10);
    let s2 = nearest_even(x2, 0x10);
    let m2 = mul_add_spec(x, REC709_SLOPE_10BIT, HALF);
    assert(m2 == 129 * 0x80_0000 + s2);
    lemma_whole_known(m2, s2, 129, 0x10_0000);
    assert(s2 / 0x10_0000 == n);
}

/// The codes whose count from the first is 9 to 15.
#[verifier::rlimit(80)]
proof fn lemma_10bit_9_to_15(n: nat)
    requires
        9 <= n <= 15,
    ensures
        has_code(div_spec(number(n), REC709_SLOPE_10BIT), REC709_SLOPE_10BIT, n),
{
    reveal(has_code);
    lemma2_to64();
    lemma2_to64_rest();
    lemma_high_powers();
    let slope: nat = 0xf6_6000;
    lemma_number_known(n, 4, 0x8, 0x10_0000);
    let big_n = number(n);
    let sn = n * 0x10_0000;
    assert(big_n == 129 * 0x80_0000 + sn);
    let q = (sn * 0x1_0000_0000_0000_0000) / slope;
    let rest = (sn * 0x1_0000_0000_0000_0000) % slope;
    let nq: nat = if rest != 0 {
        2 * q + 1
    } else {
        2 * q
    };
    assert(0x8000_0000_0000_0000 <= q < 0x1_0000_0000_0000_0000);
    lemma_quotient_known(big_n, REC709_SLOPE_10BIT, sn, 129, slope, 137, q, rest, 65, 0x1_0000_0000_0000_0000, 0x200_0000_0000);
    let x = div_spec(big_n, REC709_SLOPE_10BIT);
    let sx = nearest_even(nq, 0x200_0000_0000);
    assert(x == 117 * 0x80_0000 + sx);
    assert(0x80_0000 <= sx < 0x100_0000);
    let prod = sx * slope;
    lemma_product_known(x, REC709_SLOPE_10BIT, sx, 117, slope, 137, prod, 48, 0x8000_0000_0000, 0x100_0000);
    let m1 = mul_spec(x, REC709_SLOPE_10BIT);
    let s1 = nearest_even(prod, 0x100_0000);
    assert(m1 == 129 * 0x80_0000 + s1);
    assert(0x80_0000 <= s1 < 0x100_0000);
    let x2 = s1 * 0x10 + 0x80_0000;
    assert(s1 * 0x10 + 0x80_0000 * 1 == x2);
    lemma_sum_known(m1, HALF, false, s1, 129, 0x80_0000, 125, 0x10, 1, x2, 28, 0x800_0000, 0x10);
    let s2 = nearest_even(x2, 0x10);
    let m2 = mul_add_spec(x, REC709_SLOPE_10BIT, HALF);
    assert(m2 == 129 * 0x80_0000 + s2);
    lemma_whole_known(m2, s2, 129, 0x10_0000);
    assert(s2 / 0x10_0000 == n);
}

/// The codes whose count from the first is 16 to 16.
#[verifier::rlimit(80)]
proof fn lemma_10bit_16_to_16(n: nat)
    requires
        16 <= n <= 16,
    ensures
        has_code(div_spec(number(n), REC709_SLOPE_10BIT), REC709_SLOPE_10BIT, n),
{
    reveal(has_code);
    lemma2_to64();
    lemma2_to64_rest();
    lemma_high_powers();
    let slope: nat = 0xf6_6000;
    lemma_number_known(n, 5, 0x10, 0x8_0000);
    let big_n = number(n);
    let sn = n * 0x8_0000;
    assert(big_n == 130 * 0x80_0000 + sn);
    let q = (sn * 0x1_0000_0000_0000_0000) / slope;
    let rest = (sn * 0x1_0000_0000_0000_0000) % slope;
    let nq: nat = if rest != 0 {
        2 * q + 1
    } else {
        2 * q
    };
    assert(0x8000_0000_0000_0000 <= q < 0x1_0000_0000_0000_0000);
    lemma_quotient_known(big_n, REC709_SLOPE_10BIT, sn, 130, slope, 137, q, rest, 65, 0x1_0000_0000_0000_0000, 0x200_0000_0000);
    let x = div_spec(big_n, REC709_SLOPE_10BIT);
    let sx = nearest_even(nq, 0x200_0000_0000);
    assert(x == 118 * 0x80_0000 + sx);
    assert(0x80_0000 <= sx < 0x100_0000);
    let prod = sx * slope;
    lemma_product_known(x, REC709_SLOPE_10BIT, sx, 118, slope, 137, prod, 47, 0x4000_0000_0000, 0x80_0000);
    let m1 = mul_spec(x, REC709_SLOPE_10BIT);
    let s1: nat = 0x80_0000;
    assert(nearest_even(prod, 0x80_0000) == 0x100_0000);
    assert(m1 == 130 * 0x80_0000 + s1);
    assert(0x80_0000 <= s1 < 0x100_0000);
    let x2 = s1 * 0x20 + 0x80_0000;
    assert(s1 * 0x20 + 0x80_0000 * 1 == x2);
    lemma_sum_known(m1, HALF, false, s1, 130, 0x80_0000, 125, 0x20, 1, x2, 29, 0x1000_0000, 0x20);
    let s2 = nearest_even(x2, 0x20);
    let m2 = mul_add_spec(x, REC709_SLOPE_10BIT, HALF);
    assert(m2 == 130 * 0x80_0000 + s2);
    lemma_whole_known(m2, s2, 130, 0x8_0000);
    assert(s2 / 0x8_0000 == n);
}

/// The codes whose count from the first is 17 to 30.
#[verifier::rlimit(80)]
proof fn lemma_10bit_17_to_30(n: nat)
    requires
        17 <= n <= 30,
    ensures
        has_code(div_spec(number(n), REC709_SLOPE_10BIT), REC709_SLOPE_10BIT, n),
{
    reveal(has_code);
    lemma2_to64();
    lemma2_to64_rest();
    lemma_high_powers();
    let slope: nat = 0xf6_6000;
    lemma_number_known(n, 5, 0x10, 0x8_0000);
    let big_n = number(n);
    let sn = n * 0x8_0000;
    assert(big_n == 130 * 0x80_0000 + sn);
    let q = (sn * 0x1_0000_0000_0000_0000) / slope;
    let rest = (sn * 0x1_0000_0000_0000_0000) % slope;
    let nq: nat = if rest != 0 {
        2 * q + 1
    } else {
        2 * q
    };
    assert(0x8000_0000_0000_0000 <= q < 0x1_0000_0000_0000_0000);
    lemma_quotient_known(big_n, REC709_SLOPE_10BIT, sn, 130, slope, 137, q, rest, 65, 0x1_0000_0000_0000_0000, 0x200_0000_0000);
    let x = div_spec(big_n, REC709_SLOPE_10BIT);
    let sx = nearest_even(nq, 0x200_0000_0000);
    assert(x == 118 * 0x80_0000 + sx);
    assert(0x80_0000 <= sx < 0x100_0000);
    let prod = sx * slope;
    lemma_product_known(x, REC709_SLOPE_10BIT, sx, 118, slope, 137, prod, 48, 0x8000_0000_0000, 0x100_0000);
    let m1 = mul_spec(x, REC709_SLOPE_10BIT);
    let s1 = nearest_even(prod, 0x100_0000);
    assert(m1 == 130 * 0x80_0000 + s1);
    assert(0x80_0000 <= s1 < 0x100_0000);
    let x2 = s1 * 0x20 + 0x80_0000;
    assert(s1 * 0x20 + 0x80_0000 * 1 == x2);
    lemma_sum_known(m1, HALF, false, s1, 130, 0x80_0000, 125, 0x20, 1, x2, 29, 0x1000_0000, 0x20);
    let s2 = nearest_even(x2, 0x20);
    let m2 = mul_add_spec(x, REC709_SLOPE_10BIT, HALF);
    assert(m2 == 130 * 0x80_0000 + s2);
    lemma_whole_known(m2, s2, 130, 0x8_0000);
    assert(s2 / 0x8_0000 == n);
}

/// The codes whose count from the first is 31 to 31.
#[verifier::rlimit(80)]
proof fn lemma_10bit_31_to_31(n: nat)
    requires
        31 <= n <= 31,
    ensures
        has_code(div_spec(number(n), REC709_SLOPE_10BIT), REC709_SLOPE_10BIT, n),
{
    reveal(has_code);
    lemma2_to64();
    lemma2_to64_rest();
    lemma_high_powers();
    let slope: nat = 0xf6_6000;
    lemma_number_known(n, 5, 0x10, 0x8_0000);
    let big_n = number(n);
    let sn = n * 0x8_0000;
    assert(big_n == 130 * 0x80_0000 + sn);
    let q = (sn * 0x1_0000_0000_0000_0000) / slope;
    let rest = (sn * 0x1_0000_0000_0000_0000) % slope;
    let nq: nat = if rest != 0 {
        2 * q + 1
    } else {
        2 * q
    };
    assert(0x1_0000_0000_0000_0000 <= q < 0x2_0000_0000_0000_0000);
    lemma_quotient_known(big_n, REC709_SLOPE_10BIT, sn, 130, slope, 137, q, rest, 66, 0x2_0000_0000_0000_0000, 0x400_0000_0000);
    let x = div_spec(big_n, REC709_SLOPE_10BIT);
    let sx = nearest_even(nq, 0x400_0000_0000);
    assert(x == 119 * 0x80_0000 + sx);
    assert(0x80_0000 <= sx < 0x100_0000);
    let prod = sx * slope;
    lemma_product_known(x, REC709_SLOPE_10BIT, sx, 119, slope, 137, prod, 47, 0x4000_0000_0000, 0x80_0000);
    let m1 = mul_spec(x, REC709_SLOPE_10BIT);
    let s1 = nearest_even(prod, 0x80_0000);
    assert(m1 == 130 * 0x80_0000 + s1);
    assert(0x80_0000 <= s1 < 0x100_0000);
    let x2 = s1 * 0x20 + 0x80_0000;
    assert(s1 * 0x20 + 0x80_0000 * 1 == x2);
    lemma_sum_known(m1, HALF, false, s1, 130, 0x80_0000, 125, 0x20, 1, x2, 29, 0x1000_0000, 0x20);
    let s2 = nearest_even(x2, 0x20);
    let m2 = mul_add_spec(x, REC709_SLOPE_10BIT, HALF);
    assert(m2 == 130 * 0x80_0000 + s2);
    lemma_whole_known(m2, s2, 130, 0x8_0000);
    assert(s2 / 0x8_0000 == n);
}

/// The codes whose count from the first is 32 to 32.
#[verifier::rlimit(80)]
proof fn lemma_10bit_32_to_32(n: nat)
    requires
        32 <= n <= 32,
    ensures
        has_code(div_spec(number(n), REC709_SLOPE_10BIT), REC709_SLOPE_10BIT, n),
{
    reveal(has_code);
    lemma2_to64();
    lemma2_to64_rest();
    lemma_high_powers();
    let slope: nat = 0xf6_6000;
    lemma_number_known(n, 6, 0x20, 0x4_0000);
    let big_n = number(n);
    let sn = n * 0x4_0000;
    assert(big_n == 131 * 0x80_0000 + sn);
    let q = (sn * 0x1_0000_0000_0000_0000) / slope;
    let rest = (sn * 0x1_0000_0000_0000_0000) % slope;
    let nq: nat = if rest != 0 {
        2 * q + 1
    } else {
        2 * q
    };
    assert(0x8000_0000_0000_0000 <= q < 0x1_0000_0000_0000_0000);
    lemma_quotient_known(big_n, REC709_SLOPE_10BIT, sn, 131, slope, 137, q, rest, 65, 0x1_0000_0000_0000_0000, 0x200_0000_0000);
    let x = div_spec(big_n, REC709_SLOPE_10BIT);
    let sx = nearest_even(nq, 0x200_0000_0000);
    assert(x == 119 * 0x80_0000 + sx);
    assert(0x80_0000 <= sx < 0x100_0000);
    let prod = sx * slope;
    lemma_product_known(x, REC709_SLOPE_10BIT, sx, 119, slope, 137, prod, 47, 0x4000_0000_0000, 0x80_0000);
    let m1 = mul_spec(x, REC709_SLOPE_10BIT);
    let s1: nat = 0x80_0000;
    assert(nearest_even(prod, 0x80_0000) == 0x100_0000);
    assert(m1 == 131 * 0x80_0000 + s1);
    assert(0x80_0000 <= s1 < 0x100_0000);
    let x2 = s1 * 0x40 + 0x80_0000;
    assert(s1 * 0x40 + 0x80_0000 * 1 == x2);
    lemma_sum_known(m1, HALF, false, s1, 131, 0x80_0000, 125, 0x40, 1, x2, 30, 0x2000_0000, 0x40);
    let s2 = nearest_even(x2, 0x40);
    let m2 = mul_add_spec(x, REC709_SLOPE_10BIT, HALF);
    assert(m2 == 131 * 0x80_0000 + s2);
    lemma_whole_known(m2, s2, 131, 0x4_0000);
    assert(s2 / 0x4_0000 == n);
}

/// The codes whose count from the first is 33 to 61.
#[verifier::rlimit(80)]
proof fn lemma_10bit_33_to_61(n: nat)
    requires
        33 <= n <= 61,
    ensures
        has_code(div_spec(number(n), REC709_SLOPE_10BIT), REC709_SLOPE_10BIT, n),
{
    reveal(has_code);
    lemma2_to64();
    lemma2_to64_rest();
    lemma_high_powers();
    let slope: nat = 0xf6_6000;
    lemma_number_known(n, 6, 0x20, 0x4_0000);
    let big_n = number(n);
    let sn = n * 0x4_0000;
    assert(big_n == 131 * 0x80_0000 + sn);
    let q = (sn * 0x1_0000_0000_0000_0000) / slope;
    let rest = (sn * 0x1_0000_0000_0000_0000) % slope;
    let nq: nat = if rest != 0 {
        2 * q + 1
    } else {
        2 * q
    };
    assert(0x8000_0000_0000_0000 <= q < 0x1_0000_0000_0000_0000);
    lemma_quotient_known(big_n, REC709_SLOPE_10BIT, sn, 131, slope, 137, q, rest, 65, 0x1_0000_0000_0000_0000, 0x200_0000_0000);
    let x = div_spec(big_n, REC709_SLOPE_10BIT);
    let sx = nearest_even(nq, 0x200_0000_0000);
    assert(x == 119 * 0x80_0000 + sx);
    assert(0x80_0000 <= sx < 0x100_0000);
    let prod = sx * slope;
    lemma_product_known(x, REC709_SLOPE_10BIT, sx, 119, slope, 137, prod, 48, 0x8000_0000_0000, 0x100_0000);
    let m1 = mul_spec(x, REC709_SLOPE_10BIT);
    let s1 = nearest_even(prod, 0x100_0000);
    assert(m1 == 131 * 0x80_0000 + s1);
    assert(0x80_0000 <= s1 < 0x100_0000);
    let x2 = s1 * 0x40 + 0x80_0000;
    assert(s1 * 0x40 + 0x80_0000 * 1 == x2);
    lemma_sum_known(m1, HALF, false, s1, 131, 0x80_0000, 125, 0x40, 1, x2, 30, 0x2000_0000, 0x40);
    let s2 = nearest_even(x2, 0x40);
    let m2 = mul_add_spec(x, REC709_SLOPE_10BIT, HALF);
    assert(m2 == 131 * 0x80_0000 + s2);
    lemma_whole_known(m2, s2, 131, 0x4_0000);
    assert(s2 / 0x4_0000 == n);
}

/// The codes whose count from the first is 62 to 63.
#[verifier::rlimit(80)]
proof fn lemma_10bit_62_to_63(n: nat)
    requires
        62 <= n <= 63,
    ensures
        has_code(div_spec(number(n), REC709_SLOPE_10BIT), REC709_SLOPE_10BIT, n),
{
    reveal(has_code);
    lemma2_to64();
    lemma2_to64_rest();
    lemma_high_powers();
    let slope: nat = 0xf6_6000;
    lemma_number_known(n, 6, 0x20, 0x4_0000);
    let big_n = number(n);
    let sn = n * 0x4_0000;
    assert(big_n == 131 * 0x80_0000 + sn);
    let q = (sn * 0x1_0000_0000_0000_0000) / slope;
    let rest = (sn * 0x1_0000_0000_0000_0000) % slope;
    let nq: nat = if rest != 0 {
        2 * q + 1
    } else {
        2 * q
    };
    assert(0x1_0000_0000_0000_0000 <= q < 0x2_0000_0000_0000_0000);
    lemma_quotient_known(big_n, REC709_SLOPE_10BIT, sn, 131, slope, 137, q, rest, 66, 0x2_0000_0000_0000_0000, 0x400_0000_0000);
    let x = div_spec(big_n, REC709_SLOPE_10BIT);
    let sx = nearest_even(nq, 0x400_0000_0000);
    assert(x == 120 * 0x80_0000 + sx);
    assert(0x80_0000 <= sx < 0x100_0000);
    let prod = sx * slope;
    lemma_product_known(x, REC709_SLOPE_10BIT, sx, 120, slope, 137, prod, 47, 0x4000_0000_0000, 0x80_0000);
    let m1 = mul_spec(x, REC709_SLOPE_10BIT);
    let s1 = nearest_even(prod, 0x80_0000);
    assert(m1 == 131 * 0x80_0000 + s1);
    assert(0x80_0000 <= s1 < 0x100_0000);
    let x2 = s1 * 0x40 + 0x80_0000;
    assert(s1 * 0x40 + 0x80_0000 * 1 == x2);
    lemma_sum_known(m1, HALF, false, s1, 131, 0x80_0000, 125, 0x40, 1, x2, 30, 0x2000_0000, 0x40);
    let s2 = nearest_even(x2, 0x40);
    let m2 = mul_add_spec(x, REC709_SLOPE_10BIT, HALF);
    assert(m2 == 131 * 0x80_0000 + s2);
    lemma_whole_known(m2, s2, 131, 0x4_0000);
    assert(s2 / 0x4_0000 == n);
}

/// The codes whose count from the first is 64 to 64.
#[verifier::rlimit(80)]
proof fn lemma_10bit_64_to_64(n: nat)
    requires
        64 <= n <= 64,
    ensures
        has_code(div_spec(number(n), REC709_SLOPE_10BIT), REC709_SLOPE_10BIT, n),
{
    reveal(has_code);
    lemma2_to64();
    lemma2_to64_rest();
    lemma_high_powers();
    let slope: nat = 0xf6_6000;
    lemma_number_known(n, 7, 0x40, 0x2_0000);
    let big_n = number(n);
    let sn = n * 0x2_0000;
    assert(big_n == 132 * 0x80_0000 + sn);
    let q = (sn * 0x1_0000_0000_0000_0000) / slope;
    let rest = (sn * 0x1_0000_0000_0000_0000) % slope;
    let nq: nat = if rest != 0 {
        2 * q + 1
    } else {
        2 * q
    };
    assert(0x8000_0000_0000_0000 <= q < 0x1_0000_0000_0000_0000);
    lemma_quotient_known(big_n, REC709_SLOPE_10BIT, sn, 132, slope, 137, q, rest, 65, 0x1_0000_0000_0000_0000, 0x200_0000_0000);
    let x = div_spec(big_n, REC709_SLOPE_10BIT);
    let sx = nearest_even(nq, 0x200_0000_0000);
    assert(x == 120 * 0x80_0000 + sx);
    assert(0x80_0000 <= sx < 0x100_0000);
    let prod = sx * slope;
    lemma_product_known(x, REC709_SLOPE_10BIT, sx, 120, slope, 137, prod, 47, 0x4000_0000_0000, 0x80_0000);
    let m1 = mul_spec(x, REC709_SLOPE_10BIT);
    let s1: nat = 0x80_0000;
    assert(nearest_even(prod, 0x80_0000) == 0x100_0000);
    assert(m1 == 132 * 0x80_0000 + s1);
    assert(0x80_0000 <= s1 < 0x100_0000);
    let x2 = s1 * 0x80 + 0x80_0000;
    assert(s1 * 0x80 + 0x80_0000 * 1 == x2);
    lemma_sum_known(m1, HALF, false, s1, 132, 0x80_0000, 125, 0x80, 1, x2, 31, 0x4000_0000, 0x80);
    let s2 = nearest_even(x2, 0x80);
    let m2 = mul_add_spec(x, REC709_SLOPE_10BIT, HALF);
    assert(m2 == 132 * 0x80_0000 + s2);
    lemma_whole_known(m2, s2, 132, 0x2_0000);
    assert(s2 / 0x2_0000 == n);
}

/// The codes whose count from the first is 65 to 70.
#[verifier::rlimit(80)]
proof fn lemma_10bit_65_to_70(n: nat)
    requires
        65 <= n <= 70,
    ensures
        has_code(div_spec(number(n), REC709_SLOPE_10BIT), REC709_SLOPE_10BIT, n),
{
    reveal(has_code);
    lemma2_to64();
    lemma2_to64_rest();
    lemma_high_powers();
    let slope: nat = 0xf6_6000;
    lemma_number_known(n, 7, 0x40, 0x2_0000);
    let big_n = number(n);
    let sn = n * 0x2_0000;
    assert(big_n == 132 * 0x80_0000 + sn);
    let q = (sn * 0x1_0000_0000_0000_0000) / slope;
    let rest = (sn * 0x1_0000_0000_0000_0000) % slope;
    let nq: nat = if rest != 0 {
        2 * q + 1
    } else {
        2 * q
    };
    assert(0x8000_0000_0000_0000 <= q < 0x1_0000_0000_0000_0000);
    lemma_quotient_known(big_n, REC709_SLOPE_10BIT, sn, 132, slope, 137, q, rest, 65, 0x1_0000_0000_0000_0000, 0x200_0000_0000);
    let x = div_spec(big_n, REC709_SLOPE_10BIT);
    let sx = nearest_even(nq, 0x200_0000_0000);
    assert(x == 120 * 0x80_0000 + sx);
    assert(0x80_0000 <= sx < 0x100_0000);
    let prod = sx * slope;
    lemma_product_known(x, REC709_SLOPE_10BIT, sx, 120, slope, 137, prod, 48, 0x8000_0000_0000, 0x100_0000);
    let m1 = mul_spec(x, REC709_SLOPE_10BIT);
    let s1 = nearest_even(prod, 0x100_0000);
    assert(m1 == 132 * 0x80_0000 + s1);
    assert(0x80_0000 <= s1 < 0x100_0000);
    let x2 = s1 * 0x80 + 0x80_0000;
    assert(s1 * 0x80 + 0x80_0000 * 1 == x2);
    lemma_sum_known(m1, HALF, false, s1, 132, 0x80_0000, 125, 0x80, 1, x2, 31, 0x4000_0000, 0x80);
    let s2 = nearest_even(x2, 0x80);
    let m2 = mul_add_spec(x, REC709_SLOPE_10BIT, HALF);
    assert(m2 == 132 * 0x80_0000 + s2);
    lemma_whole_known(m2, s2, 132, 0x2_0000);
    assert(s2 / 0x2_0000 == n);
}

/// In the 10-bit coding, a code of the linear piece expands to a value that
/// is compressed to that code.
pub proof fn lemma_rec709_10bit_linear_codes_round_trip(v: int)
    requires
        64 <= v <= 134,
    ensures
        expand_rec709_spec(v, 64, 134, 940, REC709_SLOPE_10BIT, REC709_OFFSET_10BIT, REC709_GAIN_10BIT) matches Step::Done(x)
            && compress_rec709_spec(x, 64, 876, REC709_SLOPE_10BIT, Step::Done(v as nat)),
{
    reveal(has_code);
    if v == 64 {
        lemma_first_code(REC709_SLOPE_10BIT);
        crate::binary32::lemma_less_by_rank(REC709_BREAK, 0);
        crate::binary32::lemma_less_by_rank(0, 0);
    } else {
        let n = (v - 64) as nat;
        if n <= 1 {
            lemma_10bit_1_to_1(n);
        } else if n <= 2 {
            lemma_10bit_2_to_2(n);
        } else if n <= 3 {
            lemma_10bit_3_to_3(n);
        } else if n <= 4 {
            lemma_10bit_4_to_4(n);
        } else if n <= 7 {
            lemma_10bit_5_to_7(n);
        } else if n <= 8 {
            lemma_10bit_8_to_8(n);
        } else if n <= 15 {
            lemma_10bit_9_to_15(n);
        } else if n <= 16 {
            lemma_10bit_16_to_16(n);
        } else if n <= 30 {
            lemma_10bit_17_to_30(n);
        } else if n <= 31 {
            lemma_10bit_31_to_31(n);
        } else if n <= 32 {
            lemma_10bit_32_to_32(n);
        } else if n <= 61 {
            lemma_10bit_33_to_61(n);
        } else if n <= 63 {
            lemma_10bit_62_to_63(n);
        } else if n <= 64 {
            lemma_10bit_64_to_64(n);
        } else if n <= 70 {
            lemma_10bit_65_to_70(n);
        }
        let x = div_spec(number(n), REC709_SLOPE_10BIT);
        crate::binary32::lemma_less_by_rank(REC709_BREAK, x);
        crate::binary32::lemma_less_by_rank(0, x);
    }
}

/// The two Rec.709 codings compress alike on the linear piece: the value
/// that an 8-bit code expands to has that code, and four times that code
/// in the 10-bit coding.
pub proof fn lemma_rec709_codings_compress_alike_on_linear_piece(v: int)
    requires
        16 <= v <= 33,
    ensures
        expand_rec709_spec(
            v,
            16,
            33,
            235,
            REC709_SLOPE_8BIT,
            REC709_OFFSET_8BIT,
            REC709_GAIN_8BIT,
        ) matches Step::Done(x) && compress_rec709_spec(
            x,
            16,
            219,
            REC709_SLOPE_8BIT,
            Step::Done(v as nat),
        ) && compress_rec709_spec(x, 64, 876, REC709_SLOPE_10BIT, Step::Done((4 * v) as nat)),
{
    lemma_rec709_8bit_linear_codes_round_trip(v);
    crate::gamma::lemma_rec709_codings_expand_alike(v as u8);
    lemma_rec709_10bit_linear_codes_round_trip(4 * v);
}

} // verus!
