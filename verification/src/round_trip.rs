//! Compression undoes expansion: the code that compression gives for the
//! linear value of a code is that code.  Each code is one calculation,
//! carried out on the numbers of the two tables.

use vstd::prelude::*;
use vstd::arithmetic::power2::{lemma2_to64, lemma2_to64_rest};
use crate::arith::{add_spec, mul_spec, div_spec, fused_spec, sub_spec};
use crate::binary32::{less, whole_part, ONE};
use crate::gamma::{
    chord, chord_code, compress_u8_precise_spec, compress_u8_spec, Step,
    COMPRESS_EXPONENT, FAST_BITS_OFFSET, FAST_LUT, FAST_START_255_AT, FAST_START_AT, HALF,
    LINEAR_SLOPE, S_0, U8_TO_LINEAR_LUT,
};
use crate::known::{
    lemma_fused_known, lemma_high_powers, lemma_product_known, lemma_quotient_known,
    lemma_sum_known, lemma_whole_known,
};
use crate::maths::mul_add_spec;

verus! {

/// Proof that a pattern between the two thresholds of the fast
/// compression is a number between them.
pub proof fn lemma_between(s: u32)
    requires
        FAST_START_AT < s < FAST_START_255_AT,
    ensures
        less(FAST_START_AT, s),
        less(s, FAST_START_255_AT),
{
    crate::binary32::lemma_less_by_rank(FAST_START_AT, s);
    crate::binary32::lemma_less_by_rank(s, FAST_START_255_AT);
}

/// Proof that the fast compression of the linear value `s`, which lies
/// between the two thresholds, is the whole part of the chord over the
/// sample interval `i`.
pub proof fn lemma_on_chord(s: u32, i: int, x_left: u32, x_right: u32, left: u32, right: u32, e: u8)
    requires
        FAST_START_AT < s < FAST_START_255_AT,
        i == (s - FAST_BITS_OFFSET) / 0x8_0000,
        x_left == FAST_BITS_OFFSET + i * 0x8_0000,
        x_right == x_left + 0x8_0000,
        left == FAST_LUT[i],
        right == FAST_LUT[i + 1],
        chord_code(s, x_left, x_right, left, right) == e,
    ensures
        compress_u8_spec(s) == e,
{
    reveal(chord_code);
    lemma_between(s);
}

/// Proof that a positive pattern up to `limit` is a positive number that
/// is not above `limit`.
pub proof fn lemma_up_to(s: u32, limit: u32)
    requires
        0 < s <= limit < 0x7f80_0000,
    ensures
        less(0, s),
        !less(limit, s),
{
    crate::binary32::lemma_less_by_rank(0, s);
    crate::binary32::lemma_less_by_rank(limit, s);
}

/// Proof that a pattern above `limit` and up to 1 is a number above `limit`
/// and not above 1.
proof fn lemma_above(s: u32, limit: u32)
    requires
        limit < s <= ONE,
    ensures
        less(limit, s),
        !less(ONE, s),
{
    crate::binary32::lemma_less_by_rank(limit, s);
    crate::binary32::lemma_less_by_rank(ONE, s);
}

/// Code 0: zero times the slope is lost in the half that is added to it.
proof fn lemma_code_0()
    ensures
        compress_u8_spec(0) == 0,
        compress_u8_precise_spec(0) == Step::Done(0u8),
{
    lemma2_to64();
    crate::binary32::lemma_less_by_rank(FAST_START_AT, 0);
    crate::binary32::lemma_less_by_rank(S_0, 0);
    crate::arith::lemma_fused_of_zero(0, LINEAR_SLOPE, HALF);
    assert(fused_spec(0, LINEAR_SLOPE, HALF) == HALF);
    lemma_whole_known(0x3f00_0000, 0x80_0000, 125, 0x100_0000);
    assert(0 * 0xcd_e99a == 0) by (nonlinear_arith);
    assert(mul_spec(0, LINEAR_SLOPE) == 0);
    crate::arith::lemma_add_absorbs(HALF, 0);
    assert(mul_add_spec(0, LINEAR_SLOPE, HALF) == HALF);
}

/// Code 255: one is above the last threshold.
proof fn lemma_code_255()
    ensures
        compress_u8_spec(ONE) == 255,
{
    crate::binary32::lemma_less_by_rank(FAST_START_AT, ONE);
    crate::binary32::lemma_less_by_rank(ONE, FAST_START_255_AT);
}

/// Code 1, on the linear piece.
proof fn lemma_code_1()
    ensures
        compress_u8_spec(0x399f_22b4) == 1,
        compress_u8_precise_spec(0x399f_22b4) == Step::Done(1u8),
{
    lemma2_to64();
    lemma2_to64_rest();
    lemma_up_to(0x399f_22b4, FAST_START_AT);
    lemma_up_to(0x399f_22b4, S_0);
    lemma_fused_known(0x399f_22b4, 0x454d_e99a, 0x3f00_0000, 0x9f_22b4, 114, 0xcd_e99a, 137, 0x80_0000, 125, 0x80_0000, 0xc000_0074_b448, 48, 0x8000_0000_0000, 0x100_0000);
    assert(fused_spec(0x399f_22b4, LINEAR_SLOPE, HALF) == 0x3fc0_0000);
    lemma_whole_known(0x3fc0_0000, 0xc0_0000, 126, 0x80_0000);
    assert(0x9f_22b4 * 0xcd_e99a == 0x8000_0074_b448);
    lemma_product_known(0x399f_22b4, 0x454d_e99a, 0x9f_22b4, 114, 0xcd_e99a, 137, 0x8000_0074_b448, 48, 0x8000_0000_0000, 0x100_0000);
    assert(mul_spec(0x399f_22b4, LINEAR_SLOPE) == 0x3f80_0000);
    assert(0x80_0000 * 0x2 + 0x80_0000 * 0x1 == 0x180_0000);
    lemma_sum_known(0x3f80_0000, 0x3f00_0000, false, 0x80_0000, 126, 0x80_0000, 125, 0x2, 0x1, 0x180_0000, 25, 0x100_0000, 0x2);
    assert(mul_add_spec(0x399f_22b4, LINEAR_SLOPE, HALF) == 0x3fc0_0000);
}

/// Code 2, on the linear piece.
proof fn lemma_code_2()
    ensures
        compress_u8_spec(0x3a1f_22b4) == 2,
        compress_u8_precise_spec(0x3a1f_22b4) == Step::Done(2u8),
{
    lemma2_to64();
    lemma2_to64_rest();
    lemma_up_to(0x3a1f_22b4, FAST_START_AT);
    lemma_up_to(0x3a1f_22b4, S_0);
    lemma_fused_known(0x3a1f_22b4, 0x454d_e99a, 0x3f00_0000, 0x9f_22b4, 115, 0xcd_e99a, 137, 0x80_0000, 125, 0x40_0000, 0xa000_0074_b448, 48, 0x8000_0000_0000, 0x100_0000);
    assert(fused_spec(0x3a1f_22b4, LINEAR_SLOPE, HALF) == 0x4020_0000);
    lemma_whole_known(0x4020_0000, 0xa0_0000, 127, 0x40_0000);
    assert(0x9f_22b4 * 0xcd_e99a == 0x8000_0074_b448);
    lemma_product_known(0x3a1f_22b4, 0x454d_e99a, 0x9f_22b4, 115, 0xcd_e99a, 137, 0x8000_0074_b448, 48, 0x8000_0000_0000, 0x100_0000);
    assert(mul_spec(0x3a1f_22b4, LINEAR_SLOPE) == 0x4000_0000);
    assert(0x80_0000 * 0x4 + 0x80_0000 * 0x1 == 0x280_0000);
    lemma_sum_known(0x4000_0000, 0x3f00_0000, false, 0x80_0000, 127, 0x80_0000, 125, 0x4, 0x1, 0x280_0000, 26, 0x200_0000, 0x4);
    assert(mul_add_spec(0x3a1f_22b4, LINEAR_SLOPE, HALF) == 0x4020_0000);
}

/// Code 3, on the linear piece.
proof fn lemma_code_3()
    ensures
        compress_u8_spec(0x3a6e_b40e) == 3,
        compress_u8_precise_spec(0x3a6e_b40e) == Step::Done(3u8),
{
    lemma2_to64();
    lemma2_to64_rest();
    lemma_up_to(0x3a6e_b40e, FAST_START_AT);
    lemma_up_to(0x3a6e_b40e, S_0);
    lemma_fused_known(0x3a6e_b40e, 0x454d_e99a, 0x3f00_0000, 0xee_b40e, 115, 0xcd_e99a, 137, 0x80_0000, 125, 0x40_0000, 0xe000_00af_0e6c, 48, 0x8000_0000_0000, 0x100_0000);
    assert(fused_spec(0x3a6e_b40e, LINEAR_SLOPE, HALF) == 0x4060_0001);
    lemma_whole_known(0x4060_0001, 0xe0_0001, 127, 0x40_0000);
    assert(0xee_b40e * 0xcd_e99a == 0xc000_00af_0e6c);
    lemma_product_known(0x3a6e_b40e, 0x454d_e99a, 0xee_b40e, 115, 0xcd_e99a, 137, 0xc000_00af_0e6c, 48, 0x8000_0000_0000, 0x100_0000);
    assert(mul_spec(0x3a6e_b40e, LINEAR_SLOPE) == 0x4040_0001);
    assert(0xc0_0001 * 0x4 + 0x80_0000 * 0x1 == 0x380_0004);
    lemma_sum_known(0x4040_0001, 0x3f00_0000, false, 0xc0_0001, 127, 0x80_0000, 125, 0x4, 0x1, 0x380_0004, 26, 0x200_0000, 0x4);
    assert(mul_add_spec(0x3a6e_b40e, LINEAR_SLOPE, HALF) == 0x4060_0001);
}

/// Code 4, on the linear piece.
proof fn lemma_code_4()
    ensures
        compress_u8_spec(0x3a9f_22b4) == 4,
        compress_u8_precise_spec(0x3a9f_22b4) == Step::Done(4u8),
{
    lemma2_to64();
    lemma2_to64_rest();
    lemma_up_to(0x3a9f_22b4, FAST_START_AT);
    lemma_up_to(0x3a9f_22b4, S_0);
    lemma_fused_known(0x3a9f_22b4, 0x454d_e99a, 0x3f00_0000, 0x9f_22b4, 116, 0xcd_e99a, 137, 0x80_0000, 125, 0x20_0000, 0x9000_0074_b448, 48, 0x8000_0000_0000, 0x100_0000);
    assert(fused_spec(0x3a9f_22b4, LINEAR_SLOPE, HALF) == 0x4090_0000);
    lemma_whole_known(0x4090_0000, 0x90_0000, 128, 0x20_0000);
    assert(0x9f_22b4 * 0xcd_e99a == 0x8000_0074_b448);
    lemma_product_known(0x3a9f_22b4, 0x454d_e99a, 0x9f_22b4, 116, 0xcd_e99a, 137, 0x8000_0074_b448, 48, 0x8000_0000_0000, 0x100_0000);
    assert(mul_spec(0x3a9f_22b4, LINEAR_SLOPE) == 0x4080_0000);
    assert(0x80_0000 * 0x8 + 0x80_0000 * 0x1 == 0x480_0000);
    lemma_sum_known(0x4080_0000, 0x3f00_0000, false, 0x80_0000, 128, 0x80_0000, 125, 0x8, 0x1, 0x480_0000, 27, 0x400_0000, 0x8);
    assert(mul_add_spec(0x3a9f_22b4, LINEAR_SLOPE, HALF) == 0x4090_0000);
}

/// Code 5, on the linear piece.
proof fn lemma_code_5()
    ensures
        compress_u8_spec(0x3ac6_eb61) == 5,
        compress_u8_precise_spec(0x3ac6_eb61) == Step::Done(5u8),
{
    lemma2_to64();
    lemma2_to64_rest();
    lemma_up_to(0x3ac6_eb61, FAST_START_AT);
    lemma_up_to(0x3ac6_eb61, S_0);
    lemma_fused_known(0x3ac6_eb61, 0x454d_e99a, 0x3f00_0000, 0xc6_eb61, 116, 0xcd_e99a, 137, 0x80_0000, 125, 0x20_0000, 0xb000_0091_e15a, 48, 0x8000_0000_0000, 0x100_0000);
    assert(fused_spec(0x3ac6_eb61, LINEAR_SLOPE, HALF) == 0x40b0_0001);
    lemma_whole_known(0x40b0_0001, 0xb0_0001, 128, 0x20_0000);
    assert(0xc6_eb61 * 0xcd_e99a == 0xa000_0091_e15a);
    lemma_product_known(0x3ac6_eb61, 0x454d_e99a, 0xc6_eb61, 116, 0xcd_e99a, 137, 0xa000_0091_e15a, 48, 0x8000_0000_0000, 0x100_0000);
    assert(mul_spec(0x3ac6_eb61, LINEAR_SLOPE) == 0x40a0_0001);
    assert(0xa0_0001 * 0x8 + 0x80_0000 * 0x1 == 0x580_0008);
    lemma_sum_known(0x40a0_0001, 0x3f00_0000, false, 0xa0_0001, 128, 0x80_0000, 125, 0x8, 0x1, 0x580_0008, 27, 0x400_0000, 0x8);
    assert(mul_add_spec(0x3ac6_eb61, LINEAR_SLOPE, HALF) == 0x40b0_0001);
}

/// Code 6, on the linear piece.
proof fn lemma_code_6()
    ensures
        compress_u8_spec(0x3aee_b40e) == 6,
        compress_u8_precise_spec(0x3aee_b40e) == Step::Done(6u8),
{
    lemma2_to64();
    lemma2_to64_rest();
    lemma_up_to(0x3aee_b40e, FAST_START_AT);
    lemma_up_to(0x3aee_b40e, S_0);
    lemma_fused_known(0x3aee_b40e, 0x454d_e99a, 0x3f00_0000, 0xee_b40e, 116, 0xcd_e99a, 137, 0x80_0000, 125, 0x20_0000, 0xd000_00af_0e6c, 48, 0x8000_0000_0000, 0x100_0000);
    assert(fused_spec(0x3aee_b40e, LINEAR_SLOPE, HALF) == 0x40d0_0001);
    lemma_whole_known(0x40d0_0001, 0xd0_0001, 128, 0x20_0000);
    assert(0xee_b40e * 0xcd_e99a == 0xc000_00af_0e6c);
    lemma_product_known(0x3aee_b40e, 0x454d_e99a, 0xee_b40e, 116, 0xcd_e99a, 137, 0xc000_00af_0e6c, 48, 0x8000_0000_0000, 0x100_0000);
    assert(mul_spec(0x3aee_b40e, LINEAR_SLOPE) == 0x40c0_0001);
    assert(0xc0_0001 * 0x8 + 0x80_0000 * 0x1 == 0x680_0008);
    lemma_sum_known(0x40c0_0001, 0x3f00_0000, false, 0xc0_0001, 128, 0x80_0000, 125, 0x8, 0x1, 0x680_0008, 27, 0x400_0000, 0x8);
    assert(mul_add_spec(0x3aee_b40e, LINEAR_SLOPE, HALF) == 0x40d0_0001);
}

/// Code 7, on the linear piece.
proof fn lemma_code_7()
    ensures
        compress_u8_spec(0x3b0b_3e5d) == 7,
        compress_u8_precise_spec(0x3b0b_3e5d) == Step::Done(7u8),
{
    lemma2_to64();
    lemma2_to64_rest();
    lemma_up_to(0x3b0b_3e5d, FAST_START_AT);
    lemma_up_to(0x3b0b_3e5d, S_0);
    lemma_fused_known(0x3b0b_3e5d, 0x454d_e99a, 0x3f00_0000, 0x8b_3e5d, 117, 0xcd_e99a, 137, 0x80_0000, 125, 0x10_0000, 0x77ff_ffff_28f2, 47, 0x4000_0000_0000, 0x80_0000);
    assert(fused_spec(0x3b0b_3e5d, LINEAR_SLOPE, HALF) == 0x40f0_0000);
    lemma_whole_known(0x40f0_0000, 0xf0_0000, 128, 0x20_0000);
    assert(0x8b_3e5d * 0xcd_e99a == 0x6fff_ffff_28f2);
    lemma_product_known(0x3b0b_3e5d, 0x454d_e99a, 0x8b_3e5d, 117, 0xcd_e99a, 137, 0x6fff_ffff_28f2, 47, 0x4000_0000_0000, 0x80_0000);
    assert(mul_spec(0x3b0b_3e5d, LINEAR_SLOPE) == 0x40e0_0000);
    assert(0xe0_0000 * 0x8 + 0x80_0000 * 0x1 == 0x780_0000);
    lemma_sum_known(0x40e0_0000, 0x3f00_0000, false, 0xe0_0000, 128, 0x80_0000, 125, 0x8, 0x1, 0x780_0000, 27, 0x400_0000, 0x8);
    assert(mul_add_spec(0x3b0b_3e5d, LINEAR_SLOPE, HALF) == 0x40f0_0000);
}

/// Code 8, on the linear piece.
proof fn lemma_code_8()
    ensures
        compress_u8_spec(0x3b1f_22b4) == 8,
        compress_u8_precise_spec(0x3b1f_22b4) == Step::Done(8u8),
{
    lemma2_to64();
    lemma2_to64_rest();
    lemma_up_to(0x3b1f_22b4, FAST_START_AT);
    lemma_up_to(0x3b1f_22b4, S_0);
    lemma_fused_known(0x3b1f_22b4, 0x454d_e99a, 0x3f00_0000, 0x9f_22b4, 117, 0xcd_e99a, 137, 0x80_0000, 125, 0x10_0000, 0x8800_0074_b448, 48, 0x8000_0000_0000, 0x100_0000);
    assert(fused_spec(0x3b1f_22b4, LINEAR_SLOPE, HALF) == 0x4108_0000);
    lemma_whole_known(0x4108_0000, 0x88_0000, 129, 0x10_0000);
    assert(0x9f_22b4 * 0xcd_e99a == 0x8000_0074_b448);
    lemma_product_known(0x3b1f_22b4, 0x454d_e99a, 0x9f_22b4, 117, 0xcd_e99a, 137, 0x8000_0074_b448, 48, 0x8000_0000_0000, 0x100_0000);
    assert(mul_spec(0x3b1f_22b4, LINEAR_SLOPE) == 0x4100_0000);
    assert(0x80_0000 * 0x10 + 0x80_0000 * 0x1 == 0x880_0000);
    lemma_sum_known(0x4100_0000, 0x3f00_0000, false, 0x80_0000, 129, 0x80_0000, 125, 0x10, 0x1, 0x880_0000, 28, 0x800_0000, 0x10);
    assert(mul_add_spec(0x3b1f_22b4, LINEAR_SLOPE, HALF) == 0x4108_0000);
}

/// Code 9, on the linear piece.
proof fn lemma_code_9()
    ensures
        compress_u8_spec(0x3b33_070a) == 9,
        compress_u8_precise_spec(0x3b33_070a) == Step::Done(9u8),
{
    lemma2_to64();
    lemma2_to64_rest();
    lemma_up_to(0x3b33_070a, FAST_START_AT);
    lemma_up_to(0x3b33_070a, S_0);
    lemma_fused_known(0x3b33_070a, 0x454d_e99a, 0x3f00_0000, 0xb3_070a, 117, 0xcd_e99a, 137, 0x80_0000, 125, 0x10_0000, 0x9800_001c_5604, 48, 0x8000_0000_0000, 0x100_0000);
    assert(fused_spec(0x3b33_070a, LINEAR_SLOPE, HALF) == 0x4118_0000);
    lemma_whole_known(0x4118_0000, 0x98_0000, 129, 0x10_0000);
    assert(0xb3_070a * 0xcd_e99a == 0x9000_001c_5604);
    lemma_product_known(0x3b33_070a, 0x454d_e99a, 0xb3_070a, 117, 0xcd_e99a, 137, 0x9000_001c_5604, 48, 0x8000_0000_0000, 0x100_0000);
    assert(mul_spec(0x3b33_070a, LINEAR_SLOPE) == 0x4110_0000);
    assert(0x90_0000 * 0x10 + 0x80_0000 * 0x1 == 0x980_0000);
    lemma_sum_known(0x4110_0000, 0x3f00_0000, false, 0x90_0000, 129, 0x80_0000, 125, 0x10, 0x1, 0x980_0000, 28, 0x800_0000, 0x10);
    assert(mul_add_spec(0x3b33_070a, LINEAR_SLOPE, HALF) == 0x4118_0000);
}

/// Code 10, on the linear piece.
proof fn lemma_code_10()
    ensures
        compress_u8_spec(0x3b46_eb61) == 10,
        compress_u8_precise_spec(0x3b46_eb61) == Step::Done(10u8),
{
    lemma2_to64();
    lemma2_to64_rest();
    lemma_up_to(0x3b46_eb61, FAST_START_AT);
    lemma_up_to(0x3b46_eb61, S_0);
    lemma_fused_known(0x3b46_eb61, 0x454d_e99a, 0x3f00_0000, 0xc6_eb61, 117, 0xcd_e99a, 137, 0x80_0000, 125, 0x10_0000, 0xa800_0091_e15a, 48, 0x8000_0000_0000, 0x100_0000);
    assert(fused_spec(0x3b46_eb61, LINEAR_SLOPE, HALF) == 0x4128_0001);
    lemma_whole_known(0x4128_0001, 0xa8_0001, 129, 0x10_0000);
    assert(0xc6_eb61 * 0xcd_e99a == 0xa000_0091_e15a);
    lemma_product_known(0x3b46_eb61, 0x454d_e99a, 0xc6_eb61, 117, 0xcd_e99a, 137, 0xa000_0091_e15a, 48, 0x8000_0000_0000, 0x100_0000);
    assert(mul_spec(0x3b46_eb61, LINEAR_SLOPE) == 0x4120_0001);
    assert(0xa0_0001 * 0x10 + 0x80_0000 * 0x1 == 0xa80_0010);
    lemma_sum_known(0x4120_0001, 0x3f00_0000, false, 0xa0_0001, 129, 0x80_0000, 125, 0x10, 0x1, 0xa80_0010, 28, 0x800_0000, 0x10);
    assert(mul_add_spec(0x3b46_eb61, LINEAR_SLOPE, HALF) == 0x4128_0001);
}

/// Code 11.
proof fn lemma_code_11()
    ensures
        chord_code(0x3b5b_518e, 0x3b55_5e8d, 0x3b5d_5e8d, 0x4133_f4c4, 0x4139_8cfd) == 11,
{
    reveal(chord_code);
    lemma2_to64();
    lemma2_to64_rest();
    lemma_high_powers();
    assert(0xdd_5e8d * 0x1 - 0xd5_5e8d * 0x1 == 0x8_0000);
    lemma_sum_known(0x3b5d_5e8d, 0x3b55_5e8d, true, 0xdd_5e8d, 117, 0xd5_5e8d, 117, 0x1, 0x1, 0x8_0000, 20, 0x8_0000, 0x10);
    assert(sub_spec(0x3b5d_5e8d, 0x3b55_5e8d) == 0x3900_0000);
    assert(0xdb_518e * 0x1 - 0xd5_5e8d * 0x1 == 0x5_f301);
    lemma_sum_known(0x3b5b_518e, 0x3b55_5e8d, true, 0xdb_518e, 117, 0xd5_5e8d, 117, 0x1, 0x1, 0x5_f301, 19, 0x4_0000, 0x20);
    assert(sub_spec(0x3b5b_518e, 0x3b55_5e8d) == 0x38be_6020);
    assert(0xb9_8cfd * 0x1 - 0xb3_f4c4 * 0x1 == 0x5_9839);
    lemma_sum_known(0x4139_8cfd, 0x4133_f4c4, true, 0xb9_8cfd, 129, 0xb3_f4c4, 129, 0x1, 0x1, 0x5_9839, 19, 0x4_0000, 0x20);
    assert(sub_spec(0x4139_8cfd, 0x4133_f4c4) == 0x3eb3_0720);
    assert(0xb3_0720 * 0xbe_6020 == 0x8522_82cc_e400);
    lemma_product_known(0x3eb3_0720, 0x38be_6020, 0xb3_0720, 124, 0xbe_6020, 112, 0x8522_82cc_e400, 48, 0x8000_0000_0000, 0x100_0000);
    assert(mul_spec(0x3eb3_0720, 0x38be_6020) == 0x3805_2283);
    assert(0x85_2283 * 0x1_0000_0000_0000_0000 == 0x1_0a45_0600_0000_0000 * 0x80_0000 + 0x0);
    lemma_quotient_known(0x3805_2283, 0x3900_0000, 0x85_2283, 111, 0x80_0000, 113, 0x1_0a45_0600_0000_0000, 0x0, 66, 0x2_0000_0000_0000_0000, 0x400_0000_0000);
    assert(div_spec(0x3805_2283, 0x3900_0000) == 0x3e85_2283);
    assert(0xb3_f4c4 * 0x20 + 0x85_2283 * 0x1 == 0x1703_bb03);
    lemma_sum_known(0x4133_f4c4, 0x3e85_2283, false, 0xb3_f4c4, 129, 0x85_2283, 124, 0x20, 0x1, 0x1703_bb03, 29, 0x1000_0000, 0x20);
    assert(add_spec(0x4133_f4c4, 0x3e85_2283) == 0x4138_1dd8);
    lemma_whole_known(0x4138_1dd8, 0xb8_1dd8, 129, 0x10_0000);
}

/// Code 12.
proof fn lemma_code_12()
    ensures
        chord_code(0x3b70_f18f, 0x3b6d_5e8d, 0x3b75_5e8d, 0x4145_909d, 0x414b_a25f) == 12,
{
    reveal(chord_code);
    lemma2_to64();
    lemma2_to64_rest();
    lemma_high_powers();
    assert(0xf5_5e8d * 0x1 - 0xed_5e8d * 0x1 == 0x8_0000);
    lemma_sum_known(0x3b75_5e8d, 0x3b6d_5e8d, true, 0xf5_5e8d, 117, 0xed_5e8d, 117, 0x1, 0x1, 0x8_0000, 20, 0x8_0000, 0x10);
    assert(sub_spec(0x3b75_5e8d, 0x3b6d_5e8d) == 0x3900_0000);
    assert(0xf0_f18f * 0x1 - 0xed_5e8d * 0x1 == 0x3_9302);
    lemma_sum_known(0x3b70_f18f, 0x3b6d_5e8d, true, 0xf0_f18f, 117, 0xed_5e8d, 117, 0x1, 0x1, 0x3_9302, 18, 0x2_0000, 0x40);
    assert(sub_spec(0x3b70_f18f, 0x3b6d_5e8d) == 0x3864_c080);
    assert(0xcb_a25f * 0x1 - 0xc5_909d * 0x1 == 0x6_11c2);
    lemma_sum_known(0x414b_a25f, 0x4145_909d, true, 0xcb_a25f, 129, 0xc5_909d, 129, 0x1, 0x1, 0x6_11c2, 19, 0x4_0000, 0x20);
    assert(sub_spec(0x414b_a25f, 0x4145_909d) == 0x3ec2_3840);
    assert(0xc2_3840 * 0xe4_c080 == 0xad8c_244c_2000);
    lemma_product_known(0x3ec2_3840, 0x3864_c080, 0xc2_3840, 124, 0xe4_c080, 111, 0xad8c_244c_2000, 48, 0x8000_0000_0000, 0x100_0000);
    assert(mul_spec(0x3ec2_3840, 0x3864_c080) == 0x37ad_8c24);
    assert(0xad_8c24 * 0x1_0000_0000_0000_0000 == 0x1_5b18_4800_0000_0000 * 0x80_0000 + 0x0);
    lemma_quotient_known(0x37ad_8c24, 0x3900_0000, 0xad_8c24, 110, 0x80_0000, 113, 0x1_5b18_4800_0000_0000, 0x0, 66, 0x2_0000_0000_0000_0000, 0x400_0000_0000);
    assert(div_spec(0x37ad_8c24, 0x3900_0000) == 0x3e2d_8c24);
    assert(0xc5_909d * 0x40 + 0xad_8c24 * 0x1 == 0x3211_b364);
    lemma_sum_known(0x4145_909d, 0x3e2d_8c24, false, 0xc5_909d, 129, 0xad_8c24, 123, 0x40, 0x1, 0x3211_b364, 30, 0x2000_0000, 0x40);
    assert(add_spec(0x4145_909d, 0x3e2d_8c24) == 0x4148_46ce);
    lemma_whole_known(0x4148_46ce, 0xc8_46ce, 129, 0x10_0000);
}

/// Code 13.
proof fn lemma_code_13()
    ensures
        chord_code(0x3b83_e1c6, 0x3b7d_5e8d, 0x3b85_5e8d, 0x4151_8227, 0x415a_357d) == 13,
{
    reveal(chord_code);
    lemma2_to64();
    lemma2_to64_rest();
    lemma_high_powers();
    assert(0x85_5e8d * 0x2 - 0xfd_5e8d * 0x1 == 0xd_5e8d);
    lemma_sum_known(0x3b85_5e8d, 0x3b7d_5e8d, true, 0x85_5e8d, 118, 0xfd_5e8d, 117, 0x2, 0x1, 0xd_5e8d, 20, 0x8_0000, 0x10);
    assert(sub_spec(0x3b85_5e8d, 0x3b7d_5e8d) == 0x3955_e8d0);
    assert(0x83_e1c6 * 0x2 - 0xfd_5e8d * 0x1 == 0xa_64ff);
    lemma_sum_known(0x3b83_e1c6, 0x3b7d_5e8d, true, 0x83_e1c6, 118, 0xfd_5e8d, 117, 0x2, 0x1, 0xa_64ff, 20, 0x8_0000, 0x10);
    assert(sub_spec(0x3b83_e1c6, 0x3b7d_5e8d) == 0x3926_4ff0);
    assert(0xda_357d * 0x1 - 0xd1_8227 * 0x1 == 0x8_b356);
    lemma_sum_known(0x415a_357d, 0x4151_8227, true, 0xda_357d, 129, 0xd1_8227, 129, 0x1, 0x1, 0x8_b356, 20, 0x8_0000, 0x10);
    assert(sub_spec(0x415a_357d, 0x4151_8227) == 0x3f0b_3560);
    assert(0x8b_3560 * 0xa6_4ff0 == 0x5a70_143a_aa00);
    lemma_product_known(0x3f0b_3560, 0x3926_4ff0, 0x8b_3560, 125, 0xa6_4ff0, 113, 0x5a70_143a_aa00, 47, 0x4000_0000_0000, 0x80_0000);
    assert(mul_spec(0x3f0b_3560, 0x3926_4ff0) == 0x38b4_e028);
    assert(0xb4_e028 * 0x1_0000_0000_0000_0000 == 0xd877_57b2_8c8a_e448 * 0xd5_e8d0 + 0x5d_4580);
    lemma_quotient_known(0x38b4_e028, 0x3955_e8d0, 0xb4_e028, 112, 0xd5_e8d0, 113, 0xd877_57b2_8c8a_e448, 0x5d_4580, 65, 0x1_0000_0000_0000_0000, 0x200_0000_0000);
    assert(div_spec(0x38b4_e028, 0x3955_e8d0) == 0x3ed8_7758);
    assert(0xd1_8227 * 0x20 + 0xd8_7758 * 0x1 == 0x1b08_bc38);
    lemma_sum_known(0x4151_8227, 0x3ed8_7758, false, 0xd1_8227, 129, 0xd8_7758, 124, 0x20, 0x1, 0x1b08_bc38, 29, 0x1000_0000, 0x20);
    assert(add_spec(0x4151_8227, 0x3ed8_7758) == 0x4158_45e2);
    lemma_whole_known(0x4158_45e2, 0xd8_45e2, 129, 0x10_0000);
}

/// Code 14.
proof fn lemma_code_14()
    ensures
        chord_code(0x3b8f_e616, 0x3b8d_5e8d, 0x3b95_5e8d, 0x4164_afdf, 0x416e_c765) == 14,
{
    reveal(chord_code);
    lemma2_to64();
    lemma2_to64_rest();
    lemma_high_powers();
    assert(0x95_5e8d * 0x1 - 0x8d_5e8d * 0x1 == 0x8_0000);
    lemma_sum_known(0x3b95_5e8d, 0x3b8d_5e8d, true, 0x95_5e8d, 118, 0x8d_5e8d, 118, 0x1, 0x1, 0x8_0000, 20, 0x8_0000, 0x10);
    assert(sub_spec(0x3b95_5e8d, 0x3b8d_5e8d) == 0x3980_0000);
    assert(0x8f_e616 * 0x1 - 0x8d_5e8d * 0x1 == 0x2_8789);
    lemma_sum_known(0x3b8f_e616, 0x3b8d_5e8d, true, 0x8f_e616, 118, 0x8d_5e8d, 118, 0x1, 0x1, 0x2_8789, 18, 0x2_0000, 0x40);
    assert(sub_spec(0x3b8f_e616, 0x3b8d_5e8d) == 0x38a1_e240);
    assert(0xee_c765 * 0x1 - 0xe4_afdf * 0x1 == 0xa_1786);
    lemma_sum_known(0x416e_c765, 0x4164_afdf, true, 0xee_c765, 129, 0xe4_afdf, 129, 0x1, 0x1, 0xa_1786, 20, 0x8_0000, 0x10);
    assert(sub_spec(0x416e_c765, 0x4164_afdf) == 0x3f21_7860);
    assert(0xa1_7860 * 0xa1_e240 == 0x661b_6902_d800);
    lemma_product_known(0x3f21_7860, 0x38a1_e240, 0xa1_7860, 125, 0xa1_e240, 112, 0x661b_6902_d800, 47, 0x4000_0000_0000, 0x80_0000);
    assert(mul_spec(0x3f21_7860, 0x38a1_e240) == 0x384c_36d2);
    assert(0xcc_36d2 * 0x1_0000_0000_0000_0000 == 0x1_986d_a400_0000_0000 * 0x80_0000 + 0x0);
    lemma_quotient_known(0x384c_36d2, 0x3980_0000, 0xcc_36d2, 111, 0x80_0000, 114, 0x1_986d_a400_0000_0000, 0x0, 66, 0x2_0000_0000_0000_0000, 0x400_0000_0000);
    assert(div_spec(0x384c_36d2, 0x3980_0000) == 0x3e4c_36d2);
    assert(0xe4_afdf * 0x40 + 0xcc_36d2 * 0x1 == 0x39f8_2e92);
    lemma_sum_known(0x4164_afdf, 0x3e4c_36d2, false, 0xe4_afdf, 129, 0xcc_36d2, 123, 0x40, 0x1, 0x39f8_2e92, 30, 0x2000_0000, 0x40);
    assert(add_spec(0x4164_afdf, 0x3e4c_36d2) == 0x4167_e0ba);
    lemma_whole_known(0x4167_e0ba, 0xe7_e0ba, 129, 0x10_0000);
}

/// Code 15.
proof fn lemma_code_15()
    ensures
        chord_code(0x3b9c_87fd, 0x3b95_5e8d, 0x3b9d_5e8d, 0x416e_c765, 0x4179_1f3d) == 15,
{
    reveal(chord_code);
    lemma2_to64();
    lemma2_to64_rest();
    lemma_high_powers();
    assert(0x9d_5e8d * 0x1 - 0x95_5e8d * 0x1 == 0x8_0000);
    lemma_sum_known(0x3b9d_5e8d, 0x3b95_5e8d, true, 0x9d_5e8d, 118, 0x95_5e8d, 118, 0x1, 0x1, 0x8_0000, 20, 0x8_0000, 0x10);
    assert(sub_spec(0x3b9d_5e8d, 0x3b95_5e8d) == 0x3980_0000);
    assert(0x9c_87fd * 0x1 - 0x95_5e8d * 0x1 == 0x7_2970);
    lemma_sum_known(0x3b9c_87fd, 0x3b95_5e8d, true, 0x9c_87fd, 118, 0x95_5e8d, 118, 0x1, 0x1, 0x7_2970, 19, 0x4_0000, 0x20);
    assert(sub_spec(0x3b9c_87fd, 0x3b95_5e8d) == 0x3965_2e00);
    assert(0xf9_1f3d * 0x1 - 0xee_c765 * 0x1 == 0xa_57d8);
    lemma_sum_known(0x4179_1f3d, 0x416e_c765, true, 0xf9_1f3d, 129, 0xee_c765, 129, 0x1, 0x1, 0xa_57d8, 20, 0x8_0000, 0x10);
    assert(sub_spec(0x4179_1f3d, 0x416e_c765) == 0x3f25_7d80);
    assert(0xa5_7d80 * 0xe5_2e00 == 0x9427_000d_0000);
    lemma_product_known(0x3f25_7d80, 0x3965_2e00, 0xa5_7d80, 125, 0xe5_2e00, 113, 0x9427_000d_0000, 48, 0x8000_0000_0000, 0x100_0000);
    assert(mul_spec(0x3f25_7d80, 0x3965_2e00) == 0x3914_2700);
    assert(0x94_2700 * 0x1_0000_0000_0000_0000 == 0x1_284e_0000_0000_0000 * 0x80_0000 + 0x0);
    lemma_quotient_known(0x3914_2700, 0x3980_0000, 0x94_2700, 113, 0x80_0000, 114, 0x1_284e_0000_0000_0000, 0x0, 66, 0x2_0000_0000_0000_0000, 0x400_0000_0000);
    assert(div_spec(0x3914_2700, 0x3980_0000) == 0x3f14_2700);
    assert(0xee_c765 * 0x10 + 0x94_2700 * 0x1 == 0xf80_9d50);
    lemma_sum_known(0x416e_c765, 0x3f14_2700, false, 0xee_c765, 129, 0x94_2700, 125, 0x10, 0x1, 0xf80_9d50, 28, 0x800_0000, 0x10);
    assert(add_spec(0x416e_c765, 0x3f14_2700) == 0x4178_09d5);
    lemma_whole_known(0x4178_09d5, 0xf8_09d5, 129, 0x10_0000);
}

/// Code 16.
proof fn lemma_code_16()
    ensures
        chord_code(0x3ba9_c9b6, 0x3ba5_5e8d, 0x3bad_5e8d, 0x4181_adb6, 0x4186_1da3) == 16,
{
    reveal(chord_code);
    lemma2_to64();
    lemma2_to64_rest();
    lemma_high_powers();
    assert(0xad_5e8d * 0x1 - 0xa5_5e8d * 0x1 == 0x8_0000);
    lemma_sum_known(0x3bad_5e8d, 0x3ba5_5e8d, true, 0xad_5e8d, 118, 0xa5_5e8d, 118, 0x1, 0x1, 0x8_0000, 20, 0x8_0000, 0x10);
    assert(sub_spec(0x3bad_5e8d, 0x3ba5_5e8d) == 0x3980_0000);
    assert(0xa9_c9b6 * 0x1 - 0xa5_5e8d * 0x1 == 0x4_6b29);
    lemma_sum_known(0x3ba9_c9b6, 0x3ba5_5e8d, true, 0xa9_c9b6, 118, 0xa5_5e8d, 118, 0x1, 0x1, 0x4_6b29, 19, 0x4_0000, 0x20);
    assert(sub_spec(0x3ba9_c9b6, 0x3ba5_5e8d) == 0x390d_6520);
    assert(0x86_1da3 * 0x1 - 0x81_adb6 * 0x1 == 0x4_6fed);
    lemma_sum_known(0x4186_1da3, 0x4181_adb6, true, 0x86_1da3, 130, 0x81_adb6, 130, 0x1, 0x1, 0x4_6fed, 19, 0x4_0000, 0x20);
    assert(sub_spec(0x4186_1da3, 0x4181_adb6) == 0x3f0d_fda0);
    assert(0x8d_fda0 * 0x8d_6520 == 0x4e6c_c7ef_d400);
    lemma_product_known(0x3f0d_fda0, 0x390d_6520, 0x8d_fda0, 125, 0x8d_6520, 113, 0x4e6c_c7ef_d400, 47, 0x4000_0000_0000, 0x80_0000);
    assert(mul_spec(0x3f0d_fda0, 0x390d_6520) == 0x389c_d990);
    assert(0x9c_d990 * 0x1_0000_0000_0000_0000 == 0x1_39b3_2000_0000_0000 * 0x80_0000 + 0x0);
    lemma_quotient_known(0x389c_d990, 0x3980_0000, 0x9c_d990, 112, 0x80_0000, 114, 0x1_39b3_2000_0000_0000, 0x0, 66, 0x2_0000_0000_0000_0000, 0x400_0000_0000);
    assert(div_spec(0x389c_d990, 0x3980_0000) == 0x3e9c_d990);
    assert(0x81_adb6 * 0x40 + 0x9c_d990 * 0x1 == 0x2108_4710);
    lemma_sum_known(0x4181_adb6, 0x3e9c_d990, false, 0x81_adb6, 130, 0x9c_d990, 124, 0x40, 0x1, 0x2108_4710, 30, 0x2000_0000, 0x40);
    assert(add_spec(0x4181_adb6, 0x3e9c_d990) == 0x4184_211c);
    lemma_whole_known(0x4184_211c, 0x84_211c, 130, 0x8_0000);
}

/// Code 17.
proof fn lemma_code_17()
    ensures
        chord_code(0x3bb7_ad6f, 0x3bb5_5e8d, 0x3bbd_5e8d, 0x418a_b2b2, 0x418f_2bbc) == 17,
{
    reveal(chord_code);
    lemma2_to64();
    lemma2_to64_rest();
    lemma_high_powers();
    assert(0xbd_5e8d * 0x1 - 0xb5_5e8d * 0x1 == 0x8_0000);
    lemma_sum_known(0x3bbd_5e8d, 0x3bb5_5e8d, true, 0xbd_5e8d, 118, 0xb5_5e8d, 118, 0x1, 0x1, 0x8_0000, 20, 0x8_0000, 0x10);
    assert(sub_spec(0x3bbd_5e8d, 0x3bb5_5e8d) == 0x3980_0000);
    assert(0xb7_ad6f * 0x1 - 0xb5_5e8d * 0x1 == 0x2_4ee2);
    lemma_sum_known(0x3bb7_ad6f, 0x3bb5_5e8d, true, 0xb7_ad6f, 118, 0xb5_5e8d, 118, 0x1, 0x1, 0x2_4ee2, 18, 0x2_0000, 0x40);
    assert(sub_spec(0x3bb7_ad6f, 0x3bb5_5e8d) == 0x3893_b880);
    assert(0x8f_2bbc * 0x1 - 0x8a_b2b2 * 0x1 == 0x4_790a);
    lemma_sum_known(0x418f_2bbc, 0x418a_b2b2, true, 0x8f_2bbc, 130, 0x8a_b2b2, 130, 0x1, 0x1, 0x4_790a, 19, 0x4_0000, 0x20);
    assert(sub_spec(0x418f_2bbc, 0x418a_b2b2) == 0x3f0f_2140);
    assert(0x8f_2140 * 0x93_b880 == 0x5297_3f36_a000);
    lemma_product_known(0x3f0f_2140, 0x3893_b880, 0x8f_2140, 125, 0x93_b880, 112, 0x5297_3f36_a000, 47, 0x4000_0000_0000, 0x80_0000);
    assert(mul_spec(0x3f0f_2140, 0x3893_b880) == 0x3825_2e7e);
    assert(0xa5_2e7e * 0x1_0000_0000_0000_0000 == 0x1_4a5c_fc00_0000_0000 * 0x80_0000 + 0x0);
    lemma_quotient_known(0x3825_2e7e, 0x3980_0000, 0xa5_2e7e, 111, 0x80_0000, 114, 0x1_4a5c_fc00_0000_0000, 0x0, 66, 0x2_0000_0000_0000_0000, 0x400_0000_0000);
    assert(div_spec(0x3825_2e7e, 0x3980_0000) == 0x3e25_2e7e);
    assert(0x8a_b2b2 * 0x80 + 0xa5_2e7e * 0x1 == 0x45fe_877e);
    lemma_sum_known(0x418a_b2b2, 0x3e25_2e7e, false, 0x8a_b2b2, 130, 0xa5_2e7e, 123, 0x80, 0x1, 0x45fe_877e, 31, 0x4000_0000, 0x80);
    assert(add_spec(0x418a_b2b2, 0x3e25_2e7e) == 0x418b_fd0f);
    lemma_whole_known(0x418b_fd0f, 0x8b_fd0f, 130, 0x8_0000);
}

/// Code 18.
proof fn lemma_code_18()
    ensures
        chord_code(0x3bc6_354a, 0x3bc5_5e8d, 0x3bcd_5e8d, 0x4193_cd32, 0x4198_0568) == 18,
{
    reveal(chord_code);
    lemma2_to64();
    lemma2_to64_rest();
    lemma_high_powers();
    assert(0xcd_5e8d * 0x1 - 0xc5_5e8d * 0x1 == 0x8_0000);
    lemma_sum_known(0x3bcd_5e8d, 0x3bc5_5e8d, true, 0xcd_5e8d, 118, 0xc5_5e8d, 118, 0x1, 0x1, 0x8_0000, 20, 0x8_0000, 0x10);
    assert(sub_spec(0x3bcd_5e8d, 0x3bc5_5e8d) == 0x3980_0000);
    assert(0xc6_354a * 0x1 - 0xc5_5e8d * 0x1 == 0xd6bd);
    lemma_sum_known(0x3bc6_354a, 0x3bc5_5e8d, true, 0xc6_354a, 118, 0xc5_5e8d, 118, 0x1, 0x1, 0xd6bd, 16, 0x8000, 0x100);
    assert(sub_spec(0x3bc6_354a, 0x3bc5_5e8d) == 0x37d6_bd00);
    assert(0x98_0568 * 0x1 - 0x93_cd32 * 0x1 == 0x4_3836);
    lemma_sum_known(0x4198_0568, 0x4193_cd32, true, 0x98_0568, 130, 0x93_cd32, 130, 0x1, 0x1, 0x4_3836, 19, 0x4_0000, 0x20);
    assert(sub_spec(0x4198_0568, 0x4193_cd32) == 0x3f07_06c0);
    assert(0x87_06c0 * 0xd6_bd00 == 0x7143_547b_c000);
    lemma_product_known(0x3f07_06c0, 0x37d6_bd00, 0x87_06c0, 125, 0xd6_bd00, 110, 0x7143_547b_c000, 47, 0x4000_0000_0000, 0x80_0000);
    assert(mul_spec(0x3f07_06c0, 0x37d6_bd00) == 0x3762_86a9);
    assert(0xe2_86a9 * 0x1_0000_0000_0000_0000 == 0x1_c50d_5200_0000_0000 * 0x80_0000 + 0x0);
    lemma_quotient_known(0x3762_86a9, 0x3980_0000, 0xe2_86a9, 109, 0x80_0000, 114, 0x1_c50d_5200_0000_0000, 0x0, 66, 0x2_0000_0000_0000_0000, 0x400_0000_0000);
    assert(div_spec(0x3762_86a9, 0x3980_0000) == 0x3d62_86a9);
    assert(0x93_cd32 * 0x200 + 0xe2_86a9 * 0x1 == 0x1_287c_eaa9);
    lemma_sum_known(0x4193_cd32, 0x3d62_86a9, false, 0x93_cd32, 130, 0xe2_86a9, 121, 0x200, 0x1, 0x1_287c_eaa9, 33, 0x1_0000_0000, 0x200);
    assert(add_spec(0x4193_cd32, 0x3d62_86a9) == 0x4194_3e75);
    lemma_whole_known(0x4194_3e75, 0x94_3e75, 130, 0x8_0000);
}

/// Code 19.
proof fn lemma_code_19()
    ensures
        chord_code(0x3bd5_6360, 0x3bd5_5e8d, 0x3bdd_5e8d, 0x419c_2ef9, 0x41a0_5477) == 19,
{
    reveal(chord_code);
    lemma2_to64();
    lemma2_to64_rest();
    lemma_high_powers();
    assert(0xdd_5e8d * 0x1 - 0xd5_5e8d * 0x1 == 0x8_0000);
    lemma_sum_known(0x3bdd_5e8d, 0x3bd5_5e8d, true, 0xdd_5e8d, 118, 0xd5_5e8d, 118, 0x1, 0x1, 0x8_0000, 20, 0x8_0000, 0x10);
    assert(sub_spec(0x3bdd_5e8d, 0x3bd5_5e8d) == 0x3980_0000);
    assert(0xd5_6360 * 0x1 - 0xd5_5e8d * 0x1 == 0x4d3);
    lemma_sum_known(0x3bd5_6360, 0x3bd5_5e8d, true, 0xd5_6360, 118, 0xd5_5e8d, 118, 0x1, 0x1, 0x4d3, 11, 0x400, 0x2000);
    assert(sub_spec(0x3bd5_6360, 0x3bd5_5e8d) == 0x351a_6000);
    assert(0xa0_5477 * 0x1 - 0x9c_2ef9 * 0x1 == 0x4_257e);
    lemma_sum_known(0x41a0_5477, 0x419c_2ef9, true, 0xa0_5477, 130, 0x9c_2ef9, 130, 0x1, 0x1, 0x4_257e, 19, 0x4_0000, 0x20);
    assert(sub_spec(0x41a0_5477, 0x419c_2ef9) == 0x3f04_afc0);
    assert(0x84_afc0 * 0x9a_6000 == 0x5003_7b68_0000);
    lemma_product_known(0x3f04_afc0, 0x351a_6000, 0x84_afc0, 125, 0x9a_6000, 105, 0x5003_7b68_0000, 47, 0x4000_0000_0000, 0x80_0000);
    assert(mul_spec(0x3f04_afc0, 0x351a_6000) == 0x34a0_06f7);
    assert(0xa0_06f7 * 0x1_0000_0000_0000_0000 == 0x1_400d_ee00_0000_0000 * 0x80_0000 + 0x0);
    lemma_quotient_known(0x34a0_06f7, 0x3980_0000, 0xa0_06f7, 104, 0x80_0000, 114, 0x1_400d_ee00_0000_0000, 0x0, 66, 0x2_0000_0000_0000_0000, 0x400_0000_0000);
    assert(div_spec(0x34a0_06f7, 0x3980_0000) == 0x3aa0_06f7);
    assert(0x9c_2ef9 * 0x4000 + 0xa0_06f7 * 0x1 == 0x27_0c5e_46f7);
    lemma_sum_known(0x419c_2ef9, 0x3aa0_06f7, false, 0x9c_2ef9, 130, 0xa0_06f7, 116, 0x4000, 0x1, 0x27_0c5e_46f7, 38, 0x20_0000_0000, 0x4000);
    assert(add_spec(0x419c_2ef9, 0x3aa0_06f7) == 0x419c_3179);
    lemma_whole_known(0x419c_3179, 0x9c_3179, 130, 0x8_0000);
}

/// Code 20.
proof fn lemma_code_20()
    ensures
        chord_code(0x3be5_39c1, 0x3bdd_5e8d, 0x3be5_5e8d, 0x41a0_5477, 0x41a3_906f) == 20,
{
    reveal(chord_code);
    lemma2_to64();
    lemma2_to64_rest();
    lemma_high_powers();
    assert(0xe5_5e8d * 0x1 - 0xdd_5e8d * 0x1 == 0x8_0000);
    lemma_sum_known(0x3be5_5e8d, 0x3bdd_5e8d, true, 0xe5_5e8d, 118, 0xdd_5e8d, 118, 0x1, 0x1, 0x8_0000, 20, 0x8_0000, 0x10);
    assert(sub_spec(0x3be5_5e8d, 0x3bdd_5e8d) == 0x3980_0000);
    assert(0xe5_39c1 * 0x1 - 0xdd_5e8d * 0x1 == 0x7_db34);
    lemma_sum_known(0x3be5_39c1, 0x3bdd_5e8d, true, 0xe5_39c1, 118, 0xdd_5e8d, 118, 0x1, 0x1, 0x7_db34, 19, 0x4_0000, 0x20);
    assert(sub_spec(0x3be5_39c1, 0x3bdd_5e8d) == 0x397b_6680);
    assert(0xa3_906f * 0x1 - 0xa0_5477 * 0x1 == 0x3_3bf8);
    lemma_sum_known(0x41a3_906f, 0x41a0_5477, true, 0xa3_906f, 130, 0xa0_5477, 130, 0x1, 0x1, 0x3_3bf8, 18, 0x2_0000, 0x40);
    assert(sub_spec(0x41a3_906f, 0x41a0_5477) == 0x3ece_fe00);
    assert(0xce_fe00 * 0xfb_6680 == 0xcb45_eab3_0000);
    lemma_product_known(0x3ece_fe00, 0x397b_6680, 0xce_fe00, 124, 0xfb_6680, 113, 0xcb45_eab3_0000, 48, 0x8000_0000_0000, 0x100_0000);
    assert(mul_spec(0x3ece_fe00, 0x397b_6680) == 0x38cb_45eb);
    assert(0xcb_45eb * 0x1_0000_0000_0000_0000 == 0x1_968b_d600_0000_0000 * 0x80_0000 + 0x0);
    lemma_quotient_known(0x38cb_45eb, 0x3980_0000, 0xcb_45eb, 112, 0x80_0000, 114, 0x1_968b_d600_0000_0000, 0x0, 66, 0x2_0000_0000_0000_0000, 0x400_0000_0000);
    assert(div_spec(0x38cb_45eb, 0x3980_0000) == 0x3ecb_45eb);
    assert(0xa0_5477 * 0x40 + 0xcb_45eb * 0x1 == 0x28e0_63ab);
    lemma_sum_known(0x41a0_5477, 0x3ecb_45eb, false, 0xa0_5477, 130, 0xcb_45eb, 124, 0x40, 0x1, 0x28e0_63ab, 30, 0x2000_0000, 0x40);
    assert(add_spec(0x41a0_5477, 0x3ecb_45eb) == 0x41a3_818f);
    lemma_whole_known(0x41a3_818f, 0xa3_818f, 130, 0x8_0000);
}

/// Code 21.
proof fn lemma_code_21()
    ensures
        chord_code(0x3bf5_ba71, 0x3bf5_5e8d, 0x3bfd_5e8d, 0x41ab_c359, 0x41af_a86c) == 21,
{
    reveal(chord_code);
    lemma2_to64();
    lemma2_to64_rest();
    lemma_high_powers();
    assert(0xfd_5e8d * 0x1 - 0xf5_5e8d * 0x1 == 0x8_0000);
    lemma_sum_known(0x3bfd_5e8d, 0x3bf5_5e8d, true, 0xfd_5e8d, 118, 0xf5_5e8d, 118, 0x1, 0x1, 0x8_0000, 20, 0x8_0000, 0x10);
    assert(sub_spec(0x3bfd_5e8d, 0x3bf5_5e8d) == 0x3980_0000);
    assert(0xf5_ba71 * 0x1 - 0xf5_5e8d * 0x1 == 0x5be4);
    lemma_sum_known(0x3bf5_ba71, 0x3bf5_5e8d, true, 0xf5_ba71, 118, 0xf5_5e8d, 118, 0x1, 0x1, 0x5be4, 15, 0x4000, 0x200);
    assert(sub_spec(0x3bf5_ba71, 0x3bf5_5e8d) == 0x3737_c800);
    assert(0xaf_a86c * 0x1 - 0xab_c359 * 0x1 == 0x3_e513);
    lemma_sum_known(0x41af_a86c, 0x41ab_c359, true, 0xaf_a86c, 130, 0xab_c359, 130, 0x1, 0x1, 0x3_e513, 18, 0x2_0000, 0x40);
    assert(sub_spec(0x41af_a86c, 0x41ab_c359) == 0x3ef9_44c0);
    assert(0xf9_44c0 * 0xb7_c800 == 0xb2f2_e2f6_0000);
    lemma_product_known(0x3ef9_44c0, 0x3737_c800, 0xf9_44c0, 124, 0xb7_c800, 109, 0xb2f2_e2f6_0000, 48, 0x8000_0000_0000, 0x100_0000);
    assert(mul_spec(0x3ef9_44c0, 0x3737_c800) == 0x36b2_f2e3);
    assert(0xb2_f2e3 * 0x1_0000_0000_0000_0000 == 0x1_65e5_c600_0000_0000 * 0x80_0000 + 0x0);
    lemma_quotient_known(0x36b2_f2e3, 0x3980_0000, 0xb2_f2e3, 108, 0x80_0000, 114, 0x1_65e5_c600_0000_0000, 0x0, 66, 0x2_0000_0000_0000_0000, 0x400_0000_0000);
    assert(div_spec(0x36b2_f2e3, 0x3980_0000) == 0x3cb2_f2e3);
    assert(0xab_c359 * 0x400 + 0xb2_f2e3 * 0x1 == 0x2_afc0_56e3);
    lemma_sum_known(0x41ab_c359, 0x3cb2_f2e3, false, 0xab_c359, 130, 0xb2_f2e3, 120, 0x400, 0x1, 0x2_afc0_56e3, 34, 0x2_0000_0000, 0x400);
    assert(add_spec(0x41ab_c359, 0x3cb2_f2e3) == 0x41ab_f016);
    lemma_whole_known(0x41ab_f016, 0xab_f016, 130, 0x8_0000);
}

/// Code 22.
proof fn lemma_code_22()
    ensures
        chord_code(0x3c03_73b6, 0x3bfd_5e8d, 0x3c05_5e8d, 0x41af_a86c, 0x41b5_ed23) == 22,
{
    reveal(chord_code);
    lemma2_to64();
    lemma2_to64_rest();
    lemma_high_powers();
    assert(0x85_5e8d * 0x2 - 0xfd_5e8d * 0x1 == 0xd_5e8d);
    lemma_sum_known(0x3c05_5e8d, 0x3bfd_5e8d, true, 0x85_5e8d, 119, 0xfd_5e8d, 118, 0x2, 0x1, 0xd_5e8d, 20, 0x8_0000, 0x10);
    assert(sub_spec(0x3c05_5e8d, 0x3bfd_5e8d) == 0x39d5_e8d0);
    assert(0x83_73b6 * 0x2 - 0xfd_5e8d * 0x1 == 0x9_88df);
    lemma_sum_known(0x3c03_73b6, 0x3bfd_5e8d, true, 0x83_73b6, 119, 0xfd_5e8d, 118, 0x2, 0x1, 0x9_88df, 20, 0x8_0000, 0x10);
    assert(sub_spec(0x3c03_73b6, 0x3bfd_5e8d) == 0x3998_8df0);
    assert(0xb5_ed23 * 0x1 - 0xaf_a86c * 0x1 == 0x6_44b7);
    lemma_sum_known(0x41b5_ed23, 0x41af_a86c, true, 0xb5_ed23, 130, 0xaf_a86c, 130, 0x1, 0x1, 0x6_44b7, 19, 0x4_0000, 0x20);
    assert(sub_spec(0x41b5_ed23, 0x41af_a86c) == 0x3f48_96e0);
    assert(0xc8_96e0 * 0x98_8df0 == 0x7788_cc26_d200);
    lemma_product_known(0x3f48_96e0, 0x3998_8df0, 0xc8_96e0, 125, 0x98_8df0, 114, 0x7788_cc26_d200, 47, 0x4000_0000_0000, 0x80_0000);
    assert(mul_spec(0x3f48_96e0, 0x3998_8df0) == 0x396f_1198);
    assert(0xef_1198 * 0x1_0000_0000_0000_0000 == 0x1_1e1c_1f4f_0e52_ac65 * 0xd5_e8d0 + 0x8f_65f0);
    lemma_quotient_known(0x396f_1198, 0x39d5_e8d0, 0xef_1198, 113, 0xd5_e8d0, 114, 0x1_1e1c_1f4f_0e52_ac65, 0x8f_65f0, 66, 0x2_0000_0000_0000_0000, 0x400_0000_0000);
    assert(div_spec(0x396f_1198, 0x39d5_e8d0) == 0x3f0f_0e10);
    assert(0xaf_a86c * 0x20 + 0x8f_0e10 * 0x1 == 0x1684_1b90);
    lemma_sum_known(0x41af_a86c, 0x3f0f_0e10, false, 0xaf_a86c, 130, 0x8f_0e10, 125, 0x20, 0x1, 0x1684_1b90, 29, 0x1000_0000, 0x20);
    assert(add_spec(0x41af_a86c, 0x3f0f_0e10) == 0x41b4_20dc);
    lemma_whole_known(0x41b4_20dc, 0xb4_20dc, 130, 0x8_0000);
}

/// Code 23.
proof fn lemma_code_23()
    ensures
        chord_code(0x3c0c_6153, 0x3c05_5e8d, 0x3c0d_5e8d, 0x41b5_ed23, 0x41bd_0980) == 23,
{
    reveal(chord_code);
    lemma2_to64();
    lemma2_to64_rest();
    lemma_high_powers();
    assert(0x8d_5e8d * 0x1 - 0x85_5e8d * 0x1 == 0x8_0000);
    lemma_sum_known(0x3c0d_5e8d, 0x3c05_5e8d, true, 0x8d_5e8d, 119, 0x85_5e8d, 119, 0x1, 0x1, 0x8_0000, 20, 0x8_0000, 0x10);
    assert(sub_spec(0x3c0d_5e8d, 0x3c05_5e8d) == 0x3a00_0000);
    assert(0x8c_6153 * 0x1 - 0x85_5e8d * 0x1 == 0x7_02c6);
    lemma_sum_known(0x3c0c_6153, 0x3c05_5e8d, true, 0x8c_6153, 119, 0x85_5e8d, 119, 0x1, 0x1, 0x7_02c6, 19, 0x4_0000, 0x20);
    assert(sub_spec(0x3c0c_6153, 0x3c05_5e8d) == 0x39e0_58c0);
    assert(0xbd_0980 * 0x1 - 0xb5_ed23 * 0x1 == 0x7_1c5d);
    lemma_sum_known(0x41bd_0980, 0x41b5_ed23, true, 0xbd_0980, 130, 0xb5_ed23, 130, 0x1, 0x1, 0x7_1c5d, 19, 0x4_0000, 0x20);
    assert(sub_spec(0x41bd_0980, 0x41b5_ed23) == 0x3f63_8ba0);
    assert(0xe3_8ba0 * 0xe0_58c0 == 0xc769_0ea7_b800);
    lemma_product_known(0x3f63_8ba0, 0x39e0_58c0, 0xe3_8ba0, 125, 0xe0_58c0, 114, 0xc769_0ea7_b800, 48, 0x8000_0000_0000, 0x100_0000);
    assert(mul_spec(0x3f63_8ba0, 0x39e0_58c0) == 0x39c7_690f);
    assert(0xc7_690f * 0x1_0000_0000_0000_0000 == 0x1_8ed2_1e00_0000_0000 * 0x80_0000 + 0x0);
    lemma_quotient_known(0x39c7_690f, 0x3a00_0000, 0xc7_690f, 114, 0x80_0000, 115, 0x1_8ed2_1e00_0000_0000, 0x0, 66, 0x2_0000_0000_0000_0000, 0x400_0000_0000);
    assert(div_spec(0x39c7_690f, 0x3a00_0000) == 0x3f47_690f);
    assert(0xb5_ed23 * 0x20 + 0xc7_690f * 0x1 == 0x1785_0d6f);
    lemma_sum_known(0x41b5_ed23, 0x3f47_690f, false, 0xb5_ed23, 130, 0xc7_690f, 125, 0x20, 0x1, 0x1785_0d6f, 29, 0x1000_0000, 0x20);
    assert(add_spec(0x41b5_ed23, 0x3f47_690f) == 0x41bc_286b);
    lemma_whole_known(0x41bc_286b, 0xbc_286b, 130, 0x8_0000);
}

/// Code 24.
proof fn lemma_code_24()
    ensures
        chord_code(0x3c15_a705, 0x3c15_5e8d, 0x3c1d_5e8d, 0x41c4_3a11, 0x41ca_c28a) == 24,
{
    reveal(chord_code);
    lemma2_to64();
    lemma2_to64_rest();
    lemma_high_powers();
    assert(0x9d_5e8d * 0x1 - 0x95_5e8d * 0x1 == 0x8_0000);
    lemma_sum_known(0x3c1d_5e8d, 0x3c15_5e8d, true, 0x9d_5e8d, 119, 0x95_5e8d, 119, 0x1, 0x1, 0x8_0000, 20, 0x8_0000, 0x10);
    assert(sub_spec(0x3c1d_5e8d, 0x3c15_5e8d) == 0x3a00_0000);
    assert(0x95_a705 * 0x1 - 0x95_5e8d * 0x1 == 0x4878);
    lemma_sum_known(0x3c15_a705, 0x3c15_5e8d, true, 0x95_a705, 119, 0x95_5e8d, 119, 0x1, 0x1, 0x4878, 15, 0x4000, 0x200);
    assert(sub_spec(0x3c15_a705, 0x3c15_5e8d) == 0x3790_f000);
    assert(0xca_c28a * 0x1 - 0xc4_3a11 * 0x1 == 0x6_8879);
    lemma_sum_known(0x41ca_c28a, 0x41c4_3a11, true, 0xca_c28a, 130, 0xc4_3a11, 130, 0x1, 0x1, 0x6_8879, 19, 0x4_0000, 0x20);
    assert(sub_spec(0x41ca_c28a, 0x41c4_3a11) == 0x3f51_0f20);
    assert(0xd1_0f20 * 0x90_f000 == 0x765c_802e_0000);
    lemma_product_known(0x3f51_0f20, 0x3790_f000, 0xd1_0f20, 125, 0x90_f000, 110, 0x765c_802e_0000, 47, 0x4000_0000_0000, 0x80_0000);
    assert(mul_spec(0x3f51_0f20, 0x3790_f000) == 0x376c_b900);
    assert(0xec_b900 * 0x1_0000_0000_0000_0000 == 0x1_d972_0000_0000_0000 * 0x80_0000 + 0x0);
    lemma_quotient_known(0x376c_b900, 0x3a00_0000, 0xec_b900, 109, 0x80_0000, 115, 0x1_d972_0000_0000_0000, 0x0, 66, 0x2_0000_0000_0000_0000, 0x400_0000_0000);
    assert(div_spec(0x376c_b900, 0x3a00_0000) == 0x3cec_b900);
    assert(0xc4_3a11 * 0x400 + 0xec_b900 * 0x1 == 0x3_11d4_fd00);
    lemma_sum_known(0x41c4_3a11, 0x3cec_b900, false, 0xc4_3a11, 130, 0xec_b900, 120, 0x400, 0x1, 0x3_11d4_fd00, 34, 0x2_0000_0000, 0x400);
    assert(add_spec(0x41c4_3a11, 0x3cec_b900) == 0x41c4_753f);
    lemma_whole_known(0x41c4_753f, 0xc4_753f, 130, 0x8_0000);
}

/// Code 25.
proof fn lemma_code_25()
    ensures
        chord_code(0x3c1f_45be, 0x3c1d_5e8d, 0x3c25_5e8d, 0x41ca_c28a, 0x41d1_34b1) == 25,
{
    reveal(chord_code);
    lemma2_to64();
    lemma2_to64_rest();
    lemma_high_powers();
    assert(0xa5_5e8d * 0x1 - 0x9d_5e8d * 0x1 == 0x8_0000);
    lemma_sum_known(0x3c25_5e8d, 0x3c1d_5e8d, true, 0xa5_5e8d, 119, 0x9d_5e8d, 119, 0x1, 0x1, 0x8_0000, 20, 0x8_0000, 0x10);
    assert(sub_spec(0x3c25_5e8d, 0x3c1d_5e8d) == 0x3a00_0000);
    assert(0x9f_45be * 0x1 - 0x9d_5e8d * 0x1 == 0x1_e731);
    lemma_sum_known(0x3c1f_45be, 0x3c1d_5e8d, true, 0x9f_45be, 119, 0x9d_5e8d, 119, 0x1, 0x1, 0x1_e731, 17, 0x1_0000, 0x80);
    assert(sub_spec(0x3c1f_45be, 0x3c1d_5e8d) == 0x38f3_9880);
    assert(0xd1_34b1 * 0x1 - 0xca_c28a * 0x1 == 0x6_7227);
    lemma_sum_known(0x41d1_34b1, 0x41ca_c28a, true, 0xd1_34b1, 130, 0xca_c28a, 130, 0x1, 0x1, 0x6_7227, 19, 0x4_0000, 0x20);
    assert(sub_spec(0x41d1_34b1, 0x41ca_c28a) == 0x3f4e_44e0);
    assert(0xce_44e0 * 0xf3_9880 == 0xc446_40a7_7000);
    lemma_product_known(0x3f4e_44e0, 0x38f3_9880, 0xce_44e0, 125, 0xf3_9880, 112, 0xc446_40a7_7000, 48, 0x8000_0000_0000, 0x100_0000);
    assert(mul_spec(0x3f4e_44e0, 0x38f3_9880) == 0x38c4_4641);
    assert(0xc4_4641 * 0x1_0000_0000_0000_0000 == 0x1_888c_8200_0000_0000 * 0x80_0000 + 0x0);
    lemma_quotient_known(0x38c4_4641, 0x3a00_0000, 0xc4_4641, 112, 0x80_0000, 115, 0x1_888c_8200_0000_0000, 0x0, 66, 0x2_0000_0000_0000_0000, 0x400_0000_0000);
    assert(div_spec(0x38c4_4641, 0x3a00_0000) == 0x3e44_4641);
    assert(0xca_c28a * 0x80 + 0xc4_4641 * 0x1 == 0x6625_8b41);
    lemma_sum_known(0x41ca_c28a, 0x3e44_4641, false, 0xca_c28a, 130, 0xc4_4641, 123, 0x80, 0x1, 0x6625_8b41, 31, 0x4000_0000, 0x80);
    assert(add_spec(0x41ca_c28a, 0x3e44_4641) == 0x41cc_4b17);
    lemma_whole_known(0x41cc_4b17, 0xcc_4b17, 130, 0x8_0000);
}

/// Code 26.
proof fn lemma_code_26()
    ensures
        chord_code(0x3c29_3e6b, 0x3c25_5e8d, 0x3c2d_5e8d, 0x41d1_34b1, 0x41d7_7436) == 26,
{
    reveal(chord_code);
    lemma2_to64();
    lemma2_to64_rest();
    lemma_high_powers();
    assert(0xad_5e8d * 0x1 - 0xa5_5e8d * 0x1 == 0x8_0000);
    lemma_sum_known(0x3c2d_5e8d, 0x3c25_5e8d, true, 0xad_5e8d, 119, 0xa5_5e8d, 119, 0x1, 0x1, 0x8_0000, 20, 0x8_0000, 0x10);
    assert(sub_spec(0x3c2d_5e8d, 0x3c25_5e8d) == 0x3a00_0000);
    assert(0xa9_3e6b * 0x1 - 0xa5_5e8d * 0x1 == 0x3_dfde);
    lemma_sum_known(0x3c29_3e6b, 0x3c25_5e8d, true, 0xa9_3e6b, 119, 0xa5_5e8d, 119, 0x1, 0x1, 0x3_dfde, 18, 0x2_0000, 0x40);
    assert(sub_spec(0x3c29_3e6b, 0x3c25_5e8d) == 0x3977_f780);
    assert(0xd7_7436 * 0x1 - 0xd1_34b1 * 0x1 == 0x6_3f85);
    lemma_sum_known(0x41d7_7436, 0x41d1_34b1, true, 0xd7_7436, 130, 0xd1_34b1, 130, 0x1, 0x1, 0x6_3f85, 19, 0x4_0000, 0x20);
    assert(sub_spec(0x41d7_7436, 0x41d1_34b1) == 0x3f47_f0a0);
    assert(0xc7_f0a0 * 0xf7_f780 == 0xc1aa_7782_b000);
    lemma_product_known(0x3f47_f0a0, 0x3977_f780, 0xc7_f0a0, 125, 0xf7_f780, 113, 0xc1aa_7782_b000, 48, 0x8000_0000_0000, 0x100_0000);
    assert(mul_spec(0x3f47_f0a0, 0x3977_f780) == 0x3941_aa78);
    assert(0xc1_aa78 * 0x1_0000_0000_0000_0000 == 0x1_8354_f000_0000_0000 * 0x80_0000 + 0x0);
    lemma_quotient_known(0x3941_aa78, 0x3a00_0000, 0xc1_aa78, 113, 0x80_0000, 115, 0x1_8354_f000_0000_0000, 0x0, 66, 0x2_0000_0000_0000_0000, 0x400_0000_0000);
    assert(div_spec(0x3941_aa78, 0x3a00_0000) == 0x3ec1_aa78);
    assert(0xd1_34b1 * 0x40 + 0xc1_aa78 * 0x1 == 0x350e_d6b8);
    lemma_sum_known(0x41d1_34b1, 0x3ec1_aa78, false, 0xd1_34b1, 130, 0xc1_aa78, 124, 0x40, 0x1, 0x350e_d6b8, 30, 0x2000_0000, 0x40);
    assert(add_spec(0x41d1_34b1, 0x3ec1_aa78) == 0x41d4_3b5b);
    lemma_whole_known(0x41d4_3b5b, 0xd4_3b5b, 130, 0x8_0000);
}

/// Code 27.
proof fn lemma_code_27()
    ensures
        chord_code(0x3c33_91f7, 0x3c2d_5e8d, 0x3c35_5e8d, 0x41d7_7436, 0x41dd_8b21) == 27,
{
    reveal(chord_code);
    lemma2_to64();
    lemma2_to64_rest();
    lemma_high_powers();
    assert(0xb5_5e8d * 0x1 - 0xad_5e8d * 0x1 == 0x8_0000);
    lemma_sum_known(0x3c35_5e8d, 0x3c2d_5e8d, true, 0xb5_5e8d, 119, 0xad_5e8d, 119, 0x1, 0x1, 0x8_0000, 20, 0x8_0000, 0x10);
    assert(sub_spec(0x3c35_5e8d, 0x3c2d_5e8d) == 0x3a00_0000);
    assert(0xb3_91f7 * 0x1 - 0xad_5e8d * 0x1 == 0x6_336a);
    lemma_sum_known(0x3c33_91f7, 0x3c2d_5e8d, true, 0xb3_91f7, 119, 0xad_5e8d, 119, 0x1, 0x1, 0x6_336a, 19, 0x4_0000, 0x20);
    assert(sub_spec(0x3c33_91f7, 0x3c2d_5e8d) == 0x39c6_6d40);
    assert(0xdd_8b21 * 0x1 - 0xd7_7436 * 0x1 == 0x6_16eb);
    lemma_sum_known(0x41dd_8b21, 0x41d7_7436, true, 0xdd_8b21, 130, 0xd7_7436, 130, 0x1, 0x1, 0x6_16eb, 19, 0x4_0000, 0x20);
    assert(sub_spec(0x41dd_8b21, 0x41d7_7436) == 0x3f42_dd60);
    assert(0xc2_dd60 * 0xc6_6d40 == 0x970a_6139_3800);
    lemma_product_known(0x3f42_dd60, 0x39c6_6d40, 0xc2_dd60, 125, 0xc6_6d40, 114, 0x970a_6139_3800, 48, 0x8000_0000_0000, 0x100_0000);
    assert(mul_spec(0x3f42_dd60, 0x39c6_6d40) == 0x3997_0a61);
    assert(0x97_0a61 * 0x1_0000_0000_0000_0000 == 0x1_2e14_c200_0000_0000 * 0x80_0000 + 0x0);
    lemma_quotient_known(0x3997_0a61, 0x3a00_0000, 0x97_0a61, 114, 0x80_0000, 115, 0x1_2e14_c200_0000_0000, 0x0, 66, 0x2_0000_0000_0000_0000, 0x400_0000_0000);
    assert(div_spec(0x3997_0a61, 0x3a00_0000) == 0x3f17_0a61);
    assert(0xd7_7436 * 0x20 + 0x97_0a61 * 0x1 == 0x1b85_9121);
    lemma_sum_known(0x41d7_7436, 0x3f17_0a61, false, 0xd7_7436, 130, 0x97_0a61, 125, 0x20, 0x1, 0x1b85_9121, 29, 0x1000_0000, 0x20);
    assert(add_spec(0x41d7_7436, 0x3f17_0a61) == 0x41dc_2c89);
    lemma_whole_known(0x41dc_2c89, 0xdc_2c89, 130, 0x8_0000);
}

/// Code 28.
proof fn lemma_code_28()
    ensures
        chord_code(0x3c3e_4149, 0x3c3d_5e8d, 0x3c45_5e8d, 0x41e3_a2c0, 0x41e9_4e7f) == 28,
{
    reveal(chord_code);
    lemma2_to64();
    lemma2_to64_rest();
    lemma_high_powers();
    assert(0xc5_5e8d * 0x1 - 0xbd_5e8d * 0x1 == 0x8_0000);
    lemma_sum_known(0x3c45_5e8d, 0x3c3d_5e8d, true, 0xc5_5e8d, 119, 0xbd_5e8d, 119, 0x1, 0x1, 0x8_0000, 20, 0x8_0000, 0x10);
    assert(sub_spec(0x3c45_5e8d, 0x3c3d_5e8d) == 0x3a00_0000);
    assert(0xbe_4149 * 0x1 - 0xbd_5e8d * 0x1 == 0xe2bc);
    lemma_sum_known(0x3c3e_4149, 0x3c3d_5e8d, true, 0xbe_4149, 119, 0xbd_5e8d, 119, 0x1, 0x1, 0xe2bc, 16, 0x8000, 0x100);
    assert(sub_spec(0x3c3e_4149, 0x3c3d_5e8d) == 0x3862_bc00);
    assert(0xe9_4e7f * 0x1 - 0xe3_a2c0 * 0x1 == 0x5_abbf);
    lemma_sum_known(0x41e9_4e7f, 0x41e3_a2c0, true, 0xe9_4e7f, 130, 0xe3_a2c0, 130, 0x1, 0x1, 0x5_abbf, 19, 0x4_0000, 0x20);
    assert(sub_spec(0x41e9_4e7f, 0x41e3_a2c0) == 0x3f35_77e0);
    assert(0xb5_77e0 * 0xe2_bc00 == 0xa0b9_17c8_8000);
    lemma_product_known(0x3f35_77e0, 0x3862_bc00, 0xb5_77e0, 125, 0xe2_bc00, 111, 0xa0b9_17c8_8000, 48, 0x8000_0000_0000, 0x100_0000);
    assert(mul_spec(0x3f35_77e0, 0x3862_bc00) == 0x3820_b918);
    assert(0xa0_b918 * 0x1_0000_0000_0000_0000 == 0x1_4172_3000_0000_0000 * 0x80_0000 + 0x0);
    lemma_quotient_known(0x3820_b918, 0x3a00_0000, 0xa0_b918, 111, 0x80_0000, 115, 0x1_4172_3000_0000_0000, 0x0, 66, 0x2_0000_0000_0000_0000, 0x400_0000_0000);
    assert(div_spec(0x3820_b918, 0x3a00_0000) == 0x3da0_b918);
    assert(0xe3_a2c0 * 0x100 + 0xa0_b918 * 0x1 == 0xe443_7918);
    lemma_sum_known(0x41e3_a2c0, 0x3da0_b918, false, 0xe3_a2c0, 130, 0xa0_b918, 122, 0x100, 0x1, 0xe443_7918, 32, 0x8000_0000, 0x100);
    assert(add_spec(0x41e3_a2c0, 0x3da0_b918) == 0x41e4_4379);
    lemma_whole_known(0x41e4_4379, 0xe4_4379, 130, 0x8_0000);
}

/// Code 29.
proof fn lemma_code_29()
    ensures
        chord_code(0x3c49_4d44, 0x3c45_5e8d, 0x3c4d_5e8d, 0x41e9_4e7f, 0x41ef_0a95) == 29,
{
    reveal(chord_code);
    lemma2_to64();
    lemma2_to64_rest();
    lemma_high_powers();
    assert(0xcd_5e8d * 0x1 - 0xc5_5e8d * 0x1 == 0x8_0000);
    lemma_sum_known(0x3c4d_5e8d, 0x3c45_5e8d, true, 0xcd_5e8d, 119, 0xc5_5e8d, 119, 0x1, 0x1, 0x8_0000, 20, 0x8_0000, 0x10);
    assert(sub_spec(0x3c4d_5e8d, 0x3c45_5e8d) == 0x3a00_0000);
    assert(0xc9_4d44 * 0x1 - 0xc5_5e8d * 0x1 == 0x3_eeb7);
    lemma_sum_known(0x3c49_4d44, 0x3c45_5e8d, true, 0xc9_4d44, 119, 0xc5_5e8d, 119, 0x1, 0x1, 0x3_eeb7, 18, 0x2_0000, 0x40);
    assert(sub_spec(0x3c49_4d44, 0x3c45_5e8d) == 0x397b_adc0);
    assert(0xef_0a95 * 0x1 - 0xe9_4e7f * 0x1 == 0x5_bc16);
    lemma_sum_known(0x41ef_0a95, 0x41e9_4e7f, true, 0xef_0a95, 130, 0xe9_4e7f, 130, 0x1, 0x1, 0x5_bc16, 19, 0x4_0000, 0x20);
    assert(sub_spec(0x41ef_0a95, 0x41e9_4e7f) == 0x3f37_82c0);
    assert(0xb7_82c0 * 0xfb_adc0 == 0xb469_bf3d_d000);
    lemma_product_known(0x3f37_82c0, 0x397b_adc0, 0xb7_82c0, 125, 0xfb_adc0, 113, 0xb469_bf3d_d000, 48, 0x8000_0000_0000, 0x100_0000);
    assert(mul_spec(0x3f37_82c0, 0x397b_adc0) == 0x3934_69bf);
    assert(0xb4_69bf * 0x1_0000_0000_0000_0000 == 0x1_68d3_7e00_0000_0000 * 0x80_0000 + 0x0);
    lemma_quotient_known(0x3934_69bf, 0x3a00_0000, 0xb4_69bf, 113, 0x80_0000, 115, 0x1_68d3_7e00_0000_0000, 0x0, 66, 0x2_0000_0000_0000_0000, 0x400_0000_0000);
    assert(div_spec(0x3934_69bf, 0x3a00_0000) == 0x3eb4_69bf);
    assert(0xe9_4e7f * 0x40 + 0xb4_69bf * 0x1 == 0x3b08_097f);
    lemma_sum_known(0x41e9_4e7f, 0x3eb4_69bf, false, 0xe9_4e7f, 130, 0xb4_69bf, 124, 0x40, 0x1, 0x3b08_097f, 30, 0x2000_0000, 0x40);
    assert(add_spec(0x41e9_4e7f, 0x3eb4_69bf) == 0x41ec_2026);
    lemma_whole_known(0x41ec_2026, 0xec_2026, 130, 0x8_0000);
}

/// Code 30.
proof fn lemma_code_30()
    ensures
        chord_code(0x3c54_b6c9, 0x3c4d_5e8d, 0x3c55_5e8d, 0x41ef_0a95, 0x41f4_5569) == 30,
{
    reveal(chord_code);
    lemma2_to64();
    lemma2_to64_rest();
    lemma_high_powers();
    assert(0xd5_5e8d * 0x1 - 0xcd_5e8d * 0x1 == 0x8_0000);
    lemma_sum_known(0x3c55_5e8d, 0x3c4d_5e8d, true, 0xd5_5e8d, 119, 0xcd_5e8d, 119, 0x1, 0x1, 0x8_0000, 20, 0x8_0000, 0x10);
    assert(sub_spec(0x3c55_5e8d, 0x3c4d_5e8d) == 0x3a00_0000);
    assert(0xd4_b6c9 * 0x1 - 0xcd_5e8d * 0x1 == 0x7_583c);
    lemma_sum_known(0x3c54_b6c9, 0x3c4d_5e8d, true, 0xd4_b6c9, 119, 0xcd_5e8d, 119, 0x1, 0x1, 0x7_583c, 19, 0x4_0000, 0x20);
    assert(sub_spec(0x3c54_b6c9, 0x3c4d_5e8d) == 0x39eb_0780);
    assert(0xf4_5569 * 0x1 - 0xef_0a95 * 0x1 == 0x5_4ad4);
    lemma_sum_known(0x41f4_5569, 0x41ef_0a95, true, 0xf4_5569, 130, 0xef_0a95, 130, 0x1, 0x1, 0x5_4ad4, 19, 0x4_0000, 0x20);
    assert(sub_spec(0x41f4_5569, 0x41ef_0a95) == 0x3f29_5a80);
    assert(0xa9_5a80 * 0xeb_0780 == 0x9b7b_09a6_c000);
    lemma_product_known(0x3f29_5a80, 0x39eb_0780, 0xa9_5a80, 125, 0xeb_0780, 114, 0x9b7b_09a6_c000, 48, 0x8000_0000_0000, 0x100_0000);
    assert(mul_spec(0x3f29_5a80, 0x39eb_0780) == 0x399b_7b0a);
    assert(0x9b_7b0a * 0x1_0000_0000_0000_0000 == 0x1_36f6_1400_0000_0000 * 0x80_0000 + 0x0);
    lemma_quotient_known(0x399b_7b0a, 0x3a00_0000, 0x9b_7b0a, 114, 0x80_0000, 115, 0x1_36f6_1400_0000_0000, 0x0, 66, 0x2_0000_0000_0000_0000, 0x400_0000_0000);
    assert(div_spec(0x399b_7b0a, 0x3a00_0000) == 0x3f1b_7b0a);
    assert(0xef_0a95 * 0x20 + 0x9b_7b0a * 0x1 == 0x1e7c_cdaa);
    lemma_sum_known(0x41ef_0a95, 0x3f1b_7b0a, false, 0xef_0a95, 130, 0x9b_7b0a, 125, 0x20, 0x1, 0x1e7c_cdaa, 29, 0x1000_0000, 0x20);
    assert(add_spec(0x41ef_0a95, 0x3f1b_7b0a) == 0x41f3_e66d);
    lemma_whole_known(0x41f3_e66d, 0xf3_e66d, 130, 0x8_0000);
}

/// Code 31.
proof fn lemma_code_31()
    ensures
        chord_code(0x3c60_7eb4, 0x3c5d_5e8d, 0x3c65_5e8d, 0x41fa_458a, 0x41ff_4654) == 31,
{
    reveal(chord_code);
    lemma2_to64();
    lemma2_to64_rest();
    lemma_high_powers();
    assert(0xe5_5e8d * 0x1 - 0xdd_5e8d * 0x1 == 0x8_0000);
    lemma_sum_known(0x3c65_5e8d, 0x3c5d_5e8d, true, 0xe5_5e8d, 119, 0xdd_5e8d, 119, 0x1, 0x1, 0x8_0000, 20, 0x8_0000, 0x10);
    assert(sub_spec(0x3c65_5e8d, 0x3c5d_5e8d) == 0x3a00_0000);
    assert(0xe0_7eb4 * 0x1 - 0xdd_5e8d * 0x1 == 0x3_2027);
    lemma_sum_known(0x3c60_7eb4, 0x3c5d_5e8d, true, 0xe0_7eb4, 119, 0xdd_5e8d, 119, 0x1, 0x1, 0x3_2027, 18, 0x2_0000, 0x40);
    assert(sub_spec(0x3c60_7eb4, 0x3c5d_5e8d) == 0x3948_09c0);
    assert(0xff_4654 * 0x1 - 0xfa_458a * 0x1 == 0x5_00ca);
    lemma_sum_known(0x41ff_4654, 0x41fa_458a, true, 0xff_4654, 130, 0xfa_458a, 130, 0x1, 0x1, 0x5_00ca, 19, 0x4_0000, 0x20);
    assert(sub_spec(0x41ff_4654, 0x41fa_458a) == 0x3f20_1940);
    assert(0xa0_1940 * 0xc8_09c0 == 0x7d19_d2f6_3000);
    lemma_product_known(0x3f20_1940, 0x3948_09c0, 0xa0_1940, 125, 0xc8_09c0, 113, 0x7d19_d2f6_3000, 47, 0x4000_0000_0000, 0x80_0000);
    assert(mul_spec(0x3f20_1940, 0x3948_09c0) == 0x38fa_33a6);
    assert(0xfa_33a6 * 0x1_0000_0000_0000_0000 == 0x1_f467_4c00_0000_0000 * 0x80_0000 + 0x0);
    lemma_quotient_known(0x38fa_33a6, 0x3a00_0000, 0xfa_33a6, 112, 0x80_0000, 115, 0x1_f467_4c00_0000_0000, 0x0, 66, 0x2_0000_0000_0000_0000, 0x400_0000_0000);
    assert(div_spec(0x38fa_33a6, 0x3a00_0000) == 0x3e7a_33a6);
    assert(0xfa_458a * 0x80 + 0xfa_33a6 * 0x1 == 0x7e1c_f8a6);
    lemma_sum_known(0x41fa_458a, 0x3e7a_33a6, false, 0xfa_458a, 130, 0xfa_33a6, 123, 0x80, 0x1, 0x7e1c_f8a6, 31, 0x4000_0000, 0x80);
    assert(add_spec(0x41fa_458a, 0x3e7a_33a6) == 0x41fc_39f1);
    lemma_whole_known(0x41fc_39f1, 0xfc_39f1, 130, 0x8_0000);
}

/// Code 32.
proof fn lemma_code_32()
    ensures
        chord_code(0x3c6c_a5df, 0x3c65_5e8d, 0x3c6d_5e8d, 0x41ff_4654, 0x4202_5081) == 32,
{
    reveal(chord_code);
    lemma2_to64();
    lemma2_to64_rest();
    lemma_high_powers();
    assert(0xed_5e8d * 0x1 - 0xe5_5e8d * 0x1 == 0x8_0000);
    lemma_sum_known(0x3c6d_5e8d, 0x3c65_5e8d, true, 0xed_5e8d, 119, 0xe5_5e8d, 119, 0x1, 0x1, 0x8_0000, 20, 0x8_0000, 0x10);
    assert(sub_spec(0x3c6d_5e8d, 0x3c65_5e8d) == 0x3a00_0000);
    assert(0xec_a5df * 0x1 - 0xe5_5e8d * 0x1 == 0x7_4752);
    lemma_sum_known(0x3c6c_a5df, 0x3c65_5e8d, true, 0xec_a5df, 119, 0xe5_5e8d, 119, 0x1, 0x1, 0x7_4752, 19, 0x4_0000, 0x20);
    assert(sub_spec(0x3c6c_a5df, 0x3c65_5e8d) == 0x39e8_ea40);
    assert(0x82_5081 * 0x2 - 0xff_4654 * 0x1 == 0x5_5aae);
    lemma_sum_known(0x4202_5081, 0x41ff_4654, true, 0x82_5081, 131, 0xff_4654, 130, 0x2, 0x1, 0x5_5aae, 19, 0x4_0000, 0x20);
    assert(sub_spec(0x4202_5081, 0x41ff_4654) == 0x3f2b_55c0);
    assert(0xab_55c0 * 0xe8_ea40 == 0x9be2_7d36_f000);
    lemma_product_known(0x3f2b_55c0, 0x39e8_ea40, 0xab_55c0, 125, 0xe8_ea40, 114, 0x9be2_7d36_f000, 48, 0x8000_0000_0000, 0x100_0000);
    assert(mul_spec(0x3f2b_55c0, 0x39e8_ea40) == 0x399b_e27d);
    assert(0x9b_e27d * 0x1_0000_0000_0000_0000 == 0x1_37c4_fa00_0000_0000 * 0x80_0000 + 0x0);
    lemma_quotient_known(0x399b_e27d, 0x3a00_0000, 0x9b_e27d, 114, 0x80_0000, 115, 0x1_37c4_fa00_0000_0000, 0x0, 66, 0x2_0000_0000_0000_0000, 0x400_0000_0000);
    assert(div_spec(0x399b_e27d, 0x3a00_0000) == 0x3f1b_e27d);
    assert(0xff_4654 * 0x20 + 0x9b_e27d * 0x1 == 0x2084_acfd);
    lemma_sum_known(0x41ff_4654, 0x3f1b_e27d, false, 0xff_4654, 130, 0x9b_e27d, 125, 0x20, 0x1, 0x2084_acfd, 30, 0x2000_0000, 0x40);
    assert(add_spec(0x41ff_4654, 0x3f1b_e27d) == 0x4202_12b4);
    lemma_whole_known(0x4202_12b4, 0x82_12b4, 131, 0x4_0000);
}

/// Code 33.
proof fn lemma_code_33()
    ensures
        chord_code(0x3c79_2d22, 0x3c75_5e8d, 0x3c7d_5e8d, 0x4204_e299, 0x4207_710a) == 33,
{
    reveal(chord_code);
    lemma2_to64();
    lemma2_to64_rest();
    lemma_high_powers();
    assert(0xfd_5e8d * 0x1 - 0xf5_5e8d * 0x1 == 0x8_0000);
    lemma_sum_known(0x3c7d_5e8d, 0x3c75_5e8d, true, 0xfd_5e8d, 119, 0xf5_5e8d, 119, 0x1, 0x1, 0x8_0000, 20, 0x8_0000, 0x10);
    assert(sub_spec(0x3c7d_5e8d, 0x3c75_5e8d) == 0x3a00_0000);
    assert(0xf9_2d22 * 0x1 - 0xf5_5e8d * 0x1 == 0x3_ce95);
    lemma_sum_known(0x3c79_2d22, 0x3c75_5e8d, true, 0xf9_2d22, 119, 0xf5_5e8d, 119, 0x1, 0x1, 0x3_ce95, 18, 0x2_0000, 0x40);
    assert(sub_spec(0x3c79_2d22, 0x3c75_5e8d) == 0x3973_a540);
    assert(0x87_710a * 0x1 - 0x84_e299 * 0x1 == 0x2_8e71);
    lemma_sum_known(0x4207_710a, 0x4204_e299, true, 0x87_710a, 131, 0x84_e299, 131, 0x1, 0x1, 0x2_8e71, 18, 0x2_0000, 0x40);
    assert(sub_spec(0x4207_710a, 0x4204_e299) == 0x3f23_9c40);
    assert(0xa3_9c40 * 0xf3_a540 == 0x9bb6_ed5c_5000);
    lemma_product_known(0x3f23_9c40, 0x3973_a540, 0xa3_9c40, 125, 0xf3_a540, 113, 0x9bb6_ed5c_5000, 48, 0x8000_0000_0000, 0x100_0000);
    assert(mul_spec(0x3f23_9c40, 0x3973_a540) == 0x391b_b6ed);
    assert(0x9b_b6ed * 0x1_0000_0000_0000_0000 == 0x1_376d_da00_0000_0000 * 0x80_0000 + 0x0);
    lemma_quotient_known(0x391b_b6ed, 0x3a00_0000, 0x9b_b6ed, 113, 0x80_0000, 115, 0x1_376d_da00_0000_0000, 0x0, 66, 0x2_0000_0000_0000_0000, 0x400_0000_0000);
    assert(div_spec(0x391b_b6ed, 0x3a00_0000) == 0x3e9b_b6ed);
    assert(0x84_e299 * 0x80 + 0x9b_b6ed * 0x1 == 0x430d_036d);
    lemma_sum_known(0x4204_e299, 0x3e9b_b6ed, false, 0x84_e299, 131, 0x9b_b6ed, 124, 0x80, 0x1, 0x430d_036d, 31, 0x4000_0000, 0x80);
    assert(add_spec(0x4204_e299, 0x3e9b_b6ed) == 0x4206_1a07);
    lemma_whole_known(0x4206_1a07, 0x86_1a07, 131, 0x4_0000);
}

/// Code 34.
proof fn lemma_code_34()
    ensures
        chord_code(0x3c83_0aa9, 0x3c7d_5e8d, 0x3c85_5e8d, 0x4207_710a, 0x420b_715e) == 34,
{
    reveal(chord_code);
    lemma2_to64();
    lemma2_to64_rest();
    lemma_high_powers();
    assert(0x85_5e8d * 0x2 - 0xfd_5e8d * 0x1 == 0xd_5e8d);
    lemma_sum_known(0x3c85_5e8d, 0x3c7d_5e8d, true, 0x85_5e8d, 120, 0xfd_5e8d, 119, 0x2, 0x1, 0xd_5e8d, 20, 0x8_0000, 0x10);
    assert(sub_spec(0x3c85_5e8d, 0x3c7d_5e8d) == 0x3a55_e8d0);
    assert(0x83_0aa9 * 0x2 - 0xfd_5e8d * 0x1 == 0x8_b6c5);
    lemma_sum_known(0x3c83_0aa9, 0x3c7d_5e8d, true, 0x83_0aa9, 120, 0xfd_5e8d, 119, 0x2, 0x1, 0x8_b6c5, 20, 0x8_0000, 0x10);
    assert(sub_spec(0x3c83_0aa9, 0x3c7d_5e8d) == 0x3a0b_6c50);
    assert(0x8b_715e * 0x1 - 0x87_710a * 0x1 == 0x4_0054);
    lemma_sum_known(0x420b_715e, 0x4207_710a, true, 0x8b_715e, 131, 0x87_710a, 131, 0x1, 0x1, 0x4_0054, 19, 0x4_0000, 0x20);
    assert(sub_spec(0x420b_715e, 0x4207_710a) == 0x3f80_0a80);
    assert(0x80_0a80 * 0x8b_6c50 == 0x45bb_dff1_4800);
    lemma_product_known(0x3f80_0a80, 0x3a0b_6c50, 0x80_0a80, 126, 0x8b_6c50, 115, 0x45bb_dff1_4800, 47, 0x4000_0000_0000, 0x80_0000);
    assert(mul_spec(0x3f80_0a80, 0x3a0b_6c50) == 0x3a0b_77c0);
    assert(0x8b_77c0 * 0x1_0000_0000_0000_0000 == 0xa6e9_1cff_2de4_72ff * 0xd5_e8d0 + 0x78d0);
    lemma_quotient_known(0x3a0b_77c0, 0x3a55_e8d0, 0x8b_77c0, 115, 0xd5_e8d0, 115, 0xa6e9_1cff_2de4_72ff, 0x78d0, 65, 0x1_0000_0000_0000_0000, 0x200_0000_0000);
    assert(div_spec(0x3a0b_77c0, 0x3a55_e8d0) == 0x3f26_e91d);
    assert(0x87_710a * 0x40 + 0xa6_e91d * 0x1 == 0x2283_2b9d);
    lemma_sum_known(0x4207_710a, 0x3f26_e91d, false, 0x87_710a, 131, 0xa6_e91d, 125, 0x40, 0x1, 0x2283_2b9d, 30, 0x2000_0000, 0x40);
    assert(add_spec(0x4207_710a, 0x3f26_e91d) == 0x420a_0cae);
    lemma_whole_known(0x420a_0cae, 0x8a_0cae, 131, 0x4_0000);
}

/// Code 35.
proof fn lemma_code_35()
    ensures
        chord_code(0x3c89_af9f, 0x3c85_5e8d, 0x3c8d_5e8d, 0x420b_715e, 0x4210_3370) == 35,
{
    reveal(chord_code);
    lemma2_to64();
    lemma2_to64_rest();
    lemma_high_powers();
    assert(0x8d_5e8d * 0x1 - 0x85_5e8d * 0x1 == 0x8_0000);
    lemma_sum_known(0x3c8d_5e8d, 0x3c85_5e8d, true, 0x8d_5e8d, 120, 0x85_5e8d, 120, 0x1, 0x1, 0x8_0000, 20, 0x8_0000, 0x10);
    assert(sub_spec(0x3c8d_5e8d, 0x3c85_5e8d) == 0x3a80_0000);
    assert(0x89_af9f * 0x1 - 0x85_5e8d * 0x1 == 0x4_5112);
    lemma_sum_known(0x3c89_af9f, 0x3c85_5e8d, true, 0x89_af9f, 120, 0x85_5e8d, 120, 0x1, 0x1, 0x4_5112, 19, 0x4_0000, 0x20);
    assert(sub_spec(0x3c89_af9f, 0x3c85_5e8d) == 0x3a0a_2240);
    assert(0x90_3370 * 0x1 - 0x8b_715e * 0x1 == 0x4_c212);
    lemma_sum_known(0x4210_3370, 0x420b_715e, true, 0x90_3370, 131, 0x8b_715e, 131, 0x1, 0x1, 0x4_c212, 19, 0x4_0000, 0x20);
    assert(sub_spec(0x4210_3370, 0x420b_715e) == 0x3f98_4240);
    assert(0x98_4240 * 0x8a_2240 == 0x5228_155d_1000);
    lemma_product_known(0x3f98_4240, 0x3a0a_2240, 0x98_4240, 126, 0x8a_2240, 115, 0x5228_155d_1000, 47, 0x4000_0000_0000, 0x80_0000);
    assert(mul_spec(0x3f98_4240, 0x3a0a_2240) == 0x3a24_502b);
    assert(0xa4_502b * 0x1_0000_0000_0000_0000 == 0x1_48a0_5600_0000_0000 * 0x80_0000 + 0x0);
    lemma_quotient_known(0x3a24_502b, 0x3a80_0000, 0xa4_502b, 115, 0x80_0000, 116, 0x1_48a0_5600_0000_0000, 0x0, 66, 0x2_0000_0000_0000_0000, 0x400_0000_0000);
    assert(div_spec(0x3a24_502b, 0x3a80_0000) == 0x3f24_502b);
    assert(0x8b_715e * 0x40 + 0xa4_502b * 0x1 == 0x2380_a7ab);
    lemma_sum_known(0x420b_715e, 0x3f24_502b, false, 0x8b_715e, 131, 0xa4_502b, 125, 0x40, 0x1, 0x2380_a7ab, 30, 0x2000_0000, 0x40);
    assert(add_spec(0x420b_715e, 0x3f24_502b) == 0x420e_029f);
    lemma_whole_known(0x420e_029f, 0x8e_029f, 131, 0x4_0000);
}

/// Code 36.
proof fn lemma_code_36()
    ensures
        chord_code(0x3c90_85dc, 0x3c8d_5e8d, 0x3c95_5e8d, 0x4210_3370, 0x4214_c8fb) == 36,
{
    reveal(chord_code);
    lemma2_to64();
    lemma2_to64_rest();
    lemma_high_powers();
    assert(0x95_5e8d * 0x1 - 0x8d_5e8d * 0x1 == 0x8_0000);
    lemma_sum_known(0x3c95_5e8d, 0x3c8d_5e8d, true, 0x95_5e8d, 120, 0x8d_5e8d, 120, 0x1, 0x1, 0x8_0000, 20, 0x8_0000, 0x10);
    assert(sub_spec(0x3c95_5e8d, 0x3c8d_5e8d) == 0x3a80_0000);
    assert(0x90_85dc * 0x1 - 0x8d_5e8d * 0x1 == 0x3_274f);
    lemma_sum_known(0x3c90_85dc, 0x3c8d_5e8d, true, 0x90_85dc, 120, 0x8d_5e8d, 120, 0x1, 0x1, 0x3_274f, 18, 0x2_0000, 0x40);
    assert(sub_spec(0x3c90_85dc, 0x3c8d_5e8d) == 0x39c9_d3c0);
    assert(0x94_c8fb * 0x1 - 0x90_3370 * 0x1 == 0x4_958b);
    lemma_sum_known(0x4214_c8fb, 0x4210_3370, true, 0x94_c8fb, 131, 0x90_3370, 131, 0x1, 0x1, 0x4_958b, 19, 0x4_0000, 0x20);
    assert(sub_spec(0x4214_c8fb, 0x4210_3370) == 0x3f92_b160);
    assert(0x92_b160 * 0xc9_d3c0 == 0x73a6_9a97_2800);
    lemma_product_known(0x3f92_b160, 0x39c9_d3c0, 0x92_b160, 126, 0xc9_d3c0, 114, 0x73a6_9a97_2800, 47, 0x4000_0000_0000, 0x80_0000);
    assert(mul_spec(0x3f92_b160, 0x39c9_d3c0) == 0x39e7_4d35);
    assert(0xe7_4d35 * 0x1_0000_0000_0000_0000 == 0x1_ce9a_6a00_0000_0000 * 0x80_0000 + 0x0);
    lemma_quotient_known(0x39e7_4d35, 0x3a80_0000, 0xe7_4d35, 114, 0x80_0000, 116, 0x1_ce9a_6a00_0000_0000, 0x0, 66, 0x2_0000_0000_0000_0000, 0x400_0000_0000);
    assert(div_spec(0x39e7_4d35, 0x3a80_0000) == 0x3ee7_4d35);
    assert(0x90_3370 * 0x80 + 0xe7_4d35 * 0x1 == 0x4901_0535);
    lemma_sum_known(0x4210_3370, 0x3ee7_4d35, false, 0x90_3370, 131, 0xe7_4d35, 124, 0x80, 0x1, 0x4901_0535, 31, 0x4000_0000, 0x80);
    assert(add_spec(0x4210_3370, 0x3ee7_4d35) == 0x4212_020a);
    lemma_whole_known(0x4212_020a, 0x92_020a, 131, 0x4_0000);
}

/// Code 37.
proof fn lemma_code_37()
    ensures
        chord_code(0x3c97_8dc6, 0x3c95_5e8d, 0x3c9d_5e8d, 0x4214_c8fb, 0x4219_5874) == 37,
{
    reveal(chord_code);
    lemma2_to64();
    lemma2_to64_rest();
    lemma_high_powers();
    assert(0x9d_5e8d * 0x1 - 0x95_5e8d * 0x1 == 0x8_0000);
    lemma_sum_known(0x3c9d_5e8d, 0x3c95_5e8d, true, 0x9d_5e8d, 120, 0x95_5e8d, 120, 0x1, 0x1, 0x8_0000, 20, 0x8_0000, 0x10);
    assert(sub_spec(0x3c9d_5e8d, 0x3c95_5e8d) == 0x3a80_0000);
    assert(0x97_8dc6 * 0x1 - 0x95_5e8d * 0x1 == 0x2_2f39);
    lemma_sum_known(0x3c97_8dc6, 0x3c95_5e8d, true, 0x97_8dc6, 120, 0x95_5e8d, 120, 0x1, 0x1, 0x2_2f39, 18, 0x2_0000, 0x40);
    assert(sub_spec(0x3c97_8dc6, 0x3c95_5e8d) == 0x398b_ce40);
    assert(0x99_5874 * 0x1 - 0x94_c8fb * 0x1 == 0x4_8f79);
    lemma_sum_known(0x4219_5874, 0x4214_c8fb, true, 0x99_5874, 131, 0x94_c8fb, 131, 0x1, 0x1, 0x4_8f79, 19, 0x4_0000, 0x20);
    assert(sub_spec(0x4219_5874, 0x4214_c8fb) == 0x3f91_ef20);
    assert(0x91_ef20 * 0x8b_ce40 == 0x4fb2_6947_8800);
    lemma_product_known(0x3f91_ef20, 0x398b_ce40, 0x91_ef20, 126, 0x8b_ce40, 114, 0x4fb2_6947_8800, 47, 0x4000_0000_0000, 0x80_0000);
    assert(mul_spec(0x3f91_ef20, 0x398b_ce40) == 0x399f_64d3);
    assert(0x9f_64d3 * 0x1_0000_0000_0000_0000 == 0x1_3ec9_a600_0000_0000 * 0x80_0000 + 0x0);
    lemma_quotient_known(0x399f_64d3, 0x3a80_0000, 0x9f_64d3, 114, 0x80_0000, 116, 0x1_3ec9_a600_0000_0000, 0x0, 66, 0x2_0000_0000_0000_0000, 0x400_0000_0000);
    assert(div_spec(0x399f_64d3, 0x3a80_0000) == 0x3e9f_64d3);
    assert(0x94_c8fb * 0x80 + 0x9f_64d3 * 0x1 == 0x4b03_e253);
    lemma_sum_known(0x4214_c8fb, 0x3e9f_64d3, false, 0x94_c8fb, 131, 0x9f_64d3, 124, 0x80, 0x1, 0x4b03_e253, 31, 0x4000_0000, 0x80);
    assert(add_spec(0x4214_c8fb, 0x3e9f_64d3) == 0x4216_07c5);
    lemma_whole_known(0x4216_07c5, 0x96_07c5, 131, 0x4_0000);
}

/// Code 38.
proof fn lemma_code_38()
    ensures
        chord_code(0x3c9e_c7c2, 0x3c9d_5e8d, 0x3ca5_5e8d, 0x4219_5874, 0x421d_a010) == 38,
{
    reveal(chord_code);
    lemma2_to64();
    lemma2_to64_rest();
    lemma_high_powers();
    assert(0xa5_5e8d * 0x1 - 0x9d_5e8d * 0x1 == 0x8_0000);
    lemma_sum_known(0x3ca5_5e8d, 0x3c9d_5e8d, true, 0xa5_5e8d, 120, 0x9d_5e8d, 120, 0x1, 0x1, 0x8_0000, 20, 0x8_0000, 0x10);
    assert(sub_spec(0x3ca5_5e8d, 0x3c9d_5e8d) == 0x3a80_0000);
    assert(0x9e_c7c2 * 0x1 - 0x9d_5e8d * 0x1 == 0x1_6935);
    lemma_sum_known(0x3c9e_c7c2, 0x3c9d_5e8d, true, 0x9e_c7c2, 120, 0x9d_5e8d, 120, 0x1, 0x1, 0x1_6935, 17, 0x1_0000, 0x80);
    assert(sub_spec(0x3c9e_c7c2, 0x3c9d_5e8d) == 0x3934_9a80);
    assert(0x9d_a010 * 0x1 - 0x99_5874 * 0x1 == 0x4_479c);
    lemma_sum_known(0x421d_a010, 0x4219_5874, true, 0x9d_a010, 131, 0x99_5874, 131, 0x1, 0x1, 0x4_479c, 19, 0x4_0000, 0x20);
    assert(sub_spec(0x421d_a010, 0x4219_5874) == 0x3f88_f380);
    assert(0x88_f380 * 0xb4_9a80 == 0x609d_dcf4_c000);
    lemma_product_known(0x3f88_f380, 0x3934_9a80, 0x88_f380, 126, 0xb4_9a80, 113, 0x609d_dcf4_c000, 47, 0x4000_0000_0000, 0x80_0000);
    assert(mul_spec(0x3f88_f380, 0x3934_9a80) == 0x3941_3bba);
    assert(0xc1_3bba * 0x1_0000_0000_0000_0000 == 0x1_8277_7400_0000_0000 * 0x80_0000 + 0x0);
    lemma_quotient_known(0x3941_3bba, 0x3a80_0000, 0xc1_3bba, 113, 0x80_0000, 116, 0x1_8277_7400_0000_0000, 0x0, 66, 0x2_0000_0000_0000_0000, 0x400_0000_0000);
    assert(div_spec(0x3941_3bba, 0x3a80_0000) == 0x3e41_3bba);
    assert(0x99_5874 * 0x100 + 0xc1_3bba * 0x1 == 0x9a19_afba);
    lemma_sum_known(0x4219_5874, 0x3e41_3bba, false, 0x99_5874, 131, 0xc1_3bba, 123, 0x100, 0x1, 0x9a19_afba, 32, 0x8000_0000, 0x100);
    assert(add_spec(0x4219_5874, 0x3e41_3bba) == 0x421a_19b0);
    lemma_whole_known(0x421a_19b0, 0x9a_19b0, 131, 0x4_0000);
}

/// Code 39.
proof fn lemma_code_39()
    ensures
        chord_code(0x3ca6_3433, 0x3ca5_5e8d, 0x3cad_5e8d, 0x421d_a010, 0x4221_ebaf) == 39,
{
    reveal(chord_code);
    lemma2_to64();
    lemma2_to64_rest();
    lemma_high_powers();
    assert(0xad_5e8d * 0x1 - 0xa5_5e8d * 0x1 == 0x8_0000);
    lemma_sum_known(0x3cad_5e8d, 0x3ca5_5e8d, true, 0xad_5e8d, 120, 0xa5_5e8d, 120, 0x1, 0x1, 0x8_0000, 20, 0x8_0000, 0x10);
    assert(sub_spec(0x3cad_5e8d, 0x3ca5_5e8d) == 0x3a80_0000);
    assert(0xa6_3433 * 0x1 - 0xa5_5e8d * 0x1 == 0xd5a6);
    lemma_sum_known(0x3ca6_3433, 0x3ca5_5e8d, true, 0xa6_3433, 120, 0xa5_5e8d, 120, 0x1, 0x1, 0xd5a6, 16, 0x8000, 0x100);
    assert(sub_spec(0x3ca6_3433, 0x3ca5_5e8d) == 0x38d5_a600);
    assert(0xa1_ebaf * 0x1 - 0x9d_a010 * 0x1 == 0x4_4b9f);
    lemma_sum_known(0x4221_ebaf, 0x421d_a010, true, 0xa1_ebaf, 131, 0x9d_a010, 131, 0x1, 0x1, 0x4_4b9f, 19, 0x4_0000, 0x20);
    assert(sub_spec(0x4221_ebaf, 0x421d_a010) == 0x3f89_73e0);
    assert(0x89_73e0 * 0xd5_a600 == 0x72b6_8a83_4000);
    lemma_product_known(0x3f89_73e0, 0x38d5_a600, 0x89_73e0, 126, 0xd5_a600, 112, 0x72b6_8a83_4000, 47, 0x4000_0000_0000, 0x80_0000);
    assert(mul_spec(0x3f89_73e0, 0x38d5_a600) == 0x38e5_6d15);
    assert(0xe5_6d15 * 0x1_0000_0000_0000_0000 == 0x1_cada_2a00_0000_0000 * 0x80_0000 + 0x0);
    lemma_quotient_known(0x38e5_6d15, 0x3a80_0000, 0xe5_6d15, 112, 0x80_0000, 116, 0x1_cada_2a00_0000_0000, 0x0, 66, 0x2_0000_0000_0000_0000, 0x400_0000_0000);
    assert(div_spec(0x38e5_6d15, 0x3a80_0000) == 0x3de5_6d15);
    assert(0x9d_a010 * 0x200 + 0xe5_6d15 * 0x1 == 0x1_3c25_8d15);
    lemma_sum_known(0x421d_a010, 0x3de5_6d15, false, 0x9d_a010, 131, 0xe5_6d15, 122, 0x200, 0x1, 0x1_3c25_8d15, 33, 0x1_0000_0000, 0x200);
    assert(add_spec(0x421d_a010, 0x3de5_6d15) == 0x421e_12c7);
    lemma_whole_known(0x421e_12c7, 0x9e_12c7, 131, 0x4_0000);
}

/// Code 40.
proof fn lemma_code_40()
    ensures
        chord_code(0x3cad_d37d, 0x3cad_5e8d, 0x3cb5_5e8d, 0x4221_ebaf, 0x4226_00fe) == 40,
{
    reveal(chord_code);
    lemma2_to64();
    lemma2_to64_rest();
    lemma_high_powers();
    assert(0xb5_5e8d * 0x1 - 0xad_5e8d * 0x1 == 0x8_0000);
    lemma_sum_known(0x3cb5_5e8d, 0x3cad_5e8d, true, 0xb5_5e8d, 120, 0xad_5e8d, 120, 0x1, 0x1, 0x8_0000, 20, 0x8_0000, 0x10);
    assert(sub_spec(0x3cb5_5e8d, 0x3cad_5e8d) == 0x3a80_0000);
    assert(0xad_d37d * 0x1 - 0xad_5e8d * 0x1 == 0x74f0);
    lemma_sum_known(0x3cad_d37d, 0x3cad_5e8d, true, 0xad_d37d, 120, 0xad_5e8d, 120, 0x1, 0x1, 0x74f0, 15, 0x4000, 0x200);
    assert(sub_spec(0x3cad_d37d, 0x3cad_5e8d) == 0x3869_e000);
    assert(0xa6_00fe * 0x1 - 0xa1_ebaf * 0x1 == 0x4_154f);
    lemma_sum_known(0x4226_00fe, 0x4221_ebaf, true, 0xa6_00fe, 131, 0xa1_ebaf, 131, 0x1, 0x1, 0x4_154f, 19, 0x4_0000, 0x20);
    assert(sub_spec(0x4226_00fe, 0x4221_ebaf) == 0x3f82_a9e0);
    assert(0x82_a9e0 * 0xe9_e000 == 0x775e_f184_0000);
    lemma_product_known(0x3f82_a9e0, 0x3869_e000, 0x82_a9e0, 126, 0xe9_e000, 111, 0x775e_f184_0000, 47, 0x4000_0000_0000, 0x80_0000);
    assert(mul_spec(0x3f82_a9e0, 0x3869_e000) == 0x386e_bde3);
    assert(0xee_bde3 * 0x1_0000_0000_0000_0000 == 0x1_dd7b_c600_0000_0000 * 0x80_0000 + 0x0);
    lemma_quotient_known(0x386e_bde3, 0x3a80_0000, 0xee_bde3, 111, 0x80_0000, 116, 0x1_dd7b_c600_0000_0000, 0x0, 66, 0x2_0000_0000_0000_0000, 0x400_0000_0000);
    assert(div_spec(0x386e_bde3, 0x3a80_0000) == 0x3d6e_bde3);
    assert(0xa1_ebaf * 0x400 + 0xee_bde3 * 0x1 == 0x2_889d_79e3);
    lemma_sum_known(0x4221_ebaf, 0x3d6e_bde3, false, 0xa1_ebaf, 131, 0xee_bde3, 121, 0x400, 0x1, 0x2_889d_79e3, 34, 0x2_0000_0000, 0x400);
    assert(add_spec(0x4221_ebaf, 0x3d6e_bde3) == 0x4222_275e);
    lemma_whole_known(0x4222_275e, 0xa2_275e, 131, 0x4_0000);
}

/// Code 41.
proof fn lemma_code_41()
    ensures
        chord_code(0x3cb5_a602, 0x3cb5_5e8d, 0x3cbd_5e8d, 0x4226_00fe, 0x4229_f09e) == 41,
{
    reveal(chord_code);
    lemma2_to64();
    lemma2_to64_rest();
    lemma_high_powers();
    assert(0xbd_5e8d * 0x1 - 0xb5_5e8d * 0x1 == 0x8_0000);
    lemma_sum_known(0x3cbd_5e8d, 0x3cb5_5e8d, true, 0xbd_5e8d, 120, 0xb5_5e8d, 120, 0x1, 0x1, 0x8_0000, 20, 0x8_0000, 0x10);
    assert(sub_spec(0x3cbd_5e8d, 0x3cb5_5e8d) == 0x3a80_0000);
    assert(0xb5_a602 * 0x1 - 0xb5_5e8d * 0x1 == 0x4775);
    lemma_sum_known(0x3cb5_a602, 0x3cb5_5e8d, true, 0xb5_a602, 120, 0xb5_5e8d, 120, 0x1, 0x1, 0x4775, 15, 0x4000, 0x200);
    assert(sub_spec(0x3cb5_a602, 0x3cb5_5e8d) == 0x380e_ea00);
    assert(0xa9_f09e * 0x1 - 0xa6_00fe * 0x1 == 0x3_efa0);
    lemma_sum_known(0x4229_f09e, 0x4226_00fe, true, 0xa9_f09e, 131, 0xa6_00fe, 131, 0x1, 0x1, 0x3_efa0, 18, 0x2_0000, 0x40);
    assert(sub_spec(0x4229_f09e, 0x4226_00fe) == 0x3f7b_e800);
    assert(0xfb_e800 * 0x8e_ea00 == 0x8ca0_f210_0000);
    lemma_product_known(0x3f7b_e800, 0x380e_ea00, 0xfb_e800, 125, 0x8e_ea00, 111, 0x8ca0_f210_0000, 48, 0x8000_0000_0000, 0x100_0000);
    assert(mul_spec(0x3f7b_e800, 0x380e_ea00) == 0x380c_a0f2);
    assert(0x8c_a0f2 * 0x1_0000_0000_0000_0000 == 0x1_1941_e400_0000_0000 * 0x80_0000 + 0x0);
    lemma_quotient_known(0x380c_a0f2, 0x3a80_0000, 0x8c_a0f2, 111, 0x80_0000, 116, 0x1_1941_e400_0000_0000, 0x0, 66, 0x2_0000_0000_0000_0000, 0x400_0000_0000);
    assert(div_spec(0x380c_a0f2, 0x3a80_0000) == 0x3d0c_a0f2);
    assert(0xa6_00fe * 0x400 + 0x8c_a0f2 * 0x1 == 0x2_9890_98f2);
    lemma_sum_known(0x4226_00fe, 0x3d0c_a0f2, false, 0xa6_00fe, 131, 0x8c_a0f2, 121, 0x400, 0x1, 0x2_9890_98f2, 34, 0x2_0000_0000, 0x400);
    assert(add_spec(0x4226_00fe, 0x3d0c_a0f2) == 0x4226_2426);
    lemma_whole_known(0x4226_2426, 0xa6_2426, 131, 0x4_0000);
}

/// Code 42.
proof fn lemma_code_42()
    ensures
        chord_code(0x3cbd_ac21, 0x3cbd_5e8d, 0x3cc5_5e8d, 0x4229_f09e, 0x422d_c34a) == 42,
{
    reveal(chord_code);
    lemma2_to64();
    lemma2_to64_rest();
    lemma_high_powers();
    assert(0xc5_5e8d * 0x1 - 0xbd_5e8d * 0x1 == 0x8_0000);
    lemma_sum_known(0x3cc5_5e8d, 0x3cbd_5e8d, true, 0xc5_5e8d, 120, 0xbd_5e8d, 120, 0x1, 0x1, 0x8_0000, 20, 0x8_0000, 0x10);
    assert(sub_spec(0x3cc5_5e8d, 0x3cbd_5e8d) == 0x3a80_0000);
    assert(0xbd_ac21 * 0x1 - 0xbd_5e8d * 0x1 == 0x4d94);
    lemma_sum_known(0x3cbd_ac21, 0x3cbd_5e8d, true, 0xbd_ac21, 120, 0xbd_5e8d, 120, 0x1, 0x1, 0x4d94, 15, 0x4000, 0x200);
    assert(sub_spec(0x3cbd_ac21, 0x3cbd_5e8d) == 0x381b_2800);
    assert(0xad_c34a * 0x1 - 0xa9_f09e * 0x1 == 0x3_d2ac);
    lemma_sum_known(0x422d_c34a, 0x4229_f09e, true, 0xad_c34a, 131, 0xa9_f09e, 131, 0x1, 0x1, 0x3_d2ac, 18, 0x2_0000, 0x40);
    assert(sub_spec(0x422d_c34a, 0x4229_f09e) == 0x3f74_ab00);
    assert(0xf4_ab00 * 0x9b_2800 == 0x9449_c3b8_0000);
    lemma_product_known(0x3f74_ab00, 0x381b_2800, 0xf4_ab00, 125, 0x9b_2800, 111, 0x9449_c3b8_0000, 48, 0x8000_0000_0000, 0x100_0000);
    assert(mul_spec(0x3f74_ab00, 0x381b_2800) == 0x3814_49c4);
    assert(0x94_49c4 * 0x1_0000_0000_0000_0000 == 0x1_2893_8800_0000_0000 * 0x80_0000 + 0x0);
    lemma_quotient_known(0x3814_49c4, 0x3a80_0000, 0x94_49c4, 111, 0x80_0000, 116, 0x1_2893_8800_0000_0000, 0x0, 66, 0x2_0000_0000_0000_0000, 0x400_0000_0000);
    assert(div_spec(0x3814_49c4, 0x3a80_0000) == 0x3d14_49c4);
    assert(0xa9_f09e * 0x400 + 0x94_49c4 * 0x1 == 0x2_a856_c1c4);
    lemma_sum_known(0x4229_f09e, 0x3d14_49c4, false, 0xa9_f09e, 131, 0x94_49c4, 121, 0x400, 0x1, 0x2_a856_c1c4, 34, 0x2_0000_0000, 0x400);
    assert(add_spec(0x4229_f09e, 0x3d14_49c4) == 0x422a_15b0);
    lemma_whole_known(0x422a_15b0, 0xaa_15b0, 131, 0x4_0000);
}

/// Code 43.
proof fn lemma_code_43()
    ensures
        chord_code(0x3cc5_e63a, 0x3cc5_5e8d, 0x3ccd_5e8d, 0x422d_c34a, 0x4231_aaf1) == 43,
{
    reveal(chord_code);
    lemma2_to64();
    lemma2_to64_rest();
    lemma_high_powers();
    assert(0xcd_5e8d * 0x1 - 0xc5_5e8d * 0x1 == 0x8_0000);
    lemma_sum_known(0x3ccd_5e8d, 0x3cc5_5e8d, true, 0xcd_5e8d, 120, 0xc5_5e8d, 120, 0x1, 0x1, 0x8_0000, 20, 0x8_0000, 0x10);
    assert(sub_spec(0x3ccd_5e8d, 0x3cc5_5e8d) == 0x3a80_0000);
    assert(0xc5_e63a * 0x1 - 0xc5_5e8d * 0x1 == 0x87ad);
    lemma_sum_known(0x3cc5_e63a, 0x3cc5_5e8d, true, 0xc5_e63a, 120, 0xc5_5e8d, 120, 0x1, 0x1, 0x87ad, 16, 0x8000, 0x100);
    assert(sub_spec(0x3cc5_e63a, 0x3cc5_5e8d) == 0x3887_ad00);
    assert(0xb1_aaf1 * 0x1 - 0xad_c34a * 0x1 == 0x3_e7a7);
    lemma_sum_known(0x4231_aaf1, 0x422d_c34a, true, 0xb1_aaf1, 131, 0xad_c34a, 131, 0x1, 0x1, 0x3_e7a7, 18, 0x2_0000, 0x40);
    assert(sub_spec(0x4231_aaf1, 0x422d_c34a) == 0x3f79_e9c0);
    assert(0xf9_e9c0 * 0x87_ad00 == 0x8473_2736_c000);
    lemma_product_known(0x3f79_e9c0, 0x3887_ad00, 0xf9_e9c0, 125, 0x87_ad00, 112, 0x8473_2736_c000, 48, 0x8000_0000_0000, 0x100_0000);
    assert(mul_spec(0x3f79_e9c0, 0x3887_ad00) == 0x3884_7327);
    assert(0x84_7327 * 0x1_0000_0000_0000_0000 == 0x1_08e6_4e00_0000_0000 * 0x80_0000 + 0x0);
    lemma_quotient_known(0x3884_7327, 0x3a80_0000, 0x84_7327, 112, 0x80_0000, 116, 0x1_08e6_4e00_0000_0000, 0x0, 66, 0x2_0000_0000_0000_0000, 0x400_0000_0000);
    assert(div_spec(0x3884_7327, 0x3a80_0000) == 0x3d84_7327);
    assert(0xad_c34a * 0x200 + 0x84_7327 * 0x1 == 0x1_5c0b_0727);
    lemma_sum_known(0x422d_c34a, 0x3d84_7327, false, 0xad_c34a, 131, 0x84_7327, 122, 0x200, 0x1, 0x1_5c0b_0727, 33, 0x1_0000_0000, 0x200);
    assert(add_spec(0x422d_c34a, 0x3d84_7327) == 0x422e_0584);
    lemma_whole_known(0x422e_0584, 0xae_0584, 131, 0x4_0000);
}

/// Code 44.
proof fn lemma_code_44()
    ensures
        chord_code(0x3cce_54ac, 0x3ccd_5e8d, 0x3cd5_5e8d, 0x4231_aaf1, 0x4235_553f) == 44,
{
    reveal(chord_code);
    lemma2_to64();
    lemma2_to64_rest();
    lemma_high_powers();
    assert(0xd5_5e8d * 0x1 - 0xcd_5e8d * 0x1 == 0x8_0000);
    lemma_sum_known(0x3cd5_5e8d, 0x3ccd_5e8d, true, 0xd5_5e8d, 120, 0xcd_5e8d, 120, 0x1, 0x1, 0x8_0000, 20, 0x8_0000, 0x10);
    assert(sub_spec(0x3cd5_5e8d, 0x3ccd_5e8d) == 0x3a80_0000);
    assert(0xce_54ac * 0x1 - 0xcd_5e8d * 0x1 == 0xf61f);
    lemma_sum_known(0x3cce_54ac, 0x3ccd_5e8d, true, 0xce_54ac, 120, 0xcd_5e8d, 120, 0x1, 0x1, 0xf61f, 16, 0x8000, 0x100);
    assert(sub_spec(0x3cce_54ac, 0x3ccd_5e8d) == 0x38f6_1f00);
    assert(0xb5_553f * 0x1 - 0xb1_aaf1 * 0x1 == 0x3_aa4e);
    lemma_sum_known(0x4235_553f, 0x4231_aaf1, true, 0xb5_553f, 131, 0xb1_aaf1, 131, 0x1, 0x1, 0x3_aa4e, 18, 0x2_0000, 0x40);
    assert(sub_spec(0x4235_553f, 0x4231_aaf1) == 0x3f6a_9380);
    assert(0xea_9380 * 0xf6_1f00 == 0xe186_24dc_8000);
    lemma_product_known(0x3f6a_9380, 0x38f6_1f00, 0xea_9380, 125, 0xf6_1f00, 112, 0xe186_24dc_8000, 48, 0x8000_0000_0000, 0x100_0000);
    assert(mul_spec(0x3f6a_9380, 0x38f6_1f00) == 0x38e1_8625);
    assert(0xe1_8625 * 0x1_0000_0000_0000_0000 == 0x1_c30c_4a00_0000_0000 * 0x80_0000 + 0x0);
    lemma_quotient_known(0x38e1_8625, 0x3a80_0000, 0xe1_8625, 112, 0x80_0000, 116, 0x1_c30c_4a00_0000_0000, 0x0, 66, 0x2_0000_0000_0000_0000, 0x400_0000_0000);
    assert(div_spec(0x38e1_8625, 0x3a80_0000) == 0x3de1_8625);
    assert(0xb1_aaf1 * 0x200 + 0xe1_8625 * 0x1 == 0x1_6437_6825);
    lemma_sum_known(0x4231_aaf1, 0x3de1_8625, false, 0xb1_aaf1, 131, 0xe1_8625, 122, 0x200, 0x1, 0x1_6437_6825, 33, 0x1_0000_0000, 0x200);
    assert(add_spec(0x4231_aaf1, 0x3de1_8625) == 0x4232_1bb4);
    lemma_whole_known(0x4232_1bb4, 0xb2_1bb4, 131, 0x4_0000);
}

/// Code 45.
proof fn lemma_code_45()
    ensures
        chord_code(0x3cd6_f7d5, 0x3cd5_5e8d, 0x3cdd_5e8d, 0x4235_553f, 0x4238_f9e8) == 45,
{
    reveal(chord_code);
    lemma2_to64();
    lemma2_to64_rest();
    lemma_high_powers();
    assert(0xdd_5e8d * 0x1 - 0xd5_5e8d * 0x1 == 0x8_0000);
    lemma_sum_known(0x3cdd_5e8d, 0x3cd5_5e8d, true, 0xdd_5e8d, 120, 0xd5_5e8d, 120, 0x1, 0x1, 0x8_0000, 20, 0x8_0000, 0x10);
    assert(sub_spec(0x3cdd_5e8d, 0x3cd5_5e8d) == 0x3a80_0000);
    assert(0xd6_f7d5 * 0x1 - 0xd5_5e8d * 0x1 == 0x1_9948);
    lemma_sum_known(0x3cd6_f7d5, 0x3cd5_5e8d, true, 0xd6_f7d5, 120, 0xd5_5e8d, 120, 0x1, 0x1, 0x1_9948, 17, 0x1_0000, 0x80);
    assert(sub_spec(0x3cd6_f7d5, 0x3cd5_5e8d) == 0x394c_a400);
    assert(0xb8_f9e8 * 0x1 - 0xb5_553f * 0x1 == 0x3_a4a9);
    lemma_sum_known(0x4238_f9e8, 0x4235_553f, true, 0xb8_f9e8, 131, 0xb5_553f, 131, 0x1, 0x1, 0x3_a4a9, 18, 0x2_0000, 0x40);
    assert(sub_spec(0x4238_f9e8, 0x4235_553f) == 0x3f69_2a40);
    assert(0xe9_2a40 * 0xcc_a400 == 0xba63_0a11_0000);
    lemma_product_known(0x3f69_2a40, 0x394c_a400, 0xe9_2a40, 125, 0xcc_a400, 113, 0xba63_0a11_0000, 48, 0x8000_0000_0000, 0x100_0000);
    assert(mul_spec(0x3f69_2a40, 0x394c_a400) == 0x393a_630a);
    assert(0xba_630a * 0x1_0000_0000_0000_0000 == 0x1_74c6_1400_0000_0000 * 0x80_0000 + 0x0);
    lemma_quotient_known(0x393a_630a, 0x3a80_0000, 0xba_630a, 113, 0x80_0000, 116, 0x1_74c6_1400_0000_0000, 0x0, 66, 0x2_0000_0000_0000_0000, 0x400_0000_0000);
    assert(div_spec(0x393a_630a, 0x3a80_0000) == 0x3e3a_630a);
    assert(0xb5_553f * 0x100 + 0xba_630a * 0x1 == 0xb60f_a20a);
    lemma_sum_known(0x4235_553f, 0x3e3a_630a, false, 0xb5_553f, 131, 0xba_630a, 123, 0x100, 0x1, 0xb60f_a20a, 32, 0x8000_0000, 0x100);
    assert(add_spec(0x4235_553f, 0x3e3a_630a) == 0x4236_0fa2);
    lemma_whole_known(0x4236_0fa2, 0xb6_0fa2, 131, 0x4_0000);
}

/// Code 46.
proof fn lemma_code_46()
    ensures
        chord_code(0x3cdf_d010, 0x3cdd_5e8d, 0x3ce5_5e8d, 0x4238_f9e8, 0x423c_75d8) == 46,
{
    reveal(chord_code);
    lemma2_to64();
    lemma2_to64_rest();
    lemma_high_powers();
    assert(0xe5_5e8d * 0x1 - 0xdd_5e8d * 0x1 == 0x8_0000);
    lemma_sum_known(0x3ce5_5e8d, 0x3cdd_5e8d, true, 0xe5_5e8d, 120, 0xdd_5e8d, 120, 0x1, 0x1, 0x8_0000, 20, 0x8_0000, 0x10);
    assert(sub_spec(0x3ce5_5e8d, 0x3cdd_5e8d) == 0x3a80_0000);
    assert(0xdf_d010 * 0x1 - 0xdd_5e8d * 0x1 == 0x2_7183);
    lemma_sum_known(0x3cdf_d010, 0x3cdd_5e8d, true, 0xdf_d010, 120, 0xdd_5e8d, 120, 0x1, 0x1, 0x2_7183, 18, 0x2_0000, 0x40);
    assert(sub_spec(0x3cdf_d010, 0x3cdd_5e8d) == 0x399c_60c0);
    assert(0xbc_75d8 * 0x1 - 0xb8_f9e8 * 0x1 == 0x3_7bf0);
    lemma_sum_known(0x423c_75d8, 0x4238_f9e8, true, 0xbc_75d8, 131, 0xb8_f9e8, 131, 0x1, 0x1, 0x3_7bf0, 18, 0x2_0000, 0x40);
    assert(sub_spec(0x423c_75d8, 0x4238_f9e8) == 0x3f5e_fc00);
    assert(0xde_fc00 * 0x9c_60c0 == 0x8835_d5bd_0000);
    lemma_product_known(0x3f5e_fc00, 0x399c_60c0, 0xde_fc00, 125, 0x9c_60c0, 114, 0x8835_d5bd_0000, 48, 0x8000_0000_0000, 0x100_0000);
    assert(mul_spec(0x3f5e_fc00, 0x399c_60c0) == 0x3988_35d6);
    assert(0x88_35d6 * 0x1_0000_0000_0000_0000 == 0x1_106b_ac00_0000_0000 * 0x80_0000 + 0x0);
    lemma_quotient_known(0x3988_35d6, 0x3a80_0000, 0x88_35d6, 114, 0x80_0000, 116, 0x1_106b_ac00_0000_0000, 0x0, 66, 0x2_0000_0000_0000_0000, 0x400_0000_0000);
    assert(div_spec(0x3988_35d6, 0x3a80_0000) == 0x3e88_35d6);
    assert(0xb8_f9e8 * 0x80 + 0x88_35d6 * 0x1 == 0x5d05_29d6);
    lemma_sum_known(0x4238_f9e8, 0x3e88_35d6, false, 0xb8_f9e8, 131, 0x88_35d6, 124, 0x80, 0x1, 0x5d05_29d6, 31, 0x4000_0000, 0x80);
    assert(add_spec(0x4238_f9e8, 0x3e88_35d6) == 0x423a_0a54);
    lemma_whole_known(0x423a_0a54, 0xba_0a54, 131, 0x4_0000);
}

/// Code 47.
proof fn lemma_code_47()
    ensures
        chord_code(0x3ce8_ddba, 0x3ce5_5e8d, 0x3ced_5e8d, 0x423c_75d8, 0x4240_00c7) == 47,
{
    reveal(chord_code);
    lemma2_to64();
    lemma2_to64_rest();
    lemma_high_powers();
    assert(0xed_5e8d * 0x1 - 0xe5_5e8d * 0x1 == 0x8_0000);
    lemma_sum_known(0x3ced_5e8d, 0x3ce5_5e8d, true, 0xed_5e8d, 120, 0xe5_5e8d, 120, 0x1, 0x1, 0x8_0000, 20, 0x8_0000, 0x10);
    assert(sub_spec(0x3ced_5e8d, 0x3ce5_5e8d) == 0x3a80_0000);
    assert(0xe8_ddba * 0x1 - 0xe5_5e8d * 0x1 == 0x3_7f2d);
    lemma_sum_known(0x3ce8_ddba, 0x3ce5_5e8d, true, 0xe8_ddba, 120, 0xe5_5e8d, 120, 0x1, 0x1, 0x3_7f2d, 18, 0x2_0000, 0x40);
    assert(sub_spec(0x3ce8_ddba, 0x3ce5_5e8d) == 0x39df_cb40);
    assert(0xc0_00c7 * 0x1 - 0xbc_75d8 * 0x1 == 0x3_8aef);
    lemma_sum_known(0x4240_00c7, 0x423c_75d8, true, 0xc0_00c7, 131, 0xbc_75d8, 131, 0x1, 0x1, 0x3_8aef, 18, 0x2_0000, 0x40);
    assert(sub_spec(0x4240_00c7, 0x423c_75d8) == 0x3f62_bbc0);
    assert(0xe2_bbc0 * 0xdf_cb40 == 0xc635_8fd0_3000);
    lemma_product_known(0x3f62_bbc0, 0x39df_cb40, 0xe2_bbc0, 125, 0xdf_cb40, 114, 0xc635_8fd0_3000, 48, 0x8000_0000_0000, 0x100_0000);
    assert(mul_spec(0x3f62_bbc0, 0x39df_cb40) == 0x39c6_3590);
    assert(0xc6_3590 * 0x1_0000_0000_0000_0000 == 0x1_8c6b_2000_0000_0000 * 0x80_0000 + 0x0);
    lemma_quotient_known(0x39c6_3590, 0x3a80_0000, 0xc6_3590, 114, 0x80_0000, 116, 0x1_8c6b_2000_0000_0000, 0x0, 66, 0x2_0000_0000_0000_0000, 0x400_0000_0000);
    assert(div_spec(0x39c6_3590, 0x3a80_0000) == 0x3ec6_3590);
    assert(0xbc_75d8 * 0x80 + 0xc6_3590 * 0x1 == 0x5f01_2190);
    lemma_sum_known(0x423c_75d8, 0x3ec6_3590, false, 0xbc_75d8, 131, 0xc6_3590, 124, 0x80, 0x1, 0x5f01_2190, 31, 0x4000_0000, 0x80);
    assert(add_spec(0x423c_75d8, 0x3ec6_3590) == 0x423e_0243);
    lemma_whole_known(0x423e_0243, 0xbe_0243, 131, 0x4_0000);
}

/// Code 48.
proof fn lemma_code_48()
    ensures
        chord_code(0x3cf2_212d, 0x3ced_5e8d, 0x3cf5_5e8d, 0x4240_00c7, 0x4243_7283) == 48,
{
    reveal(chord_code);
    lemma2_to64();
    lemma2_to64_rest();
    lemma_high_powers();
    assert(0xf5_5e8d * 0x1 - 0xed_5e8d * 0x1 == 0x8_0000);
    lemma_sum_known(0x3cf5_5e8d, 0x3ced_5e8d, true, 0xf5_5e8d, 120, 0xed_5e8d, 120, 0x1, 0x1, 0x8_0000, 20, 0x8_0000, 0x10);
    assert(sub_spec(0x3cf5_5e8d, 0x3ced_5e8d) == 0x3a80_0000);
    assert(0xf2_212d * 0x1 - 0xed_5e8d * 0x1 == 0x4_c2a0);
    lemma_sum_known(0x3cf2_212d, 0x3ced_5e8d, true, 0xf2_212d, 120, 0xed_5e8d, 120, 0x1, 0x1, 0x4_c2a0, 19, 0x4_0000, 0x20);
    assert(sub_spec(0x3cf2_212d, 0x3ced_5e8d) == 0x3a18_5400);
    assert(0xc3_7283 * 0x1 - 0xc0_00c7 * 0x1 == 0x3_71bc);
    lemma_sum_known(0x4243_7283, 0x4240_00c7, true, 0xc3_7283, 131, 0xc0_00c7, 131, 0x1, 0x1, 0x3_71bc, 18, 0x2_0000, 0x40);
    assert(sub_spec(0x4243_7283, 0x4240_00c7) == 0x3f5c_6f00);
    assert(0xdc_6f00 * 0x98_5400 == 0x832a_3c6c_0000);
    lemma_product_known(0x3f5c_6f00, 0x3a18_5400, 0xdc_6f00, 125, 0x98_5400, 115, 0x832a_3c6c_0000, 48, 0x8000_0000_0000, 0x100_0000);
    assert(mul_spec(0x3f5c_6f00, 0x3a18_5400) == 0x3a03_2a3c);
    assert(0x83_2a3c * 0x1_0000_0000_0000_0000 == 0x1_0654_7800_0000_0000 * 0x80_0000 + 0x0);
    lemma_quotient_known(0x3a03_2a3c, 0x3a80_0000, 0x83_2a3c, 115, 0x80_0000, 116, 0x1_0654_7800_0000_0000, 0x0, 66, 0x2_0000_0000_0000_0000, 0x400_0000_0000);
    assert(div_spec(0x3a03_2a3c, 0x3a80_0000) == 0x3f03_2a3c);
    assert(0xc0_00c7 * 0x40 + 0x83_2a3c * 0x1 == 0x3083_5bfc);
    lemma_sum_known(0x4240_00c7, 0x3f03_2a3c, false, 0xc0_00c7, 131, 0x83_2a3c, 125, 0x40, 0x1, 0x3083_5bfc, 30, 0x2000_0000, 0x40);
    assert(add_spec(0x4240_00c7, 0x3f03_2a3c) == 0x4242_0d70);
    lemma_whole_known(0x4242_0d70, 0xc2_0d70, 131, 0x4_0000);
}

/// Code 49.
proof fn lemma_code_49()
    ensures
        chord_code(0x3cfb_9ac3, 0x3cf5_5e8d, 0x3cfd_5e8d, 0x4243_7283, 0x4246_c250) == 49,
{
    reveal(chord_code);
    lemma2_to64();
    lemma2_to64_rest();
    lemma_high_powers();
    assert(0xfd_5e8d * 0x1 - 0xf5_5e8d * 0x1 == 0x8_0000);
    lemma_sum_known(0x3cfd_5e8d, 0x3cf5_5e8d, true, 0xfd_5e8d, 120, 0xf5_5e8d, 120, 0x1, 0x1, 0x8_0000, 20, 0x8_0000, 0x10);
    assert(sub_spec(0x3cfd_5e8d, 0x3cf5_5e8d) == 0x3a80_0000);
    assert(0xfb_9ac3 * 0x1 - 0xf5_5e8d * 0x1 == 0x6_3c36);
    lemma_sum_known(0x3cfb_9ac3, 0x3cf5_5e8d, true, 0xfb_9ac3, 120, 0xf5_5e8d, 120, 0x1, 0x1, 0x6_3c36, 19, 0x4_0000, 0x20);
    assert(sub_spec(0x3cfb_9ac3, 0x3cf5_5e8d) == 0x3a47_86c0);
    assert(0xc6_c250 * 0x1 - 0xc3_7283 * 0x1 == 0x3_4fcd);
    lemma_sum_known(0x4246_c250, 0x4243_7283, true, 0xc6_c250, 131, 0xc3_7283, 131, 0x1, 0x1, 0x3_4fcd, 18, 0x2_0000, 0x40);
    assert(sub_spec(0x4246_c250, 0x4243_7283) == 0x3f53_f340);
    assert(0xd3_f340 * 0xc7_86c0 == 0xa531_a709_f000);
    lemma_product_known(0x3f53_f340, 0x3a47_86c0, 0xd3_f340, 125, 0xc7_86c0, 115, 0xa531_a709_f000, 48, 0x8000_0000_0000, 0x100_0000);
    assert(mul_spec(0x3f53_f340, 0x3a47_86c0) == 0x3a25_31a7);
    assert(0xa5_31a7 * 0x1_0000_0000_0000_0000 == 0x1_4a63_4e00_0000_0000 * 0x80_0000 + 0x0);
    lemma_quotient_known(0x3a25_31a7, 0x3a80_0000, 0xa5_31a7, 115, 0x80_0000, 116, 0x1_4a63_4e00_0000_0000, 0x0, 66, 0x2_0000_0000_0000_0000, 0x400_0000_0000);
    assert(div_spec(0x3a25_31a7, 0x3a80_0000) == 0x3f25_31a7);
    assert(0xc3_7283 * 0x40 + 0xa5_31a7 * 0x1 == 0x3181_d267);
    lemma_sum_known(0x4243_7283, 0x3f25_31a7, false, 0xc3_7283, 131, 0xa5_31a7, 125, 0x40, 0x1, 0x3181_d267, 30, 0x2000_0000, 0x40);
    assert(add_spec(0x4243_7283, 0x3f25_31a7) == 0x4246_074a);
    lemma_whole_known(0x4246_074a, 0xc6_074a, 131, 0x4_0000);
}

/// Code 50.
proof fn lemma_code_50()
    ensures
        chord_code(0x3d02_a56a, 0x3cfd_5e8d, 0x3d05_5e8d, 0x4246_c250, 0x424c_3c5d) == 50,
{
    reveal(chord_code);
    lemma2_to64();
    lemma2_to64_rest();
    lemma_high_powers();
    assert(0x85_5e8d * 0x2 - 0xfd_5e8d * 0x1 == 0xd_5e8d);
    lemma_sum_known(0x3d05_5e8d, 0x3cfd_5e8d, true, 0x85_5e8d, 121, 0xfd_5e8d, 120, 0x2, 0x1, 0xd_5e8d, 20, 0x8_0000, 0x10);
    assert(sub_spec(0x3d05_5e8d, 0x3cfd_5e8d) == 0x3ad5_e8d0);
    assert(0x82_a56a * 0x2 - 0xfd_5e8d * 0x1 == 0x7_ec47);
    lemma_sum_known(0x3d02_a56a, 0x3cfd_5e8d, true, 0x82_a56a, 121, 0xfd_5e8d, 120, 0x2, 0x1, 0x7_ec47, 19, 0x4_0000, 0x20);
    assert(sub_spec(0x3d02_a56a, 0x3cfd_5e8d) == 0x3a7d_88e0);
    assert(0xcc_3c5d * 0x1 - 0xc6_c250 * 0x1 == 0x5_7a0d);
    lemma_sum_known(0x424c_3c5d, 0x4246_c250, true, 0xcc_3c5d, 131, 0xc6_c250, 131, 0x1, 0x1, 0x5_7a0d, 19, 0x4_0000, 0x20);
    assert(sub_spec(0x424c_3c5d, 0x4246_c250) == 0x3faf_41a0);
    assert(0xaf_41a0 * 0xfd_88e0 == 0xad91_8f56_6c00);
    lemma_product_known(0x3faf_41a0, 0x3a7d_88e0, 0xaf_41a0, 126, 0xfd_88e0, 115, 0xad91_8f56_6c00, 48, 0x8000_0000_0000, 0x100_0000);
    assert(mul_spec(0x3faf_41a0, 0x3a7d_88e0) == 0x3aad_918f);
    assert(0xad_918f * 0x1_0000_0000_0000_0000 == 0xcfb8_abb5_e521_2039 * 0xd5_e8d0 + 0x75_29b0);
    lemma_quotient_known(0x3aad_918f, 0x3ad5_e8d0, 0xad_918f, 116, 0xd5_e8d0, 116, 0xcfb8_abb5_e521_2039, 0x75_29b0, 65, 0x1_0000_0000_0000_0000, 0x200_0000_0000);
    assert(div_spec(0x3aad_918f, 0x3ad5_e8d0) == 0x3f4f_b8ac);
    assert(0xc6_c250 * 0x40 + 0xcf_b8ac * 0x1 == 0x3280_4cac);
    lemma_sum_known(0x4246_c250, 0x3f4f_b8ac, false, 0xc6_c250, 131, 0xcf_b8ac, 125, 0x40, 0x1, 0x3280_4cac, 30, 0x2000_0000, 0x40);
    assert(add_spec(0x4246_c250, 0x3f4f_b8ac) == 0x424a_0133);
    lemma_whole_known(0x424a_0133, 0xca_0133, 131, 0x4_0000);
}

/// Code 51.
proof fn lemma_code_51()
    ensures
        chord_code(0x3d07_98dd, 0x3d05_5e8d, 0x3d0d_5e8d, 0x424c_3c5d, 0x4252_9b93) == 51,
{
    reveal(chord_code);
    lemma2_to64();
    lemma2_to64_rest();
    lemma_high_powers();
    assert(0x8d_5e8d * 0x1 - 0x85_5e8d * 0x1 == 0x8_0000);
    lemma_sum_known(0x3d0d_5e8d, 0x3d05_5e8d, true, 0x8d_5e8d, 121, 0x85_5e8d, 121, 0x1, 0x1, 0x8_0000, 20, 0x8_0000, 0x10);
    assert(sub_spec(0x3d0d_5e8d, 0x3d05_5e8d) == 0x3b00_0000);
    assert(0x87_98dd * 0x1 - 0x85_5e8d * 0x1 == 0x2_3a50);
    lemma_sum_known(0x3d07_98dd, 0x3d05_5e8d, true, 0x87_98dd, 121, 0x85_5e8d, 121, 0x1, 0x1, 0x2_3a50, 18, 0x2_0000, 0x40);
    assert(sub_spec(0x3d07_98dd, 0x3d05_5e8d) == 0x3a0e_9400);
    assert(0xd2_9b93 * 0x1 - 0xcc_3c5d * 0x1 == 0x6_5f36);
    lemma_sum_known(0x4252_9b93, 0x424c_3c5d, true, 0xd2_9b93, 131, 0xcc_3c5d, 131, 0x1, 0x1, 0x6_5f36, 19, 0x4_0000, 0x20);
    assert(sub_spec(0x4252_9b93, 0x424c_3c5d) == 0x3fcb_e6c0);
    assert(0xcb_e6c0 * 0x8e_9400 == 0x718f_dfe7_0000);
    lemma_product_known(0x3fcb_e6c0, 0x3a0e_9400, 0xcb_e6c0, 126, 0x8e_9400, 115, 0x718f_dfe7_0000, 47, 0x4000_0000_0000, 0x80_0000);
    assert(mul_spec(0x3fcb_e6c0, 0x3a0e_9400) == 0x3a63_1fc0);
    assert(0xe3_1fc0 * 0x1_0000_0000_0000_0000 == 0x1_c63f_8000_0000_0000 * 0x80_0000 + 0x0);
    lemma_quotient_known(0x3a63_1fc0, 0x3b00_0000, 0xe3_1fc0, 115, 0x80_0000, 117, 0x1_c63f_8000_0000_0000, 0x0, 66, 0x2_0000_0000_0000_0000, 0x400_0000_0000);
    assert(div_spec(0x3a63_1fc0, 0x3b00_0000) == 0x3ee3_1fc0);
    assert(0xcc_3c5d * 0x80 + 0xe3_1fc0 * 0x1 == 0x6701_4e40);
    lemma_sum_known(0x424c_3c5d, 0x3ee3_1fc0, false, 0xcc_3c5d, 131, 0xe3_1fc0, 124, 0x80, 0x1, 0x6701_4e40, 31, 0x4000_0000, 0x80);
    assert(add_spec(0x424c_3c5d, 0x3ee3_1fc0) == 0x424e_029c);
    lemma_whole_known(0x424e_029c, 0xce_029c, 131, 0x4_0000);
}

/// Code 52.
proof fn lemma_code_52()
    ensures
        chord_code(0x3d0c_a7e6, 0x3d05_5e8d, 0x3d0d_5e8d, 0x424c_3c5d, 0x4252_9b93) == 52,
{
    reveal(chord_code);
    lemma2_to64();
    lemma2_to64_rest();
    lemma_high_powers();
    assert(0x8d_5e8d * 0x1 - 0x85_5e8d * 0x1 == 0x8_0000);
    lemma_sum_known(0x3d0d_5e8d, 0x3d05_5e8d, true, 0x8d_5e8d, 121, 0x85_5e8d, 121, 0x1, 0x1, 0x8_0000, 20, 0x8_0000, 0x10);
    assert(sub_spec(0x3d0d_5e8d, 0x3d05_5e8d) == 0x3b00_0000);
    assert(0x8c_a7e6 * 0x1 - 0x85_5e8d * 0x1 == 0x7_4959);
    lemma_sum_known(0x3d0c_a7e6, 0x3d05_5e8d, true, 0x8c_a7e6, 121, 0x85_5e8d, 121, 0x1, 0x1, 0x7_4959, 19, 0x4_0000, 0x20);
    assert(sub_spec(0x3d0c_a7e6, 0x3d05_5e8d) == 0x3ae9_2b20);
    assert(0xd2_9b93 * 0x1 - 0xcc_3c5d * 0x1 == 0x6_5f36);
    lemma_sum_known(0x4252_9b93, 0x424c_3c5d, true, 0xd2_9b93, 131, 0xcc_3c5d, 131, 0x1, 0x1, 0x6_5f36, 19, 0x4_0000, 0x20);
    assert(sub_spec(0x4252_9b93, 0x424c_3c5d) == 0x3fcb_e6c0);
    assert(0xcb_e6c0 * 0xe9_2b20 == 0xb9b7_5dff_1800);
    lemma_product_known(0x3fcb_e6c0, 0x3ae9_2b20, 0xcb_e6c0, 126, 0xe9_2b20, 116, 0xb9b7_5dff_1800, 48, 0x8000_0000_0000, 0x100_0000);
    assert(mul_spec(0x3fcb_e6c0, 0x3ae9_2b20) == 0x3b39_b75e);
    assert(0xb9_b75e * 0x1_0000_0000_0000_0000 == 0x1_736e_bc00_0000_0000 * 0x80_0000 + 0x0);
    lemma_quotient_known(0x3b39_b75e, 0x3b00_0000, 0xb9_b75e, 117, 0x80_0000, 117, 0x1_736e_bc00_0000_0000, 0x0, 66, 0x2_0000_0000_0000_0000, 0x400_0000_0000);
    assert(div_spec(0x3b39_b75e, 0x3b00_0000) == 0x3fb9_b75e);
    assert(0xcc_3c5d * 0x20 + 0xb9_b75e * 0x1 == 0x1a41_42fe);
    lemma_sum_known(0x424c_3c5d, 0x3fb9_b75e, false, 0xcc_3c5d, 131, 0xb9_b75e, 126, 0x20, 0x1, 0x1a41_42fe, 29, 0x1000_0000, 0x20);
    assert(add_spec(0x424c_3c5d, 0x3fb9_b75e) == 0x4252_0a18);
    lemma_whole_known(0x4252_0a18, 0xd2_0a18, 131, 0x4_0000);
}

/// Code 53.
proof fn lemma_code_53()
    ensures
        chord_code(0x3d11_d2af, 0x3d0d_5e8d, 0x3d15_5e8d, 0x4252_9b93, 0x4258_bd84) == 53,
{
    reveal(chord_code);
    lemma2_to64();
    lemma2_to64_rest();
    lemma_high_powers();
    assert(0x95_5e8d * 0x1 - 0x8d_5e8d * 0x1 == 0x8_0000);
    lemma_sum_known(0x3d15_5e8d, 0x3d0d_5e8d, true, 0x95_5e8d, 121, 0x8d_5e8d, 121, 0x1, 0x1, 0x8_0000, 20, 0x8_0000, 0x10);
    assert(sub_spec(0x3d15_5e8d, 0x3d0d_5e8d) == 0x3b00_0000);
    assert(0x91_d2af * 0x1 - 0x8d_5e8d * 0x1 == 0x4_7422);
    lemma_sum_known(0x3d11_d2af, 0x3d0d_5e8d, true, 0x91_d2af, 121, 0x8d_5e8d, 121, 0x1, 0x1, 0x4_7422, 19, 0x4_0000, 0x20);
    assert(sub_spec(0x3d11_d2af, 0x3d0d_5e8d) == 0x3a8e_8440);
    assert(0xd8_bd84 * 0x1 - 0xd2_9b93 * 0x1 == 0x6_21f1);
    lemma_sum_known(0x4258_bd84, 0x4252_9b93, true, 0xd8_bd84, 131, 0xd2_9b93, 131, 0x1, 0x1, 0x6_21f1, 19, 0x4_0000, 0x20);
    assert(sub_spec(0x4258_bd84, 0x4252_9b93) == 0x3fc4_3e20);
    assert(0xc4_3e20 * 0x8e_8440 == 0x6d3f_d6d8_0800);
    lemma_product_known(0x3fc4_3e20, 0x3a8e_8440, 0xc4_3e20, 126, 0x8e_8440, 116, 0x6d3f_d6d8_0800, 47, 0x4000_0000_0000, 0x80_0000);
    assert(mul_spec(0x3fc4_3e20, 0x3a8e_8440) == 0x3ada_7fae);
    assert(0xda_7fae * 0x1_0000_0000_0000_0000 == 0x1_b4ff_5c00_0000_0000 * 0x80_0000 + 0x0);
    lemma_quotient_known(0x3ada_7fae, 0x3b00_0000, 0xda_7fae, 116, 0x80_0000, 117, 0x1_b4ff_5c00_0000_0000, 0x0, 66, 0x2_0000_0000_0000_0000, 0x400_0000_0000);
    assert(div_spec(0x3ada_7fae, 0x3b00_0000) == 0x3f5a_7fae);
    assert(0xd2_9b93 * 0x40 + 0xda_7fae * 0x1 == 0x3581_646e);
    lemma_sum_known(0x4252_9b93, 0x3f5a_7fae, false, 0xd2_9b93, 131, 0xda_7fae, 125, 0x40, 0x1, 0x3581_646e, 30, 0x2000_0000, 0x40);
    assert(add_spec(0x4252_9b93, 0x3f5a_7fae) == 0x4256_0592);
    lemma_whole_known(0x4256_0592, 0xd6_0592, 131, 0x4_0000);
}

/// Code 54.
proof fn lemma_code_54()
    ensures
        chord_code(0x3d17_1964, 0x3d15_5e8d, 0x3d1d_5e8d, 0x4258_bd84, 0x425e_b40a) == 54,
{
    reveal(chord_code);
    lemma2_to64();
    lemma2_to64_rest();
    lemma_high_powers();
    assert(0x9d_5e8d * 0x1 - 0x95_5e8d * 0x1 == 0x8_0000);
    lemma_sum_known(0x3d1d_5e8d, 0x3d15_5e8d, true, 0x9d_5e8d, 121, 0x95_5e8d, 121, 0x1, 0x1, 0x8_0000, 20, 0x8_0000, 0x10);
    assert(sub_spec(0x3d1d_5e8d, 0x3d15_5e8d) == 0x3b00_0000);
    assert(0x97_1964 * 0x1 - 0x95_5e8d * 0x1 == 0x1_bad7);
    lemma_sum_known(0x3d17_1964, 0x3d15_5e8d, true, 0x97_1964, 121, 0x95_5e8d, 121, 0x1, 0x1, 0x1_bad7, 17, 0x1_0000, 0x80);
    assert(sub_spec(0x3d17_1964, 0x3d15_5e8d) == 0x39dd_6b80);
    assert(0xde_b40a * 0x1 - 0xd8_bd84 * 0x1 == 0x5_f686);
    lemma_sum_known(0x425e_b40a, 0x4258_bd84, true, 0xde_b40a, 131, 0xd8_bd84, 131, 0x1, 0x1, 0x5_f686, 19, 0x4_0000, 0x20);
    assert(sub_spec(0x425e_b40a, 0x4258_bd84) == 0x3fbe_d0c0);
    assert(0xbe_d0c0 * 0xdd_6b80 == 0xa50a_5668_a000);
    lemma_product_known(0x3fbe_d0c0, 0x39dd_6b80, 0xbe_d0c0, 126, 0xdd_6b80, 114, 0xa50a_5668_a000, 48, 0x8000_0000_0000, 0x100_0000);
    assert(mul_spec(0x3fbe_d0c0, 0x39dd_6b80) == 0x3a25_0a56);
    assert(0xa5_0a56 * 0x1_0000_0000_0000_0000 == 0x1_4a14_ac00_0000_0000 * 0x80_0000 + 0x0);
    lemma_quotient_known(0x3a25_0a56, 0x3b00_0000, 0xa5_0a56, 115, 0x80_0000, 117, 0x1_4a14_ac00_0000_0000, 0x0, 66, 0x2_0000_0000_0000_0000, 0x400_0000_0000);
    assert(div_spec(0x3a25_0a56, 0x3b00_0000) == 0x3ea5_0a56);
    assert(0xd8_bd84 * 0x80 + 0xa5_0a56 * 0x1 == 0x6d03_cc56);
    lemma_sum_known(0x4258_bd84, 0x3ea5_0a56, false, 0xd8_bd84, 131, 0xa5_0a56, 124, 0x80, 0x1, 0x6d03_cc56, 31, 0x4000_0000, 0x80);
    assert(add_spec(0x4258_bd84, 0x3ea5_0a56) == 0x425a_0799);
    lemma_whole_known(0x425a_0799, 0xda_0799, 131, 0x4_0000);
}

/// Code 55.
proof fn lemma_code_55()
    ensures
        chord_code(0x3d1c_7c30, 0x3d15_5e8d, 0x3d1d_5e8d, 0x4258_bd84, 0x425e_b40a) == 55,
{
    reveal(chord_code);
    lemma2_to64();
    lemma2_to64_rest();
    lemma_high_powers();
    assert(0x9d_5e8d * 0x1 - 0x95_5e8d * 0x1 == 0x8_0000);
    lemma_sum_known(0x3d1d_5e8d, 0x3d15_5e8d, true, 0x9d_5e8d, 121, 0x95_5e8d, 121, 0x1, 0x1, 0x8_0000, 20, 0x8_0000, 0x10);
    assert(sub_spec(0x3d1d_5e8d, 0x3d15_5e8d) == 0x3b00_0000);
    assert(0x9c_7c30 * 0x1 - 0x95_5e8d * 0x1 == 0x7_1da3);
    lemma_sum_known(0x3d1c_7c30, 0x3d15_5e8d, true, 0x9c_7c30, 121, 0x95_5e8d, 121, 0x1, 0x1, 0x7_1da3, 19, 0x4_0000, 0x20);
    assert(sub_spec(0x3d1c_7c30, 0x3d15_5e8d) == 0x3ae3_b460);
    assert(0xde_b40a * 0x1 - 0xd8_bd84 * 0x1 == 0x5_f686);
    lemma_sum_known(0x425e_b40a, 0x4258_bd84, true, 0xde_b40a, 131, 0xd8_bd84, 131, 0x1, 0x1, 0x5_f686, 19, 0x4_0000, 0x20);
    assert(sub_spec(0x425e_b40a, 0x4258_bd84) == 0x3fbe_d0c0);
    assert(0xbe_d0c0 * 0xe3_b460 == 0xa9b9_8c95_4800);
    lemma_product_known(0x3fbe_d0c0, 0x3ae3_b460, 0xbe_d0c0, 126, 0xe3_b460, 116, 0xa9b9_8c95_4800, 48, 0x8000_0000_0000, 0x100_0000);
    assert(mul_spec(0x3fbe_d0c0, 0x3ae3_b460) == 0x3b29_b98d);
    assert(0xa9_b98d * 0x1_0000_0000_0000_0000 == 0x1_5373_1a00_0000_0000 * 0x80_0000 + 0x0);
    lemma_quotient_known(0x3b29_b98d, 0x3b00_0000, 0xa9_b98d, 117, 0x80_0000, 117, 0x1_5373_1a00_0000_0000, 0x0, 66, 0x2_0000_0000_0000_0000, 0x400_0000_0000);
    assert(div_spec(0x3b29_b98d, 0x3b00_0000) == 0x3fa9_b98d);
    assert(0xd8_bd84 * 0x20 + 0xa9_b98d * 0x1 == 0x1bc1_6a0d);
    lemma_sum_known(0x4258_bd84, 0x3fa9_b98d, false, 0xd8_bd84, 131, 0xa9_b98d, 126, 0x20, 0x1, 0x1bc1_6a0d, 29, 0x1000_0000, 0x20);
    assert(add_spec(0x4258_bd84, 0x3fa9_b98d) == 0x425e_0b50);
    lemma_whole_known(0x425e_0b50, 0xde_0b50, 131, 0x4_0000);
}

/// Code 56.
proof fn lemma_code_56()
    ensures
        chord_code(0x3d21_fb3c, 0x3d1d_5e8d, 0x3d25_5e8d, 0x425e_b40a, 0x4264_7d61) == 56,
{
    reveal(chord_code);
    lemma2_to64();
    lemma2_to64_rest();
    lemma_high_powers();
    assert(0xa5_5e8d * 0x1 - 0x9d_5e8d * 0x1 == 0x8_0000);
    lemma_sum_known(0x3d25_5e8d, 0x3d1d_5e8d, true, 0xa5_5e8d, 121, 0x9d_5e8d, 121, 0x1, 0x1, 0x8_0000, 20, 0x8_0000, 0x10);
    assert(sub_spec(0x3d25_5e8d, 0x3d1d_5e8d) == 0x3b00_0000);
    assert(0xa1_fb3c * 0x1 - 0x9d_5e8d * 0x1 == 0x4_9caf);
    lemma_sum_known(0x3d21_fb3c, 0x3d1d_5e8d, true, 0xa1_fb3c, 121, 0x9d_5e8d, 121, 0x1, 0x1, 0x4_9caf, 19, 0x4_0000, 0x20);
    assert(sub_spec(0x3d21_fb3c, 0x3d1d_5e8d) == 0x3a93_95e0);
    assert(0xe4_7d61 * 0x1 - 0xde_b40a * 0x1 == 0x5_c957);
    lemma_sum_known(0x4264_7d61, 0x425e_b40a, true, 0xe4_7d61, 131, 0xde_b40a, 131, 0x1, 0x1, 0x5_c957, 19, 0x4_0000, 0x20);
    assert(sub_spec(0x4264_7d61, 0x425e_b40a) == 0x3fb9_2ae0);
    assert(0xb9_2ae0 * 0x93_95e0 == 0x6ac0_0699_e400);
    lemma_product_known(0x3fb9_2ae0, 0x3a93_95e0, 0xb9_2ae0, 126, 0x93_95e0, 116, 0x6ac0_0699_e400, 47, 0x4000_0000_0000, 0x80_0000);
    assert(mul_spec(0x3fb9_2ae0, 0x3a93_95e0) == 0x3ad5_800d);
    assert(0xd5_800d * 0x1_0000_0000_0000_0000 == 0x1_ab00_1a00_0000_0000 * 0x80_0000 + 0x0);
    lemma_quotient_known(0x3ad5_800d, 0x3b00_0000, 0xd5_800d, 116, 0x80_0000, 117, 0x1_ab00_1a00_0000_0000, 0x0, 66, 0x2_0000_0000_0000_0000, 0x400_0000_0000);
    assert(div_spec(0x3ad5_800d, 0x3b00_0000) == 0x3f55_800d);
    assert(0xde_b40a * 0x40 + 0xd5_800d * 0x1 == 0x3882_828d);
    lemma_sum_known(0x425e_b40a, 0x3f55_800d, false, 0xde_b40a, 131, 0xd5_800d, 125, 0x40, 0x1, 0x3882_828d, 30, 0x2000_0000, 0x40);
    assert(add_spec(0x425e_b40a, 0x3f55_800d) == 0x4262_0a0a);
    lemma_whole_known(0x4262_0a0a, 0xe2_0a0a, 131, 0x4_0000);
}

/// Code 57.
proof fn lemma_code_57()
    ensures
        chord_code(0x3d27_96b2, 0x3d25_5e8d, 0x3d2d_5e8d, 0x4264_7d61, 0x426a_1ab9) == 57,
{
    reveal(chord_code);
    lemma2_to64();
    lemma2_to64_rest();
    lemma_high_powers();
    assert(0xad_5e8d * 0x1 - 0xa5_5e8d * 0x1 == 0x8_0000);
    lemma_sum_known(0x3d2d_5e8d, 0x3d25_5e8d, true, 0xad_5e8d, 121, 0xa5_5e8d, 121, 0x1, 0x1, 0x8_0000, 20, 0x8_0000, 0x10);
    assert(sub_spec(0x3d2d_5e8d, 0x3d25_5e8d) == 0x3b00_0000);
    assert(0xa7_96b2 * 0x1 - 0xa5_5e8d * 0x1 == 0x2_3825);
    lemma_sum_known(0x3d27_96b2, 0x3d25_5e8d, true, 0xa7_96b2, 121, 0xa5_5e8d, 121, 0x1, 0x1, 0x2_3825, 18, 0x2_0000, 0x40);
    assert(sub_spec(0x3d27_96b2, 0x3d25_5e8d) == 0x3a0e_0940);
    assert(0xea_1ab9 * 0x1 - 0xe4_7d61 * 0x1 == 0x5_9d58);
    lemma_sum_known(0x426a_1ab9, 0x4264_7d61, true, 0xea_1ab9, 131, 0xe4_7d61, 131, 0x1, 0x1, 0x5_9d58, 19, 0x4_0000, 0x20);
    assert(sub_spec(0x426a_1ab9, 0x4264_7d61) == 0x3fb3_ab00);
    assert(0xb3_ab00 * 0x8e_0940 == 0x63af_57ed_c000);
    lemma_product_known(0x3fb3_ab00, 0x3a0e_0940, 0xb3_ab00, 126, 0x8e_0940, 115, 0x63af_57ed_c000, 47, 0x4000_0000_0000, 0x80_0000);
    assert(mul_spec(0x3fb3_ab00, 0x3a0e_0940) == 0x3a47_5eb0);
    assert(0xc7_5eb0 * 0x1_0000_0000_0000_0000 == 0x1_8ebd_6000_0000_0000 * 0x80_0000 + 0x0);
    lemma_quotient_known(0x3a47_5eb0, 0x3b00_0000, 0xc7_5eb0, 115, 0x80_0000, 117, 0x1_8ebd_6000_0000_0000, 0x0, 66, 0x2_0000_0000_0000_0000, 0x400_0000_0000);
    assert(div_spec(0x3a47_5eb0, 0x3b00_0000) == 0x3ec7_5eb0);
    assert(0xe4_7d61 * 0x80 + 0xc7_5eb0 * 0x1 == 0x7306_0f30);
    lemma_sum_known(0x4264_7d61, 0x3ec7_5eb0, false, 0xe4_7d61, 131, 0xc7_5eb0, 124, 0x80, 0x1, 0x7306_0f30, 31, 0x4000_0000, 0x80);
    assert(add_spec(0x4264_7d61, 0x3ec7_5eb0) == 0x4266_0c1e);
    lemma_whole_known(0x4266_0c1e, 0xe6_0c1e, 131, 0x4_0000);
}

/// Code 58.
proof fn lemma_code_58()
    ensures
        chord_code(0x3d2d_4ebb, 0x3d25_5e8d, 0x3d2d_5e8d, 0x4264_7d61, 0x426a_1ab9) == 58,
{
    reveal(chord_code);
    lemma2_to64();
    lemma2_to64_rest();
    lemma_high_powers();
    assert(0xad_5e8d * 0x1 - 0xa5_5e8d * 0x1 == 0x8_0000);
    lemma_sum_known(0x3d2d_5e8d, 0x3d25_5e8d, true, 0xad_5e8d, 121, 0xa5_5e8d, 121, 0x1, 0x1, 0x8_0000, 20, 0x8_0000, 0x10);
    assert(sub_spec(0x3d2d_5e8d, 0x3d25_5e8d) == 0x3b00_0000);
    assert(0xad_4ebb * 0x1 - 0xa5_5e8d * 0x1 == 0x7_f02e);
    lemma_sum_known(0x3d2d_4ebb, 0x3d25_5e8d, true, 0xad_4ebb, 121, 0xa5_5e8d, 121, 0x1, 0x1, 0x7_f02e, 19, 0x4_0000, 0x20);
    assert(sub_spec(0x3d2d_4ebb, 0x3d25_5e8d) == 0x3afe_05c0);
    assert(0xea_1ab9 * 0x1 - 0xe4_7d61 * 0x1 == 0x5_9d58);
    lemma_sum_known(0x426a_1ab9, 0x4264_7d61, true, 0xea_1ab9, 131, 0xe4_7d61, 131, 0x1, 0x1, 0x5_9d58, 19, 0x4_0000, 0x20);
    assert(sub_spec(0x426a_1ab9, 0x4264_7d61) == 0x3fb3_ab00);
    assert(0xb3_ab00 * 0xfe_05c0 == 0xb247_b317_4000);
    lemma_product_known(0x3fb3_ab00, 0x3afe_05c0, 0xb3_ab00, 126, 0xfe_05c0, 116, 0xb247_b317_4000, 48, 0x8000_0000_0000, 0x100_0000);
    assert(mul_spec(0x3fb3_ab00, 0x3afe_05c0) == 0x3b32_47b3);
    assert(0xb2_47b3 * 0x1_0000_0000_0000_0000 == 0x1_648f_6600_0000_0000 * 0x80_0000 + 0x0);
    lemma_quotient_known(0x3b32_47b3, 0x3b00_0000, 0xb2_47b3, 117, 0x80_0000, 117, 0x1_648f_6600_0000_0000, 0x0, 66, 0x2_0000_0000_0000_0000, 0x400_0000_0000);
    assert(div_spec(0x3b32_47b3, 0x3b00_0000) == 0x3fb2_47b3);
    assert(0xe4_7d61 * 0x20 + 0xb2_47b3 * 0x1 == 0x1d41_f3d3);
    lemma_sum_known(0x4264_7d61, 0x3fb2_47b3, false, 0xe4_7d61, 131, 0xb2_47b3, 126, 0x20, 0x1, 0x1d41_f3d3, 29, 0x1000_0000, 0x20);
    assert(add_spec(0x4264_7d61, 0x3fb2_47b3) == 0x426a_0f9f);
    lemma_whole_known(0x426a_0f9f, 0xea_0f9f, 131, 0x4_0000);
}

/// Code 59.
proof fn lemma_code_59()
    ensures
        chord_code(0x3d33_2381, 0x3d2d_5e8d, 0x3d35_5e8d, 0x426a_1ab9, 0x426f_87c9) == 59,
{
    reveal(chord_code);
    lemma2_to64();
    lemma2_to64_rest();
    lemma_high_powers();
    assert(0xb5_5e8d * 0x1 - 0xad_5e8d * 0x1 == 0x8_0000);
    lemma_sum_known(0x3d35_5e8d, 0x3d2d_5e8d, true, 0xb5_5e8d, 121, 0xad_5e8d, 121, 0x1, 0x1, 0x8_0000, 20, 0x8_0000, 0x10);
    assert(sub_spec(0x3d35_5e8d, 0x3d2d_5e8d) == 0x3b00_0000);
    assert(0xb3_2381 * 0x1 - 0xad_5e8d * 0x1 == 0x5_c4f4);
    lemma_sum_known(0x3d33_2381, 0x3d2d_5e8d, true, 0xb3_2381, 121, 0xad_5e8d, 121, 0x1, 0x1, 0x5_c4f4, 19, 0x4_0000, 0x20);
    assert(sub_spec(0x3d33_2381, 0x3d2d_5e8d) == 0x3ab8_9e80);
    assert(0xef_87c9 * 0x1 - 0xea_1ab9 * 0x1 == 0x5_6d10);
    lemma_sum_known(0x426f_87c9, 0x426a_1ab9, true, 0xef_87c9, 131, 0xea_1ab9, 131, 0x1, 0x1, 0x5_6d10, 19, 0x4_0000, 0x20);
    assert(sub_spec(0x426f_87c9, 0x426a_1ab9) == 0x3fad_a200);
    assert(0xad_a200 * 0xb8_9e80 == 0x7d37_f0cd_0000);
    lemma_product_known(0x3fad_a200, 0x3ab8_9e80, 0xad_a200, 126, 0xb8_9e80, 116, 0x7d37_f0cd_0000, 47, 0x4000_0000_0000, 0x80_0000);
    assert(mul_spec(0x3fad_a200, 0x3ab8_9e80) == 0x3afa_6fe2);
    assert(0xfa_6fe2 * 0x1_0000_0000_0000_0000 == 0x1_f4df_c400_0000_0000 * 0x80_0000 + 0x0);
    lemma_quotient_known(0x3afa_6fe2, 0x3b00_0000, 0xfa_6fe2, 116, 0x80_0000, 117, 0x1_f4df_c400_0000_0000, 0x0, 66, 0x2_0000_0000_0000_0000, 0x400_0000_0000);
    assert(div_spec(0x3afa_6fe2, 0x3b00_0000) == 0x3f7a_6fe2);
    assert(0xea_1ab9 * 0x40 + 0xfa_6fe2 * 0x1 == 0x3b81_1e22);
    lemma_sum_known(0x426a_1ab9, 0x3f7a_6fe2, false, 0xea_1ab9, 131, 0xfa_6fe2, 125, 0x40, 0x1, 0x3b81_1e22, 30, 0x2000_0000, 0x40);
    assert(add_spec(0x426a_1ab9, 0x3f7a_6fe2) == 0x426e_0479);
    lemma_whole_known(0x426e_0479, 0xee_0479, 131, 0x4_0000);
}

/// Code 60.
proof fn lemma_code_60()
    ensures
        chord_code(0x3d39_152b, 0x3d35_5e8d, 0x3d3d_5e8d, 0x426f_87c9, 0x4274_e277) == 60,
{
    reveal(chord_code);
    lemma2_to64();
    lemma2_to64_rest();
    lemma_high_powers();
    assert(0xbd_5e8d * 0x1 - 0xb5_5e8d * 0x1 == 0x8_0000);
    lemma_sum_known(0x3d3d_5e8d, 0x3d35_5e8d, true, 0xbd_5e8d, 121, 0xb5_5e8d, 121, 0x1, 0x1, 0x8_0000, 20, 0x8_0000, 0x10);
    assert(sub_spec(0x3d3d_5e8d, 0x3d35_5e8d) == 0x3b00_0000);
    assert(0xb9_152b * 0x1 - 0xb5_5e8d * 0x1 == 0x3_b69e);
    lemma_sum_known(0x3d39_152b, 0x3d35_5e8d, true, 0xb9_152b, 121, 0xb5_5e8d, 121, 0x1, 0x1, 0x3_b69e, 18, 0x2_0000, 0x40);
    assert(sub_spec(0x3d39_152b, 0x3d35_5e8d) == 0x3a6d_a780);
    assert(0xf4_e277 * 0x1 - 0xef_87c9 * 0x1 == 0x5_5aae);
    lemma_sum_known(0x4274_e277, 0x426f_87c9, true, 0xf4_e277, 131, 0xef_87c9, 131, 0x1, 0x1, 0x5_5aae, 19, 0x4_0000, 0x20);
    assert(sub_spec(0x4274_e277, 0x426f_87c9) == 0x3fab_55c0);
    assert(0xab_55c0 * 0xed_a780 == 0x9f0e_7d5b_2000);
    lemma_product_known(0x3fab_55c0, 0x3a6d_a780, 0xab_55c0, 126, 0xed_a780, 115, 0x9f0e_7d5b_2000, 48, 0x8000_0000_0000, 0x100_0000);
    assert(mul_spec(0x3fab_55c0, 0x3a6d_a780) == 0x3a9f_0e7d);
    assert(0x9f_0e7d * 0x1_0000_0000_0000_0000 == 0x1_3e1c_fa00_0000_0000 * 0x80_0000 + 0x0);
    lemma_quotient_known(0x3a9f_0e7d, 0x3b00_0000, 0x9f_0e7d, 116, 0x80_0000, 117, 0x1_3e1c_fa00_0000_0000, 0x0, 66, 0x2_0000_0000_0000_0000, 0x400_0000_0000);
    assert(div_spec(0x3a9f_0e7d, 0x3b00_0000) == 0x3f1f_0e7d);
    assert(0xef_87c9 * 0x40 + 0x9f_0e7d * 0x1 == 0x3c81_00bd);
    lemma_sum_known(0x426f_87c9, 0x3f1f_0e7d, false, 0xef_87c9, 131, 0x9f_0e7d, 125, 0x40, 0x1, 0x3c81_00bd, 30, 0x2000_0000, 0x40);
    assert(add_spec(0x426f_87c9, 0x3f1f_0e7d) == 0x4272_0403);
    lemma_whole_known(0x4272_0403, 0xf2_0403, 131, 0x4_0000);
}

/// Code 61.
proof fn lemma_code_61()
    ensures
        chord_code(0x3d3f_23e4, 0x3d3d_5e8d, 0x3d45_5e8d, 0x4274_e277, 0x427a_1842) == 61,
{
    reveal(chord_code);
    lemma2_to64();
    lemma2_to64_rest();
    lemma_high_powers();
    assert(0xc5_5e8d * 0x1 - 0xbd_5e8d * 0x1 == 0x8_0000);
    lemma_sum_known(0x3d45_5e8d, 0x3d3d_5e8d, true, 0xc5_5e8d, 121, 0xbd_5e8d, 121, 0x1, 0x1, 0x8_0000, 20, 0x8_0000, 0x10);
    assert(sub_spec(0x3d45_5e8d, 0x3d3d_5e8d) == 0x3b00_0000);
    assert(0xbf_23e4 * 0x1 - 0xbd_5e8d * 0x1 == 0x1_c557);
    lemma_sum_known(0x3d3f_23e4, 0x3d3d_5e8d, true, 0xbf_23e4, 121, 0xbd_5e8d, 121, 0x1, 0x1, 0x1_c557, 17, 0x1_0000, 0x80);
    assert(sub_spec(0x3d3f_23e4, 0x3d3d_5e8d) == 0x39e2_ab80);
    assert(0xfa_1842 * 0x1 - 0xf4_e277 * 0x1 == 0x5_35cb);
    lemma_sum_known(0x427a_1842, 0x4274_e277, true, 0xfa_1842, 131, 0xf4_e277, 131, 0x1, 0x1, 0x5_35cb, 19, 0x4_0000, 0x20);
    assert(sub_spec(0x427a_1842, 0x4274_e277) == 0x3fa6_b960);
    assert(0xa6_b960 * 0xe2_ab80 == 0x939f_57ef_d000);
    lemma_product_known(0x3fa6_b960, 0x39e2_ab80, 0xa6_b960, 126, 0xe2_ab80, 114, 0x939f_57ef_d000, 48, 0x8000_0000_0000, 0x100_0000);
    assert(mul_spec(0x3fa6_b960, 0x39e2_ab80) == 0x3a13_9f58);
    assert(0x93_9f58 * 0x1_0000_0000_0000_0000 == 0x1_273e_b000_0000_0000 * 0x80_0000 + 0x0);
    lemma_quotient_known(0x3a13_9f58, 0x3b00_0000, 0x93_9f58, 115, 0x80_0000, 117, 0x1_273e_b000_0000_0000, 0x0, 66, 0x2_0000_0000_0000_0000, 0x400_0000_0000);
    assert(div_spec(0x3a13_9f58, 0x3b00_0000) == 0x3e93_9f58);
    assert(0xf4_e277 * 0x80 + 0x93_9f58 * 0x1 == 0x7b04_dad8);
    lemma_sum_known(0x4274_e277, 0x3e93_9f58, false, 0xf4_e277, 131, 0x93_9f58, 124, 0x80, 0x1, 0x7b04_dad8, 31, 0x4000_0000, 0x80);
    assert(add_spec(0x4274_e277, 0x3e93_9f58) == 0x4276_09b6);
    lemma_whole_known(0x4276_09b6, 0xf6_09b6, 131, 0x4_0000);
}

/// Code 62.
proof fn lemma_code_62()
    ensures
        chord_code(0x3d45_4fd2, 0x3d3d_5e8d, 0x3d45_5e8d, 0x4274_e277, 0x427a_1842) == 62,
{
    reveal(chord_code);
    lemma2_to64();
    lemma2_to64_rest();
    lemma_high_powers();
    assert(0xc5_5e8d * 0x1 - 0xbd_5e8d * 0x1 == 0x8_0000);
    lemma_sum_known(0x3d45_5e8d, 0x3d3d_5e8d, true, 0xc5_5e8d, 121, 0xbd_5e8d, 121, 0x1, 0x1, 0x8_0000, 20, 0x8_0000, 0x10);
    assert(sub_spec(0x3d45_5e8d, 0x3d3d_5e8d) == 0x3b00_0000);
    assert(0xc5_4fd2 * 0x1 - 0xbd_5e8d * 0x1 == 0x7_f145);
    lemma_sum_known(0x3d45_4fd2, 0x3d3d_5e8d, true, 0xc5_4fd2, 121, 0xbd_5e8d, 121, 0x1, 0x1, 0x7_f145, 19, 0x4_0000, 0x20);
    assert(sub_spec(0x3d45_4fd2, 0x3d3d_5e8d) == 0x3afe_28a0);
    assert(0xfa_1842 * 0x1 - 0xf4_e277 * 0x1 == 0x5_35cb);
    lemma_sum_known(0x427a_1842, 0x4274_e277, true, 0xfa_1842, 131, 0xf4_e277, 131, 0x1, 0x1, 0x5_35cb, 19, 0x4_0000, 0x20);
    assert(sub_spec(0x427a_1842, 0x4274_e277) == 0x3fa6_b960);
    assert(0xa6_b960 * 0xfe_28a0 == 0xa586_626a_dc00);
    lemma_product_known(0x3fa6_b960, 0x3afe_28a0, 0xa6_b960, 126, 0xfe_28a0, 116, 0xa586_626a_dc00, 48, 0x8000_0000_0000, 0x100_0000);
    assert(mul_spec(0x3fa6_b960, 0x3afe_28a0) == 0x3b25_8662);
    assert(0xa5_8662 * 0x1_0000_0000_0000_0000 == 0x1_4b0c_c400_0000_0000 * 0x80_0000 + 0x0);
    lemma_quotient_known(0x3b25_8662, 0x3b00_0000, 0xa5_8662, 117, 0x80_0000, 117, 0x1_4b0c_c400_0000_0000, 0x0, 66, 0x2_0000_0000_0000_0000, 0x400_0000_0000);
    assert(div_spec(0x3b25_8662, 0x3b00_0000) == 0x3fa5_8662);
    assert(0xf4_e277 * 0x20 + 0xa5_8662 * 0x1 == 0x1f41_d542);
    lemma_sum_known(0x4274_e277, 0x3fa5_8662, false, 0xf4_e277, 131, 0xa5_8662, 126, 0x20, 0x1, 0x1f41_d542, 29, 0x1000_0000, 0x20);
    assert(add_spec(0x4274_e277, 0x3fa5_8662) == 0x427a_0eaa);
    lemma_whole_known(0x427a_0eaa, 0xfa_0eaa, 131, 0x4_0000);
}

/// Code 63.
proof fn lemma_code_63()
    ensures
        chord_code(0x3d4b_991d, 0x3d45_5e8d, 0x3d4d_5e8d, 0x427a_1842, 0x427f_24a9) == 63,
{
    reveal(chord_code);
    lemma2_to64();
    lemma2_to64_rest();
    lemma_high_powers();
    assert(0xcd_5e8d * 0x1 - 0xc5_5e8d * 0x1 == 0x8_0000);
    lemma_sum_known(0x3d4d_5e8d, 0x3d45_5e8d, true, 0xcd_5e8d, 121, 0xc5_5e8d, 121, 0x1, 0x1, 0x8_0000, 20, 0x8_0000, 0x10);
    assert(sub_spec(0x3d4d_5e8d, 0x3d45_5e8d) == 0x3b00_0000);
    assert(0xcb_991d * 0x1 - 0xc5_5e8d * 0x1 == 0x6_3a90);
    lemma_sum_known(0x3d4b_991d, 0x3d45_5e8d, true, 0xcb_991d, 121, 0xc5_5e8d, 121, 0x1, 0x1, 0x6_3a90, 19, 0x4_0000, 0x20);
    assert(sub_spec(0x3d4b_991d, 0x3d45_5e8d) == 0x3ac7_5200);
    assert(0xff_24a9 * 0x1 - 0xfa_1842 * 0x1 == 0x5_0c67);
    lemma_sum_known(0x427f_24a9, 0x427a_1842, true, 0xff_24a9, 131, 0xfa_1842, 131, 0x1, 0x1, 0x5_0c67, 19, 0x4_0000, 0x20);
    assert(sub_spec(0x427f_24a9, 0x427a_1842) == 0x3fa1_8ce0);
    assert(0xa1_8ce0 * 0xc7_5200 == 0x7dc8_413f_c000);
    lemma_product_known(0x3fa1_8ce0, 0x3ac7_5200, 0xa1_8ce0, 126, 0xc7_5200, 116, 0x7dc8_413f_c000, 47, 0x4000_0000_0000, 0x80_0000);
    assert(mul_spec(0x3fa1_8ce0, 0x3ac7_5200) == 0x3afb_9082);
    assert(0xfb_9082 * 0x1_0000_0000_0000_0000 == 0x1_f721_0400_0000_0000 * 0x80_0000 + 0x0);
    lemma_quotient_known(0x3afb_9082, 0x3b00_0000, 0xfb_9082, 116, 0x80_0000, 117, 0x1_f721_0400_0000_0000, 0x0, 66, 0x2_0000_0000_0000_0000, 0x400_0000_0000);
    assert(div_spec(0x3afb_9082, 0x3b00_0000) == 0x3f7b_9082);
    assert(0xfa_1842 * 0x40 + 0xfb_9082 * 0x1 == 0x3f81_a102);
    lemma_sum_known(0x427a_1842, 0x3f7b_9082, false, 0xfa_1842, 131, 0xfb_9082, 125, 0x40, 0x1, 0x3f81_a102, 30, 0x2000_0000, 0x40);
    assert(add_spec(0x427a_1842, 0x3f7b_9082) == 0x427e_0684);
    lemma_whole_known(0x427e_0684, 0xfe_0684, 131, 0x4_0000);
}

/// Code 64.
proof fn lemma_code_64()
    ensures
        chord_code(0x3d51_ffec, 0x3d4d_5e8d, 0x3d55_5e8d, 0x427f_24a9, 0x4282_13c9) == 64,
{
    reveal(chord_code);
    lemma2_to64();
    lemma2_to64_rest();
    lemma_high_powers();
    assert(0xd5_5e8d * 0x1 - 0xcd_5e8d * 0x1 == 0x8_0000);
    lemma_sum_known(0x3d55_5e8d, 0x3d4d_5e8d, true, 0xd5_5e8d, 121, 0xcd_5e8d, 121, 0x1, 0x1, 0x8_0000, 20, 0x8_0000, 0x10);
    assert(sub_spec(0x3d55_5e8d, 0x3d4d_5e8d) == 0x3b00_0000);
    assert(0xd1_ffec * 0x1 - 0xcd_5e8d * 0x1 == 0x4_a15f);
    lemma_sum_known(0x3d51_ffec, 0x3d4d_5e8d, true, 0xd1_ffec, 121, 0xcd_5e8d, 121, 0x1, 0x1, 0x4_a15f, 19, 0x4_0000, 0x20);
    assert(sub_spec(0x3d51_ffec, 0x3d4d_5e8d) == 0x3a94_2be0);
    assert(0x82_13c9 * 0x2 - 0xff_24a9 * 0x1 == 0x5_02e9);
    lemma_sum_known(0x4282_13c9, 0x427f_24a9, true, 0x82_13c9, 132, 0xff_24a9, 131, 0x2, 0x1, 0x5_02e9, 19, 0x4_0000, 0x20);
    assert(sub_spec(0x4282_13c9, 0x427f_24a9) == 0x3fa0_5d20);
    assert(0xa0_5d20 * 0x94_2be0 == 0x5cd1_5275_dc00);
    lemma_product_known(0x3fa0_5d20, 0x3a94_2be0, 0xa0_5d20, 126, 0x94_2be0, 116, 0x5cd1_5275_dc00, 47, 0x4000_0000_0000, 0x80_0000);
    assert(mul_spec(0x3fa0_5d20, 0x3a94_2be0) == 0x3ab9_a2a5);
    assert(0xb9_a2a5 * 0x1_0000_0000_0000_0000 == 0x1_7345_4a00_0000_0000 * 0x80_0000 + 0x0);
    lemma_quotient_known(0x3ab9_a2a5, 0x3b00_0000, 0xb9_a2a5, 116, 0x80_0000, 117, 0x1_7345_4a00_0000_0000, 0x0, 66, 0x2_0000_0000_0000_0000, 0x400_0000_0000);
    assert(div_spec(0x3ab9_a2a5, 0x3b00_0000) == 0x3f39_a2a5);
    assert(0xff_24a9 * 0x40 + 0xb9_a2a5 * 0x1 == 0x4082_cce5);
    lemma_sum_known(0x427f_24a9, 0x3f39_a2a5, false, 0xff_24a9, 131, 0xb9_a2a5, 125, 0x40, 0x1, 0x4082_cce5, 31, 0x4000_0000, 0x80);
    assert(add_spec(0x427f_24a9, 0x3f39_a2a5) == 0x4281_059a);
    lemma_whole_known(0x4281_059a, 0x81_059a, 132, 0x2_0000);
}

/// Code 65.
proof fn lemma_code_65()
    ensures
        chord_code(0x3d58_8468, 0x3d55_5e8d, 0x3d5d_5e8d, 0x4282_13c9, 0x4284_7678) == 65,
{
    reveal(chord_code);
    lemma2_to64();
    lemma2_to64_rest();
    lemma_high_powers();
    assert(0xdd_5e8d * 0x1 - 0xd5_5e8d * 0x1 == 0x8_0000);
    lemma_sum_known(0x3d5d_5e8d, 0x3d55_5e8d, true, 0xdd_5e8d, 121, 0xd5_5e8d, 121, 0x1, 0x1, 0x8_0000, 20, 0x8_0000, 0x10);
    assert(sub_spec(0x3d5d_5e8d, 0x3d55_5e8d) == 0x3b00_0000);
    assert(0xd8_8468 * 0x1 - 0xd5_5e8d * 0x1 == 0x3_25db);
    lemma_sum_known(0x3d58_8468, 0x3d55_5e8d, true, 0xd8_8468, 121, 0xd5_5e8d, 121, 0x1, 0x1, 0x3_25db, 18, 0x2_0000, 0x40);
    assert(sub_spec(0x3d58_8468, 0x3d55_5e8d) == 0x3a49_76c0);
    assert(0x84_7678 * 0x1 - 0x82_13c9 * 0x1 == 0x2_62af);
    lemma_sum_known(0x4284_7678, 0x4282_13c9, true, 0x84_7678, 132, 0x82_13c9, 132, 0x1, 0x1, 0x2_62af, 18, 0x2_0000, 0x40);
    assert(sub_spec(0x4284_7678, 0x4282_13c9) == 0x3f98_abc0);
    assert(0x98_abc0 * 0xc9_76c0 == 0x7825_ab6b_5000);
    lemma_product_known(0x3f98_abc0, 0x3a49_76c0, 0x98_abc0, 126, 0xc9_76c0, 115, 0x7825_ab6b_5000, 47, 0x4000_0000_0000, 0x80_0000);
    assert(mul_spec(0x3f98_abc0, 0x3a49_76c0) == 0x3a70_4b57);
    assert(0xf0_4b57 * 0x1_0000_0000_0000_0000 == 0x1_e096_ae00_0000_0000 * 0x80_0000 + 0x0);
    lemma_quotient_known(0x3a70_4b57, 0x3b00_0000, 0xf0_4b57, 115, 0x80_0000, 117, 0x1_e096_ae00_0000_0000, 0x0, 66, 0x2_0000_0000_0000_0000, 0x400_0000_0000);
    assert(div_spec(0x3a70_4b57, 0x3b00_0000) == 0x3ef0_4b57);
    assert(0x82_13c9 * 0x100 + 0xf0_4b57 * 0x1 == 0x8304_1457);
    lemma_sum_known(0x4282_13c9, 0x3ef0_4b57, false, 0x82_13c9, 132, 0xf0_4b57, 124, 0x100, 0x1, 0x8304_1457, 32, 0x8000_0000, 0x100);
    assert(add_spec(0x4282_13c9, 0x3ef0_4b57) == 0x4283_0414);
    lemma_whole_known(0x4283_0414, 0x83_0414, 132, 0x2_0000);
}

/// Code 66.
proof fn lemma_code_66()
    ensures
        chord_code(0x3d5f_26b6, 0x3d5d_5e8d, 0x3d65_5e8d, 0x4284_7678, 0x4286_de3f) == 66,
{
    reveal(chord_code);
    lemma2_to64();
    lemma2_to64_rest();
    lemma_high_powers();
    assert(0xe5_5e8d * 0x1 - 0xdd_5e8d * 0x1 == 0x8_0000);
    lemma_sum_known(0x3d65_5e8d, 0x3d5d_5e8d, true, 0xe5_5e8d, 121, 0xdd_5e8d, 121, 0x1, 0x1, 0x8_0000, 20, 0x8_0000, 0x10);
    assert(sub_spec(0x3d65_5e8d, 0x3d5d_5e8d) == 0x3b00_0000);
    assert(0xdf_26b6 * 0x1 - 0xdd_5e8d * 0x1 == 0x1_c829);
    lemma_sum_known(0x3d5f_26b6, 0x3d5d_5e8d, true, 0xdf_26b6, 121, 0xdd_5e8d, 121, 0x1, 0x1, 0x1_c829, 17, 0x1_0000, 0x80);
    assert(sub_spec(0x3d5f_26b6, 0x3d5d_5e8d) == 0x39e4_1480);
    assert(0x86_de3f * 0x1 - 0x84_7678 * 0x1 == 0x2_67c7);
    lemma_sum_known(0x4286_de3f, 0x4284_7678, true, 0x86_de3f, 132, 0x84_7678, 132, 0x1, 0x1, 0x2_67c7, 18, 0x2_0000, 0x40);
    assert(sub_spec(0x4286_de3f, 0x4284_7678) == 0x3f99_f1c0);
    assert(0x99_f1c0 * 0xe4_1480 == 0x8927_a2db_e000);
    lemma_product_known(0x3f99_f1c0, 0x39e4_1480, 0x99_f1c0, 126, 0xe4_1480, 114, 0x8927_a2db_e000, 48, 0x8000_0000_0000, 0x100_0000);
    assert(mul_spec(0x3f99_f1c0, 0x39e4_1480) == 0x3a09_27a3);
    assert(0x89_27a3 * 0x1_0000_0000_0000_0000 == 0x1_124f_4600_0000_0000 * 0x80_0000 + 0x0);
    lemma_quotient_known(0x3a09_27a3, 0x3b00_0000, 0x89_27a3, 115, 0x80_0000, 117, 0x1_124f_4600_0000_0000, 0x0, 66, 0x2_0000_0000_0000_0000, 0x400_0000_0000);
    assert(div_spec(0x3a09_27a3, 0x3b00_0000) == 0x3e89_27a3);
    assert(0x84_7678 * 0x100 + 0x89_27a3 * 0x1 == 0x84ff_9fa3);
    lemma_sum_known(0x4284_7678, 0x3e89_27a3, false, 0x84_7678, 132, 0x89_27a3, 124, 0x100, 0x1, 0x84ff_9fa3, 32, 0x8000_0000, 0x100);
    assert(add_spec(0x4284_7678, 0x3e89_27a3) == 0x4284_ffa0);
    lemma_whole_known(0x4284_ffa0, 0x84_ffa0, 132, 0x2_0000);
}

/// Code 67.
proof fn lemma_code_67()
    ensures
        chord_code(0x3d65_e6fd, 0x3d65_5e8d, 0x3d6d_5e8d, 0x4286_de3f, 0x4289_29f3) == 67,
{
    reveal(chord_code);
    lemma2_to64();
    lemma2_to64_rest();
    lemma_high_powers();
    assert(0xed_5e8d * 0x1 - 0xe5_5e8d * 0x1 == 0x8_0000);
    lemma_sum_known(0x3d6d_5e8d, 0x3d65_5e8d, true, 0xed_5e8d, 121, 0xe5_5e8d, 121, 0x1, 0x1, 0x8_0000, 20, 0x8_0000, 0x10);
    assert(sub_spec(0x3d6d_5e8d, 0x3d65_5e8d) == 0x3b00_0000);
    assert(0xe5_e6fd * 0x1 - 0xe5_5e8d * 0x1 == 0x8870);
    lemma_sum_known(0x3d65_e6fd, 0x3d65_5e8d, true, 0xe5_e6fd, 121, 0xe5_5e8d, 121, 0x1, 0x1, 0x8870, 16, 0x8000, 0x100);
    assert(sub_spec(0x3d65_e6fd, 0x3d65_5e8d) == 0x3908_7000);
    assert(0x89_29f3 * 0x1 - 0x86_de3f * 0x1 == 0x2_4bb4);
    lemma_sum_known(0x4289_29f3, 0x4286_de3f, true, 0x89_29f3, 132, 0x86_de3f, 132, 0x1, 0x1, 0x2_4bb4, 18, 0x2_0000, 0x40);
    assert(sub_spec(0x4289_29f3, 0x4286_de3f) == 0x3f92_ed00);
    assert(0x92_ed00 * 0x88_7000 == 0x4e4e_2fb0_0000);
    lemma_product_known(0x3f92_ed00, 0x3908_7000, 0x92_ed00, 126, 0x88_7000, 113, 0x4e4e_2fb0_0000, 47, 0x4000_0000_0000, 0x80_0000);
    assert(mul_spec(0x3f92_ed00, 0x3908_7000) == 0x391c_9c5f);
    assert(0x9c_9c5f * 0x1_0000_0000_0000_0000 == 0x1_3938_be00_0000_0000 * 0x80_0000 + 0x0);
    lemma_quotient_known(0x391c_9c5f, 0x3b00_0000, 0x9c_9c5f, 113, 0x80_0000, 117, 0x1_3938_be00_0000_0000, 0x0, 66, 0x2_0000_0000_0000_0000, 0x400_0000_0000);
    assert(div_spec(0x391c_9c5f, 0x3b00_0000) == 0x3d9c_9c5f);
    assert(0x86_de3f * 0x400 + 0x9c_9c5f * 0x1 == 0x2_1c15_985f);
    lemma_sum_known(0x4286_de3f, 0x3d9c_9c5f, false, 0x86_de3f, 132, 0x9c_9c5f, 122, 0x400, 0x1, 0x2_1c15_985f, 34, 0x2_0000_0000, 0x400);
    assert(add_spec(0x4286_de3f, 0x3d9c_9c5f) == 0x4287_0566);
    lemma_whole_known(0x4287_0566, 0x87_0566, 132, 0x2_0000);
}

/// Code 68.
proof fn lemma_code_68()
    ensures
        chord_code(0x3d6c_c563, 0x3d65_5e8d, 0x3d6d_5e8d, 0x4286_de3f, 0x4289_29f3) == 68,
{
    reveal(chord_code);
    lemma2_to64();
    lemma2_to64_rest();
    lemma_high_powers();
    assert(0xed_5e8d * 0x1 - 0xe5_5e8d * 0x1 == 0x8_0000);
    lemma_sum_known(0x3d6d_5e8d, 0x3d65_5e8d, true, 0xed_5e8d, 121, 0xe5_5e8d, 121, 0x1, 0x1, 0x8_0000, 20, 0x8_0000, 0x10);
    assert(sub_spec(0x3d6d_5e8d, 0x3d65_5e8d) == 0x3b00_0000);
    assert(0xec_c563 * 0x1 - 0xe5_5e8d * 0x1 == 0x7_66d6);
    lemma_sum_known(0x3d6c_c563, 0x3d65_5e8d, true, 0xec_c563, 121, 0xe5_5e8d, 121, 0x1, 0x1, 0x7_66d6, 19, 0x4_0000, 0x20);
    assert(sub_spec(0x3d6c_c563, 0x3d65_5e8d) == 0x3aec_dac0);
    assert(0x89_29f3 * 0x1 - 0x86_de3f * 0x1 == 0x2_4bb4);
    lemma_sum_known(0x4289_29f3, 0x4286_de3f, true, 0x89_29f3, 132, 0x86_de3f, 132, 0x1, 0x1, 0x2_4bb4, 18, 0x2_0000, 0x40);
    assert(sub_spec(0x4289_29f3, 0x4286_de3f) == 0x3f92_ed00);
    assert(0x92_ed00 * 0xec_dac0 == 0x87f0_0803_c000);
    lemma_product_known(0x3f92_ed00, 0x3aec_dac0, 0x92_ed00, 126, 0xec_dac0, 116, 0x87f0_0803_c000, 48, 0x8000_0000_0000, 0x100_0000);
    assert(mul_spec(0x3f92_ed00, 0x3aec_dac0) == 0x3b07_f008);
    assert(0x87_f008 * 0x1_0000_0000_0000_0000 == 0x1_0fe0_1000_0000_0000 * 0x80_0000 + 0x0);
    lemma_quotient_known(0x3b07_f008, 0x3b00_0000, 0x87_f008, 117, 0x80_0000, 117, 0x1_0fe0_1000_0000_0000, 0x0, 66, 0x2_0000_0000_0000_0000, 0x400_0000_0000);
    assert(div_spec(0x3b07_f008, 0x3b00_0000) == 0x3f87_f008);
    assert(0x86_de3f * 0x40 + 0x87_f008 * 0x1 == 0x223f_7fc8);
    lemma_sum_known(0x4286_de3f, 0x3f87_f008, false, 0x86_de3f, 132, 0x87_f008, 126, 0x40, 0x1, 0x223f_7fc8, 30, 0x2000_0000, 0x40);
    assert(add_spec(0x4286_de3f, 0x3f87_f008) == 0x4288_fdff);
    lemma_whole_known(0x4288_fdff, 0x88_fdff, 132, 0x2_0000);
}

/// Code 69.
proof fn lemma_code_69()
    ensures
        chord_code(0x3d73_c20e, 0x3d6d_5e8d, 0x3d75_5e8d, 0x4289_29f3, 0x428b_7927) == 69,
{
    reveal(chord_code);
    lemma2_to64();
    lemma2_to64_rest();
    lemma_high_powers();
    assert(0xf5_5e8d * 0x1 - 0xed_5e8d * 0x1 == 0x8_0000);
    lemma_sum_known(0x3d75_5e8d, 0x3d6d_5e8d, true, 0xf5_5e8d, 121, 0xed_5e8d, 121, 0x1, 0x1, 0x8_0000, 20, 0x8_0000, 0x10);
    assert(sub_spec(0x3d75_5e8d, 0x3d6d_5e8d) == 0x3b00_0000);
    assert(0xf3_c20e * 0x1 - 0xed_5e8d * 0x1 == 0x6_6381);
    lemma_sum_known(0x3d73_c20e, 0x3d6d_5e8d, true, 0xf3_c20e, 121, 0xed_5e8d, 121, 0x1, 0x1, 0x6_6381, 19, 0x4_0000, 0x20);
    assert(sub_spec(0x3d73_c20e, 0x3d6d_5e8d) == 0x3acc_7020);
    assert(0x8b_7927 * 0x1 - 0x89_29f3 * 0x1 == 0x2_4f34);
    lemma_sum_known(0x428b_7927, 0x4289_29f3, true, 0x8b_7927, 132, 0x89_29f3, 132, 0x1, 0x1, 0x2_4f34, 18, 0x2_0000, 0x40);
    assert(sub_spec(0x428b_7927, 0x4289_29f3) == 0x3f93_cd00);
    assert(0x93_cd00 * 0xcc_7020 == 0x7608_1829_a000);
    lemma_product_known(0x3f93_cd00, 0x3acc_7020, 0x93_cd00, 126, 0xcc_7020, 116, 0x7608_1829_a000, 47, 0x4000_0000_0000, 0x80_0000);
    assert(mul_spec(0x3f93_cd00, 0x3acc_7020) == 0x3aec_1030);
    assert(0xec_1030 * 0x1_0000_0000_0000_0000 == 0x1_d820_6000_0000_0000 * 0x80_0000 + 0x0);
    lemma_quotient_known(0x3aec_1030, 0x3b00_0000, 0xec_1030, 116, 0x80_0000, 117, 0x1_d820_6000_0000_0000, 0x0, 66, 0x2_0000_0000_0000_0000, 0x400_0000_0000);
    assert(div_spec(0x3aec_1030, 0x3b00_0000) == 0x3f6c_1030);
    assert(0x89_29f3 * 0x80 + 0xec_1030 * 0x1 == 0x4581_09b0);
    lemma_sum_known(0x4289_29f3, 0x3f6c_1030, false, 0x89_29f3, 132, 0xec_1030, 125, 0x80, 0x1, 0x4581_09b0, 31, 0x4000_0000, 0x80);
    assert(add_spec(0x4289_29f3, 0x3f6c_1030) == 0x428b_0213);
    lemma_whole_known(0x428b_0213, 0x8b_0213, 132, 0x2_0000);
}

/// Code 70.
proof fn lemma_code_70()
    ensures
        chord_code(0x3d7a_dd24, 0x3d75_5e8d, 0x3d7d_5e8d, 0x428b_7927, 0x428d_b839) == 70,
{
    reveal(chord_code);
    lemma2_to64();
    lemma2_to64_rest();
    lemma_high_powers();
    assert(0xfd_5e8d * 0x1 - 0xf5_5e8d * 0x1 == 0x8_0000);
    lemma_sum_known(0x3d7d_5e8d, 0x3d75_5e8d, true, 0xfd_5e8d, 121, 0xf5_5e8d, 121, 0x1, 0x1, 0x8_0000, 20, 0x8_0000, 0x10);
    assert(sub_spec(0x3d7d_5e8d, 0x3d75_5e8d) == 0x3b00_0000);
    assert(0xfa_dd24 * 0x1 - 0xf5_5e8d * 0x1 == 0x5_7e97);
    lemma_sum_known(0x3d7a_dd24, 0x3d75_5e8d, true, 0xfa_dd24, 121, 0xf5_5e8d, 121, 0x1, 0x1, 0x5_7e97, 19, 0x4_0000, 0x20);
    assert(sub_spec(0x3d7a_dd24, 0x3d75_5e8d) == 0x3aaf_d2e0);
    assert(0x8d_b839 * 0x1 - 0x8b_7927 * 0x1 == 0x2_3f12);
    lemma_sum_known(0x428d_b839, 0x428b_7927, true, 0x8d_b839, 132, 0x8b_7927, 132, 0x1, 0x1, 0x2_3f12, 18, 0x2_0000, 0x40);
    assert(sub_spec(0x428d_b839, 0x428b_7927) == 0x3f8f_c480);
    assert(0x8f_c480 * 0xaf_d2e0 == 0x62bd_c07c_f000);
    lemma_product_known(0x3f8f_c480, 0x3aaf_d2e0, 0x8f_c480, 126, 0xaf_d2e0, 116, 0x62bd_c07c_f000, 47, 0x4000_0000_0000, 0x80_0000);
    assert(mul_spec(0x3f8f_c480, 0x3aaf_d2e0) == 0x3ac5_7b81);
    assert(0xc5_7b81 * 0x1_0000_0000_0000_0000 == 0x1_8af7_0200_0000_0000 * 0x80_0000 + 0x0);
    lemma_quotient_known(0x3ac5_7b81, 0x3b00_0000, 0xc5_7b81, 116, 0x80_0000, 117, 0x1_8af7_0200_0000_0000, 0x0, 66, 0x2_0000_0000_0000_0000, 0x400_0000_0000);
    assert(div_spec(0x3ac5_7b81, 0x3b00_0000) == 0x3f45_7b81);
    assert(0x8b_7927 * 0x80 + 0xc5_7b81 * 0x1 == 0x4682_0f01);
    lemma_sum_known(0x428b_7927, 0x3f45_7b81, false, 0x8b_7927, 132, 0xc5_7b81, 125, 0x80, 0x1, 0x4682_0f01, 31, 0x4000_0000, 0x80);
    assert(add_spec(0x428b_7927, 0x3f45_7b81) == 0x428d_041e);
    lemma_whole_known(0x428d_041e, 0x8d_041e, 132, 0x2_0000);
}

/// Code 71.
proof fn lemma_code_71()
    ensures
        chord_code(0x3d81_0b65, 0x3d7d_5e8d, 0x3d85_5e8d, 0x428d_b839, 0x4291_6215) == 71,
{
    reveal(chord_code);
    lemma2_to64();
    lemma2_to64_rest();
    lemma_high_powers();
    assert(0x85_5e8d * 0x2 - 0xfd_5e8d * 0x1 == 0xd_5e8d);
    lemma_sum_known(0x3d85_5e8d, 0x3d7d_5e8d, true, 0x85_5e8d, 122, 0xfd_5e8d, 121, 0x2, 0x1, 0xd_5e8d, 20, 0x8_0000, 0x10);
    assert(sub_spec(0x3d85_5e8d, 0x3d7d_5e8d) == 0x3b55_e8d0);
    assert(0x81_0b65 * 0x2 - 0xfd_5e8d * 0x1 == 0x4_b83d);
    lemma_sum_known(0x3d81_0b65, 0x3d7d_5e8d, true, 0x81_0b65, 122, 0xfd_5e8d, 121, 0x2, 0x1, 0x4_b83d, 19, 0x4_0000, 0x20);
    assert(sub_spec(0x3d81_0b65, 0x3d7d_5e8d) == 0x3a97_07a0);
    assert(0x91_6215 * 0x1 - 0x8d_b839 * 0x1 == 0x3_a9dc);
    lemma_sum_known(0x4291_6215, 0x428d_b839, true, 0x91_6215, 132, 0x8d_b839, 132, 0x1, 0x1, 0x3_a9dc, 18, 0x2_0000, 0x40);
    assert(sub_spec(0x4291_6215, 0x428d_b839) == 0x3fea_7700);
    assert(0xea_7700 * 0x97_07a0 == 0x8a53_2ccb_6000);
    lemma_product_known(0x3fea_7700, 0x3a97_07a0, 0xea_7700, 126, 0x97_07a0, 116, 0x8a53_2ccb_6000, 48, 0x8000_0000_0000, 0x100_0000);
    assert(mul_spec(0x3fea_7700, 0x3a97_07a0) == 0x3b0a_532d);
    assert(0x8a_532d * 0x1_0000_0000_0000_0000 == 0xa58a_f841_07a4_f0c0 * 0xd5_e8d0 + 0xe_6400);
    lemma_quotient_known(0x3b0a_532d, 0x3b55_e8d0, 0x8a_532d, 117, 0xd5_e8d0, 117, 0xa58a_f841_07a4_f0c0, 0xe_6400, 65, 0x1_0000_0000_0000_0000, 0x200_0000_0000);
    assert(div_spec(0x3b0a_532d, 0x3b55_e8d0) == 0x3f25_8af8);
    assert(0x8d_b839 * 0x80 + 0xa5_8af8 * 0x1 == 0x4781_a778);
    lemma_sum_known(0x428d_b839, 0x3f25_8af8, false, 0x8d_b839, 132, 0xa5_8af8, 125, 0x80, 0x1, 0x4781_a778, 31, 0x4000_0000, 0x80);
    assert(add_spec(0x428d_b839, 0x3f25_8af8) == 0x428f_034f);
    lemma_whole_known(0x428f_034f, 0x8f_034f, 132, 0x2_0000);
}

/// Code 72.
proof fn lemma_code_72()
    ensures
        chord_code(0x3d84_b793, 0x3d7d_5e8d, 0x3d85_5e8d, 0x428d_b839, 0x4291_6215) == 72,
{
    reveal(chord_code);
    lemma2_to64();
    lemma2_to64_rest();
    lemma_high_powers();
    assert(0x85_5e8d * 0x2 - 0xfd_5e8d * 0x1 == 0xd_5e8d);
    lemma_sum_known(0x3d85_5e8d, 0x3d7d_5e8d, true, 0x85_5e8d, 122, 0xfd_5e8d, 121, 0x2, 0x1, 0xd_5e8d, 20, 0x8_0000, 0x10);
    assert(sub_spec(0x3d85_5e8d, 0x3d7d_5e8d) == 0x3b55_e8d0);
    assert(0x84_b793 * 0x2 - 0xfd_5e8d * 0x1 == 0xc_1099);
    lemma_sum_known(0x3d84_b793, 0x3d7d_5e8d, true, 0x84_b793, 122, 0xfd_5e8d, 121, 0x2, 0x1, 0xc_1099, 20, 0x8_0000, 0x10);
    assert(sub_spec(0x3d84_b793, 0x3d7d_5e8d) == 0x3b41_0990);
    assert(0x91_6215 * 0x1 - 0x8d_b839 * 0x1 == 0x3_a9dc);
    lemma_sum_known(0x4291_6215, 0x428d_b839, true, 0x91_6215, 132, 0x8d_b839, 132, 0x1, 0x1, 0x3_a9dc, 18, 0x2_0000, 0x40);
    assert(sub_spec(0x4291_6215, 0x428d_b839) == 0x3fea_7700);
    assert(0xea_7700 * 0xc1_0990 == 0xb0cc_7911_f000);
    lemma_product_known(0x3fea_7700, 0x3b41_0990, 0xea_7700, 126, 0xc1_0990, 117, 0xb0cc_7911_f000, 48, 0x8000_0000_0000, 0x100_0000);
    assert(mul_spec(0x3fea_7700, 0x3b41_0990) == 0x3bb0_cc79);
    assert(0xb0_cc79 * 0x1_0000_0000_0000_0000 == 0xd396_4b93_1ac7_c2f4 * 0xd5_e8d0 + 0x79c0);
    lemma_quotient_known(0x3bb0_cc79, 0x3b55_e8d0, 0xb0_cc79, 118, 0xd5_e8d0, 117, 0xd396_4b93_1ac7_c2f4, 0x79c0, 65, 0x1_0000_0000_0000_0000, 0x200_0000_0000);
    assert(div_spec(0x3bb0_cc79, 0x3b55_e8d0) == 0x3fd3_964c);
    assert(0x8d_b839 * 0x40 + 0xd3_964c * 0x1 == 0x2441_a48c);
    lemma_sum_known(0x428d_b839, 0x3fd3_964c, false, 0x8d_b839, 132, 0xd3_964c, 126, 0x40, 0x1, 0x2441_a48c, 30, 0x2000_0000, 0x40);
    assert(add_spec(0x428d_b839, 0x3fd3_964c) == 0x4291_0692);
    lemma_whole_known(0x4291_0692, 0x91_0692, 132, 0x2_0000);
}

/// Code 73.
proof fn lemma_code_73()
    ensures
        chord_code(0x3d88_732e, 0x3d85_5e8d, 0x3d8d_5e8d, 0x4291_6215, 0x4295_9e74) == 73,
{
    reveal(chord_code);
    lemma2_to64();
    lemma2_to64_rest();
    lemma_high_powers();
    assert(0x8d_5e8d * 0x1 - 0x85_5e8d * 0x1 == 0x8_0000);
    lemma_sum_known(0x3d8d_5e8d, 0x3d85_5e8d, true, 0x8d_5e8d, 122, 0x85_5e8d, 122, 0x1, 0x1, 0x8_0000, 20, 0x8_0000, 0x10);
    assert(sub_spec(0x3d8d_5e8d, 0x3d85_5e8d) == 0x3b80_0000);
    assert(0x88_732e * 0x1 - 0x85_5e8d * 0x1 == 0x3_14a1);
    lemma_sum_known(0x3d88_732e, 0x3d85_5e8d, true, 0x88_732e, 122, 0x85_5e8d, 122, 0x1, 0x1, 0x3_14a1, 18, 0x2_0000, 0x40);
    assert(sub_spec(0x3d88_732e, 0x3d85_5e8d) == 0x3ac5_2840);
    assert(0x95_9e74 * 0x1 - 0x91_6215 * 0x1 == 0x4_3c5f);
    lemma_sum_known(0x4295_9e74, 0x4291_6215, true, 0x95_9e74, 132, 0x91_6215, 132, 0x1, 0x1, 0x4_3c5f, 19, 0x4_0000, 0x20);
    assert(sub_spec(0x4295_9e74, 0x4291_6215) == 0x4007_8be0);
    assert(0x87_8be0 * 0xc5_2840 == 0x6863_f31d_f800);
    lemma_product_known(0x4007_8be0, 0x3ac5_2840, 0x87_8be0, 127, 0xc5_2840, 116, 0x6863_f31d_f800, 47, 0x4000_0000_0000, 0x80_0000);
    assert(mul_spec(0x4007_8be0, 0x3ac5_2840) == 0x3b50_c7e6);
    assert(0xd0_c7e6 * 0x1_0000_0000_0000_0000 == 0x1_a18f_cc00_0000_0000 * 0x80_0000 + 0x0);
    lemma_quotient_known(0x3b50_c7e6, 0x3b80_0000, 0xd0_c7e6, 117, 0x80_0000, 118, 0x1_a18f_cc00_0000_0000, 0x0, 66, 0x2_0000_0000_0000_0000, 0x400_0000_0000);
    assert(div_spec(0x3b50_c7e6, 0x3b80_0000) == 0x3f50_c7e6);
    assert(0x91_6215 * 0x80 + 0xd0_c7e6 * 0x1 == 0x4981_d266);
    lemma_sum_known(0x4291_6215, 0x3f50_c7e6, false, 0x91_6215, 132, 0xd0_c7e6, 125, 0x80, 0x1, 0x4981_d266, 31, 0x4000_0000, 0x80);
    assert(add_spec(0x4291_6215, 0x3f50_c7e6) == 0x4293_03a5);
    lemma_whole_known(0x4293_03a5, 0x93_03a5, 132, 0x2_0000);
}

/// Code 74.
proof fn lemma_code_74()
    ensures
        chord_code(0x3d8c_3e48, 0x3d85_5e8d, 0x3d8d_5e8d, 0x4291_6215, 0x4295_9e74) == 74,
{
    reveal(chord_code);
    lemma2_to64();
    lemma2_to64_rest();
    lemma_high_powers();
    assert(0x8d_5e8d * 0x1 - 0x85_5e8d * 0x1 == 0x8_0000);
    lemma_sum_known(0x3d8d_5e8d, 0x3d85_5e8d, true, 0x8d_5e8d, 122, 0x85_5e8d, 122, 0x1, 0x1, 0x8_0000, 20, 0x8_0000, 0x10);
    assert(sub_spec(0x3d8d_5e8d, 0x3d85_5e8d) == 0x3b80_0000);
    assert(0x8c_3e48 * 0x1 - 0x85_5e8d * 0x1 == 0x6_dfbb);
    lemma_sum_known(0x3d8c_3e48, 0x3d85_5e8d, true, 0x8c_3e48, 122, 0x85_5e8d, 122, 0x1, 0x1, 0x6_dfbb, 19, 0x4_0000, 0x20);
    assert(sub_spec(0x3d8c_3e48, 0x3d85_5e8d) == 0x3b5b_f760);
    assert(0x95_9e74 * 0x1 - 0x91_6215 * 0x1 == 0x4_3c5f);
    lemma_sum_known(0x4295_9e74, 0x4291_6215, true, 0x95_9e74, 132, 0x91_6215, 132, 0x1, 0x1, 0x4_3c5f, 19, 0x4_0000, 0x20);
    assert(sub_spec(0x4295_9e74, 0x4291_6215) == 0x4007_8be0);
    assert(0x87_8be0 * 0xdb_f760 == 0x7477_a369_9400);
    lemma_product_known(0x4007_8be0, 0x3b5b_f760, 0x87_8be0, 127, 0xdb_f760, 117, 0x7477_a369_9400, 47, 0x4000_0000_0000, 0x80_0000);
    assert(mul_spec(0x4007_8be0, 0x3b5b_f760) == 0x3be8_ef47);
    assert(0xe8_ef47 * 0x1_0000_0000_0000_0000 == 0x1_d1de_8e00_0000_0000 * 0x80_0000 + 0x0);
    lemma_quotient_known(0x3be8_ef47, 0x3b80_0000, 0xe8_ef47, 118, 0x80_0000, 118, 0x1_d1de_8e00_0000_0000, 0x0, 66, 0x2_0000_0000_0000_0000, 0x400_0000_0000);
    assert(div_spec(0x3be8_ef47, 0x3b80_0000) == 0x3fe8_ef47);
    assert(0x91_6215 * 0x40 + 0xe8_ef47 * 0x1 == 0x2541_7487);
    lemma_sum_known(0x4291_6215, 0x3fe8_ef47, false, 0x91_6215, 132, 0xe8_ef47, 126, 0x40, 0x1, 0x2541_7487, 30, 0x2000_0000, 0x40);
    assert(add_spec(0x4291_6215, 0x3fe8_ef47) == 0x4295_05d2);
    lemma_whole_known(0x4295_05d2, 0x95_05d2, 132, 0x2_0000);
}

/// Code 75.
proof fn lemma_code_75()
    ensures
        chord_code(0x3d90_18f4, 0x3d8d_5e8d, 0x3d95_5e8d, 0x4295_9e74, 0x4299_b633) == 75,
{
    reveal(chord_code);
    lemma2_to64();
    lemma2_to64_rest();
    lemma_high_powers();
    assert(0x95_5e8d * 0x1 - 0x8d_5e8d * 0x1 == 0x8_0000);
    lemma_sum_known(0x3d95_5e8d, 0x3d8d_5e8d, true, 0x95_5e8d, 122, 0x8d_5e8d, 122, 0x1, 0x1, 0x8_0000, 20, 0x8_0000, 0x10);
    assert(sub_spec(0x3d95_5e8d, 0x3d8d_5e8d) == 0x3b80_0000);
    assert(0x90_18f4 * 0x1 - 0x8d_5e8d * 0x1 == 0x2_ba67);
    lemma_sum_known(0x3d90_18f4, 0x3d8d_5e8d, true, 0x90_18f4, 122, 0x8d_5e8d, 122, 0x1, 0x1, 0x2_ba67, 18, 0x2_0000, 0x40);
    assert(sub_spec(0x3d90_18f4, 0x3d8d_5e8d) == 0x3aae_99c0);
    assert(0x99_b633 * 0x1 - 0x95_9e74 * 0x1 == 0x4_17bf);
    lemma_sum_known(0x4299_b633, 0x4295_9e74, true, 0x99_b633, 132, 0x95_9e74, 132, 0x1, 0x1, 0x4_17bf, 19, 0x4_0000, 0x20);
    assert(sub_spec(0x4299_b633, 0x4295_9e74) == 0x4002_f7e0);
    assert(0x82_f7e0 * 0xae_99c0 == 0x5953_229e_c800);
    lemma_product_known(0x4002_f7e0, 0x3aae_99c0, 0x82_f7e0, 127, 0xae_99c0, 116, 0x5953_229e_c800, 47, 0x4000_0000_0000, 0x80_0000);
    assert(mul_spec(0x4002_f7e0, 0x3aae_99c0) == 0x3b32_a645);
    assert(0xb2_a645 * 0x1_0000_0000_0000_0000 == 0x1_654c_8a00_0000_0000 * 0x80_0000 + 0x0);
    lemma_quotient_known(0x3b32_a645, 0x3b80_0000, 0xb2_a645, 117, 0x80_0000, 118, 0x1_654c_8a00_0000_0000, 0x0, 66, 0x2_0000_0000_0000_0000, 0x400_0000_0000);
    assert(div_spec(0x3b32_a645, 0x3b80_0000) == 0x3f32_a645);
    assert(0x95_9e74 * 0x80 + 0xb2_a645 * 0x1 == 0x4b81_e045);
    lemma_sum_known(0x4295_9e74, 0x3f32_a645, false, 0x95_9e74, 132, 0xb2_a645, 125, 0x80, 0x1, 0x4b81_e045, 31, 0x4000_0000, 0x80);
    assert(add_spec(0x4295_9e74, 0x3f32_a645) == 0x4297_03c1);
    lemma_whole_known(0x4297_03c1, 0x97_03c1, 132, 0x2_0000);
}

/// Code 76.
proof fn lemma_code_76()
    ensures
        chord_code(0x3d94_0344, 0x3d8d_5e8d, 0x3d95_5e8d, 0x4295_9e74, 0x4299_b633) == 76,
{
    reveal(chord_code);
    lemma2_to64();
    lemma2_to64_rest();
    lemma_high_powers();
    assert(0x95_5e8d * 0x1 - 0x8d_5e8d * 0x1 == 0x8_0000);
    lemma_sum_known(0x3d95_5e8d, 0x3d8d_5e8d, true, 0x95_5e8d, 122, 0x8d_5e8d, 122, 0x1, 0x1, 0x8_0000, 20, 0x8_0000, 0x10);
    assert(sub_spec(0x3d95_5e8d, 0x3d8d_5e8d) == 0x3b80_0000);
    assert(0x94_0344 * 0x1 - 0x8d_5e8d * 0x1 == 0x6_a4b7);
    lemma_sum_known(0x3d94_0344, 0x3d8d_5e8d, true, 0x94_0344, 122, 0x8d_5e8d, 122, 0x1, 0x1, 0x6_a4b7, 19, 0x4_0000, 0x20);
    assert(sub_spec(0x3d94_0344, 0x3d8d_5e8d) == 0x3b54_96e0);
    assert(0x99_b633 * 0x1 - 0x95_9e74 * 0x1 == 0x4_17bf);
    lemma_sum_known(0x4299_b633, 0x4295_9e74, true, 0x99_b633, 132, 0x95_9e74, 132, 0x1, 0x1, 0x4_17bf, 19, 0x4_0000, 0x20);
    assert(sub_spec(0x4299_b633, 0x4295_9e74) == 0x4002_f7e0);
    assert(0x82_f7e0 * 0xd4_96e0 == 0x6cc2_7556_2400);
    lemma_product_known(0x4002_f7e0, 0x3b54_96e0, 0x82_f7e0, 127, 0xd4_96e0, 117, 0x6cc2_7556_2400, 47, 0x4000_0000_0000, 0x80_0000);
    assert(mul_spec(0x4002_f7e0, 0x3b54_96e0) == 0x3bd9_84eb);
    assert(0xd9_84eb * 0x1_0000_0000_0000_0000 == 0x1_b309_d600_0000_0000 * 0x80_0000 + 0x0);
    lemma_quotient_known(0x3bd9_84eb, 0x3b80_0000, 0xd9_84eb, 118, 0x80_0000, 118, 0x1_b309_d600_0000_0000, 0x0, 66, 0x2_0000_0000_0000_0000, 0x400_0000_0000);
    assert(div_spec(0x3bd9_84eb, 0x3b80_0000) == 0x3fd9_84eb);
    assert(0x95_9e74 * 0x40 + 0xd9_84eb * 0x1 == 0x2641_21eb);
    lemma_sum_known(0x4295_9e74, 0x3fd9_84eb, false, 0x95_9e74, 132, 0xd9_84eb, 126, 0x40, 0x1, 0x2641_21eb, 30, 0x2000_0000, 0x40);
    assert(add_spec(0x4295_9e74, 0x3fd9_84eb) == 0x4299_0488);
    lemma_whole_known(0x4299_0488, 0x99_0488, 132, 0x2_0000);
}

/// Code 77.
proof fn lemma_code_77()
    ensures
        chord_code(0x3d97_fd49, 0x3d95_5e8d, 0x3d9d_5e8d, 0x4299_b633, 0x429d_aea5) == 77,
{
    reveal(chord_code);
    lemma2_to64();
    lemma2_to64_rest();
    lemma_high_powers();
    assert(0x9d_5e8d * 0x1 - 0x95_5e8d * 0x1 == 0x8_0000);
    lemma_sum_known(0x3d9d_5e8d, 0x3d95_5e8d, true, 0x9d_5e8d, 122, 0x95_5e8d, 122, 0x1, 0x1, 0x8_0000, 20, 0x8_0000, 0x10);
    assert(sub_spec(0x3d9d_5e8d, 0x3d95_5e8d) == 0x3b80_0000);
    assert(0x97_fd49 * 0x1 - 0x95_5e8d * 0x1 == 0x2_9ebc);
    lemma_sum_known(0x3d97_fd49, 0x3d95_5e8d, true, 0x97_fd49, 122, 0x95_5e8d, 122, 0x1, 0x1, 0x2_9ebc, 18, 0x2_0000, 0x40);
    assert(sub_spec(0x3d97_fd49, 0x3d95_5e8d) == 0x3aa7_af00);
    assert(0x9d_aea5 * 0x1 - 0x99_b633 * 0x1 == 0x3_f872);
    lemma_sum_known(0x429d_aea5, 0x4299_b633, true, 0x9d_aea5, 132, 0x99_b633, 132, 0x1, 0x1, 0x3_f872, 18, 0x2_0000, 0x40);
    assert(sub_spec(0x429d_aea5, 0x4299_b633) == 0x3ffe_1c80);
    assert(0xfe_1c80 * 0xa7_af00 == 0xa672_4cfb_8000);
    lemma_product_known(0x3ffe_1c80, 0x3aa7_af00, 0xfe_1c80, 126, 0xa7_af00, 116, 0xa672_4cfb_8000, 48, 0x8000_0000_0000, 0x100_0000);
    assert(mul_spec(0x3ffe_1c80, 0x3aa7_af00) == 0x3b26_724d);
    assert(0xa6_724d * 0x1_0000_0000_0000_0000 == 0x1_4ce4_9a00_0000_0000 * 0x80_0000 + 0x0);
    lemma_quotient_known(0x3b26_724d, 0x3b80_0000, 0xa6_724d, 117, 0x80_0000, 118, 0x1_4ce4_9a00_0000_0000, 0x0, 66, 0x2_0000_0000_0000_0000, 0x400_0000_0000);
    assert(div_spec(0x3b26_724d, 0x3b80_0000) == 0x3f26_724d);
    assert(0x99_b633 * 0x80 + 0xa6_724d * 0x1 == 0x4d81_8bcd);
    lemma_sum_known(0x4299_b633, 0x3f26_724d, false, 0x99_b633, 132, 0xa6_724d, 125, 0x80, 0x1, 0x4d81_8bcd, 31, 0x4000_0000, 0x80);
    assert(add_spec(0x4299_b633, 0x3f26_724d) == 0x429b_0318);
    lemma_whole_known(0x429b_0318, 0x9b_0318, 132, 0x2_0000);
}

/// Code 78.
proof fn lemma_code_78()
    ensures
        chord_code(0x3d9c_0715, 0x3d95_5e8d, 0x3d9d_5e8d, 0x4299_b633, 0x429d_aea5) == 78,
{
    reveal(chord_code);
    lemma2_to64();
    lemma2_to64_rest();
    lemma_high_powers();
    assert(0x9d_5e8d * 0x1 - 0x95_5e8d * 0x1 == 0x8_0000);
    lemma_sum_known(0x3d9d_5e8d, 0x3d95_5e8d, true, 0x9d_5e8d, 122, 0x95_5e8d, 122, 0x1, 0x1, 0x8_0000, 20, 0x8_0000, 0x10);
    assert(sub_spec(0x3d9d_5e8d, 0x3d95_5e8d) == 0x3b80_0000);
    assert(0x9c_0715 * 0x1 - 0x95_5e8d * 0x1 == 0x6_a888);
    lemma_sum_known(0x3d9c_0715, 0x3d95_5e8d, true, 0x9c_0715, 122, 0x95_5e8d, 122, 0x1, 0x1, 0x6_a888, 19, 0x4_0000, 0x20);
    assert(sub_spec(0x3d9c_0715, 0x3d95_5e8d) == 0x3b55_1100);
    assert(0x9d_aea5 * 0x1 - 0x99_b633 * 0x1 == 0x3_f872);
    lemma_sum_known(0x429d_aea5, 0x4299_b633, true, 0x9d_aea5, 132, 0x99_b633, 132, 0x1, 0x1, 0x3_f872, 18, 0x2_0000, 0x40);
    assert(sub_spec(0x429d_aea5, 0x4299_b633) == 0x3ffe_1c80);
    assert(0xfe_1c80 * 0xd5_1100 == 0xd37e_9664_8000);
    lemma_product_known(0x3ffe_1c80, 0x3b55_1100, 0xfe_1c80, 126, 0xd5_1100, 117, 0xd37e_9664_8000, 48, 0x8000_0000_0000, 0x100_0000);
    assert(mul_spec(0x3ffe_1c80, 0x3b55_1100) == 0x3bd3_7e96);
    assert(0xd3_7e96 * 0x1_0000_0000_0000_0000 == 0x1_a6fd_2c00_0000_0000 * 0x80_0000 + 0x0);
    lemma_quotient_known(0x3bd3_7e96, 0x3b80_0000, 0xd3_7e96, 118, 0x80_0000, 118, 0x1_a6fd_2c00_0000_0000, 0x0, 66, 0x2_0000_0000_0000_0000, 0x400_0000_0000);
    assert(div_spec(0x3bd3_7e96, 0x3b80_0000) == 0x3fd3_7e96);
    assert(0x99_b633 * 0x40 + 0xd3_7e96 * 0x1 == 0x2741_0b56);
    lemma_sum_known(0x4299_b633, 0x3fd3_7e96, false, 0x99_b633, 132, 0xd3_7e96, 126, 0x40, 0x1, 0x2741_0b56, 30, 0x2000_0000, 0x40);
    assert(add_spec(0x4299_b633, 0x3fd3_7e96) == 0x429d_042d);
    lemma_whole_known(0x429d_042d, 0x9d_042d, 132, 0x2_0000);
}

/// Code 79.
proof fn lemma_code_79()
    ensures
        chord_code(0x3da0_20ba, 0x3d9d_5e8d, 0x3da5_5e8d, 0x429d_aea5, 0x42a1_89c3) == 79,
{
    reveal(chord_code);
    lemma2_to64();
    lemma2_to64_rest();
    lemma_high_powers();
    assert(0xa5_5e8d * 0x1 - 0x9d_5e8d * 0x1 == 0x8_0000);
    lemma_sum_known(0x3da5_5e8d, 0x3d9d_5e8d, true, 0xa5_5e8d, 122, 0x9d_5e8d, 122, 0x1, 0x1, 0x8_0000, 20, 0x8_0000, 0x10);
    assert(sub_spec(0x3da5_5e8d, 0x3d9d_5e8d) == 0x3b80_0000);
    assert(0xa0_20ba * 0x1 - 0x9d_5e8d * 0x1 == 0x2_c22d);
    lemma_sum_known(0x3da0_20ba, 0x3d9d_5e8d, true, 0xa0_20ba, 122, 0x9d_5e8d, 122, 0x1, 0x1, 0x2_c22d, 18, 0x2_0000, 0x40);
    assert(sub_spec(0x3da0_20ba, 0x3d9d_5e8d) == 0x3ab0_8b40);
    assert(0xa1_89c3 * 0x1 - 0x9d_aea5 * 0x1 == 0x3_db1e);
    lemma_sum_known(0x42a1_89c3, 0x429d_aea5, true, 0xa1_89c3, 132, 0x9d_aea5, 132, 0x1, 0x1, 0x3_db1e, 18, 0x2_0000, 0x40);
    assert(sub_spec(0x42a1_89c3, 0x429d_aea5) == 0x3ff6_c780);
    assert(0xf6_c780 * 0xb0_8b40 == 0xaa2f_6404_6000);
    lemma_product_known(0x3ff6_c780, 0x3ab0_8b40, 0xf6_c780, 126, 0xb0_8b40, 116, 0xaa2f_6404_6000, 48, 0x8000_0000_0000, 0x100_0000);
    assert(mul_spec(0x3ff6_c780, 0x3ab0_8b40) == 0x3b2a_2f64);
    assert(0xaa_2f64 * 0x1_0000_0000_0000_0000 == 0x1_545e_c800_0000_0000 * 0x80_0000 + 0x0);
    lemma_quotient_known(0x3b2a_2f64, 0x3b80_0000, 0xaa_2f64, 117, 0x80_0000, 118, 0x1_545e_c800_0000_0000, 0x0, 66, 0x2_0000_0000_0000_0000, 0x400_0000_0000);
    assert(div_spec(0x3b2a_2f64, 0x3b80_0000) == 0x3f2a_2f64);
    assert(0x9d_aea5 * 0x80 + 0xaa_2f64 * 0x1 == 0x4f81_81e4);
    lemma_sum_known(0x429d_aea5, 0x3f2a_2f64, false, 0x9d_aea5, 132, 0xaa_2f64, 125, 0x80, 0x1, 0x4f81_81e4, 31, 0x4000_0000, 0x80);
    assert(add_spec(0x429d_aea5, 0x3f2a_2f64) == 0x429f_0304);
    lemma_whole_known(0x429f_0304, 0x9f_0304, 132, 0x2_0000);
}

/// Code 80.
proof fn lemma_code_80()
    ensures
        chord_code(0x3da4_4a4a, 0x3d9d_5e8d, 0x3da5_5e8d, 0x429d_aea5, 0x42a1_89c3) == 80,
{
    reveal(chord_code);
    lemma2_to64();
    lemma2_to64_rest();
    lemma_high_powers();
    assert(0xa5_5e8d * 0x1 - 0x9d_5e8d * 0x1 == 0x8_0000);
    lemma_sum_known(0x3da5_5e8d, 0x3d9d_5e8d, true, 0xa5_5e8d, 122, 0x9d_5e8d, 122, 0x1, 0x1, 0x8_0000, 20, 0x8_0000, 0x10);
    assert(sub_spec(0x3da5_5e8d, 0x3d9d_5e8d) == 0x3b80_0000);
    assert(0xa4_4a4a * 0x1 - 0x9d_5e8d * 0x1 == 0x6_ebbd);
    lemma_sum_known(0x3da4_4a4a, 0x3d9d_5e8d, true, 0xa4_4a4a, 122, 0x9d_5e8d, 122, 0x1, 0x1, 0x6_ebbd, 19, 0x4_0000, 0x20);
    assert(sub_spec(0x3da4_4a4a, 0x3d9d_5e8d) == 0x3b5d_77a0);
    assert(0xa1_89c3 * 0x1 - 0x9d_aea5 * 0x1 == 0x3_db1e);
    lemma_sum_known(0x42a1_89c3, 0x429d_aea5, true, 0xa1_89c3, 132, 0x9d_aea5, 132, 0x1, 0x1, 0x3_db1e, 18, 0x2_0000, 0x40);
    assert(sub_spec(0x42a1_89c3, 0x429d_aea5) == 0x3ff6_c780);
    assert(0xf6_c780 * 0xdd_77a0 == 0xd57d_8a79_3000);
    lemma_product_known(0x3ff6_c780, 0x3b5d_77a0, 0xf6_c780, 126, 0xdd_77a0, 117, 0xd57d_8a79_3000, 48, 0x8000_0000_0000, 0x100_0000);
    assert(mul_spec(0x3ff6_c780, 0x3b5d_77a0) == 0x3bd5_7d8a);
    assert(0xd5_7d8a * 0x1_0000_0000_0000_0000 == 0x1_aafb_1400_0000_0000 * 0x80_0000 + 0x0);
    lemma_quotient_known(0x3bd5_7d8a, 0x3b80_0000, 0xd5_7d8a, 118, 0x80_0000, 118, 0x1_aafb_1400_0000_0000, 0x0, 66, 0x2_0000_0000_0000_0000, 0x400_0000_0000);
    assert(div_spec(0x3bd5_7d8a, 0x3b80_0000) == 0x3fd5_7d8a);
    assert(0x9d_aea5 * 0x40 + 0xd5_7d8a * 0x1 == 0x2841_26ca);
    lemma_sum_known(0x429d_aea5, 0x3fd5_7d8a, false, 0x9d_aea5, 132, 0xd5_7d8a, 126, 0x40, 0x1, 0x2841_26ca, 30, 0x2000_0000, 0x40);
    assert(add_spec(0x429d_aea5, 0x3fd5_7d8a) == 0x42a1_049b);
    lemma_whole_known(0x42a1_049b, 0xa1_049b, 132, 0x2_0000);
}

/// Code 81.
proof fn lemma_code_81()
    ensures
        chord_code(0x3da8_83d6, 0x3da5_5e8d, 0x3dad_5e8d, 0x42a1_89c3, 0x42a5_498f) == 81,
{
    reveal(chord_code);
    lemma2_to64();
    lemma2_to64_rest();
    lemma_high_powers();
    assert(0xad_5e8d * 0x1 - 0xa5_5e8d * 0x1 == 0x8_0000);
    lemma_sum_known(0x3dad_5e8d, 0x3da5_5e8d, true, 0xad_5e8d, 122, 0xa5_5e8d, 122, 0x1, 0x1, 0x8_0000, 20, 0x8_0000, 0x10);
    assert(sub_spec(0x3dad_5e8d, 0x3da5_5e8d) == 0x3b80_0000);
    assert(0xa8_83d6 * 0x1 - 0xa5_5e8d * 0x1 == 0x3_2549);
    lemma_sum_known(0x3da8_83d6, 0x3da5_5e8d, true, 0xa8_83d6, 122, 0xa5_5e8d, 122, 0x1, 0x1, 0x3_2549, 18, 0x2_0000, 0x40);
    assert(sub_spec(0x3da8_83d6, 0x3da5_5e8d) == 0x3ac9_5240);
    assert(0xa5_498f * 0x1 - 0xa1_89c3 * 0x1 == 0x3_bfcc);
    lemma_sum_known(0x42a5_498f, 0x42a1_89c3, true, 0xa5_498f, 132, 0xa1_89c3, 132, 0x1, 0x1, 0x3_bfcc, 18, 0x2_0000, 0x40);
    assert(sub_spec(0x42a5_498f, 0x42a1_89c3) == 0x3fef_f300);
    assert(0xef_f300 * 0xc9_5240 == 0xbcb2_e2d2_c000);
    lemma_product_known(0x3fef_f300, 0x3ac9_5240, 0xef_f300, 126, 0xc9_5240, 116, 0xbcb2_e2d2_c000, 48, 0x8000_0000_0000, 0x100_0000);
    assert(mul_spec(0x3fef_f300, 0x3ac9_5240) == 0x3b3c_b2e3);
    assert(0xbc_b2e3 * 0x1_0000_0000_0000_0000 == 0x1_7965_c600_0000_0000 * 0x80_0000 + 0x0);
    lemma_quotient_known(0x3b3c_b2e3, 0x3b80_0000, 0xbc_b2e3, 117, 0x80_0000, 118, 0x1_7965_c600_0000_0000, 0x0, 66, 0x2_0000_0000_0000_0000, 0x400_0000_0000);
    assert(div_spec(0x3b3c_b2e3, 0x3b80_0000) == 0x3f3c_b2e3);
    assert(0xa1_89c3 * 0x80 + 0xbc_b2e3 * 0x1 == 0x5181_9463);
    lemma_sum_known(0x42a1_89c3, 0x3f3c_b2e3, false, 0xa1_89c3, 132, 0xbc_b2e3, 125, 0x80, 0x1, 0x5181_9463, 31, 0x4000_0000, 0x80);
    assert(add_spec(0x42a1_89c3, 0x3f3c_b2e3) == 0x42a3_0329);
    lemma_whole_known(0x42a3_0329, 0xa3_0329, 132, 0x2_0000);
}

/// Code 82.
proof fn lemma_code_82()
    ensures
        chord_code(0x3dac_cd6f, 0x3da5_5e8d, 0x3dad_5e8d, 0x42a1_89c3, 0x42a5_498f) == 82,
{
    reveal(chord_code);
    lemma2_to64();
    lemma2_to64_rest();
    lemma_high_powers();
    assert(0xad_5e8d * 0x1 - 0xa5_5e8d * 0x1 == 0x8_0000);
    lemma_sum_known(0x3dad_5e8d, 0x3da5_5e8d, true, 0xad_5e8d, 122, 0xa5_5e8d, 122, 0x1, 0x1, 0x8_0000, 20, 0x8_0000, 0x10);
    assert(sub_spec(0x3dad_5e8d, 0x3da5_5e8d) == 0x3b80_0000);
    assert(0xac_cd6f * 0x1 - 0xa5_5e8d * 0x1 == 0x7_6ee2);
    lemma_sum_known(0x3dac_cd6f, 0x3da5_5e8d, true, 0xac_cd6f, 122, 0xa5_5e8d, 122, 0x1, 0x1, 0x7_6ee2, 19, 0x4_0000, 0x20);
    assert(sub_spec(0x3dac_cd6f, 0x3da5_5e8d) == 0x3b6d_dc40);
    assert(0xa5_498f * 0x1 - 0xa1_89c3 * 0x1 == 0x3_bfcc);
    lemma_sum_known(0x42a5_498f, 0x42a1_89c3, true, 0xa5_498f, 132, 0xa1_89c3, 132, 0x1, 0x1, 0x3_bfcc, 18, 0x2_0000, 0x40);
    assert(sub_spec(0x42a5_498f, 0x42a1_89c3) == 0x3fef_f300);
    assert(0xef_f300 * 0xed_dc40 == 0xdef2_67d0_c000);
    lemma_product_known(0x3fef_f300, 0x3b6d_dc40, 0xef_f300, 126, 0xed_dc40, 117, 0xdef2_67d0_c000, 48, 0x8000_0000_0000, 0x100_0000);
    assert(mul_spec(0x3fef_f300, 0x3b6d_dc40) == 0x3bde_f268);
    assert(0xde_f268 * 0x1_0000_0000_0000_0000 == 0x1_bde4_d000_0000_0000 * 0x80_0000 + 0x0);
    lemma_quotient_known(0x3bde_f268, 0x3b80_0000, 0xde_f268, 118, 0x80_0000, 118, 0x1_bde4_d000_0000_0000, 0x0, 66, 0x2_0000_0000_0000_0000, 0x400_0000_0000);
    assert(div_spec(0x3bde_f268, 0x3b80_0000) == 0x3fde_f268);
    assert(0xa1_89c3 * 0x40 + 0xde_f268 * 0x1 == 0x2941_6328);
    lemma_sum_known(0x42a1_89c3, 0x3fde_f268, false, 0xa1_89c3, 132, 0xde_f268, 126, 0x40, 0x1, 0x2941_6328, 30, 0x2000_0000, 0x40);
    assert(add_spec(0x42a1_89c3, 0x3fde_f268) == 0x42a5_058d);
    lemma_whole_known(0x42a5_058d, 0xa5_058d, 132, 0x2_0000);
}

/// Code 83.
proof fn lemma_code_83()
    ensures
        chord_code(0x3db1_2727, 0x3dad_5e8d, 0x3db5_5e8d, 0x42a5_498f, 0x42a8_efaa) == 83,
{
    reveal(chord_code);
    lemma2_to64();
    lemma2_to64_rest();
    lemma_high_powers();
    assert(0xb5_5e8d * 0x1 - 0xad_5e8d * 0x1 == 0x8_0000);
    lemma_sum_known(0x3db5_5e8d, 0x3dad_5e8d, true, 0xb5_5e8d, 122, 0xad_5e8d, 122, 0x1, 0x1, 0x8_0000, 20, 0x8_0000, 0x10);
    assert(sub_spec(0x3db5_5e8d, 0x3dad_5e8d) == 0x3b80_0000);
    assert(0xb1_2727 * 0x1 - 0xad_5e8d * 0x1 == 0x3_c89a);
    lemma_sum_known(0x3db1_2727, 0x3dad_5e8d, true, 0xb1_2727, 122, 0xad_5e8d, 122, 0x1, 0x1, 0x3_c89a, 18, 0x2_0000, 0x40);
    assert(sub_spec(0x3db1_2727, 0x3dad_5e8d) == 0x3af2_2680);
    assert(0xa8_efaa * 0x1 - 0xa5_498f * 0x1 == 0x3_a61b);
    lemma_sum_known(0x42a8_efaa, 0x42a5_498f, true, 0xa8_efaa, 132, 0xa5_498f, 132, 0x1, 0x1, 0x3_a61b, 18, 0x2_0000, 0x40);
    assert(sub_spec(0x42a8_efaa, 0x42a5_498f) == 0x3fe9_86c0);
    assert(0xe9_86c0 * 0xf2_2680 == 0xdce4_8043_e000);
    lemma_product_known(0x3fe9_86c0, 0x3af2_2680, 0xe9_86c0, 126, 0xf2_2680, 116, 0xdce4_8043_e000, 48, 0x8000_0000_0000, 0x100_0000);
    assert(mul_spec(0x3fe9_86c0, 0x3af2_2680) == 0x3b5c_e480);
    assert(0xdc_e480 * 0x1_0000_0000_0000_0000 == 0x1_b9c9_0000_0000_0000 * 0x80_0000 + 0x0);
    lemma_quotient_known(0x3b5c_e480, 0x3b80_0000, 0xdc_e480, 117, 0x80_0000, 118, 0x1_b9c9_0000_0000_0000, 0x0, 66, 0x2_0000_0000_0000_0000, 0x400_0000_0000);
    assert(div_spec(0x3b5c_e480, 0x3b80_0000) == 0x3f5c_e480);
    assert(0xa5_498f * 0x80 + 0xdc_e480 * 0x1 == 0x5381_ac00);
    lemma_sum_known(0x42a5_498f, 0x3f5c_e480, false, 0xa5_498f, 132, 0xdc_e480, 125, 0x80, 0x1, 0x5381_ac00, 31, 0x4000_0000, 0x80);
    assert(add_spec(0x42a5_498f, 0x3f5c_e480) == 0x42a7_0358);
    lemma_whole_known(0x42a7_0358, 0xa7_0358, 132, 0x2_0000);
}

/// Code 84.
proof fn lemma_code_84()
    ensures
        chord_code(0x3db5_910f, 0x3db5_5e8d, 0x3dbd_5e8d, 0x42a8_efaa, 0x42ac_7bd0) == 84,
{
    reveal(chord_code);
    lemma2_to64();
    lemma2_to64_rest();
    lemma_high_powers();
    assert(0xbd_5e8d * 0x1 - 0xb5_5e8d * 0x1 == 0x8_0000);
    lemma_sum_known(0x3dbd_5e8d, 0x3db5_5e8d, true, 0xbd_5e8d, 122, 0xb5_5e8d, 122, 0x1, 0x1, 0x8_0000, 20, 0x8_0000, 0x10);
    assert(sub_spec(0x3dbd_5e8d, 0x3db5_5e8d) == 0x3b80_0000);
    assert(0xb5_910f * 0x1 - 0xb5_5e8d * 0x1 == 0x3282);
    lemma_sum_known(0x3db5_910f, 0x3db5_5e8d, true, 0xb5_910f, 122, 0xb5_5e8d, 122, 0x1, 0x1, 0x3282, 14, 0x2000, 0x400);
    assert(sub_spec(0x3db5_910f, 0x3db5_5e8d) == 0x38ca_0800);
    assert(0xac_7bd0 * 0x1 - 0xa8_efaa * 0x1 == 0x3_8c26);
    lemma_sum_known(0x42ac_7bd0, 0x42a8_efaa, true, 0xac_7bd0, 132, 0xa8_efaa, 132, 0x1, 0x1, 0x3_8c26, 18, 0x2_0000, 0x40);
    assert(sub_spec(0x42ac_7bd0, 0x42a8_efaa) == 0x3fe3_0980);
    assert(0xe3_0980 * 0xca_0800 == 0xb32c_974c_0000);
    lemma_product_known(0x3fe3_0980, 0x38ca_0800, 0xe3_0980, 126, 0xca_0800, 112, 0xb32c_974c_0000, 48, 0x8000_0000_0000, 0x100_0000);
    assert(mul_spec(0x3fe3_0980, 0x38ca_0800) == 0x3933_2c97);
    assert(0xb3_2c97 * 0x1_0000_0000_0000_0000 == 0x1_6659_2e00_0000_0000 * 0x80_0000 + 0x0);
    lemma_quotient_known(0x3933_2c97, 0x3b80_0000, 0xb3_2c97, 113, 0x80_0000, 118, 0x1_6659_2e00_0000_0000, 0x0, 66, 0x2_0000_0000_0000_0000, 0x400_0000_0000);
    assert(div_spec(0x3933_2c97, 0x3b80_0000) == 0x3d33_2c97);
    assert(0xa8_efaa * 0x800 + 0xb3_2c97 * 0x1 == 0x5_4830_7c97);
    lemma_sum_known(0x42a8_efaa, 0x3d33_2c97, false, 0xa8_efaa, 132, 0xb3_2c97, 121, 0x800, 0x1, 0x5_4830_7c97, 35, 0x4_0000_0000, 0x800);
    assert(add_spec(0x42a8_efaa, 0x3d33_2c97) == 0x42a9_0610);
    lemma_whole_known(0x42a9_0610, 0xa9_0610, 132, 0x2_0000);
}

/// Code 85.
proof fn lemma_code_85()
    ensures
        chord_code(0x3dba_0b38, 0x3db5_5e8d, 0x3dbd_5e8d, 0x42a8_efaa, 0x42ac_7bd0) == 85,
{
    reveal(chord_code);
    lemma2_to64();
    lemma2_to64_rest();
    lemma_high_powers();
    assert(0xbd_5e8d * 0x1 - 0xb5_5e8d * 0x1 == 0x8_0000);
    lemma_sum_known(0x3dbd_5e8d, 0x3db5_5e8d, true, 0xbd_5e8d, 122, 0xb5_5e8d, 122, 0x1, 0x1, 0x8_0000, 20, 0x8_0000, 0x10);
    assert(sub_spec(0x3dbd_5e8d, 0x3db5_5e8d) == 0x3b80_0000);
    assert(0xba_0b38 * 0x1 - 0xb5_5e8d * 0x1 == 0x4_acab);
    lemma_sum_known(0x3dba_0b38, 0x3db5_5e8d, true, 0xba_0b38, 122, 0xb5_5e8d, 122, 0x1, 0x1, 0x4_acab, 19, 0x4_0000, 0x20);
    assert(sub_spec(0x3dba_0b38, 0x3db5_5e8d) == 0x3b15_9560);
    assert(0xac_7bd0 * 0x1 - 0xa8_efaa * 0x1 == 0x3_8c26);
    lemma_sum_known(0x42ac_7bd0, 0x42a8_efaa, true, 0xac_7bd0, 132, 0xa8_efaa, 132, 0x1, 0x1, 0x3_8c26, 18, 0x2_0000, 0x40);
    assert(sub_spec(0x42ac_7bd0, 0x42a8_efaa) == 0x3fe3_0980);
    assert(0xe3_0980 * 0x95_9560 == 0x84a9_012b_1000);
    lemma_product_known(0x3fe3_0980, 0x3b15_9560, 0xe3_0980, 126, 0x95_9560, 117, 0x84a9_012b_1000, 48, 0x8000_0000_0000, 0x100_0000);
    assert(mul_spec(0x3fe3_0980, 0x3b15_9560) == 0x3b84_a901);
    assert(0x84_a901 * 0x1_0000_0000_0000_0000 == 0x1_0952_0200_0000_0000 * 0x80_0000 + 0x0);
    lemma_quotient_known(0x3b84_a901, 0x3b80_0000, 0x84_a901, 118, 0x80_0000, 118, 0x1_0952_0200_0000_0000, 0x0, 66, 0x2_0000_0000_0000_0000, 0x400_0000_0000);
    assert(div_spec(0x3b84_a901, 0x3b80_0000) == 0x3f84_a901);
    assert(0xa8_efaa * 0x40 + 0x84_a901 * 0x1 == 0x2ac0_9381);
    lemma_sum_known(0x42a8_efaa, 0x3f84_a901, false, 0xa8_efaa, 132, 0x84_a901, 126, 0x40, 0x1, 0x2ac0_9381, 30, 0x2000_0000, 0x40);
    assert(add_spec(0x42a8_efaa, 0x3f84_a901) == 0x42ab_024e);
    lemma_whole_known(0x42ab_024e, 0xab_024e, 132, 0x2_0000);
}

/// Code 86.
proof fn lemma_code_86()
    ensures
        chord_code(0x3dbe_95b3, 0x3dbd_5e8d, 0x3dc5_5e8d, 0x42ac_7bd0, 0x42af_f5f2) == 86,
{
    reveal(chord_code);
    lemma2_to64();
    lemma2_to64_rest();
    lemma_high_powers();
    assert(0xc5_5e8d * 0x1 - 0xbd_5e8d * 0x1 == 0x8_0000);
    lemma_sum_known(0x3dc5_5e8d, 0x3dbd_5e8d, true, 0xc5_5e8d, 122, 0xbd_5e8d, 122, 0x1, 0x1, 0x8_0000, 20, 0x8_0000, 0x10);
    assert(sub_spec(0x3dc5_5e8d, 0x3dbd_5e8d) == 0x3b80_0000);
    assert(0xbe_95b3 * 0x1 - 0xbd_5e8d * 0x1 == 0x1_3726);
    lemma_sum_known(0x3dbe_95b3, 0x3dbd_5e8d, true, 0xbe_95b3, 122, 0xbd_5e8d, 122, 0x1, 0x1, 0x1_3726, 17, 0x1_0000, 0x80);
    assert(sub_spec(0x3dbe_95b3, 0x3dbd_5e8d) == 0x3a1b_9300);
    assert(0xaf_f5f2 * 0x1 - 0xac_7bd0 * 0x1 == 0x3_7a22);
    lemma_sum_known(0x42af_f5f2, 0x42ac_7bd0, true, 0xaf_f5f2, 132, 0xac_7bd0, 132, 0x1, 0x1, 0x3_7a22, 18, 0x2_0000, 0x40);
    assert(sub_spec(0x42af_f5f2, 0x42ac_7bd0) == 0x3fde_8880);
    assert(0xde_8880 * 0x9b_9300 == 0x873c_6de1_8000);
    lemma_product_known(0x3fde_8880, 0x3a1b_9300, 0xde_8880, 126, 0x9b_9300, 115, 0x873c_6de1_8000, 48, 0x8000_0000_0000, 0x100_0000);
    assert(mul_spec(0x3fde_8880, 0x3a1b_9300) == 0x3a87_3c6e);
    assert(0x87_3c6e * 0x1_0000_0000_0000_0000 == 0x1_0e78_dc00_0000_0000 * 0x80_0000 + 0x0);
    lemma_quotient_known(0x3a87_3c6e, 0x3b80_0000, 0x87_3c6e, 116, 0x80_0000, 118, 0x1_0e78_dc00_0000_0000, 0x0, 66, 0x2_0000_0000_0000_0000, 0x400_0000_0000);
    assert(div_spec(0x3a87_3c6e, 0x3b80_0000) == 0x3e87_3c6e);
    assert(0xac_7bd0 * 0x100 + 0x87_3c6e * 0x1 == 0xad03_0c6e);
    lemma_sum_known(0x42ac_7bd0, 0x3e87_3c6e, false, 0xac_7bd0, 132, 0x87_3c6e, 124, 0x100, 0x1, 0xad03_0c6e, 32, 0x8000_0000, 0x100);
    assert(add_spec(0x42ac_7bd0, 0x3e87_3c6e) == 0x42ad_030c);
    lemma_whole_known(0x42ad_030c, 0xad_030c, 132, 0x2_0000);
}

/// Code 87.
proof fn lemma_code_87()
    ensures
        chord_code(0x3dc3_3090, 0x3dbd_5e8d, 0x3dc5_5e8d, 0x42ac_7bd0, 0x42af_f5f2) == 87,
{
    reveal(chord_code);
    lemma2_to64();
    lemma2_to64_rest();
    lemma_high_powers();
    assert(0xc5_5e8d * 0x1 - 0xbd_5e8d * 0x1 == 0x8_0000);
    lemma_sum_known(0x3dc5_5e8d, 0x3dbd_5e8d, true, 0xc5_5e8d, 122, 0xbd_5e8d, 122, 0x1, 0x1, 0x8_0000, 20, 0x8_0000, 0x10);
    assert(sub_spec(0x3dc5_5e8d, 0x3dbd_5e8d) == 0x3b80_0000);
    assert(0xc3_3090 * 0x1 - 0xbd_5e8d * 0x1 == 0x5_d203);
    lemma_sum_known(0x3dc3_3090, 0x3dbd_5e8d, true, 0xc3_3090, 122, 0xbd_5e8d, 122, 0x1, 0x1, 0x5_d203, 19, 0x4_0000, 0x20);
    assert(sub_spec(0x3dc3_3090, 0x3dbd_5e8d) == 0x3b3a_4060);
    assert(0xaf_f5f2 * 0x1 - 0xac_7bd0 * 0x1 == 0x3_7a22);
    lemma_sum_known(0x42af_f5f2, 0x42ac_7bd0, true, 0xaf_f5f2, 132, 0xac_7bd0, 132, 0x1, 0x1, 0x3_7a22, 18, 0x2_0000, 0x40);
    assert(sub_spec(0x42af_f5f2, 0x42ac_7bd0) == 0x3fde_8880);
    assert(0xde_8880 * 0xba_4060 == 0xa1e7_2293_3000);
    lemma_product_known(0x3fde_8880, 0x3b3a_4060, 0xde_8880, 126, 0xba_4060, 117, 0xa1e7_2293_3000, 48, 0x8000_0000_0000, 0x100_0000);
    assert(mul_spec(0x3fde_8880, 0x3b3a_4060) == 0x3ba1_e723);
    assert(0xa1_e723 * 0x1_0000_0000_0000_0000 == 0x1_43ce_4600_0000_0000 * 0x80_0000 + 0x0);
    lemma_quotient_known(0x3ba1_e723, 0x3b80_0000, 0xa1_e723, 118, 0x80_0000, 118, 0x1_43ce_4600_0000_0000, 0x0, 66, 0x2_0000_0000_0000_0000, 0x400_0000_0000);
    assert(div_spec(0x3ba1_e723, 0x3b80_0000) == 0x3fa1_e723);
    assert(0xac_7bd0 * 0x40 + 0xa1_e723 * 0x1 == 0x2bc0_db23);
    lemma_sum_known(0x42ac_7bd0, 0x3fa1_e723, false, 0xac_7bd0, 132, 0xa1_e723, 126, 0x40, 0x1, 0x2bc0_db23, 30, 0x2000_0000, 0x40);
    assert(add_spec(0x42ac_7bd0, 0x3fa1_e723) == 0x42af_036d);
    lemma_whole_known(0x42af_036d, 0xaf_036d, 132, 0x2_0000);
}

/// Code 88.
proof fn lemma_code_88()
    ensures
        chord_code(0x3dc7_dbe0, 0x3dc5_5e8d, 0x3dcd_5e8d, 0x42af_f5f2, 0x42b3_5847) == 88,
{
    reveal(chord_code);
    lemma2_to64();
    lemma2_to64_rest();
    lemma_high_powers();
    assert(0xcd_5e8d * 0x1 - 0xc5_5e8d * 0x1 == 0x8_0000);
    lemma_sum_known(0x3dcd_5e8d, 0x3dc5_5e8d, true, 0xcd_5e8d, 122, 0xc5_5e8d, 122, 0x1, 0x1, 0x8_0000, 20, 0x8_0000, 0x10);
    assert(sub_spec(0x3dcd_5e8d, 0x3dc5_5e8d) == 0x3b80_0000);
    assert(0xc7_dbe0 * 0x1 - 0xc5_5e8d * 0x1 == 0x2_7d53);
    lemma_sum_known(0x3dc7_dbe0, 0x3dc5_5e8d, true, 0xc7_dbe0, 122, 0xc5_5e8d, 122, 0x1, 0x1, 0x2_7d53, 18, 0x2_0000, 0x40);
    assert(sub_spec(0x3dc7_dbe0, 0x3dc5_5e8d) == 0x3a9f_54c0);
    assert(0xb3_5847 * 0x1 - 0xaf_f5f2 * 0x1 == 0x3_6255);
    lemma_sum_known(0x42b3_5847, 0x42af_f5f2, true, 0xb3_5847, 132, 0xaf_f5f2, 132, 0x1, 0x1, 0x3_6255, 18, 0x2_0000, 0x40);
    assert(sub_spec(0x42b3_5847, 0x42af_f5f2) == 0x3fd8_9540);
    assert(0xd8_9540 * 0x9f_54c0 == 0x86cc_6628_f000);
    lemma_product_known(0x3fd8_9540, 0x3a9f_54c0, 0xd8_9540, 126, 0x9f_54c0, 116, 0x86cc_6628_f000, 48, 0x8000_0000_0000, 0x100_0000);
    assert(mul_spec(0x3fd8_9540, 0x3a9f_54c0) == 0x3b06_cc66);
    assert(0x86_cc66 * 0x1_0000_0000_0000_0000 == 0x1_0d98_cc00_0000_0000 * 0x80_0000 + 0x0);
    lemma_quotient_known(0x3b06_cc66, 0x3b80_0000, 0x86_cc66, 117, 0x80_0000, 118, 0x1_0d98_cc00_0000_0000, 0x0, 66, 0x2_0000_0000_0000_0000, 0x400_0000_0000);
    assert(div_spec(0x3b06_cc66, 0x3b80_0000) == 0x3f06_cc66);
    assert(0xaf_f5f2 * 0x80 + 0x86_cc66 * 0x1 == 0x5881_c566);
    lemma_sum_known(0x42af_f5f2, 0x3f06_cc66, false, 0xaf_f5f2, 132, 0x86_cc66, 125, 0x80, 0x1, 0x5881_c566, 31, 0x4000_0000, 0x80);
    assert(add_spec(0x42af_f5f2, 0x3f06_cc66) == 0x42b1_038b);
    lemma_whole_known(0x42b1_038b, 0xb1_038b, 132, 0x2_0000);
}

/// Code 89.
proof fn lemma_code_89()
    ensures
        chord_code(0x3dcc_97b4, 0x3dc5_5e8d, 0x3dcd_5e8d, 0x42af_f5f2, 0x42b3_5847) == 89,
{
    reveal(chord_code);
    lemma2_to64();
    lemma2_to64_rest();
    lemma_high_powers();
    assert(0xcd_5e8d * 0x1 - 0xc5_5e8d * 0x1 == 0x8_0000);
    lemma_sum_known(0x3dcd_5e8d, 0x3dc5_5e8d, true, 0xcd_5e8d, 122, 0xc5_5e8d, 122, 0x1, 0x1, 0x8_0000, 20, 0x8_0000, 0x10);
    assert(sub_spec(0x3dcd_5e8d, 0x3dc5_5e8d) == 0x3b80_0000);
    assert(0xcc_97b4 * 0x1 - 0xc5_5e8d * 0x1 == 0x7_3927);
    lemma_sum_known(0x3dcc_97b4, 0x3dc5_5e8d, true, 0xcc_97b4, 122, 0xc5_5e8d, 122, 0x1, 0x1, 0x7_3927, 19, 0x4_0000, 0x20);
    assert(sub_spec(0x3dcc_97b4, 0x3dc5_5e8d) == 0x3b67_24e0);
    assert(0xb3_5847 * 0x1 - 0xaf_f5f2 * 0x1 == 0x3_6255);
    lemma_sum_known(0x42b3_5847, 0x42af_f5f2, true, 0xb3_5847, 132, 0xaf_f5f2, 132, 0x1, 0x1, 0x3_6255, 18, 0x2_0000, 0x40);
    assert(sub_spec(0x42b3_5847, 0x42af_f5f2) == 0x3fd8_9540);
    assert(0xd8_9540 * 0xe7_24e0 == 0xc38d_df3f_9800);
    lemma_product_known(0x3fd8_9540, 0x3b67_24e0, 0xd8_9540, 126, 0xe7_24e0, 117, 0xc38d_df3f_9800, 48, 0x8000_0000_0000, 0x100_0000);
    assert(mul_spec(0x3fd8_9540, 0x3b67_24e0) == 0x3bc3_8ddf);
    assert(0xc3_8ddf * 0x1_0000_0000_0000_0000 == 0x1_871b_be00_0000_0000 * 0x80_0000 + 0x0);
    lemma_quotient_known(0x3bc3_8ddf, 0x3b80_0000, 0xc3_8ddf, 118, 0x80_0000, 118, 0x1_871b_be00_0000_0000, 0x0, 66, 0x2_0000_0000_0000_0000, 0x400_0000_0000);
    assert(div_spec(0x3bc3_8ddf, 0x3b80_0000) == 0x3fc3_8ddf);
    assert(0xaf_f5f2 * 0x40 + 0xc3_8ddf * 0x1 == 0x2cc1_0a5f);
    lemma_sum_known(0x42af_f5f2, 0x3fc3_8ddf, false, 0xaf_f5f2, 132, 0xc3_8ddf, 126, 0x40, 0x1, 0x2cc1_0a5f, 30, 0x2000_0000, 0x40);
    assert(add_spec(0x42af_f5f2, 0x3fc3_8ddf) == 0x42b3_0429);
    lemma_whole_known(0x42b3_0429, 0xb3_0429, 132, 0x2_0000);
}

/// Code 90.
proof fn lemma_code_90()
    ensures
        chord_code(0x3dd1_641d, 0x3dcd_5e8d, 0x3dd5_5e8d, 0x42b3_5847, 0x42b6_a643) == 90,
{
    reveal(chord_code);
    lemma2_to64();
    lemma2_to64_rest();
    lemma_high_powers();
    assert(0xd5_5e8d * 0x1 - 0xcd_5e8d * 0x1 == 0x8_0000);
    lemma_sum_known(0x3dd5_5e8d, 0x3dcd_5e8d, true, 0xd5_5e8d, 122, 0xcd_5e8d, 122, 0x1, 0x1, 0x8_0000, 20, 0x8_0000, 0x10);
    assert(sub_spec(0x3dd5_5e8d, 0x3dcd_5e8d) == 0x3b80_0000);
    assert(0xd1_641d * 0x1 - 0xcd_5e8d * 0x1 == 0x4_0590);
    lemma_sum_known(0x3dd1_641d, 0x3dcd_5e8d, true, 0xd1_641d, 122, 0xcd_5e8d, 122, 0x1, 0x1, 0x4_0590, 19, 0x4_0000, 0x20);
    assert(sub_spec(0x3dd1_641d, 0x3dcd_5e8d) == 0x3b00_b200);
    assert(0xb6_a643 * 0x1 - 0xb3_5847 * 0x1 == 0x3_4dfc);
    lemma_sum_known(0x42b6_a643, 0x42b3_5847, true, 0xb6_a643, 132, 0xb3_5847, 132, 0x1, 0x1, 0x3_4dfc, 18, 0x2_0000, 0x40);
    assert(sub_spec(0x42b6_a643, 0x42b3_5847) == 0x3fd3_7f00);
    assert(0xd3_7f00 * 0x80_b200 == 0x6a52_8e4e_0000);
    lemma_product_known(0x3fd3_7f00, 0x3b00_b200, 0xd3_7f00, 126, 0x80_b200, 117, 0x6a52_8e4e_0000, 47, 0x4000_0000_0000, 0x80_0000);
    assert(mul_spec(0x3fd3_7f00, 0x3b00_b200) == 0x3b54_a51d);
    assert(0xd4_a51d * 0x1_0000_0000_0000_0000 == 0x1_a94a_3a00_0000_0000 * 0x80_0000 + 0x0);
    lemma_quotient_known(0x3b54_a51d, 0x3b80_0000, 0xd4_a51d, 117, 0x80_0000, 118, 0x1_a94a_3a00_0000_0000, 0x0, 66, 0x2_0000_0000_0000_0000, 0x400_0000_0000);
    assert(div_spec(0x3b54_a51d, 0x3b80_0000) == 0x3f54_a51d);
    assert(0xb3_5847 * 0x80 + 0xd4_a51d * 0x1 == 0x5a80_c89d);
    lemma_sum_known(0x42b3_5847, 0x3f54_a51d, false, 0xb3_5847, 132, 0xd4_a51d, 125, 0x80, 0x1, 0x5a80_c89d, 31, 0x4000_0000, 0x80);
    assert(add_spec(0x42b3_5847, 0x3f54_a51d) == 0x42b5_0191);
    lemma_whole_known(0x42b5_0191, 0xb5_0191, 132, 0x2_0000);
}

/// Code 91.
proof fn lemma_code_91()
    ensures
        chord_code(0x3dd6_412b, 0x3dd5_5e8d, 0x3ddd_5e8d, 0x42b6_a643, 0x42b9_e58c) == 91,
{
    reveal(chord_code);
    lemma2_to64();
    lemma2_to64_rest();
    lemma_high_powers();
    assert(0xdd_5e8d * 0x1 - 0xd5_5e8d * 0x1 == 0x8_0000);
    lemma_sum_known(0x3ddd_5e8d, 0x3dd5_5e8d, true, 0xdd_5e8d, 122, 0xd5_5e8d, 122, 0x1, 0x1, 0x8_0000, 20, 0x8_0000, 0x10);
    assert(sub_spec(0x3ddd_5e8d, 0x3dd5_5e8d) == 0x3b80_0000);
    assert(0xd6_412b * 0x1 - 0xd5_5e8d * 0x1 == 0xe29e);
    lemma_sum_known(0x3dd6_412b, 0x3dd5_5e8d, true, 0xd6_412b, 122, 0xd5_5e8d, 122, 0x1, 0x1, 0xe29e, 16, 0x8000, 0x100);
    assert(sub_spec(0x3dd6_412b, 0x3dd5_5e8d) == 0x39e2_9e00);
    assert(0xb9_e58c * 0x1 - 0xb6_a643 * 0x1 == 0x3_3f49);
    lemma_sum_known(0x42b9_e58c, 0x42b6_a643, true, 0xb9_e58c, 132, 0xb6_a643, 132, 0x1, 0x1, 0x3_3f49, 18, 0x2_0000, 0x40);
    assert(sub_spec(0x42b9_e58c, 0x42b6_a643) == 0x3fcf_d240);
    assert(0xcf_d240 * 0xe2_9e00 == 0xb7f7_e043_8000);
    lemma_product_known(0x3fcf_d240, 0x39e2_9e00, 0xcf_d240, 126, 0xe2_9e00, 114, 0xb7f7_e043_8000, 48, 0x8000_0000_0000, 0x100_0000);
    assert(mul_spec(0x3fcf_d240, 0x39e2_9e00) == 0x3a37_f7e0);
    assert(0xb7_f7e0 * 0x1_0000_0000_0000_0000 == 0x1_6fef_c000_0000_0000 * 0x80_0000 + 0x0);
    lemma_quotient_known(0x3a37_f7e0, 0x3b80_0000, 0xb7_f7e0, 115, 0x80_0000, 118, 0x1_6fef_c000_0000_0000, 0x0, 66, 0x2_0000_0000_0000_0000, 0x400_0000_0000);
    assert(div_spec(0x3a37_f7e0, 0x3b80_0000) == 0x3e37_f7e0);
    assert(0xb6_a643 * 0x200 + 0xb7_f7e0 * 0x1 == 0x1_6e04_7de0);
    lemma_sum_known(0x42b6_a643, 0x3e37_f7e0, false, 0xb6_a643, 132, 0xb7_f7e0, 123, 0x200, 0x1, 0x1_6e04_7de0, 33, 0x1_0000_0000, 0x200);
    assert(add_spec(0x42b6_a643, 0x3e37_f7e0) == 0x42b7_023f);
    lemma_whole_known(0x42b7_023f, 0xb7_023f, 132, 0x2_0000);
}

/// Code 92.
proof fn lemma_code_92()
    ensures
        chord_code(0x3ddb_2eee, 0x3dd5_5e8d, 0x3ddd_5e8d, 0x42b6_a643, 0x42b9_e58c) == 92,
{
    reveal(chord_code);
    lemma2_to64();
    lemma2_to64_rest();
    lemma_high_powers();
    assert(0xdd_5e8d * 0x1 - 0xd5_5e8d * 0x1 == 0x8_0000);
    lemma_sum_known(0x3ddd_5e8d, 0x3dd5_5e8d, true, 0xdd_5e8d, 122, 0xd5_5e8d, 122, 0x1, 0x1, 0x8_0000, 20, 0x8_0000, 0x10);
    assert(sub_spec(0x3ddd_5e8d, 0x3dd5_5e8d) == 0x3b80_0000);
    assert(0xdb_2eee * 0x1 - 0xd5_5e8d * 0x1 == 0x5_d061);
    lemma_sum_known(0x3ddb_2eee, 0x3dd5_5e8d, true, 0xdb_2eee, 122, 0xd5_5e8d, 122, 0x1, 0x1, 0x5_d061, 19, 0x4_0000, 0x20);
    assert(sub_spec(0x3ddb_2eee, 0x3dd5_5e8d) == 0x3b3a_0c20);
    assert(0xb9_e58c * 0x1 - 0xb6_a643 * 0x1 == 0x3_3f49);
    lemma_sum_known(0x42b9_e58c, 0x42b6_a643, true, 0xb9_e58c, 132, 0xb6_a643, 132, 0x1, 0x1, 0x3_3f49, 18, 0x2_0000, 0x40);
    assert(sub_spec(0x42b9_e58c, 0x42b6_a643) == 0x3fcf_d240);
    assert(0xcf_d240 * 0xba_0c20 == 0x9708_9a55_4800);
    lemma_product_known(0x3fcf_d240, 0x3b3a_0c20, 0xcf_d240, 126, 0xba_0c20, 117, 0x9708_9a55_4800, 48, 0x8000_0000_0000, 0x100_0000);
    assert(mul_spec(0x3fcf_d240, 0x3b3a_0c20) == 0x3b97_089a);
    assert(0x97_089a * 0x1_0000_0000_0000_0000 == 0x1_2e11_3400_0000_0000 * 0x80_0000 + 0x0);
    lemma_quotient_known(0x3b97_089a, 0x3b80_0000, 0x97_089a, 118, 0x80_0000, 118, 0x1_2e11_3400_0000_0000, 0x0, 66, 0x2_0000_0000_0000_0000, 0x400_0000_0000);
    assert(div_spec(0x3b97_089a, 0x3b80_0000) == 0x3f97_089a);
    assert(0xb6_a643 * 0x40 + 0x97_089a * 0x1 == 0x2e40_995a);
    lemma_sum_known(0x42b6_a643, 0x3f97_089a, false, 0xb6_a643, 132, 0x97_089a, 126, 0x40, 0x1, 0x2e40_995a, 30, 0x2000_0000, 0x40);
    assert(add_spec(0x42b6_a643, 0x3f97_089a) == 0x42b9_0265);
    lemma_whole_known(0x42b9_0265, 0xb9_0265, 132, 0x2_0000);
}

/// Code 93.
proof fn lemma_code_93()
    ensures
        chord_code(0x3de0_2d76, 0x3ddd_5e8d, 0x3de5_5e8d, 0x42b9_e58c, 0x42bd_100a) == 93,
{
    reveal(chord_code);
    lemma2_to64();
    lemma2_to64_rest();
    lemma_high_powers();
    assert(0xe5_5e8d * 0x1 - 0xdd_5e8d * 0x1 == 0x8_0000);
    lemma_sum_known(0x3de5_5e8d, 0x3ddd_5e8d, true, 0xe5_5e8d, 122, 0xdd_5e8d, 122, 0x1, 0x1, 0x8_0000, 20, 0x8_0000, 0x10);
    assert(sub_spec(0x3de5_5e8d, 0x3ddd_5e8d) == 0x3b80_0000);
    assert(0xe0_2d76 * 0x1 - 0xdd_5e8d * 0x1 == 0x2_cee9);
    lemma_sum_known(0x3de0_2d76, 0x3ddd_5e8d, true, 0xe0_2d76, 122, 0xdd_5e8d, 122, 0x1, 0x1, 0x2_cee9, 18, 0x2_0000, 0x40);
    assert(sub_spec(0x3de0_2d76, 0x3ddd_5e8d) == 0x3ab3_ba40);
    assert(0xbd_100a * 0x1 - 0xb9_e58c * 0x1 == 0x3_2a7e);
    lemma_sum_known(0x42bd_100a, 0x42b9_e58c, true, 0xbd_100a, 132, 0xb9_e58c, 132, 0x1, 0x1, 0x3_2a7e, 18, 0x2_0000, 0x40);
    assert(sub_spec(0x42bd_100a, 0x42b9_e58c) == 0x3fca_9f80);
    assert(0xca_9f80 * 0xb3_ba40 == 0x8e40_f10a_e000);
    lemma_product_known(0x3fca_9f80, 0x3ab3_ba40, 0xca_9f80, 126, 0xb3_ba40, 116, 0x8e40_f10a_e000, 48, 0x8000_0000_0000, 0x100_0000);
    assert(mul_spec(0x3fca_9f80, 0x3ab3_ba40) == 0x3b0e_40f1);
    assert(0x8e_40f1 * 0x1_0000_0000_0000_0000 == 0x1_1c81_e200_0000_0000 * 0x80_0000 + 0x0);
    lemma_quotient_known(0x3b0e_40f1, 0x3b80_0000, 0x8e_40f1, 117, 0x80_0000, 118, 0x1_1c81_e200_0000_0000, 0x0, 66, 0x2_0000_0000_0000_0000, 0x400_0000_0000);
    assert(div_spec(0x3b0e_40f1, 0x3b80_0000) == 0x3f0e_40f1);
    assert(0xb9_e58c * 0x80 + 0x8e_40f1 * 0x1 == 0x5d81_06f1);
    lemma_sum_known(0x42b9_e58c, 0x3f0e_40f1, false, 0xb9_e58c, 132, 0x8e_40f1, 125, 0x80, 0x1, 0x5d81_06f1, 31, 0x4000_0000, 0x80);
    assert(add_spec(0x42b9_e58c, 0x3f0e_40f1) == 0x42bb_020e);
    lemma_whole_known(0x42bb_020e, 0xbb_020e, 132, 0x2_0000);
}

/// Code 94.
proof fn lemma_code_94()
    ensures
        chord_code(0x3de5_3cd4, 0x3ddd_5e8d, 0x3de5_5e8d, 0x42b9_e58c, 0x42bd_100a) == 94,
{
    reveal(chord_code);
    lemma2_to64();
    lemma2_to64_rest();
    lemma_high_powers();
    assert(0xe5_5e8d * 0x1 - 0xdd_5e8d * 0x1 == 0x8_0000);
    lemma_sum_known(0x3de5_5e8d, 0x3ddd_5e8d, true, 0xe5_5e8d, 122, 0xdd_5e8d, 122, 0x1, 0x1, 0x8_0000, 20, 0x8_0000, 0x10);
    assert(sub_spec(0x3de5_5e8d, 0x3ddd_5e8d) == 0x3b80_0000);
    assert(0xe5_3cd4 * 0x1 - 0xdd_5e8d * 0x1 == 0x7_de47);
    lemma_sum_known(0x3de5_3cd4, 0x3ddd_5e8d, true, 0xe5_3cd4, 122, 0xdd_5e8d, 122, 0x1, 0x1, 0x7_de47, 19, 0x4_0000, 0x20);
    assert(sub_spec(0x3de5_3cd4, 0x3ddd_5e8d) == 0x3b7b_c8e0);
    assert(0xbd_100a * 0x1 - 0xb9_e58c * 0x1 == 0x3_2a7e);
    lemma_sum_known(0x42bd_100a, 0x42b9_e58c, true, 0xbd_100a, 132, 0xb9_e58c, 132, 0x1, 0x1, 0x3_2a7e, 18, 0x2_0000, 0x40);
    assert(sub_spec(0x42bd_100a, 0x42b9_e58c) == 0x3fca_9f80);
    assert(0xca_9f80 * 0xfb_c8e0 == 0xc749_6067_9000);
    lemma_product_known(0x3fca_9f80, 0x3b7b_c8e0, 0xca_9f80, 126, 0xfb_c8e0, 117, 0xc749_6067_9000, 48, 0x8000_0000_0000, 0x100_0000);
    assert(mul_spec(0x3fca_9f80, 0x3b7b_c8e0) == 0x3bc7_4960);
    assert(0xc7_4960 * 0x1_0000_0000_0000_0000 == 0x1_8e92_c000_0000_0000 * 0x80_0000 + 0x0);
    lemma_quotient_known(0x3bc7_4960, 0x3b80_0000, 0xc7_4960, 118, 0x80_0000, 118, 0x1_8e92_c000_0000_0000, 0x0, 66, 0x2_0000_0000_0000_0000, 0x400_0000_0000);
    assert(div_spec(0x3bc7_4960, 0x3b80_0000) == 0x3fc7_4960);
    assert(0xb9_e58c * 0x40 + 0xc7_4960 * 0x1 == 0x2f40_ac60);
    lemma_sum_known(0x42b9_e58c, 0x3fc7_4960, false, 0xb9_e58c, 132, 0xc7_4960, 126, 0x40, 0x1, 0x2f40_ac60, 30, 0x2000_0000, 0x40);
    assert(add_spec(0x42b9_e58c, 0x3fc7_4960) == 0x42bd_02b2);
    lemma_whole_known(0x42bd_02b2, 0xbd_02b2, 132, 0x2_0000);
}

/// Code 95.
proof fn lemma_code_95()
    ensures
        chord_code(0x3dea_5d18, 0x3de5_5e8d, 0x3ded_5e8d, 0x42bd_100a, 0x42c0_2d61) == 95,
{
    reveal(chord_code);
    lemma2_to64();
    lemma2_to64_rest();
    lemma_high_powers();
    assert(0xed_5e8d * 0x1 - 0xe5_5e8d * 0x1 == 0x8_0000);
    lemma_sum_known(0x3ded_5e8d, 0x3de5_5e8d, true, 0xed_5e8d, 122, 0xe5_5e8d, 122, 0x1, 0x1, 0x8_0000, 20, 0x8_0000, 0x10);
    assert(sub_spec(0x3ded_5e8d, 0x3de5_5e8d) == 0x3b80_0000);
    assert(0xea_5d18 * 0x1 - 0xe5_5e8d * 0x1 == 0x4_fe8b);
    lemma_sum_known(0x3dea_5d18, 0x3de5_5e8d, true, 0xea_5d18, 122, 0xe5_5e8d, 122, 0x1, 0x1, 0x4_fe8b, 19, 0x4_0000, 0x20);
    assert(sub_spec(0x3dea_5d18, 0x3de5_5e8d) == 0x3b1f_d160);
    assert(0xc0_2d61 * 0x1 - 0xbd_100a * 0x1 == 0x3_1d57);
    lemma_sum_known(0x42c0_2d61, 0x42bd_100a, true, 0xc0_2d61, 132, 0xbd_100a, 132, 0x1, 0x1, 0x3_1d57, 18, 0x2_0000, 0x40);
    assert(sub_spec(0x42c0_2d61, 0x42bd_100a) == 0x3fc7_55c0);
    assert(0xc7_55c0 * 0x9f_d160 == 0x7c71_4a01_e800);
    lemma_product_known(0x3fc7_55c0, 0x3b1f_d160, 0xc7_55c0, 126, 0x9f_d160, 117, 0x7c71_4a01_e800, 47, 0x4000_0000_0000, 0x80_0000);
    assert(mul_spec(0x3fc7_55c0, 0x3b1f_d160) == 0x3b78_e294);
    assert(0xf8_e294 * 0x1_0000_0000_0000_0000 == 0x1_f1c5_2800_0000_0000 * 0x80_0000 + 0x0);
    lemma_quotient_known(0x3b78_e294, 0x3b80_0000, 0xf8_e294, 117, 0x80_0000, 118, 0x1_f1c5_2800_0000_0000, 0x0, 66, 0x2_0000_0000_0000_0000, 0x400_0000_0000);
    assert(div_spec(0x3b78_e294, 0x3b80_0000) == 0x3f78_e294);
    assert(0xbd_100a * 0x80 + 0xf8_e294 * 0x1 == 0x5f80_e794);
    lemma_sum_known(0x42bd_100a, 0x3f78_e294, false, 0xbd_100a, 132, 0xf8_e294, 125, 0x80, 0x1, 0x5f80_e794, 31, 0x4000_0000, 0x80);
    assert(add_spec(0x42bd_100a, 0x3f78_e294) == 0x42bf_01cf);
    lemma_whole_known(0x42bf_01cf, 0xbf_01cf, 132, 0x2_0000);
}

/// Code 96.
proof fn lemma_code_96()
    ensures
        chord_code(0x3def_8e51, 0x3ded_5e8d, 0x3df5_5e8d, 0x42c0_2d61, 0x42c3_2ec7) == 96,
{
    reveal(chord_code);
    lemma2_to64();
    lemma2_to64_rest();
    lemma_high_powers();
    assert(0xf5_5e8d * 0x1 - 0xed_5e8d * 0x1 == 0x8_0000);
    lemma_sum_known(0x3df5_5e8d, 0x3ded_5e8d, true, 0xf5_5e8d, 122, 0xed_5e8d, 122, 0x1, 0x1, 0x8_0000, 20, 0x8_0000, 0x10);
    assert(sub_spec(0x3df5_5e8d, 0x3ded_5e8d) == 0x3b80_0000);
    assert(0xef_8e51 * 0x1 - 0xed_5e8d * 0x1 == 0x2_2fc4);
    lemma_sum_known(0x3def_8e51, 0x3ded_5e8d, true, 0xef_8e51, 122, 0xed_5e8d, 122, 0x1, 0x1, 0x2_2fc4, 18, 0x2_0000, 0x40);
    assert(sub_spec(0x3def_8e51, 0x3ded_5e8d) == 0x3a8b_f100);
    assert(0xc3_2ec7 * 0x1 - 0xc0_2d61 * 0x1 == 0x3_0166);
    lemma_sum_known(0x42c3_2ec7, 0x42c0_2d61, true, 0xc3_2ec7, 132, 0xc0_2d61, 132, 0x1, 0x1, 0x3_0166, 18, 0x2_0000, 0x40);
    assert(sub_spec(0x42c3_2ec7, 0x42c0_2d61) == 0x3fc0_5980);
    assert(0xc0_5980 * 0x8b_f100 == 0x6925_acc1_8000);
    lemma_product_known(0x3fc0_5980, 0x3a8b_f100, 0xc0_5980, 126, 0x8b_f100, 116, 0x6925_acc1_8000, 47, 0x4000_0000_0000, 0x80_0000);
    assert(mul_spec(0x3fc0_5980, 0x3a8b_f100) == 0x3ad2_4b5a);
    assert(0xd2_4b5a * 0x1_0000_0000_0000_0000 == 0x1_a496_b400_0000_0000 * 0x80_0000 + 0x0);
    lemma_quotient_known(0x3ad2_4b5a, 0x3b80_0000, 0xd2_4b5a, 116, 0x80_0000, 118, 0x1_a496_b400_0000_0000, 0x0, 66, 0x2_0000_0000_0000_0000, 0x400_0000_0000);
    assert(div_spec(0x3ad2_4b5a, 0x3b80_0000) == 0x3ed2_4b5a);
    assert(0xc0_2d61 * 0x100 + 0xd2_4b5a * 0x1 == 0xc0ff_ac5a);
    lemma_sum_known(0x42c0_2d61, 0x3ed2_4b5a, false, 0xc0_2d61, 132, 0xd2_4b5a, 124, 0x100, 0x1, 0xc0ff_ac5a, 32, 0x8000_0000, 0x100);
    assert(add_spec(0x42c0_2d61, 0x3ed2_4b5a) == 0x42c0_ffac);
    lemma_whole_known(0x42c0_ffac, 0xc0_ffac, 132, 0x2_0000);
}

/// Code 97.
proof fn lemma_code_97()
    ensures
        chord_code(0x3df4_d090, 0x3ded_5e8d, 0x3df5_5e8d, 0x42c0_2d61, 0x42c3_2ec7) == 97,
{
    reveal(chord_code);
    lemma2_to64();
    lemma2_to64_rest();
    lemma_high_powers();
    assert(0xf5_5e8d * 0x1 - 0xed_5e8d * 0x1 == 0x8_0000);
    lemma_sum_known(0x3df5_5e8d, 0x3ded_5e8d, true, 0xf5_5e8d, 122, 0xed_5e8d, 122, 0x1, 0x1, 0x8_0000, 20, 0x8_0000, 0x10);
    assert(sub_spec(0x3df5_5e8d, 0x3ded_5e8d) == 0x3b80_0000);
    assert(0xf4_d090 * 0x1 - 0xed_5e8d * 0x1 == 0x7_7203);
    lemma_sum_known(0x3df4_d090, 0x3ded_5e8d, true, 0xf4_d090, 122, 0xed_5e8d, 122, 0x1, 0x1, 0x7_7203, 19, 0x4_0000, 0x20);
    assert(sub_spec(0x3df4_d090, 0x3ded_5e8d) == 0x3b6e_4060);
    assert(0xc3_2ec7 * 0x1 - 0xc0_2d61 * 0x1 == 0x3_0166);
    lemma_sum_known(0x42c3_2ec7, 0x42c0_2d61, true, 0xc3_2ec7, 132, 0xc0_2d61, 132, 0x1, 0x1, 0x3_0166, 18, 0x2_0000, 0x40);
    assert(sub_spec(0x42c3_2ec7, 0x42c0_2d61) == 0x3fc0_5980);
    assert(0xc0_5980 * 0xee_4060 == 0xb303_9381_9000);
    lemma_product_known(0x3fc0_5980, 0x3b6e_4060, 0xc0_5980, 126, 0xee_4060, 117, 0xb303_9381_9000, 48, 0x8000_0000_0000, 0x100_0000);
    assert(mul_spec(0x3fc0_5980, 0x3b6e_4060) == 0x3bb3_0394);
    assert(0xb3_0394 * 0x1_0000_0000_0000_0000 == 0x1_6607_2800_0000_0000 * 0x80_0000 + 0x0);
    lemma_quotient_known(0x3bb3_0394, 0x3b80_0000, 0xb3_0394, 118, 0x80_0000, 118, 0x1_6607_2800_0000_0000, 0x0, 66, 0x2_0000_0000_0000_0000, 0x400_0000_0000);
    assert(div_spec(0x3bb3_0394, 0x3b80_0000) == 0x3fb3_0394);
    assert(0xc0_2d61 * 0x40 + 0xb3_0394 * 0x1 == 0x30be_5bd4);
    lemma_sum_known(0x42c0_2d61, 0x3fb3_0394, false, 0xc0_2d61, 132, 0xb3_0394, 126, 0x40, 0x1, 0x30be_5bd4, 30, 0x2000_0000, 0x40);
    assert(add_spec(0x42c0_2d61, 0x3fb3_0394) == 0x42c2_f96f);
    lemma_whole_known(0x42c2_f96f, 0xc2_f96f, 132, 0x2_0000);
}

/// Code 98.
proof fn lemma_code_98()
    ensures
        chord_code(0x3dfa_23e5, 0x3df5_5e8d, 0x3dfd_5e8d, 0x42c3_2ec7, 0x42c6_3770) == 98,
{
    reveal(chord_code);
    lemma2_to64();
    lemma2_to64_rest();
    lemma_high_powers();
    assert(0xfd_5e8d * 0x1 - 0xf5_5e8d * 0x1 == 0x8_0000);
    lemma_sum_known(0x3dfd_5e8d, 0x3df5_5e8d, true, 0xfd_5e8d, 122, 0xf5_5e8d, 122, 0x1, 0x1, 0x8_0000, 20, 0x8_0000, 0x10);
    assert(sub_spec(0x3dfd_5e8d, 0x3df5_5e8d) == 0x3b80_0000);
    assert(0xfa_23e5 * 0x1 - 0xf5_5e8d * 0x1 == 0x4_c558);
    lemma_sum_known(0x3dfa_23e5, 0x3df5_5e8d, true, 0xfa_23e5, 122, 0xf5_5e8d, 122, 0x1, 0x1, 0x4_c558, 19, 0x4_0000, 0x20);
    assert(sub_spec(0x3dfa_23e5, 0x3df5_5e8d) == 0x3b18_ab00);
    assert(0xc6_3770 * 0x1 - 0xc3_2ec7 * 0x1 == 0x3_08a9);
    lemma_sum_known(0x42c6_3770, 0x42c3_2ec7, true, 0xc6_3770, 132, 0xc3_2ec7, 132, 0x1, 0x1, 0x3_08a9, 18, 0x2_0000, 0x40);
    assert(sub_spec(0x42c6_3770, 0x42c3_2ec7) == 0x3fc2_2a40);
    assert(0xc2_2a40 * 0x98_ab00 == 0x73ca_c838_c000);
    lemma_product_known(0x3fc2_2a40, 0x3b18_ab00, 0xc2_2a40, 126, 0x98_ab00, 117, 0x73ca_c838_c000, 47, 0x4000_0000_0000, 0x80_0000);
    assert(mul_spec(0x3fc2_2a40, 0x3b18_ab00) == 0x3b67_9590);
    assert(0xe7_9590 * 0x1_0000_0000_0000_0000 == 0x1_cf2b_2000_0000_0000 * 0x80_0000 + 0x0);
    lemma_quotient_known(0x3b67_9590, 0x3b80_0000, 0xe7_9590, 117, 0x80_0000, 118, 0x1_cf2b_2000_0000_0000, 0x0, 66, 0x2_0000_0000_0000_0000, 0x400_0000_0000);
    assert(div_spec(0x3b67_9590, 0x3b80_0000) == 0x3f67_9590);
    assert(0xc3_2ec7 * 0x80 + 0xe7_9590 * 0x1 == 0x627e_f910);
    lemma_sum_known(0x42c3_2ec7, 0x3f67_9590, false, 0xc3_2ec7, 132, 0xe7_9590, 125, 0x80, 0x1, 0x627e_f910, 31, 0x4000_0000, 0x80);
    assert(add_spec(0x42c3_2ec7, 0x3f67_9590) == 0x42c4_fdf2);
    lemma_whole_known(0x42c4_fdf2, 0xc4_fdf2, 132, 0x2_0000);
}

/// Code 99.
proof fn lemma_code_99()
    ensures
        chord_code(0x3dff_885e, 0x3dfd_5e8d, 0x3e05_5e8d, 0x42c6_3770, 0x42cb_1a3a) == 99,
{
    reveal(chord_code);
    lemma2_to64();
    lemma2_to64_rest();
    lemma_high_powers();
    assert(0x85_5e8d * 0x2 - 0xfd_5e8d * 0x1 == 0xd_5e8d);
    lemma_sum_known(0x3e05_5e8d, 0x3dfd_5e8d, true, 0x85_5e8d, 123, 0xfd_5e8d, 122, 0x2, 0x1, 0xd_5e8d, 20, 0x8_0000, 0x10);
    assert(sub_spec(0x3e05_5e8d, 0x3dfd_5e8d) == 0x3bd5_e8d0);
    assert(0xff_885e * 0x1 - 0xfd_5e8d * 0x1 == 0x2_29d1);
    lemma_sum_known(0x3dff_885e, 0x3dfd_5e8d, true, 0xff_885e, 122, 0xfd_5e8d, 122, 0x1, 0x1, 0x2_29d1, 18, 0x2_0000, 0x40);
    assert(sub_spec(0x3dff_885e, 0x3dfd_5e8d) == 0x3a8a_7440);
    assert(0xcb_1a3a * 0x1 - 0xc6_3770 * 0x1 == 0x4_e2ca);
    lemma_sum_known(0x42cb_1a3a, 0x42c6_3770, true, 0xcb_1a3a, 132, 0xc6_3770, 132, 0x1, 0x1, 0x4_e2ca, 19, 0x4_0000, 0x20);
    assert(sub_spec(0x42cb_1a3a, 0x42c6_3770) == 0x401c_5940);
    assert(0x9c_5940 * 0x8a_7440 == 0x548f_1c07_5000);
    lemma_product_known(0x401c_5940, 0x3a8a_7440, 0x9c_5940, 127, 0x8a_7440, 116, 0x548f_1c07_5000, 47, 0x4000_0000_0000, 0x80_0000);
    assert(mul_spec(0x401c_5940, 0x3a8a_7440) == 0x3b29_1e38);
    assert(0xa9_1e38 * 0x1_0000_0000_0000_0000 == 0xca65_2520_a88c_4805 * 0xd5_e8d0 + 0x97_f3f0);
    lemma_quotient_known(0x3b29_1e38, 0x3bd5_e8d0, 0xa9_1e38, 117, 0xd5_e8d0, 118, 0xca65_2520_a88c_4805, 0x97_f3f0, 65, 0x1_0000_0000_0000_0000, 0x200_0000_0000);
    assert(div_spec(0x3b29_1e38, 0x3bd5_e8d0) == 0x3eca_6525);
    assert(0xc6_3770 * 0x100 + 0xca_6525 * 0x1 == 0xc701_d525);
    lemma_sum_known(0x42c6_3770, 0x3eca_6525, false, 0xc6_3770, 132, 0xca_6525, 124, 0x100, 0x1, 0xc701_d525, 32, 0x8000_0000, 0x100);
    assert(add_spec(0x42c6_3770, 0x3eca_6525) == 0x42c7_01d5);
    lemma_whole_known(0x42c7_01d5, 0xc7_01d5, 132, 0x2_0000);
}

/// Code 100.
proof fn lemma_code_100()
    ensures
        chord_code(0x3e02_7f06, 0x3dfd_5e8d, 0x3e05_5e8d, 0x42c6_3770, 0x42cb_1a3a) == 100,
{
    reveal(chord_code);
    lemma2_to64();
    lemma2_to64_rest();
    lemma_high_powers();
    assert(0x85_5e8d * 0x2 - 0xfd_5e8d * 0x1 == 0xd_5e8d);
    lemma_sum_known(0x3e05_5e8d, 0x3dfd_5e8d, true, 0x85_5e8d, 123, 0xfd_5e8d, 122, 0x2, 0x1, 0xd_5e8d, 20, 0x8_0000, 0x10);
    assert(sub_spec(0x3e05_5e8d, 0x3dfd_5e8d) == 0x3bd5_e8d0);
    assert(0x82_7f06 * 0x2 - 0xfd_5e8d * 0x1 == 0x7_9f7f);
    lemma_sum_known(0x3e02_7f06, 0x3dfd_5e8d, true, 0x82_7f06, 123, 0xfd_5e8d, 122, 0x2, 0x1, 0x7_9f7f, 19, 0x4_0000, 0x20);
    assert(sub_spec(0x3e02_7f06, 0x3dfd_5e8d) == 0x3b73_efe0);
    assert(0xcb_1a3a * 0x1 - 0xc6_3770 * 0x1 == 0x4_e2ca);
    lemma_sum_known(0x42cb_1a3a, 0x42c6_3770, true, 0xcb_1a3a, 132, 0xc6_3770, 132, 0x1, 0x1, 0x4_e2ca, 19, 0x4_0000, 0x20);
    assert(sub_spec(0x42cb_1a3a, 0x42c6_3770) == 0x401c_5940);
    assert(0x9c_5940 * 0xf3_efe0 == 0x94fb_37e0_d800);
    lemma_product_known(0x401c_5940, 0x3b73_efe0, 0x9c_5940, 127, 0xf3_efe0, 117, 0x94fb_37e0_d800, 48, 0x8000_0000_0000, 0x100_0000);
    assert(mul_spec(0x401c_5940, 0x3b73_efe0) == 0x3c14_fb38);
    assert(0x94_fb38 * 0x1_0000_0000_0000_0000 == 0xb24b_ce0b_a24e_abaa * 0xd5_e8d0 + 0x10_75e0);
    lemma_quotient_known(0x3c14_fb38, 0x3bd5_e8d0, 0x94_fb38, 119, 0xd5_e8d0, 118, 0xb24b_ce0b_a24e_abaa, 0x10_75e0, 65, 0x1_0000_0000_0000_0000, 0x200_0000_0000);
    assert(div_spec(0x3c14_fb38, 0x3bd5_e8d0) == 0x3fb2_4bce);
    assert(0xc6_3770 * 0x40 + 0xb2_4bce * 0x1 == 0x3240_27ce);
    lemma_sum_known(0x42c6_3770, 0x3fb2_4bce, false, 0xc6_3770, 132, 0xb2_4bce, 126, 0x40, 0x1, 0x3240_27ce, 30, 0x2000_0000, 0x40);
    assert(add_spec(0x42c6_3770, 0x3fb2_4bce) == 0x42c9_009f);
    lemma_whole_known(0x42c9_009f, 0xc9_009f, 132, 0x2_0000);
}

/// Code 101.
proof fn lemma_code_101()
    ensures
        chord_code(0x3e05_427f, 0x3dfd_5e8d, 0x3e05_5e8d, 0x42c6_3770, 0x42cb_1a3a) == 101,
{
    reveal(chord_code);
    lemma2_to64();
    lemma2_to64_rest();
    lemma_high_powers();
    assert(0x85_5e8d * 0x2 - 0xfd_5e8d * 0x1 == 0xd_5e8d);
    lemma_sum_known(0x3e05_5e8d, 0x3dfd_5e8d, true, 0x85_5e8d, 123, 0xfd_5e8d, 122, 0x2, 0x1, 0xd_5e8d, 20, 0x8_0000, 0x10);
    assert(sub_spec(0x3e05_5e8d, 0x3dfd_5e8d) == 0x3bd5_e8d0);
    assert(0x85_427f * 0x2 - 0xfd_5e8d * 0x1 == 0xd_2671);
    lemma_sum_known(0x3e05_427f, 0x3dfd_5e8d, true, 0x85_427f, 123, 0xfd_5e8d, 122, 0x2, 0x1, 0xd_2671, 20, 0x8_0000, 0x10);
    assert(sub_spec(0x3e05_427f, 0x3dfd_5e8d) == 0x3bd2_6710);
    assert(0xcb_1a3a * 0x1 - 0xc6_3770 * 0x1 == 0x4_e2ca);
    lemma_sum_known(0x42cb_1a3a, 0x42c6_3770, true, 0xcb_1a3a, 132, 0xc6_3770, 132, 0x1, 0x1, 0x4_e2ca, 19, 0x4_0000, 0x20);
    assert(sub_spec(0x42cb_1a3a, 0x42c6_3770) == 0x401c_5940);
    assert(0x9c_5940 * 0xd2_6710 == 0x8080_282e_5400);
    lemma_product_known(0x401c_5940, 0x3bd2_6710, 0x9c_5940, 127, 0xd2_6710, 118, 0x8080_282e_5400, 48, 0x8000_0000_0000, 0x100_0000);
    assert(mul_spec(0x401c_5940, 0x3bd2_6710) == 0x3c80_8028);
    assert(0x80_8028 * 0x1_0000_0000_0000_0000 == 0x99c9_1305_46a0_b30e * 0xd5_e8d0 + 0x83_d4a0);
    lemma_quotient_known(0x3c80_8028, 0x3bd5_e8d0, 0x80_8028, 120, 0xd5_e8d0, 118, 0x99c9_1305_46a0_b30e, 0x83_d4a0, 65, 0x1_0000_0000_0000_0000, 0x200_0000_0000);
    assert(div_spec(0x3c80_8028, 0x3bd5_e8d0) == 0x4019_c913);
    assert(0xc6_3770 * 0x20 + 0x99_c913 * 0x1 == 0x1960_b713);
    lemma_sum_known(0x42c6_3770, 0x4019_c913, false, 0xc6_3770, 132, 0x99_c913, 127, 0x20, 0x1, 0x1960_b713, 29, 0x1000_0000, 0x20);
    assert(add_spec(0x42c6_3770, 0x4019_c913) == 0x42cb_05b9);
    lemma_whole_known(0x42cb_05b9, 0xcb_05b9, 132, 0x2_0000);
}

/// Code 102.
proof fn lemma_code_102()
    ensures
        chord_code(0x3e08_0ea2, 0x3e05_5e8d, 0x3e0d_5e8d, 0x42cb_1a3a, 0x42d0_c02d) == 102,
{
    reveal(chord_code);
    lemma2_to64();
    lemma2_to64_rest();
    lemma_high_powers();
    assert(0x8d_5e8d * 0x1 - 0x85_5e8d * 0x1 == 0x8_0000);
    lemma_sum_known(0x3e0d_5e8d, 0x3e05_5e8d, true, 0x8d_5e8d, 123, 0x85_5e8d, 123, 0x1, 0x1, 0x8_0000, 20, 0x8_0000, 0x10);
    assert(sub_spec(0x3e0d_5e8d, 0x3e05_5e8d) == 0x3c00_0000);
    assert(0x88_0ea2 * 0x1 - 0x85_5e8d * 0x1 == 0x2_b015);
    lemma_sum_known(0x3e08_0ea2, 0x3e05_5e8d, true, 0x88_0ea2, 123, 0x85_5e8d, 123, 0x1, 0x1, 0x2_b015, 18, 0x2_0000, 0x40);
    assert(sub_spec(0x3e08_0ea2, 0x3e05_5e8d) == 0x3b2c_0540);
    assert(0xd0_c02d * 0x1 - 0xcb_1a3a * 0x1 == 0x5_a5f3);
    lemma_sum_known(0x42d0_c02d, 0x42cb_1a3a, true, 0xd0_c02d, 132, 0xcb_1a3a, 132, 0x1, 0x1, 0x5_a5f3, 19, 0x4_0000, 0x20);
    assert(sub_spec(0x42d0_c02d, 0x42cb_1a3a) == 0x4034_be60);
    assert(0xb4_be60 * 0xac_0540 == 0x7973_9d67_7800);
    lemma_product_known(0x4034_be60, 0x3b2c_0540, 0xb4_be60, 127, 0xac_0540, 117, 0x7973_9d67_7800, 47, 0x4000_0000_0000, 0x80_0000);
    assert(mul_spec(0x4034_be60, 0x3b2c_0540) == 0x3bf2_e73b);
    assert(0xf2_e73b * 0x1_0000_0000_0000_0000 == 0x1_e5ce_7600_0000_0000 * 0x80_0000 + 0x0);
    lemma_quotient_known(0x3bf2_e73b, 0x3c00_0000, 0xf2_e73b, 118, 0x80_0000, 119, 0x1_e5ce_7600_0000_0000, 0x0, 66, 0x2_0000_0000_0000_0000, 0x400_0000_0000);
    assert(div_spec(0x3bf2_e73b, 0x3c00_0000) == 0x3f72_e73b);
    assert(0xcb_1a3a * 0x80 + 0xf2_e73b * 0x1 == 0x6680_043b);
    lemma_sum_known(0x42cb_1a3a, 0x3f72_e73b, false, 0xcb_1a3a, 132, 0xf2_e73b, 125, 0x80, 0x1, 0x6680_043b, 31, 0x4000_0000, 0x80);
    assert(add_spec(0x42cb_1a3a, 0x3f72_e73b) == 0x42cd_0008);
    lemma_whole_known(0x42cd_0008, 0xcd_0008, 132, 0x2_0000);
}

/// Code 103.
proof fn lemma_code_103()
    ensures
        chord_code(0x3e0a_e377, 0x3e05_5e8d, 0x3e0d_5e8d, 0x42cb_1a3a, 0x42d0_c02d) == 103,
{
    reveal(chord_code);
    lemma2_to64();
    lemma2_to64_rest();
    lemma_high_powers();
    assert(0x8d_5e8d * 0x1 - 0x85_5e8d * 0x1 == 0x8_0000);
    lemma_sum_known(0x3e0d_5e8d, 0x3e05_5e8d, true, 0x8d_5e8d, 123, 0x85_5e8d, 123, 0x1, 0x1, 0x8_0000, 20, 0x8_0000, 0x10);
    assert(sub_spec(0x3e0d_5e8d, 0x3e05_5e8d) == 0x3c00_0000);
    assert(0x8a_e377 * 0x1 - 0x85_5e8d * 0x1 == 0x5_84ea);
    lemma_sum_known(0x3e0a_e377, 0x3e05_5e8d, true, 0x8a_e377, 123, 0x85_5e8d, 123, 0x1, 0x1, 0x5_84ea, 19, 0x4_0000, 0x20);
    assert(sub_spec(0x3e0a_e377, 0x3e05_5e8d) == 0x3bb0_9d40);
    assert(0xd0_c02d * 0x1 - 0xcb_1a3a * 0x1 == 0x5_a5f3);
    lemma_sum_known(0x42d0_c02d, 0x42cb_1a3a, true, 0xd0_c02d, 132, 0xcb_1a3a, 132, 0x1, 0x1, 0x5_a5f3, 19, 0x4_0000, 0x20);
    assert(sub_spec(0x42d0_c02d, 0x42cb_1a3a) == 0x4034_be60);
    assert(0xb4_be60 * 0xb0_9d40 == 0x7cb1_e7f0_7800);
    lemma_product_known(0x4034_be60, 0x3bb0_9d40, 0xb4_be60, 127, 0xb0_9d40, 118, 0x7cb1_e7f0_7800, 47, 0x4000_0000_0000, 0x80_0000);
    assert(mul_spec(0x4034_be60, 0x3bb0_9d40) == 0x3c79_63d0);
    assert(0xf9_63d0 * 0x1_0000_0000_0000_0000 == 0x1_f2c7_a000_0000_0000 * 0x80_0000 + 0x0);
    lemma_quotient_known(0x3c79_63d0, 0x3c00_0000, 0xf9_63d0, 119, 0x80_0000, 119, 0x1_f2c7_a000_0000_0000, 0x0, 66, 0x2_0000_0000_0000_0000, 0x400_0000_0000);
    assert(div_spec(0x3c79_63d0, 0x3c00_0000) == 0x3ff9_63d0);
    assert(0xcb_1a3a * 0x40 + 0xf9_63d0 * 0x1 == 0x33bf_f250);
    lemma_sum_known(0x42cb_1a3a, 0x3ff9_63d0, false, 0xcb_1a3a, 132, 0xf9_63d0, 126, 0x40, 0x1, 0x33bf_f250, 30, 0x2000_0000, 0x40);
    assert(add_spec(0x42cb_1a3a, 0x3ff9_63d0) == 0x42ce_ffc9);
    lemma_whole_known(0x42ce_ffc9, 0xce_ffc9, 132, 0x2_0000);
}

/// Code 104.
proof fn lemma_code_104()
    ensures
        chord_code(0x3e0d_c104, 0x3e0d_5e8d, 0x3e15_5e8d, 0x42d0_c02d, 0x42d6_3819) == 104,
{
    reveal(chord_code);
    lemma2_to64();
    lemma2_to64_rest();
    lemma_high_powers();
    assert(0x95_5e8d * 0x1 - 0x8d_5e8d * 0x1 == 0x8_0000);
    lemma_sum_known(0x3e15_5e8d, 0x3e0d_5e8d, true, 0x95_5e8d, 123, 0x8d_5e8d, 123, 0x1, 0x1, 0x8_0000, 20, 0x8_0000, 0x10);
    assert(sub_spec(0x3e15_5e8d, 0x3e0d_5e8d) == 0x3c00_0000);
    assert(0x8d_c104 * 0x1 - 0x8d_5e8d * 0x1 == 0x6277);
    lemma_sum_known(0x3e0d_c104, 0x3e0d_5e8d, true, 0x8d_c104, 123, 0x8d_5e8d, 123, 0x1, 0x1, 0x6277, 15, 0x4000, 0x200);
    assert(sub_spec(0x3e0d_c104, 0x3e0d_5e8d) == 0x39c4_ee00);
    assert(0xd6_3819 * 0x1 - 0xd0_c02d * 0x1 == 0x5_77ec);
    lemma_sum_known(0x42d6_3819, 0x42d0_c02d, true, 0xd6_3819, 132, 0xd0_c02d, 132, 0x1, 0x1, 0x5_77ec, 19, 0x4_0000, 0x20);
    assert(sub_spec(0x42d6_3819, 0x42d0_c02d) == 0x402e_fd80);
    assert(0xae_fd80 * 0xc4_ee00 == 0x869c_c5ad_0000);
    lemma_product_known(0x402e_fd80, 0x39c4_ee00, 0xae_fd80, 127, 0xc4_ee00, 114, 0x869c_c5ad_0000, 48, 0x8000_0000_0000, 0x100_0000);
    assert(mul_spec(0x402e_fd80, 0x39c4_ee00) == 0x3a86_9cc6);
    assert(0x86_9cc6 * 0x1_0000_0000_0000_0000 == 0x1_0d39_8c00_0000_0000 * 0x80_0000 + 0x0);
    lemma_quotient_known(0x3a86_9cc6, 0x3c00_0000, 0x86_9cc6, 116, 0x80_0000, 119, 0x1_0d39_8c00_0000_0000, 0x0, 66, 0x2_0000_0000_0000_0000, 0x400_0000_0000);
    assert(div_spec(0x3a86_9cc6, 0x3c00_0000) == 0x3e06_9cc6);
    assert(0xd0_c02d * 0x200 + 0x86_9cc6 * 0x1 == 0x1_a206_f6c6);
    lemma_sum_known(0x42d0_c02d, 0x3e06_9cc6, false, 0xd0_c02d, 132, 0x86_9cc6, 123, 0x200, 0x1, 0x1_a206_f6c6, 33, 0x1_0000_0000, 0x200);
    assert(add_spec(0x42d0_c02d, 0x3e06_9cc6) == 0x42d1_037b);
    lemma_whole_known(0x42d1_037b, 0xd1_037b, 132, 0x2_0000);
}

/// Code 105.
proof fn lemma_code_105()
    ensures
        chord_code(0x3e10_a753, 0x3e0d_5e8d, 0x3e15_5e8d, 0x42d0_c02d, 0x42d6_3819) == 105,
{
    reveal(chord_code);
    lemma2_to64();
    lemma2_to64_rest();
    lemma_high_powers();
    assert(0x95_5e8d * 0x1 - 0x8d_5e8d * 0x1 == 0x8_0000);
    lemma_sum_known(0x3e15_5e8d, 0x3e0d_5e8d, true, 0x95_5e8d, 123, 0x8d_5e8d, 123, 0x1, 0x1, 0x8_0000, 20, 0x8_0000, 0x10);
    assert(sub_spec(0x3e15_5e8d, 0x3e0d_5e8d) == 0x3c00_0000);
    assert(0x90_a753 * 0x1 - 0x8d_5e8d * 0x1 == 0x3_48c6);
    lemma_sum_known(0x3e10_a753, 0x3e0d_5e8d, true, 0x90_a753, 123, 0x8d_5e8d, 123, 0x1, 0x1, 0x3_48c6, 18, 0x2_0000, 0x40);
    assert(sub_spec(0x3e10_a753, 0x3e0d_5e8d) == 0x3b52_3180);
    assert(0xd6_3819 * 0x1 - 0xd0_c02d * 0x1 == 0x5_77ec);
    lemma_sum_known(0x42d6_3819, 0x42d0_c02d, true, 0xd6_3819, 132, 0xd0_c02d, 132, 0x1, 0x1, 0x5_77ec, 19, 0x4_0000, 0x20);
    assert(sub_spec(0x42d6_3819, 0x42d0_c02d) == 0x402e_fd80);
    assert(0xae_fd80 * 0xd2_3180 == 0x8fad_c904_4000);
    lemma_product_known(0x402e_fd80, 0x3b52_3180, 0xae_fd80, 127, 0xd2_3180, 117, 0x8fad_c904_4000, 48, 0x8000_0000_0000, 0x100_0000);
    assert(mul_spec(0x402e_fd80, 0x3b52_3180) == 0x3c0f_adc9);
    assert(0x8f_adc9 * 0x1_0000_0000_0000_0000 == 0x1_1f5b_9200_0000_0000 * 0x80_0000 + 0x0);
    lemma_quotient_known(0x3c0f_adc9, 0x3c00_0000, 0x8f_adc9, 119, 0x80_0000, 119, 0x1_1f5b_9200_0000_0000, 0x0, 66, 0x2_0000_0000_0000_0000, 0x400_0000_0000);
    assert(div_spec(0x3c0f_adc9, 0x3c00_0000) == 0x3f8f_adc9);
    assert(0xd0_c02d * 0x40 + 0x8f_adc9 * 0x1 == 0x34bf_b909);
    lemma_sum_known(0x42d0_c02d, 0x3f8f_adc9, false, 0xd0_c02d, 132, 0x8f_adc9, 126, 0x40, 0x1, 0x34bf_b909, 30, 0x2000_0000, 0x40);
    assert(add_spec(0x42d0_c02d, 0x3f8f_adc9) == 0x42d2_fee4);
    lemma_whole_known(0x42d2_fee4, 0xd2_fee4, 132, 0x2_0000);
}

/// Code 106.
proof fn lemma_code_106()
    ensures
        chord_code(0x3e13_966a, 0x3e0d_5e8d, 0x3e15_5e8d, 0x42d0_c02d, 0x42d6_3819) == 106,
{
    reveal(chord_code);
    lemma2_to64();
    lemma2_to64_rest();
    lemma_high_powers();
    assert(0x95_5e8d * 0x1 - 0x8d_5e8d * 0x1 == 0x8_0000);
    lemma_sum_known(0x3e15_5e8d, 0x3e0d_5e8d, true, 0x95_5e8d, 123, 0x8d_5e8d, 123, 0x1, 0x1, 0x8_0000, 20, 0x8_0000, 0x10);
    assert(sub_spec(0x3e15_5e8d, 0x3e0d_5e8d) == 0x3c00_0000);
    assert(0x93_966a * 0x1 - 0x8d_5e8d * 0x1 == 0x6_37dd);
    lemma_sum_known(0x3e13_966a, 0x3e0d_5e8d, true, 0x93_966a, 123, 0x8d_5e8d, 123, 0x1, 0x1, 0x6_37dd, 19, 0x4_0000, 0x20);
    assert(sub_spec(0x3e13_966a, 0x3e0d_5e8d) == 0x3bc6_fba0);
    assert(0xd6_3819 * 0x1 - 0xd0_c02d * 0x1 == 0x5_77ec);
    lemma_sum_known(0x42d6_3819, 0x42d0_c02d, true, 0xd6_3819, 132, 0xd0_c02d, 132, 0x1, 0x1, 0x5_77ec, 19, 0x4_0000, 0x20);
    assert(sub_spec(0x42d6_3819, 0x42d0_c02d) == 0x402e_fd80);
    assert(0xae_fd80 * 0xc6_fba0 == 0x8804_10ea_f000);
    lemma_product_known(0x402e_fd80, 0x3bc6_fba0, 0xae_fd80, 127, 0xc6_fba0, 118, 0x8804_10ea_f000, 48, 0x8000_0000_0000, 0x100_0000);
    assert(mul_spec(0x402e_fd80, 0x3bc6_fba0) == 0x3c88_0411);
    assert(0x88_0411 * 0x1_0000_0000_0000_0000 == 0x1_1008_2200_0000_0000 * 0x80_0000 + 0x0);
    lemma_quotient_known(0x3c88_0411, 0x3c00_0000, 0x88_0411, 120, 0x80_0000, 119, 0x1_1008_2200_0000_0000, 0x0, 66, 0x2_0000_0000_0000_0000, 0x400_0000_0000);
    assert(div_spec(0x3c88_0411, 0x3c00_0000) == 0x4008_0411);
    assert(0xd0_c02d * 0x20 + 0x88_0411 * 0x1 == 0x1aa0_09b1);
    lemma_sum_known(0x42d0_c02d, 0x4008_0411, false, 0xd0_c02d, 132, 0x88_0411, 127, 0x20, 0x1, 0x1aa0_09b1, 29, 0x1000_0000, 0x20);
    assert(add_spec(0x42d0_c02d, 0x4008_0411) == 0x42d5_004e);
    lemma_whole_known(0x42d5_004e, 0xd5_004e, 132, 0x2_0000);
}

/// Code 107.
proof fn lemma_code_107()
    ensures
        chord_code(0x3e16_8e51, 0x3e15_5e8d, 0x3e1d_5e8d, 0x42d6_3819, 0x42db_8661) == 107,
{
    reveal(chord_code);
    lemma2_to64();
    lemma2_to64_rest();
    lemma_high_powers();
    assert(0x9d_5e8d * 0x1 - 0x95_5e8d * 0x1 == 0x8_0000);
    lemma_sum_known(0x3e1d_5e8d, 0x3e15_5e8d, true, 0x9d_5e8d, 123, 0x95_5e8d, 123, 0x1, 0x1, 0x8_0000, 20, 0x8_0000, 0x10);
    assert(sub_spec(0x3e1d_5e8d, 0x3e15_5e8d) == 0x3c00_0000);
    assert(0x96_8e51 * 0x1 - 0x95_5e8d * 0x1 == 0x1_2fc4);
    lemma_sum_known(0x3e16_8e51, 0x3e15_5e8d, true, 0x96_8e51, 123, 0x95_5e8d, 123, 0x1, 0x1, 0x1_2fc4, 17, 0x1_0000, 0x80);
    assert(sub_spec(0x3e16_8e51, 0x3e15_5e8d) == 0x3a97_e200);
    assert(0xdb_8661 * 0x1 - 0xd6_3819 * 0x1 == 0x5_4e48);
    lemma_sum_known(0x42db_8661, 0x42d6_3819, true, 0xdb_8661, 132, 0xd6_3819, 132, 0x1, 0x1, 0x5_4e48, 19, 0x4_0000, 0x20);
    assert(sub_spec(0x42db_8661, 0x42d6_3819) == 0x4029_c900);
    assert(0xa9_c900 * 0x97_e200 == 0x64bb_7272_0000);
    lemma_product_known(0x4029_c900, 0x3a97_e200, 0xa9_c900, 127, 0x97_e200, 116, 0x64bb_7272_0000, 47, 0x4000_0000_0000, 0x80_0000);
    assert(mul_spec(0x4029_c900, 0x3a97_e200) == 0x3b49_76e5);
    assert(0xc9_76e5 * 0x1_0000_0000_0000_0000 == 0x1_92ed_ca00_0000_0000 * 0x80_0000 + 0x0);
    lemma_quotient_known(0x3b49_76e5, 0x3c00_0000, 0xc9_76e5, 117, 0x80_0000, 119, 0x1_92ed_ca00_0000_0000, 0x0, 66, 0x2_0000_0000_0000_0000, 0x400_0000_0000);
    assert(div_spec(0x3b49_76e5, 0x3c00_0000) == 0x3ec9_76e5);
    assert(0xd6_3819 * 0x100 + 0xc9_76e5 * 0x1 == 0xd701_8fe5);
    lemma_sum_known(0x42d6_3819, 0x3ec9_76e5, false, 0xd6_3819, 132, 0xc9_76e5, 124, 0x100, 0x1, 0xd701_8fe5, 32, 0x8000_0000, 0x100);
    assert(add_spec(0x42d6_3819, 0x3ec9_76e5) == 0x42d7_0190);
    lemma_whole_known(0x42d7_0190, 0xd7_0190, 132, 0x2_0000);
}

/// Code 108.
proof fn lemma_code_108()
    ensures
        chord_code(0x3e19_8f0f, 0x3e15_5e8d, 0x3e1d_5e8d, 0x42d6_3819, 0x42db_8661) == 108,
{
    reveal(chord_code);
    lemma2_to64();
    lemma2_to64_rest();
    lemma_high_powers();
    assert(0x9d_5e8d * 0x1 - 0x95_5e8d * 0x1 == 0x8_0000);
    lemma_sum_known(0x3e1d_5e8d, 0x3e15_5e8d, true, 0x9d_5e8d, 123, 0x95_5e8d, 123, 0x1, 0x1, 0x8_0000, 20, 0x8_0000, 0x10);
    assert(sub_spec(0x3e1d_5e8d, 0x3e15_5e8d) == 0x3c00_0000);
    assert(0x99_8f0f * 0x1 - 0x95_5e8d * 0x1 == 0x4_3082);
    lemma_sum_known(0x3e19_8f0f, 0x3e15_5e8d, true, 0x99_8f0f, 123, 0x95_5e8d, 123, 0x1, 0x1, 0x4_3082, 19, 0x4_0000, 0x20);
    assert(sub_spec(0x3e19_8f0f, 0x3e15_5e8d) == 0x3b86_1040);
    assert(0xdb_8661 * 0x1 - 0xd6_3819 * 0x1 == 0x5_4e48);
    lemma_sum_known(0x42db_8661, 0x42d6_3819, true, 0xdb_8661, 132, 0xd6_3819, 132, 0x1, 0x1, 0x5_4e48, 19, 0x4_0000, 0x20);
    assert(sub_spec(0x42db_8661, 0x42d6_3819) == 0x4029_c900);
    assert(0xa9_c900 * 0x86_1040 == 0x58e9_fd02_4000);
    lemma_product_known(0x4029_c900, 0x3b86_1040, 0xa9_c900, 127, 0x86_1040, 118, 0x58e9_fd02_4000, 47, 0x4000_0000_0000, 0x80_0000);
    assert(mul_spec(0x4029_c900, 0x3b86_1040) == 0x3c31_d3fa);
    assert(0xb1_d3fa * 0x1_0000_0000_0000_0000 == 0x1_63a7_f400_0000_0000 * 0x80_0000 + 0x0);
    lemma_quotient_known(0x3c31_d3fa, 0x3c00_0000, 0xb1_d3fa, 119, 0x80_0000, 119, 0x1_63a7_f400_0000_0000, 0x0, 66, 0x2_0000_0000_0000_0000, 0x400_0000_0000);
    assert(div_spec(0x3c31_d3fa, 0x3c00_0000) == 0x3fb1_d3fa);
    assert(0xd6_3819 * 0x40 + 0xb1_d3fa * 0x1 == 0x363f_da3a);
    lemma_sum_known(0x42d6_3819, 0x3fb1_d3fa, false, 0xd6_3819, 132, 0xb1_d3fa, 126, 0x40, 0x1, 0x363f_da3a, 30, 0x2000_0000, 0x40);
    assert(add_spec(0x42d6_3819, 0x3fb1_d3fa) == 0x42d8_ff69);
    lemma_whole_known(0x42d8_ff69, 0xd8_ff69, 132, 0x2_0000);
}

/// Code 109.
proof fn lemma_code_109()
    ensures
        chord_code(0x3e1c_98ac, 0x3e15_5e8d, 0x3e1d_5e8d, 0x42d6_3819, 0x42db_8661) == 109,
{
    reveal(chord_code);
    lemma2_to64();
    lemma2_to64_rest();
    lemma_high_powers();
    assert(0x9d_5e8d * 0x1 - 0x95_5e8d * 0x1 == 0x8_0000);
    lemma_sum_known(0x3e1d_5e8d, 0x3e15_5e8d, true, 0x9d_5e8d, 123, 0x95_5e8d, 123, 0x1, 0x1, 0x8_0000, 20, 0x8_0000, 0x10);
    assert(sub_spec(0x3e1d_5e8d, 0x3e15_5e8d) == 0x3c00_0000);
    assert(0x9c_98ac * 0x1 - 0x95_5e8d * 0x1 == 0x7_3a1f);
    lemma_sum_known(0x3e1c_98ac, 0x3e15_5e8d, true, 0x9c_98ac, 123, 0x95_5e8d, 123, 0x1, 0x1, 0x7_3a1f, 19, 0x4_0000, 0x20);
    assert(sub_spec(0x3e1c_98ac, 0x3e15_5e8d) == 0x3be7_43e0);
    assert(0xdb_8661 * 0x1 - 0xd6_3819 * 0x1 == 0x5_4e48);
    lemma_sum_known(0x42db_8661, 0x42d6_3819, true, 0xdb_8661, 132, 0xd6_3819, 132, 0x1, 0x1, 0x5_4e48, 19, 0x4_0000, 0x20);
    assert(sub_spec(0x42db_8661, 0x42d6_3819) == 0x4029_c900);
    assert(0xa9_c900 * 0xe7_43e0 == 0x9961_632a_e000);
    lemma_product_known(0x4029_c900, 0x3be7_43e0, 0xa9_c900, 127, 0xe7_43e0, 118, 0x9961_632a_e000, 48, 0x8000_0000_0000, 0x100_0000);
    assert(mul_spec(0x4029_c900, 0x3be7_43e0) == 0x3c99_6163);
    assert(0x99_6163 * 0x1_0000_0000_0000_0000 == 0x1_32c2_c600_0000_0000 * 0x80_0000 + 0x0);
    lemma_quotient_known(0x3c99_6163, 0x3c00_0000, 0x99_6163, 120, 0x80_0000, 119, 0x1_32c2_c600_0000_0000, 0x0, 66, 0x2_0000_0000_0000_0000, 0x400_0000_0000);
    assert(div_spec(0x3c99_6163, 0x3c00_0000) == 0x4019_6163);
    assert(0xd6_3819 * 0x20 + 0x99_6163 * 0x1 == 0x1b60_6483);
    lemma_sum_known(0x42d6_3819, 0x4019_6163, false, 0xd6_3819, 132, 0x99_6163, 127, 0x20, 0x1, 0x1b60_6483, 29, 0x1000_0000, 0x20);
    assert(add_spec(0x42d6_3819, 0x4019_6163) == 0x42db_0324);
    lemma_whole_known(0x42db_0324, 0xdb_0324, 132, 0x2_0000);
}

/// Code 110.
proof fn lemma_code_110()
    ensures
        chord_code(0x3e1f_ab30, 0x3e1d_5e8d, 0x3e25_5e8d, 0x42db_8661, 0x42e0_ab74) == 110,
{
    reveal(chord_code);
    lemma2_to64();
    lemma2_to64_rest();
    lemma_high_powers();
    assert(0xa5_5e8d * 0x1 - 0x9d_5e8d * 0x1 == 0x8_0000);
    lemma_sum_known(0x3e25_5e8d, 0x3e1d_5e8d, true, 0xa5_5e8d, 123, 0x9d_5e8d, 123, 0x1, 0x1, 0x8_0000, 20, 0x8_0000, 0x10);
    assert(sub_spec(0x3e25_5e8d, 0x3e1d_5e8d) == 0x3c00_0000);
    assert(0x9f_ab30 * 0x1 - 0x9d_5e8d * 0x1 == 0x2_4ca3);
    lemma_sum_known(0x3e1f_ab30, 0x3e1d_5e8d, true, 0x9f_ab30, 123, 0x9d_5e8d, 123, 0x1, 0x1, 0x2_4ca3, 18, 0x2_0000, 0x40);
    assert(sub_spec(0x3e1f_ab30, 0x3e1d_5e8d) == 0x3b13_28c0);
    assert(0xe0_ab74 * 0x1 - 0xdb_8661 * 0x1 == 0x5_2513);
    lemma_sum_known(0x42e0_ab74, 0x42db_8661, true, 0xe0_ab74, 132, 0xdb_8661, 132, 0x1, 0x1, 0x5_2513, 19, 0x4_0000, 0x20);
    assert(sub_spec(0x42e0_ab74, 0x42db_8661) == 0x4024_a260);
    assert(0xa4_a260 * 0x93_28c0 == 0x5ea3_71f8_c800);
    lemma_product_known(0x4024_a260, 0x3b13_28c0, 0xa4_a260, 127, 0x93_28c0, 117, 0x5ea3_71f8_c800, 47, 0x4000_0000_0000, 0x80_0000);
    assert(mul_spec(0x4024_a260, 0x3b13_28c0) == 0x3bbd_46e4);
    assert(0xbd_46e4 * 0x1_0000_0000_0000_0000 == 0x1_7a8d_c800_0000_0000 * 0x80_0000 + 0x0);
    lemma_quotient_known(0x3bbd_46e4, 0x3c00_0000, 0xbd_46e4, 118, 0x80_0000, 119, 0x1_7a8d_c800_0000_0000, 0x0, 66, 0x2_0000_0000_0000_0000, 0x400_0000_0000);
    assert(div_spec(0x3bbd_46e4, 0x3c00_0000) == 0x3f3d_46e4);
    assert(0xdb_8661 * 0x80 + 0xbd_46e4 * 0x1 == 0x6e80_7764);
    lemma_sum_known(0x42db_8661, 0x3f3d_46e4, false, 0xdb_8661, 132, 0xbd_46e4, 125, 0x80, 0x1, 0x6e80_7764, 31, 0x4000_0000, 0x80);
    assert(add_spec(0x42db_8661, 0x3f3d_46e4) == 0x42dd_00ef);
    lemma_whole_known(0x42dd_00ef, 0xdd_00ef, 132, 0x2_0000);
}

/// Code 111.
proof fn lemma_code_111()
    ensures
        chord_code(0x3e22_c6a1, 0x3e1d_5e8d, 0x3e25_5e8d, 0x42db_8661, 0x42e0_ab74) == 111,
{
    reveal(chord_code);
    lemma2_to64();
    lemma2_to64_rest();
    lemma_high_powers();
    assert(0xa5_5e8d * 0x1 - 0x9d_5e8d * 0x1 == 0x8_0000);
    lemma_sum_known(0x3e25_5e8d, 0x3e1d_5e8d, true, 0xa5_5e8d, 123, 0x9d_5e8d, 123, 0x1, 0x1, 0x8_0000, 20, 0x8_0000, 0x10);
    assert(sub_spec(0x3e25_5e8d, 0x3e1d_5e8d) == 0x3c00_0000);
    assert(0xa2_c6a1 * 0x1 - 0x9d_5e8d * 0x1 == 0x5_6814);
    lemma_sum_known(0x3e22_c6a1, 0x3e1d_5e8d, true, 0xa2_c6a1, 123, 0x9d_5e8d, 123, 0x1, 0x1, 0x5_6814, 19, 0x4_0000, 0x20);
    assert(sub_spec(0x3e22_c6a1, 0x3e1d_5e8d) == 0x3bad_0280);
    assert(0xe0_ab74 * 0x1 - 0xdb_8661 * 0x1 == 0x5_2513);
    lemma_sum_known(0x42e0_ab74, 0x42db_8661, true, 0xe0_ab74, 132, 0xdb_8661, 132, 0x1, 0x1, 0x5_2513, 19, 0x4_0000, 0x20);
    assert(sub_spec(0x42e0_ab74, 0x42db_8661) == 0x4024_a260);
    assert(0xa4_a260 * 0xad_0280 == 0x6f43_5675_f000);
    lemma_product_known(0x4024_a260, 0x3bad_0280, 0xa4_a260, 127, 0xad_0280, 118, 0x6f43_5675_f000, 47, 0x4000_0000_0000, 0x80_0000);
    assert(mul_spec(0x4024_a260, 0x3bad_0280) == 0x3c5e_86ad);
    assert(0xde_86ad * 0x1_0000_0000_0000_0000 == 0x1_bd0d_5a00_0000_0000 * 0x80_0000 + 0x0);
    lemma_quotient_known(0x3c5e_86ad, 0x3c00_0000, 0xde_86ad, 119, 0x80_0000, 119, 0x1_bd0d_5a00_0000_0000, 0x0, 66, 0x2_0000_0000_0000_0000, 0x400_0000_0000);
    assert(div_spec(0x3c5e_86ad, 0x3c00_0000) == 0x3fde_86ad);
    assert(0xdb_8661 * 0x40 + 0xde_86ad * 0x1 == 0x37c0_1eed);
    lemma_sum_known(0x42db_8661, 0x3fde_86ad, false, 0xdb_8661, 132, 0xde_86ad, 126, 0x40, 0x1, 0x37c0_1eed, 30, 0x2000_0000, 0x40);
    assert(add_spec(0x42db_8661, 0x3fde_86ad) == 0x42df_007c);
    lemma_whole_known(0x42df_007c, 0xdf_007c, 132, 0x2_0000);
}

/// Code 112.
proof fn lemma_code_112()
    ensures
        chord_code(0x3e25_eb07, 0x3e25_5e8d, 0x3e2d_5e8d, 0x42e0_ab74, 0x42e5_ad1e) == 112,
{
    reveal(chord_code);
    lemma2_to64();
    lemma2_to64_rest();
    lemma_high_powers();
    assert(0xad_5e8d * 0x1 - 0xa5_5e8d * 0x1 == 0x8_0000);
    lemma_sum_known(0x3e2d_5e8d, 0x3e25_5e8d, true, 0xad_5e8d, 123, 0xa5_5e8d, 123, 0x1, 0x1, 0x8_0000, 20, 0x8_0000, 0x10);
    assert(sub_spec(0x3e2d_5e8d, 0x3e25_5e8d) == 0x3c00_0000);
    assert(0xa5_eb07 * 0x1 - 0xa5_5e8d * 0x1 == 0x8c7a);
    lemma_sum_known(0x3e25_eb07, 0x3e25_5e8d, true, 0xa5_eb07, 123, 0xa5_5e8d, 123, 0x1, 0x1, 0x8c7a, 16, 0x8000, 0x100);
    assert(sub_spec(0x3e25_eb07, 0x3e25_5e8d) == 0x3a0c_7a00);
    assert(0xe5_ad1e * 0x1 - 0xe0_ab74 * 0x1 == 0x5_01aa);
    lemma_sum_known(0x42e5_ad1e, 0x42e0_ab74, true, 0xe5_ad1e, 132, 0xe0_ab74, 132, 0x1, 0x1, 0x5_01aa, 19, 0x4_0000, 0x20);
    assert(sub_spec(0x42e5_ad1e, 0x42e0_ab74) == 0x4020_3540);
    assert(0xa0_3540 * 0x8c_7a00 == 0x57e9_7860_8000);
    lemma_product_known(0x4020_3540, 0x3a0c_7a00, 0xa0_3540, 127, 0x8c_7a00, 115, 0x57e9_7860_8000, 47, 0x4000_0000_0000, 0x80_0000);
    assert(mul_spec(0x4020_3540, 0x3a0c_7a00) == 0x3aaf_d2f1);
    assert(0xaf_d2f1 * 0x1_0000_0000_0000_0000 == 0x1_5fa5_e200_0000_0000 * 0x80_0000 + 0x0);
    lemma_quotient_known(0x3aaf_d2f1, 0x3c00_0000, 0xaf_d2f1, 116, 0x80_0000, 119, 0x1_5fa5_e200_0000_0000, 0x0, 66, 0x2_0000_0000_0000_0000, 0x400_0000_0000);
    assert(div_spec(0x3aaf_d2f1, 0x3c00_0000) == 0x3e2f_d2f1);
    assert(0xe0_ab74 * 0x200 + 0xaf_d2f1 * 0x1 == 0x1_c206_baf1);
    lemma_sum_known(0x42e0_ab74, 0x3e2f_d2f1, false, 0xe0_ab74, 132, 0xaf_d2f1, 123, 0x200, 0x1, 0x1_c206_baf1, 33, 0x1_0000_0000, 0x200);
    assert(add_spec(0x42e0_ab74, 0x3e2f_d2f1) == 0x42e1_035d);
    lemma_whole_known(0x42e1_035d, 0xe1_035d, 132, 0x2_0000);
}

/// Code 113.
proof fn lemma_code_113()
    ensures
        chord_code(0x3e29_186a, 0x3e25_5e8d, 0x3e2d_5e8d, 0x42e0_ab74, 0x42e5_ad1e) == 113,
{
    reveal(chord_code);
    lemma2_to64();
    lemma2_to64_rest();
    lemma_high_powers();
    assert(0xad_5e8d * 0x1 - 0xa5_5e8d * 0x1 == 0x8_0000);
    lemma_sum_known(0x3e2d_5e8d, 0x3e25_5e8d, true, 0xad_5e8d, 123, 0xa5_5e8d, 123, 0x1, 0x1, 0x8_0000, 20, 0x8_0000, 0x10);
    assert(sub_spec(0x3e2d_5e8d, 0x3e25_5e8d) == 0x3c00_0000);
    assert(0xa9_186a * 0x1 - 0xa5_5e8d * 0x1 == 0x3_b9dd);
    lemma_sum_known(0x3e29_186a, 0x3e25_5e8d, true, 0xa9_186a, 123, 0xa5_5e8d, 123, 0x1, 0x1, 0x3_b9dd, 18, 0x2_0000, 0x40);
    assert(sub_spec(0x3e29_186a, 0x3e25_5e8d) == 0x3b6e_7740);
    assert(0xe5_ad1e * 0x1 - 0xe0_ab74 * 0x1 == 0x5_01aa);
    lemma_sum_known(0x42e5_ad1e, 0x42e0_ab74, true, 0xe5_ad1e, 132, 0xe0_ab74, 132, 0x1, 0x1, 0x5_01aa, 19, 0x4_0000, 0x20);
    assert(sub_spec(0x42e5_ad1e, 0x42e0_ab74) == 0x4020_3540);
    assert(0xa0_3540 * 0xee_7740 == 0x953c_224e_1000);
    lemma_product_known(0x4020_3540, 0x3b6e_7740, 0xa0_3540, 127, 0xee_7740, 117, 0x953c_224e_1000, 48, 0x8000_0000_0000, 0x100_0000);
    assert(mul_spec(0x4020_3540, 0x3b6e_7740) == 0x3c15_3c22);
    assert(0x95_3c22 * 0x1_0000_0000_0000_0000 == 0x1_2a78_4400_0000_0000 * 0x80_0000 + 0x0);
    lemma_quotient_known(0x3c15_3c22, 0x3c00_0000, 0x95_3c22, 119, 0x80_0000, 119, 0x1_2a78_4400_0000_0000, 0x0, 66, 0x2_0000_0000_0000_0000, 0x400_0000_0000);
    assert(div_spec(0x3c15_3c22, 0x3c00_0000) == 0x3f95_3c22);
    assert(0xe0_ab74 * 0x40 + 0x95_3c22 * 0x1 == 0x38c0_1922);
    lemma_sum_known(0x42e0_ab74, 0x3f95_3c22, false, 0xe0_ab74, 132, 0x95_3c22, 126, 0x40, 0x1, 0x38c0_1922, 30, 0x2000_0000, 0x40);
    assert(add_spec(0x42e0_ab74, 0x3f95_3c22) == 0x42e3_0065);
    lemma_whole_known(0x42e3_0065, 0xe3_0065, 132, 0x2_0000);
}

/// Code 114.
proof fn lemma_code_114()
    ensures
        chord_code(0x3e2c_4ed0, 0x3e25_5e8d, 0x3e2d_5e8d, 0x42e0_ab74, 0x42e5_ad1e) == 114,
{
    reveal(chord_code);
    lemma2_to64();
    lemma2_to64_rest();
    lemma_high_powers();
    assert(0xad_5e8d * 0x1 - 0xa5_5e8d * 0x1 == 0x8_0000);
    lemma_sum_known(0x3e2d_5e8d, 0x3e25_5e8d, true, 0xad_5e8d, 123, 0xa5_5e8d, 123, 0x1, 0x1, 0x8_0000, 20, 0x8_0000, 0x10);
    assert(sub_spec(0x3e2d_5e8d, 0x3e25_5e8d) == 0x3c00_0000);
    assert(0xac_4ed0 * 0x1 - 0xa5_5e8d * 0x1 == 0x6_f043);
    lemma_sum_known(0x3e2c_4ed0, 0x3e25_5e8d, true, 0xac_4ed0, 123, 0xa5_5e8d, 123, 0x1, 0x1, 0x6_f043, 19, 0x4_0000, 0x20);
    assert(sub_spec(0x3e2c_4ed0, 0x3e25_5e8d) == 0x3bde_0860);
    assert(0xe5_ad1e * 0x1 - 0xe0_ab74 * 0x1 == 0x5_01aa);
    lemma_sum_known(0x42e5_ad1e, 0x42e0_ab74, true, 0xe5_ad1e, 132, 0xe0_ab74, 132, 0x1, 0x1, 0x5_01aa, 19, 0x4_0000, 0x20);
    assert(sub_spec(0x42e5_ad1e, 0x42e0_ab74) == 0x4020_3540);
    assert(0xa0_3540 * 0xde_0860 == 0x8af3_6b3d_f800);
    lemma_product_known(0x4020_3540, 0x3bde_0860, 0xa0_3540, 127, 0xde_0860, 118, 0x8af3_6b3d_f800, 48, 0x8000_0000_0000, 0x100_0000);
    assert(mul_spec(0x4020_3540, 0x3bde_0860) == 0x3c8a_f36b);
    assert(0x8a_f36b * 0x1_0000_0000_0000_0000 == 0x1_15e6_d600_0000_0000 * 0x80_0000 + 0x0);
    lemma_quotient_known(0x3c8a_f36b, 0x3c00_0000, 0x8a_f36b, 120, 0x80_0000, 119, 0x1_15e6_d600_0000_0000, 0x0, 66, 0x2_0000_0000_0000_0000, 0x400_0000_0000);
    assert(div_spec(0x3c8a_f36b, 0x3c00_0000) == 0x400a_f36b);
    assert(0xe0_ab74 * 0x20 + 0x8a_f36b * 0x1 == 0x1ca0_61eb);
    lemma_sum_known(0x42e0_ab74, 0x400a_f36b, false, 0xe0_ab74, 132, 0x8a_f36b, 127, 0x20, 0x1, 0x1ca0_61eb, 29, 0x1000_0000, 0x20);
    assert(add_spec(0x42e0_ab74, 0x400a_f36b) == 0x42e5_030f);
    lemma_whole_known(0x42e5_030f, 0xe5_030f, 132, 0x2_0000);
}

/// Code 115.
proof fn lemma_code_115()
    ensures
        chord_code(0x3e2f_8e42, 0x3e2d_5e8d, 0x3e35_5e8d, 0x42e5_ad1e, 0x42ea_8ad8) == 115,
{
    reveal(chord_code);
    lemma2_to64();
    lemma2_to64_rest();
    lemma_high_powers();
    assert(0xb5_5e8d * 0x1 - 0xad_5e8d * 0x1 == 0x8_0000);
    lemma_sum_known(0x3e35_5e8d, 0x3e2d_5e8d, true, 0xb5_5e8d, 123, 0xad_5e8d, 123, 0x1, 0x1, 0x8_0000, 20, 0x8_0000, 0x10);
    assert(sub_spec(0x3e35_5e8d, 0x3e2d_5e8d) == 0x3c00_0000);
    assert(0xaf_8e42 * 0x1 - 0xad_5e8d * 0x1 == 0x2_2fb5);
    lemma_sum_known(0x3e2f_8e42, 0x3e2d_5e8d, true, 0xaf_8e42, 123, 0xad_5e8d, 123, 0x1, 0x1, 0x2_2fb5, 18, 0x2_0000, 0x40);
    assert(sub_spec(0x3e2f_8e42, 0x3e2d_5e8d) == 0x3b0b_ed40);
    assert(0xea_8ad8 * 0x1 - 0xe5_ad1e * 0x1 == 0x4_ddba);
    lemma_sum_known(0x42ea_8ad8, 0x42e5_ad1e, true, 0xea_8ad8, 132, 0xe5_ad1e, 132, 0x1, 0x1, 0x4_ddba, 19, 0x4_0000, 0x20);
    assert(sub_spec(0x42ea_8ad8, 0x42e5_ad1e) == 0x401b_b740);
    assert(0x9b_b740 * 0x8b_ed40 == 0x551c_cf54_1000);
    lemma_product_known(0x401b_b740, 0x3b0b_ed40, 0x9b_b740, 127, 0x8b_ed40, 117, 0x551c_cf54_1000, 47, 0x4000_0000_0000, 0x80_0000);
    assert(mul_spec(0x401b_b740, 0x3b0b_ed40) == 0x3baa_399f);
    assert(0xaa_399f * 0x1_0000_0000_0000_0000 == 0x1_5473_3e00_0000_0000 * 0x80_0000 + 0x0);
    lemma_quotient_known(0x3baa_399f, 0x3c00_0000, 0xaa_399f, 118, 0x80_0000, 119, 0x1_5473_3e00_0000_0000, 0x0, 66, 0x2_0000_0000_0000_0000, 0x400_0000_0000);
    assert(div_spec(0x3baa_399f, 0x3c00_0000) == 0x3f2a_399f);
    assert(0xe5_ad1e * 0x80 + 0xaa_399f * 0x1 == 0x7380_c89f);
    lemma_sum_known(0x42e5_ad1e, 0x3f2a_399f, false, 0xe5_ad1e, 132, 0xaa_399f, 125, 0x80, 0x1, 0x7380_c89f, 31, 0x4000_0000, 0x80);
    assert(add_spec(0x42e5_ad1e, 0x3f2a_399f) == 0x42e7_0191);
    lemma_whole_known(0x42e7_0191, 0xe7_0191, 132, 0x2_0000);
}

/// Code 116.
proof fn lemma_code_116()
    ensures
        chord_code(0x3e32_d6c5, 0x3e2d_5e8d, 0x3e35_5e8d, 0x42e5_ad1e, 0x42ea_8ad8) == 116,
{
    reveal(chord_code);
    lemma2_to64();
    lemma2_to64_rest();
    lemma_high_powers();
    assert(0xb5_5e8d * 0x1 - 0xad_5e8d * 0x1 == 0x8_0000);
    lemma_sum_known(0x3e35_5e8d, 0x3e2d_5e8d, true, 0xb5_5e8d, 123, 0xad_5e8d, 123, 0x1, 0x1, 0x8_0000, 20, 0x8_0000, 0x10);
    assert(sub_spec(0x3e35_5e8d, 0x3e2d_5e8d) == 0x3c00_0000);
    assert(0xb2_d6c5 * 0x1 - 0xad_5e8d * 0x1 == 0x5_7838);
    lemma_sum_known(0x3e32_d6c5, 0x3e2d_5e8d, true, 0xb2_d6c5, 123, 0xad_5e8d, 123, 0x1, 0x1, 0x5_7838, 19, 0x4_0000, 0x20);
    assert(sub_spec(0x3e32_d6c5, 0x3e2d_5e8d) == 0x3baf_0700);
    assert(0xea_8ad8 * 0x1 - 0xe5_ad1e * 0x1 == 0x4_ddba);
    lemma_sum_known(0x42ea_8ad8, 0x42e5_ad1e, true, 0xea_8ad8, 132, 0xe5_ad1e, 132, 0x1, 0x1, 0x4_ddba, 19, 0x4_0000, 0x20);
    assert(sub_spec(0x42ea_8ad8, 0x42e5_ad1e) == 0x401b_b740);
    assert(0x9b_b740 * 0xaf_0700 == 0x6a76_86c2_c000);
    lemma_product_known(0x401b_b740, 0x3baf_0700, 0x9b_b740, 127, 0xaf_0700, 118, 0x6a76_86c2_c000, 47, 0x4000_0000_0000, 0x80_0000);
    assert(mul_spec(0x401b_b740, 0x3baf_0700) == 0x3c54_ed0e);
    assert(0xd4_ed0e * 0x1_0000_0000_0000_0000 == 0x1_a9da_1c00_0000_0000 * 0x80_0000 + 0x0);
    lemma_quotient_known(0x3c54_ed0e, 0x3c00_0000, 0xd4_ed0e, 119, 0x80_0000, 119, 0x1_a9da_1c00_0000_0000, 0x0, 66, 0x2_0000_0000_0000_0000, 0x400_0000_0000);
    assert(div_spec(0x3c54_ed0e, 0x3c00_0000) == 0x3fd4_ed0e);
    assert(0xe5_ad1e * 0x40 + 0xd4_ed0e * 0x1 == 0x3a40_348e);
    lemma_sum_known(0x42e5_ad1e, 0x3fd4_ed0e, false, 0xe5_ad1e, 132, 0xd4_ed0e, 126, 0x40, 0x1, 0x3a40_348e, 30, 0x2000_0000, 0x40);
    assert(add_spec(0x42e5_ad1e, 0x3fd4_ed0e) == 0x42e9_00d2);
    lemma_whole_known(0x42e9_00d2, 0xe9_00d2, 132, 0x2_0000);
}

/// Code 117.
proof fn lemma_code_117()
    ensures
        chord_code(0x3e36_2862, 0x3e35_5e8d, 0x3e3d_5e8d, 0x42ea_8ad8, 0x42ef_4b0a) == 117,
{
    reveal(chord_code);
    lemma2_to64();
    lemma2_to64_rest();
    lemma_high_powers();
    assert(0xbd_5e8d * 0x1 - 0xb5_5e8d * 0x1 == 0x8_0000);
    lemma_sum_known(0x3e3d_5e8d, 0x3e35_5e8d, true, 0xbd_5e8d, 123, 0xb5_5e8d, 123, 0x1, 0x1, 0x8_0000, 20, 0x8_0000, 0x10);
    assert(sub_spec(0x3e3d_5e8d, 0x3e35_5e8d) == 0x3c00_0000);
    assert(0xb6_2862 * 0x1 - 0xb5_5e8d * 0x1 == 0xc9d5);
    lemma_sum_known(0x3e36_2862, 0x3e35_5e8d, true, 0xb6_2862, 123, 0xb5_5e8d, 123, 0x1, 0x1, 0xc9d5, 16, 0x8000, 0x100);
    assert(sub_spec(0x3e36_2862, 0x3e35_5e8d) == 0x3a49_d500);
    assert(0xef_4b0a * 0x1 - 0xea_8ad8 * 0x1 == 0x4_c032);
    lemma_sum_known(0x42ef_4b0a, 0x42ea_8ad8, true, 0xef_4b0a, 132, 0xea_8ad8, 132, 0x1, 0x1, 0x4_c032, 19, 0x4_0000, 0x20);
    assert(sub_spec(0x42ef_4b0a, 0x42ea_8ad8) == 0x4018_0640);
    assert(0x98_0640 * 0xc9_d500 == 0x77db_6573_4000);
    lemma_product_known(0x4018_0640, 0x3a49_d500, 0x98_0640, 127, 0xc9_d500, 115, 0x77db_6573_4000, 47, 0x4000_0000_0000, 0x80_0000);
    assert(mul_spec(0x4018_0640, 0x3a49_d500) == 0x3aef_b6cb);
    assert(0xef_b6cb * 0x1_0000_0000_0000_0000 == 0x1_df6d_9600_0000_0000 * 0x80_0000 + 0x0);
    lemma_quotient_known(0x3aef_b6cb, 0x3c00_0000, 0xef_b6cb, 116, 0x80_0000, 119, 0x1_df6d_9600_0000_0000, 0x0, 66, 0x2_0000_0000_0000_0000, 0x400_0000_0000);
    assert(div_spec(0x3aef_b6cb, 0x3c00_0000) == 0x3e6f_b6cb);
    assert(0xea_8ad8 * 0x200 + 0xef_b6cb * 0x1 == 0x1_d605_66cb);
    lemma_sum_known(0x42ea_8ad8, 0x3e6f_b6cb, false, 0xea_8ad8, 132, 0xef_b6cb, 123, 0x200, 0x1, 0x1_d605_66cb, 33, 0x1_0000_0000, 0x200);
    assert(add_spec(0x42ea_8ad8, 0x3e6f_b6cb) == 0x42eb_02b3);
    lemma_whole_known(0x42eb_02b3, 0xeb_02b3, 132, 0x2_0000);
}

/// Code 118.
proof fn lemma_code_118()
    ensures
        chord_code(0x3e39_831f, 0x3e35_5e8d, 0x3e3d_5e8d, 0x42ea_8ad8, 0x42ef_4b0a) == 118,
{
    reveal(chord_code);
    lemma2_to64();
    lemma2_to64_rest();
    lemma_high_powers();
    assert(0xbd_5e8d * 0x1 - 0xb5_5e8d * 0x1 == 0x8_0000);
    lemma_sum_known(0x3e3d_5e8d, 0x3e35_5e8d, true, 0xbd_5e8d, 123, 0xb5_5e8d, 123, 0x1, 0x1, 0x8_0000, 20, 0x8_0000, 0x10);
    assert(sub_spec(0x3e3d_5e8d, 0x3e35_5e8d) == 0x3c00_0000);
    assert(0xb9_831f * 0x1 - 0xb5_5e8d * 0x1 == 0x4_2492);
    lemma_sum_known(0x3e39_831f, 0x3e35_5e8d, true, 0xb9_831f, 123, 0xb5_5e8d, 123, 0x1, 0x1, 0x4_2492, 19, 0x4_0000, 0x20);
    assert(sub_spec(0x3e39_831f, 0x3e35_5e8d) == 0x3b84_9240);
    assert(0xef_4b0a * 0x1 - 0xea_8ad8 * 0x1 == 0x4_c032);
    lemma_sum_known(0x42ef_4b0a, 0x42ea_8ad8, true, 0xef_4b0a, 132, 0xea_8ad8, 132, 0x1, 0x1, 0x4_c032, 19, 0x4_0000, 0x20);
    assert(sub_spec(0x42ef_4b0a, 0x42ea_8ad8) == 0x4018_0640);
    assert(0x98_0640 * 0x84_9240 == 0x4eba_1292_1000);
    lemma_product_known(0x4018_0640, 0x3b84_9240, 0x98_0640, 127, 0x84_9240, 118, 0x4eba_1292_1000, 47, 0x4000_0000_0000, 0x80_0000);
    assert(mul_spec(0x4018_0640, 0x3b84_9240) == 0x3c1d_7425);
    assert(0x9d_7425 * 0x1_0000_0000_0000_0000 == 0x1_3ae8_4a00_0000_0000 * 0x80_0000 + 0x0);
    lemma_quotient_known(0x3c1d_7425, 0x3c00_0000, 0x9d_7425, 119, 0x80_0000, 119, 0x1_3ae8_4a00_0000_0000, 0x0, 66, 0x2_0000_0000_0000_0000, 0x400_0000_0000);
    assert(div_spec(0x3c1d_7425, 0x3c00_0000) == 0x3f9d_7425);
    assert(0xea_8ad8 * 0x40 + 0x9d_7425 * 0x1 == 0x3b40_2a25);
    lemma_sum_known(0x42ea_8ad8, 0x3f9d_7425, false, 0xea_8ad8, 132, 0x9d_7425, 126, 0x40, 0x1, 0x3b40_2a25, 30, 0x2000_0000, 0x40);
    assert(add_spec(0x42ea_8ad8, 0x3f9d_7425) == 0x42ed_00a9);
    lemma_whole_known(0x42ed_00a9, 0xed_00a9, 132, 0x2_0000);
}

/// Code 119.
proof fn lemma_code_119()
    ensures
        chord_code(0x3e3c_e703, 0x3e35_5e8d, 0x3e3d_5e8d, 0x42ea_8ad8, 0x42ef_4b0a) == 119,
{
    reveal(chord_code);
    lemma2_to64();
    lemma2_to64_rest();
    lemma_high_powers();
    assert(0xbd_5e8d * 0x1 - 0xb5_5e8d * 0x1 == 0x8_0000);
    lemma_sum_known(0x3e3d_5e8d, 0x3e35_5e8d, true, 0xbd_5e8d, 123, 0xb5_5e8d, 123, 0x1, 0x1, 0x8_0000, 20, 0x8_0000, 0x10);
    assert(sub_spec(0x3e3d_5e8d, 0x3e35_5e8d) == 0x3c00_0000);
    assert(0xbc_e703 * 0x1 - 0xb5_5e8d * 0x1 == 0x7_8876);
    lemma_sum_known(0x3e3c_e703, 0x3e35_5e8d, true, 0xbc_e703, 123, 0xb5_5e8d, 123, 0x1, 0x1, 0x7_8876, 19, 0x4_0000, 0x20);
    assert(sub_spec(0x3e3c_e703, 0x3e35_5e8d) == 0x3bf1_0ec0);
    assert(0xef_4b0a * 0x1 - 0xea_8ad8 * 0x1 == 0x4_c032);
    lemma_sum_known(0x42ef_4b0a, 0x42ea_8ad8, true, 0xef_4b0a, 132, 0xea_8ad8, 132, 0x1, 0x1, 0x4_c032, 19, 0x4_0000, 0x20);
    assert(sub_spec(0x42ef_4b0a, 0x42ea_8ad8) == 0x4018_0640);
    assert(0x98_0640 * 0xf1_0ec0 == 0x8f26_a49c_3000);
    lemma_product_known(0x4018_0640, 0x3bf1_0ec0, 0x98_0640, 127, 0xf1_0ec0, 118, 0x8f26_a49c_3000, 48, 0x8000_0000_0000, 0x100_0000);
    assert(mul_spec(0x4018_0640, 0x3bf1_0ec0) == 0x3c8f_26a5);
    assert(0x8f_26a5 * 0x1_0000_0000_0000_0000 == 0x1_1e4d_4a00_0000_0000 * 0x80_0000 + 0x0);
    lemma_quotient_known(0x3c8f_26a5, 0x3c00_0000, 0x8f_26a5, 120, 0x80_0000, 119, 0x1_1e4d_4a00_0000_0000, 0x0, 66, 0x2_0000_0000_0000_0000, 0x400_0000_0000);
    assert(div_spec(0x3c8f_26a5, 0x3c00_0000) == 0x400f_26a5);
    assert(0xea_8ad8 * 0x20 + 0x8f_26a5 * 0x1 == 0x1de0_81a5);
    lemma_sum_known(0x42ea_8ad8, 0x400f_26a5, false, 0xea_8ad8, 132, 0x8f_26a5, 127, 0x20, 0x1, 0x1de0_81a5, 29, 0x1000_0000, 0x20);
    assert(add_spec(0x42ea_8ad8, 0x400f_26a5) == 0x42ef_040d);
    lemma_whole_known(0x42ef_040d, 0xef_040d, 132, 0x2_0000);
}

/// Code 120.
proof fn lemma_code_120()
    ensures
        chord_code(0x3e40_5417, 0x3e3d_5e8d, 0x3e45_5e8d, 0x42ef_4b0a, 0x42f3_ec80) == 120,
{
    reveal(chord_code);
    lemma2_to64();
    lemma2_to64_rest();
    lemma_high_powers();
    assert(0xc5_5e8d * 0x1 - 0xbd_5e8d * 0x1 == 0x8_0000);
    lemma_sum_known(0x3e45_5e8d, 0x3e3d_5e8d, true, 0xc5_5e8d, 123, 0xbd_5e8d, 123, 0x1, 0x1, 0x8_0000, 20, 0x8_0000, 0x10);
    assert(sub_spec(0x3e45_5e8d, 0x3e3d_5e8d) == 0x3c00_0000);
    assert(0xc0_5417 * 0x1 - 0xbd_5e8d * 0x1 == 0x2_f58a);
    lemma_sum_known(0x3e40_5417, 0x3e3d_5e8d, true, 0xc0_5417, 123, 0xbd_5e8d, 123, 0x1, 0x1, 0x2_f58a, 18, 0x2_0000, 0x40);
    assert(sub_spec(0x3e40_5417, 0x3e3d_5e8d) == 0x3b3d_6280);
    assert(0xf3_ec80 * 0x1 - 0xef_4b0a * 0x1 == 0x4_a176);
    lemma_sum_known(0x42f3_ec80, 0x42ef_4b0a, true, 0xf3_ec80, 132, 0xef_4b0a, 132, 0x1, 0x1, 0x4_a176, 19, 0x4_0000, 0x20);
    assert(sub_spec(0x42f3_ec80, 0x42ef_4b0a) == 0x4014_2ec0);
    assert(0x94_2ec0 * 0xbd_6280 == 0x6d9f_87bc_e000);
    lemma_product_known(0x4014_2ec0, 0x3b3d_6280, 0x94_2ec0, 127, 0xbd_6280, 117, 0x6d9f_87bc_e000, 47, 0x4000_0000_0000, 0x80_0000);
    assert(mul_spec(0x4014_2ec0, 0x3b3d_6280) == 0x3bdb_3f0f);
    assert(0xdb_3f0f * 0x1_0000_0000_0000_0000 == 0x1_b67e_1e00_0000_0000 * 0x80_0000 + 0x0);
    lemma_quotient_known(0x3bdb_3f0f, 0x3c00_0000, 0xdb_3f0f, 118, 0x80_0000, 119, 0x1_b67e_1e00_0000_0000, 0x0, 66, 0x2_0000_0000_0000_0000, 0x400_0000_0000);
    assert(div_spec(0x3bdb_3f0f, 0x3c00_0000) == 0x3f5b_3f0f);
    assert(0xef_4b0a * 0x80 + 0xdb_3f0f * 0x1 == 0x7880_c40f);
    lemma_sum_known(0x42ef_4b0a, 0x3f5b_3f0f, false, 0xef_4b0a, 132, 0xdb_3f0f, 125, 0x80, 0x1, 0x7880_c40f, 31, 0x4000_0000, 0x80);
    assert(add_spec(0x42ef_4b0a, 0x3f5b_3f0f) == 0x42f1_0188);
    lemma_whole_known(0x42f1_0188, 0xf1_0188, 132, 0x2_0000);
}

/// Code 121.
proof fn lemma_code_121()
    ensures
        chord_code(0x3e43_ca60, 0x3e3d_5e8d, 0x3e45_5e8d, 0x42ef_4b0a, 0x42f3_ec80) == 121,
{
    reveal(chord_code);
    lemma2_to64();
    lemma2_to64_rest();
    lemma_high_powers();
    assert(0xc5_5e8d * 0x1 - 0xbd_5e8d * 0x1 == 0x8_0000);
    lemma_sum_known(0x3e45_5e8d, 0x3e3d_5e8d, true, 0xc5_5e8d, 123, 0xbd_5e8d, 123, 0x1, 0x1, 0x8_0000, 20, 0x8_0000, 0x10);
    assert(sub_spec(0x3e45_5e8d, 0x3e3d_5e8d) == 0x3c00_0000);
    assert(0xc3_ca60 * 0x1 - 0xbd_5e8d * 0x1 == 0x6_6bd3);
    lemma_sum_known(0x3e43_ca60, 0x3e3d_5e8d, true, 0xc3_ca60, 123, 0xbd_5e8d, 123, 0x1, 0x1, 0x6_6bd3, 19, 0x4_0000, 0x20);
    assert(sub_spec(0x3e43_ca60, 0x3e3d_5e8d) == 0x3bcd_7a60);
    assert(0xf3_ec80 * 0x1 - 0xef_4b0a * 0x1 == 0x4_a176);
    lemma_sum_known(0x42f3_ec80, 0x42ef_4b0a, true, 0xf3_ec80, 132, 0xef_4b0a, 132, 0x1, 0x1, 0x4_a176, 19, 0x4_0000, 0x20);
    assert(sub_spec(0x42f3_ec80, 0x42ef_4b0a) == 0x4014_2ec0);
    assert(0x94_2ec0 * 0xcd_7a60 == 0x76f0_4599_0800);
    lemma_product_known(0x4014_2ec0, 0x3bcd_7a60, 0x94_2ec0, 127, 0xcd_7a60, 118, 0x76f0_4599_0800, 47, 0x4000_0000_0000, 0x80_0000);
    assert(mul_spec(0x4014_2ec0, 0x3bcd_7a60) == 0x3c6d_e08b);
    assert(0xed_e08b * 0x1_0000_0000_0000_0000 == 0x1_dbc1_1600_0000_0000 * 0x80_0000 + 0x0);
    lemma_quotient_known(0x3c6d_e08b, 0x3c00_0000, 0xed_e08b, 119, 0x80_0000, 119, 0x1_dbc1_1600_0000_0000, 0x0, 66, 0x2_0000_0000_0000_0000, 0x400_0000_0000);
    assert(div_spec(0x3c6d_e08b, 0x3c00_0000) == 0x3fed_e08b);
    assert(0xef_4b0a * 0x40 + 0xed_e08b * 0x1 == 0x3cc0_a30b);
    lemma_sum_known(0x42ef_4b0a, 0x3fed_e08b, false, 0xef_4b0a, 132, 0xed_e08b, 126, 0x40, 0x1, 0x3cc0_a30b, 30, 0x2000_0000, 0x40);
    assert(add_spec(0x42ef_4b0a, 0x3fed_e08b) == 0x42f3_028c);
    lemma_whole_known(0x42f3_028c, 0xf3_028c, 132, 0x2_0000);
}

/// Code 122.
proof fn lemma_code_122()
    ensures
        chord_code(0x3e47_49e6, 0x3e45_5e8d, 0x3e4d_5e8d, 0x42f3_ec80, 0x42f8_7167) == 122,
{
    reveal(chord_code);
    lemma2_to64();
    lemma2_to64_rest();
    lemma_high_powers();
    assert(0xcd_5e8d * 0x1 - 0xc5_5e8d * 0x1 == 0x8_0000);
    lemma_sum_known(0x3e4d_5e8d, 0x3e45_5e8d, true, 0xcd_5e8d, 123, 0xc5_5e8d, 123, 0x1, 0x1, 0x8_0000, 20, 0x8_0000, 0x10);
    assert(sub_spec(0x3e4d_5e8d, 0x3e45_5e8d) == 0x3c00_0000);
    assert(0xc7_49e6 * 0x1 - 0xc5_5e8d * 0x1 == 0x1_eb59);
    lemma_sum_known(0x3e47_49e6, 0x3e45_5e8d, true, 0xc7_49e6, 123, 0xc5_5e8d, 123, 0x1, 0x1, 0x1_eb59, 17, 0x1_0000, 0x80);
    assert(sub_spec(0x3e47_49e6, 0x3e45_5e8d) == 0x3af5_ac80);
    assert(0xf8_7167 * 0x1 - 0xf3_ec80 * 0x1 == 0x4_84e7);
    lemma_sum_known(0x42f8_7167, 0x42f3_ec80, true, 0xf8_7167, 132, 0xf3_ec80, 132, 0x1, 0x1, 0x4_84e7, 19, 0x4_0000, 0x20);
    assert(sub_spec(0x42f8_7167, 0x42f3_ec80) == 0x4010_9ce0);
    assert(0x90_9ce0 * 0xf5_ac80 == 0x8ac7_9414_f000);
    lemma_product_known(0x4010_9ce0, 0x3af5_ac80, 0x90_9ce0, 127, 0xf5_ac80, 116, 0x8ac7_9414_f000, 48, 0x8000_0000_0000, 0x100_0000);
    assert(mul_spec(0x4010_9ce0, 0x3af5_ac80) == 0x3b8a_c794);
    assert(0x8a_c794 * 0x1_0000_0000_0000_0000 == 0x1_158f_2800_0000_0000 * 0x80_0000 + 0x0);
    lemma_quotient_known(0x3b8a_c794, 0x3c00_0000, 0x8a_c794, 118, 0x80_0000, 119, 0x1_158f_2800_0000_0000, 0x0, 66, 0x2_0000_0000_0000_0000, 0x400_0000_0000);
    assert(div_spec(0x3b8a_c794, 0x3c00_0000) == 0x3f0a_c794);
    assert(0xf3_ec80 * 0x80 + 0x8a_c794 * 0x1 == 0x7a81_0794);
    lemma_sum_known(0x42f3_ec80, 0x3f0a_c794, false, 0xf3_ec80, 132, 0x8a_c794, 125, 0x80, 0x1, 0x7a81_0794, 31, 0x4000_0000, 0x80);
    assert(add_spec(0x42f3_ec80, 0x3f0a_c794) == 0x42f5_020f);
    lemma_whole_known(0x42f5_020f, 0xf5_020f, 132, 0x2_0000);
}

/// Code 123.
proof fn lemma_code_123()
    ensures
        chord_code(0x3e4a_d2af, 0x3e45_5e8d, 0x3e4d_5e8d, 0x42f3_ec80, 0x42f8_7167) == 123,
{
    reveal(chord_code);
    lemma2_to64();
    lemma2_to64_rest();
    lemma_high_powers();
    assert(0xcd_5e8d * 0x1 - 0xc5_5e8d * 0x1 == 0x8_0000);
    lemma_sum_known(0x3e4d_5e8d, 0x3e45_5e8d, true, 0xcd_5e8d, 123, 0xc5_5e8d, 123, 0x1, 0x1, 0x8_0000, 20, 0x8_0000, 0x10);
    assert(sub_spec(0x3e4d_5e8d, 0x3e45_5e8d) == 0x3c00_0000);
    assert(0xca_d2af * 0x1 - 0xc5_5e8d * 0x1 == 0x5_7422);
    lemma_sum_known(0x3e4a_d2af, 0x3e45_5e8d, true, 0xca_d2af, 123, 0xc5_5e8d, 123, 0x1, 0x1, 0x5_7422, 19, 0x4_0000, 0x20);
    assert(sub_spec(0x3e4a_d2af, 0x3e45_5e8d) == 0x3bae_8440);
    assert(0xf8_7167 * 0x1 - 0xf3_ec80 * 0x1 == 0x4_84e7);
    lemma_sum_known(0x42f8_7167, 0x42f3_ec80, true, 0xf8_7167, 132, 0xf3_ec80, 132, 0x1, 0x1, 0x4_84e7, 19, 0x4_0000, 0x20);
    assert(sub_spec(0x42f8_7167, 0x42f3_ec80) == 0x4010_9ce0);
    assert(0x90_9ce0 * 0xae_8440 == 0x6295_554a_b800);
    lemma_product_known(0x4010_9ce0, 0x3bae_8440, 0x90_9ce0, 127, 0xae_8440, 118, 0x6295_554a_b800, 47, 0x4000_0000_0000, 0x80_0000);
    assert(mul_spec(0x4010_9ce0, 0x3bae_8440) == 0x3c45_2aab);
    assert(0xc5_2aab * 0x1_0000_0000_0000_0000 == 0x1_8a55_5600_0000_0000 * 0x80_0000 + 0x0);
    lemma_quotient_known(0x3c45_2aab, 0x3c00_0000, 0xc5_2aab, 119, 0x80_0000, 119, 0x1_8a55_5600_0000_0000, 0x0, 66, 0x2_0000_0000_0000_0000, 0x400_0000_0000);
    assert(div_spec(0x3c45_2aab, 0x3c00_0000) == 0x3fc5_2aab);
    assert(0xf3_ec80 * 0x40 + 0xc5_2aab * 0x1 == 0x3dc0_4aab);
    lemma_sum_known(0x42f3_ec80, 0x3fc5_2aab, false, 0xf3_ec80, 132, 0xc5_2aab, 126, 0x40, 0x1, 0x3dc0_4aab, 30, 0x2000_0000, 0x40);
    assert(add_spec(0x42f3_ec80, 0x3fc5_2aab) == 0x42f7_012b);
    lemma_whole_known(0x42f7_012b, 0xf7_012b, 132, 0x2_0000);
}

/// Code 124.
proof fn lemma_code_124()
    ensures
        chord_code(0x3e4e_64c3, 0x3e4d_5e8d, 0x3e55_5e8d, 0x42f8_7167, 0x42fc_dd34) == 124,
{
    reveal(chord_code);
    lemma2_to64();
    lemma2_to64_rest();
    lemma_high_powers();
    assert(0xd5_5e8d * 0x1 - 0xcd_5e8d * 0x1 == 0x8_0000);
    lemma_sum_known(0x3e55_5e8d, 0x3e4d_5e8d, true, 0xd5_5e8d, 123, 0xcd_5e8d, 123, 0x1, 0x1, 0x8_0000, 20, 0x8_0000, 0x10);
    assert(sub_spec(0x3e55_5e8d, 0x3e4d_5e8d) == 0x3c00_0000);
    assert(0xce_64c3 * 0x1 - 0xcd_5e8d * 0x1 == 0x1_0636);
    lemma_sum_known(0x3e4e_64c3, 0x3e4d_5e8d, true, 0xce_64c3, 123, 0xcd_5e8d, 123, 0x1, 0x1, 0x1_0636, 17, 0x1_0000, 0x80);
    assert(sub_spec(0x3e4e_64c3, 0x3e4d_5e8d) == 0x3a83_1b00);
    assert(0xfc_dd34 * 0x1 - 0xf8_7167 * 0x1 == 0x4_6bcd);
    lemma_sum_known(0x42fc_dd34, 0x42f8_7167, true, 0xfc_dd34, 132, 0xf8_7167, 132, 0x1, 0x1, 0x4_6bcd, 19, 0x4_0000, 0x20);
    assert(sub_spec(0x42fc_dd34, 0x42f8_7167) == 0x400d_79a0);
    assert(0x8d_79a0 * 0x83_1b00 == 0x4874_28b3_e000);
    lemma_product_known(0x400d_79a0, 0x3a83_1b00, 0x8d_79a0, 127, 0x83_1b00, 116, 0x4874_28b3_e000, 47, 0x4000_0000_0000, 0x80_0000);
    assert(mul_spec(0x400d_79a0, 0x3a83_1b00) == 0x3b10_e851);
    assert(0x90_e851 * 0x1_0000_0000_0000_0000 == 0x1_21d0_a200_0000_0000 * 0x80_0000 + 0x0);
    lemma_quotient_known(0x3b10_e851, 0x3c00_0000, 0x90_e851, 117, 0x80_0000, 119, 0x1_21d0_a200_0000_0000, 0x0, 66, 0x2_0000_0000_0000_0000, 0x400_0000_0000);
    assert(div_spec(0x3b10_e851, 0x3c00_0000) == 0x3e90_e851);
    assert(0xf8_7167 * 0x100 + 0x90_e851 * 0x1 == 0xf902_4f51);
    lemma_sum_known(0x42f8_7167, 0x3e90_e851, false, 0xf8_7167, 132, 0x90_e851, 124, 0x100, 0x1, 0xf902_4f51, 32, 0x8000_0000, 0x100);
    assert(add_spec(0x42f8_7167, 0x3e90_e851) == 0x42f9_024f);
    lemma_whole_known(0x42f9_024f, 0xf9_024f, 132, 0x2_0000);
}

/// Code 125.
proof fn lemma_code_125()
    ensures
        chord_code(0x3e52_0029, 0x3e4d_5e8d, 0x3e55_5e8d, 0x42f8_7167, 0x42fc_dd34) == 125,
{
    reveal(chord_code);
    lemma2_to64();
    lemma2_to64_rest();
    lemma_high_powers();
    assert(0xd5_5e8d * 0x1 - 0xcd_5e8d * 0x1 == 0x8_0000);
    lemma_sum_known(0x3e55_5e8d, 0x3e4d_5e8d, true, 0xd5_5e8d, 123, 0xcd_5e8d, 123, 0x1, 0x1, 0x8_0000, 20, 0x8_0000, 0x10);
    assert(sub_spec(0x3e55_5e8d, 0x3e4d_5e8d) == 0x3c00_0000);
    assert(0xd2_0029 * 0x1 - 0xcd_5e8d * 0x1 == 0x4_a19c);
    lemma_sum_known(0x3e52_0029, 0x3e4d_5e8d, true, 0xd2_0029, 123, 0xcd_5e8d, 123, 0x1, 0x1, 0x4_a19c, 19, 0x4_0000, 0x20);
    assert(sub_spec(0x3e52_0029, 0x3e4d_5e8d) == 0x3b94_3380);
    assert(0xfc_dd34 * 0x1 - 0xf8_7167 * 0x1 == 0x4_6bcd);
    lemma_sum_known(0x42fc_dd34, 0x42f8_7167, true, 0xfc_dd34, 132, 0xf8_7167, 132, 0x1, 0x1, 0x4_6bcd, 19, 0x4_0000, 0x20);
    assert(sub_spec(0x42fc_dd34, 0x42f8_7167) == 0x400d_79a0);
    assert(0x8d_79a0 * 0x94_3380 == 0x51e6_c677_b000);
    lemma_product_known(0x400d_79a0, 0x3b94_3380, 0x8d_79a0, 127, 0x94_3380, 118, 0x51e6_c677_b000, 47, 0x4000_0000_0000, 0x80_0000);
    assert(mul_spec(0x400d_79a0, 0x3b94_3380) == 0x3c23_cd8d);
    assert(0xa3_cd8d * 0x1_0000_0000_0000_0000 == 0x1_479b_1a00_0000_0000 * 0x80_0000 + 0x0);
    lemma_quotient_known(0x3c23_cd8d, 0x3c00_0000, 0xa3_cd8d, 119, 0x80_0000, 119, 0x1_479b_1a00_0000_0000, 0x0, 66, 0x2_0000_0000_0000_0000, 0x400_0000_0000);
    assert(div_spec(0x3c23_cd8d, 0x3c00_0000) == 0x3fa3_cd8d);
    assert(0xf8_7167 * 0x40 + 0xa3_cd8d * 0x1 == 0x3ec0_274d);
    lemma_sum_known(0x42f8_7167, 0x3fa3_cd8d, false, 0xf8_7167, 132, 0xa3_cd8d, 126, 0x40, 0x1, 0x3ec0_274d, 30, 0x2000_0000, 0x40);
    assert(add_spec(0x42f8_7167, 0x3fa3_cd8d) == 0x42fb_009d);
    lemma_whole_known(0x42fb_009d, 0xfb_009d, 132, 0x2_0000);
}

/// Code 126.
proof fn lemma_code_126()
    ensures
        chord_code(0x3e55_a4e7, 0x3e55_5e8d, 0x3e5d_5e8d, 0x42fc_dd34, 0x4300_9843) == 126,
{
    reveal(chord_code);
    lemma2_to64();
    lemma2_to64_rest();
    lemma_high_powers();
    assert(0xdd_5e8d * 0x1 - 0xd5_5e8d * 0x1 == 0x8_0000);
    lemma_sum_known(0x3e5d_5e8d, 0x3e55_5e8d, true, 0xdd_5e8d, 123, 0xd5_5e8d, 123, 0x1, 0x1, 0x8_0000, 20, 0x8_0000, 0x10);
    assert(sub_spec(0x3e5d_5e8d, 0x3e55_5e8d) == 0x3c00_0000);
    assert(0xd5_a4e7 * 0x1 - 0xd5_5e8d * 0x1 == 0x465a);
    lemma_sum_known(0x3e55_a4e7, 0x3e55_5e8d, true, 0xd5_a4e7, 123, 0xd5_5e8d, 123, 0x1, 0x1, 0x465a, 15, 0x4000, 0x200);
    assert(sub_spec(0x3e55_a4e7, 0x3e55_5e8d) == 0x398c_b400);
    assert(0x80_9843 * 0x2 - 0xfc_dd34 * 0x1 == 0x4_5352);
    lemma_sum_known(0x4300_9843, 0x42fc_dd34, true, 0x80_9843, 133, 0xfc_dd34, 132, 0x2, 0x1, 0x4_5352, 19, 0x4_0000, 0x20);
    assert(sub_spec(0x4300_9843, 0x42fc_dd34) == 0x400a_6a40);
    assert(0x8a_6a40 * 0x8c_b400 == 0x4c13_6db5_0000);
    lemma_product_known(0x400a_6a40, 0x398c_b400, 0x8a_6a40, 127, 0x8c_b400, 114, 0x4c13_6db5_0000, 47, 0x4000_0000_0000, 0x80_0000);
    assert(mul_spec(0x400a_6a40, 0x398c_b400) == 0x3a18_26db);
    assert(0x98_26db * 0x1_0000_0000_0000_0000 == 0x1_304d_b600_0000_0000 * 0x80_0000 + 0x0);
    lemma_quotient_known(0x3a18_26db, 0x3c00_0000, 0x98_26db, 115, 0x80_0000, 119, 0x1_304d_b600_0000_0000, 0x0, 66, 0x2_0000_0000_0000_0000, 0x400_0000_0000);
    assert(div_spec(0x3a18_26db, 0x3c00_0000) == 0x3d98_26db);
    assert(0xfc_dd34 * 0x400 + 0x98_26db * 0x1 == 0x3_f40c_f6db);
    lemma_sum_known(0x42fc_dd34, 0x3d98_26db, false, 0xfc_dd34, 132, 0x98_26db, 122, 0x400, 0x1, 0x3_f40c_f6db, 34, 0x2_0000_0000, 0x400);
    assert(add_spec(0x42fc_dd34, 0x3d98_26db) == 0x42fd_033e);
    lemma_whole_known(0x42fd_033e, 0xfd_033e, 132, 0x2_0000);
}

/// Code 127.
proof fn lemma_code_127()
    ensures
        chord_code(0x3e59_5305, 0x3e55_5e8d, 0x3e5d_5e8d, 0x42fc_dd34, 0x4300_9843) == 127,
{
    reveal(chord_code);
    lemma2_to64();
    lemma2_to64_rest();
    lemma_high_powers();
    assert(0xdd_5e8d * 0x1 - 0xd5_5e8d * 0x1 == 0x8_0000);
    lemma_sum_known(0x3e5d_5e8d, 0x3e55_5e8d, true, 0xdd_5e8d, 123, 0xd5_5e8d, 123, 0x1, 0x1, 0x8_0000, 20, 0x8_0000, 0x10);
    assert(sub_spec(0x3e5d_5e8d, 0x3e55_5e8d) == 0x3c00_0000);
    assert(0xd9_5305 * 0x1 - 0xd5_5e8d * 0x1 == 0x3_f478);
    lemma_sum_known(0x3e59_5305, 0x3e55_5e8d, true, 0xd9_5305, 123, 0xd5_5e8d, 123, 0x1, 0x1, 0x3_f478, 18, 0x2_0000, 0x40);
    assert(sub_spec(0x3e59_5305, 0x3e55_5e8d) == 0x3b7d_1e00);
    assert(0x80_9843 * 0x2 - 0xfc_dd34 * 0x1 == 0x4_5352);
    lemma_sum_known(0x4300_9843, 0x42fc_dd34, true, 0x80_9843, 133, 0xfc_dd34, 132, 0x2, 0x1, 0x4_5352, 19, 0x4_0000, 0x20);
    assert(sub_spec(0x4300_9843, 0x42fc_dd34) == 0x400a_6a40);
    assert(0x8a_6a40 * 0xfd_1e00 == 0x88db_39b3_8000);
    lemma_product_known(0x400a_6a40, 0x3b7d_1e00, 0x8a_6a40, 127, 0xfd_1e00, 117, 0x88db_39b3_8000, 48, 0x8000_0000_0000, 0x100_0000);
    assert(mul_spec(0x400a_6a40, 0x3b7d_1e00) == 0x3c08_db3a);
    assert(0x88_db3a * 0x1_0000_0000_0000_0000 == 0x1_11b6_7400_0000_0000 * 0x80_0000 + 0x0);
    lemma_quotient_known(0x3c08_db3a, 0x3c00_0000, 0x88_db3a, 119, 0x80_0000, 119, 0x1_11b6_7400_0000_0000, 0x0, 66, 0x2_0000_0000_0000_0000, 0x400_0000_0000);
    assert(div_spec(0x3c08_db3a, 0x3c00_0000) == 0x3f88_db3a);
    assert(0xfc_dd34 * 0x40 + 0x88_db3a * 0x1 == 0x3fc0_283a);
    lemma_sum_known(0x42fc_dd34, 0x3f88_db3a, false, 0xfc_dd34, 132, 0x88_db3a, 126, 0x40, 0x1, 0x3fc0_283a, 30, 0x2000_0000, 0x40);
    assert(add_spec(0x42fc_dd34, 0x3f88_db3a) == 0x42ff_00a1);
    lemma_whole_known(0x42ff_00a1, 0xff_00a1, 132, 0x2_0000);
}

/// Code 128.
proof fn lemma_code_128()
    ensures
        chord_code(0x3e5d_0a89, 0x3e55_5e8d, 0x3e5d_5e8d, 0x42fc_dd34, 0x4300_9843) == 128,
{
    reveal(chord_code);
    lemma2_to64();
    lemma2_to64_rest();
    lemma_high_powers();
    assert(0xdd_5e8d * 0x1 - 0xd5_5e8d * 0x1 == 0x8_0000);
    lemma_sum_known(0x3e5d_5e8d, 0x3e55_5e8d, true, 0xdd_5e8d, 123, 0xd5_5e8d, 123, 0x1, 0x1, 0x8_0000, 20, 0x8_0000, 0x10);
    assert(sub_spec(0x3e5d_5e8d, 0x3e55_5e8d) == 0x3c00_0000);
    assert(0xdd_0a89 * 0x1 - 0xd5_5e8d * 0x1 == 0x7_abfc);
    lemma_sum_known(0x3e5d_0a89, 0x3e55_5e8d, true, 0xdd_0a89, 123, 0xd5_5e8d, 123, 0x1, 0x1, 0x7_abfc, 19, 0x4_0000, 0x20);
    assert(sub_spec(0x3e5d_0a89, 0x3e55_5e8d) == 0x3bf5_7f80);
    assert(0x80_9843 * 0x2 - 0xfc_dd34 * 0x1 == 0x4_5352);
    lemma_sum_known(0x4300_9843, 0x42fc_dd34, true, 0x80_9843, 133, 0xfc_dd34, 132, 0x2, 0x1, 0x4_5352, 19, 0x4_0000, 0x20);
    assert(sub_spec(0x4300_9843, 0x42fc_dd34) == 0x400a_6a40);
    assert(0x8a_6a40 * 0xf5_7f80 == 0x84bc_9f2a_e000);
    lemma_product_known(0x400a_6a40, 0x3bf5_7f80, 0x8a_6a40, 127, 0xf5_7f80, 118, 0x84bc_9f2a_e000, 48, 0x8000_0000_0000, 0x100_0000);
    assert(mul_spec(0x400a_6a40, 0x3bf5_7f80) == 0x3c84_bc9f);
    assert(0x84_bc9f * 0x1_0000_0000_0000_0000 == 0x1_0979_3e00_0000_0000 * 0x80_0000 + 0x0);
    lemma_quotient_known(0x3c84_bc9f, 0x3c00_0000, 0x84_bc9f, 120, 0x80_0000, 119, 0x1_0979_3e00_0000_0000, 0x0, 66, 0x2_0000_0000_0000_0000, 0x400_0000_0000);
    assert(div_spec(0x3c84_bc9f, 0x3c00_0000) == 0x4004_bc9f);
    assert(0xfc_dd34 * 0x20 + 0x84_bc9f * 0x1 == 0x2020_631f);
    lemma_sum_known(0x42fc_dd34, 0x4004_bc9f, false, 0xfc_dd34, 132, 0x84_bc9f, 127, 0x20, 0x1, 0x2020_631f, 30, 0x2000_0000, 0x40);
    assert(add_spec(0x42fc_dd34, 0x4004_bc9f) == 0x4300_818c);
    lemma_whole_known(0x4300_818c, 0x80_818c, 133, 0x1_0000);
}

/// Code 129.
proof fn lemma_code_129()
    ensures
        chord_code(0x3e60_cb7a, 0x3e5d_5e8d, 0x3e65_5e8d, 0x4300_9843, 0x4302_b723) == 129,
{
    reveal(chord_code);
    lemma2_to64();
    lemma2_to64_rest();
    lemma_high_powers();
    assert(0xe5_5e8d * 0x1 - 0xdd_5e8d * 0x1 == 0x8_0000);
    lemma_sum_known(0x3e65_5e8d, 0x3e5d_5e8d, true, 0xe5_5e8d, 123, 0xdd_5e8d, 123, 0x1, 0x1, 0x8_0000, 20, 0x8_0000, 0x10);
    assert(sub_spec(0x3e65_5e8d, 0x3e5d_5e8d) == 0x3c00_0000);
    assert(0xe0_cb7a * 0x1 - 0xdd_5e8d * 0x1 == 0x3_6ced);
    lemma_sum_known(0x3e60_cb7a, 0x3e5d_5e8d, true, 0xe0_cb7a, 123, 0xdd_5e8d, 123, 0x1, 0x1, 0x3_6ced, 18, 0x2_0000, 0x40);
    assert(sub_spec(0x3e60_cb7a, 0x3e5d_5e8d) == 0x3b5b_3b40);
    assert(0x82_b723 * 0x1 - 0x80_9843 * 0x1 == 0x2_1ee0);
    lemma_sum_known(0x4302_b723, 0x4300_9843, true, 0x82_b723, 133, 0x80_9843, 133, 0x1, 0x1, 0x2_1ee0, 18, 0x2_0000, 0x40);
    assert(sub_spec(0x4302_b723, 0x4300_9843) == 0x4007_b800);
    assert(0x87_b800 * 0xdb_3b40 == 0x7439_d156_0000);
    lemma_product_known(0x4007_b800, 0x3b5b_3b40, 0x87_b800, 127, 0xdb_3b40, 117, 0x7439_d156_0000, 47, 0x4000_0000_0000, 0x80_0000);
    assert(mul_spec(0x4007_b800, 0x3b5b_3b40) == 0x3be8_73a3);
    assert(0xe8_73a3 * 0x1_0000_0000_0000_0000 == 0x1_d0e7_4600_0000_0000 * 0x80_0000 + 0x0);
    lemma_quotient_known(0x3be8_73a3, 0x3c00_0000, 0xe8_73a3, 118, 0x80_0000, 119, 0x1_d0e7_4600_0000_0000, 0x0, 66, 0x2_0000_0000_0000_0000, 0x400_0000_0000);
    assert(div_spec(0x3be8_73a3, 0x3c00_0000) == 0x3f68_73a3);
    assert(0x80_9843 * 0x100 + 0xe8_73a3 * 0x1 == 0x8180_b6a3);
    lemma_sum_known(0x4300_9843, 0x3f68_73a3, false, 0x80_9843, 133, 0xe8_73a3, 125, 0x100, 0x1, 0x8180_b6a3, 32, 0x8000_0000, 0x100);
    assert(add_spec(0x4300_9843, 0x3f68_73a3) == 0x4301_80b7);
    lemma_whole_known(0x4301_80b7, 0x81_80b7, 133, 0x1_0000);
}

/// Code 130.
proof fn lemma_code_130()
    ensures
        chord_code(0x3e64_95df, 0x3e5d_5e8d, 0x3e65_5e8d, 0x4300_9843, 0x4302_b723) == 130,
{
    reveal(chord_code);
    lemma2_to64();
    lemma2_to64_rest();
    lemma_high_powers();
    assert(0xe5_5e8d * 0x1 - 0xdd_5e8d * 0x1 == 0x8_0000);
    lemma_sum_known(0x3e65_5e8d, 0x3e5d_5e8d, true, 0xe5_5e8d, 123, 0xdd_5e8d, 123, 0x1, 0x1, 0x8_0000, 20, 0x8_0000, 0x10);
    assert(sub_spec(0x3e65_5e8d, 0x3e5d_5e8d) == 0x3c00_0000);
    assert(0xe4_95df * 0x1 - 0xdd_5e8d * 0x1 == 0x7_3752);
    lemma_sum_known(0x3e64_95df, 0x3e5d_5e8d, true, 0xe4_95df, 123, 0xdd_5e8d, 123, 0x1, 0x1, 0x7_3752, 19, 0x4_0000, 0x20);
    assert(sub_spec(0x3e64_95df, 0x3e5d_5e8d) == 0x3be6_ea40);
    assert(0x82_b723 * 0x1 - 0x80_9843 * 0x1 == 0x2_1ee0);
    lemma_sum_known(0x4302_b723, 0x4300_9843, true, 0x82_b723, 133, 0x80_9843, 133, 0x1, 0x1, 0x2_1ee0, 18, 0x2_0000, 0x40);
    assert(sub_spec(0x4302_b723, 0x4300_9843) == 0x4007_b800);
    assert(0x87_b800 * 0xe6_ea40 == 0x7a6b_801e_0000);
    lemma_product_known(0x4007_b800, 0x3be6_ea40, 0x87_b800, 127, 0xe6_ea40, 118, 0x7a6b_801e_0000, 47, 0x4000_0000_0000, 0x80_0000);
    assert(mul_spec(0x4007_b800, 0x3be6_ea40) == 0x3c74_d700);
    assert(0xf4_d700 * 0x1_0000_0000_0000_0000 == 0x1_e9ae_0000_0000_0000 * 0x80_0000 + 0x0);
    lemma_quotient_known(0x3c74_d700, 0x3c00_0000, 0xf4_d700, 119, 0x80_0000, 119, 0x1_e9ae_0000_0000_0000, 0x0, 66, 0x2_0000_0000_0000_0000, 0x400_0000_0000);
    assert(div_spec(0x3c74_d700, 0x3c00_0000) == 0x3ff4_d700);
    assert(0x80_9843 * 0x80 + 0xf4_d700 * 0x1 == 0x4140_f880);
    lemma_sum_known(0x4300_9843, 0x3ff4_d700, false, 0x80_9843, 133, 0xf4_d700, 126, 0x80, 0x1, 0x4140_f880, 31, 0x4000_0000, 0x80);
    assert(add_spec(0x4300_9843, 0x3ff4_d700) == 0x4302_81f1);
    lemma_whole_known(0x4302_81f1, 0x82_81f1, 133, 0x1_0000);
}

/// Code 131.
proof fn lemma_code_131()
    ensures
        chord_code(0x3e68_69be, 0x3e65_5e8d, 0x3e6d_5e8d, 0x4302_b723, 0x4304_ca44) == 131,
{
    reveal(chord_code);
    lemma2_to64();
    lemma2_to64_rest();
    lemma_high_powers();
    assert(0xed_5e8d * 0x1 - 0xe5_5e8d * 0x1 == 0x8_0000);
    lemma_sum_known(0x3e6d_5e8d, 0x3e65_5e8d, true, 0xed_5e8d, 123, 0xe5_5e8d, 123, 0x1, 0x1, 0x8_0000, 20, 0x8_0000, 0x10);
    assert(sub_spec(0x3e6d_5e8d, 0x3e65_5e8d) == 0x3c00_0000);
    assert(0xe8_69be * 0x1 - 0xe5_5e8d * 0x1 == 0x3_0b31);
    lemma_sum_known(0x3e68_69be, 0x3e65_5e8d, true, 0xe8_69be, 123, 0xe5_5e8d, 123, 0x1, 0x1, 0x3_0b31, 18, 0x2_0000, 0x40);
    assert(sub_spec(0x3e68_69be, 0x3e65_5e8d) == 0x3b42_cc40);
    assert(0x84_ca44 * 0x1 - 0x82_b723 * 0x1 == 0x2_1321);
    lemma_sum_known(0x4304_ca44, 0x4302_b723, true, 0x84_ca44, 133, 0x82_b723, 133, 0x1, 0x1, 0x2_1321, 18, 0x2_0000, 0x40);
    assert(sub_spec(0x4304_ca44, 0x4302_b723) == 0x4004_c840);
    assert(0x84_c840 * 0xc2_cc40 == 0x6509_b145_1000);
    lemma_product_known(0x4004_c840, 0x3b42_cc40, 0x84_c840, 127, 0xc2_cc40, 117, 0x6509_b145_1000, 47, 0x4000_0000_0000, 0x80_0000);
    assert(mul_spec(0x4004_c840, 0x3b42_cc40) == 0x3bca_1363);
    assert(0xca_1363 * 0x1_0000_0000_0000_0000 == 0x1_9426_c600_0000_0000 * 0x80_0000 + 0x0);
    lemma_quotient_known(0x3bca_1363, 0x3c00_0000, 0xca_1363, 118, 0x80_0000, 119, 0x1_9426_c600_0000_0000, 0x0, 66, 0x2_0000_0000_0000_0000, 0x400_0000_0000);
    assert(div_spec(0x3bca_1363, 0x3c00_0000) == 0x3f4a_1363);
    assert(0x82_b723 * 0x100 + 0xca_1363 * 0x1 == 0x8381_3663);
    lemma_sum_known(0x4302_b723, 0x3f4a_1363, false, 0x82_b723, 133, 0xca_1363, 125, 0x100, 0x1, 0x8381_3663, 32, 0x8000_0000, 0x100);
    assert(add_spec(0x4302_b723, 0x3f4a_1363) == 0x4303_8136);
    lemma_whole_known(0x4303_8136, 0x83_8136, 133, 0x1_0000);
}

/// Code 132.
proof fn lemma_code_132()
    ensures
        chord_code(0x3e6c_471f, 0x3e65_5e8d, 0x3e6d_5e8d, 0x4302_b723, 0x4304_ca44) == 132,
{
    reveal(chord_code);
    lemma2_to64();
    lemma2_to64_rest();
    lemma_high_powers();
    assert(0xed_5e8d * 0x1 - 0xe5_5e8d * 0x1 == 0x8_0000);
    lemma_sum_known(0x3e6d_5e8d, 0x3e65_5e8d, true, 0xed_5e8d, 123, 0xe5_5e8d, 123, 0x1, 0x1, 0x8_0000, 20, 0x8_0000, 0x10);
    assert(sub_spec(0x3e6d_5e8d, 0x3e65_5e8d) == 0x3c00_0000);
    assert(0xec_471f * 0x1 - 0xe5_5e8d * 0x1 == 0x6_e892);
    lemma_sum_known(0x3e6c_471f, 0x3e65_5e8d, true, 0xec_471f, 123, 0xe5_5e8d, 123, 0x1, 0x1, 0x6_e892, 19, 0x4_0000, 0x20);
    assert(sub_spec(0x3e6c_471f, 0x3e65_5e8d) == 0x3bdd_1240);
    assert(0x84_ca44 * 0x1 - 0x82_b723 * 0x1 == 0x2_1321);
    lemma_sum_known(0x4304_ca44, 0x4302_b723, true, 0x84_ca44, 133, 0x82_b723, 133, 0x1, 0x1, 0x2_1321, 18, 0x2_0000, 0x40);
    assert(sub_spec(0x4304_ca44, 0x4302_b723) == 0x4004_c840);
    assert(0x84_c840 * 0xdd_1240 == 0x72aa_5686_9000);
    lemma_product_known(0x4004_c840, 0x3bdd_1240, 0x84_c840, 127, 0xdd_1240, 118, 0x72aa_5686_9000, 47, 0x4000_0000_0000, 0x80_0000);
    assert(mul_spec(0x4004_c840, 0x3bdd_1240) == 0x3c65_54ad);
    assert(0xe5_54ad * 0x1_0000_0000_0000_0000 == 0x1_caa9_5a00_0000_0000 * 0x80_0000 + 0x0);
    lemma_quotient_known(0x3c65_54ad, 0x3c00_0000, 0xe5_54ad, 119, 0x80_0000, 119, 0x1_caa9_5a00_0000_0000, 0x0, 66, 0x2_0000_0000_0000_0000, 0x400_0000_0000);
    assert(div_spec(0x3c65_54ad, 0x3c00_0000) == 0x3fe5_54ad);
    assert(0x82_b723 * 0x80 + 0xe5_54ad * 0x1 == 0x4240_e62d);
    lemma_sum_known(0x4302_b723, 0x3fe5_54ad, false, 0x82_b723, 133, 0xe5_54ad, 126, 0x80, 0x1, 0x4240_e62d, 31, 0x4000_0000, 0x80);
    assert(add_spec(0x4302_b723, 0x3fe5_54ad) == 0x4304_81cc);
    lemma_whole_known(0x4304_81cc, 0x84_81cc, 133, 0x1_0000);
}

/// Code 133.
proof fn lemma_code_133()
    ensures
        chord_code(0x3e70_2e07, 0x3e6d_5e8d, 0x3e75_5e8d, 0x4304_ca44, 0x4306_d2b9) == 133,
{
    reveal(chord_code);
    lemma2_to64();
    lemma2_to64_rest();
    lemma_high_powers();
    assert(0xf5_5e8d * 0x1 - 0xed_5e8d * 0x1 == 0x8_0000);
    lemma_sum_known(0x3e75_5e8d, 0x3e6d_5e8d, true, 0xf5_5e8d, 123, 0xed_5e8d, 123, 0x1, 0x1, 0x8_0000, 20, 0x8_0000, 0x10);
    assert(sub_spec(0x3e75_5e8d, 0x3e6d_5e8d) == 0x3c00_0000);
    assert(0xf0_2e07 * 0x1 - 0xed_5e8d * 0x1 == 0x2_cf7a);
    lemma_sum_known(0x3e70_2e07, 0x3e6d_5e8d, true, 0xf0_2e07, 123, 0xed_5e8d, 123, 0x1, 0x1, 0x2_cf7a, 18, 0x2_0000, 0x40);
    assert(sub_spec(0x3e70_2e07, 0x3e6d_5e8d) == 0x3b33_de80);
    assert(0x86_d2b9 * 0x1 - 0x84_ca44 * 0x1 == 0x2_0875);
    lemma_sum_known(0x4306_d2b9, 0x4304_ca44, true, 0x86_d2b9, 133, 0x84_ca44, 133, 0x1, 0x1, 0x2_0875, 18, 0x2_0000, 0x40);
    assert(sub_spec(0x4306_d2b9, 0x4304_ca44) == 0x4002_1d40);
    assert(0x82_1d40 * 0xb3_de80 == 0x5b6b_8a2c_2000);
    lemma_product_known(0x4002_1d40, 0x3b33_de80, 0x82_1d40, 127, 0xb3_de80, 117, 0x5b6b_8a2c_2000, 47, 0x4000_0000_0000, 0x80_0000);
    assert(mul_spec(0x4002_1d40, 0x3b33_de80) == 0x3bb6_d714);
    assert(0xb6_d714 * 0x1_0000_0000_0000_0000 == 0x1_6dae_2800_0000_0000 * 0x80_0000 + 0x0);
    lemma_quotient_known(0x3bb6_d714, 0x3c00_0000, 0xb6_d714, 118, 0x80_0000, 119, 0x1_6dae_2800_0000_0000, 0x0, 66, 0x2_0000_0000_0000_0000, 0x400_0000_0000);
    assert(div_spec(0x3bb6_d714, 0x3c00_0000) == 0x3f36_d714);
    assert(0x84_ca44 * 0x100 + 0xb6_d714 * 0x1 == 0x8581_1b14);
    lemma_sum_known(0x4304_ca44, 0x3f36_d714, false, 0x84_ca44, 133, 0xb6_d714, 125, 0x100, 0x1, 0x8581_1b14, 32, 0x8000_0000, 0x100);
    assert(add_spec(0x4304_ca44, 0x3f36_d714) == 0x4305_811b);
    lemma_whole_known(0x4305_811b, 0x85_811b, 133, 0x1_0000);
}

/// Code 134.
proof fn lemma_code_134()
    ensures
        chord_code(0x3e74_1e7e, 0x3e6d_5e8d, 0x3e75_5e8d, 0x4304_ca44, 0x4306_d2b9) == 134,
{
    reveal(chord_code);
    lemma2_to64();
    lemma2_to64_rest();
    lemma_high_powers();
    assert(0xf5_5e8d * 0x1 - 0xed_5e8d * 0x1 == 0x8_0000);
    lemma_sum_known(0x3e75_5e8d, 0x3e6d_5e8d, true, 0xf5_5e8d, 123, 0xed_5e8d, 123, 0x1, 0x1, 0x8_0000, 20, 0x8_0000, 0x10);
    assert(sub_spec(0x3e75_5e8d, 0x3e6d_5e8d) == 0x3c00_0000);
    assert(0xf4_1e7e * 0x1 - 0xed_5e8d * 0x1 == 0x6_bff1);
    lemma_sum_known(0x3e74_1e7e, 0x3e6d_5e8d, true, 0xf4_1e7e, 123, 0xed_5e8d, 123, 0x1, 0x1, 0x6_bff1, 19, 0x4_0000, 0x20);
    assert(sub_spec(0x3e74_1e7e, 0x3e6d_5e8d) == 0x3bd7_fe20);
    assert(0x86_d2b9 * 0x1 - 0x84_ca44 * 0x1 == 0x2_0875);
    lemma_sum_known(0x4306_d2b9, 0x4304_ca44, true, 0x86_d2b9, 133, 0x84_ca44, 133, 0x1, 0x1, 0x2_0875, 18, 0x2_0000, 0x40);
    assert(sub_spec(0x4306_d2b9, 0x4304_ca44) == 0x4002_1d40);
    assert(0x82_1d40 * 0xd7_fe20 == 0x6dc7_ba09_2800);
    lemma_product_known(0x4002_1d40, 0x3bd7_fe20, 0x82_1d40, 127, 0xd7_fe20, 118, 0x6dc7_ba09_2800, 47, 0x4000_0000_0000, 0x80_0000);
    assert(mul_spec(0x4002_1d40, 0x3bd7_fe20) == 0x3c5b_8f74);
    assert(0xdb_8f74 * 0x1_0000_0000_0000_0000 == 0x1_b71e_e800_0000_0000 * 0x80_0000 + 0x0);
    lemma_quotient_known(0x3c5b_8f74, 0x3c00_0000, 0xdb_8f74, 119, 0x80_0000, 119, 0x1_b71e_e800_0000_0000, 0x0, 66, 0x2_0000_0000_0000_0000, 0x400_0000_0000);
    assert(div_spec(0x3c5b_8f74, 0x3c00_0000) == 0x3fdb_8f74);
    assert(0x84_ca44 * 0x80 + 0xdb_8f74 * 0x1 == 0x4340_b174);
    lemma_sum_known(0x4304_ca44, 0x3fdb_8f74, false, 0x84_ca44, 133, 0xdb_8f74, 126, 0x80, 0x1, 0x4340_b174, 31, 0x4000_0000, 0x80);
    assert(add_spec(0x4304_ca44, 0x3fdb_8f74) == 0x4306_8163);
    lemma_whole_known(0x4306_8163, 0x86_8163, 133, 0x1_0000);
}

/// Code 135.
proof fn lemma_code_135()
    ensures
        chord_code(0x3e78_188b, 0x3e75_5e8d, 0x3e7d_5e8d, 0x4306_d2b9, 0x4308_d183) == 135,
{
    reveal(chord_code);
    lemma2_to64();
    lemma2_to64_rest();
    lemma_high_powers();
    assert(0xfd_5e8d * 0x1 - 0xf5_5e8d * 0x1 == 0x8_0000);
    lemma_sum_known(0x3e7d_5e8d, 0x3e75_5e8d, true, 0xfd_5e8d, 123, 0xf5_5e8d, 123, 0x1, 0x1, 0x8_0000, 20, 0x8_0000, 0x10);
    assert(sub_spec(0x3e7d_5e8d, 0x3e75_5e8d) == 0x3c00_0000);
    assert(0xf8_188b * 0x1 - 0xf5_5e8d * 0x1 == 0x2_b9fe);
    lemma_sum_known(0x3e78_188b, 0x3e75_5e8d, true, 0xf8_188b, 123, 0xf5_5e8d, 123, 0x1, 0x1, 0x2_b9fe, 18, 0x2_0000, 0x40);
    assert(sub_spec(0x3e78_188b, 0x3e75_5e8d) == 0x3b2e_7f80);
    assert(0x88_d183 * 0x1 - 0x86_d2b9 * 0x1 == 0x1_feca);
    lemma_sum_known(0x4308_d183, 0x4306_d2b9, true, 0x88_d183, 133, 0x86_d2b9, 133, 0x1, 0x1, 0x1_feca, 17, 0x1_0000, 0x80);
    assert(sub_spec(0x4308_d183, 0x4306_d2b9) == 0x3fff_6500);
    assert(0xff_6500 * 0xae_7f80 == 0xae15_d8cd_8000);
    lemma_product_known(0x3fff_6500, 0x3b2e_7f80, 0xff_6500, 126, 0xae_7f80, 117, 0xae15_d8cd_8000, 48, 0x8000_0000_0000, 0x100_0000);
    assert(mul_spec(0x3fff_6500, 0x3b2e_7f80) == 0x3bae_15d9);
    assert(0xae_15d9 * 0x1_0000_0000_0000_0000 == 0x1_5c2b_b200_0000_0000 * 0x80_0000 + 0x0);
    lemma_quotient_known(0x3bae_15d9, 0x3c00_0000, 0xae_15d9, 118, 0x80_0000, 119, 0x1_5c2b_b200_0000_0000, 0x0, 66, 0x2_0000_0000_0000_0000, 0x400_0000_0000);
    assert(div_spec(0x3bae_15d9, 0x3c00_0000) == 0x3f2e_15d9);
    assert(0x86_d2b9 * 0x100 + 0xae_15d9 * 0x1 == 0x8780_ced9);
    lemma_sum_known(0x4306_d2b9, 0x3f2e_15d9, false, 0x86_d2b9, 133, 0xae_15d9, 125, 0x100, 0x1, 0x8780_ced9, 32, 0x8000_0000, 0x100);
    assert(add_spec(0x4306_d2b9, 0x3f2e_15d9) == 0x4307_80cf);
    lemma_whole_known(0x4307_80cf, 0x87_80cf, 133, 0x1_0000);
}

/// Code 136.
proof fn lemma_code_136()
    ensures
        chord_code(0x3e7c_1c33, 0x3e75_5e8d, 0x3e7d_5e8d, 0x4306_d2b9, 0x4308_d183) == 136,
{
    reveal(chord_code);
    lemma2_to64();
    lemma2_to64_rest();
    lemma_high_powers();
    assert(0xfd_5e8d * 0x1 - 0xf5_5e8d * 0x1 == 0x8_0000);
    lemma_sum_known(0x3e7d_5e8d, 0x3e75_5e8d, true, 0xfd_5e8d, 123, 0xf5_5e8d, 123, 0x1, 0x1, 0x8_0000, 20, 0x8_0000, 0x10);
    assert(sub_spec(0x3e7d_5e8d, 0x3e75_5e8d) == 0x3c00_0000);
    assert(0xfc_1c33 * 0x1 - 0xf5_5e8d * 0x1 == 0x6_bda6);
    lemma_sum_known(0x3e7c_1c33, 0x3e75_5e8d, true, 0xfc_1c33, 123, 0xf5_5e8d, 123, 0x1, 0x1, 0x6_bda6, 19, 0x4_0000, 0x20);
    assert(sub_spec(0x3e7c_1c33, 0x3e75_5e8d) == 0x3bd7_b4c0);
    assert(0x88_d183 * 0x1 - 0x86_d2b9 * 0x1 == 0x1_feca);
    lemma_sum_known(0x4308_d183, 0x4306_d2b9, true, 0x88_d183, 133, 0x86_d2b9, 133, 0x1, 0x1, 0x1_feca, 17, 0x1_0000, 0x80);
    assert(sub_spec(0x4308_d183, 0x4306_d2b9) == 0x3fff_6500);
    assert(0xff_6500 * 0xd7_b4c0 == 0xd732_258f_c000);
    lemma_product_known(0x3fff_6500, 0x3bd7_b4c0, 0xff_6500, 126, 0xd7_b4c0, 118, 0xd732_258f_c000, 48, 0x8000_0000_0000, 0x100_0000);
    assert(mul_spec(0x3fff_6500, 0x3bd7_b4c0) == 0x3c57_3226);
    assert(0xd7_3226 * 0x1_0000_0000_0000_0000 == 0x1_ae64_4c00_0000_0000 * 0x80_0000 + 0x0);
    lemma_quotient_known(0x3c57_3226, 0x3c00_0000, 0xd7_3226, 119, 0x80_0000, 119, 0x1_ae64_4c00_0000_0000, 0x0, 66, 0x2_0000_0000_0000_0000, 0x400_0000_0000);
    assert(div_spec(0x3c57_3226, 0x3c00_0000) == 0x3fd7_3226);
    assert(0x86_d2b9 * 0x80 + 0xd7_3226 * 0x1 == 0x4440_8ea6);
    lemma_sum_known(0x4306_d2b9, 0x3fd7_3226, false, 0x86_d2b9, 133, 0xd7_3226, 126, 0x80, 0x1, 0x4440_8ea6, 31, 0x4000_0000, 0x80);
    assert(add_spec(0x4306_d2b9, 0x3fd7_3226) == 0x4308_811d);
    lemma_whole_known(0x4308_811d, 0x88_811d, 133, 0x1_0000);
}

/// Code 137.
proof fn lemma_code_137()
    ensures
        chord_code(0x3e80_14bf, 0x3e7d_5e8d, 0x3e85_5e8d, 0x4308_d183, 0x430c_1384) == 137,
{
    reveal(chord_code);
    lemma2_to64();
    lemma2_to64_rest();
    lemma_high_powers();
    assert(0x85_5e8d * 0x2 - 0xfd_5e8d * 0x1 == 0xd_5e8d);
    lemma_sum_known(0x3e85_5e8d, 0x3e7d_5e8d, true, 0x85_5e8d, 124, 0xfd_5e8d, 123, 0x2, 0x1, 0xd_5e8d, 20, 0x8_0000, 0x10);
    assert(sub_spec(0x3e85_5e8d, 0x3e7d_5e8d) == 0x3c55_e8d0);
    assert(0x80_14bf * 0x2 - 0xfd_5e8d * 0x1 == 0x2_caf1);
    lemma_sum_known(0x3e80_14bf, 0x3e7d_5e8d, true, 0x80_14bf, 124, 0xfd_5e8d, 123, 0x2, 0x1, 0x2_caf1, 18, 0x2_0000, 0x40);
    assert(sub_spec(0x3e80_14bf, 0x3e7d_5e8d) == 0x3b32_bc40);
    assert(0x8c_1384 * 0x1 - 0x88_d183 * 0x1 == 0x3_4201);
    lemma_sum_known(0x430c_1384, 0x4308_d183, true, 0x8c_1384, 133, 0x88_d183, 133, 0x1, 0x1, 0x3_4201, 18, 0x2_0000, 0x40);
    assert(sub_spec(0x430c_1384, 0x4308_d183) == 0x4050_8040);
    assert(0xd0_8040 * 0xb2_bc40 == 0x9192_7ecf_1000);
    lemma_product_known(0x4050_8040, 0x3b32_bc40, 0xd0_8040, 127, 0xb2_bc40, 117, 0x9192_7ecf_1000, 48, 0x8000_0000_0000, 0x100_0000);
    assert(mul_spec(0x4050_8040, 0x3b32_bc40) == 0x3c11_927f);
    assert(0x91_927f * 0x1_0000_0000_0000_0000 == 0xae37_5bae_320d_5938 * 0xd5_e8d0 + 0xb4_c280);
    lemma_quotient_known(0x3c11_927f, 0x3c55_e8d0, 0x91_927f, 119, 0xd5_e8d0, 119, 0xae37_5bae_320d_5938, 0xb4_c280, 65, 0x1_0000_0000_0000_0000, 0x200_0000_0000);
    assert(div_spec(0x3c11_927f, 0x3c55_e8d0) == 0x3f2e_375c);
    assert(0x88_d183 * 0x100 + 0xae_375c * 0x1 == 0x897f_ba5c);
    lemma_sum_known(0x4308_d183, 0x3f2e_375c, false, 0x88_d183, 133, 0xae_375c, 125, 0x100, 0x1, 0x897f_ba5c, 32, 0x8000_0000, 0x100);
    assert(add_spec(0x4308_d183, 0x3f2e_375c) == 0x4309_7fba);
    lemma_whole_known(0x4309_7fba, 0x89_7fba, 133, 0x1_0000);
}

/// Code 138.
proof fn lemma_code_138()
    ensures
        chord_code(0x3e82_2039, 0x3e7d_5e8d, 0x3e85_5e8d, 0x4308_d183, 0x430c_1384) == 138,
{
    reveal(chord_code);
    lemma2_to64();
    lemma2_to64_rest();
    lemma_high_powers();
    assert(0x85_5e8d * 0x2 - 0xfd_5e8d * 0x1 == 0xd_5e8d);
    lemma_sum_known(0x3e85_5e8d, 0x3e7d_5e8d, true, 0x85_5e8d, 124, 0xfd_5e8d, 123, 0x2, 0x1, 0xd_5e8d, 20, 0x8_0000, 0x10);
    assert(sub_spec(0x3e85_5e8d, 0x3e7d_5e8d) == 0x3c55_e8d0);
    assert(0x82_2039 * 0x2 - 0xfd_5e8d * 0x1 == 0x6_e1e5);
    lemma_sum_known(0x3e82_2039, 0x3e7d_5e8d, true, 0x82_2039, 124, 0xfd_5e8d, 123, 0x2, 0x1, 0x6_e1e5, 19, 0x4_0000, 0x20);
    assert(sub_spec(0x3e82_2039, 0x3e7d_5e8d) == 0x3bdc_3ca0);
    assert(0x8c_1384 * 0x1 - 0x88_d183 * 0x1 == 0x3_4201);
    lemma_sum_known(0x430c_1384, 0x4308_d183, true, 0x8c_1384, 133, 0x88_d183, 133, 0x1, 0x1, 0x3_4201, 18, 0x2_0000, 0x40);
    assert(sub_spec(0x430c_1384, 0x4308_d183) == 0x4050_8040);
    assert(0xd0_8040 * 0xdc_3ca0 == 0xb35f_975f_2800);
    lemma_product_known(0x4050_8040, 0x3bdc_3ca0, 0xd0_8040, 127, 0xdc_3ca0, 118, 0xb35f_975f_2800, 48, 0x8000_0000_0000, 0x100_0000);
    assert(mul_spec(0x4050_8040, 0x3bdc_3ca0) == 0x3cb3_5f97);
    assert(0xb3_5f97 * 0x1_0000_0000_0000_0000 == 0xd6ab_1b10_2a7f_d1e3 * 0xd5_e8d0 + 0x10_bf90);
    lemma_quotient_known(0x3cb3_5f97, 0x3c55_e8d0, 0xb3_5f97, 120, 0xd5_e8d0, 119, 0xd6ab_1b10_2a7f_d1e3, 0x10_bf90, 65, 0x1_0000_0000_0000_0000, 0x200_0000_0000);
    assert(div_spec(0x3cb3_5f97, 0x3c55_e8d0) == 0x3fd6_ab1b);
    assert(0x88_d183 * 0x80 + 0xd6_ab1b * 0x1 == 0x453f_6c9b);
    lemma_sum_known(0x4308_d183, 0x3fd6_ab1b, false, 0x88_d183, 133, 0xd6_ab1b, 126, 0x80, 0x1, 0x453f_6c9b, 31, 0x4000_0000, 0x80);
    assert(add_spec(0x4308_d183, 0x3fd6_ab1b) == 0x430a_7ed9);
    lemma_whole_known(0x430a_7ed9, 0x8a_7ed9, 133, 0x1_0000);
}

/// Code 139.
proof fn lemma_code_139()
    ensures
        chord_code(0x3e84_308b, 0x3e7d_5e8d, 0x3e85_5e8d, 0x4308_d183, 0x430c_1384) == 139,
{
    reveal(chord_code);
    lemma2_to64();
    lemma2_to64_rest();
    lemma_high_powers();
    assert(0x85_5e8d * 0x2 - 0xfd_5e8d * 0x1 == 0xd_5e8d);
    lemma_sum_known(0x3e85_5e8d, 0x3e7d_5e8d, true, 0x85_5e8d, 124, 0xfd_5e8d, 123, 0x2, 0x1, 0xd_5e8d, 20, 0x8_0000, 0x10);
    assert(sub_spec(0x3e85_5e8d, 0x3e7d_5e8d) == 0x3c55_e8d0);
    assert(0x84_308b * 0x2 - 0xfd_5e8d * 0x1 == 0xb_0289);
    lemma_sum_known(0x3e84_308b, 0x3e7d_5e8d, true, 0x84_308b, 124, 0xfd_5e8d, 123, 0x2, 0x1, 0xb_0289, 20, 0x8_0000, 0x10);
    assert(sub_spec(0x3e84_308b, 0x3e7d_5e8d) == 0x3c30_2890);
    assert(0x8c_1384 * 0x1 - 0x88_d183 * 0x1 == 0x3_4201);
    lemma_sum_known(0x430c_1384, 0x4308_d183, true, 0x8c_1384, 133, 0x88_d183, 133, 0x1, 0x1, 0x3_4201, 18, 0x2_0000, 0x40);
    assert(sub_spec(0x430c_1384, 0x4308_d183) == 0x4050_8040);
    assert(0xd0_8040 * 0xb0_2890 == 0x8f79_3552_2400);
    lemma_product_known(0x4050_8040, 0x3c30_2890, 0xd0_8040, 127, 0xb0_2890, 119, 0x8f79_3552_2400, 48, 0x8000_0000_0000, 0x100_0000);
    assert(mul_spec(0x4050_8040, 0x3c30_2890) == 0x3d0f_7935);
    assert(0x8f_7935 * 0x1_0000_0000_0000_0000 == 0xabb4_58ff_c62e_5ee4 * 0xd5_e8d0 + 0xa0_46c0);
    lemma_quotient_known(0x3d0f_7935, 0x3c55_e8d0, 0x8f_7935, 121, 0xd5_e8d0, 119, 0xabb4_58ff_c62e_5ee4, 0xa0_46c0, 65, 0x1_0000_0000_0000_0000, 0x200_0000_0000);
    assert(div_spec(0x3d0f_7935, 0x3c55_e8d0) == 0x402b_b459);
    assert(0x88_d183 * 0x40 + 0xab_b459 * 0x1 == 0x22e0_1519);
    lemma_sum_known(0x4308_d183, 0x402b_b459, false, 0x88_d183, 133, 0xab_b459, 127, 0x40, 0x1, 0x22e0_1519, 30, 0x2000_0000, 0x40);
    assert(add_spec(0x4308_d183, 0x402b_b459) == 0x430b_8054);
    lemma_whole_known(0x430b_8054, 0x8b_8054, 133, 0x1_0000);
}

/// Code 140.
proof fn lemma_code_140()
    ensures
        chord_code(0x3e86_45b8, 0x3e85_5e8d, 0x3e8d_5e8d, 0x430c_1384, 0x430f_d9a7) == 140,
{
    reveal(chord_code);
    lemma2_to64();
    lemma2_to64_rest();
    lemma_high_powers();
    assert(0x8d_5e8d * 0x1 - 0x85_5e8d * 0x1 == 0x8_0000);
    lemma_sum_known(0x3e8d_5e8d, 0x3e85_5e8d, true, 0x8d_5e8d, 124, 0x85_5e8d, 124, 0x1, 0x1, 0x8_0000, 20, 0x8_0000, 0x10);
    assert(sub_spec(0x3e8d_5e8d, 0x3e85_5e8d) == 0x3c80_0000);
    assert(0x86_45b8 * 0x1 - 0x85_5e8d * 0x1 == 0xe72b);
    lemma_sum_known(0x3e86_45b8, 0x3e85_5e8d, true, 0x86_45b8, 124, 0x85_5e8d, 124, 0x1, 0x1, 0xe72b, 16, 0x8000, 0x100);
    assert(sub_spec(0x3e86_45b8, 0x3e85_5e8d) == 0x3ae7_2b00);
    assert(0x8f_d9a7 * 0x1 - 0x8c_1384 * 0x1 == 0x3_c623);
    lemma_sum_known(0x430f_d9a7, 0x430c_1384, true, 0x8f_d9a7, 133, 0x8c_1384, 133, 0x1, 0x1, 0x3_c623, 18, 0x2_0000, 0x40);
    assert(sub_spec(0x430f_d9a7, 0x430c_1384) == 0x4071_88c0);
    assert(0xf1_88c0 * 0xe7_2b00 == 0xda1a_f738_4000);
    lemma_product_known(0x4071_88c0, 0x3ae7_2b00, 0xf1_88c0, 127, 0xe7_2b00, 116, 0xda1a_f738_4000, 48, 0x8000_0000_0000, 0x100_0000);
    assert(mul_spec(0x4071_88c0, 0x3ae7_2b00) == 0x3bda_1af7);
    assert(0xda_1af7 * 0x1_0000_0000_0000_0000 == 0x1_b435_ee00_0000_0000 * 0x80_0000 + 0x0);
    lemma_quotient_known(0x3bda_1af7, 0x3c80_0000, 0xda_1af7, 118, 0x80_0000, 120, 0x1_b435_ee00_0000_0000, 0x0, 66, 0x2_0000_0000_0000_0000, 0x400_0000_0000);
    assert(div_spec(0x3bda_1af7, 0x3c80_0000) == 0x3eda_1af7);
    assert(0x8c_1384 * 0x200 + 0xda_1af7 * 0x1 == 0x1_1901_22f7);
    lemma_sum_known(0x430c_1384, 0x3eda_1af7, false, 0x8c_1384, 133, 0xda_1af7, 124, 0x200, 0x1, 0x1_1901_22f7, 33, 0x1_0000_0000, 0x200);
    assert(add_spec(0x430c_1384, 0x3eda_1af7) == 0x430c_8091);
    lemma_whole_known(0x430c_8091, 0x8c_8091, 133, 0x1_0000);
}

/// Code 141.
proof fn lemma_code_141()
    ensures
        chord_code(0x3e88_5fc3, 0x3e85_5e8d, 0x3e8d_5e8d, 0x430c_1384, 0x430f_d9a7) == 141,
{
    reveal(chord_code);
    lemma2_to64();
    lemma2_to64_rest();
    lemma_high_powers();
    assert(0x8d_5e8d * 0x1 - 0x85_5e8d * 0x1 == 0x8_0000);
    lemma_sum_known(0x3e8d_5e8d, 0x3e85_5e8d, true, 0x8d_5e8d, 124, 0x85_5e8d, 124, 0x1, 0x1, 0x8_0000, 20, 0x8_0000, 0x10);
    assert(sub_spec(0x3e8d_5e8d, 0x3e85_5e8d) == 0x3c80_0000);
    assert(0x88_5fc3 * 0x1 - 0x85_5e8d * 0x1 == 0x3_0136);
    lemma_sum_known(0x3e88_5fc3, 0x3e85_5e8d, true, 0x88_5fc3, 124, 0x85_5e8d, 124, 0x1, 0x1, 0x3_0136, 18, 0x2_0000, 0x40);
    assert(sub_spec(0x3e88_5fc3, 0x3e85_5e8d) == 0x3bc0_4d80);
    assert(0x8f_d9a7 * 0x1 - 0x8c_1384 * 0x1 == 0x3_c623);
    lemma_sum_known(0x430f_d9a7, 0x430c_1384, true, 0x8f_d9a7, 133, 0x8c_1384, 133, 0x1, 0x1, 0x3_c623, 18, 0x2_0000, 0x40);
    assert(sub_spec(0x430f_d9a7, 0x430c_1384) == 0x4071_88c0);
    assert(0xf1_88c0 * 0xc0_4d80 == 0xb56f_aee6_2000);
    lemma_product_known(0x4071_88c0, 0x3bc0_4d80, 0xf1_88c0, 127, 0xc0_4d80, 118, 0xb56f_aee6_2000, 48, 0x8000_0000_0000, 0x100_0000);
    assert(mul_spec(0x4071_88c0, 0x3bc0_4d80) == 0x3cb5_6faf);
    assert(0xb5_6faf * 0x1_0000_0000_0000_0000 == 0x1_6adf_5e00_0000_0000 * 0x80_0000 + 0x0);
    lemma_quotient_known(0x3cb5_6faf, 0x3c80_0000, 0xb5_6faf, 120, 0x80_0000, 120, 0x1_6adf_5e00_0000_0000, 0x0, 66, 0x2_0000_0000_0000_0000, 0x400_0000_0000);
    assert(div_spec(0x3cb5_6faf, 0x3c80_0000) == 0x3fb5_6faf);
    assert(0x8c_1384 * 0x80 + 0xb5_6faf * 0x1 == 0x46bf_31af);
    lemma_sum_known(0x430c_1384, 0x3fb5_6faf, false, 0x8c_1384, 133, 0xb5_6faf, 126, 0x80, 0x1, 0x46bf_31af, 31, 0x4000_0000, 0x80);
    assert(add_spec(0x430c_1384, 0x3fb5_6faf) == 0x430d_7e63);
    lemma_whole_known(0x430d_7e63, 0x8d_7e63, 133, 0x1_0000);
}

/// Code 142.
proof fn lemma_code_142()
    ensures
        chord_code(0x3e8a_7eb0, 0x3e85_5e8d, 0x3e8d_5e8d, 0x430c_1384, 0x430f_d9a7) == 142,
{
    reveal(chord_code);
    lemma2_to64();
    lemma2_to64_rest();
    lemma_high_powers();
    assert(0x8d_5e8d * 0x1 - 0x85_5e8d * 0x1 == 0x8_0000);
    lemma_sum_known(0x3e8d_5e8d, 0x3e85_5e8d, true, 0x8d_5e8d, 124, 0x85_5e8d, 124, 0x1, 0x1, 0x8_0000, 20, 0x8_0000, 0x10);
    assert(sub_spec(0x3e8d_5e8d, 0x3e85_5e8d) == 0x3c80_0000);
    assert(0x8a_7eb0 * 0x1 - 0x85_5e8d * 0x1 == 0x5_2023);
    lemma_sum_known(0x3e8a_7eb0, 0x3e85_5e8d, true, 0x8a_7eb0, 124, 0x85_5e8d, 124, 0x1, 0x1, 0x5_2023, 19, 0x4_0000, 0x20);
    assert(sub_spec(0x3e8a_7eb0, 0x3e85_5e8d) == 0x3c24_0460);
    assert(0x8f_d9a7 * 0x1 - 0x8c_1384 * 0x1 == 0x3_c623);
    lemma_sum_known(0x430f_d9a7, 0x430c_1384, true, 0x8f_d9a7, 133, 0x8c_1384, 133, 0x1, 0x1, 0x3_c623, 18, 0x2_0000, 0x40);
    assert(sub_spec(0x430f_d9a7, 0x430c_1384) == 0x4071_88c0);
    assert(0xf1_88c0 * 0xa4_0460 == 0x9abf_bbb6_4800);
    lemma_product_known(0x4071_88c0, 0x3c24_0460, 0xf1_88c0, 127, 0xa4_0460, 119, 0x9abf_bbb6_4800, 48, 0x8000_0000_0000, 0x100_0000);
    assert(mul_spec(0x4071_88c0, 0x3c24_0460) == 0x3d1a_bfbc);
    assert(0x9a_bfbc * 0x1_0000_0000_0000_0000 == 0x1_357f_7800_0000_0000 * 0x80_0000 + 0x0);
    lemma_quotient_known(0x3d1a_bfbc, 0x3c80_0000, 0x9a_bfbc, 121, 0x80_0000, 120, 0x1_357f_7800_0000_0000, 0x0, 66, 0x2_0000_0000_0000_0000, 0x400_0000_0000);
    assert(div_spec(0x3d1a_bfbc, 0x3c80_0000) == 0x401a_bfbc);
    assert(0x8c_1384 * 0x40 + 0x9a_bfbc * 0x1 == 0x239f_a0bc);
    lemma_sum_known(0x430c_1384, 0x401a_bfbc, false, 0x8c_1384, 133, 0x9a_bfbc, 127, 0x40, 0x1, 0x239f_a0bc, 30, 0x2000_0000, 0x40);
    assert(add_spec(0x430c_1384, 0x401a_bfbc) == 0x430e_7e83);
    lemma_whole_known(0x430e_7e83, 0x8e_7e83, 133, 0x1_0000);
}

/// Code 143.
proof fn lemma_code_143()
    ensures
        chord_code(0x3e8c_a281, 0x3e85_5e8d, 0x3e8d_5e8d, 0x430c_1384, 0x430f_d9a7) == 143,
{
    reveal(chord_code);
    lemma2_to64();
    lemma2_to64_rest();
    lemma_high_powers();
    assert(0x8d_5e8d * 0x1 - 0x85_5e8d * 0x1 == 0x8_0000);
    lemma_sum_known(0x3e8d_5e8d, 0x3e85_5e8d, true, 0x8d_5e8d, 124, 0x85_5e8d, 124, 0x1, 0x1, 0x8_0000, 20, 0x8_0000, 0x10);
    assert(sub_spec(0x3e8d_5e8d, 0x3e85_5e8d) == 0x3c80_0000);
    assert(0x8c_a281 * 0x1 - 0x85_5e8d * 0x1 == 0x7_43f4);
    lemma_sum_known(0x3e8c_a281, 0x3e85_5e8d, true, 0x8c_a281, 124, 0x85_5e8d, 124, 0x1, 0x1, 0x7_43f4, 19, 0x4_0000, 0x20);
    assert(sub_spec(0x3e8c_a281, 0x3e85_5e8d) == 0x3c68_7e80);
    assert(0x8f_d9a7 * 0x1 - 0x8c_1384 * 0x1 == 0x3_c623);
    lemma_sum_known(0x430f_d9a7, 0x430c_1384, true, 0x8f_d9a7, 133, 0x8c_1384, 133, 0x1, 0x1, 0x3_c623, 18, 0x2_0000, 0x40);
    assert(sub_spec(0x430f_d9a7, 0x430c_1384) == 0x4071_88c0);
    assert(0xf1_88c0 * 0xe8_7e80 == 0xdb5b_4812_e000);
    lemma_product_known(0x4071_88c0, 0x3c68_7e80, 0xf1_88c0, 127, 0xe8_7e80, 119, 0xdb5b_4812_e000, 48, 0x8000_0000_0000, 0x100_0000);
    assert(mul_spec(0x4071_88c0, 0x3c68_7e80) == 0x3d5b_5b48);
    assert(0xdb_5b48 * 0x1_0000_0000_0000_0000 == 0x1_b6b6_9000_0000_0000 * 0x80_0000 + 0x0);
    lemma_quotient_known(0x3d5b_5b48, 0x3c80_0000, 0xdb_5b48, 121, 0x80_0000, 120, 0x1_b6b6_9000_0000_0000, 0x0, 66, 0x2_0000_0000_0000_0000, 0x400_0000_0000);
    assert(div_spec(0x3d5b_5b48, 0x3c80_0000) == 0x405b_5b48);
    assert(0x8c_1384 * 0x40 + 0xdb_5b48 * 0x1 == 0x23e0_3c48);
    lemma_sum_known(0x430c_1384, 0x405b_5b48, false, 0x8c_1384, 133, 0xdb_5b48, 127, 0x40, 0x1, 0x23e0_3c48, 30, 0x2000_0000, 0x40);
    assert(add_spec(0x430c_1384, 0x405b_5b48) == 0x430f_80f1);
    lemma_whole_known(0x430f_80f1, 0x8f_80f1, 133, 0x1_0000);
}

/// Code 144.
proof fn lemma_code_144()
    ensures
        chord_code(0x3e8e_cb3b, 0x3e8d_5e8d, 0x3e95_5e8d, 0x430f_d9a7, 0x4313_8132) == 144,
{
    reveal(chord_code);
    lemma2_to64();
    lemma2_to64_rest();
    lemma_high_powers();
    assert(0x95_5e8d * 0x1 - 0x8d_5e8d * 0x1 == 0x8_0000);
    lemma_sum_known(0x3e95_5e8d, 0x3e8d_5e8d, true, 0x95_5e8d, 124, 0x8d_5e8d, 124, 0x1, 0x1, 0x8_0000, 20, 0x8_0000, 0x10);
    assert(sub_spec(0x3e95_5e8d, 0x3e8d_5e8d) == 0x3c80_0000);
    assert(0x8e_cb3b * 0x1 - 0x8d_5e8d * 0x1 == 0x1_6cae);
    lemma_sum_known(0x3e8e_cb3b, 0x3e8d_5e8d, true, 0x8e_cb3b, 124, 0x8d_5e8d, 124, 0x1, 0x1, 0x1_6cae, 17, 0x1_0000, 0x80);
    assert(sub_spec(0x3e8e_cb3b, 0x3e8d_5e8d) == 0x3b36_5700);
    assert(0x93_8132 * 0x1 - 0x8f_d9a7 * 0x1 == 0x3_a78b);
    lemma_sum_known(0x4313_8132, 0x430f_d9a7, true, 0x93_8132, 133, 0x8f_d9a7, 133, 0x1, 0x1, 0x3_a78b, 18, 0x2_0000, 0x40);
    assert(sub_spec(0x4313_8132, 0x430f_d9a7) == 0x4069_e2c0);
    assert(0xe9_e2c0 * 0xb6_5700 == 0xa696_b08f_4000);
    lemma_product_known(0x4069_e2c0, 0x3b36_5700, 0xe9_e2c0, 127, 0xb6_5700, 117, 0xa696_b08f_4000, 48, 0x8000_0000_0000, 0x100_0000);
    assert(mul_spec(0x4069_e2c0, 0x3b36_5700) == 0x3c26_96b1);
    assert(0xa6_96b1 * 0x1_0000_0000_0000_0000 == 0x1_4d2d_6200_0000_0000 * 0x80_0000 + 0x0);
    lemma_quotient_known(0x3c26_96b1, 0x3c80_0000, 0xa6_96b1, 119, 0x80_0000, 120, 0x1_4d2d_6200_0000_0000, 0x0, 66, 0x2_0000_0000_0000_0000, 0x400_0000_0000);
    assert(div_spec(0x3c26_96b1, 0x3c80_0000) == 0x3f26_96b1);
    assert(0x8f_d9a7 * 0x100 + 0xa6_96b1 * 0x1 == 0x9080_3db1);
    lemma_sum_known(0x430f_d9a7, 0x3f26_96b1, false, 0x8f_d9a7, 133, 0xa6_96b1, 125, 0x100, 0x1, 0x9080_3db1, 32, 0x8000_0000, 0x100);
    assert(add_spec(0x430f_d9a7, 0x3f26_96b1) == 0x4310_803e);
    lemma_whole_known(0x4310_803e, 0x90_803e, 133, 0x1_0000);
}

/// Code 145.
proof fn lemma_code_145()
    ensures
        chord_code(0x3e90_f8df, 0x3e8d_5e8d, 0x3e95_5e8d, 0x430f_d9a7, 0x4313_8132) == 145,
{
    reveal(chord_code);
    lemma2_to64();
    lemma2_to64_rest();
    lemma_high_powers();
    assert(0x95_5e8d * 0x1 - 0x8d_5e8d * 0x1 == 0x8_0000);
    lemma_sum_known(0x3e95_5e8d, 0x3e8d_5e8d, true, 0x95_5e8d, 124, 0x8d_5e8d, 124, 0x1, 0x1, 0x8_0000, 20, 0x8_0000, 0x10);
    assert(sub_spec(0x3e95_5e8d, 0x3e8d_5e8d) == 0x3c80_0000);
    assert(0x90_f8df * 0x1 - 0x8d_5e8d * 0x1 == 0x3_9a52);
    lemma_sum_known(0x3e90_f8df, 0x3e8d_5e8d, true, 0x90_f8df, 124, 0x8d_5e8d, 124, 0x1, 0x1, 0x3_9a52, 18, 0x2_0000, 0x40);
    assert(sub_spec(0x3e90_f8df, 0x3e8d_5e8d) == 0x3be6_9480);
    assert(0x93_8132 * 0x1 - 0x8f_d9a7 * 0x1 == 0x3_a78b);
    lemma_sum_known(0x4313_8132, 0x430f_d9a7, true, 0x93_8132, 133, 0x8f_d9a7, 133, 0x1, 0x1, 0x3_a78b, 18, 0x2_0000, 0x40);
    assert(sub_spec(0x4313_8132, 0x430f_d9a7) == 0x4069_e2c0);
    assert(0xe9_e2c0 * 0xe6_9480 == 0xd2a9_6488_6000);
    lemma_product_known(0x4069_e2c0, 0x3be6_9480, 0xe9_e2c0, 127, 0xe6_9480, 118, 0xd2a9_6488_6000, 48, 0x8000_0000_0000, 0x100_0000);
    assert(mul_spec(0x4069_e2c0, 0x3be6_9480) == 0x3cd2_a965);
    assert(0xd2_a965 * 0x1_0000_0000_0000_0000 == 0x1_a552_ca00_0000_0000 * 0x80_0000 + 0x0);
    lemma_quotient_known(0x3cd2_a965, 0x3c80_0000, 0xd2_a965, 120, 0x80_0000, 120, 0x1_a552_ca00_0000_0000, 0x0, 66, 0x2_0000_0000_0000_0000, 0x400_0000_0000);
    assert(div_spec(0x3cd2_a965, 0x3c80_0000) == 0x3fd2_a965);
    assert(0x8f_d9a7 * 0x80 + 0xd2_a965 * 0x1 == 0x48bf_7ce5);
    lemma_sum_known(0x430f_d9a7, 0x3fd2_a965, false, 0x8f_d9a7, 133, 0xd2_a965, 126, 0x80, 0x1, 0x48bf_7ce5, 31, 0x4000_0000, 0x80);
    assert(add_spec(0x430f_d9a7, 0x3fd2_a965) == 0x4311_7efa);
    lemma_whole_known(0x4311_7efa, 0x91_7efa, 133, 0x1_0000);
}

/// Code 146.
proof fn lemma_code_146()
    ensures
        chord_code(0x3e93_2b72, 0x3e8d_5e8d, 0x3e95_5e8d, 0x430f_d9a7, 0x4313_8132) == 146,
{
    reveal(chord_code);
    lemma2_to64();
    lemma2_to64_rest();
    lemma_high_powers();
    assert(0x95_5e8d * 0x1 - 0x8d_5e8d * 0x1 == 0x8_0000);
    lemma_sum_known(0x3e95_5e8d, 0x3e8d_5e8d, true, 0x95_5e8d, 124, 0x8d_5e8d, 124, 0x1, 0x1, 0x8_0000, 20, 0x8_0000, 0x10);
    assert(sub_spec(0x3e95_5e8d, 0x3e8d_5e8d) == 0x3c80_0000);
    assert(0x93_2b72 * 0x1 - 0x8d_5e8d * 0x1 == 0x5_cce5);
    lemma_sum_known(0x3e93_2b72, 0x3e8d_5e8d, true, 0x93_2b72, 124, 0x8d_5e8d, 124, 0x1, 0x1, 0x5_cce5, 19, 0x4_0000, 0x20);
    assert(sub_spec(0x3e93_2b72, 0x3e8d_5e8d) == 0x3c39_9ca0);
    assert(0x93_8132 * 0x1 - 0x8f_d9a7 * 0x1 == 0x3_a78b);
    lemma_sum_known(0x4313_8132, 0x430f_d9a7, true, 0x93_8132, 133, 0x8f_d9a7, 133, 0x1, 0x1, 0x3_a78b, 18, 0x2_0000, 0x40);
    assert(sub_spec(0x4313_8132, 0x430f_d9a7) == 0x4069_e2c0);
    assert(0xe9_e2c0 * 0xb9_9ca0 == 0xa993_f51a_b800);
    lemma_product_known(0x4069_e2c0, 0x3c39_9ca0, 0xe9_e2c0, 127, 0xb9_9ca0, 119, 0xa993_f51a_b800, 48, 0x8000_0000_0000, 0x100_0000);
    assert(mul_spec(0x4069_e2c0, 0x3c39_9ca0) == 0x3d29_93f5);
    assert(0xa9_93f5 * 0x1_0000_0000_0000_0000 == 0x1_5327_ea00_0000_0000 * 0x80_0000 + 0x0);
    lemma_quotient_known(0x3d29_93f5, 0x3c80_0000, 0xa9_93f5, 121, 0x80_0000, 120, 0x1_5327_ea00_0000_0000, 0x0, 66, 0x2_0000_0000_0000_0000, 0x400_0000_0000);
    assert(div_spec(0x3d29_93f5, 0x3c80_0000) == 0x4029_93f5);
    assert(0x8f_d9a7 * 0x40 + 0xa9_93f5 * 0x1 == 0x249f_fdb5);
    lemma_sum_known(0x430f_d9a7, 0x4029_93f5, false, 0x8f_d9a7, 133, 0xa9_93f5, 127, 0x40, 0x1, 0x249f_fdb5, 30, 0x2000_0000, 0x40);
    assert(add_spec(0x430f_d9a7, 0x4029_93f5) == 0x4312_7ff7);
    lemma_whole_known(0x4312_7ff7, 0x92_7ff7, 133, 0x1_0000);
}

/// Code 147.
proof fn lemma_code_147()
    ensures
        chord_code(0x3e95_62f6, 0x3e95_5e8d, 0x3e9d_5e8d, 0x4313_8132, 0x4317_0a33) == 147,
{
    reveal(chord_code);
    lemma2_to64();
    lemma2_to64_rest();
    lemma_high_powers();
    assert(0x9d_5e8d * 0x1 - 0x95_5e8d * 0x1 == 0x8_0000);
    lemma_sum_known(0x3e9d_5e8d, 0x3e95_5e8d, true, 0x9d_5e8d, 124, 0x95_5e8d, 124, 0x1, 0x1, 0x8_0000, 20, 0x8_0000, 0x10);
    assert(sub_spec(0x3e9d_5e8d, 0x3e95_5e8d) == 0x3c80_0000);
    assert(0x95_62f6 * 0x1 - 0x95_5e8d * 0x1 == 0x469);
    lemma_sum_known(0x3e95_62f6, 0x3e95_5e8d, true, 0x95_62f6, 124, 0x95_5e8d, 124, 0x1, 0x1, 0x469, 11, 0x400, 0x2000);
    assert(sub_spec(0x3e95_62f6, 0x3e95_5e8d) == 0x380d_2000);
    assert(0x97_0a33 * 0x1 - 0x93_8132 * 0x1 == 0x3_8901);
    lemma_sum_known(0x4317_0a33, 0x4313_8132, true, 0x97_0a33, 133, 0x93_8132, 133, 0x1, 0x1, 0x3_8901, 18, 0x2_0000, 0x40);
    assert(sub_spec(0x4317_0a33, 0x4313_8132) == 0x4062_4040);
    assert(0xe2_4040 * 0x8d_2000 == 0x7cb9_ab48_0000);
    lemma_product_known(0x4062_4040, 0x380d_2000, 0xe2_4040, 127, 0x8d_2000, 111, 0x7cb9_ab48_0000, 47, 0x4000_0000_0000, 0x80_0000);
    assert(mul_spec(0x4062_4040, 0x380d_2000) == 0x38f9_7357);
    assert(0xf9_7357 * 0x1_0000_0000_0000_0000 == 0x1_f2e6_ae00_0000_0000 * 0x80_0000 + 0x0);
    lemma_quotient_known(0x38f9_7357, 0x3c80_0000, 0xf9_7357, 112, 0x80_0000, 120, 0x1_f2e6_ae00_0000_0000, 0x0, 66, 0x2_0000_0000_0000_0000, 0x400_0000_0000);
    assert(div_spec(0x38f9_7357, 0x3c80_0000) == 0x3bf9_7357);
    assert(0x93_8132 * 0x8000 + 0xf9_7357 * 0x1 == 0x49_c192_7357);
    lemma_sum_known(0x4313_8132, 0x3bf9_7357, false, 0x93_8132, 133, 0xf9_7357, 118, 0x8000, 0x1, 0x49_c192_7357, 39, 0x40_0000_0000, 0x8000);
    assert(add_spec(0x4313_8132, 0x3bf9_7357) == 0x4313_8325);
    lemma_whole_known(0x4313_8325, 0x93_8325, 133, 0x1_0000);
}

/// Code 148.
proof fn lemma_code_148()
    ensures
        chord_code(0x3e97_9f6f, 0x3e95_5e8d, 0x3e9d_5e8d, 0x4313_8132, 0x4317_0a33) == 148,
{
    reveal(chord_code);
    lemma2_to64();
    lemma2_to64_rest();
    lemma_high_powers();
    assert(0x9d_5e8d * 0x1 - 0x95_5e8d * 0x1 == 0x8_0000);
    lemma_sum_known(0x3e9d_5e8d, 0x3e95_5e8d, true, 0x9d_5e8d, 124, 0x95_5e8d, 124, 0x1, 0x1, 0x8_0000, 20, 0x8_0000, 0x10);
    assert(sub_spec(0x3e9d_5e8d, 0x3e95_5e8d) == 0x3c80_0000);
    assert(0x97_9f6f * 0x1 - 0x95_5e8d * 0x1 == 0x2_40e2);
    lemma_sum_known(0x3e97_9f6f, 0x3e95_5e8d, true, 0x97_9f6f, 124, 0x95_5e8d, 124, 0x1, 0x1, 0x2_40e2, 18, 0x2_0000, 0x40);
    assert(sub_spec(0x3e97_9f6f, 0x3e95_5e8d) == 0x3b90_3880);
    assert(0x97_0a33 * 0x1 - 0x93_8132 * 0x1 == 0x3_8901);
    lemma_sum_known(0x4317_0a33, 0x4313_8132, true, 0x97_0a33, 133, 0x93_8132, 133, 0x1, 0x1, 0x3_8901, 18, 0x2_0000, 0x40);
    assert(sub_spec(0x4317_0a33, 0x4313_8132) == 0x4062_4040);
    assert(0xe2_4040 * 0x90_3880 == 0x7f76_132e_2000);
    lemma_product_known(0x4062_4040, 0x3b90_3880, 0xe2_4040, 127, 0x90_3880, 118, 0x7f76_132e_2000, 47, 0x4000_0000_0000, 0x80_0000);
    assert(mul_spec(0x4062_4040, 0x3b90_3880) == 0x3c7e_ec26);
    assert(0xfe_ec26 * 0x1_0000_0000_0000_0000 == 0x1_fdd8_4c00_0000_0000 * 0x80_0000 + 0x0);
    lemma_quotient_known(0x3c7e_ec26, 0x3c80_0000, 0xfe_ec26, 119, 0x80_0000, 120, 0x1_fdd8_4c00_0000_0000, 0x0, 66, 0x2_0000_0000_0000_0000, 0x400_0000_0000);
    assert(div_spec(0x3c7e_ec26, 0x3c80_0000) == 0x3f7e_ec26);
    assert(0x93_8132 * 0x100 + 0xfe_ec26 * 0x1 == 0x9480_1e26);
    lemma_sum_known(0x4313_8132, 0x3f7e_ec26, false, 0x93_8132, 133, 0xfe_ec26, 125, 0x100, 0x1, 0x9480_1e26, 32, 0x8000_0000, 0x100);
    assert(add_spec(0x4313_8132, 0x3f7e_ec26) == 0x4314_801e);
    lemma_whole_known(0x4314_801e, 0x94_801e, 133, 0x1_0000);
}

/// Code 149.
proof fn lemma_code_149()
    ensures
        chord_code(0x3e99_e0e0, 0x3e95_5e8d, 0x3e9d_5e8d, 0x4313_8132, 0x4317_0a33) == 149,
{
    reveal(chord_code);
    lemma2_to64();
    lemma2_to64_rest();
    lemma_high_powers();
    assert(0x9d_5e8d * 0x1 - 0x95_5e8d * 0x1 == 0x8_0000);
    lemma_sum_known(0x3e9d_5e8d, 0x3e95_5e8d, true, 0x9d_5e8d, 124, 0x95_5e8d, 124, 0x1, 0x1, 0x8_0000, 20, 0x8_0000, 0x10);
    assert(sub_spec(0x3e9d_5e8d, 0x3e95_5e8d) == 0x3c80_0000);
    assert(0x99_e0e0 * 0x1 - 0x95_5e8d * 0x1 == 0x4_8253);
    lemma_sum_known(0x3e99_e0e0, 0x3e95_5e8d, true, 0x99_e0e0, 124, 0x95_5e8d, 124, 0x1, 0x1, 0x4_8253, 19, 0x4_0000, 0x20);
    assert(sub_spec(0x3e99_e0e0, 0x3e95_5e8d) == 0x3c10_4a60);
    assert(0x97_0a33 * 0x1 - 0x93_8132 * 0x1 == 0x3_8901);
    lemma_sum_known(0x4317_0a33, 0x4313_8132, true, 0x97_0a33, 133, 0x93_8132, 133, 0x1, 0x1, 0x3_8901, 18, 0x2_0000, 0x40);
    assert(sub_spec(0x4317_0a33, 0x4313_8132) == 0x4062_4040);
    assert(0xe2_4040 * 0x90_4a60 == 0x7f85_df6a_9800);
    lemma_product_known(0x4062_4040, 0x3c10_4a60, 0xe2_4040, 127, 0x90_4a60, 119, 0x7f85_df6a_9800, 47, 0x4000_0000_0000, 0x80_0000);
    assert(mul_spec(0x4062_4040, 0x3c10_4a60) == 0x3cff_0bbf);
    assert(0xff_0bbf * 0x1_0000_0000_0000_0000 == 0x1_fe17_7e00_0000_0000 * 0x80_0000 + 0x0);
    lemma_quotient_known(0x3cff_0bbf, 0x3c80_0000, 0xff_0bbf, 120, 0x80_0000, 120, 0x1_fe17_7e00_0000_0000, 0x0, 66, 0x2_0000_0000_0000_0000, 0x400_0000_0000);
    assert(div_spec(0x3cff_0bbf, 0x3c80_0000) == 0x3fff_0bbf);
    assert(0x93_8132 * 0x80 + 0xff_0bbf * 0x1 == 0x4abf_a4bf);
    lemma_sum_known(0x4313_8132, 0x3fff_0bbf, false, 0x93_8132, 133, 0xff_0bbf, 126, 0x80, 0x1, 0x4abf_a4bf, 31, 0x4000_0000, 0x80);
    assert(add_spec(0x4313_8132, 0x3fff_0bbf) == 0x4315_7f49);
    lemma_whole_known(0x4315_7f49, 0x95_7f49, 133, 0x1_0000);
}

/// Code 150.
proof fn lemma_code_150()
    ensures
        chord_code(0x3e9c_274c, 0x3e95_5e8d, 0x3e9d_5e8d, 0x4313_8132, 0x4317_0a33) == 150,
{
    reveal(chord_code);
    lemma2_to64();
    lemma2_to64_rest();
    lemma_high_powers();
    assert(0x9d_5e8d * 0x1 - 0x95_5e8d * 0x1 == 0x8_0000);
    lemma_sum_known(0x3e9d_5e8d, 0x3e95_5e8d, true, 0x9d_5e8d, 124, 0x95_5e8d, 124, 0x1, 0x1, 0x8_0000, 20, 0x8_0000, 0x10);
    assert(sub_spec(0x3e9d_5e8d, 0x3e95_5e8d) == 0x3c80_0000);
    assert(0x9c_274c * 0x1 - 0x95_5e8d * 0x1 == 0x6_c8bf);
    lemma_sum_known(0x3e9c_274c, 0x3e95_5e8d, true, 0x9c_274c, 124, 0x95_5e8d, 124, 0x1, 0x1, 0x6_c8bf, 19, 0x4_0000, 0x20);
    assert(sub_spec(0x3e9c_274c, 0x3e95_5e8d) == 0x3c59_17e0);
    assert(0x97_0a33 * 0x1 - 0x93_8132 * 0x1 == 0x3_8901);
    lemma_sum_known(0x4317_0a33, 0x4313_8132, true, 0x97_0a33, 133, 0x93_8132, 133, 0x1, 0x1, 0x3_8901, 18, 0x2_0000, 0x40);
    assert(sub_spec(0x4317_0a33, 0x4313_8132) == 0x4062_4040);
    assert(0xe2_4040 * 0xd9_17e0 == 0xbfdd_8ffd_f800);
    lemma_product_known(0x4062_4040, 0x3c59_17e0, 0xe2_4040, 127, 0xd9_17e0, 119, 0xbfdd_8ffd_f800, 48, 0x8000_0000_0000, 0x100_0000);
    assert(mul_spec(0x4062_4040, 0x3c59_17e0) == 0x3d3f_dd90);
    assert(0xbf_dd90 * 0x1_0000_0000_0000_0000 == 0x1_7fbb_2000_0000_0000 * 0x80_0000 + 0x0);
    lemma_quotient_known(0x3d3f_dd90, 0x3c80_0000, 0xbf_dd90, 121, 0x80_0000, 120, 0x1_7fbb_2000_0000_0000, 0x0, 66, 0x2_0000_0000_0000_0000, 0x400_0000_0000);
    assert(div_spec(0x3d3f_dd90, 0x3c80_0000) == 0x403f_dd90);
    assert(0x93_8132 * 0x40 + 0xbf_dd90 * 0x1 == 0x25a0_2a10);
    lemma_sum_known(0x4313_8132, 0x403f_dd90, false, 0x93_8132, 133, 0xbf_dd90, 127, 0x40, 0x1, 0x25a0_2a10, 30, 0x2000_0000, 0x40);
    assert(add_spec(0x4313_8132, 0x403f_dd90) == 0x4316_80a8);
    lemma_whole_known(0x4316_80a8, 0x96_80a8, 133, 0x1_0000);
}

/// Code 151.
proof fn lemma_code_151()
    ensures
        chord_code(0x3e9e_72b6, 0x3e9d_5e8d, 0x3ea5_5e8d, 0x4317_0a33, 0x431a_7a82) == 151,
{
    reveal(chord_code);
    lemma2_to64();
    lemma2_to64_rest();
    lemma_high_powers();
    assert(0xa5_5e8d * 0x1 - 0x9d_5e8d * 0x1 == 0x8_0000);
    lemma_sum_known(0x3ea5_5e8d, 0x3e9d_5e8d, true, 0xa5_5e8d, 124, 0x9d_5e8d, 124, 0x1, 0x1, 0x8_0000, 20, 0x8_0000, 0x10);
    assert(sub_spec(0x3ea5_5e8d, 0x3e9d_5e8d) == 0x3c80_0000);
    assert(0x9e_72b6 * 0x1 - 0x9d_5e8d * 0x1 == 0x1_1429);
    lemma_sum_known(0x3e9e_72b6, 0x3e9d_5e8d, true, 0x9e_72b6, 124, 0x9d_5e8d, 124, 0x1, 0x1, 0x1_1429, 17, 0x1_0000, 0x80);
    assert(sub_spec(0x3e9e_72b6, 0x3e9d_5e8d) == 0x3b0a_1480);
    assert(0x9a_7a82 * 0x1 - 0x97_0a33 * 0x1 == 0x3_704f);
    lemma_sum_known(0x431a_7a82, 0x4317_0a33, true, 0x9a_7a82, 133, 0x97_0a33, 133, 0x1, 0x1, 0x3_704f, 18, 0x2_0000, 0x40);
    assert(sub_spec(0x431a_7a82, 0x4317_0a33) == 0x405c_13c0);
    assert(0xdc_13c0 * 0x8a_1480 == 0x76b4_4514_e000);
    lemma_product_known(0x405c_13c0, 0x3b0a_1480, 0xdc_13c0, 127, 0x8a_1480, 117, 0x76b4_4514_e000, 47, 0x4000_0000_0000, 0x80_0000);
    assert(mul_spec(0x405c_13c0, 0x3b0a_1480) == 0x3bed_688a);
    assert(0xed_688a * 0x1_0000_0000_0000_0000 == 0x1_dad1_1400_0000_0000 * 0x80_0000 + 0x0);
    lemma_quotient_known(0x3bed_688a, 0x3c80_0000, 0xed_688a, 118, 0x80_0000, 120, 0x1_dad1_1400_0000_0000, 0x0, 66, 0x2_0000_0000_0000_0000, 0x400_0000_0000);
    assert(div_spec(0x3bed_688a, 0x3c80_0000) == 0x3eed_688a);
    assert(0x97_0a33 * 0x200 + 0xed_688a * 0x1 == 0x1_2f01_ce8a);
    lemma_sum_known(0x4317_0a33, 0x3eed_688a, false, 0x97_0a33, 133, 0xed_688a, 124, 0x200, 0x1, 0x1_2f01_ce8a, 33, 0x1_0000_0000, 0x200);
    assert(add_spec(0x4317_0a33, 0x3eed_688a) == 0x4317_80e7);
    lemma_whole_known(0x4317_80e7, 0x97_80e7, 133, 0x1_0000);
}

/// Code 152.
proof fn lemma_code_152()
    ensures
        chord_code(0x3ea0_c321, 0x3e9d_5e8d, 0x3ea5_5e8d, 0x4317_0a33, 0x431a_7a82) == 152,
{
    reveal(chord_code);
    lemma2_to64();
    lemma2_to64_rest();
    lemma_high_powers();
    assert(0xa5_5e8d * 0x1 - 0x9d_5e8d * 0x1 == 0x8_0000);
    lemma_sum_known(0x3ea5_5e8d, 0x3e9d_5e8d, true, 0xa5_5e8d, 124, 0x9d_5e8d, 124, 0x1, 0x1, 0x8_0000, 20, 0x8_0000, 0x10);
    assert(sub_spec(0x3ea5_5e8d, 0x3e9d_5e8d) == 0x3c80_0000);
    assert(0xa0_c321 * 0x1 - 0x9d_5e8d * 0x1 == 0x3_6494);
    lemma_sum_known(0x3ea0_c321, 0x3e9d_5e8d, true, 0xa0_c321, 124, 0x9d_5e8d, 124, 0x1, 0x1, 0x3_6494, 18, 0x2_0000, 0x40);
    assert(sub_spec(0x3ea0_c321, 0x3e9d_5e8d) == 0x3bd9_2500);
    assert(0x9a_7a82 * 0x1 - 0x97_0a33 * 0x1 == 0x3_704f);
    lemma_sum_known(0x431a_7a82, 0x4317_0a33, true, 0x9a_7a82, 133, 0x97_0a33, 133, 0x1, 0x1, 0x3_704f, 18, 0x2_0000, 0x40);
    assert(sub_spec(0x431a_7a82, 0x4317_0a33) == 0x405c_13c0);
    assert(0xdc_13c0 * 0xd9_2500 == 0xbaac_8c9a_c000);
    lemma_product_known(0x405c_13c0, 0x3bd9_2500, 0xdc_13c0, 127, 0xd9_2500, 118, 0xbaac_8c9a_c000, 48, 0x8000_0000_0000, 0x100_0000);
    assert(mul_spec(0x405c_13c0, 0x3bd9_2500) == 0x3cba_ac8d);
    assert(0xba_ac8d * 0x1_0000_0000_0000_0000 == 0x1_7559_1a00_0000_0000 * 0x80_0000 + 0x0);
    lemma_quotient_known(0x3cba_ac8d, 0x3c80_0000, 0xba_ac8d, 120, 0x80_0000, 120, 0x1_7559_1a00_0000_0000, 0x0, 66, 0x2_0000_0000_0000_0000, 0x400_0000_0000);
    assert(div_spec(0x3cba_ac8d, 0x3c80_0000) == 0x3fba_ac8d);
    assert(0x97_0a33 * 0x80 + 0xba_ac8d * 0x1 == 0x4c3f_c60d);
    lemma_sum_known(0x4317_0a33, 0x3fba_ac8d, false, 0x97_0a33, 133, 0xba_ac8d, 126, 0x80, 0x1, 0x4c3f_c60d, 31, 0x4000_0000, 0x80);
    assert(add_spec(0x4317_0a33, 0x3fba_ac8d) == 0x4318_7f8c);
    lemma_whole_known(0x4318_7f8c, 0x98_7f8c, 133, 0x1_0000);
}

/// Code 153.
proof fn lemma_code_153()
    ensures
        chord_code(0x3ea3_1890, 0x3e9d_5e8d, 0x3ea5_5e8d, 0x4317_0a33, 0x431a_7a82) == 153,
{
    reveal(chord_code);
    lemma2_to64();
    lemma2_to64_rest();
    lemma_high_powers();
    assert(0xa5_5e8d * 0x1 - 0x9d_5e8d * 0x1 == 0x8_0000);
    lemma_sum_known(0x3ea5_5e8d, 0x3e9d_5e8d, true, 0xa5_5e8d, 124, 0x9d_5e8d, 124, 0x1, 0x1, 0x8_0000, 20, 0x8_0000, 0x10);
    assert(sub_spec(0x3ea5_5e8d, 0x3e9d_5e8d) == 0x3c80_0000);
    assert(0xa3_1890 * 0x1 - 0x9d_5e8d * 0x1 == 0x5_ba03);
    lemma_sum_known(0x3ea3_1890, 0x3e9d_5e8d, true, 0xa3_1890, 124, 0x9d_5e8d, 124, 0x1, 0x1, 0x5_ba03, 19, 0x4_0000, 0x20);
    assert(sub_spec(0x3ea3_1890, 0x3e9d_5e8d) == 0x3c37_4060);
    assert(0x9a_7a82 * 0x1 - 0x97_0a33 * 0x1 == 0x3_704f);
    lemma_sum_known(0x431a_7a82, 0x4317_0a33, true, 0x9a_7a82, 133, 0x97_0a33, 133, 0x1, 0x1, 0x3_704f, 18, 0x2_0000, 0x40);
    assert(sub_spec(0x431a_7a82, 0x4317_0a33) == 0x405c_13c0);
    assert(0xdc_13c0 * 0xb7_4060 == 0x9d89_75b7_6800);
    lemma_product_known(0x405c_13c0, 0x3c37_4060, 0xdc_13c0, 127, 0xb7_4060, 119, 0x9d89_75b7_6800, 48, 0x8000_0000_0000, 0x100_0000);
    assert(mul_spec(0x405c_13c0, 0x3c37_4060) == 0x3d1d_8976);
    assert(0x9d_8976 * 0x1_0000_0000_0000_0000 == 0x1_3b12_ec00_0000_0000 * 0x80_0000 + 0x0);
    lemma_quotient_known(0x3d1d_8976, 0x3c80_0000, 0x9d_8976, 121, 0x80_0000, 120, 0x1_3b12_ec00_0000_0000, 0x0, 66, 0x2_0000_0000_0000_0000, 0x400_0000_0000);
    assert(div_spec(0x3d1d_8976, 0x3c80_0000) == 0x401d_8976);
    assert(0x97_0a33 * 0x40 + 0x9d_8976 * 0x1 == 0x2660_1636);
    lemma_sum_known(0x4317_0a33, 0x401d_8976, false, 0x97_0a33, 133, 0x9d_8976, 127, 0x40, 0x1, 0x2660_1636, 30, 0x2000_0000, 0x40);
    assert(add_spec(0x4317_0a33, 0x401d_8976) == 0x4319_8059);
    lemma_whole_known(0x4319_8059, 0x99_8059, 133, 0x1_0000);
}

/// Code 154.
proof fn lemma_code_154()
    ensures
        chord_code(0x3ea5_7307, 0x3ea5_5e8d, 0x3ead_5e8d, 0x431a_7a82, 0x431d_d06c) == 154,
{
    reveal(chord_code);
    lemma2_to64();
    lemma2_to64_rest();
    lemma_high_powers();
    assert(0xad_5e8d * 0x1 - 0xa5_5e8d * 0x1 == 0x8_0000);
    lemma_sum_known(0x3ead_5e8d, 0x3ea5_5e8d, true, 0xad_5e8d, 124, 0xa5_5e8d, 124, 0x1, 0x1, 0x8_0000, 20, 0x8_0000, 0x10);
    assert(sub_spec(0x3ead_5e8d, 0x3ea5_5e8d) == 0x3c80_0000);
    assert(0xa5_7307 * 0x1 - 0xa5_5e8d * 0x1 == 0x147a);
    lemma_sum_known(0x3ea5_7307, 0x3ea5_5e8d, true, 0xa5_7307, 124, 0xa5_5e8d, 124, 0x1, 0x1, 0x147a, 13, 0x1000, 0x800);
    assert(sub_spec(0x3ea5_7307, 0x3ea5_5e8d) == 0x3923_d000);
    assert(0x9d_d06c * 0x1 - 0x9a_7a82 * 0x1 == 0x3_55ea);
    lemma_sum_known(0x431d_d06c, 0x431a_7a82, true, 0x9d_d06c, 133, 0x9a_7a82, 133, 0x1, 0x1, 0x3_55ea, 18, 0x2_0000, 0x40);
    assert(sub_spec(0x431d_d06c, 0x431a_7a82) == 0x4055_7a80);
    assert(0xd5_7a80 * 0xa3_d000 == 0x889a_7308_0000);
    lemma_product_known(0x4055_7a80, 0x3923_d000, 0xd5_7a80, 127, 0xa3_d000, 113, 0x889a_7308_0000, 48, 0x8000_0000_0000, 0x100_0000);
    assert(mul_spec(0x4055_7a80, 0x3923_d000) == 0x3a08_9a73);
    assert(0x88_9a73 * 0x1_0000_0000_0000_0000 == 0x1_1134_e600_0000_0000 * 0x80_0000 + 0x0);
    lemma_quotient_known(0x3a08_9a73, 0x3c80_0000, 0x88_9a73, 115, 0x80_0000, 120, 0x1_1134_e600_0000_0000, 0x0, 66, 0x2_0000_0000_0000_0000, 0x400_0000_0000);
    assert(div_spec(0x3a08_9a73, 0x3c80_0000) == 0x3d08_9a73);
    assert(0x9a_7a82 * 0x1000 + 0x88_9a73 * 0x1 == 0x9_a830_ba73);
    lemma_sum_known(0x431a_7a82, 0x3d08_9a73, false, 0x9a_7a82, 133, 0x88_9a73, 121, 0x1000, 0x1, 0x9_a830_ba73, 36, 0x8_0000_0000, 0x1000);
    assert(add_spec(0x431a_7a82, 0x3d08_9a73) == 0x431a_830c);
    lemma_whole_known(0x431a_830c, 0x9a_830c, 133, 0x1_0000);
}

/// Code 155.
proof fn lemma_code_155()
    ensures
        chord_code(0x3ea7_d288, 0x3ea5_5e8d, 0x3ead_5e8d, 0x431a_7a82, 0x431d_d06c) == 155,
{
    reveal(chord_code);
    lemma2_to64();
    lemma2_to64_rest();
    lemma_high_powers();
    assert(0xad_5e8d * 0x1 - 0xa5_5e8d * 0x1 == 0x8_0000);
    lemma_sum_known(0x3ead_5e8d, 0x3ea5_5e8d, true, 0xad_5e8d, 124, 0xa5_5e8d, 124, 0x1, 0x1, 0x8_0000, 20, 0x8_0000, 0x10);
    assert(sub_spec(0x3ead_5e8d, 0x3ea5_5e8d) == 0x3c80_0000);
    assert(0xa7_d288 * 0x1 - 0xa5_5e8d * 0x1 == 0x2_73fb);
    lemma_sum_known(0x3ea7_d288, 0x3ea5_5e8d, true, 0xa7_d288, 124, 0xa5_5e8d, 124, 0x1, 0x1, 0x2_73fb, 18, 0x2_0000, 0x40);
    assert(sub_spec(0x3ea7_d288, 0x3ea5_5e8d) == 0x3b9c_fec0);
    assert(0x9d_d06c * 0x1 - 0x9a_7a82 * 0x1 == 0x3_55ea);
    lemma_sum_known(0x431d_d06c, 0x431a_7a82, true, 0x9d_d06c, 133, 0x9a_7a82, 133, 0x1, 0x1, 0x3_55ea, 18, 0x2_0000, 0x40);
    assert(sub_spec(0x431d_d06c, 0x431a_7a82) == 0x4055_7a80);
    assert(0xd5_7a80 * 0x9c_fec0 == 0x82eb_15a6_e000);
    lemma_product_known(0x4055_7a80, 0x3b9c_fec0, 0xd5_7a80, 127, 0x9c_fec0, 118, 0x82eb_15a6_e000, 48, 0x8000_0000_0000, 0x100_0000);
    assert(mul_spec(0x4055_7a80, 0x3b9c_fec0) == 0x3c82_eb16);
    assert(0x82_eb16 * 0x1_0000_0000_0000_0000 == 0x1_05d6_2c00_0000_0000 * 0x80_0000 + 0x0);
    lemma_quotient_known(0x3c82_eb16, 0x3c80_0000, 0x82_eb16, 120, 0x80_0000, 120, 0x1_05d6_2c00_0000_0000, 0x0, 66, 0x2_0000_0000_0000_0000, 0x400_0000_0000);
    assert(div_spec(0x3c82_eb16, 0x3c80_0000) == 0x3f82_eb16);
    assert(0x9a_7a82 * 0x80 + 0x82_eb16 * 0x1 == 0x4dc0_2c16);
    lemma_sum_known(0x431a_7a82, 0x3f82_eb16, false, 0x9a_7a82, 133, 0x82_eb16, 126, 0x80, 0x1, 0x4dc0_2c16, 31, 0x4000_0000, 0x80);
    assert(add_spec(0x431a_7a82, 0x3f82_eb16) == 0x431b_8058);
    lemma_whole_known(0x431b_8058, 0x9b_8058, 133, 0x1_0000);
}

/// Code 156.
proof fn lemma_code_156()
    ensures
        chord_code(0x3eaa_3716, 0x3ea5_5e8d, 0x3ead_5e8d, 0x431a_7a82, 0x431d_d06c) == 156,
{
    reveal(chord_code);
    lemma2_to64();
    lemma2_to64_rest();
    lemma_high_powers();
    assert(0xad_5e8d * 0x1 - 0xa5_5e8d * 0x1 == 0x8_0000);
    lemma_sum_known(0x3ead_5e8d, 0x3ea5_5e8d, true, 0xad_5e8d, 124, 0xa5_5e8d, 124, 0x1, 0x1, 0x8_0000, 20, 0x8_0000, 0x10);
    assert(sub_spec(0x3ead_5e8d, 0x3ea5_5e8d) == 0x3c80_0000);
    assert(0xaa_3716 * 0x1 - 0xa5_5e8d * 0x1 == 0x4_d889);
    lemma_sum_known(0x3eaa_3716, 0x3ea5_5e8d, true, 0xaa_3716, 124, 0xa5_5e8d, 124, 0x1, 0x1, 0x4_d889, 19, 0x4_0000, 0x20);
    assert(sub_spec(0x3eaa_3716, 0x3ea5_5e8d) == 0x3c1b_1120);
    assert(0x9d_d06c * 0x1 - 0x9a_7a82 * 0x1 == 0x3_55ea);
    lemma_sum_known(0x431d_d06c, 0x431a_7a82, true, 0x9d_d06c, 133, 0x9a_7a82, 133, 0x1, 0x1, 0x3_55ea, 18, 0x2_0000, 0x40);
    assert(sub_spec(0x431d_d06c, 0x431a_7a82) == 0x4055_7a80);
    assert(0xd5_7a80 * 0x9b_1120 == 0x814f_7351_d000);
    lemma_product_known(0x4055_7a80, 0x3c1b_1120, 0xd5_7a80, 127, 0x9b_1120, 119, 0x814f_7351_d000, 48, 0x8000_0000_0000, 0x100_0000);
    assert(mul_spec(0x4055_7a80, 0x3c1b_1120) == 0x3d01_4f73);
    assert(0x81_4f73 * 0x1_0000_0000_0000_0000 == 0x1_029e_e600_0000_0000 * 0x80_0000 + 0x0);
    lemma_quotient_known(0x3d01_4f73, 0x3c80_0000, 0x81_4f73, 121, 0x80_0000, 120, 0x1_029e_e600_0000_0000, 0x0, 66, 0x2_0000_0000_0000_0000, 0x400_0000_0000);
    assert(div_spec(0x3d01_4f73, 0x3c80_0000) == 0x4001_4f73);
    assert(0x9a_7a82 * 0x40 + 0x81_4f73 * 0x1 == 0x271f_eff3);
    lemma_sum_known(0x431a_7a82, 0x4001_4f73, false, 0x9a_7a82, 133, 0x81_4f73, 127, 0x40, 0x1, 0x271f_eff3, 30, 0x2000_0000, 0x40);
    assert(add_spec(0x431a_7a82, 0x4001_4f73) == 0x431c_7fc0);
    lemma_whole_known(0x431c_7fc0, 0x9c_7fc0, 133, 0x1_0000);
}

/// Code 157.
proof fn lemma_code_157()
    ensures
        chord_code(0x3eac_a0b6, 0x3ea5_5e8d, 0x3ead_5e8d, 0x431a_7a82, 0x431d_d06c) == 157,
{
    reveal(chord_code);
    lemma2_to64();
    lemma2_to64_rest();
    lemma_high_powers();
    assert(0xad_5e8d * 0x1 - 0xa5_5e8d * 0x1 == 0x8_0000);
    lemma_sum_known(0x3ead_5e8d, 0x3ea5_5e8d, true, 0xad_5e8d, 124, 0xa5_5e8d, 124, 0x1, 0x1, 0x8_0000, 20, 0x8_0000, 0x10);
    assert(sub_spec(0x3ead_5e8d, 0x3ea5_5e8d) == 0x3c80_0000);
    assert(0xac_a0b6 * 0x1 - 0xa5_5e8d * 0x1 == 0x7_4229);
    lemma_sum_known(0x3eac_a0b6, 0x3ea5_5e8d, true, 0xac_a0b6, 124, 0xa5_5e8d, 124, 0x1, 0x1, 0x7_4229, 19, 0x4_0000, 0x20);
    assert(sub_spec(0x3eac_a0b6, 0x3ea5_5e8d) == 0x3c68_4520);
    assert(0x9d_d06c * 0x1 - 0x9a_7a82 * 0x1 == 0x3_55ea);
    lemma_sum_known(0x431d_d06c, 0x431a_7a82, true, 0x9d_d06c, 133, 0x9a_7a82, 133, 0x1, 0x1, 0x3_55ea, 18, 0x2_0000, 0x40);
    assert(sub_spec(0x431d_d06c, 0x431a_7a82) == 0x4055_7a80);
    assert(0xd5_7a80 * 0xe8_4520 == 0xc1b0_a8b3_d000);
    lemma_product_known(0x4055_7a80, 0x3c68_4520, 0xd5_7a80, 127, 0xe8_4520, 119, 0xc1b0_a8b3_d000, 48, 0x8000_0000_0000, 0x100_0000);
    assert(mul_spec(0x4055_7a80, 0x3c68_4520) == 0x3d41_b0a9);
    assert(0xc1_b0a9 * 0x1_0000_0000_0000_0000 == 0x1_8361_5200_0000_0000 * 0x80_0000 + 0x0);
    lemma_quotient_known(0x3d41_b0a9, 0x3c80_0000, 0xc1_b0a9, 121, 0x80_0000, 120, 0x1_8361_5200_0000_0000, 0x0, 66, 0x2_0000_0000_0000_0000, 0x400_0000_0000);
    assert(div_spec(0x3d41_b0a9, 0x3c80_0000) == 0x4041_b0a9);
    assert(0x9a_7a82 * 0x40 + 0xc1_b0a9 * 0x1 == 0x2760_5129);
    lemma_sum_known(0x431a_7a82, 0x4041_b0a9, false, 0x9a_7a82, 133, 0xc1_b0a9, 127, 0x40, 0x1, 0x2760_5129, 30, 0x2000_0000, 0x40);
    assert(add_spec(0x431a_7a82, 0x4041_b0a9) == 0x431d_8145);
    lemma_whole_known(0x431d_8145, 0x9d_8145, 133, 0x1_0000);
}

/// Code 158.
proof fn lemma_code_158()
    ensures
        chord_code(0x3eaf_0f68, 0x3ead_5e8d, 0x3eb5_5e8d, 0x431d_d06c, 0x4321_109e) == 158,
{
    reveal(chord_code);
    lemma2_to64();
    lemma2_to64_rest();
    lemma_high_powers();
    assert(0xb5_5e8d * 0x1 - 0xad_5e8d * 0x1 == 0x8_0000);
    lemma_sum_known(0x3eb5_5e8d, 0x3ead_5e8d, true, 0xb5_5e8d, 124, 0xad_5e8d, 124, 0x1, 0x1, 0x8_0000, 20, 0x8_0000, 0x10);
    assert(sub_spec(0x3eb5_5e8d, 0x3ead_5e8d) == 0x3c80_0000);
    assert(0xaf_0f68 * 0x1 - 0xad_5e8d * 0x1 == 0x1_b0db);
    lemma_sum_known(0x3eaf_0f68, 0x3ead_5e8d, true, 0xaf_0f68, 124, 0xad_5e8d, 124, 0x1, 0x1, 0x1_b0db, 17, 0x1_0000, 0x80);
    assert(sub_spec(0x3eaf_0f68, 0x3ead_5e8d) == 0x3b58_6d80);
    assert(0xa1_109e * 0x1 - 0x9d_d06c * 0x1 == 0x3_4032);
    lemma_sum_known(0x4321_109e, 0x431d_d06c, true, 0xa1_109e, 133, 0x9d_d06c, 133, 0x1, 0x1, 0x3_4032, 18, 0x2_0000, 0x40);
    assert(sub_spec(0x4321_109e, 0x431d_d06c) == 0x4050_0c80);
    assert(0xd0_0c80 * 0xd8_6d80 == 0xafe3_8958_c000);
    lemma_product_known(0x4050_0c80, 0x3b58_6d80, 0xd0_0c80, 127, 0xd8_6d80, 117, 0xafe3_8958_c000, 48, 0x8000_0000_0000, 0x100_0000);
    assert(mul_spec(0x4050_0c80, 0x3b58_6d80) == 0x3c2f_e389);
    assert(0xaf_e389 * 0x1_0000_0000_0000_0000 == 0x1_5fc7_1200_0000_0000 * 0x80_0000 + 0x0);
    lemma_quotient_known(0x3c2f_e389, 0x3c80_0000, 0xaf_e389, 119, 0x80_0000, 120, 0x1_5fc7_1200_0000_0000, 0x0, 66, 0x2_0000_0000_0000_0000, 0x400_0000_0000);
    assert(div_spec(0x3c2f_e389, 0x3c80_0000) == 0x3f2f_e389);
    assert(0x9d_d06c * 0x100 + 0xaf_e389 * 0x1 == 0x9e80_4f89);
    lemma_sum_known(0x431d_d06c, 0x3f2f_e389, false, 0x9d_d06c, 133, 0xaf_e389, 125, 0x100, 0x1, 0x9e80_4f89, 32, 0x8000_0000, 0x100);
    assert(add_spec(0x431d_d06c, 0x3f2f_e389) == 0x431e_8050);
    lemma_whole_known(0x431e_8050, 0x9e_8050, 133, 0x1_0000);
}

/// Code 159.
proof fn lemma_code_159()
    ensures
        chord_code(0x3eb1_8332, 0x3ead_5e8d, 0x3eb5_5e8d, 0x431d_d06c, 0x4321_109e) == 159,
{
    reveal(chord_code);
    lemma2_to64();
    lemma2_to64_rest();
    lemma_high_powers();
    assert(0xb5_5e8d * 0x1 - 0xad_5e8d * 0x1 == 0x8_0000);
    lemma_sum_known(0x3eb5_5e8d, 0x3ead_5e8d, true, 0xb5_5e8d, 124, 0xad_5e8d, 124, 0x1, 0x1, 0x8_0000, 20, 0x8_0000, 0x10);
    assert(sub_spec(0x3eb5_5e8d, 0x3ead_5e8d) == 0x3c80_0000);
    assert(0xb1_8332 * 0x1 - 0xad_5e8d * 0x1 == 0x4_24a5);
    lemma_sum_known(0x3eb1_8332, 0x3ead_5e8d, true, 0xb1_8332, 124, 0xad_5e8d, 124, 0x1, 0x1, 0x4_24a5, 19, 0x4_0000, 0x20);
    assert(sub_spec(0x3eb1_8332, 0x3ead_5e8d) == 0x3c04_94a0);
    assert(0xa1_109e * 0x1 - 0x9d_d06c * 0x1 == 0x3_4032);
    lemma_sum_known(0x4321_109e, 0x431d_d06c, true, 0xa1_109e, 133, 0x9d_d06c, 133, 0x1, 0x1, 0x3_4032, 18, 0x2_0000, 0x40);
    assert(sub_spec(0x4321_109e, 0x431d_d06c) == 0x4050_0c80);
    assert(0xd0_0c80 * 0x84_94a0 == 0x6bbf_3b41_d000);
    lemma_product_known(0x4050_0c80, 0x3c04_94a0, 0xd0_0c80, 127, 0x84_94a0, 119, 0x6bbf_3b41_d000, 47, 0x4000_0000_0000, 0x80_0000);
    assert(mul_spec(0x4050_0c80, 0x3c04_94a0) == 0x3cd7_7e77);
    assert(0xd7_7e77 * 0x1_0000_0000_0000_0000 == 0x1_aefc_ee00_0000_0000 * 0x80_0000 + 0x0);
    lemma_quotient_known(0x3cd7_7e77, 0x3c80_0000, 0xd7_7e77, 120, 0x80_0000, 120, 0x1_aefc_ee00_0000_0000, 0x0, 66, 0x2_0000_0000_0000_0000, 0x400_0000_0000);
    assert(div_spec(0x3cd7_7e77, 0x3c80_0000) == 0x3fd7_7e77);
    assert(0x9d_d06c * 0x80 + 0xd7_7e77 * 0x1 == 0x4fbf_b477);
    lemma_sum_known(0x431d_d06c, 0x3fd7_7e77, false, 0x9d_d06c, 133, 0xd7_7e77, 126, 0x80, 0x1, 0x4fbf_b477, 31, 0x4000_0000, 0x80);
    assert(add_spec(0x431d_d06c, 0x3fd7_7e77) == 0x431f_7f69);
    lemma_whole_known(0x431f_7f69, 0x9f_7f69, 133, 0x1_0000);
}

/// Code 160.
proof fn lemma_code_160()
    ensures
        chord_code(0x3eb3_fc15, 0x3ead_5e8d, 0x3eb5_5e8d, 0x431d_d06c, 0x4321_109e) == 160,
{
    reveal(chord_code);
    lemma2_to64();
    lemma2_to64_rest();
    lemma_high_powers();
    assert(0xb5_5e8d * 0x1 - 0xad_5e8d * 0x1 == 0x8_0000);
    lemma_sum_known(0x3eb5_5e8d, 0x3ead_5e8d, true, 0xb5_5e8d, 124, 0xad_5e8d, 124, 0x1, 0x1, 0x8_0000, 20, 0x8_0000, 0x10);
    assert(sub_spec(0x3eb5_5e8d, 0x3ead_5e8d) == 0x3c80_0000);
    assert(0xb3_fc15 * 0x1 - 0xad_5e8d * 0x1 == 0x6_9d88);
    lemma_sum_known(0x3eb3_fc15, 0x3ead_5e8d, true, 0xb3_fc15, 124, 0xad_5e8d, 124, 0x1, 0x1, 0x6_9d88, 19, 0x4_0000, 0x20);
    assert(sub_spec(0x3eb3_fc15, 0x3ead_5e8d) == 0x3c53_b100);
    assert(0xa1_109e * 0x1 - 0x9d_d06c * 0x1 == 0x3_4032);
    lemma_sum_known(0x4321_109e, 0x431d_d06c, true, 0xa1_109e, 133, 0x9d_d06c, 133, 0x1, 0x1, 0x3_4032, 18, 0x2_0000, 0x40);
    assert(sub_spec(0x4321_109e, 0x431d_d06c) == 0x4050_0c80);
    assert(0xd0_0c80 * 0xd3_b100 == 0xac0a_2624_8000);
    lemma_product_known(0x4050_0c80, 0x3c53_b100, 0xd0_0c80, 127, 0xd3_b100, 119, 0xac0a_2624_8000, 48, 0x8000_0000_0000, 0x100_0000);
    assert(mul_spec(0x4050_0c80, 0x3c53_b100) == 0x3d2c_0a26);
    assert(0xac_0a26 * 0x1_0000_0000_0000_0000 == 0x1_5814_4c00_0000_0000 * 0x80_0000 + 0x0);
    lemma_quotient_known(0x3d2c_0a26, 0x3c80_0000, 0xac_0a26, 121, 0x80_0000, 120, 0x1_5814_4c00_0000_0000, 0x0, 66, 0x2_0000_0000_0000_0000, 0x400_0000_0000);
    assert(div_spec(0x3d2c_0a26, 0x3c80_0000) == 0x402c_0a26);
    assert(0x9d_d06c * 0x40 + 0xac_0a26 * 0x1 == 0x2820_2526);
    lemma_sum_known(0x431d_d06c, 0x402c_0a26, false, 0x9d_d06c, 133, 0xac_0a26, 127, 0x40, 0x1, 0x2820_2526, 30, 0x2000_0000, 0x40);
    assert(add_spec(0x431d_d06c, 0x402c_0a26) == 0x4320_8095);
    lemma_whole_known(0x4320_8095, 0xa0_8095, 133, 0x1_0000);
}

/// Code 161.
proof fn lemma_code_161()
    ensures
        chord_code(0x3eb6_7a14, 0x3eb5_5e8d, 0x3ebd_5e8d, 0x4321_109e, 0x4324_3be0) == 161,
{
    reveal(chord_code);
    lemma2_to64();
    lemma2_to64_rest();
    lemma_high_powers();
    assert(0xbd_5e8d * 0x1 - 0xb5_5e8d * 0x1 == 0x8_0000);
    lemma_sum_known(0x3ebd_5e8d, 0x3eb5_5e8d, true, 0xbd_5e8d, 124, 0xb5_5e8d, 124, 0x1, 0x1, 0x8_0000, 20, 0x8_0000, 0x10);
    assert(sub_spec(0x3ebd_5e8d, 0x3eb5_5e8d) == 0x3c80_0000);
    assert(0xb6_7a14 * 0x1 - 0xb5_5e8d * 0x1 == 0x1_1b87);
    lemma_sum_known(0x3eb6_7a14, 0x3eb5_5e8d, true, 0xb6_7a14, 124, 0xb5_5e8d, 124, 0x1, 0x1, 0x1_1b87, 17, 0x1_0000, 0x80);
    assert(sub_spec(0x3eb6_7a14, 0x3eb5_5e8d) == 0x3b0d_c380);
    assert(0xa4_3be0 * 0x1 - 0xa1_109e * 0x1 == 0x3_2b42);
    lemma_sum_known(0x4324_3be0, 0x4321_109e, true, 0xa4_3be0, 133, 0xa1_109e, 133, 0x1, 0x1, 0x3_2b42, 18, 0x2_0000, 0x40);
    assert(sub_spec(0x4324_3be0, 0x4321_109e) == 0x404a_d080);
    assert(0xca_d080 * 0x8d_c380 == 0x704f_b8b9_c000);
    lemma_product_known(0x404a_d080, 0x3b0d_c380, 0xca_d080, 127, 0x8d_c380, 117, 0x704f_b8b9_c000, 47, 0x4000_0000_0000, 0x80_0000);
    assert(mul_spec(0x404a_d080, 0x3b0d_c380) == 0x3be0_9f71);
    assert(0xe0_9f71 * 0x1_0000_0000_0000_0000 == 0x1_c13e_e200_0000_0000 * 0x80_0000 + 0x0);
    lemma_quotient_known(0x3be0_9f71, 0x3c80_0000, 0xe0_9f71, 118, 0x80_0000, 120, 0x1_c13e_e200_0000_0000, 0x0, 66, 0x2_0000_0000_0000_0000, 0x400_0000_0000);
    assert(div_spec(0x3be0_9f71, 0x3c80_0000) == 0x3ee0_9f71);
    assert(0xa1_109e * 0x200 + 0xe0_9f71 * 0x1 == 0x1_4301_db71);
    lemma_sum_known(0x4321_109e, 0x3ee0_9f71, false, 0xa1_109e, 133, 0xe0_9f71, 124, 0x200, 0x1, 0x1_4301_db71, 33, 0x1_0000_0000, 0x200);
    assert(add_spec(0x4321_109e, 0x3ee0_9f71) == 0x4321_80ee);
    lemma_whole_known(0x4321_80ee, 0xa1_80ee, 133, 0x1_0000);
}

/// Code 162.
proof fn lemma_code_162()
    ensures
        chord_code(0x3eb8_fd34, 0x3eb5_5e8d, 0x3ebd_5e8d, 0x4321_109e, 0x4324_3be0) == 162,
{
    reveal(chord_code);
    lemma2_to64();
    lemma2_to64_rest();
    lemma_high_powers();
    assert(0xbd_5e8d * 0x1 - 0xb5_5e8d * 0x1 == 0x8_0000);
    lemma_sum_known(0x3ebd_5e8d, 0x3eb5_5e8d, true, 0xbd_5e8d, 124, 0xb5_5e8d, 124, 0x1, 0x1, 0x8_0000, 20, 0x8_0000, 0x10);
    assert(sub_spec(0x3ebd_5e8d, 0x3eb5_5e8d) == 0x3c80_0000);
    assert(0xb8_fd34 * 0x1 - 0xb5_5e8d * 0x1 == 0x3_9ea7);
    lemma_sum_known(0x3eb8_fd34, 0x3eb5_5e8d, true, 0xb8_fd34, 124, 0xb5_5e8d, 124, 0x1, 0x1, 0x3_9ea7, 18, 0x2_0000, 0x40);
    assert(sub_spec(0x3eb8_fd34, 0x3eb5_5e8d) == 0x3be7_a9c0);
    assert(0xa4_3be0 * 0x1 - 0xa1_109e * 0x1 == 0x3_2b42);
    lemma_sum_known(0x4324_3be0, 0x4321_109e, true, 0xa4_3be0, 133, 0xa1_109e, 133, 0x1, 0x1, 0x3_2b42, 18, 0x2_0000, 0x40);
    assert(sub_spec(0x4324_3be0, 0x4321_109e) == 0x404a_d080);
    assert(0xca_d080 * 0xe7_a9c0 == 0xb788_9f40_e000);
    lemma_product_known(0x404a_d080, 0x3be7_a9c0, 0xca_d080, 127, 0xe7_a9c0, 118, 0xb788_9f40_e000, 48, 0x8000_0000_0000, 0x100_0000);
    assert(mul_spec(0x404a_d080, 0x3be7_a9c0) == 0x3cb7_889f);
    assert(0xb7_889f * 0x1_0000_0000_0000_0000 == 0x1_6f11_3e00_0000_0000 * 0x80_0000 + 0x0);
    lemma_quotient_known(0x3cb7_889f, 0x3c80_0000, 0xb7_889f, 120, 0x80_0000, 120, 0x1_6f11_3e00_0000_0000, 0x0, 66, 0x2_0000_0000_0000_0000, 0x400_0000_0000);
    assert(div_spec(0x3cb7_889f, 0x3c80_0000) == 0x3fb7_889f);
    assert(0xa1_109e * 0x80 + 0xb7_889f * 0x1 == 0x513f_d79f);
    lemma_sum_known(0x4321_109e, 0x3fb7_889f, false, 0xa1_109e, 133, 0xb7_889f, 126, 0x80, 0x1, 0x513f_d79f, 31, 0x4000_0000, 0x80);
    assert(add_spec(0x4321_109e, 0x3fb7_889f) == 0x4322_7faf);
    lemma_whole_known(0x4322_7faf, 0xa2_7faf, 133, 0x1_0000);
}

/// Code 163.
proof fn lemma_code_163()
    ensures
        chord_code(0x3ebb_8576, 0x3eb5_5e8d, 0x3ebd_5e8d, 0x4321_109e, 0x4324_3be0) == 163,
{
    reveal(chord_code);
    lemma2_to64();
    lemma2_to64_rest();
    lemma_high_powers();
    assert(0xbd_5e8d * 0x1 - 0xb5_5e8d * 0x1 == 0x8_0000);
    lemma_sum_known(0x3ebd_5e8d, 0x3eb5_5e8d, true, 0xbd_5e8d, 124, 0xb5_5e8d, 124, 0x1, 0x1, 0x8_0000, 20, 0x8_0000, 0x10);
    assert(sub_spec(0x3ebd_5e8d, 0x3eb5_5e8d) == 0x3c80_0000);
    assert(0xbb_8576 * 0x1 - 0xb5_5e8d * 0x1 == 0x6_26e9);
    lemma_sum_known(0x3ebb_8576, 0x3eb5_5e8d, true, 0xbb_8576, 124, 0xb5_5e8d, 124, 0x1, 0x1, 0x6_26e9, 19, 0x4_0000, 0x20);
    assert(sub_spec(0x3ebb_8576, 0x3eb5_5e8d) == 0x3c44_dd20);
    assert(0xa4_3be0 * 0x1 - 0xa1_109e * 0x1 == 0x3_2b42);
    lemma_sum_known(0x4324_3be0, 0x4321_109e, true, 0xa4_3be0, 133, 0xa1_109e, 133, 0x1, 0x1, 0x3_2b42, 18, 0x2_0000, 0x40);
    assert(sub_spec(0x4324_3be0, 0x4321_109e) == 0x404a_d080);
    assert(0xca_d080 * 0xc4_dd20 == 0x9bf6_d158_9000);
    lemma_product_known(0x404a_d080, 0x3c44_dd20, 0xca_d080, 127, 0xc4_dd20, 119, 0x9bf6_d158_9000, 48, 0x8000_0000_0000, 0x100_0000);
    assert(mul_spec(0x404a_d080, 0x3c44_dd20) == 0x3d1b_f6d1);
    assert(0x9b_f6d1 * 0x1_0000_0000_0000_0000 == 0x1_37ed_a200_0000_0000 * 0x80_0000 + 0x0);
    lemma_quotient_known(0x3d1b_f6d1, 0x3c80_0000, 0x9b_f6d1, 121, 0x80_0000, 120, 0x1_37ed_a200_0000_0000, 0x0, 66, 0x2_0000_0000_0000_0000, 0x400_0000_0000);
    assert(div_spec(0x3d1b_f6d1, 0x3c80_0000) == 0x401b_f6d1);
    assert(0xa1_109e * 0x40 + 0x9b_f6d1 * 0x1 == 0x28e0_1e51);
    lemma_sum_known(0x4321_109e, 0x401b_f6d1, false, 0xa1_109e, 133, 0x9b_f6d1, 127, 0x40, 0x1, 0x28e0_1e51, 30, 0x2000_0000, 0x40);
    assert(add_spec(0x4321_109e, 0x401b_f6d1) == 0x4323_8079);
    lemma_whole_known(0x4323_8079, 0xa3_8079, 133, 0x1_0000);
}

/// Code 164.
proof fn lemma_code_164()
    ensures
        chord_code(0x3ebe_12de, 0x3ebd_5e8d, 0x3ec5_5e8d, 0x4324_3be0, 0x4327_535e) == 164,
{
    reveal(chord_code);
    lemma2_to64();
    lemma2_to64_rest();
    lemma_high_powers();
    assert(0xc5_5e8d * 0x1 - 0xbd_5e8d * 0x1 == 0x8_0000);
    lemma_sum_known(0x3ec5_5e8d, 0x3ebd_5e8d, true, 0xc5_5e8d, 124, 0xbd_5e8d, 124, 0x1, 0x1, 0x8_0000, 20, 0x8_0000, 0x10);
    assert(sub_spec(0x3ec5_5e8d, 0x3ebd_5e8d) == 0x3c80_0000);
    assert(0xbe_12de * 0x1 - 0xbd_5e8d * 0x1 == 0xb451);
    lemma_sum_known(0x3ebe_12de, 0x3ebd_5e8d, true, 0xbe_12de, 124, 0xbd_5e8d, 124, 0x1, 0x1, 0xb451, 16, 0x8000, 0x100);
    assert(sub_spec(0x3ebe_12de, 0x3ebd_5e8d) == 0x3ab4_5100);
    assert(0xa7_535e * 0x1 - 0xa4_3be0 * 0x1 == 0x3_177e);
    lemma_sum_known(0x4327_535e, 0x4324_3be0, true, 0xa7_535e, 133, 0xa4_3be0, 133, 0x1, 0x1, 0x3_177e, 18, 0x2_0000, 0x40);
    assert(sub_spec(0x4327_535e, 0x4324_3be0) == 0x4045_df80);
    assert(0xc5_df80 * 0xb4_5100 == 0x8b5f_c1b7_8000);
    lemma_product_known(0x4045_df80, 0x3ab4_5100, 0xc5_df80, 127, 0xb4_5100, 116, 0x8b5f_c1b7_8000, 48, 0x8000_0000_0000, 0x100_0000);
    assert(mul_spec(0x4045_df80, 0x3ab4_5100) == 0x3b8b_5fc2);
    assert(0x8b_5fc2 * 0x1_0000_0000_0000_0000 == 0x1_16bf_8400_0000_0000 * 0x80_0000 + 0x0);
    lemma_quotient_known(0x3b8b_5fc2, 0x3c80_0000, 0x8b_5fc2, 118, 0x80_0000, 120, 0x1_16bf_8400_0000_0000, 0x0, 66, 0x2_0000_0000_0000_0000, 0x400_0000_0000);
    assert(div_spec(0x3b8b_5fc2, 0x3c80_0000) == 0x3e8b_5fc2);
    assert(0xa4_3be0 * 0x200 + 0x8b_5fc2 * 0x1 == 0x1_4903_1fc2);
    lemma_sum_known(0x4324_3be0, 0x3e8b_5fc2, false, 0xa4_3be0, 133, 0x8b_5fc2, 124, 0x200, 0x1, 0x1_4903_1fc2, 33, 0x1_0000_0000, 0x200);
    assert(add_spec(0x4324_3be0, 0x3e8b_5fc2) == 0x4324_8190);
    lemma_whole_known(0x4324_8190, 0xa4_8190, 133, 0x1_0000);
}

/// Code 165.
proof fn lemma_code_165()
    ensures
        chord_code(0x3ec0_a56e, 0x3ebd_5e8d, 0x3ec5_5e8d, 0x4324_3be0, 0x4327_535e) == 165,
{
    reveal(chord_code);
    lemma2_to64();
    lemma2_to64_rest();
    lemma_high_powers();
    assert(0xc5_5e8d * 0x1 - 0xbd_5e8d * 0x1 == 0x8_0000);
    lemma_sum_known(0x3ec5_5e8d, 0x3ebd_5e8d, true, 0xc5_5e8d, 124, 0xbd_5e8d, 124, 0x1, 0x1, 0x8_0000, 20, 0x8_0000, 0x10);
    assert(sub_spec(0x3ec5_5e8d, 0x3ebd_5e8d) == 0x3c80_0000);
    assert(0xc0_a56e * 0x1 - 0xbd_5e8d * 0x1 == 0x3_46e1);
    lemma_sum_known(0x3ec0_a56e, 0x3ebd_5e8d, true, 0xc0_a56e, 124, 0xbd_5e8d, 124, 0x1, 0x1, 0x3_46e1, 18, 0x2_0000, 0x40);
    assert(sub_spec(0x3ec0_a56e, 0x3ebd_5e8d) == 0x3bd1_b840);
    assert(0xa7_535e * 0x1 - 0xa4_3be0 * 0x1 == 0x3_177e);
    lemma_sum_known(0x4327_535e, 0x4324_3be0, true, 0xa7_535e, 133, 0xa4_3be0, 133, 0x1, 0x1, 0x3_177e, 18, 0x2_0000, 0x40);
    assert(sub_spec(0x4327_535e, 0x4324_3be0) == 0x4045_df80);
    assert(0xc5_df80 * 0xd1_b840 == 0xa219_e19b_e000);
    lemma_product_known(0x4045_df80, 0x3bd1_b840, 0xc5_df80, 127, 0xd1_b840, 118, 0xa219_e19b_e000, 48, 0x8000_0000_0000, 0x100_0000);
    assert(mul_spec(0x4045_df80, 0x3bd1_b840) == 0x3ca2_19e2);
    assert(0xa2_19e2 * 0x1_0000_0000_0000_0000 == 0x1_4433_c400_0000_0000 * 0x80_0000 + 0x0);
    lemma_quotient_known(0x3ca2_19e2, 0x3c80_0000, 0xa2_19e2, 120, 0x80_0000, 120, 0x1_4433_c400_0000_0000, 0x0, 66, 0x2_0000_0000_0000_0000, 0x400_0000_0000);
    assert(div_spec(0x3ca2_19e2, 0x3c80_0000) == 0x3fa2_19e2);
    assert(0xa4_3be0 * 0x80 + 0xa2_19e2 * 0x1 == 0x52c0_09e2);
    lemma_sum_known(0x4324_3be0, 0x3fa2_19e2, false, 0xa4_3be0, 133, 0xa2_19e2, 126, 0x80, 0x1, 0x52c0_09e2, 31, 0x4000_0000, 0x80);
    assert(add_spec(0x4324_3be0, 0x3fa2_19e2) == 0x4325_8014);
    lemma_whole_known(0x4325_8014, 0xa5_8014, 133, 0x1_0000);
}

/// Code 166.
proof fn lemma_code_166()
    ensures
        chord_code(0x3ec3_3d2a, 0x3ebd_5e8d, 0x3ec5_5e8d, 0x4324_3be0, 0x4327_535e) == 166,
{
    reveal(chord_code);
    lemma2_to64();
    lemma2_to64_rest();
    lemma_high_powers();
    assert(0xc5_5e8d * 0x1 - 0xbd_5e8d * 0x1 == 0x8_0000);
    lemma_sum_known(0x3ec5_5e8d, 0x3ebd_5e8d, true, 0xc5_5e8d, 124, 0xbd_5e8d, 124, 0x1, 0x1, 0x8_0000, 20, 0x8_0000, 0x10);
    assert(sub_spec(0x3ec5_5e8d, 0x3ebd_5e8d) == 0x3c80_0000);
    assert(0xc3_3d2a * 0x1 - 0xbd_5e8d * 0x1 == 0x5_de9d);
    lemma_sum_known(0x3ec3_3d2a, 0x3ebd_5e8d, true, 0xc3_3d2a, 124, 0xbd_5e8d, 124, 0x1, 0x1, 0x5_de9d, 19, 0x4_0000, 0x20);
    assert(sub_spec(0x3ec3_3d2a, 0x3ebd_5e8d) == 0x3c3b_d3a0);
    assert(0xa7_535e * 0x1 - 0xa4_3be0 * 0x1 == 0x3_177e);
    lemma_sum_known(0x4327_535e, 0x4324_3be0, true, 0xa7_535e, 133, 0xa4_3be0, 133, 0x1, 0x1, 0x3_177e, 18, 0x2_0000, 0x40);
    assert(sub_spec(0x4327_535e, 0x4324_3be0) == 0x4045_df80);
    assert(0xc5_df80 * 0xbb_d3a0 == 0x912d_d562_3000);
    lemma_product_known(0x4045_df80, 0x3c3b_d3a0, 0xc5_df80, 127, 0xbb_d3a0, 119, 0x912d_d562_3000, 48, 0x8000_0000_0000, 0x100_0000);
    assert(mul_spec(0x4045_df80, 0x3c3b_d3a0) == 0x3d11_2dd5);
    assert(0x91_2dd5 * 0x1_0000_0000_0000_0000 == 0x1_225b_aa00_0000_0000 * 0x80_0000 + 0x0);
    lemma_quotient_known(0x3d11_2dd5, 0x3c80_0000, 0x91_2dd5, 121, 0x80_0000, 120, 0x1_225b_aa00_0000_0000, 0x0, 66, 0x2_0000_0000_0000_0000, 0x400_0000_0000);
    assert(div_spec(0x3d11_2dd5, 0x3c80_0000) == 0x4011_2dd5);
    assert(0xa4_3be0 * 0x40 + 0x91_2dd5 * 0x1 == 0x29a0_25d5);
    lemma_sum_known(0x4324_3be0, 0x4011_2dd5, false, 0xa4_3be0, 133, 0x91_2dd5, 127, 0x40, 0x1, 0x29a0_25d5, 30, 0x2000_0000, 0x40);
    assert(add_spec(0x4324_3be0, 0x4011_2dd5) == 0x4326_8097);
    lemma_whole_known(0x4326_8097, 0xa6_8097, 133, 0x1_0000);
}

/// Code 167.
proof fn lemma_code_167()
    ensures
        chord_code(0x3ec5_da14, 0x3ec5_5e8d, 0x3ecd_5e8d, 0x4327_535e, 0x432a_57db) == 167,
{
    reveal(chord_code);
    lemma2_to64();
    lemma2_to64_rest();
    lemma_high_powers();
    assert(0xcd_5e8d * 0x1 - 0xc5_5e8d * 0x1 == 0x8_0000);
    lemma_sum_known(0x3ecd_5e8d, 0x3ec5_5e8d, true, 0xcd_5e8d, 124, 0xc5_5e8d, 124, 0x1, 0x1, 0x8_0000, 20, 0x8_0000, 0x10);
    assert(sub_spec(0x3ecd_5e8d, 0x3ec5_5e8d) == 0x3c80_0000);
    assert(0xc5_da14 * 0x1 - 0xc5_5e8d * 0x1 == 0x7b87);
    lemma_sum_known(0x3ec5_da14, 0x3ec5_5e8d, true, 0xc5_da14, 124, 0xc5_5e8d, 124, 0x1, 0x1, 0x7b87, 15, 0x4000, 0x200);
    assert(sub_spec(0x3ec5_da14, 0x3ec5_5e8d) == 0x3a77_0e00);
    assert(0xaa_57db * 0x1 - 0xa7_535e * 0x1 == 0x3_047d);
    lemma_sum_known(0x432a_57db, 0x4327_535e, true, 0xaa_57db, 133, 0xa7_535e, 133, 0x1, 0x1, 0x3_047d, 18, 0x2_0000, 0x40);
    assert(sub_spec(0x432a_57db, 0x4327_535e) == 0x4041_1f40);
    assert(0xc1_1f40 * 0xf7_0e00 == 0xba5f_b675_8000);
    lemma_product_known(0x4041_1f40, 0x3a77_0e00, 0xc1_1f40, 127, 0xf7_0e00, 115, 0xba5f_b675_8000, 48, 0x8000_0000_0000, 0x100_0000);
    assert(mul_spec(0x4041_1f40, 0x3a77_0e00) == 0x3b3a_5fb6);
    assert(0xba_5fb6 * 0x1_0000_0000_0000_0000 == 0x1_74bf_6c00_0000_0000 * 0x80_0000 + 0x0);
    lemma_quotient_known(0x3b3a_5fb6, 0x3c80_0000, 0xba_5fb6, 117, 0x80_0000, 120, 0x1_74bf_6c00_0000_0000, 0x0, 66, 0x2_0000_0000_0000_0000, 0x400_0000_0000);
    assert(div_spec(0x3b3a_5fb6, 0x3c80_0000) == 0x3e3a_5fb6);
    assert(0xa7_535e * 0x400 + 0xba_5fb6 * 0x1 == 0x2_9e07_d7b6);
    lemma_sum_known(0x4327_535e, 0x3e3a_5fb6, false, 0xa7_535e, 133, 0xba_5fb6, 123, 0x400, 0x1, 0x2_9e07_d7b6, 34, 0x2_0000_0000, 0x400);
    assert(add_spec(0x4327_535e, 0x3e3a_5fb6) == 0x4327_81f6);
    lemma_whole_known(0x4327_81f6, 0xa7_81f6, 133, 0x1_0000);
}

/// Code 168.
proof fn lemma_code_168()
    ensures
        chord_code(0x3ec8_7c30, 0x3ec5_5e8d, 0x3ecd_5e8d, 0x4327_535e, 0x432a_57db) == 168,
{
    reveal(chord_code);
    lemma2_to64();
    lemma2_to64_rest();
    lemma_high_powers();
    assert(0xcd_5e8d * 0x1 - 0xc5_5e8d * 0x1 == 0x8_0000);
    lemma_sum_known(0x3ecd_5e8d, 0x3ec5_5e8d, true, 0xcd_5e8d, 124, 0xc5_5e8d, 124, 0x1, 0x1, 0x8_0000, 20, 0x8_0000, 0x10);
    assert(sub_spec(0x3ecd_5e8d, 0x3ec5_5e8d) == 0x3c80_0000);
    assert(0xc8_7c30 * 0x1 - 0xc5_5e8d * 0x1 == 0x3_1da3);
    lemma_sum_known(0x3ec8_7c30, 0x3ec5_5e8d, true, 0xc8_7c30, 124, 0xc5_5e8d, 124, 0x1, 0x1, 0x3_1da3, 18, 0x2_0000, 0x40);
    assert(sub_spec(0x3ec8_7c30, 0x3ec5_5e8d) == 0x3bc7_68c0);
    assert(0xaa_57db * 0x1 - 0xa7_535e * 0x1 == 0x3_047d);
    lemma_sum_known(0x432a_57db, 0x4327_535e, true, 0xaa_57db, 133, 0xa7_535e, 133, 0x1, 0x1, 0x3_047d, 18, 0x2_0000, 0x40);
    assert(sub_spec(0x432a_57db, 0x4327_535e) == 0x4041_1f40);
    assert(0xc1_1f40 * 0xc7_68c0 == 0x966e_5049_7000);
    lemma_product_known(0x4041_1f40, 0x3bc7_68c0, 0xc1_1f40, 127, 0xc7_68c0, 118, 0x966e_5049_7000, 48, 0x8000_0000_0000, 0x100_0000);
    assert(mul_spec(0x4041_1f40, 0x3bc7_68c0) == 0x3c96_6e50);
    assert(0x96_6e50 * 0x1_0000_0000_0000_0000 == 0x1_2cdc_a000_0000_0000 * 0x80_0000 + 0x0);
    lemma_quotient_known(0x3c96_6e50, 0x3c80_0000, 0x96_6e50, 120, 0x80_0000, 120, 0x1_2cdc_a000_0000_0000, 0x0, 66, 0x2_0000_0000_0000_0000, 0x400_0000_0000);
    assert(div_spec(0x3c96_6e50, 0x3c80_0000) == 0x3f96_6e50);
    assert(0xa7_535e * 0x80 + 0x96_6e50 * 0x1 == 0x5440_1d50);
    lemma_sum_known(0x4327_535e, 0x3f96_6e50, false, 0xa7_535e, 133, 0x96_6e50, 126, 0x80, 0x1, 0x5440_1d50, 31, 0x4000_0000, 0x80);
    assert(add_spec(0x4327_535e, 0x3f96_6e50) == 0x4328_803b);
    lemma_whole_known(0x4328_803b, 0xa8_803b, 133, 0x1_0000);
}

/// Code 169.
proof fn lemma_code_169()
    ensures
        chord_code(0x3ecb_2380, 0x3ec5_5e8d, 0x3ecd_5e8d, 0x4327_535e, 0x432a_57db) == 169,
{
    reveal(chord_code);
    lemma2_to64();
    lemma2_to64_rest();
    lemma_high_powers();
    assert(0xcd_5e8d * 0x1 - 0xc5_5e8d * 0x1 == 0x8_0000);
    lemma_sum_known(0x3ecd_5e8d, 0x3ec5_5e8d, true, 0xcd_5e8d, 124, 0xc5_5e8d, 124, 0x1, 0x1, 0x8_0000, 20, 0x8_0000, 0x10);
    assert(sub_spec(0x3ecd_5e8d, 0x3ec5_5e8d) == 0x3c80_0000);
    assert(0xcb_2380 * 0x1 - 0xc5_5e8d * 0x1 == 0x5_c4f3);
    lemma_sum_known(0x3ecb_2380, 0x3ec5_5e8d, true, 0xcb_2380, 124, 0xc5_5e8d, 124, 0x1, 0x1, 0x5_c4f3, 19, 0x4_0000, 0x20);
    assert(sub_spec(0x3ecb_2380, 0x3ec5_5e8d) == 0x3c38_9e60);
    assert(0xaa_57db * 0x1 - 0xa7_535e * 0x1 == 0x3_047d);
    lemma_sum_known(0x432a_57db, 0x4327_535e, true, 0xaa_57db, 133, 0xa7_535e, 133, 0x1, 0x1, 0x3_047d, 18, 0x2_0000, 0x40);
    assert(sub_spec(0x432a_57db, 0x4327_535e) == 0x4041_1f40);
    assert(0xc1_1f40 * 0xb8_9e60 == 0x8b45_efb5_3800);
    lemma_product_known(0x4041_1f40, 0x3c38_9e60, 0xc1_1f40, 127, 0xb8_9e60, 119, 0x8b45_efb5_3800, 48, 0x8000_0000_0000, 0x100_0000);
    assert(mul_spec(0x4041_1f40, 0x3c38_9e60) == 0x3d0b_45f0);
    assert(0x8b_45f0 * 0x1_0000_0000_0000_0000 == 0x1_168b_e000_0000_0000 * 0x80_0000 + 0x0);
    lemma_quotient_known(0x3d0b_45f0, 0x3c80_0000, 0x8b_45f0, 121, 0x80_0000, 120, 0x1_168b_e000_0000_0000, 0x0, 66, 0x2_0000_0000_0000_0000, 0x400_0000_0000);
    assert(div_spec(0x3d0b_45f0, 0x3c80_0000) == 0x400b_45f0);
    assert(0xa7_535e * 0x40 + 0x8b_45f0 * 0x1 == 0x2a60_1d70);
    lemma_sum_known(0x4327_535e, 0x400b_45f0, false, 0xa7_535e, 133, 0x8b_45f0, 127, 0x40, 0x1, 0x2a60_1d70, 30, 0x2000_0000, 0x40);
    assert(add_spec(0x4327_535e, 0x400b_45f0) == 0x4329_8076);
    lemma_whole_known(0x4329_8076, 0xa9_8076, 133, 0x1_0000);
}

/// Code 170.
proof fn lemma_code_170()
    ensures
        chord_code(0x3ecd_d008, 0x3ecd_5e8d, 0x3ed5_5e8d, 0x432a_57db, 0x432d_4b13) == 170,
{
    reveal(chord_code);
    lemma2_to64();
    lemma2_to64_rest();
    lemma_high_powers();
    assert(0xd5_5e8d * 0x1 - 0xcd_5e8d * 0x1 == 0x8_0000);
    lemma_sum_known(0x3ed5_5e8d, 0x3ecd_5e8d, true, 0xd5_5e8d, 124, 0xcd_5e8d, 124, 0x1, 0x1, 0x8_0000, 20, 0x8_0000, 0x10);
    assert(sub_spec(0x3ed5_5e8d, 0x3ecd_5e8d) == 0x3c80_0000);
    assert(0xcd_d008 * 0x1 - 0xcd_5e8d * 0x1 == 0x717b);
    lemma_sum_known(0x3ecd_d008, 0x3ecd_5e8d, true, 0xcd_d008, 124, 0xcd_5e8d, 124, 0x1, 0x1, 0x717b, 15, 0x4000, 0x200);
    assert(sub_spec(0x3ecd_d008, 0x3ecd_5e8d) == 0x3a62_f600);
    assert(0xad_4b13 * 0x1 - 0xaa_57db * 0x1 == 0x2_f338);
    lemma_sum_known(0x432d_4b13, 0x432a_57db, true, 0xad_4b13, 133, 0xaa_57db, 133, 0x1, 0x1, 0x2_f338, 18, 0x2_0000, 0x40);
    assert(sub_spec(0x432d_4b13, 0x432a_57db) == 0x403c_ce00);
    assert(0xbc_ce00 * 0xe2_f600 == 0xa763_49f4_0000);
    lemma_product_known(0x403c_ce00, 0x3a62_f600, 0xbc_ce00, 127, 0xe2_f600, 115, 0xa763_49f4_0000, 48, 0x8000_0000_0000, 0x100_0000);
    assert(mul_spec(0x403c_ce00, 0x3a62_f600) == 0x3b27_634a);
    assert(0xa7_634a * 0x1_0000_0000_0000_0000 == 0x1_4ec6_9400_0000_0000 * 0x80_0000 + 0x0);
    lemma_quotient_known(0x3b27_634a, 0x3c80_0000, 0xa7_634a, 117, 0x80_0000, 120, 0x1_4ec6_9400_0000_0000, 0x0, 66, 0x2_0000_0000_0000_0000, 0x400_0000_0000);
    assert(div_spec(0x3b27_634a, 0x3c80_0000) == 0x3e27_634a);
    assert(0xaa_57db * 0x400 + 0xa7_634a * 0x1 == 0x2_aa06_cf4a);
    lemma_sum_known(0x432a_57db, 0x3e27_634a, false, 0xaa_57db, 133, 0xa7_634a, 123, 0x400, 0x1, 0x2_aa06_cf4a, 34, 0x2_0000_0000, 0x400);
    assert(add_spec(0x432a_57db, 0x3e27_634a) == 0x432a_81b4);
    lemma_whole_known(0x432a_81b4, 0xaa_81b4, 133, 0x1_0000);
}

/// Code 171.
proof fn lemma_code_171()
    ensures
        chord_code(0x3ed0_81ca, 0x3ecd_5e8d, 0x3ed5_5e8d, 0x432a_57db, 0x432d_4b13) == 171,
{
    reveal(chord_code);
    lemma2_to64();
    lemma2_to64_rest();
    lemma_high_powers();
    assert(0xd5_5e8d * 0x1 - 0xcd_5e8d * 0x1 == 0x8_0000);
    lemma_sum_known(0x3ed5_5e8d, 0x3ecd_5e8d, true, 0xd5_5e8d, 124, 0xcd_5e8d, 124, 0x1, 0x1, 0x8_0000, 20, 0x8_0000, 0x10);
    assert(sub_spec(0x3ed5_5e8d, 0x3ecd_5e8d) == 0x3c80_0000);
    assert(0xd0_81ca * 0x1 - 0xcd_5e8d * 0x1 == 0x3_233d);
    lemma_sum_known(0x3ed0_81ca, 0x3ecd_5e8d, true, 0xd0_81ca, 124, 0xcd_5e8d, 124, 0x1, 0x1, 0x3_233d, 18, 0x2_0000, 0x40);
    assert(sub_spec(0x3ed0_81ca, 0x3ecd_5e8d) == 0x3bc8_cf40);
    assert(0xad_4b13 * 0x1 - 0xaa_57db * 0x1 == 0x2_f338);
    lemma_sum_known(0x432d_4b13, 0x432a_57db, true, 0xad_4b13, 133, 0xaa_57db, 133, 0x1, 0x1, 0x2_f338, 18, 0x2_0000, 0x40);
    assert(sub_spec(0x432d_4b13, 0x432a_57db) == 0x403c_ce00);
    assert(0xbc_ce00 * 0xc8_cf40 == 0x9419_c9c5_8000);
    lemma_product_known(0x403c_ce00, 0x3bc8_cf40, 0xbc_ce00, 127, 0xc8_cf40, 118, 0x9419_c9c5_8000, 48, 0x8000_0000_0000, 0x100_0000);
    assert(mul_spec(0x403c_ce00, 0x3bc8_cf40) == 0x3c94_19ca);
    assert(0x94_19ca * 0x1_0000_0000_0000_0000 == 0x1_2833_9400_0000_0000 * 0x80_0000 + 0x0);
    lemma_quotient_known(0x3c94_19ca, 0x3c80_0000, 0x94_19ca, 120, 0x80_0000, 120, 0x1_2833_9400_0000_0000, 0x0, 66, 0x2_0000_0000_0000_0000, 0x400_0000_0000);
    assert(div_spec(0x3c94_19ca, 0x3c80_0000) == 0x3f94_19ca);
    assert(0xaa_57db * 0x80 + 0x94_19ca * 0x1 == 0x55c0_074a);
    lemma_sum_known(0x432a_57db, 0x3f94_19ca, false, 0xaa_57db, 133, 0x94_19ca, 126, 0x80, 0x1, 0x55c0_074a, 31, 0x4000_0000, 0x80);
    assert(add_spec(0x432a_57db, 0x3f94_19ca) == 0x432b_800f);
    lemma_whole_known(0x432b_800f, 0xab_800f, 133, 0x1_0000);
}

/// Code 172.
proof fn lemma_code_172()
    ensures
        chord_code(0x3ed3_38c9, 0x3ecd_5e8d, 0x3ed5_5e8d, 0x432a_57db, 0x432d_4b13) == 172,
{
    reveal(chord_code);
    lemma2_to64();
    lemma2_to64_rest();
    lemma_high_powers();
    assert(0xd5_5e8d * 0x1 - 0xcd_5e8d * 0x1 == 0x8_0000);
    lemma_sum_known(0x3ed5_5e8d, 0x3ecd_5e8d, true, 0xd5_5e8d, 124, 0xcd_5e8d, 124, 0x1, 0x1, 0x8_0000, 20, 0x8_0000, 0x10);
    assert(sub_spec(0x3ed5_5e8d, 0x3ecd_5e8d) == 0x3c80_0000);
    assert(0xd3_38c9 * 0x1 - 0xcd_5e8d * 0x1 == 0x5_da3c);
    lemma_sum_known(0x3ed3_38c9, 0x3ecd_5e8d, true, 0xd3_38c9, 124, 0xcd_5e8d, 124, 0x1, 0x1, 0x5_da3c, 19, 0x4_0000, 0x20);
    assert(sub_spec(0x3ed3_38c9, 0x3ecd_5e8d) == 0x3c3b_4780);
    assert(0xad_4b13 * 0x1 - 0xaa_57db * 0x1 == 0x2_f338);
    lemma_sum_known(0x432d_4b13, 0x432a_57db, true, 0xad_4b13, 133, 0xaa_57db, 133, 0x1, 0x1, 0x2_f338, 18, 0x2_0000, 0x40);
    assert(sub_spec(0x432d_4b13, 0x432a_57db) == 0x403c_ce00);
    assert(0xbc_ce00 * 0xbb_4780 == 0x8a1f_3589_0000);
    lemma_product_known(0x403c_ce00, 0x3c3b_4780, 0xbc_ce00, 127, 0xbb_4780, 119, 0x8a1f_3589_0000, 48, 0x8000_0000_0000, 0x100_0000);
    assert(mul_spec(0x403c_ce00, 0x3c3b_4780) == 0x3d0a_1f36);
    assert(0x8a_1f36 * 0x1_0000_0000_0000_0000 == 0x1_143e_6c00_0000_0000 * 0x80_0000 + 0x0);
    lemma_quotient_known(0x3d0a_1f36, 0x3c80_0000, 0x8a_1f36, 121, 0x80_0000, 120, 0x1_143e_6c00_0000_0000, 0x0, 66, 0x2_0000_0000_0000_0000, 0x400_0000_0000);
    assert(div_spec(0x3d0a_1f36, 0x3c80_0000) == 0x400a_1f36);
    assert(0xaa_57db * 0x40 + 0x8a_1f36 * 0x1 == 0x2b20_15f6);
    lemma_sum_known(0x432a_57db, 0x400a_1f36, false, 0xaa_57db, 133, 0x8a_1f36, 127, 0x40, 0x1, 0x2b20_15f6, 30, 0x2000_0000, 0x40);
    assert(add_spec(0x432a_57db, 0x400a_1f36) == 0x432c_8058);
    lemma_whole_known(0x432c_8058, 0xac_8058, 133, 0x1_0000);
}

/// Code 173.
proof fn lemma_code_173()
    ensures
        chord_code(0x3ed5_f508, 0x3ed5_5e8d, 0x3edd_5e8d, 0x432d_4b13, 0x4330_2e35) == 173,
{
    reveal(chord_code);
    lemma2_to64();
    lemma2_to64_rest();
    lemma_high_powers();
    assert(0xdd_5e8d * 0x1 - 0xd5_5e8d * 0x1 == 0x8_0000);
    lemma_sum_known(0x3edd_5e8d, 0x3ed5_5e8d, true, 0xdd_5e8d, 124, 0xd5_5e8d, 124, 0x1, 0x1, 0x8_0000, 20, 0x8_0000, 0x10);
    assert(sub_spec(0x3edd_5e8d, 0x3ed5_5e8d) == 0x3c80_0000);
    assert(0xd5_f508 * 0x1 - 0xd5_5e8d * 0x1 == 0x967b);
    lemma_sum_known(0x3ed5_f508, 0x3ed5_5e8d, true, 0xd5_f508, 124, 0xd5_5e8d, 124, 0x1, 0x1, 0x967b, 16, 0x8000, 0x100);
    assert(sub_spec(0x3ed5_f508, 0x3ed5_5e8d) == 0x3a96_7b00);
    assert(0xb0_2e35 * 0x1 - 0xad_4b13 * 0x1 == 0x2_e322);
    lemma_sum_known(0x4330_2e35, 0x432d_4b13, true, 0xb0_2e35, 133, 0xad_4b13, 133, 0x1, 0x1, 0x2_e322, 18, 0x2_0000, 0x40);
    assert(sub_spec(0x4330_2e35, 0x432d_4b13) == 0x4038_c880);
    assert(0xb8_c880 * 0x96_7b00 == 0x6c9e_4355_8000);
    lemma_product_known(0x4038_c880, 0x3a96_7b00, 0xb8_c880, 127, 0x96_7b00, 116, 0x6c9e_4355_8000, 47, 0x4000_0000_0000, 0x80_0000);
    assert(mul_spec(0x4038_c880, 0x3a96_7b00) == 0x3b59_3c87);
    assert(0xd9_3c87 * 0x1_0000_0000_0000_0000 == 0x1_b279_0e00_0000_0000 * 0x80_0000 + 0x0);
    lemma_quotient_known(0x3b59_3c87, 0x3c80_0000, 0xd9_3c87, 117, 0x80_0000, 120, 0x1_b279_0e00_0000_0000, 0x0, 66, 0x2_0000_0000_0000_0000, 0x400_0000_0000);
    assert(div_spec(0x3b59_3c87, 0x3c80_0000) == 0x3e59_3c87);
    assert(0xad_4b13 * 0x400 + 0xd9_3c87 * 0x1 == 0x2_b605_8887);
    lemma_sum_known(0x432d_4b13, 0x3e59_3c87, false, 0xad_4b13, 133, 0xd9_3c87, 123, 0x400, 0x1, 0x2_b605_8887, 34, 0x2_0000_0000, 0x400);
    assert(add_spec(0x432d_4b13, 0x3e59_3c87) == 0x432d_8162);
    lemma_whole_known(0x432d_8162, 0xad_8162, 133, 0x1_0000);
}

/// Code 174.
proof fn lemma_code_174()
    ensures
        chord_code(0x3ed8_b68a, 0x3ed5_5e8d, 0x3edd_5e8d, 0x432d_4b13, 0x4330_2e35) == 174,
{
    reveal(chord_code);
    lemma2_to64();
    lemma2_to64_rest();
    lemma_high_powers();
    assert(0xdd_5e8d * 0x1 - 0xd5_5e8d * 0x1 == 0x8_0000);
    lemma_sum_known(0x3edd_5e8d, 0x3ed5_5e8d, true, 0xdd_5e8d, 124, 0xd5_5e8d, 124, 0x1, 0x1, 0x8_0000, 20, 0x8_0000, 0x10);
    assert(sub_spec(0x3edd_5e8d, 0x3ed5_5e8d) == 0x3c80_0000);
    assert(0xd8_b68a * 0x1 - 0xd5_5e8d * 0x1 == 0x3_57fd);
    lemma_sum_known(0x3ed8_b68a, 0x3ed5_5e8d, true, 0xd8_b68a, 124, 0xd5_5e8d, 124, 0x1, 0x1, 0x3_57fd, 18, 0x2_0000, 0x40);
    assert(sub_spec(0x3ed8_b68a, 0x3ed5_5e8d) == 0x3bd5_ff40);
    assert(0xb0_2e35 * 0x1 - 0xad_4b13 * 0x1 == 0x2_e322);
    lemma_sum_known(0x4330_2e35, 0x432d_4b13, true, 0xb0_2e35, 133, 0xad_4b13, 133, 0x1, 0x1, 0x2_e322, 18, 0x2_0000, 0x40);
    assert(sub_spec(0x4330_2e35, 0x432d_4b13) == 0x4038_c880);
    assert(0xb8_c880 * 0xd5_ff40 == 0x9a77_1069_a000);
    lemma_product_known(0x4038_c880, 0x3bd5_ff40, 0xb8_c880, 127, 0xd5_ff40, 118, 0x9a77_1069_a000, 48, 0x8000_0000_0000, 0x100_0000);
    assert(mul_spec(0x4038_c880, 0x3bd5_ff40) == 0x3c9a_7710);
    assert(0x9a_7710 * 0x1_0000_0000_0000_0000 == 0x1_34ee_2000_0000_0000 * 0x80_0000 + 0x0);
    lemma_quotient_known(0x3c9a_7710, 0x3c80_0000, 0x9a_7710, 120, 0x80_0000, 120, 0x1_34ee_2000_0000_0000, 0x0, 66, 0x2_0000_0000_0000_0000, 0x400_0000_0000);
    assert(div_spec(0x3c9a_7710, 0x3c80_0000) == 0x3f9a_7710);
    assert(0xad_4b13 * 0x80 + 0x9a_7710 * 0x1 == 0x5740_0090);
    lemma_sum_known(0x432d_4b13, 0x3f9a_7710, false, 0xad_4b13, 133, 0x9a_7710, 126, 0x80, 0x1, 0x5740_0090, 31, 0x4000_0000, 0x80);
    assert(add_spec(0x432d_4b13, 0x3f9a_7710) == 0x432e_8001);
    lemma_whole_known(0x432e_8001, 0xae_8001, 133, 0x1_0000);
}

/// Code 175.
proof fn lemma_code_175()
    ensures
        chord_code(0x3edb_7d52, 0x3ed5_5e8d, 0x3edd_5e8d, 0x432d_4b13, 0x4330_2e35) == 175,
{
    reveal(chord_code);
    lemma2_to64();
    lemma2_to64_rest();
    lemma_high_powers();
    assert(0xdd_5e8d * 0x1 - 0xd5_5e8d * 0x1 == 0x8_0000);
    lemma_sum_known(0x3edd_5e8d, 0x3ed5_5e8d, true, 0xdd_5e8d, 124, 0xd5_5e8d, 124, 0x1, 0x1, 0x8_0000, 20, 0x8_0000, 0x10);
    assert(sub_spec(0x3edd_5e8d, 0x3ed5_5e8d) == 0x3c80_0000);
    assert(0xdb_7d52 * 0x1 - 0xd5_5e8d * 0x1 == 0x6_1ec5);
    lemma_sum_known(0x3edb_7d52, 0x3ed5_5e8d, true, 0xdb_7d52, 124, 0xd5_5e8d, 124, 0x1, 0x1, 0x6_1ec5, 19, 0x4_0000, 0x20);
    assert(sub_spec(0x3edb_7d52, 0x3ed5_5e8d) == 0x3c43_d8a0);
    assert(0xb0_2e35 * 0x1 - 0xad_4b13 * 0x1 == 0x2_e322);
    lemma_sum_known(0x4330_2e35, 0x432d_4b13, true, 0xb0_2e35, 133, 0xad_4b13, 133, 0x1, 0x1, 0x2_e322, 18, 0x2_0000, 0x40);
    assert(sub_spec(0x4330_2e35, 0x432d_4b13) == 0x4038_c880);
    assert(0xb8_c880 * 0xc3_d8a0 == 0x8d5d_1629_5000);
    lemma_product_known(0x4038_c880, 0x3c43_d8a0, 0xb8_c880, 127, 0xc3_d8a0, 119, 0x8d5d_1629_5000, 48, 0x8000_0000_0000, 0x100_0000);
    assert(mul_spec(0x4038_c880, 0x3c43_d8a0) == 0x3d0d_5d16);
    assert(0x8d_5d16 * 0x1_0000_0000_0000_0000 == 0x1_1aba_2c00_0000_0000 * 0x80_0000 + 0x0);
    lemma_quotient_known(0x3d0d_5d16, 0x3c80_0000, 0x8d_5d16, 121, 0x80_0000, 120, 0x1_1aba_2c00_0000_0000, 0x0, 66, 0x2_0000_0000_0000_0000, 0x400_0000_0000);
    assert(div_spec(0x3d0d_5d16, 0x3c80_0000) == 0x400d_5d16);
    assert(0xad_4b13 * 0x40 + 0x8d_5d16 * 0x1 == 0x2be0_21d6);
    lemma_sum_known(0x432d_4b13, 0x400d_5d16, false, 0xad_4b13, 133, 0x8d_5d16, 127, 0x40, 0x1, 0x2be0_21d6, 30, 0x2000_0000, 0x40);
    assert(add_spec(0x432d_4b13, 0x400d_5d16) == 0x432f_8087);
    lemma_whole_known(0x432f_8087, 0xaf_8087, 133, 0x1_0000);
}

/// Code 176.
proof fn lemma_code_176()
    ensures
        chord_code(0x3ede_4963, 0x3edd_5e8d, 0x3ee5_5e8d, 0x4330_2e35, 0x4333_01c5) == 176,
{
    reveal(chord_code);
    lemma2_to64();
    lemma2_to64_rest();
    lemma_high_powers();
    assert(0xe5_5e8d * 0x1 - 0xdd_5e8d * 0x1 == 0x8_0000);
    lemma_sum_known(0x3ee5_5e8d, 0x3edd_5e8d, true, 0xe5_5e8d, 124, 0xdd_5e8d, 124, 0x1, 0x1, 0x8_0000, 20, 0x8_0000, 0x10);
    assert(sub_spec(0x3ee5_5e8d, 0x3edd_5e8d) == 0x3c80_0000);
    assert(0xde_4963 * 0x1 - 0xdd_5e8d * 0x1 == 0xead6);
    lemma_sum_known(0x3ede_4963, 0x3edd_5e8d, true, 0xde_4963, 124, 0xdd_5e8d, 124, 0x1, 0x1, 0xead6, 16, 0x8000, 0x100);
    assert(sub_spec(0x3ede_4963, 0x3edd_5e8d) == 0x3aea_d600);
    assert(0xb3_01c5 * 0x1 - 0xb0_2e35 * 0x1 == 0x2_d390);
    lemma_sum_known(0x4333_01c5, 0x4330_2e35, true, 0xb3_01c5, 133, 0xb0_2e35, 133, 0x1, 0x1, 0x2_d390, 18, 0x2_0000, 0x40);
    assert(sub_spec(0x4333_01c5, 0x4330_2e35) == 0x4034_e400);
    assert(0xb4_e400 * 0xea_d600 == 0xa5ef_9e98_0000);
    lemma_product_known(0x4034_e400, 0x3aea_d600, 0xb4_e400, 127, 0xea_d600, 116, 0xa5ef_9e98_0000, 48, 0x8000_0000_0000, 0x100_0000);
    assert(mul_spec(0x4034_e400, 0x3aea_d600) == 0x3ba5_ef9f);
    assert(0xa5_ef9f * 0x1_0000_0000_0000_0000 == 0x1_4bdf_3e00_0000_0000 * 0x80_0000 + 0x0);
    lemma_quotient_known(0x3ba5_ef9f, 0x3c80_0000, 0xa5_ef9f, 118, 0x80_0000, 120, 0x1_4bdf_3e00_0000_0000, 0x0, 66, 0x2_0000_0000_0000_0000, 0x400_0000_0000);
    assert(div_spec(0x3ba5_ef9f, 0x3c80_0000) == 0x3ea5_ef9f);
    assert(0xb0_2e35 * 0x200 + 0xa5_ef9f * 0x1 == 0x1_6102_599f);
    lemma_sum_known(0x4330_2e35, 0x3ea5_ef9f, false, 0xb0_2e35, 133, 0xa5_ef9f, 124, 0x200, 0x1, 0x1_6102_599f, 33, 0x1_0000_0000, 0x200);
    assert(add_spec(0x4330_2e35, 0x3ea5_ef9f) == 0x4330_812d);
    lemma_whole_known(0x4330_812d, 0xb0_812d, 133, 0x1_0000);
}

/// Code 177.
proof fn lemma_code_177()
    ensures
        chord_code(0x3ee1_1abf, 0x3edd_5e8d, 0x3ee5_5e8d, 0x4330_2e35, 0x4333_01c5) == 177,
{
    reveal(chord_code);
    lemma2_to64();
    lemma2_to64_rest();
    lemma_high_powers();
    assert(0xe5_5e8d * 0x1 - 0xdd_5e8d * 0x1 == 0x8_0000);
    lemma_sum_known(0x3ee5_5e8d, 0x3edd_5e8d, true, 0xe5_5e8d, 124, 0xdd_5e8d, 124, 0x1, 0x1, 0x8_0000, 20, 0x8_0000, 0x10);
    assert(sub_spec(0x3ee5_5e8d, 0x3edd_5e8d) == 0x3c80_0000);
    assert(0xe1_1abf * 0x1 - 0xdd_5e8d * 0x1 == 0x3_bc32);
    lemma_sum_known(0x3ee1_1abf, 0x3edd_5e8d, true, 0xe1_1abf, 124, 0xdd_5e8d, 124, 0x1, 0x1, 0x3_bc32, 18, 0x2_0000, 0x40);
    assert(sub_spec(0x3ee1_1abf, 0x3edd_5e8d) == 0x3bef_0c80);
    assert(0xb3_01c5 * 0x1 - 0xb0_2e35 * 0x1 == 0x2_d390);
    lemma_sum_known(0x4333_01c5, 0x4330_2e35, true, 0xb3_01c5, 133, 0xb0_2e35, 133, 0x1, 0x1, 0x2_d390, 18, 0x2_0000, 0x40);
    assert(sub_spec(0x4333_01c5, 0x4330_2e35) == 0x4034_e400);
    assert(0xb4_e400 * 0xef_0c80 == 0xa8e9_b122_0000);
    lemma_product_known(0x4034_e400, 0x3bef_0c80, 0xb4_e400, 127, 0xef_0c80, 118, 0xa8e9_b122_0000, 48, 0x8000_0000_0000, 0x100_0000);
    assert(mul_spec(0x4034_e400, 0x3bef_0c80) == 0x3ca8_e9b1);
    assert(0xa8_e9b1 * 0x1_0000_0000_0000_0000 == 0x1_51d3_6200_0000_0000 * 0x80_0000 + 0x0);
    lemma_quotient_known(0x3ca8_e9b1, 0x3c80_0000, 0xa8_e9b1, 120, 0x80_0000, 120, 0x1_51d3_6200_0000_0000, 0x0, 66, 0x2_0000_0000_0000_0000, 0x400_0000_0000);
    assert(div_spec(0x3ca8_e9b1, 0x3c80_0000) == 0x3fa8_e9b1);
    assert(0xb0_2e35 * 0x80 + 0xa8_e9b1 * 0x1 == 0x58c0_0431);
    lemma_sum_known(0x4330_2e35, 0x3fa8_e9b1, false, 0xb0_2e35, 133, 0xa8_e9b1, 126, 0x80, 0x1, 0x58c0_0431, 31, 0x4000_0000, 0x80);
    assert(add_spec(0x4330_2e35, 0x3fa8_e9b1) == 0x4331_8008);
    lemma_whole_known(0x4331_8008, 0xb1_8008, 133, 0x1_0000);
}

/// Code 178.
proof fn lemma_code_178()
    ensures
        chord_code(0x3ee3_f169, 0x3edd_5e8d, 0x3ee5_5e8d, 0x4330_2e35, 0x4333_01c5) == 178,
{
    reveal(chord_code);
    lemma2_to64();
    lemma2_to64_rest();
    lemma_high_powers();
    assert(0xe5_5e8d * 0x1 - 0xdd_5e8d * 0x1 == 0x8_0000);
    lemma_sum_known(0x3ee5_5e8d, 0x3edd_5e8d, true, 0xe5_5e8d, 124, 0xdd_5e8d, 124, 0x1, 0x1, 0x8_0000, 20, 0x8_0000, 0x10);
    assert(sub_spec(0x3ee5_5e8d, 0x3edd_5e8d) == 0x3c80_0000);
    assert(0xe3_f169 * 0x1 - 0xdd_5e8d * 0x1 == 0x6_92dc);
    lemma_sum_known(0x3ee3_f169, 0x3edd_5e8d, true, 0xe3_f169, 124, 0xdd_5e8d, 124, 0x1, 0x1, 0x6_92dc, 19, 0x4_0000, 0x20);
    assert(sub_spec(0x3ee3_f169, 0x3edd_5e8d) == 0x3c52_5b80);
    assert(0xb3_01c5 * 0x1 - 0xb0_2e35 * 0x1 == 0x2_d390);
    lemma_sum_known(0x4333_01c5, 0x4330_2e35, true, 0xb3_01c5, 133, 0xb0_2e35, 133, 0x1, 0x1, 0x2_d390, 18, 0x2_0000, 0x40);
    assert(sub_spec(0x4333_01c5, 0x4330_2e35) == 0x4034_e400);
    assert(0xb4_e400 * 0xd2_5b80 == 0x94a3_af7e_0000);
    lemma_product_known(0x4034_e400, 0x3c52_5b80, 0xb4_e400, 127, 0xd2_5b80, 119, 0x94a3_af7e_0000, 48, 0x8000_0000_0000, 0x100_0000);
    assert(mul_spec(0x4034_e400, 0x3c52_5b80) == 0x3d14_a3af);
    assert(0x94_a3af * 0x1_0000_0000_0000_0000 == 0x1_2947_5e00_0000_0000 * 0x80_0000 + 0x0);
    lemma_quotient_known(0x3d14_a3af, 0x3c80_0000, 0x94_a3af, 121, 0x80_0000, 120, 0x1_2947_5e00_0000_0000, 0x0, 66, 0x2_0000_0000_0000_0000, 0x400_0000_0000);
    assert(div_spec(0x3d14_a3af, 0x3c80_0000) == 0x4014_a3af);
    assert(0xb0_2e35 * 0x40 + 0x94_a3af * 0x1 == 0x2ca0_30ef);
    lemma_sum_known(0x4330_2e35, 0x4014_a3af, false, 0xb0_2e35, 133, 0x94_a3af, 127, 0x40, 0x1, 0x2ca0_30ef, 30, 0x2000_0000, 0x40);
    assert(add_spec(0x4330_2e35, 0x4014_a3af) == 0x4332_80c4);
    lemma_whole_known(0x4332_80c4, 0xb2_80c4, 133, 0x1_0000);
}

/// Code 179.
proof fn lemma_code_179()
    ensures
        chord_code(0x3ee6_cd65, 0x3ee5_5e8d, 0x3eed_5e8d, 0x4333_01c5, 0x4335_c6a9) == 179,
{
    reveal(chord_code);
    lemma2_to64();
    lemma2_to64_rest();
    lemma_high_powers();
    assert(0xed_5e8d * 0x1 - 0xe5_5e8d * 0x1 == 0x8_0000);
    lemma_sum_known(0x3eed_5e8d, 0x3ee5_5e8d, true, 0xed_5e8d, 124, 0xe5_5e8d, 124, 0x1, 0x1, 0x8_0000, 20, 0x8_0000, 0x10);
    assert(sub_spec(0x3eed_5e8d, 0x3ee5_5e8d) == 0x3c80_0000);
    assert(0xe6_cd65 * 0x1 - 0xe5_5e8d * 0x1 == 0x1_6ed8);
    lemma_sum_known(0x3ee6_cd65, 0x3ee5_5e8d, true, 0xe6_cd65, 124, 0xe5_5e8d, 124, 0x1, 0x1, 0x1_6ed8, 17, 0x1_0000, 0x80);
    assert(sub_spec(0x3ee6_cd65, 0x3ee5_5e8d) == 0x3b37_6c00);
    assert(0xb5_c6a9 * 0x1 - 0xb3_01c5 * 0x1 == 0x2_c4e4);
    lemma_sum_known(0x4335_c6a9, 0x4333_01c5, true, 0xb5_c6a9, 133, 0xb3_01c5, 133, 0x1, 0x1, 0x2_c4e4, 18, 0x2_0000, 0x40);
    assert(sub_spec(0x4335_c6a9, 0x4333_01c5) == 0x4031_3900);
    assert(0xb1_3900 * 0xb7_6c00 == 0x7efa_830c_0000);
    lemma_product_known(0x4031_3900, 0x3b37_6c00, 0xb1_3900, 127, 0xb7_6c00, 117, 0x7efa_830c_0000, 47, 0x4000_0000_0000, 0x80_0000);
    assert(mul_spec(0x4031_3900, 0x3b37_6c00) == 0x3bfd_f506);
    assert(0xfd_f506 * 0x1_0000_0000_0000_0000 == 0x1_fbea_0c00_0000_0000 * 0x80_0000 + 0x0);
    lemma_quotient_known(0x3bfd_f506, 0x3c80_0000, 0xfd_f506, 118, 0x80_0000, 120, 0x1_fbea_0c00_0000_0000, 0x0, 66, 0x2_0000_0000_0000_0000, 0x400_0000_0000);
    assert(div_spec(0x3bfd_f506, 0x3c80_0000) == 0x3efd_f506);
    assert(0xb3_01c5 * 0x200 + 0xfd_f506 * 0x1 == 0x1_6701_7f06);
    lemma_sum_known(0x4333_01c5, 0x3efd_f506, false, 0xb3_01c5, 133, 0xfd_f506, 124, 0x200, 0x1, 0x1_6701_7f06, 33, 0x1_0000_0000, 0x200);
    assert(add_spec(0x4333_01c5, 0x3efd_f506) == 0x4333_80c0);
    lemma_whole_known(0x4333_80c0, 0xb3_80c0, 133, 0x1_0000);
}

/// Code 180.
proof fn lemma_code_180()
    ensures
        chord_code(0x3ee9_aeb5, 0x3ee5_5e8d, 0x3eed_5e8d, 0x4333_01c5, 0x4335_c6a9) == 180,
{
    reveal(chord_code);
    lemma2_to64();
    lemma2_to64_rest();
    lemma_high_powers();
    assert(0xed_5e8d * 0x1 - 0xe5_5e8d * 0x1 == 0x8_0000);
    lemma_sum_known(0x3eed_5e8d, 0x3ee5_5e8d, true, 0xed_5e8d, 124, 0xe5_5e8d, 124, 0x1, 0x1, 0x8_0000, 20, 0x8_0000, 0x10);
    assert(sub_spec(0x3eed_5e8d, 0x3ee5_5e8d) == 0x3c80_0000);
    assert(0xe9_aeb5 * 0x1 - 0xe5_5e8d * 0x1 == 0x4_5028);
    lemma_sum_known(0x3ee9_aeb5, 0x3ee5_5e8d, true, 0xe9_aeb5, 124, 0xe5_5e8d, 124, 0x1, 0x1, 0x4_5028, 19, 0x4_0000, 0x20);
    assert(sub_spec(0x3ee9_aeb5, 0x3ee5_5e8d) == 0x3c0a_0500);
    assert(0xb5_c6a9 * 0x1 - 0xb3_01c5 * 0x1 == 0x2_c4e4);
    lemma_sum_known(0x4335_c6a9, 0x4333_01c5, true, 0xb5_c6a9, 133, 0xb3_01c5, 133, 0x1, 0x1, 0x2_c4e4, 18, 0x2_0000, 0x40);
    assert(sub_spec(0x4335_c6a9, 0x4333_01c5) == 0x4031_3900);
    assert(0xb1_3900 * 0x8a_0500 == 0x5f8c_301d_0000);
    lemma_product_known(0x4031_3900, 0x3c0a_0500, 0xb1_3900, 127, 0x8a_0500, 119, 0x5f8c_301d_0000, 47, 0x4000_0000_0000, 0x80_0000);
    assert(mul_spec(0x4031_3900, 0x3c0a_0500) == 0x3cbf_1860);
    assert(0xbf_1860 * 0x1_0000_0000_0000_0000 == 0x1_7e30_c000_0000_0000 * 0x80_0000 + 0x0);
    lemma_quotient_known(0x3cbf_1860, 0x3c80_0000, 0xbf_1860, 120, 0x80_0000, 120, 0x1_7e30_c000_0000_0000, 0x0, 66, 0x2_0000_0000_0000_0000, 0x400_0000_0000);
    assert(div_spec(0x3cbf_1860, 0x3c80_0000) == 0x3fbf_1860);
    assert(0xb3_01c5 * 0x80 + 0xbf_1860 * 0x1 == 0x5a3f_fae0);
    lemma_sum_known(0x4333_01c5, 0x3fbf_1860, false, 0xb3_01c5, 133, 0xbf_1860, 126, 0x80, 0x1, 0x5a3f_fae0, 31, 0x4000_0000, 0x80);
    assert(add_spec(0x4333_01c5, 0x3fbf_1860) == 0x4334_7ff6);
    lemma_whole_known(0x4334_7ff6, 0xb4_7ff6, 133, 0x1_0000);
}

/// Code 181.
proof fn lemma_code_181()
    ensures
        chord_code(0x3eec_955b, 0x3ee5_5e8d, 0x3eed_5e8d, 0x4333_01c5, 0x4335_c6a9) == 181,
{
    reveal(chord_code);
    lemma2_to64();
    lemma2_to64_rest();
    lemma_high_powers();
    assert(0xed_5e8d * 0x1 - 0xe5_5e8d * 0x1 == 0x8_0000);
    lemma_sum_known(0x3eed_5e8d, 0x3ee5_5e8d, true, 0xed_5e8d, 124, 0xe5_5e8d, 124, 0x1, 0x1, 0x8_0000, 20, 0x8_0000, 0x10);
    assert(sub_spec(0x3eed_5e8d, 0x3ee5_5e8d) == 0x3c80_0000);
    assert(0xec_955b * 0x1 - 0xe5_5e8d * 0x1 == 0x7_36ce);
    lemma_sum_known(0x3eec_955b, 0x3ee5_5e8d, true, 0xec_955b, 124, 0xe5_5e8d, 124, 0x1, 0x1, 0x7_36ce, 19, 0x4_0000, 0x20);
    assert(sub_spec(0x3eec_955b, 0x3ee5_5e8d) == 0x3c66_d9c0);
    assert(0xb5_c6a9 * 0x1 - 0xb3_01c5 * 0x1 == 0x2_c4e4);
    lemma_sum_known(0x4335_c6a9, 0x4333_01c5, true, 0xb5_c6a9, 133, 0xb3_01c5, 133, 0x1, 0x1, 0x2_c4e4, 18, 0x2_0000, 0x40);
    assert(sub_spec(0x4335_c6a9, 0x4333_01c5) == 0x4031_3900);
    assert(0xb1_3900 * 0xe6_d9c0 == 0x9fcf_f43b_c000);
    lemma_product_known(0x4031_3900, 0x3c66_d9c0, 0xb1_3900, 127, 0xe6_d9c0, 119, 0x9fcf_f43b_c000, 48, 0x8000_0000_0000, 0x100_0000);
    assert(mul_spec(0x4031_3900, 0x3c66_d9c0) == 0x3d1f_cff4);
    assert(0x9f_cff4 * 0x1_0000_0000_0000_0000 == 0x1_3f9f_e800_0000_0000 * 0x80_0000 + 0x0);
    lemma_quotient_known(0x3d1f_cff4, 0x3c80_0000, 0x9f_cff4, 121, 0x80_0000, 120, 0x1_3f9f_e800_0000_0000, 0x0, 66, 0x2_0000_0000_0000_0000, 0x400_0000_0000);
    assert(div_spec(0x3d1f_cff4, 0x3c80_0000) == 0x401f_cff4);
    assert(0xb3_01c5 * 0x40 + 0x9f_cff4 * 0x1 == 0x2d60_4134);
    lemma_sum_known(0x4333_01c5, 0x401f_cff4, false, 0xb3_01c5, 133, 0x9f_cff4, 127, 0x40, 0x1, 0x2d60_4134, 30, 0x2000_0000, 0x40);
    assert(add_spec(0x4333_01c5, 0x401f_cff4) == 0x4335_8105);
    lemma_whole_known(0x4335_8105, 0xb5_8105, 133, 0x1_0000);
}

/// Code 182.
proof fn lemma_code_182()
    ensures
        chord_code(0x3eef_815c, 0x3eed_5e8d, 0x3ef5_5e8d, 0x4335_c6a9, 0x4338_7de3) == 182,
{
    reveal(chord_code);
    lemma2_to64();
    lemma2_to64_rest();
    lemma_high_powers();
    assert(0xf5_5e8d * 0x1 - 0xed_5e8d * 0x1 == 0x8_0000);
    lemma_sum_known(0x3ef5_5e8d, 0x3eed_5e8d, true, 0xf5_5e8d, 124, 0xed_5e8d, 124, 0x1, 0x1, 0x8_0000, 20, 0x8_0000, 0x10);
    assert(sub_spec(0x3ef5_5e8d, 0x3eed_5e8d) == 0x3c80_0000);
    assert(0xef_815c * 0x1 - 0xed_5e8d * 0x1 == 0x2_22cf);
    lemma_sum_known(0x3eef_815c, 0x3eed_5e8d, true, 0xef_815c, 124, 0xed_5e8d, 124, 0x1, 0x1, 0x2_22cf, 18, 0x2_0000, 0x40);
    assert(sub_spec(0x3eef_815c, 0x3eed_5e8d) == 0x3b88_b3c0);
    assert(0xb8_7de3 * 0x1 - 0xb5_c6a9 * 0x1 == 0x2_b73a);
    lemma_sum_known(0x4338_7de3, 0x4335_c6a9, true, 0xb8_7de3, 133, 0xb5_c6a9, 133, 0x1, 0x1, 0x2_b73a, 18, 0x2_0000, 0x40);
    assert(sub_spec(0x4338_7de3, 0x4335_c6a9) == 0x402d_ce80);
    assert(0xad_ce80 * 0x88_b3c0 == 0x5ccf_bdbe_6000);
    lemma_product_known(0x402d_ce80, 0x3b88_b3c0, 0xad_ce80, 127, 0x88_b3c0, 118, 0x5ccf_bdbe_6000, 47, 0x4000_0000_0000, 0x80_0000);
    assert(mul_spec(0x402d_ce80, 0x3b88_b3c0) == 0x3c39_9f7b);
    assert(0xb9_9f7b * 0x1_0000_0000_0000_0000 == 0x1_733e_f600_0000_0000 * 0x80_0000 + 0x0);
    lemma_quotient_known(0x3c39_9f7b, 0x3c80_0000, 0xb9_9f7b, 119, 0x80_0000, 120, 0x1_733e_f600_0000_0000, 0x0, 66, 0x2_0000_0000_0000_0000, 0x400_0000_0000);
    assert(div_spec(0x3c39_9f7b, 0x3c80_0000) == 0x3f39_9f7b);
    assert(0xb5_c6a9 * 0x100 + 0xb9_9f7b * 0x1 == 0xb680_487b);
    lemma_sum_known(0x4335_c6a9, 0x3f39_9f7b, false, 0xb5_c6a9, 133, 0xb9_9f7b, 125, 0x100, 0x1, 0xb680_487b, 32, 0x8000_0000, 0x100);
    assert(add_spec(0x4335_c6a9, 0x3f39_9f7b) == 0x4336_8048);
    lemma_whole_known(0x4336_8048, 0xb6_8048, 133, 0x1_0000);
}

/// Code 183.
proof fn lemma_code_183()
    ensures
        chord_code(0x3ef2_72b8, 0x3eed_5e8d, 0x3ef5_5e8d, 0x4335_c6a9, 0x4338_7de3) == 183,
{
    reveal(chord_code);
    lemma2_to64();
    lemma2_to64_rest();
    lemma_high_powers();
    assert(0xf5_5e8d * 0x1 - 0xed_5e8d * 0x1 == 0x8_0000);
    lemma_sum_known(0x3ef5_5e8d, 0x3eed_5e8d, true, 0xf5_5e8d, 124, 0xed_5e8d, 124, 0x1, 0x1, 0x8_0000, 20, 0x8_0000, 0x10);
    assert(sub_spec(0x3ef5_5e8d, 0x3eed_5e8d) == 0x3c80_0000);
    assert(0xf2_72b8 * 0x1 - 0xed_5e8d * 0x1 == 0x5_142b);
    lemma_sum_known(0x3ef2_72b8, 0x3eed_5e8d, true, 0xf2_72b8, 124, 0xed_5e8d, 124, 0x1, 0x1, 0x5_142b, 19, 0x4_0000, 0x20);
    assert(sub_spec(0x3ef2_72b8, 0x3eed_5e8d) == 0x3c22_8560);
    assert(0xb8_7de3 * 0x1 - 0xb5_c6a9 * 0x1 == 0x2_b73a);
    lemma_sum_known(0x4338_7de3, 0x4335_c6a9, true, 0xb8_7de3, 133, 0xb5_c6a9, 133, 0x1, 0x1, 0x2_b73a, 18, 0x2_0000, 0x40);
    assert(sub_spec(0x4338_7de3, 0x4335_c6a9) == 0x402d_ce80);
    assert(0xad_ce80 * 0xa2_8560 == 0x6e57_3a75_f000);
    lemma_product_known(0x402d_ce80, 0x3c22_8560, 0xad_ce80, 127, 0xa2_8560, 119, 0x6e57_3a75_f000, 47, 0x4000_0000_0000, 0x80_0000);
    assert(mul_spec(0x402d_ce80, 0x3c22_8560) == 0x3cdc_ae75);
    assert(0xdc_ae75 * 0x1_0000_0000_0000_0000 == 0x1_b95c_ea00_0000_0000 * 0x80_0000 + 0x0);
    lemma_quotient_known(0x3cdc_ae75, 0x3c80_0000, 0xdc_ae75, 120, 0x80_0000, 120, 0x1_b95c_ea00_0000_0000, 0x0, 66, 0x2_0000_0000_0000_0000, 0x400_0000_0000);
    assert(div_spec(0x3cdc_ae75, 0x3c80_0000) == 0x3fdc_ae75);
    assert(0xb5_c6a9 * 0x80 + 0xdc_ae75 * 0x1 == 0x5bc0_02f5);
    lemma_sum_known(0x4335_c6a9, 0x3fdc_ae75, false, 0xb5_c6a9, 133, 0xdc_ae75, 126, 0x80, 0x1, 0x5bc0_02f5, 31, 0x4000_0000, 0x80);
    assert(add_spec(0x4335_c6a9, 0x3fdc_ae75) == 0x4337_8006);
    lemma_whole_known(0x4337_8006, 0xb7_8006, 133, 0x1_0000);
}

/// Code 184.
proof fn lemma_code_184()
    ensures
        chord_code(0x3ef5_6974, 0x3ef5_5e8d, 0x3efd_5e8d, 0x4338_7de3, 0x433b_28a1) == 184,
{
    reveal(chord_code);
    lemma2_to64();
    lemma2_to64_rest();
    lemma_high_powers();
    assert(0xfd_5e8d * 0x1 - 0xf5_5e8d * 0x1 == 0x8_0000);
    lemma_sum_known(0x3efd_5e8d, 0x3ef5_5e8d, true, 0xfd_5e8d, 124, 0xf5_5e8d, 124, 0x1, 0x1, 0x8_0000, 20, 0x8_0000, 0x10);
    assert(sub_spec(0x3efd_5e8d, 0x3ef5_5e8d) == 0x3c80_0000);
    assert(0xf5_6974 * 0x1 - 0xf5_5e8d * 0x1 == 0xae7);
    lemma_sum_known(0x3ef5_6974, 0x3ef5_5e8d, true, 0xf5_6974, 124, 0xf5_5e8d, 124, 0x1, 0x1, 0xae7, 12, 0x800, 0x1000);
    assert(sub_spec(0x3ef5_6974, 0x3ef5_5e8d) == 0x38ae_7000);
    assert(0xbb_28a1 * 0x1 - 0xb8_7de3 * 0x1 == 0x2_aabe);
    lemma_sum_known(0x433b_28a1, 0x4338_7de3, true, 0xbb_28a1, 133, 0xb8_7de3, 133, 0x1, 0x1, 0x2_aabe, 18, 0x2_0000, 0x40);
    assert(sub_spec(0x433b_28a1, 0x4338_7de3) == 0x402a_af80);
    assert(0xaa_af80 * 0xae_7000 == 0x744d_f5c8_0000);
    lemma_product_known(0x402a_af80, 0x38ae_7000, 0xaa_af80, 127, 0xae_7000, 112, 0x744d_f5c8_0000, 47, 0x4000_0000_0000, 0x80_0000);
    assert(mul_spec(0x402a_af80, 0x38ae_7000) == 0x3968_9bec);
    assert(0xe8_9bec * 0x1_0000_0000_0000_0000 == 0x1_d137_d800_0000_0000 * 0x80_0000 + 0x0);
    lemma_quotient_known(0x3968_9bec, 0x3c80_0000, 0xe8_9bec, 113, 0x80_0000, 120, 0x1_d137_d800_0000_0000, 0x0, 66, 0x2_0000_0000_0000_0000, 0x400_0000_0000);
    assert(div_spec(0x3968_9bec, 0x3c80_0000) == 0x3c68_9bec);
    assert(0xb8_7de3 * 0x4000 + 0xe8_9bec * 0x1 == 0x2e_2061_5bec);
    lemma_sum_known(0x4338_7de3, 0x3c68_9bec, false, 0xb8_7de3, 133, 0xe8_9bec, 119, 0x4000, 0x1, 0x2e_2061_5bec, 38, 0x20_0000_0000, 0x4000);
    assert(add_spec(0x4338_7de3, 0x3c68_9bec) == 0x4338_8185);
    lemma_whole_known(0x4338_8185, 0xb8_8185, 133, 0x1_0000);
}

/// Code 185.
proof fn lemma_code_185()
    ensures
        chord_code(0x3ef8_6593, 0x3ef5_5e8d, 0x3efd_5e8d, 0x4338_7de3, 0x433b_28a1) == 185,
{
    reveal(chord_code);
    lemma2_to64();
    lemma2_to64_rest();
    lemma_high_powers();
    assert(0xfd_5e8d * 0x1 - 0xf5_5e8d * 0x1 == 0x8_0000);
    lemma_sum_known(0x3efd_5e8d, 0x3ef5_5e8d, true, 0xfd_5e8d, 124, 0xf5_5e8d, 124, 0x1, 0x1, 0x8_0000, 20, 0x8_0000, 0x10);
    assert(sub_spec(0x3efd_5e8d, 0x3ef5_5e8d) == 0x3c80_0000);
    assert(0xf8_6593 * 0x1 - 0xf5_5e8d * 0x1 == 0x3_0706);
    lemma_sum_known(0x3ef8_6593, 0x3ef5_5e8d, true, 0xf8_6593, 124, 0xf5_5e8d, 124, 0x1, 0x1, 0x3_0706, 18, 0x2_0000, 0x40);
    assert(sub_spec(0x3ef8_6593, 0x3ef5_5e8d) == 0x3bc1_c180);
    assert(0xbb_28a1 * 0x1 - 0xb8_7de3 * 0x1 == 0x2_aabe);
    lemma_sum_known(0x433b_28a1, 0x4338_7de3, true, 0xbb_28a1, 133, 0xb8_7de3, 133, 0x1, 0x1, 0x2_aabe, 18, 0x2_0000, 0x40);
    assert(sub_spec(0x433b_28a1, 0x4338_7de3) == 0x402a_af80);
    assert(0xaa_af80 * 0xc1_c180 == 0x812f_5327_4000);
    lemma_product_known(0x402a_af80, 0x3bc1_c180, 0xaa_af80, 127, 0xc1_c180, 118, 0x812f_5327_4000, 48, 0x8000_0000_0000, 0x100_0000);
    assert(mul_spec(0x402a_af80, 0x3bc1_c180) == 0x3c81_2f53);
    assert(0x81_2f53 * 0x1_0000_0000_0000_0000 == 0x1_025e_a600_0000_0000 * 0x80_0000 + 0x0);
    lemma_quotient_known(0x3c81_2f53, 0x3c80_0000, 0x81_2f53, 120, 0x80_0000, 120, 0x1_025e_a600_0000_0000, 0x0, 66, 0x2_0000_0000_0000_0000, 0x400_0000_0000);
    assert(div_spec(0x3c81_2f53, 0x3c80_0000) == 0x3f81_2f53);
    assert(0xb8_7de3 * 0x80 + 0x81_2f53 * 0x1 == 0x5cc0_20d3);
    lemma_sum_known(0x4338_7de3, 0x3f81_2f53, false, 0xb8_7de3, 133, 0x81_2f53, 126, 0x80, 0x1, 0x5cc0_20d3, 31, 0x4000_0000, 0x80);
    assert(add_spec(0x4338_7de3, 0x3f81_2f53) == 0x4339_8042);
    lemma_whole_known(0x4339_8042, 0xb9_8042, 133, 0x1_0000);
}

/// Code 186.
proof fn lemma_code_186()
    ensures
        chord_code(0x3efb_6716, 0x3ef5_5e8d, 0x3efd_5e8d, 0x4338_7de3, 0x433b_28a1) == 186,
{
    reveal(chord_code);
    lemma2_to64();
    lemma2_to64_rest();
    lemma_high_powers();
    assert(0xfd_5e8d * 0x1 - 0xf5_5e8d * 0x1 == 0x8_0000);
    lemma_sum_known(0x3efd_5e8d, 0x3ef5_5e8d, true, 0xfd_5e8d, 124, 0xf5_5e8d, 124, 0x1, 0x1, 0x8_0000, 20, 0x8_0000, 0x10);
    assert(sub_spec(0x3efd_5e8d, 0x3ef5_5e8d) == 0x3c80_0000);
    assert(0xfb_6716 * 0x1 - 0xf5_5e8d * 0x1 == 0x6_0889);
    lemma_sum_known(0x3efb_6716, 0x3ef5_5e8d, true, 0xfb_6716, 124, 0xf5_5e8d, 124, 0x1, 0x1, 0x6_0889, 19, 0x4_0000, 0x20);
    assert(sub_spec(0x3efb_6716, 0x3ef5_5e8d) == 0x3c41_1120);
    assert(0xbb_28a1 * 0x1 - 0xb8_7de3 * 0x1 == 0x2_aabe);
    lemma_sum_known(0x433b_28a1, 0x4338_7de3, true, 0xbb_28a1, 133, 0xb8_7de3, 133, 0x1, 0x1, 0x2_aabe, 18, 0x2_0000, 0x40);
    assert(sub_spec(0x433b_28a1, 0x4338_7de3) == 0x402a_af80);
    assert(0xaa_af80 * 0xc1_1120 == 0x80b9_ba7d_7000);
    lemma_product_known(0x402a_af80, 0x3c41_1120, 0xaa_af80, 127, 0xc1_1120, 119, 0x80b9_ba7d_7000, 48, 0x8000_0000_0000, 0x100_0000);
    assert(mul_spec(0x402a_af80, 0x3c41_1120) == 0x3d00_b9ba);
    assert(0x80_b9ba * 0x1_0000_0000_0000_0000 == 0x1_0173_7400_0000_0000 * 0x80_0000 + 0x0);
    lemma_quotient_known(0x3d00_b9ba, 0x3c80_0000, 0x80_b9ba, 121, 0x80_0000, 120, 0x1_0173_7400_0000_0000, 0x0, 66, 0x2_0000_0000_0000_0000, 0x400_0000_0000);
    assert(div_spec(0x3d00_b9ba, 0x3c80_0000) == 0x4000_b9ba);
    assert(0xb8_7de3 * 0x40 + 0x80_b9ba * 0x1 == 0x2ea0_327a);
    lemma_sum_known(0x4338_7de3, 0x4000_b9ba, false, 0xb8_7de3, 133, 0x80_b9ba, 127, 0x40, 0x1, 0x2ea0_327a, 30, 0x2000_0000, 0x40);
    assert(add_spec(0x4338_7de3, 0x4000_b9ba) == 0x433a_80ca);
    lemma_whole_known(0x433a_80ca, 0xba_80ca, 133, 0x1_0000);
}

/// Code 187.
proof fn lemma_code_187()
    ensures
        chord_code(0x3efe_6e00, 0x3efd_5e8d, 0x3f05_5e8d, 0x433b_28a1, 0x433f_825c) == 187,
{
    reveal(chord_code);
    lemma2_to64();
    lemma2_to64_rest();
    lemma_high_powers();
    assert(0x85_5e8d * 0x2 - 0xfd_5e8d * 0x1 == 0xd_5e8d);
    lemma_sum_known(0x3f05_5e8d, 0x3efd_5e8d, true, 0x85_5e8d, 125, 0xfd_5e8d, 124, 0x2, 0x1, 0xd_5e8d, 20, 0x8_0000, 0x10);
    assert(sub_spec(0x3f05_5e8d, 0x3efd_5e8d) == 0x3cd5_e8d0);
    assert(0xfe_6e00 * 0x1 - 0xfd_5e8d * 0x1 == 0x1_0f73);
    lemma_sum_known(0x3efe_6e00, 0x3efd_5e8d, true, 0xfe_6e00, 124, 0xfd_5e8d, 124, 0x1, 0x1, 0x1_0f73, 17, 0x1_0000, 0x80);
    assert(sub_spec(0x3efe_6e00, 0x3efd_5e8d) == 0x3b07_b980);
    assert(0xbf_825c * 0x1 - 0xbb_28a1 * 0x1 == 0x4_59bb);
    lemma_sum_known(0x433f_825c, 0x433b_28a1, true, 0xbf_825c, 133, 0xbb_28a1, 133, 0x1, 0x1, 0x4_59bb, 19, 0x4_0000, 0x20);
    assert(sub_spec(0x433f_825c, 0x433b_28a1) == 0x408b_3760);
    assert(0x8b_3760 * 0x87_b980 == 0x49cf_1440_1000);
    lemma_product_known(0x408b_3760, 0x3b07_b980, 0x8b_3760, 128, 0x87_b980, 117, 0x49cf_1440_1000, 47, 0x4000_0000_0000, 0x80_0000);
    assert(mul_spec(0x408b_3760, 0x3b07_b980) == 0x3c13_9e29);
    assert(0x93_9e29 * 0x1_0000_0000_0000_0000 == 0xb0aa_1008_c3f0_bea5 * 0xd5_e8d0 + 0x56_91f0);
    lemma_quotient_known(0x3c13_9e29, 0x3cd5_e8d0, 0x93_9e29, 119, 0xd5_e8d0, 120, 0xb0aa_1008_c3f0_bea5, 0x56_91f0, 65, 0x1_0000_0000_0000_0000, 0x200_0000_0000);
    assert(div_spec(0x3c13_9e29, 0x3cd5_e8d0) == 0x3eb0_aa10);
    assert(0xbb_28a1 * 0x200 + 0xb0_aa10 * 0x1 == 0x1_7701_ec10);
    lemma_sum_known(0x433b_28a1, 0x3eb0_aa10, false, 0xbb_28a1, 133, 0xb0_aa10, 124, 0x200, 0x1, 0x1_7701_ec10, 33, 0x1_0000_0000, 0x200);
    assert(add_spec(0x433b_28a1, 0x3eb0_aa10) == 0x433b_80f6);
    lemma_whole_known(0x433b_80f6, 0xbb_80f6, 133, 0x1_0000);
}

/// Code 188.
proof fn lemma_code_188()
    ensures
        chord_code(0x3f00_bd2b, 0x3efd_5e8d, 0x3f05_5e8d, 0x433b_28a1, 0x433f_825c) == 188,
{
    reveal(chord_code);
    lemma2_to64();
    lemma2_to64_rest();
    lemma_high_powers();
    assert(0x85_5e8d * 0x2 - 0xfd_5e8d * 0x1 == 0xd_5e8d);
    lemma_sum_known(0x3f05_5e8d, 0x3efd_5e8d, true, 0x85_5e8d, 125, 0xfd_5e8d, 124, 0x2, 0x1, 0xd_5e8d, 20, 0x8_0000, 0x10);
    assert(sub_spec(0x3f05_5e8d, 0x3efd_5e8d) == 0x3cd5_e8d0);
    assert(0x80_bd2b * 0x2 - 0xfd_5e8d * 0x1 == 0x4_1bc9);
    lemma_sum_known(0x3f00_bd2b, 0x3efd_5e8d, true, 0x80_bd2b, 125, 0xfd_5e8d, 124, 0x2, 0x1, 0x4_1bc9, 19, 0x4_0000, 0x20);
    assert(sub_spec(0x3f00_bd2b, 0x3efd_5e8d) == 0x3c03_7920);
    assert(0xbf_825c * 0x1 - 0xbb_28a1 * 0x1 == 0x4_59bb);
    lemma_sum_known(0x433f_825c, 0x433b_28a1, true, 0xbf_825c, 133, 0xbb_28a1, 133, 0x1, 0x1, 0x4_59bb, 19, 0x4_0000, 0x20);
    assert(sub_spec(0x433f_825c, 0x433b_28a1) == 0x408b_3760);
    assert(0x8b_3760 * 0x83_7920 == 0x477f_34b3_4c00);
    lemma_product_known(0x408b_3760, 0x3c03_7920, 0x8b_3760, 128, 0x83_7920, 119, 0x477f_34b3_4c00, 47, 0x4000_0000_0000, 0x80_0000);
    assert(mul_spec(0x408b_3760, 0x3c03_7920) == 0x3d0e_fe69);
    assert(0x8e_fe69 * 0x1_0000_0000_0000_0000 == 0xab21_6364_b6a6_a1c1 * 0xd5_e8d0 + 0x70_ab30);
    lemma_quotient_known(0x3d0e_fe69, 0x3cd5_e8d0, 0x8e_fe69, 121, 0xd5_e8d0, 120, 0xab21_6364_b6a6_a1c1, 0x70_ab30, 65, 0x1_0000_0000_0000_0000, 0x200_0000_0000);
    assert(div_spec(0x3d0e_fe69, 0x3cd5_e8d0) == 0x3fab_2163);
    assert(0xbb_28a1 * 0x80 + 0xab_2163 * 0x1 == 0x5e3f_71e3);
    lemma_sum_known(0x433b_28a1, 0x3fab_2163, false, 0xbb_28a1, 133, 0xab_2163, 126, 0x80, 0x1, 0x5e3f_71e3, 31, 0x4000_0000, 0x80);
    assert(add_spec(0x433b_28a1, 0x3fab_2163) == 0x433c_7ee4);
    lemma_whole_known(0x433c_7ee4, 0xbc_7ee4, 133, 0x1_0000);
}

/// Code 189.
proof fn lemma_code_189()
    ensures
        chord_code(0x3f02_460c, 0x3efd_5e8d, 0x3f05_5e8d, 0x433b_28a1, 0x433f_825c) == 189,
{
    reveal(chord_code);
    lemma2_to64();
    lemma2_to64_rest();
    lemma_high_powers();
    assert(0x85_5e8d * 0x2 - 0xfd_5e8d * 0x1 == 0xd_5e8d);
    lemma_sum_known(0x3f05_5e8d, 0x3efd_5e8d, true, 0x85_5e8d, 125, 0xfd_5e8d, 124, 0x2, 0x1, 0xd_5e8d, 20, 0x8_0000, 0x10);
    assert(sub_spec(0x3f05_5e8d, 0x3efd_5e8d) == 0x3cd5_e8d0);
    assert(0x82_460c * 0x2 - 0xfd_5e8d * 0x1 == 0x7_2d8b);
    lemma_sum_known(0x3f02_460c, 0x3efd_5e8d, true, 0x82_460c, 125, 0xfd_5e8d, 124, 0x2, 0x1, 0x7_2d8b, 19, 0x4_0000, 0x20);
    assert(sub_spec(0x3f02_460c, 0x3efd_5e8d) == 0x3c65_b160);
    assert(0xbf_825c * 0x1 - 0xbb_28a1 * 0x1 == 0x4_59bb);
    lemma_sum_known(0x433f_825c, 0x433b_28a1, true, 0xbf_825c, 133, 0xbb_28a1, 133, 0x1, 0x1, 0x4_59bb, 19, 0x4_0000, 0x20);
    assert(sub_spec(0x433f_825c, 0x433b_28a1) == 0x408b_3760);
    assert(0x8b_3760 * 0xe5_b160 == 0x7ce8_fe5e_2400);
    lemma_product_known(0x408b_3760, 0x3c65_b160, 0x8b_3760, 128, 0xe5_b160, 119, 0x7ce8_fe5e_2400, 47, 0x4000_0000_0000, 0x80_0000);
    assert(mul_spec(0x408b_3760, 0x3c65_b160) == 0x3d79_d1fd);
    assert(0xf9_d1fd * 0x1_0000_0000_0000_0000 == 0x1_2afa_19c0_d8b5_6334 * 0xd5_e8d0 + 0x74_45c0);
    lemma_quotient_known(0x3d79_d1fd, 0x3cd5_e8d0, 0xf9_d1fd, 121, 0xd5_e8d0, 120, 0x1_2afa_19c0_d8b5_6334, 0x74_45c0, 66, 0x2_0000_0000_0000_0000, 0x400_0000_0000);
    assert(div_spec(0x3d79_d1fd, 0x3cd5_e8d0) == 0x4015_7d0d);
    assert(0xbb_28a1 * 0x40 + 0x95_7d0d * 0x1 == 0x2f5f_a54d);
    lemma_sum_known(0x433b_28a1, 0x4015_7d0d, false, 0xbb_28a1, 133, 0x95_7d0d, 127, 0x40, 0x1, 0x2f5f_a54d, 30, 0x2000_0000, 0x40);
    assert(add_spec(0x433b_28a1, 0x4015_7d0d) == 0x433d_7e95);
    lemma_whole_known(0x433d_7e95, 0xbd_7e95, 133, 0x1_0000);
}

/// Code 190.
proof fn lemma_code_190()
    ensures
        chord_code(0x3f03_d1a5, 0x3efd_5e8d, 0x3f05_5e8d, 0x433b_28a1, 0x433f_825c) == 190,
{
    reveal(chord_code);
    lemma2_to64();
    lemma2_to64_rest();
    lemma_high_powers();
    assert(0x85_5e8d * 0x2 - 0xfd_5e8d * 0x1 == 0xd_5e8d);
    lemma_sum_known(0x3f05_5e8d, 0x3efd_5e8d, true, 0x85_5e8d, 125, 0xfd_5e8d, 124, 0x2, 0x1, 0xd_5e8d, 20, 0x8_0000, 0x10);
    assert(sub_spec(0x3f05_5e8d, 0x3efd_5e8d) == 0x3cd5_e8d0);
    assert(0x83_d1a5 * 0x2 - 0xfd_5e8d * 0x1 == 0xa_44bd);
    lemma_sum_known(0x3f03_d1a5, 0x3efd_5e8d, true, 0x83_d1a5, 125, 0xfd_5e8d, 124, 0x2, 0x1, 0xa_44bd, 20, 0x8_0000, 0x10);
    assert(sub_spec(0x3f03_d1a5, 0x3efd_5e8d) == 0x3ca4_4bd0);
    assert(0xbf_825c * 0x1 - 0xbb_28a1 * 0x1 == 0x4_59bb);
    lemma_sum_known(0x433f_825c, 0x433b_28a1, true, 0xbf_825c, 133, 0xbb_28a1, 133, 0x1, 0x1, 0x4_59bb, 19, 0x4_0000, 0x20);
    assert(sub_spec(0x433f_825c, 0x433b_28a1) == 0x408b_3760);
    assert(0x8b_3760 * 0xa4_4bd0 == 0x5958_b3d6_1e00);
    lemma_product_known(0x408b_3760, 0x3ca4_4bd0, 0x8b_3760, 128, 0xa4_4bd0, 120, 0x5958_b3d6_1e00, 47, 0x4000_0000_0000, 0x80_0000);
    assert(mul_spec(0x408b_3760, 0x3ca4_4bd0) == 0x3db2_b168);
    assert(0xb2_b168 * 0x1_0000_0000_0000_0000 == 0xd5da_a5f8_b663_504b * 0xd5_e8d0 + 0x23_cb10);
    lemma_quotient_known(0x3db2_b168, 0x3cd5_e8d0, 0xb2_b168, 122, 0xd5_e8d0, 120, 0xd5da_a5f8_b663_504b, 0x23_cb10, 65, 0x1_0000_0000_0000_0000, 0x200_0000_0000);
    assert(div_spec(0x3db2_b168, 0x3cd5_e8d0) == 0x4055_daa6);
    assert(0xbb_28a1 * 0x40 + 0xd5_daa6 * 0x1 == 0x2fa0_02e6);
    lemma_sum_known(0x433b_28a1, 0x4055_daa6, false, 0xbb_28a1, 133, 0xd5_daa6, 127, 0x40, 0x1, 0x2fa0_02e6, 30, 0x2000_0000, 0x40);
    assert(add_spec(0x433b_28a1, 0x4055_daa6) == 0x433e_800c);
    lemma_whole_known(0x433e_800c, 0xbe_800c, 133, 0x1_0000);
}

/// Code 191.
proof fn lemma_code_191()
    ensures
        chord_code(0x3f05_5ff7, 0x3f05_5e8d, 0x3f0d_5e8d, 0x433f_825c, 0x4344_8c89) == 191,
{
    reveal(chord_code);
    lemma2_to64();
    lemma2_to64_rest();
    lemma_high_powers();
    assert(0x8d_5e8d * 0x1 - 0x85_5e8d * 0x1 == 0x8_0000);
    lemma_sum_known(0x3f0d_5e8d, 0x3f05_5e8d, true, 0x8d_5e8d, 125, 0x85_5e8d, 125, 0x1, 0x1, 0x8_0000, 20, 0x8_0000, 0x10);
    assert(sub_spec(0x3f0d_5e8d, 0x3f05_5e8d) == 0x3d00_0000);
    assert(0x85_5ff7 * 0x1 - 0x85_5e8d * 0x1 == 0x16a);
    lemma_sum_known(0x3f05_5ff7, 0x3f05_5e8d, true, 0x85_5ff7, 125, 0x85_5e8d, 125, 0x1, 0x1, 0x16a, 9, 0x100, 0x8000);
    assert(sub_spec(0x3f05_5ff7, 0x3f05_5e8d) == 0x37b5_0000);
    assert(0xc4_8c89 * 0x1 - 0xbf_825c * 0x1 == 0x5_0a2d);
    lemma_sum_known(0x4344_8c89, 0x433f_825c, true, 0xc4_8c89, 133, 0xbf_825c, 133, 0x1, 0x1, 0x5_0a2d, 19, 0x4_0000, 0x20);
    assert(sub_spec(0x4344_8c89, 0x433f_825c) == 0x40a1_45a0);
    assert(0xa1_45a0 * 0xb5_0000 == 0x7206_3a20_0000);
    lemma_product_known(0x40a1_45a0, 0x37b5_0000, 0xa1_45a0, 128, 0xb5_0000, 110, 0x7206_3a20_0000, 47, 0x4000_0000_0000, 0x80_0000);
    assert(mul_spec(0x40a1_45a0, 0x37b5_0000) == 0x38e4_0c74);
    assert(0xe4_0c74 * 0x1_0000_0000_0000_0000 == 0x1_c818_e800_0000_0000 * 0x80_0000 + 0x0);
    lemma_quotient_known(0x38e4_0c74, 0x3d00_0000, 0xe4_0c74, 112, 0x80_0000, 121, 0x1_c818_e800_0000_0000, 0x0, 66, 0x2_0000_0000_0000_0000, 0x400_0000_0000);
    assert(div_spec(0x38e4_0c74, 0x3d00_0000) == 0x3b64_0c74);
    assert(0xbf_825c * 0x1_0000 + 0xe4_0c74 * 0x1 == 0xbf_8340_0c74);
    lemma_sum_known(0x433f_825c, 0x3b64_0c74, false, 0xbf_825c, 133, 0xe4_0c74, 117, 0x1_0000, 0x1, 0xbf_8340_0c74, 40, 0x80_0000_0000, 0x1_0000);
    assert(add_spec(0x433f_825c, 0x3b64_0c74) == 0x433f_8340);
    lemma_whole_known(0x433f_8340, 0xbf_8340, 133, 0x1_0000);
}

/// Code 192.
proof fn lemma_code_192()
    ensures
        chord_code(0x3f06_f104, 0x3f05_5e8d, 0x3f0d_5e8d, 0x433f_825c, 0x4344_8c89) == 192,
{
    reveal(chord_code);
    lemma2_to64();
    lemma2_to64_rest();
    lemma_high_powers();
    assert(0x8d_5e8d * 0x1 - 0x85_5e8d * 0x1 == 0x8_0000);
    lemma_sum_known(0x3f0d_5e8d, 0x3f05_5e8d, true, 0x8d_5e8d, 125, 0x85_5e8d, 125, 0x1, 0x1, 0x8_0000, 20, 0x8_0000, 0x10);
    assert(sub_spec(0x3f0d_5e8d, 0x3f05_5e8d) == 0x3d00_0000);
    assert(0x86_f104 * 0x1 - 0x85_5e8d * 0x1 == 0x1_9277);
    lemma_sum_known(0x3f06_f104, 0x3f05_5e8d, true, 0x86_f104, 125, 0x85_5e8d, 125, 0x1, 0x1, 0x1_9277, 17, 0x1_0000, 0x80);
    assert(sub_spec(0x3f06_f104, 0x3f05_5e8d) == 0x3bc9_3b80);
    assert(0xc4_8c89 * 0x1 - 0xbf_825c * 0x1 == 0x5_0a2d);
    lemma_sum_known(0x4344_8c89, 0x433f_825c, true, 0xc4_8c89, 133, 0xbf_825c, 133, 0x1, 0x1, 0x5_0a2d, 19, 0x4_0000, 0x20);
    assert(sub_spec(0x4344_8c89, 0x433f_825c) == 0x40a1_45a0);
    assert(0xa1_45a0 * 0xc9_3b80 == 0x7ec5_264e_b000);
    lemma_product_known(0x40a1_45a0, 0x3bc9_3b80, 0xa1_45a0, 128, 0xc9_3b80, 118, 0x7ec5_264e_b000, 47, 0x4000_0000_0000, 0x80_0000);
    assert(mul_spec(0x40a1_45a0, 0x3bc9_3b80) == 0x3cfd_8a4d);
    assert(0xfd_8a4d * 0x1_0000_0000_0000_0000 == 0x1_fb14_9a00_0000_0000 * 0x80_0000 + 0x0);
    lemma_quotient_known(0x3cfd_8a4d, 0x3d00_0000, 0xfd_8a4d, 120, 0x80_0000, 121, 0x1_fb14_9a00_0000_0000, 0x0, 66, 0x2_0000_0000_0000_0000, 0x400_0000_0000);
    assert(div_spec(0x3cfd_8a4d, 0x3d00_0000) == 0x3f7d_8a4d);
    assert(0xbf_825c * 0x100 + 0xfd_8a4d * 0x1 == 0xc07f_e64d);
    lemma_sum_known(0x433f_825c, 0x3f7d_8a4d, false, 0xbf_825c, 133, 0xfd_8a4d, 125, 0x100, 0x1, 0xc07f_e64d, 32, 0x8000_0000, 0x100);
    assert(add_spec(0x433f_825c, 0x3f7d_8a4d) == 0x4340_7fe6);
    lemma_whole_known(0x4340_7fe6, 0xc0_7fe6, 133, 0x1_0000);
}

/// Code 193.
proof fn lemma_code_193()
    ensures
        chord_code(0x3f08_84cd, 0x3f05_5e8d, 0x3f0d_5e8d, 0x433f_825c, 0x4344_8c89) == 193,
{
    reveal(chord_code);
    lemma2_to64();
    lemma2_to64_rest();
    lemma_high_powers();
    assert(0x8d_5e8d * 0x1 - 0x85_5e8d * 0x1 == 0x8_0000);
    lemma_sum_known(0x3f0d_5e8d, 0x3f05_5e8d, true, 0x8d_5e8d, 125, 0x85_5e8d, 125, 0x1, 0x1, 0x8_0000, 20, 0x8_0000, 0x10);
    assert(sub_spec(0x3f0d_5e8d, 0x3f05_5e8d) == 0x3d00_0000);
    assert(0x88_84cd * 0x1 - 0x85_5e8d * 0x1 == 0x3_2640);
    lemma_sum_known(0x3f08_84cd, 0x3f05_5e8d, true, 0x88_84cd, 125, 0x85_5e8d, 125, 0x1, 0x1, 0x3_2640, 18, 0x2_0000, 0x40);
    assert(sub_spec(0x3f08_84cd, 0x3f05_5e8d) == 0x3c49_9000);
    assert(0xc4_8c89 * 0x1 - 0xbf_825c * 0x1 == 0x5_0a2d);
    lemma_sum_known(0x4344_8c89, 0x433f_825c, true, 0xc4_8c89, 133, 0xbf_825c, 133, 0x1, 0x1, 0x5_0a2d, 19, 0x4_0000, 0x20);
    assert(sub_spec(0x4344_8c89, 0x433f_825c) == 0x40a1_45a0);
    assert(0xa1_45a0 * 0xc9_9000 == 0x7efa_61ca_0000);
    lemma_product_known(0x40a1_45a0, 0x3c49_9000, 0xa1_45a0, 128, 0xc9_9000, 119, 0x7efa_61ca_0000, 47, 0x4000_0000_0000, 0x80_0000);
    assert(mul_spec(0x40a1_45a0, 0x3c49_9000) == 0x3d7d_f4c4);
    assert(0xfd_f4c4 * 0x1_0000_0000_0000_0000 == 0x1_fbe9_8800_0000_0000 * 0x80_0000 + 0x0);
    lemma_quotient_known(0x3d7d_f4c4, 0x3d00_0000, 0xfd_f4c4, 121, 0x80_0000, 121, 0x1_fbe9_8800_0000_0000, 0x0, 66, 0x2_0000_0000_0000_0000, 0x400_0000_0000);
    assert(div_spec(0x3d7d_f4c4, 0x3d00_0000) == 0x3ffd_f4c4);
    assert(0xbf_825c * 0x80 + 0xfd_f4c4 * 0x1 == 0x60bf_22c4);
    lemma_sum_known(0x433f_825c, 0x3ffd_f4c4, false, 0xbf_825c, 133, 0xfd_f4c4, 126, 0x80, 0x1, 0x60bf_22c4, 31, 0x4000_0000, 0x80);
    assert(add_spec(0x433f_825c, 0x3ffd_f4c4) == 0x4341_7e46);
    lemma_whole_known(0x4341_7e46, 0xc1_7e46, 133, 0x1_0000);
}

/// Code 194.
proof fn lemma_code_194()
    ensures
        chord_code(0x3f0a_1b54, 0x3f05_5e8d, 0x3f0d_5e8d, 0x433f_825c, 0x4344_8c89) == 194,
{
    reveal(chord_code);
    lemma2_to64();
    lemma2_to64_rest();
    lemma_high_powers();
    assert(0x8d_5e8d * 0x1 - 0x85_5e8d * 0x1 == 0x8_0000);
    lemma_sum_known(0x3f0d_5e8d, 0x3f05_5e8d, true, 0x8d_5e8d, 125, 0x85_5e8d, 125, 0x1, 0x1, 0x8_0000, 20, 0x8_0000, 0x10);
    assert(sub_spec(0x3f0d_5e8d, 0x3f05_5e8d) == 0x3d00_0000);
    assert(0x8a_1b54 * 0x1 - 0x85_5e8d * 0x1 == 0x4_bcc7);
    lemma_sum_known(0x3f0a_1b54, 0x3f05_5e8d, true, 0x8a_1b54, 125, 0x85_5e8d, 125, 0x1, 0x1, 0x4_bcc7, 19, 0x4_0000, 0x20);
    assert(sub_spec(0x3f0a_1b54, 0x3f05_5e8d) == 0x3c97_98e0);
    assert(0xc4_8c89 * 0x1 - 0xbf_825c * 0x1 == 0x5_0a2d);
    lemma_sum_known(0x4344_8c89, 0x433f_825c, true, 0xc4_8c89, 133, 0xbf_825c, 133, 0x1, 0x1, 0x5_0a2d, 19, 0x4_0000, 0x20);
    assert(sub_spec(0x4344_8c89, 0x433f_825c) == 0x40a1_45a0);
    assert(0xa1_45a0 * 0x97_98e0 == 0x5f80_5fd3_ec00);
    lemma_product_known(0x40a1_45a0, 0x3c97_98e0, 0xa1_45a0, 128, 0x97_98e0, 120, 0x5f80_5fd3_ec00, 47, 0x4000_0000_0000, 0x80_0000);
    assert(mul_spec(0x40a1_45a0, 0x3c97_98e0) == 0x3dbf_00c0);
    assert(0xbf_00c0 * 0x1_0000_0000_0000_0000 == 0x1_7e01_8000_0000_0000 * 0x80_0000 + 0x0);
    lemma_quotient_known(0x3dbf_00c0, 0x3d00_0000, 0xbf_00c0, 122, 0x80_0000, 121, 0x1_7e01_8000_0000_0000, 0x0, 66, 0x2_0000_0000_0000_0000, 0x400_0000_0000);
    assert(div_spec(0x3dbf_00c0, 0x3d00_0000) == 0x403f_00c0);
    assert(0xbf_825c * 0x40 + 0xbf_00c0 * 0x1 == 0x309f_97c0);
    lemma_sum_known(0x433f_825c, 0x403f_00c0, false, 0xbf_825c, 133, 0xbf_00c0, 127, 0x40, 0x1, 0x309f_97c0, 30, 0x2000_0000, 0x40);
    assert(add_spec(0x433f_825c, 0x403f_00c0) == 0x4342_7e5f);
    lemma_whole_known(0x4342_7e5f, 0xc2_7e5f, 133, 0x1_0000);
}

/// Code 195.
proof fn lemma_code_195()
    ensures
        chord_code(0x3f0b_b499, 0x3f05_5e8d, 0x3f0d_5e8d, 0x433f_825c, 0x4344_8c89) == 195,
{
    reveal(chord_code);
    lemma2_to64();
    lemma2_to64_rest();
    lemma_high_powers();
    assert(0x8d_5e8d * 0x1 - 0x85_5e8d * 0x1 == 0x8_0000);
    lemma_sum_known(0x3f0d_5e8d, 0x3f05_5e8d, true, 0x8d_5e8d, 125, 0x85_5e8d, 125, 0x1, 0x1, 0x8_0000, 20, 0x8_0000, 0x10);
    assert(sub_spec(0x3f0d_5e8d, 0x3f05_5e8d) == 0x3d00_0000);
    assert(0x8b_b499 * 0x1 - 0x85_5e8d * 0x1 == 0x6_560c);
    lemma_sum_known(0x3f0b_b499, 0x3f05_5e8d, true, 0x8b_b499, 125, 0x85_5e8d, 125, 0x1, 0x1, 0x6_560c, 19, 0x4_0000, 0x20);
    assert(sub_spec(0x3f0b_b499, 0x3f05_5e8d) == 0x3cca_c180);
    assert(0xc4_8c89 * 0x1 - 0xbf_825c * 0x1 == 0x5_0a2d);
    lemma_sum_known(0x4344_8c89, 0x433f_825c, true, 0xc4_8c89, 133, 0xbf_825c, 133, 0x1, 0x1, 0x5_0a2d, 19, 0x4_0000, 0x20);
    assert(sub_spec(0x4344_8c89, 0x433f_825c) == 0x40a1_45a0);
    assert(0xa1_45a0 * 0xca_c180 == 0x7fba_d660_7000);
    lemma_product_known(0x40a1_45a0, 0x3cca_c180, 0xa1_45a0, 128, 0xca_c180, 120, 0x7fba_d660_7000, 47, 0x4000_0000_0000, 0x80_0000);
    assert(mul_spec(0x40a1_45a0, 0x3cca_c180) == 0x3dff_75ad);
    assert(0xff_75ad * 0x1_0000_0000_0000_0000 == 0x1_feeb_5a00_0000_0000 * 0x80_0000 + 0x0);
    lemma_quotient_known(0x3dff_75ad, 0x3d00_0000, 0xff_75ad, 122, 0x80_0000, 121, 0x1_feeb_5a00_0000_0000, 0x0, 66, 0x2_0000_0000_0000_0000, 0x400_0000_0000);
    assert(div_spec(0x3dff_75ad, 0x3d00_0000) == 0x407f_75ad);
    assert(0xbf_825c * 0x40 + 0xff_75ad * 0x1 == 0x30e0_0cad);
    lemma_sum_known(0x433f_825c, 0x407f_75ad, false, 0xbf_825c, 133, 0xff_75ad, 127, 0x40, 0x1, 0x30e0_0cad, 30, 0x2000_0000, 0x40);
    assert(add_spec(0x433f_825c, 0x407f_75ad) == 0x4343_8033);
    lemma_whole_known(0x4343_8033, 0xc3_8033, 133, 0x1_0000);
}

/// Code 196.
proof fn lemma_code_196()
    ensures
        chord_code(0x3f0d_509f, 0x3f05_5e8d, 0x3f0d_5e8d, 0x433f_825c, 0x4344_8c89) == 196,
{
    reveal(chord_code);
    lemma2_to64();
    lemma2_to64_rest();
    lemma_high_powers();
    assert(0x8d_5e8d * 0x1 - 0x85_5e8d * 0x1 == 0x8_0000);
    lemma_sum_known(0x3f0d_5e8d, 0x3f05_5e8d, true, 0x8d_5e8d, 125, 0x85_5e8d, 125, 0x1, 0x1, 0x8_0000, 20, 0x8_0000, 0x10);
    assert(sub_spec(0x3f0d_5e8d, 0x3f05_5e8d) == 0x3d00_0000);
    assert(0x8d_509f * 0x1 - 0x85_5e8d * 0x1 == 0x7_f212);
    lemma_sum_known(0x3f0d_509f, 0x3f05_5e8d, true, 0x8d_509f, 125, 0x85_5e8d, 125, 0x1, 0x1, 0x7_f212, 19, 0x4_0000, 0x20);
    assert(sub_spec(0x3f0d_509f, 0x3f05_5e8d) == 0x3cfe_4240);
    assert(0xc4_8c89 * 0x1 - 0xbf_825c * 0x1 == 0x5_0a2d);
    lemma_sum_known(0x4344_8c89, 0x433f_825c, true, 0xc4_8c89, 133, 0xbf_825c, 133, 0x1, 0x1, 0x5_0a2d, 19, 0x4_0000, 0x20);
    assert(sub_spec(0x4344_8c89, 0x433f_825c) == 0x40a1_45a0);
    assert(0xa1_45a0 * 0xfe_4240 == 0xa02c_d104_a800);
    lemma_product_known(0x40a1_45a0, 0x3cfe_4240, 0xa1_45a0, 128, 0xfe_4240, 120, 0xa02c_d104_a800, 48, 0x8000_0000_0000, 0x100_0000);
    assert(mul_spec(0x40a1_45a0, 0x3cfe_4240) == 0x3e20_2cd1);
    assert(0xa0_2cd1 * 0x1_0000_0000_0000_0000 == 0x1_4059_a200_0000_0000 * 0x80_0000 + 0x0);
    lemma_quotient_known(0x3e20_2cd1, 0x3d00_0000, 0xa0_2cd1, 123, 0x80_0000, 121, 0x1_4059_a200_0000_0000, 0x0, 66, 0x2_0000_0000_0000_0000, 0x400_0000_0000);
    assert(div_spec(0x3e20_2cd1, 0x3d00_0000) == 0x40a0_2cd1);
    assert(0xbf_825c * 0x20 + 0xa0_2cd1 * 0x1 == 0x1890_7851);
    lemma_sum_known(0x433f_825c, 0x40a0_2cd1, false, 0xbf_825c, 133, 0xa0_2cd1, 128, 0x20, 0x1, 0x1890_7851, 29, 0x1000_0000, 0x20);
    assert(add_spec(0x433f_825c, 0x40a0_2cd1) == 0x4344_83c3);
    lemma_whole_known(0x4344_83c3, 0xc4_83c3, 133, 0x1_0000);
}

/// Code 197.
proof fn lemma_code_197()
    ensures
        chord_code(0x3f0e_ef65, 0x3f0d_5e8d, 0x3f15_5e8d, 0x4344_8c89, 0x4349_6ae5) == 197,
{
    reveal(chord_code);
    lemma2_to64();
    lemma2_to64_rest();
    lemma_high_powers();
    assert(0x95_5e8d * 0x1 - 0x8d_5e8d * 0x1 == 0x8_0000);
    lemma_sum_known(0x3f15_5e8d, 0x3f0d_5e8d, true, 0x95_5e8d, 125, 0x8d_5e8d, 125, 0x1, 0x1, 0x8_0000, 20, 0x8_0000, 0x10);
    assert(sub_spec(0x3f15_5e8d, 0x3f0d_5e8d) == 0x3d00_0000);
    assert(0x8e_ef65 * 0x1 - 0x8d_5e8d * 0x1 == 0x1_90d8);
    lemma_sum_known(0x3f0e_ef65, 0x3f0d_5e8d, true, 0x8e_ef65, 125, 0x8d_5e8d, 125, 0x1, 0x1, 0x1_90d8, 17, 0x1_0000, 0x80);
    assert(sub_spec(0x3f0e_ef65, 0x3f0d_5e8d) == 0x3bc8_6c00);
    assert(0xc9_6ae5 * 0x1 - 0xc4_8c89 * 0x1 == 0x4_de5c);
    lemma_sum_known(0x4349_6ae5, 0x4344_8c89, true, 0xc9_6ae5, 133, 0xc4_8c89, 133, 0x1, 0x1, 0x4_de5c, 19, 0x4_0000, 0x20);
    assert(sub_spec(0x4349_6ae5, 0x4344_8c89) == 0x409b_cb80);
    assert(0x9b_cb80 * 0xc8_6c00 == 0x79f8_b5da_0000);
    lemma_product_known(0x409b_cb80, 0x3bc8_6c00, 0x9b_cb80, 128, 0xc8_6c00, 118, 0x79f8_b5da_0000, 47, 0x4000_0000_0000, 0x80_0000);
    assert(mul_spec(0x409b_cb80, 0x3bc8_6c00) == 0x3cf3_f16c);
    assert(0xf3_f16c * 0x1_0000_0000_0000_0000 == 0x1_e7e2_d800_0000_0000 * 0x80_0000 + 0x0);
    lemma_quotient_known(0x3cf3_f16c, 0x3d00_0000, 0xf3_f16c, 120, 0x80_0000, 121, 0x1_e7e2_d800_0000_0000, 0x0, 66, 0x2_0000_0000_0000_0000, 0x400_0000_0000);
    assert(div_spec(0x3cf3_f16c, 0x3d00_0000) == 0x3f73_f16c);
    assert(0xc4_8c89 * 0x100 + 0xf3_f16c * 0x1 == 0xc580_7a6c);
    lemma_sum_known(0x4344_8c89, 0x3f73_f16c, false, 0xc4_8c89, 133, 0xf3_f16c, 125, 0x100, 0x1, 0xc580_7a6c, 32, 0x8000_0000, 0x100);
    assert(add_spec(0x4344_8c89, 0x3f73_f16c) == 0x4345_807a);
    lemma_whole_known(0x4345_807a, 0xc5_807a, 133, 0x1_0000);
}

/// Code 198.
proof fn lemma_code_198()
    ensures
        chord_code(0x3f10_90ef, 0x3f0d_5e8d, 0x3f15_5e8d, 0x4344_8c89, 0x4349_6ae5) == 198,
{
    reveal(chord_code);
    lemma2_to64();
    lemma2_to64_rest();
    lemma_high_powers();
    assert(0x95_5e8d * 0x1 - 0x8d_5e8d * 0x1 == 0x8_0000);
    lemma_sum_known(0x3f15_5e8d, 0x3f0d_5e8d, true, 0x95_5e8d, 125, 0x8d_5e8d, 125, 0x1, 0x1, 0x8_0000, 20, 0x8_0000, 0x10);
    assert(sub_spec(0x3f15_5e8d, 0x3f0d_5e8d) == 0x3d00_0000);
    assert(0x90_90ef * 0x1 - 0x8d_5e8d * 0x1 == 0x3_3262);
    lemma_sum_known(0x3f10_90ef, 0x3f0d_5e8d, true, 0x90_90ef, 125, 0x8d_5e8d, 125, 0x1, 0x1, 0x3_3262, 18, 0x2_0000, 0x40);
    assert(sub_spec(0x3f10_90ef, 0x3f0d_5e8d) == 0x3c4c_9880);
    assert(0xc9_6ae5 * 0x1 - 0xc4_8c89 * 0x1 == 0x4_de5c);
    lemma_sum_known(0x4349_6ae5, 0x4344_8c89, true, 0xc9_6ae5, 133, 0xc4_8c89, 133, 0x1, 0x1, 0x4_de5c, 19, 0x4_0000, 0x20);
    assert(sub_spec(0x4349_6ae5, 0x4344_8c89) == 0x409b_cb80);
    assert(0x9b_cb80 * 0xcc_9880 == 0x7c82_f8b9_c000);
    lemma_product_known(0x409b_cb80, 0x3c4c_9880, 0x9b_cb80, 128, 0xcc_9880, 119, 0x7c82_f8b9_c000, 47, 0x4000_0000_0000, 0x80_0000);
    assert(mul_spec(0x409b_cb80, 0x3c4c_9880) == 0x3d79_05f1);
    assert(0xf9_05f1 * 0x1_0000_0000_0000_0000 == 0x1_f20b_e200_0000_0000 * 0x80_0000 + 0x0);
    lemma_quotient_known(0x3d79_05f1, 0x3d00_0000, 0xf9_05f1, 121, 0x80_0000, 121, 0x1_f20b_e200_0000_0000, 0x0, 66, 0x2_0000_0000_0000_0000, 0x400_0000_0000);
    assert(div_spec(0x3d79_05f1, 0x3d00_0000) == 0x3ff9_05f1);
    assert(0xc4_8c89 * 0x80 + 0xf9_05f1 * 0x1 == 0x633f_4a71);
    lemma_sum_known(0x4344_8c89, 0x3ff9_05f1, false, 0xc4_8c89, 133, 0xf9_05f1, 126, 0x80, 0x1, 0x633f_4a71, 31, 0x4000_0000, 0x80);
    assert(add_spec(0x4344_8c89, 0x3ff9_05f1) == 0x4346_7e95);
    lemma_whole_known(0x4346_7e95, 0xc6_7e95, 133, 0x1_0000);
}

/// Code 199.
proof fn lemma_code_199()
    ensures
        chord_code(0x3f12_353d, 0x3f0d_5e8d, 0x3f15_5e8d, 0x4344_8c89, 0x4349_6ae5) == 199,
{
    reveal(chord_code);
    lemma2_to64();
    lemma2_to64_rest();
    lemma_high_powers();
    assert(0x95_5e8d * 0x1 - 0x8d_5e8d * 0x1 == 0x8_0000);
    lemma_sum_known(0x3f15_5e8d, 0x3f0d_5e8d, true, 0x95_5e8d, 125, 0x8d_5e8d, 125, 0x1, 0x1, 0x8_0000, 20, 0x8_0000, 0x10);
    assert(sub_spec(0x3f15_5e8d, 0x3f0d_5e8d) == 0x3d00_0000);
    assert(0x92_353d * 0x1 - 0x8d_5e8d * 0x1 == 0x4_d6b0);
    lemma_sum_known(0x3f12_353d, 0x3f0d_5e8d, true, 0x92_353d, 125, 0x8d_5e8d, 125, 0x1, 0x1, 0x4_d6b0, 19, 0x4_0000, 0x20);
    assert(sub_spec(0x3f12_353d, 0x3f0d_5e8d) == 0x3c9a_d600);
    assert(0xc9_6ae5 * 0x1 - 0xc4_8c89 * 0x1 == 0x4_de5c);
    lemma_sum_known(0x4349_6ae5, 0x4344_8c89, true, 0xc9_6ae5, 133, 0xc4_8c89, 133, 0x1, 0x1, 0x4_de5c, 19, 0x4_0000, 0x20);
    assert(sub_spec(0x4349_6ae5, 0x4344_8c89) == 0x409b_cb80);
    assert(0x9b_cb80 * 0x9a_d600 == 0x5e3a_a71d_0000);
    lemma_product_known(0x409b_cb80, 0x3c9a_d600, 0x9b_cb80, 128, 0x9a_d600, 120, 0x5e3a_a71d_0000, 47, 0x4000_0000_0000, 0x80_0000);
    assert(mul_spec(0x409b_cb80, 0x3c9a_d600) == 0x3dbc_754e);
    assert(0xbc_754e * 0x1_0000_0000_0000_0000 == 0x1_78ea_9c00_0000_0000 * 0x80_0000 + 0x0);
    lemma_quotient_known(0x3dbc_754e, 0x3d00_0000, 0xbc_754e, 122, 0x80_0000, 121, 0x1_78ea_9c00_0000_0000, 0x0, 66, 0x2_0000_0000_0000_0000, 0x400_0000_0000);
    assert(div_spec(0x3dbc_754e, 0x3d00_0000) == 0x403c_754e);
    assert(0xc4_8c89 * 0x40 + 0xbc_754e * 0x1 == 0x31df_978e);
    lemma_sum_known(0x4344_8c89, 0x403c_754e, false, 0xc4_8c89, 133, 0xbc_754e, 127, 0x40, 0x1, 0x31df_978e, 30, 0x2000_0000, 0x40);
    assert(add_spec(0x4344_8c89, 0x403c_754e) == 0x4347_7e5e);
    lemma_whole_known(0x4347_7e5e, 0xc7_7e5e, 133, 0x1_0000);
}

/// Code 200.
proof fn lemma_code_200()
    ensures
        chord_code(0x3f13_dc50, 0x3f0d_5e8d, 0x3f15_5e8d, 0x4344_8c89, 0x4349_6ae5) == 200,
{
    reveal(chord_code);
    lemma2_to64();
    lemma2_to64_rest();
    lemma_high_powers();
    assert(0x95_5e8d * 0x1 - 0x8d_5e8d * 0x1 == 0x8_0000);
    lemma_sum_known(0x3f15_5e8d, 0x3f0d_5e8d, true, 0x95_5e8d, 125, 0x8d_5e8d, 125, 0x1, 0x1, 0x8_0000, 20, 0x8_0000, 0x10);
    assert(sub_spec(0x3f15_5e8d, 0x3f0d_5e8d) == 0x3d00_0000);
    assert(0x93_dc50 * 0x1 - 0x8d_5e8d * 0x1 == 0x6_7dc3);
    lemma_sum_known(0x3f13_dc50, 0x3f0d_5e8d, true, 0x93_dc50, 125, 0x8d_5e8d, 125, 0x1, 0x1, 0x6_7dc3, 19, 0x4_0000, 0x20);
    assert(sub_spec(0x3f13_dc50, 0x3f0d_5e8d) == 0x3ccf_b860);
    assert(0xc9_6ae5 * 0x1 - 0xc4_8c89 * 0x1 == 0x4_de5c);
    lemma_sum_known(0x4349_6ae5, 0x4344_8c89, true, 0xc9_6ae5, 133, 0xc4_8c89, 133, 0x1, 0x1, 0x4_de5c, 19, 0x4_0000, 0x20);
    assert(sub_spec(0x4349_6ae5, 0x4344_8c89) == 0x409b_cb80);
    assert(0x9b_cb80 * 0xcf_b860 == 0x7e69_c130_5000);
    lemma_product_known(0x409b_cb80, 0x3ccf_b860, 0x9b_cb80, 128, 0xcf_b860, 120, 0x7e69_c130_5000, 47, 0x4000_0000_0000, 0x80_0000);
    assert(mul_spec(0x409b_cb80, 0x3ccf_b860) == 0x3dfc_d382);
    assert(0xfc_d382 * 0x1_0000_0000_0000_0000 == 0x1_f9a7_0400_0000_0000 * 0x80_0000 + 0x0);
    lemma_quotient_known(0x3dfc_d382, 0x3d00_0000, 0xfc_d382, 122, 0x80_0000, 121, 0x1_f9a7_0400_0000_0000, 0x0, 66, 0x2_0000_0000_0000_0000, 0x400_0000_0000);
    assert(div_spec(0x3dfc_d382, 0x3d00_0000) == 0x407c_d382);
    assert(0xc4_8c89 * 0x40 + 0xfc_d382 * 0x1 == 0x321f_f5c2);
    lemma_sum_known(0x4344_8c89, 0x407c_d382, false, 0xc4_8c89, 133, 0xfc_d382, 127, 0x40, 0x1, 0x321f_f5c2, 30, 0x2000_0000, 0x40);
    assert(add_spec(0x4344_8c89, 0x407c_d382) == 0x4348_7fd7);
    lemma_whole_known(0x4348_7fd7, 0xc8_7fd7, 133, 0x1_0000);
}

/// Code 201.
proof fn lemma_code_201()
    ensures
        chord_code(0x3f15_862a, 0x3f15_5e8d, 0x3f1d_5e8d, 0x4349_6ae5, 0x434e_23f7) == 201,
{
    reveal(chord_code);
    lemma2_to64();
    lemma2_to64_rest();
    lemma_high_powers();
    assert(0x9d_5e8d * 0x1 - 0x95_5e8d * 0x1 == 0x8_0000);
    lemma_sum_known(0x3f1d_5e8d, 0x3f15_5e8d, true, 0x9d_5e8d, 125, 0x95_5e8d, 125, 0x1, 0x1, 0x8_0000, 20, 0x8_0000, 0x10);
    assert(sub_spec(0x3f1d_5e8d, 0x3f15_5e8d) == 0x3d00_0000);
    assert(0x95_862a * 0x1 - 0x95_5e8d * 0x1 == 0x279d);
    lemma_sum_known(0x3f15_862a, 0x3f15_5e8d, true, 0x95_862a, 125, 0x95_5e8d, 125, 0x1, 0x1, 0x279d, 14, 0x2000, 0x400);
    assert(sub_spec(0x3f15_862a, 0x3f15_5e8d) == 0x3a1e_7400);
    assert(0xce_23f7 * 0x1 - 0xc9_6ae5 * 0x1 == 0x4_b912);
    lemma_sum_known(0x434e_23f7, 0x4349_6ae5, true, 0xce_23f7, 133, 0xc9_6ae5, 133, 0x1, 0x1, 0x4_b912, 19, 0x4_0000, 0x20);
    assert(sub_spec(0x434e_23f7, 0x4349_6ae5) == 0x4097_2240);
    assert(0x97_2240 * 0x9e_7400 == 0x5d8b_9f05_0000);
    lemma_product_known(0x4097_2240, 0x3a1e_7400, 0x97_2240, 128, 0x9e_7400, 115, 0x5d8b_9f05_0000, 47, 0x4000_0000_0000, 0x80_0000);
    assert(mul_spec(0x4097_2240, 0x3a1e_7400) == 0x3b3b_173e);
    assert(0xbb_173e * 0x1_0000_0000_0000_0000 == 0x1_762e_7c00_0000_0000 * 0x80_0000 + 0x0);
    lemma_quotient_known(0x3b3b_173e, 0x3d00_0000, 0xbb_173e, 117, 0x80_0000, 121, 0x1_762e_7c00_0000_0000, 0x0, 66, 0x2_0000_0000_0000_0000, 0x400_0000_0000);
    assert(div_spec(0x3b3b_173e, 0x3d00_0000) == 0x3dbb_173e);
    assert(0xc9_6ae5 * 0x800 + 0xbb_173e * 0x1 == 0x6_4c12_3f3e);
    lemma_sum_known(0x4349_6ae5, 0x3dbb_173e, false, 0xc9_6ae5, 133, 0xbb_173e, 122, 0x800, 0x1, 0x6_4c12_3f3e, 35, 0x4_0000_0000, 0x800);
    assert(add_spec(0x4349_6ae5, 0x3dbb_173e) == 0x4349_8248);
    lemma_whole_known(0x4349_8248, 0xc9_8248, 133, 0x1_0000);
}

/// Code 202.
proof fn lemma_code_202()
    ensures
        chord_code(0x3f17_32cc, 0x3f15_5e8d, 0x3f1d_5e8d, 0x4349_6ae5, 0x434e_23f7) == 202,
{
    reveal(chord_code);
    lemma2_to64();
    lemma2_to64_rest();
    lemma_high_powers();
    assert(0x9d_5e8d * 0x1 - 0x95_5e8d * 0x1 == 0x8_0000);
    lemma_sum_known(0x3f1d_5e8d, 0x3f15_5e8d, true, 0x9d_5e8d, 125, 0x95_5e8d, 125, 0x1, 0x1, 0x8_0000, 20, 0x8_0000, 0x10);
    assert(sub_spec(0x3f1d_5e8d, 0x3f15_5e8d) == 0x3d00_0000);
    assert(0x97_32cc * 0x1 - 0x95_5e8d * 0x1 == 0x1_d43f);
    lemma_sum_known(0x3f17_32cc, 0x3f15_5e8d, true, 0x97_32cc, 125, 0x95_5e8d, 125, 0x1, 0x1, 0x1_d43f, 17, 0x1_0000, 0x80);
    assert(sub_spec(0x3f17_32cc, 0x3f15_5e8d) == 0x3bea_1f80);
    assert(0xce_23f7 * 0x1 - 0xc9_6ae5 * 0x1 == 0x4_b912);
    lemma_sum_known(0x434e_23f7, 0x4349_6ae5, true, 0xce_23f7, 133, 0xc9_6ae5, 133, 0x1, 0x1, 0x4_b912, 19, 0x4_0000, 0x20);
    assert(sub_spec(0x434e_23f7, 0x4349_6ae5) == 0x4097_2240);
    assert(0x97_2240 * 0xea_1f80 == 0x8a37_e736_e000);
    lemma_product_known(0x4097_2240, 0x3bea_1f80, 0x97_2240, 128, 0xea_1f80, 118, 0x8a37_e736_e000, 48, 0x8000_0000_0000, 0x100_0000);
    assert(mul_spec(0x4097_2240, 0x3bea_1f80) == 0x3d0a_37e7);
    assert(0x8a_37e7 * 0x1_0000_0000_0000_0000 == 0x1_146f_ce00_0000_0000 * 0x80_0000 + 0x0);
    lemma_quotient_known(0x3d0a_37e7, 0x3d00_0000, 0x8a_37e7, 121, 0x80_0000, 121, 0x1_146f_ce00_0000_0000, 0x0, 66, 0x2_0000_0000_0000_0000, 0x400_0000_0000);
    assert(div_spec(0x3d0a_37e7, 0x3d00_0000) == 0x3f8a_37e7);
    assert(0xc9_6ae5 * 0x80 + 0x8a_37e7 * 0x1 == 0x653f_aa67);
    lemma_sum_known(0x4349_6ae5, 0x3f8a_37e7, false, 0xc9_6ae5, 133, 0x8a_37e7, 126, 0x80, 0x1, 0x653f_aa67, 31, 0x4000_0000, 0x80);
    assert(add_spec(0x4349_6ae5, 0x3f8a_37e7) == 0x434a_7f55);
    lemma_whole_known(0x434a_7f55, 0xca_7f55, 133, 0x1_0000);
}

/// Code 203.
proof fn lemma_code_203()
    ensures
        chord_code(0x3f18_e237, 0x3f15_5e8d, 0x3f1d_5e8d, 0x4349_6ae5, 0x434e_23f7) == 203,
{
    reveal(chord_code);
    lemma2_to64();
    lemma2_to64_rest();
    lemma_high_powers();
    assert(0x9d_5e8d * 0x1 - 0x95_5e8d * 0x1 == 0x8_0000);
    lemma_sum_known(0x3f1d_5e8d, 0x3f15_5e8d, true, 0x9d_5e8d, 125, 0x95_5e8d, 125, 0x1, 0x1, 0x8_0000, 20, 0x8_0000, 0x10);
    assert(sub_spec(0x3f1d_5e8d, 0x3f15_5e8d) == 0x3d00_0000);
    assert(0x98_e237 * 0x1 - 0x95_5e8d * 0x1 == 0x3_83aa);
    lemma_sum_known(0x3f18_e237, 0x3f15_5e8d, true, 0x98_e237, 125, 0x95_5e8d, 125, 0x1, 0x1, 0x3_83aa, 18, 0x2_0000, 0x40);
    assert(sub_spec(0x3f18_e237, 0x3f15_5e8d) == 0x3c60_ea80);
    assert(0xce_23f7 * 0x1 - 0xc9_6ae5 * 0x1 == 0x4_b912);
    lemma_sum_known(0x434e_23f7, 0x4349_6ae5, true, 0xce_23f7, 133, 0xc9_6ae5, 133, 0x1, 0x1, 0x4_b912, 19, 0x4_0000, 0x20);
    assert(sub_spec(0x434e_23f7, 0x4349_6ae5) == 0x4097_2240);
    assert(0x97_2240 * 0xe0_ea80 == 0x84c8_68df_a000);
    lemma_product_known(0x4097_2240, 0x3c60_ea80, 0x97_2240, 128, 0xe0_ea80, 119, 0x84c8_68df_a000, 48, 0x8000_0000_0000, 0x100_0000);
    assert(mul_spec(0x4097_2240, 0x3c60_ea80) == 0x3d84_c869);
    assert(0x84_c869 * 0x1_0000_0000_0000_0000 == 0x1_0990_d200_0000_0000 * 0x80_0000 + 0x0);
    lemma_quotient_known(0x3d84_c869, 0x3d00_0000, 0x84_c869, 122, 0x80_0000, 121, 0x1_0990_d200_0000_0000, 0x0, 66, 0x2_0000_0000_0000_0000, 0x400_0000_0000);
    assert(div_spec(0x3d84_c869, 0x3d00_0000) == 0x4004_c869);
    assert(0xc9_6ae5 * 0x40 + 0x84_c869 * 0x1 == 0x32df_81a9);
    lemma_sum_known(0x4349_6ae5, 0x4004_c869, false, 0xc9_6ae5, 133, 0x84_c869, 127, 0x40, 0x1, 0x32df_81a9, 30, 0x2000_0000, 0x40);
    assert(add_spec(0x4349_6ae5, 0x4004_c869) == 0x434b_7e07);
    lemma_whole_known(0x434b_7e07, 0xcb_7e07, 133, 0x1_0000);
}

/// Code 204.
proof fn lemma_code_204()
    ensures
        chord_code(0x3f1a_946e, 0x3f15_5e8d, 0x3f1d_5e8d, 0x4349_6ae5, 0x434e_23f7) == 204,
{
    reveal(chord_code);
    lemma2_to64();
    lemma2_to64_rest();
    lemma_high_powers();
    assert(0x9d_5e8d * 0x1 - 0x95_5e8d * 0x1 == 0x8_0000);
    lemma_sum_known(0x3f1d_5e8d, 0x3f15_5e8d, true, 0x9d_5e8d, 125, 0x95_5e8d, 125, 0x1, 0x1, 0x8_0000, 20, 0x8_0000, 0x10);
    assert(sub_spec(0x3f1d_5e8d, 0x3f15_5e8d) == 0x3d00_0000);
    assert(0x9a_946e * 0x1 - 0x95_5e8d * 0x1 == 0x5_35e1);
    lemma_sum_known(0x3f1a_946e, 0x3f15_5e8d, true, 0x9a_946e, 125, 0x95_5e8d, 125, 0x1, 0x1, 0x5_35e1, 19, 0x4_0000, 0x20);
    assert(sub_spec(0x3f1a_946e, 0x3f15_5e8d) == 0x3ca6_bc20);
    assert(0xce_23f7 * 0x1 - 0xc9_6ae5 * 0x1 == 0x4_b912);
    lemma_sum_known(0x434e_23f7, 0x4349_6ae5, true, 0xce_23f7, 133, 0xc9_6ae5, 133, 0x1, 0x1, 0x4_b912, 19, 0x4_0000, 0x20);
    assert(sub_spec(0x434e_23f7, 0x4349_6ae5) == 0x4097_2240);
    assert(0x97_2240 * 0xa6_bc20 == 0x626f_458b_4800);
    lemma_product_known(0x4097_2240, 0x3ca6_bc20, 0x97_2240, 128, 0xa6_bc20, 120, 0x626f_458b_4800, 47, 0x4000_0000_0000, 0x80_0000);
    assert(mul_spec(0x4097_2240, 0x3ca6_bc20) == 0x3dc4_de8b);
    assert(0xc4_de8b * 0x1_0000_0000_0000_0000 == 0x1_89bd_1600_0000_0000 * 0x80_0000 + 0x0);
    lemma_quotient_known(0x3dc4_de8b, 0x3d00_0000, 0xc4_de8b, 122, 0x80_0000, 121, 0x1_89bd_1600_0000_0000, 0x0, 66, 0x2_0000_0000_0000_0000, 0x400_0000_0000);
    assert(div_spec(0x3dc4_de8b, 0x3d00_0000) == 0x4044_de8b);
    assert(0xc9_6ae5 * 0x40 + 0xc4_de8b * 0x1 == 0x331f_97cb);
    lemma_sum_known(0x4349_6ae5, 0x4044_de8b, false, 0xc9_6ae5, 133, 0xc4_de8b, 127, 0x40, 0x1, 0x331f_97cb, 30, 0x2000_0000, 0x40);
    assert(add_spec(0x4349_6ae5, 0x4044_de8b) == 0x434c_7e5f);
    lemma_whole_known(0x434c_7e5f, 0xcc_7e5f, 133, 0x1_0000);
}

/// Code 205.
proof fn lemma_code_205()
    ensures
        chord_code(0x3f1c_4970, 0x3f15_5e8d, 0x3f1d_5e8d, 0x4349_6ae5, 0x434e_23f7) == 205,
{
    reveal(chord_code);
    lemma2_to64();
    lemma2_to64_rest();
    lemma_high_powers();
    assert(0x9d_5e8d * 0x1 - 0x95_5e8d * 0x1 == 0x8_0000);
    lemma_sum_known(0x3f1d_5e8d, 0x3f15_5e8d, true, 0x9d_5e8d, 125, 0x95_5e8d, 125, 0x1, 0x1, 0x8_0000, 20, 0x8_0000, 0x10);
    assert(sub_spec(0x3f1d_5e8d, 0x3f15_5e8d) == 0x3d00_0000);
    assert(0x9c_4970 * 0x1 - 0x95_5e8d * 0x1 == 0x6_eae3);
    lemma_sum_known(0x3f1c_4970, 0x3f15_5e8d, true, 0x9c_4970, 125, 0x95_5e8d, 125, 0x1, 0x1, 0x6_eae3, 19, 0x4_0000, 0x20);
    assert(sub_spec(0x3f1c_4970, 0x3f15_5e8d) == 0x3cdd_5c60);
    assert(0xce_23f7 * 0x1 - 0xc9_6ae5 * 0x1 == 0x4_b912);
    lemma_sum_known(0x434e_23f7, 0x4349_6ae5, true, 0xce_23f7, 133, 0xc9_6ae5, 133, 0x1, 0x1, 0x4_b912, 19, 0x4_0000, 0x20);
    assert(sub_spec(0x434e_23f7, 0x4349_6ae5) == 0x4097_2240);
    assert(0x97_2240 * 0xdd_5c60 == 0x82af_1a3b_d800);
    lemma_product_known(0x4097_2240, 0x3cdd_5c60, 0x97_2240, 128, 0xdd_5c60, 120, 0x82af_1a3b_d800, 48, 0x8000_0000_0000, 0x100_0000);
    assert(mul_spec(0x4097_2240, 0x3cdd_5c60) == 0x3e02_af1a);
    assert(0x82_af1a * 0x1_0000_0000_0000_0000 == 0x1_055e_3400_0000_0000 * 0x80_0000 + 0x0);
    lemma_quotient_known(0x3e02_af1a, 0x3d00_0000, 0x82_af1a, 123, 0x80_0000, 121, 0x1_055e_3400_0000_0000, 0x0, 66, 0x2_0000_0000_0000_0000, 0x400_0000_0000);
    assert(div_spec(0x3e02_af1a, 0x3d00_0000) == 0x4082_af1a);
    assert(0xc9_6ae5 * 0x20 + 0x82_af1a * 0x1 == 0x19b0_0bba);
    lemma_sum_known(0x4349_6ae5, 0x4082_af1a, false, 0xc9_6ae5, 133, 0x82_af1a, 128, 0x20, 0x1, 0x19b0_0bba, 29, 0x1000_0000, 0x20);
    assert(add_spec(0x4349_6ae5, 0x4082_af1a) == 0x434d_805e);
    lemma_whole_known(0x434d_805e, 0xcd_805e, 133, 0x1_0000);
}

/// Code 206.
proof fn lemma_code_206()
    ensures
        chord_code(0x3f1e_0140, 0x3f1d_5e8d, 0x3f25_5e8d, 0x434e_23f7, 0x4352_b965) == 206,
{
    reveal(chord_code);
    lemma2_to64();
    lemma2_to64_rest();
    lemma_high_powers();
    assert(0xa5_5e8d * 0x1 - 0x9d_5e8d * 0x1 == 0x8_0000);
    lemma_sum_known(0x3f25_5e8d, 0x3f1d_5e8d, true, 0xa5_5e8d, 125, 0x9d_5e8d, 125, 0x1, 0x1, 0x8_0000, 20, 0x8_0000, 0x10);
    assert(sub_spec(0x3f25_5e8d, 0x3f1d_5e8d) == 0x3d00_0000);
    assert(0x9e_0140 * 0x1 - 0x9d_5e8d * 0x1 == 0xa2b3);
    lemma_sum_known(0x3f1e_0140, 0x3f1d_5e8d, true, 0x9e_0140, 125, 0x9d_5e8d, 125, 0x1, 0x1, 0xa2b3, 16, 0x8000, 0x100);
    assert(sub_spec(0x3f1e_0140, 0x3f1d_5e8d) == 0x3b22_b300);
    assert(0xd2_b965 * 0x1 - 0xce_23f7 * 0x1 == 0x4_956e);
    lemma_sum_known(0x4352_b965, 0x434e_23f7, true, 0xd2_b965, 133, 0xce_23f7, 133, 0x1, 0x1, 0x4_956e, 19, 0x4_0000, 0x20);
    assert(sub_spec(0x4352_b965, 0x434e_23f7) == 0x4092_adc0);
    assert(0x92_adc0 * 0xa2_b300 == 0x5d38_82fd_4000);
    lemma_product_known(0x4092_adc0, 0x3b22_b300, 0x92_adc0, 128, 0xa2_b300, 117, 0x5d38_82fd_4000, 47, 0x4000_0000_0000, 0x80_0000);
    assert(mul_spec(0x4092_adc0, 0x3b22_b300) == 0x3c3a_7106);
    assert(0xba_7106 * 0x1_0000_0000_0000_0000 == 0x1_74e2_0c00_0000_0000 * 0x80_0000 + 0x0);
    lemma_quotient_known(0x3c3a_7106, 0x3d00_0000, 0xba_7106, 119, 0x80_0000, 121, 0x1_74e2_0c00_0000_0000, 0x0, 66, 0x2_0000_0000_0000_0000, 0x400_0000_0000);
    assert(div_spec(0x3c3a_7106, 0x3d00_0000) == 0x3eba_7106);
    assert(0xce_23f7 * 0x200 + 0xba_7106 * 0x1 == 0x1_9d02_5f06);
    lemma_sum_known(0x434e_23f7, 0x3eba_7106, false, 0xce_23f7, 133, 0xba_7106, 124, 0x200, 0x1, 0x1_9d02_5f06, 33, 0x1_0000_0000, 0x200);
    assert(add_spec(0x434e_23f7, 0x3eba_7106) == 0x434e_8130);
    lemma_whole_known(0x434e_8130, 0xce_8130, 133, 0x1_0000);
}

/// Code 207.
proof fn lemma_code_207()
    ensures
        chord_code(0x3f1f_bbde, 0x3f1d_5e8d, 0x3f25_5e8d, 0x434e_23f7, 0x4352_b965) == 207,
{
    reveal(chord_code);
    lemma2_to64();
    lemma2_to64_rest();
    lemma_high_powers();
    assert(0xa5_5e8d * 0x1 - 0x9d_5e8d * 0x1 == 0x8_0000);
    lemma_sum_known(0x3f25_5e8d, 0x3f1d_5e8d, true, 0xa5_5e8d, 125, 0x9d_5e8d, 125, 0x1, 0x1, 0x8_0000, 20, 0x8_0000, 0x10);
    assert(sub_spec(0x3f25_5e8d, 0x3f1d_5e8d) == 0x3d00_0000);
    assert(0x9f_bbde * 0x1 - 0x9d_5e8d * 0x1 == 0x2_5d51);
    lemma_sum_known(0x3f1f_bbde, 0x3f1d_5e8d, true, 0x9f_bbde, 125, 0x9d_5e8d, 125, 0x1, 0x1, 0x2_5d51, 18, 0x2_0000, 0x40);
    assert(sub_spec(0x3f1f_bbde, 0x3f1d_5e8d) == 0x3c17_5440);
    assert(0xd2_b965 * 0x1 - 0xce_23f7 * 0x1 == 0x4_956e);
    lemma_sum_known(0x4352_b965, 0x434e_23f7, true, 0xd2_b965, 133, 0xce_23f7, 133, 0x1, 0x1, 0x4_956e, 19, 0x4_0000, 0x20);
    assert(sub_spec(0x4352_b965, 0x434e_23f7) == 0x4092_adc0);
    assert(0x92_adc0 * 0x97_5440 == 0x56b4_c1ee_7000);
    lemma_product_known(0x4092_adc0, 0x3c17_5440, 0x92_adc0, 128, 0x97_5440, 119, 0x56b4_c1ee_7000, 47, 0x4000_0000_0000, 0x80_0000);
    assert(mul_spec(0x4092_adc0, 0x3c17_5440) == 0x3d2d_6984);
    assert(0xad_6984 * 0x1_0000_0000_0000_0000 == 0x1_5ad3_0800_0000_0000 * 0x80_0000 + 0x0);
    lemma_quotient_known(0x3d2d_6984, 0x3d00_0000, 0xad_6984, 121, 0x80_0000, 121, 0x1_5ad3_0800_0000_0000, 0x0, 66, 0x2_0000_0000_0000_0000, 0x400_0000_0000);
    assert(div_spec(0x3d2d_6984, 0x3d00_0000) == 0x3fad_6984);
    assert(0xce_23f7 * 0x80 + 0xad_6984 * 0x1 == 0x67bf_6504);
    lemma_sum_known(0x434e_23f7, 0x3fad_6984, false, 0xce_23f7, 133, 0xad_6984, 126, 0x80, 0x1, 0x67bf_6504, 31, 0x4000_0000, 0x80);
    assert(add_spec(0x434e_23f7, 0x3fad_6984) == 0x434f_7eca);
    lemma_whole_known(0x434f_7eca, 0xcf_7eca, 133, 0x1_0000);
}

/// Code 208.
proof fn lemma_code_208()
    ensures
        chord_code(0x3f21_794d, 0x3f1d_5e8d, 0x3f25_5e8d, 0x434e_23f7, 0x4352_b965) == 208,
{
    reveal(chord_code);
    lemma2_to64();
    lemma2_to64_rest();
    lemma_high_powers();
    assert(0xa5_5e8d * 0x1 - 0x9d_5e8d * 0x1 == 0x8_0000);
    lemma_sum_known(0x3f25_5e8d, 0x3f1d_5e8d, true, 0xa5_5e8d, 125, 0x9d_5e8d, 125, 0x1, 0x1, 0x8_0000, 20, 0x8_0000, 0x10);
    assert(sub_spec(0x3f25_5e8d, 0x3f1d_5e8d) == 0x3d00_0000);
    assert(0xa1_794d * 0x1 - 0x9d_5e8d * 0x1 == 0x4_1ac0);
    lemma_sum_known(0x3f21_794d, 0x3f1d_5e8d, true, 0xa1_794d, 125, 0x9d_5e8d, 125, 0x1, 0x1, 0x4_1ac0, 19, 0x4_0000, 0x20);
    assert(sub_spec(0x3f21_794d, 0x3f1d_5e8d) == 0x3c83_5800);
    assert(0xd2_b965 * 0x1 - 0xce_23f7 * 0x1 == 0x4_956e);
    lemma_sum_known(0x4352_b965, 0x434e_23f7, true, 0xd2_b965, 133, 0xce_23f7, 133, 0x1, 0x1, 0x4_956e, 19, 0x4_0000, 0x20);
    assert(sub_spec(0x4352_b965, 0x434e_23f7) == 0x4092_adc0);
    assert(0x92_adc0 * 0x83_5800 == 0x4b41_54fa_0000);
    lemma_product_known(0x4092_adc0, 0x3c83_5800, 0x92_adc0, 128, 0x83_5800, 120, 0x4b41_54fa_0000, 47, 0x4000_0000_0000, 0x80_0000);
    assert(mul_spec(0x4092_adc0, 0x3c83_5800) == 0x3d96_82aa);
    assert(0x96_82aa * 0x1_0000_0000_0000_0000 == 0x1_2d05_5400_0000_0000 * 0x80_0000 + 0x0);
    lemma_quotient_known(0x3d96_82aa, 0x3d00_0000, 0x96_82aa, 122, 0x80_0000, 121, 0x1_2d05_5400_0000_0000, 0x0, 66, 0x2_0000_0000_0000_0000, 0x400_0000_0000);
    assert(div_spec(0x3d96_82aa, 0x3d00_0000) == 0x4016_82aa);
    assert(0xce_23f7 * 0x40 + 0x96_82aa * 0x1 == 0x341f_806a);
    lemma_sum_known(0x434e_23f7, 0x4016_82aa, false, 0xce_23f7, 133, 0x96_82aa, 127, 0x40, 0x1, 0x341f_806a, 30, 0x2000_0000, 0x40);
    assert(add_spec(0x434e_23f7, 0x4016_82aa) == 0x4350_7e02);
    lemma_whole_known(0x4350_7e02, 0xd0_7e02, 133, 0x1_0000);
}

/// Code 209.
proof fn lemma_code_209()
    ensures
        chord_code(0x3f23_398c, 0x3f1d_5e8d, 0x3f25_5e8d, 0x434e_23f7, 0x4352_b965) == 209,
{
    reveal(chord_code);
    lemma2_to64();
    lemma2_to64_rest();
    lemma_high_powers();
    assert(0xa5_5e8d * 0x1 - 0x9d_5e8d * 0x1 == 0x8_0000);
    lemma_sum_known(0x3f25_5e8d, 0x3f1d_5e8d, true, 0xa5_5e8d, 125, 0x9d_5e8d, 125, 0x1, 0x1, 0x8_0000, 20, 0x8_0000, 0x10);
    assert(sub_spec(0x3f25_5e8d, 0x3f1d_5e8d) == 0x3d00_0000);
    assert(0xa3_398c * 0x1 - 0x9d_5e8d * 0x1 == 0x5_daff);
    lemma_sum_known(0x3f23_398c, 0x3f1d_5e8d, true, 0xa3_398c, 125, 0x9d_5e8d, 125, 0x1, 0x1, 0x5_daff, 19, 0x4_0000, 0x20);
    assert(sub_spec(0x3f23_398c, 0x3f1d_5e8d) == 0x3cbb_5fe0);
    assert(0xd2_b965 * 0x1 - 0xce_23f7 * 0x1 == 0x4_956e);
    lemma_sum_known(0x4352_b965, 0x434e_23f7, true, 0xd2_b965, 133, 0xce_23f7, 133, 0x1, 0x1, 0x4_956e, 19, 0x4_0000, 0x20);
    assert(sub_spec(0x4352_b965, 0x434e_23f7) == 0x4092_adc0);
    assert(0x92_adc0 * 0xbb_5fe0 == 0x6b5b_da12_4800);
    lemma_product_known(0x4092_adc0, 0x3cbb_5fe0, 0x92_adc0, 128, 0xbb_5fe0, 120, 0x6b5b_da12_4800, 47, 0x4000_0000_0000, 0x80_0000);
    assert(mul_spec(0x4092_adc0, 0x3cbb_5fe0) == 0x3dd6_b7b4);
    assert(0xd6_b7b4 * 0x1_0000_0000_0000_0000 == 0x1_ad6f_6800_0000_0000 * 0x80_0000 + 0x0);
    lemma_quotient_known(0x3dd6_b7b4, 0x3d00_0000, 0xd6_b7b4, 122, 0x80_0000, 121, 0x1_ad6f_6800_0000_0000, 0x0, 66, 0x2_0000_0000_0000_0000, 0x400_0000_0000);
    assert(div_spec(0x3dd6_b7b4, 0x3d00_0000) == 0x4056_b7b4);
    assert(0xce_23f7 * 0x40 + 0xd6_b7b4 * 0x1 == 0x345f_b574);
    lemma_sum_known(0x434e_23f7, 0x4056_b7b4, false, 0xce_23f7, 133, 0xd6_b7b4, 127, 0x40, 0x1, 0x345f_b574, 30, 0x2000_0000, 0x40);
    assert(add_spec(0x434e_23f7, 0x4056_b7b4) == 0x4351_7ed6);
    lemma_whole_known(0x4351_7ed6, 0xd1_7ed6, 133, 0x1_0000);
}

/// Code 210.
proof fn lemma_code_210()
    ensures
        chord_code(0x3f24_fc9f, 0x3f1d_5e8d, 0x3f25_5e8d, 0x434e_23f7, 0x4352_b965) == 210,
{
    reveal(chord_code);
    lemma2_to64();
    lemma2_to64_rest();
    lemma_high_powers();
    assert(0xa5_5e8d * 0x1 - 0x9d_5e8d * 0x1 == 0x8_0000);
    lemma_sum_known(0x3f25_5e8d, 0x3f1d_5e8d, true, 0xa5_5e8d, 125, 0x9d_5e8d, 125, 0x1, 0x1, 0x8_0000, 20, 0x8_0000, 0x10);
    assert(sub_spec(0x3f25_5e8d, 0x3f1d_5e8d) == 0x3d00_0000);
    assert(0xa4_fc9f * 0x1 - 0x9d_5e8d * 0x1 == 0x7_9e12);
    lemma_sum_known(0x3f24_fc9f, 0x3f1d_5e8d, true, 0xa4_fc9f, 125, 0x9d_5e8d, 125, 0x1, 0x1, 0x7_9e12, 19, 0x4_0000, 0x20);
    assert(sub_spec(0x3f24_fc9f, 0x3f1d_5e8d) == 0x3cf3_c240);
    assert(0xd2_b965 * 0x1 - 0xce_23f7 * 0x1 == 0x4_956e);
    lemma_sum_known(0x4352_b965, 0x434e_23f7, true, 0xd2_b965, 133, 0xce_23f7, 133, 0x1, 0x1, 0x4_956e, 19, 0x4_0000, 0x20);
    assert(sub_spec(0x4352_b965, 0x434e_23f7) == 0x4092_adc0);
    assert(0x92_adc0 * 0xf3_c240 == 0x8baa_3996_f000);
    lemma_product_known(0x4092_adc0, 0x3cf3_c240, 0x92_adc0, 128, 0xf3_c240, 120, 0x8baa_3996_f000, 48, 0x8000_0000_0000, 0x100_0000);
    assert(mul_spec(0x4092_adc0, 0x3cf3_c240) == 0x3e0b_aa3a);
    assert(0x8b_aa3a * 0x1_0000_0000_0000_0000 == 0x1_1754_7400_0000_0000 * 0x80_0000 + 0x0);
    lemma_quotient_known(0x3e0b_aa3a, 0x3d00_0000, 0x8b_aa3a, 123, 0x80_0000, 121, 0x1_1754_7400_0000_0000, 0x0, 66, 0x2_0000_0000_0000_0000, 0x400_0000_0000);
    assert(div_spec(0x3e0b_aa3a, 0x3d00_0000) == 0x408b_aa3a);
    assert(0xce_23f7 * 0x20 + 0x8b_aa3a * 0x1 == 0x1a50_291a);
    lemma_sum_known(0x434e_23f7, 0x408b_aa3a, false, 0xce_23f7, 133, 0x8b_aa3a, 128, 0x20, 0x1, 0x1a50_291a, 29, 0x1000_0000, 0x20);
    assert(add_spec(0x434e_23f7, 0x408b_aa3a) == 0x4352_8149);
    lemma_whole_known(0x4352_8149, 0xd2_8149, 133, 0x1_0000);
}

/// Code 211.
proof fn lemma_code_211()
    ensures
        chord_code(0x3f26_c285, 0x3f25_5e8d, 0x3f2d_5e8d, 0x4352_b965, 0x4357_2e9d) == 211,
{
    reveal(chord_code);
    lemma2_to64();
    lemma2_to64_rest();
    lemma_high_powers();
    assert(0xad_5e8d * 0x1 - 0xa5_5e8d * 0x1 == 0x8_0000);
    lemma_sum_known(0x3f2d_5e8d, 0x3f25_5e8d, true, 0xad_5e8d, 125, 0xa5_5e8d, 125, 0x1, 0x1, 0x8_0000, 20, 0x8_0000, 0x10);
    assert(sub_spec(0x3f2d_5e8d, 0x3f25_5e8d) == 0x3d00_0000);
    assert(0xa6_c285 * 0x1 - 0xa5_5e8d * 0x1 == 0x1_63f8);
    lemma_sum_known(0x3f26_c285, 0x3f25_5e8d, true, 0xa6_c285, 125, 0xa5_5e8d, 125, 0x1, 0x1, 0x1_63f8, 17, 0x1_0000, 0x80);
    assert(sub_spec(0x3f26_c285, 0x3f25_5e8d) == 0x3bb1_fc00);
    assert(0xd7_2e9d * 0x1 - 0xd2_b965 * 0x1 == 0x4_7538);
    lemma_sum_known(0x4357_2e9d, 0x4352_b965, true, 0xd7_2e9d, 133, 0xd2_b965, 133, 0x1, 0x1, 0x4_7538, 19, 0x4_0000, 0x20);
    assert(sub_spec(0x4357_2e9d, 0x4352_b965) == 0x408e_a700);
    assert(0x8e_a700 * 0xb1_fc00 == 0x632d_e364_0000);
    lemma_product_known(0x408e_a700, 0x3bb1_fc00, 0x8e_a700, 128, 0xb1_fc00, 118, 0x632d_e364_0000, 47, 0x4000_0000_0000, 0x80_0000);
    assert(mul_spec(0x408e_a700, 0x3bb1_fc00) == 0x3cc6_5bc7);
    assert(0xc6_5bc7 * 0x1_0000_0000_0000_0000 == 0x1_8cb7_8e00_0000_0000 * 0x80_0000 + 0x0);
    lemma_quotient_known(0x3cc6_5bc7, 0x3d00_0000, 0xc6_5bc7, 120, 0x80_0000, 121, 0x1_8cb7_8e00_0000_0000, 0x0, 66, 0x2_0000_0000_0000_0000, 0x400_0000_0000);
    assert(div_spec(0x3cc6_5bc7, 0x3d00_0000) == 0x3f46_5bc7);
    assert(0xd2_b965 * 0x100 + 0xc6_5bc7 * 0x1 == 0xd37f_c0c7);
    lemma_sum_known(0x4352_b965, 0x3f46_5bc7, false, 0xd2_b965, 133, 0xc6_5bc7, 125, 0x100, 0x1, 0xd37f_c0c7, 32, 0x8000_0000, 0x100);
    assert(add_spec(0x4352_b965, 0x3f46_5bc7) == 0x4353_7fc1);
    lemma_whole_known(0x4353_7fc1, 0xd3_7fc1, 133, 0x1_0000);
}

/// Code 212.
proof fn lemma_code_212()
    ensures
        chord_code(0x3f28_8b41, 0x3f25_5e8d, 0x3f2d_5e8d, 0x4352_b965, 0x4357_2e9d) == 212,
{
    reveal(chord_code);
    lemma2_to64();
    lemma2_to64_rest();
    lemma_high_powers();
    assert(0xad_5e8d * 0x1 - 0xa5_5e8d * 0x1 == 0x8_0000);
    lemma_sum_known(0x3f2d_5e8d, 0x3f25_5e8d, true, 0xad_5e8d, 125, 0xa5_5e8d, 125, 0x1, 0x1, 0x8_0000, 20, 0x8_0000, 0x10);
    assert(sub_spec(0x3f2d_5e8d, 0x3f25_5e8d) == 0x3d00_0000);
    assert(0xa8_8b41 * 0x1 - 0xa5_5e8d * 0x1 == 0x3_2cb4);
    lemma_sum_known(0x3f28_8b41, 0x3f25_5e8d, true, 0xa8_8b41, 125, 0xa5_5e8d, 125, 0x1, 0x1, 0x3_2cb4, 18, 0x2_0000, 0x40);
    assert(sub_spec(0x3f28_8b41, 0x3f25_5e8d) == 0x3c4b_2d00);
    assert(0xd7_2e9d * 0x1 - 0xd2_b965 * 0x1 == 0x4_7538);
    lemma_sum_known(0x4357_2e9d, 0x4352_b965, true, 0xd7_2e9d, 133, 0xd2_b965, 133, 0x1, 0x1, 0x4_7538, 19, 0x4_0000, 0x20);
    assert(sub_spec(0x4357_2e9d, 0x4352_b965) == 0x408e_a700);
    assert(0x8e_a700 * 0xcb_2d00 == 0x7137_805b_0000);
    lemma_product_known(0x408e_a700, 0x3c4b_2d00, 0x8e_a700, 128, 0xcb_2d00, 119, 0x7137_805b_0000, 47, 0x4000_0000_0000, 0x80_0000);
    assert(mul_spec(0x408e_a700, 0x3c4b_2d00) == 0x3d62_6f01);
    assert(0xe2_6f01 * 0x1_0000_0000_0000_0000 == 0x1_c4de_0200_0000_0000 * 0x80_0000 + 0x0);
    lemma_quotient_known(0x3d62_6f01, 0x3d00_0000, 0xe2_6f01, 121, 0x80_0000, 121, 0x1_c4de_0200_0000_0000, 0x0, 66, 0x2_0000_0000_0000_0000, 0x400_0000_0000);
    assert(div_spec(0x3d62_6f01, 0x3d00_0000) == 0x3fe2_6f01);
    assert(0xd2_b965 * 0x80 + 0xe2_6f01 * 0x1 == 0x6a3f_2181);
    lemma_sum_known(0x4352_b965, 0x3fe2_6f01, false, 0xd2_b965, 133, 0xe2_6f01, 126, 0x80, 0x1, 0x6a3f_2181, 31, 0x4000_0000, 0x80);
    assert(add_spec(0x4352_b965, 0x3fe2_6f01) == 0x4354_7e43);
    lemma_whole_known(0x4354_7e43, 0xd4_7e43, 133, 0x1_0000);
}

/// Code 213.
proof fn lemma_code_213()
    ensures
        chord_code(0x3f2a_56d2, 0x3f25_5e8d, 0x3f2d_5e8d, 0x4352_b965, 0x4357_2e9d) == 213,
{
    reveal(chord_code);
    lemma2_to64();
    lemma2_to64_rest();
    lemma_high_powers();
    assert(0xad_5e8d * 0x1 - 0xa5_5e8d * 0x1 == 0x8_0000);
    lemma_sum_known(0x3f2d_5e8d, 0x3f25_5e8d, true, 0xad_5e8d, 125, 0xa5_5e8d, 125, 0x1, 0x1, 0x8_0000, 20, 0x8_0000, 0x10);
    assert(sub_spec(0x3f2d_5e8d, 0x3f25_5e8d) == 0x3d00_0000);
    assert(0xaa_56d2 * 0x1 - 0xa5_5e8d * 0x1 == 0x4_f845);
    lemma_sum_known(0x3f2a_56d2, 0x3f25_5e8d, true, 0xaa_56d2, 125, 0xa5_5e8d, 125, 0x1, 0x1, 0x4_f845, 19, 0x4_0000, 0x20);
    assert(sub_spec(0x3f2a_56d2, 0x3f25_5e8d) == 0x3c9f_08a0);
    assert(0xd7_2e9d * 0x1 - 0xd2_b965 * 0x1 == 0x4_7538);
    lemma_sum_known(0x4357_2e9d, 0x4352_b965, true, 0xd7_2e9d, 133, 0xd2_b965, 133, 0x1, 0x1, 0x4_7538, 19, 0x4_0000, 0x20);
    assert(sub_spec(0x4357_2e9d, 0x4352_b965) == 0x408e_a700);
    assert(0x8e_a700 * 0x9f_08a0 == 0x589e_8760_6000);
    lemma_product_known(0x408e_a700, 0x3c9f_08a0, 0x8e_a700, 128, 0x9f_08a0, 120, 0x589e_8760_6000, 47, 0x4000_0000_0000, 0x80_0000);
    assert(mul_spec(0x408e_a700, 0x3c9f_08a0) == 0x3db1_3d0f);
    assert(0xb1_3d0f * 0x1_0000_0000_0000_0000 == 0x1_627a_1e00_0000_0000 * 0x80_0000 + 0x0);
    lemma_quotient_known(0x3db1_3d0f, 0x3d00_0000, 0xb1_3d0f, 122, 0x80_0000, 121, 0x1_627a_1e00_0000_0000, 0x0, 66, 0x2_0000_0000_0000_0000, 0x400_0000_0000);
    assert(div_spec(0x3db1_3d0f, 0x3d00_0000) == 0x4031_3d0f);
    assert(0xd2_b965 * 0x40 + 0xb1_3d0f * 0x1 == 0x355f_964f);
    lemma_sum_known(0x4352_b965, 0x4031_3d0f, false, 0xd2_b965, 133, 0xb1_3d0f, 127, 0x40, 0x1, 0x355f_964f, 30, 0x2000_0000, 0x40);
    assert(add_spec(0x4352_b965, 0x4031_3d0f) == 0x4355_7e59);
    lemma_whole_known(0x4355_7e59, 0xd5_7e59, 133, 0x1_0000);
}

/// Code 214.
proof fn lemma_code_214()
    ensures
        chord_code(0x3f2c_253c, 0x3f25_5e8d, 0x3f2d_5e8d, 0x4352_b965, 0x4357_2e9d) == 214,
{
    reveal(chord_code);
    lemma2_to64();
    lemma2_to64_rest();
    lemma_high_powers();
    assert(0xad_5e8d * 0x1 - 0xa5_5e8d * 0x1 == 0x8_0000);
    lemma_sum_known(0x3f2d_5e8d, 0x3f25_5e8d, true, 0xad_5e8d, 125, 0xa5_5e8d, 125, 0x1, 0x1, 0x8_0000, 20, 0x8_0000, 0x10);
    assert(sub_spec(0x3f2d_5e8d, 0x3f25_5e8d) == 0x3d00_0000);
    assert(0xac_253c * 0x1 - 0xa5_5e8d * 0x1 == 0x6_c6af);
    lemma_sum_known(0x3f2c_253c, 0x3f25_5e8d, true, 0xac_253c, 125, 0xa5_5e8d, 125, 0x1, 0x1, 0x6_c6af, 19, 0x4_0000, 0x20);
    assert(sub_spec(0x3f2c_253c, 0x3f25_5e8d) == 0x3cd8_d5e0);
    assert(0xd7_2e9d * 0x1 - 0xd2_b965 * 0x1 == 0x4_7538);
    lemma_sum_known(0x4357_2e9d, 0x4352_b965, true, 0xd7_2e9d, 133, 0xd2_b965, 133, 0x1, 0x1, 0x4_7538, 19, 0x4_0000, 0x20);
    assert(sub_spec(0x4357_2e9d, 0x4352_b965) == 0x408e_a700);
    assert(0x8e_a700 * 0xd8_d5e0 == 0x78d4_15c5_2000);
    lemma_product_known(0x408e_a700, 0x3cd8_d5e0, 0x8e_a700, 128, 0xd8_d5e0, 120, 0x78d4_15c5_2000, 47, 0x4000_0000_0000, 0x80_0000);
    assert(mul_spec(0x408e_a700, 0x3cd8_d5e0) == 0x3df1_a82c);
    assert(0xf1_a82c * 0x1_0000_0000_0000_0000 == 0x1_e350_5800_0000_0000 * 0x80_0000 + 0x0);
    lemma_quotient_known(0x3df1_a82c, 0x3d00_0000, 0xf1_a82c, 122, 0x80_0000, 121, 0x1_e350_5800_0000_0000, 0x0, 66, 0x2_0000_0000_0000_0000, 0x400_0000_0000);
    assert(div_spec(0x3df1_a82c, 0x3d00_0000) == 0x4071_a82c);
    assert(0xd2_b965 * 0x40 + 0xf1_a82c * 0x1 == 0x35a0_016c);
    lemma_sum_known(0x4352_b965, 0x4071_a82c, false, 0xd2_b965, 133, 0xf1_a82c, 127, 0x40, 0x1, 0x35a0_016c, 30, 0x2000_0000, 0x40);
    assert(add_spec(0x4352_b965, 0x4071_a82c) == 0x4356_8006);
    lemma_whole_known(0x4356_8006, 0xd6_8006, 133, 0x1_0000);
}

/// Code 215.
proof fn lemma_code_215()
    ensures
        chord_code(0x3f2d_f67f, 0x3f2d_5e8d, 0x3f35_5e8d, 0x4357_2e9d, 0x435b_857f) == 215,
{
    reveal(chord_code);
    lemma2_to64();
    lemma2_to64_rest();
    lemma_high_powers();
    assert(0xb5_5e8d * 0x1 - 0xad_5e8d * 0x1 == 0x8_0000);
    lemma_sum_known(0x3f35_5e8d, 0x3f2d_5e8d, true, 0xb5_5e8d, 125, 0xad_5e8d, 125, 0x1, 0x1, 0x8_0000, 20, 0x8_0000, 0x10);
    assert(sub_spec(0x3f35_5e8d, 0x3f2d_5e8d) == 0x3d00_0000);
    assert(0xad_f67f * 0x1 - 0xad_5e8d * 0x1 == 0x97f2);
    lemma_sum_known(0x3f2d_f67f, 0x3f2d_5e8d, true, 0xad_f67f, 125, 0xad_5e8d, 125, 0x1, 0x1, 0x97f2, 16, 0x8000, 0x100);
    assert(sub_spec(0x3f2d_f67f, 0x3f2d_5e8d) == 0x3b17_f200);
    assert(0xdb_857f * 0x1 - 0xd7_2e9d * 0x1 == 0x4_56e2);
    lemma_sum_known(0x435b_857f, 0x4357_2e9d, true, 0xdb_857f, 133, 0xd7_2e9d, 133, 0x1, 0x1, 0x4_56e2, 19, 0x4_0000, 0x20);
    assert(sub_spec(0x435b_857f, 0x4357_2e9d) == 0x408a_dc40);
    assert(0x8a_dc40 * 0x97_f200 == 0x526b_2df4_8000);
    lemma_product_known(0x408a_dc40, 0x3b17_f200, 0x8a_dc40, 128, 0x97_f200, 117, 0x526b_2df4_8000, 47, 0x4000_0000_0000, 0x80_0000);
    assert(mul_spec(0x408a_dc40, 0x3b17_f200) == 0x3c24_d65c);
    assert(0xa4_d65c * 0x1_0000_0000_0000_0000 == 0x1_49ac_b800_0000_0000 * 0x80_0000 + 0x0);
    lemma_quotient_known(0x3c24_d65c, 0x3d00_0000, 0xa4_d65c, 119, 0x80_0000, 121, 0x1_49ac_b800_0000_0000, 0x0, 66, 0x2_0000_0000_0000_0000, 0x400_0000_0000);
    assert(div_spec(0x3c24_d65c, 0x3d00_0000) == 0x3ea4_d65c);
    assert(0xd7_2e9d * 0x200 + 0xa4_d65c * 0x1 == 0x1_af02_105c);
    lemma_sum_known(0x4357_2e9d, 0x3ea4_d65c, false, 0xd7_2e9d, 133, 0xa4_d65c, 124, 0x200, 0x1, 0x1_af02_105c, 33, 0x1_0000_0000, 0x200);
    assert(add_spec(0x4357_2e9d, 0x3ea4_d65c) == 0x4357_8108);
    lemma_whole_known(0x4357_8108, 0xd7_8108, 133, 0x1_0000);
}

/// Code 216.
proof fn lemma_code_216()
    ensures
        chord_code(0x3f2f_ca9c, 0x3f2d_5e8d, 0x3f35_5e8d, 0x4357_2e9d, 0x435b_857f) == 216,
{
    reveal(chord_code);
    lemma2_to64();
    lemma2_to64_rest();
    lemma_high_powers();
    assert(0xb5_5e8d * 0x1 - 0xad_5e8d * 0x1 == 0x8_0000);
    lemma_sum_known(0x3f35_5e8d, 0x3f2d_5e8d, true, 0xb5_5e8d, 125, 0xad_5e8d, 125, 0x1, 0x1, 0x8_0000, 20, 0x8_0000, 0x10);
    assert(sub_spec(0x3f35_5e8d, 0x3f2d_5e8d) == 0x3d00_0000);
    assert(0xaf_ca9c * 0x1 - 0xad_5e8d * 0x1 == 0x2_6c0f);
    lemma_sum_known(0x3f2f_ca9c, 0x3f2d_5e8d, true, 0xaf_ca9c, 125, 0xad_5e8d, 125, 0x1, 0x1, 0x2_6c0f, 18, 0x2_0000, 0x40);
    assert(sub_spec(0x3f2f_ca9c, 0x3f2d_5e8d) == 0x3c1b_03c0);
    assert(0xdb_857f * 0x1 - 0xd7_2e9d * 0x1 == 0x4_56e2);
    lemma_sum_known(0x435b_857f, 0x4357_2e9d, true, 0xdb_857f, 133, 0xd7_2e9d, 133, 0x1, 0x1, 0x4_56e2, 19, 0x4_0000, 0x20);
    assert(sub_spec(0x435b_857f, 0x4357_2e9d) == 0x408a_dc40);
    assert(0x8a_dc40 * 0x9b_03c0 == 0x5415_6379_f000);
    lemma_product_known(0x408a_dc40, 0x3c1b_03c0, 0x8a_dc40, 128, 0x9b_03c0, 119, 0x5415_6379_f000, 47, 0x4000_0000_0000, 0x80_0000);
    assert(mul_spec(0x408a_dc40, 0x3c1b_03c0) == 0x3d28_2ac7);
    assert(0xa8_2ac7 * 0x1_0000_0000_0000_0000 == 0x1_5055_8e00_0000_0000 * 0x80_0000 + 0x0);
    lemma_quotient_known(0x3d28_2ac7, 0x3d00_0000, 0xa8_2ac7, 121, 0x80_0000, 121, 0x1_5055_8e00_0000_0000, 0x0, 66, 0x2_0000_0000_0000_0000, 0x400_0000_0000);
    assert(div_spec(0x3d28_2ac7, 0x3d00_0000) == 0x3fa8_2ac7);
    assert(0xd7_2e9d * 0x80 + 0xa8_2ac7 * 0x1 == 0x6c3f_7947);
    lemma_sum_known(0x4357_2e9d, 0x3fa8_2ac7, false, 0xd7_2e9d, 133, 0xa8_2ac7, 126, 0x80, 0x1, 0x6c3f_7947, 31, 0x4000_0000, 0x80);
    assert(add_spec(0x4357_2e9d, 0x3fa8_2ac7) == 0x4358_7ef3);
    lemma_whole_known(0x4358_7ef3, 0xd8_7ef3, 133, 0x1_0000);
}

/// Code 217.
proof fn lemma_code_217()
    ensures
        chord_code(0x3f31_a194, 0x3f2d_5e8d, 0x3f35_5e8d, 0x4357_2e9d, 0x435b_857f) == 217,
{
    reveal(chord_code);
    lemma2_to64();
    lemma2_to64_rest();
    lemma_high_powers();
    assert(0xb5_5e8d * 0x1 - 0xad_5e8d * 0x1 == 0x8_0000);
    lemma_sum_known(0x3f35_5e8d, 0x3f2d_5e8d, true, 0xb5_5e8d, 125, 0xad_5e8d, 125, 0x1, 0x1, 0x8_0000, 20, 0x8_0000, 0x10);
    assert(sub_spec(0x3f35_5e8d, 0x3f2d_5e8d) == 0x3d00_0000);
    assert(0xb1_a194 * 0x1 - 0xad_5e8d * 0x1 == 0x4_4307);
    lemma_sum_known(0x3f31_a194, 0x3f2d_5e8d, true, 0xb1_a194, 125, 0xad_5e8d, 125, 0x1, 0x1, 0x4_4307, 19, 0x4_0000, 0x20);
    assert(sub_spec(0x3f31_a194, 0x3f2d_5e8d) == 0x3c88_60e0);
    assert(0xdb_857f * 0x1 - 0xd7_2e9d * 0x1 == 0x4_56e2);
    lemma_sum_known(0x435b_857f, 0x4357_2e9d, true, 0xdb_857f, 133, 0xd7_2e9d, 133, 0x1, 0x1, 0x4_56e2, 19, 0x4_0000, 0x20);
    assert(sub_spec(0x435b_857f, 0x4357_2e9d) == 0x408a_dc40);
    assert(0x8a_dc40 * 0x88_60e0 == 0x49f9_8e18_b800);
    lemma_product_known(0x408a_dc40, 0x3c88_60e0, 0x8a_dc40, 128, 0x88_60e0, 120, 0x49f9_8e18_b800, 47, 0x4000_0000_0000, 0x80_0000);
    assert(mul_spec(0x408a_dc40, 0x3c88_60e0) == 0x3d93_f31c);
    assert(0x93_f31c * 0x1_0000_0000_0000_0000 == 0x1_27e6_3800_0000_0000 * 0x80_0000 + 0x0);
    lemma_quotient_known(0x3d93_f31c, 0x3d00_0000, 0x93_f31c, 122, 0x80_0000, 121, 0x1_27e6_3800_0000_0000, 0x0, 66, 0x2_0000_0000_0000_0000, 0x400_0000_0000);
    assert(div_spec(0x3d93_f31c, 0x3d00_0000) == 0x4013_f31c);
    assert(0xd7_2e9d * 0x40 + 0x93_f31c * 0x1 == 0x365f_9a5c);
    lemma_sum_known(0x4357_2e9d, 0x4013_f31c, false, 0xd7_2e9d, 133, 0x93_f31c, 127, 0x40, 0x1, 0x365f_9a5c, 30, 0x2000_0000, 0x40);
    assert(add_spec(0x4357_2e9d, 0x4013_f31c) == 0x4359_7e69);
    lemma_whole_known(0x4359_7e69, 0xd9_7e69, 133, 0x1_0000);
}

/// Code 218.
proof fn lemma_code_218()
    ensures
        chord_code(0x3f33_7b6a, 0x3f2d_5e8d, 0x3f35_5e8d, 0x4357_2e9d, 0x435b_857f) == 218,
{
    reveal(chord_code);
    lemma2_to64();
    lemma2_to64_rest();
    lemma_high_powers();
    assert(0xb5_5e8d * 0x1 - 0xad_5e8d * 0x1 == 0x8_0000);
    lemma_sum_known(0x3f35_5e8d, 0x3f2d_5e8d, true, 0xb5_5e8d, 125, 0xad_5e8d, 125, 0x1, 0x1, 0x8_0000, 20, 0x8_0000, 0x10);
    assert(sub_spec(0x3f35_5e8d, 0x3f2d_5e8d) == 0x3d00_0000);
    assert(0xb3_7b6a * 0x1 - 0xad_5e8d * 0x1 == 0x6_1cdd);
    lemma_sum_known(0x3f33_7b6a, 0x3f2d_5e8d, true, 0xb3_7b6a, 125, 0xad_5e8d, 125, 0x1, 0x1, 0x6_1cdd, 19, 0x4_0000, 0x20);
    assert(sub_spec(0x3f33_7b6a, 0x3f2d_5e8d) == 0x3cc3_9ba0);
    assert(0xdb_857f * 0x1 - 0xd7_2e9d * 0x1 == 0x4_56e2);
    lemma_sum_known(0x435b_857f, 0x4357_2e9d, true, 0xdb_857f, 133, 0xd7_2e9d, 133, 0x1, 0x1, 0x4_56e2, 19, 0x4_0000, 0x20);
    assert(sub_spec(0x435b_857f, 0x4357_2e9d) == 0x408a_dc40);
    assert(0x8a_dc40 * 0xc3_9ba0 == 0x6a1a_2ee4_6800);
    lemma_product_known(0x408a_dc40, 0x3cc3_9ba0, 0x8a_dc40, 128, 0xc3_9ba0, 120, 0x6a1a_2ee4_6800, 47, 0x4000_0000_0000, 0x80_0000);
    assert(mul_spec(0x408a_dc40, 0x3cc3_9ba0) == 0x3dd4_345e);
    assert(0xd4_345e * 0x1_0000_0000_0000_0000 == 0x1_a868_bc00_0000_0000 * 0x80_0000 + 0x0);
    lemma_quotient_known(0x3dd4_345e, 0x3d00_0000, 0xd4_345e, 122, 0x80_0000, 121, 0x1_a868_bc00_0000_0000, 0x0, 66, 0x2_0000_0000_0000_0000, 0x400_0000_0000);
    assert(div_spec(0x3dd4_345e, 0x3d00_0000) == 0x4054_345e);
    assert(0xd7_2e9d * 0x40 + 0xd4_345e * 0x1 == 0x369f_db9e);
    lemma_sum_known(0x4357_2e9d, 0x4054_345e, false, 0xd7_2e9d, 133, 0xd4_345e, 127, 0x40, 0x1, 0x369f_db9e, 30, 0x2000_0000, 0x40);
    assert(add_spec(0x4357_2e9d, 0x4054_345e) == 0x435a_7f6e);
    lemma_whole_known(0x435a_7f6e, 0xda_7f6e, 133, 0x1_0000);
}

/// Code 219.
proof fn lemma_code_219()
    ensures
        chord_code(0x3f35_581d, 0x3f2d_5e8d, 0x3f35_5e8d, 0x4357_2e9d, 0x435b_857f) == 219,
{
    reveal(chord_code);
    lemma2_to64();
    lemma2_to64_rest();
    lemma_high_powers();
    assert(0xb5_5e8d * 0x1 - 0xad_5e8d * 0x1 == 0x8_0000);
    lemma_sum_known(0x3f35_5e8d, 0x3f2d_5e8d, true, 0xb5_5e8d, 125, 0xad_5e8d, 125, 0x1, 0x1, 0x8_0000, 20, 0x8_0000, 0x10);
    assert(sub_spec(0x3f35_5e8d, 0x3f2d_5e8d) == 0x3d00_0000);
    assert(0xb5_581d * 0x1 - 0xad_5e8d * 0x1 == 0x7_f990);
    lemma_sum_known(0x3f35_581d, 0x3f2d_5e8d, true, 0xb5_581d, 125, 0xad_5e8d, 125, 0x1, 0x1, 0x7_f990, 19, 0x4_0000, 0x20);
    assert(sub_spec(0x3f35_581d, 0x3f2d_5e8d) == 0x3cff_3200);
    assert(0xdb_857f * 0x1 - 0xd7_2e9d * 0x1 == 0x4_56e2);
    lemma_sum_known(0x435b_857f, 0x4357_2e9d, true, 0xdb_857f, 133, 0xd7_2e9d, 133, 0x1, 0x1, 0x4_56e2, 19, 0x4_0000, 0x20);
    assert(sub_spec(0x435b_857f, 0x4357_2e9d) == 0x408a_dc40);
    assert(0x8a_dc40 * 0xff_3200 == 0x8a6c_82c4_8000);
    lemma_product_known(0x408a_dc40, 0x3cff_3200, 0x8a_dc40, 128, 0xff_3200, 120, 0x8a6c_82c4_8000, 48, 0x8000_0000_0000, 0x100_0000);
    assert(mul_spec(0x408a_dc40, 0x3cff_3200) == 0x3e0a_6c83);
    assert(0x8a_6c83 * 0x1_0000_0000_0000_0000 == 0x1_14d9_0600_0000_0000 * 0x80_0000 + 0x0);
    lemma_quotient_known(0x3e0a_6c83, 0x3d00_0000, 0x8a_6c83, 123, 0x80_0000, 121, 0x1_14d9_0600_0000_0000, 0x0, 66, 0x2_0000_0000_0000_0000, 0x400_0000_0000);
    assert(div_spec(0x3e0a_6c83, 0x3d00_0000) == 0x408a_6c83);
    assert(0xd7_2e9d * 0x20 + 0x8a_6c83 * 0x1 == 0x1b70_4023);
    lemma_sum_known(0x4357_2e9d, 0x408a_6c83, false, 0xd7_2e9d, 133, 0x8a_6c83, 128, 0x20, 0x1, 0x1b70_4023, 29, 0x1000_0000, 0x20);
    assert(add_spec(0x4357_2e9d, 0x408a_6c83) == 0x435b_8201);
    lemma_whole_known(0x435b_8201, 0xdb_8201, 133, 0x1_0000);
}

/// Code 220.
proof fn lemma_code_220()
    ensures
        chord_code(0x3f37_37b0, 0x3f35_5e8d, 0x3f3d_5e8d, 0x435b_857f, 0x435f_c028) == 220,
{
    reveal(chord_code);
    lemma2_to64();
    lemma2_to64_rest();
    lemma_high_powers();
    assert(0xbd_5e8d * 0x1 - 0xb5_5e8d * 0x1 == 0x8_0000);
    lemma_sum_known(0x3f3d_5e8d, 0x3f35_5e8d, true, 0xbd_5e8d, 125, 0xb5_5e8d, 125, 0x1, 0x1, 0x8_0000, 20, 0x8_0000, 0x10);
    assert(sub_spec(0x3f3d_5e8d, 0x3f35_5e8d) == 0x3d00_0000);
    assert(0xb7_37b0 * 0x1 - 0xb5_5e8d * 0x1 == 0x1_d923);
    lemma_sum_known(0x3f37_37b0, 0x3f35_5e8d, true, 0xb7_37b0, 125, 0xb5_5e8d, 125, 0x1, 0x1, 0x1_d923, 17, 0x1_0000, 0x80);
    assert(sub_spec(0x3f37_37b0, 0x3f35_5e8d) == 0x3bec_9180);
    assert(0xdf_c028 * 0x1 - 0xdb_857f * 0x1 == 0x4_3aa9);
    lemma_sum_known(0x435f_c028, 0x435b_857f, true, 0xdf_c028, 133, 0xdb_857f, 133, 0x1, 0x1, 0x4_3aa9, 19, 0x4_0000, 0x20);
    assert(sub_spec(0x435f_c028, 0x435b_857f) == 0x4087_5520);
    assert(0x87_5520 * 0xec_9180 == 0x7d0f_6461_b000);
    lemma_product_known(0x4087_5520, 0x3bec_9180, 0x87_5520, 128, 0xec_9180, 118, 0x7d0f_6461_b000, 47, 0x4000_0000_0000, 0x80_0000);
    assert(mul_spec(0x4087_5520, 0x3bec_9180) == 0x3cfa_1ec9);
    assert(0xfa_1ec9 * 0x1_0000_0000_0000_0000 == 0x1_f43d_9200_0000_0000 * 0x80_0000 + 0x0);
    lemma_quotient_known(0x3cfa_1ec9, 0x3d00_0000, 0xfa_1ec9, 120, 0x80_0000, 121, 0x1_f43d_9200_0000_0000, 0x0, 66, 0x2_0000_0000_0000_0000, 0x400_0000_0000);
    assert(div_spec(0x3cfa_1ec9, 0x3d00_0000) == 0x3f7a_1ec9);
    assert(0xdb_857f * 0x100 + 0xfa_1ec9 * 0x1 == 0xdc7f_9dc9);
    lemma_sum_known(0x435b_857f, 0x3f7a_1ec9, false, 0xdb_857f, 133, 0xfa_1ec9, 125, 0x100, 0x1, 0xdc7f_9dc9, 32, 0x8000_0000, 0x100);
    assert(add_spec(0x435b_857f, 0x3f7a_1ec9) == 0x435c_7f9e);
    lemma_whole_known(0x435c_7f9e, 0xdc_7f9e, 133, 0x1_0000);
}

/// Code 221.
proof fn lemma_code_221()
    ensures
        chord_code(0x3f39_1a24, 0x3f35_5e8d, 0x3f3d_5e8d, 0x435b_857f, 0x435f_c028) == 221,
{
    reveal(chord_code);
    lemma2_to64();
    lemma2_to64_rest();
    lemma_high_powers();
    assert(0xbd_5e8d * 0x1 - 0xb5_5e8d * 0x1 == 0x8_0000);
    lemma_sum_known(0x3f3d_5e8d, 0x3f35_5e8d, true, 0xbd_5e8d, 125, 0xb5_5e8d, 125, 0x1, 0x1, 0x8_0000, 20, 0x8_0000, 0x10);
    assert(sub_spec(0x3f3d_5e8d, 0x3f35_5e8d) == 0x3d00_0000);
    assert(0xb9_1a24 * 0x1 - 0xb5_5e8d * 0x1 == 0x3_bb97);
    lemma_sum_known(0x3f39_1a24, 0x3f35_5e8d, true, 0xb9_1a24, 125, 0xb5_5e8d, 125, 0x1, 0x1, 0x3_bb97, 18, 0x2_0000, 0x40);
    assert(sub_spec(0x3f39_1a24, 0x3f35_5e8d) == 0x3c6e_e5c0);
    assert(0xdf_c028 * 0x1 - 0xdb_857f * 0x1 == 0x4_3aa9);
    lemma_sum_known(0x435f_c028, 0x435b_857f, true, 0xdf_c028, 133, 0xdb_857f, 133, 0x1, 0x1, 0x4_3aa9, 19, 0x4_0000, 0x20);
    assert(sub_spec(0x435f_c028, 0x435b_857f) == 0x4087_5520);
    assert(0x87_5520 * 0xee_e5c0 == 0x7e4a_9865_7800);
    lemma_product_known(0x4087_5520, 0x3c6e_e5c0, 0x87_5520, 128, 0xee_e5c0, 119, 0x7e4a_9865_7800, 47, 0x4000_0000_0000, 0x80_0000);
    assert(mul_spec(0x4087_5520, 0x3c6e_e5c0) == 0x3d7c_9531);
    assert(0xfc_9531 * 0x1_0000_0000_0000_0000 == 0x1_f92a_6200_0000_0000 * 0x80_0000 + 0x0);
    lemma_quotient_known(0x3d7c_9531, 0x3d00_0000, 0xfc_9531, 121, 0x80_0000, 121, 0x1_f92a_6200_0000_0000, 0x0, 66, 0x2_0000_0000_0000_0000, 0x400_0000_0000);
    assert(div_spec(0x3d7c_9531, 0x3d00_0000) == 0x3ffc_9531);
    assert(0xdb_857f * 0x80 + 0xfc_9531 * 0x1 == 0x6ebf_54b1);
    lemma_sum_known(0x435b_857f, 0x3ffc_9531, false, 0xdb_857f, 133, 0xfc_9531, 126, 0x80, 0x1, 0x6ebf_54b1, 31, 0x4000_0000, 0x80);
    assert(add_spec(0x435b_857f, 0x3ffc_9531) == 0x435d_7ea9);
    lemma_whole_known(0x435d_7ea9, 0xdd_7ea9, 133, 0x1_0000);
}

/// Code 222.
proof fn lemma_code_222()
    ensures
        chord_code(0x3f3a_ff7a, 0x3f35_5e8d, 0x3f3d_5e8d, 0x435b_857f, 0x435f_c028) == 222,
{
    reveal(chord_code);
    lemma2_to64();
    lemma2_to64_rest();
    lemma_high_powers();
    assert(0xbd_5e8d * 0x1 - 0xb5_5e8d * 0x1 == 0x8_0000);
    lemma_sum_known(0x3f3d_5e8d, 0x3f35_5e8d, true, 0xbd_5e8d, 125, 0xb5_5e8d, 125, 0x1, 0x1, 0x8_0000, 20, 0x8_0000, 0x10);
    assert(sub_spec(0x3f3d_5e8d, 0x3f35_5e8d) == 0x3d00_0000);
    assert(0xba_ff7a * 0x1 - 0xb5_5e8d * 0x1 == 0x5_a0ed);
    lemma_sum_known(0x3f3a_ff7a, 0x3f35_5e8d, true, 0xba_ff7a, 125, 0xb5_5e8d, 125, 0x1, 0x1, 0x5_a0ed, 19, 0x4_0000, 0x20);
    assert(sub_spec(0x3f3a_ff7a, 0x3f35_5e8d) == 0x3cb4_1da0);
    assert(0xdf_c028 * 0x1 - 0xdb_857f * 0x1 == 0x4_3aa9);
    lemma_sum_known(0x435f_c028, 0x435b_857f, true, 0xdf_c028, 133, 0xdb_857f, 133, 0x1, 0x1, 0x4_3aa9, 19, 0x4_0000, 0x20);
    assert(sub_spec(0x435f_c028, 0x435b_857f) == 0x4087_5520);
    assert(0x87_5520 * 0xb4_1da0 == 0x5f37_83b9_d400);
    lemma_product_known(0x4087_5520, 0x3cb4_1da0, 0x87_5520, 128, 0xb4_1da0, 120, 0x5f37_83b9_d400, 47, 0x4000_0000_0000, 0x80_0000);
    assert(mul_spec(0x4087_5520, 0x3cb4_1da0) == 0x3dbe_6f07);
    assert(0xbe_6f07 * 0x1_0000_0000_0000_0000 == 0x1_7cde_0e00_0000_0000 * 0x80_0000 + 0x0);
    lemma_quotient_known(0x3dbe_6f07, 0x3d00_0000, 0xbe_6f07, 122, 0x80_0000, 121, 0x1_7cde_0e00_0000_0000, 0x0, 66, 0x2_0000_0000_0000_0000, 0x400_0000_0000);
    assert(div_spec(0x3dbe_6f07, 0x3d00_0000) == 0x403e_6f07);
    assert(0xdb_857f * 0x40 + 0xbe_6f07 * 0x1 == 0x379f_cec7);
    lemma_sum_known(0x435b_857f, 0x403e_6f07, false, 0xdb_857f, 133, 0xbe_6f07, 127, 0x40, 0x1, 0x379f_cec7, 30, 0x2000_0000, 0x40);
    assert(add_spec(0x435b_857f, 0x403e_6f07) == 0x435e_7f3b);
    lemma_whole_known(0x435e_7f3b, 0xde_7f3b, 133, 0x1_0000);
}

/// Code 223.
proof fn lemma_code_223()
    ensures
        chord_code(0x3f3c_e7b2, 0x3f35_5e8d, 0x3f3d_5e8d, 0x435b_857f, 0x435f_c028) == 223,
{
    reveal(chord_code);
    lemma2_to64();
    lemma2_to64_rest();
    lemma_high_powers();
    assert(0xbd_5e8d * 0x1 - 0xb5_5e8d * 0x1 == 0x8_0000);
    lemma_sum_known(0x3f3d_5e8d, 0x3f35_5e8d, true, 0xbd_5e8d, 125, 0xb5_5e8d, 125, 0x1, 0x1, 0x8_0000, 20, 0x8_0000, 0x10);
    assert(sub_spec(0x3f3d_5e8d, 0x3f35_5e8d) == 0x3d00_0000);
    assert(0xbc_e7b2 * 0x1 - 0xb5_5e8d * 0x1 == 0x7_8925);
    lemma_sum_known(0x3f3c_e7b2, 0x3f35_5e8d, true, 0xbc_e7b2, 125, 0xb5_5e8d, 125, 0x1, 0x1, 0x7_8925, 19, 0x4_0000, 0x20);
    assert(sub_spec(0x3f3c_e7b2, 0x3f35_5e8d) == 0x3cf1_24a0);
    assert(0xdf_c028 * 0x1 - 0xdb_857f * 0x1 == 0x4_3aa9);
    lemma_sum_known(0x435f_c028, 0x435b_857f, true, 0xdf_c028, 133, 0xdb_857f, 133, 0x1, 0x1, 0x4_3aa9, 19, 0x4_0000, 0x20);
    assert(sub_spec(0x435f_c028, 0x435b_857f) == 0x4087_5520);
    assert(0x87_5520 * 0xf1_24a0 == 0x7f7a_7fad_b400);
    lemma_product_known(0x4087_5520, 0x3cf1_24a0, 0x87_5520, 128, 0xf1_24a0, 120, 0x7f7a_7fad_b400, 47, 0x4000_0000_0000, 0x80_0000);
    assert(mul_spec(0x4087_5520, 0x3cf1_24a0) == 0x3dfe_f4ff);
    assert(0xfe_f4ff * 0x1_0000_0000_0000_0000 == 0x1_fde9_fe00_0000_0000 * 0x80_0000 + 0x0);
    lemma_quotient_known(0x3dfe_f4ff, 0x3d00_0000, 0xfe_f4ff, 122, 0x80_0000, 121, 0x1_fde9_fe00_0000_0000, 0x0, 66, 0x2_0000_0000_0000_0000, 0x400_0000_0000);
    assert(div_spec(0x3dfe_f4ff, 0x3d00_0000) == 0x407e_f4ff);
    assert(0xdb_857f * 0x40 + 0xfe_f4ff * 0x1 == 0x37e0_54bf);
    lemma_sum_known(0x435b_857f, 0x407e_f4ff, false, 0xdb_857f, 133, 0xfe_f4ff, 127, 0x40, 0x1, 0x37e0_54bf, 30, 0x2000_0000, 0x40);
    assert(add_spec(0x435b_857f, 0x407e_f4ff) == 0x435f_8153);
    lemma_whole_known(0x435f_8153, 0xdf_8153, 133, 0x1_0000);
}

/// Code 224.
proof fn lemma_code_224()
    ensures
        chord_code(0x3f3e_d2cf, 0x3f3d_5e8d, 0x3f45_5e8d, 0x435f_c028, 0x4363_e05d) == 224,
{
    reveal(chord_code);
    lemma2_to64();
    lemma2_to64_rest();
    lemma_high_powers();
    assert(0xc5_5e8d * 0x1 - 0xbd_5e8d * 0x1 == 0x8_0000);
    lemma_sum_known(0x3f45_5e8d, 0x3f3d_5e8d, true, 0xc5_5e8d, 125, 0xbd_5e8d, 125, 0x1, 0x1, 0x8_0000, 20, 0x8_0000, 0x10);
    assert(sub_spec(0x3f45_5e8d, 0x3f3d_5e8d) == 0x3d00_0000);
    assert(0xbe_d2cf * 0x1 - 0xbd_5e8d * 0x1 == 0x1_7442);
    lemma_sum_known(0x3f3e_d2cf, 0x3f3d_5e8d, true, 0xbe_d2cf, 125, 0xbd_5e8d, 125, 0x1, 0x1, 0x1_7442, 17, 0x1_0000, 0x80);
    assert(sub_spec(0x3f3e_d2cf, 0x3f3d_5e8d) == 0x3bba_2100);
    assert(0xe3_e05d * 0x1 - 0xdf_c028 * 0x1 == 0x4_2035);
    lemma_sum_known(0x4363_e05d, 0x435f_c028, true, 0xe3_e05d, 133, 0xdf_c028, 133, 0x1, 0x1, 0x4_2035, 19, 0x4_0000, 0x20);
    assert(sub_spec(0x4363_e05d, 0x435f_c028) == 0x4084_06a0);
    assert(0x84_06a0 * 0xba_2100 == 0x5ffd_d51a_a000);
    lemma_product_known(0x4084_06a0, 0x3bba_2100, 0x84_06a0, 128, 0xba_2100, 118, 0x5ffd_d51a_a000, 47, 0x4000_0000_0000, 0x80_0000);
    assert(mul_spec(0x4084_06a0, 0x3bba_2100) == 0x3cbf_fbaa);
    assert(0xbf_fbaa * 0x1_0000_0000_0000_0000 == 0x1_7ff7_5400_0000_0000 * 0x80_0000 + 0x0);
    lemma_quotient_known(0x3cbf_fbaa, 0x3d00_0000, 0xbf_fbaa, 120, 0x80_0000, 121, 0x1_7ff7_5400_0000_0000, 0x0, 66, 0x2_0000_0000_0000_0000, 0x400_0000_0000);
    assert(div_spec(0x3cbf_fbaa, 0x3d00_0000) == 0x3f3f_fbaa);
    assert(0xdf_c028 * 0x100 + 0xbf_fbaa * 0x1 == 0xe080_23aa);
    lemma_sum_known(0x435f_c028, 0x3f3f_fbaa, false, 0xdf_c028, 133, 0xbf_fbaa, 125, 0x100, 0x1, 0xe080_23aa, 32, 0x8000_0000, 0x100);
    assert(add_spec(0x435f_c028, 0x3f3f_fbaa) == 0x4360_8024);
    lemma_whole_known(0x4360_8024, 0xe0_8024, 133, 0x1_0000);
}

/// Code 225.
proof fn lemma_code_225()
    ensures
        chord_code(0x3f40_c0d2, 0x3f3d_5e8d, 0x3f45_5e8d, 0x435f_c028, 0x4363_e05d) == 225,
{
    reveal(chord_code);
    lemma2_to64();
    lemma2_to64_rest();
    lemma_high_powers();
    assert(0xc5_5e8d * 0x1 - 0xbd_5e8d * 0x1 == 0x8_0000);
    lemma_sum_known(0x3f45_5e8d, 0x3f3d_5e8d, true, 0xc5_5e8d, 125, 0xbd_5e8d, 125, 0x1, 0x1, 0x8_0000, 20, 0x8_0000, 0x10);
    assert(sub_spec(0x3f45_5e8d, 0x3f3d_5e8d) == 0x3d00_0000);
    assert(0xc0_c0d2 * 0x1 - 0xbd_5e8d * 0x1 == 0x3_6245);
    lemma_sum_known(0x3f40_c0d2, 0x3f3d_5e8d, true, 0xc0_c0d2, 125, 0xbd_5e8d, 125, 0x1, 0x1, 0x3_6245, 18, 0x2_0000, 0x40);
    assert(sub_spec(0x3f40_c0d2, 0x3f3d_5e8d) == 0x3c58_9140);
    assert(0xe3_e05d * 0x1 - 0xdf_c028 * 0x1 == 0x4_2035);
    lemma_sum_known(0x4363_e05d, 0x435f_c028, true, 0xe3_e05d, 133, 0xdf_c028, 133, 0x1, 0x1, 0x4_2035, 19, 0x4_0000, 0x20);
    assert(sub_spec(0x4363_e05d, 0x435f_c028) == 0x4084_06a0);
    assert(0x84_06a0 * 0xd8_9140 == 0x6fb0_7fc2_4800);
    lemma_product_known(0x4084_06a0, 0x3c58_9140, 0x84_06a0, 128, 0xd8_9140, 119, 0x6fb0_7fc2_4800, 47, 0x4000_0000_0000, 0x80_0000);
    assert(mul_spec(0x4084_06a0, 0x3c58_9140) == 0x3d5f_6100);
    assert(0xdf_6100 * 0x1_0000_0000_0000_0000 == 0x1_bec2_0000_0000_0000 * 0x80_0000 + 0x0);
    lemma_quotient_known(0x3d5f_6100, 0x3d00_0000, 0xdf_6100, 121, 0x80_0000, 121, 0x1_bec2_0000_0000_0000, 0x0, 66, 0x2_0000_0000_0000_0000, 0x400_0000_0000);
    assert(div_spec(0x3d5f_6100, 0x3d00_0000) == 0x3fdf_6100);
    assert(0xdf_c028 * 0x80 + 0xdf_6100 * 0x1 == 0x70bf_7500);
    lemma_sum_known(0x435f_c028, 0x3fdf_6100, false, 0xdf_c028, 133, 0xdf_6100, 126, 0x80, 0x1, 0x70bf_7500, 31, 0x4000_0000, 0x80);
    assert(add_spec(0x435f_c028, 0x3fdf_6100) == 0x4361_7eea);
    lemma_whole_known(0x4361_7eea, 0xe1_7eea, 133, 0x1_0000);
}

/// Code 226.
proof fn lemma_code_226()
    ensures
        chord_code(0x3f42_b1bc, 0x3f3d_5e8d, 0x3f45_5e8d, 0x435f_c028, 0x4363_e05d) == 226,
{
    reveal(chord_code);
    lemma2_to64();
    lemma2_to64_rest();
    lemma_high_powers();
    assert(0xc5_5e8d * 0x1 - 0xbd_5e8d * 0x1 == 0x8_0000);
    lemma_sum_known(0x3f45_5e8d, 0x3f3d_5e8d, true, 0xc5_5e8d, 125, 0xbd_5e8d, 125, 0x1, 0x1, 0x8_0000, 20, 0x8_0000, 0x10);
    assert(sub_spec(0x3f45_5e8d, 0x3f3d_5e8d) == 0x3d00_0000);
    assert(0xc2_b1bc * 0x1 - 0xbd_5e8d * 0x1 == 0x5_532f);
    lemma_sum_known(0x3f42_b1bc, 0x3f3d_5e8d, true, 0xc2_b1bc, 125, 0xbd_5e8d, 125, 0x1, 0x1, 0x5_532f, 19, 0x4_0000, 0x20);
    assert(sub_spec(0x3f42_b1bc, 0x3f3d_5e8d) == 0x3caa_65e0);
    assert(0xe3_e05d * 0x1 - 0xdf_c028 * 0x1 == 0x4_2035);
    lemma_sum_known(0x4363_e05d, 0x435f_c028, true, 0xe3_e05d, 133, 0xdf_c028, 133, 0x1, 0x1, 0x4_2035, 19, 0x4_0000, 0x20);
    assert(sub_spec(0x4363_e05d, 0x435f_c028) == 0x4084_06a0);
    assert(0x84_06a0 * 0xaa_65e0 == 0x57e0_f062_ec00);
    lemma_product_known(0x4084_06a0, 0x3caa_65e0, 0x84_06a0, 128, 0xaa_65e0, 120, 0x57e0_f062_ec00, 47, 0x4000_0000_0000, 0x80_0000);
    assert(mul_spec(0x4084_06a0, 0x3caa_65e0) == 0x3daf_c1e1);
    assert(0xaf_c1e1 * 0x1_0000_0000_0000_0000 == 0x1_5f83_c200_0000_0000 * 0x80_0000 + 0x0);
    lemma_quotient_known(0x3daf_c1e1, 0x3d00_0000, 0xaf_c1e1, 122, 0x80_0000, 121, 0x1_5f83_c200_0000_0000, 0x0, 66, 0x2_0000_0000_0000_0000, 0x400_0000_0000);
    assert(div_spec(0x3daf_c1e1, 0x3d00_0000) == 0x402f_c1e1);
    assert(0xdf_c028 * 0x40 + 0xaf_c1e1 * 0x1 == 0x389f_cbe1);
    lemma_sum_known(0x435f_c028, 0x402f_c1e1, false, 0xdf_c028, 133, 0xaf_c1e1, 127, 0x40, 0x1, 0x389f_cbe1, 30, 0x2000_0000, 0x40);
    assert(add_spec(0x435f_c028, 0x402f_c1e1) == 0x4362_7f30);
    lemma_whole_known(0x4362_7f30, 0xe2_7f30, 133, 0x1_0000);
}

/// Code 227.
proof fn lemma_code_227()
    ensures
        chord_code(0x3f44_a58e, 0x3f3d_5e8d, 0x3f45_5e8d, 0x435f_c028, 0x4363_e05d) == 227,
{
    reveal(chord_code);
    lemma2_to64();
    lemma2_to64_rest();
    lemma_high_powers();
    assert(0xc5_5e8d * 0x1 - 0xbd_5e8d * 0x1 == 0x8_0000);
    lemma_sum_known(0x3f45_5e8d, 0x3f3d_5e8d, true, 0xc5_5e8d, 125, 0xbd_5e8d, 125, 0x1, 0x1, 0x8_0000, 20, 0x8_0000, 0x10);
    assert(sub_spec(0x3f45_5e8d, 0x3f3d_5e8d) == 0x3d00_0000);
    assert(0xc4_a58e * 0x1 - 0xbd_5e8d * 0x1 == 0x7_4701);
    lemma_sum_known(0x3f44_a58e, 0x3f3d_5e8d, true, 0xc4_a58e, 125, 0xbd_5e8d, 125, 0x1, 0x1, 0x7_4701, 19, 0x4_0000, 0x20);
    assert(sub_spec(0x3f44_a58e, 0x3f3d_5e8d) == 0x3ce8_e020);
    assert(0xe3_e05d * 0x1 - 0xdf_c028 * 0x1 == 0x4_2035);
    lemma_sum_known(0x4363_e05d, 0x435f_c028, true, 0xe3_e05d, 133, 0xdf_c028, 133, 0x1, 0x1, 0x4_2035, 19, 0x4_0000, 0x20);
    assert(sub_spec(0x4363_e05d, 0x435f_c028) == 0x4084_06a0);
    assert(0x84_06a0 * 0xe8_e020 == 0x7819_974c_d400);
    lemma_product_known(0x4084_06a0, 0x3ce8_e020, 0x84_06a0, 128, 0xe8_e020, 120, 0x7819_974c_d400, 47, 0x4000_0000_0000, 0x80_0000);
    assert(mul_spec(0x4084_06a0, 0x3ce8_e020) == 0x3df0_332f);
    assert(0xf0_332f * 0x1_0000_0000_0000_0000 == 0x1_e066_5e00_0000_0000 * 0x80_0000 + 0x0);
    lemma_quotient_known(0x3df0_332f, 0x3d00_0000, 0xf0_332f, 122, 0x80_0000, 121, 0x1_e066_5e00_0000_0000, 0x0, 66, 0x2_0000_0000_0000_0000, 0x400_0000_0000);
    assert(div_spec(0x3df0_332f, 0x3d00_0000) == 0x4070_332f);
    assert(0xdf_c028 * 0x40 + 0xf0_332f * 0x1 == 0x38e0_3d2f);
    lemma_sum_known(0x435f_c028, 0x4070_332f, false, 0xdf_c028, 133, 0xf0_332f, 127, 0x40, 0x1, 0x38e0_3d2f, 30, 0x2000_0000, 0x40);
    assert(add_spec(0x435f_c028, 0x4070_332f) == 0x4363_80f5);
    lemma_whole_known(0x4363_80f5, 0xe3_80f5, 133, 0x1_0000);
}

/// Code 228.
proof fn lemma_code_228()
    ensures
        chord_code(0x3f46_9c49, 0x3f45_5e8d, 0x3f4d_5e8d, 0x4363_e05d, 0x4367_e7dd) == 228,
{
    reveal(chord_code);
    lemma2_to64();
    lemma2_to64_rest();
    lemma_high_powers();
    assert(0xcd_5e8d * 0x1 - 0xc5_5e8d * 0x1 == 0x8_0000);
    lemma_sum_known(0x3f4d_5e8d, 0x3f45_5e8d, true, 0xcd_5e8d, 125, 0xc5_5e8d, 125, 0x1, 0x1, 0x8_0000, 20, 0x8_0000, 0x10);
    assert(sub_spec(0x3f4d_5e8d, 0x3f45_5e8d) == 0x3d00_0000);
    assert(0xc6_9c49 * 0x1 - 0xc5_5e8d * 0x1 == 0x1_3dbc);
    lemma_sum_known(0x3f46_9c49, 0x3f45_5e8d, true, 0xc6_9c49, 125, 0xc5_5e8d, 125, 0x1, 0x1, 0x1_3dbc, 17, 0x1_0000, 0x80);
    assert(sub_spec(0x3f46_9c49, 0x3f45_5e8d) == 0x3b9e_de00);
    assert(0xe7_e7dd * 0x1 - 0xe3_e05d * 0x1 == 0x4_0780);
    lemma_sum_known(0x4367_e7dd, 0x4363_e05d, true, 0xe7_e7dd, 133, 0xe3_e05d, 133, 0x1, 0x1, 0x4_0780, 19, 0x4_0000, 0x20);
    assert(sub_spec(0x4367_e7dd, 0x4363_e05d) == 0x4080_f000);
    assert(0x80_f000 * 0x9e_de00 == 0x5003_f020_0000);
    lemma_product_known(0x4080_f000, 0x3b9e_de00, 0x80_f000, 128, 0x9e_de00, 118, 0x5003_f020_0000, 47, 0x4000_0000_0000, 0x80_0000);
    assert(mul_spec(0x4080_f000, 0x3b9e_de00) == 0x3ca0_07e0);
    assert(0xa0_07e0 * 0x1_0000_0000_0000_0000 == 0x1_400f_c000_0000_0000 * 0x80_0000 + 0x0);
    lemma_quotient_known(0x3ca0_07e0, 0x3d00_0000, 0xa0_07e0, 120, 0x80_0000, 121, 0x1_400f_c000_0000_0000, 0x0, 66, 0x2_0000_0000_0000_0000, 0x400_0000_0000);
    assert(div_spec(0x3ca0_07e0, 0x3d00_0000) == 0x3f20_07e0);
    assert(0xe3_e05d * 0x100 + 0xa0_07e0 * 0x1 == 0xe480_64e0);
    lemma_sum_known(0x4363_e05d, 0x3f20_07e0, false, 0xe3_e05d, 133, 0xa0_07e0, 125, 0x100, 0x1, 0xe480_64e0, 32, 0x8000_0000, 0x100);
    assert(add_spec(0x4363_e05d, 0x3f20_07e0) == 0x4364_8065);
    lemma_whole_known(0x4364_8065, 0xe4_8065, 133, 0x1_0000);
}

/// Code 229.
proof fn lemma_code_229()
    ensures
        chord_code(0x3f48_95ef, 0x3f45_5e8d, 0x3f4d_5e8d, 0x4363_e05d, 0x4367_e7dd) == 229,
{
    reveal(chord_code);
    lemma2_to64();
    lemma2_to64_rest();
    lemma_high_powers();
    assert(0xcd_5e8d * 0x1 - 0xc5_5e8d * 0x1 == 0x8_0000);
    lemma_sum_known(0x3f4d_5e8d, 0x3f45_5e8d, true, 0xcd_5e8d, 125, 0xc5_5e8d, 125, 0x1, 0x1, 0x8_0000, 20, 0x8_0000, 0x10);
    assert(sub_spec(0x3f4d_5e8d, 0x3f45_5e8d) == 0x3d00_0000);
    assert(0xc8_95ef * 0x1 - 0xc5_5e8d * 0x1 == 0x3_3762);
    lemma_sum_known(0x3f48_95ef, 0x3f45_5e8d, true, 0xc8_95ef, 125, 0xc5_5e8d, 125, 0x1, 0x1, 0x3_3762, 18, 0x2_0000, 0x40);
    assert(sub_spec(0x3f48_95ef, 0x3f45_5e8d) == 0x3c4d_d880);
    assert(0xe7_e7dd * 0x1 - 0xe3_e05d * 0x1 == 0x4_0780);
    lemma_sum_known(0x4367_e7dd, 0x4363_e05d, true, 0xe7_e7dd, 133, 0xe3_e05d, 133, 0x1, 0x1, 0x4_0780, 19, 0x4_0000, 0x20);
    assert(sub_spec(0x4367_e7dd, 0x4363_e05d) == 0x4080_f000);
    assert(0x80_f000 * 0xcd_d880 == 0x67ad_3af8_0000);
    lemma_product_known(0x4080_f000, 0x3c4d_d880, 0x80_f000, 128, 0xcd_d880, 119, 0x67ad_3af8_0000, 47, 0x4000_0000_0000, 0x80_0000);
    assert(mul_spec(0x4080_f000, 0x3c4d_d880) == 0x3d4f_5a76);
    assert(0xcf_5a76 * 0x1_0000_0000_0000_0000 == 0x1_9eb4_ec00_0000_0000 * 0x80_0000 + 0x0);
    lemma_quotient_known(0x3d4f_5a76, 0x3d00_0000, 0xcf_5a76, 121, 0x80_0000, 121, 0x1_9eb4_ec00_0000_0000, 0x0, 66, 0x2_0000_0000_0000_0000, 0x400_0000_0000);
    assert(div_spec(0x3d4f_5a76, 0x3d00_0000) == 0x3fcf_5a76);
    assert(0xe3_e05d * 0x80 + 0xcf_5a76 * 0x1 == 0x72bf_88f6);
    lemma_sum_known(0x4363_e05d, 0x3fcf_5a76, false, 0xe3_e05d, 133, 0xcf_5a76, 126, 0x80, 0x1, 0x72bf_88f6, 31, 0x4000_0000, 0x80);
    assert(add_spec(0x4363_e05d, 0x3fcf_5a76) == 0x4365_7f12);
    lemma_whole_known(0x4365_7f12, 0xe5_7f12, 133, 0x1_0000);
}

/// Code 230.
proof fn lemma_code_230()
    ensures
        chord_code(0x3f4a_9280, 0x3f45_5e8d, 0x3f4d_5e8d, 0x4363_e05d, 0x4367_e7dd) == 230,
{
    reveal(chord_code);
    lemma2_to64();
    lemma2_to64_rest();
    lemma_high_powers();
    assert(0xcd_5e8d * 0x1 - 0xc5_5e8d * 0x1 == 0x8_0000);
    lemma_sum_known(0x3f4d_5e8d, 0x3f45_5e8d, true, 0xcd_5e8d, 125, 0xc5_5e8d, 125, 0x1, 0x1, 0x8_0000, 20, 0x8_0000, 0x10);
    assert(sub_spec(0x3f4d_5e8d, 0x3f45_5e8d) == 0x3d00_0000);
    assert(0xca_9280 * 0x1 - 0xc5_5e8d * 0x1 == 0x5_33f3);
    lemma_sum_known(0x3f4a_9280, 0x3f45_5e8d, true, 0xca_9280, 125, 0xc5_5e8d, 125, 0x1, 0x1, 0x5_33f3, 19, 0x4_0000, 0x20);
    assert(sub_spec(0x3f4a_9280, 0x3f45_5e8d) == 0x3ca6_7e60);
    assert(0xe7_e7dd * 0x1 - 0xe3_e05d * 0x1 == 0x4_0780);
    lemma_sum_known(0x4367_e7dd, 0x4363_e05d, true, 0xe7_e7dd, 133, 0xe3_e05d, 133, 0x1, 0x1, 0x4_0780, 19, 0x4_0000, 0x20);
    assert(sub_spec(0x4367_e7dd, 0x4363_e05d) == 0x4080_f000);
    assert(0x80_f000 * 0xa6_7e60 == 0x53db_467a_0000);
    lemma_product_known(0x4080_f000, 0x3ca6_7e60, 0x80_f000, 128, 0xa6_7e60, 120, 0x53db_467a_0000, 47, 0x4000_0000_0000, 0x80_0000);
    assert(mul_spec(0x4080_f000, 0x3ca6_7e60) == 0x3da7_b68d);
    assert(0xa7_b68d * 0x1_0000_0000_0000_0000 == 0x1_4f6d_1a00_0000_0000 * 0x80_0000 + 0x0);
    lemma_quotient_known(0x3da7_b68d, 0x3d00_0000, 0xa7_b68d, 122, 0x80_0000, 121, 0x1_4f6d_1a00_0000_0000, 0x0, 66, 0x2_0000_0000_0000_0000, 0x400_0000_0000);
    assert(div_spec(0x3da7_b68d, 0x3d00_0000) == 0x4027_b68d);
    assert(0xe3_e05d * 0x40 + 0xa7_b68d * 0x1 == 0x399f_cdcd);
    lemma_sum_known(0x4363_e05d, 0x4027_b68d, false, 0xe3_e05d, 133, 0xa7_b68d, 127, 0x40, 0x1, 0x399f_cdcd, 30, 0x2000_0000, 0x40);
    assert(add_spec(0x4363_e05d, 0x4027_b68d) == 0x4366_7f37);
    lemma_whole_known(0x4366_7f37, 0xe6_7f37, 133, 0x1_0000);
}

/// Code 231.
proof fn lemma_code_231()
    ensures
        chord_code(0x3f4c_91ff, 0x3f45_5e8d, 0x3f4d_5e8d, 0x4363_e05d, 0x4367_e7dd) == 231,
{
    reveal(chord_code);
    lemma2_to64();
    lemma2_to64_rest();
    lemma_high_powers();
    assert(0xcd_5e8d * 0x1 - 0xc5_5e8d * 0x1 == 0x8_0000);
    lemma_sum_known(0x3f4d_5e8d, 0x3f45_5e8d, true, 0xcd_5e8d, 125, 0xc5_5e8d, 125, 0x1, 0x1, 0x8_0000, 20, 0x8_0000, 0x10);
    assert(sub_spec(0x3f4d_5e8d, 0x3f45_5e8d) == 0x3d00_0000);
    assert(0xcc_91ff * 0x1 - 0xc5_5e8d * 0x1 == 0x7_3372);
    lemma_sum_known(0x3f4c_91ff, 0x3f45_5e8d, true, 0xcc_91ff, 125, 0xc5_5e8d, 125, 0x1, 0x1, 0x7_3372, 19, 0x4_0000, 0x20);
    assert(sub_spec(0x3f4c_91ff, 0x3f45_5e8d) == 0x3ce6_6e40);
    assert(0xe7_e7dd * 0x1 - 0xe3_e05d * 0x1 == 0x4_0780);
    lemma_sum_known(0x4367_e7dd, 0x4363_e05d, true, 0xe7_e7dd, 133, 0xe3_e05d, 133, 0x1, 0x1, 0x4_0780, 19, 0x4_0000, 0x20);
    assert(sub_spec(0x4367_e7dd, 0x4363_e05d) == 0x4080_f000);
    assert(0x80_f000 * 0xe6_6e40 == 0x740f_275c_0000);
    lemma_product_known(0x4080_f000, 0x3ce6_6e40, 0x80_f000, 128, 0xe6_6e40, 120, 0x740f_275c_0000, 47, 0x4000_0000_0000, 0x80_0000);
    assert(mul_spec(0x4080_f000, 0x3ce6_6e40) == 0x3de8_1e4f);
    assert(0xe8_1e4f * 0x1_0000_0000_0000_0000 == 0x1_d03c_9e00_0000_0000 * 0x80_0000 + 0x0);
    lemma_quotient_known(0x3de8_1e4f, 0x3d00_0000, 0xe8_1e4f, 122, 0x80_0000, 121, 0x1_d03c_9e00_0000_0000, 0x0, 66, 0x2_0000_0000_0000_0000, 0x400_0000_0000);
    assert(div_spec(0x3de8_1e4f, 0x3d00_0000) == 0x4068_1e4f);
    assert(0xe3_e05d * 0x40 + 0xe8_1e4f * 0x1 == 0x39e0_358f);
    lemma_sum_known(0x4363_e05d, 0x4068_1e4f, false, 0xe3_e05d, 133, 0xe8_1e4f, 127, 0x40, 0x1, 0x39e0_358f, 30, 0x2000_0000, 0x40);
    assert(add_spec(0x4363_e05d, 0x4068_1e4f) == 0x4367_80d6);
    lemma_whole_known(0x4367_80d6, 0xe7_80d6, 133, 0x1_0000);
}

/// Code 232.
proof fn lemma_code_232()
    ensures
        chord_code(0x3f4e_946c, 0x3f4d_5e8d, 0x3f55_5e8d, 0x4367_e7dd, 0x436b_d83b) == 232,
{
    reveal(chord_code);
    lemma2_to64();
    lemma2_to64_rest();
    lemma_high_powers();
    assert(0xd5_5e8d * 0x1 - 0xcd_5e8d * 0x1 == 0x8_0000);
    lemma_sum_known(0x3f55_5e8d, 0x3f4d_5e8d, true, 0xd5_5e8d, 125, 0xcd_5e8d, 125, 0x1, 0x1, 0x8_0000, 20, 0x8_0000, 0x10);
    assert(sub_spec(0x3f55_5e8d, 0x3f4d_5e8d) == 0x3d00_0000);
    assert(0xce_946c * 0x1 - 0xcd_5e8d * 0x1 == 0x1_35df);
    lemma_sum_known(0x3f4e_946c, 0x3f4d_5e8d, true, 0xce_946c, 125, 0xcd_5e8d, 125, 0x1, 0x1, 0x1_35df, 17, 0x1_0000, 0x80);
    assert(sub_spec(0x3f4e_946c, 0x3f4d_5e8d) == 0x3b9a_ef80);
    assert(0xeb_d83b * 0x1 - 0xe7_e7dd * 0x1 == 0x3_f05e);
    lemma_sum_known(0x436b_d83b, 0x4367_e7dd, true, 0xeb_d83b, 133, 0xe7_e7dd, 133, 0x1, 0x1, 0x3_f05e, 18, 0x2_0000, 0x40);
    assert(sub_spec(0x436b_d83b, 0x4367_e7dd) == 0x407c_1780);
    assert(0xfc_1780 * 0x9a_ef80 == 0x9891_fafc_4000);
    lemma_product_known(0x407c_1780, 0x3b9a_ef80, 0xfc_1780, 127, 0x9a_ef80, 118, 0x9891_fafc_4000, 48, 0x8000_0000_0000, 0x100_0000);
    assert(mul_spec(0x407c_1780, 0x3b9a_ef80) == 0x3c98_91fb);
    assert(0x98_91fb * 0x1_0000_0000_0000_0000 == 0x1_3123_f600_0000_0000 * 0x80_0000 + 0x0);
    lemma_quotient_known(0x3c98_91fb, 0x3d00_0000, 0x98_91fb, 120, 0x80_0000, 121, 0x1_3123_f600_0000_0000, 0x0, 66, 0x2_0000_0000_0000_0000, 0x400_0000_0000);
    assert(div_spec(0x3c98_91fb, 0x3d00_0000) == 0x3f18_91fb);
    assert(0xe7_e7dd * 0x100 + 0x98_91fb * 0x1 == 0xe880_6efb);
    lemma_sum_known(0x4367_e7dd, 0x3f18_91fb, false, 0xe7_e7dd, 133, 0x98_91fb, 125, 0x100, 0x1, 0xe880_6efb, 32, 0x8000_0000, 0x100);
    assert(add_spec(0x4367_e7dd, 0x3f18_91fb) == 0x4368_806f);
    lemma_whole_known(0x4368_806f, 0xe8_806f, 133, 0x1_0000);
}

/// Code 233.
proof fn lemma_code_233()
    ensures
        chord_code(0x3f50_99c9, 0x3f4d_5e8d, 0x3f55_5e8d, 0x4367_e7dd, 0x436b_d83b) == 233,
{
    reveal(chord_code);
    lemma2_to64();
    lemma2_to64_rest();
    lemma_high_powers();
    assert(0xd5_5e8d * 0x1 - 0xcd_5e8d * 0x1 == 0x8_0000);
    lemma_sum_known(0x3f55_5e8d, 0x3f4d_5e8d, true, 0xd5_5e8d, 125, 0xcd_5e8d, 125, 0x1, 0x1, 0x8_0000, 20, 0x8_0000, 0x10);
    assert(sub_spec(0x3f55_5e8d, 0x3f4d_5e8d) == 0x3d00_0000);
    assert(0xd0_99c9 * 0x1 - 0xcd_5e8d * 0x1 == 0x3_3b3c);
    lemma_sum_known(0x3f50_99c9, 0x3f4d_5e8d, true, 0xd0_99c9, 125, 0xcd_5e8d, 125, 0x1, 0x1, 0x3_3b3c, 18, 0x2_0000, 0x40);
    assert(sub_spec(0x3f50_99c9, 0x3f4d_5e8d) == 0x3c4e_cf00);
    assert(0xeb_d83b * 0x1 - 0xe7_e7dd * 0x1 == 0x3_f05e);
    lemma_sum_known(0x436b_d83b, 0x4367_e7dd, true, 0xeb_d83b, 133, 0xe7_e7dd, 133, 0x1, 0x1, 0x3_f05e, 18, 0x2_0000, 0x40);
    assert(sub_spec(0x436b_d83b, 0x4367_e7dd) == 0x407c_1780);
    assert(0xfc_1780 * 0xce_cf00 == 0xcba6_c000_8000);
    lemma_product_known(0x407c_1780, 0x3c4e_cf00, 0xfc_1780, 127, 0xce_cf00, 119, 0xcba6_c000_8000, 48, 0x8000_0000_0000, 0x100_0000);
    assert(mul_spec(0x407c_1780, 0x3c4e_cf00) == 0x3d4b_a6c0);
    assert(0xcb_a6c0 * 0x1_0000_0000_0000_0000 == 0x1_974d_8000_0000_0000 * 0x80_0000 + 0x0);
    lemma_quotient_known(0x3d4b_a6c0, 0x3d00_0000, 0xcb_a6c0, 121, 0x80_0000, 121, 0x1_974d_8000_0000_0000, 0x0, 66, 0x2_0000_0000_0000_0000, 0x400_0000_0000);
    assert(div_spec(0x3d4b_a6c0, 0x3d00_0000) == 0x3fcb_a6c0);
    assert(0xe7_e7dd * 0x80 + 0xcb_a6c0 * 0x1 == 0x74bf_9540);
    lemma_sum_known(0x4367_e7dd, 0x3fcb_a6c0, false, 0xe7_e7dd, 133, 0xcb_a6c0, 126, 0x80, 0x1, 0x74bf_9540, 31, 0x4000_0000, 0x80);
    assert(add_spec(0x4367_e7dd, 0x3fcb_a6c0) == 0x4369_7f2a);
    lemma_whole_known(0x4369_7f2a, 0xe9_7f2a, 133, 0x1_0000);
}

/// Code 234.
proof fn lemma_code_234()
    ensures
        chord_code(0x3f52_a216, 0x3f4d_5e8d, 0x3f55_5e8d, 0x4367_e7dd, 0x436b_d83b) == 234,
{
    reveal(chord_code);
    lemma2_to64();
    lemma2_to64_rest();
    lemma_high_powers();
    assert(0xd5_5e8d * 0x1 - 0xcd_5e8d * 0x1 == 0x8_0000);
    lemma_sum_known(0x3f55_5e8d, 0x3f4d_5e8d, true, 0xd5_5e8d, 125, 0xcd_5e8d, 125, 0x1, 0x1, 0x8_0000, 20, 0x8_0000, 0x10);
    assert(sub_spec(0x3f55_5e8d, 0x3f4d_5e8d) == 0x3d00_0000);
    assert(0xd2_a216 * 0x1 - 0xcd_5e8d * 0x1 == 0x5_4389);
    lemma_sum_known(0x3f52_a216, 0x3f4d_5e8d, true, 0xd2_a216, 125, 0xcd_5e8d, 125, 0x1, 0x1, 0x5_4389, 19, 0x4_0000, 0x20);
    assert(sub_spec(0x3f52_a216, 0x3f4d_5e8d) == 0x3ca8_7120);
    assert(0xeb_d83b * 0x1 - 0xe7_e7dd * 0x1 == 0x3_f05e);
    lemma_sum_known(0x436b_d83b, 0x4367_e7dd, true, 0xeb_d83b, 133, 0xe7_e7dd, 133, 0x1, 0x1, 0x3_f05e, 18, 0x2_0000, 0x40);
    assert(sub_spec(0x436b_d83b, 0x4367_e7dd) == 0x407c_1780);
    assert(0xfc_1780 * 0xa8_7120 == 0xa5de_d1e2_7000);
    lemma_product_known(0x407c_1780, 0x3ca8_7120, 0xfc_1780, 127, 0xa8_7120, 120, 0xa5de_d1e2_7000, 48, 0x8000_0000_0000, 0x100_0000);
    assert(mul_spec(0x407c_1780, 0x3ca8_7120) == 0x3da5_ded2);
    assert(0xa5_ded2 * 0x1_0000_0000_0000_0000 == 0x1_4bbd_a400_0000_0000 * 0x80_0000 + 0x0);
    lemma_quotient_known(0x3da5_ded2, 0x3d00_0000, 0xa5_ded2, 122, 0x80_0000, 121, 0x1_4bbd_a400_0000_0000, 0x0, 66, 0x2_0000_0000_0000_0000, 0x400_0000_0000);
    assert(div_spec(0x3da5_ded2, 0x3d00_0000) == 0x4025_ded2);
    assert(0xe7_e7dd * 0x40 + 0xa5_ded2 * 0x1 == 0x3a9f_d612);
    lemma_sum_known(0x4367_e7dd, 0x4025_ded2, false, 0xe7_e7dd, 133, 0xa5_ded2, 127, 0x40, 0x1, 0x3a9f_d612, 30, 0x2000_0000, 0x40);
    assert(add_spec(0x4367_e7dd, 0x4025_ded2) == 0x436a_7f58);
    lemma_whole_known(0x436a_7f58, 0xea_7f58, 133, 0x1_0000);
}

/// Code 235.
proof fn lemma_code_235()
    ensures
        chord_code(0x3f54_ad56, 0x3f4d_5e8d, 0x3f55_5e8d, 0x4367_e7dd, 0x436b_d83b) == 235,
{
    reveal(chord_code);
    lemma2_to64();
    lemma2_to64_rest();
    lemma_high_powers();
    assert(0xd5_5e8d * 0x1 - 0xcd_5e8d * 0x1 == 0x8_0000);
    lemma_sum_known(0x3f55_5e8d, 0x3f4d_5e8d, true, 0xd5_5e8d, 125, 0xcd_5e8d, 125, 0x1, 0x1, 0x8_0000, 20, 0x8_0000, 0x10);
    assert(sub_spec(0x3f55_5e8d, 0x3f4d_5e8d) == 0x3d00_0000);
    assert(0xd4_ad56 * 0x1 - 0xcd_5e8d * 0x1 == 0x7_4ec9);
    lemma_sum_known(0x3f54_ad56, 0x3f4d_5e8d, true, 0xd4_ad56, 125, 0xcd_5e8d, 125, 0x1, 0x1, 0x7_4ec9, 19, 0x4_0000, 0x20);
    assert(sub_spec(0x3f54_ad56, 0x3f4d_5e8d) == 0x3ce9_d920);
    assert(0xeb_d83b * 0x1 - 0xe7_e7dd * 0x1 == 0x3_f05e);
    lemma_sum_known(0x436b_d83b, 0x4367_e7dd, true, 0xeb_d83b, 133, 0xe7_e7dd, 133, 0x1, 0x1, 0x3_f05e, 18, 0x2_0000, 0x40);
    assert(sub_spec(0x436b_d83b, 0x4367_e7dd) == 0x407c_1780);
    assert(0xfc_1780 * 0xe9_d920 == 0xe647_32ee_7000);
    lemma_product_known(0x407c_1780, 0x3ce9_d920, 0xfc_1780, 127, 0xe9_d920, 120, 0xe647_32ee_7000, 48, 0x8000_0000_0000, 0x100_0000);
    assert(mul_spec(0x407c_1780, 0x3ce9_d920) == 0x3de6_4733);
    assert(0xe6_4733 * 0x1_0000_0000_0000_0000 == 0x1_cc8e_6600_0000_0000 * 0x80_0000 + 0x0);
    lemma_quotient_known(0x3de6_4733, 0x3d00_0000, 0xe6_4733, 122, 0x80_0000, 121, 0x1_cc8e_6600_0000_0000, 0x0, 66, 0x2_0000_0000_0000_0000, 0x400_0000_0000);
    assert(div_spec(0x3de6_4733, 0x3d00_0000) == 0x4066_4733);
    assert(0xe7_e7dd * 0x40 + 0xe6_4733 * 0x1 == 0x3ae0_3e73);
    lemma_sum_known(0x4367_e7dd, 0x4066_4733, false, 0xe7_e7dd, 133, 0xe6_4733, 127, 0x40, 0x1, 0x3ae0_3e73, 30, 0x2000_0000, 0x40);
    assert(add_spec(0x4367_e7dd, 0x4066_4733) == 0x436b_80fa);
    lemma_whole_known(0x436b_80fa, 0xeb_80fa, 133, 0x1_0000);
}

/// Code 236.
proof fn lemma_code_236()
    ensures
        chord_code(0x3f56_bb88, 0x3f55_5e8d, 0x3f5d_5e8d, 0x436b_d83b, 0x436f_b2c9) == 236,
{
    reveal(chord_code);
    lemma2_to64();
    lemma2_to64_rest();
    lemma_high_powers();
    assert(0xdd_5e8d * 0x1 - 0xd5_5e8d * 0x1 == 0x8_0000);
    lemma_sum_known(0x3f5d_5e8d, 0x3f55_5e8d, true, 0xdd_5e8d, 125, 0xd5_5e8d, 125, 0x1, 0x1, 0x8_0000, 20, 0x8_0000, 0x10);
    assert(sub_spec(0x3f5d_5e8d, 0x3f55_5e8d) == 0x3d00_0000);
    assert(0xd6_bb88 * 0x1 - 0xd5_5e8d * 0x1 == 0x1_5cfb);
    lemma_sum_known(0x3f56_bb88, 0x3f55_5e8d, true, 0xd6_bb88, 125, 0xd5_5e8d, 125, 0x1, 0x1, 0x1_5cfb, 17, 0x1_0000, 0x80);
    assert(sub_spec(0x3f56_bb88, 0x3f55_5e8d) == 0x3bae_7d80);
    assert(0xef_b2c9 * 0x1 - 0xeb_d83b * 0x1 == 0x3_da8e);
    lemma_sum_known(0x436f_b2c9, 0x436b_d83b, true, 0xef_b2c9, 133, 0xeb_d83b, 133, 0x1, 0x1, 0x3_da8e, 18, 0x2_0000, 0x40);
    assert(sub_spec(0x436f_b2c9, 0x436b_d83b) == 0x4076_a380);
    assert(0xf6_a380 * 0xae_7d80 == 0xa81c_0a27_4000);
    lemma_product_known(0x4076_a380, 0x3bae_7d80, 0xf6_a380, 127, 0xae_7d80, 118, 0xa81c_0a27_4000, 48, 0x8000_0000_0000, 0x100_0000);
    assert(mul_spec(0x4076_a380, 0x3bae_7d80) == 0x3ca8_1c0a);
    assert(0xa8_1c0a * 0x1_0000_0000_0000_0000 == 0x1_5038_1400_0000_0000 * 0x80_0000 + 0x0);
    lemma_quotient_known(0x3ca8_1c0a, 0x3d00_0000, 0xa8_1c0a, 120, 0x80_0000, 121, 0x1_5038_1400_0000_0000, 0x0, 66, 0x2_0000_0000_0000_0000, 0x400_0000_0000);
    assert(div_spec(0x3ca8_1c0a, 0x3d00_0000) == 0x3f28_1c0a);
    assert(0xeb_d83b * 0x100 + 0xa8_1c0a * 0x1 == 0xec80_570a);
    lemma_sum_known(0x436b_d83b, 0x3f28_1c0a, false, 0xeb_d83b, 133, 0xa8_1c0a, 125, 0x100, 0x1, 0xec80_570a, 32, 0x8000_0000, 0x100);
    assert(add_spec(0x436b_d83b, 0x3f28_1c0a) == 0x436c_8057);
    lemma_whole_known(0x436c_8057, 0xec_8057, 133, 0x1_0000);
}

/// Code 237.
proof fn lemma_code_237()
    ensures
        chord_code(0x3f58_ccaf, 0x3f55_5e8d, 0x3f5d_5e8d, 0x436b_d83b, 0x436f_b2c9) == 237,
{
    reveal(chord_code);
    lemma2_to64();
    lemma2_to64_rest();
    lemma_high_powers();
    assert(0xdd_5e8d * 0x1 - 0xd5_5e8d * 0x1 == 0x8_0000);
    lemma_sum_known(0x3f5d_5e8d, 0x3f55_5e8d, true, 0xdd_5e8d, 125, 0xd5_5e8d, 125, 0x1, 0x1, 0x8_0000, 20, 0x8_0000, 0x10);
    assert(sub_spec(0x3f5d_5e8d, 0x3f55_5e8d) == 0x3d00_0000);
    assert(0xd8_ccaf * 0x1 - 0xd5_5e8d * 0x1 == 0x3_6e22);
    lemma_sum_known(0x3f58_ccaf, 0x3f55_5e8d, true, 0xd8_ccaf, 125, 0xd5_5e8d, 125, 0x1, 0x1, 0x3_6e22, 18, 0x2_0000, 0x40);
    assert(sub_spec(0x3f58_ccaf, 0x3f55_5e8d) == 0x3c5b_8880);
    assert(0xef_b2c9 * 0x1 - 0xeb_d83b * 0x1 == 0x3_da8e);
    lemma_sum_known(0x436f_b2c9, 0x436b_d83b, true, 0xef_b2c9, 133, 0xeb_d83b, 133, 0x1, 0x1, 0x3_da8e, 18, 0x2_0000, 0x40);
    assert(sub_spec(0x436f_b2c9, 0x436b_d83b) == 0x4076_a380);
    assert(0xf6_a380 * 0xdb_8880 == 0xd381_60ad_c000);
    lemma_product_known(0x4076_a380, 0x3c5b_8880, 0xf6_a380, 127, 0xdb_8880, 119, 0xd381_60ad_c000, 48, 0x8000_0000_0000, 0x100_0000);
    assert(mul_spec(0x4076_a380, 0x3c5b_8880) == 0x3d53_8161);
    assert(0xd3_8161 * 0x1_0000_0000_0000_0000 == 0x1_a702_c200_0000_0000 * 0x80_0000 + 0x0);
    lemma_quotient_known(0x3d53_8161, 0x3d00_0000, 0xd3_8161, 121, 0x80_0000, 121, 0x1_a702_c200_0000_0000, 0x0, 66, 0x2_0000_0000_0000_0000, 0x400_0000_0000);
    assert(div_spec(0x3d53_8161, 0x3d00_0000) == 0x3fd3_8161);
    assert(0xeb_d83b * 0x80 + 0xd3_8161 * 0x1 == 0x76bf_9ee1);
    lemma_sum_known(0x436b_d83b, 0x3fd3_8161, false, 0xeb_d83b, 133, 0xd3_8161, 126, 0x80, 0x1, 0x76bf_9ee1, 31, 0x4000_0000, 0x80);
    assert(add_spec(0x436b_d83b, 0x3fd3_8161) == 0x436d_7f3e);
    lemma_whole_known(0x436d_7f3e, 0xed_7f3e, 133, 0x1_0000);
}

/// Code 238.
proof fn lemma_code_238()
    ensures
        chord_code(0x3f5a_e0cc, 0x3f55_5e8d, 0x3f5d_5e8d, 0x436b_d83b, 0x436f_b2c9) == 238,
{
    reveal(chord_code);
    lemma2_to64();
    lemma2_to64_rest();
    lemma_high_powers();
    assert(0xdd_5e8d * 0x1 - 0xd5_5e8d * 0x1 == 0x8_0000);
    lemma_sum_known(0x3f5d_5e8d, 0x3f55_5e8d, true, 0xdd_5e8d, 125, 0xd5_5e8d, 125, 0x1, 0x1, 0x8_0000, 20, 0x8_0000, 0x10);
    assert(sub_spec(0x3f5d_5e8d, 0x3f55_5e8d) == 0x3d00_0000);
    assert(0xda_e0cc * 0x1 - 0xd5_5e8d * 0x1 == 0x5_823f);
    lemma_sum_known(0x3f5a_e0cc, 0x3f55_5e8d, true, 0xda_e0cc, 125, 0xd5_5e8d, 125, 0x1, 0x1, 0x5_823f, 19, 0x4_0000, 0x20);
    assert(sub_spec(0x3f5a_e0cc, 0x3f55_5e8d) == 0x3cb0_47e0);
    assert(0xef_b2c9 * 0x1 - 0xeb_d83b * 0x1 == 0x3_da8e);
    lemma_sum_known(0x436f_b2c9, 0x436b_d83b, true, 0xef_b2c9, 133, 0xeb_d83b, 133, 0x1, 0x1, 0x3_da8e, 18, 0x2_0000, 0x40);
    assert(sub_spec(0x436f_b2c9, 0x436b_d83b) == 0x4076_a380);
    assert(0xf6_a380 * 0xb0_47e0 == 0xa9d5_a727_9000);
    lemma_product_known(0x4076_a380, 0x3cb0_47e0, 0xf6_a380, 127, 0xb0_47e0, 120, 0xa9d5_a727_9000, 48, 0x8000_0000_0000, 0x100_0000);
    assert(mul_spec(0x4076_a380, 0x3cb0_47e0) == 0x3da9_d5a7);
    assert(0xa9_d5a7 * 0x1_0000_0000_0000_0000 == 0x1_53ab_4e00_0000_0000 * 0x80_0000 + 0x0);
    lemma_quotient_known(0x3da9_d5a7, 0x3d00_0000, 0xa9_d5a7, 122, 0x80_0000, 121, 0x1_53ab_4e00_0000_0000, 0x0, 66, 0x2_0000_0000_0000_0000, 0x400_0000_0000);
    assert(div_spec(0x3da9_d5a7, 0x3d00_0000) == 0x4029_d5a7);
    assert(0xeb_d83b * 0x40 + 0xa9_d5a7 * 0x1 == 0x3b9f_e467);
    lemma_sum_known(0x436b_d83b, 0x4029_d5a7, false, 0xeb_d83b, 133, 0xa9_d5a7, 127, 0x40, 0x1, 0x3b9f_e467, 30, 0x2000_0000, 0x40);
    assert(add_spec(0x436b_d83b, 0x4029_d5a7) == 0x436e_7f92);
    lemma_whole_known(0x436e_7f92, 0xee_7f92, 133, 0x1_0000);
}

/// Code 239.
proof fn lemma_code_239()
    ensures
        chord_code(0x3f5c_f7df, 0x3f55_5e8d, 0x3f5d_5e8d, 0x436b_d83b, 0x436f_b2c9) == 239,
{
    reveal(chord_code);
    lemma2_to64();
    lemma2_to64_rest();
    lemma_high_powers();
    assert(0xdd_5e8d * 0x1 - 0xd5_5e8d * 0x1 == 0x8_0000);
    lemma_sum_known(0x3f5d_5e8d, 0x3f55_5e8d, true, 0xdd_5e8d, 125, 0xd5_5e8d, 125, 0x1, 0x1, 0x8_0000, 20, 0x8_0000, 0x10);
    assert(sub_spec(0x3f5d_5e8d, 0x3f55_5e8d) == 0x3d00_0000);
    assert(0xdc_f7df * 0x1 - 0xd5_5e8d * 0x1 == 0x7_9952);
    lemma_sum_known(0x3f5c_f7df, 0x3f55_5e8d, true, 0xdc_f7df, 125, 0xd5_5e8d, 125, 0x1, 0x1, 0x7_9952, 19, 0x4_0000, 0x20);
    assert(sub_spec(0x3f5c_f7df, 0x3f55_5e8d) == 0x3cf3_2a40);
    assert(0xef_b2c9 * 0x1 - 0xeb_d83b * 0x1 == 0x3_da8e);
    lemma_sum_known(0x436f_b2c9, 0x436b_d83b, true, 0xef_b2c9, 133, 0xeb_d83b, 133, 0x1, 0x1, 0x3_da8e, 18, 0x2_0000, 0x40);
    assert(sub_spec(0x436f_b2c9, 0x436b_d83b) == 0x4076_a380);
    assert(0xf6_a380 * 0xf3_2a40 == 0xea45_e6fb_e000);
    lemma_product_known(0x4076_a380, 0x3cf3_2a40, 0xf6_a380, 127, 0xf3_2a40, 120, 0xea45_e6fb_e000, 48, 0x8000_0000_0000, 0x100_0000);
    assert(mul_spec(0x4076_a380, 0x3cf3_2a40) == 0x3dea_45e7);
    assert(0xea_45e7 * 0x1_0000_0000_0000_0000 == 0x1_d48b_ce00_0000_0000 * 0x80_0000 + 0x0);
    lemma_quotient_known(0x3dea_45e7, 0x3d00_0000, 0xea_45e7, 122, 0x80_0000, 121, 0x1_d48b_ce00_0000_0000, 0x0, 66, 0x2_0000_0000_0000_0000, 0x400_0000_0000);
    assert(div_spec(0x3dea_45e7, 0x3d00_0000) == 0x406a_45e7);
    assert(0xeb_d83b * 0x40 + 0xea_45e7 * 0x1 == 0x3be0_54a7);
    lemma_sum_known(0x436b_d83b, 0x406a_45e7, false, 0xeb_d83b, 133, 0xea_45e7, 127, 0x40, 0x1, 0x3be0_54a7, 30, 0x2000_0000, 0x40);
    assert(add_spec(0x436b_d83b, 0x406a_45e7) == 0x436f_8153);
    lemma_whole_known(0x436f_8153, 0xef_8153, 133, 0x1_0000);
}

/// Code 240.
proof fn lemma_code_240()
    ensures
        chord_code(0x3f5f_11ea, 0x3f5d_5e8d, 0x3f65_5e8d, 0x436f_b2c9, 0x4373_7876) == 240,
{
    reveal(chord_code);
    lemma2_to64();
    lemma2_to64_rest();
    lemma_high_powers();
    assert(0xe5_5e8d * 0x1 - 0xdd_5e8d * 0x1 == 0x8_0000);
    lemma_sum_known(0x3f65_5e8d, 0x3f5d_5e8d, true, 0xe5_5e8d, 125, 0xdd_5e8d, 125, 0x1, 0x1, 0x8_0000, 20, 0x8_0000, 0x10);
    assert(sub_spec(0x3f65_5e8d, 0x3f5d_5e8d) == 0x3d00_0000);
    assert(0xdf_11ea * 0x1 - 0xdd_5e8d * 0x1 == 0x1_b35d);
    lemma_sum_known(0x3f5f_11ea, 0x3f5d_5e8d, true, 0xdf_11ea, 125, 0xdd_5e8d, 125, 0x1, 0x1, 0x1_b35d, 17, 0x1_0000, 0x80);
    assert(sub_spec(0x3f5f_11ea, 0x3f5d_5e8d) == 0x3bd9_ae80);
    assert(0xf3_7876 * 0x1 - 0xef_b2c9 * 0x1 == 0x3_c5ad);
    lemma_sum_known(0x4373_7876, 0x436f_b2c9, true, 0xf3_7876, 133, 0xef_b2c9, 133, 0x1, 0x1, 0x3_c5ad, 18, 0x2_0000, 0x40);
    assert(sub_spec(0x4373_7876, 0x436f_b2c9) == 0x4071_6b40);
    assert(0xf1_6b40 * 0xd9_ae80 == 0xcd48_78db_2000);
    lemma_product_known(0x4071_6b40, 0x3bd9_ae80, 0xf1_6b40, 127, 0xd9_ae80, 118, 0xcd48_78db_2000, 48, 0x8000_0000_0000, 0x100_0000);
    assert(mul_spec(0x4071_6b40, 0x3bd9_ae80) == 0x3ccd_4879);
    assert(0xcd_4879 * 0x1_0000_0000_0000_0000 == 0x1_9a90_f200_0000_0000 * 0x80_0000 + 0x0);
    lemma_quotient_known(0x3ccd_4879, 0x3d00_0000, 0xcd_4879, 120, 0x80_0000, 121, 0x1_9a90_f200_0000_0000, 0x0, 66, 0x2_0000_0000_0000_0000, 0x400_0000_0000);
    assert(div_spec(0x3ccd_4879, 0x3d00_0000) == 0x3f4d_4879);
    assert(0xef_b2c9 * 0x100 + 0xcd_4879 * 0x1 == 0xf080_1179);
    lemma_sum_known(0x436f_b2c9, 0x3f4d_4879, false, 0xef_b2c9, 133, 0xcd_4879, 125, 0x100, 0x1, 0xf080_1179, 32, 0x8000_0000, 0x100);
    assert(add_spec(0x436f_b2c9, 0x3f4d_4879) == 0x4370_8011);
    lemma_whole_known(0x4370_8011, 0xf0_8011, 133, 0x1_0000);
}

/// Code 241.
proof fn lemma_code_241()
    ensures
        chord_code(0x3f61_2eef, 0x3f5d_5e8d, 0x3f65_5e8d, 0x436f_b2c9, 0x4373_7876) == 241,
{
    reveal(chord_code);
    lemma2_to64();
    lemma2_to64_rest();
    lemma_high_powers();
    assert(0xe5_5e8d * 0x1 - 0xdd_5e8d * 0x1 == 0x8_0000);
    lemma_sum_known(0x3f65_5e8d, 0x3f5d_5e8d, true, 0xe5_5e8d, 125, 0xdd_5e8d, 125, 0x1, 0x1, 0x8_0000, 20, 0x8_0000, 0x10);
    assert(sub_spec(0x3f65_5e8d, 0x3f5d_5e8d) == 0x3d00_0000);
    assert(0xe1_2eef * 0x1 - 0xdd_5e8d * 0x1 == 0x3_d062);
    lemma_sum_known(0x3f61_2eef, 0x3f5d_5e8d, true, 0xe1_2eef, 125, 0xdd_5e8d, 125, 0x1, 0x1, 0x3_d062, 18, 0x2_0000, 0x40);
    assert(sub_spec(0x3f61_2eef, 0x3f5d_5e8d) == 0x3c74_1880);
    assert(0xf3_7876 * 0x1 - 0xef_b2c9 * 0x1 == 0x3_c5ad);
    lemma_sum_known(0x4373_7876, 0x436f_b2c9, true, 0xf3_7876, 133, 0xef_b2c9, 133, 0x1, 0x1, 0x3_c5ad, 18, 0x2_0000, 0x40);
    assert(sub_spec(0x4373_7876, 0x436f_b2c9) == 0x4071_6b40);
    assert(0xf1_6b40 * 0xf4_1880 == 0xe631_53c3_a000);
    lemma_product_known(0x4071_6b40, 0x3c74_1880, 0xf1_6b40, 127, 0xf4_1880, 119, 0xe631_53c3_a000, 48, 0x8000_0000_0000, 0x100_0000);
    assert(mul_spec(0x4071_6b40, 0x3c74_1880) == 0x3d66_3154);
    assert(0xe6_3154 * 0x1_0000_0000_0000_0000 == 0x1_cc62_a800_0000_0000 * 0x80_0000 + 0x0);
    lemma_quotient_known(0x3d66_3154, 0x3d00_0000, 0xe6_3154, 121, 0x80_0000, 121, 0x1_cc62_a800_0000_0000, 0x0, 66, 0x2_0000_0000_0000_0000, 0x400_0000_0000);
    assert(div_spec(0x3d66_3154, 0x3d00_0000) == 0x3fe6_3154);
    assert(0xef_b2c9 * 0x80 + 0xe6_3154 * 0x1 == 0x78bf_95d4);
    lemma_sum_known(0x436f_b2c9, 0x3fe6_3154, false, 0xef_b2c9, 133, 0xe6_3154, 126, 0x80, 0x1, 0x78bf_95d4, 31, 0x4000_0000, 0x80);
    assert(add_spec(0x436f_b2c9, 0x3fe6_3154) == 0x4371_7f2c);
    lemma_whole_known(0x4371_7f2c, 0xf1_7f2c, 133, 0x1_0000);
}

/// Code 242.
proof fn lemma_code_242()
    ensures
        chord_code(0x3f63_4eee, 0x3f5d_5e8d, 0x3f65_5e8d, 0x436f_b2c9, 0x4373_7876) == 242,
{
    reveal(chord_code);
    lemma2_to64();
    lemma2_to64_rest();
    lemma_high_powers();
    assert(0xe5_5e8d * 0x1 - 0xdd_5e8d * 0x1 == 0x8_0000);
    lemma_sum_known(0x3f65_5e8d, 0x3f5d_5e8d, true, 0xe5_5e8d, 125, 0xdd_5e8d, 125, 0x1, 0x1, 0x8_0000, 20, 0x8_0000, 0x10);
    assert(sub_spec(0x3f65_5e8d, 0x3f5d_5e8d) == 0x3d00_0000);
    assert(0xe3_4eee * 0x1 - 0xdd_5e8d * 0x1 == 0x5_f061);
    lemma_sum_known(0x3f63_4eee, 0x3f5d_5e8d, true, 0xe3_4eee, 125, 0xdd_5e8d, 125, 0x1, 0x1, 0x5_f061, 19, 0x4_0000, 0x20);
    assert(sub_spec(0x3f63_4eee, 0x3f5d_5e8d) == 0x3cbe_0c20);
    assert(0xf3_7876 * 0x1 - 0xef_b2c9 * 0x1 == 0x3_c5ad);
    lemma_sum_known(0x4373_7876, 0x436f_b2c9, true, 0xf3_7876, 133, 0xef_b2c9, 133, 0x1, 0x1, 0x3_c5ad, 18, 0x2_0000, 0x40);
    assert(sub_spec(0x4373_7876, 0x436f_b2c9) == 0x4071_6b40);
    assert(0xf1_6b40 * 0xbe_0c20 == 0xb339_08b4_6800);
    lemma_product_known(0x4071_6b40, 0x3cbe_0c20, 0xf1_6b40, 127, 0xbe_0c20, 120, 0xb339_08b4_6800, 48, 0x8000_0000_0000, 0x100_0000);
    assert(mul_spec(0x4071_6b40, 0x3cbe_0c20) == 0x3db3_3909);
    assert(0xb3_3909 * 0x1_0000_0000_0000_0000 == 0x1_6672_1200_0000_0000 * 0x80_0000 + 0x0);
    lemma_quotient_known(0x3db3_3909, 0x3d00_0000, 0xb3_3909, 122, 0x80_0000, 121, 0x1_6672_1200_0000_0000, 0x0, 66, 0x2_0000_0000_0000_0000, 0x400_0000_0000);
    assert(div_spec(0x3db3_3909, 0x3d00_0000) == 0x4033_3909);
    assert(0xef_b2c9 * 0x40 + 0xb3_3909 * 0x1 == 0x3c9f_eb49);
    lemma_sum_known(0x436f_b2c9, 0x4033_3909, false, 0xef_b2c9, 133, 0xb3_3909, 127, 0x40, 0x1, 0x3c9f_eb49, 30, 0x2000_0000, 0x40);
    assert(add_spec(0x436f_b2c9, 0x4033_3909) == 0x4372_7fad);
    lemma_whole_known(0x4372_7fad, 0xf2_7fad, 133, 0x1_0000);
}

/// Code 243.
proof fn lemma_code_243()
    ensures
        chord_code(0x3f65_71e9, 0x3f65_5e8d, 0x3f6d_5e8d, 0x4373_7876, 0x4377_2b7e) == 243,
{
    reveal(chord_code);
    lemma2_to64();
    lemma2_to64_rest();
    lemma_high_powers();
    assert(0xed_5e8d * 0x1 - 0xe5_5e8d * 0x1 == 0x8_0000);
    lemma_sum_known(0x3f6d_5e8d, 0x3f65_5e8d, true, 0xed_5e8d, 125, 0xe5_5e8d, 125, 0x1, 0x1, 0x8_0000, 20, 0x8_0000, 0x10);
    assert(sub_spec(0x3f6d_5e8d, 0x3f65_5e8d) == 0x3d00_0000);
    assert(0xe5_71e9 * 0x1 - 0xe5_5e8d * 0x1 == 0x135c);
    lemma_sum_known(0x3f65_71e9, 0x3f65_5e8d, true, 0xe5_71e9, 125, 0xe5_5e8d, 125, 0x1, 0x1, 0x135c, 13, 0x1000, 0x800);
    assert(sub_spec(0x3f65_71e9, 0x3f65_5e8d) == 0x399a_e000);
    assert(0xf7_2b7e * 0x1 - 0xf3_7876 * 0x1 == 0x3_b308);
    lemma_sum_known(0x4377_2b7e, 0x4373_7876, true, 0xf7_2b7e, 133, 0xf3_7876, 133, 0x1, 0x1, 0x3_b308, 18, 0x2_0000, 0x40);
    assert(sub_spec(0x4377_2b7e, 0x4373_7876) == 0x406c_c200);
    assert(0xec_c200 * 0x9a_e000 == 0x8f3b_ddc0_0000);
    lemma_product_known(0x406c_c200, 0x399a_e000, 0xec_c200, 127, 0x9a_e000, 114, 0x8f3b_ddc0_0000, 48, 0x8000_0000_0000, 0x100_0000);
    assert(mul_spec(0x406c_c200, 0x399a_e000) == 0x3a8f_3bde);
    assert(0x8f_3bde * 0x1_0000_0000_0000_0000 == 0x1_1e77_bc00_0000_0000 * 0x80_0000 + 0x0);
    lemma_quotient_known(0x3a8f_3bde, 0x3d00_0000, 0x8f_3bde, 116, 0x80_0000, 121, 0x1_1e77_bc00_0000_0000, 0x0, 66, 0x2_0000_0000_0000_0000, 0x400_0000_0000);
    assert(div_spec(0x3a8f_3bde, 0x3d00_0000) == 0x3d0f_3bde);
    assert(0xf3_7876 * 0x1000 + 0x8f_3bde * 0x1 == 0xf_3816_9bde);
    lemma_sum_known(0x4373_7876, 0x3d0f_3bde, false, 0xf3_7876, 133, 0x8f_3bde, 121, 0x1000, 0x1, 0xf_3816_9bde, 36, 0x8_0000_0000, 0x1000);
    assert(add_spec(0x4373_7876, 0x3d0f_3bde) == 0x4373_816a);
    lemma_whole_known(0x4373_816a, 0xf3_816a, 133, 0x1_0000);
}

/// Code 244.
proof fn lemma_code_244()
    ensures
        chord_code(0x3f67_97e0, 0x3f65_5e8d, 0x3f6d_5e8d, 0x4373_7876, 0x4377_2b7e) == 244,
{
    reveal(chord_code);
    lemma2_to64();
    lemma2_to64_rest();
    lemma_high_powers();
    assert(0xed_5e8d * 0x1 - 0xe5_5e8d * 0x1 == 0x8_0000);
    lemma_sum_known(0x3f6d_5e8d, 0x3f65_5e8d, true, 0xed_5e8d, 125, 0xe5_5e8d, 125, 0x1, 0x1, 0x8_0000, 20, 0x8_0000, 0x10);
    assert(sub_spec(0x3f6d_5e8d, 0x3f65_5e8d) == 0x3d00_0000);
    assert(0xe7_97e0 * 0x1 - 0xe5_5e8d * 0x1 == 0x2_3953);
    lemma_sum_known(0x3f67_97e0, 0x3f65_5e8d, true, 0xe7_97e0, 125, 0xe5_5e8d, 125, 0x1, 0x1, 0x2_3953, 18, 0x2_0000, 0x40);
    assert(sub_spec(0x3f67_97e0, 0x3f65_5e8d) == 0x3c0e_54c0);
    assert(0xf7_2b7e * 0x1 - 0xf3_7876 * 0x1 == 0x3_b308);
    lemma_sum_known(0x4377_2b7e, 0x4373_7876, true, 0xf7_2b7e, 133, 0xf3_7876, 133, 0x1, 0x1, 0x3_b308, 18, 0x2_0000, 0x40);
    assert(sub_spec(0x4377_2b7e, 0x4373_7876) == 0x406c_c200);
    assert(0xec_c200 * 0x8e_54c0 == 0x83a1_fd39_8000);
    lemma_product_known(0x406c_c200, 0x3c0e_54c0, 0xec_c200, 127, 0x8e_54c0, 119, 0x83a1_fd39_8000, 48, 0x8000_0000_0000, 0x100_0000);
    assert(mul_spec(0x406c_c200, 0x3c0e_54c0) == 0x3d03_a1fd);
    assert(0x83_a1fd * 0x1_0000_0000_0000_0000 == 0x1_0743_fa00_0000_0000 * 0x80_0000 + 0x0);
    lemma_quotient_known(0x3d03_a1fd, 0x3d00_0000, 0x83_a1fd, 121, 0x80_0000, 121, 0x1_0743_fa00_0000_0000, 0x0, 66, 0x2_0000_0000_0000_0000, 0x400_0000_0000);
    assert(div_spec(0x3d03_a1fd, 0x3d00_0000) == 0x3f83_a1fd);
    assert(0xf3_7876 * 0x80 + 0x83_a1fd * 0x1 == 0x7a3f_dcfd);
    lemma_sum_known(0x4373_7876, 0x3f83_a1fd, false, 0xf3_7876, 133, 0x83_a1fd, 126, 0x80, 0x1, 0x7a3f_dcfd, 31, 0x4000_0000, 0x80);
    assert(add_spec(0x4373_7876, 0x3f83_a1fd) == 0x4374_7fba);
    lemma_whole_known(0x4374_7fba, 0xf4_7fba, 133, 0x1_0000);
}

/// Code 245.
proof fn lemma_code_245()
    ensures
        chord_code(0x3f69_c0d5, 0x3f65_5e8d, 0x3f6d_5e8d, 0x4373_7876, 0x4377_2b7e) == 245,
{
    reveal(chord_code);
    lemma2_to64();
    lemma2_to64_rest();
    lemma_high_powers();
    assert(0xed_5e8d * 0x1 - 0xe5_5e8d * 0x1 == 0x8_0000);
    lemma_sum_known(0x3f6d_5e8d, 0x3f65_5e8d, true, 0xed_5e8d, 125, 0xe5_5e8d, 125, 0x1, 0x1, 0x8_0000, 20, 0x8_0000, 0x10);
    assert(sub_spec(0x3f6d_5e8d, 0x3f65_5e8d) == 0x3d00_0000);
    assert(0xe9_c0d5 * 0x1 - 0xe5_5e8d * 0x1 == 0x4_6248);
    lemma_sum_known(0x3f69_c0d5, 0x3f65_5e8d, true, 0xe9_c0d5, 125, 0xe5_5e8d, 125, 0x1, 0x1, 0x4_6248, 19, 0x4_0000, 0x20);
    assert(sub_spec(0x3f69_c0d5, 0x3f65_5e8d) == 0x3c8c_4900);
    assert(0xf7_2b7e * 0x1 - 0xf3_7876 * 0x1 == 0x3_b308);
    lemma_sum_known(0x4377_2b7e, 0x4373_7876, true, 0xf7_2b7e, 133, 0xf3_7876, 133, 0x1, 0x1, 0x3_b308, 18, 0x2_0000, 0x40);
    assert(sub_spec(0x4377_2b7e, 0x4373_7876) == 0x406c_c200);
    assert(0xec_c200 * 0x8c_4900 == 0x81bd_9b52_0000);
    lemma_product_known(0x406c_c200, 0x3c8c_4900, 0xec_c200, 127, 0x8c_4900, 120, 0x81bd_9b52_0000, 48, 0x8000_0000_0000, 0x100_0000);
    assert(mul_spec(0x406c_c200, 0x3c8c_4900) == 0x3d81_bd9b);
    assert(0x81_bd9b * 0x1_0000_0000_0000_0000 == 0x1_037b_3600_0000_0000 * 0x80_0000 + 0x0);
    lemma_quotient_known(0x3d81_bd9b, 0x3d00_0000, 0x81_bd9b, 122, 0x80_0000, 121, 0x1_037b_3600_0000_0000, 0x0, 66, 0x2_0000_0000_0000_0000, 0x400_0000_0000);
    assert(div_spec(0x3d81_bd9b, 0x3d00_0000) == 0x4001_bd9b);
    assert(0xf3_7876 * 0x40 + 0x81_bd9b * 0x1 == 0x3d5f_db1b);
    lemma_sum_known(0x4373_7876, 0x4001_bd9b, false, 0xf3_7876, 133, 0x81_bd9b, 127, 0x40, 0x1, 0x3d5f_db1b, 30, 0x2000_0000, 0x40);
    assert(add_spec(0x4373_7876, 0x4001_bd9b) == 0x4375_7f6c);
    lemma_whole_known(0x4375_7f6c, 0xf5_7f6c, 133, 0x1_0000);
}

/// Code 246.
proof fn lemma_code_246()
    ensures
        chord_code(0x3f6b_ecca, 0x3f65_5e8d, 0x3f6d_5e8d, 0x4373_7876, 0x4377_2b7e) == 246,
{
    reveal(chord_code);
    lemma2_to64();
    lemma2_to64_rest();
    lemma_high_powers();
    assert(0xed_5e8d * 0x1 - 0xe5_5e8d * 0x1 == 0x8_0000);
    lemma_sum_known(0x3f6d_5e8d, 0x3f65_5e8d, true, 0xed_5e8d, 125, 0xe5_5e8d, 125, 0x1, 0x1, 0x8_0000, 20, 0x8_0000, 0x10);
    assert(sub_spec(0x3f6d_5e8d, 0x3f65_5e8d) == 0x3d00_0000);
    assert(0xeb_ecca * 0x1 - 0xe5_5e8d * 0x1 == 0x6_8e3d);
    lemma_sum_known(0x3f6b_ecca, 0x3f65_5e8d, true, 0xeb_ecca, 125, 0xe5_5e8d, 125, 0x1, 0x1, 0x6_8e3d, 19, 0x4_0000, 0x20);
    assert(sub_spec(0x3f6b_ecca, 0x3f65_5e8d) == 0x3cd1_c7a0);
    assert(0xf7_2b7e * 0x1 - 0xf3_7876 * 0x1 == 0x3_b308);
    lemma_sum_known(0x4377_2b7e, 0x4373_7876, true, 0xf7_2b7e, 133, 0xf3_7876, 133, 0x1, 0x1, 0x3_b308, 18, 0x2_0000, 0x40);
    assert(sub_spec(0x4377_2b7e, 0x4373_7876) == 0x406c_c200);
    assert(0xec_c200 * 0xd1_c7a0 == 0xc203_00c7_4000);
    lemma_product_known(0x406c_c200, 0x3cd1_c7a0, 0xec_c200, 127, 0xd1_c7a0, 120, 0xc203_00c7_4000, 48, 0x8000_0000_0000, 0x100_0000);
    assert(mul_spec(0x406c_c200, 0x3cd1_c7a0) == 0x3dc2_0301);
    assert(0xc2_0301 * 0x1_0000_0000_0000_0000 == 0x1_8406_0200_0000_0000 * 0x80_0000 + 0x0);
    lemma_quotient_known(0x3dc2_0301, 0x3d00_0000, 0xc2_0301, 122, 0x80_0000, 121, 0x1_8406_0200_0000_0000, 0x0, 66, 0x2_0000_0000_0000_0000, 0x400_0000_0000);
    assert(div_spec(0x3dc2_0301, 0x3d00_0000) == 0x4042_0301);
    assert(0xf3_7876 * 0x40 + 0xc2_0301 * 0x1 == 0x3da0_2081);
    lemma_sum_known(0x4373_7876, 0x4042_0301, false, 0xf3_7876, 133, 0xc2_0301, 127, 0x40, 0x1, 0x3da0_2081, 30, 0x2000_0000, 0x40);
    assert(add_spec(0x4373_7876, 0x4042_0301) == 0x4376_8082);
    lemma_whole_known(0x4376_8082, 0xf6_8082, 133, 0x1_0000);
}

/// Code 247.
proof fn lemma_code_247()
    ensures
        chord_code(0x3f6e_1bbf, 0x3f6d_5e8d, 0x3f75_5e8d, 0x4377_2b7e, 0x437a_cb96) == 247,
{
    reveal(chord_code);
    lemma2_to64();
    lemma2_to64_rest();
    lemma_high_powers();
    assert(0xf5_5e8d * 0x1 - 0xed_5e8d * 0x1 == 0x8_0000);
    lemma_sum_known(0x3f75_5e8d, 0x3f6d_5e8d, true, 0xf5_5e8d, 125, 0xed_5e8d, 125, 0x1, 0x1, 0x8_0000, 20, 0x8_0000, 0x10);
    assert(sub_spec(0x3f75_5e8d, 0x3f6d_5e8d) == 0x3d00_0000);
    assert(0xee_1bbf * 0x1 - 0xed_5e8d * 0x1 == 0xbd32);
    lemma_sum_known(0x3f6e_1bbf, 0x3f6d_5e8d, true, 0xee_1bbf, 125, 0xed_5e8d, 125, 0x1, 0x1, 0xbd32, 16, 0x8000, 0x100);
    assert(sub_spec(0x3f6e_1bbf, 0x3f6d_5e8d) == 0x3b3d_3200);
    assert(0xfa_cb96 * 0x1 - 0xf7_2b7e * 0x1 == 0x3_a018);
    lemma_sum_known(0x437a_cb96, 0x4377_2b7e, true, 0xfa_cb96, 133, 0xf7_2b7e, 133, 0x1, 0x1, 0x3_a018, 18, 0x2_0000, 0x40);
    assert(sub_spec(0x437a_cb96, 0x4377_2b7e) == 0x4068_0600);
    assert(0xe8_0600 * 0xbd_3200 == 0xab79_bf2c_0000);
    lemma_product_known(0x4068_0600, 0x3b3d_3200, 0xe8_0600, 127, 0xbd_3200, 117, 0xab79_bf2c_0000, 48, 0x8000_0000_0000, 0x100_0000);
    assert(mul_spec(0x4068_0600, 0x3b3d_3200) == 0x3c2b_79bf);
    assert(0xab_79bf * 0x1_0000_0000_0000_0000 == 0x1_56f3_7e00_0000_0000 * 0x80_0000 + 0x0);
    lemma_quotient_known(0x3c2b_79bf, 0x3d00_0000, 0xab_79bf, 119, 0x80_0000, 121, 0x1_56f3_7e00_0000_0000, 0x0, 66, 0x2_0000_0000_0000_0000, 0x400_0000_0000);
    assert(div_spec(0x3c2b_79bf, 0x3d00_0000) == 0x3eab_79bf);
    assert(0xf7_2b7e * 0x200 + 0xab_79bf * 0x1 == 0x1_ef02_75bf);
    lemma_sum_known(0x4377_2b7e, 0x3eab_79bf, false, 0xf7_2b7e, 133, 0xab_79bf, 124, 0x200, 0x1, 0x1_ef02_75bf, 33, 0x1_0000_0000, 0x200);
    assert(add_spec(0x4377_2b7e, 0x3eab_79bf) == 0x4377_813b);
    lemma_whole_known(0x4377_813b, 0xf7_813b, 133, 0x1_0000);
}

/// Code 248.
proof fn lemma_code_248()
    ensures
        chord_code(0x3f70_4db5, 0x3f6d_5e8d, 0x3f75_5e8d, 0x4377_2b7e, 0x437a_cb96) == 248,
{
    reveal(chord_code);
    lemma2_to64();
    lemma2_to64_rest();
    lemma_high_powers();
    assert(0xf5_5e8d * 0x1 - 0xed_5e8d * 0x1 == 0x8_0000);
    lemma_sum_known(0x3f75_5e8d, 0x3f6d_5e8d, true, 0xf5_5e8d, 125, 0xed_5e8d, 125, 0x1, 0x1, 0x8_0000, 20, 0x8_0000, 0x10);
    assert(sub_spec(0x3f75_5e8d, 0x3f6d_5e8d) == 0x3d00_0000);
    assert(0xf0_4db5 * 0x1 - 0xed_5e8d * 0x1 == 0x2_ef28);
    lemma_sum_known(0x3f70_4db5, 0x3f6d_5e8d, true, 0xf0_4db5, 125, 0xed_5e8d, 125, 0x1, 0x1, 0x2_ef28, 18, 0x2_0000, 0x40);
    assert(sub_spec(0x3f70_4db5, 0x3f6d_5e8d) == 0x3c3b_ca00);
    assert(0xfa_cb96 * 0x1 - 0xf7_2b7e * 0x1 == 0x3_a018);
    lemma_sum_known(0x437a_cb96, 0x4377_2b7e, true, 0xfa_cb96, 133, 0xf7_2b7e, 133, 0x1, 0x1, 0x3_a018, 18, 0x2_0000, 0x40);
    assert(sub_spec(0x437a_cb96, 0x4377_2b7e) == 0x4068_0600);
    assert(0xe8_0600 * 0xbb_ca00 == 0xaa33_76bc_0000);
    lemma_product_known(0x4068_0600, 0x3c3b_ca00, 0xe8_0600, 127, 0xbb_ca00, 119, 0xaa33_76bc_0000, 48, 0x8000_0000_0000, 0x100_0000);
    assert(mul_spec(0x4068_0600, 0x3c3b_ca00) == 0x3d2a_3377);
    assert(0xaa_3377 * 0x1_0000_0000_0000_0000 == 0x1_5466_ee00_0000_0000 * 0x80_0000 + 0x0);
    lemma_quotient_known(0x3d2a_3377, 0x3d00_0000, 0xaa_3377, 121, 0x80_0000, 121, 0x1_5466_ee00_0000_0000, 0x0, 66, 0x2_0000_0000_0000_0000, 0x400_0000_0000);
    assert(div_spec(0x3d2a_3377, 0x3d00_0000) == 0x3faa_3377);
    assert(0xf7_2b7e * 0x80 + 0xaa_3377 * 0x1 == 0x7c3f_f277);
    lemma_sum_known(0x4377_2b7e, 0x3faa_3377, false, 0xf7_2b7e, 133, 0xaa_3377, 126, 0x80, 0x1, 0x7c3f_f277, 31, 0x4000_0000, 0x80);
    assert(add_spec(0x4377_2b7e, 0x3faa_3377) == 0x4378_7fe5);
    lemma_whole_known(0x4378_7fe5, 0xf8_7fe5, 133, 0x1_0000);
}

/// Code 249.
proof fn lemma_code_249()
    ensures
        chord_code(0x3f72_82ae, 0x3f6d_5e8d, 0x3f75_5e8d, 0x4377_2b7e, 0x437a_cb96) == 249,
{
    reveal(chord_code);
    lemma2_to64();
    lemma2_to64_rest();
    lemma_high_powers();
    assert(0xf5_5e8d * 0x1 - 0xed_5e8d * 0x1 == 0x8_0000);
    lemma_sum_known(0x3f75_5e8d, 0x3f6d_5e8d, true, 0xf5_5e8d, 125, 0xed_5e8d, 125, 0x1, 0x1, 0x8_0000, 20, 0x8_0000, 0x10);
    assert(sub_spec(0x3f75_5e8d, 0x3f6d_5e8d) == 0x3d00_0000);
    assert(0xf2_82ae * 0x1 - 0xed_5e8d * 0x1 == 0x5_2421);
    lemma_sum_known(0x3f72_82ae, 0x3f6d_5e8d, true, 0xf2_82ae, 125, 0xed_5e8d, 125, 0x1, 0x1, 0x5_2421, 19, 0x4_0000, 0x20);
    assert(sub_spec(0x3f72_82ae, 0x3f6d_5e8d) == 0x3ca4_8420);
    assert(0xfa_cb96 * 0x1 - 0xf7_2b7e * 0x1 == 0x3_a018);
    lemma_sum_known(0x437a_cb96, 0x4377_2b7e, true, 0xfa_cb96, 133, 0xf7_2b7e, 133, 0x1, 0x1, 0x3_a018, 18, 0x2_0000, 0x40);
    assert(sub_spec(0x437a_cb96, 0x4377_2b7e) == 0x4068_0600);
    assert(0xe8_0600 * 0xa4_8420 == 0x951b_9818_c000);
    lemma_product_known(0x4068_0600, 0x3ca4_8420, 0xe8_0600, 127, 0xa4_8420, 120, 0x951b_9818_c000, 48, 0x8000_0000_0000, 0x100_0000);
    assert(mul_spec(0x4068_0600, 0x3ca4_8420) == 0x3d95_1b98);
    assert(0x95_1b98 * 0x1_0000_0000_0000_0000 == 0x1_2a37_3000_0000_0000 * 0x80_0000 + 0x0);
    lemma_quotient_known(0x3d95_1b98, 0x3d00_0000, 0x95_1b98, 122, 0x80_0000, 121, 0x1_2a37_3000_0000_0000, 0x0, 66, 0x2_0000_0000_0000_0000, 0x400_0000_0000);
    assert(div_spec(0x3d95_1b98, 0x3d00_0000) == 0x4015_1b98);
    assert(0xf7_2b7e * 0x40 + 0x95_1b98 * 0x1 == 0x3e5f_fb18);
    lemma_sum_known(0x4377_2b7e, 0x4015_1b98, false, 0xf7_2b7e, 133, 0x95_1b98, 127, 0x40, 0x1, 0x3e5f_fb18, 30, 0x2000_0000, 0x40);
    assert(add_spec(0x4377_2b7e, 0x4015_1b98) == 0x4379_7fec);
    lemma_whole_known(0x4379_7fec, 0xf9_7fec, 133, 0x1_0000);
}

/// Code 250.
proof fn lemma_code_250()
    ensures
        chord_code(0x3f74_baab, 0x3f6d_5e8d, 0x3f75_5e8d, 0x4377_2b7e, 0x437a_cb96) == 250,
{
    reveal(chord_code);
    lemma2_to64();
    lemma2_to64_rest();
    lemma_high_powers();
    assert(0xf5_5e8d * 0x1 - 0xed_5e8d * 0x1 == 0x8_0000);
    lemma_sum_known(0x3f75_5e8d, 0x3f6d_5e8d, true, 0xf5_5e8d, 125, 0xed_5e8d, 125, 0x1, 0x1, 0x8_0000, 20, 0x8_0000, 0x10);
    assert(sub_spec(0x3f75_5e8d, 0x3f6d_5e8d) == 0x3d00_0000);
    assert(0xf4_baab * 0x1 - 0xed_5e8d * 0x1 == 0x7_5c1e);
    lemma_sum_known(0x3f74_baab, 0x3f6d_5e8d, true, 0xf4_baab, 125, 0xed_5e8d, 125, 0x1, 0x1, 0x7_5c1e, 19, 0x4_0000, 0x20);
    assert(sub_spec(0x3f74_baab, 0x3f6d_5e8d) == 0x3ceb_83c0);
    assert(0xfa_cb96 * 0x1 - 0xf7_2b7e * 0x1 == 0x3_a018);
    lemma_sum_known(0x437a_cb96, 0x4377_2b7e, true, 0xfa_cb96, 133, 0xf7_2b7e, 133, 0x1, 0x1, 0x3_a018, 18, 0x2_0000, 0x40);
    assert(sub_spec(0x437a_cb96, 0x4377_2b7e) == 0x4068_0600);
    assert(0xe8_0600 * 0xeb_83c0 == 0xd574_eb16_8000);
    lemma_product_known(0x4068_0600, 0x3ceb_83c0, 0xe8_0600, 127, 0xeb_83c0, 120, 0xd574_eb16_8000, 48, 0x8000_0000_0000, 0x100_0000);
    assert(mul_spec(0x4068_0600, 0x3ceb_83c0) == 0x3dd5_74eb);
    assert(0xd5_74eb * 0x1_0000_0000_0000_0000 == 0x1_aae9_d600_0000_0000 * 0x80_0000 + 0x0);
    lemma_quotient_known(0x3dd5_74eb, 0x3d00_0000, 0xd5_74eb, 122, 0x80_0000, 121, 0x1_aae9_d600_0000_0000, 0x0, 66, 0x2_0000_0000_0000_0000, 0x400_0000_0000);
    assert(div_spec(0x3dd5_74eb, 0x3d00_0000) == 0x4055_74eb);
    assert(0xf7_2b7e * 0x40 + 0xd5_74eb * 0x1 == 0x3ea0_546b);
    lemma_sum_known(0x4377_2b7e, 0x4055_74eb, false, 0xf7_2b7e, 133, 0xd5_74eb, 127, 0x40, 0x1, 0x3ea0_546b, 30, 0x2000_0000, 0x40);
    assert(add_spec(0x4377_2b7e, 0x4055_74eb) == 0x437a_8152);
    lemma_whole_known(0x437a_8152, 0xfa_8152, 133, 0x1_0000);
}

/// Code 251.
proof fn lemma_code_251()
    ensures
        chord_code(0x3f76_f5ae, 0x3f75_5e8d, 0x3f7d_5e8d, 0x437a_cb96, 0x437e_5a67) == 251,
{
    reveal(chord_code);
    lemma2_to64();
    lemma2_to64_rest();
    lemma_high_powers();
    assert(0xfd_5e8d * 0x1 - 0xf5_5e8d * 0x1 == 0x8_0000);
    lemma_sum_known(0x3f7d_5e8d, 0x3f75_5e8d, true, 0xfd_5e8d, 125, 0xf5_5e8d, 125, 0x1, 0x1, 0x8_0000, 20, 0x8_0000, 0x10);
    assert(sub_spec(0x3f7d_5e8d, 0x3f75_5e8d) == 0x3d00_0000);
    assert(0xf6_f5ae * 0x1 - 0xf5_5e8d * 0x1 == 0x1_9721);
    lemma_sum_known(0x3f76_f5ae, 0x3f75_5e8d, true, 0xf6_f5ae, 125, 0xf5_5e8d, 125, 0x1, 0x1, 0x1_9721, 17, 0x1_0000, 0x80);
    assert(sub_spec(0x3f76_f5ae, 0x3f75_5e8d) == 0x3bcb_9080);
    assert(0xfe_5a67 * 0x1 - 0xfa_cb96 * 0x1 == 0x3_8ed1);
    lemma_sum_known(0x437e_5a67, 0x437a_cb96, true, 0xfe_5a67, 133, 0xfa_cb96, 133, 0x1, 0x1, 0x3_8ed1, 18, 0x2_0000, 0x40);
    assert(sub_spec(0x437e_5a67, 0x437a_cb96) == 0x4063_b440);
    assert(0xe3_b440 * 0xcb_9080 == 0xb510_75fe_2000);
    lemma_product_known(0x4063_b440, 0x3bcb_9080, 0xe3_b440, 127, 0xcb_9080, 118, 0xb510_75fe_2000, 48, 0x8000_0000_0000, 0x100_0000);
    assert(mul_spec(0x4063_b440, 0x3bcb_9080) == 0x3cb5_1076);
    assert(0xb5_1076 * 0x1_0000_0000_0000_0000 == 0x1_6a20_ec00_0000_0000 * 0x80_0000 + 0x0);
    lemma_quotient_known(0x3cb5_1076, 0x3d00_0000, 0xb5_1076, 120, 0x80_0000, 121, 0x1_6a20_ec00_0000_0000, 0x0, 66, 0x2_0000_0000_0000_0000, 0x400_0000_0000);
    assert(div_spec(0x3cb5_1076, 0x3d00_0000) == 0x3f35_1076);
    assert(0xfa_cb96 * 0x100 + 0xb5_1076 * 0x1 == 0xfb80_a676);
    lemma_sum_known(0x437a_cb96, 0x3f35_1076, false, 0xfa_cb96, 133, 0xb5_1076, 125, 0x100, 0x1, 0xfb80_a676, 32, 0x8000_0000, 0x100);
    assert(add_spec(0x437a_cb96, 0x3f35_1076) == 0x437b_80a6);
    lemma_whole_known(0x437b_80a6, 0xfb_80a6, 133, 0x1_0000);
}

/// Code 252.
proof fn lemma_code_252()
    ensures
        chord_code(0x3f79_33b6, 0x3f75_5e8d, 0x3f7d_5e8d, 0x437a_cb96, 0x437e_5a67) == 252,
{
    reveal(chord_code);
    lemma2_to64();
    lemma2_to64_rest();
    lemma_high_powers();
    assert(0xfd_5e8d * 0x1 - 0xf5_5e8d * 0x1 == 0x8_0000);
    lemma_sum_known(0x3f7d_5e8d, 0x3f75_5e8d, true, 0xfd_5e8d, 125, 0xf5_5e8d, 125, 0x1, 0x1, 0x8_0000, 20, 0x8_0000, 0x10);
    assert(sub_spec(0x3f7d_5e8d, 0x3f75_5e8d) == 0x3d00_0000);
    assert(0xf9_33b6 * 0x1 - 0xf5_5e8d * 0x1 == 0x3_d529);
    lemma_sum_known(0x3f79_33b6, 0x3f75_5e8d, true, 0xf9_33b6, 125, 0xf5_5e8d, 125, 0x1, 0x1, 0x3_d529, 18, 0x2_0000, 0x40);
    assert(sub_spec(0x3f79_33b6, 0x3f75_5e8d) == 0x3c75_4a40);
    assert(0xfe_5a67 * 0x1 - 0xfa_cb96 * 0x1 == 0x3_8ed1);
    lemma_sum_known(0x437e_5a67, 0x437a_cb96, true, 0xfe_5a67, 133, 0xfa_cb96, 133, 0x1, 0x1, 0x3_8ed1, 18, 0x2_0000, 0x40);
    assert(sub_spec(0x437e_5a67, 0x437a_cb96) == 0x4063_b440);
    assert(0xe3_b440 * 0xf5_4a40 == 0xda2d_8c47_9000);
    lemma_product_known(0x4063_b440, 0x3c75_4a40, 0xe3_b440, 127, 0xf5_4a40, 119, 0xda2d_8c47_9000, 48, 0x8000_0000_0000, 0x100_0000);
    assert(mul_spec(0x4063_b440, 0x3c75_4a40) == 0x3d5a_2d8c);
    assert(0xda_2d8c * 0x1_0000_0000_0000_0000 == 0x1_b45b_1800_0000_0000 * 0x80_0000 + 0x0);
    lemma_quotient_known(0x3d5a_2d8c, 0x3d00_0000, 0xda_2d8c, 121, 0x80_0000, 121, 0x1_b45b_1800_0000_0000, 0x0, 66, 0x2_0000_0000_0000_0000, 0x400_0000_0000);
    assert(div_spec(0x3d5a_2d8c, 0x3d00_0000) == 0x3fda_2d8c);
    assert(0xfa_cb96 * 0x80 + 0xda_2d8c * 0x1 == 0x7e3f_f88c);
    lemma_sum_known(0x437a_cb96, 0x3fda_2d8c, false, 0xfa_cb96, 133, 0xda_2d8c, 126, 0x80, 0x1, 0x7e3f_f88c, 31, 0x4000_0000, 0x80);
    assert(add_spec(0x437a_cb96, 0x3fda_2d8c) == 0x437c_7ff1);
    lemma_whole_known(0x437c_7ff1, 0xfc_7ff1, 133, 0x1_0000);
}

/// Code 253.
proof fn lemma_code_253()
    ensures
        chord_code(0x3f7b_74c6, 0x3f75_5e8d, 0x3f7d_5e8d, 0x437a_cb96, 0x437e_5a67) == 253,
{
    reveal(chord_code);
    lemma2_to64();
    lemma2_to64_rest();
    lemma_high_powers();
    assert(0xfd_5e8d * 0x1 - 0xf5_5e8d * 0x1 == 0x8_0000);
    lemma_sum_known(0x3f7d_5e8d, 0x3f75_5e8d, true, 0xfd_5e8d, 125, 0xf5_5e8d, 125, 0x1, 0x1, 0x8_0000, 20, 0x8_0000, 0x10);
    assert(sub_spec(0x3f7d_5e8d, 0x3f75_5e8d) == 0x3d00_0000);
    assert(0xfb_74c6 * 0x1 - 0xf5_5e8d * 0x1 == 0x6_1639);
    lemma_sum_known(0x3f7b_74c6, 0x3f75_5e8d, true, 0xfb_74c6, 125, 0xf5_5e8d, 125, 0x1, 0x1, 0x6_1639, 19, 0x4_0000, 0x20);
    assert(sub_spec(0x3f7b_74c6, 0x3f75_5e8d) == 0x3cc2_c720);
    assert(0xfe_5a67 * 0x1 - 0xfa_cb96 * 0x1 == 0x3_8ed1);
    lemma_sum_known(0x437e_5a67, 0x437a_cb96, true, 0xfe_5a67, 133, 0xfa_cb96, 133, 0x1, 0x1, 0x3_8ed1, 18, 0x2_0000, 0x40);
    assert(sub_spec(0x437e_5a67, 0x437a_cb96) == 0x4063_b440);
    assert(0xe3_b440 * 0xc2_c720 == 0xad3f_b614_4800);
    lemma_product_known(0x4063_b440, 0x3cc2_c720, 0xe3_b440, 127, 0xc2_c720, 120, 0xad3f_b614_4800, 48, 0x8000_0000_0000, 0x100_0000);
    assert(mul_spec(0x4063_b440, 0x3cc2_c720) == 0x3dad_3fb6);
    assert(0xad_3fb6 * 0x1_0000_0000_0000_0000 == 0x1_5a7f_6c00_0000_0000 * 0x80_0000 + 0x0);
    lemma_quotient_known(0x3dad_3fb6, 0x3d00_0000, 0xad_3fb6, 122, 0x80_0000, 121, 0x1_5a7f_6c00_0000_0000, 0x0, 66, 0x2_0000_0000_0000_0000, 0x400_0000_0000);
    assert(div_spec(0x3dad_3fb6, 0x3d00_0000) == 0x402d_3fb6);
    assert(0xfa_cb96 * 0x40 + 0xad_3fb6 * 0x1 == 0x3f60_2536);
    lemma_sum_known(0x437a_cb96, 0x402d_3fb6, false, 0xfa_cb96, 133, 0xad_3fb6, 127, 0x40, 0x1, 0x3f60_2536, 30, 0x2000_0000, 0x40);
    assert(add_spec(0x437a_cb96, 0x402d_3fb6) == 0x437d_8095);
    lemma_whole_known(0x437d_8095, 0xfd_8095, 133, 0x1_0000);
}

/// Code 254.
proof fn lemma_code_254()
    ensures
        chord_code(0x3f7d_b8de, 0x3f7d_5e8d, 0x3f85_5e8d, 0x437e_5a67, 0x4382_0289) == 254,
{
    reveal(chord_code);
    lemma2_to64();
    lemma2_to64_rest();
    lemma_high_powers();
    assert(0x85_5e8d * 0x2 - 0xfd_5e8d * 0x1 == 0xd_5e8d);
    lemma_sum_known(0x3f85_5e8d, 0x3f7d_5e8d, true, 0x85_5e8d, 126, 0xfd_5e8d, 125, 0x2, 0x1, 0xd_5e8d, 20, 0x8_0000, 0x10);
    assert(sub_spec(0x3f85_5e8d, 0x3f7d_5e8d) == 0x3d55_e8d0);
    assert(0xfd_b8de * 0x1 - 0xfd_5e8d * 0x1 == 0x5a51);
    lemma_sum_known(0x3f7d_b8de, 0x3f7d_5e8d, true, 0xfd_b8de, 125, 0xfd_5e8d, 125, 0x1, 0x1, 0x5a51, 15, 0x4000, 0x200);
    assert(sub_spec(0x3f7d_b8de, 0x3f7d_5e8d) == 0x3ab4_a200);
    assert(0x82_0289 * 0x2 - 0xfe_5a67 * 0x1 == 0x5_aaab);
    lemma_sum_known(0x4382_0289, 0x437e_5a67, true, 0x82_0289, 134, 0xfe_5a67, 133, 0x2, 0x1, 0x5_aaab, 19, 0x4_0000, 0x20);
    assert(sub_spec(0x4382_0289, 0x437e_5a67) == 0x40b5_5560);
    assert(0xb5_5560 * 0xb4_a200 == 0x7ff2_c786_c000);
    lemma_product_known(0x40b5_5560, 0x3ab4_a200, 0xb5_5560, 128, 0xb4_a200, 116, 0x7ff2_c786_c000, 47, 0x4000_0000_0000, 0x80_0000);
    assert(mul_spec(0x40b5_5560, 0x3ab4_a200) == 0x3bff_e58f);
    assert(0xff_e58f * 0x1_0000_0000_0000_0000 == 0x1_323f_c1f9_477e_ffc7 * 0xd5_e8d0 + 0x70_d650);
    lemma_quotient_known(0x3bff_e58f, 0x3d55_e8d0, 0xff_e58f, 118, 0xd5_e8d0, 121, 0x1_323f_c1f9_477e_ffc7, 0x70_d650, 66, 0x2_0000_0000_0000_0000, 0x400_0000_0000);
    assert(div_spec(0x3bff_e58f, 0x3d55_e8d0) == 0x3e19_1fe1);
    assert(0xfe_5a67 * 0x400 + 0x99_1fe1 * 0x1 == 0x3_fa02_bbe1);
    lemma_sum_known(0x437e_5a67, 0x3e19_1fe1, false, 0xfe_5a67, 133, 0x99_1fe1, 123, 0x400, 0x1, 0x3_fa02_bbe1, 34, 0x2_0000_0000, 0x400);
    assert(add_spec(0x437e_5a67, 0x3e19_1fe1) == 0x437e_80af);
    lemma_whole_known(0x437e_80af, 0xfe_80af, 133, 0x1_0000);
}

/// The codes 0 to 15.
proof fn lemma_codes_0_to_15(n: u8)
    requires
        0 <= n <= 15,
    ensures
        compress_u8_spec(U8_TO_LINEAR_LUT[n as int]) == n,
{
    if n == 0 {
        lemma_code_0();
    } else if n == 1 {
        lemma_code_1();
    } else if n == 2 {
        lemma_code_2();
    } else if n == 3 {
        lemma_code_3();
    } else if n == 4 {
        lemma_code_4();
    } else if n == 5 {
        lemma_code_5();
    } else if n == 6 {
        lemma_code_6();
    } else if n == 7 {
        lemma_code_7();
    } else if n == 8 {
        lemma_code_8();
    } else if n == 9 {
        lemma_code_9();
    } else if n == 10 {
        lemma_code_10();
    } else if n == 11 {
        lemma_code_11();
        lemma_on_chord(0x3b5b_518e, 1, 0x3b55_5e8d, 0x3b5d_5e8d, 0x4133_f4c4, 0x4139_8cfd, 11);
    } else if n == 12 {
        lemma_code_12();
        lemma_on_chord(0x3b70_f18f, 4, 0x3b6d_5e8d, 0x3b75_5e8d, 0x4145_909d, 0x414b_a25f, 12);
    } else if n == 13 {
        lemma_code_13();
        lemma_on_chord(0x3b83_e1c6, 6, 0x3b7d_5e8d, 0x3b85_5e8d, 0x4151_8227, 0x415a_357d, 13);
    } else if n == 14 {
        lemma_code_14();
        lemma_on_chord(0x3b8f_e616, 8, 0x3b8d_5e8d, 0x3b95_5e8d, 0x4164_afdf, 0x416e_c765, 14);
    } else {
        lemma_code_15();
        lemma_on_chord(0x3b9c_87fd, 9, 0x3b95_5e8d, 0x3b9d_5e8d, 0x416e_c765, 0x4179_1f3d, 15);
    }
}

/// The codes 16 to 31.
proof fn lemma_codes_16_to_31(n: u8)
    requires
        16 <= n <= 31,
    ensures
        compress_u8_spec(U8_TO_LINEAR_LUT[n as int]) == n,
{
    if n == 16 {
        lemma_code_16();
        lemma_on_chord(0x3ba9_c9b6, 11, 0x3ba5_5e8d, 0x3bad_5e8d, 0x4181_adb6, 0x4186_1da3, 16);
    } else if n == 17 {
        lemma_code_17();
        lemma_on_chord(0x3bb7_ad6f, 13, 0x3bb5_5e8d, 0x3bbd_5e8d, 0x418a_b2b2, 0x418f_2bbc, 17);
    } else if n == 18 {
        lemma_code_18();
        lemma_on_chord(0x3bc6_354a, 15, 0x3bc5_5e8d, 0x3bcd_5e8d, 0x4193_cd32, 0x4198_0568, 18);
    } else if n == 19 {
        lemma_code_19();
        lemma_on_chord(0x3bd5_6360, 17, 0x3bd5_5e8d, 0x3bdd_5e8d, 0x419c_2ef9, 0x41a0_5477, 19);
    } else if n == 20 {
        lemma_code_20();
        lemma_on_chord(0x3be5_39c1, 18, 0x3bdd_5e8d, 0x3be5_5e8d, 0x41a0_5477, 0x41a3_906f, 20);
    } else if n == 21 {
        lemma_code_21();
        lemma_on_chord(0x3bf5_ba71, 21, 0x3bf5_5e8d, 0x3bfd_5e8d, 0x41ab_c359, 0x41af_a86c, 21);
    } else if n == 22 {
        lemma_code_22();
        lemma_on_chord(0x3c03_73b6, 22, 0x3bfd_5e8d, 0x3c05_5e8d, 0x41af_a86c, 0x41b5_ed23, 22);
    } else if n == 23 {
        lemma_code_23();
        lemma_on_chord(0x3c0c_6153, 23, 0x3c05_5e8d, 0x3c0d_5e8d, 0x41b5_ed23, 0x41bd_0980, 23);
    } else if n == 24 {
        lemma_code_24();
        lemma_on_chord(0x3c15_a705, 25, 0x3c15_5e8d, 0x3c1d_5e8d, 0x41c4_3a11, 0x41ca_c28a, 24);
    } else if n == 25 {
        lemma_code_25();
        lemma_on_chord(0x3c1f_45be, 26, 0x3c1d_5e8d, 0x3c25_5e8d, 0x41ca_c28a, 0x41d1_34b1, 25);
    } else if n == 26 {
        lemma_code_26();
        lemma_on_chord(0x3c29_3e6b, 27, 0x3c25_5e8d, 0x3c2d_5e8d, 0x41d1_34b1, 0x41d7_7436, 26);
    } else if n == 27 {
        lemma_code_27();
        lemma_on_chord(0x3c33_91f7, 28, 0x3c2d_5e8d, 0x3c35_5e8d, 0x41d7_7436, 0x41dd_8b21, 27);
    } else if n == 28 {
        lemma_code_28();
        lemma_on_chord(0x3c3e_4149, 30, 0x3c3d_5e8d, 0x3c45_5e8d, 0x41e3_a2c0, 0x41e9_4e7f, 28);
    } else if n == 29 {
        lemma_code_29();
        lemma_on_chord(0x3c49_4d44, 31, 0x3c45_5e8d, 0x3c4d_5e8d, 0x41e9_4e7f, 0x41ef_0a95, 29);
    } else if n == 30 {
        lemma_code_30();
        lemma_on_chord(0x3c54_b6c9, 32, 0x3c4d_5e8d, 0x3c55_5e8d, 0x41ef_0a95, 0x41f4_5569, 30);
    } else {
        lemma_code_31();
        lemma_on_chord(0x3c60_7eb4, 34, 0x3c5d_5e8d, 0x3c65_5e8d, 0x41fa_458a, 0x41ff_4654, 31);
    }
}

/// The codes 32 to 47.
proof fn lemma_codes_32_to_47(n: u8)
    requires
        32 <= n <= 47,
    ensures
        compress_u8_spec(U8_TO_LINEAR_LUT[n as int]) == n,
{
    if n == 32 {
        lemma_code_32();
        lemma_on_chord(0x3c6c_a5df, 35, 0x3c65_5e8d, 0x3c6d_5e8d, 0x41ff_4654, 0x4202_5081, 32);
    } else if n == 33 {
        lemma_code_33();
        lemma_on_chord(0x3c79_2d22, 37, 0x3c75_5e8d, 0x3c7d_5e8d, 0x4204_e299, 0x4207_710a, 33);
    } else if n == 34 {
        lemma_code_34();
        lemma_on_chord(0x3c83_0aa9, 38, 0x3c7d_5e8d, 0x3c85_5e8d, 0x4207_710a, 0x420b_715e, 34);
    } else if n == 35 {
        lemma_code_35();
        lemma_on_chord(0x3c89_af9f, 39, 0x3c85_5e8d, 0x3c8d_5e8d, 0x420b_715e, 0x4210_3370, 35);
    } else if n == 36 {
        lemma_code_36();
        lemma_on_chord(0x3c90_85dc, 40, 0x3c8d_5e8d, 0x3c95_5e8d, 0x4210_3370, 0x4214_c8fb, 36);
    } else if n == 37 {
        lemma_code_37();
        lemma_on_chord(0x3c97_8dc6, 41, 0x3c95_5e8d, 0x3c9d_5e8d, 0x4214_c8fb, 0x4219_5874, 37);
    } else if n == 38 {
        lemma_code_38();
        lemma_on_chord(0x3c9e_c7c2, 42, 0x3c9d_5e8d, 0x3ca5_5e8d, 0x4219_5874, 0x421d_a010, 38);
    } else if n == 39 {
        lemma_code_39();
        lemma_on_chord(0x3ca6_3433, 43, 0x3ca5_5e8d, 0x3cad_5e8d, 0x421d_a010, 0x4221_ebaf, 39);
    } else if n == 40 {
        lemma_code_40();
        lemma_on_chord(0x3cad_d37d, 44, 0x3cad_5e8d, 0x3cb5_5e8d, 0x4221_ebaf, 0x4226_00fe, 40);
    } else if n == 41 {
        lemma_code_41();
        lemma_on_chord(0x3cb5_a602, 45, 0x3cb5_5e8d, 0x3cbd_5e8d, 0x4226_00fe, 0x4229_f09e, 41);
    } else if n == 42 {
        lemma_code_42();
        lemma_on_chord(0x3cbd_ac21, 46, 0x3cbd_5e8d, 0x3cc5_5e8d, 0x4229_f09e, 0x422d_c34a, 42);
    } else if n == 43 {
        lemma_code_43();
        lemma_on_chord(0x3cc5_e63a, 47, 0x3cc5_5e8d, 0x3ccd_5e8d, 0x422d_c34a, 0x4231_aaf1, 43);
    } else if n == 44 {
        lemma_code_44();
        lemma_on_chord(0x3cce_54ac, 48, 0x3ccd_5e8d, 0x3cd5_5e8d, 0x4231_aaf1, 0x4235_553f, 44);
    } else if n == 45 {
        lemma_code_45();
        lemma_on_chord(0x3cd6_f7d5, 49, 0x3cd5_5e8d, 0x3cdd_5e8d, 0x4235_553f, 0x4238_f9e8, 45);
    } else if n == 46 {
        lemma_code_46();
        lemma_on_chord(0x3cdf_d010, 50, 0x3cdd_5e8d, 0x3ce5_5e8d, 0x4238_f9e8, 0x423c_75d8, 46);
    } else {
        lemma_code_47();
        lemma_on_chord(0x3ce8_ddba, 51, 0x3ce5_5e8d, 0x3ced_5e8d, 0x423c_75d8, 0x4240_00c7, 47);
    }
}

/// The codes 48 to 63.
proof fn lemma_codes_48_to_63(n: u8)
    requires
        48 <= n <= 63,
    ensures
        compress_u8_spec(U8_TO_LINEAR_LUT[n as int]) == n,
{
    if n == 48 {
        lemma_code_48();
        lemma_on_chord(0x3cf2_212d, 52, 0x3ced_5e8d, 0x3cf5_5e8d, 0x4240_00c7, 0x4243_7283, 48);
    } else if n == 49 {
        lemma_code_49();
        lemma_on_chord(0x3cfb_9ac3, 53, 0x3cf5_5e8d, 0x3cfd_5e8d, 0x4243_7283, 0x4246_c250, 49);
    } else if n == 50 {
        lemma_code_50();
        lemma_on_chord(0x3d02_a56a, 54, 0x3cfd_5e8d, 0x3d05_5e8d, 0x4246_c250, 0x424c_3c5d, 50);
    } else if n == 51 {
        lemma_code_51();
        lemma_on_chord(0x3d07_98dd, 55, 0x3d05_5e8d, 0x3d0d_5e8d, 0x424c_3c5d, 0x4252_9b93, 51);
    } else if n == 52 {
        lemma_code_52();
        lemma_on_chord(0x3d0c_a7e6, 55, 0x3d05_5e8d, 0x3d0d_5e8d, 0x424c_3c5d, 0x4252_9b93, 52);
    } else if n == 53 {
        lemma_code_53();
        lemma_on_chord(0x3d11_d2af, 56, 0x3d0d_5e8d, 0x3d15_5e8d, 0x4252_9b93, 0x4258_bd84, 53);
    } else if n == 54 {
        lemma_code_54();
        lemma_on_chord(0x3d17_1964, 57, 0x3d15_5e8d, 0x3d1d_5e8d, 0x4258_bd84, 0x425e_b40a, 54);
    } else if n == 55 {
        lemma_code_55();
        lemma_on_chord(0x3d1c_7c30, 57, 0x3d15_5e8d, 0x3d1d_5e8d, 0x4258_bd84, 0x425e_b40a, 55);
    } else if n == 56 {
        lemma_code_56();
        lemma_on_chord(0x3d21_fb3c, 58, 0x3d1d_5e8d, 0x3d25_5e8d, 0x425e_b40a, 0x4264_7d61, 56);
    } else if n == 57 {
        lemma_code_57();
        lemma_on_chord(0x3d27_96b2, 59, 0x3d25_5e8d, 0x3d2d_5e8d, 0x4264_7d61, 0x426a_1ab9, 57);
    } else if n == 58 {
        lemma_code_58();
        lemma_on_chord(0x3d2d_4ebb, 59, 0x3d25_5e8d, 0x3d2d_5e8d, 0x4264_7d61, 0x426a_1ab9, 58);
    } else if n == 59 {
        lemma_code_59();
        lemma_on_chord(0x3d33_2381, 60, 0x3d2d_5e8d, 0x3d35_5e8d, 0x426a_1ab9, 0x426f_87c9, 59);
    } else if n == 60 {
        lemma_code_60();
        lemma_on_chord(0x3d39_152b, 61, 0x3d35_5e8d, 0x3d3d_5e8d, 0x426f_87c9, 0x4274_e277, 60);
    } else if n == 61 {
        lemma_code_61();
        lemma_on_chord(0x3d3f_23e4, 62, 0x3d3d_5e8d, 0x3d45_5e8d, 0x4274_e277, 0x427a_1842, 61);
    } else if n == 62 {
        lemma_code_62();
        lemma_on_chord(0x3d45_4fd2, 62, 0x3d3d_5e8d, 0x3d45_5e8d, 0x4274_e277, 0x427a_1842, 62);
    } else {
        lemma_code_63();
        lemma_on_chord(0x3d4b_991d, 63, 0x3d45_5e8d, 0x3d4d_5e8d, 0x427a_1842, 0x427f_24a9, 63);
    }
}

/// The codes 64 to 79.
proof fn lemma_codes_64_to_79(n: u8)
    requires
        64 <= n <= 79,
    ensures
        compress_u8_spec(U8_TO_LINEAR_LUT[n as int]) == n,
{
    if n == 64 {
        lemma_code_64();
        lemma_on_chord(0x3d51_ffec, 64, 0x3d4d_5e8d, 0x3d55_5e8d, 0x427f_24a9, 0x4282_13c9, 64);
    } else if n == 65 {
        lemma_code_65();
        lemma_on_chord(0x3d58_8468, 65, 0x3d55_5e8d, 0x3d5d_5e8d, 0x4282_13c9, 0x4284_7678, 65);
    } else if n == 66 {
        lemma_code_66();
        lemma_on_chord(0x3d5f_26b6, 66, 0x3d5d_5e8d, 0x3d65_5e8d, 0x4284_7678, 0x4286_de3f, 66);
    } else if n == 67 {
        lemma_code_67();
        lemma_on_chord(0x3d65_e6fd, 67, 0x3d65_5e8d, 0x3d6d_5e8d, 0x4286_de3f, 0x4289_29f3, 67);
    } else if n == 68 {
        lemma_code_68();
        lemma_on_chord(0x3d6c_c563, 67, 0x3d65_5e8d, 0x3d6d_5e8d, 0x4286_de3f, 0x4289_29f3, 68);
    } else if n == 69 {
        lemma_code_69();
        lemma_on_chord(0x3d73_c20e, 68, 0x3d6d_5e8d, 0x3d75_5e8d, 0x4289_29f3, 0x428b_7927, 69);
    } else if n == 70 {
        lemma_code_70();
        lemma_on_chord(0x3d7a_dd24, 69, 0x3d75_5e8d, 0x3d7d_5e8d, 0x428b_7927, 0x428d_b839, 70);
    } else if n == 71 {
        lemma_code_71();
        lemma_on_chord(0x3d81_0b65, 70, 0x3d7d_5e8d, 0x3d85_5e8d, 0x428d_b839, 0x4291_6215, 71);
    } else if n == 72 {
        lemma_code_72();
        lemma_on_chord(0x3d84_b793, 70, 0x3d7d_5e8d, 0x3d85_5e8d, 0x428d_b839, 0x4291_6215, 72);
    } else if n == 73 {
        lemma_code_73();
        lemma_on_chord(0x3d88_732e, 71, 0x3d85_5e8d, 0x3d8d_5e8d, 0x4291_6215, 0x4295_9e74, 73);
    } else if n == 74 {
        lemma_code_74();
        lemma_on_chord(0x3d8c_3e48, 71, 0x3d85_5e8d, 0x3d8d_5e8d, 0x4291_6215, 0x4295_9e74, 74);
    } else if n == 75 {
        lemma_code_75();
        lemma_on_chord(0x3d90_18f4, 72, 0x3d8d_5e8d, 0x3d95_5e8d, 0x4295_9e74, 0x4299_b633, 75);
    } else if n == 76 {
        lemma_code_76();
        lemma_on_chord(0x3d94_0344, 72, 0x3d8d_5e8d, 0x3d95_5e8d, 0x4295_9e74, 0x4299_b633, 76);
    } else if n == 77 {
        lemma_code_77();
        lemma_on_chord(0x3d97_fd49, 73, 0x3d95_5e8d, 0x3d9d_5e8d, 0x4299_b633, 0x429d_aea5, 77);
    } else if n == 78 {
        lemma_code_78();
        lemma_on_chord(0x3d9c_0715, 73, 0x3d95_5e8d, 0x3d9d_5e8d, 0x4299_b633, 0x429d_aea5, 78);
    } else {
        lemma_code_79();
        lemma_on_chord(0x3da0_20ba, 74, 0x3d9d_5e8d, 0x3da5_5e8d, 0x429d_aea5, 0x42a1_89c3, 79);
    }
}

/// The codes 80 to 95.
proof fn lemma_codes_80_to_95(n: u8)
    requires
        80 <= n <= 95,
    ensures
        compress_u8_spec(U8_TO_LINEAR_LUT[n as int]) == n,
{
    if n == 80 {
        lemma_code_80();
        lemma_on_chord(0x3da4_4a4a, 74, 0x3d9d_5e8d, 0x3da5_5e8d, 0x429d_aea5, 0x42a1_89c3, 80);
    } else if n == 81 {
        lemma_code_81();
        lemma_on_chord(0x3da8_83d6, 75, 0x3da5_5e8d, 0x3dad_5e8d, 0x42a1_89c3, 0x42a5_498f, 81);
    } else if n == 82 {
        lemma_code_82();
        lemma_on_chord(0x3dac_cd6f, 75, 0x3da5_5e8d, 0x3dad_5e8d, 0x42a1_89c3, 0x42a5_498f, 82);
    } else if n == 83 {
        lemma_code_83();
        lemma_on_chord(0x3db1_2727, 76, 0x3dad_5e8d, 0x3db5_5e8d, 0x42a5_498f, 0x42a8_efaa, 83);
    } else if n == 84 {
        lemma_code_84();
        lemma_on_chord(0x3db5_910f, 77, 0x3db5_5e8d, 0x3dbd_5e8d, 0x42a8_efaa, 0x42ac_7bd0, 84);
    } else if n == 85 {
        lemma_code_85();
        lemma_on_chord(0x3dba_0b38, 77, 0x3db5_5e8d, 0x3dbd_5e8d, 0x42a8_efaa, 0x42ac_7bd0, 85);
    } else if n == 86 {
        lemma_code_86();
        lemma_on_chord(0x3dbe_95b3, 78, 0x3dbd_5e8d, 0x3dc5_5e8d, 0x42ac_7bd0, 0x42af_f5f2, 86);
    } else if n == 87 {
        lemma_code_87();
        lemma_on_chord(0x3dc3_3090, 78, 0x3dbd_5e8d, 0x3dc5_5e8d, 0x42ac_7bd0, 0x42af_f5f2, 87);
    } else if n == 88 {
        lemma_code_88();
        lemma_on_chord(0x3dc7_dbe0, 79, 0x3dc5_5e8d, 0x3dcd_5e8d, 0x42af_f5f2, 0x42b3_5847, 88);
    } else if n == 89 {
        lemma_code_89();
        lemma_on_chord(0x3dcc_97b4, 79, 0x3dc5_5e8d, 0x3dcd_5e8d, 0x42af_f5f2, 0x42b3_5847, 89);
    } else if n == 90 {
        lemma_code_90();
        lemma_on_chord(0x3dd1_641d, 80, 0x3dcd_5e8d, 0x3dd5_5e8d, 0x42b3_5847, 0x42b6_a643, 90);
    } else if n == 91 {
        lemma_code_91();
        lemma_on_chord(0x3dd6_412b, 81, 0x3dd5_5e8d, 0x3ddd_5e8d, 0x42b6_a643, 0x42b9_e58c, 91);
    } else if n == 92 {
        lemma_code_92();
        lemma_on_chord(0x3ddb_2eee, 81, 0x3dd5_5e8d, 0x3ddd_5e8d, 0x42b6_a643, 0x42b9_e58c, 92);
    } else if n == 93 {
        lemma_code_93();
        lemma_on_chord(0x3de0_2d76, 82, 0x3ddd_5e8d, 0x3de5_5e8d, 0x42b9_e58c, 0x42bd_100a, 93);
    } else if n == 94 {
        lemma_code_94();
        lemma_on_chord(0x3de5_3cd4, 82, 0x3ddd_5e8d, 0x3de5_5e8d, 0x42b9_e58c, 0x42bd_100a, 94);
    } else {
        lemma_code_95();
        lemma_on_chord(0x3dea_5d18, 83, 0x3de5_5e8d, 0x3ded_5e8d, 0x42bd_100a, 0x42c0_2d61, 95);
    }
}

/// The codes 96 to 111.
proof fn lemma_codes_96_to_111(n: u8)
    requires
        96 <= n <= 111,
    ensures
        compress_u8_spec(U8_TO_LINEAR_LUT[n as int]) == n,
{
    if n == 96 {
        lemma_code_96();
        lemma_on_chord(0x3def_8e51, 84, 0x3ded_5e8d, 0x3df5_5e8d, 0x42c0_2d61, 0x42c3_2ec7, 96);
    } else if n == 97 {
        lemma_code_97();
        lemma_on_chord(0x3df4_d090, 84, 0x3ded_5e8d, 0x3df5_5e8d, 0x42c0_2d61, 0x42c3_2ec7, 97);
    } else if n == 98 {
        lemma_code_98();
        lemma_on_chord(0x3dfa_23e5, 85, 0x3df5_5e8d, 0x3dfd_5e8d, 0x42c3_2ec7, 0x42c6_3770, 98);
    } else if n == 99 {
        lemma_code_99();
        lemma_on_chord(0x3dff_885e, 86, 0x3dfd_5e8d, 0x3e05_5e8d, 0x42c6_3770, 0x42cb_1a3a, 99);
    } else if n == 100 {
        lemma_code_100();
        lemma_on_chord(0x3e02_7f06, 86, 0x3dfd_5e8d, 0x3e05_5e8d, 0x42c6_3770, 0x42cb_1a3a, 100);
    } else if n == 101 {
        lemma_code_101();
        lemma_on_chord(0x3e05_427f, 86, 0x3dfd_5e8d, 0x3e05_5e8d, 0x42c6_3770, 0x42cb_1a3a, 101);
    } else if n == 102 {
        lemma_code_102();
        lemma_on_chord(0x3e08_0ea2, 87, 0x3e05_5e8d, 0x3e0d_5e8d, 0x42cb_1a3a, 0x42d0_c02d, 102);
    } else if n == 103 {
        lemma_code_103();
        lemma_on_chord(0x3e0a_e377, 87, 0x3e05_5e8d, 0x3e0d_5e8d, 0x42cb_1a3a, 0x42d0_c02d, 103);
    } else if n == 104 {
        lemma_code_104();
        lemma_on_chord(0x3e0d_c104, 88, 0x3e0d_5e8d, 0x3e15_5e8d, 0x42d0_c02d, 0x42d6_3819, 104);
    } else if n == 105 {
        lemma_code_105();
        lemma_on_chord(0x3e10_a753, 88, 0x3e0d_5e8d, 0x3e15_5e8d, 0x42d0_c02d, 0x42d6_3819, 105);
    } else if n == 106 {
        lemma_code_106();
        lemma_on_chord(0x3e13_966a, 88, 0x3e0d_5e8d, 0x3e15_5e8d, 0x42d0_c02d, 0x42d6_3819, 106);
    } else if n == 107 {
        lemma_code_107();
        lemma_on_chord(0x3e16_8e51, 89, 0x3e15_5e8d, 0x3e1d_5e8d, 0x42d6_3819, 0x42db_8661, 107);
    } else if n == 108 {
        lemma_code_108();
        lemma_on_chord(0x3e19_8f0f, 89, 0x3e15_5e8d, 0x3e1d_5e8d, 0x42d6_3819, 0x42db_8661, 108);
    } else if n == 109 {
        lemma_code_109();
        lemma_on_chord(0x3e1c_98ac, 89, 0x3e15_5e8d, 0x3e1d_5e8d, 0x42d6_3819, 0x42db_8661, 109);
    } else if n == 110 {
        lemma_code_110();
        lemma_on_chord(0x3e1f_ab30, 90, 0x3e1d_5e8d, 0x3e25_5e8d, 0x42db_8661, 0x42e0_ab74, 110);
    } else {
        lemma_code_111();
        lemma_on_chord(0x3e22_c6a1, 90, 0x3e1d_5e8d, 0x3e25_5e8d, 0x42db_8661, 0x42e0_ab74, 111);
    }
}

/// The codes 112 to 127.
proof fn lemma_codes_112_to_127(n: u8)
    requires
        112 <= n <= 127,
    ensures
        compress_u8_spec(U8_TO_LINEAR_LUT[n as int]) == n,
{
    if n == 112 {
        lemma_code_112();
        lemma_on_chord(0x3e25_eb07, 91, 0x3e25_5e8d, 0x3e2d_5e8d, 0x42e0_ab74, 0x42e5_ad1e, 112);
    } else if n == 113 {
        lemma_code_113();
        lemma_on_chord(0x3e29_186a, 91, 0x3e25_5e8d, 0x3e2d_5e8d, 0x42e0_ab74, 0x42e5_ad1e, 113);
    } else if n == 114 {
        lemma_code_114();
        lemma_on_chord(0x3e2c_4ed0, 91, 0x3e25_5e8d, 0x3e2d_5e8d, 0x42e0_ab74, 0x42e5_ad1e, 114);
    } else if n == 115 {
        lemma_code_115();
        lemma_on_chord(0x3e2f_8e42, 92, 0x3e2d_5e8d, 0x3e35_5e8d, 0x42e5_ad1e, 0x42ea_8ad8, 115);
    } else if n == 116 {
        lemma_code_116();
        lemma_on_chord(0x3e32_d6c5, 92, 0x3e2d_5e8d, 0x3e35_5e8d, 0x42e5_ad1e, 0x42ea_8ad8, 116);
    } else if n == 117 {
        lemma_code_117();
        lemma_on_chord(0x3e36_2862, 93, 0x3e35_5e8d, 0x3e3d_5e8d, 0x42ea_8ad8, 0x42ef_4b0a, 117);
    } else if n == 118 {
        lemma_code_118();
        lemma_on_chord(0x3e39_831f, 93, 0x3e35_5e8d, 0x3e3d_5e8d, 0x42ea_8ad8, 0x42ef_4b0a, 118);
    } else if n == 119 {
        lemma_code_119();
        lemma_on_chord(0x3e3c_e703, 93, 0x3e35_5e8d, 0x3e3d_5e8d, 0x42ea_8ad8, 0x42ef_4b0a, 119);
    } else if n == 120 {
        lemma_code_120();
        lemma_on_chord(0x3e40_5417, 94, 0x3e3d_5e8d, 0x3e45_5e8d, 0x42ef_4b0a, 0x42f3_ec80, 120);
    } else if n == 121 {
        lemma_code_121();
        lemma_on_chord(0x3e43_ca60, 94, 0x3e3d_5e8d, 0x3e45_5e8d, 0x42ef_4b0a, 0x42f3_ec80, 121);
    } else if n == 122 {
        lemma_code_122();
        lemma_on_chord(0x3e47_49e6, 95, 0x3e45_5e8d, 0x3e4d_5e8d, 0x42f3_ec80, 0x42f8_7167, 122);
    } else if n == 123 {
        lemma_code_123();
        lemma_on_chord(0x3e4a_d2af, 95, 0x3e45_5e8d, 0x3e4d_5e8d, 0x42f3_ec80, 0x42f8_7167, 123);
    } else if n == 124 {
        lemma_code_124();
        lemma_on_chord(0x3e4e_64c3, 96, 0x3e4d_5e8d, 0x3e55_5e8d, 0x42f8_7167, 0x42fc_dd34, 124);
    } else if n == 125 {
        lemma_code_125();
        lemma_on_chord(0x3e52_0029, 96, 0x3e4d_5e8d, 0x3e55_5e8d, 0x42f8_7167, 0x42fc_dd34, 125);
    } else if n == 126 {
        lemma_code_126();
        lemma_on_chord(0x3e55_a4e7, 97, 0x3e55_5e8d, 0x3e5d_5e8d, 0x42fc_dd34, 0x4300_9843, 126);
    } else {
        lemma_code_127();
        lemma_on_chord(0x3e59_5305, 97, 0x3e55_5e8d, 0x3e5d_5e8d, 0x42fc_dd34, 0x4300_9843, 127);
    }
}

/// The codes 128 to 143.
proof fn lemma_codes_128_to_143(n: u8)
    requires
        128 <= n <= 143,
    ensures
        compress_u8_spec(U8_TO_LINEAR_LUT[n as int]) == n,
{
    if n == 128 {
        lemma_code_128();
        lemma_on_chord(0x3e5d_0a89, 97, 0x3e55_5e8d, 0x3e5d_5e8d, 0x42fc_dd34, 0x4300_9843, 128);
    } else if n == 129 {
        lemma_code_129();
        lemma_on_chord(0x3e60_cb7a, 98, 0x3e5d_5e8d, 0x3e65_5e8d, 0x4300_9843, 0x4302_b723, 129);
    } else if n == 130 {
        lemma_code_130();
        lemma_on_chord(0x3e64_95df, 98, 0x3e5d_5e8d, 0x3e65_5e8d, 0x4300_9843, 0x4302_b723, 130);
    } else if n == 131 {
        lemma_code_131();
        lemma_on_chord(0x3e68_69be, 99, 0x3e65_5e8d, 0x3e6d_5e8d, 0x4302_b723, 0x4304_ca44, 131);
    } else if n == 132 {
        lemma_code_132();
        lemma_on_chord(0x3e6c_471f, 99, 0x3e65_5e8d, 0x3e6d_5e8d, 0x4302_b723, 0x4304_ca44, 132);
    } else if n == 133 {
        lemma_code_133();
        lemma_on_chord(0x3e70_2e07, 100, 0x3e6d_5e8d, 0x3e75_5e8d, 0x4304_ca44, 0x4306_d2b9, 133);
    } else if n == 134 {
        lemma_code_134();
        lemma_on_chord(0x3e74_1e7e, 100, 0x3e6d_5e8d, 0x3e75_5e8d, 0x4304_ca44, 0x4306_d2b9, 134);
    } else if n == 135 {
        lemma_code_135();
        lemma_on_chord(0x3e78_188b, 101, 0x3e75_5e8d, 0x3e7d_5e8d, 0x4306_d2b9, 0x4308_d183, 135);
    } else if n == 136 {
        lemma_code_136();
        lemma_on_chord(0x3e7c_1c33, 101, 0x3e75_5e8d, 0x3e7d_5e8d, 0x4306_d2b9, 0x4308_d183, 136);
    } else if n == 137 {
        lemma_code_137();
        lemma_on_chord(0x3e80_14bf, 102, 0x3e7d_5e8d, 0x3e85_5e8d, 0x4308_d183, 0x430c_1384, 137);
    } else if n == 138 {
        lemma_code_138();
        lemma_on_chord(0x3e82_2039, 102, 0x3e7d_5e8d, 0x3e85_5e8d, 0x4308_d183, 0x430c_1384, 138);
    } else if n == 139 {
        lemma_code_139();
        lemma_on_chord(0x3e84_308b, 102, 0x3e7d_5e8d, 0x3e85_5e8d, 0x4308_d183, 0x430c_1384, 139);
    } else if n == 140 {
        lemma_code_140();
        lemma_on_chord(0x3e86_45b8, 103, 0x3e85_5e8d, 0x3e8d_5e8d, 0x430c_1384, 0x430f_d9a7, 140);
    } else if n == 141 {
        lemma_code_141();
        lemma_on_chord(0x3e88_5fc3, 103, 0x3e85_5e8d, 0x3e8d_5e8d, 0x430c_1384, 0x430f_d9a7, 141);
    } else if n == 142 {
        lemma_code_142();
        lemma_on_chord(0x3e8a_7eb0, 103, 0x3e85_5e8d, 0x3e8d_5e8d, 0x430c_1384, 0x430f_d9a7, 142);
    } else {
        lemma_code_143();
        lemma_on_chord(0x3e8c_a281, 103, 0x3e85_5e8d, 0x3e8d_5e8d, 0x430c_1384, 0x430f_d9a7, 143);
    }
}

/// The codes 144 to 159.
proof fn lemma_codes_144_to_159(n: u8)
    requires
        144 <= n <= 159,
    ensures
        compress_u8_spec(U8_TO_LINEAR_LUT[n as int]) == n,
{
    if n == 144 {
        lemma_code_144();
        lemma_on_chord(0x3e8e_cb3b, 104, 0x3e8d_5e8d, 0x3e95_5e8d, 0x430f_d9a7, 0x4313_8132, 144);
    } else if n == 145 {
        lemma_code_145();
        lemma_on_chord(0x3e90_f8df, 104, 0x3e8d_5e8d, 0x3e95_5e8d, 0x430f_d9a7, 0x4313_8132, 145);
    } else if n == 146 {
        lemma_code_146();
        lemma_on_chord(0x3e93_2b72, 104, 0x3e8d_5e8d, 0x3e95_5e8d, 0x430f_d9a7, 0x4313_8132, 146);
    } else if n == 147 {
        lemma_code_147();
        lemma_on_chord(0x3e95_62f6, 105, 0x3e95_5e8d, 0x3e9d_5e8d, 0x4313_8132, 0x4317_0a33, 147);
    } else if n == 148 {
        lemma_code_148();
        lemma_on_chord(0x3e97_9f6f, 105, 0x3e95_5e8d, 0x3e9d_5e8d, 0x4313_8132, 0x4317_0a33, 148);
    } else if n == 149 {
        lemma_code_149();
        lemma_on_chord(0x3e99_e0e0, 105, 0x3e95_5e8d, 0x3e9d_5e8d, 0x4313_8132, 0x4317_0a33, 149);
    } else if n == 150 {
        lemma_code_150();
        lemma_on_chord(0x3e9c_274c, 105, 0x3e95_5e8d, 0x3e9d_5e8d, 0x4313_8132, 0x4317_0a33, 150);
    } else if n == 151 {
        lemma_code_151();
        lemma_on_chord(0x3e9e_72b6, 106, 0x3e9d_5e8d, 0x3ea5_5e8d, 0x4317_0a33, 0x431a_7a82, 151);
    } else if n == 152 {
        lemma_code_152();
        lemma_on_chord(0x3ea0_c321, 106, 0x3e9d_5e8d, 0x3ea5_5e8d, 0x4317_0a33, 0x431a_7a82, 152);
    } else if n == 153 {
        lemma_code_153();
        lemma_on_chord(0x3ea3_1890, 106, 0x3e9d_5e8d, 0x3ea5_5e8d, 0x4317_0a33, 0x431a_7a82, 153);
    } else if n == 154 {
        lemma_code_154();
        lemma_on_chord(0x3ea5_7307, 107, 0x3ea5_5e8d, 0x3ead_5e8d, 0x431a_7a82, 0x431d_d06c, 154);
    } else if n == 155 {
        lemma_code_155();
        lemma_on_chord(0x3ea7_d288, 107, 0x3ea5_5e8d, 0x3ead_5e8d, 0x431a_7a82, 0x431d_d06c, 155);
    } else if n == 156 {
        lemma_code_156();
        lemma_on_chord(0x3eaa_3716, 107, 0x3ea5_5e8d, 0x3ead_5e8d, 0x431a_7a82, 0x431d_d06c, 156);
    } else if n == 157 {
        lemma_code_157();
        lemma_on_chord(0x3eac_a0b6, 107, 0x3ea5_5e8d, 0x3ead_5e8d, 0x431a_7a82, 0x431d_d06c, 157);
    } else if n == 158 {
        lemma_code_158();
        lemma_on_chord(0x3eaf_0f68, 108, 0x3ead_5e8d, 0x3eb5_5e8d, 0x431d_d06c, 0x4321_109e, 158);
    } else {
        lemma_code_159();
        lemma_on_chord(0x3eb1_8332, 108, 0x3ead_5e8d, 0x3eb5_5e8d, 0x431d_d06c, 0x4321_109e, 159);
    }
}

/// The codes 160 to 175.
proof fn lemma_codes_160_to_175(n: u8)
    requires
        160 <= n <= 175,
    ensures
        compress_u8_spec(U8_TO_LINEAR_LUT[n as int]) == n,
{
    if n == 160 {
        lemma_code_160();
        lemma_on_chord(0x3eb3_fc15, 108, 0x3ead_5e8d, 0x3eb5_5e8d, 0x431d_d06c, 0x4321_109e, 160);
    } else if n == 161 {
        lemma_code_161();
        lemma_on_chord(0x3eb6_7a14, 109, 0x3eb5_5e8d, 0x3ebd_5e8d, 0x4321_109e, 0x4324_3be0, 161);
    } else if n == 162 {
        lemma_code_162();
        lemma_on_chord(0x3eb8_fd34, 109, 0x3eb5_5e8d, 0x3ebd_5e8d, 0x4321_109e, 0x4324_3be0, 162);
    } else if n == 163 {
        lemma_code_163();
        lemma_on_chord(0x3ebb_8576, 109, 0x3eb5_5e8d, 0x3ebd_5e8d, 0x4321_109e, 0x4324_3be0, 163);
    } else if n == 164 {
        lemma_code_164();
        lemma_on_chord(0x3ebe_12de, 110, 0x3ebd_5e8d, 0x3ec5_5e8d, 0x4324_3be0, 0x4327_535e, 164);
    } else if n == 165 {
        lemma_code_165();
        lemma_on_chord(0x3ec0_a56e, 110, 0x3ebd_5e8d, 0x3ec5_5e8d, 0x4324_3be0, 0x4327_535e, 165);
    } else if n == 166 {
        lemma_code_166();
        lemma_on_chord(0x3ec3_3d2a, 110, 0x3ebd_5e8d, 0x3ec5_5e8d, 0x4324_3be0, 0x4327_535e, 166);
    } else if n == 167 {
        lemma_code_167();
        lemma_on_chord(0x3ec5_da14, 111, 0x3ec5_5e8d, 0x3ecd_5e8d, 0x4327_535e, 0x432a_57db, 167);
    } else if n == 168 {
        lemma_code_168();
        lemma_on_chord(0x3ec8_7c30, 111, 0x3ec5_5e8d, 0x3ecd_5e8d, 0x4327_535e, 0x432a_57db, 168);
    } else if n == 169 {
        lemma_code_169();
        lemma_on_chord(0x3ecb_2380, 111, 0x3ec5_5e8d, 0x3ecd_5e8d, 0x4327_535e, 0x432a_57db, 169);
    } else if n == 170 {
        lemma_code_170();
        lemma_on_chord(0x3ecd_d008, 112, 0x3ecd_5e8d, 0x3ed5_5e8d, 0x432a_57db, 0x432d_4b13, 170);
    } else if n == 171 {
        lemma_code_171();
        lemma_on_chord(0x3ed0_81ca, 112, 0x3ecd_5e8d, 0x3ed5_5e8d, 0x432a_57db, 0x432d_4b13, 171);
    } else if n == 172 {
        lemma_code_172();
        lemma_on_chord(0x3ed3_38c9, 112, 0x3ecd_5e8d, 0x3ed5_5e8d, 0x432a_57db, 0x432d_4b13, 172);
    } else if n == 173 {
        lemma_code_173();
        lemma_on_chord(0x3ed5_f508, 113, 0x3ed5_5e8d, 0x3edd_5e8d, 0x432d_4b13, 0x4330_2e35, 173);
    } else if n == 174 {
        lemma_code_174();
        lemma_on_chord(0x3ed8_b68a, 113, 0x3ed5_5e8d, 0x3edd_5e8d, 0x432d_4b13, 0x4330_2e35, 174);
    } else {
        lemma_code_175();
        lemma_on_chord(0x3edb_7d52, 113, 0x3ed5_5e8d, 0x3edd_5e8d, 0x432d_4b13, 0x4330_2e35, 175);
    }
}

/// The codes 176 to 191.
proof fn lemma_codes_176_to_191(n: u8)
    requires
        176 <= n <= 191,
    ensures
        compress_u8_spec(U8_TO_LINEAR_LUT[n as int]) == n,
{
    if n == 176 {
        lemma_code_176();
        lemma_on_chord(0x3ede_4963, 114, 0x3edd_5e8d, 0x3ee5_5e8d, 0x4330_2e35, 0x4333_01c5, 176);
    } else if n == 177 {
        lemma_code_177();
        lemma_on_chord(0x3ee1_1abf, 114, 0x3edd_5e8d, 0x3ee5_5e8d, 0x4330_2e35, 0x4333_01c5, 177);
    } else if n == 178 {
        lemma_code_178();
        lemma_on_chord(0x3ee3_f169, 114, 0x3edd_5e8d, 0x3ee5_5e8d, 0x4330_2e35, 0x4333_01c5, 178);
    } else if n == 179 {
        lemma_code_179();
        lemma_on_chord(0x3ee6_cd65, 115, 0x3ee5_5e8d, 0x3eed_5e8d, 0x4333_01c5, 0x4335_c6a9, 179);
    } else if n == 180 {
        lemma_code_180();
        lemma_on_chord(0x3ee9_aeb5, 115, 0x3ee5_5e8d, 0x3eed_5e8d, 0x4333_01c5, 0x4335_c6a9, 180);
    } else if n == 181 {
        lemma_code_181();
        lemma_on_chord(0x3eec_955b, 115, 0x3ee5_5e8d, 0x3eed_5e8d, 0x4333_01c5, 0x4335_c6a9, 181);
    } else if n == 182 {
        lemma_code_182();
        lemma_on_chord(0x3eef_815c, 116, 0x3eed_5e8d, 0x3ef5_5e8d, 0x4335_c6a9, 0x4338_7de3, 182);
    } else if n == 183 {
        lemma_code_183();
        lemma_on_chord(0x3ef2_72b8, 116, 0x3eed_5e8d, 0x3ef5_5e8d, 0x4335_c6a9, 0x4338_7de3, 183);
    } else if n == 184 {
        lemma_code_184();
        lemma_on_chord(0x3ef5_6974, 117, 0x3ef5_5e8d, 0x3efd_5e8d, 0x4338_7de3, 0x433b_28a1, 184);
    } else if n == 185 {
        lemma_code_185();
        lemma_on_chord(0x3ef8_6593, 117, 0x3ef5_5e8d, 0x3efd_5e8d, 0x4338_7de3, 0x433b_28a1, 185);
    } else if n == 186 {
        lemma_code_186();
        lemma_on_chord(0x3efb_6716, 117, 0x3ef5_5e8d, 0x3efd_5e8d, 0x4338_7de3, 0x433b_28a1, 186);
    } else if n == 187 {
        lemma_code_187();
        lemma_on_chord(0x3efe_6e00, 118, 0x3efd_5e8d, 0x3f05_5e8d, 0x433b_28a1, 0x433f_825c, 187);
    } else if n == 188 {
        lemma_code_188();
        lemma_on_chord(0x3f00_bd2b, 118, 0x3efd_5e8d, 0x3f05_5e8d, 0x433b_28a1, 0x433f_825c, 188);
    } else if n == 189 {
        lemma_code_189();
        lemma_on_chord(0x3f02_460c, 118, 0x3efd_5e8d, 0x3f05_5e8d, 0x433b_28a1, 0x433f_825c, 189);
    } else if n == 190 {
        lemma_code_190();
        lemma_on_chord(0x3f03_d1a5, 118, 0x3efd_5e8d, 0x3f05_5e8d, 0x433b_28a1, 0x433f_825c, 190);
    } else {
        lemma_code_191();
        lemma_on_chord(0x3f05_5ff7, 119, 0x3f05_5e8d, 0x3f0d_5e8d, 0x433f_825c, 0x4344_8c89, 191);
    }
}

/// The codes 192 to 207.
proof fn lemma_codes_192_to_207(n: u8)
    requires
        192 <= n <= 207,
    ensures
        compress_u8_spec(U8_TO_LINEAR_LUT[n as int]) == n,
{
    if n == 192 {
        lemma_code_192();
        lemma_on_chord(0x3f06_f104, 119, 0x3f05_5e8d, 0x3f0d_5e8d, 0x433f_825c, 0x4344_8c89, 192);
    } else if n == 193 {
        lemma_code_193();
        lemma_on_chord(0x3f08_84cd, 119, 0x3f05_5e8d, 0x3f0d_5e8d, 0x433f_825c, 0x4344_8c89, 193);
    } else if n == 194 {
        lemma_code_194();
        lemma_on_chord(0x3f0a_1b54, 119, 0x3f05_5e8d, 0x3f0d_5e8d, 0x433f_825c, 0x4344_8c89, 194);
    } else if n == 195 {
        lemma_code_195();
        lemma_on_chord(0x3f0b_b499, 119, 0x3f05_5e8d, 0x3f0d_5e8d, 0x433f_825c, 0x4344_8c89, 195);
    } else if n == 196 {
        lemma_code_196();
        lemma_on_chord(0x3f0d_509f, 119, 0x3f05_5e8d, 0x3f0d_5e8d, 0x433f_825c, 0x4344_8c89, 196);
    } else if n == 197 {
        lemma_code_197();
        lemma_on_chord(0x3f0e_ef65, 120, 0x3f0d_5e8d, 0x3f15_5e8d, 0x4344_8c89, 0x4349_6ae5, 197);
    } else if n == 198 {
        lemma_code_198();
        lemma_on_chord(0x3f10_90ef, 120, 0x3f0d_5e8d, 0x3f15_5e8d, 0x4344_8c89, 0x4349_6ae5, 198);
    } else if n == 199 {
        lemma_code_199();
        lemma_on_chord(0x3f12_353d, 120, 0x3f0d_5e8d, 0x3f15_5e8d, 0x4344_8c89, 0x4349_6ae5, 199);
    } else if n == 200 {
        lemma_code_200();
        lemma_on_chord(0x3f13_dc50, 120, 0x3f0d_5e8d, 0x3f15_5e8d, 0x4344_8c89, 0x4349_6ae5, 200);
    } else if n == 201 {
        lemma_code_201();
        lemma_on_chord(0x3f15_862a, 121, 0x3f15_5e8d, 0x3f1d_5e8d, 0x4349_6ae5, 0x434e_23f7, 201);
    } else if n == 202 {
        lemma_code_202();
        lemma_on_chord(0x3f17_32cc, 121, 0x3f15_5e8d, 0x3f1d_5e8d, 0x4349_6ae5, 0x434e_23f7, 202);
    } else if n == 203 {
        lemma_code_203();
        lemma_on_chord(0x3f18_e237, 121, 0x3f15_5e8d, 0x3f1d_5e8d, 0x4349_6ae5, 0x434e_23f7, 203);
    } else if n == 204 {
        lemma_code_204();
        lemma_on_chord(0x3f1a_946e, 121, 0x3f15_5e8d, 0x3f1d_5e8d, 0x4349_6ae5, 0x434e_23f7, 204);
    } else if n == 205 {
        lemma_code_205();
        lemma_on_chord(0x3f1c_4970, 121, 0x3f15_5e8d, 0x3f1d_5e8d, 0x4349_6ae5, 0x434e_23f7, 205);
    } else if n == 206 {
        lemma_code_206();
        lemma_on_chord(0x3f1e_0140, 122, 0x3f1d_5e8d, 0x3f25_5e8d, 0x434e_23f7, 0x4352_b965, 206);
    } else {
        lemma_code_207();
        lemma_on_chord(0x3f1f_bbde, 122, 0x3f1d_5e8d, 0x3f25_5e8d, 0x434e_23f7, 0x4352_b965, 207);
    }
}

/// The codes 208 to 223.
proof fn lemma_codes_208_to_223(n: u8)
    requires
        208 <= n <= 223,
    ensures
        compress_u8_spec(U8_TO_LINEAR_LUT[n as int]) == n,
{
    if n == 208 {
        lemma_code_208();
        lemma_on_chord(0x3f21_794d, 122, 0x3f1d_5e8d, 0x3f25_5e8d, 0x434e_23f7, 0x4352_b965, 208);
    } else if n == 209 {
        lemma_code_209();
        lemma_on_chord(0x3f23_398c, 122, 0x3f1d_5e8d, 0x3f25_5e8d, 0x434e_23f7, 0x4352_b965, 209);
    } else if n == 210 {
        lemma_code_210();
        lemma_on_chord(0x3f24_fc9f, 122, 0x3f1d_5e8d, 0x3f25_5e8d, 0x434e_23f7, 0x4352_b965, 210);
    } else if n == 211 {
        lemma_code_211();
        lemma_on_chord(0x3f26_c285, 123, 0x3f25_5e8d, 0x3f2d_5e8d, 0x4352_b965, 0x4357_2e9d, 211);
    } else if n == 212 {
        lemma_code_212();
        lemma_on_chord(0x3f28_8b41, 123, 0x3f25_5e8d, 0x3f2d_5e8d, 0x4352_b965, 0x4357_2e9d, 212);
    } else if n == 213 {
        lemma_code_213();
        lemma_on_chord(0x3f2a_56d2, 123, 0x3f25_5e8d, 0x3f2d_5e8d, 0x4352_b965, 0x4357_2e9d, 213);
    } else if n == 214 {
        lemma_code_214();
        lemma_on_chord(0x3f2c_253c, 123, 0x3f25_5e8d, 0x3f2d_5e8d, 0x4352_b965, 0x4357_2e9d, 214);
    } else if n == 215 {
        lemma_code_215();
        lemma_on_chord(0x3f2d_f67f, 124, 0x3f2d_5e8d, 0x3f35_5e8d, 0x4357_2e9d, 0x435b_857f, 215);
    } else if n == 216 {
        lemma_code_216();
        lemma_on_chord(0x3f2f_ca9c, 124, 0x3f2d_5e8d, 0x3f35_5e8d, 0x4357_2e9d, 0x435b_857f, 216);
    } else if n == 217 {
        lemma_code_217();
        lemma_on_chord(0x3f31_a194, 124, 0x3f2d_5e8d, 0x3f35_5e8d, 0x4357_2e9d, 0x435b_857f, 217);
    } else if n == 218 {
        lemma_code_218();
        lemma_on_chord(0x3f33_7b6a, 124, 0x3f2d_5e8d, 0x3f35_5e8d, 0x4357_2e9d, 0x435b_857f, 218);
    } else if n == 219 {
        lemma_code_219();
        lemma_on_chord(0x3f35_581d, 124, 0x3f2d_5e8d, 0x3f35_5e8d, 0x4357_2e9d, 0x435b_857f, 219);
    } else if n == 220 {
        lemma_code_220();
        lemma_on_chord(0x3f37_37b0, 125, 0x3f35_5e8d, 0x3f3d_5e8d, 0x435b_857f, 0x435f_c028, 220);
    } else if n == 221 {
        lemma_code_221();
        lemma_on_chord(0x3f39_1a24, 125, 0x3f35_5e8d, 0x3f3d_5e8d, 0x435b_857f, 0x435f_c028, 221);
    } else if n == 222 {
        lemma_code_222();
        lemma_on_chord(0x3f3a_ff7a, 125, 0x3f35_5e8d, 0x3f3d_5e8d, 0x435b_857f, 0x435f_c028, 222);
    } else {
        lemma_code_223();
        lemma_on_chord(0x3f3c_e7b2, 125, 0x3f35_5e8d, 0x3f3d_5e8d, 0x435b_857f, 0x435f_c028, 223);
    }
}

/// The codes 224 to 239.
proof fn lemma_codes_224_to_239(n: u8)
    requires
        224 <= n <= 239,
    ensures
        compress_u8_spec(U8_TO_LINEAR_LUT[n as int]) == n,
{
    if n == 224 {
        lemma_code_224();
        lemma_on_chord(0x3f3e_d2cf, 126, 0x3f3d_5e8d, 0x3f45_5e8d, 0x435f_c028, 0x4363_e05d, 224);
    } else if n == 225 {
        lemma_code_225();
        lemma_on_chord(0x3f40_c0d2, 126, 0x3f3d_5e8d, 0x3f45_5e8d, 0x435f_c028, 0x4363_e05d, 225);
    } else if n == 226 {
        lemma_code_226();
        lemma_on_chord(0x3f42_b1bc, 126, 0x3f3d_5e8d, 0x3f45_5e8d, 0x435f_c028, 0x4363_e05d, 226);
    } else if n == 227 {
        lemma_code_227();
        lemma_on_chord(0x3f44_a58e, 126, 0x3f3d_5e8d, 0x3f45_5e8d, 0x435f_c028, 0x4363_e05d, 227);
    } else if n == 228 {
        lemma_code_228();
        lemma_on_chord(0x3f46_9c49, 127, 0x3f45_5e8d, 0x3f4d_5e8d, 0x4363_e05d, 0x4367_e7dd, 228);
    } else if n == 229 {
        lemma_code_229();
        lemma_on_chord(0x3f48_95ef, 127, 0x3f45_5e8d, 0x3f4d_5e8d, 0x4363_e05d, 0x4367_e7dd, 229);
    } else if n == 230 {
        lemma_code_230();
        lemma_on_chord(0x3f4a_9280, 127, 0x3f45_5e8d, 0x3f4d_5e8d, 0x4363_e05d, 0x4367_e7dd, 230);
    } else if n == 231 {
        lemma_code_231();
        lemma_on_chord(0x3f4c_91ff, 127, 0x3f45_5e8d, 0x3f4d_5e8d, 0x4363_e05d, 0x4367_e7dd, 231);
    } else if n == 232 {
        lemma_code_232();
        lemma_on_chord(0x3f4e_946c, 128, 0x3f4d_5e8d, 0x3f55_5e8d, 0x4367_e7dd, 0x436b_d83b, 232);
    } else if n == 233 {
        lemma_code_233();
        lemma_on_chord(0x3f50_99c9, 128, 0x3f4d_5e8d, 0x3f55_5e8d, 0x4367_e7dd, 0x436b_d83b, 233);
    } else if n == 234 {
        lemma_code_234();
        lemma_on_chord(0x3f52_a216, 128, 0x3f4d_5e8d, 0x3f55_5e8d, 0x4367_e7dd, 0x436b_d83b, 234);
    } else if n == 235 {
        lemma_code_235();
        lemma_on_chord(0x3f54_ad56, 128, 0x3f4d_5e8d, 0x3f55_5e8d, 0x4367_e7dd, 0x436b_d83b, 235);
    } else if n == 236 {
        lemma_code_236();
        lemma_on_chord(0x3f56_bb88, 129, 0x3f55_5e8d, 0x3f5d_5e8d, 0x436b_d83b, 0x436f_b2c9, 236);
    } else if n == 237 {
        lemma_code_237();
        lemma_on_chord(0x3f58_ccaf, 129, 0x3f55_5e8d, 0x3f5d_5e8d, 0x436b_d83b, 0x436f_b2c9, 237);
    } else if n == 238 {
        lemma_code_238();
        lemma_on_chord(0x3f5a_e0cc, 129, 0x3f55_5e8d, 0x3f5d_5e8d, 0x436b_d83b, 0x436f_b2c9, 238);
    } else {
        lemma_code_239();
        lemma_on_chord(0x3f5c_f7df, 129, 0x3f55_5e8d, 0x3f5d_5e8d, 0x436b_d83b, 0x436f_b2c9, 239);
    }
}

/// The codes 240 to 255.
proof fn lemma_codes_240_to_255(n: u8)
    requires
        240 <= n <= 255,
    ensures
        compress_u8_spec(U8_TO_LINEAR_LUT[n as int]) == n,
{
    if n == 240 {
        lemma_code_240();
        lemma_on_chord(0x3f5f_11ea, 130, 0x3f5d_5e8d, 0x3f65_5e8d, 0x436f_b2c9, 0x4373_7876, 240);
    } else if n == 241 {
        lemma_code_241();
        lemma_on_chord(0x3f61_2eef, 130, 0x3f5d_5e8d, 0x3f65_5e8d, 0x436f_b2c9, 0x4373_7876, 241);
    } else if n == 242 {
        lemma_code_242();
        lemma_on_chord(0x3f63_4eee, 130, 0x3f5d_5e8d, 0x3f65_5e8d, 0x436f_b2c9, 0x4373_7876, 242);
    } else if n == 243 {
        lemma_code_243();
        lemma_on_chord(0x3f65_71e9, 131, 0x3f65_5e8d, 0x3f6d_5e8d, 0x4373_7876, 0x4377_2b7e, 243);
    } else if n == 244 {
        lemma_code_244();
        lemma_on_chord(0x3f67_97e0, 131, 0x3f65_5e8d, 0x3f6d_5e8d, 0x4373_7876, 0x4377_2b7e, 244);
    } else if n == 245 {
        lemma_code_245();
        lemma_on_chord(0x3f69_c0d5, 131, 0x3f65_5e8d, 0x3f6d_5e8d, 0x4373_7876, 0x4377_2b7e, 245);
    } else if n == 246 {
        lemma_code_246();
        lemma_on_chord(0x3f6b_ecca, 131, 0x3f65_5e8d, 0x3f6d_5e8d, 0x4373_7876, 0x4377_2b7e, 246);
    } else if n == 247 {
        lemma_code_247();
        lemma_on_chord(0x3f6e_1bbf, 132, 0x3f6d_5e8d, 0x3f75_5e8d, 0x4377_2b7e, 0x437a_cb96, 247);
    } else if n == 248 {
        lemma_code_248();
        lemma_on_chord(0x3f70_4db5, 132, 0x3f6d_5e8d, 0x3f75_5e8d, 0x4377_2b7e, 0x437a_cb96, 248);
    } else if n == 249 {
        lemma_code_249();
        lemma_on_chord(0x3f72_82ae, 132, 0x3f6d_5e8d, 0x3f75_5e8d, 0x4377_2b7e, 0x437a_cb96, 249);
    } else if n == 250 {
        lemma_code_250();
        lemma_on_chord(0x3f74_baab, 132, 0x3f6d_5e8d, 0x3f75_5e8d, 0x4377_2b7e, 0x437a_cb96, 250);
    } else if n == 251 {
        lemma_code_251();
        lemma_on_chord(0x3f76_f5ae, 133, 0x3f75_5e8d, 0x3f7d_5e8d, 0x437a_cb96, 0x437e_5a67, 251);
    } else if n == 252 {
        lemma_code_252();
        lemma_on_chord(0x3f79_33b6, 133, 0x3f75_5e8d, 0x3f7d_5e8d, 0x437a_cb96, 0x437e_5a67, 252);
    } else if n == 253 {
        lemma_code_253();
        lemma_on_chord(0x3f7b_74c6, 133, 0x3f75_5e8d, 0x3f7d_5e8d, 0x437a_cb96, 0x437e_5a67, 253);
    } else if n == 254 {
        lemma_code_254();
        lemma_on_chord(0x3f7d_b8de, 134, 0x3f7d_5e8d, 0x3f85_5e8d, 0x437e_5a67, 0x4382_0289, 254);
    } else {
        lemma_code_255();
    }
}

/// Fast compression undoes expansion: for every 8-bit code, the code of
/// its linear value is the code itself.
pub proof fn lemma_compress_u8_inverts_expand_u8(n: u8)
    ensures
        compress_u8_spec(U8_TO_LINEAR_LUT[n as int]) == n,
{
    if n <= 15 {
        lemma_codes_0_to_15(n);
    } else if n <= 31 {
        lemma_codes_16_to_31(n);
    } else if n <= 47 {
        lemma_codes_32_to_47(n);
    } else if n <= 63 {
        lemma_codes_48_to_63(n);
    } else if n <= 79 {
        lemma_codes_64_to_79(n);
    } else if n <= 95 {
        lemma_codes_80_to_95(n);
    } else if n <= 111 {
        lemma_codes_96_to_111(n);
    } else if n <= 127 {
        lemma_codes_112_to_127(n);
    } else if n <= 143 {
        lemma_codes_128_to_143(n);
    } else if n <= 159 {
        lemma_codes_144_to_159(n);
    } else if n <= 175 {
        lemma_codes_160_to_175(n);
    } else if n <= 191 {
        lemma_codes_176_to_191(n);
    } else if n <= 207 {
        lemma_codes_192_to_207(n);
    } else if n <= 223 {
        lemma_codes_208_to_223(n);
    } else if n <= 239 {
        lemma_codes_224_to_239(n);
    } else if n <= 255 {
        lemma_codes_240_to_255(n);
    }
}

/// Exact compression of the linear value of a code: on the linear piece,
/// up to code 10, it is the code; above, the linear value itself is to be
/// raised to 1 / 2.4.
pub proof fn lemma_compress_u8_precise_of_expand_u8(n: u8)
    ensures
        compress_u8_precise_spec(U8_TO_LINEAR_LUT[n as int]) == if n <= 10 {
            Step::Done(n)
        } else {
            Step::Raise { base: U8_TO_LINEAR_LUT[n as int], exponent: COMPRESS_EXPONENT }
        },
{
    if n == 0 {
        lemma_code_0();
    } else if n == 1 {
        lemma_code_1();
    } else if n == 2 {
        lemma_code_2();
    } else if n == 3 {
        lemma_code_3();
    } else if n == 4 {
        lemma_code_4();
    } else if n == 5 {
        lemma_code_5();
    } else if n == 6 {
        lemma_code_6();
    } else if n == 7 {
        lemma_code_7();
    } else if n == 8 {
        lemma_code_8();
    } else if n == 9 {
        lemma_code_9();
    } else if n == 10 {
        lemma_code_10();
    } else {
        if n < 255 {
            crate::gamma::lemma_expand_u8_increases(n, 255);
        }
        crate::gamma::lemma_expand_u8_increases(10, n);
        lemma_above(U8_TO_LINEAR_LUT[n as int], S_0);
    }
}

} // verus!
