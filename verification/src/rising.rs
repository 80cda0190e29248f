//! Compression rises with the linear value: a larger value never has a
//! smaller code, and the next value has the same code or the next.  That
//! is proved of the fast compression throughout; of the exact compression
//! and of Rec.709 compression it is proved of what the library computes,
//! the code on the linear piece and the code from the power.

use vstd::prelude::*;
use vstd::arithmetic::power2::{pow2, lemma_pow2_pos, lemma2_to64};
use crate::arith::{add_spec, mul_spec, div_spec, fused_spec, sub_spec, aligned};
use crate::binary32::{binade, significand, is_nan, is_negative, is_zero, less, magnitude, pattern, positive_part, whole_part, lemma_less_by_rank, ONE};
use crate::gamma::{chord, chord_code, chord_end, code_above, code_u8, compress_u8_precise_spec, Step, POWER_BIAS, POWER_GAIN, REC709_BIAS_10BIT, REC709_BIAS_8BIT, REC709_GAIN_10BIT, REC709_GAIN_8BIT, S_0, compress_u8_spec, compress_u8_value, fast_index, fast_sample, FAST_BITS_OFFSET, FAST_LUT, FAST_START_255_AT, FAST_START_AT, HALF, LINEAR_SLOPE, U8_TO_LINEAR_LUT};
use crate::known::{lemma_fused_known, lemma_high_powers, lemma_product_known, lemma_quotient_known, lemma_sum_known, lemma_whole_known};
use crate::order::{lemma_add_increases, lemma_div_increases, lemma_fused_increases, lemma_mul_increases, lemma_parts_ordered, lemma_round_increases, lemma_round_zero, lemma_sub_increases, lemma_whole_increases};
use crate::rounding::round_dyadic;

verus! {

/// Proof that the difference of two finite numbers that are not negative,
/// the first the larger, is a positive finite number.
pub proof fn lemma_sub_positive(x: u32, c: u32)
    requires
        c < x < 0x7f80_0000,
    ensures
        0 < sub_spec(x, c) < 0x7f80_0000,
{
    lemma_sub_increases(x, x, c);
    let nc = pattern(true, c as nat);
    lemma_parts_ordered(c as nat, x as nat);
    let sc = significand(c as nat);
    let tc = binade(c as nat);
    let sx = significand(x as nat);
    let tx = binade(x as nat);
    let p = pow2((tx - tc) as nat);
    lemma2_to64();
    lemma_pow2_pos((tx - tc) as nat);
    let n = (sx * p - sc) as nat;
    assert(sc * 1 == sc) by (nonlinear_arith);
    assert(aligned(x, tc) + aligned(nc, tc) == sx * p - sc);
    if tx == tc {
        assert(sx * p == sx) by (nonlinear_arith)
            requires
                p == 1,
        ;
        assert(n > 0);
    } else {
        if tx - tc > 1 {
            vstd::arithmetic::power2::lemma_pow2_strictly_increases(1, (tx - tc) as nat);
        }
        assert(sx * p >= 0x100_0000) by (nonlinear_arith)
            requires
                sx >= 0x80_0000,
                p >= 2,
        ;
    }
    assert(sub_spec(x, c) == round_dyadic(n, tc as int));
    lemma_pow2_pos(tc);
    assert(1 <= n * pow2(tc)) by (nonlinear_arith)
        requires
            n >= 1,
            pow2(tc) >= 1,
    ;
    lemma_round_increases(1, 0, n, tc as int);
    crate::rounding::lemma_exact_parts(1, 0);
}

/// The chord rises with the point at which it is taken, from its left end
/// on.
pub proof fn lemma_chord_increases(s1: u32, s2: u32, x_left: u32, x_right: u32, left: u32, right: u32)
    requires
        x_left <= s1 <= s2 < 0x7f80_0000,
        x_left < x_right < 0x7f80_0000,
        left <= right < 0x7f80_0000,
    ensures
        chord(s1, x_left, x_right, left, right) <= chord(s2, x_left, x_right, left, right)
            <= 0x7f80_0000,
{
    lemma_sub_positive(x_right, x_left);
    lemma_sub_increases(right, right, left);
    lemma_sub_increases(s1, s2, x_left);
    let dx = sub_spec(x_right, x_left);
    let dy = sub_spec(right, left);
    let o1 = sub_spec(s1, x_left);
    let o2 = sub_spec(s2, x_left);
    lemma_mul_increases(dy, o1, o2);
    lemma_div_increases(mul_spec(dy, o1), mul_spec(dy, o2), dx);
    lemma_add_increases(left, div_spec(mul_spec(dy, o1), dx), div_spec(mul_spec(dy, o2), dx));
}

/// At its left end the chord has the height of the left point.
pub proof fn lemma_chord_at_left(x_left: u32, x_right: u32, left: u32, right: u32)
    requires
        x_left < x_right < 0x7f80_0000,
        0x0d80_0000 <= left <= right < 0x7f80_0000,
    ensures
        chord(x_left, x_left, x_right, left, right) == left,
{
    lemma_sub_positive(x_right, x_left);
    lemma_sub_increases(right, right, left);
    let dx = sub_spec(x_right, x_left);
    let dy = sub_spec(right, left);
    let nx = pattern(true, x_left as nat);
    assert(aligned(x_left, binade(x_left as nat)) + aligned(nx, binade(x_left as nat)) == 0);
    assert(sub_spec(x_left, x_left) == 0);
    assert(significand(dy as nat) * 0 == 0) by (nonlinear_arith);
    lemma_round_zero(binade(dy as nat) + 0 - 149);
    assert(mul_spec(dy, 0) == 0);
    assert(div_spec(0, dx) == 0);
    crate::arith::lemma_add_absorbs(left, 0);
}

/// Whether the chord over sample interval `i` ends at the height of its
/// right point, where the chord over the next interval begins.
pub open spec fn segment_closes(i: int) -> bool {
    chord_end(fast_sample(i), fast_sample(i + 1), FAST_LUT[i], FAST_LUT[i + 1]) == FAST_LUT[i + 1]
}

/// The curve at the sample points is finite and rises from one point to
/// the next.
pub proof fn lemma_samples_rise(i: int)
    requires
        0 <= i < 135,
    ensures
        0x0d80_0000 <= FAST_LUT[i] <= FAST_LUT[i + 1] < 0x7f80_0000,
{
}

/// The whole parts of the curve at the sample points rise.
pub proof fn lemma_sample_codes_rise(i: int, j: int)
    requires
        0 <= i <= j <= 135,
    ensures
        whole_part(FAST_LUT[i]) <= whole_part(FAST_LUT[j]),
    decreases j - i,
{
    if i < j {
        lemma_sample_codes_rise(i, j - 1);
        lemma_samples_rise(j - 1);
        lemma_whole_increases(FAST_LUT[j - 1], FAST_LUT[j]);
    }
}

/// Whether the pattern `s` lies where the fast compression interpolates.
pub open spec fn interpolated(s: u32) -> bool {
    FAST_START_AT < s < FAST_START_255_AT
}

/// Proof of what the fast compression comes to where it interpolates.
pub proof fn lemma_interpolated(s: u32)
    requires
        interpolated(s),
    ensures
        0 <= fast_index(s) <= 134,
        fast_sample(fast_index(s)) <= s < fast_sample(fast_index(s) + 1) < 0x7f80_0000,
        compress_u8_spec(s) == code_u8(
            chord(
                s,
                fast_sample(fast_index(s)),
                fast_sample(fast_index(s) + 1),
                FAST_LUT[fast_index(s)],
                FAST_LUT[fast_index(s) + 1],
            ),
        ),
{
    lemma_less_by_rank(FAST_START_AT, s);
    lemma_less_by_rank(s, FAST_START_255_AT);
}

/// Within one sample interval the code rises with the value.
pub proof fn lemma_rises_in_segment(s1: u32, s2: u32)
    requires
        interpolated(s1),
        interpolated(s2),
        s1 <= s2,
        fast_index(s1) == fast_index(s2),
    ensures
        compress_u8_spec(s1) <= compress_u8_spec(s2),
{
    let i = fast_index(s1);
    lemma_interpolated(s1);
    lemma_interpolated(s2);
    lemma_samples_rise(i);
    lemma_chord_increases(s1, s2, fast_sample(i), fast_sample(i + 1), FAST_LUT[i], FAST_LUT[i + 1]);
    lemma_whole_increases(
        chord(s1, fast_sample(i), fast_sample(i + 1), FAST_LUT[i], FAST_LUT[i + 1]),
        chord(s2, fast_sample(i), fast_sample(i + 1), FAST_LUT[i], FAST_LUT[i + 1]),
    );
}

/// The code of a value is no less than that of the sample point below it.
pub proof fn lemma_segment_bottom(s: u32)
    requires
        interpolated(s),
    ensures
        code_u8(FAST_LUT[fast_index(s)]) <= compress_u8_spec(s),
{
    let i = fast_index(s);
    lemma_interpolated(s);
    lemma_samples_rise(i);
    let xl = fast_sample(i);
    let xr = fast_sample(i + 1);
    lemma_chord_at_left(xl, xr, FAST_LUT[i], FAST_LUT[i + 1]);
    lemma_chord_increases(xl, s, xl, xr, FAST_LUT[i], FAST_LUT[i + 1]);
    lemma_whole_increases(FAST_LUT[i], chord(s, xl, xr, FAST_LUT[i], FAST_LUT[i + 1]));
}

/// The code of a value is no more than that of the sample point above it,
/// where the chord ends at that point.
pub proof fn lemma_segment_top(s: u32)
    requires
        interpolated(s),
        segment_closes(fast_index(s)),
    ensures
        compress_u8_spec(s) <= code_u8(FAST_LUT[fast_index(s) + 1]),
{
    let i = fast_index(s);
    lemma_interpolated(s);
    lemma_samples_rise(i);
    let xl = fast_sample(i);
    let xr = fast_sample(i + 1);
    reveal(chord_end);
    lemma_chord_increases(s, xr, xl, xr, FAST_LUT[i], FAST_LUT[i + 1]);
    lemma_whole_increases(chord(s, xl, xr, FAST_LUT[i], FAST_LUT[i + 1]), FAST_LUT[i + 1]);
}

/// Where it interpolates, the code rises with the value.
pub proof fn lemma_rises_where_interpolated(s1: u32, s2: u32)
    requires
        interpolated(s1),
        interpolated(s2),
        s1 <= s2,
    ensures
        compress_u8_spec(s1) <= compress_u8_spec(s2),
{
    let i = fast_index(s1);
    let j = fast_index(s2);
    lemma_interpolated(s1);
    lemma_interpolated(s2);
    if i == j {
        lemma_rises_in_segment(s1, s2);
    } else {
        crate::segments::lemma_segments_close(i);
        lemma_segment_top(s1);
        lemma_sample_codes_rise(i + 1, j);
        lemma_segment_bottom(s2);
    }
}

/// On the linear piece the code rises with the value.
pub proof fn lemma_rises_on_linear_piece(s1: u32, s2: u32)
    requires
        s1 <= s2 <= FAST_START_AT,
    ensures
        compress_u8_spec(s1) <= compress_u8_spec(s2),
{
    lemma_less_by_rank(FAST_START_AT, s1);
    lemma_less_by_rank(FAST_START_AT, s2);
    lemma_less_by_rank(0, s1);
    lemma_less_by_rank(0, s2);
    assert(positive_part(s1) == s1);
    assert(positive_part(s2) == s2);
    lemma_fused_increases(s1, s2, LINEAR_SLOPE, HALF);
    lemma_whole_increases(fused_spec(s1, LINEAR_SLOPE, HALF), fused_spec(s2, LINEAR_SLOPE, HALF));
}

/// Code 11 at the last value of the linear piece.
proof fn lemma_last_of_linear_piece()
    ensures
        compress_u8_spec(FAST_START_AT) == 11,
{
    lemma2_to64();
    vstd::arithmetic::power2::lemma2_to64_rest();
    lemma_less_by_rank(FAST_START_AT, FAST_START_AT);
    lemma_less_by_rank(0, FAST_START_AT);
    lemma_fused_known(0x3b51_3018, 0x454d_e99a, 0x3f00_0000, 0xd1_3018, 117, 0xcd_e99a, 137, 0x80_0000, 125, 0x10_0000, 0xb042_65d4_c670, 48, 0x8000_0000_0000, 0x100_0000);
    assert(fused_spec(0x3b51_3018, LINEAR_SLOPE, HALF) == 0x4130_4266);
    lemma_whole_known(0x4130_4266, 0xb0_4266, 129, 0x10_0000);
}

/// Code 11 at the first value that is interpolated.
proof fn lemma_first_interpolated()
    ensures
        chord_code(0x3b51_3019, 0x3b4d_5e8d, 0x3b55_5e8d, 0x412d_7cbd, 0x4133_f4c4) == 11,
{
    reveal(chord_code);
    lemma2_to64();
    vstd::arithmetic::power2::lemma2_to64_rest();
    lemma_high_powers();
    assert(0xd5_5e8d * 0x1 - 0xcd_5e8d * 0x1 == 0x8_0000);
    lemma_sum_known(0x3b55_5e8d, 0x3b4d_5e8d, true, 0xd5_5e8d, 117, 0xcd_5e8d, 117, 0x1, 0x1, 0x8_0000, 20, 0x8_0000, 0x10);
    assert(sub_spec(0x3b55_5e8d, 0x3b4d_5e8d) == 0x3900_0000);
    assert(0xd1_3019 * 0x1 - 0xcd_5e8d * 0x1 == 0x3_d18c);
    lemma_sum_known(0x3b51_3019, 0x3b4d_5e8d, true, 0xd1_3019, 117, 0xcd_5e8d, 117, 0x1, 0x1, 0x3_d18c, 18, 0x2_0000, 0x40);
    assert(sub_spec(0x3b51_3019, 0x3b4d_5e8d) == 0x3874_6300);
    assert(0xb3_f4c4 * 0x1 - 0xad_7cbd * 0x1 == 0x6_7807);
    lemma_sum_known(0x4133_f4c4, 0x412d_7cbd, true, 0xb3_f4c4, 129, 0xad_7cbd, 129, 0x1, 0x1, 0x6_7807, 19, 0x4_0000, 0x20);
    assert(sub_spec(0x4133_f4c4, 0x412d_7cbd) == 0x3ecf_00e0);
    assert(0xcf_00e0 * 0xf4_6300 == 0xc59c_e2d6_a000);
    lemma_product_known(0x3ecf_00e0, 0x3874_6300, 0xcf_00e0, 124, 0xf4_6300, 111, 0xc59c_e2d6_a000, 48, 0x8000_0000_0000, 0x100_0000);
    assert(mul_spec(0x3ecf_00e0, 0x3874_6300) == 0x37c5_9ce3);
    assert(0xc5_9ce3 * 0x1_0000_0000_0000_0000 == 0x1_8b39_c600_0000_0000 * 0x80_0000 + 0x0);
    lemma_quotient_known(0x37c5_9ce3, 0x3900_0000, 0xc5_9ce3, 110, 0x80_0000, 113, 0x1_8b39_c600_0000_0000, 0x0, 66, 0x2_0000_0000_0000_0000, 0x400_0000_0000);
    assert(div_spec(0x37c5_9ce3, 0x3900_0000) == 0x3e45_9ce3);
    assert(0xad_7cbd * 0x40 + 0xc5_9ce3 * 0x1 == 0x2c24_cc23);
    lemma_sum_known(0x412d_7cbd, 0x3e45_9ce3, false, 0xad_7cbd, 129, 0xc5_9ce3, 123, 0x40, 0x1, 0x2c24_cc23, 30, 0x2000_0000, 0x40);
    assert(add_spec(0x412d_7cbd, 0x3e45_9ce3) == 0x4130_9331);
    lemma_whole_known(0x4130_9331, 0xb0_9331, 129, 0x10_0000);
}

/// The code does not fall from the linear piece to the interpolated one.
pub proof fn lemma_rises_between_pieces(s1: u32, s2: u32)
    requires
        s1 <= FAST_START_AT,
        interpolated(s2),
    ensures
        compress_u8_spec(s1) <= compress_u8_spec(s2),
{
    lemma_rises_on_linear_piece(s1, FAST_START_AT);
    lemma_last_of_linear_piece();
    lemma_first_interpolated();
    let first: u32 = 0x3b51_3019;
    lemma_interpolated(first);
    assert(fast_index(first) == 0);
    reveal(chord_code);
    assert(compress_u8_spec(first) == 11);
    lemma_rises_where_interpolated(first, s2);
}

/// The code of a pattern without the sign, up to infinity, rises with the
/// pattern.
pub proof fn lemma_rises_with_pattern(s1: u32, s2: u32)
    requires
        s1 <= s2 <= 0x7f80_0000,
    ensures
        compress_u8_spec(s1) <= compress_u8_spec(s2) <= 255,
{
    if s2 >= FAST_START_255_AT {
        lemma_less_by_rank(FAST_START_AT, s2);
        lemma_less_by_rank(s2, FAST_START_255_AT);
    } else if s1 > FAST_START_AT {
        lemma_rises_where_interpolated(s1, s2);
    } else if s2 > FAST_START_AT {
        lemma_rises_between_pieces(s1, s2);
    } else {
        lemma_rises_on_linear_piece(s1, s2);
    }
}

/// Compression rises with the linear value: of two numbers `a <= b`, the
/// first has no larger code.  A number that is not above zero has code 0.
pub proof fn lemma_compress_u8_increases(a: u32, b: u32)
    requires
        !is_nan(a),
        !is_nan(b),
        !less(b, a),
    ensures
        compress_u8_spec(a) <= compress_u8_spec(b),
        !less(0, a) ==> compress_u8_spec(a) == 0,
{
    lemma_less_by_rank(b, a);
    lemma_less_by_rank(0, a);
    lemma_less_by_rank(0, b);
    lemma_less_by_rank(FAST_START_AT, a);
    crate::round_trip::lemma_compress_u8_inverts_expand_u8(0);
    if less(0, a) {
        lemma_rises_with_pattern(a, b);
    } else {
        assert(compress_u8_value(a) == compress_u8_value(0));
    }
}

/// From one value to the next the code rises by one at most: no code is
/// passed over.
pub proof fn lemma_compress_u8_steps(s: u32)
    requires
        s < ONE,
    ensures
        compress_u8_spec(s) <= compress_u8_spec((s + 1) as u32) <= compress_u8_spec(s) + 1,
{
    let next = (s + 1) as u32;
    lemma_rises_with_pattern(s, next);
    let k = compress_u8_spec(s);
    if k < 255 {
        // the value whose code is the next code lies above `s`
        let e = (k + 1) as u8;
        let z = U8_TO_LINEAR_LUT[e as int];
        crate::round_trip::lemma_compress_u8_inverts_expand_u8(e);
        if e < 255 {
            crate::gamma::lemma_expand_u8_increases(e, 255);
        }
        if z <= s {
            lemma_rises_with_pattern(z, s);
        } else {
            lemma_rises_with_pattern(next, z);
        }
    }
}

/// On its linear piece the exact compression rises with the value: of two
/// numbers `s1 <= s2` up to [`S_0`], the first has no larger code.
pub proof fn lemma_compress_u8_precise_rises_on_linear_piece(s1: u32, s2: u32)
    requires
        !is_nan(s1),
        !is_nan(s2),
        !less(s2, s1),
        !less(S_0, s2),
    ensures
        compress_u8_precise_spec(s1) matches Step::Done(e1) && compress_u8_precise_spec(s2)
            matches Step::Done(e2) && e1 <= e2,
{
    lemma_less_by_rank(s2, s1);
    lemma_less_by_rank(S_0, s1);
    lemma_less_by_rank(S_0, s2);
    lemma_less_by_rank(0, s1);
    lemma_less_by_rank(0, s2);
    let x1 = positive_part(s1);
    let x2 = positive_part(s2);
    assert(x1 <= x2 <= S_0);
    crate::order::lemma_mul_commutes(x1, LINEAR_SLOPE);
    crate::order::lemma_mul_commutes(x2, LINEAR_SLOPE);
    lemma_mul_increases(LINEAR_SLOPE, x1, x2);
    let m1 = mul_spec(x1, LINEAR_SLOPE);
    let m2 = mul_spec(x2, LINEAR_SLOPE);
    crate::order::lemma_add_commutes(m1, HALF);
    crate::order::lemma_add_commutes(m2, HALF);
    lemma_add_increases(HALF, m1, m2);
    lemma_whole_increases(add_spec(m1, HALF), add_spec(m2, HALF));
}

/// From the power the exact compression rises with it: of two powers
/// `lower <= upper`, the first is finished to no larger code, and a power that is
/// not above zero to code 0.
pub proof fn lemma_compress_u8_precise_from_power_increases(lower: u32, upper: u32)
    requires
        !is_nan(lower),
        !is_nan(upper),
        !less(upper, lower),
    ensures
        code_u8(crate::maths::mul_add_spec(POWER_GAIN, lower, POWER_BIAS)) <= code_u8(
            crate::maths::mul_add_spec(POWER_GAIN, upper, POWER_BIAS),
        ),
        !less(0, lower) ==> code_u8(crate::maths::mul_add_spec(POWER_GAIN, lower, POWER_BIAS)) == 0,
{
    crate::order::lemma_scaled_whole_increases(POWER_GAIN, 0x4158_6666, lower, upper);
}

/// From the power 8-bit Rec.709 compression rises with it: of two powers
/// `lower <= upper`, the first is finished to no larger code, and a power that is
/// not above zero to code 16.
pub proof fn lemma_compress_rec709_8bit_from_power_increases(lower: u32, upper: u32)
    requires
        !is_nan(lower),
        !is_nan(upper),
        !less(upper, lower),
    ensures
        code_above(crate::maths::mul_add_spec(REC709_GAIN_8BIT, lower, REC709_BIAS_8BIT), 16, 219)
            <= code_above(
            crate::maths::mul_add_spec(REC709_GAIN_8BIT, upper, REC709_BIAS_8BIT),
            16,
            219,
        ),
        !less(0, lower) ==> code_above(
            crate::maths::mul_add_spec(REC709_GAIN_8BIT, lower, REC709_BIAS_8BIT),
            16,
            219,
        ) == 16,
{
    crate::order::lemma_scaled_whole_increases(REC709_GAIN_8BIT, 0x41a9_72b0, lower, upper);
}

/// From the power 10-bit Rec.709 compression rises with it: of two powers
/// `lower <= upper`, the first is finished to no larger code, and a power that is
/// not above zero to code 64.
pub proof fn lemma_compress_rec709_10bit_from_power_increases(lower: u32, upper: u32)
    requires
        !is_nan(lower),
        !is_nan(upper),
        !less(upper, lower),
    ensures
        code_above(crate::maths::mul_add_spec(REC709_GAIN_10BIT, lower, REC709_BIAS_10BIT), 64, 876)
            <= code_above(
            crate::maths::mul_add_spec(REC709_GAIN_10BIT, upper, REC709_BIAS_10BIT),
            64,
            876,
        ),
        !less(0, lower) ==> code_above(
            crate::maths::mul_add_spec(REC709_GAIN_10BIT, lower, REC709_BIAS_10BIT),
            64,
            876,
        ) == 64,
{
    crate::order::lemma_scaled_whole_increases(REC709_GAIN_10BIT, 0x42ac_72b0, lower, upper);
}

} // verus!
