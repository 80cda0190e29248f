//! The sRGB and Rec.709 transfer functions: gamma expansion of an encoded
//! component into linear light, and gamma compression back.

use vstd::prelude::*;
use crate::binary32::{ONE, less, min_spec, whole_part, positive_part, binade, significand, capped, number};
use crate::arith::{mul_spec, add_spec, sub_spec, div_spec, fused_spec};
use crate::maths::mul_add_spec;

verus! {

/// The linear value at which sRGB compression passes from its linear
/// piece to its power piece.
pub const S_0: u32 = 0x3b4d_2be7;

/// The encoded value at which sRGB expansion passes from its linear piece
/// to its power piece: `12.92 * S_0` ([`lemma_thresholds_agree`]).
pub const E_0: u32 = 0x3d25_ad0d;

/// Linear light for each 8-bit sRGB code.
pub const U8_TO_LINEAR_LUT: [u32; 256] = [
    0x0000_0000, 0x399f_22b4, 0x3a1f_22b4, 0x3a6e_b40e, 0x3a9f_22b4, 0x3ac6_eb61,
    0x3aee_b40e, 0x3b0b_3e5d, 0x3b1f_22b4, 0x3b33_070a, 0x3b46_eb61, 0x3b5b_518e,
    0x3b70_f18f, 0x3b83_e1c6, 0x3b8f_e616, 0x3b9c_87fd, 0x3ba9_c9b6, 0x3bb7_ad6f,
    0x3bc6_354a, 0x3bd5_6360, 0x3be5_39c1, 0x3bf5_ba71, 0x3c03_73b6, 0x3c0c_6153,
    0x3c15_a705, 0x3c1f_45be, 0x3c29_3e6b, 0x3c33_91f7, 0x3c3e_4149, 0x3c49_4d44,
    0x3c54_b6c9, 0x3c60_7eb4, 0x3c6c_a5df, 0x3c79_2d22, 0x3c83_0aa9, 0x3c89_af9f,
    0x3c90_85dc, 0x3c97_8dc6, 0x3c9e_c7c2, 0x3ca6_3433, 0x3cad_d37d, 0x3cb5_a602,
    0x3cbd_ac21, 0x3cc5_e63a, 0x3cce_54ac, 0x3cd6_f7d5, 0x3cdf_d010, 0x3ce8_ddba,
    0x3cf2_212d, 0x3cfb_9ac3, 0x3d02_a56a, 0x3d07_98dd, 0x3d0c_a7e6, 0x3d11_d2af,
    0x3d17_1964, 0x3d1c_7c30, 0x3d21_fb3c, 0x3d27_96b2, 0x3d2d_4ebb, 0x3d33_2381,
    0x3d39_152b, 0x3d3f_23e4, 0x3d45_4fd2, 0x3d4b_991d, 0x3d51_ffec, 0x3d58_8468,
    0x3d5f_26b6, 0x3d65_e6fd, 0x3d6c_c563, 0x3d73_c20e, 0x3d7a_dd24, 0x3d81_0b65,
    0x3d84_b793, 0x3d88_732e, 0x3d8c_3e48, 0x3d90_18f4, 0x3d94_0344, 0x3d97_fd49,
    0x3d9c_0715, 0x3da0_20ba, 0x3da4_4a4a, 0x3da8_83d6, 0x3dac_cd6f, 0x3db1_2727,
    0x3db5_910f, 0x3dba_0b38, 0x3dbe_95b3, 0x3dc3_3090, 0x3dc7_dbe0, 0x3dcc_97b4,
    0x3dd1_641d, 0x3dd6_412b, 0x3ddb_2eee, 0x3de0_2d76, 0x3de5_3cd4, 0x3dea_5d18,
    0x3def_8e51, 0x3df4_d090, 0x3dfa_23e5, 0x3dff_885e, 0x3e02_7f06, 0x3e05_427f,
    0x3e08_0ea2, 0x3e0a_e377, 0x3e0d_c104, 0x3e10_a753, 0x3e13_966a, 0x3e16_8e51,
    0x3e19_8f0f, 0x3e1c_98ac, 0x3e1f_ab30, 0x3e22_c6a1, 0x3e25_eb07, 0x3e29_186a,
    0x3e2c_4ed0, 0x3e2f_8e42, 0x3e32_d6c5, 0x3e36_2862, 0x3e39_831f, 0x3e3c_e703,
    0x3e40_5417, 0x3e43_ca60, 0x3e47_49e6, 0x3e4a_d2af, 0x3e4e_64c3, 0x3e52_0029,
    0x3e55_a4e7, 0x3e59_5305, 0x3e5d_0a89, 0x3e60_cb7a, 0x3e64_95df, 0x3e68_69be,
    0x3e6c_471f, 0x3e70_2e07, 0x3e74_1e7e, 0x3e78_188b, 0x3e7c_1c33, 0x3e80_14bf,
    0x3e82_2039, 0x3e84_308b, 0x3e86_45b8, 0x3e88_5fc3, 0x3e8a_7eb0, 0x3e8c_a281,
    0x3e8e_cb3b, 0x3e90_f8df, 0x3e93_2b72, 0x3e95_62f6, 0x3e97_9f6f, 0x3e99_e0e0,
    0x3e9c_274c, 0x3e9e_72b6, 0x3ea0_c321, 0x3ea3_1890, 0x3ea5_7307, 0x3ea7_d288,
    0x3eaa_3716, 0x3eac_a0b6, 0x3eaf_0f68, 0x3eb1_8332, 0x3eb3_fc15, 0x3eb6_7a14,
    0x3eb8_fd34, 0x3ebb_8576, 0x3ebe_12de, 0x3ec0_a56e, 0x3ec3_3d2a, 0x3ec5_da14,
    0x3ec8_7c30, 0x3ecb_2380, 0x3ecd_d008, 0x3ed0_81ca, 0x3ed3_38c9, 0x3ed5_f508,
    0x3ed8_b68a, 0x3edb_7d52, 0x3ede_4963, 0x3ee1_1abf, 0x3ee3_f169, 0x3ee6_cd65,
    0x3ee9_aeb5, 0x3eec_955b, 0x3eef_815c, 0x3ef2_72b8, 0x3ef5_6974, 0x3ef8_6593,
    0x3efb_6716, 0x3efe_6e00, 0x3f00_bd2b, 0x3f02_460c, 0x3f03_d1a5, 0x3f05_5ff7,
    0x3f06_f104, 0x3f08_84cd, 0x3f0a_1b54, 0x3f0b_b499, 0x3f0d_509f, 0x3f0e_ef65,
    0x3f10_90ef, 0x3f12_353d, 0x3f13_dc50, 0x3f15_862a, 0x3f17_32cc, 0x3f18_e237,
    0x3f1a_946e, 0x3f1c_4970, 0x3f1e_0140, 0x3f1f_bbde, 0x3f21_794d, 0x3f23_398c,
    0x3f24_fc9f, 0x3f26_c285, 0x3f28_8b41, 0x3f2a_56d2, 0x3f2c_253c, 0x3f2d_f67f,
    0x3f2f_ca9c, 0x3f31_a194, 0x3f33_7b6a, 0x3f35_581d, 0x3f37_37b0, 0x3f39_1a24,
    0x3f3a_ff7a, 0x3f3c_e7b2, 0x3f3e_d2cf, 0x3f40_c0d2, 0x3f42_b1bc, 0x3f44_a58e,
    0x3f46_9c49, 0x3f48_95ef, 0x3f4a_9280, 0x3f4c_91ff, 0x3f4e_946c, 0x3f50_99c9,
    0x3f52_a216, 0x3f54_ad56, 0x3f56_bb88, 0x3f58_ccaf, 0x3f5a_e0cc, 0x3f5c_f7df,
    0x3f5f_11ea, 0x3f61_2eef, 0x3f63_4eee, 0x3f65_71e9, 0x3f67_97e0, 0x3f69_c0d5,
    0x3f6b_ecca, 0x3f6e_1bbf, 0x3f70_4db5, 0x3f72_82ae, 0x3f74_baab, 0x3f76_f5ae,
    0x3f79_33b6, 0x3f7b_74c6, 0x3f7d_b8de, 0x3f80_0000,
];

/// The linear value above which [`compress_u8`] interpolates; up to it the
/// linear piece of the sRGB formula is used.
pub const FAST_START_AT: u32 = 0x3b51_3018;

/// The linear value from which [`compress_u8`] gives 255.
pub const FAST_START_255_AT: u32 = 0x3f7e_d8f4;

/// The pattern of the first sample point of [`FAST_LUT`].
pub const FAST_BITS_OFFSET: u32 = 994926221;

/// The sample points of [`FAST_LUT`] lie `2^FAST_SHIFT` patterns apart.
pub const FAST_SHIFT: u32 = 19;

/// The compression curve, scaled to 0..=255, at the sample points.
pub const FAST_LUT: [u32; 136] = [
    0x412d_7cbd, 0x4133_f4c4, 0x4139_8cfd, 0x413f_9846, 0x4145_909d, 0x414b_a25f,
    0x4151_8227, 0x415a_357d, 0x4164_afdf, 0x416e_c765, 0x4179_1f3d, 0x4181_adb6,
    0x4186_1da3, 0x418a_b2b2, 0x418f_2bbc, 0x4193_cd32, 0x4198_0568, 0x419c_2ef9,
    0x41a0_5477, 0x41a3_906f, 0x41a8_0de9, 0x41ab_c359, 0x41af_a86c, 0x41b5_ed23,
    0x41bd_0980, 0x41c4_3a11, 0x41ca_c28a, 0x41d1_34b1, 0x41d7_7436, 0x41dd_8b21,
    0x41e3_a2c0, 0x41e9_4e7f, 0x41ef_0a95, 0x41f4_5569, 0x41fa_458a, 0x41ff_4654,
    0x4202_5081, 0x4204_e299, 0x4207_710a, 0x420b_715e, 0x4210_3370, 0x4214_c8fb,
    0x4219_5874, 0x421d_a010, 0x4221_ebaf, 0x4226_00fe, 0x4229_f09e, 0x422d_c34a,
    0x4231_aaf1, 0x4235_553f, 0x4238_f9e8, 0x423c_75d8, 0x4240_00c7, 0x4243_7283,
    0x4246_c250, 0x424c_3c5d, 0x4252_9b93, 0x4258_bd84, 0x425e_b40a, 0x4264_7d61,
    0x426a_1ab9, 0x426f_87c9, 0x4274_e277, 0x427a_1842, 0x427f_24a9, 0x4282_13c9,
    0x4284_7678, 0x4286_de3f, 0x4289_29f3, 0x428b_7927, 0x428d_b839, 0x4291_6215,
    0x4295_9e74, 0x4299_b633, 0x429d_aea5, 0x42a1_89c3, 0x42a5_498f, 0x42a8_efaa,
    0x42ac_7bd0, 0x42af_f5f2, 0x42b3_5847, 0x42b6_a643, 0x42b9_e58c, 0x42bd_100a,
    0x42c0_2d61, 0x42c3_2ec7, 0x42c6_3770, 0x42cb_1a3a, 0x42d0_c02d, 0x42d6_3819,
    0x42db_8661, 0x42e0_ab74, 0x42e5_ad1e, 0x42ea_8ad8, 0x42ef_4b0a, 0x42f3_ec80,
    0x42f8_7167, 0x42fc_dd34, 0x4300_9843, 0x4302_b723, 0x4304_ca44, 0x4306_d2b9,
    0x4308_d183, 0x430c_1384, 0x430f_d9a7, 0x4313_8132, 0x4317_0a33, 0x431a_7a82,
    0x431d_d06c, 0x4321_109e, 0x4324_3be0, 0x4327_535e, 0x432a_57db, 0x432d_4b13,
    0x4330_2e35, 0x4333_01c5, 0x4335_c6a9, 0x4338_7de3, 0x433b_28a1, 0x433f_825c,
    0x4344_8c89, 0x4349_6ae5, 0x434e_23f7, 0x4352_b965, 0x4357_2e9d, 0x435b_857f,
    0x435f_c028, 0x4363_e05d, 0x4367_e7dd, 0x436b_d83b, 0x436f_b2c9, 0x4373_7876,
    0x4377_2b7e, 0x437a_cb96, 0x437e_5a67, 0x4382_0289,
];

/// 12.92, the slope of the linear piece of the sRGB formula.
pub const SRGB_SLOPE: u32 = 0x414e_b852;

/// 1.055, the gain of the power piece of the sRGB formula.
pub const SRGB_GAIN: u32 = 0x3f87_0a3d;

/// 0.055, the offset of the power piece of the sRGB formula.
pub const SRGB_OFFSET: u32 = 0x3d61_47ae;

/// 2.4, the exponent of sRGB expansion.
pub const EXPAND_EXPONENT: u32 = 0x4019_999a;

/// 1 / 2.4, the exponent of sRGB compression.
pub const COMPRESS_EXPONENT: u32 = 0x3ed5_5555;

/// `12.92 * 255`, the slope of the linear piece in codes.
pub const LINEAR_SLOPE: u32 = 0x454d_e99a;

/// One half, added before a value is cut to its whole part.
pub const HALF: u32 = 0x3f00_0000;

/// `1.055 * 255`, the gain of the power piece in codes.
pub const POWER_GAIN: u32 = 0x4386_8333;

/// `0.5 - 0.055 * 255`: the offset of the power piece in codes, and the
/// half that is added before a value is cut to its whole part.
pub const POWER_BIAS: u32 = 0xc158_6666;

/// 0.018, the linear value at which Rec.709 compression passes from its
/// linear piece to its power piece.
pub const REC709_BREAK: u32 = 0x3c93_74bc;

/// 2.2, the exponent of Rec.709 expansion.
pub const REC709_EXPAND_EXPONENT: u32 = 0x400c_cccd;

/// 1 / 2.2, the exponent of Rec.709 compression.
pub const REC709_COMPRESS_EXPONENT: u32 = 0x3ee8_ba2e;

/// The last code of the linear piece in the 8-bit Rec.709 coding:
/// 16 and the whole part of `4.5 * 0.018 * 219`.
pub const REC709_LINEAR_8BIT: u16 = 33;

/// The last code of the linear piece in the 10-bit Rec.709 coding:
/// 64 and the whole part of `4.5 * 0.018 * 876`.
pub const REC709_LINEAR_10BIT: u16 = 134;

/// `4.5 * 219`, the slope of the linear piece in 8-bit codes.
pub const REC709_SLOPE_8BIT: u32 = 0x4476_6000;

/// `4.5 * 876`, the slope of the linear piece in 10-bit codes.
pub const REC709_SLOPE_10BIT: u32 = 0x4576_6000;

/// `0.099 * 219`, the offset of the power piece in 8-bit codes.
pub const REC709_OFFSET_8BIT: u32 = 0x41ad_72b0;

/// `0.099 * 876`, the offset of the power piece in 10-bit codes.
pub const REC709_OFFSET_10BIT: u32 = 0x42ad_72b0;

/// `1.099 * 219`, the gain of the power piece in 8-bit codes.
pub const REC709_GAIN_8BIT: u32 = 0x4370_ae56;

/// `1.099 * 876`, the gain of the power piece in 10-bit codes.
pub const REC709_GAIN_10BIT: u32 = 0x4470_ae56;

/// `0.5 - 0.099 * 219`.
pub const REC709_BIAS_8BIT: u32 = 0xc1a9_72b0;

/// `0.5 - 0.099 * 876`.
pub const REC709_BIAS_10BIT: u32 = 0xc2ac_72b0;

/// How far a conversion has come without taking a power: to its result, or
/// to the number that is to be raised to a power.  Raising is left to the
/// caller, since the result of a power with a binary32 exponent is not
/// defined by the integers; `base` is positive wherever a conversion asks
/// for it to be raised.
#[derive(Clone, Copy, Debug, PartialEq, Eq)]
pub enum Step<T> {
    /// The result.
    Done(T),
    /// The result comes from `base` raised to `exponent`.
    Raise { base: u32, exponent: u32 },
}

/// Performs sRGB gamma expansion of an 8-bit code: the linear value of the
/// code, between 0 and 1, which rises with the code.  The table holds the
/// sRGB formula at each code, rounded once ([`crate::expansion`]).
pub fn expand_u8(e: u8) -> (s: u32)
    ensures
        s == U8_TO_LINEAR_LUT[e as int],
{
    U8_TO_LINEAR_LUT[e as usize]
}

/// Proof that each entry of the expansion table is a number from 0 to 1 and
/// larger than the entry before it.
pub proof fn lemma_table_rises(i: int)
    requires
        0 <= i < 255,
    ensures
        U8_TO_LINEAR_LUT[i] < U8_TO_LINEAR_LUT[i + 1] <= ONE,
{
}

/// Expansion rises with the code: a larger code has a larger linear value.
pub proof fn lemma_expand_u8_increases(i: u8, j: u8)
    requires
        i < j,
    ensures
        U8_TO_LINEAR_LUT[i as int] < U8_TO_LINEAR_LUT[j as int] <= ONE,
        less(U8_TO_LINEAR_LUT[i as int], U8_TO_LINEAR_LUT[j as int]),
    decreases j - i,
{
    lemma_table_rises(j - 1);
    if i + 1 < j {
        lemma_expand_u8_increases(i, (j - 1) as u8);
    }
    crate::binary32::lemma_less_by_rank(U8_TO_LINEAR_LUT[i as int], U8_TO_LINEAR_LUT[j as int]);
}

/// `x^5`.
pub open spec fn fifth_power(x: nat) -> nat {
    let x2 = x * x;
    let x4 = x2 * x2;
    x4 * x
}

/// `x^12`.
pub open spec fn twelfth_power(x: nat) -> nat {
    let x3 = x * x * x;
    let x6 = x3 * x3;
    x6 * x6
}

/// Whether `b` is the binary32 number nearest to `(num / den)^2.4`, which
/// is no power of two: the number lies less than half a unit in the last
/// place of `b` from `b`, which is to say that its fifth power, the twelfth
/// power of `num / den`, lies between the fifth powers of the two numbers
/// half a unit from `b`.
#[verifier::opaque]
pub open spec fn nearest_to_power(b: u32, num: nat, den: nat) -> bool {
    let sig = significand(b as nat);
    let t = binade(b as nat);
    let scale = vstd::arithmetic::power2::pow2((5 * (150 - t)) as nat);
    &&& b < 0x7f80_0000
    &&& 0 < t < 150
    &&& 0x80_0000 < sig
    &&& fifth_power((2 * sig - 1) as nat) * twelfth_power(den) < twelfth_power(num) * scale
    &&& twelfth_power(num) * scale < fifth_power(2 * sig + 1) * twelfth_power(den)
}

/// The sample interval of [`FAST_LUT`] in which the pattern `s` lies.
pub open spec fn fast_index(s: u32) -> int {
    (s - FAST_BITS_OFFSET) / 0x8_0000
}

/// The pattern of sample point `i` of [`FAST_LUT`].
pub open spec fn fast_sample(i: int) -> u32 {
    (FAST_BITS_OFFSET + i * 0x8_0000) as u32
}

/// The height at `s` of the chord through two points of a curve: the point
/// `x_left` with the height `left` and the point `x_right` with the height
/// `right`.
pub open spec fn chord(s: u32, x_left: u32, x_right: u32, left: u32, right: u32) -> u32 {
    let dx = sub_spec(x_right, x_left);
    let ox = sub_spec(s, x_left);
    add_spec(left, div_spec(mul_spec(sub_spec(right, left), ox), dx))
}

/// The whole part of the height of a chord.
#[verifier::opaque]
pub open spec fn chord_code(s: u32, x_left: u32, x_right: u32, left: u32, right: u32) -> nat {
    whole_part(chord(s, x_left, x_right, left, right))
}

/// The height of a chord at its right end.
#[verifier::opaque]
pub open spec fn chord_end(x_left: u32, x_right: u32, left: u32, right: u32) -> u32 {
    chord(x_right, x_left, x_right, left, right)
}

/// The value that [`compress_u8`] cuts to its whole part.  Up to
/// [`FAST_START_AT`], and for a NaN, that is the linear piece of the sRGB
/// formula plus one half, `12.92 * 255 * max(s, 0) + 0.5`, rounded once.
/// From there up to [`FAST_START_255_AT`] it lies on the chord of the
/// compression curve between the two sample points about `s`:
/// `left + (right - left) * (s - x_left) / (x_right - x_left)`.
pub open spec fn compress_u8_value(s: u32) -> u32 {
    if !less(FAST_START_AT, s) {
        fused_spec(
            if less(0, s) {
                s
            } else {
                0
            },
            LINEAR_SLOPE,
            HALF,
        )
    } else {
        let i = fast_index(s);
        chord(s, fast_sample(i), fast_sample(i + 1), FAST_LUT[i], FAST_LUT[i + 1])
    }
}

/// The 8-bit sRGB code of the linear value `s`, by the fast approximation.
pub open spec fn compress_u8_spec(s: u32) -> nat {
    if less(FAST_START_AT, s) && !less(s, FAST_START_255_AT) {
        255
    } else {
        capped(whole_part(compress_u8_value(s)), 255)
    }
}

/// Performs sRGB gamma compression of a linear value into an 8-bit code,
/// by interpolation in a table.  A value below 0 and a NaN give 0, a value
/// above 1 gives 255.  The code of the linear value of a code is that code
/// ([`crate::round_trip`]), and the code rises with the value, by one at
/// most from one value to the next ([`crate::rising`]).
pub fn compress_u8(s: u32) -> (e: u8)
    ensures
        e == compress_u8_spec(s),
{
    if !crate::binary32::gt(s, FAST_START_AT) {
        let x: u32 = if crate::binary32::lt(0, s) {
            s
        } else {
            0
        };
        proof {
            if less(0, s) {
                crate::binary32::lemma_less_by_rank(0, s);
                crate::binary32::lemma_less_by_rank(FAST_START_AT, s);
            }
        }
        crate::binary32::to_u8(crate::arith::fused(x, LINEAR_SLOPE, HALF))
    } else if crate::binary32::lt(s, FAST_START_255_AT) {
        proof {
            crate::binary32::lemma_less_by_rank(FAST_START_AT, s);
            crate::binary32::lemma_less_by_rank(s, FAST_START_255_AT);
        }
        assert(1u32 << FAST_SHIFT == 0x8_0000) by (bit_vector)
            requires
                FAST_SHIFT == 19,
        ;
        let step: u32 = 1 << FAST_SHIFT;
        let bits: u32 = s - FAST_BITS_OFFSET;
        let i: usize = (bits / step) as usize;
        let left = FAST_LUT[i];
        let right = FAST_LUT[i + 1];
        let x_left: u32 = FAST_BITS_OFFSET + (i as u32) * step;
        let x_right: u32 = x_left + step;
        let dx = crate::arith::sub(x_right, x_left);
        let ox = crate::arith::sub(s, x_left);
        crate::binary32::to_u8(
            crate::arith::add(
                left,
                crate::arith::div(crate::arith::mul(crate::arith::sub(right, left), ox), dx),
            ),
        )
    } else {
        255
    }
}

/// A value cut to a code of at most 255.
pub open spec fn code_u8(b: u32) -> nat {
    capped(whole_part(b), 255)
}

/// The exact compression of `s` as far as it goes without a power.  Up to
/// [`S_0`], and for a NaN, the code is the whole part of
/// `max(s, 0) * 12.92 * 255 + 0.5`; above, `min(s, 1)` is to be raised to
/// 1 / 2.4.
pub open spec fn compress_u8_precise_spec(s: u32) -> Step<u8> {
    if !less(S_0, s) {
        Step::Done(code_u8(mul_add_spec(positive_part(s), LINEAR_SLOPE, HALF)) as u8)
    } else {
        Step::Raise { base: min_spec(s, ONE), exponent: COMPRESS_EXPONENT }
    }
}

/// Performs sRGB gamma compression of a linear value into an 8-bit code by
/// the exact formula, as far as it goes without a power.
pub fn compress_u8_precise(s: u32) -> (r: Step<u8>)
    ensures
        r == compress_u8_precise_spec(s),
{
    if !crate::binary32::gt(s, S_0) {
        Step::Done(
            crate::binary32::to_u8(
                crate::maths::mul_add(crate::binary32::positive(s), LINEAR_SLOPE, HALF),
            ),
        )
    } else {
        Step::Raise { base: crate::binary32::min(s, ONE), exponent: COMPRESS_EXPONENT }
    }
}

/// The code of a linear value above [`S_0`], given that value raised to
/// 1 / 2.4: the whole part of `1.055 * 255 * power - 0.055 * 255 + 0.5`, at
/// most 255.
pub fn compress_u8_precise_from_power(power: u32) -> (e: u8)
    ensures
        e == code_u8(mul_add_spec(POWER_GAIN, power, POWER_BIAS)),
{
    crate::binary32::to_u8(crate::maths::mul_add(POWER_GAIN, power, POWER_BIAS))
}

/// The expansion of an encoded value as far as it goes without a power.
/// Up to [`E_0`], and for a NaN, the result is `e / 12.92`; above,
/// `(e + 0.055) / 1.055` raised to 2.4 is the result.
pub open spec fn expand_normalised_spec(e: u32) -> Step<u32> {
    if !less(E_0, e) {
        Step::Done(div_spec(e, SRGB_SLOPE))
    } else {
        Step::Raise {
            base: div_spec(add_spec(e, SRGB_OFFSET), SRGB_GAIN),
            exponent: EXPAND_EXPONENT,
        }
    }
}

/// Performs sRGB gamma expansion of an encoded value between 0 and 1, as
/// far as it goes without a power.
pub fn expand_normalised(e: u32) -> (r: Step<u32>)
    ensures
        r == expand_normalised_spec(e),
{
    if !crate::binary32::gt(e, E_0) {
        Step::Done(crate::arith::div(e, SRGB_SLOPE))
    } else {
        Step::Raise {
            base: crate::arith::div(crate::arith::add(e, SRGB_OFFSET), SRGB_GAIN),
            exponent: EXPAND_EXPONENT,
        }
    }
}

/// The compression of a linear value as far as it goes without a power.
/// The value is held between 0 and 1 first.  Up to [`S_0`], and for a NaN,
/// the result is `12.92 * max(s, 0)`, which is 0 for a negative value and
/// for a NaN; above, `min(s, 1)` is to be raised to 1 / 2.4.
pub open spec fn compress_normalised_spec(s: u32) -> Step<u32> {
    if !less(S_0, s) {
        Step::Done(mul_spec(SRGB_SLOPE, positive_part(s)))
    } else {
        Step::Raise { base: min_spec(s, ONE), exponent: COMPRESS_EXPONENT }
    }
}

/// The two thresholds agree: the encoded threshold is 12.92 times the
/// linear one, rounded once.
pub proof fn lemma_thresholds_agree()
    ensures
        E_0 == mul_spec(SRGB_SLOPE, S_0),
{
    vstd::arithmetic::power2::lemma2_to64();
    vstd::arithmetic::power2::lemma2_to64_rest();
    assert(0xce_b852 * 0xcd_2be7 == 0xa5ad_0d28_17fe);
    crate::known::lemma_product_known(
        0x414e_b852,
        0x3b4d_2be7,
        0xce_b852,
        129,
        0xcd_2be7,
        117,
        0xa5ad_0d28_17fe,
        48,
        0x8000_0000_0000,
        0x100_0000,
    );
}

/// Proof that compression holds its argument in the unit interval: what is
/// not above zero, a NaN among it, is compressed to zero, and what is above
/// one as one is.
pub proof fn lemma_compress_normalised_holds(s: u32)
    ensures
        !less(0, s) ==> compress_normalised_spec(s) == Step::Done(0u32),
        less(ONE, s) ==> compress_normalised_spec(s) == (Step::<u32>::Raise {
            base: ONE,
            exponent: COMPRESS_EXPONENT,
        }),
{
    crate::binary32::lemma_less_by_rank(S_0, 0);
    if !crate::binary32::is_nan(s) {
        crate::binary32::lemma_less_by_rank(0, s);
        crate::binary32::lemma_less_by_rank(S_0, s);
        crate::binary32::lemma_less_by_rank(ONE, s);
    }
    assert(significand(SRGB_SLOPE as nat) * 0 == 0) by (nonlinear_arith);
    crate::order::lemma_round_zero(binade(SRGB_SLOPE as nat) + 0 - 149);
    assert(mul_spec(SRGB_SLOPE, 0) == 0);
}

/// Performs sRGB gamma compression of a linear value into an encoded value
/// between 0 and 1, as far as it goes without a power.  A value below 0
/// and a NaN give 0; a value above 1 is compressed as 1 is.
pub fn compress_normalised(s: u32) -> (r: Step<u32>)
    ensures
        r == compress_normalised_spec(s),
        !less(0, s) ==> r == Step::Done(0u32),
        less(ONE, s) ==> r == (Step::<u32>::Raise { base: ONE, exponent: COMPRESS_EXPONENT }),
{
    proof {
        lemma_compress_normalised_holds(s);
    }
    if !crate::binary32::gt(s, S_0) {
        Step::Done(crate::arith::mul(SRGB_SLOPE, crate::binary32::positive(s)))
    } else {
        Step::Raise { base: crate::binary32::min(s, ONE), exponent: COMPRESS_EXPONENT }
    }
}

/// The encoded value of a linear value above [`S_0`], given that value
/// raised to 1 / 2.4: `1.055 * power - 0.055`.
pub fn compress_normalised_from_power(power: u32) -> (e: u32)
    ensures
        e == mul_add_spec(SRGB_GAIN, power, crate::binary32::pattern(true, SRGB_OFFSET as nat)),
{
    crate::maths::mul_add(SRGB_GAIN, power, crate::binary32::negate(SRGB_OFFSET))
}

/// Rec.709 expansion of the code `e` of a coding whose range runs from
/// `low` to `high` and whose linear piece ends at the code `linear`, as far
/// as it goes without a power.  A code up to `low` gives 0 and a code from
/// `high` gives 1; on the linear piece, `e - low` is divided by `slope`; on
/// the power piece, `(e - low + offset) / gain` raised to 2.2 is the result.
pub open spec fn expand_rec709_spec(
    e: int,
    low: int,
    linear: int,
    high: int,
    slope: u32,
    offset: u32,
    gain: u32,
) -> Step<u32> {
    if e <= low {
        Step::Done(0)
    } else if e <= linear {
        Step::Done(div_spec(number((e - low) as nat), slope))
    } else if e < high {
        Step::Raise {
            base: div_spec(add_spec(number((e - low) as nat), offset), gain),
            exponent: REC709_EXPAND_EXPONENT,
        }
    } else {
        Step::Done(ONE)
    }
}

fn expand_rec709(e: u16, low: u16, linear: u16, high: u16, slope: u32, offset: u32, gain: u32) -> (r:
    Step<u32>)
    requires
        low <= linear < high,
    ensures
        r == expand_rec709_spec(e as int, low as int, linear as int, high as int, slope, offset, gain),
{
    if e <= low {
        Step::Done(0)
    } else if e <= linear {
        Step::Done(crate::arith::div(crate::binary32::from_u32((e - low) as u32), slope))
    } else if e < high {
        Step::Raise {
            base: crate::arith::div(
                crate::arith::add(crate::binary32::from_u32((e - low) as u32), offset),
                gain,
            ),
            exponent: REC709_EXPAND_EXPONENT,
        }
    } else {
        Step::Done(ONE)
    }
}

/// Performs Rec.709 gamma expansion of an 8-bit code, whose range is 16 to
/// 235, as far as it goes without a power.
pub fn expand_rec709_8bit(e: u8) -> (r: Step<u32>)
    ensures
        r == expand_rec709_spec(
            e as int,
            16,
            33,
            235,
            REC709_SLOPE_8BIT,
            REC709_OFFSET_8BIT,
            REC709_GAIN_8BIT,
        ),
{
    expand_rec709(
        e as u16,
        16,
        REC709_LINEAR_8BIT,
        235,
        REC709_SLOPE_8BIT,
        REC709_OFFSET_8BIT,
        REC709_GAIN_8BIT,
    )
}

/// Performs Rec.709 gamma expansion of a 10-bit code, whose range is 64 to
/// 940, as far as it goes without a power.
pub fn expand_rec709_10bit(e: u16) -> (r: Step<u32>)
    ensures
        r == expand_rec709_spec(
            e as int,
            64,
            134,
            940,
            REC709_SLOPE_10BIT,
            REC709_OFFSET_10BIT,
            REC709_GAIN_10BIT,
        ),
{
    expand_rec709(
        e,
        64,
        REC709_LINEAR_10BIT,
        940,
        REC709_SLOPE_10BIT,
        REC709_OFFSET_10BIT,
        REC709_GAIN_10BIT,
    )
}

/// Proof that the pattern of four times a positive number below `2^22` is
/// two binades above the pattern of the number.
pub proof fn lemma_number_four_times(n: nat)
    requires
        0 < n < 0x40_0000,
    ensures
        number(4 * n) == crate::arith::four_times(number(n)),
        crate::arith::can_be_four_times(number(n)),
        0x100_0000 <= number(n),
        crate::binary32::binade(number(n) as nat) <= 200,
{
    let l = crate::rounding::bit_length(n);
    let k = (24 - l) as nat;
    crate::rounding::lemma_bit_length_times_four(n);
    crate::rounding::lemma_bit_length_bounds(n);
    vstd::arithmetic::power2::lemma2_to64();
    if l > 23 {
        vstd::arithmetic::power2::lemma_pow2_strictly_increases(22, (l - 1) as nat);
    }
    assert(1 <= l <= 22);
    vstd::arithmetic::power2::lemma_pow2_adds(2, (22 - l) as nat);
    let p = vstd::arithmetic::power2::pow2(k);
    let quarter = vstd::arithmetic::power2::pow2((22 - l) as nat);
    assert(4 * n * quarter == n * p) by (nonlinear_arith)
        requires
            p == 4 * quarter,
    ;
    crate::rounding::lemma_significand_bounds(n, 149);
    assert(crate::rounding::binade_of(n, 149) == l + 125);
    assert(crate::rounding::binade_of(4 * n, 149) == l + 127);
    assert(crate::rounding::significand_at(n, 149, l + 125) == n * p);
    if l == 22 {
        assert(4 * n * quarter == 4 * n) by (nonlinear_arith)
            requires
                quarter == 1,
        ;
        assert(crate::rounding::nearest_even(4 * n, 1) == 4 * n);
    }
    assert(crate::rounding::significand_at(4 * n, 149, l + 127) == 4 * n * quarter);
    assert(crate::rounding::round_dyadic(n, 149) == (l + 125) * 0x80_0000 + n * p);
    assert(crate::rounding::round_dyadic(4 * n, 149) == (l + 127) * 0x80_0000 + n * p);
}

/// The two Rec.709 codings expand alike: a code of the 8-bit range and
/// four times that code in the 10-bit coding come to the same result, or to
/// the same number to be raised to the same power.
pub proof fn lemma_rec709_codings_expand_alike(v: u8)
    requires
        16 <= v <= 235,
    ensures
        expand_rec709_spec(
            v as int,
            16,
            33,
            235,
            REC709_SLOPE_8BIT,
            REC709_OFFSET_8BIT,
            REC709_GAIN_8BIT,
        ) == expand_rec709_spec(
            4 * v,
            64,
            134,
            940,
            REC709_SLOPE_10BIT,
            REC709_OFFSET_10BIT,
            REC709_GAIN_10BIT,
        ),
{
    if 16 < v < 235 {
        let n = (v - 16) as nat;
        lemma_number_four_times(n);
        assert(number((4 * v - 64) as nat) == number(4 * n));
        if v <= 33 {
            crate::arith::lemma_div_four_times(number(n), REC709_SLOPE_8BIT);
        } else {
            crate::arith::lemma_add_four_times(number(n), REC709_OFFSET_8BIT);
            crate::arith::lemma_div_four_times(
                add_spec(number(n), REC709_OFFSET_8BIT),
                REC709_GAIN_8BIT,
            );
        }
    }
}

/// The code `low` and the whole part of `b`, which counts for at most
/// `range`.
pub open spec fn code_above(b: u32, low: nat, range: nat) -> nat {
    low + capped(whole_part(b), range)
}

/// Whether `r` is the Rec.709 compression of the linear value `s` as far
/// as it goes without a power.  Up to 0.018, and for a NaN, the code is
/// `low` and the whole part of `max(s, 0) * slope + 0.5`; above, `min(s, 1)`
/// is to be raised to 1 / 2.2.
pub open spec fn compress_rec709_spec(s: u32, low: nat, range: nat, slope: u32, r: Step<nat>) -> bool {
    if !less(REC709_BREAK, s) {
        r == Step::Done(code_above(mul_add_spec(positive_part(s), slope, HALF), low, range))
    } else {
        r == Step::<nat>::Raise { base: min_spec(s, ONE), exponent: REC709_COMPRESS_EXPONENT }
    }
}

/// A step whose code is 8 bits wide, with the code as a number.
pub open spec fn step_of_u8(r: Step<u8>) -> Step<nat> {
    match r {
        Step::Done(e) => Step::Done(e as nat),
        Step::Raise { base, exponent } => Step::Raise { base, exponent },
    }
}

/// A step whose code is 16 bits wide, with the code as a number.
pub open spec fn step_of_u16(r: Step<u16>) -> Step<nat> {
    match r {
        Step::Done(e) => Step::Done(e as nat),
        Step::Raise { base, exponent } => Step::Raise { base, exponent },
    }
}

fn compress_rec709(s: u32, low: u16, range: u16, slope: u32) -> (r: Step<u16>)
    requires
        low + range < 0x1_0000,
    ensures
        compress_rec709_spec(s, low as nat, range as nat, slope, step_of_u16(r)),
        r matches Step::Done(e) ==> e <= low + range,
{
    if !crate::binary32::gt(s, REC709_BREAK) {
        let whole = crate::binary32::truncate(
            crate::maths::mul_add(crate::binary32::positive(s), slope, HALF),
            range as u32,
        );
        Step::Done(low + (whole as u16))
    } else {
        Step::Raise { base: crate::binary32::min(s, ONE), exponent: REC709_COMPRESS_EXPONENT }
    }
}

/// Performs Rec.709 gamma compression of a linear value into an 8-bit code
/// of the range 16 to 235, as far as it goes without a power.
pub fn compress_rec709_8bit(s: u32) -> (r: Step<u8>)
    ensures
        compress_rec709_spec(s, 16, 219, REC709_SLOPE_8BIT, step_of_u8(r)),
{
    match compress_rec709(s, 16, 219, REC709_SLOPE_8BIT) {
        Step::Done(e) => Step::Done(e as u8),
        Step::Raise { base, exponent } => Step::Raise { base, exponent },
    }
}

/// Performs Rec.709 gamma compression of a linear value into a 10-bit code
/// of the range 64 to 940, as far as it goes without a power.
pub fn compress_rec709_10bit(s: u32) -> (r: Step<u16>)
    ensures
        compress_rec709_spec(s, 64, 876, REC709_SLOPE_10BIT, step_of_u16(r)),
{
    compress_rec709(s, 64, 876, REC709_SLOPE_10BIT)
}

/// The 8-bit Rec.709 code of a linear value above 0.018, given that value
/// raised to 1 / 2.2: 16 and the whole part of
/// `1.099 * 219 * power - 0.099 * 219 + 0.5`, at most 235.
pub fn compress_rec709_8bit_from_power(power: u32) -> (e: u8)
    ensures
        e == code_above(mul_add_spec(REC709_GAIN_8BIT, power, REC709_BIAS_8BIT), 16, 219),
{
    let whole = crate::binary32::truncate(
        crate::maths::mul_add(REC709_GAIN_8BIT, power, REC709_BIAS_8BIT),
        219,
    );
    16 + (whole as u8)
}

/// The 10-bit Rec.709 code of a linear value above 0.018, given that value
/// raised to 1 / 2.2: 64 and the whole part of
/// `1.099 * 876 * power - 0.099 * 876 + 0.5`, at most 940.
pub fn compress_rec709_10bit_from_power(power: u32) -> (e: u16)
    ensures
        e == code_above(mul_add_spec(REC709_GAIN_10BIT, power, REC709_BIAS_10BIT), 64, 876),
{
    let whole = crate::binary32::truncate(
        crate::maths::mul_add(REC709_GAIN_10BIT, power, REC709_BIAS_10BIT),
        876,
    );
    64 + (whole as u16)
}

/// Expands each component of a 24-bit sRGB colour into linear light.
pub fn linear_from_u8(encoded: [u8; 3]) -> (linear: [u32; 3])
    ensures
        forall|i: int| 0 <= i < 3 ==> linear[i] == U8_TO_LINEAR_LUT[#[trigger] encoded[i] as int],
{
    crate::arr_map(encoded, expand_u8)
}

/// Compresses each component of a linear colour into an 8-bit sRGB code.
pub fn u8_from_linear(linear: [u32; 3]) -> (encoded: [u8; 3])
    ensures
        forall|i: int| 0 <= i < 3 ==> encoded[i] == compress_u8_spec(#[trigger] linear[i]),
{
    crate::arr_map(linear, compress_u8)
}

/// Expands each component of a normalised sRGB colour, as far as that goes
/// without a power.
pub fn linear_from_normalised(normalised: [u32; 3]) -> (linear: [Step<u32>; 3])
    ensures
        forall|i: int| 0 <= i < 3 ==> linear[i] == expand_normalised_spec(#[trigger] normalised[i]),
{
    crate::arr_map(normalised, expand_normalised)
}

/// Compresses each component of a linear colour into normalised sRGB, as
/// far as that goes without a power.
pub fn normalised_from_linear(linear: [u32; 3]) -> (normalised: [Step<u32>; 3])
    ensures
        forall|i: int| 0 <= i < 3 ==> normalised[i] == compress_normalised_spec(#[trigger] linear[i]),
{
    crate::arr_map(linear, compress_normalised)
}

} // verus!
