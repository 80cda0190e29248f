//! The constants of the sRGB space derive from its chromaticities.
//!
//! The white point D65 has the chromaticity x = 0.312713, y = 0.329016, and
//! the primaries have (0.64, 0.33), (0.30, 0.60) and (0.15, 0.06).  The
//! basis matrix from linear sRGB to XYZ is the one matrix whose columns have
//! the chromaticities of the primaries and whose rows sum to the white
//! point with Y = 1; its entries are fractions, given here, and so are
//! those of its inverse.  Each binary32 constant is the quotient of the
//! numerator and the denominator of its fraction, rounded once.

use vstd::prelude::*;
use vstd::arithmetic::power2::{lemma2_to64, lemma2_to64_rest};
use crate::arith::div_spec;
use crate::binary32::{number, pattern, ONE};
use crate::known::{lemma_high_powers, lemma_number_known, lemma_quotient_known};
use crate::xyz::{
    D65_XYZ, D65_xyY, PRIMARIES_XYZ, PRIMARIES_xyY, SRGB_FROM_XYZ_MATRIX, XYZ_FROM_SRGB_MATRIX,
};

verus! {

/// The numerators of the basis matrix from linear sRGB to XYZ.
pub const XYZ_FROM_SRGB_NUMERATORS: [[u32; 3]; 3] = [
    [4223344, 14647555, 14783675],
    [2903549, 14647555, 2956735],
    [263959, 14647555, 233582065],
];

/// The denominators of the basis matrix from linear sRGB to XYZ.
pub const XYZ_FROM_SRGB_DENOMINATORS: [[u32; 3]; 3] = [
    [10240623, 40962492, 81924984],
    [13654164, 20481246, 40962492],
    [13654164, 122887476, 245774952],
];

/// The numerators of the basis matrix from XYZ to linear sRGB.
pub const SRGB_FROM_XYZ_NUMERATORS: [[i32; 3]; 3] = [
    [4277208, -2028932, -658032],
    [-70985202, 137391598, 3043398],
    [164508, -603196, 3125652],
];

/// The denominators of the basis matrix from XYZ to linear sRGB.
pub const SRGB_FROM_XYZ_DENOMINATORS: [[u32; 3]; 3] = [
    [1319795, 1319795, 1319795],
    [73237775, 73237775, 73237775],
    [2956735, 2956735, 2956735],
];

/// The binary32 quotient of two integers: each is rounded to binary32,
/// which changes an integer from `2^24` on only, and so is their quotient.
pub open spec fn quotient(n: int, d: nat) -> u32 {
    if n >= 0 {
        div_spec(number(n as nat), number(d))
    } else {
        div_spec(pattern(true, number((-n) as nat) as nat), number(d))
    }
}

/// 4223344 / 10240623.
proof fn lemma_quotient_4223344_by_10240623()
    ensures
        quotient(4223344, 10240623) == 0x3ed3_2784,
{
    lemma2_to64();
    lemma2_to64_rest();
    lemma_high_powers();
    lemma_number_known(0x40_7170, 23, 0x40_0000, 0x2);
    assert(number(4223344) == 0x4a80_e2e0);
    lemma_number_known(0x9c_426f, 24, 0x80_0000, 0x1);
    assert(number(10240623) == 0x4b1c_426f);
    assert(0x80_e2e0 * 0x1_0000_0000_0000_0000 == 0xd327_83b4_5e2e_ca02 * 0x9c_426f + 0x69_e522);
    lemma_quotient_known(0x4a80_e2e0, 0x4b1c_426f, 0x80_e2e0, 148, 0x9c_426f, 149, 0xd327_83b4_5e2e_ca02, 0x69_e522, 65, 0x1_0000_0000_0000_0000, 0x200_0000_0000);
    assert(div_spec(0x4a80_e2e0, 0x4b1c_426f) == 0x3ed3_2784);
}

/// 4277208 / 1319795.
proof fn lemma_quotient_4277208_by_1319795()
    ensures
        quotient(4277208, 1319795) == 0x404f_6978,
{
    lemma2_to64();
    lemma2_to64_rest();
    lemma_high_powers();
    lemma_number_known(0x41_43d8, 23, 0x40_0000, 0x2);
    assert(number(4277208) == 0x4a82_87b0);
    lemma_number_known(0x14_2373, 21, 0x10_0000, 0x8);
    assert(number(1319795) == 0x49a1_1b98);
    assert(0x82_87b0 * 0x1_0000_0000_0000_0000 == 0xcf69_7868_6e7f_bead * 0xa1_1b98 + 0x3d_8a48);
    lemma_quotient_known(0x4a82_87b0, 0x49a1_1b98, 0x82_87b0, 148, 0xa1_1b98, 146, 0xcf69_7868_6e7f_bead, 0x3d_8a48, 65, 0x1_0000_0000_0000_0000, 0x200_0000_0000);
    assert(div_spec(0x4a82_87b0, 0x49a1_1b98) == 0x404f_6978);
}

/// 14647555 / 40962492.
proof fn lemma_quotient_14647555_by_40962492()
    ensures
        quotient(14647555, 40962492) == 0x3eb7_1553,
{
    lemma2_to64();
    lemma2_to64_rest();
    lemma_high_powers();
    lemma_number_known(0xdf_8103, 24, 0x80_0000, 0x1);
    assert(number(14647555) == 0x4b5f_8103);
    lemma_number_known(0x271_09bc, 26, 0x200_0000, 0x4);
    assert(number(40962492) == 0x4c1c_426f);
    assert(0xdf_8103 * 0x1_0000_0000_0000_0000 == 0x1_6e2a_a621_ee4e_85a0 * 0x9c_426f + 0xcfa0);
    lemma_quotient_known(0x4b5f_8103, 0x4c1c_426f, 0xdf_8103, 149, 0x9c_426f, 151, 0x1_6e2a_a621_ee4e_85a0, 0xcfa0, 66, 0x2_0000_0000_0000_0000, 0x400_0000_0000);
    assert(div_spec(0x4b5f_8103, 0x4c1c_426f) == 0x3eb7_1553);
}

/// -2028932 / 1319795.
proof fn lemma_quotient_minus_2028932_by_1319795()
    ensures
        quotient(-2028932, 1319795) == 0xbfc4_c686,
{
    lemma2_to64();
    lemma2_to64_rest();
    lemma_high_powers();
    lemma_number_known(0x1e_f584, 21, 0x10_0000, 0x8);
    assert(number(2028932) == 0x49f7_ac20);
    lemma_number_known(0x14_2373, 21, 0x10_0000, 0x8);
    assert(number(1319795) == 0x49a1_1b98);
    assert(0xf7_ac20 * 0x1_0000_0000_0000_0000 == 0x1_898d_0bd9_d83a_97bf * 0xa1_1b98 + 0x15_c198);
    lemma_quotient_known(0x49f7_ac20, 0x49a1_1b98, 0xf7_ac20, 146, 0xa1_1b98, 146, 0x1_898d_0bd9_d83a_97bf, 0x15_c198, 66, 0x2_0000_0000_0000_0000, 0x400_0000_0000);
    assert(div_spec(0x49f7_ac20, 0x49a1_1b98) == 0x3fc4_c686);
}

/// 14783675 / 81924984.
proof fn lemma_quotient_14783675_by_81924984()
    ensures
        quotient(14783675, 81924984) == 0x3e38_c8e2,
{
    lemma2_to64();
    lemma2_to64_rest();
    lemma_high_powers();
    lemma_number_known(0xe1_94bb, 24, 0x80_0000, 0x1);
    assert(number(14783675) == 0x4b61_94bb);
    lemma_number_known(0x4e2_1378, 27, 0x400_0000, 0x8);
    assert(number(81924984) == 0x4c9c_426f);
    assert(0xe1_94bb * 0x1_0000_0000_0000_0000 == 0x1_7191_c392_ab4d_8622 * 0x9c_426f + 0x16_1342);
    lemma_quotient_known(0x4b61_94bb, 0x4c9c_426f, 0xe1_94bb, 149, 0x9c_426f, 152, 0x1_7191_c392_ab4d_8622, 0x16_1342, 66, 0x2_0000_0000_0000_0000, 0x400_0000_0000);
    assert(div_spec(0x4b61_94bb, 0x4c9c_426f) == 0x3e38_c8e2);
}

/// -658032 / 1319795.
proof fn lemma_quotient_minus_658032_by_1319795()
    ensures
        quotient(-658032, 1319795) == 0xbeff_46bc,
{
    lemma2_to64();
    lemma2_to64_rest();
    lemma_high_powers();
    lemma_number_known(0xa_0a70, 20, 0x8_0000, 0x10);
    assert(number(658032) == 0x4920_a700);
    lemma_number_known(0x14_2373, 21, 0x10_0000, 0x8);
    assert(number(1319795) == 0x49a1_1b98);
    assert(0xa0_a700 * 0x1_0000_0000_0000_0000 == 0xff46_bb94_393a_c34b * 0xa1_1b98 + 0x58_2278);
    lemma_quotient_known(0x4920_a700, 0x49a1_1b98, 0xa0_a700, 145, 0xa1_1b98, 146, 0xff46_bb94_393a_c34b, 0x58_2278, 65, 0x1_0000_0000_0000_0000, 0x200_0000_0000);
    assert(div_spec(0x4920_a700, 0x49a1_1b98) == 0x3eff_46bc);
}

/// 2903549 / 13654164.
proof fn lemma_quotient_2903549_by_13654164()
    ensures
        quotient(2903549, 13654164) == 0x3e59_c0c0,
{
    lemma2_to64();
    lemma2_to64_rest();
    lemma_high_powers();
    lemma_number_known(0x2c_4dfd, 22, 0x20_0000, 0x4);
    assert(number(2903549) == 0x4a31_37f4);
    lemma_number_known(0xd0_5894, 24, 0x80_0000, 0x1);
    assert(number(13654164) == 0x4b50_5894);
    assert(0xb1_37f4 * 0x1_0000_0000_0000_0000 == 0xd9c0_bfd2_0120_4052 * 0xd0_5894 + 0x9e_a098);
    lemma_quotient_known(0x4a31_37f4, 0x4b50_5894, 0xb1_37f4, 147, 0xd0_5894, 149, 0xd9c0_bfd2_0120_4052, 0x9e_a098, 65, 0x1_0000_0000_0000_0000, 0x200_0000_0000);
    assert(div_spec(0x4a31_37f4, 0x4b50_5894) == 0x3e59_c0c0);
}

/// -70985202 / 73237775.
proof fn lemma_quotient_minus_70985202_by_73237775()
    ensures
        quotient(-70985202, 73237775) == 0xbf78_204f,
{
    lemma2_to64();
    lemma2_to64_rest();
    lemma_high_powers();
    lemma_number_known(0x43b_25f2, 27, 0x400_0000, 0x8);
    assert(number(70985202) == 0x4c87_64be);
    lemma_number_known(0x45d_850f, 27, 0x400_0000, 0x8);
    assert(number(73237775) == 0x4c8b_b0a2);
    assert(0x87_64be * 0x1_0000_0000_0000_0000 == 0xf820_4ec5_ccbb_fe84 * 0x8b_b0a2 + 0x62_3078);
    lemma_quotient_known(0x4c87_64be, 0x4c8b_b0a2, 0x87_64be, 152, 0x8b_b0a2, 152, 0xf820_4ec5_ccbb_fe84, 0x62_3078, 65, 0x1_0000_0000_0000_0000, 0x200_0000_0000);
    assert(div_spec(0x4c87_64be, 0x4c8b_b0a2) == 0x3f78_204f);
}

/// 14647555 / 20481246.
proof fn lemma_quotient_14647555_by_20481246()
    ensures
        quotient(14647555, 20481246) == 0x3f37_1553,
{
    lemma2_to64();
    lemma2_to64_rest();
    lemma_high_powers();
    lemma_number_known(0xdf_8103, 24, 0x80_0000, 0x1);
    assert(number(14647555) == 0x4b5f_8103);
    lemma_number_known(0x138_84de, 25, 0x100_0000, 0x2);
    assert(number(20481246) == 0x4b9c_426f);
    assert(0xdf_8103 * 0x1_0000_0000_0000_0000 == 0x1_6e2a_a621_ee4e_85a0 * 0x9c_426f + 0xcfa0);
    lemma_quotient_known(0x4b5f_8103, 0x4b9c_426f, 0xdf_8103, 149, 0x9c_426f, 150, 0x1_6e2a_a621_ee4e_85a0, 0xcfa0, 66, 0x2_0000_0000_0000_0000, 0x400_0000_0000);
    assert(div_spec(0x4b5f_8103, 0x4b9c_426f) == 0x3f37_1553);
}

/// 137391598 / 73237775.
proof fn lemma_quotient_137391598_by_73237775()
    ensures
        quotient(137391598, 73237775) == 0x3ff0_1faa,
{
    lemma2_to64();
    lemma2_to64_rest();
    lemma_high_powers();
    lemma_number_known(0x830_6dee, 28, 0x800_0000, 0x10);
    assert(number(137391598) == 0x4d03_06df);
    lemma_number_known(0x45d_850f, 27, 0x400_0000, 0x8);
    assert(number(73237775) == 0x4c8b_b0a2);
    assert(0x83_06df * 0x1_0000_0000_0000_0000 == 0xf01f_a9f3_5504_b9ec * 0x8b_b0a2 + 0xc_18a8);
    lemma_quotient_known(0x4d03_06df, 0x4c8b_b0a2, 0x83_06df, 153, 0x8b_b0a2, 152, 0xf01f_a9f3_5504_b9ec, 0xc_18a8, 65, 0x1_0000_0000_0000_0000, 0x200_0000_0000);
    assert(div_spec(0x4d03_06df, 0x4c8b_b0a2) == 0x3ff0_1faa);
}

/// 2956735 / 40962492.
proof fn lemma_quotient_2956735_by_40962492()
    ensures
        quotient(2956735, 40962492) == 0x3d93_d3e8,
{
    lemma2_to64();
    lemma2_to64_rest();
    lemma_high_powers();
    lemma_number_known(0x2d_1dbf, 22, 0x20_0000, 0x4);
    assert(number(2956735) == 0x4a34_76fc);
    lemma_number_known(0x271_09bc, 26, 0x200_0000, 0x4);
    assert(number(40962492) == 0x4c1c_426f);
    assert(0xb4_76fc * 0x1_0000_0000_0000_0000 == 0x1_27a7_cfa8_890a_d1b4 * 0x9c_426f + 0x8e_aaf4);
    lemma_quotient_known(0x4a34_76fc, 0x4c1c_426f, 0xb4_76fc, 147, 0x9c_426f, 151, 0x1_27a7_cfa8_890a_d1b4, 0x8e_aaf4, 66, 0x2_0000_0000_0000_0000, 0x400_0000_0000);
    assert(div_spec(0x4a34_76fc, 0x4c1c_426f) == 0x3d93_d3e8);
}

/// 3043398 / 73237775.
proof fn lemma_quotient_3043398_by_73237775()
    ensures
        quotient(3043398, 73237775) == 0x3d2a_359c,
{
    lemma2_to64();
    lemma2_to64_rest();
    lemma_high_powers();
    lemma_number_known(0x2e_7046, 22, 0x20_0000, 0x4);
    assert(number(3043398) == 0x4a39_c118);
    lemma_number_known(0x45d_850f, 27, 0x400_0000, 0x8);
    assert(number(73237775) == 0x4c8b_b0a2);
    assert(0xb9_c118 * 0x1_0000_0000_0000_0000 == 0x1_546b_3702_74f3_2f85 * 0x8b_b0a2 + 0x39_7dd6);
    lemma_quotient_known(0x4a39_c118, 0x4c8b_b0a2, 0xb9_c118, 147, 0x8b_b0a2, 152, 0x1_546b_3702_74f3_2f85, 0x39_7dd6, 66, 0x2_0000_0000_0000_0000, 0x400_0000_0000);
    assert(div_spec(0x4a39_c118, 0x4c8b_b0a2) == 0x3d2a_359c);
}

/// 263959 / 13654164.
proof fn lemma_quotient_263959_by_13654164()
    ensures
        quotient(263959, 13654164) == 0x3c9e_5da3,
{
    lemma2_to64();
    lemma2_to64_rest();
    lemma_high_powers();
    lemma_number_known(0x4_0717, 19, 0x4_0000, 0x20);
    assert(number(263959) == 0x4880_e2e0);
    lemma_number_known(0xd0_5894, 24, 0x80_0000, 0x1);
    assert(number(13654164) == 0x4b50_5894);
    assert(0x80_e2e0 * 0x1_0000_0000_0000_0000 == 0x9e5d_a2c7_46a3_1782 * 0xd0_5894 + 0x1_b8d8);
    lemma_quotient_known(0x4880_e2e0, 0x4b50_5894, 0x80_e2e0, 144, 0xd0_5894, 149, 0x9e5d_a2c7_46a3_1782, 0x1_b8d8, 65, 0x1_0000_0000_0000_0000, 0x200_0000_0000);
    assert(div_spec(0x4880_e2e0, 0x4b50_5894) == 0x3c9e_5da3);
}

/// 164508 / 2956735.
proof fn lemma_quotient_164508_by_2956735()
    ensures
        quotient(164508, 2956735) == 0x3d63_e517,
{
    lemma2_to64();
    lemma2_to64_rest();
    lemma_high_powers();
    lemma_number_known(0x2_829c, 18, 0x2_0000, 0x40);
    assert(number(164508) == 0x4820_a700);
    lemma_number_known(0x2d_1dbf, 22, 0x20_0000, 0x4);
    assert(number(2956735) == 0x4a34_76fc);
    assert(0xa0_a700 * 0x1_0000_0000_0000_0000 == 0xe3e5_16da_f570_d30a * 0xb4_76fc + 0xa1_a628);
    lemma_quotient_known(0x4820_a700, 0x4a34_76fc, 0xa0_a700, 143, 0xb4_76fc, 147, 0xe3e5_16da_f570_d30a, 0xa1_a628, 65, 0x1_0000_0000_0000_0000, 0x200_0000_0000);
    assert(div_spec(0x4820_a700, 0x4a34_76fc) == 0x3d63_e517);
}

/// 14647555 / 122887476.
proof fn lemma_quotient_14647555_by_122887476()
    ensures
        quotient(14647555, 122887476) == 0x3df4_1c6f,
{
    lemma2_to64();
    lemma2_to64_rest();
    lemma_high_powers();
    lemma_number_known(0xdf_8103, 24, 0x80_0000, 0x1);
    assert(number(14647555) == 0x4b5f_8103);
    lemma_number_known(0x753_1d34, 27, 0x400_0000, 0x8);
    assert(number(122887476) == 0x4cea_63a6);
    assert(0xdf_8103 * 0x1_0000_0000_0000_0000 == 0xf41c_6f46_98a9_c667 * 0xea_63a6 + 0x9_8436);
    lemma_quotient_known(0x4b5f_8103, 0x4cea_63a6, 0xdf_8103, 149, 0xea_63a6, 152, 0xf41c_6f46_98a9_c667, 0x9_8436, 65, 0x1_0000_0000_0000_0000, 0x200_0000_0000);
    assert(div_spec(0x4b5f_8103, 0x4cea_63a6) == 0x3df4_1c6f);
}

/// -603196 / 2956735.
proof fn lemma_quotient_minus_603196_by_2956735()
    ensures
        quotient(-603196, 2956735) == 0xbe50_e755,
{
    lemma2_to64();
    lemma2_to64_rest();
    lemma_high_powers();
    lemma_number_known(0x9_343c, 20, 0x8_0000, 0x10);
    assert(number(603196) == 0x4913_43c0);
    lemma_number_known(0x2d_1dbf, 22, 0x20_0000, 0x4);
    assert(number(2956735) == 0x4a34_76fc);
    assert(0x93_43c0 * 0x1_0000_0000_0000_0000 == 0xd0e7_54f3_60fc_c174 * 0xb4_76fc + 0x76_19d0);
    lemma_quotient_known(0x4913_43c0, 0x4a34_76fc, 0x93_43c0, 145, 0xb4_76fc, 147, 0xd0e7_54f3_60fc_c174, 0x76_19d0, 65, 0x1_0000_0000_0000_0000, 0x200_0000_0000);
    assert(div_spec(0x4913_43c0, 0x4a34_76fc) == 0x3e50_e755);
}

/// 233582065 / 245774952.
proof fn lemma_quotient_233582065_by_245774952()
    ensures
        quotient(233582065, 245774952) == 0x3f73_4cc3,
{
    lemma2_to64();
    lemma2_to64_rest();
    lemma_high_powers();
    lemma_number_known(0xdec_2df1, 28, 0x800_0000, 0x10);
    assert(number(233582065) == 0x4d5e_c2df);
    lemma_number_known(0xea6_3a68, 28, 0x800_0000, 0x10);
    assert(number(245774952) == 0x4d6a_63a6);
    assert(0xde_c2df * 0x1_0000_0000_0000_0000 == 0xf34c_c356_14d6_8fe0 * 0xea_63a6 + 0x7b_14c0);
    lemma_quotient_known(0x4d5e_c2df, 0x4d6a_63a6, 0xde_c2df, 153, 0xea_63a6, 153, 0xf34c_c356_14d6_8fe0, 0x7b_14c0, 65, 0x1_0000_0000_0000_0000, 0x200_0000_0000);
    assert(div_spec(0x4d5e_c2df, 0x4d6a_63a6) == 0x3f73_4cc3);
}

/// 3125652 / 2956735.
proof fn lemma_quotient_3125652_by_2956735()
    ensures
        quotient(3125652, 2956735) == 0x3f87_5006,
{
    lemma2_to64();
    lemma2_to64_rest();
    lemma_high_powers();
    lemma_number_known(0x2f_b194, 22, 0x20_0000, 0x4);
    assert(number(3125652) == 0x4a3e_c650);
    lemma_number_known(0x2d_1dbf, 22, 0x20_0000, 0x4);
    assert(number(2956735) == 0x4a34_76fc);
    assert(0xbe_c650 * 0x1_0000_0000_0000_0000 == 0x1_0ea0_0b24_0375_fa9c * 0xb4_76fc + 0xa9_6670);
    lemma_quotient_known(0x4a3e_c650, 0x4a34_76fc, 0xbe_c650, 147, 0xb4_76fc, 147, 0x1_0ea0_0b24_0375_fa9c, 0xa9_6670, 66, 0x2_0000_0000_0000_0000, 0x400_0000_0000);
    assert(div_spec(0x4a3e_c650, 0x4a34_76fc) == 0x3f87_5006);
}

/// 312713 / 329016.
proof fn lemma_quotient_312713_by_329016()
    ensures
        quotient(312713, 329016) == 0x3f73_50a4,
{
    lemma2_to64();
    lemma2_to64_rest();
    lemma_high_powers();
    lemma_number_known(0x4_c589, 19, 0x4_0000, 0x20);
    assert(number(312713) == 0x4898_b120);
    lemma_number_known(0x5_0538, 19, 0x4_0000, 0x20);
    assert(number(329016) == 0x48a0_a700);
    assert(0x98_b120 * 0x1_0000_0000_0000_0000 == 0xf350_a3d5_0014_b72d * 0xa0_a700 + 0x61_a500);
    lemma_quotient_known(0x4898_b120, 0x48a0_a700, 0x98_b120, 144, 0xa0_a700, 144, 0xf350_a3d5_0014_b72d, 0x61_a500, 65, 0x1_0000_0000_0000_0000, 0x200_0000_0000);
    assert(div_spec(0x4898_b120, 0x48a0_a700) == 0x3f73_50a4);
}

/// 358271 / 329016.
proof fn lemma_quotient_358271_by_329016()
    ensures
        quotient(358271, 329016) == 0x3f8b_619f,
{
    lemma2_to64();
    lemma2_to64_rest();
    lemma_high_powers();
    lemma_number_known(0x5_777f, 19, 0x4_0000, 0x20);
    assert(number(358271) == 0x48ae_efe0);
    lemma_number_known(0x5_0538, 19, 0x4_0000, 0x20);
    assert(number(329016) == 0x48a0_a700);
    assert(0xae_efe0 * 0x1_0000_0000_0000_0000 == 0x1_16c3_3dd1_142c_8b1b * 0xa0_a700 + 0x61_6300);
    lemma_quotient_known(0x48ae_efe0, 0x48a0_a700, 0xae_efe0, 144, 0xa0_a700, 144, 0x1_16c3_3dd1_142c_8b1b, 0x61_6300, 66, 0x2_0000_0000_0000_0000, 0x400_0000_0000);
    assert(div_spec(0x48ae_efe0, 0x48a0_a700) == 0x3f8b_619f);
}

/// 312713 / 1000000.
proof fn lemma_quotient_312713_by_1000000()
    ensures
        quotient(312713, 1000000) == 0x3ea0_1beb,
{
    lemma2_to64();
    lemma2_to64_rest();
    lemma_high_powers();
    lemma_number_known(0x4_c589, 19, 0x4_0000, 0x20);
    assert(number(312713) == 0x4898_b120);
    lemma_number_known(0xf_4240, 20, 0x8_0000, 0x10);
    assert(number(1000000) == 0x4974_2400);
    assert(0x98_b120 * 0x1_0000_0000_0000_0000 == 0xa01b_eb18_116e_bd4c * 0xf4_2400 + 0xf1_5000);
    lemma_quotient_known(0x4898_b120, 0x4974_2400, 0x98_b120, 144, 0xf4_2400, 145, 0xa01b_eb18_116e_bd4c, 0xf1_5000, 65, 0x1_0000_0000_0000_0000, 0x200_0000_0000);
    assert(div_spec(0x4898_b120, 0x4974_2400) == 0x3ea0_1beb);
}

/// 41127 / 125000.
proof fn lemma_quotient_41127_by_125000()
    ensures
        quotient(41127, 125000) == 0x3ea8_74c9,
{
    lemma2_to64();
    lemma2_to64_rest();
    lemma_high_powers();
    lemma_number_known(0xa0a7, 16, 0x8000, 0x100);
    assert(number(41127) == 0x4720_a700);
    lemma_number_known(0x1_e848, 17, 0x1_0000, 0x80);
    assert(number(125000) == 0x47f4_2400);
    assert(0xa0_a700 * 0x1_0000_0000_0000_0000 == 0xa874_c8ff_b8b2_6394 * 0xf4_2400 + 0xef_3000);
    lemma_quotient_known(0x4720_a700, 0x47f4_2400, 0xa0_a700, 141, 0xf4_2400, 142, 0xa874_c8ff_b8b2_6394, 0xef_3000, 65, 0x1_0000_0000_0000_0000, 0x200_0000_0000);
    assert(div_spec(0x4720_a700, 0x47f4_2400) == 0x3ea8_74c9);
}

/// 16 / 25.
proof fn lemma_quotient_16_by_25()
    ensures
        quotient(16, 25) == 0x3f23_d70a,
{
    lemma2_to64();
    lemma2_to64_rest();
    lemma_high_powers();
    lemma_number_known(0x10, 5, 0x10, 0x8_0000);
    assert(number(16) == 0x4180_0000);
    lemma_number_known(0x19, 5, 0x10, 0x8_0000);
    assert(number(25) == 0x41c8_0000);
    assert(0x80_0000 * 0x1_0000_0000_0000_0000 == 0xa3d7_0a3d_70a3_d70a * 0xc8_0000 + 0x30_0000);
    lemma_quotient_known(0x4180_0000, 0x41c8_0000, 0x80_0000, 130, 0xc8_0000, 130, 0xa3d7_0a3d_70a3_d70a, 0x30_0000, 65, 0x1_0000_0000_0000_0000, 0x200_0000_0000);
    assert(div_spec(0x4180_0000, 0x41c8_0000) == 0x3f23_d70a);
}

/// 33 / 100.
proof fn lemma_quotient_33_by_100()
    ensures
        quotient(33, 100) == 0x3ea8_f5c3,
{
    lemma2_to64();
    lemma2_to64_rest();
    lemma_high_powers();
    lemma_number_known(0x21, 6, 0x20, 0x4_0000);
    assert(number(33) == 0x4204_0000);
    lemma_number_known(0x64, 7, 0x40, 0x2_0000);
    assert(number(100) == 0x42c8_0000);
    assert(0x84_0000 * 0x1_0000_0000_0000_0000 == 0xa8f5_c28f_5c28_f5c2 * 0xc8_0000 + 0x70_0000);
    lemma_quotient_known(0x4204_0000, 0x42c8_0000, 0x84_0000, 131, 0xc8_0000, 132, 0xa8f5_c28f_5c28_f5c2, 0x70_0000, 65, 0x1_0000_0000_0000_0000, 0x200_0000_0000);
    assert(div_spec(0x4204_0000, 0x42c8_0000) == 0x3ea8_f5c3);
}

/// 3 / 10.
proof fn lemma_quotient_3_by_10()
    ensures
        quotient(3, 10) == 0x3e99_999a,
{
    lemma2_to64();
    lemma2_to64_rest();
    lemma_high_powers();
    lemma_number_known(0x3, 2, 0x2, 0x40_0000);
    assert(number(3) == 0x4040_0000);
    lemma_number_known(0xa, 4, 0x8, 0x10_0000);
    assert(number(10) == 0x4120_0000);
    assert(0xc0_0000 * 0x1_0000_0000_0000_0000 == 0x1_3333_3333_3333_3333 * 0xa0_0000 + 0x20_0000);
    lemma_quotient_known(0x4040_0000, 0x4120_0000, 0xc0_0000, 127, 0xa0_0000, 129, 0x1_3333_3333_3333_3333, 0x20_0000, 66, 0x2_0000_0000_0000_0000, 0x400_0000_0000);
    assert(div_spec(0x4040_0000, 0x4120_0000) == 0x3e99_999a);
}

/// 3 / 5.
proof fn lemma_quotient_3_by_5()
    ensures
        quotient(3, 5) == 0x3f19_999a,
{
    lemma2_to64();
    lemma2_to64_rest();
    lemma_high_powers();
    lemma_number_known(0x3, 2, 0x2, 0x40_0000);
    assert(number(3) == 0x4040_0000);
    lemma_number_known(0x5, 3, 0x4, 0x20_0000);
    assert(number(5) == 0x40a0_0000);
    assert(0xc0_0000 * 0x1_0000_0000_0000_0000 == 0x1_3333_3333_3333_3333 * 0xa0_0000 + 0x20_0000);
    lemma_quotient_known(0x4040_0000, 0x40a0_0000, 0xc0_0000, 127, 0xa0_0000, 128, 0x1_3333_3333_3333_3333, 0x20_0000, 66, 0x2_0000_0000_0000_0000, 0x400_0000_0000);
    assert(div_spec(0x4040_0000, 0x40a0_0000) == 0x3f19_999a);
}

/// 3 / 20.
proof fn lemma_quotient_3_by_20()
    ensures
        quotient(3, 20) == 0x3e19_999a,
{
    lemma2_to64();
    lemma2_to64_rest();
    lemma_high_powers();
    lemma_number_known(0x3, 2, 0x2, 0x40_0000);
    assert(number(3) == 0x4040_0000);
    lemma_number_known(0x14, 5, 0x10, 0x8_0000);
    assert(number(20) == 0x41a0_0000);
    assert(0xc0_0000 * 0x1_0000_0000_0000_0000 == 0x1_3333_3333_3333_3333 * 0xa0_0000 + 0x20_0000);
    lemma_quotient_known(0x4040_0000, 0x41a0_0000, 0xc0_0000, 127, 0xa0_0000, 130, 0x1_3333_3333_3333_3333, 0x20_0000, 66, 0x2_0000_0000_0000_0000, 0x400_0000_0000);
    assert(div_spec(0x4040_0000, 0x41a0_0000) == 0x3e19_999a);
}

/// 3 / 50.
proof fn lemma_quotient_3_by_50()
    ensures
        quotient(3, 50) == 0x3d75_c28f,
{
    lemma2_to64();
    lemma2_to64_rest();
    lemma_high_powers();
    lemma_number_known(0x3, 2, 0x2, 0x40_0000);
    assert(number(3) == 0x4040_0000);
    lemma_number_known(0x32, 6, 0x20, 0x4_0000);
    assert(number(50) == 0x4248_0000);
    assert(0xc0_0000 * 0x1_0000_0000_0000_0000 == 0xf5c2_8f5c_28f5_c28f * 0xc8_0000 + 0x48_0000);
    lemma_quotient_known(0x4040_0000, 0x4248_0000, 0xc0_0000, 127, 0xc8_0000, 131, 0xf5c2_8f5c_28f5_c28f, 0x48_0000, 65, 0x1_0000_0000_0000_0000, 0x200_0000_0000);
    assert(div_spec(0x4040_0000, 0x4248_0000) == 0x3d75_c28f);
}

/// Each entry of the two basis matrices is the rounded quotient of its
/// fraction.
pub proof fn lemma_matrices_are_rounded(i: int, j: int)
    requires
        0 <= i < 3,
        0 <= j < 3,
    ensures
        XYZ_FROM_SRGB_MATRIX[i][j] == quotient(
            XYZ_FROM_SRGB_NUMERATORS[i][j] as int,
            XYZ_FROM_SRGB_DENOMINATORS[i][j] as nat,
        ),
        SRGB_FROM_XYZ_MATRIX[i][j] == quotient(
            SRGB_FROM_XYZ_NUMERATORS[i][j] as int,
            SRGB_FROM_XYZ_DENOMINATORS[i][j] as nat,
        ),
{
    if i == 0 && j == 0 {
        lemma_quotient_4223344_by_10240623();
        lemma_quotient_4277208_by_1319795();
    }
    if i == 0 && j == 1 {
        lemma_quotient_14647555_by_40962492();
        lemma_quotient_minus_2028932_by_1319795();
    }
    if i == 0 && j == 2 {
        lemma_quotient_14783675_by_81924984();
        lemma_quotient_minus_658032_by_1319795();
    }
    if i == 1 && j == 0 {
        lemma_quotient_2903549_by_13654164();
        lemma_quotient_minus_70985202_by_73237775();
    }
    if i == 1 && j == 1 {
        lemma_quotient_14647555_by_20481246();
        lemma_quotient_137391598_by_73237775();
    }
    if i == 1 && j == 2 {
        lemma_quotient_2956735_by_40962492();
        lemma_quotient_3043398_by_73237775();
    }
    if i == 2 && j == 0 {
        lemma_quotient_263959_by_13654164();
        lemma_quotient_164508_by_2956735();
    }
    if i == 2 && j == 1 {
        lemma_quotient_14647555_by_122887476();
        lemma_quotient_minus_603196_by_2956735();
    }
    if i == 2 && j == 2 {
        lemma_quotient_233582065_by_245774952();
        lemma_quotient_3125652_by_2956735();
    }
}

/// The white point is the rounded `x / y`, 1 and `(1 - x - y) / y` of its
/// chromaticity, and the chromaticity the rounded x = 312713 / 1000000 and
/// y = 329016 / 1000000.
pub proof fn lemma_white_point()
    ensures
        D65_XYZ[0] == quotient(312713, 329016),
        D65_XYZ[1] == ONE,
        D65_XYZ[2] == quotient(1000000 - 312713 - 329016, 329016),
        D65_xyY[0] == quotient(312713, 1000000),
        D65_xyY[1] == quotient(41127, 125000),
        D65_xyY[2] == ONE,
        41127 * 1000000 == 329016 * 125000,
{
    lemma_quotient_312713_by_329016();
    lemma_quotient_358271_by_329016();
    lemma_quotient_312713_by_1000000();
    lemma_quotient_41127_by_125000();
}

/// The chromaticities of the primaries are the rounded (0.64, 0.33),
/// (0.30, 0.60) and (0.15, 0.06), and their XYZ coordinates the columns of
/// the basis matrix.
pub proof fn lemma_primaries()
    ensures
        PRIMARIES_xyY[0][0] == quotient(16, 25) && PRIMARIES_xyY[0][1] == quotient(33, 100),
        PRIMARIES_xyY[1][0] == quotient(3, 10) && PRIMARIES_xyY[1][1] == quotient(3, 5),
        PRIMARIES_xyY[2][0] == quotient(3, 20) && PRIMARIES_xyY[2][1] == quotient(3, 50),
        forall|i: int| 0 <= i < 3 ==> (#[trigger] PRIMARIES_xyY[i])[2] == ONE,
        forall|i: int, j: int|
            0 <= i < 3 && 0 <= j < 3 ==> (#[trigger] PRIMARIES_XYZ[j])[i] == (
            #[trigger] XYZ_FROM_SRGB_MATRIX[i])[j],
{
    lemma_quotient_16_by_25();
    lemma_quotient_33_by_100();
    lemma_quotient_3_by_10();
    lemma_quotient_3_by_5();
    lemma_quotient_3_by_20();
    lemma_quotient_3_by_50();
}

/// The sum of three fractions, over the product of their denominators.
pub open spec fn sum_of_fractions(n: [int; 3], d: [int; 3]) -> int {
    n[0] * d[1] * d[2] + n[1] * d[0] * d[2] + n[2] * d[0] * d[1]
}

/// Row `i` of the basis matrix from linear sRGB to XYZ, as fractions.
pub open spec fn row_numerators(i: int) -> [int; 3] {
    [
        XYZ_FROM_SRGB_NUMERATORS[i][0] as int,
        XYZ_FROM_SRGB_NUMERATORS[i][1] as int,
        XYZ_FROM_SRGB_NUMERATORS[i][2] as int,
    ]
}

/// The denominators of row `i`.
pub open spec fn row_denominators(i: int) -> [int; 3] {
    [
        XYZ_FROM_SRGB_DENOMINATORS[i][0] as int,
        XYZ_FROM_SRGB_DENOMINATORS[i][1] as int,
        XYZ_FROM_SRGB_DENOMINATORS[i][2] as int,
    ]
}

/// Column `j` of the basis matrix from linear sRGB to XYZ, as fractions.
pub open spec fn column_numerators(j: int) -> [int; 3] {
    [
        XYZ_FROM_SRGB_NUMERATORS[0][j] as int,
        XYZ_FROM_SRGB_NUMERATORS[1][j] as int,
        XYZ_FROM_SRGB_NUMERATORS[2][j] as int,
    ]
}

/// The denominators of column `j`.
pub open spec fn column_denominators(j: int) -> [int; 3] {
    [
        XYZ_FROM_SRGB_DENOMINATORS[0][j] as int,
        XYZ_FROM_SRGB_DENOMINATORS[1][j] as int,
        XYZ_FROM_SRGB_DENOMINATORS[2][j] as int,
    ]
}

/// The product of three denominators.
pub open spec fn product(d: [int; 3]) -> int {
    d[0] * d[1] * d[2]
}

/// White maps to the white point: the rows of the exact matrix sum to
/// `x / y`, 1 and `(1 - x - y) / y`.
pub proof fn lemma_rows_sum_to_white()
    ensures
        sum_of_fractions(row_numerators(0), row_denominators(0)) * 329016 == 312713 * product(
            row_denominators(0),
        ),
        sum_of_fractions(row_numerators(1), row_denominators(1)) == product(row_denominators(1)),
        sum_of_fractions(row_numerators(2), row_denominators(2)) * 329016 == 358271 * product(
            row_denominators(2),
        ),
{
    assert(4223344 * 40962492 * 81924984 + 14647555 * 10240623 * 81924984 + 14783675 * 10240623 * 40962492 == 32663147409017109961092);
    assert(10240623 * 40962492 * 81924984 == 34366010072894869899744);
    assert(sum_of_fractions(row_numerators(0), row_denominators(0)) == 32663147409017109961092);
    assert(product(row_denominators(0)) == 34366010072894869899744);
    assert(2903549 * 20481246 * 40962492 + 14647555 * 13654164 * 40962492 + 2956735 * 13654164 * 20481246 == 11455336690964956633248);
    assert(13654164 * 20481246 * 40962492 == 11455336690964956633248);
    assert(sum_of_fractions(row_numerators(1), row_denominators(1)) == 11455336690964956633248);
    assert(product(row_denominators(1)) == 11455336690964956633248);
    assert(263959 * 122887476 * 245774952 + 14647555 * 13654164 * 245774952 + 233582065 * 13654164 * 122887476 == 449060646102054049669968);
    assert(13654164 * 122887476 * 245774952 == 412392120874738438796928);
    assert(sum_of_fractions(row_numerators(2), row_denominators(2)) == 449060646102054049669968);
    assert(product(row_denominators(2)) == 412392120874738438796928);
}

/// Each primary has its chromaticity: in column `j` of the exact matrix, X
/// and Y are the fractions x and y of the sum of the column.
pub proof fn lemma_columns_have_chromaticities()
    ensures
        XYZ_FROM_SRGB_NUMERATORS[0][0] * product(column_denominators(0)) * 25 == 16 * sum_of_fractions(
            column_numerators(0),
            column_denominators(0),
        ) * XYZ_FROM_SRGB_DENOMINATORS[0][0],
        XYZ_FROM_SRGB_NUMERATORS[1][0] * product(column_denominators(0)) * 100 == 33 * sum_of_fractions(
            column_numerators(0),
            column_denominators(0),
        ) * XYZ_FROM_SRGB_DENOMINATORS[1][0],
        XYZ_FROM_SRGB_NUMERATORS[0][1] * product(column_denominators(1)) * 10 == 3 * sum_of_fractions(
            column_numerators(1),
            column_denominators(1),
        ) * XYZ_FROM_SRGB_DENOMINATORS[0][1],
        XYZ_FROM_SRGB_NUMERATORS[1][1] * product(column_denominators(1)) * 5 == 3 * sum_of_fractions(
            column_numerators(1),
            column_denominators(1),
        ) * XYZ_FROM_SRGB_DENOMINATORS[1][1],
        XYZ_FROM_SRGB_NUMERATORS[0][2] * product(column_denominators(2)) * 20 == 3 * sum_of_fractions(
            column_numerators(2),
            column_denominators(2),
        ) * XYZ_FROM_SRGB_DENOMINATORS[0][2],
        XYZ_FROM_SRGB_NUMERATORS[1][2] * product(column_denominators(2)) * 50 == 3 * sum_of_fractions(
            column_numerators(2),
            column_denominators(2),
        ) * XYZ_FROM_SRGB_DENOMINATORS[1][2],
{
    assert(sum_of_fractions(column_numerators(0), column_denominators(0)) == 1230287786857311231600) by {
        assert(4223344 * 13654164 * 13654164 + 2903549 * 10240623 * 13654164 + 263959 * 10240623 * 13654164 == 1230287786857311231600);
    }
    assert(product(column_denominators(0)) == 1909222781827492772208) by {
        assert(10240623 * 13654164 * 13654164 == 1909222781827492772208);
    }
    assert(4223344 * 1909222781827492772208 * 25 == 16 * 1230287786857311231600 * 10240623);
    assert(2903549 * 1909222781827492772208 * 100 == 33 * 1230287786857311231600 * 13654164);
    assert(sum_of_fractions(column_numerators(1), column_denominators(1)) == 122887548607463045967600) by {
        assert(14647555 * 20481246 * 122887476 + 14647555 * 40962492 * 122887476 + 14647555 * 40962492 * 20481246 == 122887548607463045967600);
    }
    assert(product(column_denominators(1)) == 103098030218684609699232) by {
        assert(40962492 * 20481246 * 122887476 == 103098030218684609699232);
    }
    assert(14647555 * 103098030218684609699232 * 10 == 3 * 122887548607463045967600 * 40962492);
    assert(14647555 * 103098030218684609699232 * 5 == 3 * 122887548607463045967600 * 20481246);
    assert(sum_of_fractions(column_numerators(2), column_denominators(2)) == 992236358987932796208000) by {
        assert(14783675 * 40962492 * 245774952 + 2956735 * 81924984 * 245774952 + 233582065 * 81924984 * 40962492 == 992236358987932796208000);
    }
    assert(product(column_denominators(2)) == 824784241749476877593856) by {
        assert(81924984 * 40962492 * 245774952 == 824784241749476877593856);
    }
    assert(14783675 * 824784241749476877593856 * 20 == 3 * 992236358987932796208000 * 81924984);
    assert(2956735 * 824784241749476877593856 * 50 == 3 * 992236358987932796208000 * 40962492);
}

/// The product of row `i` of the exact inverse and column `j` of the exact
/// matrix, as three fractions.
pub open spec fn term_numerators(i: int, j: int) -> [int; 3] {
    [
        SRGB_FROM_XYZ_NUMERATORS[i][0] * XYZ_FROM_SRGB_NUMERATORS[0][j],
        SRGB_FROM_XYZ_NUMERATORS[i][1] * XYZ_FROM_SRGB_NUMERATORS[1][j],
        SRGB_FROM_XYZ_NUMERATORS[i][2] * XYZ_FROM_SRGB_NUMERATORS[2][j],
    ]
}

/// The denominators of those three fractions.
pub open spec fn term_denominators(i: int, j: int) -> [int; 3] {
    [
        SRGB_FROM_XYZ_DENOMINATORS[i][0] * XYZ_FROM_SRGB_DENOMINATORS[0][j],
        SRGB_FROM_XYZ_DENOMINATORS[i][1] * XYZ_FROM_SRGB_DENOMINATORS[1][j],
        SRGB_FROM_XYZ_DENOMINATORS[i][2] * XYZ_FROM_SRGB_DENOMINATORS[2][j],
    ]
}

/// The two exact matrices are inverse to each other: row `i` of the one
/// times column `j` of the other is 1 where `i == j`, and 0 elsewhere.
pub proof fn lemma_matrices_are_inverse(i: int, j: int)
    requires
        0 <= i < 3,
        0 <= j < 3,
    ensures
        sum_of_fractions(term_numerators(i, j), term_denominators(i, j)) == if i == j {
            product(term_denominators(i, j))
        } else {
            0
        },
{
    if i == 0 && j == 0 {
        assert(term_numerators(0, 0)[0] == 18064120743552) by {
            assert(4277208 * 4223344 == 18064120743552);
        }
        assert(term_numerators(0, 0)[1] == -5891103479668) by {
            assert(-2028932 * 2903549 == -5891103479668);
        }
        assert(term_numerators(0, 0)[2] == -173693468688) by {
            assert(-658032 * 263959 == -173693468688);
        }
        assert(term_denominators(0, 0)[0] == 13515523032285) by {
            assert(1319795 * 10240623 == 13515523032285);
        }
        assert(term_denominators(0, 0)[1] == 18020697376380) by {
            assert(1319795 * 13654164 == 18020697376380);
        }
        assert(term_denominators(0, 0)[2] == 18020697376380) by {
            assert(1319795 * 13654164 == 18020697376380);
        }
        assert(18064120743552int * 18020697376380 * 18020697376380 == 5866242535860093667654795435373780428800);
        assert(-5891103479668int * 13515523032285 * 18020697376380 == -1434832158710972429528546720070389804400);
        assert(-173693468688int * 13515523032285 * 18020697376380 == -42304633672067983180202851697407070400);
        assert(13515523032285int * 18020697376380 * 18020697376380 == 4389105743477053254946045863605983554000);
    }
    if i == 0 && j == 1 {
        assert(term_numerators(0, 1)[0] == 62650639426440) by {
            assert(4277208 * 14647555 == 62650639426440);
        }
        assert(term_numerators(0, 1)[1] == -29718893061260) by {
            assert(-2028932 * 14647555 == -29718893061260);
        }
        assert(term_numerators(0, 1)[2] == -9638559911760) by {
            assert(-658032 * 14647555 == -9638559911760);
        }
        assert(term_denominators(0, 1)[0] == 54062092129140) by {
            assert(1319795 * 40962492 == 54062092129140);
        }
        assert(term_denominators(0, 1)[1] == 27031046064570) by {
            assert(1319795 * 20481246 == 27031046064570);
        }
        assert(term_denominators(0, 1)[2] == 162186276387420) by {
            assert(1319795 * 122887476 == 162186276387420);
        }
        assert(62650639426440int * 27031046064570 * 162186276387420 == 274664457247438906960619843321007316536000);
        assert(-29718893061260int * 54062092129140 * 162186276387420 == -260579100465518963013921389817365915688000);
        assert(-9638559911760int * 54062092129140 * 27031046064570 == -14085356781919943946698453503641400848000);
        assert(54062092129140int * 27031046064570 * 162186276387420 == 237011710147760875767086476634723111916000);
    }
    if i == 0 && j == 2 {
        assert(term_numerators(0, 2)[0] == 63232852979400) by {
            assert(4277208 * 14783675 == 63232852979400);
        }
        assert(term_numerators(0, 2)[1] == -5999014257020) by {
            assert(-2028932 * 2956735 == -5999014257020);
        }
        assert(term_numerators(0, 2)[2] == -153704473396080) by {
            assert(-658032 * 233582065 == -153704473396080);
        }
        assert(term_denominators(0, 2)[0] == 108124184258280) by {
            assert(1319795 * 81924984 == 108124184258280);
        }
        assert(term_denominators(0, 2)[1] == 54062092129140) by {
            assert(1319795 * 40962492 == 54062092129140);
        }
        assert(term_denominators(0, 2)[2] == 324372552774840) by {
            assert(1319795 * 245774952 == 324372552774840);
        }
        assert(63232852979400int * 54062092129140 * 324372552774840 == 1108867676550122223910008615692842345440000);
        assert(-5999014257020int * 108124184258280 * 324372552774840 == -210400533499253960434206762977616239904000);
        assert(-153704473396080int * 108124184258280 * 54062092129140 == -898467143050868263475801852715226105536000);
        assert(108124184258280int * 54062092129140 * 324372552774840 == 1896093681182087006136691813077784895328000);
    }
    if i == 1 && j == 0 {
        assert(term_numerators(1, 0)[0] == -299794926955488) by {
            assert(-70985202 * 4223344 == -299794926955488);
        }
        assert(term_numerators(1, 0)[1] == 398923236981302) by {
            assert(137391598 * 2903549 == 398923236981302);
        }
        assert(term_numerators(1, 0)[2] == 803332292682) by {
            assert(3043398 * 263959 == 803332292682);
        }
        assert(term_denominators(1, 0)[0] == 750000443133825) by {
            assert(73237775 * 10240623 == 750000443133825);
        }
        assert(term_denominators(1, 0)[1] == 1000000590845100) by {
            assert(73237775 * 13654164 == 1000000590845100);
        }
        assert(term_denominators(1, 0)[2] == 1000000590845100) by {
            assert(73237775 * 13654164 == 1000000590845100);
        }
        assert(-299794926955488int * 1000000590845100 * 1000000590845100 == -299795281220319850805088232730629450226880000);
        assert(398923236981302int * 750000443133825 * 1000000590845100 == 299192781288840717269468215461055654800765000);
        assert(803332292682int * 750000443133825 * 1000000590845100 == 602499931479133535620017269573795426115000);
        assert(750000443133825int * 1000000590845100 * 1000000590845100 == 750001329402260470502133624492722293388250000);
    }
    if i == 1 && j == 1 {
        assert(term_numerators(1, 1)[0] == -1039759650481110) by {
            assert(-70985202 * 14647555 == -1039759650481110);
        }
        assert(term_numerators(1, 1)[1] == 2012450988242890) by {
            assert(137391598 * 14647555 == 2012450988242890);
        }
        assert(term_numerators(1, 1)[2] == 44578339591890) by {
            assert(3043398 * 14647555 == 44578339591890);
        }
        assert(term_denominators(1, 1)[0] == 3000001772535300) by {
            assert(73237775 * 40962492 == 3000001772535300);
        }
        assert(term_denominators(1, 1)[1] == 1500000886267650) by {
            assert(73237775 * 20481246 == 1500000886267650);
        }
        assert(term_denominators(1, 1)[2] == 9000005317605900) by {
            assert(73237775 * 122887476 == 9000005317605900);
        }
        assert(-1039759650481110int * 1500000886267650 * 9000005317605900 == -14036771868596041143108606895024033862039850000);
        assert(2012450988242890int * 3000001772535300 * 9000005317605900 == 54336240891104489894258191696381177043400300000);
        assert(44578339591890int * 3000001772535300 * 1500000886267650 == 200602765213616655965630921249860661605050000);
        assert(3000001772535300int * 1500000886267650 * 9000005317605900 == 40500071787722065407115215722607003842965500000);
    }
    if i == 1 && j == 2 {
        assert(term_numerators(1, 2)[0] == -1049422156177350) by {
            assert(-70985202 * 14783675 == -1049422156177350);
        }
        assert(term_numerators(1, 2)[1] == 406230546512530) by {
            assert(137391598 * 2956735 == 406230546512530);
        }
        assert(term_numerators(1, 2)[2] == 710883189456870) by {
            assert(3043398 * 233582065 == 710883189456870);
        }
        assert(term_denominators(1, 2)[0] == 6000003545070600) by {
            assert(73237775 * 81924984 == 6000003545070600);
        }
        assert(term_denominators(1, 2)[1] == 3000001772535300) by {
            assert(73237775 * 40962492 == 3000001772535300);
        }
        assert(term_denominators(1, 2)[2] == 18000010635211800) by {
            assert(73237775 * 245774952 == 18000010635211800);
        }
        assert(-1049422156177350int * 3000001772535300 * 18000010635211800 == -56668863398558074312428561364349049054369000000);
        assert(406230546512530int * 6000003545070600 * 18000010635211800 == 43872950867543377424423255464929020442092400000);
        assert(710883189456870int * 6000003545070600 * 3000001772535300 == 12795912531014696888005305899420028612276600000);
        assert(6000003545070600int * 3000001772535300 * 18000010635211800 == 324000574301776523256921725780856030743724000000);
    }
    if i == 2 && j == 0 {
        assert(term_numerators(2, 0)[0] == 694773874752) by {
            assert(164508 * 4223344 == 694773874752);
        }
        assert(term_numerators(2, 0)[1] == -1751409142604) by {
            assert(-603196 * 2903549 == -1751409142604);
        }
        assert(term_numerators(2, 0)[2] == 825043976268) by {
            assert(3125652 * 263959 == 825043976268);
        }
        assert(term_denominators(2, 0)[0] == 30278808445905) by {
            assert(2956735 * 10240623 == 30278808445905);
        }
        assert(term_denominators(2, 0)[1] == 40371744594540) by {
            assert(2956735 * 13654164 == 40371744594540);
        }
        assert(term_denominators(2, 0)[2] == 40371744594540) by {
            assert(2956735 * 13654164 == 40371744594540);
        }
        assert(694773874752int * 40371744594540 * 40371744594540 == 1132396487803651932074553044020492723200);
        assert(-1751409142604int * 30278808445905 * 40371744594540 == -2140937109753779434078451848851244054800);
        assert(825043976268int * 30278808445905 * 40371744594540 == 1008540621950127502003898804830751331600);
        assert(30278808445905int * 40371744594540 * 40371744594540 == 49350756533931794808227256947241981498000);
    }
    if i == 2 && j == 1 {
        assert(term_numerators(2, 1)[0] == 2409639977940) by {
            assert(164508 * 14647555 == 2409639977940);
        }
        assert(term_numerators(2, 1)[1] == -8835346585780) by {
            assert(-603196 * 14647555 == -8835346585780);
        }
        assert(term_numerators(2, 1)[2] == 45783159580860) by {
            assert(3125652 * 14647555 == 45783159580860);
        }
        assert(term_denominators(2, 1)[0] == 121115233783620) by {
            assert(2956735 * 40962492 == 121115233783620);
        }
        assert(term_denominators(2, 1)[1] == 60557616891810) by {
            assert(2956735 * 20481246 == 60557616891810);
        }
        assert(term_denominators(2, 1)[2] == 363345701350860) by {
            assert(2956735 * 122887476 == 363345701350860);
        }
        assert(2409639977940int * 60557616891810 * 363345701350860 == 53020151282560947397345984004985727404000);
        assert(-8835346585780int * 121115233783620 * 363345701350860 == -388814442738780280913870549369895334296000);
        assert(45783159580860int * 121115233783620 * 60557616891810 == 335794291456219333516524565364909606892000);
        assert(121115233783620int * 60557616891810 * 363345701350860 == 2664940852832316919644271875151067000892000);
    }
    if i == 2 && j == 2 {
        assert(term_numerators(2, 2)[0] == 2432032806900) by {
            assert(164508 * 14783675 == 2432032806900);
        }
        assert(term_numerators(2, 2)[1] == -1783490725060) by {
            assert(-603196 * 2956735 == -1783490725060);
        }
        assert(term_numerators(2, 2)[2] == 730096248631380) by {
            assert(3125652 * 233582065 == 730096248631380);
        }
        assert(term_denominators(2, 2)[0] == 242230467567240) by {
            assert(2956735 * 81924984 == 242230467567240);
        }
        assert(term_denominators(2, 2)[1] == 121115233783620) by {
            assert(2956735 * 40962492 == 121115233783620);
        }
        assert(term_denominators(2, 2)[2] == 726691402701720) by {
            assert(2956735 * 245774952 == 726691402701720);
        }
        assert(2432032806900int * 121115233783620 * 726691402701720 == 214051474123077664228455572301290522160000);
        assert(-1783490725060int * 242230467567240 * 726691402701720 == -313942162047180574201734839375226099168000);
        assert(730096248631380int * 242230467567240 * 121115233783620 == 21419417510582638267127454268282471584144000);
        assert(242230467567240int * 121115233783620 * 726691402701720 == 21319526822658535357154175001208536007136000);
    }
}

} // verus!
