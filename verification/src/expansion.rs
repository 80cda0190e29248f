//! The expansion table follows the sRGB formula: each entry is the binary32
//! number nearest to the linear value of its code.  Up to code 10 that
//! value is `v / 255 / 12.92`, which is `10 v / 32946`; above, it is
//! `((v / 255 + 0.055) / 1.055)^2.4`, the power 2.4 of
//! `(1000 v + 14025) / 269025`.

use vstd::prelude::*;
use vstd::arithmetic::power2::{lemma2_to64, lemma2_to64_rest};
use crate::arith::div_spec;
use crate::binary32::{number, ONE};
use crate::gamma::{nearest_to_power, U8_TO_LINEAR_LUT};
use crate::known::{
    lemma_fifth_powers_of_two, lemma_high_powers, lemma_number_known, lemma_power_known,
    lemma_quotient_known,
};

verus! {

/// Code 0.
proof fn lemma_entry_0()
    ensures
        0x0000_0000 == div_spec(number(0), number(32946)),
{
    lemma2_to64();
    lemma2_to64_rest();
    lemma_high_powers();
    crate::order::lemma_round_zero(149);
    assert(number(0) == 0);
    lemma_number_known(0x80b2, 16, 0x8000, 0x100);
    assert(number(32946) == 0x4700_b200);
}

/// Code 1.
proof fn lemma_entry_1()
    ensures
        0x399f_22b4 == div_spec(number(10), number(32946)),
{
    lemma2_to64();
    lemma2_to64_rest();
    lemma_high_powers();
    lemma_number_known(0xa, 4, 0x8, 0x10_0000);
    assert(number(10) == 0x4120_0000);
    lemma_number_known(0x80b2, 16, 0x8000, 0x100);
    assert(number(32946) == 0x4700_b200);
    assert(0xa0_0000 * 0x1_0000_0000_0000_0000 == 0x1_3e45_677c_176f_6911 * 0x80_b200 + 0x72_2e00);
    lemma_quotient_known(0x4120_0000, 0x4700_b200, 0xa0_0000, 129, 0x80_b200, 141, 0x1_3e45_677c_176f_6911, 0x72_2e00, 66, 0x2_0000_0000_0000_0000, 0x400_0000_0000);
}

/// Code 2.
proof fn lemma_entry_2()
    ensures
        0x3a1f_22b4 == div_spec(number(20), number(32946)),
{
    lemma2_to64();
    lemma2_to64_rest();
    lemma_high_powers();
    lemma_number_known(0x14, 5, 0x10, 0x8_0000);
    assert(number(20) == 0x41a0_0000);
    lemma_number_known(0x80b2, 16, 0x8000, 0x100);
    assert(number(32946) == 0x4700_b200);
    assert(0xa0_0000 * 0x1_0000_0000_0000_0000 == 0x1_3e45_677c_176f_6911 * 0x80_b200 + 0x72_2e00);
    lemma_quotient_known(0x41a0_0000, 0x4700_b200, 0xa0_0000, 130, 0x80_b200, 141, 0x1_3e45_677c_176f_6911, 0x72_2e00, 66, 0x2_0000_0000_0000_0000, 0x400_0000_0000);
}

/// Code 3.
proof fn lemma_entry_3()
    ensures
        0x3a6e_b40e == div_spec(number(30), number(32946)),
{
    lemma2_to64();
    lemma2_to64_rest();
    lemma_high_powers();
    lemma_number_known(0x1e, 5, 0x10, 0x8_0000);
    assert(number(30) == 0x41f0_0000);
    lemma_number_known(0x80b2, 16, 0x8000, 0x100);
    assert(number(32946) == 0x4700_b200);
    assert(0xf0_0000 * 0x1_0000_0000_0000_0000 == 0x1_dd68_1b3a_2327_1d9a * 0x80_b200 + 0x6a_ec00);
    lemma_quotient_known(0x41f0_0000, 0x4700_b200, 0xf0_0000, 130, 0x80_b200, 141, 0x1_dd68_1b3a_2327_1d9a, 0x6a_ec00, 66, 0x2_0000_0000_0000_0000, 0x400_0000_0000);
}

/// Code 4.
proof fn lemma_entry_4()
    ensures
        0x3a9f_22b4 == div_spec(number(40), number(32946)),
{
    lemma2_to64();
    lemma2_to64_rest();
    lemma_high_powers();
    lemma_number_known(0x28, 6, 0x20, 0x4_0000);
    assert(number(40) == 0x4220_0000);
    lemma_number_known(0x80b2, 16, 0x8000, 0x100);
    assert(number(32946) == 0x4700_b200);
    assert(0xa0_0000 * 0x1_0000_0000_0000_0000 == 0x1_3e45_677c_176f_6911 * 0x80_b200 + 0x72_2e00);
    lemma_quotient_known(0x4220_0000, 0x4700_b200, 0xa0_0000, 131, 0x80_b200, 141, 0x1_3e45_677c_176f_6911, 0x72_2e00, 66, 0x2_0000_0000_0000_0000, 0x400_0000_0000);
}

/// Code 5.
proof fn lemma_entry_5()
    ensures
        0x3ac6_eb61 == div_spec(number(50), number(32946)),
{
    lemma2_to64();
    lemma2_to64_rest();
    lemma_high_powers();
    lemma_number_known(0x32, 6, 0x20, 0x4_0000);
    assert(number(50) == 0x4248_0000);
    lemma_number_known(0x80b2, 16, 0x8000, 0x100);
    assert(number(32946) == 0x4700_b200);
    assert(0xc8_0000 * 0x1_0000_0000_0000_0000 == 0x1_8dd6_c15b_1d4b_4356 * 0x80_b200 + 0x2e_3400);
    lemma_quotient_known(0x4248_0000, 0x4700_b200, 0xc8_0000, 131, 0x80_b200, 141, 0x1_8dd6_c15b_1d4b_4356, 0x2e_3400, 66, 0x2_0000_0000_0000_0000, 0x400_0000_0000);
}

/// Code 6.
proof fn lemma_entry_6()
    ensures
        0x3aee_b40e == div_spec(number(60), number(32946)),
{
    lemma2_to64();
    lemma2_to64_rest();
    lemma_high_powers();
    lemma_number_known(0x3c, 6, 0x20, 0x4_0000);
    assert(number(60) == 0x4270_0000);
    lemma_number_known(0x80b2, 16, 0x8000, 0x100);
    assert(number(32946) == 0x4700_b200);
    assert(0xf0_0000 * 0x1_0000_0000_0000_0000 == 0x1_dd68_1b3a_2327_1d9a * 0x80_b200 + 0x6a_ec00);
    lemma_quotient_known(0x4270_0000, 0x4700_b200, 0xf0_0000, 131, 0x80_b200, 141, 0x1_dd68_1b3a_2327_1d9a, 0x6a_ec00, 66, 0x2_0000_0000_0000_0000, 0x400_0000_0000);
}

/// Code 7.
proof fn lemma_entry_7()
    ensures
        0x3b0b_3e5d == div_spec(number(70), number(32946)),
{
    lemma2_to64();
    lemma2_to64_rest();
    lemma_high_powers();
    lemma_number_known(0x46, 7, 0x40, 0x2_0000);
    assert(number(70) == 0x428c_0000);
    lemma_number_known(0x80b2, 16, 0x8000, 0x100);
    assert(number(32946) == 0x4700_b200);
    assert(0x8c_0000 * 0x1_0000_0000_0000_0000 == 0x1_167c_ba8c_9481_7bef * 0x80_b200 + 0x53_d200);
    lemma_quotient_known(0x428c_0000, 0x4700_b200, 0x8c_0000, 132, 0x80_b200, 141, 0x1_167c_ba8c_9481_7bef, 0x53_d200, 66, 0x2_0000_0000_0000_0000, 0x400_0000_0000);
}

/// Code 8.
proof fn lemma_entry_8()
    ensures
        0x3b1f_22b4 == div_spec(number(80), number(32946)),
{
    lemma2_to64();
    lemma2_to64_rest();
    lemma_high_powers();
    lemma_number_known(0x50, 7, 0x40, 0x2_0000);
    assert(number(80) == 0x42a0_0000);
    lemma_number_known(0x80b2, 16, 0x8000, 0x100);
    assert(number(32946) == 0x4700_b200);
    assert(0xa0_0000 * 0x1_0000_0000_0000_0000 == 0x1_3e45_677c_176f_6911 * 0x80_b200 + 0x72_2e00);
    lemma_quotient_known(0x42a0_0000, 0x4700_b200, 0xa0_0000, 132, 0x80_b200, 141, 0x1_3e45_677c_176f_6911, 0x72_2e00, 66, 0x2_0000_0000_0000_0000, 0x400_0000_0000);
}

/// Code 9.
proof fn lemma_entry_9()
    ensures
        0x3b33_070a == div_spec(number(90), number(32946)),
{
    lemma2_to64();
    lemma2_to64_rest();
    lemma_high_powers();
    lemma_number_known(0x5a, 7, 0x40, 0x2_0000);
    assert(number(90) == 0x42b4_0000);
    lemma_number_known(0x80b2, 16, 0x8000, 0x100);
    assert(number(32946) == 0x4700_b200);
    assert(0xb4_0000 * 0x1_0000_0000_0000_0000 == 0x1_660e_146b_9a5d_5634 * 0x80_b200 + 0xf_d800);
    lemma_quotient_known(0x42b4_0000, 0x4700_b200, 0xb4_0000, 132, 0x80_b200, 141, 0x1_660e_146b_9a5d_5634, 0xf_d800, 66, 0x2_0000_0000_0000_0000, 0x400_0000_0000);
}

/// Code 10.
proof fn lemma_entry_10()
    ensures
        0x3b46_eb61 == div_spec(number(100), number(32946)),
{
    lemma2_to64();
    lemma2_to64_rest();
    lemma_high_powers();
    lemma_number_known(0x64, 7, 0x40, 0x2_0000);
    assert(number(100) == 0x42c8_0000);
    lemma_number_known(0x80b2, 16, 0x8000, 0x100);
    assert(number(32946) == 0x4700_b200);
    assert(0xc8_0000 * 0x1_0000_0000_0000_0000 == 0x1_8dd6_c15b_1d4b_4356 * 0x80_b200 + 0x2e_3400);
    lemma_quotient_known(0x42c8_0000, 0x4700_b200, 0xc8_0000, 132, 0x80_b200, 141, 0x1_8dd6_c15b_1d4b_4356, 0x2e_3400, 66, 0x2_0000_0000_0000_0000, 0x400_0000_0000);
}

/// Code 11.
proof fn lemma_entry_11()
    ensures
        nearest_to_power(0x3b5b_518e, 25025, 269025),
{
    lemma_fifth_powers_of_two();
    assert(25025nat * 25025 * 25025 == 0xe40_e756_5541);
    assert(0xe40_e756_5541 * 0xe40_e756_5541 == 0xcb_29c1_ed8a_a778_b210_3a81nat);
    assert(0x1b6_a31b * 0x1b6_a31b == 0x2_ef92_884f_64d9);
    assert(0x2_ef92_884f_64d9 * 0x2_ef92_884f_64d9 == 0x8_9e7d_0fa1_94d4_a949_f5a8_3ff1nat);
    assert(0x1b6_a31d * 0x1b6_a31d == 0x2_ef92_8f29_f149);
    assert(0x2_ef92_8f29_f149 * 0x2_ef92_8f29_f149 == 0x8_9e7d_37df_b191_67b2_bacc_86d1nat);
    assert(269025nat * 269025 * 269025 == 0x45_2c59_9066_9ca1);
    assert(0x45_2c59_9066_9ca1 * 0x45_2c59_9066_9ca1 == 0x12b0_eff6_c049_6d6d_d948_5020_9d41nat);
    assert(0x12b0_eff6_c049_6d6d_d948_5020_9d41nat * 0x12b0_eff6_c049_6d6d_d948_5020_9d41nat == 0x15d_5c09_8741_6139_2178_92b9_bce5_5f46_89a2_dd05_b95f_0d00_50d8_ca81nat);
    assert(0xcb_29c1_ed8a_a778_b210_3a81nat * 0xcb_29c1_ed8a_a778_b210_3a81nat == 0xa13b_405e_6ae4_0a89_97f0_ed2c_3f8c_8479_b952_c17e_b501nat);
    assert(0x8_9e7d_0fa1_94d4_a949_f5a8_3ff1nat * 0x1b6_a31b == 0xec4_a7cb_1699_2ba7_bec2_4014_6fcb_316bnat);
    assert(0x8_9e7d_37df_b191_67b2_bacc_86d1nat * 0x1b6_a31d == 0xec4_a821_477c_912e_1e4b_261e_0c98_58adnat);
    assert(0xec4_a7cb_1699_2ba7_bec2_4014_6fcb_316bnat * 0x15d_5c09_8741_6139_2178_92b9_bce5_5f46_89a2_dd05_b95f_0d00_50d8_ca81nat == 0x14_2767_f8e2_2b19_dd89_013d_305e_395b_817f_fea3_6345_0d32_4e3f_bf34_84b8_0453_0bbe_b6da_d5d7_ac65_ccaa_54ebnat);
    assert(0xec4_a821_477c_912e_1e4b_261e_0c98_58adnat * 0x15d_5c09_8741_6139_2178_92b9_bce5_5f46_89a2_dd05_b95f_0d00_50d8_ca81nat == 0x14_2768_6e81_cde2_3fff_2af6_4e73_2102_693b_3094_94a2_2171_1ef4_b33d_6c01_bf3f_5be5_f718_c6ef_f055_70b5_312dnat);
    assert(0xa13b_405e_6ae4_0a89_97f0_ed2c_3f8c_8479_b952_c17e_b501nat * 0x20_0000_0000_0000_0000_0000_0000_0000_0000_0000_0000nat == 0x14_2768_0bcd_5c81_5132_fe1d_a587_f190_8f37_2a58_2fd6_a020_0000_0000_0000_0000_0000_0000_0000_0000_0000_0000nat);
    lemma_power_known(
        0x3b5b_518e, 0xdb_518e, 117, 0x20_0000_0000_0000_0000_0000_0000_0000_0000_0000_0000nat,
        25025, 0xe40_e756_5541,
        0xcb_29c1_ed8a_a778_b210_3a81nat,
        269025, 0x45_2c59_9066_9ca1,
        0x12b0_eff6_c049_6d6d_d948_5020_9d41nat,
        0x2_ef92_884f_64d9, 0x8_9e7d_0fa1_94d4_a949_f5a8_3ff1nat,
        0x2_ef92_8f29_f149, 0x8_9e7d_37df_b191_67b2_bacc_86d1nat,
    );
}

/// Code 12.
proof fn lemma_entry_12()
    ensures
        nearest_to_power(0x3b70_f18f, 26025, 269025),
{
    lemma_fifth_powers_of_two();
    assert(26025nat * 26025 * 26025 == 0x1008_0c19_45b9);
    assert(0x1008_0c19_45b9 * 0x1008_0c19_45b9 == 0x101_01c3_eadd_dc98_091f_3fb1nat);
    assert(0x1e1_e31d * 0x1e1_e31d == 0x3_8b17_3c76_7149);
    assert(0x3_8b17_3c76_7149 * 0x3_8b17_3c76_7149 == 0xc_8e1d_a88b_324b_5d04_d96d_86d1nat);
    assert(0x1e1_e31f * 0x1e1_e31f == 0x3_8b17_43fd_fdc1);
    assert(0x3_8b17_43fd_fdc1 * 0x3_8b17_43fd_fdc1 == 0xc_8e1d_dde7_0dc8_1d80_9101_0b81nat);
    assert(269025nat * 269025 * 269025 == 0x45_2c59_9066_9ca1);
    assert(0x45_2c59_9066_9ca1 * 0x45_2c59_9066_9ca1 == 0x12b0_eff6_c049_6d6d_d948_5020_9d41nat);
    assert(0x12b0_eff6_c049_6d6d_d948_5020_9d41nat * 0x12b0_eff6_c049_6d6d_d948_5020_9d41nat == 0x15d_5c09_8741_6139_2178_92b9_bce5_5f46_89a2_dd05_b95f_0d00_50d8_ca81nat);
    assert(0x101_01c3_eadd_dc98_091f_3fb1nat * 0x101_01c3_eadd_dc98_091f_3fb1nat == 0x1_0204_8b60_af3a_4a73_e7fa_92be_f402_1681_107a_eeb6_9861nat);
    assert(0xc_8e1d_a88b_324b_5d04_d96d_86d1nat * 0x1e1_e31d == 0x17a2_292a_1359_04f7_4c21_5d23_0ea4_98adnat);
    assert(0xc_8e1d_dde7_0dc8_1d80_9101_0b81nat * 0x1e1_e31f == 0x17a2_29a7_a082_a532_8bf5_061c_19b4_c79fnat);
    assert(0x17a2_292a_1359_04f7_4c21_5d23_0ea4_98adnat * 0x15d_5c09_8741_6139_2178_92b9_bce5_5f46_89a2_dd05_b95f_0d00_50d8_ca81nat == 0x20_4091_4657_7ea5_ccba_d552_b265_1e45_e6e9_0e87_4e13_a0cb_3c52_65e4_8346_632d_a109_c97a_4369_2bcf_2361_712dnat);
    assert(0x17a2_29a7_a082_a532_8bf5_061c_19b4_c79fnat * 0x15d_5c09_8741_6139_2178_92b9_bce5_5f46_89a2_dd05_b95f_0d00_50d8_ca81nat == 0x20_4091_f1ae_13cc_7f0e_3f77_e917_160e_e41b_5ca4_f989_86ab_6920_861e_78ce_10df_255c_8e4e_f62c_825b_b7c4_0d1fnat);
    assert(0x1_0204_8b60_af3a_4a73_e7fa_92be_f402_1681_107a_eeb6_9861nat * 0x20_0000_0000_0000_0000_0000_0000_0000_0000_0000_0000nat == 0x20_4091_6c15_e749_4e7c_ff52_57de_8042_d022_0f5d_d6d3_0c20_0000_0000_0000_0000_0000_0000_0000_0000_0000_0000nat);
    lemma_power_known(
        0x3b70_f18f, 0xf0_f18f, 117, 0x20_0000_0000_0000_0000_0000_0000_0000_0000_0000_0000nat,
        26025, 0x1008_0c19_45b9,
        0x101_01c3_eadd_dc98_091f_3fb1nat,
        269025, 0x45_2c59_9066_9ca1,
        0x12b0_eff6_c049_6d6d_d948_5020_9d41nat,
        0x3_8b17_3c76_7149, 0xc_8e1d_a88b_324b_5d04_d96d_86d1nat,
        0x3_8b17_43fd_fdc1, 0xc_8e1d_dde7_0dc8_1d80_9101_0b81nat,
    );
}

/// Code 13.
proof fn lemma_entry_13()
    ensures
        nearest_to_power(0x3b83_e1c6, 27025, 269025),
{
    lemma_fifth_powers_of_two();
    assert(27025nat * 27025 * 27025 == 0x11f3_8c20_1fb1);
    assert(0x11f3_8c20_1fb1 * 0x11f3_8c20_1fb1 == 0x142_404f_95e4_d2b7_882c_5861nat);
    assert(0x107_c38b * 0x107_c38b == 0x1_0fc3_5cf7_0d79);
    assert(0x1_0fc3_5cf7_0d79 * 0x1_0fc3_5cf7_0d79 == 0x1_207f_33e9_d0a7_346f_f833_8331nat);
    assert(0x107_c38d * 0x107_c38d == 0x1_0fc3_6116_1ba9);
    assert(0x1_0fc3_6116_1ba9 * 0x1_0fc3_6116_1ba9 == 0x1_207f_3ca9_db0f_b454_d609_1591nat);
    assert(269025nat * 269025 * 269025 == 0x45_2c59_9066_9ca1);
    assert(0x45_2c59_9066_9ca1 * 0x45_2c59_9066_9ca1 == 0x12b0_eff6_c049_6d6d_d948_5020_9d41nat);
    assert(0x12b0_eff6_c049_6d6d_d948_5020_9d41nat * 0x12b0_eff6_c049_6d6d_d948_5020_9d41nat == 0x15d_5c09_8741_6139_2178_92b9_bce5_5f46_89a2_dd05_b95f_0d00_50d8_ca81nat);
    assert(0x142_404f_95e4_d2b7_882c_5861nat * 0x142_404f_95e4_d2b7_882c_5861nat == 0x1_95a5_d85c_f752_5a0c_8abc_3472_d8b9_0f9c_a443_8fda_d4c1nat);
    assert(0x1_207f_33e9_d0a7_346f_f833_8331nat * 0x107_c38b == 0x129_3f0b_ded1_a5aa_86c2_bfc6_c83d_8e9bnat);
    assert(0x1_207f_3ca9_db0f_b454_d609_1591nat * 0x107_c38d == 0x129_3f17_23c9_d88c_e12a_d517_f665_53ddnat);
    assert(0x129_3f0b_ded1_a5aa_86c2_bfc6_c83d_8e9bnat * 0x15d_5c09_8741_6139_2178_92b9_bce5_5f46_89a2_dd05_b95f_0d00_50d8_ca81nat == 0x1_95a5_d0e7_4b76_2e1f_5ab6_a87b_b663_daa8_057b_dc55_4c1e_c9e4_9941_dff9_948f_b9f7_149b_9084_8cac_3c53_2a1bnat);
    assert(0x129_3f17_23c9_d88c_e12a_d517_f665_53ddnat * 0x15d_5c09_8741_6139_2178_92b9_bce5_5f46_89a2_dd05_b95f_0d00_50d8_ca81nat == 0x1_95a5_e048_5f08_1ff7_6a8e_765d_47c9_3702_b140_03c4_1c29_ef60_13d9_599b_edcf_3cd0_f46d_8537_1232_efb3_a45dnat);
    assert(0x1_95a5_d85c_f752_5a0c_8abc_3472_d8b9_0f9c_a443_8fda_d4c1nat * 0x1_0000_0000_0000_0000_0000_0000_0000_0000_0000_0000nat == 0x1_95a5_d85c_f752_5a0c_8abc_3472_d8b9_0f9c_a443_8fda_d4c1_0000_0000_0000_0000_0000_0000_0000_0000_0000_0000nat);
    lemma_power_known(
        0x3b83_e1c6, 0x83_e1c6, 118, 0x1_0000_0000_0000_0000_0000_0000_0000_0000_0000_0000nat,
        27025, 0x11f3_8c20_1fb1,
        0x142_404f_95e4_d2b7_882c_5861nat,
        269025, 0x45_2c59_9066_9ca1,
        0x12b0_eff6_c049_6d6d_d948_5020_9d41nat,
        0x1_0fc3_5cf7_0d79, 0x1_207f_33e9_d0a7_346f_f833_8331nat,
        0x1_0fc3_6116_1ba9, 0x1_207f_3ca9_db0f_b454_d609_1591nat,
    );
}

/// Code 14.
proof fn lemma_entry_14()
    ensures
        nearest_to_power(0x3b8f_e616, 28025, 269025),
{
    lemma_fifth_powers_of_two();
    assert(28025nat * 28025 * 28025 == 0x1404_cd0b_9f29);
    assert(0x1404_cd0b_9f29 * 0x1404_cd0b_9f29 == 0x190_c020_dd76_feb6_ba79_f491nat);
    assert(0x11f_cc2b * 0x11f_cc2b == 0x1_438b_6b3e_8f39);
    assert(0x1_438b_6b3e_8f39 * 0x1_438b_6b3e_8f39 == 0x1_98e9_1c8d_8046_b8e9_55bc_bab1nat);
    assert(0x11f_cc2d * 0x11f_cc2d == 0x1_438b_6fbd_bfe9);
    assert(0x1_438b_6fbd_bfe9 * 0x1_438b_6fbd_bfe9 == 0x1_98e9_27eb_5b1a_7616_fbe7_8211nat);
    assert(269025nat * 269025 * 269025 == 0x45_2c59_9066_9ca1);
    assert(0x45_2c59_9066_9ca1 * 0x45_2c59_9066_9ca1 == 0x12b0_eff6_c049_6d6d_d948_5020_9d41nat);
    assert(0x12b0_eff6_c049_6d6d_d948_5020_9d41nat * 0x12b0_eff6_c049_6d6d_d948_5020_9d41nat == 0x15d_5c09_8741_6139_2178_92b9_bce5_5f46_89a2_dd05_b95f_0d00_50d8_ca81nat);
    assert(0x190_c020_dd76_feb6_ba79_f491nat * 0x190_c020_dd76_feb6_ba79_f491nat == 0x2_7358_f6e5_6446_966f_2d99_1e50_3967_7e38_eba7_ceb6_ba21nat);
    assert(0x1_98e9_1c8d_8046_b8e9_55bc_bab1nat * 0x11f_cc2b == 0x1cb_b375_748b_5d46_34d2_1e19_17e7_67bbnat);
    assert(0x1_98e9_27eb_5b1a_7616_fbe7_8211nat * 0x11f_cc2d == 0x1cb_b385_6da6_b3a2_7d85_7b51_9466_68fdnat);
    assert(0x1cb_b375_748b_5d46_34d2_1e19_17e7_67bbnat * 0x15d_5c09_8741_6139_2178_92b9_bce5_5f46_89a2_dd05_b95f_0d00_50d8_ca81nat == 0x2_7358_ecba_480b_6e00_2b6e_996c_b82f_040d_dbee_315f_447c_c017_e080_9c89_fa7f_4216_7573_07ee_f22b_993c_d33bnat);
    assert(0x1cb_b385_6da6_b3a2_7d85_7b51_9466_68fdnat * 0x15d_5c09_8741_6139_2178_92b9_bce5_5f46_89a2_dd05_b95f_0d00_50d8_ca81nat == 0x2_7359_0286_a06e_2f40_36c3_3473_b574_2116_75df_d721_89bd_a076_de8e_07a9_cb72_c596_0970_1cfe_936c_3bea_897dnat);
    assert(0x2_7358_f6e5_6446_966f_2d99_1e50_3967_7e38_eba7_ceb6_ba21nat * 0x1_0000_0000_0000_0000_0000_0000_0000_0000_0000_0000nat == 0x2_7358_f6e5_6446_966f_2d99_1e50_3967_7e38_eba7_ceb6_ba21_0000_0000_0000_0000_0000_0000_0000_0000_0000_0000nat);
    lemma_power_known(
        0x3b8f_e616, 0x8f_e616, 118, 0x1_0000_0000_0000_0000_0000_0000_0000_0000_0000_0000nat,
        28025, 0x1404_cd0b_9f29,
        0x190_c020_dd76_feb6_ba79_f491nat,
        269025, 0x45_2c59_9066_9ca1,
        0x12b0_eff6_c049_6d6d_d948_5020_9d41nat,
        0x1_438b_6b3e_8f39, 0x1_98e9_1c8d_8046_b8e9_55bc_bab1nat,
        0x1_438b_6fbd_bfe9, 0x1_98e9_27eb_5b1a_7616_fbe7_8211nat,
    );
}

/// Code 15.
proof fn lemma_entry_15()
    ensures
        nearest_to_power(0x3b9c_87fd, 29025, 269025),
{
    lemma_fifth_powers_of_two();
    assert(29025nat * 29025 * 29025 == 0x163d_347c_8021);
    assert(0x163d_347c_8021 * 0x163d_347c_8021 == 0x1ee_93a7_741d_8c53_c819_0441nat);
    assert(0x139_0ff9 * 0x139_0ff9 == 0x1_7ed8_0fe1_2031);
    assert(0x1_7ed8_0fe1_2031 * 0x1_7ed8_0fe1_2031 == 0x2_3c89_85be_a8f4_b66f_582e_4961nat);
    assert(0x139_0ffb * 0x139_0ffb == 0x1_7ed8_14c5_6019);
    assert(0x1_7ed8_14c5_6019 * 0x1_7ed8_14c5_6019 == 0x2_3c89_9460_198c_3560_f28c_c271nat);
    assert(269025nat * 269025 * 269025 == 0x45_2c59_9066_9ca1);
    assert(0x45_2c59_9066_9ca1 * 0x45_2c59_9066_9ca1 == 0x12b0_eff6_c049_6d6d_d948_5020_9d41nat);
    assert(0x12b0_eff6_c049_6d6d_d948_5020_9d41nat * 0x12b0_eff6_c049_6d6d_d948_5020_9d41nat == 0x15d_5c09_8741_6139_2178_92b9_bce5_5f46_89a2_dd05_b95f_0d00_50d8_ca81nat);
    assert(0x1ee_93a7_741d_8c53_c819_0441nat * 0x1ee_93a7_741d_8c53_c819_0441nat == 0x3_bb7e_2f6d_deec_35b8_583d_3b9f_f29a_9800_f33d_64c4_1881nat);
    assert(0x2_3c89_85be_a8f4_b66f_582e_4961nat * 0x139_0ff9 == 0x2bc_27dd_76b5_d58b_bad8_c90f_32eb_0e59nat);
    assert(0x2_3c89_9460_198c_3560_f28c_c271nat * 0x139_0ffb == 0x2bc_27f3_d415_5825_8721_925d_cb90_43cbnat);
    assert(0x2bc_27dd_76b5_d58b_bad8_c90f_32eb_0e59nat * 0x15d_5c09_8741_6139_2178_92b9_bce5_5f46_89a2_dd05_b95f_0d00_50d8_ca81nat == 0x3_bb7e_114d_bf2c_74d0_cf93_56d9_065f_1baf_adfa_a84e_04ea_33d1_c72f_a6d4_edab_5e5b_e782_2e61_3ea6_0cdc_74d9nat);
    assert(0x2bc_27f3_d415_5825_8721_925d_cb90_43cbnat * 0x15d_5c09_8741_6139_2178_92b9_bce5_5f46_89a2_dd05_b95f_0d00_50d8_ca81nat == 0x3_bb7e_2fd3_14c4_ecba_bd1e_48ff_f396_d397_3b55_5596_bfba_912d_da7b_05e6_2d81_ab59_aa6e_92ef_e9cc_0c78_574bnat);
    assert(0x3_bb7e_2f6d_deec_35b8_583d_3b9f_f29a_9800_f33d_64c4_1881nat * 0x1_0000_0000_0000_0000_0000_0000_0000_0000_0000_0000nat == 0x3_bb7e_2f6d_deec_35b8_583d_3b9f_f29a_9800_f33d_64c4_1881_0000_0000_0000_0000_0000_0000_0000_0000_0000_0000nat);
    lemma_power_known(
        0x3b9c_87fd, 0x9c_87fd, 118, 0x1_0000_0000_0000_0000_0000_0000_0000_0000_0000_0000nat,
        29025, 0x163d_347c_8021,
        0x1ee_93a7_741d_8c53_c819_0441nat,
        269025, 0x45_2c59_9066_9ca1,
        0x12b0_eff6_c049_6d6d_d948_5020_9d41nat,
        0x1_7ed8_0fe1_2031, 0x2_3c89_85be_a8f4_b66f_582e_4961nat,
        0x1_7ed8_14c5_6019, 0x2_3c89_9460_198c_3560_f28c_c271nat,
    );
}

/// Code 16.
proof fn lemma_entry_16()
    ensures
        nearest_to_power(0x3ba9_c9b6, 30025, 269025),
{
    lemma_fifth_powers_of_two();
    assert(30025nat * 30025 * 30025 == 0x189e_2813_7e99);
    assert(0x189e_2813_7e99 * 0x189e_2813_7e99 == 0x25e_0939_2613_0de7_d950_f771nat);
    assert(0x153_936b * 0x153_936b == 0x1_c26f_c246_0eb9);
    assert(0x1_c26f_c246_0eb9 * 0x1_c26f_c246_0eb9 == 0x3_188d_17c8_57f1_69ea_7204_c1b1nat);
    assert(0x153_936d * 0x153_936d == 0x1_c26f_c794_5c69);
    assert(0x1_c26f_c794_5c69 * 0x1_c26f_c794_5c69 == 0x3_188d_2a74_4321_44b4_38c3_a311nat);
    assert(269025nat * 269025 * 269025 == 0x45_2c59_9066_9ca1);
    assert(0x45_2c59_9066_9ca1 * 0x45_2c59_9066_9ca1 == 0x12b0_eff6_c049_6d6d_d948_5020_9d41nat);
    assert(0x12b0_eff6_c049_6d6d_d948_5020_9d41nat * 0x12b0_eff6_c049_6d6d_d948_5020_9d41nat == 0x15d_5c09_8741_6139_2178_92b9_bce5_5f46_89a2_dd05_b95f_0d00_50d8_ca81nat);
    assert(0x25e_0939_2613_0de7_d950_f771nat * 0x25e_0939_2613_0de7_d950_f771nat == 0x5_9aaf_aae5_53a5_26c9_0365_d81f_cbd8_6880_6507_27cb_3fe1nat);
    assert(0x3_188d_17c8_57f1_69ea_7204_c1b1nat * 0x153_936b == 0x41b_4b3a_c5ed_6feb_a32d_e0c2_e098_97fbnat);
    assert(0x3_188d_2a74_4321_44b4_38c3_a311nat * 0x153_936d == 0x41b_4b59_bb70_bb1a_aa44_e865_7172_313dnat);
    assert(0x41b_4b3a_c5ed_6feb_a32d_e0c2_e098_97fbnat * 0x15d_5c09_8741_6139_2178_92b9_bce5_5f46_89a2_dd05_b95f_0d00_50d8_ca81nat == 0x5_9aaf_854a_0a0d_383a_03b4_bcef_f255_7ae2_9e37_7392_f0e0_4a7a_2bbe_f4b3_4611_57d3_8435_80f1_f6aa_4098_a37bnat);
    assert(0x41b_4b59_bb70_bb1a_aa44_e865_7172_313dnat * 0x15d_5c09_8741_6139_2178_92b9_bce5_5f46_89a2_dd05_b95f_0d00_50d8_ca81nat == 0x5_9aaf_af89_df6c_e359_8e39_05be_5d80_2006_8dca_f3e1_df12_69ee_ca1a_0de0_9b13_40ea_ea77_1c47_a75e_e0dc_f1bdnat);
    assert(0x5_9aaf_aae5_53a5_26c9_0365_d81f_cbd8_6880_6507_27cb_3fe1nat * 0x1_0000_0000_0000_0000_0000_0000_0000_0000_0000_0000nat == 0x5_9aaf_aae5_53a5_26c9_0365_d81f_cbd8_6880_6507_27cb_3fe1_0000_0000_0000_0000_0000_0000_0000_0000_0000_0000nat);
    lemma_power_known(
        0x3ba9_c9b6, 0xa9_c9b6, 118, 0x1_0000_0000_0000_0000_0000_0000_0000_0000_0000_0000nat,
        30025, 0x189e_2813_7e99,
        0x25e_0939_2613_0de7_d950_f771nat,
        269025, 0x45_2c59_9066_9ca1,
        0x12b0_eff6_c049_6d6d_d948_5020_9d41nat,
        0x1_c26f_c246_0eb9, 0x3_188d_17c8_57f1_69ea_7204_c1b1nat,
        0x1_c26f_c794_5c69, 0x3_188d_2a74_4321_44b4_38c3_a311nat,
    );
}

/// Code 17.
proof fn lemma_entry_17()
    ensures
        nearest_to_power(0x3bb7_ad6f, 31025, 269025),
{
    lemma_fifth_powers_of_two();
    assert(31025nat * 31025 * 31025 == 0x1b29_0d71_5691);
    assert(0x1b29_0d71_5691 * 0x1b29_0d71_5691 == 0x2e1_af6b_3745_056a_4347_be21nat);
    assert(0x16f_5add * 0x16f_5add == 0x2_0f25_a5e6_22c9);
    assert(0x2_0f25_a5e6_22c9 * 0x2_0f25_a5e6_22c9 == 0x4_3d7c_0692_e340_13d3_9fe6_01d1nat);
    assert(0x16f_5adf * 0x16f_5adf == 0x2_0f25_aba3_8e41);
    assert(0x2_0f25_aba3_8e41 * 0x2_0f25_aba3_8e41 == 0x4_3d7c_1e36_740a_a553_4bd2_2c81nat);
    assert(269025nat * 269025 * 269025 == 0x45_2c59_9066_9ca1);
    assert(0x45_2c59_9066_9ca1 * 0x45_2c59_9066_9ca1 == 0x12b0_eff6_c049_6d6d_d948_5020_9d41nat);
    assert(0x12b0_eff6_c049_6d6d_d948_5020_9d41nat * 0x12b0_eff6_c049_6d6d_d948_5020_9d41nat == 0x15d_5c09_8741_6139_2178_92b9_bce5_5f46_89a2_dd05_b95f_0d00_50d8_ca81nat);
    assert(0x2e1_af6b_3745_056a_4347_be21nat * 0x2e1_af6b_3745_056a_4347_be21nat == 0x8_4db3_7f87_fde0_cadf_ecd4_a23a_78b1_424f_5ef4_4983_0041nat);
    assert(0x4_3d7c_0692_e340_13d3_9fe6_01d1nat * 0x16f_5add == 0x615_a614_1af5_198f_21ab_bea4_80d2_0b6dnat);
    assert(0x4_3d7c_1e36_740a_a553_4bd2_2c81nat * 0x16f_5adf == 0x615_a63e_81cd_d17d_d5ce_fe84_bca9_1e5fnat);
    assert(0x615_a614_1af5_198f_21ab_bea4_80d2_0b6dnat * 0x15d_5c09_8741_6139_2178_92b9_bce5_5f46_89a2_dd05_b95f_0d00_50d8_ca81nat == 0x8_4db3_6b11_c8ec_34cb_96b6_d8eb_8be1_0d00_49b2_7bf1_f89e_ba9b_6d2d_f63d_00aa_07ba_2b0d_6c0e_bc56_5ad3_c3ednat);
    assert(0x615_a63e_81cd_d17d_d5ce_fe84_bca9_1e5fnat * 0x15d_5c09_8741_6139_2178_92b9_bce5_5f46_89a2_dd05_b95f_0d00_50d8_ca81nat == 0x8_4db3_a4ef_3ce8_dbff_eb5a_1196_213a_66f8_b12f_0787_45cc_cbaf_bc2a_5374_435b_8529_8372_cfe2_d8ef_d357_43dfnat);
    assert(0x8_4db3_7f87_fde0_cadf_ecd4_a23a_78b1_424f_5ef4_4983_0041nat * 0x1_0000_0000_0000_0000_0000_0000_0000_0000_0000_0000nat == 0x8_4db3_7f87_fde0_cadf_ecd4_a23a_78b1_424f_5ef4_4983_0041_0000_0000_0000_0000_0000_0000_0000_0000_0000_0000nat);
    lemma_power_known(
        0x3bb7_ad6f, 0xb7_ad6f, 118, 0x1_0000_0000_0000_0000_0000_0000_0000_0000_0000_0000nat,
        31025, 0x1b29_0d71_5691,
        0x2e1_af6b_3745_056a_4347_be21nat,
        269025, 0x45_2c59_9066_9ca1,
        0x12b0_eff6_c049_6d6d_d948_5020_9d41nat,
        0x2_0f25_a5e6_22c9, 0x4_3d7c_0692_e340_13d3_9fe6_01d1nat,
        0x2_0f25_aba3_8e41, 0x4_3d7c_1e36_740a_a553_4bd2_2c81nat,
    );
}

/// Code 18.
proof fn lemma_entry_18()
    ensures
        nearest_to_power(0x3bc6_354a, 32025, 269025),
{
    lemma_fifth_powers_of_two();
    assert(32025nat * 32025 * 32025 == 0x1ddf_4a36_c409);
    assert(0x1ddf_4a36_c409 * 0x1ddf_4a36_c409 == 0x37c_5992_c957_46ba_7de9_c851nat);
    assert(0x18c_6a93 * 0x18c_6a93 == 0x2_65d9_e326_1069);
    assert(0x2_65d9_e326_1069 * 0x2_65d9_e326_1069 == 0x5_bfed_3347_2aab_32c5_1639_4b11nat);
    assert(0x18c_6a95 * 0x18c_6a95 == 0x2_65d9_e957_bab9);
    assert(0x2_65d9_e957_bab9 * 0x2_65d9_e957_bab9 == 0x5_bfed_50fb_8fa5_5797_33ef_59b1nat);
    assert(269025nat * 269025 * 269025 == 0x45_2c59_9066_9ca1);
    assert(0x45_2c59_9066_9ca1 * 0x45_2c59_9066_9ca1 == 0x12b0_eff6_c049_6d6d_d948_5020_9d41nat);
    assert(0x12b0_eff6_c049_6d6d_d948_5020_9d41nat * 0x12b0_eff6_c049_6d6d_d948_5020_9d41nat == 0x15d_5c09_8741_6139_2178_92b9_bce5_5f46_89a2_dd05_b95f_0d00_50d8_ca81nat);
    assert(0x37c_5992_c957_46ba_7de9_c851nat * 0x37c_5992_c957_46ba_7de9_c851nat == 0xc_2680_5642_7c5d_d8b1_f842_206e_0490_683f_84d1_5a30_a9a1nat);
    assert(0x5_bfed_3347_2aab_32c5_1639_4b11nat * 0x18c_6a93 == 0x8e7_47b0_be85_ea5a_ec32_22ff_9a47_24c3nat);
    assert(0x5_bfed_50fb_8fa5_5797_33ef_59b1nat * 0x18c_6a95 == 0x8e7_47ea_3dca_7fa8_8f64_ecc1_133e_7e05nat);
    assert(0x8e7_47b0_be85_ea5a_ec32_22ff_9a47_24c3nat * 0x15d_5c09_8741_6139_2178_92b9_bce5_5f46_89a2_dd05_b95f_0d00_50d8_ca81nat == 0xc_2680_2e8d_0328_580d_d951_660e_748f_3561_7e6f_1f35_3471_0304_1626_ae24_25b5_1e92_7f0a_28fc_a10c_d563_6443nat);
    assert(0x8e7_47ea_3dca_7fa8_8f64_ecc1_133e_7e05nat * 0x15d_5c09_8741_6139_2178_92b9_bce5_5f46_89a2_dd05_b95f_0d00_50d8_ca81nat == 0xc_2680_7d04_2f88_62c2_cd23_2135_5225_5feb_8f99_650d_9d3b_3a48_26d7_410f_6e1b_908e_be8f_8ad8_ab95_e625_7285nat);
    assert(0xc_2680_5642_7c5d_d8b1_f842_206e_0490_683f_84d1_5a30_a9a1nat * 0x1_0000_0000_0000_0000_0000_0000_0000_0000_0000_0000nat == 0xc_2680_5642_7c5d_d8b1_f842_206e_0490_683f_84d1_5a30_a9a1_0000_0000_0000_0000_0000_0000_0000_0000_0000_0000nat);
    lemma_power_known(
        0x3bc6_354a, 0xc6_354a, 118, 0x1_0000_0000_0000_0000_0000_0000_0000_0000_0000_0000nat,
        32025, 0x1ddf_4a36_c409,
        0x37c_5992_c957_46ba_7de9_c851nat,
        269025, 0x45_2c59_9066_9ca1,
        0x12b0_eff6_c049_6d6d_d948_5020_9d41nat,
        0x2_65d9_e326_1069, 0x5_bfed_3347_2aab_32c5_1639_4b11nat,
        0x2_65d9_e957_bab9, 0x5_bfed_50fb_8fa5_5797_33ef_59b1nat,
    );
}

/// Code 19.
proof fn lemma_entry_19()
    ensures
        nearest_to_power(0x3bd5_6360, 33025, 269025),
{
    lemma_fifth_powers_of_two();
    assert(33025nat * 33025 * 33025 == 0x20c2_4404_8301);
    assert(0x20c2_4404_8301 * 0x20c2_4404_8301 == 0x431_246c_49a9_3330_e312_0601nat);
    assert(0x1aa_c6bf * 0x1aa_c6bf == 0x2_c77a_0df8_0281);
    assert(0x2_c77a_0df8_0281 * 0x2_c77a_0df8_0281 == 0x7_b957_33c8_ef0e_1179_f3f6_4501nat);
    assert(0x1aa_c6c1 * 0x1aa_c6c1 == 0x2_c77a_14a3_1d81);
    assert(0x2_c77a_14a3_1d81 * 0x2_c77a_14a3_1d81 == 0x7_b957_58d9_bb04_917e_bdac_7b01nat);
    assert(269025nat * 269025 * 269025 == 0x45_2c59_9066_9ca1);
    assert(0x45_2c59_9066_9ca1 * 0x45_2c59_9066_9ca1 == 0x12b0_eff6_c049_6d6d_d948_5020_9d41nat);
    assert(0x12b0_eff6_c049_6d6d_d948_5020_9d41nat * 0x12b0_eff6_c049_6d6d_d948_5020_9d41nat == 0x15d_5c09_8741_6139_2178_92b9_bce5_5f46_89a2_dd05_b95f_0d00_50d8_ca81nat);
    assert(0x431_246c_49a9_3330_e312_0601nat * 0x431_246c_49a9_3330_e312_0601nat == 0x11_9292_58f0_1ee4_f22a_5d39_7f8f_f1df_9de1_9e4a_9e48_0c01nat);
    assert(0x7_b957_33c8_ef0e_1179_f3f6_4501nat * 0x1aa_c6bf == 0xce0_6a38_e67a_d938_51f3_547c_51c6_41bfnat);
    assert(0x7_b957_58d9_bb04_917e_bdac_7b01nat * 0x1aa_c6c1 == 0xce0_6a86_23e3_9865_a3e1_5845_15d5_81c1nat);
    assert(0xce0_6a38_e67a_d938_51f3_547c_51c6_41bfnat * 0x15d_5c09_8741_6139_2178_92b9_bce5_5f46_89a2_dd05_b95f_0d00_50d8_ca81nat == 0x11_9291_f070_0631_440d_1b2a_ae36_63a9_8b59_e541_56e9_e5b2_48ff_9809_2fac_127a_1273_2fb8_ecf2_51fe_cdef_d73fnat);
    assert(0xce0_6a86_23e3_9865_a3e1_5845_15d5_81c1nat * 0x15d_5c09_8741_6139_2178_92b9_bce5_5f46_89a2_dd05_b95f_0d00_50d8_ca81nat == 0x11_9292_59d8_82ef_8154_f89a_2868_9257_013f_4aa4_2ae8_c943_442f_9847_7f9a_4ad3_481f_bd1f_ec86_efbc_43d0_ac41nat);
    assert(0x11_9292_58f0_1ee4_f22a_5d39_7f8f_f1df_9de1_9e4a_9e48_0c01nat * 0x1_0000_0000_0000_0000_0000_0000_0000_0000_0000_0000nat == 0x11_9292_58f0_1ee4_f22a_5d39_7f8f_f1df_9de1_9e4a_9e48_0c01_0000_0000_0000_0000_0000_0000_0000_0000_0000_0000nat);
    lemma_power_known(
        0x3bd5_6360, 0xd5_6360, 118, 0x1_0000_0000_0000_0000_0000_0000_0000_0000_0000_0000nat,
        33025, 0x20c2_4404_8301,
        0x431_246c_49a9_3330_e312_0601nat,
        269025, 0x45_2c59_9066_9ca1,
        0x12b0_eff6_c049_6d6d_d948_5020_9d41nat,
        0x2_c77a_0df8_0281, 0x7_b957_33c8_ef0e_1179_f3f6_4501nat,
        0x2_c77a_14a3_1d81, 0x7_b957_58d9_bb04_917e_bdac_7b01nat,
    );
}

/// Code 20.
proof fn lemma_entry_20()
    ensures
        nearest_to_power(0x3be5_39c1, 34025, 269025),
{
    lemma_fifth_powers_of_two();
    assert(34025nat * 34025 * 34025 == 0x23d3_607b_4f79);
    assert(0x23d3_607b_4f79 * 0x23d3_607b_4f79 == 0x503_7ae9_e75c_ce76_36f1_e731nat);
    assert(0x1ca_7381 * 0x1ca_7381 == 0x3_3501_7db1_2701);
    assert(0x3_3501_7db1_2701 * 0x3_3501_7db1_2701 == 0xa_4902_9034_7d45_32af_ef53_4e01nat);
    assert(0x1ca_7383 * 0x1ca_7383 == 0x3_3501_84da_f509);
    assert(0x3_3501_84da_f509 * 0x3_3501_84da_f509 == 0xa_4902_be26_b654_2c09_85de_3a51nat);
    assert(269025nat * 269025 * 269025 == 0x45_2c59_9066_9ca1);
    assert(0x45_2c59_9066_9ca1 * 0x45_2c59_9066_9ca1 == 0x12b0_eff6_c049_6d6d_d948_5020_9d41nat);
    assert(0x12b0_eff6_c049_6d6d_d948_5020_9d41nat * 0x12b0_eff6_c049_6d6d_d948_5020_9d41nat == 0x15d_5c09_8741_6139_2178_92b9_bce5_5f46_89a2_dd05_b95f_0d00_50d8_ca81nat);
    assert(0x503_7ae9_e75c_ce76_36f1_e731nat * 0x503_7ae9_e75c_ce76_36f1_e731nat == 0x19_22d9_3f88_d278_e1bb_da80_4c7a_0f4e_9c16_ef49_c70b_7761nat);
    assert(0xa_4902_9034_7d45_32af_ef53_4e01nat * 0x1ca_7381 == 0x126b_4290_eefa_5c85_e465_be33_92ce_c181nat);
    assert(0xa_4902_be26_b654_2c09_85de_3a51nat * 0x1ca_7383 == 0x126b_42f7_c914_e44d_e5e4_4f96_a9d4_3a73nat);
    assert(0x126b_4290_eefa_5c85_e465_be33_92ce_c181nat * 0x15d_5c09_8741_6139_2178_92b9_bce5_5f46_89a2_dd05_b95f_0d00_50d8_ca81nat == 0x19_22d8_fb02_7c9f_97eb_af16_7c4a_aaed_21e2_7f07_1c01_4990_79fd_2c98_221a_6df8_be1e_6e82_8070_91bf_b3b7_4c01nat);
    assert(0x126b_42f7_c914_e44d_e5e4_4f96_a9d4_3a73nat * 0x15d_5c09_8741_6139_2178_92b9_bce5_5f46_89a2_dd05_b95f_0d00_50d8_ca81nat == 0x19_22d9_875e_cd00_3e98_cd23_3c8f_84ff_50e7_6eab_f118_a29b_eb5e_0e18_716b_08fd_da4c_4a06_cdaf_7142_4b18_31f3nat);
    assert(0x19_22d9_3f88_d278_e1bb_da80_4c7a_0f4e_9c16_ef49_c70b_7761nat * 0x1_0000_0000_0000_0000_0000_0000_0000_0000_0000_0000nat == 0x19_22d9_3f88_d278_e1bb_da80_4c7a_0f4e_9c16_ef49_c70b_7761_0000_0000_0000_0000_0000_0000_0000_0000_0000_0000nat);
    lemma_power_known(
        0x3be5_39c1, 0xe5_39c1, 118, 0x1_0000_0000_0000_0000_0000_0000_0000_0000_0000_0000nat,
        34025, 0x23d3_607b_4f79,
        0x503_7ae9_e75c_ce76_36f1_e731nat,
        269025, 0x45_2c59_9066_9ca1,
        0x12b0_eff6_c049_6d6d_d948_5020_9d41nat,
        0x3_3501_7db1_2701, 0xa_4902_9034_7d45_32af_ef53_4e01nat,
        0x3_3501_84da_f509, 0xa_4902_be26_b654_2c09_85de_3a51nat,
    );
}

/// Code 21.
proof fn lemma_entry_21()
    ensures
        nearest_to_power(0x3bf5_ba71, 35025, 269025),
{
    lemma_fifth_powers_of_two();
    assert(35025nat * 35025 * 35025 == 0x2714_053b_e571);
    assert(0x2714_053b_e571 * 0x2714_053b_e571 == 0x5f7_1b29_115f_aca1_f9b9_5be1nat);
    assert(0x1eb_74e1 * 0x1eb_74e1 == 0x3_af79_8c72_adc1);
    assert(0x3_af79_8c72_adc1 * 0x3_af79_8c72_adc1 == 0xd_9520_b26a_ed89_bfdc_4dd2_6b81nat);
    assert(0x1eb_74e3 * 0x1eb_74e3 == 0x3_af79_9420_8149);
    assert(0x3_af79_9420_8149 * 0x3_af79_9420_8149 == 0xd_9520_eb04_d4e7_9e9e_fb8a_a6d1nat);
    assert(269025nat * 269025 * 269025 == 0x45_2c59_9066_9ca1);
    assert(0x45_2c59_9066_9ca1 * 0x45_2c59_9066_9ca1 == 0x12b0_eff6_c049_6d6d_d948_5020_9d41nat);
    assert(0x12b0_eff6_c049_6d6d_d948_5020_9d41nat * 0x12b0_eff6_c049_6d6d_d948_5020_9d41nat == 0x15d_5c09_8741_6139_2178_92b9_bce5_5f46_89a2_dd05_b95f_0d00_50d8_ca81nat);
    assert(0x5f7_1b29_115f_aca1_f9b9_5be1nat * 0x5f7_1b29_115f_aca1_f9b9_5be1nat == 0x23_9595_06ce_f39e_348e_7084_44ba_e7e5_3534_03f3_9e2b_bbc1nat);
    assert(0xd_9520_b26a_ed89_bfdc_4dd2_6b81nat * 0x1eb_74e1 == 0x1a13_3939_15aa_dad0_2c8a_b677_ef11_f061nat);
    assert(0xd_9520_eb04_d4e7_9e9e_fb8a_a6d1nat * 0x1eb_74e3 == 0x1a13_39c0_e8f2_edfe_f82e_23e1_d263_9f53nat);
    assert(0x1a13_3939_15aa_dad0_2c8a_b677_ef11_f061nat * 0x15d_5c09_8741_6139_2178_92b9_bce5_5f46_89a2_dd05_b95f_0d00_50d8_ca81nat == 0x23_9594_e3d6_dcad_33bb_f574_2292_1016_89df_b6e0_6244_d364_6bce_5d7d_4d45_9b3e_051a_a882_8bfb_d454_c18e_aae1nat);
    assert(0x1a13_39c0_e8f2_edfe_f82e_23e1_d263_9f53nat * 0x15d_5c09_8741_6139_2178_92b9_bce5_5f46_89a2_dd05_b95f_0d00_50d8_ca81nat == 0x23_9595_9d32_baeb_7210_4ddc_d8c8_edef_4e34_a925_5b57_587e_53aa_d56a_70db_a40e_c291_3bdd_79bd_21a5_fdf2_c6d3nat);
    assert(0x23_9595_06ce_f39e_348e_7084_44ba_e7e5_3534_03f3_9e2b_bbc1nat * 0x1_0000_0000_0000_0000_0000_0000_0000_0000_0000_0000nat == 0x23_9595_06ce_f39e_348e_7084_44ba_e7e5_3534_03f3_9e2b_bbc1_0000_0000_0000_0000_0000_0000_0000_0000_0000_0000nat);
    lemma_power_known(
        0x3bf5_ba71, 0xf5_ba71, 118, 0x1_0000_0000_0000_0000_0000_0000_0000_0000_0000_0000nat,
        35025, 0x2714_053b_e571,
        0x5f7_1b29_115f_aca1_f9b9_5be1nat,
        269025, 0x45_2c59_9066_9ca1,
        0x12b0_eff6_c049_6d6d_d948_5020_9d41nat,
        0x3_af79_8c72_adc1, 0xd_9520_b26a_ed89_bfdc_4dd2_6b81nat,
        0x3_af79_9420_8149, 0xd_9520_eb04_d4e7_9e9e_fb8a_a6d1nat,
    );
}

/// Code 22.
proof fn lemma_entry_22()
    ensures
        nearest_to_power(0x3c03_73b6, 36025, 269025),
{
    lemma_fifth_powers_of_two();
    assert(36025nat * 36025 * 36025 == 0x2a85_97e7_00e9);
    assert(0x2a85_97e7_00e9 * 0x2a85_97e7_00e9 == 0x710_1b8e_fc75_b99f_827e_d411nat);
    assert(0x106_e76b * 0x106_e76b == 0x1_0dfe_8036_46b9);
    assert(0x1_0dfe_8036_46b9 * 0x1_0dfe_8036_46b9 == 0x1_1cc0_d674_bc8b_7356_e995_b1b1nat);
    assert(0x106_e76d * 0x106_e76d == 0x1_0dfe_8451_e469);
    assert(0x1_0dfe_8451_e469 * 0x1_0dfe_8451_e469 == 0x1_1cc0_df1e_f0ea_781a_9e3d_3311nat);
    assert(269025nat * 269025 * 269025 == 0x45_2c59_9066_9ca1);
    assert(0x45_2c59_9066_9ca1 * 0x45_2c59_9066_9ca1 == 0x12b0_eff6_c049_6d6d_d948_5020_9d41nat);
    assert(0x12b0_eff6_c049_6d6d_d948_5020_9d41nat * 0x12b0_eff6_c049_6d6d_d948_5020_9d41nat == 0x15d_5c09_8741_6139_2178_92b9_bce5_5f46_89a2_dd05_b95f_0d00_50d8_ca81nat);
    assert(0x710_1b8e_fc75_b99f_827e_d411nat * 0x710_1b8e_fc75_b99f_827e_d411nat == 0x31_e285_46a5_77fb_cdcc_cd84_30dd_c049_fa1b_0d54_b468_2921nat);
    assert(0x1_1cc0_d674_bc8b_7356_e995_b1b1nat * 0x106_e76b == 0x124_6ec4_8195_efa4_ae4f_b14d_900d_fbfbnat);
    assert(0x1_1cc0_df1e_f0ea_781a_9e3d_3311nat * 0x106_e76d == 0x124_6ecf_a11e_7b87_1173_1ac0_dc89_153dnat);
    assert(0x124_6ec4_8195_efa4_ae4f_b14d_900d_fbfbnat * 0x15d_5c09_8741_6139_2178_92b9_bce5_5f46_89a2_dd05_b95f_0d00_50d8_ca81nat == 0x1_8f14_2495_adfa_f35c_9162_b257_8074_7c21_6bfd_5b11_cacd_0f16_3647_f6f5_d06d_d498_c9ad_2976_354b_aba8_077bnat);
    assert(0x124_6ecf_a11e_7b87_1173_1ac0_dc89_153dnat * 0x15d_5c09_8741_6139_2178_92b9_bce5_5f46_89a2_dd05_b95f_0d00_50d8_ca81nat == 0x1_8f14_33c3_aae0_b588_3c1d_c823_7079_896f_6382_08f4_aef1_5a2a_56c5_84ae_08f5_8e29_49eb_6278_ac80_474d_d5bdnat);
    assert(0x31_e285_46a5_77fb_cdcc_cd84_30dd_c049_fa1b_0d54_b468_2921nat * 0x800_0000_0000_0000_0000_0000_0000_0000_0000_0000nat == 0x1_8f14_2a35_2bbf_de6e_666c_2186_ee02_4fd0_d86a_a5a3_4149_0800_0000_0000_0000_0000_0000_0000_0000_0000_0000nat);
    lemma_power_known(
        0x3c03_73b6, 0x83_73b6, 119, 0x800_0000_0000_0000_0000_0000_0000_0000_0000_0000nat,
        36025, 0x2a85_97e7_00e9,
        0x710_1b8e_fc75_b99f_827e_d411nat,
        269025, 0x45_2c59_9066_9ca1,
        0x12b0_eff6_c049_6d6d_d948_5020_9d41nat,
        0x1_0dfe_8036_46b9, 0x1_1cc0_d674_bc8b_7356_e995_b1b1nat,
        0x1_0dfe_8451_e469, 0x1_1cc0_df1e_f0ea_781a_9e3d_3311nat,
    );
}

/// Code 23.
proof fn lemma_entry_23()
    ensures
        nearest_to_power(0x3c0c_6153, 37025, 269025),
{
    lemma_fifth_powers_of_two();
    assert(37025nat * 37025 * 37025 == 0x2e29_7e1d_5de1);
    assert(0x2e29_7e1d_5de1 * 0x2e29_7e1d_5de1 == 0x852_f00c_3145_d9d9_e367_3fc1nat);
    assert(0x118_c2a5 * 0x118_c2a5 == 0x1_33ea_5cee_7e59);
    assert(0x1_33ea_5cee_7e59 * 0x1_33ea_5cee_7e59 == 0x1_725b_f172_08c4_b9b3_23d7_baf1nat);
    assert(0x118_c2a7 * 0x118_c2a7 == 0x1_33ea_6151_88f1);
    assert(0x1_33ea_6151_88f1 * 0x1_33ea_6151_88f1 == 0x1_725b_fbff_9c7f_4252_93c2_f2e1nat);
    assert(269025nat * 269025 * 269025 == 0x45_2c59_9066_9ca1);
    assert(0x45_2c59_9066_9ca1 * 0x45_2c59_9066_9ca1 == 0x12b0_eff6_c049_6d6d_d948_5020_9d41nat);
    assert(0x12b0_eff6_c049_6d6d_d948_5020_9d41nat * 0x12b0_eff6_c049_6d6d_d948_5020_9d41nat == 0x15d_5c09_8741_6139_2178_92b9_bce5_5f46_89a2_dd05_b95f_0d00_50d8_ca81nat);
    assert(0x852_f00c_3145_d9d9_e367_3fc1nat * 0x852_f00c_3145_d9d9_e367_3fc1nat == 0x45_49df_6bfa_cb54_ce4c_e964_62c1_1320_9929_8be6_a32e_8f81nat);
    assert(0x1_725b_f172_08c4_b9b3_23d7_baf1nat * 0x118_c2a5 == 0x196_2e28_76f4_a04f_d774_a594_0d4e_1f55nat);
    assert(0x1_725b_fbff_9c7f_4252_93c2_f2e1nat * 0x118_c2a7 == 0x196_2e36_ee8c_4388_1198_7511_c652_f2c7nat);
    assert(0x196_2e28_76f4_a04f_d774_a594_0d4e_1f55nat * 0x15d_5c09_8741_6139_2178_92b9_bce5_5f46_89a2_dd05_b95f_0d00_50d8_ca81nat == 0x2_2a4e_f4de_efbd_f632_fa3f_dcde_c515_a236_add2_28e9_9522_888a_afc9_7fef_b076_8ec9_ed5f_9aa4_36cf_58ce_dbd5nat);
    assert(0x196_2e36_ee8c_4388_1198_7511_c652_f2c7nat * 0x15d_5c09_8741_6139_2178_92b9_bce5_5f46_89a2_dd05_b95f_0d00_50d8_ca81nat == 0x2_2a4f_089d_2cfb_d19a_020e_b6dd_ab74_f72d_0cda_f146_f9a4_048a_531b_d9e3_1bd1_0644_dcda_9c59_614d_6b45_5c47nat);
    assert(0x45_49df_6bfa_cb54_ce4c_e964_62c1_1320_9929_8be6_a32e_8f81nat * 0x800_0000_0000_0000_0000_0000_0000_0000_0000_0000nat == 0x2_2a4e_fb5f_d65a_a672_674b_2316_0899_04c9_4c5f_3519_747c_0800_0000_0000_0000_0000_0000_0000_0000_0000_0000nat);
    lemma_power_known(
        0x3c0c_6153, 0x8c_6153, 119, 0x800_0000_0000_0000_0000_0000_0000_0000_0000_0000nat,
        37025, 0x2e29_7e1d_5de1,
        0x852_f00c_3145_d9d9_e367_3fc1nat,
        269025, 0x45_2c59_9066_9ca1,
        0x12b0_eff6_c049_6d6d_d948_5020_9d41nat,
        0x1_33ea_5cee_7e59, 0x1_725b_f172_08c4_b9b3_23d7_baf1nat,
        0x1_33ea_6151_88f1, 0x1_725b_fbff_9c7f_4252_93c2_f2e1nat,
    );
}

/// Code 24.
proof fn lemma_entry_24()
    ensures
        nearest_to_power(0x3c15_a705, 38025, 269025),
{
    lemma_fifth_powers_of_two();
    assert(38025nat * 38025 * 38025 == 0x3201_1d7f_b859);
    assert(0x3201_1d7f_b859 * 0x3201_1d7f_b859 == 0x9c4_6f87_2268_642e_970e_0ef1nat);
    assert(0x12b_4e09 * 0x12b_4e09 == 0x1_5def_60cf_7c51);
    assert(0x1_5def_60cf_7c51 * 0x1_5def_60cf_7c51 == 0x1_de56_8dcb_a0fb_3ea5_075c_91a1nat);
    assert(0x12b_4e0b * 0x12b_4e0b == 0x1_5def_657c_b479);
    assert(0x1_5def_657c_b479 * 0x1_5def_657c_b479 == 0x1_de56_9a94_ab26_8714_ce72_6131nat);
    assert(269025nat * 269025 * 269025 == 0x45_2c59_9066_9ca1);
    assert(0x45_2c59_9066_9ca1 * 0x45_2c59_9066_9ca1 == 0x12b0_eff6_c049_6d6d_d948_5020_9d41nat);
    assert(0x12b0_eff6_c049_6d6d_d948_5020_9d41nat * 0x12b0_eff6_c049_6d6d_d948_5020_9d41nat == 0x15d_5c09_8741_6139_2178_92b9_bce5_5f46_89a2_dd05_b95f_0d00_50d8_ca81nat);
    assert(0x9c4_6f87_2268_642e_970e_0ef1nat * 0x9c4_6f87_2268_642e_970e_0ef1nat == 0x5f_6692_77ee_7e10_8390_3fe3_41ff_a60f_c5ab_3d01_f13b_3ee1nat);
    assert(0x1_de56_8dcb_a0fb_3ea5_075c_91a1nat * 0x12b_4e09 == 0x22f_40e6_cd14_0ca7_60ab_1529_8dab_2ca9nat);
    assert(0x1_de56_9a94_ab26_8714_ce72_6131nat * 0x12b_4e0b == 0x22f_40f9_7c75_d688_dd1d_4463_3cc2_1b1bnat);
    assert(0x22f_40e6_cd14_0ca7_60ab_1529_8dab_2ca9nat * 0x15d_5c09_8741_6139_2178_92b9_bce5_5f46_89a2_dd05_b95f_0d00_50d8_ca81nat == 0x2_fb34_8ac9_4833_3f95_0c7c_2d66_b7bf_d8b3_36db_bf9e_1b39_4208_b22b_78bc_9839_f43c_9fdf_f139_0f1b_f316_db29nat);
    assert(0x22f_40f9_7c75_d688_dd1d_4463_3cc2_1b1bnat * 0x15d_5c09_8741_6139_2178_92b9_bce5_5f46_89a2_dd05_b95f_0d00_50d8_ca81nat == 0x2_fb34_a449_183c_a63b_07b6_ae94_87a8_b0fc_ae1d_2d91_f309_231d_f765_5d29_5b03_6ab8_81bc_a7d3_0f32_15fa_f69bnat);
    assert(0x5f_6692_77ee_7e10_8390_3fe3_41ff_a60f_c5ab_3d01_f13b_3ee1nat * 0x800_0000_0000_0000_0000_0000_0000_0000_0000_0000nat == 0x2_fb34_93bf_73f0_841c_81ff_1a0f_fd30_7e2d_59e8_0f89_d9f7_0800_0000_0000_0000_0000_0000_0000_0000_0000_0000nat);
    lemma_power_known(
        0x3c15_a705, 0x95_a705, 119, 0x800_0000_0000_0000_0000_0000_0000_0000_0000_0000nat,
        38025, 0x3201_1d7f_b859,
        0x9c4_6f87_2268_642e_970e_0ef1nat,
        269025, 0x45_2c59_9066_9ca1,
        0x12b0_eff6_c049_6d6d_d948_5020_9d41nat,
        0x1_5def_60cf_7c51, 0x1_de56_8dcb_a0fb_3ea5_075c_91a1nat,
        0x1_5def_657c_b479, 0x1_de56_9a94_ab26_8714_ce72_6131nat,
    );
}

/// Code 25.
proof fn lemma_entry_25()
    ensures
        nearest_to_power(0x3c1f_45be, 39025, 269025),
{
    lemma_fifth_powers_of_two();
    assert(39025nat * 39025 * 39025 == 0x360d_dbae_cc51);
    assert(0x360d_dbae_cc51 * 0x360d_dbae_cc51 == 0xb69_d96d_ca77_7526_f72d_31a1nat);
    assert(0x13e_8b7b * 0x13e_8b7b == 0x1_8c5e_d192_cd19);
    assert(0x1_8c5e_d192_cd19 * 0x1_8c5e_d192_cd19 == 0x2_65b5_7b7c_bde4_fd6d_66d5_0c71nat);
    assert(0x13e_8b7d * 0x13e_8b7d == 0x1_8c5e_d68c_fb09);
    assert(0x1_8c5e_d68c_fb09 * 0x1_8c5e_d68c_fb09 == 0x2_65b5_8ae6_6bfc_33f2_9402_a651nat);
    assert(269025nat * 269025 * 269025 == 0x45_2c59_9066_9ca1);
    assert(0x45_2c59_9066_9ca1 * 0x45_2c59_9066_9ca1 == 0x12b0_eff6_c049_6d6d_d948_5020_9d41nat);
    assert(0x12b0_eff6_c049_6d6d_d948_5020_9d41nat * 0x12b0_eff6_c049_6d6d_d948_5020_9d41nat == 0x15d_5c09_8741_6139_2178_92b9_bce5_5f46_89a2_dd05_b95f_0d00_50d8_ca81nat);
    assert(0xb69_d96d_ca77_7526_f72d_31a1nat * 0xb69_d96d_ca77_7526_f72d_31a1nat == 0x82_4473_8421_aa64_01ab_342f_449a_f74d_d71e_238b_2a39_0741nat);
    assert(0x2_65b5_7b7c_bde4_fd6d_66d5_0c71nat * 0x13e_8b7b == 0x2fb_a5cf_cd32_f27d_6085_e70b_8a7c_554bnat);
    assert(0x2_65b5_8ae6_6bfc_33f2_9402_a651nat * 0x13e_8b7d == 0x2fb_a5e7_c64a_126d_31ad_ef1a_4e37_308dnat);
    assert(0x2fb_a5cf_cd32_f27d_6085_e70b_8a7c_554bnat * 0x15d_5c09_8741_6139_2178_92b9_bce5_5f46_89a2_dd05_b95f_0d00_50d8_ca81nat == 0x4_1223_984d_b7f8_ce14_a384_5de9_4053_1d6f_bc9b_8253_1e6c_e41e_73d3_55eb_558f_6993_a5cc_02f6_0aa6_4b3c_28cbnat);
    assert(0x2fb_a5e7_c64a_126d_31ad_ef1a_4e37_308dnat * 0x15d_5c09_8741_6139_2178_92b9_bce5_5f46_89a2_dd05_b95f_0d00_50d8_ca81nat == 0x4_1223_b904_eae8_13c9_a122_062e_5a64_656a_9005_4a4a_f27c_05a3_5496_5826_9fdd_f62a_a1fd_f4bd_a4b5_fd16_b90dnat);
    assert(0x82_4473_8421_aa64_01ab_342f_449a_f74d_d71e_238b_2a39_0741nat * 0x800_0000_0000_0000_0000_0000_0000_0000_0000_0000nat == 0x4_1223_9c21_0d53_200d_59a1_7a24_d7ba_6eb8_f11c_5951_c83a_0800_0000_0000_0000_0000_0000_0000_0000_0000_0000nat);
    lemma_power_known(
        0x3c1f_45be, 0x9f_45be, 119, 0x800_0000_0000_0000_0000_0000_0000_0000_0000_0000nat,
        39025, 0x360d_dbae_cc51,
        0xb69_d96d_ca77_7526_f72d_31a1nat,
        269025, 0x45_2c59_9066_9ca1,
        0x12b0_eff6_c049_6d6d_d948_5020_9d41nat,
        0x1_8c5e_d192_cd19, 0x2_65b5_7b7c_bde4_fd6d_66d5_0c71nat,
        0x1_8c5e_d68c_fb09, 0x2_65b5_8ae6_6bfc_33f2_9402_a651nat,
    );
}

/// Code 26.
proof fn lemma_entry_26()
    ensures
        nearest_to_power(0x3c29_3e6b, 40025, 269025),
{
    lemma_fifth_powers_of_two();
    assert(40025nat * 40025 * 40025 == 0x3a51_1e4b_55c9);
    assert(0x3a51_1e4b_55c9 * 0x3a51_1e4b_55c9 == 0xd48_db6e_5221_1b78_7c85_17d1nat);
    assert(0x152_7cd5 * 0x152_7cd5 == 0x1_bf8d_df53_0939);
    assert(0x1_bf8d_df53_0939 * 0x1_bf8d_df53_0939 == 0x3_0e70_c083_be7e_fbca_494b_0eb1nat);
    assert(0x152_7cd7 * 0x152_7cd7 == 0x1_bf8d_e49c_fc91);
    assert(0x1_bf8d_e49c_fc91 * 0x1_bf8d_e49c_fc91 == 0x3_0e70_d301_db18_97e1_11e5_ca21nat);
    assert(269025nat * 269025 * 269025 == 0x45_2c59_9066_9ca1);
    assert(0x45_2c59_9066_9ca1 * 0x45_2c59_9066_9ca1 == 0x12b0_eff6_c049_6d6d_d948_5020_9d41nat);
    assert(0x12b0_eff6_c049_6d6d_d948_5020_9d41nat * 0x12b0_eff6_c049_6d6d_d948_5020_9d41nat == 0x15d_5c09_8741_6139_2178_92b9_bce5_5f46_89a2_dd05_b95f_0d00_50d8_ca81nat);
    assert(0xd48_db6e_5221_1b78_7c85_17d1nat * 0xd48_db6e_5221_1b78_7c85_17d1nat == 0xb0_7b05_5e7b_7f79_0438_89c0_a078_0e27_143f_9e34_3961_38a1nat);
    assert(0x3_0e70_c083_be7e_fbca_494b_0eb1nat * 0x152_7cd5 == 0x40a_8e67_cf01_818b_72b2_3fe8_bc42_f545nat);
    assert(0x3_0e70_d301_db18_97e1_11e5_ca21nat * 0x152_7cd7 == 0x40a_8e86_5f69_6327_7262_3416_3576_bdb7nat);
    assert(0x40a_8e67_cf01_818b_72b2_3fe8_bc42_f545nat * 0x15d_5c09_8741_6139_2178_92b9_bce5_5f46_89a2_dd05_b95f_0d00_50d8_ca81nat == 0x5_83d8_1534_1e68_3a12_b0fe_6500_0e98_e4be_caf6_c6fb_8d0b_0b9f_cd69_64e8_101f_f3d9_3724_6183_1ef8_357e_09c5nat);
    assert(0x40a_8e86_5f69_6327_7262_3416_3576_bdb7nat * 0x15d_5c09_8741_6139_2178_92b9_bce5_5f46_89a2_dd05_b95f_0d00_50d8_ca81nat == 0x5_83d8_3ee9_f90f_5a6e_5020_8eff_ddb6_9f6d_ddff_aeed_2298_bb42_037b_e76d_0e17_20cb_c0b8_b193_47d9_e4ef_ff37nat);
    assert(0xb0_7b05_5e7b_7f79_0438_89c0_a078_0e27_143f_9e34_3961_38a1nat * 0x800_0000_0000_0000_0000_0000_0000_0000_0000_0000nat == 0x5_83d8_2af3_dbfb_c821_c44e_0503_c071_38a1_fcf1_a1cb_09c5_0800_0000_0000_0000_0000_0000_0000_0000_0000_0000nat);
    lemma_power_known(
        0x3c29_3e6b, 0xa9_3e6b, 119, 0x800_0000_0000_0000_0000_0000_0000_0000_0000_0000nat,
        40025, 0x3a51_1e4b_55c9,
        0xd48_db6e_5221_1b78_7c85_17d1nat,
        269025, 0x45_2c59_9066_9ca1,
        0x12b0_eff6_c049_6d6d_d948_5020_9d41nat,
        0x1_bf8d_df53_0939, 0x3_0e70_c083_be7e_fbca_494b_0eb1nat,
        0x1_bf8d_e49c_fc91, 0x3_0e70_d301_db18_97e1_11e5_ca21nat,
    );
}

/// Code 27.
proof fn lemma_entry_27()
    ensures
        nearest_to_power(0x3c33_91f7, 41025, 269025),
{
    lemma_fifth_powers_of_two();
    assert(41025nat * 41025 * 41025 == 0x3ecc_4af6_10c1);
    assert(0x3ecc_4af6_10c1 * 0x3ecc_4af6_10c1 == 0xf67_9756_be3b_5dcb_c804_b181nat);
    assert(0x167_23ed * 0x167_23ed == 0x1_f7d5_c7c0_a969);
    assert(0x1_f7d5_c7c0_a969 * 0x1_f7d5_c7c0_a969 == 0x3_df99_c97d_1c31_9f19_cb9b_cd11nat);
    assert(0x167_23ef * 0x167_23ef == 0x1_f7d5_cd5d_3921);
    assert(0x1_f7d5_cd5d_3921 * 0x1_f7d5_cd5d_3921 == 0x3_df99_df93_b85f_2e5b_68b9_b641nat);
    assert(269025nat * 269025 * 269025 == 0x45_2c59_9066_9ca1);
    assert(0x45_2c59_9066_9ca1 * 0x45_2c59_9066_9ca1 == 0x12b0_eff6_c049_6d6d_d948_5020_9d41nat);
    assert(0x12b0_eff6_c049_6d6d_d948_5020_9d41nat * 0x12b0_eff6_c049_6d6d_d948_5020_9d41nat == 0x15d_5c09_8741_6139_2178_92b9_bce5_5f46_89a2_dd05_b95f_0d00_50d8_ca81nat);
    assert(0xf67_9756_be3b_5dcb_c804_b181nat * 0xf67_9756_be3b_5dcb_c804_b181nat == 0xed_4da7_4b8f_7a91_c151_1872_bb8e_4bdb_8a26_9205_971b_a301nat);
    assert(0x3_df99_c97d_1c31_9f19_cb9b_cd11nat * 0x167_23ed == 0x56f_1bd1_965e_2d43_ffdd_5934_5f1d_2bbdnat);
    assert(0x3_df99_df93_b85f_2e5b_68b9_b641nat * 0x167_23ef == 0x56f_1bf8_5260_7a98_2662_a316_be73_09afnat);
    assert(0x56f_1bd1_965e_2d43_ffdd_5934_5f1d_2bbdnat * 0x15d_5c09_8741_6139_2178_92b9_bce5_5f46_89a2_dd05_b95f_0d00_50d8_ca81nat == 0x7_6a6d_0e80_45bd_bdc8_2d4f_0958_e229_7335_a19f_0232_69e0_4d63_8278_69d9_e925_9422_92c0_8432_3db8_e9ae_2c3dnat);
    assert(0x56f_1bf8_5260_7a98_2662_a316_be73_09afnat * 0x15d_5c09_8741_6139_2178_92b9_bce5_5f46_89a2_dd05_b95f_0d00_50d8_ca81nat == 0x7_6a6d_435c_81e3_1069_5010_d32a_99f4_4e47_8392_77dd_2462_67be_b98c_2d5f_6ef1_666c_44ec_c987_a7d3_9943_f72fnat);
    assert(0xed_4da7_4b8f_7a91_c151_1872_bb8e_4bdb_8a26_9205_971b_a301nat * 0x800_0000_0000_0000_0000_0000_0000_0000_0000_0000nat == 0x7_6a6d_3a5c_7bd4_8e0a_88c3_95dc_725e_dc51_3490_2cb8_dd18_0800_0000_0000_0000_0000_0000_0000_0000_0000_0000nat);
    lemma_power_known(
        0x3c33_91f7, 0xb3_91f7, 119, 0x800_0000_0000_0000_0000_0000_0000_0000_0000_0000nat,
        41025, 0x3ecc_4af6_10c1,
        0xf67_9756_be3b_5dcb_c804_b181nat,
        269025, 0x45_2c59_9066_9ca1,
        0x12b0_eff6_c049_6d6d_d948_5020_9d41nat,
        0x1_f7d5_c7c0_a969, 0x3_df99_c97d_1c31_9f19_cb9b_cd11nat,
        0x1_f7d5_cd5d_3921, 0x3_df99_df93_b85f_2e5b_68b9_b641nat,
    );
}

/// Code 28.
proof fn lemma_entry_28()
    ensures
        nearest_to_power(0x3c3e_4149, 42025, 269025),
{
    lemma_fifth_powers_of_two();
    assert(42025nat * 42025 * 42025 == 0x4380_c74f_b939);
    assert(0x4380_c74f_b939 * 0x4380_c74f_b939 == 0x11cc_a91b_a5da_19ca_7531_6eb1nat);
    assert(0x17c_8291 * 0x17c_8291 == 0x2_3593_e10f_9621);
    assert(0x2_3593_e10f_9621 * 0x2_3593_e10f_9621 == 0x4_e186_14db_0a70_7abe_f1e8_b041nat);
    assert(0x17c_8293 * 0x17c_8293 == 0x2_3593_e701_a069);
    assert(0x2_3593_e701_a069 * 0x2_3593_e701_a069 == 0x4_e186_2f20_4a61_a216_2355_6b11nat);
    assert(269025nat * 269025 * 269025 == 0x45_2c59_9066_9ca1);
    assert(0x45_2c59_9066_9ca1 * 0x45_2c59_9066_9ca1 == 0x12b0_eff6_c049_6d6d_d948_5020_9d41nat);
    assert(0x12b0_eff6_c049_6d6d_d948_5020_9d41nat * 0x12b0_eff6_c049_6d6d_d948_5020_9d41nat == 0x15d_5c09_8741_6139_2178_92b9_bce5_5f46_89a2_dd05_b95f_0d00_50d8_ca81nat);
    assert(0x11cc_a91b_a5da_19ca_7531_6eb1nat * 0x11cc_a91b_a5da_19ca_7531_6eb1nat == 0x13c_d213_9fcc_cefc_5bbc_f5fa_d325_8737_7ebb_7a0d_599e_9661nat);
    assert(0x4_e186_14db_0a70_7abe_f1e8_b041nat * 0x17c_8291 == 0x741_4050_c8ac_8a54_3b79_9264_cec8_d6d1nat);
    assert(0x4_e186_2f20_4a61_a216_2355_6b11nat * 0x17c_8293 == 0x741_4081_97e9_de3c_e33b_c372_97a7_1cc3nat);
    assert(0x741_4050_c8ac_8a54_3b79_9264_cec8_d6d1nat * 0x15d_5c09_8741_6139_2178_92b9_bce5_5f46_89a2_dd05_b95f_0d00_50d8_ca81nat == 0x9_e690_665f_216a_eaca_e9e2_fed1_7bda_2156_bd87_c088_db9a_06b1_3f17_0990_1c78_dba7_f50c_deeb_298d_3d0d_2951nat);
    assert(0x741_4081_97e9_de3c_e33b_c372_97a7_1cc3nat * 0x15d_5c09_8741_6139_2178_92b9_bce5_5f46_89a2_dd05_b95f_0d00_50d8_ca81nat == 0x9_e690_a8fb_3451_6c07_ac54_4fc1_dd41_293c_1b87_68d1_4e86_cf51_85f6_de0e_ff86_c920_32cb_753c_fd65_7c6f_5c43nat);
    assert(0x13c_d213_9fcc_cefc_5bbc_f5fa_d325_8737_7ebb_7a0d_599e_9661nat * 0x800_0000_0000_0000_0000_0000_0000_0000_0000_0000nat == 0x9_e690_9cfe_6677_e2dd_e7af_d699_2c39_bbf5_dbd0_6acc_f4b3_0800_0000_0000_0000_0000_0000_0000_0000_0000_0000nat);
    lemma_power_known(
        0x3c3e_4149, 0xbe_4149, 119, 0x800_0000_0000_0000_0000_0000_0000_0000_0000_0000nat,
        42025, 0x4380_c74f_b939,
        0x11cc_a91b_a5da_19ca_7531_6eb1nat,
        269025, 0x45_2c59_9066_9ca1,
        0x12b0_eff6_c049_6d6d_d948_5020_9d41nat,
        0x2_3593_e10f_9621, 0x4_e186_14db_0a70_7abe_f1e8_b041nat,
        0x2_3593_e701_a069, 0x4_e186_2f20_4a61_a216_2355_6b11nat,
    );
}

/// Code 29.
proof fn lemma_entry_29()
    ensures
        nearest_to_power(0x3c49_4d44, 43025, 269025),
{
    lemma_fifth_powers_of_two();
    assert(43025nat * 43025 * 43025 == 0x486f_f8f9_0b31);
    assert(0x486f_f8f9_0b31 * 0x486f_f8f9_0b31 == 0x147f_2d05_f066_bc73_b5cf_3f61nat);
    assert(0x192_9a87 * 0x192_9a87 == 0x2_7929_ad42_b331);
    assert(0x2_7929_ad42_b331 * 0x2_7929_ad42_b331 == 0x6_1dff_219c_cec8_ef43_1cb1_8f61nat);
    assert(0x192_9a89 * 0x192_9a89 == 0x2_7929_b38d_1d51);
    assert(0x2_7929_b38d_1d51 * 0x2_7929_b38d_1d51 == 0x6_1dff_40ba_dc1c_9aba_9495_73a1nat);
    assert(269025nat * 269025 * 269025 == 0x45_2c59_9066_9ca1);
    assert(0x45_2c59_9066_9ca1 * 0x45_2c59_9066_9ca1 == 0x12b0_eff6_c049_6d6d_d948_5020_9d41nat);
    assert(0x12b0_eff6_c049_6d6d_d948_5020_9d41nat * 0x12b0_eff6_c049_6d6d_d948_5020_9d41nat == 0x15d_5c09_8741_6139_2178_92b9_bce5_5f46_89a2_dd05_b95f_0d00_50d8_ca81nat);
    assert(0x147f_2d05_f066_bc73_b5cf_3f61nat * 0x147f_2d05_f066_bc73_b5cf_3f61nat == 0x1a4_1e36_a15f_aa08_733b_9a8b_ac72_331b_9fb4_208c_b88e_e2c1nat);
    assert(0x6_1dff_219c_cec8_ef43_1cb1_8f61nat * 0x192_9a87 == 0x99e_cbe8_13ff_c59d_a347_9a7a_1834_f627nat);
    assert(0x6_1dff_40ba_dc1c_9aba_9495_73a1nat * 0x192_9a89 == 0x99e_cc25_3ff7_b153_f960_5dea_fe5b_bb29nat);
    assert(0x99e_cbe8_13ff_c59d_a347_9a7a_1834_f627nat * 0x15d_5c09_8741_6139_2178_92b9_bce5_5f46_89a2_dd05_b95f_0d00_50d8_ca81nat == 0xd_20f1_6855_0889_8043_7d79_c7f2_8ca9_3dc2_9536_f603_64a6_3d88_9fc4_2931_e0f9_ecb5_0a7d_7d87_233b_ddd2_cfa7nat);
    assert(0x99e_cc25_3ff7_b153_f960_5dea_fe5b_bb29nat * 0x15d_5c09_8741_6139_2178_92b9_bce5_5f46_89a2_dd05_b95f_0d00_50d8_ca81nat == 0xd_20f1_bbcf_f799_ce12_d025_e0a8_dfd2_da82_7214_25ca_2759_aa6d_26a5_7ae7_3a89_a49d_cec2_1f26_1d01_487f_a9a9nat);
    assert(0x1a4_1e36_a15f_aa08_733b_9a8b_ac72_331b_9fb4_208c_b88e_e2c1nat * 0x800_0000_0000_0000_0000_0000_0000_0000_0000_0000nat == 0xd_20f1_b50a_fd50_4399_dcd4_5d63_9198_dcfd_a104_65c4_7716_0800_0000_0000_0000_0000_0000_0000_0000_0000_0000nat);
    lemma_power_known(
        0x3c49_4d44, 0xc9_4d44, 119, 0x800_0000_0000_0000_0000_0000_0000_0000_0000_0000nat,
        43025, 0x486f_f8f9_0b31,
        0x147f_2d05_f066_bc73_b5cf_3f61nat,
        269025, 0x45_2c59_9066_9ca1,
        0x12b0_eff6_c049_6d6d_d948_5020_9d41nat,
        0x2_7929_ad42_b331, 0x6_1dff_219c_cec8_ef43_1cb1_8f61nat,
        0x2_7929_b38d_1d51, 0x6_1dff_40ba_dc1c_9aba_9495_73a1nat,
    );
}

/// Code 30.
proof fn lemma_entry_30()
    ensures
        nearest_to_power(0x3c54_b6c9, 44025, 269025),
{
    lemma_fifth_powers_of_two();
    assert(44025nat * 44025 * 44025 == 0x4d9b_4592_c2a9);
    assert(0x4d9b_4592_c2a9 * 0x4d9b_4592_c2a9 == 0x1786_c607_9bb9_d3b7_b6c8_9391nat);
    assert(0x1a9_6d91 * 0x1a9_6d91 == 0x2_c2fc_fa56_cc21);
    assert(0x2_c2fc_fa56_cc21 * 0x2_c2fc_fa56_cc21 == 0x7_a078_4ec4_8d95_8916_3cf0_9c41nat);
    assert(0x1a9_6d93 * 0x1a9_6d93 == 0x2_c2fd_00fc_8269);
    assert(0x2_c2fd_00fc_8269 * 0x2_c2fd_00fc_8269 == 0x7_a078_737b_b265_e09b_0126_cf11nat);
    assert(269025nat * 269025 * 269025 == 0x45_2c59_9066_9ca1);
    assert(0x45_2c59_9066_9ca1 * 0x45_2c59_9066_9ca1 == 0x12b0_eff6_c049_6d6d_d948_5020_9d41nat);
    assert(0x12b0_eff6_c049_6d6d_d948_5020_9d41nat * 0x12b0_eff6_c049_6d6d_d948_5020_9d41nat == 0x15d_5c09_8741_6139_2178_92b9_bce5_5f46_89a2_dd05_b95f_0d00_50d8_ca81nat);
    assert(0x1786_c607_9bb9_d3b7_b6c8_9391nat * 0x1786_c607_9bb9_d3b7_b6c8_9391nat == 0x229_7e89_4722_2fb1_fd8f_b48c_f2fd_c9aa_5617_ce47_139f_d821nat);
    assert(0x7_a078_4ec4_8d95_8916_3cf0_9c41nat * 0x1a9_6d91 == 0xcac_ab5f_e1fd_5add_72fc_48fe_5eb9_2dd1nat);
    assert(0x7_a078_737b_b265_e09b_0126_cf11nat * 0x1a9_6d93 == 0xcac_abac_26b1_261e_b276_e1ec_f2ac_23c3nat);
    assert(0xcac_ab5f_e1fd_5add_72fc_48fe_5eb9_2dd1nat * 0x15d_5c09_8741_6139_2178_92b9_bce5_5f46_89a2_dd05_b95f_0d00_50d8_ca81nat == 0x11_4bf4_2811_dd02_3304_3c8f_bf87_c589_6f29_8fb2_e9b0_d713_73c1_9ec4_41d7_3e99_ef20_97b7_87d5_e67b_d1cf_0051nat);
    assert(0xcac_abac_26b1_261e_b276_e1ec_f2ac_23c3nat * 0x15d_5c09_8741_6139_2178_92b9_bce5_5f46_89a2_dd05_b95f_0d00_50d8_ca81nat == 0x11_4bf4_9026_f1a5_9e0a_97b0_efea_6cab_9f3f_d8ea_7500_b246_9894_dd6c_ec0d_d79e_796b_af0d_561d_434d_397d_e343nat);
    assert(0x229_7e89_4722_2fb1_fd8f_b48c_f2fd_c9aa_5617_ce47_139f_d821nat * 0x800_0000_0000_0000_0000_0000_0000_0000_0000_0000nat == 0x11_4bf4_4a39_117d_8fec_7da4_6797_ee4d_52b0_be72_389c_fec1_0800_0000_0000_0000_0000_0000_0000_0000_0000_0000nat);
    lemma_power_known(
        0x3c54_b6c9, 0xd4_b6c9, 119, 0x800_0000_0000_0000_0000_0000_0000_0000_0000_0000nat,
        44025, 0x4d9b_4592_c2a9,
        0x1786_c607_9bb9_d3b7_b6c8_9391nat,
        269025, 0x45_2c59_9066_9ca1,
        0x12b0_eff6_c049_6d6d_d948_5020_9d41nat,
        0x2_c2fc_fa56_cc21, 0x7_a078_4ec4_8d95_8916_3cf0_9c41nat,
        0x2_c2fd_00fc_8269, 0x7_a078_737b_b265_e09b_0126_cf11nat,
    );
}

/// Code 31.
proof fn lemma_entry_31()
    ensures
        nearest_to_power(0x3c60_7eb4, 45025, 269025),
{
    lemma_fifth_powers_of_two();
    assert(45025nat * 45025 * 45025 == 0x5304_12bd_9ba1);
    assert(0x5304_12bd_9ba1 * 0x5304_12bd_9ba1 == 0x1aeb_a437_8a36_7959_ce56_5b41nat);
    assert(0x1c0_fd67 * 0x1c0_fd67 == 0x3_1377_e354_bf71);
    assert(0x3_1377_e354_bf71 * 0x3_1377_e354_bf71 == 0x9_764a_57e0_33ba_289e_9751_cfe1nat);
    assert(0x1c0_fd69 * 0x1c0_fd69 == 0x3_1377_ea58_b511);
    assert(0x3_1377_ea58_b511 * 0x3_1377_ea58_b511 == 0x9_764a_8309_1e45_258e_0fc1_0b21nat);
    assert(269025nat * 269025 * 269025 == 0x45_2c59_9066_9ca1);
    assert(0x45_2c59_9066_9ca1 * 0x45_2c59_9066_9ca1 == 0x12b0_eff6_c049_6d6d_d948_5020_9d41nat);
    assert(0x12b0_eff6_c049_6d6d_d948_5020_9d41nat * 0x12b0_eff6_c049_6d6d_d948_5020_9d41nat == 0x15d_5c09_8741_6139_2178_92b9_bce5_5f46_89a2_dd05_b95f_0d00_50d8_ca81nat);
    assert(0x1aeb_a437_8a36_7959_ce56_5b41nat * 0x1aeb_a437_8a36_7959_ce56_5b41nat == 0x2d4_b642_2f62_05cb_824c_5876_493a_a94d_5409_fd30_0c33_4681nat);
    assert(0x9_764a_57e0_33ba_289e_9751_cfe1nat * 0x1c0_fd67 == 0x1098_5fcf_d91c_741a_df93_e286_861c_0087nat);
    assert(0x9_764a_8309_1e45_258e_0fc1_0b21nat * 0x1c0_fd69 == 0x1098_602e_7804_baa9_7915_5ea9_b7ed_2d89nat);
    assert(0x1098_5fcf_d91c_741a_df93_e286_861c_0087nat * 0x15d_5c09_8741_6139_2178_92b9_bce5_5f46_89a2_dd05_b95f_0d00_50d8_ca81nat == 0x16_a5b1_fee9_a3a3_8407_372f_3e78_e8f9_3e8f_657f_86a2_ae2a_25b7_3603_62ff_3797_6043_f4be_b2cd_0e66_4e6e_ca07nat);
    assert(0x1098_602e_7804_baa9_7915_5ea9_b7ed_2d89nat * 0x15d_5c09_8741_6139_2178_92b9_bce5_5f46_89a2_dd05_b95f_0d00_50d8_ca81nat == 0x16_a5b2_800a_4aec_c1ea_fc66_4946_7fc9_6d17_880e_3848_ba4c_d0d3_9ac8_7187_d4f1_00d8_0e7d_bb4a_e200_100a_0c09nat);
    assert(0x2d4_b642_2f62_05cb_824c_5876_493a_a94d_5409_fd30_0c33_4681nat * 0x800_0000_0000_0000_0000_0000_0000_0000_0000_0000nat == 0x16_a5b2_117b_102e_5c12_62c3_b249_d54a_6aa0_4fe9_8061_9a34_0800_0000_0000_0000_0000_0000_0000_0000_0000_0000nat);
    lemma_power_known(
        0x3c60_7eb4, 0xe0_7eb4, 119, 0x800_0000_0000_0000_0000_0000_0000_0000_0000_0000nat,
        45025, 0x5304_12bd_9ba1,
        0x1aeb_a437_8a36_7959_ce56_5b41nat,
        269025, 0x45_2c59_9066_9ca1,
        0x12b0_eff6_c049_6d6d_d948_5020_9d41nat,
        0x3_1377_e354_bf71, 0x9_764a_57e0_33ba_289e_9751_cfe1nat,
        0x3_1377_ea58_b511, 0x9_764a_8309_1e45_258e_0fc1_0b21nat,
    );
}

/// Code 32.
proof fn lemma_entry_32()
    ensures
        nearest_to_power(0x3c6c_a5df, 46025, 269025),
{
    lemma_fifth_powers_of_two();
    assert(46025nat * 46025 * 46025 == 0x58ab_c61a_5219);
    assert(0x58ab_c61a_5219 * 0x58ab_c61a_5219 == 0x1eb6_8b74_58e7_9719_7368_0671nat);
    assert(0x1d9_4bbd * 0x1d9_4bbd == 0x3_6b08_f6d2_4989);
    assert(0x3_6b08_f6d2_4989 * 0x3_6b08_f6d2_4989 == 0xb_aef6_4791_ddcb_f0a0_05e3_6b51nat);
    assert(0x1d9_4bbf * 0x1d9_4bbf == 0x3_6b08_fe37_7881);
    assert(0x3_6b08_fe37_7881 * 0x3_6b08_fe37_7881 == 0xb_aef6_7a20_11ab_7d34_fc27_3101nat);
    assert(269025nat * 269025 * 269025 == 0x45_2c59_9066_9ca1);
    assert(0x45_2c59_9066_9ca1 * 0x45_2c59_9066_9ca1 == 0x12b0_eff6_c049_6d6d_d948_5020_9d41nat);
    assert(0x12b0_eff6_c049_6d6d_d948_5020_9d41nat * 0x12b0_eff6_c049_6d6d_d948_5020_9d41nat == 0x15d_5c09_8741_6139_2178_92b9_bce5_5f46_89a2_dd05_b95f_0d00_50d8_ca81nat);
    assert(0x1eb6_8b74_58e7_9719_7368_0671nat * 0x1eb6_8b74_58e7_9719_7368_0671nat == 0x3af_4ad9_da3c_3e20_fe13_1532_ba65_5f3d_c5df_3020_c1f9_7de1nat);
    assert(0xb_aef6_4791_ddcb_f0a0_05e3_6b51nat * 0x1d9_4bbd == 0x1599_b9ec_8f4d_607b_16ba_690f_41ff_f5cdnat);
    assert(0xb_aef6_7a20_11ab_7d34_fc27_3101nat * 0x1d9_4bbf == 0x1599_ba61_64ed_28f4_c386_d4d1_2771_dabfnat);
    assert(0x1599_b9ec_8f4d_607b_16ba_690f_41ff_f5cdnat * 0x15d_5c09_8741_6139_2178_92b9_bce5_5f46_89a2_dd05_b95f_0d00_50d8_ca81nat == 0x1d_7a56_8421_7e95_6654_d286_a38f_036d_a1db_796b_2fc2_4c67_31c9_ab1a_2372_16d0_1fb1_2f0b_4fe3_108b_aee6_9e4dnat);
    assert(0x1599_ba61_64ed_28f4_c386_d4d1_2771_dabfnat * 0x15d_5c09_8741_6139_2178_92b9_bce5_5f46_89a2_dd05_b95f_0d00_50d8_ca81nat == 0x1d_7a57_2392_ba88_5d5d_0ae4_87ed_649b_a84c_ce80_596f_e2fb_0e58_d0e6_cc6f_c2d9_b44d_93f3_d3a7_d5f0_f821_f03fnat);
    assert(0x3af_4ad9_da3c_3e20_fe13_1532_ba65_5f3d_c5df_3020_c1f9_7de1nat * 0x800_0000_0000_0000_0000_0000_0000_0000_0000_0000nat == 0x1d_7a56_ced1_e1f1_07f0_98a9_95d3_2af9_ee2e_f981_060f_cbef_0800_0000_0000_0000_0000_0000_0000_0000_0000_0000nat);
    lemma_power_known(
        0x3c6c_a5df, 0xec_a5df, 119, 0x800_0000_0000_0000_0000_0000_0000_0000_0000_0000nat,
        46025, 0x58ab_c61a_5219,
        0x1eb6_8b74_58e7_9719_7368_0671nat,
        269025, 0x45_2c59_9066_9ca1,
        0x12b0_eff6_c049_6d6d_d948_5020_9d41nat,
        0x3_6b08_f6d2_4989, 0xb_aef6_4791_ddcb_f0a0_05e3_6b51nat,
        0x3_6b08_fe37_7881, 0xb_aef6_7a20_11ab_7d34_fc27_3101nat,
    );
}

/// Code 33.
proof fn lemma_entry_33()
    ensures
        nearest_to_power(0x3c79_2d22, 47025, 269025),
{
    lemma_fifth_powers_of_two();
    assert(47025nat * 47025 * 47025 == 0x5e93_c549_a211);
    assert(0x5e93_c549_a211 * 0x5e93_c549_a211 == 0x22f0_da2e_3d9f_0421_fe4b_8521nat);
    assert(0x1f2_5a43 * 0x1f2_5a43 == 0x3_ca23_4c7f_2d89);
    assert(0x3_ca23_4c7f_2d89 * 0x3_ca23_4c7f_2d89 == 0xe_5c6f_8491_c6b4_69ad_8e07_7351nat);
    assert(0x1f2_5a45 * 0x1f2_5a45 == 0x3_ca23_5448_9699);
    assert(0x3_ca23_5448_9699 * 0x3_ca23_5448_9699 == 0xe_5c6f_bf96_3cd8_593f_76a7_a771nat);
    assert(269025nat * 269025 * 269025 == 0x45_2c59_9066_9ca1);
    assert(0x45_2c59_9066_9ca1 * 0x45_2c59_9066_9ca1 == 0x12b0_eff6_c049_6d6d_d948_5020_9d41nat);
    assert(0x12b0_eff6_c049_6d6d_d948_5020_9d41nat * 0x12b0_eff6_c049_6d6d_d948_5020_9d41nat == 0x15d_5c09_8741_6139_2178_92b9_bce5_5f46_89a2_dd05_b95f_0d00_50d8_ca81nat);
    assert(0x22f0_da2e_3d9f_0421_fe4b_8521nat * 0x22f0_da2e_3d9f_0421_fe4b_8521nat == 0x4c4_dc8e_1904_908d_ce4d_6904_b93a_ff93_0139_4cf6_c291_4e41nat);
    assert(0xe_5c6f_8491_c6b4_69ad_8e07_7351nat * 0x1f2_5a43 == 0x1bf4_e131_495f_7cf8_01fc_f6d9_1e0f_a833nat);
    assert(0xe_5c6f_bf96_3cd8_593f_76a7_a771nat * 0x1f2_5a45 == 0x1bf4_e1c0_e5bb_d1c0_1325_2ff5_a5df_db75nat);
    assert(0x1bf4_e131_495f_7cf8_01fc_f6d9_1e0f_a833nat * 0x15d_5c09_8741_6139_2178_92b9_bce5_5f46_89a2_dd05_b95f_0d00_50d8_ca81nat == 0x26_26e4_0b7f_eed3_7515_c40e_63cf_d152_b1ad_1c76_f415_ac2d_128c_3438_ee42_d3c5_7337_3400_cd4d_8de6_5ba3_ffb3nat);
    assert(0x1bf4_e1c0_e5bb_d1c0_1325_2ff5_a5df_db75nat * 0x15d_5c09_8741_6139_2178_92b9_bce5_5f46_89a2_dd05_b95f_0d00_50d8_ca81nat == 0x26_26e4_cf7b_ba3c_97ad_f789_e9f7_fcec_ed6c_2785_ae74_cc22_9eb9_4563_3380_6c04_2686_1ea1_943e_da20_f3af_e7f5nat);
    assert(0x4c4_dc8e_1904_908d_ce4d_6904_b93a_ff93_0139_4cf6_c291_4e41nat * 0x800_0000_0000_0000_0000_0000_0000_0000_0000_0000nat == 0x26_26e4_70c8_2484_6e72_6b48_25c9_d7fc_9809_ca67_b614_8a72_0800_0000_0000_0000_0000_0000_0000_0000_0000_0000nat);
    lemma_power_known(
        0x3c79_2d22, 0xf9_2d22, 119, 0x800_0000_0000_0000_0000_0000_0000_0000_0000_0000nat,
        47025, 0x5e93_c549_a211,
        0x22f0_da2e_3d9f_0421_fe4b_8521nat,
        269025, 0x45_2c59_9066_9ca1,
        0x12b0_eff6_c049_6d6d_d948_5020_9d41nat,
        0x3_ca23_4c7f_2d89, 0xe_5c6f_8491_c6b4_69ad_8e07_7351nat,
        0x3_ca23_5448_9699, 0xe_5c6f_bf96_3cd8_593f_76a7_a771nat,
    );
}

/// Code 34.
proof fn lemma_entry_34()
    ensures
        nearest_to_power(0x3c83_0aa9, 48025, 269025),
{
    lemma_fifth_powers_of_two();
    assert(48025nat * 48025 * 48025 == 0x64bd_75ec_4789);
    assert(0x64bd_75ec_4789 * 0x64bd_75ec_4789 == 0x27a4_9057_ed16_7bc1_3295_4751nat);
    assert(0x106_1551 * 0x106_1551 == 0x1_0c4f_a392_63a1);
    assert(0x1_0c4f_a392_63a1 * 0x1_0c4f_a392_63a1 == 0x1_1936_d740_dd76_53f2_d069_eb41nat);
    assert(0x106_1553 * 0x106_1553 == 0x1_0c4f_a7aa_b8e9);
    assert(0x1_0c4f_a7aa_b8e9 * 0x1_0c4f_a7aa_b8e9 == 0x1_1936_dfd6_5c56_26e8_1903_c411nat);
    assert(269025nat * 269025 * 269025 == 0x45_2c59_9066_9ca1);
    assert(0x45_2c59_9066_9ca1 * 0x45_2c59_9066_9ca1 == 0x12b0_eff6_c049_6d6d_d948_5020_9d41nat);
    assert(0x12b0_eff6_c049_6d6d_d948_5020_9d41nat * 0x12b0_eff6_c049_6d6d_d948_5020_9d41nat == 0x15d_5c09_8741_6139_2178_92b9_bce5_5f46_89a2_dd05_b95f_0d00_50d8_ca81nat);
    assert(0x27a4_9057_ed16_7bc1_3295_4751nat * 0x27a4_9057_ed16_7bc1_3295_4751nat == 0x623_8dc4_0c47_a76f_b906_6453_9829_e92a_fd88_0509_bc28_07a1nat);
    assert(0x1_1936_d740_dd76_53f2_d069_eb41nat * 0x106_1551 == 0x11f_e58a_c665_14ca_b1d4_c753_6655_c491nat);
    assert(0x1_1936_dfd6_5c56_26e8_1903_c411nat * 0x106_1553 == 0x11f_e595_c289_a83e_d2a9_4128_14b3_f683nat);
    assert(0x11f_e58a_c665_14ca_b1d4_c753_6655_c491nat * 0x15d_5c09_8741_6139_2178_92b9_bce5_5f46_89a2_dd05_b95f_0d00_50d8_ca81nat == 0x1_88e3_6f65_848d_7270_04ff_97da_c44d_7d8f_6076_fff9_f970_b133_2795_29f2_4f62_b016_292f_d5a3_c291_68aa_7711nat);
    assert(0x11f_e595_c289_a83e_d2a9_4128_14b3_f683nat * 0x15d_5c09_8741_6139_2178_92b9_bce5_5f46_89a2_dd05_b95f_0d00_50d8_ca81nat == 0x1_88e3_7e63_3570_47cd_2c94_4f8a_9d45_bc5c_d332_d927_707f_ef28_d37b_2457_ff90_d753_a996_7e1e_d169_5dba_9603nat);
    assert(0x623_8dc4_0c47_a76f_b906_6453_9829_e92a_fd88_0509_bc28_07a1nat * 0x40_0000_0000_0000_0000_0000_0000_0000_0000_0000nat == 0x1_88e3_7103_11e9_dbee_4199_14e6_0a7a_4abf_6201_426f_0a01_e840_0000_0000_0000_0000_0000_0000_0000_0000_0000nat);
    lemma_power_known(
        0x3c83_0aa9, 0x83_0aa9, 120, 0x40_0000_0000_0000_0000_0000_0000_0000_0000_0000nat,
        48025, 0x64bd_75ec_4789,
        0x27a4_9057_ed16_7bc1_3295_4751nat,
        269025, 0x45_2c59_9066_9ca1,
        0x12b0_eff6_c049_6d6d_d948_5020_9d41nat,
        0x1_0c4f_a392_63a1, 0x1_1936_d740_dd76_53f2_d069_eb41nat,
        0x1_0c4f_a7aa_b8e9, 0x1_1936_dfd6_5c56_26e8_1903_c411nat,
    );
}

/// Code 35.
proof fn lemma_entry_35()
    ensures
        nearest_to_power(0x3c89_af9f, 49025, 269025),
{
    lemma_fifth_powers_of_two();
    assert(49025nat * 49025 * 49025 == 0x6b2a_3da2_fe81);
    assert(0x6b2a_3da2_fe81 * 0x6b2a_3da2_fe81 == 0x2cdc_567e_8912_6d64_9248_3d01nat);
    assert(0x113_5f3d * 0x113_5f3d == 0x1_2835_c07c_5489);
    assert(0x1_2835_c07c_5489 * 0x1_2835_c07c_5489 == 0x1_56bc_5868_c7b2_8be9_80a2_3151nat);
    assert(0x113_5f3f * 0x113_5f3f == 0x1_2835_c4c9_d181);
    assert(0x1_2835_c4c9_d181 * 0x1_2835_c4c9_d181 == 0x1_56bc_625d_c750_b752_3005_e301nat);
    assert(269025nat * 269025 * 269025 == 0x45_2c59_9066_9ca1);
    assert(0x45_2c59_9066_9ca1 * 0x45_2c59_9066_9ca1 == 0x12b0_eff6_c049_6d6d_d948_5020_9d41nat);
    assert(0x12b0_eff6_c049_6d6d_d948_5020_9d41nat * 0x12b0_eff6_c049_6d6d_d948_5020_9d41nat == 0x15d_5c09_8741_6139_2178_92b9_bce5_5f46_89a2_dd05_b95f_0d00_50d8_ca81nat);
    assert(0x2cdc_567e_8912_6d64_9248_3d01nat * 0x2cdc_567e_8912_6d64_9248_3d01nat == 0x7dc_7b60_45d3_2fea_302c_3cd2_ef45_6883_c61c_fcbf_8319_7a01nat);
    assert(0x1_56bc_5868_c7b2_8be9_80a2_3151nat * 0x113_5f3d == 0x170_abd4_883e_77df_234c_2b9a_d0f5_cf4dnat);
    assert(0x1_56bc_625d_c750_b752_3005_e301nat * 0x113_5f3f == 0x170_abe1_eb9a_1dbf_ee2e_335e_dac3_3c3fnat);
    assert(0x170_abd4_883e_77df_234c_2b9a_d0f5_cf4dnat * 0x15d_5c09_8741_6139_2178_92b9_bce5_5f46_89a2_dd05_b95f_0d00_50d8_ca81nat == 0x1_f71e_cc36_f15d_60ab_0d2e_6aac_be92_c245_13e0_8e53_4deb_d836_87a3_2a9b_c74c_6b86_9f54_1dd1_2b14_3a68_37cdnat);
    assert(0x170_abe1_eb9a_1dbf_ee2e_335e_dac3_3c3fnat * 0x15d_5c09_8741_6139_2178_92b9_bce5_5f46_89a2_dd05_b95f_0d00_50d8_ca81nat == 0x1_f71e_de7c_3583_04c5_e584_a01a_b62c_4d17_2ed3_2119_7ae3_a312_3433_0df3_022a_0518_7d04_42a6_85f8_cf13_11bfnat);
    assert(0x7dc_7b60_45d3_2fea_302c_3cd2_ef45_6883_c61c_fcbf_8319_7a01nat * 0x40_0000_0000_0000_0000_0000_0000_0000_0000_0000nat == 0x1_f71e_d811_74cb_fa8c_0b0f_34bb_d15a_20f1_873f_2fe0_c65e_8040_0000_0000_0000_0000_0000_0000_0000_0000_0000nat);
    lemma_power_known(
        0x3c89_af9f, 0x89_af9f, 120, 0x40_0000_0000_0000_0000_0000_0000_0000_0000_0000nat,
        49025, 0x6b2a_3da2_fe81,
        0x2cdc_567e_8912_6d64_9248_3d01nat,
        269025, 0x45_2c59_9066_9ca1,
        0x12b0_eff6_c049_6d6d_d948_5020_9d41nat,
        0x1_2835_c07c_5489, 0x1_56bc_5868_c7b2_8be9_80a2_3151nat,
        0x1_2835_c4c9_d181, 0x1_56bc_625d_c750_b752_3005_e301nat,
    );
}

/// Code 36.
proof fn lemma_entry_36()
    ensures
        nearest_to_power(0x3c90_85dc, 50025, 269025),
{
    lemma_fifth_powers_of_two();
    assert(50025nat * 50025 * 50025 == 0x71db_820e_82f9);
    assert(0x71db_820e_82f9 * 0x71db_820e_82f9 == 0x32a3_8508_9686_a5dd_7a3d_d631nat);
    assert(0x121_0bb7 * 0x121_0bb7 == 0x1_465b_73b7_3cd1);
    assert(0x1_465b_73b7_3cd1 * 0x1_465b_73b7_3cd1 == 0x1_a00d_0b62_2777_ac61_c740_a2a1nat);
    assert(0x121_0bb9 * 0x121_0bb9 == 0x1_465b_783b_6bb1);
    assert(0x1_465b_783b_6bb1 * 0x1_465b_783b_6bb1 == 0x1_a00d_16e6_08fd_1e96_c0e3_7061nat);
    assert(269025nat * 269025 * 269025 == 0x45_2c59_9066_9ca1);
    assert(0x45_2c59_9066_9ca1 * 0x45_2c59_9066_9ca1 == 0x12b0_eff6_c049_6d6d_d948_5020_9d41nat);
    assert(0x12b0_eff6_c049_6d6d_d948_5020_9d41nat * 0x12b0_eff6_c049_6d6d_d948_5020_9d41nat == 0x15d_5c09_8741_6139_2178_92b9_bce5_5f46_89a2_dd05_b95f_0d00_50d8_ca81nat);
    assert(0x32a3_8508_9686_a5dd_7a3d_d631nat * 0x32a3_8508_9686_a5dd_7a3d_d631nat == 0xa04_486a_08de_34f3_650e_6277_6565_fbfd_a689_f9b0_7a8f_f561nat);
    assert(0x1_a00d_0b62_2777_ac61_c740_a2a1nat * 0x121_0bb7 == 0x1d5_c1c3_d29e_e8f5_f556_5d6c_cdf2_2c17nat);
    assert(0x1_a00d_16e6_08fd_1e96_c0e3_7061nat * 0x121_0bb9 == 0x1d5_c1d4_1321_945e_e76b_55fd_07b1_6119nat);
    assert(0x1d5_c1c3_d29e_e8f5_f556_5d6c_cdf2_2c17nat * 0x15d_5c09_8741_6139_2178_92b9_bce5_5f46_89a2_dd05_b95f_0d00_50d8_ca81nat == 0x2_8112_0b14_835d_f8a9_1563_4cb2_973f_885f_eb7a_df36_06e3_cd3c_9e6e_bf9b_bdd1_ec63_223a_e22c_8b71_413a_5d97nat);
    assert(0x1d5_c1d4_1321_945e_e76b_55fd_07b1_6119nat * 0x15d_5c09_8741_6139_2178_92b9_bce5_5f46_89a2_dd05_b95f_0d00_50d8_ca81nat == 0x2_8112_2142_4d4b_7718_4f4e_12b3_bd2a_9151_9b00_f832_bb42_641f_2eb1_e806_a603_4c51_d1bc_0a0b_2d94_9417_a799nat);
    assert(0xa04_486a_08de_34f3_650e_6277_6565_fbfd_a689_f9b0_7a8f_f561nat * 0x40_0000_0000_0000_0000_0000_0000_0000_0000_0000nat == 0x2_8112_1a82_378d_3cd9_4398_9dd9_597e_ff69_a27e_6c1e_a3fd_5840_0000_0000_0000_0000_0000_0000_0000_0000_0000nat);
    lemma_power_known(
        0x3c90_85dc, 0x90_85dc, 120, 0x40_0000_0000_0000_0000_0000_0000_0000_0000_0000nat,
        50025, 0x71db_820e_82f9,
        0x32a3_8508_9686_a5dd_7a3d_d631nat,
        269025, 0x45_2c59_9066_9ca1,
        0x12b0_eff6_c049_6d6d_d948_5020_9d41nat,
        0x1_465b_73b7_3cd1, 0x1_a00d_0b62_2777_ac61_c740_a2a1nat,
        0x1_465b_783b_6bb1, 0x1_a00d_16e6_08fd_1e96_c0e3_7061nat,
    );
}

/// Code 37.
proof fn lemma_entry_37()
    ensures
        nearest_to_power(0x3c97_8dc6, 51025, 269025),
{
    lemma_fifth_powers_of_two();
    assert(51025nat * 51025 * 51025 == 0x78d2_a8cf_90f1);
    assert(0x78d2_a8cf_90f1 * 0x78d2_a8cf_90f1 == 0x3906_2b9b_fbbc_d1ec_07ce_02e1nat);
    assert(0x12f_1b8b * 0x12f_1b8b == 0x1_66e2_3600_9d79);
    assert(0x1_66e2_3600_9d79 * 0x1_66e2_3600_9d79 == 0x1_f71d_76ed_1ce8_b813_6cdd_a331nat);
    assert(0x12f_1b8d * 0x12f_1b8d == 0x1_66e2_3abd_0ba9);
    assert(0x1_66e2_3abd_0ba9 * 0x1_66e2_3abd_0ba9 == 0x1_f71d_8434_7fdf_7746_cc11_f591nat);
    assert(269025nat * 269025 * 269025 == 0x45_2c59_9066_9ca1);
    assert(0x45_2c59_9066_9ca1 * 0x45_2c59_9066_9ca1 == 0x12b0_eff6_c049_6d6d_d948_5020_9d41nat);
    assert(0x12b0_eff6_c049_6d6d_d948_5020_9d41nat * 0x12b0_eff6_c049_6d6d_d948_5020_9d41nat == 0x15d_5c09_8741_6139_2178_92b9_bce5_5f46_89a2_dd05_b95f_0d00_50d8_ca81nat);
    assert(0x3906_2b9b_fbbc_d1ec_07ce_02e1nat * 0x3906_2b9b_fbbc_d1ec_07ce_02e1nat == 0xcb3_bf91_88d7_a7f1_2f41_684a_d317_c10c_353d_9ac8_f024_49c1nat);
    assert(0x1_f71d_76ed_1ce8_b813_6cdd_a331nat * 0x12f_1b8b == 0x253_b201_0b2f_cc3d_1cc3_d95b_a38c_c69bnat);
    assert(0x1_f71d_8434_7fdf_7746_cc11_f591nat * 0x12f_1b8d == 0x253_b214_b256_b3e5_2c74_b2c5_f169_8bddnat);
    assert(0x253_b201_0b2f_cc3d_1cc3_d95b_a38c_c69bnat * 0x15d_5c09_8741_6139_2178_92b9_bce5_5f46_89a2_dd05_b95f_0d00_50d8_ca81nat == 0x3_2cef_d590_9d38_fbf1_514e_654a_f017_e0d4_2f1a_fbc5_90d6_5282_acce_c8ac_3873_f551_60c2_ed3b_b212_816e_621bnat);
    assert(0x253_b214_b256_b3e5_2c74_b2c5_f169_8bddnat * 0x15d_5c09_8741_6139_2178_92b9_bce5_5f46_89a2_dd05_b95f_0d00_50d8_ca81nat == 0x3_2cef_f062_8e10_09d7_abb5_dfc1_1164_5fa8_885e_0782_60a4_8e61_dd42_f8b5_fb9e_9a8a_e3b5_2670_2bff_0103_dc5dnat);
    assert(0xcb3_bf91_88d7_a7f1_2f41_684a_d317_c10c_353d_9ac8_f024_49c1nat * 0x40_0000_0000_0000_0000_0000_0000_0000_0000_0000nat == 0x3_2cef_e462_35e9_fc4b_d05a_12b4_c5f0_430d_4f66_b23c_0912_7040_0000_0000_0000_0000_0000_0000_0000_0000_0000nat);
    lemma_power_known(
        0x3c97_8dc6, 0x97_8dc6, 120, 0x40_0000_0000_0000_0000_0000_0000_0000_0000_0000nat,
        51025, 0x78d2_a8cf_90f1,
        0x3906_2b9b_fbbc_d1ec_07ce_02e1nat,
        269025, 0x45_2c59_9066_9ca1,
        0x12b0_eff6_c049_6d6d_d948_5020_9d41nat,
        0x1_66e2_3600_9d79, 0x1_f71d_76ed_1ce8_b813_6cdd_a331nat,
        0x1_66e2_3abd_0ba9, 0x1_f71d_8434_7fdf_7746_cc11_f591nat,
    );
}

/// Code 38.
proof fn lemma_entry_38()
    ensures
        nearest_to_power(0x3c9e_c7c2, 52025, 269025),
{
    lemma_fifth_powers_of_two();
    assert(52025nat * 52025 * 52025 == 0x8011_1786_e469);
    assert(0x8011_1786_e469 * 0x8011_1786_e469 == 0x4011_18ab_067c_da10_c7b7_3311nat);
    assert(0x13d_8f83 * 0x13d_8f83 == 0x1_89ec_bae1_9d09);
    assert(0x1_89ec_bae1_9d09 * 0x1_89ec_bae1_9d09 == 0x2_5e28_b0b1_cc8b_c99e_7e26_0a51nat);
    assert(0x13d_8f85 * 0x13d_8f85 == 0x1_89ec_bfd7_db19);
    assert(0x1_89ec_bfd7_db19 * 0x1_89ec_bfd7_db19 == 0x2_5e28_bff7_0472_8709_0d81_c871nat);
    assert(269025nat * 269025 * 269025 == 0x45_2c59_9066_9ca1);
    assert(0x45_2c59_9066_9ca1 * 0x45_2c59_9066_9ca1 == 0x12b0_eff6_c049_6d6d_d948_5020_9d41nat);
    assert(0x12b0_eff6_c049_6d6d_d948_5020_9d41nat * 0x12b0_eff6_c049_6d6d_d948_5020_9d41nat == 0x15d_5c09_8741_6139_2178_92b9_bce5_5f46_89a2_dd05_b95f_0d00_50d8_ca81nat);
    assert(0x4011_18ab_067c_da10_c7b7_3311nat * 0x4011_18ab_067c_da10_c7b7_3311nat == 0x1008_8d79_cc55_cd16_6dee_aed7_33f2_0dd1_da25_aa9e_7a7d_c721nat);
    assert(0x2_5e28_b0b1_cc8b_c99e_7e26_0a51nat * 0x13d_8f83 == 0x2ef_ec31_b5b0_0556_6a69_e9ac_9387_8673nat);
    assert(0x2_5e28_bff7_0472_8709_0d81_c871nat * 0x13d_8f85 == 0x2ef_ec49_6347_38a2_7f23_eff4_b751_41b5nat);
    assert(0x2ef_ec31_b5b0_0556_6a69_e9ac_9387_8673nat * 0x15d_5c09_8741_6139_2178_92b9_bce5_5f46_89a2_dd05_b95f_0d00_50d8_ca81nat == 0x4_0223_54a3_2198_aba6_01ae_8737_e16e_4dcc_29bd_8f00_17b6_ce42_849c_1401_d60f_4316_1d17_2af8_97bc_a869_7df3nat);
    assert(0x2ef_ec49_6347_38a2_7f23_eff4_b751_41b5nat * 0x15d_5c09_8741_6139_2178_92b9_bce5_5f46_89a2_dd05_b95f_0d00_50d8_ca81nat == 0x4_0223_74f3_4bfd_8db5_35e8_db3d_dbda_15b3_f454_b1b0_e0af_8a7f_5dc4_73ab_f86a_adbc_f9fe_abb8_450e_7e82_ee35nat);
    assert(0x1008_8d79_cc55_cd16_6dee_aed7_33f2_0dd1_da25_aa9e_7a7d_c721nat * 0x40_0000_0000_0000_0000_0000_0000_0000_0000_0000nat == 0x4_0223_5e73_1573_459b_7bab_b5cc_fc83_7476_896a_a79e_9f71_c840_0000_0000_0000_0000_0000_0000_0000_0000_0000nat);
    lemma_power_known(
        0x3c9e_c7c2, 0x9e_c7c2, 120, 0x40_0000_0000_0000_0000_0000_0000_0000_0000_0000nat,
        52025, 0x8011_1786_e469,
        0x4011_18ab_067c_da10_c7b7_3311nat,
        269025, 0x45_2c59_9066_9ca1,
        0x12b0_eff6_c049_6d6d_d948_5020_9d41nat,
        0x1_89ec_bae1_9d09, 0x2_5e28_b0b1_cc8b_c99e_7e26_0a51nat,
        0x1_89ec_bfd7_db19, 0x2_5e28_bff7_0472_8709_0d81_c871nat,
    );
}

/// Code 39.
proof fn lemma_entry_39()
    ensures
        nearest_to_power(0x3ca6_3433, 53025, 269025),
{
    lemma_fifth_powers_of_two();
    assert(53025nat * 53025 * 53025 == 0x8798_33d5_3961);
    assert(0x8798_33d5_3961 * 0x8798_33d5_3961 == 0x47d1_e128_7a37_17a5_2e46_56c1nat);
    assert(0x14c_6865 * 0x14c_6865 == 0x1_af9e_f08a_37d9);
    assert(0x1_af9e_f08a_37d9 * 0x1_af9e_f08a_37d9 == 0x2_d7b8_909f_34ad_1133_2222_f5f1nat);
    assert(0x14c_6867 * 0x14c_6867 == 0x1_af9e_f5bb_d971);
    assert(0x1_af9e_f5bb_d971 * 0x1_af9e_f5bb_d971 == 0x2_d7b8_a222_c5eb_fd85_adc6_c3e1nat);
    assert(269025nat * 269025 * 269025 == 0x45_2c59_9066_9ca1);
    assert(0x45_2c59_9066_9ca1 * 0x45_2c59_9066_9ca1 == 0x12b0_eff6_c049_6d6d_d948_5020_9d41nat);
    assert(0x12b0_eff6_c049_6d6d_d948_5020_9d41nat * 0x12b0_eff6_c049_6d6d_d948_5020_9d41nat == 0x15d_5c09_8741_6139_2178_92b9_bce5_5f46_89a2_dd05_b95f_0d00_50d8_ca81nat);
    assert(0x47d1_e128_7a37_17a5_2e46_56c1nat * 0x47d1_e128_7a37_17a5_2e46_56c1nat == 0x1426_16f5_ddea_4a4d_7e80_e053_6ae0_641e_8d8d_dd4a_eaf2_3d81nat);
    assert(0x2_d7b8_909f_34ad_1133_2222_f5f1nat * 0x14c_6865 == 0x3b0_ec1d_a50a_0ca8_6594_d461_a040_f015nat);
    assert(0x2_d7b8_a222_c5eb_fd85_adc6_c3e1nat * 0x14c_6867 == 0x3b0_ec3a_1240_0a72_4a4e_ad27_b258_3787nat);
    assert(0x3b0_ec1d_a50a_0ca8_6594_d461_a040_f015nat * 0x15d_5c09_8741_6139_2178_92b9_bce5_5f46_89a2_dd05_b95f_0d00_50d8_ca81nat == 0x5_0985_9c70_30e4_1d60_002b_3e6a_5a3e_fb4f_cb32_b094_6b82_d4b0_cacd_0f04_9808_ac84_a518_e503_a076_1fe1_8c95nat);
    assert(0x3b0_ec3a_1240_0a72_4a4e_ad27_b258_3787nat * 0x15d_5c09_8741_6139_2178_92b9_bce5_5f46_89a2_dd05_b95f_0d00_50d8_ca81nat == 0x5_0985_c33b_4bcd_5c91_4b17_fe68_597f_e61e_192f_b0ee_90e4_3735_ed61_26f6_8141_38a9_4e46_ac6b_7a83_842c_8107nat);
    assert(0x1426_16f5_ddea_4a4d_7e80_e053_6ae0_641e_8d8d_dd4a_eaf2_3d81nat * 0x40_0000_0000_0000_0000_0000_0000_0000_0000_0000nat == 0x5_0985_bd77_7a92_935f_a038_14da_b819_07a3_6377_52ba_bc8f_6040_0000_0000_0000_0000_0000_0000_0000_0000_0000nat);
    lemma_power_known(
        0x3ca6_3433, 0xa6_3433, 120, 0x40_0000_0000_0000_0000_0000_0000_0000_0000_0000nat,
        53025, 0x8798_33d5_3961,
        0x47d1_e128_7a37_17a5_2e46_56c1nat,
        269025, 0x45_2c59_9066_9ca1,
        0x12b0_eff6_c049_6d6d_d948_5020_9d41nat,
        0x1_af9e_f08a_37d9, 0x2_d7b8_909f_34ad_1133_2222_f5f1nat,
        0x1_af9e_f5bb_d971, 0x2_d7b8_a222_c5eb_fd85_adc6_c3e1nat,
    );
}

/// Code 40.
proof fn lemma_entry_40()
    ensures
        nearest_to_power(0x3cad_d37d, 54025, 269025),
{
    lemma_fifth_powers_of_two();
    assert(54025nat * 54025 * 54025 == 0x8f69_635b_4bd9);
    assert(0x8f69_635b_4bd9 * 0x8f69_635b_4bd9 == 0x5056_e862_a630_633a_d8be_ddf1nat);
    assert(0x15b_a6f9 * 0x15b_a6f9 == 0x1_d81e_13ed_de31);
    assert(0x1_d81e_13ed_de31 * 0x1_d81e_13ed_de31 == 0x3_66ae_ed05_d0a1_ef7c_6d93_0561nat);
    assert(0x15b_a6fb * 0x15b_a6fb == 0x1_d81e_195c_7a19);
    assert(0x1_d81e_195c_7a19 * 0x1_d81e_195c_7a19 == 0x3_66af_010e_f66b_ff1c_de33_d671nat);
    assert(269025nat * 269025 * 269025 == 0x45_2c59_9066_9ca1);
    assert(0x45_2c59_9066_9ca1 * 0x45_2c59_9066_9ca1 == 0x12b0_eff6_c049_6d6d_d948_5020_9d41nat);
    assert(0x12b0_eff6_c049_6d6d_d948_5020_9d41nat * 0x12b0_eff6_c049_6d6d_d948_5020_9d41nat == 0x15d_5c09_8741_6139_2178_92b9_bce5_5f46_89a2_dd05_b95f_0d00_50d8_ca81nat);
    assert(0x5056_e862_a630_633a_d8be_ddf1nat * 0x5056_e862_a630_633a_d8be_ddf1nat == 0x1936_6ebe_9d18_d9c2_cfca_56b1_4ff2_1d16_5407_9c08_e225_fce1nat);
    assert(0x3_66ae_ed05_d0a1_ef7c_6d93_0561nat * 0x15b_a6f9 == 0x49e_66ff_94b8_1b70_8c75_255c_33f8_2159nat);
    assert(0x3_66af_010e_f66b_ff1c_de33_d671nat * 0x15b_a6fb == 0x49e_6721_978d_c1d8_6f71_09a7_250b_86cbnat);
    assert(0x49e_66ff_94b8_1b70_8c75_255c_33f8_2159nat * 0x15d_5c09_8741_6139_2178_92b9_bce5_5f46_89a2_dd05_b95f_0d00_50d8_ca81nat == 0x6_4d9b_8373_edb5_c7fd_1cc9_13df_9851_f483_5e5d_b064_7dd6_9644_e509_4b69_3a85_eee7_849d_d744_7d3f_ed71_07d9nat);
    assert(0x49e_6721_978d_c1d8_6f71_09a7_250b_86cbnat * 0x15d_5c09_8741_6139_2178_92b9_bce5_5f46_89a2_dd05_b95f_0d00_50d8_ca81nat == 0x6_4d9b_b1de_0542_7d1c_0b12_e005_7368_8d9f_0899_717a_121c_ecf7_e57f_c07e_f676_232b_41ec_085b_eb4d_ee73_1a4bnat);
    assert(0x1936_6ebe_9d18_d9c2_cfca_56b1_4ff2_1d16_5407_9c08_e225_fce1nat * 0x40_0000_0000_0000_0000_0000_0000_0000_0000_0000nat == 0x6_4d9b_afa7_4636_70b3_f295_ac53_fc87_4595_01e7_0238_897f_3840_0000_0000_0000_0000_0000_0000_0000_0000_0000nat);
    lemma_power_known(
        0x3cad_d37d, 0xad_d37d, 120, 0x40_0000_0000_0000_0000_0000_0000_0000_0000_0000nat,
        54025, 0x8f69_635b_4bd9,
        0x5056_e862_a630_633a_d8be_ddf1nat,
        269025, 0x45_2c59_9066_9ca1,
        0x12b0_eff6_c049_6d6d_d948_5020_9d41nat,
        0x1_d81e_13ed_de31, 0x3_66ae_ed05_d0a1_ef7c_6d93_0561nat,
        0x1_d81e_195c_7a19, 0x3_66af_010e_f66b_ff1c_de33_d671nat,
    );
}

/// Code 41.
proof fn lemma_entry_41()
    ensures
        nearest_to_power(0x3cb5_a602, 55025, 269025),
{
    lemma_fifth_powers_of_two();
    assert(55025nat * 55025 * 55025 == 0x9786_0bb9_d7d1);
    assert(0x9786_0bb9_d7d1 * 0x9786_0bb9_d7d1 == 0x59af_6805_83af_fc41_9802_b8a1nat);
    assert(0x16b_4c03 * 0x16b_4c03 == 0x2_0390_a713_c809);
    assert(0x2_0390_a713_c809 * 0x2_0390_a713_c809 == 0x4_0e4f_51f5_fa20_10a3_0ba4_1051nat);
    assert(0x16b_4c05 * 0x16b_4c05 == 0x2_0390_acc0_f819);
    assert(0x2_0390_acc0_f819 * 0x2_0390_acc0_f819 == 0x4_0e4f_68d3_33df_90f6_adf0_7271nat);
    assert(269025nat * 269025 * 269025 == 0x45_2c59_9066_9ca1);
    assert(0x45_2c59_9066_9ca1 * 0x45_2c59_9066_9ca1 == 0x12b0_eff6_c049_6d6d_d948_5020_9d41nat);
    assert(0x12b0_eff6_c049_6d6d_d948_5020_9d41nat * 0x12b0_eff6_c049_6d6d_d948_5020_9d41nat == 0x15d_5c09_8741_6139_2178_92b9_bce5_5f46_89a2_dd05_b95f_0d00_50d8_ca81nat);
    assert(0x59af_6805_83af_fc41_9802_b8a1nat * 0x59af_6805_83af_fc41_9802_b8a1nat == 0x1f6b_6e83_375e_e31d_e2f2_7350_800d_d70b_193f_f508_97ab_d541nat);
    assert(0x4_0e4f_51f5_fa20_10a3_0ba4_1051nat * 0x16b_4c03 == 0x5c1_7ec4_ef0c_a79b_0a82_1b00_fa9f_3cf3nat);
    assert(0x4_0e4f_68d3_33df_90f6_adf0_7271nat * 0x16b_4c05 == 0x5c1_7eed_7e26_4d88_f02f_b467_0de6_c835nat);
    assert(0x5c1_7ec4_ef0c_a79b_0a82_1b00_fa9f_3cf3nat * 0x15d_5c09_8741_6139_2178_92b9_bce5_5f46_89a2_dd05_b95f_0d00_50d8_ca81nat == 0x7_dadb_92e0_a140_15f9_cdf6_9d59_2d7a_11ea_ca04_f76f_8860_ac06_1959_b229_bf73_9f13_6a3e_5b48_f1a7_4d5d_7473nat);
    assert(0x5c1_7eed_7e26_4d88_f02f_b467_0de6_c835nat * 0x15d_5c09_8741_6139_2178_92b9_bce5_5f46_89a2_dd05_b95f_0d00_50d8_ca81nat == 0x7_dadb_ca3a_4c26_f8a6_82d1_ab64_1df2_6a08_6c1b_2a9b_c504_379e_8afe_35ec_86b8_6769_8537_6884_c32f_97fc_b4b5nat);
    assert(0x1f6b_6e83_375e_e31d_e2f2_7350_800d_d70b_193f_f508_97ab_d541nat * 0x40_0000_0000_0000_0000_0000_0000_0000_0000_0000nat == 0x7_dadb_a0cd_d7b8_c778_bc9c_d420_0375_c2c6_4ffd_4225_eaf5_5040_0000_0000_0000_0000_0000_0000_0000_0000_0000nat);
    lemma_power_known(
        0x3cb5_a602, 0xb5_a602, 120, 0x40_0000_0000_0000_0000_0000_0000_0000_0000_0000nat,
        55025, 0x9786_0bb9_d7d1,
        0x59af_6805_83af_fc41_9802_b8a1nat,
        269025, 0x45_2c59_9066_9ca1,
        0x12b0_eff6_c049_6d6d_d948_5020_9d41nat,
        0x2_0390_a713_c809, 0x4_0e4f_51f5_fa20_10a3_0ba4_1051nat,
        0x2_0390_acc0_f819, 0x4_0e4f_68d3_33df_90f6_adf0_7271nat,
    );
}

/// Code 42.
proof fn lemma_entry_42()
    ensures
        nearest_to_power(0x3cbd_ac21, 56025, 269025),
{
    lemma_fifth_powers_of_two();
    assert(56025nat * 56025 * 56025 == 0x9fef_9291_9949);
    assert(0x9fef_9291_9949 * 0x9fef_9291_9949 == 0x63eb_7843_dc2f_49f4_447a_56d1nat);
    assert(0x17b_5841 * 0x17b_5841 == 0x2_321e_6ee2_c081);
    assert(0x2_321e_6ee2_c081 * 0x2_321e_6ee2_c081 == 0x4_d249_a279_c263_2883_5085_c101nat);
    assert(0x17b_5843 * 0x17b_5843 == 0x2_321e_74d0_2189);
    assert(0x2_321e_74d0_2189 * 0x2_321e_74d0_2189 == 0x4_d249_bc81_6952_a7b6_ab04_9b51nat);
    assert(269025nat * 269025 * 269025 == 0x45_2c59_9066_9ca1);
    assert(0x45_2c59_9066_9ca1 * 0x45_2c59_9066_9ca1 == 0x12b0_eff6_c049_6d6d_d948_5020_9d41nat);
    assert(0x12b0_eff6_c049_6d6d_d948_5020_9d41nat * 0x12b0_eff6_c049_6d6d_d948_5020_9d41nat == 0x15d_5c09_8741_6139_2178_92b9_bce5_5f46_89a2_dd05_b95f_0d00_50d8_ca81nat);
    assert(0x63eb_7843_dc2f_49f4_447a_56d1nat * 0x63eb_7843_dc2f_49f4_447a_56d1nat == 0x26ff_f79a_8162_826e_06e3_5da7_a5e4_03a9_79c7_e8fd_e4a5_16a1nat);
    assert(0x4_d249_a279_c263_2883_5085_c101nat * 0x17b_5841 == 0x724_fc86_3ece_e489_6b82_a30a_28c9_5941nat);
    assert(0x4_d249_bc81_6952_a7b6_ab04_9b51nat * 0x17b_5843 == 0x724_fcb6_75af_bf71_45b7_df6a_4883_7e33nat);
    assert(0x724_fc86_3ece_e489_6b82_a30a_28c9_5941nat * 0x15d_5c09_8741_6139_2178_92b9_bce5_5f46_89a2_dd05_b95f_0d00_50d8_ca81nat == 0x9_bffd_d1d7_139d_a3ce_4348_d252_da75_0eb8_45b3_4748_74ac_4f41_8eda_5bf7_2650_08c5_24d0_5072_cf15_0cbb_43c1nat);
    assert(0x724_fcb6_75af_bf71_45b7_df6a_4883_7e33nat * 0x15d_5c09_8741_6139_2178_92b9_bce5_5f46_89a2_dd05_b95f_0d00_50d8_ca81nat == 0x9_bffe_13a3_39ac_47b6_9483_80ab_2f90_2ef8_5aa9_11a1_915b_a1f3_d7d2_2cd7_d783_0af4_f4b9_4d9d_4f28_b6de_d5b3nat);
    assert(0x26ff_f79a_8162_826e_06e3_5da7_a5e4_03a9_79c7_e8fd_e4a5_16a1nat * 0x40_0000_0000_0000_0000_0000_0000_0000_0000_0000nat == 0x9_bffd_e6a0_58a0_9b81_b8d7_69e9_7900_ea5e_71fa_3f79_2945_a840_0000_0000_0000_0000_0000_0000_0000_0000_0000nat);
    lemma_power_known(
        0x3cbd_ac21, 0xbd_ac21, 120, 0x40_0000_0000_0000_0000_0000_0000_0000_0000_0000nat,
        56025, 0x9fef_9291_9949,
        0x63eb_7843_dc2f_49f4_447a_56d1nat,
        269025, 0x45_2c59_9066_9ca1,
        0x12b0_eff6_c049_6d6d_d948_5020_9d41nat,
        0x2_321e_6ee2_c081, 0x4_d249_a279_c263_2883_5085_c101nat,
        0x2_321e_74d0_2189, 0x4_d249_bc81_6952_a7b6_ab04_9b51nat,
    );
}

/// Code 43.
proof fn lemma_entry_43()
    ensures
        nearest_to_power(0x3cc5_e63a, 57025, 269025),
{
    lemma_fifth_powers_of_two();
    assert(57025nat * 57025 * 57025 == 0xa8a7_5d83_4c41);
    assert(0xa8a7_5d83_4c41 * 0xa8a7_5d83_4c41 == 0x6f1c_1827_778b_758c_5b3c_a881nat);
    assert(0x18b_cc73 * 0x18b_cc73 == 0x2_63f0_8e29_7ba9);
    assert(0x2_63f0_8e29_7ba9 * 0x2_63f0_8e29_7ba9 == 0x5_b6c6_28a4_e102_9ec8_53dd_d591nat);
    assert(0x18b_cc75 * 0x18b_cc75 == 0x2_63f0_9458_ad79);
    assert(0x2_63f0_9458_ad79 * 0x2_63f0_9458_ad79 == 0x5_b6c6_4635_c84b_802b_a0bc_c331nat);
    assert(269025nat * 269025 * 269025 == 0x45_2c59_9066_9ca1);
    assert(0x45_2c59_9066_9ca1 * 0x45_2c59_9066_9ca1 == 0x12b0_eff6_c049_6d6d_d948_5020_9d41nat);
    assert(0x12b0_eff6_c049_6d6d_d948_5020_9d41nat * 0x12b0_eff6_c049_6d6d_d948_5020_9d41nat == 0x15d_5c09_8741_6139_2178_92b9_bce5_5f46_89a2_dd05_b95f_0d00_50d8_ca81nat);
    assert(0x6f1c_1827_778b_758c_5b3c_a881nat * 0x6f1c_1827_778b_758c_5b3c_a881nat == 0x3039_6007_8494_82f1_382d_a485_3f82_982e_46f8_6543_2161_9101nat);
    assert(0x5_b6c6_28a4_e102_9ec8_53dd_d591nat * 0x18b_cc73 == 0x8d5_93f7_b9ce_d46a_29ce_5e1a_f991_7c23nat);
    assert(0x5_b6c6_4635_c84b_802b_a0bc_c331nat * 0x18b_cc75 == 0x8d5_9430_dd8c_feaf_77f5_5b48_0e6b_4165nat);
    assert(0x8d5_93f7_b9ce_d46a_29ce_5e1a_f991_7c23nat * 0x15d_5c09_8741_6139_2178_92b9_bce5_5f46_89a2_dd05_b95f_0d00_50d8_ca81nat == 0xc_0e57_ce12_6c10_8bff_5d70_17b5_edcd_6060_dc4b_7b7d_1882_3a92_69d4_38e9_5316_e1c4_5411_7b49_8510_3bcb_2ba3nat);
    assert(0x8d5_9430_dd8c_feaf_77f5_5b48_0e6b_4165nat * 0x15d_5c09_8741_6139_2178_92b9_bce5_5f46_89a2_dd05_b95f_0d00_50d8_ca81nat == 0xc_0e58_1c0c_b148_f5cc_5bfb_c436_8ca5_b67d_b998_806a_1407_f690_b43c_a79b_d571_54ce_ab62_49c4_aa9e_a2dd_a5e5nat);
    assert(0x3039_6007_8494_82f1_382d_a485_3f82_982e_46f8_6543_2161_9101nat * 0x40_0000_0000_0000_0000_0000_0000_0000_0000_0000nat == 0xc_0e58_01e1_2520_bc4e_0b69_214f_e0a6_0b91_be19_50c8_5864_4040_0000_0000_0000_0000_0000_0000_0000_0000_0000nat);
    lemma_power_known(
        0x3cc5_e63a, 0xc5_e63a, 120, 0x40_0000_0000_0000_0000_0000_0000_0000_0000_0000nat,
        57025, 0xa8a7_5d83_4c41,
        0x6f1c_1827_778b_758c_5b3c_a881nat,
        269025, 0x45_2c59_9066_9ca1,
        0x12b0_eff6_c049_6d6d_d948_5020_9d41nat,
        0x2_63f0_8e29_7ba9, 0x5_b6c6_28a4_e102_9ec8_53dd_d591nat,
        0x2_63f0_9458_ad79, 0x5_b6c6_4635_c84b_802b_a0bc_c331nat,
    );
}

/// Code 44.
proof fn lemma_entry_44()
    ensures
        nearest_to_power(0x3cce_54ac, 58025, 269025),
{
    lemma_fifth_powers_of_two();
    assert(58025nat * 58025 * 58025 == 0xb1ae_d22f_acb9);
    assert(0xb1ae_d22f_acb9 * 0xb1ae_d22f_acb9 == 0x7b53_3608_5238_ddbc_6477_1db1nat);
    assert(0x19c_a957 * 0x19c_a957 == 0x2_9931_800b_fb91);
    assert(0x2_9931_800b_fb91 * 0x2_9931_800b_fb91 == 0x6_c072_34d0_8599_9ba2_95ab_a821nat);
    assert(0x19c_a959 * 0x19c_a959 == 0x2_9931_867e_a0f1);
    assert(0x2_9931_867e_a0f1 * 0x2_9931_867e_a0f1 == 0x6_c072_5652_a346_7d61_1e6a_22e1nat);
    assert(269025nat * 269025 * 269025 == 0x45_2c59_9066_9ca1);
    assert(0x45_2c59_9066_9ca1 * 0x45_2c59_9066_9ca1 == 0x12b0_eff6_c049_6d6d_d948_5020_9d41nat);
    assert(0x12b0_eff6_c049_6d6d_d948_5020_9d41nat * 0x12b0_eff6_c049_6d6d_d948_5020_9d41nat == 0x15d_5c09_8741_6139_2178_92b9_bce5_5f46_89a2_dd05_b95f_0d00_50d8_ca81nat);
    assert(0x7b53_3608_5238_ddbc_6477_1db1nat * 0x7b53_3608_5238_ddbc_6477_1db1nat == 0x3b69_10f8_13cf_78e8_0c35_6c9c_5195_9a4b_c114_7c96_e5ff_9461nat);
    assert(0x6_c072_34d0_8599_9ba2_95ab_a821nat * 0x19c_a957 == 0xae2_2f23_cb44_9e46_489b_1951_c46f_ec37nat);
    assert(0x6_c072_5652_a346_7d61_1e6a_22e1nat * 0x19c_a959 == 0xae2_2f67_4fbb_55f6_1493_a6a7_c608_a939nat);
    assert(0xae2_2f23_cb44_9e46_489b_1951_c46f_ec37nat * 0x15d_5c09_8741_6139_2178_92b9_bce5_5f46_89a2_dd05_b95f_0d00_50d8_ca81nat == 0xe_da43_f470_b046_8e08_f138_ebc1_a24d_4ded_704f_30ac_bfa1_8be6_b2af_f5b2_d4c7_cff3_f7c4_f8ea_ca74_cb31_6db7nat);
    assert(0xae2_2f67_4fbb_55f6_1493_a6a7_c608_a939nat * 0x15d_5c09_8741_6139_2178_92b9_bce5_5f46_89a2_dd05_b95f_0d00_50d8_ca81nat == 0xe_da44_5094_8c3c_f6fa_86d1_bea5_270d_c58b_4488_f211_5148_8b9e_66b9_3213_8608_f272_c592_5918_0dfe_37fc_3fb9nat);
    assert(0x3b69_10f8_13cf_78e8_0c35_6c9c_5195_9a4b_c114_7c96_e5ff_9461nat * 0x40_0000_0000_0000_0000_0000_0000_0000_0000_0000nat == 0xe_da44_3e04_f3de_3a03_0d5b_2714_6566_92f0_451f_25b9_7fe5_1840_0000_0000_0000_0000_0000_0000_0000_0000_0000nat);
    lemma_power_known(
        0x3cce_54ac, 0xce_54ac, 120, 0x40_0000_0000_0000_0000_0000_0000_0000_0000_0000nat,
        58025, 0xb1ae_d22f_acb9,
        0x7b53_3608_5238_ddbc_6477_1db1nat,
        269025, 0x45_2c59_9066_9ca1,
        0x12b0_eff6_c049_6d6d_d948_5020_9d41nat,
        0x2_9931_800b_fb91, 0x6_c072_34d0_8599_9ba2_95ab_a821nat,
        0x2_9931_867e_a0f1, 0x6_c072_5652_a346_7d61_1e6a_22e1nat,
    );
}

/// Code 45.
proof fn lemma_entry_45()
    ensures
        nearest_to_power(0x3cd6_f7d5, 59025, 269025),
{
    lemma_fifth_powers_of_two();
    assert(59025nat * 59025 * 59025 == 0xbb07_5637_76b1);
    assert(0xbb07_5637_76b1 * 0xbb07_5637_76b1 == 0x88a3_b82a_db78_6371_2315_a661nat);
    assert(0x1ad_efa9 * 0x1ad_efa9 == 0x2_d20d_1cc6_fd91);
    assert(0x2_d20d_1cc6_fd91 * 0x2_d20d_1cc6_fd91 == 0x7_f48d_f6fe_5db7_c6de_ef73_ec21nat);
    assert(0x1ad_efab * 0x1ad_efab == 0x2_d20d_237e_bc39);
    assert(0x2_d20d_237e_bc39 * 0x2_d20d_237e_bc39 == 0x7_f48e_1ce3_7d7c_87ff_687f_c4b1nat);
    assert(269025nat * 269025 * 269025 == 0x45_2c59_9066_9ca1);
    assert(0x45_2c59_9066_9ca1 * 0x45_2c59_9066_9ca1 == 0x12b0_eff6_c049_6d6d_d948_5020_9d41nat);
    assert(0x12b0_eff6_c049_6d6d_d948_5020_9d41nat * 0x12b0_eff6_c049_6d6d_d948_5020_9d41nat == 0x15d_5c09_8741_6139_2178_92b9_bce5_5f46_89a2_dd05_b95f_0d00_50d8_ca81nat);
    assert(0x88a3_b82a_db78_6371_2315_a661nat * 0x88a3_b82a_db78_6371_2315_a661nat == 0x48ee_5c61_9441_07a0_a5f4_24a8_8484_a9ec_ad8a_d4f5_3e0b_f0c1nat);
    assert(0x7_f48d_f6fe_5db7_c6de_ef73_ec21nat * 0x1ad_efa9 == 0xd5c_4477_e392_9462_b493_affc_0046_b0c9nat);
    assert(0x7_f48e_1ce3_7d7c_87ff_687f_c4b1nat * 0x1ad_efab == 0xd5c_44c7_711e_f7cb_fc28_6846_b296_a13bnat);
    assert(0xd5c_4477_e392_9462_b493_affc_0046_b0c9nat * 0x15d_5c09_8741_6139_2178_92b9_bce5_5f46_89a2_dd05_b95f_0d00_50d8_ca81nat == 0x12_3b96_ff59_ce6f_84b9_cdd4_2440_7315_b504_fa92_b64d_c7a9_6b25_36c6_ea9c_97a4_c481_20c2_3690_0e17_e4b5_af49nat);
    assert(0xd5c_44c7_711e_f7cb_fc28_6846_b296_a13bnat * 0x15d_5c09_8741_6139_2178_92b9_bce5_5f46_89a2_dd05_b95f_0d00_50d8_ca81nat == 0x12_3b97_6bea_60a7_80df_e775_37a9_8859_328c_1947_3f1d_10ec_8e9f_0ba6_bfd0_f5c5_3a19_0212_242f_1505_52e7_ccbbnat);
    assert(0x48ee_5c61_9441_07a0_a5f4_24a8_8484_a9ec_ad8a_d4f5_3e0b_f0c1nat * 0x40_0000_0000_0000_0000_0000_0000_0000_0000_0000nat == 0x12_3b97_1865_1041_e829_7d09_2a21_212a_7b2b_62b5_3d4f_82fc_3040_0000_0000_0000_0000_0000_0000_0000_0000_0000nat);
    lemma_power_known(
        0x3cd6_f7d5, 0xd6_f7d5, 120, 0x40_0000_0000_0000_0000_0000_0000_0000_0000_0000nat,
        59025, 0xbb07_5637_76b1,
        0x88a3_b82a_db78_6371_2315_a661nat,
        269025, 0x45_2c59_9066_9ca1,
        0x12b0_eff6_c049_6d6d_d948_5020_9d41nat,
        0x2_d20d_1cc6_fd91, 0x7_f48d_f6fe_5db7_c6de_ef73_ec21nat,
        0x2_d20d_237e_bc39, 0x7_f48e_1ce3_7d7c_87ff_687f_c4b1nat,
    );
}

/// Code 46.
proof fn lemma_entry_46()
    ensures
        nearest_to_power(0x3cdf_d010, 60025, 269025),
{
    lemma_fifth_powers_of_two();
    assert(60025nat * 60025 * 60025 == 0xc4b2_4f3b_6629);
    assert(0xc4b2_4f3b_6629 * 0xc4b2_4f3b_6629 == 0x9721_8585_3b8e_8fd9_8daa_b291nat);
    assert(0x1bf_a01f * 0x1bf_a01f == 0x3_0eb0_9068_c3c1);
    assert(0x3_0eb0_9068_c3c1 * 0x3_0eb0_9068_c3c1 == 0x9_58fb_2c06_ed72_4c78_c27f_9781nat);
    assert(0x1bf_a021 * 0x1bf_a021 == 0x3_0eb0_9767_4441);
    assert(0x3_0eb0_9767_4441 * 0x3_0eb0_9767_4441 == 0x9_58fb_56cb_6c85_f18c_ac80_9881nat);
    assert(269025nat * 269025 * 269025 == 0x45_2c59_9066_9ca1);
    assert(0x45_2c59_9066_9ca1 * 0x45_2c59_9066_9ca1 == 0x12b0_eff6_c049_6d6d_d948_5020_9d41nat);
    assert(0x12b0_eff6_c049_6d6d_d948_5020_9d41nat * 0x12b0_eff6_c049_6d6d_d948_5020_9d41nat == 0x15d_5c09_8741_6139_2178_92b9_bce5_5f46_89a2_dd05_b95f_0d00_50d8_ca81nat);
    assert(0x9721_8585_3b8e_8fd9_8daa_b291nat * 0x9721_8585_3b8e_8fd9_8daa_b291nat == 0x5938_8fe6_de3f_3dac_ccaa_6f9b_d5c4_d17d_1c22_3257_5f21_f621nat);
    assert(0x9_58fb_2c06_ed72_4c78_c27f_9781nat * 0x1bf_a01f == 0x1058_3750_a207_43d1_b77e_58f8_d662_f89fnat);
    assert(0x9_58fb_56cb_6c85_f18c_ac80_9881nat * 0x1bf_a021 == 0x1058_37ae_1bd7_d1ed_78dd_437c_e523_48a1nat);
    assert(0x1058_3750_a207_43d1_b77e_58f8_d662_f89fnat * 0x15d_5c09_8741_6139_2178_92b9_bce5_5f46_89a2_dd05_b95f_0d00_50d8_ca81nat == 0x16_4e23_b88a_81be_672f_d05e_4904_e161_951c_7261_017d_4a9d_ae06_7544_71aa_b366_716e_cb43_2e74_12c1_9634_be1fnat);
    assert(0x1058_37ae_1bd7_d1ed_78dd_437c_e523_48a1nat * 0x15d_5c09_8741_6139_2178_92b9_bce5_5f46_89a2_dd05_b95f_0d00_50d8_ca81nat == 0x16_4e24_381b_2e51_c189_d024_fdb2_9017_a08f_b567_d087_981e_870c_8983_93fb_cfe4_412b_912c_8f2b_1834_e5ee_a321nat);
    assert(0x5938_8fe6_de3f_3dac_ccaa_6f9b_d5c4_d17d_1c22_3257_5f21_f621nat * 0x40_0000_0000_0000_0000_0000_0000_0000_0000_0000nat == 0x16_4e23_f9b7_8fcf_6b33_2a9b_e6f5_7134_5f47_088c_95d7_c87d_8840_0000_0000_0000_0000_0000_0000_0000_0000_0000nat);
    lemma_power_known(
        0x3cdf_d010, 0xdf_d010, 120, 0x40_0000_0000_0000_0000_0000_0000_0000_0000_0000nat,
        60025, 0xc4b2_4f3b_6629,
        0x9721_8585_3b8e_8fd9_8daa_b291nat,
        269025, 0x45_2c59_9066_9ca1,
        0x12b0_eff6_c049_6d6d_d948_5020_9d41nat,
        0x3_0eb0_9068_c3c1, 0x9_58fb_2c06_ed72_4c78_c27f_9781nat,
        0x3_0eb0_9767_4441, 0x9_58fb_56cb_6c85_f18c_ac80_9881nat,
    );
}

/// Code 47.
proof fn lemma_entry_47()
    ensures
        nearest_to_power(0x3ce8_ddba, 61025, 269025),
{
    lemma_fifth_powers_of_two();
    assert(61025nat * 61025 * 61025 == 0xceb1_22dc_3721);
    assert(0xceb1_22dc_3721 * 0xceb1_22dc_3721 == 0xa6e1_8eab_a1fc_93b5_9097_3241nat);
    assert(0x1d1_bb73 * 0x1d1_bb73 == 0x3_4f4a_8107_35a9);
    assert(0x3_4f4a_8107_35a9 * 0x3_4f4a_8107_35a9 == 0xa_f44e_177c_8e47_97fc_4c7d_6991nat);
    assert(0x1d1_bb75 * 0x1d1_bb75 == 0x3_4f4a_884e_2379);
    assert(0x3_4f4a_884e_2379 * 0x3_4f4a_884e_2379 == 0xa_f44e_47a8_247a_4d7e_32a6_4f31nat);
    assert(269025nat * 269025 * 269025 == 0x45_2c59_9066_9ca1);
    assert(0x45_2c59_9066_9ca1 * 0x45_2c59_9066_9ca1 == 0x12b0_eff6_c049_6d6d_d948_5020_9d41nat);
    assert(0x12b0_eff6_c049_6d6d_d948_5020_9d41nat * 0x12b0_eff6_c049_6d6d_d948_5020_9d41nat == 0x15d_5c09_8741_6139_2178_92b9_bce5_5f46_89a2_dd05_b95f_0d00_50d8_ca81nat);
    assert(0xa6e1_8eab_a1fc_93b5_9097_3241nat * 0xa6e1_8eab_a1fc_93b5_9097_3241nat == 0x6cc9_4bc2_af49_2851_1e76_aae7_0a8c_1a8a_1d26_27bf_728b_7481nat);
    assert(0xa_f44e_177c_8e47_97fc_4c7d_6991nat * 0x1d1_bb73 == 0x13ed_c739_737a_f8ed_4775_8202_b8d4_5723nat);
    assert(0xa_f44e_47a8_247a_4d7e_32a6_4f31nat * 0x1d1_bb75 == 0x13ed_c7a6_fe88_d4a4_c4ba_99c2_79db_fc65nat);
    assert(0x13ed_c739_737a_f8ed_4775_8202_b8d4_5723nat * 0x15d_5c09_8741_6139_2178_92b9_bce5_5f46_89a2_dd05_b95f_0d00_50d8_ca81nat == 0x1b_3252_cace_902b_08c7_c6d2_7b2b_28d5_7835_b676_cf4c_1efe_eff8_63db_5bc9_5ffe_609e_c590_b044_be9b_2549_86a3nat);
    assert(0x13ed_c7a6_fe88_d4a4_c4ba_99c2_79db_fc65nat * 0x15d_5c09_8741_6139_2178_92b9_bce5_5f46_89a2_dd05_b95f_0d00_50d8_ca81nat == 0x1b_3253_604c_841c_50ae_7001_2d0d_805b_6274_9dbc_962d_defc_f4ef_8418_72bc_5824_4560_a8f1_b3d2_a0a3_8239_e0e5nat);
    assert(0x6cc9_4bc2_af49_2851_1e76_aae7_0a8c_1a8a_1d26_27bf_728b_7481nat * 0x40_0000_0000_0000_0000_0000_0000_0000_0000_0000nat == 0x1b_3252_f0ab_d24a_1447_9daa_b9c2_a306_a287_4989_efdc_a2dd_2040_0000_0000_0000_0000_0000_0000_0000_0000_0000nat);
    lemma_power_known(
        0x3ce8_ddba, 0xe8_ddba, 120, 0x40_0000_0000_0000_0000_0000_0000_0000_0000_0000nat,
        61025, 0xceb1_22dc_3721,
        0xa6e1_8eab_a1fc_93b5_9097_3241nat,
        269025, 0x45_2c59_9066_9ca1,
        0x12b0_eff6_c049_6d6d_d948_5020_9d41nat,
        0x3_4f4a_8107_35a9, 0xa_f44e_177c_8e47_97fc_4c7d_6991nat,
        0x3_4f4a_884e_2379, 0xa_f44e_47a8_247a_4d7e_32a6_4f31nat,
    );
}

/// Code 48.
proof fn lemma_entry_48()
    ensures
        nearest_to_power(0x3cf2_212d, 62025, 269025),
{
    lemma_fifth_powers_of_two();
    assert(62025nat * 62025 * 62025 == 0xd905_36ba_a599);
    assert(0xd905_36ba_a599 * 0xd905_36ba_a599 == 0xb7f9_d6e3_9bbb_1feb_9972_9571nat);
    assert(0x1e4_4259 * 0x1e4_4259 == 0x3_940a_f1ba_02f1);
    assert(0x3_940a_f1ba_02f1 * 0x3_940a_f1ba_02f1 == 0xc_cdde_5252_ebd4_a386_083c_a6e1nat);
    assert(0x1e4_425b * 0x1e4_425b == 0x3_940a_f94b_0c59);
    assert(0x3_940a_f94b_0c59 * 0x3_940a_f94b_0c59 == 0xc_cdde_8879_7cfc_f2f9_5ebe_76f1nat);
    assert(269025nat * 269025 * 269025 == 0x45_2c59_9066_9ca1);
    assert(0x45_2c59_9066_9ca1 * 0x45_2c59_9066_9ca1 == 0x12b0_eff6_c049_6d6d_d948_5020_9d41nat);
    assert(0x12b0_eff6_c049_6d6d_d948_5020_9d41nat * 0x12b0_eff6_c049_6d6d_d948_5020_9d41nat == 0x15d_5c09_8741_6139_2178_92b9_bce5_5f46_89a2_dd05_b95f_0d00_50d8_ca81nat);
    assert(0xb7f9_d6e3_9bbb_1feb_9972_9571nat * 0xb7f9_d6e3_9bbb_1feb_9972_9571nat == 0x8437_250d_23cb_cc61_53a6_f45a_e8dd_c8bf_fd9f_e560_81e0_bbe1nat);
    assert(0xc_cdde_5252_ebd4_a386_083c_a6e1nat * 0x1e4_4259 == 0x1838_89da_8849_dda5_f87c_fa64_0180_0639nat);
    assert(0xc_cdde_8879_7cfc_f2f9_5ebe_76f1nat * 0x1e4_425b == 0x1838_8a5a_92fa_23a4_0405_c92a_a802_69abnat);
    assert(0x1838_89da_8849_dda5_f87c_fa64_0180_0639nat * 0x15d_5c09_8741_6139_2178_92b9_bce5_5f46_89a2_dd05_b95f_0d00_50d8_ca81nat == 0x21_0dc9_273f_2e9c_93dc_f29b_bead_e824_e728_46c8_f5cc_6704_9a77_e97a_6ca6_795f_5ea8_d999_59de_408a_d684_1cb9nat);
    assert(0x1838_8a5a_92fa_23a4_0405_c92a_a802_69abnat * 0x15d_5c09_8741_6139_2178_92b9_bce5_5f46_89a2_dd05_b95f_0d00_50d8_ca81nat == 0x21_0dc9_d5fb_c987_5ee2_ba7b_dca7_9a15_2465_42f1_0ce7_29ed_b908_cc7b_741d_153d_47c0_85b2_90f7_391f_28e0_2d2bnat);
    assert(0x8437_250d_23cb_cc61_53a6_f45a_e8dd_c8bf_fd9f_e560_81e0_bbe1nat * 0x40_0000_0000_0000_0000_0000_0000_0000_0000_0000nat == 0x21_0dc9_4348_f2f3_1854_e9bd_16ba_3772_2fff_67f9_5820_782e_f840_0000_0000_0000_0000_0000_0000_0000_0000_0000nat);
    lemma_power_known(
        0x3cf2_212d, 0xf2_212d, 120, 0x40_0000_0000_0000_0000_0000_0000_0000_0000_0000nat,
        62025, 0xd905_36ba_a599,
        0xb7f9_d6e3_9bbb_1feb_9972_9571nat,
        269025, 0x45_2c59_9066_9ca1,
        0x12b0_eff6_c049_6d6d_d948_5020_9d41nat,
        0x3_940a_f1ba_02f1, 0xc_cdde_5252_ebd4_a386_083c_a6e1nat,
        0x3_940a_f94b_0c59, 0xc_cdde_8879_7cfc_f2f9_5ebe_76f1nat,
    );
}

/// Code 49.
proof fn lemma_entry_49()
    ensures
        nearest_to_power(0x3cfb_9ac3, 63025, 269025),
{
    lemma_fifth_powers_of_two();
    assert(63025nat * 63025 * 63025 == 0xe3af_f077_6d91);
    assert(0xe3af_f077_6d91 * 0xe3af_f077_6d91 == 0xca81_7d5e_7177_1764_ebb2_cc21nat);
    assert(0x1f7_3585 * 0x1f7_3585 == 0x3_dd23_5bd6_5719);
    assert(0x3_dd23_5bd6_5719 * 0x3_dd23_5bd6_5719 == 0xe_edda_3878_5a85_1037_816e_0071nat);
    assert(0x1f7_3587 * 0x1f7_3587 == 0x3_dd23_63b3_2d31);
    assert(0x3_dd23_63b3_2d31 * 0x3_dd23_63b3_2d31 == 0xe_edda_753a_d4ff_07c2_2080_4361nat);
    assert(269025nat * 269025 * 269025 == 0x45_2c59_9066_9ca1);
    assert(0x45_2c59_9066_9ca1 * 0x45_2c59_9066_9ca1 == 0x12b0_eff6_c049_6d6d_d948_5020_9d41nat);
    assert(0x12b0_eff6_c049_6d6d_d948_5020_9d41nat * 0x12b0_eff6_c049_6d6d_d948_5020_9d41nat == 0x15d_5c09_8741_6139_2178_92b9_bce5_5f46_89a2_dd05_b95f_0d00_50d8_ca81nat);
    assert(0xca81_7d5e_7177_1764_ebb2_cc21nat * 0xca81_7d5e_7177_1764_ebb2_cc21nat == 0xa030_9b58_a1a3_a896_aa43_caad_59f2_64ce_060d_276d_16a8_9c41nat);
    assert(0xe_edda_3878_5a85_1037_816e_0071nat * 0x1f7_3585 == 0x1d58_76c4_b48a_1cb7_708c_39c4_e244_9fb5nat);
    assert(0xe_edda_753a_d4ff_07c2_2080_4361nat * 0x1f7_3587 == 0x1d58_7759_ff11_8137_5d86_241e_152d_9d27nat);
    assert(0x1d58_76c4_b48a_1cb7_708c_39c4_e244_9fb5nat * 0x15d_5c09_8741_6139_2178_92b9_bce5_5f46_89a2_dd05_b95f_0d00_50d8_ca81nat == 0x28_0c26_cc76_2352_15f1_3e13_6f74_612d_fb3f_5fcd_9e41_c7c6_c525_c5cf_ccc6_cf25_ef76_ed84_2e5a_038f_7b51_4c35nat);
    assert(0x1d58_7759_ff11_8137_5d86_241e_152d_9d27nat * 0x15d_5c09_8741_6139_2178_92b9_bce5_5f46_89a2_dd05_b95f_0d00_50d8_ca81nat == 0x28_0c27_9832_6a3d_3fa5_d55f_74a8_d7cb_da09_906f_9161_8241_1c71_f37e_c9f0_39e4_bc42_b77e_aa8c_0a77_72e4_f6a7nat);
    assert(0xa030_9b58_a1a3_a896_aa43_caad_59f2_64ce_060d_276d_16a8_9c41nat * 0x40_0000_0000_0000_0000_0000_0000_0000_0000_0000nat == 0x28_0c26_d628_68ea_25aa_90f2_ab56_7c99_3381_8349_db45_aa27_1040_0000_0000_0000_0000_0000_0000_0000_0000_0000nat);
    lemma_power_known(
        0x3cfb_9ac3, 0xfb_9ac3, 120, 0x40_0000_0000_0000_0000_0000_0000_0000_0000_0000nat,
        63025, 0xe3af_f077_6d91,
        0xca81_7d5e_7177_1764_ebb2_cc21nat,
        269025, 0x45_2c59_9066_9ca1,
        0x12b0_eff6_c049_6d6d_d948_5020_9d41nat,
        0x3_dd23_5bd6_5719, 0xe_edda_3878_5a85_1037_816e_0071nat,
        0x3_dd23_63b3_2d31, 0xe_edda_753a_d4ff_07c2_2080_4361nat,
    );
}

/// Code 50.
proof fn lemma_entry_50()
    ensures
        nearest_to_power(0x3d02_a56a, 64025, 269025),
{
    lemma_fifth_powers_of_two();
    assert(64025nat * 64025 * 64025 == 0xeeb2_b5b3_4b09);
    assert(0xeeb2_b5b3_4b09 * 0xeeb2_b5b3_4b09 == 0xde90_c69a_8dd0_1a30_be94_4651nat);
    assert(0x105_4ad3 * 0x105_4ad3 == 0x1_0ab1_a81c_a9e9);
    assert(0x1_0ab1_a81c_a9e9 * 0x1_0ab1_a81c_a9e9 == 0x1_15d5_aca5_7720_ca69_6bbd_7611nat);
    assert(0x105_4ad5 * 0x105_4ad5 == 0x1_0ab1_ac31_d539);
    assert(0x1_0ab1_ac31_d539 * 0x1_0ab1_ac31_d539 == 0x1_15d5_b527_1fd6_4d09_e969_e6b1nat);
    assert(269025nat * 269025 * 269025 == 0x45_2c59_9066_9ca1);
    assert(0x45_2c59_9066_9ca1 * 0x45_2c59_9066_9ca1 == 0x12b0_eff6_c049_6d6d_d948_5020_9d41nat);
    assert(0x12b0_eff6_c049_6d6d_d948_5020_9d41nat * 0x12b0_eff6_c049_6d6d_d948_5020_9d41nat == 0x15d_5c09_8741_6139_2178_92b9_bce5_5f46_89a2_dd05_b95f_0d00_50d8_ca81nat);
    assert(0xde90_c69a_8dd0_1a30_be94_4651nat * 0xde90_c69a_8dd0_1a30_be94_4651nat == 0xc17f_6a54_15e7_e836_d6d1_603a_821c_dbd9_a163_40a1_9cf8_65a1nat);
    assert(0x1_15d5_aca5_7720_ca69_6bbd_7611nat * 0x105_4ad3 == 0x11b_940d_c7b7_953f_0804_2631_f09e_3a03nat);
    assert(0x1_15d5_b527_1fd6_4d09_e969_e6b1nat * 0x105_4ad5 == 0x11b_9418_a210_7e3d_faad_efb0_0441_1b45nat);
    assert(0x11b_940d_c7b7_953f_0804_2631_f09e_3a03nat * 0x15d_5c09_8741_6139_2178_92b9_bce5_5f46_89a2_dd05_b95f_0d00_50d8_ca81nat == 0x1_82fe_ca8c_4108_0438_9c75_b700_092a_01e6_b47f_c4c9_7f9c_236e_b502_0b6c_4f4f_3462_e570_e09e_45a8_fc09_9983nat);
    assert(0x11b_9418_a210_7e3d_faad_efb0_0441_1b45nat * 0x15d_5c09_8741_6139_2178_92b9_bce5_5f46_89a2_dd05_b95f_0d00_50d8_ca81nat == 0x1_82fe_d95b_d31d_048f_b0b2_484b_dbe4_eb10_eb53_ef32_934e_43d6_16cc_c35f_0eeb_0399_0d20_189c_1b82_168b_2fc5nat);
    assert(0xc17f_6a54_15e7_e836_d6d1_603a_821c_dbd9_a163_40a1_9cf8_65a1nat * 0x2_0000_0000_0000_0000_0000_0000_0000_0000_0000nat == 0x1_82fe_d4a8_2bcf_d06d_ada2_c075_0439_b7b3_42c6_8143_39f0_cb42_0000_0000_0000_0000_0000_0000_0000_0000_0000nat);
    lemma_power_known(
        0x3d02_a56a, 0x82_a56a, 121, 0x2_0000_0000_0000_0000_0000_0000_0000_0000_0000nat,
        64025, 0xeeb2_b5b3_4b09,
        0xde90_c69a_8dd0_1a30_be94_4651nat,
        269025, 0x45_2c59_9066_9ca1,
        0x12b0_eff6_c049_6d6d_d948_5020_9d41nat,
        0x1_0ab1_a81c_a9e9, 0x1_15d5_aca5_7720_ca69_6bbd_7611nat,
        0x1_0ab1_ac31_d539, 0x1_15d5_b527_1fd6_4d09_e969_e6b1nat,
    );
}

/// Code 51.
proof fn lemma_entry_51()
    ensures
        nearest_to_power(0x3d07_98dd, 65025, 269025),
{
    lemma_fifth_powers_of_two();
    assert(65025nat * 65025 * 65025 == 0xfa0e_ec0e_fa01);
    assert(0xfa0e_ec0e_fa01 * 0xfa0e_ec0e_fa01 == 0xf441_25eb_eb98_e9ee_2441_f401nat);
    assert(0x10f_31b9 * 0x10f_31b9 == 0x1_1f4a_4f56_57b1);
    assert(0x1_1f4a_4f56_57b1 * 0x1_1f4a_4f56_57b1 == 0x1_4267_b375_8f1f_f792_46f5_c861nat);
    assert(0x10f_31bb * 0x10f_31bb == 0x1_1f4a_5393_1e99);
    assert(0x1_1f4a_5393_1e99 * 0x1_1f4a_5393_1e99 == 0x1_4267_bcf8_4af1_78d7_5d5e_3771nat);
    assert(269025nat * 269025 * 269025 == 0x45_2c59_9066_9ca1);
    assert(0x45_2c59_9066_9ca1 * 0x45_2c59_9066_9ca1 == 0x12b0_eff6_c049_6d6d_d948_5020_9d41nat);
    assert(0x12b0_eff6_c049_6d6d_d948_5020_9d41nat * 0x12b0_eff6_c049_6d6d_d948_5020_9d41nat == 0x15d_5c09_8741_6139_2178_92b9_bce5_5f46_89a2_dd05_b95f_0d00_50d8_ca81nat);
    assert(0xf441_25eb_eb98_e9ee_2441_f401nat * 0xf441_25eb_eb98_e9ee_2441_f401nat == 0xe90c_40de_0087_2d19_573a_8d23_493f_c3a9_151e_217a_1913_e801nat);
    assert(0x1_4267_b375_8f1f_f792_46f5_c861nat * 0x10f_31b9 == 0x155_8a65_cfbc_b330_a056_0679_71a7_5f19nat);
    assert(0x1_4267_bcf8_4af1_78d7_5d5e_3771nat * 0x10f_31bb == 0x155_8a72_67c9_e555_e280_54ec_ed0e_208bnat);
    assert(0x155_8a65_cfbc_b330_a056_0679_71a7_5f19nat * 0x15d_5c09_8741_6139_2178_92b9_bce5_5f46_89a2_dd05_b95f_0d00_50d8_ca81nat == 0x1_d218_773f_1bb1_f161_a919_05f5_0160_74a3_0809_7122_6dd1_c83c_dcd2_1381_324e_c353_90b7_f18c_8ed0_6378_a599nat);
    assert(0x155_8a72_67c9_e555_e280_54ec_ed0e_208bnat * 0x15d_5c09_8741_6139_2178_92b9_bce5_5f46_89a2_dd05_b95f_0d00_50d8_ca81nat == 0x1_d218_886e_eccc_0c0f_5d14_62e5_14da_07cc_e4bf_2721_4a10_dcf4_1507_2767_19b2_00d1_6355_55e6_3b87_7f14_140bnat);
    assert(0xe90c_40de_0087_2d19_573a_8d23_493f_c3a9_151e_217a_1913_e801nat * 0x2_0000_0000_0000_0000_0000_0000_0000_0000_0000nat == 0x1_d218_81bc_010e_5a32_ae75_1a46_927f_8752_2a3c_42f4_3227_d002_0000_0000_0000_0000_0000_0000_0000_0000_0000nat);
    lemma_power_known(
        0x3d07_98dd, 0x87_98dd, 121, 0x2_0000_0000_0000_0000_0000_0000_0000_0000_0000nat,
        65025, 0xfa0e_ec0e_fa01,
        0xf441_25eb_eb98_e9ee_2441_f401nat,
        269025, 0x45_2c59_9066_9ca1,
        0x12b0_eff6_c049_6d6d_d948_5020_9d41nat,
        0x1_1f4a_4f56_57b1, 0x1_4267_b375_8f1f_f792_46f5_c861nat,
        0x1_1f4a_5393_1e99, 0x1_4267_bcf8_4af1_78d7_5d5e_3771nat,
    );
}

/// Code 52.
proof fn lemma_entry_52()
    ensures
        nearest_to_power(0x3d0c_a7e6, 66025, 269025),
{
    lemma_fifth_powers_of_two();
    assert(66025nat * 66025 * 66025 == 0x1_05c5_f92b_3679);
    assert(0x1_05c5_f92b_3679 * 0x1_05c5_f92b_3679 == 0x1_0bad_472b_8c19_a77c_ba3d_4531nat);
    assert(0x119_4fcb * 0x119_4fcb == 0x1_3520_4484_eaf9);
    assert(0x1_3520_4484_eaf9 * 0x1_3520_4484_eaf9 == 0x1_7546_e97a_12ce_ba17_7074_2631nat);
    assert(0x119_4fcd * 0x119_4fcd == 0x1_3520_48ea_2a29);
    assert(0x1_3520_48ea_2a29 * 0x1_3520_48ea_2a29 == 0x1_7546_f417_9916_1228_29e5_7a91nat);
    assert(269025nat * 269025 * 269025 == 0x45_2c59_9066_9ca1);
    assert(0x45_2c59_9066_9ca1 * 0x45_2c59_9066_9ca1 == 0x12b0_eff6_c049_6d6d_d948_5020_9d41nat);
    assert(0x12b0_eff6_c049_6d6d_d948_5020_9d41nat * 0x12b0_eff6_c049_6d6d_d948_5020_9d41nat == 0x15d_5c09_8741_6139_2178_92b9_bce5_5f46_89a2_dd05_b95f_0d00_50d8_ca81nat);
    assert(0x1_0bad_472b_8c19_a77c_ba3d_4531nat * 0x1_0bad_472b_8c19_a77c_ba3d_4531nat == 0x1_17e2_e7be_1ae2_0d29_2341_0a1a_d6d3_c7db_feb0_0cad_400d_7361nat);
    assert(0x1_7546_e97a_12ce_ba17_7074_2631nat * 0x119_4fcb == 0x19a_2f2f_2846_7484_f915_3bc7_efac_67dbnat);
    assert(0x1_7546_f417_9916_1228_29e5_7a91nat * 0x119_4fcd == 0x19a_2f3d_bd0b_c85d_545c_ebfa_e6be_e51dnat);
    assert(0x19a_2f2f_2846_7484_f915_3bc7_efac_67dbnat * 0x15d_5c09_8741_6139_2178_92b9_bce5_5f46_89a2_dd05_b95f_0d00_50d8_ca81nat == 0x2_2fc5_cb83_3ad2_3642_d681_8c90_155d_a193_6e04_bb12_5ada_a83e_58eb_31f4_e280_f085_359f_bf02_1bc9_e09b_235bnat);
    assert(0x19a_2f3d_bd0b_c85d_545c_ebfa_e6be_e51dnat * 0x15d_5c09_8741_6139_2178_92b9_bce5_5f46_89a2_dd05_b95f_0d00_50d8_ca81nat == 0x2_2fc5_df69_49d7_5d76_5996_e9b4_94c3_d318_0218_00f9_b228_3bec_47d6_aadd_b393_31db_a870_053a_b52b_4772_559dnat);
    assert(0x1_17e2_e7be_1ae2_0d29_2341_0a1a_d6d3_c7db_feb0_0cad_400d_7361nat * 0x2_0000_0000_0000_0000_0000_0000_0000_0000_0000nat == 0x2_2fc5_cf7c_35c4_1a52_4682_1435_ada7_8fb7_fd60_195a_801a_e6c2_0000_0000_0000_0000_0000_0000_0000_0000_0000nat);
    lemma_power_known(
        0x3d0c_a7e6, 0x8c_a7e6, 121, 0x2_0000_0000_0000_0000_0000_0000_0000_0000_0000nat,
        66025, 0x1_05c5_f92b_3679,
        0x1_0bad_472b_8c19_a77c_ba3d_4531nat,
        269025, 0x45_2c59_9066_9ca1,
        0x12b0_eff6_c049_6d6d_d948_5020_9d41nat,
        0x1_3520_4484_eaf9, 0x1_7546_e97a_12ce_ba17_7074_2631nat,
        0x1_3520_48ea_2a29, 0x1_7546_f417_9916_1228_29e5_7a91nat,
    );
}

/// Code 53.
proof fn lemma_entry_53()
    ensures
        nearest_to_power(0x3d11_d2af, 67025, 269025),
{
    lemma_fifth_powers_of_two();
    assert(67025nat * 67025 * 67025 == 0x1_11d9_42a8_bc71);
    assert(0x1_11d9_42a8_bc71 * 0x1_11d9_42a8_bc71 == 0x1_24f1_188d_f553_e9f4_2306_29e1nat);
    assert(0x123_a55d * 0x123_a55d == 0x1_4c41_5c3f_03c9);
    assert(0x1_4c41_5c3f_03c9 * 0x1_4c41_5c3f_03c9 == 0x1_af39_97f3_6b0e_9e4d_54fc_53d1nat);
    assert(0x123_a55f * 0x123_a55f == 0x1_4c41_60cd_9941);
    assert(0x1_4c41_60cd_9941 * 0x1_4c41_60cd_9941 == 0x1_af39_a3c7_9283_4311_8dd8_c281nat);
    assert(269025nat * 269025 * 269025 == 0x45_2c59_9066_9ca1);
    assert(0x45_2c59_9066_9ca1 * 0x45_2c59_9066_9ca1 == 0x12b0_eff6_c049_6d6d_d948_5020_9d41nat);
    assert(0x12b0_eff6_c049_6d6d_d948_5020_9d41nat * 0x12b0_eff6_c049_6d6d_d948_5020_9d41nat == 0x15d_5c09_8741_6139_2178_92b9_bce5_5f46_89a2_dd05_b95f_0d00_50d8_ca81nat);
    assert(0x1_24f1_188d_f553_e9f4_2306_29e1nat * 0x1_24f1_188d_f553_e9f4_2306_29e1nat == 0x1_4f36_e313_154a_426b_52f7_37f2_b36d_2495_d2ac_1681_8365_d7c1nat);
    assert(0x1_af39_97f3_6b0e_9e4d_54fc_53d1nat * 0x123_a55d == 0x1eb_4504_808e_c90c_423e_f4b1_c843_27ednat);
    assert(0x1_af39_a3c7_9283_4311_8dd8_c281nat * 0x123_a55f == 0x1eb_4515_58ce_f3b3_35e4_7155_7170_52dfnat);
    assert(0x1eb_4504_808e_c90c_423e_f4b1_c843_27ednat * 0x15d_5c09_8741_6139_2178_92b9_bce5_5f46_89a2_dd05_b95f_0d00_50d8_ca81nat == 0x2_9e6d_b639_dce0_63b5_0755_4803_8ae6_20d4_a860_c3ef_3054_95c1_bf35_09f1_e997_5f82_cd9b_925d_93be_a750_206dnat);
    assert(0x1eb_4515_58ce_f3b3_35e4_7155_7170_52dfnat * 0x15d_5c09_8741_6139_2178_92b9_bce5_5f46_89a2_dd05_b95f_0d00_50d8_ca81nat == 0x2_9e6d_cd36_bab2_193b_d3d9_c5df_8e64_92df_1665_ccfe_cdcc_cb1c_4b38_53ad_bb05_0aeb_ceae_590b_ab3c_6725_b85fnat);
    assert(0x1_4f36_e313_154a_426b_52f7_37f2_b36d_2495_d2ac_1681_8365_d7c1nat * 0x2_0000_0000_0000_0000_0000_0000_0000_0000_0000nat == 0x2_9e6d_c626_2a94_84d6_a5ee_6fe5_66da_492b_a558_2d03_06cb_af82_0000_0000_0000_0000_0000_0000_0000_0000_0000nat);
    lemma_power_known(
        0x3d11_d2af, 0x91_d2af, 121, 0x2_0000_0000_0000_0000_0000_0000_0000_0000_0000nat,
        67025, 0x1_11d9_42a8_bc71,
        0x1_24f1_188d_f553_e9f4_2306_29e1nat,
        269025, 0x45_2c59_9066_9ca1,
        0x12b0_eff6_c049_6d6d_d948_5020_9d41nat,
        0x1_4c41_5c3f_03c9, 0x1_af39_97f3_6b0e_9e4d_54fc_53d1nat,
        0x1_4c41_60cd_9941, 0x1_af39_a3c7_9283_4311_8dd8_c281nat,
    );
}

/// Code 54.
proof fn lemma_entry_54()
    ensures
        nearest_to_power(0x3d17_1964, 68025, 269025),
{
    lemma_fifth_powers_of_two();
    assert(68025nat * 68025 * 68025 == 0x1_1e4a_2e28_47e9);
    assert(0x1_1e4a_2e28_47e9 * 0x1_1e4a_2e28_47e9 == 0x1_4029_d4a0_b848_aee2_4903_1211nat);
    assert(0x12e_32c7 * 0x12e_32c7 == 0x1_64bb_d796_56b1);
    assert(0x1_64bb_d796_56b1 * 0x1_64bb_d796_56b1 == 0x1_f11a_f96e_cc4c_cc7d_02c7_6661nat);
    assert(0x12e_32c9 * 0x12e_32c9 == 0x1_64bb_dc4f_21d1);
    assert(0x1_64bb_dc4f_21d1 * 0x1_64bb_dc4f_21d1 == 0x1_f11b_0697_af40_c9eb_1b75_8ca1nat);
    assert(269025nat * 269025 * 269025 == 0x45_2c59_9066_9ca1);
    assert(0x45_2c59_9066_9ca1 * 0x45_2c59_9066_9ca1 == 0x12b0_eff6_c049_6d6d_d948_5020_9d41nat);
    assert(0x12b0_eff6_c049_6d6d_d948_5020_9d41nat * 0x12b0_eff6_c049_6d6d_d948_5020_9d41nat == 0x15d_5c09_8741_6139_2178_92b9_bce5_5f46_89a2_dd05_b95f_0d00_50d8_ca81nat);
    assert(0x1_4029_d4a0_b848_aee2_4903_1211nat * 0x1_4029_d4a0_b848_aee2_4903_1211nat == 0x1_9068_9a67_98cb_529c_fc2d_03f6_c2ea_9c37_c45d_c25b_1fac_6521nat);
    assert(0x1_f11a_f96e_cc4c_cc7d_02c7_6661nat * 0x12e_32c7 == 0x24a_d06b_f164_8ba1_0b1c_a6f2_e16d_8767nat);
    assert(0x1_f11b_0697_af40_c9eb_1b75_8ca1nat * 0x12e_32c9 == 0x24a_d07f_5c72_8bc1_74a8_d9a1_6ab0_dc69nat);
    assert(0x24a_d06b_f164_8ba1_0b1c_a6f2_e16d_8767nat * 0x15d_5c09_8741_6139_2178_92b9_bce5_5f46_89a2_dd05_b95f_0d00_50d8_ca81nat == 0x3_20d1_1be6_3e64_ace5_46a0_737f_cde4_c830_f06f_1bbc_c98c_b46c_9eab_b3e7_c077_cdeb_7738_36a5_6ffe_73f0_80e7nat);
    assert(0x24a_d07f_5c72_8bc1_74a8_d9a1_6ab0_dc69nat * 0x15d_5c09_8741_6139_2178_92b9_bce5_5f46_89a2_dd05_b95f_0d00_50d8_ca81nat == 0x3_20d1_3666_2bac_e708_c258_7195_9868_23f5_d1dd_2233_195e_7786_afc6_9d41_7d24_c2e8_d164_bd80_a7a1_19a1_eae9nat);
    assert(0x1_9068_9a67_98cb_529c_fc2d_03f6_c2ea_9c37_c45d_c25b_1fac_6521nat * 0x2_0000_0000_0000_0000_0000_0000_0000_0000_0000nat == 0x3_20d1_34cf_3196_a539_f85a_07ed_85d5_386f_88bb_84b6_3f58_ca42_0000_0000_0000_0000_0000_0000_0000_0000_0000nat);
    lemma_power_known(
        0x3d17_1964, 0x97_1964, 121, 0x2_0000_0000_0000_0000_0000_0000_0000_0000_0000nat,
        68025, 0x1_1e4a_2e28_47e9,
        0x1_4029_d4a0_b848_aee2_4903_1211nat,
        269025, 0x45_2c59_9066_9ca1,
        0x12b0_eff6_c049_6d6d_d948_5020_9d41nat,
        0x1_64bb_d796_56b1, 0x1_f11a_f96e_cc4c_cc7d_02c7_6661nat,
        0x1_64bb_dc4f_21d1, 0x1_f11b_0697_af40_c9eb_1b75_8ca1nat,
    );
}

/// Code 55.
proof fn lemma_entry_55()
    ensures
        nearest_to_power(0x3d1c_7c30, 69025, 269025),
{
    lemma_fifth_powers_of_two();
    assert(69025nat * 69025 * 69025 == 0x1_2b1a_214a_94e1);
    assert(0x1_2b1a_214a_94e1 * 0x1_2b1a_214a_94e1 == 0x1_5d76_0c6e_ff40_23d0_6aa8_edc1nat);
    assert(0x138_f85f * 0x138_f85f == 0x1_7e9e_5888_3341);
    assert(0x1_7e9e_5888_3341 * 0x1_7e9e_5888_3341 == 0x2_3bdc_f227_dfb3_2bef_2f52_f681nat);
    assert(0x138_f861 * 0x138_f861 == 0x1_7e9e_5d6c_14c1);
    assert(0x1_7e9e_5d6c_14c1 * 0x1_7e9e_5d6c_14c1 == 0x2_3bdd_00c6_0171_4ef1_be86_b981nat);
    assert(269025nat * 269025 * 269025 == 0x45_2c59_9066_9ca1);
    assert(0x45_2c59_9066_9ca1 * 0x45_2c59_9066_9ca1 == 0x12b0_eff6_c049_6d6d_d948_5020_9d41nat);
    assert(0x12b0_eff6_c049_6d6d_d948_5020_9d41nat * 0x12b0_eff6_c049_6d6d_d948_5020_9d41nat == 0x15d_5c09_8741_6139_2178_92b9_bce5_5f46_89a2_dd05_b95f_0d00_50d8_ca81nat);
    assert(0x1_5d76_0c6e_ff40_23d0_6aa8_edc1nat * 0x1_5d76_0c6e_ff40_23d0_6aa8_edc1nat == 0x1_dd0b_1456_1ae2_c8d5_a3ee_1482_0916_eed1_0e75_73fc_be1e_eb81nat);
    assert(0x2_3bdc_f227_dfb3_2bef_2f52_f681nat * 0x138_f85f == 0x2bb_2019_622d_1fdf_218e_b0b7_5bce_71dfnat);
    assert(0x2_3bdd_00c6_0171_4ef1_be86_b981nat * 0x138_f861 == 0x2bb_202f_b8ce_de84_8709_4e5d_c9f9_41e1nat);
    assert(0x2bb_2019_622d_1fdf_218e_b0b7_5bce_71dfnat * 0x15d_5c09_8741_6139_2178_92b9_bce5_5f46_89a2_dd05_b95f_0d00_50d8_ca81nat == 0x3_ba16_1c29_782b_2aa1_f3f7_1c12_0d45_b0f2_9710_bcc5_277c_471c_87b0_8b15_400b_7074_5573_cc47_079b_ed09_575fnat);
    assert(0x2bb_202f_b8ce_de84_8709_4e5d_c9f9_41e1nat * 0x15d_5c09_8741_6139_2178_92b9_bce5_5f46_89a2_dd05_b95f_0d00_50d8_ca81nat == 0x3_ba16_3aa5_9aa3_0bb4_36d2_c960_66a2_642e_65b0_b262_39ec_380a_5b98_4beb_3a9a_13b4_e96e_859e_3a87_5a6d_bc61nat);
    assert(0x1_dd0b_1456_1ae2_c8d5_a3ee_1482_0916_eed1_0e75_73fc_be1e_eb81nat * 0x2_0000_0000_0000_0000_0000_0000_0000_0000_0000nat == 0x3_ba16_28ac_35c5_91ab_47dc_2904_122d_dda2_1cea_e7f9_7c3d_d702_0000_0000_0000_0000_0000_0000_0000_0000_0000nat);
    lemma_power_known(
        0x3d1c_7c30, 0x9c_7c30, 121, 0x2_0000_0000_0000_0000_0000_0000_0000_0000_0000nat,
        69025, 0x1_2b1a_214a_94e1,
        0x1_5d76_0c6e_ff40_23d0_6aa8_edc1nat,
        269025, 0x45_2c59_9066_9ca1,
        0x12b0_eff6_c049_6d6d_d948_5020_9d41nat,
        0x1_7e9e_5888_3341, 0x2_3bdc_f227_dfb3_2bef_2f52_f681nat,
        0x1_7e9e_5d6c_14c1, 0x2_3bdd_00c6_0171_4ef1_be86_b981nat,
    );
}

/// Code 56.
proof fn lemma_entry_56()
    ensures
        nearest_to_power(0x3d21_fb3c, 70025, 269025),
{
    lemma_fifth_powers_of_two();
    assert(70025nat * 70025 * 70025 == 0x1_384a_81b0_5f59);
    assert(0x1_384a_81b0_5f59 * 0x1_384a_81b0_5f59 == 0x1_7cf5_b1cd_2413_490e_efe3_2cf1nat);
    assert(0x143_f677 * 0x143_f677 == 0x1_99f7_dd92_eb51);
    assert(0x1_99f7_dd92_eb51 * 0x1_99f7_dd92_eb51 == 0x2_9089_f1fc_c531_e6e9_1ab1_cfa1nat);
    assert(0x143_f679 * 0x143_f679 == 0x1_99f7_e2a2_c531);
    assert(0x1_99f7_e2a2_c531 * 0x1_99f7_e2a2_c531 == 0x2_908a_0233_38d2_e236_ade8_7361nat);
    assert(269025nat * 269025 * 269025 == 0x45_2c59_9066_9ca1);
    assert(0x45_2c59_9066_9ca1 * 0x45_2c59_9066_9ca1 == 0x12b0_eff6_c049_6d6d_d948_5020_9d41nat);
    assert(0x12b0_eff6_c049_6d6d_d948_5020_9d41nat * 0x12b0_eff6_c049_6d6d_d948_5020_9d41nat == 0x15d_5c09_8741_6139_2178_92b9_bce5_5f46_89a2_dd05_b95f_0d00_50d8_ca81nat);
    assert(0x1_7cf5_b1cd_2413_490e_efe3_2cf1nat * 0x1_7cf5_b1cd_2413_490e_efe3_2cf1nat == 0x2_36ea_53a6_d13d_9e13_a5c0_ade3_f3ce_4205_210a_53de_b949_bae1nat);
    assert(0x2_9089_f1fc_c531_e6e9_1ab1_cfa1nat * 0x143_f677 == 0x33e_d622_1095_2ff3_f633_045b_3e4f_39d7nat);
    assert(0x2_908a_0233_38d2_e236_ade8_7361nat * 0x143_f679 == 0x33e_d63b_b5f8_f4e3_ec0a_e33f_2520_bed9nat);
    assert(0x33e_d622_1095_2ff3_f633_045b_3e4f_39d7nat * 0x15d_5c09_8741_6139_2178_92b9_bce5_5f46_89a2_dd05_b95f_0d00_50d8_ca81nat == 0x4_6dd4_a051_57a6_7003_188e_eef1_a652_a801_7d95_c7c9_d41f_7cf0_1c11_b6bb_4c25_3070_152b_5d53_7110_e6f7_cb57nat);
    assert(0x33e_d63b_b5f8_f4e3_ec0a_e33f_2520_bed9nat * 0x15d_5c09_8741_6139_2178_92b9_bce5_5f46_89a2_dd05_b95f_0d00_50d8_ca81nat == 0x4_6dd4_c351_090e_2331_c136_8b22_2cef_4b06_f50c_716c_fdc5_6fac_1a29_daa8_1ffc_6646_847f_4ee5_ea62_632f_6559nat);
    assert(0x2_36ea_53a6_d13d_9e13_a5c0_ade3_f3ce_4205_210a_53de_b949_bae1nat * 0x2_0000_0000_0000_0000_0000_0000_0000_0000_0000nat == 0x4_6dd4_a74d_a27b_3c27_4b81_5bc7_e79c_840a_4214_a7bd_7293_75c2_0000_0000_0000_0000_0000_0000_0000_0000_0000nat);
    lemma_power_known(
        0x3d21_fb3c, 0xa1_fb3c, 121, 0x2_0000_0000_0000_0000_0000_0000_0000_0000_0000nat,
        70025, 0x1_384a_81b0_5f59,
        0x1_7cf5_b1cd_2413_490e_efe3_2cf1nat,
        269025, 0x45_2c59_9066_9ca1,
        0x12b0_eff6_c049_6d6d_d948_5020_9d41nat,
        0x1_99f7_dd92_eb51, 0x2_9089_f1fc_c531_e6e9_1ab1_cfa1nat,
        0x1_99f7_e2a2_c531, 0x2_908a_0233_38d2_e236_ade8_7361nat,
    );
}

/// Code 57.
proof fn lemma_entry_57()
    ensures
        nearest_to_power(0x3d27_96b2, 71025, 269025),
{
    lemma_fifth_powers_of_two();
    assert(71025nat * 71025 * 71025 == 0x1_45dc_b4fa_6351);
    assert(0x1_45dc_b4fa_6351 * 0x1_45dc_b4fa_6351 == 0x1_9eca_21cb_4e77_6dc8_08bb_bfa1nat);
    assert(0x14f_2d63 * 0x14f_2d63 == 0x1_b6d7_d125_f449);
    assert(0x1_b6d7_d125_f449 * 0x1_b6d7_d125_f449 == 0x2_f047_359e_d889_1d1d_b835_3cd1nat);
    assert(0x14f_2d65 * 0x14f_2d65 == 0x1_b6d7_d662_a9d9);
    assert(0x1_b6d7_d662_a9d9 * 0x1_b6d7_d662_a9d9 == 0x2_f047_4793_6a74_f07b_46d4_39f1nat);
    assert(269025nat * 269025 * 269025 == 0x45_2c59_9066_9ca1);
    assert(0x45_2c59_9066_9ca1 * 0x45_2c59_9066_9ca1 == 0x12b0_eff6_c049_6d6d_d948_5020_9d41nat);
    assert(0x12b0_eff6_c049_6d6d_d948_5020_9d41nat * 0x12b0_eff6_c049_6d6d_d948_5020_9d41nat == 0x15d_5c09_8741_6139_2178_92b9_bce5_5f46_89a2_dd05_b95f_0d00_50d8_ca81nat);
    assert(0x1_9eca_21cb_4e77_6dc8_08bb_bfa1nat * 0x1_9eca_21cb_4e77_6dc8_08bb_bfa1nat == 0x2_a012_64e6_eb18_273c_8faf_b432_8b9b_e665_ca84_cb3b_94a7_a341nat);
    assert(0x2_f047_359e_d889_1d1d_b835_3cd1nat * 0x14f_2d63 == 0x3d8_f28e_9ad4_03ea_f108_898a_2dc6_41d3nat);
    assert(0x2_f047_4793_6a74_f07b_46d4_39f1nat * 0x14f_2d65 == 0x3d8_f2ab_fd9c_75e6_3fba_3bce_1249_3915nat);
    assert(0x3d8_f28e_9ad4_03ea_f108_898a_2dc6_41d3nat * 0x15d_5c09_8741_6139_2178_92b9_bce5_5f46_89a2_dd05_b95f_0d00_50d8_ca81nat == 0x5_4024_c83d_3d25_d3b9_1a00_584f_c7cb_7ad5_30f3_de0e_7263_22d7_4ae0_5536_8689_fc0b_1c59_665d_a198_fadf_a953nat);
    assert(0x3d8_f2ab_fd9c_75e6_3fba_3bce_1249_3915nat * 0x15d_5c09_8741_6139_2178_92b9_bce5_5f46_89a2_dd05_b95f_0d00_50d8_ca81nat == 0x5_4024_f057_7901_3fee_a65b_3fe1_3f0d_c9cd_1825_3048_844c_057a_372a_831b_05a4_2ec7_77e4_ff50_1de3_b7a8_5595nat);
    assert(0x2_a012_64e6_eb18_273c_8faf_b432_8b9b_e665_ca84_cb3b_94a7_a341nat * 0x2_0000_0000_0000_0000_0000_0000_0000_0000_0000nat == 0x5_4024_c9cd_d630_4e79_1f5f_6865_1737_cccb_9509_9677_294f_4682_0000_0000_0000_0000_0000_0000_0000_0000_0000nat);
    lemma_power_known(
        0x3d27_96b2, 0xa7_96b2, 121, 0x2_0000_0000_0000_0000_0000_0000_0000_0000_0000nat,
        71025, 0x1_45dc_b4fa_6351,
        0x1_9eca_21cb_4e77_6dc8_08bb_bfa1nat,
        269025, 0x45_2c59_9066_9ca1,
        0x12b0_eff6_c049_6d6d_d948_5020_9d41nat,
        0x1_b6d7_d125_f449, 0x2_f047_359e_d889_1d1d_b835_3cd1nat,
        0x1_b6d7_d662_a9d9, 0x2_f047_4793_6a74_f07b_46d4_39f1nat,
    );
}

/// Code 58.
proof fn lemma_entry_58()
    ensures
        nearest_to_power(0x3d2d_4ebb, 72025, 269025),
{
    lemma_fifth_powers_of_two();
    assert(72025nat * 72025 * 72025 == 0x1_53d2_20c9_5cc9);
    assert(0x1_53d2_20c9_5cc9 * 0x1_53d2_20c9_5cc9 == 0x1_c316_2f4f_1a4b_8559_1543_15d1nat);
    assert(0x15a_9d75 * 0x15a_9d75 == 0x1_d54e_011c_b779);
    assert(0x1_d54e_011c_b779 * 0x1_d54e_011c_b779 == 0x3_5c56_e7d7_e5c2_6463_97f6_3731nat);
    assert(0x15a_9d77 * 0x15a_9d77 == 0x1_d54e_0687_2d51);
    assert(0x1_d54e_0687_2d51 * 0x1_d54e_0687_2d51 == 0x3_5c56_fbb3_4695_04dc_9f73_93a1nat);
    assert(269025nat * 269025 * 269025 == 0x45_2c59_9066_9ca1);
    assert(0x45_2c59_9066_9ca1 * 0x45_2c59_9066_9ca1 == 0x12b0_eff6_c049_6d6d_d948_5020_9d41nat);
    assert(0x12b0_eff6_c049_6d6d_d948_5020_9d41nat * 0x12b0_eff6_c049_6d6d_d948_5020_9d41nat == 0x15d_5c09_8741_6139_2178_92b9_bce5_5f46_89a2_dd05_b95f_0d00_50d8_ca81nat);
    assert(0x1_c316_2f4f_1a4b_8559_1543_15d1nat * 0x1_c316_2f4f_1a4b_8559_1543_15d1nat == 0x3_1ad7_2c9c_e0fc_c0eb_c480_768d_674f_f9d2_bb8a_687a_b741_f4a1nat);
    assert(0x3_5c56_e7d7_e5c2_6463_97f6_3731nat * 0x15a_9d75 == 0x48c_de9f_d9b3_e64f_e804_587d_0b9a_4665nat);
    assert(0x3_5c56_fbb3_4695_04dc_9f73_93a1nat * 0x15a_9d77 == 0x48c_dec1_7519_5807_c570_128d_87dd_5cd7nat);
    assert(0x48c_de9f_d9b3_e64f_e804_587d_0b9a_4665nat * 0x15d_5c09_8741_6139_2178_92b9_bce5_5f46_89a2_dd05_b95f_0d00_50d8_ca81nat == 0x6_35ae_4b48_8301_7fbb_b3aa_3581_703e_c7f1_d05d_0bcd_c539_c7d6_296d_5a0a_d3cf_6149_f058_0733_6355_8981_2ae5nat);
    assert(0x48c_dec1_7519_5807_c570_128d_87dd_5cd7nat * 0x15d_5c09_8741_6139_2178_92b9_bce5_5f46_89a2_dd05_b95f_0d00_50d8_ca81nat == 0x6_35ae_7925_7166_345b_59ab_a19e_8177_df1b_e7cf_b275_de22_6dd6_372a_bf64_6d68_1fa9_1866_de7c_c14f_a735_6e57nat);
    assert(0x3_1ad7_2c9c_e0fc_c0eb_c480_768d_674f_f9d2_bb8a_687a_b741_f4a1nat * 0x2_0000_0000_0000_0000_0000_0000_0000_0000_0000nat == 0x6_35ae_5939_c1f9_81d7_8900_ed1a_ce9f_f3a5_7714_d0f5_6e83_e942_0000_0000_0000_0000_0000_0000_0000_0000_0000nat);
    lemma_power_known(
        0x3d2d_4ebb, 0xad_4ebb, 121, 0x2_0000_0000_0000_0000_0000_0000_0000_0000_0000nat,
        72025, 0x1_53d2_20c9_5cc9,
        0x1_c316_2f4f_1a4b_8559_1543_15d1nat,
        269025, 0x45_2c59_9066_9ca1,
        0x12b0_eff6_c049_6d6d_d948_5020_9d41nat,
        0x1_d54e_011c_b779, 0x3_5c56_e7d7_e5c2_6463_97f6_3731nat,
        0x1_d54e_0687_2d51, 0x3_5c56_fbb3_4695_04dc_9f73_93a1nat,
    );
}

/// Code 59.
proof fn lemma_entry_59()
    ensures
        nearest_to_power(0x3d33_2381, 73025, 269025),
{
    lemma_fifth_powers_of_two();
    assert(73025nat * 73025 * 73025 == 0x1_622c_2abe_07c1);
    assert(0x1_622c_2abe_07c1 * 0x1_622c_2abe_07c1 == 0x1_e9fe_2dd4_45e7_55f2_d6b8_1f81nat);
    assert(0x166_4701 * 0x166_4701 == 0x1_f56a_aa7d_8e01);
    assert(0x1_f56a_aa7d_8e01 * 0x1_f56a_aa7d_8e01 == 0x3_d61a_abc1_0f54_8101_4fbf_1c01nat);
    assert(0x166_4703 * 0x166_4703 == 0x1_f56a_b016_aa09);
    assert(0x1_f56a_b016_aa09 * 0x1_f56a_b016_aa09 == 0x3_d61a_c1af_016b_3542_0a7b_f451nat);
    assert(269025nat * 269025 * 269025 == 0x45_2c59_9066_9ca1);
    assert(0x45_2c59_9066_9ca1 * 0x45_2c59_9066_9ca1 == 0x12b0_eff6_c049_6d6d_d948_5020_9d41nat);
    assert(0x12b0_eff6_c049_6d6d_d948_5020_9d41nat * 0x12b0_eff6_c049_6d6d_d948_5020_9d41nat == 0x15d_5c09_8741_6139_2178_92b9_bce5_5f46_89a2_dd05_b95f_0d00_50d8_ca81nat);
    assert(0x1_e9fe_2dd4_45e7_55f2_d6b8_1f81nat * 0x1_e9fe_2dd4_45e7_55f2_d6b8_1f81nat == 0x3_a9dd_0773_ec7c_cdff_74a1_bcca_d2dd_71dd_51ed_92fc_f950_7f01nat);
    assert(0x3_d61a_abc1_0f54_8101_4fbf_1c01nat * 0x166_4701 == 0x55e_79b1_6bb8_a72d_e6f1_6360_79e9_6301nat);
    assert(0x3_d61a_c1af_016b_3542_0a7b_f451nat * 0x166_4703 == 0x55e_79d7_c8c3_ca5e_3a61_9a06_297c_53f3nat);
    assert(0x55e_79b1_6bb8_a72d_e6f1_6360_79e9_6301nat * 0x15d_5c09_8741_6139_2178_92b9_bce5_5f46_89a2_dd05_b95f_0d00_50d8_ca81nat == 0x7_53ba_0dc4_15e2_83d9_f81a_a450_876e_4019_f800_b0af_e2d8_426e_3fd1_9da8_19a4_4978_5973_27f3_0cab_6f91_ad81nat);
    assert(0x55e_79d7_c8c3_ca5e_3a61_9a06_297c_53f3nat * 0x15d_5c09_8741_6139_2178_92b9_bce5_5f46_89a2_dd05_b95f_0d00_50d8_ca81nat == 0x7_53ba_421e_b8ef_07a2_63f7_c5eb_e503_ac58_ad5a_b082_0447_6fe4_901c_d17b_790f_b9da_0eb0_6351_abf9_c6ec_0b73nat);
    assert(0x3_a9dd_0773_ec7c_cdff_74a1_bcca_d2dd_71dd_51ed_92fc_f950_7f01nat * 0x2_0000_0000_0000_0000_0000_0000_0000_0000_0000nat == 0x7_53ba_0ee7_d8f9_9bfe_e943_7995_a5ba_e3ba_a3db_25f9_f2a0_fe02_0000_0000_0000_0000_0000_0000_0000_0000_0000nat);
    lemma_power_known(
        0x3d33_2381, 0xb3_2381, 121, 0x2_0000_0000_0000_0000_0000_0000_0000_0000_0000nat,
        73025, 0x1_622c_2abe_07c1,
        0x1_e9fe_2dd4_45e7_55f2_d6b8_1f81nat,
        269025, 0x45_2c59_9066_9ca1,
        0x12b0_eff6_c049_6d6d_d948_5020_9d41nat,
        0x1_f56a_aa7d_8e01, 0x3_d61a_abc1_0f54_8101_4fbf_1c01nat,
        0x1_f56a_b016_aa09, 0x3_d61a_c1af_016b_3542_0a7b_f451nat,
    );
}

/// Code 60.
proof fn lemma_entry_60()
    ensures
        nearest_to_power(0x3d39_152b, 74025, 269025),
{
    lemma_fifth_powers_of_two();
    assert(74025nat * 74025 * 74025 == 0x1_70ec_3879_2039);
    assert(0x1_70ec_3879_2039 * 0x1_70ec_3879_2039 == 0x2_13a7_fc54_686c_8080_69f0_4cb1nat);
    assert(0x172_2a55 * 0x172_2a55 == 0x2_173e_64b4_0039);
    assert(0x2_173e_64b4_0039 * 0x2_173e_64b4_0039 == 0x4_5f15_d81d_47bb_7858_d828_0cb1nat);
    assert(0x172_2a57 * 0x172_2a57 == 0x2_173e_6a7c_a991);
    assert(0x2_173e_6a7c_a991 * 0x2_173e_6a7c_a991 == 0x4_5f15_f04c_cd69_a95c_c8c8_c421nat);
    assert(269025nat * 269025 * 269025 == 0x45_2c59_9066_9ca1);
    assert(0x45_2c59_9066_9ca1 * 0x45_2c59_9066_9ca1 == 0x12b0_eff6_c049_6d6d_d948_5020_9d41nat);
    assert(0x12b0_eff6_c049_6d6d_d948_5020_9d41nat * 0x12b0_eff6_c049_6d6d_d948_5020_9d41nat == 0x15d_5c09_8741_6139_2178_92b9_bce5_5f46_89a2_dd05_b95f_0d00_50d8_ca81nat);
    assert(0x2_13a7_fc54_686c_8080_69f0_4cb1nat * 0x2_13a7_fc54_686c_8080_69f0_4cb1nat == 0x4_5022_4f01_5808_a40e_adce_90e5_f48a_1792_ee2c_b179_14d9_9261nat);
    assert(0x4_5f15_d81d_47bb_7858_d828_0cb1nat * 0x172_2a55 == 0x652_269f_8207_3c71_8365_f2d8_af33_40c5nat);
    assert(0x4_5f15_f04c_cd69_a95c_c8c8_c421nat * 0x172_2a57 == 0x652_26cb_38e2_2683_eccb_f9a4_a41a_1137nat);
    assert(0x652_269f_8207_3c71_8365_f2d8_af33_40c5nat * 0x15d_5c09_8741_6139_2178_92b9_bce5_5f46_89a2_dd05_b95f_0d00_50d8_ca81nat == 0x8_a044_698f_e1d4_088c_7ccd_5479_9b46_a9fc_47a1_28cb_4117_4865_d285_0507_6969_ab1c_245c_45f7_31ea_f027_1545nat);
    assert(0x652_26cb_38e2_2683_eccb_f9a4_a41a_1137nat * 0x15d_5c09_8741_6139_2178_92b9_bce5_5f46_89a2_dd05_b95f_0d00_50d8_ca81nat == 0x8_a044_a537_e19c_560e_7e7a_7c67_a870_2403_161c_aa27_4ba2_0800_a261_7e81_77e4_d932_f4f6_d140_1bd2_f920_12b7nat);
    assert(0x4_5022_4f01_5808_a40e_adce_90e5_f48a_1792_ee2c_b179_14d9_9261nat * 0x2_0000_0000_0000_0000_0000_0000_0000_0000_0000nat == 0x8_a044_9e02_b011_481d_5b9d_21cb_e914_2f25_dc59_62f2_29b3_24c2_0000_0000_0000_0000_0000_0000_0000_0000_0000nat);
    lemma_power_known(
        0x3d39_152b, 0xb9_152b, 121, 0x2_0000_0000_0000_0000_0000_0000_0000_0000_0000nat,
        74025, 0x1_70ec_3879_2039,
        0x2_13a7_fc54_686c_8080_69f0_4cb1nat,
        269025, 0x45_2c59_9066_9ca1,
        0x12b0_eff6_c049_6d6d_d948_5020_9d41nat,
        0x2_173e_64b4_0039, 0x4_5f15_d81d_47bb_7858_d828_0cb1nat,
        0x2_173e_6a7c_a991, 0x4_5f15_f04c_cd69_a95c_c8c8_c421nat,
    );
}

/// Code 61.
proof fn lemma_entry_61()
    ensures
        nearest_to_power(0x3d3f_23e4, 75025, 269025),
{
    lemma_fifth_powers_of_two();
    assert(75025nat * 75025 * 75025 == 0x1_8013_af9b_6231);
    assert(0x1_8013_af9b_6231 * 0x1_8013_af9b_6231 == 0x2_403b_1055_b019_61d5_0aff_8d61nat);
    assert(0x17e_47c7 * 0x17e_47c7 == 0x2_3ada_4a03_fcb1);
    assert(0x2_3ada_4a03_fcb1 * 0x2_3ada_4a03_fcb1 == 0x4_f8f0_cbbb_e574_df9a_3992_f261nat);
    assert(0x17e_47c9 * 0x17e_47c9 == 0x2_3ada_4ffd_1bd1);
    assert(0x2_3ada_4ffd_1bd1 * 0x2_3ada_4ffd_1bd1 == 0x4_f8f0_e65f_73f0_455e_fc1f_c0a1nat);
    assert(269025nat * 269025 * 269025 == 0x45_2c59_9066_9ca1);
    assert(0x45_2c59_9066_9ca1 * 0x45_2c59_9066_9ca1 == 0x12b0_eff6_c049_6d6d_d948_5020_9d41nat);
    assert(0x12b0_eff6_c049_6d6d_d948_5020_9d41nat * 0x12b0_eff6_c049_6d6d_d948_5020_9d41nat == 0x15d_5c09_8741_6139_2178_92b9_bce5_5f46_89a2_dd05_b95f_0d00_50d8_ca81nat);
    assert(0x2_403b_1055_b019_61d5_0aff_8d61nat * 0x2_403b_1055_b019_61d5_0aff_8d61nat == 0x5_1109_d722_20fc_36a3_5fe9_8fe2_1a34_ae59_f3cf_bb90_8951_fec1nat);
    assert(0x4_f8f0_cbbb_e574_df9a_3992_f261nat * 0x17e_47c7 == 0x76c_dc38_4e0f_e018_6fff_8020_2f31_5067nat);
    assert(0x4_f8f0_e65f_73f0_455e_fc1f_c0a1nat * 0x17e_47c9 == 0x76c_dc6a_0778_5aa1_2ea0_06e2_3398_e569nat);
    assert(0x76c_dc38_4e0f_e018_6fff_8020_2f31_5067nat * 0x15d_5c09_8741_6139_2178_92b9_bce5_5f46_89a2_dd05_b95f_0d00_50d8_ca81nat == 0xa_2213_9ea6_b344_7785_6f6b_91d0_3a0a_b0e2_72b1_0f1b_beda_f2a1_f0a9_7f96_6a40_da8c_d21d_fb0e_6b30_b832_c9e7nat);
    assert(0x76c_dc6a_0778_5aa1_2ea0_06e2_3398_e569nat * 0x15d_5c09_8741_6139_2178_92b9_bce5_5f46_89a2_dd05_b95f_0d00_50d8_ca81nat == 0xa_2213_e282_572e_da1f_d212_44a4_b8be_55f5_569c_e5b8_f655_92ea_6d9c_9c5f_5b1e_14c8_7361_09aa_9a65_05a8_73e9nat);
    assert(0x5_1109_d722_20fc_36a3_5fe9_8fe2_1a34_ae59_f3cf_bb90_8951_fec1nat * 0x2_0000_0000_0000_0000_0000_0000_0000_0000_0000nat == 0xa_2213_ae44_41f8_6d46_bfd3_1fc4_3469_5cb3_e79f_7721_12a3_fd82_0000_0000_0000_0000_0000_0000_0000_0000_0000nat);
    lemma_power_known(
        0x3d3f_23e4, 0xbf_23e4, 121, 0x2_0000_0000_0000_0000_0000_0000_0000_0000_0000nat,
        75025, 0x1_8013_af9b_6231,
        0x2_403b_1055_b019_61d5_0aff_8d61nat,
        269025, 0x45_2c59_9066_9ca1,
        0x12b0_eff6_c049_6d6d_d948_5020_9d41nat,
        0x2_3ada_4a03_fcb1, 0x4_f8f0_cbbb_e574_df9a_3992_f261nat,
        0x2_3ada_4ffd_1bd1, 0x4_f8f0_e65f_73f0_455e_fc1f_c0a1nat,
    );
}

/// Code 62.
proof fn lemma_entry_62()
    ensures
        nearest_to_power(0x3d45_4fd2, 76025, 269025),
{
    lemma_fifth_powers_of_two();
    assert(76025nat * 76025 * 76025 == 0x1_8fa3_f5c5_89a9);
    assert(0x1_8fa3_f5c5_89a9 * 0x1_8fa3_f5c5_89a9 == 0x2_6fe0_8120_a89d_cd20_a220_5191nat);
    assert(0x18a_9fa3 * 0x18a_9fa3 == 0x2_604f_c547_e1c9);
    assert(0x2_604f_c547_e1c9 * 0x2_604f_c547_e1c9 == 0x5_a57b_01f0_cadf_cfbc_5ea0_efd1nat);
    assert(0x18a_9fa5 * 0x18a_9fa5 == 0x2_604f_cb72_6059);
    assert(0x2_604f_cb72_6059 * 0x2_604f_cb72_6059 == 0x5_a57b_1f3e_7bec_ced5_1986_def1nat);
    assert(269025nat * 269025 * 269025 == 0x45_2c59_9066_9ca1);
    assert(0x45_2c59_9066_9ca1 * 0x45_2c59_9066_9ca1 == 0x12b0_eff6_c049_6d6d_d948_5020_9d41nat);
    assert(0x12b0_eff6_c049_6d6d_d948_5020_9d41nat * 0x12b0_eff6_c049_6d6d_d948_5020_9d41nat == 0x15d_5c09_8741_6139_2178_92b9_bce5_5f46_89a2_dd05_b95f_0d00_50d8_ca81nat);
    assert(0x2_6fe0_8120_a89d_cd20_a220_5191nat * 0x2_6fe0_8120_a89d_cd20_a220_5191nat == 0x5_f066_795f_2ef9_0ea5_6d72_af9b_a937_14c3_0d3d_8990_023d_1421nat);
    assert(0x5_a57b_01f0_cadf_cfbc_5ea0_efd1nat * 0x18a_9fa3 == 0x8b4_34b0_c01f_06c7_e670_e767_4d15_8113nat);
    assert(0x5_a57b_1f3e_7bec_ced5_1986_def1nat * 0x18a_9fa5 == 0x8b4_34e9_36ed_acb4_4810_f3c7_574f_6055nat);
    assert(0x8b4_34b0_c01f_06c7_e670_e767_4d15_8113nat * 0x15d_5c09_8741_6139_2178_92b9_bce5_5f46_89a2_dd05_b95f_0d00_50d8_ca81nat == 0xb_e0cc_ead4_8a66_f577_689e_6307_b905_6825_0a25_6b76_52a1_f0f3_cb4c_fafa_6739_a853_2eae_7556_d75b_a7b7_0893nat);
    assert(0x8b4_34e9_36ed_acb4_4810_f3c7_574f_6055nat * 0x15d_5c09_8741_6139_2178_92b9_bce5_5f46_89a2_dd05_b95f_0d00_50d8_ca81nat == 0xb_e0cd_37e2_ceeb_6eaf_ddca_2053_00bb_b7af_069e_ab7a_7bfb_48bd_7844_7462_e9c7_559f_875b_e0cf_ec6b_78ba_9cd5nat);
    assert(0x5_f066_795f_2ef9_0ea5_6d72_af9b_a937_14c3_0d3d_8990_023d_1421nat * 0x2_0000_0000_0000_0000_0000_0000_0000_0000_0000nat == 0xb_e0cc_f2be_5df2_1d4a_dae5_5f37_526e_2986_1a7b_1320_047a_2842_0000_0000_0000_0000_0000_0000_0000_0000_0000nat);
    lemma_power_known(
        0x3d45_4fd2, 0xc5_4fd2, 121, 0x2_0000_0000_0000_0000_0000_0000_0000_0000_0000nat,
        76025, 0x1_8fa3_f5c5_89a9,
        0x2_6fe0_8120_a89d_cd20_a220_5191nat,
        269025, 0x45_2c59_9066_9ca1,
        0x12b0_eff6_c049_6d6d_d948_5020_9d41nat,
        0x2_604f_c547_e1c9, 0x5_a57b_01f0_cadf_cfbc_5ea0_efd1nat,
        0x2_604f_cb72_6059, 0x5_a57b_1f3e_7bec_ced5_1986_def1nat,
    );
}

/// Code 63.
proof fn lemma_entry_63()
    ensures
        nearest_to_power(0x3d4b_991d, 77025, 269025),
{
    lemma_fifth_powers_of_two();
    assert(77025nat * 77025 * 77025 == 0x1_9f9e_7098_52a1);
    assert(0x1_9f9e_7098_52a1 * 0x1_9f9e_7098_52a1 == 0x2_a2c3_131d_0971_9fab_19db_8941nat);
    assert(0x197_3239 * 0x197_3239 == 0x2_87b0_bb18_50b1);
    assert(0x2_87b0_bb18_50b1 * 0x2_87b0_bb18_50b1 == 0x6_66ae_cbb6_b20a_2991_d09f_1a61nat);
    assert(0x197_323b * 0x197_323b == 0x2_87b0_c175_1999);
    assert(0x2_87b0_c175_1999 * 0x2_87b0_c175_1999 == 0x6_66ae_ebe8_7a98_5689_1a69_3d71nat);
    assert(269025nat * 269025 * 269025 == 0x45_2c59_9066_9ca1);
    assert(0x45_2c59_9066_9ca1 * 0x45_2c59_9066_9ca1 == 0x12b0_eff6_c049_6d6d_d948_5020_9d41nat);
    assert(0x12b0_eff6_c049_6d6d_d948_5020_9d41nat * 0x12b0_eff6_c049_6d6d_d948_5020_9d41nat == 0x15d_5c09_8741_6139_2178_92b9_bce5_5f46_89a2_dd05_b95f_0d00_50d8_ca81nat);
    assert(0x2_a2c3_131d_0971_9fab_19db_8941nat * 0x2_a2c3_131d_0971_9fab_19db_8941nat == 0x6_f287_c54b_0564_028c_349c_2570_2f96_fea9_ffc6_b7e8_d0cc_a281nat);
    assert(0x6_66ae_cbb6_b20a_2991_d09f_1a61nat * 0x197_3239 == 0xa2e_8160_e02a_189b_b734_6929_76ca_d199nat);
    assert(0x6_66ae_ebe8_7a98_5689_1a69_3d71nat * 0x197_323b == 0xa2e_81a0_e2fe_aeb7_95fb_b612_52e8_3b0bnat);
    assert(0xa2e_8160_e02a_189b_b734_6929_76ca_d199nat * 0x15d_5c09_8741_6139_2178_92b9_bce5_5f46_89a2_dd05_b95f_0d00_50d8_ca81nat == 0xd_e50f_7894_1641_6320_013f_e938_b4a8_9244_f2a5_7fbc_ed08_91e2_a57e_3876_595d_2c90_28dd_01eb_1741_8eae_5819nat);
    assert(0xa2e_81a0_e2fe_aeb7_95fb_b612_52e8_3b0bnat * 0x15d_5c09_8741_6139_2178_92b9_bce5_5f46_89a2_dd05_b95f_0d00_50d8_ca81nat == 0xd_e50f_cfee_f578_5861_247c_939a_3ce1_8cc7_5799_1734_ce65_0c1b_5bb5_e919_9cc4_1265_4768_31f4_4a0c_46e4_6e8bnat);
    assert(0x6_f287_c54b_0564_028c_349c_2570_2f96_fea9_ffc6_b7e8_d0cc_a281nat * 0x2_0000_0000_0000_0000_0000_0000_0000_0000_0000nat == 0xd_e50f_8a96_0ac8_0518_6938_4ae0_5f2d_fd53_ff8d_6fd1_a199_4502_0000_0000_0000_0000_0000_0000_0000_0000_0000nat);
    lemma_power_known(
        0x3d4b_991d, 0xcb_991d, 121, 0x2_0000_0000_0000_0000_0000_0000_0000_0000_0000nat,
        77025, 0x1_9f9e_7098_52a1,
        0x2_a2c3_131d_0971_9fab_19db_8941nat,
        269025, 0x45_2c59_9066_9ca1,
        0x12b0_eff6_c049_6d6d_d948_5020_9d41nat,
        0x2_87b0_bb18_50b1, 0x6_66ae_cbb6_b20a_2991_d09f_1a61nat,
        0x2_87b0_c175_1999, 0x6_66ae_ebe8_7a98_5689_1a69_3d71nat,
    );
}

/// Code 64.
proof fn lemma_entry_64()
    ensures
        nearest_to_power(0x3d51_ffec, 78025, 269025),
{
    lemma_fifth_powers_of_two();
    assert(78025nat * 78025 * 78025 == 0x1_b004_85b4_7919);
    assert(0x1_b004_85b4_7919 * 0x1_b004_85b4_7919 == 0x2_d90f_4355_8c2d_2dd6_7e70_a471nat);
    assert(0x1a3_ffd7 * 0x1a3_ffd7 == 0x2_b10f_7978_0691);
    assert(0x2_b10f_7978_0691 * 0x2_b10f_7978_0691 == 0x7_3eb4_4cc7_890b_f579_3a1b_1e21nat);
    assert(0x1a3_ffd9 * 0x1a3_ffd9 == 0x2_b10f_8008_05f1);
    assert(0x2_b10f_8008_05f1 * 0x2_b10f_8008_05f1 == 0x7_3eb4_701b_70f3_fa6f_5f33_4ce1nat);
    assert(269025nat * 269025 * 269025 == 0x45_2c59_9066_9ca1);
    assert(0x45_2c59_9066_9ca1 * 0x45_2c59_9066_9ca1 == 0x12b0_eff6_c049_6d6d_d948_5020_9d41nat);
    assert(0x12b0_eff6_c049_6d6d_d948_5020_9d41nat * 0x12b0_eff6_c049_6d6d_d948_5020_9d41nat == 0x15d_5c09_8741_6139_2178_92b9_bce5_5f46_89a2_dd05_b95f_0d00_50d8_ca81nat);
    assert(0x2_d90f_4355_8c2d_2dd6_7e70_a471nat * 0x2_d90f_4355_8c2d_2dd6_7e70_a471nat == 0x8_1c47_ee66_2e15_a051_0400_8279_8407_1caa_a44f_ba5b_8880_f9e1nat);
    assert(0x7_3eb4_4cc7_890b_f579_3a1b_1e21nat * 0x1a3_ffd7 == 0xbe2_dea4_ec7c_8ba9_c7f9_0413_1fcc_2cb7nat);
    assert(0x7_3eb4_701b_70f3_fa6f_5f33_4ce1nat * 0x1a3_ffd9 == 0xbe2_deed_5f88_3c18_a98d_0932_a053_49b9nat);
    assert(0xbe2_dea4_ec7c_8ba9_c7f9_0413_1fcc_2cb7nat * 0x15d_5c09_8741_6139_2178_92b9_bce5_5f46_89a2_dd05_b95f_0d00_50d8_ca81nat == 0x10_388f_801b_2b1a_970b_2cc5_8cfe_00b4_799a_e3f5_f8fc_b52b_7782_7b04_c949_adf1_6d62_0ffe_e0f3_11f9_0b92_ee37nat);
    assert(0xbe2_deed_5f88_3c18_a98d_0932_a053_49b9nat * 0x15d_5c09_8741_6139_2178_92b9_bce5_5f46_89a2_dd05_b95f_0d00_50d8_ca81nat == 0x10_388f_e2fa_0e14_a431_a44c_7280_500b_94b4_9bda_19f7_beb5_6009_d205_da3e_a174_e651_4706_958a_4754_863c_2039nat);
    assert(0x8_1c47_ee66_2e15_a051_0400_8279_8407_1caa_a44f_ba5b_8880_f9e1nat * 0x2_0000_0000_0000_0000_0000_0000_0000_0000_0000nat == 0x10_388f_dccc_5c2b_40a2_0801_04f3_080e_3955_489f_74b7_1101_f3c2_0000_0000_0000_0000_0000_0000_0000_0000_0000nat);
    lemma_power_known(
        0x3d51_ffec, 0xd1_ffec, 121, 0x2_0000_0000_0000_0000_0000_0000_0000_0000_0000nat,
        78025, 0x1_b004_85b4_7919,
        0x2_d90f_4355_8c2d_2dd6_7e70_a471nat,
        269025, 0x45_2c59_9066_9ca1,
        0x12b0_eff6_c049_6d6d_d948_5020_9d41nat,
        0x2_b10f_7978_0691, 0x7_3eb4_4cc7_890b_f579_3a1b_1e21nat,
        0x2_b10f_8008_05f1, 0x7_3eb4_701b_70f3_fa6f_5f33_4ce1nat,
    );
}

/// Code 65.
proof fn lemma_entry_65()
    ensures
        nearest_to_power(0x3d58_8468, 79025, 269025),
{
    lemma_fifth_powers_of_two();
    assert(79025nat * 79025 * 79025 == 0x1_c0d7_9aba_b911);
    assert(0x1_c0d7_9aba_b911 * 0x1_c0d7_9aba_b911 == 0x3_12f3_5322_cae3_8967_e67d_9321nat);
    assert(0x1b1_08cf * 0x1b1_08cf == 0x2_dc7e_cc8b_9761);
    assert(0x2_dc7e_cc8b_9761 * 0x2_dc7e_cc8b_9761 == 0x8_2fe5_608c_468a_80dc_54d9_92c1nat);
    assert(0x1b1_08d1 * 0x1b1_08d1 == 0x2_dc7e_d34f_baa1);
    assert(0x2_dc7e_d34f_baa1 * 0x2_dc7e_d34f_baa1 == 0x8_2fe5_8744_a430_f4f6_1d6c_5941nat);
    assert(269025nat * 269025 * 269025 == 0x45_2c59_9066_9ca1);
    assert(0x45_2c59_9066_9ca1 * 0x45_2c59_9066_9ca1 == 0x12b0_eff6_c049_6d6d_d948_5020_9d41nat);
    assert(0x12b0_eff6_c049_6d6d_d948_5020_9d41nat * 0x12b0_eff6_c049_6d6d_d948_5020_9d41nat == 0x15d_5c09_8741_6139_2178_92b9_bce5_5f46_89a2_dd05_b95f_0d00_50d8_ca81nat);
    assert(0x3_12f3_5322_cae3_8967_e67d_9321nat * 0x3_12f3_5322_cae3_8967_e67d_9321nat == 0x9_731b_11c8_94e9_f802_eef0_6bff_8b29_c884_b091_9886_4ec8_ea41nat);
    assert(0x8_2fe5_608c_468a_80dc_54d9_92c1nat * 0x1b1_08cf == 0xdd9_4b16_32c0_c3e5_52b0_98d0_a0f4_b20fnat);
    assert(0x8_2fe5_8744_a430_f4f6_1d6c_5941nat * 0x1b1_08d1 == 0xdd9_4b68_11b7_4af9_e7e7_721c_5f2f_e611nat);
    assert(0xdd9_4b16_32c0_c3e5_52b0_98d0_a0f4_b20fnat * 0x15d_5c09_8741_6139_2178_92b9_bce5_5f46_89a2_dd05_b95f_0d00_50d8_ca81nat == 0x12_e635_f833_eed7_50da_3b6c_be8a_f3da_6826_5633_04a4_22cf_5e95_a419_7712_8386_2986_3382_7d81_a93d_1c75_8f8fnat);
    assert(0xdd9_4b68_11b7_4af9_e7e7_721c_5f2f_e611nat * 0x15d_5c09_8741_6139_2178_92b9_bce5_5f46_89a2_dd05_b95f_0d00_50d8_ca81nat == 0x12_e636_67ee_541a_289c_8220_d91c_0dc2_7fe9_d164_378f_8b2f_5ae2_c5bd_2014_2770_6944_840e_b958_08b7_3104_5891nat);
    assert(0x9_731b_11c8_94e9_f802_eef0_6bff_8b29_c884_b091_9886_4ec8_ea41nat * 0x2_0000_0000_0000_0000_0000_0000_0000_0000_0000nat == 0x12_e636_2391_29d3_f005_dde0_d7ff_1653_9109_6123_310c_9d91_d482_0000_0000_0000_0000_0000_0000_0000_0000_0000nat);
    lemma_power_known(
        0x3d58_8468, 0xd8_8468, 121, 0x2_0000_0000_0000_0000_0000_0000_0000_0000_0000nat,
        79025, 0x1_c0d7_9aba_b911,
        0x3_12f3_5322_cae3_8967_e67d_9321nat,
        269025, 0x45_2c59_9066_9ca1,
        0x12b0_eff6_c049_6d6d_d948_5020_9d41nat,
        0x2_dc7e_cc8b_9761, 0x8_2fe5_608c_468a_80dc_54d9_92c1nat,
        0x2_dc7e_d34f_baa1, 0x8_2fe5_8744_a430_f4f6_1d6c_5941nat,
    );
}

/// Code 66.
proof fn lemma_entry_66()
    ensures
        nearest_to_power(0x3d5f_26b6, 80025, 269025),
{
    lemma_fifth_powers_of_two();
    assert(80025nat * 80025 * 80025 == 0x1_d219_154b_ce89);
    assert(0x1_d219_154b_ce89 * 0x1_d219_154b_ce89 == 0x3_509f_53fd_267e_a117_24e6_c551nat);
    assert(0x1be_4d6b * 0x1be_4d6b == 0x3_0a11_d83d_8ab9);
    assert(0x3_0a11_d83d_8ab9 * 0x3_0a11_d83d_8ab9 == 0x9_3cd0_7794_7e00_c975_9755_f9b1nat);
    assert(0x1be_4d6d * 0x1be_4d6d == 0x3_0a11_df36_c069);
    assert(0x3_0a11_df36_c069 * 0x3_0a11_df36_c069 == 0x9_3cd0_a1f8_3164_30de_aae9_ab11nat);
    assert(269025nat * 269025 * 269025 == 0x45_2c59_9066_9ca1);
    assert(0x45_2c59_9066_9ca1 * 0x45_2c59_9066_9ca1 == 0x12b0_eff6_c049_6d6d_d948_5020_9d41nat);
    assert(0x12b0_eff6_c049_6d6d_d948_5020_9d41nat * 0x12b0_eff6_c049_6d6d_d948_5020_9d41nat == 0x15d_5c09_8741_6139_2178_92b9_bce5_5f46_89a2_dd05_b95f_0d00_50d8_ca81nat);
    assert(0x3_509f_53fd_267e_a117_24e6_c551nat * 0x3_509f_53fd_267e_a117_24e6_c551nat == 0xa_fd1f_ef96_8f0a_ddd0_a7c1_f204_25cd_7c5a_32b5_0e13_eda1_c3a1nat);
    assert(0x9_3cd0_7794_7e00_c975_9755_f9b1nat * 0x1be_4d6b == 0x101a_be57_73cd_2a55_e1ca_3a74_1f67_99fbnat);
    assert(0x9_3cd0_a1f8_3164_30de_aae9_ab11nat * 0x1be_4d6d == 0x101a_beb3_d3f2_aa15_4e49_8b4f_158f_f33dnat);
    assert(0x101a_be57_73cd_2a55_e1ca_3a74_1f67_99fbnat * 0x15d_5c09_8741_6139_2178_92b9_bce5_5f46_89a2_dd05_b95f_0d00_50d8_ca81nat == 0x15_fa3f_b313_34ab_b0f6_4fed_4bb4_c405_b108_0871_045d_76af_00e4_6bcb_9087_fc82_7e5a_ea8d_bec8_b3d3_ee7c_a57bnat);
    assert(0x101a_beb3_d3f2_aa15_4e49_8b4f_158f_f33dnat * 0x15d_5c09_8741_6139_2178_92b9_bce5_5f46_89a2_dd05_b95f_0d00_50d8_ca81nat == 0x15_fa40_3123_7dc8_8272_c726_2b38_63c9_82f0_51e7_7235_6c73_b657_c3d2_5982_c1cc_4954_0294_646f_e055_beef_b3bdnat);
    assert(0xa_fd1f_ef96_8f0a_ddd0_a7c1_f204_25cd_7c5a_32b5_0e13_eda1_c3a1nat * 0x2_0000_0000_0000_0000_0000_0000_0000_0000_0000nat == 0x15_fa3f_df2d_1e15_bba1_4f83_e408_4b9a_f8b4_656a_1c27_db43_8742_0000_0000_0000_0000_0000_0000_0000_0000_0000nat);
    lemma_power_known(
        0x3d5f_26b6, 0xdf_26b6, 121, 0x2_0000_0000_0000_0000_0000_0000_0000_0000_0000nat,
        80025, 0x1_d219_154b_ce89,
        0x3_509f_53fd_267e_a117_24e6_c551nat,
        269025, 0x45_2c59_9066_9ca1,
        0x12b0_eff6_c049_6d6d_d948_5020_9d41nat,
        0x3_0a11_d83d_8ab9, 0x9_3cd0_7794_7e00_c975_9755_f9b1nat,
        0x3_0a11_df36_c069, 0x9_3cd0_a1f8_3164_30de_aae9_ab11nat,
    );
}

/// Code 67.
proof fn lemma_entry_67()
    ensures
        nearest_to_power(0x3d65_e6fd, 81025, 269025),
{
    lemma_fifth_powers_of_two();
    assert(81025nat * 81025 * 81025 == 0x1_e3ca_5b08_7581);
    assert(0x1_e3ca_5b08_7581 * 0x1_e3ca_5b08_7581 == 0x3_9245_3375_b51d_3965_43ff_2b01nat);
    assert(0x1cb_cdf9 * 0x1cb_cdf9 == 0x3_39dc_409e_bc31);
    assert(0x3_39dc_409e_bc31 * 0x3_39dc_409e_bc31 == 0xa_683d_55fe_3a17_06bd_56d4_0161nat);
    assert(0x1cb_cdfb * 0x1cb_cdfb == 0x3_39dc_47cd_f419);
    assert(0x3_39dc_47cd_f419 * 0x3_39dc_47cd_f419 == 0xa_683d_8458_ed68_900e_b6c9_aa71nat);
    assert(269025nat * 269025 * 269025 == 0x45_2c59_9066_9ca1);
    assert(0x45_2c59_9066_9ca1 * 0x45_2c59_9066_9ca1 == 0x12b0_eff6_c049_6d6d_d948_5020_9d41nat);
    assert(0x12b0_eff6_c049_6d6d_d948_5020_9d41nat * 0x12b0_eff6_c049_6d6d_d948_5020_9d41nat == 0x15d_5c09_8741_6139_2178_92b9_bce5_5f46_89a2_dd05_b95f_0d00_50d8_ca81nat);
    assert(0x3_9245_3375_b51d_3965_43ff_2b01nat * 0x3_9245_3375_b51d_3965_43ff_2b01nat == 0xc_c132_3629_4910_6be0_bbd7_dcc7_64e0_2fdf_82c7_efa3_3937_5601nat);
    assert(0xa_683d_55fe_3a17_06bd_56d4_0161nat * 0x1cb_cdf9 == 0x12b1_4591_b057_6014_0645_dacf_b23b_0459nat);
    assert(0xa_683d_8458_ed68_900e_b6c9_aa71nat * 0x1cb_cdfb == 0x12b1_45f9_c2bd_a3c7_cb42_c261_4dd1_99cbnat);
    assert(0x12b1_4591_b057_6014_0645_dacf_b23b_0459nat * 0x15d_5c09_8741_6139_2178_92b9_bce5_5f46_89a2_dd05_b95f_0d00_50d8_ca81nat == 0x19_8264_3eb9_7668_6a28_5313_0116_f096_6473_7bb9_88ac_8f8e_6170_4d41_0389_1799_c6e8_9730_bc0b_7d72_dc43_6ad9nat);
    assert(0x12b1_45f9_c2bd_a3c7_cb42_c261_4dd1_99cbnat * 0x15d_5c09_8741_6139_2178_92b9_bce5_5f46_89a2_dd05_b95f_0d00_50d8_ca81nat == 0x19_8264_ccbf_f64f_1870_fbd4_f40a_8c92_4ddf_0881_b787_2573_4915_f61c_92c9_53cd_a86d_14f8_ee94_3258_cd40_ad4bnat);
    assert(0xc_c132_3629_4910_6be0_bbd7_dcc7_64e0_2fdf_82c7_efa3_3937_5601nat * 0x2_0000_0000_0000_0000_0000_0000_0000_0000_0000nat == 0x19_8264_6c52_9220_d7c1_77af_b98e_c9c0_5fbf_058f_df46_726e_ac02_0000_0000_0000_0000_0000_0000_0000_0000_0000nat);
    lemma_power_known(
        0x3d65_e6fd, 0xe5_e6fd, 121, 0x2_0000_0000_0000_0000_0000_0000_0000_0000_0000nat,
        81025, 0x1_e3ca_5b08_7581,
        0x3_9245_3375_b51d_3965_43ff_2b01nat,
        269025, 0x45_2c59_9066_9ca1,
        0x12b0_eff6_c049_6d6d_d948_5020_9d41nat,
        0x3_39dc_409e_bc31, 0xa_683d_55fe_3a17_06bd_56d4_0161nat,
        0x3_39dc_47cd_f419, 0xa_683d_8458_ed68_900e_b6c9_aa71nat,
    );
}

/// Code 68.
proof fn lemma_entry_68()
    ensures
        nearest_to_power(0x3d6c_c563, 82025, 269025),
{
    lemma_fifth_powers_of_two();
    assert(82025nat * 82025 * 82025 == 0x1_f5ec_d191_69f9);
    assert(0x1_f5ec_d191_69f9 * 0x1_f5ec_d191_69f9 == 0x3_d818_c756_3872_beb9_c9f0_3431nat);
    assert(0x1d9_8ac5 * 0x1d9_8ac5 == 0x3_6bf2_1732_fb99);
    assert(0x3_6bf2_1732_fb99 * 0x3_6bf2_1732_fb99 == 0xb_b530_cf86_6265_c6a0_bd09_6171nat);
    assert(0x1d9_8ac7 * 0x1d9_8ac7 == 0x3_6bf2_1e99_26b1);
    assert(0x3_6bf2_1e99_26b1 * 0x3_6bf2_1e99_26b1 == 0xb_b531_0228_cbb3_5d54_c16b_0661nat);
    assert(269025nat * 269025 * 269025 == 0x45_2c59_9066_9ca1);
    assert(0x45_2c59_9066_9ca1 * 0x45_2c59_9066_9ca1 == 0x12b0_eff6_c049_6d6d_d948_5020_9d41nat);
    assert(0x12b0_eff6_c049_6d6d_d948_5020_9d41nat * 0x12b0_eff6_c049_6d6d_d948_5020_9d41nat == 0x15d_5c09_8741_6139_2178_92b9_bce5_5f46_89a2_dd05_b95f_0d00_50d8_ca81nat);
    assert(0x3_d818_c756_3872_beb9_c9f0_3431nat * 0x3_d818_c756_3872_beb9_c9f0_3431nat == 0xe_c6fe_7ecc_cd53_d884_614b_d1e9_4ba0_7e45_f593_3e28_d883_f161nat);
    assert(0xb_b530_cf86_6265_c6a0_bd09_6171nat * 0x1d9_8ac5 == 0x15a8_1fde_2db9_f180_9461_c5ed_9087_e5f5nat);
    assert(0xb_b531_0228_cbb3_5d54_c16b_0661nat * 0x1d9_8ac7 == 0x15a8_2053_41a3_09ec_7a56_9be4_d4db_3f67nat);
    assert(0x15a8_1fde_2db9_f180_9461_c5ed_9087_e5f5nat * 0x15d_5c09_8741_6139_2178_92b9_bce5_5f46_89a2_dd05_b95f_0d00_50d8_ca81nat == 0x1d_8dfc_abb2_7e74_757b_cdd4_1eee_1c65_edfe_f57b_4e1e_8347_b1df_b747_23f0_3eb6_93fb_cdf5_72a7_0c47_a6a6_3275nat);
    assert(0x15a8_2053_41a3_09ec_7a56_9be4_d4db_3f67nat * 0x15d_5c09_8741_6139_2178_92b9_bce5_5f46_89a2_dd05_b95f_0d00_50d8_ca81nat == 0x1d_8dfd_4b78_babe_13f3_5fc7_0d0c_f223_fd00_ce53_e284_af48_8a1a_ea3d_e942_7d7b_4899_177d_20b0_7611_f16a_38e7nat);
    assert(0xe_c6fe_7ecc_cd53_d884_614b_d1e9_4ba0_7e45_f593_3e28_d883_f161nat * 0x2_0000_0000_0000_0000_0000_0000_0000_0000_0000nat == 0x1d_8dfc_fd99_9aa7_b108_c297_a3d2_9740_fc8b_eb26_7c51_b107_e2c2_0000_0000_0000_0000_0000_0000_0000_0000_0000nat);
    lemma_power_known(
        0x3d6c_c563, 0xec_c563, 121, 0x2_0000_0000_0000_0000_0000_0000_0000_0000_0000nat,
        82025, 0x1_f5ec_d191_69f9,
        0x3_d818_c756_3872_beb9_c9f0_3431nat,
        269025, 0x45_2c59_9066_9ca1,
        0x12b0_eff6_c049_6d6d_d948_5020_9d41nat,
        0x3_6bf2_1732_fb99, 0xb_b530_cf86_6265_c6a0_bd09_6171nat,
        0x3_6bf2_1e99_26b1, 0xb_b531_0228_cbb3_5d54_c16b_0661nat,
    );
}

/// Code 69.
proof fn lemma_entry_69()
    ensures
        nearest_to_power(0x3d73_c20e, 83025, 269025),
{
    lemma_fifth_powers_of_two();
    assert(83025nat * 83025 * 83025 == 0x2_0881_de87_67f1);
    assert(0x2_0881_de87_67f1 * 0x2_0881_de87_67f1 == 0x4_224f_d9e8_1c28_f0c6_c661_d0e1nat);
    assert(0x1e7_841b * 0x1e7_841b == 0x3_a067_e2e5_dad9);
    assert(0x3_a067_e2e5_dad9 * 0x3_a067_e2e5_dad9 == 0xd_26f1_572a_d0b5_ff66_6750_4bf1nat);
    assert(0x1e7_841d * 0x1e7_841d == 0x3_a067_ea83_eb49);
    assert(0x3_a067_ea83_eb49 * 0x3_a067_ea83_eb49 == 0xd_26f1_8e6a_f6ce_02da_18f5_1ad1nat);
    assert(269025nat * 269025 * 269025 == 0x45_2c59_9066_9ca1);
    assert(0x45_2c59_9066_9ca1 * 0x45_2c59_9066_9ca1 == 0x12b0_eff6_c049_6d6d_d948_5020_9d41nat);
    assert(0x12b0_eff6_c049_6d6d_d948_5020_9d41nat * 0x12b0_eff6_c049_6d6d_d948_5020_9d41nat == 0x15d_5c09_8741_6139_2178_92b9_bce5_5f46_89a2_dd05_b95f_0d00_50d8_ca81nat);
    assert(0x4_224f_d9e8_1c28_f0c6_c661_d0e1nat * 0x4_224f_d9e8_1c28_f0c6_c661_d0e1nat == 0x11_1718_1e0a_bf7f_19a0_0fed_52b3_b03e_bc61_5f00_7088_00f0_65c1nat);
    assert(0xd_26f1_572a_d0b5_ff66_6750_4bf1nat * 0x1e7_841b == 0x190b_de94_5ed9_4f5a_b6b1_46d2_c417_466bnat);
    assert(0xd_26f1_8e6a_f6ce_02da_18f5_1ad1nat * 0x1e7_841d == 0x190b_df17_e447_cb47_9bb4_41d9_392e_cdadnat);
    assert(0x190b_de94_5ed9_4f5a_b6b1_46d2_c417_466bnat * 0x15d_5c09_8741_6139_2178_92b9_bce5_5f46_89a2_dd05_b95f_0d00_50d8_ca81nat == 0x22_2e2f_a2e9_1b75_74c5_3c21_879e_9231_f947_d4b1_84f4_1f6f_532c_0704_3c48_8612_e939_2626_339c_2794_0792_e9ebnat);
    assert(0x190b_df17_e447_cb47_9bb4_41d9_392e_cdadnat * 0x15d_5c09_8741_6139_2178_92b9_bce5_5f46_89a2_dd05_b95f_0d00_50d8_ca81nat == 0x22_2e30_5665_4bed_4919_0623_075b_9684_4fc5_9e45_5f01_362d_b4d9_f35a_203c_7b40_66e1_14e5_db96_3e58_58d8_262dnat);
    assert(0x11_1718_1e0a_bf7f_19a0_0fed_52b3_b03e_bc61_5f00_7088_00f0_65c1nat * 0x2_0000_0000_0000_0000_0000_0000_0000_0000_0000nat == 0x22_2e30_3c15_7efe_3340_1fda_a567_607d_78c2_be00_e110_01e0_cb82_0000_0000_0000_0000_0000_0000_0000_0000_0000nat);
    lemma_power_known(
        0x3d73_c20e, 0xf3_c20e, 121, 0x2_0000_0000_0000_0000_0000_0000_0000_0000_0000nat,
        83025, 0x2_0881_de87_67f1,
        0x4_224f_d9e8_1c28_f0c6_c661_d0e1nat,
        269025, 0x45_2c59_9066_9ca1,
        0x12b0_eff6_c049_6d6d_d948_5020_9d41nat,
        0x3_a067_e2e5_dad9, 0xd_26f1_572a_d0b5_ff66_6750_4bf1nat,
        0x3_a067_ea83_eb49, 0xd_26f1_8e6a_f6ce_02da_18f5_1ad1nat,
    );
}

/// Code 70.
proof fn lemma_entry_70()
    ensures
        nearest_to_power(0x3d7a_dd24, 84025, 269025),
{
    lemma_fifth_powers_of_two();
    assert(84025nat * 84025 * 84025 == 0x2_1b8a_e78b_2b69);
    assert(0x2_1b8a_e78b_2b69 * 0x2_1b8a_e78b_2b69 == 0x4_7122_3662_7c43_6733_a962_7111nat);
    assert(0x1f5_ba47 * 0x1f5_ba47 == 0x3_d752_a171_3fb1);
    assert(0x3_d752_a171_3fb1 * 0x3_d752_a171_3fb1 == 0xe_c10b_ae7f_897d_bf99_ec1a_9861nat);
    assert(0x1f5_ba49 * 0x1f5_ba49 == 0x3_d752_a948_28d1);
    assert(0x3_d752_a948_28d1 * 0x3_d752_a948_28d1 == 0xe_c10b_eab9_0b9f_8e1e_ee11_faa1nat);
    assert(269025nat * 269025 * 269025 == 0x45_2c59_9066_9ca1);
    assert(0x45_2c59_9066_9ca1 * 0x45_2c59_9066_9ca1 == 0x12b0_eff6_c049_6d6d_d948_5020_9d41nat);
    assert(0x12b0_eff6_c049_6d6d_d948_5020_9d41nat * 0x12b0_eff6_c049_6d6d_d948_5020_9d41nat == 0x15d_5c09_8741_6139_2178_92b9_bce5_5f46_89a2_dd05_b95f_0d00_50d8_ca81nat);
    assert(0x4_7122_3662_7c43_6733_a962_7111nat * 0x4_7122_3662_7c43_6733_a962_7111nat == 0x13_bb10_eba9_5185_6ef0_1fcb_9b3b_7c52_60cd_cb2d_d9e9_34f4_0321nat);
    assert(0xe_c10b_ae7f_897d_bf99_ec1a_9861nat * 0x1f5_ba47 == 0x1cea_8836_869e_225c_7751_0948_03eb_bce7nat);
    assert(0xe_c10b_eab9_0b9f_8e1e_ee11_faa1nat * 0x1f5_ba49 == 0x1cea_88ca_1114_2077_6049_e8fa_704e_71e9nat);
    assert(0x1cea_8836_869e_225c_7751_0948_03eb_bce7nat * 0x15d_5c09_8741_6139_2178_92b9_bce5_5f46_89a2_dd05_b95f_0d00_50d8_ca81nat == 0x27_7621_0ece_f83d_1069_8317_f668_6de8_5f76_32fe_acd1_501a_c1f5_4a6a_137b_8fec_d8fd_d9b8_6876_3551_8fc0_7667nat);
    assert(0x1cea_88ca_1114_2077_6049_e8fa_704e_71e9nat * 0x15d_5c09_8741_6139_2178_92b9_bce5_5f46_89a2_dd05_b95f_0d00_50d8_ca81nat == 0x27_7621_d827_c658_b443_2266_175f_0532_480c_f360_699b_191a_46f0_0292_7fc7_b043_10d0_58fb_4fbb_1d99_6a01_4069nat);
    assert(0x13_bb10_eba9_5185_6ef0_1fcb_9b3b_7c52_60cd_cb2d_d9e9_34f4_0321nat * 0x2_0000_0000_0000_0000_0000_0000_0000_0000_0000nat == 0x27_7621_d752_a30a_dde0_3f97_3676_f8a4_c19b_965b_b3d2_69e8_0642_0000_0000_0000_0000_0000_0000_0000_0000_0000nat);
    lemma_power_known(
        0x3d7a_dd24, 0xfa_dd24, 121, 0x2_0000_0000_0000_0000_0000_0000_0000_0000_0000nat,
        84025, 0x2_1b8a_e78b_2b69,
        0x4_7122_3662_7c43_6733_a962_7111nat,
        269025, 0x45_2c59_9066_9ca1,
        0x12b0_eff6_c049_6d6d_d948_5020_9d41nat,
        0x3_d752_a171_3fb1, 0xe_c10b_ae7f_897d_bf99_ec1a_9861nat,
        0x3_d752_a948_28d1, 0xe_c10b_eab9_0b9f_8e1e_ee11_faa1nat,
    );
}

/// Code 71.
proof fn lemma_entry_71()
    ensures
        nearest_to_power(0x3d81_0b65, 85025, 269025),
{
    lemma_fifth_powers_of_two();
    assert(85025nat * 85025 * 85025 == 0x2_2f09_523d_7061);
    assert(0x2_2f09_523d_7061 * 0x2_2f09_523d_7061 == 0x4_c4c9_b57f_3384_ef8e_e38f_04c1nat);
    assert(0x102_16c9 * 0x102_16c9 == 0x1_0431_ef2b_29d1);
    assert(0x1_0431_ef2b_29d1 * 0x1_0431_ef2b_29d1 == 0x1_0875_778d_1ae8_295d_510a_9ca1nat);
    assert(0x102_16cb * 0x102_16cb == 0x1_0431_f333_84f9);
    assert(0x1_0431_f333_84f9 * 0x1_0431_f333_84f9 == 0x1_0875_7fbf_a6dd_8820_f647_ba31nat);
    assert(269025nat * 269025 * 269025 == 0x45_2c59_9066_9ca1);
    assert(0x45_2c59_9066_9ca1 * 0x45_2c59_9066_9ca1 == 0x12b0_eff6_c049_6d6d_d948_5020_9d41nat);
    assert(0x12b0_eff6_c049_6d6d_d948_5020_9d41nat * 0x12b0_eff6_c049_6d6d_d948_5020_9d41nat == 0x15d_5c09_8741_6139_2178_92b9_bce5_5f46_89a2_dd05_b95f_0d00_50d8_ca81nat);
    assert(0x4_c4c9_b57f_3384_ef8e_e38f_04c1nat * 0x4_c4c9_b57f_3384_ef8e_e38f_04c1nat == 0x16_bd93_28d2_e577_1018_3a50_75ed_dde3_6586_14d8_9670_95b4_9981nat);
    assert(0x1_0875_778d_1ae8_295d_510a_9ca1nat * 0x102_16c9 == 0x10a_9dec_38b6_1c13_c3e2_2bed_650c_d069nat);
    assert(0x1_0875_7fbf_a6dd_8820_f647_ba31nat * 0x102_16cb == 0x10a_9df6_8d4c_f093_8c95_fb97_1a42_dadbnat);
    assert(0x10a_9dec_38b6_1c13_c3e2_2bed_650c_d069nat * 0x15d_5c09_8741_6139_2178_92b9_bce5_5f46_89a2_dd05_b95f_0d00_50d8_ca81nat == 0x1_6bd9_25b6_9f52_a3a9_187c_856b_ff3c_7436_65f6_a328_1610_332b_d9ce_c2b9_6c0e_97c6_3aa1_4a0f_0d4c_b07f_dee9nat);
    assert(0x10a_9df6_8d4c_f093_8c95_fb97_1a42_dadbnat * 0x15d_5c09_8741_6139_2178_92b9_bce5_5f46_89a2_dd05_b95f_0d00_50d8_ca81nat == 0x1_6bd9_33cf_a7ba_f8c8_0af3_f9e2_db7e_60fc_c2b9_9f03_a54d_c25c_925f_edf0_5360_1aae_3507_8f2e_2daa_1529_165bnat);
    assert(0x16_bd93_28d2_e577_1018_3a50_75ed_dde3_6586_14d8_9670_95b4_9981nat * 0x1000_0000_0000_0000_0000_0000_0000_0000_0000nat == 0x1_6bd9_328d_2e57_7101_83a5_075e_ddde_3658_614d_8967_095b_4998_1000_0000_0000_0000_0000_0000_0000_0000_0000nat);
    lemma_power_known(
        0x3d81_0b65, 0x81_0b65, 122, 0x1000_0000_0000_0000_0000_0000_0000_0000_0000nat,
        85025, 0x2_2f09_523d_7061,
        0x4_c4c9_b57f_3384_ef8e_e38f_04c1nat,
        269025, 0x45_2c59_9066_9ca1,
        0x12b0_eff6_c049_6d6d_d948_5020_9d41nat,
        0x1_0431_ef2b_29d1, 0x1_0875_778d_1ae8_295d_510a_9ca1nat,
        0x1_0431_f333_84f9, 0x1_0875_7fbf_a6dd_8820_f647_ba31nat,
    );
}

/// Code 72.
proof fn lemma_entry_72()
    ensures
        nearest_to_power(0x3d84_b793, 86025, 269025),
{
    lemma_fifth_powers_of_two();
    assert(86025nat * 86025 * 86025 == 0x2_42fe_843e_f2d9);
    assert(0x2_42fe_843e_f2d9 * 0x2_42fe_843e_f2d9 == 0x5_1d82_4a36_f1d6_c486_4f7a_fbf1nat);
    assert(0x109_6f25 * 0x109_6f25 == 0x1_1337_4adb_1b59);
    assert(0x1_1337_4adb_1b59 * 0x1_1337_4adb_1b59 == 0x1_27df_d6c3_fcca_5d95_4131_e4f1nat);
    assert(0x109_6f27 * 0x109_6f27 == 0x1_1337_4f00_d7f1);
    assert(0x1_1337_4f00_d7f1 * 0x1_1337_4f00_d7f1 == 0x1_27df_dfae_daae_14d5_7426_b0e1nat);
    assert(269025nat * 269025 * 269025 == 0x45_2c59_9066_9ca1);
    assert(0x45_2c59_9066_9ca1 * 0x45_2c59_9066_9ca1 == 0x12b0_eff6_c049_6d6d_d948_5020_9d41nat);
    assert(0x12b0_eff6_c049_6d6d_d948_5020_9d41nat * 0x12b0_eff6_c049_6d6d_d948_5020_9d41nat == 0x15d_5c09_8741_6139_2178_92b9_bce5_5f46_89a2_dd05_b95f_0d00_50d8_ca81nat);
    assert(0x5_1d82_4a36_f1d6_c486_4f7a_fbf1nat * 0x5_1d82_4a36_f1d6_c486_4f7a_fbf1nat == 0x1a_2a7d_ad45_5a7f_c380_35e7_0e35_255d_fdd0_9821_eadf_d7a6_78e1nat);
    assert(0x1_27df_d6c3_fcca_5d95_4131_e4f1nat * 0x109_6f25 == 0x132_c72a_2259_b26a_2753_ba7d_0bf3_95d5nat);
    assert(0x1_27df_dfae_daae_14d5_7426_b0e1nat * 0x109_6f27 == 0x132_c735_b118_42a8_5c82_f5ee_917f_8147nat);
    assert(0x132_c72a_2259_b26a_2753_ba7d_0bf3_95d5nat * 0x15d_5c09_8741_6139_2178_92b9_bce5_5f46_89a2_dd05_b95f_0d00_50d8_ca81nat == 0x1_a2a7_cf6f_0e7b_f7ba_7a6e_3e0b_dc1e_90e6_896d_b586_241f_7a01_2248_73cb_a2ef_f03d_a1e2_353c_a9ca_35b0_9255nat);
    assert(0x132_c735_b118_42a8_5c82_f5ee_917f_8147nat * 0x15d_5c09_8741_6139_2178_92b9_bce5_5f46_89a2_dd05_b95f_0d00_50d8_ca81nat == 0x1_a2a7_df34_d001_384c_893d_0d9a_01e9_374f_65a3_e761_2c90_b0f2_9d61_3730_08aa_45f9_7cb3_c4b8_6301_312a_2ac7nat);
    assert(0x1a_2a7d_ad45_5a7f_c380_35e7_0e35_255d_fdd0_9821_eadf_d7a6_78e1nat * 0x1000_0000_0000_0000_0000_0000_0000_0000_0000nat == 0x1_a2a7_dad4_55a7_fc38_035e_70e3_5255_dfdd_0982_1ead_fd7a_678e_1000_0000_0000_0000_0000_0000_0000_0000_0000nat);
    lemma_power_known(
        0x3d84_b793, 0x84_b793, 122, 0x1000_0000_0000_0000_0000_0000_0000_0000_0000nat,
        86025, 0x2_42fe_843e_f2d9,
        0x5_1d82_4a36_f1d6_c486_4f7a_fbf1nat,
        269025, 0x45_2c59_9066_9ca1,
        0x12b0_eff6_c049_6d6d_d948_5020_9d41nat,
        0x1_1337_4adb_1b59, 0x1_27df_d6c3_fcca_5d95_4131_e4f1nat,
        0x1_1337_4f00_d7f1, 0x1_27df_dfae_daae_14d5_7426_b0e1nat,
    );
}

/// Code 73.
proof fn lemma_entry_73()
    ensures
        nearest_to_power(0x3d88_732e, 87025, 269025),
{
    lemma_fifth_powers_of_two();
    assert(87025nat * 87025 * 87025 == 0x2_576b_e330_6ed1);
    assert(0x2_576b_e330_6ed1 * 0x2_576b_e330_6ed1 == 0x5_7b8a_0ea4_5ab1_9e66_6458_46a1nat);
    assert(0x110_e65b * 0x110_e65b == 0x1_22ea_50a7_a459);
    assert(0x1_22ea_50a7_a459 * 0x1_22ea_50a7_a459 == 0x1_4a97_b533_5c3b_4b33_75a0_26f1nat);
    assert(0x110_e65d * 0x110_e65d == 0x1_22ea_54eb_3dc9);
    assert(0x1_22ea_54eb_3dc9 * 0x1_22ea_54eb_3dc9 == 0x1_4a97_bee4_5233_902a_65ef_67d1nat);
    assert(269025nat * 269025 * 269025 == 0x45_2c59_9066_9ca1);
    assert(0x45_2c59_9066_9ca1 * 0x45_2c59_9066_9ca1 == 0x12b0_eff6_c049_6d6d_d948_5020_9d41nat);
    assert(0x12b0_eff6_c049_6d6d_d948_5020_9d41nat * 0x12b0_eff6_c049_6d6d_d948_5020_9d41nat == 0x15d_5c09_8741_6139_2178_92b9_bce5_5f46_89a2_dd05_b95f_0d00_50d8_ca81nat);
    assert(0x5_7b8a_0ea4_5ab1_9e66_6458_46a1nat * 0x5_7b8a_0ea4_5ab1_9e66_6458_46a1nat == 0x1e_0f02_86f1_441f_0924_d74b_4a1b_7e8f_7ad3_f37e_19ea_6a2c_7141nat);
    assert(0x1_4a97_b533_5c3b_4b33_75a0_26f1nat * 0x110_e65b == 0x160_6aaa_574b_8d1e_f550_f122_12fa_5dabnat);
    assert(0x1_4a97_bee4_5233_902a_65ef_67d1nat * 0x110_e65d == 0x160_6ab7_4138_d195_5d4d_c55a_6d4e_7cednat);
    assert(0x160_6aaa_574b_8d1e_f550_f122_12fa_5dabnat * 0x15d_5c09_8741_6139_2178_92b9_bce5_5f46_89a2_dd05_b95f_0d00_50d8_ca81nat == 0x1_e0f0_1dac_2b9c_5bec_e5ef_9c19_a579_ce04_ae88_b76f_76e4_aadc_9b8d_8a56_b6ae_dbc5_f8b8_a2f3_54a9_965a_212bnat);
    assert(0x160_6ab7_4138_d195_5d4d_c55a_6d4e_7cednat * 0x15d_5c09_8741_6139_2178_92b9_bce5_5f46_89a2_dd05_b95f_0d00_50d8_ca81nat == 0x1_e0f0_2f4b_b89f_01f3_0b02_f0fc_fb4c_a09c_0b19_ad89_a048_ff34_f272_bbb9_c5ea_861d_68c3_c5a9_9714_7b17_f56dnat);
    assert(0x1e_0f02_86f1_441f_0924_d74b_4a1b_7e8f_7ad3_f37e_19ea_6a2c_7141nat * 0x1000_0000_0000_0000_0000_0000_0000_0000_0000nat == 0x1_e0f0_286f_1441_f092_4d74_b4a1_b7e8_f7ad_3f37_e19e_a6a2_c714_1000_0000_0000_0000_0000_0000_0000_0000_0000nat);
    lemma_power_known(
        0x3d88_732e, 0x88_732e, 122, 0x1000_0000_0000_0000_0000_0000_0000_0000_0000nat,
        87025, 0x2_576b_e330_6ed1,
        0x5_7b8a_0ea4_5ab1_9e66_6458_46a1nat,
        269025, 0x45_2c59_9066_9ca1,
        0x12b0_eff6_c049_6d6d_d948_5020_9d41nat,
        0x1_22ea_50a7_a459, 0x1_4a97_b533_5c3b_4b33_75a0_26f1nat,
        0x1_22ea_54eb_3dc9, 0x1_4a97_bee4_5233_902a_65ef_67d1nat,
    );
}

/// Code 74.
proof fn lemma_entry_74()
    ensures
        nearest_to_power(0x3d8c_3e48, 88025, 269025),
{
    lemma_fifth_powers_of_two();
    assert(88025nat * 88025 * 88025 == 0x2_6c52_d4b2_a049);
    assert(0x2_6c52_d4b2_a049 * 0x2_6c52_d4b2_a049 == 0x5_df21_510e_2b88_9ce0_31df_54d1nat);
    assert(0x118_7c8f * 0x118_7c8f == 0x1_3350_b56a_d7e1);
    assert(0x1_3350_b56a_d7e1 * 0x1_3350_b56a_d7e1 == 0x1_70ea_ac90_251c_d47b_a65f_b3c1nat);
    assert(0x118_7c91 * 0x118_7c91 == 0x1_3350_b9cc_ca21);
    assert(0x1_3350_b9cc_ca21 * 0x1_3350_b9cc_ca21 == 0x1_70ea_b715_d3a3_1a96_7630_1841nat);
    assert(269025nat * 269025 * 269025 == 0x45_2c59_9066_9ca1);
    assert(0x45_2c59_9066_9ca1 * 0x45_2c59_9066_9ca1 == 0x12b0_eff6_c049_6d6d_d948_5020_9d41nat);
    assert(0x12b0_eff6_c049_6d6d_d948_5020_9d41nat * 0x12b0_eff6_c049_6d6d_d948_5020_9d41nat == 0x15d_5c09_8741_6139_2178_92b9_bce5_5f46_89a2_dd05_b95f_0d00_50d8_ca81nat);
    assert(0x5_df21_510e_2b88_9ce0_31df_54d1nat * 0x5_df21_510e_2b88_9ce0_31df_54d1nat == 0x22_79c8_3a1a_627f_539e_3907_7731_2313_8dc3_d3fa_670c_e237_d2a1nat);
    assert(0x1_70ea_ac90_251c_d47b_a65f_b3c1nat * 0x118_7c8f == 0x194_342c_7c54_ce07_1944_8e54_e59e_e4cfnat);
    assert(0x1_70ea_b715_d3a3_1a96_7630_1841nat * 0x118_7c91 == 0x194_343a_e57f_c044_f4d4_3512_c415_38d1nat);
    assert(0x194_342c_7c54_ce07_1944_8e54_e59e_e4cfnat * 0x15d_5c09_8741_6139_2178_92b9_bce5_5f46_89a2_dd05_b95f_0d00_50d8_ca81nat == 0x2_279c_7270_e099_ef88_da16_4b46_3895_180e_97bf_630f_dc72_5c85_14f5_2cef_de86_7f7a_addb_04ad_9e88_d444_a24fnat);
    assert(0x194_343a_e57f_c044_f4d4_3512_c415_38d1nat * 0x15d_5c09_8741_6139_2178_92b9_bce5_5f46_89a2_dd05_b95f_0d00_50d8_ca81nat == 0x2_279c_861b_6e7a_ec91_beb7_a746_90ae_6573_f7ca_edfd_b48a_2434_9fa8_4933_d5cd_35db_c68a_a85d_3dd6_cdde_8b51nat);
    assert(0x22_79c8_3a1a_627f_539e_3907_7731_2313_8dc3_d3fa_670c_e237_d2a1nat * 0x1000_0000_0000_0000_0000_0000_0000_0000_0000nat == 0x2_279c_83a1_a627_f539_e390_7773_1231_38dc_3d3f_a670_ce23_7d2a_1000_0000_0000_0000_0000_0000_0000_0000_0000nat);
    lemma_power_known(
        0x3d8c_3e48, 0x8c_3e48, 122, 0x1000_0000_0000_0000_0000_0000_0000_0000_0000nat,
        88025, 0x2_6c52_d4b2_a049,
        0x5_df21_510e_2b88_9ce0_31df_54d1nat,
        269025, 0x45_2c59_9066_9ca1,
        0x12b0_eff6_c049_6d6d_d948_5020_9d41nat,
        0x1_3350_b56a_d7e1, 0x1_70ea_ac90_251c_d47b_a65f_b3c1nat,
        0x1_3350_b9cc_ca21, 0x1_70ea_b715_d3a3_1a96_7630_1841nat,
    );
}

/// Code 75.
proof fn lemma_entry_75()
    ensures
        nearest_to_power(0x3d90_18f4, 89025, 269025),
{
    lemma_fifth_powers_of_two();
    assert(89025nat * 89025 * 89025 == 0x2_81b4_be66_4341);
    assert(0x2_81b4_be66_4341 * 0x2_81b4_be66_4341 == 0x6_488a_a118_6a36_0a16_2577_1681nat);
    assert(0x120_31e7 * 0x120_31e7 == 0x1_4470_517a_3e71);
    assert(0x1_4470_517a_3e71 * 0x1_4470_517a_3e71 == 0x1_9b2c_7f84_d2f3_40c3_14ee_ede1nat);
    assert(0x120_31e9 * 0x120_31e9 == 0x1_4470_55fb_0611);
    assert(0x1_4470_55fb_0611 * 0x1_4470_55fb_0611 == 0x1_9b2c_8aee_bfe0_ff0c_2f7a_cd21nat);
    assert(269025nat * 269025 * 269025 == 0x45_2c59_9066_9ca1);
    assert(0x45_2c59_9066_9ca1 * 0x45_2c59_9066_9ca1 == 0x12b0_eff6_c049_6d6d_d948_5020_9d41nat);
    assert(0x12b0_eff6_c049_6d6d_d948_5020_9d41nat * 0x12b0_eff6_c049_6d6d_d948_5020_9d41nat == 0x15d_5c09_8741_6139_2178_92b9_bce5_5f46_89a2_dd05_b95f_0d00_50d8_ca81nat);
    assert(0x6_488a_a118_6a36_0a16_2577_1681nat * 0x6_488a_a118_6a36_0a16_2577_1681nat == 0x27_7b0d_d2d4_c9f9_18e5_256a_fa22_3c7a_a3e8_1621_9613_37e8_6d01nat);
    assert(0x1_9b2c_7f84_d2f3_40c3_14ee_ede1nat * 0x120_31e7 == 0x1ce_e235_fefc_cee3_c45c_53d5_3c40_b707nat);
    assert(0x1_9b2c_8aee_bfe0_ff0c_2f7a_cd21nat * 0x120_31e9 == 0x1ce_e246_0eba_0325_a24e_e154_7d28_0409nat);
    assert(0x1ce_e235_fefc_cee3_c45c_53d5_3c40_b707nat * 0x15d_5c09_8741_6139_2178_92b9_bce5_5f46_89a2_dd05_b95f_0d00_50d8_ca81nat == 0x2_77b0_ce22_89b0_91f0_3a8b_e02a_909e_65a3_b32d_ffe6_9777_32e7_503b_2a27_062e_37cf_144a_6f4f_eacb_0aef_c087nat);
    assert(0x1ce_e246_0eba_0325_a24e_e154_7d28_0409nat * 0x15d_5c09_8741_6139_2178_92b9_bce5_5f46_89a2_dd05_b95f_0d00_50d8_ca81nat == 0x2_77b0_e40d_c4e1_d891_2f70_0b50_94c4_424b_f085_6bc4_0a22_afd7_75ea_23ec_65d7_a6e4_614d_967d_c65a_dbf1_2289nat);
    assert(0x27_7b0d_d2d4_c9f9_18e5_256a_fa22_3c7a_a3e8_1621_9613_37e8_6d01nat * 0x1000_0000_0000_0000_0000_0000_0000_0000_0000nat == 0x2_77b0_dd2d_4c9f_918e_5256_afa2_23c7_aa3e_8162_1961_337e_86d0_1000_0000_0000_0000_0000_0000_0000_0000_0000nat);
    lemma_power_known(
        0x3d90_18f4, 0x90_18f4, 122, 0x1000_0000_0000_0000_0000_0000_0000_0000_0000nat,
        89025, 0x2_81b4_be66_4341,
        0x6_488a_a118_6a36_0a16_2577_1681nat,
        269025, 0x45_2c59_9066_9ca1,
        0x12b0_eff6_c049_6d6d_d948_5020_9d41nat,
        0x1_4470_517a_3e71, 0x1_9b2c_7f84_d2f3_40c3_14ee_ede1nat,
        0x1_4470_55fb_0611, 0x1_9b2c_8aee_bfe0_ff0c_2f7a_cd21nat,
    );
}

/// Code 76.
proof fn lemma_entry_76()
    ensures
        nearest_to_power(0x3d94_0344, 90025, 269025),
{
    lemma_fifth_powers_of_two();
    assert(90025nat * 90025 * 90025 == 0x2_9793_05ec_13b9);
    assert(0x2_9793_05ec_13b9 * 0x2_9793_05ec_13b9 == 0x6_b80a_dd1c_9b69_f6ef_989c_fbb1nat);
    assert(0x128_0687 * 0x128_0687 == 0x1_564f_185a_9b31);
    assert(0x1_564f_185a_9b31 * 0x1_564f_185a_9b31 == 0x1_c9b7_6d82_20e3_d168_ac88_5f61nat);
    assert(0x128_0689 * 0x128_0689 == 0x1_564f_1cfa_b551);
    assert(0x1_564f_1cfa_b551 * 0x1_564f_1cfa_b551 == 0x1_c9b7_79e0_c278_212e_5a9f_a3a1nat);
    assert(269025nat * 269025 * 269025 == 0x45_2c59_9066_9ca1);
    assert(0x45_2c59_9066_9ca1 * 0x45_2c59_9066_9ca1 == 0x12b0_eff6_c049_6d6d_d948_5020_9d41nat);
    assert(0x12b0_eff6_c049_6d6d_d948_5020_9d41nat * 0x12b0_eff6_c049_6d6d_d948_5020_9d41nat == 0x15d_5c09_8741_6139_2178_92b9_bce5_5f46_89a2_dd05_b95f_0d00_50d8_ca81nat);
    assert(0x6_b80a_dd1c_9b69_f6ef_989c_fbb1nat * 0x6_b80a_dd1c_9b69_f6ef_989c_fbb1nat == 0x2d_24d1_fba6_6d96_7202_2f56_9129_2845_4bd2_d102_eba3_e72c_9061nat);
    assert(0x1_c9b7_6d82_20e3_d168_ac88_5f61nat * 0x128_0687 == 0x211_47c2_4ac1_d3ce_d013_5fec_764e_9227nat);
    assert(0x1_c9b7_79e0_c278_212e_5a9f_a3a1nat * 0x128_0689 == 0x211_47d4_2bec_58bd_40a9_a083_6f6c_5729nat);
    assert(0x211_47c2_4ac1_d3ce_d013_5fec_764e_9227nat * 0x15d_5c09_8741_6139_2178_92b9_bce5_5f46_89a2_dd05_b95f_0d00_50d8_ca81nat == 0x2_d24d_1d5c_e6f3_b9f0_6d7e_03d1_7176_bb57_205c_b7b8_85f5_ccfe_ea0c_c23d_310c_e9d2_c044_60d5_4679_1dd2_6ba7nat);
    assert(0x211_47d4_2bec_58bd_40a9_a083_6f6c_5729nat * 0x15d_5c09_8741_6139_2178_92b9_bce5_5f46_89a2_dd05_b95f_0d00_50d8_ca81nat == 0x2_d24d_35c3_4b80_9792_a960_1953_a04b_fcbd_cc4e_4e9b_1993_5fef_1953_a4ec_db1e_9ac2_0752_697d_8bcc_fcf6_45a9nat);
    assert(0x2d_24d1_fba6_6d96_7202_2f56_9129_2845_4bd2_d102_eba3_e72c_9061nat * 0x1000_0000_0000_0000_0000_0000_0000_0000_0000nat == 0x2_d24d_1fba_66d9_6720_22f5_6912_9284_54bd_2d10_2eba_3e72_c906_1000_0000_0000_0000_0000_0000_0000_0000_0000nat);
    lemma_power_known(
        0x3d94_0344, 0x94_0344, 122, 0x1000_0000_0000_0000_0000_0000_0000_0000_0000nat,
        90025, 0x2_9793_05ec_13b9,
        0x6_b80a_dd1c_9b69_f6ef_989c_fbb1nat,
        269025, 0x45_2c59_9066_9ca1,
        0x12b0_eff6_c049_6d6d_d948_5020_9d41nat,
        0x1_564f_185a_9b31, 0x1_c9b7_6d82_20e3_d168_ac88_5f61nat,
        0x1_564f_1cfa_b551, 0x1_c9b7_79e0_c278_212e_5a9f_a3a1nat,
    );
}

/// Code 77.
proof fn lemma_entry_77()
    ensures
        nearest_to_power(0x3d97_fd49, 91025, 269025),
{
    lemma_fifth_powers_of_two();
    assert(91025nat * 91025 * 91025 == 0x2_adef_10e4_cdb1);
    assert(0x2_adef_10e4_cdb1 * 0x2_adef_10e4_cdb1 == 0x7_2de9_3fa9_011a_b0b3_288c_f461nat);
    assert(0x12f_fa91 * 0x12f_fa91 == 0x1_68f3_187d_8621);
    assert(0x1_68f3_187d_8621 * 0x1_68f3_187d_8621 == 0x1_fcec_9bb8_89e1_3958_7280_9041nat);
    assert(0x12f_fa93 * 0x12f_fa93 == 0x1_68f3_1d3d_7069);
    assert(0x1_68f3_1d3d_7069 * 0x1_68f3_1d3d_7069 == 0x1_fcec_a91d_5221_b18c_8d66_0b11nat);
    assert(269025nat * 269025 * 269025 == 0x45_2c59_9066_9ca1);
    assert(0x45_2c59_9066_9ca1 * 0x45_2c59_9066_9ca1 == 0x12b0_eff6_c049_6d6d_d948_5020_9d41nat);
    assert(0x12b0_eff6_c049_6d6d_d948_5020_9d41nat * 0x12b0_eff6_c049_6d6d_d948_5020_9d41nat == 0x15d_5c09_8741_6139_2178_92b9_bce5_5f46_89a2_dd05_b95f_0d00_50d8_ca81nat);
    assert(0x7_2de9_3fa9_011a_b0b3_288c_f461nat * 0x7_2de9_3fa9_011a_b0b3_288c_f461nat == 0x33_8afd_5024_6b51_ac9e_724d_6e77_a1a0_91bf_f143_79a0_8361_0cc1nat);
    assert(0x1_fcec_9bb8_89e1_3958_7280_9041nat * 0x12f_fa91 == 0x25c_4e2b_a181_9bbe_ea41_6115_24a0_2ed1nat);
    assert(0x1_fcec_a91d_5221_b18c_8d66_0b11nat * 0x12f_fa93 == 0x25c_4e3f_82bf_f3ec_3617_9191_f185_f4c3nat);
    assert(0x25c_4e2b_a181_9bbe_ea41_6115_24a0_2ed1nat * 0x15d_5c09_8741_6139_2178_92b9_bce5_5f46_89a2_dd05_b95f_0d00_50d8_ca81nat == 0x3_38af_d410_e2d2_f086_beac_ff30_9aab_86bb_f07b_17cc_fb3e_64eb_8e63_8bb7_df5d_d289_f8c3_b1c5_2d56_aa00_8151nat);
    assert(0x25c_4e3f_82bf_f3ec_3617_9191_f185_f4c3nat * 0x15d_5c09_8741_6139_2178_92b9_bce5_5f46_89a2_dd05_b95f_0d00_50d8_ca81nat == 0x3_38af_ef32_1a80_fa04_20a2_6377_822f_7f3d_875c_fbed_bfa9_63b5_4e80_6276_997a_42ce_44bf_d626_0fa1_dc2a_3443nat);
    assert(0x33_8afd_5024_6b51_ac9e_724d_6e77_a1a0_91bf_f143_79a0_8361_0cc1nat * 0x1000_0000_0000_0000_0000_0000_0000_0000_0000nat == 0x3_38af_d502_46b5_1ac9_e724_d6e7_7a1a_091b_ff14_379a_0836_10cc_1000_0000_0000_0000_0000_0000_0000_0000_0000nat);
    lemma_power_known(
        0x3d97_fd49, 0x97_fd49, 122, 0x1000_0000_0000_0000_0000_0000_0000_0000_0000nat,
        91025, 0x2_adef_10e4_cdb1,
        0x7_2de9_3fa9_011a_b0b3_288c_f461nat,
        269025, 0x45_2c59_9066_9ca1,
        0x12b0_eff6_c049_6d6d_d948_5020_9d41nat,
        0x1_68f3_187d_8621, 0x1_fcec_9bb8_89e1_3958_7280_9041nat,
        0x1_68f3_1d3d_7069, 0x1_fcec_a91d_5221_b18c_8d66_0b11nat,
    );
}

/// Code 78.
proof fn lemma_entry_78()
    ensures
        nearest_to_power(0x3d9c_0715, 92025, 269025),
{
    lemma_fifth_powers_of_two();
    assert(92025nat * 92025 * 92025 == 0x2_c4ca_44f1_2d29);
    assert(0x2_c4ca_44f1_2d29 * 0x2_c4ca_44f1_2d29 == 0x7_aa6f_6d26_e0f7_0fe7_d729_7091nat);
    assert(0x138_0e29 * 0x138_0e29 == 0x1_7c62_84b8_8291);
    assert(0x1_7c62_84b8_8291 * 0x1_7c62_84b8_8291 == 0x2_3534_9fed_a5b1_3aa5_7b07_9621nat);
    assert(0x138_0e2b * 0x138_0e2b == 0x1_7c62_8998_bb39);
    assert(0x1_7c62_8998_bb39 * 0x1_7c62_8998_bb39 == 0x2_3534_ae6b_0eb5_6325_de9c_52b1nat);
    assert(269025nat * 269025 * 269025 == 0x45_2c59_9066_9ca1);
    assert(0x45_2c59_9066_9ca1 * 0x45_2c59_9066_9ca1 == 0x12b0_eff6_c049_6d6d_d948_5020_9d41nat);
    assert(0x12b0_eff6_c049_6d6d_d948_5020_9d41nat * 0x12b0_eff6_c049_6d6d_d948_5020_9d41nat == 0x15d_5c09_8741_6139_2178_92b9_bce5_5f46_89a2_dd05_b95f_0d00_50d8_ca81nat);
    assert(0x7_aa6f_6d26_e0f7_0fe7_d729_7091nat * 0x7_aa6f_6d26_e0f7_0fe7_d729_7091nat == 0x3a_c390_2597_c68c_3787_6ba9_37b0_c6cd_992d_d49e_c576_cdf1_3221nat);
    assert(0x2_3534_9fed_a5b1_3aa5_7b07_9621nat * 0x138_0e29 == 0x2b0_f766_4fce_8c1e_b445_627a_16a4_d949nat);
    assert(0x2_3534_ae6b_0eb5_6325_de9c_52b1nat * 0x138_0e2b == 0x2b0_f77c_63dd_13da_3a0b_080d_b87f_91bbnat);
    assert(0x2b0_f766_4fce_8c1e_b445_627a_16a4_d949nat * 0x15d_5c09_8741_6139_2178_92b9_bce5_5f46_89a2_dd05_b95f_0d00_50d8_ca81nat == 0x3_ac38_f908_4647_7b08_d632_5c6c_f12d_09af_0ff3_6ac8_b289_2294_501e_cd31_4026_a18c_9dce_96e1_4961_a21d_17c9nat);
    assert(0x2b0_f77c_63dd_13da_3a0b_080d_b87f_91bbnat * 0x15d_5c09_8741_6139_2178_92b9_bce5_5f46_89a2_dd05_b95f_0d00_50d8_ca81nat == 0x3_ac39_1729_8e1e_1d2f_821b_07f2_de6a_3838_cdf5_30bf_eb2b_9e16_1c64_8d61_1178_33cc_4043_baf0_eaac_070d_fd3bnat);
    assert(0x3a_c390_2597_c68c_3787_6ba9_37b0_c6cd_992d_d49e_c576_cdf1_3221nat * 0x1000_0000_0000_0000_0000_0000_0000_0000_0000nat == 0x3_ac39_0259_7c68_c378_76ba_937b_0c6c_d992_dd49_ec57_6cdf_1322_1000_0000_0000_0000_0000_0000_0000_0000_0000nat);
    lemma_power_known(
        0x3d9c_0715, 0x9c_0715, 122, 0x1000_0000_0000_0000_0000_0000_0000_0000_0000nat,
        92025, 0x2_c4ca_44f1_2d29,
        0x7_aa6f_6d26_e0f7_0fe7_d729_7091nat,
        269025, 0x45_2c59_9066_9ca1,
        0x12b0_eff6_c049_6d6d_d948_5020_9d41nat,
        0x1_7c62_84b8_8291, 0x2_3534_9fed_a5b1_3aa5_7b07_9621nat,
        0x1_7c62_8998_bb39, 0x2_3534_ae6b_0eb5_6325_de9c_52b1nat,
    );
}

/// Code 79.
proof fn lemma_entry_79()
    ensures
        nearest_to_power(0x3da0_20ba, 93025, 269025),
{
    lemma_fifth_powers_of_two();
    assert(93025nat * 93025 * 93025 == 0x2_dc26_07b1_ee21);
    assert(0x2_dc26_07b1_ee21 * 0x2_dc26_07b1_ee21 == 0x8_2de9_81a7_d2da_a07c_f523_6041nat);
    assert(0x140_4173 * 0x140_4173 == 0x1_90a3_b03b_99a9);
    assert(0x1_90a3_b03b_99a9 * 0x1_90a3_b03b_99a9 == 0x2_72ff_ef64_2567_ce5e_9021_7191nat);
    assert(0x140_4175 * 0x140_4175 == 0x1_90a3_b53c_9f79);
    assert(0x1_90a3_b53c_9f79 * 0x1_90a3_b53c_9f79 == 0x2_72ff_ff0d_bddb_fbf2_3e0f_8731nat);
    assert(269025nat * 269025 * 269025 == 0x45_2c59_9066_9ca1);
    assert(0x45_2c59_9066_9ca1 * 0x45_2c59_9066_9ca1 == 0x12b0_eff6_c049_6d6d_d948_5020_9d41nat);
    assert(0x12b0_eff6_c049_6d6d_d948_5020_9d41nat * 0x12b0_eff6_c049_6d6d_d948_5020_9d41nat == 0x15d_5c09_8741_6139_2178_92b9_bce5_5f46_89a2_dd05_b95f_0d00_50d8_ca81nat);
    assert(0x8_2de9_81a7_d2da_a07c_f523_6041nat * 0x8_2de9_81a7_d2da_a07c_f523_6041nat == 0x42_e6d4_070f_72f3_46b8_8081_6a64_4717_1063_3007_3a17_dff6_d081nat);
    assert(0x2_72ff_ef64_2567_ce5e_9021_7191nat * 0x140_4173 == 0x310_6037_e1ef_b93e_1f3b_e0e1_321b_d523nat);
    assert(0x2_72ff_ff0d_bddb_fbf2_3e0f_8731nat * 0x140_4175 == 0x310_6050_5fef_6177_8f50_3ae1_4bac_3a65nat);
    assert(0x310_6037_e1ef_b93e_1f3b_e0e1_321b_d523nat * 0x15d_5c09_8741_6139_2178_92b9_bce5_5f46_89a2_dd05_b95f_0d00_50d8_ca81nat == 0x4_2e6d_2bf4_e608_6b87_5a7a_fe06_6c43_b034_70af_810f_b6a7_8fa1_fee8_6f99_d0cf_9007_f353_e718_c41a_fbbc_04a3nat);
    assert(0x310_6050_5fef_6177_8f50_3ae1_4bac_3a65nat * 0x15d_5c09_8741_6139_2178_92b9_bce5_5f46_89a2_dd05_b95f_0d00_50d8_ca81nat == 0x4_2e6d_4d61_79c2_00f9_d15b_1259_f058_4853_7e15_61bf_2c77_3b2f_ce6f_7981_15d1_ba2a_c35a_0313_3dcd_dd15_1ee5nat);
    assert(0x42_e6d4_070f_72f3_46b8_8081_6a64_4717_1063_3007_3a17_dff6_d081nat * 0x1000_0000_0000_0000_0000_0000_0000_0000_0000nat == 0x4_2e6d_4070_f72f_346b_8808_16a6_4471_7106_3300_73a1_7dff_6d08_1000_0000_0000_0000_0000_0000_0000_0000_0000nat);
    lemma_power_known(
        0x3da0_20ba, 0xa0_20ba, 122, 0x1000_0000_0000_0000_0000_0000_0000_0000_0000nat,
        93025, 0x2_dc26_07b1_ee21,
        0x8_2de9_81a7_d2da_a07c_f523_6041nat,
        269025, 0x45_2c59_9066_9ca1,
        0x12b0_eff6_c049_6d6d_d948_5020_9d41nat,
        0x1_90a3_b03b_99a9, 0x2_72ff_ef64_2567_ce5e_9021_7191nat,
        0x1_90a3_b53c_9f79, 0x2_72ff_ff0d_bddb_fbf2_3e0f_8731nat,
    );
}

/// Code 80.
proof fn lemma_entry_80()
    ensures
        nearest_to_power(0x3da4_4a4a, 94025, 269025),
{
    lemma_fifth_powers_of_two();
    assert(94025nat * 94025 * 94025 == 0x2_f403_bec7_cc99);
    assert(0x2_f403_bec7_cc99 * 0x2_f403_bec7_cc99 == 0x8_b8a6_1eda_1743_a338_d562_3371nat);
    assert(0x148_9493 * 0x148_9493 == 0x1_a5bd_0eea_4c69);
    assert(0x1_a5bd_0eea_4c69 * 0x1_a5bd_0eea_4c69 == 0x2_b6c7_5ead_a624_a3d5_42c2_8311nat);
    assert(0x148_9495 * 0x148_9495 == 0x1_a5bd_140c_9eb9);
    assert(0x1_a5bd_140c_9eb9 * 0x1_a5bd_140c_9eb9 == 0x2_b6c7_6f98_1e40_d096_2bc0_e1b1nat);
    assert(269025nat * 269025 * 269025 == 0x45_2c59_9066_9ca1);
    assert(0x45_2c59_9066_9ca1 * 0x45_2c59_9066_9ca1 == 0x12b0_eff6_c049_6d6d_d948_5020_9d41nat);
    assert(0x12b0_eff6_c049_6d6d_d948_5020_9d41nat * 0x12b0_eff6_c049_6d6d_d948_5020_9d41nat == 0x15d_5c09_8741_6139_2178_92b9_bce5_5f46_89a2_dd05_b95f_0d00_50d8_ca81nat);
    assert(0x8_b8a6_1eda_1743_a338_d562_3371nat * 0x8_b8a6_1eda_1743_a338_d562_3371nat == 0x4c_0f91_25c6_fc39_7126_3225_a45e_a402_db72_557a_f6b5_76da_37e1nat);
    assert(0x2_b6c7_5ead_a624_a3d5_42c2_8311nat * 0x148_9493 == 0x37b_c2ab_85b4_a0b5_7efe_e745_b73f_16c3nat);
    assert(0x2_b6c7_6f98_1e40_d096_2bc0_e1b1nat * 0x148_9495 == 0x37b_c2c6_a97e_a812_54b8_47d4_2485_b005nat);
    assert(0x37b_c2ab_85b4_a0b5_7efe_e745_b73f_16c3nat * 0x15d_5c09_8741_6139_2178_92b9_bce5_5f46_89a2_dd05_b95f_0d00_50d8_ca81nat == 0x4_c0f8_fefb_eabb_415e_2317_8ef2_b014_d82b_3356_6552_d84b_75c7_1a5a_82b5_42b6_2af8_ebfc_9e8a_c811_4348_5643nat);
    assert(0x37b_c2c6_a97e_a812_54b8_47d4_2485_b005nat * 0x15d_5c09_8741_6139_2178_92b9_bce5_5f46_89a2_dd05_b95f_0d00_50d8_ca81nat == 0x4_c0f9_2405_7706_7e7b_0eae_37c7_73fe_f837_92ba_1924_48ce_56ad_beb0_54f3_38ab_64e0_eac8_b8bd_6f85_f879_a485nat);
    assert(0x4c_0f91_25c6_fc39_7126_3225_a45e_a402_db72_557a_f6b5_76da_37e1nat * 0x1000_0000_0000_0000_0000_0000_0000_0000_0000nat == 0x4_c0f9_125c_6fc3_9712_6322_5a45_ea40_2db7_2557_af6b_576d_a37e_1000_0000_0000_0000_0000_0000_0000_0000_0000nat);
    lemma_power_known(
        0x3da4_4a4a, 0xa4_4a4a, 122, 0x1000_0000_0000_0000_0000_0000_0000_0000_0000nat,
        94025, 0x2_f403_bec7_cc99,
        0x8_b8a6_1eda_1743_a338_d562_3371nat,
        269025, 0x45_2c59_9066_9ca1,
        0x12b0_eff6_c049_6d6d_d948_5020_9d41nat,
        0x1_a5bd_0eea_4c69, 0x2_b6c7_5ead_a624_a3d5_42c2_8311nat,
        0x1_a5bd_140c_9eb9, 0x2_b6c7_6f98_1e40_d096_2bc0_e1b1nat,
    );
}

/// Code 81.
proof fn lemma_entry_81()
    ensures
        nearest_to_power(0x3da8_83d6, 95025, 269025),
{
    lemma_fifth_powers_of_two();
    assert(95025nat * 95025 * 95025 == 0x3_0c64_cfd3_8491);
    assert(0x3_0c64_cfd3_8491 * 0x3_0c64_cfd3_8491 == 0x9_4af6_7a23_f5ca_e86e_49ab_da21nat);
    assert(0x151_07ab * 0x151_07ab == 0x1_bbb5_3070_cc39);
    assert(0x1_bbb5_3070_cc39 * 0x1_bbb5_3070_cc39 == 0x3_010c_95e3_eb78_8ce2_b4ca_e4b1nat);
    assert(0x151_07ad * 0x151_07ad == 0x1_bbb5_35b4_eae9);
    assert(0x1_bbb5_35b4_eae9 * 0x1_bbb5_35b4_eae9 == 0x3_010c_a825_221a_fc99_a936_c811nat);
    assert(269025nat * 269025 * 269025 == 0x45_2c59_9066_9ca1);
    assert(0x45_2c59_9066_9ca1 * 0x45_2c59_9066_9ca1 == 0x12b0_eff6_c049_6d6d_d948_5020_9d41nat);
    assert(0x12b0_eff6_c049_6d6d_d948_5020_9d41nat * 0x12b0_eff6_c049_6d6d_d948_5020_9d41nat == 0x15d_5c09_8741_6139_2178_92b9_bce5_5f46_89a2_dd05_b95f_0d00_50d8_ca81nat);
    assert(0x9_4af6_7a23_f5ca_e86e_49ab_da21nat * 0x9_4af6_7a23_f5ca_e86e_49ab_da21nat == 0x56_5b48_0273_09c0_536a_2ba4_f4ca_f668_60c8_4652_ba1f_f3f2_3841nat);
    assert(0x3_010c_95e3_eb78_8ce2_b4ca_e4b1nat * 0x151_07ab == 0x3f4_789a_5c8a_5460_0bd0_4d77_5cc8_993bnat);
    assert(0x3_010c_a825_221a_fc99_a936_c811nat * 0x151_07ad == 0x3f4_78b8_6708_8a8d_4f6c_a895_37de_aa7dnat);
    assert(0x3f4_789a_5c8a_5460_0bd0_4d77_5cc8_993bnat * 0x15d_5c09_8741_6139_2178_92b9_bce5_5f46_89a2_dd05_b95f_0d00_50d8_ca81nat == 0x5_65b4_6b76_cd70_87c3_c00e_b2ed_9c63_2beb_853b_6e03_78a2_1ccc_931e_cc9a_1746_18d3_bfb8_aa79_307f_c3c5_c4bbnat);
    assert(0x3f4_78b8_6708_8a8d_4f6c_a895_37de_aa7dnat * 0x15d_5c09_8741_6139_2178_92b9_bce5_5f46_89a2_dd05_b95f_0d00_50d8_ca81nat == 0x5_65b4_9475_e863_fc95_b966_3226_75a0_77fc_c714_e8e6_c541_fb7d_1635_730e_be60_ba9e_c05a_8a2e_c36d_c332_8afdnat);
    assert(0x56_5b48_0273_09c0_536a_2ba4_f4ca_f668_60c8_4652_ba1f_f3f2_3841nat * 0x1000_0000_0000_0000_0000_0000_0000_0000_0000nat == 0x5_65b4_8027_309c_0536_a2ba_4f4c_af66_860c_8465_2ba1_ff3f_2384_1000_0000_0000_0000_0000_0000_0000_0000_0000nat);
    lemma_power_known(
        0x3da8_83d6, 0xa8_83d6, 122, 0x1000_0000_0000_0000_0000_0000_0000_0000_0000nat,
        95025, 0x3_0c64_cfd3_8491,
        0x9_4af6_7a23_f5ca_e86e_49ab_da21nat,
        269025, 0x45_2c59_9066_9ca1,
        0x12b0_eff6_c049_6d6d_d948_5020_9d41nat,
        0x1_bbb5_3070_cc39, 0x3_010c_95e3_eb78_8ce2_b4ca_e4b1nat,
        0x1_bbb5_35b4_eae9, 0x3_010c_a825_221a_fc99_a936_c811nat,
    );
}

/// Code 82.
proof fn lemma_entry_82()
    ensures
        nearest_to_power(0x3dac_cd6f, 96025, 269025),
{
    lemma_fifth_powers_of_two();
    assert(96025nat * 96025 * 96025 == 0x3_254a_a075_d209);
    assert(0x3_254a_a075_d209 * 0x3_254a_a075_d209 == 0x9_e52e_6ae6_239d_83f8_e88c_c451nat);
    assert(0x159_9add * 0x159_9add == 0x1_d292_c558_a2c9);
    assert(0x1_d292_c558_a2c9 * 0x1_d292_c558_a2c9 == 0x3_525a_aa9c_61de_fa7d_abb3_01d1nat);
    assert(0x159_9adf * 0x159_9adf == 0x1_d292_cabf_0e41);
    assert(0x1_d292_cabf_0e41 * 0x1_d292_cabf_0e41 == 0x3_525a_be4b_7262_f738_d9c9_2c81nat);
    assert(269025nat * 269025 * 269025 == 0x45_2c59_9066_9ca1);
    assert(0x45_2c59_9066_9ca1 * 0x45_2c59_9066_9ca1 == 0x12b0_eff6_c049_6d6d_d948_5020_9d41nat);
    assert(0x12b0_eff6_c049_6d6d_d948_5020_9d41nat * 0x12b0_eff6_c049_6d6d_d948_5020_9d41nat == 0x15d_5c09_8741_6139_2178_92b9_bce5_5f46_89a2_dd05_b95f_0d00_50d8_ca81nat);
    assert(0x9_e52e_6ae6_239d_83f8_e88c_c451nat * 0x9_e52e_6ae6_239d_83f8_e88c_c451nat == 0x61_ea6f_97d8_d423_4699_8cac_ee59_198c_3fe6_6640_b42a_1f24_21a1nat);
    assert(0x3_525a_aa9c_61de_fa7d_abb3_01d1nat * 0x159_9add == 0x47b_fe98_8fa7_4160_338a_3c04_5b49_4b6dnat);
    assert(0x3_525a_be4b_7262_f738_d9c9_2c81nat * 0x159_9adf == 0x47b_feb9_c732_4de7_588b_0da5_b4dc_5e5fnat);
    assert(0x47b_fe98_8fa7_4160_338a_3c04_5b49_4b6dnat * 0x15d_5c09_8741_6139_2178_92b9_bce5_5f46_89a2_dd05_b95f_0d00_50d8_ca81nat == 0x6_1ea6_d035_2673_5cad_6635_fa21_1523_0ab2_8675_e148_bec4_8804_9218_31e9_0d82_254c_2c01_877f_24a3_896b_03ednat);
    assert(0x47b_feb9_c732_4de7_588b_0da5_b4dc_5e5fnat * 0x15d_5c09_8741_6139_2178_92b9_bce5_5f46_89a2_dd05_b95f_0d00_50d8_ca81nat == 0x6_1ea6_fd89_d035_ea14_e5bf_33cc_5ff0_fab5_03b0_5992_a279_1400_289d_3aac_97d8_4d76_9a0c_8037_eba3_55aa_83dfnat);
    assert(0x61_ea6f_97d8_d423_4699_8cac_ee59_198c_3fe6_6640_b42a_1f24_21a1nat * 0x1000_0000_0000_0000_0000_0000_0000_0000_0000nat == 0x6_1ea6_f97d_8d42_3469_98ca_cee5_9198_c3fe_6664_0b42_a1f2_421a_1000_0000_0000_0000_0000_0000_0000_0000_0000nat);
    lemma_power_known(
        0x3dac_cd6f, 0xac_cd6f, 122, 0x1000_0000_0000_0000_0000_0000_0000_0000_0000nat,
        96025, 0x3_254a_a075_d209,
        0x9_e52e_6ae6_239d_83f8_e88c_c451nat,
        269025, 0x45_2c59_9066_9ca1,
        0x12b0_eff6_c049_6d6d_d948_5020_9d41nat,
        0x1_d292_c558_a2c9, 0x3_525a_aa9c_61de_fa7d_abb3_01d1nat,
        0x1_d292_cabf_0e41, 0x3_525a_be4b_7262_f738_d9c9_2c81nat,
    );
}

/// Code 83.
proof fn lemma_entry_83()
    ensures
        nearest_to_power(0x3db1_2727, 97025, 269025),
{
    lemma_fifth_powers_of_two();
    assert(97025nat * 97025 * 97025 == 0x3_3eb6_964f_7101);
    assert(0x3_3eb6_964f_7101 * 0x3_3eb6_964f_7101 == 0xa_87a4_78e5_31f8_5a80_1c7f_e201nat);
    assert(0x162_4e4d * 0x162_4e4d == 0x1_ea5c_a4e7_0329);
    assert(0x1_ea5c_a4e7_0329 * 0x1_ea5c_a4e7_0329 == 0x3_ab46_c8cb_485c_05fb_3c07_fc91nat);
    assert(0x162_4e4f * 0x162_4e4f == 0x1_ea5c_aa70_3c61);
    assert(0x1_ea5c_aa70_3c61 * 0x1_ea5c_aa70_3c61 == 0x3_ab46_de00_9947_fb1d_b71d_9cc1nat);
    assert(269025nat * 269025 * 269025 == 0x45_2c59_9066_9ca1);
    assert(0x45_2c59_9066_9ca1 * 0x45_2c59_9066_9ca1 == 0x12b0_eff6_c049_6d6d_d948_5020_9d41nat);
    assert(0x12b0_eff6_c049_6d6d_d948_5020_9d41nat * 0x12b0_eff6_c049_6d6d_d948_5020_9d41nat == 0x15d_5c09_8741_6139_2178_92b9_bce5_5f46_89a2_dd05_b95f_0d00_50d8_ca81nat);
    assert(0xa_87a4_78e5_31f8_5a80_1c7f_e201nat * 0xa_87a4_78e5_31f8_5a80_1c7f_e201nat == 0x6e_e0b8_5314_c0da_b3b4_911c_13ca_0311_c63a_b1e6_ee52_3c83_c401nat);
    assert(0x3_ab46_c8cb_485c_05fb_3c07_fc91nat * 0x162_4e4d == 0x513_f72b_be92_6471_12e9_5be6_bddd_259dnat);
    assert(0x3_ab46_de00_9947_fb1d_b71d_9cc1nat * 0x162_4e4f == 0x513_f750_6f56_a66c_7ad0_c2e9_4ac8_2d8fnat);
    assert(0x513_f72b_be92_6471_12e9_5be6_bddd_259dnat * 0x15d_5c09_8741_6139_2178_92b9_bce5_5f46_89a2_dd05_b95f_0d00_50d8_ca81nat == 0x6_ee0b_53d9_09f0_c3c3_1c1f_6b58_0b04_f954_323e_7b7d_efb8_27f5_6b88_57ac_0ab5_c4fa_f978_f54c_a86e_f895_d61dnat);
    assert(0x513_f750_6f56_a66c_7ad0_c2e9_4ac8_2d8fnat * 0x15d_5c09_8741_6139_2178_92b9_bce5_5f46_89a2_dd05_b95f_0d00_50d8_ca81nat == 0x6_ee0b_85eb_3662_d8b2_bd8f_835e_3d85_9e42_91fc_c2e5_6ee0_fee6_252f_fbe1_3c55_f222_eb6c_6295_36b3_c379_cb0fnat);
    assert(0x6e_e0b8_5314_c0da_b3b4_911c_13ca_0311_c63a_b1e6_ee52_3c83_c401nat * 0x1000_0000_0000_0000_0000_0000_0000_0000_0000nat == 0x6_ee0b_8531_4c0d_ab3b_4911_c13c_a031_1c63_ab1e_6ee5_23c8_3c40_1000_0000_0000_0000_0000_0000_0000_0000_0000nat);
    lemma_power_known(
        0x3db1_2727, 0xb1_2727, 122, 0x1000_0000_0000_0000_0000_0000_0000_0000_0000nat,
        97025, 0x3_3eb6_964f_7101,
        0xa_87a4_78e5_31f8_5a80_1c7f_e201nat,
        269025, 0x45_2c59_9066_9ca1,
        0x12b0_eff6_c049_6d6d_d948_5020_9d41nat,
        0x1_ea5c_a4e7_0329, 0x3_ab46_c8cb_485c_05fb_3c07_fc91nat,
        0x1_ea5c_aa70_3c61, 0x3_ab46_de00_9947_fb1d_b71d_9cc1nat,
    );
}

/// Code 84.
proof fn lemma_entry_84()
    ensures
        nearest_to_power(0x3db5_910f, 98025, 269025),
{
    lemma_fifth_powers_of_two();
    assert(98025nat * 98025 * 98025 == 0x3_58aa_1701_1d79);
    assert(0x3_58aa_1701_1d79 * 0x3_58aa_1701_1d79 == 0xb_32b1_eada_04a5_8800_fc56_a331nat);
    assert(0x16b_221d * 0x16b_221d == 0x2_0319_c2c9_b749);
    assert(0x2_0319_c2c9_b749 * 0x2_0319_c2c9_b749 == 0x4_0c70_a84f_370b_dafd_f7db_72d1nat);
    assert(0x16b_221f * 0x16b_221f == 0x2_0319_c876_3fc1);
    assert(0x2_0319_c876_3fc1 * 0x2_0319_c876_3fc1 == 0x4_0c70_bf24_8893_f3ee_65cc_8f81nat);
    assert(269025nat * 269025 * 269025 == 0x45_2c59_9066_9ca1);
    assert(0x45_2c59_9066_9ca1 * 0x45_2c59_9066_9ca1 == 0x12b0_eff6_c049_6d6d_d948_5020_9d41nat);
    assert(0x12b0_eff6_c049_6d6d_d948_5020_9d41nat * 0x12b0_eff6_c049_6d6d_d948_5020_9d41nat == 0x15d_5c09_8741_6139_2178_92b9_bce5_5f46_89a2_dd05_b95f_0d00_50d8_ca81nat);
    assert(0xb_32b1_eada_04a5_8800_fc56_a331nat * 0xb_32b1_eada_04a5_8800_fc56_a331nat == 0x7d_6554_2a20_28f8_1046_aa03_d407_950e_8c58_eb48_be9a_84f3_6f61nat);
    assert(0x4_0c70_a84f_370b_dafd_f7db_72d1nat * 0x16b_221d == 0x5be_2ddb_0770_a418_558b_fddc_0776_c3adnat);
    assert(0x4_0c70_bf24_8893_f3ee_65cc_8f81nat * 0x16b_221f == 0x5be_2e03_83d7_a95b_135a_8c72_fabf_829fnat);
    assert(0x5be_2ddb_0770_a418_558b_fddc_0776_c3adnat * 0x15d_5c09_8741_6139_2178_92b9_bce5_5f46_89a2_dd05_b95f_0d00_50d8_ca81nat == 0x7_d655_12cc_3995_f01c_d984_971d_57fc_fb6c_b3ba_a0e3_a188_6024_dfc2_694a_733a_1729_c173_2ff8_bc1e_a337_1c2dnat);
    assert(0x5be_2e03_83d7_a95b_135a_8c72_fabf_829fnat * 0x15d_5c09_8741_6139_2178_92b9_bce5_5f46_89a2_dd05_b95f_0d00_50d8_ca81nat == 0x7_d655_4a0c_603e_e58e_11c6_717b_a59b_ebfd_ee37_7522_e271_0f6e_f913_b1b9_ba0d_be52_edc1_bc75_fd33_5dba_481fnat);
    assert(0x7d_6554_2a20_28f8_1046_aa03_d407_950e_8c58_eb48_be9a_84f3_6f61nat * 0x1000_0000_0000_0000_0000_0000_0000_0000_0000nat == 0x7_d655_42a2_028f_8104_6aa0_3d40_7950_e8c5_8eb4_8be9_a84f_36f6_1000_0000_0000_0000_0000_0000_0000_0000_0000nat);
    lemma_power_known(
        0x3db5_910f, 0xb5_910f, 122, 0x1000_0000_0000_0000_0000_0000_0000_0000_0000nat,
        98025, 0x3_58aa_1701_1d79,
        0xb_32b1_eada_04a5_8800_fc56_a331nat,
        269025, 0x45_2c59_9066_9ca1,
        0x12b0_eff6_c049_6d6d_d948_5020_9d41nat,
        0x2_0319_c2c9_b749, 0x4_0c70_a84f_370b_dafd_f7db_72d1nat,
        0x2_0319_c876_3fc1, 0x4_0c70_bf24_8893_f3ee_65cc_8f81nat,
    );
}

/// Code 85.
proof fn lemma_entry_85()
    ensures
        nearest_to_power(0x3dba_0b38, 99025, 269025),
{
    lemma_fifth_powers_of_two();
    assert(99025nat * 99025 * 99025 == 0x3_7326_882b_9371);
    assert(0x3_7326_882b_9371 * 0x3_7326_882b_9371 == 0xb_e6b2_d529_507b_9f9e_ece0_f7e1nat);
    assert(0x174_166f * 0x174_166f == 0x2_1cd1_348f_4421);
    assert(0x2_1cd1_348f_4421 * 0x2_1cd1_348f_4421 == 0x4_7683_40b3_4422_f9bc_96ff_8c41nat);
    assert(0x174_1671 * 0x174_1671 == 0x2_1cd1_3a5f_9de1);
    assert(0x2_1cd1_3a5f_9de1 * 0x2_1cd1_3a5f_9de1 == 0x4_7683_5943_bf7c_78a2_825b_bfc1nat);
    assert(269025nat * 269025 * 269025 == 0x45_2c59_9066_9ca1);
    assert(0x45_2c59_9066_9ca1 * 0x45_2c59_9066_9ca1 == 0x12b0_eff6_c049_6d6d_d948_5020_9d41nat);
    assert(0x12b0_eff6_c049_6d6d_d948_5020_9d41nat * 0x12b0_eff6_c049_6d6d_d948_5020_9d41nat == 0x15d_5c09_8741_6139_2178_92b9_bce5_5f46_89a2_dd05_b95f_0d00_50d8_ca81nat);
    assert(0xb_e6b2_d529_507b_9f9e_ece0_f7e1nat * 0xb_e6b2_d529_507b_9f9e_ece0_f7e1nat == 0x8d_a344_2580_462f_8cfc_7e80_0a23_57ba_d815_8701_0675_91c3_f3c1nat);
    assert(0x4_7683_40b3_4422_f9bc_96ff_8c41nat * 0x174_166f == 0x67c_9ad8_aef7_7868_72ab_e917_3d4f_662fnat);
    assert(0x4_7683_5943_bf7c_78a2_825b_bfc1nat * 0x174_1671 == 0x67c_9b05_5018_7a3b_8474_a442_116e_3a31nat);
    assert(0x67c_9ad8_aef7_7868_72ab_e917_3d4f_662fnat * 0x15d_5c09_8741_6139_2178_92b9_bce5_5f46_89a2_dd05_b95f_0d00_50d8_ca81nat == 0x8_da34_1edb_35a0_7ae9_b934_3e79_ffdb_4101_ede7_62d9_6f78_cd02_7216_6bfd_57e7_3ff2_7258_47f2_b903_734b_93afnat);
    assert(0x67c_9b05_5018_7a3b_8474_a442_116e_3a31nat * 0x15d_5c09_8741_6139_2178_92b9_bce5_5f46_89a2_dd05_b95f_0d00_50d8_ca81nat == 0x8_da34_5bc2_eb31_12d8_2706_27fc_4401_33cc_025c_b4f7_cae8_9be2_17b2_f46b_5d12_933e_af0d_9fb7_8b3c_2bcd_fcb1nat);
    assert(0x8d_a344_2580_462f_8cfc_7e80_0a23_57ba_d815_8701_0675_91c3_f3c1nat * 0x1000_0000_0000_0000_0000_0000_0000_0000_0000nat == 0x8_da34_4258_0462_f8cf_c7e8_00a2_357b_ad81_5870_1067_591c_3f3c_1000_0000_0000_0000_0000_0000_0000_0000_0000nat);
    lemma_power_known(
        0x3dba_0b38, 0xba_0b38, 122, 0x1000_0000_0000_0000_0000_0000_0000_0000_0000nat,
        99025, 0x3_7326_882b_9371,
        0xb_e6b2_d529_507b_9f9e_ece0_f7e1nat,
        269025, 0x45_2c59_9066_9ca1,
        0x12b0_eff6_c049_6d6d_d948_5020_9d41nat,
        0x2_1cd1_348f_4421, 0x4_7683_40b3_4422_f9bc_96ff_8c41nat,
        0x2_1cd1_3a5f_9de1, 0x4_7683_5943_bf7c_78a2_825b_bfc1nat,
    );
}

/// Code 86.
proof fn lemma_entry_86()
    ensures
        nearest_to_power(0x3dbe_95b3, 100025, 269025),
{
    lemma_fifth_powers_of_two();
    assert(100025nat * 100025 * 100025 == 0x3_8e2d_4f6f_8ee9);
    assert(0x3_8e2d_4f6f_8ee9 * 0x3_8e2d_4f6f_8ee9 == 0xc_a406_28c2_21de_c4bb_0bd5_5011nat);
    assert(0x17d_2b65 * 0x17d_2b65 == 0x2_378a_31fd_15d9);
    assert(0x2_378a_31fd_15d9 * 0x2_378a_31fd_15d9 == 0x4_ea35_7409_0565_a885_42c7_51f1nat);
    assert(0x17d_2b67 * 0x17d_2b67 == 0x2_378a_37f1_c371);
    assert(0x2_378a_37f1_c371 * 0x2_378a_37f1_c371 == 0x4_ea35_8e71_4c9f_0a20_1df7_57e1nat);
    assert(269025nat * 269025 * 269025 == 0x45_2c59_9066_9ca1);
    assert(0x45_2c59_9066_9ca1 * 0x45_2c59_9066_9ca1 == 0x12b0_eff6_c049_6d6d_d948_5020_9d41nat);
    assert(0x12b0_eff6_c049_6d6d_d948_5020_9d41nat * 0x12b0_eff6_c049_6d6d_d948_5020_9d41nat == 0x15d_5c09_8741_6139_2178_92b9_bce5_5f46_89a2_dd05_b95f_0d00_50d8_ca81nat);
    assert(0xc_a406_28c2_21de_c4bb_0bd5_5011nat * 0xc_a406_28c2_21de_c4bb_0bd5_5011nat == 0x9f_c9ab_b691_d7de_b1d6_f385_2df0_25c3_2128_2c45_0775_cb54_a121nat);
    assert(0x4_ea35_7409_0565_a885_42c7_51f1nat * 0x17d_2b65 == 0x751_66d5_1301_53c3_02be_416f_c713_cf15nat);
    assert(0x4_ea35_8e71_4c9f_0a20_1df7_57e1nat * 0x17d_2b67 == 0x751_6706_3918_6026_9c7d_1112_6424_2687nat);
    assert(0x751_66d5_1301_53c3_02be_416f_c713_cf15nat * 0x15d_5c09_8741_6139_2178_92b9_bce5_5f46_89a2_dd05_b95f_0d00_50d8_ca81nat == 0x9_fc9a_b729_e4ce_492b_dcf8_ebc8_af0c_44ab_af46_6ba5_a5ae_144c_a199_5202_93d5_3b45_e4ed_ad56_66d6_3c19_eb95nat);
    assert(0x751_6706_3918_6026_9c7d_1112_6424_2687nat * 0x15d_5c09_8741_6139_2178_92b9_bce5_5f46_89a2_dd05_b95f_0d00_50d8_ca81nat == 0x9_fc9a_fa3c_7dbe_c3db_2ea4_460c_b2a5_7698_c886_bdb2_b5bc_f6ad_609a_af0e_96b6_f716_8dc6_625b_c2d3_ae85_f007nat);
    assert(0x9f_c9ab_b691_d7de_b1d6_f385_2df0_25c3_2128_2c45_0775_cb54_a121nat * 0x1000_0000_0000_0000_0000_0000_0000_0000_0000nat == 0x9_fc9a_bb69_1d7d_eb1d_6f38_52df_025c_3212_82c4_5077_5cb5_4a12_1000_0000_0000_0000_0000_0000_0000_0000_0000nat);
    lemma_power_known(
        0x3dbe_95b3, 0xbe_95b3, 122, 0x1000_0000_0000_0000_0000_0000_0000_0000_0000nat,
        100025, 0x3_8e2d_4f6f_8ee9,
        0xc_a406_28c2_21de_c4bb_0bd5_5011nat,
        269025, 0x45_2c59_9066_9ca1,
        0x12b0_eff6_c049_6d6d_d948_5020_9d41nat,
        0x2_378a_31fd_15d9, 0x4_ea35_7409_0565_a885_42c7_51f1nat,
        0x2_378a_37f1_c371, 0x4_ea35_8e71_4c9f_0a20_1df7_57e1nat,
    );
}

/// Code 87.
proof fn lemma_entry_87()
    ensures
        nearest_to_power(0x3dc3_3090, 101025, 269025),
{
    lemma_fifth_powers_of_two();
    assert(101025nat * 101025 * 101025 == 0x3_a9bf_d26d_cbe1);
    assert(0x3_a9bf_d26d_cbe1 * 0x3_a9bf_d26d_cbe1 == 0xd_6b0d_c223_6b43_9d52_63f8_9bc1nat);
    assert(0x186_611f * 0x186_611f == 0x2_534c_0f4c_81c1);
    assert(0x2_534c_0f4c_81c1 * 0x2_534c_0f4c_81c1 == 0x5_684a_a5b6_b97e_3ea9_ea5c_1381nat);
    assert(0x186_6121 * 0x186_6121 == 0x2_534c_1566_0641);
    assert(0x2_534c_1566_0641 * 0x2_534c_1566_0641 == 0x5_684a_c214_f76f_c247_a5f3_1c81nat);
    assert(269025nat * 269025 * 269025 == 0x45_2c59_9066_9ca1);
    assert(0x45_2c59_9066_9ca1 * 0x45_2c59_9066_9ca1 == 0x12b0_eff6_c049_6d6d_d948_5020_9d41nat);
    assert(0x12b0_eff6_c049_6d6d_d948_5020_9d41nat * 0x12b0_eff6_c049_6d6d_d948_5020_9d41nat == 0x15d_5c09_8741_6139_2178_92b9_bce5_5f46_89a2_dd05_b95f_0d00_50d8_ca81nat);
    assert(0xd_6b0d_c223_6b43_9d52_63f8_9bc1nat * 0xd_6b0d_c223_6b43_9d52_63f8_9bc1nat == 0xb4_0c2a_389f_cb5b_1837_fd0f_4677_e305_6a3d_fe5e_bb89_6ab3_4781nat);
    assert(0x5_684a_a5b6_b97e_3ea9_ea5c_1381nat * 0x186_611f == 0x83e_eee4_5e32_e3bc_c2e3_00a5_fb10_3d9fnat);
    assert(0x5_684a_c214_f76f_c247_a5f3_1c81nat * 0x186_6121 == 0x83e_ef1a_711d_eab7_372c_017a_eea9_8da1nat);
    assert(0x83e_eee4_5e32_e3bc_c2e3_00a5_fb10_3d9fnat * 0x15d_5c09_8741_6139_2178_92b9_bce5_5f46_89a2_dd05_b95f_0d00_50d8_ca81nat == 0xb_40c2_99c0_2e58_d73b_ffb8_3acf_8fd1_fad2_204c_6dac_6dd4_de77_aeae_d2b5_a1d3_7cb3_e00b_5589_47b4_01f6_831fnat);
    assert(0x83e_ef1a_711d_eab7_372c_017a_eea9_8da1nat * 0x15d_5c09_8741_6139_2178_92b9_bce5_5f46_89a2_dd05_b95f_0d00_50d8_ca81nat == 0xb_40c2_e38b_6991_0d3b_0f6d_dec8_d8bf_f158_ad20_44e6_ead3_fd91_00dc_bd69_1ceb_57bc_3cfb_b496_4795_dd09_6821nat);
    assert(0xb4_0c2a_389f_cb5b_1837_fd0f_4677_e305_6a3d_fe5e_bb89_6ab3_4781nat * 0x1000_0000_0000_0000_0000_0000_0000_0000_0000nat == 0xb_40c2_a389_fcb5_b183_7fd0_f467_7e30_56a3_dfe5_ebb8_96ab_3478_1000_0000_0000_0000_0000_0000_0000_0000_0000nat);
    lemma_power_known(
        0x3dc3_3090, 0xc3_3090, 122, 0x1000_0000_0000_0000_0000_0000_0000_0000_0000nat,
        101025, 0x3_a9bf_d26d_cbe1,
        0xd_6b0d_c223_6b43_9d52_63f8_9bc1nat,
        269025, 0x45_2c59_9066_9ca1,
        0x12b0_eff6_c049_6d6d_d948_5020_9d41nat,
        0x2_534c_0f4c_81c1, 0x5_684a_a5b6_b97e_3ea9_ea5c_1381nat,
        0x2_534c_1566_0641, 0x5_684a_c214_f76f_c247_a5f3_1c81nat,
    );
}

/// Code 88.
proof fn lemma_entry_88()
    ensures
        nearest_to_power(0x3dc7_dbe0, 102025, 269025),
{
    lemma_fifth_powers_of_two();
    assert(102025nat * 102025 * 102025 == 0x3_c5df_76c7_0659);
    assert(0x3_c5df_76c7_0659 * 0x3_c5df_76c7_0659 == 0xe_3c2e_7888_9bb4_1da2_ea86_4af1nat);
    assert(0x18f_b7bf * 0x18f_b7bf == 0x2_701e_4944_a081);
    assert(0x2_701e_4944_a081 * 0x2_701e_4944_a081 == 0x5_f193_a8c3_cf82_b42b_3b29_8101nat);
    assert(0x18f_b7c1 * 0x18f_b7c1 == 0x2_701e_4f83_7f81);
    assert(0x2_701e_4f83_7f81 * 0x2_701e_4f83_7f81 == 0x5_f193_c737_c919_2e79_5b87_3f01nat);
    assert(269025nat * 269025 * 269025 == 0x45_2c59_9066_9ca1);
    assert(0x45_2c59_9066_9ca1 * 0x45_2c59_9066_9ca1 == 0x12b0_eff6_c049_6d6d_d948_5020_9d41nat);
    assert(0x12b0_eff6_c049_6d6d_d948_5020_9d41nat * 0x12b0_eff6_c049_6d6d_d948_5020_9d41nat == 0x15d_5c09_8741_6139_2178_92b9_bce5_5f46_89a2_dd05_b95f_0d00_50d8_ca81nat);
    assert(0xe_3c2e_7888_9bb4_1da2_ea86_4af1nat * 0xe_3c2e_7888_9bb4_1da2_ea86_4af1nat == 0xca_a33a_ffe0_9a87_fb4f_5507_4153_f414_4c79_4eb3_3a77_1e3c_36e1nat);
    assert(0x5_f193_a8c3_cf82_b42b_3b29_8101nat * 0x18f_b7bf == 0x947_c943_d3ff_5025_10b0_893b_dfbd_f6bfnat);
    assert(0x5_f193_c737_c919_2e79_5b87_3f01nat * 0x18f_b7c1 == 0x947_c97f_43c4_800f_0b5a_71b6_e18f_36c1nat);
    assert(0x947_c943_d3ff_5025_10b0_893b_dfbd_f6bfnat * 0x15d_5c09_8741_6139_2178_92b9_bce5_5f46_89a2_dd05_b95f_0d00_50d8_ca81nat == 0xc_aa33_8639_b085_9bc8_7e66_b735_08a8_bea3_d687_6c3e_d5a0_93af_2515_1942_3643_5ed8_ef95_7317_3e1b_8494_0c3fnat);
    assert(0x947_c97f_43c4_800f_0b5a_71b6_e18f_36c1nat * 0x15d_5c09_8741_6139_2178_92b9_bce5_5f46_89a2_dd05_b95f_0d00_50d8_ca81nat == 0xc_aa33_d756_6eb9_2008_ed4a_737a_5631_0ffc_5da5_ad92_544b_5cb4_8578_2482_f2ba_e025_6953_3f7f_7a15_2d36_e141nat);
    assert(0xca_a33a_ffe0_9a87_fb4f_5507_4153_f414_4c79_4eb3_3a77_1e3c_36e1nat * 0x1000_0000_0000_0000_0000_0000_0000_0000_0000nat == 0xc_aa33_affe_09a8_7fb4_f550_7415_3f41_44c7_94eb_33a7_71e3_c36e_1000_0000_0000_0000_0000_0000_0000_0000_0000nat);
    lemma_power_known(
        0x3dc7_dbe0, 0xc7_dbe0, 122, 0x1000_0000_0000_0000_0000_0000_0000_0000_0000nat,
        102025, 0x3_c5df_76c7_0659,
        0xe_3c2e_7888_9bb4_1da2_ea86_4af1nat,
        269025, 0x45_2c59_9066_9ca1,
        0x12b0_eff6_c049_6d6d_d948_5020_9d41nat,
        0x2_701e_4944_a081, 0x5_f193_a8c3_cf82_b42b_3b29_8101nat,
        0x2_701e_4f83_7f81, 0x5_f193_c737_c919_2e79_5b87_3f01nat,
    );
}

/// Code 89.
proof fn lemma_entry_89()
    ensures
        nearest_to_power(0x3dcc_97b4, 103025, 269025),
{
    lemma_fifth_powers_of_two();
    assert(103025nat * 103025 * 103025 == 0x3_e28d_a21b_fa51);
    assert(0x3_e28d_a21b_fa51 * 0x3_e28d_a21b_fa51 == 0xf_17d0_2d3d_3d56_2d17_45d8_4da1nat);
    assert(0x199_2f67 * 0x199_2f67 == 0x2_8e08_7fe4_fb71);
    assert(0x2_8e08_7fe4_fb71 * 0x2_8e08_7fe4_fb71 == 0x6_86ef_6dbe_32ea_115a_f63e_c7e1nat);
    assert(0x199_2f69 * 0x199_2f69 == 0x2_8e08_8649_b911);
    assert(0x2_8e08_8649_b911 * 0x2_8e08_8649_b911 == 0x6_86ef_8e69_589f_b008_dd7b_9321nat);
    assert(269025nat * 269025 * 269025 == 0x45_2c59_9066_9ca1);
    assert(0x45_2c59_9066_9ca1 * 0x45_2c59_9066_9ca1 == 0x12b0_eff6_c049_6d6d_d948_5020_9d41nat);
    assert(0x12b0_eff6_c049_6d6d_d948_5020_9d41nat * 0x12b0_eff6_c049_6d6d_d948_5020_9d41nat == 0x15d_5c09_8741_6139_2178_92b9_bce5_5f46_89a2_dd05_b95f_0d00_50d8_ca81nat);
    assert(0xf_17d0_2d3d_3d56_2d17_45d8_4da1nat * 0xf_17d0_2d3d_3d56_2d17_45d8_4da1nat == 0xe3_cc9c_5e97_bca1_0714_3955_5073_d2dc_cbb8_8d62_dd89_e13a_3f41nat);
    assert(0x6_86ef_6dbe_32ea_115a_f63e_c7e1nat * 0x199_2f67 == 0xa6e_c9ec_945a_6ad5_2fb0_191b_f06d_ba87nat);
    assert(0x6_86ef_8e69_589f_b008_dd7b_9321nat * 0x199_2f69 == 0xa6e_ca2d_d9b5_579a_e8fa_aeba_976b_6789nat);
    assert(0xa6e_c9ec_945a_6ad5_2fb0_191b_f06d_ba87nat * 0x15d_5c09_8741_6139_2178_92b9_bce5_5f46_89a2_dd05_b95f_0d00_50d8_ca81nat == 0xe_3cc9_7b7f_7478_b00c_86d3_ef21_fb78_504c_0a96_6e48_4b72_b6f4_14e2_8794_3724_04a0_70d8_3fd3_b4aa_4e61_8407nat);
    assert(0xa6e_ca2d_d9b5_579a_e8fa_aeba_976b_6789nat * 0x15d_5c09_8741_6139_2178_92b9_bce5_5f46_89a2_dd05_b95f_0d00_50d8_ca81nat == 0xe_3cc9_d492_78c8_1321_dbd7_0a5e_9203_fd7b_e3a5_8a42_b1fe_df29_f331_2190_d799_0bba_de0d_d20b_8f7b_3869_4609nat);
    assert(0xe3_cc9c_5e97_bca1_0714_3955_5073_d2dc_cbb8_8d62_dd89_e13a_3f41nat * 0x1000_0000_0000_0000_0000_0000_0000_0000_0000nat == 0xe_3cc9_c5e9_7bca_1071_4395_5507_3d2d_ccbb_88d6_2dd8_9e13_a3f4_1000_0000_0000_0000_0000_0000_0000_0000_0000nat);
    lemma_power_known(
        0x3dcc_97b4, 0xcc_97b4, 122, 0x1000_0000_0000_0000_0000_0000_0000_0000_0000nat,
        103025, 0x3_e28d_a21b_fa51,
        0xf_17d0_2d3d_3d56_2d17_45d8_4da1nat,
        269025, 0x45_2c59_9066_9ca1,
        0x12b0_eff6_c049_6d6d_d948_5020_9d41nat,
        0x2_8e08_7fe4_fb71, 0x6_86ef_6dbe_32ea_115a_f63e_c7e1nat,
        0x2_8e08_8649_b911, 0x6_86ef_8e69_589f_b008_dd7b_9321nat,
    );
}

/// Code 90.
proof fn lemma_entry_90()
    ensures
        nearest_to_power(0x3dd1_641d, 104025, 269025),
{
    lemma_fifth_powers_of_two();
    assert(104025nat * 104025 * 104025 == 0x3_ffcb_ba0d_63c9);
    assert(0x3_ffcb_ba0d_63c9 * 0x3_ffcb_ba0d_63c9 == 0xf_fe5d_db17_9bf4_2479_5d4f_13d1nat);
    assert(0x1a2_c839 * 0x1a2_c839 == 0x2_ad12_76bd_1cb1);
    assert(0x2_ad12_76bd_1cb1 * 0x2_ad12_76bd_1cb1 == 0x7_294b_d0c4_f536_250a_8c91_3261nat);
    assert(0x1a2_c83b * 0x1a2_c83b == 0x2_ad12_7d48_3d99);
    assert(0x2_ad12_7d48_3d99 * 0x2_ad12_7d48_3d99 == 0x7_294b_f3ca_751d_140e_1ee2_4571nat);
    assert(269025nat * 269025 * 269025 == 0x45_2c59_9066_9ca1);
    assert(0x45_2c59_9066_9ca1 * 0x45_2c59_9066_9ca1 == 0x12b0_eff6_c049_6d6d_d948_5020_9d41nat);
    assert(0x12b0_eff6_c049_6d6d_d948_5020_9d41nat * 0x12b0_eff6_c049_6d6d_d948_5020_9d41nat == 0x15d_5c09_8741_6139_2178_92b9_bce5_5f46_89a2_dd05_b95f_0d00_50d8_ca81nat);
    assert(0xf_fe5d_db17_9bf4_2479_5d4f_13d1nat * 0xf_fe5d_db17_9bf4_2479_5d4f_13d1nat == 0xff_cbbe_0df0_0abd_74fd_5fe2_c9b9_b581_2212_70be_1065_1686_b0a1nat);
    assert(0x7_294b_d0c4_f536_250a_8c91_3261nat * 0x1a2_c839 == 0xbb7_07a6_4e93_bdd5_6138_023e_fe11_ff99nat);
    assert(0x7_294b_f3ca_751d_140e_1ee2_4571nat * 0x1a2_c83b == 0xbb7_07ed_eb8a_94a2_746d_14d7_46e8_490bnat);
    assert(0xbb7_07a6_4e93_bdd5_6138_023e_fe11_ff99nat * 0x15d_5c09_8741_6139_2178_92b9_bce5_5f46_89a2_dd05_b95f_0d00_50d8_ca81nat == 0xf_fcbb_a418_ab74_4328_95b6_b748_963c_2a9c_0174_46ce_2941_c4fc_58b5_6eb8_70b4_5994_1f79_184c_9a47_b3d8_8619nat);
    assert(0xbb7_07ed_eb8a_94a2_746d_14d7_46e8_490bnat * 0x15d_5c09_8741_6139_2178_92b9_bce5_5f46_89a2_dd05_b95f_0d00_50d8_ca81nat == 0xf_fcbc_05d3_670a_28ab_3d95_56f3_19fd_72d0_4210_b857_02bc_d79e_9c64_cd91_8b15_154f_7014_7300_583f_15f7_7c8bnat);
    assert(0xff_cbbe_0df0_0abd_74fd_5fe2_c9b9_b581_2212_70be_1065_1686_b0a1nat * 0x1000_0000_0000_0000_0000_0000_0000_0000_0000nat == 0xf_fcbb_e0df_00ab_d74f_d5fe_2c9b_9b58_1221_270b_e106_5168_6b0a_1000_0000_0000_0000_0000_0000_0000_0000_0000nat);
    lemma_power_known(
        0x3dd1_641d, 0xd1_641d, 122, 0x1000_0000_0000_0000_0000_0000_0000_0000_0000nat,
        104025, 0x3_ffcb_ba0d_63c9,
        0xf_fe5d_db17_9bf4_2479_5d4f_13d1nat,
        269025, 0x45_2c59_9066_9ca1,
        0x12b0_eff6_c049_6d6d_d948_5020_9d41nat,
        0x2_ad12_76bd_1cb1, 0x7_294b_d0c4_f536_250a_8c91_3261nat,
        0x2_ad12_7d48_3d99, 0x7_294b_f3ca_751d_140e_1ee2_4571nat,
    );
}

/// Code 91.
proof fn lemma_entry_91()
    ensures
        nearest_to_power(0x3dd6_412b, 105025, 269025),
{
    lemma_fifth_powers_of_two();
    assert(105025nat * 105025 * 105025 == 0x4_1d9b_243b_fec1);
    assert(0x4_1d9b_243b_fec1 * 0x4_1d9b_243b_fec1 == 0x10_f045_a61a_7387_256b_b279_8d81nat);
    assert(0x1ac_8255 * 0x1ac_8255 == 0x2_cd44_0e92_7039);
    assert(0x2_cd44_0e92_7039 * 0x2_cd44_0e92_7039 == 0x7_d9a6_4bb8_073f_4052_6e35_ecb1nat);
    assert(0x1ac_8257 * 0x1ac_8257 == 0x2_cd44_1544_7991);
    assert(0x2_cd44_1544_7991 * 0x2_cd44_1544_7991 == 0x7_d9a6_713c_df1b_1d4a_98c2_6421nat);
    assert(269025nat * 269025 * 269025 == 0x45_2c59_9066_9ca1);
    assert(0x45_2c59_9066_9ca1 * 0x45_2c59_9066_9ca1 == 0x12b0_eff6_c049_6d6d_d948_5020_9d41nat);
    assert(0x12b0_eff6_c049_6d6d_d948_5020_9d41nat * 0x12b0_eff6_c049_6d6d_d948_5020_9d41nat == 0x15d_5c09_8741_6139_2178_92b9_bce5_5f46_89a2_dd05_b95f_0d00_50d8_ca81nat);
    assert(0x10_f045_a61a_7387_256b_b279_8d81nat * 0x10_f045_a61a_7387_256b_b279_8d81nat == 0x11e_ea37_6db2_ff8a_ab09_5a01_c745_4b25_ca6e_f4fe_d654_7629_5b01nat);
    assert(0x7_d9a6_4bb8_073f_4052_6e35_ecb1nat * 0x1ac_8255 == 0xd23_e128_4e56_b588_107a_797d_b205_78c5nat);
    assert(0x7_d9a6_713c_df1b_1d4a_98c2_6421nat * 0x1ac_8257 == 0xd23_e176_ced6_6650_8fce_3aec_0814_c937nat);
    assert(0xd23_e128_4e56_b588_107a_797d_b205_78c5nat * 0x15d_5c09_8741_6139_2178_92b9_bce5_5f46_89a2_dd05_b95f_0d00_50d8_ca81nat == 0x11_eea3_5611_799d_5858_9473_18ad_99be_b75d_f0c0_6591_f595_4f66_da27_3678_9531_c560_d710_3081_522a_7c45_4d45nat);
    assert(0xd23_e176_ced6_6650_8fce_3aec_0814_c937nat * 0x15d_5c09_8741_6139_2178_92b9_bce5_5f46_89a2_dd05_b95f_0d00_50d8_ca81nat == 0x11_eea3_c132_e0cb_3b83_354b_3f8f_e478_9ec4_0e4f_af25_aa79_597f_f388_1f03_f2d2_ae05_5318_23b8_0abb_6fa6_cab7nat);
    assert(0x11e_ea37_6db2_ff8a_ab09_5a01_c745_4b25_ca6e_f4fe_d654_7629_5b01nat * 0x1000_0000_0000_0000_0000_0000_0000_0000_0000nat == 0x11_eea3_76db_2ff8_aab0_95a0_1c74_54b2_5ca6_ef4f_ed65_4762_95b0_1000_0000_0000_0000_0000_0000_0000_0000_0000nat);
    lemma_power_known(
        0x3dd6_412b, 0xd6_412b, 122, 0x1000_0000_0000_0000_0000_0000_0000_0000_0000nat,
        105025, 0x4_1d9b_243b_fec1,
        0x10_f045_a61a_7387_256b_b279_8d81nat,
        269025, 0x45_2c59_9066_9ca1,
        0x12b0_eff6_c049_6d6d_d948_5020_9d41nat,
        0x2_cd44_0e92_7039, 0x7_d9a6_4bb8_073f_4052_6e35_ecb1nat,
        0x2_cd44_1544_7991, 0x7_d9a6_713c_df1b_1d4a_98c2_6421nat,
    );
}

/// Code 92.
proof fn lemma_entry_92()
    ensures
        nearest_to_power(0x3ddb_2eee, 106025, 269025),
{
    lemma_fifth_powers_of_two();
    assert(106025nat * 106025 * 106025 == 0x4_3bfd_4648_8739);
    assert(0x4_3bfd_4648_8739 * 0x4_3bfd_4648_8739 == 0x11_edf8_eb3d_a6c3_4b29_837d_2ab1nat);
    assert(0x1b6_5ddb * 0x1b6_5ddb == 0x2_eea5_4bcc_d959);
    assert(0x2_eea5_4bcc_d959 * 0x2_eea5_4bcc_d959 == 0x8_990c_f2df_1607_53ff_4460_00f1nat);
    assert(0x1b6_5ddd * 0x1b6_5ddd == 0x2_eea5_52a6_50c9);
    assert(0x2_eea5_52a6_50c9 * 0x2_eea5_52a6_50c9 == 0x8_990d_1b0a_266c_d6e7_a22a_3dd1nat);
    assert(269025nat * 269025 * 269025 == 0x45_2c59_9066_9ca1);
    assert(0x45_2c59_9066_9ca1 * 0x45_2c59_9066_9ca1 == 0x12b0_eff6_c049_6d6d_d948_5020_9d41nat);
    assert(0x12b0_eff6_c049_6d6d_d948_5020_9d41nat * 0x12b0_eff6_c049_6d6d_d948_5020_9d41nat == 0x15d_5c09_8741_6139_2178_92b9_bce5_5f46_89a2_dd05_b95f_0d00_50d8_ca81nat);
    assert(0x11_edf8_eb3d_a6c3_4b29_837d_2ab1nat * 0x11_edf8_eb3d_a6c3_4b29_837d_2ab1nat == 0x141_7846_13c8_ec52_ee13_6636_12b6_54cd_4c2d_4e4a_b995_ddf8_8e61nat);
    assert(0x8_990c_f2df_1607_53ff_4460_00f1nat * 0x1b6_5ddb == 0xeb9_031c_2bfe_8062_3887_9377_face_5b2bnat);
    assert(0x8_990d_1b0a_266c_d6e7_a22a_3dd1nat * 0x1b6_5ddd == 0xeb9_0372_2680_c5f0_6657_2026_1a82_4a6dnat);
    assert(0xeb9_031c_2bfe_8062_3887_9377_face_5b2bnat * 0x15d_5c09_8741_6139_2178_92b9_bce5_5f46_89a2_dd05_b95f_0d00_50d8_ca81nat == 0x14_1784_46ce_88f7_10a3_686c_a89a_acb5_e60f_28ef_28ff_0625_4dd8_bc1b_56d7_e082_104a_739c_c4e0_44f6_9233_deabnat);
    assert(0xeb9_0372_2680_c5f0_6657_2026_1a82_4a6dnat * 0x15d_5c09_8741_6139_2178_92b9_bce5_5f46_89a2_dd05_b95f_0d00_50d8_ca81nat == 0x14_1784_bc23_f5c9_f01b_5bb2_a93e_5ab4_f027_dc74_836a_faa1_784c_7d39_e004_81e2_7698_7d0f_5aee_e24f_0659_82ednat);
    assert(0x141_7846_13c8_ec52_ee13_6636_12b6_54cd_4c2d_4e4a_b995_ddf8_8e61nat * 0x1000_0000_0000_0000_0000_0000_0000_0000_0000nat == 0x14_1784_613c_8ec5_2ee1_3663_612b_654c_d4c2_d4e4_ab99_5ddf_88e6_1000_0000_0000_0000_0000_0000_0000_0000_0000nat);
    lemma_power_known(
        0x3ddb_2eee, 0xdb_2eee, 122, 0x1000_0000_0000_0000_0000_0000_0000_0000_0000nat,
        106025, 0x4_3bfd_4648_8739,
        0x11_edf8_eb3d_a6c3_4b29_837d_2ab1nat,
        269025, 0x45_2c59_9066_9ca1,
        0x12b0_eff6_c049_6d6d_d948_5020_9d41nat,
        0x2_eea5_4bcc_d959, 0x8_990c_f2df_1607_53ff_4460_00f1nat,
        0x2_eea5_52a6_50c9, 0x8_990d_1b0a_266c_d6e7_a22a_3dd1nat,
    );
}

/// Code 93.
proof fn lemma_entry_93()
    ensures
        nearest_to_power(0x3de0_2d76, 107025, 269025),
{
    lemma_fifth_powers_of_two();
    assert(107025nat * 107025 * 107025 == 0x4_5af3_85d3_b931);
    assert(0x4_5af3_85d3_b931 * 0x4_5af3_85d3_b931 == 0x12_f7ec_505d_fda5_b48d_b6bd_db61nat);
    assert(0x1c0_5aeb * 0x1c0_5aeb == 0x3_113e_56ca_13b9);
    assert(0x3_113e_56ca_13b9 * 0x3_113e_56ca_13b9 == 0x9_689f_5f71_7442_845f_6d78_fbb1nat);
    assert(0x1c0_5aed * 0x1c0_5aed == 0x3_113e_5dcb_7f69);
    assert(0x3_113e_5dcb_7f69 * 0x3_113e_5dcb_7f69 == 0x9_689f_8a6b_9451_2531_99ef_5911nat);
    assert(269025nat * 269025 * 269025 == 0x45_2c59_9066_9ca1);
    assert(0x45_2c59_9066_9ca1 * 0x45_2c59_9066_9ca1 == 0x12b0_eff6_c049_6d6d_d948_5020_9d41nat);
    assert(0x12b0_eff6_c049_6d6d_d948_5020_9d41nat * 0x12b0_eff6_c049_6d6d_d948_5020_9d41nat == 0x15d_5c09_8741_6139_2178_92b9_bce5_5f46_89a2_dd05_b95f_0d00_50d8_ca81nat);
    assert(0x12_f7ec_505d_fda5_b48d_b6bd_db61nat * 0x12_f7ec_505d_fda5_b48d_b6bd_db61nat == 0x167_cd55_2a71_5149_b0e5_e52c_d855_711e_7042_5120_9195_9539_1ac1nat);
    assert(0x9_689f_5f71_7442_845f_6d78_fbb1nat * 0x1c0_5aeb == 0x107a_6e52_1865_f46c_c298_a3ce_7c4b_457bnat);
    assert(0x9_689f_8a6b_9451_2531_99ef_5911nat * 0x1c0_5aed == 0x107a_6eb0_2ea0_85bd_ed00_41e5_85a5_6ebdnat);
    assert(0x107a_6e52_1865_f46c_c298_a3ce_7c4b_457bnat * 0x15d_5c09_8741_6139_2178_92b9_bce5_5f46_89a2_dd05_b95f_0d00_50d8_ca81nat == 0x16_7cd5_0293_6a2b_169f_2435_9075_bed7_1b19_7f55_9c34_2981_120d_d8b8_4200_e4b5_ebdf_6c30_bb68_1d59_1689_10fbnat);
    assert(0x107a_6eb0_2ea0_85bd_ed00_41e5_85a5_6ebdnat * 0x15d_5c09_8741_6139_2178_92b9_bce5_5f46_89a2_dd05_b95f_0d00_50d8_ca81nat == 0x16_7cd5_82f9_8b80_bc4e_7d7b_f492_bede_8b29_f70b_f127_4499_fecc_337e_90db_080b_5543_6e6b_084f_5f4d_6135_ef3dnat);
    assert(0x167_cd55_2a71_5149_b0e5_e52c_d855_711e_7042_5120_9195_9539_1ac1nat * 0x1000_0000_0000_0000_0000_0000_0000_0000_0000nat == 0x16_7cd5_52a7_1514_9b0e_5e52_cd85_5711_e704_2512_0919_5953_91ac_1000_0000_0000_0000_0000_0000_0000_0000_0000nat);
    lemma_power_known(
        0x3de0_2d76, 0xe0_2d76, 122, 0x1000_0000_0000_0000_0000_0000_0000_0000_0000nat,
        107025, 0x4_5af3_85d3_b931,
        0x12_f7ec_505d_fda5_b48d_b6bd_db61nat,
        269025, 0x45_2c59_9066_9ca1,
        0x12b0_eff6_c049_6d6d_d948_5020_9d41nat,
        0x3_113e_56ca_13b9, 0x9_689f_5f71_7442_845f_6d78_fbb1nat,
        0x3_113e_5dcb_7f69, 0x9_689f_8a6b_9451_2531_99ef_5911nat,
    );
}

/// Code 94.
proof fn lemma_entry_94()
    ensures
        nearest_to_power(0x3de5_3cd4, 108025, 269025),
{
    lemma_fifth_powers_of_two();
    assert(108025nat * 108025 * 108025 == 0x4_7a7f_487e_50a9);
    assert(0x4_7a7f_487e_50a9 * 0x4_7a7f_487e_50a9 == 0x14_0e97_d453_ec04_6760_8fc6_0f91nat);
    assert(0x1ca_79a7 * 0x1ca_79a7 == 0x3_3517_835b_4af1);
    assert(0x3_3517_835b_4af1 * 0x3_3517_835b_4af1 == 0xa_498f_d2b0_6c7b_d08f_0346_36e1nat);
    assert(0x1ca_79a9 * 0x1ca_79a9 == 0x3_3517_8a85_3191);
    assert(0x3_3517_8a85_3191 * 0x3_3517_8a85_3191 == 0xa_4990_00a4_7ece_d0ca_de42_d421nat);
    assert(269025nat * 269025 * 269025 == 0x45_2c59_9066_9ca1);
    assert(0x45_2c59_9066_9ca1 * 0x45_2c59_9066_9ca1 == 0x12b0_eff6_c049_6d6d_d948_5020_9d41nat);
    assert(0x12b0_eff6_c049_6d6d_d948_5020_9d41nat * 0x12b0_eff6_c049_6d6d_d948_5020_9d41nat == 0x15d_5c09_8741_6139_2178_92b9_bce5_5f46_89a2_dd05_b95f_0d00_50d8_ca81nat);
    assert(0x14_0e97_d453_ec04_6760_8fc6_0f91nat * 0x14_0e97_d453_ec04_6760_8fc6_0f91nat == 0x192_488e_2262_399c_2a01_2a40_c96c_eb1c_c307_5a59_3960_133e_5021nat);
    assert(0xa_498f_d2b0_6c7b_d08f_0346_36e1nat * 0x1ca_79a7 == 0x126c_7ec9_e709_e9e0_6a34_8175_8148_25c7nat);
    assert(0xa_4990_00a4_7ece_d0ca_de42_d421nat * 0x1ca_79a9 == 0x126c_7f30_c6a9_0a89_0229_5c89_d36b_a2c9nat);
    assert(0x126c_7ec9_e709_e9e0_6a34_8175_8148_25c7nat * 0x15d_5c09_8741_6139_2178_92b9_bce5_5f46_89a2_dd05_b95f_0d00_50d8_ca81nat == 0x19_2488_865c_e80c_690b_f1be_b81b_523e_8d7d_f169_67fd_9b1c_3680_b1ee_b343_8f1d_8aa2_8f2b_63eb_afe7_2312_0f47nat);
    assert(0x126c_7f30_c6a9_0a89_0229_5c89_d36b_a2c9nat * 0x15d_5c09_8741_6139_2178_92b9_bce5_5f46_89a2_dd05_b95f_0d00_50d8_ca81nat == 0x19_2489_12c0_c02d_556a_9a67_752c_75a5_df06_d53c_3cec_e8c4_193c_bcc3_00e7_f4fb_dd3a_1ace_0113_9cf6_a147_a149nat);
    assert(0x192_488e_2262_399c_2a01_2a40_c96c_eb1c_c307_5a59_3960_133e_5021nat * 0x1000_0000_0000_0000_0000_0000_0000_0000_0000nat == 0x19_2488_e226_2399_c2a0_12a4_0c96_ceb1_cc30_75a5_9396_0133_e502_1000_0000_0000_0000_0000_0000_0000_0000_0000nat);
    lemma_power_known(
        0x3de5_3cd4, 0xe5_3cd4, 122, 0x1000_0000_0000_0000_0000_0000_0000_0000_0000nat,
        108025, 0x4_7a7f_487e_50a9,
        0x14_0e97_d453_ec04_6760_8fc6_0f91nat,
        269025, 0x45_2c59_9066_9ca1,
        0x12b0_eff6_c049_6d6d_d948_5020_9d41nat,
        0x3_3517_835b_4af1, 0xa_498f_d2b0_6c7b_d08f_0346_36e1nat,
        0x3_3517_8a85_3191, 0xa_4990_00a4_7ece_d0ca_de42_d421nat,
    );
}

/// Code 95.
proof fn lemma_entry_95()
    ensures
        nearest_to_power(0x3dea_5d18, 109025, 269025),
{
    lemma_fifth_powers_of_two();
    assert(109025nat * 109025 * 109025 == 0x4_9aa1_f3e9_09a1);
    assert(0x4_9aa1_f3e9_09a1 * 0x4_9aa1_f3e9_09a1 == 0x15_3276_df31_6020_0cec_2d6e_b741nat);
    assert(0x1d4_ba2f * 0x1d4_ba2f == 0x3_5a39_4340_54a1);
    assert(0x3_5a39_4340_54a1 * 0x3_5a39_4340_54a1 == 0xb_3d23_e39a_3b97_a028_b27a_0d41nat);
    assert(0x1d4_ba31 * 0x1d4_ba31 == 0x3_5a39_4a93_3d61);
    assert(0x3_5a39_4a93_3d61 * 0x3_5a39_4a93_3d61 == 0xb_3d24_14b5_42b8_fd5d_a01d_5ec1nat);
    assert(269025nat * 269025 * 269025 == 0x45_2c59_9066_9ca1);
    assert(0x45_2c59_9066_9ca1 * 0x45_2c59_9066_9ca1 == 0x12b0_eff6_c049_6d6d_d948_5020_9d41nat);
    assert(0x12b0_eff6_c049_6d6d_d948_5020_9d41nat * 0x12b0_eff6_c049_6d6d_d948_5020_9d41nat == 0x15d_5c09_8741_6139_2178_92b9_bce5_5f46_89a2_dd05_b95f_0d00_50d8_ca81nat);
    assert(0x15_3276_df31_6020_0cec_2d6e_b741nat * 0x15_3276_df31_6020_0cec_2d6e_b741nat == 0x1c1_5173_447b_92ea_5055_6683_a994_f956_c826_bda0_1426_d909_fe81nat);
    assert(0xb_3d23_e39a_3b97_a028_b27a_0d41nat * 0x1d4_ba2f == 0x1493_f218_62e9_c9cd_e59a_4045_acdd_a8efnat);
    assert(0xb_3d24_14b5_42b8_fd5d_a01d_5ec1nat * 0x1d4_ba31 == 0x1493_f288_c651_a35b_5ca7_3af2_354b_5cf1nat);
    assert(0x1493_f218_62e9_c9cd_e59a_4045_acdd_a8efnat * 0x15d_5c09_8741_6139_2178_92b9_bce5_5f46_89a2_dd05_b95f_0d00_50d8_ca81nat == 0x1c_1516_fa52_652b_9727_6914_7bbc_0015_a9d6_c6c3_5ee1_4139_ab22_50e0_4fd6_2fa0_80f8_94f1_1385_a054_3ca6_b66fnat);
    assert(0x1493_f288_c651_a35b_5ca7_3af2_354b_5cf1nat * 0x15d_5c09_8741_6139_2178_92b9_bce5_5f46_89a2_dd05_b95f_0d00_50d8_ca81nat == 0x1c_1517_93b2_51a7_5ef7_e25f_167d_51c9_8c36_e3c3_e49f_41d1_1ebe_034b_0a16_00c4_05ae_3f36_8bf3_93bc_0da7_ff71nat);
    assert(0x1c1_5173_447b_92ea_5055_6683_a994_f956_c826_bda0_1426_d909_fe81nat * 0x1000_0000_0000_0000_0000_0000_0000_0000_0000nat == 0x1c_1517_3447_b92e_a505_5668_3a99_4f95_6c82_6bda_0142_6d90_9fe8_1000_0000_0000_0000_0000_0000_0000_0000_0000nat);
    lemma_power_known(
        0x3dea_5d18, 0xea_5d18, 122, 0x1000_0000_0000_0000_0000_0000_0000_0000_0000nat,
        109025, 0x4_9aa1_f3e9_09a1,
        0x15_3276_df31_6020_0cec_2d6e_b741nat,
        269025, 0x45_2c59_9066_9ca1,
        0x12b0_eff6_c049_6d6d_d948_5020_9d41nat,
        0x3_5a39_4340_54a1, 0xb_3d23_e39a_3b97_a028_b27a_0d41nat,
        0x3_5a39_4a93_3d61, 0xb_3d24_14b5_42b8_fd5d_a01d_5ec1nat,
    );
}

/// Code 96.
proof fn lemma_entry_96()
    ensures
        nearest_to_power(0x3def_8e51, 110025, 269025),
{
    lemma_fifth_powers_of_two();
    assert(110025nat * 110025 * 110025 == 0x4_bb5c_edb4_a019);
    assert(0x4_bb5c_edb4_a019 * 0x4_bb5c_edb4_a019 == 0x16_6408_52a6_9937_87d7_d147_4271nat);
    assert(0x1df_1ca1 * 0x1df_1ca1 == 0x3_80ac_25b1_9d41);
    assert(0x3_80ac_25b1_9d41 * 0x3_80ac_25b1_9d41 == 0xc_44b5_7b9d_f8ff_2207_9e7a_ca81nat);
    assert(0x1df_1ca3 * 0x1df_1ca3 == 0x3_80ac_2d2e_0fc9);
    assert(0x3_80ac_2d2e_0fc9 * 0x3_80ac_2d2e_0fc9 == 0xc_44b5_b00f_2c5d_6fee_5735_2bd1nat);
    assert(269025nat * 269025 * 269025 == 0x45_2c59_9066_9ca1);
    assert(0x45_2c59_9066_9ca1 * 0x45_2c59_9066_9ca1 == 0x12b0_eff6_c049_6d6d_d948_5020_9d41nat);
    assert(0x12b0_eff6_c049_6d6d_d948_5020_9d41nat * 0x12b0_eff6_c049_6d6d_d948_5020_9d41nat == 0x15d_5c09_8741_6139_2178_92b9_bce5_5f46_89a2_dd05_b95f_0d00_50d8_ca81nat);
    assert(0x16_6408_52a6_9937_87d7_d147_4271nat * 0x16_6408_52a6_9937_87d7_d147_4271nat == 0x1f5_5884_b579_c257_7543_b3fa_0629_1d02_fd3f_f768_3620_6dec_75e1nat);
    assert(0xc_44b5_7b9d_f8ff_2207_9e7a_ca81nat * 0x1df_1ca1 == 0x16f5_eecd_5c3c_eaf6_2c6e_c3e1_00be_7721nat);
    assert(0xc_44b5_b00f_2c5d_6fee_5735_2bd1nat * 0x1df_1ca3 == 0x16f5_ef48_0b54_c557_e6b1_82c8_53b4_c213nat);
    assert(0x16f5_eecd_5c3c_eaf6_2c6e_c3e1_00be_7721nat * 0x15d_5c09_8741_6139_2178_92b9_bce5_5f46_89a2_dd05_b95f_0d00_50d8_ca81nat == 0x1f_5587_ca8f_7f82_b136_58e5_d492_01aa_6bb1_d0ce_b7d6_a9ac_53ac_fbfa_03b3_8f58_201d_e83b_1ac0_11e6_7dd2_11a1nat);
    assert(0x16f5_ef48_0b54_c557_e6b1_82c8_53b4_c213nat * 0x15d_5c09_8741_6139_2178_92b9_bce5_5f46_89a2_dd05_b95f_0d00_50d8_ca81nat == 0x1f_5588_71fc_4e84_f46d_b334_ab54_8f88_ddfd_c98c_f046_aac0_c261_f311_55cb_2427_8d41_f9eb_31bc_0d28_7f40_c993nat);
    assert(0x1f5_5884_b579_c257_7543_b3fa_0629_1d02_fd3f_f768_3620_6dec_75e1nat * 0x1000_0000_0000_0000_0000_0000_0000_0000_0000nat == 0x1f_5588_4b57_9c25_7754_3b3f_a062_91d0_2fd3_ff76_8362_06de_c75e_1000_0000_0000_0000_0000_0000_0000_0000_0000nat);
    lemma_power_known(
        0x3def_8e51, 0xef_8e51, 122, 0x1000_0000_0000_0000_0000_0000_0000_0000_0000nat,
        110025, 0x4_bb5c_edb4_a019,
        0x16_6408_52a6_9937_87d7_d147_4271nat,
        269025, 0x45_2c59_9066_9ca1,
        0x12b0_eff6_c049_6d6d_d948_5020_9d41nat,
        0x3_80ac_25b1_9d41, 0xc_44b5_7b9d_f8ff_2207_9e7a_ca81nat,
        0x3_80ac_2d2e_0fc9, 0xc_44b5_b00f_2c5d_6fee_5735_2bd1nat,
    );
}

/// Code 97.
proof fn lemma_entry_97()
    ensures
        nearest_to_power(0x3df4_d090, 111025, 269025),
{
    lemma_fifth_powers_of_two();
    assert(111025nat * 111025 * 111025 == 0x4_dcb1_9b81_d011);
    assert(0x4_dcb1_9b81_d011 * 0x4_dcb1_9b81_d011 == 0x17_a3ce_9a8e_061d_6349_f03d_a121nat);
    assert(0x1e9_a11f * 0x1e9_a11f == 0x3_a878_edd6_01c1);
    assert(0x3_a878_edd6_01c1 * 0x3_a878_edd6_01c1 == 0xd_61b4_844c_c26a_e716_48af_1381nat);
    assert(0x1e9_a121 * 0x1e9_a121 == 0x3_a878_f57c_8641);
    assert(0x3_a878_f57c_8641 * 0x3_a878_f57c_8641 == 0xd_61b4_bc45_a5e0_c27a_bf60_1c81nat);
    assert(269025nat * 269025 * 269025 == 0x45_2c59_9066_9ca1);
    assert(0x45_2c59_9066_9ca1 * 0x45_2c59_9066_9ca1 == 0x12b0_eff6_c049_6d6d_d948_5020_9d41nat);
    assert(0x12b0_eff6_c049_6d6d_d948_5020_9d41nat * 0x12b0_eff6_c049_6d6d_d948_5020_9d41nat == 0x15d_5c09_8741_6139_2178_92b9_bce5_5f46_89a2_dd05_b95f_0d00_50d8_ca81nat);
    assert(0x17_a3ce_9a8e_061d_6349_f03d_a121nat * 0x17_a3ce_9a8e_061d_6349_f03d_a121nat == 0x22e_d7f0_8513_0ef2_492b_4234_9165_1ddc_0b4a_9cb3_07c6_0f24_8641nat);
    assert(0xd_61b4_844c_c26a_e716_48af_1381nat * 0x1e9_a11f == 0x1998_0de2_12af_a9c4_2fd7_d5d5_29e0_7d9fnat);
    assert(0xd_61b4_bc45_a5e0_c27a_bf60_1c81nat * 0x1e9_a121 == 0x1998_0e67_e3bd_eca0_38bf_d2c4_8fb9_cda1nat);
    assert(0x1998_0de2_12af_a9c4_2fd7_d5d5_29e0_7d9fnat * 0x15d_5c09_8741_6139_2178_92b9_bce5_5f46_89a2_dd05_b95f_0d00_50d8_ca81nat == 0x22_ed7e_860e_edca_4b5c_7b9c_fb95_47f5_046b_d645_5969_0f93_6222_5da5_7b82_ec10_21a1_79dd_5ed0_8320_eb66_c31fnat);
    assert(0x1998_0e67_e3bd_eca0_38bf_d2c4_8fb9_cda1nat * 0x15d_5c09_8741_6139_2178_92b9_bce5_5f46_89a2_dd05_b95f_0d00_50d8_ca81nat == 0x22_ed7f_3cad_0a57_9e47_78c4_f20d_7181_c5ad_0559_b2f4_6e4c_a0bf_bf09_706e_b92f_d6e0_1539_4eeb_d07c_d8b9_a821nat);
    assert(0x22e_d7f0_8513_0ef2_492b_4234_9165_1ddc_0b4a_9cb3_07c6_0f24_8641nat * 0x1000_0000_0000_0000_0000_0000_0000_0000_0000nat == 0x22_ed7f_0851_30ef_2492_b423_4916_51dd_c0b4_a9cb_307c_60f2_4864_1000_0000_0000_0000_0000_0000_0000_0000_0000nat);
    lemma_power_known(
        0x3df4_d090, 0xf4_d090, 122, 0x1000_0000_0000_0000_0000_0000_0000_0000_0000nat,
        111025, 0x4_dcb1_9b81_d011,
        0x17_a3ce_9a8e_061d_6349_f03d_a121nat,
        269025, 0x45_2c59_9066_9ca1,
        0x12b0_eff6_c049_6d6d_d948_5020_9d41nat,
        0x3_a878_edd6_01c1, 0xd_61b4_844c_c26a_e716_48af_1381nat,
        0x3_a878_f57c_8641, 0xd_61b4_bc45_a5e0_c27a_bf60_1c81nat,
    );
}

/// Code 98.
proof fn lemma_entry_98()
    ensures
        nearest_to_power(0x3dfa_23e5, 112025, 269025),
{
    lemma_fifth_powers_of_two();
    assert(112025nat * 112025 * 112025 == 0x4_fea1_62f1_5589);
    assert(0x4_fea1_62f1_5589 * 0x4_fea1_62f1_5589 == 0x18_f24f_bd9f_2bcf_1b51_0c86_4351nat);
    assert(0x1f4_47c9 * 0x1f4_47c9 == 0x3_d1a8_7d49_1bd1);
    assert(0x3_d1a8_7d49_1bd1 * 0x3_d1a8_7d49_1bd1 == 0xe_95a7_7b2c_b396_3e5a_fa37_c0a1nat);
    assert(0x1f4_47cb * 0x1f4_47cb == 0x3_d1a8_851a_3af9);
    assert(0x3_d1a8_851a_3af9 * 0x3_d1a8_851a_3af9 == 0xe_95a7_b6e1_2dc2_3cc6_c229_c631nat);
    assert(269025nat * 269025 * 269025 == 0x45_2c59_9066_9ca1);
    assert(0x45_2c59_9066_9ca1 * 0x45_2c59_9066_9ca1 == 0x12b0_eff6_c049_6d6d_d948_5020_9d41nat);
    assert(0x12b0_eff6_c049_6d6d_d948_5020_9d41nat * 0x12b0_eff6_c049_6d6d_d948_5020_9d41nat == 0x15d_5c09_8741_6139_2178_92b9_bce5_5f46_89a2_dd05_b95f_0d00_50d8_ca81nat);
    assert(0x18_f24f_bd9f_2bcf_1b51_0c86_4351nat * 0x18_f24f_bd9f_2bcf_1b51_0c86_4351nat == 0x26e_544e_692f_ba5a_2251_b1f9_0738_e85c_c6a9_52c4_8bfc_227f_7fa1nat);
    assert(0xe_95a7_7b2c_b396_3e5a_fa37_c0a1nat * 0x1f4_47c9 == 0x1c80_6211_86f7_dd59_75f2_e5b8_26a6_e569nat);
    assert(0xe_95a7_b6e1_2dc2_3cc6_c229_c631nat * 0x1f4_47cb == 0x1c80_62a3_5f83_d79e_dc14_8b0c_a4cb_bfdbnat);
    assert(0x1c80_6211_86f7_dd59_75f2_e5b8_26a6_e569nat * 0x15d_5c09_8741_6139_2178_92b9_bce5_5f46_89a2_dd05_b95f_0d00_50d8_ca81nat == 0x26_e544_e4b5_ba2a_bb51_2888_1578_1225_19d6_0b91_2447_99a4_7a1f_7dde_00af_5bd5_2b95_fb9c_f4bb_29cd_8bb6_73e9nat);
    assert(0x1c80_62a3_5f83_d79e_dc14_8b0c_a4cb_bfdbnat * 0x15d_5c09_8741_6139_2178_92b9_bce5_5f46_89a2_dd05_b95f_0d00_50d8_ca81nat == 0x26_e545_abbe_603e_e53b_51a9_9f56_0dc2_cd72_6ac5_9193_1890_4a8c_30d3_5e9b_ac9a_3c6b_f565_303f_e246_20d6_7b5bnat);
    assert(0x26e_544e_692f_ba5a_2251_b1f9_0738_e85c_c6a9_52c4_8bfc_227f_7fa1nat * 0x1000_0000_0000_0000_0000_0000_0000_0000_0000nat == 0x26_e544_e692_fba5_a225_1b1f_9073_8e85_cc6a_952c_48bf_c227_f7fa_1000_0000_0000_0000_0000_0000_0000_0000_0000nat);
    lemma_power_known(
        0x3dfa_23e5, 0xfa_23e5, 122, 0x1000_0000_0000_0000_0000_0000_0000_0000_0000nat,
        112025, 0x4_fea1_62f1_5589,
        0x18_f24f_bd9f_2bcf_1b51_0c86_4351nat,
        269025, 0x45_2c59_9066_9ca1,
        0x12b0_eff6_c049_6d6d_d948_5020_9d41nat,
        0x3_d1a8_7d49_1bd1, 0xe_95a7_7b2c_b396_3e5a_fa37_c0a1nat,
        0x3_d1a8_851a_3af9, 0xe_95a7_b6e1_2dc2_3cc6_c229_c631nat,
    );
}

/// Code 99.
proof fn lemma_entry_99()
    ensures
        nearest_to_power(0x3dff_885e, 113025, 269025),
{
    lemma_fifth_powers_of_two();
    assert(113025nat * 113025 * 113025 == 0x5_212d_a9a3_ec81);
    assert(0x5_212d_a9a3_ec81 * 0x5_212d_a9a3_ec81 == 0x1a_5015_6e48_940e_3e93_58c4_1901nat);
    assert(0x1ff_10bb * 0x1ff_10bb == 0x3_fc43_cba1_e899);
    assert(0x3_fc43_cba1_e899 * 0x3_fc43_cba1_e899 == 0xf_e22c_50a6_6e3d_255f_09c7_ab71nat);
    assert(0x1ff_10bd * 0x1ff_10bd == 0x3_fc43_d39e_2b89);
    assert(0x3_fc43_d39e_2b89 * 0x3_fc43_d39e_2b89 == 0xf_e22c_904c_dea4_9f33_9a83_4f51nat);
    assert(269025nat * 269025 * 269025 == 0x45_2c59_9066_9ca1);
    assert(0x45_2c59_9066_9ca1 * 0x45_2c59_9066_9ca1 == 0x12b0_eff6_c049_6d6d_d948_5020_9d41nat);
    assert(0x12b0_eff6_c049_6d6d_d948_5020_9d41nat * 0x12b0_eff6_c049_6d6d_d948_5020_9d41nat == 0x15d_5c09_8741_6139_2178_92b9_bce5_5f46_89a2_dd05_b95f_0d00_50d8_ca81nat);
    assert(0x1a_5015_6e48_940e_3e93_58c4_1901nat * 0x1a_5015_6e48_940e_3e93_58c4_1901nat == 0x2b4_5d67_cd76_b6d8_5b30_3ee6_8050_7401_12b9_f034_9a8c_fbf9_3201nat);
    assert(0xf_e22c_50a6_6e3d_255f_09c7_ab71nat * 0x1ff_10bb == 0x1fb5_8031_f79f_5c83_f1b4_c297_d620_4b8bnat);
    assert(0xf_e22c_904c_dea4_9f33_9a83_4f51nat * 0x1ff_10bd == 0x1fb5_80d0_cd5b_c144_717e_2edc_9a95_9ecdnat);
    assert(0x1fb5_8031_f79f_5c83_f1b4_c297_d620_4b8bnat * 0x15d_5c09_8741_6139_2178_92b9_bce5_5f46_89a2_dd05_b95f_0d00_50d8_ca81nat == 0x2b_45d6_2c52_daba_d920_e6e8_61cc_100d_92f5_02c3_b43d_04bf_bc20_3e69_19e2_ae9b_2ff0_23b3_3013_af53_8f29_bf0bnat);
    assert(0x1fb5_80d0_cd5b_c144_717e_2edc_9a95_9ecdnat * 0x15d_5c09_8741_6139_2178_92b9_bce5_5f46_89a2_dd05_b95f_0d00_50d8_ca81nat == 0x2b_45d7_0515_5749_56aa_c597_b248_f4f8_d17f_b07c_ece7_a8db_caaa_6828_3a27_2400_f0a5_5a49_e824_4802_01aa_c74dnat);
    assert(0x2b4_5d67_cd76_b6d8_5b30_3ee6_8050_7401_12b9_f034_9a8c_fbf9_3201nat * 0x1000_0000_0000_0000_0000_0000_0000_0000_0000nat == 0x2b_45d6_7cd7_6b6d_85b3_03ee_6805_0740_112b_9f03_49a8_cfbf_9320_1000_0000_0000_0000_0000_0000_0000_0000_0000nat);
    lemma_power_known(
        0x3dff_885e, 0xff_885e, 122, 0x1000_0000_0000_0000_0000_0000_0000_0000_0000nat,
        113025, 0x5_212d_a9a3_ec81,
        0x1a_5015_6e48_940e_3e93_58c4_1901nat,
        269025, 0x45_2c59_9066_9ca1,
        0x12b0_eff6_c049_6d6d_d948_5020_9d41nat,
        0x3_fc43_cba1_e899, 0xf_e22c_50a6_6e3d_255f_09c7_ab71nat,
        0x3_fc43_d39e_2b89, 0xf_e22c_904c_dea4_9f33_9a83_4f51nat,
    );
}

/// Code 100.
proof fn lemma_entry_100()
    ensures
        nearest_to_power(0x3e02_7f06, 114025, 269025),
{
    lemma_fifth_powers_of_two();
    assert(114025nat * 114025 * 114025 == 0x5_4457_d53a_50f9);
    assert(0x5_4457_d53a_50f9 * 0x5_4457_d53a_50f9 == 0x1b_bdad_1bb0_c3fb_6945_2470_9231nat);
    assert(0x104_fe0b * 0x104_fe0b == 0x1_0a15_0271_d479);
    assert(0x1_0a15_0271_d479 * 0x1_0a15_0271_d479 == 0x1_148f_aacd_f43e_49c9_272a_a131nat);
    assert(0x104_fe0d * 0x104_fe0d == 0x1_0a15_0685_cca9);
    assert(0x1_0a15_0685_cca9 * 0x1_0a15_0685_cca9 == 0x1_148f_b348_1f6d_5340_3737_c791nat);
    assert(269025nat * 269025 * 269025 == 0x45_2c59_9066_9ca1);
    assert(0x45_2c59_9066_9ca1 * 0x45_2c59_9066_9ca1 == 0x12b0_eff6_c049_6d6d_d948_5020_9d41nat);
    assert(0x12b0_eff6_c049_6d6d_d948_5020_9d41nat * 0x12b0_eff6_c049_6d6d_d948_5020_9d41nat == 0x15d_5c09_8741_6139_2178_92b9_bce5_5f46_89a2_dd05_b95f_0d00_50d8_ca81nat);
    assert(0x1b_bdad_1bb0_c3fb_6945_2470_9231nat * 0x1b_bdad_1bb0_c3fb_6945_2470_9231nat == 0x301_8f0c_e73a_c851_1337_26ee_9c60_b83c_1766_53e0_db08_065b_ed61nat);
    assert(0x1_148f_aacd_f43e_49c9_272a_a131nat * 0x104_fe0b == 0x119_f45b_e6d0_be72_3c2e_87cc_b087_8b1bnat);
    assert(0x1_148f_b348_1f6d_5340_3737_c791nat * 0x104_fe0d == 0x119_f466_b46d_94e0_9e5f_05b2_d51b_005dnat);
    assert(0x119_f45b_e6d0_be72_3c2e_87cc_b087_8b1bnat * 0x15d_5c09_8741_6139_2178_92b9_bce5_5f46_89a2_dd05_b95f_0d00_50d8_ca81nat == 0x1_80c7_7f99_40a0_5a14_92ba_0ba1_a69c_de4b_f3e4_5d96_d156_da71_00a4_6919_0d88_05e6_4e10_9a8e_9e45_b6d8_669bnat);
    assert(0x119_f466_b46d_94e0_9e5f_05b2_d51b_005dnat * 0x15d_5c09_8741_6139_2178_92b9_bce5_5f46_89a2_dd05_b95f_0d00_50d8_ca81nat == 0x1_80c7_8e57_71bb_fb53_a838_d5e6_829f_5187_645d_5d43_bca5_54b2_f974_d306_eeb3_d70d_8c07_3064_f32a_0f5c_90ddnat);
    assert(0x301_8f0c_e73a_c851_1337_26ee_9c60_b83c_1766_53e0_db08_065b_ed61nat * 0x80_0000_0000_0000_0000_0000_0000_0000_0000nat == 0x1_80c7_8673_9d64_2889_9b93_774e_305c_1e0b_b329_f06d_8403_2df6_b080_0000_0000_0000_0000_0000_0000_0000_0000nat);
    lemma_power_known(
        0x3e02_7f06, 0x82_7f06, 123, 0x80_0000_0000_0000_0000_0000_0000_0000_0000nat,
        114025, 0x5_4457_d53a_50f9,
        0x1b_bdad_1bb0_c3fb_6945_2470_9231nat,
        269025, 0x45_2c59_9066_9ca1,
        0x12b0_eff6_c049_6d6d_d948_5020_9d41nat,
        0x1_0a15_0271_d479, 0x1_148f_aacd_f43e_49c9_272a_a131nat,
        0x1_0a15_0685_cca9, 0x1_148f_b348_1f6d_5340_3737_c791nat,
    );
}

/// Code 101.
proof fn lemma_entry_101()
    ensures
        nearest_to_power(0x3e05_427f, 115025, 269025),
{
    lemma_fifth_powers_of_two();
    assert(115025nat * 115025 * 115025 == 0x5_6821_4b55_3ef1);
    assert(0x5_6821_4b55_3ef1 * 0x5_6821_4b55_3ef1 == 0x1d_3ba8_02de_3ab3_1966_1183_9ee1nat);
    assert(0x10a_84fd * 0x10a_84fd == 0x1_1578_a2d9_e209);
    assert(0x1_1578_a2d9_e209 * 0x1_1578_a2d9_e209 == 0x1_2cbe_4944_9703_ddf4_5ed5_e451nat);
    assert(0x10a_84ff * 0x10a_84ff == 0x1_1578_a703_f601);
    assert(0x1_1578_a703_f601 * 0x1_1578_a703_f601 == 0x1_2cbe_524b_930a_f5f4_fe6b_ec01nat);
    assert(269025nat * 269025 * 269025 == 0x45_2c59_9066_9ca1);
    assert(0x45_2c59_9066_9ca1 * 0x45_2c59_9066_9ca1 == 0x12b0_eff6_c049_6d6d_d948_5020_9d41nat);
    assert(0x12b0_eff6_c049_6d6d_d948_5020_9d41nat * 0x12b0_eff6_c049_6d6d_d948_5020_9d41nat == 0x15d_5c09_8741_6139_2178_92b9_bce5_5f46_89a2_dd05_b95f_0d00_50d8_ca81nat);
    assert(0x1d_3ba8_02de_3ab3_1966_1183_9ee1nat * 0x1d_3ba8_02de_3ab3_1966_1183_9ee1nat == 0x356_91f7_85ef_7f57_93bb_0256_f111_7344_4c67_cdc3_4c11_dee0_81c1nat);
    assert(0x1_2cbe_4944_9703_ddf4_5ed5_e451nat * 0x10a_84fd == 0x139_19f3_771a_b0ab_dd2e_e5a7_3f46_680dnat);
    assert(0x1_2cbe_524b_930a_f5f4_fe6b_ec01nat * 0x10a_84ff == 0x139_19ff_3689_ba7c_af4d_ae5c_4c3a_98ffnat);
    assert(0x139_19f3_771a_b0ab_dd2e_e5a7_3f46_680dnat * 0x15d_5c09_8741_6139_2178_92b9_bce5_5f46_89a2_dd05_b95f_0d00_50d8_ca81nat == 0x1_ab48_f1e4_3465_850f_ca8e_d5ca_b16f_b328_5dd0_980f_9cf4_14b9_62c2_74d8_94ac_22dd_0641_13d6_be20_4b8c_b08dnat);
    assert(0x139_19ff_3689_ba7c_af4d_ae5c_4c3a_98ffnat * 0x15d_5c09_8741_6139_2178_92b9_bce5_5f46_89a2_dd05_b95f_0d00_50d8_ca81nat == 0x1_ab49_01ec_6801_be20_41e7_c04e_2624_60df_3735_deb3_80e2_49d8_89bb_983c_3426_2d51_fd58_9ed2_44e9_6d68_4e7fnat);
    assert(0x356_91f7_85ef_7f57_93bb_0256_f111_7344_4c67_cdc3_4c11_dee0_81c1nat * 0x80_0000_0000_0000_0000_0000_0000_0000_0000nat == 0x1_ab48_fbc2_f7bf_abc9_dd81_2b78_88b9_a226_33e6_e1a6_08ef_7040_e080_0000_0000_0000_0000_0000_0000_0000_0000nat);
    lemma_power_known(
        0x3e05_427f, 0x85_427f, 123, 0x80_0000_0000_0000_0000_0000_0000_0000_0000nat,
        115025, 0x5_6821_4b55_3ef1,
        0x1d_3ba8_02de_3ab3_1966_1183_9ee1nat,
        269025, 0x45_2c59_9066_9ca1,
        0x12b0_eff6_c049_6d6d_d948_5020_9d41nat,
        0x1_1578_a2d9_e209, 0x1_2cbe_4944_9703_ddf4_5ed5_e451nat,
        0x1_1578_a703_f601, 0x1_2cbe_524b_930a_f5f4_fe6b_ec01nat,
    );
}

/// Code 102.
proof fn lemma_entry_102()
    ensures
        nearest_to_power(0x3e08_0ea2, 116025, 269025),
{
    lemma_fifth_powers_of_two();
    assert(116025nat * 116025 * 116025 == 0x5_8c8b_7195_7269);
    assert(0x5_8c8b_7195_7269 * 0x5_8c8b_7195_7269 == 0x1e_ca9b_4006_77ec_5c45_135b_af11nat);
    assert(0x110_1d43 * 0x110_1d43 == 0x1_213e_31b8_3f89);
    assert(0x1_213e_31b8_3f89 * 0x1_213e_31b8_3f89 == 0x1_46cd_7b5e_1e5a_2549_d6b4_b751nat);
    assert(0x110_1d45 * 0x110_1d45 == 0x1_213e_35f8_b499);
    assert(0x1_213e_35f8_b499 * 0x1_213e_35f8_b499 == 0x1_46cd_84f9_b799_d881_c1d7_8371nat);
    assert(269025nat * 269025 * 269025 == 0x45_2c59_9066_9ca1);
    assert(0x45_2c59_9066_9ca1 * 0x45_2c59_9066_9ca1 == 0x12b0_eff6_c049_6d6d_d948_5020_9d41nat);
    assert(0x12b0_eff6_c049_6d6d_d948_5020_9d41nat * 0x12b0_eff6_c049_6d6d_d948_5020_9d41nat == 0x15d_5c09_8741_6139_2178_92b9_bce5_5f46_89a2_dd05_b95f_0d00_50d8_ca81nat);
    assert(0x1e_ca9b_4006_77ec_5c45_135b_af11nat * 0x1e_ca9b_4006_77ec_5c45_135b_af11nat == 0x3b4_1cbc_60b4_e87f_1625_4d13_9e36_0b07_5b25_ec0f_53fc_73ce_3f21nat);
    assert(0x1_46cd_7b5e_1e5a_2549_d6b4_b751nat * 0x110_1d43 == 0x15b_5fad_e2c1_32d9_c645_3fa8_7020_2733nat);
    assert(0x1_46cd_84f9_b799_d881_c1d7_8371nat * 0x110_1d45 == 0x15b_5fba_a6c8_3490_f3dc_02ea_510a_3a75nat);
    assert(0x15b_5fad_e2c1_32d9_c645_3fa8_7020_2733nat * 0x15d_5c09_8741_6139_2178_92b9_bce5_5f46_89a2_dd05_b95f_0d00_50d8_ca81nat == 0x1_da0e_535e_8428_a475_69c3_726a_276b_d5ba_1cca_f394_27b5_9c57_0e67_18a8_4192_93b1_9574_ef33_3aba_e229_feb3nat);
    assert(0x15b_5fba_a6c8_3490_f3dc_02ea_510a_3a75nat * 0x15d_5c09_8741_6139_2178_92b9_bce5_5f46_89a2_dd05_b95f_0d00_50d8_ca81nat == 0x1_da0e_64ca_58a2_22ad_c4ed_6cbd_4a8c_33eb_4098_7bd9_7d9c_de88_b2bf_697c_266d_453d_e272_ee94_dfea_caff_c6f5nat);
    assert(0x3b4_1cbc_60b4_e87f_1625_4d13_9e36_0b07_5b25_ec0f_53fc_73ce_3f21nat * 0x80_0000_0000_0000_0000_0000_0000_0000_0000nat == 0x1_da0e_5e30_5a74_3f8b_12a6_89cf_1b05_83ad_92f6_07a9_fe39_e71f_9080_0000_0000_0000_0000_0000_0000_0000_0000nat);
    lemma_power_known(
        0x3e08_0ea2, 0x88_0ea2, 123, 0x80_0000_0000_0000_0000_0000_0000_0000_0000nat,
        116025, 0x5_8c8b_7195_7269,
        0x1e_ca9b_4006_77ec_5c45_135b_af11nat,
        269025, 0x45_2c59_9066_9ca1,
        0x12b0_eff6_c049_6d6d_d948_5020_9d41nat,
        0x1_213e_31b8_3f89, 0x1_46cd_7b5e_1e5a_2549_d6b4_b751nat,
        0x1_213e_35f8_b499, 0x1_46cd_84f9_b799_d881_c1d7_8371nat,
    );
}

/// Code 103.
proof fn lemma_entry_103()
    ensures
        nearest_to_power(0x3e0a_e377, 117025, 269025),
{
    lemma_fifth_powers_of_two();
    assert(117025nat * 117025 * 117025 == 0x5_b197_ad9b_a761);
    assert(0x5_b197_ad9b_a761 * 0x5_b197_ad9b_a761 == 0x20_6b1f_e004_0a99_554b_36e5_b2c1nat);
    assert(0x115_c6ed * 0x115_c6ed == 0x1_2d68_1775_7769);
    assert(0x1_2d68_1775_7769 * 0x1_2d68_1775_7769 == 0x1_62dd_f17d_4c64_40ab_3bac_c911nat);
    assert(0x115_c6ef * 0x115_c6ef == 0x1_2d68_1bcc_9321);
    assert(0x1_2d68_1bcc_9321 * 0x1_2d68_1bcc_9321 == 0x1_62dd_fbb5_ab37_ef53_c726_ea41nat);
    assert(269025nat * 269025 * 269025 == 0x45_2c59_9066_9ca1);
    assert(0x45_2c59_9066_9ca1 * 0x45_2c59_9066_9ca1 == 0x12b0_eff6_c049_6d6d_d948_5020_9d41nat);
    assert(0x12b0_eff6_c049_6d6d_d948_5020_9d41nat * 0x12b0_eff6_c049_6d6d_d948_5020_9d41nat == 0x15d_5c09_8741_6139_2178_92b9_bce5_5f46_89a2_dd05_b95f_0d00_50d8_ca81nat);
    assert(0x20_6b1f_e004_0a99_554b_36e5_b2c1nat * 0x20_6b1f_e004_0a99_554b_36e5_b2c1nat == 0x41a_f4cb_aa3e_0c33_23d9_ec06_a03b_4159_ef1c_7dc2_9c98_b61a_f581nat);
    assert(0x1_62dd_f17d_4c64_40ab_3bac_c911nat * 0x115_c6ed == 0x181_0de6_7cd3_228f_3c1b_e0a3_71de_4abdnat);
    assert(0x1_62dd_fbb5_ab37_ef53_c726_ea41nat * 0x115_c6ef == 0x181_0df4_597e_c48e_11f9_b85a_7ed7_f8afnat);
    assert(0x181_0de6_7cd3_228f_3c1b_e0a3_71de_4abdnat * 0x15d_5c09_8741_6139_2178_92b9_bce5_5f46_89a2_dd05_b95f_0d00_50d8_ca81nat == 0x2_0d7a_628b_ee77_b0a8_713d_6622_254f_3d7c_21d9_1a72_bab9_b95b_78e5_8b3f_fa27_e01c_ae4d_81b9_4e1f_e774_cb3dnat);
    assert(0x181_0df4_597e_c48e_11f9_b85a_7ed7_f8afnat * 0x15d_5c09_8741_6139_2178_92b9_bce5_5f46_89a2_dd05_b95f_0d00_50d8_ca81nat == 0x2_0d7a_7576_c045_4c3b_1534_380f_a0e4_e80e_6a48_b430_41c5_d3f1_e925_96ed_d2cf_ccb7_05cd_a5dd_b4a0_d8b6_662fnat);
    assert(0x41a_f4cb_aa3e_0c33_23d9_ec06_a03b_4159_ef1c_7dc2_9c98_b61a_f581nat * 0x80_0000_0000_0000_0000_0000_0000_0000_0000nat == 0x2_0d7a_65d5_1f06_1991_ecf6_0350_1da0_acf7_8e3e_e14e_4c5b_0d7a_c080_0000_0000_0000_0000_0000_0000_0000_0000nat);
    lemma_power_known(
        0x3e0a_e377, 0x8a_e377, 123, 0x80_0000_0000_0000_0000_0000_0000_0000_0000nat,
        117025, 0x5_b197_ad9b_a761,
        0x20_6b1f_e004_0a99_554b_36e5_b2c1nat,
        269025, 0x45_2c59_9066_9ca1,
        0x12b0_eff6_c049_6d6d_d948_5020_9d41nat,
        0x1_2d68_1775_7769, 0x1_62dd_f17d_4c64_40ab_3bac_c911nat,
        0x1_2d68_1bcc_9321, 0x1_62dd_fbb5_ab37_ef53_c726_ea41nat,
    );
}

/// Code 104.
proof fn lemma_entry_104()
    ensures
        nearest_to_power(0x3e0d_c104, 118025, 269025),
{
    lemma_fifth_powers_of_two();
    assert(118025nat * 118025 * 118025 == 0x5_d747_6508_99d9);
    assert(0x5_d747_6508_99d9 * 0x5_d747_6508_99d9 == 0x22_1dd2_f1f3_a789_9e0d_3405_19f1nat);
    assert(0x11b_8207 * 0x11b_8207 == 0x1_39f8_bd85_1c31);
    assert(0x1_39f8_bd85_1c31 * 0x1_39f8_bd85_1c31 == 0x1_8112_311f_3d24_41c6_a804_c161nat);
    assert(0x11b_8209 * 0x11b_8209 == 0x1_39f8_c1f3_2451);
    assert(0x1_39f8_c1f3_2451 * 0x1_39f8_c1f3_2451 == 0x1_8112_3bfc_e8d4_f2a0_18ec_e1a1nat);
    assert(269025nat * 269025 * 269025 == 0x45_2c59_9066_9ca1);
    assert(0x45_2c59_9066_9ca1 * 0x45_2c59_9066_9ca1 == 0x12b0_eff6_c049_6d6d_d948_5020_9d41nat);
    assert(0x12b0_eff6_c049_6d6d_d948_5020_9d41nat * 0x12b0_eff6_c049_6d6d_d948_5020_9d41nat == 0x15d_5c09_8741_6139_2178_92b9_bce5_5f46_89a2_dd05_b95f_0d00_50d8_ca81nat);
    assert(0x22_1dd2_f1f3_a789_9e0d_3405_19f1nat * 0x22_1dd2_f1f3_a789_9e0d_3405_19f1nat == 0x48b_ef81_bd5b_8cee_b070_b549_2375_4b7f_a3b8_d10e_311d_ee0a_f4e1nat);
    assert(0x1_8112_311f_3d24_41c6_a804_c161nat * 0x11b_8207 == 0x1aa_72b2_11f9_cbfb_cc00_6b02_c88f_8ba7nat);
    assert(0x1_8112_3bfc_e8d4_f2a0_18ec_e1a1nat * 0x11b_8209 == 0x1aa_72c1_1caf_ed88_89ad_6226_97e2_b0a9nat);
    assert(0x1aa_72b2_11f9_cbfb_cc00_6b02_c88f_8ba7nat * 0x15d_5c09_8741_6139_2178_92b9_bce5_5f46_89a2_dd05_b95f_0d00_50d8_ca81nat == 0x2_45f7_add9_d7a8_78ad_d4d3_924a_c268_d9bf_5d2a_cead_a1d6_3b2b_dc64_536b_b6b4_497a_ed48_15bc_ae6a_596f_2527nat);
    assert(0x1aa_72c1_1caf_ed88_89ad_6226_97e2_b0a9nat * 0x15d_5c09_8741_6139_2178_92b9_bce5_5f46_89a2_dd05_b95f_0d00_50d8_ca81nat == 0x2_45f7_c260_da5c_fc7f_a617_6b7f_3fb2_74cb_1de4_12ea_e106_6202_3bb8_2e1b_63f4_6041_4434_4287_7cc5_4738_5f29nat);
    assert(0x48b_ef81_bd5b_8cee_b070_b549_2375_4b7f_a3b8_d10e_311d_ee0a_f4e1nat * 0x80_0000_0000_0000_0000_0000_0000_0000_0000nat == 0x2_45f7_c0de_adc6_7758_385a_a491_baa5_bfd1_dc68_8718_8ef7_057a_7080_0000_0000_0000_0000_0000_0000_0000_0000nat);
    lemma_power_known(
        0x3e0d_c104, 0x8d_c104, 123, 0x80_0000_0000_0000_0000_0000_0000_0000_0000nat,
        118025, 0x5_d747_6508_99d9,
        0x22_1dd2_f1f3_a789_9e0d_3405_19f1nat,
        269025, 0x45_2c59_9066_9ca1,
        0x12b0_eff6_c049_6d6d_d948_5020_9d41nat,
        0x1_39f8_bd85_1c31, 0x1_8112_311f_3d24_41c6_a804_c161nat,
        0x1_39f8_c1f3_2451, 0x1_8112_3bfc_e8d4_f2a0_18ec_e1a1nat,
    );
}

/// Code 105.
proof fn lemma_entry_105()
    ensures
        nearest_to_power(0x3e10_a753, 119025, 269025),
{
    lemma_fifth_powers_of_two();
    assert(119025nat * 119025 * 119025 == 0x5_fd9b_fd7d_05d1);
    assert(0x5_fd9b_fd7d_05d1 * 0x5_fd9b_fd7d_05d1 == 0x23_e355_98f8_480e_7fa3_c83b_d4a1nat);
    assert(0x121_4ea5 * 0x121_4ea5 == 0x1_46f2_a8b2_f659);
    assert(0x1_46f2_a8b2_f659 * 0x1_46f2_a8b2_f659 == 0x1_a18e_ebab_2cef_ccb4_50d3_2af1nat);
    assert(0x121_4ea7 * 0x121_4ea7 == 0x1_46f2_ad38_30f1);
    assert(0x1_46f2_ad38_30f1 * 0x1_46f2_ad38_30f1 == 0x1_a18e_f737_1017_521f_2ccb_42e1nat);
    assert(269025nat * 269025 * 269025 == 0x45_2c59_9066_9ca1);
    assert(0x45_2c59_9066_9ca1 * 0x45_2c59_9066_9ca1 == 0x12b0_eff6_c049_6d6d_d948_5020_9d41nat);
    assert(0x12b0_eff6_c049_6d6d_d948_5020_9d41nat * 0x12b0_eff6_c049_6d6d_d948_5020_9d41nat == 0x15d_5c09_8741_6139_2178_92b9_bce5_5f46_89a2_dd05_b95f_0d00_50d8_ca81nat);
    assert(0x23_e355_98f8_480e_7fa3_c83b_d4a1nat * 0x23_e355_98f8_480e_7fa3_c83b_d4a1nat == 0x507_f348_bdca_f408_3d22_e02b_2a90_0f84_9f89_c762_0d3d_42d1_0d41nat);
    assert(0x1_a18e_ebab_2cef_ccb4_50d3_2af1nat * 0x121_4ea5 == 0x1d7_e29e_b929_c7bb_1e7d_1f3b_e941_1b55nat);
    assert(0x1_a18e_f737_1017_521f_2ccb_42e1nat * 0x121_4ea7 == 0x1d7_e2af_08bf_3626_4f6d_a372_a6fa_2ec7nat);
    assert(0x1d7_e29e_b929_c7bb_1e7d_1f3b_e941_1b55nat * 0x15d_5c09_8741_6139_2178_92b9_bce5_5f46_89a2_dd05_b95f_0d00_50d8_ca81nat == 0x2_83f9_9963_c11a_4477_2d03_36c1_6101_ddba_1597_19db_a6e2_25f1_2638_cd21_c1e9_0e19_af19_0b11_7bb7_8917_d7d5nat);
    assert(0x1d7_e2af_08bf_3626_4f6d_a372_a6fa_2ec7nat * 0x15d_5c09_8741_6139_2178_92b9_bce5_5f46_89a2_dd05_b95f_0d00_50d8_ca81nat == 0x2_83f9_afa6_1d06_eaaa_8039_a66d_b920_5ece_8edd_9156_85b9_532c_096c_335f_7c59_5bf0_1593_255c_013d_34e2_9847nat);
    assert(0x507_f348_bdca_f408_3d22_e02b_2a90_0f84_9f89_c762_0d3d_42d1_0d41nat * 0x80_0000_0000_0000_0000_0000_0000_0000_0000nat == 0x2_83f9_a45e_e57a_041e_9170_1595_4807_c24f_c4e3_b106_9ea1_6886_a080_0000_0000_0000_0000_0000_0000_0000_0000nat);
    lemma_power_known(
        0x3e10_a753, 0x90_a753, 123, 0x80_0000_0000_0000_0000_0000_0000_0000_0000nat,
        119025, 0x5_fd9b_fd7d_05d1,
        0x23_e355_98f8_480e_7fa3_c83b_d4a1nat,
        269025, 0x45_2c59_9066_9ca1,
        0x12b0_eff6_c049_6d6d_d948_5020_9d41nat,
        0x1_46f2_a8b2_f659, 0x1_a18e_ebab_2cef_ccb4_50d3_2af1nat,
        0x1_46f2_ad38_30f1, 0x1_a18e_f737_1017_521f_2ccb_42e1nat,
    );
}

/// Code 106.
proof fn lemma_entry_106()
    ensures
        nearest_to_power(0x3e13_966a, 120025, 269025),
{
    lemma_fifth_powers_of_two();
    assert(120025nat * 120025 * 120025 == 0x6_2496_dc99_a749);
    assert(0x6_2496_dc99_a749 * 0x6_2496_dc99_a749 == 0x25_bc4d_1e26_50a1_054a_da92_52d1nat);
    assert(0x127_2cd3 * 0x127_2cd3 == 0x1_5458_5623_35e9);
    assert(0x1_5458_5623_35e9 * 0x1_5458_5623_35e9 == 0x1_c47a_c348_dc63_a540_5510_4e11nat);
    assert(0x127_2cd5 * 0x127_2cd5 == 0x1_5458_5abf_e939);
    assert(0x1_5458_5abf_e939 * 0x1_5458_5abf_e939 == 0x1_c47a_cf8c_479b_3f09_eb86_ceb1nat);
    assert(269025nat * 269025 * 269025 == 0x45_2c59_9066_9ca1);
    assert(0x45_2c59_9066_9ca1 * 0x45_2c59_9066_9ca1 == 0x12b0_eff6_c049_6d6d_d948_5020_9d41nat);
    assert(0x12b0_eff6_c049_6d6d_d948_5020_9d41nat * 0x12b0_eff6_c049_6d6d_d948_5020_9d41nat == 0x15d_5c09_8741_6139_2178_92b9_bce5_5f46_89a2_dd05_b95f_0d00_50d8_ca81nat);
    assert(0x25_bc4d_1e26_50a1_054a_da92_52d1nat * 0x25_bc4d_1e26_50a1_054a_da92_52d1nat == 0x58f_f8cc_1296_bb91_88e8_14ca_7c1c_6971_f447_9953_9382_852e_8ea1nat);
    assert(0x1_c47a_c348_dc63_a540_5510_4e11nat * 0x127_2cd3 == 0x209_b8b1_13b5_71c2_33aa_486e_df72_4403nat);
    assert(0x1_c47a_cf8c_479b_3f09_eb86_ceb1nat * 0x127_2cd5 == 0x209_b8c2_c081_4feb_e76f_9014_50a7_6545nat);
    assert(0x209_b8b1_13b5_71c2_33aa_486e_df72_4403nat * 0x15d_5c09_8741_6139_2178_92b9_bce5_5f46_89a2_dd05_b95f_0d00_50d8_ca81nat == 0x2_c7fc_5b32_a54e_65c7_5806_9da1_e43c_06c0_52a1_c550_98b2_61c0_7d8d_5d24_9a2c_1356_68e5_5ee7_60d9_14c6_a383nat);
    assert(0x209_b8c2_c081_4feb_e76f_9014_50a7_6545nat * 0x15d_5c09_8741_6139_2178_92b9_bce5_5f46_89a2_dd05_b95f_0d00_50d8_ca81nat == 0x2_c7fc_7351_91fd_f246_5061_f06b_8e03_59cf_8198_744d_ac60_9d83_75a2_76ab_5d68_1a17_0764_82ff_7fc3_bc7a_79c5nat);
    assert(0x58f_f8cc_1296_bb91_88e8_14ca_7c1c_6971_f447_9953_9382_852e_8ea1nat * 0x80_0000_0000_0000_0000_0000_0000_0000_0000nat == 0x2_c7fc_6609_4b5d_c8c4_740a_653e_0e34_b8fa_23cc_a9c9_c142_9747_5080_0000_0000_0000_0000_0000_0000_0000_0000nat);
    lemma_power_known(
        0x3e13_966a, 0x93_966a, 123, 0x80_0000_0000_0000_0000_0000_0000_0000_0000nat,
        120025, 0x6_2496_dc99_a749,
        0x25_bc4d_1e26_50a1_054a_da92_52d1nat,
        269025, 0x45_2c59_9066_9ca1,
        0x12b0_eff6_c049_6d6d_d948_5020_9d41nat,
        0x1_5458_5623_35e9, 0x1_c47a_c348_dc63_a540_5510_4e11nat,
        0x1_5458_5abf_e939, 0x1_c47a_cf8c_479b_3f09_eb86_ceb1nat,
    );
}

/// Code 107.
proof fn lemma_entry_107()
    ensures
        nearest_to_power(0x3e16_8e51, 121025, 269025),
{
    lemma_fifth_powers_of_two();
    assert(121025nat * 121025 * 121025 == 0x6_4c39_67ff_3a41);
    assert(0x6_4c39_67ff_3a41 * 0x6_4c39_67ff_3a41 == 0x27_a963_0295_bf89_e847_68bf_8481nat);
    assert(0x12d_1ca1 * 0x12d_1ca1 == 0x1_622c_55cd_9d41);
    assert(0x1_622c_55cd_9d41 * 0x1_622c_55cd_9d41 == 0x1_e9fe_a4fa_4258_01ea_64b2_ca81nat);
    assert(0x12d_1ca3 * 0x12d_1ca3 == 0x1_622c_5a82_0fc9);
    assert(0x1_622c_5a82_0fc9 * 0x1_622c_5a82_0fc9 == 0x1_e9fe_b1fe_f05d_0645_5d1d_2bd1nat);
    assert(269025nat * 269025 * 269025 == 0x45_2c59_9066_9ca1);
    assert(0x45_2c59_9066_9ca1 * 0x45_2c59_9066_9ca1 == 0x12b0_eff6_c049_6d6d_d948_5020_9d41nat);
    assert(0x12b0_eff6_c049_6d6d_d948_5020_9d41nat * 0x12b0_eff6_c049_6d6d_d948_5020_9d41nat == 0x15d_5c09_8741_6139_2178_92b9_bce5_5f46_89a2_dd05_b95f_0d00_50d8_ca81nat);
    assert(0x27_a963_0295_bf89_e847_68bf_8481nat * 0x27_a963_0295_bf89_e847_68bf_8481nat == 0x625_0c3e_a955_12c1_adb0_875a_d408_b845_a8a4_b553_7a7d_cd13_4901nat);
    assert(0x1_e9fe_a4fa_4258_01ea_64b2_ca81nat * 0x12d_1ca1 == 0x240_5733_fd71_221f_9a27_3da4_fc44_7721nat);
    assert(0x1_e9fe_b1fe_f05d_0645_5d1d_2bd1nat * 0x12d_1ca3 == 0x240_5747_2163_d4fd_9779_0fa5_ff1a_c213nat);
    assert(0x240_5733_fd71_221f_9a27_3da4_fc44_7721nat * 0x15d_5c09_8741_6139_2178_92b9_bce5_5f46_89a2_dd05_b95f_0d00_50d8_ca81nat == 0x3_1286_16aa_c451_86d6_3106_17d2_18b0_26eb_3da2_51e7_5bc8_c914_e3a7_58ff_0f56_d27d_bee2_bec0_2b2f_f858_11a1nat);
    assert(0x240_5747_2163_d4fd_9779_0fa5_ff1a_c213nat * 0x15d_5c09_8741_6139_2178_92b9_bce5_5f46_89a2_dd05_b95f_0d00_50d8_ca81nat == 0x3_1286_30c9_a7d0_f820_fc3f_a4f5_3906_ab80_60c3_4cf5_2a02_abb1_b1f3_96e5_875d_8881_b0d9_0a09_702a_59a6_c993nat);
    assert(0x625_0c3e_a955_12c1_adb0_875a_d408_b845_a8a4_b553_7a7d_cd13_4901nat * 0x80_0000_0000_0000_0000_0000_0000_0000_0000nat == 0x3_1286_1f54_aa89_60d6_d843_ad6a_045c_22d4_525a_a9bd_3ee6_89a4_8080_0000_0000_0000_0000_0000_0000_0000_0000nat);
    lemma_power_known(
        0x3e16_8e51, 0x96_8e51, 123, 0x80_0000_0000_0000_0000_0000_0000_0000_0000nat,
        121025, 0x6_4c39_67ff_3a41,
        0x27_a963_0295_bf89_e847_68bf_8481nat,
        269025, 0x45_2c59_9066_9ca1,
        0x12b0_eff6_c049_6d6d_d948_5020_9d41nat,
        0x1_622c_55cd_9d41, 0x1_e9fe_a4fa_4258_01ea_64b2_ca81nat,
        0x1_622c_5a82_0fc9, 0x1_e9fe_b1fe_f05d_0645_5d1d_2bd1nat,
    );
}

/// Code 108.
proof fn lemma_entry_108()
    ensures
        nearest_to_power(0x3e19_8f0f, 122025, 269025),
{
    lemma_fifth_powers_of_two();
    assert(122025nat * 122025 * 122025 == 0x6_7485_054e_7ab9);
    assert(0x6_7485_054e_7ab9 * 0x6_7485_054e_7ab9 == 0x29_ab45_119b_638b_5514_3d90_d9b1nat);
    assert(0x133_1e1d * 0x133_1e1d == 0x1_7071_3d18_cf49);
    assert(0x1_7071_3d18_cf49 * 0x1_7071_3d18_cf49 == 0x2_1245_c1be_526d_b3a2_4f87_22d1nat);
    assert(0x133_1e1f * 0x133_1e1f == 0x1_7071_41e5_47c1);
    assert(0x1_7071_41e5_47c1 * 0x1_7071_41e5_47c1 == 0x2_1245_cf8e_6baa_742b_7566_9f81nat);
    assert(269025nat * 269025 * 269025 == 0x45_2c59_9066_9ca1);
    assert(0x45_2c59_9066_9ca1 * 0x45_2c59_9066_9ca1 == 0x12b0_eff6_c049_6d6d_d948_5020_9d41nat);
    assert(0x12b0_eff6_c049_6d6d_d948_5020_9d41nat * 0x12b0_eff6_c049_6d6d_d948_5020_9d41nat == 0x15d_5c09_8741_6139_2178_92b9_bce5_5f46_89a2_dd05_b95f_0d00_50d8_ca81nat);
    assert(0x29_ab45_119b_638b_5514_3d90_d9b1nat * 0x29_ab45_119b_638b_5514_3d90_d9b1nat == 0x6c8_4eb4_fbed_f897_0eca_d249_33ec_c19a_747d_2a35_e75b_fa3d_8c61nat);
    assert(0x2_1245_c1be_526d_b3a2_4f87_22d1nat * 0x133_1e1d == 0x27c_2807_95d8_19c6_9d1f_bdc3_9906_6fadnat);
    assert(0x2_1245_cf8e_6baa_742b_7566_9f81nat * 0x133_1e1f == 0x27c_281c_4c91_f046_535e_f316_85d1_6e9fnat);
    assert(0x27c_2807_95d8_19c6_9d1f_bdc3_9906_6fadnat * 0x15d_5c09_8741_6139_2178_92b9_bce5_5f46_89a2_dd05_b95f_0d00_50d8_ca81nat == 0x3_6427_4867_854c_d4b5_746e_8364_f679_a1b9_e0ac_9eba_b919_c40a_e4e1_d700_0768_04bb_1963_3f74_dfa3_7a54_c82dnat);
    assert(0x27c_281c_4c91_f046_535e_f316_85d1_6e9fnat * 0x15d_5c09_8741_6139_2178_92b9_bce5_5f46_89a2_dd05_b95f_0d00_50d8_ca81nat == 0x3_6427_64ac_1316_6815_9bbe_f353_b0e3_9856_555c_c5ea_a1d3_539c_25c2_cfb0_1535_4222_27dc_aa19_b237_b5fa_341fnat);
    assert(0x6c8_4eb4_fbed_f897_0eca_d249_33ec_c19a_747d_2a35_e75b_fa3d_8c61nat * 0x80_0000_0000_0000_0000_0000_0000_0000_0000nat == 0x3_6427_5a7d_f6fc_4b87_6569_2499_f660_cd3a_3e95_1af3_adfd_1ec6_3080_0000_0000_0000_0000_0000_0000_0000_0000nat);
    lemma_power_known(
        0x3e19_8f0f, 0x99_8f0f, 123, 0x80_0000_0000_0000_0000_0000_0000_0000_0000nat,
        122025, 0x6_7485_054e_7ab9,
        0x29_ab45_119b_638b_5514_3d90_d9b1nat,
        269025, 0x45_2c59_9066_9ca1,
        0x12b0_eff6_c049_6d6d_d948_5020_9d41nat,
        0x1_7071_3d18_cf49, 0x2_1245_c1be_526d_b3a2_4f87_22d1nat,
        0x1_7071_41e5_47c1, 0x2_1245_cf8e_6baa_742b_7566_9f81nat,
    );
}

/// Code 109.
proof fn lemma_entry_109()
    ensures
        nearest_to_power(0x3e1c_98ac, 123025, 269025),
{
    lemma_fifth_powers_of_two();
    assert(123025nat * 123025 * 123025 == 0x6_9d7b_1a28_24b1);
    assert(0x6_9d7b_1a28_24b1 * 0x6_9d7b_1a28_24b1 == 0x2b_c2a5_7329_1a8c_89d5_7092_4261nat);
    assert(0x139_3157 * 0x139_3157 == 0x1_7f29_b040_6b91);
    assert(0x1_7f29_b040_6b91 * 0x1_7f29_b040_6b91 == 0x2_3d7d_c42a_afd6_f68f_55b2_8821nat);
    assert(0x139_3159 * 0x139_3159 == 0x1_7f29_b525_30f1);
    assert(0x1_7f29_b525_30f1 * 0x1_7f29_b525_30f1 == 0x2_3d7d_d2d0_ce88_67cd_f905_42e1nat);
    assert(269025nat * 269025 * 269025 == 0x45_2c59_9066_9ca1);
    assert(0x45_2c59_9066_9ca1 * 0x45_2c59_9066_9ca1 == 0x12b0_eff6_c049_6d6d_d948_5020_9d41nat);
    assert(0x12b0_eff6_c049_6d6d_d948_5020_9d41nat * 0x12b0_eff6_c049_6d6d_d948_5020_9d41nat == 0x15d_5c09_8741_6139_2178_92b9_bce5_5f46_89a2_dd05_b95f_0d00_50d8_ca81nat);
    assert(0x2b_c2a5_7329_1a8c_89d5_7092_4261nat * 0x2b_c2a5_7329_1a8c_89d5_7092_4261nat == 0x77a_f793_dd46_de3d_7c38_c47d_d862_720d_62f7_5e06_950e_a7da_28c1nat);
    assert(0x2_3d7d_c42a_afd6_f68f_55b2_8821nat * 0x139_3157 == 0x2bd_9d4c_d07a_d3fd_5c7f_0165_bc13_9437nat);
    assert(0x2_3d7d_d2d0_ce88_67cd_f905_42e1nat * 0x139_3159 == 0x2bd_9d63_3764_c6e6_d41f_fab4_59ba_5139nat);
    assert(0x2bd_9d4c_d07a_d3fd_5c7f_0165_bc13_9437nat * 0x15d_5c09_8741_6139_2178_92b9_bce5_5f46_89a2_dd05_b95f_0d00_50d8_ca81nat == 0x3_bd7b_b05d_0b35_6087_2c18_f514_6ac4_689c_c2ff_a879_a461_6415_324f_2a87_6c07_4db8_f540_89a6_9481_7739_15b7nat);
    assert(0x2bd_9d63_3764_c6e6_d41f_fab4_59ba_5139nat * 0x15d_5c09_8741_6139_2178_92b9_bce5_5f46_89a2_dd05_b95f_0d00_50d8_ca81nat == 0x3_bd7b_ceef_65f7_1052_b63e_2bd2_6813_37a3_19e0_fb8b_d3c5_50a9_4670_a516_d1a4_e11b_3b87_cf6c_7744_9311_e7b9nat);
    assert(0x77a_f793_dd46_de3d_7c38_c47d_d862_720d_62f7_5e06_950e_a7da_28c1nat * 0x80_0000_0000_0000_0000_0000_0000_0000_0000nat == 0x3_bd7b_c9ee_a36f_1ebe_1c62_3eec_3139_06b1_7baf_034a_8753_ed14_6080_0000_0000_0000_0000_0000_0000_0000_0000nat);
    lemma_power_known(
        0x3e1c_98ac, 0x9c_98ac, 123, 0x80_0000_0000_0000_0000_0000_0000_0000_0000nat,
        123025, 0x6_9d7b_1a28_24b1,
        0x2b_c2a5_7329_1a8c_89d5_7092_4261nat,
        269025, 0x45_2c59_9066_9ca1,
        0x12b0_eff6_c049_6d6d_d948_5020_9d41nat,
        0x1_7f29_b040_6b91, 0x2_3d7d_c42a_afd6_f68f_55b2_8821nat,
        0x1_7f29_b525_30f1, 0x2_3d7d_d2d0_ce88_67cd_f905_42e1nat,
    );
}

/// Code 110.
proof fn lemma_entry_110()
    ensures
        nearest_to_power(0x3e1f_ab30, 124025, 269025),
{
    lemma_fifth_powers_of_two();
    assert(124025nat * 124025 * 124025 == 0x6_c71d_0c2c_f429);
    assert(0x6_c71d_0c2c_f429 * 0x6_c71d_0c2c_f429 == 0x2d_f03a_be55_1847_4e12_aef6_2e91nat);
    assert(0x13f_565f * 0x13f_565f == 0x1_8e58_5de5_f741);
    assert(0x1_8e58_5de5_f741 * 0x1_8e58_5de5_f741 == 0x2_6bd6_e277_bd58_fce9_8318_7e81nat);
    assert(0x13f_5661 * 0x13f_5661 == 0x1_8e58_62e3_50c1);
    assert(0x1_8e58_62e3_50c1 * 0x1_8e58_62e3_50c1 == 0x2_6bd6_f1fe_f192_745c_13bf_3181nat);
    assert(269025nat * 269025 * 269025 == 0x45_2c59_9066_9ca1);
    assert(0x45_2c59_9066_9ca1 * 0x45_2c59_9066_9ca1 == 0x12b0_eff6_c049_6d6d_d948_5020_9d41nat);
    assert(0x12b0_eff6_c049_6d6d_d948_5020_9d41nat * 0x12b0_eff6_c049_6d6d_d948_5020_9d41nat == 0x15d_5c09_8741_6139_2178_92b9_bce5_5f46_89a2_dd05_b95f_0d00_50d8_ca81nat);
    assert(0x2d_f03a_be55_1847_4e12_aef6_2e91nat * 0x2d_f03a_be55_1847_4e12_aef6_2e91nat == 0x83e_5615_1c44_e2a8_9196_e49c_4474_7d48_c18e_1b00_7c6e_a324_6e21nat);
    assert(0x2_6bd6_e277_bd58_fce9_8318_7e81nat * 0x13f_565f == 0x305_31e4_6807_35ee_4ff6_a837_8355_47dfnat);
    assert(0x2_6bd6_f1fe_f192_745c_13bf_3181nat * 0x13f_5661 == 0x305_31fc_9e6c_5c3f_ba51_a0c4_65d2_17e1nat);
    assert(0x305_31e4_6807_35ee_4ff6_a837_8355_47dfnat * 0x15d_5c09_8741_6139_2178_92b9_bce5_5f46_89a2_dd05_b95f_0d00_50d8_ca81nat == 0x4_1f2a_ff17_2b05_87d4_8385_066f_1f3c_e91b_185a_996e_d8c0_61d8_ce39_f617_c824_2921_de7a_5b4f_5b04_ccd7_2d5fnat);
    assert(0x305_31fc_9e6c_5c3f_ba51_a0c4_65d2_17e1nat * 0x15d_5c09_8741_6139_2178_92b9_bce5_5f46_89a2_dd05_b95f_0d00_50d8_ca81nat == 0x4_1f2b_2022_075d_d304_7586_913c_0747_2c13_d4a5_1799_3b25_5edd_4ca6_e06c_ff7a_b21d_c607_7239_f909_8b8d_9261nat);
    assert(0x83e_5615_1c44_e2a8_9196_e49c_4474_7d48_c18e_1b00_7c6e_a324_6e21nat * 0x80_0000_0000_0000_0000_0000_0000_0000_0000nat == 0x4_1f2b_0a8e_2271_5448_cb72_4e22_3a3e_a460_c70d_803e_3751_9237_1080_0000_0000_0000_0000_0000_0000_0000_0000nat);
    lemma_power_known(
        0x3e1f_ab30, 0x9f_ab30, 123, 0x80_0000_0000_0000_0000_0000_0000_0000_0000nat,
        124025, 0x6_c71d_0c2c_f429,
        0x2d_f03a_be55_1847_4e12_aef6_2e91nat,
        269025, 0x45_2c59_9066_9ca1,
        0x12b0_eff6_c049_6d6d_d948_5020_9d41nat,
        0x1_8e58_5de5_f741, 0x2_6bd6_e277_bd58_fce9_8318_7e81nat,
        0x1_8e58_62e3_50c1, 0x2_6bd6_f1fe_f192_745c_13bf_3181nat,
    );
}

/// Code 111.
proof fn lemma_entry_111()
    ensures
        nearest_to_power(0x3e22_c6a1, 125025, 269025),
{
    lemma_fifth_powers_of_two();
    assert(125025nat * 125025 * 125025 == 0x6_f16c_40fd_a521);
    assert(0x6_f16c_40fd_a521 * 0x6_f16c_40fd_a521 == 0x30_34c0_0c08_34f7_43b8_4dbd_8e41nat);
    assert(0x145_8d41 * 0x145_8d41 == 0x1_9dff_f4fa_aa81);
    assert(0x1_9dff_f4fa_aa81 * 0x1_9dff_f4fa_aa81 == 0x2_9d83_dc5a_bff2_b175_5d83_9501nat);
    assert(0x145_8d43 * 0x145_8d43 == 0x1_9dff_fa10_df89);
    assert(0x1_9dff_fa10_df89 * 0x1_9dff_fa10_df89 == 0x2_9d83_ecce_9322_52a2_484f_f751nat);
    assert(269025nat * 269025 * 269025 == 0x45_2c59_9066_9ca1);
    assert(0x45_2c59_9066_9ca1 * 0x45_2c59_9066_9ca1 == 0x12b0_eff6_c049_6d6d_d948_5020_9d41nat);
    assert(0x12b0_eff6_c049_6d6d_d948_5020_9d41nat * 0x12b0_eff6_c049_6d6d_d948_5020_9d41nat == 0x15d_5c09_8741_6139_2178_92b9_bce5_5f46_89a2_dd05_b95f_0d00_50d8_ca81nat);
    assert(0x30_34c0_0c08_34f7_43b8_4dbd_8e41nat * 0x30_34c0_0c08_34f7_43b8_4dbd_8e41nat == 0x913_d2e3_1809_3f1e_10c0_23e1_dba5_09d3_ff03_f9fc_175e_7506_2c81nat);
    assert(0x2_9d83_dc5a_bff2_b175_5d83_9501nat * 0x145_8d41 == 0x353_69d2_5e0e_9dde_b25c_6b5a_61bf_6241nat);
    assert(0x2_9d83_ecce_9322_52a2_484f_f751nat * 0x145_8d43 == 0x353_69ec_8535_8bad_5184_cfd1_f1fa_5733nat);
    assert(0x353_69d2_5e0e_9dde_b25c_6b5a_61bf_6241nat * 0x15d_5c09_8741_6139_2178_92b9_bce5_5f46_89a2_dd05_b95f_0d00_50d8_ca81nat == 0x4_89e9_5d82_625e_eef6_eb02_8b89_b9e4_d97f_f264_9cf2_e123_c2f5_a5f0_b9e5_ea6f_a8e4_d8bd_c731_fedb_7bcf_ccc1nat);
    assert(0x353_69ec_8535_8bad_5184_cfd1_f1fa_5733nat * 0x15d_5c09_8741_6139_2178_92b9_bce5_5f46_89a2_dd05_b95f_0d00_50d8_ca81nat == 0x4_89e9_8133_297c_50cd_e97f_d998_2a0f_3d4d_c27b_1ca7_09a6_2ee2_2bbd_36e9_54c1_49ad_86dc_c205_5f33_fafc_2eb3nat);
    assert(0x913_d2e3_1809_3f1e_10c0_23e1_dba5_09d3_ff03_f9fc_175e_7506_2c81nat * 0x80_0000_0000_0000_0000_0000_0000_0000_0000nat == 0x4_89e9_718c_049f_8f08_6011_f0ed_d284_e9ff_81fc_fe0b_af3a_8316_4080_0000_0000_0000_0000_0000_0000_0000_0000nat);
    lemma_power_known(
        0x3e22_c6a1, 0xa2_c6a1, 123, 0x80_0000_0000_0000_0000_0000_0000_0000_0000nat,
        125025, 0x6_f16c_40fd_a521,
        0x30_34c0_0c08_34f7_43b8_4dbd_8e41nat,
        269025, 0x45_2c59_9066_9ca1,
        0x12b0_eff6_c049_6d6d_d948_5020_9d41nat,
        0x1_9dff_f4fa_aa81, 0x2_9d83_dc5a_bff2_b175_5d83_9501nat,
        0x1_9dff_fa10_df89, 0x2_9d83_ecce_9322_52a2_484f_f751nat,
    );
}

/// Code 112.
proof fn lemma_entry_112()
    ensures
        nearest_to_power(0x3e25_eb07, 126025, 269025),
{
    lemma_fifth_powers_of_two();
    assert(126025nat * 126025 * 126025 == 0x7_1c6a_1e3a_f399);
    assert(0x7_1c6a_1e3a_f399 * 0x7_1c6a_1e3a_f399 == 0x32_90f5_09d3_440b_115f_251f_d171nat);
    assert(0x14b_d60d * 0x14b_d60d == 0x1_ae23_3897_bca9);
    assert(0x1_ae23_3897_bca9 * 0x1_ae23_3897_bca9 == 0x2_d2ba_56f6_43c8_0eb0_0a66_a791nat);
    assert(0x14b_d60f * 0x14b_d60f == 0x1_ae23_3dc7_14e1);
    assert(0x1_ae23_3dc7_14e1 * 0x1_ae23_3dc7_14e1 == 0x2_d2ba_6862_bd7c_0c4a_b181_edc1nat);
    assert(269025nat * 269025 * 269025 == 0x45_2c59_9066_9ca1);
    assert(0x45_2c59_9066_9ca1 * 0x45_2c59_9066_9ca1 == 0x12b0_eff6_c049_6d6d_d948_5020_9d41nat);
    assert(0x12b0_eff6_c049_6d6d_d948_5020_9d41nat * 0x12b0_eff6_c049_6d6d_d948_5020_9d41nat == 0x15d_5c09_8741_6139_2178_92b9_bce5_5f46_89a2_dd05_b95f_0d00_50d8_ca81nat);
    assert(0x32_90f5_09d3_440b_115f_251f_d171nat * 0x32_90f5_09d3_440b_115f_251f_d171nat == 0x9fc_f1cc_6c20_0fa0_0306_cddb_dfd2_7c8b_1090_d486_aa5d_0eb7_b3e1nat);
    assert(0x2_d2ba_56f6_43c8_0eb0_0a66_a791nat * 0x14b_d60d == 0x3a8_d33a_e891_ead5_ab0d_5a5c_ffc4_b85dnat);
    assert(0x2_d2ba_6862_bd7c_0c4a_b181_edc1nat * 0x14b_d60f == 0x3a8_d357_23d9_a792_b11e_abc1_6be7_444fnat);
    assert(0x3a8_d33a_e891_ead5_ab0d_5a5c_ffc4_b85dnat * 0x15d_5c09_8741_6139_2178_92b9_bce5_5f46_89a2_dd05_b95f_0d00_50d8_ca81nat == 0x4_fe78_c616_9e39_3e85_12c6_ec6a_552e_f03f_e65c_a7d9_cd62_493e_c893_a159_d4d6_eb59_1d2e_a64c_eb46_ba12_48ddnat);
    assert(0x3a8_d357_23d9_a792_b11e_abc1_6be7_444fnat * 0x15d_5c09_8741_6139_2178_92b9_bce5_5f46_89a2_dd05_b95f_0d00_50d8_ca81nat == 0x4_fe78_ec9d_9560_5408_83b7_fecc_3c9f_e596_1ffe_fcd8_1126_b129_cd3a_6fc6_3c24_5efa_be6f_ffaf_7f16_2e17_c1cfnat);
    assert(0x9fc_f1cc_6c20_0fa0_0306_cddb_dfd2_7c8b_1090_d486_aa5d_0eb7_b3e1nat * 0x80_0000_0000_0000_0000_0000_0000_0000_0000nat == 0x4_fe78_e636_1007_d001_8366_edef_e93e_4588_486a_4355_2e87_5bd9_f080_0000_0000_0000_0000_0000_0000_0000_0000nat);
    lemma_power_known(
        0x3e25_eb07, 0xa5_eb07, 123, 0x80_0000_0000_0000_0000_0000_0000_0000_0000nat,
        126025, 0x7_1c6a_1e3a_f399,
        0x32_90f5_09d3_440b_115f_251f_d171nat,
        269025, 0x45_2c59_9066_9ca1,
        0x12b0_eff6_c049_6d6d_d948_5020_9d41nat,
        0x1_ae23_3897_bca9, 0x2_d2ba_56f6_43c8_0eb0_0a66_a791nat,
        0x1_ae23_3dc7_14e1, 0x2_d2ba_6862_bd7c_0c4a_b181_edc1nat,
    );
}

/// Code 113.
proof fn lemma_entry_113()
    ensures
        nearest_to_power(0x3e29_186a, 127025, 269025),
{
    lemma_fifth_powers_of_two();
    assert(127025nat * 127025 * 127025 == 0x7_4818_0985_9b91);
    assert(0x7_4818_0985_9b91 * 0x7_4818_0985_9b91 == 0x35_059e_0ceb_72d7_65db_3532_e821nat);
    assert(0x152_30d3 * 0x152_30d3 == 0x1_bec4_f67b_cde9);
    assert(0x1_bec4_f67b_cde9 * 0x1_bec4_f67b_cde9 == 0x3_0bb2_e261_bc5d_5463_4f84_fe11nat);
    assert(0x152_30d5 * 0x152_30d5 == 0x1_bec4_fbc4_9139);
    assert(0x1_bec4_fbc4_9139 * 0x1_bec4_fbc4_9139 == 0x3_0bb2_f4d3_669c_06fc_77a9_9eb1nat);
    assert(269025nat * 269025 * 269025 == 0x45_2c59_9066_9ca1);
    assert(0x45_2c59_9066_9ca1 * 0x45_2c59_9066_9ca1 == 0x12b0_eff6_c049_6d6d_d948_5020_9d41nat);
    assert(0x12b0_eff6_c049_6d6d_d948_5020_9d41nat * 0x12b0_eff6_c049_6d6d_d948_5020_9d41nat == 0x15d_5c09_8741_6139_2178_92b9_bce5_5f46_89a2_dd05_b95f_0d00_50d8_ca81nat);
    assert(0x35_059e_0ceb_72d7_65db_3532_e821nat * 0x35_059e_0ceb_72d7_65db_3532_e821nat == 0xafb_5390_e792_b2f5_43f0_8e43_def5_be10_aa83_86bf_50b3_295f_d441nat);
    assert(0x3_0bb2_e261_bc5d_5463_4f84_fe11nat * 0x152_30d3 == 0x406_06e3_13ed_9d19_2bde_2a5a_ecb2_9803nat);
    assert(0x3_0bb2_f4d3_669c_06fc_77a9_9eb1nat * 0x152_30d5 == 0x406_0701_88ea_d122_da77_2472_e394_3945nat);
    assert(0x406_06e3_13ed_9d19_2bde_2a5a_ecb2_9803nat * 0x15d_5c09_8741_6139_2178_92b9_bce5_5f46_89a2_dd05_b95f_0d00_50d8_ca81nat == 0x5_7da9_b462_38c4_f0c4_fbd4_9d35_25bf_744f_edbc_584d_e62c_03be_2803_665b_2f4f_4233_8a31_34e3_c3c7_6478_f783nat);
    assert(0x406_0701_88ea_d122_da77_2472_e394_3945nat * 0x15d_5c09_8741_6139_2178_92b9_bce5_5f46_89a2_dd05_b95f_0d00_50d8_ca81nat == 0x5_7da9_ddf2_a922_150b_1d52_f72f_502a_192d_5f4d_480d_333c_105c_d13d_b2de_14f5_ccf8_8928_655d_dd6d_8519_4dc5nat);
    assert(0xafb_5390_e792_b2f5_43f0_8e43_def5_be10_aa83_86bf_50b3_295f_d441nat * 0x80_0000_0000_0000_0000_0000_0000_0000_0000nat == 0x5_7da9_c873_c959_7aa1_f847_21ef_7adf_0855_41c3_5fa8_5994_afea_2080_0000_0000_0000_0000_0000_0000_0000_0000nat);
    lemma_power_known(
        0x3e29_186a, 0xa9_186a, 123, 0x80_0000_0000_0000_0000_0000_0000_0000_0000nat,
        127025, 0x7_4818_0985_9b91,
        0x35_059e_0ceb_72d7_65db_3532_e821nat,
        269025, 0x45_2c59_9066_9ca1,
        0x12b0_eff6_c049_6d6d_d948_5020_9d41nat,
        0x1_bec4_f67b_cde9, 0x3_0bb2_e261_bc5d_5463_4f84_fe11nat,
        0x1_bec4_fbc4_9139, 0x3_0bb2_f4d3_669c_06fc_77a9_9eb1nat,
    );
}

/// Code 114.
proof fn lemma_entry_114()
    ensures
        nearest_to_power(0x3e2c_4ed0, 128025, 269025),
{
    lemma_fifth_powers_of_two();
    assert(128025nat * 128025 * 128025 == 0x7_7477_687e_5909);
    assert(0x7_7477_687e_5909 * 0x7_7477_687e_5909 == 0x37_9384_254d_af4b_d511_13d3_4251nat);
    assert(0x158_9d9f * 0x158_9d9f == 0x1_cfe7_fc5c_68c1);
    assert(0x1_cfe7_fc5c_68c1 * 0x1_cfe7_fc5c_68c1 == 0x3_48a8_f50f_aa75_39e5_6d95_6181nat);
    assert(0x158_9da1 * 0x158_9da1 == 0x1_cfe8_01be_df41);
    assert(0x1_cfe8_01be_df41 * 0x1_cfe8_01be_df41 == 0x3_48a9_0893_9584_cfde_a92e_4e81nat);
    assert(269025nat * 269025 * 269025 == 0x45_2c59_9066_9ca1);
    assert(0x45_2c59_9066_9ca1 * 0x45_2c59_9066_9ca1 == 0x12b0_eff6_c049_6d6d_d948_5020_9d41nat);
    assert(0x12b0_eff6_c049_6d6d_d948_5020_9d41nat * 0x12b0_eff6_c049_6d6d_d948_5020_9d41nat == 0x15d_5c09_8741_6139_2178_92b9_bce5_5f46_89a2_dd05_b95f_0d00_50d8_ca81nat);
    assert(0x37_9384_254d_af4b_d511_13d3_4251nat * 0x37_9384_254d_af4b_d511_13d3_4251nat == 0xc10_b7c9_0e6f_0772_f67a_b265_6e98_4a3b_2d4e_c968_a2f0_68b3_dda1nat);
    assert(0x3_48a8_f50f_aa75_39e5_6d95_6181nat * 0x158_9d9f == 0x46b_a8a3_0c47_ddca_8f9b_ea6e_b1eb_ac1fnat);
    assert(0x3_48a9_0893_9584_cfde_a92e_4e81nat * 0x158_9da1 == 0x46b_a8c3_e2e1_d1fa_cf35_9f03_499c_7c21nat);
    assert(0x46b_a8a3_0c47_ddca_8f9b_ea6e_b1eb_ac1fnat * 0x15d_5c09_8741_6139_2178_92b9_bce5_5f46_89a2_dd05_b95f_0d00_50d8_ca81nat == 0x6_085b_c101_2b10_33b3_ad30_7317_4bc0_3f07_cfd8_0402_e556_b390_2592_96ac_1fd8_ad60_91af_07ca_d1ce_87ba_319fnat);
    assert(0x46b_a8c3_e2e1_d1fa_cf35_9f03_499c_7c21nat * 0x15d_5c09_8741_6139_2178_92b9_bce5_5f46_89a2_dd05_b95f_0d00_50d8_ca81nat == 0x6_085b_edd1_894a_5233_73c9_f5af_f57d_1a72_f741_694a_185f_3aeb_2625_9e3d_724e_e870_c8f9_c6d1_6890_9da4_96a1nat);
    assert(0xc10_b7c9_0e6f_0772_f67a_b265_6e98_4a3b_2d4e_c968_a2f0_68b3_dda1nat * 0x80_0000_0000_0000_0000_0000_0000_0000_0000nat == 0x6_085b_e487_3783_b97b_3d59_32b7_4c25_1d96_a764_b451_7834_59ee_d080_0000_0000_0000_0000_0000_0000_0000_0000nat);
    lemma_power_known(
        0x3e2c_4ed0, 0xac_4ed0, 123, 0x80_0000_0000_0000_0000_0000_0000_0000_0000nat,
        128025, 0x7_7477_687e_5909,
        0x37_9384_254d_af4b_d511_13d3_4251nat,
        269025, 0x45_2c59_9066_9ca1,
        0x12b0_eff6_c049_6d6d_d948_5020_9d41nat,
        0x1_cfe7_fc5c_68c1, 0x3_48a8_f50f_aa75_39e5_6d95_6181nat,
        0x1_cfe8_01be_df41, 0x3_48a9_0893_9584_cfde_a92e_4e81nat,
    );
}

/// Code 115.
proof fn lemma_entry_115()
    ensures
        nearest_to_power(0x3e2f_8e42, 129025, 269025),
{
    lemma_fifth_powers_of_two();
    assert(129025nat * 129025 * 129025 == 0x7_a189_a0c5_e801);
    assert(0x7_a189_a0c5_e801 * 0x7_a189_a0c5_e801 == 0x3a_3b75_3109_16a9_8e12_23cb_d001nat);
    assert(0x15f_1c83 * 0x15f_1c83 == 0x1_e18f_3266_eb09);
    assert(0x1_e18f_3266_eb09 * 0x1_e18f_3266_eb09 == 0x3_89db_6b80_181e_c33d_a6f5_8651nat);
    assert(0x15f_1c85 * 0x15f_1c85 == 0x1_e18f_37e3_5d19);
    assert(0x1_e18f_37e3_5d19 * 0x1_e18f_37e3_5d19 == 0x3_89db_8023_e00d_6fdc_fa31_2c71nat);
    assert(269025nat * 269025 * 269025 == 0x45_2c59_9066_9ca1);
    assert(0x45_2c59_9066_9ca1 * 0x45_2c59_9066_9ca1 == 0x12b0_eff6_c049_6d6d_d948_5020_9d41nat);
    assert(0x12b0_eff6_c049_6d6d_d948_5020_9d41nat * 0x12b0_eff6_c049_6d6d_d948_5020_9d41nat == 0x15d_5c09_8741_6139_2178_92b9_bce5_5f46_89a2_dd05_b95f_0d00_50d8_ca81nat);
    assert(0x3a_3b75_3109_16a9_8e12_23cb_d001nat * 0x3a_3b75_3109_16a9_8e12_23cb_d001nat == 0xd3e_fee9_725e_50f9_b9af_f3bf_6e53_21d1_6de9_f5bd_b947_d097_a001nat);
    assert(0x3_89db_6b80_181e_c33d_a6f5_8651nat * 0x15f_1c83 == 0x4da_68bb_efab_175d_66a0_9172_7363_9773nat);
    assert(0x3_89db_8023_e00d_6fdc_fa31_2c71nat * 0x15f_1c85 == 0x4da_68df_523d_b191_3f32_5297_4b57_72b5nat);
    assert(0x4da_68bb_efab_175d_66a0_9172_7363_9773nat * 0x15d_5c09_8741_6139_2178_92b9_bce5_5f46_89a2_dd05_b95f_0d00_50d8_ca81nat == 0x6_9f7f_7417_5f83_4dcc_5825_60dc_e338_25c5_906d_3905_85b9_bb94_13cb_165b_aabf_1f3c_147c_43ab_ec14_73b8_0ef3nat);
    assert(0x4da_68df_523d_b191_3f32_5297_4b57_72b5nat * 0x15d_5c09_8741_6139_2178_92b9_bce5_5f46_89a2_dd05_b95f_0d00_50d8_ca81nat == 0x6_9f7f_a461_7a1d_5f11_6b4a_4c70_8985_1f30_b33a_7dbd_27b9_b8ed_0c50_8a41_27c0_498e_7708_53b8_1651_504b_9f35nat);
    assert(0xd3e_fee9_725e_50f9_b9af_f3bf_6e53_21d1_6de9_f5bd_b947_d097_a001nat * 0x80_0000_0000_0000_0000_0000_0000_0000_0000nat == 0x6_9f7f_74b9_2f28_7cdc_d7f9_dfb7_2990_e8b6_f4fa_dedc_a3e8_4bd0_0080_0000_0000_0000_0000_0000_0000_0000_0000nat);
    lemma_power_known(
        0x3e2f_8e42, 0xaf_8e42, 123, 0x80_0000_0000_0000_0000_0000_0000_0000_0000nat,
        129025, 0x7_a189_a0c5_e801,
        0x3a_3b75_3109_16a9_8e12_23cb_d001nat,
        269025, 0x45_2c59_9066_9ca1,
        0x12b0_eff6_c049_6d6d_d948_5020_9d41nat,
        0x1_e18f_3266_eb09, 0x3_89db_6b80_181e_c33d_a6f5_8651nat,
        0x1_e18f_37e3_5d19, 0x3_89db_8023_e00d_6fdc_fa31_2c71nat,
    );
}

/// Code 116.
proof fn lemma_entry_116()
    ensures
        nearest_to_power(0x3e32_d6c5, 130025, 269025),
{
    lemma_fifth_powers_of_two();
    assert(130025nat * 130025 * 130025 == 0x7_cf50_17fd_0479);
    assert(0x7_cf50_17fd_0479 * 0x7_cf50_17fd_0479 == 0x3c_fe43_efb0_6c3b_ea7f_953e_0131nat);
    assert(0x165_ad89 * 0x165_ad89 == 0x1_f3bd_75bc_7351);
    assert(0x1_f3bd_75bc_7351 * 0x1_f3bd_75bc_7351 == 0x3_cf8c_2533_b7f5_d7bb_9ce9_dfa1nat);
    assert(0x165_ad8b * 0x165_ad8b == 0x1_f3bd_7b53_2979);
    assert(0x1_f3bd_7b53_2979 * 0x1_f3bd_7b53_2979 == 0x3_cf8c_3b05_87e1_f788_312d_fb31nat);
    assert(269025nat * 269025 * 269025 == 0x45_2c59_9066_9ca1);
    assert(0x45_2c59_9066_9ca1 * 0x45_2c59_9066_9ca1 == 0x12b0_eff6_c049_6d6d_d948_5020_9d41nat);
    assert(0x12b0_eff6_c049_6d6d_d948_5020_9d41nat * 0x12b0_eff6_c049_6d6d_d948_5020_9d41nat == 0x15d_5c09_8741_6139_2178_92b9_bce5_5f46_89a2_dd05_b95f_0d00_50d8_ca81nat);
    assert(0x3c_fe43_efb0_6c3b_ea7f_953e_0131nat * 0x3c_fe43_efb0_6c3b_ea7f_953e_0131nat == 0xe88_2c63_3c5c_29a0_5c2c_bffe_fbc2_6aa9_b960_a949_ff05_9dbd_6b61nat);
    assert(0x3_cf8c_2533_b7f5_d7bb_9ce9_dfa1nat * 0x165_ad89 == 0x553_03bb_a843_65d4_6dfc_0e95_e0cd_7a29nat);
    assert(0x3_cf8c_3b05_87e1_f788_312d_fb31nat * 0x165_ad8b == 0x553_03e1_c3bd_46f2_ace5_054e_120c_809bnat);
    assert(0x553_03bb_a843_65d4_6dfc_0e95_e0cd_7a29nat * 0x15d_5c09_8741_6139_2178_92b9_bce5_5f46_89a2_dd05_b95f_0d00_50d8_ca81nat == 0x7_4416_1ee7_1904_828a_456a_5ca8_df1e_982f_c5ce_9fa9_5ea3_b97d_4085_fe09_404a_d126_cdce_d9a6_9574_4c86_e8a9nat);
    assert(0x553_03e1_c3bd_46f2_ace5_054e_120c_809bnat * 0x15d_5c09_8741_6139_2178_92b9_bce5_5f46_89a2_dd05_b95f_0d00_50d8_ca81nat == 0x7_4416_52e8_4177_4f2e_8a42_0866_b782_b94c_26ab_c1e6_32f4_94de_465d_fe10_afea_2dc8_b420_1427_4851_e88f_1c1bnat);
    assert(0xe88_2c63_3c5c_29a0_5c2c_bffe_fbc2_6aa9_b960_a949_ff05_9dbd_6b61nat * 0x80_0000_0000_0000_0000_0000_0000_0000_0000nat == 0x7_4416_319e_2e14_d02e_165f_ff7d_e135_54dc_b054_a4ff_82ce_deb5_b080_0000_0000_0000_0000_0000_0000_0000_0000nat);
    lemma_power_known(
        0x3e32_d6c5, 0xb2_d6c5, 123, 0x80_0000_0000_0000_0000_0000_0000_0000_0000nat,
        130025, 0x7_cf50_17fd_0479,
        0x3c_fe43_efb0_6c3b_ea7f_953e_0131nat,
        269025, 0x45_2c59_9066_9ca1,
        0x12b0_eff6_c049_6d6d_d948_5020_9d41nat,
        0x1_f3bd_75bc_7351, 0x3_cf8c_2533_b7f5_d7bb_9ce9_dfa1nat,
        0x1_f3bd_7b53_2979, 0x3_cf8c_3b05_87e1_f788_312d_fb31nat,
    );
}

/// Code 117.
proof fn lemma_entry_117()
    ensures
        nearest_to_power(0x3e36_2862, 131025, 269025),
{
    lemma_fifth_powers_of_two();
    assert(131025nat * 131025 * 131025 == 0x7_fdcc_33c4_6a71);
    assert(0x7_fdcc_33c4_6a71 * 0x7_fdcc_33c4_6a71 == 0x3f_dcc8_15f2_9812_d734_2f49_c5e1nat);
    assert(0x16c_50c3 * 0x16c_50c3 == 0x2_0675_c402_7489);
    assert(0x2_0675_c402_7489 * 0x2_0675_c402_7489 == 0x4_1a00_cb66_afec_b3b1_cf30_7151nat);
    assert(0x16c_50c5 * 0x16c_50c5 == 0x2_0675_c9b3_b799);
    assert(0x2_0675_c9b3_b799 * 0x2_0675_c9b3_b799 == 0x4_1a00_e275_4830_b252_85a2_1971nat);
    assert(269025nat * 269025 * 269025 == 0x45_2c59_9066_9ca1);
    assert(0x45_2c59_9066_9ca1 * 0x45_2c59_9066_9ca1 == 0x12b0_eff6_c049_6d6d_d948_5020_9d41nat);
    assert(0x12b0_eff6_c049_6d6d_d948_5020_9d41nat * 0x12b0_eff6_c049_6d6d_d948_5020_9d41nat == 0x15d_5c09_8741_6139_2178_92b9_bce5_5f46_89a2_dd05_b95f_0d00_50d8_ca81nat);
    assert(0x3f_dcc8_15f2_9812_d734_2f49_c5e1nat * 0x3f_dcc8_15f2_9812_d734_2f49_c5e1nat == 0xfee_68e3_4f82_1b95_9dd8_2e63_e37a_59e7_fad0_2cb8_7d53_1146_0fc1nat);
    assert(0x4_1a00_cb66_afec_b3b1_cf30_7151nat * 0x16c_50c3 == 0x5d6_4461_442d_2ac1_7a47_0a11_147b_a0b3nat);
    assert(0x4_1a00_e275_4830_b252_85a2_1971nat * 0x16c_50c5 == 0x5d6_448a_4835_900d_5289_05bf_aa5c_e3f5nat);
    assert(0x5d6_4461_442d_2ac1_7a47_0a11_147b_a0b3nat * 0x15d_5c09_8741_6139_2178_92b9_bce5_5f46_89a2_dd05_b95f_0d00_50d8_ca81nat == 0x7_f734_70ca_c92d_0fbf_4fb1_c1cb_012b_a98d_2110_9027_d335_87b8_74cd_fd0a_d051_d406_0e9b_c523_8e4c_6621_3833nat);
    assert(0x5d6_448a_4835_900d_5289_05bf_aa5c_e3f5nat * 0x15d_5c09_8741_6139_2178_92b9_bce5_5f46_89a2_dd05_b95f_0d00_50d8_ca81nat == 0x7_f734_a8c4_0798_fc71_fa43_57f5_669f_ed04_9eed_24ba_c193_07f7_11f1_dc72_fba4_d7dd_98e3_d108_589f_0b66_3075nat);
    assert(0xfee_68e3_4f82_1b95_9dd8_2e63_e37a_59e7_fad0_2cb8_7d53_1146_0fc1nat * 0x80_0000_0000_0000_0000_0000_0000_0000_0000nat == 0x7_f734_71a7_c10d_cace_ec17_31f1_bd2c_f3fd_6816_5c3e_a988_a307_e080_0000_0000_0000_0000_0000_0000_0000_0000nat);
    lemma_power_known(
        0x3e36_2862, 0xb6_2862, 123, 0x80_0000_0000_0000_0000_0000_0000_0000_0000nat,
        131025, 0x7_fdcc_33c4_6a71,
        0x3f_dcc8_15f2_9812_d734_2f49_c5e1nat,
        269025, 0x45_2c59_9066_9ca1,
        0x12b0_eff6_c049_6d6d_d948_5020_9d41nat,
        0x2_0675_c402_7489, 0x4_1a00_cb66_afec_b3b1_cf30_7151nat,
        0x2_0675_c9b3_b799, 0x4_1a00_e275_4830_b252_85a2_1971nat,
    );
}

/// Code 118.
proof fn lemma_entry_118()
    ensures
        nearest_to_power(0x3e39_831f, 132025, 269025),
{
    lemma_fifth_powers_of_two();
    assert(132025nat * 132025 * 132025 == 0x8_2cff_59bc_d5e9);
    assert(0x8_2cff_59bc_d5e9 * 0x8_2cff_59bc_d5e9 == 0x42_d7de_615a_2dbf_1634_e2f5_8e11nat);
    assert(0x173_063d * 0x173_063d == 0x2_19bb_14f4_ea89);
    assert(0x2_19bb_14f4_ea89 * 0x2_19bb_14f4_ea89 == 0x4_6982_66a3_1f78_951b_5406_bd51nat);
    assert(0x173_063f * 0x173_063f == 0x2_19bb_1ac1_0381);
    assert(0x2_19bb_1ac1_0381 * 0x2_19bb_1ac1_0381 == 0x4_6982_7efd_d97a_16b2_7c8e_4701nat);
    assert(269025nat * 269025 * 269025 == 0x45_2c59_9066_9ca1);
    assert(0x45_2c59_9066_9ca1 * 0x45_2c59_9066_9ca1 == 0x12b0_eff6_c049_6d6d_d948_5020_9d41nat);
    assert(0x12b0_eff6_c049_6d6d_d948_5020_9d41nat * 0x12b0_eff6_c049_6d6d_d948_5020_9d41nat == 0x15d_5c09_8741_6139_2178_92b9_bce5_5f46_89a2_dd05_b95f_0d00_50d8_ca81nat);
    assert(0x42_d7de_615a_2dbf_1634_e2f5_8e11nat * 0x42_d7de_615a_2dbf_1634_e2f5_8e11nat == 0x1174_04b1_7b32_0ccb_386b_60eb_c4e5_5a6e_e63f_28c1_1d47_3f60_dd21nat);
    assert(0x4_6982_66a3_1f78_951b_5406_bd51nat * 0x173_063d == 0x665_0380_f0e0_e35b_69d4_f13f_8a6e_024dnat);
    assert(0x4_6982_7efd_d97a_16b2_7c8e_4701nat * 0x173_063f == 0x665_03ad_0ff9_5f80_463e_4708_e320_7f3fnat);
    assert(0x665_0380_f0e0_e35b_69d4_f13f_8a6e_024dnat * 0x15d_5c09_8741_6139_2178_92b9_bce5_5f46_89a2_dd05_b95f_0d00_50d8_ca81nat == 0x8_ba02_50f8_bf9b_d3a7_8bfd_6d41_574a_4ee4_c1e2_4a81_0295_776c_75dc_e036_1138_d2a7_26a6_d939_cac9_9037_eacdnat);
    assert(0x665_03ad_0ff9_5f80_463e_4708_e320_7f3fnat * 0x15d_5c09_8741_6139_2178_92b9_bce5_5f46_89a2_dd05_b95f_0d00_50d8_ca81nat == 0x8_ba02_8d2f_00ce_460c_3468_e926_c681_ca65_0194_f734_f430_0fc5_ef22_0333_c136_2897_2996_a5bf_cce1_24ef_d4bfnat);
    assert(0x1174_04b1_7b32_0ccb_386b_60eb_c4e5_5a6e_e63f_28c1_1d47_3f60_dd21nat * 0x80_0000_0000_0000_0000_0000_0000_0000_0000nat == 0x8_ba02_58bd_9906_659c_35b0_75e2_72ad_3773_1f94_608e_a39f_b06e_9080_0000_0000_0000_0000_0000_0000_0000_0000nat);
    lemma_power_known(
        0x3e39_831f, 0xb9_831f, 123, 0x80_0000_0000_0000_0000_0000_0000_0000_0000nat,
        132025, 0x8_2cff_59bc_d5e9,
        0x42_d7de_615a_2dbf_1634_e2f5_8e11nat,
        269025, 0x45_2c59_9066_9ca1,
        0x12b0_eff6_c049_6d6d_d948_5020_9d41nat,
        0x2_19bb_14f4_ea89, 0x4_6982_66a3_1f78_951b_5406_bd51nat,
        0x2_19bb_1ac1_0381, 0x4_6982_7efd_d97a_16b2_7c8e_4701nat,
    );
}

/// Code 119.
proof fn lemma_entry_119()
    ensures
        nearest_to_power(0x3e3c_e703, 133025, 269025),
{
    lemma_fifth_powers_of_two();
    assert(133025nat * 133025 * 133025 == 0x8_5cea_ef87_02e1);
    assert(0x8_5cea_ef87_02e1 * 0x8_5cea_ef87_02e1 == 0x45_f068_ac33_fb10_59e8_2756_49c1nat);
    assert(0x179_ce05 * 0x179_ce05 == 0x2_2d90_7086_0c19);
    assert(0x2_2d90_7086_0c19 * 0x2_2d90_7086_0c19 == 0x4_be5d_db26_18e7_f6e6_8abe_5a71nat);
    assert(0x179_ce07 * 0x179_ce07 == 0x2_2d90_766d_4431);
    assert(0x2_2d90_766d_4431 * 0x2_2d90_766d_4431 == 0x4_be5d_f4dc_ec72_daa0_4fe4_1161nat);
    assert(269025nat * 269025 * 269025 == 0x45_2c59_9066_9ca1);
    assert(0x45_2c59_9066_9ca1 * 0x45_2c59_9066_9ca1 == 0x12b0_eff6_c049_6d6d_d948_5020_9d41nat);
    assert(0x12b0_eff6_c049_6d6d_d948_5020_9d41nat * 0x12b0_eff6_c049_6d6d_d948_5020_9d41nat == 0x15d_5c09_8741_6139_2178_92b9_bce5_5f46_89a2_dd05_b95f_0d00_50d8_ca81nat);
    assert(0x45_f068_ac33_fb10_59e8_2756_49c1nat * 0x45_f068_ac33_fb10_59e8_2756_49c1nat == 0x131b_7a31_41b3_2ba1_00ed_8272_5b24_0608_1830_ffd9_475e_70eb_a381nat);
    assert(0x4_be5d_db26_18e7_f6e6_8abe_5a71nat * 0x179_ce05 == 0x700_297e_f948_9d63_beb7_a879_12e7_b235nat);
    assert(0x4_be5d_f4dc_ec72_daa0_4fe4_1161nat * 0x179_ce07 == 0x700_29ae_68f3_ad72_d926_a189_4d11_87a7nat);
    assert(0x700_297e_f948_9d63_beb7_a879_12e7_b235nat * 0x15d_5c09_8741_6139_2178_92b9_bce5_5f46_89a2_dd05_b95f_0d00_50d8_ca81nat == 0x9_8dbc_e3b7_cea0_8b77_a305_f45d_5358_1a50_b490_ffc2_90fa_cbe5_a282_af58_d9e3_be98_291e_3443_7a1c_4616_9eb5nat);
    assert(0x700_29ae_68f3_ad72_d926_a189_4d11_87a7nat * 0x15d_5c09_8741_6139_2178_92b9_bce5_5f46_89a2_dd05_b95f_0d00_50d8_ca81nat == 0x9_8dbd_2474_18ba_e6d8_3e24_3b94_521a_a18d_b1d8_51d5_7cce_0183_b586_eb22_8f2b_6164_6001_05b8_b92e_4fc7_2127nat);
    assert(0x131b_7a31_41b3_2ba1_00ed_8272_5b24_0608_1830_ffd9_475e_70eb_a381nat * 0x80_0000_0000_0000_0000_0000_0000_0000_0000nat == 0x9_8dbd_18a0_d995_d080_76c1_392d_9203_040c_187f_eca3_af38_75d1_c080_0000_0000_0000_0000_0000_0000_0000_0000nat);
    lemma_power_known(
        0x3e3c_e703, 0xbc_e703, 123, 0x80_0000_0000_0000_0000_0000_0000_0000_0000nat,
        133025, 0x8_5cea_ef87_02e1,
        0x45_f068_ac33_fb10_59e8_2756_49c1nat,
        269025, 0x45_2c59_9066_9ca1,
        0x12b0_eff6_c049_6d6d_d948_5020_9d41nat,
        0x2_2d90_7086_0c19, 0x4_be5d_db26_18e7_f6e6_8abe_5a71nat,
        0x2_2d90_766d_4431, 0x4_be5d_f4dc_ec72_daa0_4fe4_1161nat,
    );
}

/// Code 120.
proof fn lemma_entry_120()
    ensures
        nearest_to_power(0x3e40_5417, 134025, 269025),
{
    lemma_fifth_powers_of_two();
    assert(134025nat * 134025 * 134025 == 0x8_8d90_5ac3_ad59);
    assert(0x8_8d90_5ac3_ad59 * 0x8_8d90_5ac3_ad59 == 0x49_274e_019c_9ed5_3994_1ef7_68f1nat);
    assert(0x180_a82d * 0x180_a82d == 0x2_41f8_f57b_17e9);
    assert(0x2_41f8_f57b_17e9 * 0x2_41f8_f57b_17e9 == 0x5_18e4_34b1_6bab_7c63_f621_b211nat);
    assert(0x180_a82f * 0x180_a82f == 0x2_41f8_fb7d_b8a1);
    assert(0x2_41f8_fb7d_b8a1 * 0x2_41f8_fb7d_b8a1 == 0x5_18e4_4fd4_f4eb_3fb9_8861_d541nat);
    assert(269025nat * 269025 * 269025 == 0x45_2c59_9066_9ca1);
    assert(0x45_2c59_9066_9ca1 * 0x45_2c59_9066_9ca1 == 0x12b0_eff6_c049_6d6d_d948_5020_9d41nat);
    assert(0x12b0_eff6_c049_6d6d_d948_5020_9d41nat * 0x12b0_eff6_c049_6d6d_d948_5020_9d41nat == 0x15d_5c09_8741_6139_2178_92b9_bce5_5f46_89a2_dd05_b95f_0d00_50d8_ca81nat);
    assert(0x49_274e_019c_9ed5_3994_1ef7_68f1nat * 0x49_274e_019c_9ed5_3994_1ef7_68f1nat == 0x14e7_7085_c795_4973_3103_81a9_539e_c0de_0074_1b95_945c_2812_b2e1nat);
    assert(0x5_18e4_34b1_6bab_7c63_f621_b211nat * 0x180_a82d == 0x7a8_af8a_2cd3_3313_0cb7_a9a3_7a47_74fdnat);
    assert(0x5_18e4_4fd4_f4eb_3fb9_8861_d541nat * 0x180_a82f == 0x7a8_afbd_25bd_c9b2_ef4f_0750_1f68_ceefnat);
    assert(0x7a8_af8a_2cd3_3313_0cb7_a9a3_7a47_74fdnat * 0x15d_5c09_8741_6139_2178_92b9_bce5_5f46_89a2_dd05_b95f_0d00_50d8_ca81nat == 0xa_73b8_376e_d933_2a8b_8705_976b_b8ea_9dda_8197_153b_66cd_4a3c_fee7_bc26_a74f_33e8_e7d2_6c60_d3b6_c5c9_957dnat);
    assert(0x7a8_afbd_25bd_c9b2_ef4f_0750_1f68_ceefnat * 0x15d_5c09_8741_6139_2178_92b9_bce5_5f46_89a2_dd05_b95f_0d00_50d8_ca81nat == 0xa_73b8_7cfe_845c_7f2c_751d_3141_c968_286e_18ae_db4f_6bee_e0c9_bf6b_a840_831e_7248_45a8_fc36_4c41_d0c0_dc6fnat);
    assert(0x14e7_7085_c795_4973_3103_81a9_539e_c0de_0074_1b95_945c_2812_b2e1nat * 0x80_0000_0000_0000_0000_0000_0000_0000_0000nat == 0xa_73b8_42e3_caa4_b998_81c0_d4a9_cf60_6f00_3a0d_caca_2e14_0959_7080_0000_0000_0000_0000_0000_0000_0000_0000nat);
    lemma_power_known(
        0x3e40_5417, 0xc0_5417, 123, 0x80_0000_0000_0000_0000_0000_0000_0000_0000nat,
        134025, 0x8_8d90_5ac3_ad59,
        0x49_274e_019c_9ed5_3994_1ef7_68f1nat,
        269025, 0x45_2c59_9066_9ca1,
        0x12b0_eff6_c049_6d6d_d948_5020_9d41nat,
        0x2_41f8_f57b_17e9, 0x5_18e4_34b1_6bab_7c63_f621_b211nat,
        0x2_41f8_fb7d_b8a1, 0x5_18e4_4fd4_f4eb_3fb9_8861_d541nat,
    );
}

/// Code 121.
proof fn lemma_entry_121()
    ensures
        nearest_to_power(0x3e43_ca60, 135025, 269025),
{
    lemma_fifth_powers_of_two();
    assert(135025nat * 135025 * 135025 == 0x8_bef1_0113_9151);
    assert(0x8_bef1_0113_9151 * 0x8_bef1_0113_9151 == 0x4c_7d7a_b1b5_279c_ff23_8682_dba1nat);
    assert(0x187_94bf * 0x187_94bf == 0x2_56f7_b5df_6681);
    assert(0x2_56f7_b5df_6681 * 0x2_56f7_b5df_6681 == 0x5_796a_3560_2930_22d4_27c9_0d01nat);
    assert(0x187_94c1 * 0x187_94c1 == 0x2_56f7_bbfd_b981);
    assert(0x2_56f7_bbfd_b981 * 0x2_56f7_bbfd_b981 == 0x5_796a_5201_ac4f_4b68_a565_b301nat);
    assert(269025nat * 269025 * 269025 == 0x45_2c59_9066_9ca1);
    assert(0x45_2c59_9066_9ca1 * 0x45_2c59_9066_9ca1 == 0x12b0_eff6_c049_6d6d_d948_5020_9d41nat);
    assert(0x12b0_eff6_c049_6d6d_d948_5020_9d41nat * 0x12b0_eff6_c049_6d6d_d948_5020_9d41nat == 0x15d_5c09_8741_6139_2178_92b9_bce5_5f46_89a2_dd05_b95f_0d00_50d8_ca81nat);
    assert(0x4c_7d7a_b1b5_279c_ff23_8682_dba1nat * 0x4c_7d7a_b1b5_279c_ff23_8682_dba1nat == 0x16da_be5a_8fe8_49ec_90db_dfdb_850e_7cc2_ccf7_7a38_0cd6_57f0_db41nat);
    assert(0x5_796a_3560_2930_22d4_27c9_0d01nat * 0x187_94bf == 0x85f_9f7e_82f8_5313_c115_675c_c70c_47bfnat);
    assert(0x5_796a_5201_ac4f_4b68_a565_b301nat * 0x187_94c1 == 0x85f_9fb5_411e_f7fc_ec34_f7d7_e3af_87c1nat);
    assert(0x85f_9f7e_82f8_5313_c115_675c_c70c_47bfnat * 0x15d_5c09_8741_6139_2178_92b9_bce5_5f46_89a2_dd05_b95f_0d00_50d8_ca81nat == 0xb_6d5f_1c93_2f9e_6a86_2c19_d66a_2b0c_9f39_7eee_37f1_a382_fc70_4fda_3b82_910f_ce41_cae9_aa59_c698_36f4_dd3fnat);
    assert(0x85f_9fb5_411e_f7fc_ec34_f7d7_e3af_87c1nat * 0x15d_5c09_8741_6139_2178_92b9_bce5_5f46_89a2_dd05_b95f_0d00_50d8_ca81nat == 0xb_6d5f_6748_18ac_bb47_00de_a29c_af38_ee59_ed4e_0942_6337_0ebf_5df0_b91c_df60_607e_f48c_2b14_00f9_1769_b241nat);
    assert(0x16da_be5a_8fe8_49ec_90db_dfdb_850e_7cc2_ccf7_7a38_0cd6_57f0_db41nat * 0x80_0000_0000_0000_0000_0000_0000_0000_0000nat == 0xb_6d5f_2d47_f424_f648_6def_edc2_873e_6166_7bbd_1c06_6b2b_f86d_a080_0000_0000_0000_0000_0000_0000_0000_0000nat);
    lemma_power_known(
        0x3e43_ca60, 0xc3_ca60, 123, 0x80_0000_0000_0000_0000_0000_0000_0000_0000nat,
        135025, 0x8_bef1_0113_9151,
        0x4c_7d7a_b1b5_279c_ff23_8682_dba1nat,
        269025, 0x45_2c59_9066_9ca1,
        0x12b0_eff6_c049_6d6d_d948_5020_9d41nat,
        0x2_56f7_b5df_6681, 0x5_796a_3560_2930_22d4_27c9_0d01nat,
        0x2_56f7_bbfd_b981, 0x5_796a_5201_ac4f_4b68_a565_b301nat,
    );
}

/// Code 122.
proof fn lemma_entry_122()
    ensures
        nearest_to_power(0x3e47_49e6, 136025, 269025),
{
    lemma_fifth_powers_of_two();
    assert(136025nat * 136025 * 136025 == 0x8_f10e_4817_6ac9);
    assert(0x8_f10e_4817_6ac9 * 0x8_f10e_4817_6ac9 == 0x4f_f3e0_65fe_ba7b_4e31_6ca9_11d1nat);
    assert(0x18e_93cb * 0x18e_93cb == 0x2_6c8f_e086_c2f9);
    assert(0x2_6c8f_e086_c2f9 * 0x2_6c8f_e086_c2f9 == 0x5_e049_3869_5be0_0652_712a_5631nat);
    assert(0x18e_93cd * 0x18e_93cd == 0x2_6c8f_e6c1_1229);
    assert(0x2_6c8f_e6c1_1229 * 0x2_6c8f_e6c1_1229 == 0x5_e049_569a_cba8_600c_0f1b_ca91nat);
    assert(269025nat * 269025 * 269025 == 0x45_2c59_9066_9ca1);
    assert(0x45_2c59_9066_9ca1 * 0x45_2c59_9066_9ca1 == 0x12b0_eff6_c049_6d6d_d948_5020_9d41nat);
    assert(0x12b0_eff6_c049_6d6d_d948_5020_9d41nat * 0x12b0_eff6_c049_6d6d_d948_5020_9d41nat == 0x15d_5c09_8741_6139_2178_92b9_bce5_5f46_89a2_dd05_b95f_0d00_50d8_ca81nat);
    assert(0x4f_f3e0_65fe_ba7b_4e31_6ca9_11d1nat * 0x4f_f3e0_65fe_ba7b_4e31_6ca9_11d1nat == 0x18f8_6cd2_b98b_5489_ad57_9b59_b185_0894_84d8_a089_44b2_df2f_6ca1nat);
    assert(0x5_e049_3869_5be0_0652_712a_5631nat * 0x18e_93cb == 0x926_1648_9941_1197_5272_4a2d_0c3e_7bdbnat);
    assert(0x5_e049_569a_cba8_600c_0f1b_ca91nat * 0x18e_93cd == 0x926_1683_5c1d_dcac_17bb_5389_fc00_791dnat);
    assert(0x926_1648_9941_1197_5272_4a2d_0c3e_7bdbnat * 0x15d_5c09_8741_6139_2178_92b9_bce5_5f46_89a2_dd05_b95f_0d00_50d8_ca81nat == 0xc_7c36_6827_393b_2b46_4fc2_4ce8_d8b5_806b_34d4_a0d4_203f_1e8f_c919_d0d3_b044_572c_0282_c983_e6c9_69ff_375bnat);
    assert(0x926_1683_5c1d_dcac_17bb_5389_fc00_791dnat * 0x15d_5c09_8741_6139_2178_92b9_bce5_5f46_89a2_dd05_b95f_0d00_50d8_ca81nat == 0xc_7c36_b858_0073_451a_190f_7ec1_9be6_dd5e_1f9c_f131_3d74_80c3_1b4e_15c4_5269_ac43_d1ab_4d66_389f_9c45_e99dnat);
    assert(0x18f8_6cd2_b98b_5489_ad57_9b59_b185_0894_84d8_a089_44b2_df2f_6ca1nat * 0x80_0000_0000_0000_0000_0000_0000_0000_0000nat == 0xc_7c36_695c_c5aa_44d6_abcd_acd8_c284_4a42_6c50_44a2_596f_97b6_5080_0000_0000_0000_0000_0000_0000_0000_0000nat);
    lemma_power_known(
        0x3e47_49e6, 0xc7_49e6, 123, 0x80_0000_0000_0000_0000_0000_0000_0000_0000nat,
        136025, 0x8_f10e_4817_6ac9,
        0x4f_f3e0_65fe_ba7b_4e31_6ca9_11d1nat,
        269025, 0x45_2c59_9066_9ca1,
        0x12b0_eff6_c049_6d6d_d948_5020_9d41nat,
        0x2_6c8f_e086_c2f9, 0x5_e049_3869_5be0_0652_712a_5631nat,
        0x2_6c8f_e6c1_1229, 0x5_e049_569a_cba8_600c_0f1b_ca91nat,
    );
}

/// Code 123.
proof fn lemma_entry_123()
    ensures
        nearest_to_power(0x3e4a_d2af, 137025, 269025),
{
    lemma_fifth_powers_of_two();
    assert(137025nat * 137025 * 137025 == 0x9_23e9_956f_f5c1);
    assert(0x9_23e9_956f_f5c1 * 0x9_23e9_956f_f5c1 == 0x53_8b76_35dd_41cd_a45b_b348_fb81nat);
    assert(0x195_a55d * 0x195_a55d == 0x2_82c4_a313_03c9);
    assert(0x2_82c4_a313_03c9 * 0x2_82c4_a313_03c9 == 0x6_4dde_d8f5_7bfb_2803_85e4_53d1nat);
    assert(0x195_a55f * 0x195_a55f == 0x2_82c4_a969_9941);
    assert(0x2_82c4_a969_9941 * 0x2_82c4_a969_9941 == 0x6_4dde_f8c9_7e79_476e_e510_c281nat);
    assert(269025nat * 269025 * 269025 == 0x45_2c59_9066_9ca1);
    assert(0x45_2c59_9066_9ca1 * 0x45_2c59_9066_9ca1 == 0x12b0_eff6_c049_6d6d_d948_5020_9d41nat);
    assert(0x12b0_eff6_c049_6d6d_d948_5020_9d41nat * 0x12b0_eff6_c049_6d6d_d948_5020_9d41nat == 0x15d_5c09_8741_6139_2178_92b9_bce5_5f46_89a2_dd05_b95f_0d00_50d8_ca81nat);
    assert(0x53_8b76_35dd_41cd_a45b_b348_fb81nat * 0x53_8b76_35dd_41cd_a45b_b348_fb81nat == 0x1b43_baa0_828c_a41b_e9ff_2e93_6f42_ea7f_77e2_c449_3a3a_d5a6_3701nat);
    assert(0x6_4dde_d8f5_7bfb_2803_85e4_53d1nat * 0x195_a55d == 0x9fd_4408_2828_2e6d_389a_a0cc_679d_27ednat);
    assert(0x6_4dde_f8c9_7e79_476e_e510_c281nat * 0x195_a55f == 0x9fd_4447_32dd_4728_1c7c_5f4e_84aa_52dfnat);
    assert(0x9fd_4408_2828_2e6d_389a_a0cc_679d_27ednat * 0x15d_5c09_8741_6139_2178_92b9_bce5_5f46_89a2_dd05_b95f_0d00_50d8_ca81nat == 0xd_a1dd_22c0_2d78_e9b8_06e9_f432_c357_b988_44f4_75f6_ba6b_e540_a8c5_2cf4_96ba_4622_6f7b_269e_e2d5_f7aa_206dnat);
    assert(0x9fd_4447_32dd_4728_1c7c_5f4e_84aa_52dfnat * 0x15d_5c09_8741_6139_2178_92b9_bce5_5f46_89a2_dd05_b95f_0d00_50d8_ca81nat == 0xd_a1dd_78c8_708d_6480_e347_e35e_8bf8_8173_3254_5532_0a9a_a318_a034_ffbf_4c98_a43a_d798_ff8b_77da_db5f_b85fnat);
    assert(0x1b43_baa0_828c_a41b_e9ff_2e93_6f42_ea7f_77e2_c449_3a3a_d5a6_3701nat * 0x80_0000_0000_0000_0000_0000_0000_0000_0000nat == 0xd_a1dd_5041_4652_0df4_ff97_49b7_a175_3fbb_f162_249d_1d6a_d31b_8080_0000_0000_0000_0000_0000_0000_0000_0000nat);
    lemma_power_known(
        0x3e4a_d2af, 0xca_d2af, 123, 0x80_0000_0000_0000_0000_0000_0000_0000_0000nat,
        137025, 0x9_23e9_956f_f5c1,
        0x53_8b76_35dd_41cd_a45b_b348_fb81nat,
        269025, 0x45_2c59_9066_9ca1,
        0x12b0_eff6_c049_6d6d_d948_5020_9d41nat,
        0x2_82c4_a313_03c9, 0x6_4dde_d8f5_7bfb_2803_85e4_53d1nat,
        0x2_82c4_a969_9941, 0x6_4dde_f8c9_7e79_476e_e510_c281nat,
    );
}

/// Code 124.
proof fn lemma_entry_124()
    ensures
        nearest_to_power(0x3e4e_64c3, 138025, 269025),
{
    lemma_fifth_powers_of_two();
    assert(138025nat * 138025 * 138025 == 0x9_5784_4ebd_ee39);
    assert(0x9_5784_4ebd_ee39 * 0x9_5784_4ebd_ee39 == 0x57_4538_bb41_2402_b2dc_59d8_08b1nat);
    assert(0x19c_c985 * 0x19c_c985 == 0x2_9999_42ba_1f19);
    assert(0x2_9999_42ba_1f19 * 0x2_9999_42ba_1f19 == 0x6_c28d_986b_c96d_8d3c_181b_1071nat);
    assert(0x19c_c987 * 0x19c_c987 == 0x2_9999_492d_4531);
    assert(0x2_9999_492d_4531 * 0x2_9999_492d_4531 == 0x6_c28d_b9f5_be80_2009_57ed_7361nat);
    assert(269025nat * 269025 * 269025 == 0x45_2c59_9066_9ca1);
    assert(0x45_2c59_9066_9ca1 * 0x45_2c59_9066_9ca1 == 0x12b0_eff6_c049_6d6d_d948_5020_9d41nat);
    assert(0x12b0_eff6_c049_6d6d_d948_5020_9d41nat * 0x12b0_eff6_c049_6d6d_d948_5020_9d41nat == 0x15d_5c09_8741_6139_2178_92b9_bce5_5f46_89a2_dd05_b95f_0d00_50d8_ca81nat);
    assert(0x57_4538_bb41_2402_b2dc_59d8_08b1nat * 0x57_4538_bb41_2402_b2dc_59d8_08b1nat == 0x1dc0_1f46_e7ca_0cb7_028d_5969_2cfd_b584_544e_e1b1_0091_bcfb_8a61nat);
    assert(0x6_c28d_986b_c96d_8d3c_181b_1071nat * 0x19c_c985 == 0xae6_6e25_8db4_fd75_f685_5ab4_3bd4_43b5nat);
    assert(0x6_c28d_b9f5_be80_2009_57ed_7361nat * 0x19c_c987 == 0xae6_6e69_273d_995d_9dc1_bd1c_7deb_0127nat);
    assert(0xae6_6e25_8db4_fd75_f685_5ab4_3bd4_43b5nat * 0x15d_5c09_8741_6139_2178_92b9_bce5_5f46_89a2_dd05_b95f_0d00_50d8_ca81nat == 0xe_e00f_60a3_dab8_13ff_65ab_bc89_551e_72be_35df_955b_9b70_046e_ebed_e3d9_9a6d_bda0_cd19_0224_ed49_541a_f035nat);
    assert(0xae6_6e69_273d_995d_9dc1_bd1c_7deb_0127nat * 0x15d_5c09_8741_6139_2178_92b9_bce5_5f46_89a2_dd05_b95f_0d00_50d8_ca81nat == 0xe_e00f_bce4_77a5_d3dd_d066_0149_7972_fa31_cde1_98b6_a28e_7b92_8ed2_97c8_cbac_93c7_7e6a_60c4_705c_0b3c_5aa7nat);
    assert(0x1dc0_1f46_e7ca_0cb7_028d_5969_2cfd_b584_544e_e1b1_0091_bcfb_8a61nat * 0x80_0000_0000_0000_0000_0000_0000_0000_0000nat == 0xe_e00f_a373_e506_5b81_46ac_b496_7eda_c22a_2770_d880_48de_7dc5_3080_0000_0000_0000_0000_0000_0000_0000_0000nat);
    lemma_power_known(
        0x3e4e_64c3, 0xce_64c3, 123, 0x80_0000_0000_0000_0000_0000_0000_0000_0000nat,
        138025, 0x9_5784_4ebd_ee39,
        0x57_4538_bb41_2402_b2dc_59d8_08b1nat,
        269025, 0x45_2c59_9066_9ca1,
        0x12b0_eff6_c049_6d6d_d948_5020_9d41nat,
        0x2_9999_42ba_1f19, 0x6_c28d_986b_c96d_8d3c_181b_1071nat,
        0x2_9999_492d_4531, 0x6_c28d_b9f5_be80_2009_57ed_7361nat,
    );
}

/// Code 125.
proof fn lemma_entry_125()
    ensures
        nearest_to_power(0x3e52_0029, 139025, 269025),
{
    lemma_fifth_powers_of_two();
    assert(139025nat * 139025 * 139025 == 0x9_8bdf_d9a2_1031);
    assert(0x9_8bdf_d9a2_1031 * 0x9_8bdf_d9a2_1031 == 0x5b_222a_2778_0263_9169_910a_2961nat);
    assert(0x1a4_0051 * 0x1a4_0051 == 0x2_b111_09c8_19a1);
    assert(0x2_b111_09c8_19a1 * 0x2_b111_09c8_19a1 == 0x7_3ebc_b7c9_66e7_b797_6020_d741nat);
    assert(0x1a4_0053 * 0x1a4_0053 == 0x2_b111_1058_1ae9);
    assert(0x2_b111_1058_1ae9 * 0x2_b111_1058_1ae9 == 0x7_3ebc_db1d_6d98_e6a1_a304_2811nat);
    assert(269025nat * 269025 * 269025 == 0x45_2c59_9066_9ca1);
    assert(0x45_2c59_9066_9ca1 * 0x45_2c59_9066_9ca1 == 0x12b0_eff6_c049_6d6d_d948_5020_9d41nat);
    assert(0x12b0_eff6_c049_6d6d_d948_5020_9d41nat * 0x12b0_eff6_c049_6d6d_d948_5020_9d41nat == 0x15d_5c09_8741_6139_2178_92b9_bce5_5f46_89a2_dd05_b95f_0d00_50d8_ca81nat);
    assert(0x5b_222a_2778_0263_9169_910a_2961nat * 0x5b_222a_2778_0263_9169_910a_2961nat == 0x2071_4e87_48be_8ce2_6555_720f_e771_da79_7147_5468_56d9_2444_36c1nat);
    assert(0x7_3ebc_b7c9_66e7_b797_6020_d741nat * 0x1a4_0051 == 0xbe2_efe8_6022_fae2_c3aa_ccc6_9108_1b91nat);
    assert(0x7_3ebc_db1d_6d98_e6a1_a304_2811nat * 0x1a4_0053 == 0xbe2_f030_d382_d964_e9c2_3939_963c_fd83nat);
    assert(0xbe2_efe8_6022_fae2_c3aa_ccc6_9108_1b91nat * 0x15d_5c09_8741_6139_2178_92b9_bce5_5f46_89a2_dd05_b95f_0d00_50d8_ca81nat == 0x10_38a7_0f44_b70e_1338_3c9a_d4d1_973d_9634_e7ca_cbe8_cec0_9e7f_9c6e_c698_bbc8_a0ad_4ce4_a0b8_22f4_0d2e_4e11nat);
    assert(0xbe2_f030_d382_d964_e9c2_3939_963c_fd83nat * 0x15d_5c09_8741_6139_2178_92b9_bce5_5f46_89a2_dd05_b95f_0d00_50d8_ca81nat == 0x10_38a7_7224_0ce9_3454_205e_0d34_aec8_f02d_3a23_391f_51ec_2b5a_da8a_2d90_9e0b_9f74_e515_2b0c_c03f_ab4d_1d03nat);
    assert(0x2071_4e87_48be_8ce2_6555_720f_e771_da79_7147_5468_56d9_2444_36c1nat * 0x80_0000_0000_0000_0000_0000_0000_0000_0000nat == 0x10_38a7_43a4_5f46_7132_aab9_07f3_b8ed_3cb8_a3aa_342b_6c92_221b_6080_0000_0000_0000_0000_0000_0000_0000_0000nat);
    lemma_power_known(
        0x3e52_0029, 0xd2_0029, 123, 0x80_0000_0000_0000_0000_0000_0000_0000_0000nat,
        139025, 0x9_8bdf_d9a2_1031,
        0x5b_222a_2778_0263_9169_910a_2961nat,
        269025, 0x45_2c59_9066_9ca1,
        0x12b0_eff6_c049_6d6d_d948_5020_9d41nat,
        0x2_b111_09c8_19a1, 0x7_3ebc_b7c9_66e7_b797_6020_d741nat,
        0x2_b111_1058_1ae9, 0x7_3ebc_db1d_6d98_e6a1_a304_2811nat,
    );
}

/// Code 126.
proof fn lemma_entry_126()
    ensures
        nearest_to_power(0x3e55_a4e7, 140025, 269025),
{
    lemma_fifth_powers_of_two();
    assert(140025nat * 140025 * 140025 == 0x9_c0fd_9bbd_17a9);
    assert(0x9_c0fd_9bbd_17a9 * 0x9_c0fd_9bbd_17a9 == 0x5f_2352_5824_7fde_ca5c_97b9_cd91nat);
    assert(0x1ab_49cd * 0x1ab_49cd == 0x2_c92f_4724_8e29);
    assert(0x2_c92f_4724_8e29 * 0x2_c92f_4724_8e29 == 0x7_c2d8_6304_d311_e121_0879_8291nat);
    assert(0x1ab_49cf * 0x1ab_49cf == 0x2_c92f_4dd1_b561);
    assert(0x2_c92f_4dd1_b561 * 0x2_c92f_4dd1_b561 == 0x7_c2d8_8837_cefe_be84_02e4_4ec1nat);
    assert(269025nat * 269025 * 269025 == 0x45_2c59_9066_9ca1);
    assert(0x45_2c59_9066_9ca1 * 0x45_2c59_9066_9ca1 == 0x12b0_eff6_c049_6d6d_d948_5020_9d41nat);
    assert(0x12b0_eff6_c049_6d6d_d948_5020_9d41nat * 0x12b0_eff6_c049_6d6d_d948_5020_9d41nat == 0x15d_5c09_8741_6139_2178_92b9_bce5_5f46_89a2_dd05_b95f_0d00_50d8_ca81nat);
    assert(0x5f_2352_5824_7fde_ca5c_97b9_cd91nat * 0x5f_2352_5824_7fde_ca5c_97b9_cd91nat == 0x235b_3bfd_09ad_780c_23e4_f25b_f3e1_3791_41ed_055d_4b93_cea3_8c21nat);
    assert(0x7_c2d8_6304_d311_e121_0879_8291nat * 0x1ab_49cd == 0xcf4_3bb3_e48f_b9df_a09c_d58b_3763_e71dnat);
    assert(0x7_c2d8_8837_cefe_be84_02e4_4ec1nat * 0x1ab_49cf == 0xcf4_3c01_8104_520e_ca80_8460_ccfb_b70fnat);
    assert(0xcf4_3bb3_e48f_b9df_a09c_d58b_3763_e71dnat * 0x15d_5c09_8741_6139_2178_92b9_bce5_5f46_89a2_dd05_b95f_0d00_50d8_ca81nat == 0x11_ad9d_a521_71d1_8a9e_ba2a_76d9_06e6_8e90_fc42_3acf_fcd2_ddb8_e275_220e_ea65_3552_03f3_29cc_e25f_ce2c_579dnat);
    assert(0xcf4_3c01_8104_520e_ca80_8460_ccfb_b70fnat * 0x15d_5c09_8741_6139_2178_92b9_bce5_5f46_89a2_dd05_b95f_0d00_50d8_ca81nat == 0x11_ad9e_0f0b_a3e2_6b08_d1bb_c845_2d52_b999_7bf2_a0e9_07dd_dd4f_d7c7_67ec_99b1_0ee7_7471_f2cf_771d_0df1_148fnat);
    assert(0x235b_3bfd_09ad_780c_23e4_f25b_f3e1_3791_41ed_055d_4b93_cea3_8c21nat * 0x80_0000_0000_0000_0000_0000_0000_0000_0000nat == 0x11_ad9d_fe84_d6bc_0611_f279_2df9_f09b_c8a0_f682_aea5_c9e7_51c6_1080_0000_0000_0000_0000_0000_0000_0000_0000nat);
    lemma_power_known(
        0x3e55_a4e7, 0xd5_a4e7, 123, 0x80_0000_0000_0000_0000_0000_0000_0000_0000nat,
        140025, 0x9_c0fd_9bbd_17a9,
        0x5f_2352_5824_7fde_ca5c_97b9_cd91nat,
        269025, 0x45_2c59_9066_9ca1,
        0x12b0_eff6_c049_6d6d_d948_5020_9d41nat,
        0x2_c92f_4724_8e29, 0x7_c2d8_6304_d311_e121_0879_8291nat,
        0x2_c92f_4dd1_b561, 0x7_c2d8_8837_cefe_be84_02e4_4ec1nat,
    );
}

/// Code 127.
proof fn lemma_entry_127()
    ensures
        nearest_to_power(0x3e59_5305, 141025, 269025),
{
    lemma_fifth_powers_of_two();
    assert(141025nat * 141025 * 141025 == 0x9_f6de_faaf_c0a1);
    assert(0x9_f6de_faaf_c0a1 * 0x9_f6de_faaf_c0a1 == 0x63_49be_ec5d_0fd5_401f_610f_e541nat);
    assert(0x1b2_a609 * 0x1b2_a609 == 0x2_e1f7_6233_ac51);
    assert(0x2_e1f7_6233_ac51 * 0x2_e1f7_6233_ac51 == 0x8_4f52_527c_2b8c_80aa_2042_f1a1nat);
    assert(0x1b2_a60b * 0x1b2_a60b == 0x2_e1f7_68fe_4479);
    assert(0x2_e1f7_68fe_4479 * 0x2_e1f7_68fe_4479 == 0x8_4f52_79a3_cbf8_67ac_426c_8131nat);
    assert(269025nat * 269025 * 269025 == 0x45_2c59_9066_9ca1);
    assert(0x45_2c59_9066_9ca1 * 0x45_2c59_9066_9ca1 == 0x12b0_eff6_c049_6d6d_d948_5020_9d41nat);
    assert(0x12b0_eff6_c049_6d6d_d948_5020_9d41nat * 0x12b0_eff6_c049_6d6d_d948_5020_9d41nat == 0x15d_5c09_8741_6139_2178_92b9_bce5_5f46_89a2_dd05_b95f_0d00_50d8_ca81nat);
    assert(0x63_49be_ec5d_0fd5_401f_610f_e541nat * 0x63_49be_ec5d_0fd5_401f_610f_e541nat == 0x2682_1ee9_412b_0656_6e67_d65f_9586_a45f_7eeb_b571_1275_eceb_5a81nat);
    assert(0x8_4f52_527c_2b8c_80aa_2042_f1a1nat * 0x1b2_a609 == 0xe1b_dd4a_01e3_3ecc_c3c9_8864_2dfa_e4a9nat);
    assert(0x8_4f52_79a3_cbf8_67ac_426c_8131nat * 0x1b2_a60b == 0xe1b_dd9d_1b1b_3b6c_98ee_c36c_3b81_531bnat);
    assert(0xe1b_dd4a_01e3_3ecc_c3c9_8864_2dfa_e4a9nat * 0x15d_5c09_8741_6139_2178_92b9_bce5_5f46_89a2_dd05_b95f_0d00_50d8_ca81nat == 0x13_410f_37da_3f35_4464_92fd_18fd_71d1_3fcb_6e36_28c1_3adf_c090_8e1c_cfa9_f470_1c97_3651_ca65_8ee8_e272_9329nat);
    assert(0xe1b_dd9d_1b1b_3b6c_98ee_c36c_3b81_531bnat * 0x15d_5c09_8741_6139_2178_92b9_bce5_5f46_89a2_dd05_b95f_0d00_50d8_ca81nat == 0x13_410f_a941_80b0_9390_f57f_920d_14a4_e55d_d47e_f27d_ffbf_dfd4_1813_37d4_b0df_ed7a_4085_17ab_de94_9686_2e9bnat);
    assert(0x2682_1ee9_412b_0656_6e67_d65f_9586_a45f_7eeb_b571_1275_eceb_5a81nat * 0x80_0000_0000_0000_0000_0000_0000_0000_0000nat == 0x13_410f_74a0_9583_2b37_33eb_2fca_c352_2fbf_75da_b889_3af6_75ad_4080_0000_0000_0000_0000_0000_0000_0000_0000nat);
    lemma_power_known(
        0x3e59_5305, 0xd9_5305, 123, 0x80_0000_0000_0000_0000_0000_0000_0000_0000nat,
        141025, 0x9_f6de_faaf_c0a1,
        0x63_49be_ec5d_0fd5_401f_610f_e541nat,
        269025, 0x45_2c59_9066_9ca1,
        0x12b0_eff6_c049_6d6d_d948_5020_9d41nat,
        0x2_e1f7_6233_ac51, 0x8_4f52_527c_2b8c_80aa_2042_f1a1nat,
        0x2_e1f7_68fe_4479, 0x8_4f52_79a3_cbf8_67ac_426c_8131nat,
    );
}

/// Code 128.
proof fn lemma_entry_128()
    ensures
        nearest_to_power(0x3e5d_0a89, 142025, 269025),
{
    lemma_fifth_powers_of_two();
    assert(142025nat * 142025 * 142025 == 0xa_2d85_5c1a_c719);
    assert(0xa_2d85_5c1a_c719 * 0xa_2d85_5c1a_c719 == 0x67_9683_59f1_cce8_ebe1_03eb_e071nat);
    assert(0x1ba_1511 * 0x1ba_1511 == 0x2_fb6c_c06f_cb21);
    assert(0x2_fb6c_c06f_cb21 * 0x2_fb6c_c06f_cb21 == 0x8_e4a1_714d_53d1_fb5b_47cb_5a41nat);
    assert(0x1ba_1513 * 0x1ba_1513 == 0x2_fb6c_c758_1f69);
    assert(0x2_fb6c_c758_1f69 * 0x2_fb6c_c758_1f69 == 0x8_e4a1_9a80_18d0_85c2_da0a_9911nat);
    assert(269025nat * 269025 * 269025 == 0x45_2c59_9066_9ca1);
    assert(0x45_2c59_9066_9ca1 * 0x45_2c59_9066_9ca1 == 0x12b0_eff6_c049_6d6d_d948_5020_9d41nat);
    assert(0x12b0_eff6_c049_6d6d_d948_5020_9d41nat * 0x12b0_eff6_c049_6d6d_d948_5020_9d41nat == 0x15d_5c09_8741_6139_2178_92b9_bce5_5f46_89a2_dd05_b95f_0d00_50d8_ca81nat);
    assert(0x67_9683_59f1_cce8_ebe1_03eb_e071nat * 0x67_9683_59f1_cce8_ebe1_03eb_e071nat == 0x29ea_7630_915f_6ca0_7ebb_a743_a798_833f_12f7_d78f_5d3a_7a3b_f1e1nat);
    assert(0x8_e4a1_714d_53d1_fb5b_47cb_5a41nat * 0x1ba_1511 == 0xf5b_7a16_0c86_968e_c62a_230d_4722_5351nat);
    assert(0x8_e4a1_9a80_18d0_85c2_da0a_9911nat * 0x1ba_1513 == 0xf5b_7a6e_fad5_d191_e4df_5fa5_54b1_c143nat);
    assert(0xf5b_7a16_0c86_968e_c62a_230d_4722_5351nat * 0x15d_5c09_8741_6139_2178_92b9_bce5_5f46_89a2_dd05_b95f_0d00_50d8_ca81nat == 0x14_f53a_e243_7432_c651_7952_94f6_18a8_c736_eafd_5c7c_73fa_6c38_859a_7018_27c1_fefa_52f5_069c_ffd1_8a61_e5d1nat);
    assert(0xf5b_7a6e_fad5_d191_e4df_5fa5_54b1_c143nat * 0x15d_5c09_8741_6139_2178_92b9_bce5_5f46_89a2_dd05_b95f_0d00_50d8_ca81nat == 0x14_f53b_5ba0_4f2a_0ff2_98ec_bcfd_f0e4_d9c6_9392_4617_d32f_bc29_ec15_7a0b_83f5_1ada_88b5_1dac_1083_f099_40c3nat);
    assert(0x29ea_7630_915f_6ca0_7ebb_a743_a798_833f_12f7_d78f_5d3a_7a3b_f1e1nat * 0x80_0000_0000_0000_0000_0000_0000_0000_0000nat == 0x14_f53b_1848_afb6_503f_5dd3_a1d3_cc41_9f89_7beb_c7ae_9d3d_1df8_f080_0000_0000_0000_0000_0000_0000_0000_0000nat);
    lemma_power_known(
        0x3e5d_0a89, 0xdd_0a89, 123, 0x80_0000_0000_0000_0000_0000_0000_0000_0000nat,
        142025, 0xa_2d85_5c1a_c719,
        0x67_9683_59f1_cce8_ebe1_03eb_e071nat,
        269025, 0x45_2c59_9066_9ca1,
        0x12b0_eff6_c049_6d6d_d948_5020_9d41nat,
        0x2_fb6c_c06f_cb21, 0x8_e4a1_714d_53d1_fb5b_47cb_5a41nat,
        0x2_fb6c_c758_1f69, 0x8_e4a1_9a80_18d0_85c2_da0a_9911nat,
    );
}

/// Code 129.
proof fn lemma_entry_129()
    ensures
        nearest_to_power(0x3e60_cb7a, 143025, 269025),
{
    lemma_fifth_powers_of_two();
    assert(143025nat * 143025 * 143025 == 0xa_64f2_259e_e711);
    assert(0xa_64f2_259e_e711 * 0xa_64f2_259e_e711 == 0x6c_0ab9_02d9_57cd_7590_f38b_af21nat);
    assert(0x1c1_96f3 * 0x1c1_96f3 == 0x3_1592_d967_aaa9);
    assert(0x3_1592_d967_aaa9 * 0x3_1592_d967_aaa9 == 0x9_8342_8455_b4d5_4c11_47c2_e391nat);
    assert(0x1c1_96f5 * 0x1c1_96f5 == 0x3_1592_e06e_0679);
    assert(0x3_1592_e06e_0679 * 0x3_1592_e06e_0679 == 0x9_8342_afaa_f625_f6a1_5025_e531nat);
    assert(269025nat * 269025 * 269025 == 0x45_2c59_9066_9ca1);
    assert(0x45_2c59_9066_9ca1 * 0x45_2c59_9066_9ca1 == 0x12b0_eff6_c049_6d6d_d948_5020_9d41nat);
    assert(0x12b0_eff6_c049_6d6d_d948_5020_9d41nat * 0x12b0_eff6_c049_6d6d_d948_5020_9d41nat == 0x15d_5c09_8741_6139_2178_92b9_bce5_5f46_89a2_dd05_b95f_0d00_50d8_ca81nat);
    assert(0x6c_0ab9_02d9_57cd_7590_f38b_af21nat * 0x6c_0ab9_02d9_57cd_7590_f38b_af21nat == 0x2d99_0c8d_6150_2e60_4455_eaa7_8bc2_c8ea_3961_7bc5_a9d0_4ba4_2241nat);
    assert(0x9_8342_8455_b4d5_4c11_47c2_e391nat * 0x1c1_96f3 == 0x10b4_d39a_abff_ff6a_0b58_3144_70a5_f8a3nat);
    assert(0x9_8342_afaa_f625_f6a1_5025_e531nat * 0x1c1_96f5 == 0x10b4_d3f9_cc9a_036d_61c5_1fce_e380_0de5nat);
    assert(0x10b4_d39a_abff_ff6a_0b58_3144_70a5_f8a3nat * 0x15d_5c09_8741_6139_2178_92b9_bce5_5f46_89a2_dd05_b95f_0d00_50d8_ca81nat == 0x16_cc86_1517_2217_c8f5_1ff3_b426_da99_61f2_9a7d_022f_712f_05e1_68a2_102b_c09f_95e5_4d5e_c061_051c_735a_e823nat);
    assert(0x10b4_d3f9_cc9a_036d_61c5_1fce_e380_0de5nat * 0x15d_5c09_8741_6139_2178_92b9_bce5_5f46_89a2_dd05_b95f_0d00_50d8_ca81nat == 0x16_cc86_96e8_c751_02d9_e96f_ebb1_c650_c50e_d646_ea0b_4ce2_c8c1_1597_6a81_78f7_5b5c_901d_72c5_e026_f7b5_b265nat);
    assert(0x2d99_0c8d_6150_2e60_4455_eaa7_8bc2_c8ea_3961_7bc5_a9d0_4ba4_2241nat * 0x80_0000_0000_0000_0000_0000_0000_0000_0000nat == 0x16_cc86_46b0_a817_3022_2af5_53c5_e164_751c_b0bd_e2d4_e825_d211_2080_0000_0000_0000_0000_0000_0000_0000_0000nat);
    lemma_power_known(
        0x3e60_cb7a, 0xe0_cb7a, 123, 0x80_0000_0000_0000_0000_0000_0000_0000_0000nat,
        143025, 0xa_64f2_259e_e711,
        0x6c_0ab9_02d9_57cd_7590_f38b_af21nat,
        269025, 0x45_2c59_9066_9ca1,
        0x12b0_eff6_c049_6d6d_d948_5020_9d41nat,
        0x3_1592_d967_aaa9, 0x9_8342_8455_b4d5_4c11_47c2_e391nat,
        0x3_1592_e06e_0679, 0x9_8342_afaa_f625_f6a1_5025_e531nat,
    );
}

/// Code 130.
proof fn lemma_entry_130()
    ensures
        nearest_to_power(0x3e64_95df, 144025, 269025),
{
    lemma_fifth_powers_of_two();
    assert(144025nat * 144025 * 144025 == 0xa_9d26_bcdc_dc89);
    assert(0xa_9d26_bcdc_dc89 * 0xa_9d26_bcdc_dc89 == 0x70_a77f_4ac4_be1a_a521_0173_c151nat);
    assert(0x1c9_2bbd * 0x1c9_2bbd == 0x3_306d_3043_0989);
    assert(0x3_306d_3043_0989 * 0x3_306d_3043_0989 == 0xa_2bb8_423d_7ef8_b3cb_5e10_eb51nat);
    assert(0x1c9_2bbf * 0x1c9_2bbf == 0x3_306d_3767_b881);
    assert(0x3_306d_3767_b881 * 0x3_306d_3767_b881 == 0xa_2bb8_6fcd_7287_3927_6ac7_b101nat);
    assert(269025nat * 269025 * 269025 == 0x45_2c59_9066_9ca1);
    assert(0x45_2c59_9066_9ca1 * 0x45_2c59_9066_9ca1 == 0x12b0_eff6_c049_6d6d_d948_5020_9d41nat);
    assert(0x12b0_eff6_c049_6d6d_d948_5020_9d41nat * 0x12b0_eff6_c049_6d6d_d948_5020_9d41nat == 0x15d_5c09_8741_6139_2178_92b9_bce5_5f46_89a2_dd05_b95f_0d00_50d8_ca81nat);
    assert(0x70_a77f_4ac4_be1a_a521_0173_c151nat * 0x70_a77f_4ac4_be1a_a521_0173_c151nat == 0x3192_fcf8_befe_4c62_33dd_395d_1d35_94c0_86a0_1780_5cbb_e2c1_3ba1nat);
    assert(0xa_2bb8_423d_7ef8_b3cb_5e10_eb51nat * 0x1c9_2bbd == 0x1229_c8c8_79f0_e5b3_79da_d225_5d9d_55cdnat);
    assert(0xa_2bb8_6fcd_7287_3927_6ac7_b101nat * 0x1c9_2bbf == 0x1229_c92e_2f24_5fea_30da_e1d3_3081_3abfnat);
    assert(0x1229_c8c8_79f0_e5b3_79da_d225_5d9d_55cdnat * 0x15d_5c09_8741_6139_2178_92b9_bce5_5f46_89a2_dd05_b95f_0d00_50d8_ca81nat == 0x18_c97e_6a87_04ab_97a8_4d6e_c674_867f_918c_41de_5db9_3d4a_3ff4_206f_e6be_559d_2e35_8c0a_074b_f142_c6f3_fe4dnat);
    assert(0x1229_c92e_2f24_5fea_30da_e1d3_3081_3abfnat * 0x15d_5c09_8741_6139_2178_92b9_bce5_5f46_89a2_dd05_b95f_0d00_50d8_ca81nat == 0x18_c97e_f553_9cc0_cf82_8614_a37d_5ae8_1b63_699b_4bc0_1985_1ea0_7553_da66_ae7a_00df_e46a_41b2_7216_aaa1_503fnat);
    assert(0x3192_fcf8_befe_4c62_33dd_395d_1d35_94c0_86a0_1780_5cbb_e2c1_3ba1nat * 0x80_0000_0000_0000_0000_0000_0000_0000_0000nat == 0x18_c97e_7c5f_7f26_3119_ee9c_ae8e_9aca_6043_500b_c02e_5df1_609d_d080_0000_0000_0000_0000_0000_0000_0000_0000nat);
    lemma_power_known(
        0x3e64_95df, 0xe4_95df, 123, 0x80_0000_0000_0000_0000_0000_0000_0000_0000nat,
        144025, 0xa_9d26_bcdc_dc89,
        0x70_a77f_4ac4_be1a_a521_0173_c151nat,
        269025, 0x45_2c59_9066_9ca1,
        0x12b0_eff6_c049_6d6d_d948_5020_9d41nat,
        0x3_306d_3043_0989, 0xa_2bb8_423d_7ef8_b3cb_5e10_eb51nat,
        0x3_306d_3767_b881, 0xa_2bb8_6fcd_7287_3927_6ac7_b101nat,
    );
}

/// Code 131.
proof fn lemma_entry_131()
    ensures
        nearest_to_power(0x3e68_69be, 145025, 269025),
{
    lemma_fifth_powers_of_two();
    assert(145025nat * 145025 * 145025 == 0xa_d624_8775_6381);
    assert(0xa_d624_8775_6381 * 0xa_d624_8775_6381 == 0x75_6dfb_acda_6920_ad0e_2897_0701nat);
    assert(0x1d0_d37b * 0x1d0_d37b == 0x3_4bff_4c93_fd19);
    assert(0x3_4bff_4c93_fd19 * 0x3_4bff_4c93_fd19 == 0xa_de8b_60f0_4a9d_11a1_7cf0_6c71nat);
    assert(0x1d0_d37d * 0x1d0_d37d == 0x3_4bff_53d7_4b09);
    assert(0x3_4bff_53d7_4b09 * 0x3_4bff_53d7_4b09 == 0xa_de8b_90d4_0a8a_11a4_f51c_4651nat);
    assert(269025nat * 269025 * 269025 == 0x45_2c59_9066_9ca1);
    assert(0x45_2c59_9066_9ca1 * 0x45_2c59_9066_9ca1 == 0x12b0_eff6_c049_6d6d_d948_5020_9d41nat);
    assert(0x12b0_eff6_c049_6d6d_d948_5020_9d41nat * 0x12b0_eff6_c049_6d6d_d948_5020_9d41nat == 0x15d_5c09_8741_6139_2178_92b9_bce5_5f46_89a2_dd05_b95f_0d00_50d8_ca81nat);
    assert(0x75_6dfb_acda_6920_ad0e_2897_0701nat * 0x75_6dfb_acda_6920_ad0e_2897_0701nat == 0x35dd_b74c_4842_7e64_5ffd_a1be_2fd1_fe69_72d9_28ab_a965_935f_0e01nat);
    assert(0xa_de8b_60f0_4a9d_11a1_7cf0_6c71nat * 0x1d0_d37b == 0x13bc_5745_8164_dda3_43b2_0655_bdb5_3d4bnat);
    assert(0xa_de8b_90d4_0a8a_11a4_f51c_4651nat * 0x1d0_d37d == 0x13bc_57b2_32d7_9678_ecf1_d6d1_6f93_188dnat);
    assert(0x13bc_5745_8164_dda3_43b2_0655_bdb5_3d4bnat * 0x15d_5c09_8741_6139_2178_92b9_bce5_5f46_89a2_dd05_b95f_0d00_50d8_ca81nat == 0x1a_eedb_652a_ceca_883d_239a_feb7_4c9a_1fbd_88bf_eca8_50d6_7ef1_cdd2_34bb_5b04_42c4_ee85_df47_5bf8_c1f9_10cbnat);
    assert(0x13bc_57b2_32d7_9678_ecf1_d6d1_6f93_188dnat * 0x15d_5c09_8741_6139_2178_92b9_bce5_5f46_89a2_dd05_b95f_0d00_50d8_ca81nat == 0x1a_eedb_f97f_cc01_684f_fd07_e4a9_90d6_17b5_d3d6_384e_f12b_a784_6c58_70f8_440a_fcff_47d4_6684_c65c_1176_a10dnat);
    assert(0x35dd_b74c_4842_7e64_5ffd_a1be_2fd1_fe69_72d9_28ab_a965_935f_0e01nat * 0x80_0000_0000_0000_0000_0000_0000_0000_0000nat == 0x1a_eedb_a624_213f_322f_fed0_df17_e8ff_34b9_6c94_55d4_b2c9_af87_0080_0000_0000_0000_0000_0000_0000_0000_0000nat);
    lemma_power_known(
        0x3e68_69be, 0xe8_69be, 123, 0x80_0000_0000_0000_0000_0000_0000_0000_0000nat,
        145025, 0xa_d624_8775_6381,
        0x75_6dfb_acda_6920_ad0e_2897_0701nat,
        269025, 0x45_2c59_9066_9ca1,
        0x12b0_eff6_c049_6d6d_d948_5020_9d41nat,
        0x3_4bff_4c93_fd19, 0xa_de8b_60f0_4a9d_11a1_7cf0_6c71nat,
        0x3_4bff_53d7_4b09, 0xa_de8b_90d4_0a8a_11a4_f51c_4651nat,
    );
}

/// Code 132.
proof fn lemma_entry_132()
    ensures
        nearest_to_power(0x3e6c_471f, 146025, 269025),
{
    lemma_fifth_powers_of_two();
    assert(146025nat * 146025 * 146025 == 0xb_0fec_eb09_37f9);
    assert(0xb_0fec_eb09_37f9 * 0xb_0fec_eb09_37f9 == 0x7a_5f59_d198_14be_4e30_21be_f031nat);
    assert(0x1d8_8e3d * 0x1d8_8e3d == 0x3_684c_cff7_ba89);
    assert(0x3_684c_cff7_ba89 * 0x3_684c_cff7_ba89 == 0xb_9c4b_5fd3_cace_a0bb_0a49_5d51nat);
    assert(0x1d8_8e3f * 0x1d8_8e3f == 0x3_684c_d759_f381);
    assert(0x3_684c_d759_f381 * 0x3_684c_d759_f381 == 0xb_9c4b_9225_5d6f_9b35_e550_2701nat);
    assert(269025nat * 269025 * 269025 == 0x45_2c59_9066_9ca1);
    assert(0x45_2c59_9066_9ca1 * 0x45_2c59_9066_9ca1 == 0x12b0_eff6_c049_6d6d_d948_5020_9d41nat);
    assert(0x12b0_eff6_c049_6d6d_d948_5020_9d41nat * 0x12b0_eff6_c049_6d6d_d948_5020_9d41nat == 0x15d_5c09_8741_6139_2178_92b9_bce5_5f46_89a2_dd05_b95f_0d00_50d8_ca81nat);
    assert(0x7a_5f59_d198_14be_4e30_21be_f031nat * 0x7a_5f59_d198_14be_4e30_21be_f031nat == 0x3a7f_051f_8e06_0c1f_dc71_9fd5_d5ac_e398_86c1_3726_b6b6_0c17_e961nat);
    assert(0xb_9c4b_5fd3_cace_a0bb_0a49_5d51nat * 0x1d8_8e3d == 0x156e_9e6e_bb9b_3cee_493f_038a_3296_2a4dnat);
    assert(0xb_9c4b_9225_5d6f_9b35_e550_2701nat * 0x1d8_8e3f == 0x156e_9ee2_d68d_f6cc_11ed_e33d_ce34_273fnat);
    assert(0x156e_9e6e_bb9b_3cee_493f_038a_3296_2a4dnat * 0x15d_5c09_8741_6139_2178_92b9_bce5_5f46_89a2_dd05_b95f_0d00_50d8_ca81nat == 0x1d_3f82_8a1b_eeb8_c4b7_b773_f1de_7858_c20d_ccd8_becc_4d9b_3c27_6138_07b6_b89a_e271_d382_c5ae_5979_bc04_12cdnat);
    assert(0x156e_9ee2_d68d_f6cc_11ed_e33d_ce34_273fnat * 0x15d_5c09_8741_6139_2178_92b9_bce5_5f46_89a2_dd05_b95f_0d00_50d8_ca81nat == 0x1d_3f83_288e_69a1_ad43_7a8a_1d09_171a_96d9_55f5_dedd_fa73_c852_35e7_003c_ad5d_d051_5b20_8823_c21e_dc67_7cbfnat);
    assert(0x3a7f_051f_8e06_0c1f_dc71_9fd5_d5ac_e398_86c1_3726_b6b6_0c17_e961nat * 0x80_0000_0000_0000_0000_0000_0000_0000_0000nat == 0x1d_3f82_8fc7_0306_0fee_38cf_eaea_d671_cc43_609b_935b_5b06_0bf4_b080_0000_0000_0000_0000_0000_0000_0000_0000nat);
    lemma_power_known(
        0x3e6c_471f, 0xec_471f, 123, 0x80_0000_0000_0000_0000_0000_0000_0000_0000nat,
        146025, 0xb_0fec_eb09_37f9,
        0x7a_5f59_d198_14be_4e30_21be_f031nat,
        269025, 0x45_2c59_9066_9ca1,
        0x12b0_eff6_c049_6d6d_d948_5020_9d41nat,
        0x3_684c_cff7_ba89, 0xb_9c4b_5fd3_cace_a0bb_0a49_5d51nat,
        0x3_684c_d759_f381, 0xb_9c4b_9225_5d6f_9b35_e550_2701nat,
    );
}

/// Code 133.
proof fn lemma_entry_133()
    ensures
        nearest_to_power(0x3e70_2e07, 147025, 269025),
{
    lemma_fifth_powers_of_two();
    assert(147025nat * 147025 * 147025 == 0xb_4a81_4d39_15f1);
    assert(0xb_4a81_4d39_15f1 * 0xb_4a81_4d39_15f1 == 0x7f_7ccb_a4db_ce38_d4cf_c133_6ce1nat);
    assert(0x1e0_5c0d * 0x1e0_5c0d == 0x3_8559_51d9_58a9);
    assert(0x3_8559_51d9_58a9 * 0x3_8559_51d9_58a9 == 0xc_658d_d94d_ed60_8224_5f36_9f91nat);
    assert(0x1e0_5c0f * 0x1e0_5c0f == 0x3_8559_595a_c8e1);
    assert(0x3_8559_595a_c8e1 * 0x3_8559_595a_c8e1 == 0xc_658e_0e28_4a4f_b650_4dd4_55c1nat);
    assert(269025nat * 269025 * 269025 == 0x45_2c59_9066_9ca1);
    assert(0x45_2c59_9066_9ca1 * 0x45_2c59_9066_9ca1 == 0x12b0_eff6_c049_6d6d_d948_5020_9d41nat);
    assert(0x12b0_eff6_c049_6d6d_d948_5020_9d41nat * 0x12b0_eff6_c049_6d6d_d948_5020_9d41nat == 0x15d_5c09_8741_6139_2178_92b9_bce5_5f46_89a2_dd05_b95f_0d00_50d8_ca81nat);
    assert(0x7f_7ccb_a4db_ce38_d4cf_c133_6ce1nat * 0x7f_7ccb_a4db_ce38_d4cf_c133_6ce1nat == 0x3f7d_0ee3_7bca_6aed_9f5f_c1b2_0e61_3d0e_9b46_edbd_505d_d1f4_9dc1nat);
    assert(0xc_658d_d94d_ed60_8224_5f36_9f91nat * 0x1e0_5c0d == 0x1742_df17_9469_1f37_c0de_347b_a6fe_365dnat);
    assert(0xc_658e_0e28_4a4f_b650_4dd4_55c1nat * 0x1e0_5c0f == 0x1742_df93_8bf4_a486_d6c2_78cd_a822_624fnat);
    assert(0x1742_df17_9469_1f37_c0de_347b_a6fe_365dnat * 0x15d_5c09_8741_6139_2178_92b9_bce5_5f46_89a2_dd05_b95f_0d00_50d8_ca81nat == 0x1f_be87_08f5_d8ef_29a2_5e46_043f_e6cd_2382_07c5_7fbc_9ea0_92f6_2b3f_34cb_f196_80e5_3315_bc2c_148e_ab76_c6ddnat);
    assert(0x1742_df93_8bf4_a486_d6c2_78cd_a822_624fnat * 0x15d_5c09_8741_6139_2178_92b9_bce5_5f46_89a2_dd05_b95f_0d00_50d8_ca81nat == 0x1f_be87_b222_e3b7_3d76_d44c_b41e_fc00_a93b_5a7f_462d_cc42_950d_82e5_6eb0_991f_4c78_1520_2eb0_c508_7d8d_dfcfnat);
    assert(0x3f7d_0ee3_7bca_6aed_9f5f_c1b2_0e61_3d0e_9b46_edbd_505d_d1f4_9dc1nat * 0x80_0000_0000_0000_0000_0000_0000_0000_0000nat == 0x1f_be87_71bd_e535_76cf_afe0_d907_309e_874d_a376_dea8_2ee8_fa4e_e080_0000_0000_0000_0000_0000_0000_0000_0000nat);
    lemma_power_known(
        0x3e70_2e07, 0xf0_2e07, 123, 0x80_0000_0000_0000_0000_0000_0000_0000_0000nat,
        147025, 0xb_4a81_4d39_15f1,
        0x7f_7ccb_a4db_ce38_d4cf_c133_6ce1nat,
        269025, 0x45_2c59_9066_9ca1,
        0x12b0_eff6_c049_6d6d_d948_5020_9d41nat,
        0x3_8559_51d9_58a9, 0xc_658d_d94d_ed60_8224_5f36_9f91nat,
        0x3_8559_595a_c8e1, 0xc_658e_0e28_4a4f_b650_4dd4_55c1nat,
    );
}

/// Code 134.
proof fn lemma_entry_134()
    ensures
        nearest_to_power(0x3e74_1e7e, 148025, 269025),
{
    lemma_fifth_powers_of_two();
    assert(148025nat * 148025 * 148025 == 0xb_85e3_13a5_b969);
    assert(0xb_85e3_13a5_b969 * 0xb_85e3_13a5_b969 == 0x84_c789_6c13_fb15_ef04_1da2_ed11nat);
    assert(0x1e8_3cfb * 0x1e8_3cfb == 0x3_a328_8b76_9e19);
    assert(0x3_a328_8b76_9e19 * 0x3_a328_8b76_9e19 == 0xd_3aef_eccc_a2f5_4475_46ae_de71nat);
    assert(0x1e8_3cfd * 0x1e8_3cfd == 0x3_a328_9317_9209);
    assert(0x3_a328_9317_9209 * 0x3_a328_9317_9209 == 0xd_3af0_244b_bc0f_2cb1_e6ec_4451nat);
    assert(269025nat * 269025 * 269025 == 0x45_2c59_9066_9ca1);
    assert(0x45_2c59_9066_9ca1 * 0x45_2c59_9066_9ca1 == 0x12b0_eff6_c049_6d6d_d948_5020_9d41nat);
    assert(0x12b0_eff6_c049_6d6d_d948_5020_9d41nat * 0x12b0_eff6_c049_6d6d_d948_5020_9d41nat == 0x15d_5c09_8741_6139_2178_92b9_bce5_5f46_89a2_dd05_b95f_0d00_50d8_ca81nat);
    assert(0x84_c789_6c13_fb15_ef04_1da2_ed11nat * 0x84_c789_6c13_fb15_ef04_1da2_ed11nat == 0x44de_613e_6466_d9fe_30ba_85b0_76ab_305a_9187_61f5_77ee_bf0c_7b21nat);
    assert(0xd_3aef_eccc_a2f5_4475_46ae_de71nat * 0x1e8_3cfb == 0x193b_8024_6ad3_c65f_c214_58e5_50fe_94cbnat);
    assert(0xd_3af0_244b_bc0f_2cb1_e6ec_4451nat * 0x1e8_3cfd == 0x193b_80a8_b834_1bd9_9c99_1052_d1ea_800dnat);
    assert(0x193b_8024_6ad3_c65f_c214_58e5_50fe_94cbnat * 0x15d_5c09_8741_6139_2178_92b9_bce5_5f46_89a2_dd05_b95f_0d00_50d8_ca81nat == 0x22_6f30_041f_0ca5_37f6_a8b1_38cd_76f1_51d0_c79b_7eeb_6d62_ca30_dae6_dd15_6c9b_20b7_766b_5d14_f1c3_acf9_284bnat);
    assert(0x193b_80a8_b834_1bd9_9c99_1052_d1ea_800dnat * 0x15d_5c09_8741_6139_2178_92b9_bce5_5f46_89a2_dd05_b95f_0d00_50d8_ca81nat == 0x22_6f30_b8ac_19b4_fcc8_0cd0_a6f8_3665_df7d_3fc5_d0ed_eff2_908a_17f7_8bdb_6de5_a663_fef1_29d0_a23e_eb2c_c88dnat);
    assert(0x44de_613e_6466_d9fe_30ba_85b0_76ab_305a_9187_61f5_77ee_bf0c_7b21nat * 0x80_0000_0000_0000_0000_0000_0000_0000_0000nat == 0x22_6f30_9f32_336c_ff18_5d42_d83b_5598_2d48_c3b0_fabb_f75f_863d_9080_0000_0000_0000_0000_0000_0000_0000_0000nat);
    lemma_power_known(
        0x3e74_1e7e, 0xf4_1e7e, 123, 0x80_0000_0000_0000_0000_0000_0000_0000_0000nat,
        148025, 0xb_85e3_13a5_b969,
        0x84_c789_6c13_fb15_ef04_1da2_ed11nat,
        269025, 0x45_2c59_9066_9ca1,
        0x12b0_eff6_c049_6d6d_d948_5020_9d41nat,
        0x3_a328_8b76_9e19, 0xd_3aef_eccc_a2f5_4475_46ae_de71nat,
        0x3_a328_9317_9209, 0xd_3af0_244b_bc0f_2cb1_e6ec_4451nat,
    );
}

/// Code 135.
proof fn lemma_entry_135()
    ensures
        nearest_to_power(0x3e78_188b, 149025, 269025),
{
    lemma_fifth_powers_of_two();
    assert(149025nat * 149025 * 149025 == 0xb_c213_a3ef_de61);
    assert(0xb_c213_a3ef_de61 * 0xb_c213_a3ef_de61 == 0x8a_40d1_dc96_67f7_5c56_804a_60c1nat);
    assert(0x1f0_3115 * 0x1f0_3115 == 0x3_c1be_3ac9_0bb9);
    assert(0x3_c1be_3ac9_0bb9 * 0x3_c1be_3ac9_0bb9 == 0xe_1d15_c2b4_b9f0_0fcf_3d0b_6bb1nat);
    assert(0x1f0_3117 * 0x1f0_3117 == 0x3_c1be_4289_d011);
    assert(0x3_c1be_4289_d011 * 0x3_c1be_4289_d011 == 0xe_1d15_fcf5_81fb_d4b5_1f4d_a121nat);
    assert(269025nat * 269025 * 269025 == 0x45_2c59_9066_9ca1);
    assert(0x45_2c59_9066_9ca1 * 0x45_2c59_9066_9ca1 == 0x12b0_eff6_c049_6d6d_d948_5020_9d41nat);
    assert(0x12b0_eff6_c049_6d6d_d948_5020_9d41nat * 0x12b0_eff6_c049_6d6d_d948_5020_9d41nat == 0x15d_5c09_8741_6139_2178_92b9_bce5_5f46_89a2_dd05_b95f_0d00_50d8_ca81nat);
    assert(0x8a_40d1_dc96_67f7_5c56_804a_60c1nat * 0x8a_40d1_dc96_67f7_5c56_804a_60c1nat == 0x4aa9_f2ab_6c7d_3653_d861_7c60_d715_940c_ccfd_ea3c_3009_1425_5181nat);
    assert(0xe_1d15_c2b4_b9f0_0fcf_3d0b_6bb1nat * 0x1f0_3115 == 0x1b5b_0ee2_cb35_d188_d53e_3ccf_d87c_b685nat);
    assert(0xe_1d15_fcf5_81fb_d4b5_1f4d_a121nat * 0x1f0_3117 == 0x1b5b_0f6f_ee10_8fdc_0043_6dab_dbc0_caf7nat);
    assert(0x1b5b_0ee2_cb35_d188_d53e_3ccf_d87c_b685nat * 0x15d_5c09_8741_6139_2178_92b9_bce5_5f46_89a2_dd05_b95f_0d00_50d8_ca81nat == 0x25_54f9_0930_10bb_1ff9_193a_c1f3_1ada_f663_590f_4cde_0922_0a1b_a867_76e9_684c_ea60_5380_00fe_08d2_0f14_eb05nat);
    assert(0x1b5b_0f6f_ee10_8fdc_0043_6dab_dbc0_caf7nat * 0x15d_5c09_8741_6139_2178_92b9_bce5_5f46_89a2_dd05_b95f_0d00_50d8_ca81nat == 0x25_54f9_c9cb_52b7_fede_214d_0638_51d3_6800_28fe_5bc2_0bac_22fb_10ed_0560_09b1_d401_2c6f_2f29_1418_4cb5_2c77nat);
    assert(0x4aa9_f2ab_6c7d_3653_d861_7c60_d715_940c_ccfd_ea3c_3009_1425_5181nat * 0x80_0000_0000_0000_0000_0000_0000_0000_0000nat == 0x25_54f9_55b6_3e9b_29ec_30be_306b_8aca_0666_7ef5_1e18_048a_12a8_c080_0000_0000_0000_0000_0000_0000_0000_0000nat);
    lemma_power_known(
        0x3e78_188b, 0xf8_188b, 123, 0x80_0000_0000_0000_0000_0000_0000_0000_0000nat,
        149025, 0xb_c213_a3ef_de61,
        0x8a_40d1_dc96_67f7_5c56_804a_60c1nat,
        269025, 0x45_2c59_9066_9ca1,
        0x12b0_eff6_c049_6d6d_d948_5020_9d41nat,
        0x3_c1be_3ac9_0bb9, 0xe_1d15_c2b4_b9f0_0fcf_3d0b_6bb1nat,
        0x3_c1be_4289_d011, 0xe_1d15_fcf5_81fb_d4b5_1f4d_a121nat,
    );
}

/// Code 136.
proof fn lemma_entry_136()
    ensures
        nearest_to_power(0x3e7c_1c33, 150025, 269025),
{
    lemma_fifth_powers_of_two();
    assert(150025nat * 150025 * 150025 == 0xb_ff14_63b8_40d9);
    assert(0xb_ff14_63b8_40d9 * 0xb_ff14_63b8_40d9 == 0x8f_e9ea_321e_5f78_76ad_1e5d_37f1nat);
    assert(0x1f8_3865 * 0x1f8_3865 == 0x3_e11e_1a1c_57d9);
    assert(0x3_e11e_1a1c_57d9 * 0x3_e11e_1a1c_57d9 == 0xf_0caa_8a1a_02cf_cdd7_699d_35f1nat);
    assert(0x1f8_3867 * 0x1f8_3867 == 0x3_e11e_21fd_3971);
    assert(0x3_e11e_21fd_3971 * 0x3_e11e_21fd_3971 == 0xf_0caa_c73a_737b_5bc5_b83d_83e1nat);
    assert(269025nat * 269025 * 269025 == 0x45_2c59_9066_9ca1);
    assert(0x45_2c59_9066_9ca1 * 0x45_2c59_9066_9ca1 == 0x12b0_eff6_c049_6d6d_d948_5020_9d41nat);
    assert(0x12b0_eff6_c049_6d6d_d948_5020_9d41nat * 0x12b0_eff6_c049_6d6d_d948_5020_9d41nat == 0x15d_5c09_8741_6139_2178_92b9_bce5_5f46_89a2_dd05_b95f_0d00_50d8_ca81nat);
    assert(0x8f_e9ea_321e_5f78_76ad_1e5d_37f1nat * 0x8f_e9ea_321e_5f78_76ad_1e5d_37f1nat == 0x50e7_2960_2369_9bb4_468d_9417_c2b0_7420_f475_4d19_c2c8_2d53_70e1nat);
    assert(0xf_0caa_8a1a_02cf_cdd7_699d_35f1nat * 0x1f8_3865 == 0x1da4_4075_30b3_b5fd_d11b_4299_414b_0015nat);
    assert(0xf_0caa_c73a_737b_5bc5_b83d_83e1nat * 0x1f8_3867 == 0x1da4_410b_af5e_4ca4_1ff7_e5f6_3891_4787nat);
    assert(0x1da4_4075_30b3_b5fd_d11b_4299_414b_0015nat * 0x15d_5c09_8741_6139_2178_92b9_bce5_5f46_89a2_dd05_b95f_0d00_50d8_ca81nat == 0x28_7394_015c_f692_6b0d_b5ac_700d_2f58_87e6_cb47_d8d2_ed9d_31c2_82af_978b_4374_60ed_4753_facc_150d_b693_9c95nat);
    assert(0x1da4_410b_af5e_4ca4_1ff7_e5f6_3891_4787nat * 0x15d_5c09_8741_6139_2178_92b9_bce5_5f46_89a2_dd05_b95f_0d00_50d8_ca81nat == 0x28_7394_cebd_c041_1125_8efd_ae57_ff2e_78ab_6f8b_eb50_f0b8_0cae_8cc0_5622_0659_9f67_fd11_2b87_25a3_ad8d_9107nat);
    assert(0x50e7_2960_2369_9bb4_468d_9417_c2b0_7420_f475_4d19_c2c8_2d53_70e1nat * 0x80_0000_0000_0000_0000_0000_0000_0000_0000nat == 0x28_7394_b011_b4cd_da23_46ca_0be1_583a_107a_3aa6_8ce1_6416_a9b8_7080_0000_0000_0000_0000_0000_0000_0000_0000nat);
    lemma_power_known(
        0x3e7c_1c33, 0xfc_1c33, 123, 0x80_0000_0000_0000_0000_0000_0000_0000_0000nat,
        150025, 0xb_ff14_63b8_40d9,
        0x8f_e9ea_321e_5f78_76ad_1e5d_37f1nat,
        269025, 0x45_2c59_9066_9ca1,
        0x12b0_eff6_c049_6d6d_d948_5020_9d41nat,
        0x3_e11e_1a1c_57d9, 0xf_0caa_8a1a_02cf_cdd7_699d_35f1nat,
        0x3_e11e_21fd_3971, 0xf_0caa_c73a_737b_5bc5_b83d_83e1nat,
    );
}

/// Code 137.
proof fn lemma_entry_137()
    ensures
        nearest_to_power(0x3e80_14bf, 151025, 269025),
{
    lemma_fifth_powers_of_two();
    assert(151025nat * 151025 * 151025 == 0xc_3ce6_b89f_9cd1);
    assert(0xc_3ce6_b89f_9cd1 * 0xc_3ce6_b89f_9cd1 == 0x95_c41e_4571_c90d_947c_9bad_62a1nat);
    assert(0x100_297d * 0x100_297d == 0x1_0053_00b9_4709);
    assert(0x1_0053_00b9_4709 * 0x1_0053_00b9_4709 == 0x1_00a6_1c5c_0636_95ed_beb7_fe51nat);
    assert(0x100_297f * 0x100_297f == 0x1_0053_04b9_ed01);
    assert(0x1_0053_04b9_ed01 * 0x1_0053_04b9_ed01 == 0x1_00a6_245f_eaa8_0516_6edc_da01nat);
    assert(269025nat * 269025 * 269025 == 0x45_2c59_9066_9ca1);
    assert(0x45_2c59_9066_9ca1 * 0x45_2c59_9066_9ca1 == 0x12b0_eff6_c049_6d6d_d948_5020_9d41nat);
    assert(0x12b0_eff6_c049_6d6d_d948_5020_9d41nat * 0x12b0_eff6_c049_6d6d_d948_5020_9d41nat == 0x15d_5c09_8741_6139_2178_92b9_bce5_5f46_89a2_dd05_b95f_0d00_50d8_ca81nat);
    assert(0x95_c41e_4571_c90d_947c_9bad_62a1nat * 0x95_c41e_4571_c90d_947c_9bad_62a1nat == 0x579d_e17b_345e_9f2d_4c8f_4159_60e4_a336_4146_7f07_1ed5_6999_a941nat);
    assert(0x1_00a6_1c5c_0636_95ed_beb7_fe51nat * 0x100_297d == 0x100_cfb4_47ac_cc83_b469_009f_e892_268dnat);
    assert(0x1_00a6_245f_eaa8_0516_6edc_da01nat * 0x100_297f == 0x100_cfbe_4e2a_102f_6899_fabc_5f7a_4f7fnat);
    assert(0x100_cfb4_47ac_cc83_b469_009f_e892_268dnat * 0x15d_5c09_8741_6139_2178_92b9_bce5_5f46_89a2_dd05_b95f_0d00_50d8_ca81nat == 0x1_5e77_7cf9_7cc9_c4b4_ed5d_88fd_7345_a752_abae_7f0f_490f_d4db_f003_9516_3841_dec1_882b_e249_8e74_1b08_af0dnat);
    assert(0x100_cfbe_4e2a_102f_6899_fabc_5f7a_4f7fnat * 0x15d_5c09_8741_6139_2178_92b9_bce5_5f46_89a2_dd05_b95f_0d00_50d8_ca81nat == 0x1_5e77_8aa7_f043_907e_2d1d_641c_37c1_a94c_4e16_498d_ea0b_dec6_9507_9fa5_b28a_c4ac_83de_1f61_374d_6284_44ffnat);
    assert(0x579d_e17b_345e_9f2d_4c8f_4159_60e4_a336_4146_7f07_1ed5_6999_a941nat * 0x4_0000_0000_0000_0000_0000_0000_0000_0000nat == 0x1_5e77_85ec_d17a_7cb5_323d_0565_8392_8cd9_0519_fc1c_7b55_a666_a504_0000_0000_0000_0000_0000_0000_0000_0000nat);
    lemma_power_known(
        0x3e80_14bf, 0x80_14bf, 124, 0x4_0000_0000_0000_0000_0000_0000_0000_0000nat,
        151025, 0xc_3ce6_b89f_9cd1,
        0x95_c41e_4571_c90d_947c_9bad_62a1nat,
        269025, 0x45_2c59_9066_9ca1,
        0x12b0_eff6_c049_6d6d_d948_5020_9d41nat,
        0x1_0053_00b9_4709, 0x1_00a6_1c5c_0636_95ed_beb7_fe51nat,
        0x1_0053_04b9_ed01, 0x1_00a6_245f_eaa8_0516_6edc_da01nat,
    );
}

/// Code 138.
proof fn lemma_entry_138()
    ensures
        nearest_to_power(0x3e82_2039, 152025, 269025),
{
    lemma_fifth_powers_of_two();
    assert(152025nat * 152025 * 152025 == 0xc_7b8c_0846_ae49);
    assert(0xc_7b8c_0846_ae49 * 0xc_7b8c_0846_ae49 == 0x9b_d0c0_a32d_4fe5_4440_5693_50d1nat);
    assert(0x104_4071 * 0x104_4071 == 0x1_0892_f5c0_b1e1);
    assert(0x1_0892_f5c0_b1e1 * 0x1_0892_f5c0_b1e1 == 0x1_116f_6f3a_aa95_5a27_f718_e7c1nat);
    assert(0x104_4073 * 0x104_4073 == 0x1_0892_f9d1_b3a9);
    assert(0x1_0892_f9d1_b3a9 * 0x1_0892_f9d1_b3a9 == 0x1_116f_77a2_6987_1809_9a07_c591nat);
    assert(269025nat * 269025 * 269025 == 0x45_2c59_9066_9ca1);
    assert(0x45_2c59_9066_9ca1 * 0x45_2c59_9066_9ca1 == 0x12b0_eff6_c049_6d6d_d948_5020_9d41nat);
    assert(0x12b0_eff6_c049_6d6d_d948_5020_9d41nat * 0x12b0_eff6_c049_6d6d_d948_5020_9d41nat == 0x15d_5c09_8741_6139_2178_92b9_bce5_5f46_89a2_dd05_b95f_0d00_50d8_ca81nat);
    assert(0x9b_d0c0_a32d_4fe5_4440_5693_50d1nat * 0x9b_d0c0_a32d_4fe5_4440_5693_50d1nat == 0x5ed6_737f_32fd_8d6f_c87a_e808_57b3_c4f0_9d13_3dc8_bf92_5589_4aa1nat);
    assert(0x1_116f_6f3a_aa95_5a27_f718_e7c1nat * 0x104_4071 == 0x115_fa01_8594_033a_330d_beb5_abf2_8c31nat);
    assert(0x1_116f_77a2_6987_1809_9a07_c591nat * 0x104_4073 == 0x115_fa0c_33ee_858b_9772_a2b6_ca26_0023nat);
    assert(0x115_fa01_8594_033a_330d_beb5_abf2_8c31nat * 0x15d_5c09_8741_6139_2178_92b9_bce5_5f46_89a2_dd05_b95f_0d00_50d8_ca81nat == 0x1_7b59_c444_4eac_234c_2f84_c4c3_baf1_4d53_316f_444c_89d9_417a_1e5a_4317_a978_7352_45d0_01ba_d0ae_a12f_4eb1nat);
    assert(0x115_fa0c_33ee_858b_9772_a2b6_ca26_0023nat * 0x15d_5c09_8741_6139_2178_92b9_bce5_5f46_89a2_dd05_b95f_0d00_50d8_ca81nat == 0x1_7b59_d2d7_d71e_18f1_f026_e96b_6368_0f37_4be9_013c_f8cc_f010_77ac_233d_60b3_8bdd_0690_748d_70b8_e6c9_afa3nat);
    assert(0x5ed6_737f_32fd_8d6f_c87a_e808_57b3_c4f0_9d13_3dc8_bf92_5589_4aa1nat * 0x4_0000_0000_0000_0000_0000_0000_0000_0000nat == 0x1_7b59_cdfc_cbf6_35bf_21eb_a021_5ecf_13c2_744c_f722_fe49_5625_2a84_0000_0000_0000_0000_0000_0000_0000_0000nat);
    lemma_power_known(
        0x3e82_2039, 0x82_2039, 124, 0x4_0000_0000_0000_0000_0000_0000_0000_0000nat,
        152025, 0xc_7b8c_0846_ae49,
        0x9b_d0c0_a32d_4fe5_4440_5693_50d1nat,
        269025, 0x45_2c59_9066_9ca1,
        0x12b0_eff6_c049_6d6d_d948_5020_9d41nat,
        0x1_0892_f5c0_b1e1, 0x1_116f_6f3a_aa95_5a27_f718_e7c1nat,
        0x1_0892_f9d1_b3a9, 0x1_116f_77a2_6987_1809_9a07_c591nat,
    );
}

/// Code 139.
proof fn lemma_entry_139()
    ensures
        nearest_to_power(0x3e84_308b, 153025, 269025),
{
    lemma_fifth_powers_of_two();
    assert(153025nat * 153025 * 153025 == 0xc_bb05_b84e_3141);
    assert(0xc_bb05_b84e_3141 * 0xc_bb05_b84e_3141 == 0xa2_112a_a2b7_91cb_6139_7d15_f281nat);
    assert(0x108_6115 * 0x108_6115 == 0x1_1108_6020_ebb9);
    assert(0x1_1108_6020_ebb9 * 0x1_1108_6020_ebb9 == 0x1_2332_dd4c_5ce8_0296_874d_2bb1nat);
    assert(0x108_6117 * 0x108_6117 == 0x1_1108_6442_7011);
    assert(0x1_1108_6442_7011 * 0x1_1108_6442_7011 == 0x1_2332_e61c_1e6f_3bdb_41d2_e121nat);
    assert(269025nat * 269025 * 269025 == 0x45_2c59_9066_9ca1);
    assert(0x45_2c59_9066_9ca1 * 0x45_2c59_9066_9ca1 == 0x12b0_eff6_c049_6d6d_d948_5020_9d41nat);
    assert(0x12b0_eff6_c049_6d6d_d948_5020_9d41nat * 0x12b0_eff6_c049_6d6d_d948_5020_9d41nat == 0x15d_5c09_8741_6139_2178_92b9_bce5_5f46_89a2_dd05_b95f_0d00_50d8_ca81nat);
    assert(0xa2_112a_a2b7_91cb_6139_7d15_f281nat * 0xa2_112a_a2b7_91cb_6139_7d15_f281nat == 0x6699_bb1c_a10a_b26c_be8f_041a_a8e3_c66b_d3a6_4d40_3025_a8e2_2501nat);
    assert(0x1_2332_dd4c_5ce8_0296_874d_2bb1nat * 0x108_6115 == 0x12c_bae2_5fc5_e5ba_333e_c732_656a_a685nat);
    assert(0x1_2332_e61c_1e6f_3bdb_41d2_e121nat * 0x108_6117 == 0x12c_baed_bfc2_b6c4_9bc8_561b_fb47_baf7nat);
    assert(0x12c_bae2_5fc5_e5ba_333e_c732_656a_a685nat * 0x15d_5c09_8741_6139_2178_92b9_bce5_5f46_89a2_dd05_b95f_0d00_50d8_ca81nat == 0x1_9a66_e4f7_6085_b544_3c5c_e623_a7c1_5b9a_349c_0766_a7af_c48b_accf_5403_d2c3_9037_e024_80d6_cb71_525a_db05nat);
    assert(0x12c_baed_bfc2_b6c4_9bc8_561b_fb47_baf7nat * 0x15d_5c09_8741_6139_2178_92b9_bce5_5f46_89a2_dd05_b95f_0d00_50d8_ca81nat == 0x1_9a66_f47d_5319_edfd_da2a_0ec6_9ae3_1635_59ca_636e_0e38_a894_5f34_1dc2_0775_995b_ab40_7f2f_7253_2914_1c77nat);
    assert(0x6699_bb1c_a10a_b26c_be8f_041a_a8e3_c66b_d3a6_4d40_3025_a8e2_2501nat * 0x4_0000_0000_0000_0000_0000_0000_0000_0000nat == 0x1_9a66_ec72_842a_c9b2_fa3c_106a_a38f_19af_4e99_3500_c096_a388_9404_0000_0000_0000_0000_0000_0000_0000_0000nat);
    lemma_power_known(
        0x3e84_308b, 0x84_308b, 124, 0x4_0000_0000_0000_0000_0000_0000_0000_0000nat,
        153025, 0xc_bb05_b84e_3141,
        0xa2_112a_a2b7_91cb_6139_7d15_f281nat,
        269025, 0x45_2c59_9066_9ca1,
        0x12b0_eff6_c049_6d6d_d948_5020_9d41nat,
        0x1_1108_6020_ebb9, 0x1_2332_dd4c_5ce8_0296_874d_2bb1nat,
        0x1_1108_6442_7011, 0x1_2332_e61c_1e6f_3bdb_41d2_e121nat,
    );
}

/// Code 140.
proof fn lemma_entry_140()
    ensures
        nearest_to_power(0x3e86_45b8, 154025, 269025),
{
    lemma_fifth_powers_of_two();
    assert(154025nat * 154025 * 154025 == 0xc_fb55_2e56_e1b9);
    assert(0xc_fb55_2e56_e1b9 * 0xc_fb55_2e56_e1b9 == 0xa8_86bc_7d5b_560e_0174_eb52_b7b1nat);
    assert(0x10c_8b6f * 0x10c_8b6f == 0x1_19b4_3c59_ba21);
    assert(0x1_19b4_3c59_ba21 * 0x1_19b4_3c59_ba21 == 0x1_35fd_2b61_e704_5f1a_6a45_f841nat);
    assert(0x10c_8b71 * 0x10c_8b71 == 0x1_19b4_408b_e7e1);
    assert(0x1_19b4_408b_e7e1 * 0x1_19b4_408b_e7e1 == 0x1_35fd_349d_f810_46ce_205d_d3c1nat);
    assert(269025nat * 269025 * 269025 == 0x45_2c59_9066_9ca1);
    assert(0x45_2c59_9066_9ca1 * 0x45_2c59_9066_9ca1 == 0x12b0_eff6_c049_6d6d_d948_5020_9d41nat);
    assert(0x12b0_eff6_c049_6d6d_d948_5020_9d41nat * 0x12b0_eff6_c049_6d6d_d948_5020_9d41nat == 0x15d_5c09_8741_6139_2178_92b9_bce5_5f46_89a2_dd05_b95f_0d00_50d8_ca81nat);
    assert(0xa8_86bc_7d5b_560e_0174_eb52_b7b1nat * 0xa8_86bc_7d5b_560e_0174_eb52_b7b1nat == 0x6ef1_1e4e_65e4_ec01_4a2d_5ef3_f2c7_e310_e189_c412_d261_2732_8861nat);
    assert(0x1_35fd_2b61_e704_5f1a_6a45_f841nat * 0x10c_8b6f == 0x145_2de0_49d1_d076_1a2f_d567_f62d_ef2fnat);
    assert(0x1_35fd_349d_f810_46ce_205d_d3c1nat * 0x10c_8b71 == 0x145_2dec_65b5_b075_756b_0ec8_e970_4331nat);
    assert(0x145_2de0_49d1_d076_1a2f_d567_f62d_ef2fnat * 0x15d_5c09_8741_6139_2178_92b9_bce5_5f46_89a2_dd05_b95f_0d00_50d8_ca81nat == 0x1_bbc4_735b_a8b0_9c20_92f4_fb59_2c19_eb17_1a02_6f73_4134_becf_d4d7_b4c4_5b37_467d_5a89_8bbb_0623_cb88_9cafnat);
    assert(0x145_2dec_65b5_b075_756b_0ec8_e970_4331nat * 0x15d_5c09_8741_6139_2178_92b9_bce5_5f46_89a2_dd05_b95f_0d00_50d8_ca81nat == 0x1_bbc4_83e2_08d2_408f_70b6_5e14_1375_3f60_bbba_d05e_3795_e356_8be4_9c20_430a_89cc_b2d0_f2ad_8428_37ee_85b1nat);
    assert(0x6ef1_1e4e_65e4_ec01_4a2d_5ef3_f2c7_e310_e189_c412_d261_2732_8861nat * 0x4_0000_0000_0000_0000_0000_0000_0000_0000nat == 0x1_bbc4_7939_9793_b005_28b5_7bcf_cb1f_8c43_8627_104b_4984_9cca_2184_0000_0000_0000_0000_0000_0000_0000_0000nat);
    lemma_power_known(
        0x3e86_45b8, 0x86_45b8, 124, 0x4_0000_0000_0000_0000_0000_0000_0000_0000nat,
        154025, 0xc_fb55_2e56_e1b9,
        0xa8_86bc_7d5b_560e_0174_eb52_b7b1nat,
        269025, 0x45_2c59_9066_9ca1,
        0x12b0_eff6_c049_6d6d_d948_5020_9d41nat,
        0x1_19b4_3c59_ba21, 0x1_35fd_2b61_e704_5f1a_6a45_f841nat,
        0x1_19b4_408b_e7e1, 0x1_35fd_349d_f810_46ce_205d_d3c1nat,
    );
}

/// Code 141.
proof fn lemma_entry_141()
    ensures
        nearest_to_power(0x3e88_5fc3, 155025, 269025),
{
    lemma_fifth_powers_of_two();
    assert(155025nat * 155025 * 155025 == 0xd_3c7b_d001_7bb1);
    assert(0xd_3c7b_d001_7bb1 * 0xd_3c7b_d001_7bb1 == 0xaf_32dd_6588_cc64_3d17_d325_9061nat);
    assert(0x110_bf85 * 0x110_bf85 == 0x1_2297_89e7_bb19);
    assert(0x1_2297_89e7_bb19 * 0x1_2297_89e7_bb19 == 0x1_49db_ae24_fd8d_3381_f1db_8871nat);
    assert(0x110_bf87 * 0x110_bf87 == 0x1_2297_8e2a_b931);
    assert(0x1_2297_8e2a_b931 * 0x1_2297_8e2a_b931 == 0x1_49db_b7d1_d0ec_e861_a60b_db61nat);
    assert(269025nat * 269025 * 269025 == 0x45_2c59_9066_9ca1);
    assert(0x45_2c59_9066_9ca1 * 0x45_2c59_9066_9ca1 == 0x12b0_eff6_c049_6d6d_d948_5020_9d41nat);
    assert(0x12b0_eff6_c049_6d6d_d948_5020_9d41nat * 0x12b0_eff6_c049_6d6d_d948_5020_9d41nat == 0x15d_5c09_8741_6139_2178_92b9_bce5_5f46_89a2_dd05_b95f_0d00_50d8_ca81nat);
    assert(0xaf_32dd_6588_cc64_3d17_d325_9061nat * 0xaf_32dd_6588_cc64_3d17_d325_9061nat == 0x77e6_94cc_0c29_5758_cde2_5cde_3e68_e905_215a_e97d_1cf0_f377_44c1nat);
    assert(0x1_49db_ae24_fd8d_3381_f1db_8871nat * 0x110_bf85 == 0x15f_702f_4d5c_786a_cdda_af36_69ea_31b5nat);
    assert(0x1_49db_b7d1_d0ec_e861_a60b_db61nat * 0x110_bf87 == 0x15f_703c_2ff1_763c_d60f_d2fa_7ffe_0f27nat);
    assert(0x15f_702f_4d5c_786a_cdda_af36_69ea_31b5nat * 0x15d_5c09_8741_6139_2178_92b9_bce5_5f46_89a2_dd05_b95f_0d00_50d8_ca81nat == 0x1_df9a_49e2_1671_02df_82ab_f5d5_8664_454a_b85f_5cc7_6253_3ace_c0dd_0f3f_628b_efb6_8443_4426_f820_aaf3_de35nat);
    assert(0x15f_703c_2ff1_763c_d60f_d2fa_7ffe_0f27nat * 0x15d_5c09_8741_6139_2178_92b9_bce5_5f46_89a2_dd05_b95f_0d00_50d8_ca81nat == 0x1_df9a_5b77_9d77_5b70_18db_e628_5aa8_ccad_9e84_e4e8_6d25_5e2b_fea4_7d20_dcfa_de15_ec56_5b0c_5751_efe2_68a7nat);
    assert(0x77e6_94cc_0c29_5758_cde2_5cde_3e68_e905_215a_e97d_1cf0_f377_44c1nat * 0x4_0000_0000_0000_0000_0000_0000_0000_0000nat == 0x1_df9a_5330_30a5_5d63_3789_7378_f9a3_a414_856b_a5f4_73c3_cddd_1304_0000_0000_0000_0000_0000_0000_0000_0000nat);
    lemma_power_known(
        0x3e88_5fc3, 0x88_5fc3, 124, 0x4_0000_0000_0000_0000_0000_0000_0000_0000nat,
        155025, 0xd_3c7b_d001_7bb1,
        0xaf_32dd_6588_cc64_3d17_d325_9061nat,
        269025, 0x45_2c59_9066_9ca1,
        0x12b0_eff6_c049_6d6d_d948_5020_9d41nat,
        0x1_2297_89e7_bb19, 0x1_49db_ae24_fd8d_3381_f1db_8871nat,
        0x1_2297_8e2a_b931, 0x1_49db_b7d1_d0ec_e861_a60b_db61nat,
    );
}

/// Code 142.
proof fn lemma_entry_142()
    ensures
        nearest_to_power(0x3e8a_7eb0, 156025, 269025),
{
    lemma_fifth_powers_of_two();
    assert(156025nat * 156025 * 156025 == 0xd_7e7b_02ee_bb29);
    assert(0xd_7e7b_02ee_bb29 * 0xd_7e7b_02ee_bb29 == 0xb6_16fb_9e3d_d3d6_cef3_2d10_ec91nat);
    assert(0x114_fd5f * 0x114_fd5f == 0x1_2bb3_4f9c_e941);
    assert(0x1_2bb3_4f9c_e941 * 0x1_2bb3_4f9c_e941 == 0x1_5edc_5990_f70e_3f09_39bf_6281nat);
    assert(0x114_fd61 * 0x114_fd61 == 0x1_2bb3_53f0_dec1);
    assert(0x1_2bb3_53f0_dec1 * 0x1_2bb3_53f0_dec1 == 0x1_5edc_63b3_26b4_6af9_91b3_4d81nat);
    assert(269025nat * 269025 * 269025 == 0x45_2c59_9066_9ca1);
    assert(0x45_2c59_9066_9ca1 * 0x45_2c59_9066_9ca1 == 0x12b0_eff6_c049_6d6d_d948_5020_9d41nat);
    assert(0x12b0_eff6_c049_6d6d_d948_5020_9d41nat * 0x12b0_eff6_c049_6d6d_d948_5020_9d41nat == 0x15d_5c09_8741_6139_2178_92b9_bce5_5f46_89a2_dd05_b95f_0d00_50d8_ca81nat);
    assert(0xb6_16fb_9e3d_d3d6_cef3_2d10_ec91nat * 0xb6_16fb_9e3d_d3d6_cef3_2d10_ec91nat == 0x8184_afd5_366b_84e4_f4fb_7bc8_3eec_b08f_3ae2_5b35_6b8f_66bb_aa21nat);
    assert(0x1_5edc_5990_f70e_3f09_39bf_6281nat * 0x114_fd5f == 0x17b_a0d2_8893_dc50_b887_c4d4_c573_0adfnat);
    assert(0x1_5edc_63b3_26b4_6af9_91b3_4d81nat * 0x114_fd61 == 0x17b_a0e0_3d2f_8ea5_4d26_42dd_f79c_dae1nat);
    assert(0x17b_a0d2_8893_dc50_b887_c4d4_c573_0adfnat * 0x15d_5c09_8741_6139_2178_92b9_bce5_5f46_89a2_dd05_b95f_0d00_50d8_ca81nat == 0x2_0612_baf1_14d2_528e_3020_aa3b_246d_46f4_fb73_2877_328e_56be_7562_c9dd_10a9_b283_c646_b642_f27b_21b4_705fnat);
    assert(0x17b_a0e0_3d2f_8ea5_4d26_42dd_f79c_dae1nat * 0x15d_5c09_8741_6139_2178_92b9_bce5_5f46_89a2_dd05_b95f_0d00_50d8_ca81nat == 0x2_0612_cda5_3a7e_fb2a_a1a5_8d74_eb8c_8ead_8d57_4337_6e77_1f5a_f8a7_7fbb_126d_b335_63b3_a351_34fa_8897_d561nat);
    assert(0x8184_afd5_366b_84e4_f4fb_7bc8_3eec_b08f_3ae2_5b35_6b8f_66bb_aa21nat * 0x4_0000_0000_0000_0000_0000_0000_0000_0000nat == 0x2_0612_bf54_d9ae_1393_d3ed_ef20_fbb2_c23c_eb89_6cd5_ae3d_9aee_a884_0000_0000_0000_0000_0000_0000_0000_0000nat);
    lemma_power_known(
        0x3e8a_7eb0, 0x8a_7eb0, 124, 0x4_0000_0000_0000_0000_0000_0000_0000_0000nat,
        156025, 0xd_7e7b_02ee_bb29,
        0xb6_16fb_9e3d_d3d6_cef3_2d10_ec91nat,
        269025, 0x45_2c59_9066_9ca1,
        0x12b0_eff6_c049_6d6d_d948_5020_9d41nat,
        0x1_2bb3_4f9c_e941, 0x1_5edc_5990_f70e_3f09_39bf_6281nat,
        0x1_2bb3_53f0_dec1, 0x1_5edc_63b3_26b4_6af9_91b3_4d81nat,
    );
}

/// Code 143.
proof fn lemma_entry_143()
    ensures
        nearest_to_power(0x3e8c_a281, 157025, 269025),
{
    lemma_fifth_powers_of_two();
    assert(157025nat * 157025 * 157025 == 0xd_c154_2cbf_5c21);
    assert(0xd_c154_2cbf_5c21 * 0xd_c154_2cbf_5c21 == 0xbd_348c_9295_49aa_8e5d_f265_bc41nat);
    assert(0x119_4501 * 0x119_4501 == 0x1_3508_8ecb_8a01);
    assert(0x1_3508_8ecb_8a01 * 0x1_3508_8ecb_8a01 == 0x1_750d_a900_9785_78fd_43fb_1401nat);
    assert(0x119_4503 * 0x119_4503 == 0x1_3508_9330_9e09);
    assert(0x1_3508_9330_9e09 * 0x1_3508_9330_9e09 == 0x1_750d_b39c_e52c_7949_faef_1c51nat);
    assert(269025nat * 269025 * 269025 == 0x45_2c59_9066_9ca1);
    assert(0x45_2c59_9066_9ca1 * 0x45_2c59_9066_9ca1 == 0x12b0_eff6_c049_6d6d_d948_5020_9d41nat);
    assert(0x12b0_eff6_c049_6d6d_d948_5020_9d41nat * 0x12b0_eff6_c049_6d6d_d948_5020_9d41nat == 0x15d_5c09_8741_6139_2178_92b9_bce5_5f46_89a2_dd05_b95f_0d00_50d8_ca81nat);
    assert(0xbd_348c_9295_49aa_8e5d_f265_bc41nat * 0xbd_348c_9295_49aa_8e5d_f265_bc41nat == 0x8bd6_a259_d92c_12fa_b22f_2b92_0465_7c6f_9787_f89b_6392_f9b9_8881nat);
    assert(0x1_750d_a900_9785_78fd_43fb_1401nat * 0x119_4501 == 0x199_e08c_a541_2359_5f21_5ae8_e578_5901nat);
    assert(0x1_750d_b39c_e52c_7949_faef_1c51nat * 0x119_4503 == 0x199_e09b_37c9_f26c_ce6a_ccf6_7858_29f3nat);
    assert(0x199_e08c_a541_2359_5f21_5ae8_e578_5901nat * 0x15d_5c09_8741_6139_2178_92b9_bce5_5f46_89a2_dd05_b95f_0d00_50d8_ca81nat == 0x2_2f5a_7bb1_483a_413e_3ce8_27c6_fc32_bb6b_bb76_13aa_3f9f_7fae_b296_39e3_04e3_648a_934d_9aa5_dac8_00b7_a381nat);
    assert(0x199_e09b_37c9_f26c_ce6a_ccf6_7858_29f3nat * 0x15d_5c09_8741_6139_2178_92b9_bce5_5f46_89a2_dd05_b95f_0d00_50d8_ca81nat == 0x2_2f5a_8f94_49f0_92f6_1a6c_2526_3cd6_25d9_3d24_f496_2c37_0f08_372d_8677_e702_a7e9_09c1_e56b_31a7_8a8e_e173nat);
    assert(0x8bd6_a259_d92c_12fa_b22f_2b92_0465_7c6f_9787_f89b_6392_f9b9_8881nat * 0x4_0000_0000_0000_0000_0000_0000_0000_0000nat == 0x2_2f5a_8967_64b0_4bea_c8bc_ae48_1195_f1be_5e1f_e26d_8e4b_e6e6_2204_0000_0000_0000_0000_0000_0000_0000_0000nat);
    lemma_power_known(
        0x3e8c_a281, 0x8c_a281, 124, 0x4_0000_0000_0000_0000_0000_0000_0000_0000nat,
        157025, 0xd_c154_2cbf_5c21,
        0xbd_348c_9295_49aa_8e5d_f265_bc41nat,
        269025, 0x45_2c59_9066_9ca1,
        0x12b0_eff6_c049_6d6d_d948_5020_9d41nat,
        0x1_3508_8ecb_8a01, 0x1_750d_a900_9785_78fd_43fb_1401nat,
        0x1_3508_9330_9e09, 0x1_750d_b39c_e52c_7949_faef_1c51nat,
    );
}

/// Code 144.
proof fn lemma_entry_144()
    ensures
        nearest_to_power(0x3e8e_cb3b, 158025, 269025),
{
    lemma_fifth_powers_of_two();
    assert(158025nat * 158025 * 158025 == 0xe_0508_b314_1a99);
    assert(0xe_0508_b314_1a99 * 0xe_0508_b314_1a99 == 0xc4_8d0c_ed7d_604c_c256_20ab_6f71nat);
    assert(0x11d_9675 * 0x11d_9675 == 0x1_3e98_58ef_5179);
    assert(0x1_3e98_58ef_5179 * 0x1_3e98_58ef_5179 == 0x1_8c7e_d79c_497e_c36c_69db_cb31nat);
    assert(0x11d_9677 * 0x11d_9677 == 0x1_3e98_5d65_ab51);
    assert(0x1_3e98_5d65_ab51 * 0x1_3e98_5d65_ab51 == 0x1_8c7e_e2b7_a06b_b309_7a8f_4fa1nat);
    assert(269025nat * 269025 * 269025 == 0x45_2c59_9066_9ca1);
    assert(0x45_2c59_9066_9ca1 * 0x45_2c59_9066_9ca1 == 0x12b0_eff6_c049_6d6d_d948_5020_9d41nat);
    assert(0x12b0_eff6_c049_6d6d_d948_5020_9d41nat * 0x12b0_eff6_c049_6d6d_d948_5020_9d41nat == 0x15d_5c09_8741_6139_2178_92b9_bce5_5f46_89a2_dd05_b95f_0d00_50d8_ca81nat);
    assert(0xc4_8d0c_ed7d_604c_c256_20ab_6f71nat * 0xc4_8d0c_ed7d_604c_c256_20ab_6f71nat == 0x96e8_4982_e63e_b1b0_8adc_6d95_773a_cf84_ae36_b759_7296_5179_2fe1nat);
    assert(0x1_8c7e_d79c_497e_c36c_69db_cb31nat * 0x11d_9675 == 0x1ba_523d_914b_ef9d_6d22_b044_600f_9365nat);
    assert(0x1_8c7e_e2b7_a06b_b309_7a8f_4fa1nat * 0x11d_9677 == 0x1ba_524d_0e40_9340_fe85_38c3_9783_59d7nat);
    assert(0x1ba_523d_914b_ef9d_6d22_b044_600f_9365nat * 0x15d_5c09_8741_6139_2178_92b9_bce5_5f46_89a2_dd05_b95f_0d00_50d8_ca81nat == 0x2_5ba1_23f3_cb3c_6486_3060_966a_8cdf_7d4d_b0e6_ce3f_2a96_c332_e012_576a_4908_bc79_54f0_ef3d_d274_9f5e_f7e5nat);
    assert(0x1ba_524d_0e40_9340_fe85_38c3_9783_59d7nat * 0x15d_5c09_8741_6139_2178_92b9_bce5_5f46_89a2_dd05_b95f_0d00_50d8_ca81nat == 0x2_5ba1_3916_b63a_f8c5_8aea_8a70_efe2_1279_f3d6_f16b_e10a_5c00_899f_4ddd_fc91_213e_4f49_c5a5_be03_fb7b_eb57nat);
    assert(0x96e8_4982_e63e_b1b0_8adc_6d95_773a_cf84_ae36_b759_7296_5179_2fe1nat * 0x4_0000_0000_0000_0000_0000_0000_0000_0000nat == 0x2_5ba1_260b_98fa_c6c2_2b71_b655_dceb_3e12_b8da_dd65_ca59_45e4_bf84_0000_0000_0000_0000_0000_0000_0000_0000nat);
    lemma_power_known(
        0x3e8e_cb3b, 0x8e_cb3b, 124, 0x4_0000_0000_0000_0000_0000_0000_0000_0000nat,
        158025, 0xe_0508_b314_1a99,
        0xc4_8d0c_ed7d_604c_c256_20ab_6f71nat,
        269025, 0x45_2c59_9066_9ca1,
        0x12b0_eff6_c049_6d6d_d948_5020_9d41nat,
        0x1_3e98_58ef_5179, 0x1_8c7e_d79c_497e_c36c_69db_cb31nat,
        0x1_3e98_5d65_ab51, 0x1_8c7e_e2b7_a06b_b309_7a8f_4fa1nat,
    );
}

/// Code 145.
proof fn lemma_entry_145()
    ensures
        nearest_to_power(0x3e90_f8df, 159025, 269025),
{
    lemma_fifth_powers_of_two();
    assert(159025nat * 159025 * 159025 == 0xe_4999_fb8d_b291);
    assert(0xe_4999_fb8d_b291 * 0xe_4999_fb8d_b291 == 0xcc_2200_b194_fe41_4de8_8647_f621nat);
    assert(0x121_f1bd * 0x121_f1bd == 0x1_4863_b0ff_6589);
    assert(0x1_4863_b0ff_6589 * 0x1_4863_b0ff_6589 == 0x1_a53f_9c60_d417_c25d_cf33_6351nat);
    assert(0x121_f1bf * 0x121_f1bf == 0x1_4863_b587_2c81);
    assert(0x1_4863_b587_2c81 * 0x1_4863_b587_2c81 == 0x1_a53f_a800_494f_6814_61ca_9901nat);
    assert(269025nat * 269025 * 269025 == 0x45_2c59_9066_9ca1);
    assert(0x45_2c59_9066_9ca1 * 0x45_2c59_9066_9ca1 == 0x12b0_eff6_c049_6d6d_d948_5020_9d41nat);
    assert(0x12b0_eff6_c049_6d6d_d948_5020_9d41nat * 0x12b0_eff6_c049_6d6d_d948_5020_9d41nat == 0x15d_5c09_8741_6139_2178_92b9_bce5_5f46_89a2_dd05_b95f_0d00_50d8_ca81nat);
    assert(0xcc_2200_b194_fe41_4de8_8647_f621nat * 0xcc_2200_b194_fe41_4de8_8647_f621nat == 0xa2c6_359f_34a1_46cc_e195_0c1e_a7c5_9bce_e917_6baf_5fb4_fef1_7041nat);
    assert(0x1_a53f_9c60_d417_c25d_cf33_6351nat * 0x121_f1bd == 0x1dd_1a97_6b7d_09f9_5f6b_b854_77e0_93cdnat);
    assert(0x1_a53f_a800_494f_6814_61ca_9901nat * 0x121_f1bf == 0x1dd_1aa7_dff9_5fde_f23c_3cfb_6a53_18bfnat);
    assert(0x1dd_1a97_6b7d_09f9_5f6b_b854_77e0_93cdnat * 0x15d_5c09_8741_6139_2178_92b9_bce5_5f46_89a2_dd05_b95f_0d00_50d8_ca81nat == 0x2_8b18_c7bd_f649_1b9f_f580_2499_2014_2eee_c682_ba14_7c46_bbdc_bea0_0139_9e2a_8a25_e5af_670a_45d4_61c2_3c4dnat);
    assert(0x1dd_1aa7_dff9_5fde_f23c_3cfb_6a53_18bfnat * 0x15d_5c09_8741_6139_2178_92b9_bce5_5f46_89a2_dd05_b95f_0d00_50d8_ca81nat == 0x2_8b18_de32_ae43_ae78_0647_27e7_b891_9c3f_7ec7_761a_ddab_4b39_4f84_e452_2e2b_4234_1537_0bf7_7d6e_b68e_2e3fnat);
    assert(0xa2c6_359f_34a1_46cc_e195_0c1e_a7c5_9bce_e917_6baf_5fb4_fef1_7041nat * 0x4_0000_0000_0000_0000_0000_0000_0000_0000nat == 0x2_8b18_d67c_d285_1b33_8654_307a_9f16_6f3b_a45d_aebd_7ed3_fbc5_c104_0000_0000_0000_0000_0000_0000_0000_0000nat);
    lemma_power_known(
        0x3e90_f8df, 0x90_f8df, 124, 0x4_0000_0000_0000_0000_0000_0000_0000_0000nat,
        159025, 0xe_4999_fb8d_b291,
        0xcc_2200_b194_fe41_4de8_8647_f621nat,
        269025, 0x45_2c59_9066_9ca1,
        0x12b0_eff6_c049_6d6d_d948_5020_9d41nat,
        0x1_4863_b0ff_6589, 0x1_a53f_9c60_d417_c25d_cf33_6351nat,
        0x1_4863_b587_2c81, 0x1_a53f_a800_494f_6814_61ca_9901nat,
    );
}

/// Code 146.
proof fn lemma_entry_146()
    ensures
        nearest_to_power(0x3e93_2b72, 160025, 269025),
{
    lemma_fifth_powers_of_two();
    assert(160025nat * 160025 * 160025 == 0xe_8f09_6bcc_e009);
    assert(0xe_8f09_6bcc_e009 * 0xe_8f09_6bcc_e009 == 0xd3_f4f3_5130_2512_b5df_5867_c051nat);
    assert(0x126_56e3 * 0x126_56e3 == 0x1_526b_aee1_4d49);
    assert(0x1_526b_aee1_4d49 * 0x1_526b_aee1_4d49 == 0x1_bf60_8716_97e2_6a5e_2da6_fed1nat);
    assert(0x126_56e5 * 0x126_56e5 == 0x1_526b_b37a_a8d9);
    assert(0x1_526b_b37a_a8d9 * 0x1_526b_b37a_a8d9 == 0x1_bf60_933f_6c3a_ec4a_d431_87f1nat);
    assert(269025nat * 269025 * 269025 == 0x45_2c59_9066_9ca1);
    assert(0x45_2c59_9066_9ca1 * 0x45_2c59_9066_9ca1 == 0x12b0_eff6_c049_6d6d_d948_5020_9d41nat);
    assert(0x12b0_eff6_c049_6d6d_d948_5020_9d41nat * 0x12b0_eff6_c049_6d6d_d948_5020_9d41nat == 0x15d_5c09_8741_6139_2178_92b9_bce5_5f46_89a2_dd05_b95f_0d00_50d8_ca81nat);
    assert(0xd3_f4f3_5130_2512_b5df_5867_c051nat * 0xd3_f4f3_5130_2512_b5df_5867_c051nat == 0xaf7d_b378_8f64_1ea9_5ae6_8508_94ba_f48d_626c_4e9f_1562_01a7_99a1nat);
    assert(0x1_bf60_8716_97e2_6a5e_2da6_fed1nat * 0x126_56e3 == 0x202_60b2_43eb_ce14_e5a8_62a1_38b4_2953nat);
    assert(0x1_bf60_933f_6c3a_ec4a_d431_87f1nat * 0x126_56e5 == 0x202_60c3_bdb1_51c2_fa06_331a_92bf_9095nat);
    assert(0x202_60b2_43eb_ce14_e5a8_62a1_38b4_2953nat * 0x15d_5c09_8741_6139_2178_92b9_bce5_5f46_89a2_dd05_b95f_0d00_50d8_ca81nat == 0x2_bdf6_c0eb_d380_fc59_c487_fbd2_f2a3_c855_01c5_9f19_4b96_0597_a450_8ef6_dc20_915d_9cdc_a853_45e8_896c_50d3nat);
    assert(0x202_60c3_bdb1_51c2_fa06_331a_92bf_9095nat * 0x15d_5c09_8741_6139_2178_92b9_bce5_5f46_89a2_dd05_b95f_0d00_50d8_ca81nat == 0x2_bdf6_d8c5_1e2e_ff9d_6f7f_1838_1fbb_8723_313b_3889_6722_866f_9e36_b714_fcf3_5fdc_a3ab_5c5c_f7ff_a855_6d15nat);
    assert(0xaf7d_b378_8f64_1ea9_5ae6_8508_94ba_f48d_626c_4e9f_1562_01a7_99a1nat * 0x4_0000_0000_0000_0000_0000_0000_0000_0000nat == 0x2_bdf6_cde2_3d90_7aa5_6b9a_1422_52eb_d235_89b1_3a7c_5588_069e_6684_0000_0000_0000_0000_0000_0000_0000_0000nat);
    lemma_power_known(
        0x3e93_2b72, 0x93_2b72, 124, 0x4_0000_0000_0000_0000_0000_0000_0000_0000nat,
        160025, 0xe_8f09_6bcc_e009,
        0xd3_f4f3_5130_2512_b5df_5867_c051nat,
        269025, 0x45_2c59_9066_9ca1,
        0x12b0_eff6_c049_6d6d_d948_5020_9d41nat,
        0x1_526b_aee1_4d49, 0x1_bf60_8716_97e2_6a5e_2da6_fed1nat,
        0x1_526b_b37a_a8d9, 0x1_bf60_933f_6c3a_ec4a_d431_87f1nat,
    );
}

/// Code 147.
proof fn lemma_entry_147()
    ensures
        nearest_to_power(0x3e95_62f6, 161025, 269025),
{
    lemma_fifth_powers_of_two();
    assert(161025nat * 161025 * 161025 == 0xe_d558_6972_5f01);
    assert(0xe_d558_6972_5f01 * 0xe_d558_6972_5f01 == 0xdc_0777_c683_6043_ffb7_9225_be01nat);
    assert(0x12a_c5eb * 0x12a_c5eb == 0x1_5cb1_601f_85b9);
    assert(0x1_5cb1_601f_85b9 * 0x1_5cb1_601f_85b9 == 0x1_daf2_b83b_c33d_89fe_68a7_bfb1nat);
    assert(0x12a_c5ed * 0x12a_c5ed == 0x1_5cb1_64ca_9d69);
    assert(0x1_5cb1_64ca_9d69 * 0x1_5cb1_64ca_9d69 == 0x1_daf2_c4f3_63d2_0e88_d27d_f511nat);
    assert(269025nat * 269025 * 269025 == 0x45_2c59_9066_9ca1);
    assert(0x45_2c59_9066_9ca1 * 0x45_2c59_9066_9ca1 == 0x12b0_eff6_c049_6d6d_d948_5020_9d41nat);
    assert(0x12b0_eff6_c049_6d6d_d948_5020_9d41nat * 0x12b0_eff6_c049_6d6d_d948_5020_9d41nat == 0x15d_5c09_8741_6139_2178_92b9_bce5_5f46_89a2_dd05_b95f_0d00_50d8_ca81nat);
    assert(0xdc_0777_c683_6043_ffb7_9225_be01nat * 0xdc_0777_c683_6043_ffb7_9225_be01nat == 0xbd1c_d614_f6b2_cc36_370b_d0e1_3efe_2e9a_0811_aa70_b5b7_9d4f_7c01nat);
    assert(0x1_daf2_b83b_c33d_89fe_68a7_bfb1nat * 0x12a_c5eb == 0x22a_4dbb_3a26_61bd_36d4_4658_4c8a_2c7bnat);
    assert(0x1_daf2_c4f3_63d2_0e88_d27d_f511nat * 0x12a_c5ed == 0x22a_4dcd_c7a1_d3a8_f9eb_c545_11fb_f5bdnat);
    assert(0x22a_4dbb_3a26_61bd_36d4_4658_4c8a_2c7bnat * 0x15d_5c09_8741_6139_2178_92b9_bce5_5f46_89a2_dd05_b95f_0d00_50d8_ca81nat == 0x2_f473_40cf_275c_10c8_e8d8_786a_08aa_7e3a_bf3a_1403_216a_088e_a93a_efa0_1b39_a0d4_f168_7bcc_205f_9081_77fbnat);
    assert(0x22a_4dcd_c7a1_d3a8_f9eb_c545_11fb_f5bdnat * 0x15d_5c09_8741_6139_2178_92b9_bce5_5f46_89a2_dd05_b95f_0d00_50d8_ca81nat == 0x2_f473_5a20_b42f_82d2_ac71_c302_3f15_4076_08d0_f9e1_f2d3_f74f_eeae_8d2c_5326_498a_c29e_92fa_6a61_4755_f63dnat);
    assert(0xbd1c_d614_f6b2_cc36_370b_d0e1_3efe_2e9a_0811_aa70_b5b7_9d4f_7c01nat * 0x4_0000_0000_0000_0000_0000_0000_0000_0000nat == 0x2_f473_5853_dacb_30d8_dc2f_4384_fbf8_ba68_2046_a9c2_d6de_753d_f004_0000_0000_0000_0000_0000_0000_0000_0000nat);
    lemma_power_known(
        0x3e95_62f6, 0x95_62f6, 124, 0x4_0000_0000_0000_0000_0000_0000_0000_0000nat,
        161025, 0xe_d558_6972_5f01,
        0xdc_0777_c683_6043_ffb7_9225_be01nat,
        269025, 0x45_2c59_9066_9ca1,
        0x12b0_eff6_c049_6d6d_d948_5020_9d41nat,
        0x1_5cb1_601f_85b9, 0x1_daf2_b83b_c33d_89fe_68a7_bfb1nat,
        0x1_5cb1_64ca_9d69, 0x1_daf2_c4f3_63d2_0e88_d27d_f511nat,
    );
}

/// Code 148.
proof fn lemma_entry_148()
    ensures
        nearest_to_power(0x3e97_9f6f, 162025, 269025),
{
    lemma_fifth_powers_of_two();
    assert(162025nat * 162025 * 162025 == 0xf_1c88_5a1e_eb79);
    assert(0xf_1c88_5a1e_eb79 * 0xf_1c88_5a1e_eb79 == 0xe4_5b28_abf6_3c44_69dd_1cf3_5f31nat);
    assert(0x12f_3edd * 0x12f_3edd == 0x1_6735_de95_cac9);
    assert(0x1_6735_de95_cac9 * 0x1_6735_de95_cac9 == 0x1_f808_219e_0a4d_d894_4a9b_d1d1nat);
    assert(0x12f_3edf * 0x12f_3edf == 0x1_6735_e352_c641);
    assert(0x1_6735_e352_c641 * 0x1_6735_e352_c641 == 0x1_f808_2eea_122c_4b44_e12c_9c81nat);
    assert(269025nat * 269025 * 269025 == 0x45_2c59_9066_9ca1);
    assert(0x45_2c59_9066_9ca1 * 0x45_2c59_9066_9ca1 == 0x12b0_eff6_c049_6d6d_d948_5020_9d41nat);
    assert(0x12b0_eff6_c049_6d6d_d948_5020_9d41nat * 0x12b0_eff6_c049_6d6d_d948_5020_9d41nat == 0x15d_5c09_8741_6139_2178_92b9_bce5_5f46_89a2_dd05_b95f_0d00_50d8_ca81nat);
    assert(0xe4_5b28_abf6_3c44_69dd_1cf3_5f31nat * 0xe4_5b28_abf6_3c44_69dd_1cf3_5f31nat == 0xcbb2_80e8_3f52_992a_ebdb_2048_9e8b_6906_fed0_2d96_b0ca_926b_6761nat);
    assert(0x1_f808_219e_0a4d_d894_4a9b_d1d1nat * 0x12f_3edd == 0x255_0d64_e137_7e11_172c_3083_7bb3_bf6dnat);
    assert(0x1_f808_2eea_122c_4b44_e12c_9c81nat * 0x12f_3edf == 0x255_0d78_9189_10b9_a556_c356_3072_925fnat);
    assert(0x255_0d64_e137_7e11_172c_3083_7bb3_bf6dnat * 0x15d_5c09_8741_6139_2178_92b9_bce5_5f46_89a2_dd05_b95f_0d00_50d8_ca81nat == 0x3_2ec9_e990_34ae_1240_e178_820f_d0e8_70a9_717b_cef3_0388_cc72_192f_8a40_d6bf_4e7d_afca_8050_4658_be97_77ednat);
    assert(0x255_0d78_9189_10b9_a556_c356_3072_925fnat * 0x15d_5c09_8741_6139_2178_92b9_bce5_5f46_89a2_dd05_b95f_0d00_50d8_ca81nat == 0x3_2eca_046e_a7fb_ec9f_afc7_d513_a009_1212_1361_942c_96eb_331b_3722_fc57_818a_1d33_8dde_5066_f212_0162_b7dfnat);
    assert(0xcbb2_80e8_3f52_992a_ebdb_2048_9e8b_6906_fed0_2d96_b0ca_926b_6761nat * 0x4_0000_0000_0000_0000_0000_0000_0000_0000nat == 0x3_2eca_03a0_fd4a_64ab_af6c_8122_7a2d_a41b_fb40_b65a_c32a_49ad_9d84_0000_0000_0000_0000_0000_0000_0000_0000nat);
    lemma_power_known(
        0x3e97_9f6f, 0x97_9f6f, 124, 0x4_0000_0000_0000_0000_0000_0000_0000_0000nat,
        162025, 0xf_1c88_5a1e_eb79,
        0xe4_5b28_abf6_3c44_69dd_1cf3_5f31nat,
        269025, 0x45_2c59_9066_9ca1,
        0x12b0_eff6_c049_6d6d_d948_5020_9d41nat,
        0x1_6735_de95_cac9, 0x1_f808_219e_0a4d_d894_4a9b_d1d1nat,
        0x1_6735_e352_c641, 0x1_f808_2eea_122c_4b44_e12c_9c81nat,
    );
}

/// Code 149.
proof fn lemma_entry_149()
    ensures
        nearest_to_power(0x3e99_e0e0, 163025, 269025),
{
    lemma_fifth_powers_of_two();
    assert(163025nat * 163025 * 163025 == 0xf_649a_a373_4171);
    assert(0xf_649a_a373_4171 * 0xf_649a_a373_4171 == 0xec_f1a8_549c_c564_fd2d_c240_93e1nat);
    assert(0x133_c1bf * 0x133_c1bf == 0x1_71fa_42bb_8c81);
    assert(0x1_71fa_42bb_8c81 * 0x1_71fa_42bb_8c81 == 0x2_16b3_6907_12bf_8bcd_1593_5901nat);
    assert(0x133_c1c1 * 0x133_c1c1 == 0x1_71fa_478a_9381);
    assert(0x1_71fa_478a_9381 * 0x1_71fa_478a_9381 == 0x2_16b3_76ed_4be0_22c8_ea11_6701nat);
    assert(269025nat * 269025 * 269025 == 0x45_2c59_9066_9ca1);
    assert(0x45_2c59_9066_9ca1 * 0x45_2c59_9066_9ca1 == 0x12b0_eff6_c049_6d6d_d948_5020_9d41nat);
    assert(0x12b0_eff6_c049_6d6d_d948_5020_9d41nat * 0x12b0_eff6_c049_6d6d_d948_5020_9d41nat == 0x15d_5c09_8741_6139_2178_92b9_bce5_5f46_89a2_dd05_b95f_0d00_50d8_ca81nat);
    assert(0xec_f1a8_549c_c564_fd2d_c240_93e1nat * 0xec_f1a8_549c_c564_fd2d_c240_93e1nat == 0xdb4e_727a_5f0a_4795_4726_0c4c_5ec6_0c2a_8265_542c_a785_49ec_2bc1nat);
    assert(0x2_16b3_6907_12bf_8bcd_1593_5901nat * 0x133_c1bf == 0x282_cdd3_2585_2d1e_0c3f_cafa_eb3c_28bfnat);
    assert(0x2_16b3_76ed_4be0_22c8_ea11_6701nat * 0x133_c1c1 == 0x282_cde8_0887_8ce3_e524_64ce_1bf9_68c1nat);
    assert(0x282_cdd3_2585_2d1e_0c3f_cafa_eb3c_28bfnat * 0x15d_5c09_8741_6139_2178_92b9_bce5_5f46_89a2_dd05_b95f_0d00_50d8_ca81nat == 0x3_6d39_b2be_e32b_6ab2_b78c_4fac_6843_b195_1942_4aeb_50b2_d50d_326d_bf11_6c86_de85_e882_637b_408c_129f_3e3fnat);
    assert(0x282_cde8_0887_8ce3_e524_64ce_1bf9_68c1nat * 0x15d_5c09_8741_6139_2178_92b9_bce5_5f46_89a2_dd05_b95f_0d00_50d8_ca81nat == 0x3_6d39_cf3f_dfc3_d9f7_b1e1_9f6e_c1ae_3aef_47bc_c03f_a2c2_2c5b_e1bc_34fe_a5e0_fba0_464c_a877_c61b_982e_1341nat);
    assert(0xdb4e_727a_5f0a_4795_4726_0c4c_5ec6_0c2a_8265_542c_a785_49ec_2bc1nat * 0x4_0000_0000_0000_0000_0000_0000_0000_0000nat == 0x3_6d39_c9e9_7c29_1e55_1c98_3131_7b18_30aa_0995_50b2_9e15_27b0_af04_0000_0000_0000_0000_0000_0000_0000_0000nat);
    lemma_power_known(
        0x3e99_e0e0, 0x99_e0e0, 124, 0x4_0000_0000_0000_0000_0000_0000_0000_0000nat,
        163025, 0xf_649a_a373_4171,
        0xec_f1a8_549c_c564_fd2d_c240_93e1nat,
        269025, 0x45_2c59_9066_9ca1,
        0x12b0_eff6_c049_6d6d_d948_5020_9d41nat,
        0x1_71fa_42bb_8c81, 0x2_16b3_6907_12bf_8bcd_1593_5901nat,
        0x1_71fa_478a_9381, 0x2_16b3_76ed_4be0_22c8_ea11_6701nat,
    );
}

/// Code 150.
proof fn lemma_entry_150()
    ensures
        nearest_to_power(0x3e9c_274c, 164025, 269025),
{
    lemma_fifth_powers_of_two();
    assert(164025nat * 164025 * 164025 == 0xf_ad90_ab10_1ce9);
    assert(0xf_ad90_ab10_1ce9 * 0xf_ad90_ab10_1ce9 == 0xf5_cca0_e4d8_0ecf_f7c2_e663_cc11nat);
    assert(0x138_4e97 * 0x138_4e97 == 0x1_7cff_a830_5d11);
    assert(0x1_7cff_a830_5d11 * 0x1_7cff_a830_5d11 == 0x2_3707_faa0_1323_6327_5835_5b21nat);
    assert(0x138_4e99 * 0x138_4e99 == 0x1_7cff_ad11_9771);
    assert(0x1_7cff_ad11_9771 * 0x1_7cff_ad11_9771 == 0x2_3708_0926_77a3_f302_3098_7fe1nat);
    assert(269025nat * 269025 * 269025 == 0x45_2c59_9066_9ca1);
    assert(0x45_2c59_9066_9ca1 * 0x45_2c59_9066_9ca1 == 0x12b0_eff6_c049_6d6d_d948_5020_9d41nat);
    assert(0x12b0_eff6_c049_6d6d_d948_5020_9d41nat * 0x12b0_eff6_c049_6d6d_d948_5020_9d41nat == 0x15d_5c09_8741_6139_2178_92b9_bce5_5f46_89a2_dd05_b95f_0d00_50d8_ca81nat);
    assert(0xf5_cca0_e4d8_0ecf_f7c2_e663_cc11nat * 0xf5_cca0_e4d8_0ecf_f7c2_e663_cc11nat == 0xec01_4f86_d763_8c4f_c29c_bef4_4dd6_a753_d15c_71df_915a_03d1_1921nat);
    assert(0x2_3707_faa0_1323_6327_5835_5b21nat * 0x138_4e97 == 0x2b3_bfcc_5728_ed60_ea08_fa1c_5974_ce77nat);
    assert(0x2_3708_0926_77a3_f302_3098_7fe1nat * 0x138_4e99 == 0x2b3_bfe2_7d79_0041_9fb2_20f9_5c52_fb79nat);
    assert(0x2b3_bfcc_5728_ed60_ea08_fa1c_5974_ce77nat * 0x15d_5c09_8741_6139_2178_92b9_bce5_5f46_89a2_dd05_b95f_0d00_50d8_ca81nat == 0x3_b005_2c3f_7b1c_8dc3_8460_7039_5d9f_bacd_a6c2_fd3d_e309_58f8_be68_bc9f_9124_7787_2ba7_7365_6cf2_a32d_eff7nat);
    assert(0x2b3_bfe2_7d79_0041_9fb2_20f9_5c52_fb79nat * 0x15d_5c09_8741_6139_2178_92b9_bce5_5f46_89a2_dd05_b95f_0d00_50d8_ca81nat == 0x3_b005_4a79_acde_1d90_f4e8_a7a4_b782_80e5_5060_c18e_45d5_1ccd_d287_9877_d119_3da9_9440_bfb3_5a1a_fe56_31f9nat);
    assert(0xec01_4f86_d763_8c4f_c29c_bef4_4dd6_a753_d15c_71df_915a_03d1_1921nat * 0x4_0000_0000_0000_0000_0000_0000_0000_0000nat == 0x3_b005_3e1b_5d8e_313f_0a72_fbd1_375a_9d4f_4571_c77e_4568_0f44_6484_0000_0000_0000_0000_0000_0000_0000_0000nat);
    lemma_power_known(
        0x3e9c_274c, 0x9c_274c, 124, 0x4_0000_0000_0000_0000_0000_0000_0000_0000nat,
        164025, 0xf_ad90_ab10_1ce9,
        0xf5_cca0_e4d8_0ecf_f7c2_e663_cc11nat,
        269025, 0x45_2c59_9066_9ca1,
        0x12b0_eff6_c049_6d6d_d948_5020_9d41nat,
        0x1_7cff_a830_5d11, 0x2_3707_faa0_1323_6327_5835_5b21nat,
        0x1_7cff_ad11_9771, 0x2_3708_0926_77a3_f302_3098_7fe1nat,
    );
}

/// Code 151.
proof fn lemma_entry_151()
    ensures
        nearest_to_power(0x3e9e_72b6, 165025, 269025),
{
    lemma_fifth_powers_of_two();
    assert(165025nat * 165025 * 165025 == 0xf_f76b_d696_39e1);
    assert(0xf_f76b_d696_39e1 * 0xf_f76b_d696_39e1 == 0xfe_edc4_6b1d_c182_1102_0cc1_f7c1nat);
    assert(0x13c_e56b * 0x13c_e56b == 0x1_8847_2dc0_9ab9);
    assert(0x1_8847_2dc0_9ab9 * 0x1_8847_2dc0_9ab9 == 0x2_591a_0fe8_42d9_a9eb_7d03_19b1nat);
    assert(0x13c_e56d * 0x13c_e56d == 0x1_8847_32b4_3069);
    assert(0x1_8847_32b4_3069 * 0x1_8847_32b4_3069 == 0x2_591a_1f14_fe3f_4bfb_20cf_8b11nat);
    assert(269025nat * 269025 * 269025 == 0x45_2c59_9066_9ca1);
    assert(0x45_2c59_9066_9ca1 * 0x45_2c59_9066_9ca1 == 0x12b0_eff6_c049_6d6d_d948_5020_9d41nat);
    assert(0x12b0_eff6_c049_6d6d_d948_5020_9d41nat * 0x12b0_eff6_c049_6d6d_d948_5020_9d41nat == 0x15d_5c09_8741_6139_2178_92b9_bce5_5f46_89a2_dd05_b95f_0d00_50d8_ca81nat);
    assert(0xfe_edc4_6b1d_c182_1102_0cc1_f7c1nat * 0xfe_edc4_6b1d_c182_1102_0cc1_f7c1nat == 0xfddc_ae99_d415_48c6_c5f1_4b9f_4196_2108_2a00_9896_4335_98c7_ff81nat);
    assert(0x2_591a_0fe8_42d9_a9eb_7d03_19b1nat * 0x13c_e56b == 0x2e8_16db_30d1_ee8e_64a7_fc14_bcc3_11fbnat);
    assert(0x2_591a_1f14_fe3f_4bfb_20cf_8b11nat * 0x13c_e56d == 0x2e8_16f2_abd6_d980_a9e7_7e76_48c0_6b3dnat);
    assert(0x2e8_16db_30d1_ee8e_64a7_fc14_bcc3_11fbnat * 0x15d_5c09_8741_6139_2178_92b9_bce5_5f46_89a2_dd05_b95f_0d00_50d8_ca81nat == 0x3_f772_acba_4388_5c59_5000_1513_60ce_c824_8a29_a89d_eab1_0c3e_ffbb_7c74_fa53_e1b2_188f_6919_5c9a_a644_1d7bnat);
    assert(0x2e8_16f2_abd6_d980_a9e7_7e76_48c0_6b3dnat * 0x15d_5c09_8741_6139_2178_92b9_bce5_5f46_89a2_dd05_b95f_0d00_50d8_ca81nat == 0x3_f772_ccc5_6a52_281b_c9fb_d336_cdc7_daa7_87d9_6a81_6a0d_cbe5_3696_e98a_9aff_0c5e_a287_980e_abe0_090c_2bbdnat);
    assert(0xfddc_ae99_d415_48c6_c5f1_4b9f_4196_2108_2a00_9896_4335_98c7_ff81nat * 0x4_0000_0000_0000_0000_0000_0000_0000_0000nat == 0x3_f772_ba67_5055_231b_17c5_2e7d_0658_8420_a802_6259_0cd6_631f_fe04_0000_0000_0000_0000_0000_0000_0000_0000nat);
    lemma_power_known(
        0x3e9e_72b6, 0x9e_72b6, 124, 0x4_0000_0000_0000_0000_0000_0000_0000_0000nat,
        165025, 0xf_f76b_d696_39e1,
        0xfe_edc4_6b1d_c182_1102_0cc1_f7c1nat,
        269025, 0x45_2c59_9066_9ca1,
        0x12b0_eff6_c049_6d6d_d948_5020_9d41nat,
        0x1_8847_2dc0_9ab9, 0x2_591a_0fe8_42d9_a9eb_7d03_19b1nat,
        0x1_8847_32b4_3069, 0x2_591a_1f14_fe3f_4bfb_20cf_8b11nat,
    );
}

/// Code 152.
proof fn lemma_entry_152()
    ensures
        nearest_to_power(0x3ea0_c321, 166025, 269025),
{
    lemma_fifth_powers_of_two();
    assert(166025nat * 166025 * 166025 == 0x10_422d_8ba6_5459);
    assert(0x10_422d_8ba6_5459 * 0x10_422d_8ba6_5459 == 0x108_56cc_f8e6_b345_96f4_2536_86f1nat);
    assert(0x141_8641 * 0x141_8641 == 0x1_93d1_f56a_1c81);
    assert(0x1_93d1_f56a_1c81 * 0x1_93d1_f56a_1c81 == 0x2_7cfe_b6de_b844_f72c_8800_7901nat);
    assert(0x141_8643 * 0x141_8643 == 0x1_93d1_fa70_3589);
    assert(0x1_93d1_fa70_3589 * 0x1_93d1_fa70_3589 == 0x2_7cfe_c6b8_28c4_1970_7712_0351nat);
    assert(269025nat * 269025 * 269025 == 0x45_2c59_9066_9ca1);
    assert(0x45_2c59_9066_9ca1 * 0x45_2c59_9066_9ca1 == 0x12b0_eff6_c049_6d6d_d948_5020_9d41nat);
    assert(0x12b0_eff6_c049_6d6d_d948_5020_9d41nat * 0x12b0_eff6_c049_6d6d_d948_5020_9d41nat == 0x15d_5c09_8741_6139_2178_92b9_bce5_5f46_89a2_dd05_b95f_0d00_50d8_ca81nat);
    assert(0x108_56cc_f8e6_b345_96f4_2536_86f1nat * 0x108_56cc_f8e6_b345_96f4_2536_86f1nat == 0x1_10f3_242f_b72a_61a7_9b1e_d1a0_ed71_a42e_bd98_9f66_7606_decd_2ee1nat);
    assert(0x2_7cfe_b6de_b844_f72c_8800_7901nat * 0x141_8641 == 0x320_0972_5daa_117a_d1ba_9a16_81b6_3f41nat);
    assert(0x2_7cfe_c6b8_28c4_1970_7712_0351nat * 0x141_8643 == 0x320_098b_3f9d_856d_36a8_d458_c004_4433nat);
    assert(0x320_0972_5daa_117a_d1ba_9a16_81b6_3f41nat * 0x15d_5c09_8741_6139_2178_92b9_bce5_5f46_89a2_dd05_b95f_0d00_50d8_ca81nat == 0x4_43cc_8215_d0d5_c940_2d75_b56b_a11b_9350_56cc_d976_b5ba_e1ce_35b1_992a_901d_1edf_522c_ab79_1a3a_d997_29c1nat);
    assert(0x320_098b_3f9d_856d_36a8_d458_c004_4433nat * 0x15d_5c09_8741_6139_2178_92b9_bce5_5f46_89a2_dd05_b95f_0d00_50d8_ca81nat == 0x4_43cc_a40a_cbdb_6f70_2a26_5dcb_e598_1875_bb9f_09ea_4a92_5efe_43ab_177a_8d7d_7399_7e96_0ae7_f825_9afe_9bb3nat);
    assert(0x1_10f3_242f_b72a_61a7_9b1e_d1a0_ed71_a42e_bd98_9f66_7606_decd_2ee1nat * 0x4_0000_0000_0000_0000_0000_0000_0000_0000nat == 0x4_43cc_90be_dca9_869e_6c7b_4683_b5c6_90ba_f662_7d99_d81b_7b34_bb84_0000_0000_0000_0000_0000_0000_0000_0000nat);
    lemma_power_known(
        0x3ea0_c321, 0xa0_c321, 124, 0x4_0000_0000_0000_0000_0000_0000_0000_0000nat,
        166025, 0x10_422d_8ba6_5459,
        0x108_56cc_f8e6_b345_96f4_2536_86f1nat,
        269025, 0x45_2c59_9066_9ca1,
        0x12b0_eff6_c049_6d6d_d948_5020_9d41nat,
        0x1_93d1_f56a_1c81, 0x2_7cfe_b6de_b844_f72c_8800_7901nat,
        0x1_93d1_fa70_3589, 0x2_7cfe_c6b8_28c4_1970_7712_0351nat,
    );
}

/// Code 153.
proof fn lemma_entry_153()
    ensures
        nearest_to_power(0x3ea3_1890, 167025, 269025),
{
    lemma_fifth_powers_of_two();
    assert(167025nat * 167025 * 167025 == 0x10_8dd7_2fe1_2851);
    assert(0x10_8dd7_2fe1_2851 * 0x10_8dd7_2fe1_2851 == 0x112_097c_bbc4_85af_64e3_a2bb_69a1nat);
    assert(0x146_311f * 0x146_311f == 0x1_9fa1_2460_e1c1);
    assert(0x1_9fa1_2460_e1c1 * 0x1_9fa1_2460_e1c1 == 0x2_a2cb_d960_e2f7_16ea_5fd4_d381nat);
    assert(0x146_3121 * 0x146_3121 == 0x1_9fa1_2979_a641);
    assert(0x1_9fa1_2979_a641 * 0x1_9fa1_2979_a641 == 0x2_a2cb_e9ed_9ac2_0cd1_676a_5c81nat);
    assert(269025nat * 269025 * 269025 == 0x45_2c59_9066_9ca1);
    assert(0x45_2c59_9066_9ca1 * 0x45_2c59_9066_9ca1 == 0x12b0_eff6_c049_6d6d_d948_5020_9d41nat);
    assert(0x12b0_eff6_c049_6d6d_d948_5020_9d41nat * 0x12b0_eff6_c049_6d6d_d948_5020_9d41nat == 0x15d_5c09_8741_6139_2178_92b9_bce5_5f46_89a2_dd05_b95f_0d00_50d8_ca81nat);
    assert(0x112_097c_bbc4_85af_64e3_a2bb_69a1nat * 0x112_097c_bbc4_85af_64e3_a2bb_69a1nat == 0x1_2558_4f5b_f2a8_6cf4_8075_4eeb_b2ee_3f54_ce10_1e72_d669_40cb_7741nat);
    assert(0x2_a2cb_d960_e2f7_16ea_5fd4_d381nat * 0x146_311f == 0x35b_d111_8cab_e4d3_f5c4_abbe_ad87_4d9fnat);
    assert(0x2_a2cb_e9ed_9ac2_0cd1_676a_5c81nat * 0x146_3121 == 0x35b_d12b_e8a2_b55c_6a21_6d3b_7cb0_9da1nat);
    assert(0x35b_d111_8cab_e4d3_f5c4_abbe_ad87_4d9fnat * 0x15d_5c09_8741_6139_2178_92b9_bce5_5f46_89a2_dd05_b95f_0d00_50d8_ca81nat == 0x4_9561_240f_b559_8dfa_4054_d968_233e_2076_9872_f3d6_8426_9a7e_28e7_038d_1c20_bff9_0491_1aad_c56d_6295_931fnat);
    assert(0x35b_d12b_e8a2_b55c_6a21_6d3b_7cb0_9da1nat * 0x15d_5c09_8741_6139_2178_92b9_bce5_5f46_89a2_dd05_b95f_0d00_50d8_ca81nat == 0x4_9561_4808_8edb_b3d9_c5c3_6699_d69b_56b4_3c31_88d2_6df0_8c91_f76a_7665_2c54_8d60_4b94_6bf1_8ea4_8138_7821nat);
    assert(0x1_2558_4f5b_f2a8_6cf4_8075_4eeb_b2ee_3f54_ce10_1e72_d669_40cb_7741nat * 0x4_0000_0000_0000_0000_0000_0000_0000_0000nat == 0x4_9561_3d6f_caa1_b3d2_01d5_3bae_cbb8_fd53_3840_79cb_59a5_032d_dd04_0000_0000_0000_0000_0000_0000_0000_0000nat);
    lemma_power_known(
        0x3ea3_1890, 0xa3_1890, 124, 0x4_0000_0000_0000_0000_0000_0000_0000_0000nat,
        167025, 0x10_8dd7_2fe1_2851,
        0x112_097c_bbc4_85af_64e3_a2bb_69a1nat,
        269025, 0x45_2c59_9066_9ca1,
        0x12b0_eff6_c049_6d6d_d948_5020_9d41nat,
        0x1_9fa1_2460_e1c1, 0x2_a2cb_d960_e2f7_16ea_5fd4_d381nat,
        0x1_9fa1_2979_a641, 0x2_a2cb_e9ed_9ac2_0cd1_676a_5c81nat,
    );
}

/// Code 154.
proof fn lemma_entry_154()
    ensures
        nearest_to_power(0x3ea5_7307, 168025, 269025),
{
    lemma_fifth_powers_of_two();
    assert(168025nat * 168025 * 168025 == 0x10_da6a_28e7_71c9);
    assert(0x10_da6a_28e7_71c9 * 0x10_da6a_28e7_71c9 == 0x11c_079e_169e_4d1d_b341_5b51_0fd1nat);
    assert(0x14a_e60d * 0x14a_e60d == 0x1_abb5_e83f_5ca9);
    assert(0x1_abb5_e83f_5ca9 * 0x1_abb5_e83f_5ca9 == 0x2_ca98_5605_9b67_b49b_0cb7_e791nat);
    assert(0x14a_e60f * 0x14a_e60f == 0x1_abb5_ed6a_f4e1);
    assert(0x1_abb5_ed6a_f4e1 * 0x1_abb5_ed6a_f4e1 == 0x2_ca98_674c_6254_1242_4e91_adc1nat);
    assert(269025nat * 269025 * 269025 == 0x45_2c59_9066_9ca1);
    assert(0x45_2c59_9066_9ca1 * 0x45_2c59_9066_9ca1 == 0x12b0_eff6_c049_6d6d_d948_5020_9d41nat);
    assert(0x12b0_eff6_c049_6d6d_d948_5020_9d41nat * 0x12b0_eff6_c049_6d6d_d948_5020_9d41nat == 0x15d_5c09_8741_6139_2178_92b9_bce5_5f46_89a2_dd05_b95f_0d00_50d8_ca81nat);
    assert(0x11c_079e_169e_4d1d_b341_5b51_0fd1nat * 0x11c_079e_169e_4d1d_b341_5b51_0fd1nat == 0x1_3b20_e6fc_3617_af84_209d_d639_a04b_0605_5c40_2b35_090b_993c_28a1nat);
    assert(0x2_ca98_5605_9b67_b49b_0cb7_e791nat * 0x14a_e60d == 0x39b_aa88_0a3f_bb96_e065_de5d_604d_085dnat);
    assert(0x2_ca98_674c_6254_1242_4e91_adc1nat * 0x14a_e60f == 0x39b_aaa3_f433_6e30_d4cd_ec43_776e_944fnat);
    assert(0x39b_aa88_0a3f_bb96_e065_de5d_604d_085dnat * 0x15d_5c09_8741_6139_2178_92b9_bce5_5f46_89a2_dd05_b95f_0d00_50d8_ca81nat == 0x4_ec83_8f1f_de2c_d409_3a1f_2334_aeb1_14a0_4b99_90ca_23a8_4118_26e0_a29a_4e89_7eac_57de_7a9b_c7a6_6de2_98ddnat);
    assert(0x39b_aaa3_f433_6e30_d4cd_ec43_776e_944fnat * 0x15d_5c09_8741_6139_2178_92b9_bce5_5f46_89a2_dd05_b95f_0d00_50d8_ca81nat == 0x4_ec83_b537_d884_dd2c_8b28_afc0_8065_a886_814b_f4c4_013d_5199_e6bd_91c5_3776_ae17_b6eb_e449_a0e2_4267_11cfnat);
    assert(0x1_3b20_e6fc_3617_af84_209d_d639_a04b_0605_5c40_2b35_090b_993c_28a1nat * 0x4_0000_0000_0000_0000_0000_0000_0000_0000nat == 0x4_ec83_9bf0_d85e_be10_8277_58e6_812c_1815_7100_acd4_242e_64f0_a284_0000_0000_0000_0000_0000_0000_0000_0000nat);
    lemma_power_known(
        0x3ea5_7307, 0xa5_7307, 124, 0x4_0000_0000_0000_0000_0000_0000_0000_0000nat,
        168025, 0x10_da6a_28e7_71c9,
        0x11c_079e_169e_4d1d_b341_5b51_0fd1nat,
        269025, 0x45_2c59_9066_9ca1,
        0x12b0_eff6_c049_6d6d_d948_5020_9d41nat,
        0x1_abb5_e83f_5ca9, 0x2_ca98_5605_9b67_b49b_0cb7_e791nat,
        0x1_abb5_ed6a_f4e1, 0x2_ca98_674c_6254_1242_4e91_adc1nat,
    );
}

/// Code 155.
proof fn lemma_entry_155()
    ensures
        nearest_to_power(0x3ea7_d288, 169025, 269025),
{
    lemma_fifth_powers_of_two();
    assert(169025nat * 169025 * 169025 == 0x11_27e7_dc59_ecc1);
    assert(0x11_27e7_dc59_ecc1 * 0x11_27e7_dc59_ecc1 == 0x126_5303_bb14_3fb8_c0d0_3126_6981nat);
    assert(0x14f_a50f * 0x14f_a50f == 0x1_b811_67ae_56e1);
    assert(0x1_b811_67ae_56e1 * 0x1_b811_67ae_56e1 == 0x2_f47b_d596_39ca_ba85_4557_f1c1nat);
    assert(0x14f_a511 * 0x14f_a511 == 0x1_b811_6cec_eb21);
    assert(0x1_b811_6cec_eb21 * 0x1_b811_6cec_eb21 == 0x2_f47b_e79e_0e11_6c08_34cd_9a41nat);
    assert(269025nat * 269025 * 269025 == 0x45_2c59_9066_9ca1);
    assert(0x45_2c59_9066_9ca1 * 0x45_2c59_9066_9ca1 == 0x12b0_eff6_c049_6d6d_d948_5020_9d41nat);
    assert(0x12b0_eff6_c049_6d6d_d948_5020_9d41nat * 0x12b0_eff6_c049_6d6d_d948_5020_9d41nat == 0x15d_5c09_8741_6139_2178_92b9_bce5_5f46_89a2_dd05_b95f_0d00_50d8_ca81nat);
    assert(0x126_5303_bb14_3fb8_c0d0_3126_6981nat * 0x126_5303_bb14_3fb8_c0d0_3126_6981nat == 0x1_5262_c77d_1ddf_68dc_c03e_5765_202e_1fd9_7456_ad8c_abc6_dfc7_1301nat);
    assert(0x2_f47b_d596_39ca_ba85_4557_f1c1nat * 0x14f_a50f == 0x3df_d5cc_a380_f757_217e_9196_1a87_8f4fnat);
    assert(0x2_f47b_e79e_0e11_6c08_34cd_9a41nat * 0x14f_a511 == 0x3df_d5ea_3057_a95c_8886_8fa0_e122_2351nat);
    assert(0x3df_d5cc_a380_f757_217e_9196_1a87_8f4fnat * 0x15d_5c09_8741_6139_2178_92b9_bce5_5f46_89a2_dd05_b95f_0d00_50d8_ca81nat == 0x5_498b_0dba_fcd2_2abe_040c_392b_e4c4_1997_0373_3c26_f57c_b465_e2bf_5c9b_0c08_82c2_a161_a630_8fbb_f00b_8ccfnat);
    assert(0x3df_d5ea_3057_a95c_8886_8fa0_e122_2351nat * 0x15d_5c09_8741_6139_2178_92b9_bce5_5f46_89a2_dd05_b95f_0d00_50d8_ca81nat == 0x5_498b_360e_9d39_9472_e082_ab79_23d6_bbd8_3ad2_6de7_ac52_5b95_2860_89b1_82da_4da6_99fa_cf16_0e8d_7e69_b5d1nat);
    assert(0x1_5262_c77d_1ddf_68dc_c03e_5765_202e_1fd9_7456_ad8c_abc6_dfc7_1301nat * 0x4_0000_0000_0000_0000_0000_0000_0000_0000nat == 0x5_498b_1df4_777d_a373_00f9_5d94_80b8_7f65_d15a_b632_af1b_7f1c_4c04_0000_0000_0000_0000_0000_0000_0000_0000nat);
    lemma_power_known(
        0x3ea7_d288, 0xa7_d288, 124, 0x4_0000_0000_0000_0000_0000_0000_0000_0000nat,
        169025, 0x11_27e7_dc59_ecc1,
        0x126_5303_bb14_3fb8_c0d0_3126_6981nat,
        269025, 0x45_2c59_9066_9ca1,
        0x12b0_eff6_c049_6d6d_d948_5020_9d41nat,
        0x1_b811_67ae_56e1, 0x2_f47b_d596_39ca_ba85_4557_f1c1nat,
        0x1_b811_6cec_eb21, 0x2_f47b_e79e_0e11_6c08_34cd_9a41nat,
    );
}

/// Code 156.
proof fn lemma_entry_156()
    ensures
        nearest_to_power(0x3eaa_3716, 170025, 269025),
{
    lemma_fifth_powers_of_two();
    assert(170025nat * 170025 * 170025 == 0x11_7651_afd9_5539);
    assert(0x11_7651_afd9_5539 * 0x11_7651_afd9_5539 == 0x130_ed88_c30a_6c75_5517_8500_e6b1nat);
    assert(0x154_6e2b * 0x154_6e2b == 0x1_c4b4_d1a0_fb39);
    assert(0x1_c4b4_d1a0_fb39 * 0x1_c4b4_d1a0_fb39 == 0x3_208f_03f7_ed2a_cf96_0fc8_d2b1nat);
    assert(0x154_6e2d * 0x154_6e2d == 0x1_c4b4_d6f2_b3e9);
    assert(0x1_c4b4_d6f2_b3e9 * 0x1_c4b4_d6f2_b3e9 == 0x3_208f_16c8_0516_728a_2ef3_aa11nat);
    assert(269025nat * 269025 * 269025 == 0x45_2c59_9066_9ca1);
    assert(0x45_2c59_9066_9ca1 * 0x45_2c59_9066_9ca1 == 0x12b0_eff6_c049_6d6d_d948_5020_9d41nat);
    assert(0x12b0_eff6_c049_6d6d_d948_5020_9d41nat * 0x12b0_eff6_c049_6d6d_d948_5020_9d41nat == 0x15d_5c09_8741_6139_2178_92b9_bce5_5f46_89a2_dd05_b95f_0d00_50d8_ca81nat);
    assert(0x130_ed88_c30a_6c75_5517_8500_e6b1nat * 0x130_ed88_c30a_6c75_5517_8500_e6b1nat == 0x1_6b35_0135_baf2_b327_75bb_3e24_9081_5594_a1c7_fa3e_ed82_b9e2_8661nat);
    assert(0x3_208f_03f7_ed2a_cf96_0fc8_d2b1nat * 0x154_6e2b == 0x428_9675_3101_2f68_eeb0_4fb4_c457_71bbnat);
    assert(0x3_208f_16c8_0516_728a_2ef3_aa11nat * 0x154_6e2d == 0x428_9694_7697_b528_a9af_de14_d27c_32fdnat);
    assert(0x428_9675_3101_2f68_eeb0_4fb4_c457_71bbnat * 0x15d_5c09_8741_6139_2178_92b9_bce5_5f46_89a2_dd05_b95f_0d00_50d8_ca81nat == 0x5_acd3_db75_ad93_1751_f098_f27a_8d61_969c_d42c_6a1a_b421_a555_ac3e_6c50_780b_f460_1125_ebc9_4956_5595_dd3bnat);
    assert(0x428_9694_7697_b528_a9af_de14_d27c_32fdnat * 0x15d_5c09_8741_6139_2178_92b9_bce5_5f46_89a2_dd05_b95f_0d00_50d8_ca81nat == 0x5_acd4_0622_c9f3_7dbe_6608_24c3_faa2_a62f_7024_82c3_0a07_fbc7_9b6d_c0ae_6d8c_6862_d4bd_39ad_984e_2649_537dnat);
    assert(0x1_6b35_0135_baf2_b327_75bb_3e24_9081_5594_a1c7_fa3e_ed82_b9e2_8661nat * 0x4_0000_0000_0000_0000_0000_0000_0000_0000nat == 0x5_acd4_04d6_ebca_cc9d_d6ec_f892_4205_5652_871f_e8fb_b60a_e78a_1984_0000_0000_0000_0000_0000_0000_0000_0000nat);
    lemma_power_known(
        0x3eaa_3716, 0xaa_3716, 124, 0x4_0000_0000_0000_0000_0000_0000_0000_0000nat,
        170025, 0x11_7651_afd9_5539,
        0x130_ed88_c30a_6c75_5517_8500_e6b1nat,
        269025, 0x45_2c59_9066_9ca1,
        0x12b0_eff6_c049_6d6d_d948_5020_9d41nat,
        0x1_c4b4_d1a0_fb39, 0x3_208f_03f7_ed2a_cf96_0fc8_d2b1nat,
        0x1_c4b4_d6f2_b3e9, 0x3_208f_16c8_0516_728a_2ef3_aa11nat,
    );
}

/// Code 157.
proof fn lemma_entry_157()
    ensures
        nearest_to_power(0x3eac_a0b6, 171025, 269025),
{
    lemma_fifth_powers_of_two();
    assert(171025nat * 171025 * 171025 == 0x11_c5a9_0906_6731);
    assert(0x11_c5a9_0906_6731 * 0x11_c5a9_0906_6731 == 0x13b_d910_ca5a_7a19_1c1c_71e4_7761nat);
    assert(0x159_416b * 0x159_416b == 0x1_d1a1_631d_82b9);
    assert(0x1_d1a1_631d_82b9 * 0x1_d1a1_631d_82b9 == 0x3_4eeb_afcf_0662_5533_f6aa_69b1nat);
    assert(0x159_416d * 0x159_416d == 0x1_d1a1_6882_8869);
    assert(0x1_d1a1_6882_8869 * 0x1_d1a1_6882_8869 == 0x3_4eeb_c36e_d267_5776_2353_bb11nat);
    assert(269025nat * 269025 * 269025 == 0x45_2c59_9066_9ca1);
    assert(0x45_2c59_9066_9ca1 * 0x45_2c59_9066_9ca1 == 0x12b0_eff6_c049_6d6d_d948_5020_9d41nat);
    assert(0x12b0_eff6_c049_6d6d_d948_5020_9d41nat * 0x12b0_eff6_c049_6d6d_d948_5020_9d41nat == 0x15d_5c09_8741_6139_2178_92b9_bce5_5f46_89a2_dd05_b95f_0d00_50d8_ca81nat);
    assert(0x13b_d910_ca5a_7a19_1c1c_71e4_7761nat * 0x13b_d910_ca5a_7a19_1c1c_71e4_7761nat == 0x1_85af_e75f_72cf_c80b_eb75_b921_f0a5_9c5b_40ae_dbb4_d280_7e73_52c1nat);
    assert(0x3_4eeb_afcf_0662_5533_f6aa_69b1nat * 0x159_416b == 0x476_340b_c225_a6ab_75c3_3a01_cd99_1dfbnat);
    assert(0x3_4eeb_c36e_d267_5776_2353_bb11nat * 0x159_416d == 0x476_342c_d75a_e6e0_b16a_d81c_670e_f73dnat);
    assert(0x476_340b_c225_a6ab_75c3_3a01_cd99_1dfbnat * 0x15d_5c09_8741_6139_2178_92b9_bce5_5f46_89a2_dd05_b95f_0d00_50d8_ca81nat == 0x6_16bf_993f_34aa_c5f5_8dce_2c45_e29f_499c_69b8_1282_0175_83c5_8b8f_77fe_a669_fcda_f500_2e95_b8b3_2798_297bnat);
    assert(0x476_342c_d75a_e6e0_b16a_d81c_670e_f73dnat * 0x15d_5c09_8741_6139_2178_92b9_bce5_5f46_89a2_dd05_b95f_0d00_50d8_ca81nat == 0x6_16bf_c665_031d_ab1c_4c6c_a5b8_fc18_3fac_e1d0_fb96_2ffd_e876_cdf1_935e_7430_7254_b68c_84ba_0a85_6918_b7bdnat);
    assert(0x1_85af_e75f_72cf_c80b_eb75_b921_f0a5_9c5b_40ae_dbb4_d280_7e73_52c1nat * 0x4_0000_0000_0000_0000_0000_0000_0000_0000nat == 0x6_16bf_9d7d_cb3f_202f_add6_e487_c296_716d_02bb_6ed3_4a01_f9cd_4b04_0000_0000_0000_0000_0000_0000_0000_0000nat);
    lemma_power_known(
        0x3eac_a0b6, 0xac_a0b6, 124, 0x4_0000_0000_0000_0000_0000_0000_0000_0000nat,
        171025, 0x11_c5a9_0906_6731,
        0x13b_d910_ca5a_7a19_1c1c_71e4_7761nat,
        269025, 0x45_2c59_9066_9ca1,
        0x12b0_eff6_c049_6d6d_d948_5020_9d41nat,
        0x1_d1a1_631d_82b9, 0x3_4eeb_afcf_0662_5533_f6aa_69b1nat,
        0x1_d1a1_6882_8869, 0x3_4eeb_c36e_d267_5776_2353_bb11nat,
    );
}

/// Code 158.
proof fn lemma_entry_158()
    ensures
        nearest_to_power(0x3eaf_0f68, 172025, 269025),
{
    lemma_fifth_powers_of_two();
    assert(172025nat * 172025 * 172025 == 0x12_15ef_4d81_dea9);
    assert(0x12_15ef_4d81_dea9 * 0x12_15ef_4d81_dea9 == 0x147_1788_08ac_6e40_db61_d1fb_8b91nat);
    assert(0x15e_1ecf * 0x15e_1ecf == 0x1_ded8_41b9_2b61);
    assert(0x1_ded8_41b9_2b61 * 0x1_ded8_41b9_2b61 == 0x3_7fac_4c1e_7756_fda6_fb8b_bac1nat);
    assert(0x15e_1ed1 * 0x15e_1ed1 == 0x1_ded8_4731_a6a1);
    assert(0x1_ded8_4731_a6a1 * 0x1_ded8_4731_a6a1 == 0x3_7fac_6095_a1d6_ffbe_8417_3141nat);
    assert(269025nat * 269025 * 269025 == 0x45_2c59_9066_9ca1);
    assert(0x45_2c59_9066_9ca1 * 0x45_2c59_9066_9ca1 == 0x12b0_eff6_c049_6d6d_d948_5020_9d41nat);
    assert(0x12b0_eff6_c049_6d6d_d948_5020_9d41nat * 0x12b0_eff6_c049_6d6d_d948_5020_9d41nat == 0x15d_5c09_8741_6139_2178_92b9_bce5_5f46_89a2_dd05_b95f_0d00_50d8_ca81nat);
    assert(0x147_1788_08ac_6e40_db61_d1fb_8b91nat * 0x147_1788_08ac_6e40_db61_d1fb_8b91nat == 0x1_a1ed_1faf_e259_dd00_7b43_80a1_904e_b82a_4733_9226_8aef_bc6c_c821nat);
    assert(0x3_7fac_4c1e_7756_fda6_fb8b_bac1nat * 0x15e_1ecf == 0x4c8_f95a_7ee4_478d_7b5c_9489_19bc_a00fnat);
    assert(0x3_7fac_6095_a1d6_ffbe_8417_3141nat * 0x15e_1ed1 == 0x4c8_f97d_7b9f_a711_f8f7_b5b9_e592_d411nat);
    assert(0x4c8_f95a_7ee4_478d_7b5c_9489_19bc_a00fnat * 0x15d_5c09_8741_6139_2178_92b9_bce5_5f46_89a2_dd05_b95f_0d00_50d8_ca81nat == 0x6_87b4_5793_7b55_4c5e_1b89_4535_daf8_8912_b695_249b_1b96_75d5_e9a1_fa48_25ad_34c9_9c6e_3345_7390_8b00_7d8fnat);
    assert(0x4c8_f97d_7b9f_a711_f8f7_b5b9_e592_d411nat * 0x15d_5c09_8741_6139_2178_92b9_bce5_5f46_89a2_dd05_b95f_0d00_50d8_ca81nat == 0x6_87b4_8752_9ae7_391d_9555_a5f6_499b_a825_0420_3ba5_664a_601d_2e41_70fb_6c74_be0f_6707_c6e2_b4fa_c8aa_4691nat);
    assert(0x1_a1ed_1faf_e259_dd00_7b43_80a1_904e_b82a_4733_9226_8aef_bc6c_c821nat * 0x4_0000_0000_0000_0000_0000_0000_0000_0000nat == 0x6_87b4_7ebf_8967_7401_ed0e_0286_413a_e0a9_1cce_489a_2bbe_f1b3_2084_0000_0000_0000_0000_0000_0000_0000_0000nat);
    lemma_power_known(
        0x3eaf_0f68, 0xaf_0f68, 124, 0x4_0000_0000_0000_0000_0000_0000_0000_0000nat,
        172025, 0x12_15ef_4d81_dea9,
        0x147_1788_08ac_6e40_db61_d1fb_8b91nat,
        269025, 0x45_2c59_9066_9ca1,
        0x12b0_eff6_c049_6d6d_d948_5020_9d41nat,
        0x1_ded8_41b9_2b61, 0x3_7fac_4c1e_7756_fda6_fb8b_bac1nat,
        0x1_ded8_4731_a6a1, 0x3_7fac_6095_a1d6_ffbe_8417_3141nat,
    );
}

/// Code 159.
proof fn lemma_entry_159()
    ensures
        nearest_to_power(0x3eb1_8332, 173025, 269025),
{
    lemma_fifth_powers_of_two();
    assert(173025nat * 173025 * 173025 == 0x12_6725_e2ec_77a1);
    assert(0x12_6725_e2ec_77a1 * 0x12_6725_e2ec_77a1 == 0x152_aae3_6b76_7c68_802f_0cbf_1341nat);
    assert(0x163_0663 * 0x163_0663 == 0x1_ec5a_b6ba_ca49);
    assert(0x1_ec5a_b6ba_ca49 * 0x1_ec5a_b6ba_ca49 == 0x3_b2ec_ce82_f74c_f33e_5deb_48d1nat);
    assert(0x163_0665 * 0x163_0665 == 0x1_ec5a_bc46_e3d9);
    assert(0x1_ec5a_bc46_e3d9 * 0x1_ec5a_bc46_e3d9 == 0x3_b2ec_e3d9_681a_7edc_1d76_8df1nat);
    assert(269025nat * 269025 * 269025 == 0x45_2c59_9066_9ca1);
    assert(0x45_2c59_9066_9ca1 * 0x45_2c59_9066_9ca1 == 0x12b0_eff6_c049_6d6d_d948_5020_9d41nat);
    assert(0x12b0_eff6_c049_6d6d_d948_5020_9d41nat * 0x12b0_eff6_c049_6d6d_d948_5020_9d41nat == 0x15d_5c09_8741_6139_2178_92b9_bce5_5f46_89a2_dd05_b95f_0d00_50d8_ca81nat);
    assert(0x152_aae3_6b76_7c68_802f_0cbf_1341nat * 0x152_aae3_6b76_7c68_802f_0cbf_1341nat == 0x1_c007_b29a_99a1_a26a_2aa5_c0e0_1eef_ee46_a137_5edc_8a49_d470_b681nat);
    assert(0x3_b2ec_ce82_f74c_f33e_5deb_48d1nat * 0x163_0663 == 0x521_3602_1e07_de26_bff1_c497_cf85_0ed3nat);
    assert(0x3_b2ec_e3d9_681a_7edc_1d76_8df1nat * 0x163_0665 == 0x521_3627_1b48_59f4_9caa_10ef_3c4c_a615nat);
    assert(0x521_3602_1e07_de26_bff1_c497_cf85_0ed3nat * 0x15d_5c09_8741_6139_2178_92b9_bce5_5f46_89a2_dd05_b95f_0d00_50d8_ca81nat == 0x7_001e_c12c_6c74_4bd7_b568_678c_10fc_9013_82d8_602c_b33b_81cc_c983_4f15_5f4d_0c23_5728_8bf2_3e25_01c6_f653nat);
    assert(0x521_3627_1b48_59f4_9caa_10ef_3c4c_a615nat * 0x15d_5c09_8741_6139_2178_92b9_bce5_5f46_89a2_dd05_b95f_0d00_50d8_ca81nat == 0x7_001e_f3a6_f9c0_b23f_4d17_1fa5_7d3a_703b_4cf1_1749_ded6_8153_d473_1185_798c_ab29_f699_e2fc_33b4_8f64_4295nat);
    assert(0x1_c007_b29a_99a1_a26a_2aa5_c0e0_1eef_ee46_a137_5edc_8a49_d470_b681nat * 0x4_0000_0000_0000_0000_0000_0000_0000_0000nat == 0x7_001e_ca6a_6686_89a8_aa97_0380_7bbf_b91a_84dd_7b72_2927_51c2_da04_0000_0000_0000_0000_0000_0000_0000_0000nat);
    lemma_power_known(
        0x3eb1_8332, 0xb1_8332, 124, 0x4_0000_0000_0000_0000_0000_0000_0000_0000nat,
        173025, 0x12_6725_e2ec_77a1,
        0x152_aae3_6b76_7c68_802f_0cbf_1341nat,
        269025, 0x45_2c59_9066_9ca1,
        0x12b0_eff6_c049_6d6d_d948_5020_9d41nat,
        0x1_ec5a_b6ba_ca49, 0x3_b2ec_ce82_f74c_f33e_5deb_48d1nat,
        0x1_ec5a_bc46_e3d9, 0x3_b2ec_e3d9_681a_7edc_1d76_8df1nat,
    );
}

/// Code 160.
proof fn lemma_entry_160()
    ensures
        nearest_to_power(0x3eb3_fc15, 174025, 269025),
{
    lemma_fifth_powers_of_two();
    assert(174025nat * 174025 * 174025 == 0x12_b94e_2ee6_ee19);
    assert(0x12_b94e_2ee6_ee19 * 0x12_b94e_2ee6_ee19 == 0x15e_9520_b023_dcf5_071d_ae5e_7e71nat);
    assert(0x167_f829 * 0x167_f829 == 0x1_fa29_f38d_7691);
    assert(0x1_fa29_f38d_7691 * 0x1_fa29_f38d_7691 == 0x3_e8c9_ddab_23bb_0bb5_18a3_fe21nat);
    assert(0x167_f82b * 0x167_f82b == 0x1_fa29_f92d_5739);
    assert(0x1_fa29_f92d_5739 * 0x1_fa29_f92d_5739 == 0x3_e8c9_f3e8_ffdc_7ff6_a9c1_cab1nat);
    assert(269025nat * 269025 * 269025 == 0x45_2c59_9066_9ca1);
    assert(0x45_2c59_9066_9ca1 * 0x45_2c59_9066_9ca1 == 0x12b0_eff6_c049_6d6d_d948_5020_9d41nat);
    assert(0x12b0_eff6_c049_6d6d_d948_5020_9d41nat * 0x12b0_eff6_c049_6d6d_d948_5020_9d41nat == 0x15d_5c09_8741_6139_2178_92b9_bce5_5f46_89a2_dd05_b95f_0d00_50d8_ca81nat);
    assert(0x15e_9520_b023_dcf5_071d_ae5e_7e71nat * 0x15e_9520_b023_dcf5_071d_ae5e_7e71nat == 0x1_e01c_1c40_b346_6f5d_418a_3246_246c_64a6_c010_5f61_6a5c_b56f_6de1nat);
    assert(0x3_e8c9_ddab_23bb_0bb5_18a3_fe21nat * 0x167_f829 == 0x57f_3d39_b211_6653_5741_ddd9_30ba_ab49nat);
    assert(0x3_e8c9_f3e8_ffdc_7ff6_a9c1_cab1nat * 0x167_f82b == 0x57f_3d60_c9f4_7e38_08e8_81a5_7e1f_83bbnat);
    assert(0x57f_3d39_b211_6653_5741_ddd9_30ba_ab49nat * 0x15d_5c09_8741_6139_2178_92b9_bce5_5f46_89a2_dd05_b95f_0d00_50d8_ca81nat == 0x7_8070_6609_256c_6bcd_6077_0ae0_c362_bd4c_6f2b_a5b2_35f3_5c41_c2a3_8d29_c27e_05e1_e7b3_cb83_52ec_2ecf_e9c9nat);
    assert(0x57f_3d60_c9f4_7e38_08e8_81a5_7e1f_83bbnat * 0x15d_5c09_8741_6139_2178_92b9_bce5_5f46_89a2_dd05_b95f_0d00_50d8_ca81nat == 0x7_8070_9b62_c40e_19ba_428f_9efb_494d_1a4d_dcdf_d757_da16_4195_8981_cc6d_c4f8_4fab_fae7_ad97_acab_019a_ef3bnat);
    assert(0x1_e01c_1c40_b346_6f5d_418a_3246_246c_64a6_c010_5f61_6a5c_b56f_6de1nat * 0x4_0000_0000_0000_0000_0000_0000_0000_0000nat == 0x7_8070_7102_cd19_bd75_0628_c918_91b1_929b_0041_7d85_a972_d5bd_b784_0000_0000_0000_0000_0000_0000_0000_0000nat);
    lemma_power_known(
        0x3eb3_fc15, 0xb3_fc15, 124, 0x4_0000_0000_0000_0000_0000_0000_0000_0000nat,
        174025, 0x12_b94e_2ee6_ee19,
        0x15e_9520_b023_dcf5_071d_ae5e_7e71nat,
        269025, 0x45_2c59_9066_9ca1,
        0x12b0_eff6_c049_6d6d_d948_5020_9d41nat,
        0x1_fa29_f38d_7691, 0x3_e8c9_ddab_23bb_0bb5_18a3_fe21nat,
        0x1_fa29_f92d_5739, 0x3_e8c9_f3e8_ffdc_7ff6_a9c1_cab1nat,
    );
}

/// Code 161.
proof fn lemma_entry_161()
    ensures
        nearest_to_power(0x3eb6_7a14, 175025, 269025),
{
    lemma_fifth_powers_of_two();
    assert(175025nat * 175025 * 175025 == 0x13_0c69_9711_fe11);
    assert(0x13_0c69_9711_fe11 * 0x13_0c69_9711_fe11 == 0x16a_d846_7e62_ac40_3ced_c867_bd21nat);
    assert(0x16c_f427 * 0x16c_f427 == 0x2_0847_37c2_5df1);
    assert(0x2_0847_37c2_5df1 * 0x2_0847_37c2_5df1 == 0x4_2161_6655_9798_439e_11bc_fce1nat);
    assert(0x16c_f429 * 0x16c_f429 == 0x2_0847_3d76_2e91);
    assert(0x2_0847_3d76_2e91 * 0x2_0847_3d76_2e91 == 0x4_2161_7d83_437c_6d2e_1024_6e21nat);
    assert(269025nat * 269025 * 269025 == 0x45_2c59_9066_9ca1);
    assert(0x45_2c59_9066_9ca1 * 0x45_2c59_9066_9ca1 == 0x12b0_eff6_c049_6d6d_d948_5020_9d41nat);
    assert(0x12b0_eff6_c049_6d6d_d948_5020_9d41nat * 0x12b0_eff6_c049_6d6d_d948_5020_9d41nat == 0x15d_5c09_8741_6139_2178_92b9_bce5_5f46_89a2_dd05_b95f_0d00_50d8_ca81nat);
    assert(0x16a_d846_7e62_ac40_3ced_c867_bd21nat * 0x16a_d846_7e62_ac40_3ced_c867_bd21nat == 0x2_0248_5e14_77bf_04b4_3204_eaaa_a288_b655_3614_361d_e8a7_4c47_be41nat);
    assert(0x4_2161_6655_9798_439e_11bc_fce1nat * 0x16c_f427 == 0x5e3_66ef_6d13_b807_5d66_2eb4_64bc_fa47nat);
    assert(0x4_2161_7d83_437c_6d2e_1024_6e21nat * 0x16c_f429 == 0x5e3_6718_bae2_2b43_a47c_578f_e5b9_1749nat);
    assert(0x5e3_66ef_6d13_b807_5d66_2eb4_64bc_fa47nat * 0x15d_5c09_8741_6139_2178_92b9_bce5_5f46_89a2_dd05_b95f_0d00_50d8_ca81nat == 0x8_0921_4580_c9c1_ad96_440f_1f39_0d2d_5b45_ef1b_d346_48b9_15dc_a3d5_83ee_2bb4_7757_92b7_4116_890d_3c9e_23c7nat);
    assert(0x5e3_6718_bae2_2b43_a47c_578f_e5b9_1749nat * 0x15d_5c09_8741_6139_2178_92b9_bce5_5f46_89a2_dd05_b95f_0d00_50d8_ca81nat == 0x8_0921_7dde_b5b4_8703_33d2_47d6_3472_9fef_0e8c_63ff_4b5e_2d18_3150_73f0_f8b9_2559_9ac1_a439_0b39_443c_55c9nat);
    assert(0x2_0248_5e14_77bf_04b4_3204_eaaa_a288_b655_3614_361d_e8a7_4c47_be41nat * 0x4_0000_0000_0000_0000_0000_0000_0000_0000nat == 0x8_0921_7851_defc_12d0_c813_aaaa_8a22_d954_d850_d877_a29d_311e_f904_0000_0000_0000_0000_0000_0000_0000_0000nat);
    lemma_power_known(
        0x3eb6_7a14, 0xb6_7a14, 124, 0x4_0000_0000_0000_0000_0000_0000_0000_0000nat,
        175025, 0x13_0c69_9711_fe11,
        0x16a_d846_7e62_ac40_3ced_c867_bd21nat,
        269025, 0x45_2c59_9066_9ca1,
        0x12b0_eff6_c049_6d6d_d948_5020_9d41nat,
        0x2_0847_37c2_5df1, 0x4_2161_6655_9798_439e_11bc_fce1nat,
        0x2_0847_3d76_2e91, 0x4_2161_7d83_437c_6d2e_1024_6e21nat,
    );
}

/// Code 162.
proof fn lemma_entry_162()
    ensures
        nearest_to_power(0x3eb8_fd34, 176025, 269025),
{
    lemma_fifth_powers_of_two();
    assert(176025nat * 176025 * 176025 == 0x13_6079_810e_6389);
    assert(0x13_6079_810e_6389 * 0x13_6079_810e_6389 == 0x177_7664_8298_d1a6_58a1_1baf_3f51nat);
    assert(0x171_fa67 * 0x171_fa67 == 0x2_16b3_d1db_5571);
    assert(0x2_16b3_d1db_5571 * 0x2_16b3_d1db_5571 == 0x4_5cd2_adce_2d34_c573_cdda_3be1nat);
    assert(0x171_fa69 * 0x171_fa69 == 0x2_16b3_d7a3_3f11);
    assert(0x2_16b3_d7a3_3f11 * 0x2_16b3_d7a3_3f11 == 0x4_5cd2_c5f4_4f08_b9cd_ed2f_5f21nat);
    assert(269025nat * 269025 * 269025 == 0x45_2c59_9066_9ca1);
    assert(0x45_2c59_9066_9ca1 * 0x45_2c59_9066_9ca1 == 0x12b0_eff6_c049_6d6d_d948_5020_9d41nat);
    assert(0x12b0_eff6_c049_6d6d_d948_5020_9d41nat * 0x12b0_eff6_c049_6d6d_d948_5020_9d41nat == 0x15d_5c09_8741_6139_2178_92b9_bce5_5f46_89a2_dd05_b95f_0d00_50d8_ca81nat);
    assert(0x177_7664_8298_d1a6_58a1_1baf_3f51nat * 0x177_7664_8298_d1a6_58a1_1baf_3f51nat == 0x2_26ac_1137_6b91_60a0_5bcf_720c_96d3_1e84_a944_afff_c334_b666_f7a1nat);
    assert(0x4_5cd2_adce_2d34_c573_cdda_3be1nat * 0x171_fa67 == 0x64e_1013_9cae_6f2a_54fa_402f_4098_d187nat);
    assert(0x4_5cd2_c5f4_4f08_b9cd_ed2f_5f21nat * 0x171_fa69 == 0x64e_103f_3ce9_b1f6_c1da_305e_a9e5_3e89nat);
    assert(0x64e_1013_9cae_6f2a_54fa_402f_4098_d187nat * 0x15d_5c09_8741_6139_2178_92b9_bce5_5f46_89a2_dd05_b95f_0d00_50d8_ca81nat == 0x8_9ab0_3496_fd7e_27b1_c81d_1c6d_58d4_8e60_5a4c_4a12_8337_6e1d_d8d1_b65d_e96f_50a8_c3a2_478a_be33_1c3e_1b07nat);
    assert(0x64e_103f_3ce9_b1f6_c1da_305e_a9e5_3e89nat * 0x15d_5c09_8741_6139_2178_92b9_bce5_5f46_89a2_dd05_b95f_0d00_50d8_ca81nat == 0x8_9ab0_7020_1d7d_331c_8670_7447_333d_daf0_3c03_a7d3_1c68_8eff_5f67_f687_7400_e97c_2415_1818_03ba_1374_9d09nat);
    assert(0x2_26ac_1137_6b91_60a0_5bcf_720c_96d3_1e84_a944_afff_c334_b666_f7a1nat * 0x4_0000_0000_0000_0000_0000_0000_0000_0000nat == 0x8_9ab0_44dd_ae45_8281_6f3d_c832_5b4c_7a12_a512_bfff_0cd2_d99b_de84_0000_0000_0000_0000_0000_0000_0000_0000nat);
    lemma_power_known(
        0x3eb8_fd34, 0xb8_fd34, 124, 0x4_0000_0000_0000_0000_0000_0000_0000_0000nat,
        176025, 0x13_6079_810e_6389,
        0x177_7664_8298_d1a6_58a1_1baf_3f51nat,
        269025, 0x45_2c59_9066_9ca1,
        0x12b0_eff6_c049_6d6d_d948_5020_9d41nat,
        0x2_16b3_d1db_5571, 0x4_5cd2_adce_2d34_c573_cdda_3be1nat,
        0x2_16b3_d7a3_3f11, 0x4_5cd2_c5f4_4f08_b9cd_ed2f_5f21nat,
    );
}

/// Code 163.
proof fn lemma_entry_163()
    ensures
        nearest_to_power(0x3ebb_8576, 177025, 269025),
{
    lemma_fifth_powers_of_two();
    assert(177025nat * 177025 * 177025 == 0x13_b57f_527c_da81);
    assert(0x13_b57f_527c_da81 * 0x13_b57f_527c_da81 == 0x184_7193_887f_ee95_6edd_0b77_f501nat);
    assert(0x177_0aeb * 0x177_0aeb == 0x2_2570_fcf1_33b9);
    assert(0x2_2570_fcf1_33b9 * 0x2_2570_fcf1_33b9 == 0x4_9b3d_cec0_d4d0_7cf6_a4c5_3bb1nat);
    assert(0x177_0aed * 0x177_0aed == 0x2_2571_02cd_5f69);
    assert(0x2_2571_02cd_5f69 * 0x2_2571_02cd_5f69 == 0x4_9b3d_e7e8_548e_6ef1_95b9_1911nat);
    assert(269025nat * 269025 * 269025 == 0x45_2c59_9066_9ca1);
    assert(0x45_2c59_9066_9ca1 * 0x45_2c59_9066_9ca1 == 0x12b0_eff6_c049_6d6d_d948_5020_9d41nat);
    assert(0x12b0_eff6_c049_6d6d_d948_5020_9d41nat * 0x12b0_eff6_c049_6d6d_d948_5020_9d41nat == 0x15d_5c09_8741_6139_2178_92b9_bce5_5f46_89a2_dd05_b95f_0d00_50d8_ca81nat);
    assert(0x184_7193_887f_ee95_6edd_0b77_f501nat * 0x184_7193_887f_ee95_6edd_0b77_f501nat == 0x2_4d68_7999_5752_314c_26f4_9602_c9f4_5521_40e6_f357_66fd_c768_ea01nat);
    assert(0x4_9b3d_cec0_d4d0_7cf6_a4c5_3bb1nat * 0x177_0aeb == 0x6bf_99d4_c848_10ba_8d8f_b5c3_65a9_b57bnat);
    assert(0x4_9b3d_e7e8_548e_6ef1_95b9_1911nat * 0x177_0aed == 0x6bf_9a02_d8b2_a208_5c14_77a4_8f3d_debdnat);
    assert(0x6bf_99d4_c848_10ba_8d8f_b5c3_65a9_b57bnat * 0x15d_5c09_8741_6139_2178_92b9_bce5_5f46_89a2_dd05_b95f_0d00_50d8_ca81nat == 0x9_35a1_d2aa_ae09_1e58_3a3e_a5e3_ca15_b0cd_b323_c701_4651_714a_bd44_6afc_6fe3_502f_0074_0155_d495_b37f_80fbnat);
    assert(0x6bf_9a02_d8b2_a208_5c14_77a4_8f3d_debdnat * 0x15d_5c09_8741_6139_2178_92b9_bce5_5f46_89a2_dd05_b95f_0d00_50d8_ca81nat == 0x9_35a2_1187_9eee_6bcd_b35d_e973_51eb_aa3c_6dc6_3c36_9aa8_9e44_f2ce_142f_186a_2373_116a_4dc6_edc1_ff66_5f3dnat);
    assert(0x2_4d68_7999_5752_314c_26f4_9602_c9f4_5521_40e6_f357_66fd_c768_ea01nat * 0x4_0000_0000_0000_0000_0000_0000_0000_0000nat == 0x9_35a1_e665_5d48_c530_9bd2_580b_27d1_5485_039b_cd5d_9bf7_1da3_a804_0000_0000_0000_0000_0000_0000_0000_0000nat);
    lemma_power_known(
        0x3ebb_8576, 0xbb_8576, 124, 0x4_0000_0000_0000_0000_0000_0000_0000_0000nat,
        177025, 0x13_b57f_527c_da81,
        0x184_7193_887f_ee95_6edd_0b77_f501nat,
        269025, 0x45_2c59_9066_9ca1,
        0x12b0_eff6_c049_6d6d_d948_5020_9d41nat,
        0x2_2570_fcf1_33b9, 0x4_9b3d_cec0_d4d0_7cf6_a4c5_3bb1nat,
        0x2_2571_02cd_5f69, 0x4_9b3d_e7e8_548e_6ef1_95b9_1911nat,
    );
}

/// Code 164.
proof fn lemma_entry_164()
    ensures
        nearest_to_power(0x3ebe_12de, 178025, 269025),
{
    lemma_fifth_powers_of_two();
    assert(178025nat * 178025 * 178025 == 0x14_0b7c_70fe_1ef9);
    assert(0x14_0b7c_70fe_1ef9 * 0x14_0b7c_70fe_1ef9 == 0x191_cbf5_95e8_559e_be93_59db_4e31nat);
    assert(0x17c_25bb * 0x17c_25bb == 0x2_3480_08b7_9699);
    assert(0x2_3480_08b7_9699 * 0x2_3480_08b7_9699 == 0x4_dcc4_6671_a774_be12_3755_a771nat);
    assert(0x17c_25bd * 0x17c_25bd == 0x2_3480_0ea8_2d89);
    assert(0x2_3480_0ea8_2d89 * 0x2_3480_0ea8_2d89 == 0x4_dcc4_80a3_b1a8_0476_c7e9_7351nat);
    assert(269025nat * 269025 * 269025 == 0x45_2c59_9066_9ca1);
    assert(0x45_2c59_9066_9ca1 * 0x45_2c59_9066_9ca1 == 0x12b0_eff6_c049_6d6d_d948_5020_9d41nat);
    assert(0x12b0_eff6_c049_6d6d_d948_5020_9d41nat * 0x12b0_eff6_c049_6d6d_d948_5020_9d41nat == 0x15d_5c09_8741_6139_2178_92b9_bce5_5f46_89a2_dd05_b95f_0d00_50d8_ca81nat);
    assert(0x191_cbf5_95e8_559e_be93_59db_4e31nat * 0x191_cbf5_95e8_559e_be93_59db_4e31nat == 0x2_76a0_99df_0932_f996_f43c_0dca_7ff1_2bba_5da2_e7f2_c082_f1b7_e561nat);
    assert(0x4_dcc4_6671_a774_be12_3755_a771nat * 0x17c_25bb == 0x738_6afd_b6f9_d383_54c9_9c72_5880_a48bnat);
    assert(0x4_dcc4_80a3_b1a8_0476_c7e9_7351nat * 0x17c_25bd == 0x738_6b2e_56a6_56ee_1201_351d_8140_d7cdnat);
    assert(0x738_6afd_b6f9_d383_54c9_9c72_5880_a48bnat * 0x15d_5c09_8741_6139_2178_92b9_bce5_5f46_89a2_dd05_b95f_0d00_50d8_ca81nat == 0x9_da82_6721_fbbf_83cb_0e1c_59a7_d70f_b106_0786_98ed_2c00_977a_2822_e725_9667_0ef2_93ef_961c_fe6a_5ff0_980bnat);
    assert(0x738_6b2e_56a6_56ee_1201_351d_8140_d7cdnat * 0x15d_5c09_8741_6139_2178_92b9_bce5_5f46_89a2_dd05_b95f_0d00_50d8_ca81nat == 0x9_da82_a97d_251f_f938_f91d_0b63_4afb_4f38_6c7f_2764_6402_5c80_4bcc_9bdc_64b7_8640_bc5e_94d6_c701_70ec_804dnat);
    assert(0x2_76a0_99df_0932_f996_f43c_0dca_7ff1_2bba_5da2_e7f2_c082_f1b7_e561nat * 0x4_0000_0000_0000_0000_0000_0000_0000_0000nat == 0x9_da82_677c_24cb_e65b_d0f0_3729_ffc4_aee9_768b_9fcb_020b_c6df_9584_0000_0000_0000_0000_0000_0000_0000_0000nat);
    lemma_power_known(
        0x3ebe_12de, 0xbe_12de, 124, 0x4_0000_0000_0000_0000_0000_0000_0000_0000nat,
        178025, 0x14_0b7c_70fe_1ef9,
        0x191_cbf5_95e8_559e_be93_59db_4e31nat,
        269025, 0x45_2c59_9066_9ca1,
        0x12b0_eff6_c049_6d6d_d948_5020_9d41nat,
        0x2_3480_08b7_9699, 0x4_dcc4_6671_a774_be12_3755_a771nat,
        0x2_3480_0ea8_2d89, 0x4_dcc4_80a3_b1a8_0476_c7e9_7351nat,
    );
}

/// Code 165.
proof fn lemma_entry_165()
    ensures
        nearest_to_power(0x3ec0_a56e, 179025, 269025),
{
    lemma_fifth_powers_of_two();
    assert(179025nat * 179025 * 179025 == 0x14_6272_4232_ecf1);
    assert(0x14_6272_4232_ecf1 * 0x14_6272_4232_ecf1 == 0x19f_87b6_05a3_0989_d6f1_ad71_3ae1nat);
    assert(0x181_4adb * 0x181_4adb == 0x2_43e2_3c99_5759);
    assert(0x2_43e2_3c99_5759 * 0x2_43e2_3c99_5759 == 0x5_2189_260c_ae33_0bef_3e2f_9cf1nat);
    assert(0x181_4add * 0x181_4add == 0x2_43e2_429e_82c9);
    assert(0x2_43e2_429e_82c9 * 0x2_43e2_429e_82c9 == 0x5_2189_4152_b4ce_3e79_56ec_c1d1nat);
    assert(269025nat * 269025 * 269025 == 0x45_2c59_9066_9ca1);
    assert(0x45_2c59_9066_9ca1 * 0x45_2c59_9066_9ca1 == 0x12b0_eff6_c049_6d6d_d948_5020_9d41nat);
    assert(0x12b0_eff6_c049_6d6d_d948_5020_9d41nat * 0x12b0_eff6_c049_6d6d_d948_5020_9d41nat == 0x15d_5c09_8741_6139_2178_92b9_bce5_5f46_89a2_dd05_b95f_0d00_50d8_ca81nat);
    assert(0x19f_87b6_05a3_0989_d6f1_ad71_3ae1nat * 0x19f_87b6_05a3_0989_d6f1_ad71_3ae1nat == 0x2_a279_4817_c1f6_e4e7_9a75_61f5_1275_11c0_4ffc_29f5_434b_222c_b9c1nat);
    assert(0x5_2189_260c_ae33_0bef_3e2f_9cf1nat * 0x181_4adb == 0x7b8_ef57_8e65_31f8_b9ea_e33e_fc89_ec2bnat);
    assert(0x5_2189_4152_b4ce_3e79_56ec_c1d1nat * 0x181_4add == 0x7b8_ef8a_ddc1_36d5_a896_bbef_f5ba_bb6dnat);
    assert(0x7b8_ef57_8e65_31f8_b9ea_e33e_fc89_ec2bnat * 0x15d_5c09_8741_6139_2178_92b9_bce5_5f46_89a2_dd05_b95f_0d00_50d8_ca81nat == 0xa_89e5_09f5_8050_3ccc_103d_33b1_c4ba_f987_f9be_1235_fb9d_4dde_b145_8a33_cbf8_ba95_07c0_2aaf_932e_ca21_efabnat);
    assert(0x7b8_ef8a_ddc1_36d5_a896_bbef_f5ba_bb6dnat * 0x15d_5c09_8741_6139_2178_92b9_bce5_5f46_89a2_dd05_b95f_0d00_50d8_ca81nat == 0xa_89e5_4ffb_2330_d5ed_2b80_bf8f_30d2_e045_804f_6132_8a3d_2aec_2984_d83b_0f84_fb2e_a5f3_4179_44f0_5ef4_73ednat);
    assert(0x2_a279_4817_c1f6_e4e7_9a75_61f5_1275_11c0_4ffc_29f5_434b_222c_b9c1nat * 0x4_0000_0000_0000_0000_0000_0000_0000_0000nat == 0xa_89e5_205f_07db_939e_69d5_87d4_49d4_4701_3ff0_a7d5_0d2c_88b2_e704_0000_0000_0000_0000_0000_0000_0000_0000nat);
    lemma_power_known(
        0x3ec0_a56e, 0xc0_a56e, 124, 0x4_0000_0000_0000_0000_0000_0000_0000_0000nat,
        179025, 0x14_6272_4232_ecf1,
        0x19f_87b6_05a3_0989_d6f1_ad71_3ae1nat,
        269025, 0x45_2c59_9066_9ca1,
        0x12b0_eff6_c049_6d6d_d948_5020_9d41nat,
        0x2_43e2_3c99_5759, 0x5_2189_260c_ae33_0bef_3e2f_9cf1nat,
        0x2_43e2_429e_82c9, 0x5_2189_4152_b4ce_3e79_56ec_c1d1nat,
    );
}

/// Code 166.
proof fn lemma_entry_166()
    ensures
        nearest_to_power(0x3ec3_3d2a, 180025, 269025),
{
    lemma_fifth_powers_of_two();
    assert(180025nat * 180025 * 180025 == 0x14_ba62_2bbc_0069);
    assert(0x14_ba62_2bbc_0069 * 0x14_ba62_2bbc_0069 == 0x1ad_a709_a292_c469_9697_e038_2b11nat);
    assert(0x186_7a53 * 0x186_7a53 == 0x2_5398_ef57_36e9);
    assert(0x2_5398_ef57_36e9 * 0x2_5398_ef57_36e9 == 0x5_69b0_43ec_8094_40ed_6c25_2011nat);
    assert(0x186_7a55 * 0x186_7a55 == 0x2_5398_f571_2039);
    assert(0x2_5398_f571_2039 * 0x2_5398_f571_2039 == 0x5_69b0_6050_3d70_f35a_9060_4cb1nat);
    assert(269025nat * 269025 * 269025 == 0x45_2c59_9066_9ca1);
    assert(0x45_2c59_9066_9ca1 * 0x45_2c59_9066_9ca1 == 0x12b0_eff6_c049_6d6d_d948_5020_9d41nat);
    assert(0x12b0_eff6_c049_6d6d_d948_5020_9d41nat * 0x12b0_eff6_c049_6d6d_d948_5020_9d41nat == 0x15d_5c09_8741_6139_2178_92b9_bce5_5f46_89a2_dd05_b95f_0d00_50d8_ca81nat);
    assert(0x1ad_a709_a292_c469_9697_e038_2b11nat * 0x1ad_a709_a292_c469_9697_e038_2b11nat == 0x2_d119_4348_725e_9bb4_5fa6_7b31_3a45_7c46_e845_750f_11be_9eae_b721nat);
    assert(0x5_69b0_43ec_8094_40ed_6c25_2011nat * 0x186_7a53 == 0x841_98a6_bed0_9ccf_40b4_f312_9b37_7f83nat);
    assert(0x5_69b0_6050_3d70_f35a_9060_4cb1nat * 0x186_7a55 == 0x841_98dc_dfb3_d1fe_f671_e894_aa2b_d0c5nat);
    assert(0x841_98a6_bed0_9ccf_40b4_f312_9b37_7f83nat * 0x15d_5c09_8741_6139_2178_92b9_bce5_5f46_89a2_dd05_b95f_0d00_50d8_ca81nat == 0xb_4464_fcd9_201f_d7b8_2e78_c501_7310_7252_733a_0de0_8da1_dee7_1e24_f05a_333d_696b_ed50_1946_2086_881c_9f03nat);
    assert(0x841_98dc_dfb3_d1fe_f671_e894_aa2b_d0c5nat * 0x15d_5c09_8741_6139_2178_92b9_bce5_5f46_89a2_dd05_b95f_0d00_50d8_ca81nat == 0xb_4465_46b7_6bb4_c207_ae57_ea9c_a566_e710_37d3_5d53_787f_b981_2c72_5525_2e26_b027_0a58_d33d_c866_0907_a545nat);
    assert(0x2_d119_4348_725e_9bb4_5fa6_7b31_3a45_7c46_e845_750f_11be_9eae_b721nat * 0x4_0000_0000_0000_0000_0000_0000_0000_0000nat == 0xb_4465_0d21_c97a_6ed1_7e99_ecc4_e915_f11b_a115_d43c_46fa_7aba_dc84_0000_0000_0000_0000_0000_0000_0000_0000nat);
    lemma_power_known(
        0x3ec3_3d2a, 0xc3_3d2a, 124, 0x4_0000_0000_0000_0000_0000_0000_0000_0000nat,
        180025, 0x14_ba62_2bbc_0069,
        0x1ad_a709_a292_c469_9697_e038_2b11nat,
        269025, 0x45_2c59_9066_9ca1,
        0x12b0_eff6_c049_6d6d_d948_5020_9d41nat,
        0x2_5398_ef57_36e9, 0x5_69b0_43ec_8094_40ed_6c25_2011nat,
        0x2_5398_f571_2039, 0x5_69b0_6050_3d70_f35a_9060_4cb1nat,
    );
}

/// Code 167.
proof fn lemma_entry_167()
    ensures
        nearest_to_power(0x3ec5_da14, 181025, 269025),
{
    lemma_fifth_powers_of_two();
    assert(181025nat * 181025 * 181025 == 0x15_134d_933a_1561);
    assert(0x15_134d_933a_1561 * 0x15_134d_933a_1561 == 0x1bc_2c2e_c2e4_06b3_0415_17bd_0ec1nat);
    assert(0x18b_b427 * 0x18b_b427 == 0x2_63a5_6f20_ddf1);
    assert(0x2_63a5_6f20_ddf1 * 0x2_63a5_6f20_ddf1 == 0x5_b55f_1b5f_5408_0359_3aa9_fce1nat);
    assert(0x18b_b429 * 0x18b_b429 == 0x2_63a5_754f_ae91);
    assert(0x2_63a5_754f_ae91 * 0x2_63a5_754f_ae91 == 0x5_b55f_38ea_c9c1_1b47_be87_6e21nat);
    assert(269025nat * 269025 * 269025 == 0x45_2c59_9066_9ca1);
    assert(0x45_2c59_9066_9ca1 * 0x45_2c59_9066_9ca1 == 0x12b0_eff6_c049_6d6d_d948_5020_9d41nat);
    assert(0x12b0_eff6_c049_6d6d_d948_5020_9d41nat * 0x12b0_eff6_c049_6d6d_d948_5020_9d41nat == 0x15d_5c09_8741_6139_2178_92b9_bce5_5f46_89a2_dd05_b95f_0d00_50d8_ca81nat);
    assert(0x1bc_2c2e_c2e4_06b3_0415_17bd_0ec1nat * 0x1bc_2c2e_c2e4_06b3_0415_17bd_0ec1nat == 0x3_02a9_49d4_2280_3d94_802a_50c4_d168_2b27_8556_7d93_f7ef_77d3_ad81nat);
    assert(0x5_b55f_1b5f_5408_0359_3aa9_fce1nat * 0x18b_b427 == 0x8d2_de24_bcd2_daf8_9a40_c420_a4de_ba47nat);
    assert(0x5_b55f_38ea_c9c1_1b47_be87_6e21nat * 0x18b_b429 == 0x8d2_de5d_d28a_806b_2ece_cb6b_aa0a_d749nat);
    assert(0x8d2_de24_bcd2_daf8_9a40_c420_a4de_ba47nat * 0x15d_5c09_8741_6139_2178_92b9_bce5_5f46_89a2_dd05_b95f_0d00_50d8_ca81nat == 0xc_0aa4_f3fd_e2a4_9433_2fbe_3ccb_9a0f_7593_afc4_2f91_719a_4b6a_bdcf_6166_a175_014d_9ef3_4343_e7ae_2f1f_e3c7nat);
    assert(0x8d2_de5d_d28a_806b_2ece_cb6b_aa0a_d749nat * 0x15d_5c09_8741_6139_2178_92b9_bce5_5f46_89a2_dd05_b95f_0d00_50d8_ca81nat == 0xc_0aa5_41e5_03ef_0d59_bda0_c261_4f9e_3877_709a_d6a9_1545_4d89_8899_68bb_8b73_009c_07a8_3cb8_06d9_b2ee_15c9nat);
    assert(0x3_02a9_49d4_2280_3d94_802a_50c4_d168_2b27_8556_7d93_f7ef_77d3_ad81nat * 0x4_0000_0000_0000_0000_0000_0000_0000_0000nat == 0xc_0aa5_2750_8a00_f652_00a9_4313_45a0_ac9e_1559_f64f_dfbd_df4e_b604_0000_0000_0000_0000_0000_0000_0000_0000nat);
    lemma_power_known(
        0x3ec5_da14, 0xc5_da14, 124, 0x4_0000_0000_0000_0000_0000_0000_0000_0000nat,
        181025, 0x15_134d_933a_1561,
        0x1bc_2c2e_c2e4_06b3_0415_17bd_0ec1nat,
        269025, 0x45_2c59_9066_9ca1,
        0x12b0_eff6_c049_6d6d_d948_5020_9d41nat,
        0x2_63a5_6f20_ddf1, 0x5_b55f_1b5f_5408_0359_3aa9_fce1nat,
        0x2_63a5_754f_ae91, 0x5_b55f_38ea_c9c1_1b47_be87_6e21nat,
    );
}

/// Code 168.
proof fn lemma_entry_168()
    ensures
        nearest_to_power(0x3ec8_7c30, 182025, 269025),
{
    lemma_fifth_powers_of_two();
    assert(182025nat * 182025 * 182025 == 0x15_6d35_de4d_e7d9);
    assert(0x15_6d35_de4d_e7d9 * 0x15_6d35_de4d_e7d9 == 0x1cb_196d_636c_2e55_ffab_a683_55f1nat);
    assert(0x190_f85f * 0x190_f85f == 0x2_7409_19d8_3341);
    assert(0x2_7409_19d8_3341 * 0x2_7409_19d8_3341 == 0x6_04bc_a71f_8f46_732b_39f2_f681nat);
    assert(0x190_f861 * 0x190_f861 == 0x2_7409_201c_14c1);
    assert(0x2_7409_201c_14c1 * 0x2_7409_201c_14c1 == 0x6_04bc_c5dd_0bd3_65d6_cbe6_b981nat);
    assert(269025nat * 269025 * 269025 == 0x45_2c59_9066_9ca1);
    assert(0x45_2c59_9066_9ca1 * 0x45_2c59_9066_9ca1 == 0x12b0_eff6_c049_6d6d_d948_5020_9d41nat);
    assert(0x12b0_eff6_c049_6d6d_d948_5020_9d41nat * 0x12b0_eff6_c049_6d6d_d948_5020_9d41nat == 0x15d_5c09_8741_6139_2178_92b9_bce5_5f46_89a2_dd05_b95f_0d00_50d8_ca81nat);
    assert(0x1cb_196d_636c_2e55_ffab_a683_55f1nat * 0x1cb_196d_636c_2e55_ffab_a683_55f1nat == 0x3_3754_30c9_1217_1a2b_ec3f_fe59_2139_cbae_1843_3303_84cb_9d7f_ece1nat);
    assert(0x6_04bc_a71f_8f46_732b_39f2_f681nat * 0x190_f85f == 0x96d_3d97_a538_7596_5e41_28cf_0986_71dfnat);
    assert(0x6_04bc_c5dd_0bd3_65d6_cbe6_b981nat * 0x190_f861 == 0x96d_3dd3_d497_9685_6560_446c_9fb1_41e1nat);
    assert(0x96d_3d97_a538_7596_5e41_28cf_0986_71dfnat * 0x15d_5c09_8741_6139_2178_92b9_bce5_5f46_89a2_dd05_b95f_0d00_50d8_ca81nat == 0xc_dd50_93b0_eb79_81c3_1640_419f_aa24_cd80_23d2_0da7_a887_08c6_44c2_4f3a_d6e2_ba64_bbe5_473c_4ddd_a6c1_575fnat);
    assert(0x96d_3dd3_d497_9685_6560_446c_9fb1_41e1nat * 0x15d_5c09_8741_6139_2178_92b9_bce5_5f46_89a2_dd05_b95f_0d00_50d8_ca81nat == 0xc_dd50_e5d3_236d_0e27_e786_3509_10ea_ac47_d6d2_55e3_3d8d_0a38_0def_64bd_8bae_724b_1fb5_c4e5_bfe4_3c25_bc61nat);
    assert(0x3_3754_30c9_1217_1a2b_ec3f_fe59_2139_cbae_1843_3303_84cb_9d7f_ece1nat * 0x4_0000_0000_0000_0000_0000_0000_0000_0000nat == 0xc_dd50_c324_485c_68af_b0ff_f964_84e7_2eb8_610c_cc0e_132e_75ff_b384_0000_0000_0000_0000_0000_0000_0000_0000nat);
    lemma_power_known(
        0x3ec8_7c30, 0xc8_7c30, 124, 0x4_0000_0000_0000_0000_0000_0000_0000_0000nat,
        182025, 0x15_6d35_de4d_e7d9,
        0x1cb_196d_636c_2e55_ffab_a683_55f1nat,
        269025, 0x45_2c59_9066_9ca1,
        0x12b0_eff6_c049_6d6d_d948_5020_9d41nat,
        0x2_7409_19d8_3341, 0x6_04bc_a71f_8f46_732b_39f2_f681nat,
        0x2_7409_201c_14c1, 0x6_04bc_c5dd_0bd3_65d6_cbe6_b981nat,
    );
}

/// Code 169.
proof fn lemma_entry_169()
    ensures
        nearest_to_power(0x3ecb_2380, 183025, 269025),
{
    lemma_fifth_powers_of_two();
    assert(183025nat * 183025 * 183025 == 0x15_c81c_7298_33d1);
    assert(0x15_c81c_7298_33d1 * 0x15_c81c_7298_33d1 == 0x1da_7117_432f_95d7_ce5b_b6ac_f0a1nat);
    assert(0x196_46ff * 0x196_46ff == 0x2_84c5_4484_7201);
    assert(0x2_84c5_4484_7201 * 0x2_84c5_4484_7201 == 0x6_57f1_18bc_e3c3_1ea0_4bcc_e401nat);
    assert(0x196_4701 * 0x196_4701 == 0x2_84c5_4add_8e01);
    assert(0x2_84c5_4add_8e01 * 0x2_84c5_4add_8e01 == 0x6_57f1_38b7_0156_6b61_107f_1c01nat);
    assert(269025nat * 269025 * 269025 == 0x45_2c59_9066_9ca1);
    assert(0x45_2c59_9066_9ca1 * 0x45_2c59_9066_9ca1 == 0x12b0_eff6_c049_6d6d_d948_5020_9d41nat);
    assert(0x12b0_eff6_c049_6d6d_d948_5020_9d41nat * 0x12b0_eff6_c049_6d6d_d948_5020_9d41nat == 0x15d_5c09_8741_6139_2178_92b9_bce5_5f46_89a2_dd05_b95f_0d00_50d8_ca81nat);
    assert(0x1da_7117_432f_95d7_ce5b_b6ac_f0a1nat * 0x1da_7117_432f_95d7_ce5b_b6ac_f0a1nat == 0x3_6f46_fc1a_57a4_099f_8ddb_d721_4723_ff6c_828f_4cfe_896f_2686_4541nat);
    assert(0x6_57f1_18bc_e3c3_1ea0_4bcc_e401nat * 0x196_46ff == 0xa11_3aba_c17c_81e0_cbf3_8d57_2105_62ffnat);
    assert(0x6_57f1_38b7_0156_6b61_107f_1c01nat * 0x196_4701 == 0xa11_3afa_30e8_1924_450e_808a_bad9_6301nat);
    assert(0xa11_3aba_c17c_81e0_cbf3_8d57_2105_62ffnat * 0x15d_5c09_8741_6139_2178_92b9_bce5_5f46_89a2_dd05_b95f_0d00_50d8_ca81nat == 0xd_bd1b_a1a1_9d01_c75e_fba4_e58e_fbae_2080_643f_5b53_87ff_2c5c_9dd5_b55c_ad9e_c3ef_a911_b8be_7771_1afc_187fnat);
    assert(0xa11_3afa_30e8_1924_450e_808a_bad9_6301nat * 0x15d_5c09_8741_6139_2178_92b9_bce5_5f46_89a2_dd05_b95f_0d00_50d8_ca81nat == 0xd_bd1b_f833_5116_1774_c4bd_3fc2_734c_28f9_fde3_e410_4893_e384_492a_745a_2bf7_865c_5ce5_8d93_e0b3_8881_ad81nat);
    assert(0x3_6f46_fc1a_57a4_099f_8ddb_d721_4723_ff6c_828f_4cfe_896f_2686_4541nat * 0x4_0000_0000_0000_0000_0000_0000_0000_0000nat == 0xd_bd1b_f069_5e90_267e_376f_5c85_1c8f_fdb2_0a3d_33fa_25bc_9a19_1504_0000_0000_0000_0000_0000_0000_0000_0000nat);
    lemma_power_known(
        0x3ecb_2380, 0xcb_2380, 124, 0x4_0000_0000_0000_0000_0000_0000_0000_0000nat,
        183025, 0x15_c81c_7298_33d1,
        0x1da_7117_432f_95d7_ce5b_b6ac_f0a1nat,
        269025, 0x45_2c59_9066_9ca1,
        0x12b0_eff6_c049_6d6d_d948_5020_9d41nat,
        0x2_84c5_4484_7201, 0x6_57f1_18bc_e3c3_1ea0_4bcc_e401nat,
        0x2_84c5_4add_8e01, 0x6_57f1_38b7_0156_6b61_107f_1c01nat,
    );
}

/// Code 170.
proof fn lemma_entry_170()
    ensures
        nearest_to_power(0x3ecd_d008, 184025, 269025),
{
    lemma_fifth_powers_of_two();
    assert(184025nat * 184025 * 184025 == 0x16_2402_b5b9_b549);
    assert(0x16_2402_b5b9_b549 * 0x16_2402_b5b9_b549 == 0x1ea_3587_ff0e_bb6f_7e34_bde2_4ed1nat);
    assert(0x19b_a00f * 0x19b_a00f == 0x2_95db_543c_c0e1);
    assert(0x2_95db_543c_c0e1 * 0x2_95db_543c_c0e1 == 0x6_af26_5cea_f7b3_d7f4_a2ca_45c1nat);
    assert(0x19b_a011 * 0x19b_a011 == 0x2_95db_5aab_4121);
    assert(0x2_95db_5aab_4121 * 0x2_95db_5aab_4121 == 0x6_af26_7e2c_9f72_b4d1_46a7_c641nat);
    assert(269025nat * 269025 * 269025 == 0x45_2c59_9066_9ca1);
    assert(0x45_2c59_9066_9ca1 * 0x45_2c59_9066_9ca1 == 0x12b0_eff6_c049_6d6d_d948_5020_9d41nat);
    assert(0x12b0_eff6_c049_6d6d_d948_5020_9d41nat * 0x12b0_eff6_c049_6d6d_d948_5020_9d41nat == 0x15d_5c09_8741_6139_2178_92b9_bce5_5f46_89a2_dd05_b95f_0d00_50d8_ca81nat);
    assert(0x1ea_3587_ff0e_bb6f_7e34_bde2_4ed1nat * 0x1ea_3587_ff0e_bb6f_7e34_bde2_4ed1nat == 0x3_aab0_f7cd_fc40_a013_5600_ff70_a463_0590_3c0a_259b_b157_db48_06a1nat);
    assert(0x6_af26_5cea_f7b3_d7f4_a2ca_45c1nat * 0x19b_a00f == 0xabf_6073_6a8d_fa50_a043_e7d1_f24d_b64fnat);
    assert(0x6_af26_7e2c_9f72_b4d1_46a7_c641nat * 0x19b_a011 == 0xabf_60b6_420e_41c6_939d_3d69_d767_ca51nat);
    assert(0xabf_6073_6a8d_fa50_a043_e7d1_f24d_b64fnat * 0x15d_5c09_8741_6139_2178_92b9_bce5_5f46_89a2_dd05_b95f_0d00_50d8_ca81nat == 0xe_aac3_aa69_cc71_48ec_206d_b36e_a896_b132_4283_d1be_333d_c348_13e1_3b38_71bc_c7d8_b242_3c93_3786_edab_33cfnat);
    assert(0xabf_60b6_420e_41c6_939d_3d69_d767_ca51nat * 0x15d_5c09_8741_6139_2178_92b9_bce5_5f46_89a2_dd05_b95f_0d00_50d8_ca81nat == 0xe_aac4_05a1_9e41_b2a0_87a4_b895_f2d8_2cff_90ef_5d68_fa32_5567_a0e3_a022_08e5_88c3_b6a5_3ba4_c219_7548_dcd1nat);
    assert(0x3_aab0_f7cd_fc40_a013_5600_ff70_a463_0590_3c0a_259b_b157_db48_06a1nat * 0x4_0000_0000_0000_0000_0000_0000_0000_0000nat == 0xe_aac3_df37_f102_804d_5803_fdc2_918c_1640_f028_966e_c55f_6d20_1a84_0000_0000_0000_0000_0000_0000_0000_0000nat);
    lemma_power_known(
        0x3ecd_d008, 0xcd_d008, 124, 0x4_0000_0000_0000_0000_0000_0000_0000_0000nat,
        184025, 0x16_2402_b5b9_b549,
        0x1ea_3587_ff0e_bb6f_7e34_bde2_4ed1nat,
        269025, 0x45_2c59_9066_9ca1,
        0x12b0_eff6_c049_6d6d_d948_5020_9d41nat,
        0x2_95db_543c_c0e1, 0x6_af26_5cea_f7b3_d7f4_a2ca_45c1nat,
        0x2_95db_5aab_4121, 0x6_af26_7e2c_9f72_b4d1_46a7_c641nat,
    );
}

/// Code 171.
proof fn lemma_entry_171()
    ensures
        nearest_to_power(0x3ed0_81ca, 185025, 269025),
{
    lemma_fifth_powers_of_two();
    assert(185025nat * 185025 * 185025 == 0x16_80ea_0d53_2841);
    assert(0x16_80ea_0d53_2841 * 0x16_80ea_0d53_2841 == 0x1fa_6925_2d9a_7024_23ed_ba7a_6081nat);
    assert(0x1a1_0393 * 0x1a1_0393 == 0x2_a74c_a4f2_c669);
    assert(0x2_a74c_a4f2_c669 * 0x2_a74c_a4f2_c669 == 0x7_0a87_a9f2_32ee_c0ca_404a_9711nat);
    assert(0x1a1_0395 * 0x1a1_0395 == 0x2_a74c_ab76_d4b9);
    assert(0x2_a74c_ab76_d4b9 * 0x2_a74c_ab76_d4b9 == 0x7_0a87_cc86_9dd3_a32f_f14e_edb1nat);
    assert(269025nat * 269025 * 269025 == 0x45_2c59_9066_9ca1);
    assert(0x45_2c59_9066_9ca1 * 0x45_2c59_9066_9ca1 == 0x12b0_eff6_c049_6d6d_d948_5020_9d41nat);
    assert(0x12b0_eff6_c049_6d6d_d948_5020_9d41nat * 0x12b0_eff6_c049_6d6d_d948_5020_9d41nat == 0x15d_5c09_8741_6139_2178_92b9_bce5_5f46_89a2_dd05_b95f_0d00_50d8_ca81nat);
    assert(0x1fa_6925_2d9a_7024_23ed_ba7a_6081nat * 0x1fa_6925_2d9a_7024_23ed_ba7a_6081nat == 0x3_e9c3_d227_cb52_359f_c048_62b2_3a9b_3b85_d9d0_4918_0395_9355_0101nat);
    assert(0x7_0a87_a9f2_32ee_c0ca_404a_9711nat * 0x1a1_0393 == 0xb78_4026_7669_6394_14cd_cc63_dd4a_f1c3nat);
    assert(0x7_0a87_cc86_9dd3_a32f_f14e_edb1nat * 0x1a1_0395 == 0xb78_406c_dfb6_b3f0_282f_9c4c_8d0a_6b05nat);
    assert(0xb78_4026_7669_6394_14cd_cc63_dd4a_f1c3nat * 0x15d_5c09_8741_6139_2178_92b9_bce5_5f46_89a2_dd05_b95f_0d00_50d8_ca81nat == 0xf_a70f_18c6_d94c_7c28_7b27_eed6_d19c_53f1_1c57_86ae_a302_a0ff_490e_c471_4c19_f40d_4d1d_f908_d4b8_920f_b143nat);
    assert(0xb78_406c_dfb6_b3f0_282f_9c4c_8d0a_6b05nat * 0x15d_5c09_8741_6139_2178_92b9_bce5_5f46_89a2_dd05_b95f_0d00_50d8_ca81nat == 0xf_a70f_78dd_b829_b9cb_1153_1c36_4f0b_2e52_9a84_e2b5_c56e_8d54_c4d0_3f51_d2ea_a743_1e34_7946_ad19_26e9_df85nat);
    assert(0x3_e9c3_d227_cb52_359f_c048_62b2_3a9b_3b85_d9d0_4918_0395_9355_0101nat * 0x4_0000_0000_0000_0000_0000_0000_0000_0000nat == 0xf_a70f_489f_2d48_d67f_0121_8ac8_ea6c_ee17_6741_2460_0e56_4d54_0404_0000_0000_0000_0000_0000_0000_0000_0000nat);
    lemma_power_known(
        0x3ed0_81ca, 0xd0_81ca, 124, 0x4_0000_0000_0000_0000_0000_0000_0000_0000nat,
        185025, 0x16_80ea_0d53_2841,
        0x1fa_6925_2d9a_7024_23ed_ba7a_6081nat,
        269025, 0x45_2c59_9066_9ca1,
        0x12b0_eff6_c049_6d6d_d948_5020_9d41nat,
        0x2_a74c_a4f2_c669, 0x7_0a87_a9f2_32ee_c0ca_404a_9711nat,
        0x2_a74c_ab76_d4b9, 0x7_0a87_cc86_9dd3_a32f_f14e_edb1nat,
    );
}

/// Code 172.
proof fn lemma_entry_172()
    ensures
        nearest_to_power(0x3ed3_38c9, 186025, 269025),
{
    lemma_fifth_powers_of_two();
    assert(186025nat * 186025 * 186025 == 0x16_ded3_df05_48b9);
    assert(0x16_ded3_df05_48b9 * 0x16_ded3_df05_48b9 == 0x20b_0e5e_7b0f_0eec_f1c4_39e2_95b1nat);
    assert(0x1a6_7191 * 0x1a6_7191 == 0x2_b91a_9c6d_5421);
    assert(0x2_b91a_9c6d_5421 * 0x2_b91a_9c6d_5421 == 0x7_6a41_ea8f_79e6_35ec_f7bf_ac41nat);
    assert(0x1a6_7193 * 0x1a6_7193 == 0x2_b91a_a307_1a69);
    assert(0x2_b91a_a307_1a69 * 0x2_b91a_a307_1a69 == 0x7_6a42_0e82_3313_2b28_2a77_7f11nat);
    assert(269025nat * 269025 * 269025 == 0x45_2c59_9066_9ca1);
    assert(0x45_2c59_9066_9ca1 * 0x45_2c59_9066_9ca1 == 0x12b0_eff6_c049_6d6d_d948_5020_9d41nat);
    assert(0x12b0_eff6_c049_6d6d_d948_5020_9d41nat * 0x12b0_eff6_c049_6d6d_d948_5020_9d41nat == 0x15d_5c09_8741_6139_2178_92b9_bce5_5f46_89a2_dd05_b95f_0d00_50d8_ca81nat);
    assert(0x20b_0e5e_7b0f_0eec_f1c4_39e2_95b1nat * 0x20b_0e5e_7b0f_0eec_f1c4_39e2_95b1nat == 0x4_2cb3_b6d9_47db_3bfc_3171_f734_9659_ead4_2e46_a83b_283d_760b_8461nat);
    assert(0x7_6a41_ea8f_79e6_35ec_f7bf_ac41nat * 0x1a6_7191 == 0xc3c_72c2_f062_218f_8dd2_8a89_e1bf_41d1nat);
    assert(0x7_6a42_0e82_3313_2b28_2a77_7f11nat * 0x1a6_7193 == 0xc3c_730d_16f5_fee7_ee44_83ca_97ba_77c3nat);
    assert(0xc3c_72c2_f062_218f_8dd2_8a89_e1bf_41d1nat * 0x15d_5c09_8741_6139_2178_92b9_bce5_5f46_89a2_dd05_b95f_0d00_50d8_ca81nat == 0x10_b2ce_a196_cd89_0b04_de48_b87d_e020_2bf6_6231_ed72_6363_1e32_78f5_d587_b49e_7f86_5743_bf31_768c_83a7_1451nat);
    assert(0xc3c_730d_16f5_fee7_ee44_83ca_97ba_77c3nat * 0x15d_5c09_8741_6139_2178_92b9_bce5_5f46_89a2_dd05_b95f_0d00_50d8_ca81nat == 0x10_b2cf_06c8_0dbd_7886_d2dc_fd47_fd84_8807_e64a_02d8_aa77_fe0c_7dc7_5c09_a50c_1a31_ee21_7750_7691_93fe_3743nat);
    assert(0x4_2cb3_b6d9_47db_3bfc_3171_f734_9659_ead4_2e46_a83b_283d_760b_8461nat * 0x4_0000_0000_0000_0000_0000_0000_0000_0000nat == 0x10_b2ce_db65_1f6c_eff0_c5c7_dcd2_5967_ab50_b91a_a0ec_a0f5_d82e_1184_0000_0000_0000_0000_0000_0000_0000_0000nat);
    lemma_power_known(
        0x3ed3_38c9, 0xd3_38c9, 124, 0x4_0000_0000_0000_0000_0000_0000_0000_0000nat,
        186025, 0x16_ded3_df05_48b9,
        0x20b_0e5e_7b0f_0eec_f1c4_39e2_95b1nat,
        269025, 0x45_2c59_9066_9ca1,
        0x12b0_eff6_c049_6d6d_d948_5020_9d41nat,
        0x2_b91a_9c6d_5421, 0x7_6a41_ea8f_79e6_35ec_f7bf_ac41nat,
        0x2_b91a_a307_1a69, 0x7_6a42_0e82_3313_2b28_2a77_7f11nat,
    );
}

/// Code 173.
proof fn lemma_entry_173()
    ensures
        nearest_to_power(0x3ed5_f508, 187025, 269025),
{
    lemma_fifth_powers_of_two();
    assert(187025nat * 187025 * 187025 == 0x17_3dc1_9070_d2b1);
    assert(0x17_3dc1_9070_d2b1 * 0x17_3dc1_9070_d2b1 == 0x21c_27ad_c576_bbd3_27a2_2846_de61nat);
    assert(0x1ab_ea0f * 0x1ab_ea0f == 0x2_cb46_a409_6ce1);
    assert(0x2_cb46_a409_6ce1 * 0x2_cb46_a409_6ce1 == 0x7_ce83_abca_c474_74e5_1e20_9dc1nat);
    assert(0x1ab_ea11 * 0x1ab_ea11 == 0x2_cb46_aab9_1521);
    assert(0x2_cb46_aab9_1521 * 0x2_cb46_aab9_1521 == 0x7_ce83_d127_ab18_39eb_5f70_6e41nat);
    assert(269025nat * 269025 * 269025 == 0x45_2c59_9066_9ca1);
    assert(0x45_2c59_9066_9ca1 * 0x45_2c59_9066_9ca1 == 0x12b0_eff6_c049_6d6d_d948_5020_9d41nat);
    assert(0x12b0_eff6_c049_6d6d_d948_5020_9d41nat * 0x12b0_eff6_c049_6d6d_d948_5020_9d41nat == 0x15d_5c09_8741_6139_2178_92b9_bce5_5f46_89a2_dd05_b95f_0d00_50d8_ca81nat);
    assert(0x21c_27ad_c576_bbd3_27a2_2846_de61nat * 0x21c_27ad_c576_bbd3_27a2_2846_de61nat == 0x4_73b7_6b3f_7507_0ad3_59b5_8fe0_764d_92f9_081c_e1af_39e0_ae38_60c1nat);
    assert(0x7_ce83_abca_c474_74e5_1e20_9dc1nat * 0x1ab_ea0f == 0xd0c_98d8_fff4_16b2_efd5_875d_b506_a84fnat);
    assert(0x7_ce83_d127_ab18_39eb_5f70_6e41nat * 0x1ab_ea11 == 0xd0c_9927_1119_876f_1d25_2e66_01a9_bc51nat);
    assert(0xd0c_98d8_fff4_16b2_efd5_875d_b506_a84fnat * 0x15d_5c09_8741_6139_2178_92b9_bce5_5f46_89a2_dd05_b95f_0d00_50d8_ca81nat == 0x11_cedd_6319_4521_972d_cbe9_9560_2d3f_89e6_67ae_2662_3550_7389_a23f_cb0e_e096_82b8_f3b6_b9e8_fc46_2bd1_25cfnat);
    assert(0xd0c_9927_1119_876f_1d25_2e66_01a9_bc51nat * 0x15d_5c09_8741_6139_2178_92b9_bce5_5f46_89a2_dd05_b95f_0d00_50d8_ca81nat == 0x11_cedd_cda2_b63d_9586_e746_9539_0747_9f08_cd72_44e4_c73e_29f6_a2e3_cca6_239d_a825_319a_168e_6dc6_f977_ced1nat);
    assert(0x4_73b7_6b3f_7507_0ad3_59b5_8fe0_764d_92f9_081c_e1af_39e0_ae38_60c1nat * 0x4_0000_0000_0000_0000_0000_0000_0000_0000nat == 0x11_cedd_acfd_d41c_2b4d_66d6_3f81_d936_4be4_2073_86bc_e782_b8e1_8304_0000_0000_0000_0000_0000_0000_0000_0000nat);
    lemma_power_known(
        0x3ed5_f508, 0xd5_f508, 124, 0x4_0000_0000_0000_0000_0000_0000_0000_0000nat,
        187025, 0x17_3dc1_9070_d2b1,
        0x21c_27ad_c576_bbd3_27a2_2846_de61nat,
        269025, 0x45_2c59_9066_9ca1,
        0x12b0_eff6_c049_6d6d_d948_5020_9d41nat,
        0x2_cb46_a409_6ce1, 0x7_ce83_abca_c474_74e5_1e20_9dc1nat,
        0x2_cb46_aab9_1521, 0x7_ce83_d127_ab18_39eb_5f70_6e41nat,
    );
}

/// Code 174.
proof fn lemma_entry_174()
    ensures
        nearest_to_power(0x3ed8_b68a, 188025, 269025),
{
    lemma_fifth_powers_of_two();
    assert(188025nat * 188025 * 188025 == 0x17_9db4_8736_8229);
    assert(0x17_9db4_8736_8229 * 0x17_9db4_8736_8229 == 0x22d_b797_38f2_ab15_dc8a_6979_aa91nat);
    assert(0x1b1_6d13 * 0x1b1_6d13 == 0x2_ddd2_28bf_2f69);
    assert(0x2_ddd2_28bf_2f69 * 0x2_ddd2_28bf_2f69 == 0x8_377d_29dd_b5a5_5fdc_9775_b911nat);
    assert(0x1b1_6d15 * 0x1b1_6d15 == 0x2_ddd2_2f84_e3b9);
    assert(0x2_ddd2_2f84_e3b9 * 0x2_ddd2_2f84_e3b9 == 0x8_377d_50b0_fee9_161d_8f59_9bb1nat);
    assert(269025nat * 269025 * 269025 == 0x45_2c59_9066_9ca1);
    assert(0x45_2c59_9066_9ca1 * 0x45_2c59_9066_9ca1 == 0x12b0_eff6_c049_6d6d_d948_5020_9d41nat);
    assert(0x12b0_eff6_c049_6d6d_d948_5020_9d41nat * 0x12b0_eff6_c049_6d6d_d948_5020_9d41nat == 0x15d_5c09_8741_6139_2178_92b9_bce5_5f46_89a2_dd05_b95f_0d00_50d8_ca81nat);
    assert(0x22d_b797_38f2_ab15_dc8a_6979_aa91nat * 0x22d_b797_38f2_ab15_dc8a_6979_aa91nat == 0x4_bf08_6bb7_5cbb_a8ab_d848_81ac_54af_ff4f_f216_b194_2411_a0b6_e621nat);
    assert(0x8_377d_29dd_b5a5_5fdc_9775_b911nat * 0x1b1_6d13 == 0xde9_5af0_391d_be83_0933_37fa_6349_f943nat);
    assert(0x8_377d_50b0_fee9_161d_8f59_9bb1nat * 0x1b1_6d15 == 0xde9_5b42_6402_234c_8f88_dd06_4005_2285nat);
    assert(0xde9_5af0_391d_be83_0933_37fa_6349_f943nat * 0x15d_5c09_8741_6139_2178_92b9_bce5_5f46_89a2_dd05_b95f_0d00_50d8_ca81nat == 0x12_fc21_5aba_0102_b67f_6bf7_46ed_e2e5_38b0_65dd_4d8e_cc42_9504_5fc0_6f66_a1ce_a749_e3ee_33cb_12d3_a77d_78c3nat);
    assert(0xde9_5b42_6402_234c_8f88_dd06_4005_2285nat * 0x15d_5c09_8741_6139_2178_92b9_bce5_5f46_89a2_dd05_b95f_0d00_50d8_ca81nat == 0x12_fc21_cadc_04d9_1d16_0fd0_7ab4_9579_1d86_0149_46a8_5691_ad81_2e9e_8dae_3f7b_fb41_5a15_f2c1_aec9_000b_5705nat);
    assert(0x4_bf08_6bb7_5cbb_a8ab_d848_81ac_54af_ff4f_f216_b194_2411_a0b6_e621nat * 0x4_0000_0000_0000_0000_0000_0000_0000_0000nat == 0x12_fc21_aedd_72ee_a2af_6122_06b1_52bf_fd3f_c85a_c650_9046_82db_9884_0000_0000_0000_0000_0000_0000_0000_0000nat);
    lemma_power_known(
        0x3ed8_b68a, 0xd8_b68a, 124, 0x4_0000_0000_0000_0000_0000_0000_0000_0000nat,
        188025, 0x17_9db4_8736_8229,
        0x22d_b797_38f2_ab15_dc8a_6979_aa91nat,
        269025, 0x45_2c59_9066_9ca1,
        0x12b0_eff6_c049_6d6d_d948_5020_9d41nat,
        0x2_ddd2_28bf_2f69, 0x8_377d_29dd_b5a5_5fdc_9775_b911nat,
        0x2_ddd2_2f84_e3b9, 0x8_377d_50b0_fee9_161d_8f59_9bb1nat,
    );
}

/// Code 175.
proof fn lemma_entry_175()
    ensures
        nearest_to_power(0x3edb_7d52, 189025, 269025),
{
    lemma_fifth_powers_of_two();
    assert(189025nat * 189025 * 189025 == 0x17_feae_28f7_1321);
    assert(0x17_feae_28f7_1321 * 0x17_feae_28f7_1321 == 0x23f_c0a9_6c2b_704f_a14c_3b1b_ea41nat);
    assert(0x1b6_faa3 * 0x1b6_faa3 == 0x2_f0be_9b26_c3c9);
    assert(0x2_f0be_9b26_c3c9 * 0x2_f0be_9b26_c3c9 == 0x8_a560_5d6e_69cf_7550_1b67_d3d1nat);
    assert(0x1b6_faa5 * 0x1b6_faa5 == 0x2_f0be_a202_ae59);
    assert(0x2_f0be_a202_ae59 * 0x2_f0be_a202_ae59 == 0x8_a560_85c4_a2cd_10cb_d421_1af1nat);
    assert(269025nat * 269025 * 269025 == 0x45_2c59_9066_9ca1);
    assert(0x45_2c59_9066_9ca1 * 0x45_2c59_9066_9ca1 == 0x12b0_eff6_c049_6d6d_d948_5020_9d41nat);
    assert(0x12b0_eff6_c049_6d6d_d948_5020_9d41nat * 0x12b0_eff6_c049_6d6d_d948_5020_9d41nat == 0x15d_5c09_8741_6139_2178_92b9_bce5_5f46_89a2_dd05_b95f_0d00_50d8_ca81nat);
    assert(0x23f_c0a9_6c2b_704f_a14c_3b1b_ea41nat * 0x23f_c0a9_6c2b_704f_a14c_3b1b_ea41nat == 0x5_0ee3_0a12_7d83_ad3c_fda8_f2d4_819d_d93f_6b15_b6fc_b99d_3610_e481nat);
    assert(0x8_a560_5d6e_69cf_7550_1b67_d3d1nat * 0x1b6_faa3 == 0xed3_69e1_4282_5994_aeb6_d069_3f8b_f813nat);
    assert(0x8_a560_85c4_a2cd_10cb_d421_1af1nat * 0x1b6_faa5 == 0xed3_6a37_b846_c993_ed4f_d12c_25fb_b755nat);
    assert(0xed3_69e1_4282_5994_aeb6_d069_3f8b_f813nat * 0x15d_5c09_8741_6139_2178_92b9_bce5_5f46_89a2_dd05_b95f_0d00_50d8_ca81nat == 0x14_3b8b_df68_9eab_64de_8e2e_4fed_55bc_8ecd_1c19_3e15_c528_bbdc_3a1b_f355_60bb_52e5_53f8_ece1_63cc_b74e_ff93nat);
    assert(0xed3_6a37_b846_c993_ed4f_d12c_25fb_b755nat * 0x15d_5c09_8741_6139_2178_92b9_bce5_5f46_89a2_dd05_b95f_0d00_50d8_ca81nat == 0x14_3b8c_5566_4102_7e2d_e317_882d_dcf4_c64c_5cd3_72db_7c72_d011_e433_5edd_f754_2620_acfe_173e_43e5_0238_73d5nat);
    assert(0x5_0ee3_0a12_7d83_ad3c_fda8_f2d4_819d_d93f_6b15_b6fc_b99d_3610_e481nat * 0x4_0000_0000_0000_0000_0000_0000_0000_0000nat == 0x14_3b8c_2849_f60e_b4f3_f6a3_cb52_0677_64fd_ac56_dbf2_e674_d843_9204_0000_0000_0000_0000_0000_0000_0000_0000nat);
    lemma_power_known(
        0x3edb_7d52, 0xdb_7d52, 124, 0x4_0000_0000_0000_0000_0000_0000_0000_0000nat,
        189025, 0x17_feae_28f7_1321,
        0x23f_c0a9_6c2b_704f_a14c_3b1b_ea41nat,
        269025, 0x45_2c59_9066_9ca1,
        0x12b0_eff6_c049_6d6d_d948_5020_9d41nat,
        0x2_f0be_9b26_c3c9, 0x8_a560_5d6e_69cf_7550_1b67_d3d1nat,
        0x2_f0be_a202_ae59, 0x8_a560_85c4_a2cd_10cb_d421_1af1nat,
    );
}

/// Code 176.
proof fn lemma_entry_176()
    ensures
        nearest_to_power(0x3ede_4963, 190025, 269025),
{
    lemma_fifth_powers_of_two();
    assert(190025nat * 190025 * 190025 == 0x18_60af_db53_4199);
    assert(0x18_60af_db53_4199 * 0x18_60af_db53_4199 == 0x252_457d_7ce8_559d_fc7d_6005_0d71nat);
    assert(0x1bc_92c5 * 0x1bc_92c5 == 0x3_040d_6f7d_4b99);
    assert(0x3_040d_6f7d_4b99 * 0x3_040d_6f7d_4b99 == 0x9_1861_0920_333a_5a6b_97bd_0171nat);
    assert(0x1bc_92c7 * 0x1bc_92c7 == 0x3_040d_766f_96b1);
    assert(0x3_040d_766f_96b1 * 0x3_040d_766f_96b1 == 0x9_1861_3306_42fb_e589_3231_e661nat);
    assert(269025nat * 269025 * 269025 == 0x45_2c59_9066_9ca1);
    assert(0x45_2c59_9066_9ca1 * 0x45_2c59_9066_9ca1 == 0x12b0_eff6_c049_6d6d_d948_5020_9d41nat);
    assert(0x12b0_eff6_c049_6d6d_d948_5020_9d41nat * 0x12b0_eff6_c049_6d6d_d948_5020_9d41nat == 0x15d_5c09_8741_6139_2178_92b9_bce5_5f46_89a2_dd05_b95f_0d00_50d8_ca81nat);
    assert(0x252_457d_7ce8_559d_fc7d_6005_0d71nat * 0x252_457d_7ce8_559d_fc7d_6005_0d71nat == 0x5_6386_8d34_8905_c724_6202_173a_41ff_e51a_0860_6203_6288_471e_abe1nat);
    assert(0x9_1861_0920_333a_5a6b_97bd_0171nat * 0x1bc_92c5 == 0xfcb_7f32_edb9_3c33_8614_1d24_0f40_8df5nat);
    assert(0x9_1861_3306_42fb_e589_3231_e661nat * 0x1bc_92c7 == 0xfcb_7f8d_e184_68f3_d4aa_bad2_0a69_6767nat);
    assert(0xfcb_7f32_edb9_3c33_8614_1d24_0f40_8df5nat * 0x15d_5c09_8741_6139_2178_92b9_bce5_5f46_89a2_dd05_b95f_0d00_50d8_ca81nat == 0x15_8e1a_20a4_347e_c840_c072_f2f4_39cc_801c_c017_fa9a_c2ff_384f_9ce7_8143_495c_b6f2_d2f0_4c72_9f08_f642_da75nat);
    assert(0xfcb_7f8d_e184_68f3_d4aa_bad2_0a69_6767nat * 0x15d_5c09_8741_6139_2178_92b9_bce5_5f46_89a2_dd05_b95f_0d00_50d8_ca81nat == 0x15_8e1a_9cc3_437a_6e70_28a4_bbd4_80e3_bb29_1ce7_f3f7_94d1_175b_40d0_a34f_086a_682f_b67d_4e64_d44d_d99c_60e7nat);
    assert(0x5_6386_8d34_8905_c724_6202_173a_41ff_e51a_0860_6203_6288_471e_abe1nat * 0x4_0000_0000_0000_0000_0000_0000_0000_0000nat == 0x15_8e1a_34d2_2417_1c91_8808_5ce9_07ff_9468_2181_880d_8a21_1c7a_af84_0000_0000_0000_0000_0000_0000_0000_0000nat);
    lemma_power_known(
        0x3ede_4963, 0xde_4963, 124, 0x4_0000_0000_0000_0000_0000_0000_0000_0000nat,
        190025, 0x18_60af_db53_4199,
        0x252_457d_7ce8_559d_fc7d_6005_0d71nat,
        269025, 0x45_2c59_9066_9ca1,
        0x12b0_eff6_c049_6d6d_d948_5020_9d41nat,
        0x3_040d_6f7d_4b99, 0x9_1861_0920_333a_5a6b_97bd_0171nat,
        0x3_040d_766f_96b1, 0x9_1861_3306_42fb_e589_3231_e661nat,
    );
}

/// Code 177.
proof fn lemma_entry_177()
    ensures
        nearest_to_power(0x3ee1_1abf, 191025, 269025),
{
    lemma_fifth_powers_of_two();
    assert(191025nat * 191025 * 191025 == 0x18_c3bb_03eb_c991);
    assert(0x18_c3bb_03eb_c991 * 0x18_c3bb_03eb_c991 == 0x265_48b7_2ccd_baca_bfbb_14eb_0421nat);
    assert(0x1c2_357d * 0x1c2_357d == 0x3_17c0_16a0_ff09);
    assert(0x3_17c0_16a0_ff09 * 0x3_17c0_16a0_ff09 == 0x9_90b4_9bf8_db88_3c95_5552_ee51nat);
    assert(0x1c2_357f * 0x1c2_357f == 0x3_17c0_1da9_d501);
    assert(0x3_17c0_1da9_d501 * 0x3_17c0_1da9_d501 == 0x9_90b4_c77c_047b_9a6d_268c_aa01nat);
    assert(269025nat * 269025 * 269025 == 0x45_2c59_9066_9ca1);
    assert(0x45_2c59_9066_9ca1 * 0x45_2c59_9066_9ca1 == 0x12b0_eff6_c049_6d6d_d948_5020_9d41nat);
    assert(0x12b0_eff6_c049_6d6d_d948_5020_9d41nat * 0x12b0_eff6_c049_6d6d_d948_5020_9d41nat == 0x15d_5c09_8741_6139_2178_92b9_bce5_5f46_89a2_dd05_b95f_0d00_50d8_ca81nat);
    assert(0x265_48b7_2ccd_baca_bfbb_14eb_0421nat * 0x265_48b7_2ccd_baca_bfbb_14eb_0421nat == 0x5_bd35_51e4_1d85_5e04_ad33_e9a8_805b_be39_2baa_b94a_d69b_bca7_0c41nat);
    assert(0x9_90b4_9bf8_db88_3c95_5552_ee51nat * 0x1c2_357d == 0x10d2_5d1b_37ec_9370_e490_7b5b_bf37_228dnat);
    assert(0x9_90b4_c77c_047b_9a6d_268c_aa01nat * 0x1c2_357f == 0x10d2_5d7a_defb_84b9_4427_f864_14bc_8b7fnat);
    assert(0x10d2_5d1b_37ec_9370_e490_7b5b_bf37_228dnat * 0x15d_5c09_8741_6139_2178_92b9_bce5_5f46_89a2_dd05_b95f_0d00_50d8_ca81nat == 0x16_f4d5_27d9_8679_71ed_6466_85b9_e4dc_f496_0a30_29a5_ad31_cda3_13ad_6532_5db2_9adb_3c96_7363_486e_1303_ab0dnat);
    assert(0x10d2_5d7a_defb_84b9_4427_f864_14bc_8b7fnat * 0x15d_5c09_8741_6139_2178_92b9_bce5_5f46_89a2_dd05_b95f_0d00_50d8_ca81nat == 0x16_f4d5_aa62_a971_295a_d37f_9278_3c48_0f43_c006_d018_0578_3e33_1734_ea6e_ede6_a64c_74ca_db46_0078_9c3c_80ffnat);
    assert(0x5_bd35_51e4_1d85_5e04_ad33_e9a8_805b_be39_2baa_b94a_d69b_bca7_0c41nat * 0x4_0000_0000_0000_0000_0000_0000_0000_0000nat == 0x16_f4d5_4790_7615_7812_b4cf_a6a2_016e_f8e4_aeaa_e52b_5a6e_f29c_3104_0000_0000_0000_0000_0000_0000_0000_0000nat);
    lemma_power_known(
        0x3ee1_1abf, 0xe1_1abf, 124, 0x4_0000_0000_0000_0000_0000_0000_0000_0000nat,
        191025, 0x18_c3bb_03eb_c991,
        0x265_48b7_2ccd_baca_bfbb_14eb_0421nat,
        269025, 0x45_2c59_9066_9ca1,
        0x12b0_eff6_c049_6d6d_d948_5020_9d41nat,
        0x3_17c0_16a0_ff09, 0x9_90b4_9bf8_db88_3c95_5552_ee51nat,
        0x3_17c0_1da9_d501, 0x9_90b4_c77c_047b_9a6d_268c_aa01nat,
    );
}

/// Code 178.
proof fn lemma_entry_178()
    ensures
        nearest_to_power(0x3ee3_f169, 192025, 269025),
{
    lemma_fifth_powers_of_two();
    assert(192025nat * 192025 * 192025 == 0x19_27d1_0861_6709);
    assert(0x19_27d1_0861_6709 * 0x19_27d1_0861_6709 == 0x278_cd04_fe42_7c77_3631_ce4a_3e51nat);
    assert(0x1c7_e2d1 * 0x1c7_e2d1 == 0x3_2bd8_0be3_aea1);
    assert(0x3_2bd8_0be3_aea1 * 0x3_2bd8_0be3_aea1 == 0xa_0e92_91a8_a534_2130_fea5_4141nat);
    assert(0x1c7_e2d3 * 0x1c7_e2d3 == 0x3_2bd8_1303_39e9);
    assert(0x3_2bd8_1303_39e9 * 0x3_2bd8_1303_39e9 == 0xa_0e92_bed6_87c5_79d2_fe8f_9611nat);
    assert(269025nat * 269025 * 269025 == 0x45_2c59_9066_9ca1);
    assert(0x45_2c59_9066_9ca1 * 0x45_2c59_9066_9ca1 == 0x12b0_eff6_c049_6d6d_d948_5020_9d41nat);
    assert(0x12b0_eff6_c049_6d6d_d948_5020_9d41nat * 0x12b0_eff6_c049_6d6d_d948_5020_9d41nat == 0x15d_5c09_8741_6139_2178_92b9_bce5_5f46_89a2_dd05_b95f_0d00_50d8_ca81nat);
    assert(0x278_cd04_fe42_7c77_3631_ce4a_3e51nat * 0x278_cd04_fe42_7c77_3631_ce4a_3e51nat == 0x6_1c34_ecd8_6795_f68e_66b0_fe0b_851d_0c17_9fe0_583f_98d4_71ff_55a1nat);
    assert(0xa_0e92_91a8_a534_2130_fea5_4141nat * 0x1c7_e2d1 == 0x11e8_cf94_2cfd_6c2d_e2f0_f184_c30c_a811nat);
    assert(0xa_0e92_bed6_87c5_79d2_fe8f_9611nat * 0x1c7_e2d3 == 0x11e8_cff8_beb7_fea9_c352_1ed6_4b0a_b203nat);
    assert(0x11e8_cf94_2cfd_6c2d_e2f0_f184_c30c_a811nat * 0x15d_5c09_8741_6139_2178_92b9_bce5_5f46_89a2_dd05_b95f_0d00_50d8_ca81nat == 0x18_70d3_5240_3a3e_3085_8d3a_b419_8d9a_2f40_29cb_73c1_af87_c6fe_c938_8659_22d8_3e46_b95a_0acc_da01_6456_1a91nat);
    assert(0x11e8_cff8_beb7_fea9_c352_1ed6_4b0a_b203nat * 0x15d_5c09_8741_6139_2178_92b9_bce5_5f46_89a2_dd05_b95f_0d00_50d8_ca81nat == 0x18_70d3_db7f_0db5_3222_b1fb_1aed_9d41_a861_f8de_9d49_551c_5819_a7e6_4ba2_8928_a309_4511_fa20_70d9_6362_1183nat);
    assert(0x6_1c34_ecd8_6795_f68e_66b0_fe0b_851d_0c17_9fe0_583f_98d4_71ff_55a1nat * 0x4_0000_0000_0000_0000_0000_0000_0000_0000nat == 0x18_70d3_b361_9e57_da39_9ac3_f82e_1474_305e_7f81_60fe_6351_c7fd_5684_0000_0000_0000_0000_0000_0000_0000_0000nat);
    lemma_power_known(
        0x3ee3_f169, 0xe3_f169, 124, 0x4_0000_0000_0000_0000_0000_0000_0000_0000nat,
        192025, 0x19_27d1_0861_6709,
        0x278_cd04_fe42_7c77_3631_ce4a_3e51nat,
        269025, 0x45_2c59_9066_9ca1,
        0x12b0_eff6_c049_6d6d_d948_5020_9d41nat,
        0x3_2bd8_0be3_aea1, 0xa_0e92_91a8_a534_2130_fea5_4141nat,
        0x3_2bd8_1303_39e9, 0xa_0e92_bed6_87c5_79d2_fe8f_9611nat,
    );
}

/// Code 179.
proof fn lemma_entry_179()
    ensures
        nearest_to_power(0x3ee6_cd65, 193025, 269025),
{
    lemma_fifth_powers_of_two();
    assert(193025nat * 193025 * 193025 == 0x19_8cf3_4e54_d601);
    assert(0x19_8cf3_4e54_d601 * 0x19_8cf3_4e54_d601 == 0x28c_d520_517c_6349_2c6b_bf8d_ac01nat);
    assert(0x1cd_9ac9 * 0x1cd_9ac9 == 0x3_4056_d580_71d1);
    assert(0x3_4056_d580_71d1 * 0x3_4056_d580_71d1 == 0xa_9234_8937_0829_f643_cd9a_2ca1nat);
    assert(0x1cd_9acb * 0x1cd_9acb == 0x3_4056_dcb6_dcf9);
    assert(0x3_4056_dcb6_dcf9 * 0x3_4056_dcb6_dcf9 == 0xa_9234_b81d_a579_c5b6_e8c8_ea31nat);
    assert(269025nat * 269025 * 269025 == 0x45_2c59_9066_9ca1);
    assert(0x45_2c59_9066_9ca1 * 0x45_2c59_9066_9ca1 == 0x12b0_eff6_c049_6d6d_d948_5020_9d41nat);
    assert(0x12b0_eff6_c049_6d6d_d948_5020_9d41nat * 0x12b0_eff6_c049_6d6d_d948_5020_9d41nat == 0x15d_5c09_8741_6139_2178_92b9_bce5_5f46_89a2_dd05_b95f_0d00_50d8_ca81nat);
    assert(0x28c_d520_517c_6349_2c6b_bf8d_ac01nat * 0x28c_d520_517c_6349_2c6b_bf8d_ac01nat == 0x6_80ce_4e0d_dd47_32fa_ce52_c4d6_ad9b_95a7_4bff_4174_d5e6_6aab_5801nat);
    assert(0xa_9234_8937_0829_f643_cd9a_2ca1nat * 0x1cd_9ac9 == 0x130f_acdb_7de4_8aaf_1f30_638d_8ad2_e469nat);
    assert(0xa_9234_b81d_a579_c5b6_e8c8_ea31nat * 0x1cd_9acb == 0x130f_ad45_33f2_d156_82e1_01e1_2e70_2edbnat);
    assert(0x130f_acdb_7de4_8aaf_1f30_638d_8ad2_e469nat * 0x15d_5c09_8741_6139_2178_92b9_bce5_5f46_89a2_dd05_b95f_0d00_50d8_ca81nat == 0x1a_0338_fef8_b7e6_7436_779f_7be0_7372_0a1e_a88f_ef44_2580_7f8c_5479_d080_a39a_b3bf_b737_7a4f_382e_e517_f2e9nat);
    assert(0x130f_ad45_33f2_d156_82e1_01e1_2e70_2edbnat * 0x15d_5c09_8741_6139_2178_92b9_bce5_5f46_89a2_dd05_b95f_0d00_50d8_ca81nat == 0x1a_0339_8f3b_eab9_284e_e992_4849_8052_a2fd_60be_ca6a_6f5d_997e_135f_e5e4_2118_e4e0_346d_cc05_fd68_e448_6a5bnat);
    assert(0x6_80ce_4e0d_dd47_32fa_ce52_c4d6_ad9b_95a7_4bff_4174_d5e6_6aab_5801nat * 0x4_0000_0000_0000_0000_0000_0000_0000_0000nat == 0x1a_0339_3837_751c_cbeb_394b_135a_b66e_569d_2ffd_05d3_5799_aaad_6004_0000_0000_0000_0000_0000_0000_0000_0000nat);
    lemma_power_known(
        0x3ee6_cd65, 0xe6_cd65, 124, 0x4_0000_0000_0000_0000_0000_0000_0000_0000nat,
        193025, 0x19_8cf3_4e54_d601,
        0x28c_d520_517c_6349_2c6b_bf8d_ac01nat,
        269025, 0x45_2c59_9066_9ca1,
        0x12b0_eff6_c049_6d6d_d948_5020_9d41nat,
        0x3_4056_d580_71d1, 0xa_9234_8937_0829_f643_cd9a_2ca1nat,
        0x3_4056_dcb6_dcf9, 0xa_9234_b81d_a579_c5b6_e8c8_ea31nat,
    );
}

/// Code 180.
proof fn lemma_entry_180()
    ensures
        nearest_to_power(0x3ee9_aeb5, 194025, 269025),
{
    lemma_fifth_powers_of_two();
    assert(194025nat * 194025 * 194025 == 0x19_f323_3b66_d279);
    assert(0x19_f323_3b66_d279 * 0x19_f323_3b66_d279 == 0x2a1_63cd_81b3_9b19_d166_2b76_bd31nat);
    assert(0x1d3_5d69 * 0x1d3_5d69 == 0x3_553d_ef2b_7511);
    assert(0x3_553d_ef2b_7511 * 0x3_553d_ef2b_7511 == 0xb_1bd5_cad3_744b_4010_473e_8b21nat);
    assert(0x1d3_5d6b * 0x1d3_5d6b == 0x3_553d_f678_eab9);
    assert(0x3_553d_f678_eab9 * 0x3_553d_f678_eab9 == 0xb_1bd5_fb81_2f21_5262_70a6_b9b1nat);
    assert(269025nat * 269025 * 269025 == 0x45_2c59_9066_9ca1);
    assert(0x45_2c59_9066_9ca1 * 0x45_2c59_9066_9ca1 == 0x12b0_eff6_c049_6d6d_d948_5020_9d41nat);
    assert(0x12b0_eff6_c049_6d6d_d948_5020_9d41nat * 0x12b0_eff6_c049_6d6d_d948_5020_9d41nat == 0x15d_5c09_8741_6139_2178_92b9_bce5_5f46_89a2_dd05_b95f_0d00_50d8_ca81nat);
    assert(0x2a1_63cd_81b3_9b19_d166_2b76_bd31nat * 0x2a1_63cd_81b3_9b19_d166_2b76_bd31nat == 0x6_eb4d_e56c_899f_6311_dad1_32aa_40fb_a310_368e_d47b_dfad_6afd_6361nat);
    assert(0xb_1bd5_cad3_744b_4010_473e_8b21nat * 0x1d3_5d69 == 0x1447_d4ac_151c_273f_e6d5_27a6_be65_0d89nat);
    assert(0xb_1bd5_fb81_2f21_5262_70a6_b9b1nat * 0x1d3_5d6b == 0x1447_d51b_2b77_06e7_176e_b236_6507_e9fbnat);
    assert(0x1447_d4ac_151c_273f_e6d5_27a6_be65_0d89nat * 0x15d_5c09_8741_6139_2178_92b9_bce5_5f46_89a2_dd05_b95f_0d00_50d8_ca81nat == 0x1b_ad37_8044_281b_db43_9ba9_5bb4_1f68_6dc0_c068_3796_fd68_11a9_c635_6a53_5423_d00b_4235_3b69_bbbf_e931_ec09nat);
    assert(0x1447_d51b_2b77_06e7_176e_b236_6507_e9fbnat * 0x15d_5c09_8741_6139_2178_92b9_bce5_5f46_89a2_dd05_b95f_0d00_50d8_ca81nat == 0x1b_ad38_17dd_9229_e4eb_989a_07fe_1bd6_9df5_91f3_add9_8c39_6fda_2f6f_e6ea_d9c4_1ef5_6a16_22e5_2fed_0364_f57bnat);
    assert(0x6_eb4d_e56c_899f_6311_dad1_32aa_40fb_a310_368e_d47b_dfad_6afd_6361nat * 0x4_0000_0000_0000_0000_0000_0000_0000_0000nat == 0x1b_ad37_95b2_267d_8c47_6b44_caa9_03ee_8c40_da3b_51ef_7eb5_abf5_8d84_0000_0000_0000_0000_0000_0000_0000_0000nat);
    lemma_power_known(
        0x3ee9_aeb5, 0xe9_aeb5, 124, 0x4_0000_0000_0000_0000_0000_0000_0000_0000nat,
        194025, 0x19_f323_3b66_d279,
        0x2a1_63cd_81b3_9b19_d166_2b76_bd31nat,
        269025, 0x45_2c59_9066_9ca1,
        0x12b0_eff6_c049_6d6d_d948_5020_9d41nat,
        0x3_553d_ef2b_7511, 0xb_1bd5_cad3_744b_4010_473e_8b21nat,
        0x3_553d_f678_eab9, 0xb_1bd5_fb81_2f21_5262_70a6_b9b1nat,
    );
}

/// Code 181.
proof fn lemma_entry_181()
    ensures
        nearest_to_power(0x3eec_955b, 195025, 269025),
{
    lemma_fifth_powers_of_two();
    assert(195025nat * 195025 * 195025 == 0x1a_5a62_3538_1871);
    assert(0x1a_5a62_3538_1871 * 0x1a_5a62_3538_1871 == 0x2b6_7bdc_027d_3226_70ed_7dc5_61e1nat);
    assert(0x1d9_2ab5 * 0x1d9_2ab5 == 0x3_6a8e_d7f9_e3f9);
    assert(0x3_6a8e_d7f9_e3f9 * 0x3_6a8e_d7f9_e3f9 == 0xb_abb3_aa6a_980e_cd15_8365_8831nat);
    assert(0x1d9_2ab7 * 0x1d9_2ab7 == 0x3_6a8e_df5e_8ed1);
    assert(0x3_6a8e_df5e_8ed1 * 0x3_6a8e_df5e_8ed1 == 0xb_abb3_dcee_36f7_6399_4f28_86a1nat);
    assert(269025nat * 269025 * 269025 == 0x45_2c59_9066_9ca1);
    assert(0x45_2c59_9066_9ca1 * 0x45_2c59_9066_9ca1 == 0x12b0_eff6_c049_6d6d_d948_5020_9d41nat);
    assert(0x12b0_eff6_c049_6d6d_d948_5020_9d41nat * 0x12b0_eff6_c049_6d6d_d948_5020_9d41nat == 0x15d_5c09_8741_6139_2178_92b9_bce5_5f46_89a2_dd05_b95f_0d00_50d8_ca81nat);
    assert(0x2b6_7bdc_027d_3226_70ed_7dc5_61e1nat * 0x2b6_7bdc_027d_3226_70ed_7dc5_61e1nat == 0x7_5c03_c8ca_a644_7dd1_9c3e_d65b_8f00_d674_34ed_c5b2_745f_83b6_47c1nat);
    assert(0xb_abb3_aa6a_980e_cd15_8365_8831nat * 0x1d9_2ab5 == 0x1592_3161_beef_eda8_dcdc_4e5d_31aa_54a5nat);
    assert(0xb_abb3_dcee_36f7_6399_4f28_86a1nat * 0x1d9_2ab7 == 0x1592_31d6_73f5_9264_e772_9b74_fb87_a717nat);
    assert(0x1592_3161_beef_eda8_dcdc_4e5d_31aa_54a5nat * 0x15d_5c09_8741_6139_2178_92b9_bce5_5f46_89a2_dd05_b95f_0d00_50d8_ca81nat == 0x1d_700e_a989_c47f_39a4_2d43_5bee_a894_2f0d_2cea_3110_9db4_b159_0850_7c33_c61f_5231_8bdb_ab87_8951_68d6_d925nat);
    assert(0x1592_31d6_73f5_9264_e772_9b74_fb87_a717nat * 0x15d_5c09_8741_6139_2178_92b9_bce5_5f46_89a2_dd05_b95f_0d00_50d8_ca81nat == 0x1d_700f_48ce_8296_dba9_3d85_89a8_772d_4016_530e_6a10_9bcd_081b_824b_ec0f_c31d_5e3f_eb10_4cbe_6e17_f49b_5897nat);
    assert(0x7_5c03_c8ca_a644_7dd1_9c3e_d65b_8f00_d674_34ed_c5b2_745f_83b6_47c1nat * 0x4_0000_0000_0000_0000_0000_0000_0000_0000nat == 0x1d_700f_232a_9911_f746_70fb_596e_3c03_59d0_d3b7_16c9_d17e_0ed9_1f04_0000_0000_0000_0000_0000_0000_0000_0000nat);
    lemma_power_known(
        0x3eec_955b, 0xec_955b, 124, 0x4_0000_0000_0000_0000_0000_0000_0000_0000nat,
        195025, 0x1a_5a62_3538_1871,
        0x2b6_7bdc_027d_3226_70ed_7dc5_61e1nat,
        269025, 0x45_2c59_9066_9ca1,
        0x12b0_eff6_c049_6d6d_d948_5020_9d41nat,
        0x3_6a8e_d7f9_e3f9, 0xb_abb3_aa6a_980e_cd15_8365_8831nat,
        0x3_6a8e_df5e_8ed1, 0xb_abb3_dcee_36f7_6399_4f28_86a1nat,
    );
}

/// Code 182.
proof fn lemma_entry_182()
    ensures
        nearest_to_power(0x3eef_815c, 196025, 269025),
{
    lemma_fifth_powers_of_two();
    assert(196025nat * 196025 * 196025 == 0x1a_c2b1_a169_63e9);
    assert(0x1a_c2b1_a169_63e9 * 0x1a_c2b1_a169_63e9 == 0x2cc_2026_7d4c_a043_0740_2e20_0a11nat);
    assert(0x1df_02b7 * 0x1df_02b7 == 0x3_804b_28d9_5ed1);
    assert(0x3_804b_28d9_5ed1 * 0x3_804b_28d9_5ed1 == 0xc_420e_3402_8d99_34a9_3170_26a1nat);
    assert(0x1df_02b9 * 0x1df_02b9 == 0x3_804b_3055_69b1);
    assert(0x3_804b_3055_69b1 * 0x3_804b_3055_69b1 == 0xc_420e_686b_3f03_11d7_bb2c_ac61nat);
    assert(269025nat * 269025 * 269025 == 0x45_2c59_9066_9ca1);
    assert(0x45_2c59_9066_9ca1 * 0x45_2c59_9066_9ca1 == 0x12b0_eff6_c049_6d6d_d948_5020_9d41nat);
    assert(0x12b0_eff6_c049_6d6d_d948_5020_9d41nat * 0x12b0_eff6_c049_6d6d_d948_5020_9d41nat == 0x15d_5c09_8741_6139_2178_92b9_bce5_5f46_89a2_dd05_b95f_0d00_50d8_ca81nat);
    assert(0x2cc_2026_7d4c_a043_0740_2e20_0a11nat * 0x2cc_2026_7d4c_a043_0740_2e20_0a11nat == 0x7_d343_db56_89bd_0f14_d029_3702_d8e2_ef5b_580f_5dc7_7e20_a0a5_5521nat);
    assert(0xc_420e_3402_8d99_34a9_3170_26a1nat * 0x1df_02b7 == 0x16ef_b9da_a556_2497_f381_782d_7eb7_df17nat);
    assert(0xc_420e_686b_3f03_11d7_bb2c_ac61nat * 0x1df_02b9 == 0x16ef_ba55_39e5_32bc_f202_ccf3_2620_5419nat);
    assert(0x16ef_b9da_a556_2497_f381_782d_7eb7_df17nat * 0x15d_5c09_8741_6139_2178_92b9_bce5_5f46_89a2_dd05_b95f_0d00_50d8_ca81nat == 0x1f_4d0f_6069_c921_19d5_3354_76c3_5d03_e653_2e2f_3f88_71ba_c3af_c81e_e055_fd54_62e1_add7_39eb_00c5_5c17_9097nat);
    assert(0x16ef_ba55_39e5_32bc_f202_ccf3_2620_5419nat * 0x15d_5c09_8741_6139_2178_92b9_bce5_5f46_89a2_dd05_b95f_0d00_50d8_ca81nat == 0x1f_4d10_07b2_621a_c806_aad5_ddee_ec49_0eae_3a9d_3184_d01f_e5e5_aebf_8d14_a745_0ad2_cfc6_fcbf_ad2a_7dbe_1a99nat);
    assert(0x7_d343_db56_89bd_0f14_d029_3702_d8e2_ef5b_580f_5dc7_7e20_a0a5_5521nat * 0x4_0000_0000_0000_0000_0000_0000_0000_0000nat == 0x1f_4d0f_6d5a_26f4_3c53_40a4_dc0b_638b_bd6d_603d_771d_f882_8295_5484_0000_0000_0000_0000_0000_0000_0000_0000nat);
    lemma_power_known(
        0x3eef_815c, 0xef_815c, 124, 0x4_0000_0000_0000_0000_0000_0000_0000_0000nat,
        196025, 0x1a_c2b1_a169_63e9,
        0x2cc_2026_7d4c_a043_0740_2e20_0a11nat,
        269025, 0x45_2c59_9066_9ca1,
        0x12b0_eff6_c049_6d6d_d948_5020_9d41nat,
        0x3_804b_28d9_5ed1, 0xc_420e_3402_8d99_34a9_3170_26a1nat,
        0x3_804b_3055_69b1, 0xc_420e_686b_3f03_11d7_bb2c_ac61nat,
    );
}

/// Code 183.
proof fn lemma_entry_183()
    ensures
        nearest_to_power(0x3ef2_72b8, 197025, 269025),
{
    lemma_fifth_powers_of_two();
    assert(197025nat * 197025 * 197025 == 0x1b_2c12_e59b_70e1);
    assert(0x1b_2c12_e59b_70e1 * 0x1b_2c12_e59b_70e1 == 0x2e2_5392_ef1c_560e_adf8_6c3b_a5c1nat);
    assert(0x1e4_e56f * 0x1e4_e56f == 0x3_9674_5957_c621);
    assert(0x3_9674_5957_c621 * 0x3_9674_5957_c621 == 0xc_df26_a5a2_97ae_5fc3_35c5_1041nat);
    assert(0x1e4_e571 * 0x1e4_e571 == 0x3_9674_60eb_5be1);
    assert(0x3_9674_60eb_5be1 * 0x3_9674_60eb_5be1 == 0xc_df26_dbff_f0ee_4d32_900f_bbc1nat);
    assert(269025nat * 269025 * 269025 == 0x45_2c59_9066_9ca1);
    assert(0x45_2c59_9066_9ca1 * 0x45_2c59_9066_9ca1 == 0x12b0_eff6_c049_6d6d_d948_5020_9d41nat);
    assert(0x12b0_eff6_c049_6d6d_d948_5020_9d41nat * 0x12b0_eff6_c049_6d6d_d948_5020_9d41nat == 0x15d_5c09_8741_6139_2178_92b9_bce5_5f46_89a2_dd05_b95f_0d00_50d8_ca81nat);
    assert(0x2e2_5392_ef1c_560e_adf8_6c3b_a5c1nat * 0x2e2_5392_ef1c_560e_adf8_6c3b_a5c1nat == 0x8_5165_f673_3ac2_2818_a5af_e66b_9471_a8cc_3d76_4c76_61b0_aa48_5b81nat);
    assert(0xc_df26_a5a2_97ae_5fc3_35c5_1041nat * 0x1e4_e56f == 0x1861_6e43_7b53_08db_cd56_cd50_52e0_312fnat);
    assert(0xc_df26_dbff_f0ee_4d32_900f_bbc1nat * 0x1e4_e571 == 0x1861_6ec4_32d6_9108_77d6_abee_a2c9_8531nat);
    assert(0x1861_6e43_7b53_08db_cd56_cd50_52e0_312fnat * 0x15d_5c09_8741_6139_2178_92b9_bce5_5f46_89a2_dd05_b95f_0d00_50d8_ca81nat == 0x21_4597_3ded_dc09_3195_8039_0917_4faa_a902_609d_957f_7413_db72_ae23_dbb3_914f_e829_aa0c_e65b_3666_d96f_deafnat);
    assert(0x1861_6ec4_32d6_9108_77d6_abee_a2c9_8531nat * 0x15d_5c09_8741_6139_2178_92b9_bce5_5f46_89a2_dd05_b95f_0d00_50d8_ca81nat == 0x21_4597_ed96_5117_90af_9edb_21d4_b0b6_7803_e123_e06d_7f78_32d5_37c0_5e25_70bb_c102_05f1_7d01_c05a_bbfc_c7b1nat);
    assert(0x8_5165_f673_3ac2_2818_a5af_e66b_9471_a8cc_3d76_4c76_61b0_aa48_5b81nat * 0x4_0000_0000_0000_0000_0000_0000_0000_0000nat == 0x21_4597_d9cc_eb08_a062_96bf_99ae_51c6_a330_f5d9_31d9_86c2_a921_6e04_0000_0000_0000_0000_0000_0000_0000_0000nat);
    lemma_power_known(
        0x3ef2_72b8, 0xf2_72b8, 124, 0x4_0000_0000_0000_0000_0000_0000_0000_0000nat,
        197025, 0x1b_2c12_e59b_70e1,
        0x2e2_5392_ef1c_560e_adf8_6c3b_a5c1nat,
        269025, 0x45_2c59_9066_9ca1,
        0x12b0_eff6_c049_6d6d_d948_5020_9d41nat,
        0x3_9674_5957_c621, 0xc_df26_a5a2_97ae_5fc3_35c5_1041nat,
        0x3_9674_60eb_5be1, 0xc_df26_dbff_f0ee_4d32_900f_bbc1nat,
    );
}

/// Code 184.
proof fn lemma_entry_184()
    ensures
        nearest_to_power(0x3ef5_6974, 198025, 269025),
{
    lemma_fifth_powers_of_two();
    assert(198025nat * 198025 * 198025 == 0x1b_9687_676e_fb59);
    assert(0x1b_9687_676e_fb59 * 0x1b_9687_676e_fb59 == 0x2f9_1912_c63d_5429_e23c_9543_a4f1nat);
    assert(0x1ea_d2e7 * 0x1ea_d2e7 == 0x3_ad0c_0a0b_cc71);
    assert(0x3_ad0c_0a0b_cc71 * 0x3_ad0c_0a0b_cc71 == 0xd_8341_826b_ae76_d11c_08fa_49e1nat);
    assert(0x1ea_d2e9 * 0x1ea_d2e9 == 0x3_ad0c_11b7_1811);
    assert(0x3_ad0c_11b7_1811 * 0x3_ad0c_11b7_1811 == 0xd_8341_bacd_b151_0fbd_ac91_3121nat);
    assert(269025nat * 269025 * 269025 == 0x45_2c59_9066_9ca1);
    assert(0x45_2c59_9066_9ca1 * 0x45_2c59_9066_9ca1 == 0x12b0_eff6_c049_6d6d_d948_5020_9d41nat);
    assert(0x12b0_eff6_c049_6d6d_d948_5020_9d41nat * 0x12b0_eff6_c049_6d6d_d948_5020_9d41nat == 0x15d_5c09_8741_6139_2178_92b9_bce5_5f46_89a2_dd05_b95f_0d00_50d8_ca81nat);
    assert(0x2f9_1912_c63d_5429_e23c_9543_a4f1nat * 0x2f9_1912_c63d_5429_e23c_9543_a4f1nat == 0x8_d6c6_1413_44b6_d595_fd25_136d_dfa2_0a90_a0a4_bb28_a4d8_4a6b_aae1nat);
    assert(0xd_8341_826b_ae76_d11c_08fa_49e1nat * 0x1ea_d2e7 == 0x19e8_5d40_cf34_f3b4_2468_deba_d31d_3c07nat);
    assert(0xd_8341_bacd_b151_0fbd_ac91_3121nat * 0x1ea_d2e9 == 0x19e8_5dc7_efc5_25d3_02bd_3919_339c_c909nat);
    assert(0x19e8_5d40_cf34_f3b4_2468_deba_d31d_3c07nat * 0x15d_5c09_8741_6139_2178_92b9_bce5_5f46_89a2_dd05_b95f_0d00_50d8_ca81nat == 0x23_5b17_99b9_33f2_3b35_f414_11ce_0181_7441_15ff_1821_1790_3dbc_5c35_3ab4_d627_3260_9cad_39d8_4526_4900_c587nat);
    assert(0x19e8_5dc7_efc5_25d3_02bd_3919_339c_c909nat * 0x15d_5c09_8741_6139_2178_92b9_bce5_5f46_89a2_dd05_b95f_0d00_50d8_ca81nat == 0x23_5b18_5221_2d41_eb0e_8898_f4ed_be3e_0bea_a2cb_a2f2_7a2e_8475_bcbf_5000_2809_a3f1_6f3f_cf58_a889_283a_6789nat);
    assert(0x8_d6c6_1413_44b6_d595_fd25_136d_dfa2_0a90_a0a4_bb28_a4d8_4a6b_aae1nat * 0x4_0000_0000_0000_0000_0000_0000_0000_0000nat == 0x23_5b18_504d_12db_5657_f494_4db7_7e88_2a42_8292_eca2_9361_29ae_ab84_0000_0000_0000_0000_0000_0000_0000_0000nat);
    lemma_power_known(
        0x3ef5_6974, 0xf5_6974, 124, 0x4_0000_0000_0000_0000_0000_0000_0000_0000nat,
        198025, 0x1b_9687_676e_fb59,
        0x2f9_1912_c63d_5429_e23c_9543_a4f1nat,
        269025, 0x45_2c59_9066_9ca1,
        0x12b0_eff6_c049_6d6d_d948_5020_9d41nat,
        0x3_ad0c_0a0b_cc71, 0xd_8341_826b_ae76_d11c_08fa_49e1nat,
        0x3_ad0c_11b7_1811, 0xd_8341_bacd_b151_0fbd_ac91_3121nat,
    );
}

/// Code 185.
proof fn lemma_entry_185()
    ensures
        nearest_to_power(0x3ef8_6593, 199025, 269025),
{
    lemma_fifth_powers_of_two();
    assert(199025nat * 199025 * 199025 == 0x1c_0210_8c84_bf51);
    assert(0x1c_0210_8c84_bf51 * 0x1c_0210_8c84_bf51 == 0x310_73a3_004d_ca6e_a436_7281_f7a1nat);
    assert(0x1f0_cb25 * 0x1f0_cb25 == 0x3_c413_d093_b359);
    assert(0x3_c413_d093_b359 * 0x3_c413_d093_b359 == 0xe_2ea5_3c60_fe93_3fde_15db_94f1nat);
    assert(0x1f0_cb27 * 0x1f0_cb27 == 0x3_c413_d856_dff1);
    assert(0x3_c413_d856_dff1 * 0x3_c413_d856_dff1 == 0xe_2ea5_76d8_1a46_fd27_e9d1_c0e1nat);
    assert(269025nat * 269025 * 269025 == 0x45_2c59_9066_9ca1);
    assert(0x45_2c59_9066_9ca1 * 0x45_2c59_9066_9ca1 == 0x12b0_eff6_c049_6d6d_d948_5020_9d41nat);
    assert(0x12b0_eff6_c049_6d6d_d948_5020_9d41nat * 0x12b0_eff6_c049_6d6d_d948_5020_9d41nat == 0x15d_5c09_8741_6139_2178_92b9_bce5_5f46_89a2_dd05_b95f_0d00_50d8_ca81nat);
    assert(0x310_73a3_004d_ca6e_a436_7281_f7a1nat * 0x310_73a3_004d_ca6e_a436_7281_f7a1nat == 0x9_63c4_7a9d_b687_2c9d_158e_cae4_e3d4_540a_479f_e9ae_c272_e3ca_1341nat);
    assert(0xe_2ea5_3c60_fe93_3fde_15db_94f1nat * 0x1f0_cb25 == 0x1b85_a12e_c0af_e12f_4d37_afde_dac7_a1d5nat);
    assert(0xe_2ea5_76d8_1a46_fd27_e9d1_c0e1nat * 0x1f0_cb27 == 0x1b85_a1bc_9325_614c_c8e4_3de3_a6d6_cd47nat);
    assert(0x1b85_a12e_c0af_e12f_4d37_afde_dac7_a1d5nat * 0x15d_5c09_8741_6139_2178_92b9_bce5_5f46_89a2_dd05_b95f_0d00_50d8_ca81nat == 0x25_8f11_c8e6_a70b_5380_a658_e9be_7e95_6bad_b699_9e1f_aac5_dc79_7816_d32b_5972_ce7b_2903_007f_43f0_e002_9e55nat);
    assert(0x1b85_a1bc_9325_614c_c8e4_3de3_a6d6_cd47nat * 0x15d_5c09_8741_6139_2178_92b9_bce5_5f46_89a2_dd05_b95f_0d00_50d8_ca81nat == 0x25_8f12_8a71_8e24_8a12_9cdb_e2b9_946a_62aa_6828_93e0_5717_8b2a_f292_4151_4460_65b4_730b_14d6_51bf_f41f_76c7nat);
    assert(0x9_63c4_7a9d_b687_2c9d_158e_cae4_e3d4_540a_479f_e9ae_c272_e3ca_1341nat * 0x4_0000_0000_0000_0000_0000_0000_0000_0000nat == 0x25_8f11_ea76_da1c_b274_563b_2b93_8f51_5029_1e7f_a6bb_09cb_8f28_4d04_0000_0000_0000_0000_0000_0000_0000_0000nat);
    lemma_power_known(
        0x3ef8_6593, 0xf8_6593, 124, 0x4_0000_0000_0000_0000_0000_0000_0000_0000nat,
        199025, 0x1c_0210_8c84_bf51,
        0x310_73a3_004d_ca6e_a436_7281_f7a1nat,
        269025, 0x45_2c59_9066_9ca1,
        0x12b0_eff6_c049_6d6d_d948_5020_9d41nat,
        0x3_c413_d093_b359, 0xe_2ea5_3c60_fe93_3fde_15db_94f1nat,
        0x3_c413_d856_dff1, 0xe_2ea5_76d8_1a46_fd27_e9d1_c0e1nat,
    );
}

/// Code 186.
proof fn lemma_entry_186()
    ensures
        nearest_to_power(0x3efb_6716, 200025, 269025),
{
    lemma_fifth_powers_of_two();
    assert(200025nat * 200025 * 200025 == 0x1c_6eaf_ba7d_78c9);
    assert(0x1c_6eaf_ba7d_78c9 * 0x1c_6eaf_ba7d_78c9 == 0x328_664c_4856_bf2a_6fd1_4147_0dd1nat);
    assert(0x1f6_ce2b * 0x1f6_ce2b == 0x3_db8d_36ad_3b39);
    assert(0x3_db8d_36ad_3b39 * 0x3_db8d_36ad_3b39 == 0xe_e19a_3181_0d2a_4cff_24bd_52b1nat);
    assert(0x1f6_ce2d * 0x1f6_ce2d == 0x3_db8d_3e88_73e9);
    assert(0x3_db8d_3e88_73e9 * 0x3_db8d_3e88_73e9 == 0xe_e19a_6e1e_1f5c_b58a_380b_2a11nat);
    assert(269025nat * 269025 * 269025 == 0x45_2c59_9066_9ca1);
    assert(0x45_2c59_9066_9ca1 * 0x45_2c59_9066_9ca1 == 0x12b0_eff6_c049_6d6d_d948_5020_9d41nat);
    assert(0x12b0_eff6_c049_6d6d_d948_5020_9d41nat * 0x12b0_eff6_c049_6d6d_d948_5020_9d41nat == 0x15d_5c09_8741_6139_2178_92b9_bce5_5f46_89a2_dd05_b95f_0d00_50d8_ca81nat);
    assert(0x328_664c_4856_bf2a_6fd1_4147_0dd1nat * 0x328_664c_4856_bf2a_6fd1_4147_0dd1nat == 0x9_f8c5_ea69_83f6_e42a_1426_12f3_c7b5_b483_6c01_ab38_f5fe_ccac_e4a1nat);
    assert(0xe_e19a_3181_0d2a_4cff_24bd_52b1nat * 0x1f6_ce2b == 0x1d3a_6067_0bcb_fa38_3c62_49ab_ab6d_51bbnat);
    assert(0xe_e19a_6e1e_1f5c_b58a_380b_2a11nat * 0x1f6_ce2d == 0x1d3a_60fb_dbd3_1854_1a6b_0849_5326_12fdnat);
    assert(0x1d3a_6067_0bcb_fa38_3c62_49ab_ab6d_51bbnat * 0x15d_5c09_8741_6139_2178_92b9_bce5_5f46_89a2_dd05_b95f_0d00_50d8_ca81nat == 0x27_e317_7d9e_c0b3_4c7d_b05e_f3de_7cd6_ad7b_5acb_8eba_a20b_99b9_71f8_95b8_3db4_7ee6_7cec_ce9e_e18d_0a5b_bd3bnat);
    assert(0x1d3a_60fb_dbd3_1854_1a6b_0849_5326_12fdnat * 0x15d_5c09_8741_6139_2178_92b9_bce5_5f46_89a2_dd05_b95f_0d00_50d8_ca81nat == 0x27_e318_48b3_dab3_d742_8bc8_93ab_786e_a028_9db5_d381_5031_72e4_d01e_e699_00c7_8cbe_3c23_7c2c_ef9e_06a3_337dnat);
    assert(0x9_f8c5_ea69_83f6_e42a_1426_12f3_c7b5_b483_6c01_ab38_f5fe_ccac_e4a1nat * 0x4_0000_0000_0000_0000_0000_0000_0000_0000nat == 0x27_e317_a9a6_0fdb_90a8_5098_4bcf_1ed6_d20d_b006_ace3_d7fb_32b3_9284_0000_0000_0000_0000_0000_0000_0000_0000nat);
    lemma_power_known(
        0x3efb_6716, 0xfb_6716, 124, 0x4_0000_0000_0000_0000_0000_0000_0000_0000nat,
        200025, 0x1c_6eaf_ba7d_78c9,
        0x328_664c_4856_bf2a_6fd1_4147_0dd1nat,
        269025, 0x45_2c59_9066_9ca1,
        0x12b0_eff6_c049_6d6d_d948_5020_9d41nat,
        0x3_db8d_36ad_3b39, 0xe_e19a_3181_0d2a_4cff_24bd_52b1nat,
        0x3_db8d_3e88_73e9, 0xe_e19a_6e1e_1f5c_b58a_380b_2a11nat,
    );
}

/// Code 187.
proof fn lemma_entry_187()
    ensures
        nearest_to_power(0x3efe_6e00, 201025, 269025),
{
    lemma_fifth_powers_of_two();
    assert(201025nat * 201025 * 201025 == 0x1c_dc66_56f9_e3c1);
    assert(0x1c_dc66_56f9_e3c1 * 0x1c_dc66_56f9_e3c1 == 0x340_f423_1510_be5a_0ebe_8411_d781nat);
    assert(0x1fc_dbff * 0x1fc_dbff == 0x3_f379_d916_4801);
    assert(0x3_f379_d916_4801 * 0x3_f379_d916_4801 == 0xf_9c6b_a2a4_ebde_bef4_266c_9001nat);
    assert(0x1fc_dc01 * 0x1fc_dc01 == 0x3_f379_e109_b801);
    assert(0x3_f379_e109_b801 * 0x3_f379_e109_b801 == 0xf_9c6b_e179_4459_ecc2_3653_7001nat);
    assert(269025nat * 269025 * 269025 == 0x45_2c59_9066_9ca1);
    assert(0x45_2c59_9066_9ca1 * 0x45_2c59_9066_9ca1 == 0x12b0_eff6_c049_6d6d_d948_5020_9d41nat);
    assert(0x12b0_eff6_c049_6d6d_d948_5020_9d41nat * 0x12b0_eff6_c049_6d6d_d948_5020_9d41nat == 0x15d_5c09_8741_6139_2178_92b9_bce5_5f46_89a2_dd05_b95f_0d00_50d8_ca81nat);
    assert(0x340_f423_1510_be5a_0ebe_8411_d781nat * 0x340_f423_1510_be5a_0ebe_8411_d781nat == 0xa_9633_ccdb_d1cb_f88b_4f68_c709_cd3b_6fb4_d6c9_44e4_66f7_5c8b_ef01nat);
    assert(0xf_9c6b_a2a4_ebde_bef4_266c_9001nat * 0x1fc_dbff == 0x1f07_cff3_a29e_2611_6cb7_517e_e750_4bffnat);
    assert(0xf_9c6b_e179_4459_ecc2_3653_7001nat * 0x1fc_dc01 == 0x1f07_d08f_bed3_baa8_5d34_a104_2c90_4c01nat);
    assert(0x1f07_cff3_a29e_2611_6cb7_517e_e750_4bffnat * 0x15d_5c09_8741_6139_2178_92b9_bce5_5f46_89a2_dd05_b95f_0d00_50d8_ca81nat == 0x2a_58ce_758b_9b09_9d33_bcf1_a46f_8cc0_1033_75c5_c9d1_6f21_161b_05d8_4daa_453c_f356_e126_6887_69f7_ba95_817fnat);
    assert(0x1f07_d08f_bed3_baa8_5d34_a104_2c90_4c01nat * 0x15d_5c09_8741_6139_2178_92b9_bce5_5f46_89a2_dd05_b95f_0d00_50d8_ca81nat == 0x2a_58cf_4a96_3007_e900_c3ff_dba4_abad_3f5f_bdc3_84b7_79a7_cf06_e1fc_38d0_306b_d827_5edc_e940_2cc4_c187_1681nat);
    assert(0xa_9633_ccdb_d1cb_f88b_4f68_c709_cd3b_6fb4_d6c9_44e4_66f7_5c8b_ef01nat * 0x4_0000_0000_0000_0000_0000_0000_0000_0000nat == 0x2a_58cf_336f_472f_e22d_3da3_1c27_34ed_bed3_5b25_1391_9bdd_722f_bc04_0000_0000_0000_0000_0000_0000_0000_0000nat);
    lemma_power_known(
        0x3efe_6e00, 0xfe_6e00, 124, 0x4_0000_0000_0000_0000_0000_0000_0000_0000nat,
        201025, 0x1c_dc66_56f9_e3c1,
        0x340_f423_1510_be5a_0ebe_8411_d781nat,
        269025, 0x45_2c59_9066_9ca1,
        0x12b0_eff6_c049_6d6d_d948_5020_9d41nat,
        0x3_f379_d916_4801, 0xf_9c6b_a2a4_ebde_bef4_266c_9001nat,
        0x3_f379_e109_b801, 0xf_9c6b_e179_4459_ecc2_3653_7001nat,
    );
}

/// Code 188.
proof fn lemma_entry_188()
    ensures
        nearest_to_power(0x3f00_bd2b, 202025, 269025),
{
    lemma_fifth_powers_of_two();
    assert(202025nat * 202025 * 202025 == 0x1d_4b35_c79a_bc39);
    assert(0x1d_4b35_c79a_bc39 * 0x1d_4b35_c79a_bc39 == 0x35a_2047_c74f_90e7_43c1_9cf7_c4b1nat);
    assert(0x101_7a55 * 0x101_7a55 == 0x1_02f6_d91f_2039);
    assert(0x1_02f6_d91f_2039 * 0x1_02f6_d91f_2039 == 0x1_05f6_7ba8_bcea_99f5_73dc_4cb1nat);
    assert(0x101_7a57 * 0x101_7a57 == 0x1_02f6_dd25_0991);
    assert(0x1_02f6_dd25_0991 * 0x1_02f6_dd25_0991 == 0x1_05f6_83cc_697f_9e8c_1e45_8421nat);
    assert(269025nat * 269025 * 269025 == 0x45_2c59_9066_9ca1);
    assert(0x45_2c59_9066_9ca1 * 0x45_2c59_9066_9ca1 == 0x12b0_eff6_c049_6d6d_d948_5020_9d41nat);
    assert(0x12b0_eff6_c049_6d6d_d948_5020_9d41nat * 0x12b0_eff6_c049_6d6d_d948_5020_9d41nat == 0x15d_5c09_8741_6139_2178_92b9_bce5_5f46_89a2_dd05_b95f_0d00_50d8_ca81nat);
    assert(0x35a_2047_c74f_90e7_43c1_9cf7_c4b1nat * 0x35a_2047_c74f_90e7_43c1_9cf7_c4b1nat == 0xb_3c7c_6536_074b_5bbb_2b0a_758d_45bc_98d3_8241_d638_2066_dcad_8261nat);
    assert(0x1_05f6_7ba8_bcea_99f5_73dc_4cb1nat * 0x101_7a55 == 0x107_79a0_962b_2093_16ad_67df_7262_d0c5nat);
    assert(0x1_05f6_83cc_697f_9e8c_1e45_8421nat * 0x101_7a57 == 0x107_79aa_d1cc_1ddc_d698_0bd5_0fb8_a137nat);
    assert(0x107_79a0_962b_2093_16ad_67df_7262_d0c5nat * 0x15d_5c09_8741_6139_2178_92b9_bce5_5f46_89a2_dd05_b95f_0d00_50d8_ca81nat == 0x1_678f_8970_e9d5_d098_2b47_0f74_ec52_3d5d_fff3_3026_010e_e474_73b0_9e2c_c3c8_0e4e_25fa_9454_0d78_52be_a545nat);
    assert(0x107_79aa_d1cc_1ddc_d698_0bd5_0fb8_a137nat * 0x15d_5c09_8741_6139_2178_92b9_bce5_5f46_89a2_dd05_b95f_0d00_50d8_ca81nat == 0x1_678f_9767_e21e_79e1_230b_78b9_d236_4378_c0cf_1603_5393_d51c_75a0_ddf1_08ee_376c_967c_9f3b_d5ed_d1a6_a2b7nat);
    assert(0xb_3c7c_6536_074b_5bbb_2b0a_758d_45bc_98d3_8241_d638_2066_dcad_8261nat * 0x2000_0000_0000_0000_0000_0000_0000_0000nat == 0x1_678f_8ca6_c0e9_6b77_6561_4eb1_a8b7_931a_7048_3ac7_040c_db95_b04c_2000_0000_0000_0000_0000_0000_0000_0000nat);
    lemma_power_known(
        0x3f00_bd2b, 0x80_bd2b, 125, 0x2000_0000_0000_0000_0000_0000_0000_0000nat,
        202025, 0x1d_4b35_c79a_bc39,
        0x35a_2047_c74f_90e7_43c1_9cf7_c4b1nat,
        269025, 0x45_2c59_9066_9ca1,
        0x12b0_eff6_c049_6d6d_d948_5020_9d41nat,
        0x1_02f6_d91f_2039, 0x1_05f6_7ba8_bcea_99f5_73dc_4cb1nat,
        0x1_02f6_dd25_0991, 0x1_05f6_83cc_697f_9e8c_1e45_8421nat,
    );
}

/// Code 189.
proof fn lemma_entry_189()
    ensures
        nearest_to_power(0x3f02_460c, 203025, 269025),
{
    lemma_fifth_powers_of_two();
    assert(203025nat * 203025 * 203025 == 0x1d_bb1f_7200_be31);
    assert(0x1d_bb1f_7200_be31 * 0x1d_bb1f_7200_be31 == 0x373_ede6_c894_fbe8_4f42_314c_c561nat);
    assert(0x104_8c17 * 0x104_8c17 == 0x1_092c_db61_2a11);
    assert(0x1_092c_db61_2a11 * 0x1_092c_db61_2a11 == 0x1_12ad_e60b_4e7d_0ab1_fdcb_9521nat);
    assert(0x104_8c19 * 0x104_8c19 == 0x1_092c_df73_5a71);
    assert(0x1_092c_df73_5a71 * 0x1_092c_df73_5a71 == 0x1_12ad_ee7a_63ef_3463_3f79_a5e1nat);
    assert(269025nat * 269025 * 269025 == 0x45_2c59_9066_9ca1);
    assert(0x45_2c59_9066_9ca1 * 0x45_2c59_9066_9ca1 == 0x12b0_eff6_c049_6d6d_d948_5020_9d41nat);
    assert(0x12b0_eff6_c049_6d6d_d948_5020_9d41nat * 0x12b0_eff6_c049_6d6d_d948_5020_9d41nat == 0x15d_5c09_8741_6139_2178_92b9_bce5_5f46_89a2_dd05_b95f_0d00_50d8_ca81nat);
    assert(0x373_ede6_c894_fbe8_4f42_314c_c561nat * 0x373_ede6_c894_fbe8_4f42_314c_c561nat == 0xb_ec13_0320_d332_a7dc_ab1e_4a26_c65a_c6a7_99e4_ccb6_1e98_ebc6_6ec1nat);
    assert(0x1_12ad_e60b_4e7d_0ab1_fdcb_9521nat * 0x104_8c17 == 0x117_8eed_6ae9_90ef_4bdb_0f8c_985c_71f7nat);
    assert(0x1_12ad_ee7a_63ef_3463_3f79_a5e1nat * 0x104_8c19 == 0x117_8ef8_25b4_b78b_c7ce_dbf4_321c_3ef9nat);
    assert(0x117_8eed_6ae9_90ef_4bdb_0f8c_985c_71f7nat * 0x15d_5c09_8741_6139_2178_92b9_bce5_5f46_89a2_dd05_b95f_0d00_50d8_ca81nat == 0x1_7d82_5b6f_ccf3_f1bb_2783_b70e_b2b9_6e00_9978_75b4_b5db_9695_4838_7a16_8d0b_d23b_415a_9d57_c2af_10ea_5377nat);
    assert(0x117_8ef8_25b4_b78b_c7ce_dbf4_321c_3ef9nat * 0x15d_5c09_8741_6139_2178_92b9_bce5_5f46_89a2_dd05_b95f_0d00_50d8_ca81nat == 0x1_7d82_6a14_4f6e_d353_5d0a_a46a_8b1e_ca36_6d6e_f369_70e2_b3c6_b8b1_5886_6c2f_35c2_9cc4_8d18_461a_7c04_3579nat);
    assert(0xb_ec13_0320_d332_a7dc_ab1e_4a26_c65a_c6a7_99e4_ccb6_1e98_ebc6_6ec1nat * 0x2000_0000_0000_0000_0000_0000_0000_0000nat == 0x1_7d82_6064_1a66_54fb_9563_c944_d8cb_58d4_f33c_9996_c3d3_1d78_cdd8_2000_0000_0000_0000_0000_0000_0000_0000nat);
    lemma_power_known(
        0x3f02_460c, 0x82_460c, 125, 0x2000_0000_0000_0000_0000_0000_0000_0000nat,
        203025, 0x1d_bb1f_7200_be31,
        0x373_ede6_c894_fbe8_4f42_314c_c561nat,
        269025, 0x45_2c59_9066_9ca1,
        0x12b0_eff6_c049_6d6d_d948_5020_9d41nat,
        0x1_092c_db61_2a11, 0x1_12ad_e60b_4e7d_0ab1_fdcb_9521nat,
        0x1_092c_df73_5a71, 0x1_12ad_ee7a_63ef_3463_3f79_a5e1nat,
    );
}

/// Code 190.
proof fn lemma_entry_190()
    ensures
        nearest_to_power(0x3f03_d1a5, 204025, 269025),
{
    lemma_fifth_powers_of_two();
    assert(204025nat * 204025 * 204025 == 0x1e_2c24_bbcc_a5a9);
    assert(0x1e_2c24_bbcc_a5a9 * 0x1e_2c24_bbcc_a5a9 == 0x38e_6038_a9ca_87e1_4d25_568b_4991nat);
    assert(0x107_a349 * 0x107_a349 == 0x1_0f80_e824_0ad1);
    assert(0x1_0f80_e824_0ad1 * 0x1_0f80_e824_0ad1 == 0x1_1ff2_2c65_4572_a7ad_db3c_fea1nat);
    assert(0x107_a34b * 0x107_a34b == 0x1_0f80_ec42_97f9);
    assert(0x1_0f80_ec42_97f9 * 0x1_0f80_ec42_97f9 == 0x1_1ff2_3522_1a64_0085_ce9b_b031nat);
    assert(269025nat * 269025 * 269025 == 0x45_2c59_9066_9ca1);
    assert(0x45_2c59_9066_9ca1 * 0x45_2c59_9066_9ca1 == 0x12b0_eff6_c049_6d6d_d948_5020_9d41nat);
    assert(0x12b0_eff6_c049_6d6d_d948_5020_9d41nat * 0x12b0_eff6_c049_6d6d_d948_5020_9d41nat == 0x15d_5c09_8741_6139_2178_92b9_bce5_5f46_89a2_dd05_b95f_0d00_50d8_ca81nat);
    assert(0x38e_6038_a9ca_87e1_4d25_568b_4991nat * 0x38e_6038_a9ca_87e1_4d25_568b_4991nat == 0xc_a570_3701_a7c0_a4e1_e983_3705_c7cf_7e8a_0ec4_2aa8_5f20_649a_0421nat);
    assert(0x1_1ff2_2c65_4572_a7ad_db3c_fea1nat * 0x107_a349 == 0x128_8974_ea5d_7ce3_1211_bed4_f1ec_1ee9nat);
    assert(0x1_1ff2_3522_1a64_0085_ce9b_b031nat * 0x107_a34b == 0x128_8980_29d3_6487_f118_9bb2_ab22_d15bnat);
    assert(0x128_8974_ea5d_7ce3_1211_bed4_f1ec_1ee9nat * 0x15d_5c09_8741_6139_2178_92b9_bce5_5f46_89a2_dd05_b95f_0d00_50d8_ca81nat == 0x1_94ae_00d3_0701_4444_1c7b_b162_9094_abec_2755_f41b_a540_0465_be9b_3235_77d6_9e2b_de15_81d3_ee15_1cf7_6d69nat);
    assert(0x128_8980_29d3_6487_f118_9bb2_ab22_d15bnat * 0x15d_5c09_8741_6139_2178_92b9_bce5_5f46_89a2_dd05_b95f_0d00_50d8_ca81nat == 0x1_94ae_102c_95f7_9bc3_1d6f_233f_326a_9c99_da23_fc29_89ee_5153_3901_d511_266f_e8c5_6dd7_54e3_55de_ca85_4cdbnat);
    assert(0xc_a570_3701_a7c0_a4e1_e983_3705_c7cf_7e8a_0ec4_2aa8_5f20_649a_0421nat * 0x2000_0000_0000_0000_0000_0000_0000_0000nat == 0x1_94ae_06e0_34f8_149c_3d30_66e0_b8f9_efd1_41d8_8555_0be4_0c93_4084_2000_0000_0000_0000_0000_0000_0000_0000nat);
    lemma_power_known(
        0x3f03_d1a5, 0x83_d1a5, 125, 0x2000_0000_0000_0000_0000_0000_0000_0000nat,
        204025, 0x1e_2c24_bbcc_a5a9,
        0x38e_6038_a9ca_87e1_4d25_568b_4991nat,
        269025, 0x45_2c59_9066_9ca1,
        0x12b0_eff6_c049_6d6d_d948_5020_9d41nat,
        0x1_0f80_e824_0ad1, 0x1_1ff2_2c65_4572_a7ad_db3c_fea1nat,
        0x1_0f80_ec42_97f9, 0x1_1ff2_3522_1a64_0085_ce9b_b031nat,
    );
}

/// Code 191.
proof fn lemma_entry_191()
    ensures
        nearest_to_power(0x3f05_5ff7, 205025, 269025),
{
    lemma_fifth_powers_of_two();
    assert(205025nat * 205025 * 205025 == 0x1e_9e47_0a9f_2ea1);
    assert(0x1e_9e47_0a9f_2ea1 * 0x1e_9e47_0a9f_2ea1 == 0x3a9_7a82_4222_5007_6bed_887c_4141nat);
    assert(0x10a_bfed * 0x10a_bfed == 0x1_15f3_6867_8169);
    assert(0x1_15f3_6867_8169 * 0x1_15f3_6867_8169 == 0x1_2dc8_a75f_5d21_2a54_b3e8_fd11nat);
    assert(0x10a_bfef * 0x10a_bfef == 0x1_15f3_6c92_8121);
    assert(0x1_15f3_6c92_8121 * 0x1_15f3_6c92_8121 == 0x1_2dc8_b06c_579e_7f71_62c6_4641nat);
    assert(269025nat * 269025 * 269025 == 0x45_2c59_9066_9ca1);
    assert(0x45_2c59_9066_9ca1 * 0x45_2c59_9066_9ca1 == 0x12b0_eff6_c049_6d6d_d948_5020_9d41nat);
    assert(0x12b0_eff6_c049_6d6d_d948_5020_9d41nat * 0x12b0_eff6_c049_6d6d_d948_5020_9d41nat == 0x15d_5c09_8741_6139_2178_92b9_bce5_5f46_89a2_dd05_b95f_0d00_50d8_ca81nat);
    assert(0x3a9_7a82_4222_5007_6bed_887c_4141nat * 0x3a9_7a82_4222_5007_6bed_887c_4141nat == 0xd_6912_0828_887d_c68a_2116_4f8e_835a_1676_6556_0eef_69fe_579a_1281nat);
    assert(0x1_2dc8_a75f_5d21_2a54_b3e8_fd11nat * 0x10a_bfed == 0x13a_74be_00b9_de3a_f24c_52bc_572b_f7bdnat);
    assert(0x1_2dc8_b06c_579e_7f71_62c6_4641nat * 0x10a_bfef == 0x13a_74c9_ca90_9535_79df_3592_2510_15afnat);
    assert(0x13a_74be_00b9_de3a_f24c_52bc_572b_f7bdnat * 0x15d_5c09_8741_6139_2178_92b9_bce5_5f46_89a2_dd05_b95f_0d00_50d8_ca81nat == 0x1_ad22_34af_8434_0bcb_9e51_4865_12ce_16c2_01db_a0e7_df84_b484_8bf9_7425_4a05_36e2_789b_bb9d_3134_b61a_f83dnat);
    assert(0x13a_74c9_ca90_9535_79df_3592_2510_15afnat * 0x15d_5c09_8741_6139_2178_92b9_bce5_5f46_89a2_dd05_b95f_0d00_50d8_ca81nat == 0x1_ad22_44c5_eae4_fc17_dd36_7d5e_2b44_6530_55bf_a18f_f837_072a_2f38_e693_8f5b_934f_431f_bcae_7f3c_59df_032fnat);
    assert(0xd_6912_0828_887d_c68a_2116_4f8e_835a_1676_6556_0eef_69fe_579a_1281nat * 0x2000_0000_0000_0000_0000_0000_0000_0000nat == 0x1_ad22_4105_110f_b8d1_4422_c9f1_d06b_42ce_ccaa_c1dd_ed3f_caf3_4250_2000_0000_0000_0000_0000_0000_0000_0000nat);
    lemma_power_known(
        0x3f05_5ff7, 0x85_5ff7, 125, 0x2000_0000_0000_0000_0000_0000_0000_0000nat,
        205025, 0x1e_9e47_0a9f_2ea1,
        0x3a9_7a82_4222_5007_6bed_887c_4141nat,
        269025, 0x45_2c59_9066_9ca1,
        0x12b0_eff6_c049_6d6d_d948_5020_9d41nat,
        0x1_15f3_6867_8169, 0x1_2dc8_a75f_5d21_2a54_b3e8_fd11nat,
        0x1_15f3_6c92_8121, 0x1_2dc8_b06c_579e_7f71_62c6_4641nat,
    );
}

/// Code 192.
proof fn lemma_entry_192()
    ensures
        nearest_to_power(0x3f06_f104, 206025, 269025),
{
    lemma_fifth_powers_of_two();
    assert(206025nat * 206025 * 206025 == 0x1f_1187_c419_1519);
    assert(0x1f_1187_c419_1519 * 0x1f_1187_c419_1519 == 0x3c5_4014_ce1e_d985_fd21_689f_1c71nat);
    assert(0x10d_e207 * 0x10d_e207 == 0x1_1c84_ca46_5c31);
    assert(0x1_1c84_ca46_5c31 * 0x1_1c84_ca46_5c31 == 0x1_3c36_e5ad_54ee_e75b_dfff_4161nat);
    assert(0x10d_e209 * 0x10d_e209 == 0x1_1c84_ce7d_e451);
    assert(0x1_1c84_ce7d_e451 * 0x1_1c84_ce7d_e451 == 0x1_3c36_ef0c_eaf6_04e3_1eba_61a1nat);
    assert(269025nat * 269025 * 269025 == 0x45_2c59_9066_9ca1);
    assert(0x45_2c59_9066_9ca1 * 0x45_2c59_9066_9ca1 == 0x12b0_eff6_c049_6d6d_d948_5020_9d41nat);
    assert(0x12b0_eff6_c049_6d6d_d948_5020_9d41nat * 0x12b0_eff6_c049_6d6d_d948_5020_9d41nat == 0x15d_5c09_8741_6139_2178_92b9_bce5_5f46_89a2_dd05_b95f_0d00_50d8_ca81nat);
    assert(0x3c5_4014_ce1e_d985_fd21_689f_1c71nat * 0x3c5_4014_ce1e_d985_fd21_689f_1c71nat == 0xe_377c_2ce4_5d54_33b1_032a_58b1_d877_2b18_072d_c168_5922_2786_e9e1nat);
    assert(0x1_3c36_e5ad_54ee_e75b_dfff_4161nat * 0x10d_e207 == 0x14d_5ce0_7365_8bc1_5651_ce7a_2a9f_6ba7nat);
    assert(0x1_3c36_ef0c_eaf6_04e3_1eba_61a1nat * 0x10d_e209 == 0x14d_5cec_cd8a_b364_959d_f6f5_34ea_90a9nat);
    assert(0x14d_5ce0_7365_8bc1_5651_ce7a_2a9f_6ba7nat * 0x15d_5c09_8741_6139_2178_92b9_bce5_5f46_89a2_dd05_b95f_0d00_50d8_ca81nat == 0x1_c6ef_77c6_5fe9_9fcc_3b82_10b8_fce1_5596_efd3_cdb6_4009_8170_f3ff_0ad3_2acd_9fe5_df77_2afb_b458_4a2f_0527nat);
    assert(0x14d_5cec_cd8a_b364_959d_f6f5_34ea_90a9nat * 0x15d_5c09_8741_6139_2178_92b9_bce5_5f46_89a2_dd05_b95f_0d00_50d8_ca81nat == 0x1_c6ef_88a1_b56b_b597_c211_c33e_b343_56a0_95fa_7394_bf10_c51c_6704_3aaa_05d1_3140_afc5_c1f4_756f_9ef0_3f29nat);
    assert(0xe_377c_2ce4_5d54_33b1_032a_58b1_d877_2b18_072d_c168_5922_2786_e9e1nat * 0x2000_0000_0000_0000_0000_0000_0000_0000nat == 0x1_c6ef_859c_8baa_8676_2065_4b16_3b0e_e563_00e5_b82d_0b24_44f0_dd3c_2000_0000_0000_0000_0000_0000_0000_0000nat);
    lemma_power_known(
        0x3f06_f104, 0x86_f104, 125, 0x2000_0000_0000_0000_0000_0000_0000_0000nat,
        206025, 0x1f_1187_c419_1519,
        0x3c5_4014_ce1e_d985_fd21_689f_1c71nat,
        269025, 0x45_2c59_9066_9ca1,
        0x12b0_eff6_c049_6d6d_d948_5020_9d41nat,
        0x1_1c84_ca46_5c31, 0x1_3c36_e5ad_54ee_e75b_dfff_4161nat,
        0x1_1c84_ce7d_e451, 0x1_3c36_ef0c_eaf6_04e3_1eba_61a1nat,
    );
}

/// Code 193.
proof fn lemma_entry_193()
    ensures
        nearest_to_power(0x3f08_84cd, 207025, 269025),
{
    lemma_fifth_powers_of_two();
    assert(207025nat * 207025 * 207025 == 0x1f_85e8_4ddb_1511);
    assert(0x1f_85e8_4ddb_1511 * 0x1f_85e8_4ddb_1511 == 0x3e1_b44e_0ec1_f2c5_5ef9_46d1_cb21nat);
    assert(0x111_0999 * 0x111_0999 == 0x1_2335_78ae_1d71);
    assert(0x1_2335_78ae_1d71 * 0x1_2335_78ae_1d71 == 0x1_4b42_9b87_07ea_c8cf_f8fe_cbe1nat);
    assert(0x111_099b * 0x111_099b == 0x1_2335_7cf2_43d9);
    assert(0x1_2335_7cf2_43d9 * 0x1_2335_7cf2_43d9 == 0x1_4b42_a53b_bf8b_04d8_903f_4df1nat);
    assert(269025nat * 269025 * 269025 == 0x45_2c59_9066_9ca1);
    assert(0x45_2c59_9066_9ca1 * 0x45_2c59_9066_9ca1 == 0x12b0_eff6_c049_6d6d_d948_5020_9d41nat);
    assert(0x12b0_eff6_c049_6d6d_d948_5020_9d41nat * 0x12b0_eff6_c049_6d6d_d948_5020_9d41nat == 0x15d_5c09_8741_6139_2178_92b9_bce5_5f46_89a2_dd05_b95f_0d00_50d8_ca81nat);
    assert(0x3e1_b44e_0ec1_f2c5_5ef9_46d1_cb21nat * 0x3e1_b44e_0ec1_f2c5_5ef9_46d1_cb21nat == 0xf_1138_448c_592b_1b9a_1129_5d3e_3ad6_836f_896b_edaa_c935_590f_5a41nat);
    assert(0x1_4b42_9b87_07ea_c8cf_f8fe_cbe1nat * 0x111_0999 == 0x161_4e73_2d46_245b_2229_dbc4_3063_c279nat);
    assert(0x1_4b42_a53b_bf8b_04d8_903f_4df1nat * 0x111_099b == 0x161_4e80_1de0_6829_0749_5fb3_ae12_a9ebnat);
    assert(0x161_4e73_2d46_245b_2229_dbc4_3063_c279nat * 0x15d_5c09_8741_6139_2178_92b9_bce5_5f46_89a2_dd05_b95f_0d00_50d8_ca81nat == 0x1_e226_f85c_898b_3276_63d7_e95c_e9d5_288f_4bef_cc6d_6fa0_a957_4ec7_82e2_d548_a7f0_6740_a7ef_b1fc_ffd0_78f9nat);
    assert(0x161_4e80_1de0_6829_0749_5fb3_ae12_a9ebnat * 0x15d_5c09_8741_6139_2178_92b9_bce5_5f46_89a2_dd05_b95f_0d00_50d8_ca81nat == 0x1_e227_0a05_32cc_5e21_7b5d_aaa1_f3c2_6ee0_e33c_0e45_95e4_0069_c08f_bf79_9791_b842_5663_4b53_a4be_3fc3_0d6bnat);
    assert(0xf_1138_448c_592b_1b9a_1129_5d3e_3ad6_836f_896b_edaa_c935_590f_5a41nat * 0x2000_0000_0000_0000_0000_0000_0000_0000nat == 0x1_e227_0891_8b25_6373_4225_2ba7_c75a_d06d_f12d_7db5_5926_ab21_eb48_2000_0000_0000_0000_0000_0000_0000_0000nat);
    lemma_power_known(
        0x3f08_84cd, 0x88_84cd, 125, 0x2000_0000_0000_0000_0000_0000_0000_0000nat,
        207025, 0x1f_85e8_4ddb_1511,
        0x3e1_b44e_0ec1_f2c5_5ef9_46d1_cb21nat,
        269025, 0x45_2c59_9066_9ca1,
        0x12b0_eff6_c049_6d6d_d948_5020_9d41nat,
        0x1_2335_78ae_1d71, 0x1_4b42_9b87_07ea_c8cf_f8fe_cbe1nat,
        0x1_2335_7cf2_43d9, 0x1_4b42_a53b_bf8b_04d8_903f_4df1nat,
    );
}

/// Code 194.
proof fn lemma_entry_194()
    ensures
        nearest_to_power(0x3f0a_1b54, 208025, 269025),
{
    lemma_fifth_powers_of_two();
    assert(208025nat * 208025 * 208025 == 0x1f_fb6a_0d85_ea89);
    assert(0x1f_fb6a_0d85_ea89 * 0x1f_fb6a_0d85_ea89 == 0x3fe_da98_68e2_9ab3_bf53_7338_bd51nat);
    assert(0x114_36a7 * 0x114_36a7 == 0x1_2a05_e3c2_e0f1);
    assert(0x1_2a05_e3c2_e0f1 * 0x1_2a05_e3c2_e0f1 == 0x1_5af1_b664_63f1_0caf_18ea_a2e1nat);
    assert(0x114_36a9 * 0x114_36a9 == 0x1_2a05_e813_bb91);
    assert(0x1_2a05_e813_bb91 * 0x1_2a05_e813_bb91 == 0x1_5af1_c070_d3d6_ad26_30f3_2821nat);
    assert(269025nat * 269025 * 269025 == 0x45_2c59_9066_9ca1);
    assert(0x45_2c59_9066_9ca1 * 0x45_2c59_9066_9ca1 == 0x12b0_eff6_c049_6d6d_d948_5020_9d41nat);
    assert(0x12b0_eff6_c049_6d6d_d948_5020_9d41nat * 0x12b0_eff6_c049_6d6d_d948_5020_9d41nat == 0x15d_5c09_8741_6139_2178_92b9_bce5_5f46_89a2_dd05_b95f_0d00_50d8_ca81nat);
    assert(0x3fe_da98_68e2_9ab3_bf53_7338_bd51nat * 0x3fe_da98_68e2_9ab3_bf53_7338_bd51nat == 0xf_f6d6_138d_5ea9_dab6_5be0_daab_65e5_d281_1944_c86b_a730_2570_b3a1nat);
    assert(0x1_5af1_b664_63f1_0caf_18ea_a2e1nat * 0x114_36a7 == 0x176_56a9_f462_e873_b7b3_1272_59ff_b6c7nat);
    assert(0x1_5af1_c070_d3d6_ad26_30f3_2821nat * 0x114_36a9 == 0x176_56b7_81d4_3a9d_ce6b_22b0_de90_73c9nat);
    assert(0x176_56a9_f462_e873_b7b3_1272_59ff_b6c7nat * 0x15d_5c09_8741_6139_2178_92b9_bce5_5f46_89a2_dd05_b95f_0d00_50d8_ca81nat == 0x1_feda_bac6_11f1_d42d_09d3_fa5d_311b_8619_8573_fa18_2f24_8a2f_e2aa_71fe_0aa8_bb6c_c28d_c987_7a83_87fc_2047nat);
    assert(0x176_56b7_81d4_3a9d_ce6b_22b0_de90_73c9nat * 0x15d_5c09_8741_6139_2178_92b9_bce5_5f46_89a2_dd05_b95f_0d00_50d8_ca81nat == 0x1_feda_cd44_c4c4_b31d_d81f_548c_b4c1_8c2e_b8c5_de3e_a630_9f55_04e8_f782_2888_ac0e_7223_a69d_2dce_a3be_f249nat);
    assert(0xf_f6d6_138d_5ea9_dab6_5be0_daab_65e5_d281_1944_c86b_a730_2570_b3a1nat * 0x2000_0000_0000_0000_0000_0000_0000_0000nat == 0x1_feda_c271_abd5_3b56_cb7c_1b55_6cbc_ba50_2328_990d_74e6_04ae_1674_2000_0000_0000_0000_0000_0000_0000_0000nat);
    lemma_power_known(
        0x3f0a_1b54, 0x8a_1b54, 125, 0x2000_0000_0000_0000_0000_0000_0000_0000nat,
        208025, 0x1f_fb6a_0d85_ea89,
        0x3fe_da98_68e2_9ab3_bf53_7338_bd51nat,
        269025, 0x45_2c59_9066_9ca1,
        0x12b0_eff6_c049_6d6d_d948_5020_9d41nat,
        0x1_2a05_e3c2_e0f1, 0x1_5af1_b664_63f1_0caf_18ea_a2e1nat,
        0x1_2a05_e813_bb91, 0x1_5af1_c070_d3d6_ad26_30f3_2821nat,
    );
}

/// Code 195.
proof fn lemma_entry_195()
    ensures
        nearest_to_power(0x3f0b_b499, 209025, 269025),
{
    lemma_fifth_powers_of_two();
    assert(209025nat * 209025 * 209025 == 0x20_720e_68ba_5181);
    assert(0x20_720e_68ba_5181 * 0x20_720e_68ba_5181 == 0x41c_b66b_04a9_f00f_b7ef_5966_e301nat);
    assert(0x117_6931 * 0x117_6931 == 0x1_30f6_7407_3b61);
    assert(0x1_30f6_7407_3b61 * 0x1_30f6_7407_3b61 == 0x1_6b4a_40d4_5f83_0c70_3513_dac1nat);
    assert(0x117_6933 * 0x117_6933 == 0x1_30f6_7864_e029);
    assert(0x1_30f6_7864_e029 * 0x1_30f6_7864_e029 == 0x1_6b4a_4b3b_2ede_e8b2_544f_c691nat);
    assert(269025nat * 269025 * 269025 == 0x45_2c59_9066_9ca1);
    assert(0x45_2c59_9066_9ca1 * 0x45_2c59_9066_9ca1 == 0x12b0_eff6_c049_6d6d_d948_5020_9d41nat);
    assert(0x12b0_eff6_c049_6d6d_d948_5020_9d41nat * 0x12b0_eff6_c049_6d6d_d948_5020_9d41nat == 0x15d_5c09_8741_6139_2178_92b9_bce5_5f46_89a2_dd05_b95f_0d00_50d8_ca81nat);
    assert(0x41c_b66b_04a9_f00f_b7ef_5966_e301nat * 0x41c_b66b_04a9_f00f_b7ef_5966_e301nat == 0x10_e8eb_c18a_ac0b_88aa_7e22_2e6a_85a6_499b_349b_9ffd_fd0e_6016_c601nat);
    assert(0x1_6b4a_40d4_5f83_0c70_3513_dac1nat * 0x117_6931 == 0x18c_8333_a541_9ba5_9679_3fe2_b5dd_07f1nat);
    assert(0x1_6b4a_4b3b_2ede_e8b2_544f_c691nat * 0x117_6933 == 0x18c_8341_d628_57f3_5e33_630c_ec5d_07e3nat);
    assert(0x18c_8333_a541_9ba5_9679_3fe2_b5dd_07f1nat * 0x15d_5c09_8741_6139_2178_92b9_bce5_5f46_89a2_dd05_b95f_0d00_50d8_ca81nat == 0x2_1d1d_6b50_f519_b672_4cb6_df4a_f605_e18b_0fa0_c7c2_e4dc_2c25_773e_73eb_9cab_2d17_e125_9476_d6b8_0ffd_2a71nat);
    assert(0x18c_8341_d628_57f3_5e33_630c_ec5d_07e3nat * 0x15d_5c09_8741_6139_2178_92b9_bce5_5f46_89a2_dd05_b95f_0d00_50d8_ca81nat == 0x2_1d1d_7eae_b9c2_8fad_a390_b9ce_bc02_9b21_b74c_9f7c_7f5b_138f_e91b_3e4e_b094_1d6a_9bef_5275_23fa_1aa2_1763nat);
    assert(0x10_e8eb_c18a_ac0b_88aa_7e22_2e6a_85a6_499b_349b_9ffd_fd0e_6016_c601nat * 0x2000_0000_0000_0000_0000_0000_0000_0000nat == 0x2_1d1d_7831_5581_7115_4fc4_45cd_50b4_c933_6693_73ff_bfa1_cc02_d8c0_2000_0000_0000_0000_0000_0000_0000_0000nat);
    lemma_power_known(
        0x3f0b_b499, 0x8b_b499, 125, 0x2000_0000_0000_0000_0000_0000_0000_0000nat,
        209025, 0x20_720e_68ba_5181,
        0x41c_b66b_04a9_f00f_b7ef_5966_e301nat,
        269025, 0x45_2c59_9066_9ca1,
        0x12b0_eff6_c049_6d6d_d948_5020_9d41nat,
        0x1_30f6_7407_3b61, 0x1_6b4a_40d4_5f83_0c70_3513_dac1nat,
        0x1_30f6_7864_e029, 0x1_6b4a_4b3b_2ede_e8b2_544f_c691nat,
    );
}

/// Code 196.
proof fn lemma_entry_196()
    ensures
        nearest_to_power(0x3f0d_509f, 210025, 269025),
{
    lemma_fifth_powers_of_two();
    assert(210025nat * 210025 * 210025 == 0x20_e9d6_c519_05f9);
    assert(0x20_e9d6_c519_05f9 * 0x20_e9d6_c519_05f9 == 0x43b_4b49_ed37_28b4_c3ef_64c5_ac31nat);
    assert(0x11a_a13d * 0x11a_a13d == 0x1_3807_9ff1_c889);
    assert(0x1_3807_9ff1_c889 * 0x1_3807_9ff1_c889 == 0x1_7c52_9617_7bf5_22f3_5d08_5951nat);
    assert(0x11a_a13f * 0x11a_a13f == 0x1_3807_a45c_4d81);
    assert(0x1_3807_a45c_4d81 * 0x1_3807_a45c_4d81 == 0x1_7c52_a0db_637d_11a3_142e_db01nat);
    assert(269025nat * 269025 * 269025 == 0x45_2c59_9066_9ca1);
    assert(0x45_2c59_9066_9ca1 * 0x45_2c59_9066_9ca1 == 0x12b0_eff6_c049_6d6d_d948_5020_9d41nat);
    assert(0x12b0_eff6_c049_6d6d_d948_5020_9d41nat * 0x12b0_eff6_c049_6d6d_d948_5020_9d41nat == 0x15d_5c09_8741_6139_2178_92b9_bce5_5f46_89a2_dd05_b95f_0d00_50d8_ca81nat);
    assert(0x43b_4b49_ed37_28b4_c3ef_64c5_ac31nat * 0x43b_4b49_ed37_28b4_c3ef_64c5_ac31nat == 0x11_e816_19a1_7709_e090_1aa5_db00_a089_25ce_c639_e9fd_30a6_bf3b_e161nat);
    assert(0x1_7c52_9617_7bf5_22f3_5d08_5951nat * 0x11a_a13d == 0x1a3_e283_e5f1_1496_3478_dcb1_ce63_394dnat);
    assert(0x1_7c52_a0db_637d_11a3_142e_db01nat * 0x11a_a13f == 0x1a3_e292_c12b_2754_9183_2270_ae5d_863fnat);
    assert(0x1a3_e283_e5f1_1496_3478_dcb1_ce63_394dnat * 0x15d_5c09_8741_6139_2178_92b9_bce5_5f46_89a2_dd05_b95f_0d00_50d8_ca81nat == 0x2_3d02_c2d8_ae9e_51ed_106d_f78b_2dc2_bd4e_01ff_6d6d_4838_6fca_f1e4_254a_c3e7_1753_da40_880c_9113_b42e_a1cdnat);
    assert(0x1a3_e292_c12b_2754_9183_2270_ae5d_863fnat * 0x15d_5c09_8741_6139_2178_92b9_bce5_5f46_89a2_dd05_b95f_0d00_50d8_ca81nat == 0x2_3d02_d71e_e420_4c9f_e792_eadf_adaa_4526_ba98_bb85_cc61_086c_ca99_f4be_ecfe_aec3_53a5_2a03_d03a_9e36_5bbfnat);
    assert(0x11_e816_19a1_7709_e090_1aa5_db00_a089_25ce_c639_e9fd_30a6_bf3b_e161nat * 0x2000_0000_0000_0000_0000_0000_0000_0000nat == 0x2_3d02_c334_2ee1_3c12_0354_bb60_1411_24b9_d8c7_3d3f_a614_d7e7_7c2c_2000_0000_0000_0000_0000_0000_0000_0000nat);
    lemma_power_known(
        0x3f0d_509f, 0x8d_509f, 125, 0x2000_0000_0000_0000_0000_0000_0000_0000nat,
        210025, 0x20_e9d6_c519_05f9,
        0x43b_4b49_ed37_28b4_c3ef_64c5_ac31nat,
        269025, 0x45_2c59_9066_9ca1,
        0x12b0_eff6_c049_6d6d_d948_5020_9d41nat,
        0x1_3807_9ff1_c889, 0x1_7c52_9617_7bf5_22f3_5d08_5951nat,
        0x1_3807_a45c_4d81, 0x1_7c52_a0db_637d_11a3_142e_db01nat,
    );
}

/// Code 197.
proof fn lemma_entry_197()
    ensures
        nearest_to_power(0x3f0e_ef65, 211025, 269025),
{
    lemma_fifth_powers_of_two();
    assert(211025nat * 211025 * 211025 == 0x21_62c4_8842_c3f1);
    assert(0x21_62c4_8842_c3f1 * 0x21_62c4_8842_c3f1 == 0x45a_9cc6_306a_90e9_8ea1_ae3d_08e1nat);
    assert(0x11d_dec9 * 0x11d_dec9 == 0x1_3f39_cd6b_39d1);
    assert(0x1_3f39_cd6b_39d1 * 0x1_3f39_cd6b_39d1 == 0x1_8e11_1afe_58ab_8494_1bc4_bca1nat);
    assert(0x11d_decb * 0x11d_decb == 0x1_3f39_d1e2_b4f9);
    assert(0x1_3f39_d1e2_b4f9 * 0x1_3f39_d1e2_b4f9 == 0x1_8e11_2622_220d_1924_9993_1a31nat);
    assert(269025nat * 269025 * 269025 == 0x45_2c59_9066_9ca1);
    assert(0x45_2c59_9066_9ca1 * 0x45_2c59_9066_9ca1 == 0x12b0_eff6_c049_6d6d_d948_5020_9d41nat);
    assert(0x12b0_eff6_c049_6d6d_d948_5020_9d41nat * 0x12b0_eff6_c049_6d6d_d948_5020_9d41nat == 0x15d_5c09_8741_6139_2178_92b9_bce5_5f46_89a2_dd05_b95f_0d00_50d8_ca81nat);
    assert(0x45a_9cc6_306a_90e9_8ea1_ae3d_08e1nat * 0x45a_9cc6_306a_90e9_8ea1_ae3d_08e1nat == 0x12_f4f8_ccdf_83e5_ff4a_48f2_0293_8435_f7b7_52d3_9ec7_cda1_1788_d5c1nat);
    assert(0x1_8e11_1afe_58ab_8494_1bc4_bca1nat * 0x11d_dec9 == 0x1bc_8376_6dff_798a_f486_7264_6848_b869nat);
    assert(0x1_8e11_2622_220d_1924_9993_1a31nat * 0x11d_decb == 0x1bc_8385_faaa_bf2d_59ef_a5f7_80e9_42dbnat);
    assert(0x1bc_8376_6dff_798a_f486_7264_6848_b869nat * 0x15d_5c09_8741_6139_2178_92b9_bce5_5f46_89a2_dd05_b95f_0d00_50d8_ca81nat == 0x2_5e9f_083d_fed4_062f_7b5d_f411_01c1_aa51_7d0c_eab4_4f50_8bed_3b5a_9570_8264_87ca_d1c0_34a5_eade_56bf_c6e9nat);
    assert(0x1bc_8385_faaa_bf2d_59ef_a5f7_80e9_42dbnat * 0x15d_5c09_8741_6139_2178_92b9_bce5_5f46_89a2_dd05_b95f_0d00_50d8_ca81nat == 0x2_5e9f_1d76_5b73_aac6_7beb_3485_72e6_7458_e3e5_da01_1b98_41d5_b34f_6abe_93f1_888d_3b95_b67f_b624_dd13_7e5bnat);
    assert(0x12_f4f8_ccdf_83e5_ff4a_48f2_0293_8435_f7b7_52d3_9ec7_cda1_1788_d5c1nat * 0x2000_0000_0000_0000_0000_0000_0000_0000nat == 0x2_5e9f_199b_f07c_bfe9_491e_4052_7086_bef6_ea5a_73d8_f9b4_22f1_1ab8_2000_0000_0000_0000_0000_0000_0000_0000nat);
    lemma_power_known(
        0x3f0e_ef65, 0x8e_ef65, 125, 0x2000_0000_0000_0000_0000_0000_0000_0000nat,
        211025, 0x21_62c4_8842_c3f1,
        0x45a_9cc6_306a_90e9_8ea1_ae3d_08e1nat,
        269025, 0x45_2c59_9066_9ca1,
        0x12b0_eff6_c049_6d6d_d948_5020_9d41nat,
        0x1_3f39_cd6b_39d1, 0x1_8e11_1afe_58ab_8494_1bc4_bca1nat,
        0x1_3f39_d1e2_b4f9, 0x1_8e11_2622_220d_1924_9993_1a31nat,
    );
}

/// Code 198.
proof fn lemma_entry_198()
    ensures
        nearest_to_power(0x3f10_90ef, 212025, 269025),
{
    lemma_fifth_powers_of_two();
    assert(212025nat * 212025 * 212025 == 0x21_dcd9_17d8_4769);
    assert(0x21_dcd9_17d8_4769 * 0x21_dcd9_17d8_4769 == 0x47a_ae7d_fed7_92b0_1b8f_731b_6911nat);
    assert(0x121_21dd * 0x121_21dd == 0x1_468d_7974_b8c9);
    assert(0x1_468d_7974_b8c9 * 0x1_468d_7974_b8c9 == 0x1_a08c_9f84_4ad3_054f_fd89_8dd1nat);
    assert(0x121_21df * 0x121_21df == 0x1_468d_7df9_4041);
    assert(0x1_468d_7df9_4041 * 0x1_468d_7df9_4041 == 0x1_a08c_ab0a_d233_af07_8892_9081nat);
    assert(269025nat * 269025 * 269025 == 0x45_2c59_9066_9ca1);
    assert(0x45_2c59_9066_9ca1 * 0x45_2c59_9066_9ca1 == 0x12b0_eff6_c049_6d6d_d948_5020_9d41nat);
    assert(0x12b0_eff6_c049_6d6d_d948_5020_9d41nat * 0x12b0_eff6_c049_6d6d_d948_5020_9d41nat == 0x15d_5c09_8741_6139_2178_92b9_bce5_5f46_89a2_dd05_b95f_0d00_50d8_ca81nat);
    assert(0x47a_ae7d_fed7_92b0_1b8f_731b_6911nat * 0x47a_ae7d_fed7_92b0_1b8f_731b_6911nat == 0x14_103e_b6fd_267d_3853_e261_aa84_a3be_faa3_52bf_6fea_9a52_9ab4_f321nat);
    assert(0x1_a08c_9f84_4ad3_054f_fd89_8dd1nat * 0x121_21dd == 0x1d6_75d9_ce4e_3b12_cb28_1e05_b3f8_5e6dnat);
    assert(0x1_a08c_ab0a_d233_af07_8892_9081nat * 0x121_21df == 0x1d6_75ea_13cc_afde_5c16_9d9f_fded_815fnat);
    assert(0x1d6_75d9_ce4e_3b12_cb28_1e05_b3f8_5e6dnat * 0x15d_5c09_8741_6139_2178_92b9_bce5_5f46_89a2_dd05_b95f_0d00_50d8_ca81nat == 0x2_8207_cdcb_3bbf_5a57_b4d0_efeb_c811_a8d9_ce1d_8a8d_6167_876d_3f43_ab2b_aee4_b76b_0cad_9033_a0f3_66a1_96ednat);
    assert(0x1d6_75ea_13cc_afde_5c16_9d9f_fded_815fnat * 0x15d_5c09_8741_6139_2178_92b9_bce5_5f46_89a2_dd05_b95f_0d00_50d8_ca81nat == 0x2_8207_e3ff_d2b9_1015_0fdc_38a6_731e_bb48_30d7_7ccb_4cc2_18c7_34e8_e361_370f_53a0_5f6d_f6f0_f7cf_34eb_26dfnat);
    assert(0x14_103e_b6fd_267d_3853_e261_aa84_a3be_faa3_52bf_6fea_9a52_9ab4_f321nat * 0x2000_0000_0000_0000_0000_0000_0000_0000nat == 0x2_8207_d6df_a4cf_a70a_7c4c_3550_9477_df54_6a57_edfd_534a_5356_9e64_2000_0000_0000_0000_0000_0000_0000_0000nat);
    lemma_power_known(
        0x3f10_90ef, 0x90_90ef, 125, 0x2000_0000_0000_0000_0000_0000_0000_0000nat,
        212025, 0x21_dcd9_17d8_4769,
        0x47a_ae7d_fed7_92b0_1b8f_731b_6911nat,
        269025, 0x45_2c59_9066_9ca1,
        0x12b0_eff6_c049_6d6d_d948_5020_9d41nat,
        0x1_468d_7974_b8c9, 0x1_a08c_9f84_4ad3_054f_fd89_8dd1nat,
        0x1_468d_7df9_4041, 0x1_a08c_ab0a_d233_af07_8892_9081nat,
    );
}

/// Code 199.
proof fn lemma_entry_199()
    ensures
        nearest_to_power(0x3f12_353d, 213025, 269025),
{
    lemma_fifth_powers_of_two();
    assert(213025nat * 213025 * 213025 == 0x22_5815_d97a_4c61);
    assert(0x22_5815_d97a_4c61 * 0x22_5815_d97a_4c61 == 0x49b_841c_cbdd_c517_c7d3_553d_bcc1nat);
    assert(0x124_6a79 * 0x124_6a79 == 0x1_4e03_1050_6d31);
    assert(0x1_4e03_1050_6d31 * 0x1_4e03_1050_6d31 == 0x1_b3cb_fe9b_3fd8_9210_8d32_c361nat);
    assert(0x124_6a7b * 0x124_6a7b == 0x1_4e03_14e2_1719);
    assert(0x1_4e03_14e2_1719 * 0x1_4e03_14e2_1719 == 0x1_b3cc_0a87_7345_e1de_b239_8071nat);
    assert(269025nat * 269025 * 269025 == 0x45_2c59_9066_9ca1);
    assert(0x45_2c59_9066_9ca1 * 0x45_2c59_9066_9ca1 == 0x12b0_eff6_c049_6d6d_d948_5020_9d41nat);
    assert(0x12b0_eff6_c049_6d6d_d948_5020_9d41nat * 0x12b0_eff6_c049_6d6d_d948_5020_9d41nat == 0x15d_5c09_8741_6139_2178_92b9_bce5_5f46_89a2_dd05_b95f_0d00_50d8_ca81nat);
    assert(0x49b_841c_cbdd_c517_c7d3_553d_bcc1nat * 0x49b_841c_cbdd_c517_c7d3_553d_bcc1nat == 0x15_3a9a_256b_822f_5727_ae8a_6680_b1b0_2d4e_8dce_9049_4261_a926_0981nat);
    assert(0x1_b3cb_fe9b_3fd8_9210_8d32_c361nat * 0x124_6a79 == 0x1f1_c9ee_dbec_72d7_74b8_f230_9c88_82d9nat);
    assert(0x1_b3cc_0a87_7345_e1de_b239_8071nat * 0x124_6a7b == 0x1f1_c9ff_e1e4_a084_f41d_0561_f1b3_804bnat);
    assert(0x1f1_c9ee_dbec_72d7_74b8_f230_9c88_82d9nat * 0x15d_5c09_8741_6139_2178_92b9_bce5_5f46_89a2_dd05_b95f_0d00_50d8_ca81nat == 0x2_a753_41ba_c265_8c89_ac3f_d4df_c8ec_d52a_f122_13d5_f776_65e1_c093_32cb_b3b1_da6f_40ce_9867_2714_cf21_2959nat);
    assert(0x1f1_c9ff_e1e4_a084_f41d_0561_f1b3_804bnat * 0x15d_5c09_8741_6139_2178_92b9_bce5_5f46_89a2_dd05_b95f_0d00_50d8_ca81nat == 0x2_a753_58f6_0483_36b3_27b9_1f20_df48_27f3_95d5_7157_ac3f_c5f8_8006_9bf1_a2a1_7856_78d8_fb63_d59e_1df6_d3cbnat);
    assert(0x15_3a9a_256b_822f_5727_ae8a_6680_b1b0_2d4e_8dce_9049_4261_a926_0981nat * 0x2000_0000_0000_0000_0000_0000_0000_0000nat == 0x2_a753_44ad_7045_eae4_f5d1_4cd0_1636_05a9_d1b9_d209_284c_3524_c130_2000_0000_0000_0000_0000_0000_0000_0000nat);
    lemma_power_known(
        0x3f12_353d, 0x92_353d, 125, 0x2000_0000_0000_0000_0000_0000_0000_0000nat,
        213025, 0x22_5815_d97a_4c61,
        0x49b_841c_cbdd_c517_c7d3_553d_bcc1nat,
        269025, 0x45_2c59_9066_9ca1,
        0x12b0_eff6_c049_6d6d_d948_5020_9d41nat,
        0x1_4e03_1050_6d31, 0x1_b3cb_fe9b_3fd8_9210_8d32_c361nat,
        0x1_4e03_14e2_1719, 0x1_b3cc_0a87_7345_e1de_b239_8071nat,
    );
}

/// Code 200.
proof fn lemma_entry_200()
    ensures
        nearest_to_power(0x3f13_dc50, 214025, 269025),
{
    lemma_fifth_powers_of_two();
    assert(214025nat * 214025 * 214025 == 0x22_d47c_32c9_8ed9);
    assert(0x22_d47c_32c9_8ed9 * 0x22_d47c_32c9_8ed9 == 0x4bd_215b_6de9_0391_24b6_6477_73f1nat);
    assert(0x127_b89f * 0x127_b89f == 0x1_559b_0396_f2c1);
    assert(0x1_559b_0396_f2c1 * 0x1_559b_0396_f2c1 == 0x1_c7d6_556d_7b8d_0267_e65d_7581nat);
    assert(0x127_b8a1 * 0x127_b8a1 == 0x1_559b_0835_d541);
    assert(0x1_559b_0835_d541 * 0x1_559b_0835_d541 == 0x1_c7d6_61c2_5b92_cf5c_0e8f_3a81nat);
    assert(269025nat * 269025 * 269025 == 0x45_2c59_9066_9ca1);
    assert(0x45_2c59_9066_9ca1 * 0x45_2c59_9066_9ca1 == 0x12b0_eff6_c049_6d6d_d948_5020_9d41nat);
    assert(0x12b0_eff6_c049_6d6d_d948_5020_9d41nat * 0x12b0_eff6_c049_6d6d_d948_5020_9d41nat == 0x15d_5c09_8741_6139_2178_92b9_bce5_5f46_89a2_dd05_b95f_0d00_50d8_ca81nat);
    assert(0x4bd_215b_6de9_0391_24b6_6477_73f1nat * 0x4bd_215b_6de9_0391_24b6_6477_73f1nat == 0x16_74c5_20c8_4529_333a_1e3c_4b17_d162_0bbe_b0ef_96e4_2cfd_4690_68e1nat);
    assert(0x1_c7d6_556d_7b8d_0267_e65d_7581nat * 0x127_b89f == 0x20e_90b9_9caf_1f4a_dc09_a1cd_a827_b31fnat);
    assert(0x1_c7d6_61c2_5b92_cf5c_0e8f_3a81nat * 0x127_b8a1 == 0x20e_90cb_6b0e_b33a_0f73_5a68_84c7_8321nat);
    assert(0x20e_90b9_9caf_1f4a_dc09_a1cd_a827_b31fnat * 0x15d_5c09_8741_6139_2178_92b9_bce5_5f46_89a2_dd05_b95f_0d00_50d8_ca81nat == 0x2_ce98_9ca6_9a5f_b58f_822a_0288_1f49_b620_0811_80f8_3f3c_502d_4ee5_048c_9204_94f0_4c5b_2832_abc9_e17f_b89fnat);
    assert(0x20e_90cb_6b0e_b33a_0f73_5a68_84c7_8321nat * 0x15d_5c09_8741_6139_2178_92b9_bce5_5f46_89a2_dd05_b95f_0d00_50d8_ca81nat == 0x2_ce98_b4f3_5980_658f_53a0_ace1_ae4f_7b13_9da5_761f_06f9_dd67_7ce5_63ba_546f_51f5_0537_640d_15c1_49d9_1da1nat);
    assert(0x16_74c5_20c8_4529_333a_1e3c_4b17_d162_0bbe_b0ef_96e4_2cfd_4690_68e1nat * 0x2000_0000_0000_0000_0000_0000_0000_0000nat == 0x2_ce98_a419_08a5_2667_43c7_8962_fa2c_4177_d61d_f2dc_859f_a8d2_0d1c_2000_0000_0000_0000_0000_0000_0000_0000nat);
    lemma_power_known(
        0x3f13_dc50, 0x93_dc50, 125, 0x2000_0000_0000_0000_0000_0000_0000_0000nat,
        214025, 0x22_d47c_32c9_8ed9,
        0x4bd_215b_6de9_0391_24b6_6477_73f1nat,
        269025, 0x45_2c59_9066_9ca1,
        0x12b0_eff6_c049_6d6d_d948_5020_9d41nat,
        0x1_559b_0396_f2c1, 0x1_c7d6_556d_7b8d_0267_e65d_7581nat,
        0x1_559b_0835_d541, 0x1_c7d6_61c2_5b92_cf5c_0e8f_3a81nat,
    );
}

/// Code 201.
proof fn lemma_entry_201()
    ensures
        nearest_to_power(0x3f15_862a, 215025, 269025),
{
    lemma_fifth_powers_of_two();
    assert(215025nat * 215025 * 215025 == 0x23_520d_8966_cad1);
    assert(0x23_520d_8966_cad1 * 0x23_520d_8966_cad1 == 0x4df_8a00_3ed8_8d43_ab93_f13a_7ea1nat);
    assert(0x12b_0c53 * 0x12b_0c53 == 0x1_5d55_ca79_e2e9);
    assert(0x1_5d55_ca79_e2e9 * 0x1_5d55_ca79_e2e9 == 0x1_dcb3_06d0_69c4_8cd9_fd62_3811nat);
    assert(0x12b_0c55 * 0x12b_0c55 == 0x1_5d55_cf26_1439);
    assert(0x1_5d55_cf26_1439 * 0x1_5d55_cf26_1439 == 0x1_dcb3_1391_0a0b_7238_3084_f4b1nat);
    assert(269025nat * 269025 * 269025 == 0x45_2c59_9066_9ca1);
    assert(0x45_2c59_9066_9ca1 * 0x45_2c59_9066_9ca1 == 0x12b0_eff6_c049_6d6d_d948_5020_9d41nat);
    assert(0x12b0_eff6_c049_6d6d_d948_5020_9d41nat * 0x12b0_eff6_c049_6d6d_d948_5020_9d41nat == 0x15d_5c09_8741_6139_2178_92b9_bce5_5f46_89a2_dd05_b95f_0d00_50d8_ca81nat);
    assert(0x4df_8a00_3ed8_8d43_ab93_f13a_7ea1nat * 0x4df_8a00_3ed8_8d43_ab93_f13a_7ea1nat == 0x17_bf81_b8c8_8571_c0fc_1bdf_0f31_8467_3635_598e_b3ed_b2ae_c196_e141nat);
    assert(0x1_dcb3_06d0_69c4_8cd9_fd62_3811nat * 0x12b_0c53 == 0x22c_dc0b_e7c8_8318_03ee_d445_3d53_f983nat);
    assert(0x1_dcb3_1391_0a0b_7238_3084_f4b1nat * 0x12b_0c55 == 0x22c_dc1e_86c7_06ff_46c8_3a38_2258_8ac5nat);
    assert(0x22c_dc0b_e7c8_8318_03ee_d445_3d53_f983nat * 0x15d_5c09_8741_6139_2178_92b9_bce5_5f46_89a2_dd05_b95f_0d00_50d8_ca81nat == 0x2_f7f0_3009_3653_8ecd_8101_ba8a_6196_7f20_d500_7859_1967_779c_428f_0769_480c_c1b3_e232_b2b6_3d1b_a0ba_1903nat);
    assert(0x22c_dc1e_86c7_06ff_46c8_3a38_2258_8ac5nat * 0x15d_5c09_8741_6139_2178_92b9_bce5_5f46_89a2_dd05_b95f_0d00_50d8_ca81nat == 0x2_f7f0_4972_a922_4607_0b1d_e8d7_17ee_e190_95e8_0839_d2cf_3c33_d7a4_1c68_9cb9_531e_9b5a_ae15_4875_d255_5f45nat);
    assert(0x17_bf81_b8c8_8571_c0fc_1bdf_0f31_8467_3635_598e_b3ed_b2ae_c196_e141nat * 0x2000_0000_0000_0000_0000_0000_0000_0000nat == 0x2_f7f0_3719_10ae_381f_837b_e1e6_308c_e6c6_ab31_d67d_b655_d832_dc28_2000_0000_0000_0000_0000_0000_0000_0000nat);
    lemma_power_known(
        0x3f15_862a, 0x95_862a, 125, 0x2000_0000_0000_0000_0000_0000_0000_0000nat,
        215025, 0x23_520d_8966_cad1,
        0x4df_8a00_3ed8_8d43_ab93_f13a_7ea1nat,
        269025, 0x45_2c59_9066_9ca1,
        0x12b0_eff6_c049_6d6d_d948_5020_9d41nat,
        0x1_5d55_ca79_e2e9, 0x1_dcb3_06d0_69c4_8cd9_fd62_3811nat,
        0x1_5d55_cf26_1439, 0x1_dcb3_1391_0a0b_7238_3084_f4b1nat,
    );
}

/// Code 202.
proof fn lemma_entry_202()
    ensures
        nearest_to_power(0x3f17_32cc, 216025, 269025),
{
    lemma_fifth_powers_of_two();
    assert(216025nat * 216025 * 216025 == 0x23_d0cb_42f2_bc49);
    assert(0x23_d0cb_42f2_bc49 * 0x23_d0cb_42f2_bc49 == 0x502_c1df_3c8d_2c65_4b04_287f_4cd1nat);
    assert(0x12e_6597 * 0x12e_6597 == 0x1_6533_d894_7f11);
    assert(0x1_6533_d894_7f11 * 0x1_6533_d894_7f11 == 0x1_f269_a48e_2cca_f755_dab9_df21nat);
    assert(0x12e_6599 * 0x12e_6599 == 0x1_6533_dd4e_1571);
    assert(0x1_6533_dd4e_1571 * 0x1_6533_dd4e_1571 == 0x1_f269_b1bd_b439_9ddc_2ca7_bbe1nat);
    assert(269025nat * 269025 * 269025 == 0x45_2c59_9066_9ca1);
    assert(0x45_2c59_9066_9ca1 * 0x45_2c59_9066_9ca1 == 0x12b0_eff6_c049_6d6d_d948_5020_9d41nat);
    assert(0x12b0_eff6_c049_6d6d_d948_5020_9d41nat * 0x12b0_eff6_c049_6d6d_d948_5020_9d41nat == 0x15d_5c09_8741_6139_2178_92b9_bce5_5f46_89a2_dd05_b95f_0d00_50d8_ca81nat);
    assert(0x502_c1df_3c8d_2c65_4b04_287f_4cd1nat * 0x502_c1df_3c8d_2c65_4b04_287f_4cd1nat == 0x19_1b9a_52ac_d1e8_0fb9_e3e3_fbbd_6c4c_f389_bce0_564e_e3d6_9e6a_c2a1nat);
    assert(0x1_f269_a48e_2cca_f755_dab9_df21nat * 0x12e_6597 == 0x24c_be69_c9f4_fef8_4694_ca34_9198_a177nat);
    assert(0x1_f269_b1bd_b439_9ddc_2ca7_bbe1nat * 0x12e_6599 == 0x24c_be7d_4215_ae73_ab73_e414_80cd_0e79nat);
    assert(0x24c_be69_c9f4_fef8_4694_ca34_9198_a177nat * 0x15d_5c09_8741_6139_2178_92b9_bce5_5f46_89a2_dd05_b95f_0d00_50d8_ca81nat == 0x3_2373_4090_1811_779c_5783_685b_525c_9242_6329_61bb_98a5_f536_9329_1b21_2b3b_d9d9_5192_acbd_f59d_39b9_42f7nat);
    assert(0x24c_be7d_4215_ae73_ab73_e414_80cd_0e79nat * 0x15d_5c09_8741_6139_2178_92b9_bce5_5f46_89a2_dd05_b95f_0d00_50d8_ca81nat == 0x3_2373_5b21_dc85_f45d_80f3_b5bb_953c_10b0_de30_6731_1672_ca07_8223_d4be_ddcb_8a17_d216_ea8e_0280_bad7_c4f9nat);
    assert(0x19_1b9a_52ac_d1e8_0fb9_e3e3_fbbd_6c4c_f389_bce0_564e_e3d6_9e6a_c2a1nat * 0x2000_0000_0000_0000_0000_0000_0000_0000nat == 0x3_2373_4a55_9a3d_01f7_3c7c_7f77_ad89_9e71_379c_0ac9_dc7a_d3cd_5854_2000_0000_0000_0000_0000_0000_0000_0000nat);
    lemma_power_known(
        0x3f17_32cc, 0x97_32cc, 125, 0x2000_0000_0000_0000_0000_0000_0000_0000nat,
        216025, 0x23_d0cb_42f2_bc49,
        0x502_c1df_3c8d_2c65_4b04_287f_4cd1nat,
        269025, 0x45_2c59_9066_9ca1,
        0x12b0_eff6_c049_6d6d_d948_5020_9d41nat,
        0x1_6533_d894_7f11, 0x1_f269_a48e_2cca_f755_dab9_df21nat,
        0x1_6533_dd4e_1571, 0x1_f269_b1bd_b439_9ddc_2ca7_bbe1nat,
    );
}

/// Code 203.
proof fn lemma_entry_203()
    ensures
        nearest_to_power(0x3f18_e237, 217025, 269025),
{
    lemma_fifth_powers_of_two();
    assert(217025nat * 217025 * 217025 == 0x24_50b6_c50e_1f41);
    assert(0x24_50b6_c50e_1f41 * 0x24_50b6_c50e_1f41 == 0x526_ccda_299e_6593_cd4d_78ec_ce81nat);
    assert(0x131_c46d * 0x131_c46d == 0x1_6d35_a271_1669);
    assert(0x1_6d35_a271_1669 * 0x1_6d35_a271_1669 == 0x2_0901_fc73_23ce_03cb_aea8_3711nat);
    assert(0x131_c46f * 0x131_c46f == 0x1_6d35_a738_2821);
    assert(0x1_6d35_a738_2821 * 0x1_6d35_a738_2821 == 0x2_0902_0a14_cce9_0856_a2ba_5441nat);
    assert(269025nat * 269025 * 269025 == 0x45_2c59_9066_9ca1);
    assert(0x45_2c59_9066_9ca1 * 0x45_2c59_9066_9ca1 == 0x12b0_eff6_c049_6d6d_d948_5020_9d41nat);
    assert(0x12b0_eff6_c049_6d6d_d948_5020_9d41nat * 0x12b0_eff6_c049_6d6d_d948_5020_9d41nat == 0x15d_5c09_8741_6139_2178_92b9_bce5_5f46_89a2_dd05_b95f_0d00_50d8_ca81nat);
    assert(0x526_ccda_299e_6593_cd4d_78ec_ce81nat * 0x526_ccda_299e_6593_cd4d_78ec_ce81nat == 0x1a_89e1_fa50_f73d_4852_a731_298b_e66a_f731_1f40_2c73_b040_546b_dd01nat);
    assert(0x2_0901_fc73_23ce_03cb_aea8_3711nat * 0x131_c46d == 0x26e_4b21_204e_4ce2_7f4a_a5db_c309_763dnat);
    assert(0x2_0902_0a14_cce9_0856_a2ba_5441nat * 0x131_c46f == 0x26e_4b35_7a62_6d8a_32a4_d225_98bd_4c2fnat);
    assert(0x26e_4b21_204e_4ce2_7f4a_a5db_c309_763dnat * 0x15d_5c09_8741_6139_2178_92b9_bce5_5f46_89a2_dd05_b95f_0d00_50d8_ca81nat == 0x3_513c_2652_5f10_f7f3_c54b_6410_eb83_72d0_9f07_6024_0da0_6736_dde0_14f6_d0e8_4fc9_8971_1a80_9991_9288_b6bdnat);
    assert(0x26e_4b35_7a62_6d8a_32a4_d225_98bd_4c2fnat * 0x15d_5c09_8741_6139_2178_92b9_bce5_5f46_89a2_dd05_b95f_0d00_50d8_ca81nat == 0x3_513c_4218_7da2_a3b7_e894_8d05_bc68_0e85_e9e8_c2c6_04a6_820b_66c5_fef9_d466_3bab_ee50_7ba2_f9fe_4d28_79afnat);
    assert(0x1a_89e1_fa50_f73d_4852_a731_298b_e66a_f731_1f40_2c73_b040_546b_dd01nat * 0x2000_0000_0000_0000_0000_0000_0000_0000nat == 0x3_513c_3f4a_1ee7_a90a_54e6_2531_7ccd_5ee6_23e8_058e_7608_0a8d_7ba0_2000_0000_0000_0000_0000_0000_0000_0000nat);
    lemma_power_known(
        0x3f18_e237, 0x98_e237, 125, 0x2000_0000_0000_0000_0000_0000_0000_0000nat,
        217025, 0x24_50b6_c50e_1f41,
        0x526_ccda_299e_6593_cd4d_78ec_ce81nat,
        269025, 0x45_2c59_9066_9ca1,
        0x12b0_eff6_c049_6d6d_d948_5020_9d41nat,
        0x1_6d35_a271_1669, 0x2_0901_fc73_23ce_03cb_aea8_3711nat,
        0x1_6d35_a738_2821, 0x2_0902_0a14_cce9_0856_a2ba_5441nat,
    );
}

/// Code 204.
proof fn lemma_entry_204()
    ensures
        nearest_to_power(0x3f1a_946e, 218025, 269025),
{
    lemma_fifth_powers_of_two();
    assert(218025nat * 218025 * 218025 == 0x24_d1d1_7559_afb9);
    assert(0x24_d1d1_7559_afb9 * 0x24_d1d1_7559_afb9 == 0x54b_aee0_ae36_af30_181c_c140_73b1nat);
    assert(0x135_28db * 0x135_28db == 0x1_755b_a733_2b59);
    assert(0x1_755b_a733_2b59 * 0x1_755b_a733_2b59 == 0x2_2084_360b_67e5_f80e_6acd_04f1nat);
    assert(0x135_28dd * 0x135_28dd == 0x1_755b_ac07_cec9);
    assert(0x1_755b_ac07_cec9 * 0x1_755b_ac07_cec9 == 0x2_2084_4422_81bd_3b01_0e06_19d1nat);
    assert(269025nat * 269025 * 269025 == 0x45_2c59_9066_9ca1);
    assert(0x45_2c59_9066_9ca1 * 0x45_2c59_9066_9ca1 == 0x12b0_eff6_c049_6d6d_d948_5020_9d41nat);
    assert(0x12b0_eff6_c049_6d6d_d948_5020_9d41nat * 0x12b0_eff6_c049_6d6d_d948_5020_9d41nat == 0x15d_5c09_8741_6139_2178_92b9_bce5_5f46_89a2_dd05_b95f_0d00_50d8_ca81nat);
    assert(0x54b_aee0_ae36_af30_181c_c140_73b1nat * 0x54b_aee0_ae36_af30_181c_c140_73b1nat == 0x1c_0b34_b5ea_68e6_3385_972a_ca42_8e9a_9379_687a_4e0c_bd62_eec8_8061nat);
    assert(0x2_2084_360b_67e5_f80e_6acd_04f1nat * 0x135_28db == 0x291_967b_b550_6c92_39e4_5e7c_5d0d_e22bnat);
    assert(0x2_2084_4422_81bd_3b01_0e06_19d1nat * 0x135_28dd == 0x291_9690_fa7a_cf77_c9da_0777_3891_f16dnat);
    assert(0x291_967b_b550_6c92_39e4_5e7c_5d0d_e22bnat * 0x15d_5c09_8741_6139_2178_92b9_bce5_5f46_89a2_dd05_b95f_0d00_50d8_ca81nat == 0x3_8166_9134_5c72_78fd_184f_d184_753e_6a93_cbd5_9471_6328_b777_f271_f578_d27f_9896_b8bc_aa15_c77c_1cbc_e5abnat);
    assert(0x291_9690_fa7a_cf77_c9da_0777_3891_f16dnat * 0x15d_5c09_8741_6139_2178_92b9_bce5_5f46_89a2_dd05_b95f_0d00_50d8_ca81nat == 0x3_8166_ae3b_4ce1_32e2_51e3_f0ea_fda0_85e8_8ec3_fc14_202c_036c_4eea_a30c_f83b_cf7c_d68f_14bc_b54c_6e02_a9ednat);
    assert(0x1c_0b34_b5ea_68e6_3385_972a_ca42_8e9a_9379_687a_4e0c_bd62_eec8_8061nat * 0x2000_0000_0000_0000_0000_0000_0000_0000nat == 0x3_8166_96bd_4d1c_c670_b2e5_5948_51d3_526f_2d0f_49c1_97ac_5dd9_100c_2000_0000_0000_0000_0000_0000_0000_0000nat);
    lemma_power_known(
        0x3f1a_946e, 0x9a_946e, 125, 0x2000_0000_0000_0000_0000_0000_0000_0000nat,
        218025, 0x24_d1d1_7559_afb9,
        0x54b_aee0_ae36_af30_181c_c140_73b1nat,
        269025, 0x45_2c59_9066_9ca1,
        0x12b0_eff6_c049_6d6d_d948_5020_9d41nat,
        0x1_755b_a733_2b59, 0x2_2084_360b_67e5_f80e_6acd_04f1nat,
        0x1_755b_ac07_cec9, 0x2_2084_4422_81bd_3b01_0e06_19d1nat,
    );
}

/// Code 205.
proof fn lemma_entry_205()
    ensures
        nearest_to_power(0x3f1c_4970, 219025, 269025),
{
    lemma_fifth_powers_of_two();
    assert(219025nat * 219025 * 219025 == 0x25_541c_b976_29b1);
    assert(0x25_541c_b976_29b1 * 0x25_541c_b976_29b1 == 0x571_6bf0_7916_b0bb_4584_47f6_2c61nat);
    assert(0x138_92df * 0x138_92df == 0x1_7da6_53d3_1e41);
    assert(0x1_7da6_53d3_1e41 * 0x1_7da6_53d3_1e41 == 0x2_38f8_8193_394b_4a05_08b9_4c81nat);
    assert(0x138_92e1 * 0x138_92e1 == 0x1_7da6_58b5_69c1);
    assert(0x1_7da6_58b5_69c1 * 0x1_7da6_58b5_69c1 == 0x2_38f8_9023_26ca_d98f_6699_e381nat);
    assert(269025nat * 269025 * 269025 == 0x45_2c59_9066_9ca1);
    assert(0x45_2c59_9066_9ca1 * 0x45_2c59_9066_9ca1 == 0x12b0_eff6_c049_6d6d_d948_5020_9d41nat);
    assert(0x12b0_eff6_c049_6d6d_d948_5020_9d41nat * 0x12b0_eff6_c049_6d6d_d948_5020_9d41nat == 0x15d_5c09_8741_6139_2178_92b9_bce5_5f46_89a2_dd05_b95f_0d00_50d8_ca81nat);
    assert(0x571_6bf0_7916_b0bb_4584_47f6_2c61nat * 0x571_6bf0_7916_b0bb_4584_47f6_2c61nat == 0x1d_a077_dc88_b00b_9198_e9e9_f326_b5a5_e537_847b_33ba_875f_201d_7cc1nat);
    assert(0x2_38f8_8193_394b_4a05_08b9_4c81nat * 0x138_92df == 0x2b6_b54b_45cc_a9ae_0eee_fb31_8443_365fnat);
    assert(0x2_38f8_9023_26ca_d98f_6699_e381nat * 0x138_92e1 == 0x2b6_b561_7f82_023d_ef22_0b1a_3638_8661nat);
    assert(0x2b6_b54b_45cc_a9ae_0eee_fb31_8443_365fnat * 0x15d_5c09_8741_6139_2178_92b9_bce5_5f46_89a2_dd05_b95f_0d00_50d8_ca81nat == 0x3_b40e_eaa0_9fc4_e31d_3e81_abd3_230e_d599_3613_7988_a443_0027_2459_bc9d_1f70_36a0_5e6f_c1c2_1304_3eed_5bdfnat);
    assert(0x2b6_b561_7f82_023d_ef22_0b1a_3638_8661nat * 0x15d_5c09_8741_6139_2178_92b9_bce5_5f46_89a2_dd05_b95f_0d00_50d8_ca81nat == 0x3_b40f_08f5_498f_9091_6f52_6b2b_2e6b_ed38_cd7b_eac9_e007_73ae_e018_9727_2d76_ad3c_11d3_c1cb_9dad_9e5c_40e1nat);
    assert(0x1d_a077_dc88_b00b_9198_e9e9_f326_b5a5_e537_847b_33ba_875f_201d_7cc1nat * 0x2000_0000_0000_0000_0000_0000_0000_0000nat == 0x3_b40e_fb91_1601_7233_1d3d_3e64_d6b4_bca6_f08f_6677_50eb_e403_af98_2000_0000_0000_0000_0000_0000_0000_0000nat);
    lemma_power_known(
        0x3f1c_4970, 0x9c_4970, 125, 0x2000_0000_0000_0000_0000_0000_0000_0000nat,
        219025, 0x25_541c_b976_29b1,
        0x571_6bf0_7916_b0bb_4584_47f6_2c61nat,
        269025, 0x45_2c59_9066_9ca1,
        0x12b0_eff6_c049_6d6d_d948_5020_9d41nat,
        0x1_7da6_53d3_1e41, 0x2_38f8_8193_394b_4a05_08b9_4c81nat,
        0x1_7da6_58b5_69c1, 0x2_38f8_9023_26ca_d98f_6699_e381nat,
    );
}

/// Code 206.
proof fn lemma_entry_206()
    ensures
        nearest_to_power(0x3f1e_0140, 220025, 269025),
{
    lemma_fifth_powers_of_two();
    assert(220025nat * 220025 * 220025 == 0x25_d799_f704_4929);
    assert(0x25_d799_f704_4929 * 0x25_d799_f704_4929 == 0x598_0815_60bf_8a35_9641_7c30_6891nat);
    assert(0x13c_027f * 0x13c_027f == 0x1_8616_298e_3b01);
    assert(0x1_8616_298e_3b01 * 0x1_8616_298e_3b01 == 0x2_5267_8888_86f8_0e17_d4b5_7601nat);
    assert(0x13c_0281 * 0x13c_0281 == 0x1_8616_2e7e_4501);
    assert(0x1_8616_2e7e_4501 * 0x1_8616_2e7e_4501 == 0x2_5267_9794_c064_8740_5b95_8a01nat);
    assert(269025nat * 269025 * 269025 == 0x45_2c59_9066_9ca1);
    assert(0x45_2c59_9066_9ca1 * 0x45_2c59_9066_9ca1 == 0x12b0_eff6_c049_6d6d_d948_5020_9d41nat);
    assert(0x12b0_eff6_c049_6d6d_d948_5020_9d41nat * 0x12b0_eff6_c049_6d6d_d948_5020_9d41nat == 0x15d_5c09_8741_6139_2178_92b9_bce5_5f46_89a2_dd05_b95f_0d00_50d8_ca81nat);
    assert(0x598_0815_60bf_8a35_9641_7c30_6891nat * 0x598_0815_60bf_8a35_9641_7c30_6891nat == 0x1f_4a9a_6f6b_b6af_3421_39c3_d358_60bb_ffa5_336e_a767_f415_d916_2221nat);
    assert(0x2_5267_8888_86f8_0e17_d4b5_7601nat * 0x13c_027f == 0x2dd_bd98_38f4_66fa_4a95_bd79_9a2d_8c7fnat);
    assert(0x2_5267_9794_c064_8740_5b95_8a01nat * 0x13c_0281 == 0x2dd_bdaf_7100_078c_af27_b4bb_aaaa_8c81nat);
    assert(0x2dd_bd98_38f4_66fa_4a95_bd79_9a2d_8c7fnat * 0x15d_5c09_8741_6139_2178_92b9_bce5_5f46_89a2_dd05_b95f_0d00_50d8_ca81nat == 0x3_e953_43f7_ae61_4b16_6b99_33a2_a7af_725a_afe8_255d_cd1c_36fc_e236_28bc_d888_a69c_cc45_d602_3344_dcf8_01ffnat);
    assert(0x2dd_bdaf_7100_078c_af27_b4bb_aaaa_8c81nat * 0x15d_5c09_8741_6139_2178_92b9_bce5_5f46_89a2_dd05_b95f_0d00_50d8_ca81nat == 0x3_e953_63a7_6f3c_9d42_f5ed_2a7c_6074_aea9_65a2_d8a3_e2fc_f190_5a42_a0fa_4e94_83d2_3a17_c14d_000a_6fa6_9701nat);
    assert(0x1f_4a9a_6f6b_b6af_3421_39c3_d358_60bb_ffa5_336e_a767_f415_d916_2221nat * 0x2000_0000_0000_0000_0000_0000_0000_0000nat == 0x3_e953_4ded_76d5_e684_2738_7a6b_0c17_7ff4_a66d_d4ec_fe82_bb22_c444_2000_0000_0000_0000_0000_0000_0000_0000nat);
    lemma_power_known(
        0x3f1e_0140, 0x9e_0140, 125, 0x2000_0000_0000_0000_0000_0000_0000_0000nat,
        220025, 0x25_d799_f704_4929,
        0x598_0815_60bf_8a35_9641_7c30_6891nat,
        269025, 0x45_2c59_9066_9ca1,
        0x12b0_eff6_c049_6d6d_d948_5020_9d41nat,
        0x1_8616_298e_3b01, 0x2_5267_8888_86f8_0e17_d4b5_7601nat,
        0x1_8616_2e7e_4501, 0x2_5267_9794_c064_8740_5b95_8a01nat,
    );
}

/// Code 207.
proof fn lemma_entry_207()
    ensures
        nearest_to_power(0x3f1f_bbde, 221025, 269025),
{
    lemma_fifth_powers_of_two();
    assert(221025nat * 221025 * 221025 == 0x26_5c4a_93a4_ca21);
    assert(0x26_5c4a_93a4_ca21 * 0x26_5c4a_93a4_ca21 == 0x5bf_8769_84c4_237f_3d49_7fe0_1841nat);
    assert(0x13f_77bb * 0x13f_77bb == 0x1_8eab_9c09_6299);
    assert(0x1_8eab_9c09_6299 * 0x1_8eab_9c09_6299 == 0x2_6cda_0c37_0238_e4e8_8cbb_7f71nat);
    assert(0x13f_77bd * 0x13f_77bd == 0x1_8eab_a107_4189);
    assert(0x1_8eab_a107_4189 * 0x1_8eab_a107_4189 == 0x2_6cda_1bc3_14c1_a9a8_f844_db51nat);
    assert(269025nat * 269025 * 269025 == 0x45_2c59_9066_9ca1);
    assert(0x45_2c59_9066_9ca1 * 0x45_2c59_9066_9ca1 == 0x12b0_eff6_c049_6d6d_d948_5020_9d41nat);
    assert(0x12b0_eff6_c049_6d6d_d948_5020_9d41nat * 0x12b0_eff6_c049_6d6d_d948_5020_9d41nat == 0x15d_5c09_8741_6139_2178_92b9_bce5_5f46_89a2_dd05_b95f_0d00_50d8_ca81nat);
    assert(0x5bf_8769_84c4_237f_3d49_7fe0_1841nat * 0x5bf_8769_84c4_237f_3d49_7fe0_1841nat == 0x21_0a95_7644_3b94_fb72_7e90_f375_a8d1_520a_6e8c_cfba_eb4c_f20c_4081nat);
    assert(0x2_6cda_0c37_0238_e4e8_8cbb_7f71nat * 0x13f_77bb == 0x306_c614_1780_431c_4fbe_aced_c302_9e8bnat);
    assert(0x2_6cda_1bc3_14c1_a9a8_f844_db51nat * 0x13f_77bd == 0x306_c62c_5805_0afe_c265_2af4_96b7_91cdnat);
    assert(0x306_c614_1780_431c_4fbe_aced_c302_9e8bnat * 0x15d_5c09_8741_6139_2178_92b9_bce5_5f46_89a2_dd05_b95f_0d00_50d8_ca81nat == 0x4_2152_9569_9155_8aac_de60_60c1_af7b_c27b_00bb_e96e_3f1d_b129_1880_2f44_c623_fb36_7446_43b8_2a70_8ab3_920bnat);
    assert(0x306_c62c_5805_0afe_c265_2af4_96b7_91cdnat * 0x15d_5c09_8741_6139_2178_92b9_bce5_5f46_89a2_dd05_b95f_0d00_50d8_ca81nat == 0x4_2152_b682_3e70_d71b_307f_1134_a97c_346d_2586_ff88_49d8_6be6_f55c_e375_6c14_70f6_06b1_08d2_959f_e084_3a4dnat);
    assert(0x21_0a95_7644_3b94_fb72_7e90_f375_a8d1_520a_6e8c_cfba_eb4c_f20c_4081nat * 0x2000_0000_0000_0000_0000_0000_0000_0000nat == 0x4_2152_aec8_8772_9f6e_4fd2_1e6e_b51a_2a41_4dd1_99f7_5d69_9e41_8810_2000_0000_0000_0000_0000_0000_0000_0000nat);
    lemma_power_known(
        0x3f1f_bbde, 0x9f_bbde, 125, 0x2000_0000_0000_0000_0000_0000_0000_0000nat,
        221025, 0x26_5c4a_93a4_ca21,
        0x5bf_8769_84c4_237f_3d49_7fe0_1841nat,
        269025, 0x45_2c59_9066_9ca1,
        0x12b0_eff6_c049_6d6d_d948_5020_9d41nat,
        0x1_8eab_9c09_6299, 0x2_6cda_0c37_0238_e4e8_8cbb_7f71nat,
        0x1_8eab_a107_4189, 0x2_6cda_1bc3_14c1_a9a8_f844_db51nat,
    );
}

/// Code 208.
proof fn lemma_entry_208()
    ensures
        nearest_to_power(0x3f21_794d, 222025, 269025),
{
    lemma_fifth_powers_of_two();
    assert(222025nat * 222025 * 222025 == 0x26_e22f_f4f8_6899);
    assert(0x26_e22f_f4f8_6899 * 0x26_e22f_f4f8_6899 == 0x5e7_ee15_6f41_83bb_049c_7b2c_ab71nat);
    assert(0x142_f299 * 0x142_f299 == 0x1_9767_2ec9_9f71);
    assert(0x1_9767_2ec9_9f71 * 0x1_9767_2ec9_9f71 == 0x2_8859_405b_c7c4_af06_5ebf_8fe1nat);
    assert(0x142_f29b * 0x142_f29b == 0x1_9767_33d5_69d9);
    assert(0x1_9767_33d5_69d9 * 0x1_9767_33d5_69d9 == 0x2_8859_506b_56c9_e4b3_c4dd_b9f1nat);
    assert(269025nat * 269025 * 269025 == 0x45_2c59_9066_9ca1);
    assert(0x45_2c59_9066_9ca1 * 0x45_2c59_9066_9ca1 == 0x12b0_eff6_c049_6d6d_d948_5020_9d41nat);
    assert(0x12b0_eff6_c049_6d6d_d948_5020_9d41nat * 0x12b0_eff6_c049_6d6d_d948_5020_9d41nat == 0x15d_5c09_8741_6139_2178_92b9_bce5_5f46_89a2_dd05_b95f_0d00_50d8_ca81nat);
    assert(0x5e7_ee15_6f41_83bb_049c_7b2c_ab71nat * 0x5e7_ee15_6f41_83bb_049c_7b2c_ab71nat == 0x22_e16c_5e73_340a_4bb9_a978_16c4_0da7_68a5_fb99_dc26_6e41_f7a8_27e1nat);
    assert(0x2_8859_405b_c7c4_af06_5ebf_8fe1nat * 0x142_f299 == 0x331_e6aa_cf9f_7f16_7803_cd52_af81_af79nat);
    assert(0x2_8859_506b_56c9_e4b3_c4dd_b9f1nat * 0x142_f29b == 0x331_e6c4_231c_52fa_108d_07d5_ad27_66ebnat);
    assert(0x331_e6aa_cf9f_7f16_7803_cd52_af81_af79nat * 0x15d_5c09_8741_6139_2178_92b9_bce5_5f46_89a2_dd05_b95f_0d00_50d8_ca81nat == 0x4_5c2d_8433_ac95_23b3_0047_331b_fcb6_8abe_1b19_0df1_a0f4_0705_04ab_3c12_3442_0ba4_2699_b35a_7668_a2e6_e5f9nat);
    assert(0x331_e6c4_231c_52fa_108d_07d5_ad27_66ebnat * 0x15d_5c09_8741_6139_2178_92b9_bce5_5f46_89a2_dd05_b95f_0d00_50d8_ca81nat == 0x4_5c2d_a6c3_98b4_2e01_d5e5_aa89_2a60_de0d_dec2_4619_0a92_4f44_dcf2_eb3f_e820_f80f_a0e4_0614_e5b5_9e58_4a6bnat);
    assert(0x22_e16c_5e73_340a_4bb9_a978_16c4_0da7_68a5_fb99_dc26_6e41_f7a8_27e1nat * 0x2000_0000_0000_0000_0000_0000_0000_0000nat == 0x4_5c2d_8bce_6681_4977_352f_02d8_81b4_ed14_bf73_3b84_cdc8_3ef5_04fc_2000_0000_0000_0000_0000_0000_0000_0000nat);
    lemma_power_known(
        0x3f21_794d, 0xa1_794d, 125, 0x2000_0000_0000_0000_0000_0000_0000_0000nat,
        222025, 0x26_e22f_f4f8_6899,
        0x5e7_ee15_6f41_83bb_049c_7b2c_ab71nat,
        269025, 0x45_2c59_9066_9ca1,
        0x12b0_eff6_c049_6d6d_d948_5020_9d41nat,
        0x1_9767_2ec9_9f71, 0x2_8859_405b_c7c4_af06_5ebf_8fe1nat,
        0x1_9767_33d5_69d9, 0x2_8859_506b_56c9_e4b3_c4dd_b9f1nat,
    );
}

/// Code 209.
proof fn lemma_entry_209()
    ensures
        nearest_to_power(0x3f23_398c, 223025, 269025),
{
    lemma_fifth_powers_of_two();
    assert(223025nat * 223025 * 223025 == 0x27_694b_809f_e091);
    assert(0x27_694b_809f_e091 * 0x27_694b_809f_e091 == 0x611_4050_367e_30b2_cb5f_b91c_1221nat);
    assert(0x146_7317 * 0x146_7317 == 0x1_a049_5251_ac11);
    assert(0x1_a049_5251_ac11 * 0x1_a049_5251_ac11 == 0x2_a4ee_6089_7c43_cdfb_3a68_d921nat);
    assert(0x146_7319 * 0x146_7319 == 0x1_a049_576b_7871);
    assert(0x1_a049_576b_7871 * 0x1_a049_576b_7871 == 0x2_a4ee_7120_4094_296c_b520_21e1nat);
    assert(269025nat * 269025 * 269025 == 0x45_2c59_9066_9ca1);
    assert(0x45_2c59_9066_9ca1 * 0x45_2c59_9066_9ca1 == 0x12b0_eff6_c049_6d6d_d948_5020_9d41nat);
    assert(0x12b0_eff6_c049_6d6d_d948_5020_9d41nat * 0x12b0_eff6_c049_6d6d_d948_5020_9d41nat == 0x15d_5c09_8741_6139_2178_92b9_bce5_5f46_89a2_dd05_b95f_0d00_50d8_ca81nat);
    assert(0x611_4050_367e_30b2_cb5f_b91c_1221nat * 0x611_4050_367e_30b2_cb5f_b91c_1221nat == 0x24_d02d_5d5d_5b6c_0c18_cf92_4605_cc73_3c00_a9af_0353_5fc5_aa80_a841nat);
    assert(0x2_a4ee_6089_7c43_cdfb_3a68_d921nat * 0x146_7317 == 0x35f_37e2_d5dc_ad84_ed8b_be53_d8fb_54f7nat);
    assert(0x2_a4ee_7120_4094_296c_b520_21e1nat * 0x146_7319 == 0x35f_37fd_472c_c5d5_9d82_87e6_43e1_61f9nat);
    assert(0x35f_37e2_d5dc_ad84_ed8b_be53_d8fb_54f7nat * 0x15d_5c09_8741_6139_2178_92b9_bce5_5f46_89a2_dd05_b95f_0d00_50d8_ca81nat == 0x4_9a05_8874_1c9b_0586_a465_9e97_0930_e0f7_070e_ff4e_46d4_9408_4fbc_1d86_3ff2_51a7_b851_8c20_3b13_8818_b677nat);
    assert(0x35f_37fd_472c_c5d5_9d82_87e6_43e1_61f9nat * 0x15d_5c09_8741_6139_2178_92b9_bce5_5f46_89a2_dd05_b95f_0d00_50d8_ca81nat == 0x4_9a05_ac8a_1880_e896_6ee8_0db3_e077_007c_edac_8577_7ed2_fde2_b2d4_f7e1_f046_7b14_9047_bbe2_8660_85f8_d879nat);
    assert(0x24_d02d_5d5d_5b6c_0c18_cf92_4605_cc73_3c00_a9af_0353_5fc5_aa80_a841nat * 0x2000_0000_0000_0000_0000_0000_0000_0000nat == 0x4_9a05_abab_ab6d_8183_19f2_48c0_b98e_6780_1535_e06a_6bf8_b550_1508_2000_0000_0000_0000_0000_0000_0000_0000nat);
    lemma_power_known(
        0x3f23_398c, 0xa3_398c, 125, 0x2000_0000_0000_0000_0000_0000_0000_0000nat,
        223025, 0x27_694b_809f_e091,
        0x611_4050_367e_30b2_cb5f_b91c_1221nat,
        269025, 0x45_2c59_9066_9ca1,
        0x12b0_eff6_c049_6d6d_d948_5020_9d41nat,
        0x1_a049_5251_ac11, 0x2_a4ee_6089_7c43_cdfb_3a68_d921nat,
        0x1_a049_576b_7871, 0x2_a4ee_7120_4094_296c_b520_21e1nat,
    );
}

/// Code 210.
proof fn lemma_entry_210()
    ensures
        nearest_to_power(0x3f24_fc9f, 224025, 269025),
{
    lemma_fifth_powers_of_two();
    assert(224025nat * 224025 * 224025 == 0x27_f19e_9c3b_ee09);
    assert(0x27_f19e_9c3b_ee09 * 0x27_f19e_9c3b_ee09 == 0x63b_825f_9eb0_963d_dd3e_8d7a_bc51nat);
    assert(0x149_f93d * 0x149_f93d == 0x1_a952_9171_b889);
    assert(0x1_a952_9171_b889 * 0x1_a952_9171_b889 == 0x2_c2a3_418d_1633_1f53_9ff7_3951nat);
    assert(0x149_f93f * 0x149_f93f == 0x1_a952_9699_9d81);
    assert(0x1_a952_9699_9d81 * 0x1_a952_9699_9d81 == 0x2_c2a3_52ae_dff7_9964_d119_7b01nat);
    assert(269025nat * 269025 * 269025 == 0x45_2c59_9066_9ca1);
    assert(0x45_2c59_9066_9ca1 * 0x45_2c59_9066_9ca1 == 0x12b0_eff6_c049_6d6d_d948_5020_9d41nat);
    assert(0x12b0_eff6_c049_6d6d_d948_5020_9d41nat * 0x12b0_eff6_c049_6d6d_d948_5020_9d41nat == 0x15d_5c09_8741_6139_2178_92b9_bce5_5f46_89a2_dd05_b95f_0d00_50d8_ca81nat);
    assert(0x63b_825f_9eb0_963d_dd3e_8d7a_bc51nat * 0x63b_825f_9eb0_963d_dd3e_8d7a_bc51nat == 0x26_d7f1_d5e8_ad52_a8e7_b357_fdda_3c8e_8e25_3c1b_6961_7f85_41bb_11a1nat);
    assert(0x2_c2a3_418d_1633_1f53_9ff7_3951nat * 0x149_f93d == 0x38e_d3c8_69fa_60e9_461f_623d_3dc1_714dnat);
    assert(0x2_c2a3_52ae_dff7_9964_d119_7b01nat * 0x149_f93f == 0x38e_d3e4_045b_4615_14b2_88f0_5232_3e3fnat);
    assert(0x38e_d3c8_69fa_60e9_461f_623d_3dc1_714dnat * 0x15d_5c09_8741_6139_2178_92b9_bce5_5f46_89a2_dd05_b95f_0d00_50d8_ca81nat == 0x4_dafe_2e3b_2cc4_31ee_f5ee_e7cd_5917_6113_109c_7b40_c9dd_b835_36ea_0a81_02f7_0c08_615c_a3a1_4b36_6ad8_d9cdnat);
    assert(0x38e_d3e4_045b_4615_14b2_88f0_5232_3e3fnat * 0x15d_5c09_8741_6139_2178_92b9_bce5_5f46_89a2_dd05_b95f_0d00_50d8_ca81nat == 0x4_dafe_53e6_8f5e_73e1_286d_cb63_4857_4f45_4ec2_0a10_7ca6_6ca8_f938_4538_1a7f_92aa_d26b_2003_e2cd_4597_13bfnat);
    assert(0x26_d7f1_d5e8_ad52_a8e7_b357_fdda_3c8e_8e25_3c1b_6961_7f85_41bb_11a1nat * 0x2000_0000_0000_0000_0000_0000_0000_0000nat == 0x4_dafe_3abd_15aa_551c_f66a_ffbb_4791_d1c4_a783_6d2c_2ff0_a837_6234_2000_0000_0000_0000_0000_0000_0000_0000nat);
    lemma_power_known(
        0x3f24_fc9f, 0xa4_fc9f, 125, 0x2000_0000_0000_0000_0000_0000_0000_0000nat,
        224025, 0x27_f19e_9c3b_ee09,
        0x63b_825f_9eb0_963d_dd3e_8d7a_bc51nat,
        269025, 0x45_2c59_9066_9ca1,
        0x12b0_eff6_c049_6d6d_d948_5020_9d41nat,
        0x1_a952_9171_b889, 0x2_c2a3_418d_1633_1f53_9ff7_3951nat,
        0x1_a952_9699_9d81, 0x2_c2a3_52ae_dff7_9964_d119_7b01nat,
    );
}

/// Code 211.
proof fn lemma_entry_211()
    ensures
        nearest_to_power(0x3f26_c285, 225025, 269025),
{
    lemma_fifth_powers_of_two();
    assert(225025nat * 225025 * 225025 == 0x28_7b2a_ad6d_4d01);
    assert(0x28_7b2a_ad6d_4d01 * 0x28_7b2a_ad6d_4d01 == 0x666_b898_3bec_75a9_2312_0403_9a01nat);
    assert(0x14d_8509 * 0x14d_8509 == 0x1_b283_5e8c_5a51);
    assert(0x1_b283_5e8c_5a51 * 0x1_b283_5e8c_5a51 == 0x2_e181_affd_c8ca_722c_6475_0da1nat);
    assert(0x14d_850b * 0x14d_850b == 0x1_b283_63c2_6e79);
    assert(0x1_b283_63c2_6e79 * 0x1_b283_63c2_6e79 == 0x2_e181_c1ae_7e6f_48f3_3510_3531nat);
    assert(269025nat * 269025 * 269025 == 0x45_2c59_9066_9ca1);
    assert(0x45_2c59_9066_9ca1 * 0x45_2c59_9066_9ca1 == 0x12b0_eff6_c049_6d6d_d948_5020_9d41nat);
    assert(0x12b0_eff6_c049_6d6d_d948_5020_9d41nat * 0x12b0_eff6_c049_6d6d_d948_5020_9d41nat == 0x15d_5c09_8741_6139_2178_92b9_bce5_5f46_89a2_dd05_b95f_0d00_50d8_ca81nat);
    assert(0x666_b898_3bec_75a9_2312_0403_9a01nat * 0x666_b898_3bec_75a9_2312_0403_9a01nat == 0x28_f9de_c13a_069c_d062_7e74_0557_b753_2b12_edbb_cc00_0b01_00ab_3401nat);
    assert(0x2_e181_affd_c8ca_722c_6475_0da1nat * 0x14d_8509 == 0x3c0_d4f4_3b1c_3893_c02d_c003_129f_1fa9nat);
    assert(0x2_e181_c1ae_7e6f_48f3_3510_3531nat * 0x14d_850b == 0x3c0_d511_0a2d_70f1_240a_8319_e411_be1bnat);
    assert(0x3c0_d4f4_3b1c_3893_c02d_c003_129f_1fa9nat * 0x15d_5c09_8741_6139_2178_92b9_bce5_5f46_89a2_dd05_b95f_0d00_50d8_ca81nat == 0x5_1f3b_c13f_7cfd_1e0c_8d66_1a0e_3e53_5240_9517_bc43_e55e_158a_578c_3953_4fae_f851_1cdf_de4c_3365_77c2_4e29nat);
    assert(0x3c0_d511_0a2d_70f1_240a_8319_e411_be1bnat * 0x15d_5c09_8741_6139_2178_92b9_bce5_5f46_89a2_dd05_b95f_0d00_50d8_ca81nat == 0x5_1f3b_e890_22f3_a5c7_d583_dddc_578d_8212_afd9_1be6_f6a5_b207_0298_0e7c_8c77_0d5e_acdd_1f88_d762_c3ba_199bnat);
    assert(0x28_f9de_c13a_069c_d062_7e74_0557_b753_2b12_edbb_cc00_0b01_00ab_3401nat * 0x2000_0000_0000_0000_0000_0000_0000_0000nat == 0x5_1f3b_d827_40d3_9a0c_4fce_80aa_f6ea_6562_5db7_7980_0160_2015_6680_2000_0000_0000_0000_0000_0000_0000_0000nat);
    lemma_power_known(
        0x3f26_c285, 0xa6_c285, 125, 0x2000_0000_0000_0000_0000_0000_0000_0000nat,
        225025, 0x28_7b2a_ad6d_4d01,
        0x666_b898_3bec_75a9_2312_0403_9a01nat,
        269025, 0x45_2c59_9066_9ca1,
        0x12b0_eff6_c049_6d6d_d948_5020_9d41nat,
        0x1_b283_5e8c_5a51, 0x2_e181_affd_c8ca_722c_6475_0da1nat,
        0x1_b283_63c2_6e79, 0x2_e181_c1ae_7e6f_48f3_3510_3531nat,
    );
}

/// Code 212.
proof fn lemma_entry_212()
    ensures
        nearest_to_power(0x3f28_8b41, 226025, 269025),
{
    lemma_fifth_powers_of_two();
    assert(226025nat * 226025 * 226025 == 0x29_05f1_19d4_b979);
    assert(0x29_05f1_19d4_b979 * 0x29_05f1_19d4_b979 == 0x692_e75d_9437_5d21_2ccf_58c8_1b31nat);
    assert(0x151_1681 * 0x151_1681 == 0x1_bbdc_419c_6d01);
    assert(0x1_bbdc_419c_6d01 * 0x1_bbdc_419c_6d01 == 0x3_0194_0894_36ed_9ea7_89a1_da01nat);
    assert(0x151_1683 * 0x151_1683 == 0x1_bbdc_46e0_c709);
    assert(0x1_bbdc_46e0_c709 * 0x1_bbdc_46e0_c709 == 0x3_0194_1ad7_d6ce_efad_d67e_fe51nat);
    assert(269025nat * 269025 * 269025 == 0x45_2c59_9066_9ca1);
    assert(0x45_2c59_9066_9ca1 * 0x45_2c59_9066_9ca1 == 0x12b0_eff6_c049_6d6d_d948_5020_9d41nat);
    assert(0x12b0_eff6_c049_6d6d_d948_5020_9d41nat * 0x12b0_eff6_c049_6d6d_d948_5020_9d41nat == 0x15d_5c09_8741_6139_2178_92b9_bce5_5f46_89a2_dd05_b95f_0d00_50d8_ca81nat);
    assert(0x692_e75d_9437_5d21_2ccf_58c8_1b31nat * 0x692_e75d_9437_5d21_2ccf_58c8_1b31nat == 0x2b_3725_1ac9_ab34_b80c_6d4a_e857_10f4_f0d4_8cdc_1861_005a_2f73_5f61nat);
    assert(0x3_0194_0894_36ed_9ea7_89a1_da01nat * 0x151_1681 == 0x3f5_5785_cf71_5e35_f3eb_8650_3e9b_f081nat);
    assert(0x3_0194_1ad7_d6ce_efad_d67e_fe51nat * 0x151_1683 == 0x3f5_57a3_df3a_0f52_3854_f390_7578_1973nat);
    assert(0x3f5_5785_cf71_5e35_f3eb_8650_3e9b_f081nat * 0x15d_5c09_8741_6139_2178_92b9_bce5_5f46_89a2_dd05_b95f_0d00_50d8_ca81nat == 0x5_66e4_a297_5bc2_1a12_5e0e_e8cf_9a7b_769f_070a_9659_9474_c5ce_f03b_d79d_3556_335b_83b8_8d05_1b91_d531_fb01nat);
    assert(0x3f5_57a3_df3a_0f52_3854_f390_7578_1973nat * 0x15d_5c09_8741_6139_2178_92b9_bce5_5f46_89a2_dd05_b95f_0d00_50d8_ca81nat == 0x5_66e4_cb9d_af26_1d50_4668_818f_ebe8_d2ba_94cd_6eb1_f13e_9dad_fd23_932a_232f_a247_2ad7_b78f_34c5_5ea1_90f3nat);
    assert(0x2b_3725_1ac9_ab34_b80c_6d4a_e857_10f4_f0d4_8cdc_1861_005a_2f73_5f61nat * 0x2000_0000_0000_0000_0000_0000_0000_0000nat == 0x5_66e4_a359_3566_9701_8da9_5d0a_e21e_9e1a_919b_830c_200b_45ee_6bec_2000_0000_0000_0000_0000_0000_0000_0000nat);
    lemma_power_known(
        0x3f28_8b41, 0xa8_8b41, 125, 0x2000_0000_0000_0000_0000_0000_0000_0000nat,
        226025, 0x29_05f1_19d4_b979,
        0x692_e75d_9437_5d21_2ccf_58c8_1b31nat,
        269025, 0x45_2c59_9066_9ca1,
        0x12b0_eff6_c049_6d6d_d948_5020_9d41nat,
        0x1_bbdc_419c_6d01, 0x3_0194_0894_36ed_9ea7_89a1_da01nat,
        0x1_bbdc_46e0_c709, 0x3_0194_1ad7_d6ce_efad_d67e_fe51nat,
    );
}

/// Code 213.
proof fn lemma_entry_213()
    ensures
        nearest_to_power(0x3f2a_56d2, 227025, 269025),
{
    lemma_fifth_powers_of_two();
    assert(227025nat * 227025 * 227025 == 0x29_91f3_4712_ef71);
    assert(0x29_91f3_4712_ef71 * 0x29_91f3_4712_ef71 == 0x6c0_1322_41c4_271e_14bd_39d8_2fe1nat);
    assert(0x154_ada3 * 0x154_ada3 == 0x1_c55d_aebd_b5c9);
    assert(0x1_c55d_aebd_b5c9 * 0x1_c55d_aebd_b5c9 == 0x3_22e4_aeb3_d275_ddbd_27df_d7d1nat);
    assert(0x154_ada5 * 0x154_ada5 == 0x1_c55d_b410_6c59);
    assert(0x1_c55d_b410_6c59 * 0x1_c55d_b410_6c59 == 0x3_22e4_c18e_7208_cc14_e0fb_36f1nat);
    assert(269025nat * 269025 * 269025 == 0x45_2c59_9066_9ca1);
    assert(0x45_2c59_9066_9ca1 * 0x45_2c59_9066_9ca1 == 0x12b0_eff6_c049_6d6d_d948_5020_9d41nat);
    assert(0x12b0_eff6_c049_6d6d_d948_5020_9d41nat * 0x12b0_eff6_c049_6d6d_d948_5020_9d41nat == 0x15d_5c09_8741_6139_2178_92b9_bce5_5f46_89a2_dd05_b95f_0d00_50d8_ca81nat);
    assert(0x6c0_1322_41c4_271e_14bd_39d8_2fe1nat * 0x6c0_1322_41c4_271e_14bd_39d8_2fe1nat == 0x2d_9102_4fe5_f268_bce6_07c7_b1f1_d902_fec5_1cb2_047f_d61d_06a4_63c1nat);
    assert(0x3_22e4_aeb3_d275_ddbd_27df_d7d1nat * 0x154_ada3 == 0x42c_784b_c87e_4643_271d_f8ad_49f2_a713nat);
    assert(0x3_22e4_c18e_7208_cc14_e0fb_36f1nat * 0x154_ada5 == 0x42c_786b_256d_778e_7d50_7323_be1f_4655nat);
    assert(0x42c_784b_c87e_4643_271d_f8ad_49f2_a713nat * 0x15d_5c09_8741_6139_2178_92b9_bce5_5f46_89a2_dd05_b95f_0d00_50d8_ca81nat == 0x5_b220_2250_4f2d_813c_9ffa_7345_7706_9249_4abb_20ca_ebf1_1d54_4bab_cd86_7816_c953_069d_632e_3b9e_a323_2e93nat);
    assert(0x42c_786b_256d_778e_7d50_7323_be1f_4655nat * 0x15d_5c09_8741_6139_2178_92b9_bce5_5f46_89a2_dd05_b95f_0d00_50d8_ca81nat == 0x5_b220_4d1d_47d4_8115_965c_3dd0_1dd6_37c9_c01a_5aba_284a_0ab2_a73e_fe0d_d12b_fd81_464a_0f13_ba65_62f9_82d5nat);
    assert(0x2d_9102_4fe5_f268_bce6_07c7_b1f1_d902_fec5_1cb2_047f_d61d_06a4_63c1nat * 0x2000_0000_0000_0000_0000_0000_0000_0000nat == 0x5_b220_49fc_be4d_179c_c0f8_f63e_3b20_5fd8_a396_408f_fac3_a0d4_8c78_2000_0000_0000_0000_0000_0000_0000_0000nat);
    lemma_power_known(
        0x3f2a_56d2, 0xaa_56d2, 125, 0x2000_0000_0000_0000_0000_0000_0000_0000nat,
        227025, 0x29_91f3_4712_ef71,
        0x6c0_1322_41c4_271e_14bd_39d8_2fe1nat,
        269025, 0x45_2c59_9066_9ca1,
        0x12b0_eff6_c049_6d6d_d948_5020_9d41nat,
        0x1_c55d_aebd_b5c9, 0x3_22e4_aeb3_d275_ddbd_27df_d7d1nat,
        0x1_c55d_b410_6c59, 0x3_22e4_c18e_7208_cc14_e0fb_36f1nat,
    );
}

/// Code 214.
proof fn lemma_entry_214()
    ensures
        nearest_to_power(0x3f2c_253c, 228025, 269025),
{
    lemma_fifth_powers_of_two();
    assert(228025nat * 228025 * 228025 == 0x2a_1f32_9ac8_aae9);
    assert(0x2a_1f32_9ac8_aae9 * 0x2a_1f32_9ac8_aae9 == 0x6ee_4068_1555_81d1_3bef_d22a_4811nat);
    assert(0x158_4a77 * 0x158_4a77 == 0x1_cf08_3579_0351);
    assert(0x1_cf08_3579_0351 * 0x1_cf08_3579_0351 == 0x3_457e_b1af_1cba_87a3_ac9c_ffa1nat);
    assert(0x158_4a79 * 0x158_4a79 == 0x1_cf08_3ada_2d31);
    assert(0x1_cf08_3ada_2d31 * 0x1_cf08_3ada_2d31 == 0x3_457e_c524_eaa1_a77b_336e_4361nat);
    assert(269025nat * 269025 * 269025 == 0x45_2c59_9066_9ca1);
    assert(0x45_2c59_9066_9ca1 * 0x45_2c59_9066_9ca1 == 0x12b0_eff6_c049_6d6d_d948_5020_9d41nat);
    assert(0x12b0_eff6_c049_6d6d_d948_5020_9d41nat * 0x12b0_eff6_c049_6d6d_d948_5020_9d41nat == 0x15d_5c09_8741_6139_2178_92b9_bce5_5f46_89a2_dd05_b95f_0d00_50d8_ca81nat);
    assert(0x6ee_4068_1555_81d1_3bef_d22a_4811nat * 0x6ee_4068_1555_81d1_3bef_d22a_4811nat == 0x30_08c0_b2bb_e20f_4803_eb99_288a_6126_2b22_d67e_6275_caf5_9ddd_9121nat);
    assert(0x3_457e_b1af_1cba_87a3_ac9c_ffa1nat * 0x158_4a77 == 0x466_55da_b08f_d15a_89da_4ff2_1f37_5dd7nat);
    assert(0x3_457e_c524_eaa1_a77b_336e_4361nat * 0x158_4a79 == 0x466_55fb_6783_237e_ae5e_e243_b8ef_e2d9nat);
    assert(0x466_55da_b08f_d15a_89da_4ff2_1f37_5dd7nat * 0x15d_5c09_8741_6139_2178_92b9_bce5_5f46_89a2_dd05_b95f_0d00_50d8_ca81nat == 0x6_0117_fbe9_6722_2e3f_be69_fcf3_968e_53a5_aabe_29c5_3796_8149_4d97_6758_aacb_f5bf_ccb9_d9af_e4ad_c859_ef57nat);
    assert(0x466_55fb_6783_237e_ae5e_e243_b8ef_e2d9nat * 0x15d_5c09_8741_6139_2178_92b9_bce5_5f46_89a2_dd05_b95f_0d00_50d8_ca81nat == 0x6_0118_288e_93d0_526d_9842_832a_a9a5_3266_980e_29f5_d664_104a_1e8b_119a_9331_4792_cec5_fd54_7a58_b0f8_8959nat);
    assert(0x30_08c0_b2bb_e20f_4803_eb99_288a_6126_2b22_d67e_6275_caf5_9ddd_9121nat * 0x2000_0000_0000_0000_0000_0000_0000_0000nat == 0x6_0118_1657_7c41_e900_7d73_2511_4c24_c564_5acf_cc4e_b95e_b3bb_b224_2000_0000_0000_0000_0000_0000_0000_0000nat);
    lemma_power_known(
        0x3f2c_253c, 0xac_253c, 125, 0x2000_0000_0000_0000_0000_0000_0000_0000nat,
        228025, 0x2a_1f32_9ac8_aae9,
        0x6ee_4068_1555_81d1_3bef_d22a_4811nat,
        269025, 0x45_2c59_9066_9ca1,
        0x12b0_eff6_c049_6d6d_d948_5020_9d41nat,
        0x1_cf08_3579_0351, 0x3_457e_b1af_1cba_87a3_ac9c_ffa1nat,
        0x1_cf08_3ada_2d31, 0x3_457e_c524_eaa1_a77b_336e_4361nat,
    );
}

/// Code 215.
proof fn lemma_entry_215()
    ensures
        nearest_to_power(0x3f2d_f67f, 229025, 269025),
{
    lemma_fifth_powers_of_two();
    assert(229025nat * 229025 * 229025 == 0x2a_adb0_7a96_a7e1);
    assert(0x2a_adb0_7a96_a7e1 * 0x2a_adb0_7a96_a7e1 == 0x71d_73c0_38c7_7e94_e00b_9dc3_53c1nat);
    assert(0x15b_ecfd * 0x15b_ecfd == 0x1_d8dc_5141_7209);
    assert(0x1_d8dc_5141_7209 * 0x1_d8dc_5141_7209 == 0x3_696d_293d_16c7_aa5c_cd5e_0451nat);
    assert(0x15b_ecff * 0x15b_ecff == 0x1_d8dc_56b1_2601);
    assert(0x1_d8dc_56b1_2601 * 0x1_d8dc_56b1_2601 == 0x3_696d_3d52_59f8_81d6_3f06_4c01nat);
    assert(269025nat * 269025 * 269025 == 0x45_2c59_9066_9ca1);
    assert(0x45_2c59_9066_9ca1 * 0x45_2c59_9066_9ca1 == 0x12b0_eff6_c049_6d6d_d948_5020_9d41nat);
    assert(0x12b0_eff6_c049_6d6d_d948_5020_9d41nat * 0x12b0_eff6_c049_6d6d_d948_5020_9d41nat == 0x15d_5c09_8741_6139_2178_92b9_bce5_5f46_89a2_dd05_b95f_0d00_50d8_ca81nat);
    assert(0x71d_73c0_38c7_7e94_e00b_9dc3_53c1nat * 0x71d_73c0_38c7_7e94_e00b_9dc3_53c1nat == 0x32_9fb7_f0fe_0977_458a_e8b4_1a0f_f42b_029f_aaf5_95bc_1c59_6d6c_b781nat);
    assert(0x3_696d_293d_16c7_aa5c_cd5e_0451nat * 0x15b_ecfd == 0x4a3_0f86_b8b3_f303_802b_4979_7baf_f00dnat);
    assert(0x3_696d_3d52_59f8_81d6_3f06_4c01nat * 0x15b_ecff == 0x4a3_0fa8_d6f7_f3d0_b3a2_440b_9ab1_a0ffnat);
    assert(0x4a3_0f86_b8b3_f303_802b_4979_7baf_f00dnat * 0x15d_5c09_8741_6139_2178_92b9_bce5_5f46_89a2_dd05_b95f_0d00_50d8_ca81nat == 0x6_53f6_f06c_efc9_43d6_081d_173d_6604_9284_c855_7330_f2cf_fc94_417b_d23b_6c93_9e87_02ae_1bf4_e246_c20a_388dnat);
    assert(0x4a3_0fa8_d6f7_f3d0_b3a2_440b_9ab1_a0ffnat * 0x15d_5c09_8741_6139_2178_92b9_bce5_5f46_89a2_dd05_b95f_0d00_50d8_ca81nat == 0x6_53f7_1efc_76a3_e2ef_77cb_a355_3d22_5f2f_aca1_2494_fc94_7f1b_5e80_3943_73ad_7fee_742e_a365_6d18_a3b3_567fnat);
    assert(0x32_9fb7_f0fe_0977_458a_e8b4_1a0f_f42b_029f_aaf5_95bc_1c59_6d6c_b781nat * 0x2000_0000_0000_0000_0000_0000_0000_0000nat == 0x6_53f6_fe1f_c12e_e8b1_5d16_8341_fe85_6053_f55e_b2b7_838b_2dad_96f0_2000_0000_0000_0000_0000_0000_0000_0000nat);
    lemma_power_known(
        0x3f2d_f67f, 0xad_f67f, 125, 0x2000_0000_0000_0000_0000_0000_0000_0000nat,
        229025, 0x2a_adb0_7a96_a7e1,
        0x71d_73c0_38c7_7e94_e00b_9dc3_53c1nat,
        269025, 0x45_2c59_9066_9ca1,
        0x12b0_eff6_c049_6d6d_d948_5020_9d41nat,
        0x1_d8dc_5141_7209, 0x3_696d_293d_16c7_aa5c_cd5e_0451nat,
        0x1_d8dc_56b1_2601, 0x3_696d_3d52_59f8_81d6_3f06_4c01nat,
    );
}

/// Code 216.
proof fn lemma_entry_216()
    ensures
        nearest_to_power(0x3f2f_ca9c, 230025, 269025),
{
    lemma_fifth_powers_of_two();
    assert(230025nat * 230025 * 230025 == 0x2b_3d6e_4c1d_a259);
    assert(0x2b_3d6e_4c1d_a259 * 0x2b_3d6e_4c1d_a259 == 0x74d_b1cb_51c0_295d_8a4f_071e_c2f1nat);
    assert(0x15f_9537 * 0x15f_9537 == 0x1_e2da_83cb_11d1);
    assert(0x1_e2da_83cb_11d1 * 0x1_e2da_83cb_11d1 == 0x3_8ebb_92cd_68ca_d145_28b3_6ca1nat);
    assert(0x15f_9539 * 0x15f_9539 == 0x1_e2da_8949_66b1);
    assert(0x1_e2da_8949_66b1 * 0x1_e2da_8949_66b1 == 0x3_8ebb_a786_8155_0e69_2c23_8661nat);
    assert(269025nat * 269025 * 269025 == 0x45_2c59_9066_9ca1);
    assert(0x45_2c59_9066_9ca1 * 0x45_2c59_9066_9ca1 == 0x12b0_eff6_c049_6d6d_d948_5020_9d41nat);
    assert(0x12b0_eff6_c049_6d6d_d948_5020_9d41nat * 0x12b0_eff6_c049_6d6d_d948_5020_9d41nat == 0x15d_5c09_8741_6139_2178_92b9_bce5_5f46_89a2_dd05_b95f_0d00_50d8_ca81nat);
    assert(0x74d_b1cb_51c0_295d_8a4f_071e_c2f1nat * 0x74d_b1cb_51c0_295d_8a4f_071e_c2f1nat == 0x35_574d_8e42_7862_79e5_a3f3_dcdc_d8db_aa23_3e5d_6474_d719_72ee_26e1nat);
    assert(0x3_8ebb_92cd_68ca_d145_28b3_6ca1nat * 0x15f_9537 == 0x4e2_c605_1e60_c634_7d33_048e_1d85_0b97nat);
    assert(0x3_8ebb_a786_8155_0e69_2c23_8661nat * 0x15f_9539 == 0x4e2_c628_b1b4_e9d8_0f86_f0d0_c01e_6099nat);
    assert(0x4e2_c605_1e60_c634_7d33_048e_1d85_0b97nat * 0x15d_5c09_8741_6139_2178_92b9_bce5_5f46_89a2_dd05_b95f_0d00_50d8_ca81nat == 0x6_aae9_a2b2_0ce3_0cab_d2c2_bde7_d67f_2c28_615b_9390_40f3_12a5_c610_9ac4_8caa_dd08_c5e7_c70f_95c8_d297_fd17nat);
    assert(0x4e2_c628_b1b4_e9d8_0f86_f0d0_c01e_6099nat * 0x15d_5c09_8741_6139_2178_92b9_bce5_5f46_89a2_dd05_b95f_0d00_50d8_ca81nat == 0x6_aae9_d33e_b0dc_d935_a26d_c749_60f0_e26e_5b00_197e_9b03_ec6a_6d38_e43b_a006_2e2b_680f_adde_6d9a_189f_6719nat);
    assert(0x35_574d_8e42_7862_79e5_a3f3_dcdc_d8db_aa23_3e5d_6474_d719_72ee_26e1nat * 0x2000_0000_0000_0000_0000_0000_0000_0000nat == 0x6_aae9_b1c8_4f0c_4f3c_b47e_7b9b_9b1b_7544_67cb_ac8e_9ae3_2e5d_c4dc_2000_0000_0000_0000_0000_0000_0000_0000nat);
    lemma_power_known(
        0x3f2f_ca9c, 0xaf_ca9c, 125, 0x2000_0000_0000_0000_0000_0000_0000_0000nat,
        230025, 0x2b_3d6e_4c1d_a259,
        0x74d_b1cb_51c0_295d_8a4f_071e_c2f1nat,
        269025, 0x45_2c59_9066_9ca1,
        0x12b0_eff6_c049_6d6d_d948_5020_9d41nat,
        0x1_e2da_83cb_11d1, 0x3_8ebb_92cd_68ca_d145_28b3_6ca1nat,
        0x1_e2da_8949_66b1, 0x3_8ebb_a786_8155_0e69_2c23_8661nat,
    );
}

/// Code 217.
proof fn lemma_entry_217()
    ensures
        nearest_to_power(0x3f31_a194, 231025, 269025),
{
    lemma_fifth_powers_of_two();
    assert(231025nat * 231025 * 231025 == 0x2b_ce6d_74fe_5651);
    assert(0x2b_ce6d_74fe_5651 * 0x2b_ce6d_74fe_5651 == 0x77e_ff39_a487_282d_57e2_cdd6_85a1nat);
    assert(0x163_4327 * 0x163_4327 == 0x1_ed03_4fc7_6ff1);
    assert(0x1_ed03_4fc7_6ff1 * 0x1_ed03_4fc7_6ff1 == 0x3_b575_c151_1caf_8c1b_f7a0_e0e1nat);
    assert(0x163_4329 * 0x163_4329 == 0x1_ed03_5554_7c91);
    assert(0x1_ed03_5554_7c91 * 0x1_ed03_5554_7c91 == 0x3_b575_d6b2_8432_9c00_45c4_ca21nat);
    assert(269025nat * 269025 * 269025 == 0x45_2c59_9066_9ca1);
    assert(0x45_2c59_9066_9ca1 * 0x45_2c59_9066_9ca1 == 0x12b0_eff6_c049_6d6d_d948_5020_9d41nat);
    assert(0x12b0_eff6_c049_6d6d_d948_5020_9d41nat * 0x12b0_eff6_c049_6d6d_d948_5020_9d41nat == 0x15d_5c09_8741_6139_2178_92b9_bce5_5f46_89a2_dd05_b95f_0d00_50d8_ca81nat);
    assert(0x77e_ff39_a487_282d_57e2_cdd6_85a1nat * 0x77e_ff39_a487_282d_57e2_cdd6_85a1nat == 0x38_30f5_6231_3bfd_f768_96a0_d246_dca9_1764_8fd3_2db2_a40b_88ec_af41nat);
    assert(0x3_b575_c151_1caf_8c1b_f7a0_e0e1nat * 0x163_4327 == 0x525_9b59_8a03_754c_9b32_0e29_ac60_2547nat);
    assert(0x3_b575_d6b2_8432_9c00_45c4_ca21nat * 0x163_4329 == 0x525_9b7e_a09d_6d5e_bf4f_ce31_f92e_0249nat);
    assert(0x525_9b59_8a03_754c_9b32_0e29_ac60_2547nat * 0x15d_5c09_8741_6139_2178_92b9_bce5_5f46_89a2_dd05_b95f_0d00_50d8_ca81nat == 0x7_061e_7def_efe3_1122_e246_8481_1d53_3005_ffa1_70a1_1828_7d2b_5d30_3234_721d_0d2c_ba7a_b2ab_1cc9_5dc4_cec7nat);
    assert(0x525_9b7e_a09d_6d5e_bf4f_ce31_f92e_0249nat * 0x15d_5c09_8741_6139_2178_92b9_bce5_5f46_89a2_dd05_b95f_0d00_50d8_ca81nat == 0x7_061e_b08d_154a_fad2_6134_0c30_385c_bf23_ec63_5a1f_8beb_f337_8295_cee9_a746_d382_8d46_e827_aa55_9b94_c0c9nat);
    assert(0x38_30f5_6231_3bfd_f768_96a0_d246_dca9_1764_8fd3_2db2_a40b_88ec_af41nat * 0x2000_0000_0000_0000_0000_0000_0000_0000nat == 0x7_061e_ac46_277f_beed_12d4_1a48_db95_22ec_91fa_65b6_5481_711d_95e8_2000_0000_0000_0000_0000_0000_0000_0000nat);
    lemma_power_known(
        0x3f31_a194, 0xb1_a194, 125, 0x2000_0000_0000_0000_0000_0000_0000_0000nat,
        231025, 0x2b_ce6d_74fe_5651,
        0x77e_ff39_a487_282d_57e2_cdd6_85a1nat,
        269025, 0x45_2c59_9066_9ca1,
        0x12b0_eff6_c049_6d6d_d948_5020_9d41nat,
        0x1_ed03_4fc7_6ff1, 0x3_b575_c151_1caf_8c1b_f7a0_e0e1nat,
        0x1_ed03_5554_7c91, 0x3_b575_d6b2_8432_9c00_45c4_ca21nat,
    );
}

/// Code 218.
proof fn lemma_entry_218()
    ensures
        nearest_to_power(0x3f33_7b6a, 232025, 269025),
{
    lemma_fifth_powers_of_two();
    assert(232025nat * 232025 * 232025 == 0x2c_60af_5ad9_7fc9);
    assert(0x2c_60af_5ad9_7fc9 * 0x2c_60af_5ad9_7fc9 == 0x7b1_60cb_3704_6289_1b71_368b_0bd1nat);
    assert(0x166_f6d3 * 0x166_f6d3 == 0x1_f757_441e_31e9);
    assert(0x1_f757_441e_31e9 * 0x1_f757_441e_31e9 == 0x3_dda8_0b6e_06c7_9871_8457_0611nat);
    assert(0x166_f6d5 * 0x166_f6d5 == 0x1_f757_49ba_0d39);
    assert(0x1_f757_49ba_0d39 * 0x1_f757_49ba_0d39 == 0x3_dda8_217c_51a6_9d7f_b982_d6b1nat);
    assert(269025nat * 269025 * 269025 == 0x45_2c59_9066_9ca1);
    assert(0x45_2c59_9066_9ca1 * 0x45_2c59_9066_9ca1 == 0x12b0_eff6_c049_6d6d_d948_5020_9d41nat);
    assert(0x12b0_eff6_c049_6d6d_d948_5020_9d41nat * 0x12b0_eff6_c049_6d6d_d948_5020_9d41nat == 0x15d_5c09_8741_6139_2178_92b9_bce5_5f46_89a2_dd05_b95f_0d00_50d8_ca81nat);
    assert(0x7b1_60cb_3704_6289_1b71_368b_0bd1nat * 0x7b1_60cb_3704_6289_1b71_368b_0bd1nat == 0x3b_2e32_1a9d_5c07_57c6_1ff9_9961_51ce_00c2_15f9_308f_7904_0181_a0a1nat);
    assert(0x3_dda8_0b6e_06c7_9871_8457_0611nat * 0x166_f6d3 == 0x56b_b32f_285a_a152_91be_cc6e_2f54_5603nat);
    assert(0x3_dda8_217c_51a6_9d7f_b982_d6b1nat * 0x166_f6d5 == 0x56b_b355_d0eb_81e6_4b97_3481_4fb0_b745nat);
    assert(0x56b_b32f_285a_a152_91be_cc6e_2f54_5603nat * 0x15d_5c09_8741_6139_2178_92b9_bce5_5f46_89a2_dd05_b95f_0d00_50d8_ca81nat == 0x7_65c6_2f55_709c_4c90_46f4_a4d8_1108_7a82_ae0f_6b0b_408b_cc84_ce75_0c23_dca7_b572_6a65_48b1_65e7_e7e5_b583nat);
    assert(0x56b_b355_d0eb_81e6_4b97_3481_4fb0_b745nat * 0x15d_5c09_8741_6139_2178_92b9_bce5_5f46_89a2_dd05_b95f_0d00_50d8_ca81nat == 0x7_65c6_6417_2422_e085_80ac_3cba_d975_92a2_4af9_1d7c_15fa_c329_9f13_d9f7_5862_4cad_3217_f58b_756a_cae0_cbc5nat);
    assert(0x3b_2e32_1a9d_5c07_57c6_1ff9_9961_51ce_00c2_15f9_308f_7904_0181_a0a1nat * 0x2000_0000_0000_0000_0000_0000_0000_0000nat == 0x7_65c6_4353_ab80_eaf8_c3ff_332c_2a39_c018_42bf_2611_ef20_8030_3414_2000_0000_0000_0000_0000_0000_0000_0000nat);
    lemma_power_known(
        0x3f33_7b6a, 0xb3_7b6a, 125, 0x2000_0000_0000_0000_0000_0000_0000_0000nat,
        232025, 0x2c_60af_5ad9_7fc9,
        0x7b1_60cb_3704_6289_1b71_368b_0bd1nat,
        269025, 0x45_2c59_9066_9ca1,
        0x12b0_eff6_c049_6d6d_d948_5020_9d41nat,
        0x1_f757_441e_31e9, 0x3_dda8_0b6e_06c7_9871_8457_0611nat,
        0x1_f757_49ba_0d39, 0x3_dda8_217c_51a6_9d7f_b982_d6b1nat,
    );
}

/// Code 219.
proof fn lemma_entry_219()
    ensures
        nearest_to_power(0x3f35_581d, 233025, 269025),
{
    lemma_fifth_powers_of_two();
    assert(233025nat * 233025 * 233025 == 0x2c_f435_634f_dac1);
    assert(0x2c_f435_634f_dac1 * 0x2c_f435_634f_dac1 == 0x7e4_db4f_f3e5_b0ef_5804_040b_4581nat);
    assert(0x16a_b039 * 0x16a_b039 == 0x2_01d6_da82_6cb1);
    assert(0x2_01d6_da82_6cb1 * 0x2_01d6_da82_6cb1 == 0x4_075e_cc10_c42d_7d7c_05e9_d261nat);
    assert(0x16a_b03b * 0x16a_b03b == 0x2_01d6_e02d_2d99);
    assert(0x2_01d6_e02d_2d99 * 0x2_01d6_e02d_2d99 == 0x4_075e_e2d0_a096_8590_cfe9_2571nat);
    assert(269025nat * 269025 * 269025 == 0x45_2c59_9066_9ca1);
    assert(0x45_2c59_9066_9ca1 * 0x45_2c59_9066_9ca1 == 0x12b0_eff6_c049_6d6d_d948_5020_9d41nat);
    assert(0x12b0_eff6_c049_6d6d_d948_5020_9d41nat * 0x12b0_eff6_c049_6d6d_d948_5020_9d41nat == 0x15d_5c09_8741_6139_2178_92b9_bce5_5f46_89a2_dd05_b95f_0d00_50d8_ca81nat);
    assert(0x7e4_db4f_f3e5_b0ef_5804_040b_4581nat * 0x7e4_db4f_f3e5_b0ef_5804_040b_4581nat == 0x3e_5095_c1a2_e513_adff_8fab_6adb_b34f_390d_0e3f_0711_36b3_13f4_cb01nat);
    assert(0x4_075e_cc10_c42d_7d7c_05e9_d261nat * 0x16a_b039 == 0x5b5_3203_601c_5eee_65c6_9151_8edc_8799nat);
    assert(0x4_075e_e2d0_a096_8590_cfe9_2571nat * 0x16a_b03b == 0x5b5_322b_a9d0_c955_5d4a_56ff_2643_510bnat);
    assert(0x5b5_3203_601c_5eee_65c6_9151_8edc_8799nat * 0x15d_5c09_8741_6139_2178_92b9_bce5_5f46_89a2_dd05_b95f_0d00_50d8_ca81nat == 0x7_ca12_82f6_01e2_66b2_95bf_6087_2845_d5ab_c857_b6bf_5518_ed65_1eb6_9f5d_b7e4_383a_2076_26d8_ce45_3937_0e19nat);
    assert(0x5b5_322b_a9d0_c955_5d4a_56ff_2643_510bnat * 0x15d_5c09_8741_6139_2178_92b9_bce5_5f46_89a2_dd05_b95f_0d00_50d8_ca81nat == 0x7_ca12_b9f0_f8d4_2bce_eacc_477c_d4e0_87b5_4f7f_4186_ea1c_c512_fe20_71ef_6243_583e_a33e_3f8b_0be3_3726_848bnat);
    assert(0x3e_5095_c1a2_e513_adff_8fab_6adb_b34f_390d_0e3f_0711_36b3_13f4_cb01nat * 0x2000_0000_0000_0000_0000_0000_0000_0000nat == 0x7_ca12_b834_5ca2_75bf_f1f5_6d5b_7669_e721_a1c7_e0e2_26d6_627e_9960_2000_0000_0000_0000_0000_0000_0000_0000nat);
    lemma_power_known(
        0x3f35_581d, 0xb5_581d, 125, 0x2000_0000_0000_0000_0000_0000_0000_0000nat,
        233025, 0x2c_f435_634f_dac1,
        0x7e4_db4f_f3e5_b0ef_5804_040b_4581nat,
        269025, 0x45_2c59_9066_9ca1,
        0x12b0_eff6_c049_6d6d_d948_5020_9d41nat,
        0x2_01d6_da82_6cb1, 0x4_075e_cc10_c42d_7d7c_05e9_d261nat,
        0x2_01d6_e02d_2d99, 0x4_075e_e2d0_a096_8590_cfe9_2571nat,
    );
}

/// Code 220.
proof fn lemma_entry_220()
    ensures
        nearest_to_power(0x3f37_37b0, 234025, 269025),
{
    lemma_fifth_powers_of_two();
    assert(234025nat * 234025 * 234025 == 0x2d_8900_f402_2339);
    assert(0x2d_8900_f402_2339 * 0x2d_8900_f402_2339 == 0x819_73a7_cdeb_9451_1529_39bc_a2b1nat);
    assert(0x16e_6f5f * 0x16e_6f5f == 0x2_0c82_a417_8541);
    assert(0x2_0c82_a417_8541 * 0x2_0c82_a417_8541 == 0x4_32a7_126b_5a93_92e8_7f0a_9a81nat);
    assert(0x16e_6f61 * 0x16e_6f61 == 0x2_0c82_a9d1_42c1);
    assert(0x2_0c82_a9d1_42c1 * 0x2_0c82_a9d1_42c1 == 0x4_32a7_29e1_9273_d934_e28a_1581nat);
    assert(269025nat * 269025 * 269025 == 0x45_2c59_9066_9ca1);
    assert(0x45_2c59_9066_9ca1 * 0x45_2c59_9066_9ca1 == 0x12b0_eff6_c049_6d6d_d948_5020_9d41nat);
    assert(0x12b0_eff6_c049_6d6d_d948_5020_9d41nat * 0x12b0_eff6_c049_6d6d_d948_5020_9d41nat == 0x15d_5c09_8741_6139_2178_92b9_bce5_5f46_89a2_dd05_b95f_0d00_50d8_ca81nat);
    assert(0x819_73a7_cdeb_9451_1529_39bc_a2b1nat * 0x819_73a7_cdeb_9451_1529_39bc_a2b1nat == 0x41_99c2_47e5_2247_ff68_34c9_355a_5f27_7668_9a8e_1a24_b224_2d5c_7e61nat);
    assert(0x4_32a7_126b_5a93_92e8_7f0a_9a81nat * 0x16e_6f5f == 0x602_3e61_9277_e118_a1db_f485_a25b_44dfnat);
    assert(0x4_32a7_29e1_9273_d934_e28a_1581nat * 0x16e_6f61 == 0x602_3e8b_8cff_0e99_42af_1cae_7413_14e1nat);
    assert(0x602_3e61_9277_e118_a1db_f485_a25b_44dfnat * 0x15d_5c09_8741_6139_2178_92b9_bce5_5f46_89a2_dd05_b95f_0d00_50d8_ca81nat == 0x8_3338_12b0_a73e_959f_cfcb_b9a1_5e63_2f66_47e7_d199_c57e_eb69_3027_46d3_0c23_6314_045e_8a85_7efa_a07d_aa5fnat);
    assert(0x602_3e8b_8cff_0e99_42af_1cae_7413_14e1nat * 0x15d_5c09_8741_6139_2178_92b9_bce5_5f46_89a2_dd05_b95f_0d00_50d8_ca81nat == 0x8_3338_4bfa_4920_2eeb_b997_e302_54b6_c0c9_bf98_2a4f_5f5b_eafe_db0d_0506_68d2_7c0d_a504_cee5_6f1f_79ef_0f61nat);
    assert(0x41_99c2_47e5_2247_ff68_34c9_355a_5f27_7668_9a8e_1a24_b224_2d5c_7e61nat * 0x2000_0000_0000_0000_0000_0000_0000_0000nat == 0x8_3338_48fc_a448_ffed_0699_26ab_4be4_eecd_1351_c344_9644_85ab_8fcc_2000_0000_0000_0000_0000_0000_0000_0000nat);
    lemma_power_known(
        0x3f37_37b0, 0xb7_37b0, 125, 0x2000_0000_0000_0000_0000_0000_0000_0000nat,
        234025, 0x2d_8900_f402_2339,
        0x819_73a7_cdeb_9451_1529_39bc_a2b1nat,
        269025, 0x45_2c59_9066_9ca1,
        0x12b0_eff6_c049_6d6d_d948_5020_9d41nat,
        0x2_0c82_a417_8541, 0x4_32a7_126b_5a93_92e8_7f0a_9a81nat,
        0x2_0c82_a9d1_42c1, 0x4_32a7_29e1_9273_d934_e28a_1581nat,
    );
}

/// Code 221.
proof fn lemma_entry_221()
    ensures
        nearest_to_power(0x3f39_1a24, 235025, 269025),
{
    lemma_fifth_powers_of_two();
    assert(235025nat * 235025 * 235025 == 0x2e_1f13_7291_1531);
    assert(0x2e_1f13_7291_1531 * 0x2e_1f13_7291_1531 == 0x84f_2ec2_e35c_f58c_8c5e_a743_1361nat);
    assert(0x172_3447 * 0x172_3447 == 0x2_175b_27e8_ebb1);
    assert(0x2_175b_27e8_ebb1 * 0x2_175b_27e8_ebb1 == 0x4_5f8e_2144_eeee_2991_f7ce_7061nat);
    assert(0x172_3449 * 0x172_3449 == 0x2_175b_2db1_bcd1);
    assert(0x2_175b_2db1_bcd1 * 0x2_175b_2db1_bcd1 == 0x4_5f8e_3976_67b5_c25e_1e45_a2a1nat);
    assert(269025nat * 269025 * 269025 == 0x45_2c59_9066_9ca1);
    assert(0x45_2c59_9066_9ca1 * 0x45_2c59_9066_9ca1 == 0x12b0_eff6_c049_6d6d_d948_5020_9d41nat);
    assert(0x12b0_eff6_c049_6d6d_d948_5020_9d41nat * 0x12b0_eff6_c049_6d6d_d948_5020_9d41nat == 0x15d_5c09_8741_6139_2178_92b9_bce5_5f46_89a2_dd05_b95f_0d00_50d8_ca81nat);
    assert(0x84f_2ec2_e35c_f58c_8c5e_a743_1361nat * 0x84f_2ec2_e35c_f58c_8c5e_a743_1361nat == 0x45_0b6a_1308_c0cb_2095_358e_d9a8_b4fe_683c_f21d_7bd4_e817_b43d_8ac1nat);
    assert(0x4_5f8e_2144_eeee_2991_f7ce_7061nat * 0x172_3447 == 0x653_000b_74ce_8ede_b977_5630_1546_dee7nat);
    assert(0x4_5f8e_3976_67b5_c25e_1e45_a2a1nat * 0x172_3449 == 0x653_0037_305c_5487_6a57_4ba1_d396_13e9nat);
    assert(0x653_000b_74ce_8ede_b977_5630_1546_dee7nat * 0x15d_5c09_8741_6139_2178_92b9_bce5_5f46_89a2_dd05_b95f_0d00_50d8_ca81nat == 0x8_a16d_1fe4_be7a_0612_854e_544d_1b56_bd5f_8262_997f_e96d_2f1a_190b_d33e_cc77_0f49_d72c_9e67_3378_e780_9867nat);
    assert(0x653_0037_305c_5487_6a57_4ba1_d396_13e9nat * 0x15d_5c09_8741_6139_2178_92b9_bce5_5f46_89a2_dd05_b95f_0d00_50d8_ca81nat == 0x8_a16d_5b93_27c8_2323_372c_fbc9_4137_c302_eafa_dc80_c84c_a0eb_d116_648d_08e5_4a13_2cd0_3dce_0f59_a6ed_e269nat);
    assert(0x45_0b6a_1308_c0cb_2095_358e_d9a8_b4fe_683c_f21d_7bd4_e817_b43d_8ac1nat * 0x2000_0000_0000_0000_0000_0000_0000_0000nat == 0x8_a16d_4261_1819_6412_a6b1_db35_169f_cd07_9e43_af7a_9d02_f687_b158_2000_0000_0000_0000_0000_0000_0000_0000nat);
    lemma_power_known(
        0x3f39_1a24, 0xb9_1a24, 125, 0x2000_0000_0000_0000_0000_0000_0000_0000nat,
        235025, 0x2e_1f13_7291_1531,
        0x84f_2ec2_e35c_f58c_8c5e_a743_1361nat,
        269025, 0x45_2c59_9066_9ca1,
        0x12b0_eff6_c049_6d6d_d948_5020_9d41nat,
        0x2_175b_27e8_ebb1, 0x4_5f8e_2144_eeee_2991_f7ce_7061nat,
        0x2_175b_2db1_bcd1, 0x4_5f8e_3976_67b5_c25e_1e45_a2a1nat,
    );
}

/// Code 222.
proof fn lemma_entry_222()
    ensures
        nearest_to_power(0x3f3a_ff7a, 236025, 269025),
{
    lemma_fifth_powers_of_two();
    assert(236025nat * 236025 * 236025 == 0x2e_b66e_449d_6ca9);
    assert(0x2e_b66e_449d_6ca9 * 0x2e_b66e_449d_6ca9 == 0x886_11a1_a1a1_ece9_afc4_3d69_0791nat);
    assert(0x175_fef3 * 0x175_fef3 == 0x2_2260_ee05_1aa9);
    assert(0x2_2260_ee05_1aa9 * 0x2_2260_ee05_1aa9 == 0x4_8e21_9c01_26da_606c_4960_c391nat);
    assert(0x175_fef5 * 0x175_fef5 == 0x2_2260_f3dd_1679);
    assert(0x2_2260_f3dd_1679 * 0x2_2260_f3dd_1679 == 0x4_8e21_b4f2_e1fa_7659_84e3_0531nat);
    assert(269025nat * 269025 * 269025 == 0x45_2c59_9066_9ca1);
    assert(0x45_2c59_9066_9ca1 * 0x45_2c59_9066_9ca1 == 0x12b0_eff6_c049_6d6d_d948_5020_9d41nat);
    assert(0x12b0_eff6_c049_6d6d_d948_5020_9d41nat * 0x12b0_eff6_c049_6d6d_d948_5020_9d41nat == 0x15d_5c09_8741_6139_2178_92b9_bce5_5f46_89a2_dd05_b95f_0d00_50d8_ca81nat);
    assert(0x886_11a1_a1a1_ece9_afc4_3d69_0791nat * 0x886_11a1_a1a1_ece9_afc4_3d69_0791nat == 0x48_a750_9086_31d6_d4d0_5ef7_c7ad_c85f_5d21_37e8_cdd9_0cba_4f2b_4021nat);
    assert(0x4_8e21_9c01_26da_606c_4960_c391nat * 0x175_fef3 == 0x6a7_a050_905d_d5d3_0abb_e194_9b28_80a3nat);
    assert(0x4_8e21_b4f2_e1fa_7659_84e3_0531nat * 0x175_fef5 == 0x6a7_a07e_1dae_6a97_368e_b44b_fccf_95e5nat);
    assert(0x6a7_a050_905d_d5d3_0abb_e194_9b28_80a3nat * 0x15d_5c09_8741_6139_2178_92b9_bce5_5f46_89a2_dd05_b95f_0d00_50d8_ca81nat == 0x9_14ea_0ada_7f44_7d60_18b0_ab45_de2d_7cc9_3eb1_4aa2_5890_6c2f_7c2d_9917_2dad_6d24_a9e3_0490_c7af_9e71_7023nat);
    assert(0x6a7_a07e_1dae_6a97_368e_b44b_fccf_95e5nat * 0x15d_5c09_8741_6139_2178_92b9_bce5_5f46_89a2_dd05_b95f_0d00_50d8_ca81nat == 0x9_14ea_4904_869a_4b43_3e5e_6a4f_cd06_8163_a98c_093b_a363_9137_02cf_92cb_2564_630c_f6a9_9ee2_9ec4_3a19_3a65nat);
    assert(0x48_a750_9086_31d6_d4d0_5ef7_c7ad_c85f_5d21_37e8_cdd9_0cba_4f2b_4021nat * 0x2000_0000_0000_0000_0000_0000_0000_0000nat == 0x9_14ea_1210_c63a_da9a_0bde_f8f5_b90b_eba4_26fd_19bb_2197_49e5_6804_2000_0000_0000_0000_0000_0000_0000_0000nat);
    lemma_power_known(
        0x3f3a_ff7a, 0xba_ff7a, 125, 0x2000_0000_0000_0000_0000_0000_0000_0000nat,
        236025, 0x2e_b66e_449d_6ca9,
        0x886_11a1_a1a1_ece9_afc4_3d69_0791nat,
        269025, 0x45_2c59_9066_9ca1,
        0x12b0_eff6_c049_6d6d_d948_5020_9d41nat,
        0x2_2260_ee05_1aa9, 0x4_8e21_9c01_26da_606c_4960_c391nat,
        0x2_2260_f3dd_1679, 0x4_8e21_b4f2_e1fa_7659_84e3_0531nat,
    );
}

/// Code 223.
proof fn lemma_entry_223()
    ensures
        nearest_to_power(0x3f3c_e7b2, 237025, 269025),
{
    lemma_fifth_powers_of_two();
    assert(237025nat * 237025 * 237025 == 0x2f_4f12_cfc7_e5a1);
    assert(0x2f_4f12_cfc7_e5a1 * 0x2f_4f12_cfc7_e5a1 == 0x8be_2154_e905_9198_8a15_2c47_6f41nat);
    assert(0x179_cf63 * 0x179_cf63 == 0x2_2d94_7997_4049);
    assert(0x2_2d94_7997_4049 * 0x2_2d94_7997_4049 == 0x4_be6f_6f38_fe60_5289_e842_94d1nat);
    assert(0x179_cf65 * 0x179_cf65 == 0x2_2d94_7f7e_7dd9);
    assert(0x2_2d94_7f7e_7dd9 * 0x2_2d94_7f7e_7dd9 == 0x4_be6f_88f0_1962_8c45_6d79_a1f1nat);
    assert(269025nat * 269025 * 269025 == 0x45_2c59_9066_9ca1);
    assert(0x45_2c59_9066_9ca1 * 0x45_2c59_9066_9ca1 == 0x12b0_eff6_c049_6d6d_d948_5020_9d41nat);
    assert(0x12b0_eff6_c049_6d6d_d948_5020_9d41nat * 0x12b0_eff6_c049_6d6d_d948_5020_9d41nat == 0x15d_5c09_8741_6139_2178_92b9_bce5_5f46_89a2_dd05_b95f_0d00_50d8_ca81nat);
    assert(0x8be_2154_e905_9198_8a15_2c47_6f41nat * 0x8be_2154_e905_9198_8a15_2c47_6f41nat == 0x4c_6f4a_ccf1_3d9a_d65a_4d0c_f26a_c4c9_c7bf_00e3_0e82_f6d7_3e67_6e81nat);
    assert(0x4_be6f_6f38_fe60_5289_e842_94d1nat * 0x179_cf63 == 0x700_49ec_8af5_b493_cf14_782f_cfdd_8bd3nat);
    assert(0x4_be6f_88f0_1962_8c45_6d79_a1f1nat * 0x179_cf65 == 0x700_4a1b_fb50_8d61_458b_b309_06d7_c315nat);
    assert(0x700_49ec_8af5_b493_cf14_782f_cfdd_8bd3nat * 0x15d_5c09_8741_6139_2178_92b9_bce5_5f46_89a2_dd05_b95f_0d00_50d8_ca81nat == 0x9_8de9_24bf_fcef_8b5e_0d21_b547_fe28_42fd_1340_d9dc_9460_be93_e918_cb04_54a7_5c58_4ba5_77d9_9fbc_78ff_f353nat);
    assert(0x700_4a1b_fb50_8d61_458b_b309_06d7_c315nat * 0x15d_5c09_8741_6139_2178_92b9_bce5_5f46_89a2_dd05_b95f_0d00_50d8_ca81nat == 0x9_8de9_657d_36ed_c4f1_7706_fc96_b7a2_9c80_ae33_b14b_0e64_8121_3f5e_d523_9111_0741_3083_af1e_9af5_dc5f_df95nat);
    assert(0x4c_6f4a_ccf1_3d9a_d65a_4d0c_f26a_c4c9_c7bf_00e3_0e82_f6d7_3e67_6e81nat * 0x2000_0000_0000_0000_0000_0000_0000_0000nat == 0x9_8de9_599e_27b3_5acb_49a1_9e4d_5899_38f7_e01c_61d0_5eda_e7cc_edd0_2000_0000_0000_0000_0000_0000_0000_0000nat);
    lemma_power_known(
        0x3f3c_e7b2, 0xbc_e7b2, 125, 0x2000_0000_0000_0000_0000_0000_0000_0000nat,
        237025, 0x2f_4f12_cfc7_e5a1,
        0x8be_2154_e905_9198_8a15_2c47_6f41nat,
        269025, 0x45_2c59_9066_9ca1,
        0x12b0_eff6_c049_6d6d_d948_5020_9d41nat,
        0x2_2d94_7997_4049, 0x4_be6f_6f38_fe60_5289_e842_94d1nat,
        0x2_2d94_7f7e_7dd9, 0x4_be6f_88f0_1962_8c45_6d79_a1f1nat,
    );
}

/// Code 224.
proof fn lemma_entry_224()
    ensures
        nearest_to_power(0x3f3e_d2cf, 238025, 269025),
{
    lemma_fifth_powers_of_two();
    assert(238025nat * 238025 * 238025 == 0x2f_e902_79b1_3c19);
    assert(0x2f_e902_79b1_3c19 * 0x2f_e902_79b1_3c19 == 0x8f7_62fe_309e_d131_77e7_caad_ba71nat);
    assert(0x17d_a59d * 0x17d_a59d == 0x2_38f6_6075_c249);
    assert(0x2_38f6_6075_c249 * 0x2_38f6_6075_c249 == 0x4_f086_3928_14cd_dc2d_ea2c_b8d1nat);
    assert(0x17d_a59f * 0x17d_a59f == 0x2_38f6_666c_58c1);
    assert(0x2_38f6_666c_58c1 * 0x2_38f6_666c_58c1 == 0x4_f086_53a9_cb0d_8780_cd9d_4181nat);
    assert(269025nat * 269025 * 269025 == 0x45_2c59_9066_9ca1);
    assert(0x45_2c59_9066_9ca1 * 0x45_2c59_9066_9ca1 == 0x12b0_eff6_c049_6d6d_d948_5020_9d41nat);
    assert(0x12b0_eff6_c049_6d6d_d948_5020_9d41nat * 0x12b0_eff6_c049_6d6d_d948_5020_9d41nat == 0x15d_5c09_8741_6139_2178_92b9_bce5_5f46_89a2_dd05_b95f_0d00_50d8_ca81nat);
    assert(0x8f7_62fe_309e_d131_77e7_caad_ba71nat * 0x8f7_62fe_309e_d131_77e7_caad_ba71nat == 0x50_6540_0fd3_5928_e180_cce4_cf00_c701_686d_14b6_ca94_260d_d882_65e1nat);
    assert(0x4_f086_3928_14cd_dc2d_ea2c_b8d1nat * 0x17d_a59d == 0x75d_29d1_15ce_d95e_217f_24a6_7f99_0d2dnat);
    assert(0x4_f086_53a9_cb0d_8780_cd9d_4181nat * 0x17d_a59f == 0x75d_2a02_7b0d_9977_806f_3090_8ce0_d41fnat);
    assert(0x75d_29d1_15ce_d95e_217f_24a6_7f99_0d2dnat * 0x15d_5c09_8741_6139_2178_92b9_bce5_5f46_89a2_dd05_b95f_0d00_50d8_ca81nat == 0xa_0ca7_c33c_59af_41da_c3ec_ed09_0eec_801c_d3e1_1408_8aab_2633_d142_441c_9701_7156_5145_56b6_9ed6_3e7d_25adnat);
    assert(0x75d_2a02_7b0d_9977_806f_3090_8ce0_d41fnat * 0x15d_5c09_8741_6139_2178_92b9_bce5_5f46_89a2_dd05_b95f_0d00_50d8_ca81nat == 0xa_0ca8_06a5_2274_59b0_9ece_b46a_a163_3e15_1e97_9fff_8d38_c493_ed6b_7f7a_fe5e_5cf4_bd09_239d_3afd_0ed3_599fnat);
    assert(0x50_6540_0fd3_5928_e180_cce4_cf00_c701_686d_14b6_ca94_260d_d882_65e1nat * 0x2000_0000_0000_0000_0000_0000_0000_0000nat == 0xa_0ca8_01fa_6b25_1c30_199c_99e0_18e0_2d0d_a296_d952_84c1_bb10_4cbc_2000_0000_0000_0000_0000_0000_0000_0000nat);
    lemma_power_known(
        0x3f3e_d2cf, 0xbe_d2cf, 125, 0x2000_0000_0000_0000_0000_0000_0000_0000nat,
        238025, 0x2f_e902_79b1_3c19,
        0x8f7_62fe_309e_d131_77e7_caad_ba71nat,
        269025, 0x45_2c59_9066_9ca1,
        0x12b0_eff6_c049_6d6d_d948_5020_9d41nat,
        0x2_38f6_6075_c249, 0x4_f086_3928_14cd_dc2d_ea2c_b8d1nat,
        0x2_38f6_666c_58c1, 0x4_f086_53a9_cb0d_8780_cd9d_4181nat,
    );
}

/// Code 225.
proof fn lemma_entry_225()
    ensures
        nearest_to_power(0x3f40_c0d2, 239025, 269025),
{
    lemma_fifth_powers_of_two();
    assert(239025nat * 239025 * 239025 == 0x30_843e_a7fa_2c11);
    assert(0x30_843e_a7fa_2c11 * 0x30_843e_a7fa_2c11 == 0x931_dbcf_aa60_4f37_3a34_46c9_d921nat);
    assert(0x181_81a3 * 0x181_81a3 == 0x2_4487_2deb_adc9);
    assert(0x2_4487_2deb_adc9 * 0x2_4487_2deb_adc9 == 0x5_2474_cf75_6244_c60f_2eff_47d1nat);
    assert(0x181_81a5 * 0x181_81a5 == 0x2_4487_33f1_b459);
    assert(0x2_4487_33f1_b459 * 0x2_4487_33f1_b459 == 0x5_2474_eac7_0ca9_afee_849f_46f1nat);
    assert(269025nat * 269025 * 269025 == 0x45_2c59_9066_9ca1);
    assert(0x45_2c59_9066_9ca1 * 0x45_2c59_9066_9ca1 == 0x12b0_eff6_c049_6d6d_d948_5020_9d41nat);
    assert(0x12b0_eff6_c049_6d6d_d948_5020_9d41nat * 0x12b0_eff6_c049_6d6d_d948_5020_9d41nat == 0x15d_5c09_8741_6139_2178_92b9_bce5_5f46_89a2_dd05_b95f_0d00_50d8_ca81nat);
    assert(0x931_dbcf_aa60_4f37_3a34_46c9_d921nat * 0x931_dbcf_aa60_4f37_3a34_46c9_d921nat == 0x54_8b2a_7c36_f465_f5e8_9b53_b76d_7b9d_1883_663d_f624_2b4c_b9fa_f641nat);
    assert(0x5_2474_cf75_6244_c60f_2eff_47d1nat * 0x181_81a3 == 0x7be_6e51_1273_07b0_166d_7044_910c_0b13nat);
    assert(0x5_2474_eac7_0ca9_afee_849f_46f1nat * 0x181_81a5 == 0x7be_6e84_7f03_aade_40bb_0919_6dd9_2a55nat);
    assert(0x7be_6e51_1273_07b0_166d_7044_910c_0b13nat * 0x15d_5c09_8741_6139_2178_92b9_bce5_5f46_89a2_dd05_b95f_0d00_50d8_ca81nat == 0xa_9165_1df4_90c4_1d63_f2ac_0f5b_62e9_e84c_0a64_76af_3096_d225_a7cd_2a96_1f0c_c065_920f_4286_c99f_dfd6_9293nat);
    assert(0x7be_6e84_7f03_aade_40bb_0919_6dd9_2a55nat * 0x15d_5c09_8741_6139_2178_92b9_bce5_5f46_89a2_dd05_b95f_0d00_50d8_ca81nat == 0xa_9165_6422_0ee0_8a70_50ac_437a_c40d_34df_5492_dfb8_05ea_1cbc_9392_0918_0065_ab48_bc24_fce7_83f3_fd8d_66d5nat);
    assert(0x54_8b2a_7c36_f465_f5e8_9b53_b76d_7b9d_1883_663d_f624_2b4c_b9fa_f641nat * 0x2000_0000_0000_0000_0000_0000_0000_0000nat == 0xa_9165_4f86_de8c_bebd_136a_76ed_af73_a310_6cc7_bec4_8569_973f_5ec8_2000_0000_0000_0000_0000_0000_0000_0000nat);
    lemma_power_known(
        0x3f40_c0d2, 0xc0_c0d2, 125, 0x2000_0000_0000_0000_0000_0000_0000_0000nat,
        239025, 0x30_843e_a7fa_2c11,
        0x931_dbcf_aa60_4f37_3a34_46c9_d921nat,
        269025, 0x45_2c59_9066_9ca1,
        0x12b0_eff6_c049_6d6d_d948_5020_9d41nat,
        0x2_4487_2deb_adc9, 0x5_2474_cf75_6244_c60f_2eff_47d1nat,
        0x2_4487_33f1_b459, 0x5_2474_eac7_0ca9_afee_849f_46f1nat,
    );
}

/// Code 226.
proof fn lemma_entry_226()
    ensures
        nearest_to_power(0x3f42_b1bc, 240025, 269025),
{
    lemma_fifth_powers_of_two();
    assert(240025nat * 240025 * 240025 == 0x31_20c8_c043_7189);
    assert(0x31_20c8_c043_7189 * 0x31_20c8_c043_7189 == 0x96d_910c_674f_4c9a_e222_2010_3b51nat);
    assert(0x185_6377 * 0x185_6377 == 0x2_5047_6e4b_4151);
    assert(0x2_5047_6e4b_4151 * 0x2_5047_6e4b_4151 == 0x5_5a4a_720a_6b59_9d2e_f220_3ba1nat);
    assert(0x185_6379 * 0x185_6379 == 0x2_5047_7460_cf31);
    assert(0x2_5047_7460_cf31 * 0x2_5047_7460_cf31 == 0x5_5a4a_8e31_80dd_6d8e_7470_4761nat);
    assert(269025nat * 269025 * 269025 == 0x45_2c59_9066_9ca1);
    assert(0x45_2c59_9066_9ca1 * 0x45_2c59_9066_9ca1 == 0x12b0_eff6_c049_6d6d_d948_5020_9d41nat);
    assert(0x12b0_eff6_c049_6d6d_d948_5020_9d41nat * 0x12b0_eff6_c049_6d6d_d948_5020_9d41nat == 0x15d_5c09_8741_6139_2178_92b9_bce5_5f46_89a2_dd05_b95f_0d00_50d8_ca81nat);
    assert(0x96d_910c_674f_4c9a_e222_2010_3b51nat * 0x96d_910c_674f_4c9a_e222_2010_3b51nat == 0x58_e317_b602_9a8b_cdb2_8235_4dfe_f487_4730_45e6_a682_d55f_b7de_6fa1nat);
    assert(0x5_5a4a_720a_6b59_9d2e_f220_3ba1nat * 0x185_6377 == 0x824_4787_0c8a_2987_66c7_236f_9faf_fad7nat);
    assert(0x5_5a4a_8e31_80dd_6d8e_7470_4761nat * 0x185_6379 == 0x824_47bc_9373_2ab3_037d_cdf8_eb11_3fd9nat);
    assert(0x824_4787_0c8a_2987_66c7_236f_9faf_fad7nat * 0x15d_5c09_8741_6139_2178_92b9_bce5_5f46_89a2_dd05_b95f_0d00_50d8_ca81nat == 0xb_1c62_da64_5aa1_a684_e2df_1ced_0e6f_aadb_a531_7828_0070_fb59_fa74_e251_f1a6_7369_524f_18ea_951f_2903_0c57nat);
    assert(0x824_47bc_9373_2ab3_037d_cdf8_eb11_3fd9nat * 0x15d_5c09_8741_6139_2178_92b9_bce5_5f46_89a2_dd05_b95f_0d00_50d8_ca81nat == 0xb_1c63_2370_84c2_0166_b397_6072_0382_346e_a815_f54d_a70a_2bbc_3154_9f4e_86ce_dd56_f230_fd2b_f36b_bf2a_6659nat);
    assert(0x58_e317_b602_9a8b_cdb2_8235_4dfe_f487_4730_45e6_a682_d55f_b7de_6fa1nat * 0x2000_0000_0000_0000_0000_0000_0000_0000nat == 0xb_1c62_f6c0_5351_79b6_5046_a9bf_de90_e8e6_08bc_d4d0_5aab_f6fb_cdf4_2000_0000_0000_0000_0000_0000_0000_0000nat);
    lemma_power_known(
        0x3f42_b1bc, 0xc2_b1bc, 125, 0x2000_0000_0000_0000_0000_0000_0000_0000nat,
        240025, 0x31_20c8_c043_7189,
        0x96d_910c_674f_4c9a_e222_2010_3b51nat,
        269025, 0x45_2c59_9066_9ca1,
        0x12b0_eff6_c049_6d6d_d948_5020_9d41nat,
        0x2_5047_6e4b_4151, 0x5_5a4a_720a_6b59_9d2e_f220_3ba1nat,
        0x2_5047_7460_cf31, 0x5_5a4a_8e31_80dd_6d8e_7470_4761nat,
    );
}

/// Code 227.
proof fn lemma_entry_227()
    ensures
        nearest_to_power(0x3f44_a58e, 241025, 269025),
{
    lemma_fifth_powers_of_two();
    assert(241025nat * 241025 * 241025 == 0x31_bea2_282d_c881);
    assert(0x31_bea2_282d_c881 * 0x31_bea2_282d_c881 == 0x9aa_8808_7be1_9741_961c_6a63_d101nat);
    assert(0x189_4b1b * 0x189_4b1b == 0x2_5c37_aeee_d4d9);
    assert(0x2_5c37_aeee_d4d9 * 0x2_5c37_aeee_d4d9 == 0x5_9216_cd93_9e88_f565_7074_1ff1nat);
    assert(0x189_4b1d * 0x189_4b1d == 0x2_5c37_b514_0149);
    assert(0x2_5c37_b514_0149 * 0x2_5c37_b514_0149 == 0x5_9216_ea95_b4be_50bf_6d69_a6d1nat);
    assert(269025nat * 269025 * 269025 == 0x45_2c59_9066_9ca1);
    assert(0x45_2c59_9066_9ca1 * 0x45_2c59_9066_9ca1 == 0x12b0_eff6_c049_6d6d_d948_5020_9d41nat);
    assert(0x12b0_eff6_c049_6d6d_d948_5020_9d41nat * 0x12b0_eff6_c049_6d6d_d948_5020_9d41nat == 0x15d_5c09_8741_6139_2178_92b9_bce5_5f46_89a2_dd05_b95f_0d00_50d8_ca81nat);
    assert(0x9aa_8808_7be1_9741_961c_6a63_d101nat * 0x9aa_8808_7be1_9741_961c_6a63_d101nat == 0x5d_6f29_8c43_6827_2a6b_0ef4_24fb_f7b4_2651_70d5_bb7b_b438_2568_a201nat);
    assert(0x5_9216_cd93_9e88_f565_7074_1ff1nat * 0x189_4b1b == 0x88e_e764_ae40_4e44_9110_3be9_ea93_f96bnat);
    assert(0x5_9216_ea95_b4be_50bf_6d69_a6d1nat * 0x189_4b1d == 0x88e_e79c_6324_e713_3116_31ee_6fb0_20adnat);
    assert(0x88e_e764_ae40_4e44_9110_3be9_ea93_f96bnat * 0x15d_5c09_8741_6139_2178_92b9_bce5_5f46_89a2_dd05_b95f_0d00_50d8_ca81nat == 0xb_ade5_20f5_6a62_d6ee_6e6f_f615_fc84_e8a4_324a_1f9c_e8eb_b81b_51b4_5294_db15_88a2_1e97_f480_5dc3_d9a7_1cebnat);
    assert(0x88e_e79c_6324_e713_3116_31ee_6fb0_20adnat * 0x15d_5c09_8741_6139_2178_92b9_bce5_5f46_89a2_dd05_b95f_0d00_50d8_ca81nat == 0xb_ade5_6cfb_0d1c_1a30_d9ef_0f13_0138_6d2f_e62c_d236_eec7_b9ad_fe2b_5a43_6784_7f50_c1c1_fa86_5d18_e380_f92dnat);
    assert(0x5d_6f29_8c43_6827_2a6b_0ef4_24fb_f7b4_2651_70d5_bb7b_b438_2568_a201nat * 0x2000_0000_0000_0000_0000_0000_0000_0000nat == 0xb_ade5_3188_6d04_e54d_61de_849f_7ef6_84ca_2e1a_b76f_7687_04ad_1440_2000_0000_0000_0000_0000_0000_0000_0000nat);
    lemma_power_known(
        0x3f44_a58e, 0xc4_a58e, 125, 0x2000_0000_0000_0000_0000_0000_0000_0000nat,
        241025, 0x31_bea2_282d_c881,
        0x9aa_8808_7be1_9741_961c_6a63_d101nat,
        269025, 0x45_2c59_9066_9ca1,
        0x12b0_eff6_c049_6d6d_d948_5020_9d41nat,
        0x2_5c37_aeee_d4d9, 0x5_9216_cd93_9e88_f565_7074_1ff1nat,
        0x2_5c37_b514_0149, 0x5_9216_ea95_b4be_50bf_6d69_a6d1nat,
    );
}

/// Code 228.
proof fn lemma_entry_228()
    ensures
        nearest_to_power(0x3f46_9c49, 242025, 269025),
{
    lemma_fifth_powers_of_two();
    assert(242025nat * 242025 * 242025 == 0x32_5dcc_4559_ecf9);
    assert(0x32_5dcc_4559_ecf9 * 0x32_5dcc_4559_ecf9 == 0x9e8_c629_2482_818c_302c_da7e_0a31nat);
    assert(0x18d_3891 * 0x18d_3891 == 0x2_6858_7e39_c221);
    assert(0x2_6858_7e39_c221 * 0x2_6858_7e39_c221 == 0x5_cbe9_fe0c_fc31_2ed0_81e8_0841nat);
    assert(0x18d_3893 * 0x18d_3893 == 0x2_6858_846e_a469);
    assert(0x2_6858_846e_a469 * 0x2_6858_846e_a469 == 0x5_cbea_1bef_c7cc_a18d_fbd2_b311nat);
    assert(269025nat * 269025 * 269025 == 0x45_2c59_9066_9ca1);
    assert(0x45_2c59_9066_9ca1 * 0x45_2c59_9066_9ca1 == 0x12b0_eff6_c049_6d6d_d948_5020_9d41nat);
    assert(0x12b0_eff6_c049_6d6d_d948_5020_9d41nat * 0x12b0_eff6_c049_6d6d_d948_5020_9d41nat == 0x15d_5c09_8741_6139_2178_92b9_bce5_5f46_89a2_dd05_b95f_0d00_50d8_ca81nat);
    assert(0x9e8_c629_2482_818c_302c_da7e_0a31nat * 0x9e8_c629_2482_818c_302c_da7e_0a31nat == 0x62_3196_a887_04bd_40e1_c90c_f2fe_ff46_58e4_fbaf_a138_c841_7ca3_dd61nat);
    assert(0x5_cbe9_fe0c_fc31_2ed0_81e8_0841nat * 0x18d_3891 == 0x8fe_81c2_a93e_d4cb_3372_9559_2307_e4d1nat);
    assert(0x5_cbea_1bef_c7cc_a18d_fbd2_b311nat * 0x18d_3893 == 0x8fe_81fc_a063_56bb_0707_595d_6285_8ac3nat);
    assert(0x8fe_81c2_a93e_d4cb_3372_9559_2307_e4d1nat * 0x15d_5c09_8741_6139_2178_92b9_bce5_5f46_89a2_dd05_b95f_0d00_50d8_ca81nat == 0xc_4632_b2b5_c1c9_ab63_71a9_dc30_1674_d749_f80e_7fc2_ab2d_5f68_4c6a_7b83_05c9_b504_e87c_8deb_3ab9_41df_3751nat);
    assert(0x8fe_81fc_a063_56bb_0707_595d_6285_8ac3nat * 0x15d_5c09_8741_6139_2178_92b9_bce5_5f46_89a2_dd05_b95f_0d00_50d8_ca81nat == 0xc_4633_01d0_8588_3e73_a94f_e3a4_d04a_f5d2_e5b9_d0c8_5e09_4e21_98bb_3288_1b67_39ae_5d90_1e35_7ad6_0950_ca43nat);
    assert(0x62_3196_a887_04bd_40e1_c90c_f2fe_ff46_58e4_fbaf_a138_c841_7ca3_dd61nat * 0x2000_0000_0000_0000_0000_0000_0000_0000nat == 0xc_4632_d510_e097_a81c_3921_9e5f_dfe8_cb1c_9f75_f427_1908_2f94_7bac_2000_0000_0000_0000_0000_0000_0000_0000nat);
    lemma_power_known(
        0x3f46_9c49, 0xc6_9c49, 125, 0x2000_0000_0000_0000_0000_0000_0000_0000nat,
        242025, 0x32_5dcc_4559_ecf9,
        0x9e8_c629_2482_818c_302c_da7e_0a31nat,
        269025, 0x45_2c59_9066_9ca1,
        0x12b0_eff6_c049_6d6d_d948_5020_9d41nat,
        0x2_6858_7e39_c221, 0x5_cbe9_fe0c_fc31_2ed0_81e8_0841nat,
        0x2_6858_846e_a469, 0x5_cbea_1bef_c7cc_a18d_fbd2_b311nat,
    );
}

/// Code 229.
proof fn lemma_entry_229()
    ensures
        nearest_to_power(0x3f48_95ef, 243025, 269025),
{
    lemma_fifth_powers_of_two();
    assert(243025nat * 243025 * 243025 == 0x32_fe48_7d68_9af1);
    assert(0x32_fe48_7d68_9af1 * 0x32_fe48_7d68_9af1 == 0xa28_50e4_ea3e_e1e0_b59d_9b96_d6e1nat);
    assert(0x191_2bdd * 0x191_2bdd == 0x2_74aa_71dd_fcc9);
    assert(0x2_74aa_71dd_fcc9 * 0x2_74aa_71dd_fcc9 == 0x6_07d4_b024_8db3_9c9b_dea6_55d1nat);
    assert(0x191_2bdf * 0x191_2bdf == 0x2_74aa_7822_ac41);
    assert(0x2_74aa_7822_ac41 * 0x2_74aa_7822_ac41 == 0x6_07d4_ceed_e38c_3483_252b_6881nat);
    assert(269025nat * 269025 * 269025 == 0x45_2c59_9066_9ca1);
    assert(0x45_2c59_9066_9ca1 * 0x45_2c59_9066_9ca1 == 0x12b0_eff6_c049_6d6d_d948_5020_9d41nat);
    assert(0x12b0_eff6_c049_6d6d_d948_5020_9d41nat * 0x12b0_eff6_c049_6d6d_d948_5020_9d41nat == 0x15d_5c09_8741_6139_2178_92b9_bce5_5f46_89a2_dd05_b95f_0d00_50d8_ca81nat);
    assert(0xa28_50e4_ea3e_e1e0_b59d_9b96_d6e1nat * 0xa28_50e4_ea3e_e1e0_b59d_9b96_d6e1nat == 0x67_2cab_4365_fc65_87ee_df8f_6611_028f_ded3_15b7_0d2d_bb0e_fa08_f1c1nat);
    assert(0x6_07d4_b024_8db3_9c9b_dea6_55d1nat * 0x191_2bdd == 0x973_4cad_6574_29b3_cf84_2381_9263_306dnat);
    assert(0x6_07d4_ceed_e38c_3483_252b_6881nat * 0x191_2bdf == 0x973_4ce9_b3c3_a510_0560_fe7a_5d6e_b35fnat);
    assert(0x973_4cad_6574_29b3_cf84_2381_9263_306dnat * 0x15d_5c09_8741_6139_2178_92b9_bce5_5f46_89a2_dd05_b95f_0d00_50d8_ca81nat == 0xc_e595_51fd_8937_deb1_17ec_1c2f_2449_09e6_6e6e_e33f_3a0e_4ec2_4035_1394_f319_2565_e84e_0f95_2d9f_f429_68ednat);
    assert(0x973_4ce9_b3c3_a510_0560_fe7a_5d6e_b35fnat * 0x15d_5c09_8741_6139_2178_92b9_bce5_5f46_89a2_dd05_b95f_0d00_50d8_ca81nat == 0xc_e595_a449_f9f6_3939_b2f9_4792_1fc2_6f2a_f8b9_50fa_59a4_acb7_07dd_a432_2780_c402_10fc_097b_09d7_7679_58dfnat);
    assert(0x67_2cab_4365_fc65_87ee_df8f_6611_028f_ded3_15b7_0d2d_bb0e_fa08_f1c1nat * 0x2000_0000_0000_0000_0000_0000_0000_0000nat == 0xc_e595_686c_bf8c_b0fd_dbf1_ecc2_2051_fbda_62b6_e1a5_b761_df41_1e38_2000_0000_0000_0000_0000_0000_0000_0000nat);
    lemma_power_known(
        0x3f48_95ef, 0xc8_95ef, 125, 0x2000_0000_0000_0000_0000_0000_0000_0000nat,
        243025, 0x32_fe48_7d68_9af1,
        0xa28_50e4_ea3e_e1e0_b59d_9b96_d6e1nat,
        269025, 0x45_2c59_9066_9ca1,
        0x12b0_eff6_c049_6d6d_d948_5020_9d41nat,
        0x2_74aa_71dd_fcc9, 0x6_07d4_b024_8db3_9c9b_dea6_55d1nat,
        0x2_74aa_7822_ac41, 0x6_07d4_ceed_e38c_3483_252b_6881nat,
    );
}

/// Code 230.
proof fn lemma_entry_230()
    ensures
        nearest_to_power(0x3f4a_9280, 244025, 269025),
{
    lemma_fifth_powers_of_two();
    assert(244025nat * 244025 * 244025 == 0x33_a018_35fa_8e69);
    assert(0x33_a018_35fa_8e69 * 0x33_a018_35fa_8e69 == 0xa69_2dc3_c798_1a35_a7e1_ee4c_a711nat);
    assert(0x195_24ff * 0x195_24ff == 0x2_812e_142e_b601);
    assert(0x2_812e_142e_b601 * 0x2_812e_142e_b601 == 0x6_45e7_c95d_2dd1_bf52_11c1_6c01nat);
    assert(0x195_2501 * 0x195_2501 == 0x2_812e_1a83_4a01);
    assert(0x2_812e_1a83_4a01 * 0x2_812e_1a83_4a01 == 0x6_45e7_e913_0286_88b9_066a_9401nat);
    assert(269025nat * 269025 * 269025 == 0x45_2c59_9066_9ca1);
    assert(0x45_2c59_9066_9ca1 * 0x45_2c59_9066_9ca1 == 0x12b0_eff6_c049_6d6d_d948_5020_9d41nat);
    assert(0x12b0_eff6_c049_6d6d_d948_5020_9d41nat * 0x12b0_eff6_c049_6d6d_d948_5020_9d41nat == 0x15d_5c09_8741_6139_2178_92b9_bce5_5f46_89a2_dd05_b95f_0d00_50d8_ca81nat);
    assert(0xa69_2dc3_c798_1a35_a7e1_ee4c_a711nat * 0xa69_2dc3_c798_1a35_a7e1_ee4c_a711nat == 0x6c_62c9_de60_06b6_d7ad_fbd5_354d_e993_7ab5_9c29_6392_7779_3b1f_2f21nat);
    assert(0x6_45e7_c95d_2dd1_bf52_11c1_6c01nat * 0x195_24ff == 0x9ed_7fc5_ca9c_2b15_cfab_343e_c06f_b8ffnat);
    assert(0x6_45e7_e913_0286_88b9_066a_9401nat * 0x195_2501 == 0x9ed_8004_85aa_a746_c100_6d42_9363_b901nat);
    assert(0x9ed_7fc5_ca9c_2b15_cfab_343e_c06f_b8ffnat * 0x15d_5c09_8741_6139_2178_92b9_bce5_5f46_89a2_dd05_b95f_0d00_50d8_ca81nat == 0xd_8c58_e928_911e_ef5d_f277_d226_2775_7e36_ffcf_c8e3_ae43_a40d_4c32_0780_1362_a93f_ba89_079a_128a_e76d_6e7fnat);
    assert(0x9ed_8004_85aa_a746_c100_6d42_9363_b901nat * 0x15d_5c09_8741_6139_2178_92b9_bce5_5f46_89a2_dd05_b95f_0d00_50d8_ca81nat == 0xd_8c59_3ec4_216d_2ae4_dd25_577b_0a15_603d_2dc8_c5e3_07b7_4b35_6aad_25a7_e9da_840d_b7a7_066d_29cd_5e13_0381nat);
    assert(0x6c_62c9_de60_06b6_d7ad_fbd5_354d_e993_7ab5_9c29_6392_7779_3b1f_2f21nat * 0x2000_0000_0000_0000_0000_0000_0000_0000nat == 0xd_8c59_3bcc_00d6_daf5_bf7a_a6a9_bd32_6f56_b385_2c72_4eef_2763_e5e4_2000_0000_0000_0000_0000_0000_0000_0000nat);
    lemma_power_known(
        0x3f4a_9280, 0xca_9280, 125, 0x2000_0000_0000_0000_0000_0000_0000_0000nat,
        244025, 0x33_a018_35fa_8e69,
        0xa69_2dc3_c798_1a35_a7e1_ee4c_a711nat,
        269025, 0x45_2c59_9066_9ca1,
        0x12b0_eff6_c049_6d6d_d948_5020_9d41nat,
        0x2_812e_142e_b601, 0x6_45e7_c95d_2dd1_bf52_11c1_6c01nat,
        0x2_812e_1a83_4a01, 0x6_45e7_e913_0286_88b9_066a_9401nat,
    );
}

/// Code 231.
proof fn lemma_entry_231()
    ensures
        nearest_to_power(0x3f4c_91ff, 245025, 269025),
{
    lemma_fifth_powers_of_two();
    assert(245025nat * 245025 * 245025 == 0x34_433c_d4b0_8361);
    assert(0x34_433c_d4b0_8361 * 0x34_433c_d4b0_8361 == 0xaab_625f_4d7e_279f_2ec5_90cc_6ac1nat);
    assert(0x199_23fd * 0x199_23fd == 0x2_8de4_0379_2809);
    assert(0x2_8de4_0379_2809 * 0x2_8de4_0379_2809 == 0x6_8635_04ce_4619_4a4f_14c4_d051nat);
    assert(0x199_23ff * 0x199_23ff == 0x2_8de4_09dd_b801);
    assert(0x2_8de4_09dd_b801 * 0x2_8de4_09dd_b801 == 0x6_8635_2576_b006_32bf_47fb_7001nat);
    assert(269025nat * 269025 * 269025 == 0x45_2c59_9066_9ca1);
    assert(0x45_2c59_9066_9ca1 * 0x45_2c59_9066_9ca1 == 0x12b0_eff6_c049_6d6d_d948_5020_9d41nat);
    assert(0x12b0_eff6_c049_6d6d_d948_5020_9d41nat * 0x12b0_eff6_c049_6d6d_d948_5020_9d41nat == 0x15d_5c09_8741_6139_2178_92b9_bce5_5f46_89a2_dd05_b95f_0d00_50d8_ca81nat);
    assert(0xaab_625f_4d7e_279f_2ec5_90cc_6ac1nat * 0xaab_625f_4d7e_279f_2ec5_90cc_6ac1nat == 0x71_d66c_032c_7c70_8fbc_5534_2be2_7219_d4c2_eef1_0c9e_445d_701c_6581nat);
    assert(0x6_8635_04ce_4619_4a4f_14c4_d051nat * 0x199_23fd == 0xa6d_5580_8f9b_f1d8_747f_6e6f_4065_f30dnat);
    assert(0x6_8635_2576_b006_32bf_47fb_7001nat * 0x199_23ff == 0xa6d_55c1_cdae_c531_42b6_b416_055d_b3ffnat);
    assert(0xa6d_5580_8f9b_f1d8_747f_6e6f_4065_f30dnat * 0x15d_5c09_8741_6139_2178_92b9_bce5_5f46_89a2_dd05_b95f_0d00_50d8_ca81nat == 0xe_3acd_3e58_4e89_0df6_909e_a1d4_7686_81e0_8b03_77e3_be22_6d4a_0717_0b18_892b_feeb_f906_f783_49d9_081f_bb8dnat);
    assert(0xa6d_55c1_cdae_c531_42b6_b416_055d_b3ffnat * 0x15d_5c09_8741_6139_2178_92b9_bce5_5f46_89a2_dd05_b95f_0d00_50d8_ca81nat == 0xe_3acd_9761_62ef_990a_8183_ad74_7f69_3f24_74ab_cf04_9856_5a0d_5df1_636d_80c7_b5db_18ff_7130_e1a4_3366_e97fnat);
    assert(0x71_d66c_032c_7c70_8fbc_5534_2be2_7219_d4c2_eef1_0c9e_445d_701c_6581nat * 0x2000_0000_0000_0000_0000_0000_0000_0000nat == 0xe_3acd_8065_8f8e_11f7_8aa6_857c_4e43_3a98_5dde_2193_c88b_ae03_8cb0_2000_0000_0000_0000_0000_0000_0000_0000nat);
    lemma_power_known(
        0x3f4c_91ff, 0xcc_91ff, 125, 0x2000_0000_0000_0000_0000_0000_0000_0000nat,
        245025, 0x34_433c_d4b0_8361,
        0xaab_625f_4d7e_279f_2ec5_90cc_6ac1nat,
        269025, 0x45_2c59_9066_9ca1,
        0x12b0_eff6_c049_6d6d_d948_5020_9d41nat,
        0x2_8de4_0379_2809, 0x6_8635_04ce_4619_4a4f_14c4_d051nat,
        0x2_8de4_09dd_b801, 0x6_8635_2576_b006_32bf_47fb_7001nat,
    );
}

/// Code 232.
proof fn lemma_entry_232()
    ensures
        nearest_to_power(0x3f4e_946c, 246025, 269025),
{
    lemma_fifth_powers_of_two();
    assert(246025nat * 246025 * 246025 == 0x34_e7b7_bf2b_35d9);
    assert(0x34_e7b7_bf2b_35d9 * 0x34_e7b7_bf2b_35d9 == 0xaee_f462_c870_b9de_1be2_f039_91f1nat);
    assert(0x19d_28d7 * 0x19d_28d7 == 0x2_9acc_cc39_e491);
    assert(0x2_9acc_cc39_e491 * 0x2_9acc_cc39_e491 == 0x6_c8ce_3a73_5873_0c76_aca4_9a21nat);
    assert(0x19d_28d9 * 0x19d_28d9 == 0x2_9acc_d2ae_87f1);
    assert(0x2_9acc_d2ae_87f1 * 0x2_9acc_d2ae_87f1 == 0x6_c8ce_5c14_8edd_6a1c_77cc_10e1nat);
    assert(269025nat * 269025 * 269025 == 0x45_2c59_9066_9ca1);
    assert(0x45_2c59_9066_9ca1 * 0x45_2c59_9066_9ca1 == 0x12b0_eff6_c049_6d6d_d948_5020_9d41nat);
    assert(0x12b0_eff6_c049_6d6d_d948_5020_9d41nat * 0x12b0_eff6_c049_6d6d_d948_5020_9d41nat == 0x15d_5c09_8741_6139_2178_92b9_bce5_5f46_89a2_dd05_b95f_0d00_50d8_ca81nat);
    assert(0xaee_f462_c870_b9de_1be2_f039_91f1nat * 0xaee_f462_c870_b9de_1be2_f039_91f1nat == 0x77_8a23_08a1_f453_e8b7_9bff_52fd_9d51_aac1_c380_9bd6_821a_3084_e4e1nat);
    assert(0x6_c8ce_3a73_5873_0c76_aca4_9a21nat * 0x19d_28d7 == 0xaf3_09c7_2a6a_ce4c_5e06_8831_5d8f_99b7nat);
    assert(0x6_c8ce_5c14_8edd_6a1c_77cc_10e1nat * 0x19d_28d9 == 0xaf3_0a0b_0279_bef3_e230_a910_a99a_76b9nat);
    assert(0xaf3_09c7_2a6a_ce4c_5e06_8831_5d8f_99b7nat * 0x15d_5c09_8741_6139_2178_92b9_bce5_5f46_89a2_dd05_b95f_0d00_50d8_ca81nat == 0xe_f144_145c_b4e0_2931_1a2a_b282_dcac_cdbd_398d_563f_fcd9_bac1_5f22_ca44_02f1_2093_9271_745c_b0e6_570e_db37nat);
    assert(0xaf3_0a0b_0279_bef3_e230_a910_a99a_76b9nat * 0x15d_5c09_8741_6139_2178_92b9_bce5_5f46_89a2_dd05_b95f_0d00_50d8_ca81nat == 0xe_f144_70f2_a56a_0cd6_71b1_60c4_d98a_48f6_ffd7_acaa_8791_12ff_fe01_941b_2939_af65_269a_d2aa_1ba7_549b_cd39nat);
    assert(0x77_8a23_08a1_f453_e8b7_9bff_52fd_9d51_aac1_c380_9bd6_821a_3084_e4e1nat * 0x2000_0000_0000_0000_0000_0000_0000_0000nat == 0xe_f144_6114_3e8a_7d16_f37f_ea5f_b3aa_3558_3870_137a_d043_4610_9c9c_2000_0000_0000_0000_0000_0000_0000_0000nat);
    lemma_power_known(
        0x3f4e_946c, 0xce_946c, 125, 0x2000_0000_0000_0000_0000_0000_0000_0000nat,
        246025, 0x34_e7b7_bf2b_35d9,
        0xaee_f462_c870_b9de_1be2_f039_91f1nat,
        269025, 0x45_2c59_9066_9ca1,
        0x12b0_eff6_c049_6d6d_d948_5020_9d41nat,
        0x2_9acc_cc39_e491, 0x6_c8ce_3a73_5873_0c76_aca4_9a21nat,
        0x2_9acc_d2ae_87f1, 0x6_c8ce_5c14_8edd_6a1c_77cc_10e1nat,
    );
}

/// Code 233.
proof fn lemma_entry_233()
    ensures
        nearest_to_power(0x3f50_99c9, 247025, 269025),
{
    lemma_fifth_powers_of_two();
    assert(247025nat * 247025 * 247025 == 0x35_8d8a_5b0b_61d1);
    assert(0x35_8d8a_5b0b_61d1 * 0x35_8d8a_5b0b_61d1 == 0xb33_e98b_65c7_52f0_c760_2356_0ca1nat);
    assert(0x1a1_3391 * 0x1a1_3391 == 0x2_a7e9_08c5_1821);
    assert(0x2_a7e9_08c5_1821 * 0x2_a7e9_08c5_1821 == 0x7_0dc6_00a6_7d11_e352_3510_3441nat);
    assert(0x1a1_3393 * 0x1a1_3393 == 0x2_a7e9_0f49_e669);
    assert(0x2_a7e9_0f49_e669 * 0x2_a7e9_0f49_e669 == 0x7_0dc6_2346_d9b0_2777_8542_d711nat);
    assert(269025nat * 269025 * 269025 == 0x45_2c59_9066_9ca1);
    assert(0x45_2c59_9066_9ca1 * 0x45_2c59_9066_9ca1 == 0x12b0_eff6_c049_6d6d_d948_5020_9d41nat);
    assert(0x12b0_eff6_c049_6d6d_d948_5020_9d41nat * 0x12b0_eff6_c049_6d6d_d948_5020_9d41nat == 0x15d_5c09_8741_6139_2178_92b9_bce5_5f46_89a2_dd05_b95f_0d00_50d8_ca81nat);
    assert(0xb33_e98b_65c7_52f0_c760_2356_0ca1nat * 0xb33_e98b_65c7_52f0_c760_2356_0ca1nat == 0x7d_8098_dd58_b9b8_40f6_f261_069e_d61d_a4c0_a8c7_1eec_6b20_82cb_7d41nat);
    assert(0x7_0dc6_00a6_7d11_e352_3510_3441nat * 0x1a1_3391 == 0xb7e_db44_4e79_435a_b053_9187_6677_8bd1nat);
    assert(0x7_0dc6_2346_d9b0_2777_8542_d711nat * 0x1a1_3393 == 0xb7e_db8a_d835_f6fd_61b3_8b0e_28ea_e1c3nat);
    assert(0xb7e_db44_4e79_435a_b053_9187_6677_8bd1nat * 0x15d_5c09_8741_6139_2178_92b9_bce5_5f46_89a2_dd05_b95f_0d00_50d8_ca81nat == 0xf_b012_f074_121f_7ca8_af0d_3fb2_f3f2_20ca_5db6_f7ce_11b7_1b69_3bc3_01e8_4390_05d9_d681_e2dd_99a4_3ee8_5e51nat);
    assert(0xb7e_db8a_d835_f6fd_61b3_8b0e_28ea_e1c3nat * 0x15d_5c09_8741_6139_2178_92b9_bce5_5f46_89a2_dd05_b95f_0d00_50d8_ca81nat == 0xf_b013_50b7_3480_4e4b_8ced_f25d_da87_3d9d_53aa_7008_c875_96c3_dd6f_01e4_f9bc_da2c_53ea_47c2_1227_6107_a143nat);
    assert(0x7d_8098_dd58_b9b8_40f6_f261_069e_d61d_a4c0_a8c7_1eec_6b20_82cb_7d41nat * 0x2000_0000_0000_0000_0000_0000_0000_0000nat == 0xf_b013_1bab_1737_081e_de4c_20d3_dac3_b498_1518_e3dd_8d64_1059_6fa8_2000_0000_0000_0000_0000_0000_0000_0000nat);
    lemma_power_known(
        0x3f50_99c9, 0xd0_99c9, 125, 0x2000_0000_0000_0000_0000_0000_0000_0000nat,
        247025, 0x35_8d8a_5b0b_61d1,
        0xb33_e98b_65c7_52f0_c760_2356_0ca1nat,
        269025, 0x45_2c59_9066_9ca1,
        0x12b0_eff6_c049_6d6d_d948_5020_9d41nat,
        0x2_a7e9_08c5_1821, 0x7_0dc6_00a6_7d11_e352_3510_3441nat,
        0x2_a7e9_0f49_e669, 0x7_0dc6_2346_d9b0_2777_8542_d711nat,
    );
}

/// Code 234.
proof fn lemma_entry_234()
    ensures
        nearest_to_power(0x3f52_a216, 248025, 269025),
{
    lemma_fifth_powers_of_two();
    assert(248025nat * 248025 * 248025 == 0x36_34b6_0df1_c349);
    assert(0x36_34b6_0df1_c349 * 0x36_34b6_0df1_c349 == 0xb7a_47a8_5920_6ea5_c5f2_ae6a_4ad1nat);
    assert(0x1a5_442b * 0x1a5_442b == 0x2_b539_4794_df39);
    assert(0x2_b539_4794_df39 * 0x2_b539_4794_df39 == 0x7_552f_2a5c_f4d9_ebc6_7a8c_5ab1nat);
    assert(0x1a5_442d * 0x1a5_442d == 0x2_b539_4e29_efe9);
    assert(0x2_b539_4e29_efe9 * 0x2_b539_4e29_efe9 == 0x7_552f_4e02_f36d_e4d2_b576_e211nat);
    assert(269025nat * 269025 * 269025 == 0x45_2c59_9066_9ca1);
    assert(0x45_2c59_9066_9ca1 * 0x45_2c59_9066_9ca1 == 0x12b0_eff6_c049_6d6d_d948_5020_9d41nat);
    assert(0x12b0_eff6_c049_6d6d_d948_5020_9d41nat * 0x12b0_eff6_c049_6d6d_d948_5020_9d41nat == 0x15d_5c09_8741_6139_2178_92b9_bce5_5f46_89a2_dd05_b95f_0d00_50d8_ca81nat);
    assert(0xb7a_47a8_5920_6ea5_c5f2_ae6a_4ad1nat * 0xb7a_47a8_5920_6ea5_c5f2_ae6a_4ad1nat == 0x83_bc90_d82c_8c90_cbfc_44b6_e7e8_419c_f4af_9a0d_dc59_c6fa_26f1_7ea1nat);
    assert(0x7_552f_2a5c_f4d9_ebc6_7a8c_5ab1nat * 0x1a5_442b == 0xc11_0a6c_810b_7907_c0a2_dbb5_02bf_3fbbnat);
    assert(0x7_552f_4e02_f36d_e4d2_b576_e211nat * 0x1a5_442d == 0xc11_0ab5_d4e3_d2e7_499d_9dbf_3fe7_40fdnat);
    assert(0xc11_0a6c_810b_7907_c0a2_dbb5_02bf_3fbbnat * 0x15d_5c09_8741_6139_2178_92b9_bce5_5f46_89a2_dd05_b95f_0d00_50d8_ca81nat == 0x10_7791_c8a4_5a3c_ac63_c990_1113_e861_bc1a_72b1_6da6_5987_eec6_3412_a502_5e29_ca6c_a1cc_04a5_1ea9_8070_ab3bnat);
    assert(0xc11_0ab5_d4e3_d2e7_499d_9dbf_3fe7_40fdnat * 0x15d_5c09_8741_6139_2178_92b9_bce5_5f46_89a2_dd05_b95f_0d00_50d8_ca81nat == 0x10_7792_2cb6_050b_a2fa_3ff6_7625_b9f2_2f76_0f5a_caee_e235_a65f_7cb2_42df_b22b_6d41_5de3_056b_6e39_9247_617dnat);
    assert(0x83_bc90_d82c_8c90_cbfc_44b6_e7e8_419c_f4af_9a0d_dc59_c6fa_26f1_7ea1nat * 0x2000_0000_0000_0000_0000_0000_0000_0000nat == 0x10_7792_1b05_9192_197f_8896_dcfd_0833_9e95_f341_bb8b_38df_44de_2fd4_2000_0000_0000_0000_0000_0000_0000_0000nat);
    lemma_power_known(
        0x3f52_a216, 0xd2_a216, 125, 0x2000_0000_0000_0000_0000_0000_0000_0000nat,
        248025, 0x36_34b6_0df1_c349,
        0xb7a_47a8_5920_6ea5_c5f2_ae6a_4ad1nat,
        269025, 0x45_2c59_9066_9ca1,
        0x12b0_eff6_c049_6d6d_d948_5020_9d41nat,
        0x2_b539_4794_df39, 0x7_552f_2a5c_f4d9_ebc6_7a8c_5ab1nat,
        0x2_b539_4e29_efe9, 0x7_552f_4e02_f36d_e4d2_b576_e211nat,
    );
}

/// Code 235.
proof fn lemma_entry_235()
    ensures
        nearest_to_power(0x3f54_ad56, 249025, 269025),
{
    lemma_fifth_powers_of_two();
    assert(249025nat * 249025 * 249025 == 0x36_dd3c_3d7f_1641);
    assert(0x36_dd3c_3d7f_1641 * 0x36_dd3c_3d7f_1641 == 0xbc2_149b_01f7_b230_782a_106d_3c81nat);
    assert(0x1a9_5aab * 0x1a9_5aab == 0x2_c2be_2be2_ae39);
    assert(0x2_c2be_2be2_ae39 * 0x2_c2be_2be2_ae39 == 0x7_9f1d_7753_74f2_efdb_3935_88b1nat);
    assert(0x1a9_5aad * 0x1a9_5aad == 0x2_c2be_3288_18e9);
    assert(0x2_c2be_3288_18e9 * 0x2_c2be_3288_18e9 == 0x7_9f1d_9c05_b563_8ff1_7dfc_8411nat);
    assert(269025nat * 269025 * 269025 == 0x45_2c59_9066_9ca1);
    assert(0x45_2c59_9066_9ca1 * 0x45_2c59_9066_9ca1 == 0x12b0_eff6_c049_6d6d_d948_5020_9d41nat);
    assert(0x12b0_eff6_c049_6d6d_d948_5020_9d41nat * 0x12b0_eff6_c049_6d6d_d948_5020_9d41nat == 0x15d_5c09_8741_6139_2178_92b9_bce5_5f46_89a2_dd05_b95f_0d00_50d8_ca81nat);
    assert(0xbc2_149b_01f7_b230_782a_106d_3c81nat * 0xbc2_149b_01f7_b230_782a_106d_3c81nat == 0x8a_40e8_8ec2_dae4_5196_f5b0_14c3_64d3_c07f_4a57_e1fe_a080_b426_b901nat);
    assert(0x7_9f1d_7753_74f2_efdb_3935_88b1nat * 0x1a9_5aab == 0xca9_daf2_be2f_332c_b98b_436b_f6a9_883bnat);
    assert(0x7_9f1d_9c05_b563_8ff1_7dfc_8411nat * 0x1a9_5aad == 0xca9_db3e_f556_93ea_8ccd_54b4_2a4c_397dnat);
    assert(0xca9_daf2_be2f_332c_b98b_436b_f6a9_883bnat * 0x15d_5c09_8741_6139_2178_92b9_bce5_5f46_89a2_dd05_b95f_0d00_50d8_ca81nat == 0x11_481d_0046_03a0_3362_964a_46ac_4fc9_33e2_0cea_67e5_301c_8104_1c8e_8cd1_5565_4ce0_468d_cf5d_42a6_72b4_33bbnat);
    assert(0xca9_db3e_f556_93ea_8ccd_54b4_2a4c_397dnat * 0x15d_5c09_8741_6139_2178_92b9_bce5_5f46_89a2_dd05_b95f_0d00_50d8_ca81nat == 0x11_481d_6848_9af7_71de_ecdf_d6ab_d18f_0abc_7241_b9c2_aca5_0838_a26b_f574_9d5c_0130_8a6e_46d7_b371_073d_99fdnat);
    assert(0x8a_40e8_8ec2_dae4_5196_f5b0_14c3_64d3_c07f_4a57_e1fe_a080_b426_b901nat * 0x2000_0000_0000_0000_0000_0000_0000_0000nat == 0x11_481d_11d8_5b5c_8a32_deb6_0298_6c9a_780f_e94a_fc3f_d410_1684_d720_2000_0000_0000_0000_0000_0000_0000_0000nat);
    lemma_power_known(
        0x3f54_ad56, 0xd4_ad56, 125, 0x2000_0000_0000_0000_0000_0000_0000_0000nat,
        249025, 0x36_dd3c_3d7f_1641,
        0xbc2_149b_01f7_b230_782a_106d_3c81nat,
        269025, 0x45_2c59_9066_9ca1,
        0x12b0_eff6_c049_6d6d_d948_5020_9d41nat,
        0x2_c2be_2be2_ae39, 0x7_9f1d_7753_74f2_efdb_3935_88b1nat,
        0x2_c2be_3288_18e9, 0x7_9f1d_9c05_b563_8ff1_7dfc_8411nat,
    );
}

/// Code 236.
proof fn lemma_entry_236()
    ensures
        nearest_to_power(0x3f56_bb88, 250025, 269025),
{
    lemma_fifth_powers_of_two();
    assert(250025nat * 250025 * 250025 == 0x37_871e_4f54_16b9);
    assert(0x37_871e_4f54_16b9 * 0x37_871e_4f54_16b9 == 0xc0b_5657_1163_23bf_7301_196c_51b1nat);
    assert(0x1ad_770f * 0x1ad_770f == 0x2_d078_3fa4_f2e1);
    assert(0x2_d078_3fa4_f2e1 * 0x2_d078_3fa4_f2e1 == 0x7_eba4_9e7b_90a7_ecc2_d4b6_29c1nat);
    assert(0x1ad_7711 * 0x1ad_7711 == 0x2_d078_465a_cf21);
    assert(0x2_d078_465a_cf21 * 0x2_d078_465a_cf21 == 0x7_eba4_c440_d591_986c_56ca_6241nat);
    assert(269025nat * 269025 * 269025 == 0x45_2c59_9066_9ca1);
    assert(0x45_2c59_9066_9ca1 * 0x45_2c59_9066_9ca1 == 0x12b0_eff6_c049_6d6d_d948_5020_9d41nat);
    assert(0x12b0_eff6_c049_6d6d_d948_5020_9d41nat * 0x12b0_eff6_c049_6d6d_d948_5020_9d41nat == 0x15d_5c09_8741_6139_2178_92b9_bce5_5f46_89a2_dd05_b95f_0d00_50d8_ca81nat);
    assert(0xc0b_5657_1163_23bf_7301_196c_51b1nat * 0xc0b_5657_1163_23bf_7301_196c_51b1nat == 0x91_1098_b23b_672a_73d1_3b03_5722_ac91_9b30_3bb6_d2e1_ff2b_9969_7c61nat);
    assert(0x7_eba4_9e7b_90a7_ecc2_d4b6_29c1nat * 0x1ad_770f == 0xd49_91dd_e962_22e3_4b63_e58f_1c82_294fnat);
    assert(0x7_eba4_c440_d591_986c_56ca_6241nat * 0x1ad_7711 == 0xd49_922d_1dd1_1091_4a12_ecb0_7e09_bd51nat);
    assert(0xd49_91dd_e962_22e3_4b63_e58f_1c82_294fnat * 0x15d_5c09_8741_6139_2178_92b9_bce5_5f46_89a2_dd05_b95f_0d00_50d8_ca81nat == 0x12_2212_ca8e_3c1b_efa9_0054_f3ea_0829_2d15_03ba_8e56_32a5_c0ee_face_fc79_3cf4_86e1_ac31_418c_5757_9cd7_26cfnat);
    assert(0xd49_922d_1dd1_1091_4a12_ecb0_7e09_bd51nat * 0x15d_5c09_8741_6139_2178_92b9_bce5_5f46_89a2_dd05_b95f_0d00_50d8_ca81nat == 0x12_2213_36a5_3120_840e_fba2_b171_53a9_fbec_36ab_448b_23ca_564c_8d11_de4c_128b_baa2_cd00_6746_08c4_3ea2_4fd1nat);
    assert(0x91_1098_b23b_672a_73d1_3b03_5722_ac91_9b30_3bb6_d2e1_ff2b_9969_7c61nat * 0x2000_0000_0000_0000_0000_0000_0000_0000nat == 0x12_2213_1647_6ce5_4e7a_2760_6ae4_5592_3366_0776_da5c_3fe5_732d_2f8c_2000_0000_0000_0000_0000_0000_0000_0000nat);
    lemma_power_known(
        0x3f56_bb88, 0xd6_bb88, 125, 0x2000_0000_0000_0000_0000_0000_0000_0000nat,
        250025, 0x37_871e_4f54_16b9,
        0xc0b_5657_1163_23bf_7301_196c_51b1nat,
        269025, 0x45_2c59_9066_9ca1,
        0x12b0_eff6_c049_6d6d_d948_5020_9d41nat,
        0x2_d078_3fa4_f2e1, 0x7_eba4_9e7b_90a7_ecc2_d4b6_29c1nat,
        0x2_d078_465a_cf21, 0x7_eba4_c440_d591_986c_56ca_6241nat,
    );
}

/// Code 237.
proof fn lemma_entry_237()
    ensures
        nearest_to_power(0x3f58_ccaf, 251025, 269025),
{
    lemma_fifth_powers_of_two();
    assert(251025nat * 251025 * 251025 == 0x38_325d_a911_80b1);
    assert(0x38_325d_a911_80b1 * 0x38_325d_a911_80b1 == 0xc56_12e2_aff7_6a14_c1b6_0a33_7a61nat);
    assert(0x1b1_995d * 0x1b1_995d == 0x2_de68_287a_4bc9);
    assert(0x2_de68_287a_4bc9 * 0x2_de68_287a_4bc9 == 0x8_3ad9_727e_3458_a16b_2203_63d1nat);
    assert(0x1b1_995f * 0x1b1_995f == 0x2_de68_2f40_b141);
    assert(0x2_de68_2f40_b141 * 0x2_de68_2f40_b141 == 0x8_3ad9_995d_65b9_923e_f93a_f281nat);
    assert(269025nat * 269025 * 269025 == 0x45_2c59_9066_9ca1);
    assert(0x45_2c59_9066_9ca1 * 0x45_2c59_9066_9ca1 == 0x12b0_eff6_c049_6d6d_d948_5020_9d41nat);
    assert(0x12b0_eff6_c049_6d6d_d948_5020_9d41nat * 0x12b0_eff6_c049_6d6d_d948_5020_9d41nat == 0x15d_5c09_8741_6139_2178_92b9_bce5_5f46_89a2_dd05_b95f_0d00_50d8_ca81nat);
    assert(0xc56_12e2_aff7_6a14_c1b6_0a33_7a61nat * 0xc56_12e2_aff7_6a14_c1b6_0a33_7a61nat == 0x98_2eb5_f232_15a7_2cd1_a14d_8dc2_7299_5f62_fb65_9348_53d5_9126_98c1nat);
    assert(0x8_3ad9_727e_3458_a16b_2203_63d1nat * 0x1b1_995d == 0xdf0_77f3_fde2_8f0b_02e0_32fb_3664_2bednat);
    assert(0x8_3ad9_995d_65b9_923e_f93a_f281nat * 0x1b1_995f == 0xdf0_7846_4a61_ca55_04c8_7506_e400_16dfnat);
    assert(0xdf0_77f3_fde2_8f0b_02e0_32fb_3664_2bednat * 0x15d_5c09_8741_6139_2178_92b9_bce5_5f46_89a2_dd05_b95f_0d00_50d8_ca81nat == 0x13_05d6_778e_6349_b408_90b8_9c34_566e_8469_2cc7_5897_5a81_ab58_ab9c_759f_7ae3_d932_0b39_8857_24c0_931b_246dnat);
    assert(0xdf0_7846_4a61_ca55_04c8_7506_e400_16dfnat * 0x15d_5c09_8741_6139_2178_92b9_bce5_5f46_89a2_dd05_b95f_0d00_50d8_ca81nat == 0x13_05d6_e7de_434b_6d10_9e90_443d_2b6a_351b_3786_6ad3_b98a_cac4_b995_3238_ea49_dc49_b3d1_1f55_2299_f23f_7c5fnat);
    assert(0x98_2eb5_f232_15a7_2cd1_a14d_8dc2_7299_5f62_fb65_9348_53d5_9126_98c1nat * 0x2000_0000_0000_0000_0000_0000_0000_0000nat == 0x13_05d6_be46_42b4_e59a_3429_b1b8_4e53_2bec_5f6c_b269_0a7a_b224_d318_2000_0000_0000_0000_0000_0000_0000_0000nat);
    lemma_power_known(
        0x3f58_ccaf, 0xd8_ccaf, 125, 0x2000_0000_0000_0000_0000_0000_0000_0000nat,
        251025, 0x38_325d_a911_80b1,
        0xc56_12e2_aff7_6a14_c1b6_0a33_7a61nat,
        269025, 0x45_2c59_9066_9ca1,
        0x12b0_eff6_c049_6d6d_d948_5020_9d41nat,
        0x2_de68_287a_4bc9, 0x8_3ad9_727e_3458_a16b_2203_63d1nat,
        0x2_de68_2f40_b141, 0x8_3ad9_995d_65b9_923e_f93a_f281nat,
    );
}

/// Code 238.
proof fn lemma_entry_238()
    ensures
        nearest_to_power(0x3f5a_e0cc, 252025, 269025),
{
    lemma_fifth_powers_of_two();
    assert(252025nat * 252025 * 252025 == 0x38_defb_b058_1029);
    assert(0x38_defb_b058_1029 * 0x38_defb_b058_1029 == 0xca2_5056_a3d3_1420_00e9_7d35_2691nat);
    assert(0x1b5_c197 * 0x1b5_c197 == 0x2_ec8e_7feb_0711);
    assert(0x2_ec8e_7feb_0711 * 0x2_ec8e_7feb_0711 == 0x8_8cd1_0ad7_99f2_37a4_d767_ef21nat);
    assert(0x1b5_c199 * 0x1b5_c199 == 0x2_ec8e_86c2_0d71);
    assert(0x2_ec8e_86c2_0d71 * 0x2_ec8e_86c2_0d71 == 0x8_8cd1_32d7_c4c2_fa86_abf8_abe1nat);
    assert(269025nat * 269025 * 269025 == 0x45_2c59_9066_9ca1);
    assert(0x45_2c59_9066_9ca1 * 0x45_2c59_9066_9ca1 == 0x12b0_eff6_c049_6d6d_d948_5020_9d41nat);
    assert(0x12b0_eff6_c049_6d6d_d948_5020_9d41nat * 0x12b0_eff6_c049_6d6d_d948_5020_9d41nat == 0x15d_5c09_8741_6139_2178_92b9_bce5_5f46_89a2_dd05_b95f_0d00_50d8_ca81nat);
    assert(0xca2_5056_a3d3_1420_00e9_7d35_2691nat * 0xca2_5056_a3d3_1420_00e9_7d35_2691nat == 0x9f_9e71_e639_64be_dfd3_0afc_ed83_99cf_5416_a94b_743d_26a4_97d9_5e21nat);
    assert(0x8_8cd1_0ad7_99f2_37a4_d767_ef21nat * 0x1b5_c197 == 0xe9e_d80c_2a83_bab4_6635_cd0b_9cea_ed77nat);
    assert(0x8_8cd1_32d7_c4c2_fa86_abf8_abe1nat * 0x1b5_c199 == 0xe9e_d861_aaae_ef21_3f4a_d1a0_a848_5a79nat);
    assert(0xe9e_d80c_2a83_bab4_6635_cd0b_9cea_ed77nat * 0x15d_5c09_8741_6139_2178_92b9_bce5_5f46_89a2_dd05_b95f_0d00_50d8_ca81nat == 0x13_f3ce_2989_6d1b_1650_12d4_6b2a_47cd_cc2f_3838_d860_e11c_2ed8_348c_728d_9e7a_50dd_711a_a3f5_5818_fe29_8ef7nat);
    assert(0xe9e_d861_aaae_ef21_3f4a_d1a0_a848_5a79nat * 0x15d_5c09_8741_6139_2178_92b9_bce5_5f46_89a2_dd05_b95f_0d00_50d8_ca81nat == 0x13_f3ce_9e37_e53f_c37c_c695_a621_44e0_657b_0c2a_9c29_fd07_e21b_3267_8f7e_aa64_a4a1_a278_b2c0_2510_09f1_10f9nat);
    assert(0x9f_9e71_e639_64be_dfd3_0afc_ed83_99cf_5416_a94b_743d_26a4_97d9_5e21nat * 0x2000_0000_0000_0000_0000_0000_0000_0000nat == 0x13_f3ce_3cc7_2c97_dbfa_615f_9db0_7339_ea82_d529_6e87_a4d4_92fb_2bc4_2000_0000_0000_0000_0000_0000_0000_0000nat);
    lemma_power_known(
        0x3f5a_e0cc, 0xda_e0cc, 125, 0x2000_0000_0000_0000_0000_0000_0000_0000nat,
        252025, 0x38_defb_b058_1029,
        0xca2_5056_a3d3_1420_00e9_7d35_2691nat,
        269025, 0x45_2c59_9066_9ca1,
        0x12b0_eff6_c049_6d6d_d948_5020_9d41nat,
        0x2_ec8e_7feb_0711, 0x8_8cd1_0ad7_99f2_37a4_d767_ef21nat,
        0x2_ec8e_86c2_0d71, 0x8_8cd1_32d7_c4c2_fa86_abf8_abe1nat,
    );
}

/// Code 239.
proof fn lemma_entry_239()
    ensures
        nearest_to_power(0x3f5c_f7df, 253025, 269025),
{
    lemma_fifth_powers_of_two();
    assert(253025nat * 253025 * 253025 == 0x39_8cf9_cac8_8121);
    assert(0x39_8cf9_cac8_8121 * 0x39_8cf9_cac8_8121 == 0xcf0_14de_76d0_e89a_5304_18b2_4641nat);
    assert(0x1b9_efbd * 0x1b9_efbd == 0x2_faeb_d9ac_7189);
    assert(0x2_faeb_d9ac_7189 * 0x2_faeb_d9ac_7189 == 0x8_e1a0_e51f_ef91_d229_0472_3b51nat);
    assert(0x1b9_efbf * 0x1b9_efbf == 0x2_faeb_e094_3081);
    assert(0x2_faeb_e094_3081 * 0x2_faeb_e094_3081 == 0x8_e1a1_0e48_45d4_ab7f_de58_a101nat);
    assert(269025nat * 269025 * 269025 == 0x45_2c59_9066_9ca1);
    assert(0x45_2c59_9066_9ca1 * 0x45_2c59_9066_9ca1 == 0x12b0_eff6_c049_6d6d_d948_5020_9d41nat);
    assert(0x12b0_eff6_c049_6d6d_d948_5020_9d41nat * 0x12b0_eff6_c049_6d6d_d948_5020_9d41nat == 0x15d_5c09_8741_6139_2178_92b9_bce5_5f46_89a2_dd05_b95f_0d00_50d8_ca81nat);
    assert(0xcf0_14de_76d0_e89a_5304_18b2_4641nat * 0xcf0_14de_76d0_e89a_5304_18b2_4641nat == 0xa7_631b_fdf5_e165_86f4_d388_b677_42f7_e3ce_9386_b7b6_4159_f5ab_9c81nat);
    assert(0x8_e1a0_e51f_ef91_d229_0472_3b51nat * 0x1b9_efbd == 0xf54_ff5e_7db5_ab70_0a85_1c37_1c3f_69cdnat);
    assert(0x8_e1a1_0e48_45d4_ab7f_de58_a101nat * 0x1b9_efbf == 0xf54_ffb7_4dff_6c79_150e_5ba8_fd29_0ebfnat);
    assert(0xf54_ff5e_7db5_ab70_0a85_1c37_1c3f_69cdnat * 0x15d_5c09_8741_6139_2178_92b9_bce5_5f46_89a2_dd05_b95f_0d00_50d8_ca81nat == 0x14_ec63_41ae_0d3c_b8b7_31f0_983a_bba8_dff8_0ba8_728c_8937_b3f7_9e0f_8328_cf40_5e3d_6a50_fd1c_c3a0_9a68_124dnat);
    assert(0xf54_ffb7_4dff_6c79_150e_5ba8_fd29_0ebfnat * 0x15d_5c09_8741_6139_2178_92b9_bce5_5f46_89a2_dd05_b95f_0d00_50d8_ca81nat == 0x14_ec63_bae1_eff1_a287_1a6a_7f33_0301_e504_3a9b_3fd9_9bf8_3d5f_024f_b9af_39e9_02c1_d3dd_abe2_aa2a_187b_243fnat);
    assert(0xa7_631b_fdf5_e165_86f4_d388_b677_42f7_e3ce_9386_b7b6_4159_f5ab_9c81nat * 0x2000_0000_0000_0000_0000_0000_0000_0000nat == 0x14_ec63_7fbe_bc2c_b0de_9a71_16ce_e85e_fc79_d270_d6f6_c82b_3eb5_7390_2000_0000_0000_0000_0000_0000_0000_0000nat);
    lemma_power_known(
        0x3f5c_f7df, 0xdc_f7df, 125, 0x2000_0000_0000_0000_0000_0000_0000_0000nat,
        253025, 0x39_8cf9_cac8_8121,
        0xcf0_14de_76d0_e89a_5304_18b2_4641nat,
        269025, 0x45_2c59_9066_9ca1,
        0x12b0_eff6_c049_6d6d_d948_5020_9d41nat,
        0x2_faeb_d9ac_7189, 0x8_e1a0_e51f_ef91_d229_0472_3b51nat,
        0x2_faeb_e094_3081, 0x8_e1a1_0e48_45d4_ab7f_de58_a101nat,
    );
}

/// Code 240.
proof fn lemma_entry_240()
    ensures
        nearest_to_power(0x3f5f_11ea, 254025, 269025),
{
    lemma_fifth_powers_of_two();
    assert(254025nat * 254025 * 254025 == 0x3a_3c59_5e03_8f99);
    assert(0x3a_3c59_5e03_8f99 * 0x3a_3c59_5e03_8f99 == 0xd3f_66b8_9ce1_3da4_2de3_0a22_4971nat);
    assert(0x1be_23d3 * 0x1be_23d3 == 0x3_0980_d837_5fe9);
    assert(0x3_0980_d837_5fe9 * 0x3_0980_d837_5fe9 == 0x9_395f_6159_1231_c8d3_8a0c_c211nat);
    assert(0x1be_23d5 * 0x1be_23d5 == 0x3_0980_df2f_ef39);
    assert(0x3_0980_df2f_ef39 * 0x3_0980_df2f_ef39 == 0x9_395f_8bb0_ecab_c6bf_0479_7ab1nat);
    assert(269025nat * 269025 * 269025 == 0x45_2c59_9066_9ca1);
    assert(0x45_2c59_9066_9ca1 * 0x45_2c59_9066_9ca1 == 0x12b0_eff6_c049_6d6d_d948_5020_9d41nat);
    assert(0x12b0_eff6_c049_6d6d_d948_5020_9d41nat * 0x12b0_eff6_c049_6d6d_d948_5020_9d41nat == 0x15d_5c09_8741_6139_2178_92b9_bce5_5f46_89a2_dd05_b95f_0d00_50d8_ca81nat);
    assert(0xd3f_66b8_9ce1_3da4_2de3_0a22_4971nat * 0xd3f_66b8_9ce1_3da4_2de3_0a22_4971nat == 0xaf_8022_7803_b944_6482_5ea6_dc24_8808_3e29_be7a_f9ce_aaba_6b15_a3e1nat);
    assert(0x9_395f_6159_1231_c8d3_8a0c_c211nat * 0x1be_23d3 == 0x1013_3e9d_ed1a_1ca2_ae07_f474_a0aa_4703nat);
    assert(0x9_395f_8bb0_ecab_c6bf_0479_7ab1nat * 0x1be_23d5 == 0x1013_3efa_2ad4_bdd4_a7e2_462f_1537_4845nat);
    assert(0x1013_3e9d_ed1a_1ca2_ae07_f474_a0aa_4703nat * 0x15d_5c09_8741_6139_2178_92b9_bce5_5f46_89a2_dd05_b95f_0d00_50d8_ca81nat == 0x15_f003_e0f8_725e_d13b_8725_54f1_4c88_2cc1_61cf_8c1d_8c14_76ad_ce5d_349b_c1a6_28b9_b11f_d83b_2268_2c5e_2683nat);
    assert(0x1013_3efa_2ad4_bdd4_a7e2_462f_1537_4845nat * 0x15d_5c09_8741_6139_2178_92b9_bce5_5f46_89a2_dd05_b95f_0d00_50d8_ca81nat == 0x15_f004_5ed9_c36a_8bf6_e5b0_cba9_53ec_33ef_cc67_164f_12a9_70a2_66e8_638b_c3a7_6e62_02a5_9008_32b1_da19_dcc5nat);
    assert(0xaf_8022_7803_b944_6482_5ea6_dc24_8808_3e29_be7a_f9ce_aaba_6b15_a3e1nat * 0x2000_0000_0000_0000_0000_0000_0000_0000nat == 0x15_f004_4f00_7728_8c90_4bd4_db84_9101_07c5_37cf_5f39_d557_4d62_b47c_2000_0000_0000_0000_0000_0000_0000_0000nat);
    lemma_power_known(
        0x3f5f_11ea, 0xdf_11ea, 125, 0x2000_0000_0000_0000_0000_0000_0000_0000nat,
        254025, 0x3a_3c59_5e03_8f99,
        0xd3f_66b8_9ce1_3da4_2de3_0a22_4971nat,
        269025, 0x45_2c59_9066_9ca1,
        0x12b0_eff6_c049_6d6d_d948_5020_9d41nat,
        0x3_0980_d837_5fe9, 0x9_395f_6159_1231_c8d3_8a0c_c211nat,
        0x3_0980_df2f_ef39, 0x9_395f_8bb0_ecab_c6bf_0479_7ab1nat,
    );
}

/// Code 241.
proof fn lemma_entry_241()
    ensures
        nearest_to_power(0x3f61_2eef, 255025, 269025),
{
    lemma_fifth_powers_of_two();
    assert(255025nat * 255025 * 255025 == 0x3a_ed1b_cfa9_f791);
    assert(0x3a_ed1b_cfa9_f791 * 0x3a_ed1b_cfa9_f791 == 0xd90_4c36_9a8a_5865_01cb_4adb_2021nat);
    assert(0x1c2_5ddd * 0x1c2_5ddd == 0x3_184e_1f5e_50c9);
    assert(0x3_184e_1f5e_50c9 * 0x3_184e_1f5e_50c9 == 0x9_9423_79ee_b52c_e4cc_1b1a_3dd1nat);
    assert(0x1c2_5ddf * 0x1c2_5ddf == 0x3_184e_2667_c841);
    assert(0x3_184e_2667_c841 * 0x3_184e_2667_c841 == 0x9_9423_a57d_9413_3122_0cf3_a081nat);
    assert(269025nat * 269025 * 269025 == 0x45_2c59_9066_9ca1);
    assert(0x45_2c59_9066_9ca1 * 0x45_2c59_9066_9ca1 == 0x12b0_eff6_c049_6d6d_d948_5020_9d41nat);
    assert(0x12b0_eff6_c049_6d6d_d948_5020_9d41nat * 0x12b0_eff6_c049_6d6d_d948_5020_9d41nat == 0x15d_5c09_8741_6139_2178_92b9_bce5_5f46_89a2_dd05_b95f_0d00_50d8_ca81nat);
    assert(0xd90_4c36_9a8a_5865_01cb_4adb_2021nat * 0xd90_4c36_9a8a_5865_01cb_4adb_2021nat == 0xb7_f913_5fd0_6005_67f4_ab18_df91_4cf7_aab5_4697_8db2_a079_107e_4441nat);
    assert(0x9_9423_79ee_b52c_e4cc_1b1a_3dd1nat * 0x1c2_5ddd == 0x10d9_e972_1b86_73cd_e5a7_4e2c_977e_4a6dnat);
    assert(0x9_9423_a57d_9413_3122_0cf3_a081nat * 0x1c2_5ddf == 0x10d9_e9d1_e4ea_10eb_536b_ef9d_ec49_ad5fnat);
    assert(0x10d9_e972_1b86_73cd_e5a7_4e2c_977e_4a6dnat * 0x15d_5c09_8741_6139_2178_92b9_bce5_5f46_89a2_dd05_b95f_0d00_50d8_ca81nat == 0x16_ff22_3104_f508_efb4_47cb_780c_c77e_97c1_5bda_3c69_a0bf_40e8_8aea_d2d6_c54c_284f_2c07_6f2f_66d2_d955_82ednat);
    assert(0x10d9_e9d1_e4ea_10eb_536b_ef9d_ec49_ad5fnat * 0x15d_5c09_8741_6139_2178_92b9_bce5_5f46_89a2_dd05_b95f_0d00_50d8_ca81nat == 0x16_ff22_b3bc_f1c6_9d74_112b_9aa0_9eba_b913_8e02_5c0c_8b54_3020_39de_4c3a_4513_27ac_acd7_769b_925e_2c15_52dfnat);
    assert(0xb7_f913_5fd0_6005_67f4_ab18_df91_4cf7_aab5_4697_8db2_a079_107e_4441nat * 0x2000_0000_0000_0000_0000_0000_0000_0000nat == 0x16_ff22_6bfa_0c00_acfe_9563_1bf2_299e_f556_a8d2_f1b6_540f_220f_c888_2000_0000_0000_0000_0000_0000_0000_0000nat);
    lemma_power_known(
        0x3f61_2eef, 0xe1_2eef, 125, 0x2000_0000_0000_0000_0000_0000_0000_0000nat,
        255025, 0x3a_ed1b_cfa9_f791,
        0xd90_4c36_9a8a_5865_01cb_4adb_2021nat,
        269025, 0x45_2c59_9066_9ca1,
        0x12b0_eff6_c049_6d6d_d948_5020_9d41nat,
        0x3_184e_1f5e_50c9, 0x9_9423_79ee_b52c_e4cc_1b1a_3dd1nat,
        0x3_184e_2667_c841, 0x9_9423_a57d_9413_3122_0cf3_a081nat,
    );
}

/// Code 242.
proof fn lemma_entry_242()
    ensures
        nearest_to_power(0x3f63_4eee, 256025, 269025),
{
    lemma_fifth_powers_of_two();
    assert(256025nat * 256025 * 256025 == 0x3b_9f42_855c_7509);
    assert(0x3b_9f42_855c_7509 * 0x3b_9f42_855c_7509 == 0xde2_cbbd_2b8f_d4ac_b9a3_adf9_3a51nat);
    assert(0x1c6_9ddb * 0x1c6_9ddb == 0x3_2754_461a_5959);
    assert(0x3_2754_461a_5959 * 0x3_2754_461a_5959 == 0x9_f204_6db8_33cc_2bfa_f143_00f1nat);
    assert(0x1c6_9ddd * 0x1c6_9ddd == 0x3_2754_4d34_d0c9);
    assert(0x3_2754_4d34_d0c9 * 0x3_2754_4d34_d0c9 == 0x9_f204_9a85_be45_1266_65ef_3dd1nat);
    assert(269025nat * 269025 * 269025 == 0x45_2c59_9066_9ca1);
    assert(0x45_2c59_9066_9ca1 * 0x45_2c59_9066_9ca1 == 0x12b0_eff6_c049_6d6d_d948_5020_9d41nat);
    assert(0x12b0_eff6_c049_6d6d_d948_5020_9d41nat * 0x12b0_eff6_c049_6d6d_d948_5020_9d41nat == 0x15d_5c09_8741_6139_2178_92b9_bce5_5f46_89a2_dd05_b95f_0d00_50d8_ca81nat);
    assert(0xde2_cbbd_2b8f_d4ac_b9a3_adf9_3a51nat * 0xde2_cbbd_2b8f_d4ac_b9a3_adf9_3a51nat == 0xc0_d19d_9293_146c_80e5_fc5f_7d92_3ecf_ba54_e613_bcbc_2099_f8da_cda1nat);
    assert(0x9_f204_6db8_33cc_2bfa_f143_00f1nat * 0x1c6_9ddb == 0x11a9_55c9_55bf_b06e_85aa_6276_274b_9b2bnat);
    assert(0x9_f204_9a85_be45_1266_65ef_3dd1nat * 0x1c6_9ddd == 0x11a9_562c_c9ec_d9a4_3f82_7531_5917_8a6dnat);
    assert(0x11a9_55c9_55bf_b06e_85aa_6276_274b_9b2bnat * 0x15d_5c09_8741_6139_2178_92b9_bce5_5f46_89a2_dd05_b95f_0d00_50d8_ca81nat == 0x18_1a33_7697_1429_7cac_89ca_854a_58d5_41e6_1a9e_cda4_c1c4_521b_2b41_501b_5407_aeb7_82b8_4b5b_cfd3_d1d1_1eabnat);
    assert(0x11a9_562c_c9ec_d9a4_3f82_7531_5917_8a6dnat * 0x15d_5c09_8741_6139_2178_92b9_bce5_5f46_89a2_dd05_b95f_0d00_50d8_ca81nat == 0x18_1a33_fe50_372e_86fa_bc73_04f3_1c58_88bb_0321_7915_a46b_99b7_d48d_1d0d_81bd_5f19_01ff_942b_0e49_540e_c2ednat);
    assert(0xc0_d19d_9293_146c_80e5_fc5f_7d92_3ecf_ba54_e613_bcbc_2099_f8da_cda1nat * 0x2000_0000_0000_0000_0000_0000_0000_0000nat == 0x18_1a33_b252_628d_901c_bf8b_efb2_47d9_f74a_9cc2_7797_8413_3f1b_59b4_2000_0000_0000_0000_0000_0000_0000_0000nat);
    lemma_power_known(
        0x3f63_4eee, 0xe3_4eee, 125, 0x2000_0000_0000_0000_0000_0000_0000_0000nat,
        256025, 0x3b_9f42_855c_7509,
        0xde2_cbbd_2b8f_d4ac_b9a3_adf9_3a51nat,
        269025, 0x45_2c59_9066_9ca1,
        0x12b0_eff6_c049_6d6d_d948_5020_9d41nat,
        0x3_2754_461a_5959, 0x9_f204_6db8_33cc_2bfa_f143_00f1nat,
        0x3_2754_4d34_d0c9, 0x9_f204_9a85_be45_1266_65ef_3dd1nat,
    );
}

/// Code 243.
proof fn lemma_entry_243()
    ensures
        nearest_to_power(0x3f65_71e9, 257025, 269025),
{
    lemma_fifth_powers_of_two();
    assert(257025nat * 257025 * 257025 == 0x3c_52ce_e4bb_c401);
    assert(0x3c_52ce_e4bb_c401 * 0x3c_52ce_e4bb_c401 == 0xe36_ebc4_69c1_1497_1475_b787_8801nat);
    assert(0x1ca_e3d1 * 0x1ca_e3d1 == 0x3_3693_f290_50a1);
    assert(0x3_3693_f290_50a1 * 0x3_3693_f290_50a1 == 0xa_531a_6f37_3d5b_aeb1_3285_0541nat);
    assert(0x1ca_e3d3 * 0x1ca_e3d3 == 0x3_3693_f9bb_dfe9);
    assert(0x3_3693_f9bb_dfe9 * 0x3_3693_f9bb_dfe9 == 0xa_531a_9d4b_434e_750a_243d_c211nat);
    assert(269025nat * 269025 * 269025 == 0x45_2c59_9066_9ca1);
    assert(0x45_2c59_9066_9ca1 * 0x45_2c59_9066_9ca1 == 0x12b0_eff6_c049_6d6d_d948_5020_9d41nat);
    assert(0x12b0_eff6_c049_6d6d_d948_5020_9d41nat * 0x12b0_eff6_c049_6d6d_d948_5020_9d41nat == 0x15d_5c09_8741_6139_2178_92b9_bce5_5f46_89a2_dd05_b95f_0d00_50d8_ca81nat);
    assert(0xe36_ebc4_69c1_1497_1475_b787_8801nat * 0xe36_ebc4_69c1_1497_1475_b787_8801nat == 0xca_0d91_cb8f_ec8f_cd1e_5d27_af7e_b60d_88a2_2d73_0be3_851c_274f_1001nat);
    assert(0xa_531a_6f37_3d5b_aeb1_3285_0541nat * 0x1ca_e3d1 == 0x1281_dd69_4206_8d87_ecc5_2071_988b_ed11nat);
    assert(0xa_531a_9d4b_434e_750a_243d_c211nat * 0x1ca_e3d3 == 0x1281_ddd0_810f_cc14_6f97_4bfb_d466_0703nat);
    assert(0x1281_dd69_4206_8d87_ecc5_2071_988b_ed11nat * 0x15d_5c09_8741_6139_2178_92b9_bce5_5f46_89a2_dd05_b95f_0d00_50d8_ca81nat == 0x19_41b2_3468_d51f_af2b_7762_0a89_cb67_5ab8_2ccf_64f7_e74b_cac4_85d8_e524_d97d_5dd7_c01b_17cc_48c1_9de9_df91nat);
    assert(0x1281_ddd0_810f_cc14_6f97_4bfb_d466_0703nat * 0x15d_5c09_8741_6139_2178_92b9_bce5_5f46_89a2_dd05_b95f_0d00_50d8_ca81nat == 0x19_41b2_c14e_e339_0b23_991d_8b33_ba8a_5d75_b128_82f3_6fc8_c3d7_4bd4_7912_d625_36da_7686_5f85_3ec5_6379_e683nat);
    assert(0xca_0d91_cb8f_ec8f_cd1e_5d27_af7e_b60d_88a2_2d73_0be3_851c_274f_1001nat * 0x2000_0000_0000_0000_0000_0000_0000_0000nat == 0x19_41b2_3971_fd91_f9a3_cba4_f5ef_d6c1_b114_45ae_617c_70a3_84e9_e200_2000_0000_0000_0000_0000_0000_0000_0000nat);
    lemma_power_known(
        0x3f65_71e9, 0xe5_71e9, 125, 0x2000_0000_0000_0000_0000_0000_0000_0000nat,
        257025, 0x3c_52ce_e4bb_c401,
        0xe36_ebc4_69c1_1497_1475_b787_8801nat,
        269025, 0x45_2c59_9066_9ca1,
        0x12b0_eff6_c049_6d6d_d948_5020_9d41nat,
        0x3_3693_f290_50a1, 0xa_531a_6f37_3d5b_aeb1_3285_0541nat,
        0x3_3693_f9bb_dfe9, 0xa_531a_9d4b_434e_750a_243d_c211nat,
    );
}

/// Code 244.
proof fn lemma_entry_244()
    ensures
        nearest_to_power(0x3f67_97e0, 258025, 269025),
{
    lemma_fifth_powers_of_two();
    assert(258025nat * 258025 * 258025 == 0x3d_07c2_5368_a079);
    assert(0x3d_07c2_5368_a079 * 0x3d_07c2_5368_a079 == 0xe8c_b2d7_f3ee_b830_d835_3ce7_7931nat);
    assert(0x1cf_2fbf * 0x1cf_2fbf == 0x3_460d_bdc9_b081);
    assert(0x3_460d_bdc9_b081 * 0x3_460d_bdc9_b081 == 0xa_b77d_f741_42bb_e69f_1e43_a101nat);
    assert(0x1cf_2fc1 * 0x1cf_2fc1 == 0x3_460d_c506_6f81);
    assert(0x3_460d_c506_6f81 * 0x3_460d_c506_6f81 == 0xa_b77e_26a3_bc4a_c6df_f49d_1f01nat);
    assert(269025nat * 269025 * 269025 == 0x45_2c59_9066_9ca1);
    assert(0x45_2c59_9066_9ca1 * 0x45_2c59_9066_9ca1 == 0x12b0_eff6_c049_6d6d_d948_5020_9d41nat);
    assert(0x12b0_eff6_c049_6d6d_d948_5020_9d41nat * 0x12b0_eff6_c049_6d6d_d948_5020_9d41nat == 0x15d_5c09_8741_6139_2178_92b9_bce5_5f46_89a2_dd05_b95f_0d00_50d8_ca81nat);
    assert(0xe8c_b2d7_f3ee_b830_d835_3ce7_7931nat * 0xe8c_b2d7_f3ee_b830_d835_3ce7_7931nat == 0xd3_b0e3_b7d1_eea2_689e_abe0_da59_6fa8_b4e3_d3f8_c538_3064_e7cd_5b61nat);
    assert(0xa_b77d_f741_42bb_e69f_1e43_a101nat * 0x1cf_2fbf == 0x1363_dc81_3668_26c7_6350_0396_2fd3_4ebfnat);
    assert(0xa_b77e_26a3_bc4a_c6df_f49d_1f01nat * 0x1cf_2fc1 == 0x1363_dcec_6154_bc40_5dee_74eb_55f4_8ec1nat);
    assert(0x1363_dc81_3668_26c7_6350_0396_2fd3_4ebfnat * 0x15d_5c09_8741_6139_2178_92b9_bce5_5f46_89a2_dd05_b95f_0d00_50d8_ca81nat == 0x1a_761c_3826_f915_803d_3568_be8a_9279_a663_7841_d835_62aa_793e_b4d0_9f37_ceab_f3cd_2bf3_1eb1_6650_f6c5_643fnat);
    assert(0x1363_dcec_6154_bc40_5dee_74eb_55f4_8ec1nat * 0x15d_5c09_8741_6139_2178_92b9_bce5_5f46_89a2_dd05_b95f_0d00_50d8_ca81nat == 0x1a_761c_ca67_0507_6d34_f6cd_f61f_7ccb_6602_1706_83e9_9f6d_7f69_4d32_d3d6_43b7_d86f_6756_8cb6_5c5e_0bb8_3941nat);
    assert(0xd3_b0e3_b7d1_eea2_689e_abe0_da59_6fa8_b4e3_d3f8_c538_3064_e7cd_5b61nat * 0x2000_0000_0000_0000_0000_0000_0000_0000nat == 0x1a_761c_76fa_3dd4_4d13_d57c_1b4b_2df5_169c_7a7f_18a7_060c_9cf9_ab6c_2000_0000_0000_0000_0000_0000_0000_0000nat);
    lemma_power_known(
        0x3f67_97e0, 0xe7_97e0, 125, 0x2000_0000_0000_0000_0000_0000_0000_0000nat,
        258025, 0x3d_07c2_5368_a079,
        0xe8c_b2d7_f3ee_b830_d835_3ce7_7931nat,
        269025, 0x45_2c59_9066_9ca1,
        0x12b0_eff6_c049_6d6d_d948_5020_9d41nat,
        0x3_460d_bdc9_b081, 0xa_b77d_f741_42bb_e69f_1e43_a101nat,
        0x3_460d_c506_6f81, 0xa_b77e_26a3_bc4a_c6df_f49d_1f01nat,
    );
}

/// Code 245.
proof fn lemma_entry_245()
    ensures
        nearest_to_power(0x3f69_c0d5, 259025, 269025),
{
    lemma_fifth_powers_of_two();
    assert(259025nat * 259025 * 259025 == 0x3d_be1e_3703_c671);
    assert(0x3d_be1e_3703_c671 * 0x3d_be1e_3703_c671 == 0xee4_2797_1507_1d1e_ddce_ce78_fde1nat);
    assert(0x1d3_81a9 * 0x1d3_81a9 == 0x3_55c2_5041_c191);
    assert(0x3_55c2_5041_c191 * 0x3_55c2_5041_c191 == 0xb_1f48_7e53_f0c2_d3a2_7dfd_f421nat);
    assert(0x1d3_81ab * 0x1d3_81ab == 0x3_55c2_578f_c839);
    assert(0x3_55c2_578f_c839 * 0x3_55c2_578f_c839 == 0xb_1f48_af0d_002a_5b3c_0a47_1cb1nat);
    assert(269025nat * 269025 * 269025 == 0x45_2c59_9066_9ca1);
    assert(0x45_2c59_9066_9ca1 * 0x45_2c59_9066_9ca1 == 0x12b0_eff6_c049_6d6d_d948_5020_9d41nat);
    assert(0x12b0_eff6_c049_6d6d_d948_5020_9d41nat * 0x12b0_eff6_c049_6d6d_d948_5020_9d41nat == 0x15d_5c09_8741_6139_2178_92b9_bce5_5f46_89a2_dd05_b95f_0d00_50d8_ca81nat);
    assert(0xee4_2797_1507_1d1e_ddce_ce78_fde1nat * 0xee4_2797_1507_1d1e_ddce_ce78_fde1nat == 0xdd_bfab_1189_9d6d_3a3b_a3ed_5b8d_5606_c921_51bc_5252_01e1_1ab6_7fc1nat);
    assert(0xb_1f48_7e53_f0c2_d3a2_7dfd_f421nat * 0x1d3_81a9 == 0x144f_b359_a1a3_e524_2eae_6e06_7cdd_cac9nat);
    assert(0xb_1f48_af0d_002a_5b3c_0a47_1cb1nat * 0x1d3_81ab == 0x144f_b3c8_da79_c808_e2ca_f202_09d8_5b3bnat);
    assert(0x144f_b359_a1a3_e524_2eae_6e06_7cdd_cac9nat * 0x15d_5c09_8741_6139_2178_92b9_bce5_5f46_89a2_dd05_b95f_0d00_50d8_ca81nat == 0x1b_b7f4_e72e_1834_80ca_e79e_7d5b_5868_2df7_681f_3c01_98a8_c8a9_ecef_02a2_69f8_9854_56bd_ca18_6f4d_d75d_c949nat);
    assert(0x144f_b3c8_da79_c808_e2ca_f202_09d8_5b3bnat * 0x15d_5c09_8741_6139_2178_92b9_bce5_5f46_89a2_dd05_b95f_0d00_50d8_ca81nat == 0x1b_b7f5_7ef6_905b_7304_1393_7414_7c21_2273_e469_b325_996e_db69_4a9f_345a_16fd_9a0e_6929_ba8c_78db_17ca_86bbnat);
    assert(0xdd_bfab_1189_9d6d_3a3b_a3ed_5b8d_5606_c921_51bc_5252_01e1_1ab6_7fc1nat * 0x2000_0000_0000_0000_0000_0000_0000_0000nat == 0x1b_b7f5_6231_33ad_a747_747d_ab71_aac0_d924_2a37_8a4a_403c_2356_cff8_2000_0000_0000_0000_0000_0000_0000_0000nat);
    lemma_power_known(
        0x3f69_c0d5, 0xe9_c0d5, 125, 0x2000_0000_0000_0000_0000_0000_0000_0000nat,
        259025, 0x3d_be1e_3703_c671,
        0xee4_2797_1507_1d1e_ddce_ce78_fde1nat,
        269025, 0x45_2c59_9066_9ca1,
        0x12b0_eff6_c049_6d6d_d948_5020_9d41nat,
        0x3_55c2_5041_c191, 0xb_1f48_7e53_f0c2_d3a2_7dfd_f421nat,
        0x3_55c2_578f_c839, 0xb_1f48_af0d_002a_5b3c_0a47_1cb1nat,
    );
}

/// Code 246.
proof fn lemma_entry_246()
    ensures
        nearest_to_power(0x3f6b_ecca, 260025, 269025),
{
    lemma_fifth_powers_of_two();
    assert(260025nat * 260025 * 260025 == 0x3e_75e3_f52d_f1e9);
    assert(0x3e_75e3_f52d_f1e9 * 0x3e_75e3_f52d_f1e9 == 0xf3d_50b4_eb59_e646_f67c_ea82_8611nat);
    assert(0x1d7_d993 * 0x1d7_d993 == 0x3_65b2_53d4_8a69);
    assert(0x3_65b2_53d4_8a69 * 0x3_65b2_53d4_8a69 == 0xb_8a94_2959_a2b0_d639_9ebd_5f11nat);
    assert(0x1d7_d995 * 0x1d7_d995 == 0x3_65b2_5b33_f0b9);
    assert(0x3_65b2_5b33_f0b9 * 0x3_65b2_5b33_f0b9 == 0xb_8a94_5b71_9500_b2f1_5211_65b1nat);
    assert(269025nat * 269025 * 269025 == 0x45_2c59_9066_9ca1);
    assert(0x45_2c59_9066_9ca1 * 0x45_2c59_9066_9ca1 == 0x12b0_eff6_c049_6d6d_d948_5020_9d41nat);
    assert(0x12b0_eff6_c049_6d6d_d948_5020_9d41nat * 0x12b0_eff6_c049_6d6d_d948_5020_9d41nat == 0x15d_5c09_8741_6139_2178_92b9_bce5_5f46_89a2_dd05_b95f_0d00_50d8_ca81nat);
    assert(0xf3d_50b4_eb59_e646_f67c_ea82_8611nat * 0xf3d_50b4_eb59_e646_f67c_ea82_8611nat == 0xe8_3e24_c33e_44c8_0d6a_7533_f529_8d6c_07d3_85c0_bc39_6c1b_8379_cd21nat);
    assert(0xb_8a94_2959_a2b0_d639_9ebd_5f11nat * 0x1d7_d993 == 0x1545_c5b0_3e0b_0cba_7524_e90e_9499_ffc3nat);
    assert(0xb_8a94_5b71_9500_b2f1_5211_65b1nat * 0x1d7_d995 == 0x1545_c623_a7d5_a4b2_8b14_b307_9bfa_3905nat);
    assert(0x1545_c5b0_3e0b_0cba_7524_e90e_9499_ffc3nat * 0x15d_5c09_8741_6139_2178_92b9_bce5_5f46_89a2_dd05_b95f_0d00_50d8_ca81nat == 0x1d_07c4_5f01_1899_d2d8_8b9f_46cd_e41c_5599_940a_8c03_2620_0931_1267_e2da_fc58_f060_6cb2_0096_5a77_21f1_bf43nat);
    assert(0x1545_c623_a7d5_a4b2_8b14_b307_9bfa_3905nat * 0x15d_5c09_8741_6139_2178_92b9_bce5_5f46_89a2_dd05_b95f_0d00_50d8_ca81nat == 0x1d_07c4_fc81_d01b_810e_7a8c_638f_4143_f2de_1f58_a9e8_17b6_9733_dc2f_3976_1d46_b6a1_3734_549c_45da_b64c_ad85nat);
    assert(0xe8_3e24_c33e_44c8_0d6a_7533_f529_8d6c_07d3_85c0_bc39_6c1b_8379_cd21nat * 0x2000_0000_0000_0000_0000_0000_0000_0000nat == 0x1d_07c4_9867_c899_01ad_4ea6_7ea5_31ad_80fa_70b8_1787_2d83_706f_39a4_2000_0000_0000_0000_0000_0000_0000_0000nat);
    lemma_power_known(
        0x3f6b_ecca, 0xeb_ecca, 125, 0x2000_0000_0000_0000_0000_0000_0000_0000nat,
        260025, 0x3e_75e3_f52d_f1e9,
        0xf3d_50b4_eb59_e646_f67c_ea82_8611nat,
        269025, 0x45_2c59_9066_9ca1,
        0x12b0_eff6_c049_6d6d_d948_5020_9d41nat,
        0x3_65b2_53d4_8a69, 0xb_8a94_2959_a2b0_d639_9ebd_5f11nat,
        0x3_65b2_5b33_f0b9, 0xb_8a94_5b71_9500_b2f1_5211_65b1nat,
    );
}

/// Code 247.
proof fn lemma_entry_247()
    ensures
        nearest_to_power(0x3f6e_1bbf, 261025, 269025),
{
    lemma_fifth_powers_of_two();
    assert(261025nat * 261025 * 261025 == 0x3f_2f14_f387_dee1);
    assert(0x3f_2f14_f387_dee1 * 0x3f_2f14_f387_dee1 == 0xf98_34f8_9002_8b7a_aa63_f959_01c1nat);
    assert(0x1dc_377d * 0x1dc_377d == 0x3_75de_64de_f309);
    assert(0x3_75de_64de_f309 * 0x3_75de_64de_f309 == 0xb_f97b_66a0_96c8_ada5_7256_1651nat);
    assert(0x1dc_377f * 0x1dc_377f == 0x3_75de_6c4f_d101);
    assert(0x3_75de_6c4f_d101 * 0x3_75de_6c4f_d101 == 0xb_f97b_9a1f_e352_d8f7_8140_a201nat);
    assert(269025nat * 269025 * 269025 == 0x45_2c59_9066_9ca1);
    assert(0x45_2c59_9066_9ca1 * 0x45_2c59_9066_9ca1 == 0x12b0_eff6_c049_6d6d_d948_5020_9d41nat);
    assert(0x12b0_eff6_c049_6d6d_d948_5020_9d41nat * 0x12b0_eff6_c049_6d6d_d948_5020_9d41nat == 0x15d_5c09_8741_6139_2178_92b9_bce5_5f46_89a2_dd05_b95f_0d00_50d8_ca81nat);
    assert(0xf98_34f8_9002_8b7a_aa63_f959_01c1nat * 0xf98_34f8_9002_8b7a_aa63_f959_01c1nat == 0xf3_30b4_1301_3b36_603c_fdc3_c07f_8a3d_3ec6_65f6_45fd_f3a1_aa35_1381nat);
    assert(0xb_f97b_66a0_96c8_ada5_7256_1651nat * 0x1dc_377d == 0x1646_79e5_26e5_f9f1_9ceb_ed6a_d170_4c8dnat);
    assert(0xb_f97b_9a1f_e352_d8f7_8140_a201nat * 0x1dc_377f == 0x1646_7a5c_e5b8_fdb3_feeb_23bb_3bba_957fnat);
    assert(0x1646_79e5_26e5_f9f1_9ceb_ed6a_d170_4c8dnat * 0x15d_5c09_8741_6139_2178_92b9_bce5_5f46_89a2_dd05_b95f_0d00_50d8_ca81nat == 0x1e_6616_5573_8531_39c8_3dff_ad90_1621_36fe_6cb4_1758_56f4_f063_4927_6f70_a9e1_ac8f_3e35_f102_e3c2_ccf5_d50dnat);
    assert(0x1646_7a5c_e5b8_fdb3_feeb_23bb_3bba_957fnat * 0x15d_5c09_8741_6139_2178_92b9_bce5_5f46_89a2_dd05_b95f_0d00_50d8_ca81nat == 0x1e_6616_f8dd_b7e6_28c3_0890_721f_0963_3b6b_520a_3704_1973_a738_3350_131f_407e_5a77_8133_620b_e5a0_2623_8affnat);
    assert(0xf3_30b4_1301_3b36_603c_fdc3_c07f_8a3d_3ec6_65f6_45fd_f3a1_aa35_1381nat * 0x2000_0000_0000_0000_0000_0000_0000_0000nat == 0x1e_6616_8260_2766_cc07_9fb8_780f_f147_a7d8_ccbe_c8bf_be74_3546_a270_2000_0000_0000_0000_0000_0000_0000_0000nat);
    lemma_power_known(
        0x3f6e_1bbf, 0xee_1bbf, 125, 0x2000_0000_0000_0000_0000_0000_0000_0000nat,
        261025, 0x3f_2f14_f387_dee1,
        0xf98_34f8_9002_8b7a_aa63_f959_01c1nat,
        269025, 0x45_2c59_9066_9ca1,
        0x12b0_eff6_c049_6d6d_d948_5020_9d41nat,
        0x3_75de_64de_f309, 0xb_f97b_66a0_96c8_ada5_7256_1651nat,
        0x3_75de_6c4f_d101, 0xb_f97b_9a1f_e352_d8f7_8140_a201nat,
    );
}

/// Code 248.
proof fn lemma_entry_248()
    ensures
        nearest_to_power(0x3f70_4db5, 262025, 269025),
{
    lemma_fifth_powers_of_two();
    assert(262025nat * 262025 * 262025 == 0x3f_e9b2_97b2_4959);
    assert(0x3f_e9b2_97b2_4959 * 0x3f_e9b2_97b2_4959 == 0xff4_db3d_3e79_f123_d075_12c7_e0f1nat);
    assert(0x1e0_9b69 * 0x1e0_9b69 == 0x3_8647_2818_5111);
    assert(0x3_8647_2818_5111 * 0x3_8647_2818_5111 == 0xc_6c19_8252_9f08_5f12_9cdb_c321nat);
    assert(0x1e0_9b6b * 0x1e0_9b6b == 0x3_8647_2f9a_beb9);
    assert(0x3_8647_2f9a_beb9 * 0x3_8647_2f9a_beb9 == 0xc_6c19_b741_e8af_a62f_f2ab_21b1nat);
    assert(269025nat * 269025 * 269025 == 0x45_2c59_9066_9ca1);
    assert(0x45_2c59_9066_9ca1 * 0x45_2c59_9066_9ca1 == 0x12b0_eff6_c049_6d6d_d948_5020_9d41nat);
    assert(0x12b0_eff6_c049_6d6d_d948_5020_9d41nat * 0x12b0_eff6_c049_6d6d_d948_5020_9d41nat == 0x15d_5c09_8741_6139_2178_92b9_bce5_5f46_89a2_dd05_b95f_0d00_50d8_ca81nat);
    assert(0xff4_db3d_3e79_f123_d075_12c7_e0f1nat * 0xff4_db3d_3e79_f123_d075_12c7_e0f1nat == 0xfe_9be3_d5d3_3a41_56a2_93fc_0f46_2ec9_31df_4c0e_3d81_f3fb_6054_a2e1nat);
    assert(0xc_6c19_8252_9f08_5f12_9cdb_c321nat * 0x1e0_9b69 == 0x1752_3a60_2348_a9df_8ee5_5fa9_4328_0389nat);
    assert(0xc_6c19_b741_e8af_a62f_f2ab_21b1nat * 0x1e0_9b6b == 0x1752_3adc_5c48_c9c6_34f0_7ed7_36cd_3ffbnat);
    assert(0x1752_3a60_2348_a9df_8ee5_5fa9_4328_0389nat * 0x15d_5c09_8741_6139_2178_92b9_bce5_5f46_89a2_dd05_b95f_0d00_50d8_ca81nat == 0x1f_d37c_0041_05a3_d1de_6827_da64_b7e6_fb5b_286a_a3c8_1c09_a19c_8941_1f68_9924_2eab_0552_f3e2_e326_358b_e209nat);
    assert(0x1752_3adc_5c48_c9c6_34f0_7ed7_36cd_3ffbnat * 0x15d_5c09_8741_6139_2178_92b9_bce5_5f46_89a2_dd05_b95f_0d00_50d8_ca81nat == 0x1f_d37c_a9c7_63ea_fd8f_7f45_e7ba_f0af_46b5_c755_2cda_697e_ed3f_6b88_c5d0_1532_00a8_6b4b_4560_dbdc_fdb1_4b7bnat);
    assert(0xfe_9be3_d5d3_3a41_56a2_93fc_0f46_2ec9_31df_4c0e_3d81_f3fb_6054_a2e1nat * 0x2000_0000_0000_0000_0000_0000_0000_0000nat == 0x1f_d37c_7aba_6748_2ad4_527f_81e8_c5d9_263b_e981_c7b0_3e7f_6c0a_945c_2000_0000_0000_0000_0000_0000_0000_0000nat);
    lemma_power_known(
        0x3f70_4db5, 0xf0_4db5, 125, 0x2000_0000_0000_0000_0000_0000_0000_0000nat,
        262025, 0x3f_e9b2_97b2_4959,
        0xff4_db3d_3e79_f123_d075_12c7_e0f1nat,
        269025, 0x45_2c59_9066_9ca1,
        0x12b0_eff6_c049_6d6d_d948_5020_9d41nat,
        0x3_8647_2818_5111, 0xc_6c19_8252_9f08_5f12_9cdb_c321nat,
        0x3_8647_2f9a_beb9, 0xc_6c19_b741_e8af_a62f_f2ab_21b1nat,
    );
}

/// Code 249.
proof fn lemma_entry_249()
    ensures
        nearest_to_power(0x3f72_82ae, 263025, 269025),
{
    lemma_fifth_powers_of_two();
    assert(263025nat * 263025 * 263025 == 0x40_a5be_474d_ed51);
    assert(0x40_a5be_474d_ed51 * 0x40_a5be_474d_ed51 == 0x1053_4a72_7c4f_07f2_ff97_8cb9_13a1nat);
    assert(0x1e5_055b * 0x1e5_055b == 0x3_96ed_4aea_ae59);
    assert(0x3_96ed_4aea_ae59 * 0x3_96ed_4aea_ae59 == 0xc_e28a_b13e_e6d9_a0b8_a571_1af1nat);
    assert(0x1e5_055d * 0x1e5_055d == 0x3_96ed_527e_c3c9);
    assert(0x3_96ed_527e_c3c9 * 0x3_96ed_527e_c3c9 == 0xc_e28a_e7a6_fd71_825c_1397_d3d1nat);
    assert(269025nat * 269025 * 269025 == 0x45_2c59_9066_9ca1);
    assert(0x45_2c59_9066_9ca1 * 0x45_2c59_9066_9ca1 == 0x12b0_eff6_c049_6d6d_d948_5020_9d41nat);
    assert(0x12b0_eff6_c049_6d6d_d948_5020_9d41nat * 0x12b0_eff6_c049_6d6d_d948_5020_9d41nat == 0x15d_5c09_8741_6139_2178_92b9_bce5_5f46_89a2_dd05_b95f_0d00_50d8_ca81nat);
    assert(0x1053_4a72_7c4f_07f2_ff97_8cb9_13a1nat * 0x1053_4a72_7c4f_07f2_ff97_8cb9_13a1nat == 0x10a_8467_ab6c_df4e_2adc_e624_f29e_ef13_3809_8669_ef2e_d933_7833_4b41nat);
    assert(0xc_e28a_b13e_e6d9_a0b8_a571_1af1nat * 0x1e5_055b == 0x1869_75c3_08ee_962b_cd51_2c26_0f50_48abnat);
    assert(0xc_e28a_e7a6_fd71_825c_1397_d3d1nat * 0x1e5_055d == 0x1869_7643_e25a_92a9_4239_4679_6040_07ednat);
    assert(0x1869_75c3_08ee_962b_cd51_2c26_0f50_48abnat * 0x15d_5c09_8741_6139_2178_92b9_bce5_5f46_89a2_dd05_b95f_0d00_50d8_ca81nat == 0x21_508c_59d0_4179_f098_392c_64fb_abde_3458_70aa_b001_fadb_4ee7_448c_4688_1b6e_44c8_82ca_45c8_f8b5_d113_8c2bnat);
    assert(0x1869_7643_e25a_92a9_4239_4679_6040_07ednat * 0x15d_5c09_8741_6139_2178_92b9_bce5_5f46_89a2_dd05_b95f_0d00_50d8_ca81nat == 0x21_508d_09a6_fc9f_aeb9_a5b9_3f1e_666b_da00_c5ab_a47a_33a2_355e_650d_5d51_75a3_f21e_23e6_6b4f_8a9c_c67d_006dnat);
    assert(0x10a_8467_ab6c_df4e_2adc_e624_f29e_ef13_3809_8669_ef2e_d933_7833_4b41nat * 0x2000_0000_0000_0000_0000_0000_0000_0000nat == 0x21_508c_f56d_9be9_c55b_9cc4_9e53_dde2_6701_30cd_3de5_db26_6f06_6968_2000_0000_0000_0000_0000_0000_0000_0000nat);
    lemma_power_known(
        0x3f72_82ae, 0xf2_82ae, 125, 0x2000_0000_0000_0000_0000_0000_0000_0000nat,
        263025, 0x40_a5be_474d_ed51,
        0x1053_4a72_7c4f_07f2_ff97_8cb9_13a1nat,
        269025, 0x45_2c59_9066_9ca1,
        0x12b0_eff6_c049_6d6d_d948_5020_9d41nat,
        0x3_96ed_4aea_ae59, 0xc_e28a_b13e_e6d9_a0b8_a571_1af1nat,
        0x3_96ed_527e_c3c9, 0xc_e28a_e7a6_fd71_825c_1397_d3d1nat,
    );
}

/// Code 250.
proof fn lemma_entry_250()
    ensures
        nearest_to_power(0x3f74_baab, 264025, 269025),
{
    lemma_fifth_powers_of_two();
    assert(264025nat * 264025 * 264025 == 0x41_6339_67fb_86c9);
    assert(0x41_6339_67fb_86c9 * 0x41_6339_67fb_86c9 == 0x10b3_899c_4106_748f_d919_531d_09d1nat);
    assert(0x1e9_7555 * 0x1e9_7555 == 0x3_a7d1_7480_ce39);
    assert(0x3_a7d1_7480_ce39 * 0x3_a7d1_7480_ce39 == 0xd_5ceb_ac64_51ba_12c4_871f_c8b1nat);
    assert(0x1e9_7557 * 0x1e9_7557 == 0x3_a7d1_7c26_a391);
    assert(0x3_a7d1_7c26_a391 * 0x3_a7d1_7c26_a391 == 0xd_5ceb_e44e_3219_b50b_6f8d_f821nat);
    assert(269025nat * 269025 * 269025 == 0x45_2c59_9066_9ca1);
    assert(0x45_2c59_9066_9ca1 * 0x45_2c59_9066_9ca1 == 0x12b0_eff6_c049_6d6d_d948_5020_9d41nat);
    assert(0x12b0_eff6_c049_6d6d_d948_5020_9d41nat * 0x12b0_eff6_c049_6d6d_d948_5020_9d41nat == 0x15d_5c09_8741_6139_2178_92b9_bce5_5f46_89a2_dd05_b95f_0d00_50d8_ca81nat);
    assert(0x10b3_899c_4106_748f_d919_531d_09d1nat * 0x10b3_899c_4106_748f_d919_531d_09d1nat == 0x116_ef1d_429c_5a91_3571_10d6_45b7_f123_82c9_b48a_f0ca_147a_bfba_5ca1nat);
    assert(0xd_5ceb_ac64_51ba_12c4_871f_c8b1nat * 0x1e9_7555 == 0x198c_9e13_dbaa_3317_06c2_28b8_be5f_87c5nat);
    assert(0xd_5ceb_e44e_3219_b50b_6f8d_f821nat * 0x1e9_7557 == 0x198c_9e99_7ce0_0693_9952_d70d_c2af_6837nat);
    assert(0x198c_9e13_dbaa_3317_06c2_28b8_be5f_87c5nat * 0x15d_5c09_8741_6139_2178_92b9_bce5_5f46_89a2_dd05_b95f_0d00_50d8_ca81nat == 0x22_dde2_fd52_d670_2129_b1ad_6f3b_2ffb_e367_3027_ec4c_c965_25e6_c41e_aa79_f2a9_4c8e_1290_4c56_c757_6d7c_dc45nat);
    assert(0x198c_9e99_7ce0_0693_9952_d70d_c2af_6837nat * 0x15d_5c09_8741_6139_2178_92b9_bce5_5f46_89a2_dd05_b95f_0d00_50d8_ca81nat == 0x22_dde3_b3af_a7ba_0f06_c611_65a0_a4be_4554_fe5f_ed03_5958_be8b_1198_ff70_b709_ef71_40d2_b496_191e_a106_e9b7nat);
    assert(0x116_ef1d_429c_5a91_3571_10d6_45b7_f123_82c9_b48a_f0ca_147a_bfba_5ca1nat * 0x2000_0000_0000_0000_0000_0000_0000_0000nat == 0x22_dde3_a853_8b52_26ae_221a_c8b6_fe24_7059_3691_5e19_428f_57f7_4b94_2000_0000_0000_0000_0000_0000_0000_0000nat);
    lemma_power_known(
        0x3f74_baab, 0xf4_baab, 125, 0x2000_0000_0000_0000_0000_0000_0000_0000nat,
        264025, 0x41_6339_67fb_86c9,
        0x10b3_899c_4106_748f_d919_531d_09d1nat,
        269025, 0x45_2c59_9066_9ca1,
        0x12b0_eff6_c049_6d6d_d948_5020_9d41nat,
        0x3_a7d1_7480_ce39, 0xd_5ceb_ac64_51ba_12c4_871f_c8b1nat,
        0x3_a7d1_7c26_a391, 0xd_5ceb_e44e_3219_b50b_6f8d_f821nat,
    );
}

/// Code 251.
proof fn lemma_entry_251()
    ensures
        nearest_to_power(0x3f76_f5ae, 265025, 269025),
{
    lemma_fifth_powers_of_two();
    assert(265025nat * 265025 * 265025 == 0x42_2225_5f5b_d1c1);
    assert(0x42_2225_5f5b_d1c1 * 0x42_2225_5f5b_d1c1 == 0x1115_9fd3_1e21_3f4b_2c66_0912_b381nat);
    assert(0x1ed_eb5b * 0x1ed_eb5b == 0x3_b8f4_54de_3259);
    assert(0x3_b8f4_54de_3259 * 0x3_b8f4_54de_3259 == 0xd_db5a_2066_7a28_7b8d_c442_e2f1nat);
    assert(0x1ed_eb5d * 0x1ed_eb5d == 0x3_b8f4_5c95_dfc9);
    assert(0x3_b8f4_5c95_dfc9 * 0x3_b8f4_5c95_dfc9 == 0xd_db5a_59db_4f95_97be_bb99_cbd1nat);
    assert(269025nat * 269025 * 269025 == 0x45_2c59_9066_9ca1);
    assert(0x45_2c59_9066_9ca1 * 0x45_2c59_9066_9ca1 == 0x12b0_eff6_c049_6d6d_d948_5020_9d41nat);
    assert(0x12b0_eff6_c049_6d6d_d948_5020_9d41nat * 0x12b0_eff6_c049_6d6d_d948_5020_9d41nat == 0x15d_5c09_8741_6139_2178_92b9_bce5_5f46_89a2_dd05_b95f_0d00_50d8_ca81nat);
    assert(0x1115_9fd3_1e21_3f4b_2c66_0912_b381nat * 0x1115_9fd3_1e21_3f4b_2c66_0912_b381nat == 0x123_e10d_a66b_4964_5934_5c2a_e7d0_3754_217e_445a_5483_b4c8_ce01_a701nat);
    assert(0xd_db5a_2066_7a28_7b8d_c442_e2f1nat * 0x1ed_eb5b == 0x1abc_29d9_1a20_d686_85d2_035d_3436_e6abnat);
    assert(0xd_db5a_59db_4f95_97be_bb99_cbd1nat * 0x1ed_eb5d == 0x1abc_2a63_aba7_39cf_75f3_7dad_d674_e5ednat);
    assert(0x1abc_29d9_1a20_d686_85d2_035d_3436_e6abnat * 0x15d_5c09_8741_6139_2178_92b9_bce5_5f46_89a2_dd05_b95f_0d00_50d8_ca81nat == 0x24_7c21_aac0_2ac9_8dca_b2c0_beae_ef7a_fa50_9610_f6e0_0e42_ce5f_0953_1435_70c3_490c_b2b0_129c_2292_b1f5_2a2bnat);
    assert(0x1abc_2a63_aba7_39cf_75f3_7dad_d674_e5ednat * 0x15d_5c09_8741_6139_2178_92b9_bce5_5f46_89a2_dd05_b95f_0d00_50d8_ca81nat == 0x24_7c22_67da_6073_87c3_35cc_1475_b8b1_acf1_9d98_1708_9173_571f_1abc_897b_fa5c_1f68_6b63_762f_034d_5e4c_de6dnat);
    assert(0x123_e10d_a66b_4964_5934_5c2a_e7d0_3754_217e_445a_5483_b4c8_ce01_a701nat * 0x2000_0000_0000_0000_0000_0000_0000_0000nat == 0x24_7c21_b4cd_692c_8b26_8b85_5cfa_06ea_842f_c88b_4a90_7699_19c0_34e0_2000_0000_0000_0000_0000_0000_0000_0000nat);
    lemma_power_known(
        0x3f76_f5ae, 0xf6_f5ae, 125, 0x2000_0000_0000_0000_0000_0000_0000_0000nat,
        265025, 0x42_2225_5f5b_d1c1,
        0x1115_9fd3_1e21_3f4b_2c66_0912_b381nat,
        269025, 0x45_2c59_9066_9ca1,
        0x12b0_eff6_c049_6d6d_d948_5020_9d41nat,
        0x3_b8f4_54de_3259, 0xd_db5a_2066_7a28_7b8d_c442_e2f1nat,
        0x3_b8f4_5c95_dfc9, 0xd_db5a_59db_4f95_97be_bb99_cbd1nat,
    );
}

/// Code 252.
proof fn lemma_entry_252()
    ensures
        nearest_to_power(0x3f79_33b6, 266025, 269025),
{
    lemma_fifth_powers_of_two();
    assert(266025nat * 266025 * 266025 == 0x42_e283_930f_8a39);
    assert(0x42_e283_930f_8a39 * 0x42_e283_930f_8a39 == 0x1179_9444_674a_8bd2_f404_f34f_80b1nat);
    assert(0x1f2_676b * 0x1f2_676b == 0x3_ca56_8613_46b9);
    assert(0x3_ca56_8613_46b9 * 0x3_ca56_8613_46b9 == 0xe_5df3_cd48_6f1d_a7c9_3eff_b1b1nat);
    assert(0x1f2_676d * 0x1f2_676d == 0x3_ca56_8ddc_e469);
    assert(0x3_ca56_8ddc_e469 * 0x3_ca56_8ddc_e469 == 0xe_5df4_0851_91f2_3cc1_0a43_3311nat);
    assert(269025nat * 269025 * 269025 == 0x45_2c59_9066_9ca1);
    assert(0x45_2c59_9066_9ca1 * 0x45_2c59_9066_9ca1 == 0x12b0_eff6_c049_6d6d_d948_5020_9d41nat);
    assert(0x12b0_eff6_c049_6d6d_d948_5020_9d41nat * 0x12b0_eff6_c049_6d6d_d948_5020_9d41nat == 0x15d_5c09_8741_6139_2178_92b9_bce5_5f46_89a2_dd05_b95f_0d00_50d8_ca81nat);
    assert(0x1179_9444_674a_8bd2_f404_f34f_80b1nat * 0x1179_9444_674a_8bd2_f404_f34f_80b1nat == 0x131_5f6e_9440_b4bf_6cc6_996e_cee4_29d4_4a7d_c86b_6771_7488_b3ef_7a61nat);
    assert(0xe_5df3_cd48_6f1d_a7c9_3eff_b1b1nat * 0x1f2_676b == 0x1bf8_9213_b367_19ab_c563_a6dd_dfaf_7bfbnat);
    assert(0xe_5df4_0851_91f2_3cc1_0a43_3311nat * 0x1f2_676d == 0x1bf8_92a3_5eee_45ad_ca1b_800b_bf3a_953dnat);
    assert(0x1bf8_9213_b367_19ab_c563_a6dd_dfaf_7bfbnat * 0x15d_5c09_8741_6139_2178_92b9_bce5_5f46_89a2_dd05_b95f_0d00_50d8_ca81nat == 0x26_2bed_83df_047d_42fb_db49_6b46_cefc_bd50_4682_0dd1_6768_23cf_25a2_4487_098f_0e93_5b83_886e_7a1d_3b09_877bnat);
    assert(0x1bf8_92a3_5eee_45ad_ca1b_800b_bf3a_953dnat * 0x15d_5c09_8741_6139_2178_92b9_bce5_5f46_89a2_dd05_b95f_0d00_50d8_ca81nat == 0x26_2bee_47ef_82c1_c572_f546_29e0_911c_030a_c52d_e1e9_ccd4_d778_2c55_e35f_81fa_be79_d5c1_b0c7_8be0_91bf_55bdnat);
    assert(0x131_5f6e_9440_b4bf_6cc6_996e_cee4_29d4_4a7d_c86b_6771_7488_b3ef_7a61nat * 0x2000_0000_0000_0000_0000_0000_0000_0000nat == 0x26_2bed_d288_1697_ed98_d32d_d9dc_853a_894f_b90d_6cee_2e91_167d_ef4c_2000_0000_0000_0000_0000_0000_0000_0000nat);
    lemma_power_known(
        0x3f79_33b6, 0xf9_33b6, 125, 0x2000_0000_0000_0000_0000_0000_0000_0000nat,
        266025, 0x42_e283_930f_8a39,
        0x1179_9444_674a_8bd2_f404_f34f_80b1nat,
        269025, 0x45_2c59_9066_9ca1,
        0x12b0_eff6_c049_6d6d_d948_5020_9d41nat,
        0x3_ca56_8613_46b9, 0xe_5df3_cd48_6f1d_a7c9_3eff_b1b1nat,
        0x3_ca56_8ddc_e469, 0xe_5df4_0851_91f2_3cc1_0a43_3311nat,
    );
}

/// Code 253.
proof fn lemma_entry_253()
    ensures
        nearest_to_power(0x3f7b_74c6, 267025, 269025),
{
    lemma_fifth_powers_of_two();
    assert(267025nat * 267025 * 267025 == 0x43_a455_68b7_6c31);
    assert(0x43_a455_68b7_6c31 * 0x43_a455_68b7_6c31 == 0x11df_6e32_5aac_58e8_2bdd_abc7_6161nat);
    assert(0x1f6_e98b * 0x1f6_e98b == 0x3_dbf8_c232_5179);
    assert(0x3_dbf8_c232_5179 * 0x3_dbf8_c232_5179 == 0xe_e4d8_1b28_d509_2dcf_5131_cb31nat);
    assert(0x1f6_e98d * 0x1f6_e98d == 0x3_dbf8_ca0d_f7a9);
    assert(0x3_dbf8_ca0d_f7a9 * 0x3_dbf8_ca0d_f7a9 == 0xe_e4d8_57cf_ce3b_0909_cac1_8d91nat);
    assert(269025nat * 269025 * 269025 == 0x45_2c59_9066_9ca1);
    assert(0x45_2c59_9066_9ca1 * 0x45_2c59_9066_9ca1 == 0x12b0_eff6_c049_6d6d_d948_5020_9d41nat);
    assert(0x12b0_eff6_c049_6d6d_d948_5020_9d41nat * 0x12b0_eff6_c049_6d6d_d948_5020_9d41nat == 0x15d_5c09_8741_6139_2178_92b9_bce5_5f46_89a2_dd05_b95f_0d00_50d8_ca81nat);
    assert(0x11df_6e32_5aac_58e8_2bdd_abc7_6161nat * 0x11df_6e32_5aac_58e8_2bdd_abc7_6161nat == 0x13f_6fa3_db34_2be5_6227_bff0_3834_39ee_59ab_b252_3408_aeda_1fd8_a6c1nat);
    assert(0xe_e4d8_1b28_d509_2dcf_5131_cb31nat * 0x1f6_e98b == 0x1d42_5624_3420_a910_db36_c81b_da0e_ec9bnat);
    assert(0xe_e4d8_57cf_ce3b_0909_cac1_8d91nat * 0x1f6_e98d == 0x1d42_56b9_2492_e7ec_0af1_7b7a_70c9_f1ddnat);
    assert(0x1d42_5624_3420_a910_db36_c81b_da0e_ec9bnat * 0x15d_5c09_8741_6139_2178_92b9_bce5_5f46_89a2_dd05_b95f_0d00_50d8_ca81nat == 0x27_edf4_5d1a_8ee9_aecd_8a49_1a5e_5f6c_b1a1_b177_dd98_0e9e_76f5_a3f6_6a2b_1a12_f14d_1fd8_ceae_55a0_baff_881bnat);
    assert(0x1d42_56b9_2492_e7ec_0af1_7b7a_70c9_f1ddnat * 0x15d_5c09_8741_6139_2178_92b9_bce5_5f46_89a2_dd05_b95f_0d00_50d8_ca81nat == 0x27_edf5_285b_e69d_930e_732b_4090_949b_b270_8e19_1515_c831_84c4_5272_ff99_d166_396a_55af_38f7_54ab_5113_425dnat);
    assert(0x13f_6fa3_db34_2be5_6227_bff0_3834_39ee_59ab_b252_3408_aeda_1fd8_a6c1nat * 0x2000_0000_0000_0000_0000_0000_0000_0000nat == 0x27_edf4_7b66_857c_ac44_f7fe_0706_873d_cb35_764a_4681_15db_43fb_14d8_2000_0000_0000_0000_0000_0000_0000_0000nat);
    lemma_power_known(
        0x3f7b_74c6, 0xfb_74c6, 125, 0x2000_0000_0000_0000_0000_0000_0000_0000nat,
        267025, 0x43_a455_68b7_6c31,
        0x11df_6e32_5aac_58e8_2bdd_abc7_6161nat,
        269025, 0x45_2c59_9066_9ca1,
        0x12b0_eff6_c049_6d6d_d948_5020_9d41nat,
        0x3_dbf8_c232_5179, 0xe_e4d8_1b28_d509_2dcf_5131_cb31nat,
        0x3_dbf8_ca0d_f7a9, 0xe_e4d8_57cf_ce3b_0909_cac1_8d91nat,
    );
}

/// Code 254.
proof fn lemma_entry_254()
    ensures
        nearest_to_power(0x3f7d_b8de, 268025, 269025),
{
    lemma_fifth_powers_of_two();
    assert(268025nat * 268025 * 268025 == 0x44_679c_45f4_33a9);
    assert(0x44_679c_45f4_33a9 * 0x44_679c_45f4_33a9 == 0x1247_34f4_496b_4816_80c3_9e94_c591nat);
    assert(0x1fb_71bb * 0x1fb_71bb == 0x3_eddb_ad38_9e99);
    assert(0x3_eddb_ad38_9e99 * 0x3_eddb_ad38_9e99 == 0xf_7026_8a90_6152_36a6_8f31_3771nat);
    assert(0x1fb_71bd * 0x1fb_71bd == 0x3_eddb_b526_6589);
    assert(0x3_eddb_b526_6589 * 0x3_eddb_b526_6589 == 0xf_7026_c8de_e916_b3bc_06f1_6351nat);
    assert(269025nat * 269025 * 269025 == 0x45_2c59_9066_9ca1);
    assert(0x45_2c59_9066_9ca1 * 0x45_2c59_9066_9ca1 == 0x12b0_eff6_c049_6d6d_d948_5020_9d41nat);
    assert(0x12b0_eff6_c049_6d6d_d948_5020_9d41nat * 0x12b0_eff6_c049_6d6d_d948_5020_9d41nat == 0x15d_5c09_8741_6139_2178_92b9_bce5_5f46_89a2_dd05_b95f_0d00_50d8_ca81nat);
    assert(0x1247_34f4_496b_4816_80c3_9e94_c591nat * 0x1247_34f4_496b_4816_80c3_9e94_c591nat == 0x14e_1740_c4c7_f694_c56f_da15_fc2c_94a9_5908_fdf9_435d_f53a_0420_7c21nat);
    assert(0xf_7026_8a90_6152_36a6_8f31_3771nat * 0x1fb_71bb == 0x1e99_f81c_5b41_b03e_9d0b_0758_1f37_608bnat);
    assert(0xf_7026_c8de_e916_b3bc_06f1_6351nat * 0x1fb_71bd == 0x1e99_f8b6_bcc4_516b_107a_70f1_5e78_13cdnat);
    assert(0x1e99_f81c_5b41_b03e_9d0b_0758_1f37_608bnat * 0x15d_5c09_8741_6139_2178_92b9_bce5_5f46_89a2_dd05_b95f_0d00_50d8_ca81nat == 0x29_c2e7_b767_54e6_349f_d9e1_71af_584d_86cc_b6ad_1488_5cb4_948e_ec4c_05cf_f08e_f418_20af_a8f1_efee_525d_540bnat);
    assert(0x1e99_f8b6_bcc4_516b_107a_70f1_5e78_13cdnat * 0x15d_5c09_8741_6139_2178_92b9_bce5_5f46_89a2_dd05_b95f_0d00_50d8_ca81nat == 0x29_c2e8_8a15_c4c5_de96_2360_4211_2ede_1586_66c6_2bce_8767_e10d_9083_bd89_47ea_7b65_1f3a_3b13_02ac_1f19_bc4dnat);
    assert(0x14e_1740_c4c7_f694_c56f_da15_fc2c_94a9_5908_fdf9_435d_f53a_0420_7c21nat * 0x2000_0000_0000_0000_0000_0000_0000_0000nat == 0x29_c2e8_1898_fed2_98ad_fb42_bf85_9295_2b21_1fbf_286b_bea7_4084_0f84_2000_0000_0000_0000_0000_0000_0000_0000nat);
    lemma_power_known(
        0x3f7d_b8de, 0xfd_b8de, 125, 0x2000_0000_0000_0000_0000_0000_0000_0000nat,
        268025, 0x44_679c_45f4_33a9,
        0x1247_34f4_496b_4816_80c3_9e94_c591nat,
        269025, 0x45_2c59_9066_9ca1,
        0x12b0_eff6_c049_6d6d_d948_5020_9d41nat,
        0x3_eddb_ad38_9e99, 0xf_7026_8a90_6152_36a6_8f31_3771nat,
        0x3_eddb_b526_6589, 0xf_7026_c8de_e916_b3bc_06f1_6351nat,
    );
}

/// The codes 11 to 26.
proof fn lemma_entries_11_to_26(v: u8)
    requires
        11 <= v <= 26,
    ensures
        nearest_to_power(U8_TO_LINEAR_LUT[v as int], (1000 * v + 14025) as nat, 269025),
{
    if v == 11 {
        lemma_entry_11();
    } else if v == 12 {
        lemma_entry_12();
    } else if v == 13 {
        lemma_entry_13();
    } else if v == 14 {
        lemma_entry_14();
    } else if v == 15 {
        lemma_entry_15();
    } else if v == 16 {
        lemma_entry_16();
    } else if v == 17 {
        lemma_entry_17();
    } else if v == 18 {
        lemma_entry_18();
    } else if v == 19 {
        lemma_entry_19();
    } else if v == 20 {
        lemma_entry_20();
    } else if v == 21 {
        lemma_entry_21();
    } else if v == 22 {
        lemma_entry_22();
    } else if v == 23 {
        lemma_entry_23();
    } else if v == 24 {
        lemma_entry_24();
    } else if v == 25 {
        lemma_entry_25();
    } else {
        lemma_entry_26();
    }
}

/// The codes 27 to 42.
proof fn lemma_entries_27_to_42(v: u8)
    requires
        27 <= v <= 42,
    ensures
        nearest_to_power(U8_TO_LINEAR_LUT[v as int], (1000 * v + 14025) as nat, 269025),
{
    if v == 27 {
        lemma_entry_27();
    } else if v == 28 {
        lemma_entry_28();
    } else if v == 29 {
        lemma_entry_29();
    } else if v == 30 {
        lemma_entry_30();
    } else if v == 31 {
        lemma_entry_31();
    } else if v == 32 {
        lemma_entry_32();
    } else if v == 33 {
        lemma_entry_33();
    } else if v == 34 {
        lemma_entry_34();
    } else if v == 35 {
        lemma_entry_35();
    } else if v == 36 {
        lemma_entry_36();
    } else if v == 37 {
        lemma_entry_37();
    } else if v == 38 {
        lemma_entry_38();
    } else if v == 39 {
        lemma_entry_39();
    } else if v == 40 {
        lemma_entry_40();
    } else if v == 41 {
        lemma_entry_41();
    } else {
        lemma_entry_42();
    }
}

/// The codes 43 to 58.
proof fn lemma_entries_43_to_58(v: u8)
    requires
        43 <= v <= 58,
    ensures
        nearest_to_power(U8_TO_LINEAR_LUT[v as int], (1000 * v + 14025) as nat, 269025),
{
    if v == 43 {
        lemma_entry_43();
    } else if v == 44 {
        lemma_entry_44();
    } else if v == 45 {
        lemma_entry_45();
    } else if v == 46 {
        lemma_entry_46();
    } else if v == 47 {
        lemma_entry_47();
    } else if v == 48 {
        lemma_entry_48();
    } else if v == 49 {
        lemma_entry_49();
    } else if v == 50 {
        lemma_entry_50();
    } else if v == 51 {
        lemma_entry_51();
    } else if v == 52 {
        lemma_entry_52();
    } else if v == 53 {
        lemma_entry_53();
    } else if v == 54 {
        lemma_entry_54();
    } else if v == 55 {
        lemma_entry_55();
    } else if v == 56 {
        lemma_entry_56();
    } else if v == 57 {
        lemma_entry_57();
    } else {
        lemma_entry_58();
    }
}

/// The codes 59 to 74.
proof fn lemma_entries_59_to_74(v: u8)
    requires
        59 <= v <= 74,
    ensures
        nearest_to_power(U8_TO_LINEAR_LUT[v as int], (1000 * v + 14025) as nat, 269025),
{
    if v == 59 {
        lemma_entry_59();
    } else if v == 60 {
        lemma_entry_60();
    } else if v == 61 {
        lemma_entry_61();
    } else if v == 62 {
        lemma_entry_62();
    } else if v == 63 {
        lemma_entry_63();
    } else if v == 64 {
        lemma_entry_64();
    } else if v == 65 {
        lemma_entry_65();
    } else if v == 66 {
        lemma_entry_66();
    } else if v == 67 {
        lemma_entry_67();
    } else if v == 68 {
        lemma_entry_68();
    } else if v == 69 {
        lemma_entry_69();
    } else if v == 70 {
        lemma_entry_70();
    } else if v == 71 {
        lemma_entry_71();
    } else if v == 72 {
        lemma_entry_72();
    } else if v == 73 {
        lemma_entry_73();
    } else {
        lemma_entry_74();
    }
}

/// The codes 75 to 90.
proof fn lemma_entries_75_to_90(v: u8)
    requires
        75 <= v <= 90,
    ensures
        nearest_to_power(U8_TO_LINEAR_LUT[v as int], (1000 * v + 14025) as nat, 269025),
{
    if v == 75 {
        lemma_entry_75();
    } else if v == 76 {
        lemma_entry_76();
    } else if v == 77 {
        lemma_entry_77();
    } else if v == 78 {
        lemma_entry_78();
    } else if v == 79 {
        lemma_entry_79();
    } else if v == 80 {
        lemma_entry_80();
    } else if v == 81 {
        lemma_entry_81();
    } else if v == 82 {
        lemma_entry_82();
    } else if v == 83 {
        lemma_entry_83();
    } else if v == 84 {
        lemma_entry_84();
    } else if v == 85 {
        lemma_entry_85();
    } else if v == 86 {
        lemma_entry_86();
    } else if v == 87 {
        lemma_entry_87();
    } else if v == 88 {
        lemma_entry_88();
    } else if v == 89 {
        lemma_entry_89();
    } else {
        lemma_entry_90();
    }
}

/// The codes 91 to 106.
proof fn lemma_entries_91_to_106(v: u8)
    requires
        91 <= v <= 106,
    ensures
        nearest_to_power(U8_TO_LINEAR_LUT[v as int], (1000 * v + 14025) as nat, 269025),
{
    if v == 91 {
        lemma_entry_91();
    } else if v == 92 {
        lemma_entry_92();
    } else if v == 93 {
        lemma_entry_93();
    } else if v == 94 {
        lemma_entry_94();
    } else if v == 95 {
        lemma_entry_95();
    } else if v == 96 {
        lemma_entry_96();
    } else if v == 97 {
        lemma_entry_97();
    } else if v == 98 {
        lemma_entry_98();
    } else if v == 99 {
        lemma_entry_99();
    } else if v == 100 {
        lemma_entry_100();
    } else if v == 101 {
        lemma_entry_101();
    } else if v == 102 {
        lemma_entry_102();
    } else if v == 103 {
        lemma_entry_103();
    } else if v == 104 {
        lemma_entry_104();
    } else if v == 105 {
        lemma_entry_105();
    } else {
        lemma_entry_106();
    }
}

/// The codes 107 to 122.
proof fn lemma_entries_107_to_122(v: u8)
    requires
        107 <= v <= 122,
    ensures
        nearest_to_power(U8_TO_LINEAR_LUT[v as int], (1000 * v + 14025) as nat, 269025),
{
    if v == 107 {
        lemma_entry_107();
    } else if v == 108 {
        lemma_entry_108();
    } else if v == 109 {
        lemma_entry_109();
    } else if v == 110 {
        lemma_entry_110();
    } else if v == 111 {
        lemma_entry_111();
    } else if v == 112 {
        lemma_entry_112();
    } else if v == 113 {
        lemma_entry_113();
    } else if v == 114 {
        lemma_entry_114();
    } else if v == 115 {
        lemma_entry_115();
    } else if v == 116 {
        lemma_entry_116();
    } else if v == 117 {
        lemma_entry_117();
    } else if v == 118 {
        lemma_entry_118();
    } else if v == 119 {
        lemma_entry_119();
    } else if v == 120 {
        lemma_entry_120();
    } else if v == 121 {
        lemma_entry_121();
    } else {
        lemma_entry_122();
    }
}

/// The codes 123 to 138.
proof fn lemma_entries_123_to_138(v: u8)
    requires
        123 <= v <= 138,
    ensures
        nearest_to_power(U8_TO_LINEAR_LUT[v as int], (1000 * v + 14025) as nat, 269025),
{
    if v == 123 {
        lemma_entry_123();
    } else if v == 124 {
        lemma_entry_124();
    } else if v == 125 {
        lemma_entry_125();
    } else if v == 126 {
        lemma_entry_126();
    } else if v == 127 {
        lemma_entry_127();
    } else if v == 128 {
        lemma_entry_128();
    } else if v == 129 {
        lemma_entry_129();
    } else if v == 130 {
        lemma_entry_130();
    } else if v == 131 {
        lemma_entry_131();
    } else if v == 132 {
        lemma_entry_132();
    } else if v == 133 {
        lemma_entry_133();
    } else if v == 134 {
        lemma_entry_134();
    } else if v == 135 {
        lemma_entry_135();
    } else if v == 136 {
        lemma_entry_136();
    } else if v == 137 {
        lemma_entry_137();
    } else {
        lemma_entry_138();
    }
}

/// The codes 139 to 154.
proof fn lemma_entries_139_to_154(v: u8)
    requires
        139 <= v <= 154,
    ensures
        nearest_to_power(U8_TO_LINEAR_LUT[v as int], (1000 * v + 14025) as nat, 269025),
{
    if v == 139 {
        lemma_entry_139();
    } else if v == 140 {
        lemma_entry_140();
    } else if v == 141 {
        lemma_entry_141();
    } else if v == 142 {
        lemma_entry_142();
    } else if v == 143 {
        lemma_entry_143();
    } else if v == 144 {
        lemma_entry_144();
    } else if v == 145 {
        lemma_entry_145();
    } else if v == 146 {
        lemma_entry_146();
    } else if v == 147 {
        lemma_entry_147();
    } else if v == 148 {
        lemma_entry_148();
    } else if v == 149 {
        lemma_entry_149();
    } else if v == 150 {
        lemma_entry_150();
    } else if v == 151 {
        lemma_entry_151();
    } else if v == 152 {
        lemma_entry_152();
    } else if v == 153 {
        lemma_entry_153();
    } else {
        lemma_entry_154();
    }
}

/// The codes 155 to 170.
proof fn lemma_entries_155_to_170(v: u8)
    requires
        155 <= v <= 170,
    ensures
        nearest_to_power(U8_TO_LINEAR_LUT[v as int], (1000 * v + 14025) as nat, 269025),
{
    if v == 155 {
        lemma_entry_155();
    } else if v == 156 {
        lemma_entry_156();
    } else if v == 157 {
        lemma_entry_157();
    } else if v == 158 {
        lemma_entry_158();
    } else if v == 159 {
        lemma_entry_159();
    } else if v == 160 {
        lemma_entry_160();
    } else if v == 161 {
        lemma_entry_161();
    } else if v == 162 {
        lemma_entry_162();
    } else if v == 163 {
        lemma_entry_163();
    } else if v == 164 {
        lemma_entry_164();
    } else if v == 165 {
        lemma_entry_165();
    } else if v == 166 {
        lemma_entry_166();
    } else if v == 167 {
        lemma_entry_167();
    } else if v == 168 {
        lemma_entry_168();
    } else if v == 169 {
        lemma_entry_169();
    } else {
        lemma_entry_170();
    }
}

/// The codes 171 to 186.
proof fn lemma_entries_171_to_186(v: u8)
    requires
        171 <= v <= 186,
    ensures
        nearest_to_power(U8_TO_LINEAR_LUT[v as int], (1000 * v + 14025) as nat, 269025),
{
    if v == 171 {
        lemma_entry_171();
    } else if v == 172 {
        lemma_entry_172();
    } else if v == 173 {
        lemma_entry_173();
    } else if v == 174 {
        lemma_entry_174();
    } else if v == 175 {
        lemma_entry_175();
    } else if v == 176 {
        lemma_entry_176();
    } else if v == 177 {
        lemma_entry_177();
    } else if v == 178 {
        lemma_entry_178();
    } else if v == 179 {
        lemma_entry_179();
    } else if v == 180 {
        lemma_entry_180();
    } else if v == 181 {
        lemma_entry_181();
    } else if v == 182 {
        lemma_entry_182();
    } else if v == 183 {
        lemma_entry_183();
    } else if v == 184 {
        lemma_entry_184();
    } else if v == 185 {
        lemma_entry_185();
    } else {
        lemma_entry_186();
    }
}

/// The codes 187 to 202.
proof fn lemma_entries_187_to_202(v: u8)
    requires
        187 <= v <= 202,
    ensures
        nearest_to_power(U8_TO_LINEAR_LUT[v as int], (1000 * v + 14025) as nat, 269025),
{
    if v == 187 {
        lemma_entry_187();
    } else if v == 188 {
        lemma_entry_188();
    } else if v == 189 {
        lemma_entry_189();
    } else if v == 190 {
        lemma_entry_190();
    } else if v == 191 {
        lemma_entry_191();
    } else if v == 192 {
        lemma_entry_192();
    } else if v == 193 {
        lemma_entry_193();
    } else if v == 194 {
        lemma_entry_194();
    } else if v == 195 {
        lemma_entry_195();
    } else if v == 196 {
        lemma_entry_196();
    } else if v == 197 {
        lemma_entry_197();
    } else if v == 198 {
        lemma_entry_198();
    } else if v == 199 {
        lemma_entry_199();
    } else if v == 200 {
        lemma_entry_200();
    } else if v == 201 {
        lemma_entry_201();
    } else {
        lemma_entry_202();
    }
}

/// The codes 203 to 218.
proof fn lemma_entries_203_to_218(v: u8)
    requires
        203 <= v <= 218,
    ensures
        nearest_to_power(U8_TO_LINEAR_LUT[v as int], (1000 * v + 14025) as nat, 269025),
{
    if v == 203 {
        lemma_entry_203();
    } else if v == 204 {
        lemma_entry_204();
    } else if v == 205 {
        lemma_entry_205();
    } else if v == 206 {
        lemma_entry_206();
    } else if v == 207 {
        lemma_entry_207();
    } else if v == 208 {
        lemma_entry_208();
    } else if v == 209 {
        lemma_entry_209();
    } else if v == 210 {
        lemma_entry_210();
    } else if v == 211 {
        lemma_entry_211();
    } else if v == 212 {
        lemma_entry_212();
    } else if v == 213 {
        lemma_entry_213();
    } else if v == 214 {
        lemma_entry_214();
    } else if v == 215 {
        lemma_entry_215();
    } else if v == 216 {
        lemma_entry_216();
    } else if v == 217 {
        lemma_entry_217();
    } else {
        lemma_entry_218();
    }
}

/// The codes 219 to 234.
proof fn lemma_entries_219_to_234(v: u8)
    requires
        219 <= v <= 234,
    ensures
        nearest_to_power(U8_TO_LINEAR_LUT[v as int], (1000 * v + 14025) as nat, 269025),
{
    if v == 219 {
        lemma_entry_219();
    } else if v == 220 {
        lemma_entry_220();
    } else if v == 221 {
        lemma_entry_221();
    } else if v == 222 {
        lemma_entry_222();
    } else if v == 223 {
        lemma_entry_223();
    } else if v == 224 {
        lemma_entry_224();
    } else if v == 225 {
        lemma_entry_225();
    } else if v == 226 {
        lemma_entry_226();
    } else if v == 227 {
        lemma_entry_227();
    } else if v == 228 {
        lemma_entry_228();
    } else if v == 229 {
        lemma_entry_229();
    } else if v == 230 {
        lemma_entry_230();
    } else if v == 231 {
        lemma_entry_231();
    } else if v == 232 {
        lemma_entry_232();
    } else if v == 233 {
        lemma_entry_233();
    } else {
        lemma_entry_234();
    }
}

/// The codes 235 to 250.
proof fn lemma_entries_235_to_250(v: u8)
    requires
        235 <= v <= 250,
    ensures
        nearest_to_power(U8_TO_LINEAR_LUT[v as int], (1000 * v + 14025) as nat, 269025),
{
    if v == 235 {
        lemma_entry_235();
    } else if v == 236 {
        lemma_entry_236();
    } else if v == 237 {
        lemma_entry_237();
    } else if v == 238 {
        lemma_entry_238();
    } else if v == 239 {
        lemma_entry_239();
    } else if v == 240 {
        lemma_entry_240();
    } else if v == 241 {
        lemma_entry_241();
    } else if v == 242 {
        lemma_entry_242();
    } else if v == 243 {
        lemma_entry_243();
    } else if v == 244 {
        lemma_entry_244();
    } else if v == 245 {
        lemma_entry_245();
    } else if v == 246 {
        lemma_entry_246();
    } else if v == 247 {
        lemma_entry_247();
    } else if v == 248 {
        lemma_entry_248();
    } else if v == 249 {
        lemma_entry_249();
    } else {
        lemma_entry_250();
    }
}

/// The codes 251 to 254.
proof fn lemma_entries_251_to_254(v: u8)
    requires
        251 <= v <= 254,
    ensures
        nearest_to_power(U8_TO_LINEAR_LUT[v as int], (1000 * v + 14025) as nat, 269025),
{
    if v == 251 {
        lemma_entry_251();
    } else if v == 252 {
        lemma_entry_252();
    } else if v == 253 {
        lemma_entry_253();
    } else {
        lemma_entry_254();
    }
}

/// The expansion table follows the sRGB formula.
pub proof fn lemma_expand_u8_follows_the_formula(v: u8)
    ensures
        v <= 10 ==> U8_TO_LINEAR_LUT[v as int] == div_spec(number((10 * v) as nat), number(32946)),
        10 < v < 255 ==> nearest_to_power(
            U8_TO_LINEAR_LUT[v as int],
            (1000 * v + 14025) as nat,
            269025,
        ),
        v == 255 ==> U8_TO_LINEAR_LUT[v as int] == ONE,
{
    if v == 0 {
        lemma_entry_0();
    } else if v == 1 {
        lemma_entry_1();
    } else if v == 2 {
        lemma_entry_2();
    } else if v == 3 {
        lemma_entry_3();
    } else if v == 4 {
        lemma_entry_4();
    } else if v == 5 {
        lemma_entry_5();
    } else if v == 6 {
        lemma_entry_6();
    } else if v == 7 {
        lemma_entry_7();
    } else if v == 8 {
        lemma_entry_8();
    } else if v == 9 {
        lemma_entry_9();
    } else if v == 10 {
        lemma_entry_10();
    } else if v <= 26 {
        lemma_entries_11_to_26(v);
    } else if v <= 42 {
        lemma_entries_27_to_42(v);
    } else if v <= 58 {
        lemma_entries_43_to_58(v);
    } else if v <= 74 {
        lemma_entries_59_to_74(v);
    } else if v <= 90 {
        lemma_entries_75_to_90(v);
    } else if v <= 106 {
        lemma_entries_91_to_106(v);
    } else if v <= 122 {
        lemma_entries_107_to_122(v);
    } else if v <= 138 {
        lemma_entries_123_to_138(v);
    } else if v <= 154 {
        lemma_entries_139_to_154(v);
    } else if v <= 170 {
        lemma_entries_155_to_170(v);
    } else if v <= 186 {
        lemma_entries_171_to_186(v);
    } else if v <= 202 {
        lemma_entries_187_to_202(v);
    } else if v <= 218 {
        lemma_entries_203_to_218(v);
    } else if v <= 234 {
        lemma_entries_219_to_234(v);
    } else if v <= 250 {
        lemma_entries_235_to_250(v);
    } else if v <= 254 {
        lemma_entries_251_to_254(v);
    }
}

} // verus!
