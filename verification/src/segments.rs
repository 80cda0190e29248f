//! The chords of the fast compression join: the chord over each sample
//! interval ends at the height at which the next one begins.  Each
//! interval is one calculation, carried out on the numbers of the table.

use vstd::prelude::*;
use vstd::arithmetic::power2::{lemma2_to64, lemma2_to64_rest};
use crate::arith::{add_spec, mul_spec, div_spec, sub_spec};
use crate::gamma::chord_end;
use crate::known::{
    lemma_high_powers, lemma_product_known, lemma_quotient_known, lemma_sum_known,
};
use crate::rising::segment_closes;

verus! {

/// The chord over interval 0.
proof fn lemma_chord_0()
    ensures
        chord_end(0x3b4d_5e8d, 0x3b55_5e8d, 0x412d_7cbd, 0x4133_f4c4) == 0x4133_f4c4,
{
    reveal(chord_end);
    lemma2_to64();
    lemma2_to64_rest();
    lemma_high_powers();
    assert(0xd5_5e8d * 0x1 - 0xcd_5e8d * 0x1 == 0x8_0000);
    lemma_sum_known(0x3b55_5e8d, 0x3b4d_5e8d, true, 0xd5_5e8d, 117, 0xcd_5e8d, 117, 0x1, 0x1, 0x8_0000, 20, 0x8_0000, 0x10);
    assert(sub_spec(0x3b55_5e8d, 0x3b4d_5e8d) == 0x3900_0000);
    assert(0xb3_f4c4 * 0x1 - 0xad_7cbd * 0x1 == 0x6_7807);
    lemma_sum_known(0x4133_f4c4, 0x412d_7cbd, true, 0xb3_f4c4, 129, 0xad_7cbd, 129, 0x1, 0x1, 0x6_7807, 19, 0x4_0000, 0x20);
    assert(sub_spec(0x4133_f4c4, 0x412d_7cbd) == 0x3ecf_00e0);
    assert(0xcf_00e0 * 0x80_0000 == 0x6780_7000_0000);
    lemma_product_known(0x3ecf_00e0, 0x3900_0000, 0xcf_00e0, 124, 0x80_0000, 113, 0x6780_7000_0000, 47, 0x4000_0000_0000, 0x80_0000);
    assert(mul_spec(0x3ecf_00e0, 0x3900_0000) == 0x384f_00e0);
    assert(0xcf_00e0 * 0x1_0000_0000_0000_0000 == 0x1_9e01_c000_0000_0000 * 0x80_0000 + 0x0);
    lemma_quotient_known(0x384f_00e0, 0x3900_0000, 0xcf_00e0, 111, 0x80_0000, 113, 0x1_9e01_c000_0000_0000, 0x0, 66, 0x2_0000_0000_0000_0000, 0x400_0000_0000);
    assert(div_spec(0x384f_00e0, 0x3900_0000) == 0x3ecf_00e0);
    assert(0xad_7cbd * 0x20 + 0xcf_00e0 * 0x1 == 0x167e_9880);
    lemma_sum_known(0x412d_7cbd, 0x3ecf_00e0, false, 0xad_7cbd, 129, 0xcf_00e0, 124, 0x20, 0x1, 0x167e_9880, 29, 0x1000_0000, 0x20);
}

/// The chord over interval 1.
proof fn lemma_chord_1()
    ensures
        chord_end(0x3b55_5e8d, 0x3b5d_5e8d, 0x4133_f4c4, 0x4139_8cfd) == 0x4139_8cfd,
{
    reveal(chord_end);
    lemma2_to64();
    lemma2_to64_rest();
    lemma_high_powers();
    assert(0xdd_5e8d * 0x1 - 0xd5_5e8d * 0x1 == 0x8_0000);
    lemma_sum_known(0x3b5d_5e8d, 0x3b55_5e8d, true, 0xdd_5e8d, 117, 0xd5_5e8d, 117, 0x1, 0x1, 0x8_0000, 20, 0x8_0000, 0x10);
    assert(sub_spec(0x3b5d_5e8d, 0x3b55_5e8d) == 0x3900_0000);
    assert(0xb9_8cfd * 0x1 - 0xb3_f4c4 * 0x1 == 0x5_9839);
    lemma_sum_known(0x4139_8cfd, 0x4133_f4c4, true, 0xb9_8cfd, 129, 0xb3_f4c4, 129, 0x1, 0x1, 0x5_9839, 19, 0x4_0000, 0x20);
    assert(sub_spec(0x4139_8cfd, 0x4133_f4c4) == 0x3eb3_0720);
    assert(0xb3_0720 * 0x80_0000 == 0x5983_9000_0000);
    lemma_product_known(0x3eb3_0720, 0x3900_0000, 0xb3_0720, 124, 0x80_0000, 113, 0x5983_9000_0000, 47, 0x4000_0000_0000, 0x80_0000);
    assert(mul_spec(0x3eb3_0720, 0x3900_0000) == 0x3833_0720);
    assert(0xb3_0720 * 0x1_0000_0000_0000_0000 == 0x1_660e_4000_0000_0000 * 0x80_0000 + 0x0);
    lemma_quotient_known(0x3833_0720, 0x3900_0000, 0xb3_0720, 111, 0x80_0000, 113, 0x1_660e_4000_0000_0000, 0x0, 66, 0x2_0000_0000_0000_0000, 0x400_0000_0000);
    assert(div_spec(0x3833_0720, 0x3900_0000) == 0x3eb3_0720);
    assert(0xb3_f4c4 * 0x20 + 0xb3_0720 * 0x1 == 0x1731_9fa0);
    lemma_sum_known(0x4133_f4c4, 0x3eb3_0720, false, 0xb3_f4c4, 129, 0xb3_0720, 124, 0x20, 0x1, 0x1731_9fa0, 29, 0x1000_0000, 0x20);
}

/// The chord over interval 2.
proof fn lemma_chord_2()
    ensures
        chord_end(0x3b5d_5e8d, 0x3b65_5e8d, 0x4139_8cfd, 0x413f_9846) == 0x413f_9846,
{
    reveal(chord_end);
    lemma2_to64();
    lemma2_to64_rest();
    lemma_high_powers();
    assert(0xe5_5e8d * 0x1 - 0xdd_5e8d * 0x1 == 0x8_0000);
    lemma_sum_known(0x3b65_5e8d, 0x3b5d_5e8d, true, 0xe5_5e8d, 117, 0xdd_5e8d, 117, 0x1, 0x1, 0x8_0000, 20, 0x8_0000, 0x10);
    assert(sub_spec(0x3b65_5e8d, 0x3b5d_5e8d) == 0x3900_0000);
    assert(0xbf_9846 * 0x1 - 0xb9_8cfd * 0x1 == 0x6_0b49);
    lemma_sum_known(0x413f_9846, 0x4139_8cfd, true, 0xbf_9846, 129, 0xb9_8cfd, 129, 0x1, 0x1, 0x6_0b49, 19, 0x4_0000, 0x20);
    assert(sub_spec(0x413f_9846, 0x4139_8cfd) == 0x3ec1_6920);
    assert(0xc1_6920 * 0x80_0000 == 0x60b4_9000_0000);
    lemma_product_known(0x3ec1_6920, 0x3900_0000, 0xc1_6920, 124, 0x80_0000, 113, 0x60b4_9000_0000, 47, 0x4000_0000_0000, 0x80_0000);
    assert(mul_spec(0x3ec1_6920, 0x3900_0000) == 0x3841_6920);
    assert(0xc1_6920 * 0x1_0000_0000_0000_0000 == 0x1_82d2_4000_0000_0000 * 0x80_0000 + 0x0);
    lemma_quotient_known(0x3841_6920, 0x3900_0000, 0xc1_6920, 111, 0x80_0000, 113, 0x1_82d2_4000_0000_0000, 0x0, 66, 0x2_0000_0000_0000_0000, 0x400_0000_0000);
    assert(div_spec(0x3841_6920, 0x3900_0000) == 0x3ec1_6920);
    assert(0xb9_8cfd * 0x20 + 0xc1_6920 * 0x1 == 0x17f3_08c0);
    lemma_sum_known(0x4139_8cfd, 0x3ec1_6920, false, 0xb9_8cfd, 129, 0xc1_6920, 124, 0x20, 0x1, 0x17f3_08c0, 29, 0x1000_0000, 0x20);
}

/// The chord over interval 3.
proof fn lemma_chord_3()
    ensures
        chord_end(0x3b65_5e8d, 0x3b6d_5e8d, 0x413f_9846, 0x4145_909d) == 0x4145_909d,
{
    reveal(chord_end);
    lemma2_to64();
    lemma2_to64_rest();
    lemma_high_powers();
    assert(0xed_5e8d * 0x1 - 0xe5_5e8d * 0x1 == 0x8_0000);
    lemma_sum_known(0x3b6d_5e8d, 0x3b65_5e8d, true, 0xed_5e8d, 117, 0xe5_5e8d, 117, 0x1, 0x1, 0x8_0000, 20, 0x8_0000, 0x10);
    assert(sub_spec(0x3b6d_5e8d, 0x3b65_5e8d) == 0x3900_0000);
    assert(0xc5_909d * 0x1 - 0xbf_9846 * 0x1 == 0x5_f857);
    lemma_sum_known(0x4145_909d, 0x413f_9846, true, 0xc5_909d, 129, 0xbf_9846, 129, 0x1, 0x1, 0x5_f857, 19, 0x4_0000, 0x20);
    assert(sub_spec(0x4145_909d, 0x413f_9846) == 0x3ebf_0ae0);
    assert(0xbf_0ae0 * 0x80_0000 == 0x5f85_7000_0000);
    lemma_product_known(0x3ebf_0ae0, 0x3900_0000, 0xbf_0ae0, 124, 0x80_0000, 113, 0x5f85_7000_0000, 47, 0x4000_0000_0000, 0x80_0000);
    assert(mul_spec(0x3ebf_0ae0, 0x3900_0000) == 0x383f_0ae0);
    assert(0xbf_0ae0 * 0x1_0000_0000_0000_0000 == 0x1_7e15_c000_0000_0000 * 0x80_0000 + 0x0);
    lemma_quotient_known(0x383f_0ae0, 0x3900_0000, 0xbf_0ae0, 111, 0x80_0000, 113, 0x1_7e15_c000_0000_0000, 0x0, 66, 0x2_0000_0000_0000_0000, 0x400_0000_0000);
    assert(div_spec(0x383f_0ae0, 0x3900_0000) == 0x3ebf_0ae0);
    assert(0xbf_9846 * 0x20 + 0xbf_0ae0 * 0x1 == 0x18b2_13a0);
    lemma_sum_known(0x413f_9846, 0x3ebf_0ae0, false, 0xbf_9846, 129, 0xbf_0ae0, 124, 0x20, 0x1, 0x18b2_13a0, 29, 0x1000_0000, 0x20);
}

/// The chord over interval 4.
proof fn lemma_chord_4()
    ensures
        chord_end(0x3b6d_5e8d, 0x3b75_5e8d, 0x4145_909d, 0x414b_a25f) == 0x414b_a25f,
{
    reveal(chord_end);
    lemma2_to64();
    lemma2_to64_rest();
    lemma_high_powers();
    assert(0xf5_5e8d * 0x1 - 0xed_5e8d * 0x1 == 0x8_0000);
    lemma_sum_known(0x3b75_5e8d, 0x3b6d_5e8d, true, 0xf5_5e8d, 117, 0xed_5e8d, 117, 0x1, 0x1, 0x8_0000, 20, 0x8_0000, 0x10);
    assert(sub_spec(0x3b75_5e8d, 0x3b6d_5e8d) == 0x3900_0000);
    assert(0xcb_a25f * 0x1 - 0xc5_909d * 0x1 == 0x6_11c2);
    lemma_sum_known(0x414b_a25f, 0x4145_909d, true, 0xcb_a25f, 129, 0xc5_909d, 129, 0x1, 0x1, 0x6_11c2, 19, 0x4_0000, 0x20);
    assert(sub_spec(0x414b_a25f, 0x4145_909d) == 0x3ec2_3840);
    assert(0xc2_3840 * 0x80_0000 == 0x611c_2000_0000);
    lemma_product_known(0x3ec2_3840, 0x3900_0000, 0xc2_3840, 124, 0x80_0000, 113, 0x611c_2000_0000, 47, 0x4000_0000_0000, 0x80_0000);
    assert(mul_spec(0x3ec2_3840, 0x3900_0000) == 0x3842_3840);
    assert(0xc2_3840 * 0x1_0000_0000_0000_0000 == 0x1_8470_8000_0000_0000 * 0x80_0000 + 0x0);
    lemma_quotient_known(0x3842_3840, 0x3900_0000, 0xc2_3840, 111, 0x80_0000, 113, 0x1_8470_8000_0000_0000, 0x0, 66, 0x2_0000_0000_0000_0000, 0x400_0000_0000);
    assert(div_spec(0x3842_3840, 0x3900_0000) == 0x3ec2_3840);
    assert(0xc5_909d * 0x20 + 0xc2_3840 * 0x1 == 0x1974_4be0);
    lemma_sum_known(0x4145_909d, 0x3ec2_3840, false, 0xc5_909d, 129, 0xc2_3840, 124, 0x20, 0x1, 0x1974_4be0, 29, 0x1000_0000, 0x20);
}

/// The chord over interval 5.
proof fn lemma_chord_5()
    ensures
        chord_end(0x3b75_5e8d, 0x3b7d_5e8d, 0x414b_a25f, 0x4151_8227) == 0x4151_8227,
{
    reveal(chord_end);
    lemma2_to64();
    lemma2_to64_rest();
    lemma_high_powers();
    assert(0xfd_5e8d * 0x1 - 0xf5_5e8d * 0x1 == 0x8_0000);
    lemma_sum_known(0x3b7d_5e8d, 0x3b75_5e8d, true, 0xfd_5e8d, 117, 0xf5_5e8d, 117, 0x1, 0x1, 0x8_0000, 20, 0x8_0000, 0x10);
    assert(sub_spec(0x3b7d_5e8d, 0x3b75_5e8d) == 0x3900_0000);
    assert(0xd1_8227 * 0x1 - 0xcb_a25f * 0x1 == 0x5_dfc8);
    lemma_sum_known(0x4151_8227, 0x414b_a25f, true, 0xd1_8227, 129, 0xcb_a25f, 129, 0x1, 0x1, 0x5_dfc8, 19, 0x4_0000, 0x20);
    assert(sub_spec(0x4151_8227, 0x414b_a25f) == 0x3ebb_f900);
    assert(0xbb_f900 * 0x80_0000 == 0x5dfc_8000_0000);
    lemma_product_known(0x3ebb_f900, 0x3900_0000, 0xbb_f900, 124, 0x80_0000, 113, 0x5dfc_8000_0000, 47, 0x4000_0000_0000, 0x80_0000);
    assert(mul_spec(0x3ebb_f900, 0x3900_0000) == 0x383b_f900);
    assert(0xbb_f900 * 0x1_0000_0000_0000_0000 == 0x1_77f2_0000_0000_0000 * 0x80_0000 + 0x0);
    lemma_quotient_known(0x383b_f900, 0x3900_0000, 0xbb_f900, 111, 0x80_0000, 113, 0x1_77f2_0000_0000_0000, 0x0, 66, 0x2_0000_0000_0000_0000, 0x400_0000_0000);
    assert(div_spec(0x383b_f900, 0x3900_0000) == 0x3ebb_f900);
    assert(0xcb_a25f * 0x20 + 0xbb_f900 * 0x1 == 0x1a30_44e0);
    lemma_sum_known(0x414b_a25f, 0x3ebb_f900, false, 0xcb_a25f, 129, 0xbb_f900, 124, 0x20, 0x1, 0x1a30_44e0, 29, 0x1000_0000, 0x20);
}

/// The chord over interval 6.
proof fn lemma_chord_6()
    ensures
        chord_end(0x3b7d_5e8d, 0x3b85_5e8d, 0x4151_8227, 0x415a_357d) == 0x415a_357d,
{
    reveal(chord_end);
    lemma2_to64();
    lemma2_to64_rest();
    lemma_high_powers();
    assert(0x85_5e8d * 0x2 - 0xfd_5e8d * 0x1 == 0xd_5e8d);
    lemma_sum_known(0x3b85_5e8d, 0x3b7d_5e8d, true, 0x85_5e8d, 118, 0xfd_5e8d, 117, 0x2, 0x1, 0xd_5e8d, 20, 0x8_0000, 0x10);
    assert(sub_spec(0x3b85_5e8d, 0x3b7d_5e8d) == 0x3955_e8d0);
    assert(0xda_357d * 0x1 - 0xd1_8227 * 0x1 == 0x8_b356);
    lemma_sum_known(0x415a_357d, 0x4151_8227, true, 0xda_357d, 129, 0xd1_8227, 129, 0x1, 0x1, 0x8_b356, 20, 0x8_0000, 0x10);
    assert(sub_spec(0x415a_357d, 0x4151_8227) == 0x3f0b_3560);
    assert(0x8b_3560 * 0xd5_e8d0 == 0x7452_025a_5e00);
    lemma_product_known(0x3f0b_3560, 0x3955_e8d0, 0x8b_3560, 125, 0xd5_e8d0, 113, 0x7452_025a_5e00, 47, 0x4000_0000_0000, 0x80_0000);
    assert(mul_spec(0x3f0b_3560, 0x3955_e8d0) == 0x38e8_a405);
    assert(0xe8_a405 * 0x1_0000_0000_0000_0000 == 0x1_166a_c05a_1354_7cab * 0xd5_e8d0 + 0x18_bd10);
    lemma_quotient_known(0x38e8_a405, 0x3955_e8d0, 0xe8_a405, 112, 0xd5_e8d0, 113, 0x1_166a_c05a_1354_7cab, 0x18_bd10, 66, 0x2_0000_0000_0000_0000, 0x400_0000_0000);
    assert(div_spec(0x38e8_a405, 0x3955_e8d0) == 0x3f0b_3560);
    assert(0xd1_8227 * 0x10 + 0x8b_3560 * 0x1 == 0xda3_57d0);
    lemma_sum_known(0x4151_8227, 0x3f0b_3560, false, 0xd1_8227, 129, 0x8b_3560, 125, 0x10, 0x1, 0xda3_57d0, 28, 0x800_0000, 0x10);
}

/// The chord over interval 7.
proof fn lemma_chord_7()
    ensures
        chord_end(0x3b85_5e8d, 0x3b8d_5e8d, 0x415a_357d, 0x4164_afdf) == 0x4164_afdf,
{
    reveal(chord_end);
    lemma2_to64();
    lemma2_to64_rest();
    lemma_high_powers();
    assert(0x8d_5e8d * 0x1 - 0x85_5e8d * 0x1 == 0x8_0000);
    lemma_sum_known(0x3b8d_5e8d, 0x3b85_5e8d, true, 0x8d_5e8d, 118, 0x85_5e8d, 118, 0x1, 0x1, 0x8_0000, 20, 0x8_0000, 0x10);
    assert(sub_spec(0x3b8d_5e8d, 0x3b85_5e8d) == 0x3980_0000);
    assert(0xe4_afdf * 0x1 - 0xda_357d * 0x1 == 0xa_7a62);
    lemma_sum_known(0x4164_afdf, 0x415a_357d, true, 0xe4_afdf, 129, 0xda_357d, 129, 0x1, 0x1, 0xa_7a62, 20, 0x8_0000, 0x10);
    assert(sub_spec(0x4164_afdf, 0x415a_357d) == 0x3f27_a620);
    assert(0xa7_a620 * 0x80_0000 == 0x53d3_1000_0000);
    lemma_product_known(0x3f27_a620, 0x3980_0000, 0xa7_a620, 125, 0x80_0000, 114, 0x53d3_1000_0000, 47, 0x4000_0000_0000, 0x80_0000);
    assert(mul_spec(0x3f27_a620, 0x3980_0000) == 0x3927_a620);
    assert(0xa7_a620 * 0x1_0000_0000_0000_0000 == 0x1_4f4c_4000_0000_0000 * 0x80_0000 + 0x0);
    lemma_quotient_known(0x3927_a620, 0x3980_0000, 0xa7_a620, 113, 0x80_0000, 114, 0x1_4f4c_4000_0000_0000, 0x0, 66, 0x2_0000_0000_0000_0000, 0x400_0000_0000);
    assert(div_spec(0x3927_a620, 0x3980_0000) == 0x3f27_a620);
    assert(0xda_357d * 0x10 + 0xa7_a620 * 0x1 == 0xe4a_fdf0);
    lemma_sum_known(0x415a_357d, 0x3f27_a620, false, 0xda_357d, 129, 0xa7_a620, 125, 0x10, 0x1, 0xe4a_fdf0, 28, 0x800_0000, 0x10);
}

/// The chord over interval 8.
proof fn lemma_chord_8()
    ensures
        chord_end(0x3b8d_5e8d, 0x3b95_5e8d, 0x4164_afdf, 0x416e_c765) == 0x416e_c765,
{
    reveal(chord_end);
    lemma2_to64();
    lemma2_to64_rest();
    lemma_high_powers();
    assert(0x95_5e8d * 0x1 - 0x8d_5e8d * 0x1 == 0x8_0000);
    lemma_sum_known(0x3b95_5e8d, 0x3b8d_5e8d, true, 0x95_5e8d, 118, 0x8d_5e8d, 118, 0x1, 0x1, 0x8_0000, 20, 0x8_0000, 0x10);
    assert(sub_spec(0x3b95_5e8d, 0x3b8d_5e8d) == 0x3980_0000);
    assert(0xee_c765 * 0x1 - 0xe4_afdf * 0x1 == 0xa_1786);
    lemma_sum_known(0x416e_c765, 0x4164_afdf, true, 0xee_c765, 129, 0xe4_afdf, 129, 0x1, 0x1, 0xa_1786, 20, 0x8_0000, 0x10);
    assert(sub_spec(0x416e_c765, 0x4164_afdf) == 0x3f21_7860);
    assert(0xa1_7860 * 0x80_0000 == 0x50bc_3000_0000);
    lemma_product_known(0x3f21_7860, 0x3980_0000, 0xa1_7860, 125, 0x80_0000, 114, 0x50bc_3000_0000, 47, 0x4000_0000_0000, 0x80_0000);
    assert(mul_spec(0x3f21_7860, 0x3980_0000) == 0x3921_7860);
    assert(0xa1_7860 * 0x1_0000_0000_0000_0000 == 0x1_42f0_c000_0000_0000 * 0x80_0000 + 0x0);
    lemma_quotient_known(0x3921_7860, 0x3980_0000, 0xa1_7860, 113, 0x80_0000, 114, 0x1_42f0_c000_0000_0000, 0x0, 66, 0x2_0000_0000_0000_0000, 0x400_0000_0000);
    assert(div_spec(0x3921_7860, 0x3980_0000) == 0x3f21_7860);
    assert(0xe4_afdf * 0x10 + 0xa1_7860 * 0x1 == 0xeec_7650);
    lemma_sum_known(0x4164_afdf, 0x3f21_7860, false, 0xe4_afdf, 129, 0xa1_7860, 125, 0x10, 0x1, 0xeec_7650, 28, 0x800_0000, 0x10);
}

/// The chord over interval 9.
proof fn lemma_chord_9()
    ensures
        chord_end(0x3b95_5e8d, 0x3b9d_5e8d, 0x416e_c765, 0x4179_1f3d) == 0x4179_1f3d,
{
    reveal(chord_end);
    lemma2_to64();
    lemma2_to64_rest();
    lemma_high_powers();
    assert(0x9d_5e8d * 0x1 - 0x95_5e8d * 0x1 == 0x8_0000);
    lemma_sum_known(0x3b9d_5e8d, 0x3b95_5e8d, true, 0x9d_5e8d, 118, 0x95_5e8d, 118, 0x1, 0x1, 0x8_0000, 20, 0x8_0000, 0x10);
    assert(sub_spec(0x3b9d_5e8d, 0x3b95_5e8d) == 0x3980_0000);
    assert(0xf9_1f3d * 0x1 - 0xee_c765 * 0x1 == 0xa_57d8);
    lemma_sum_known(0x4179_1f3d, 0x416e_c765, true, 0xf9_1f3d, 129, 0xee_c765, 129, 0x1, 0x1, 0xa_57d8, 20, 0x8_0000, 0x10);
    assert(sub_spec(0x4179_1f3d, 0x416e_c765) == 0x3f25_7d80);
    assert(0xa5_7d80 * 0x80_0000 == 0x52be_c000_0000);
    lemma_product_known(0x3f25_7d80, 0x3980_0000, 0xa5_7d80, 125, 0x80_0000, 114, 0x52be_c000_0000, 47, 0x4000_0000_0000, 0x80_0000);
    assert(mul_spec(0x3f25_7d80, 0x3980_0000) == 0x3925_7d80);
    assert(0xa5_7d80 * 0x1_0000_0000_0000_0000 == 0x1_4afb_0000_0000_0000 * 0x80_0000 + 0x0);
    lemma_quotient_known(0x3925_7d80, 0x3980_0000, 0xa5_7d80, 113, 0x80_0000, 114, 0x1_4afb_0000_0000_0000, 0x0, 66, 0x2_0000_0000_0000_0000, 0x400_0000_0000);
    assert(div_spec(0x3925_7d80, 0x3980_0000) == 0x3f25_7d80);
    assert(0xee_c765 * 0x10 + 0xa5_7d80 * 0x1 == 0xf91_f3d0);
    lemma_sum_known(0x416e_c765, 0x3f25_7d80, false, 0xee_c765, 129, 0xa5_7d80, 125, 0x10, 0x1, 0xf91_f3d0, 28, 0x800_0000, 0x10);
}

/// The chord over interval 10.
proof fn lemma_chord_10()
    ensures
        chord_end(0x3b9d_5e8d, 0x3ba5_5e8d, 0x4179_1f3d, 0x4181_adb6) == 0x4181_adb6,
{
    reveal(chord_end);
    lemma2_to64();
    lemma2_to64_rest();
    lemma_high_powers();
    assert(0xa5_5e8d * 0x1 - 0x9d_5e8d * 0x1 == 0x8_0000);
    lemma_sum_known(0x3ba5_5e8d, 0x3b9d_5e8d, true, 0xa5_5e8d, 118, 0x9d_5e8d, 118, 0x1, 0x1, 0x8_0000, 20, 0x8_0000, 0x10);
    assert(sub_spec(0x3ba5_5e8d, 0x3b9d_5e8d) == 0x3980_0000);
    assert(0x81_adb6 * 0x2 - 0xf9_1f3d * 0x1 == 0xa_3c2f);
    lemma_sum_known(0x4181_adb6, 0x4179_1f3d, true, 0x81_adb6, 130, 0xf9_1f3d, 129, 0x2, 0x1, 0xa_3c2f, 20, 0x8_0000, 0x10);
    assert(sub_spec(0x4181_adb6, 0x4179_1f3d) == 0x3f23_c2f0);
    assert(0xa3_c2f0 * 0x80_0000 == 0x51e1_7800_0000);
    lemma_product_known(0x3f23_c2f0, 0x3980_0000, 0xa3_c2f0, 125, 0x80_0000, 114, 0x51e1_7800_0000, 47, 0x4000_0000_0000, 0x80_0000);
    assert(mul_spec(0x3f23_c2f0, 0x3980_0000) == 0x3923_c2f0);
    assert(0xa3_c2f0 * 0x1_0000_0000_0000_0000 == 0x1_4785_e000_0000_0000 * 0x80_0000 + 0x0);
    lemma_quotient_known(0x3923_c2f0, 0x3980_0000, 0xa3_c2f0, 113, 0x80_0000, 114, 0x1_4785_e000_0000_0000, 0x0, 66, 0x2_0000_0000_0000_0000, 0x400_0000_0000);
    assert(div_spec(0x3923_c2f0, 0x3980_0000) == 0x3f23_c2f0);
    assert(0xf9_1f3d * 0x10 + 0xa3_c2f0 * 0x1 == 0x1035_b6c0);
    lemma_sum_known(0x4179_1f3d, 0x3f23_c2f0, false, 0xf9_1f3d, 129, 0xa3_c2f0, 125, 0x10, 0x1, 0x1035_b6c0, 29, 0x1000_0000, 0x20);
}

/// The chord over interval 11.
proof fn lemma_chord_11()
    ensures
        chord_end(0x3ba5_5e8d, 0x3bad_5e8d, 0x4181_adb6, 0x4186_1da3) == 0x4186_1da3,
{
    reveal(chord_end);
    lemma2_to64();
    lemma2_to64_rest();
    lemma_high_powers();
    assert(0xad_5e8d * 0x1 - 0xa5_5e8d * 0x1 == 0x8_0000);
    lemma_sum_known(0x3bad_5e8d, 0x3ba5_5e8d, true, 0xad_5e8d, 118, 0xa5_5e8d, 118, 0x1, 0x1, 0x8_0000, 20, 0x8_0000, 0x10);
    assert(sub_spec(0x3bad_5e8d, 0x3ba5_5e8d) == 0x3980_0000);
    assert(0x86_1da3 * 0x1 - 0x81_adb6 * 0x1 == 0x4_6fed);
    lemma_sum_known(0x4186_1da3, 0x4181_adb6, true, 0x86_1da3, 130, 0x81_adb6, 130, 0x1, 0x1, 0x4_6fed, 19, 0x4_0000, 0x20);
    assert(sub_spec(0x4186_1da3, 0x4181_adb6) == 0x3f0d_fda0);
    assert(0x8d_fda0 * 0x80_0000 == 0x46fe_d000_0000);
    lemma_product_known(0x3f0d_fda0, 0x3980_0000, 0x8d_fda0, 125, 0x80_0000, 114, 0x46fe_d000_0000, 47, 0x4000_0000_0000, 0x80_0000);
    assert(mul_spec(0x3f0d_fda0, 0x3980_0000) == 0x390d_fda0);
    assert(0x8d_fda0 * 0x1_0000_0000_0000_0000 == 0x1_1bfb_4000_0000_0000 * 0x80_0000 + 0x0);
    lemma_quotient_known(0x390d_fda0, 0x3980_0000, 0x8d_fda0, 113, 0x80_0000, 114, 0x1_1bfb_4000_0000_0000, 0x0, 66, 0x2_0000_0000_0000_0000, 0x400_0000_0000);
    assert(div_spec(0x390d_fda0, 0x3980_0000) == 0x3f0d_fda0);
    assert(0x81_adb6 * 0x20 + 0x8d_fda0 * 0x1 == 0x10c3_b460);
    lemma_sum_known(0x4181_adb6, 0x3f0d_fda0, false, 0x81_adb6, 130, 0x8d_fda0, 125, 0x20, 0x1, 0x10c3_b460, 29, 0x1000_0000, 0x20);
}

/// The chord over interval 12.
proof fn lemma_chord_12()
    ensures
        chord_end(0x3bad_5e8d, 0x3bb5_5e8d, 0x4186_1da3, 0x418a_b2b2) == 0x418a_b2b2,
{
    reveal(chord_end);
    lemma2_to64();
    lemma2_to64_rest();
    lemma_high_powers();
    assert(0xb5_5e8d * 0x1 - 0xad_5e8d * 0x1 == 0x8_0000);
    lemma_sum_known(0x3bb5_5e8d, 0x3bad_5e8d, true, 0xb5_5e8d, 118, 0xad_5e8d, 118, 0x1, 0x1, 0x8_0000, 20, 0x8_0000, 0x10);
    assert(sub_spec(0x3bb5_5e8d, 0x3bad_5e8d) == 0x3980_0000);
    assert(0x8a_b2b2 * 0x1 - 0x86_1da3 * 0x1 == 0x4_950f);
    lemma_sum_known(0x418a_b2b2, 0x4186_1da3, true, 0x8a_b2b2, 130, 0x86_1da3, 130, 0x1, 0x1, 0x4_950f, 19, 0x4_0000, 0x20);
    assert(sub_spec(0x418a_b2b2, 0x4186_1da3) == 0x3f12_a1e0);
    assert(0x92_a1e0 * 0x80_0000 == 0x4950_f000_0000);
    lemma_product_known(0x3f12_a1e0, 0x3980_0000, 0x92_a1e0, 125, 0x80_0000, 114, 0x4950_f000_0000, 47, 0x4000_0000_0000, 0x80_0000);
    assert(mul_spec(0x3f12_a1e0, 0x3980_0000) == 0x3912_a1e0);
    assert(0x92_a1e0 * 0x1_0000_0000_0000_0000 == 0x1_2543_c000_0000_0000 * 0x80_0000 + 0x0);
    lemma_quotient_known(0x3912_a1e0, 0x3980_0000, 0x92_a1e0, 113, 0x80_0000, 114, 0x1_2543_c000_0000_0000, 0x0, 66, 0x2_0000_0000_0000_0000, 0x400_0000_0000);
    assert(div_spec(0x3912_a1e0, 0x3980_0000) == 0x3f12_a1e0);
    assert(0x86_1da3 * 0x20 + 0x92_a1e0 * 0x1 == 0x1156_5640);
    lemma_sum_known(0x4186_1da3, 0x3f12_a1e0, false, 0x86_1da3, 130, 0x92_a1e0, 125, 0x20, 0x1, 0x1156_5640, 29, 0x1000_0000, 0x20);
}

/// The chord over interval 13.
proof fn lemma_chord_13()
    ensures
        chord_end(0x3bb5_5e8d, 0x3bbd_5e8d, 0x418a_b2b2, 0x418f_2bbc) == 0x418f_2bbc,
{
    reveal(chord_end);
    lemma2_to64();
    lemma2_to64_rest();
    lemma_high_powers();
    assert(0xbd_5e8d * 0x1 - 0xb5_5e8d * 0x1 == 0x8_0000);
    lemma_sum_known(0x3bbd_5e8d, 0x3bb5_5e8d, true, 0xbd_5e8d, 118, 0xb5_5e8d, 118, 0x1, 0x1, 0x8_0000, 20, 0x8_0000, 0x10);
    assert(sub_spec(0x3bbd_5e8d, 0x3bb5_5e8d) == 0x3980_0000);
    assert(0x8f_2bbc * 0x1 - 0x8a_b2b2 * 0x1 == 0x4_790a);
    lemma_sum_known(0x418f_2bbc, 0x418a_b2b2, true, 0x8f_2bbc, 130, 0x8a_b2b2, 130, 0x1, 0x1, 0x4_790a, 19, 0x4_0000, 0x20);
    assert(sub_spec(0x418f_2bbc, 0x418a_b2b2) == 0x3f0f_2140);
    assert(0x8f_2140 * 0x80_0000 == 0x4790_a000_0000);
    lemma_product_known(0x3f0f_2140, 0x3980_0000, 0x8f_2140, 125, 0x80_0000, 114, 0x4790_a000_0000, 47, 0x4000_0000_0000, 0x80_0000);
    assert(mul_spec(0x3f0f_2140, 0x3980_0000) == 0x390f_2140);
    assert(0x8f_2140 * 0x1_0000_0000_0000_0000 == 0x1_1e42_8000_0000_0000 * 0x80_0000 + 0x0);
    lemma_quotient_known(0x390f_2140, 0x3980_0000, 0x8f_2140, 113, 0x80_0000, 114, 0x1_1e42_8000_0000_0000, 0x0, 66, 0x2_0000_0000_0000_0000, 0x400_0000_0000);
    assert(div_spec(0x390f_2140, 0x3980_0000) == 0x3f0f_2140);
    assert(0x8a_b2b2 * 0x20 + 0x8f_2140 * 0x1 == 0x11e5_7780);
    lemma_sum_known(0x418a_b2b2, 0x3f0f_2140, false, 0x8a_b2b2, 130, 0x8f_2140, 125, 0x20, 0x1, 0x11e5_7780, 29, 0x1000_0000, 0x20);
}

/// The chord over interval 14.
proof fn lemma_chord_14()
    ensures
        chord_end(0x3bbd_5e8d, 0x3bc5_5e8d, 0x418f_2bbc, 0x4193_cd32) == 0x4193_cd32,
{
    reveal(chord_end);
    lemma2_to64();
    lemma2_to64_rest();
    lemma_high_powers();
    assert(0xc5_5e8d * 0x1 - 0xbd_5e8d * 0x1 == 0x8_0000);
    lemma_sum_known(0x3bc5_5e8d, 0x3bbd_5e8d, true, 0xc5_5e8d, 118, 0xbd_5e8d, 118, 0x1, 0x1, 0x8_0000, 20, 0x8_0000, 0x10);
    assert(sub_spec(0x3bc5_5e8d, 0x3bbd_5e8d) == 0x3980_0000);
    assert(0x93_cd32 * 0x1 - 0x8f_2bbc * 0x1 == 0x4_a176);
    lemma_sum_known(0x4193_cd32, 0x418f_2bbc, true, 0x93_cd32, 130, 0x8f_2bbc, 130, 0x1, 0x1, 0x4_a176, 19, 0x4_0000, 0x20);
    assert(sub_spec(0x4193_cd32, 0x418f_2bbc) == 0x3f14_2ec0);
    assert(0x94_2ec0 * 0x80_0000 == 0x4a17_6000_0000);
    lemma_product_known(0x3f14_2ec0, 0x3980_0000, 0x94_2ec0, 125, 0x80_0000, 114, 0x4a17_6000_0000, 47, 0x4000_0000_0000, 0x80_0000);
    assert(mul_spec(0x3f14_2ec0, 0x3980_0000) == 0x3914_2ec0);
    assert(0x94_2ec0 * 0x1_0000_0000_0000_0000 == 0x1_285d_8000_0000_0000 * 0x80_0000 + 0x0);
    lemma_quotient_known(0x3914_2ec0, 0x3980_0000, 0x94_2ec0, 113, 0x80_0000, 114, 0x1_285d_8000_0000_0000, 0x0, 66, 0x2_0000_0000_0000_0000, 0x400_0000_0000);
    assert(div_spec(0x3914_2ec0, 0x3980_0000) == 0x3f14_2ec0);
    assert(0x8f_2bbc * 0x20 + 0x94_2ec0 * 0x1 == 0x1279_a640);
    lemma_sum_known(0x418f_2bbc, 0x3f14_2ec0, false, 0x8f_2bbc, 130, 0x94_2ec0, 125, 0x20, 0x1, 0x1279_a640, 29, 0x1000_0000, 0x20);
}

/// The chord over interval 15.
proof fn lemma_chord_15()
    ensures
        chord_end(0x3bc5_5e8d, 0x3bcd_5e8d, 0x4193_cd32, 0x4198_0568) == 0x4198_0568,
{
    reveal(chord_end);
    lemma2_to64();
    lemma2_to64_rest();
    lemma_high_powers();
    assert(0xcd_5e8d * 0x1 - 0xc5_5e8d * 0x1 == 0x8_0000);
    lemma_sum_known(0x3bcd_5e8d, 0x3bc5_5e8d, true, 0xcd_5e8d, 118, 0xc5_5e8d, 118, 0x1, 0x1, 0x8_0000, 20, 0x8_0000, 0x10);
    assert(sub_spec(0x3bcd_5e8d, 0x3bc5_5e8d) == 0x3980_0000);
    assert(0x98_0568 * 0x1 - 0x93_cd32 * 0x1 == 0x4_3836);
    lemma_sum_known(0x4198_0568, 0x4193_cd32, true, 0x98_0568, 130, 0x93_cd32, 130, 0x1, 0x1, 0x4_3836, 19, 0x4_0000, 0x20);
    assert(sub_spec(0x4198_0568, 0x4193_cd32) == 0x3f07_06c0);
    assert(0x87_06c0 * 0x80_0000 == 0x4383_6000_0000);
    lemma_product_known(0x3f07_06c0, 0x3980_0000, 0x87_06c0, 125, 0x80_0000, 114, 0x4383_6000_0000, 47, 0x4000_0000_0000, 0x80_0000);
    assert(mul_spec(0x3f07_06c0, 0x3980_0000) == 0x3907_06c0);
    assert(0x87_06c0 * 0x1_0000_0000_0000_0000 == 0x1_0e0d_8000_0000_0000 * 0x80_0000 + 0x0);
    lemma_quotient_known(0x3907_06c0, 0x3980_0000, 0x87_06c0, 113, 0x80_0000, 114, 0x1_0e0d_8000_0000_0000, 0x0, 66, 0x2_0000_0000_0000_0000, 0x400_0000_0000);
    assert(div_spec(0x3907_06c0, 0x3980_0000) == 0x3f07_06c0);
    assert(0x93_cd32 * 0x20 + 0x87_06c0 * 0x1 == 0x1300_ad00);
    lemma_sum_known(0x4193_cd32, 0x3f07_06c0, false, 0x93_cd32, 130, 0x87_06c0, 125, 0x20, 0x1, 0x1300_ad00, 29, 0x1000_0000, 0x20);
}

/// The chord over interval 16.
proof fn lemma_chord_16()
    ensures
        chord_end(0x3bcd_5e8d, 0x3bd5_5e8d, 0x4198_0568, 0x419c_2ef9) == 0x419c_2ef9,
{
    reveal(chord_end);
    lemma2_to64();
    lemma2_to64_rest();
    lemma_high_powers();
    assert(0xd5_5e8d * 0x1 - 0xcd_5e8d * 0x1 == 0x8_0000);
    lemma_sum_known(0x3bd5_5e8d, 0x3bcd_5e8d, true, 0xd5_5e8d, 118, 0xcd_5e8d, 118, 0x1, 0x1, 0x8_0000, 20, 0x8_0000, 0x10);
    assert(sub_spec(0x3bd5_5e8d, 0x3bcd_5e8d) == 0x3980_0000);
    assert(0x9c_2ef9 * 0x1 - 0x98_0568 * 0x1 == 0x4_2991);
    lemma_sum_known(0x419c_2ef9, 0x4198_0568, true, 0x9c_2ef9, 130, 0x98_0568, 130, 0x1, 0x1, 0x4_2991, 19, 0x4_0000, 0x20);
    assert(sub_spec(0x419c_2ef9, 0x4198_0568) == 0x3f05_3220);
    assert(0x85_3220 * 0x80_0000 == 0x4299_1000_0000);
    lemma_product_known(0x3f05_3220, 0x3980_0000, 0x85_3220, 125, 0x80_0000, 114, 0x4299_1000_0000, 47, 0x4000_0000_0000, 0x80_0000);
    assert(mul_spec(0x3f05_3220, 0x3980_0000) == 0x3905_3220);
    assert(0x85_3220 * 0x1_0000_0000_0000_0000 == 0x1_0a64_4000_0000_0000 * 0x80_0000 + 0x0);
    lemma_quotient_known(0x3905_3220, 0x3980_0000, 0x85_3220, 113, 0x80_0000, 114, 0x1_0a64_4000_0000_0000, 0x0, 66, 0x2_0000_0000_0000_0000, 0x400_0000_0000);
    assert(div_spec(0x3905_3220, 0x3980_0000) == 0x3f05_3220);
    assert(0x98_0568 * 0x20 + 0x85_3220 * 0x1 == 0x1385_df20);
    lemma_sum_known(0x4198_0568, 0x3f05_3220, false, 0x98_0568, 130, 0x85_3220, 125, 0x20, 0x1, 0x1385_df20, 29, 0x1000_0000, 0x20);
}

/// The chord over interval 17.
proof fn lemma_chord_17()
    ensures
        chord_end(0x3bd5_5e8d, 0x3bdd_5e8d, 0x419c_2ef9, 0x41a0_5477) == 0x41a0_5477,
{
    reveal(chord_end);
    lemma2_to64();
    lemma2_to64_rest();
    lemma_high_powers();
    assert(0xdd_5e8d * 0x1 - 0xd5_5e8d * 0x1 == 0x8_0000);
    lemma_sum_known(0x3bdd_5e8d, 0x3bd5_5e8d, true, 0xdd_5e8d, 118, 0xd5_5e8d, 118, 0x1, 0x1, 0x8_0000, 20, 0x8_0000, 0x10);
    assert(sub_spec(0x3bdd_5e8d, 0x3bd5_5e8d) == 0x3980_0000);
    assert(0xa0_5477 * 0x1 - 0x9c_2ef9 * 0x1 == 0x4_257e);
    lemma_sum_known(0x41a0_5477, 0x419c_2ef9, true, 0xa0_5477, 130, 0x9c_2ef9, 130, 0x1, 0x1, 0x4_257e, 19, 0x4_0000, 0x20);
    assert(sub_spec(0x41a0_5477, 0x419c_2ef9) == 0x3f04_afc0);
    assert(0x84_afc0 * 0x80_0000 == 0x4257_e000_0000);
    lemma_product_known(0x3f04_afc0, 0x3980_0000, 0x84_afc0, 125, 0x80_0000, 114, 0x4257_e000_0000, 47, 0x4000_0000_0000, 0x80_0000);
    assert(mul_spec(0x3f04_afc0, 0x3980_0000) == 0x3904_afc0);
    assert(0x84_afc0 * 0x1_0000_0000_0000_0000 == 0x1_095f_8000_0000_0000 * 0x80_0000 + 0x0);
    lemma_quotient_known(0x3904_afc0, 0x3980_0000, 0x84_afc0, 113, 0x80_0000, 114, 0x1_095f_8000_0000_0000, 0x0, 66, 0x2_0000_0000_0000_0000, 0x400_0000_0000);
    assert(div_spec(0x3904_afc0, 0x3980_0000) == 0x3f04_afc0);
    assert(0x9c_2ef9 * 0x20 + 0x84_afc0 * 0x1 == 0x140a_8ee0);
    lemma_sum_known(0x419c_2ef9, 0x3f04_afc0, false, 0x9c_2ef9, 130, 0x84_afc0, 125, 0x20, 0x1, 0x140a_8ee0, 29, 0x1000_0000, 0x20);
}

/// The chord over interval 18.
proof fn lemma_chord_18()
    ensures
        chord_end(0x3bdd_5e8d, 0x3be5_5e8d, 0x41a0_5477, 0x41a3_906f) == 0x41a3_906f,
{
    reveal(chord_end);
    lemma2_to64();
    lemma2_to64_rest();
    lemma_high_powers();
    assert(0xe5_5e8d * 0x1 - 0xdd_5e8d * 0x1 == 0x8_0000);
    lemma_sum_known(0x3be5_5e8d, 0x3bdd_5e8d, true, 0xe5_5e8d, 118, 0xdd_5e8d, 118, 0x1, 0x1, 0x8_0000, 20, 0x8_0000, 0x10);
    assert(sub_spec(0x3be5_5e8d, 0x3bdd_5e8d) == 0x3980_0000);
    assert(0xa3_906f * 0x1 - 0xa0_5477 * 0x1 == 0x3_3bf8);
    lemma_sum_known(0x41a3_906f, 0x41a0_5477, true, 0xa3_906f, 130, 0xa0_5477, 130, 0x1, 0x1, 0x3_3bf8, 18, 0x2_0000, 0x40);
    assert(sub_spec(0x41a3_906f, 0x41a0_5477) == 0x3ece_fe00);
    assert(0xce_fe00 * 0x80_0000 == 0x677f_0000_0000);
    lemma_product_known(0x3ece_fe00, 0x3980_0000, 0xce_fe00, 124, 0x80_0000, 114, 0x677f_0000_0000, 47, 0x4000_0000_0000, 0x80_0000);
    assert(mul_spec(0x3ece_fe00, 0x3980_0000) == 0x38ce_fe00);
    assert(0xce_fe00 * 0x1_0000_0000_0000_0000 == 0x1_9dfc_0000_0000_0000 * 0x80_0000 + 0x0);
    lemma_quotient_known(0x38ce_fe00, 0x3980_0000, 0xce_fe00, 112, 0x80_0000, 114, 0x1_9dfc_0000_0000_0000, 0x0, 66, 0x2_0000_0000_0000_0000, 0x400_0000_0000);
    assert(div_spec(0x38ce_fe00, 0x3980_0000) == 0x3ece_fe00);
    assert(0xa0_5477 * 0x40 + 0xce_fe00 * 0x1 == 0x28e4_1bc0);
    lemma_sum_known(0x41a0_5477, 0x3ece_fe00, false, 0xa0_5477, 130, 0xce_fe00, 124, 0x40, 0x1, 0x28e4_1bc0, 30, 0x2000_0000, 0x40);
}

/// The chord over interval 19.
proof fn lemma_chord_19()
    ensures
        chord_end(0x3be5_5e8d, 0x3bed_5e8d, 0x41a3_906f, 0x41a8_0de9) == 0x41a8_0de9,
{
    reveal(chord_end);
    lemma2_to64();
    lemma2_to64_rest();
    lemma_high_powers();
    assert(0xed_5e8d * 0x1 - 0xe5_5e8d * 0x1 == 0x8_0000);
    lemma_sum_known(0x3bed_5e8d, 0x3be5_5e8d, true, 0xed_5e8d, 118, 0xe5_5e8d, 118, 0x1, 0x1, 0x8_0000, 20, 0x8_0000, 0x10);
    assert(sub_spec(0x3bed_5e8d, 0x3be5_5e8d) == 0x3980_0000);
    assert(0xa8_0de9 * 0x1 - 0xa3_906f * 0x1 == 0x4_7d7a);
    lemma_sum_known(0x41a8_0de9, 0x41a3_906f, true, 0xa8_0de9, 130, 0xa3_906f, 130, 0x1, 0x1, 0x4_7d7a, 19, 0x4_0000, 0x20);
    assert(sub_spec(0x41a8_0de9, 0x41a3_906f) == 0x3f0f_af40);
    assert(0x8f_af40 * 0x80_0000 == 0x47d7_a000_0000);
    lemma_product_known(0x3f0f_af40, 0x3980_0000, 0x8f_af40, 125, 0x80_0000, 114, 0x47d7_a000_0000, 47, 0x4000_0000_0000, 0x80_0000);
    assert(mul_spec(0x3f0f_af40, 0x3980_0000) == 0x390f_af40);
    assert(0x8f_af40 * 0x1_0000_0000_0000_0000 == 0x1_1f5e_8000_0000_0000 * 0x80_0000 + 0x0);
    lemma_quotient_known(0x390f_af40, 0x3980_0000, 0x8f_af40, 113, 0x80_0000, 114, 0x1_1f5e_8000_0000_0000, 0x0, 66, 0x2_0000_0000_0000_0000, 0x400_0000_0000);
    assert(div_spec(0x390f_af40, 0x3980_0000) == 0x3f0f_af40);
    assert(0xa3_906f * 0x20 + 0x8f_af40 * 0x1 == 0x1501_bd20);
    lemma_sum_known(0x41a3_906f, 0x3f0f_af40, false, 0xa3_906f, 130, 0x8f_af40, 125, 0x20, 0x1, 0x1501_bd20, 29, 0x1000_0000, 0x20);
}

/// The chord over interval 20.
proof fn lemma_chord_20()
    ensures
        chord_end(0x3bed_5e8d, 0x3bf5_5e8d, 0x41a8_0de9, 0x41ab_c359) == 0x41ab_c359,
{
    reveal(chord_end);
    lemma2_to64();
    lemma2_to64_rest();
    lemma_high_powers();
    assert(0xf5_5e8d * 0x1 - 0xed_5e8d * 0x1 == 0x8_0000);
    lemma_sum_known(0x3bf5_5e8d, 0x3bed_5e8d, true, 0xf5_5e8d, 118, 0xed_5e8d, 118, 0x1, 0x1, 0x8_0000, 20, 0x8_0000, 0x10);
    assert(sub_spec(0x3bf5_5e8d, 0x3bed_5e8d) == 0x3980_0000);
    assert(0xab_c359 * 0x1 - 0xa8_0de9 * 0x1 == 0x3_b570);
    lemma_sum_known(0x41ab_c359, 0x41a8_0de9, true, 0xab_c359, 130, 0xa8_0de9, 130, 0x1, 0x1, 0x3_b570, 18, 0x2_0000, 0x40);
    assert(sub_spec(0x41ab_c359, 0x41a8_0de9) == 0x3eed_5c00);
    assert(0xed_5c00 * 0x80_0000 == 0x76ae_0000_0000);
    lemma_product_known(0x3eed_5c00, 0x3980_0000, 0xed_5c00, 124, 0x80_0000, 114, 0x76ae_0000_0000, 47, 0x4000_0000_0000, 0x80_0000);
    assert(mul_spec(0x3eed_5c00, 0x3980_0000) == 0x38ed_5c00);
    assert(0xed_5c00 * 0x1_0000_0000_0000_0000 == 0x1_dab8_0000_0000_0000 * 0x80_0000 + 0x0);
    lemma_quotient_known(0x38ed_5c00, 0x3980_0000, 0xed_5c00, 112, 0x80_0000, 114, 0x1_dab8_0000_0000_0000, 0x0, 66, 0x2_0000_0000_0000_0000, 0x400_0000_0000);
    assert(div_spec(0x38ed_5c00, 0x3980_0000) == 0x3eed_5c00);
    assert(0xa8_0de9 * 0x40 + 0xed_5c00 * 0x1 == 0x2af0_d640);
    lemma_sum_known(0x41a8_0de9, 0x3eed_5c00, false, 0xa8_0de9, 130, 0xed_5c00, 124, 0x40, 0x1, 0x2af0_d640, 30, 0x2000_0000, 0x40);
}

/// The chord over interval 21.
proof fn lemma_chord_21()
    ensures
        chord_end(0x3bf5_5e8d, 0x3bfd_5e8d, 0x41ab_c359, 0x41af_a86c) == 0x41af_a86c,
{
    reveal(chord_end);
    lemma2_to64();
    lemma2_to64_rest();
    lemma_high_powers();
    assert(0xfd_5e8d * 0x1 - 0xf5_5e8d * 0x1 == 0x8_0000);
    lemma_sum_known(0x3bfd_5e8d, 0x3bf5_5e8d, true, 0xfd_5e8d, 118, 0xf5_5e8d, 118, 0x1, 0x1, 0x8_0000, 20, 0x8_0000, 0x10);
    assert(sub_spec(0x3bfd_5e8d, 0x3bf5_5e8d) == 0x3980_0000);
    assert(0xaf_a86c * 0x1 - 0xab_c359 * 0x1 == 0x3_e513);
    lemma_sum_known(0x41af_a86c, 0x41ab_c359, true, 0xaf_a86c, 130, 0xab_c359, 130, 0x1, 0x1, 0x3_e513, 18, 0x2_0000, 0x40);
    assert(sub_spec(0x41af_a86c, 0x41ab_c359) == 0x3ef9_44c0);
    assert(0xf9_44c0 * 0x80_0000 == 0x7ca2_6000_0000);
    lemma_product_known(0x3ef9_44c0, 0x3980_0000, 0xf9_44c0, 124, 0x80_0000, 114, 0x7ca2_6000_0000, 47, 0x4000_0000_0000, 0x80_0000);
    assert(mul_spec(0x3ef9_44c0, 0x3980_0000) == 0x38f9_44c0);
    assert(0xf9_44c0 * 0x1_0000_0000_0000_0000 == 0x1_f289_8000_0000_0000 * 0x80_0000 + 0x0);
    lemma_quotient_known(0x38f9_44c0, 0x3980_0000, 0xf9_44c0, 112, 0x80_0000, 114, 0x1_f289_8000_0000_0000, 0x0, 66, 0x2_0000_0000_0000_0000, 0x400_0000_0000);
    assert(div_spec(0x38f9_44c0, 0x3980_0000) == 0x3ef9_44c0);
    assert(0xab_c359 * 0x40 + 0xf9_44c0 * 0x1 == 0x2bea_1b00);
    lemma_sum_known(0x41ab_c359, 0x3ef9_44c0, false, 0xab_c359, 130, 0xf9_44c0, 124, 0x40, 0x1, 0x2bea_1b00, 30, 0x2000_0000, 0x40);
}

/// The chord over interval 22.
proof fn lemma_chord_22()
    ensures
        chord_end(0x3bfd_5e8d, 0x3c05_5e8d, 0x41af_a86c, 0x41b5_ed23) == 0x41b5_ed23,
{
    reveal(chord_end);
    lemma2_to64();
    lemma2_to64_rest();
    lemma_high_powers();
    assert(0x85_5e8d * 0x2 - 0xfd_5e8d * 0x1 == 0xd_5e8d);
    lemma_sum_known(0x3c05_5e8d, 0x3bfd_5e8d, true, 0x85_5e8d, 119, 0xfd_5e8d, 118, 0x2, 0x1, 0xd_5e8d, 20, 0x8_0000, 0x10);
    assert(sub_spec(0x3c05_5e8d, 0x3bfd_5e8d) == 0x39d5_e8d0);
    assert(0xb5_ed23 * 0x1 - 0xaf_a86c * 0x1 == 0x6_44b7);
    lemma_sum_known(0x41b5_ed23, 0x41af_a86c, true, 0xb5_ed23, 130, 0xaf_a86c, 130, 0x1, 0x1, 0x6_44b7, 19, 0x4_0000, 0x20);
    assert(sub_spec(0x41b5_ed23, 0x41af_a86c) == 0x3f48_96e0);
    assert(0xc8_96e0 * 0xd5_e8d0 == 0xa79b_f415_9600);
    lemma_product_known(0x3f48_96e0, 0x39d5_e8d0, 0xc8_96e0, 125, 0xd5_e8d0, 114, 0xa79b_f415_9600, 48, 0x8000_0000_0000, 0x100_0000);
    assert(mul_spec(0x3f48_96e0, 0x39d5_e8d0) == 0x39a7_9bf4);
    assert(0xa7_9bf4 * 0x1_0000_0000_0000_0000 == 0xc896_dfe6_2aa8_a8da * 0xd5_e8d0 + 0x8f_3ee0);
    lemma_quotient_known(0x39a7_9bf4, 0x39d5_e8d0, 0xa7_9bf4, 114, 0xd5_e8d0, 114, 0xc896_dfe6_2aa8_a8da, 0x8f_3ee0, 65, 0x1_0000_0000_0000_0000, 0x200_0000_0000);
    assert(div_spec(0x39a7_9bf4, 0x39d5_e8d0) == 0x3f48_96e0);
    assert(0xaf_a86c * 0x20 + 0xc8_96e0 * 0x1 == 0x16bd_a460);
    lemma_sum_known(0x41af_a86c, 0x3f48_96e0, false, 0xaf_a86c, 130, 0xc8_96e0, 125, 0x20, 0x1, 0x16bd_a460, 29, 0x1000_0000, 0x20);
}

/// The chord over interval 23.
proof fn lemma_chord_23()
    ensures
        chord_end(0x3c05_5e8d, 0x3c0d_5e8d, 0x41b5_ed23, 0x41bd_0980) == 0x41bd_0980,
{
    reveal(chord_end);
    lemma2_to64();
    lemma2_to64_rest();
    lemma_high_powers();
    assert(0x8d_5e8d * 0x1 - 0x85_5e8d * 0x1 == 0x8_0000);
    lemma_sum_known(0x3c0d_5e8d, 0x3c05_5e8d, true, 0x8d_5e8d, 119, 0x85_5e8d, 119, 0x1, 0x1, 0x8_0000, 20, 0x8_0000, 0x10);
    assert(sub_spec(0x3c0d_5e8d, 0x3c05_5e8d) == 0x3a00_0000);
    assert(0xbd_0980 * 0x1 - 0xb5_ed23 * 0x1 == 0x7_1c5d);
    lemma_sum_known(0x41bd_0980, 0x41b5_ed23, true, 0xbd_0980, 130, 0xb5_ed23, 130, 0x1, 0x1, 0x7_1c5d, 19, 0x4_0000, 0x20);
    assert(sub_spec(0x41bd_0980, 0x41b5_ed23) == 0x3f63_8ba0);
    assert(0xe3_8ba0 * 0x80_0000 == 0x71c5_d000_0000);
    lemma_product_known(0x3f63_8ba0, 0x3a00_0000, 0xe3_8ba0, 125, 0x80_0000, 115, 0x71c5_d000_0000, 47, 0x4000_0000_0000, 0x80_0000);
    assert(mul_spec(0x3f63_8ba0, 0x3a00_0000) == 0x39e3_8ba0);
    assert(0xe3_8ba0 * 0x1_0000_0000_0000_0000 == 0x1_c717_4000_0000_0000 * 0x80_0000 + 0x0);
    lemma_quotient_known(0x39e3_8ba0, 0x3a00_0000, 0xe3_8ba0, 114, 0x80_0000, 115, 0x1_c717_4000_0000_0000, 0x0, 66, 0x2_0000_0000_0000_0000, 0x400_0000_0000);
    assert(div_spec(0x39e3_8ba0, 0x3a00_0000) == 0x3f63_8ba0);
    assert(0xb5_ed23 * 0x20 + 0xe3_8ba0 * 0x1 == 0x17a1_3000);
    lemma_sum_known(0x41b5_ed23, 0x3f63_8ba0, false, 0xb5_ed23, 130, 0xe3_8ba0, 125, 0x20, 0x1, 0x17a1_3000, 29, 0x1000_0000, 0x20);
}

/// The chord over interval 24.
proof fn lemma_chord_24()
    ensures
        chord_end(0x3c0d_5e8d, 0x3c15_5e8d, 0x41bd_0980, 0x41c4_3a11) == 0x41c4_3a11,
{
    reveal(chord_end);
    lemma2_to64();
    lemma2_to64_rest();
    lemma_high_powers();
    assert(0x95_5e8d * 0x1 - 0x8d_5e8d * 0x1 == 0x8_0000);
    lemma_sum_known(0x3c15_5e8d, 0x3c0d_5e8d, true, 0x95_5e8d, 119, 0x8d_5e8d, 119, 0x1, 0x1, 0x8_0000, 20, 0x8_0000, 0x10);
    assert(sub_spec(0x3c15_5e8d, 0x3c0d_5e8d) == 0x3a00_0000);
    assert(0xc4_3a11 * 0x1 - 0xbd_0980 * 0x1 == 0x7_3091);
    lemma_sum_known(0x41c4_3a11, 0x41bd_0980, true, 0xc4_3a11, 130, 0xbd_0980, 130, 0x1, 0x1, 0x7_3091, 19, 0x4_0000, 0x20);
    assert(sub_spec(0x41c4_3a11, 0x41bd_0980) == 0x3f66_1220);
    assert(0xe6_1220 * 0x80_0000 == 0x7309_1000_0000);
    lemma_product_known(0x3f66_1220, 0x3a00_0000, 0xe6_1220, 125, 0x80_0000, 115, 0x7309_1000_0000, 47, 0x4000_0000_0000, 0x80_0000);
    assert(mul_spec(0x3f66_1220, 0x3a00_0000) == 0x39e6_1220);
    assert(0xe6_1220 * 0x1_0000_0000_0000_0000 == 0x1_cc24_4000_0000_0000 * 0x80_0000 + 0x0);
    lemma_quotient_known(0x39e6_1220, 0x3a00_0000, 0xe6_1220, 114, 0x80_0000, 115, 0x1_cc24_4000_0000_0000, 0x0, 66, 0x2_0000_0000_0000_0000, 0x400_0000_0000);
    assert(div_spec(0x39e6_1220, 0x3a00_0000) == 0x3f66_1220);
    assert(0xbd_0980 * 0x20 + 0xe6_1220 * 0x1 == 0x1887_4220);
    lemma_sum_known(0x41bd_0980, 0x3f66_1220, false, 0xbd_0980, 130, 0xe6_1220, 125, 0x20, 0x1, 0x1887_4220, 29, 0x1000_0000, 0x20);
}

/// The chord over interval 25.
proof fn lemma_chord_25()
    ensures
        chord_end(0x3c15_5e8d, 0x3c1d_5e8d, 0x41c4_3a11, 0x41ca_c28a) == 0x41ca_c28a,
{
    reveal(chord_end);
    lemma2_to64();
    lemma2_to64_rest();
    lemma_high_powers();
    assert(0x9d_5e8d * 0x1 - 0x95_5e8d * 0x1 == 0x8_0000);
    lemma_sum_known(0x3c1d_5e8d, 0x3c15_5e8d, true, 0x9d_5e8d, 119, 0x95_5e8d, 119, 0x1, 0x1, 0x8_0000, 20, 0x8_0000, 0x10);
    assert(sub_spec(0x3c1d_5e8d, 0x3c15_5e8d) == 0x3a00_0000);
    assert(0xca_c28a * 0x1 - 0xc4_3a11 * 0x1 == 0x6_8879);
    lemma_sum_known(0x41ca_c28a, 0x41c4_3a11, true, 0xca_c28a, 130, 0xc4_3a11, 130, 0x1, 0x1, 0x6_8879, 19, 0x4_0000, 0x20);
    assert(sub_spec(0x41ca_c28a, 0x41c4_3a11) == 0x3f51_0f20);
    assert(0xd1_0f20 * 0x80_0000 == 0x6887_9000_0000);
    lemma_product_known(0x3f51_0f20, 0x3a00_0000, 0xd1_0f20, 125, 0x80_0000, 115, 0x6887_9000_0000, 47, 0x4000_0000_0000, 0x80_0000);
    assert(mul_spec(0x3f51_0f20, 0x3a00_0000) == 0x39d1_0f20);
    assert(0xd1_0f20 * 0x1_0000_0000_0000_0000 == 0x1_a21e_4000_0000_0000 * 0x80_0000 + 0x0);
    lemma_quotient_known(0x39d1_0f20, 0x3a00_0000, 0xd1_0f20, 114, 0x80_0000, 115, 0x1_a21e_4000_0000_0000, 0x0, 66, 0x2_0000_0000_0000_0000, 0x400_0000_0000);
    assert(div_spec(0x39d1_0f20, 0x3a00_0000) == 0x3f51_0f20);
    assert(0xc4_3a11 * 0x20 + 0xd1_0f20 * 0x1 == 0x1958_5140);
    lemma_sum_known(0x41c4_3a11, 0x3f51_0f20, false, 0xc4_3a11, 130, 0xd1_0f20, 125, 0x20, 0x1, 0x1958_5140, 29, 0x1000_0000, 0x20);
}

/// The chord over interval 26.
proof fn lemma_chord_26()
    ensures
        chord_end(0x3c1d_5e8d, 0x3c25_5e8d, 0x41ca_c28a, 0x41d1_34b1) == 0x41d1_34b1,
{
    reveal(chord_end);
    lemma2_to64();
    lemma2_to64_rest();
    lemma_high_powers();
    assert(0xa5_5e8d * 0x1 - 0x9d_5e8d * 0x1 == 0x8_0000);
    lemma_sum_known(0x3c25_5e8d, 0x3c1d_5e8d, true, 0xa5_5e8d, 119, 0x9d_5e8d, 119, 0x1, 0x1, 0x8_0000, 20, 0x8_0000, 0x10);
    assert(sub_spec(0x3c25_5e8d, 0x3c1d_5e8d) == 0x3a00_0000);
    assert(0xd1_34b1 * 0x1 - 0xca_c28a * 0x1 == 0x6_7227);
    lemma_sum_known(0x41d1_34b1, 0x41ca_c28a, true, 0xd1_34b1, 130, 0xca_c28a, 130, 0x1, 0x1, 0x6_7227, 19, 0x4_0000, 0x20);
    assert(sub_spec(0x41d1_34b1, 0x41ca_c28a) == 0x3f4e_44e0);
    assert(0xce_44e0 * 0x80_0000 == 0x6722_7000_0000);
    lemma_product_known(0x3f4e_44e0, 0x3a00_0000, 0xce_44e0, 125, 0x80_0000, 115, 0x6722_7000_0000, 47, 0x4000_0000_0000, 0x80_0000);
    assert(mul_spec(0x3f4e_44e0, 0x3a00_0000) == 0x39ce_44e0);
    assert(0xce_44e0 * 0x1_0000_0000_0000_0000 == 0x1_9c89_c000_0000_0000 * 0x80_0000 + 0x0);
    lemma_quotient_known(0x39ce_44e0, 0x3a00_0000, 0xce_44e0, 114, 0x80_0000, 115, 0x1_9c89_c000_0000_0000, 0x0, 66, 0x2_0000_0000_0000_0000, 0x400_0000_0000);
    assert(div_spec(0x39ce_44e0, 0x3a00_0000) == 0x3f4e_44e0);
    assert(0xca_c28a * 0x20 + 0xce_44e0 * 0x1 == 0x1a26_9620);
    lemma_sum_known(0x41ca_c28a, 0x3f4e_44e0, false, 0xca_c28a, 130, 0xce_44e0, 125, 0x20, 0x1, 0x1a26_9620, 29, 0x1000_0000, 0x20);
}

/// The chord over interval 27.
proof fn lemma_chord_27()
    ensures
        chord_end(0x3c25_5e8d, 0x3c2d_5e8d, 0x41d1_34b1, 0x41d7_7436) == 0x41d7_7436,
{
    reveal(chord_end);
    lemma2_to64();
    lemma2_to64_rest();
    lemma_high_powers();
    assert(0xad_5e8d * 0x1 - 0xa5_5e8d * 0x1 == 0x8_0000);
    lemma_sum_known(0x3c2d_5e8d, 0x3c25_5e8d, true, 0xad_5e8d, 119, 0xa5_5e8d, 119, 0x1, 0x1, 0x8_0000, 20, 0x8_0000, 0x10);
    assert(sub_spec(0x3c2d_5e8d, 0x3c25_5e8d) == 0x3a00_0000);
    assert(0xd7_7436 * 0x1 - 0xd1_34b1 * 0x1 == 0x6_3f85);
    lemma_sum_known(0x41d7_7436, 0x41d1_34b1, true, 0xd7_7436, 130, 0xd1_34b1, 130, 0x1, 0x1, 0x6_3f85, 19, 0x4_0000, 0x20);
    assert(sub_spec(0x41d7_7436, 0x41d1_34b1) == 0x3f47_f0a0);
    assert(0xc7_f0a0 * 0x80_0000 == 0x63f8_5000_0000);
    lemma_product_known(0x3f47_f0a0, 0x3a00_0000, 0xc7_f0a0, 125, 0x80_0000, 115, 0x63f8_5000_0000, 47, 0x4000_0000_0000, 0x80_0000);
    assert(mul_spec(0x3f47_f0a0, 0x3a00_0000) == 0x39c7_f0a0);
    assert(0xc7_f0a0 * 0x1_0000_0000_0000_0000 == 0x1_8fe1_4000_0000_0000 * 0x80_0000 + 0x0);
    lemma_quotient_known(0x39c7_f0a0, 0x3a00_0000, 0xc7_f0a0, 114, 0x80_0000, 115, 0x1_8fe1_4000_0000_0000, 0x0, 66, 0x2_0000_0000_0000_0000, 0x400_0000_0000);
    assert(div_spec(0x39c7_f0a0, 0x3a00_0000) == 0x3f47_f0a0);
    assert(0xd1_34b1 * 0x20 + 0xc7_f0a0 * 0x1 == 0x1aee_86c0);
    lemma_sum_known(0x41d1_34b1, 0x3f47_f0a0, false, 0xd1_34b1, 130, 0xc7_f0a0, 125, 0x20, 0x1, 0x1aee_86c0, 29, 0x1000_0000, 0x20);
}

/// The chord over interval 28.
proof fn lemma_chord_28()
    ensures
        chord_end(0x3c2d_5e8d, 0x3c35_5e8d, 0x41d7_7436, 0x41dd_8b21) == 0x41dd_8b21,
{
    reveal(chord_end);
    lemma2_to64();
    lemma2_to64_rest();
    lemma_high_powers();
    assert(0xb5_5e8d * 0x1 - 0xad_5e8d * 0x1 == 0x8_0000);
    lemma_sum_known(0x3c35_5e8d, 0x3c2d_5e8d, true, 0xb5_5e8d, 119, 0xad_5e8d, 119, 0x1, 0x1, 0x8_0000, 20, 0x8_0000, 0x10);
    assert(sub_spec(0x3c35_5e8d, 0x3c2d_5e8d) == 0x3a00_0000);
    assert(0xdd_8b21 * 0x1 - 0xd7_7436 * 0x1 == 0x6_16eb);
    lemma_sum_known(0x41dd_8b21, 0x41d7_7436, true, 0xdd_8b21, 130, 0xd7_7436, 130, 0x1, 0x1, 0x6_16eb, 19, 0x4_0000, 0x20);
    assert(sub_spec(0x41dd_8b21, 0x41d7_7436) == 0x3f42_dd60);
    assert(0xc2_dd60 * 0x80_0000 == 0x616e_b000_0000);
    lemma_product_known(0x3f42_dd60, 0x3a00_0000, 0xc2_dd60, 125, 0x80_0000, 115, 0x616e_b000_0000, 47, 0x4000_0000_0000, 0x80_0000);
    assert(mul_spec(0x3f42_dd60, 0x3a00_0000) == 0x39c2_dd60);
    assert(0xc2_dd60 * 0x1_0000_0000_0000_0000 == 0x1_85ba_c000_0000_0000 * 0x80_0000 + 0x0);
    lemma_quotient_known(0x39c2_dd60, 0x3a00_0000, 0xc2_dd60, 114, 0x80_0000, 115, 0x1_85ba_c000_0000_0000, 0x0, 66, 0x2_0000_0000_0000_0000, 0x400_0000_0000);
    assert(div_spec(0x39c2_dd60, 0x3a00_0000) == 0x3f42_dd60);
    assert(0xd7_7436 * 0x20 + 0xc2_dd60 * 0x1 == 0x1bb1_6420);
    lemma_sum_known(0x41d7_7436, 0x3f42_dd60, false, 0xd7_7436, 130, 0xc2_dd60, 125, 0x20, 0x1, 0x1bb1_6420, 29, 0x1000_0000, 0x20);
}

/// The chord over interval 29.
proof fn lemma_chord_29()
    ensures
        chord_end(0x3c35_5e8d, 0x3c3d_5e8d, 0x41dd_8b21, 0x41e3_a2c0) == 0x41e3_a2c0,
{
    reveal(chord_end);
    lemma2_to64();
    lemma2_to64_rest();
    lemma_high_powers();
    assert(0xbd_5e8d * 0x1 - 0xb5_5e8d * 0x1 == 0x8_0000);
    lemma_sum_known(0x3c3d_5e8d, 0x3c35_5e8d, true, 0xbd_5e8d, 119, 0xb5_5e8d, 119, 0x1, 0x1, 0x8_0000, 20, 0x8_0000, 0x10);
    assert(sub_spec(0x3c3d_5e8d, 0x3c35_5e8d) == 0x3a00_0000);
    assert(0xe3_a2c0 * 0x1 - 0xdd_8b21 * 0x1 == 0x6_179f);
    lemma_sum_known(0x41e3_a2c0, 0x41dd_8b21, true, 0xe3_a2c0, 130, 0xdd_8b21, 130, 0x1, 0x1, 0x6_179f, 19, 0x4_0000, 0x20);
    assert(sub_spec(0x41e3_a2c0, 0x41dd_8b21) == 0x3f42_f3e0);
    assert(0xc2_f3e0 * 0x80_0000 == 0x6179_f000_0000);
    lemma_product_known(0x3f42_f3e0, 0x3a00_0000, 0xc2_f3e0, 125, 0x80_0000, 115, 0x6179_f000_0000, 47, 0x4000_0000_0000, 0x80_0000);
    assert(mul_spec(0x3f42_f3e0, 0x3a00_0000) == 0x39c2_f3e0);
    assert(0xc2_f3e0 * 0x1_0000_0000_0000_0000 == 0x1_85e7_c000_0000_0000 * 0x80_0000 + 0x0);
    lemma_quotient_known(0x39c2_f3e0, 0x3a00_0000, 0xc2_f3e0, 114, 0x80_0000, 115, 0x1_85e7_c000_0000_0000, 0x0, 66, 0x2_0000_0000_0000_0000, 0x400_0000_0000);
    assert(div_spec(0x39c2_f3e0, 0x3a00_0000) == 0x3f42_f3e0);
    assert(0xdd_8b21 * 0x20 + 0xc2_f3e0 * 0x1 == 0x1c74_5800);
    lemma_sum_known(0x41dd_8b21, 0x3f42_f3e0, false, 0xdd_8b21, 130, 0xc2_f3e0, 125, 0x20, 0x1, 0x1c74_5800, 29, 0x1000_0000, 0x20);
}

/// The chord over interval 30.
proof fn lemma_chord_30()
    ensures
        chord_end(0x3c3d_5e8d, 0x3c45_5e8d, 0x41e3_a2c0, 0x41e9_4e7f) == 0x41e9_4e7f,
{
    reveal(chord_end);
    lemma2_to64();
    lemma2_to64_rest();
    lemma_high_powers();
    assert(0xc5_5e8d * 0x1 - 0xbd_5e8d * 0x1 == 0x8_0000);
    lemma_sum_known(0x3c45_5e8d, 0x3c3d_5e8d, true, 0xc5_5e8d, 119, 0xbd_5e8d, 119, 0x1, 0x1, 0x8_0000, 20, 0x8_0000, 0x10);
    assert(sub_spec(0x3c45_5e8d, 0x3c3d_5e8d) == 0x3a00_0000);
    assert(0xe9_4e7f * 0x1 - 0xe3_a2c0 * 0x1 == 0x5_abbf);
    lemma_sum_known(0x41e9_4e7f, 0x41e3_a2c0, true, 0xe9_4e7f, 130, 0xe3_a2c0, 130, 0x1, 0x1, 0x5_abbf, 19, 0x4_0000, 0x20);
    assert(sub_spec(0x41e9_4e7f, 0x41e3_a2c0) == 0x3f35_77e0);
    assert(0xb5_77e0 * 0x80_0000 == 0x5abb_f000_0000);
    lemma_product_known(0x3f35_77e0, 0x3a00_0000, 0xb5_77e0, 125, 0x80_0000, 115, 0x5abb_f000_0000, 47, 0x4000_0000_0000, 0x80_0000);
    assert(mul_spec(0x3f35_77e0, 0x3a00_0000) == 0x39b5_77e0);
    assert(0xb5_77e0 * 0x1_0000_0000_0000_0000 == 0x1_6aef_c000_0000_0000 * 0x80_0000 + 0x0);
    lemma_quotient_known(0x39b5_77e0, 0x3a00_0000, 0xb5_77e0, 114, 0x80_0000, 115, 0x1_6aef_c000_0000_0000, 0x0, 66, 0x2_0000_0000_0000_0000, 0x400_0000_0000);
    assert(div_spec(0x39b5_77e0, 0x3a00_0000) == 0x3f35_77e0);
    assert(0xe3_a2c0 * 0x20 + 0xb5_77e0 * 0x1 == 0x1d29_cfe0);
    lemma_sum_known(0x41e3_a2c0, 0x3f35_77e0, false, 0xe3_a2c0, 130, 0xb5_77e0, 125, 0x20, 0x1, 0x1d29_cfe0, 29, 0x1000_0000, 0x20);
}

/// The chord over interval 31.
proof fn lemma_chord_31()
    ensures
        chord_end(0x3c45_5e8d, 0x3c4d_5e8d, 0x41e9_4e7f, 0x41ef_0a95) == 0x41ef_0a95,
{
    reveal(chord_end);
    lemma2_to64();
    lemma2_to64_rest();
    lemma_high_powers();
    assert(0xcd_5e8d * 0x1 - 0xc5_5e8d * 0x1 == 0x8_0000);
    lemma_sum_known(0x3c4d_5e8d, 0x3c45_5e8d, true, 0xcd_5e8d, 119, 0xc5_5e8d, 119, 0x1, 0x1, 0x8_0000, 20, 0x8_0000, 0x10);
    assert(sub_spec(0x3c4d_5e8d, 0x3c45_5e8d) == 0x3a00_0000);
    assert(0xef_0a95 * 0x1 - 0xe9_4e7f * 0x1 == 0x5_bc16);
    lemma_sum_known(0x41ef_0a95, 0x41e9_4e7f, true, 0xef_0a95, 130, 0xe9_4e7f, 130, 0x1, 0x1, 0x5_bc16, 19, 0x4_0000, 0x20);
    assert(sub_spec(0x41ef_0a95, 0x41e9_4e7f) == 0x3f37_82c0);
    assert(0xb7_82c0 * 0x80_0000 == 0x5bc1_6000_0000);
    lemma_product_known(0x3f37_82c0, 0x3a00_0000, 0xb7_82c0, 125, 0x80_0000, 115, 0x5bc1_6000_0000, 47, 0x4000_0000_0000, 0x80_0000);
    assert(mul_spec(0x3f37_82c0, 0x3a00_0000) == 0x39b7_82c0);
    assert(0xb7_82c0 * 0x1_0000_0000_0000_0000 == 0x1_6f05_8000_0000_0000 * 0x80_0000 + 0x0);
    lemma_quotient_known(0x39b7_82c0, 0x3a00_0000, 0xb7_82c0, 114, 0x80_0000, 115, 0x1_6f05_8000_0000_0000, 0x0, 66, 0x2_0000_0000_0000_0000, 0x400_0000_0000);
    assert(div_spec(0x39b7_82c0, 0x3a00_0000) == 0x3f37_82c0);
    assert(0xe9_4e7f * 0x20 + 0xb7_82c0 * 0x1 == 0x1de1_52a0);
    lemma_sum_known(0x41e9_4e7f, 0x3f37_82c0, false, 0xe9_4e7f, 130, 0xb7_82c0, 125, 0x20, 0x1, 0x1de1_52a0, 29, 0x1000_0000, 0x20);
}

/// The chord over interval 32.
proof fn lemma_chord_32()
    ensures
        chord_end(0x3c4d_5e8d, 0x3c55_5e8d, 0x41ef_0a95, 0x41f4_5569) == 0x41f4_5569,
{
    reveal(chord_end);
    lemma2_to64();
    lemma2_to64_rest();
    lemma_high_powers();
    assert(0xd5_5e8d * 0x1 - 0xcd_5e8d * 0x1 == 0x8_0000);
    lemma_sum_known(0x3c55_5e8d, 0x3c4d_5e8d, true, 0xd5_5e8d, 119, 0xcd_5e8d, 119, 0x1, 0x1, 0x8_0000, 20, 0x8_0000, 0x10);
    assert(sub_spec(0x3c55_5e8d, 0x3c4d_5e8d) == 0x3a00_0000);
    assert(0xf4_5569 * 0x1 - 0xef_0a95 * 0x1 == 0x5_4ad4);
    lemma_sum_known(0x41f4_5569, 0x41ef_0a95, true, 0xf4_5569, 130, 0xef_0a95, 130, 0x1, 0x1, 0x5_4ad4, 19, 0x4_0000, 0x20);
    assert(sub_spec(0x41f4_5569, 0x41ef_0a95) == 0x3f29_5a80);
    assert(0xa9_5a80 * 0x80_0000 == 0x54ad_4000_0000);
    lemma_product_known(0x3f29_5a80, 0x3a00_0000, 0xa9_5a80, 125, 0x80_0000, 115, 0x54ad_4000_0000, 47, 0x4000_0000_0000, 0x80_0000);
    assert(mul_spec(0x3f29_5a80, 0x3a00_0000) == 0x39a9_5a80);
    assert(0xa9_5a80 * 0x1_0000_0000_0000_0000 == 0x1_52b5_0000_0000_0000 * 0x80_0000 + 0x0);
    lemma_quotient_known(0x39a9_5a80, 0x3a00_0000, 0xa9_5a80, 114, 0x80_0000, 115, 0x1_52b5_0000_0000_0000, 0x0, 66, 0x2_0000_0000_0000_0000, 0x400_0000_0000);
    assert(div_spec(0x39a9_5a80, 0x3a00_0000) == 0x3f29_5a80);
    assert(0xef_0a95 * 0x20 + 0xa9_5a80 * 0x1 == 0x1e8a_ad20);
    lemma_sum_known(0x41ef_0a95, 0x3f29_5a80, false, 0xef_0a95, 130, 0xa9_5a80, 125, 0x20, 0x1, 0x1e8a_ad20, 29, 0x1000_0000, 0x20);
}

/// The chord over interval 33.
proof fn lemma_chord_33()
    ensures
        chord_end(0x3c55_5e8d, 0x3c5d_5e8d, 0x41f4_5569, 0x41fa_458a) == 0x41fa_458a,
{
    reveal(chord_end);
    lemma2_to64();
    lemma2_to64_rest();
    lemma_high_powers();
    assert(0xdd_5e8d * 0x1 - 0xd5_5e8d * 0x1 == 0x8_0000);
    lemma_sum_known(0x3c5d_5e8d, 0x3c55_5e8d, true, 0xdd_5e8d, 119, 0xd5_5e8d, 119, 0x1, 0x1, 0x8_0000, 20, 0x8_0000, 0x10);
    assert(sub_spec(0x3c5d_5e8d, 0x3c55_5e8d) == 0x3a00_0000);
    assert(0xfa_458a * 0x1 - 0xf4_5569 * 0x1 == 0x5_f021);
    lemma_sum_known(0x41fa_458a, 0x41f4_5569, true, 0xfa_458a, 130, 0xf4_5569, 130, 0x1, 0x1, 0x5_f021, 19, 0x4_0000, 0x20);
    assert(sub_spec(0x41fa_458a, 0x41f4_5569) == 0x3f3e_0420);
    assert(0xbe_0420 * 0x80_0000 == 0x5f02_1000_0000);
    lemma_product_known(0x3f3e_0420, 0x3a00_0000, 0xbe_0420, 125, 0x80_0000, 115, 0x5f02_1000_0000, 47, 0x4000_0000_0000, 0x80_0000);
    assert(mul_spec(0x3f3e_0420, 0x3a00_0000) == 0x39be_0420);
    assert(0xbe_0420 * 0x1_0000_0000_0000_0000 == 0x1_7c08_4000_0000_0000 * 0x80_0000 + 0x0);
    lemma_quotient_known(0x39be_0420, 0x3a00_0000, 0xbe_0420, 114, 0x80_0000, 115, 0x1_7c08_4000_0000_0000, 0x0, 66, 0x2_0000_0000_0000_0000, 0x400_0000_0000);
    assert(div_spec(0x39be_0420, 0x3a00_0000) == 0x3f3e_0420);
    assert(0xf4_5569 * 0x20 + 0xbe_0420 * 0x1 == 0x1f48_b140);
    lemma_sum_known(0x41f4_5569, 0x3f3e_0420, false, 0xf4_5569, 130, 0xbe_0420, 125, 0x20, 0x1, 0x1f48_b140, 29, 0x1000_0000, 0x20);
}

/// The chord over interval 34.
proof fn lemma_chord_34()
    ensures
        chord_end(0x3c5d_5e8d, 0x3c65_5e8d, 0x41fa_458a, 0x41ff_4654) == 0x41ff_4654,
{
    reveal(chord_end);
    lemma2_to64();
    lemma2_to64_rest();
    lemma_high_powers();
    assert(0xe5_5e8d * 0x1 - 0xdd_5e8d * 0x1 == 0x8_0000);
    lemma_sum_known(0x3c65_5e8d, 0x3c5d_5e8d, true, 0xe5_5e8d, 119, 0xdd_5e8d, 119, 0x1, 0x1, 0x8_0000, 20, 0x8_0000, 0x10);
    assert(sub_spec(0x3c65_5e8d, 0x3c5d_5e8d) == 0x3a00_0000);
    assert(0xff_4654 * 0x1 - 0xfa_458a * 0x1 == 0x5_00ca);
    lemma_sum_known(0x41ff_4654, 0x41fa_458a, true, 0xff_4654, 130, 0xfa_458a, 130, 0x1, 0x1, 0x5_00ca, 19, 0x4_0000, 0x20);
    assert(sub_spec(0x41ff_4654, 0x41fa_458a) == 0x3f20_1940);
    assert(0xa0_1940 * 0x80_0000 == 0x500c_a000_0000);
    lemma_product_known(0x3f20_1940, 0x3a00_0000, 0xa0_1940, 125, 0x80_0000, 115, 0x500c_a000_0000, 47, 0x4000_0000_0000, 0x80_0000);
    assert(mul_spec(0x3f20_1940, 0x3a00_0000) == 0x39a0_1940);
    assert(0xa0_1940 * 0x1_0000_0000_0000_0000 == 0x1_4032_8000_0000_0000 * 0x80_0000 + 0x0);
    lemma_quotient_known(0x39a0_1940, 0x3a00_0000, 0xa0_1940, 114, 0x80_0000, 115, 0x1_4032_8000_0000_0000, 0x0, 66, 0x2_0000_0000_0000_0000, 0x400_0000_0000);
    assert(div_spec(0x39a0_1940, 0x3a00_0000) == 0x3f20_1940);
    assert(0xfa_458a * 0x20 + 0xa0_1940 * 0x1 == 0x1fe8_ca80);
    lemma_sum_known(0x41fa_458a, 0x3f20_1940, false, 0xfa_458a, 130, 0xa0_1940, 125, 0x20, 0x1, 0x1fe8_ca80, 29, 0x1000_0000, 0x20);
}

/// The chord over interval 35.
proof fn lemma_chord_35()
    ensures
        chord_end(0x3c65_5e8d, 0x3c6d_5e8d, 0x41ff_4654, 0x4202_5081) == 0x4202_5081,
{
    reveal(chord_end);
    lemma2_to64();
    lemma2_to64_rest();
    lemma_high_powers();
    assert(0xed_5e8d * 0x1 - 0xe5_5e8d * 0x1 == 0x8_0000);
    lemma_sum_known(0x3c6d_5e8d, 0x3c65_5e8d, true, 0xed_5e8d, 119, 0xe5_5e8d, 119, 0x1, 0x1, 0x8_0000, 20, 0x8_0000, 0x10);
    assert(sub_spec(0x3c6d_5e8d, 0x3c65_5e8d) == 0x3a00_0000);
    assert(0x82_5081 * 0x2 - 0xff_4654 * 0x1 == 0x5_5aae);
    lemma_sum_known(0x4202_5081, 0x41ff_4654, true, 0x82_5081, 131, 0xff_4654, 130, 0x2, 0x1, 0x5_5aae, 19, 0x4_0000, 0x20);
    assert(sub_spec(0x4202_5081, 0x41ff_4654) == 0x3f2b_55c0);
    assert(0xab_55c0 * 0x80_0000 == 0x55aa_e000_0000);
    lemma_product_known(0x3f2b_55c0, 0x3a00_0000, 0xab_55c0, 125, 0x80_0000, 115, 0x55aa_e000_0000, 47, 0x4000_0000_0000, 0x80_0000);
    assert(mul_spec(0x3f2b_55c0, 0x3a00_0000) == 0x39ab_55c0);
    assert(0xab_55c0 * 0x1_0000_0000_0000_0000 == 0x1_56ab_8000_0000_0000 * 0x80_0000 + 0x0);
    lemma_quotient_known(0x39ab_55c0, 0x3a00_0000, 0xab_55c0, 114, 0x80_0000, 115, 0x1_56ab_8000_0000_0000, 0x0, 66, 0x2_0000_0000_0000_0000, 0x400_0000_0000);
    assert(div_spec(0x39ab_55c0, 0x3a00_0000) == 0x3f2b_55c0);
    assert(0xff_4654 * 0x20 + 0xab_55c0 * 0x1 == 0x2094_2040);
    lemma_sum_known(0x41ff_4654, 0x3f2b_55c0, false, 0xff_4654, 130, 0xab_55c0, 125, 0x20, 0x1, 0x2094_2040, 30, 0x2000_0000, 0x40);
}

/// The chord over interval 36.
proof fn lemma_chord_36()
    ensures
        chord_end(0x3c6d_5e8d, 0x3c75_5e8d, 0x4202_5081, 0x4204_e299) == 0x4204_e299,
{
    reveal(chord_end);
    lemma2_to64();
    lemma2_to64_rest();
    lemma_high_powers();
    assert(0xf5_5e8d * 0x1 - 0xed_5e8d * 0x1 == 0x8_0000);
    lemma_sum_known(0x3c75_5e8d, 0x3c6d_5e8d, true, 0xf5_5e8d, 119, 0xed_5e8d, 119, 0x1, 0x1, 0x8_0000, 20, 0x8_0000, 0x10);
    assert(sub_spec(0x3c75_5e8d, 0x3c6d_5e8d) == 0x3a00_0000);
    assert(0x84_e299 * 0x1 - 0x82_5081 * 0x1 == 0x2_9218);
    lemma_sum_known(0x4204_e299, 0x4202_5081, true, 0x84_e299, 131, 0x82_5081, 131, 0x1, 0x1, 0x2_9218, 18, 0x2_0000, 0x40);
    assert(sub_spec(0x4204_e299, 0x4202_5081) == 0x3f24_8600);
    assert(0xa4_8600 * 0x80_0000 == 0x5243_0000_0000);
    lemma_product_known(0x3f24_8600, 0x3a00_0000, 0xa4_8600, 125, 0x80_0000, 115, 0x5243_0000_0000, 47, 0x4000_0000_0000, 0x80_0000);
    assert(mul_spec(0x3f24_8600, 0x3a00_0000) == 0x39a4_8600);
    assert(0xa4_8600 * 0x1_0000_0000_0000_0000 == 0x1_490c_0000_0000_0000 * 0x80_0000 + 0x0);
    lemma_quotient_known(0x39a4_8600, 0x3a00_0000, 0xa4_8600, 114, 0x80_0000, 115, 0x1_490c_0000_0000_0000, 0x0, 66, 0x2_0000_0000_0000_0000, 0x400_0000_0000);
    assert(div_spec(0x39a4_8600, 0x3a00_0000) == 0x3f24_8600);
    assert(0x82_5081 * 0x40 + 0xa4_8600 * 0x1 == 0x2138_a640);
    lemma_sum_known(0x4202_5081, 0x3f24_8600, false, 0x82_5081, 131, 0xa4_8600, 125, 0x40, 0x1, 0x2138_a640, 30, 0x2000_0000, 0x40);
}

/// The chord over interval 37.
proof fn lemma_chord_37()
    ensures
        chord_end(0x3c75_5e8d, 0x3c7d_5e8d, 0x4204_e299, 0x4207_710a) == 0x4207_710a,
{
    reveal(chord_end);
    lemma2_to64();
    lemma2_to64_rest();
    lemma_high_powers();
    assert(0xfd_5e8d * 0x1 - 0xf5_5e8d * 0x1 == 0x8_0000);
    lemma_sum_known(0x3c7d_5e8d, 0x3c75_5e8d, true, 0xfd_5e8d, 119, 0xf5_5e8d, 119, 0x1, 0x1, 0x8_0000, 20, 0x8_0000, 0x10);
    assert(sub_spec(0x3c7d_5e8d, 0x3c75_5e8d) == 0x3a00_0000);
    assert(0x87_710a * 0x1 - 0x84_e299 * 0x1 == 0x2_8e71);
    lemma_sum_known(0x4207_710a, 0x4204_e299, true, 0x87_710a, 131, 0x84_e299, 131, 0x1, 0x1, 0x2_8e71, 18, 0x2_0000, 0x40);
    assert(sub_spec(0x4207_710a, 0x4204_e299) == 0x3f23_9c40);
    assert(0xa3_9c40 * 0x80_0000 == 0x51ce_2000_0000);
    lemma_product_known(0x3f23_9c40, 0x3a00_0000, 0xa3_9c40, 125, 0x80_0000, 115, 0x51ce_2000_0000, 47, 0x4000_0000_0000, 0x80_0000);
    assert(mul_spec(0x3f23_9c40, 0x3a00_0000) == 0x39a3_9c40);
    assert(0xa3_9c40 * 0x1_0000_0000_0000_0000 == 0x1_4738_8000_0000_0000 * 0x80_0000 + 0x0);
    lemma_quotient_known(0x39a3_9c40, 0x3a00_0000, 0xa3_9c40, 114, 0x80_0000, 115, 0x1_4738_8000_0000_0000, 0x0, 66, 0x2_0000_0000_0000_0000, 0x400_0000_0000);
    assert(div_spec(0x39a3_9c40, 0x3a00_0000) == 0x3f23_9c40);
    assert(0x84_e299 * 0x40 + 0xa3_9c40 * 0x1 == 0x21dc_4280);
    lemma_sum_known(0x4204_e299, 0x3f23_9c40, false, 0x84_e299, 131, 0xa3_9c40, 125, 0x40, 0x1, 0x21dc_4280, 30, 0x2000_0000, 0x40);
}

/// The chord over interval 38.
proof fn lemma_chord_38()
    ensures
        chord_end(0x3c7d_5e8d, 0x3c85_5e8d, 0x4207_710a, 0x420b_715e) == 0x420b_715e,
{
    reveal(chord_end);
    lemma2_to64();
    lemma2_to64_rest();
    lemma_high_powers();
    assert(0x85_5e8d * 0x2 - 0xfd_5e8d * 0x1 == 0xd_5e8d);
    lemma_sum_known(0x3c85_5e8d, 0x3c7d_5e8d, true, 0x85_5e8d, 120, 0xfd_5e8d, 119, 0x2, 0x1, 0xd_5e8d, 20, 0x8_0000, 0x10);
    assert(sub_spec(0x3c85_5e8d, 0x3c7d_5e8d) == 0x3a55_e8d0);
    assert(0x8b_715e * 0x1 - 0x87_710a * 0x1 == 0x4_0054);
    lemma_sum_known(0x420b_715e, 0x4207_710a, true, 0x8b_715e, 131, 0x87_710a, 131, 0x1, 0x1, 0x4_0054, 19, 0x4_0000, 0x20);
    assert(sub_spec(0x420b_715e, 0x4207_710a) == 0x3f80_0a80);
    assert(0x80_0a80 * 0xd5_e8d0 == 0x6afd_2e0c_8800);
    lemma_product_known(0x3f80_0a80, 0x3a55_e8d0, 0x80_0a80, 126, 0xd5_e8d0, 115, 0x6afd_2e0c_8800, 47, 0x4000_0000_0000, 0x80_0000);
    assert(mul_spec(0x3f80_0a80, 0x3a55_e8d0) == 0x3a55_fa5c);
    assert(0xd5_fa5c * 0x1_0000_0000_0000_0000 == 0x1_0014_ffe2_0188_fd1f * 0xd5_e8d0 + 0x83_3ed0);
    lemma_quotient_known(0x3a55_fa5c, 0x3a55_e8d0, 0xd5_fa5c, 115, 0xd5_e8d0, 115, 0x1_0014_ffe2_0188_fd1f, 0x83_3ed0, 66, 0x2_0000_0000_0000_0000, 0x400_0000_0000);
    assert(div_spec(0x3a55_fa5c, 0x3a55_e8d0) == 0x3f80_0a80);
    assert(0x87_710a * 0x20 + 0x80_0a80 * 0x1 == 0x116e_2bc0);
    lemma_sum_known(0x4207_710a, 0x3f80_0a80, false, 0x87_710a, 131, 0x80_0a80, 126, 0x20, 0x1, 0x116e_2bc0, 29, 0x1000_0000, 0x20);
}

/// The chord over interval 39.
proof fn lemma_chord_39()
    ensures
        chord_end(0x3c85_5e8d, 0x3c8d_5e8d, 0x420b_715e, 0x4210_3370) == 0x4210_3370,
{
    reveal(chord_end);
    lemma2_to64();
    lemma2_to64_rest();
    lemma_high_powers();
    assert(0x8d_5e8d * 0x1 - 0x85_5e8d * 0x1 == 0x8_0000);
    lemma_sum_known(0x3c8d_5e8d, 0x3c85_5e8d, true, 0x8d_5e8d, 120, 0x85_5e8d, 120, 0x1, 0x1, 0x8_0000, 20, 0x8_0000, 0x10);
    assert(sub_spec(0x3c8d_5e8d, 0x3c85_5e8d) == 0x3a80_0000);
    assert(0x90_3370 * 0x1 - 0x8b_715e * 0x1 == 0x4_c212);
    lemma_sum_known(0x4210_3370, 0x420b_715e, true, 0x90_3370, 131, 0x8b_715e, 131, 0x1, 0x1, 0x4_c212, 19, 0x4_0000, 0x20);
    assert(sub_spec(0x4210_3370, 0x420b_715e) == 0x3f98_4240);
    assert(0x98_4240 * 0x80_0000 == 0x4c21_2000_0000);
    lemma_product_known(0x3f98_4240, 0x3a80_0000, 0x98_4240, 126, 0x80_0000, 116, 0x4c21_2000_0000, 47, 0x4000_0000_0000, 0x80_0000);
    assert(mul_spec(0x3f98_4240, 0x3a80_0000) == 0x3a98_4240);
    assert(0x98_4240 * 0x1_0000_0000_0000_0000 == 0x1_3084_8000_0000_0000 * 0x80_0000 + 0x0);
    lemma_quotient_known(0x3a98_4240, 0x3a80_0000, 0x98_4240, 116, 0x80_0000, 116, 0x1_3084_8000_0000_0000, 0x0, 66, 0x2_0000_0000_0000_0000, 0x400_0000_0000);
    assert(div_spec(0x3a98_4240, 0x3a80_0000) == 0x3f98_4240);
    assert(0x8b_715e * 0x20 + 0x98_4240 * 0x1 == 0x1206_6e00);
    lemma_sum_known(0x420b_715e, 0x3f98_4240, false, 0x8b_715e, 131, 0x98_4240, 126, 0x20, 0x1, 0x1206_6e00, 29, 0x1000_0000, 0x20);
}

/// The chord over interval 40.
proof fn lemma_chord_40()
    ensures
        chord_end(0x3c8d_5e8d, 0x3c95_5e8d, 0x4210_3370, 0x4214_c8fb) == 0x4214_c8fb,
{
    reveal(chord_end);
    lemma2_to64();
    lemma2_to64_rest();
    lemma_high_powers();
    assert(0x95_5e8d * 0x1 - 0x8d_5e8d * 0x1 == 0x8_0000);
    lemma_sum_known(0x3c95_5e8d, 0x3c8d_5e8d, true, 0x95_5e8d, 120, 0x8d_5e8d, 120, 0x1, 0x1, 0x8_0000, 20, 0x8_0000, 0x10);
    assert(sub_spec(0x3c95_5e8d, 0x3c8d_5e8d) == 0x3a80_0000);
    assert(0x94_c8fb * 0x1 - 0x90_3370 * 0x1 == 0x4_958b);
    lemma_sum_known(0x4214_c8fb, 0x4210_3370, true, 0x94_c8fb, 131, 0x90_3370, 131, 0x1, 0x1, 0x4_958b, 19, 0x4_0000, 0x20);
    assert(sub_spec(0x4214_c8fb, 0x4210_3370) == 0x3f92_b160);
    assert(0x92_b160 * 0x80_0000 == 0x4958_b000_0000);
    lemma_product_known(0x3f92_b160, 0x3a80_0000, 0x92_b160, 126, 0x80_0000, 116, 0x4958_b000_0000, 47, 0x4000_0000_0000, 0x80_0000);
    assert(mul_spec(0x3f92_b160, 0x3a80_0000) == 0x3a92_b160);
    assert(0x92_b160 * 0x1_0000_0000_0000_0000 == 0x1_2562_c000_0000_0000 * 0x80_0000 + 0x0);
    lemma_quotient_known(0x3a92_b160, 0x3a80_0000, 0x92_b160, 116, 0x80_0000, 116, 0x1_2562_c000_0000_0000, 0x0, 66, 0x2_0000_0000_0000_0000, 0x400_0000_0000);
    assert(div_spec(0x3a92_b160, 0x3a80_0000) == 0x3f92_b160);
    assert(0x90_3370 * 0x20 + 0x92_b160 * 0x1 == 0x1299_1f60);
    lemma_sum_known(0x4210_3370, 0x3f92_b160, false, 0x90_3370, 131, 0x92_b160, 126, 0x20, 0x1, 0x1299_1f60, 29, 0x1000_0000, 0x20);
}

/// The chord over interval 41.
proof fn lemma_chord_41()
    ensures
        chord_end(0x3c95_5e8d, 0x3c9d_5e8d, 0x4214_c8fb, 0x4219_5874) == 0x4219_5874,
{
    reveal(chord_end);
    lemma2_to64();
    lemma2_to64_rest();
    lemma_high_powers();
    assert(0x9d_5e8d * 0x1 - 0x95_5e8d * 0x1 == 0x8_0000);
    lemma_sum_known(0x3c9d_5e8d, 0x3c95_5e8d, true, 0x9d_5e8d, 120, 0x95_5e8d, 120, 0x1, 0x1, 0x8_0000, 20, 0x8_0000, 0x10);
    assert(sub_spec(0x3c9d_5e8d, 0x3c95_5e8d) == 0x3a80_0000);
    assert(0x99_5874 * 0x1 - 0x94_c8fb * 0x1 == 0x4_8f79);
    lemma_sum_known(0x4219_5874, 0x4214_c8fb, true, 0x99_5874, 131, 0x94_c8fb, 131, 0x1, 0x1, 0x4_8f79, 19, 0x4_0000, 0x20);
    assert(sub_spec(0x4219_5874, 0x4214_c8fb) == 0x3f91_ef20);
    assert(0x91_ef20 * 0x80_0000 == 0x48f7_9000_0000);
    lemma_product_known(0x3f91_ef20, 0x3a80_0000, 0x91_ef20, 126, 0x80_0000, 116, 0x48f7_9000_0000, 47, 0x4000_0000_0000, 0x80_0000);
    assert(mul_spec(0x3f91_ef20, 0x3a80_0000) == 0x3a91_ef20);
    assert(0x91_ef20 * 0x1_0000_0000_0000_0000 == 0x1_23de_4000_0000_0000 * 0x80_0000 + 0x0);
    lemma_quotient_known(0x3a91_ef20, 0x3a80_0000, 0x91_ef20, 116, 0x80_0000, 116, 0x1_23de_4000_0000_0000, 0x0, 66, 0x2_0000_0000_0000_0000, 0x400_0000_0000);
    assert(div_spec(0x3a91_ef20, 0x3a80_0000) == 0x3f91_ef20);
    assert(0x94_c8fb * 0x20 + 0x91_ef20 * 0x1 == 0x132b_0e80);
    lemma_sum_known(0x4214_c8fb, 0x3f91_ef20, false, 0x94_c8fb, 131, 0x91_ef20, 126, 0x20, 0x1, 0x132b_0e80, 29, 0x1000_0000, 0x20);
}

/// The chord over interval 42.
proof fn lemma_chord_42()
    ensures
        chord_end(0x3c9d_5e8d, 0x3ca5_5e8d, 0x4219_5874, 0x421d_a010) == 0x421d_a010,
{
    reveal(chord_end);
    lemma2_to64();
    lemma2_to64_rest();
    lemma_high_powers();
    assert(0xa5_5e8d * 0x1 - 0x9d_5e8d * 0x1 == 0x8_0000);
    lemma_sum_known(0x3ca5_5e8d, 0x3c9d_5e8d, true, 0xa5_5e8d, 120, 0x9d_5e8d, 120, 0x1, 0x1, 0x8_0000, 20, 0x8_0000, 0x10);
    assert(sub_spec(0x3ca5_5e8d, 0x3c9d_5e8d) == 0x3a80_0000);
    assert(0x9d_a010 * 0x1 - 0x99_5874 * 0x1 == 0x4_479c);
    lemma_sum_known(0x421d_a010, 0x4219_5874, true, 0x9d_a010, 131, 0x99_5874, 131, 0x1, 0x1, 0x4_479c, 19, 0x4_0000, 0x20);
    assert(sub_spec(0x421d_a010, 0x4219_5874) == 0x3f88_f380);
    assert(0x88_f380 * 0x80_0000 == 0x4479_c000_0000);
    lemma_product_known(0x3f88_f380, 0x3a80_0000, 0x88_f380, 126, 0x80_0000, 116, 0x4479_c000_0000, 47, 0x4000_0000_0000, 0x80_0000);
    assert(mul_spec(0x3f88_f380, 0x3a80_0000) == 0x3a88_f380);
    assert(0x88_f380 * 0x1_0000_0000_0000_0000 == 0x1_11e7_0000_0000_0000 * 0x80_0000 + 0x0);
    lemma_quotient_known(0x3a88_f380, 0x3a80_0000, 0x88_f380, 116, 0x80_0000, 116, 0x1_11e7_0000_0000_0000, 0x0, 66, 0x2_0000_0000_0000_0000, 0x400_0000_0000);
    assert(div_spec(0x3a88_f380, 0x3a80_0000) == 0x3f88_f380);
    assert(0x99_5874 * 0x20 + 0x88_f380 * 0x1 == 0x13b4_0200);
    lemma_sum_known(0x4219_5874, 0x3f88_f380, false, 0x99_5874, 131, 0x88_f380, 126, 0x20, 0x1, 0x13b4_0200, 29, 0x1000_0000, 0x20);
}

/// The chord over interval 43.
proof fn lemma_chord_43()
    ensures
        chord_end(0x3ca5_5e8d, 0x3cad_5e8d, 0x421d_a010, 0x4221_ebaf) == 0x4221_ebaf,
{
    reveal(chord_end);
    lemma2_to64();
    lemma2_to64_rest();
    lemma_high_powers();
    assert(0xad_5e8d * 0x1 - 0xa5_5e8d * 0x1 == 0x8_0000);
    lemma_sum_known(0x3cad_5e8d, 0x3ca5_5e8d, true, 0xad_5e8d, 120, 0xa5_5e8d, 120, 0x1, 0x1, 0x8_0000, 20, 0x8_0000, 0x10);
    assert(sub_spec(0x3cad_5e8d, 0x3ca5_5e8d) == 0x3a80_0000);
    assert(0xa1_ebaf * 0x1 - 0x9d_a010 * 0x1 == 0x4_4b9f);
    lemma_sum_known(0x4221_ebaf, 0x421d_a010, true, 0xa1_ebaf, 131, 0x9d_a010, 131, 0x1, 0x1, 0x4_4b9f, 19, 0x4_0000, 0x20);
    assert(sub_spec(0x4221_ebaf, 0x421d_a010) == 0x3f89_73e0);
    assert(0x89_73e0 * 0x80_0000 == 0x44b9_f000_0000);
    lemma_product_known(0x3f89_73e0, 0x3a80_0000, 0x89_73e0, 126, 0x80_0000, 116, 0x44b9_f000_0000, 47, 0x4000_0000_0000, 0x80_0000);
    assert(mul_spec(0x3f89_73e0, 0x3a80_0000) == 0x3a89_73e0);
    assert(0x89_73e0 * 0x1_0000_0000_0000_0000 == 0x1_12e7_c000_0000_0000 * 0x80_0000 + 0x0);
    lemma_quotient_known(0x3a89_73e0, 0x3a80_0000, 0x89_73e0, 116, 0x80_0000, 116, 0x1_12e7_c000_0000_0000, 0x0, 66, 0x2_0000_0000_0000_0000, 0x400_0000_0000);
    assert(div_spec(0x3a89_73e0, 0x3a80_0000) == 0x3f89_73e0);
    assert(0x9d_a010 * 0x20 + 0x89_73e0 * 0x1 == 0x143d_75e0);
    lemma_sum_known(0x421d_a010, 0x3f89_73e0, false, 0x9d_a010, 131, 0x89_73e0, 126, 0x20, 0x1, 0x143d_75e0, 29, 0x1000_0000, 0x20);
}

/// The chord over interval 44.
proof fn lemma_chord_44()
    ensures
        chord_end(0x3cad_5e8d, 0x3cb5_5e8d, 0x4221_ebaf, 0x4226_00fe) == 0x4226_00fe,
{
    reveal(chord_end);
    lemma2_to64();
    lemma2_to64_rest();
    lemma_high_powers();
    assert(0xb5_5e8d * 0x1 - 0xad_5e8d * 0x1 == 0x8_0000);
    lemma_sum_known(0x3cb5_5e8d, 0x3cad_5e8d, true, 0xb5_5e8d, 120, 0xad_5e8d, 120, 0x1, 0x1, 0x8_0000, 20, 0x8_0000, 0x10);
    assert(sub_spec(0x3cb5_5e8d, 0x3cad_5e8d) == 0x3a80_0000);
    assert(0xa6_00fe * 0x1 - 0xa1_ebaf * 0x1 == 0x4_154f);
    lemma_sum_known(0x4226_00fe, 0x4221_ebaf, true, 0xa6_00fe, 131, 0xa1_ebaf, 131, 0x1, 0x1, 0x4_154f, 19, 0x4_0000, 0x20);
    assert(sub_spec(0x4226_00fe, 0x4221_ebaf) == 0x3f82_a9e0);
    assert(0x82_a9e0 * 0x80_0000 == 0x4154_f000_0000);
    lemma_product_known(0x3f82_a9e0, 0x3a80_0000, 0x82_a9e0, 126, 0x80_0000, 116, 0x4154_f000_0000, 47, 0x4000_0000_0000, 0x80_0000);
    assert(mul_spec(0x3f82_a9e0, 0x3a80_0000) == 0x3a82_a9e0);
    assert(0x82_a9e0 * 0x1_0000_0000_0000_0000 == 0x1_0553_c000_0000_0000 * 0x80_0000 + 0x0);
    lemma_quotient_known(0x3a82_a9e0, 0x3a80_0000, 0x82_a9e0, 116, 0x80_0000, 116, 0x1_0553_c000_0000_0000, 0x0, 66, 0x2_0000_0000_0000_0000, 0x400_0000_0000);
    assert(div_spec(0x3a82_a9e0, 0x3a80_0000) == 0x3f82_a9e0);
    assert(0xa1_ebaf * 0x20 + 0x82_a9e0 * 0x1 == 0x14c0_1fc0);
    lemma_sum_known(0x4221_ebaf, 0x3f82_a9e0, false, 0xa1_ebaf, 131, 0x82_a9e0, 126, 0x20, 0x1, 0x14c0_1fc0, 29, 0x1000_0000, 0x20);
}

/// The chord over interval 45.
proof fn lemma_chord_45()
    ensures
        chord_end(0x3cb5_5e8d, 0x3cbd_5e8d, 0x4226_00fe, 0x4229_f09e) == 0x4229_f09e,
{
    reveal(chord_end);
    lemma2_to64();
    lemma2_to64_rest();
    lemma_high_powers();
    assert(0xbd_5e8d * 0x1 - 0xb5_5e8d * 0x1 == 0x8_0000);
    lemma_sum_known(0x3cbd_5e8d, 0x3cb5_5e8d, true, 0xbd_5e8d, 120, 0xb5_5e8d, 120, 0x1, 0x1, 0x8_0000, 20, 0x8_0000, 0x10);
    assert(sub_spec(0x3cbd_5e8d, 0x3cb5_5e8d) == 0x3a80_0000);
    assert(0xa9_f09e * 0x1 - 0xa6_00fe * 0x1 == 0x3_efa0);
    lemma_sum_known(0x4229_f09e, 0x4226_00fe, true, 0xa9_f09e, 131, 0xa6_00fe, 131, 0x1, 0x1, 0x3_efa0, 18, 0x2_0000, 0x40);
    assert(sub_spec(0x4229_f09e, 0x4226_00fe) == 0x3f7b_e800);
    assert(0xfb_e800 * 0x80_0000 == 0x7df4_0000_0000);
    lemma_product_known(0x3f7b_e800, 0x3a80_0000, 0xfb_e800, 125, 0x80_0000, 116, 0x7df4_0000_0000, 47, 0x4000_0000_0000, 0x80_0000);
    assert(mul_spec(0x3f7b_e800, 0x3a80_0000) == 0x3a7b_e800);
    assert(0xfb_e800 * 0x1_0000_0000_0000_0000 == 0x1_f7d0_0000_0000_0000 * 0x80_0000 + 0x0);
    lemma_quotient_known(0x3a7b_e800, 0x3a80_0000, 0xfb_e800, 115, 0x80_0000, 116, 0x1_f7d0_0000_0000_0000, 0x0, 66, 0x2_0000_0000_0000_0000, 0x400_0000_0000);
    assert(div_spec(0x3a7b_e800, 0x3a80_0000) == 0x3f7b_e800);
    assert(0xa6_00fe * 0x40 + 0xfb_e800 * 0x1 == 0x2a7c_2780);
    lemma_sum_known(0x4226_00fe, 0x3f7b_e800, false, 0xa6_00fe, 131, 0xfb_e800, 125, 0x40, 0x1, 0x2a7c_2780, 30, 0x2000_0000, 0x40);
}

/// The chord over interval 46.
proof fn lemma_chord_46()
    ensures
        chord_end(0x3cbd_5e8d, 0x3cc5_5e8d, 0x4229_f09e, 0x422d_c34a) == 0x422d_c34a,
{
    reveal(chord_end);
    lemma2_to64();
    lemma2_to64_rest();
    lemma_high_powers();
    assert(0xc5_5e8d * 0x1 - 0xbd_5e8d * 0x1 == 0x8_0000);
    lemma_sum_known(0x3cc5_5e8d, 0x3cbd_5e8d, true, 0xc5_5e8d, 120, 0xbd_5e8d, 120, 0x1, 0x1, 0x8_0000, 20, 0x8_0000, 0x10);
    assert(sub_spec(0x3cc5_5e8d, 0x3cbd_5e8d) == 0x3a80_0000);
    assert(0xad_c34a * 0x1 - 0xa9_f09e * 0x1 == 0x3_d2ac);
    lemma_sum_known(0x422d_c34a, 0x4229_f09e, true, 0xad_c34a, 131, 0xa9_f09e, 131, 0x1, 0x1, 0x3_d2ac, 18, 0x2_0000, 0x40);
    assert(sub_spec(0x422d_c34a, 0x4229_f09e) == 0x3f74_ab00);
    assert(0xf4_ab00 * 0x80_0000 == 0x7a55_8000_0000);
    lemma_product_known(0x3f74_ab00, 0x3a80_0000, 0xf4_ab00, 125, 0x80_0000, 116, 0x7a55_8000_0000, 47, 0x4000_0000_0000, 0x80_0000);
    assert(mul_spec(0x3f74_ab00, 0x3a80_0000) == 0x3a74_ab00);
    assert(0xf4_ab00 * 0x1_0000_0000_0000_0000 == 0x1_e956_0000_0000_0000 * 0x80_0000 + 0x0);
    lemma_quotient_known(0x3a74_ab00, 0x3a80_0000, 0xf4_ab00, 115, 0x80_0000, 116, 0x1_e956_0000_0000_0000, 0x0, 66, 0x2_0000_0000_0000_0000, 0x400_0000_0000);
    assert(div_spec(0x3a74_ab00, 0x3a80_0000) == 0x3f74_ab00);
    assert(0xa9_f09e * 0x40 + 0xf4_ab00 * 0x1 == 0x2b70_d280);
    lemma_sum_known(0x4229_f09e, 0x3f74_ab00, false, 0xa9_f09e, 131, 0xf4_ab00, 125, 0x40, 0x1, 0x2b70_d280, 30, 0x2000_0000, 0x40);
}

/// The chord over interval 47.
proof fn lemma_chord_47()
    ensures
        chord_end(0x3cc5_5e8d, 0x3ccd_5e8d, 0x422d_c34a, 0x4231_aaf1) == 0x4231_aaf1,
{
    reveal(chord_end);
    lemma2_to64();
    lemma2_to64_rest();
    lemma_high_powers();
    assert(0xcd_5e8d * 0x1 - 0xc5_5e8d * 0x1 == 0x8_0000);
    lemma_sum_known(0x3ccd_5e8d, 0x3cc5_5e8d, true, 0xcd_5e8d, 120, 0xc5_5e8d, 120, 0x1, 0x1, 0x8_0000, 20, 0x8_0000, 0x10);
    assert(sub_spec(0x3ccd_5e8d, 0x3cc5_5e8d) == 0x3a80_0000);
    assert(0xb1_aaf1 * 0x1 - 0xad_c34a * 0x1 == 0x3_e7a7);
    lemma_sum_known(0x4231_aaf1, 0x422d_c34a, true, 0xb1_aaf1, 131, 0xad_c34a, 131, 0x1, 0x1, 0x3_e7a7, 18, 0x2_0000, 0x40);
    assert(sub_spec(0x4231_aaf1, 0x422d_c34a) == 0x3f79_e9c0);
    assert(0xf9_e9c0 * 0x80_0000 == 0x7cf4_e000_0000);
    lemma_product_known(0x3f79_e9c0, 0x3a80_0000, 0xf9_e9c0, 125, 0x80_0000, 116, 0x7cf4_e000_0000, 47, 0x4000_0000_0000, 0x80_0000);
    assert(mul_spec(0x3f79_e9c0, 0x3a80_0000) == 0x3a79_e9c0);
    assert(0xf9_e9c0 * 0x1_0000_0000_0000_0000 == 0x1_f3d3_8000_0000_0000 * 0x80_0000 + 0x0);
    lemma_quotient_known(0x3a79_e9c0, 0x3a80_0000, 0xf9_e9c0, 115, 0x80_0000, 116, 0x1_f3d3_8000_0000_0000, 0x0, 66, 0x2_0000_0000_0000_0000, 0x400_0000_0000);
    assert(div_spec(0x3a79_e9c0, 0x3a80_0000) == 0x3f79_e9c0);
    assert(0xad_c34a * 0x40 + 0xf9_e9c0 * 0x1 == 0x2c6a_bc40);
    lemma_sum_known(0x422d_c34a, 0x3f79_e9c0, false, 0xad_c34a, 131, 0xf9_e9c0, 125, 0x40, 0x1, 0x2c6a_bc40, 30, 0x2000_0000, 0x40);
}

/// The chord over interval 48.
proof fn lemma_chord_48()
    ensures
        chord_end(0x3ccd_5e8d, 0x3cd5_5e8d, 0x4231_aaf1, 0x4235_553f) == 0x4235_553f,
{
    reveal(chord_end);
    lemma2_to64();
    lemma2_to64_rest();
    lemma_high_powers();
    assert(0xd5_5e8d * 0x1 - 0xcd_5e8d * 0x1 == 0x8_0000);
    lemma_sum_known(0x3cd5_5e8d, 0x3ccd_5e8d, true, 0xd5_5e8d, 120, 0xcd_5e8d, 120, 0x1, 0x1, 0x8_0000, 20, 0x8_0000, 0x10);
    assert(sub_spec(0x3cd5_5e8d, 0x3ccd_5e8d) == 0x3a80_0000);
    assert(0xb5_553f * 0x1 - 0xb1_aaf1 * 0x1 == 0x3_aa4e);
    lemma_sum_known(0x4235_553f, 0x4231_aaf1, true, 0xb5_553f, 131, 0xb1_aaf1, 131, 0x1, 0x1, 0x3_aa4e, 18, 0x2_0000, 0x40);
    assert(sub_spec(0x4235_553f, 0x4231_aaf1) == 0x3f6a_9380);
    assert(0xea_9380 * 0x80_0000 == 0x7549_c000_0000);
    lemma_product_known(0x3f6a_9380, 0x3a80_0000, 0xea_9380, 125, 0x80_0000, 116, 0x7549_c000_0000, 47, 0x4000_0000_0000, 0x80_0000);
    assert(mul_spec(0x3f6a_9380, 0x3a80_0000) == 0x3a6a_9380);
    assert(0xea_9380 * 0x1_0000_0000_0000_0000 == 0x1_d527_0000_0000_0000 * 0x80_0000 + 0x0);
    lemma_quotient_known(0x3a6a_9380, 0x3a80_0000, 0xea_9380, 115, 0x80_0000, 116, 0x1_d527_0000_0000_0000, 0x0, 66, 0x2_0000_0000_0000_0000, 0x400_0000_0000);
    assert(div_spec(0x3a6a_9380, 0x3a80_0000) == 0x3f6a_9380);
    assert(0xb1_aaf1 * 0x40 + 0xea_9380 * 0x1 == 0x2d55_4fc0);
    lemma_sum_known(0x4231_aaf1, 0x3f6a_9380, false, 0xb1_aaf1, 131, 0xea_9380, 125, 0x40, 0x1, 0x2d55_4fc0, 30, 0x2000_0000, 0x40);
}

/// The chord over interval 49.
proof fn lemma_chord_49()
    ensures
        chord_end(0x3cd5_5e8d, 0x3cdd_5e8d, 0x4235_553f, 0x4238_f9e8) == 0x4238_f9e8,
{
    reveal(chord_end);
    lemma2_to64();
    lemma2_to64_rest();
    lemma_high_powers();
    assert(0xdd_5e8d * 0x1 - 0xd5_5e8d * 0x1 == 0x8_0000);
    lemma_sum_known(0x3cdd_5e8d, 0x3cd5_5e8d, true, 0xdd_5e8d, 120, 0xd5_5e8d, 120, 0x1, 0x1, 0x8_0000, 20, 0x8_0000, 0x10);
    assert(sub_spec(0x3cdd_5e8d, 0x3cd5_5e8d) == 0x3a80_0000);
    assert(0xb8_f9e8 * 0x1 - 0xb5_553f * 0x1 == 0x3_a4a9);
    lemma_sum_known(0x4238_f9e8, 0x4235_553f, true, 0xb8_f9e8, 131, 0xb5_553f, 131, 0x1, 0x1, 0x3_a4a9, 18, 0x2_0000, 0x40);
    assert(sub_spec(0x4238_f9e8, 0x4235_553f) == 0x3f69_2a40);
    assert(0xe9_2a40 * 0x80_0000 == 0x7495_2000_0000);
    lemma_product_known(0x3f69_2a40, 0x3a80_0000, 0xe9_2a40, 125, 0x80_0000, 116, 0x7495_2000_0000, 47, 0x4000_0000_0000, 0x80_0000);
    assert(mul_spec(0x3f69_2a40, 0x3a80_0000) == 0x3a69_2a40);
    assert(0xe9_2a40 * 0x1_0000_0000_0000_0000 == 0x1_d254_8000_0000_0000 * 0x80_0000 + 0x0);
    lemma_quotient_known(0x3a69_2a40, 0x3a80_0000, 0xe9_2a40, 115, 0x80_0000, 116, 0x1_d254_8000_0000_0000, 0x0, 66, 0x2_0000_0000_0000_0000, 0x400_0000_0000);
    assert(div_spec(0x3a69_2a40, 0x3a80_0000) == 0x3f69_2a40);
    assert(0xb5_553f * 0x40 + 0xe9_2a40 * 0x1 == 0x2e3e_7a00);
    lemma_sum_known(0x4235_553f, 0x3f69_2a40, false, 0xb5_553f, 131, 0xe9_2a40, 125, 0x40, 0x1, 0x2e3e_7a00, 30, 0x2000_0000, 0x40);
}

/// The chord over interval 50.
proof fn lemma_chord_50()
    ensures
        chord_end(0x3cdd_5e8d, 0x3ce5_5e8d, 0x4238_f9e8, 0x423c_75d8) == 0x423c_75d8,
{
    reveal(chord_end);
    lemma2_to64();
    lemma2_to64_rest();
    lemma_high_powers();
    assert(0xe5_5e8d * 0x1 - 0xdd_5e8d * 0x1 == 0x8_0000);
    lemma_sum_known(0x3ce5_5e8d, 0x3cdd_5e8d, true, 0xe5_5e8d, 120, 0xdd_5e8d, 120, 0x1, 0x1, 0x8_0000, 20, 0x8_0000, 0x10);
    assert(sub_spec(0x3ce5_5e8d, 0x3cdd_5e8d) == 0x3a80_0000);
    assert(0xbc_75d8 * 0x1 - 0xb8_f9e8 * 0x1 == 0x3_7bf0);
    lemma_sum_known(0x423c_75d8, 0x4238_f9e8, true, 0xbc_75d8, 131, 0xb8_f9e8, 131, 0x1, 0x1, 0x3_7bf0, 18, 0x2_0000, 0x40);
    assert(sub_spec(0x423c_75d8, 0x4238_f9e8) == 0x3f5e_fc00);
    assert(0xde_fc00 * 0x80_0000 == 0x6f7e_0000_0000);
    lemma_product_known(0x3f5e_fc00, 0x3a80_0000, 0xde_fc00, 125, 0x80_0000, 116, 0x6f7e_0000_0000, 47, 0x4000_0000_0000, 0x80_0000);
    assert(mul_spec(0x3f5e_fc00, 0x3a80_0000) == 0x3a5e_fc00);
    assert(0xde_fc00 * 0x1_0000_0000_0000_0000 == 0x1_bdf8_0000_0000_0000 * 0x80_0000 + 0x0);
    lemma_quotient_known(0x3a5e_fc00, 0x3a80_0000, 0xde_fc00, 115, 0x80_0000, 116, 0x1_bdf8_0000_0000_0000, 0x0, 66, 0x2_0000_0000_0000_0000, 0x400_0000_0000);
    assert(div_spec(0x3a5e_fc00, 0x3a80_0000) == 0x3f5e_fc00);
    assert(0xb8_f9e8 * 0x40 + 0xde_fc00 * 0x1 == 0x2f1d_7600);
    lemma_sum_known(0x4238_f9e8, 0x3f5e_fc00, false, 0xb8_f9e8, 131, 0xde_fc00, 125, 0x40, 0x1, 0x2f1d_7600, 30, 0x2000_0000, 0x40);
}

/// The chord over interval 51.
proof fn lemma_chord_51()
    ensures
        chord_end(0x3ce5_5e8d, 0x3ced_5e8d, 0x423c_75d8, 0x4240_00c7) == 0x4240_00c7,
{
    reveal(chord_end);
    lemma2_to64();
    lemma2_to64_rest();
    lemma_high_powers();
    assert(0xed_5e8d * 0x1 - 0xe5_5e8d * 0x1 == 0x8_0000);
    lemma_sum_known(0x3ced_5e8d, 0x3ce5_5e8d, true, 0xed_5e8d, 120, 0xe5_5e8d, 120, 0x1, 0x1, 0x8_0000, 20, 0x8_0000, 0x10);
    assert(sub_spec(0x3ced_5e8d, 0x3ce5_5e8d) == 0x3a80_0000);
    assert(0xc0_00c7 * 0x1 - 0xbc_75d8 * 0x1 == 0x3_8aef);
    lemma_sum_known(0x4240_00c7, 0x423c_75d8, true, 0xc0_00c7, 131, 0xbc_75d8, 131, 0x1, 0x1, 0x3_8aef, 18, 0x2_0000, 0x40);
    assert(sub_spec(0x4240_00c7, 0x423c_75d8) == 0x3f62_bbc0);
    assert(0xe2_bbc0 * 0x80_0000 == 0x715d_e000_0000);
    lemma_product_known(0x3f62_bbc0, 0x3a80_0000, 0xe2_bbc0, 125, 0x80_0000, 116, 0x715d_e000_0000, 47, 0x4000_0000_0000, 0x80_0000);
    assert(mul_spec(0x3f62_bbc0, 0x3a80_0000) == 0x3a62_bbc0);
    assert(0xe2_bbc0 * 0x1_0000_0000_0000_0000 == 0x1_c577_8000_0000_0000 * 0x80_0000 + 0x0);
    lemma_quotient_known(0x3a62_bbc0, 0x3a80_0000, 0xe2_bbc0, 115, 0x80_0000, 116, 0x1_c577_8000_0000_0000, 0x0, 66, 0x2_0000_0000_0000_0000, 0x400_0000_0000);
    assert(div_spec(0x3a62_bbc0, 0x3a80_0000) == 0x3f62_bbc0);
    assert(0xbc_75d8 * 0x40 + 0xe2_bbc0 * 0x1 == 0x3000_31c0);
    lemma_sum_known(0x423c_75d8, 0x3f62_bbc0, false, 0xbc_75d8, 131, 0xe2_bbc0, 125, 0x40, 0x1, 0x3000_31c0, 30, 0x2000_0000, 0x40);
}

/// The chord over interval 52.
proof fn lemma_chord_52()
    ensures
        chord_end(0x3ced_5e8d, 0x3cf5_5e8d, 0x4240_00c7, 0x4243_7283) == 0x4243_7283,
{
    reveal(chord_end);
    lemma2_to64();
    lemma2_to64_rest();
    lemma_high_powers();
    assert(0xf5_5e8d * 0x1 - 0xed_5e8d * 0x1 == 0x8_0000);
    lemma_sum_known(0x3cf5_5e8d, 0x3ced_5e8d, true, 0xf5_5e8d, 120, 0xed_5e8d, 120, 0x1, 0x1, 0x8_0000, 20, 0x8_0000, 0x10);
    assert(sub_spec(0x3cf5_5e8d, 0x3ced_5e8d) == 0x3a80_0000);
    assert(0xc3_7283 * 0x1 - 0xc0_00c7 * 0x1 == 0x3_71bc);
    lemma_sum_known(0x4243_7283, 0x4240_00c7, true, 0xc3_7283, 131, 0xc0_00c7, 131, 0x1, 0x1, 0x3_71bc, 18, 0x2_0000, 0x40);
    assert(sub_spec(0x4243_7283, 0x4240_00c7) == 0x3f5c_6f00);
    assert(0xdc_6f00 * 0x80_0000 == 0x6e37_8000_0000);
    lemma_product_known(0x3f5c_6f00, 0x3a80_0000, 0xdc_6f00, 125, 0x80_0000, 116, 0x6e37_8000_0000, 47, 0x4000_0000_0000, 0x80_0000);
    assert(mul_spec(0x3f5c_6f00, 0x3a80_0000) == 0x3a5c_6f00);
    assert(0xdc_6f00 * 0x1_0000_0000_0000_0000 == 0x1_b8de_0000_0000_0000 * 0x80_0000 + 0x0);
    lemma_quotient_known(0x3a5c_6f00, 0x3a80_0000, 0xdc_6f00, 115, 0x80_0000, 116, 0x1_b8de_0000_0000_0000, 0x0, 66, 0x2_0000_0000_0000_0000, 0x400_0000_0000);
    assert(div_spec(0x3a5c_6f00, 0x3a80_0000) == 0x3f5c_6f00);
    assert(0xc0_00c7 * 0x40 + 0xdc_6f00 * 0x1 == 0x30dc_a0c0);
    lemma_sum_known(0x4240_00c7, 0x3f5c_6f00, false, 0xc0_00c7, 131, 0xdc_6f00, 125, 0x40, 0x1, 0x30dc_a0c0, 30, 0x2000_0000, 0x40);
}

/// The chord over interval 53.
proof fn lemma_chord_53()
    ensures
        chord_end(0x3cf5_5e8d, 0x3cfd_5e8d, 0x4243_7283, 0x4246_c250) == 0x4246_c250,
{
    reveal(chord_end);
    lemma2_to64();
    lemma2_to64_rest();
    lemma_high_powers();
    assert(0xfd_5e8d * 0x1 - 0xf5_5e8d * 0x1 == 0x8_0000);
    lemma_sum_known(0x3cfd_5e8d, 0x3cf5_5e8d, true, 0xfd_5e8d, 120, 0xf5_5e8d, 120, 0x1, 0x1, 0x8_0000, 20, 0x8_0000, 0x10);
    assert(sub_spec(0x3cfd_5e8d, 0x3cf5_5e8d) == 0x3a80_0000);
    assert(0xc6_c250 * 0x1 - 0xc3_7283 * 0x1 == 0x3_4fcd);
    lemma_sum_known(0x4246_c250, 0x4243_7283, true, 0xc6_c250, 131, 0xc3_7283, 131, 0x1, 0x1, 0x3_4fcd, 18, 0x2_0000, 0x40);
    assert(sub_spec(0x4246_c250, 0x4243_7283) == 0x3f53_f340);
    assert(0xd3_f340 * 0x80_0000 == 0x69f9_a000_0000);
    lemma_product_known(0x3f53_f340, 0x3a80_0000, 0xd3_f340, 125, 0x80_0000, 116, 0x69f9_a000_0000, 47, 0x4000_0000_0000, 0x80_0000);
    assert(mul_spec(0x3f53_f340, 0x3a80_0000) == 0x3a53_f340);
    assert(0xd3_f340 * 0x1_0000_0000_0000_0000 == 0x1_a7e6_8000_0000_0000 * 0x80_0000 + 0x0);
    lemma_quotient_known(0x3a53_f340, 0x3a80_0000, 0xd3_f340, 115, 0x80_0000, 116, 0x1_a7e6_8000_0000_0000, 0x0, 66, 0x2_0000_0000_0000_0000, 0x400_0000_0000);
    assert(div_spec(0x3a53_f340, 0x3a80_0000) == 0x3f53_f340);
    assert(0xc3_7283 * 0x40 + 0xd3_f340 * 0x1 == 0x31b0_9400);
    lemma_sum_known(0x4243_7283, 0x3f53_f340, false, 0xc3_7283, 131, 0xd3_f340, 125, 0x40, 0x1, 0x31b0_9400, 30, 0x2000_0000, 0x40);
}

/// The chord over interval 54.
proof fn lemma_chord_54()
    ensures
        chord_end(0x3cfd_5e8d, 0x3d05_5e8d, 0x4246_c250, 0x424c_3c5d) == 0x424c_3c5d,
{
    reveal(chord_end);
    lemma2_to64();
    lemma2_to64_rest();
    lemma_high_powers();
    assert(0x85_5e8d * 0x2 - 0xfd_5e8d * 0x1 == 0xd_5e8d);
    lemma_sum_known(0x3d05_5e8d, 0x3cfd_5e8d, true, 0x85_5e8d, 121, 0xfd_5e8d, 120, 0x2, 0x1, 0xd_5e8d, 20, 0x8_0000, 0x10);
    assert(sub_spec(0x3d05_5e8d, 0x3cfd_5e8d) == 0x3ad5_e8d0);
    assert(0xcc_3c5d * 0x1 - 0xc6_c250 * 0x1 == 0x5_7a0d);
    lemma_sum_known(0x424c_3c5d, 0x4246_c250, true, 0xcc_3c5d, 131, 0xc6_c250, 131, 0x1, 0x1, 0x5_7a0d, 19, 0x4_0000, 0x20);
    assert(sub_spec(0x424c_3c5d, 0x4246_c250) == 0x3faf_41a0);
    assert(0xaf_41a0 * 0xd5_e8d0 == 0x9270_fbfe_5200);
    lemma_product_known(0x3faf_41a0, 0x3ad5_e8d0, 0xaf_41a0, 126, 0xd5_e8d0, 116, 0x9270_fbfe_5200, 48, 0x8000_0000_0000, 0x100_0000);
    assert(mul_spec(0x3faf_41a0, 0x3ad5_e8d0) == 0x3b12_70fc);
    assert(0x92_70fc * 0x1_0000_0000_0000_0000 == 0xaf41_a002_029c_3ed6 * 0xd5_e8d0 + 0xd_0220);
    lemma_quotient_known(0x3b12_70fc, 0x3ad5_e8d0, 0x92_70fc, 117, 0xd5_e8d0, 116, 0xaf41_a002_029c_3ed6, 0xd_0220, 65, 0x1_0000_0000_0000_0000, 0x200_0000_0000);
    assert(div_spec(0x3b12_70fc, 0x3ad5_e8d0) == 0x3faf_41a0);
    assert(0xc6_c250 * 0x20 + 0xaf_41a0 * 0x1 == 0x1987_8ba0);
    lemma_sum_known(0x4246_c250, 0x3faf_41a0, false, 0xc6_c250, 131, 0xaf_41a0, 126, 0x20, 0x1, 0x1987_8ba0, 29, 0x1000_0000, 0x20);
}

/// The chord over interval 55.
proof fn lemma_chord_55()
    ensures
        chord_end(0x3d05_5e8d, 0x3d0d_5e8d, 0x424c_3c5d, 0x4252_9b93) == 0x4252_9b93,
{
    reveal(chord_end);
    lemma2_to64();
    lemma2_to64_rest();
    lemma_high_powers();
    assert(0x8d_5e8d * 0x1 - 0x85_5e8d * 0x1 == 0x8_0000);
    lemma_sum_known(0x3d0d_5e8d, 0x3d05_5e8d, true, 0x8d_5e8d, 121, 0x85_5e8d, 121, 0x1, 0x1, 0x8_0000, 20, 0x8_0000, 0x10);
    assert(sub_spec(0x3d0d_5e8d, 0x3d05_5e8d) == 0x3b00_0000);
    assert(0xd2_9b93 * 0x1 - 0xcc_3c5d * 0x1 == 0x6_5f36);
    lemma_sum_known(0x4252_9b93, 0x424c_3c5d, true, 0xd2_9b93, 131, 0xcc_3c5d, 131, 0x1, 0x1, 0x6_5f36, 19, 0x4_0000, 0x20);
    assert(sub_spec(0x4252_9b93, 0x424c_3c5d) == 0x3fcb_e6c0);
    assert(0xcb_e6c0 * 0x80_0000 == 0x65f3_6000_0000);
    lemma_product_known(0x3fcb_e6c0, 0x3b00_0000, 0xcb_e6c0, 126, 0x80_0000, 117, 0x65f3_6000_0000, 47, 0x4000_0000_0000, 0x80_0000);
    assert(mul_spec(0x3fcb_e6c0, 0x3b00_0000) == 0x3b4b_e6c0);
    assert(0xcb_e6c0 * 0x1_0000_0000_0000_0000 == 0x1_97cd_8000_0000_0000 * 0x80_0000 + 0x0);
    lemma_quotient_known(0x3b4b_e6c0, 0x3b00_0000, 0xcb_e6c0, 117, 0x80_0000, 117, 0x1_97cd_8000_0000_0000, 0x0, 66, 0x2_0000_0000_0000_0000, 0x400_0000_0000);
    assert(div_spec(0x3b4b_e6c0, 0x3b00_0000) == 0x3fcb_e6c0);
    assert(0xcc_3c5d * 0x20 + 0xcb_e6c0 * 0x1 == 0x1a53_7260);
    lemma_sum_known(0x424c_3c5d, 0x3fcb_e6c0, false, 0xcc_3c5d, 131, 0xcb_e6c0, 126, 0x20, 0x1, 0x1a53_7260, 29, 0x1000_0000, 0x20);
}

/// The chord over interval 56.
proof fn lemma_chord_56()
    ensures
        chord_end(0x3d0d_5e8d, 0x3d15_5e8d, 0x4252_9b93, 0x4258_bd84) == 0x4258_bd84,
{
    reveal(chord_end);
    lemma2_to64();
    lemma2_to64_rest();
    lemma_high_powers();
    assert(0x95_5e8d * 0x1 - 0x8d_5e8d * 0x1 == 0x8_0000);
    lemma_sum_known(0x3d15_5e8d, 0x3d0d_5e8d, true, 0x95_5e8d, 121, 0x8d_5e8d, 121, 0x1, 0x1, 0x8_0000, 20, 0x8_0000, 0x10);
    assert(sub_spec(0x3d15_5e8d, 0x3d0d_5e8d) == 0x3b00_0000);
    assert(0xd8_bd84 * 0x1 - 0xd2_9b93 * 0x1 == 0x6_21f1);
    lemma_sum_known(0x4258_bd84, 0x4252_9b93, true, 0xd8_bd84, 131, 0xd2_9b93, 131, 0x1, 0x1, 0x6_21f1, 19, 0x4_0000, 0x20);
    assert(sub_spec(0x4258_bd84, 0x4252_9b93) == 0x3fc4_3e20);
    assert(0xc4_3e20 * 0x80_0000 == 0x621f_1000_0000);
    lemma_product_known(0x3fc4_3e20, 0x3b00_0000, 0xc4_3e20, 126, 0x80_0000, 117, 0x621f_1000_0000, 47, 0x4000_0000_0000, 0x80_0000);
    assert(mul_spec(0x3fc4_3e20, 0x3b00_0000) == 0x3b44_3e20);
    assert(0xc4_3e20 * 0x1_0000_0000_0000_0000 == 0x1_887c_4000_0000_0000 * 0x80_0000 + 0x0);
    lemma_quotient_known(0x3b44_3e20, 0x3b00_0000, 0xc4_3e20, 117, 0x80_0000, 117, 0x1_887c_4000_0000_0000, 0x0, 66, 0x2_0000_0000_0000_0000, 0x400_0000_0000);
    assert(div_spec(0x3b44_3e20, 0x3b00_0000) == 0x3fc4_3e20);
    assert(0xd2_9b93 * 0x20 + 0xc4_3e20 * 0x1 == 0x1b17_b080);
    lemma_sum_known(0x4252_9b93, 0x3fc4_3e20, false, 0xd2_9b93, 131, 0xc4_3e20, 126, 0x20, 0x1, 0x1b17_b080, 29, 0x1000_0000, 0x20);
}

/// The chord over interval 57.
proof fn lemma_chord_57()
    ensures
        chord_end(0x3d15_5e8d, 0x3d1d_5e8d, 0x4258_bd84, 0x425e_b40a) == 0x425e_b40a,
{
    reveal(chord_end);
    lemma2_to64();
    lemma2_to64_rest();
    lemma_high_powers();
    assert(0x9d_5e8d * 0x1 - 0x95_5e8d * 0x1 == 0x8_0000);
    lemma_sum_known(0x3d1d_5e8d, 0x3d15_5e8d, true, 0x9d_5e8d, 121, 0x95_5e8d, 121, 0x1, 0x1, 0x8_0000, 20, 0x8_0000, 0x10);
    assert(sub_spec(0x3d1d_5e8d, 0x3d15_5e8d) == 0x3b00_0000);
    assert(0xde_b40a * 0x1 - 0xd8_bd84 * 0x1 == 0x5_f686);
    lemma_sum_known(0x425e_b40a, 0x4258_bd84, true, 0xde_b40a, 131, 0xd8_bd84, 131, 0x1, 0x1, 0x5_f686, 19, 0x4_0000, 0x20);
    assert(sub_spec(0x425e_b40a, 0x4258_bd84) == 0x3fbe_d0c0);
    assert(0xbe_d0c0 * 0x80_0000 == 0x5f68_6000_0000);
    lemma_product_known(0x3fbe_d0c0, 0x3b00_0000, 0xbe_d0c0, 126, 0x80_0000, 117, 0x5f68_6000_0000, 47, 0x4000_0000_0000, 0x80_0000);
    assert(mul_spec(0x3fbe_d0c0, 0x3b00_0000) == 0x3b3e_d0c0);
    assert(0xbe_d0c0 * 0x1_0000_0000_0000_0000 == 0x1_7da1_8000_0000_0000 * 0x80_0000 + 0x0);
    lemma_quotient_known(0x3b3e_d0c0, 0x3b00_0000, 0xbe_d0c0, 117, 0x80_0000, 117, 0x1_7da1_8000_0000_0000, 0x0, 66, 0x2_0000_0000_0000_0000, 0x400_0000_0000);
    assert(div_spec(0x3b3e_d0c0, 0x3b00_0000) == 0x3fbe_d0c0);
    assert(0xd8_bd84 * 0x20 + 0xbe_d0c0 * 0x1 == 0x1bd6_8140);
    lemma_sum_known(0x4258_bd84, 0x3fbe_d0c0, false, 0xd8_bd84, 131, 0xbe_d0c0, 126, 0x20, 0x1, 0x1bd6_8140, 29, 0x1000_0000, 0x20);
}

/// The chord over interval 58.
proof fn lemma_chord_58()
    ensures
        chord_end(0x3d1d_5e8d, 0x3d25_5e8d, 0x425e_b40a, 0x4264_7d61) == 0x4264_7d61,
{
    reveal(chord_end);
    lemma2_to64();
    lemma2_to64_rest();
    lemma_high_powers();
    assert(0xa5_5e8d * 0x1 - 0x9d_5e8d * 0x1 == 0x8_0000);
    lemma_sum_known(0x3d25_5e8d, 0x3d1d_5e8d, true, 0xa5_5e8d, 121, 0x9d_5e8d, 121, 0x1, 0x1, 0x8_0000, 20, 0x8_0000, 0x10);
    assert(sub_spec(0x3d25_5e8d, 0x3d1d_5e8d) == 0x3b00_0000);
    assert(0xe4_7d61 * 0x1 - 0xde_b40a * 0x1 == 0x5_c957);
    lemma_sum_known(0x4264_7d61, 0x425e_b40a, true, 0xe4_7d61, 131, 0xde_b40a, 131, 0x1, 0x1, 0x5_c957, 19, 0x4_0000, 0x20);
    assert(sub_spec(0x4264_7d61, 0x425e_b40a) == 0x3fb9_2ae0);
    assert(0xb9_2ae0 * 0x80_0000 == 0x5c95_7000_0000);
    lemma_product_known(0x3fb9_2ae0, 0x3b00_0000, 0xb9_2ae0, 126, 0x80_0000, 117, 0x5c95_7000_0000, 47, 0x4000_0000_0000, 0x80_0000);
    assert(mul_spec(0x3fb9_2ae0, 0x3b00_0000) == 0x3b39_2ae0);
    assert(0xb9_2ae0 * 0x1_0000_0000_0000_0000 == 0x1_7255_c000_0000_0000 * 0x80_0000 + 0x0);
    lemma_quotient_known(0x3b39_2ae0, 0x3b00_0000, 0xb9_2ae0, 117, 0x80_0000, 117, 0x1_7255_c000_0000_0000, 0x0, 66, 0x2_0000_0000_0000_0000, 0x400_0000_0000);
    assert(div_spec(0x3b39_2ae0, 0x3b00_0000) == 0x3fb9_2ae0);
    assert(0xde_b40a * 0x20 + 0xb9_2ae0 * 0x1 == 0x1c8f_ac20);
    lemma_sum_known(0x425e_b40a, 0x3fb9_2ae0, false, 0xde_b40a, 131, 0xb9_2ae0, 126, 0x20, 0x1, 0x1c8f_ac20, 29, 0x1000_0000, 0x20);
}

/// The chord over interval 59.
proof fn lemma_chord_59()
    ensures
        chord_end(0x3d25_5e8d, 0x3d2d_5e8d, 0x4264_7d61, 0x426a_1ab9) == 0x426a_1ab9,
{
    reveal(chord_end);
    lemma2_to64();
    lemma2_to64_rest();
    lemma_high_powers();
    assert(0xad_5e8d * 0x1 - 0xa5_5e8d * 0x1 == 0x8_0000);
    lemma_sum_known(0x3d2d_5e8d, 0x3d25_5e8d, true, 0xad_5e8d, 121, 0xa5_5e8d, 121, 0x1, 0x1, 0x8_0000, 20, 0x8_0000, 0x10);
    assert(sub_spec(0x3d2d_5e8d, 0x3d25_5e8d) == 0x3b00_0000);
    assert(0xea_1ab9 * 0x1 - 0xe4_7d61 * 0x1 == 0x5_9d58);
    lemma_sum_known(0x426a_1ab9, 0x4264_7d61, true, 0xea_1ab9, 131, 0xe4_7d61, 131, 0x1, 0x1, 0x5_9d58, 19, 0x4_0000, 0x20);
    assert(sub_spec(0x426a_1ab9, 0x4264_7d61) == 0x3fb3_ab00);
    assert(0xb3_ab00 * 0x80_0000 == 0x59d5_8000_0000);
    lemma_product_known(0x3fb3_ab00, 0x3b00_0000, 0xb3_ab00, 126, 0x80_0000, 117, 0x59d5_8000_0000, 47, 0x4000_0000_0000, 0x80_0000);
    assert(mul_spec(0x3fb3_ab00, 0x3b00_0000) == 0x3b33_ab00);
    assert(0xb3_ab00 * 0x1_0000_0000_0000_0000 == 0x1_6756_0000_0000_0000 * 0x80_0000 + 0x0);
    lemma_quotient_known(0x3b33_ab00, 0x3b00_0000, 0xb3_ab00, 117, 0x80_0000, 117, 0x1_6756_0000_0000_0000, 0x0, 66, 0x2_0000_0000_0000_0000, 0x400_0000_0000);
    assert(div_spec(0x3b33_ab00, 0x3b00_0000) == 0x3fb3_ab00);
    assert(0xe4_7d61 * 0x20 + 0xb3_ab00 * 0x1 == 0x1d43_5720);
    lemma_sum_known(0x4264_7d61, 0x3fb3_ab00, false, 0xe4_7d61, 131, 0xb3_ab00, 126, 0x20, 0x1, 0x1d43_5720, 29, 0x1000_0000, 0x20);
}

/// The chord over interval 60.
proof fn lemma_chord_60()
    ensures
        chord_end(0x3d2d_5e8d, 0x3d35_5e8d, 0x426a_1ab9, 0x426f_87c9) == 0x426f_87c9,
{
    reveal(chord_end);
    lemma2_to64();
    lemma2_to64_rest();
    lemma_high_powers();
    assert(0xb5_5e8d * 0x1 - 0xad_5e8d * 0x1 == 0x8_0000);
    lemma_sum_known(0x3d35_5e8d, 0x3d2d_5e8d, true, 0xb5_5e8d, 121, 0xad_5e8d, 121, 0x1, 0x1, 0x8_0000, 20, 0x8_0000, 0x10);
    assert(sub_spec(0x3d35_5e8d, 0x3d2d_5e8d) == 0x3b00_0000);
    assert(0xef_87c9 * 0x1 - 0xea_1ab9 * 0x1 == 0x5_6d10);
    lemma_sum_known(0x426f_87c9, 0x426a_1ab9, true, 0xef_87c9, 131, 0xea_1ab9, 131, 0x1, 0x1, 0x5_6d10, 19, 0x4_0000, 0x20);
    assert(sub_spec(0x426f_87c9, 0x426a_1ab9) == 0x3fad_a200);
    assert(0xad_a200 * 0x80_0000 == 0x56d1_0000_0000);
    lemma_product_known(0x3fad_a200, 0x3b00_0000, 0xad_a200, 126, 0x80_0000, 117, 0x56d1_0000_0000, 47, 0x4000_0000_0000, 0x80_0000);
    assert(mul_spec(0x3fad_a200, 0x3b00_0000) == 0x3b2d_a200);
    assert(0xad_a200 * 0x1_0000_0000_0000_0000 == 0x1_5b44_0000_0000_0000 * 0x80_0000 + 0x0);
    lemma_quotient_known(0x3b2d_a200, 0x3b00_0000, 0xad_a200, 117, 0x80_0000, 117, 0x1_5b44_0000_0000_0000, 0x0, 66, 0x2_0000_0000_0000_0000, 0x400_0000_0000);
    assert(div_spec(0x3b2d_a200, 0x3b00_0000) == 0x3fad_a200);
    assert(0xea_1ab9 * 0x20 + 0xad_a200 * 0x1 == 0x1df0_f920);
    lemma_sum_known(0x426a_1ab9, 0x3fad_a200, false, 0xea_1ab9, 131, 0xad_a200, 126, 0x20, 0x1, 0x1df0_f920, 29, 0x1000_0000, 0x20);
}

/// The chord over interval 61.
proof fn lemma_chord_61()
    ensures
        chord_end(0x3d35_5e8d, 0x3d3d_5e8d, 0x426f_87c9, 0x4274_e277) == 0x4274_e277,
{
    reveal(chord_end);
    lemma2_to64();
    lemma2_to64_rest();
    lemma_high_powers();
    assert(0xbd_5e8d * 0x1 - 0xb5_5e8d * 0x1 == 0x8_0000);
    lemma_sum_known(0x3d3d_5e8d, 0x3d35_5e8d, true, 0xbd_5e8d, 121, 0xb5_5e8d, 121, 0x1, 0x1, 0x8_0000, 20, 0x8_0000, 0x10);
    assert(sub_spec(0x3d3d_5e8d, 0x3d35_5e8d) == 0x3b00_0000);
    assert(0xf4_e277 * 0x1 - 0xef_87c9 * 0x1 == 0x5_5aae);
    lemma_sum_known(0x4274_e277, 0x426f_87c9, true, 0xf4_e277, 131, 0xef_87c9, 131, 0x1, 0x1, 0x5_5aae, 19, 0x4_0000, 0x20);
    assert(sub_spec(0x4274_e277, 0x426f_87c9) == 0x3fab_55c0);
    assert(0xab_55c0 * 0x80_0000 == 0x55aa_e000_0000);
    lemma_product_known(0x3fab_55c0, 0x3b00_0000, 0xab_55c0, 126, 0x80_0000, 117, 0x55aa_e000_0000, 47, 0x4000_0000_0000, 0x80_0000);
    assert(mul_spec(0x3fab_55c0, 0x3b00_0000) == 0x3b2b_55c0);
    assert(0xab_55c0 * 0x1_0000_0000_0000_0000 == 0x1_56ab_8000_0000_0000 * 0x80_0000 + 0x0);
    lemma_quotient_known(0x3b2b_55c0, 0x3b00_0000, 0xab_55c0, 117, 0x80_0000, 117, 0x1_56ab_8000_0000_0000, 0x0, 66, 0x2_0000_0000_0000_0000, 0x400_0000_0000);
    assert(div_spec(0x3b2b_55c0, 0x3b00_0000) == 0x3fab_55c0);
    assert(0xef_87c9 * 0x20 + 0xab_55c0 * 0x1 == 0x1e9c_4ee0);
    lemma_sum_known(0x426f_87c9, 0x3fab_55c0, false, 0xef_87c9, 131, 0xab_55c0, 126, 0x20, 0x1, 0x1e9c_4ee0, 29, 0x1000_0000, 0x20);
}

/// The chord over interval 62.
proof fn lemma_chord_62()
    ensures
        chord_end(0x3d3d_5e8d, 0x3d45_5e8d, 0x4274_e277, 0x427a_1842) == 0x427a_1842,
{
    reveal(chord_end);
    lemma2_to64();
    lemma2_to64_rest();
    lemma_high_powers();
    assert(0xc5_5e8d * 0x1 - 0xbd_5e8d * 0x1 == 0x8_0000);
    lemma_sum_known(0x3d45_5e8d, 0x3d3d_5e8d, true, 0xc5_5e8d, 121, 0xbd_5e8d, 121, 0x1, 0x1, 0x8_0000, 20, 0x8_0000, 0x10);
    assert(sub_spec(0x3d45_5e8d, 0x3d3d_5e8d) == 0x3b00_0000);
    assert(0xfa_1842 * 0x1 - 0xf4_e277 * 0x1 == 0x5_35cb);
    lemma_sum_known(0x427a_1842, 0x4274_e277, true, 0xfa_1842, 131, 0xf4_e277, 131, 0x1, 0x1, 0x5_35cb, 19, 0x4_0000, 0x20);
    assert(sub_spec(0x427a_1842, 0x4274_e277) == 0x3fa6_b960);
    assert(0xa6_b960 * 0x80_0000 == 0x535c_b000_0000);
    lemma_product_known(0x3fa6_b960, 0x3b00_0000, 0xa6_b960, 126, 0x80_0000, 117, 0x535c_b000_0000, 47, 0x4000_0000_0000, 0x80_0000);
    assert(mul_spec(0x3fa6_b960, 0x3b00_0000) == 0x3b26_b960);
    assert(0xa6_b960 * 0x1_0000_0000_0000_0000 == 0x1_4d72_c000_0000_0000 * 0x80_0000 + 0x0);
    lemma_quotient_known(0x3b26_b960, 0x3b00_0000, 0xa6_b960, 117, 0x80_0000, 117, 0x1_4d72_c000_0000_0000, 0x0, 66, 0x2_0000_0000_0000_0000, 0x400_0000_0000);
    assert(div_spec(0x3b26_b960, 0x3b00_0000) == 0x3fa6_b960);
    assert(0xf4_e277 * 0x20 + 0xa6_b960 * 0x1 == 0x1f43_0840);
    lemma_sum_known(0x4274_e277, 0x3fa6_b960, false, 0xf4_e277, 131, 0xa6_b960, 126, 0x20, 0x1, 0x1f43_0840, 29, 0x1000_0000, 0x20);
}

/// The chord over interval 63.
proof fn lemma_chord_63()
    ensures
        chord_end(0x3d45_5e8d, 0x3d4d_5e8d, 0x427a_1842, 0x427f_24a9) == 0x427f_24a9,
{
    reveal(chord_end);
    lemma2_to64();
    lemma2_to64_rest();
    lemma_high_powers();
    assert(0xcd_5e8d * 0x1 - 0xc5_5e8d * 0x1 == 0x8_0000);
    lemma_sum_known(0x3d4d_5e8d, 0x3d45_5e8d, true, 0xcd_5e8d, 121, 0xc5_5e8d, 121, 0x1, 0x1, 0x8_0000, 20, 0x8_0000, 0x10);
    assert(sub_spec(0x3d4d_5e8d, 0x3d45_5e8d) == 0x3b00_0000);
    assert(0xff_24a9 * 0x1 - 0xfa_1842 * 0x1 == 0x5_0c67);
    lemma_sum_known(0x427f_24a9, 0x427a_1842, true, 0xff_24a9, 131, 0xfa_1842, 131, 0x1, 0x1, 0x5_0c67, 19, 0x4_0000, 0x20);
    assert(sub_spec(0x427f_24a9, 0x427a_1842) == 0x3fa1_8ce0);
    assert(0xa1_8ce0 * 0x80_0000 == 0x50c6_7000_0000);
    lemma_product_known(0x3fa1_8ce0, 0x3b00_0000, 0xa1_8ce0, 126, 0x80_0000, 117, 0x50c6_7000_0000, 47, 0x4000_0000_0000, 0x80_0000);
    assert(mul_spec(0x3fa1_8ce0, 0x3b00_0000) == 0x3b21_8ce0);
    assert(0xa1_8ce0 * 0x1_0000_0000_0000_0000 == 0x1_4319_c000_0000_0000 * 0x80_0000 + 0x0);
    lemma_quotient_known(0x3b21_8ce0, 0x3b00_0000, 0xa1_8ce0, 117, 0x80_0000, 117, 0x1_4319_c000_0000_0000, 0x0, 66, 0x2_0000_0000_0000_0000, 0x400_0000_0000);
    assert(div_spec(0x3b21_8ce0, 0x3b00_0000) == 0x3fa1_8ce0);
    assert(0xfa_1842 * 0x20 + 0xa1_8ce0 * 0x1 == 0x1fe4_9520);
    lemma_sum_known(0x427a_1842, 0x3fa1_8ce0, false, 0xfa_1842, 131, 0xa1_8ce0, 126, 0x20, 0x1, 0x1fe4_9520, 29, 0x1000_0000, 0x20);
}

/// The chord over interval 64.
proof fn lemma_chord_64()
    ensures
        chord_end(0x3d4d_5e8d, 0x3d55_5e8d, 0x427f_24a9, 0x4282_13c9) == 0x4282_13c9,
{
    reveal(chord_end);
    lemma2_to64();
    lemma2_to64_rest();
    lemma_high_powers();
    assert(0xd5_5e8d * 0x1 - 0xcd_5e8d * 0x1 == 0x8_0000);
    lemma_sum_known(0x3d55_5e8d, 0x3d4d_5e8d, true, 0xd5_5e8d, 121, 0xcd_5e8d, 121, 0x1, 0x1, 0x8_0000, 20, 0x8_0000, 0x10);
    assert(sub_spec(0x3d55_5e8d, 0x3d4d_5e8d) == 0x3b00_0000);
    assert(0x82_13c9 * 0x2 - 0xff_24a9 * 0x1 == 0x5_02e9);
    lemma_sum_known(0x4282_13c9, 0x427f_24a9, true, 0x82_13c9, 132, 0xff_24a9, 131, 0x2, 0x1, 0x5_02e9, 19, 0x4_0000, 0x20);
    assert(sub_spec(0x4282_13c9, 0x427f_24a9) == 0x3fa0_5d20);
    assert(0xa0_5d20 * 0x80_0000 == 0x502e_9000_0000);
    lemma_product_known(0x3fa0_5d20, 0x3b00_0000, 0xa0_5d20, 126, 0x80_0000, 117, 0x502e_9000_0000, 47, 0x4000_0000_0000, 0x80_0000);
    assert(mul_spec(0x3fa0_5d20, 0x3b00_0000) == 0x3b20_5d20);
    assert(0xa0_5d20 * 0x1_0000_0000_0000_0000 == 0x1_40ba_4000_0000_0000 * 0x80_0000 + 0x0);
    lemma_quotient_known(0x3b20_5d20, 0x3b00_0000, 0xa0_5d20, 117, 0x80_0000, 117, 0x1_40ba_4000_0000_0000, 0x0, 66, 0x2_0000_0000_0000_0000, 0x400_0000_0000);
    assert(div_spec(0x3b20_5d20, 0x3b00_0000) == 0x3fa0_5d20);
    assert(0xff_24a9 * 0x20 + 0xa0_5d20 * 0x1 == 0x2084_f240);
    lemma_sum_known(0x427f_24a9, 0x3fa0_5d20, false, 0xff_24a9, 131, 0xa0_5d20, 126, 0x20, 0x1, 0x2084_f240, 30, 0x2000_0000, 0x40);
}

/// The chord over interval 65.
proof fn lemma_chord_65()
    ensures
        chord_end(0x3d55_5e8d, 0x3d5d_5e8d, 0x4282_13c9, 0x4284_7678) == 0x4284_7678,
{
    reveal(chord_end);
    lemma2_to64();
    lemma2_to64_rest();
    lemma_high_powers();
    assert(0xdd_5e8d * 0x1 - 0xd5_5e8d * 0x1 == 0x8_0000);
    lemma_sum_known(0x3d5d_5e8d, 0x3d55_5e8d, true, 0xdd_5e8d, 121, 0xd5_5e8d, 121, 0x1, 0x1, 0x8_0000, 20, 0x8_0000, 0x10);
    assert(sub_spec(0x3d5d_5e8d, 0x3d55_5e8d) == 0x3b00_0000);
    assert(0x84_7678 * 0x1 - 0x82_13c9 * 0x1 == 0x2_62af);
    lemma_sum_known(0x4284_7678, 0x4282_13c9, true, 0x84_7678, 132, 0x82_13c9, 132, 0x1, 0x1, 0x2_62af, 18, 0x2_0000, 0x40);
    assert(sub_spec(0x4284_7678, 0x4282_13c9) == 0x3f98_abc0);
    assert(0x98_abc0 * 0x80_0000 == 0x4c55_e000_0000);
    lemma_product_known(0x3f98_abc0, 0x3b00_0000, 0x98_abc0, 126, 0x80_0000, 117, 0x4c55_e000_0000, 47, 0x4000_0000_0000, 0x80_0000);
    assert(mul_spec(0x3f98_abc0, 0x3b00_0000) == 0x3b18_abc0);
    assert(0x98_abc0 * 0x1_0000_0000_0000_0000 == 0x1_3157_8000_0000_0000 * 0x80_0000 + 0x0);
    lemma_quotient_known(0x3b18_abc0, 0x3b00_0000, 0x98_abc0, 117, 0x80_0000, 117, 0x1_3157_8000_0000_0000, 0x0, 66, 0x2_0000_0000_0000_0000, 0x400_0000_0000);
    assert(div_spec(0x3b18_abc0, 0x3b00_0000) == 0x3f98_abc0);
    assert(0x82_13c9 * 0x40 + 0x98_abc0 * 0x1 == 0x211d_9e00);
    lemma_sum_known(0x4282_13c9, 0x3f98_abc0, false, 0x82_13c9, 132, 0x98_abc0, 126, 0x40, 0x1, 0x211d_9e00, 30, 0x2000_0000, 0x40);
}

/// The chord over interval 66.
proof fn lemma_chord_66()
    ensures
        chord_end(0x3d5d_5e8d, 0x3d65_5e8d, 0x4284_7678, 0x4286_de3f) == 0x4286_de3f,
{
    reveal(chord_end);
    lemma2_to64();
    lemma2_to64_rest();
    lemma_high_powers();
    assert(0xe5_5e8d * 0x1 - 0xdd_5e8d * 0x1 == 0x8_0000);
    lemma_sum_known(0x3d65_5e8d, 0x3d5d_5e8d, true, 0xe5_5e8d, 121, 0xdd_5e8d, 121, 0x1, 0x1, 0x8_0000, 20, 0x8_0000, 0x10);
    assert(sub_spec(0x3d65_5e8d, 0x3d5d_5e8d) == 0x3b00_0000);
    assert(0x86_de3f * 0x1 - 0x84_7678 * 0x1 == 0x2_67c7);
    lemma_sum_known(0x4286_de3f, 0x4284_7678, true, 0x86_de3f, 132, 0x84_7678, 132, 0x1, 0x1, 0x2_67c7, 18, 0x2_0000, 0x40);
    assert(sub_spec(0x4286_de3f, 0x4284_7678) == 0x3f99_f1c0);
    assert(0x99_f1c0 * 0x80_0000 == 0x4cf8_e000_0000);
    lemma_product_known(0x3f99_f1c0, 0x3b00_0000, 0x99_f1c0, 126, 0x80_0000, 117, 0x4cf8_e000_0000, 47, 0x4000_0000_0000, 0x80_0000);
    assert(mul_spec(0x3f99_f1c0, 0x3b00_0000) == 0x3b19_f1c0);
    assert(0x99_f1c0 * 0x1_0000_0000_0000_0000 == 0x1_33e3_8000_0000_0000 * 0x80_0000 + 0x0);
    lemma_quotient_known(0x3b19_f1c0, 0x3b00_0000, 0x99_f1c0, 117, 0x80_0000, 117, 0x1_33e3_8000_0000_0000, 0x0, 66, 0x2_0000_0000_0000_0000, 0x400_0000_0000);
    assert(div_spec(0x3b19_f1c0, 0x3b00_0000) == 0x3f99_f1c0);
    assert(0x84_7678 * 0x40 + 0x99_f1c0 * 0x1 == 0x21b7_8fc0);
    lemma_sum_known(0x4284_7678, 0x3f99_f1c0, false, 0x84_7678, 132, 0x99_f1c0, 126, 0x40, 0x1, 0x21b7_8fc0, 30, 0x2000_0000, 0x40);
}

/// The chord over interval 67.
proof fn lemma_chord_67()
    ensures
        chord_end(0x3d65_5e8d, 0x3d6d_5e8d, 0x4286_de3f, 0x4289_29f3) == 0x4289_29f3,
{
    reveal(chord_end);
    lemma2_to64();
    lemma2_to64_rest();
    lemma_high_powers();
    assert(0xed_5e8d * 0x1 - 0xe5_5e8d * 0x1 == 0x8_0000);
    lemma_sum_known(0x3d6d_5e8d, 0x3d65_5e8d, true, 0xed_5e8d, 121, 0xe5_5e8d, 121, 0x1, 0x1, 0x8_0000, 20, 0x8_0000, 0x10);
    assert(sub_spec(0x3d6d_5e8d, 0x3d65_5e8d) == 0x3b00_0000);
    assert(0x89_29f3 * 0x1 - 0x86_de3f * 0x1 == 0x2_4bb4);
    lemma_sum_known(0x4289_29f3, 0x4286_de3f, true, 0x89_29f3, 132, 0x86_de3f, 132, 0x1, 0x1, 0x2_4bb4, 18, 0x2_0000, 0x40);
    assert(sub_spec(0x4289_29f3, 0x4286_de3f) == 0x3f92_ed00);
    assert(0x92_ed00 * 0x80_0000 == 0x4976_8000_0000);
    lemma_product_known(0x3f92_ed00, 0x3b00_0000, 0x92_ed00, 126, 0x80_0000, 117, 0x4976_8000_0000, 47, 0x4000_0000_0000, 0x80_0000);
    assert(mul_spec(0x3f92_ed00, 0x3b00_0000) == 0x3b12_ed00);
    assert(0x92_ed00 * 0x1_0000_0000_0000_0000 == 0x1_25da_0000_0000_0000 * 0x80_0000 + 0x0);
    lemma_quotient_known(0x3b12_ed00, 0x3b00_0000, 0x92_ed00, 117, 0x80_0000, 117, 0x1_25da_0000_0000_0000, 0x0, 66, 0x2_0000_0000_0000_0000, 0x400_0000_0000);
    assert(div_spec(0x3b12_ed00, 0x3b00_0000) == 0x3f92_ed00);
    assert(0x86_de3f * 0x40 + 0x92_ed00 * 0x1 == 0x224a_7cc0);
    lemma_sum_known(0x4286_de3f, 0x3f92_ed00, false, 0x86_de3f, 132, 0x92_ed00, 126, 0x40, 0x1, 0x224a_7cc0, 30, 0x2000_0000, 0x40);
}

/// The chord over interval 68.
proof fn lemma_chord_68()
    ensures
        chord_end(0x3d6d_5e8d, 0x3d75_5e8d, 0x4289_29f3, 0x428b_7927) == 0x428b_7927,
{
    reveal(chord_end);
    lemma2_to64();
    lemma2_to64_rest();
    lemma_high_powers();
    assert(0xf5_5e8d * 0x1 - 0xed_5e8d * 0x1 == 0x8_0000);
    lemma_sum_known(0x3d75_5e8d, 0x3d6d_5e8d, true, 0xf5_5e8d, 121, 0xed_5e8d, 121, 0x1, 0x1, 0x8_0000, 20, 0x8_0000, 0x10);
    assert(sub_spec(0x3d75_5e8d, 0x3d6d_5e8d) == 0x3b00_0000);
    assert(0x8b_7927 * 0x1 - 0x89_29f3 * 0x1 == 0x2_4f34);
    lemma_sum_known(0x428b_7927, 0x4289_29f3, true, 0x8b_7927, 132, 0x89_29f3, 132, 0x1, 0x1, 0x2_4f34, 18, 0x2_0000, 0x40);
    assert(sub_spec(0x428b_7927, 0x4289_29f3) == 0x3f93_cd00);
    assert(0x93_cd00 * 0x80_0000 == 0x49e6_8000_0000);
    lemma_product_known(0x3f93_cd00, 0x3b00_0000, 0x93_cd00, 126, 0x80_0000, 117, 0x49e6_8000_0000, 47, 0x4000_0000_0000, 0x80_0000);
    assert(mul_spec(0x3f93_cd00, 0x3b00_0000) == 0x3b13_cd00);
    assert(0x93_cd00 * 0x1_0000_0000_0000_0000 == 0x1_279a_0000_0000_0000 * 0x80_0000 + 0x0);
    lemma_quotient_known(0x3b13_cd00, 0x3b00_0000, 0x93_cd00, 117, 0x80_0000, 117, 0x1_279a_0000_0000_0000, 0x0, 66, 0x2_0000_0000_0000_0000, 0x400_0000_0000);
    assert(div_spec(0x3b13_cd00, 0x3b00_0000) == 0x3f93_cd00);
    assert(0x89_29f3 * 0x40 + 0x93_cd00 * 0x1 == 0x22de_49c0);
    lemma_sum_known(0x4289_29f3, 0x3f93_cd00, false, 0x89_29f3, 132, 0x93_cd00, 126, 0x40, 0x1, 0x22de_49c0, 30, 0x2000_0000, 0x40);
}

/// The chord over interval 69.
proof fn lemma_chord_69()
    ensures
        chord_end(0x3d75_5e8d, 0x3d7d_5e8d, 0x428b_7927, 0x428d_b839) == 0x428d_b839,
{
    reveal(chord_end);
    lemma2_to64();
    lemma2_to64_rest();
    lemma_high_powers();
    assert(0xfd_5e8d * 0x1 - 0xf5_5e8d * 0x1 == 0x8_0000);
    lemma_sum_known(0x3d7d_5e8d, 0x3d75_5e8d, true, 0xfd_5e8d, 121, 0xf5_5e8d, 121, 0x1, 0x1, 0x8_0000, 20, 0x8_0000, 0x10);
    assert(sub_spec(0x3d7d_5e8d, 0x3d75_5e8d) == 0x3b00_0000);
    assert(0x8d_b839 * 0x1 - 0x8b_7927 * 0x1 == 0x2_3f12);
    lemma_sum_known(0x428d_b839, 0x428b_7927, true, 0x8d_b839, 132, 0x8b_7927, 132, 0x1, 0x1, 0x2_3f12, 18, 0x2_0000, 0x40);
    assert(sub_spec(0x428d_b839, 0x428b_7927) == 0x3f8f_c480);
    assert(0x8f_c480 * 0x80_0000 == 0x47e2_4000_0000);
    lemma_product_known(0x3f8f_c480, 0x3b00_0000, 0x8f_c480, 126, 0x80_0000, 117, 0x47e2_4000_0000, 47, 0x4000_0000_0000, 0x80_0000);
    assert(mul_spec(0x3f8f_c480, 0x3b00_0000) == 0x3b0f_c480);
    assert(0x8f_c480 * 0x1_0000_0000_0000_0000 == 0x1_1f89_0000_0000_0000 * 0x80_0000 + 0x0);
    lemma_quotient_known(0x3b0f_c480, 0x3b00_0000, 0x8f_c480, 117, 0x80_0000, 117, 0x1_1f89_0000_0000_0000, 0x0, 66, 0x2_0000_0000_0000_0000, 0x400_0000_0000);
    assert(div_spec(0x3b0f_c480, 0x3b00_0000) == 0x3f8f_c480);
    assert(0x8b_7927 * 0x40 + 0x8f_c480 * 0x1 == 0x236e_0e40);
    lemma_sum_known(0x428b_7927, 0x3f8f_c480, false, 0x8b_7927, 132, 0x8f_c480, 126, 0x40, 0x1, 0x236e_0e40, 30, 0x2000_0000, 0x40);
}

/// The chord over interval 70.
proof fn lemma_chord_70()
    ensures
        chord_end(0x3d7d_5e8d, 0x3d85_5e8d, 0x428d_b839, 0x4291_6215) == 0x4291_6215,
{
    reveal(chord_end);
    lemma2_to64();
    lemma2_to64_rest();
    lemma_high_powers();
    assert(0x85_5e8d * 0x2 - 0xfd_5e8d * 0x1 == 0xd_5e8d);
    lemma_sum_known(0x3d85_5e8d, 0x3d7d_5e8d, true, 0x85_5e8d, 122, 0xfd_5e8d, 121, 0x2, 0x1, 0xd_5e8d, 20, 0x8_0000, 0x10);
    assert(sub_spec(0x3d85_5e8d, 0x3d7d_5e8d) == 0x3b55_e8d0);
    assert(0x91_6215 * 0x1 - 0x8d_b839 * 0x1 == 0x3_a9dc);
    lemma_sum_known(0x4291_6215, 0x428d_b839, true, 0x91_6215, 132, 0x8d_b839, 132, 0x1, 0x1, 0x3_a9dc, 18, 0x2_0000, 0x40);
    assert(sub_spec(0x4291_6215, 0x428d_b839) == 0x3fea_7700);
    assert(0xea_7700 * 0xd5_e8d0 == 0xc3ea_3d58_b000);
    lemma_product_known(0x3fea_7700, 0x3b55_e8d0, 0xea_7700, 126, 0xd5_e8d0, 117, 0xc3ea_3d58_b000, 48, 0x8000_0000_0000, 0x100_0000);
    assert(mul_spec(0x3fea_7700, 0x3b55_e8d0) == 0x3bc3_ea3d);
    assert(0xc3_ea3d * 0x1_0000_0000_0000_0000 == 0xea76_ff95_dc93_0a3f * 0xd5_e8d0 + 0xd3_94d0);
    lemma_quotient_known(0x3bc3_ea3d, 0x3b55_e8d0, 0xc3_ea3d, 118, 0xd5_e8d0, 117, 0xea76_ff95_dc93_0a3f, 0xd3_94d0, 65, 0x1_0000_0000_0000_0000, 0x200_0000_0000);
    assert(div_spec(0x3bc3_ea3d, 0x3b55_e8d0) == 0x3fea_7700);
    assert(0x8d_b839 * 0x40 + 0xea_7700 * 0x1 == 0x2458_8540);
    lemma_sum_known(0x428d_b839, 0x3fea_7700, false, 0x8d_b839, 132, 0xea_7700, 126, 0x40, 0x1, 0x2458_8540, 30, 0x2000_0000, 0x40);
}

/// The chord over interval 71.
proof fn lemma_chord_71()
    ensures
        chord_end(0x3d85_5e8d, 0x3d8d_5e8d, 0x4291_6215, 0x4295_9e74) == 0x4295_9e74,
{
    reveal(chord_end);
    lemma2_to64();
    lemma2_to64_rest();
    lemma_high_powers();
    assert(0x8d_5e8d * 0x1 - 0x85_5e8d * 0x1 == 0x8_0000);
    lemma_sum_known(0x3d8d_5e8d, 0x3d85_5e8d, true, 0x8d_5e8d, 122, 0x85_5e8d, 122, 0x1, 0x1, 0x8_0000, 20, 0x8_0000, 0x10);
    assert(sub_spec(0x3d8d_5e8d, 0x3d85_5e8d) == 0x3b80_0000);
    assert(0x95_9e74 * 0x1 - 0x91_6215 * 0x1 == 0x4_3c5f);
    lemma_sum_known(0x4295_9e74, 0x4291_6215, true, 0x95_9e74, 132, 0x91_6215, 132, 0x1, 0x1, 0x4_3c5f, 19, 0x4_0000, 0x20);
    assert(sub_spec(0x4295_9e74, 0x4291_6215) == 0x4007_8be0);
    assert(0x87_8be0 * 0x80_0000 == 0x43c5_f000_0000);
    lemma_product_known(0x4007_8be0, 0x3b80_0000, 0x87_8be0, 127, 0x80_0000, 118, 0x43c5_f000_0000, 47, 0x4000_0000_0000, 0x80_0000);
    assert(mul_spec(0x4007_8be0, 0x3b80_0000) == 0x3c07_8be0);
    assert(0x87_8be0 * 0x1_0000_0000_0000_0000 == 0x1_0f17_c000_0000_0000 * 0x80_0000 + 0x0);
    lemma_quotient_known(0x3c07_8be0, 0x3b80_0000, 0x87_8be0, 119, 0x80_0000, 118, 0x1_0f17_c000_0000_0000, 0x0, 66, 0x2_0000_0000_0000_0000, 0x400_0000_0000);
    assert(div_spec(0x3c07_8be0, 0x3b80_0000) == 0x4007_8be0);
    assert(0x91_6215 * 0x20 + 0x87_8be0 * 0x1 == 0x12b3_ce80);
    lemma_sum_known(0x4291_6215, 0x4007_8be0, false, 0x91_6215, 132, 0x87_8be0, 127, 0x20, 0x1, 0x12b3_ce80, 29, 0x1000_0000, 0x20);
}

/// The chord over interval 72.
proof fn lemma_chord_72()
    ensures
        chord_end(0x3d8d_5e8d, 0x3d95_5e8d, 0x4295_9e74, 0x4299_b633) == 0x4299_b633,
{
    reveal(chord_end);
    lemma2_to64();
    lemma2_to64_rest();
    lemma_high_powers();
    assert(0x95_5e8d * 0x1 - 0x8d_5e8d * 0x1 == 0x8_0000);
    lemma_sum_known(0x3d95_5e8d, 0x3d8d_5e8d, true, 0x95_5e8d, 122, 0x8d_5e8d, 122, 0x1, 0x1, 0x8_0000, 20, 0x8_0000, 0x10);
    assert(sub_spec(0x3d95_5e8d, 0x3d8d_5e8d) == 0x3b80_0000);
    assert(0x99_b633 * 0x1 - 0x95_9e74 * 0x1 == 0x4_17bf);
    lemma_sum_known(0x4299_b633, 0x4295_9e74, true, 0x99_b633, 132, 0x95_9e74, 132, 0x1, 0x1, 0x4_17bf, 19, 0x4_0000, 0x20);
    assert(sub_spec(0x4299_b633, 0x4295_9e74) == 0x4002_f7e0);
    assert(0x82_f7e0 * 0x80_0000 == 0x417b_f000_0000);
    lemma_product_known(0x4002_f7e0, 0x3b80_0000, 0x82_f7e0, 127, 0x80_0000, 118, 0x417b_f000_0000, 47, 0x4000_0000_0000, 0x80_0000);
    assert(mul_spec(0x4002_f7e0, 0x3b80_0000) == 0x3c02_f7e0);
    assert(0x82_f7e0 * 0x1_0000_0000_0000_0000 == 0x1_05ef_c000_0000_0000 * 0x80_0000 + 0x0);
    lemma_quotient_known(0x3c02_f7e0, 0x3b80_0000, 0x82_f7e0, 119, 0x80_0000, 118, 0x1_05ef_c000_0000_0000, 0x0, 66, 0x2_0000_0000_0000_0000, 0x400_0000_0000);
    assert(div_spec(0x3c02_f7e0, 0x3b80_0000) == 0x4002_f7e0);
    assert(0x95_9e74 * 0x20 + 0x82_f7e0 * 0x1 == 0x1336_c660);
    lemma_sum_known(0x4295_9e74, 0x4002_f7e0, false, 0x95_9e74, 132, 0x82_f7e0, 127, 0x20, 0x1, 0x1336_c660, 29, 0x1000_0000, 0x20);
}

/// The chord over interval 73.
proof fn lemma_chord_73()
    ensures
        chord_end(0x3d95_5e8d, 0x3d9d_5e8d, 0x4299_b633, 0x429d_aea5) == 0x429d_aea5,
{
    reveal(chord_end);
    lemma2_to64();
    lemma2_to64_rest();
    lemma_high_powers();
    assert(0x9d_5e8d * 0x1 - 0x95_5e8d * 0x1 == 0x8_0000);
    lemma_sum_known(0x3d9d_5e8d, 0x3d95_5e8d, true, 0x9d_5e8d, 122, 0x95_5e8d, 122, 0x1, 0x1, 0x8_0000, 20, 0x8_0000, 0x10);
    assert(sub_spec(0x3d9d_5e8d, 0x3d95_5e8d) == 0x3b80_0000);
    assert(0x9d_aea5 * 0x1 - 0x99_b633 * 0x1 == 0x3_f872);
    lemma_sum_known(0x429d_aea5, 0x4299_b633, true, 0x9d_aea5, 132, 0x99_b633, 132, 0x1, 0x1, 0x3_f872, 18, 0x2_0000, 0x40);
    assert(sub_spec(0x429d_aea5, 0x4299_b633) == 0x3ffe_1c80);
    assert(0xfe_1c80 * 0x80_0000 == 0x7f0e_4000_0000);
    lemma_product_known(0x3ffe_1c80, 0x3b80_0000, 0xfe_1c80, 126, 0x80_0000, 118, 0x7f0e_4000_0000, 47, 0x4000_0000_0000, 0x80_0000);
    assert(mul_spec(0x3ffe_1c80, 0x3b80_0000) == 0x3bfe_1c80);
    assert(0xfe_1c80 * 0x1_0000_0000_0000_0000 == 0x1_fc39_0000_0000_0000 * 0x80_0000 + 0x0);
    lemma_quotient_known(0x3bfe_1c80, 0x3b80_0000, 0xfe_1c80, 118, 0x80_0000, 118, 0x1_fc39_0000_0000_0000, 0x0, 66, 0x2_0000_0000_0000_0000, 0x400_0000_0000);
    assert(div_spec(0x3bfe_1c80, 0x3b80_0000) == 0x3ffe_1c80);
    assert(0x99_b633 * 0x40 + 0xfe_1c80 * 0x1 == 0x276b_a940);
    lemma_sum_known(0x4299_b633, 0x3ffe_1c80, false, 0x99_b633, 132, 0xfe_1c80, 126, 0x40, 0x1, 0x276b_a940, 30, 0x2000_0000, 0x40);
}

/// The chord over interval 74.
proof fn lemma_chord_74()
    ensures
        chord_end(0x3d9d_5e8d, 0x3da5_5e8d, 0x429d_aea5, 0x42a1_89c3) == 0x42a1_89c3,
{
    reveal(chord_end);
    lemma2_to64();
    lemma2_to64_rest();
    lemma_high_powers();
    assert(0xa5_5e8d * 0x1 - 0x9d_5e8d * 0x1 == 0x8_0000);
    lemma_sum_known(0x3da5_5e8d, 0x3d9d_5e8d, true, 0xa5_5e8d, 122, 0x9d_5e8d, 122, 0x1, 0x1, 0x8_0000, 20, 0x8_0000, 0x10);
    assert(sub_spec(0x3da5_5e8d, 0x3d9d_5e8d) == 0x3b80_0000);
    assert(0xa1_89c3 * 0x1 - 0x9d_aea5 * 0x1 == 0x3_db1e);
    lemma_sum_known(0x42a1_89c3, 0x429d_aea5, true, 0xa1_89c3, 132, 0x9d_aea5, 132, 0x1, 0x1, 0x3_db1e, 18, 0x2_0000, 0x40);
    assert(sub_spec(0x42a1_89c3, 0x429d_aea5) == 0x3ff6_c780);
    assert(0xf6_c780 * 0x80_0000 == 0x7b63_c000_0000);
    lemma_product_known(0x3ff6_c780, 0x3b80_0000, 0xf6_c780, 126, 0x80_0000, 118, 0x7b63_c000_0000, 47, 0x4000_0000_0000, 0x80_0000);
    assert(mul_spec(0x3ff6_c780, 0x3b80_0000) == 0x3bf6_c780);
    assert(0xf6_c780 * 0x1_0000_0000_0000_0000 == 0x1_ed8f_0000_0000_0000 * 0x80_0000 + 0x0);
    lemma_quotient_known(0x3bf6_c780, 0x3b80_0000, 0xf6_c780, 118, 0x80_0000, 118, 0x1_ed8f_0000_0000_0000, 0x0, 66, 0x2_0000_0000_0000_0000, 0x400_0000_0000);
    assert(div_spec(0x3bf6_c780, 0x3b80_0000) == 0x3ff6_c780);
    assert(0x9d_aea5 * 0x40 + 0xf6_c780 * 0x1 == 0x2862_70c0);
    lemma_sum_known(0x429d_aea5, 0x3ff6_c780, false, 0x9d_aea5, 132, 0xf6_c780, 126, 0x40, 0x1, 0x2862_70c0, 30, 0x2000_0000, 0x40);
}

/// The chord over interval 75.
proof fn lemma_chord_75()
    ensures
        chord_end(0x3da5_5e8d, 0x3dad_5e8d, 0x42a1_89c3, 0x42a5_498f) == 0x42a5_498f,
{
    reveal(chord_end);
    lemma2_to64();
    lemma2_to64_rest();
    lemma_high_powers();
    assert(0xad_5e8d * 0x1 - 0xa5_5e8d * 0x1 == 0x8_0000);
    lemma_sum_known(0x3dad_5e8d, 0x3da5_5e8d, true, 0xad_5e8d, 122, 0xa5_5e8d, 122, 0x1, 0x1, 0x8_0000, 20, 0x8_0000, 0x10);
    assert(sub_spec(0x3dad_5e8d, 0x3da5_5e8d) == 0x3b80_0000);
    assert(0xa5_498f * 0x1 - 0xa1_89c3 * 0x1 == 0x3_bfcc);
    lemma_sum_known(0x42a5_498f, 0x42a1_89c3, true, 0xa5_498f, 132, 0xa1_89c3, 132, 0x1, 0x1, 0x3_bfcc, 18, 0x2_0000, 0x40);
    assert(sub_spec(0x42a5_498f, 0x42a1_89c3) == 0x3fef_f300);
    assert(0xef_f300 * 0x80_0000 == 0x77f9_8000_0000);
    lemma_product_known(0x3fef_f300, 0x3b80_0000, 0xef_f300, 126, 0x80_0000, 118, 0x77f9_8000_0000, 47, 0x4000_0000_0000, 0x80_0000);
    assert(mul_spec(0x3fef_f300, 0x3b80_0000) == 0x3bef_f300);
    assert(0xef_f300 * 0x1_0000_0000_0000_0000 == 0x1_dfe6_0000_0000_0000 * 0x80_0000 + 0x0);
    lemma_quotient_known(0x3bef_f300, 0x3b80_0000, 0xef_f300, 118, 0x80_0000, 118, 0x1_dfe6_0000_0000_0000, 0x0, 66, 0x2_0000_0000_0000_0000, 0x400_0000_0000);
    assert(div_spec(0x3bef_f300, 0x3b80_0000) == 0x3fef_f300);
    assert(0xa1_89c3 * 0x40 + 0xef_f300 * 0x1 == 0x2952_63c0);
    lemma_sum_known(0x42a1_89c3, 0x3fef_f300, false, 0xa1_89c3, 132, 0xef_f300, 126, 0x40, 0x1, 0x2952_63c0, 30, 0x2000_0000, 0x40);
}

/// The chord over interval 76.
proof fn lemma_chord_76()
    ensures
        chord_end(0x3dad_5e8d, 0x3db5_5e8d, 0x42a5_498f, 0x42a8_efaa) == 0x42a8_efaa,
{
    reveal(chord_end);
    lemma2_to64();
    lemma2_to64_rest();
    lemma_high_powers();
    assert(0xb5_5e8d * 0x1 - 0xad_5e8d * 0x1 == 0x8_0000);
    lemma_sum_known(0x3db5_5e8d, 0x3dad_5e8d, true, 0xb5_5e8d, 122, 0xad_5e8d, 122, 0x1, 0x1, 0x8_0000, 20, 0x8_0000, 0x10);
    assert(sub_spec(0x3db5_5e8d, 0x3dad_5e8d) == 0x3b80_0000);
    assert(0xa8_efaa * 0x1 - 0xa5_498f * 0x1 == 0x3_a61b);
    lemma_sum_known(0x42a8_efaa, 0x42a5_498f, true, 0xa8_efaa, 132, 0xa5_498f, 132, 0x1, 0x1, 0x3_a61b, 18, 0x2_0000, 0x40);
    assert(sub_spec(0x42a8_efaa, 0x42a5_498f) == 0x3fe9_86c0);
    assert(0xe9_86c0 * 0x80_0000 == 0x74c3_6000_0000);
    lemma_product_known(0x3fe9_86c0, 0x3b80_0000, 0xe9_86c0, 126, 0x80_0000, 118, 0x74c3_6000_0000, 47, 0x4000_0000_0000, 0x80_0000);
    assert(mul_spec(0x3fe9_86c0, 0x3b80_0000) == 0x3be9_86c0);
    assert(0xe9_86c0 * 0x1_0000_0000_0000_0000 == 0x1_d30d_8000_0000_0000 * 0x80_0000 + 0x0);
    lemma_quotient_known(0x3be9_86c0, 0x3b80_0000, 0xe9_86c0, 118, 0x80_0000, 118, 0x1_d30d_8000_0000_0000, 0x0, 66, 0x2_0000_0000_0000_0000, 0x400_0000_0000);
    assert(div_spec(0x3be9_86c0, 0x3b80_0000) == 0x3fe9_86c0);
    assert(0xa5_498f * 0x40 + 0xe9_86c0 * 0x1 == 0x2a3b_ea80);
    lemma_sum_known(0x42a5_498f, 0x3fe9_86c0, false, 0xa5_498f, 132, 0xe9_86c0, 126, 0x40, 0x1, 0x2a3b_ea80, 30, 0x2000_0000, 0x40);
}

/// The chord over interval 77.
proof fn lemma_chord_77()
    ensures
        chord_end(0x3db5_5e8d, 0x3dbd_5e8d, 0x42a8_efaa, 0x42ac_7bd0) == 0x42ac_7bd0,
{
    reveal(chord_end);
    lemma2_to64();
    lemma2_to64_rest();
    lemma_high_powers();
    assert(0xbd_5e8d * 0x1 - 0xb5_5e8d * 0x1 == 0x8_0000);
    lemma_sum_known(0x3dbd_5e8d, 0x3db5_5e8d, true, 0xbd_5e8d, 122, 0xb5_5e8d, 122, 0x1, 0x1, 0x8_0000, 20, 0x8_0000, 0x10);
    assert(sub_spec(0x3dbd_5e8d, 0x3db5_5e8d) == 0x3b80_0000);
    assert(0xac_7bd0 * 0x1 - 0xa8_efaa * 0x1 == 0x3_8c26);
    lemma_sum_known(0x42ac_7bd0, 0x42a8_efaa, true, 0xac_7bd0, 132, 0xa8_efaa, 132, 0x1, 0x1, 0x3_8c26, 18, 0x2_0000, 0x40);
    assert(sub_spec(0x42ac_7bd0, 0x42a8_efaa) == 0x3fe3_0980);
    assert(0xe3_0980 * 0x80_0000 == 0x7184_c000_0000);
    lemma_product_known(0x3fe3_0980, 0x3b80_0000, 0xe3_0980, 126, 0x80_0000, 118, 0x7184_c000_0000, 47, 0x4000_0000_0000, 0x80_0000);
    assert(mul_spec(0x3fe3_0980, 0x3b80_0000) == 0x3be3_0980);
    assert(0xe3_0980 * 0x1_0000_0000_0000_0000 == 0x1_c613_0000_0000_0000 * 0x80_0000 + 0x0);
    lemma_quotient_known(0x3be3_0980, 0x3b80_0000, 0xe3_0980, 118, 0x80_0000, 118, 0x1_c613_0000_0000_0000, 0x0, 66, 0x2_0000_0000_0000_0000, 0x400_0000_0000);
    assert(div_spec(0x3be3_0980, 0x3b80_0000) == 0x3fe3_0980);
    assert(0xa8_efaa * 0x40 + 0xe3_0980 * 0x1 == 0x2b1e_f400);
    lemma_sum_known(0x42a8_efaa, 0x3fe3_0980, false, 0xa8_efaa, 132, 0xe3_0980, 126, 0x40, 0x1, 0x2b1e_f400, 30, 0x2000_0000, 0x40);
}

/// The chord over interval 78.
proof fn lemma_chord_78()
    ensures
        chord_end(0x3dbd_5e8d, 0x3dc5_5e8d, 0x42ac_7bd0, 0x42af_f5f2) == 0x42af_f5f2,
{
    reveal(chord_end);
    lemma2_to64();
    lemma2_to64_rest();
    lemma_high_powers();
    assert(0xc5_5e8d * 0x1 - 0xbd_5e8d * 0x1 == 0x8_0000);
    lemma_sum_known(0x3dc5_5e8d, 0x3dbd_5e8d, true, 0xc5_5e8d, 122, 0xbd_5e8d, 122, 0x1, 0x1, 0x8_0000, 20, 0x8_0000, 0x10);
    assert(sub_spec(0x3dc5_5e8d, 0x3dbd_5e8d) == 0x3b80_0000);
    assert(0xaf_f5f2 * 0x1 - 0xac_7bd0 * 0x1 == 0x3_7a22);
    lemma_sum_known(0x42af_f5f2, 0x42ac_7bd0, true, 0xaf_f5f2, 132, 0xac_7bd0, 132, 0x1, 0x1, 0x3_7a22, 18, 0x2_0000, 0x40);
    assert(sub_spec(0x42af_f5f2, 0x42ac_7bd0) == 0x3fde_8880);
    assert(0xde_8880 * 0x80_0000 == 0x6f44_4000_0000);
    lemma_product_known(0x3fde_8880, 0x3b80_0000, 0xde_8880, 126, 0x80_0000, 118, 0x6f44_4000_0000, 47, 0x4000_0000_0000, 0x80_0000);
    assert(mul_spec(0x3fde_8880, 0x3b80_0000) == 0x3bde_8880);
    assert(0xde_8880 * 0x1_0000_0000_0000_0000 == 0x1_bd11_0000_0000_0000 * 0x80_0000 + 0x0);
    lemma_quotient_known(0x3bde_8880, 0x3b80_0000, 0xde_8880, 118, 0x80_0000, 118, 0x1_bd11_0000_0000_0000, 0x0, 66, 0x2_0000_0000_0000_0000, 0x400_0000_0000);
    assert(div_spec(0x3bde_8880, 0x3b80_0000) == 0x3fde_8880);
    assert(0xac_7bd0 * 0x40 + 0xde_8880 * 0x1 == 0x2bfd_7c80);
    lemma_sum_known(0x42ac_7bd0, 0x3fde_8880, false, 0xac_7bd0, 132, 0xde_8880, 126, 0x40, 0x1, 0x2bfd_7c80, 30, 0x2000_0000, 0x40);
}

/// The chord over interval 79.
proof fn lemma_chord_79()
    ensures
        chord_end(0x3dc5_5e8d, 0x3dcd_5e8d, 0x42af_f5f2, 0x42b3_5847) == 0x42b3_5847,
{
    reveal(chord_end);
    lemma2_to64();
    lemma2_to64_rest();
    lemma_high_powers();
    assert(0xcd_5e8d * 0x1 - 0xc5_5e8d * 0x1 == 0x8_0000);
    lemma_sum_known(0x3dcd_5e8d, 0x3dc5_5e8d, true, 0xcd_5e8d, 122, 0xc5_5e8d, 122, 0x1, 0x1, 0x8_0000, 20, 0x8_0000, 0x10);
    assert(sub_spec(0x3dcd_5e8d, 0x3dc5_5e8d) == 0x3b80_0000);
    assert(0xb3_5847 * 0x1 - 0xaf_f5f2 * 0x1 == 0x3_6255);
    lemma_sum_known(0x42b3_5847, 0x42af_f5f2, true, 0xb3_5847, 132, 0xaf_f5f2, 132, 0x1, 0x1, 0x3_6255, 18, 0x2_0000, 0x40);
    assert(sub_spec(0x42b3_5847, 0x42af_f5f2) == 0x3fd8_9540);
    assert(0xd8_9540 * 0x80_0000 == 0x6c4a_a000_0000);
    lemma_product_known(0x3fd8_9540, 0x3b80_0000, 0xd8_9540, 126, 0x80_0000, 118, 0x6c4a_a000_0000, 47, 0x4000_0000_0000, 0x80_0000);
    assert(mul_spec(0x3fd8_9540, 0x3b80_0000) == 0x3bd8_9540);
    assert(0xd8_9540 * 0x1_0000_0000_0000_0000 == 0x1_b12a_8000_0000_0000 * 0x80_0000 + 0x0);
    lemma_quotient_known(0x3bd8_9540, 0x3b80_0000, 0xd8_9540, 118, 0x80_0000, 118, 0x1_b12a_8000_0000_0000, 0x0, 66, 0x2_0000_0000_0000_0000, 0x400_0000_0000);
    assert(div_spec(0x3bd8_9540, 0x3b80_0000) == 0x3fd8_9540);
    assert(0xaf_f5f2 * 0x40 + 0xd8_9540 * 0x1 == 0x2cd6_11c0);
    lemma_sum_known(0x42af_f5f2, 0x3fd8_9540, false, 0xaf_f5f2, 132, 0xd8_9540, 126, 0x40, 0x1, 0x2cd6_11c0, 30, 0x2000_0000, 0x40);
}

/// The chord over interval 80.
proof fn lemma_chord_80()
    ensures
        chord_end(0x3dcd_5e8d, 0x3dd5_5e8d, 0x42b3_5847, 0x42b6_a643) == 0x42b6_a643,
{
    reveal(chord_end);
    lemma2_to64();
    lemma2_to64_rest();
    lemma_high_powers();
    assert(0xd5_5e8d * 0x1 - 0xcd_5e8d * 0x1 == 0x8_0000);
    lemma_sum_known(0x3dd5_5e8d, 0x3dcd_5e8d, true, 0xd5_5e8d, 122, 0xcd_5e8d, 122, 0x1, 0x1, 0x8_0000, 20, 0x8_0000, 0x10);
    assert(sub_spec(0x3dd5_5e8d, 0x3dcd_5e8d) == 0x3b80_0000);
    assert(0xb6_a643 * 0x1 - 0xb3_5847 * 0x1 == 0x3_4dfc);
    lemma_sum_known(0x42b6_a643, 0x42b3_5847, true, 0xb6_a643, 132, 0xb3_5847, 132, 0x1, 0x1, 0x3_4dfc, 18, 0x2_0000, 0x40);
    assert(sub_spec(0x42b6_a643, 0x42b3_5847) == 0x3fd3_7f00);
    assert(0xd3_7f00 * 0x80_0000 == 0x69bf_8000_0000);
    lemma_product_known(0x3fd3_7f00, 0x3b80_0000, 0xd3_7f00, 126, 0x80_0000, 118, 0x69bf_8000_0000, 47, 0x4000_0000_0000, 0x80_0000);
    assert(mul_spec(0x3fd3_7f00, 0x3b80_0000) == 0x3bd3_7f00);
    assert(0xd3_7f00 * 0x1_0000_0000_0000_0000 == 0x1_a6fe_0000_0000_0000 * 0x80_0000 + 0x0);
    lemma_quotient_known(0x3bd3_7f00, 0x3b80_0000, 0xd3_7f00, 118, 0x80_0000, 118, 0x1_a6fe_0000_0000_0000, 0x0, 66, 0x2_0000_0000_0000_0000, 0x400_0000_0000);
    assert(div_spec(0x3bd3_7f00, 0x3b80_0000) == 0x3fd3_7f00);
    assert(0xb3_5847 * 0x40 + 0xd3_7f00 * 0x1 == 0x2da9_90c0);
    lemma_sum_known(0x42b3_5847, 0x3fd3_7f00, false, 0xb3_5847, 132, 0xd3_7f00, 126, 0x40, 0x1, 0x2da9_90c0, 30, 0x2000_0000, 0x40);
}

/// The chord over interval 81.
proof fn lemma_chord_81()
    ensures
        chord_end(0x3dd5_5e8d, 0x3ddd_5e8d, 0x42b6_a643, 0x42b9_e58c) == 0x42b9_e58c,
{
    reveal(chord_end);
    lemma2_to64();
    lemma2_to64_rest();
    lemma_high_powers();
    assert(0xdd_5e8d * 0x1 - 0xd5_5e8d * 0x1 == 0x8_0000);
    lemma_sum_known(0x3ddd_5e8d, 0x3dd5_5e8d, true, 0xdd_5e8d, 122, 0xd5_5e8d, 122, 0x1, 0x1, 0x8_0000, 20, 0x8_0000, 0x10);
    assert(sub_spec(0x3ddd_5e8d, 0x3dd5_5e8d) == 0x3b80_0000);
    assert(0xb9_e58c * 0x1 - 0xb6_a643 * 0x1 == 0x3_3f49);
    lemma_sum_known(0x42b9_e58c, 0x42b6_a643, true, 0xb9_e58c, 132, 0xb6_a643, 132, 0x1, 0x1, 0x3_3f49, 18, 0x2_0000, 0x40);
    assert(sub_spec(0x42b9_e58c, 0x42b6_a643) == 0x3fcf_d240);
    assert(0xcf_d240 * 0x80_0000 == 0x67e9_2000_0000);
    lemma_product_known(0x3fcf_d240, 0x3b80_0000, 0xcf_d240, 126, 0x80_0000, 118, 0x67e9_2000_0000, 47, 0x4000_0000_0000, 0x80_0000);
    assert(mul_spec(0x3fcf_d240, 0x3b80_0000) == 0x3bcf_d240);
    assert(0xcf_d240 * 0x1_0000_0000_0000_0000 == 0x1_9fa4_8000_0000_0000 * 0x80_0000 + 0x0);
    lemma_quotient_known(0x3bcf_d240, 0x3b80_0000, 0xcf_d240, 118, 0x80_0000, 118, 0x1_9fa4_8000_0000_0000, 0x0, 66, 0x2_0000_0000_0000_0000, 0x400_0000_0000);
    assert(div_spec(0x3bcf_d240, 0x3b80_0000) == 0x3fcf_d240);
    assert(0xb6_a643 * 0x40 + 0xcf_d240 * 0x1 == 0x2e79_6300);
    lemma_sum_known(0x42b6_a643, 0x3fcf_d240, false, 0xb6_a643, 132, 0xcf_d240, 126, 0x40, 0x1, 0x2e79_6300, 30, 0x2000_0000, 0x40);
}

/// The chord over interval 82.
proof fn lemma_chord_82()
    ensures
        chord_end(0x3ddd_5e8d, 0x3de5_5e8d, 0x42b9_e58c, 0x42bd_100a) == 0x42bd_100a,
{
    reveal(chord_end);
    lemma2_to64();
    lemma2_to64_rest();
    lemma_high_powers();
    assert(0xe5_5e8d * 0x1 - 0xdd_5e8d * 0x1 == 0x8_0000);
    lemma_sum_known(0x3de5_5e8d, 0x3ddd_5e8d, true, 0xe5_5e8d, 122, 0xdd_5e8d, 122, 0x1, 0x1, 0x8_0000, 20, 0x8_0000, 0x10);
    assert(sub_spec(0x3de5_5e8d, 0x3ddd_5e8d) == 0x3b80_0000);
    assert(0xbd_100a * 0x1 - 0xb9_e58c * 0x1 == 0x3_2a7e);
    lemma_sum_known(0x42bd_100a, 0x42b9_e58c, true, 0xbd_100a, 132, 0xb9_e58c, 132, 0x1, 0x1, 0x3_2a7e, 18, 0x2_0000, 0x40);
    assert(sub_spec(0x42bd_100a, 0x42b9_e58c) == 0x3fca_9f80);
    assert(0xca_9f80 * 0x80_0000 == 0x654f_c000_0000);
    lemma_product_known(0x3fca_9f80, 0x3b80_0000, 0xca_9f80, 126, 0x80_0000, 118, 0x654f_c000_0000, 47, 0x4000_0000_0000, 0x80_0000);
    assert(mul_spec(0x3fca_9f80, 0x3b80_0000) == 0x3bca_9f80);
    assert(0xca_9f80 * 0x1_0000_0000_0000_0000 == 0x1_953f_0000_0000_0000 * 0x80_0000 + 0x0);
    lemma_quotient_known(0x3bca_9f80, 0x3b80_0000, 0xca_9f80, 118, 0x80_0000, 118, 0x1_953f_0000_0000_0000, 0x0, 66, 0x2_0000_0000_0000_0000, 0x400_0000_0000);
    assert(div_spec(0x3bca_9f80, 0x3b80_0000) == 0x3fca_9f80);
    assert(0xb9_e58c * 0x40 + 0xca_9f80 * 0x1 == 0x2f44_0280);
    lemma_sum_known(0x42b9_e58c, 0x3fca_9f80, false, 0xb9_e58c, 132, 0xca_9f80, 126, 0x40, 0x1, 0x2f44_0280, 30, 0x2000_0000, 0x40);
}

/// The chord over interval 83.
proof fn lemma_chord_83()
    ensures
        chord_end(0x3de5_5e8d, 0x3ded_5e8d, 0x42bd_100a, 0x42c0_2d61) == 0x42c0_2d61,
{
    reveal(chord_end);
    lemma2_to64();
    lemma2_to64_rest();
    lemma_high_powers();
    assert(0xed_5e8d * 0x1 - 0xe5_5e8d * 0x1 == 0x8_0000);
    lemma_sum_known(0x3ded_5e8d, 0x3de5_5e8d, true, 0xed_5e8d, 122, 0xe5_5e8d, 122, 0x1, 0x1, 0x8_0000, 20, 0x8_0000, 0x10);
    assert(sub_spec(0x3ded_5e8d, 0x3de5_5e8d) == 0x3b80_0000);
    assert(0xc0_2d61 * 0x1 - 0xbd_100a * 0x1 == 0x3_1d57);
    lemma_sum_known(0x42c0_2d61, 0x42bd_100a, true, 0xc0_2d61, 132, 0xbd_100a, 132, 0x1, 0x1, 0x3_1d57, 18, 0x2_0000, 0x40);
    assert(sub_spec(0x42c0_2d61, 0x42bd_100a) == 0x3fc7_55c0);
    assert(0xc7_55c0 * 0x80_0000 == 0x63aa_e000_0000);
    lemma_product_known(0x3fc7_55c0, 0x3b80_0000, 0xc7_55c0, 126, 0x80_0000, 118, 0x63aa_e000_0000, 47, 0x4000_0000_0000, 0x80_0000);
    assert(mul_spec(0x3fc7_55c0, 0x3b80_0000) == 0x3bc7_55c0);
    assert(0xc7_55c0 * 0x1_0000_0000_0000_0000 == 0x1_8eab_8000_0000_0000 * 0x80_0000 + 0x0);
    lemma_quotient_known(0x3bc7_55c0, 0x3b80_0000, 0xc7_55c0, 118, 0x80_0000, 118, 0x1_8eab_8000_0000_0000, 0x0, 66, 0x2_0000_0000_0000_0000, 0x400_0000_0000);
    assert(div_spec(0x3bc7_55c0, 0x3b80_0000) == 0x3fc7_55c0);
    assert(0xbd_100a * 0x40 + 0xc7_55c0 * 0x1 == 0x300b_5840);
    lemma_sum_known(0x42bd_100a, 0x3fc7_55c0, false, 0xbd_100a, 132, 0xc7_55c0, 126, 0x40, 0x1, 0x300b_5840, 30, 0x2000_0000, 0x40);
}

/// The chord over interval 84.
proof fn lemma_chord_84()
    ensures
        chord_end(0x3ded_5e8d, 0x3df5_5e8d, 0x42c0_2d61, 0x42c3_2ec7) == 0x42c3_2ec7,
{
    reveal(chord_end);
    lemma2_to64();
    lemma2_to64_rest();
    lemma_high_powers();
    assert(0xf5_5e8d * 0x1 - 0xed_5e8d * 0x1 == 0x8_0000);
    lemma_sum_known(0x3df5_5e8d, 0x3ded_5e8d, true, 0xf5_5e8d, 122, 0xed_5e8d, 122, 0x1, 0x1, 0x8_0000, 20, 0x8_0000, 0x10);
    assert(sub_spec(0x3df5_5e8d, 0x3ded_5e8d) == 0x3b80_0000);
    assert(0xc3_2ec7 * 0x1 - 0xc0_2d61 * 0x1 == 0x3_0166);
    lemma_sum_known(0x42c3_2ec7, 0x42c0_2d61, true, 0xc3_2ec7, 132, 0xc0_2d61, 132, 0x1, 0x1, 0x3_0166, 18, 0x2_0000, 0x40);
    assert(sub_spec(0x42c3_2ec7, 0x42c0_2d61) == 0x3fc0_5980);
    assert(0xc0_5980 * 0x80_0000 == 0x602c_c000_0000);
    lemma_product_known(0x3fc0_5980, 0x3b80_0000, 0xc0_5980, 126, 0x80_0000, 118, 0x602c_c000_0000, 47, 0x4000_0000_0000, 0x80_0000);
    assert(mul_spec(0x3fc0_5980, 0x3b80_0000) == 0x3bc0_5980);
    assert(0xc0_5980 * 0x1_0000_0000_0000_0000 == 0x1_80b3_0000_0000_0000 * 0x80_0000 + 0x0);
    lemma_quotient_known(0x3bc0_5980, 0x3b80_0000, 0xc0_5980, 118, 0x80_0000, 118, 0x1_80b3_0000_0000_0000, 0x0, 66, 0x2_0000_0000_0000_0000, 0x400_0000_0000);
    assert(div_spec(0x3bc0_5980, 0x3b80_0000) == 0x3fc0_5980);
    assert(0xc0_2d61 * 0x40 + 0xc0_5980 * 0x1 == 0x30cb_b1c0);
    lemma_sum_known(0x42c0_2d61, 0x3fc0_5980, false, 0xc0_2d61, 132, 0xc0_5980, 126, 0x40, 0x1, 0x30cb_b1c0, 30, 0x2000_0000, 0x40);
}

/// The chord over interval 85.
proof fn lemma_chord_85()
    ensures
        chord_end(0x3df5_5e8d, 0x3dfd_5e8d, 0x42c3_2ec7, 0x42c6_3770) == 0x42c6_3770,
{
    reveal(chord_end);
    lemma2_to64();
    lemma2_to64_rest();
    lemma_high_powers();
    assert(0xfd_5e8d * 0x1 - 0xf5_5e8d * 0x1 == 0x8_0000);
    lemma_sum_known(0x3dfd_5e8d, 0x3df5_5e8d, true, 0xfd_5e8d, 122, 0xf5_5e8d, 122, 0x1, 0x1, 0x8_0000, 20, 0x8_0000, 0x10);
    assert(sub_spec(0x3dfd_5e8d, 0x3df5_5e8d) == 0x3b80_0000);
    assert(0xc6_3770 * 0x1 - 0xc3_2ec7 * 0x1 == 0x3_08a9);
    lemma_sum_known(0x42c6_3770, 0x42c3_2ec7, true, 0xc6_3770, 132, 0xc3_2ec7, 132, 0x1, 0x1, 0x3_08a9, 18, 0x2_0000, 0x40);
    assert(sub_spec(0x42c6_3770, 0x42c3_2ec7) == 0x3fc2_2a40);
    assert(0xc2_2a40 * 0x80_0000 == 0x6115_2000_0000);
    lemma_product_known(0x3fc2_2a40, 0x3b80_0000, 0xc2_2a40, 126, 0x80_0000, 118, 0x6115_2000_0000, 47, 0x4000_0000_0000, 0x80_0000);
    assert(mul_spec(0x3fc2_2a40, 0x3b80_0000) == 0x3bc2_2a40);
    assert(0xc2_2a40 * 0x1_0000_0000_0000_0000 == 0x1_8454_8000_0000_0000 * 0x80_0000 + 0x0);
    lemma_quotient_known(0x3bc2_2a40, 0x3b80_0000, 0xc2_2a40, 118, 0x80_0000, 118, 0x1_8454_8000_0000_0000, 0x0, 66, 0x2_0000_0000_0000_0000, 0x400_0000_0000);
    assert(div_spec(0x3bc2_2a40, 0x3b80_0000) == 0x3fc2_2a40);
    assert(0xc3_2ec7 * 0x40 + 0xc2_2a40 * 0x1 == 0x318d_dc00);
    lemma_sum_known(0x42c3_2ec7, 0x3fc2_2a40, false, 0xc3_2ec7, 132, 0xc2_2a40, 126, 0x40, 0x1, 0x318d_dc00, 30, 0x2000_0000, 0x40);
}

/// The chord over interval 86.
proof fn lemma_chord_86()
    ensures
        chord_end(0x3dfd_5e8d, 0x3e05_5e8d, 0x42c6_3770, 0x42cb_1a3a) == 0x42cb_1a3a,
{
    reveal(chord_end);
    lemma2_to64();
    lemma2_to64_rest();
    lemma_high_powers();
    assert(0x85_5e8d * 0x2 - 0xfd_5e8d * 0x1 == 0xd_5e8d);
    lemma_sum_known(0x3e05_5e8d, 0x3dfd_5e8d, true, 0x85_5e8d, 123, 0xfd_5e8d, 122, 0x2, 0x1, 0xd_5e8d, 20, 0x8_0000, 0x10);
    assert(sub_spec(0x3e05_5e8d, 0x3dfd_5e8d) == 0x3bd5_e8d0);
    assert(0xcb_1a3a * 0x1 - 0xc6_3770 * 0x1 == 0x4_e2ca);
    lemma_sum_known(0x42cb_1a3a, 0x42c6_3770, true, 0xcb_1a3a, 132, 0xc6_3770, 132, 0x1, 0x1, 0x4_e2ca, 19, 0x4_0000, 0x20);
    assert(sub_spec(0x42cb_1a3a, 0x42c6_3770) == 0x401c_5940);
    assert(0x9c_5940 * 0xd5_e8d0 == 0x82a4_722a_8400);
    lemma_product_known(0x401c_5940, 0x3bd5_e8d0, 0x9c_5940, 127, 0xd5_e8d0, 118, 0x82a4_722a_8400, 48, 0x8000_0000_0000, 0x100_0000);
    assert(mul_spec(0x401c_5940, 0x3bd5_e8d0) == 0x3c82_a472);
    assert(0x82_a472 * 0x1_0000_0000_0000_0000 == 0x9c59_3fcd_1e5f_ed3c * 0xd5_e8d0 + 0x24_df40);
    lemma_quotient_known(0x3c82_a472, 0x3bd5_e8d0, 0x82_a472, 120, 0xd5_e8d0, 118, 0x9c59_3fcd_1e5f_ed3c, 0x24_df40, 65, 0x1_0000_0000_0000_0000, 0x200_0000_0000);
    assert(div_spec(0x3c82_a472, 0x3bd5_e8d0) == 0x401c_5940);
    assert(0xc6_3770 * 0x20 + 0x9c_5940 * 0x1 == 0x1963_4740);
    lemma_sum_known(0x42c6_3770, 0x401c_5940, false, 0xc6_3770, 132, 0x9c_5940, 127, 0x20, 0x1, 0x1963_4740, 29, 0x1000_0000, 0x20);
}

/// The chord over interval 87.
proof fn lemma_chord_87()
    ensures
        chord_end(0x3e05_5e8d, 0x3e0d_5e8d, 0x42cb_1a3a, 0x42d0_c02d) == 0x42d0_c02d,
{
    reveal(chord_end);
    lemma2_to64();
    lemma2_to64_rest();
    lemma_high_powers();
    assert(0x8d_5e8d * 0x1 - 0x85_5e8d * 0x1 == 0x8_0000);
    lemma_sum_known(0x3e0d_5e8d, 0x3e05_5e8d, true, 0x8d_5e8d, 123, 0x85_5e8d, 123, 0x1, 0x1, 0x8_0000, 20, 0x8_0000, 0x10);
    assert(sub_spec(0x3e0d_5e8d, 0x3e05_5e8d) == 0x3c00_0000);
    assert(0xd0_c02d * 0x1 - 0xcb_1a3a * 0x1 == 0x5_a5f3);
    lemma_sum_known(0x42d0_c02d, 0x42cb_1a3a, true, 0xd0_c02d, 132, 0xcb_1a3a, 132, 0x1, 0x1, 0x5_a5f3, 19, 0x4_0000, 0x20);
    assert(sub_spec(0x42d0_c02d, 0x42cb_1a3a) == 0x4034_be60);
    assert(0xb4_be60 * 0x80_0000 == 0x5a5f_3000_0000);
    lemma_product_known(0x4034_be60, 0x3c00_0000, 0xb4_be60, 127, 0x80_0000, 119, 0x5a5f_3000_0000, 47, 0x4000_0000_0000, 0x80_0000);
    assert(mul_spec(0x4034_be60, 0x3c00_0000) == 0x3cb4_be60);
    assert(0xb4_be60 * 0x1_0000_0000_0000_0000 == 0x1_697c_c000_0000_0000 * 0x80_0000 + 0x0);
    lemma_quotient_known(0x3cb4_be60, 0x3c00_0000, 0xb4_be60, 120, 0x80_0000, 119, 0x1_697c_c000_0000_0000, 0x0, 66, 0x2_0000_0000_0000_0000, 0x400_0000_0000);
    assert(div_spec(0x3cb4_be60, 0x3c00_0000) == 0x4034_be60);
    assert(0xcb_1a3a * 0x20 + 0xb4_be60 * 0x1 == 0x1a18_05a0);
    lemma_sum_known(0x42cb_1a3a, 0x4034_be60, false, 0xcb_1a3a, 132, 0xb4_be60, 127, 0x20, 0x1, 0x1a18_05a0, 29, 0x1000_0000, 0x20);
}

/// The chord over interval 88.
proof fn lemma_chord_88()
    ensures
        chord_end(0x3e0d_5e8d, 0x3e15_5e8d, 0x42d0_c02d, 0x42d6_3819) == 0x42d6_3819,
{
    reveal(chord_end);
    lemma2_to64();
    lemma2_to64_rest();
    lemma_high_powers();
    assert(0x95_5e8d * 0x1 - 0x8d_5e8d * 0x1 == 0x8_0000);
    lemma_sum_known(0x3e15_5e8d, 0x3e0d_5e8d, true, 0x95_5e8d, 123, 0x8d_5e8d, 123, 0x1, 0x1, 0x8_0000, 20, 0x8_0000, 0x10);
    assert(sub_spec(0x3e15_5e8d, 0x3e0d_5e8d) == 0x3c00_0000);
    assert(0xd6_3819 * 0x1 - 0xd0_c02d * 0x1 == 0x5_77ec);
    lemma_sum_known(0x42d6_3819, 0x42d0_c02d, true, 0xd6_3819, 132, 0xd0_c02d, 132, 0x1, 0x1, 0x5_77ec, 19, 0x4_0000, 0x20);
    assert(sub_spec(0x42d6_3819, 0x42d0_c02d) == 0x402e_fd80);
    assert(0xae_fd80 * 0x80_0000 == 0x577e_c000_0000);
    lemma_product_known(0x402e_fd80, 0x3c00_0000, 0xae_fd80, 127, 0x80_0000, 119, 0x577e_c000_0000, 47, 0x4000_0000_0000, 0x80_0000);
    assert(mul_spec(0x402e_fd80, 0x3c00_0000) == 0x3cae_fd80);
    assert(0xae_fd80 * 0x1_0000_0000_0000_0000 == 0x1_5dfb_0000_0000_0000 * 0x80_0000 + 0x0);
    lemma_quotient_known(0x3cae_fd80, 0x3c00_0000, 0xae_fd80, 120, 0x80_0000, 119, 0x1_5dfb_0000_0000_0000, 0x0, 66, 0x2_0000_0000_0000_0000, 0x400_0000_0000);
    assert(div_spec(0x3cae_fd80, 0x3c00_0000) == 0x402e_fd80);
    assert(0xd0_c02d * 0x20 + 0xae_fd80 * 0x1 == 0x1ac7_0320);
    lemma_sum_known(0x42d0_c02d, 0x402e_fd80, false, 0xd0_c02d, 132, 0xae_fd80, 127, 0x20, 0x1, 0x1ac7_0320, 29, 0x1000_0000, 0x20);
}

/// The chord over interval 89.
proof fn lemma_chord_89()
    ensures
        chord_end(0x3e15_5e8d, 0x3e1d_5e8d, 0x42d6_3819, 0x42db_8661) == 0x42db_8661,
{
    reveal(chord_end);
    lemma2_to64();
    lemma2_to64_rest();
    lemma_high_powers();
    assert(0x9d_5e8d * 0x1 - 0x95_5e8d * 0x1 == 0x8_0000);
    lemma_sum_known(0x3e1d_5e8d, 0x3e15_5e8d, true, 0x9d_5e8d, 123, 0x95_5e8d, 123, 0x1, 0x1, 0x8_0000, 20, 0x8_0000, 0x10);
    assert(sub_spec(0x3e1d_5e8d, 0x3e15_5e8d) == 0x3c00_0000);
    assert(0xdb_8661 * 0x1 - 0xd6_3819 * 0x1 == 0x5_4e48);
    lemma_sum_known(0x42db_8661, 0x42d6_3819, true, 0xdb_8661, 132, 0xd6_3819, 132, 0x1, 0x1, 0x5_4e48, 19, 0x4_0000, 0x20);
    assert(sub_spec(0x42db_8661, 0x42d6_3819) == 0x4029_c900);
    assert(0xa9_c900 * 0x80_0000 == 0x54e4_8000_0000);
    lemma_product_known(0x4029_c900, 0x3c00_0000, 0xa9_c900, 127, 0x80_0000, 119, 0x54e4_8000_0000, 47, 0x4000_0000_0000, 0x80_0000);
    assert(mul_spec(0x4029_c900, 0x3c00_0000) == 0x3ca9_c900);
    assert(0xa9_c900 * 0x1_0000_0000_0000_0000 == 0x1_5392_0000_0000_0000 * 0x80_0000 + 0x0);
    lemma_quotient_known(0x3ca9_c900, 0x3c00_0000, 0xa9_c900, 120, 0x80_0000, 119, 0x1_5392_0000_0000_0000, 0x0, 66, 0x2_0000_0000_0000_0000, 0x400_0000_0000);
    assert(div_spec(0x3ca9_c900, 0x3c00_0000) == 0x4029_c900);
    assert(0xd6_3819 * 0x20 + 0xa9_c900 * 0x1 == 0x1b70_cc20);
    lemma_sum_known(0x42d6_3819, 0x4029_c900, false, 0xd6_3819, 132, 0xa9_c900, 127, 0x20, 0x1, 0x1b70_cc20, 29, 0x1000_0000, 0x20);
}

/// The chord over interval 90.
proof fn lemma_chord_90()
    ensures
        chord_end(0x3e1d_5e8d, 0x3e25_5e8d, 0x42db_8661, 0x42e0_ab74) == 0x42e0_ab74,
{
    reveal(chord_end);
    lemma2_to64();
    lemma2_to64_rest();
    lemma_high_powers();
    assert(0xa5_5e8d * 0x1 - 0x9d_5e8d * 0x1 == 0x8_0000);
    lemma_sum_known(0x3e25_5e8d, 0x3e1d_5e8d, true, 0xa5_5e8d, 123, 0x9d_5e8d, 123, 0x1, 0x1, 0x8_0000, 20, 0x8_0000, 0x10);
    assert(sub_spec(0x3e25_5e8d, 0x3e1d_5e8d) == 0x3c00_0000);
    assert(0xe0_ab74 * 0x1 - 0xdb_8661 * 0x1 == 0x5_2513);
    lemma_sum_known(0x42e0_ab74, 0x42db_8661, true, 0xe0_ab74, 132, 0xdb_8661, 132, 0x1, 0x1, 0x5_2513, 19, 0x4_0000, 0x20);
    assert(sub_spec(0x42e0_ab74, 0x42db_8661) == 0x4024_a260);
    assert(0xa4_a260 * 0x80_0000 == 0x5251_3000_0000);
    lemma_product_known(0x4024_a260, 0x3c00_0000, 0xa4_a260, 127, 0x80_0000, 119, 0x5251_3000_0000, 47, 0x4000_0000_0000, 0x80_0000);
    assert(mul_spec(0x4024_a260, 0x3c00_0000) == 0x3ca4_a260);
    assert(0xa4_a260 * 0x1_0000_0000_0000_0000 == 0x1_4944_c000_0000_0000 * 0x80_0000 + 0x0);
    lemma_quotient_known(0x3ca4_a260, 0x3c00_0000, 0xa4_a260, 120, 0x80_0000, 119, 0x1_4944_c000_0000_0000, 0x0, 66, 0x2_0000_0000_0000_0000, 0x400_0000_0000);
    assert(div_spec(0x3ca4_a260, 0x3c00_0000) == 0x4024_a260);
    assert(0xdb_8661 * 0x20 + 0xa4_a260 * 0x1 == 0x1c15_6e80);
    lemma_sum_known(0x42db_8661, 0x4024_a260, false, 0xdb_8661, 132, 0xa4_a260, 127, 0x20, 0x1, 0x1c15_6e80, 29, 0x1000_0000, 0x20);
}

/// The chord over interval 91.
proof fn lemma_chord_91()
    ensures
        chord_end(0x3e25_5e8d, 0x3e2d_5e8d, 0x42e0_ab74, 0x42e5_ad1e) == 0x42e5_ad1e,
{
    reveal(chord_end);
    lemma2_to64();
    lemma2_to64_rest();
    lemma_high_powers();
    assert(0xad_5e8d * 0x1 - 0xa5_5e8d * 0x1 == 0x8_0000);
    lemma_sum_known(0x3e2d_5e8d, 0x3e25_5e8d, true, 0xad_5e8d, 123, 0xa5_5e8d, 123, 0x1, 0x1, 0x8_0000, 20, 0x8_0000, 0x10);
    assert(sub_spec(0x3e2d_5e8d, 0x3e25_5e8d) == 0x3c00_0000);
    assert(0xe5_ad1e * 0x1 - 0xe0_ab74 * 0x1 == 0x5_01aa);
    lemma_sum_known(0x42e5_ad1e, 0x42e0_ab74, true, 0xe5_ad1e, 132, 0xe0_ab74, 132, 0x1, 0x1, 0x5_01aa, 19, 0x4_0000, 0x20);
    assert(sub_spec(0x42e5_ad1e, 0x42e0_ab74) == 0x4020_3540);
    assert(0xa0_3540 * 0x80_0000 == 0x501a_a000_0000);
    lemma_product_known(0x4020_3540, 0x3c00_0000, 0xa0_3540, 127, 0x80_0000, 119, 0x501a_a000_0000, 47, 0x4000_0000_0000, 0x80_0000);
    assert(mul_spec(0x4020_3540, 0x3c00_0000) == 0x3ca0_3540);
    assert(0xa0_3540 * 0x1_0000_0000_0000_0000 == 0x1_406a_8000_0000_0000 * 0x80_0000 + 0x0);
    lemma_quotient_known(0x3ca0_3540, 0x3c00_0000, 0xa0_3540, 120, 0x80_0000, 119, 0x1_406a_8000_0000_0000, 0x0, 66, 0x2_0000_0000_0000_0000, 0x400_0000_0000);
    assert(div_spec(0x3ca0_3540, 0x3c00_0000) == 0x4020_3540);
    assert(0xe0_ab74 * 0x20 + 0xa0_3540 * 0x1 == 0x1cb5_a3c0);
    lemma_sum_known(0x42e0_ab74, 0x4020_3540, false, 0xe0_ab74, 132, 0xa0_3540, 127, 0x20, 0x1, 0x1cb5_a3c0, 29, 0x1000_0000, 0x20);
}

/// The chord over interval 92.
proof fn lemma_chord_92()
    ensures
        chord_end(0x3e2d_5e8d, 0x3e35_5e8d, 0x42e5_ad1e, 0x42ea_8ad8) == 0x42ea_8ad8,
{
    reveal(chord_end);
    lemma2_to64();
    lemma2_to64_rest();
    lemma_high_powers();
    assert(0xb5_5e8d * 0x1 - 0xad_5e8d * 0x1 == 0x8_0000);
    lemma_sum_known(0x3e35_5e8d, 0x3e2d_5e8d, true, 0xb5_5e8d, 123, 0xad_5e8d, 123, 0x1, 0x1, 0x8_0000, 20, 0x8_0000, 0x10);
    assert(sub_spec(0x3e35_5e8d, 0x3e2d_5e8d) == 0x3c00_0000);
    assert(0xea_8ad8 * 0x1 - 0xe5_ad1e * 0x1 == 0x4_ddba);
    lemma_sum_known(0x42ea_8ad8, 0x42e5_ad1e, true, 0xea_8ad8, 132, 0xe5_ad1e, 132, 0x1, 0x1, 0x4_ddba, 19, 0x4_0000, 0x20);
    assert(sub_spec(0x42ea_8ad8, 0x42e5_ad1e) == 0x401b_b740);
    assert(0x9b_b740 * 0x80_0000 == 0x4ddb_a000_0000);
    lemma_product_known(0x401b_b740, 0x3c00_0000, 0x9b_b740, 127, 0x80_0000, 119, 0x4ddb_a000_0000, 47, 0x4000_0000_0000, 0x80_0000);
    assert(mul_spec(0x401b_b740, 0x3c00_0000) == 0x3c9b_b740);
    assert(0x9b_b740 * 0x1_0000_0000_0000_0000 == 0x1_376e_8000_0000_0000 * 0x80_0000 + 0x0);
    lemma_quotient_known(0x3c9b_b740, 0x3c00_0000, 0x9b_b740, 120, 0x80_0000, 119, 0x1_376e_8000_0000_0000, 0x0, 66, 0x2_0000_0000_0000_0000, 0x400_0000_0000);
    assert(div_spec(0x3c9b_b740, 0x3c00_0000) == 0x401b_b740);
    assert(0xe5_ad1e * 0x20 + 0x9b_b740 * 0x1 == 0x1d51_5b00);
    lemma_sum_known(0x42e5_ad1e, 0x401b_b740, false, 0xe5_ad1e, 132, 0x9b_b740, 127, 0x20, 0x1, 0x1d51_5b00, 29, 0x1000_0000, 0x20);
}

/// The chord over interval 93.
proof fn lemma_chord_93()
    ensures
        chord_end(0x3e35_5e8d, 0x3e3d_5e8d, 0x42ea_8ad8, 0x42ef_4b0a) == 0x42ef_4b0a,
{
    reveal(chord_end);
    lemma2_to64();
    lemma2_to64_rest();
    lemma_high_powers();
    assert(0xbd_5e8d * 0x1 - 0xb5_5e8d * 0x1 == 0x8_0000);
    lemma_sum_known(0x3e3d_5e8d, 0x3e35_5e8d, true, 0xbd_5e8d, 123, 0xb5_5e8d, 123, 0x1, 0x1, 0x8_0000, 20, 0x8_0000, 0x10);
    assert(sub_spec(0x3e3d_5e8d, 0x3e35_5e8d) == 0x3c00_0000);
    assert(0xef_4b0a * 0x1 - 0xea_8ad8 * 0x1 == 0x4_c032);
    lemma_sum_known(0x42ef_4b0a, 0x42ea_8ad8, true, 0xef_4b0a, 132, 0xea_8ad8, 132, 0x1, 0x1, 0x4_c032, 19, 0x4_0000, 0x20);
    assert(sub_spec(0x42ef_4b0a, 0x42ea_8ad8) == 0x4018_0640);
    assert(0x98_0640 * 0x80_0000 == 0x4c03_2000_0000);
    lemma_product_known(0x4018_0640, 0x3c00_0000, 0x98_0640, 127, 0x80_0000, 119, 0x4c03_2000_0000, 47, 0x4000_0000_0000, 0x80_0000);
    assert(mul_spec(0x4018_0640, 0x3c00_0000) == 0x3c98_0640);
    assert(0x98_0640 * 0x1_0000_0000_0000_0000 == 0x1_300c_8000_0000_0000 * 0x80_0000 + 0x0);
    lemma_quotient_known(0x3c98_0640, 0x3c00_0000, 0x98_0640, 120, 0x80_0000, 119, 0x1_300c_8000_0000_0000, 0x0, 66, 0x2_0000_0000_0000_0000, 0x400_0000_0000);
    assert(div_spec(0x3c98_0640, 0x3c00_0000) == 0x4018_0640);
    assert(0xea_8ad8 * 0x20 + 0x98_0640 * 0x1 == 0x1de9_6140);
    lemma_sum_known(0x42ea_8ad8, 0x4018_0640, false, 0xea_8ad8, 132, 0x98_0640, 127, 0x20, 0x1, 0x1de9_6140, 29, 0x1000_0000, 0x20);
}

/// The chord over interval 94.
proof fn lemma_chord_94()
    ensures
        chord_end(0x3e3d_5e8d, 0x3e45_5e8d, 0x42ef_4b0a, 0x42f3_ec80) == 0x42f3_ec80,
{
    reveal(chord_end);
    lemma2_to64();
    lemma2_to64_rest();
    lemma_high_powers();
    assert(0xc5_5e8d * 0x1 - 0xbd_5e8d * 0x1 == 0x8_0000);
    lemma_sum_known(0x3e45_5e8d, 0x3e3d_5e8d, true, 0xc5_5e8d, 123, 0xbd_5e8d, 123, 0x1, 0x1, 0x8_0000, 20, 0x8_0000, 0x10);
    assert(sub_spec(0x3e45_5e8d, 0x3e3d_5e8d) == 0x3c00_0000);
    assert(0xf3_ec80 * 0x1 - 0xef_4b0a * 0x1 == 0x4_a176);
    lemma_sum_known(0x42f3_ec80, 0x42ef_4b0a, true, 0xf3_ec80, 132, 0xef_4b0a, 132, 0x1, 0x1, 0x4_a176, 19, 0x4_0000, 0x20);
    assert(sub_spec(0x42f3_ec80, 0x42ef_4b0a) == 0x4014_2ec0);
    assert(0x94_2ec0 * 0x80_0000 == 0x4a17_6000_0000);
    lemma_product_known(0x4014_2ec0, 0x3c00_0000, 0x94_2ec0, 127, 0x80_0000, 119, 0x4a17_6000_0000, 47, 0x4000_0000_0000, 0x80_0000);
    assert(mul_spec(0x4014_2ec0, 0x3c00_0000) == 0x3c94_2ec0);
    assert(0x94_2ec0 * 0x1_0000_0000_0000_0000 == 0x1_285d_8000_0000_0000 * 0x80_0000 + 0x0);
    lemma_quotient_known(0x3c94_2ec0, 0x3c00_0000, 0x94_2ec0, 120, 0x80_0000, 119, 0x1_285d_8000_0000_0000, 0x0, 66, 0x2_0000_0000_0000_0000, 0x400_0000_0000);
    assert(div_spec(0x3c94_2ec0, 0x3c00_0000) == 0x4014_2ec0);
    assert(0xef_4b0a * 0x20 + 0x94_2ec0 * 0x1 == 0x1e7d_9000);
    lemma_sum_known(0x42ef_4b0a, 0x4014_2ec0, false, 0xef_4b0a, 132, 0x94_2ec0, 127, 0x20, 0x1, 0x1e7d_9000, 29, 0x1000_0000, 0x20);
}

/// The chord over interval 95.
proof fn lemma_chord_95()
    ensures
        chord_end(0x3e45_5e8d, 0x3e4d_5e8d, 0x42f3_ec80, 0x42f8_7167) == 0x42f8_7167,
{
    reveal(chord_end);
    lemma2_to64();
    lemma2_to64_rest();
    lemma_high_powers();
    assert(0xcd_5e8d * 0x1 - 0xc5_5e8d * 0x1 == 0x8_0000);
    lemma_sum_known(0x3e4d_5e8d, 0x3e45_5e8d, true, 0xcd_5e8d, 123, 0xc5_5e8d, 123, 0x1, 0x1, 0x8_0000, 20, 0x8_0000, 0x10);
    assert(sub_spec(0x3e4d_5e8d, 0x3e45_5e8d) == 0x3c00_0000);
    assert(0xf8_7167 * 0x1 - 0xf3_ec80 * 0x1 == 0x4_84e7);
    lemma_sum_known(0x42f8_7167, 0x42f3_ec80, true, 0xf8_7167, 132, 0xf3_ec80, 132, 0x1, 0x1, 0x4_84e7, 19, 0x4_0000, 0x20);
    assert(sub_spec(0x42f8_7167, 0x42f3_ec80) == 0x4010_9ce0);
    assert(0x90_9ce0 * 0x80_0000 == 0x484e_7000_0000);
    lemma_product_known(0x4010_9ce0, 0x3c00_0000, 0x90_9ce0, 127, 0x80_0000, 119, 0x484e_7000_0000, 47, 0x4000_0000_0000, 0x80_0000);
    assert(mul_spec(0x4010_9ce0, 0x3c00_0000) == 0x3c90_9ce0);
    assert(0x90_9ce0 * 0x1_0000_0000_0000_0000 == 0x1_2139_c000_0000_0000 * 0x80_0000 + 0x0);
    lemma_quotient_known(0x3c90_9ce0, 0x3c00_0000, 0x90_9ce0, 120, 0x80_0000, 119, 0x1_2139_c000_0000_0000, 0x0, 66, 0x2_0000_0000_0000_0000, 0x400_0000_0000);
    assert(div_spec(0x3c90_9ce0, 0x3c00_0000) == 0x4010_9ce0);
    assert(0xf3_ec80 * 0x20 + 0x90_9ce0 * 0x1 == 0x1f0e_2ce0);
    lemma_sum_known(0x42f3_ec80, 0x4010_9ce0, false, 0xf3_ec80, 132, 0x90_9ce0, 127, 0x20, 0x1, 0x1f0e_2ce0, 29, 0x1000_0000, 0x20);
}

/// The chord over interval 96.
proof fn lemma_chord_96()
    ensures
        chord_end(0x3e4d_5e8d, 0x3e55_5e8d, 0x42f8_7167, 0x42fc_dd34) == 0x42fc_dd34,
{
    reveal(chord_end);
    lemma2_to64();
    lemma2_to64_rest();
    lemma_high_powers();
    assert(0xd5_5e8d * 0x1 - 0xcd_5e8d * 0x1 == 0x8_0000);
    lemma_sum_known(0x3e55_5e8d, 0x3e4d_5e8d, true, 0xd5_5e8d, 123, 0xcd_5e8d, 123, 0x1, 0x1, 0x8_0000, 20, 0x8_0000, 0x10);
    assert(sub_spec(0x3e55_5e8d, 0x3e4d_5e8d) == 0x3c00_0000);
    assert(0xfc_dd34 * 0x1 - 0xf8_7167 * 0x1 == 0x4_6bcd);
    lemma_sum_known(0x42fc_dd34, 0x42f8_7167, true, 0xfc_dd34, 132, 0xf8_7167, 132, 0x1, 0x1, 0x4_6bcd, 19, 0x4_0000, 0x20);
    assert(sub_spec(0x42fc_dd34, 0x42f8_7167) == 0x400d_79a0);
    assert(0x8d_79a0 * 0x80_0000 == 0x46bc_d000_0000);
    lemma_product_known(0x400d_79a0, 0x3c00_0000, 0x8d_79a0, 127, 0x80_0000, 119, 0x46bc_d000_0000, 47, 0x4000_0000_0000, 0x80_0000);
    assert(mul_spec(0x400d_79a0, 0x3c00_0000) == 0x3c8d_79a0);
    assert(0x8d_79a0 * 0x1_0000_0000_0000_0000 == 0x1_1af3_4000_0000_0000 * 0x80_0000 + 0x0);
    lemma_quotient_known(0x3c8d_79a0, 0x3c00_0000, 0x8d_79a0, 120, 0x80_0000, 119, 0x1_1af3_4000_0000_0000, 0x0, 66, 0x2_0000_0000_0000_0000, 0x400_0000_0000);
    assert(div_spec(0x3c8d_79a0, 0x3c00_0000) == 0x400d_79a0);
    assert(0xf8_7167 * 0x20 + 0x8d_79a0 * 0x1 == 0x1f9b_a680);
    lemma_sum_known(0x42f8_7167, 0x400d_79a0, false, 0xf8_7167, 132, 0x8d_79a0, 127, 0x20, 0x1, 0x1f9b_a680, 29, 0x1000_0000, 0x20);
}

/// The chord over interval 97.
proof fn lemma_chord_97()
    ensures
        chord_end(0x3e55_5e8d, 0x3e5d_5e8d, 0x42fc_dd34, 0x4300_9843) == 0x4300_9843,
{
    reveal(chord_end);
    lemma2_to64();
    lemma2_to64_rest();
    lemma_high_powers();
    assert(0xdd_5e8d * 0x1 - 0xd5_5e8d * 0x1 == 0x8_0000);
    lemma_sum_known(0x3e5d_5e8d, 0x3e55_5e8d, true, 0xdd_5e8d, 123, 0xd5_5e8d, 123, 0x1, 0x1, 0x8_0000, 20, 0x8_0000, 0x10);
    assert(sub_spec(0x3e5d_5e8d, 0x3e55_5e8d) == 0x3c00_0000);
    assert(0x80_9843 * 0x2 - 0xfc_dd34 * 0x1 == 0x4_5352);
    lemma_sum_known(0x4300_9843, 0x42fc_dd34, true, 0x80_9843, 133, 0xfc_dd34, 132, 0x2, 0x1, 0x4_5352, 19, 0x4_0000, 0x20);
    assert(sub_spec(0x4300_9843, 0x42fc_dd34) == 0x400a_6a40);
    assert(0x8a_6a40 * 0x80_0000 == 0x4535_2000_0000);
    lemma_product_known(0x400a_6a40, 0x3c00_0000, 0x8a_6a40, 127, 0x80_0000, 119, 0x4535_2000_0000, 47, 0x4000_0000_0000, 0x80_0000);
    assert(mul_spec(0x400a_6a40, 0x3c00_0000) == 0x3c8a_6a40);
    assert(0x8a_6a40 * 0x1_0000_0000_0000_0000 == 0x1_14d4_8000_0000_0000 * 0x80_0000 + 0x0);
    lemma_quotient_known(0x3c8a_6a40, 0x3c00_0000, 0x8a_6a40, 120, 0x80_0000, 119, 0x1_14d4_8000_0000_0000, 0x0, 66, 0x2_0000_0000_0000_0000, 0x400_0000_0000);
    assert(div_spec(0x3c8a_6a40, 0x3c00_0000) == 0x400a_6a40);
    assert(0xfc_dd34 * 0x20 + 0x8a_6a40 * 0x1 == 0x2026_10c0);
    lemma_sum_known(0x42fc_dd34, 0x400a_6a40, false, 0xfc_dd34, 132, 0x8a_6a40, 127, 0x20, 0x1, 0x2026_10c0, 30, 0x2000_0000, 0x40);
}

/// The chord over interval 98.
proof fn lemma_chord_98()
    ensures
        chord_end(0x3e5d_5e8d, 0x3e65_5e8d, 0x4300_9843, 0x4302_b723) == 0x4302_b723,
{
    reveal(chord_end);
    lemma2_to64();
    lemma2_to64_rest();
    lemma_high_powers();
    assert(0xe5_5e8d * 0x1 - 0xdd_5e8d * 0x1 == 0x8_0000);
    lemma_sum_known(0x3e65_5e8d, 0x3e5d_5e8d, true, 0xe5_5e8d, 123, 0xdd_5e8d, 123, 0x1, 0x1, 0x8_0000, 20, 0x8_0000, 0x10);
    assert(sub_spec(0x3e65_5e8d, 0x3e5d_5e8d) == 0x3c00_0000);
    assert(0x82_b723 * 0x1 - 0x80_9843 * 0x1 == 0x2_1ee0);
    lemma_sum_known(0x4302_b723, 0x4300_9843, true, 0x82_b723, 133, 0x80_9843, 133, 0x1, 0x1, 0x2_1ee0, 18, 0x2_0000, 0x40);
    assert(sub_spec(0x4302_b723, 0x4300_9843) == 0x4007_b800);
    assert(0x87_b800 * 0x80_0000 == 0x43dc_0000_0000);
    lemma_product_known(0x4007_b800, 0x3c00_0000, 0x87_b800, 127, 0x80_0000, 119, 0x43dc_0000_0000, 47, 0x4000_0000_0000, 0x80_0000);
    assert(mul_spec(0x4007_b800, 0x3c00_0000) == 0x3c87_b800);
    assert(0x87_b800 * 0x1_0000_0000_0000_0000 == 0x1_0f70_0000_0000_0000 * 0x80_0000 + 0x0);
    lemma_quotient_known(0x3c87_b800, 0x3c00_0000, 0x87_b800, 120, 0x80_0000, 119, 0x1_0f70_0000_0000_0000, 0x0, 66, 0x2_0000_0000_0000_0000, 0x400_0000_0000);
    assert(div_spec(0x3c87_b800, 0x3c00_0000) == 0x4007_b800);
    assert(0x80_9843 * 0x40 + 0x87_b800 * 0x1 == 0x20ad_c8c0);
    lemma_sum_known(0x4300_9843, 0x4007_b800, false, 0x80_9843, 133, 0x87_b800, 127, 0x40, 0x1, 0x20ad_c8c0, 30, 0x2000_0000, 0x40);
}

/// The chord over interval 99.
proof fn lemma_chord_99()
    ensures
        chord_end(0x3e65_5e8d, 0x3e6d_5e8d, 0x4302_b723, 0x4304_ca44) == 0x4304_ca44,
{
    reveal(chord_end);
    lemma2_to64();
    lemma2_to64_rest();
    lemma_high_powers();
    assert(0xed_5e8d * 0x1 - 0xe5_5e8d * 0x1 == 0x8_0000);
    lemma_sum_known(0x3e6d_5e8d, 0x3e65_5e8d, true, 0xed_5e8d, 123, 0xe5_5e8d, 123, 0x1, 0x1, 0x8_0000, 20, 0x8_0000, 0x10);
    assert(sub_spec(0x3e6d_5e8d, 0x3e65_5e8d) == 0x3c00_0000);
    assert(0x84_ca44 * 0x1 - 0x82_b723 * 0x1 == 0x2_1321);
    lemma_sum_known(0x4304_ca44, 0x4302_b723, true, 0x84_ca44, 133, 0x82_b723, 133, 0x1, 0x1, 0x2_1321, 18, 0x2_0000, 0x40);
    assert(sub_spec(0x4304_ca44, 0x4302_b723) == 0x4004_c840);
    assert(0x84_c840 * 0x80_0000 == 0x4264_2000_0000);
    lemma_product_known(0x4004_c840, 0x3c00_0000, 0x84_c840, 127, 0x80_0000, 119, 0x4264_2000_0000, 47, 0x4000_0000_0000, 0x80_0000);
    assert(mul_spec(0x4004_c840, 0x3c00_0000) == 0x3c84_c840);
    assert(0x84_c840 * 0x1_0000_0000_0000_0000 == 0x1_0990_8000_0000_0000 * 0x80_0000 + 0x0);
    lemma_quotient_known(0x3c84_c840, 0x3c00_0000, 0x84_c840, 120, 0x80_0000, 119, 0x1_0990_8000_0000_0000, 0x0, 66, 0x2_0000_0000_0000_0000, 0x400_0000_0000);
    assert(div_spec(0x3c84_c840, 0x3c00_0000) == 0x4004_c840);
    assert(0x82_b723 * 0x40 + 0x84_c840 * 0x1 == 0x2132_9100);
    lemma_sum_known(0x4302_b723, 0x4004_c840, false, 0x82_b723, 133, 0x84_c840, 127, 0x40, 0x1, 0x2132_9100, 30, 0x2000_0000, 0x40);
}

/// The chord over interval 100.
proof fn lemma_chord_100()
    ensures
        chord_end(0x3e6d_5e8d, 0x3e75_5e8d, 0x4304_ca44, 0x4306_d2b9) == 0x4306_d2b9,
{
    reveal(chord_end);
    lemma2_to64();
    lemma2_to64_rest();
    lemma_high_powers();
    assert(0xf5_5e8d * 0x1 - 0xed_5e8d * 0x1 == 0x8_0000);
    lemma_sum_known(0x3e75_5e8d, 0x3e6d_5e8d, true, 0xf5_5e8d, 123, 0xed_5e8d, 123, 0x1, 0x1, 0x8_0000, 20, 0x8_0000, 0x10);
    assert(sub_spec(0x3e75_5e8d, 0x3e6d_5e8d) == 0x3c00_0000);
    assert(0x86_d2b9 * 0x1 - 0x84_ca44 * 0x1 == 0x2_0875);
    lemma_sum_known(0x4306_d2b9, 0x4304_ca44, true, 0x86_d2b9, 133, 0x84_ca44, 133, 0x1, 0x1, 0x2_0875, 18, 0x2_0000, 0x40);
    assert(sub_spec(0x4306_d2b9, 0x4304_ca44) == 0x4002_1d40);
    assert(0x82_1d40 * 0x80_0000 == 0x410e_a000_0000);
    lemma_product_known(0x4002_1d40, 0x3c00_0000, 0x82_1d40, 127, 0x80_0000, 119, 0x410e_a000_0000, 47, 0x4000_0000_0000, 0x80_0000);
    assert(mul_spec(0x4002_1d40, 0x3c00_0000) == 0x3c82_1d40);
    assert(0x82_1d40 * 0x1_0000_0000_0000_0000 == 0x1_043a_8000_0000_0000 * 0x80_0000 + 0x0);
    lemma_quotient_known(0x3c82_1d40, 0x3c00_0000, 0x82_1d40, 120, 0x80_0000, 119, 0x1_043a_8000_0000_0000, 0x0, 66, 0x2_0000_0000_0000_0000, 0x400_0000_0000);
    assert(div_spec(0x3c82_1d40, 0x3c00_0000) == 0x4002_1d40);
    assert(0x84_ca44 * 0x40 + 0x82_1d40 * 0x1 == 0x21b4_ae40);
    lemma_sum_known(0x4304_ca44, 0x4002_1d40, false, 0x84_ca44, 133, 0x82_1d40, 127, 0x40, 0x1, 0x21b4_ae40, 30, 0x2000_0000, 0x40);
}

/// The chord over interval 101.
proof fn lemma_chord_101()
    ensures
        chord_end(0x3e75_5e8d, 0x3e7d_5e8d, 0x4306_d2b9, 0x4308_d183) == 0x4308_d183,
{
    reveal(chord_end);
    lemma2_to64();
    lemma2_to64_rest();
    lemma_high_powers();
    assert(0xfd_5e8d * 0x1 - 0xf5_5e8d * 0x1 == 0x8_0000);
    lemma_sum_known(0x3e7d_5e8d, 0x3e75_5e8d, true, 0xfd_5e8d, 123, 0xf5_5e8d, 123, 0x1, 0x1, 0x8_0000, 20, 0x8_0000, 0x10);
    assert(sub_spec(0x3e7d_5e8d, 0x3e75_5e8d) == 0x3c00_0000);
    assert(0x88_d183 * 0x1 - 0x86_d2b9 * 0x1 == 0x1_feca);
    lemma_sum_known(0x4308_d183, 0x4306_d2b9, true, 0x88_d183, 133, 0x86_d2b9, 133, 0x1, 0x1, 0x1_feca, 17, 0x1_0000, 0x80);
    assert(sub_spec(0x4308_d183, 0x4306_d2b9) == 0x3fff_6500);
    assert(0xff_6500 * 0x80_0000 == 0x7fb2_8000_0000);
    lemma_product_known(0x3fff_6500, 0x3c00_0000, 0xff_6500, 126, 0x80_0000, 119, 0x7fb2_8000_0000, 47, 0x4000_0000_0000, 0x80_0000);
    assert(mul_spec(0x3fff_6500, 0x3c00_0000) == 0x3c7f_6500);
    assert(0xff_6500 * 0x1_0000_0000_0000_0000 == 0x1_feca_0000_0000_0000 * 0x80_0000 + 0x0);
    lemma_quotient_known(0x3c7f_6500, 0x3c00_0000, 0xff_6500, 119, 0x80_0000, 119, 0x1_feca_0000_0000_0000, 0x0, 66, 0x2_0000_0000_0000_0000, 0x400_0000_0000);
    assert(div_spec(0x3c7f_6500, 0x3c00_0000) == 0x3fff_6500);
    assert(0x86_d2b9 * 0x80 + 0xff_6500 * 0x1 == 0x4468_c180);
    lemma_sum_known(0x4306_d2b9, 0x3fff_6500, false, 0x86_d2b9, 133, 0xff_6500, 126, 0x80, 0x1, 0x4468_c180, 31, 0x4000_0000, 0x80);
}

/// The chord over interval 102.
proof fn lemma_chord_102()
    ensures
        chord_end(0x3e7d_5e8d, 0x3e85_5e8d, 0x4308_d183, 0x430c_1384) == 0x430c_1384,
{
    reveal(chord_end);
    lemma2_to64();
    lemma2_to64_rest();
    lemma_high_powers();
    assert(0x85_5e8d * 0x2 - 0xfd_5e8d * 0x1 == 0xd_5e8d);
    lemma_sum_known(0x3e85_5e8d, 0x3e7d_5e8d, true, 0x85_5e8d, 124, 0xfd_5e8d, 123, 0x2, 0x1, 0xd_5e8d, 20, 0x8_0000, 0x10);
    assert(sub_spec(0x3e85_5e8d, 0x3e7d_5e8d) == 0x3c55_e8d0);
    assert(0x8c_1384 * 0x1 - 0x88_d183 * 0x1 == 0x3_4201);
    lemma_sum_known(0x430c_1384, 0x4308_d183, true, 0x8c_1384, 133, 0x88_d183, 133, 0x1, 0x1, 0x3_4201, 18, 0x2_0000, 0x40);
    assert(sub_spec(0x430c_1384, 0x4308_d183) == 0x4050_8040);
    assert(0xd0_8040 * 0xd5_e8d0 == 0xae38_52e2_3400);
    lemma_product_known(0x4050_8040, 0x3c55_e8d0, 0xd0_8040, 127, 0xd5_e8d0, 119, 0xae38_52e2_3400, 48, 0x8000_0000_0000, 0x100_0000);
    assert(mul_spec(0x4050_8040, 0x3c55_e8d0) == 0x3d2e_3853);
    assert(0xae_3853 * 0x1_0000_0000_0000_0000 == 0xd080_4023_a8f2_ae08 * 0xd5_e8d0 + 0x73_5980);
    lemma_quotient_known(0x3d2e_3853, 0x3c55_e8d0, 0xae_3853, 121, 0xd5_e8d0, 119, 0xd080_4023_a8f2_ae08, 0x73_5980, 65, 0x1_0000_0000_0000_0000, 0x200_0000_0000);
    assert(div_spec(0x3d2e_3853, 0x3c55_e8d0) == 0x4050_8040);
    assert(0x88_d183 * 0x40 + 0xd0_8040 * 0x1 == 0x2304_e100);
    lemma_sum_known(0x4308_d183, 0x4050_8040, false, 0x88_d183, 133, 0xd0_8040, 127, 0x40, 0x1, 0x2304_e100, 30, 0x2000_0000, 0x40);
}

/// The chord over interval 103.
proof fn lemma_chord_103()
    ensures
        chord_end(0x3e85_5e8d, 0x3e8d_5e8d, 0x430c_1384, 0x430f_d9a7) == 0x430f_d9a7,
{
    reveal(chord_end);
    lemma2_to64();
    lemma2_to64_rest();
    lemma_high_powers();
    assert(0x8d_5e8d * 0x1 - 0x85_5e8d * 0x1 == 0x8_0000);
    lemma_sum_known(0x3e8d_5e8d, 0x3e85_5e8d, true, 0x8d_5e8d, 124, 0x85_5e8d, 124, 0x1, 0x1, 0x8_0000, 20, 0x8_0000, 0x10);
    assert(sub_spec(0x3e8d_5e8d, 0x3e85_5e8d) == 0x3c80_0000);
    assert(0x8f_d9a7 * 0x1 - 0x8c_1384 * 0x1 == 0x3_c623);
    lemma_sum_known(0x430f_d9a7, 0x430c_1384, true, 0x8f_d9a7, 133, 0x8c_1384, 133, 0x1, 0x1, 0x3_c623, 18, 0x2_0000, 0x40);
    assert(sub_spec(0x430f_d9a7, 0x430c_1384) == 0x4071_88c0);
    assert(0xf1_88c0 * 0x80_0000 == 0x78c4_6000_0000);
    lemma_product_known(0x4071_88c0, 0x3c80_0000, 0xf1_88c0, 127, 0x80_0000, 120, 0x78c4_6000_0000, 47, 0x4000_0000_0000, 0x80_0000);
    assert(mul_spec(0x4071_88c0, 0x3c80_0000) == 0x3d71_88c0);
    assert(0xf1_88c0 * 0x1_0000_0000_0000_0000 == 0x1_e311_8000_0000_0000 * 0x80_0000 + 0x0);
    lemma_quotient_known(0x3d71_88c0, 0x3c80_0000, 0xf1_88c0, 121, 0x80_0000, 120, 0x1_e311_8000_0000_0000, 0x0, 66, 0x2_0000_0000_0000_0000, 0x400_0000_0000);
    assert(div_spec(0x3d71_88c0, 0x3c80_0000) == 0x4071_88c0);
    assert(0x8c_1384 * 0x40 + 0xf1_88c0 * 0x1 == 0x23f6_69c0);
    lemma_sum_known(0x430c_1384, 0x4071_88c0, false, 0x8c_1384, 133, 0xf1_88c0, 127, 0x40, 0x1, 0x23f6_69c0, 30, 0x2000_0000, 0x40);
}

/// The chord over interval 104.
proof fn lemma_chord_104()
    ensures
        chord_end(0x3e8d_5e8d, 0x3e95_5e8d, 0x430f_d9a7, 0x4313_8132) == 0x4313_8132,
{
    reveal(chord_end);
    lemma2_to64();
    lemma2_to64_rest();
    lemma_high_powers();
    assert(0x95_5e8d * 0x1 - 0x8d_5e8d * 0x1 == 0x8_0000);
    lemma_sum_known(0x3e95_5e8d, 0x3e8d_5e8d, true, 0x95_5e8d, 124, 0x8d_5e8d, 124, 0x1, 0x1, 0x8_0000, 20, 0x8_0000, 0x10);
    assert(sub_spec(0x3e95_5e8d, 0x3e8d_5e8d) == 0x3c80_0000);
    assert(0x93_8132 * 0x1 - 0x8f_d9a7 * 0x1 == 0x3_a78b);
    lemma_sum_known(0x4313_8132, 0x430f_d9a7, true, 0x93_8132, 133, 0x8f_d9a7, 133, 0x1, 0x1, 0x3_a78b, 18, 0x2_0000, 0x40);
    assert(sub_spec(0x4313_8132, 0x430f_d9a7) == 0x4069_e2c0);
    assert(0xe9_e2c0 * 0x80_0000 == 0x74f1_6000_0000);
    lemma_product_known(0x4069_e2c0, 0x3c80_0000, 0xe9_e2c0, 127, 0x80_0000, 120, 0x74f1_6000_0000, 47, 0x4000_0000_0000, 0x80_0000);
    assert(mul_spec(0x4069_e2c0, 0x3c80_0000) == 0x3d69_e2c0);
    assert(0xe9_e2c0 * 0x1_0000_0000_0000_0000 == 0x1_d3c5_8000_0000_0000 * 0x80_0000 + 0x0);
    lemma_quotient_known(0x3d69_e2c0, 0x3c80_0000, 0xe9_e2c0, 121, 0x80_0000, 120, 0x1_d3c5_8000_0000_0000, 0x0, 66, 0x2_0000_0000_0000_0000, 0x400_0000_0000);
    assert(div_spec(0x3d69_e2c0, 0x3c80_0000) == 0x4069_e2c0);
    assert(0x8f_d9a7 * 0x40 + 0xe9_e2c0 * 0x1 == 0x24e0_4c80);
    lemma_sum_known(0x430f_d9a7, 0x4069_e2c0, false, 0x8f_d9a7, 133, 0xe9_e2c0, 127, 0x40, 0x1, 0x24e0_4c80, 30, 0x2000_0000, 0x40);
}

/// The chord over interval 105.
proof fn lemma_chord_105()
    ensures
        chord_end(0x3e95_5e8d, 0x3e9d_5e8d, 0x4313_8132, 0x4317_0a33) == 0x4317_0a33,
{
    reveal(chord_end);
    lemma2_to64();
    lemma2_to64_rest();
    lemma_high_powers();
    assert(0x9d_5e8d * 0x1 - 0x95_5e8d * 0x1 == 0x8_0000);
    lemma_sum_known(0x3e9d_5e8d, 0x3e95_5e8d, true, 0x9d_5e8d, 124, 0x95_5e8d, 124, 0x1, 0x1, 0x8_0000, 20, 0x8_0000, 0x10);
    assert(sub_spec(0x3e9d_5e8d, 0x3e95_5e8d) == 0x3c80_0000);
    assert(0x97_0a33 * 0x1 - 0x93_8132 * 0x1 == 0x3_8901);
    lemma_sum_known(0x4317_0a33, 0x4313_8132, true, 0x97_0a33, 133, 0x93_8132, 133, 0x1, 0x1, 0x3_8901, 18, 0x2_0000, 0x40);
    assert(sub_spec(0x4317_0a33, 0x4313_8132) == 0x4062_4040);
    assert(0xe2_4040 * 0x80_0000 == 0x7120_2000_0000);
    lemma_product_known(0x4062_4040, 0x3c80_0000, 0xe2_4040, 127, 0x80_0000, 120, 0x7120_2000_0000, 47, 0x4000_0000_0000, 0x80_0000);
    assert(mul_spec(0x4062_4040, 0x3c80_0000) == 0x3d62_4040);
    assert(0xe2_4040 * 0x1_0000_0000_0000_0000 == 0x1_c480_8000_0000_0000 * 0x80_0000 + 0x0);
    lemma_quotient_known(0x3d62_4040, 0x3c80_0000, 0xe2_4040, 121, 0x80_0000, 120, 0x1_c480_8000_0000_0000, 0x0, 66, 0x2_0000_0000_0000_0000, 0x400_0000_0000);
    assert(div_spec(0x3d62_4040, 0x3c80_0000) == 0x4062_4040);
    assert(0x93_8132 * 0x40 + 0xe2_4040 * 0x1 == 0x25c2_8cc0);
    lemma_sum_known(0x4313_8132, 0x4062_4040, false, 0x93_8132, 133, 0xe2_4040, 127, 0x40, 0x1, 0x25c2_8cc0, 30, 0x2000_0000, 0x40);
}

/// The chord over interval 106.
proof fn lemma_chord_106()
    ensures
        chord_end(0x3e9d_5e8d, 0x3ea5_5e8d, 0x4317_0a33, 0x431a_7a82) == 0x431a_7a82,
{
    reveal(chord_end);
    lemma2_to64();
    lemma2_to64_rest();
    lemma_high_powers();
    assert(0xa5_5e8d * 0x1 - 0x9d_5e8d * 0x1 == 0x8_0000);
    lemma_sum_known(0x3ea5_5e8d, 0x3e9d_5e8d, true, 0xa5_5e8d, 124, 0x9d_5e8d, 124, 0x1, 0x1, 0x8_0000, 20, 0x8_0000, 0x10);
    assert(sub_spec(0x3ea5_5e8d, 0x3e9d_5e8d) == 0x3c80_0000);
    assert(0x9a_7a82 * 0x1 - 0x97_0a33 * 0x1 == 0x3_704f);
    lemma_sum_known(0x431a_7a82, 0x4317_0a33, true, 0x9a_7a82, 133, 0x97_0a33, 133, 0x1, 0x1, 0x3_704f, 18, 0x2_0000, 0x40);
    assert(sub_spec(0x431a_7a82, 0x4317_0a33) == 0x405c_13c0);
    assert(0xdc_13c0 * 0x80_0000 == 0x6e09_e000_0000);
    lemma_product_known(0x405c_13c0, 0x3c80_0000, 0xdc_13c0, 127, 0x80_0000, 120, 0x6e09_e000_0000, 47, 0x4000_0000_0000, 0x80_0000);
    assert(mul_spec(0x405c_13c0, 0x3c80_0000) == 0x3d5c_13c0);
    assert(0xdc_13c0 * 0x1_0000_0000_0000_0000 == 0x1_b827_8000_0000_0000 * 0x80_0000 + 0x0);
    lemma_quotient_known(0x3d5c_13c0, 0x3c80_0000, 0xdc_13c0, 121, 0x80_0000, 120, 0x1_b827_8000_0000_0000, 0x0, 66, 0x2_0000_0000_0000_0000, 0x400_0000_0000);
    assert(div_spec(0x3d5c_13c0, 0x3c80_0000) == 0x405c_13c0);
    assert(0x97_0a33 * 0x40 + 0xdc_13c0 * 0x1 == 0x269e_a080);
    lemma_sum_known(0x4317_0a33, 0x405c_13c0, false, 0x97_0a33, 133, 0xdc_13c0, 127, 0x40, 0x1, 0x269e_a080, 30, 0x2000_0000, 0x40);
}

/// The chord over interval 107.
proof fn lemma_chord_107()
    ensures
        chord_end(0x3ea5_5e8d, 0x3ead_5e8d, 0x431a_7a82, 0x431d_d06c) == 0x431d_d06c,
{
    reveal(chord_end);
    lemma2_to64();
    lemma2_to64_rest();
    lemma_high_powers();
    assert(0xad_5e8d * 0x1 - 0xa5_5e8d * 0x1 == 0x8_0000);
    lemma_sum_known(0x3ead_5e8d, 0x3ea5_5e8d, true, 0xad_5e8d, 124, 0xa5_5e8d, 124, 0x1, 0x1, 0x8_0000, 20, 0x8_0000, 0x10);
    assert(sub_spec(0x3ead_5e8d, 0x3ea5_5e8d) == 0x3c80_0000);
    assert(0x9d_d06c * 0x1 - 0x9a_7a82 * 0x1 == 0x3_55ea);
    lemma_sum_known(0x431d_d06c, 0x431a_7a82, true, 0x9d_d06c, 133, 0x9a_7a82, 133, 0x1, 0x1, 0x3_55ea, 18, 0x2_0000, 0x40);
    assert(sub_spec(0x431d_d06c, 0x431a_7a82) == 0x4055_7a80);
    assert(0xd5_7a80 * 0x80_0000 == 0x6abd_4000_0000);
    lemma_product_known(0x4055_7a80, 0x3c80_0000, 0xd5_7a80, 127, 0x80_0000, 120, 0x6abd_4000_0000, 47, 0x4000_0000_0000, 0x80_0000);
    assert(mul_spec(0x4055_7a80, 0x3c80_0000) == 0x3d55_7a80);
    assert(0xd5_7a80 * 0x1_0000_0000_0000_0000 == 0x1_aaf5_0000_0000_0000 * 0x80_0000 + 0x0);
    lemma_quotient_known(0x3d55_7a80, 0x3c80_0000, 0xd5_7a80, 121, 0x80_0000, 120, 0x1_aaf5_0000_0000_0000, 0x0, 66, 0x2_0000_0000_0000_0000, 0x400_0000_0000);
    assert(div_spec(0x3d55_7a80, 0x3c80_0000) == 0x4055_7a80);
    assert(0x9a_7a82 * 0x40 + 0xd5_7a80 * 0x1 == 0x2774_1b00);
    lemma_sum_known(0x431a_7a82, 0x4055_7a80, false, 0x9a_7a82, 133, 0xd5_7a80, 127, 0x40, 0x1, 0x2774_1b00, 30, 0x2000_0000, 0x40);
}

/// The chord over interval 108.
proof fn lemma_chord_108()
    ensures
        chord_end(0x3ead_5e8d, 0x3eb5_5e8d, 0x431d_d06c, 0x4321_109e) == 0x4321_109e,
{
    reveal(chord_end);
    lemma2_to64();
    lemma2_to64_rest();
    lemma_high_powers();
    assert(0xb5_5e8d * 0x1 - 0xad_5e8d * 0x1 == 0x8_0000);
    lemma_sum_known(0x3eb5_5e8d, 0x3ead_5e8d, true, 0xb5_5e8d, 124, 0xad_5e8d, 124, 0x1, 0x1, 0x8_0000, 20, 0x8_0000, 0x10);
    assert(sub_spec(0x3eb5_5e8d, 0x3ead_5e8d) == 0x3c80_0000);
    assert(0xa1_109e * 0x1 - 0x9d_d06c * 0x1 == 0x3_4032);
    lemma_sum_known(0x4321_109e, 0x431d_d06c, true, 0xa1_109e, 133, 0x9d_d06c, 133, 0x1, 0x1, 0x3_4032, 18, 0x2_0000, 0x40);
    assert(sub_spec(0x4321_109e, 0x431d_d06c) == 0x4050_0c80);
    assert(0xd0_0c80 * 0x80_0000 == 0x6806_4000_0000);
    lemma_product_known(0x4050_0c80, 0x3c80_0000, 0xd0_0c80, 127, 0x80_0000, 120, 0x6806_4000_0000, 47, 0x4000_0000_0000, 0x80_0000);
    assert(mul_spec(0x4050_0c80, 0x3c80_0000) == 0x3d50_0c80);
    assert(0xd0_0c80 * 0x1_0000_0000_0000_0000 == 0x1_a019_0000_0000_0000 * 0x80_0000 + 0x0);
    lemma_quotient_known(0x3d50_0c80, 0x3c80_0000, 0xd0_0c80, 121, 0x80_0000, 120, 0x1_a019_0000_0000_0000, 0x0, 66, 0x2_0000_0000_0000_0000, 0x400_0000_0000);
    assert(div_spec(0x3d50_0c80, 0x3c80_0000) == 0x4050_0c80);
    assert(0x9d_d06c * 0x40 + 0xd0_0c80 * 0x1 == 0x2844_2780);
    lemma_sum_known(0x431d_d06c, 0x4050_0c80, false, 0x9d_d06c, 133, 0xd0_0c80, 127, 0x40, 0x1, 0x2844_2780, 30, 0x2000_0000, 0x40);
}

/// The chord over interval 109.
proof fn lemma_chord_109()
    ensures
        chord_end(0x3eb5_5e8d, 0x3ebd_5e8d, 0x4321_109e, 0x4324_3be0) == 0x4324_3be0,
{
    reveal(chord_end);
    lemma2_to64();
    lemma2_to64_rest();
    lemma_high_powers();
    assert(0xbd_5e8d * 0x1 - 0xb5_5e8d * 0x1 == 0x8_0000);
    lemma_sum_known(0x3ebd_5e8d, 0x3eb5_5e8d, true, 0xbd_5e8d, 124, 0xb5_5e8d, 124, 0x1, 0x1, 0x8_0000, 20, 0x8_0000, 0x10);
    assert(sub_spec(0x3ebd_5e8d, 0x3eb5_5e8d) == 0x3c80_0000);
    assert(0xa4_3be0 * 0x1 - 0xa1_109e * 0x1 == 0x3_2b42);
    lemma_sum_known(0x4324_3be0, 0x4321_109e, true, 0xa4_3be0, 133, 0xa1_109e, 133, 0x1, 0x1, 0x3_2b42, 18, 0x2_0000, 0x40);
    assert(sub_spec(0x4324_3be0, 0x4321_109e) == 0x404a_d080);
    assert(0xca_d080 * 0x80_0000 == 0x6568_4000_0000);
    lemma_product_known(0x404a_d080, 0x3c80_0000, 0xca_d080, 127, 0x80_0000, 120, 0x6568_4000_0000, 47, 0x4000_0000_0000, 0x80_0000);
    assert(mul_spec(0x404a_d080, 0x3c80_0000) == 0x3d4a_d080);
    assert(0xca_d080 * 0x1_0000_0000_0000_0000 == 0x1_95a1_0000_0000_0000 * 0x80_0000 + 0x0);
    lemma_quotient_known(0x3d4a_d080, 0x3c80_0000, 0xca_d080, 121, 0x80_0000, 120, 0x1_95a1_0000_0000_0000, 0x0, 66, 0x2_0000_0000_0000_0000, 0x400_0000_0000);
    assert(div_spec(0x3d4a_d080, 0x3c80_0000) == 0x404a_d080);
    assert(0xa1_109e * 0x40 + 0xca_d080 * 0x1 == 0x290e_f800);
    lemma_sum_known(0x4321_109e, 0x404a_d080, false, 0xa1_109e, 133, 0xca_d080, 127, 0x40, 0x1, 0x290e_f800, 30, 0x2000_0000, 0x40);
}

/// The chord over interval 110.
proof fn lemma_chord_110()
    ensures
        chord_end(0x3ebd_5e8d, 0x3ec5_5e8d, 0x4324_3be0, 0x4327_535e) == 0x4327_535e,
{
    reveal(chord_end);
    lemma2_to64();
    lemma2_to64_rest();
    lemma_high_powers();
    assert(0xc5_5e8d * 0x1 - 0xbd_5e8d * 0x1 == 0x8_0000);
    lemma_sum_known(0x3ec5_5e8d, 0x3ebd_5e8d, true, 0xc5_5e8d, 124, 0xbd_5e8d, 124, 0x1, 0x1, 0x8_0000, 20, 0x8_0000, 0x10);
    assert(sub_spec(0x3ec5_5e8d, 0x3ebd_5e8d) == 0x3c80_0000);
    assert(0xa7_535e * 0x1 - 0xa4_3be0 * 0x1 == 0x3_177e);
    lemma_sum_known(0x4327_535e, 0x4324_3be0, true, 0xa7_535e, 133, 0xa4_3be0, 133, 0x1, 0x1, 0x3_177e, 18, 0x2_0000, 0x40);
    assert(sub_spec(0x4327_535e, 0x4324_3be0) == 0x4045_df80);
    assert(0xc5_df80 * 0x80_0000 == 0x62ef_c000_0000);
    lemma_product_known(0x4045_df80, 0x3c80_0000, 0xc5_df80, 127, 0x80_0000, 120, 0x62ef_c000_0000, 47, 0x4000_0000_0000, 0x80_0000);
    assert(mul_spec(0x4045_df80, 0x3c80_0000) == 0x3d45_df80);
    assert(0xc5_df80 * 0x1_0000_0000_0000_0000 == 0x1_8bbf_0000_0000_0000 * 0x80_0000 + 0x0);
    lemma_quotient_known(0x3d45_df80, 0x3c80_0000, 0xc5_df80, 121, 0x80_0000, 120, 0x1_8bbf_0000_0000_0000, 0x0, 66, 0x2_0000_0000_0000_0000, 0x400_0000_0000);
    assert(div_spec(0x3d45_df80, 0x3c80_0000) == 0x4045_df80);
    assert(0xa4_3be0 * 0x40 + 0xc5_df80 * 0x1 == 0x29d4_d780);
    lemma_sum_known(0x4324_3be0, 0x4045_df80, false, 0xa4_3be0, 133, 0xc5_df80, 127, 0x40, 0x1, 0x29d4_d780, 30, 0x2000_0000, 0x40);
}

/// The chord over interval 111.
proof fn lemma_chord_111()
    ensures
        chord_end(0x3ec5_5e8d, 0x3ecd_5e8d, 0x4327_535e, 0x432a_57db) == 0x432a_57db,
{
    reveal(chord_end);
    lemma2_to64();
    lemma2_to64_rest();
    lemma_high_powers();
    assert(0xcd_5e8d * 0x1 - 0xc5_5e8d * 0x1 == 0x8_0000);
    lemma_sum_known(0x3ecd_5e8d, 0x3ec5_5e8d, true, 0xcd_5e8d, 124, 0xc5_5e8d, 124, 0x1, 0x1, 0x8_0000, 20, 0x8_0000, 0x10);
    assert(sub_spec(0x3ecd_5e8d, 0x3ec5_5e8d) == 0x3c80_0000);
    assert(0xaa_57db * 0x1 - 0xa7_535e * 0x1 == 0x3_047d);
    lemma_sum_known(0x432a_57db, 0x4327_535e, true, 0xaa_57db, 133, 0xa7_535e, 133, 0x1, 0x1, 0x3_047d, 18, 0x2_0000, 0x40);
    assert(sub_spec(0x432a_57db, 0x4327_535e) == 0x4041_1f40);
    assert(0xc1_1f40 * 0x80_0000 == 0x608f_a000_0000);
    lemma_product_known(0x4041_1f40, 0x3c80_0000, 0xc1_1f40, 127, 0x80_0000, 120, 0x608f_a000_0000, 47, 0x4000_0000_0000, 0x80_0000);
    assert(mul_spec(0x4041_1f40, 0x3c80_0000) == 0x3d41_1f40);
    assert(0xc1_1f40 * 0x1_0000_0000_0000_0000 == 0x1_823e_8000_0000_0000 * 0x80_0000 + 0x0);
    lemma_quotient_known(0x3d41_1f40, 0x3c80_0000, 0xc1_1f40, 121, 0x80_0000, 120, 0x1_823e_8000_0000_0000, 0x0, 66, 0x2_0000_0000_0000_0000, 0x400_0000_0000);
    assert(div_spec(0x3d41_1f40, 0x3c80_0000) == 0x4041_1f40);
    assert(0xa7_535e * 0x40 + 0xc1_1f40 * 0x1 == 0x2a95_f6c0);
    lemma_sum_known(0x4327_535e, 0x4041_1f40, false, 0xa7_535e, 133, 0xc1_1f40, 127, 0x40, 0x1, 0x2a95_f6c0, 30, 0x2000_0000, 0x40);
}

/// The chord over interval 112.
proof fn lemma_chord_112()
    ensures
        chord_end(0x3ecd_5e8d, 0x3ed5_5e8d, 0x432a_57db, 0x432d_4b13) == 0x432d_4b13,
{
    reveal(chord_end);
    lemma2_to64();
    lemma2_to64_rest();
    lemma_high_powers();
    assert(0xd5_5e8d * 0x1 - 0xcd_5e8d * 0x1 == 0x8_0000);
    lemma_sum_known(0x3ed5_5e8d, 0x3ecd_5e8d, true, 0xd5_5e8d, 124, 0xcd_5e8d, 124, 0x1, 0x1, 0x8_0000, 20, 0x8_0000, 0x10);
    assert(sub_spec(0x3ed5_5e8d, 0x3ecd_5e8d) == 0x3c80_0000);
    assert(0xad_4b13 * 0x1 - 0xaa_57db * 0x1 == 0x2_f338);
    lemma_sum_known(0x432d_4b13, 0x432a_57db, true, 0xad_4b13, 133, 0xaa_57db, 133, 0x1, 0x1, 0x2_f338, 18, 0x2_0000, 0x40);
    assert(sub_spec(0x432d_4b13, 0x432a_57db) == 0x403c_ce00);
    assert(0xbc_ce00 * 0x80_0000 == 0x5e67_0000_0000);
    lemma_product_known(0x403c_ce00, 0x3c80_0000, 0xbc_ce00, 127, 0x80_0000, 120, 0x5e67_0000_0000, 47, 0x4000_0000_0000, 0x80_0000);
    assert(mul_spec(0x403c_ce00, 0x3c80_0000) == 0x3d3c_ce00);
    assert(0xbc_ce00 * 0x1_0000_0000_0000_0000 == 0x1_799c_0000_0000_0000 * 0x80_0000 + 0x0);
    lemma_quotient_known(0x3d3c_ce00, 0x3c80_0000, 0xbc_ce00, 121, 0x80_0000, 120, 0x1_799c_0000_0000_0000, 0x0, 66, 0x2_0000_0000_0000_0000, 0x400_0000_0000);
    assert(div_spec(0x3d3c_ce00, 0x3c80_0000) == 0x403c_ce00);
    assert(0xaa_57db * 0x40 + 0xbc_ce00 * 0x1 == 0x2b52_c4c0);
    lemma_sum_known(0x432a_57db, 0x403c_ce00, false, 0xaa_57db, 133, 0xbc_ce00, 127, 0x40, 0x1, 0x2b52_c4c0, 30, 0x2000_0000, 0x40);
}

/// The chord over interval 113.
proof fn lemma_chord_113()
    ensures
        chord_end(0x3ed5_5e8d, 0x3edd_5e8d, 0x432d_4b13, 0x4330_2e35) == 0x4330_2e35,
{
    reveal(chord_end);
    lemma2_to64();
    lemma2_to64_rest();
    lemma_high_powers();
    assert(0xdd_5e8d * 0x1 - 0xd5_5e8d * 0x1 == 0x8_0000);
    lemma_sum_known(0x3edd_5e8d, 0x3ed5_5e8d, true, 0xdd_5e8d, 124, 0xd5_5e8d, 124, 0x1, 0x1, 0x8_0000, 20, 0x8_0000, 0x10);
    assert(sub_spec(0x3edd_5e8d, 0x3ed5_5e8d) == 0x3c80_0000);
    assert(0xb0_2e35 * 0x1 - 0xad_4b13 * 0x1 == 0x2_e322);
    lemma_sum_known(0x4330_2e35, 0x432d_4b13, true, 0xb0_2e35, 133, 0xad_4b13, 133, 0x1, 0x1, 0x2_e322, 18, 0x2_0000, 0x40);
    assert(sub_spec(0x4330_2e35, 0x432d_4b13) == 0x4038_c880);
    assert(0xb8_c880 * 0x80_0000 == 0x5c64_4000_0000);
    lemma_product_known(0x4038_c880, 0x3c80_0000, 0xb8_c880, 127, 0x80_0000, 120, 0x5c64_4000_0000, 47, 0x4000_0000_0000, 0x80_0000);
    assert(mul_spec(0x4038_c880, 0x3c80_0000) == 0x3d38_c880);
    assert(0xb8_c880 * 0x1_0000_0000_0000_0000 == 0x1_7191_0000_0000_0000 * 0x80_0000 + 0x0);
    lemma_quotient_known(0x3d38_c880, 0x3c80_0000, 0xb8_c880, 121, 0x80_0000, 120, 0x1_7191_0000_0000_0000, 0x0, 66, 0x2_0000_0000_0000_0000, 0x400_0000_0000);
    assert(div_spec(0x3d38_c880, 0x3c80_0000) == 0x4038_c880);
    assert(0xad_4b13 * 0x40 + 0xb8_c880 * 0x1 == 0x2c0b_8d40);
    lemma_sum_known(0x432d_4b13, 0x4038_c880, false, 0xad_4b13, 133, 0xb8_c880, 127, 0x40, 0x1, 0x2c0b_8d40, 30, 0x2000_0000, 0x40);
}

/// The chord over interval 114.
proof fn lemma_chord_114()
    ensures
        chord_end(0x3edd_5e8d, 0x3ee5_5e8d, 0x4330_2e35, 0x4333_01c5) == 0x4333_01c5,
{
    reveal(chord_end);
    lemma2_to64();
    lemma2_to64_rest();
    lemma_high_powers();
    assert(0xe5_5e8d * 0x1 - 0xdd_5e8d * 0x1 == 0x8_0000);
    lemma_sum_known(0x3ee5_5e8d, 0x3edd_5e8d, true, 0xe5_5e8d, 124, 0xdd_5e8d, 124, 0x1, 0x1, 0x8_0000, 20, 0x8_0000, 0x10);
    assert(sub_spec(0x3ee5_5e8d, 0x3edd_5e8d) == 0x3c80_0000);
    assert(0xb3_01c5 * 0x1 - 0xb0_2e35 * 0x1 == 0x2_d390);
    lemma_sum_known(0x4333_01c5, 0x4330_2e35, true, 0xb3_01c5, 133, 0xb0_2e35, 133, 0x1, 0x1, 0x2_d390, 18, 0x2_0000, 0x40);
    assert(sub_spec(0x4333_01c5, 0x4330_2e35) == 0x4034_e400);
    assert(0xb4_e400 * 0x80_0000 == 0x5a72_0000_0000);
    lemma_product_known(0x4034_e400, 0x3c80_0000, 0xb4_e400, 127, 0x80_0000, 120, 0x5a72_0000_0000, 47, 0x4000_0000_0000, 0x80_0000);
    assert(mul_spec(0x4034_e400, 0x3c80_0000) == 0x3d34_e400);
    assert(0xb4_e400 * 0x1_0000_0000_0000_0000 == 0x1_69c8_0000_0000_0000 * 0x80_0000 + 0x0);
    lemma_quotient_known(0x3d34_e400, 0x3c80_0000, 0xb4_e400, 121, 0x80_0000, 120, 0x1_69c8_0000_0000_0000, 0x0, 66, 0x2_0000_0000_0000_0000, 0x400_0000_0000);
    assert(div_spec(0x3d34_e400, 0x3c80_0000) == 0x4034_e400);
    assert(0xb0_2e35 * 0x40 + 0xb4_e400 * 0x1 == 0x2cc0_7140);
    lemma_sum_known(0x4330_2e35, 0x4034_e400, false, 0xb0_2e35, 133, 0xb4_e400, 127, 0x40, 0x1, 0x2cc0_7140, 30, 0x2000_0000, 0x40);
}

/// The chord over interval 115.
proof fn lemma_chord_115()
    ensures
        chord_end(0x3ee5_5e8d, 0x3eed_5e8d, 0x4333_01c5, 0x4335_c6a9) == 0x4335_c6a9,
{
    reveal(chord_end);
    lemma2_to64();
    lemma2_to64_rest();
    lemma_high_powers();
    assert(0xed_5e8d * 0x1 - 0xe5_5e8d * 0x1 == 0x8_0000);
    lemma_sum_known(0x3eed_5e8d, 0x3ee5_5e8d, true, 0xed_5e8d, 124, 0xe5_5e8d, 124, 0x1, 0x1, 0x8_0000, 20, 0x8_0000, 0x10);
    assert(sub_spec(0x3eed_5e8d, 0x3ee5_5e8d) == 0x3c80_0000);
    assert(0xb5_c6a9 * 0x1 - 0xb3_01c5 * 0x1 == 0x2_c4e4);
    lemma_sum_known(0x4335_c6a9, 0x4333_01c5, true, 0xb5_c6a9, 133, 0xb3_01c5, 133, 0x1, 0x1, 0x2_c4e4, 18, 0x2_0000, 0x40);
    assert(sub_spec(0x4335_c6a9, 0x4333_01c5) == 0x4031_3900);
    assert(0xb1_3900 * 0x80_0000 == 0x589c_8000_0000);
    lemma_product_known(0x4031_3900, 0x3c80_0000, 0xb1_3900, 127, 0x80_0000, 120, 0x589c_8000_0000, 47, 0x4000_0000_0000, 0x80_0000);
    assert(mul_spec(0x4031_3900, 0x3c80_0000) == 0x3d31_3900);
    assert(0xb1_3900 * 0x1_0000_0000_0000_0000 == 0x1_6272_0000_0000_0000 * 0x80_0000 + 0x0);
    lemma_quotient_known(0x3d31_3900, 0x3c80_0000, 0xb1_3900, 121, 0x80_0000, 120, 0x1_6272_0000_0000_0000, 0x0, 66, 0x2_0000_0000_0000_0000, 0x400_0000_0000);
    assert(div_spec(0x3d31_3900, 0x3c80_0000) == 0x4031_3900);
    assert(0xb3_01c5 * 0x40 + 0xb1_3900 * 0x1 == 0x2d71_aa40);
    lemma_sum_known(0x4333_01c5, 0x4031_3900, false, 0xb3_01c5, 133, 0xb1_3900, 127, 0x40, 0x1, 0x2d71_aa40, 30, 0x2000_0000, 0x40);
}

/// The chord over interval 116.
proof fn lemma_chord_116()
    ensures
        chord_end(0x3eed_5e8d, 0x3ef5_5e8d, 0x4335_c6a9, 0x4338_7de3) == 0x4338_7de3,
{
    reveal(chord_end);
    lemma2_to64();
    lemma2_to64_rest();
    lemma_high_powers();
    assert(0xf5_5e8d * 0x1 - 0xed_5e8d * 0x1 == 0x8_0000);
    lemma_sum_known(0x3ef5_5e8d, 0x3eed_5e8d, true, 0xf5_5e8d, 124, 0xed_5e8d, 124, 0x1, 0x1, 0x8_0000, 20, 0x8_0000, 0x10);
    assert(sub_spec(0x3ef5_5e8d, 0x3eed_5e8d) == 0x3c80_0000);
    assert(0xb8_7de3 * 0x1 - 0xb5_c6a9 * 0x1 == 0x2_b73a);
    lemma_sum_known(0x4338_7de3, 0x4335_c6a9, true, 0xb8_7de3, 133, 0xb5_c6a9, 133, 0x1, 0x1, 0x2_b73a, 18, 0x2_0000, 0x40);
    assert(sub_spec(0x4338_7de3, 0x4335_c6a9) == 0x402d_ce80);
    assert(0xad_ce80 * 0x80_0000 == 0x56e7_4000_0000);
    lemma_product_known(0x402d_ce80, 0x3c80_0000, 0xad_ce80, 127, 0x80_0000, 120, 0x56e7_4000_0000, 47, 0x4000_0000_0000, 0x80_0000);
    assert(mul_spec(0x402d_ce80, 0x3c80_0000) == 0x3d2d_ce80);
    assert(0xad_ce80 * 0x1_0000_0000_0000_0000 == 0x1_5b9d_0000_0000_0000 * 0x80_0000 + 0x0);
    lemma_quotient_known(0x3d2d_ce80, 0x3c80_0000, 0xad_ce80, 121, 0x80_0000, 120, 0x1_5b9d_0000_0000_0000, 0x0, 66, 0x2_0000_0000_0000_0000, 0x400_0000_0000);
    assert(div_spec(0x3d2d_ce80, 0x3c80_0000) == 0x402d_ce80);
    assert(0xb5_c6a9 * 0x40 + 0xad_ce80 * 0x1 == 0x2e1f_78c0);
    lemma_sum_known(0x4335_c6a9, 0x402d_ce80, false, 0xb5_c6a9, 133, 0xad_ce80, 127, 0x40, 0x1, 0x2e1f_78c0, 30, 0x2000_0000, 0x40);
}

/// The chord over interval 117.
proof fn lemma_chord_117()
    ensures
        chord_end(0x3ef5_5e8d, 0x3efd_5e8d, 0x4338_7de3, 0x433b_28a1) == 0x433b_28a1,
{
    reveal(chord_end);
    lemma2_to64();
    lemma2_to64_rest();
    lemma_high_powers();
    assert(0xfd_5e8d * 0x1 - 0xf5_5e8d * 0x1 == 0x8_0000);
    lemma_sum_known(0x3efd_5e8d, 0x3ef5_5e8d, true, 0xfd_5e8d, 124, 0xf5_5e8d, 124, 0x1, 0x1, 0x8_0000, 20, 0x8_0000, 0x10);
    assert(sub_spec(0x3efd_5e8d, 0x3ef5_5e8d) == 0x3c80_0000);
    assert(0xbb_28a1 * 0x1 - 0xb8_7de3 * 0x1 == 0x2_aabe);
    lemma_sum_known(0x433b_28a1, 0x4338_7de3, true, 0xbb_28a1, 133, 0xb8_7de3, 133, 0x1, 0x1, 0x2_aabe, 18, 0x2_0000, 0x40);
    assert(sub_spec(0x433b_28a1, 0x4338_7de3) == 0x402a_af80);
    assert(0xaa_af80 * 0x80_0000 == 0x5557_c000_0000);
    lemma_product_known(0x402a_af80, 0x3c80_0000, 0xaa_af80, 127, 0x80_0000, 120, 0x5557_c000_0000, 47, 0x4000_0000_0000, 0x80_0000);
    assert(mul_spec(0x402a_af80, 0x3c80_0000) == 0x3d2a_af80);
    assert(0xaa_af80 * 0x1_0000_0000_0000_0000 == 0x1_555f_0000_0000_0000 * 0x80_0000 + 0x0);
    lemma_quotient_known(0x3d2a_af80, 0x3c80_0000, 0xaa_af80, 121, 0x80_0000, 120, 0x1_555f_0000_0000_0000, 0x0, 66, 0x2_0000_0000_0000_0000, 0x400_0000_0000);
    assert(div_spec(0x3d2a_af80, 0x3c80_0000) == 0x402a_af80);
    assert(0xb8_7de3 * 0x40 + 0xaa_af80 * 0x1 == 0x2eca_2840);
    lemma_sum_known(0x4338_7de3, 0x402a_af80, false, 0xb8_7de3, 133, 0xaa_af80, 127, 0x40, 0x1, 0x2eca_2840, 30, 0x2000_0000, 0x40);
}

/// The chord over interval 118.
proof fn lemma_chord_118()
    ensures
        chord_end(0x3efd_5e8d, 0x3f05_5e8d, 0x433b_28a1, 0x433f_825c) == 0x433f_825c,
{
    reveal(chord_end);
    lemma2_to64();
    lemma2_to64_rest();
    lemma_high_powers();
    assert(0x85_5e8d * 0x2 - 0xfd_5e8d * 0x1 == 0xd_5e8d);
    lemma_sum_known(0x3f05_5e8d, 0x3efd_5e8d, true, 0x85_5e8d, 125, 0xfd_5e8d, 124, 0x2, 0x1, 0xd_5e8d, 20, 0x8_0000, 0x10);
    assert(sub_spec(0x3f05_5e8d, 0x3efd_5e8d) == 0x3cd5_e8d0);
    assert(0xbf_825c * 0x1 - 0xbb_28a1 * 0x1 == 0x4_59bb);
    lemma_sum_known(0x433f_825c, 0x433b_28a1, true, 0xbf_825c, 133, 0xbb_28a1, 133, 0x1, 0x1, 0x4_59bb, 19, 0x4_0000, 0x20);
    assert(sub_spec(0x433f_825c, 0x433b_28a1) == 0x408b_3760);
    assert(0x8b_3760 * 0xd5_e8d0 == 0x7453_ae2b_fe00);
    lemma_product_known(0x408b_3760, 0x3cd5_e8d0, 0x8b_3760, 128, 0xd5_e8d0, 120, 0x7453_ae2b_fe00, 47, 0x4000_0000_0000, 0x80_0000);
    assert(mul_spec(0x408b_3760, 0x3cd5_e8d0) == 0x3de8_a75c);
    assert(0xe8_a75c * 0x1_0000_0000_0000_0000 == 0x1_166e_bf96_b3fe_1e99 * 0xd5_e8d0 + 0x7f_7bb0);
    lemma_quotient_known(0x3de8_a75c, 0x3cd5_e8d0, 0xe8_a75c, 122, 0xd5_e8d0, 120, 0x1_166e_bf96_b3fe_1e99, 0x7f_7bb0, 66, 0x2_0000_0000_0000_0000, 0x400_0000_0000);
    assert(div_spec(0x3de8_a75c, 0x3cd5_e8d0) == 0x408b_3760);
    assert(0xbb_28a1 * 0x20 + 0x8b_3760 * 0x1 == 0x17f0_4b80);
    lemma_sum_known(0x433b_28a1, 0x408b_3760, false, 0xbb_28a1, 133, 0x8b_3760, 128, 0x20, 0x1, 0x17f0_4b80, 29, 0x1000_0000, 0x20);
}

/// The chord over interval 119.
proof fn lemma_chord_119()
    ensures
        chord_end(0x3f05_5e8d, 0x3f0d_5e8d, 0x433f_825c, 0x4344_8c89) == 0x4344_8c89,
{
    reveal(chord_end);
    lemma2_to64();
    lemma2_to64_rest();
    lemma_high_powers();
    assert(0x8d_5e8d * 0x1 - 0x85_5e8d * 0x1 == 0x8_0000);
    lemma_sum_known(0x3f0d_5e8d, 0x3f05_5e8d, true, 0x8d_5e8d, 125, 0x85_5e8d, 125, 0x1, 0x1, 0x8_0000, 20, 0x8_0000, 0x10);
    assert(sub_spec(0x3f0d_5e8d, 0x3f05_5e8d) == 0x3d00_0000);
    assert(0xc4_8c89 * 0x1 - 0xbf_825c * 0x1 == 0x5_0a2d);
    lemma_sum_known(0x4344_8c89, 0x433f_825c, true, 0xc4_8c89, 133, 0xbf_825c, 133, 0x1, 0x1, 0x5_0a2d, 19, 0x4_0000, 0x20);
    assert(sub_spec(0x4344_8c89, 0x433f_825c) == 0x40a1_45a0);
    assert(0xa1_45a0 * 0x80_0000 == 0x50a2_d000_0000);
    lemma_product_known(0x40a1_45a0, 0x3d00_0000, 0xa1_45a0, 128, 0x80_0000, 121, 0x50a2_d000_0000, 47, 0x4000_0000_0000, 0x80_0000);
    assert(mul_spec(0x40a1_45a0, 0x3d00_0000) == 0x3e21_45a0);
    assert(0xa1_45a0 * 0x1_0000_0000_0000_0000 == 0x1_428b_4000_0000_0000 * 0x80_0000 + 0x0);
    lemma_quotient_known(0x3e21_45a0, 0x3d00_0000, 0xa1_45a0, 123, 0x80_0000, 121, 0x1_428b_4000_0000_0000, 0x0, 66, 0x2_0000_0000_0000_0000, 0x400_0000_0000);
    assert(div_spec(0x3e21_45a0, 0x3d00_0000) == 0x40a1_45a0);
    assert(0xbf_825c * 0x20 + 0xa1_45a0 * 0x1 == 0x1891_9120);
    lemma_sum_known(0x433f_825c, 0x40a1_45a0, false, 0xbf_825c, 133, 0xa1_45a0, 128, 0x20, 0x1, 0x1891_9120, 29, 0x1000_0000, 0x20);
}

/// The chord over interval 120.
proof fn lemma_chord_120()
    ensures
        chord_end(0x3f0d_5e8d, 0x3f15_5e8d, 0x4344_8c89, 0x4349_6ae5) == 0x4349_6ae5,
{
    reveal(chord_end);
    lemma2_to64();
    lemma2_to64_rest();
    lemma_high_powers();
    assert(0x95_5e8d * 0x1 - 0x8d_5e8d * 0x1 == 0x8_0000);
    lemma_sum_known(0x3f15_5e8d, 0x3f0d_5e8d, true, 0x95_5e8d, 125, 0x8d_5e8d, 125, 0x1, 0x1, 0x8_0000, 20, 0x8_0000, 0x10);
    assert(sub_spec(0x3f15_5e8d, 0x3f0d_5e8d) == 0x3d00_0000);
    assert(0xc9_6ae5 * 0x1 - 0xc4_8c89 * 0x1 == 0x4_de5c);
    lemma_sum_known(0x4349_6ae5, 0x4344_8c89, true, 0xc9_6ae5, 133, 0xc4_8c89, 133, 0x1, 0x1, 0x4_de5c, 19, 0x4_0000, 0x20);
    assert(sub_spec(0x4349_6ae5, 0x4344_8c89) == 0x409b_cb80);
    assert(0x9b_cb80 * 0x80_0000 == 0x4de5_c000_0000);
    lemma_product_known(0x409b_cb80, 0x3d00_0000, 0x9b_cb80, 128, 0x80_0000, 121, 0x4de5_c000_0000, 47, 0x4000_0000_0000, 0x80_0000);
    assert(mul_spec(0x409b_cb80, 0x3d00_0000) == 0x3e1b_cb80);
    assert(0x9b_cb80 * 0x1_0000_0000_0000_0000 == 0x1_3797_0000_0000_0000 * 0x80_0000 + 0x0);
    lemma_quotient_known(0x3e1b_cb80, 0x3d00_0000, 0x9b_cb80, 123, 0x80_0000, 121, 0x1_3797_0000_0000_0000, 0x0, 66, 0x2_0000_0000_0000_0000, 0x400_0000_0000);
    assert(div_spec(0x3e1b_cb80, 0x3d00_0000) == 0x409b_cb80);
    assert(0xc4_8c89 * 0x20 + 0x9b_cb80 * 0x1 == 0x192d_5ca0);
    lemma_sum_known(0x4344_8c89, 0x409b_cb80, false, 0xc4_8c89, 133, 0x9b_cb80, 128, 0x20, 0x1, 0x192d_5ca0, 29, 0x1000_0000, 0x20);
}

/// The chord over interval 121.
proof fn lemma_chord_121()
    ensures
        chord_end(0x3f15_5e8d, 0x3f1d_5e8d, 0x4349_6ae5, 0x434e_23f7) == 0x434e_23f7,
{
    reveal(chord_end);
    lemma2_to64();
    lemma2_to64_rest();
    lemma_high_powers();
    assert(0x9d_5e8d * 0x1 - 0x95_5e8d * 0x1 == 0x8_0000);
    lemma_sum_known(0x3f1d_5e8d, 0x3f15_5e8d, true, 0x9d_5e8d, 125, 0x95_5e8d, 125, 0x1, 0x1, 0x8_0000, 20, 0x8_0000, 0x10);
    assert(sub_spec(0x3f1d_5e8d, 0x3f15_5e8d) == 0x3d00_0000);
    assert(0xce_23f7 * 0x1 - 0xc9_6ae5 * 0x1 == 0x4_b912);
    lemma_sum_known(0x434e_23f7, 0x4349_6ae5, true, 0xce_23f7, 133, 0xc9_6ae5, 133, 0x1, 0x1, 0x4_b912, 19, 0x4_0000, 0x20);
    assert(sub_spec(0x434e_23f7, 0x4349_6ae5) == 0x4097_2240);
    assert(0x97_2240 * 0x80_0000 == 0x4b91_2000_0000);
    lemma_product_known(0x4097_2240, 0x3d00_0000, 0x97_2240, 128, 0x80_0000, 121, 0x4b91_2000_0000, 47, 0x4000_0000_0000, 0x80_0000);
    assert(mul_spec(0x4097_2240, 0x3d00_0000) == 0x3e17_2240);
    assert(0x97_2240 * 0x1_0000_0000_0000_0000 == 0x1_2e44_8000_0000_0000 * 0x80_0000 + 0x0);
    lemma_quotient_known(0x3e17_2240, 0x3d00_0000, 0x97_2240, 123, 0x80_0000, 121, 0x1_2e44_8000_0000_0000, 0x0, 66, 0x2_0000_0000_0000_0000, 0x400_0000_0000);
    assert(div_spec(0x3e17_2240, 0x3d00_0000) == 0x4097_2240);
    assert(0xc9_6ae5 * 0x20 + 0x97_2240 * 0x1 == 0x19c4_7ee0);
    lemma_sum_known(0x4349_6ae5, 0x4097_2240, false, 0xc9_6ae5, 133, 0x97_2240, 128, 0x20, 0x1, 0x19c4_7ee0, 29, 0x1000_0000, 0x20);
}

/// The chord over interval 122.
proof fn lemma_chord_122()
    ensures
        chord_end(0x3f1d_5e8d, 0x3f25_5e8d, 0x434e_23f7, 0x4352_b965) == 0x4352_b965,
{
    reveal(chord_end);
    lemma2_to64();
    lemma2_to64_rest();
    lemma_high_powers();
    assert(0xa5_5e8d * 0x1 - 0x9d_5e8d * 0x1 == 0x8_0000);
    lemma_sum_known(0x3f25_5e8d, 0x3f1d_5e8d, true, 0xa5_5e8d, 125, 0x9d_5e8d, 125, 0x1, 0x1, 0x8_0000, 20, 0x8_0000, 0x10);
    assert(sub_spec(0x3f25_5e8d, 0x3f1d_5e8d) == 0x3d00_0000);
    assert(0xd2_b965 * 0x1 - 0xce_23f7 * 0x1 == 0x4_956e);
    lemma_sum_known(0x4352_b965, 0x434e_23f7, true, 0xd2_b965, 133, 0xce_23f7, 133, 0x1, 0x1, 0x4_956e, 19, 0x4_0000, 0x20);
    assert(sub_spec(0x4352_b965, 0x434e_23f7) == 0x4092_adc0);
    assert(0x92_adc0 * 0x80_0000 == 0x4956_e000_0000);
    lemma_product_known(0x4092_adc0, 0x3d00_0000, 0x92_adc0, 128, 0x80_0000, 121, 0x4956_e000_0000, 47, 0x4000_0000_0000, 0x80_0000);
    assert(mul_spec(0x4092_adc0, 0x3d00_0000) == 0x3e12_adc0);
    assert(0x92_adc0 * 0x1_0000_0000_0000_0000 == 0x1_255b_8000_0000_0000 * 0x80_0000 + 0x0);
    lemma_quotient_known(0x3e12_adc0, 0x3d00_0000, 0x92_adc0, 123, 0x80_0000, 121, 0x1_255b_8000_0000_0000, 0x0, 66, 0x2_0000_0000_0000_0000, 0x400_0000_0000);
    assert(div_spec(0x3e12_adc0, 0x3d00_0000) == 0x4092_adc0);
    assert(0xce_23f7 * 0x20 + 0x92_adc0 * 0x1 == 0x1a57_2ca0);
    lemma_sum_known(0x434e_23f7, 0x4092_adc0, false, 0xce_23f7, 133, 0x92_adc0, 128, 0x20, 0x1, 0x1a57_2ca0, 29, 0x1000_0000, 0x20);
}

/// The chord over interval 123.
proof fn lemma_chord_123()
    ensures
        chord_end(0x3f25_5e8d, 0x3f2d_5e8d, 0x4352_b965, 0x4357_2e9d) == 0x4357_2e9d,
{
    reveal(chord_end);
    lemma2_to64();
    lemma2_to64_rest();
    lemma_high_powers();
    assert(0xad_5e8d * 0x1 - 0xa5_5e8d * 0x1 == 0x8_0000);
    lemma_sum_known(0x3f2d_5e8d, 0x3f25_5e8d, true, 0xad_5e8d, 125, 0xa5_5e8d, 125, 0x1, 0x1, 0x8_0000, 20, 0x8_0000, 0x10);
    assert(sub_spec(0x3f2d_5e8d, 0x3f25_5e8d) == 0x3d00_0000);
    assert(0xd7_2e9d * 0x1 - 0xd2_b965 * 0x1 == 0x4_7538);
    lemma_sum_known(0x4357_2e9d, 0x4352_b965, true, 0xd7_2e9d, 133, 0xd2_b965, 133, 0x1, 0x1, 0x4_7538, 19, 0x4_0000, 0x20);
    assert(sub_spec(0x4357_2e9d, 0x4352_b965) == 0x408e_a700);
    assert(0x8e_a700 * 0x80_0000 == 0x4753_8000_0000);
    lemma_product_known(0x408e_a700, 0x3d00_0000, 0x8e_a700, 128, 0x80_0000, 121, 0x4753_8000_0000, 47, 0x4000_0000_0000, 0x80_0000);
    assert(mul_spec(0x408e_a700, 0x3d00_0000) == 0x3e0e_a700);
    assert(0x8e_a700 * 0x1_0000_0000_0000_0000 == 0x1_1d4e_0000_0000_0000 * 0x80_0000 + 0x0);
    lemma_quotient_known(0x3e0e_a700, 0x3d00_0000, 0x8e_a700, 123, 0x80_0000, 121, 0x1_1d4e_0000_0000_0000, 0x0, 66, 0x2_0000_0000_0000_0000, 0x400_0000_0000);
    assert(div_spec(0x3e0e_a700, 0x3d00_0000) == 0x408e_a700);
    assert(0xd2_b965 * 0x20 + 0x8e_a700 * 0x1 == 0x1ae5_d3a0);
    lemma_sum_known(0x4352_b965, 0x408e_a700, false, 0xd2_b965, 133, 0x8e_a700, 128, 0x20, 0x1, 0x1ae5_d3a0, 29, 0x1000_0000, 0x20);
}

/// The chord over interval 124.
proof fn lemma_chord_124()
    ensures
        chord_end(0x3f2d_5e8d, 0x3f35_5e8d, 0x4357_2e9d, 0x435b_857f) == 0x435b_857f,
{
    reveal(chord_end);
    lemma2_to64();
    lemma2_to64_rest();
    lemma_high_powers();
    assert(0xb5_5e8d * 0x1 - 0xad_5e8d * 0x1 == 0x8_0000);
    lemma_sum_known(0x3f35_5e8d, 0x3f2d_5e8d, true, 0xb5_5e8d, 125, 0xad_5e8d, 125, 0x1, 0x1, 0x8_0000, 20, 0x8_0000, 0x10);
    assert(sub_spec(0x3f35_5e8d, 0x3f2d_5e8d) == 0x3d00_0000);
    assert(0xdb_857f * 0x1 - 0xd7_2e9d * 0x1 == 0x4_56e2);
    lemma_sum_known(0x435b_857f, 0x4357_2e9d, true, 0xdb_857f, 133, 0xd7_2e9d, 133, 0x1, 0x1, 0x4_56e2, 19, 0x4_0000, 0x20);
    assert(sub_spec(0x435b_857f, 0x4357_2e9d) == 0x408a_dc40);
    assert(0x8a_dc40 * 0x80_0000 == 0x456e_2000_0000);
    lemma_product_known(0x408a_dc40, 0x3d00_0000, 0x8a_dc40, 128, 0x80_0000, 121, 0x456e_2000_0000, 47, 0x4000_0000_0000, 0x80_0000);
    assert(mul_spec(0x408a_dc40, 0x3d00_0000) == 0x3e0a_dc40);
    assert(0x8a_dc40 * 0x1_0000_0000_0000_0000 == 0x1_15b8_8000_0000_0000 * 0x80_0000 + 0x0);
    lemma_quotient_known(0x3e0a_dc40, 0x3d00_0000, 0x8a_dc40, 123, 0x80_0000, 121, 0x1_15b8_8000_0000_0000, 0x0, 66, 0x2_0000_0000_0000_0000, 0x400_0000_0000);
    assert(div_spec(0x3e0a_dc40, 0x3d00_0000) == 0x408a_dc40);
    assert(0xd7_2e9d * 0x20 + 0x8a_dc40 * 0x1 == 0x1b70_afe0);
    lemma_sum_known(0x4357_2e9d, 0x408a_dc40, false, 0xd7_2e9d, 133, 0x8a_dc40, 128, 0x20, 0x1, 0x1b70_afe0, 29, 0x1000_0000, 0x20);
}

/// The chord over interval 125.
proof fn lemma_chord_125()
    ensures
        chord_end(0x3f35_5e8d, 0x3f3d_5e8d, 0x435b_857f, 0x435f_c028) == 0x435f_c028,
{
    reveal(chord_end);
    lemma2_to64();
    lemma2_to64_rest();
    lemma_high_powers();
    assert(0xbd_5e8d * 0x1 - 0xb5_5e8d * 0x1 == 0x8_0000);
    lemma_sum_known(0x3f3d_5e8d, 0x3f35_5e8d, true, 0xbd_5e8d, 125, 0xb5_5e8d, 125, 0x1, 0x1, 0x8_0000, 20, 0x8_0000, 0x10);
    assert(sub_spec(0x3f3d_5e8d, 0x3f35_5e8d) == 0x3d00_0000);
    assert(0xdf_c028 * 0x1 - 0xdb_857f * 0x1 == 0x4_3aa9);
    lemma_sum_known(0x435f_c028, 0x435b_857f, true, 0xdf_c028, 133, 0xdb_857f, 133, 0x1, 0x1, 0x4_3aa9, 19, 0x4_0000, 0x20);
    assert(sub_spec(0x435f_c028, 0x435b_857f) == 0x4087_5520);
    assert(0x87_5520 * 0x80_0000 == 0x43aa_9000_0000);
    lemma_product_known(0x4087_5520, 0x3d00_0000, 0x87_5520, 128, 0x80_0000, 121, 0x43aa_9000_0000, 47, 0x4000_0000_0000, 0x80_0000);
    assert(mul_spec(0x4087_5520, 0x3d00_0000) == 0x3e07_5520);
    assert(0x87_5520 * 0x1_0000_0000_0000_0000 == 0x1_0eaa_4000_0000_0000 * 0x80_0000 + 0x0);
    lemma_quotient_known(0x3e07_5520, 0x3d00_0000, 0x87_5520, 123, 0x80_0000, 121, 0x1_0eaa_4000_0000_0000, 0x0, 66, 0x2_0000_0000_0000_0000, 0x400_0000_0000);
    assert(div_spec(0x3e07_5520, 0x3d00_0000) == 0x4087_5520);
    assert(0xdb_857f * 0x20 + 0x87_5520 * 0x1 == 0x1bf8_0500);
    lemma_sum_known(0x435b_857f, 0x4087_5520, false, 0xdb_857f, 133, 0x87_5520, 128, 0x20, 0x1, 0x1bf8_0500, 29, 0x1000_0000, 0x20);
}

/// The chord over interval 126.
proof fn lemma_chord_126()
    ensures
        chord_end(0x3f3d_5e8d, 0x3f45_5e8d, 0x435f_c028, 0x4363_e05d) == 0x4363_e05d,
{
    reveal(chord_end);
    lemma2_to64();
    lemma2_to64_rest();
    lemma_high_powers();
    assert(0xc5_5e8d * 0x1 - 0xbd_5e8d * 0x1 == 0x8_0000);
    lemma_sum_known(0x3f45_5e8d, 0x3f3d_5e8d, true, 0xc5_5e8d, 125, 0xbd_5e8d, 125, 0x1, 0x1, 0x8_0000, 20, 0x8_0000, 0x10);
    assert(sub_spec(0x3f45_5e8d, 0x3f3d_5e8d) == 0x3d00_0000);
    assert(0xe3_e05d * 0x1 - 0xdf_c028 * 0x1 == 0x4_2035);
    lemma_sum_known(0x4363_e05d, 0x435f_c028, true, 0xe3_e05d, 133, 0xdf_c028, 133, 0x1, 0x1, 0x4_2035, 19, 0x4_0000, 0x20);
    assert(sub_spec(0x4363_e05d, 0x435f_c028) == 0x4084_06a0);
    assert(0x84_06a0 * 0x80_0000 == 0x4203_5000_0000);
    lemma_product_known(0x4084_06a0, 0x3d00_0000, 0x84_06a0, 128, 0x80_0000, 121, 0x4203_5000_0000, 47, 0x4000_0000_0000, 0x80_0000);
    assert(mul_spec(0x4084_06a0, 0x3d00_0000) == 0x3e04_06a0);
    assert(0x84_06a0 * 0x1_0000_0000_0000_0000 == 0x1_080d_4000_0000_0000 * 0x80_0000 + 0x0);
    lemma_quotient_known(0x3e04_06a0, 0x3d00_0000, 0x84_06a0, 123, 0x80_0000, 121, 0x1_080d_4000_0000_0000, 0x0, 66, 0x2_0000_0000_0000_0000, 0x400_0000_0000);
    assert(div_spec(0x3e04_06a0, 0x3d00_0000) == 0x4084_06a0);
    assert(0xdf_c028 * 0x20 + 0x84_06a0 * 0x1 == 0x1c7c_0ba0);
    lemma_sum_known(0x435f_c028, 0x4084_06a0, false, 0xdf_c028, 133, 0x84_06a0, 128, 0x20, 0x1, 0x1c7c_0ba0, 29, 0x1000_0000, 0x20);
}

/// The chord over interval 127.
proof fn lemma_chord_127()
    ensures
        chord_end(0x3f45_5e8d, 0x3f4d_5e8d, 0x4363_e05d, 0x4367_e7dd) == 0x4367_e7dd,
{
    reveal(chord_end);
    lemma2_to64();
    lemma2_to64_rest();
    lemma_high_powers();
    assert(0xcd_5e8d * 0x1 - 0xc5_5e8d * 0x1 == 0x8_0000);
    lemma_sum_known(0x3f4d_5e8d, 0x3f45_5e8d, true, 0xcd_5e8d, 125, 0xc5_5e8d, 125, 0x1, 0x1, 0x8_0000, 20, 0x8_0000, 0x10);
    assert(sub_spec(0x3f4d_5e8d, 0x3f45_5e8d) == 0x3d00_0000);
    assert(0xe7_e7dd * 0x1 - 0xe3_e05d * 0x1 == 0x4_0780);
    lemma_sum_known(0x4367_e7dd, 0x4363_e05d, true, 0xe7_e7dd, 133, 0xe3_e05d, 133, 0x1, 0x1, 0x4_0780, 19, 0x4_0000, 0x20);
    assert(sub_spec(0x4367_e7dd, 0x4363_e05d) == 0x4080_f000);
    assert(0x80_f000 * 0x80_0000 == 0x4078_0000_0000);
    lemma_product_known(0x4080_f000, 0x3d00_0000, 0x80_f000, 128, 0x80_0000, 121, 0x4078_0000_0000, 47, 0x4000_0000_0000, 0x80_0000);
    assert(mul_spec(0x4080_f000, 0x3d00_0000) == 0x3e00_f000);
    assert(0x80_f000 * 0x1_0000_0000_0000_0000 == 0x1_01e0_0000_0000_0000 * 0x80_0000 + 0x0);
    lemma_quotient_known(0x3e00_f000, 0x3d00_0000, 0x80_f000, 123, 0x80_0000, 121, 0x1_01e0_0000_0000_0000, 0x0, 66, 0x2_0000_0000_0000_0000, 0x400_0000_0000);
    assert(div_spec(0x3e00_f000, 0x3d00_0000) == 0x4080_f000);
    assert(0xe3_e05d * 0x20 + 0x80_f000 * 0x1 == 0x1cfc_fba0);
    lemma_sum_known(0x4363_e05d, 0x4080_f000, false, 0xe3_e05d, 133, 0x80_f000, 128, 0x20, 0x1, 0x1cfc_fba0, 29, 0x1000_0000, 0x20);
}

/// The chord over interval 128.
proof fn lemma_chord_128()
    ensures
        chord_end(0x3f4d_5e8d, 0x3f55_5e8d, 0x4367_e7dd, 0x436b_d83b) == 0x436b_d83b,
{
    reveal(chord_end);
    lemma2_to64();
    lemma2_to64_rest();
    lemma_high_powers();
    assert(0xd5_5e8d * 0x1 - 0xcd_5e8d * 0x1 == 0x8_0000);
    lemma_sum_known(0x3f55_5e8d, 0x3f4d_5e8d, true, 0xd5_5e8d, 125, 0xcd_5e8d, 125, 0x1, 0x1, 0x8_0000, 20, 0x8_0000, 0x10);
    assert(sub_spec(0x3f55_5e8d, 0x3f4d_5e8d) == 0x3d00_0000);
    assert(0xeb_d83b * 0x1 - 0xe7_e7dd * 0x1 == 0x3_f05e);
    lemma_sum_known(0x436b_d83b, 0x4367_e7dd, true, 0xeb_d83b, 133, 0xe7_e7dd, 133, 0x1, 0x1, 0x3_f05e, 18, 0x2_0000, 0x40);
    assert(sub_spec(0x436b_d83b, 0x4367_e7dd) == 0x407c_1780);
    assert(0xfc_1780 * 0x80_0000 == 0x7e0b_c000_0000);
    lemma_product_known(0x407c_1780, 0x3d00_0000, 0xfc_1780, 127, 0x80_0000, 121, 0x7e0b_c000_0000, 47, 0x4000_0000_0000, 0x80_0000);
    assert(mul_spec(0x407c_1780, 0x3d00_0000) == 0x3dfc_1780);
    assert(0xfc_1780 * 0x1_0000_0000_0000_0000 == 0x1_f82f_0000_0000_0000 * 0x80_0000 + 0x0);
    lemma_quotient_known(0x3dfc_1780, 0x3d00_0000, 0xfc_1780, 122, 0x80_0000, 121, 0x1_f82f_0000_0000_0000, 0x0, 66, 0x2_0000_0000_0000_0000, 0x400_0000_0000);
    assert(div_spec(0x3dfc_1780, 0x3d00_0000) == 0x407c_1780);
    assert(0xe7_e7dd * 0x40 + 0xfc_1780 * 0x1 == 0x3af6_0ec0);
    lemma_sum_known(0x4367_e7dd, 0x407c_1780, false, 0xe7_e7dd, 133, 0xfc_1780, 127, 0x40, 0x1, 0x3af6_0ec0, 30, 0x2000_0000, 0x40);
}

/// The chord over interval 129.
proof fn lemma_chord_129()
    ensures
        chord_end(0x3f55_5e8d, 0x3f5d_5e8d, 0x436b_d83b, 0x436f_b2c9) == 0x436f_b2c9,
{
    reveal(chord_end);
    lemma2_to64();
    lemma2_to64_rest();
    lemma_high_powers();
    assert(0xdd_5e8d * 0x1 - 0xd5_5e8d * 0x1 == 0x8_0000);
    lemma_sum_known(0x3f5d_5e8d, 0x3f55_5e8d, true, 0xdd_5e8d, 125, 0xd5_5e8d, 125, 0x1, 0x1, 0x8_0000, 20, 0x8_0000, 0x10);
    assert(sub_spec(0x3f5d_5e8d, 0x3f55_5e8d) == 0x3d00_0000);
    assert(0xef_b2c9 * 0x1 - 0xeb_d83b * 0x1 == 0x3_da8e);
    lemma_sum_known(0x436f_b2c9, 0x436b_d83b, true, 0xef_b2c9, 133, 0xeb_d83b, 133, 0x1, 0x1, 0x3_da8e, 18, 0x2_0000, 0x40);
    assert(sub_spec(0x436f_b2c9, 0x436b_d83b) == 0x4076_a380);
    assert(0xf6_a380 * 0x80_0000 == 0x7b51_c000_0000);
    lemma_product_known(0x4076_a380, 0x3d00_0000, 0xf6_a380, 127, 0x80_0000, 121, 0x7b51_c000_0000, 47, 0x4000_0000_0000, 0x80_0000);
    assert(mul_spec(0x4076_a380, 0x3d00_0000) == 0x3df6_a380);
    assert(0xf6_a380 * 0x1_0000_0000_0000_0000 == 0x1_ed47_0000_0000_0000 * 0x80_0000 + 0x0);
    lemma_quotient_known(0x3df6_a380, 0x3d00_0000, 0xf6_a380, 122, 0x80_0000, 121, 0x1_ed47_0000_0000_0000, 0x0, 66, 0x2_0000_0000_0000_0000, 0x400_0000_0000);
    assert(div_spec(0x3df6_a380, 0x3d00_0000) == 0x4076_a380);
    assert(0xeb_d83b * 0x40 + 0xf6_a380 * 0x1 == 0x3bec_b240);
    lemma_sum_known(0x436b_d83b, 0x4076_a380, false, 0xeb_d83b, 133, 0xf6_a380, 127, 0x40, 0x1, 0x3bec_b240, 30, 0x2000_0000, 0x40);
}

/// The chord over interval 130.
proof fn lemma_chord_130()
    ensures
        chord_end(0x3f5d_5e8d, 0x3f65_5e8d, 0x436f_b2c9, 0x4373_7876) == 0x4373_7876,
{
    reveal(chord_end);
    lemma2_to64();
    lemma2_to64_rest();
    lemma_high_powers();
    assert(0xe5_5e8d * 0x1 - 0xdd_5e8d * 0x1 == 0x8_0000);
    lemma_sum_known(0x3f65_5e8d, 0x3f5d_5e8d, true, 0xe5_5e8d, 125, 0xdd_5e8d, 125, 0x1, 0x1, 0x8_0000, 20, 0x8_0000, 0x10);
    assert(sub_spec(0x3f65_5e8d, 0x3f5d_5e8d) == 0x3d00_0000);
    assert(0xf3_7876 * 0x1 - 0xef_b2c9 * 0x1 == 0x3_c5ad);
    lemma_sum_known(0x4373_7876, 0x436f_b2c9, true, 0xf3_7876, 133, 0xef_b2c9, 133, 0x1, 0x1, 0x3_c5ad, 18, 0x2_0000, 0x40);
    assert(sub_spec(0x4373_7876, 0x436f_b2c9) == 0x4071_6b40);
    assert(0xf1_6b40 * 0x80_0000 == 0x78b5_a000_0000);
    lemma_product_known(0x4071_6b40, 0x3d00_0000, 0xf1_6b40, 127, 0x80_0000, 121, 0x78b5_a000_0000, 47, 0x4000_0000_0000, 0x80_0000);
    assert(mul_spec(0x4071_6b40, 0x3d00_0000) == 0x3df1_6b40);
    assert(0xf1_6b40 * 0x1_0000_0000_0000_0000 == 0x1_e2d6_8000_0000_0000 * 0x80_0000 + 0x0);
    lemma_quotient_known(0x3df1_6b40, 0x3d00_0000, 0xf1_6b40, 122, 0x80_0000, 121, 0x1_e2d6_8000_0000_0000, 0x0, 66, 0x2_0000_0000_0000_0000, 0x400_0000_0000);
    assert(div_spec(0x3df1_6b40, 0x3d00_0000) == 0x4071_6b40);
    assert(0xef_b2c9 * 0x40 + 0xf1_6b40 * 0x1 == 0x3cde_1d80);
    lemma_sum_known(0x436f_b2c9, 0x4071_6b40, false, 0xef_b2c9, 133, 0xf1_6b40, 127, 0x40, 0x1, 0x3cde_1d80, 30, 0x2000_0000, 0x40);
}

/// The chord over interval 131.
proof fn lemma_chord_131()
    ensures
        chord_end(0x3f65_5e8d, 0x3f6d_5e8d, 0x4373_7876, 0x4377_2b7e) == 0x4377_2b7e,
{
    reveal(chord_end);
    lemma2_to64();
    lemma2_to64_rest();
    lemma_high_powers();
    assert(0xed_5e8d * 0x1 - 0xe5_5e8d * 0x1 == 0x8_0000);
    lemma_sum_known(0x3f6d_5e8d, 0x3f65_5e8d, true, 0xed_5e8d, 125, 0xe5_5e8d, 125, 0x1, 0x1, 0x8_0000, 20, 0x8_0000, 0x10);
    assert(sub_spec(0x3f6d_5e8d, 0x3f65_5e8d) == 0x3d00_0000);
    assert(0xf7_2b7e * 0x1 - 0xf3_7876 * 0x1 == 0x3_b308);
    lemma_sum_known(0x4377_2b7e, 0x4373_7876, true, 0xf7_2b7e, 133, 0xf3_7876, 133, 0x1, 0x1, 0x3_b308, 18, 0x2_0000, 0x40);
    assert(sub_spec(0x4377_2b7e, 0x4373_7876) == 0x406c_c200);
    assert(0xec_c200 * 0x80_0000 == 0x7661_0000_0000);
    lemma_product_known(0x406c_c200, 0x3d00_0000, 0xec_c200, 127, 0x80_0000, 121, 0x7661_0000_0000, 47, 0x4000_0000_0000, 0x80_0000);
    assert(mul_spec(0x406c_c200, 0x3d00_0000) == 0x3dec_c200);
    assert(0xec_c200 * 0x1_0000_0000_0000_0000 == 0x1_d984_0000_0000_0000 * 0x80_0000 + 0x0);
    lemma_quotient_known(0x3dec_c200, 0x3d00_0000, 0xec_c200, 122, 0x80_0000, 121, 0x1_d984_0000_0000_0000, 0x0, 66, 0x2_0000_0000_0000_0000, 0x400_0000_0000);
    assert(div_spec(0x3dec_c200, 0x3d00_0000) == 0x406c_c200);
    assert(0xf3_7876 * 0x40 + 0xec_c200 * 0x1 == 0x3dca_df80);
    lemma_sum_known(0x4373_7876, 0x406c_c200, false, 0xf3_7876, 133, 0xec_c200, 127, 0x40, 0x1, 0x3dca_df80, 30, 0x2000_0000, 0x40);
}

/// The chord over interval 132.
proof fn lemma_chord_132()
    ensures
        chord_end(0x3f6d_5e8d, 0x3f75_5e8d, 0x4377_2b7e, 0x437a_cb96) == 0x437a_cb96,
{
    reveal(chord_end);
    lemma2_to64();
    lemma2_to64_rest();
    lemma_high_powers();
    assert(0xf5_5e8d * 0x1 - 0xed_5e8d * 0x1 == 0x8_0000);
    lemma_sum_known(0x3f75_5e8d, 0x3f6d_5e8d, true, 0xf5_5e8d, 125, 0xed_5e8d, 125, 0x1, 0x1, 0x8_0000, 20, 0x8_0000, 0x10);
    assert(sub_spec(0x3f75_5e8d, 0x3f6d_5e8d) == 0x3d00_0000);
    assert(0xfa_cb96 * 0x1 - 0xf7_2b7e * 0x1 == 0x3_a018);
    lemma_sum_known(0x437a_cb96, 0x4377_2b7e, true, 0xfa_cb96, 133, 0xf7_2b7e, 133, 0x1, 0x1, 0x3_a018, 18, 0x2_0000, 0x40);
    assert(sub_spec(0x437a_cb96, 0x4377_2b7e) == 0x4068_0600);
    assert(0xe8_0600 * 0x80_0000 == 0x7403_0000_0000);
    lemma_product_known(0x4068_0600, 0x3d00_0000, 0xe8_0600, 127, 0x80_0000, 121, 0x7403_0000_0000, 47, 0x4000_0000_0000, 0x80_0000);
    assert(mul_spec(0x4068_0600, 0x3d00_0000) == 0x3de8_0600);
    assert(0xe8_0600 * 0x1_0000_0000_0000_0000 == 0x1_d00c_0000_0000_0000 * 0x80_0000 + 0x0);
    lemma_quotient_known(0x3de8_0600, 0x3d00_0000, 0xe8_0600, 122, 0x80_0000, 121, 0x1_d00c_0000_0000_0000, 0x0, 66, 0x2_0000_0000_0000_0000, 0x400_0000_0000);
    assert(div_spec(0x3de8_0600, 0x3d00_0000) == 0x4068_0600);
    assert(0xf7_2b7e * 0x40 + 0xe8_0600 * 0x1 == 0x3eb2_e580);
    lemma_sum_known(0x4377_2b7e, 0x4068_0600, false, 0xf7_2b7e, 133, 0xe8_0600, 127, 0x40, 0x1, 0x3eb2_e580, 30, 0x2000_0000, 0x40);
}

/// The chord over interval 133.
proof fn lemma_chord_133()
    ensures
        chord_end(0x3f75_5e8d, 0x3f7d_5e8d, 0x437a_cb96, 0x437e_5a67) == 0x437e_5a67,
{
    reveal(chord_end);
    lemma2_to64();
    lemma2_to64_rest();
    lemma_high_powers();
    assert(0xfd_5e8d * 0x1 - 0xf5_5e8d * 0x1 == 0x8_0000);
    lemma_sum_known(0x3f7d_5e8d, 0x3f75_5e8d, true, 0xfd_5e8d, 125, 0xf5_5e8d, 125, 0x1, 0x1, 0x8_0000, 20, 0x8_0000, 0x10);
    assert(sub_spec(0x3f7d_5e8d, 0x3f75_5e8d) == 0x3d00_0000);
    assert(0xfe_5a67 * 0x1 - 0xfa_cb96 * 0x1 == 0x3_8ed1);
    lemma_sum_known(0x437e_5a67, 0x437a_cb96, true, 0xfe_5a67, 133, 0xfa_cb96, 133, 0x1, 0x1, 0x3_8ed1, 18, 0x2_0000, 0x40);
    assert(sub_spec(0x437e_5a67, 0x437a_cb96) == 0x4063_b440);
    assert(0xe3_b440 * 0x80_0000 == 0x71da_2000_0000);
    lemma_product_known(0x4063_b440, 0x3d00_0000, 0xe3_b440, 127, 0x80_0000, 121, 0x71da_2000_0000, 47, 0x4000_0000_0000, 0x80_0000);
    assert(mul_spec(0x4063_b440, 0x3d00_0000) == 0x3de3_b440);
    assert(0xe3_b440 * 0x1_0000_0000_0000_0000 == 0x1_c768_8000_0000_0000 * 0x80_0000 + 0x0);
    lemma_quotient_known(0x3de3_b440, 0x3d00_0000, 0xe3_b440, 122, 0x80_0000, 121, 0x1_c768_8000_0000_0000, 0x0, 66, 0x2_0000_0000_0000_0000, 0x400_0000_0000);
    assert(div_spec(0x3de3_b440, 0x3d00_0000) == 0x4063_b440);
    assert(0xfa_cb96 * 0x40 + 0xe3_b440 * 0x1 == 0x3f96_99c0);
    lemma_sum_known(0x437a_cb96, 0x4063_b440, false, 0xfa_cb96, 133, 0xe3_b440, 127, 0x40, 0x1, 0x3f96_99c0, 30, 0x2000_0000, 0x40);
}

/// The intervals 0 to 15.
proof fn lemma_chords_0_to_15(i: int)
    requires
        0 <= i <= 15,
    ensures
        segment_closes(i),
{
    if i == 0 {
        lemma_chord_0();
    } else if i == 1 {
        lemma_chord_1();
    } else if i == 2 {
        lemma_chord_2();
    } else if i == 3 {
        lemma_chord_3();
    } else if i == 4 {
        lemma_chord_4();
    } else if i == 5 {
        lemma_chord_5();
    } else if i == 6 {
        lemma_chord_6();
    } else if i == 7 {
        lemma_chord_7();
    } else if i == 8 {
        lemma_chord_8();
    } else if i == 9 {
        lemma_chord_9();
    } else if i == 10 {
        lemma_chord_10();
    } else if i == 11 {
        lemma_chord_11();
    } else if i == 12 {
        lemma_chord_12();
    } else if i == 13 {
        lemma_chord_13();
    } else if i == 14 {
        lemma_chord_14();
    } else {
        lemma_chord_15();
    }
}

/// The intervals 16 to 31.
proof fn lemma_chords_16_to_31(i: int)
    requires
        16 <= i <= 31,
    ensures
        segment_closes(i),
{
    if i == 16 {
        lemma_chord_16();
    } else if i == 17 {
        lemma_chord_17();
    } else if i == 18 {
        lemma_chord_18();
    } else if i == 19 {
        lemma_chord_19();
    } else if i == 20 {
        lemma_chord_20();
    } else if i == 21 {
        lemma_chord_21();
    } else if i == 22 {
        lemma_chord_22();
    } else if i == 23 {
        lemma_chord_23();
    } else if i == 24 {
        lemma_chord_24();
    } else if i == 25 {
        lemma_chord_25();
    } else if i == 26 {
        lemma_chord_26();
    } else if i == 27 {
        lemma_chord_27();
    } else if i == 28 {
        lemma_chord_28();
    } else if i == 29 {
        lemma_chord_29();
    } else if i == 30 {
        lemma_chord_30();
    } else {
        lemma_chord_31();
    }
}

/// The intervals 32 to 47.
proof fn lemma_chords_32_to_47(i: int)
    requires
        32 <= i <= 47,
    ensures
        segment_closes(i),
{
    if i == 32 {
        lemma_chord_32();
    } else if i == 33 {
        lemma_chord_33();
    } else if i == 34 {
        lemma_chord_34();
    } else if i == 35 {
        lemma_chord_35();
    } else if i == 36 {
        lemma_chord_36();
    } else if i == 37 {
        lemma_chord_37();
    } else if i == 38 {
        lemma_chord_38();
    } else if i == 39 {
        lemma_chord_39();
    } else if i == 40 {
        lemma_chord_40();
    } else if i == 41 {
        lemma_chord_41();
    } else if i == 42 {
        lemma_chord_42();
    } else if i == 43 {
        lemma_chord_43();
    } else if i == 44 {
        lemma_chord_44();
    } else if i == 45 {
        lemma_chord_45();
    } else if i == 46 {
        lemma_chord_46();
    } else {
        lemma_chord_47();
    }
}

/// The intervals 48 to 63.
proof fn lemma_chords_48_to_63(i: int)
    requires
        48 <= i <= 63,
    ensures
        segment_closes(i),
{
    if i == 48 {
        lemma_chord_48();
    } else if i == 49 {
        lemma_chord_49();
    } else if i == 50 {
        lemma_chord_50();
    } else if i == 51 {
        lemma_chord_51();
    } else if i == 52 {
        lemma_chord_52();
    } else if i == 53 {
        lemma_chord_53();
    } else if i == 54 {
        lemma_chord_54();
    } else if i == 55 {
        lemma_chord_55();
    } else if i == 56 {
        lemma_chord_56();
    } else if i == 57 {
        lemma_chord_57();
    } else if i == 58 {
        lemma_chord_58();
    } else if i == 59 {
        lemma_chord_59();
    } else if i == 60 {
        lemma_chord_60();
    } else if i == 61 {
        lemma_chord_61();
    } else if i == 62 {
        lemma_chord_62();
    } else {
        lemma_chord_63();
    }
}

/// The intervals 64 to 79.
proof fn lemma_chords_64_to_79(i: int)
    requires
        64 <= i <= 79,
    ensures
        segment_closes(i),
{
    if i == 64 {
        lemma_chord_64();
    } else if i == 65 {
        lemma_chord_65();
    } else if i == 66 {
        lemma_chord_66();
    } else if i == 67 {
        lemma_chord_67();
    } else if i == 68 {
        lemma_chord_68();
    } else if i == 69 {
        lemma_chord_69();
    } else if i == 70 {
        lemma_chord_70();
    } else if i == 71 {
        lemma_chord_71();
    } else if i == 72 {
        lemma_chord_72();
    } else if i == 73 {
        lemma_chord_73();
    } else if i == 74 {
        lemma_chord_74();
    } else if i == 75 {
        lemma_chord_75();
    } else if i == 76 {
        lemma_chord_76();
    } else if i == 77 {
        lemma_chord_77();
    } else if i == 78 {
        lemma_chord_78();
    } else {
        lemma_chord_79();
    }
}

/// The intervals 80 to 95.
proof fn lemma_chords_80_to_95(i: int)
    requires
        80 <= i <= 95,
    ensures
        segment_closes(i),
{
    if i == 80 {
        lemma_chord_80();
    } else if i == 81 {
        lemma_chord_81();
    } else if i == 82 {
        lemma_chord_82();
    } else if i == 83 {
        lemma_chord_83();
    } else if i == 84 {
        lemma_chord_84();
    } else if i == 85 {
        lemma_chord_85();
    } else if i == 86 {
        lemma_chord_86();
    } else if i == 87 {
        lemma_chord_87();
    } else if i == 88 {
        lemma_chord_88();
    } else if i == 89 {
        lemma_chord_89();
    } else if i == 90 {
        lemma_chord_90();
    } else if i == 91 {
        lemma_chord_91();
    } else if i == 92 {
        lemma_chord_92();
    } else if i == 93 {
        lemma_chord_93();
    } else if i == 94 {
        lemma_chord_94();
    } else {
        lemma_chord_95();
    }
}

/// The intervals 96 to 111.
proof fn lemma_chords_96_to_111(i: int)
    requires
        96 <= i <= 111,
    ensures
        segment_closes(i),
{
    if i == 96 {
        lemma_chord_96();
    } else if i == 97 {
        lemma_chord_97();
    } else if i == 98 {
        lemma_chord_98();
    } else if i == 99 {
        lemma_chord_99();
    } else if i == 100 {
        lemma_chord_100();
    } else if i == 101 {
        lemma_chord_101();
    } else if i == 102 {
        lemma_chord_102();
    } else if i == 103 {
        lemma_chord_103();
    } else if i == 104 {
        lemma_chord_104();
    } else if i == 105 {
        lemma_chord_105();
    } else if i == 106 {
        lemma_chord_106();
    } else if i == 107 {
        lemma_chord_107();
    } else if i == 108 {
        lemma_chord_108();
    } else if i == 109 {
        lemma_chord_109();
    } else if i == 110 {
        lemma_chord_110();
    } else {
        lemma_chord_111();
    }
}

/// The intervals 112 to 127.
proof fn lemma_chords_112_to_127(i: int)
    requires
        112 <= i <= 127,
    ensures
        segment_closes(i),
{
    if i == 112 {
        lemma_chord_112();
    } else if i == 113 {
        lemma_chord_113();
    } else if i == 114 {
        lemma_chord_114();
    } else if i == 115 {
        lemma_chord_115();
    } else if i == 116 {
        lemma_chord_116();
    } else if i == 117 {
        lemma_chord_117();
    } else if i == 118 {
        lemma_chord_118();
    } else if i == 119 {
        lemma_chord_119();
    } else if i == 120 {
        lemma_chord_120();
    } else if i == 121 {
        lemma_chord_121();
    } else if i == 122 {
        lemma_chord_122();
    } else if i == 123 {
        lemma_chord_123();
    } else if i == 124 {
        lemma_chord_124();
    } else if i == 125 {
        lemma_chord_125();
    } else if i == 126 {
        lemma_chord_126();
    } else {
        lemma_chord_127();
    }
}

/// The intervals 128 to 133.
proof fn lemma_chords_128_to_133(i: int)
    requires
        128 <= i <= 133,
    ensures
        segment_closes(i),
{
    if i == 128 {
        lemma_chord_128();
    } else if i == 129 {
        lemma_chord_129();
    } else if i == 130 {
        lemma_chord_130();
    } else if i == 131 {
        lemma_chord_131();
    } else if i == 132 {
        lemma_chord_132();
    } else {
        lemma_chord_133();
    }
}

/// Every chord but the last ends where the next one begins.
pub proof fn lemma_segments_close(i: int)
    requires
        0 <= i <= 133,
    ensures
        segment_closes(i),
{
    if i <= 15 {
        lemma_chords_0_to_15(i);
    } else if i <= 31 {
        lemma_chords_16_to_31(i);
    } else if i <= 47 {
        lemma_chords_32_to_47(i);
    } else if i <= 63 {
        lemma_chords_48_to_63(i);
    } else if i <= 79 {
        lemma_chords_64_to_79(i);
    } else if i <= 95 {
        lemma_chords_80_to_95(i);
    } else if i <= 111 {
        lemma_chords_96_to_111(i);
    } else if i <= 127 {
        lemma_chords_112_to_127(i);
    } else if i <= 133 {
        lemma_chords_128_to_133(i);
    }
}

} // verus!
