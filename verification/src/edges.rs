//! The edges of the fast compression: for each code but the last, the
//! largest linear value that has the code, and how far it lies from the
//! edge of the exact sRGB curve.  The exact curve passes from code `n` to
//! the next at `(n + 0.5) / (12.92 * 255)` on its linear piece, up to code
//! 9, and at `((n + 0.5) / 255 + 0.055) / 1.055` raised to 2.4 above; no
//! edge of the fast compression lies further than `0.85 / 2^14` from it.

use vstd::prelude::*;
use vstd::arithmetic::power2::{lemma2_to64, lemma2_to64_rest, pow2};
use crate::arith::{add_spec, div_spec, fused_spec, mul_spec, sub_spec};
use crate::binary32::{binade, is_nan, less, significand};
use crate::gamma::{
    chord_code, compress_u8_spec, fifth_power, twelfth_power, FAST_START_255_AT, FAST_START_AT,
    HALF, LINEAR_SLOPE,
};
use crate::known::{
    lemma_fifth_powers_of_two, lemma_fused_known, lemma_high_powers, lemma_product_known,
    lemma_quotient_known, lemma_sum_known, lemma_whole_known,
};
use crate::round_trip::{lemma_on_chord, lemma_up_to};

verus! {

/// The largest linear value of each code from 0 to 254.
pub const FAST_EDGES: [u32; 255] = [
    0x391f_22b2, 0x39ee_b40c, 0x3a46_eb5f, 0x3a8b_3e5c, 0x3ab3_0709, 0x3ada_cfb6,
    0x3b01_4c31, 0x3b15_3087, 0x3b29_14de, 0x3b3c_f934, 0x3b50_dd8a, 0x3b65_e98b,
    0x3b7b_50a5, 0x3b89_ca72, 0x3b96_5056, 0x3ba2_becd, 0x3bb0_a8b0, 0x3bbe_cd41,
    0x3bcd_544c, 0x3bdc_bb95, 0x3bed_45c3, 0x3bfe_1955, 0x3c07_b3cb, 0x3c10_aa88,
    0x3c19_fd5d, 0x3c23_df6e, 0x3c2e_1631, 0x3c38_9857, 0x3c43_86ab, 0x3c4e_d187,
    0x3c5a_4f11, 0x3c66_73f8, 0x3c72_9d5e, 0x3c7f_3c36, 0x3c86_4e5c, 0x3c8d_0810,
    0x3c93_ffce, 0x3c9b_024d, 0x3ca2_54cf, 0x3ca9_cace, 0x3cb1_717a, 0x3cb9_6d2b,
    0x3cc1_ae2a, 0x3cc9_f3dd, 0x3cd2_75b8, 0x3cdb_39c8, 0x3ce4_4ff6, 0x3ced_5cca,
    0x3cf6_b455, 0x3d00_3306, 0x3d05_14df, 0x3d0a_1867, 0x3d0f_2f82, 0x3d14_6752,
    0x3d19_be19, 0x3d1f_297e, 0x3d24_b135, 0x3d2a_5ef2, 0x3d30_2a07, 0x3d36_122a,
    0x3d3c_0c2c, 0x3d42_2723, 0x3d48_6372, 0x3d4e_bcb2, 0x3d55_1f60, 0x3d5b_d13e,
    0x3d62_7b61, 0x3d69_5043, 0x3d70_440a, 0x3d77_3ec6, 0x3d7e_647b, 0x3d82_d877,
    0x3d86_88cc, 0x3d8a_4fca, 0x3d8e_1d38, 0x3d92_0602, 0x3d95_f33e, 0x3d99_fadb,
    0x3d9e_0756, 0x3da2_2d99, 0x3da6_5ad7, 0x3daa_9f56, 0x3dae_ee8b, 0x3db3_5116,
    0x3db7_c4b3, 0x3dbc_4755, 0x3dc0_dbae, 0x3dc5_7650, 0x3dca_30ad, 0x3dce_f493,
    0x3dd3_cc0d, 0x3dd8_b253, 0x3ddd_a163, 0x3de2_af24, 0x3de7_c6e5, 0x3dec_e9fc,
    0x3df2_389b, 0x3df7_8640, 0x3dfc_cc5c, 0x3e01_1feb, 0x3e03_dc6a, 0x3e06_a3fe,
    0x3e09_792c, 0x3e0c_4e5b, 0x3e0f_326e, 0x3e12_1f74, 0x3e15_0c7a, 0x3e18_0df3,
    0x3e1b_11f0, 0x3e1e_1ba9, 0x3e21_37cd, 0x3e24_53f1, 0x3e27_7eb7, 0x3e2a_b0d9,
    0x3e2d_e6cf, 0x3e31_308c, 0x3e34_7a49, 0x3e37_d2eb, 0x3e3b_3118, 0x3e3e_972c,
    0x3e42_0bb4, 0x3e45_8111, 0x3e49_0b6e, 0x3e4c_95cc, 0x3e50_2fcf, 0x3e53_ce47,
    0x3e57_7860, 0x3e5b_2b53, 0x3e5e_e5e5, 0x3e62_aba8, 0x3e66_777f, 0x3e6a_529e,
    0x3e6e_31fc, 0x3e72_2159, 0x3e76_1414, 0x3e7a_1682, 0x3e7e_1d51, 0x3e81_1bf0,
    0x3e83_2938, 0x3e85_3680, 0x3e87_53d7, 0x3e89_7281, 0x3e8b_912b, 0x3e8d_b27e,
    0x3e8f_e2e7, 0x3e92_1350, 0x3e94_43b9, 0x3e96_7d80, 0x3e98_c0d2, 0x3e9b_0424,
    0x3e9d_4777, 0x3e9f_9a64, 0x3ea1_edf6, 0x3ea4_4189, 0x3ea6_9eb5, 0x3ea9_04b1,
    0x3eab_6aac, 0x3ead_d3a2, 0x3eb0_49a3, 0x3eb2_bfa5, 0x3eb5_35a6, 0x3eb7_badc,
    0x3eba_4120, 0x3ebc_c764, 0x3ebf_5a05, 0x3ec1_f06d, 0x3ec4_86d4, 0x3ec7_2839,
    0x3ec9_ceec, 0x3ecc_75a0, 0x3ecf_2684, 0x3ed1_dcbd, 0x3ed4_92f5, 0x3ed7_53db,
    0x3eda_192f, 0x3edc_de83, 0x3edf_b05a, 0x3ee2_84f1, 0x3ee5_5989, 0x3ee8_3d05,
    0x3eeb_209c, 0x3eee_0774, 0x3ef0_f995, 0x3ef3_ebb5, 0x3ef6_e4d7, 0x3ef9_e4c1,
    0x3efc_e4ab, 0x3eff_f464, 0x3f01_838b, 0x3f03_0ce5, 0x3f04_963f, 0x3f06_25fc,
    0x3f07_bc5b, 0x3f09_52b9, 0x3f0a_e918, 0x3f0c_7f76, 0x3f0e_1c47, 0x3f0f_c0ee,
    0x3f11_6596, 0x3f13_0a3e, 0x3f14_aee6, 0x3f16_5b1c, 0x3f18_0cbd, 0x3f19_be5e,
    0x3f1b_6fff, 0x3f1d_21a0, 0x3f1e_de93, 0x3f20_9d60, 0x3f22_5c2d, 0x3f24_1af9,
    0x3f25_dd41, 0x3f27_a8aa, 0x3f29_7413, 0x3f2b_3f7c, 0x3f2d_0ae5, 0x3f2e_e091,
    0x3f30_b886, 0x3f32_907a, 0x3f34_686f, 0x3f36_4647, 0x3f38_2a89, 0x3f3a_0ecc,
    0x3f3b_f30e, 0x3f3d_da57, 0x3f3f_caba, 0x3f41_bb1d, 0x3f43_ab80, 0x3f45_9d5c,
    0x3f47_99a3, 0x3f49_95ea, 0x3f4b_9231, 0x3f4d_8f91, 0x3f4f_9781, 0x3f51_9f71,
    0x3f53_a761, 0x3f55_b11a, 0x3f57_c489, 0x3f59_d7f8, 0x3f5b_eb67, 0x3f5e_024d,
    0x3f60_213a, 0x3f62_4026, 0x3f64_5f12, 0x3f66_83a7, 0x3f68_ad44, 0x3f6a_d6e1,
    0x3f6d_007e, 0x3f6f_337b, 0x3f71_6863, 0x3f73_9d4c, 0x3f75_d466, 0x3f78_1406,
    0x3f7a_53a6, 0x3f7c_9346, 0x3f7e_d8f3,
];

/// Whether the positive number `g` lies within `0.85 / 2^14` of the edge
/// of the exact sRGB curve above code `n`.  In fifths of the last place of
/// `g` the two bounds are whole numbers, `low` and `high`; on the linear
/// piece the edge is `(10 n + 5) / 32946`, and above it is the power 2.4
/// of `(1000 n + 14525) / 269025`, which the fifth powers of the bounds
/// are held against.
#[verifier::opaque]
pub open spec fn near_exact_edge(g: u32, n: nat) -> bool {
    let sig = significand(g as nat);
    let k = (149 - binade(g as nat)) as nat;
    let low = (5 * sig - 17 * pow2((k - 16) as nat)) as nat;
    let high = 5 * sig + 17 * pow2((k - 16) as nat);
    &&& g < 0x7f80_0000
    &&& 16 <= k
    &&& 17 * pow2((k - 16) as nat) < 5 * sig
    &&& if n < 10 {
        low * 32946 <= (10 * n + 5) * (5 * pow2(k)) <= high * 32946
    } else {
        let scale = 3125 * pow2(5 * k);
        fifth_power(low) * twelfth_power(269025) <= twelfth_power(1000 * n + 14525) * scale
            <= fifth_power(high) * twelfth_power(269025)
    }
}

/// An edge on the linear piece, from the numbers about it.
proof fn lemma_near_on_linear_piece(
    g: u32,
    sig: nat,
    t: nat,
    half: nat,
    unit: nat,
    n: nat,
    low: nat,
    high: nat,
)
    requires
        g < 0x7f80_0000,
        crate::known::parts(g as nat, sig, t),
        t <= 133,
        half == pow2((149 - t - 16) as nat),
        unit == pow2((149 - t) as nat),
        n < 10,
        low == 5 * sig - 17 * half,
        high == 5 * sig + 17 * half,
        17 * half < 5 * sig,
        low * 32946 <= (10 * n + 5) * (5 * unit) <= high * 32946,
    ensures
        near_exact_edge(g, n),
{
    reveal(near_exact_edge);
    crate::known::lemma_parts(g as nat, sig, t);
}

/// An edge above the linear piece, from the numbers about it and their
/// powers.
proof fn lemma_near_above(
    g: u32,
    sig: nat,
    t: nat,
    half: nat,
    scale: nat,
    n: nat,
    num: nat,
    n3: nat,
    n6: nat,
    d3: nat,
    d6: nat,
    low: nat,
    l2: nat,
    l4: nat,
    high: nat,
    h2: nat,
    h4: nat,
)
    requires
        g < 0x7f80_0000,
        crate::known::parts(g as nat, sig, t),
        t <= 133,
        half == pow2((149 - t - 16) as nat),
        scale == 3125 * pow2((5 * (149 - t)) as nat),
        n >= 10,
        num == 1000 * n + 14525,
        low == 5 * sig - 17 * half,
        high == 5 * sig + 17 * half,
        17 * half < 5 * sig,
        n3 == num * num * num,
        n6 == n3 * n3,
        d3 == 269025nat * 269025 * 269025,
        d6 == d3 * d3,
        l2 == low * low,
        l4 == l2 * l2,
        h2 == high * high,
        h4 == h2 * h2,
        (l4 * low) * (d6 * d6) <= (n6 * n6) * scale <= (h4 * high) * (d6 * d6),
    ensures
        near_exact_edge(g, n),
{
    reveal(near_exact_edge);
    crate::known::lemma_parts(g as nat, sig, t);
}

/// Proof that a value whose code is `n`, the next value having the next
/// code, parts the numbers by their codes.
proof fn lemma_between_edges(g: u32, s: u32, n: int)
    requires
        0 < g < 0x3f80_0000,
        !is_nan(s),
        compress_u8_spec(g) == n,
        compress_u8_spec((g + 1) as u32) == n + 1,
    ensures
        compress_u8_spec(s) <= n <==> !less(g, s),
{
    let next = (g + 1) as u32;
    crate::binary32::lemma_less_by_rank(g, s);
    crate::binary32::lemma_less_by_rank(s, g);
    crate::binary32::lemma_less_by_rank(s, next);
    if less(g, s) {
        crate::rising::lemma_compress_u8_increases(next, s);
    } else {
        crate::rising::lemma_compress_u8_increases(s, g);
    }
}

/// The powers `2^175`, `2^180` and `2^185`.
proof fn lemma_more_fifth_powers_of_two()
    ensures
        pow2(175) == 0x8000_0000_0000_0000_0000_0000_0000_0000_0000_0000_0000nat,
        pow2(180) == 0x10_0000_0000_0000_0000_0000_0000_0000_0000_0000_0000_0000nat,
        pow2(185) == 0x200_0000_0000_0000_0000_0000_0000_0000_0000_0000_0000_0000nat,
{
    lemma_high_powers();
    vstd::arithmetic::power2::lemma_pow2_adds(96, 79);
    vstd::arithmetic::power2::lemma_pow2_adds(96, 84);
    vstd::arithmetic::power2::lemma_pow2_adds(96, 89);
}

/// The value 0x391f_22b2, on the linear piece.
proof fn lemma_at_391f22b2()
    ensures
        compress_u8_spec(0x391f_22b2) == 0,
{
    lemma2_to64();
    lemma2_to64_rest();
    lemma_up_to(0x391f_22b2, FAST_START_AT);
    lemma_fused_known(0x391f_22b2, 0x454d_e99a, 0x3f00_0000, 0x9f_22b2, 113, 0xcd_e99a, 137, 0x80_0000, 125, 0x100_0000, 0xffff_fed8_e114, 48, 0x8000_0000_0000, 0x100_0000);
    assert(fused_spec(0x391f_22b2, LINEAR_SLOPE, HALF) == 0x3f7f_ffff);
    lemma_whole_known(0x3f7f_ffff, 0xff_ffff, 125, 0x100_0000);
}

/// The value 0x391f_22b3, on the linear piece.
proof fn lemma_at_391f22b3()
    ensures
        compress_u8_spec(0x391f_22b3) == 1,
{
    lemma2_to64();
    lemma2_to64_rest();
    lemma_up_to(0x391f_22b3, FAST_START_AT);
    lemma_fused_known(0x391f_22b3, 0x454d_e99a, 0x3f00_0000, 0x9f_22b3, 113, 0xcd_e99a, 137, 0x80_0000, 125, 0x100_0000, 0xffff_ffa6_caae, 48, 0x8000_0000_0000, 0x100_0000);
    assert(fused_spec(0x391f_22b3, LINEAR_SLOPE, HALF) == 0x3f80_0000);
    lemma_whole_known(0x3f80_0000, 0x80_0000, 126, 0x80_0000);
}

/// The edge of code 0.
proof fn lemma_near_0()
    ensures
        near_exact_edge(0x391f_22b2, 0),
{
    lemma2_to64();
    lemma2_to64_rest();
    lemma_fifth_powers_of_two();
    lemma_more_fifth_powers_of_two();
    assert(0x20b_ad7anat * 32946 == 0x107_42db_9ed4);
    assert(0x42b_ad7anat * 32946 == 0x218_bd1b_9ed4);
    assert(5nat * 0x50_0000_0000 == 0x190_0000_0000);
    lemma_near_on_linear_piece(0x391f_22b2, 0x9f_22b2, 113, 0x10_0000, 0x10_0000_0000, 0, 0x20b_ad7a, 0x42b_ad7a);
}

/// The value 0x39ee_b40c, on the linear piece.
proof fn lemma_at_39eeb40c()
    ensures
        compress_u8_spec(0x39ee_b40c) == 1,
{
    lemma2_to64();
    lemma2_to64_rest();
    lemma_up_to(0x39ee_b40c, FAST_START_AT);
    lemma_fused_known(0x39ee_b40c, 0x454d_e99a, 0x3f00_0000, 0xee_b40c, 114, 0xcd_e99a, 137, 0x80_0000, 125, 0x80_0000, 0xffff_ff13_3b38, 48, 0x8000_0000_0000, 0x100_0000);
    assert(fused_spec(0x39ee_b40c, LINEAR_SLOPE, HALF) == 0x3fff_ffff);
    lemma_whole_known(0x3fff_ffff, 0xff_ffff, 126, 0x80_0000);
}

/// The value 0x39ee_b40d, on the linear piece.
proof fn lemma_at_39eeb40d()
    ensures
        compress_u8_spec(0x39ee_b40d) == 2,
{
    lemma2_to64();
    lemma2_to64_rest();
    lemma_up_to(0x39ee_b40d, FAST_START_AT);
    lemma_fused_known(0x39ee_b40d, 0x454d_e99a, 0x3f00_0000, 0xee_b40d, 114, 0xcd_e99a, 137, 0x80_0000, 125, 0x80_0000, 0xffff_ffe1_24d2, 48, 0x8000_0000_0000, 0x100_0000);
    assert(fused_spec(0x39ee_b40d, LINEAR_SLOPE, HALF) == 0x4000_0000);
    lemma_whole_known(0x4000_0000, 0x80_0000, 127, 0x40_0000);
}

/// The edge of code 1.
proof fn lemma_near_1()
    ensures
        near_exact_edge(0x39ee_b40c, 1),
{
    lemma2_to64();
    lemma2_to64_rest();
    lemma_fifth_powers_of_two();
    lemma_more_fifth_powers_of_two();
    assert(0x421_843cnat * 32946 == 0x213_a16b_f1b8);
    assert(0x531_843cnat * 32946 == 0x29c_5e8b_f1b8);
    assert(15nat * 0x28_0000_0000 == 0x258_0000_0000);
    lemma_near_on_linear_piece(0x39ee_b40c, 0xee_b40c, 114, 0x8_0000, 0x8_0000_0000, 1, 0x421_843c, 0x531_843c);
}

/// The value 0x3a46_eb5f, on the linear piece.
proof fn lemma_at_3a46eb5f()
    ensures
        compress_u8_spec(0x3a46_eb5f) == 2,
{
    lemma2_to64();
    lemma2_to64_rest();
    lemma_up_to(0x3a46_eb5f, FAST_START_AT);
    lemma_fused_known(0x3a46_eb5f, 0x454d_e99a, 0x3f00_0000, 0xc6_eb5f, 115, 0xcd_e99a, 137, 0x80_0000, 125, 0x40_0000, 0xbfff_fef6_0e26, 48, 0x8000_0000_0000, 0x100_0000);
    assert(fused_spec(0x3a46_eb5f, LINEAR_SLOPE, HALF) == 0x403f_ffff);
    lemma_whole_known(0x403f_ffff, 0xbf_ffff, 127, 0x40_0000);
}

/// The value 0x3a46_eb60, on the linear piece.
proof fn lemma_at_3a46eb60()
    ensures
        compress_u8_spec(0x3a46_eb60) == 3,
{
    lemma2_to64();
    lemma2_to64_rest();
    lemma_up_to(0x3a46_eb60, FAST_START_AT);
    lemma_fused_known(0x3a46_eb60, 0x454d_e99a, 0x3f00_0000, 0xc6_eb60, 115, 0xcd_e99a, 137, 0x80_0000, 125, 0x40_0000, 0xbfff_ffc3_f7c0, 48, 0x8000_0000_0000, 0x100_0000);
    assert(fused_spec(0x3a46_eb60, LINEAR_SLOPE, HALF) == 0x4040_0000);
    lemma_whole_known(0x4040_0000, 0xc0_0000, 127, 0x40_0000);
}

/// The edge of code 2.
proof fn lemma_near_2()
    ensures
        near_exact_edge(0x3a46_eb5f, 2),
{
    lemma2_to64();
    lemma2_to64_rest();
    lemma_fifth_powers_of_two();
    lemma_more_fifth_powers_of_two();
    assert(0x39e_98dbnat * 32946 == 0x1d1_d0b3_c846);
    assert(0x426_98dbnat * 32946 == 0x216_2f43_c846);
    assert(25nat * 0x14_0000_0000 == 0x1f4_0000_0000);
    lemma_near_on_linear_piece(0x3a46_eb5f, 0xc6_eb5f, 115, 0x4_0000, 0x4_0000_0000, 2, 0x39e_98db, 0x426_98db);
}

/// The value 0x3a8b_3e5c, on the linear piece.
proof fn lemma_at_3a8b3e5c()
    ensures
        compress_u8_spec(0x3a8b_3e5c) == 3,
{
    lemma2_to64();
    lemma2_to64_rest();
    lemma_up_to(0x3a8b_3e5c, FAST_START_AT);
    lemma_fused_known(0x3a8b_3e5c, 0x454d_e99a, 0x3f00_0000, 0x8b_3e5c, 116, 0xcd_e99a, 137, 0x80_0000, 125, 0x20_0000, 0x7fff_ff31_3f58, 47, 0x4000_0000_0000, 0x80_0000);
    assert(fused_spec(0x3a8b_3e5c, LINEAR_SLOPE, HALF) == 0x407f_fffe);
    lemma_whole_known(0x407f_fffe, 0xff_fffe, 127, 0x40_0000);
}

/// The value 0x3a8b_3e5d, on the linear piece.
proof fn lemma_at_3a8b3e5d()
    ensures
        compress_u8_spec(0x3a8b_3e5d) == 4,
{
    lemma2_to64();
    lemma2_to64_rest();
    lemma_up_to(0x3a8b_3e5d, FAST_START_AT);
    lemma_fused_known(0x3a8b_3e5d, 0x454d_e99a, 0x3f00_0000, 0x8b_3e5d, 116, 0xcd_e99a, 137, 0x80_0000, 125, 0x20_0000, 0x7fff_ffff_28f2, 47, 0x4000_0000_0000, 0x80_0000);
    assert(fused_spec(0x3a8b_3e5d, LINEAR_SLOPE, HALF) == 0x4080_0000);
    lemma_whole_known(0x4080_0000, 0x80_0000, 128, 0x20_0000);
}

/// The edge of code 3.
proof fn lemma_near_3()
    ensures
        near_exact_edge(0x3a8b_3e5c, 3),
{
    lemma2_to64();
    lemma2_to64_rest();
    lemma_fifth_powers_of_two();
    lemma_more_fifth_powers_of_two();
    assert(0x296_37ccnat * 32946 == 0x14c_e858_cbd8);
    assert(0x2da_37ccnat * 32946 == 0x16f_17a0_cbd8);
    assert(35nat * 0xa_0000_0000 == 0x15e_0000_0000);
    lemma_near_on_linear_piece(0x3a8b_3e5c, 0x8b_3e5c, 116, 0x2_0000, 0x2_0000_0000, 3, 0x296_37cc, 0x2da_37cc);
}

/// The value 0x3ab3_0709, on the linear piece.
proof fn lemma_at_3ab30709()
    ensures
        compress_u8_spec(0x3ab3_0709) == 4,
{
    lemma2_to64();
    lemma2_to64_rest();
    lemma_up_to(0x3ab3_0709, FAST_START_AT);
    lemma_fused_known(0x3ab3_0709, 0x454d_e99a, 0x3f00_0000, 0xb3_0709, 116, 0xcd_e99a, 137, 0x80_0000, 125, 0x20_0000, 0x9fff_ff4e_6c6a, 48, 0x8000_0000_0000, 0x100_0000);
    assert(fused_spec(0x3ab3_0709, LINEAR_SLOPE, HALF) == 0x409f_ffff);
    lemma_whole_known(0x409f_ffff, 0x9f_ffff, 128, 0x20_0000);
}

/// The value 0x3ab3_070a, on the linear piece.
proof fn lemma_at_3ab3070a()
    ensures
        compress_u8_spec(0x3ab3_070a) == 5,
{
    lemma2_to64();
    lemma2_to64_rest();
    lemma_up_to(0x3ab3_070a, FAST_START_AT);
    lemma_fused_known(0x3ab3_070a, 0x454d_e99a, 0x3f00_0000, 0xb3_070a, 116, 0xcd_e99a, 137, 0x80_0000, 125, 0x20_0000, 0xa000_001c_5604, 48, 0x8000_0000_0000, 0x100_0000);
    assert(fused_spec(0x3ab3_070a, LINEAR_SLOPE, HALF) == 0x40a0_0000);
    lemma_whole_known(0x40a0_0000, 0xa0_0000, 128, 0x20_0000);
}

/// The edge of code 4.
proof fn lemma_near_4()
    ensures
        near_exact_edge(0x3ab3_0709, 4),
{
    lemma2_to64();
    lemma2_to64_rest();
    lemma_fifth_powers_of_two();
    lemma_more_fifth_powers_of_two();
    assert(0x35d_232dnat * 32946 == 0x1b0_e858_f54a);
    assert(0x3a1_232dnat * 32946 == 0x1d3_17a0_f54a);
    assert(45nat * 0xa_0000_0000 == 0x1c2_0000_0000);
    lemma_near_on_linear_piece(0x3ab3_0709, 0xb3_0709, 116, 0x2_0000, 0x2_0000_0000, 4, 0x35d_232d, 0x3a1_232d);
}

/// The value 0x3ada_cfb6, on the linear piece.
proof fn lemma_at_3adacfb6()
    ensures
        compress_u8_spec(0x3ada_cfb6) == 5,
{
    lemma2_to64();
    lemma2_to64_rest();
    lemma_up_to(0x3ada_cfb6, FAST_START_AT);
    lemma_fused_known(0x3ada_cfb6, 0x454d_e99a, 0x3f00_0000, 0xda_cfb6, 116, 0xcd_e99a, 137, 0x80_0000, 125, 0x20_0000, 0xbfff_ff6b_997c, 48, 0x8000_0000_0000, 0x100_0000);
    assert(fused_spec(0x3ada_cfb6, LINEAR_SLOPE, HALF) == 0x40bf_ffff);
    lemma_whole_known(0x40bf_ffff, 0xbf_ffff, 128, 0x20_0000);
}

/// The value 0x3ada_cfb7, on the linear piece.
proof fn lemma_at_3adacfb7()
    ensures
        compress_u8_spec(0x3ada_cfb7) == 6,
{
    lemma2_to64();
    lemma2_to64_rest();
    lemma_up_to(0x3ada_cfb7, FAST_START_AT);
    lemma_fused_known(0x3ada_cfb7, 0x454d_e99a, 0x3f00_0000, 0xda_cfb7, 116, 0xcd_e99a, 137, 0x80_0000, 125, 0x20_0000, 0xc000_0039_8316, 48, 0x8000_0000_0000, 0x100_0000);
    assert(fused_spec(0x3ada_cfb7, LINEAR_SLOPE, HALF) == 0x40c0_0000);
    lemma_whole_known(0x40c0_0000, 0xc0_0000, 128, 0x20_0000);
}

/// The edge of code 5.
proof fn lemma_near_5()
    ensures
        near_exact_edge(0x3ada_cfb6, 5),
{
    lemma2_to64();
    lemma2_to64_rest();
    lemma_fifth_powers_of_two();
    lemma_more_fifth_powers_of_two();
    assert(0x424_0e8enat * 32946 == 0x214_e859_1ebc);
    assert(0x468_0e8enat * 32946 == 0x237_17a1_1ebc);
    assert(55nat * 0xa_0000_0000 == 0x226_0000_0000);
    lemma_near_on_linear_piece(0x3ada_cfb6, 0xda_cfb6, 116, 0x2_0000, 0x2_0000_0000, 5, 0x424_0e8e, 0x468_0e8e);
}

/// The value 0x3b01_4c31, on the linear piece.
proof fn lemma_at_3b014c31()
    ensures
        compress_u8_spec(0x3b01_4c31) == 6,
{
    lemma2_to64();
    lemma2_to64_rest();
    lemma_up_to(0x3b01_4c31, FAST_START_AT);
    lemma_fused_known(0x3b01_4c31, 0x454d_e99a, 0x3f00_0000, 0x81_4c31, 117, 0xcd_e99a, 137, 0x80_0000, 125, 0x10_0000, 0x6fff_ff5d_6e7a, 47, 0x4000_0000_0000, 0x80_0000);
    assert(fused_spec(0x3b01_4c31, LINEAR_SLOPE, HALF) == 0x40df_ffff);
    lemma_whole_known(0x40df_ffff, 0xdf_ffff, 128, 0x20_0000);
}

/// The value 0x3b01_4c32, on the linear piece.
proof fn lemma_at_3b014c32()
    ensures
        compress_u8_spec(0x3b01_4c32) == 7,
{
    lemma2_to64();
    lemma2_to64_rest();
    lemma_up_to(0x3b01_4c32, FAST_START_AT);
    lemma_fused_known(0x3b01_4c32, 0x454d_e99a, 0x3f00_0000, 0x81_4c32, 117, 0xcd_e99a, 137, 0x80_0000, 125, 0x10_0000, 0x7000_002b_5814, 47, 0x4000_0000_0000, 0x80_0000);
    assert(fused_spec(0x3b01_4c32, LINEAR_SLOPE, HALF) == 0x40e0_0000);
    lemma_whole_known(0x40e0_0000, 0xe0_0000, 128, 0x20_0000);
}

/// The edge of code 6.
proof fn lemma_near_6()
    ensures
        near_exact_edge(0x3b01_4c31, 6),
{
    lemma2_to64();
    lemma2_to64_rest();
    lemma_fifth_powers_of_two();
    lemma_more_fifth_powers_of_two();
    assert(0x275_7cf5nat * 32946 == 0x13c_742b_625a);
    assert(0x297_7cf5nat * 32946 == 0x14d_8bcf_625a);
    assert(65nat * 0x5_0000_0000 == 0x145_0000_0000);
    lemma_near_on_linear_piece(0x3b01_4c31, 0x81_4c31, 117, 0x1_0000, 0x1_0000_0000, 6, 0x275_7cf5, 0x297_7cf5);
}

/// The value 0x3b15_3087, on the linear piece.
proof fn lemma_at_3b153087()
    ensures
        compress_u8_spec(0x3b15_3087) == 7,
{
    lemma2_to64();
    lemma2_to64_rest();
    lemma_up_to(0x3b15_3087, FAST_START_AT);
    lemma_fused_known(0x3b15_3087, 0x454d_e99a, 0x3f00_0000, 0x95_3087, 117, 0xcd_e99a, 137, 0x80_0000, 125, 0x10_0000, 0x7fff_ff05_1036, 47, 0x4000_0000_0000, 0x80_0000);
    assert(fused_spec(0x3b15_3087, LINEAR_SLOPE, HALF) == 0x40ff_fffe);
    lemma_whole_known(0x40ff_fffe, 0xff_fffe, 128, 0x20_0000);
}

/// The value 0x3b15_3088, on the linear piece.
proof fn lemma_at_3b153088()
    ensures
        compress_u8_spec(0x3b15_3088) == 8,
{
    lemma2_to64();
    lemma2_to64_rest();
    lemma_up_to(0x3b15_3088, FAST_START_AT);
    lemma_fused_known(0x3b15_3088, 0x454d_e99a, 0x3f00_0000, 0x95_3088, 117, 0xcd_e99a, 137, 0x80_0000, 125, 0x10_0000, 0x7fff_ffd2_f9d0, 47, 0x4000_0000_0000, 0x80_0000);
    assert(fused_spec(0x3b15_3088, LINEAR_SLOPE, HALF) == 0x4100_0000);
    lemma_whole_known(0x4100_0000, 0x80_0000, 129, 0x10_0000);
}

/// The edge of code 7.
proof fn lemma_near_7()
    ensures
        near_exact_edge(0x3b15_3087, 7),
{
    lemma2_to64();
    lemma2_to64_rest();
    lemma_fifth_powers_of_two();
    lemma_more_fifth_powers_of_two();
    assert(0x2d8_f2a3nat * 32946 == 0x16e_742a_3556);
    assert(0x2fa_f2a3nat * 32946 == 0x17f_8bce_3556);
    assert(75nat * 0x5_0000_0000 == 0x177_0000_0000);
    lemma_near_on_linear_piece(0x3b15_3087, 0x95_3087, 117, 0x1_0000, 0x1_0000_0000, 7, 0x2d8_f2a3, 0x2fa_f2a3);
}

/// The value 0x3b29_14de, on the linear piece.
proof fn lemma_at_3b2914de()
    ensures
        compress_u8_spec(0x3b29_14de) == 8,
{
    lemma2_to64();
    lemma2_to64_rest();
    lemma_up_to(0x3b29_14de, FAST_START_AT);
    lemma_fused_known(0x3b29_14de, 0x454d_e99a, 0x3f00_0000, 0xa9_14de, 117, 0xcd_e99a, 137, 0x80_0000, 125, 0x10_0000, 0x8fff_ff7a_9b8c, 48, 0x8000_0000_0000, 0x100_0000);
    assert(fused_spec(0x3b29_14de, LINEAR_SLOPE, HALF) == 0x410f_ffff);
    lemma_whole_known(0x410f_ffff, 0x8f_ffff, 129, 0x10_0000);
}

/// The value 0x3b29_14df, on the linear piece.
proof fn lemma_at_3b2914df()
    ensures
        compress_u8_spec(0x3b29_14df) == 9,
{
    lemma2_to64();
    lemma2_to64_rest();
    lemma_up_to(0x3b29_14df, FAST_START_AT);
    lemma_fused_known(0x3b29_14df, 0x454d_e99a, 0x3f00_0000, 0xa9_14df, 117, 0xcd_e99a, 137, 0x80_0000, 125, 0x10_0000, 0x9000_0048_8526, 48, 0x8000_0000_0000, 0x100_0000);
    assert(fused_spec(0x3b29_14df, LINEAR_SLOPE, HALF) == 0x4110_0000);
    lemma_whole_known(0x4110_0000, 0x90_0000, 129, 0x10_0000);
}

/// The edge of code 8.
proof fn lemma_near_8()
    ensures
        near_exact_edge(0x3b29_14de, 8),
{
    lemma2_to64();
    lemma2_to64_rest();
    lemma_fifth_powers_of_two();
    lemma_more_fifth_powers_of_two();
    assert(0x33c_6856nat * 32946 == 0x1a0_742b_8bcc);
    assert(0x35e_6856nat * 32946 == 0x1b1_8bcf_8bcc);
    assert(85nat * 0x5_0000_0000 == 0x1a9_0000_0000);
    lemma_near_on_linear_piece(0x3b29_14de, 0xa9_14de, 117, 0x1_0000, 0x1_0000_0000, 8, 0x33c_6856, 0x35e_6856);
}

/// The value 0x3b3c_f934, on the linear piece.
proof fn lemma_at_3b3cf934()
    ensures
        compress_u8_spec(0x3b3c_f934) == 9,
{
    lemma2_to64();
    lemma2_to64_rest();
    lemma_up_to(0x3b3c_f934, FAST_START_AT);
    lemma_fused_known(0x3b3c_f934, 0x454d_e99a, 0x3f00_0000, 0xbc_f934, 117, 0xcd_e99a, 137, 0x80_0000, 125, 0x10_0000, 0x9fff_ff22_3d48, 48, 0x8000_0000_0000, 0x100_0000);
    assert(fused_spec(0x3b3c_f934, LINEAR_SLOPE, HALF) == 0x411f_ffff);
    lemma_whole_known(0x411f_ffff, 0x9f_ffff, 129, 0x10_0000);
}

/// The value 0x3b3c_f935, on the linear piece.
proof fn lemma_at_3b3cf935()
    ensures
        compress_u8_spec(0x3b3c_f935) == 10,
{
    lemma2_to64();
    lemma2_to64_rest();
    lemma_up_to(0x3b3c_f935, FAST_START_AT);
    lemma_fused_known(0x3b3c_f935, 0x454d_e99a, 0x3f00_0000, 0xbc_f935, 117, 0xcd_e99a, 137, 0x80_0000, 125, 0x10_0000, 0x9fff_fff0_26e2, 48, 0x8000_0000_0000, 0x100_0000);
    assert(fused_spec(0x3b3c_f935, LINEAR_SLOPE, HALF) == 0x4120_0000);
    lemma_whole_known(0x4120_0000, 0xa0_0000, 129, 0x10_0000);
}

/// The edge of code 9.
proof fn lemma_near_9()
    ensures
        near_exact_edge(0x3b3c_f934, 9),
{
    lemma2_to64();
    lemma2_to64_rest();
    lemma_fifth_powers_of_two();
    lemma_more_fifth_powers_of_two();
    assert(0x39f_de04nat * 32946 == 0x1d2_742a_5ec8);
    assert(0x3c1_de04nat * 32946 == 0x1e3_8bce_5ec8);
    assert(95nat * 0x5_0000_0000 == 0x1db_0000_0000);
    lemma_near_on_linear_piece(0x3b3c_f934, 0xbc_f934, 117, 0x1_0000, 0x1_0000_0000, 9, 0x39f_de04, 0x3c1_de04);
}

/// The value 0x3b50_dd8a, on the linear piece.
proof fn lemma_at_3b50dd8a()
    ensures
        compress_u8_spec(0x3b50_dd8a) == 10,
{
    lemma2_to64();
    lemma2_to64_rest();
    lemma_up_to(0x3b50_dd8a, FAST_START_AT);
    lemma_fused_known(0x3b50_dd8a, 0x454d_e99a, 0x3f00_0000, 0xd0_dd8a, 117, 0xcd_e99a, 137, 0x80_0000, 125, 0x10_0000, 0xafff_fec9_df04, 48, 0x8000_0000_0000, 0x100_0000);
    assert(fused_spec(0x3b50_dd8a, LINEAR_SLOPE, HALF) == 0x412f_ffff);
    lemma_whole_known(0x412f_ffff, 0xaf_ffff, 129, 0x10_0000);
}

/// The value 0x3b50_dd8b, on the linear piece.
proof fn lemma_at_3b50dd8b()
    ensures
        compress_u8_spec(0x3b50_dd8b) == 11,
{
    lemma2_to64();
    lemma2_to64_rest();
    lemma_up_to(0x3b50_dd8b, FAST_START_AT);
    lemma_fused_known(0x3b50_dd8b, 0x454d_e99a, 0x3f00_0000, 0xd0_dd8b, 117, 0xcd_e99a, 137, 0x80_0000, 125, 0x10_0000, 0xafff_ff97_c89e, 48, 0x8000_0000_0000, 0x100_0000);
    assert(fused_spec(0x3b50_dd8b, LINEAR_SLOPE, HALF) == 0x4130_0000);
    lemma_whole_known(0x4130_0000, 0xb0_0000, 129, 0x10_0000);
}

/// The edge of code 10.
proof fn lemma_near_10()
    ensures
        near_exact_edge(0x3b50_dd8a, 10),
{
    lemma2_to64();
    lemma2_to64_rest();
    lemma_fifth_powers_of_two();
    lemma_more_fifth_powers_of_two();
    assert(24525nat * 24525 * 24525 == 0xd6a_876c_19d5);
    assert(269025nat * 269025 * 269025 == 0x45_2c59_9066_9ca1);
    assert(0xd6a_876c_19d5nat * 0xd6a_876c_19d5 == 0xb3_fe15_67c8_3748_7453_4b39nat);
    assert(0xb3_fe15_67c8_3748_7453_4b39nat * 0xb3_fe15_67c8_3748_7453_4b39nat == 0x7e8d_4e1d_9db8_cdf2_3e46_4b66_7284_d518_6555_8510_72b1nat);
    assert(0x45_2c59_9066_9ca1nat * 0x45_2c59_9066_9ca1 == 0x12b0_eff6_c049_6d6d_d948_5020_9d41nat);
    assert(0x12b0_eff6_c049_6d6d_d948_5020_9d41nat * 0x12b0_eff6_c049_6d6d_d948_5020_9d41nat == 0x15d_5c09_8741_6139_2178_92b9_bce5_5f46_89a2_dd05_b95f_0d00_50d8_ca81nat);
    assert(0x403_53b2nat * 0x403_53b2 == 0x10_1aa8_a188_e7c4);
    assert(0x10_1aa8_a188_e7c4nat * 0x10_1aa8_a188_e7c4 == 0x103_57da_e101_3131_7dfb_9a13_4e10nat);
    assert(0x103_57da_e101_3131_7dfb_9a13_4e10nat * 0x403_53b2 == 0x4_10be_3ce3_b4ec_2f53_a89d_4757_8deb_7720nat);
    assert(0x425_53b2nat * 0x425_53b2 == 0x11_300e_dcd0_e7c4);
    assert(0x11_300e_dcd0_e7c4nat * 0x11_300e_dcd0_e7c4 == 0x127_6afe_e76a_0442_9242_5053_4e10nat);
    assert(0x127_6afe_e76a_0442_9242_5053_4e10nat * 0x425_53b2 == 0x4_c8bf_078e_24a7_ef00_b88c_1b69_648b_7720nat);
    assert(0x4_10be_3ce3_b4ec_2f53_a89d_4757_8deb_7720nat * 0x15d_5c09_8741_6139_2178_92b9_bce5_5f46_89a2_dd05_b95f_0d00_50d8_ca81nat == 0x58c_4984_1cdd_bcac_a416_9fa7_1b68_c0ed_e52c_877c_fefb_e178_a3c7_6595_691a_8ac9_e4ff_807f_e9b1_fd00_d2a6_4720nat);
    assert(0x4_c8bf_078e_24a7_ef00_b88c_1b69_648b_7720nat * 0x15d_5c09_8741_6139_2178_92b9_bce5_5f46_89a2_dd05_b95f_0d00_50d8_ca81nat == 0x687_64bf_894b_d8bb_0cba_200b_7a55_237b_a913_d271_df02_faa5_978d_6568_0a3f_5fb8_2f76_e656_0680_0458_3946_4720nat);
    assert(0xc35nat * 0x1_0000_0000_0000_0000_0000_0000_0000_0000_0000_0000nat == 0xc35_0000_0000_0000_0000_0000_0000_0000_0000_0000_0000nat);
    assert(0x7e8d_4e1d_9db8_cdf2_3e46_4b66_7284_d518_6555_8510_72b1nat * 0xc35_0000_0000_0000_0000_0000_0000_0000_0000_0000_0000nat == 0x608_d2ea_8f86_50e9_fe12_3016_6993_ef7d_42cc_fcf1_51c8_0aa5_0000_0000_0000_0000_0000_0000_0000_0000_0000_0000nat);
    lemma_near_above(
        0x3b50_dd8a, 0xd0_dd8a, 117, 0x1_0000, 0xc35_0000_0000_0000_0000_0000_0000_0000_0000_0000_0000nat, 10,
        24525, 0xd6a_876c_19d5,
        0xb3_fe15_67c8_3748_7453_4b39nat,
        0x45_2c59_9066_9ca1, 0x12b0_eff6_c049_6d6d_d948_5020_9d41nat,
        0x403_53b2, 0x10_1aa8_a188_e7c4, 0x103_57da_e101_3131_7dfb_9a13_4e10nat,
        0x425_53b2, 0x11_300e_dcd0_e7c4, 0x127_6afe_e76a_0442_9242_5053_4e10nat,
    );
}

/// The value 0x3b65_e98b.
proof fn lemma_at_3b65e98b()
    ensures
        chord_code(0x3b65_e98b, 0x3b65_5e8d, 0x3b6d_5e8d, 0x413f_9846, 0x4145_909d) == 11,
{
    reveal(chord_code);
    lemma2_to64();
    lemma2_to64_rest();
    lemma_high_powers();
    assert(0xed_5e8d * 0x1 - 0xe5_5e8d * 0x1 == 0x8_0000);
    lemma_sum_known(0x3b6d_5e8d, 0x3b65_5e8d, true, 0xed_5e8d, 117, 0xe5_5e8d, 117, 0x1, 0x1, 0x8_0000, 20, 0x8_0000, 0x10);
    assert(sub_spec(0x3b6d_5e8d, 0x3b65_5e8d) == 0x3900_0000);
    assert(0xe5_e98b * 0x1 - 0xe5_5e8d * 0x1 == 0x8afe);
    lemma_sum_known(0x3b65_e98b, 0x3b65_5e8d, true, 0xe5_e98b, 117, 0xe5_5e8d, 117, 0x1, 0x1, 0x8afe, 16, 0x8000, 0x100);
    assert(sub_spec(0x3b65_e98b, 0x3b65_5e8d) == 0x370a_fe00);
    assert(0xc5_909d * 0x1 - 0xbf_9846 * 0x1 == 0x5_f857);
    lemma_sum_known(0x4145_909d, 0x413f_9846, true, 0xc5_909d, 129, 0xbf_9846, 129, 0x1, 0x1, 0x5_f857, 19, 0x4_0000, 0x20);
    assert(sub_spec(0x4145_909d, 0x413f_9846) == 0x3ebf_0ae0);
    assert(0xbf_0ae0 * 0x8a_fe00 == 0x67b9_698a_4000);
    lemma_product_known(0x3ebf_0ae0, 0x370a_fe00, 0xbf_0ae0, 124, 0x8a_fe00, 109, 0x67b9_698a_4000, 47, 0x4000_0000_0000, 0x80_0000);
    assert(mul_spec(0x3ebf_0ae0, 0x370a_fe00) == 0x364f_72d3);
    assert(0xcf_72d3 * 0x1_0000_0000_0000_0000 == 0x1_9ee5_a600_0000_0000 * 0x80_0000 + 0x0);
    lemma_quotient_known(0x364f_72d3, 0x3900_0000, 0xcf_72d3, 107, 0x80_0000, 113, 0x1_9ee5_a600_0000_0000, 0x0, 66, 0x2_0000_0000_0000_0000, 0x400_0000_0000);
    assert(div_spec(0x364f_72d3, 0x3900_0000) == 0x3ccf_72d3);
    assert(0xbf_9846 * 0x200 + 0xcf_72d3 * 0x1 == 0x1_7fff_fed3);
    lemma_sum_known(0x413f_9846, 0x3ccf_72d3, false, 0xbf_9846, 129, 0xcf_72d3, 120, 0x200, 0x1, 0x1_7fff_fed3, 33, 0x1_0000_0000, 0x200);
    assert(add_spec(0x413f_9846, 0x3ccf_72d3) == 0x413f_ffff);
    lemma_whole_known(0x413f_ffff, 0xbf_ffff, 129, 0x10_0000);
}

/// The value 0x3b65_e98c.
proof fn lemma_at_3b65e98c()
    ensures
        chord_code(0x3b65_e98c, 0x3b65_5e8d, 0x3b6d_5e8d, 0x413f_9846, 0x4145_909d) == 12,
{
    reveal(chord_code);
    lemma2_to64();
    lemma2_to64_rest();
    lemma_high_powers();
    assert(0xed_5e8d * 0x1 - 0xe5_5e8d * 0x1 == 0x8_0000);
    lemma_sum_known(0x3b6d_5e8d, 0x3b65_5e8d, true, 0xed_5e8d, 117, 0xe5_5e8d, 117, 0x1, 0x1, 0x8_0000, 20, 0x8_0000, 0x10);
    assert(sub_spec(0x3b6d_5e8d, 0x3b65_5e8d) == 0x3900_0000);
    assert(0xe5_e98c * 0x1 - 0xe5_5e8d * 0x1 == 0x8aff);
    lemma_sum_known(0x3b65_e98c, 0x3b65_5e8d, true, 0xe5_e98c, 117, 0xe5_5e8d, 117, 0x1, 0x1, 0x8aff, 16, 0x8000, 0x100);
    assert(sub_spec(0x3b65_e98c, 0x3b65_5e8d) == 0x370a_ff00);
    assert(0xc5_909d * 0x1 - 0xbf_9846 * 0x1 == 0x5_f857);
    lemma_sum_known(0x4145_909d, 0x413f_9846, true, 0xc5_909d, 129, 0xbf_9846, 129, 0x1, 0x1, 0x5_f857, 19, 0x4_0000, 0x20);
    assert(sub_spec(0x4145_909d, 0x413f_9846) == 0x3ebf_0ae0);
    assert(0xbf_0ae0 * 0x8a_ff00 == 0x67ba_2895_2000);
    lemma_product_known(0x3ebf_0ae0, 0x370a_ff00, 0xbf_0ae0, 124, 0x8a_ff00, 109, 0x67ba_2895_2000, 47, 0x4000_0000_0000, 0x80_0000);
    assert(mul_spec(0x3ebf_0ae0, 0x370a_ff00) == 0x364f_7451);
    assert(0xcf_7451 * 0x1_0000_0000_0000_0000 == 0x1_9ee8_a200_0000_0000 * 0x80_0000 + 0x0);
    lemma_quotient_known(0x364f_7451, 0x3900_0000, 0xcf_7451, 107, 0x80_0000, 113, 0x1_9ee8_a200_0000_0000, 0x0, 66, 0x2_0000_0000_0000_0000, 0x400_0000_0000);
    assert(div_spec(0x364f_7451, 0x3900_0000) == 0x3ccf_7451);
    assert(0xbf_9846 * 0x200 + 0xcf_7451 * 0x1 == 0x1_8000_0051);
    lemma_sum_known(0x413f_9846, 0x3ccf_7451, false, 0xbf_9846, 129, 0xcf_7451, 120, 0x200, 0x1, 0x1_8000_0051, 33, 0x1_0000_0000, 0x200);
    assert(add_spec(0x413f_9846, 0x3ccf_7451) == 0x4140_0000);
    lemma_whole_known(0x4140_0000, 0xc0_0000, 129, 0x10_0000);
}

/// The edge of code 11.
proof fn lemma_near_11()
    ensures
        near_exact_edge(0x3b65_e98b, 11),
{
    lemma2_to64();
    lemma2_to64_rest();
    lemma_fifth_powers_of_two();
    lemma_more_fifth_powers_of_two();
    assert(25525nat * 25525 * 25525 == 0xf20_04a9_5c0d);
    assert(269025nat * 269025 * 269025 == 0x45_2c59_9066_9ca1);
    assert(0xf20_04a9_5c0dnat * 0xf20_04a9_5c0d == 0xe4_c48d_0336_442b_1243_58a9nat);
    assert(0xe4_c48d_0336_442b_1243_58a9nat * 0xe4_c48d_0336_442b_1243_58a9nat == 0xcc6e_b215_f341_0eeb_e479_01ba_a39a_4853_1af5_4b2a_9f91nat);
    assert(0x45_2c59_9066_9ca1nat * 0x45_2c59_9066_9ca1 == 0x12b0_eff6_c049_6d6d_d948_5020_9d41nat);
    assert(0x12b0_eff6_c049_6d6d_d948_5020_9d41nat * 0x12b0_eff6_c049_6d6d_d948_5020_9d41nat == 0x15d_5c09_8741_6139_2178_92b9_bce5_5f46_89a2_dd05_b95f_0d00_50d8_ca81nat);
    assert(0x46c_8fb7nat * 0x46c_8fb7 == 0x13_9287_4b15_f4d1);
    assert(0x13_9287_4b15_f4d1nat * 0x13_9287_4b15_f4d1 == 0x17f_13f3_be67_a972_77c2_8a69_12a1nat);
    assert(0x17f_13f3_be67_a972_77c2_8a69_12a1nat * 0x46c_8fb7 == 0x6_9ec3_47ca_5cfa_49ea_a1f5_5000_0270_4017nat);
    assert(0x48e_8fb7nat * 0x48e_8fb7 == 0x14_c3e1_77b1_f4d1);
    assert(0x14_c3e1_77b1_f4d1nat * 0x14_c3e1_77b1_f4d1 == 0x1af_311b_f6ba_fa65_aab0_c121_12a1nat);
    assert(0x1af_311b_f6ba_fa65_aab0_c121_12a1nat * 0x48e_8fb7 == 0x7_ace3_be08_8170_4c97_3a15_64de_615a_4017nat);
    assert(0x6_9ec3_47ca_5cfa_49ea_a1f5_5000_0270_4017nat * 0x15d_5c09_8741_6139_2178_92b9_bce5_5f46_89a2_dd05_b95f_0d00_50d8_ca81nat == 0x908_d186_20f4_ced1_22e9_5bd6_ad89_0440_38f5_4f78_dbd2_fa6c_ca04_9048_b5ee_0e6a_00ee_d48d_c94c_9fab_108a_7197nat);
    assert(0x7_ace3_be08_8170_4c97_3a15_64de_615a_4017nat * 0x15d_5c09_8741_6139_2178_92b9_bce5_5f46_89a2_dd05_b95f_0d00_50d8_ca81nat == 0xa79_74e5_0c07_1c2b_d9ab_a49e_78b1_a82d_486b_6aaa_61ff_e49f_b838_e365_01ac_61f9_9e6a_5cce_bd37_d00d_8874_7197nat);
    assert(0xc35nat * 0x1_0000_0000_0000_0000_0000_0000_0000_0000_0000_0000nat == 0xc35_0000_0000_0000_0000_0000_0000_0000_0000_0000_0000nat);
    assert(0xcc6e_b215_f341_0eeb_e479_01ba_a39a_4853_1af5_4b2a_9f91nat * 0xc35_0000_0000_0000_0000_0000_0000_0000_0000_0000_0000nat == 0x9bf_8343_e5f2_692b_258b_f922_1b4f_1a54_de78_144e_8f4d_d505_0000_0000_0000_0000_0000_0000_0000_0000_0000_0000nat);
    lemma_near_above(
        0x3b65_e98b, 0xe5_e98b, 117, 0x1_0000, 0xc35_0000_0000_0000_0000_0000_0000_0000_0000_0000_0000nat, 11,
        25525, 0xf20_04a9_5c0d,
        0xe4_c48d_0336_442b_1243_58a9nat,
        0x45_2c59_9066_9ca1, 0x12b0_eff6_c049_6d6d_d948_5020_9d41nat,
        0x46c_8fb7, 0x13_9287_4b15_f4d1, 0x17f_13f3_be67_a972_77c2_8a69_12a1nat,
        0x48e_8fb7, 0x14_c3e1_77b1_f4d1, 0x1af_311b_f6ba_fa65_aab0_c121_12a1nat,
    );
}

/// The value 0x3b7b_50a5.
proof fn lemma_at_3b7b50a5()
    ensures
        chord_code(0x3b7b_50a5, 0x3b75_5e8d, 0x3b7d_5e8d, 0x414b_a25f, 0x4151_8227) == 12,
{
    reveal(chord_code);
    lemma2_to64();
    lemma2_to64_rest();
    lemma_high_powers();
    assert(0xfd_5e8d * 0x1 - 0xf5_5e8d * 0x1 == 0x8_0000);
    lemma_sum_known(0x3b7d_5e8d, 0x3b75_5e8d, true, 0xfd_5e8d, 117, 0xf5_5e8d, 117, 0x1, 0x1, 0x8_0000, 20, 0x8_0000, 0x10);
    assert(sub_spec(0x3b7d_5e8d, 0x3b75_5e8d) == 0x3900_0000);
    assert(0xfb_50a5 * 0x1 - 0xf5_5e8d * 0x1 == 0x5_f218);
    lemma_sum_known(0x3b7b_50a5, 0x3b75_5e8d, true, 0xfb_50a5, 117, 0xf5_5e8d, 117, 0x1, 0x1, 0x5_f218, 19, 0x4_0000, 0x20);
    assert(sub_spec(0x3b7b_50a5, 0x3b75_5e8d) == 0x38be_4300);
    assert(0xd1_8227 * 0x1 - 0xcb_a25f * 0x1 == 0x5_dfc8);
    lemma_sum_known(0x4151_8227, 0x414b_a25f, true, 0xd1_8227, 129, 0xcb_a25f, 129, 0x1, 0x1, 0x5_dfc8, 19, 0x4_0000, 0x20);
    assert(sub_spec(0x4151_8227, 0x414b_a25f) == 0x3ebb_f900);
    assert(0xbb_f900 * 0xbe_4300 == 0x8bb4_002b_0000);
    lemma_product_known(0x3ebb_f900, 0x38be_4300, 0xbb_f900, 124, 0xbe_4300, 112, 0x8bb4_002b_0000, 48, 0x8000_0000_0000, 0x100_0000);
    assert(mul_spec(0x3ebb_f900, 0x38be_4300) == 0x380b_b400);
    assert(0x8b_b400 * 0x1_0000_0000_0000_0000 == 0x1_1768_0000_0000_0000 * 0x80_0000 + 0x0);
    lemma_quotient_known(0x380b_b400, 0x3900_0000, 0x8b_b400, 111, 0x80_0000, 113, 0x1_1768_0000_0000_0000, 0x0, 66, 0x2_0000_0000_0000_0000, 0x400_0000_0000);
    assert(div_spec(0x380b_b400, 0x3900_0000) == 0x3e8b_b400);
    assert(0xcb_a25f * 0x20 + 0x8b_b400 * 0x1 == 0x19ff_ffe0);
    lemma_sum_known(0x414b_a25f, 0x3e8b_b400, false, 0xcb_a25f, 129, 0x8b_b400, 124, 0x20, 0x1, 0x19ff_ffe0, 29, 0x1000_0000, 0x20);
    assert(add_spec(0x414b_a25f, 0x3e8b_b400) == 0x414f_ffff);
    lemma_whole_known(0x414f_ffff, 0xcf_ffff, 129, 0x10_0000);
}

/// The value 0x3b7b_50a6.
proof fn lemma_at_3b7b50a6()
    ensures
        chord_code(0x3b7b_50a6, 0x3b75_5e8d, 0x3b7d_5e8d, 0x414b_a25f, 0x4151_8227) == 13,
{
    reveal(chord_code);
    lemma2_to64();
    lemma2_to64_rest();
    lemma_high_powers();
    assert(0xfd_5e8d * 0x1 - 0xf5_5e8d * 0x1 == 0x8_0000);
    lemma_sum_known(0x3b7d_5e8d, 0x3b75_5e8d, true, 0xfd_5e8d, 117, 0xf5_5e8d, 117, 0x1, 0x1, 0x8_0000, 20, 0x8_0000, 0x10);
    assert(sub_spec(0x3b7d_5e8d, 0x3b75_5e8d) == 0x3900_0000);
    assert(0xfb_50a6 * 0x1 - 0xf5_5e8d * 0x1 == 0x5_f219);
    lemma_sum_known(0x3b7b_50a6, 0x3b75_5e8d, true, 0xfb_50a6, 117, 0xf5_5e8d, 117, 0x1, 0x1, 0x5_f219, 19, 0x4_0000, 0x20);
    assert(sub_spec(0x3b7b_50a6, 0x3b75_5e8d) == 0x38be_4320);
    assert(0xd1_8227 * 0x1 - 0xcb_a25f * 0x1 == 0x5_dfc8);
    lemma_sum_known(0x4151_8227, 0x414b_a25f, true, 0xd1_8227, 129, 0xcb_a25f, 129, 0x1, 0x1, 0x5_dfc8, 19, 0x4_0000, 0x20);
    assert(sub_spec(0x4151_8227, 0x414b_a25f) == 0x3ebb_f900);
    assert(0xbb_f900 * 0xbe_4320 == 0x8bb4_17aa_2000);
    lemma_product_known(0x3ebb_f900, 0x38be_4320, 0xbb_f900, 124, 0xbe_4320, 112, 0x8bb4_17aa_2000, 48, 0x8000_0000_0000, 0x100_0000);
    assert(mul_spec(0x3ebb_f900, 0x38be_4320) == 0x380b_b418);
    assert(0x8b_b418 * 0x1_0000_0000_0000_0000 == 0x1_1768_3000_0000_0000 * 0x80_0000 + 0x0);
    lemma_quotient_known(0x380b_b418, 0x3900_0000, 0x8b_b418, 111, 0x80_0000, 113, 0x1_1768_3000_0000_0000, 0x0, 66, 0x2_0000_0000_0000_0000, 0x400_0000_0000);
    assert(div_spec(0x380b_b418, 0x3900_0000) == 0x3e8b_b418);
    assert(0xcb_a25f * 0x20 + 0x8b_b418 * 0x1 == 0x19ff_fff8);
    lemma_sum_known(0x414b_a25f, 0x3e8b_b418, false, 0xcb_a25f, 129, 0x8b_b418, 124, 0x20, 0x1, 0x19ff_fff8, 29, 0x1000_0000, 0x20);
    assert(add_spec(0x414b_a25f, 0x3e8b_b418) == 0x4150_0000);
    lemma_whole_known(0x4150_0000, 0xd0_0000, 129, 0x10_0000);
}

/// The edge of code 12.
proof fn lemma_near_12()
    ensures
        near_exact_edge(0x3b7b_50a5, 12),
{
    lemma2_to64();
    lemma2_to64_rest();
    lemma_fifth_powers_of_two();
    lemma_more_fifth_powers_of_two();
    assert(26525nat * 26525 * 26525 == 0x10f9_2a5a_29c5);
    assert(269025nat * 269025 * 269025 == 0x45_2c59_9066_9ca1);
    assert(0x10f9_2a5a_29c5nat * 0x10f9_2a5a_29c5 == 0x120_17ce_af9f_96b0_0954_b199nat);
    assert(0x120_17ce_af9f_96b0_0954_b199nat * 0x120_17ce_af9f_96b0_0954_b199nat == 0x1_4435_9341_f180_d67a_b70d_0897_763b_def8_8ee1_c99c_ed71nat);
    assert(0x45_2c59_9066_9ca1nat * 0x45_2c59_9066_9ca1 == 0x12b0_eff6_c049_6d6d_d948_5020_9d41nat);
    assert(0x12b0_eff6_c049_6d6d_d948_5020_9d41nat * 0x12b0_eff6_c049_6d6d_d948_5020_9d41nat == 0x15d_5c09_8741_6139_2178_92b9_bce5_5f46_89a2_dd05_b95f_0d00_50d8_ca81nat);
    assert(0x4d7_9339nat * 0x4d7_9339 == 0x17_7222_6668_82b1);
    assert(0x17_7222_6668_82b1nat * 0x17_7222_6668_82b1 == 0x225_b511_0e9b_eced_cdd3_7e88_3e61nat);
    assert(0x225_b511_0e9b_eced_cdd3_7e88_3e61nat * 0x4d7_9339 == 0xa_65bb_76eb_d0d7_7cb3_78bc_ab25_4f9e_9699nat);
    assert(0x4f9_9339nat * 0x4f9_9339 == 0x18_bfe9_818c_82b1);
    assert(0x18_bfe9_818c_82b1nat * 0x18_bfe9_818c_82b1 == 0x264_8ba6_8ea5_3f88_ed07_9650_3e61nat);
    assert(0x264_8ba6_8ea5_3f88_ed07_9650_3e61nat * 0x4f9_9339 == 0xb_e75a_b3cf_0fb7_9629_7052_9706_bc08_9699nat);
    assert(0xa_65bb_76eb_d0d7_7cb3_78bc_ab25_4f9e_9699nat * 0x15d_5c09_8741_6139_2178_92b9_bce5_5f46_89a2_dd05_b95f_0d00_50d8_ca81nat == 0xe30_6d83_901d_464a_60e0_c8c9_1140_873c_88e3_863c_d905_9c33_3b45_0006_547b_927a_4424_5a17_47e7_307f_22d6_9d19nat);
    assert(0xb_e75a_b3cf_0fb7_9629_7052_9706_bc08_9699nat * 0x15d_5c09_8741_6139_2178_92b9_bce5_5f46_89a2_dd05_b95f_0d00_50d8_ca81nat == 0x103e_ae3d_2622_4160_8687_8e8d_3da2_563f_3860_4879_318f_c2ec_38cf_5c09_e85b_6661_cd1c_4bf2_30a7_8612_6840_9d19nat);
    assert(0xc35nat * 0x1_0000_0000_0000_0000_0000_0000_0000_0000_0000_0000nat == 0xc35_0000_0000_0000_0000_0000_0000_0000_0000_0000_0000nat);
    assert(0x1_4435_9341_f180_d67a_b70d_0897_763b_def8_8ee1_c99c_ed71nat * 0xc35_0000_0000_0000_0000_0000_0000_0000_0000_0000_0000nat == 0xf75_a1fe_93f9_09ba_27fc_8219_e0e6_48d8_d028_2a32_189e_7465_0000_0000_0000_0000_0000_0000_0000_0000_0000_0000nat);
    lemma_near_above(
        0x3b7b_50a5, 0xfb_50a5, 117, 0x1_0000, 0xc35_0000_0000_0000_0000_0000_0000_0000_0000_0000_0000nat, 12,
        26525, 0x10f9_2a5a_29c5,
        0x120_17ce_af9f_96b0_0954_b199nat,
        0x45_2c59_9066_9ca1, 0x12b0_eff6_c049_6d6d_d948_5020_9d41nat,
        0x4d7_9339, 0x17_7222_6668_82b1, 0x225_b511_0e9b_eced_cdd3_7e88_3e61nat,
        0x4f9_9339, 0x18_bfe9_818c_82b1, 0x264_8ba6_8ea5_3f88_ed07_9650_3e61nat,
    );
}

/// The value 0x3b89_ca72.
proof fn lemma_at_3b89ca72()
    ensures
        chord_code(0x3b89_ca72, 0x3b85_5e8d, 0x3b8d_5e8d, 0x415a_357d, 0x4164_afdf) == 13,
{
    reveal(chord_code);
    lemma2_to64();
    lemma2_to64_rest();
    lemma_high_powers();
    assert(0x8d_5e8d * 0x1 - 0x85_5e8d * 0x1 == 0x8_0000);
    lemma_sum_known(0x3b8d_5e8d, 0x3b85_5e8d, true, 0x8d_5e8d, 118, 0x85_5e8d, 118, 0x1, 0x1, 0x8_0000, 20, 0x8_0000, 0x10);
    assert(sub_spec(0x3b8d_5e8d, 0x3b85_5e8d) == 0x3980_0000);
    assert(0x89_ca72 * 0x1 - 0x85_5e8d * 0x1 == 0x4_6be5);
    lemma_sum_known(0x3b89_ca72, 0x3b85_5e8d, true, 0x89_ca72, 118, 0x85_5e8d, 118, 0x1, 0x1, 0x4_6be5, 19, 0x4_0000, 0x20);
    assert(sub_spec(0x3b89_ca72, 0x3b85_5e8d) == 0x390d_7ca0);
    assert(0xe4_afdf * 0x1 - 0xda_357d * 0x1 == 0xa_7a62);
    lemma_sum_known(0x4164_afdf, 0x415a_357d, true, 0xe4_afdf, 129, 0xda_357d, 129, 0x1, 0x1, 0xa_7a62, 20, 0x8_0000, 0x10);
    assert(sub_spec(0x4164_afdf, 0x415a_357d) == 0x3f27_a620);
    assert(0xa7_a620 * 0x8d_7ca0 == 0x5ca8_1cdf_5400);
    lemma_product_known(0x3f27_a620, 0x390d_7ca0, 0xa7_a620, 125, 0x8d_7ca0, 113, 0x5ca8_1cdf_5400, 47, 0x4000_0000_0000, 0x80_0000);
    assert(mul_spec(0x3f27_a620, 0x390d_7ca0) == 0x38b9_503a);
    assert(0xb9_503a * 0x1_0000_0000_0000_0000 == 0x1_72a0_7400_0000_0000 * 0x80_0000 + 0x0);
    lemma_quotient_known(0x38b9_503a, 0x3980_0000, 0xb9_503a, 112, 0x80_0000, 114, 0x1_72a0_7400_0000_0000, 0x0, 66, 0x2_0000_0000_0000_0000, 0x400_0000_0000);
    assert(div_spec(0x38b9_503a, 0x3980_0000) == 0x3eb9_503a);
    assert(0xda_357d * 0x20 + 0xb9_503a * 0x1 == 0x1bff_ffda);
    lemma_sum_known(0x415a_357d, 0x3eb9_503a, false, 0xda_357d, 129, 0xb9_503a, 124, 0x20, 0x1, 0x1bff_ffda, 29, 0x1000_0000, 0x20);
    assert(add_spec(0x415a_357d, 0x3eb9_503a) == 0x415f_ffff);
    lemma_whole_known(0x415f_ffff, 0xdf_ffff, 129, 0x10_0000);
}

/// The value 0x3b89_ca73.
proof fn lemma_at_3b89ca73()
    ensures
        chord_code(0x3b89_ca73, 0x3b85_5e8d, 0x3b8d_5e8d, 0x415a_357d, 0x4164_afdf) == 14,
{
    reveal(chord_code);
    lemma2_to64();
    lemma2_to64_rest();
    lemma_high_powers();
    assert(0x8d_5e8d * 0x1 - 0x85_5e8d * 0x1 == 0x8_0000);
    lemma_sum_known(0x3b8d_5e8d, 0x3b85_5e8d, true, 0x8d_5e8d, 118, 0x85_5e8d, 118, 0x1, 0x1, 0x8_0000, 20, 0x8_0000, 0x10);
    assert(sub_spec(0x3b8d_5e8d, 0x3b85_5e8d) == 0x3980_0000);
    assert(0x89_ca73 * 0x1 - 0x85_5e8d * 0x1 == 0x4_6be6);
    lemma_sum_known(0x3b89_ca73, 0x3b85_5e8d, true, 0x89_ca73, 118, 0x85_5e8d, 118, 0x1, 0x1, 0x4_6be6, 19, 0x4_0000, 0x20);
    assert(sub_spec(0x3b89_ca73, 0x3b85_5e8d) == 0x390d_7cc0);
    assert(0xe4_afdf * 0x1 - 0xda_357d * 0x1 == 0xa_7a62);
    lemma_sum_known(0x4164_afdf, 0x415a_357d, true, 0xe4_afdf, 129, 0xda_357d, 129, 0x1, 0x1, 0xa_7a62, 20, 0x8_0000, 0x10);
    assert(sub_spec(0x4164_afdf, 0x415a_357d) == 0x3f27_a620);
    assert(0xa7_a620 * 0x8d_7cc0 == 0x5ca8_31d4_1800);
    lemma_product_known(0x3f27_a620, 0x390d_7cc0, 0xa7_a620, 125, 0x8d_7cc0, 113, 0x5ca8_31d4_1800, 47, 0x4000_0000_0000, 0x80_0000);
    assert(mul_spec(0x3f27_a620, 0x390d_7cc0) == 0x38b9_5064);
    assert(0xb9_5064 * 0x1_0000_0000_0000_0000 == 0x1_72a0_c800_0000_0000 * 0x80_0000 + 0x0);
    lemma_quotient_known(0x38b9_5064, 0x3980_0000, 0xb9_5064, 112, 0x80_0000, 114, 0x1_72a0_c800_0000_0000, 0x0, 66, 0x2_0000_0000_0000_0000, 0x400_0000_0000);
    assert(div_spec(0x38b9_5064, 0x3980_0000) == 0x3eb9_5064);
    assert(0xda_357d * 0x20 + 0xb9_5064 * 0x1 == 0x1c00_0004);
    lemma_sum_known(0x415a_357d, 0x3eb9_5064, false, 0xda_357d, 129, 0xb9_5064, 124, 0x20, 0x1, 0x1c00_0004, 29, 0x1000_0000, 0x20);
    assert(add_spec(0x415a_357d, 0x3eb9_5064) == 0x4160_0000);
    lemma_whole_known(0x4160_0000, 0xe0_0000, 129, 0x10_0000);
}

/// The edge of code 13.
proof fn lemma_near_13()
    ensures
        near_exact_edge(0x3b89_ca72, 13),
{
    lemma2_to64();
    lemma2_to64_rest();
    lemma_fifth_powers_of_two();
    lemma_more_fifth_powers_of_two();
    assert(27525nat * 27525 * 27525 == 0x12f7_5e1f_3efd);
    assert(269025nat * 269025 * 269025 == 0x45_2c59_9066_9ca1);
    assert(0x12f7_5e1f_3efdnat * 0x12f7_5e1f_3efd == 0x167_b843_27c2_1648_1cc5_8609nat);
    assert(0x167_b843_27c2_1648_1cc5_8609nat * 0x167_b843_27c2_1648_1cc5_8609nat == 0x1_f976_50fa_1d1f_540c_bb08_ad4f_5c2e_0904_bec9_8807_6c51nat);
    assert(0x45_2c59_9066_9ca1nat * 0x45_2c59_9066_9ca1 == 0x12b0_eff6_c049_6d6d_d948_5020_9d41nat);
    assert(0x12b0_eff6_c049_6d6d_d948_5020_9d41nat * 0x12b0_eff6_c049_6d6d_d948_5020_9d41nat == 0x15d_5c09_8741_6139_2178_92b9_bce5_5f46_89a2_dd05_b95f_0d00_50d8_ca81nat);
    assert(0x2a8_743anat * 0x2a8_743a == 0x7_10a9_a8e4_9d24);
    assert(0x7_10a9_a8e4_9d24nat * 0x7_10a9_a8e4_9d24 == 0x31_ea5c_e20d_98e0_d3ef_8895_2d10nat);
    assert(0x31_ea5c_e20d_98e0_d3ef_8895_2d10nat * 0x2a8_743a == 0x84ad_3039_a397_758d_773b_5a68_3cb7_75a0nat);
    assert(0x2b9_743anat * 0x2b9_743a == 0x7_6c2a_1898_9d24);
    assert(0x7_6c2a_1898_9d24nat * 0x7_6c2a_1898_9d24 == 0x37_1800_e405_70fe_e841_bb35_2d10nat);
    assert(0x37_1800_e405_70fe_e841_bb35_2d10nat * 0x2b9_743a == 0x9619_5dc8_aa56_c675_75f5_1b80_3307_75a0nat);
    assert(0x84ad_3039_a397_758d_773b_5a68_3cb7_75a0nat * 0x15d_5c09_8741_6139_2178_92b9_bce5_5f46_89a2_dd05_b95f_0d00_50d8_ca81nat == 0xb5_0fcd_ec18_a517_4f83_5172_1a67_c0d4_9d42_d363_ec6f_491d_ddff_e565_b94f_5b50_da39_d5fd_5c84_7dfc_9a42_85a0nat);
    assert(0x9619_5dc8_aa56_c675_75f5_1b80_3307_75a0nat * 0x15d_5c09_8741_6139_2178_92b9_bce5_5f46_89a2_dd05_b95f_0d00_50d8_ca81nat == 0xcc_d68b_8e76_5778_7816_e397_0f68_de71_564d_cb4d_6eb2_6945_d30e_b654_c703_558e_4114_1227_c3ac_86ea_d892_85a0nat);
    assert(0xc35nat * 0x800_0000_0000_0000_0000_0000_0000_0000_0000_0000nat == 0x61_a800_0000_0000_0000_0000_0000_0000_0000_0000_0000nat);
    assert(0x1_f976_50fa_1d1f_540c_bb08_ad4f_5c2e_0904_bec9_8807_6c51nat * 0x61_a800_0000_0000_0000_0000_0000_0000_0000_0000_0000nat == 0xc0_d18a_53e9_2bfb_67fb_3907_5cce_01ef_a0b7_6790_cc14_e9c6_2800_0000_0000_0000_0000_0000_0000_0000_0000_0000nat);
    lemma_near_above(
        0x3b89_ca72, 0x89_ca72, 118, 0x8000, 0x61_a800_0000_0000_0000_0000_0000_0000_0000_0000_0000nat, 13,
        27525, 0x12f7_5e1f_3efd,
        0x167_b843_27c2_1648_1cc5_8609nat,
        0x45_2c59_9066_9ca1, 0x12b0_eff6_c049_6d6d_d948_5020_9d41nat,
        0x2a8_743a, 0x7_10a9_a8e4_9d24, 0x31_ea5c_e20d_98e0_d3ef_8895_2d10nat,
        0x2b9_743a, 0x7_6c2a_1898_9d24, 0x37_1800_e405_70fe_e841_bb35_2d10nat,
    );
}

/// The value 0x3b96_5056.
proof fn lemma_at_3b965056()
    ensures
        chord_code(0x3b96_5056, 0x3b95_5e8d, 0x3b9d_5e8d, 0x416e_c765, 0x4179_1f3d) == 14,
{
    reveal(chord_code);
    lemma2_to64();
    lemma2_to64_rest();
    lemma_high_powers();
    assert(0x9d_5e8d * 0x1 - 0x95_5e8d * 0x1 == 0x8_0000);
    lemma_sum_known(0x3b9d_5e8d, 0x3b95_5e8d, true, 0x9d_5e8d, 118, 0x95_5e8d, 118, 0x1, 0x1, 0x8_0000, 20, 0x8_0000, 0x10);
    assert(sub_spec(0x3b9d_5e8d, 0x3b95_5e8d) == 0x3980_0000);
    assert(0x96_5056 * 0x1 - 0x95_5e8d * 0x1 == 0xf1c9);
    lemma_sum_known(0x3b96_5056, 0x3b95_5e8d, true, 0x96_5056, 118, 0x95_5e8d, 118, 0x1, 0x1, 0xf1c9, 16, 0x8000, 0x100);
    assert(sub_spec(0x3b96_5056, 0x3b95_5e8d) == 0x37f1_c900);
    assert(0xf9_1f3d * 0x1 - 0xee_c765 * 0x1 == 0xa_57d8);
    lemma_sum_known(0x4179_1f3d, 0x416e_c765, true, 0xf9_1f3d, 129, 0xee_c765, 129, 0x1, 0x1, 0xa_57d8, 20, 0x8_0000, 0x10);
    assert(sub_spec(0x4179_1f3d, 0x416e_c765) == 0x3f25_7d80);
    assert(0xa5_7d80 * 0xf1_c900 == 0x9c4d_1509_8000);
    lemma_product_known(0x3f25_7d80, 0x37f1_c900, 0xa5_7d80, 125, 0xf1_c900, 110, 0x9c4d_1509_8000, 48, 0x8000_0000_0000, 0x100_0000);
    assert(mul_spec(0x3f25_7d80, 0x37f1_c900) == 0x379c_4d15);
    assert(0x9c_4d15 * 0x1_0000_0000_0000_0000 == 0x1_389a_2a00_0000_0000 * 0x80_0000 + 0x0);
    lemma_quotient_known(0x379c_4d15, 0x3980_0000, 0x9c_4d15, 110, 0x80_0000, 114, 0x1_389a_2a00_0000_0000, 0x0, 66, 0x2_0000_0000_0000_0000, 0x400_0000_0000);
    assert(div_spec(0x379c_4d15, 0x3980_0000) == 0x3d9c_4d15);
    assert(0xee_c765 * 0x80 + 0x9c_4d15 * 0x1 == 0x77ff_ff95);
    lemma_sum_known(0x416e_c765, 0x3d9c_4d15, false, 0xee_c765, 129, 0x9c_4d15, 122, 0x80, 0x1, 0x77ff_ff95, 31, 0x4000_0000, 0x80);
    assert(add_spec(0x416e_c765, 0x3d9c_4d15) == 0x416f_ffff);
    lemma_whole_known(0x416f_ffff, 0xef_ffff, 129, 0x10_0000);
}

/// The value 0x3b96_5057.
proof fn lemma_at_3b965057()
    ensures
        chord_code(0x3b96_5057, 0x3b95_5e8d, 0x3b9d_5e8d, 0x416e_c765, 0x4179_1f3d) == 15,
{
    reveal(chord_code);
    lemma2_to64();
    lemma2_to64_rest();
    lemma_high_powers();
    assert(0x9d_5e8d * 0x1 - 0x95_5e8d * 0x1 == 0x8_0000);
    lemma_sum_known(0x3b9d_5e8d, 0x3b95_5e8d, true, 0x9d_5e8d, 118, 0x95_5e8d, 118, 0x1, 0x1, 0x8_0000, 20, 0x8_0000, 0x10);
    assert(sub_spec(0x3b9d_5e8d, 0x3b95_5e8d) == 0x3980_0000);
    assert(0x96_5057 * 0x1 - 0x95_5e8d * 0x1 == 0xf1ca);
    lemma_sum_known(0x3b96_5057, 0x3b95_5e8d, true, 0x96_5057, 118, 0x95_5e8d, 118, 0x1, 0x1, 0xf1ca, 16, 0x8000, 0x100);
    assert(sub_spec(0x3b96_5057, 0x3b95_5e8d) == 0x37f1_ca00);
    assert(0xf9_1f3d * 0x1 - 0xee_c765 * 0x1 == 0xa_57d8);
    lemma_sum_known(0x4179_1f3d, 0x416e_c765, true, 0xf9_1f3d, 129, 0xee_c765, 129, 0x1, 0x1, 0xa_57d8, 20, 0x8_0000, 0x10);
    assert(sub_spec(0x4179_1f3d, 0x416e_c765) == 0x3f25_7d80);
    assert(0xa5_7d80 * 0xf1_ca00 == 0x9c4d_ba87_0000);
    lemma_product_known(0x3f25_7d80, 0x37f1_ca00, 0xa5_7d80, 125, 0xf1_ca00, 110, 0x9c4d_ba87_0000, 48, 0x8000_0000_0000, 0x100_0000);
    assert(mul_spec(0x3f25_7d80, 0x37f1_ca00) == 0x379c_4dbb);
    assert(0x9c_4dbb * 0x1_0000_0000_0000_0000 == 0x1_389b_7600_0000_0000 * 0x80_0000 + 0x0);
    lemma_quotient_known(0x379c_4dbb, 0x3980_0000, 0x9c_4dbb, 110, 0x80_0000, 114, 0x1_389b_7600_0000_0000, 0x0, 66, 0x2_0000_0000_0000_0000, 0x400_0000_0000);
    assert(div_spec(0x379c_4dbb, 0x3980_0000) == 0x3d9c_4dbb);
    assert(0xee_c765 * 0x80 + 0x9c_4dbb * 0x1 == 0x7800_003b);
    lemma_sum_known(0x416e_c765, 0x3d9c_4dbb, false, 0xee_c765, 129, 0x9c_4dbb, 122, 0x80, 0x1, 0x7800_003b, 31, 0x4000_0000, 0x80);
    assert(add_spec(0x416e_c765, 0x3d9c_4dbb) == 0x4170_0000);
    lemma_whole_known(0x4170_0000, 0xf0_0000, 129, 0x10_0000);
}

/// The edge of code 14.
proof fn lemma_near_14()
    ensures
        near_exact_edge(0x3b96_5056, 14),
{
    lemma2_to64();
    lemma2_to64_rest();
    lemma_fifth_powers_of_two();
    lemma_more_fifth_powers_of_two();
    assert(28525nat * 28525 * 28525 == 0x151c_0599_57b5);
    assert(269025nat * 269025 * 269025 == 0x45_2c59_9066_9ca1);
    assert(0x151c_0599_57b5nat * 0x151c_0599_57b5 == 0x1bd_9bfc_620e_3adf_0666_85f9nat);
    assert(0x1bd_9bfc_620e_3adf_0666_85f9nat * 0x1bd_9bfc_620e_3adf_0666_85f9nat == 0x3_07a7_aa78_7d07_1839_1f1f_c292_4b33_e6b7_3324_b488_ac31nat);
    assert(0x45_2c59_9066_9ca1nat * 0x45_2c59_9066_9ca1 == 0x12b0_eff6_c049_6d6d_d948_5020_9d41nat);
    assert(0x12b0_eff6_c049_6d6d_d948_5020_9d41nat * 0x12b0_eff6_c049_6d6d_d948_5020_9d41nat == 0x15d_5c09_8741_6139_2178_92b9_bce5_5f46_89a2_dd05_b95f_0d00_50d8_ca81nat);
    assert(0x2e7_11aenat * 0x2e7_11ae == 0x8_6cd7_a13c_9244);
    assert(0x8_6cd7_a13c_9244nat * 0x8_6cd7_a13c_9244 == 0x46_fbc0_b974_78f4_4c86_6b71_a210nat);
    assert(0x46_fbc0_b974_78f4_4c86_6b71_a210nat * 0x2e7_11ae == 0xce09_9351_2a59_d63c_8942_c74c_ef6f_36e0nat);
    assert(0x2f8_11aenat * 0x2f8_11ae == 0x8_d0a8_fa58_9244);
    assert(0x8_d0a8_fa58_9244nat * 0x8_d0a8_fa58_9244 == 0x4d_b4a2_abe2_9aff_9591_b251_a210nat);
    assert(0x4d_b4a2_abe2_9aff_9591_b251_a210nat * 0x2f8_11ae == 0xe6b5_a0bd_dcb7_0714_5b2f_b837_bebf_36e0nat);
    assert(0xce09_9351_2a59_d63c_8942_c74c_ef6f_36e0nat * 0x15d_5c09_8741_6139_2178_92b9_bce5_5f46_89a2_dd05_b95f_0d00_50d8_ca81nat == 0x119_2d20_f1c9_c0e9_a782_5ef7_c842_98e1_0321_274f_ace1_adf0_8f47_948b_cda5_d40a_2447_fae5_f28f_49ae_b557_66e0nat);
    assert(0xe6b5_a0bd_dcb7_0714_5b2f_b837_bebf_36e0nat * 0x15d_5c09_8741_6139_2178_92b9_bce5_5f46_89a2_dd05_b95f_0d00_50d8_ca81nat == 0x13a_d88d_fee1_7b03_6dd7_3dbd_512d_bfb3_cddd_afc5_76fd_c129_ea2e_6a5f_3fae_7b50_713a_b9b7_67f5_e316_4ca7_66e0nat);
    assert(0xc35nat * 0x800_0000_0000_0000_0000_0000_0000_0000_0000_0000nat == 0x61_a800_0000_0000_0000_0000_0000_0000_0000_0000_0000nat);
    assert(0x3_07a7_aa78_7d07_1839_1f1f_c292_4b33_e6b7_3324_b488_ac31nat * 0x61_a800_0000_0000_0000_0000_0000_0000_0000_0000_0000nat == 0x127_e38d_9f86_71bc_d58a_4775_911e_8004_7ad2_9a78_7e42_ef91_2800_0000_0000_0000_0000_0000_0000_0000_0000_0000nat);
    lemma_near_above(
        0x3b96_5056, 0x96_5056, 118, 0x8000, 0x61_a800_0000_0000_0000_0000_0000_0000_0000_0000_0000nat, 14,
        28525, 0x151c_0599_57b5,
        0x1bd_9bfc_620e_3adf_0666_85f9nat,
        0x45_2c59_9066_9ca1, 0x12b0_eff6_c049_6d6d_d948_5020_9d41nat,
        0x2e7_11ae, 0x8_6cd7_a13c_9244, 0x46_fbc0_b974_78f4_4c86_6b71_a210nat,
        0x2f8_11ae, 0x8_d0a8_fa58_9244, 0x4d_b4a2_abe2_9aff_9591_b251_a210nat,
    );
}

/// The value 0x3ba2_becd.
proof fn lemma_at_3ba2becd()
    ensures
        chord_code(0x3ba2_becd, 0x3b9d_5e8d, 0x3ba5_5e8d, 0x4179_1f3d, 0x4181_adb6) == 15,
{
    reveal(chord_code);
    lemma2_to64();
    lemma2_to64_rest();
    lemma_high_powers();
    assert(0xa5_5e8d * 0x1 - 0x9d_5e8d * 0x1 == 0x8_0000);
    lemma_sum_known(0x3ba5_5e8d, 0x3b9d_5e8d, true, 0xa5_5e8d, 118, 0x9d_5e8d, 118, 0x1, 0x1, 0x8_0000, 20, 0x8_0000, 0x10);
    assert(sub_spec(0x3ba5_5e8d, 0x3b9d_5e8d) == 0x3980_0000);
    assert(0xa2_becd * 0x1 - 0x9d_5e8d * 0x1 == 0x5_6040);
    lemma_sum_known(0x3ba2_becd, 0x3b9d_5e8d, true, 0xa2_becd, 118, 0x9d_5e8d, 118, 0x1, 0x1, 0x5_6040, 19, 0x4_0000, 0x20);
    assert(sub_spec(0x3ba2_becd, 0x3b9d_5e8d) == 0x392c_0800);
    assert(0x81_adb6 * 0x2 - 0xf9_1f3d * 0x1 == 0xa_3c2f);
    lemma_sum_known(0x4181_adb6, 0x4179_1f3d, true, 0x81_adb6, 130, 0xf9_1f3d, 129, 0x2, 0x1, 0xa_3c2f, 20, 0x8_0000, 0x10);
    assert(sub_spec(0x4181_adb6, 0x4179_1f3d) == 0x3f23_c2f0);
    assert(0xa3_c2f0 * 0xac_0800 == 0x6e0c_1757_8000);
    lemma_product_known(0x3f23_c2f0, 0x392c_0800, 0xa3_c2f0, 125, 0xac_0800, 113, 0x6e0c_1757_8000, 47, 0x4000_0000_0000, 0x80_0000);
    assert(mul_spec(0x3f23_c2f0, 0x392c_0800) == 0x38dc_182f);
    assert(0xdc_182f * 0x1_0000_0000_0000_0000 == 0x1_b830_5e00_0000_0000 * 0x80_0000 + 0x0);
    lemma_quotient_known(0x38dc_182f, 0x3980_0000, 0xdc_182f, 112, 0x80_0000, 114, 0x1_b830_5e00_0000_0000, 0x0, 66, 0x2_0000_0000_0000_0000, 0x400_0000_0000);
    assert(div_spec(0x38dc_182f, 0x3980_0000) == 0x3edc_182f);
    assert(0xf9_1f3d * 0x20 + 0xdc_182f * 0x1 == 0x1fff_ffcf);
    lemma_sum_known(0x4179_1f3d, 0x3edc_182f, false, 0xf9_1f3d, 129, 0xdc_182f, 124, 0x20, 0x1, 0x1fff_ffcf, 29, 0x1000_0000, 0x20);
    assert(add_spec(0x4179_1f3d, 0x3edc_182f) == 0x417f_fffe);
    lemma_whole_known(0x417f_fffe, 0xff_fffe, 129, 0x10_0000);
}

/// The value 0x3ba2_bece.
proof fn lemma_at_3ba2bece()
    ensures
        chord_code(0x3ba2_bece, 0x3b9d_5e8d, 0x3ba5_5e8d, 0x4179_1f3d, 0x4181_adb6) == 16,
{
    reveal(chord_code);
    lemma2_to64();
    lemma2_to64_rest();
    lemma_high_powers();
    assert(0xa5_5e8d * 0x1 - 0x9d_5e8d * 0x1 == 0x8_0000);
    lemma_sum_known(0x3ba5_5e8d, 0x3b9d_5e8d, true, 0xa5_5e8d, 118, 0x9d_5e8d, 118, 0x1, 0x1, 0x8_0000, 20, 0x8_0000, 0x10);
    assert(sub_spec(0x3ba5_5e8d, 0x3b9d_5e8d) == 0x3980_0000);
    assert(0xa2_bece * 0x1 - 0x9d_5e8d * 0x1 == 0x5_6041);
    lemma_sum_known(0x3ba2_bece, 0x3b9d_5e8d, true, 0xa2_bece, 118, 0x9d_5e8d, 118, 0x1, 0x1, 0x5_6041, 19, 0x4_0000, 0x20);
    assert(sub_spec(0x3ba2_bece, 0x3b9d_5e8d) == 0x392c_0820);
    assert(0x81_adb6 * 0x2 - 0xf9_1f3d * 0x1 == 0xa_3c2f);
    lemma_sum_known(0x4181_adb6, 0x4179_1f3d, true, 0x81_adb6, 130, 0xf9_1f3d, 129, 0x2, 0x1, 0xa_3c2f, 20, 0x8_0000, 0x10);
    assert(sub_spec(0x4181_adb6, 0x4179_1f3d) == 0x3f23_c2f0);
    assert(0xa3_c2f0 * 0xac_0820 == 0x6e0c_2bcf_de00);
    lemma_product_known(0x3f23_c2f0, 0x392c_0820, 0xa3_c2f0, 125, 0xac_0820, 113, 0x6e0c_2bcf_de00, 47, 0x4000_0000_0000, 0x80_0000);
    assert(mul_spec(0x3f23_c2f0, 0x392c_0820) == 0x38dc_1858);
    assert(0xdc_1858 * 0x1_0000_0000_0000_0000 == 0x1_b830_b000_0000_0000 * 0x80_0000 + 0x0);
    lemma_quotient_known(0x38dc_1858, 0x3980_0000, 0xdc_1858, 112, 0x80_0000, 114, 0x1_b830_b000_0000_0000, 0x0, 66, 0x2_0000_0000_0000_0000, 0x400_0000_0000);
    assert(div_spec(0x38dc_1858, 0x3980_0000) == 0x3edc_1858);
    assert(0xf9_1f3d * 0x20 + 0xdc_1858 * 0x1 == 0x1fff_fff8);
    lemma_sum_known(0x4179_1f3d, 0x3edc_1858, false, 0xf9_1f3d, 129, 0xdc_1858, 124, 0x20, 0x1, 0x1fff_fff8, 29, 0x1000_0000, 0x20);
    assert(add_spec(0x4179_1f3d, 0x3edc_1858) == 0x4180_0000);
    lemma_whole_known(0x4180_0000, 0x80_0000, 130, 0x8_0000);
}

/// The edge of code 15.
proof fn lemma_near_15()
    ensures
        near_exact_edge(0x3ba2_becd, 15),
{
    lemma2_to64();
    lemma2_to64_rest();
    lemma_fifth_powers_of_two();
    lemma_more_fifth_powers_of_two();
    assert(29525nat * 29525 * 29525 == 0x1768_8669_2fed);
    assert(269025nat * 269025 * 269025 == 0x45_2c59_9066_9ca1);
    assert(0x1768_8669_2fednat * 0x1768_8669_2fed == 0x223_f2d4_62a5_cff4_7562_e169nat);
    assert(0x223_f2d4_62a5_cff4_7562_e169nat * 0x223_f2d4_62a5_cff4_7562_e169nat == 0x4_94d7_9df3_cb4b_b47b_9dfd_8892_1f38_d833_0663_54dd_bd11nat);
    assert(0x45_2c59_9066_9ca1nat * 0x45_2c59_9066_9ca1 == 0x12b0_eff6_c049_6d6d_d948_5020_9d41nat);
    assert(0x12b0_eff6_c049_6d6d_d948_5020_9d41nat * 0x12b0_eff6_c049_6d6d_d948_5020_9d41nat == 0x15d_5c09_8741_6139_2178_92b9_bce5_5f46_89a2_dd05_b95f_0d00_50d8_ca81nat);
    assert(0x325_3a01nat * 0x325_3a01 == 0x9_e4c5_d76e_7401);
    assert(0x9_e4c5_d76e_7401nat * 0x9_e4c5_d76e_7401 == 0x61_e25a_2666_2bfd_080b_936c_e801nat);
    assert(0x61_e25a_2666_2bfd_080b_936c_e801nat * 0x325_3a01 == 0x1_33e2_f325_0e55_9f07_cc36_3ce7_cb22_2201nat);
    assert(0x336_3a01nat * 0x336_3a01 == 0xa_50d8_8b90_7401);
    assert(0xa_50d8_8b90_7401nat * 0xa_50d8_8b90_7401 == 0x6a_6a72_f5af_286e_912b_cbb0_e801nat);
    assert(0x6a_6a72_f5af_286e_912b_cbb0_e801nat * 0x336_3a01 == 0x1_55c9_e9a9_5688_77de_57f2_875a_d377_2201nat);
    assert(0x1_33e2_f325_0e55_9f07_cc36_3ce7_cb22_2201nat * 0x15d_5c09_8741_6139_2178_92b9_bce5_5f46_89a2_dd05_b95f_0d00_50d8_ca81nat == 0x1a4_2b16_7e8b_b7f4_0ead_0714_64dc_506e_fdf4_def9_7046_9d12_eb5a_68cb_b761_c264_c095_e36f_998a_b383_4bdf_ec81nat);
    assert(0x1_55c9_e9a9_5688_77de_57f2_875a_d377_2201nat * 0x15d_5c09_8741_6139_2178_92b9_bce5_5f46_89a2_dd05_b95f_0d00_50d8_ca81nat == 0x1d2_6f24_d481_ce62_e8cd_2612_ee87_f3f3_09e2_64f5_a9da_7821_c222_1c28_3e82_81af_1e25_8be8_aad4_93c5_90b4_ec81nat);
    assert(0xc35nat * 0x800_0000_0000_0000_0000_0000_0000_0000_0000_0000nat == 0x61_a800_0000_0000_0000_0000_0000_0000_0000_0000_0000nat);
    assert(0x4_94d7_9df3_cb4b_b47b_9dfd_8892_1f38_d833_0663_54dd_bd11nat * 0x61_a800_0000_0000_0000_0000_0000_0000_0000_0000_0000nat == 0x1bf_6760_5908_0519_1147_fcbf_20fd_b907_3936_e7d4_57b6_2784_2800_0000_0000_0000_0000_0000_0000_0000_0000_0000nat);
    lemma_near_above(
        0x3ba2_becd, 0xa2_becd, 118, 0x8000, 0x61_a800_0000_0000_0000_0000_0000_0000_0000_0000_0000nat, 15,
        29525, 0x1768_8669_2fed,
        0x223_f2d4_62a5_cff4_7562_e169nat,
        0x45_2c59_9066_9ca1, 0x12b0_eff6_c049_6d6d_d948_5020_9d41nat,
        0x325_3a01, 0x9_e4c5_d76e_7401, 0x61_e25a_2666_2bfd_080b_936c_e801nat,
        0x336_3a01, 0xa_50d8_8b90_7401, 0x6a_6a72_f5af_286e_912b_cbb0_e801nat,
    );
}

/// The value 0x3bb0_a8b0.
proof fn lemma_at_3bb0a8b0()
    ensures
        chord_code(0x3bb0_a8b0, 0x3bad_5e8d, 0x3bb5_5e8d, 0x4186_1da3, 0x418a_b2b2) == 16,
{
    reveal(chord_code);
    lemma2_to64();
    lemma2_to64_rest();
    lemma_high_powers();
    assert(0xb5_5e8d * 0x1 - 0xad_5e8d * 0x1 == 0x8_0000);
    lemma_sum_known(0x3bb5_5e8d, 0x3bad_5e8d, true, 0xb5_5e8d, 118, 0xad_5e8d, 118, 0x1, 0x1, 0x8_0000, 20, 0x8_0000, 0x10);
    assert(sub_spec(0x3bb5_5e8d, 0x3bad_5e8d) == 0x3980_0000);
    assert(0xb0_a8b0 * 0x1 - 0xad_5e8d * 0x1 == 0x3_4a23);
    lemma_sum_known(0x3bb0_a8b0, 0x3bad_5e8d, true, 0xb0_a8b0, 118, 0xad_5e8d, 118, 0x1, 0x1, 0x3_4a23, 18, 0x2_0000, 0x40);
    assert(sub_spec(0x3bb0_a8b0, 0x3bad_5e8d) == 0x38d2_88c0);
    assert(0x8a_b2b2 * 0x1 - 0x86_1da3 * 0x1 == 0x4_950f);
    lemma_sum_known(0x418a_b2b2, 0x4186_1da3, true, 0x8a_b2b2, 130, 0x86_1da3, 130, 0x1, 0x1, 0x4_950f, 19, 0x4_0000, 0x20);
    assert(sub_spec(0x418a_b2b2, 0x4186_1da3) == 0x3f12_a1e0);
    assert(0x92_a1e0 * 0xd2_88c0 == 0x7897_1db8_6800);
    lemma_product_known(0x3f12_a1e0, 0x38d2_88c0, 0x92_a1e0, 125, 0xd2_88c0, 112, 0x7897_1db8_6800, 47, 0x4000_0000_0000, 0x80_0000);
    assert(mul_spec(0x3f12_a1e0, 0x38d2_88c0) == 0x3871_2e3b);
    assert(0xf1_2e3b * 0x1_0000_0000_0000_0000 == 0x1_e25c_7600_0000_0000 * 0x80_0000 + 0x0);
    lemma_quotient_known(0x3871_2e3b, 0x3980_0000, 0xf1_2e3b, 111, 0x80_0000, 114, 0x1_e25c_7600_0000_0000, 0x0, 66, 0x2_0000_0000_0000_0000, 0x400_0000_0000);
    assert(div_spec(0x3871_2e3b, 0x3980_0000) == 0x3e71_2e3b);
    assert(0x86_1da3 * 0x80 + 0xf1_2e3b * 0x1 == 0x43ff_ffbb);
    lemma_sum_known(0x4186_1da3, 0x3e71_2e3b, false, 0x86_1da3, 130, 0xf1_2e3b, 123, 0x80, 0x1, 0x43ff_ffbb, 31, 0x4000_0000, 0x80);
    assert(add_spec(0x4186_1da3, 0x3e71_2e3b) == 0x4187_ffff);
    lemma_whole_known(0x4187_ffff, 0x87_ffff, 130, 0x8_0000);
}

/// The value 0x3bb0_a8b1.
proof fn lemma_at_3bb0a8b1()
    ensures
        chord_code(0x3bb0_a8b1, 0x3bad_5e8d, 0x3bb5_5e8d, 0x4186_1da3, 0x418a_b2b2) == 17,
{
    reveal(chord_code);
    lemma2_to64();
    lemma2_to64_rest();
    lemma_high_powers();
    assert(0xb5_5e8d * 0x1 - 0xad_5e8d * 0x1 == 0x8_0000);
    lemma_sum_known(0x3bb5_5e8d, 0x3bad_5e8d, true, 0xb5_5e8d, 118, 0xad_5e8d, 118, 0x1, 0x1, 0x8_0000, 20, 0x8_0000, 0x10);
    assert(sub_spec(0x3bb5_5e8d, 0x3bad_5e8d) == 0x3980_0000);
    assert(0xb0_a8b1 * 0x1 - 0xad_5e8d * 0x1 == 0x3_4a24);
    lemma_sum_known(0x3bb0_a8b1, 0x3bad_5e8d, true, 0xb0_a8b1, 118, 0xad_5e8d, 118, 0x1, 0x1, 0x3_4a24, 18, 0x2_0000, 0x40);
    assert(sub_spec(0x3bb0_a8b1, 0x3bad_5e8d) == 0x38d2_8900);
    assert(0x8a_b2b2 * 0x1 - 0x86_1da3 * 0x1 == 0x4_950f);
    lemma_sum_known(0x418a_b2b2, 0x4186_1da3, true, 0x8a_b2b2, 130, 0x86_1da3, 130, 0x1, 0x1, 0x4_950f, 19, 0x4_0000, 0x20);
    assert(sub_spec(0x418a_b2b2, 0x4186_1da3) == 0x3f12_a1e0);
    assert(0x92_a1e0 * 0xd2_8900 == 0x7897_4260_e000);
    lemma_product_known(0x3f12_a1e0, 0x38d2_8900, 0x92_a1e0, 125, 0xd2_8900, 112, 0x7897_4260_e000, 47, 0x4000_0000_0000, 0x80_0000);
    assert(mul_spec(0x3f12_a1e0, 0x38d2_8900) == 0x3871_2e85);
    assert(0xf1_2e85 * 0x1_0000_0000_0000_0000 == 0x1_e25d_0a00_0000_0000 * 0x80_0000 + 0x0);
    lemma_quotient_known(0x3871_2e85, 0x3980_0000, 0xf1_2e85, 111, 0x80_0000, 114, 0x1_e25d_0a00_0000_0000, 0x0, 66, 0x2_0000_0000_0000_0000, 0x400_0000_0000);
    assert(div_spec(0x3871_2e85, 0x3980_0000) == 0x3e71_2e85);
    assert(0x86_1da3 * 0x80 + 0xf1_2e85 * 0x1 == 0x4400_0005);
    lemma_sum_known(0x4186_1da3, 0x3e71_2e85, false, 0x86_1da3, 130, 0xf1_2e85, 123, 0x80, 0x1, 0x4400_0005, 31, 0x4000_0000, 0x80);
    assert(add_spec(0x4186_1da3, 0x3e71_2e85) == 0x4188_0000);
    lemma_whole_known(0x4188_0000, 0x88_0000, 130, 0x8_0000);
}

/// The edge of code 16.
proof fn lemma_near_16()
    ensures
        near_exact_edge(0x3bb0_a8b0, 16),
{
    lemma2_to64();
    lemma2_to64_rest();
    lemma_fifth_powers_of_two();
    lemma_more_fifth_powers_of_two();
    assert(30525nat * 30525 * 30525 == 0x19de_462f_83a5);
    assert(269025nat * 269025 * 269025 == 0x45_2c59_9066_9ca1);
    assert(0x19de_462f_83a5nat * 0x19de_462f_83a5 == 0x29d_2ab3_155c_90fb_d648_4859nat);
    assert(0x29d_2ab3_155c_90fb_d648_4859nat * 0x29d_2ab3_155c_90fb_d648_4859nat == 0x6_d528_331c_e617_050b_a989_5a42_8917_d076_ebe3_9282_2ef1nat);
    assert(0x45_2c59_9066_9ca1nat * 0x45_2c59_9066_9ca1 == 0x12b0_eff6_c049_6d6d_d948_5020_9d41nat);
    assert(0x12b0_eff6_c049_6d6d_d948_5020_9d41nat * 0x12b0_eff6_c049_6d6d_d948_5020_9d41nat == 0x15d_5c09_8741_6139_2178_92b9_bce5_5f46_89a2_dd05_b95f_0d00_50d8_ca81nat);
    assert(0x36a_cb70nat * 0x36a_cb70 == 0xb_ad51_ba6a_d100);
    assert(0xb_ad51_ba6a_d100nat * 0xb_ad51_ba6a_d100 == 0x88_5a5d_9539_d3d1_a645_bea1_0000nat);
    assert(0x88_5a5d_9539_d3d1_a645_bea1_0000nat * 0x36a_cb70 == 0x1_d1f0_decf_35b3_4e05_94ae_de57_1170_0000nat);
    assert(0x37b_cb70nat * 0x37b_cb70 == 0xc_22a1_bf4a_d100);
    assert(0xc_22a1_bf4a_d100nat * 0xc_22a1_bf4a_d100 == 0x93_43d9_4c05_a28f_9bbb_7ea1_0000nat);
    assert(0x93_43d9_4c05_a28f_9bbb_7ea1_0000nat * 0x37b_cb70 == 0x2_0102_2c86_95f6_8432_04e3_89cc_1170_0000nat);
    assert(0x1_d1f0_decf_35b3_4e05_94ae_de57_1170_0000nat * 0x15d_5c09_8741_6139_2178_92b9_bce5_5f46_89a2_dd05_b95f_0d00_50d8_ca81nat == 0x27b_dce3_a833_86a2_c8db_42dc_6a0e_2c38_341f_a61c_4ca4_0176_4912_d7a9_2eb1_6d34_747a_a59b_6678_7422_2970_0000nat);
    assert(0x2_0102_2c86_95f6_8432_04e3_89cc_1170_0000nat * 0x15d_5c09_8741_6139_2178_92b9_bce5_5f46_89a2_dd05_b95f_0d00_50d8_ca81nat == 0x2bc_1866_9399_898e_ac0c_2c98_34e5_d281_f8e4_0201_8a08_ae03_116f_a091_d5f3_d1a3_71c7_158e_bb05_2c17_2970_0000nat);
    assert(0xc35nat * 0x800_0000_0000_0000_0000_0000_0000_0000_0000_0000nat == 0x61_a800_0000_0000_0000_0000_0000_0000_0000_0000_0000nat);
    assert(0x6_d528_331c_e617_050b_a989_5a42_8917_d076_ebe3_9282_2ef1nat * 0x61_a800_0000_0000_0000_0000_0000_0000_0000_0000_0000nat == 0x29b_401d_bf7e_25b8_04ba_e44d_5671_9bfd_9ddd_6c07_db79_381f_2800_0000_0000_0000_0000_0000_0000_0000_0000_0000nat);
    lemma_near_above(
        0x3bb0_a8b0, 0xb0_a8b0, 118, 0x8000, 0x61_a800_0000_0000_0000_0000_0000_0000_0000_0000_0000nat, 16,
        30525, 0x19de_462f_83a5,
        0x29d_2ab3_155c_90fb_d648_4859nat,
        0x45_2c59_9066_9ca1, 0x12b0_eff6_c049_6d6d_d948_5020_9d41nat,
        0x36a_cb70, 0xb_ad51_ba6a_d100, 0x88_5a5d_9539_d3d1_a645_bea1_0000nat,
        0x37b_cb70, 0xc_22a1_bf4a_d100, 0x93_43d9_4c05_a28f_9bbb_7ea1_0000nat,
    );
}

/// The value 0x3bbe_cd41.
proof fn lemma_at_3bbecd41()
    ensures
        chord_code(0x3bbe_cd41, 0x3bbd_5e8d, 0x3bc5_5e8d, 0x418f_2bbc, 0x4193_cd32) == 17,
{
    reveal(chord_code);
    lemma2_to64();
    lemma2_to64_rest();
    lemma_high_powers();
    assert(0xc5_5e8d * 0x1 - 0xbd_5e8d * 0x1 == 0x8_0000);
    lemma_sum_known(0x3bc5_5e8d, 0x3bbd_5e8d, true, 0xc5_5e8d, 118, 0xbd_5e8d, 118, 0x1, 0x1, 0x8_0000, 20, 0x8_0000, 0x10);
    assert(sub_spec(0x3bc5_5e8d, 0x3bbd_5e8d) == 0x3980_0000);
    assert(0xbe_cd41 * 0x1 - 0xbd_5e8d * 0x1 == 0x1_6eb4);
    lemma_sum_known(0x3bbe_cd41, 0x3bbd_5e8d, true, 0xbe_cd41, 118, 0xbd_5e8d, 118, 0x1, 0x1, 0x1_6eb4, 17, 0x1_0000, 0x80);
    assert(sub_spec(0x3bbe_cd41, 0x3bbd_5e8d) == 0x3837_5a00);
    assert(0x93_cd32 * 0x1 - 0x8f_2bbc * 0x1 == 0x4_a176);
    lemma_sum_known(0x4193_cd32, 0x418f_2bbc, true, 0x93_cd32, 130, 0x8f_2bbc, 130, 0x1, 0x1, 0x4_a176, 19, 0x4_0000, 0x20);
    assert(sub_spec(0x4193_cd32, 0x418f_2bbc) == 0x3f14_2ec0);
    assert(0x94_2ec0 * 0xb7_5a00 == 0x6a21_83af_8000);
    lemma_product_known(0x3f14_2ec0, 0x3837_5a00, 0x94_2ec0, 125, 0xb7_5a00, 111, 0x6a21_83af_8000, 47, 0x4000_0000_0000, 0x80_0000);
    assert(mul_spec(0x3f14_2ec0, 0x3837_5a00) == 0x37d4_4307);
    assert(0xd4_4307 * 0x1_0000_0000_0000_0000 == 0x1_a886_0e00_0000_0000 * 0x80_0000 + 0x0);
    lemma_quotient_known(0x37d4_4307, 0x3980_0000, 0xd4_4307, 110, 0x80_0000, 114, 0x1_a886_0e00_0000_0000, 0x0, 66, 0x2_0000_0000_0000_0000, 0x400_0000_0000);
    assert(div_spec(0x37d4_4307, 0x3980_0000) == 0x3dd4_4307);
    assert(0x8f_2bbc * 0x100 + 0xd4_4307 * 0x1 == 0x8fff_ff07);
    lemma_sum_known(0x418f_2bbc, 0x3dd4_4307, false, 0x8f_2bbc, 130, 0xd4_4307, 122, 0x100, 0x1, 0x8fff_ff07, 32, 0x8000_0000, 0x100);
    assert(add_spec(0x418f_2bbc, 0x3dd4_4307) == 0x418f_ffff);
    lemma_whole_known(0x418f_ffff, 0x8f_ffff, 130, 0x8_0000);
}

/// The value 0x3bbe_cd42.
proof fn lemma_at_3bbecd42()
    ensures
        chord_code(0x3bbe_cd42, 0x3bbd_5e8d, 0x3bc5_5e8d, 0x418f_2bbc, 0x4193_cd32) == 18,
{
    reveal(chord_code);
    lemma2_to64();
    lemma2_to64_rest();
    lemma_high_powers();
    assert(0xc5_5e8d * 0x1 - 0xbd_5e8d * 0x1 == 0x8_0000);
    lemma_sum_known(0x3bc5_5e8d, 0x3bbd_5e8d, true, 0xc5_5e8d, 118, 0xbd_5e8d, 118, 0x1, 0x1, 0x8_0000, 20, 0x8_0000, 0x10);
    assert(sub_spec(0x3bc5_5e8d, 0x3bbd_5e8d) == 0x3980_0000);
    assert(0xbe_cd42 * 0x1 - 0xbd_5e8d * 0x1 == 0x1_6eb5);
    lemma_sum_known(0x3bbe_cd42, 0x3bbd_5e8d, true, 0xbe_cd42, 118, 0xbd_5e8d, 118, 0x1, 0x1, 0x1_6eb5, 17, 0x1_0000, 0x80);
    assert(sub_spec(0x3bbe_cd42, 0x3bbd_5e8d) == 0x3837_5a80);
    assert(0x93_cd32 * 0x1 - 0x8f_2bbc * 0x1 == 0x4_a176);
    lemma_sum_known(0x4193_cd32, 0x418f_2bbc, true, 0x93_cd32, 130, 0x8f_2bbc, 130, 0x1, 0x1, 0x4_a176, 19, 0x4_0000, 0x20);
    assert(sub_spec(0x4193_cd32, 0x418f_2bbc) == 0x3f14_2ec0);
    assert(0x94_2ec0 * 0xb7_5a80 == 0x6a21_cdc6_e000);
    lemma_product_known(0x3f14_2ec0, 0x3837_5a80, 0x94_2ec0, 125, 0xb7_5a80, 111, 0x6a21_cdc6_e000, 47, 0x4000_0000_0000, 0x80_0000);
    assert(mul_spec(0x3f14_2ec0, 0x3837_5a80) == 0x37d4_439c);
    assert(0xd4_439c * 0x1_0000_0000_0000_0000 == 0x1_a887_3800_0000_0000 * 0x80_0000 + 0x0);
    lemma_quotient_known(0x37d4_439c, 0x3980_0000, 0xd4_439c, 110, 0x80_0000, 114, 0x1_a887_3800_0000_0000, 0x0, 66, 0x2_0000_0000_0000_0000, 0x400_0000_0000);
    assert(div_spec(0x37d4_439c, 0x3980_0000) == 0x3dd4_439c);
    assert(0x8f_2bbc * 0x100 + 0xd4_439c * 0x1 == 0x8fff_ff9c);
    lemma_sum_known(0x418f_2bbc, 0x3dd4_439c, false, 0x8f_2bbc, 130, 0xd4_439c, 122, 0x100, 0x1, 0x8fff_ff9c, 32, 0x8000_0000, 0x100);
    assert(add_spec(0x418f_2bbc, 0x3dd4_439c) == 0x4190_0000);
    lemma_whole_known(0x4190_0000, 0x90_0000, 130, 0x8_0000);
}

/// The edge of code 17.
proof fn lemma_near_17()
    ensures
        near_exact_edge(0x3bbe_cd41, 17),
{
    lemma2_to64();
    lemma2_to64_rest();
    lemma_fifth_powers_of_two();
    lemma_more_fifth_powers_of_two();
    assert(31525nat * 31525 * 31525 == 0x1c7e_aa8d_0edd);
    assert(269025nat * 269025 * 269025 == 0x45_2c59_9066_9ca1);
    assert(0x1c7e_aa8d_0eddnat * 0x1c7e_aa8d_0edd == 0x32b_f3fb_2fba_9f02_e44e_eac9nat);
    assert(0x32b_f3fb_2fba_9f02_e44e_eac9nat * 0x32b_f3fb_2fba_9f02_e44e_eac9nat == 0xa_0f43_c207_3b7e_670b_e78b_9ccd_50ab_5e92_03ad_f1d0_11d1nat);
    assert(0x45_2c59_9066_9ca1nat * 0x45_2c59_9066_9ca1 == 0x12b0_eff6_c049_6d6d_d948_5020_9d41nat);
    assert(0x12b0_eff6_c049_6d6d_d948_5020_9d41nat * 0x12b0_eff6_c049_6d6d_d948_5020_9d41nat == 0x15d_5c09_8741_6139_2178_92b9_bce5_5f46_89a2_dd05_b95f_0d00_50d8_ca81nat);
    assert(0x3b1_8245nat * 0x3b1_8245 == 0xd_a423_03b4_2699);
    assert(0xd_a423_03b4_2699nat * 0xd_a423_03b4_2699 == 0xba_14cb_41d4_c04e_4d83_e2f9_c771nat);
    assert(0xba_14cb_41d4_c04e_4d83_e2f9_c771nat * 0x3b1_8245 == 0x2_af45_7304_d490_a90b_bc50_b9d8_3cbb_2375nat);
    assert(0x3c2_8245nat * 0x3c2_8245 == 0xe_22d7_50de_2699);
    assert(0xe_22d7_50de_2699nat * 0xe_22d7_50de_2699 == 0xc7_d44a_bee0_29ad_11e4_972d_c771nat);
    assert(0xc7_d44a_bee0_29ad_11e4_972d_c771nat * 0x3c2_8245 == 0x2_ef51_708b_736f_e3f2_5bbc_0169_7540_2375nat);
    assert(0x2_af45_7304_d490_a90b_bc50_b9d8_3cbb_2375nat * 0x15d_5c09_8741_6139_2178_92b9_bce5_5f46_89a2_dd05_b95f_0d00_50d8_ca81nat == 0x3a9_e8c4_5779_b612_5c0f_3bec_0789_74b5_e779_44c7_9486_786d_a5a0_58d3_9e9f_23e8_ade8_0322_2ef7_efdc_beff_2ff5nat);
    assert(0x2_ef51_708b_736f_e3f2_5bbc_0169_7540_2375nat * 0x15d_5c09_8741_6139_2178_92b9_bce5_5f46_89a2_dd05_b95f_0d00_50d8_ca81nat == 0x401_5023_a95f_4549_aa8b_be7e_c8bf_300b_ca48_dba8_cecb_562b_f85f_ab46_bb1d_0747_843e_2a3e_afb0_d6db_2c04_2ff5nat);
    assert(0xc35nat * 0x800_0000_0000_0000_0000_0000_0000_0000_0000_0000nat == 0x61_a800_0000_0000_0000_0000_0000_0000_0000_0000_0000nat);
    assert(0xa_0f43_c207_3b7e_670b_e78b_9ccd_50ab_5e92_03ad_f1d0_11d1nat * 0x61_a800_0000_0000_0000_0000_0000_0000_0000_0000_0000nat == 0x3d6_62b0_fc12_49ef_ff22_8bda_08b2_4ddf_4b63_3752_c687_4be2_2800_0000_0000_0000_0000_0000_0000_0000_0000_0000nat);
    lemma_near_above(
        0x3bbe_cd41, 0xbe_cd41, 118, 0x8000, 0x61_a800_0000_0000_0000_0000_0000_0000_0000_0000_0000nat, 17,
        31525, 0x1c7e_aa8d_0edd,
        0x32b_f3fb_2fba_9f02_e44e_eac9nat,
        0x45_2c59_9066_9ca1, 0x12b0_eff6_c049_6d6d_d948_5020_9d41nat,
        0x3b1_8245, 0xd_a423_03b4_2699, 0xba_14cb_41d4_c04e_4d83_e2f9_c771nat,
        0x3c2_8245, 0xe_22d7_50de_2699, 0xc7_d44a_bee0_29ad_11e4_972d_c771nat,
    );
}

/// The value 0x3bcd_544c.
proof fn lemma_at_3bcd544c()
    ensures
        chord_code(0x3bcd_544c, 0x3bc5_5e8d, 0x3bcd_5e8d, 0x4193_cd32, 0x4198_0568) == 18,
{
    reveal(chord_code);
    lemma2_to64();
    lemma2_to64_rest();
    lemma_high_powers();
    assert(0xcd_5e8d * 0x1 - 0xc5_5e8d * 0x1 == 0x8_0000);
    lemma_sum_known(0x3bcd_5e8d, 0x3bc5_5e8d, true, 0xcd_5e8d, 118, 0xc5_5e8d, 118, 0x1, 0x1, 0x8_0000, 20, 0x8_0000, 0x10);
    assert(sub_spec(0x3bcd_5e8d, 0x3bc5_5e8d) == 0x3980_0000);
    assert(0xcd_544c * 0x1 - 0xc5_5e8d * 0x1 == 0x7_f5bf);
    lemma_sum_known(0x3bcd_544c, 0x3bc5_5e8d, true, 0xcd_544c, 118, 0xc5_5e8d, 118, 0x1, 0x1, 0x7_f5bf, 19, 0x4_0000, 0x20);
    assert(sub_spec(0x3bcd_544c, 0x3bc5_5e8d) == 0x397e_b7e0);
    assert(0x98_0568 * 0x1 - 0x93_cd32 * 0x1 == 0x4_3836);
    lemma_sum_known(0x4198_0568, 0x4193_cd32, true, 0x98_0568, 130, 0x93_cd32, 130, 0x1, 0x1, 0x4_3836, 19, 0x4_0000, 0x20);
    assert(sub_spec(0x4198_0568, 0x4193_cd32) == 0x3f07_06c0);
    assert(0x87_06c0 * 0xfe_b7e0 == 0x8659_ae79_2800);
    lemma_product_known(0x3f07_06c0, 0x397e_b7e0, 0x87_06c0, 125, 0xfe_b7e0, 113, 0x8659_ae79_2800, 48, 0x8000_0000_0000, 0x100_0000);
    assert(mul_spec(0x3f07_06c0, 0x397e_b7e0) == 0x3906_59ae);
    assert(0x86_59ae * 0x1_0000_0000_0000_0000 == 0x1_0cb3_5c00_0000_0000 * 0x80_0000 + 0x0);
    lemma_quotient_known(0x3906_59ae, 0x3980_0000, 0x86_59ae, 113, 0x80_0000, 114, 0x1_0cb3_5c00_0000_0000, 0x0, 66, 0x2_0000_0000_0000_0000, 0x400_0000_0000);
    assert(div_spec(0x3906_59ae, 0x3980_0000) == 0x3f06_59ae);
    assert(0x93_cd32 * 0x20 + 0x86_59ae * 0x1 == 0x12ff_ffee);
    lemma_sum_known(0x4193_cd32, 0x3f06_59ae, false, 0x93_cd32, 130, 0x86_59ae, 125, 0x20, 0x1, 0x12ff_ffee, 29, 0x1000_0000, 0x20);
    assert(add_spec(0x4193_cd32, 0x3f06_59ae) == 0x4197_ffff);
    lemma_whole_known(0x4197_ffff, 0x97_ffff, 130, 0x8_0000);
}

/// The value 0x3bcd_544d.
proof fn lemma_at_3bcd544d()
    ensures
        chord_code(0x3bcd_544d, 0x3bc5_5e8d, 0x3bcd_5e8d, 0x4193_cd32, 0x4198_0568) == 19,
{
    reveal(chord_code);
    lemma2_to64();
    lemma2_to64_rest();
    lemma_high_powers();
    assert(0xcd_5e8d * 0x1 - 0xc5_5e8d * 0x1 == 0x8_0000);
    lemma_sum_known(0x3bcd_5e8d, 0x3bc5_5e8d, true, 0xcd_5e8d, 118, 0xc5_5e8d, 118, 0x1, 0x1, 0x8_0000, 20, 0x8_0000, 0x10);
    assert(sub_spec(0x3bcd_5e8d, 0x3bc5_5e8d) == 0x3980_0000);
    assert(0xcd_544d * 0x1 - 0xc5_5e8d * 0x1 == 0x7_f5c0);
    lemma_sum_known(0x3bcd_544d, 0x3bc5_5e8d, true, 0xcd_544d, 118, 0xc5_5e8d, 118, 0x1, 0x1, 0x7_f5c0, 19, 0x4_0000, 0x20);
    assert(sub_spec(0x3bcd_544d, 0x3bc5_5e8d) == 0x397e_b800);
    assert(0x98_0568 * 0x1 - 0x93_cd32 * 0x1 == 0x4_3836);
    lemma_sum_known(0x4198_0568, 0x4193_cd32, true, 0x98_0568, 130, 0x93_cd32, 130, 0x1, 0x1, 0x4_3836, 19, 0x4_0000, 0x20);
    assert(sub_spec(0x4198_0568, 0x4193_cd32) == 0x3f07_06c0);
    assert(0x87_06c0 * 0xfe_b800 == 0x8659_bf5a_0000);
    lemma_product_known(0x3f07_06c0, 0x397e_b800, 0x87_06c0, 125, 0xfe_b800, 113, 0x8659_bf5a_0000, 48, 0x8000_0000_0000, 0x100_0000);
    assert(mul_spec(0x3f07_06c0, 0x397e_b800) == 0x3906_59bf);
    assert(0x86_59bf * 0x1_0000_0000_0000_0000 == 0x1_0cb3_7e00_0000_0000 * 0x80_0000 + 0x0);
    lemma_quotient_known(0x3906_59bf, 0x3980_0000, 0x86_59bf, 113, 0x80_0000, 114, 0x1_0cb3_7e00_0000_0000, 0x0, 66, 0x2_0000_0000_0000_0000, 0x400_0000_0000);
    assert(div_spec(0x3906_59bf, 0x3980_0000) == 0x3f06_59bf);
    assert(0x93_cd32 * 0x20 + 0x86_59bf * 0x1 == 0x12ff_ffff);
    lemma_sum_known(0x4193_cd32, 0x3f06_59bf, false, 0x93_cd32, 130, 0x86_59bf, 125, 0x20, 0x1, 0x12ff_ffff, 29, 0x1000_0000, 0x20);
    assert(add_spec(0x4193_cd32, 0x3f06_59bf) == 0x4198_0000);
    lemma_whole_known(0x4198_0000, 0x98_0000, 130, 0x8_0000);
}

/// The edge of code 18.
proof fn lemma_near_18()
    ensures
        near_exact_edge(0x3bcd_544c, 18),
{
    lemma2_to64();
    lemma2_to64_rest();
    lemma_fifth_powers_of_two();
    lemma_more_fifth_powers_of_two();
    assert(32525nat * 32525 * 32525 == 0x1f4b_1922_8d95);
    assert(269025nat * 269025 * 269025 == 0x45_2c59_9066_9ca1);
    assert(0x1f4b_1922_8d95nat * 0x1f4b_1922_8d95 == 0x3d3_461e_1b00_cf9f_03e1_78b9nat);
    assert(0x3d3_461e_1b00_cf9f_03e1_78b9nat * 0x3d3_461e_1b00_cf9f_03e1_78b9nat == 0xe_a201_5d77_0282_c2cc_79b1_c107_91df_795e_3337_c41f_f5b1nat);
    assert(0x45_2c59_9066_9ca1nat * 0x45_2c59_9066_9ca1 == 0x12b0_eff6_c049_6d6d_d948_5020_9d41nat);
    assert(0x12b0_eff6_c049_6d6d_d948_5020_9d41nat * 0x12b0_eff6_c049_6d6d_d948_5020_9d41nat == 0x15d_5c09_8741_6139_2178_92b9_bce5_5f46_89a2_dd05_b95f_0d00_50d8_ca81nat);
    assert(0x3fa_257cnat * 0x3fa_257c == 0xf_d14e_23ad_1410);
    assert(0xf_d14e_23ad_1410nat * 0xf_d14e_23ad_1410 == 0xfa_3248_dc62_b713_2240_7f32_8100nat);
    assert(0xfa_3248_dc62_b713_2240_7f32_8100nat * 0x3fa_257c == 0x3_e310_9831_43b1_065c_a5b1_b874_e31b_7c00nat);
    assert(0x40b_257cnat * 0x40b_257c == 0x10_59a8_1e25_1410);
    assert(0x10_59a8_1e25_1410nat * 0x10_59a8_1e25_1410 == 0x10b_546a_17ff_de2a_2b12_8e32_8100nat);
    assert(0x10b_546a_17ff_de2a_2b12_8e32_8100nat * 0x40b_257c == 0x4_38f5_6d9f_4052_cf87_d8ab_71b9_b81b_7c00nat);
    assert(0x3_e310_9831_43b1_065c_a5b1_b874_e31b_7c00nat * 0x15d_5c09_8741_6139_2178_92b9_bce5_5f46_89a2_dd05_b95f_0d00_50d8_ca81nat == 0x54d_f35e_7b2c_37c4_a57b_4db8_e474_caf4_128f_44a7_45c3_f29e_eb65_3954_c85c_7658_b09f_265d_4cfe_640a_c0b1_7c00nat);
    assert(0x4_38f5_6d9f_4052_cf87_d8ab_71b9_b81b_7c00nat * 0x15d_5c09_8741_6139_2178_92b9_bce5_5f46_89a2_dd05_b95f_0d00_50d8_ca81nat == 0x5c3_2b36_e13e_4441_fc8f_0163_7657_76b1_d97e_dc61_db4b_c9ce_2a36_952f_1046_eada_3923_31c5_dda8_c7cc_15b1_7c00nat);
    assert(0xc35nat * 0x800_0000_0000_0000_0000_0000_0000_0000_0000_0000nat == 0x61_a800_0000_0000_0000_0000_0000_0000_0000_0000_0000nat);
    assert(0xe_a201_5d77_0282_c2cc_79b1_c107_91df_795e_3337_c41f_f5b1nat * 0x61_a800_0000_0000_0000_0000_0000_0000_0000_0000_0000nat == 0x594_fcd5_4f6e_0d31_9f50_4c36_ca8b_3d67_a457_39bd_e8d1_114d_2800_0000_0000_0000_0000_0000_0000_0000_0000_0000nat);
    lemma_near_above(
        0x3bcd_544c, 0xcd_544c, 118, 0x8000, 0x61_a800_0000_0000_0000_0000_0000_0000_0000_0000_0000nat, 18,
        32525, 0x1f4b_1922_8d95,
        0x3d3_461e_1b00_cf9f_03e1_78b9nat,
        0x45_2c59_9066_9ca1, 0x12b0_eff6_c049_6d6d_d948_5020_9d41nat,
        0x3fa_257c, 0xf_d14e_23ad_1410, 0xfa_3248_dc62_b713_2240_7f32_8100nat,
        0x40b_257c, 0x10_59a8_1e25_1410, 0x10b_546a_17ff_de2a_2b12_8e32_8100nat,
    );
}

/// The value 0x3bdc_bb95.
proof fn lemma_at_3bdcbb95()
    ensures
        chord_code(0x3bdc_bb95, 0x3bd5_5e8d, 0x3bdd_5e8d, 0x419c_2ef9, 0x41a0_5477) == 19,
{
    reveal(chord_code);
    lemma2_to64();
    lemma2_to64_rest();
    lemma_high_powers();
    assert(0xdd_5e8d * 0x1 - 0xd5_5e8d * 0x1 == 0x8_0000);
    lemma_sum_known(0x3bdd_5e8d, 0x3bd5_5e8d, true, 0xdd_5e8d, 118, 0xd5_5e8d, 118, 0x1, 0x1, 0x8_0000, 20, 0x8_0000, 0x10);
    assert(sub_spec(0x3bdd_5e8d, 0x3bd5_5e8d) == 0x3980_0000);
    assert(0xdc_bb95 * 0x1 - 0xd5_5e8d * 0x1 == 0x7_5d08);
    lemma_sum_known(0x3bdc_bb95, 0x3bd5_5e8d, true, 0xdc_bb95, 118, 0xd5_5e8d, 118, 0x1, 0x1, 0x7_5d08, 19, 0x4_0000, 0x20);
    assert(sub_spec(0x3bdc_bb95, 0x3bd5_5e8d) == 0x396b_a100);
    assert(0xa0_5477 * 0x1 - 0x9c_2ef9 * 0x1 == 0x4_257e);
    lemma_sum_known(0x41a0_5477, 0x419c_2ef9, true, 0xa0_5477, 130, 0x9c_2ef9, 130, 0x1, 0x1, 0x4_257e, 19, 0x4_0000, 0x20);
    assert(sub_spec(0x41a0_5477, 0x419c_2ef9) == 0x3f04_afc0);
    assert(0x84_afc0 * 0xeb_a100 == 0x7a20_c7c7_c000);
    lemma_product_known(0x3f04_afc0, 0x396b_a100, 0x84_afc0, 125, 0xeb_a100, 113, 0x7a20_c7c7_c000, 47, 0x4000_0000_0000, 0x80_0000);
    assert(mul_spec(0x3f04_afc0, 0x396b_a100) == 0x38f4_4190);
    assert(0xf4_4190 * 0x1_0000_0000_0000_0000 == 0x1_e883_2000_0000_0000 * 0x80_0000 + 0x0);
    lemma_quotient_known(0x38f4_4190, 0x3980_0000, 0xf4_4190, 112, 0x80_0000, 114, 0x1_e883_2000_0000_0000, 0x0, 66, 0x2_0000_0000_0000_0000, 0x400_0000_0000);
    assert(div_spec(0x38f4_4190, 0x3980_0000) == 0x3ef4_4190);
    assert(0x9c_2ef9 * 0x40 + 0xf4_4190 * 0x1 == 0x27ff_ffd0);
    lemma_sum_known(0x419c_2ef9, 0x3ef4_4190, false, 0x9c_2ef9, 130, 0xf4_4190, 124, 0x40, 0x1, 0x27ff_ffd0, 30, 0x2000_0000, 0x40);
    assert(add_spec(0x419c_2ef9, 0x3ef4_4190) == 0x419f_ffff);
    lemma_whole_known(0x419f_ffff, 0x9f_ffff, 130, 0x8_0000);
}

/// The value 0x3bdc_bb96.
proof fn lemma_at_3bdcbb96()
    ensures
        chord_code(0x3bdc_bb96, 0x3bd5_5e8d, 0x3bdd_5e8d, 0x419c_2ef9, 0x41a0_5477) == 20,
{
    reveal(chord_code);
    lemma2_to64();
    lemma2_to64_rest();
    lemma_high_powers();
    assert(0xdd_5e8d * 0x1 - 0xd5_5e8d * 0x1 == 0x8_0000);
    lemma_sum_known(0x3bdd_5e8d, 0x3bd5_5e8d, true, 0xdd_5e8d, 118, 0xd5_5e8d, 118, 0x1, 0x1, 0x8_0000, 20, 0x8_0000, 0x10);
    assert(sub_spec(0x3bdd_5e8d, 0x3bd5_5e8d) == 0x3980_0000);
    assert(0xdc_bb96 * 0x1 - 0xd5_5e8d * 0x1 == 0x7_5d09);
    lemma_sum_known(0x3bdc_bb96, 0x3bd5_5e8d, true, 0xdc_bb96, 118, 0xd5_5e8d, 118, 0x1, 0x1, 0x7_5d09, 19, 0x4_0000, 0x20);
    assert(sub_spec(0x3bdc_bb96, 0x3bd5_5e8d) == 0x396b_a120);
    assert(0xa0_5477 * 0x1 - 0x9c_2ef9 * 0x1 == 0x4_257e);
    lemma_sum_known(0x41a0_5477, 0x419c_2ef9, true, 0xa0_5477, 130, 0x9c_2ef9, 130, 0x1, 0x1, 0x4_257e, 19, 0x4_0000, 0x20);
    assert(sub_spec(0x41a0_5477, 0x419c_2ef9) == 0x3f04_afc0);
    assert(0x84_afc0 * 0xeb_a120 == 0x7a20_d85d_b800);
    lemma_product_known(0x3f04_afc0, 0x396b_a120, 0x84_afc0, 125, 0xeb_a120, 113, 0x7a20_d85d_b800, 47, 0x4000_0000_0000, 0x80_0000);
    assert(mul_spec(0x3f04_afc0, 0x396b_a120) == 0x38f4_41b1);
    assert(0xf4_41b1 * 0x1_0000_0000_0000_0000 == 0x1_e883_6200_0000_0000 * 0x80_0000 + 0x0);
    lemma_quotient_known(0x38f4_41b1, 0x3980_0000, 0xf4_41b1, 112, 0x80_0000, 114, 0x1_e883_6200_0000_0000, 0x0, 66, 0x2_0000_0000_0000_0000, 0x400_0000_0000);
    assert(div_spec(0x38f4_41b1, 0x3980_0000) == 0x3ef4_41b1);
    assert(0x9c_2ef9 * 0x40 + 0xf4_41b1 * 0x1 == 0x27ff_fff1);
    lemma_sum_known(0x419c_2ef9, 0x3ef4_41b1, false, 0x9c_2ef9, 130, 0xf4_41b1, 124, 0x40, 0x1, 0x27ff_fff1, 30, 0x2000_0000, 0x40);
    assert(add_spec(0x419c_2ef9, 0x3ef4_41b1) == 0x41a0_0000);
    lemma_whole_known(0x41a0_0000, 0xa0_0000, 130, 0x8_0000);
}

/// The edge of code 19.
proof fn lemma_near_19()
    ensures
        near_exact_edge(0x3bdc_bb95, 19),
{
    lemma2_to64();
    lemma2_to64_rest();
    lemma_fifth_powers_of_two();
    lemma_more_fifth_powers_of_two();
    assert(33525nat * 33525 * 33525 == 0x2244_f790_bbcd);
    assert(269025nat * 269025 * 269025 == 0x45_2c59_9066_9ca1);
    assert(0x2244_f790_bbcdnat * 0x2244_f790_bbcd == 0x496_6456_e62e_d521_6665_2229nat);
    assert(0x496_6456_e62e_d521_6665_2229nat * 0x496_6456_e62e_d521_6665_2229nat == 0x15_0b7c_745b_36de_db48_a18e_6c1e_1a05_cc9b_c7be_a4e8_ea91nat);
    assert(0x45_2c59_9066_9ca1nat * 0x45_2c59_9066_9ca1 == 0x12b0_eff6_c049_6d6d_d948_5020_9d41nat);
    assert(0x12b0_eff6_c049_6d6d_d948_5020_9d41nat * 0x12b0_eff6_c049_6d6d_d948_5020_9d41nat == 0x15d_5c09_8741_6139_2178_92b9_bce5_5f46_89a2_dd05_b95f_0d00_50d8_ca81nat);
    assert(0x447_29e9nat * 0x447_29e9 == 0x12_4d17_8e1a_7611);
    assert(0x12_4d17_8e1a_7611nat * 0x12_4d17_8e1a_7611 == 0x14e_ee87_295f_5d0c_cec5_0de7_ad21nat);
    assert(0x14e_ee87_295f_5d0c_cec5_0de7_ad21nat * 0x447_29e9 == 0x5_98d5_192c_b58b_ef7b_2aa4_3a89_4abd_dc09nat);
    assert(0x458_29e9nat * 0x458_29e9 == 0x12_dfac_1f0c_7611);
    assert(0x12_dfac_1f0c_7611nat * 0x12_dfac_1f0c_7611 == 0x164_37a1_af92_0c98_4a0b_660b_ad21nat);
    assert(0x164_37a1_af92_0c98_4a0b_660b_ad21nat * 0x458_29e9 == 0x6_0b8b_f772_29ad_e573_7bfa_7a6f_c6b2_dc09nat);
    assert(0x5_98d5_192c_b58b_ef7b_2aa4_3a89_4abd_dc09nat * 0x15d_5c09_8741_6139_2178_92b9_bce5_5f46_89a2_dd05_b95f_0d00_50d8_ca81nat == 0x7a3_5da5_3b83_c220_a04e_9177_3199_d559_2e40_d053_e97a_4ef4_6f09_fff7_cf9f_b4aa_2604_2402_2aa7_ae1c_f0e2_fa89nat);
    assert(0x6_0b8b_f772_29ad_e573_7bfa_7a6f_c6b2_dc09nat * 0x15d_5c09_8741_6139_2178_92b9_bce5_5f46_89a2_dd05_b95f_0d00_50d8_ca81nat == 0x83f_ea30_3d1d_95d0_313c_24ed_f49a_0443_0c73_e122_f9dc_d543_a37a_10be_3f80_02af_2e4a_5c45_97be_e5c8_b957_fa89nat);
    assert(0xc35nat * 0x800_0000_0000_0000_0000_0000_0000_0000_0000_0000nat == 0x61_a800_0000_0000_0000_0000_0000_0000_0000_0000_0000nat);
    assert(0x15_0b7c_745b_36de_db48_a18e_6c1e_1a05_cc9b_c7be_a4e8_ea91nat * 0x61_a800_0000_0000_0000_0000_0000_0000_0000_0000_0000nat == 0x807_29b1_c2eb_a673_566c_e0fc_6e5b_9d46_554c_ea51_9879_bae0_2800_0000_0000_0000_0000_0000_0000_0000_0000_0000nat);
    lemma_near_above(
        0x3bdc_bb95, 0xdc_bb95, 118, 0x8000, 0x61_a800_0000_0000_0000_0000_0000_0000_0000_0000_0000nat, 19,
        33525, 0x2244_f790_bbcd,
        0x496_6456_e62e_d521_6665_2229nat,
        0x45_2c59_9066_9ca1, 0x12b0_eff6_c049_6d6d_d948_5020_9d41nat,
        0x447_29e9, 0x12_4d17_8e1a_7611, 0x14e_ee87_295f_5d0c_cec5_0de7_ad21nat,
        0x458_29e9, 0x12_dfac_1f0c_7611, 0x164_37a1_af92_0c98_4a0b_660b_ad21nat,
    );
}

/// The value 0x3bed_45c3.
proof fn lemma_at_3bed45c3()
    ensures
        chord_code(0x3bed_45c3, 0x3be5_5e8d, 0x3bed_5e8d, 0x41a3_906f, 0x41a8_0de9) == 20,
{
    reveal(chord_code);
    lemma2_to64();
    lemma2_to64_rest();
    lemma_high_powers();
    assert(0xed_5e8d * 0x1 - 0xe5_5e8d * 0x1 == 0x8_0000);
    lemma_sum_known(0x3bed_5e8d, 0x3be5_5e8d, true, 0xed_5e8d, 118, 0xe5_5e8d, 118, 0x1, 0x1, 0x8_0000, 20, 0x8_0000, 0x10);
    assert(sub_spec(0x3bed_5e8d, 0x3be5_5e8d) == 0x3980_0000);
    assert(0xed_45c3 * 0x1 - 0xe5_5e8d * 0x1 == 0x7_e736);
    lemma_sum_known(0x3bed_45c3, 0x3be5_5e8d, true, 0xed_45c3, 118, 0xe5_5e8d, 118, 0x1, 0x1, 0x7_e736, 19, 0x4_0000, 0x20);
    assert(sub_spec(0x3bed_45c3, 0x3be5_5e8d) == 0x397c_e6c0);
    assert(0xa8_0de9 * 0x1 - 0xa3_906f * 0x1 == 0x4_7d7a);
    lemma_sum_known(0x41a8_0de9, 0x41a3_906f, true, 0xa8_0de9, 130, 0xa3_906f, 130, 0x1, 0x1, 0x4_7d7a, 19, 0x4_0000, 0x20);
    assert(sub_spec(0x41a8_0de9, 0x41a3_906f) == 0x3f0f_af40);
    assert(0x8f_af40 * 0xfc_e6c0 == 0x8df2_0636_f000);
    lemma_product_known(0x3f0f_af40, 0x397c_e6c0, 0x8f_af40, 125, 0xfc_e6c0, 113, 0x8df2_0636_f000, 48, 0x8000_0000_0000, 0x100_0000);
    assert(mul_spec(0x3f0f_af40, 0x397c_e6c0) == 0x390d_f206);
    assert(0x8d_f206 * 0x1_0000_0000_0000_0000 == 0x1_1be4_0c00_0000_0000 * 0x80_0000 + 0x0);
    lemma_quotient_known(0x390d_f206, 0x3980_0000, 0x8d_f206, 113, 0x80_0000, 114, 0x1_1be4_0c00_0000_0000, 0x0, 66, 0x2_0000_0000_0000_0000, 0x400_0000_0000);
    assert(div_spec(0x390d_f206, 0x3980_0000) == 0x3f0d_f206);
    assert(0xa3_906f * 0x20 + 0x8d_f206 * 0x1 == 0x14ff_ffe6);
    lemma_sum_known(0x41a3_906f, 0x3f0d_f206, false, 0xa3_906f, 130, 0x8d_f206, 125, 0x20, 0x1, 0x14ff_ffe6, 29, 0x1000_0000, 0x20);
    assert(add_spec(0x41a3_906f, 0x3f0d_f206) == 0x41a7_ffff);
    lemma_whole_known(0x41a7_ffff, 0xa7_ffff, 130, 0x8_0000);
}

/// The value 0x3bed_45c4.
proof fn lemma_at_3bed45c4()
    ensures
        chord_code(0x3bed_45c4, 0x3be5_5e8d, 0x3bed_5e8d, 0x41a3_906f, 0x41a8_0de9) == 21,
{
    reveal(chord_code);
    lemma2_to64();
    lemma2_to64_rest();
    lemma_high_powers();
    assert(0xed_5e8d * 0x1 - 0xe5_5e8d * 0x1 == 0x8_0000);
    lemma_sum_known(0x3bed_5e8d, 0x3be5_5e8d, true, 0xed_5e8d, 118, 0xe5_5e8d, 118, 0x1, 0x1, 0x8_0000, 20, 0x8_0000, 0x10);
    assert(sub_spec(0x3bed_5e8d, 0x3be5_5e8d) == 0x3980_0000);
    assert(0xed_45c4 * 0x1 - 0xe5_5e8d * 0x1 == 0x7_e737);
    lemma_sum_known(0x3bed_45c4, 0x3be5_5e8d, true, 0xed_45c4, 118, 0xe5_5e8d, 118, 0x1, 0x1, 0x7_e737, 19, 0x4_0000, 0x20);
    assert(sub_spec(0x3bed_45c4, 0x3be5_5e8d) == 0x397c_e6e0);
    assert(0xa8_0de9 * 0x1 - 0xa3_906f * 0x1 == 0x4_7d7a);
    lemma_sum_known(0x41a8_0de9, 0x41a3_906f, true, 0xa8_0de9, 130, 0xa3_906f, 130, 0x1, 0x1, 0x4_7d7a, 19, 0x4_0000, 0x20);
    assert(sub_spec(0x41a8_0de9, 0x41a3_906f) == 0x3f0f_af40);
    assert(0x8f_af40 * 0xfc_e6e0 == 0x8df2_182c_d800);
    lemma_product_known(0x3f0f_af40, 0x397c_e6e0, 0x8f_af40, 125, 0xfc_e6e0, 113, 0x8df2_182c_d800, 48, 0x8000_0000_0000, 0x100_0000);
    assert(mul_spec(0x3f0f_af40, 0x397c_e6e0) == 0x390d_f218);
    assert(0x8d_f218 * 0x1_0000_0000_0000_0000 == 0x1_1be4_3000_0000_0000 * 0x80_0000 + 0x0);
    lemma_quotient_known(0x390d_f218, 0x3980_0000, 0x8d_f218, 113, 0x80_0000, 114, 0x1_1be4_3000_0000_0000, 0x0, 66, 0x2_0000_0000_0000_0000, 0x400_0000_0000);
    assert(div_spec(0x390d_f218, 0x3980_0000) == 0x3f0d_f218);
    assert(0xa3_906f * 0x20 + 0x8d_f218 * 0x1 == 0x14ff_fff8);
    lemma_sum_known(0x41a3_906f, 0x3f0d_f218, false, 0xa3_906f, 130, 0x8d_f218, 125, 0x20, 0x1, 0x14ff_fff8, 29, 0x1000_0000, 0x20);
    assert(add_spec(0x41a3_906f, 0x3f0d_f218) == 0x41a8_0000);
    lemma_whole_known(0x41a8_0000, 0xa8_0000, 130, 0x8_0000);
}

/// The edge of code 20.
proof fn lemma_near_20()
    ensures
        near_exact_edge(0x3bed_45c3, 20),
{
    lemma2_to64();
    lemma2_to64_rest();
    lemma_fifth_powers_of_two();
    lemma_more_fifth_powers_of_two();
    assert(34525nat * 34525 * 34525 == 0x256d_ab78_5585);
    assert(269025nat * 269025 * 269025 == 0x45_2c59_9066_9ca1);
    assert(0x256d_ab78_5585nat * 0x256d_ab78_5585 == 0x578_e28c_400b_4011_f741_9719nat);
    assert(0x578_e28c_400b_4011_f741_9719nat * 0x578_e28c_400b_4011_f741_9719nat == 0x1d_f1ee_a678_68f6_bdf3_ca22_6d2a_6f6b_0d38_33b2_51e0_8071nat);
    assert(0x45_2c59_9066_9ca1nat * 0x45_2c59_9066_9ca1 == 0x12b0_eff6_c049_6d6d_d948_5020_9d41nat);
    assert(0x12b0_eff6_c049_6d6d_d948_5020_9d41nat * 0x12b0_eff6_c049_6d6d_d948_5020_9d41nat == 0x15d_5c09_8741_6139_2178_92b9_bce5_5f46_89a2_dd05_b95f_0d00_50d8_ca81nat);
    assert(0x499_dccfnat * 0x499_dccf == 0x15_2b60_25e2_6f61);
    assert(0x15_2b60_25e2_6f61nat * 0x15_2b60_25e2_6f61 == 0x1c0_251f_a7fc_c6c3_5b3a_e1b9_42c1nat);
    assert(0x1c0_251f_a7fc_c6c3_5b3a_e1b9_42c1nat * 0x499_dccf == 0x8_0ded_38d0_9223_e863_0c15_2b5b_a383_d60fnat);
    assert(0x4aa_dccfnat * 0x4aa_dccf == 0x15_c8f0_7960_6f61);
    assert(0x15_c8f0_7960_6f61nat * 0x15_c8f0_7960_6f61 == 0x1da_952c_895c_c24e_b37d_6b35_42c1nat);
    assert(0x1da_952c_895c_c24e_b37d_6b35_42c1nat * 0x4aa_dccf == 0x8_a715_19a9_8fb1_0c0d_e6d8_f0f4_cd98_d60fnat);
    assert(0x8_0ded_38d0_9223_e863_0c15_2b5b_a383_d60fnat * 0x15d_5c09_8741_6139_2178_92b9_bce5_5f46_89a2_dd05_b95f_0d00_50d8_ca81nat == 0xafd_e1b4_737f_e012_4dc3_ae78_56b4_aec1_f189_e5fd_edca_1aae_2ed8_3d50_138c_a02a_e20a_cd10_fbbc_1554_b8fe_b38fnat);
    assert(0x8_a715_19a9_8fb1_0c0d_e6d8_f0f4_cd98_d60fnat * 0x15d_5c09_8741_6139_2178_92b9_bce5_5f46_89a2_dd05_b95f_0d00_50d8_ca81nat == 0xbce_e422_0371_9118_5f5e_f07a_168d_4db3_c06f_ed82_b5f6_aeef_8a12_d682_b448_78f9_6885_eba4_59af_946f_7f93_b38fnat);
    assert(0xc35nat * 0x800_0000_0000_0000_0000_0000_0000_0000_0000_0000nat == 0x61_a800_0000_0000_0000_0000_0000_0000_0000_0000_0000nat);
    assert(0x1d_f1ee_a678_68f6_bdf3_ca22_6d2a_6f6b_0d38_33b2_51e0_8071nat * 0x61_a800_0000_0000_0000_0000_0000_0000_0000_0000_0000nat == 0xb6c_5231_b0de_ca5f_e607_93b1_f4b8_10ae_42f8_787e_0bcb_ff1b_2800_0000_0000_0000_0000_0000_0000_0000_0000_0000nat);
    lemma_near_above(
        0x3bed_45c3, 0xed_45c3, 118, 0x8000, 0x61_a800_0000_0000_0000_0000_0000_0000_0000_0000_0000nat, 20,
        34525, 0x256d_ab78_5585,
        0x578_e28c_400b_4011_f741_9719nat,
        0x45_2c59_9066_9ca1, 0x12b0_eff6_c049_6d6d_d948_5020_9d41nat,
        0x499_dccf, 0x15_2b60_25e2_6f61, 0x1c0_251f_a7fc_c6c3_5b3a_e1b9_42c1nat,
        0x4aa_dccf, 0x15_c8f0_7960_6f61, 0x1da_952c_895c_c24e_b37d_6b35_42c1nat,
    );
}

/// The value 0x3bfe_1955.
proof fn lemma_at_3bfe1955()
    ensures
        chord_code(0x3bfe_1955, 0x3bfd_5e8d, 0x3c05_5e8d, 0x41af_a86c, 0x41b5_ed23) == 21,
{
    reveal(chord_code);
    lemma2_to64();
    lemma2_to64_rest();
    lemma_high_powers();
    assert(0x85_5e8d * 0x2 - 0xfd_5e8d * 0x1 == 0xd_5e8d);
    lemma_sum_known(0x3c05_5e8d, 0x3bfd_5e8d, true, 0x85_5e8d, 119, 0xfd_5e8d, 118, 0x2, 0x1, 0xd_5e8d, 20, 0x8_0000, 0x10);
    assert(sub_spec(0x3c05_5e8d, 0x3bfd_5e8d) == 0x39d5_e8d0);
    assert(0xfe_1955 * 0x1 - 0xfd_5e8d * 0x1 == 0xbac8);
    lemma_sum_known(0x3bfe_1955, 0x3bfd_5e8d, true, 0xfe_1955, 118, 0xfd_5e8d, 118, 0x1, 0x1, 0xbac8, 16, 0x8000, 0x100);
    assert(sub_spec(0x3bfe_1955, 0x3bfd_5e8d) == 0x37ba_c800);
    assert(0xb5_ed23 * 0x1 - 0xaf_a86c * 0x1 == 0x6_44b7);
    lemma_sum_known(0x41b5_ed23, 0x41af_a86c, true, 0xb5_ed23, 130, 0xaf_a86c, 130, 0x1, 0x1, 0x6_44b7, 19, 0x4_0000, 0x20);
    assert(sub_spec(0x41b5_ed23, 0x41af_a86c) == 0x3f48_96e0);
    assert(0xc8_96e0 * 0xba_c800 == 0x925a_549f_0000);
    lemma_product_known(0x3f48_96e0, 0x37ba_c800, 0xc8_96e0, 125, 0xba_c800, 110, 0x925a_549f_0000, 48, 0x8000_0000_0000, 0x100_0000);
    assert(mul_spec(0x3f48_96e0, 0x37ba_c800) == 0x3792_5a55);
    assert(0x92_5a55 * 0x1_0000_0000_0000_0000 == 0xaf26_83f2_eebb_cfb6 * 0xd5_e8d0 + 0xbc_4c20);
    lemma_quotient_known(0x3792_5a55, 0x39d5_e8d0, 0x92_5a55, 110, 0xd5_e8d0, 114, 0xaf26_83f2_eebb_cfb6, 0xbc_4c20, 65, 0x1_0000_0000_0000_0000, 0x200_0000_0000);
    assert(div_spec(0x3792_5a55, 0x39d5_e8d0) == 0x3d2f_2684);
    assert(0xaf_a86c * 0x200 + 0xaf_2684 * 0x1 == 0x1_5fff_fe84);
    lemma_sum_known(0x41af_a86c, 0x3d2f_2684, false, 0xaf_a86c, 130, 0xaf_2684, 121, 0x200, 0x1, 0x1_5fff_fe84, 33, 0x1_0000_0000, 0x200);
    assert(add_spec(0x41af_a86c, 0x3d2f_2684) == 0x41af_ffff);
    lemma_whole_known(0x41af_ffff, 0xaf_ffff, 130, 0x8_0000);
}

/// The value 0x3bfe_1956.
proof fn lemma_at_3bfe1956()
    ensures
        chord_code(0x3bfe_1956, 0x3bfd_5e8d, 0x3c05_5e8d, 0x41af_a86c, 0x41b5_ed23) == 22,
{
    reveal(chord_code);
    lemma2_to64();
    lemma2_to64_rest();
    lemma_high_powers();
    assert(0x85_5e8d * 0x2 - 0xfd_5e8d * 0x1 == 0xd_5e8d);
    lemma_sum_known(0x3c05_5e8d, 0x3bfd_5e8d, true, 0x85_5e8d, 119, 0xfd_5e8d, 118, 0x2, 0x1, 0xd_5e8d, 20, 0x8_0000, 0x10);
    assert(sub_spec(0x3c05_5e8d, 0x3bfd_5e8d) == 0x39d5_e8d0);
    assert(0xfe_1956 * 0x1 - 0xfd_5e8d * 0x1 == 0xbac9);
    lemma_sum_known(0x3bfe_1956, 0x3bfd_5e8d, true, 0xfe_1956, 118, 0xfd_5e8d, 118, 0x1, 0x1, 0xbac9, 16, 0x8000, 0x100);
    assert(sub_spec(0x3bfe_1956, 0x3bfd_5e8d) == 0x37ba_c900);
    assert(0xb5_ed23 * 0x1 - 0xaf_a86c * 0x1 == 0x6_44b7);
    lemma_sum_known(0x41b5_ed23, 0x41af_a86c, true, 0xb5_ed23, 130, 0xaf_a86c, 130, 0x1, 0x1, 0x6_44b7, 19, 0x4_0000, 0x20);
    assert(sub_spec(0x41b5_ed23, 0x41af_a86c) == 0x3f48_96e0);
    assert(0xc8_96e0 * 0xba_c900 == 0x925b_1d35_e000);
    lemma_product_known(0x3f48_96e0, 0x37ba_c900, 0xc8_96e0, 125, 0xba_c900, 110, 0x925b_1d35_e000, 48, 0x8000_0000_0000, 0x100_0000);
    assert(mul_spec(0x3f48_96e0, 0x37ba_c900) == 0x3792_5b1d);
    assert(0x92_5b1d * 0x1_0000_0000_0000_0000 == 0xaf27_734d_771f_5fe2 * 0xd5_e8d0 + 0x93_4860);
    lemma_quotient_known(0x3792_5b1d, 0x39d5_e8d0, 0x92_5b1d, 110, 0xd5_e8d0, 114, 0xaf27_734d_771f_5fe2, 0x93_4860, 65, 0x1_0000_0000_0000_0000, 0x200_0000_0000);
    assert(div_spec(0x3792_5b1d, 0x39d5_e8d0) == 0x3d2f_2773);
    assert(0xaf_a86c * 0x200 + 0xaf_2773 * 0x1 == 0x1_5fff_ff73);
    lemma_sum_known(0x41af_a86c, 0x3d2f_2773, false, 0xaf_a86c, 130, 0xaf_2773, 121, 0x200, 0x1, 0x1_5fff_ff73, 33, 0x1_0000_0000, 0x200);
    assert(add_spec(0x41af_a86c, 0x3d2f_2773) == 0x41b0_0000);
    lemma_whole_known(0x41b0_0000, 0xb0_0000, 130, 0x8_0000);
}

/// The edge of code 21.
proof fn lemma_near_21()
    ensures
        near_exact_edge(0x3bfe_1955, 21),
{
    lemma2_to64();
    lemma2_to64_rest();
    lemma_fifth_powers_of_two();
    lemma_more_fifth_powers_of_two();
    assert(35525nat * 35525 * 35525 == 0x28c6_9a7a_16bd);
    assert(269025nat * 269025 * 269025 == 0x45_2c59_9066_9ca1);
    assert(0x28c6_9a7a_16bdnat * 0x28c6_9a7a_16bd == 0x67e_aa59_792d_59f1_1229_0789nat);
    assert(0x67e_aa59_792d_59f1_1229_0789nat * 0x67e_aa59_792d_59f1_1229_0789nat == 0x2a_2ea8_531c_5d11_8c80_6989_96e9_de71_e1f1_3d94_ae1a_c751nat);
    assert(0x45_2c59_9066_9ca1nat * 0x45_2c59_9066_9ca1 == 0x12b0_eff6_c049_6d6d_d948_5020_9d41nat);
    assert(0x12b0_eff6_c049_6d6d_d948_5020_9d41nat * 0x12b0_eff6_c049_6d6d_d948_5020_9d41nat == 0x15d_5c09_8741_6139_2178_92b9_bce5_5f46_89a2_dd05_b95f_0d00_50d8_ca81nat);
    assert(0x4ed_fea9nat * 0x4ed_fea9 == 0x18_4d36_ca3d_cb91);
    assert(0x18_4d36_ca3d_cb91nat * 0x18_4d36_ca3d_cb91 == 0x24e_918f_ecf9_497c_af57_78f9_4821nat);
    assert(0x24e_918f_ecf9_497c_af57_78f9_4821nat * 0x4ed_fea9 == 0xb_5f4e_7c3d_2d11_c2a6_eb27_6eae_7cae_5bc9nat);
    assert(0x4fe_fea9nat * 0x4fe_fea9 == 0x18_f5f3_9caf_cb91);
    assert(0x18_f5f3_9caf_cb91nat * 0x18_f5f3_9caf_cb91 == 0x26f_09f9_92b1_7c76_b816_aa1d_4821nat);
    assert(0x26f_09f9_92b1_7c76_b816_aa1d_4821nat * 0x4fe_fea9 == 0xc_28bf_931d_8759_4953_f62b_41ed_6fa3_5bc9nat);
    assert(0xb_5f4e_7c3d_2d11_c2a6_eb27_6eae_7cae_5bc9nat * 0x15d_5c09_8741_6139_2178_92b9_bce5_5f46_89a2_dd05_b95f_0d00_50d8_ca81nat == 0xf85_04ab_eff8_b3a7_95a0_5f66_b05f_df90_68ef_294a_c0ed_6b40_29eb_f795_390b_6138_e62c_f8cf_b1a4_591a_a9e0_da49nat);
    assert(0xc_28bf_931d_8759_4953_f62b_41ed_6fa3_5bc9nat * 0x15d_5c09_8741_6139_2178_92b9_bce5_5f46_89a2_dd05_b95f_0d00_50d8_ca81nat == 0x1097_ec44_4374_4ac6_fd34_826a_6228_119a_e548_1363_6912_337d_0a79_e3d7_45e4_6d97_dd61_4632_9d4b_0640_6955_da49nat);
    assert(0xc35nat * 0x800_0000_0000_0000_0000_0000_0000_0000_0000_0000nat == 0x61_a800_0000_0000_0000_0000_0000_0000_0000_0000_0000nat);
    assert(0x2a_2ea8_531c_5d11_8c80_6989_96e9_de71_e1f1_3d94_ae1a_c751nat * 0x61_a800_0000_0000_0000_0000_0000_0000_0000_0000_0000nat == 0x1017_5c65_f449_e0b9_c0dc_4264_79a6_c321_58ae_a5bf_8a67_187e_2800_0000_0000_0000_0000_0000_0000_0000_0000_0000nat);
    lemma_near_above(
        0x3bfe_1955, 0xfe_1955, 118, 0x8000, 0x61_a800_0000_0000_0000_0000_0000_0000_0000_0000_0000nat, 21,
        35525, 0x28c6_9a7a_16bd,
        0x67e_aa59_792d_59f1_1229_0789nat,
        0x45_2c59_9066_9ca1, 0x12b0_eff6_c049_6d6d_d948_5020_9d41nat,
        0x4ed_fea9, 0x18_4d36_ca3d_cb91, 0x24e_918f_ecf9_497c_af57_78f9_4821nat,
        0x4fe_fea9, 0x18_f5f3_9caf_cb91, 0x26f_09f9_92b1_7c76_b816_aa1d_4821nat,
    );
}

/// The value 0x3c07_b3cb.
proof fn lemma_at_3c07b3cb()
    ensures
        chord_code(0x3c07_b3cb, 0x3c05_5e8d, 0x3c0d_5e8d, 0x41b5_ed23, 0x41bd_0980) == 22,
{
    reveal(chord_code);
    lemma2_to64();
    lemma2_to64_rest();
    lemma_high_powers();
    assert(0x8d_5e8d * 0x1 - 0x85_5e8d * 0x1 == 0x8_0000);
    lemma_sum_known(0x3c0d_5e8d, 0x3c05_5e8d, true, 0x8d_5e8d, 119, 0x85_5e8d, 119, 0x1, 0x1, 0x8_0000, 20, 0x8_0000, 0x10);
    assert(sub_spec(0x3c0d_5e8d, 0x3c05_5e8d) == 0x3a00_0000);
    assert(0x87_b3cb * 0x1 - 0x85_5e8d * 0x1 == 0x2_553e);
    lemma_sum_known(0x3c07_b3cb, 0x3c05_5e8d, true, 0x87_b3cb, 119, 0x85_5e8d, 119, 0x1, 0x1, 0x2_553e, 18, 0x2_0000, 0x40);
    assert(sub_spec(0x3c07_b3cb, 0x3c05_5e8d) == 0x3915_4f80);
    assert(0xbd_0980 * 0x1 - 0xb5_ed23 * 0x1 == 0x7_1c5d);
    lemma_sum_known(0x41bd_0980, 0x41b5_ed23, true, 0xbd_0980, 130, 0xb5_ed23, 130, 0x1, 0x1, 0x7_1c5d, 19, 0x4_0000, 0x20);
    assert(sub_spec(0x41bd_0980, 0x41b5_ed23) == 0x3f63_8ba0);
    assert(0xe3_8ba0 * 0x95_4f80 == 0x84b6_edfc_3000);
    lemma_product_known(0x3f63_8ba0, 0x3915_4f80, 0xe3_8ba0, 125, 0x95_4f80, 113, 0x84b6_edfc_3000, 48, 0x8000_0000_0000, 0x100_0000);
    assert(mul_spec(0x3f63_8ba0, 0x3915_4f80) == 0x3904_b6ee);
    assert(0x84_b6ee * 0x1_0000_0000_0000_0000 == 0x1_096d_dc00_0000_0000 * 0x80_0000 + 0x0);
    lemma_quotient_known(0x3904_b6ee, 0x3a00_0000, 0x84_b6ee, 113, 0x80_0000, 115, 0x1_096d_dc00_0000_0000, 0x0, 66, 0x2_0000_0000_0000_0000, 0x400_0000_0000);
    assert(div_spec(0x3904_b6ee, 0x3a00_0000) == 0x3e84_b6ee);
    assert(0xb5_ed23 * 0x40 + 0x84_b6ee * 0x1 == 0x2dff_ffae);
    lemma_sum_known(0x41b5_ed23, 0x3e84_b6ee, false, 0xb5_ed23, 130, 0x84_b6ee, 124, 0x40, 0x1, 0x2dff_ffae, 30, 0x2000_0000, 0x40);
    assert(add_spec(0x41b5_ed23, 0x3e84_b6ee) == 0x41b7_ffff);
    lemma_whole_known(0x41b7_ffff, 0xb7_ffff, 130, 0x8_0000);
}

/// The value 0x3c07_b3cc.
proof fn lemma_at_3c07b3cc()
    ensures
        chord_code(0x3c07_b3cc, 0x3c05_5e8d, 0x3c0d_5e8d, 0x41b5_ed23, 0x41bd_0980) == 23,
{
    reveal(chord_code);
    lemma2_to64();
    lemma2_to64_rest();
    lemma_high_powers();
    assert(0x8d_5e8d * 0x1 - 0x85_5e8d * 0x1 == 0x8_0000);
    lemma_sum_known(0x3c0d_5e8d, 0x3c05_5e8d, true, 0x8d_5e8d, 119, 0x85_5e8d, 119, 0x1, 0x1, 0x8_0000, 20, 0x8_0000, 0x10);
    assert(sub_spec(0x3c0d_5e8d, 0x3c05_5e8d) == 0x3a00_0000);
    assert(0x87_b3cc * 0x1 - 0x85_5e8d * 0x1 == 0x2_553f);
    lemma_sum_known(0x3c07_b3cc, 0x3c05_5e8d, true, 0x87_b3cc, 119, 0x85_5e8d, 119, 0x1, 0x1, 0x2_553f, 18, 0x2_0000, 0x40);
    assert(sub_spec(0x3c07_b3cc, 0x3c05_5e8d) == 0x3915_4fc0);
    assert(0xbd_0980 * 0x1 - 0xb5_ed23 * 0x1 == 0x7_1c5d);
    lemma_sum_known(0x41bd_0980, 0x41b5_ed23, true, 0xbd_0980, 130, 0xb5_ed23, 130, 0x1, 0x1, 0x7_1c5d, 19, 0x4_0000, 0x20);
    assert(sub_spec(0x41bd_0980, 0x41b5_ed23) == 0x3f63_8ba0);
    assert(0xe3_8ba0 * 0x95_4fc0 == 0x84b7_26df_1800);
    lemma_product_known(0x3f63_8ba0, 0x3915_4fc0, 0xe3_8ba0, 125, 0x95_4fc0, 113, 0x84b7_26df_1800, 48, 0x8000_0000_0000, 0x100_0000);
    assert(mul_spec(0x3f63_8ba0, 0x3915_4fc0) == 0x3904_b727);
    assert(0x84_b727 * 0x1_0000_0000_0000_0000 == 0x1_096e_4e00_0000_0000 * 0x80_0000 + 0x0);
    lemma_quotient_known(0x3904_b727, 0x3a00_0000, 0x84_b727, 113, 0x80_0000, 115, 0x1_096e_4e00_0000_0000, 0x0, 66, 0x2_0000_0000_0000_0000, 0x400_0000_0000);
    assert(div_spec(0x3904_b727, 0x3a00_0000) == 0x3e84_b727);
    assert(0xb5_ed23 * 0x40 + 0x84_b727 * 0x1 == 0x2dff_ffe7);
    lemma_sum_known(0x41b5_ed23, 0x3e84_b727, false, 0xb5_ed23, 130, 0x84_b727, 124, 0x40, 0x1, 0x2dff_ffe7, 30, 0x2000_0000, 0x40);
    assert(add_spec(0x41b5_ed23, 0x3e84_b727) == 0x41b8_0000);
    lemma_whole_known(0x41b8_0000, 0xb8_0000, 130, 0x8_0000);
}

/// The edge of code 22.
proof fn lemma_near_22()
    ensures
        near_exact_edge(0x3c07_b3cb, 22),
{
    lemma2_to64();
    lemma2_to64_rest();
    lemma_fifth_powers_of_two();
    lemma_more_fifth_powers_of_two();
    assert(36525nat * 36525 * 36525 == 0x2c51_2a36_bb75);
    assert(269025nat * 269025 * 269025 == 0x45_2c59_9066_9ca1);
    assert(0x2c51_2a36_bb75nat * 0x2c51_2a36_bb75 == 0x7ac_003e_8e08_d940_02a0_2379nat);
    assert(0x7ac_003e_8e08_d940_02a0_2379nat * 0x7ac_003e_8e08_d940_02a0_2379nat == 0x3a_db93_bfd3_670e_893f_5572_dd70_946d_3fcb_c33a_402a_4f31nat);
    assert(0x45_2c59_9066_9ca1nat * 0x45_2c59_9066_9ca1 == 0x12b0_eff6_c049_6d6d_d948_5020_9d41nat);
    assert(0x12b0_eff6_c049_6d6d_d948_5020_9d41nat * 0x12b0_eff6_c049_6d6d_d948_5020_9d41nat == 0x15d_5c09_8741_6139_2178_92b9_bce5_5f46_89a2_dd05_b95f_0d00_50d8_ca81nat);
    assert(0x2a2_42f7nat * 0x2a2_42f7 == 0x6_efe4_ae20_4a51);
    assert(0x6_efe4_ae20_4a51nat * 0x6_efe4_ae20_4a51 == 0x30_1f84_f2ea_6683_8760_c5d2_eda1nat);
    assert(0x30_1f84_f2ea_6683_8760_c5d2_eda1nat * 0x2a2_42f7 == 0x7ebf_9296_3d08_b4e1_3e97_66b4_e1a8_c857nat);
    assert(0x2aa_c2f7nat * 0x2aa_c2f7 == 0x7_1cf3_6087_4a51);
    assert(0x7_1cf3_6087_4a51nat * 0x7_1cf3_6087_4a51 == 0x32_9895_6be4_0dec_8d02_3700_eda1nat);
    assert(0x32_9895_6be4_0dec_8d02_3700_eda1nat * 0x2aa_c2f7 == 0x86f1_0683_e17b_03c6_59fe_434a_d4e3_4857nat);
    assert(0x7ebf_9296_3d08_b4e1_3e97_66b4_e1a8_c857nat * 0x15d_5c09_8741_6139_2178_92b9_bce5_5f46_89a2_dd05_b95f_0d00_50d8_ca81nat == 0xac_f8bc_6732_bf2a_2f7b_ae54_855b_33fd_d855_077a_7f34_0dcb_07ba_cc23_2936_0e78_996f_eb4c_f9ee_0b39_1d89_99d7nat);
    assert(0x86f1_0683_e17b_03c6_59fe_434a_d4e3_4857nat * 0x15d_5c09_8741_6139_2178_92b9_bce5_5f46_89a2_dd05_b95f_0d00_50d8_ca81nat == 0xb8_2719_85e6_9540_ec42_4522_1220_cbf4_7407_75d4_2279_1c51_f83b_9937_ec52_9479_856c_5ea7_65d9_0610_d704_19d7nat);
    assert(0xc35nat * 0x40_0000_0000_0000_0000_0000_0000_0000_0000_0000nat == 0x3_0d40_0000_0000_0000_0000_0000_0000_0000_0000_0000nat);
    assert(0x3a_db93_bfd3_670e_893f_5572_dd70_946d_3fcb_c33a_402a_4f31nat * 0x3_0d40_0000_0000_0000_0000_0000_0000_0000_0000_0000nat == 0xb3_9e98_a527_e641_1c58_8784_ca47_d0f6_66f0_9589_8451_1e2c_4940_0000_0000_0000_0000_0000_0000_0000_0000_0000nat);
    lemma_near_above(
        0x3c07_b3cb, 0x87_b3cb, 119, 0x4000, 0x3_0d40_0000_0000_0000_0000_0000_0000_0000_0000_0000nat, 22,
        36525, 0x2c51_2a36_bb75,
        0x7ac_003e_8e08_d940_02a0_2379nat,
        0x45_2c59_9066_9ca1, 0x12b0_eff6_c049_6d6d_d948_5020_9d41nat,
        0x2a2_42f7, 0x6_efe4_ae20_4a51, 0x30_1f84_f2ea_6683_8760_c5d2_eda1nat,
        0x2aa_c2f7, 0x7_1cf3_6087_4a51, 0x32_9895_6be4_0dec_8d02_3700_eda1nat,
    );
}

/// The value 0x3c10_aa88.
proof fn lemma_at_3c10aa88()
    ensures
        chord_code(0x3c10_aa88, 0x3c0d_5e8d, 0x3c15_5e8d, 0x41bd_0980, 0x41c4_3a11) == 23,
{
    reveal(chord_code);
    lemma2_to64();
    lemma2_to64_rest();
    lemma_high_powers();
    assert(0x95_5e8d * 0x1 - 0x8d_5e8d * 0x1 == 0x8_0000);
    lemma_sum_known(0x3c15_5e8d, 0x3c0d_5e8d, true, 0x95_5e8d, 119, 0x8d_5e8d, 119, 0x1, 0x1, 0x8_0000, 20, 0x8_0000, 0x10);
    assert(sub_spec(0x3c15_5e8d, 0x3c0d_5e8d) == 0x3a00_0000);
    assert(0x90_aa88 * 0x1 - 0x8d_5e8d * 0x1 == 0x3_4bfb);
    lemma_sum_known(0x3c10_aa88, 0x3c0d_5e8d, true, 0x90_aa88, 119, 0x8d_5e8d, 119, 0x1, 0x1, 0x3_4bfb, 18, 0x2_0000, 0x40);
    assert(sub_spec(0x3c10_aa88, 0x3c0d_5e8d) == 0x3952_fec0);
    assert(0xc4_3a11 * 0x1 - 0xbd_0980 * 0x1 == 0x7_3091);
    lemma_sum_known(0x41c4_3a11, 0x41bd_0980, true, 0xc4_3a11, 130, 0xbd_0980, 130, 0x1, 0x1, 0x7_3091, 19, 0x4_0000, 0x20);
    assert(sub_spec(0x41c4_3a11, 0x41bd_0980) == 0x3f66_1220);
    assert(0xe6_1220 * 0xd2_fec0 == 0xbd9f_d0c9_5800);
    lemma_product_known(0x3f66_1220, 0x3952_fec0, 0xe6_1220, 125, 0xd2_fec0, 113, 0xbd9f_d0c9_5800, 48, 0x8000_0000_0000, 0x100_0000);
    assert(mul_spec(0x3f66_1220, 0x3952_fec0) == 0x393d_9fd1);
    assert(0xbd_9fd1 * 0x1_0000_0000_0000_0000 == 0x1_7b3f_a200_0000_0000 * 0x80_0000 + 0x0);
    lemma_quotient_known(0x393d_9fd1, 0x3a00_0000, 0xbd_9fd1, 113, 0x80_0000, 115, 0x1_7b3f_a200_0000_0000, 0x0, 66, 0x2_0000_0000_0000_0000, 0x400_0000_0000);
    assert(div_spec(0x393d_9fd1, 0x3a00_0000) == 0x3ebd_9fd1);
    assert(0xbd_0980 * 0x40 + 0xbd_9fd1 * 0x1 == 0x2fff_ffd1);
    lemma_sum_known(0x41bd_0980, 0x3ebd_9fd1, false, 0xbd_0980, 130, 0xbd_9fd1, 124, 0x40, 0x1, 0x2fff_ffd1, 30, 0x2000_0000, 0x40);
    assert(add_spec(0x41bd_0980, 0x3ebd_9fd1) == 0x41bf_ffff);
    lemma_whole_known(0x41bf_ffff, 0xbf_ffff, 130, 0x8_0000);
}

/// The value 0x3c10_aa89.
proof fn lemma_at_3c10aa89()
    ensures
        chord_code(0x3c10_aa89, 0x3c0d_5e8d, 0x3c15_5e8d, 0x41bd_0980, 0x41c4_3a11) == 24,
{
    reveal(chord_code);
    lemma2_to64();
    lemma2_to64_rest();
    lemma_high_powers();
    assert(0x95_5e8d * 0x1 - 0x8d_5e8d * 0x1 == 0x8_0000);
    lemma_sum_known(0x3c15_5e8d, 0x3c0d_5e8d, true, 0x95_5e8d, 119, 0x8d_5e8d, 119, 0x1, 0x1, 0x8_0000, 20, 0x8_0000, 0x10);
    assert(sub_spec(0x3c15_5e8d, 0x3c0d_5e8d) == 0x3a00_0000);
    assert(0x90_aa89 * 0x1 - 0x8d_5e8d * 0x1 == 0x3_4bfc);
    lemma_sum_known(0x3c10_aa89, 0x3c0d_5e8d, true, 0x90_aa89, 119, 0x8d_5e8d, 119, 0x1, 0x1, 0x3_4bfc, 18, 0x2_0000, 0x40);
    assert(sub_spec(0x3c10_aa89, 0x3c0d_5e8d) == 0x3952_ff00);
    assert(0xc4_3a11 * 0x1 - 0xbd_0980 * 0x1 == 0x7_3091);
    lemma_sum_known(0x41c4_3a11, 0x41bd_0980, true, 0xc4_3a11, 130, 0xbd_0980, 130, 0x1, 0x1, 0x7_3091, 19, 0x4_0000, 0x20);
    assert(sub_spec(0x41c4_3a11, 0x41bd_0980) == 0x3f66_1220);
    assert(0xe6_1220 * 0xd2_ff00 == 0xbda0_0a4d_e000);
    lemma_product_known(0x3f66_1220, 0x3952_ff00, 0xe6_1220, 125, 0xd2_ff00, 113, 0xbda0_0a4d_e000, 48, 0x8000_0000_0000, 0x100_0000);
    assert(mul_spec(0x3f66_1220, 0x3952_ff00) == 0x393d_a00a);
    assert(0xbd_a00a * 0x1_0000_0000_0000_0000 == 0x1_7b40_1400_0000_0000 * 0x80_0000 + 0x0);
    lemma_quotient_known(0x393d_a00a, 0x3a00_0000, 0xbd_a00a, 113, 0x80_0000, 115, 0x1_7b40_1400_0000_0000, 0x0, 66, 0x2_0000_0000_0000_0000, 0x400_0000_0000);
    assert(div_spec(0x393d_a00a, 0x3a00_0000) == 0x3ebd_a00a);
    assert(0xbd_0980 * 0x40 + 0xbd_a00a * 0x1 == 0x3000_000a);
    lemma_sum_known(0x41bd_0980, 0x3ebd_a00a, false, 0xbd_0980, 130, 0xbd_a00a, 124, 0x40, 0x1, 0x3000_000a, 30, 0x2000_0000, 0x40);
    assert(add_spec(0x41bd_0980, 0x3ebd_a00a) == 0x41c0_0000);
    lemma_whole_known(0x41c0_0000, 0xc0_0000, 130, 0x8_0000);
}

/// The edge of code 23.
proof fn lemma_near_23()
    ensures
        near_exact_edge(0x3c10_aa88, 23),
{
    lemma2_to64();
    lemma2_to64_rest();
    lemma_fifth_powers_of_two();
    lemma_more_fifth_powers_of_two();
    assert(37525nat * 37525 * 37525 == 0x300e_c04e_ffad);
    assert(269025nat * 269025 * 269025 == 0x45_2c59_9066_9ca1);
    assert(0x300e_c04e_ffadnat * 0x300e_c04e_ffad == 0x905_88f7_38fb_6ed0_4cc6_1ae9nat);
    assert(0x905_88f7_38fb_6ed0_4cc6_1ae9nat * 0x905_88f7_38fb_6ed0_4cc6_1ae9nat == 0x51_63c0_04f1_82e7_2125_0c95_affe_6153_ccf8_2fe7_fb40_2811nat);
    assert(0x45_2c59_9066_9ca1nat * 0x45_2c59_9066_9ca1 == 0x12b0_eff6_c049_6d6d_d948_5020_9d41nat);
    assert(0x12b0_eff6_c049_6d6d_d948_5020_9d41nat * 0x12b0_eff6_c049_6d6d_d948_5020_9d41nat == 0x15d_5c09_8741_6139_2178_92b9_bce5_5f46_89a2_dd05_b95f_0d00_50d8_ca81nat);
    assert(0x2cf_14a8nat * 0x2cf_14a8 == 0x7_e3d5_095a_ae40);
    assert(0x7_e3d5_095a_ae40nat * 0x7_e3d5_095a_ae40 == 0x3e_406a_02d4_e9c2_f6df_7b9b_1000nat);
    assert(0x3e_406a_02d4_e9c2_f6df_7b9b_1000nat * 0x2cf_14a8 == 0xaedb_efa0_81c7_0890_00e7_a0d3_2b02_8000nat);
    assert(0x2d7_94a8nat * 0x2d7_94a8 == 0x8_13dd_a882_ae40);
    assert(0x8_13dd_a882_ae40nat * 0x8_13dd_a882_ae40 == 0x41_3f65_2f1a_aa6a_21e9_6f9b_1000nat);
    assert(0x41_3f65_2f1a_aa6a_21e9_6f9b_1000nat * 0x2d7_94a8 == 0xb970_ebd0_de5c_476b_7f2d_2711_5302_8000nat);
    assert(0xaedb_efa0_81c7_0890_00e7_a0d3_2b02_8000nat * 0x15d_5c09_8741_6139_2178_92b9_bce5_5f46_89a2_dd05_b95f_0d00_50d8_ca81nat == 0xee_a0b3_3a0c_ab3c_9b36_1354_4303_6883_f730_7119_7493_122f_c9ef_1c96_4b9c_2073_b6ff_1495_89bb_bc74_a542_8000nat);
    assert(0xb970_ebd0_de5c_476b_7f2d_2711_5302_8000nat * 0x15d_5c09_8741_6139_2178_92b9_bce5_5f46_89a2_dd05_b95f_0d00_50d8_ca81nat == 0xfd_119c_f770_6682_897e_2f81_a9b5_3d75_c88a_953e_a44f_a897_c163_acf4_3e4b_f669_ce3f_3777_b7a3_2d56_cd42_8000nat);
    assert(0xc35nat * 0x40_0000_0000_0000_0000_0000_0000_0000_0000_0000nat == 0x3_0d40_0000_0000_0000_0000_0000_0000_0000_0000_0000nat);
    assert(0x51_63c0_04f1_82e7_2125_0c95_affe_6153_ccf8_2fe7_fb40_2811nat * 0x3_0d40_0000_0000_0000_0000_0000_0000_0000_0000_0000nat == 0xf8_61a9_bf16_08bb_d9e6_50a7_cf57_0e84_fd44_6832_b381_8a45_e140_0000_0000_0000_0000_0000_0000_0000_0000_0000nat);
    lemma_near_above(
        0x3c10_aa88, 0x90_aa88, 119, 0x4000, 0x3_0d40_0000_0000_0000_0000_0000_0000_0000_0000_0000nat, 23,
        37525, 0x300e_c04e_ffad,
        0x905_88f7_38fb_6ed0_4cc6_1ae9nat,
        0x45_2c59_9066_9ca1, 0x12b0_eff6_c049_6d6d_d948_5020_9d41nat,
        0x2cf_14a8, 0x7_e3d5_095a_ae40, 0x3e_406a_02d4_e9c2_f6df_7b9b_1000nat,
        0x2d7_94a8, 0x8_13dd_a882_ae40, 0x41_3f65_2f1a_aa6a_21e9_6f9b_1000nat,
    );
}

/// The value 0x3c19_fd5d.
proof fn lemma_at_3c19fd5d()
    ensures
        chord_code(0x3c19_fd5d, 0x3c15_5e8d, 0x3c1d_5e8d, 0x41c4_3a11, 0x41ca_c28a) == 24,
{
    reveal(chord_code);
    lemma2_to64();
    lemma2_to64_rest();
    lemma_high_powers();
    assert(0x9d_5e8d * 0x1 - 0x95_5e8d * 0x1 == 0x8_0000);
    lemma_sum_known(0x3c1d_5e8d, 0x3c15_5e8d, true, 0x9d_5e8d, 119, 0x95_5e8d, 119, 0x1, 0x1, 0x8_0000, 20, 0x8_0000, 0x10);
    assert(sub_spec(0x3c1d_5e8d, 0x3c15_5e8d) == 0x3a00_0000);
    assert(0x99_fd5d * 0x1 - 0x95_5e8d * 0x1 == 0x4_9ed0);
    lemma_sum_known(0x3c19_fd5d, 0x3c15_5e8d, true, 0x99_fd5d, 119, 0x95_5e8d, 119, 0x1, 0x1, 0x4_9ed0, 19, 0x4_0000, 0x20);
    assert(sub_spec(0x3c19_fd5d, 0x3c15_5e8d) == 0x3993_da00);
    assert(0xca_c28a * 0x1 - 0xc4_3a11 * 0x1 == 0x6_8879);
    lemma_sum_known(0x41ca_c28a, 0x41c4_3a11, true, 0xca_c28a, 130, 0xc4_3a11, 130, 0x1, 0x1, 0x6_8879, 19, 0x4_0000, 0x20);
    assert(sub_spec(0x41ca_c28a, 0x41c4_3a11) == 0x3f51_0f20);
    assert(0xd1_0f20 * 0x93_da00 == 0x78bd_b641_4000);
    lemma_product_known(0x3f51_0f20, 0x3993_da00, 0xd1_0f20, 125, 0x93_da00, 114, 0x78bd_b641_4000, 47, 0x4000_0000_0000, 0x80_0000);
    assert(mul_spec(0x3f51_0f20, 0x3993_da00) == 0x3971_7b6d);
    assert(0xf1_7b6d * 0x1_0000_0000_0000_0000 == 0x1_e2f6_da00_0000_0000 * 0x80_0000 + 0x0);
    lemma_quotient_known(0x3971_7b6d, 0x3a00_0000, 0xf1_7b6d, 113, 0x80_0000, 115, 0x1_e2f6_da00_0000_0000, 0x0, 66, 0x2_0000_0000_0000_0000, 0x400_0000_0000);
    assert(div_spec(0x3971_7b6d, 0x3a00_0000) == 0x3ef1_7b6d);
    assert(0xc4_3a11 * 0x40 + 0xf1_7b6d * 0x1 == 0x31ff_ffad);
    lemma_sum_known(0x41c4_3a11, 0x3ef1_7b6d, false, 0xc4_3a11, 130, 0xf1_7b6d, 124, 0x40, 0x1, 0x31ff_ffad, 30, 0x2000_0000, 0x40);
    assert(add_spec(0x41c4_3a11, 0x3ef1_7b6d) == 0x41c7_ffff);
    lemma_whole_known(0x41c7_ffff, 0xc7_ffff, 130, 0x8_0000);
}

/// The value 0x3c19_fd5e.
proof fn lemma_at_3c19fd5e()
    ensures
        chord_code(0x3c19_fd5e, 0x3c15_5e8d, 0x3c1d_5e8d, 0x41c4_3a11, 0x41ca_c28a) == 25,
{
    reveal(chord_code);
    lemma2_to64();
    lemma2_to64_rest();
    lemma_high_powers();
    assert(0x9d_5e8d * 0x1 - 0x95_5e8d * 0x1 == 0x8_0000);
    lemma_sum_known(0x3c1d_5e8d, 0x3c15_5e8d, true, 0x9d_5e8d, 119, 0x95_5e8d, 119, 0x1, 0x1, 0x8_0000, 20, 0x8_0000, 0x10);
    assert(sub_spec(0x3c1d_5e8d, 0x3c15_5e8d) == 0x3a00_0000);
    assert(0x99_fd5e * 0x1 - 0x95_5e8d * 0x1 == 0x4_9ed1);
    lemma_sum_known(0x3c19_fd5e, 0x3c15_5e8d, true, 0x99_fd5e, 119, 0x95_5e8d, 119, 0x1, 0x1, 0x4_9ed1, 19, 0x4_0000, 0x20);
    assert(sub_spec(0x3c19_fd5e, 0x3c15_5e8d) == 0x3993_da20);
    assert(0xca_c28a * 0x1 - 0xc4_3a11 * 0x1 == 0x6_8879);
    lemma_sum_known(0x41ca_c28a, 0x41c4_3a11, true, 0xca_c28a, 130, 0xc4_3a11, 130, 0x1, 0x1, 0x6_8879, 19, 0x4_0000, 0x20);
    assert(sub_spec(0x41ca_c28a, 0x41c4_3a11) == 0x3f51_0f20);
    assert(0xd1_0f20 * 0x93_da20 == 0x78bd_d063_2400);
    lemma_product_known(0x3f51_0f20, 0x3993_da20, 0xd1_0f20, 125, 0x93_da20, 114, 0x78bd_d063_2400, 47, 0x4000_0000_0000, 0x80_0000);
    assert(mul_spec(0x3f51_0f20, 0x3993_da20) == 0x3971_7ba1);
    assert(0xf1_7ba1 * 0x1_0000_0000_0000_0000 == 0x1_e2f7_4200_0000_0000 * 0x80_0000 + 0x0);
    lemma_quotient_known(0x3971_7ba1, 0x3a00_0000, 0xf1_7ba1, 113, 0x80_0000, 115, 0x1_e2f7_4200_0000_0000, 0x0, 66, 0x2_0000_0000_0000_0000, 0x400_0000_0000);
    assert(div_spec(0x3971_7ba1, 0x3a00_0000) == 0x3ef1_7ba1);
    assert(0xc4_3a11 * 0x40 + 0xf1_7ba1 * 0x1 == 0x31ff_ffe1);
    lemma_sum_known(0x41c4_3a11, 0x3ef1_7ba1, false, 0xc4_3a11, 130, 0xf1_7ba1, 124, 0x40, 0x1, 0x31ff_ffe1, 30, 0x2000_0000, 0x40);
    assert(add_spec(0x41c4_3a11, 0x3ef1_7ba1) == 0x41c8_0000);
    lemma_whole_known(0x41c8_0000, 0xc8_0000, 130, 0x8_0000);
}

/// The edge of code 24.
proof fn lemma_near_24()
    ensures
        near_exact_edge(0x3c19_fd5d, 24),
{
    lemma2_to64();
    lemma2_to64_rest();
    lemma_fifth_powers_of_two();
    lemma_more_fifth_powers_of_two();
    assert(38525nat * 38525 * 38525 == 0x3400_c263_9f65);
    assert(269025nat * 269025 * 269025 == 0x45_2c59_9066_9ca1);
    assert(0x3400_c263_9f65nat * 0x3400_c263_9f65 == 0xa90_4ef9_0c5c_2c59_bf5c_9dd9nat);
    assert(0xa90_4ef9_0c5c_2c59_bf5c_9dd9nat * 0xa90_4ef9_0c5c_2c59_bf5c_9dd9nat == 0x6f_9784_6581_d0fa_1ed8_4111_8c9c_7ebe_3fab_aded_a34b_e1f1nat);
    assert(0x45_2c59_9066_9ca1nat * 0x45_2c59_9066_9ca1 == 0x12b0_eff6_c049_6d6d_d948_5020_9d41nat);
    assert(0x12b0_eff6_c049_6d6d_d948_5020_9d41nat * 0x12b0_eff6_c049_6d6d_d948_5020_9d41nat == 0x15d_5c09_8741_6139_2178_92b9_bce5_5f46_89a2_dd05_b95f_0d00_50d8_ca81nat);
    assert(0x2fd_b2d1nat * 0x2fd_b2d1 == 0x8_f236_3201_4ea1);
    assert(0x8_f236_3201_4ea1nat * 0x8_f236_3201_4ea1 == 0x50_088d_a218_850a_12a4_9968_8141nat);
    assert(0x50_088d_a218_850a_12a4_9968_8141nat * 0x2fd_b2d1 == 0xef61_7686_d99b_f19f_540e_1856_276d_b811nat);
    assert(0x306_32d1nat * 0x306_32d1 == 0x9_2557_51e2_4ea1);
    assert(0x9_2557_51e2_4ea1nat * 0x9_2557_51e2_4ea1 == 0x53_a596_1d5d_b40e_f93e_ce6a_8141nat);
    assert(0x53_a596_1d5d_b40e_f93e_ce6a_8141nat * 0x306_32d1 == 0xfcf7_3e7e_4a98_abf0_80cb_d69a_1cb8_3811nat);
    assert(0xef61_7686_d99b_f19f_540e_1856_276d_b811nat * 0x15d_5c09_8741_6139_2178_92b9_bce5_5f46_89a2_dd05_b95f_0d00_50d8_ca81nat == 0x146_adee_8555_d2b3_a66d_a0ae_50ac_3ca1_97fe_49cf_86ee_b563_837f_a693_59fa_1922_6f70_5e2d_18f9_a99f_0fdf_2a91nat);
    assert(0xfcf7_3e7e_4a98_abf0_80cb_d69a_1cb8_3811nat * 0x15d_5c09_8741_6139_2178_92b9_bce5_5f46_89a2_dd05_b95f_0d00_50d8_ca81nat == 0x159_3802_76f9_442f_7e3d_4b63_674c_bee6_ff0e_cef5_e448_07dc_62c3_89b5_bb58_bd58_d160_2a8a_6b36_6846_7369_aa91nat);
    assert(0xc35nat * 0x40_0000_0000_0000_0000_0000_0000_0000_0000_0000nat == 0x3_0d40_0000_0000_0000_0000_0000_0000_0000_0000_0000nat);
    assert(0x6f_9784_6581_d0fa_1ed8_4111_8c9c_7ebe_3fab_aded_a34b_e1f1nat * 0x3_0d40_0000_0000_0000_0000_0000_0000_0000_0000_0000nat == 0x154_8d24_cac6_6aff_4ea1_7492_ce5c_95ca_17ce_ac89_7697_5344_b940_0000_0000_0000_0000_0000_0000_0000_0000_0000nat);
    lemma_near_above(
        0x3c19_fd5d, 0x99_fd5d, 119, 0x4000, 0x3_0d40_0000_0000_0000_0000_0000_0000_0000_0000_0000nat, 24,
        38525, 0x3400_c263_9f65,
        0xa90_4ef9_0c5c_2c59_bf5c_9dd9nat,
        0x45_2c59_9066_9ca1, 0x12b0_eff6_c049_6d6d_d948_5020_9d41nat,
        0x2fd_b2d1, 0x8_f236_3201_4ea1, 0x50_088d_a218_850a_12a4_9968_8141nat,
        0x306_32d1, 0x9_2557_51e2_4ea1, 0x53_a596_1d5d_b40e_f93e_ce6a_8141nat,
    );
}

/// The value 0x3c23_df6e.
proof fn lemma_at_3c23df6e()
    ensures
        chord_code(0x3c23_df6e, 0x3c1d_5e8d, 0x3c25_5e8d, 0x41ca_c28a, 0x41d1_34b1) == 25,
{
    reveal(chord_code);
    lemma2_to64();
    lemma2_to64_rest();
    lemma_high_powers();
    assert(0xa5_5e8d * 0x1 - 0x9d_5e8d * 0x1 == 0x8_0000);
    lemma_sum_known(0x3c25_5e8d, 0x3c1d_5e8d, true, 0xa5_5e8d, 119, 0x9d_5e8d, 119, 0x1, 0x1, 0x8_0000, 20, 0x8_0000, 0x10);
    assert(sub_spec(0x3c25_5e8d, 0x3c1d_5e8d) == 0x3a00_0000);
    assert(0xa3_df6e * 0x1 - 0x9d_5e8d * 0x1 == 0x6_80e1);
    lemma_sum_known(0x3c23_df6e, 0x3c1d_5e8d, true, 0xa3_df6e, 119, 0x9d_5e8d, 119, 0x1, 0x1, 0x6_80e1, 19, 0x4_0000, 0x20);
    assert(sub_spec(0x3c23_df6e, 0x3c1d_5e8d) == 0x39d0_1c20);
    assert(0xd1_34b1 * 0x1 - 0xca_c28a * 0x1 == 0x6_7227);
    lemma_sum_known(0x41d1_34b1, 0x41ca_c28a, true, 0xd1_34b1, 130, 0xca_c28a, 130, 0x1, 0x1, 0x6_7227, 19, 0x4_0000, 0x20);
    assert(sub_spec(0x41d1_34b1, 0x41ca_c28a) == 0x3f4e_44e0);
    assert(0xce_44e0 * 0xd0_1c20 == 0xa7ae_9f51_1c00);
    lemma_product_known(0x3f4e_44e0, 0x39d0_1c20, 0xce_44e0, 125, 0xd0_1c20, 114, 0xa7ae_9f51_1c00, 48, 0x8000_0000_0000, 0x100_0000);
    assert(mul_spec(0x3f4e_44e0, 0x39d0_1c20) == 0x39a7_ae9f);
    assert(0xa7_ae9f * 0x1_0000_0000_0000_0000 == 0x1_4f5d_3e00_0000_0000 * 0x80_0000 + 0x0);
    lemma_quotient_known(0x39a7_ae9f, 0x3a00_0000, 0xa7_ae9f, 114, 0x80_0000, 115, 0x1_4f5d_3e00_0000_0000, 0x0, 66, 0x2_0000_0000_0000_0000, 0x400_0000_0000);
    assert(div_spec(0x39a7_ae9f, 0x3a00_0000) == 0x3f27_ae9f);
    assert(0xca_c28a * 0x20 + 0xa7_ae9f * 0x1 == 0x19ff_ffdf);
    lemma_sum_known(0x41ca_c28a, 0x3f27_ae9f, false, 0xca_c28a, 130, 0xa7_ae9f, 125, 0x20, 0x1, 0x19ff_ffdf, 29, 0x1000_0000, 0x20);
    assert(add_spec(0x41ca_c28a, 0x3f27_ae9f) == 0x41cf_ffff);
    lemma_whole_known(0x41cf_ffff, 0xcf_ffff, 130, 0x8_0000);
}

/// The value 0x3c23_df6f.
proof fn lemma_at_3c23df6f()
    ensures
        chord_code(0x3c23_df6f, 0x3c1d_5e8d, 0x3c25_5e8d, 0x41ca_c28a, 0x41d1_34b1) == 26,
{
    reveal(chord_code);
    lemma2_to64();
    lemma2_to64_rest();
    lemma_high_powers();
    assert(0xa5_5e8d * 0x1 - 0x9d_5e8d * 0x1 == 0x8_0000);
    lemma_sum_known(0x3c25_5e8d, 0x3c1d_5e8d, true, 0xa5_5e8d, 119, 0x9d_5e8d, 119, 0x1, 0x1, 0x8_0000, 20, 0x8_0000, 0x10);
    assert(sub_spec(0x3c25_5e8d, 0x3c1d_5e8d) == 0x3a00_0000);
    assert(0xa3_df6f * 0x1 - 0x9d_5e8d * 0x1 == 0x6_80e2);
    lemma_sum_known(0x3c23_df6f, 0x3c1d_5e8d, true, 0xa3_df6f, 119, 0x9d_5e8d, 119, 0x1, 0x1, 0x6_80e2, 19, 0x4_0000, 0x20);
    assert(sub_spec(0x3c23_df6f, 0x3c1d_5e8d) == 0x39d0_1c40);
    assert(0xd1_34b1 * 0x1 - 0xca_c28a * 0x1 == 0x6_7227);
    lemma_sum_known(0x41d1_34b1, 0x41ca_c28a, true, 0xd1_34b1, 130, 0xca_c28a, 130, 0x1, 0x1, 0x6_7227, 19, 0x4_0000, 0x20);
    assert(sub_spec(0x41d1_34b1, 0x41ca_c28a) == 0x3f4e_44e0);
    assert(0xce_44e0 * 0xd0_1c40 == 0xa7ae_b919_b800);
    lemma_product_known(0x3f4e_44e0, 0x39d0_1c40, 0xce_44e0, 125, 0xd0_1c40, 114, 0xa7ae_b919_b800, 48, 0x8000_0000_0000, 0x100_0000);
    assert(mul_spec(0x3f4e_44e0, 0x39d0_1c40) == 0x39a7_aeb9);
    assert(0xa7_aeb9 * 0x1_0000_0000_0000_0000 == 0x1_4f5d_7200_0000_0000 * 0x80_0000 + 0x0);
    lemma_quotient_known(0x39a7_aeb9, 0x3a00_0000, 0xa7_aeb9, 114, 0x80_0000, 115, 0x1_4f5d_7200_0000_0000, 0x0, 66, 0x2_0000_0000_0000_0000, 0x400_0000_0000);
    assert(div_spec(0x39a7_aeb9, 0x3a00_0000) == 0x3f27_aeb9);
    assert(0xca_c28a * 0x20 + 0xa7_aeb9 * 0x1 == 0x19ff_fff9);
    lemma_sum_known(0x41ca_c28a, 0x3f27_aeb9, false, 0xca_c28a, 130, 0xa7_aeb9, 125, 0x20, 0x1, 0x19ff_fff9, 29, 0x1000_0000, 0x20);
    assert(add_spec(0x41ca_c28a, 0x3f27_aeb9) == 0x41d0_0000);
    lemma_whole_known(0x41d0_0000, 0xd0_0000, 130, 0x8_0000);
}

/// The edge of code 25.
proof fn lemma_near_25()
    ensures
        near_exact_edge(0x3c23_df6e, 25),
{
    lemma2_to64();
    lemma2_to64_rest();
    lemma_fifth_powers_of_two();
    lemma_more_fifth_powers_of_two();
    assert(39525nat * 39525 * 39525 == 0x3828_9615_569d);
    assert(269025nat * 269025 * 269025 == 0x45_2c59_9066_9ca1);
    assert(0x3828_9615_569dnat * 0x3828_9615_569d == 0xc51_c818_948c_c457_4f0f_dc49nat);
    assert(0xc51_c818_948c_c457_4f0f_dc49nat * 0xc51_c818_948c_c457_4f0f_dc49nat == 0x97_c4e2_89e1_9df4_9209_d104_22db_fc94_765a_4c8e_9c1b_8cd1nat);
    assert(0x45_2c59_9066_9ca1nat * 0x45_2c59_9066_9ca1 == 0x12b0_eff6_c049_6d6d_d948_5020_9d41nat);
    assert(0x12b0_eff6_c049_6d6d_d948_5020_9d41nat * 0x12b0_eff6_c049_6d6d_d948_5020_9d41nat == 0x15d_5c09_8741_6139_2178_92b9_bce5_5f46_89a2_dd05_b95f_0d00_50d8_ca81nat);
    assert(0x32f_1d26nat * 0x32f_1d26 == 0xa_235a_9b45_a1a4);
    assert(0xa_235a_9b45_a1a4nat * 0xa_235a_9b45_a1a4 == 0x66_c7f6_07f7_3625_e3fd_2077_b110nat);
    assert(0x66_c7f6_07f7_3625_e3fd_2077_b110nat * 0x32f_1d26 == 0x1_4742_4c2b_e971_9275_274d_e14d_12c3_1860nat);
    assert(0x337_9d26nat * 0x337_9d26 == 0xa_59c3_cacb_a1a4);
    assert(0xa_59c3_cacb_a1a4nat * 0xa_59c3_cacb_a1a4 == 0x6b_22c5_90a8_ca12_44e8_9027_b110nat);
    assert(0x6b_22c5_90a8_ca12_44e8_9027_b110nat * 0x337_9d26 == 0x1_58ae_8d5e_61ac_9db6_baa0_4a87_f7eb_1860nat);
    assert(0x1_4742_4c2b_e971_9275_274d_e14d_12c3_1860nat * 0x15d_5c09_8741_6139_2178_92b9_bce5_5f46_89a2_dd05_b95f_0d00_50d8_ca81nat == 0x1be_9b09_d979_3f8e_5601_472e_1c89_4f02_7f4e_83b5_8e2c_b602_298c_f65b_a4ed_d017_4820_f501_c4c7_04de_f68b_0860nat);
    assert(0x1_58ae_8d5e_61ac_9db6_baa0_4a87_f7eb_1860nat * 0x15d_5c09_8741_6139_2178_92b9_bce5_5f46_89a2_dd05_b95f_0d00_50d8_ca81nat == 0x1d6_61e2_48b8_1f84_33d3_8ba2_64b7_c62c_6127_3c59_3d42_dbf2_8ba5_8bda_d2be_4220_3fb6_5d32_41a4_5e1d_ffb3_0860nat);
    assert(0xc35nat * 0x40_0000_0000_0000_0000_0000_0000_0000_0000_0000nat == 0x3_0d40_0000_0000_0000_0000_0000_0000_0000_0000_0000nat);
    assert(0x97_c4e2_89e1_9df4_9209_d104_22db_fc94_765a_4c8e_9c1b_8cd1nat * 0x3_0d40_0000_0000_0000_0000_0000_0000_0000_0000_0000nat == 0x1cf_2998_5747_c74a_9eac_751d_df61_d890_122f_1222_35e7_137c_d140_0000_0000_0000_0000_0000_0000_0000_0000_0000nat);
    lemma_near_above(
        0x3c23_df6e, 0xa3_df6e, 119, 0x4000, 0x3_0d40_0000_0000_0000_0000_0000_0000_0000_0000_0000nat, 25,
        39525, 0x3828_9615_569d,
        0xc51_c818_948c_c457_4f0f_dc49nat,
        0x45_2c59_9066_9ca1, 0x12b0_eff6_c049_6d6d_d948_5020_9d41nat,
        0x32f_1d26, 0xa_235a_9b45_a1a4, 0x66_c7f6_07f7_3625_e3fd_2077_b110nat,
        0x337_9d26, 0xa_59c3_cacb_a1a4, 0x6b_22c5_90a8_ca12_44e8_9027_b110nat,
    );
}

/// The value 0x3c2e_1631.
proof fn lemma_at_3c2e1631()
    ensures
        chord_code(0x3c2e_1631, 0x3c2d_5e8d, 0x3c35_5e8d, 0x41d7_7436, 0x41dd_8b21) == 26,
{
    reveal(chord_code);
    lemma2_to64();
    lemma2_to64_rest();
    lemma_high_powers();
    assert(0xb5_5e8d * 0x1 - 0xad_5e8d * 0x1 == 0x8_0000);
    lemma_sum_known(0x3c35_5e8d, 0x3c2d_5e8d, true, 0xb5_5e8d, 119, 0xad_5e8d, 119, 0x1, 0x1, 0x8_0000, 20, 0x8_0000, 0x10);
    assert(sub_spec(0x3c35_5e8d, 0x3c2d_5e8d) == 0x3a00_0000);
    assert(0xae_1631 * 0x1 - 0xad_5e8d * 0x1 == 0xb7a4);
    lemma_sum_known(0x3c2e_1631, 0x3c2d_5e8d, true, 0xae_1631, 119, 0xad_5e8d, 119, 0x1, 0x1, 0xb7a4, 16, 0x8000, 0x100);
    assert(sub_spec(0x3c2e_1631, 0x3c2d_5e8d) == 0x3837_a400);
    assert(0xdd_8b21 * 0x1 - 0xd7_7436 * 0x1 == 0x6_16eb);
    lemma_sum_known(0x41dd_8b21, 0x41d7_7436, true, 0xdd_8b21, 130, 0xd7_7436, 130, 0x1, 0x1, 0x6_16eb, 19, 0x4_0000, 0x20);
    assert(sub_spec(0x41dd_8b21, 0x41d7_7436) == 0x3f42_dd60);
    assert(0xc2_dd60 * 0xb7_a400 == 0x8bc9_1571_8000);
    lemma_product_known(0x3f42_dd60, 0x3837_a400, 0xc2_dd60, 125, 0xb7_a400, 111, 0x8bc9_1571_8000, 48, 0x8000_0000_0000, 0x100_0000);
    assert(mul_spec(0x3f42_dd60, 0x3837_a400) == 0x380b_c915);
    assert(0x8b_c915 * 0x1_0000_0000_0000_0000 == 0x1_1792_2a00_0000_0000 * 0x80_0000 + 0x0);
    lemma_quotient_known(0x380b_c915, 0x3a00_0000, 0x8b_c915, 111, 0x80_0000, 115, 0x1_1792_2a00_0000_0000, 0x0, 66, 0x2_0000_0000_0000_0000, 0x400_0000_0000);
    assert(div_spec(0x380b_c915, 0x3a00_0000) == 0x3d8b_c915);
    assert(0xd7_7436 * 0x100 + 0x8b_c915 * 0x1 == 0xd7ff_ff15);
    lemma_sum_known(0x41d7_7436, 0x3d8b_c915, false, 0xd7_7436, 130, 0x8b_c915, 122, 0x100, 0x1, 0xd7ff_ff15, 32, 0x8000_0000, 0x100);
    assert(add_spec(0x41d7_7436, 0x3d8b_c915) == 0x41d7_ffff);
    lemma_whole_known(0x41d7_ffff, 0xd7_ffff, 130, 0x8_0000);
}

/// The value 0x3c2e_1632.
proof fn lemma_at_3c2e1632()
    ensures
        chord_code(0x3c2e_1632, 0x3c2d_5e8d, 0x3c35_5e8d, 0x41d7_7436, 0x41dd_8b21) == 27,
{
    reveal(chord_code);
    lemma2_to64();
    lemma2_to64_rest();
    lemma_high_powers();
    assert(0xb5_5e8d * 0x1 - 0xad_5e8d * 0x1 == 0x8_0000);
    lemma_sum_known(0x3c35_5e8d, 0x3c2d_5e8d, true, 0xb5_5e8d, 119, 0xad_5e8d, 119, 0x1, 0x1, 0x8_0000, 20, 0x8_0000, 0x10);
    assert(sub_spec(0x3c35_5e8d, 0x3c2d_5e8d) == 0x3a00_0000);
    assert(0xae_1632 * 0x1 - 0xad_5e8d * 0x1 == 0xb7a5);
    lemma_sum_known(0x3c2e_1632, 0x3c2d_5e8d, true, 0xae_1632, 119, 0xad_5e8d, 119, 0x1, 0x1, 0xb7a5, 16, 0x8000, 0x100);
    assert(sub_spec(0x3c2e_1632, 0x3c2d_5e8d) == 0x3837_a500);
    assert(0xdd_8b21 * 0x1 - 0xd7_7436 * 0x1 == 0x6_16eb);
    lemma_sum_known(0x41dd_8b21, 0x41d7_7436, true, 0xdd_8b21, 130, 0xd7_7436, 130, 0x1, 0x1, 0x6_16eb, 19, 0x4_0000, 0x20);
    assert(sub_spec(0x41dd_8b21, 0x41d7_7436) == 0x3f42_dd60);
    assert(0xc2_dd60 * 0xb7_a500 == 0x8bc9_d84e_e000);
    lemma_product_known(0x3f42_dd60, 0x3837_a500, 0xc2_dd60, 125, 0xb7_a500, 111, 0x8bc9_d84e_e000, 48, 0x8000_0000_0000, 0x100_0000);
    assert(mul_spec(0x3f42_dd60, 0x3837_a500) == 0x380b_c9d8);
    assert(0x8b_c9d8 * 0x1_0000_0000_0000_0000 == 0x1_1793_b000_0000_0000 * 0x80_0000 + 0x0);
    lemma_quotient_known(0x380b_c9d8, 0x3a00_0000, 0x8b_c9d8, 111, 0x80_0000, 115, 0x1_1793_b000_0000_0000, 0x0, 66, 0x2_0000_0000_0000_0000, 0x400_0000_0000);
    assert(div_spec(0x380b_c9d8, 0x3a00_0000) == 0x3d8b_c9d8);
    assert(0xd7_7436 * 0x100 + 0x8b_c9d8 * 0x1 == 0xd7ff_ffd8);
    lemma_sum_known(0x41d7_7436, 0x3d8b_c9d8, false, 0xd7_7436, 130, 0x8b_c9d8, 122, 0x100, 0x1, 0xd7ff_ffd8, 32, 0x8000_0000, 0x100);
    assert(add_spec(0x41d7_7436, 0x3d8b_c9d8) == 0x41d8_0000);
    lemma_whole_known(0x41d8_0000, 0xd8_0000, 130, 0x8_0000);
}

/// The edge of code 26.
proof fn lemma_near_26()
    ensures
        near_exact_edge(0x3c2e_1631, 26),
{
    lemma2_to64();
    lemma2_to64_rest();
    lemma_fifth_powers_of_two();
    lemma_more_fifth_powers_of_two();
    assert(40525nat * 40525 * 40525 == 0x3c87_a104_e155);
    assert(269025nat * 269025 * 269025 == 0x45_2c59_9066_9ca1);
    assert(0x3c87_a104_e155nat * 0x3c87_a104_e155 == 0xe4f_db55_820c_a32a_bafe_8639nat);
    assert(0xe4f_db55_820c_a32a_bafe_8639nat * 0xe4f_db55_820c_a32a_bafe_8639nat == 0xcc_d4e6_74eb_0eb6_9e73_8c6b_d3c4_214a_7c5f_78cd_737b_b8b1nat);
    assert(0x45_2c59_9066_9ca1nat * 0x45_2c59_9066_9ca1 == 0x12b0_eff6_c049_6d6d_d948_5020_9d41nat);
    assert(0x12b0_eff6_c049_6d6d_d948_5020_9d41nat * 0x12b0_eff6_c049_6d6d_d948_5020_9d41nat == 0x15d_5c09_8741_6139_2178_92b9_bce5_5f46_89a2_dd05_b95f_0d00_50d8_ca81nat);
    assert(0x362_2ef5nat * 0x362_2ef5 == 0xb_72c1_ba30_f679);
    assert(0xb_72c1_ba30_f679nat * 0xb_72c1_ba30_f679 == 0x83_1017_1ca3_0f28_95f7_2eac_c531nat);
    assert(0x83_1017_1ca3_0f28_95f7_2eac_c531nat * 0x362_2ef5 == 0x1_bb74_7881_6cdc_fc12_1af5_d465_c689_85e5nat);
    assert(0x36a_aef5nat * 0x36a_aef5 == 0xb_ac8f_1875_f679);
    assert(0xb_ac8f_1875_f679nat * 0xb_ac8f_1875_f679 == 0x88_489c_b2fe_07b8_47bf_e7e6_c531nat);
    assert(0x88_489c_b2fe_07b8_47bf_e7e6_c531nat * 0x36a_aef5 == 0x1_d1a5_0ac3_16e6_5181_994e_d425_032c_05e5nat);
    assert(0x1_bb74_7881_6cdc_fc12_1af5_d465_c689_85e5nat * 0x15d_5c09_8741_6139_2178_92b9_bce5_5f46_89a2_dd05_b95f_0d00_50d8_ca81nat == 0x25d_2d36_a523_d578_d4e2_0bdb_b60f_7280_2205_b32c_f91e_4166_55a4_919c_37f4_2b1c_4d2c_6889_bc2a_74d2_182b_2a65nat);
    assert(0x1_d1a5_0ac3_16e6_5181_994e_d425_032c_05e5nat * 0x15d_5c09_8741_6139_2178_92b9_bce5_5f46_89a2_dd05_b95f_0d00_50d8_ca81nat == 0x27b_7568_50a6_a97f_c162_9e53_7fc7_b5a3_9d1a_251d_8608_9a31_f2b3_3147_4350_599d_5e4a_ff4f_ed9e_2b23_df0d_aa65nat);
    assert(0xc35nat * 0x40_0000_0000_0000_0000_0000_0000_0000_0000_0000nat == 0x3_0d40_0000_0000_0000_0000_0000_0000_0000_0000_0000nat);
    assert(0xcc_d4e6_74eb_0eb6_9e73_8c6b_d3c4_214a_7c5f_78cd_737b_b8b1nat * 0x3_0d40_0000_0000_0000_0000_0000_0000_0000_0000_0000nat == 0x271_18b8_4c4e_56a6_cf0e_2048_1002_4a98_900e_5b68_fcad_5162_2940_0000_0000_0000_0000_0000_0000_0000_0000_0000nat);
    lemma_near_above(
        0x3c2e_1631, 0xae_1631, 119, 0x4000, 0x3_0d40_0000_0000_0000_0000_0000_0000_0000_0000_0000nat, 26,
        40525, 0x3c87_a104_e155,
        0xe4f_db55_820c_a32a_bafe_8639nat,
        0x45_2c59_9066_9ca1, 0x12b0_eff6_c049_6d6d_d948_5020_9d41nat,
        0x362_2ef5, 0xb_72c1_ba30_f679, 0x83_1017_1ca3_0f28_95f7_2eac_c531nat,
        0x36a_aef5, 0xb_ac8f_1875_f679, 0x88_489c_b2fe_07b8_47bf_e7e6_c531nat,
    );
}

/// The value 0x3c38_9857.
proof fn lemma_at_3c389857()
    ensures
        chord_code(0x3c38_9857, 0x3c35_5e8d, 0x3c3d_5e8d, 0x41dd_8b21, 0x41e3_a2c0) == 27,
{
    reveal(chord_code);
    lemma2_to64();
    lemma2_to64_rest();
    lemma_high_powers();
    assert(0xbd_5e8d * 0x1 - 0xb5_5e8d * 0x1 == 0x8_0000);
    lemma_sum_known(0x3c3d_5e8d, 0x3c35_5e8d, true, 0xbd_5e8d, 119, 0xb5_5e8d, 119, 0x1, 0x1, 0x8_0000, 20, 0x8_0000, 0x10);
    assert(sub_spec(0x3c3d_5e8d, 0x3c35_5e8d) == 0x3a00_0000);
    assert(0xb8_9857 * 0x1 - 0xb5_5e8d * 0x1 == 0x3_39ca);
    lemma_sum_known(0x3c38_9857, 0x3c35_5e8d, true, 0xb8_9857, 119, 0xb5_5e8d, 119, 0x1, 0x1, 0x3_39ca, 18, 0x2_0000, 0x40);
    assert(sub_spec(0x3c38_9857, 0x3c35_5e8d) == 0x394e_7280);
    assert(0xe3_a2c0 * 0x1 - 0xdd_8b21 * 0x1 == 0x6_179f);
    lemma_sum_known(0x41e3_a2c0, 0x41dd_8b21, true, 0xe3_a2c0, 130, 0xdd_8b21, 130, 0x1, 0x1, 0x6_179f, 19, 0x4_0000, 0x20);
    assert(sub_spec(0x41e3_a2c0, 0x41dd_8b21) == 0x3f42_f3e0);
    assert(0xc2_f3e0 * 0xce_7280 == 0x9d37_7053_b000);
    lemma_product_known(0x3f42_f3e0, 0x394e_7280, 0xc2_f3e0, 125, 0xce_7280, 113, 0x9d37_7053_b000, 48, 0x8000_0000_0000, 0x100_0000);
    assert(mul_spec(0x3f42_f3e0, 0x394e_7280) == 0x391d_3770);
    assert(0x9d_3770 * 0x1_0000_0000_0000_0000 == 0x1_3a6e_e000_0000_0000 * 0x80_0000 + 0x0);
    lemma_quotient_known(0x391d_3770, 0x3a00_0000, 0x9d_3770, 113, 0x80_0000, 115, 0x1_3a6e_e000_0000_0000, 0x0, 66, 0x2_0000_0000_0000_0000, 0x400_0000_0000);
    assert(div_spec(0x391d_3770, 0x3a00_0000) == 0x3e9d_3770);
    assert(0xdd_8b21 * 0x40 + 0x9d_3770 * 0x1 == 0x37ff_ffb0);
    lemma_sum_known(0x41dd_8b21, 0x3e9d_3770, false, 0xdd_8b21, 130, 0x9d_3770, 124, 0x40, 0x1, 0x37ff_ffb0, 30, 0x2000_0000, 0x40);
    assert(add_spec(0x41dd_8b21, 0x3e9d_3770) == 0x41df_ffff);
    lemma_whole_known(0x41df_ffff, 0xdf_ffff, 130, 0x8_0000);
}

/// The value 0x3c38_9858.
proof fn lemma_at_3c389858()
    ensures
        chord_code(0x3c38_9858, 0x3c35_5e8d, 0x3c3d_5e8d, 0x41dd_8b21, 0x41e3_a2c0) == 28,
{
    reveal(chord_code);
    lemma2_to64();
    lemma2_to64_rest();
    lemma_high_powers();
    assert(0xbd_5e8d * 0x1 - 0xb5_5e8d * 0x1 == 0x8_0000);
    lemma_sum_known(0x3c3d_5e8d, 0x3c35_5e8d, true, 0xbd_5e8d, 119, 0xb5_5e8d, 119, 0x1, 0x1, 0x8_0000, 20, 0x8_0000, 0x10);
    assert(sub_spec(0x3c3d_5e8d, 0x3c35_5e8d) == 0x3a00_0000);
    assert(0xb8_9858 * 0x1 - 0xb5_5e8d * 0x1 == 0x3_39cb);
    lemma_sum_known(0x3c38_9858, 0x3c35_5e8d, true, 0xb8_9858, 119, 0xb5_5e8d, 119, 0x1, 0x1, 0x3_39cb, 18, 0x2_0000, 0x40);
    assert(sub_spec(0x3c38_9858, 0x3c35_5e8d) == 0x394e_72c0);
    assert(0xe3_a2c0 * 0x1 - 0xdd_8b21 * 0x1 == 0x6_179f);
    lemma_sum_known(0x41e3_a2c0, 0x41dd_8b21, true, 0xe3_a2c0, 130, 0xdd_8b21, 130, 0x1, 0x1, 0x6_179f, 19, 0x4_0000, 0x20);
    assert(sub_spec(0x41e3_a2c0, 0x41dd_8b21) == 0x3f42_f3e0);
    assert(0xc2_f3e0 * 0xce_72c0 == 0x9d37_a110_a800);
    lemma_product_known(0x3f42_f3e0, 0x394e_72c0, 0xc2_f3e0, 125, 0xce_72c0, 113, 0x9d37_a110_a800, 48, 0x8000_0000_0000, 0x100_0000);
    assert(mul_spec(0x3f42_f3e0, 0x394e_72c0) == 0x391d_37a1);
    assert(0x9d_37a1 * 0x1_0000_0000_0000_0000 == 0x1_3a6f_4200_0000_0000 * 0x80_0000 + 0x0);
    lemma_quotient_known(0x391d_37a1, 0x3a00_0000, 0x9d_37a1, 113, 0x80_0000, 115, 0x1_3a6f_4200_0000_0000, 0x0, 66, 0x2_0000_0000_0000_0000, 0x400_0000_0000);
    assert(div_spec(0x391d_37a1, 0x3a00_0000) == 0x3e9d_37a1);
    assert(0xdd_8b21 * 0x40 + 0x9d_37a1 * 0x1 == 0x37ff_ffe1);
    lemma_sum_known(0x41dd_8b21, 0x3e9d_37a1, false, 0xdd_8b21, 130, 0x9d_37a1, 124, 0x40, 0x1, 0x37ff_ffe1, 30, 0x2000_0000, 0x40);
    assert(add_spec(0x41dd_8b21, 0x3e9d_37a1) == 0x41e0_0000);
    lemma_whole_known(0x41e0_0000, 0xe0_0000, 130, 0x8_0000);
}

/// The edge of code 27.
proof fn lemma_near_27()
    ensures
        near_exact_edge(0x3c38_9857, 27),
{
    lemma2_to64();
    lemma2_to64_rest();
    lemma_fifth_powers_of_two();
    lemma_more_fifth_powers_of_two();
    assert(41525nat * 41525 * 41525 == 0x411f_48d2_fb8d);
    assert(269025nat * 269025 * 269025 == 0x45_2c59_9066_9ca1);
    assert(0x411f_48d2_fb8dnat * 0x411f_48d2_fb8d == 0x1090_e6cd_db8d_e186_fa81_cba9nat);
    assert(0x1090_e6cd_db8d_e186_fa81_cba9nat * 0x1090_e6cd_db8d_e186_fa81_cba9nat == 0x112_6ede_331f_47da_e5ef_d647_d1ec_699a_db2c_0a80_f657_7591nat);
    assert(0x45_2c59_9066_9ca1nat * 0x45_2c59_9066_9ca1 == 0x12b0_eff6_c049_6d6d_d948_5020_9d41nat);
    assert(0x12b0_eff6_c049_6d6d_d948_5020_9d41nat * 0x12b0_eff6_c049_6d6d_d948_5020_9d41nat == 0x15d_5c09_8741_6139_2178_92b9_bce5_5f46_89a2_dd05_b95f_0d00_50d8_ca81nat);
    assert(0x396_b9b3nat * 0x396_b9b3 == 0xc_e118_5678_3329);
    assert(0xc_e118_5678_3329nat * 0xc_e118_5678_3329 == 0xa5_e033_e594_6984_a47f_8ca9_5c91nat);
    assert(0xa5_e033_e594_6984_a47f_8ca9_5c91nat * 0x396_b9b3 == 0x2_534a_4d1a_8764_28ac_8401_9927_ae46_8263nat);
    assert(0x39f_39b3nat * 0x39f_39b3 == 0xd_1e62_eb5b_3329);
    assert(0xd_1e62_eb5b_3329nat * 0xd_1e62_eb5b_3329 == 0xac_19a7_3ca5_9c5b_57ce_af5f_5c91nat);
    assert(0xac_19a7_3ca5_9c5b_57ce_af5f_5c91nat * 0x39f_39b3 == 0x2_6f57_aea0_c821_765f_9fd8_74e1_0c59_0263nat);
    assert(0x2_534a_4d1a_8764_28ac_8401_9927_ae46_8263nat * 0x15d_5c09_8741_6139_2178_92b9_bce5_5f46_89a2_dd05_b95f_0d00_50d8_ca81nat == 0x32c_624f_f901_08bc_c60c_c1ba_4020_2cf7_5944_aaa7_c0dc_701a_53f4_624f_104c_e115_d768_2779_e9f4_97bf_67f1_d1e3nat);
    assert(0x2_6f57_aea0_c821_765f_9fd8_74e1_0c59_0263nat * 0x15d_5c09_8741_6139_2178_92b9_bce5_5f46_89a2_dd05_b95f_0d00_50d8_ca81nat == 0x352_aaa3_c75e_3046_e5a1_9853_515d_0e15_bcea_7021_7bb4_7c7f_83f1_cf2e_3d1e_2dcb_94b8_75ca_3ce6_bbfe_6844_51e3nat);
    assert(0xc35nat * 0x40_0000_0000_0000_0000_0000_0000_0000_0000_0000nat == 0x3_0d40_0000_0000_0000_0000_0000_0000_0000_0000_0000nat);
    assert(0x112_6ede_331f_47da_e5ef_d647_d1ec_699a_db2c_0a80_f657_7591nat * 0x3_0d40_0000_0000_0000_0000_0000_0000_0000_0000_0000nat == 0x345_80d7_9983_3608_c636_2cae_ad62_b947_d55c_270e_0fc6_6788_c140_0000_0000_0000_0000_0000_0000_0000_0000_0000nat);
    lemma_near_above(
        0x3c38_9857, 0xb8_9857, 119, 0x4000, 0x3_0d40_0000_0000_0000_0000_0000_0000_0000_0000_0000nat, 27,
        41525, 0x411f_48d2_fb8d,
        0x1090_e6cd_db8d_e186_fa81_cba9nat,
        0x45_2c59_9066_9ca1, 0x12b0_eff6_c049_6d6d_d948_5020_9d41nat,
        0x396_b9b3, 0xc_e118_5678_3329, 0xa5_e033_e594_6984_a47f_8ca9_5c91nat,
        0x39f_39b3, 0xd_1e62_eb5b_3329, 0xac_19a7_3ca5_9c5b_57ce_af5f_5c91nat,
    );
}

/// The value 0x3c43_86ab.
proof fn lemma_at_3c4386ab()
    ensures
        chord_code(0x3c43_86ab, 0x3c3d_5e8d, 0x3c45_5e8d, 0x41e3_a2c0, 0x41e9_4e7f) == 28,
{
    reveal(chord_code);
    lemma2_to64();
    lemma2_to64_rest();
    lemma_high_powers();
    assert(0xc5_5e8d * 0x1 - 0xbd_5e8d * 0x1 == 0x8_0000);
    lemma_sum_known(0x3c45_5e8d, 0x3c3d_5e8d, true, 0xc5_5e8d, 119, 0xbd_5e8d, 119, 0x1, 0x1, 0x8_0000, 20, 0x8_0000, 0x10);
    assert(sub_spec(0x3c45_5e8d, 0x3c3d_5e8d) == 0x3a00_0000);
    assert(0xc3_86ab * 0x1 - 0xbd_5e8d * 0x1 == 0x6_281e);
    lemma_sum_known(0x3c43_86ab, 0x3c3d_5e8d, true, 0xc3_86ab, 119, 0xbd_5e8d, 119, 0x1, 0x1, 0x6_281e, 19, 0x4_0000, 0x20);
    assert(sub_spec(0x3c43_86ab, 0x3c3d_5e8d) == 0x39c5_03c0);
    assert(0xe9_4e7f * 0x1 - 0xe3_a2c0 * 0x1 == 0x5_abbf);
    lemma_sum_known(0x41e9_4e7f, 0x41e3_a2c0, true, 0xe9_4e7f, 130, 0xe3_a2c0, 130, 0x1, 0x1, 0x5_abbf, 19, 0x4_0000, 0x20);
    assert(sub_spec(0x41e9_4e7f, 0x41e3_a2c0) == 0x3f35_77e0);
    assert(0xb5_77e0 * 0xc5_03c0 == 0x8ba7_e7e1_8800);
    lemma_product_known(0x3f35_77e0, 0x39c5_03c0, 0xb5_77e0, 125, 0xc5_03c0, 114, 0x8ba7_e7e1_8800, 48, 0x8000_0000_0000, 0x100_0000);
    assert(mul_spec(0x3f35_77e0, 0x39c5_03c0) == 0x398b_a7e8);
    assert(0x8b_a7e8 * 0x1_0000_0000_0000_0000 == 0x1_174f_d000_0000_0000 * 0x80_0000 + 0x0);
    lemma_quotient_known(0x398b_a7e8, 0x3a00_0000, 0x8b_a7e8, 114, 0x80_0000, 115, 0x1_174f_d000_0000_0000, 0x0, 66, 0x2_0000_0000_0000_0000, 0x400_0000_0000);
    assert(div_spec(0x398b_a7e8, 0x3a00_0000) == 0x3f0b_a7e8);
    assert(0xe3_a2c0 * 0x20 + 0x8b_a7e8 * 0x1 == 0x1cff_ffe8);
    lemma_sum_known(0x41e3_a2c0, 0x3f0b_a7e8, false, 0xe3_a2c0, 130, 0x8b_a7e8, 125, 0x20, 0x1, 0x1cff_ffe8, 29, 0x1000_0000, 0x20);
    assert(add_spec(0x41e3_a2c0, 0x3f0b_a7e8) == 0x41e7_ffff);
    lemma_whole_known(0x41e7_ffff, 0xe7_ffff, 130, 0x8_0000);
}

/// The value 0x3c43_86ac.
proof fn lemma_at_3c4386ac()
    ensures
        chord_code(0x3c43_86ac, 0x3c3d_5e8d, 0x3c45_5e8d, 0x41e3_a2c0, 0x41e9_4e7f) == 29,
{
    reveal(chord_code);
    lemma2_to64();
    lemma2_to64_rest();
    lemma_high_powers();
    assert(0xc5_5e8d * 0x1 - 0xbd_5e8d * 0x1 == 0x8_0000);
    lemma_sum_known(0x3c45_5e8d, 0x3c3d_5e8d, true, 0xc5_5e8d, 119, 0xbd_5e8d, 119, 0x1, 0x1, 0x8_0000, 20, 0x8_0000, 0x10);
    assert(sub_spec(0x3c45_5e8d, 0x3c3d_5e8d) == 0x3a00_0000);
    assert(0xc3_86ac * 0x1 - 0xbd_5e8d * 0x1 == 0x6_281f);
    lemma_sum_known(0x3c43_86ac, 0x3c3d_5e8d, true, 0xc3_86ac, 119, 0xbd_5e8d, 119, 0x1, 0x1, 0x6_281f, 19, 0x4_0000, 0x20);
    assert(sub_spec(0x3c43_86ac, 0x3c3d_5e8d) == 0x39c5_03e0);
    assert(0xe9_4e7f * 0x1 - 0xe3_a2c0 * 0x1 == 0x5_abbf);
    lemma_sum_known(0x41e9_4e7f, 0x41e3_a2c0, true, 0xe9_4e7f, 130, 0xe3_a2c0, 130, 0x1, 0x1, 0x5_abbf, 19, 0x4_0000, 0x20);
    assert(sub_spec(0x41e9_4e7f, 0x41e3_a2c0) == 0x3f35_77e0);
    assert(0xb5_77e0 * 0xc5_03e0 == 0x8ba7_fe90_8400);
    lemma_product_known(0x3f35_77e0, 0x39c5_03e0, 0xb5_77e0, 125, 0xc5_03e0, 114, 0x8ba7_fe90_8400, 48, 0x8000_0000_0000, 0x100_0000);
    assert(mul_spec(0x3f35_77e0, 0x39c5_03e0) == 0x398b_a7ff);
    assert(0x8b_a7ff * 0x1_0000_0000_0000_0000 == 0x1_174f_fe00_0000_0000 * 0x80_0000 + 0x0);
    lemma_quotient_known(0x398b_a7ff, 0x3a00_0000, 0x8b_a7ff, 114, 0x80_0000, 115, 0x1_174f_fe00_0000_0000, 0x0, 66, 0x2_0000_0000_0000_0000, 0x400_0000_0000);
    assert(div_spec(0x398b_a7ff, 0x3a00_0000) == 0x3f0b_a7ff);
    assert(0xe3_a2c0 * 0x20 + 0x8b_a7ff * 0x1 == 0x1cff_ffff);
    lemma_sum_known(0x41e3_a2c0, 0x3f0b_a7ff, false, 0xe3_a2c0, 130, 0x8b_a7ff, 125, 0x20, 0x1, 0x1cff_ffff, 29, 0x1000_0000, 0x20);
    assert(add_spec(0x41e3_a2c0, 0x3f0b_a7ff) == 0x41e8_0000);
    lemma_whole_known(0x41e8_0000, 0xe8_0000, 130, 0x8_0000);
}

/// The edge of code 28.
proof fn lemma_near_28()
    ensures
        near_exact_edge(0x3c43_86ab, 28),
{
    lemma2_to64();
    lemma2_to64_rest();
    lemma_fifth_powers_of_two();
    lemma_more_fifth_powers_of_two();
    assert(42525nat * 42525 * 42525 == 0x45f0_f320_6145);
    assert(269025nat * 269025 * 269025 == 0x45_2c59_9066_9ca1);
    assert(0x45f0_f320_6145nat * 0x45f0_f320_6145 == 0x131b_c5d8_380c_1021_7435_5c99nat);
    assert(0x131b_c5d8_380c_1021_7435_5c99nat * 0x131b_c5d8_380c_1021_7435_5c99nat == 0x16d_2261_6cd4_19d1_8fc2_6bee_9fd4_2c99_746d_667c_20d8_5371nat);
    assert(0x45_2c59_9066_9ca1nat * 0x45_2c59_9066_9ca1 == 0x12b0_eff6_c049_6d6d_d948_5020_9d41nat);
    assert(0x12b0_eff6_c049_6d6d_d948_5020_9d41nat * 0x12b0_eff6_c049_6d6d_d948_5020_9d41nat == 0x15d_5c09_8741_6139_2178_92b9_bce5_5f46_89a2_dd05_b95f_0d00_50d8_ca81nat);
    assert(0x3cd_6157nat * 0x3cd_6157 == 0xe_750d_1459_0b91);
    assert(0xe_750d_1459_0b91nat * 0xe_750d_1459_0b91 == 0xd1_02f3_2f01_bb17_bf81_b357_c821nat);
    assert(0xd1_02f3_2f01_bb17_bf81_b357_c821nat * 0x3cd_6157 == 0x3_1ab7_af6f_cf08_babd_7498_deab_db16_8437nat);
    assert(0x3d5_e157nat * 0x3d5_e157 == 0xe_b5f8_cb20_0b91);
    assert(0xe_b5f8_cb20_0b91nat * 0xe_b5f8_cb20_0b91 == 0xd8_688f_f886_c379_494a_dac5_c821nat);
    assert(0xd8_688f_f886_c379_494a_dac5_c821nat * 0x3d5_e157 == 0x3_3e07_2d25_6ec6_f75f_e37b_0aa0_1491_0437nat);
    assert(0x3_1ab7_af6f_cf08_babd_7498_deab_db16_8437nat * 0x15d_5c09_8741_6139_2178_92b9_bce5_5f46_89a2_dd05_b95f_0d00_50d8_ca81nat == 0x43c_8a21_c2d0_6c34_748b_2f35_5545_8507_d22b_ee07_152c_2f01_962c_19b1_11b5_5d86_62d4_1b23_ea53_7ec9_e914_05b7nat);
    assert(0x3_3e07_2d25_6ec6_f75f_e37b_0aa0_1491_0437nat * 0x15d_5c09_8741_6139_2178_92b9_bce5_5f46_89a2_dd05_b95f_0d00_50d8_ca81nat == 0x46c_ba32_050b_d33a_cbc4_6c0d_6def_81f9_0e73_e9cc_f6aa_4dc7_8917_f6bc_8f46_b84a_1287_d2ee_6181_2191_88ce_85b7nat);
    assert(0xc35nat * 0x40_0000_0000_0000_0000_0000_0000_0000_0000_0000nat == 0x3_0d40_0000_0000_0000_0000_0000_0000_0000_0000_0000nat);
    assert(0x16d_2261_6cd4_19d1_8fc2_6bee_9fd4_2c99_746d_667c_20d8_5371nat * 0x3_0d40_0000_0000_0000_0000_0000_0000_0000_0000_0000nat == 0x45a_4d2b_d15e_47ca_c7f8_13e1_f942_411b_4e8e_dd02_4f3c_2ca4_9940_0000_0000_0000_0000_0000_0000_0000_0000_0000nat);
    lemma_near_above(
        0x3c43_86ab, 0xc3_86ab, 119, 0x4000, 0x3_0d40_0000_0000_0000_0000_0000_0000_0000_0000_0000nat, 28,
        42525, 0x45f0_f320_6145,
        0x131b_c5d8_380c_1021_7435_5c99nat,
        0x45_2c59_9066_9ca1, 0x12b0_eff6_c049_6d6d_d948_5020_9d41nat,
        0x3cd_6157, 0xe_750d_1459_0b91, 0xd1_02f3_2f01_bb17_bf81_b357_c821nat,
        0x3d5_e157, 0xe_b5f8_cb20_0b91, 0xd8_688f_f886_c379_494a_dac5_c821nat,
    );
}

/// The value 0x3c4e_d187.
proof fn lemma_at_3c4ed187()
    ensures
        chord_code(0x3c4e_d187, 0x3c4d_5e8d, 0x3c55_5e8d, 0x41ef_0a95, 0x41f4_5569) == 29,
{
    reveal(chord_code);
    lemma2_to64();
    lemma2_to64_rest();
    lemma_high_powers();
    assert(0xd5_5e8d * 0x1 - 0xcd_5e8d * 0x1 == 0x8_0000);
    lemma_sum_known(0x3c55_5e8d, 0x3c4d_5e8d, true, 0xd5_5e8d, 119, 0xcd_5e8d, 119, 0x1, 0x1, 0x8_0000, 20, 0x8_0000, 0x10);
    assert(sub_spec(0x3c55_5e8d, 0x3c4d_5e8d) == 0x3a00_0000);
    assert(0xce_d187 * 0x1 - 0xcd_5e8d * 0x1 == 0x1_72fa);
    lemma_sum_known(0x3c4e_d187, 0x3c4d_5e8d, true, 0xce_d187, 119, 0xcd_5e8d, 119, 0x1, 0x1, 0x1_72fa, 17, 0x1_0000, 0x80);
    assert(sub_spec(0x3c4e_d187, 0x3c4d_5e8d) == 0x38b9_7d00);
    assert(0xf4_5569 * 0x1 - 0xef_0a95 * 0x1 == 0x5_4ad4);
    lemma_sum_known(0x41f4_5569, 0x41ef_0a95, true, 0xf4_5569, 130, 0xef_0a95, 130, 0x1, 0x1, 0x5_4ad4, 19, 0x4_0000, 0x20);
    assert(sub_spec(0x41f4_5569, 0x41ef_0a95) == 0x3f29_5a80);
    assert(0xa9_5a80 * 0xb9_7d00 == 0x7ab5_17b0_8000);
    lemma_product_known(0x3f29_5a80, 0x38b9_7d00, 0xa9_5a80, 125, 0xb9_7d00, 112, 0x7ab5_17b0_8000, 47, 0x4000_0000_0000, 0x80_0000);
    assert(mul_spec(0x3f29_5a80, 0x38b9_7d00) == 0x3875_6a2f);
    assert(0xf5_6a2f * 0x1_0000_0000_0000_0000 == 0x1_ead4_5e00_0000_0000 * 0x80_0000 + 0x0);
    lemma_quotient_known(0x3875_6a2f, 0x3a00_0000, 0xf5_6a2f, 111, 0x80_0000, 115, 0x1_ead4_5e00_0000_0000, 0x0, 66, 0x2_0000_0000_0000_0000, 0x400_0000_0000);
    assert(div_spec(0x3875_6a2f, 0x3a00_0000) == 0x3df5_6a2f);
    assert(0xef_0a95 * 0x100 + 0xf5_6a2f * 0x1 == 0xefff_ff2f);
    lemma_sum_known(0x41ef_0a95, 0x3df5_6a2f, false, 0xef_0a95, 130, 0xf5_6a2f, 122, 0x100, 0x1, 0xefff_ff2f, 32, 0x8000_0000, 0x100);
    assert(add_spec(0x41ef_0a95, 0x3df5_6a2f) == 0x41ef_ffff);
    lemma_whole_known(0x41ef_ffff, 0xef_ffff, 130, 0x8_0000);
}

/// The value 0x3c4e_d188.
proof fn lemma_at_3c4ed188()
    ensures
        chord_code(0x3c4e_d188, 0x3c4d_5e8d, 0x3c55_5e8d, 0x41ef_0a95, 0x41f4_5569) == 30,
{
    reveal(chord_code);
    lemma2_to64();
    lemma2_to64_rest();
    lemma_high_powers();
    assert(0xd5_5e8d * 0x1 - 0xcd_5e8d * 0x1 == 0x8_0000);
    lemma_sum_known(0x3c55_5e8d, 0x3c4d_5e8d, true, 0xd5_5e8d, 119, 0xcd_5e8d, 119, 0x1, 0x1, 0x8_0000, 20, 0x8_0000, 0x10);
    assert(sub_spec(0x3c55_5e8d, 0x3c4d_5e8d) == 0x3a00_0000);
    assert(0xce_d188 * 0x1 - 0xcd_5e8d * 0x1 == 0x1_72fb);
    lemma_sum_known(0x3c4e_d188, 0x3c4d_5e8d, true, 0xce_d188, 119, 0xcd_5e8d, 119, 0x1, 0x1, 0x1_72fb, 17, 0x1_0000, 0x80);
    assert(sub_spec(0x3c4e_d188, 0x3c4d_5e8d) == 0x38b9_7d80);
    assert(0xf4_5569 * 0x1 - 0xef_0a95 * 0x1 == 0x5_4ad4);
    lemma_sum_known(0x41f4_5569, 0x41ef_0a95, true, 0xf4_5569, 130, 0xef_0a95, 130, 0x1, 0x1, 0x5_4ad4, 19, 0x4_0000, 0x20);
    assert(sub_spec(0x41f4_5569, 0x41ef_0a95) == 0x3f29_5a80);
    assert(0xa9_5a80 * 0xb9_7d80 == 0x7ab5_6c5d_c000);
    lemma_product_known(0x3f29_5a80, 0x38b9_7d80, 0xa9_5a80, 125, 0xb9_7d80, 112, 0x7ab5_6c5d_c000, 47, 0x4000_0000_0000, 0x80_0000);
    assert(mul_spec(0x3f29_5a80, 0x38b9_7d80) == 0x3875_6ad9);
    assert(0xf5_6ad9 * 0x1_0000_0000_0000_0000 == 0x1_ead5_b200_0000_0000 * 0x80_0000 + 0x0);
    lemma_quotient_known(0x3875_6ad9, 0x3a00_0000, 0xf5_6ad9, 111, 0x80_0000, 115, 0x1_ead5_b200_0000_0000, 0x0, 66, 0x2_0000_0000_0000_0000, 0x400_0000_0000);
    assert(div_spec(0x3875_6ad9, 0x3a00_0000) == 0x3df5_6ad9);
    assert(0xef_0a95 * 0x100 + 0xf5_6ad9 * 0x1 == 0xefff_ffd9);
    lemma_sum_known(0x41ef_0a95, 0x3df5_6ad9, false, 0xef_0a95, 130, 0xf5_6ad9, 122, 0x100, 0x1, 0xefff_ffd9, 32, 0x8000_0000, 0x100);
    assert(add_spec(0x41ef_0a95, 0x3df5_6ad9) == 0x41f0_0000);
    lemma_whole_known(0x41f0_0000, 0xf0_0000, 130, 0x8_0000);
}

/// The edge of code 29.
proof fn lemma_near_29()
    ensures
        near_exact_edge(0x3c4e_d187, 29),
{
    lemma2_to64();
    lemma2_to64_rest();
    lemma_fifth_powers_of_two();
    lemma_more_fifth_powers_of_two();
    assert(43525nat * 43525 * 43525 == 0x4afe_058d_ce7d);
    assert(269025nat * 269025 * 269025 == 0x45_2c59_9066_9ca1);
    assert(0x4afe_058d_ce7dnat * 0x4afe_058d_ce7d == 0x15f7_d745_00e4_dca9_fe3f_6909nat);
    assert(0x15f7_d745_00e4_dca9_fe3f_6909nat * 0x15f7_d745_00e4_dca9_fe3f_6909nat == 0x1e2_9942_6e52_3fef_99c4_4ee3_86fb_3bab_c0ca_0a04_b986_6251nat);
    assert(0x45_2c59_9066_9ca1nat * 0x45_2c59_9066_9ca1 == 0x12b0_eff6_c049_6d6d_d948_5020_9d41nat);
    assert(0x12b0_eff6_c049_6d6d_d948_5020_9d41nat * 0x12b0_eff6_c049_6d6d_d948_5020_9d41nat == 0x15d_5c09_8741_6139_2178_92b9_bce5_5f46_89a2_dd05_b95f_0d00_50d8_ca81nat);
    assert(0x405_d7a3nat * 0x405_d7a3 == 0x10_2edf_3a01_31c9);
    assert(0x10_2edf_3a01_31c9nat * 0x10_2edf_3a01_31c9 == 0x105_e47c_3ba4_c23d_82be_8140_8fd1nat);
    assert(0x105_e47c_3ba4_c23d_82be_8140_8fd1nat * 0x405_d7a3 == 0x4_1d8c_0100_8e72_1a47_ddb5_c65b_97f9_1913nat);
    assert(0x40e_57a3nat * 0x40e_57a3 == 0x10_738a_cbd4_31c9);
    assert(0x10_738a_cbd4_31c9nat * 0x10_738a_cbd4_31c9 == 0x10e_a57f_78e7_40ea_798b_4496_8fd1nat);
    assert(0x10e_a57f_78e7_40ea_798b_4496_8fd1nat * 0x40e_57a3 == 0x4_49bf_b16d_ebe9_c906_d749_d276_f82b_9913nat);
    assert(0x4_1d8c_0100_8e72_1a47_ddb5_c65b_97f9_1913nat * 0x15d_5c09_8741_6139_2178_92b9_bce5_5f46_89a2_dd05_b95f_0d00_50d8_ca81nat == 0x59d_c2a2_e4ac_52f4_8dfd_0888_d5d3_9ac7_199a_bc62_36eb_6fb9_6e07_79cb_080a_6774_8593_c629_d336_4315_3a56_a093nat);
    assert(0x4_49bf_b16d_ebe9_c906_d749_d276_f82b_9913nat * 0x15d_5c09_8741_6139_2178_92b9_bce5_5f46_89a2_dd05_b95f_0d00_50d8_ca81nat == 0x5da_14fe_a257_cc7f_ff8b_1a61_e791_6570_224a_bdd2_9507_59b3_fa49_56a7_9957_f04e_72ad_7327_3e06_e964_8cc9_2093nat);
    assert(0xc35nat * 0x40_0000_0000_0000_0000_0000_0000_0000_0000_0000nat == 0x3_0d40_0000_0000_0000_0000_0000_0000_0000_0000_0000nat);
    assert(0x1e2_9942_6e52_3fef_99c4_4ee3_86fb_3bab_c0ca_0a04_b986_6251nat * 0x3_0d40_0000_0000_0000_0000_0000_0000_0000_0000_0000nat == 0x5c0_c635_fb2c_819d_f402_55bf_dbae_33d9_e618_9312_eb2d_5b89_b140_0000_0000_0000_0000_0000_0000_0000_0000_0000nat);
    lemma_near_above(
        0x3c4e_d187, 0xce_d187, 119, 0x4000, 0x3_0d40_0000_0000_0000_0000_0000_0000_0000_0000_0000nat, 29,
        43525, 0x4afe_058d_ce7d,
        0x15f7_d745_00e4_dca9_fe3f_6909nat,
        0x45_2c59_9066_9ca1, 0x12b0_eff6_c049_6d6d_d948_5020_9d41nat,
        0x405_d7a3, 0x10_2edf_3a01_31c9, 0x105_e47c_3ba4_c23d_82be_8140_8fd1nat,
        0x40e_57a3, 0x10_738a_cbd4_31c9, 0x10e_a57f_78e7_40ea_798b_4496_8fd1nat,
    );
}

/// The value 0x3c5a_4f11.
proof fn lemma_at_3c5a4f11()
    ensures
        chord_code(0x3c5a_4f11, 0x3c55_5e8d, 0x3c5d_5e8d, 0x41f4_5569, 0x41fa_458a) == 30,
{
    reveal(chord_code);
    lemma2_to64();
    lemma2_to64_rest();
    lemma_high_powers();
    assert(0xdd_5e8d * 0x1 - 0xd5_5e8d * 0x1 == 0x8_0000);
    lemma_sum_known(0x3c5d_5e8d, 0x3c55_5e8d, true, 0xdd_5e8d, 119, 0xd5_5e8d, 119, 0x1, 0x1, 0x8_0000, 20, 0x8_0000, 0x10);
    assert(sub_spec(0x3c5d_5e8d, 0x3c55_5e8d) == 0x3a00_0000);
    assert(0xda_4f11 * 0x1 - 0xd5_5e8d * 0x1 == 0x4_f084);
    lemma_sum_known(0x3c5a_4f11, 0x3c55_5e8d, true, 0xda_4f11, 119, 0xd5_5e8d, 119, 0x1, 0x1, 0x4_f084, 19, 0x4_0000, 0x20);
    assert(sub_spec(0x3c5a_4f11, 0x3c55_5e8d) == 0x399e_1080);
    assert(0xfa_458a * 0x1 - 0xf4_5569 * 0x1 == 0x5_f021);
    lemma_sum_known(0x41fa_458a, 0x41f4_5569, true, 0xfa_458a, 130, 0xf4_5569, 130, 0x1, 0x1, 0x5_f021, 19, 0x4_0000, 0x20);
    assert(sub_spec(0x41fa_458a, 0x41f4_5569) == 0x3f3e_0420);
    assert(0xbe_0420 * 0x9e_1080 == 0x7552_cb04_1000);
    lemma_product_known(0x3f3e_0420, 0x399e_1080, 0xbe_0420, 125, 0x9e_1080, 114, 0x7552_cb04_1000, 47, 0x4000_0000_0000, 0x80_0000);
    assert(mul_spec(0x3f3e_0420, 0x399e_1080) == 0x396a_a596);
    assert(0xea_a596 * 0x1_0000_0000_0000_0000 == 0x1_d54b_2c00_0000_0000 * 0x80_0000 + 0x0);
    lemma_quotient_known(0x396a_a596, 0x3a00_0000, 0xea_a596, 113, 0x80_0000, 115, 0x1_d54b_2c00_0000_0000, 0x0, 66, 0x2_0000_0000_0000_0000, 0x400_0000_0000);
    assert(div_spec(0x396a_a596, 0x3a00_0000) == 0x3eea_a596);
    assert(0xf4_5569 * 0x40 + 0xea_a596 * 0x1 == 0x3dff_ffd6);
    lemma_sum_known(0x41f4_5569, 0x3eea_a596, false, 0xf4_5569, 130, 0xea_a596, 124, 0x40, 0x1, 0x3dff_ffd6, 30, 0x2000_0000, 0x40);
    assert(add_spec(0x41f4_5569, 0x3eea_a596) == 0x41f7_ffff);
    lemma_whole_known(0x41f7_ffff, 0xf7_ffff, 130, 0x8_0000);
}

/// The value 0x3c5a_4f12.
proof fn lemma_at_3c5a4f12()
    ensures
        chord_code(0x3c5a_4f12, 0x3c55_5e8d, 0x3c5d_5e8d, 0x41f4_5569, 0x41fa_458a) == 31,
{
    reveal(chord_code);
    lemma2_to64();
    lemma2_to64_rest();
    lemma_high_powers();
    assert(0xdd_5e8d * 0x1 - 0xd5_5e8d * 0x1 == 0x8_0000);
    lemma_sum_known(0x3c5d_5e8d, 0x3c55_5e8d, true, 0xdd_5e8d, 119, 0xd5_5e8d, 119, 0x1, 0x1, 0x8_0000, 20, 0x8_0000, 0x10);
    assert(sub_spec(0x3c5d_5e8d, 0x3c55_5e8d) == 0x3a00_0000);
    assert(0xda_4f12 * 0x1 - 0xd5_5e8d * 0x1 == 0x4_f085);
    lemma_sum_known(0x3c5a_4f12, 0x3c55_5e8d, true, 0xda_4f12, 119, 0xd5_5e8d, 119, 0x1, 0x1, 0x4_f085, 19, 0x4_0000, 0x20);
    assert(sub_spec(0x3c5a_4f12, 0x3c55_5e8d) == 0x399e_10a0);
    assert(0xfa_458a * 0x1 - 0xf4_5569 * 0x1 == 0x5_f021);
    lemma_sum_known(0x41fa_458a, 0x41f4_5569, true, 0xfa_458a, 130, 0xf4_5569, 130, 0x1, 0x1, 0x5_f021, 19, 0x4_0000, 0x20);
    assert(sub_spec(0x41fa_458a, 0x41f4_5569) == 0x3f3e_0420);
    assert(0xbe_0420 * 0x9e_10a0 == 0x7552_e2c4_9400);
    lemma_product_known(0x3f3e_0420, 0x399e_10a0, 0xbe_0420, 125, 0x9e_10a0, 114, 0x7552_e2c4_9400, 47, 0x4000_0000_0000, 0x80_0000);
    assert(mul_spec(0x3f3e_0420, 0x399e_10a0) == 0x396a_a5c6);
    assert(0xea_a5c6 * 0x1_0000_0000_0000_0000 == 0x1_d54b_8c00_0000_0000 * 0x80_0000 + 0x0);
    lemma_quotient_known(0x396a_a5c6, 0x3a00_0000, 0xea_a5c6, 113, 0x80_0000, 115, 0x1_d54b_8c00_0000_0000, 0x0, 66, 0x2_0000_0000_0000_0000, 0x400_0000_0000);
    assert(div_spec(0x396a_a5c6, 0x3a00_0000) == 0x3eea_a5c6);
    assert(0xf4_5569 * 0x40 + 0xea_a5c6 * 0x1 == 0x3e00_0006);
    lemma_sum_known(0x41f4_5569, 0x3eea_a5c6, false, 0xf4_5569, 130, 0xea_a5c6, 124, 0x40, 0x1, 0x3e00_0006, 30, 0x2000_0000, 0x40);
    assert(add_spec(0x41f4_5569, 0x3eea_a5c6) == 0x41f8_0000);
    lemma_whole_known(0x41f8_0000, 0xf8_0000, 130, 0x8_0000);
}

/// The edge of code 30.
proof fn lemma_near_30()
    ensures
        near_exact_edge(0x3c5a_4f11, 30),
{
    lemma2_to64();
    lemma2_to64_rest();
    lemma_fifth_powers_of_two();
    lemma_more_fifth_powers_of_two();
    assert(44525nat * 44525 * 44525 == 0x5047_e5bb_ff35);
    assert(269025nat * 269025 * 269025 == 0x45_2c59_9066_9ca1);
    assert(0x5047_e5bb_ff35nat * 0x5047_e5bb_ff35 == 0x192d_03c6_bbf2_9009_a7d8_a0f9nat);
    assert(0x192d_03c6_bbf2_9009_a7d8_a0f9nat * 0x192d_03c6_bbf2_9009_a7d8_a0f9nat == 0x279_d2a7_24a1_b617_7ac0_9eba_aeeb_8519_0d23_cad6_e768_3231nat);
    assert(0x45_2c59_9066_9ca1nat * 0x45_2c59_9066_9ca1 == 0x12b0_eff6_c049_6d6d_d948_5020_9d41nat);
    assert(0x12b0_eff6_c049_6d6d_d948_5020_9d41nat * 0x12b0_eff6_c049_6d6d_d948_5020_9d41nat == 0x15d_5c09_8741_6139_2178_92b9_bce5_5f46_89a2_dd05_b95f_0d00_50d8_ca81nat);
    assert(0x43f_4b55nat * 0x43f_4b55 == 0x12_0a00_d200_ea39);
    assert(0x12_0a00_d200_ea39nat * 0x12_0a00_d200_ea39 == 0x145_6881_9889_ae95_f446_5a4c_40b1nat);
    assert(0x145_6881_9889_ae95_f446_5a4c_40b1nat * 0x43f_4b55 == 0x5_6616_7ff0_5b54_4a95_1d14_2197_01d4_55c5nat);
    assert(0x447_cb55nat * 0x447_cb55 == 0x12_527d_12a5_ea39);
    assert(0x12_527d_12a5_ea39nat * 0x12_527d_12a5_ea39 == 0x14f_b42a_fc62_7173_0021_c7c6_40b1nat);
    assert(0x14f_b42a_fc62_7173_0021_c7c6_40b1nat * 0x447_cb55 == 0x5_9cf6_4732_717b_1f8b_6cc7_55a0_3f36_d5c5nat);
    assert(0x5_6616_7ff0_5b54_4a95_1d14_2197_01d4_55c5nat * 0x15d_5c09_8741_6139_2178_92b9_bce5_5f46_89a2_dd05_b95f_0d00_50d8_ca81nat == 0x75e_1d8f_f1a8_3840_606d_e62b_7057_1cd7_f13d_313c_9fa1_34a5_f337_ef0b_adce_cd7e_b725_9a49_0b17_fb7f_65e4_aa45nat);
    assert(0x5_9cf6_4732_717b_1f8b_6cc7_55a0_3f36_d5c5nat * 0x15d_5c09_8741_6139_2178_92b9_bce5_5f46_89a2_dd05_b95f_0d00_50d8_ca81nat == 0x7a9_005d_0d38_3235_eb14_c214_8c86_0278_664e_2644_37ca_6a3a_c829_823f_a6d9_51bf_7f57_72ec_e6ef_11b3_0d87_2a45nat);
    assert(0xc35nat * 0x40_0000_0000_0000_0000_0000_0000_0000_0000_0000nat == 0x3_0d40_0000_0000_0000_0000_0000_0000_0000_0000_0000nat);
    assert(0x279_d2a7_24a1_b617_7ac0_9eba_aeeb_8519_0d23_cad6_e768_3231nat * 0x3_0d40_0000_0000_0000_0000_0000_0000_0000_0000_0000nat == 0x78e_461c_948a_80f3_275c_5467_3650_3fee_b359_7ac4_55b2_bb2c_0940_0000_0000_0000_0000_0000_0000_0000_0000_0000nat);
    lemma_near_above(
        0x3c5a_4f11, 0xda_4f11, 119, 0x4000, 0x3_0d40_0000_0000_0000_0000_0000_0000_0000_0000_0000nat, 30,
        44525, 0x5047_e5bb_ff35,
        0x192d_03c6_bbf2_9009_a7d8_a0f9nat,
        0x45_2c59_9066_9ca1, 0x12b0_eff6_c049_6d6d_d948_5020_9d41nat,
        0x43f_4b55, 0x12_0a00_d200_ea39, 0x145_6881_9889_ae95_f446_5a4c_40b1nat,
        0x447_cb55, 0x12_527d_12a5_ea39, 0x14f_b42a_fc62_7173_0021_c7c6_40b1nat,
    );
}

/// The value 0x3c66_73f8.
proof fn lemma_at_3c6673f8()
    ensures
        chord_code(0x3c66_73f8, 0x3c65_5e8d, 0x3c6d_5e8d, 0x41ff_4654, 0x4202_5081) == 31,
{
    reveal(chord_code);
    lemma2_to64();
    lemma2_to64_rest();
    lemma_high_powers();
    assert(0xed_5e8d * 0x1 - 0xe5_5e8d * 0x1 == 0x8_0000);
    lemma_sum_known(0x3c6d_5e8d, 0x3c65_5e8d, true, 0xed_5e8d, 119, 0xe5_5e8d, 119, 0x1, 0x1, 0x8_0000, 20, 0x8_0000, 0x10);
    assert(sub_spec(0x3c6d_5e8d, 0x3c65_5e8d) == 0x3a00_0000);
    assert(0xe6_73f8 * 0x1 - 0xe5_5e8d * 0x1 == 0x1_156b);
    lemma_sum_known(0x3c66_73f8, 0x3c65_5e8d, true, 0xe6_73f8, 119, 0xe5_5e8d, 119, 0x1, 0x1, 0x1_156b, 17, 0x1_0000, 0x80);
    assert(sub_spec(0x3c66_73f8, 0x3c65_5e8d) == 0x388a_b580);
    assert(0x82_5081 * 0x2 - 0xff_4654 * 0x1 == 0x5_5aae);
    lemma_sum_known(0x4202_5081, 0x41ff_4654, true, 0x82_5081, 131, 0xff_4654, 130, 0x2, 0x1, 0x5_5aae, 19, 0x4_0000, 0x20);
    assert(sub_spec(0x4202_5081, 0x41ff_4654) == 0x3f2b_55c0);
    assert(0xab_55c0 * 0x8a_b580 == 0x5cd5_b2cb_a000);
    lemma_product_known(0x3f2b_55c0, 0x388a_b580, 0xab_55c0, 125, 0x8a_b580, 112, 0x5cd5_b2cb_a000, 47, 0x4000_0000_0000, 0x80_0000);
    assert(mul_spec(0x3f2b_55c0, 0x388a_b580) == 0x3839_ab66);
    assert(0xb9_ab66 * 0x1_0000_0000_0000_0000 == 0x1_7356_cc00_0000_0000 * 0x80_0000 + 0x0);
    lemma_quotient_known(0x3839_ab66, 0x3a00_0000, 0xb9_ab66, 111, 0x80_0000, 115, 0x1_7356_cc00_0000_0000, 0x0, 66, 0x2_0000_0000_0000_0000, 0x400_0000_0000);
    assert(div_spec(0x3839_ab66, 0x3a00_0000) == 0x3db9_ab66);
    assert(0xff_4654 * 0x100 + 0xb9_ab66 * 0x1 == 0xffff_ff66);
    lemma_sum_known(0x41ff_4654, 0x3db9_ab66, false, 0xff_4654, 130, 0xb9_ab66, 122, 0x100, 0x1, 0xffff_ff66, 32, 0x8000_0000, 0x100);
    assert(add_spec(0x41ff_4654, 0x3db9_ab66) == 0x41ff_ffff);
    lemma_whole_known(0x41ff_ffff, 0xff_ffff, 130, 0x8_0000);
}

/// The value 0x3c66_73f9.
proof fn lemma_at_3c6673f9()
    ensures
        chord_code(0x3c66_73f9, 0x3c65_5e8d, 0x3c6d_5e8d, 0x41ff_4654, 0x4202_5081) == 32,
{
    reveal(chord_code);
    lemma2_to64();
    lemma2_to64_rest();
    lemma_high_powers();
    assert(0xed_5e8d * 0x1 - 0xe5_5e8d * 0x1 == 0x8_0000);
    lemma_sum_known(0x3c6d_5e8d, 0x3c65_5e8d, true, 0xed_5e8d, 119, 0xe5_5e8d, 119, 0x1, 0x1, 0x8_0000, 20, 0x8_0000, 0x10);
    assert(sub_spec(0x3c6d_5e8d, 0x3c65_5e8d) == 0x3a00_0000);
    assert(0xe6_73f9 * 0x1 - 0xe5_5e8d * 0x1 == 0x1_156c);
    lemma_sum_known(0x3c66_73f9, 0x3c65_5e8d, true, 0xe6_73f9, 119, 0xe5_5e8d, 119, 0x1, 0x1, 0x1_156c, 17, 0x1_0000, 0x80);
    assert(sub_spec(0x3c66_73f9, 0x3c65_5e8d) == 0x388a_b600);
    assert(0x82_5081 * 0x2 - 0xff_4654 * 0x1 == 0x5_5aae);
    lemma_sum_known(0x4202_5081, 0x41ff_4654, true, 0x82_5081, 131, 0xff_4654, 130, 0x2, 0x1, 0x5_5aae, 19, 0x4_0000, 0x20);
    assert(sub_spec(0x4202_5081, 0x41ff_4654) == 0x3f2b_55c0);
    assert(0xab_55c0 * 0x8a_b600 == 0x5cd6_0876_8000);
    lemma_product_known(0x3f2b_55c0, 0x388a_b600, 0xab_55c0, 125, 0x8a_b600, 112, 0x5cd6_0876_8000, 47, 0x4000_0000_0000, 0x80_0000);
    assert(mul_spec(0x3f2b_55c0, 0x388a_b600) == 0x3839_ac11);
    assert(0xb9_ac11 * 0x1_0000_0000_0000_0000 == 0x1_7358_2200_0000_0000 * 0x80_0000 + 0x0);
    lemma_quotient_known(0x3839_ac11, 0x3a00_0000, 0xb9_ac11, 111, 0x80_0000, 115, 0x1_7358_2200_0000_0000, 0x0, 66, 0x2_0000_0000_0000_0000, 0x400_0000_0000);
    assert(div_spec(0x3839_ac11, 0x3a00_0000) == 0x3db9_ac11);
    assert(0xff_4654 * 0x100 + 0xb9_ac11 * 0x1 == 0x1_0000_0011);
    lemma_sum_known(0x41ff_4654, 0x3db9_ac11, false, 0xff_4654, 130, 0xb9_ac11, 122, 0x100, 0x1, 0x1_0000_0011, 33, 0x1_0000_0000, 0x200);
    assert(add_spec(0x41ff_4654, 0x3db9_ac11) == 0x4200_0000);
    lemma_whole_known(0x4200_0000, 0x80_0000, 131, 0x4_0000);
}

/// The edge of code 31.
proof fn lemma_near_31()
    ensures
        near_exact_edge(0x3c66_73f8, 31),
{
    lemma2_to64();
    lemma2_to64_rest();
    lemma_fifth_powers_of_two();
    lemma_more_fifth_powers_of_two();
    assert(45525nat * 45525 * 45525 == 0x55cf_f94b_af6d);
    assert(269025nat * 269025 * 269025 == 0x45_2c59_9066_9ca1);
    assert(0x55cf_f94b_af6dnat * 0x55cf_f94b_af6d == 0x1cc3_c481_5da8_65e8_4c14_3469nat);
    assert(0x1cc3_c481_5da8_65e8_4c14_3469nat * 0x1cc3_c481_5da8_65e8_4c14_3469nat == 0x33b_68b1_4067_dd9f_728e_83ab_1d4f_413d_0065_d906_9322_d311nat);
    assert(0x45_2c59_9066_9ca1nat * 0x45_2c59_9066_9ca1 == 0x12b0_eff6_c049_6d6d_d948_5020_9d41nat);
    assert(0x12b0_eff6_c049_6d6d_d948_5020_9d41nat * 0x12b0_eff6_c049_6d6d_d948_5020_9d41nat == 0x15d_5c09_8741_6139_2178_92b9_bce5_5f46_89a2_dd05_b95f_0d00_50d8_ca81nat);
    assert(0x47c_03d8nat * 0x47c_03d8 == 0x14_1c32_794e_c640);
    assert(0x14_1c32_794e_c640nat * 0x14_1c32_794e_c640 == 0x194_6afe_08cb_d19f_00a5_e887_1000nat);
    assert(0x194_6afe_08cb_d19f_00a5_e887_1000nat * 0x47c_03d8 == 0x7_1595_ddaa_b271_d474_a329_3b61_8725_8000nat);
    assert(0x484_83d8nat * 0x484_83d8 == 0x14_68b6_faa6_c640);
    assert(0x14_68b6_faa6_c640nat * 0x14_68b6_faa6_c640 == 0x1a0_876c_587f_d5a0_0ada_b487_1000nat);
    assert(0x1a0_876c_587f_d5a0_0ada_b487_1000nat * 0x484_83d8 == 0x7_59ba_09fe_55f4_bcde_282e_44cd_af25_8000nat);
    assert(0x7_1595_ddaa_b271_d474_a329_3b61_8725_8000nat * 0x15d_5c09_8741_6139_2178_92b9_bce5_5f46_89a2_dd05_b95f_0d00_50d8_ca81nat == 0x9aa_f954_8dd4_9c04_a248_afc8_072f_e95f_a732_c443_ebce_0695_c8f5_5086_560f_bc8f_1181_5924_bca7_a06c_b0e5_8000nat);
    assert(0x7_59ba_09fe_55f4_bcde_282e_44cd_af25_8000nat * 0x15d_5c09_8741_6139_2178_92b9_bce5_5f46_89a2_dd05_b95f_0d00_50d8_ca81nat == 0xa07_f724_850e_9d9f_8b7b_fd43_a754_acfb_a713_67f7_6d89_b41f_5914_d92d_a11a_2ae2_85fa_de80_7d62_777c_d8e5_8000nat);
    assert(0xc35nat * 0x40_0000_0000_0000_0000_0000_0000_0000_0000_0000nat == 0x3_0d40_0000_0000_0000_0000_0000_0000_0000_0000_0000nat);
    assert(0x33b_68b1_4067_dd9f_728e_83ab_1d4f_413d_0065_d906_9322_d311nat * 0x3_0d40_0000_0000_0000_0000_0000_0000_0000_0000_0000nat == 0x9dd_0d3e_edcc_f916_d859_6b51_f332_1dd7_6976_d08f_5086_069f_a140_0000_0000_0000_0000_0000_0000_0000_0000_0000nat);
    lemma_near_above(
        0x3c66_73f8, 0xe6_73f8, 119, 0x4000, 0x3_0d40_0000_0000_0000_0000_0000_0000_0000_0000_0000nat, 31,
        45525, 0x55cf_f94b_af6d,
        0x1cc3_c481_5da8_65e8_4c14_3469nat,
        0x45_2c59_9066_9ca1, 0x12b0_eff6_c049_6d6d_d948_5020_9d41nat,
        0x47c_03d8, 0x14_1c32_794e_c640, 0x194_6afe_08cb_d19f_00a5_e887_1000nat,
        0x484_83d8, 0x14_68b6_faa6_c640, 0x1a0_876c_587f_d5a0_0ada_b487_1000nat,
    );
}

/// The value 0x3c72_9d5e.
proof fn lemma_at_3c729d5e()
    ensures
        chord_code(0x3c72_9d5e, 0x3c6d_5e8d, 0x3c75_5e8d, 0x4202_5081, 0x4204_e299) == 32,
{
    reveal(chord_code);
    lemma2_to64();
    lemma2_to64_rest();
    lemma_high_powers();
    assert(0xf5_5e8d * 0x1 - 0xed_5e8d * 0x1 == 0x8_0000);
    lemma_sum_known(0x3c75_5e8d, 0x3c6d_5e8d, true, 0xf5_5e8d, 119, 0xed_5e8d, 119, 0x1, 0x1, 0x8_0000, 20, 0x8_0000, 0x10);
    assert(sub_spec(0x3c75_5e8d, 0x3c6d_5e8d) == 0x3a00_0000);
    assert(0xf2_9d5e * 0x1 - 0xed_5e8d * 0x1 == 0x5_3ed1);
    lemma_sum_known(0x3c72_9d5e, 0x3c6d_5e8d, true, 0xf2_9d5e, 119, 0xed_5e8d, 119, 0x1, 0x1, 0x5_3ed1, 19, 0x4_0000, 0x20);
    assert(sub_spec(0x3c72_9d5e, 0x3c6d_5e8d) == 0x39a7_da20);
    assert(0x84_e299 * 0x1 - 0x82_5081 * 0x1 == 0x2_9218);
    lemma_sum_known(0x4204_e299, 0x4202_5081, true, 0x84_e299, 131, 0x82_5081, 131, 0x1, 0x1, 0x2_9218, 18, 0x2_0000, 0x40);
    assert(sub_spec(0x4204_e299, 0x4202_5081) == 0x3f24_8600);
    assert(0xa4_8600 * 0xa7_da20 == 0x6bdf_98ac_c000);
    lemma_product_known(0x3f24_8600, 0x39a7_da20, 0xa4_8600, 125, 0xa7_da20, 114, 0x6bdf_98ac_c000, 47, 0x4000_0000_0000, 0x80_0000);
    assert(mul_spec(0x3f24_8600, 0x39a7_da20) == 0x3957_bf31);
    assert(0xd7_bf31 * 0x1_0000_0000_0000_0000 == 0x1_af7e_6200_0000_0000 * 0x80_0000 + 0x0);
    lemma_quotient_known(0x3957_bf31, 0x3a00_0000, 0xd7_bf31, 113, 0x80_0000, 115, 0x1_af7e_6200_0000_0000, 0x0, 66, 0x2_0000_0000_0000_0000, 0x400_0000_0000);
    assert(div_spec(0x3957_bf31, 0x3a00_0000) == 0x3ed7_bf31);
    assert(0x82_5081 * 0x80 + 0xd7_bf31 * 0x1 == 0x41ff_ffb1);
    lemma_sum_known(0x4202_5081, 0x3ed7_bf31, false, 0x82_5081, 131, 0xd7_bf31, 124, 0x80, 0x1, 0x41ff_ffb1, 31, 0x4000_0000, 0x80);
    assert(add_spec(0x4202_5081, 0x3ed7_bf31) == 0x4203_ffff);
    lemma_whole_known(0x4203_ffff, 0x83_ffff, 131, 0x4_0000);
}

/// The value 0x3c72_9d5f.
proof fn lemma_at_3c729d5f()
    ensures
        chord_code(0x3c72_9d5f, 0x3c6d_5e8d, 0x3c75_5e8d, 0x4202_5081, 0x4204_e299) == 33,
{
    reveal(chord_code);
    lemma2_to64();
    lemma2_to64_rest();
    lemma_high_powers();
    assert(0xf5_5e8d * 0x1 - 0xed_5e8d * 0x1 == 0x8_0000);
    lemma_sum_known(0x3c75_5e8d, 0x3c6d_5e8d, true, 0xf5_5e8d, 119, 0xed_5e8d, 119, 0x1, 0x1, 0x8_0000, 20, 0x8_0000, 0x10);
    assert(sub_spec(0x3c75_5e8d, 0x3c6d_5e8d) == 0x3a00_0000);
    assert(0xf2_9d5f * 0x1 - 0xed_5e8d * 0x1 == 0x5_3ed2);
    lemma_sum_known(0x3c72_9d5f, 0x3c6d_5e8d, true, 0xf2_9d5f, 119, 0xed_5e8d, 119, 0x1, 0x1, 0x5_3ed2, 19, 0x4_0000, 0x20);
    assert(sub_spec(0x3c72_9d5f, 0x3c6d_5e8d) == 0x39a7_da40);
    assert(0x84_e299 * 0x1 - 0x82_5081 * 0x1 == 0x2_9218);
    lemma_sum_known(0x4204_e299, 0x4202_5081, true, 0x84_e299, 131, 0x82_5081, 131, 0x1, 0x1, 0x2_9218, 18, 0x2_0000, 0x40);
    assert(sub_spec(0x4204_e299, 0x4202_5081) == 0x3f24_8600);
    assert(0xa4_8600 * 0xa7_da40 == 0x6bdf_ad3d_8000);
    lemma_product_known(0x3f24_8600, 0x39a7_da40, 0xa4_8600, 125, 0xa7_da40, 114, 0x6bdf_ad3d_8000, 47, 0x4000_0000_0000, 0x80_0000);
    assert(mul_spec(0x3f24_8600, 0x39a7_da40) == 0x3957_bf5a);
    assert(0xd7_bf5a * 0x1_0000_0000_0000_0000 == 0x1_af7e_b400_0000_0000 * 0x80_0000 + 0x0);
    lemma_quotient_known(0x3957_bf5a, 0x3a00_0000, 0xd7_bf5a, 113, 0x80_0000, 115, 0x1_af7e_b400_0000_0000, 0x0, 66, 0x2_0000_0000_0000_0000, 0x400_0000_0000);
    assert(div_spec(0x3957_bf5a, 0x3a00_0000) == 0x3ed7_bf5a);
    assert(0x82_5081 * 0x80 + 0xd7_bf5a * 0x1 == 0x41ff_ffda);
    lemma_sum_known(0x4202_5081, 0x3ed7_bf5a, false, 0x82_5081, 131, 0xd7_bf5a, 124, 0x80, 0x1, 0x41ff_ffda, 31, 0x4000_0000, 0x80);
    assert(add_spec(0x4202_5081, 0x3ed7_bf5a) == 0x4204_0000);
    lemma_whole_known(0x4204_0000, 0x84_0000, 131, 0x4_0000);
}

/// The edge of code 32.
proof fn lemma_near_32()
    ensures
        near_exact_edge(0x3c72_9d5e, 32),
{
    lemma2_to64();
    lemma2_to64_rest();
    lemma_fifth_powers_of_two();
    lemma_more_fifth_powers_of_two();
    assert(46525nat * 46525 * 46525 == 0x5b97_a5dd_9b25);
    assert(269025nat * 269025 * 269025 == 0x45_2c59_9066_9ca1);
    assert(0x5b97_a5dd_9b25nat * 0x5b97_a5dd_9b25 == 0x20c5_29c0_a330_bd78_ede7_d359nat);
    assert(0x20c5_29c0_a330_bd78_ede7_d359nat * 0x20c5_29c0_a330_bd78_ede7_d359nat == 0x431_e249_7216_9d9c_a56c_27ca_3cf3_bdfa_cbde_9cb1_e319_d4f1nat);
    assert(0x45_2c59_9066_9ca1nat * 0x45_2c59_9066_9ca1 == 0x12b0_eff6_c049_6d6d_d948_5020_9d41nat);
    assert(0x12b0_eff6_c049_6d6d_d948_5020_9d41nat * 0x12b0_eff6_c049_6d6d_d948_5020_9d41nat == 0x15d_5c09_8741_6139_2178_92b9_bce5_5f46_89a2_dd05_b95f_0d00_50d8_ca81nat);
    assert(0x4b8_d2d6nat * 0x4b8_d2d6 == 0x16_4c06_7143_cae4);
    assert(0x16_4c06_7143_cae4nat * 0x16_4c06_7143_cae4 == 0x1f1_27af_4b10_a0f1_cdc1_1c24_9b10nat);
    assert(0x1f1_27af_4b10_a0f1_cdc1_1c24_9b10nat * 0x4b8_d2d6 == 0x9_2b8c_b54f_2e93_d8ef_cc27_353f_414c_bf60nat);
    assert(0x4c1_52d6nat * 0x4c1_52d6 == 0x16_9c94_b179_cae4);
    assert(0x16_9c94_b179_cae4nat * 0x16_9c94_b179_cae4 == 0x1ff_4954_0f98_fe52_1c20_b454_9b10nat);
    assert(0x1ff_4954_0f98_fe52_1c20_b454_9b10nat * 0x4c1_52d6 == 0x9_7f41_0982_5f95_0fb2_9d1f_434e_ff74_bf60nat);
    assert(0x9_2b8c_b54f_2e93_d8ef_cc27_353f_414c_bf60nat * 0x15d_5c09_8741_6139_2178_92b9_bce5_5f46_89a2_dd05_b95f_0d00_50d8_ca81nat == 0xc83_aad1_1e5c_11f7_84b3_1849_77d1_13db_eef8_5cf2_ac49_915a_326a_65b2_6874_9c6d_94a1_8e9d_cbe4_b2f5_efae_2f60nat);
    assert(0x9_7f41_0982_5f95_0fb2_9d1f_434e_ff74_bf60nat * 0x15d_5c09_8741_6139_2178_92b9_bce5_5f46_89a2_dd05_b95f_0d00_50d8_ca81nat == 0xcf5_e5bf_d3f8_b502_b6d9_cfe9_c825_f11a_2ae9_f2a3_6630_415c_2ca0_b23d_7901_76a1_c0e2_fadd_a4b1_26b0_51d6_2f60nat);
    assert(0xc35nat * 0x40_0000_0000_0000_0000_0000_0000_0000_0000_0000nat == 0x3_0d40_0000_0000_0000_0000_0000_0000_0000_0000_0000nat);
    assert(0x431_e249_7216_9d9c_a56c_27ca_3cf3_bdfa_cbde_9cb1_e319_d4f1nat * 0x3_0d40_0000_0000_0000_0000_0000_0000_0000_0000_0000nat == 0xccd_3bd2_a36b_847e_4bd4_506d_ee82_d785_9ea9_1bb1_de4e_9518_7940_0000_0000_0000_0000_0000_0000_0000_0000_0000nat);
    lemma_near_above(
        0x3c72_9d5e, 0xf2_9d5e, 119, 0x4000, 0x3_0d40_0000_0000_0000_0000_0000_0000_0000_0000_0000nat, 32,
        46525, 0x5b97_a5dd_9b25,
        0x20c5_29c0_a330_bd78_ede7_d359nat,
        0x45_2c59_9066_9ca1, 0x12b0_eff6_c049_6d6d_d948_5020_9d41nat,
        0x4b8_d2d6, 0x16_4c06_7143_cae4, 0x1f1_27af_4b10_a0f1_cdc1_1c24_9b10nat,
        0x4c1_52d6, 0x16_9c94_b179_cae4, 0x1ff_4954_0f98_fe52_1c20_b454_9b10nat,
    );
}

/// The value 0x3c7f_3c36.
proof fn lemma_at_3c7f3c36()
    ensures
        chord_code(0x3c7f_3c36, 0x3c7d_5e8d, 0x3c85_5e8d, 0x4207_710a, 0x420b_715e) == 33,
{
    reveal(chord_code);
    lemma2_to64();
    lemma2_to64_rest();
    lemma_high_powers();
    assert(0x85_5e8d * 0x2 - 0xfd_5e8d * 0x1 == 0xd_5e8d);
    lemma_sum_known(0x3c85_5e8d, 0x3c7d_5e8d, true, 0x85_5e8d, 120, 0xfd_5e8d, 119, 0x2, 0x1, 0xd_5e8d, 20, 0x8_0000, 0x10);
    assert(sub_spec(0x3c85_5e8d, 0x3c7d_5e8d) == 0x3a55_e8d0);
    assert(0xff_3c36 * 0x1 - 0xfd_5e8d * 0x1 == 0x1_dda9);
    lemma_sum_known(0x3c7f_3c36, 0x3c7d_5e8d, true, 0xff_3c36, 119, 0xfd_5e8d, 119, 0x1, 0x1, 0x1_dda9, 17, 0x1_0000, 0x80);
    assert(sub_spec(0x3c7f_3c36, 0x3c7d_5e8d) == 0x38ee_d480);
    assert(0x8b_715e * 0x1 - 0x87_710a * 0x1 == 0x4_0054);
    lemma_sum_known(0x420b_715e, 0x4207_710a, true, 0x8b_715e, 131, 0x87_710a, 131, 0x1, 0x1, 0x4_0054, 19, 0x4_0000, 0x20);
    assert(sub_spec(0x420b_715e, 0x4207_710a) == 0x3f80_0a80);
    assert(0x80_0a80 * 0xee_d480 == 0x7774_0bb7_4000);
    lemma_product_known(0x3f80_0a80, 0x38ee_d480, 0x80_0a80, 126, 0xee_d480, 112, 0x7774_0bb7_4000, 47, 0x4000_0000_0000, 0x80_0000);
    assert(mul_spec(0x3f80_0a80, 0x38ee_d480) == 0x38ee_e817);
    assert(0xee_e817 * 0x1_0000_0000_0000_0000 == 0x1_1dea_73a5_80a9_614e * 0xd5_e8d0 + 0x4c_40a0);
    lemma_quotient_known(0x38ee_e817, 0x3a55_e8d0, 0xee_e817, 112, 0xd5_e8d0, 115, 0x1_1dea_73a5_80a9_614e, 0x4c_40a0, 66, 0x2_0000_0000_0000_0000, 0x400_0000_0000);
    assert(div_spec(0x38ee_e817, 0x3a55_e8d0) == 0x3e0e_f53a);
    assert(0x87_710a * 0x100 + 0x8e_f53a * 0x1 == 0x87ff_ff3a);
    lemma_sum_known(0x4207_710a, 0x3e0e_f53a, false, 0x87_710a, 131, 0x8e_f53a, 123, 0x100, 0x1, 0x87ff_ff3a, 32, 0x8000_0000, 0x100);
    assert(add_spec(0x4207_710a, 0x3e0e_f53a) == 0x4207_ffff);
    lemma_whole_known(0x4207_ffff, 0x87_ffff, 131, 0x4_0000);
}

/// The value 0x3c7f_3c37.
proof fn lemma_at_3c7f3c37()
    ensures
        chord_code(0x3c7f_3c37, 0x3c7d_5e8d, 0x3c85_5e8d, 0x4207_710a, 0x420b_715e) == 34,
{
    reveal(chord_code);
    lemma2_to64();
    lemma2_to64_rest();
    lemma_high_powers();
    assert(0x85_5e8d * 0x2 - 0xfd_5e8d * 0x1 == 0xd_5e8d);
    lemma_sum_known(0x3c85_5e8d, 0x3c7d_5e8d, true, 0x85_5e8d, 120, 0xfd_5e8d, 119, 0x2, 0x1, 0xd_5e8d, 20, 0x8_0000, 0x10);
    assert(sub_spec(0x3c85_5e8d, 0x3c7d_5e8d) == 0x3a55_e8d0);
    assert(0xff_3c37 * 0x1 - 0xfd_5e8d * 0x1 == 0x1_ddaa);
    lemma_sum_known(0x3c7f_3c37, 0x3c7d_5e8d, true, 0xff_3c37, 119, 0xfd_5e8d, 119, 0x1, 0x1, 0x1_ddaa, 17, 0x1_0000, 0x80);
    assert(sub_spec(0x3c7f_3c37, 0x3c7d_5e8d) == 0x38ee_d500);
    assert(0x8b_715e * 0x1 - 0x87_710a * 0x1 == 0x4_0054);
    lemma_sum_known(0x420b_715e, 0x4207_710a, true, 0x8b_715e, 131, 0x87_710a, 131, 0x1, 0x1, 0x4_0054, 19, 0x4_0000, 0x20);
    assert(sub_spec(0x420b_715e, 0x4207_710a) == 0x3f80_0a80);
    assert(0x80_0a80 * 0xee_d500 == 0x7774_4bbc_8000);
    lemma_product_known(0x3f80_0a80, 0x38ee_d500, 0x80_0a80, 126, 0xee_d500, 112, 0x7774_4bbc_8000, 47, 0x4000_0000_0000, 0x80_0000);
    assert(mul_spec(0x3f80_0a80, 0x38ee_d500) == 0x38ee_e897);
    assert(0xee_e897 * 0x1_0000_0000_0000_0000 == 0x1_1deb_0cd5_341c_4cef * 0xd5_e8d0 + 0x6d_e5d0);
    lemma_quotient_known(0x38ee_e897, 0x3a55_e8d0, 0xee_e897, 112, 0xd5_e8d0, 115, 0x1_1deb_0cd5_341c_4cef, 0x6d_e5d0, 66, 0x2_0000_0000_0000_0000, 0x400_0000_0000);
    assert(div_spec(0x38ee_e897, 0x3a55_e8d0) == 0x3e0e_f586);
    assert(0x87_710a * 0x100 + 0x8e_f586 * 0x1 == 0x87ff_ff86);
    lemma_sum_known(0x4207_710a, 0x3e0e_f586, false, 0x87_710a, 131, 0x8e_f586, 123, 0x100, 0x1, 0x87ff_ff86, 32, 0x8000_0000, 0x100);
    assert(add_spec(0x4207_710a, 0x3e0e_f586) == 0x4208_0000);
    lemma_whole_known(0x4208_0000, 0x88_0000, 131, 0x4_0000);
}

/// The edge of code 33.
proof fn lemma_near_33()
    ensures
        near_exact_edge(0x3c7f_3c36, 33),
{
    lemma2_to64();
    lemma2_to64_rest();
    lemma_fifth_powers_of_two();
    lemma_more_fifth_powers_of_two();
    assert(47525nat * 47525 * 47525 == 0x61a0_5112_7e5d);
    assert(269025nat * 269025 * 269025 == 0x45_2c59_9066_9ca1);
    assert(0x61a0_5112_7e5dnat * 0x61a0_5112_7e5d == 0x253a_e1d5_748d_238c_dd73_adc9nat);
    assert(0x253a_e1d5_748d_238c_dd73_adc9nat * 0x253a_e1d5_748d_238c_dd73_adc9nat == 0x56a_12d2_cfa2_8516_1442_c45c_89db_1b76_2f05_f82a_a28f_47d1nat);
    assert(0x45_2c59_9066_9ca1nat * 0x45_2c59_9066_9ca1 == 0x12b0_eff6_c049_6d6d_d948_5020_9d41nat);
    assert(0x12b0_eff6_c049_6d6d_d948_5020_9d41nat * 0x12b0_eff6_c049_6d6d_d948_5020_9d41nat == 0x15d_5c09_8741_6139_2178_92b9_bce5_5f46_89a2_dd05_b95f_0d00_50d8_ca81nat);
    assert(0x4f7_ed0enat * 0x4f7_ed0e == 0x18_af83_bc86_ecc4);
    assert(0x18_af83_bc86_ecc4nat * 0x18_af83_bc86_ecc4 == 0x261_6108_b8d7_5960_bb74_9829_f610nat);
    assert(0x261_6108_b8d7_5960_bb74_9829_f610nat * 0x4f7_ed0e == 0xb_d3ad_0a76_16c6_38c8_20b4_a993_d488_44e0nat);
    assert(0x500_6d0enat * 0x500_6d0e == 0x19_0442_ba74_ecc4);
    assert(0x19_0442_ba74_ecc4nat * 0x19_0442_ba74_ecc4 == 0x271_d51a_920e_91c6_5284_3c99_f610nat);
    assert(0x271_d51a_920e_91c6_5284_3c99_f610nat * 0x500_6d0e == 0xc_3a34_1ed0_407d_1079_ff29_d2d7_2e30_44e0nat);
    assert(0xb_d3ad_0a76_16c6_38c8_20b4_a993_d488_44e0nat * 0x15d_5c09_8741_6139_2178_92b9_bce5_5f46_89a2_dd05_b95f_0d00_50d8_ca81nat == 0x1023_d36a_237a_57dd_9e8c_330a_e5e3_d771_8b06_b1eb_3a45_d200_0b69_ebde_8364_c66c_84b2_2696_aa9d_61b1_bc03_74e0nat);
    assert(0xc_3a34_1ed0_407d_1079_ff29_d2d7_2e30_44e0nat * 0x15d_5c09_8741_6139_2178_92b9_bce5_5f46_89a2_dd05_b95f_0d00_50d8_ca81nat == 0x10af_be6d_3ea0_bf42_a00f_62b8_cc15_b9dc_3e21_952c_4f59_eacc_5ca8_3cdb_7acc_5a12_1ac8_9965_9b0e_7720_79ab_74e0nat);
    assert(0xc35nat * 0x40_0000_0000_0000_0000_0000_0000_0000_0000_0000nat == 0x3_0d40_0000_0000_0000_0000_0000_0000_0000_0000_0000nat);
    assert(0x56a_12d2_cfa2_8516_1442_c45c_89db_1b76_2f05_f82a_a28f_47d1nat * 0x3_0d40_0000_0000_0000_0000_0000_0000_0000_0000_0000nat == 0x1085_f5f1_d826_b8a5_a154_c1bf_67b3_e98e_6b00_f798_1c97_c1ea_9140_0000_0000_0000_0000_0000_0000_0000_0000_0000nat);
    lemma_near_above(
        0x3c7f_3c36, 0xff_3c36, 119, 0x4000, 0x3_0d40_0000_0000_0000_0000_0000_0000_0000_0000_0000nat, 33,
        47525, 0x61a0_5112_7e5d,
        0x253a_e1d5_748d_238c_dd73_adc9nat,
        0x45_2c59_9066_9ca1, 0x12b0_eff6_c049_6d6d_d948_5020_9d41nat,
        0x4f7_ed0e, 0x18_af83_bc86_ecc4, 0x261_6108_b8d7_5960_bb74_9829_f610nat,
        0x500_6d0e, 0x19_0442_ba74_ecc4, 0x271_d51a_920e_91c6_5284_3c99_f610nat,
    );
}

/// The value 0x3c86_4e5c.
proof fn lemma_at_3c864e5c()
    ensures
        chord_code(0x3c86_4e5c, 0x3c85_5e8d, 0x3c8d_5e8d, 0x420b_715e, 0x4210_3370) == 34,
{
    reveal(chord_code);
    lemma2_to64();
    lemma2_to64_rest();
    lemma_high_powers();
    assert(0x8d_5e8d * 0x1 - 0x85_5e8d * 0x1 == 0x8_0000);
    lemma_sum_known(0x3c8d_5e8d, 0x3c85_5e8d, true, 0x8d_5e8d, 120, 0x85_5e8d, 120, 0x1, 0x1, 0x8_0000, 20, 0x8_0000, 0x10);
    assert(sub_spec(0x3c8d_5e8d, 0x3c85_5e8d) == 0x3a80_0000);
    assert(0x86_4e5c * 0x1 - 0x85_5e8d * 0x1 == 0xefcf);
    lemma_sum_known(0x3c86_4e5c, 0x3c85_5e8d, true, 0x86_4e5c, 120, 0x85_5e8d, 120, 0x1, 0x1, 0xefcf, 16, 0x8000, 0x100);
    assert(sub_spec(0x3c86_4e5c, 0x3c85_5e8d) == 0x38ef_cf00);
    assert(0x90_3370 * 0x1 - 0x8b_715e * 0x1 == 0x4_c212);
    lemma_sum_known(0x4210_3370, 0x420b_715e, true, 0x90_3370, 131, 0x8b_715e, 131, 0x1, 0x1, 0x4_c212, 19, 0x4_0000, 0x20);
    assert(sub_spec(0x4210_3370, 0x420b_715e) == 0x3f98_4240);
    assert(0x98_4240 * 0xef_cf00 == 0x8ea0_f751_c000);
    lemma_product_known(0x3f98_4240, 0x38ef_cf00, 0x98_4240, 126, 0xef_cf00, 112, 0x8ea0_f751_c000, 48, 0x8000_0000_0000, 0x100_0000);
    assert(mul_spec(0x3f98_4240, 0x38ef_cf00) == 0x390e_a0f7);
    assert(0x8e_a0f7 * 0x1_0000_0000_0000_0000 == 0x1_1d41_ee00_0000_0000 * 0x80_0000 + 0x0);
    lemma_quotient_known(0x390e_a0f7, 0x3a80_0000, 0x8e_a0f7, 113, 0x80_0000, 116, 0x1_1d41_ee00_0000_0000, 0x0, 66, 0x2_0000_0000_0000_0000, 0x400_0000_0000);
    assert(div_spec(0x390e_a0f7, 0x3a80_0000) == 0x3e0e_a0f7);
    assert(0x8b_715e * 0x100 + 0x8e_a0f7 * 0x1 == 0x8bff_fef7);
    lemma_sum_known(0x420b_715e, 0x3e0e_a0f7, false, 0x8b_715e, 131, 0x8e_a0f7, 123, 0x100, 0x1, 0x8bff_fef7, 32, 0x8000_0000, 0x100);
    assert(add_spec(0x420b_715e, 0x3e0e_a0f7) == 0x420b_ffff);
    lemma_whole_known(0x420b_ffff, 0x8b_ffff, 131, 0x4_0000);
}

/// The value 0x3c86_4e5d.
proof fn lemma_at_3c864e5d()
    ensures
        chord_code(0x3c86_4e5d, 0x3c85_5e8d, 0x3c8d_5e8d, 0x420b_715e, 0x4210_3370) == 35,
{
    reveal(chord_code);
    lemma2_to64();
    lemma2_to64_rest();
    lemma_high_powers();
    assert(0x8d_5e8d * 0x1 - 0x85_5e8d * 0x1 == 0x8_0000);
    lemma_sum_known(0x3c8d_5e8d, 0x3c85_5e8d, true, 0x8d_5e8d, 120, 0x85_5e8d, 120, 0x1, 0x1, 0x8_0000, 20, 0x8_0000, 0x10);
    assert(sub_spec(0x3c8d_5e8d, 0x3c85_5e8d) == 0x3a80_0000);
    assert(0x86_4e5d * 0x1 - 0x85_5e8d * 0x1 == 0xefd0);
    lemma_sum_known(0x3c86_4e5d, 0x3c85_5e8d, true, 0x86_4e5d, 120, 0x85_5e8d, 120, 0x1, 0x1, 0xefd0, 16, 0x8000, 0x100);
    assert(sub_spec(0x3c86_4e5d, 0x3c85_5e8d) == 0x38ef_d000);
    assert(0x90_3370 * 0x1 - 0x8b_715e * 0x1 == 0x4_c212);
    lemma_sum_known(0x4210_3370, 0x420b_715e, true, 0x90_3370, 131, 0x8b_715e, 131, 0x1, 0x1, 0x4_c212, 19, 0x4_0000, 0x20);
    assert(sub_spec(0x4210_3370, 0x420b_715e) == 0x3f98_4240);
    assert(0x98_4240 * 0xef_d000 == 0x8ea1_8f94_0000);
    lemma_product_known(0x3f98_4240, 0x38ef_d000, 0x98_4240, 126, 0xef_d000, 112, 0x8ea1_8f94_0000, 48, 0x8000_0000_0000, 0x100_0000);
    assert(mul_spec(0x3f98_4240, 0x38ef_d000) == 0x390e_a190);
    assert(0x8e_a190 * 0x1_0000_0000_0000_0000 == 0x1_1d43_2000_0000_0000 * 0x80_0000 + 0x0);
    lemma_quotient_known(0x390e_a190, 0x3a80_0000, 0x8e_a190, 113, 0x80_0000, 116, 0x1_1d43_2000_0000_0000, 0x0, 66, 0x2_0000_0000_0000_0000, 0x400_0000_0000);
    assert(div_spec(0x390e_a190, 0x3a80_0000) == 0x3e0e_a190);
    assert(0x8b_715e * 0x100 + 0x8e_a190 * 0x1 == 0x8bff_ff90);
    lemma_sum_known(0x420b_715e, 0x3e0e_a190, false, 0x8b_715e, 131, 0x8e_a190, 123, 0x100, 0x1, 0x8bff_ff90, 32, 0x8000_0000, 0x100);
    assert(add_spec(0x420b_715e, 0x3e0e_a190) == 0x420c_0000);
    lemma_whole_known(0x420c_0000, 0x8c_0000, 131, 0x4_0000);
}

/// The edge of code 34.
proof fn lemma_near_34()
    ensures
        near_exact_edge(0x3c86_4e5c, 34),
{
    lemma2_to64();
    lemma2_to64_rest();
    lemma_fifth_powers_of_two();
    lemma_more_fifth_powers_of_two();
    assert(48525nat * 48525 * 48525 == 0x67eb_608b_1515);
    assert(269025nat * 269025 * 269025 == 0x45_2c59_9066_9ca1);
    assert(0x67eb_608b_1515nat * 0x67eb_608b_1515 == 0x2a2f_401a_4eb8_35ed_a68a_73b9nat);
    assert(0x2a2f_401a_4eb8_35ed_a68a_73b9nat * 0x2a2f_401a_4eb8_35ed_a68a_73b9nat == 0x6f3_89c1_3b8a_8365_f87f_21c4_a262_0ab2_328c_b77e_e3c3_bbb1nat);
    assert(0x45_2c59_9066_9ca1nat * 0x45_2c59_9066_9ca1 == 0x12b0_eff6_c049_6d6d_d948_5020_9d41nat);
    assert(0x12b0_eff6_c049_6d6d_d948_5020_9d41nat * 0x12b0_eff6_c049_6d6d_d948_5020_9d41nat == 0x15d_5c09_8741_6139_2178_92b9_bce5_5f46_89a2_dd05_b95f_0d00_50d8_ca81nat);
    assert(0x29d_67ccnat * 0x29d_67cc == 0x6_d667_aa4d_ca90);
    assert(0x6_d667_aa4d_ca90nat * 0x6_d667_aa4d_ca90 == 0x2e_c06d_765a_094d_288a_bae7_9100nat);
    assert(0x2e_c06d_765a_094d_288a_bae7_9100nat * 0x29d_67cc == 0x7a3f_d2bb_ab22_d820_6756_8ee6_08de_8c00nat);
    assert(0x2a1_a7ccnat * 0x2a1_a7cc == 0x6_ecb3_ac93_ca90);
    assert(0x6_ecb3_ac93_ca90nat * 0x6_ecb3_ac93_ca90 == 0x2f_f347_db38_c73d_b2e3_c1a7_9100nat);
    assert(0x2f_f347_db38_c73d_b2e3_c1a7_9100nat * 0x2a1_a7cc == 0x7e2d_fdd1_0d88_846b_4d9d_3a56_d21e_8c00nat);
    assert(0x7a3f_d2bb_ab22_d820_6756_8ee6_08de_8c00nat * 0x15d_5c09_8741_6139_2178_92b9_bce5_5f46_89a2_dd05_b95f_0d00_50d8_ca81nat == 0xa6_d4f5_c669_095d_1e02_c8e0_e3e9_8022_4585_a4ad_ff42_2f88_d657_9362_531e_7814_c2f7_3fc4_1558_8c70_329c_8c00nat);
    assert(0x7e2d_fdd1_0d88_846b_4d9d_3a56_d21e_8c00nat * 0x15d_5c09_8741_6139_2178_92b9_bce5_5f46_89a2_dd05_b95f_0d00_50d8_ca81nat == 0xac_3210_3f7e_fac5_55cc_89c6_6a6e_e28b_9f60_08fb_d5e4_557d_7f0b_baa4_a0d4_7e60_3e8d_3562_0849_bd12_1bdc_8c00nat);
    assert(0xc35nat * 0x2_0000_0000_0000_0000_0000_0000_0000_0000_0000nat == 0x186a_0000_0000_0000_0000_0000_0000_0000_0000_0000nat);
    assert(0x6f3_89c1_3b8a_8365_f87f_21c4_a262_0ab2_328c_b77e_e3c3_bbb1nat * 0x186a_0000_0000_0000_0000_0000_0000_0000_0000_0000nat == 0xa9_b5c1_2797_a3ab_f784_cfce_6aa4_6d99_2286_1f77_dfe4_a8a4_4f4a_0000_0000_0000_0000_0000_0000_0000_0000_0000nat);
    lemma_near_above(
        0x3c86_4e5c, 0x86_4e5c, 120, 0x2000, 0x186a_0000_0000_0000_0000_0000_0000_0000_0000_0000nat, 34,
        48525, 0x67eb_608b_1515,
        0x2a2f_401a_4eb8_35ed_a68a_73b9nat,
        0x45_2c59_9066_9ca1, 0x12b0_eff6_c049_6d6d_d948_5020_9d41nat,
        0x29d_67cc, 0x6_d667_aa4d_ca90, 0x2e_c06d_765a_094d_288a_bae7_9100nat,
        0x2a1_a7cc, 0x6_ecb3_ac93_ca90, 0x2f_f347_db38_c73d_b2e3_c1a7_9100nat,
    );
}

/// The value 0x3c8d_0810.
proof fn lemma_at_3c8d0810()
    ensures
        chord_code(0x3c8d_0810, 0x3c85_5e8d, 0x3c8d_5e8d, 0x420b_715e, 0x4210_3370) == 35,
{
    reveal(chord_code);
    lemma2_to64();
    lemma2_to64_rest();
    lemma_high_powers();
    assert(0x8d_5e8d * 0x1 - 0x85_5e8d * 0x1 == 0x8_0000);
    lemma_sum_known(0x3c8d_5e8d, 0x3c85_5e8d, true, 0x8d_5e8d, 120, 0x85_5e8d, 120, 0x1, 0x1, 0x8_0000, 20, 0x8_0000, 0x10);
    assert(sub_spec(0x3c8d_5e8d, 0x3c85_5e8d) == 0x3a80_0000);
    assert(0x8d_0810 * 0x1 - 0x85_5e8d * 0x1 == 0x7_a983);
    lemma_sum_known(0x3c8d_0810, 0x3c85_5e8d, true, 0x8d_0810, 120, 0x85_5e8d, 120, 0x1, 0x1, 0x7_a983, 19, 0x4_0000, 0x20);
    assert(sub_spec(0x3c8d_0810, 0x3c85_5e8d) == 0x3a75_3060);
    assert(0x90_3370 * 0x1 - 0x8b_715e * 0x1 == 0x4_c212);
    lemma_sum_known(0x4210_3370, 0x420b_715e, true, 0x90_3370, 131, 0x8b_715e, 131, 0x1, 0x1, 0x4_c212, 19, 0x4_0000, 0x20);
    assert(sub_spec(0x4210_3370, 0x420b_715e) == 0x3f98_4240);
    assert(0x98_4240 * 0xf5_3060 == 0x91d4_2cc4_d800);
    lemma_product_known(0x3f98_4240, 0x3a75_3060, 0x98_4240, 126, 0xf5_3060, 115, 0x91d4_2cc4_d800, 48, 0x8000_0000_0000, 0x100_0000);
    assert(mul_spec(0x3f98_4240, 0x3a75_3060) == 0x3a91_d42d);
    assert(0x91_d42d * 0x1_0000_0000_0000_0000 == 0x1_23a8_5a00_0000_0000 * 0x80_0000 + 0x0);
    lemma_quotient_known(0x3a91_d42d, 0x3a80_0000, 0x91_d42d, 116, 0x80_0000, 116, 0x1_23a8_5a00_0000_0000, 0x0, 66, 0x2_0000_0000_0000_0000, 0x400_0000_0000);
    assert(div_spec(0x3a91_d42d, 0x3a80_0000) == 0x3f91_d42d);
    assert(0x8b_715e * 0x20 + 0x91_d42d * 0x1 == 0x11ff_ffed);
    lemma_sum_known(0x420b_715e, 0x3f91_d42d, false, 0x8b_715e, 131, 0x91_d42d, 126, 0x20, 0x1, 0x11ff_ffed, 29, 0x1000_0000, 0x20);
    assert(add_spec(0x420b_715e, 0x3f91_d42d) == 0x420f_ffff);
    lemma_whole_known(0x420f_ffff, 0x8f_ffff, 131, 0x4_0000);
}

/// The value 0x3c8d_0811.
proof fn lemma_at_3c8d0811()
    ensures
        chord_code(0x3c8d_0811, 0x3c85_5e8d, 0x3c8d_5e8d, 0x420b_715e, 0x4210_3370) == 36,
{
    reveal(chord_code);
    lemma2_to64();
    lemma2_to64_rest();
    lemma_high_powers();
    assert(0x8d_5e8d * 0x1 - 0x85_5e8d * 0x1 == 0x8_0000);
    lemma_sum_known(0x3c8d_5e8d, 0x3c85_5e8d, true, 0x8d_5e8d, 120, 0x85_5e8d, 120, 0x1, 0x1, 0x8_0000, 20, 0x8_0000, 0x10);
    assert(sub_spec(0x3c8d_5e8d, 0x3c85_5e8d) == 0x3a80_0000);
    assert(0x8d_0811 * 0x1 - 0x85_5e8d * 0x1 == 0x7_a984);
    lemma_sum_known(0x3c8d_0811, 0x3c85_5e8d, true, 0x8d_0811, 120, 0x85_5e8d, 120, 0x1, 0x1, 0x7_a984, 19, 0x4_0000, 0x20);
    assert(sub_spec(0x3c8d_0811, 0x3c85_5e8d) == 0x3a75_3080);
    assert(0x90_3370 * 0x1 - 0x8b_715e * 0x1 == 0x4_c212);
    lemma_sum_known(0x4210_3370, 0x420b_715e, true, 0x90_3370, 131, 0x8b_715e, 131, 0x1, 0x1, 0x4_c212, 19, 0x4_0000, 0x20);
    assert(sub_spec(0x4210_3370, 0x420b_715e) == 0x3f98_4240);
    assert(0x98_4240 * 0xf5_3080 == 0x91d4_3fcd_2000);
    lemma_product_known(0x3f98_4240, 0x3a75_3080, 0x98_4240, 126, 0xf5_3080, 115, 0x91d4_3fcd_2000, 48, 0x8000_0000_0000, 0x100_0000);
    assert(mul_spec(0x3f98_4240, 0x3a75_3080) == 0x3a91_d440);
    assert(0x91_d440 * 0x1_0000_0000_0000_0000 == 0x1_23a8_8000_0000_0000 * 0x80_0000 + 0x0);
    lemma_quotient_known(0x3a91_d440, 0x3a80_0000, 0x91_d440, 116, 0x80_0000, 116, 0x1_23a8_8000_0000_0000, 0x0, 66, 0x2_0000_0000_0000_0000, 0x400_0000_0000);
    assert(div_spec(0x3a91_d440, 0x3a80_0000) == 0x3f91_d440);
    assert(0x8b_715e * 0x20 + 0x91_d440 * 0x1 == 0x1200_0000);
    lemma_sum_known(0x420b_715e, 0x3f91_d440, false, 0x8b_715e, 131, 0x91_d440, 126, 0x20, 0x1, 0x1200_0000, 29, 0x1000_0000, 0x20);
    assert(add_spec(0x420b_715e, 0x3f91_d440) == 0x4210_0000);
    lemma_whole_known(0x4210_0000, 0x90_0000, 131, 0x4_0000);
}

/// The edge of code 35.
proof fn lemma_near_35()
    ensures
        near_exact_edge(0x3c8d_0810, 35),
{
    lemma2_to64();
    lemma2_to64_rest();
    lemma_fifth_powers_of_two();
    lemma_more_fifth_powers_of_two();
    assert(49525nat * 49525 * 49525 == 0x6e7a_39e8_1b4d);
    assert(269025nat * 269025 * 269025 == 0x45_2c59_9066_9ca1);
    assert(0x6e7a_39e8_1b4dnat * 0x6e7a_39e8_1b4d == 0x2fad_441e_b5c9_5ffd_c879_5529nat);
    assert(0x2fad_441e_b5c9_5ffd_c879_5529nat * 0x2fad_441e_b5c9_5ffd_c879_5529nat == 0x8e1_1448_6a61_f7ad_03e5_3362_5716_74ef_9e66_8f9b_ad16_4091nat);
    assert(0x45_2c59_9066_9ca1nat * 0x45_2c59_9066_9ca1 == 0x12b0_eff6_c049_6d6d_d948_5020_9d41nat);
    assert(0x12b0_eff6_c049_6d6d_d948_5020_9d41nat * 0x12b0_eff6_c049_6d6d_d948_5020_9d41nat == 0x15d_5c09_8741_6139_2178_92b9_bce5_5f46_89a2_dd05_b95f_0d00_50d8_ca81nat);
    assert(0x2bf_0850nat * 0x2bf_0850 == 0x7_8aae_a7a5_1900);
    assert(0x7_8aae_a7a5_1900nat * 0x7_8aae_a7a5_1900 == 0x38_e0ad_eeed_af2a_cd17_3c71_0000nat);
    assert(0x38_e0ad_eeed_af2a_cd17_3c71_0000nat * 0x2bf_0850 == 0x9c32_d66e_c486_1e49_4697_cb75_6b50_0000nat);
    assert(0x2c3_4850nat * 0x2c3_4850 == 0x7_a218_7e4d_1900);
    assert(0x7_a218_7e4d_1900nat * 0x7_a218_7e4d_1900 == 0x3a_43f9_ea68_de68_abd4_0c71_0000nat);
    assert(0x3a_43f9_ea68_de68_abd4_0c71_0000nat * 0x2c3_4850 == 0xa0fa_3085_e7a4_fa65_7ba7_b1d6_ab50_0000nat);
    assert(0x9c32_d66e_c486_1e49_4697_cb75_6b50_0000nat * 0x15d_5c09_8741_6139_2178_92b9_bce5_5f46_89a2_dd05_b95f_0d00_50d8_ca81nat == 0xd5_2976_6a61_f6ab_603f_1908_6d3d_f4a2_8d9c_2aed_1032_63a5_6eeb_57e7_68a6_dc04_8862_ad6b_c5a3_b858_3350_0000nat);
    assert(0xa0fa_3085_e7a4_fa65_7ba7_b1d6_ab50_0000nat * 0x15d_5c09_8741_6139_2178_92b9_bce5_5f46_89a2_dd05_b95f_0d00_50d8_ca81nat == 0xdb_aef4_0dd5_ac1d_736e_46ef_b9ee_3ad2_16c7_a8b9_83cb_71a7_95ab_4464_16aa_5b70_f109_4729_d47d_8bd9_7350_0000nat);
    assert(0xc35nat * 0x2_0000_0000_0000_0000_0000_0000_0000_0000_0000nat == 0x186a_0000_0000_0000_0000_0000_0000_0000_0000_0000nat);
    assert(0x8e1_1448_6a61_f7ad_03e5_3362_5716_74ef_9e66_8f9b_ad16_4091nat * 0x186a_0000_0000_0000_0000_0000_0000_0000_0000_0000nat == 0xd8_c719_2ff5_3bc8_c601_19b8_7ee2_2a42_e211_33ee_0eaf_c144_540a_0000_0000_0000_0000_0000_0000_0000_0000_0000nat);
    lemma_near_above(
        0x3c8d_0810, 0x8d_0810, 120, 0x2000, 0x186a_0000_0000_0000_0000_0000_0000_0000_0000_0000nat, 35,
        49525, 0x6e7a_39e8_1b4d,
        0x2fad_441e_b5c9_5ffd_c879_5529nat,
        0x45_2c59_9066_9ca1, 0x12b0_eff6_c049_6d6d_d948_5020_9d41nat,
        0x2bf_0850, 0x7_8aae_a7a5_1900, 0x38_e0ad_eeed_af2a_cd17_3c71_0000nat,
        0x2c3_4850, 0x7_a218_7e4d_1900, 0x3a_43f9_ea68_de68_abd4_0c71_0000nat,
    );
}

/// The value 0x3c93_ffce.
proof fn lemma_at_3c93ffce()
    ensures
        chord_code(0x3c93_ffce, 0x3c8d_5e8d, 0x3c95_5e8d, 0x4210_3370, 0x4214_c8fb) == 36,
{
    reveal(chord_code);
    lemma2_to64();
    lemma2_to64_rest();
    lemma_high_powers();
    assert(0x95_5e8d * 0x1 - 0x8d_5e8d * 0x1 == 0x8_0000);
    lemma_sum_known(0x3c95_5e8d, 0x3c8d_5e8d, true, 0x95_5e8d, 120, 0x8d_5e8d, 120, 0x1, 0x1, 0x8_0000, 20, 0x8_0000, 0x10);
    assert(sub_spec(0x3c95_5e8d, 0x3c8d_5e8d) == 0x3a80_0000);
    assert(0x93_ffce * 0x1 - 0x8d_5e8d * 0x1 == 0x6_a141);
    lemma_sum_known(0x3c93_ffce, 0x3c8d_5e8d, true, 0x93_ffce, 120, 0x8d_5e8d, 120, 0x1, 0x1, 0x6_a141, 19, 0x4_0000, 0x20);
    assert(sub_spec(0x3c93_ffce, 0x3c8d_5e8d) == 0x3a54_2820);
    assert(0x94_c8fb * 0x1 - 0x90_3370 * 0x1 == 0x4_958b);
    lemma_sum_known(0x4214_c8fb, 0x4210_3370, true, 0x94_c8fb, 131, 0x90_3370, 131, 0x1, 0x1, 0x4_958b, 19, 0x4_0000, 0x20);
    assert(sub_spec(0x4214_c8fb, 0x4210_3370) == 0x3f92_b160);
    assert(0x92_b160 * 0xd4_2820 == 0x7991_e18d_2c00);
    lemma_product_known(0x3f92_b160, 0x3a54_2820, 0x92_b160, 126, 0xd4_2820, 115, 0x7991_e18d_2c00, 47, 0x4000_0000_0000, 0x80_0000);
    assert(mul_spec(0x3f92_b160, 0x3a54_2820) == 0x3a73_23c3);
    assert(0xf3_23c3 * 0x1_0000_0000_0000_0000 == 0x1_e647_8600_0000_0000 * 0x80_0000 + 0x0);
    lemma_quotient_known(0x3a73_23c3, 0x3a80_0000, 0xf3_23c3, 115, 0x80_0000, 116, 0x1_e647_8600_0000_0000, 0x0, 66, 0x2_0000_0000_0000_0000, 0x400_0000_0000);
    assert(div_spec(0x3a73_23c3, 0x3a80_0000) == 0x3f73_23c3);
    assert(0x90_3370 * 0x40 + 0xf3_23c3 * 0x1 == 0x24ff_ffc3);
    lemma_sum_known(0x4210_3370, 0x3f73_23c3, false, 0x90_3370, 131, 0xf3_23c3, 125, 0x40, 0x1, 0x24ff_ffc3, 30, 0x2000_0000, 0x40);
    assert(add_spec(0x4210_3370, 0x3f73_23c3) == 0x4213_ffff);
    lemma_whole_known(0x4213_ffff, 0x93_ffff, 131, 0x4_0000);
}

/// The value 0x3c93_ffcf.
proof fn lemma_at_3c93ffcf()
    ensures
        chord_code(0x3c93_ffcf, 0x3c8d_5e8d, 0x3c95_5e8d, 0x4210_3370, 0x4214_c8fb) == 37,
{
    reveal(chord_code);
    lemma2_to64();
    lemma2_to64_rest();
    lemma_high_powers();
    assert(0x95_5e8d * 0x1 - 0x8d_5e8d * 0x1 == 0x8_0000);
    lemma_sum_known(0x3c95_5e8d, 0x3c8d_5e8d, true, 0x95_5e8d, 120, 0x8d_5e8d, 120, 0x1, 0x1, 0x8_0000, 20, 0x8_0000, 0x10);
    assert(sub_spec(0x3c95_5e8d, 0x3c8d_5e8d) == 0x3a80_0000);
    assert(0x93_ffcf * 0x1 - 0x8d_5e8d * 0x1 == 0x6_a142);
    lemma_sum_known(0x3c93_ffcf, 0x3c8d_5e8d, true, 0x93_ffcf, 120, 0x8d_5e8d, 120, 0x1, 0x1, 0x6_a142, 19, 0x4_0000, 0x20);
    assert(sub_spec(0x3c93_ffcf, 0x3c8d_5e8d) == 0x3a54_2840);
    assert(0x94_c8fb * 0x1 - 0x90_3370 * 0x1 == 0x4_958b);
    lemma_sum_known(0x4214_c8fb, 0x4210_3370, true, 0x94_c8fb, 131, 0x90_3370, 131, 0x1, 0x1, 0x4_958b, 19, 0x4_0000, 0x20);
    assert(sub_spec(0x4214_c8fb, 0x4210_3370) == 0x3f92_b160);
    assert(0x92_b160 * 0xd4_2840 == 0x7991_f3e3_5800);
    lemma_product_known(0x3f92_b160, 0x3a54_2840, 0x92_b160, 126, 0xd4_2840, 115, 0x7991_f3e3_5800, 47, 0x4000_0000_0000, 0x80_0000);
    assert(mul_spec(0x3f92_b160, 0x3a54_2840) == 0x3a73_23e8);
    assert(0xf3_23e8 * 0x1_0000_0000_0000_0000 == 0x1_e647_d000_0000_0000 * 0x80_0000 + 0x0);
    lemma_quotient_known(0x3a73_23e8, 0x3a80_0000, 0xf3_23e8, 115, 0x80_0000, 116, 0x1_e647_d000_0000_0000, 0x0, 66, 0x2_0000_0000_0000_0000, 0x400_0000_0000);
    assert(div_spec(0x3a73_23e8, 0x3a80_0000) == 0x3f73_23e8);
    assert(0x90_3370 * 0x40 + 0xf3_23e8 * 0x1 == 0x24ff_ffe8);
    lemma_sum_known(0x4210_3370, 0x3f73_23e8, false, 0x90_3370, 131, 0xf3_23e8, 125, 0x40, 0x1, 0x24ff_ffe8, 30, 0x2000_0000, 0x40);
    assert(add_spec(0x4210_3370, 0x3f73_23e8) == 0x4214_0000);
    lemma_whole_known(0x4214_0000, 0x94_0000, 131, 0x4_0000);
}

/// The edge of code 36.
proof fn lemma_near_36()
    ensures
        near_exact_edge(0x3c93_ffce, 36),
{
    lemma2_to64();
    lemma2_to64_rest();
    lemma_fifth_powers_of_two();
    lemma_more_fifth_powers_of_two();
    assert(50525nat * 50525 * 50525 == 0x754e_42ca_4d05);
    assert(269025nat * 269025 * 269025 == 0x45_2c59_9066_9ca1);
    assert(0x754e_42ca_4d05nat * 0x754e_42ca_4d05 == 0x35c0_a0f9_af1a_70a0_3710_0219nat);
    assert(0x35c0_a0f9_af1a_70a0_3710_0219nat * 0x35c0_a0f9_af1a_70a0_3710_0219nat == 0xb49_5399_3e40_a8b2_6d1b_be16_bca2_fb33_7cc4_6127_0124_6671nat);
    assert(0x45_2c59_9066_9ca1nat * 0x45_2c59_9066_9ca1 == 0x12b0_eff6_c049_6d6d_d948_5020_9d41nat);
    assert(0x12b0_eff6_c049_6d6d_d948_5020_9d41nat * 0x12b0_eff6_c049_6d6d_d948_5020_9d41nat == 0x15d_5c09_8741_6139_2178_92b9_bce5_5f46_89a2_dd05_b95f_0d00_50d8_ca81nat);
    assert(0x2e1_df06nat * 0x2e1_df06 == 0x8_4ec5_e2d7_7424);
    assert(0x8_4ec5_e2d7_7424nat * 0x8_4ec5_e2d7_7424 == 0x45_049b_5ca9_759f_cdcb_d928_a510nat);
    assert(0x45_049b_5ca9_759f_cdcb_d928_a510nat * 0x2e1_df06 == 0xc6ee_63e7_3537_6a7e_6ddf_92f4_b1cc_ce60nat);
    assert(0x2e6_1f06nat * 0x2e6_1f06 == 0x8_6757_da8a_7424);
    assert(0x8_6757_da8a_7424nat * 0x8_6757_da8a_7424 == 0x46_9f35_78a8_f060_0126_bb80_a510nat);
    assert(0x46_9f35_78a8_f060_0126_bb80_a510nat * 0x2e6_1f06 == 0xccba_03ea_ee85_ff54_98a7_2e7b_6560_ce60nat);
    assert(0xc6ee_63e7_3537_6a7e_6ddf_92f4_b1cc_ce60nat * 0x15d_5c09_8741_6139_2178_92b9_bce5_5f46_89a2_dd05_b95f_0d00_50d8_ca81nat == 0x10f_7a83_4596_ab8f_fb49_fa3d_0844_5c8a_71eb_46a5_f95d_58c0_01ce_396b_6b15_0ad8_dfa1_5003_99bf_06e5_540b_be60nat);
    assert(0xccba_03ea_ee85_ff54_98a7_2e7b_6560_ce60nat * 0x15d_5c09_8741_6139_2178_92b9_bce5_5f46_89a2_dd05_b95f_0d00_50d8_ca81nat == 0x117_6331_cf64_1eb3_aee7_0124_e1f5_f261_c390_55ea_791a_ce01_ad1f_0877_dcec_afb5_3b4a_35c0_7ed2_7458_999f_be60nat);
    assert(0xc35nat * 0x2_0000_0000_0000_0000_0000_0000_0000_0000_0000nat == 0x186a_0000_0000_0000_0000_0000_0000_0000_0000_0000nat);
    assert(0xb49_5399_3e40_a8b2_6d1b_be16_bca2_fb33_7cc4_6127_0124_6671nat * 0x186a_0000_0000_0000_0000_0000_0000_0000_0000_0000nat == 0x113_8c32_fb49_d696_941b_c74e_d719_6308_d704_126b_e241_e2ad_02ca_0000_0000_0000_0000_0000_0000_0000_0000_0000nat);
    lemma_near_above(
        0x3c93_ffce, 0x93_ffce, 120, 0x2000, 0x186a_0000_0000_0000_0000_0000_0000_0000_0000_0000nat, 36,
        50525, 0x754e_42ca_4d05,
        0x35c0_a0f9_af1a_70a0_3710_0219nat,
        0x45_2c59_9066_9ca1, 0x12b0_eff6_c049_6d6d_d948_5020_9d41nat,
        0x2e1_df06, 0x8_4ec5_e2d7_7424, 0x45_049b_5ca9_759f_cdcb_d928_a510nat,
        0x2e6_1f06, 0x8_6757_da8a_7424, 0x46_9f35_78a8_f060_0126_bb80_a510nat,
    );
}

/// The value 0x3c9b_024d.
proof fn lemma_at_3c9b024d()
    ensures
        chord_code(0x3c9b_024d, 0x3c95_5e8d, 0x3c9d_5e8d, 0x4214_c8fb, 0x4219_5874) == 37,
{
    reveal(chord_code);
    lemma2_to64();
    lemma2_to64_rest();
    lemma_high_powers();
    assert(0x9d_5e8d * 0x1 - 0x95_5e8d * 0x1 == 0x8_0000);
    lemma_sum_known(0x3c9d_5e8d, 0x3c95_5e8d, true, 0x9d_5e8d, 120, 0x95_5e8d, 120, 0x1, 0x1, 0x8_0000, 20, 0x8_0000, 0x10);
    assert(sub_spec(0x3c9d_5e8d, 0x3c95_5e8d) == 0x3a80_0000);
    assert(0x9b_024d * 0x1 - 0x95_5e8d * 0x1 == 0x5_a3c0);
    lemma_sum_known(0x3c9b_024d, 0x3c95_5e8d, true, 0x9b_024d, 120, 0x95_5e8d, 120, 0x1, 0x1, 0x5_a3c0, 19, 0x4_0000, 0x20);
    assert(sub_spec(0x3c9b_024d, 0x3c95_5e8d) == 0x3a34_7800);
    assert(0x99_5874 * 0x1 - 0x94_c8fb * 0x1 == 0x4_8f79);
    lemma_sum_known(0x4219_5874, 0x4214_c8fb, true, 0x99_5874, 131, 0x94_c8fb, 131, 0x1, 0x1, 0x4_8f79, 19, 0x4_0000, 0x20);
    assert(sub_spec(0x4219_5874, 0x4214_c8fb) == 0x3f91_ef20);
    assert(0x91_ef20 * 0xb4_7800 == 0x66e0_8a97_0000);
    lemma_product_known(0x3f91_ef20, 0x3a34_7800, 0x91_ef20, 126, 0xb4_7800, 115, 0x66e0_8a97_0000, 47, 0x4000_0000_0000, 0x80_0000);
    assert(mul_spec(0x3f91_ef20, 0x3a34_7800) == 0x3a4d_c115);
    assert(0xcd_c115 * 0x1_0000_0000_0000_0000 == 0x1_9b82_2a00_0000_0000 * 0x80_0000 + 0x0);
    lemma_quotient_known(0x3a4d_c115, 0x3a80_0000, 0xcd_c115, 115, 0x80_0000, 116, 0x1_9b82_2a00_0000_0000, 0x0, 66, 0x2_0000_0000_0000_0000, 0x400_0000_0000);
    assert(div_spec(0x3a4d_c115, 0x3a80_0000) == 0x3f4d_c115);
    assert(0x94_c8fb * 0x40 + 0xcd_c115 * 0x1 == 0x25ff_ffd5);
    lemma_sum_known(0x4214_c8fb, 0x3f4d_c115, false, 0x94_c8fb, 131, 0xcd_c115, 125, 0x40, 0x1, 0x25ff_ffd5, 30, 0x2000_0000, 0x40);
    assert(add_spec(0x4214_c8fb, 0x3f4d_c115) == 0x4217_ffff);
    lemma_whole_known(0x4217_ffff, 0x97_ffff, 131, 0x4_0000);
}

/// The value 0x3c9b_024e.
proof fn lemma_at_3c9b024e()
    ensures
        chord_code(0x3c9b_024e, 0x3c95_5e8d, 0x3c9d_5e8d, 0x4214_c8fb, 0x4219_5874) == 38,
{
    reveal(chord_code);
    lemma2_to64();
    lemma2_to64_rest();
    lemma_high_powers();
    assert(0x9d_5e8d * 0x1 - 0x95_5e8d * 0x1 == 0x8_0000);
    lemma_sum_known(0x3c9d_5e8d, 0x3c95_5e8d, true, 0x9d_5e8d, 120, 0x95_5e8d, 120, 0x1, 0x1, 0x8_0000, 20, 0x8_0000, 0x10);
    assert(sub_spec(0x3c9d_5e8d, 0x3c95_5e8d) == 0x3a80_0000);
    assert(0x9b_024e * 0x1 - 0x95_5e8d * 0x1 == 0x5_a3c1);
    lemma_sum_known(0x3c9b_024e, 0x3c95_5e8d, true, 0x9b_024e, 120, 0x95_5e8d, 120, 0x1, 0x1, 0x5_a3c1, 19, 0x4_0000, 0x20);
    assert(sub_spec(0x3c9b_024e, 0x3c95_5e8d) == 0x3a34_7820);
    assert(0x99_5874 * 0x1 - 0x94_c8fb * 0x1 == 0x4_8f79);
    lemma_sum_known(0x4219_5874, 0x4214_c8fb, true, 0x99_5874, 131, 0x94_c8fb, 131, 0x1, 0x1, 0x4_8f79, 19, 0x4_0000, 0x20);
    assert(sub_spec(0x4219_5874, 0x4214_c8fb) == 0x3f91_ef20);
    assert(0x91_ef20 * 0xb4_7820 == 0x66e0_9cd4_e400);
    lemma_product_known(0x3f91_ef20, 0x3a34_7820, 0x91_ef20, 126, 0xb4_7820, 115, 0x66e0_9cd4_e400, 47, 0x4000_0000_0000, 0x80_0000);
    assert(mul_spec(0x3f91_ef20, 0x3a34_7820) == 0x3a4d_c13a);
    assert(0xcd_c13a * 0x1_0000_0000_0000_0000 == 0x1_9b82_7400_0000_0000 * 0x80_0000 + 0x0);
    lemma_quotient_known(0x3a4d_c13a, 0x3a80_0000, 0xcd_c13a, 115, 0x80_0000, 116, 0x1_9b82_7400_0000_0000, 0x0, 66, 0x2_0000_0000_0000_0000, 0x400_0000_0000);
    assert(div_spec(0x3a4d_c13a, 0x3a80_0000) == 0x3f4d_c13a);
    assert(0x94_c8fb * 0x40 + 0xcd_c13a * 0x1 == 0x25ff_fffa);
    lemma_sum_known(0x4214_c8fb, 0x3f4d_c13a, false, 0x94_c8fb, 131, 0xcd_c13a, 125, 0x40, 0x1, 0x25ff_fffa, 30, 0x2000_0000, 0x40);
    assert(add_spec(0x4214_c8fb, 0x3f4d_c13a) == 0x4218_0000);
    lemma_whole_known(0x4218_0000, 0x98_0000, 131, 0x4_0000);
}

/// The edge of code 37.
proof fn lemma_near_37()
    ensures
        near_exact_edge(0x3c9b_024d, 37),
{
    lemma2_to64();
    lemma2_to64_rest();
    lemma_fifth_powers_of_two();
    lemma_more_fifth_powers_of_two();
    assert(51525nat * 51525 * 51525 == 0x7c68_e0d2_663d);
    assert(269025nat * 269025 * 269025 == 0x45_2c59_9066_9ca1);
    assert(0x7c68_e0d2_663dnat * 0x7c68_e0d2_663d == 0x3c75_c4c3_436f_0966_a4e8_aa89nat);
    assert(0x3c75_c4c3_436f_0966_a4e8_aa89nat * 0x3c75_c4c3_436f_0966_a4e8_aa89nat == 0xe47_6a68_f953_4418_8870_9a94_7a7c_c07d_c86e_7521_11ea_3d51nat);
    assert(0x45_2c59_9066_9ca1nat * 0x45_2c59_9066_9ca1 == 0x12b0_eff6_c049_6d6d_d948_5020_9d41nat);
    assert(0x12b0_eff6_c049_6d6d_d948_5020_9d41nat * 0x12b0_eff6_c049_6d6d_d948_5020_9d41nat == 0x15d_5c09_8741_6139_2178_92b9_bce5_5f46_89a2_dd05_b95f_0d00_50d8_ca81nat);
    assert(0x304_eb81nat * 0x304_eb81 == 0x9_1d9d_3aae_1701);
    assert(0x9_1d9d_3aae_1701nat * 0x9_1d9d_3aae_1701 == 0x53_187b_201a_1643_ca09_bb6d_2e01nat);
    assert(0x53_187b_201a_1643_ca09_bb6d_2e01nat * 0x304_eb81 == 0xfae2_44a5_2b2e_4402_b7f8_f333_6643_1981nat);
    assert(0x309_2b81nat * 0x309_2b81 == 0x9_3759_1c76_9701);
    assert(0x9_3759_1c76_9701nat * 0x9_3759_1c76_9701 == 0x54_f03b_6996_6093_94a9_c5fe_2e01nat);
    assert(0x54_f03b_6996_6093_94a9_c5fe_2e01nat * 0x309_2b81 == 0x1_01db_937a_8217_96ed_aba0_5e48_17d8_5981nat);
    assert(0xfae2_44a5_2b2e_4402_b7f8_f333_6643_1981nat * 0x15d_5c09_8741_6139_2178_92b9_bce5_5f46_89a2_dd05_b95f_0d00_50d8_ca81nat == 0x156_60aa_3c59_0854_1dac_bc0d_dec6_906f_3dd8_9f30_d5a3_e1ba_a5e8_a9df_5fb8_b6bc_a20c_59a1_7fd6_e92d_4ec7_a401nat);
    assert(0x1_01db_937a_8217_96ed_aba0_5e48_17d8_5981nat * 0x15d_5c09_8741_6139_2178_92b9_bce5_5f46_89a2_dd05_b95f_0d00_50d8_ca81nat == 0x15f_e50c_8ff8_35ab_9a46_2c89_fe58_4a5c_d120_bbee_18ee_e44b_4219_138b_8499_0fe2_ed0b_7ba8_86e6_aca8_8f7c_e401nat);
    assert(0xc35nat * 0x2_0000_0000_0000_0000_0000_0000_0000_0000_0000nat == 0x186a_0000_0000_0000_0000_0000_0000_0000_0000_0000nat);
    assert(0xe47_6a68_f953_4418_8870_9a94_7a7c_c07d_c86e_7521_11ea_3d51nat * 0x186a_0000_0000_0000_0000_0000_0000_0000_0000_0000nat == 0x15c_9b8b_e6d7_0adc_7ef3_0d1d_ecf6_69b3_7edf_58b7_995f_60bc_fb8a_0000_0000_0000_0000_0000_0000_0000_0000_0000nat);
    lemma_near_above(
        0x3c9b_024d, 0x9b_024d, 120, 0x2000, 0x186a_0000_0000_0000_0000_0000_0000_0000_0000_0000nat, 37,
        51525, 0x7c68_e0d2_663d,
        0x3c75_c4c3_436f_0966_a4e8_aa89nat,
        0x45_2c59_9066_9ca1, 0x12b0_eff6_c049_6d6d_d948_5020_9d41nat,
        0x304_eb81, 0x9_1d9d_3aae_1701, 0x53_187b_201a_1643_ca09_bb6d_2e01nat,
        0x309_2b81, 0x9_3759_1c76_9701, 0x54_f03b_6996_6093_94a9_c5fe_2e01nat,
    );
}

/// The value 0x3ca2_54cf.
proof fn lemma_at_3ca254cf()
    ensures
        chord_code(0x3ca2_54cf, 0x3c9d_5e8d, 0x3ca5_5e8d, 0x4219_5874, 0x421d_a010) == 38,
{
    reveal(chord_code);
    lemma2_to64();
    lemma2_to64_rest();
    lemma_high_powers();
    assert(0xa5_5e8d * 0x1 - 0x9d_5e8d * 0x1 == 0x8_0000);
    lemma_sum_known(0x3ca5_5e8d, 0x3c9d_5e8d, true, 0xa5_5e8d, 120, 0x9d_5e8d, 120, 0x1, 0x1, 0x8_0000, 20, 0x8_0000, 0x10);
    assert(sub_spec(0x3ca5_5e8d, 0x3c9d_5e8d) == 0x3a80_0000);
    assert(0xa2_54cf * 0x1 - 0x9d_5e8d * 0x1 == 0x4_f642);
    lemma_sum_known(0x3ca2_54cf, 0x3c9d_5e8d, true, 0xa2_54cf, 120, 0x9d_5e8d, 120, 0x1, 0x1, 0x4_f642, 19, 0x4_0000, 0x20);
    assert(sub_spec(0x3ca2_54cf, 0x3c9d_5e8d) == 0x3a1e_c840);
    assert(0x9d_a010 * 0x1 - 0x99_5874 * 0x1 == 0x4_479c);
    lemma_sum_known(0x421d_a010, 0x4219_5874, true, 0x9d_a010, 131, 0x99_5874, 131, 0x1, 0x1, 0x4_479c, 19, 0x4_0000, 0x20);
    assert(sub_spec(0x421d_a010, 0x4219_5874) == 0x3f88_f380);
    assert(0x88_f380 * 0x9e_c840 == 0x54f1_6978_e000);
    lemma_product_known(0x3f88_f380, 0x3a1e_c840, 0x88_f380, 126, 0x9e_c840, 115, 0x54f1_6978_e000, 47, 0x4000_0000_0000, 0x80_0000);
    assert(mul_spec(0x3f88_f380, 0x3a1e_c840) == 0x3a29_e2d3);
    assert(0xa9_e2d3 * 0x1_0000_0000_0000_0000 == 0x1_53c5_a600_0000_0000 * 0x80_0000 + 0x0);
    lemma_quotient_known(0x3a29_e2d3, 0x3a80_0000, 0xa9_e2d3, 115, 0x80_0000, 116, 0x1_53c5_a600_0000_0000, 0x0, 66, 0x2_0000_0000_0000_0000, 0x400_0000_0000);
    assert(div_spec(0x3a29_e2d3, 0x3a80_0000) == 0x3f29_e2d3);
    assert(0x99_5874 * 0x40 + 0xa9_e2d3 * 0x1 == 0x26ff_ffd3);
    lemma_sum_known(0x4219_5874, 0x3f29_e2d3, false, 0x99_5874, 131, 0xa9_e2d3, 125, 0x40, 0x1, 0x26ff_ffd3, 30, 0x2000_0000, 0x40);
    assert(add_spec(0x4219_5874, 0x3f29_e2d3) == 0x421b_ffff);
    lemma_whole_known(0x421b_ffff, 0x9b_ffff, 131, 0x4_0000);
}

/// The value 0x3ca2_54d0.
proof fn lemma_at_3ca254d0()
    ensures
        chord_code(0x3ca2_54d0, 0x3c9d_5e8d, 0x3ca5_5e8d, 0x4219_5874, 0x421d_a010) == 39,
{
    reveal(chord_code);
    lemma2_to64();
    lemma2_to64_rest();
    lemma_high_powers();
    assert(0xa5_5e8d * 0x1 - 0x9d_5e8d * 0x1 == 0x8_0000);
    lemma_sum_known(0x3ca5_5e8d, 0x3c9d_5e8d, true, 0xa5_5e8d, 120, 0x9d_5e8d, 120, 0x1, 0x1, 0x8_0000, 20, 0x8_0000, 0x10);
    assert(sub_spec(0x3ca5_5e8d, 0x3c9d_5e8d) == 0x3a80_0000);
    assert(0xa2_54d0 * 0x1 - 0x9d_5e8d * 0x1 == 0x4_f643);
    lemma_sum_known(0x3ca2_54d0, 0x3c9d_5e8d, true, 0xa2_54d0, 120, 0x9d_5e8d, 120, 0x1, 0x1, 0x4_f643, 19, 0x4_0000, 0x20);
    assert(sub_spec(0x3ca2_54d0, 0x3c9d_5e8d) == 0x3a1e_c860);
    assert(0x9d_a010 * 0x1 - 0x99_5874 * 0x1 == 0x4_479c);
    lemma_sum_known(0x421d_a010, 0x4219_5874, true, 0x9d_a010, 131, 0x99_5874, 131, 0x1, 0x1, 0x4_479c, 19, 0x4_0000, 0x20);
    assert(sub_spec(0x421d_a010, 0x4219_5874) == 0x3f88_f380);
    assert(0x88_f380 * 0x9e_c860 == 0x54f1_7a97_5000);
    lemma_product_known(0x3f88_f380, 0x3a1e_c860, 0x88_f380, 126, 0x9e_c860, 115, 0x54f1_7a97_5000, 47, 0x4000_0000_0000, 0x80_0000);
    assert(mul_spec(0x3f88_f380, 0x3a1e_c860) == 0x3a29_e2f5);
    assert(0xa9_e2f5 * 0x1_0000_0000_0000_0000 == 0x1_53c5_ea00_0000_0000 * 0x80_0000 + 0x0);
    lemma_quotient_known(0x3a29_e2f5, 0x3a80_0000, 0xa9_e2f5, 115, 0x80_0000, 116, 0x1_53c5_ea00_0000_0000, 0x0, 66, 0x2_0000_0000_0000_0000, 0x400_0000_0000);
    assert(div_spec(0x3a29_e2f5, 0x3a80_0000) == 0x3f29_e2f5);
    assert(0x99_5874 * 0x40 + 0xa9_e2f5 * 0x1 == 0x26ff_fff5);
    lemma_sum_known(0x4219_5874, 0x3f29_e2f5, false, 0x99_5874, 131, 0xa9_e2f5, 125, 0x40, 0x1, 0x26ff_fff5, 30, 0x2000_0000, 0x40);
    assert(add_spec(0x4219_5874, 0x3f29_e2f5) == 0x421c_0000);
    lemma_whole_known(0x421c_0000, 0x9c_0000, 131, 0x4_0000);
}

/// The edge of code 38.
proof fn lemma_near_38()
    ensures
        near_exact_edge(0x3ca2_54cf, 38),
{
    lemma2_to64();
    lemma2_to64_rest();
    lemma_fifth_powers_of_two();
    lemma_more_fifth_powers_of_two();
    assert(52525nat * 52525 * 52525 == 0x83cb_79a1_22f5);
    assert(269025nat * 269025 * 269025 == 0x45_2c59_9066_9ca1);
    assert(0x83cb_79a1_22f5nat * 0x83cb_79a1_22f5 == 0x43d9_e035_091d_e706_96ef_fe79nat);
    assert(0x43d9_e035_091d_e706_96ef_fe79nat * 0x43d9_e035_091d_e706_96ef_fe79nat == 0x11fb_c4c9_a10b_f690_372d_d0ab_da6d_14ee_b2e6_6ade_eee2_5531nat);
    assert(0x45_2c59_9066_9ca1nat * 0x45_2c59_9066_9ca1 == 0x12b0_eff6_c049_6d6d_d948_5020_9d41nat);
    assert(0x12b0_eff6_c049_6d6d_d948_5020_9d41nat * 0x12b0_eff6_c049_6d6d_d948_5020_9d41nat == 0x15d_5c09_8741_6139_2178_92b9_bce5_5f46_89a2_dd05_b95f_0d00_50d8_ca81nat);
    assert(0x329_880bnat * 0x329_880b == 0x9_ffed_1dd1_b079);
    assert(0x9_ffed_1dd1_b079nat * 0x9_ffed_1dd1_b079 == 0x63_fe86_55c6_5fcc_fbc7_0938_9931nat);
    assert(0x63_fe86_55c6_5fcc_fbc7_0938_9931nat * 0x329_880b == 0x1_3c34_7a08_5d3b_d132_ab8c_b24f_92a9_9d1bnat);
    assert(0x32d_c80bnat * 0x32d_c80b == 0xa_1ae0_322f_3079);
    assert(0xa_1ae0_322f_3079nat * 0xa_1ae0_322f_3079 == 0x66_1c56_3a39_3bb7_df62_199b_9931nat);
    assert(0x66_1c56_3a39_3bb7_df62_199b_9931nat * 0x32d_c80b == 0x1_4497_c85d_7cf3_de0d_a1f6_905e_29fa_dd1bnat);
    assert(0x1_3c34_7a08_5d3b_d132_ab8c_b24f_92a9_9d1bnat * 0x15d_5c09_8741_6139_2178_92b9_bce5_5f46_89a2_dd05_b95f_0d00_50d8_ca81nat == 0x1af_8538_fe2a_d41c_d0ea_af7f_9233_903d_05a8_7015_368b_ca6a_3f87_13fd_40ae_185d_802b_86c8_3490_c307_bc37_789bnat);
    assert(0x1_4497_c85d_7cf3_de0d_a1f6_905e_29fa_dd1bnat * 0x15d_5c09_8741_6139_2178_92b9_bce5_5f46_89a2_dd05_b95f_0d00_50d8_ca81nat == 0x1ba_f79e_c849_ed1f_e0be_5103_f3a0_5103_bba3_4531_acc8_a3f6_6988_96bf_3230_c072_e7b0_a25b_b4fa_3c56_18a8_b89bnat);
    assert(0xc35nat * 0x2_0000_0000_0000_0000_0000_0000_0000_0000_0000nat == 0x186a_0000_0000_0000_0000_0000_0000_0000_0000_0000nat);
    assert(0x11fb_c4c9_a10b_f690_372d_d0ab_da6d_14ee_b2e6_6ade_eee2_5531nat * 0x186a_0000_0000_0000_0000_0000_0000_0000_0000_0000nat == 0x1b7_0cb2_6295_ce11_9ce3_2488_83a2_ab21_0b9b_ad6d_26b4_21b3_de4a_0000_0000_0000_0000_0000_0000_0000_0000_0000nat);
    lemma_near_above(
        0x3ca2_54cf, 0xa2_54cf, 120, 0x2000, 0x186a_0000_0000_0000_0000_0000_0000_0000_0000_0000nat, 38,
        52525, 0x83cb_79a1_22f5,
        0x43d9_e035_091d_e706_96ef_fe79nat,
        0x45_2c59_9066_9ca1, 0x12b0_eff6_c049_6d6d_d948_5020_9d41nat,
        0x329_880b, 0x9_ffed_1dd1_b079, 0x63_fe86_55c6_5fcc_fbc7_0938_9931nat,
        0x32d_c80b, 0xa_1ae0_322f_3079, 0x66_1c56_3a39_3bb7_df62_199b_9931nat,
    );
}

/// The value 0x3ca9_cace.
proof fn lemma_at_3ca9cace()
    ensures
        chord_code(0x3ca9_cace, 0x3ca5_5e8d, 0x3cad_5e8d, 0x421d_a010, 0x4221_ebaf) == 39,
{
    reveal(chord_code);
    lemma2_to64();
    lemma2_to64_rest();
    lemma_high_powers();
    assert(0xad_5e8d * 0x1 - 0xa5_5e8d * 0x1 == 0x8_0000);
    lemma_sum_known(0x3cad_5e8d, 0x3ca5_5e8d, true, 0xad_5e8d, 120, 0xa5_5e8d, 120, 0x1, 0x1, 0x8_0000, 20, 0x8_0000, 0x10);
    assert(sub_spec(0x3cad_5e8d, 0x3ca5_5e8d) == 0x3a80_0000);
    assert(0xa9_cace * 0x1 - 0xa5_5e8d * 0x1 == 0x4_6c41);
    lemma_sum_known(0x3ca9_cace, 0x3ca5_5e8d, true, 0xa9_cace, 120, 0xa5_5e8d, 120, 0x1, 0x1, 0x4_6c41, 19, 0x4_0000, 0x20);
    assert(sub_spec(0x3ca9_cace, 0x3ca5_5e8d) == 0x3a0d_8820);
    assert(0xa1_ebaf * 0x1 - 0x9d_a010 * 0x1 == 0x4_4b9f);
    lemma_sum_known(0x4221_ebaf, 0x421d_a010, true, 0xa1_ebaf, 131, 0x9d_a010, 131, 0x1, 0x1, 0x4_4b9f, 19, 0x4_0000, 0x20);
    assert(sub_spec(0x4221_ebaf, 0x421d_a010) == 0x3f89_73e0);
    assert(0x89_73e0 * 0x8d_8820 == 0x4bfd_e91d_7c00);
    lemma_product_known(0x3f89_73e0, 0x3a0d_8820, 0x89_73e0, 126, 0x8d_8820, 115, 0x4bfd_e91d_7c00, 47, 0x4000_0000_0000, 0x80_0000);
    assert(mul_spec(0x3f89_73e0, 0x3a0d_8820) == 0x3a17_fbd2);
    assert(0x97_fbd2 * 0x1_0000_0000_0000_0000 == 0x1_2ff7_a400_0000_0000 * 0x80_0000 + 0x0);
    lemma_quotient_known(0x3a17_fbd2, 0x3a80_0000, 0x97_fbd2, 115, 0x80_0000, 116, 0x1_2ff7_a400_0000_0000, 0x0, 66, 0x2_0000_0000_0000_0000, 0x400_0000_0000);
    assert(div_spec(0x3a17_fbd2, 0x3a80_0000) == 0x3f17_fbd2);
    assert(0x9d_a010 * 0x40 + 0x97_fbd2 * 0x1 == 0x27ff_ffd2);
    lemma_sum_known(0x421d_a010, 0x3f17_fbd2, false, 0x9d_a010, 131, 0x97_fbd2, 125, 0x40, 0x1, 0x27ff_ffd2, 30, 0x2000_0000, 0x40);
    assert(add_spec(0x421d_a010, 0x3f17_fbd2) == 0x421f_ffff);
    lemma_whole_known(0x421f_ffff, 0x9f_ffff, 131, 0x4_0000);
}

/// The value 0x3ca9_cacf.
proof fn lemma_at_3ca9cacf()
    ensures
        chord_code(0x3ca9_cacf, 0x3ca5_5e8d, 0x3cad_5e8d, 0x421d_a010, 0x4221_ebaf) == 40,
{
    reveal(chord_code);
    lemma2_to64();
    lemma2_to64_rest();
    lemma_high_powers();
    assert(0xad_5e8d * 0x1 - 0xa5_5e8d * 0x1 == 0x8_0000);
    lemma_sum_known(0x3cad_5e8d, 0x3ca5_5e8d, true, 0xad_5e8d, 120, 0xa5_5e8d, 120, 0x1, 0x1, 0x8_0000, 20, 0x8_0000, 0x10);
    assert(sub_spec(0x3cad_5e8d, 0x3ca5_5e8d) == 0x3a80_0000);
    assert(0xa9_cacf * 0x1 - 0xa5_5e8d * 0x1 == 0x4_6c42);
    lemma_sum_known(0x3ca9_cacf, 0x3ca5_5e8d, true, 0xa9_cacf, 120, 0xa5_5e8d, 120, 0x1, 0x1, 0x4_6c42, 19, 0x4_0000, 0x20);
    assert(sub_spec(0x3ca9_cacf, 0x3ca5_5e8d) == 0x3a0d_8840);
    assert(0xa1_ebaf * 0x1 - 0x9d_a010 * 0x1 == 0x4_4b9f);
    lemma_sum_known(0x4221_ebaf, 0x421d_a010, true, 0xa1_ebaf, 131, 0x9d_a010, 131, 0x1, 0x1, 0x4_4b9f, 19, 0x4_0000, 0x20);
    assert(sub_spec(0x4221_ebaf, 0x421d_a010) == 0x3f89_73e0);
    assert(0x89_73e0 * 0x8d_8840 == 0x4bfd_fa4b_f800);
    lemma_product_known(0x3f89_73e0, 0x3a0d_8840, 0x89_73e0, 126, 0x8d_8840, 115, 0x4bfd_fa4b_f800, 47, 0x4000_0000_0000, 0x80_0000);
    assert(mul_spec(0x3f89_73e0, 0x3a0d_8840) == 0x3a17_fbf5);
    assert(0x97_fbf5 * 0x1_0000_0000_0000_0000 == 0x1_2ff7_ea00_0000_0000 * 0x80_0000 + 0x0);
    lemma_quotient_known(0x3a17_fbf5, 0x3a80_0000, 0x97_fbf5, 115, 0x80_0000, 116, 0x1_2ff7_ea00_0000_0000, 0x0, 66, 0x2_0000_0000_0000_0000, 0x400_0000_0000);
    assert(div_spec(0x3a17_fbf5, 0x3a80_0000) == 0x3f17_fbf5);
    assert(0x9d_a010 * 0x40 + 0x97_fbf5 * 0x1 == 0x27ff_fff5);
    lemma_sum_known(0x421d_a010, 0x3f17_fbf5, false, 0x9d_a010, 131, 0x97_fbf5, 125, 0x40, 0x1, 0x27ff_fff5, 30, 0x2000_0000, 0x40);
    assert(add_spec(0x421d_a010, 0x3f17_fbf5) == 0x4220_0000);
    lemma_whole_known(0x4220_0000, 0xa0_0000, 131, 0x4_0000);
}

/// The edge of code 39.
proof fn lemma_near_39()
    ensures
        near_exact_edge(0x3ca9_cace, 39),
{
    lemma2_to64();
    lemma2_to64_rest();
    lemma_fifth_powers_of_two();
    lemma_more_fifth_powers_of_two();
    assert(53525nat * 53525 * 53525 == 0x8b77_72d7_3f2d);
    assert(269025nat * 269025 * 269025 == 0x45_2c59_9066_9ca1);
    assert(0x8b77_72d7_3f2dnat * 0x8b77_72d7_3f2d == 0x4bfa_ee71_b63c_0315_412d_2de9nat);
    assert(0x4bfa_ee71_b63c_0315_412d_2de9nat * 0x4bfa_ee71_b63c_0315_412d_2de9nat == 0x168c_fdad_34f6_b85e_7223_658b_6700_0f71_a24c_f783_7e25_be11nat);
    assert(0x45_2c59_9066_9ca1nat * 0x45_2c59_9066_9ca1 == 0x12b0_eff6_c049_6d6d_d948_5020_9d41nat);
    assert(0x12b0_eff6_c049_6d6d_d948_5020_9d41nat * 0x12b0_eff6_c049_6d6d_d948_5020_9d41nat == 0x15d_5c09_8741_6139_2178_92b9_bce5_5f46_89a2_dd05_b95f_0d00_50d8_ca81nat);
    assert(0x34e_d606nat * 0x34e_d606 == 0xa_f14b_4296_0824);
    assert(0xa_f14b_4296_0824nat * 0xa_f14b_4296_0824 == 0x77_bd4f_fd37_335e_4138_1a72_4510nat);
    assert(0x77_bd4f_fd37_335e_4138_1a72_4510nat * 0x34e_d606 == 0x1_8c17_b966_19f7_d5b7_8621_d30c_5f48_fe60nat);
    assert(0x353_1606nat * 0x353_1606 == 0xb_0d7b_6dc9_0824);
    assert(0xb_0d7b_6dc9_0824nat * 0xb_0d7b_6dc9_0824 == 0x7a_2951_33ef_cc2e_4964_70ca_4510nat);
    assert(0x7a_2951_33ef_cc2e_4964_70ca_4510nat * 0x353_1606 == 0x1_9621_db59_9881_9108_bc47_4a6f_9adc_fe60nat);
    assert(0x1_8c17_b966_19f7_d5b7_8621_d30c_5f48_fe60nat * 0x15d_5c09_8741_6139_2178_92b9_bce5_5f46_89a2_dd05_b95f_0d00_50d8_ca81nat == 0x21c_8abf_04ed_4802_a2a6_3202_4cbf_6ddc_dfb1_a77f_277c_1062_65d9_10f4_5a4e_3ac9_8439_d46f_b255_3180_3d7f_ee60nat);
    assert(0x1_9621_db59_9881_9108_bc47_4a6f_9adc_fe60nat * 0x15d_5c09_8741_6139_2178_92b9_bce5_5f46_89a2_dd05_b95f_0d00_50d8_ca81nat == 0x22a_3e2b_51bd_651a_0d82_6631_8a9c_672b_0801_b1d1_6cf5_f223_b255_1f85_9bea_7909_3bb5_cbf3_cdc3_2c64_0b13_ee60nat);
    assert(0xc35nat * 0x2_0000_0000_0000_0000_0000_0000_0000_0000_0000nat == 0x186a_0000_0000_0000_0000_0000_0000_0000_0000_0000nat);
    assert(0x168c_fdad_34f6_b85e_7223_658b_6700_0f71_a24c_f783_7e25_be11nat * 0x186a_0000_0000_0000_0000_0000_0000_0000_0000_0000nat == 0x226_8e29_46af_0f71_31ce_942d_1d60_a779_0c44_6b12_d045_c572_4b0a_0000_0000_0000_0000_0000_0000_0000_0000_0000nat);
    lemma_near_above(
        0x3ca9_cace, 0xa9_cace, 120, 0x2000, 0x186a_0000_0000_0000_0000_0000_0000_0000_0000_0000nat, 39,
        53525, 0x8b77_72d7_3f2d,
        0x4bfa_ee71_b63c_0315_412d_2de9nat,
        0x45_2c59_9066_9ca1, 0x12b0_eff6_c049_6d6d_d948_5020_9d41nat,
        0x34e_d606, 0xa_f14b_4296_0824, 0x77_bd4f_fd37_335e_4138_1a72_4510nat,
        0x353_1606, 0xb_0d7b_6dc9_0824, 0x7a_2951_33ef_cc2e_4964_70ca_4510nat,
    );
}

/// The value 0x3cb1_717a.
proof fn lemma_at_3cb1717a()
    ensures
        chord_code(0x3cb1_717a, 0x3cad_5e8d, 0x3cb5_5e8d, 0x4221_ebaf, 0x4226_00fe) == 40,
{
    reveal(chord_code);
    lemma2_to64();
    lemma2_to64_rest();
    lemma_high_powers();
    assert(0xb5_5e8d * 0x1 - 0xad_5e8d * 0x1 == 0x8_0000);
    lemma_sum_known(0x3cb5_5e8d, 0x3cad_5e8d, true, 0xb5_5e8d, 120, 0xad_5e8d, 120, 0x1, 0x1, 0x8_0000, 20, 0x8_0000, 0x10);
    assert(sub_spec(0x3cb5_5e8d, 0x3cad_5e8d) == 0x3a80_0000);
    assert(0xb1_717a * 0x1 - 0xad_5e8d * 0x1 == 0x4_12ed);
    lemma_sum_known(0x3cb1_717a, 0x3cad_5e8d, true, 0xb1_717a, 120, 0xad_5e8d, 120, 0x1, 0x1, 0x4_12ed, 19, 0x4_0000, 0x20);
    assert(sub_spec(0x3cb1_717a, 0x3cad_5e8d) == 0x3a02_5da0);
    assert(0xa6_00fe * 0x1 - 0xa1_ebaf * 0x1 == 0x4_154f);
    lemma_sum_known(0x4226_00fe, 0x4221_ebaf, true, 0xa6_00fe, 131, 0xa1_ebaf, 131, 0x1, 0x1, 0x4_154f, 19, 0x4_0000, 0x20);
    assert(sub_spec(0x4226_00fe, 0x4221_ebaf) == 0x3f82_a9e0);
    assert(0x82_a9e0 * 0x82_5da0 == 0x428a_0d20_8c00);
    lemma_product_known(0x3f82_a9e0, 0x3a02_5da0, 0x82_a9e0, 126, 0x82_5da0, 115, 0x428a_0d20_8c00, 47, 0x4000_0000_0000, 0x80_0000);
    assert(mul_spec(0x3f82_a9e0, 0x3a02_5da0) == 0x3a05_141a);
    assert(0x85_141a * 0x1_0000_0000_0000_0000 == 0x1_0a28_3400_0000_0000 * 0x80_0000 + 0x0);
    lemma_quotient_known(0x3a05_141a, 0x3a80_0000, 0x85_141a, 115, 0x80_0000, 116, 0x1_0a28_3400_0000_0000, 0x0, 66, 0x2_0000_0000_0000_0000, 0x400_0000_0000);
    assert(div_spec(0x3a05_141a, 0x3a80_0000) == 0x3f05_141a);
    assert(0xa1_ebaf * 0x40 + 0x85_141a * 0x1 == 0x28ff_ffda);
    lemma_sum_known(0x4221_ebaf, 0x3f05_141a, false, 0xa1_ebaf, 131, 0x85_141a, 125, 0x40, 0x1, 0x28ff_ffda, 30, 0x2000_0000, 0x40);
    assert(add_spec(0x4221_ebaf, 0x3f05_141a) == 0x4223_ffff);
    lemma_whole_known(0x4223_ffff, 0xa3_ffff, 131, 0x4_0000);
}

/// The value 0x3cb1_717b.
proof fn lemma_at_3cb1717b()
    ensures
        chord_code(0x3cb1_717b, 0x3cad_5e8d, 0x3cb5_5e8d, 0x4221_ebaf, 0x4226_00fe) == 41,
{
    reveal(chord_code);
    lemma2_to64();
    lemma2_to64_rest();
    lemma_high_powers();
    assert(0xb5_5e8d * 0x1 - 0xad_5e8d * 0x1 == 0x8_0000);
    lemma_sum_known(0x3cb5_5e8d, 0x3cad_5e8d, true, 0xb5_5e8d, 120, 0xad_5e8d, 120, 0x1, 0x1, 0x8_0000, 20, 0x8_0000, 0x10);
    assert(sub_spec(0x3cb5_5e8d, 0x3cad_5e8d) == 0x3a80_0000);
    assert(0xb1_717b * 0x1 - 0xad_5e8d * 0x1 == 0x4_12ee);
    lemma_sum_known(0x3cb1_717b, 0x3cad_5e8d, true, 0xb1_717b, 120, 0xad_5e8d, 120, 0x1, 0x1, 0x4_12ee, 19, 0x4_0000, 0x20);
    assert(sub_spec(0x3cb1_717b, 0x3cad_5e8d) == 0x3a02_5dc0);
    assert(0xa6_00fe * 0x1 - 0xa1_ebaf * 0x1 == 0x4_154f);
    lemma_sum_known(0x4226_00fe, 0x4221_ebaf, true, 0xa6_00fe, 131, 0xa1_ebaf, 131, 0x1, 0x1, 0x4_154f, 19, 0x4_0000, 0x20);
    assert(sub_spec(0x4226_00fe, 0x4221_ebaf) == 0x3f82_a9e0);
    assert(0x82_a9e0 * 0x82_5dc0 == 0x428a_1d75_c800);
    lemma_product_known(0x3f82_a9e0, 0x3a02_5dc0, 0x82_a9e0, 126, 0x82_5dc0, 115, 0x428a_1d75_c800, 47, 0x4000_0000_0000, 0x80_0000);
    assert(mul_spec(0x3f82_a9e0, 0x3a02_5dc0) == 0x3a05_143b);
    assert(0x85_143b * 0x1_0000_0000_0000_0000 == 0x1_0a28_7600_0000_0000 * 0x80_0000 + 0x0);
    lemma_quotient_known(0x3a05_143b, 0x3a80_0000, 0x85_143b, 115, 0x80_0000, 116, 0x1_0a28_7600_0000_0000, 0x0, 66, 0x2_0000_0000_0000_0000, 0x400_0000_0000);
    assert(div_spec(0x3a05_143b, 0x3a80_0000) == 0x3f05_143b);
    assert(0xa1_ebaf * 0x40 + 0x85_143b * 0x1 == 0x28ff_fffb);
    lemma_sum_known(0x4221_ebaf, 0x3f05_143b, false, 0xa1_ebaf, 131, 0x85_143b, 125, 0x40, 0x1, 0x28ff_fffb, 30, 0x2000_0000, 0x40);
    assert(add_spec(0x4221_ebaf, 0x3f05_143b) == 0x4224_0000);
    lemma_whole_known(0x4224_0000, 0xa4_0000, 131, 0x4_0000);
}

/// The edge of code 40.
proof fn lemma_near_40()
    ensures
        near_exact_edge(0x3cb1_717a, 40),
{
    lemma2_to64();
    lemma2_to64_rest();
    lemma_fifth_powers_of_two();
    lemma_more_fifth_powers_of_two();
    assert(54525nat * 54525 * 54525 == 0x936e_3215_76e5);
    assert(269025nat * 269025 * 269025 == 0x45_2c59_9066_9ca1);
    assert(0x936e_3215_76e5nat * 0x936e_3215_76e5 == 0x54e7_bcf3_bac9_8f0a_2cc9_e8d9nat);
    assert(0x54e7_bcf3_bac9_8f0a_2cc9_e8d9nat * 0x54e7_bcf3_bac9_8f0a_2cc9_e8d9nat == 0x1c28_e5c6_7de6_4002_fec7_56d6_ebe8_ddd2_1280_a63e_108c_07f1nat);
    assert(0x45_2c59_9066_9ca1nat * 0x45_2c59_9066_9ca1 == 0x12b0_eff6_c049_6d6d_d948_5020_9d41nat);
    assert(0x12b0_eff6_c049_6d6d_d948_5020_9d41nat * 0x12b0_eff6_c049_6d6d_d948_5020_9d41nat == 0x15d_5c09_8741_6139_2178_92b9_bce5_5f46_89a2_dd05_b95f_0d00_50d8_ca81nat);
    assert(0x375_1762nat * 0x375_1762 == 0xb_f41a_adb6_c184);
    assert(0xb_f41a_adb6_c184nat * 0xb_f41a_adb6_c184 == 0x8e_e30d_cba0_c13b_72d4_21f8_4c10nat);
    assert(0x8e_e30d_cba0_c13b_72d4_21f8_4c10nat * 0x375_1762 == 0x1_ee03_fbca_1b4f_676a_476c_73a1_4332_8e20nat);
    assert(0x379_5762nat * 0x379_5762 == 0xc_1190_0477_c184);
    assert(0xc_1190_0477_c184nat * 0xc_1190_0477_c184 == 0x91_a6b4_dcd7_12e1_3291_9b00_4c10nat);
    assert(0x91_a6b4_dcd7_12e1_3291_9b00_4c10nat * 0x379_5762 == 0x1_f9fd_a17c_2f2a_31c8_5e08_1b72_9386_8e20nat);
    assert(0x1_ee03_fbca_1b4f_676a_476c_73a1_4332_8e20nat * 0x15d_5c09_8741_6139_2178_92b9_bce5_5f46_89a2_dd05_b95f_0d00_50d8_ca81nat == 0x2a2_2d0a_1429_fb93_bf71_d6c4_5efc_107d_222e_e1b7_0117_0a23_7a99_0969_2931_4619_dbd0_300e_f50b_a25a_ab9e_de20nat);
    assert(0x1_f9fd_a17c_2f2a_31c8_5e08_1b72_9386_8e20nat * 0x15d_5c09_8741_6139_2178_92b9_bce5_5f46_89a2_dd05_b95f_0d00_50d8_ca81nat == 0x2b2_84af_2195_948f_33c0_3216_e61a_1ae1_337e_dbf3_270d_6d8b_c29b_9a98_010c_d21f_2e15_4356_719c_6316_6df2_de20nat);
    assert(0xc35nat * 0x2_0000_0000_0000_0000_0000_0000_0000_0000_0000nat == 0x186a_0000_0000_0000_0000_0000_0000_0000_0000_0000nat);
    assert(0x1c28_e5c6_7de6_4002_fec7_56d6_ebe8_ddd2_1280_a63e_108c_07f1nat * 0x186a_0000_0000_0000_0000_0000_0000_0000_0000_0000nat == 0x2af_7e79_bffd_b756_c920_2eae_1b1b_8337_8ab7_b8da_a73f_fab9_e1ca_0000_0000_0000_0000_0000_0000_0000_0000_0000nat);
    lemma_near_above(
        0x3cb1_717a, 0xb1_717a, 120, 0x2000, 0x186a_0000_0000_0000_0000_0000_0000_0000_0000_0000nat, 40,
        54525, 0x936e_3215_76e5,
        0x54e7_bcf3_bac9_8f0a_2cc9_e8d9nat,
        0x45_2c59_9066_9ca1, 0x12b0_eff6_c049_6d6d_d948_5020_9d41nat,
        0x375_1762, 0xb_f41a_adb6_c184, 0x8e_e30d_cba0_c13b_72d4_21f8_4c10nat,
        0x379_5762, 0xc_1190_0477_c184, 0x91_a6b4_dcd7_12e1_3291_9b00_4c10nat,
    );
}

/// The value 0x3cb9_6d2b.
proof fn lemma_at_3cb96d2b()
    ensures
        chord_code(0x3cb9_6d2b, 0x3cb5_5e8d, 0x3cbd_5e8d, 0x4226_00fe, 0x4229_f09e) == 41,
{
    reveal(chord_code);
    lemma2_to64();
    lemma2_to64_rest();
    lemma_high_powers();
    assert(0xbd_5e8d * 0x1 - 0xb5_5e8d * 0x1 == 0x8_0000);
    lemma_sum_known(0x3cbd_5e8d, 0x3cb5_5e8d, true, 0xbd_5e8d, 120, 0xb5_5e8d, 120, 0x1, 0x1, 0x8_0000, 20, 0x8_0000, 0x10);
    assert(sub_spec(0x3cbd_5e8d, 0x3cb5_5e8d) == 0x3a80_0000);
    assert(0xb9_6d2b * 0x1 - 0xb5_5e8d * 0x1 == 0x4_0e9e);
    lemma_sum_known(0x3cb9_6d2b, 0x3cb5_5e8d, true, 0xb9_6d2b, 120, 0xb5_5e8d, 120, 0x1, 0x1, 0x4_0e9e, 19, 0x4_0000, 0x20);
    assert(sub_spec(0x3cb9_6d2b, 0x3cb5_5e8d) == 0x3a01_d3c0);
    assert(0xa9_f09e * 0x1 - 0xa6_00fe * 0x1 == 0x3_efa0);
    lemma_sum_known(0x4229_f09e, 0x4226_00fe, true, 0xa9_f09e, 131, 0xa6_00fe, 131, 0x1, 0x1, 0x3_efa0, 18, 0x2_0000, 0x40);
    assert(sub_spec(0x4229_f09e, 0x4226_00fe) == 0x3f7b_e800);
    assert(0xfb_e800 * 0x81_d3c0 == 0x7fc0_4526_0000);
    lemma_product_known(0x3f7b_e800, 0x3a01_d3c0, 0xfb_e800, 125, 0x81_d3c0, 115, 0x7fc0_4526_0000, 47, 0x4000_0000_0000, 0x80_0000);
    assert(mul_spec(0x3f7b_e800, 0x3a01_d3c0) == 0x39ff_808a);
    assert(0xff_808a * 0x1_0000_0000_0000_0000 == 0x1_ff01_1400_0000_0000 * 0x80_0000 + 0x0);
    lemma_quotient_known(0x39ff_808a, 0x3a80_0000, 0xff_808a, 114, 0x80_0000, 116, 0x1_ff01_1400_0000_0000, 0x0, 66, 0x2_0000_0000_0000_0000, 0x400_0000_0000);
    assert(div_spec(0x39ff_808a, 0x3a80_0000) == 0x3eff_808a);
    assert(0xa6_00fe * 0x80 + 0xff_808a * 0x1 == 0x53ff_ff8a);
    lemma_sum_known(0x4226_00fe, 0x3eff_808a, false, 0xa6_00fe, 131, 0xff_808a, 124, 0x80, 0x1, 0x53ff_ff8a, 31, 0x4000_0000, 0x80);
    assert(add_spec(0x4226_00fe, 0x3eff_808a) == 0x4227_ffff);
    lemma_whole_known(0x4227_ffff, 0xa7_ffff, 131, 0x4_0000);
}

/// The value 0x3cb9_6d2c.
proof fn lemma_at_3cb96d2c()
    ensures
        chord_code(0x3cb9_6d2c, 0x3cb5_5e8d, 0x3cbd_5e8d, 0x4226_00fe, 0x4229_f09e) == 42,
{
    reveal(chord_code);
    lemma2_to64();
    lemma2_to64_rest();
    lemma_high_powers();
    assert(0xbd_5e8d * 0x1 - 0xb5_5e8d * 0x1 == 0x8_0000);
    lemma_sum_known(0x3cbd_5e8d, 0x3cb5_5e8d, true, 0xbd_5e8d, 120, 0xb5_5e8d, 120, 0x1, 0x1, 0x8_0000, 20, 0x8_0000, 0x10);
    assert(sub_spec(0x3cbd_5e8d, 0x3cb5_5e8d) == 0x3a80_0000);
    assert(0xb9_6d2c * 0x1 - 0xb5_5e8d * 0x1 == 0x4_0e9f);
    lemma_sum_known(0x3cb9_6d2c, 0x3cb5_5e8d, true, 0xb9_6d2c, 120, 0xb5_5e8d, 120, 0x1, 0x1, 0x4_0e9f, 19, 0x4_0000, 0x20);
    assert(sub_spec(0x3cb9_6d2c, 0x3cb5_5e8d) == 0x3a01_d3e0);
    assert(0xa9_f09e * 0x1 - 0xa6_00fe * 0x1 == 0x3_efa0);
    lemma_sum_known(0x4229_f09e, 0x4226_00fe, true, 0xa9_f09e, 131, 0xa6_00fe, 131, 0x1, 0x1, 0x3_efa0, 18, 0x2_0000, 0x40);
    assert(sub_spec(0x4229_f09e, 0x4226_00fe) == 0x3f7b_e800);
    assert(0xfb_e800 * 0x81_d3e0 == 0x7fc0_64a3_0000);
    lemma_product_known(0x3f7b_e800, 0x3a01_d3e0, 0xfb_e800, 125, 0x81_d3e0, 115, 0x7fc0_64a3_0000, 47, 0x4000_0000_0000, 0x80_0000);
    assert(mul_spec(0x3f7b_e800, 0x3a01_d3e0) == 0x39ff_80c9);
    assert(0xff_80c9 * 0x1_0000_0000_0000_0000 == 0x1_ff01_9200_0000_0000 * 0x80_0000 + 0x0);
    lemma_quotient_known(0x39ff_80c9, 0x3a80_0000, 0xff_80c9, 114, 0x80_0000, 116, 0x1_ff01_9200_0000_0000, 0x0, 66, 0x2_0000_0000_0000_0000, 0x400_0000_0000);
    assert(div_spec(0x39ff_80c9, 0x3a80_0000) == 0x3eff_80c9);
    assert(0xa6_00fe * 0x80 + 0xff_80c9 * 0x1 == 0x53ff_ffc9);
    lemma_sum_known(0x4226_00fe, 0x3eff_80c9, false, 0xa6_00fe, 131, 0xff_80c9, 124, 0x80, 0x1, 0x53ff_ffc9, 31, 0x4000_0000, 0x80);
    assert(add_spec(0x4226_00fe, 0x3eff_80c9) == 0x4228_0000);
    lemma_whole_known(0x4228_0000, 0xa8_0000, 131, 0x4_0000);
}

/// The edge of code 41.
proof fn lemma_near_41()
    ensures
        near_exact_edge(0x3cb9_6d2b, 41),
{
    lemma2_to64();
    lemma2_to64_rest();
    lemma_fifth_powers_of_two();
    lemma_more_fifth_powers_of_two();
    assert(55525nat * 55525 * 55525 == 0x9bb1_1cfc_861d);
    assert(269025nat * 269025 * 269025 == 0x45_2c59_9066_9ca1);
    assert(0x9bb1_1cfc_861dnat * 0x9bb1_1cfc_861d == 0x5eaf_f3a2_e2e0_c888_a75a_5f49nat);
    assert(0x5eaf_f3a2_e2e0_c888_a75a_5f49nat * 0x5eaf_f3a2_e2e0_c888_a75a_5f49nat == 0x2305_afda_9f2d_e4f1_2ffe_0da2_14c9_6b37_160e_55c8_60cb_42d1nat);
    assert(0x45_2c59_9066_9ca1nat * 0x45_2c59_9066_9ca1 == 0x12b0_eff6_c049_6d6d_d948_5020_9d41nat);
    assert(0x12b0_eff6_c049_6d6d_d948_5020_9d41nat * 0x12b0_eff6_c049_6d6d_d948_5020_9d41nat == 0x15d_5c09_8741_6139_2178_92b9_bce5_5f46_89a2_dd05_b95f_0d00_50d8_ca81nat);
    assert(0x39d_01d7nat * 0x39d_01d7 == 0xd_0e56_4bb9_6291);
    assert(0xd_0e56_4bb9_6291nat * 0xd_0e56_4bb9_6291 == 0xaa_7591_3e33_4076_3b6c_9185_5621nat);
    assert(0xaa_7591_3e33_4076_3b6c_9185_5621nat * 0x39d_01d7 == 0x2_67ec_076c_0d69_5b80_50d1_2387_f18e_76b7nat);
    assert(0x3a1_41d7nat * 0x3a1_41d7 == 0xd_2d1e_eb5c_e291);
    assert(0xd_2d1e_eb5c_e291nat * 0xd_2d1e_eb5c_e291 == 0xad_9d17_c9e9_ac89_bda5_d6bc_5621nat);
    assert(0xad_9d17_c9e9_ac89_bda5_d6bc_5621nat * 0x3a1_41d7 == 0x2_7633_ba05_b23a_07e8_17a5_a341_b7cb_b6b7nat);
    assert(0x2_67ec_076c_0d69_5b80_50d1_2387_f18e_76b7nat * 0x15d_5c09_8741_6139_2178_92b9_bce5_5f46_89a2_dd05_b95f_0d00_50d8_ca81nat == 0x348_8a35_ddb0_2501_d3eb_956c_236e_4290_fae9_9d81_2ae3_a3a4_befc_97e5_8895_67d2_00b2_b27d_be8c_cc68_7cde_3837nat);
    assert(0x2_7633_ba05_b23a_07e8_17a5_a341_b7cb_b6b7nat * 0x15d_5c09_8741_6139_2178_92b9_bce5_5f46_89a2_dd05_b95f_0d00_50d8_ca81nat == 0x35c_0716_a565_c8ee_601e_d798_a987_5145_d6eb_ae79_db0e_bcf4_cfb3_c78c_574b_2044_4bb7_23ee_4b5c_271f_b63b_7837nat);
    assert(0xc35nat * 0x2_0000_0000_0000_0000_0000_0000_0000_0000_0000nat == 0x186a_0000_0000_0000_0000_0000_0000_0000_0000_0000nat);
    assert(0x2305_afda_9f2d_e4f1_2ffe_0da2_14c9_6b37_160e_55c8_60cb_42d1nat * 0x186a_0000_0000_0000_0000_0000_0000_0000_0000_0000nat == 0x357_08d7_4f72_3677_685d_b078_d70f_7d73_8ee0_79fa_4e0b_226d_428a_0000_0000_0000_0000_0000_0000_0000_0000_0000nat);
    lemma_near_above(
        0x3cb9_6d2b, 0xb9_6d2b, 120, 0x2000, 0x186a_0000_0000_0000_0000_0000_0000_0000_0000_0000nat, 41,
        55525, 0x9bb1_1cfc_861d,
        0x5eaf_f3a2_e2e0_c888_a75a_5f49nat,
        0x45_2c59_9066_9ca1, 0x12b0_eff6_c049_6d6d_d948_5020_9d41nat,
        0x39d_01d7, 0xd_0e56_4bb9_6291, 0xaa_7591_3e33_4076_3b6c_9185_5621nat,
        0x3a1_41d7, 0xd_2d1e_eb5c_e291, 0xad_9d17_c9e9_ac89_bda5_d6bc_5621nat,
    );
}

/// The value 0x3cc1_ae2a.
proof fn lemma_at_3cc1ae2a()
    ensures
        chord_code(0x3cc1_ae2a, 0x3cbd_5e8d, 0x3cc5_5e8d, 0x4229_f09e, 0x422d_c34a) == 42,
{
    reveal(chord_code);
    lemma2_to64();
    lemma2_to64_rest();
    lemma_high_powers();
    assert(0xc5_5e8d * 0x1 - 0xbd_5e8d * 0x1 == 0x8_0000);
    lemma_sum_known(0x3cc5_5e8d, 0x3cbd_5e8d, true, 0xc5_5e8d, 120, 0xbd_5e8d, 120, 0x1, 0x1, 0x8_0000, 20, 0x8_0000, 0x10);
    assert(sub_spec(0x3cc5_5e8d, 0x3cbd_5e8d) == 0x3a80_0000);
    assert(0xc1_ae2a * 0x1 - 0xbd_5e8d * 0x1 == 0x4_4f9d);
    lemma_sum_known(0x3cc1_ae2a, 0x3cbd_5e8d, true, 0xc1_ae2a, 120, 0xbd_5e8d, 120, 0x1, 0x1, 0x4_4f9d, 19, 0x4_0000, 0x20);
    assert(sub_spec(0x3cc1_ae2a, 0x3cbd_5e8d) == 0x3a09_f3a0);
    assert(0xad_c34a * 0x1 - 0xa9_f09e * 0x1 == 0x3_d2ac);
    lemma_sum_known(0x422d_c34a, 0x4229_f09e, true, 0xad_c34a, 131, 0xa9_f09e, 131, 0x1, 0x1, 0x3_d2ac, 18, 0x2_0000, 0x40);
    assert(sub_spec(0x422d_c34a, 0x4229_f09e) == 0x3f74_ab00);
    assert(0xf4_ab00 * 0x89_f3a0 == 0x83d8_5a3b_e000);
    lemma_product_known(0x3f74_ab00, 0x3a09_f3a0, 0xf4_ab00, 125, 0x89_f3a0, 115, 0x83d8_5a3b_e000, 48, 0x8000_0000_0000, 0x100_0000);
    assert(mul_spec(0x3f74_ab00, 0x3a09_f3a0) == 0x3a03_d85a);
    assert(0x83_d85a * 0x1_0000_0000_0000_0000 == 0x1_07b0_b400_0000_0000 * 0x80_0000 + 0x0);
    lemma_quotient_known(0x3a03_d85a, 0x3a80_0000, 0x83_d85a, 115, 0x80_0000, 116, 0x1_07b0_b400_0000_0000, 0x0, 66, 0x2_0000_0000_0000_0000, 0x400_0000_0000);
    assert(div_spec(0x3a03_d85a, 0x3a80_0000) == 0x3f03_d85a);
    assert(0xa9_f09e * 0x40 + 0x83_d85a * 0x1 == 0x2aff_ffda);
    lemma_sum_known(0x4229_f09e, 0x3f03_d85a, false, 0xa9_f09e, 131, 0x83_d85a, 125, 0x40, 0x1, 0x2aff_ffda, 30, 0x2000_0000, 0x40);
    assert(add_spec(0x4229_f09e, 0x3f03_d85a) == 0x422b_ffff);
    lemma_whole_known(0x422b_ffff, 0xab_ffff, 131, 0x4_0000);
}

/// The value 0x3cc1_ae2b.
proof fn lemma_at_3cc1ae2b()
    ensures
        chord_code(0x3cc1_ae2b, 0x3cbd_5e8d, 0x3cc5_5e8d, 0x4229_f09e, 0x422d_c34a) == 43,
{
    reveal(chord_code);
    lemma2_to64();
    lemma2_to64_rest();
    lemma_high_powers();
    assert(0xc5_5e8d * 0x1 - 0xbd_5e8d * 0x1 == 0x8_0000);
    lemma_sum_known(0x3cc5_5e8d, 0x3cbd_5e8d, true, 0xc5_5e8d, 120, 0xbd_5e8d, 120, 0x1, 0x1, 0x8_0000, 20, 0x8_0000, 0x10);
    assert(sub_spec(0x3cc5_5e8d, 0x3cbd_5e8d) == 0x3a80_0000);
    assert(0xc1_ae2b * 0x1 - 0xbd_5e8d * 0x1 == 0x4_4f9e);
    lemma_sum_known(0x3cc1_ae2b, 0x3cbd_5e8d, true, 0xc1_ae2b, 120, 0xbd_5e8d, 120, 0x1, 0x1, 0x4_4f9e, 19, 0x4_0000, 0x20);
    assert(sub_spec(0x3cc1_ae2b, 0x3cbd_5e8d) == 0x3a09_f3c0);
    assert(0xad_c34a * 0x1 - 0xa9_f09e * 0x1 == 0x3_d2ac);
    lemma_sum_known(0x422d_c34a, 0x4229_f09e, true, 0xad_c34a, 131, 0xa9_f09e, 131, 0x1, 0x1, 0x3_d2ac, 18, 0x2_0000, 0x40);
    assert(sub_spec(0x422d_c34a, 0x4229_f09e) == 0x3f74_ab00);
    assert(0xf4_ab00 * 0x89_f3c0 == 0x83d8_78d1_4000);
    lemma_product_known(0x3f74_ab00, 0x3a09_f3c0, 0xf4_ab00, 125, 0x89_f3c0, 115, 0x83d8_78d1_4000, 48, 0x8000_0000_0000, 0x100_0000);
    assert(mul_spec(0x3f74_ab00, 0x3a09_f3c0) == 0x3a03_d879);
    assert(0x83_d879 * 0x1_0000_0000_0000_0000 == 0x1_07b0_f200_0000_0000 * 0x80_0000 + 0x0);
    lemma_quotient_known(0x3a03_d879, 0x3a80_0000, 0x83_d879, 115, 0x80_0000, 116, 0x1_07b0_f200_0000_0000, 0x0, 66, 0x2_0000_0000_0000_0000, 0x400_0000_0000);
    assert(div_spec(0x3a03_d879, 0x3a80_0000) == 0x3f03_d879);
    assert(0xa9_f09e * 0x40 + 0x83_d879 * 0x1 == 0x2aff_fff9);
    lemma_sum_known(0x4229_f09e, 0x3f03_d879, false, 0xa9_f09e, 131, 0x83_d879, 125, 0x40, 0x1, 0x2aff_fff9, 30, 0x2000_0000, 0x40);
    assert(add_spec(0x4229_f09e, 0x3f03_d879) == 0x422c_0000);
    lemma_whole_known(0x422c_0000, 0xac_0000, 131, 0x4_0000);
}

/// The edge of code 42.
proof fn lemma_near_42()
    ensures
        near_exact_edge(0x3cc1_ae2a, 42),
{
    lemma2_to64();
    lemma2_to64_rest();
    lemma_fifth_powers_of_two();
    lemma_more_fifth_powers_of_two();
    assert(56525nat * 56525 * 56525 == 0xa441_992d_28d5);
    assert(269025nat * 269025 * 269025 == 0x45_2c59_9066_9ca1);
    assert(0xa441_992d_28d5nat * 0xa441_992d_28d5 == 0x6964_1d11_00e6_a6ef_fb65_4139nat);
    assert(0x6964_1d11_00e6_a6ef_fb65_4139nat * 0x6964_1d11_00e6_a6ef_fb65_4139nat == 0x2b63_46fe_ab52_c478_a82a_d140_6ed5_6881_e0f1_6a60_4d97_feb1nat);
    assert(0x45_2c59_9066_9ca1nat * 0x45_2c59_9066_9ca1 == 0x12b0_eff6_c049_6d6d_d948_5020_9d41nat);
    assert(0x12b0_eff6_c049_6d6d_d948_5020_9d41nat * 0x12b0_eff6_c049_6d6d_d948_5020_9d41nat == 0x15d_5c09_8741_6139_2178_92b9_bce5_5f46_89a2_dd05_b95f_0d00_50d8_ca81nat);
    assert(0x3c6_46d2nat * 0x3c6_46d2 == 0xe_3f3a_8c6f_8444);
    assert(0xe_3f3a_8c6f_8444nat * 0xe_3f3a_8c6f_8444 == 0xca_fa05_3ab5_4a1b_900e_574e_3210nat);
    assert(0xca_fa05_3ab5_4a1b_900e_574e_3210nat * 0x3c6_46d2 == 0x2_fe23_969a_0e6d_5efb_ea1d_88b3_e835_7120nat);
    assert(0x3ca_86d2nat * 0x3ca_86d2 == 0xe_5f61_f668_8444);
    assert(0xe_5f61_f668_8444nat * 0xe_5f61_f668_8444 == 0xce_9240_cdcc_b1fb_bc66_6b96_3210nat);
    assert(0xce_9240_cdcc_b1fb_bc66_6b96_3210nat * 0x3ca_86d2 == 0x3_0f22_f38d_ae7c_5aeb_a131_cf6e_9009_7120nat);
    assert(0x2_fe23_969a_0e6d_5efb_ea1d_88b3_e835_7120nat * 0x15d_5c09_8741_6139_2178_92b9_bce5_5f46_89a2_dd05_b95f_0d00_50d8_ca81nat == 0x415_89f5_9e2d_c21f_3e4a_b616_7030_c8a7_7311_1c11_f291_c93a_686f_8656_14ad_25b3_0f3d_2a4f_a8bb_1853_a131_4120nat);
    assert(0x3_0f22_f38d_ae7c_5aeb_a131_cf6e_9009_7120nat * 0x15d_5c09_8741_6139_2178_92b9_bce5_5f46_89a2_dd05_b95f_0d00_50d8_ca81nat == 0x42c_bc33_bdab_c9f2_57b8_c6ee_39eb_1598_1723_adc3_7cba_24cf_d744_4e6a_7aaf_e4c0_7a56_09f8_afb1_dfaf_7b05_4120nat);
    assert(0xc35nat * 0x2_0000_0000_0000_0000_0000_0000_0000_0000_0000nat == 0x186a_0000_0000_0000_0000_0000_0000_0000_0000_0000nat);
    assert(0x2b63_46fe_ab52_c478_a82a_d140_6ed5_6881_e0f1_6a60_4d97_feb1nat * 0x186a_0000_0000_0000_0000_0000_0000_0000_0000_0000nat == 0x423_45c3_4582_b2b0_a9b9_a558_af11_e629_72dd_c5ef_1326_60d0_0d4a_0000_0000_0000_0000_0000_0000_0000_0000_0000nat);
    lemma_near_above(
        0x3cc1_ae2a, 0xc1_ae2a, 120, 0x2000, 0x186a_0000_0000_0000_0000_0000_0000_0000_0000_0000nat, 42,
        56525, 0xa441_992d_28d5,
        0x6964_1d11_00e6_a6ef_fb65_4139nat,
        0x45_2c59_9066_9ca1, 0x12b0_eff6_c049_6d6d_d948_5020_9d41nat,
        0x3c6_46d2, 0xe_3f3a_8c6f_8444, 0xca_fa05_3ab5_4a1b_900e_574e_3210nat,
        0x3ca_86d2, 0xe_5f61_f668_8444, 0xce_9240_cdcc_b1fb_bc66_6b96_3210nat,
    );
}

/// The value 0x3cc9_f3dd.
proof fn lemma_at_3cc9f3dd()
    ensures
        chord_code(0x3cc9_f3dd, 0x3cc5_5e8d, 0x3ccd_5e8d, 0x422d_c34a, 0x4231_aaf1) == 43,
{
    reveal(chord_code);
    lemma2_to64();
    lemma2_to64_rest();
    lemma_high_powers();
    assert(0xcd_5e8d * 0x1 - 0xc5_5e8d * 0x1 == 0x8_0000);
    lemma_sum_known(0x3ccd_5e8d, 0x3cc5_5e8d, true, 0xcd_5e8d, 120, 0xc5_5e8d, 120, 0x1, 0x1, 0x8_0000, 20, 0x8_0000, 0x10);
    assert(sub_spec(0x3ccd_5e8d, 0x3cc5_5e8d) == 0x3a80_0000);
    assert(0xc9_f3dd * 0x1 - 0xc5_5e8d * 0x1 == 0x4_9550);
    lemma_sum_known(0x3cc9_f3dd, 0x3cc5_5e8d, true, 0xc9_f3dd, 120, 0xc5_5e8d, 120, 0x1, 0x1, 0x4_9550, 19, 0x4_0000, 0x20);
    assert(sub_spec(0x3cc9_f3dd, 0x3cc5_5e8d) == 0x3a12_aa00);
    assert(0xb1_aaf1 * 0x1 - 0xad_c34a * 0x1 == 0x3_e7a7);
    lemma_sum_known(0x4231_aaf1, 0x422d_c34a, true, 0xb1_aaf1, 131, 0xad_c34a, 131, 0x1, 0x1, 0x3_e7a7, 18, 0x2_0000, 0x40);
    assert(sub_spec(0x4231_aaf1, 0x422d_c34a) == 0x3f79_e9c0);
    assert(0xf9_e9c0 * 0x92_aa00 == 0x8f2d_44b9_8000);
    lemma_product_known(0x3f79_e9c0, 0x3a12_aa00, 0xf9_e9c0, 125, 0x92_aa00, 115, 0x8f2d_44b9_8000, 48, 0x8000_0000_0000, 0x100_0000);
    assert(mul_spec(0x3f79_e9c0, 0x3a12_aa00) == 0x3a0f_2d45);
    assert(0x8f_2d45 * 0x1_0000_0000_0000_0000 == 0x1_1e5a_8a00_0000_0000 * 0x80_0000 + 0x0);
    lemma_quotient_known(0x3a0f_2d45, 0x3a80_0000, 0x8f_2d45, 115, 0x80_0000, 116, 0x1_1e5a_8a00_0000_0000, 0x0, 66, 0x2_0000_0000_0000_0000, 0x400_0000_0000);
    assert(div_spec(0x3a0f_2d45, 0x3a80_0000) == 0x3f0f_2d45);
    assert(0xad_c34a * 0x40 + 0x8f_2d45 * 0x1 == 0x2bff_ffc5);
    lemma_sum_known(0x422d_c34a, 0x3f0f_2d45, false, 0xad_c34a, 131, 0x8f_2d45, 125, 0x40, 0x1, 0x2bff_ffc5, 30, 0x2000_0000, 0x40);
    assert(add_spec(0x422d_c34a, 0x3f0f_2d45) == 0x422f_ffff);
    lemma_whole_known(0x422f_ffff, 0xaf_ffff, 131, 0x4_0000);
}

/// The value 0x3cc9_f3de.
proof fn lemma_at_3cc9f3de()
    ensures
        chord_code(0x3cc9_f3de, 0x3cc5_5e8d, 0x3ccd_5e8d, 0x422d_c34a, 0x4231_aaf1) == 44,
{
    reveal(chord_code);
    lemma2_to64();
    lemma2_to64_rest();
    lemma_high_powers();
    assert(0xcd_5e8d * 0x1 - 0xc5_5e8d * 0x1 == 0x8_0000);
    lemma_sum_known(0x3ccd_5e8d, 0x3cc5_5e8d, true, 0xcd_5e8d, 120, 0xc5_5e8d, 120, 0x1, 0x1, 0x8_0000, 20, 0x8_0000, 0x10);
    assert(sub_spec(0x3ccd_5e8d, 0x3cc5_5e8d) == 0x3a80_0000);
    assert(0xc9_f3de * 0x1 - 0xc5_5e8d * 0x1 == 0x4_9551);
    lemma_sum_known(0x3cc9_f3de, 0x3cc5_5e8d, true, 0xc9_f3de, 120, 0xc5_5e8d, 120, 0x1, 0x1, 0x4_9551, 19, 0x4_0000, 0x20);
    assert(sub_spec(0x3cc9_f3de, 0x3cc5_5e8d) == 0x3a12_aa20);
    assert(0xb1_aaf1 * 0x1 - 0xad_c34a * 0x1 == 0x3_e7a7);
    lemma_sum_known(0x4231_aaf1, 0x422d_c34a, true, 0xb1_aaf1, 131, 0xad_c34a, 131, 0x1, 0x1, 0x3_e7a7, 18, 0x2_0000, 0x40);
    assert(sub_spec(0x4231_aaf1, 0x422d_c34a) == 0x3f79_e9c0);
    assert(0xf9_e9c0 * 0x92_aa20 == 0x8f2d_63f6_b800);
    lemma_product_known(0x3f79_e9c0, 0x3a12_aa20, 0xf9_e9c0, 125, 0x92_aa20, 115, 0x8f2d_63f6_b800, 48, 0x8000_0000_0000, 0x100_0000);
    assert(mul_spec(0x3f79_e9c0, 0x3a12_aa20) == 0x3a0f_2d64);
    assert(0x8f_2d64 * 0x1_0000_0000_0000_0000 == 0x1_1e5a_c800_0000_0000 * 0x80_0000 + 0x0);
    lemma_quotient_known(0x3a0f_2d64, 0x3a80_0000, 0x8f_2d64, 115, 0x80_0000, 116, 0x1_1e5a_c800_0000_0000, 0x0, 66, 0x2_0000_0000_0000_0000, 0x400_0000_0000);
    assert(div_spec(0x3a0f_2d64, 0x3a80_0000) == 0x3f0f_2d64);
    assert(0xad_c34a * 0x40 + 0x8f_2d64 * 0x1 == 0x2bff_ffe4);
    lemma_sum_known(0x422d_c34a, 0x3f0f_2d64, false, 0xad_c34a, 131, 0x8f_2d64, 125, 0x40, 0x1, 0x2bff_ffe4, 30, 0x2000_0000, 0x40);
    assert(add_spec(0x422d_c34a, 0x3f0f_2d64) == 0x4230_0000);
    lemma_whole_known(0x4230_0000, 0xb0_0000, 131, 0x4_0000);
}

/// The edge of code 43.
proof fn lemma_near_43()
    ensures
        near_exact_edge(0x3cc9_f3dd, 43),
{
    lemma2_to64();
    lemma2_to64_rest();
    lemma_fifth_powers_of_two();
    lemma_more_fifth_powers_of_two();
    assert(57525nat * 57525 * 57525 == 0xad21_0c48_1b0d);
    assert(269025nat * 269025 * 269025 == 0x45_2c59_9066_9ca1);
    assert(0xad21_0c48_1b0dnat * 0xad21_0c48_1b0d == 0x7515_aedd_9fbd_6232_722b_bea9nat);
    assert(0x7515_aedd_9fbd_6232_722b_bea9nat * 0x7515_aedd_9fbd_6232_722b_bea9nat == 0x358c_d3ac_bbd1_55d6_dac7_a1d5_2668_8091_bd84_db4c_1ec5_4b91nat);
    assert(0x45_2c59_9066_9ca1nat * 0x45_2c59_9066_9ca1 == 0x12b0_eff6_c049_6d6d_d948_5020_9d41nat);
    assert(0x12b0_eff6_c049_6d6d_d948_5020_9d41nat * 0x12b0_eff6_c049_6d6d_d948_5020_9d41nat == 0x15d_5c09_8741_6139_2178_92b9_bce5_5f46_89a2_dd05_b95f_0d00_50d8_ca81nat);
    assert(0x3ef_a351nat * 0x3ef_a351 == 0xf_7e26_3f6e_3fa1);
    assert(0xf_7e26_3f6e_3fa1nat * 0xf_7e26_3f6e_3fa1 == 0xf0_06a5_1b12_dff2_d297_fc2c_a341nat);
    assert(0xf0_06a5_1b12_dff2_d297_fc2c_a341nat * 0x3ef_a351 == 0x3_b0c3_43a2_b9b9_81ba_dbc4_5b3d_62c1_0a91nat);
    assert(0x3f3_e351nat * 0x3f3_e351 == 0xf_9fad_3b9e_bfa1);
    assert(0xf_9fad_3b9e_bfa1nat * 0xf_9fad_3b9e_bfa1 == 0xf4_19e5_a1e3_4959_8c5f_502d_a341nat);
    assert(0xf4_19e5_a1e3_4959_8c5f_502d_a341nat * 0x3f3_e351 == 0x3_c4db_0611_24cf_6f99_f937_927c_8fe6_4a91nat);
    assert(0x3_b0c3_43a2_b9b9_81ba_dbc4_5b3d_62c1_0a91nat * 0x15d_5c09_8741_6139_2178_92b9_bce5_5f46_89a2_dd05_b95f_0d00_50d8_ca81nat == 0x509_4ddc_8b2b_4e68_ddc5_2917_4d31_79cf_d091_5d03_3c53_82c3_665a_7c5c_a18e_5f7b_de9c_40e0_5af0_6d09_4ff4_bd11nat);
    assert(0x3_c4db_0611_24cf_6f99_f937_927c_8fe6_4a91nat * 0x15d_5c09_8741_6139_2178_92b9_bce5_5f46_89a2_dd05_b95f_0d00_50d8_ca81nat == 0x524_b979_e506_78dd_e14a_4379_c4dd_5c97_1e11_4b38_d398_b992_05c1_3624_e8c0_d2aa_1baa_2763_1b40_d8ec_7439_fd11nat);
    assert(0xc35nat * 0x2_0000_0000_0000_0000_0000_0000_0000_0000_0000nat == 0x186a_0000_0000_0000_0000_0000_0000_0000_0000_0000nat);
    assert(0x358c_d3ac_bbd1_55d6_dac7_a1d5_2668_8091_bd84_db4c_1ec5_4b91nat * 0x186a_0000_0000_0000_0000_0000_0000_0000_0000_0000nat == 0x51b_6027_d721_64b9_af79_4dd4_fddb_b352_e61c_ed91_f067_3cc6_e20a_0000_0000_0000_0000_0000_0000_0000_0000_0000nat);
    lemma_near_above(
        0x3cc9_f3dd, 0xc9_f3dd, 120, 0x2000, 0x186a_0000_0000_0000_0000_0000_0000_0000_0000_0000nat, 43,
        57525, 0xad21_0c48_1b0d,
        0x7515_aedd_9fbd_6232_722b_bea9nat,
        0x45_2c59_9066_9ca1, 0x12b0_eff6_c049_6d6d_d948_5020_9d41nat,
        0x3ef_a351, 0xf_7e26_3f6e_3fa1, 0xf0_06a5_1b12_dff2_d297_fc2c_a341nat,
        0x3f3_e351, 0xf_9fad_3b9e_bfa1, 0xf4_19e5_a1e3_4959_8c5f_502d_a341nat,
    );
}

/// The value 0x3cd2_75b8.
proof fn lemma_at_3cd275b8()
    ensures
        chord_code(0x3cd2_75b8, 0x3ccd_5e8d, 0x3cd5_5e8d, 0x4231_aaf1, 0x4235_553f) == 44,
{
    reveal(chord_code);
    lemma2_to64();
    lemma2_to64_rest();
    lemma_high_powers();
    assert(0xd5_5e8d * 0x1 - 0xcd_5e8d * 0x1 == 0x8_0000);
    lemma_sum_known(0x3cd5_5e8d, 0x3ccd_5e8d, true, 0xd5_5e8d, 120, 0xcd_5e8d, 120, 0x1, 0x1, 0x8_0000, 20, 0x8_0000, 0x10);
    assert(sub_spec(0x3cd5_5e8d, 0x3ccd_5e8d) == 0x3a80_0000);
    assert(0xd2_75b8 * 0x1 - 0xcd_5e8d * 0x1 == 0x5_172b);
    lemma_sum_known(0x3cd2_75b8, 0x3ccd_5e8d, true, 0xd2_75b8, 120, 0xcd_5e8d, 120, 0x1, 0x1, 0x5_172b, 19, 0x4_0000, 0x20);
    assert(sub_spec(0x3cd2_75b8, 0x3ccd_5e8d) == 0x3a22_e560);
    assert(0xb5_553f * 0x1 - 0xb1_aaf1 * 0x1 == 0x3_aa4e);
    lemma_sum_known(0x4235_553f, 0x4231_aaf1, true, 0xb5_553f, 131, 0xb1_aaf1, 131, 0x1, 0x1, 0x3_aa4e, 18, 0x2_0000, 0x40);
    assert(sub_spec(0x4235_553f, 0x4231_aaf1) == 0x3f6a_9380);
    assert(0xea_9380 * 0xa2_e560 == 0x9543_84e8_d000);
    lemma_product_known(0x3f6a_9380, 0x3a22_e560, 0xea_9380, 125, 0xa2_e560, 115, 0x9543_84e8_d000, 48, 0x8000_0000_0000, 0x100_0000);
    assert(mul_spec(0x3f6a_9380, 0x3a22_e560) == 0x3a15_4385);
    assert(0x95_4385 * 0x1_0000_0000_0000_0000 == 0x1_2a87_0a00_0000_0000 * 0x80_0000 + 0x0);
    lemma_quotient_known(0x3a15_4385, 0x3a80_0000, 0x95_4385, 115, 0x80_0000, 116, 0x1_2a87_0a00_0000_0000, 0x0, 66, 0x2_0000_0000_0000_0000, 0x400_0000_0000);
    assert(div_spec(0x3a15_4385, 0x3a80_0000) == 0x3f15_4385);
    assert(0xb1_aaf1 * 0x40 + 0x95_4385 * 0x1 == 0x2cff_ffc5);
    lemma_sum_known(0x4231_aaf1, 0x3f15_4385, false, 0xb1_aaf1, 131, 0x95_4385, 125, 0x40, 0x1, 0x2cff_ffc5, 30, 0x2000_0000, 0x40);
    assert(add_spec(0x4231_aaf1, 0x3f15_4385) == 0x4233_ffff);
    lemma_whole_known(0x4233_ffff, 0xb3_ffff, 131, 0x4_0000);
}

/// The value 0x3cd2_75b9.
proof fn lemma_at_3cd275b9()
    ensures
        chord_code(0x3cd2_75b9, 0x3ccd_5e8d, 0x3cd5_5e8d, 0x4231_aaf1, 0x4235_553f) == 45,
{
    reveal(chord_code);
    lemma2_to64();
    lemma2_to64_rest();
    lemma_high_powers();
    assert(0xd5_5e8d * 0x1 - 0xcd_5e8d * 0x1 == 0x8_0000);
    lemma_sum_known(0x3cd5_5e8d, 0x3ccd_5e8d, true, 0xd5_5e8d, 120, 0xcd_5e8d, 120, 0x1, 0x1, 0x8_0000, 20, 0x8_0000, 0x10);
    assert(sub_spec(0x3cd5_5e8d, 0x3ccd_5e8d) == 0x3a80_0000);
    assert(0xd2_75b9 * 0x1 - 0xcd_5e8d * 0x1 == 0x5_172c);
    lemma_sum_known(0x3cd2_75b9, 0x3ccd_5e8d, true, 0xd2_75b9, 120, 0xcd_5e8d, 120, 0x1, 0x1, 0x5_172c, 19, 0x4_0000, 0x20);
    assert(sub_spec(0x3cd2_75b9, 0x3ccd_5e8d) == 0x3a22_e580);
    assert(0xb5_553f * 0x1 - 0xb1_aaf1 * 0x1 == 0x3_aa4e);
    lemma_sum_known(0x4235_553f, 0x4231_aaf1, true, 0xb5_553f, 131, 0xb1_aaf1, 131, 0x1, 0x1, 0x3_aa4e, 18, 0x2_0000, 0x40);
    assert(sub_spec(0x4235_553f, 0x4231_aaf1) == 0x3f6a_9380);
    assert(0xea_9380 * 0xa2_e580 == 0x9543_a23b_4000);
    lemma_product_known(0x3f6a_9380, 0x3a22_e580, 0xea_9380, 125, 0xa2_e580, 115, 0x9543_a23b_4000, 48, 0x8000_0000_0000, 0x100_0000);
    assert(mul_spec(0x3f6a_9380, 0x3a22_e580) == 0x3a15_43a2);
    assert(0x95_43a2 * 0x1_0000_0000_0000_0000 == 0x1_2a87_4400_0000_0000 * 0x80_0000 + 0x0);
    lemma_quotient_known(0x3a15_43a2, 0x3a80_0000, 0x95_43a2, 115, 0x80_0000, 116, 0x1_2a87_4400_0000_0000, 0x0, 66, 0x2_0000_0000_0000_0000, 0x400_0000_0000);
    assert(div_spec(0x3a15_43a2, 0x3a80_0000) == 0x3f15_43a2);
    assert(0xb1_aaf1 * 0x40 + 0x95_43a2 * 0x1 == 0x2cff_ffe2);
    lemma_sum_known(0x4231_aaf1, 0x3f15_43a2, false, 0xb1_aaf1, 131, 0x95_43a2, 125, 0x40, 0x1, 0x2cff_ffe2, 30, 0x2000_0000, 0x40);
    assert(add_spec(0x4231_aaf1, 0x3f15_43a2) == 0x4234_0000);
    lemma_whole_known(0x4234_0000, 0xb4_0000, 131, 0x4_0000);
}

/// The edge of code 44.
proof fn lemma_near_44()
    ensures
        near_exact_edge(0x3cd2_75b8, 44),
{
    lemma2_to64();
    lemma2_to64_rest();
    lemma_fifth_powers_of_two();
    lemma_more_fifth_powers_of_two();
    assert(58525nat * 58525 * 58525 == 0xb650_dbee_18c5);
    assert(269025nat * 269025 * 269025 == 0x45_2c59_9066_9ca1);
    assert(0xb650_dbee_18c5nat * 0xb650_dbee_18c5 == 0x81d7_1240_bcf8_d2f3_1eb1_8799nat);
    assert(0x81d7_1240_bcf8_d2f3_1eb1_8799nat * 0x81d7_1240_bcf8_d2f3_1eb1_8799nat == 0x41da_7514_e87d_597d_5ede_8a68_bec7_4cdd_fb9c_875a_a564_b971nat);
    assert(0x45_2c59_9066_9ca1nat * 0x45_2c59_9066_9ca1 == 0x12b0_eff6_c049_6d6d_d948_5020_9d41nat);
    assert(0x12b0_eff6_c049_6d6d_d948_5020_9d41nat * 0x12b0_eff6_c049_6d6d_d948_5020_9d41nat == 0x15d_5c09_8741_6139_2178_92b9_bce5_5f46_89a2_dd05_b95f_0d00_50d8_ca81nat);
    assert(0x41a_2c98nat * 0x41a_2c98 == 0x10_d411_d6a4_9a40);
    assert(0x10_d411_d6a4_9a40nat * 0x10_d411_d6a4_9a40 == 0x11b_31e8_6152_1d4e_1838_fef1_1000nat);
    assert(0x11b_31e8_6152_1d4e_1838_fef1_1000nat * 0x41a_2c98 == 0x4_89bc_07d8_bd80_181a_2c4d_d664_6de1_8000nat);
    assert(0x41e_6c98nat * 0x41e_6c98 == 0x10_f702_61b0_9a40);
    assert(0x10_f702_61b0_9a40nat * 0x10_f702_61b0_9a40 == 0x11f_cea1_ce9b_bdb1_37b8_f4f1_1000nat);
    assert(0x11f_cea1_ce9b_bdb1_37b8_f4f1_1000nat * 0x41e_6c98 == 0x4_a16e_d43f_9873_6022_d03b_95a7_01e1_8000nat);
    assert(0x4_89bc_07d8_bd80_181a_2c4d_d664_6de1_8000nat * 0x15d_5c09_8741_6139_2178_92b9_bce5_5f46_89a2_dd05_b95f_0d00_50d8_ca81nat == 0x631_6701_82b3_5c6e_598a_973f_31f4_9c0d_e433_1d1e_a59f_5558_9b92_8059_311b_0370_fbf5_d694_f8f7_7593_4da1_8000nat);
    assert(0x4_a16e_d43f_9873_6022_d03b_95a7_01e1_8000nat * 0x15d_5c09_8741_6139_2178_92b9_bce5_5f46_89a2_dd05_b95f_0d00_50d8_ca81nat == 0x651_be47_4e2f_5794_dab2_49f1_279f_3d3c_75e9_50bf_1888_92fb_6330_f4e6_ba1c_e2a5_cf47_de2b_5b1c_3ee7_e1a1_8000nat);
    assert(0xc35nat * 0x2_0000_0000_0000_0000_0000_0000_0000_0000_0000nat == 0x186a_0000_0000_0000_0000_0000_0000_0000_0000_0000nat);
    assert(0x41da_7514_e87d_597d_5ede_8a68_bec7_4cdd_fb9c_875a_a564_b971nat * 0x186a_0000_0000_0000_0000_0000_0000_0000_0000_0000nat == 0x647_bf6e_7074_044a_cece_251f_2141_adba_a380_db80_8b09_ed17_60ca_0000_0000_0000_0000_0000_0000_0000_0000_0000nat);
    lemma_near_above(
        0x3cd2_75b8, 0xd2_75b8, 120, 0x2000, 0x186a_0000_0000_0000_0000_0000_0000_0000_0000_0000nat, 44,
        58525, 0xb650_dbee_18c5,
        0x81d7_1240_bcf8_d2f3_1eb1_8799nat,
        0x45_2c59_9066_9ca1, 0x12b0_eff6_c049_6d6d_d948_5020_9d41nat,
        0x41a_2c98, 0x10_d411_d6a4_9a40, 0x11b_31e8_6152_1d4e_1838_fef1_1000nat,
        0x41e_6c98, 0x10_f702_61b0_9a40, 0x11f_cea1_ce9b_bdb1_37b8_f4f1_1000nat,
    );
}

/// The value 0x3cdb_39c8.
proof fn lemma_at_3cdb39c8()
    ensures
        chord_code(0x3cdb_39c8, 0x3cd5_5e8d, 0x3cdd_5e8d, 0x4235_553f, 0x4238_f9e8) == 45,
{
    reveal(chord_code);
    lemma2_to64();
    lemma2_to64_rest();
    lemma_high_powers();
    assert(0xdd_5e8d * 0x1 - 0xd5_5e8d * 0x1 == 0x8_0000);
    lemma_sum_known(0x3cdd_5e8d, 0x3cd5_5e8d, true, 0xdd_5e8d, 120, 0xd5_5e8d, 120, 0x1, 0x1, 0x8_0000, 20, 0x8_0000, 0x10);
    assert(sub_spec(0x3cdd_5e8d, 0x3cd5_5e8d) == 0x3a80_0000);
    assert(0xdb_39c8 * 0x1 - 0xd5_5e8d * 0x1 == 0x5_db3b);
    lemma_sum_known(0x3cdb_39c8, 0x3cd5_5e8d, true, 0xdb_39c8, 120, 0xd5_5e8d, 120, 0x1, 0x1, 0x5_db3b, 19, 0x4_0000, 0x20);
    assert(sub_spec(0x3cdb_39c8, 0x3cd5_5e8d) == 0x3a3b_6760);
    assert(0xb8_f9e8 * 0x1 - 0xb5_553f * 0x1 == 0x3_a4a9);
    lemma_sum_known(0x4238_f9e8, 0x4235_553f, true, 0xb8_f9e8, 131, 0xb5_553f, 131, 0x1, 0x1, 0x3_a4a9, 18, 0x2_0000, 0x40);
    assert(sub_spec(0x4238_f9e8, 0x4235_553f) == 0x3f69_2a40);
    assert(0xe9_2a40 * 0xbb_6760 == 0xaab0_042f_9800);
    lemma_product_known(0x3f69_2a40, 0x3a3b_6760, 0xe9_2a40, 125, 0xbb_6760, 115, 0xaab0_042f_9800, 48, 0x8000_0000_0000, 0x100_0000);
    assert(mul_spec(0x3f69_2a40, 0x3a3b_6760) == 0x3a2a_b004);
    assert(0xaa_b004 * 0x1_0000_0000_0000_0000 == 0x1_5560_0800_0000_0000 * 0x80_0000 + 0x0);
    lemma_quotient_known(0x3a2a_b004, 0x3a80_0000, 0xaa_b004, 115, 0x80_0000, 116, 0x1_5560_0800_0000_0000, 0x0, 66, 0x2_0000_0000_0000_0000, 0x400_0000_0000);
    assert(div_spec(0x3a2a_b004, 0x3a80_0000) == 0x3f2a_b004);
    assert(0xb5_553f * 0x40 + 0xaa_b004 * 0x1 == 0x2dff_ffc4);
    lemma_sum_known(0x4235_553f, 0x3f2a_b004, false, 0xb5_553f, 131, 0xaa_b004, 125, 0x40, 0x1, 0x2dff_ffc4, 30, 0x2000_0000, 0x40);
    assert(add_spec(0x4235_553f, 0x3f2a_b004) == 0x4237_ffff);
    lemma_whole_known(0x4237_ffff, 0xb7_ffff, 131, 0x4_0000);
}

/// The value 0x3cdb_39c9.
proof fn lemma_at_3cdb39c9()
    ensures
        chord_code(0x3cdb_39c9, 0x3cd5_5e8d, 0x3cdd_5e8d, 0x4235_553f, 0x4238_f9e8) == 46,
{
    reveal(chord_code);
    lemma2_to64();
    lemma2_to64_rest();
    lemma_high_powers();
    assert(0xdd_5e8d * 0x1 - 0xd5_5e8d * 0x1 == 0x8_0000);
    lemma_sum_known(0x3cdd_5e8d, 0x3cd5_5e8d, true, 0xdd_5e8d, 120, 0xd5_5e8d, 120, 0x1, 0x1, 0x8_0000, 20, 0x8_0000, 0x10);
    assert(sub_spec(0x3cdd_5e8d, 0x3cd5_5e8d) == 0x3a80_0000);
    assert(0xdb_39c9 * 0x1 - 0xd5_5e8d * 0x1 == 0x5_db3c);
    lemma_sum_known(0x3cdb_39c9, 0x3cd5_5e8d, true, 0xdb_39c9, 120, 0xd5_5e8d, 120, 0x1, 0x1, 0x5_db3c, 19, 0x4_0000, 0x20);
    assert(sub_spec(0x3cdb_39c9, 0x3cd5_5e8d) == 0x3a3b_6780);
    assert(0xb8_f9e8 * 0x1 - 0xb5_553f * 0x1 == 0x3_a4a9);
    lemma_sum_known(0x4238_f9e8, 0x4235_553f, true, 0xb8_f9e8, 131, 0xb5_553f, 131, 0x1, 0x1, 0x3_a4a9, 18, 0x2_0000, 0x40);
    assert(sub_spec(0x4238_f9e8, 0x4235_553f) == 0x3f69_2a40);
    assert(0xe9_2a40 * 0xbb_6780 == 0xaab0_2154_e000);
    lemma_product_known(0x3f69_2a40, 0x3a3b_6780, 0xe9_2a40, 125, 0xbb_6780, 115, 0xaab0_2154_e000, 48, 0x8000_0000_0000, 0x100_0000);
    assert(mul_spec(0x3f69_2a40, 0x3a3b_6780) == 0x3a2a_b021);
    assert(0xaa_b021 * 0x1_0000_0000_0000_0000 == 0x1_5560_4200_0000_0000 * 0x80_0000 + 0x0);
    lemma_quotient_known(0x3a2a_b021, 0x3a80_0000, 0xaa_b021, 115, 0x80_0000, 116, 0x1_5560_4200_0000_0000, 0x0, 66, 0x2_0000_0000_0000_0000, 0x400_0000_0000);
    assert(div_spec(0x3a2a_b021, 0x3a80_0000) == 0x3f2a_b021);
    assert(0xb5_553f * 0x40 + 0xaa_b021 * 0x1 == 0x2dff_ffe1);
    lemma_sum_known(0x4235_553f, 0x3f2a_b021, false, 0xb5_553f, 131, 0xaa_b021, 125, 0x40, 0x1, 0x2dff_ffe1, 30, 0x2000_0000, 0x40);
    assert(add_spec(0x4235_553f, 0x3f2a_b021) == 0x4238_0000);
    lemma_whole_known(0x4238_0000, 0xb8_0000, 131, 0x4_0000);
}

/// The edge of code 45.
proof fn lemma_near_45()
    ensures
        near_exact_edge(0x3cdb_39c8, 45),
{
    lemma2_to64();
    lemma2_to64_rest();
    lemma_fifth_powers_of_two();
    lemma_more_fifth_powers_of_two();
    assert(59525nat * 59525 * 59525 == 0xbfd2_6dbf_ddfd);
    assert(269025nat * 269025 * 269025 == 0x45_2c59_9066_9ca1);
    assert(0xbfd2_6dbf_ddfdnat * 0xbfd2_6dbf_ddfd == 0x8fbb_acbc_8b14_abea_7204_cc09nat);
    assert(0x8fbb_acbc_8b14_abea_7204_cc09nat * 0x8fbb_acbc_8b14_abea_7204_cc09nat == 0x50b3_3490_7362_2e03_6cd2_ecdd_f443_d690_b389_4c43_06e6_5851nat);
    assert(0x45_2c59_9066_9ca1nat * 0x45_2c59_9066_9ca1 == 0x12b0_eff6_c049_6d6d_d948_5020_9d41nat);
    assert(0x12b0_eff6_c049_6d6d_d948_5020_9d41nat * 0x12b0_eff6_c049_6d6d_d948_5020_9d41nat == 0x15d_5c09_8741_6139_2178_92b9_bce5_5f46_89a2_dd05_b95f_0d00_50d8_ca81nat);
    assert(0x446_00e8nat * 0x446_00e8 == 0x12_432b_bee0_d240);
    assert(0x12_432b_bee0_d240nat * 0x12_432b_bee0_d240 == 0x14d_83c6_c500_ece6_9f07_9cad_1000nat);
    assert(0x14d_83c6_c500_ece6_9f07_9cad_1000nat * 0x446_00e8 == 0x5_9142_51ad_4e16_ea62_4b87_aa78_5cd6_8000nat);
    assert(0x44a_40e8nat * 0x44a_40e8 == 0x12_6790_d694_d240);
    assert(0x12_6790_d694_d240nat * 0x12_6790_d694_d240 == 0x152_ba44_0b8b_6d79_2e06_c6ad_1000nat);
    assert(0x152_ba44_0b8b_6d79_2e06_c6ad_1000nat * 0x44a_40e8 == 0x5_ad28_c963_5490_db78_ea63_8a15_f0d6_8000nat);
    assert(0x5_9142_51ad_4e16_ea62_4b87_aa78_5cd6_8000nat * 0x15d_5c09_8741_6139_2178_92b9_bce5_5f46_89a2_dd05_b95f_0d00_50d8_ca81nat == 0x799_07d2_3af8_9496_d749_20a4_c14b_1957_85ff_a0cf_14da_432d_359f_3632_2445_caa2_0721_ddae_f2f1_3ce4_0916_8000nat);
    assert(0x5_ad28_c963_5490_db78_ea63_8a15_f0d6_8000nat * 0x15d_5c09_8741_6139_2178_92b9_bce5_5f46_89a2_dd05_b95f_0d00_50d8_ca81nat == 0x7bf_1b0b_4afc_b1cc_8001_b9d0_41cb_36fa_6877_591c_68a0_bc47_b754_1256_2b2b_5dcb_e953_df58_6964_2213_9d16_8000nat);
    assert(0xc35nat * 0x2_0000_0000_0000_0000_0000_0000_0000_0000_0000nat == 0x186a_0000_0000_0000_0000_0000_0000_0000_0000_0000nat);
    assert(0x50b3_3490_7362_2e03_6cd2_ecdd_f443_d690_b389_4c43_06e6_5851nat * 0x186a_0000_0000_0000_0000_0000_0000_0000_0000_0000nat == 0x7b2_3721_4ea0_faf7_5f9e_d58a_e2cd_8034_68bf_35ff_dc66_73a8_298a_0000_0000_0000_0000_0000_0000_0000_0000_0000nat);
    lemma_near_above(
        0x3cdb_39c8, 0xdb_39c8, 120, 0x2000, 0x186a_0000_0000_0000_0000_0000_0000_0000_0000_0000nat, 45,
        59525, 0xbfd2_6dbf_ddfd,
        0x8fbb_acbc_8b14_abea_7204_cc09nat,
        0x45_2c59_9066_9ca1, 0x12b0_eff6_c049_6d6d_d948_5020_9d41nat,
        0x446_00e8, 0x12_432b_bee0_d240, 0x14d_83c6_c500_ece6_9f07_9cad_1000nat,
        0x44a_40e8, 0x12_6790_d694_d240, 0x152_ba44_0b8b_6d79_2e06_c6ad_1000nat,
    );
}

/// The value 0x3ce4_4ff6.
proof fn lemma_at_3ce44ff6()
    ensures
        chord_code(0x3ce4_4ff6, 0x3cdd_5e8d, 0x3ce5_5e8d, 0x4238_f9e8, 0x423c_75d8) == 46,
{
    reveal(chord_code);
    lemma2_to64();
    lemma2_to64_rest();
    lemma_high_powers();
    assert(0xe5_5e8d * 0x1 - 0xdd_5e8d * 0x1 == 0x8_0000);
    lemma_sum_known(0x3ce5_5e8d, 0x3cdd_5e8d, true, 0xe5_5e8d, 120, 0xdd_5e8d, 120, 0x1, 0x1, 0x8_0000, 20, 0x8_0000, 0x10);
    assert(sub_spec(0x3ce5_5e8d, 0x3cdd_5e8d) == 0x3a80_0000);
    assert(0xe4_4ff6 * 0x1 - 0xdd_5e8d * 0x1 == 0x6_f169);
    lemma_sum_known(0x3ce4_4ff6, 0x3cdd_5e8d, true, 0xe4_4ff6, 120, 0xdd_5e8d, 120, 0x1, 0x1, 0x6_f169, 19, 0x4_0000, 0x20);
    assert(sub_spec(0x3ce4_4ff6, 0x3cdd_5e8d) == 0x3a5e_2d20);
    assert(0xbc_75d8 * 0x1 - 0xb8_f9e8 * 0x1 == 0x3_7bf0);
    lemma_sum_known(0x423c_75d8, 0x4238_f9e8, true, 0xbc_75d8, 131, 0xb8_f9e8, 131, 0x1, 0x1, 0x3_7bf0, 18, 0x2_0000, 0x40);
    assert(sub_spec(0x423c_75d8, 0x4238_f9e8) == 0x3f5e_fc00);
    assert(0xde_fc00 * 0xde_2d20 == 0xc185_d62b_8000);
    lemma_product_known(0x3f5e_fc00, 0x3a5e_2d20, 0xde_fc00, 125, 0xde_2d20, 115, 0xc185_d62b_8000, 48, 0x8000_0000_0000, 0x100_0000);
    assert(mul_spec(0x3f5e_fc00, 0x3a5e_2d20) == 0x3a41_85d6);
    assert(0xc1_85d6 * 0x1_0000_0000_0000_0000 == 0x1_830b_ac00_0000_0000 * 0x80_0000 + 0x0);
    lemma_quotient_known(0x3a41_85d6, 0x3a80_0000, 0xc1_85d6, 115, 0x80_0000, 116, 0x1_830b_ac00_0000_0000, 0x0, 66, 0x2_0000_0000_0000_0000, 0x400_0000_0000);
    assert(div_spec(0x3a41_85d6, 0x3a80_0000) == 0x3f41_85d6);
    assert(0xb8_f9e8 * 0x40 + 0xc1_85d6 * 0x1 == 0x2eff_ffd6);
    lemma_sum_known(0x4238_f9e8, 0x3f41_85d6, false, 0xb8_f9e8, 131, 0xc1_85d6, 125, 0x40, 0x1, 0x2eff_ffd6, 30, 0x2000_0000, 0x40);
    assert(add_spec(0x4238_f9e8, 0x3f41_85d6) == 0x423b_ffff);
    lemma_whole_known(0x423b_ffff, 0xbb_ffff, 131, 0x4_0000);
}

/// The value 0x3ce4_4ff7.
proof fn lemma_at_3ce44ff7()
    ensures
        chord_code(0x3ce4_4ff7, 0x3cdd_5e8d, 0x3ce5_5e8d, 0x4238_f9e8, 0x423c_75d8) == 47,
{
    reveal(chord_code);
    lemma2_to64();
    lemma2_to64_rest();
    lemma_high_powers();
    assert(0xe5_5e8d * 0x1 - 0xdd_5e8d * 0x1 == 0x8_0000);
    lemma_sum_known(0x3ce5_5e8d, 0x3cdd_5e8d, true, 0xe5_5e8d, 120, 0xdd_5e8d, 120, 0x1, 0x1, 0x8_0000, 20, 0x8_0000, 0x10);
    assert(sub_spec(0x3ce5_5e8d, 0x3cdd_5e8d) == 0x3a80_0000);
    assert(0xe4_4ff7 * 0x1 - 0xdd_5e8d * 0x1 == 0x6_f16a);
    lemma_sum_known(0x3ce4_4ff7, 0x3cdd_5e8d, true, 0xe4_4ff7, 120, 0xdd_5e8d, 120, 0x1, 0x1, 0x6_f16a, 19, 0x4_0000, 0x20);
    assert(sub_spec(0x3ce4_4ff7, 0x3cdd_5e8d) == 0x3a5e_2d40);
    assert(0xbc_75d8 * 0x1 - 0xb8_f9e8 * 0x1 == 0x3_7bf0);
    lemma_sum_known(0x423c_75d8, 0x4238_f9e8, true, 0xbc_75d8, 131, 0xb8_f9e8, 131, 0x1, 0x1, 0x3_7bf0, 18, 0x2_0000, 0x40);
    assert(sub_spec(0x423c_75d8, 0x4238_f9e8) == 0x3f5e_fc00);
    assert(0xde_fc00 * 0xde_2d40 == 0xc185_f20b_0000);
    lemma_product_known(0x3f5e_fc00, 0x3a5e_2d40, 0xde_fc00, 125, 0xde_2d40, 115, 0xc185_f20b_0000, 48, 0x8000_0000_0000, 0x100_0000);
    assert(mul_spec(0x3f5e_fc00, 0x3a5e_2d40) == 0x3a41_85f2);
    assert(0xc1_85f2 * 0x1_0000_0000_0000_0000 == 0x1_830b_e400_0000_0000 * 0x80_0000 + 0x0);
    lemma_quotient_known(0x3a41_85f2, 0x3a80_0000, 0xc1_85f2, 115, 0x80_0000, 116, 0x1_830b_e400_0000_0000, 0x0, 66, 0x2_0000_0000_0000_0000, 0x400_0000_0000);
    assert(div_spec(0x3a41_85f2, 0x3a80_0000) == 0x3f41_85f2);
    assert(0xb8_f9e8 * 0x40 + 0xc1_85f2 * 0x1 == 0x2eff_fff2);
    lemma_sum_known(0x4238_f9e8, 0x3f41_85f2, false, 0xb8_f9e8, 131, 0xc1_85f2, 125, 0x40, 0x1, 0x2eff_fff2, 30, 0x2000_0000, 0x40);
    assert(add_spec(0x4238_f9e8, 0x3f41_85f2) == 0x423c_0000);
    lemma_whole_known(0x423c_0000, 0xbc_0000, 131, 0x4_0000);
}

/// The edge of code 46.
proof fn lemma_near_46()
    ensures
        near_exact_edge(0x3ce4_4ff6, 46),
{
    lemma2_to64();
    lemma2_to64_rest();
    lemma_fifth_powers_of_two();
    lemma_more_fifth_powers_of_two();
    assert(60525nat * 60525 * 60525 == 0xc9a7_275e_26b5);
    assert(269025nat * 269025 * 269025 == 0x45_2c59_9066_9ca1);
    assert(0xc9a7_275e_26b5nat * 0xc9a7_275e_26b5 == 0x9ed7_e8f6_3bac_8c91_98c6_3bf9nat);
    assert(0x9ed7_e8f6_3bac_8c91_98c6_3bf9nat * 0x9ed7_e8f6_3bac_8c91_98c6_3bf9nat == 0x628f_39a9_1340_7257_5172_58d1_4f2c_ce78_99ec_48ca_8338_b831nat);
    assert(0x45_2c59_9066_9ca1nat * 0x45_2c59_9066_9ca1 == 0x12b0_eff6_c049_6d6d_d948_5020_9d41nat);
    assert(0x12b0_eff6_c049_6d6d_d948_5020_9d41nat * 0x12b0_eff6_c049_6d6d_d948_5020_9d41nat == 0x15d_5c09_8741_6139_2178_92b9_bce5_5f46_89a2_dd05_b95f_0d00_50d8_ca81nat);
    assert(0x473_6fcenat * 0x473_6fce == 0x13_cf8c_13e8_49c4);
    assert(0x13_cf8c_13e8_49c4nat * 0x13_cf8c_13e8_49c4 == 0x188_770e_c952_61ff_f418_e081_5e10nat);
    assert(0x188_770e_c952_61ff_f418_e081_5e10nat * 0x473_6fce == 0x6_d2d5_1e38_f0ba_be93_e17c_14f2_4112_a0e0nat);
    assert(0x477_afcenat * 0x477_afce == 0x13_f573_5a3f_49c4);
    assert(0x13_f573_5a3f_49c4nat * 0x13_f573_5a3f_49c4 == 0x18e_5a75_641c_4af5_fd9b_33b9_5e10nat);
    assert(0x18e_5a75_641c_4af5_fd9b_33b9_5e10nat * 0x477_afce == 0x6_f3a7_7285_0438_9651_ca43_1be2_4fe6_a0e0nat);
    assert(0x6_d2d5_1e38_f0ba_be93_e17c_14f2_4112_a0e0nat * 0x15d_5c09_8741_6139_2178_92b9_bce5_5f46_89a2_dd05_b95f_0d00_50d8_ca81nat == 0x94f_e08f_cee7_378e_ac5b_5c2f_404f_88b5_b5a3_f178_1e34_53bf_461e_10a7_4dd0_4a6f_d7b3_2d87_6e15_cf69_3a53_d0e0nat);
    assert(0x6_f3a7_7285_0438_9651_ca43_1be2_4fe6_a0e0nat * 0x15d_5c09_8741_6139_2178_92b9_bce5_5f46_89a2_dd05_b95f_0d00_50d8_ca81nat == 0x97c_ab19_89a5_641e_3ddf_0329_7444_d954_d99f_9123_8425_908a_0e5c_8820_57ef_a216_ce9e_3d6c_6908_7cf3_fb27_d0e0nat);
    assert(0xc35nat * 0x2_0000_0000_0000_0000_0000_0000_0000_0000_0000nat == 0x186a_0000_0000_0000_0000_0000_0000_0000_0000_0000nat);
    assert(0x628f_39a9_1340_7257_5172_58d1_4f2c_ce78_99ec_48ca_8338_b831nat * 0x186a_0000_0000_0000_0000_0000_0000_0000_0000_0000nat == 0x966_3cb5_b9d0_0367_87ca_71ac_6616_fbe8_cc5d_e2a9_2027_a6c0_dc4a_0000_0000_0000_0000_0000_0000_0000_0000_0000nat);
    lemma_near_above(
        0x3ce4_4ff6, 0xe4_4ff6, 120, 0x2000, 0x186a_0000_0000_0000_0000_0000_0000_0000_0000_0000nat, 46,
        60525, 0xc9a7_275e_26b5,
        0x9ed7_e8f6_3bac_8c91_98c6_3bf9nat,
        0x45_2c59_9066_9ca1, 0x12b0_eff6_c049_6d6d_d948_5020_9d41nat,
        0x473_6fce, 0x13_cf8c_13e8_49c4, 0x188_770e_c952_61ff_f418_e081_5e10nat,
        0x477_afce, 0x13_f573_5a3f_49c4, 0x18e_5a75_641c_4af5_fd9b_33b9_5e10nat,
    );
}

/// The value 0x3ced_5cca.
proof fn lemma_at_3ced5cca()
    ensures
        chord_code(0x3ced_5cca, 0x3ce5_5e8d, 0x3ced_5e8d, 0x423c_75d8, 0x4240_00c7) == 47,
{
    reveal(chord_code);
    lemma2_to64();
    lemma2_to64_rest();
    lemma_high_powers();
    assert(0xed_5e8d * 0x1 - 0xe5_5e8d * 0x1 == 0x8_0000);
    lemma_sum_known(0x3ced_5e8d, 0x3ce5_5e8d, true, 0xed_5e8d, 120, 0xe5_5e8d, 120, 0x1, 0x1, 0x8_0000, 20, 0x8_0000, 0x10);
    assert(sub_spec(0x3ced_5e8d, 0x3ce5_5e8d) == 0x3a80_0000);
    assert(0xed_5cca * 0x1 - 0xe5_5e8d * 0x1 == 0x7_fe3d);
    lemma_sum_known(0x3ced_5cca, 0x3ce5_5e8d, true, 0xed_5cca, 120, 0xe5_5e8d, 120, 0x1, 0x1, 0x7_fe3d, 19, 0x4_0000, 0x20);
    assert(sub_spec(0x3ced_5cca, 0x3ce5_5e8d) == 0x3a7f_c7a0);
    assert(0xc0_00c7 * 0x1 - 0xbc_75d8 * 0x1 == 0x3_8aef);
    lemma_sum_known(0x4240_00c7, 0x423c_75d8, true, 0xc0_00c7, 131, 0xbc_75d8, 131, 0x1, 0x1, 0x3_8aef, 18, 0x2_0000, 0x40);
    assert(sub_spec(0x4240_00c7, 0x423c_75d8) == 0x3f62_bbc0);
    assert(0xe2_bbc0 * 0xff_c7a0 == 0xe289_d1e7_9800);
    lemma_product_known(0x3f62_bbc0, 0x3a7f_c7a0, 0xe2_bbc0, 125, 0xff_c7a0, 115, 0xe289_d1e7_9800, 48, 0x8000_0000_0000, 0x100_0000);
    assert(mul_spec(0x3f62_bbc0, 0x3a7f_c7a0) == 0x3a62_89d2);
    assert(0xe2_89d2 * 0x1_0000_0000_0000_0000 == 0x1_c513_a400_0000_0000 * 0x80_0000 + 0x0);
    lemma_quotient_known(0x3a62_89d2, 0x3a80_0000, 0xe2_89d2, 115, 0x80_0000, 116, 0x1_c513_a400_0000_0000, 0x0, 66, 0x2_0000_0000_0000_0000, 0x400_0000_0000);
    assert(div_spec(0x3a62_89d2, 0x3a80_0000) == 0x3f62_89d2);
    assert(0xbc_75d8 * 0x40 + 0xe2_89d2 * 0x1 == 0x2fff_ffd2);
    lemma_sum_known(0x423c_75d8, 0x3f62_89d2, false, 0xbc_75d8, 131, 0xe2_89d2, 125, 0x40, 0x1, 0x2fff_ffd2, 30, 0x2000_0000, 0x40);
    assert(add_spec(0x423c_75d8, 0x3f62_89d2) == 0x423f_ffff);
    lemma_whole_known(0x423f_ffff, 0xbf_ffff, 131, 0x4_0000);
}

/// The value 0x3ced_5ccb.
proof fn lemma_at_3ced5ccb()
    ensures
        chord_code(0x3ced_5ccb, 0x3ce5_5e8d, 0x3ced_5e8d, 0x423c_75d8, 0x4240_00c7) == 48,
{
    reveal(chord_code);
    lemma2_to64();
    lemma2_to64_rest();
    lemma_high_powers();
    assert(0xed_5e8d * 0x1 - 0xe5_5e8d * 0x1 == 0x8_0000);
    lemma_sum_known(0x3ced_5e8d, 0x3ce5_5e8d, true, 0xed_5e8d, 120, 0xe5_5e8d, 120, 0x1, 0x1, 0x8_0000, 20, 0x8_0000, 0x10);
    assert(sub_spec(0x3ced_5e8d, 0x3ce5_5e8d) == 0x3a80_0000);
    assert(0xed_5ccb * 0x1 - 0xe5_5e8d * 0x1 == 0x7_fe3e);
    lemma_sum_known(0x3ced_5ccb, 0x3ce5_5e8d, true, 0xed_5ccb, 120, 0xe5_5e8d, 120, 0x1, 0x1, 0x7_fe3e, 19, 0x4_0000, 0x20);
    assert(sub_spec(0x3ced_5ccb, 0x3ce5_5e8d) == 0x3a7f_c7c0);
    assert(0xc0_00c7 * 0x1 - 0xbc_75d8 * 0x1 == 0x3_8aef);
    lemma_sum_known(0x4240_00c7, 0x423c_75d8, true, 0xc0_00c7, 131, 0xbc_75d8, 131, 0x1, 0x1, 0x3_8aef, 18, 0x2_0000, 0x40);
    assert(sub_spec(0x4240_00c7, 0x423c_75d8) == 0x3f62_bbc0);
    assert(0xe2_bbc0 * 0xff_c7c0 == 0xe289_ee3f_1000);
    lemma_product_known(0x3f62_bbc0, 0x3a7f_c7c0, 0xe2_bbc0, 125, 0xff_c7c0, 115, 0xe289_ee3f_1000, 48, 0x8000_0000_0000, 0x100_0000);
    assert(mul_spec(0x3f62_bbc0, 0x3a7f_c7c0) == 0x3a62_89ee);
    assert(0xe2_89ee * 0x1_0000_0000_0000_0000 == 0x1_c513_dc00_0000_0000 * 0x80_0000 + 0x0);
    lemma_quotient_known(0x3a62_89ee, 0x3a80_0000, 0xe2_89ee, 115, 0x80_0000, 116, 0x1_c513_dc00_0000_0000, 0x0, 66, 0x2_0000_0000_0000_0000, 0x400_0000_0000);
    assert(div_spec(0x3a62_89ee, 0x3a80_0000) == 0x3f62_89ee);
    assert(0xbc_75d8 * 0x40 + 0xe2_89ee * 0x1 == 0x2fff_ffee);
    lemma_sum_known(0x423c_75d8, 0x3f62_89ee, false, 0xbc_75d8, 131, 0xe2_89ee, 125, 0x40, 0x1, 0x2fff_ffee, 30, 0x2000_0000, 0x40);
    assert(add_spec(0x423c_75d8, 0x3f62_89ee) == 0x4240_0000);
    lemma_whole_known(0x4240_0000, 0xc0_0000, 131, 0x4_0000);
}

/// The edge of code 47.
proof fn lemma_near_47()
    ensures
        near_exact_edge(0x3ced_5cca, 47),
{
    lemma2_to64();
    lemma2_to64_rest();
    lemma_fifth_powers_of_two();
    lemma_more_fifth_powers_of_two();
    assert(61525nat * 61525 * 61525 == 0xd3d0_6e69_aeed);
    assert(269025nat * 269025 * 269025 == 0x45_2c59_9066_9ca1);
    assert(0xd3d0_6e69_aeednat * 0xd3d0_6e69_aeed == 0xaf41_3fb5_d1b5_ed14_a1f1_0769nat);
    assert(0xaf41_3fb5_d1b5_ed14_a1f1_0769nat * 0xaf41_3fb5_d1b5_ed14_a1f1_0769nat == 0x77fa_45bb_fee6_36de_5b9d_b9cd_bcf3_eae9_e84c_a0a9_05e8_e911nat);
    assert(0x45_2c59_9066_9ca1nat * 0x45_2c59_9066_9ca1 == 0x12b0_eff6_c049_6d6d_d948_5020_9d41nat);
    assert(0x12b0_eff6_c049_6d6d_d948_5020_9d41nat * 0x12b0_eff6_c049_6d6d_d948_5020_9d41nat == 0x15d_5c09_8741_6139_2178_92b9_bce5_5f46_89a2_dd05_b95f_0d00_50d8_ca81nat);
    assert(0x4a0_aff2nat * 0x4a0_aff2 == 0x15_6a5b_f76c_c0c4);
    assert(0x15_6a5b_f76c_c0c4nat * 0x15_6a5b_f76c_c0c4 == 0x1ca_9f46_e1c7_863e_6585_6e86_9610nat);
    assert(0x1ca_9f46_e1c7_863e_6585_6e86_9610nat * 0x4a0_aff2 == 0x8_4a5b_dc40_4025_b3f7_1781_5d26_85ce_cb20nat);
    assert(0x4a4_eff2nat * 0x4a4_eff2 == 0x15_91c3_def5_c0c4);
    assert(0x15_91c3_def5_c0c4nat * 0x15_91c3_def5_c0c4 == 0x1d1_3d22_0cc1_7118_d8d6_784e_9610nat);
    assert(0x1d1_3d22_0cc1_7118_d8d6_784e_9610nat * 0x4a4_eff2 == 0x8_70b3_c1e1_c5c9_7ec1_5f33_81bf_7aa2_cb20nat);
    assert(0x8_4a5b_dc40_4025_b3f7_1781_5d26_85ce_cb20nat * 0x15d_5c09_8741_6139_2178_92b9_bce5_5f46_89a2_dd05_b95f_0d00_50d8_ca81nat == 0xb50_5a43_454d_c135_6665_2c74_a3ad_37ef_4e93_2e47_7c2b_e2a6_63a1_9cc9_5ba2_2e23_e932_8f44_8f32_7bf3_fc7b_9b20nat);
    assert(0x8_70b3_c1e1_c5c9_7ec1_5f33_81bf_7aa2_cb20nat * 0x15d_5c09_8741_6139_2178_92b9_bce5_5f46_89a2_dd05_b95f_0d00_50d8_ca81nat == 0xb84_ade0_5660_352e_c3df_c419_75cd_e970_da13_b809_5f54_088b_09ab_76a2_d532_0b3f_c583_589e_b268_7116_a34f_9b20nat);
    assert(0xc35nat * 0x2_0000_0000_0000_0000_0000_0000_0000_0000_0000nat == 0x186a_0000_0000_0000_0000_0000_0000_0000_0000_0000nat);
    assert(0x77fa_45bb_fee6_36de_5b9d_b9cd_bcf3_eae9_e84c_a0a9_05e8_e911nat * 0x186a_0000_0000_0000_0000_0000_0000_0000_0000_0000nat == 0xb71_242a_7fbd_2077_90a8_b8ba_38e7_1b05_32a1_5eca_5e8a_484a_190a_0000_0000_0000_0000_0000_0000_0000_0000_0000nat);
    lemma_near_above(
        0x3ced_5cca, 0xed_5cca, 120, 0x2000, 0x186a_0000_0000_0000_0000_0000_0000_0000_0000_0000nat, 47,
        61525, 0xd3d0_6e69_aeed,
        0xaf41_3fb5_d1b5_ed14_a1f1_0769nat,
        0x45_2c59_9066_9ca1, 0x12b0_eff6_c049_6d6d_d948_5020_9d41nat,
        0x4a0_aff2, 0x15_6a5b_f76c_c0c4, 0x1ca_9f46_e1c7_863e_6585_6e86_9610nat,
        0x4a4_eff2, 0x15_91c3_def5_c0c4, 0x1d1_3d22_0cc1_7118_d8d6_784e_9610nat,
    );
}

/// The value 0x3cf6_b455.
proof fn lemma_at_3cf6b455()
    ensures
        chord_code(0x3cf6_b455, 0x3cf5_5e8d, 0x3cfd_5e8d, 0x4243_7283, 0x4246_c250) == 48,
{
    reveal(chord_code);
    lemma2_to64();
    lemma2_to64_rest();
    lemma_high_powers();
    assert(0xfd_5e8d * 0x1 - 0xf5_5e8d * 0x1 == 0x8_0000);
    lemma_sum_known(0x3cfd_5e8d, 0x3cf5_5e8d, true, 0xfd_5e8d, 120, 0xf5_5e8d, 120, 0x1, 0x1, 0x8_0000, 20, 0x8_0000, 0x10);
    assert(sub_spec(0x3cfd_5e8d, 0x3cf5_5e8d) == 0x3a80_0000);
    assert(0xf6_b455 * 0x1 - 0xf5_5e8d * 0x1 == 0x1_55c8);
    lemma_sum_known(0x3cf6_b455, 0x3cf5_5e8d, true, 0xf6_b455, 120, 0xf5_5e8d, 120, 0x1, 0x1, 0x1_55c8, 17, 0x1_0000, 0x80);
    assert(sub_spec(0x3cf6_b455, 0x3cf5_5e8d) == 0x392a_e400);
    assert(0xc6_c250 * 0x1 - 0xc3_7283 * 0x1 == 0x3_4fcd);
    lemma_sum_known(0x4246_c250, 0x4243_7283, true, 0xc6_c250, 131, 0xc3_7283, 131, 0x1, 0x1, 0x3_4fcd, 18, 0x2_0000, 0x40);
    assert(sub_spec(0x4246_c250, 0x4243_7283) == 0x3f53_f340);
    assert(0xd3_f340 * 0xaa_e400 == 0x8d7c_4d25_0000);
    lemma_product_known(0x3f53_f340, 0x392a_e400, 0xd3_f340, 125, 0xaa_e400, 113, 0x8d7c_4d25_0000, 48, 0x8000_0000_0000, 0x100_0000);
    assert(mul_spec(0x3f53_f340, 0x392a_e400) == 0x390d_7c4d);
    assert(0x8d_7c4d * 0x1_0000_0000_0000_0000 == 0x1_1af8_9a00_0000_0000 * 0x80_0000 + 0x0);
    lemma_quotient_known(0x390d_7c4d, 0x3a80_0000, 0x8d_7c4d, 113, 0x80_0000, 116, 0x1_1af8_9a00_0000_0000, 0x0, 66, 0x2_0000_0000_0000_0000, 0x400_0000_0000);
    assert(div_spec(0x390d_7c4d, 0x3a80_0000) == 0x3e0d_7c4d);
    assert(0xc3_7283 * 0x100 + 0x8d_7c4d * 0x1 == 0xc3ff_ff4d);
    lemma_sum_known(0x4243_7283, 0x3e0d_7c4d, false, 0xc3_7283, 131, 0x8d_7c4d, 123, 0x100, 0x1, 0xc3ff_ff4d, 32, 0x8000_0000, 0x100);
    assert(add_spec(0x4243_7283, 0x3e0d_7c4d) == 0x4243_ffff);
    lemma_whole_known(0x4243_ffff, 0xc3_ffff, 131, 0x4_0000);
}

/// The value 0x3cf6_b456.
proof fn lemma_at_3cf6b456()
    ensures
        chord_code(0x3cf6_b456, 0x3cf5_5e8d, 0x3cfd_5e8d, 0x4243_7283, 0x4246_c250) == 49,
{
    reveal(chord_code);
    lemma2_to64();
    lemma2_to64_rest();
    lemma_high_powers();
    assert(0xfd_5e8d * 0x1 - 0xf5_5e8d * 0x1 == 0x8_0000);
    lemma_sum_known(0x3cfd_5e8d, 0x3cf5_5e8d, true, 0xfd_5e8d, 120, 0xf5_5e8d, 120, 0x1, 0x1, 0x8_0000, 20, 0x8_0000, 0x10);
    assert(sub_spec(0x3cfd_5e8d, 0x3cf5_5e8d) == 0x3a80_0000);
    assert(0xf6_b456 * 0x1 - 0xf5_5e8d * 0x1 == 0x1_55c9);
    lemma_sum_known(0x3cf6_b456, 0x3cf5_5e8d, true, 0xf6_b456, 120, 0xf5_5e8d, 120, 0x1, 0x1, 0x1_55c9, 17, 0x1_0000, 0x80);
    assert(sub_spec(0x3cf6_b456, 0x3cf5_5e8d) == 0x392a_e480);
    assert(0xc6_c250 * 0x1 - 0xc3_7283 * 0x1 == 0x3_4fcd);
    lemma_sum_known(0x4246_c250, 0x4243_7283, true, 0xc6_c250, 131, 0xc3_7283, 131, 0x1, 0x1, 0x3_4fcd, 18, 0x2_0000, 0x40);
    assert(sub_spec(0x4246_c250, 0x4243_7283) == 0x3f53_f340);
    assert(0xd3_f340 * 0xaa_e480 == 0x8d7c_b71e_a000);
    lemma_product_known(0x3f53_f340, 0x392a_e480, 0xd3_f340, 125, 0xaa_e480, 113, 0x8d7c_b71e_a000, 48, 0x8000_0000_0000, 0x100_0000);
    assert(mul_spec(0x3f53_f340, 0x392a_e480) == 0x390d_7cb7);
    assert(0x8d_7cb7 * 0x1_0000_0000_0000_0000 == 0x1_1af9_6e00_0000_0000 * 0x80_0000 + 0x0);
    lemma_quotient_known(0x390d_7cb7, 0x3a80_0000, 0x8d_7cb7, 113, 0x80_0000, 116, 0x1_1af9_6e00_0000_0000, 0x0, 66, 0x2_0000_0000_0000_0000, 0x400_0000_0000);
    assert(div_spec(0x390d_7cb7, 0x3a80_0000) == 0x3e0d_7cb7);
    assert(0xc3_7283 * 0x100 + 0x8d_7cb7 * 0x1 == 0xc3ff_ffb7);
    lemma_sum_known(0x4243_7283, 0x3e0d_7cb7, false, 0xc3_7283, 131, 0x8d_7cb7, 123, 0x100, 0x1, 0xc3ff_ffb7, 32, 0x8000_0000, 0x100);
    assert(add_spec(0x4243_7283, 0x3e0d_7cb7) == 0x4244_0000);
    lemma_whole_known(0x4244_0000, 0xc4_0000, 131, 0x4_0000);
}

/// The edge of code 48.
proof fn lemma_near_48()
    ensures
        near_exact_edge(0x3cf6_b455, 48),
{
    lemma2_to64();
    lemma2_to64_rest();
    lemma_fifth_powers_of_two();
    lemma_more_fifth_powers_of_two();
    assert(62525nat * 62525 * 62525 == 0xde4f_a883_32a5);
    assert(269025nat * 269025 * 269025 == 0x45_2c59_9066_9ca1);
    assert(0xde4f_a883_32a5nat * 0xde4f_a883_32a5 == 0xc10e_410c_fbbb_e38b_6ee2_de59nat);
    assert(0xc10e_410c_fbbb_e38b_6ee2_de59nat * 0xc10e_410c_fbbb_e38b_6ee2_de59nat == 0x9196_7ee0_c184_6e23_1b26_518d_c14f_7c63_4cbd_0ac7_d242_7af1nat);
    assert(0x45_2c59_9066_9ca1nat * 0x45_2c59_9066_9ca1 == 0x12b0_eff6_c049_6d6d_d948_5020_9d41nat);
    assert(0x12b0_eff6_c049_6d6d_d948_5020_9d41nat * 0x12b0_eff6_c049_6d6d_d948_5020_9d41nat == 0x15d_5c09_8741_6139_2178_92b9_bce5_5f46_89a2_dd05_b95f_0d00_50d8_ca81nat);
    assert(0x4cf_65a9nat * 0x4cf_65a9 == 0x17_2332_d7ac_c991);
    assert(0x17_2332_d7ac_c991nat * 0x17_2332_d7ac_c991 == 0x217_57f9_b21e_6c5e_11d5_078d_0421nat);
    assert(0x217_57f9_b21e_6c5e_11d5_078d_0421nat * 0x4cf_65a9 == 0xa_0f14_a0ce_1767_af2e_6682_20b3_7967_bec9nat);
    assert(0x4d3_a5a9nat * 0x4d3_a5a9 == 0x17_4c27_c7c9_4991);
    assert(0x17_4c27_c7c9_4991nat * 0x17_4c27_c7c9_4991 == 0x21e_c5cd_8af9_36fb_10d2_08d6_0421nat);
    assert(0x21e_c5cd_8af9_36fb_10d2_08d6_0421nat * 0x4d3_a5a9 == 0xa_3bd3_7a63_7f87_9c27_42d6_1acf_b124_fec9nat);
    assert(0xa_0f14_a0ce_1767_af2e_6682_20b3_7967_bec9nat * 0x15d_5c09_8741_6139_2178_92b9_bce5_5f46_89a2_dd05_b95f_0d00_50d8_ca81nat == 0xdba_2cea_7aff_2700_e7bb_96a1_6ca0_db35_3f50_70f9_a0d5_a84b_19af_076c_cff5_e9b2_9694_6dbe_5506_2863_d369_bd49nat);
    assert(0xa_3bd3_7a63_7f87_9c27_42d6_1acf_b124_fec9nat * 0x15d_5c09_8741_6139_2178_92b9_bce5_5f46_89a2_dd05_b95f_0d00_50d8_ca81nat == 0xdf7_3d2f_5c39_8464_6eea_bafd_90b0_ae5e_da5e_6f34_7247_ea33_5e5b_a4f9_85c3_a8e9_65e1_7b52_d42b_a045_3e46_fd49nat);
    assert(0xc35nat * 0x2_0000_0000_0000_0000_0000_0000_0000_0000_0000nat == 0x186a_0000_0000_0000_0000_0000_0000_0000_0000_0000nat);
    assert(0x9196_7ee0_c184_6e23_1b26_518d_c14f_7c63_4cbd_0ac7_d242_7af1nat * 0x186a_0000_0000_0000_0000_0000_0000_0000_0000_0000nat == 0xde2_6435_9b34_8b28_e514_d583_0ed1_7e92_d04f_7f49_3273_4b0d_7fca_0000_0000_0000_0000_0000_0000_0000_0000_0000nat);
    lemma_near_above(
        0x3cf6_b455, 0xf6_b455, 120, 0x2000, 0x186a_0000_0000_0000_0000_0000_0000_0000_0000_0000nat, 48,
        62525, 0xde4f_a883_32a5,
        0xc10e_410c_fbbb_e38b_6ee2_de59nat,
        0x45_2c59_9066_9ca1, 0x12b0_eff6_c049_6d6d_d948_5020_9d41nat,
        0x4cf_65a9, 0x17_2332_d7ac_c991, 0x217_57f9_b21e_6c5e_11d5_078d_0421nat,
        0x4d3_a5a9, 0x17_4c27_c7c9_4991, 0x21e_c5cd_8af9_36fb_10d2_08d6_0421nat,
    );
}

/// The value 0x3d00_3306.
proof fn lemma_at_3d003306()
    ensures
        chord_code(0x3d00_3306, 0x3cfd_5e8d, 0x3d05_5e8d, 0x4246_c250, 0x424c_3c5d) == 49,
{
    reveal(chord_code);
    lemma2_to64();
    lemma2_to64_rest();
    lemma_high_powers();
    assert(0x85_5e8d * 0x2 - 0xfd_5e8d * 0x1 == 0xd_5e8d);
    lemma_sum_known(0x3d05_5e8d, 0x3cfd_5e8d, true, 0x85_5e8d, 121, 0xfd_5e8d, 120, 0x2, 0x1, 0xd_5e8d, 20, 0x8_0000, 0x10);
    assert(sub_spec(0x3d05_5e8d, 0x3cfd_5e8d) == 0x3ad5_e8d0);
    assert(0x80_3306 * 0x2 - 0xfd_5e8d * 0x1 == 0x3_077f);
    lemma_sum_known(0x3d00_3306, 0x3cfd_5e8d, true, 0x80_3306, 121, 0xfd_5e8d, 120, 0x2, 0x1, 0x3_077f, 18, 0x2_0000, 0x40);
    assert(sub_spec(0x3d00_3306, 0x3cfd_5e8d) == 0x39c1_dfc0);
    assert(0xcc_3c5d * 0x1 - 0xc6_c250 * 0x1 == 0x5_7a0d);
    lemma_sum_known(0x424c_3c5d, 0x4246_c250, true, 0xcc_3c5d, 131, 0xc6_c250, 131, 0x1, 0x1, 0x5_7a0d, 19, 0x4_0000, 0x20);
    assert(sub_spec(0x424c_3c5d, 0x4246_c250) == 0x3faf_41a0);
    assert(0xaf_41a0 * 0xc1_dfc0 == 0x84b9_a73b_9800);
    lemma_product_known(0x3faf_41a0, 0x39c1_dfc0, 0xaf_41a0, 126, 0xc1_dfc0, 114, 0x84b9_a73b_9800, 48, 0x8000_0000_0000, 0x100_0000);
    assert(mul_spec(0x3faf_41a0, 0x39c1_dfc0) == 0x3a04_b9a7);
    assert(0x84_b9a7 * 0x1_0000_0000_0000_0000 == 0x9ed7_5fdc_1b36_afde * 0xd5_e8d0 + 0x79_eba0);
    lemma_quotient_known(0x3a04_b9a7, 0x3ad5_e8d0, 0x84_b9a7, 115, 0xd5_e8d0, 116, 0x9ed7_5fdc_1b36_afde, 0x79_eba0, 65, 0x1_0000_0000_0000_0000, 0x200_0000_0000);
    assert(div_spec(0x3a04_b9a7, 0x3ad5_e8d0) == 0x3e9e_d760);
    assert(0xc6_c250 * 0x80 + 0x9e_d760 * 0x1 == 0x63ff_ff60);
    lemma_sum_known(0x4246_c250, 0x3e9e_d760, false, 0xc6_c250, 131, 0x9e_d760, 124, 0x80, 0x1, 0x63ff_ff60, 31, 0x4000_0000, 0x80);
    assert(add_spec(0x4246_c250, 0x3e9e_d760) == 0x4247_ffff);
    lemma_whole_known(0x4247_ffff, 0xc7_ffff, 131, 0x4_0000);
}

/// The value 0x3d00_3307.
proof fn lemma_at_3d003307()
    ensures
        chord_code(0x3d00_3307, 0x3cfd_5e8d, 0x3d05_5e8d, 0x4246_c250, 0x424c_3c5d) == 50,
{
    reveal(chord_code);
    lemma2_to64();
    lemma2_to64_rest();
    lemma_high_powers();
    assert(0x85_5e8d * 0x2 - 0xfd_5e8d * 0x1 == 0xd_5e8d);
    lemma_sum_known(0x3d05_5e8d, 0x3cfd_5e8d, true, 0x85_5e8d, 121, 0xfd_5e8d, 120, 0x2, 0x1, 0xd_5e8d, 20, 0x8_0000, 0x10);
    assert(sub_spec(0x3d05_5e8d, 0x3cfd_5e8d) == 0x3ad5_e8d0);
    assert(0x80_3307 * 0x2 - 0xfd_5e8d * 0x1 == 0x3_0781);
    lemma_sum_known(0x3d00_3307, 0x3cfd_5e8d, true, 0x80_3307, 121, 0xfd_5e8d, 120, 0x2, 0x1, 0x3_0781, 18, 0x2_0000, 0x40);
    assert(sub_spec(0x3d00_3307, 0x3cfd_5e8d) == 0x39c1_e040);
    assert(0xcc_3c5d * 0x1 - 0xc6_c250 * 0x1 == 0x5_7a0d);
    lemma_sum_known(0x424c_3c5d, 0x4246_c250, true, 0xcc_3c5d, 131, 0xc6_c250, 131, 0x1, 0x1, 0x5_7a0d, 19, 0x4_0000, 0x20);
    assert(sub_spec(0x424c_3c5d, 0x4246_c250) == 0x3faf_41a0);
    assert(0xaf_41a0 * 0xc1_e040 == 0x84b9_fedc_6800);
    lemma_product_known(0x3faf_41a0, 0x39c1_e040, 0xaf_41a0, 126, 0xc1_e040, 114, 0x84b9_fedc_6800, 48, 0x8000_0000_0000, 0x100_0000);
    assert(mul_spec(0x3faf_41a0, 0x39c1_e040) == 0x3a04_b9ff);
    assert(0x84_b9ff * 0x1_0000_0000_0000_0000 == 0x9ed7_c92c_e695_b1dd * 0xd5_e8d0 + 0x4e_3470);
    lemma_quotient_known(0x3a04_b9ff, 0x3ad5_e8d0, 0x84_b9ff, 115, 0xd5_e8d0, 116, 0x9ed7_c92c_e695_b1dd, 0x4e_3470, 65, 0x1_0000_0000_0000_0000, 0x200_0000_0000);
    assert(div_spec(0x3a04_b9ff, 0x3ad5_e8d0) == 0x3e9e_d7c9);
    assert(0xc6_c250 * 0x80 + 0x9e_d7c9 * 0x1 == 0x63ff_ffc9);
    lemma_sum_known(0x4246_c250, 0x3e9e_d7c9, false, 0xc6_c250, 131, 0x9e_d7c9, 124, 0x80, 0x1, 0x63ff_ffc9, 31, 0x4000_0000, 0x80);
    assert(add_spec(0x4246_c250, 0x3e9e_d7c9) == 0x4248_0000);
    lemma_whole_known(0x4248_0000, 0xc8_0000, 131, 0x4_0000);
}

/// The edge of code 49.
proof fn lemma_near_49()
    ensures
        near_exact_edge(0x3d00_3306, 49),
{
    lemma2_to64();
    lemma2_to64_rest();
    lemma_fifth_powers_of_two();
    lemma_more_fifth_powers_of_two();
    assert(63525nat * 63525 * 63525 == 0xe926_3b4b_6ddd);
    assert(269025nat * 269025 * 269025 == 0x45_2c59_9066_9ca1);
    assert(0xe926_3b4b_6dddnat * 0xe926_3b4b_6ddd == 0xd456_9da4_f61c_c279_6ca3_f0c9nat);
    assert(0xd456_9da4_f61c_c279_6ca3_f0c9nat * 0xd456_9da4_f61c_c279_6ca3_f0c9nat == 0xb01f_9267_8388_bd97_4d81_e8c3_7186_2467_51fc_fe28_1a6f_7dd1nat);
    assert(0x45_2c59_9066_9ca1nat * 0x45_2c59_9066_9ca1 == 0x12b0_eff6_c049_6d6d_d948_5020_9d41nat);
    assert(0x12b0_eff6_c049_6d6d_d948_5020_9d41nat * 0x12b0_eff6_c049_6d6d_d948_5020_9d41nat == 0x15d_5c09_8741_6139_2178_92b9_bce5_5f46_89a2_dd05_b95f_0d00_50d8_ca81nat);
    assert(0x27f_ef1enat * 0x27f_ef1e == 0x6_3fab_971d_0784);
    assert(0x6_3fab_971d_0784nat * 0x6_3fab_971d_0784 == 0x27_0be0_fcbf_ddde_4480_6c20_7c10nat);
    assert(0x27_0be0_fcbf_ddde_4480_6c20_7c10nat * 0x27f_ef1e == 0x619b_1f41_533f_8c6b_7e8d_d114_ab91_79e0nat);
    assert(0x282_0f1enat * 0x282_0f1e == 0x6_4a4f_d35c_8784);
    assert(0x6_4a4f_d35c_8784nat * 0x6_4a4f_d35c_8784 == 0x27_9150_276b_fa25_9c4d_469c_7c10nat);
    assert(0x27_9150_276b_fa25_9c4d_469c_7c10nat * 0x282_0f1e == 0x633c_c129_967d_44a1_7e5b_eca0_91bb_79e0nat);
    assert(0x619b_1f41_533f_8c6b_7e8d_d114_ab91_79e0nat * 0x15d_5c09_8741_6139_2178_92b9_bce5_5f46_89a2_dd05_b95f_0d00_50d8_ca81nat == 0x85_3390_fd4f_cbc9_23df_6c8d_c2fd_0479_d594_dddc_2122_bdef_1283_c1f6_13fb_1a4c_d425_472b_08cf_43a0_1379_29e0nat);
    assert(0x633c_c129_967d_44a1_7e5b_eca0_91bb_79e0nat * 0x15d_5c09_8741_6139_2178_92b9_bce5_5f46_89a2_dd05_b95f_0d00_50d8_ca81nat == 0x87_6d80_dcae_474c_03d7_51f1_2ee4_4223_c588_773f_b1db_fe91_5e6f_91f4_e46a_086d_4190_d302_a95e_dc2c_32a3_29e0nat);
    assert(0xc35nat * 0x1000_0000_0000_0000_0000_0000_0000_0000_0000nat == 0xc3_5000_0000_0000_0000_0000_0000_0000_0000_0000nat);
    assert(0xb01f_9267_8388_bd97_4d81_e8c3_7186_2467_51fc_fe28_1a6f_7dd1nat * 0xc3_5000_0000_0000_0000_0000_0000_0000_0000_0000nat == 0x86_5f16_6299_8a43_257f_522c_e59c_8ca7_a613_bd54_a7f8_ab2f_ad84_5000_0000_0000_0000_0000_0000_0000_0000_0000nat);
    lemma_near_above(
        0x3d00_3306, 0x80_3306, 121, 0x1000, 0xc3_5000_0000_0000_0000_0000_0000_0000_0000_0000nat, 49,
        63525, 0xe926_3b4b_6ddd,
        0xd456_9da4_f61c_c279_6ca3_f0c9nat,
        0x45_2c59_9066_9ca1, 0x12b0_eff6_c049_6d6d_d948_5020_9d41nat,
        0x27f_ef1e, 0x6_3fab_971d_0784, 0x27_0be0_fcbf_ddde_4480_6c20_7c10nat,
        0x282_0f1e, 0x6_4a4f_d35c_8784, 0x27_9150_276b_fa25_9c4d_469c_7c10nat,
    );
}

/// The value 0x3d05_14df.
proof fn lemma_at_3d0514df()
    ensures
        chord_code(0x3d05_14df, 0x3cfd_5e8d, 0x3d05_5e8d, 0x4246_c250, 0x424c_3c5d) == 50,
{
    reveal(chord_code);
    lemma2_to64();
    lemma2_to64_rest();
    lemma_high_powers();
    assert(0x85_5e8d * 0x2 - 0xfd_5e8d * 0x1 == 0xd_5e8d);
    lemma_sum_known(0x3d05_5e8d, 0x3cfd_5e8d, true, 0x85_5e8d, 121, 0xfd_5e8d, 120, 0x2, 0x1, 0xd_5e8d, 20, 0x8_0000, 0x10);
    assert(sub_spec(0x3d05_5e8d, 0x3cfd_5e8d) == 0x3ad5_e8d0);
    assert(0x85_14df * 0x2 - 0xfd_5e8d * 0x1 == 0xc_cb31);
    lemma_sum_known(0x3d05_14df, 0x3cfd_5e8d, true, 0x85_14df, 121, 0xfd_5e8d, 120, 0x2, 0x1, 0xc_cb31, 20, 0x8_0000, 0x10);
    assert(sub_spec(0x3d05_14df, 0x3cfd_5e8d) == 0x3acc_b310);
    assert(0xcc_3c5d * 0x1 - 0xc6_c250 * 0x1 == 0x5_7a0d);
    lemma_sum_known(0x424c_3c5d, 0x4246_c250, true, 0xcc_3c5d, 131, 0xc6_c250, 131, 0x1, 0x1, 0x5_7a0d, 19, 0x4_0000, 0x20);
    assert(sub_spec(0x424c_3c5d, 0x4246_c250) == 0x3faf_41a0);
    assert(0xaf_41a0 * 0xcc_b310 == 0x8c22_e156_fa00);
    lemma_product_known(0x3faf_41a0, 0x3acc_b310, 0xaf_41a0, 126, 0xcc_b310, 116, 0x8c22_e156_fa00, 48, 0x8000_0000_0000, 0x100_0000);
    assert(mul_spec(0x3faf_41a0, 0x3acc_b310) == 0x3b0c_22e1);
    assert(0x8c_22e1 * 0x1_0000_0000_0000_0000 == 0xa7b5_ea37_35ae_dd0a * 0xd5_e8d0 + 0x49_57e0);
    lemma_quotient_known(0x3b0c_22e1, 0x3ad5_e8d0, 0x8c_22e1, 117, 0xd5_e8d0, 116, 0xa7b5_ea37_35ae_dd0a, 0x49_57e0, 65, 0x1_0000_0000_0000_0000, 0x200_0000_0000);
    assert(div_spec(0x3b0c_22e1, 0x3ad5_e8d0) == 0x3fa7_b5ea);
    assert(0xc6_c250 * 0x20 + 0xa7_b5ea * 0x1 == 0x197f_ffea);
    lemma_sum_known(0x4246_c250, 0x3fa7_b5ea, false, 0xc6_c250, 131, 0xa7_b5ea, 126, 0x20, 0x1, 0x197f_ffea, 29, 0x1000_0000, 0x20);
    assert(add_spec(0x4246_c250, 0x3fa7_b5ea) == 0x424b_ffff);
    lemma_whole_known(0x424b_ffff, 0xcb_ffff, 131, 0x4_0000);
}

/// The value 0x3d05_14e0.
proof fn lemma_at_3d0514e0()
    ensures
        chord_code(0x3d05_14e0, 0x3cfd_5e8d, 0x3d05_5e8d, 0x4246_c250, 0x424c_3c5d) == 51,
{
    reveal(chord_code);
    lemma2_to64();
    lemma2_to64_rest();
    lemma_high_powers();
    assert(0x85_5e8d * 0x2 - 0xfd_5e8d * 0x1 == 0xd_5e8d);
    lemma_sum_known(0x3d05_5e8d, 0x3cfd_5e8d, true, 0x85_5e8d, 121, 0xfd_5e8d, 120, 0x2, 0x1, 0xd_5e8d, 20, 0x8_0000, 0x10);
    assert(sub_spec(0x3d05_5e8d, 0x3cfd_5e8d) == 0x3ad5_e8d0);
    assert(0x85_14e0 * 0x2 - 0xfd_5e8d * 0x1 == 0xc_cb33);
    lemma_sum_known(0x3d05_14e0, 0x3cfd_5e8d, true, 0x85_14e0, 121, 0xfd_5e8d, 120, 0x2, 0x1, 0xc_cb33, 20, 0x8_0000, 0x10);
    assert(sub_spec(0x3d05_14e0, 0x3cfd_5e8d) == 0x3acc_b330);
    assert(0xcc_3c5d * 0x1 - 0xc6_c250 * 0x1 == 0x5_7a0d);
    lemma_sum_known(0x424c_3c5d, 0x4246_c250, true, 0xcc_3c5d, 131, 0xc6_c250, 131, 0x1, 0x1, 0x5_7a0d, 19, 0x4_0000, 0x20);
    assert(sub_spec(0x424c_3c5d, 0x4246_c250) == 0x3faf_41a0);
    assert(0xaf_41a0 * 0xcc_b330 == 0x8c22_f73f_2e00);
    lemma_product_known(0x3faf_41a0, 0x3acc_b330, 0xaf_41a0, 126, 0xcc_b330, 116, 0x8c22_f73f_2e00, 48, 0x8000_0000_0000, 0x100_0000);
    assert(mul_spec(0x3faf_41a0, 0x3acc_b330) == 0x3b0c_22f7);
    assert(0x8c_22f7 * 0x1_0000_0000_0000_0000 == 0xa7b6_048b_6886_9d8a * 0xd5_e8d0 + 0x8_efe0);
    lemma_quotient_known(0x3b0c_22f7, 0x3ad5_e8d0, 0x8c_22f7, 117, 0xd5_e8d0, 116, 0xa7b6_048b_6886_9d8a, 0x8_efe0, 65, 0x1_0000_0000_0000_0000, 0x200_0000_0000);
    assert(div_spec(0x3b0c_22f7, 0x3ad5_e8d0) == 0x3fa7_b605);
    assert(0xc6_c250 * 0x20 + 0xa7_b605 * 0x1 == 0x1980_0005);
    lemma_sum_known(0x4246_c250, 0x3fa7_b605, false, 0xc6_c250, 131, 0xa7_b605, 126, 0x20, 0x1, 0x1980_0005, 29, 0x1000_0000, 0x20);
    assert(add_spec(0x4246_c250, 0x3fa7_b605) == 0x424c_0000);
    lemma_whole_known(0x424c_0000, 0xcc_0000, 131, 0x4_0000);
}

/// The edge of code 50.
proof fn lemma_near_50()
    ensures
        near_exact_edge(0x3d05_14df, 50),
{
    lemma2_to64();
    lemma2_to64_rest();
    lemma_fifth_powers_of_two();
    lemma_more_fifth_powers_of_two();
    assert(64525nat * 64525 * 64525 == 0xf455_8c63_1c95);
    assert(269025nat * 269025 * 269025 == 0x45_2c59_9066_9ca1);
    assert(0xf455_8c63_1c95nat * 0xf455_8c63_1c95 == 0xe933_3033_7549_9094_166e_eeb9nat);
    assert(0xe933_3033_7549_9094_166e_eeb9nat * 0xe933_3033_7549_9094_166e_eeb9nat == 0xd46e_37f9_e913_fad0_b31a_5575_8c0b_9e15_fe4d_6701_d198_81b1nat);
    assert(0x45_2c59_9066_9ca1nat * 0x45_2c59_9066_9ca1 == 0x12b0_eff6_c049_6d6d_d948_5020_9d41nat);
    assert(0x12b0_eff6_c049_6d6d_d948_5020_9d41nat * 0x12b0_eff6_c049_6d6d_d948_5020_9d41nat == 0x15d_5c09_8741_6139_2178_92b9_bce5_5f46_89a2_dd05_b95f_0d00_50d8_ca81nat);
    assert(0x298_585bnat * 0x298_585b == 0x6_bc0a_768e_b059);
    assert(0x6_bc0a_768e_b059nat * 0x6_bc0a_768e_b059 == 0x2d_5a9c_ed3f_513c_590e_2836_7ef1nat);
    assert(0x2d_5a9c_ed3f_513c_590e_2836_7ef1nat * 0x298_585b == 0x75b2_ae4c_8390_cdf5_9bc8_d334_4819_f7abnat);
    assert(0x29a_785bnat * 0x29a_785b == 0x6_c716_7211_7059);
    assert(0x6_c716_7211_7059nat * 0x6_c716_7211_7059 == 0x2d_efe1_4020_2ea9_368b_611f_fef1nat);
    assert(0x2d_efe1_4020_2ea9_368b_611f_fef1nat * 0x29a_785b == 0x7797_a8c6_aeda_4587_ce52_664f_c4da_97abnat);
    assert(0x75b2_ae4c_8390_cdf5_9bc8_d334_4819_f7abnat * 0x15d_5c09_8741_6139_2178_92b9_bce5_5f46_89a2_dd05_b95f_0d00_50d8_ca81nat == 0xa0_9ee8_366a_455d_04f6_eb59_6b3b_7ea0_3146_675d_4091_daf6_0a17_30b8_1151_d5f8_8227_6bc0_4e87_508b_3aca_bb2bnat);
    assert(0x7797_a8c6_aeda_4587_ce52_664f_c4da_97abnat * 0x15d_5c09_8741_6139_2178_92b9_bce5_5f46_89a2_dd05_b95f_0d00_50d8_ca81nat == 0xa3_34c0_0b08_3a51_28cf_c339_3d69_5089_80aa_e88a_2545_3407_bd1b_f673_3eae_e9b9_4861_aeca_323b_965c_161b_5b2bnat);
    assert(0xc35nat * 0x1000_0000_0000_0000_0000_0000_0000_0000_0000nat == 0xc3_5000_0000_0000_0000_0000_0000_0000_0000_0000nat);
    assert(0xd46e_37f9_e913_fad0_b31a_5575_8c0b_9e15_fe4d_6701_d198_81b1nat * 0xc3_5000_0000_0000_0000_0000_0000_0000_0000_0000nat == 0xa2_1257_14da_a30e_4b59_a507_533e_689d_0c27_946d_a693_38aa_725a_5000_0000_0000_0000_0000_0000_0000_0000_0000nat);
    lemma_near_above(
        0x3d05_14df, 0x85_14df, 121, 0x1000, 0xc3_5000_0000_0000_0000_0000_0000_0000_0000_0000nat, 50,
        64525, 0xf455_8c63_1c95,
        0xe933_3033_7549_9094_166e_eeb9nat,
        0x45_2c59_9066_9ca1, 0x12b0_eff6_c049_6d6d_d948_5020_9d41nat,
        0x298_585b, 0x6_bc0a_768e_b059, 0x2d_5a9c_ed3f_513c_590e_2836_7ef1nat,
        0x29a_785b, 0x6_c716_7211_7059, 0x2d_efe1_4020_2ea9_368b_611f_fef1nat,
    );
}

/// The value 0x3d0a_1867.
proof fn lemma_at_3d0a1867()
    ensures
        chord_code(0x3d0a_1867, 0x3d05_5e8d, 0x3d0d_5e8d, 0x424c_3c5d, 0x4252_9b93) == 51,
{
    reveal(chord_code);
    lemma2_to64();
    lemma2_to64_rest();
    lemma_high_powers();
    assert(0x8d_5e8d * 0x1 - 0x85_5e8d * 0x1 == 0x8_0000);
    lemma_sum_known(0x3d0d_5e8d, 0x3d05_5e8d, true, 0x8d_5e8d, 121, 0x85_5e8d, 121, 0x1, 0x1, 0x8_0000, 20, 0x8_0000, 0x10);
    assert(sub_spec(0x3d0d_5e8d, 0x3d05_5e8d) == 0x3b00_0000);
    assert(0x8a_1867 * 0x1 - 0x85_5e8d * 0x1 == 0x4_b9da);
    lemma_sum_known(0x3d0a_1867, 0x3d05_5e8d, true, 0x8a_1867, 121, 0x85_5e8d, 121, 0x1, 0x1, 0x4_b9da, 19, 0x4_0000, 0x20);
    assert(sub_spec(0x3d0a_1867, 0x3d05_5e8d) == 0x3a97_3b40);
    assert(0xd2_9b93 * 0x1 - 0xcc_3c5d * 0x1 == 0x6_5f36);
    lemma_sum_known(0x4252_9b93, 0x424c_3c5d, true, 0xd2_9b93, 131, 0xcc_3c5d, 131, 0x1, 0x1, 0x6_5f36, 19, 0x4_0000, 0x20);
    assert(sub_spec(0x4252_9b93, 0x424c_3c5d) == 0x3fcb_e6c0);
    assert(0xcb_e6c0 * 0x97_3b40 == 0x7874_4c67_f000);
    lemma_product_known(0x3fcb_e6c0, 0x3a97_3b40, 0xcb_e6c0, 126, 0x97_3b40, 116, 0x7874_4c67_f000, 47, 0x4000_0000_0000, 0x80_0000);
    assert(mul_spec(0x3fcb_e6c0, 0x3a97_3b40) == 0x3af0_e899);
    assert(0xf0_e899 * 0x1_0000_0000_0000_0000 == 0x1_e1d1_3200_0000_0000 * 0x80_0000 + 0x0);
    lemma_quotient_known(0x3af0_e899, 0x3b00_0000, 0xf0_e899, 116, 0x80_0000, 117, 0x1_e1d1_3200_0000_0000, 0x0, 66, 0x2_0000_0000_0000_0000, 0x400_0000_0000);
    assert(div_spec(0x3af0_e899, 0x3b00_0000) == 0x3f70_e899);
    assert(0xcc_3c5d * 0x40 + 0xf0_e899 * 0x1 == 0x33ff_ffd9);
    lemma_sum_known(0x424c_3c5d, 0x3f70_e899, false, 0xcc_3c5d, 131, 0xf0_e899, 125, 0x40, 0x1, 0x33ff_ffd9, 30, 0x2000_0000, 0x40);
    assert(add_spec(0x424c_3c5d, 0x3f70_e899) == 0x424f_ffff);
    lemma_whole_known(0x424f_ffff, 0xcf_ffff, 131, 0x4_0000);
}

/// The value 0x3d0a_1868.
proof fn lemma_at_3d0a1868()
    ensures
        chord_code(0x3d0a_1868, 0x3d05_5e8d, 0x3d0d_5e8d, 0x424c_3c5d, 0x4252_9b93) == 52,
{
    reveal(chord_code);
    lemma2_to64();
    lemma2_to64_rest();
    lemma_high_powers();
    assert(0x8d_5e8d * 0x1 - 0x85_5e8d * 0x1 == 0x8_0000);
    lemma_sum_known(0x3d0d_5e8d, 0x3d05_5e8d, true, 0x8d_5e8d, 121, 0x85_5e8d, 121, 0x1, 0x1, 0x8_0000, 20, 0x8_0000, 0x10);
    assert(sub_spec(0x3d0d_5e8d, 0x3d05_5e8d) == 0x3b00_0000);
    assert(0x8a_1868 * 0x1 - 0x85_5e8d * 0x1 == 0x4_b9db);
    lemma_sum_known(0x3d0a_1868, 0x3d05_5e8d, true, 0x8a_1868, 121, 0x85_5e8d, 121, 0x1, 0x1, 0x4_b9db, 19, 0x4_0000, 0x20);
    assert(sub_spec(0x3d0a_1868, 0x3d05_5e8d) == 0x3a97_3b60);
    assert(0xd2_9b93 * 0x1 - 0xcc_3c5d * 0x1 == 0x6_5f36);
    lemma_sum_known(0x4252_9b93, 0x424c_3c5d, true, 0xd2_9b93, 131, 0xcc_3c5d, 131, 0x1, 0x1, 0x6_5f36, 19, 0x4_0000, 0x20);
    assert(sub_spec(0x4252_9b93, 0x424c_3c5d) == 0x3fcb_e6c0);
    assert(0xcb_e6c0 * 0x97_3b60 == 0x7874_65e4_c800);
    lemma_product_known(0x3fcb_e6c0, 0x3a97_3b60, 0xcb_e6c0, 126, 0x97_3b60, 116, 0x7874_65e4_c800, 47, 0x4000_0000_0000, 0x80_0000);
    assert(mul_spec(0x3fcb_e6c0, 0x3a97_3b60) == 0x3af0_e8cc);
    assert(0xf0_e8cc * 0x1_0000_0000_0000_0000 == 0x1_e1d1_9800_0000_0000 * 0x80_0000 + 0x0);
    lemma_quotient_known(0x3af0_e8cc, 0x3b00_0000, 0xf0_e8cc, 116, 0x80_0000, 117, 0x1_e1d1_9800_0000_0000, 0x0, 66, 0x2_0000_0000_0000_0000, 0x400_0000_0000);
    assert(div_spec(0x3af0_e8cc, 0x3b00_0000) == 0x3f70_e8cc);
    assert(0xcc_3c5d * 0x40 + 0xf0_e8cc * 0x1 == 0x3400_000c);
    lemma_sum_known(0x424c_3c5d, 0x3f70_e8cc, false, 0xcc_3c5d, 131, 0xf0_e8cc, 125, 0x40, 0x1, 0x3400_000c, 30, 0x2000_0000, 0x40);
    assert(add_spec(0x424c_3c5d, 0x3f70_e8cc) == 0x4250_0000);
    lemma_whole_known(0x4250_0000, 0xd0_0000, 131, 0x4_0000);
}

/// The edge of code 51.
proof fn lemma_near_51()
    ensures
        near_exact_edge(0x3d0a_1867, 51),
{
    lemma2_to64();
    lemma2_to64_rest();
    lemma_fifth_powers_of_two();
    lemma_more_fifth_powers_of_two();
    assert(65525nat * 65525 * 65525 == 0xffdf_016a_facd);
    assert(269025nat * 269025 * 269025 == 0x45_2c59_9066_9ca1);
    assert(0xffdf_016a_facdnat * 0xffdf_016a_facd == 0xffbe_0716_9807_59d0_4179_0829nat);
    assert(0xffbe_0716_9807_59d0_4179_0829nat * 0xffbe_0716_9807_59d0_4179_0829nat == 0xff7c_1f2d_889a_8e25_1605_dc27_00c1_6a4b_bf56_73fd_8904_9691nat);
    assert(0x45_2c59_9066_9ca1nat * 0x45_2c59_9066_9ca1 == 0x12b0_eff6_c049_6d6d_d948_5020_9d41nat);
    assert(0x12b0_eff6_c049_6d6d_d948_5020_9d41nat * 0x12b0_eff6_c049_6d6d_d948_5020_9d41nat == 0x15d_5c09_8741_6139_2178_92b9_bce5_5f46_89a2_dd05_b95f_0d00_50d8_ca81nat);
    assert(0x2b1_6a03nat * 0x2b1_6a03 == 0x7_409b_d00c_7c09);
    assert(0x7_409b_d00c_7c09nat * 0x7_409b_d00c_7c09 == 0x34_98d3_a78a_9eb4_fd10_7cf0_b851nat);
    assert(0x34_98d3_a78a_9eb4_fd10_7cf0_b851nat * 0x2b1_6a03 == 0x8da5_198b_59ef_8173_e648_0ecd_3524_b2f3nat);
    assert(0x2b3_8a03nat * 0x2b3_8a03 == 0x7_4c12_5699_3c09);
    assert(0x7_4c12_5699_3c09nat * 0x7_4c12_5699_3c09 == 0x35_3f9b_a11c_8efb_1952_dcd6_3851nat);
    assert(0x35_3f9b_a11c_8efb_1952_dcd6_3851nat * 0x2b3_8a03 == 0x8fd7_65fd_83c2_382e_6342_0d3e_1381_52f3nat);
    assert(0x8da5_198b_59ef_8173_e648_0ecd_3524_b2f3nat * 0x15d_5c09_8741_6139_2178_92b9_bce5_5f46_89a2_dd05_b95f_0d00_50d8_ca81nat == 0xc1_4d00_6dcb_d2ea_dab6_c31d_cc29_0b9e_410e_e60f_09b4_6493_6404_8997_4653_ca2c_32de_6fea_6401_0739_a9b9_ea73nat);
    assert(0x8fd7_65fd_83c2_382e_6342_0d3e_1381_52f3nat * 0x15d_5c09_8741_6139_2178_92b9_bce5_5f46_89a2_dd05_b95f_0d00_50d8_ca81nat == 0xc4_4c5c_cdd5_a424_5285_1e37_a124_a1ee_bdf5_336a_f583_6e56_ed2a_27a8_7ed9_79fd_3b11_8c3c_a997_ddb5_cca6_8a73nat);
    assert(0xc35nat * 0x1000_0000_0000_0000_0000_0000_0000_0000_0000nat == 0xc3_5000_0000_0000_0000_0000_0000_0000_0000_0000nat);
    assert(0xff7c_1f2d_889a_8e25_1605_dc27_00c1_6a4b_bf56_73fd_8904_9691nat * 0xc3_5000_0000_0000_0000_0000_0000_0000_0000_0000nat == 0xc2_eb62_896d_486a_92ab_5d58_8681_c390_68ea_6aa5_5e5e_9950_1f80_5000_0000_0000_0000_0000_0000_0000_0000_0000nat);
    lemma_near_above(
        0x3d0a_1867, 0x8a_1867, 121, 0x1000, 0xc3_5000_0000_0000_0000_0000_0000_0000_0000_0000nat, 51,
        65525, 0xffdf_016a_facd,
        0xffbe_0716_9807_59d0_4179_0829nat,
        0x45_2c59_9066_9ca1, 0x12b0_eff6_c049_6d6d_d948_5020_9d41nat,
        0x2b1_6a03, 0x7_409b_d00c_7c09, 0x34_98d3_a78a_9eb4_fd10_7cf0_b851nat,
        0x2b3_8a03, 0x7_4c12_5699_3c09, 0x35_3f9b_a11c_8efb_1952_dcd6_3851nat,
    );
}

/// The value 0x3d0f_2f82.
proof fn lemma_at_3d0f2f82()
    ensures
        chord_code(0x3d0f_2f82, 0x3d0d_5e8d, 0x3d15_5e8d, 0x4252_9b93, 0x4258_bd84) == 52,
{
    reveal(chord_code);
    lemma2_to64();
    lemma2_to64_rest();
    lemma_high_powers();
    assert(0x95_5e8d * 0x1 - 0x8d_5e8d * 0x1 == 0x8_0000);
    lemma_sum_known(0x3d15_5e8d, 0x3d0d_5e8d, true, 0x95_5e8d, 121, 0x8d_5e8d, 121, 0x1, 0x1, 0x8_0000, 20, 0x8_0000, 0x10);
    assert(sub_spec(0x3d15_5e8d, 0x3d0d_5e8d) == 0x3b00_0000);
    assert(0x8f_2f82 * 0x1 - 0x8d_5e8d * 0x1 == 0x1_d0f5);
    lemma_sum_known(0x3d0f_2f82, 0x3d0d_5e8d, true, 0x8f_2f82, 121, 0x8d_5e8d, 121, 0x1, 0x1, 0x1_d0f5, 17, 0x1_0000, 0x80);
    assert(sub_spec(0x3d0f_2f82, 0x3d0d_5e8d) == 0x39e8_7a80);
    assert(0xd8_bd84 * 0x1 - 0xd2_9b93 * 0x1 == 0x6_21f1);
    lemma_sum_known(0x4258_bd84, 0x4252_9b93, true, 0xd8_bd84, 131, 0xd2_9b93, 131, 0x1, 0x1, 0x6_21f1, 19, 0x4_0000, 0x20);
    assert(sub_spec(0x4258_bd84, 0x4252_9b93) == 0x3fc4_3e20);
    assert(0xc4_3e20 * 0xe8_7a80 == 0xb236_34ba_5000);
    lemma_product_known(0x3fc4_3e20, 0x39e8_7a80, 0xc4_3e20, 126, 0xe8_7a80, 114, 0xb236_34ba_5000, 48, 0x8000_0000_0000, 0x100_0000);
    assert(mul_spec(0x3fc4_3e20, 0x39e8_7a80) == 0x3a32_3635);
    assert(0xb2_3635 * 0x1_0000_0000_0000_0000 == 0x1_646c_6a00_0000_0000 * 0x80_0000 + 0x0);
    lemma_quotient_known(0x3a32_3635, 0x3b00_0000, 0xb2_3635, 115, 0x80_0000, 117, 0x1_646c_6a00_0000_0000, 0x0, 66, 0x2_0000_0000_0000_0000, 0x400_0000_0000);
    assert(div_spec(0x3a32_3635, 0x3b00_0000) == 0x3eb2_3635);
    assert(0xd2_9b93 * 0x80 + 0xb2_3635 * 0x1 == 0x69ff_ffb5);
    lemma_sum_known(0x4252_9b93, 0x3eb2_3635, false, 0xd2_9b93, 131, 0xb2_3635, 124, 0x80, 0x1, 0x69ff_ffb5, 31, 0x4000_0000, 0x80);
    assert(add_spec(0x4252_9b93, 0x3eb2_3635) == 0x4253_ffff);
    lemma_whole_known(0x4253_ffff, 0xd3_ffff, 131, 0x4_0000);
}

/// The value 0x3d0f_2f83.
proof fn lemma_at_3d0f2f83()
    ensures
        chord_code(0x3d0f_2f83, 0x3d0d_5e8d, 0x3d15_5e8d, 0x4252_9b93, 0x4258_bd84) == 53,
{
    reveal(chord_code);
    lemma2_to64();
    lemma2_to64_rest();
    lemma_high_powers();
    assert(0x95_5e8d * 0x1 - 0x8d_5e8d * 0x1 == 0x8_0000);
    lemma_sum_known(0x3d15_5e8d, 0x3d0d_5e8d, true, 0x95_5e8d, 121, 0x8d_5e8d, 121, 0x1, 0x1, 0x8_0000, 20, 0x8_0000, 0x10);
    assert(sub_spec(0x3d15_5e8d, 0x3d0d_5e8d) == 0x3b00_0000);
    assert(0x8f_2f83 * 0x1 - 0x8d_5e8d * 0x1 == 0x1_d0f6);
    lemma_sum_known(0x3d0f_2f83, 0x3d0d_5e8d, true, 0x8f_2f83, 121, 0x8d_5e8d, 121, 0x1, 0x1, 0x1_d0f6, 17, 0x1_0000, 0x80);
    assert(sub_spec(0x3d0f_2f83, 0x3d0d_5e8d) == 0x39e8_7b00);
    assert(0xd8_bd84 * 0x1 - 0xd2_9b93 * 0x1 == 0x6_21f1);
    lemma_sum_known(0x4258_bd84, 0x4252_9b93, true, 0xd8_bd84, 131, 0xd2_9b93, 131, 0x1, 0x1, 0x6_21f1, 19, 0x4_0000, 0x20);
    assert(sub_spec(0x4258_bd84, 0x4252_9b93) == 0x3fc4_3e20);
    assert(0xc4_3e20 * 0xe8_7b00 == 0xb236_96d9_6000);
    lemma_product_known(0x3fc4_3e20, 0x39e8_7b00, 0xc4_3e20, 126, 0xe8_7b00, 114, 0xb236_96d9_6000, 48, 0x8000_0000_0000, 0x100_0000);
    assert(mul_spec(0x3fc4_3e20, 0x39e8_7b00) == 0x3a32_3697);
    assert(0xb2_3697 * 0x1_0000_0000_0000_0000 == 0x1_646d_2e00_0000_0000 * 0x80_0000 + 0x0);
    lemma_quotient_known(0x3a32_3697, 0x3b00_0000, 0xb2_3697, 115, 0x80_0000, 117, 0x1_646d_2e00_0000_0000, 0x0, 66, 0x2_0000_0000_0000_0000, 0x400_0000_0000);
    assert(div_spec(0x3a32_3697, 0x3b00_0000) == 0x3eb2_3697);
    assert(0xd2_9b93 * 0x80 + 0xb2_3697 * 0x1 == 0x6a00_0017);
    lemma_sum_known(0x4252_9b93, 0x3eb2_3697, false, 0xd2_9b93, 131, 0xb2_3697, 124, 0x80, 0x1, 0x6a00_0017, 31, 0x4000_0000, 0x80);
    assert(add_spec(0x4252_9b93, 0x3eb2_3697) == 0x4254_0000);
    lemma_whole_known(0x4254_0000, 0xd4_0000, 131, 0x4_0000);
}

/// The edge of code 52.
proof fn lemma_near_52()
    ensures
        near_exact_edge(0x3d0f_2f82, 52),
{
    lemma2_to64();
    lemma2_to64_rest();
    lemma_fifth_powers_of_two();
    lemma_more_fifth_powers_of_two();
    assert(66525nat * 66525 * 66525 == 0x1_0bc4_0003_c485);
    assert(269025nat * 269025 * 269025 == 0x45_2c59_9066_9ca1);
    assert(0x1_0bc4_0003_c485nat * 0x1_0bc4_0003_c485 == 0x1_1812_6e17_e1b2_59b6_31f9_ed19nat);
    assert(0x1_1812_6e17_e1b2_59b6_31f9_ed19nat * 0x1_1812_6e17_e1b2_59b6_31f9_ed19nat == 0x1_3268_5227_e86a_6982_c511_6d6e_eed5_193c_88be_224e_a839_4c71nat);
    assert(0x45_2c59_9066_9ca1nat * 0x45_2c59_9066_9ca1 == 0x12b0_eff6_c049_6d6d_d948_5020_9d41nat);
    assert(0x12b0_eff6_c049_6d6d_d948_5020_9d41nat * 0x12b0_eff6_c049_6d6d_d948_5020_9d41nat == 0x15d_5c09_8741_6139_2178_92b9_bce5_5f46_89a2_dd05_b95f_0d00_50d8_ca81nat);
    assert(0x2ca_dd8anat * 0x2ca_dd8a == 0x7_cc38_857f_8e64);
    assert(0x7_cc38_857f_8e64nat * 0x7_cc38_857f_8e64 == 0x3c_ce01_6e37_c1d3_7542_7e6b_1710nat);
    assert(0x3c_ce01_6e37_c1d3_7542_7e6b_1710nat * 0x2ca_dd8a == 0xa9cb_2e9b_b06e_2427_13ac_33a8_eb43_3ea0nat);
    assert(0x2cc_fd8anat * 0x2cc_fd8a == 0x7_d81b_370a_0e64);
    assert(0x7_d81b_370a_0e64nat * 0x7_d81b_370a_0e64 == 0x3d_87ea_f252_69b5_1bac_189f_1710nat);
    assert(0x3d_87ea_f252_69b5_1bac_189f_1710nat * 0x2cc_fd8a == 0xac55_159c_34a1_b96e_5d4e_dc0f_004d_3ea0nat);
    assert(0xa9cb_2e9b_b06e_2427_13ac_33a8_eb43_3ea0nat * 0x15d_5c09_8741_6139_2178_92b9_bce5_5f46_89a2_dd05_b95f_0d00_50d8_ca81nat == 0xe7_b709_e0d9_9fae_e2ce_8b50_cad7_a0df_24e8_378b_b7c4_6886_8a52_72e5_0bb8_8a58_6a18_49ef_7222_f610_734c_cea0nat);
    assert(0xac55_159c_34a1_b96e_5d4e_dc0f_004d_3ea0nat * 0x15d_5c09_8741_6139_2178_92b9_bce5_5f46_89a2_dd05_b95f_0d00_50d8_ca81nat == 0xeb_2df3_73c2_8754_52dd_2aee_b9c8_08ab_1af5_ef4d_0183_e2e0_60f0_3fdb_41a0_965f_87de_f09b_64af_3e8a_f156_cea0nat);
    assert(0xc35nat * 0x1000_0000_0000_0000_0000_0000_0000_0000_0000nat == 0xc3_5000_0000_0000_0000_0000_0000_0000_0000_0000nat);
    assert(0x1_3268_5227_e86a_6982_c511_6d6e_eed5_193c_88be_224e_a839_4c71nat * 0xc3_5000_0000_0000_0000_0000_0000_0000_0000_0000nat == 0xe9_c537_2e12_81af_9f94_f9db_cdb2_96f4_d0ff_138f_8ca2_b837_21f6_5000_0000_0000_0000_0000_0000_0000_0000_0000nat);
    lemma_near_above(
        0x3d0f_2f82, 0x8f_2f82, 121, 0x1000, 0xc3_5000_0000_0000_0000_0000_0000_0000_0000_0000nat, 52,
        66525, 0x1_0bc4_0003_c485,
        0x1_1812_6e17_e1b2_59b6_31f9_ed19nat,
        0x45_2c59_9066_9ca1, 0x12b0_eff6_c049_6d6d_d948_5020_9d41nat,
        0x2ca_dd8a, 0x7_cc38_857f_8e64, 0x3c_ce01_6e37_c1d3_7542_7e6b_1710nat,
        0x2cc_fd8a, 0x7_d81b_370a_0e64, 0x3d_87ea_f252_69b5_1bac_189f_1710nat,
    );
}

/// The value 0x3d14_6752.
proof fn lemma_at_3d146752()
    ensures
        chord_code(0x3d14_6752, 0x3d0d_5e8d, 0x3d15_5e8d, 0x4252_9b93, 0x4258_bd84) == 53,
{
    reveal(chord_code);
    lemma2_to64();
    lemma2_to64_rest();
    lemma_high_powers();
    assert(0x95_5e8d * 0x1 - 0x8d_5e8d * 0x1 == 0x8_0000);
    lemma_sum_known(0x3d15_5e8d, 0x3d0d_5e8d, true, 0x95_5e8d, 121, 0x8d_5e8d, 121, 0x1, 0x1, 0x8_0000, 20, 0x8_0000, 0x10);
    assert(sub_spec(0x3d15_5e8d, 0x3d0d_5e8d) == 0x3b00_0000);
    assert(0x94_6752 * 0x1 - 0x8d_5e8d * 0x1 == 0x7_08c5);
    lemma_sum_known(0x3d14_6752, 0x3d0d_5e8d, true, 0x94_6752, 121, 0x8d_5e8d, 121, 0x1, 0x1, 0x7_08c5, 19, 0x4_0000, 0x20);
    assert(sub_spec(0x3d14_6752, 0x3d0d_5e8d) == 0x3ae1_18a0);
    assert(0xd8_bd84 * 0x1 - 0xd2_9b93 * 0x1 == 0x6_21f1);
    lemma_sum_known(0x4258_bd84, 0x4252_9b93, true, 0xd8_bd84, 131, 0xd2_9b93, 131, 0x1, 0x1, 0x6_21f1, 19, 0x4_0000, 0x20);
    assert(sub_spec(0x4258_bd84, 0x4252_9b93) == 0x3fc4_3e20);
    assert(0xc4_3e20 * 0xe1_18a0 == 0xac8d_7a99_d400);
    lemma_product_known(0x3fc4_3e20, 0x3ae1_18a0, 0xc4_3e20, 126, 0xe1_18a0, 116, 0xac8d_7a99_d400, 48, 0x8000_0000_0000, 0x100_0000);
    assert(mul_spec(0x3fc4_3e20, 0x3ae1_18a0) == 0x3b2c_8d7b);
    assert(0xac_8d7b * 0x1_0000_0000_0000_0000 == 0x1_591a_f600_0000_0000 * 0x80_0000 + 0x0);
    lemma_quotient_known(0x3b2c_8d7b, 0x3b00_0000, 0xac_8d7b, 117, 0x80_0000, 117, 0x1_591a_f600_0000_0000, 0x0, 66, 0x2_0000_0000_0000_0000, 0x400_0000_0000);
    assert(div_spec(0x3b2c_8d7b, 0x3b00_0000) == 0x3fac_8d7b);
    assert(0xd2_9b93 * 0x20 + 0xac_8d7b * 0x1 == 0x1aff_ffdb);
    lemma_sum_known(0x4252_9b93, 0x3fac_8d7b, false, 0xd2_9b93, 131, 0xac_8d7b, 126, 0x20, 0x1, 0x1aff_ffdb, 29, 0x1000_0000, 0x20);
    assert(add_spec(0x4252_9b93, 0x3fac_8d7b) == 0x4257_ffff);
    lemma_whole_known(0x4257_ffff, 0xd7_ffff, 131, 0x4_0000);
}

/// The value 0x3d14_6753.
proof fn lemma_at_3d146753()
    ensures
        chord_code(0x3d14_6753, 0x3d0d_5e8d, 0x3d15_5e8d, 0x4252_9b93, 0x4258_bd84) == 54,
{
    reveal(chord_code);
    lemma2_to64();
    lemma2_to64_rest();
    lemma_high_powers();
    assert(0x95_5e8d * 0x1 - 0x8d_5e8d * 0x1 == 0x8_0000);
    lemma_sum_known(0x3d15_5e8d, 0x3d0d_5e8d, true, 0x95_5e8d, 121, 0x8d_5e8d, 121, 0x1, 0x1, 0x8_0000, 20, 0x8_0000, 0x10);
    assert(sub_spec(0x3d15_5e8d, 0x3d0d_5e8d) == 0x3b00_0000);
    assert(0x94_6753 * 0x1 - 0x8d_5e8d * 0x1 == 0x7_08c6);
    lemma_sum_known(0x3d14_6753, 0x3d0d_5e8d, true, 0x94_6753, 121, 0x8d_5e8d, 121, 0x1, 0x1, 0x7_08c6, 19, 0x4_0000, 0x20);
    assert(sub_spec(0x3d14_6753, 0x3d0d_5e8d) == 0x3ae1_18c0);
    assert(0xd8_bd84 * 0x1 - 0xd2_9b93 * 0x1 == 0x6_21f1);
    lemma_sum_known(0x4258_bd84, 0x4252_9b93, true, 0xd8_bd84, 131, 0xd2_9b93, 131, 0x1, 0x1, 0x6_21f1, 19, 0x4_0000, 0x20);
    assert(sub_spec(0x4258_bd84, 0x4252_9b93) == 0x3fc4_3e20);
    assert(0xc4_3e20 * 0xe1_18c0 == 0xac8d_9321_9800);
    lemma_product_known(0x3fc4_3e20, 0x3ae1_18c0, 0xc4_3e20, 126, 0xe1_18c0, 116, 0xac8d_9321_9800, 48, 0x8000_0000_0000, 0x100_0000);
    assert(mul_spec(0x3fc4_3e20, 0x3ae1_18c0) == 0x3b2c_8d93);
    assert(0xac_8d93 * 0x1_0000_0000_0000_0000 == 0x1_591b_2600_0000_0000 * 0x80_0000 + 0x0);
    lemma_quotient_known(0x3b2c_8d93, 0x3b00_0000, 0xac_8d93, 117, 0x80_0000, 117, 0x1_591b_2600_0000_0000, 0x0, 66, 0x2_0000_0000_0000_0000, 0x400_0000_0000);
    assert(div_spec(0x3b2c_8d93, 0x3b00_0000) == 0x3fac_8d93);
    assert(0xd2_9b93 * 0x20 + 0xac_8d93 * 0x1 == 0x1aff_fff3);
    lemma_sum_known(0x4252_9b93, 0x3fac_8d93, false, 0xd2_9b93, 131, 0xac_8d93, 126, 0x20, 0x1, 0x1aff_fff3, 29, 0x1000_0000, 0x20);
    assert(add_spec(0x4252_9b93, 0x3fac_8d93) == 0x4258_0000);
    lemma_whole_known(0x4258_0000, 0xd8_0000, 131, 0x4_0000);
}

/// The edge of code 53.
proof fn lemma_near_53()
    ensures
        near_exact_edge(0x3d14_6752, 53),
{
    lemma2_to64();
    lemma2_to64_rest();
    lemma_fifth_powers_of_two();
    lemma_more_fifth_powers_of_two();
    assert(67525nat * 67525 * 67525 == 0x1_1805_edce_35bd);
    assert(269025nat * 269025 * 269025 == 0x45_2c59_9066_9ca1);
    assert(0x1_1805_edce_35bdnat * 0x1_1805_edce_35bd == 0x1_324c_f856_3c82_fefc_7973_cd89nat);
    assert(0x1_324c_f856_3c82_fefc_7973_cd89nat * 0x1_324c_f856_3c82_fefc_7973_cd89nat == 0x1_6e7c_18d2_8cc4_49a5_7c9b_1b9d_d4b3_2402_189b_2e65_d01a_b351nat);
    assert(0x45_2c59_9066_9ca1nat * 0x45_2c59_9066_9ca1 == 0x12b0_eff6_c049_6d6d_d948_5020_9d41nat);
    assert(0x12b0_eff6_c049_6d6d_d948_5020_9d41nat * 0x12b0_eff6_c049_6d6d_d948_5020_9d41nat == 0x15d_5c09_8741_6139_2178_92b9_bce5_5f46_89a2_dd05_b95f_0d00_50d8_ca81nat);
    assert(0x2e4_f49anat * 0x2e4_f49a == 0x8_6097_0405_eca4);
    assert(0x8_6097_0405_eca4nat * 0x8_6097_0405_eca4 == 0x46_2de1_dc78_fac8_5900_3926_c910nat);
    assert(0x46_2de1_dc78_fac8_5900_3926_c910nat * 0x2e4_f49a == 0xcb1f_aed4_2db6_daef_15fe_f4b8_8b38_33a0nat);
    assert(0x2e7_149anat * 0x2e7_149a == 0x8_6ce8_9794_6ca4);
    assert(0x8_6ce8_9794_6ca4nat * 0x8_6ce8_9794_6ca4 == 0x46_fcde_8c7f_1caf_b777_43ba_c910nat);
    assert(0x46_fcde_8c7f_1caf_b777_43ba_c910nat * 0x2e7_149a == 0xce0d_a05f_45c6_b4b2_772f_4226_e382_33a0nat);
    assert(0xcb1f_aed4_2db6_daef_15fe_f4b8_8b38_33a0nat * 0x15d_5c09_8741_6139_2178_92b9_bce5_5f46_89a2_dd05_b95f_0d00_50d8_ca81nat == 0x115_3338_4985_4d8d_67e2_b723_e64d_b429_2073_5ba6_6e97_e69a_db58_9855_3c24_8b00_69ed_fdc9_0cc9_1666_0f0e_43a0nat);
    assert(0xce0d_a05f_45c6_b4b2_772f_4226_e382_33a0nat * 0x15d_5c09_8741_6139_2178_92b9_bce5_5f46_89a2_dd05_b95f_0d00_50d8_ca81nat == 0x119_32a8_32dc_cf9a_4ff3_1615_e754_ad23_a0d9_7521_efb7_b701_6a74_9838_ca69_6785_6018_d4d2_b5ea_cb1a_f058_43a0nat);
    assert(0xc35nat * 0x1000_0000_0000_0000_0000_0000_0000_0000_0000nat == 0xc3_5000_0000_0000_0000_0000_0000_0000_0000_0000nat);
    assert(0x1_6e7c_18d2_8cc4_49a5_7c9b_1b9d_d4b3_2402_189b_2e65_d01a_b351nat * 0xc3_5000_0000_0000_0000_0000_0000_0000_0000_0000nat == 0x117_9b0d_b023_0581_7011_a116_81da_56ec_68d9_65e4_d60d_555e_eebc_5000_0000_0000_0000_0000_0000_0000_0000_0000nat);
    lemma_near_above(
        0x3d14_6752, 0x94_6752, 121, 0x1000, 0xc3_5000_0000_0000_0000_0000_0000_0000_0000_0000nat, 53,
        67525, 0x1_1805_edce_35bd,
        0x1_324c_f856_3c82_fefc_7973_cd89nat,
        0x45_2c59_9066_9ca1, 0x12b0_eff6_c049_6d6d_d948_5020_9d41nat,
        0x2e4_f49a, 0x8_6097_0405_eca4, 0x46_2de1_dc78_fac8_5900_3926_c910nat,
        0x2e7_149a, 0x8_6ce8_9794_6ca4, 0x46_fcde_8c7f_1caf_b777_43ba_c910nat,
    );
}

/// The value 0x3d19_be19.
proof fn lemma_at_3d19be19()
    ensures
        chord_code(0x3d19_be19, 0x3d15_5e8d, 0x3d1d_5e8d, 0x4258_bd84, 0x425e_b40a) == 54,
{
    reveal(chord_code);
    lemma2_to64();
    lemma2_to64_rest();
    lemma_high_powers();
    assert(0x9d_5e8d * 0x1 - 0x95_5e8d * 0x1 == 0x8_0000);
    lemma_sum_known(0x3d1d_5e8d, 0x3d15_5e8d, true, 0x9d_5e8d, 121, 0x95_5e8d, 121, 0x1, 0x1, 0x8_0000, 20, 0x8_0000, 0x10);
    assert(sub_spec(0x3d1d_5e8d, 0x3d15_5e8d) == 0x3b00_0000);
    assert(0x99_be19 * 0x1 - 0x95_5e8d * 0x1 == 0x4_5f8c);
    lemma_sum_known(0x3d19_be19, 0x3d15_5e8d, true, 0x99_be19, 121, 0x95_5e8d, 121, 0x1, 0x1, 0x4_5f8c, 19, 0x4_0000, 0x20);
    assert(sub_spec(0x3d19_be19, 0x3d15_5e8d) == 0x3a8b_f180);
    assert(0xde_b40a * 0x1 - 0xd8_bd84 * 0x1 == 0x5_f686);
    lemma_sum_known(0x425e_b40a, 0x4258_bd84, true, 0xde_b40a, 131, 0xd8_bd84, 131, 0x1, 0x1, 0x5_f686, 19, 0x4_0000, 0x20);
    assert(sub_spec(0x425e_b40a, 0x4258_bd84) == 0x3fbe_d0c0);
    assert(0xbe_d0c0 * 0x8b_f180 == 0x684f_5a2d_2000);
    lemma_product_known(0x3fbe_d0c0, 0x3a8b_f180, 0xbe_d0c0, 126, 0x8b_f180, 116, 0x684f_5a2d_2000, 47, 0x4000_0000_0000, 0x80_0000);
    assert(mul_spec(0x3fbe_d0c0, 0x3a8b_f180) == 0x3ad0_9eb4);
    assert(0xd0_9eb4 * 0x1_0000_0000_0000_0000 == 0x1_a13d_6800_0000_0000 * 0x80_0000 + 0x0);
    lemma_quotient_known(0x3ad0_9eb4, 0x3b00_0000, 0xd0_9eb4, 116, 0x80_0000, 117, 0x1_a13d_6800_0000_0000, 0x0, 66, 0x2_0000_0000_0000_0000, 0x400_0000_0000);
    assert(div_spec(0x3ad0_9eb4, 0x3b00_0000) == 0x3f50_9eb4);
    assert(0xd8_bd84 * 0x40 + 0xd0_9eb4 * 0x1 == 0x36ff_ffb4);
    lemma_sum_known(0x4258_bd84, 0x3f50_9eb4, false, 0xd8_bd84, 131, 0xd0_9eb4, 125, 0x40, 0x1, 0x36ff_ffb4, 30, 0x2000_0000, 0x40);
    assert(add_spec(0x4258_bd84, 0x3f50_9eb4) == 0x425b_ffff);
    lemma_whole_known(0x425b_ffff, 0xdb_ffff, 131, 0x4_0000);
}

/// The value 0x3d19_be1a.
proof fn lemma_at_3d19be1a()
    ensures
        chord_code(0x3d19_be1a, 0x3d15_5e8d, 0x3d1d_5e8d, 0x4258_bd84, 0x425e_b40a) == 55,
{
    reveal(chord_code);
    lemma2_to64();
    lemma2_to64_rest();
    lemma_high_powers();
    assert(0x9d_5e8d * 0x1 - 0x95_5e8d * 0x1 == 0x8_0000);
    lemma_sum_known(0x3d1d_5e8d, 0x3d15_5e8d, true, 0x9d_5e8d, 121, 0x95_5e8d, 121, 0x1, 0x1, 0x8_0000, 20, 0x8_0000, 0x10);
    assert(sub_spec(0x3d1d_5e8d, 0x3d15_5e8d) == 0x3b00_0000);
    assert(0x99_be1a * 0x1 - 0x95_5e8d * 0x1 == 0x4_5f8d);
    lemma_sum_known(0x3d19_be1a, 0x3d15_5e8d, true, 0x99_be1a, 121, 0x95_5e8d, 121, 0x1, 0x1, 0x4_5f8d, 19, 0x4_0000, 0x20);
    assert(sub_spec(0x3d19_be1a, 0x3d15_5e8d) == 0x3a8b_f1a0);
    assert(0xde_b40a * 0x1 - 0xd8_bd84 * 0x1 == 0x5_f686);
    lemma_sum_known(0x425e_b40a, 0x4258_bd84, true, 0xde_b40a, 131, 0xd8_bd84, 131, 0x1, 0x1, 0x5_f686, 19, 0x4_0000, 0x20);
    assert(sub_spec(0x425e_b40a, 0x4258_bd84) == 0x3fbe_d0c0);
    assert(0xbe_d0c0 * 0x8b_f1a0 == 0x684f_7207_3800);
    lemma_product_known(0x3fbe_d0c0, 0x3a8b_f1a0, 0xbe_d0c0, 126, 0x8b_f1a0, 116, 0x684f_7207_3800, 47, 0x4000_0000_0000, 0x80_0000);
    assert(mul_spec(0x3fbe_d0c0, 0x3a8b_f1a0) == 0x3ad0_9ee4);
    assert(0xd0_9ee4 * 0x1_0000_0000_0000_0000 == 0x1_a13d_c800_0000_0000 * 0x80_0000 + 0x0);
    lemma_quotient_known(0x3ad0_9ee4, 0x3b00_0000, 0xd0_9ee4, 116, 0x80_0000, 117, 0x1_a13d_c800_0000_0000, 0x0, 66, 0x2_0000_0000_0000_0000, 0x400_0000_0000);
    assert(div_spec(0x3ad0_9ee4, 0x3b00_0000) == 0x3f50_9ee4);
    assert(0xd8_bd84 * 0x40 + 0xd0_9ee4 * 0x1 == 0x36ff_ffe4);
    lemma_sum_known(0x4258_bd84, 0x3f50_9ee4, false, 0xd8_bd84, 131, 0xd0_9ee4, 125, 0x40, 0x1, 0x36ff_ffe4, 30, 0x2000_0000, 0x40);
    assert(add_spec(0x4258_bd84, 0x3f50_9ee4) == 0x425c_0000);
    lemma_whole_known(0x425c_0000, 0xdc_0000, 131, 0x4_0000);
}

/// The edge of code 54.
proof fn lemma_near_54()
    ensures
        near_exact_edge(0x3d19_be19, 54),
{
    lemma2_to64();
    lemma2_to64_rest();
    lemma_fifth_powers_of_two();
    lemma_more_fifth_powers_of_two();
    assert(68525nat * 68525 * 68525 == 0x1_24a6_306b_0a75);
    assert(269025nat * 269025 * 269025 == 0x45_2c59_9066_9ca1);
    assert(0x1_24a6_306b_0a75nat * 0x1_24a6_306b_0a75 == 0x1_4e8b_8a57_03d4_c869_9e3b_5979nat);
    assert(0x1_4e8b_8a57_03d4_c869_9e3b_5979nat * 0x1_4e8b_8a57_03d4_c869_9e3b_5979nat == 0x1_b530_690a_933f_51ba_3e55_75db_73bb_ed72_f0b1_c575_b90b_5b31nat);
    assert(0x45_2c59_9066_9ca1nat * 0x45_2c59_9066_9ca1 == 0x12b0_eff6_c049_6d6d_d948_5020_9d41nat);
    assert(0x12b0_eff6_c049_6d6d_d948_5020_9d41nat * 0x12b0_eff6_c049_6d6d_d948_5020_9d41nat == 0x15d_5c09_8741_6139_2178_92b9_bce5_5f46_89a2_dd05_b95f_0d00_50d8_ca81nat);
    assert(0x2ff_a67dnat * 0x2ff_a67d == 0x8_fde7_0d4c_5909);
    assert(0x8_fde7_0d4c_5909nat * 0x8_fde7_0d4c_5909 == 0x50_da43_5597_7905_500d_e64f_4251nat);
    assert(0x50_da43_5597_7905_500d_e64f_4251nat * 0x2ff_a67d == 0xf272_84bf_ad34_9a5a_6326_2198_8a62_e78dnat);
    assert(0x301_c67dnat * 0x301_c67d == 0x9_0aaa_14df_9909);
    assert(0x9_0aaa_14df_9909nat * 0x9_0aaa_14df_9909 == 0x51_c067_3259_f541_a729_6129_c251nat);
    assert(0x51_c067_3259_f541_a729_6129_c251nat * 0x301_c67d == 0xf5d2_58b9_038e_e3d4_aba5_7ecb_72ff_878dnat);
    assert(0xf272_84bf_ad34_9a5a_6326_2198_8a62_e78dnat * 0x15d_5c09_8741_6139_2178_92b9_bce5_5f46_89a2_dd05_b95f_0d00_50d8_ca81nat == 0x14a_dd49_2722_fcda_b40b_ee9a_7e57_1b08_8e9e_6492_7153_e9f4_32bd_47b2_acc6_23d7_f9eb_7e44_e8c2_1fdf_3583_f00dnat);
    assert(0xf5d2_58b9_038e_e3d4_aba5_7ecb_72ff_878dnat * 0x15d_5c09_8741_6139_2178_92b9_bce5_5f46_89a2_dd05_b95f_0d00_50d8_ca81nat == 0x14f_7823_b262_2a22_ba46_72ad_0d93_f4ff_5fd7_6c8f_81c0_dbf3_c016_2cbf_6c08_769a_ca22_323d_d03f_7839_02b0_900dnat);
    assert(0xc35nat * 0x1000_0000_0000_0000_0000_0000_0000_0000_0000nat == 0xc3_5000_0000_0000_0000_0000_0000_0000_0000_0000nat);
    assert(0x1_b530_690a_933f_51ba_3e55_75db_73bb_ed72_f0b1_c575_b90b_5b31nat * 0xc3_5000_0000_0000_0000_0000_0000_0000_0000_0000nat == 0x14d_8c7f_23e1_773f_0a67_ae93_7afd_bc50_98c1_42a0_f660_bd7a_02d2_5000_0000_0000_0000_0000_0000_0000_0000_0000nat);
    lemma_near_above(
        0x3d19_be19, 0x99_be19, 121, 0x1000, 0xc3_5000_0000_0000_0000_0000_0000_0000_0000_0000nat, 54,
        68525, 0x1_24a6_306b_0a75,
        0x1_4e8b_8a57_03d4_c869_9e3b_5979nat,
        0x45_2c59_9066_9ca1, 0x12b0_eff6_c049_6d6d_d948_5020_9d41nat,
        0x2ff_a67d, 0x8_fde7_0d4c_5909, 0x50_da43_5597_7905_500d_e64f_4251nat,
        0x301_c67d, 0x9_0aaa_14df_9909, 0x51_c067_3259_f541_a729_6129_c251nat,
    );
}

/// The value 0x3d1f_297e.
proof fn lemma_at_3d1f297e()
    ensures
        chord_code(0x3d1f_297e, 0x3d1d_5e8d, 0x3d25_5e8d, 0x425e_b40a, 0x4264_7d61) == 55,
{
    reveal(chord_code);
    lemma2_to64();
    lemma2_to64_rest();
    lemma_high_powers();
    assert(0xa5_5e8d * 0x1 - 0x9d_5e8d * 0x1 == 0x8_0000);
    lemma_sum_known(0x3d25_5e8d, 0x3d1d_5e8d, true, 0xa5_5e8d, 121, 0x9d_5e8d, 121, 0x1, 0x1, 0x8_0000, 20, 0x8_0000, 0x10);
    assert(sub_spec(0x3d25_5e8d, 0x3d1d_5e8d) == 0x3b00_0000);
    assert(0x9f_297e * 0x1 - 0x9d_5e8d * 0x1 == 0x1_caf1);
    lemma_sum_known(0x3d1f_297e, 0x3d1d_5e8d, true, 0x9f_297e, 121, 0x9d_5e8d, 121, 0x1, 0x1, 0x1_caf1, 17, 0x1_0000, 0x80);
    assert(sub_spec(0x3d1f_297e, 0x3d1d_5e8d) == 0x39e5_7880);
    assert(0xe4_7d61 * 0x1 - 0xde_b40a * 0x1 == 0x5_c957);
    lemma_sum_known(0x4264_7d61, 0x425e_b40a, true, 0xe4_7d61, 131, 0xde_b40a, 131, 0x1, 0x1, 0x5_c957, 19, 0x4_0000, 0x20);
    assert(sub_spec(0x4264_7d61, 0x425e_b40a) == 0x3fb9_2ae0);
    assert(0xb9_2ae0 * 0xe5_7880 == 0xa5fa_830e_7000);
    lemma_product_known(0x3fb9_2ae0, 0x39e5_7880, 0xb9_2ae0, 126, 0xe5_7880, 114, 0xa5fa_830e_7000, 48, 0x8000_0000_0000, 0x100_0000);
    assert(mul_spec(0x3fb9_2ae0, 0x39e5_7880) == 0x3a25_fa83);
    assert(0xa5_fa83 * 0x1_0000_0000_0000_0000 == 0x1_4bf5_0600_0000_0000 * 0x80_0000 + 0x0);
    lemma_quotient_known(0x3a25_fa83, 0x3b00_0000, 0xa5_fa83, 115, 0x80_0000, 117, 0x1_4bf5_0600_0000_0000, 0x0, 66, 0x2_0000_0000_0000_0000, 0x400_0000_0000);
    assert(div_spec(0x3a25_fa83, 0x3b00_0000) == 0x3ea5_fa83);
    assert(0xde_b40a * 0x80 + 0xa5_fa83 * 0x1 == 0x6fff_ff83);
    lemma_sum_known(0x425e_b40a, 0x3ea5_fa83, false, 0xde_b40a, 131, 0xa5_fa83, 124, 0x80, 0x1, 0x6fff_ff83, 31, 0x4000_0000, 0x80);
    assert(add_spec(0x425e_b40a, 0x3ea5_fa83) == 0x425f_ffff);
    lemma_whole_known(0x425f_ffff, 0xdf_ffff, 131, 0x4_0000);
}

/// The value 0x3d1f_297f.
proof fn lemma_at_3d1f297f()
    ensures
        chord_code(0x3d1f_297f, 0x3d1d_5e8d, 0x3d25_5e8d, 0x425e_b40a, 0x4264_7d61) == 56,
{
    reveal(chord_code);
    lemma2_to64();
    lemma2_to64_rest();
    lemma_high_powers();
    assert(0xa5_5e8d * 0x1 - 0x9d_5e8d * 0x1 == 0x8_0000);
    lemma_sum_known(0x3d25_5e8d, 0x3d1d_5e8d, true, 0xa5_5e8d, 121, 0x9d_5e8d, 121, 0x1, 0x1, 0x8_0000, 20, 0x8_0000, 0x10);
    assert(sub_spec(0x3d25_5e8d, 0x3d1d_5e8d) == 0x3b00_0000);
    assert(0x9f_297f * 0x1 - 0x9d_5e8d * 0x1 == 0x1_caf2);
    lemma_sum_known(0x3d1f_297f, 0x3d1d_5e8d, true, 0x9f_297f, 121, 0x9d_5e8d, 121, 0x1, 0x1, 0x1_caf2, 17, 0x1_0000, 0x80);
    assert(sub_spec(0x3d1f_297f, 0x3d1d_5e8d) == 0x39e5_7900);
    assert(0xe4_7d61 * 0x1 - 0xde_b40a * 0x1 == 0x5_c957);
    lemma_sum_known(0x4264_7d61, 0x425e_b40a, true, 0xe4_7d61, 131, 0xde_b40a, 131, 0x1, 0x1, 0x5_c957, 19, 0x4_0000, 0x20);
    assert(sub_spec(0x4264_7d61, 0x425e_b40a) == 0x3fb9_2ae0);
    assert(0xb9_2ae0 * 0xe5_7900 == 0xa5fa_dfa3_e000);
    lemma_product_known(0x3fb9_2ae0, 0x39e5_7900, 0xb9_2ae0, 126, 0xe5_7900, 114, 0xa5fa_dfa3_e000, 48, 0x8000_0000_0000, 0x100_0000);
    assert(mul_spec(0x3fb9_2ae0, 0x39e5_7900) == 0x3a25_fae0);
    assert(0xa5_fae0 * 0x1_0000_0000_0000_0000 == 0x1_4bf5_c000_0000_0000 * 0x80_0000 + 0x0);
    lemma_quotient_known(0x3a25_fae0, 0x3b00_0000, 0xa5_fae0, 115, 0x80_0000, 117, 0x1_4bf5_c000_0000_0000, 0x0, 66, 0x2_0000_0000_0000_0000, 0x400_0000_0000);
    assert(div_spec(0x3a25_fae0, 0x3b00_0000) == 0x3ea5_fae0);
    assert(0xde_b40a * 0x80 + 0xa5_fae0 * 0x1 == 0x6fff_ffe0);
    lemma_sum_known(0x425e_b40a, 0x3ea5_fae0, false, 0xde_b40a, 131, 0xa5_fae0, 124, 0x80, 0x1, 0x6fff_ffe0, 31, 0x4000_0000, 0x80);
    assert(add_spec(0x425e_b40a, 0x3ea5_fae0) == 0x4260_0000);
    lemma_whole_known(0x4260_0000, 0xe0_0000, 131, 0x4_0000);
}

/// The edge of code 55.
proof fn lemma_near_55()
    ensures
        near_exact_edge(0x3d1f_297e, 55),
{
    lemma2_to64();
    lemma2_to64_rest();
    lemma_fifth_powers_of_two();
    lemma_more_fifth_powers_of_two();
    assert(69525nat * 69525 * 69525 == 0x1_31a6_2d7a_fead);
    assert(269025nat * 269025 * 269025 == 0x45_2c59_9066_9ca1);
    assert(0x1_31a6_2d7a_feadnat * 0x1_31a6_2d7a_fead == 0x1_6ced_643e_166e_fafc_8c3f_c0e9nat);
    assert(0x1_6ced_643e_166e_fafc_8c3f_c0e9nat * 0x1_6ced_643e_166e_fafc_8c3f_c0e9nat == 0x2_0833_f133_5201_b3d0_7a3f_1dc7_9437_2fde_c35c_a997_5c0c_5411nat);
    assert(0x45_2c59_9066_9ca1nat * 0x45_2c59_9066_9ca1 == 0x12b0_eff6_c049_6d6d_d948_5020_9d41nat);
    assert(0x12b0_eff6_c049_6d6d_d948_5020_9d41nat * 0x12b0_eff6_c049_6d6d_d948_5020_9d41nat == 0x15d_5c09_8741_6139_2178_92b9_bce5_5f46_89a2_dd05_b95f_0d00_50d8_ca81nat);
    assert(0x31a_bf76nat * 0x31a_bf76 == 0x9_a348_3729_4a64);
    assert(0x9_a348_3729_4a64nat * 0x9_a348_3729_4a64 == 0x5c_e338_eb84_e2df_f4df_e1a5_f710nat);
    assert(0x5c_e338_eb84_e2df_f4df_e1a5_f710nat * 0x31a_bf76 == 0x1_205e_36e2_ae1c_5f23_294f_c54d_1d74_d160nat);
    assert(0x31c_df76nat * 0x31c_df76 == 0x9_b07e_68de_ca64);
    assert(0x9_b07e_68de_ca64nat * 0x9_b07e_68de_ca64 == 0x5d_e291_6e47_f796_80c4_e571_f710nat);
    assert(0x5d_e291_6e47_f796_80c4_e571_f710nat * 0x31c_df76 == 0x1_243e_6fd6_05df_5dd0_9dc4_4cfc_3e7e_d160nat);
    assert(0x1_205e_36e2_ae1c_5f23_294f_c54d_1d74_d160nat * 0x15d_5c09_8741_6139_2178_92b9_bce5_5f46_89a2_dd05_b95f_0d00_50d8_ca81nat == 0x189_881d_6a6c_1599_8af8_8b2a_36c8_a4e9_c13b_2160_4457_4bb7_af50_12f0_f226_83b7_aba5_b34e_5668_8118_ae13_4160nat);
    assert(0x1_243e_6fd6_05df_5dd0_9dc4_4cfc_3e7e_d160nat * 0x15d_5c09_8741_6139_2178_92b9_bce5_5f46_89a2_dd05_b95f_0d00_50d8_ca81nat == 0x18e_d22f_c790_69f6_82e5_51e4_7984_3070_b0f6_fa95_ae54_4f18_c045_0638_e1ed_8a2e_f38e_f4b6_b048_10da_381d_4160nat);
    assert(0xc35nat * 0x1000_0000_0000_0000_0000_0000_0000_0000_0000nat == 0xc3_5000_0000_0000_0000_0000_0000_0000_0000_0000nat);
    assert(0x2_0833_f133_5201_b3d0_7a3f_1dc7_9437_2fde_c35c_a997_5c0c_5411nat * 0xc3_5000_0000_0000_0000_0000_0000_0000_0000_0000nat == 0x18c_e220_f577_80ec_7ffe_4447_6854_445a_b5a4_6ca2_234a_6a27_e338_5000_0000_0000_0000_0000_0000_0000_0000_0000nat);
    lemma_near_above(
        0x3d1f_297e, 0x9f_297e, 121, 0x1000, 0xc3_5000_0000_0000_0000_0000_0000_0000_0000_0000nat, 55,
        69525, 0x1_31a6_2d7a_fead,
        0x1_6ced_643e_166e_fafc_8c3f_c0e9nat,
        0x45_2c59_9066_9ca1, 0x12b0_eff6_c049_6d6d_d948_5020_9d41nat,
        0x31a_bf76, 0x9_a348_3729_4a64, 0x5c_e338_eb84_e2df_f4df_e1a5_f710nat,
        0x31c_df76, 0x9_b07e_68de_ca64, 0x5d_e291_6e47_f796_80c4_e571_f710nat,
    );
}

/// The value 0x3d24_b135.
proof fn lemma_at_3d24b135()
    ensures
        chord_code(0x3d24_b135, 0x3d1d_5e8d, 0x3d25_5e8d, 0x425e_b40a, 0x4264_7d61) == 56,
{
    reveal(chord_code);
    lemma2_to64();
    lemma2_to64_rest();
    lemma_high_powers();
    assert(0xa5_5e8d * 0x1 - 0x9d_5e8d * 0x1 == 0x8_0000);
    lemma_sum_known(0x3d25_5e8d, 0x3d1d_5e8d, true, 0xa5_5e8d, 121, 0x9d_5e8d, 121, 0x1, 0x1, 0x8_0000, 20, 0x8_0000, 0x10);
    assert(sub_spec(0x3d25_5e8d, 0x3d1d_5e8d) == 0x3b00_0000);
    assert(0xa4_b135 * 0x1 - 0x9d_5e8d * 0x1 == 0x7_52a8);
    lemma_sum_known(0x3d24_b135, 0x3d1d_5e8d, true, 0xa4_b135, 121, 0x9d_5e8d, 121, 0x1, 0x1, 0x7_52a8, 19, 0x4_0000, 0x20);
    assert(sub_spec(0x3d24_b135, 0x3d1d_5e8d) == 0x3aea_5500);
    assert(0xe4_7d61 * 0x1 - 0xde_b40a * 0x1 == 0x5_c957);
    lemma_sum_known(0x4264_7d61, 0x425e_b40a, true, 0xe4_7d61, 131, 0xde_b40a, 131, 0x1, 0x1, 0x5_c957, 19, 0x4_0000, 0x20);
    assert(sub_spec(0x4264_7d61, 0x425e_b40a) == 0x3fb9_2ae0);
    assert(0xb9_2ae0 * 0xea_5500 == 0xa97e_abfc_6000);
    lemma_product_known(0x3fb9_2ae0, 0x3aea_5500, 0xb9_2ae0, 126, 0xea_5500, 116, 0xa97e_abfc_6000, 48, 0x8000_0000_0000, 0x100_0000);
    assert(mul_spec(0x3fb9_2ae0, 0x3aea_5500) == 0x3b29_7eac);
    assert(0xa9_7eac * 0x1_0000_0000_0000_0000 == 0x1_52fd_5800_0000_0000 * 0x80_0000 + 0x0);
    lemma_quotient_known(0x3b29_7eac, 0x3b00_0000, 0xa9_7eac, 117, 0x80_0000, 117, 0x1_52fd_5800_0000_0000, 0x0, 66, 0x2_0000_0000_0000_0000, 0x400_0000_0000);
    assert(div_spec(0x3b29_7eac, 0x3b00_0000) == 0x3fa9_7eac);
    assert(0xde_b40a * 0x20 + 0xa9_7eac * 0x1 == 0x1c7f_ffec);
    lemma_sum_known(0x425e_b40a, 0x3fa9_7eac, false, 0xde_b40a, 131, 0xa9_7eac, 126, 0x20, 0x1, 0x1c7f_ffec, 29, 0x1000_0000, 0x20);
    assert(add_spec(0x425e_b40a, 0x3fa9_7eac) == 0x4263_ffff);
    lemma_whole_known(0x4263_ffff, 0xe3_ffff, 131, 0x4_0000);
}

/// The value 0x3d24_b136.
proof fn lemma_at_3d24b136()
    ensures
        chord_code(0x3d24_b136, 0x3d1d_5e8d, 0x3d25_5e8d, 0x425e_b40a, 0x4264_7d61) == 57,
{
    reveal(chord_code);
    lemma2_to64();
    lemma2_to64_rest();
    lemma_high_powers();
    assert(0xa5_5e8d * 0x1 - 0x9d_5e8d * 0x1 == 0x8_0000);
    lemma_sum_known(0x3d25_5e8d, 0x3d1d_5e8d, true, 0xa5_5e8d, 121, 0x9d_5e8d, 121, 0x1, 0x1, 0x8_0000, 20, 0x8_0000, 0x10);
    assert(sub_spec(0x3d25_5e8d, 0x3d1d_5e8d) == 0x3b00_0000);
    assert(0xa4_b136 * 0x1 - 0x9d_5e8d * 0x1 == 0x7_52a9);
    lemma_sum_known(0x3d24_b136, 0x3d1d_5e8d, true, 0xa4_b136, 121, 0x9d_5e8d, 121, 0x1, 0x1, 0x7_52a9, 19, 0x4_0000, 0x20);
    assert(sub_spec(0x3d24_b136, 0x3d1d_5e8d) == 0x3aea_5520);
    assert(0xe4_7d61 * 0x1 - 0xde_b40a * 0x1 == 0x5_c957);
    lemma_sum_known(0x4264_7d61, 0x425e_b40a, true, 0xe4_7d61, 131, 0xde_b40a, 131, 0x1, 0x1, 0x5_c957, 19, 0x4_0000, 0x20);
    assert(sub_spec(0x4264_7d61, 0x425e_b40a) == 0x3fb9_2ae0);
    assert(0xb9_2ae0 * 0xea_5520 == 0xa97e_c321_bc00);
    lemma_product_known(0x3fb9_2ae0, 0x3aea_5520, 0xb9_2ae0, 126, 0xea_5520, 116, 0xa97e_c321_bc00, 48, 0x8000_0000_0000, 0x100_0000);
    assert(mul_spec(0x3fb9_2ae0, 0x3aea_5520) == 0x3b29_7ec3);
    assert(0xa9_7ec3 * 0x1_0000_0000_0000_0000 == 0x1_52fd_8600_0000_0000 * 0x80_0000 + 0x0);
    lemma_quotient_known(0x3b29_7ec3, 0x3b00_0000, 0xa9_7ec3, 117, 0x80_0000, 117, 0x1_52fd_8600_0000_0000, 0x0, 66, 0x2_0000_0000_0000_0000, 0x400_0000_0000);
    assert(div_spec(0x3b29_7ec3, 0x3b00_0000) == 0x3fa9_7ec3);
    assert(0xde_b40a * 0x20 + 0xa9_7ec3 * 0x1 == 0x1c80_0003);
    lemma_sum_known(0x425e_b40a, 0x3fa9_7ec3, false, 0xde_b40a, 131, 0xa9_7ec3, 126, 0x20, 0x1, 0x1c80_0003, 29, 0x1000_0000, 0x20);
    assert(add_spec(0x425e_b40a, 0x3fa9_7ec3) == 0x4264_0000);
    lemma_whole_known(0x4264_0000, 0xe4_0000, 131, 0x4_0000);
}

/// The edge of code 56.
proof fn lemma_near_56()
    ensures
        near_exact_edge(0x3d24_b135, 56),
{
    lemma2_to64();
    lemma2_to64_rest();
    lemma_fifth_powers_of_two();
    lemma_more_fifth_powers_of_two();
    assert(70525nat * 70525 * 70525 == 0x1_3f07_4a9e_ce65);
    assert(269025nat * 269025 * 269025 == 0x45_2c59_9066_9ca1);
    assert(0x1_3f07_4a9e_ce65nat * 0x1_3f07_4a9e_ce65 == 0x1_8d93_2c2c_f0cf_315b_cf12_b3d9nat);
    assert(0x1_8d93_2c2c_f0cf_315b_cf12_b3d9nat * 0x1_8d93_2c2c_f0cf_315b_cf12_b3d9nat == 0x2_6971_cb9f_261e_a7b4_5265_7c44_31b6_a23f_c092_2e7c_b6dd_2df1nat);
    assert(0x45_2c59_9066_9ca1nat * 0x45_2c59_9066_9ca1 == 0x12b0_eff6_c049_6d6d_d948_5020_9d41nat);
    assert(0x12b0_eff6_c049_6d6d_d948_5020_9d41nat * 0x12b0_eff6_c049_6d6d_d948_5020_9d41nat == 0x15d_5c09_8741_6139_2178_92b9_bce5_5f46_89a2_dd05_b95f_0d00_50d8_ca81nat);
    assert(0x336_6609nat * 0x336_6609 == 0xa_51f3_6a77_2c51);
    assert(0xa_51f3_6a77_2c51nat * 0xa_51f3_6a77_2c51 == 0x6a_8140_4222_2ae4_4bf3_4ef9_f1a1nat);
    assert(0x6a_8140_4222_2ae4_4bf3_4ef9_f1a1nat * 0x336_6609 == 0x1_5625_7792_7f51_a956_5789_3393_3805_a4a9nat);
    assert(0x338_8609nat * 0x338_8609 == 0xa_5f9f_201d_6c51);
    assert(0xa_5f9f_201d_6c51nat * 0xa_5f9f_201d_6c51 == 0x6b_9c25_ff0b_354c_0913_f82e_71a1nat);
    assert(0x6b_9c25_ff0b_354c_0913_f82e_71a1nat * 0x338_8609 == 0x1_5a96_f1d1_4ce9_6207_e4b3_9b19_c754_44a9nat);
    assert(0x1_5625_7792_7f51_a956_5789_3393_3805_a4a9nat * 0x15d_5c09_8741_6139_2178_92b9_bce5_5f46_89a2_dd05_b95f_0d00_50d8_ca81nat == 0x1d2_ec16_35c6_8fbd_d827_d182_0e4d_54ad_7e3d_f64d_4396_824c_af74_2e97_6ab1_1edf_8de9_a5b1_69a1_c49b_6d5d_5329nat);
    assert(0x1_5a96_f1d1_4ce9_6207_e4b3_9b19_c754_44a9nat * 0x15d_5c09_8741_6139_2178_92b9_bce5_5f46_89a2_dd05_b95f_0d00_50d8_ca81nat == 0x1d8_fc62_cfa9_afa3_8872_8397_85ab_b3fb_0741_74d3_d034_5ce2_40f1_3da4_e4c4_e6ea_ed70_21c2_c621_98d4_ae3b_f329nat);
    assert(0xc35nat * 0x1000_0000_0000_0000_0000_0000_0000_0000_0000nat == 0xc3_5000_0000_0000_0000_0000_0000_0000_0000_0000nat);
    assert(0x2_6971_cb9f_261e_a7b4_5265_7c44_31b6_a23f_c092_2e7c_b6dd_2df1nat * 0xc3_5000_0000_0000_0000_0000_0000_0000_0000_0000nat == 0x1d7_12a1_a9db_c543_52c3_1d0d_5ec7_2da6_a943_9b87_1786_439f_1cee_5000_0000_0000_0000_0000_0000_0000_0000_0000nat);
    lemma_near_above(
        0x3d24_b135, 0xa4_b135, 121, 0x1000, 0xc3_5000_0000_0000_0000_0000_0000_0000_0000_0000nat, 56,
        70525, 0x1_3f07_4a9e_ce65,
        0x1_8d93_2c2c_f0cf_315b_cf12_b3d9nat,
        0x45_2c59_9066_9ca1, 0x12b0_eff6_c049_6d6d_d948_5020_9d41nat,
        0x336_6609, 0xa_51f3_6a77_2c51, 0x6a_8140_4222_2ae4_4bf3_4ef9_f1a1nat,
        0x338_8609, 0xa_5f9f_201d_6c51, 0x6b_9c25_ff0b_354c_0913_f82e_71a1nat,
    );
}

/// The value 0x3d2a_5ef2.
proof fn lemma_at_3d2a5ef2()
    ensures
        chord_code(0x3d2a_5ef2, 0x3d25_5e8d, 0x3d2d_5e8d, 0x4264_7d61, 0x426a_1ab9) == 57,
{
    reveal(chord_code);
    lemma2_to64();
    lemma2_to64_rest();
    lemma_high_powers();
    assert(0xad_5e8d * 0x1 - 0xa5_5e8d * 0x1 == 0x8_0000);
    lemma_sum_known(0x3d2d_5e8d, 0x3d25_5e8d, true, 0xad_5e8d, 121, 0xa5_5e8d, 121, 0x1, 0x1, 0x8_0000, 20, 0x8_0000, 0x10);
    assert(sub_spec(0x3d2d_5e8d, 0x3d25_5e8d) == 0x3b00_0000);
    assert(0xaa_5ef2 * 0x1 - 0xa5_5e8d * 0x1 == 0x5_0065);
    lemma_sum_known(0x3d2a_5ef2, 0x3d25_5e8d, true, 0xaa_5ef2, 121, 0xa5_5e8d, 121, 0x1, 0x1, 0x5_0065, 19, 0x4_0000, 0x20);
    assert(sub_spec(0x3d2a_5ef2, 0x3d25_5e8d) == 0x3aa0_0ca0);
    assert(0xea_1ab9 * 0x1 - 0xe4_7d61 * 0x1 == 0x5_9d58);
    lemma_sum_known(0x426a_1ab9, 0x4264_7d61, true, 0xea_1ab9, 131, 0xe4_7d61, 131, 0x1, 0x1, 0x5_9d58, 19, 0x4_0000, 0x20);
    assert(sub_spec(0x426a_1ab9, 0x4264_7d61) == 0x3fb3_ab00);
    assert(0xb3_ab00 * 0xa0_0ca0 == 0x7053_bc4e_e000);
    lemma_product_known(0x3fb3_ab00, 0x3aa0_0ca0, 0xb3_ab00, 126, 0xa0_0ca0, 116, 0x7053_bc4e_e000, 47, 0x4000_0000_0000, 0x80_0000);
    assert(mul_spec(0x3fb3_ab00, 0x3aa0_0ca0) == 0x3ae0_a779);
    assert(0xe0_a779 * 0x1_0000_0000_0000_0000 == 0x1_c14e_f200_0000_0000 * 0x80_0000 + 0x0);
    lemma_quotient_known(0x3ae0_a779, 0x3b00_0000, 0xe0_a779, 116, 0x80_0000, 117, 0x1_c14e_f200_0000_0000, 0x0, 66, 0x2_0000_0000_0000_0000, 0x400_0000_0000);
    assert(div_spec(0x3ae0_a779, 0x3b00_0000) == 0x3f60_a779);
    assert(0xe4_7d61 * 0x40 + 0xe0_a779 * 0x1 == 0x39ff_ffb9);
    lemma_sum_known(0x4264_7d61, 0x3f60_a779, false, 0xe4_7d61, 131, 0xe0_a779, 125, 0x40, 0x1, 0x39ff_ffb9, 30, 0x2000_0000, 0x40);
    assert(add_spec(0x4264_7d61, 0x3f60_a779) == 0x4267_ffff);
    lemma_whole_known(0x4267_ffff, 0xe7_ffff, 131, 0x4_0000);
}

/// The value 0x3d2a_5ef3.
proof fn lemma_at_3d2a5ef3()
    ensures
        chord_code(0x3d2a_5ef3, 0x3d25_5e8d, 0x3d2d_5e8d, 0x4264_7d61, 0x426a_1ab9) == 58,
{
    reveal(chord_code);
    lemma2_to64();
    lemma2_to64_rest();
    lemma_high_powers();
    assert(0xad_5e8d * 0x1 - 0xa5_5e8d * 0x1 == 0x8_0000);
    lemma_sum_known(0x3d2d_5e8d, 0x3d25_5e8d, true, 0xad_5e8d, 121, 0xa5_5e8d, 121, 0x1, 0x1, 0x8_0000, 20, 0x8_0000, 0x10);
    assert(sub_spec(0x3d2d_5e8d, 0x3d25_5e8d) == 0x3b00_0000);
    assert(0xaa_5ef3 * 0x1 - 0xa5_5e8d * 0x1 == 0x5_0066);
    lemma_sum_known(0x3d2a_5ef3, 0x3d25_5e8d, true, 0xaa_5ef3, 121, 0xa5_5e8d, 121, 0x1, 0x1, 0x5_0066, 19, 0x4_0000, 0x20);
    assert(sub_spec(0x3d2a_5ef3, 0x3d25_5e8d) == 0x3aa0_0cc0);
    assert(0xea_1ab9 * 0x1 - 0xe4_7d61 * 0x1 == 0x5_9d58);
    lemma_sum_known(0x426a_1ab9, 0x4264_7d61, true, 0xea_1ab9, 131, 0xe4_7d61, 131, 0x1, 0x1, 0x5_9d58, 19, 0x4_0000, 0x20);
    assert(sub_spec(0x426a_1ab9, 0x4264_7d61) == 0x3fb3_ab00);
    assert(0xb3_ab00 * 0xa0_0cc0 == 0x7053_d2c4_4000);
    lemma_product_known(0x3fb3_ab00, 0x3aa0_0cc0, 0xb3_ab00, 126, 0xa0_0cc0, 116, 0x7053_d2c4_4000, 47, 0x4000_0000_0000, 0x80_0000);
    assert(mul_spec(0x3fb3_ab00, 0x3aa0_0cc0) == 0x3ae0_a7a6);
    assert(0xe0_a7a6 * 0x1_0000_0000_0000_0000 == 0x1_c14f_4c00_0000_0000 * 0x80_0000 + 0x0);
    lemma_quotient_known(0x3ae0_a7a6, 0x3b00_0000, 0xe0_a7a6, 116, 0x80_0000, 117, 0x1_c14f_4c00_0000_0000, 0x0, 66, 0x2_0000_0000_0000_0000, 0x400_0000_0000);
    assert(div_spec(0x3ae0_a7a6, 0x3b00_0000) == 0x3f60_a7a6);
    assert(0xe4_7d61 * 0x40 + 0xe0_a7a6 * 0x1 == 0x39ff_ffe6);
    lemma_sum_known(0x4264_7d61, 0x3f60_a7a6, false, 0xe4_7d61, 131, 0xe0_a7a6, 125, 0x40, 0x1, 0x39ff_ffe6, 30, 0x2000_0000, 0x40);
    assert(add_spec(0x4264_7d61, 0x3f60_a7a6) == 0x4268_0000);
    lemma_whole_known(0x4268_0000, 0xe8_0000, 131, 0x4_0000);
}

/// The edge of code 57.
proof fn lemma_near_57()
    ensures
        near_exact_edge(0x3d2a_5ef2, 57),
{
    lemma2_to64();
    lemma2_to64_rest();
    lemma_fifth_powers_of_two();
    lemma_more_fifth_powers_of_two();
    assert(71525nat * 71525 * 71525 == 0x1_4cca_ed77_359d);
    assert(269025nat * 269025 * 269025 == 0x45_2c59_9066_9ca1);
    assert(0x1_4cca_ed77_359dnat * 0x1_4cca_ed77_359d == 0x1_b09e_f8c8_cf75_c48b_9530_6249nat);
    assert(0x1_b09e_f8c8_cf75_c48b_9530_6249nat * 0x1_b09e_f8c8_cf75_c48b_9530_6249nat == 0x2_db18_ea5d_c5d3_3c2e_b0c0_a89d_85e3_a7c9_54b5_ded3_fb1b_f8d1nat);
    assert(0x45_2c59_9066_9ca1nat * 0x45_2c59_9066_9ca1 == 0x12b0_eff6_c049_6d6d_d948_5020_9d41nat);
    assert(0x12b0_eff6_c049_6d6d_d948_5020_9d41nat * 0x12b0_eff6_c049_6d6d_d948_5020_9d41nat == 0x15d_5c09_8741_6139_2178_92b9_bce5_5f46_89a2_dd05_b95f_0d00_50d8_ca81nat);
    assert(0x352_cabanat * 0x352_caba == 0xb_0b86_dbb2_0f24);
    assert(0xb_0b86_dbb2_0f24nat * 0xb_0b86_dbb2_0f24 == 0x79_fe1b_bf39_5557_1370_a6f5_3d10nat);
    assert(0x79_fe1b_bf39_5557_1370_a6f5_3d10nat * 0x352_caba == 0x1_956e_5345_7169_881d_42a5_5ddb_8f7c_fda0nat);
    assert(0x354_eabanat * 0x354_eaba == 0xb_19ab_3d48_8f24);
    assert(0xb_19ab_3d48_8f24nat * 0xb_19ab_3d48_8f24 == 0x7b_374a_28bf_66a7_eadf_fc49_3d10nat);
    assert(0x7b_374a_28bf_66a7_eadf_fc49_3d10nat * 0x354_eaba == 0x1_9a84_fcdf_9222_35bf_c425_0717_7846_fda0nat);
    assert(0x1_956e_5345_7169_881d_42a5_5ddb_8f7c_fda0nat * 0x15d_5c09_8741_6139_2178_92b9_bce5_5f46_89a2_dd05_b95f_0d00_50d8_ca81nat == 0x229_492a_42ae_37f7_8514_a240_040f_2a8a_b21c_ebfb_6fbd_ba96_938a_190e_46ab_f05f_21ac_6344_f6bc_cb93_ed1c_0da0nat);
    assert(0x1_9a84_fcdf_9222_35bf_c425_0717_7846_fda0nat * 0x15d_5c09_8741_6139_2178_92b9_bce5_5f46_89a2_dd05_b95f_0d00_50d8_ca81nat == 0x230_3ae3_cf3c_6e09_d0e0_dc1d_30d3_404f_43dc_1442_e090_e694_8f78_f3a8_be35_5726_2352_acb8_b8e5_e2e3_9ee6_0da0nat);
    assert(0xc35nat * 0x1000_0000_0000_0000_0000_0000_0000_0000_0000nat == 0xc3_5000_0000_0000_0000_0000_0000_0000_0000_0000nat);
    assert(0x2_db18_ea5d_c5d3_3c2e_b0c0_a89d_85e3_a7c9_54b5_ded3_fb1b_f8d1nat * 0xc3_5000_0000_0000_0000_0000_0000_0000_0000_0000nat == 0x22d_c872_4eaa_fdb8_da5f_39fc_a4ae_363f_f2ca_7101_911a_84c7_44f4_5000_0000_0000_0000_0000_0000_0000_0000_0000nat);
    lemma_near_above(
        0x3d2a_5ef2, 0xaa_5ef2, 121, 0x1000, 0xc3_5000_0000_0000_0000_0000_0000_0000_0000_0000nat, 57,
        71525, 0x1_4cca_ed77_359d,
        0x1_b09e_f8c8_cf75_c48b_9530_6249nat,
        0x45_2c59_9066_9ca1, 0x12b0_eff6_c049_6d6d_d948_5020_9d41nat,
        0x352_caba, 0xb_0b86_dbb2_0f24, 0x79_fe1b_bf39_5557_1370_a6f5_3d10nat,
        0x354_eaba, 0xb_19ab_3d48_8f24, 0x7b_374a_28bf_66a7_eadf_fc49_3d10nat,
    );
}

/// The value 0x3d30_2a07.
proof fn lemma_at_3d302a07()
    ensures
        chord_code(0x3d30_2a07, 0x3d2d_5e8d, 0x3d35_5e8d, 0x426a_1ab9, 0x426f_87c9) == 58,
{
    reveal(chord_code);
    lemma2_to64();
    lemma2_to64_rest();
    lemma_high_powers();
    assert(0xb5_5e8d * 0x1 - 0xad_5e8d * 0x1 == 0x8_0000);
    lemma_sum_known(0x3d35_5e8d, 0x3d2d_5e8d, true, 0xb5_5e8d, 121, 0xad_5e8d, 121, 0x1, 0x1, 0x8_0000, 20, 0x8_0000, 0x10);
    assert(sub_spec(0x3d35_5e8d, 0x3d2d_5e8d) == 0x3b00_0000);
    assert(0xb0_2a07 * 0x1 - 0xad_5e8d * 0x1 == 0x2_cb7a);
    lemma_sum_known(0x3d30_2a07, 0x3d2d_5e8d, true, 0xb0_2a07, 121, 0xad_5e8d, 121, 0x1, 0x1, 0x2_cb7a, 18, 0x2_0000, 0x40);
    assert(sub_spec(0x3d30_2a07, 0x3d2d_5e8d) == 0x3a32_de80);
    assert(0xef_87c9 * 0x1 - 0xea_1ab9 * 0x1 == 0x5_6d10);
    lemma_sum_known(0x426f_87c9, 0x426a_1ab9, true, 0xef_87c9, 131, 0xea_1ab9, 131, 0x1, 0x1, 0x5_6d10, 19, 0x4_0000, 0x20);
    assert(sub_spec(0x426f_87c9, 0x426a_1ab9) == 0x3fad_a200);
    assert(0xad_a200 * 0xb2_de80 == 0x7951_8d4d_0000);
    lemma_product_known(0x3fad_a200, 0x3a32_de80, 0xad_a200, 126, 0xb2_de80, 115, 0x7951_8d4d_0000, 47, 0x4000_0000_0000, 0x80_0000);
    assert(mul_spec(0x3fad_a200, 0x3a32_de80) == 0x3a72_a31b);
    assert(0xf2_a31b * 0x1_0000_0000_0000_0000 == 0x1_e546_3600_0000_0000 * 0x80_0000 + 0x0);
    lemma_quotient_known(0x3a72_a31b, 0x3b00_0000, 0xf2_a31b, 115, 0x80_0000, 117, 0x1_e546_3600_0000_0000, 0x0, 66, 0x2_0000_0000_0000_0000, 0x400_0000_0000);
    assert(div_spec(0x3a72_a31b, 0x3b00_0000) == 0x3ef2_a31b);
    assert(0xea_1ab9 * 0x80 + 0xf2_a31b * 0x1 == 0x75ff_ff9b);
    lemma_sum_known(0x426a_1ab9, 0x3ef2_a31b, false, 0xea_1ab9, 131, 0xf2_a31b, 124, 0x80, 0x1, 0x75ff_ff9b, 31, 0x4000_0000, 0x80);
    assert(add_spec(0x426a_1ab9, 0x3ef2_a31b) == 0x426b_ffff);
    lemma_whole_known(0x426b_ffff, 0xeb_ffff, 131, 0x4_0000);
}

/// The value 0x3d30_2a08.
proof fn lemma_at_3d302a08()
    ensures
        chord_code(0x3d30_2a08, 0x3d2d_5e8d, 0x3d35_5e8d, 0x426a_1ab9, 0x426f_87c9) == 59,
{
    reveal(chord_code);
    lemma2_to64();
    lemma2_to64_rest();
    lemma_high_powers();
    assert(0xb5_5e8d * 0x1 - 0xad_5e8d * 0x1 == 0x8_0000);
    lemma_sum_known(0x3d35_5e8d, 0x3d2d_5e8d, true, 0xb5_5e8d, 121, 0xad_5e8d, 121, 0x1, 0x1, 0x8_0000, 20, 0x8_0000, 0x10);
    assert(sub_spec(0x3d35_5e8d, 0x3d2d_5e8d) == 0x3b00_0000);
    assert(0xb0_2a08 * 0x1 - 0xad_5e8d * 0x1 == 0x2_cb7b);
    lemma_sum_known(0x3d30_2a08, 0x3d2d_5e8d, true, 0xb0_2a08, 121, 0xad_5e8d, 121, 0x1, 0x1, 0x2_cb7b, 18, 0x2_0000, 0x40);
    assert(sub_spec(0x3d30_2a08, 0x3d2d_5e8d) == 0x3a32_dec0);
    assert(0xef_87c9 * 0x1 - 0xea_1ab9 * 0x1 == 0x5_6d10);
    lemma_sum_known(0x426f_87c9, 0x426a_1ab9, true, 0xef_87c9, 131, 0xea_1ab9, 131, 0x1, 0x1, 0x5_6d10, 19, 0x4_0000, 0x20);
    assert(sub_spec(0x426f_87c9, 0x426a_1ab9) == 0x3fad_a200);
    assert(0xad_a200 * 0xb2_dec0 == 0x7951_b8b5_8000);
    lemma_product_known(0x3fad_a200, 0x3a32_dec0, 0xad_a200, 126, 0xb2_dec0, 115, 0x7951_b8b5_8000, 47, 0x4000_0000_0000, 0x80_0000);
    assert(mul_spec(0x3fad_a200, 0x3a32_dec0) == 0x3a72_a371);
    assert(0xf2_a371 * 0x1_0000_0000_0000_0000 == 0x1_e546_e200_0000_0000 * 0x80_0000 + 0x0);
    lemma_quotient_known(0x3a72_a371, 0x3b00_0000, 0xf2_a371, 115, 0x80_0000, 117, 0x1_e546_e200_0000_0000, 0x0, 66, 0x2_0000_0000_0000_0000, 0x400_0000_0000);
    assert(div_spec(0x3a72_a371, 0x3b00_0000) == 0x3ef2_a371);
    assert(0xea_1ab9 * 0x80 + 0xf2_a371 * 0x1 == 0x75ff_fff1);
    lemma_sum_known(0x426a_1ab9, 0x3ef2_a371, false, 0xea_1ab9, 131, 0xf2_a371, 124, 0x80, 0x1, 0x75ff_fff1, 31, 0x4000_0000, 0x80);
    assert(add_spec(0x426a_1ab9, 0x3ef2_a371) == 0x426c_0000);
    lemma_whole_known(0x426c_0000, 0xec_0000, 131, 0x4_0000);
}

/// The edge of code 58.
proof fn lemma_near_58()
    ensures
        near_exact_edge(0x3d30_2a07, 58),
{
    lemma2_to64();
    lemma2_to64_rest();
    lemma_fifth_powers_of_two();
    lemma_more_fifth_powers_of_two();
    assert(72525nat * 72525 * 72525 == 0x1_5af2_7ba4_f055);
    assert(269025nat * 269025 * 269025 == 0x45_2c59_9066_9ca1);
    assert(0x1_5af2_7ba4_f055nat * 0x1_5af2_7ba4_f055 == 0x1_d634_5be7_d934_0dea_7c87_7c39nat);
    assert(0x1_d634_5be7_d934_0dea_7c87_7c39nat * 0x1_d634_5be7_d934_0dea_7c87_7c39nat == 0x3_5fa4_4c2c_c8ba_06a3_5ea3_2f0e_011c_a3ee_c008_6a3f_7865_44b1nat);
    assert(0x45_2c59_9066_9ca1nat * 0x45_2c59_9066_9ca1 == 0x12b0_eff6_c049_6d6d_d948_5020_9d41nat);
    assert(0x12b0_eff6_c049_6d6d_d948_5020_9d41nat * 0x12b0_eff6_c049_6d6d_d948_5020_9d41nat == 0x15d_5c09_8741_6139_2178_92b9_bce5_5f46_89a2_dd05_b95f_0d00_50d8_ca81nat);
    assert(0x36f_c223nat * 0x36f_c223 == 0xb_cf56_bf93_10c9);
    assert(0xb_cf56_bf93_10c9nat * 0xb_cf56_bf93_10c9 == 0x8b_7961_ddd8_8c97_1c94_35ef_bdd1nat);
    assert(0x8b_7961_ddd8_8c97_1c94_35ef_bdd1nat * 0x36f_c223 == 0x1_df4f_8c16_7d0a_2a00_dd36_6b4f_ce3e_5593nat);
    assert(0x371_e223nat * 0x371_e223 == 0xb_ddf6_3ca7_d0c9);
    assert(0xb_ddf6_3ca7_d0c9nat * 0xb_ddf6_3ca7_d0c9 == 0x8c_d39c_47fe_50a5_642c_4885_3dd1nat);
    assert(0x8c_d39c_47fe_50a5_642c_4885_3dd1nat * 0x371_e223 == 0x1_e520_a2e4_a81f_e424_c571_5c9d_470a_f593nat);
    assert(0x1_df4f_8c16_7d0a_2a00_dd36_6b4f_ce3e_5593nat * 0x15d_5c09_8741_6139_2178_92b9_bce5_5f46_89a2_dd05_b95f_0d00_50d8_ca81nat == 0x28e_1bc4_6809_d4af_d8bd_2fe5_220a_057b_e4bf_3ac8_8473_587b_10e3_3990_31dc_49b7_a858_b5c1_0bc8_024a_40f7_1d13nat);
    assert(0x1_e520_a2e4_a81f_e424_c571_5c9d_470a_f593nat * 0x15d_5c09_8741_6139_2178_92b9_bce5_5f46_89a2_dd05_b95f_0d00_50d8_ca81nat == 0x296_0be7_dab9_355c_f75f_8429_32fc_f279_5fd2_cd4c_39ec_5bc8_dd71_78a5_93b2_7e0f_9275_f6ed_2720_9a4c_9653_bd13nat);
    assert(0xc35nat * 0x1000_0000_0000_0000_0000_0000_0000_0000_0000nat == 0xc3_5000_0000_0000_0000_0000_0000_0000_0000_0000nat);
    assert(0x3_5fa4_4c2c_c8ba_06a3_5ea3_2f0e_011c_a3ee_c008_6a3f_7865_44b1nat * 0xc3_5000_0000_0000_0000_0000_0000_0000_0000_0000nat == 0x292_e809_5dea_e46d_3084_23df_d65f_3929_d216_e26b_8f8c_8ac2_f84a_5000_0000_0000_0000_0000_0000_0000_0000_0000nat);
    lemma_near_above(
        0x3d30_2a07, 0xb0_2a07, 121, 0x1000, 0xc3_5000_0000_0000_0000_0000_0000_0000_0000_0000nat, 58,
        72525, 0x1_5af2_7ba4_f055,
        0x1_d634_5be7_d934_0dea_7c87_7c39nat,
        0x45_2c59_9066_9ca1, 0x12b0_eff6_c049_6d6d_d948_5020_9d41nat,
        0x36f_c223, 0xb_cf56_bf93_10c9, 0x8b_7961_ddd8_8c97_1c94_35ef_bdd1nat,
        0x371_e223, 0xb_ddf6_3ca7_d0c9, 0x8c_d39c_47fe_50a5_642c_4885_3dd1nat,
    );
}

/// The value 0x3d36_122a.
proof fn lemma_at_3d36122a()
    ensures
        chord_code(0x3d36_122a, 0x3d35_5e8d, 0x3d3d_5e8d, 0x426f_87c9, 0x4274_e277) == 59,
{
    reveal(chord_code);
    lemma2_to64();
    lemma2_to64_rest();
    lemma_high_powers();
    assert(0xbd_5e8d * 0x1 - 0xb5_5e8d * 0x1 == 0x8_0000);
    lemma_sum_known(0x3d3d_5e8d, 0x3d35_5e8d, true, 0xbd_5e8d, 121, 0xb5_5e8d, 121, 0x1, 0x1, 0x8_0000, 20, 0x8_0000, 0x10);
    assert(sub_spec(0x3d3d_5e8d, 0x3d35_5e8d) == 0x3b00_0000);
    assert(0xb6_122a * 0x1 - 0xb5_5e8d * 0x1 == 0xb39d);
    lemma_sum_known(0x3d36_122a, 0x3d35_5e8d, true, 0xb6_122a, 121, 0xb5_5e8d, 121, 0x1, 0x1, 0xb39d, 16, 0x8000, 0x100);
    assert(sub_spec(0x3d36_122a, 0x3d35_5e8d) == 0x3933_9d00);
    assert(0xf4_e277 * 0x1 - 0xef_87c9 * 0x1 == 0x5_5aae);
    lemma_sum_known(0x4274_e277, 0x426f_87c9, true, 0xf4_e277, 131, 0xef_87c9, 131, 0x1, 0x1, 0x5_5aae, 19, 0x4_0000, 0x20);
    assert(sub_spec(0x4274_e277, 0x426f_87c9) == 0x3fab_55c0);
    assert(0xab_55c0 * 0xb3_9d00 == 0x7836_08d6_c000);
    lemma_product_known(0x3fab_55c0, 0x3933_9d00, 0xab_55c0, 126, 0xb3_9d00, 113, 0x7836_08d6_c000, 47, 0x4000_0000_0000, 0x80_0000);
    assert(mul_spec(0x3fab_55c0, 0x3933_9d00) == 0x3970_6c12);
    assert(0xf0_6c12 * 0x1_0000_0000_0000_0000 == 0x1_e0d8_2400_0000_0000 * 0x80_0000 + 0x0);
    lemma_quotient_known(0x3970_6c12, 0x3b00_0000, 0xf0_6c12, 113, 0x80_0000, 117, 0x1_e0d8_2400_0000_0000, 0x0, 66, 0x2_0000_0000_0000_0000, 0x400_0000_0000);
    assert(div_spec(0x3970_6c12, 0x3b00_0000) == 0x3df0_6c12);
    assert(0xef_87c9 * 0x200 + 0xf0_6c12 * 0x1 == 0x1_dfff_fe12);
    lemma_sum_known(0x426f_87c9, 0x3df0_6c12, false, 0xef_87c9, 131, 0xf0_6c12, 122, 0x200, 0x1, 0x1_dfff_fe12, 33, 0x1_0000_0000, 0x200);
    assert(add_spec(0x426f_87c9, 0x3df0_6c12) == 0x426f_ffff);
    lemma_whole_known(0x426f_ffff, 0xef_ffff, 131, 0x4_0000);
}

/// The value 0x3d36_122b.
proof fn lemma_at_3d36122b()
    ensures
        chord_code(0x3d36_122b, 0x3d35_5e8d, 0x3d3d_5e8d, 0x426f_87c9, 0x4274_e277) == 60,
{
    reveal(chord_code);
    lemma2_to64();
    lemma2_to64_rest();
    lemma_high_powers();
    assert(0xbd_5e8d * 0x1 - 0xb5_5e8d * 0x1 == 0x8_0000);
    lemma_sum_known(0x3d3d_5e8d, 0x3d35_5e8d, true, 0xbd_5e8d, 121, 0xb5_5e8d, 121, 0x1, 0x1, 0x8_0000, 20, 0x8_0000, 0x10);
    assert(sub_spec(0x3d3d_5e8d, 0x3d35_5e8d) == 0x3b00_0000);
    assert(0xb6_122b * 0x1 - 0xb5_5e8d * 0x1 == 0xb39e);
    lemma_sum_known(0x3d36_122b, 0x3d35_5e8d, true, 0xb6_122b, 121, 0xb5_5e8d, 121, 0x1, 0x1, 0xb39e, 16, 0x8000, 0x100);
    assert(sub_spec(0x3d36_122b, 0x3d35_5e8d) == 0x3933_9e00);
    assert(0xf4_e277 * 0x1 - 0xef_87c9 * 0x1 == 0x5_5aae);
    lemma_sum_known(0x4274_e277, 0x426f_87c9, true, 0xf4_e277, 131, 0xef_87c9, 131, 0x1, 0x1, 0x5_5aae, 19, 0x4_0000, 0x20);
    assert(sub_spec(0x4274_e277, 0x426f_87c9) == 0x3fab_55c0);
    assert(0xab_55c0 * 0xb3_9e00 == 0x7836_b42c_8000);
    lemma_product_known(0x3fab_55c0, 0x3933_9e00, 0xab_55c0, 126, 0xb3_9e00, 113, 0x7836_b42c_8000, 47, 0x4000_0000_0000, 0x80_0000);
    assert(mul_spec(0x3fab_55c0, 0x3933_9e00) == 0x3970_6d68);
    assert(0xf0_6d68 * 0x1_0000_0000_0000_0000 == 0x1_e0da_d000_0000_0000 * 0x80_0000 + 0x0);
    lemma_quotient_known(0x3970_6d68, 0x3b00_0000, 0xf0_6d68, 113, 0x80_0000, 117, 0x1_e0da_d000_0000_0000, 0x0, 66, 0x2_0000_0000_0000_0000, 0x400_0000_0000);
    assert(div_spec(0x3970_6d68, 0x3b00_0000) == 0x3df0_6d68);
    assert(0xef_87c9 * 0x200 + 0xf0_6d68 * 0x1 == 0x1_dfff_ff68);
    lemma_sum_known(0x426f_87c9, 0x3df0_6d68, false, 0xef_87c9, 131, 0xf0_6d68, 122, 0x200, 0x1, 0x1_dfff_ff68, 33, 0x1_0000_0000, 0x200);
    assert(add_spec(0x426f_87c9, 0x3df0_6d68) == 0x4270_0000);
    lemma_whole_known(0x4270_0000, 0xf0_0000, 131, 0x4_0000);
}

/// The edge of code 59.
proof fn lemma_near_59()
    ensures
        near_exact_edge(0x3d36_122a, 59),
{
    lemma2_to64();
    lemma2_to64_rest();
    lemma_fifth_powers_of_two();
    lemma_more_fifth_powers_of_two();
    assert(73525nat * 73525 * 73525 == 0x1_697f_5ac8_ba8d);
    assert(269025nat * 269025 * 269025 == 0x45_2c59_9066_9ca1);
    assert(0x1_697f_5ac8_ba8dnat * 0x1_697f_5ac8_ba8d == 0x1_fe78_6d65_517c_8275_2841_31a9nat);
    assert(0x1_fe78_6d65_517c_8275_2841_31a9nat * 0x1_fe78_6d65_517c_8275_2841_31a9nat == 0x3_f9e4_0c86_6e67_ec02_8780_3ad1_f99e_8c6f_1613_7899_1174_2191nat);
    assert(0x45_2c59_9066_9ca1nat * 0x45_2c59_9066_9ca1 == 0x12b0_eff6_c049_6d6d_d948_5020_9d41nat);
    assert(0x12b0_eff6_c049_6d6d_d948_5020_9d41nat * 0x12b0_eff6_c049_6d6d_d948_5020_9d41nat == 0x15d_5c09_8741_6139_2178_92b9_bce5_5f46_89a2_dd05_b95f_0d00_50d8_ca81nat);
    assert(0x38d_4ad2nat * 0x38d_4ad2 == 0xc_9dbc_6d32_1444);
    assert(0xc_9dbc_6d32_1444nat * 0xc_9dbc_6d32_1444 == 0x9f_2ada_e551_e35c_daed_d42a_b210nat);
    assert(0x9f_2ada_e551_e35c_daed_d42a_b210nat * 0x38d_4ad2 == 0x2_3559_b034_b19e_199a_b7ee_b206_a54e_b120nat);
    assert(0x38f_6ad2nat * 0x38f_6ad2 == 0xc_acd9_6f2e_9444);
    assert(0xc_acd9_6f2e_9444nat * 0xc_acd9_6f2e_9444 == 0xa0_a917_5272_2adc_2854_964e_b210nat);
    assert(0xa0_a917_5272_2adc_2854_964e_b210nat * 0x38f_6ad2 == 0x2_3bfc_c3cc_c18b_6cd9_d64e_fdab_8938_b120nat);
    assert(0x2_3559_b034_b19e_199a_b7ee_b206_a54e_b120nat * 0x15d_5c09_8741_6139_2178_92b9_bce5_5f46_89a2_dd05_b95f_0d00_50d8_ca81nat == 0x303_8686_7e02_f49e_a561_c269_36ac_585f_830a_78e1_5d0e_8a30_2b7d_e306_58b9_7dd8_918e_675a_2ae3_a588_d76a_8120nat);
    assert(0x2_3bfc_c3cc_c18b_6cd9_d64e_fdab_8938_b120nat * 0x15d_5c09_8741_6139_2178_92b9_bce5_5f46_89a2_dd05_b95f_0d00_50d8_ca81nat == 0x30c_953b_0e98_b27d_6b4d_1aa5_82b7_90ac_970f_ae86_4ec5_5eb4_3899_11e3_f7b9_4c4a_66e2_ee6c_b173_4ce6_5454_8120nat);
    assert(0xc35nat * 0x1000_0000_0000_0000_0000_0000_0000_0000_0000nat == 0xc3_5000_0000_0000_0000_0000_0000_0000_0000_0000nat);
    assert(0x3_f9e4_0c86_6e67_ec02_8780_3ad1_f99e_8c6f_1613_7899_1174_2191nat * 0xc3_5000_0000_0000_0000_0000_0000_0000_0000_0000nat == 0x308_96cc_ce50_1ba9_3fae_0104_e052_c1c6_8480_87ba_f248_20e9_dbf0_5000_0000_0000_0000_0000_0000_0000_0000_0000nat);
    lemma_near_above(
        0x3d36_122a, 0xb6_122a, 121, 0x1000, 0xc3_5000_0000_0000_0000_0000_0000_0000_0000_0000nat, 59,
        73525, 0x1_697f_5ac8_ba8d,
        0x1_fe78_6d65_517c_8275_2841_31a9nat,
        0x45_2c59_9066_9ca1, 0x12b0_eff6_c049_6d6d_d948_5020_9d41nat,
        0x38d_4ad2, 0xc_9dbc_6d32_1444, 0x9f_2ada_e551_e35c_daed_d42a_b210nat,
        0x38f_6ad2, 0xc_acd9_6f2e_9444, 0xa0_a917_5272_2adc_2854_964e_b210nat,
    );
}

/// The value 0x3d3c_0c2c.
proof fn lemma_at_3d3c0c2c()
    ensures
        chord_code(0x3d3c_0c2c, 0x3d35_5e8d, 0x3d3d_5e8d, 0x426f_87c9, 0x4274_e277) == 60,
{
    reveal(chord_code);
    lemma2_to64();
    lemma2_to64_rest();
    lemma_high_powers();
    assert(0xbd_5e8d * 0x1 - 0xb5_5e8d * 0x1 == 0x8_0000);
    lemma_sum_known(0x3d3d_5e8d, 0x3d35_5e8d, true, 0xbd_5e8d, 121, 0xb5_5e8d, 121, 0x1, 0x1, 0x8_0000, 20, 0x8_0000, 0x10);
    assert(sub_spec(0x3d3d_5e8d, 0x3d35_5e8d) == 0x3b00_0000);
    assert(0xbc_0c2c * 0x1 - 0xb5_5e8d * 0x1 == 0x6_ad9f);
    lemma_sum_known(0x3d3c_0c2c, 0x3d35_5e8d, true, 0xbc_0c2c, 121, 0xb5_5e8d, 121, 0x1, 0x1, 0x6_ad9f, 19, 0x4_0000, 0x20);
    assert(sub_spec(0x3d3c_0c2c, 0x3d35_5e8d) == 0x3ad5_b3e0);
    assert(0xf4_e277 * 0x1 - 0xef_87c9 * 0x1 == 0x5_5aae);
    lemma_sum_known(0x4274_e277, 0x426f_87c9, true, 0xf4_e277, 131, 0xef_87c9, 131, 0x1, 0x1, 0x5_5aae, 19, 0x4_0000, 0x20);
    assert(sub_spec(0x4274_e277, 0x426f_87c9) == 0x3fab_55c0);
    assert(0xab_55c0 * 0xd5_b3e0 == 0x8f06_bba0_4800);
    lemma_product_known(0x3fab_55c0, 0x3ad5_b3e0, 0xab_55c0, 126, 0xd5_b3e0, 116, 0x8f06_bba0_4800, 48, 0x8000_0000_0000, 0x100_0000);
    assert(mul_spec(0x3fab_55c0, 0x3ad5_b3e0) == 0x3b0f_06bc);
    assert(0x8f_06bc * 0x1_0000_0000_0000_0000 == 0x1_1e0d_7800_0000_0000 * 0x80_0000 + 0x0);
    lemma_quotient_known(0x3b0f_06bc, 0x3b00_0000, 0x8f_06bc, 117, 0x80_0000, 117, 0x1_1e0d_7800_0000_0000, 0x0, 66, 0x2_0000_0000_0000_0000, 0x400_0000_0000);
    assert(div_spec(0x3b0f_06bc, 0x3b00_0000) == 0x3f8f_06bc);
    assert(0xef_87c9 * 0x20 + 0x8f_06bc * 0x1 == 0x1e7f_ffdc);
    lemma_sum_known(0x426f_87c9, 0x3f8f_06bc, false, 0xef_87c9, 131, 0x8f_06bc, 126, 0x20, 0x1, 0x1e7f_ffdc, 29, 0x1000_0000, 0x20);
    assert(add_spec(0x426f_87c9, 0x3f8f_06bc) == 0x4273_ffff);
    lemma_whole_known(0x4273_ffff, 0xf3_ffff, 131, 0x4_0000);
}

/// The value 0x3d3c_0c2d.
proof fn lemma_at_3d3c0c2d()
    ensures
        chord_code(0x3d3c_0c2d, 0x3d35_5e8d, 0x3d3d_5e8d, 0x426f_87c9, 0x4274_e277) == 61,
{
    reveal(chord_code);
    lemma2_to64();
    lemma2_to64_rest();
    lemma_high_powers();
    assert(0xbd_5e8d * 0x1 - 0xb5_5e8d * 0x1 == 0x8_0000);
    lemma_sum_known(0x3d3d_5e8d, 0x3d35_5e8d, true, 0xbd_5e8d, 121, 0xb5_5e8d, 121, 0x1, 0x1, 0x8_0000, 20, 0x8_0000, 0x10);
    assert(sub_spec(0x3d3d_5e8d, 0x3d35_5e8d) == 0x3b00_0000);
    assert(0xbc_0c2d * 0x1 - 0xb5_5e8d * 0x1 == 0x6_ada0);
    lemma_sum_known(0x3d3c_0c2d, 0x3d35_5e8d, true, 0xbc_0c2d, 121, 0xb5_5e8d, 121, 0x1, 0x1, 0x6_ada0, 19, 0x4_0000, 0x20);
    assert(sub_spec(0x3d3c_0c2d, 0x3d35_5e8d) == 0x3ad5_b400);
    assert(0xf4_e277 * 0x1 - 0xef_87c9 * 0x1 == 0x5_5aae);
    lemma_sum_known(0x4274_e277, 0x426f_87c9, true, 0xf4_e277, 131, 0xef_87c9, 131, 0x1, 0x1, 0x5_5aae, 19, 0x4_0000, 0x20);
    assert(sub_spec(0x4274_e277, 0x426f_87c9) == 0x3fab_55c0);
    assert(0xab_55c0 * 0xd5_b400 == 0x8f06_d10b_0000);
    lemma_product_known(0x3fab_55c0, 0x3ad5_b400, 0xab_55c0, 126, 0xd5_b400, 116, 0x8f06_d10b_0000, 48, 0x8000_0000_0000, 0x100_0000);
    assert(mul_spec(0x3fab_55c0, 0x3ad5_b400) == 0x3b0f_06d1);
    assert(0x8f_06d1 * 0x1_0000_0000_0000_0000 == 0x1_1e0d_a200_0000_0000 * 0x80_0000 + 0x0);
    lemma_quotient_known(0x3b0f_06d1, 0x3b00_0000, 0x8f_06d1, 117, 0x80_0000, 117, 0x1_1e0d_a200_0000_0000, 0x0, 66, 0x2_0000_0000_0000_0000, 0x400_0000_0000);
    assert(div_spec(0x3b0f_06d1, 0x3b00_0000) == 0x3f8f_06d1);
    assert(0xef_87c9 * 0x20 + 0x8f_06d1 * 0x1 == 0x1e7f_fff1);
    lemma_sum_known(0x426f_87c9, 0x3f8f_06d1, false, 0xef_87c9, 131, 0x8f_06d1, 126, 0x20, 0x1, 0x1e7f_fff1, 29, 0x1000_0000, 0x20);
    assert(add_spec(0x426f_87c9, 0x3f8f_06d1) == 0x4274_0000);
    lemma_whole_known(0x4274_0000, 0xf4_0000, 131, 0x4_0000);
}

/// The edge of code 60.
proof fn lemma_near_60()
    ensures
        near_exact_edge(0x3d3c_0c2c, 60),
{
    lemma2_to64();
    lemma2_to64_rest();
    lemma_fifth_powers_of_two();
    lemma_more_fifth_powers_of_two();
    assert(74525nat * 74525 * 74525 == 0x1_7872_f083_5045);
    assert(269025nat * 269025 * 269025 == 0x45_2c59_9066_9ca1);
    assert(0x1_7872_f083_5045nat * 0x1_7872_f083_5045 == 0x2_2991_d61c_d2b4_a750_9fc9_3299nat);
    assert(0x2_2991_d61c_d2b4_a750_9fc9_3299nat * 0x2_2991_d61c_d2b4_a750_9fc9_3299nat == 0x4_ad07_621c_c60b_5f04_a854_8547_a4cd_f146_eca6_c89a_8c42_1f71nat);
    assert(0x45_2c59_9066_9ca1nat * 0x45_2c59_9066_9ca1 == 0x12b0_eff6_c049_6d6d_d948_5020_9d41nat);
    assert(0x12b0_eff6_c049_6d6d_d948_5020_9d41nat * 0x12b0_eff6_c049_6d6d_d948_5020_9d41nat == 0x15d_5c09_8741_6139_2178_92b9_bce5_5f46_89a2_dd05_b95f_0d00_50d8_ca81nat);
    assert(0x3ab_2cdcnat * 0x3ab_2cdc == 0xd_7582_1dc4_5d10);
    assert(0xd_7582_1dc4_5d10nat * 0xd_7582_1dc4_5d10 == 0xb5_2527_3749_2f95_37f4_4254_a100nat);
    assert(0xb5_2527_3749_2f95_37f4_4254_a100nat * 0x3ab_2cdc == 0x2_988f_04e6_74a5_9f66_c6c9_5dba_1766_5c00nat);
    assert(0x3ad_4cdcnat * 0x3ad_4cdc == 0xd_851e_206b_5d10);
    assert(0xd_851e_206b_5d10nat * 0xd_851e_206b_5d10 == 0xb6_ca47_9c22_9f97_740a_ed34_a100nat);
    assert(0xb6_ca47_9c22_9f97_740a_ed34_a100nat * 0x3ad_4cdc == 0x2_a01c_6a5c_0329_14d7_a8c4_e243_4606_5c00nat);
    assert(0x2_988f_04e6_74a5_9f66_c6c9_5dba_1766_5c00nat * 0x15d_5c09_8741_6139_2178_92b9_bce5_5f46_89a2_dd05_b95f_0d00_50d8_ca81nat == 0x38a_e9e5_d014_2818_33d6_58c1_433a_a25e_0d07_a252_f3b9_872c_9121_d05d_02fb_381f_9b38_f97e_a26c_cc5a_2f2c_5c00nat);
    assert(0x2_a01c_6a5c_0329_14d7_a8c4_e243_4606_5c00nat * 0x15d_5c09_8741_6139_2178_92b9_bce5_5f46_89a2_dd05_b95f_0d00_50d8_ca81nat == 0x395_3860_39c3_bfee_9378_8bff_0069_cf61_0181_ccc3_92f2_de7c_bb23_f48e_8403_ee33_a474_6411_cb10_2b44_edcc_5c00nat);
    assert(0xc35nat * 0x1000_0000_0000_0000_0000_0000_0000_0000_0000nat == 0xc3_5000_0000_0000_0000_0000_0000_0000_0000_0000nat);
    assert(0x4_ad07_621c_c60b_5f04_a854_8547_a4cd_f146_eca6_c89a_8c42_1f71nat * 0xc3_5000_0000_0000_0000_0000_0000_0000_0000_0000nat == 0x391_42b2_0a93_d88c_ee3d_acfb_ef38_ec5f_246c_6cfe_ec69_2232_9ce6_5000_0000_0000_0000_0000_0000_0000_0000_0000nat);
    lemma_near_above(
        0x3d3c_0c2c, 0xbc_0c2c, 121, 0x1000, 0xc3_5000_0000_0000_0000_0000_0000_0000_0000_0000nat, 60,
        74525, 0x1_7872_f083_5045,
        0x2_2991_d61c_d2b4_a750_9fc9_3299nat,
        0x45_2c59_9066_9ca1, 0x12b0_eff6_c049_6d6d_d948_5020_9d41nat,
        0x3ab_2cdc, 0xd_7582_1dc4_5d10, 0xb5_2527_3749_2f95_37f4_4254_a100nat,
        0x3ad_4cdc, 0xd_851e_206b_5d10, 0xb6_ca47_9c22_9f97_740a_ed34_a100nat,
    );
}

/// The value 0x3d42_2723.
proof fn lemma_at_3d422723()
    ensures
        chord_code(0x3d42_2723, 0x3d3d_5e8d, 0x3d45_5e8d, 0x4274_e277, 0x427a_1842) == 61,
{
    reveal(chord_code);
    lemma2_to64();
    lemma2_to64_rest();
    lemma_high_powers();
    assert(0xc5_5e8d * 0x1 - 0xbd_5e8d * 0x1 == 0x8_0000);
    lemma_sum_known(0x3d45_5e8d, 0x3d3d_5e8d, true, 0xc5_5e8d, 121, 0xbd_5e8d, 121, 0x1, 0x1, 0x8_0000, 20, 0x8_0000, 0x10);
    assert(sub_spec(0x3d45_5e8d, 0x3d3d_5e8d) == 0x3b00_0000);
    assert(0xc2_2723 * 0x1 - 0xbd_5e8d * 0x1 == 0x4_c896);
    lemma_sum_known(0x3d42_2723, 0x3d3d_5e8d, true, 0xc2_2723, 121, 0xbd_5e8d, 121, 0x1, 0x1, 0x4_c896, 19, 0x4_0000, 0x20);
    assert(sub_spec(0x3d42_2723, 0x3d3d_5e8d) == 0x3a99_12c0);
    assert(0xfa_1842 * 0x1 - 0xf4_e277 * 0x1 == 0x5_35cb);
    lemma_sum_known(0x427a_1842, 0x4274_e277, true, 0xfa_1842, 131, 0xf4_e277, 131, 0x1, 0x1, 0x5_35cb, 19, 0x4_0000, 0x20);
    assert(sub_spec(0x427a_1842, 0x4274_e277) == 0x3fa6_b960);
    assert(0xa6_b960 * 0x99_12c0 == 0x63b1_0073_c800);
    lemma_product_known(0x3fa6_b960, 0x3a99_12c0, 0xa6_b960, 126, 0x99_12c0, 116, 0x63b1_0073_c800, 47, 0x4000_0000_0000, 0x80_0000);
    assert(mul_spec(0x3fa6_b960, 0x3a99_12c0) == 0x3ac7_6201);
    assert(0xc7_6201 * 0x1_0000_0000_0000_0000 == 0x1_8ec4_0200_0000_0000 * 0x80_0000 + 0x0);
    lemma_quotient_known(0x3ac7_6201, 0x3b00_0000, 0xc7_6201, 116, 0x80_0000, 117, 0x1_8ec4_0200_0000_0000, 0x0, 66, 0x2_0000_0000_0000_0000, 0x400_0000_0000);
    assert(div_spec(0x3ac7_6201, 0x3b00_0000) == 0x3f47_6201);
    assert(0xf4_e277 * 0x40 + 0xc7_6201 * 0x1 == 0x3dff_ffc1);
    lemma_sum_known(0x4274_e277, 0x3f47_6201, false, 0xf4_e277, 131, 0xc7_6201, 125, 0x40, 0x1, 0x3dff_ffc1, 30, 0x2000_0000, 0x40);
    assert(add_spec(0x4274_e277, 0x3f47_6201) == 0x4277_ffff);
    lemma_whole_known(0x4277_ffff, 0xf7_ffff, 131, 0x4_0000);
}

/// The value 0x3d42_2724.
proof fn lemma_at_3d422724()
    ensures
        chord_code(0x3d42_2724, 0x3d3d_5e8d, 0x3d45_5e8d, 0x4274_e277, 0x427a_1842) == 62,
{
    reveal(chord_code);
    lemma2_to64();
    lemma2_to64_rest();
    lemma_high_powers();
    assert(0xc5_5e8d * 0x1 - 0xbd_5e8d * 0x1 == 0x8_0000);
    lemma_sum_known(0x3d45_5e8d, 0x3d3d_5e8d, true, 0xc5_5e8d, 121, 0xbd_5e8d, 121, 0x1, 0x1, 0x8_0000, 20, 0x8_0000, 0x10);
    assert(sub_spec(0x3d45_5e8d, 0x3d3d_5e8d) == 0x3b00_0000);
    assert(0xc2_2724 * 0x1 - 0xbd_5e8d * 0x1 == 0x4_c897);
    lemma_sum_known(0x3d42_2724, 0x3d3d_5e8d, true, 0xc2_2724, 121, 0xbd_5e8d, 121, 0x1, 0x1, 0x4_c897, 19, 0x4_0000, 0x20);
    assert(sub_spec(0x3d42_2724, 0x3d3d_5e8d) == 0x3a99_12e0);
    assert(0xfa_1842 * 0x1 - 0xf4_e277 * 0x1 == 0x5_35cb);
    lemma_sum_known(0x427a_1842, 0x4274_e277, true, 0xfa_1842, 131, 0xf4_e277, 131, 0x1, 0x1, 0x5_35cb, 19, 0x4_0000, 0x20);
    assert(sub_spec(0x427a_1842, 0x4274_e277) == 0x3fa6_b960);
    assert(0xa6_b960 * 0x99_12e0 == 0x63b1_154a_f400);
    lemma_product_known(0x3fa6_b960, 0x3a99_12e0, 0xa6_b960, 126, 0x99_12e0, 116, 0x63b1_154a_f400, 47, 0x4000_0000_0000, 0x80_0000);
    assert(mul_spec(0x3fa6_b960, 0x3a99_12e0) == 0x3ac7_622b);
    assert(0xc7_622b * 0x1_0000_0000_0000_0000 == 0x1_8ec4_5600_0000_0000 * 0x80_0000 + 0x0);
    lemma_quotient_known(0x3ac7_622b, 0x3b00_0000, 0xc7_622b, 116, 0x80_0000, 117, 0x1_8ec4_5600_0000_0000, 0x0, 66, 0x2_0000_0000_0000_0000, 0x400_0000_0000);
    assert(div_spec(0x3ac7_622b, 0x3b00_0000) == 0x3f47_622b);
    assert(0xf4_e277 * 0x40 + 0xc7_622b * 0x1 == 0x3dff_ffeb);
    lemma_sum_known(0x4274_e277, 0x3f47_622b, false, 0xf4_e277, 131, 0xc7_622b, 125, 0x40, 0x1, 0x3dff_ffeb, 30, 0x2000_0000, 0x40);
    assert(add_spec(0x4274_e277, 0x3f47_622b) == 0x4278_0000);
    lemma_whole_known(0x4278_0000, 0xf8_0000, 131, 0x4_0000);
}

/// The edge of code 61.
proof fn lemma_near_61()
    ensures
        near_exact_edge(0x3d42_2723, 61),
{
    lemma2_to64();
    lemma2_to64_rest();
    lemma_fifth_powers_of_two();
    lemma_more_fifth_powers_of_two();
    assert(75525nat * 75525 * 75525 == 0x1_87ce_a275_6d7d);
    assert(269025nat * 269025 * 269025 == 0x45_2c59_9066_9ca1);
    assert(0x1_87ce_a275_6d7dnat * 0x1_87ce_a275_6d7d == 0x2_57a8_db0c_9088_df9b_7715_af09nat);
    assert(0x2_57a8_db0c_9088_df9b_7715_af09nat * 0x2_57a8_db0c_9088_df9b_7715_af09nat == 0x5_7ca7_a075_084c_b9f7_1056_fea1_5bc8_f2ad_4c28_cd76_8d27_4e51nat);
    assert(0x45_2c59_9066_9ca1nat * 0x45_2c59_9066_9ca1 == 0x12b0_eff6_c049_6d6d_d948_5020_9d41nat);
    assert(0x12b0_eff6_c049_6d6d_d948_5020_9d41nat * 0x12b0_eff6_c049_6d6d_d948_5020_9d41nat == 0x15d_5c09_8741_6139_2178_92b9_bce5_5f46_89a2_dd05_b95f_0d00_50d8_ca81nat);
    assert(0x3c9_b3afnat * 0x3c9_b3af == 0xe_5921_c0ec_31a1);
    assert(0xe_5921_c0ec_31a1nat * 0xe_5921_c0ec_31a1 == 0xcd_deb9_966c_f665_e1df_0a77_0741nat);
    assert(0xcd_deb9_966c_f665_e1df_0a77_0741nat * 0x3c9_b3af == 0x3_0bd0_8bf1_677c_ac69_a1d2_f853_d679_686fnat);
    assert(0x3cb_d3afnat * 0x3cb_d3af == 0xe_693f_8093_f1a1);
    assert(0xe_693f_8093_f1a1nat * 0xe_693f_8093_f1a1 == 0xcf_ae37_3768_5337_465e_62f6_8741nat);
    assert(0xcf_ae37_3768_5337_465e_62f6_8741nat * 0x3cb_d3af == 0x3_1465_85fe_c31d_7f8f_59ca_4329_db8c_086fnat);
    assert(0x3_0bd0_8bf1_677c_ac69_a1d2_f853_d679_686fnat * 0x15d_5c09_8741_6139_2178_92b9_bce5_5f46_89a2_dd05_b95f_0d00_50d8_ca81nat == 0x428_33aa_c0bb_e38c_5fa2_73c3_3f9f_3e93_d289_adf1_dcea_6259_f522_f8da_9b01_d231_f20c_251b_df82_d38d_ad3d_35efnat);
    assert(0x3_1465_85fe_c31d_7f8f_59ca_4329_db8c_086fnat * 0x15d_5c09_8741_6139_2178_92b9_bce5_5f46_89a2_dd05_b95f_0d00_50d8_ca81nat == 0x433_e9d9_8094_2625_2457_4930_930e_3947_418a_f771_d1b3_2390_e1ba_dd0e_cf00_f911_6163_241c_0c76_831d_eddf_d5efnat);
    assert(0xc35nat * 0x1000_0000_0000_0000_0000_0000_0000_0000_0000nat == 0xc3_5000_0000_0000_0000_0000_0000_0000_0000_0000nat);
    assert(0x5_7ca7_a075_084c_b9f7_1056_fea1_5bc8_f2ad_4c28_cd76_8d27_4e51nat * 0xc3_5000_0000_0000_0000_0000_0000_0000_0000_0000nat == 0x42f_aaa3_9b49_e509_a14e_a75f_247b_56bf_a5d7_2ae1_4182_910c_f02c_5000_0000_0000_0000_0000_0000_0000_0000_0000nat);
    lemma_near_above(
        0x3d42_2723, 0xc2_2723, 121, 0x1000, 0xc3_5000_0000_0000_0000_0000_0000_0000_0000_0000nat, 61,
        75525, 0x1_87ce_a275_6d7d,
        0x2_57a8_db0c_9088_df9b_7715_af09nat,
        0x45_2c59_9066_9ca1, 0x12b0_eff6_c049_6d6d_d948_5020_9d41nat,
        0x3c9_b3af, 0xe_5921_c0ec_31a1, 0xcd_deb9_966c_f665_e1df_0a77_0741nat,
        0x3cb_d3af, 0xe_693f_8093_f1a1, 0xcf_ae37_3768_5337_465e_62f6_8741nat,
    );
}

/// The value 0x3d48_6372.
proof fn lemma_at_3d486372()
    ensures
        chord_code(0x3d48_6372, 0x3d45_5e8d, 0x3d4d_5e8d, 0x427a_1842, 0x427f_24a9) == 62,
{
    reveal(chord_code);
    lemma2_to64();
    lemma2_to64_rest();
    lemma_high_powers();
    assert(0xcd_5e8d * 0x1 - 0xc5_5e8d * 0x1 == 0x8_0000);
    lemma_sum_known(0x3d4d_5e8d, 0x3d45_5e8d, true, 0xcd_5e8d, 121, 0xc5_5e8d, 121, 0x1, 0x1, 0x8_0000, 20, 0x8_0000, 0x10);
    assert(sub_spec(0x3d4d_5e8d, 0x3d45_5e8d) == 0x3b00_0000);
    assert(0xc8_6372 * 0x1 - 0xc5_5e8d * 0x1 == 0x3_04e5);
    lemma_sum_known(0x3d48_6372, 0x3d45_5e8d, true, 0xc8_6372, 121, 0xc5_5e8d, 121, 0x1, 0x1, 0x3_04e5, 18, 0x2_0000, 0x40);
    assert(sub_spec(0x3d48_6372, 0x3d45_5e8d) == 0x3a41_3940);
    assert(0xff_24a9 * 0x1 - 0xfa_1842 * 0x1 == 0x5_0c67);
    lemma_sum_known(0x427f_24a9, 0x427a_1842, true, 0xff_24a9, 131, 0xfa_1842, 131, 0x1, 0x1, 0x5_0c67, 19, 0x4_0000, 0x20);
    assert(sub_spec(0x427f_24a9, 0x427a_1842) == 0x3fa1_8ce0);
    assert(0xa1_8ce0 * 0xc1_3940 == 0x79ef_55a1_1800);
    lemma_product_known(0x3fa1_8ce0, 0x3a41_3940, 0xa1_8ce0, 126, 0xc1_3940, 115, 0x79ef_55a1_1800, 47, 0x4000_0000_0000, 0x80_0000);
    assert(mul_spec(0x3fa1_8ce0, 0x3a41_3940) == 0x3a73_deab);
    assert(0xf3_deab * 0x1_0000_0000_0000_0000 == 0x1_e7bd_5600_0000_0000 * 0x80_0000 + 0x0);
    lemma_quotient_known(0x3a73_deab, 0x3b00_0000, 0xf3_deab, 115, 0x80_0000, 117, 0x1_e7bd_5600_0000_0000, 0x0, 66, 0x2_0000_0000_0000_0000, 0x400_0000_0000);
    assert(div_spec(0x3a73_deab, 0x3b00_0000) == 0x3ef3_deab);
    assert(0xfa_1842 * 0x80 + 0xf3_deab * 0x1 == 0x7dff_ffab);
    lemma_sum_known(0x427a_1842, 0x3ef3_deab, false, 0xfa_1842, 131, 0xf3_deab, 124, 0x80, 0x1, 0x7dff_ffab, 31, 0x4000_0000, 0x80);
    assert(add_spec(0x427a_1842, 0x3ef3_deab) == 0x427b_ffff);
    lemma_whole_known(0x427b_ffff, 0xfb_ffff, 131, 0x4_0000);
}

/// The value 0x3d48_6373.
proof fn lemma_at_3d486373()
    ensures
        chord_code(0x3d48_6373, 0x3d45_5e8d, 0x3d4d_5e8d, 0x427a_1842, 0x427f_24a9) == 63,
{
    reveal(chord_code);
    lemma2_to64();
    lemma2_to64_rest();
    lemma_high_powers();
    assert(0xcd_5e8d * 0x1 - 0xc5_5e8d * 0x1 == 0x8_0000);
    lemma_sum_known(0x3d4d_5e8d, 0x3d45_5e8d, true, 0xcd_5e8d, 121, 0xc5_5e8d, 121, 0x1, 0x1, 0x8_0000, 20, 0x8_0000, 0x10);
    assert(sub_spec(0x3d4d_5e8d, 0x3d45_5e8d) == 0x3b00_0000);
    assert(0xc8_6373 * 0x1 - 0xc5_5e8d * 0x1 == 0x3_04e6);
    lemma_sum_known(0x3d48_6373, 0x3d45_5e8d, true, 0xc8_6373, 121, 0xc5_5e8d, 121, 0x1, 0x1, 0x3_04e6, 18, 0x2_0000, 0x40);
    assert(sub_spec(0x3d48_6373, 0x3d45_5e8d) == 0x3a41_3980);
    assert(0xff_24a9 * 0x1 - 0xfa_1842 * 0x1 == 0x5_0c67);
    lemma_sum_known(0x427f_24a9, 0x427a_1842, true, 0xff_24a9, 131, 0xfa_1842, 131, 0x1, 0x1, 0x5_0c67, 19, 0x4_0000, 0x20);
    assert(sub_spec(0x427f_24a9, 0x427a_1842) == 0x3fa1_8ce0);
    assert(0xa1_8ce0 * 0xc1_3980 == 0x79ef_7e04_5000);
    lemma_product_known(0x3fa1_8ce0, 0x3a41_3980, 0xa1_8ce0, 126, 0xc1_3980, 115, 0x79ef_7e04_5000, 47, 0x4000_0000_0000, 0x80_0000);
    assert(mul_spec(0x3fa1_8ce0, 0x3a41_3980) == 0x3a73_defc);
    assert(0xf3_defc * 0x1_0000_0000_0000_0000 == 0x1_e7bd_f800_0000_0000 * 0x80_0000 + 0x0);
    lemma_quotient_known(0x3a73_defc, 0x3b00_0000, 0xf3_defc, 115, 0x80_0000, 117, 0x1_e7bd_f800_0000_0000, 0x0, 66, 0x2_0000_0000_0000_0000, 0x400_0000_0000);
    assert(div_spec(0x3a73_defc, 0x3b00_0000) == 0x3ef3_defc);
    assert(0xfa_1842 * 0x80 + 0xf3_defc * 0x1 == 0x7dff_fffc);
    lemma_sum_known(0x427a_1842, 0x3ef3_defc, false, 0xfa_1842, 131, 0xf3_defc, 124, 0x80, 0x1, 0x7dff_fffc, 31, 0x4000_0000, 0x80);
    assert(add_spec(0x427a_1842, 0x3ef3_defc) == 0x427c_0000);
    lemma_whole_known(0x427c_0000, 0xfc_0000, 131, 0x4_0000);
}

/// The edge of code 62.
proof fn lemma_near_62()
    ensures
        near_exact_edge(0x3d48_6372, 62),
{
    lemma2_to64();
    lemma2_to64_rest();
    lemma_fifth_powers_of_two();
    lemma_more_fifth_powers_of_two();
    assert(76525nat * 76525 * 76525 == 0x1_9793_d63f_ce35);
    assert(269025nat * 269025 * 269025 == 0x45_2c59_9066_9ca1);
    assert(0x1_9793_d63f_ce35nat * 0x1_9793_d63f_ce35 == 0x2_88e7_689e_a242_1385_c02f_56f9nat);
    assert(0x2_88e7_689e_a242_1385_c02f_56f9nat * 0x2_88e7_689e_a242_1385_c02f_56f9nat == 0x6_6cd4_52d1_0e78_9c36_b894_f4be_9027_ce40_44c4_5ff0_8cfa_3e31nat);
    assert(0x45_2c59_9066_9ca1nat * 0x45_2c59_9066_9ca1 == 0x12b0_eff6_c049_6d6d_d948_5020_9d41nat);
    assert(0x12b0_eff6_c049_6d6d_d948_5020_9d41nat * 0x12b0_eff6_c049_6d6d_d948_5020_9d41nat == 0x15d_5c09_8741_6139_2178_92b9_bce5_5f46_89a2_dd05_b95f_0d00_50d8_ca81nat);
    assert(0x3e8_e13anat * 0x3e8_e13a == 0xf_4920_5b47_0124);
    assert(0xf_4920_5b47_0124nat * 0xf_4920_5b47_0124 == 0xe9_a6ae_2a77_932a_5f81_39f9_4d10nat);
    assert(0xe9_a6ae_2a77_932a_5f81_39f9_4d10nat * 0x3e8_e13a == 0x3_9180_a8c4_b9df_94f4_a654_ad10_45b6_85a0nat);
    assert(0x3eb_013anat * 0x3eb_013a == 0xf_59c2_9c7d_8124);
    assert(0xf_59c2_9c7d_8124nat * 0xf_59c2_9c7d_8124 == 0xeb_a447_3b75_f3e3_f57b_3e4d_4d10nat);
    assert(0xeb_a447_3b75_f3e3_f57b_3e4d_4d10nat * 0x3eb_013a == 0x3_9b3d_c41d_7681_7ccf_ef78_3207_5880_85a0nat);
    assert(0x3_9180_a8c4_b9df_94f4_a654_ad10_45b6_85a0nat * 0x15d_5c09_8741_6139_2178_92b9_bce5_5f46_89a2_dd05_b95f_0d00_50d8_ca81nat == 0x4de_a4d2_5102_2d1d_28ea_f6ff_c6dc_cbe5_eff4_86b6_f973_f8fc_af69_97df_8ae8_7230_9cfa_3d04_37e7_07f7_e569_95a0nat);
    assert(0x3_9b3d_c41d_7681_7ccf_ef78_3207_5880_85a0nat * 0x15d_5c09_8741_6139_2178_92b9_bce5_5f46_89a2_dd05_b95f_0d00_50d8_ca81nat == 0x4eb_ef20_eb9a_65e1_a0a0_94c6_693a_27c0_146f_f62e_59cd_8701_7331_c42d_c1b8_d3ab_055a_68a9_c20e_f7bb_c133_95a0nat);
    assert(0xc35nat * 0x1000_0000_0000_0000_0000_0000_0000_0000_0000nat == 0xc3_5000_0000_0000_0000_0000_0000_0000_0000_0000nat);
    assert(0x6_6cd4_52d1_0e78_9c36_b894_f4be_9027_ce40_44c4_5ff0_8cfa_3e31nat * 0xc3_5000_0000_0000_0000_0000_0000_0000_0000_0000nat == 0x4e6_e7bd_6f1f_5a64_ae7f_b324_f9a3_5b5e_8b68_7712_7236_8eab_92c2_5000_0000_0000_0000_0000_0000_0000_0000_0000nat);
    lemma_near_above(
        0x3d48_6372, 0xc8_6372, 121, 0x1000, 0xc3_5000_0000_0000_0000_0000_0000_0000_0000_0000nat, 62,
        76525, 0x1_9793_d63f_ce35,
        0x2_88e7_689e_a242_1385_c02f_56f9nat,
        0x45_2c59_9066_9ca1, 0x12b0_eff6_c049_6d6d_d948_5020_9d41nat,
        0x3e8_e13a, 0xf_4920_5b47_0124, 0xe9_a6ae_2a77_932a_5f81_39f9_4d10nat,
        0x3eb_013a, 0xf_59c2_9c7d_8124, 0xeb_a447_3b75_f3e3_f57b_3e4d_4d10nat,
    );
}

/// The value 0x3d4e_bcb2.
proof fn lemma_at_3d4ebcb2()
    ensures
        chord_code(0x3d4e_bcb2, 0x3d4d_5e8d, 0x3d55_5e8d, 0x427f_24a9, 0x4282_13c9) == 63,
{
    reveal(chord_code);
    lemma2_to64();
    lemma2_to64_rest();
    lemma_high_powers();
    assert(0xd5_5e8d * 0x1 - 0xcd_5e8d * 0x1 == 0x8_0000);
    lemma_sum_known(0x3d55_5e8d, 0x3d4d_5e8d, true, 0xd5_5e8d, 121, 0xcd_5e8d, 121, 0x1, 0x1, 0x8_0000, 20, 0x8_0000, 0x10);
    assert(sub_spec(0x3d55_5e8d, 0x3d4d_5e8d) == 0x3b00_0000);
    assert(0xce_bcb2 * 0x1 - 0xcd_5e8d * 0x1 == 0x1_5e25);
    lemma_sum_known(0x3d4e_bcb2, 0x3d4d_5e8d, true, 0xce_bcb2, 121, 0xcd_5e8d, 121, 0x1, 0x1, 0x1_5e25, 17, 0x1_0000, 0x80);
    assert(sub_spec(0x3d4e_bcb2, 0x3d4d_5e8d) == 0x39af_1280);
    assert(0x82_13c9 * 0x2 - 0xff_24a9 * 0x1 == 0x5_02e9);
    lemma_sum_known(0x4282_13c9, 0x427f_24a9, true, 0x82_13c9, 132, 0xff_24a9, 131, 0x2, 0x1, 0x5_02e9, 19, 0x4_0000, 0x20);
    assert(sub_spec(0x4282_13c9, 0x427f_24a9) == 0x3fa0_5d20);
    assert(0xa0_5d20 * 0xaf_1280 == 0x6dab_3f9a_d000);
    lemma_product_known(0x3fa0_5d20, 0x39af_1280, 0xa0_5d20, 126, 0xaf_1280, 114, 0x6dab_3f9a_d000, 47, 0x4000_0000_0000, 0x80_0000);
    assert(mul_spec(0x3fa0_5d20, 0x39af_1280) == 0x39db_567f);
    assert(0xdb_567f * 0x1_0000_0000_0000_0000 == 0x1_b6ac_fe00_0000_0000 * 0x80_0000 + 0x0);
    lemma_quotient_known(0x39db_567f, 0x3b00_0000, 0xdb_567f, 114, 0x80_0000, 117, 0x1_b6ac_fe00_0000_0000, 0x0, 66, 0x2_0000_0000_0000_0000, 0x400_0000_0000);
    assert(div_spec(0x39db_567f, 0x3b00_0000) == 0x3e5b_567f);
    assert(0xff_24a9 * 0x100 + 0xdb_567f * 0x1 == 0xffff_ff7f);
    lemma_sum_known(0x427f_24a9, 0x3e5b_567f, false, 0xff_24a9, 131, 0xdb_567f, 123, 0x100, 0x1, 0xffff_ff7f, 32, 0x8000_0000, 0x100);
    assert(add_spec(0x427f_24a9, 0x3e5b_567f) == 0x427f_ffff);
    lemma_whole_known(0x427f_ffff, 0xff_ffff, 131, 0x4_0000);
}

/// The value 0x3d4e_bcb3.
proof fn lemma_at_3d4ebcb3()
    ensures
        chord_code(0x3d4e_bcb3, 0x3d4d_5e8d, 0x3d55_5e8d, 0x427f_24a9, 0x4282_13c9) == 64,
{
    reveal(chord_code);
    lemma2_to64();
    lemma2_to64_rest();
    lemma_high_powers();
    assert(0xd5_5e8d * 0x1 - 0xcd_5e8d * 0x1 == 0x8_0000);
    lemma_sum_known(0x3d55_5e8d, 0x3d4d_5e8d, true, 0xd5_5e8d, 121, 0xcd_5e8d, 121, 0x1, 0x1, 0x8_0000, 20, 0x8_0000, 0x10);
    assert(sub_spec(0x3d55_5e8d, 0x3d4d_5e8d) == 0x3b00_0000);
    assert(0xce_bcb3 * 0x1 - 0xcd_5e8d * 0x1 == 0x1_5e26);
    lemma_sum_known(0x3d4e_bcb3, 0x3d4d_5e8d, true, 0xce_bcb3, 121, 0xcd_5e8d, 121, 0x1, 0x1, 0x1_5e26, 17, 0x1_0000, 0x80);
    assert(sub_spec(0x3d4e_bcb3, 0x3d4d_5e8d) == 0x39af_1300);
    assert(0x82_13c9 * 0x2 - 0xff_24a9 * 0x1 == 0x5_02e9);
    lemma_sum_known(0x4282_13c9, 0x427f_24a9, true, 0x82_13c9, 132, 0xff_24a9, 131, 0x2, 0x1, 0x5_02e9, 19, 0x4_0000, 0x20);
    assert(sub_spec(0x4282_13c9, 0x427f_24a9) == 0x3fa0_5d20);
    assert(0xa0_5d20 * 0xaf_1300 == 0x6dab_8fc9_6000);
    lemma_product_known(0x3fa0_5d20, 0x39af_1300, 0xa0_5d20, 126, 0xaf_1300, 114, 0x6dab_8fc9_6000, 47, 0x4000_0000_0000, 0x80_0000);
    assert(mul_spec(0x3fa0_5d20, 0x39af_1300) == 0x39db_5720);
    assert(0xdb_5720 * 0x1_0000_0000_0000_0000 == 0x1_b6ae_4000_0000_0000 * 0x80_0000 + 0x0);
    lemma_quotient_known(0x39db_5720, 0x3b00_0000, 0xdb_5720, 114, 0x80_0000, 117, 0x1_b6ae_4000_0000_0000, 0x0, 66, 0x2_0000_0000_0000_0000, 0x400_0000_0000);
    assert(div_spec(0x39db_5720, 0x3b00_0000) == 0x3e5b_5720);
    assert(0xff_24a9 * 0x100 + 0xdb_5720 * 0x1 == 0x1_0000_0020);
    lemma_sum_known(0x427f_24a9, 0x3e5b_5720, false, 0xff_24a9, 131, 0xdb_5720, 123, 0x100, 0x1, 0x1_0000_0020, 33, 0x1_0000_0000, 0x200);
    assert(add_spec(0x427f_24a9, 0x3e5b_5720) == 0x4280_0000);
    lemma_whole_known(0x4280_0000, 0x80_0000, 132, 0x2_0000);
}

/// The edge of code 63.
proof fn lemma_near_63()
    ensures
        near_exact_edge(0x3d4e_bcb2, 63),
{
    lemma2_to64();
    lemma2_to64_rest();
    lemma_fifth_powers_of_two();
    lemma_more_fifth_powers_of_two();
    assert(77525nat * 77525 * 77525 == 0x1_a7c3_f183_2e6d);
    assert(269025nat * 269025 * 269025 == 0x45_2c59_9066_9ca1);
    assert(0x1_a7c3_f183_2e6dnat * 0x1_a7c3_f183_2e6d == 0x2_bd79_1e19_551d_30af_c5f9_5a69nat);
    assert(0x2_bd79_1e19_551d_30af_c5f9_5a69nat * 0x2_bd79_1e19_551d_30af_c5f9_5a69nat == 0x7_8220_8824_339e_44af_3bc9_d93e_67b3_17f7_fbb4_b394_9a2f_ff11nat);
    assert(0x45_2c59_9066_9ca1nat * 0x45_2c59_9066_9ca1 == 0x12b0_eff6_c049_6d6d_d948_5020_9d41nat);
    assert(0x12b0_eff6_c049_6d6d_d948_5020_9d41nat * 0x12b0_eff6_c049_6d6d_d948_5020_9d41nat == 0x15d_5c09_8741_6139_2178_92b9_bce5_5f46_89a2_dd05_b95f_0d00_50d8_ca81nat);
    assert(0x408_9f7anat * 0x408_9f7a == 0x10_4546_2af8_c624);
    assert(0x10_4546_2af8_c624nat * 0x10_4546_2af8_c624 == 0x108_bb84_457e_6692_5674_4f1b_b510nat);
    assert(0x108_bb84_457e_6692_5674_4f1b_b510nat * 0x408_9f7a == 0x4_2bd8_d7d8_a9c0_1dde_4a4e_5841_d129_39a0nat);
    assert(0x40a_bf7anat * 0x40a_bf7a == 0x10_566f_54bf_4624);
    assert(0x10_566f_54bf_4624nat * 0x10_566f_54bf_4624 == 0x10a_eb19_9543_e18d_1829_5cef_b510nat);
    assert(0x10a_eb19_9543_e18d_1829_5cef_b510nat * 0x40a_bf7a == 0x4_36e1_39f1_04bb_cb85_5955_c03e_74f3_39a0nat);
    assert(0x4_2bd8_d7d8_a9c0_1dde_4a4e_5841_d129_39a0nat * 0x15d_5c09_8741_6139_2178_92b9_bce5_5f46_89a2_dd05_b95f_0d00_50d8_ca81nat == 0x5b1_4687_eec0_eff5_42be_b2eb_0619_dcf5_dccf_0035_b730_777f_008c_2558_333b_90b4_db03_a204_6650_e4ff_8c3e_49a0nat);
    assert(0x4_36e1_39f1_04bb_cb85_5955_c03e_74f3_39a0nat * 0x15d_5c09_8741_6139_2178_92b9_bce5_5f46_89a2_dd05_b95f_0d00_50d8_ca81nat == 0x5c0_54ed_1655_69ab_0863_7f8f_b19e_3330_00de_5665_0209_3b30_c241_1d70_2430_ec35_22da_8a14_c372_f6fb_7908_49a0nat);
    assert(0xc35nat * 0x1000_0000_0000_0000_0000_0000_0000_0000_0000nat == 0xc3_5000_0000_0000_0000_0000_0000_0000_0000_0000nat);
    assert(0x7_8220_8824_339e_44af_3bc9_d93e_67b3_17f7_fbb4_b394_9a2f_ff11nat * 0xc3_5000_0000_0000_0000_0000_0000_0000_0000_0000nat == 0x5ba_7771_de1e_a1af_c6f1_4d6f_8e6c_7dd3_3962_394d_424f_e2be_49a8_5000_0000_0000_0000_0000_0000_0000_0000_0000nat);
    lemma_near_above(
        0x3d4e_bcb2, 0xce_bcb2, 121, 0x1000, 0xc3_5000_0000_0000_0000_0000_0000_0000_0000_0000nat, 63,
        77525, 0x1_a7c3_f183_2e6d,
        0x2_bd79_1e19_551d_30af_c5f9_5a69nat,
        0x45_2c59_9066_9ca1, 0x12b0_eff6_c049_6d6d_d948_5020_9d41nat,
        0x408_9f7a, 0x10_4546_2af8_c624, 0x108_bb84_457e_6692_5674_4f1b_b510nat,
        0x40a_bf7a, 0x10_566f_54bf_4624, 0x10a_eb19_9543_e18d_1829_5cef_b510nat,
    );
}

/// The value 0x3d55_1f60.
proof fn lemma_at_3d551f60()
    ensures
        chord_code(0x3d55_1f60, 0x3d4d_5e8d, 0x3d55_5e8d, 0x427f_24a9, 0x4282_13c9) == 64,
{
    reveal(chord_code);
    lemma2_to64();
    lemma2_to64_rest();
    lemma_high_powers();
    assert(0xd5_5e8d * 0x1 - 0xcd_5e8d * 0x1 == 0x8_0000);
    lemma_sum_known(0x3d55_5e8d, 0x3d4d_5e8d, true, 0xd5_5e8d, 121, 0xcd_5e8d, 121, 0x1, 0x1, 0x8_0000, 20, 0x8_0000, 0x10);
    assert(sub_spec(0x3d55_5e8d, 0x3d4d_5e8d) == 0x3b00_0000);
    assert(0xd5_1f60 * 0x1 - 0xcd_5e8d * 0x1 == 0x7_c0d3);
    lemma_sum_known(0x3d55_1f60, 0x3d4d_5e8d, true, 0xd5_1f60, 121, 0xcd_5e8d, 121, 0x1, 0x1, 0x7_c0d3, 19, 0x4_0000, 0x20);
    assert(sub_spec(0x3d55_1f60, 0x3d4d_5e8d) == 0x3af8_1a60);
    assert(0x82_13c9 * 0x2 - 0xff_24a9 * 0x1 == 0x5_02e9);
    lemma_sum_known(0x4282_13c9, 0x427f_24a9, true, 0x82_13c9, 132, 0xff_24a9, 131, 0x2, 0x1, 0x5_02e9, 19, 0x4_0000, 0x20);
    assert(sub_spec(0x4282_13c9, 0x427f_24a9) == 0x3fa0_5d20);
    assert(0xa0_5d20 * 0xf8_1a60 == 0x9b6a_bc98_2c00);
    lemma_product_known(0x3fa0_5d20, 0x3af8_1a60, 0xa0_5d20, 126, 0xf8_1a60, 116, 0x9b6a_bc98_2c00, 48, 0x8000_0000_0000, 0x100_0000);
    assert(mul_spec(0x3fa0_5d20, 0x3af8_1a60) == 0x3b1b_6abd);
    assert(0x9b_6abd * 0x1_0000_0000_0000_0000 == 0x1_36d5_7a00_0000_0000 * 0x80_0000 + 0x0);
    lemma_quotient_known(0x3b1b_6abd, 0x3b00_0000, 0x9b_6abd, 117, 0x80_0000, 117, 0x1_36d5_7a00_0000_0000, 0x0, 66, 0x2_0000_0000_0000_0000, 0x400_0000_0000);
    assert(div_spec(0x3b1b_6abd, 0x3b00_0000) == 0x3f9b_6abd);
    assert(0xff_24a9 * 0x20 + 0x9b_6abd * 0x1 == 0x207f_ffdd);
    lemma_sum_known(0x427f_24a9, 0x3f9b_6abd, false, 0xff_24a9, 131, 0x9b_6abd, 126, 0x20, 0x1, 0x207f_ffdd, 30, 0x2000_0000, 0x40);
    assert(add_spec(0x427f_24a9, 0x3f9b_6abd) == 0x4281_ffff);
    lemma_whole_known(0x4281_ffff, 0x81_ffff, 132, 0x2_0000);
}

/// The value 0x3d55_1f61.
proof fn lemma_at_3d551f61()
    ensures
        chord_code(0x3d55_1f61, 0x3d4d_5e8d, 0x3d55_5e8d, 0x427f_24a9, 0x4282_13c9) == 65,
{
    reveal(chord_code);
    lemma2_to64();
    lemma2_to64_rest();
    lemma_high_powers();
    assert(0xd5_5e8d * 0x1 - 0xcd_5e8d * 0x1 == 0x8_0000);
    lemma_sum_known(0x3d55_5e8d, 0x3d4d_5e8d, true, 0xd5_5e8d, 121, 0xcd_5e8d, 121, 0x1, 0x1, 0x8_0000, 20, 0x8_0000, 0x10);
    assert(sub_spec(0x3d55_5e8d, 0x3d4d_5e8d) == 0x3b00_0000);
    assert(0xd5_1f61 * 0x1 - 0xcd_5e8d * 0x1 == 0x7_c0d4);
    lemma_sum_known(0x3d55_1f61, 0x3d4d_5e8d, true, 0xd5_1f61, 121, 0xcd_5e8d, 121, 0x1, 0x1, 0x7_c0d4, 19, 0x4_0000, 0x20);
    assert(sub_spec(0x3d55_1f61, 0x3d4d_5e8d) == 0x3af8_1a80);
    assert(0x82_13c9 * 0x2 - 0xff_24a9 * 0x1 == 0x5_02e9);
    lemma_sum_known(0x4282_13c9, 0x427f_24a9, true, 0x82_13c9, 132, 0xff_24a9, 131, 0x2, 0x1, 0x5_02e9, 19, 0x4_0000, 0x20);
    assert(sub_spec(0x4282_13c9, 0x427f_24a9) == 0x3fa0_5d20);
    assert(0xa0_5d20 * 0xf8_1a80 == 0x9b6a_d0a3_d000);
    lemma_product_known(0x3fa0_5d20, 0x3af8_1a80, 0xa0_5d20, 126, 0xf8_1a80, 116, 0x9b6a_d0a3_d000, 48, 0x8000_0000_0000, 0x100_0000);
    assert(mul_spec(0x3fa0_5d20, 0x3af8_1a80) == 0x3b1b_6ad1);
    assert(0x9b_6ad1 * 0x1_0000_0000_0000_0000 == 0x1_36d5_a200_0000_0000 * 0x80_0000 + 0x0);
    lemma_quotient_known(0x3b1b_6ad1, 0x3b00_0000, 0x9b_6ad1, 117, 0x80_0000, 117, 0x1_36d5_a200_0000_0000, 0x0, 66, 0x2_0000_0000_0000_0000, 0x400_0000_0000);
    assert(div_spec(0x3b1b_6ad1, 0x3b00_0000) == 0x3f9b_6ad1);
    assert(0xff_24a9 * 0x20 + 0x9b_6ad1 * 0x1 == 0x207f_fff1);
    lemma_sum_known(0x427f_24a9, 0x3f9b_6ad1, false, 0xff_24a9, 131, 0x9b_6ad1, 126, 0x20, 0x1, 0x207f_fff1, 30, 0x2000_0000, 0x40);
    assert(add_spec(0x427f_24a9, 0x3f9b_6ad1) == 0x4282_0000);
    lemma_whole_known(0x4282_0000, 0x82_0000, 132, 0x2_0000);
}

/// The edge of code 64.
proof fn lemma_near_64()
    ensures
        near_exact_edge(0x3d55_1f60, 64),
{
    lemma2_to64();
    lemma2_to64_rest();
    lemma_fifth_powers_of_two();
    lemma_more_fifth_powers_of_two();
    assert(78525nat * 78525 * 78525 == 0x1_b860_59e0_4a25);
    assert(269025nat * 269025 * 269025 == 0x45_2c59_9066_9ca1);
    assert(0x1_b860_59e0_4a25nat * 0x1_b860_59e0_4a25 == 0x2_f58b_5936_86a4_83cf_9039_6959nat);
    assert(0x2_f58b_5936_86a4_83cf_9039_6959nat * 0x2_f58b_5936_86a4_83cf_9039_6959nat == 0x8_c1b1_6976_7896_1f6c_2638_b8ef_f4e9_4d49_75f2_1752_34fc_20f1nat);
    assert(0x45_2c59_9066_9ca1nat * 0x45_2c59_9066_9ca1 == 0x12b0_eff6_c049_6d6d_d948_5020_9d41nat);
    assert(0x12b0_eff6_c049_6d6d_d948_5020_9d41nat * 0x12b0_eff6_c049_6d6d_d948_5020_9d41nat == 0x15d_5c09_8741_6139_2178_92b9_bce5_5f46_89a2_dd05_b95f_0d00_50d8_ca81nat);
    assert(0x428_8ce0nat * 0x428_8ce0 == 0x11_4ad3_5385_c400);
    assert(0x11_4ad3_5385_c400nat * 0x11_4ad3_5385_c400 == 0x12b_05ef_f280_2711_1afd_3e10_0000nat);
    assert(0x12b_05ef_f280_2711_1afd_3e10_0000nat * 0x428_8ce0 == 0x4_db75_3a2c_4f34_a497_b644_0e07_0e00_0000nat);
    assert(0x42a_ace0nat * 0x42a_ace0 == 0x11_5c84_2e3d_c400);
    assert(0x11_5c84_2e3d_c400nat * 0x11_5c84_2e3d_c400 == 0x12d_6afd_69b0_24ec_6156_fe10_0000nat);
    assert(0x12d_6afd_69b0_24ec_6156_fe10_0000nat * 0x42a_ace0 == 0x4_e7eb_0ed9_f838_933c_7479_8d71_0e00_0000nat);
    assert(0x4_db75_3a2c_4f34_a497_b644_0e07_0e00_0000nat * 0x15d_5c09_8741_6139_2178_92b9_bce5_5f46_89a2_dd05_b95f_0d00_50d8_ca81nat == 0x6a0_eddc_b767_5578_2491_2ac9_6129_d83e_d024_b184_7fa9_21b6_5f66_4036_31e1_4d8c_c4d0_41c8_95b0_729a_0e00_0000nat);
    assert(0x4_e7eb_0ed9_f838_933c_7479_8d71_0e00_0000nat * 0x15d_5c09_8741_6139_2178_92b9_bce5_5f46_89a2_dd05_b95f_0d00_50d8_ca81nat == 0x6b1_eefa_774e_f47a_d7bb_4535_e79a_a538_1b3d_5b44_81a1_64ec_5996_0ee5_3b3d_f1f9_7a59_17d7_469f_4b04_0e00_0000nat);
    assert(0xc35nat * 0x1000_0000_0000_0000_0000_0000_0000_0000_0000nat == 0xc3_5000_0000_0000_0000_0000_0000_0000_0000_0000nat);
    assert(0x8_c1b1_6976_7896_1f6c_2638_b8ef_f4e9_4d49_75f2_1752_34fc_20f1nat * 0xc3_5000_0000_0000_0000_0000_0000_0000_0000_0000nat == 0x6ae_46aa_c632_e008_d932_e926_9892_8a3e_c71b_cc43_6ae8_0c9b_e1de_5000_0000_0000_0000_0000_0000_0000_0000_0000nat);
    lemma_near_above(
        0x3d55_1f60, 0xd5_1f60, 121, 0x1000, 0xc3_5000_0000_0000_0000_0000_0000_0000_0000_0000nat, 64,
        78525, 0x1_b860_59e0_4a25,
        0x2_f58b_5936_86a4_83cf_9039_6959nat,
        0x45_2c59_9066_9ca1, 0x12b0_eff6_c049_6d6d_d948_5020_9d41nat,
        0x428_8ce0, 0x11_4ad3_5385_c400, 0x12b_05ef_f280_2711_1afd_3e10_0000nat,
        0x42a_ace0, 0x11_5c84_2e3d_c400, 0x12d_6afd_69b0_24ec_6156_fe10_0000nat,
    );
}

/// The value 0x3d5b_d13e.
proof fn lemma_at_3d5bd13e()
    ensures
        chord_code(0x3d5b_d13e, 0x3d55_5e8d, 0x3d5d_5e8d, 0x4282_13c9, 0x4284_7678) == 65,
{
    reveal(chord_code);
    lemma2_to64();
    lemma2_to64_rest();
    lemma_high_powers();
    assert(0xdd_5e8d * 0x1 - 0xd5_5e8d * 0x1 == 0x8_0000);
    lemma_sum_known(0x3d5d_5e8d, 0x3d55_5e8d, true, 0xdd_5e8d, 121, 0xd5_5e8d, 121, 0x1, 0x1, 0x8_0000, 20, 0x8_0000, 0x10);
    assert(sub_spec(0x3d5d_5e8d, 0x3d55_5e8d) == 0x3b00_0000);
    assert(0xdb_d13e * 0x1 - 0xd5_5e8d * 0x1 == 0x6_72b1);
    lemma_sum_known(0x3d5b_d13e, 0x3d55_5e8d, true, 0xdb_d13e, 121, 0xd5_5e8d, 121, 0x1, 0x1, 0x6_72b1, 19, 0x4_0000, 0x20);
    assert(sub_spec(0x3d5b_d13e, 0x3d55_5e8d) == 0x3ace_5620);
    assert(0x84_7678 * 0x1 - 0x82_13c9 * 0x1 == 0x2_62af);
    lemma_sum_known(0x4284_7678, 0x4282_13c9, true, 0x84_7678, 132, 0x82_13c9, 132, 0x1, 0x1, 0x2_62af, 18, 0x2_0000, 0x40);
    assert(sub_spec(0x4284_7678, 0x4282_13c9) == 0x3f98_abc0);
    assert(0x98_abc0 * 0xce_5620 == 0x7b0d_9147_f800);
    lemma_product_known(0x3f98_abc0, 0x3ace_5620, 0x98_abc0, 126, 0xce_5620, 116, 0x7b0d_9147_f800, 47, 0x4000_0000_0000, 0x80_0000);
    assert(mul_spec(0x3f98_abc0, 0x3ace_5620) == 0x3af6_1b23);
    assert(0xf6_1b23 * 0x1_0000_0000_0000_0000 == 0x1_ec36_4600_0000_0000 * 0x80_0000 + 0x0);
    lemma_quotient_known(0x3af6_1b23, 0x3b00_0000, 0xf6_1b23, 116, 0x80_0000, 117, 0x1_ec36_4600_0000_0000, 0x0, 66, 0x2_0000_0000_0000_0000, 0x400_0000_0000);
    assert(div_spec(0x3af6_1b23, 0x3b00_0000) == 0x3f76_1b23);
    assert(0x82_13c9 * 0x80 + 0xf6_1b23 * 0x1 == 0x41ff_ffa3);
    lemma_sum_known(0x4282_13c9, 0x3f76_1b23, false, 0x82_13c9, 132, 0xf6_1b23, 125, 0x80, 0x1, 0x41ff_ffa3, 31, 0x4000_0000, 0x80);
    assert(add_spec(0x4282_13c9, 0x3f76_1b23) == 0x4283_ffff);
    lemma_whole_known(0x4283_ffff, 0x83_ffff, 132, 0x2_0000);
}

/// The value 0x3d5b_d13f.
proof fn lemma_at_3d5bd13f()
    ensures
        chord_code(0x3d5b_d13f, 0x3d55_5e8d, 0x3d5d_5e8d, 0x4282_13c9, 0x4284_7678) == 66,
{
    reveal(chord_code);
    lemma2_to64();
    lemma2_to64_rest();
    lemma_high_powers();
    assert(0xdd_5e8d * 0x1 - 0xd5_5e8d * 0x1 == 0x8_0000);
    lemma_sum_known(0x3d5d_5e8d, 0x3d55_5e8d, true, 0xdd_5e8d, 121, 0xd5_5e8d, 121, 0x1, 0x1, 0x8_0000, 20, 0x8_0000, 0x10);
    assert(sub_spec(0x3d5d_5e8d, 0x3d55_5e8d) == 0x3b00_0000);
    assert(0xdb_d13f * 0x1 - 0xd5_5e8d * 0x1 == 0x6_72b2);
    lemma_sum_known(0x3d5b_d13f, 0x3d55_5e8d, true, 0xdb_d13f, 121, 0xd5_5e8d, 121, 0x1, 0x1, 0x6_72b2, 19, 0x4_0000, 0x20);
    assert(sub_spec(0x3d5b_d13f, 0x3d55_5e8d) == 0x3ace_5640);
    assert(0x84_7678 * 0x1 - 0x82_13c9 * 0x1 == 0x2_62af);
    lemma_sum_known(0x4284_7678, 0x4282_13c9, true, 0x84_7678, 132, 0x82_13c9, 132, 0x1, 0x1, 0x2_62af, 18, 0x2_0000, 0x40);
    assert(sub_spec(0x4284_7678, 0x4282_13c9) == 0x3f98_abc0);
    assert(0x98_abc0 * 0xce_5640 == 0x7b0d_a45d_7000);
    lemma_product_known(0x3f98_abc0, 0x3ace_5640, 0x98_abc0, 126, 0xce_5640, 116, 0x7b0d_a45d_7000, 47, 0x4000_0000_0000, 0x80_0000);
    assert(mul_spec(0x3f98_abc0, 0x3ace_5640) == 0x3af6_1b49);
    assert(0xf6_1b49 * 0x1_0000_0000_0000_0000 == 0x1_ec36_9200_0000_0000 * 0x80_0000 + 0x0);
    lemma_quotient_known(0x3af6_1b49, 0x3b00_0000, 0xf6_1b49, 116, 0x80_0000, 117, 0x1_ec36_9200_0000_0000, 0x0, 66, 0x2_0000_0000_0000_0000, 0x400_0000_0000);
    assert(div_spec(0x3af6_1b49, 0x3b00_0000) == 0x3f76_1b49);
    assert(0x82_13c9 * 0x80 + 0xf6_1b49 * 0x1 == 0x41ff_ffc9);
    lemma_sum_known(0x4282_13c9, 0x3f76_1b49, false, 0x82_13c9, 132, 0xf6_1b49, 125, 0x80, 0x1, 0x41ff_ffc9, 31, 0x4000_0000, 0x80);
    assert(add_spec(0x4282_13c9, 0x3f76_1b49) == 0x4284_0000);
    lemma_whole_known(0x4284_0000, 0x84_0000, 132, 0x2_0000);
}

/// The edge of code 65.
proof fn lemma_near_65()
    ensures
        near_exact_edge(0x3d5b_d13e, 65),
{
    lemma2_to64();
    lemma2_to64_rest();
    lemma_fifth_powers_of_two();
    lemma_more_fifth_powers_of_two();
    assert(79525nat * 79525 * 79525 == 0x1_c96a_74f7_dd5d);
    assert(269025nat * 269025 * 269025 == 0x45_2c59_9066_9ca1);
    assert(0x1_c96a_74f7_dd5dnat * 0x1_c96a_74f7_dd5d == 0x3_314d_41e2_070a_eb9d_30df_b3c9nat);
    assert(0x3_314d_41e2_070a_eb9d_30df_b3c9nat * 0x3_314d_41e2_070a_eb9d_30df_b3c9nat == 0xa_314e_35d5_63e0_7f97_09a2_add0_d6fd_8672_b97e_3170_1670_b3d1nat);
    assert(0x45_2c59_9066_9ca1nat * 0x45_2c59_9066_9ca1 == 0x12b0_eff6_c049_6d6d_d948_5020_9d41nat);
    assert(0x12b0_eff6_c049_6d6d_d948_5020_9d41nat * 0x12b0_eff6_c049_6d6d_d948_5020_9d41nat == 0x15d_5c09_8741_6139_2178_92b9_bce5_5f46_89a2_dd05_b95f_0d00_50d8_ca81nat);
    assert(0x44a_0636nat * 0x44a_0636 == 0x12_6599_475e_9364);
    assert(0x12_6599_475e_9364nat * 0x12_6599_475e_9364 == 0x152_71e0_5763_bd4e_ae3a_0a4b_ff10nat);
    assert(0x152_71e0_5763_bd4e_ae3a_0a4b_ff10nat * 0x44a_0636 == 0x5_aba4_a246_1928_b8f1_0b9e_466f_eea2_2d60nat);
    assert(0x44c_2636nat * 0x44c_2636 == 0x12_77d8_65c4_1364);
    assert(0x12_77d8_65c4_1364nat * 0x12_77d8_65c4_1364 == 0x155_1289_351a_e76b_fe3a_9a97_ff10nat);
    assert(0x155_1289_351a_e76b_fe3a_9a97_ff10nat * 0x44c_2636 == 0x5_b9be_8e42_766d_960f_3c54_986b_24ac_2d60nat);
    assert(0x5_aba4_a246_1928_b8f1_0b9e_466f_eea2_2d60nat * 0x15d_5c09_8741_6139_2178_92b9_bce5_5f46_89a2_dd05_b95f_0d00_50d8_ca81nat == 0x7bd_0956_6ba1_bfb3_2783_7386_a2b2_cbd2_e258_affd_11a5_fbad_68f2_bd79_f9be_cde9_001d_db27_9a47_b7b7_8086_9d60nat);
    assert(0x5_b9be_8e42_766d_960f_3c54_986b_24ac_2d60nat * 0x15d_5c09_8741_6139_2178_92b9_bce5_5f46_89a2_dd05_b95f_0d00_50d8_ca81nat == 0x7d0_47be_f9d8_295a_98d9_a0eb_b88d_8b7f_be6c_7e08_fdd2_8f94_97bf_12e9_07af_7223_3f9f_36b6_31af_f861_9f90_9d60nat);
    assert(0xc35nat * 0x1000_0000_0000_0000_0000_0000_0000_0000_0000nat == 0xc3_5000_0000_0000_0000_0000_0000_0000_0000_0000nat);
    assert(0xa_314e_35d5_63e0_7f97_09a2_add0_d6fd_8672_b97e_3170_1670_b3d1nat * 0xc3_5000_0000_0000_0000_0000_0000_0000_0000_0000nat == 0x7c6_bdfb_725d_c337_57eb_89ed_3c65_064c_a367_2517_17d4_1edc_3064_5000_0000_0000_0000_0000_0000_0000_0000_0000nat);
    lemma_near_above(
        0x3d5b_d13e, 0xdb_d13e, 121, 0x1000, 0xc3_5000_0000_0000_0000_0000_0000_0000_0000_0000nat, 65,
        79525, 0x1_c96a_74f7_dd5d,
        0x3_314d_41e2_070a_eb9d_30df_b3c9nat,
        0x45_2c59_9066_9ca1, 0x12b0_eff6_c049_6d6d_d948_5020_9d41nat,
        0x44a_0636, 0x12_6599_475e_9364, 0x152_71e0_5763_bd4e_ae3a_0a4b_ff10nat,
        0x44c_2636, 0x12_77d8_65c4_1364, 0x155_1289_351a_e76b_fe3a_9a97_ff10nat,
    );
}

/// The value 0x3d62_7b61.
proof fn lemma_at_3d627b61()
    ensures
        chord_code(0x3d62_7b61, 0x3d5d_5e8d, 0x3d65_5e8d, 0x4284_7678, 0x4286_de3f) == 66,
{
    reveal(chord_code);
    lemma2_to64();
    lemma2_to64_rest();
    lemma_high_powers();
    assert(0xe5_5e8d * 0x1 - 0xdd_5e8d * 0x1 == 0x8_0000);
    lemma_sum_known(0x3d65_5e8d, 0x3d5d_5e8d, true, 0xe5_5e8d, 121, 0xdd_5e8d, 121, 0x1, 0x1, 0x8_0000, 20, 0x8_0000, 0x10);
    assert(sub_spec(0x3d65_5e8d, 0x3d5d_5e8d) == 0x3b00_0000);
    assert(0xe2_7b61 * 0x1 - 0xdd_5e8d * 0x1 == 0x5_1cd4);
    lemma_sum_known(0x3d62_7b61, 0x3d5d_5e8d, true, 0xe2_7b61, 121, 0xdd_5e8d, 121, 0x1, 0x1, 0x5_1cd4, 19, 0x4_0000, 0x20);
    assert(sub_spec(0x3d62_7b61, 0x3d5d_5e8d) == 0x3aa3_9a80);
    assert(0x86_de3f * 0x1 - 0x84_7678 * 0x1 == 0x2_67c7);
    lemma_sum_known(0x4286_de3f, 0x4284_7678, true, 0x86_de3f, 132, 0x84_7678, 132, 0x1, 0x1, 0x2_67c7, 18, 0x2_0000, 0x40);
    assert(sub_spec(0x4286_de3f, 0x4284_7678) == 0x3f99_f1c0);
    assert(0x99_f1c0 * 0xa3_9a80 == 0x6261_d5a6_6000);
    lemma_product_known(0x3f99_f1c0, 0x3aa3_9a80, 0x99_f1c0, 126, 0xa3_9a80, 116, 0x6261_d5a6_6000, 47, 0x4000_0000_0000, 0x80_0000);
    assert(mul_spec(0x3f99_f1c0, 0x3aa3_9a80) == 0x3ac4_c3ab);
    assert(0xc4_c3ab * 0x1_0000_0000_0000_0000 == 0x1_8987_5600_0000_0000 * 0x80_0000 + 0x0);
    lemma_quotient_known(0x3ac4_c3ab, 0x3b00_0000, 0xc4_c3ab, 116, 0x80_0000, 117, 0x1_8987_5600_0000_0000, 0x0, 66, 0x2_0000_0000_0000_0000, 0x400_0000_0000);
    assert(div_spec(0x3ac4_c3ab, 0x3b00_0000) == 0x3f44_c3ab);
    assert(0x84_7678 * 0x80 + 0xc4_c3ab * 0x1 == 0x42ff_ffab);
    lemma_sum_known(0x4284_7678, 0x3f44_c3ab, false, 0x84_7678, 132, 0xc4_c3ab, 125, 0x80, 0x1, 0x42ff_ffab, 31, 0x4000_0000, 0x80);
    assert(add_spec(0x4284_7678, 0x3f44_c3ab) == 0x4285_ffff);
    lemma_whole_known(0x4285_ffff, 0x85_ffff, 132, 0x2_0000);
}

/// The value 0x3d62_7b62.
proof fn lemma_at_3d627b62()
    ensures
        chord_code(0x3d62_7b62, 0x3d5d_5e8d, 0x3d65_5e8d, 0x4284_7678, 0x4286_de3f) == 67,
{
    reveal(chord_code);
    lemma2_to64();
    lemma2_to64_rest();
    lemma_high_powers();
    assert(0xe5_5e8d * 0x1 - 0xdd_5e8d * 0x1 == 0x8_0000);
    lemma_sum_known(0x3d65_5e8d, 0x3d5d_5e8d, true, 0xe5_5e8d, 121, 0xdd_5e8d, 121, 0x1, 0x1, 0x8_0000, 20, 0x8_0000, 0x10);
    assert(sub_spec(0x3d65_5e8d, 0x3d5d_5e8d) == 0x3b00_0000);
    assert(0xe2_7b62 * 0x1 - 0xdd_5e8d * 0x1 == 0x5_1cd5);
    lemma_sum_known(0x3d62_7b62, 0x3d5d_5e8d, true, 0xe2_7b62, 121, 0xdd_5e8d, 121, 0x1, 0x1, 0x5_1cd5, 19, 0x4_0000, 0x20);
    assert(sub_spec(0x3d62_7b62, 0x3d5d_5e8d) == 0x3aa3_9aa0);
    assert(0x86_de3f * 0x1 - 0x84_7678 * 0x1 == 0x2_67c7);
    lemma_sum_known(0x4286_de3f, 0x4284_7678, true, 0x86_de3f, 132, 0x84_7678, 132, 0x1, 0x1, 0x2_67c7, 18, 0x2_0000, 0x40);
    assert(sub_spec(0x4286_de3f, 0x4284_7678) == 0x3f99_f1c0);
    assert(0x99_f1c0 * 0xa3_9aa0 == 0x6261_e8e4_9800);
    lemma_product_known(0x3f99_f1c0, 0x3aa3_9aa0, 0x99_f1c0, 126, 0xa3_9aa0, 116, 0x6261_e8e4_9800, 47, 0x4000_0000_0000, 0x80_0000);
    assert(mul_spec(0x3f99_f1c0, 0x3aa3_9aa0) == 0x3ac4_c3d2);
    assert(0xc4_c3d2 * 0x1_0000_0000_0000_0000 == 0x1_8987_a400_0000_0000 * 0x80_0000 + 0x0);
    lemma_quotient_known(0x3ac4_c3d2, 0x3b00_0000, 0xc4_c3d2, 116, 0x80_0000, 117, 0x1_8987_a400_0000_0000, 0x0, 66, 0x2_0000_0000_0000_0000, 0x400_0000_0000);
    assert(div_spec(0x3ac4_c3d2, 0x3b00_0000) == 0x3f44_c3d2);
    assert(0x84_7678 * 0x80 + 0xc4_c3d2 * 0x1 == 0x42ff_ffd2);
    lemma_sum_known(0x4284_7678, 0x3f44_c3d2, false, 0x84_7678, 132, 0xc4_c3d2, 125, 0x80, 0x1, 0x42ff_ffd2, 31, 0x4000_0000, 0x80);
    assert(add_spec(0x4284_7678, 0x3f44_c3d2) == 0x4286_0000);
    lemma_whole_known(0x4286_0000, 0x86_0000, 132, 0x2_0000);
}

/// The edge of code 66.
proof fn lemma_near_66()
    ensures
        near_exact_edge(0x3d62_7b61, 66),
{
    lemma2_to64();
    lemma2_to64_rest();
    lemma_fifth_powers_of_two();
    lemma_more_fifth_powers_of_two();
    assert(80525nat * 80525 * 80525 == 0x1_dae3_a86a_a415);
    assert(269025nat * 269025 * 269025 == 0x45_2c59_9066_9ca1);
    assert(0x1_dae3_a86a_a415nat * 0x1_dae3_a86a_a415 == 0x3_70ef_d61f_0388_e505_da8e_e9b9nat);
    assert(0x3_70ef_d61f_0388_e505_da8e_e9b9nat * 0x3_70ef_d61f_0388_e505_da8e_e9b9nat == 0xb_d771_c0c6_b94d_9dce_999e_5d14_6b06_f146_9ce1_d111_329e_47b1nat);
    assert(0x45_2c59_9066_9ca1nat * 0x45_2c59_9066_9ca1 == 0x12b0_eff6_c049_6d6d_d948_5020_9d41nat);
    assert(0x12b0_eff6_c049_6d6d_d948_5020_9d41nat * 0x12b0_eff6_c049_6d6d_d948_5020_9d41nat == 0x15d_5c09_8741_6139_2178_92b9_bce5_5f46_89a2_dd05_b95f_0d00_50d8_ca81nat);
    assert(0x46b_58e5nat * 0x46b_58e5 == 0x13_87ca_964c_3cd9);
    assert(0x13_87ca_964c_3cd9nat * 0x13_87ca_964c_3cd9 == 0x17d_7019_9a26_f8f0_5276_7b4e_6ff1nat);
    assert(0x17d_7019_9a26_f8f0_5276_7b4e_6ff1nat * 0x46b_58e5 == 0x6_95b2_b4da_1e12_182b_9cc5_41e7_d15f_fa95nat);
    assert(0x46d_78e5nat * 0x46d_78e5 == 0x13_9a97_5419_7cd9);
    assert(0x13_9a97_5419_7cd9nat * 0x13_9a97_5419_7cd9 == 0x180_4fd0_e66b_841d_1876_0744_eff1nat);
    assert(0x180_4fd0_e66b_841d_1876_0744_eff1nat * 0x46d_78e5 == 0x6_a596_bcbd_1bb8_38e0_13dc_6116_bec0_9a95nat);
    assert(0x6_95b2_b4da_1e12_182b_9cc5_41e7_d15f_fa95nat * 0x15d_5c09_8741_6139_2178_92b9_bce5_5f46_89a2_dd05_b95f_0d00_50d8_ca81nat == 0x8fc_72ab_8441_7d14_5bbb_5152_c8d2_e999_d8b5_8792_795c_1094_b590_735f_29e7_4a1a_b524_dcf4_3c72_5950_3ace_d715nat);
    assert(0x6_a596_bcbd_1bb8_38e0_13dc_6116_bec0_9a95nat * 0x15d_5c09_8741_6139_2178_92b9_bce5_5f46_89a2_dd05_b95f_0d00_50d8_ca81nat == 0x912_2240_cef4_71c9_3795_5414_38ee_be60_5f75_e51f_f231_5a13_1033_e87a_b369_2acb_8eb2_dfa6_bf9a_92cb_16bf_7715nat);
    assert(0xc35nat * 0x1000_0000_0000_0000_0000_0000_0000_0000_0000nat == 0xc3_5000_0000_0000_0000_0000_0000_0000_0000_0000nat);
    assert(0xb_d771_c0c6_b94d_9dce_999e_5d14_6b06_f146_9ce1_d111_329e_47b1nat * 0xc3_5000_0000_0000_0000_0000_0000_0000_0000_0000nat == 0x908_cef9_639d_4007_75af_93a2_63a3_e7bb_f42f_9108_d16e_ee62_123a_5000_0000_0000_0000_0000_0000_0000_0000_0000nat);
    lemma_near_above(
        0x3d62_7b61, 0xe2_7b61, 121, 0x1000, 0xc3_5000_0000_0000_0000_0000_0000_0000_0000_0000nat, 66,
        80525, 0x1_dae3_a86a_a415,
        0x3_70ef_d61f_0388_e505_da8e_e9b9nat,
        0x45_2c59_9066_9ca1, 0x12b0_eff6_c049_6d6d_d948_5020_9d41nat,
        0x46b_58e5, 0x13_87ca_964c_3cd9, 0x17d_7019_9a26_f8f0_5276_7b4e_6ff1nat,
        0x46d_78e5, 0x13_9a97_5419_7cd9, 0x180_4fd0_e66b_841d_1876_0744_eff1nat,
    );
}

/// The value 0x3d69_5043.
proof fn lemma_at_3d695043()
    ensures
        chord_code(0x3d69_5043, 0x3d65_5e8d, 0x3d6d_5e8d, 0x4286_de3f, 0x4289_29f3) == 67,
{
    reveal(chord_code);
    lemma2_to64();
    lemma2_to64_rest();
    lemma_high_powers();
    assert(0xed_5e8d * 0x1 - 0xe5_5e8d * 0x1 == 0x8_0000);
    lemma_sum_known(0x3d6d_5e8d, 0x3d65_5e8d, true, 0xed_5e8d, 121, 0xe5_5e8d, 121, 0x1, 0x1, 0x8_0000, 20, 0x8_0000, 0x10);
    assert(sub_spec(0x3d6d_5e8d, 0x3d65_5e8d) == 0x3b00_0000);
    assert(0xe9_5043 * 0x1 - 0xe5_5e8d * 0x1 == 0x3_f1b6);
    lemma_sum_known(0x3d69_5043, 0x3d65_5e8d, true, 0xe9_5043, 121, 0xe5_5e8d, 121, 0x1, 0x1, 0x3_f1b6, 18, 0x2_0000, 0x40);
    assert(sub_spec(0x3d69_5043, 0x3d65_5e8d) == 0x3a7c_6d80);
    assert(0x89_29f3 * 0x1 - 0x86_de3f * 0x1 == 0x2_4bb4);
    lemma_sum_known(0x4289_29f3, 0x4286_de3f, true, 0x89_29f3, 132, 0x86_de3f, 132, 0x1, 0x1, 0x2_4bb4, 18, 0x2_0000, 0x40);
    assert(sub_spec(0x4289_29f3, 0x4286_de3f) == 0x3f92_ed00);
    assert(0x92_ed00 * 0xfc_6d80 == 0x90e0_245f_8000);
    lemma_product_known(0x3f92_ed00, 0x3a7c_6d80, 0x92_ed00, 126, 0xfc_6d80, 115, 0x90e0_245f_8000, 48, 0x8000_0000_0000, 0x100_0000);
    assert(mul_spec(0x3f92_ed00, 0x3a7c_6d80) == 0x3a90_e024);
    assert(0x90_e024 * 0x1_0000_0000_0000_0000 == 0x1_21c0_4800_0000_0000 * 0x80_0000 + 0x0);
    lemma_quotient_known(0x3a90_e024, 0x3b00_0000, 0x90_e024, 116, 0x80_0000, 117, 0x1_21c0_4800_0000_0000, 0x0, 66, 0x2_0000_0000_0000_0000, 0x400_0000_0000);
    assert(div_spec(0x3a90_e024, 0x3b00_0000) == 0x3f10_e024);
    assert(0x86_de3f * 0x80 + 0x90_e024 * 0x1 == 0x43ff_ffa4);
    lemma_sum_known(0x4286_de3f, 0x3f10_e024, false, 0x86_de3f, 132, 0x90_e024, 125, 0x80, 0x1, 0x43ff_ffa4, 31, 0x4000_0000, 0x80);
    assert(add_spec(0x4286_de3f, 0x3f10_e024) == 0x4287_ffff);
    lemma_whole_known(0x4287_ffff, 0x87_ffff, 132, 0x2_0000);
}

/// The value 0x3d69_5044.
proof fn lemma_at_3d695044()
    ensures
        chord_code(0x3d69_5044, 0x3d65_5e8d, 0x3d6d_5e8d, 0x4286_de3f, 0x4289_29f3) == 68,
{
    reveal(chord_code);
    lemma2_to64();
    lemma2_to64_rest();
    lemma_high_powers();
    assert(0xed_5e8d * 0x1 - 0xe5_5e8d * 0x1 == 0x8_0000);
    lemma_sum_known(0x3d6d_5e8d, 0x3d65_5e8d, true, 0xed_5e8d, 121, 0xe5_5e8d, 121, 0x1, 0x1, 0x8_0000, 20, 0x8_0000, 0x10);
    assert(sub_spec(0x3d6d_5e8d, 0x3d65_5e8d) == 0x3b00_0000);
    assert(0xe9_5044 * 0x1 - 0xe5_5e8d * 0x1 == 0x3_f1b7);
    lemma_sum_known(0x3d69_5044, 0x3d65_5e8d, true, 0xe9_5044, 121, 0xe5_5e8d, 121, 0x1, 0x1, 0x3_f1b7, 18, 0x2_0000, 0x40);
    assert(sub_spec(0x3d69_5044, 0x3d65_5e8d) == 0x3a7c_6dc0);
    assert(0x89_29f3 * 0x1 - 0x86_de3f * 0x1 == 0x2_4bb4);
    lemma_sum_known(0x4289_29f3, 0x4286_de3f, true, 0x89_29f3, 132, 0x86_de3f, 132, 0x1, 0x1, 0x2_4bb4, 18, 0x2_0000, 0x40);
    assert(sub_spec(0x4289_29f3, 0x4286_de3f) == 0x3f92_ed00);
    assert(0x92_ed00 * 0xfc_6dc0 == 0x90e0_491a_c000);
    lemma_product_known(0x3f92_ed00, 0x3a7c_6dc0, 0x92_ed00, 126, 0xfc_6dc0, 115, 0x90e0_491a_c000, 48, 0x8000_0000_0000, 0x100_0000);
    assert(mul_spec(0x3f92_ed00, 0x3a7c_6dc0) == 0x3a90_e049);
    assert(0x90_e049 * 0x1_0000_0000_0000_0000 == 0x1_21c0_9200_0000_0000 * 0x80_0000 + 0x0);
    lemma_quotient_known(0x3a90_e049, 0x3b00_0000, 0x90_e049, 116, 0x80_0000, 117, 0x1_21c0_9200_0000_0000, 0x0, 66, 0x2_0000_0000_0000_0000, 0x400_0000_0000);
    assert(div_spec(0x3a90_e049, 0x3b00_0000) == 0x3f10_e049);
    assert(0x86_de3f * 0x80 + 0x90_e049 * 0x1 == 0x43ff_ffc9);
    lemma_sum_known(0x4286_de3f, 0x3f10_e049, false, 0x86_de3f, 132, 0x90_e049, 125, 0x80, 0x1, 0x43ff_ffc9, 31, 0x4000_0000, 0x80);
    assert(add_spec(0x4286_de3f, 0x3f10_e049) == 0x4288_0000);
    lemma_whole_known(0x4288_0000, 0x88_0000, 132, 0x2_0000);
}

/// The edge of code 67.
proof fn lemma_near_67()
    ensures
        near_exact_edge(0x3d69_5043, 67),
{
    lemma2_to64();
    lemma2_to64_rest();
    lemma_fifth_powers_of_two();
    lemma_more_fifth_powers_of_two();
    assert(81525nat * 81525 * 81525 == 0x1_eccd_59d9_5a4d);
    assert(269025nat * 269025 * 269025 == 0x45_2c59_9066_9ca1);
    assert(0x1_eccd_59d9_5a4dnat * 0x1_eccd_59d9_5a4d == 0x3_b4a5_f614_78bb_70a5_c064_3b29nat);
    assert(0x3_b4a5_f614_78bb_70a5_c064_3b29nat * 0x3_b4a5_f614_78bb_70a5_c064_3b29nat == 0xd_bb5d_921e_c11b_3596_2148_c1db_c44c_87f6_2374_a2d5_c5b3_ec91nat);
    assert(0x45_2c59_9066_9ca1nat * 0x45_2c59_9066_9ca1 == 0x12b0_eff6_c049_6d6d_d948_5020_9d41nat);
    assert(0x12b0_eff6_c049_6d6d_d948_5020_9d41nat * 0x12b0_eff6_c049_6d6d_d948_5020_9d41nat == 0x15d_5c09_8741_6139_2178_92b9_bce5_5f46_89a2_dd05_b95f_0d00_50d8_ca81nat);
    assert(0x48d_814fnat * 0x48d_814f == 0x14_ba42_2a56_b661);
    assert(0x14_ba42_2a56_b661nat * 0x14_ba42_2a56_b661 == 0x1ad_a1da_d42c_5be3_8f3a_df1a_10c1nat);
    assert(0x1ad_a1da_d42c_5be3_8f3a_df1a_10c1nat * 0x48d_814f == 0x7_a402_93fb_c54f_fe90_d54f_2735_39c9_6c8fnat);
    assert(0x48f_a14fnat * 0x48f_a14f == 0x14_cda0_13e6_7661);
    assert(0x14_cda0_13e6_7661nat * 0x14_cda0_13e6_7661 == 0x1b0_c62c_dffa_7a5f_584b_5309_90c1nat);
    assert(0x1b0_c62c_dffa_7a5f_584b_5309_90c1nat * 0x48f_a14f == 0x7_b5e8_18c0_6789_7de5_3953_2712_83cc_0c8fnat);
    assert(0x7_a402_93fb_c54f_fe90_d54f_2735_39c9_6c8fnat * 0x15d_5c09_8741_6139_2178_92b9_bce5_5f46_89a2_dd05_b95f_0d00_50d8_ca81nat == 0xa6d_56bd_78f2_945b_911c_0566_1af7_86d1_5042_a8ca_c0e0_6a5f_bb22_7ca3_e143_40bb_deaf_8d42_835e_b84b_56d0_8a0fnat);
    assert(0x7_b5e8_18c0_6789_7de5_3953_2712_83cc_0c8fnat * 0x15d_5c09_8741_6139_2178_92b9_bce5_5f46_89a2_dd05_b95f_0d00_50d8_ca81nat == 0xa85_c312_9f40_ad0a_e229_c4b7_13d3_e7dc_4a34_a5af_3a62_fe76_8531_b6cd_b60a_7817_d25c_aa64_9d3e_876a_b463_2a0fnat);
    assert(0xc35nat * 0x1000_0000_0000_0000_0000_0000_0000_0000_0000nat == 0xc3_5000_0000_0000_0000_0000_0000_0000_0000_0000nat);
    assert(0xd_bb5d_921e_c11b_3596_2148_c1db_c44c_87f6_2374_a2d5_c5b3_ec91nat * 0xc3_5000_0000_0000_0000_0000_0000_0000_0000_0000nat == 0xa7a_02d3_8b16_b412_521a_44d2_66fb_33a3_7af9_ecec_7bb8_65d5_6c60_5000_0000_0000_0000_0000_0000_0000_0000_0000nat);
    lemma_near_above(
        0x3d69_5043, 0xe9_5043, 121, 0x1000, 0xc3_5000_0000_0000_0000_0000_0000_0000_0000_0000nat, 67,
        81525, 0x1_eccd_59d9_5a4d,
        0x3_b4a5_f614_78bb_70a5_c064_3b29nat,
        0x45_2c59_9066_9ca1, 0x12b0_eff6_c049_6d6d_d948_5020_9d41nat,
        0x48d_814f, 0x14_ba42_2a56_b661, 0x1ad_a1da_d42c_5be3_8f3a_df1a_10c1nat,
        0x48f_a14f, 0x14_cda0_13e6_7661, 0x1b0_c62c_dffa_7a5f_584b_5309_90c1nat,
    );
}

/// The value 0x3d70_440a.
proof fn lemma_at_3d70440a()
    ensures
        chord_code(0x3d70_440a, 0x3d6d_5e8d, 0x3d75_5e8d, 0x4289_29f3, 0x428b_7927) == 68,
{
    reveal(chord_code);
    lemma2_to64();
    lemma2_to64_rest();
    lemma_high_powers();
    assert(0xf5_5e8d * 0x1 - 0xed_5e8d * 0x1 == 0x8_0000);
    lemma_sum_known(0x3d75_5e8d, 0x3d6d_5e8d, true, 0xf5_5e8d, 121, 0xed_5e8d, 121, 0x1, 0x1, 0x8_0000, 20, 0x8_0000, 0x10);
    assert(sub_spec(0x3d75_5e8d, 0x3d6d_5e8d) == 0x3b00_0000);
    assert(0xf0_440a * 0x1 - 0xed_5e8d * 0x1 == 0x2_e57d);
    lemma_sum_known(0x3d70_440a, 0x3d6d_5e8d, true, 0xf0_440a, 121, 0xed_5e8d, 121, 0x1, 0x1, 0x2_e57d, 18, 0x2_0000, 0x40);
    assert(sub_spec(0x3d70_440a, 0x3d6d_5e8d) == 0x3a39_5f40);
    assert(0x8b_7927 * 0x1 - 0x89_29f3 * 0x1 == 0x2_4f34);
    lemma_sum_known(0x428b_7927, 0x4289_29f3, true, 0x8b_7927, 132, 0x89_29f3, 132, 0x1, 0x1, 0x2_4f34, 18, 0x2_0000, 0x40);
    assert(sub_spec(0x428b_7927, 0x4289_29f3) == 0x3f93_cd00);
    assert(0x93_cd00 * 0xb9_5f40 == 0x6b06_2306_4000);
    lemma_product_known(0x3f93_cd00, 0x3a39_5f40, 0x93_cd00, 126, 0xb9_5f40, 115, 0x6b06_2306_4000, 47, 0x4000_0000_0000, 0x80_0000);
    assert(mul_spec(0x3f93_cd00, 0x3a39_5f40) == 0x3a56_0c46);
    assert(0xd6_0c46 * 0x1_0000_0000_0000_0000 == 0x1_ac18_8c00_0000_0000 * 0x80_0000 + 0x0);
    lemma_quotient_known(0x3a56_0c46, 0x3b00_0000, 0xd6_0c46, 115, 0x80_0000, 117, 0x1_ac18_8c00_0000_0000, 0x0, 66, 0x2_0000_0000_0000_0000, 0x400_0000_0000);
    assert(div_spec(0x3a56_0c46, 0x3b00_0000) == 0x3ed6_0c46);
    assert(0x89_29f3 * 0x100 + 0xd6_0c46 * 0x1 == 0x89ff_ff46);
    lemma_sum_known(0x4289_29f3, 0x3ed6_0c46, false, 0x89_29f3, 132, 0xd6_0c46, 124, 0x100, 0x1, 0x89ff_ff46, 32, 0x8000_0000, 0x100);
    assert(add_spec(0x4289_29f3, 0x3ed6_0c46) == 0x4289_ffff);
    lemma_whole_known(0x4289_ffff, 0x89_ffff, 132, 0x2_0000);
}

/// The value 0x3d70_440b.
proof fn lemma_at_3d70440b()
    ensures
        chord_code(0x3d70_440b, 0x3d6d_5e8d, 0x3d75_5e8d, 0x4289_29f3, 0x428b_7927) == 69,
{
    reveal(chord_code);
    lemma2_to64();
    lemma2_to64_rest();
    lemma_high_powers();
    assert(0xf5_5e8d * 0x1 - 0xed_5e8d * 0x1 == 0x8_0000);
    lemma_sum_known(0x3d75_5e8d, 0x3d6d_5e8d, true, 0xf5_5e8d, 121, 0xed_5e8d, 121, 0x1, 0x1, 0x8_0000, 20, 0x8_0000, 0x10);
    assert(sub_spec(0x3d75_5e8d, 0x3d6d_5e8d) == 0x3b00_0000);
    assert(0xf0_440b * 0x1 - 0xed_5e8d * 0x1 == 0x2_e57e);
    lemma_sum_known(0x3d70_440b, 0x3d6d_5e8d, true, 0xf0_440b, 121, 0xed_5e8d, 121, 0x1, 0x1, 0x2_e57e, 18, 0x2_0000, 0x40);
    assert(sub_spec(0x3d70_440b, 0x3d6d_5e8d) == 0x3a39_5f80);
    assert(0x8b_7927 * 0x1 - 0x89_29f3 * 0x1 == 0x2_4f34);
    lemma_sum_known(0x428b_7927, 0x4289_29f3, true, 0x8b_7927, 132, 0x89_29f3, 132, 0x1, 0x1, 0x2_4f34, 18, 0x2_0000, 0x40);
    assert(sub_spec(0x428b_7927, 0x4289_29f3) == 0x3f93_cd00);
    assert(0x93_cd00 * 0xb9_5f80 == 0x6b06_47f9_8000);
    lemma_product_known(0x3f93_cd00, 0x3a39_5f80, 0x93_cd00, 126, 0xb9_5f80, 115, 0x6b06_47f9_8000, 47, 0x4000_0000_0000, 0x80_0000);
    assert(mul_spec(0x3f93_cd00, 0x3a39_5f80) == 0x3a56_0c90);
    assert(0xd6_0c90 * 0x1_0000_0000_0000_0000 == 0x1_ac19_2000_0000_0000 * 0x80_0000 + 0x0);
    lemma_quotient_known(0x3a56_0c90, 0x3b00_0000, 0xd6_0c90, 115, 0x80_0000, 117, 0x1_ac19_2000_0000_0000, 0x0, 66, 0x2_0000_0000_0000_0000, 0x400_0000_0000);
    assert(div_spec(0x3a56_0c90, 0x3b00_0000) == 0x3ed6_0c90);
    assert(0x89_29f3 * 0x100 + 0xd6_0c90 * 0x1 == 0x89ff_ff90);
    lemma_sum_known(0x4289_29f3, 0x3ed6_0c90, false, 0x89_29f3, 132, 0xd6_0c90, 124, 0x100, 0x1, 0x89ff_ff90, 32, 0x8000_0000, 0x100);
    assert(add_spec(0x4289_29f3, 0x3ed6_0c90) == 0x428a_0000);
    lemma_whole_known(0x428a_0000, 0x8a_0000, 132, 0x2_0000);
}

/// The edge of code 68.
proof fn lemma_near_68()
    ensures
        near_exact_edge(0x3d70_440a, 68),
{
    lemma2_to64();
    lemma2_to64_rest();
    lemma_fifth_powers_of_two();
    lemma_more_fifth_powers_of_two();
    assert(82525nat * 82525 * 82525 == 0x1_ff28_eee4_bc05);
    assert(269025nat * 269025 * 269025 == 0x45_2c59_9066_9ca1);
    assert(0x1_ff28_eee4_bc05nat * 0x1_ff28_eee4_bc05 == 0x3_fca4_7040_ad04_d188_beff_5819nat);
    assert(0x3_fca4_7040_ad04_d188_beff_5819nat * 0x3_fca4_7040_ad04_d188_beff_5819nat == 0xf_e52e_c823_66d4_bba1_57e7_6bf9_0eb5_9274_f66e_7205_bc1f_3271nat);
    assert(0x45_2c59_9066_9ca1nat * 0x45_2c59_9066_9ca1 == 0x12b0_eff6_c049_6d6d_d948_5020_9d41nat);
    assert(0x12b0_eff6_c049_6d6d_d948_5020_9d41nat * 0x12b0_eff6_c049_6d6d_d948_5020_9d41nat == 0x15d_5c09_8741_6139_2178_92b9_bce5_5f46_89a2_dd05_b95f_0d00_50d8_ca81nat);
    assert(0x4b0_4432nat * 0x4b0_4432 == 0x15_fb7f_66ea_99c4);
    assert(0x15_fb7f_66ea_99c4nat * 0x15_fb7f_66ea_99c4 == 0x1e3_39f9_f5b4_89d2_b1fd_a6ab_de10nat);
    assert(0x1e3_39f9_f5b4_89d2_b1fd_a6ab_de10nat * 0x4b0_4432 == 0x8_d9a0_7d77_765b_fd81_376b_6971_1f8d_9f20nat);
    assert(0x4b2_6432nat * 0x4b2_6432 == 0x16_0f71_0cbf_19c4);
    assert(0x16_0f71_0cbf_19c4nat * 0x16_0f71_0cbf_19c4 == 0x1e6_a85c_a243_140c_3019_d50f_de10nat);
    assert(0x1e6_a85c_a243_140c_3019_d50f_de10nat * 0x4b2_6432 == 0x8_edc0_fbc2_f06e_0628_8675_e0c6_76f7_9f20nat);
    assert(0x8_d9a0_7d77_765b_fd81_376b_6971_1f8d_9f20nat * 0x15d_5c09_8741_6139_2178_92b9_bce5_5f46_89a2_dd05_b95f_0d00_50d8_ca81nat == 0xc13_de55_0c9d_f37e_18bd_7051_8dff_7690_ac1c_28e2_fa41_efdb_d3c4_9438_b786_b546_8840_8f32_5d96_e61e_e8ec_6f20nat);
    assert(0x8_edc0_fbc2_f06e_0628_8675_e0c6_76f7_9f20nat * 0x15d_5c09_8741_6139_2178_92b9_bce5_5f46_89a2_dd05_b95f_0d00_50d8_ca81nat == 0xc2f_55dd_a6ad_3518_56d4_841f_4887_294f_d677_6826_1fed_ce65_6b0a_80c0_af05_f9e4_9001_45c5_3159_4089_9956_6f20nat);
    assert(0xc35nat * 0x1000_0000_0000_0000_0000_0000_0000_0000_0000nat == 0xc3_5000_0000_0000_0000_0000_0000_0000_0000_0000nat);
    assert(0xf_e52e_c823_66d4_bba1_57e7_6bf9_0eb5_9274_f66e_7205_bc1f_3271nat * 0xc3_5000_0000_0000_0000_0000_0000_0000_0000_0000nat == 0xc20_8a41_1182_642d_6688_60bf_9074_08e7_4cdc_4323_5e00_168d_2bd6_5000_0000_0000_0000_0000_0000_0000_0000_0000nat);
    lemma_near_above(
        0x3d70_440a, 0xf0_440a, 121, 0x1000, 0xc3_5000_0000_0000_0000_0000_0000_0000_0000_0000nat, 68,
        82525, 0x1_ff28_eee4_bc05,
        0x3_fca4_7040_ad04_d188_beff_5819nat,
        0x45_2c59_9066_9ca1, 0x12b0_eff6_c049_6d6d_d948_5020_9d41nat,
        0x4b0_4432, 0x15_fb7f_66ea_99c4, 0x1e3_39f9_f5b4_89d2_b1fd_a6ab_de10nat,
        0x4b2_6432, 0x16_0f71_0cbf_19c4, 0x1e6_a85c_a243_140c_3019_d50f_de10nat,
    );
}

/// The value 0x3d77_3ec6.
proof fn lemma_at_3d773ec6()
    ensures
        chord_code(0x3d77_3ec6, 0x3d75_5e8d, 0x3d7d_5e8d, 0x428b_7927, 0x428d_b839) == 69,
{
    reveal(chord_code);
    lemma2_to64();
    lemma2_to64_rest();
    lemma_high_powers();
    assert(0xfd_5e8d * 0x1 - 0xf5_5e8d * 0x1 == 0x8_0000);
    lemma_sum_known(0x3d7d_5e8d, 0x3d75_5e8d, true, 0xfd_5e8d, 121, 0xf5_5e8d, 121, 0x1, 0x1, 0x8_0000, 20, 0x8_0000, 0x10);
    assert(sub_spec(0x3d7d_5e8d, 0x3d75_5e8d) == 0x3b00_0000);
    assert(0xf7_3ec6 * 0x1 - 0xf5_5e8d * 0x1 == 0x1_e039);
    lemma_sum_known(0x3d77_3ec6, 0x3d75_5e8d, true, 0xf7_3ec6, 121, 0xf5_5e8d, 121, 0x1, 0x1, 0x1_e039, 17, 0x1_0000, 0x80);
    assert(sub_spec(0x3d77_3ec6, 0x3d75_5e8d) == 0x39f0_1c80);
    assert(0x8d_b839 * 0x1 - 0x8b_7927 * 0x1 == 0x2_3f12);
    lemma_sum_known(0x428d_b839, 0x428b_7927, true, 0x8d_b839, 132, 0x8b_7927, 132, 0x1, 0x1, 0x2_3f12, 18, 0x2_0000, 0x40);
    assert(sub_spec(0x428d_b839, 0x428b_7927) == 0x3f8f_c480);
    assert(0x8f_c480 * 0xf0_1c80 == 0x86d8_3960_4000);
    lemma_product_known(0x3f8f_c480, 0x39f0_1c80, 0x8f_c480, 126, 0xf0_1c80, 114, 0x86d8_3960_4000, 48, 0x8000_0000_0000, 0x100_0000);
    assert(mul_spec(0x3f8f_c480, 0x39f0_1c80) == 0x3a06_d839);
    assert(0x86_d839 * 0x1_0000_0000_0000_0000 == 0x1_0db0_7200_0000_0000 * 0x80_0000 + 0x0);
    lemma_quotient_known(0x3a06_d839, 0x3b00_0000, 0x86_d839, 115, 0x80_0000, 117, 0x1_0db0_7200_0000_0000, 0x0, 66, 0x2_0000_0000_0000_0000, 0x400_0000_0000);
    assert(div_spec(0x3a06_d839, 0x3b00_0000) == 0x3e86_d839);
    assert(0x8b_7927 * 0x100 + 0x86_d839 * 0x1 == 0x8bff_ff39);
    lemma_sum_known(0x428b_7927, 0x3e86_d839, false, 0x8b_7927, 132, 0x86_d839, 124, 0x100, 0x1, 0x8bff_ff39, 32, 0x8000_0000, 0x100);
    assert(add_spec(0x428b_7927, 0x3e86_d839) == 0x428b_ffff);
    lemma_whole_known(0x428b_ffff, 0x8b_ffff, 132, 0x2_0000);
}

/// The value 0x3d77_3ec7.
proof fn lemma_at_3d773ec7()
    ensures
        chord_code(0x3d77_3ec7, 0x3d75_5e8d, 0x3d7d_5e8d, 0x428b_7927, 0x428d_b839) == 70,
{
    reveal(chord_code);
    lemma2_to64();
    lemma2_to64_rest();
    lemma_high_powers();
    assert(0xfd_5e8d * 0x1 - 0xf5_5e8d * 0x1 == 0x8_0000);
    lemma_sum_known(0x3d7d_5e8d, 0x3d75_5e8d, true, 0xfd_5e8d, 121, 0xf5_5e8d, 121, 0x1, 0x1, 0x8_0000, 20, 0x8_0000, 0x10);
    assert(sub_spec(0x3d7d_5e8d, 0x3d75_5e8d) == 0x3b00_0000);
    assert(0xf7_3ec7 * 0x1 - 0xf5_5e8d * 0x1 == 0x1_e03a);
    lemma_sum_known(0x3d77_3ec7, 0x3d75_5e8d, true, 0xf7_3ec7, 121, 0xf5_5e8d, 121, 0x1, 0x1, 0x1_e03a, 17, 0x1_0000, 0x80);
    assert(sub_spec(0x3d77_3ec7, 0x3d75_5e8d) == 0x39f0_1d00);
    assert(0x8d_b839 * 0x1 - 0x8b_7927 * 0x1 == 0x2_3f12);
    lemma_sum_known(0x428d_b839, 0x428b_7927, true, 0x8d_b839, 132, 0x8b_7927, 132, 0x1, 0x1, 0x2_3f12, 18, 0x2_0000, 0x40);
    assert(sub_spec(0x428d_b839, 0x428b_7927) == 0x3f8f_c480);
    assert(0x8f_c480 * 0xf0_1d00 == 0x86d8_8142_8000);
    lemma_product_known(0x3f8f_c480, 0x39f0_1d00, 0x8f_c480, 126, 0xf0_1d00, 114, 0x86d8_8142_8000, 48, 0x8000_0000_0000, 0x100_0000);
    assert(mul_spec(0x3f8f_c480, 0x39f0_1d00) == 0x3a06_d881);
    assert(0x86_d881 * 0x1_0000_0000_0000_0000 == 0x1_0db1_0200_0000_0000 * 0x80_0000 + 0x0);
    lemma_quotient_known(0x3a06_d881, 0x3b00_0000, 0x86_d881, 115, 0x80_0000, 117, 0x1_0db1_0200_0000_0000, 0x0, 66, 0x2_0000_0000_0000_0000, 0x400_0000_0000);
    assert(div_spec(0x3a06_d881, 0x3b00_0000) == 0x3e86_d881);
    assert(0x8b_7927 * 0x100 + 0x86_d881 * 0x1 == 0x8bff_ff81);
    lemma_sum_known(0x428b_7927, 0x3e86_d881, false, 0x8b_7927, 132, 0x86_d881, 124, 0x100, 0x1, 0x8bff_ff81, 32, 0x8000_0000, 0x100);
    assert(add_spec(0x428b_7927, 0x3e86_d881) == 0x428c_0000);
    lemma_whole_known(0x428c_0000, 0x8c_0000, 132, 0x2_0000);
}

/// The edge of code 69.
proof fn lemma_near_69()
    ensures
        near_exact_edge(0x3d77_3ec6, 69),
{
    lemma2_to64();
    lemma2_to64_rest();
    lemma_fifth_powers_of_two();
    lemma_more_fifth_powers_of_two();
    assert(83525nat * 83525 * 83525 == 0x2_11f7_cd2d_853d);
    assert(269025nat * 269025 * 269025 == 0x45_2c59_9066_9ca1);
    assert(0x2_11f7_cd2d_853dnat * 0x2_11f7_cd2d_853d == 0x4_4922_0dd3_b2ef_2531_ceca_7089nat);
    assert(0x4_4922_0dd3_b2ef_2531_ceca_7089nat * 0x4_4922_0dd3_b2ef_2531_ceca_7089nat == 0x12_5df4_df08_0080_4387_7c8d_b477_3380_7dc9_f8df_1ba4_45ac_2951nat);
    assert(0x45_2c59_9066_9ca1nat * 0x45_2c59_9066_9ca1 == 0x12b0_eff6_c049_6d6d_d948_5020_9d41nat);
    assert(0x12b0_eff6_c049_6d6d_d948_5020_9d41nat * 0x12b0_eff6_c049_6d6d_d948_5020_9d41nat == 0x15d_5c09_8741_6139_2178_92b9_bce5_5f46_89a2_dd05_b95f_0d00_50d8_ca81nat);
    assert(0x4d3_29denat * 0x4d3_29de == 0x17_477c_facc_dc84);
    assert(0x17_477c_facc_dc84nat * 0x17_477c_facc_dc84 == 0x21d_ec6b_a0f1_2e33_9a82_0053_2410nat);
    assert(0x21d_ec6b_a0f1_2e33_9a82_0053_2410nat * 0x4d3_29de == 0xa_36b4_2c09_ad9e_147e_b5a6_5fe0_920f_d5e0nat);
    assert(0x4d5_49denat * 0x4d5_49de == 0x17_5c02_f0bc_5c84);
    assert(0x17_5c02_f0bc_5c84nat * 0x17_5c02_f0bc_5c84 == 0x221_a999_5ee8_a78a_0a1f_834f_2410nat);
    assert(0x221_a999_5ee8_a78a_0a1f_834f_2410nat * 0x4d5_49de == 0xa_4d45_f4a5_6942_338a_90dd_412e_b139_d5e0nat);
    assert(0xa_36b4_2c09_ad9e_147e_b5a6_5fe0_920f_d5e0nat * 0x15d_5c09_8741_6139_2178_92b9_bce5_5f46_89a2_dd05_b95f_0d00_50d8_ca81nat == 0xdf0_3faa_1acf_7f37_ec57_892d_2cf1_c932_067c_731b_91eb_5d4c_27da_9dfa_c6a9_0b1d_2af5_2bbf_ef9a_139c_8dbd_85e0nat);
    assert(0xa_4d45_f4a5_6942_338a_90dd_412e_b139_d5e0nat * 0x15d_5c09_8741_6139_2178_92b9_bce5_5f46_89a2_dd05_b95f_0d00_50d8_ca81nat == 0xe0f_0c85_d242_f73f_2959_0723_7cdd_7477_a37e_b441_2863_b512_9b1e_aeab_af04_4626_d770_2a94_59b0_ac01_65e7_85e0nat);
    assert(0xc35nat * 0x1000_0000_0000_0000_0000_0000_0000_0000_0000nat == 0xc3_5000_0000_0000_0000_0000_0000_0000_0000_0000nat);
    assert(0x12_5df4_df08_0080_4387_7c8d_b477_3380_7dc9_f8df_1ba4_45ac_2951nat * 0xc3_5000_0000_0000_0000_0000_0000_0000_0000_0000nat == 0xe03_4ee2_68ca_e1db_854e_36dc_bf31_7af7_f827_afb7_c6c4_67e9_459c_5000_0000_0000_0000_0000_0000_0000_0000_0000nat);
    lemma_near_above(
        0x3d77_3ec6, 0xf7_3ec6, 121, 0x1000, 0xc3_5000_0000_0000_0000_0000_0000_0000_0000_0000nat, 69,
        83525, 0x2_11f7_cd2d_853d,
        0x4_4922_0dd3_b2ef_2531_ceca_7089nat,
        0x45_2c59_9066_9ca1, 0x12b0_eff6_c049_6d6d_d948_5020_9d41nat,
        0x4d3_29de, 0x17_477c_facc_dc84, 0x21d_ec6b_a0f1_2e33_9a82_0053_2410nat,
        0x4d5_49de, 0x17_5c02_f0bc_5c84, 0x221_a999_5ee8_a78a_0a1f_834f_2410nat,
    );
}

/// The value 0x3d7e_647b.
proof fn lemma_at_3d7e647b()
    ensures
        chord_code(0x3d7e_647b, 0x3d7d_5e8d, 0x3d85_5e8d, 0x428d_b839, 0x4291_6215) == 70,
{
    reveal(chord_code);
    lemma2_to64();
    lemma2_to64_rest();
    lemma_high_powers();
    assert(0x85_5e8d * 0x2 - 0xfd_5e8d * 0x1 == 0xd_5e8d);
    lemma_sum_known(0x3d85_5e8d, 0x3d7d_5e8d, true, 0x85_5e8d, 122, 0xfd_5e8d, 121, 0x2, 0x1, 0xd_5e8d, 20, 0x8_0000, 0x10);
    assert(sub_spec(0x3d85_5e8d, 0x3d7d_5e8d) == 0x3b55_e8d0);
    assert(0xfe_647b * 0x1 - 0xfd_5e8d * 0x1 == 0x1_05ee);
    lemma_sum_known(0x3d7e_647b, 0x3d7d_5e8d, true, 0xfe_647b, 121, 0xfd_5e8d, 121, 0x1, 0x1, 0x1_05ee, 17, 0x1_0000, 0x80);
    assert(sub_spec(0x3d7e_647b, 0x3d7d_5e8d) == 0x3982_f700);
    assert(0x91_6215 * 0x1 - 0x8d_b839 * 0x1 == 0x3_a9dc);
    lemma_sum_known(0x4291_6215, 0x428d_b839, true, 0x91_6215, 132, 0x8d_b839, 132, 0x1, 0x1, 0x3_a9dc, 18, 0x2_0000, 0x40);
    assert(sub_spec(0x4291_6215, 0x428d_b839) == 0x3fea_7700);
    assert(0xea_7700 * 0x82_f700 == 0x77f2_a6d1_0000);
    lemma_product_known(0x3fea_7700, 0x3982_f700, 0xea_7700, 126, 0x82_f700, 114, 0x77f2_a6d1_0000, 47, 0x4000_0000_0000, 0x80_0000);
    assert(mul_spec(0x3fea_7700, 0x3982_f700) == 0x39ef_e54e);
    assert(0xef_e54e * 0x1_0000_0000_0000_0000 == 0x1_1f19_7dc0_b0ea_7f17 * 0xd5_e8d0 + 0x28_e550);
    lemma_quotient_known(0x39ef_e54e, 0x3b55_e8d0, 0xef_e54e, 114, 0xd5_e8d0, 117, 0x1_1f19_7dc0_b0ea_7f17, 0x28_e550, 66, 0x2_0000_0000_0000_0000, 0x400_0000_0000);
    assert(div_spec(0x39ef_e54e, 0x3b55_e8d0) == 0x3e0f_8cbf);
    assert(0x8d_b839 * 0x200 + 0x8f_8cbf * 0x1 == 0x1_1bff_febf);
    lemma_sum_known(0x428d_b839, 0x3e0f_8cbf, false, 0x8d_b839, 132, 0x8f_8cbf, 123, 0x200, 0x1, 0x1_1bff_febf, 33, 0x1_0000_0000, 0x200);
    assert(add_spec(0x428d_b839, 0x3e0f_8cbf) == 0x428d_ffff);
    lemma_whole_known(0x428d_ffff, 0x8d_ffff, 132, 0x2_0000);
}

/// The value 0x3d7e_647c.
proof fn lemma_at_3d7e647c()
    ensures
        chord_code(0x3d7e_647c, 0x3d7d_5e8d, 0x3d85_5e8d, 0x428d_b839, 0x4291_6215) == 71,
{
    reveal(chord_code);
    lemma2_to64();
    lemma2_to64_rest();
    lemma_high_powers();
    assert(0x85_5e8d * 0x2 - 0xfd_5e8d * 0x1 == 0xd_5e8d);
    lemma_sum_known(0x3d85_5e8d, 0x3d7d_5e8d, true, 0x85_5e8d, 122, 0xfd_5e8d, 121, 0x2, 0x1, 0xd_5e8d, 20, 0x8_0000, 0x10);
    assert(sub_spec(0x3d85_5e8d, 0x3d7d_5e8d) == 0x3b55_e8d0);
    assert(0xfe_647c * 0x1 - 0xfd_5e8d * 0x1 == 0x1_05ef);
    lemma_sum_known(0x3d7e_647c, 0x3d7d_5e8d, true, 0xfe_647c, 121, 0xfd_5e8d, 121, 0x1, 0x1, 0x1_05ef, 17, 0x1_0000, 0x80);
    assert(sub_spec(0x3d7e_647c, 0x3d7d_5e8d) == 0x3982_f780);
    assert(0x91_6215 * 0x1 - 0x8d_b839 * 0x1 == 0x3_a9dc);
    lemma_sum_known(0x4291_6215, 0x428d_b839, true, 0x91_6215, 132, 0x8d_b839, 132, 0x1, 0x1, 0x3_a9dc, 18, 0x2_0000, 0x40);
    assert(sub_spec(0x4291_6215, 0x428d_b839) == 0x3fea_7700);
    assert(0xea_7700 * 0x82_f780 == 0x77f3_1c0c_8000);
    lemma_product_known(0x3fea_7700, 0x3982_f780, 0xea_7700, 126, 0x82_f780, 114, 0x77f3_1c0c_8000, 47, 0x4000_0000_0000, 0x80_0000);
    assert(mul_spec(0x3fea_7700, 0x3982_f780) == 0x39ef_e638);
    assert(0xef_e638 * 0x1_0000_0000_0000_0000 == 0x1_1f1a_95cb_e4f8_95d9 * 0xd5_e8d0 + 0xac_97b0);
    lemma_quotient_known(0x39ef_e638, 0x3b55_e8d0, 0xef_e638, 114, 0xd5_e8d0, 117, 0x1_1f1a_95cb_e4f8_95d9, 0xac_97b0, 66, 0x2_0000_0000_0000_0000, 0x400_0000_0000);
    assert(div_spec(0x39ef_e638, 0x3b55_e8d0) == 0x3e0f_8d4b);
    assert(0x8d_b839 * 0x200 + 0x8f_8d4b * 0x1 == 0x1_1bff_ff4b);
    lemma_sum_known(0x428d_b839, 0x3e0f_8d4b, false, 0x8d_b839, 132, 0x8f_8d4b, 123, 0x200, 0x1, 0x1_1bff_ff4b, 33, 0x1_0000_0000, 0x200);
    assert(add_spec(0x428d_b839, 0x3e0f_8d4b) == 0x428e_0000);
    lemma_whole_known(0x428e_0000, 0x8e_0000, 132, 0x2_0000);
}

/// The edge of code 70.
proof fn lemma_near_70()
    ensures
        near_exact_edge(0x3d7e_647b, 70),
{
    lemma2_to64();
    lemma2_to64_rest();
    lemma_fifth_powers_of_two();
    lemma_more_fifth_powers_of_two();
    assert(84525nat * 84525 * 84525 == 0x2_253b_5a54_71f5);
    assert(269025nat * 269025 * 269025 == 0x45_2c59_9066_9ca1);
    assert(0x2_253b_5a54_71f5nat * 0x2_253b_5a54_71f5 == 0x4_9a57_9f30_f390_d4e9_3f82_3479nat);
    assert(0x4_9a57_9f30_f390_d4e9_3f82_3479nat * 0x4_9a57_9f30_f390_d4e9_3f82_3479nat == 0x15_2fca_830c_17d4_4bcd_7989_4fe7_d24b_c32d_0fcd_444e_e3a5_6131nat);
    assert(0x45_2c59_9066_9ca1nat * 0x45_2c59_9066_9ca1 == 0x12b0_eff6_c049_6d6d_d948_5020_9d41nat);
    assert(0x12b0_eff6_c049_6d6d_d948_5020_9d41nat * 0x12b0_eff6_c049_6d6d_d948_5020_9d41nat == 0x15d_5c09_8741_6139_2178_92b9_bce5_5f46_89a2_dd05_b95f_0d00_50d8_ca81nat);
    assert(0x4f6_e667nat * 0x4f6_e667 == 0x18_a552_d551_3d71);
    assert(0x18_a552_d551_3d71nat * 0x18_a552_d551_3d71 == 0x25f_6a4b_e103_982f_5069_fa41_0be1nat);
    assert(0x25f_6a4b_e103_982f_5069_fa41_0be1nat * 0x4f6_e667 == 0xb_c77c_0252_3885_bde5_ab08_102b_0f0d_ed87nat);
    assert(0x4f9_0667nat * 0x4f9_0667 == 0x18_ba70_ac86_fd71);
    assert(0x18_ba70_ac86_fd71nat * 0x18_ba70_ac86_fd71 == 0x263_7ce8_459b_17db_a29e_2534_8be1nat);
    assert(0x263_7ce8_459b_17db_a29e_2534_8be1nat * 0x4f9_0667 == 0xb_e0c7_69f6_d34f_4721_6395_24cb_c544_8d87nat);
    assert(0xb_c77c_0252_3885_bde5_ab08_102b_0f0d_ed87nat * 0x15d_5c09_8741_6139_2178_92b9_bce5_5f46_89a2_dd05_b95f_0d00_50d8_ca81nat == 0x1013_302f_f77d_3474_d37c_2c18_cdd9_c028_656b_10f3_05df_cec3_57ca_7221_bbf6_0142_68e5_c2c3_0e04_088e_2d59_3707nat);
    assert(0xb_e0c7_69f6_d34f_4721_6395_24cb_c544_8d87nat * 0x15d_5c09_8741_6139_2178_92b9_bce5_5f46_89a2_dd05_b95f_0d00_50d8_ca81nat == 0x1035_b514_4d27_3f07_1e17_b6e5_700d_6e0d_763f_82c0_3272_a432_8c7a_68b3_dc94_9989_cf5b_381c_260d_0d68_191f_d707nat);
    assert(0xc35nat * 0x1000_0000_0000_0000_0000_0000_0000_0000_0000nat == 0xc3_5000_0000_0000_0000_0000_0000_0000_0000_0000nat);
    assert(0x15_2fca_830c_17d4_4bcd_7989_4fe7_d24b_c32d_0fcd_444e_e3a5_6131nat * 0xc3_5000_0000_0000_0000_0000_0000_0000_0000_0000nat == 0x102a_0631_1b29_ee28_1533_c992_c68d_a16d_5851_1e4b_2d70_0e1c_b6b2_5000_0000_0000_0000_0000_0000_0000_0000_0000nat);
    lemma_near_above(
        0x3d7e_647b, 0xfe_647b, 121, 0x1000, 0xc3_5000_0000_0000_0000_0000_0000_0000_0000_0000nat, 70,
        84525, 0x2_253b_5a54_71f5,
        0x4_9a57_9f30_f390_d4e9_3f82_3479nat,
        0x45_2c59_9066_9ca1, 0x12b0_eff6_c049_6d6d_d948_5020_9d41nat,
        0x4f6_e667, 0x18_a552_d551_3d71, 0x25f_6a4b_e103_982f_5069_fa41_0be1nat,
        0x4f9_0667, 0x18_ba70_ac86_fd71, 0x263_7ce8_459b_17db_a29e_2534_8be1nat,
    );
}

/// The value 0x3d82_d877.
proof fn lemma_at_3d82d877()
    ensures
        chord_code(0x3d82_d877, 0x3d7d_5e8d, 0x3d85_5e8d, 0x428d_b839, 0x4291_6215) == 71,
{
    reveal(chord_code);
    lemma2_to64();
    lemma2_to64_rest();
    lemma_high_powers();
    assert(0x85_5e8d * 0x2 - 0xfd_5e8d * 0x1 == 0xd_5e8d);
    lemma_sum_known(0x3d85_5e8d, 0x3d7d_5e8d, true, 0x85_5e8d, 122, 0xfd_5e8d, 121, 0x2, 0x1, 0xd_5e8d, 20, 0x8_0000, 0x10);
    assert(sub_spec(0x3d85_5e8d, 0x3d7d_5e8d) == 0x3b55_e8d0);
    assert(0x82_d877 * 0x2 - 0xfd_5e8d * 0x1 == 0x8_5261);
    lemma_sum_known(0x3d82_d877, 0x3d7d_5e8d, true, 0x82_d877, 122, 0xfd_5e8d, 121, 0x2, 0x1, 0x8_5261, 20, 0x8_0000, 0x10);
    assert(sub_spec(0x3d82_d877, 0x3d7d_5e8d) == 0x3b05_2610);
    assert(0x91_6215 * 0x1 - 0x8d_b839 * 0x1 == 0x3_a9dc);
    lemma_sum_known(0x4291_6215, 0x428d_b839, true, 0x91_6215, 132, 0x8d_b839, 132, 0x1, 0x1, 0x3_a9dc, 18, 0x2_0000, 0x40);
    assert(sub_spec(0x4291_6215, 0x428d_b839) == 0x3fea_7700);
    assert(0xea_7700 * 0x85_2610 == 0x79f2_af51_7000);
    lemma_product_known(0x3fea_7700, 0x3b05_2610, 0xea_7700, 126, 0x85_2610, 117, 0x79f2_af51_7000, 47, 0x4000_0000_0000, 0x80_0000);
    assert(mul_spec(0x3fea_7700, 0x3b05_2610) == 0x3b73_e55f);
    assert(0xf3_e55f * 0x1_0000_0000_0000_0000 == 0x1_23e3_0fb4_9e1c_cba4 * 0xd5_e8d0 + 0x99_eac0);
    lemma_quotient_known(0x3b73_e55f, 0x3b55_e8d0, 0xf3_e55f, 117, 0xd5_e8d0, 117, 0x1_23e3_0fb4_9e1c_cba4, 0x99_eac0, 66, 0x2_0000_0000_0000_0000, 0x400_0000_0000);
    assert(div_spec(0x3b73_e55f, 0x3b55_e8d0) == 0x3f91_f188);
    assert(0x8d_b839 * 0x40 + 0x91_f188 * 0x1 == 0x23ff_ffc8);
    lemma_sum_known(0x428d_b839, 0x3f91_f188, false, 0x8d_b839, 132, 0x91_f188, 126, 0x40, 0x1, 0x23ff_ffc8, 30, 0x2000_0000, 0x40);
    assert(add_spec(0x428d_b839, 0x3f91_f188) == 0x428f_ffff);
    lemma_whole_known(0x428f_ffff, 0x8f_ffff, 132, 0x2_0000);
}

/// The value 0x3d82_d878.
proof fn lemma_at_3d82d878()
    ensures
        chord_code(0x3d82_d878, 0x3d7d_5e8d, 0x3d85_5e8d, 0x428d_b839, 0x4291_6215) == 72,
{
    reveal(chord_code);
    lemma2_to64();
    lemma2_to64_rest();
    lemma_high_powers();
    assert(0x85_5e8d * 0x2 - 0xfd_5e8d * 0x1 == 0xd_5e8d);
    lemma_sum_known(0x3d85_5e8d, 0x3d7d_5e8d, true, 0x85_5e8d, 122, 0xfd_5e8d, 121, 0x2, 0x1, 0xd_5e8d, 20, 0x8_0000, 0x10);
    assert(sub_spec(0x3d85_5e8d, 0x3d7d_5e8d) == 0x3b55_e8d0);
    assert(0x82_d878 * 0x2 - 0xfd_5e8d * 0x1 == 0x8_5263);
    lemma_sum_known(0x3d82_d878, 0x3d7d_5e8d, true, 0x82_d878, 122, 0xfd_5e8d, 121, 0x2, 0x1, 0x8_5263, 20, 0x8_0000, 0x10);
    assert(sub_spec(0x3d82_d878, 0x3d7d_5e8d) == 0x3b05_2630);
    assert(0x91_6215 * 0x1 - 0x8d_b839 * 0x1 == 0x3_a9dc);
    lemma_sum_known(0x4291_6215, 0x428d_b839, true, 0x91_6215, 132, 0x8d_b839, 132, 0x1, 0x1, 0x3_a9dc, 18, 0x2_0000, 0x40);
    assert(sub_spec(0x4291_6215, 0x428d_b839) == 0x3fea_7700);
    assert(0xea_7700 * 0x85_2630 == 0x79f2_cca0_5000);
    lemma_product_known(0x3fea_7700, 0x3b05_2630, 0xea_7700, 126, 0x85_2630, 117, 0x79f2_cca0_5000, 47, 0x4000_0000_0000, 0x80_0000);
    assert(mul_spec(0x3fea_7700, 0x3b05_2630) == 0x3b73_e599);
    assert(0xf3_e599 * 0x1_0000_0000_0000_0000 == 0x1_23e3_551e_3b6c_de69 * 0xd5_e8d0 + 0x9f_22b0);
    lemma_quotient_known(0x3b73_e599, 0x3b55_e8d0, 0xf3_e599, 117, 0xd5_e8d0, 117, 0x1_23e3_551e_3b6c_de69, 0x9f_22b0, 66, 0x2_0000_0000_0000_0000, 0x400_0000_0000);
    assert(div_spec(0x3b73_e599, 0x3b55_e8d0) == 0x3f91_f1ab);
    assert(0x8d_b839 * 0x40 + 0x91_f1ab * 0x1 == 0x23ff_ffeb);
    lemma_sum_known(0x428d_b839, 0x3f91_f1ab, false, 0x8d_b839, 132, 0x91_f1ab, 126, 0x40, 0x1, 0x23ff_ffeb, 30, 0x2000_0000, 0x40);
    assert(add_spec(0x428d_b839, 0x3f91_f1ab) == 0x4290_0000);
    lemma_whole_known(0x4290_0000, 0x90_0000, 132, 0x2_0000);
}

/// The edge of code 71.
proof fn lemma_near_71()
    ensures
        near_exact_edge(0x3d82_d877, 71),
{
    lemma2_to64();
    lemma2_to64_rest();
    lemma_fifth_powers_of_two();
    lemma_more_fifth_powers_of_two();
    assert(85525nat * 85525 * 85525 == 0x2_38f4_fbfa_3e2d);
    assert(269025nat * 269025 * 269025 == 0x45_2c59_9066_9ca1);
    assert(0x2_38f4_fbfa_3e2dnat * 0x2_38f4_fbfa_3e2d == 0x4_f080_0897_c0f2_e051_bcfd_d3e9nat);
    assert(0x4_f080_0897_c0f2_e051_bcfd_d3e9nat * 0x4_f080_0897_c0f2_e051_bcfd_d3e9nat == 0x18_65f0_94e3_2969_300b_d9fe_7d95_1443_bf75_7b81_a45c_c1f3_ea11nat);
    assert(0x45_2c59_9066_9ca1nat * 0x45_2c59_9066_9ca1 == 0x12b0_eff6_c049_6d6d_d948_5020_9d41nat);
    assert(0x12b0_eff6_c049_6d6d_d948_5020_9d41nat * 0x12b0_eff6_c049_6d6d_d948_5020_9d41nat == 0x15d_5c09_8741_6139_2178_92b9_bce5_5f46_89a2_dd05_b95f_0d00_50d8_ca81nat);
    assert(0x28d_b253nat * 0x28d_b253 == 0x6_8537_37a5_86e9);
    assert(0x6_8537_37a5_86e9nat * 0x6_8537_37a5_86e9 == 0x2a_83e9_077d_4652_9d1d_4d72_c011nat);
    assert(0x2a_83e9_077d_4652_9d1d_4d72_c011nat * 0x28d_b253 == 0x6c90_16e8_e64e_e93e_01c5_de0d_d11d_1783nat);
    assert(0x28e_c253nat * 0x28e_c253 == 0x6_8aa5_7395_e6e9);
    assert(0x6_8aa5_7395_e6e9nat * 0x6_8aa5_7395_e6e9 == 0x2a_cad8_3692_a34a_e195_f181_8011nat);
    assert(0x2a_cad8_3692_a34a_e195_f181_8011nat * 0x28e_c253 == 0x6d72_aff3_0811_fa95_fd49_bd76_9b77_6783nat);
    assert(0x6c90_16e8_e64e_e93e_01c5_de0d_d11d_1783nat * 0x15d_5c09_8741_6139_2178_92b9_bce5_5f46_89a2_dd05_b95f_0d00_50d8_ca81nat == 0x94_2777_0e2a_306d_e3ac_0b70_b260_abf1_921e_1c18_0572_966d_f8aa_5944_db60_4d26_1cf6_a9f3_91bb_fadc_1abe_3703nat);
    assert(0x6d72_aff3_0811_fa95_fd49_bd76_9b77_6783nat * 0x15d_5c09_8741_6139_2178_92b9_bce5_5f46_89a2_dd05_b95f_0d00_50d8_ca81nat == 0x95_5cb3_2868_f56d_14a4_23e0_a5ed_3252_f2fa_df71_75a1_e76d_7621_11c2_f022_0bc2_0c11_7e6e_e32f_3388_d560_8703nat);
    assert(0xc35nat * 0x80_0000_0000_0000_0000_0000_0000_0000_0000nat == 0x6_1a80_0000_0000_0000_0000_0000_0000_0000_0000nat);
    assert(0x18_65f0_94e3_2969_300b_d9fe_7d95_1443_bf75_7b81_a45c_c1f3_ea11nat * 0x6_1a80_0000_0000_0000_0000_0000_0000_0000_0000nat == 0x94_ea30_e4bc_7c40_83c0_5607_c97e_682f_8012_8e52_c5b0_25cb_3c20_c280_0000_0000_0000_0000_0000_0000_0000_0000nat);
    lemma_near_above(
        0x3d82_d877, 0x82_d877, 122, 0x800, 0x6_1a80_0000_0000_0000_0000_0000_0000_0000_0000nat, 71,
        85525, 0x2_38f4_fbfa_3e2d,
        0x4_f080_0897_c0f2_e051_bcfd_d3e9nat,
        0x45_2c59_9066_9ca1, 0x12b0_eff6_c049_6d6d_d948_5020_9d41nat,
        0x28d_b253, 0x6_8537_37a5_86e9, 0x2a_83e9_077d_4652_9d1d_4d72_c011nat,
        0x28e_c253, 0x6_8aa5_7395_e6e9, 0x2a_cad8_3692_a34a_e195_f181_8011nat,
    );
}

/// The value 0x3d86_88cc.
proof fn lemma_at_3d8688cc()
    ensures
        chord_code(0x3d86_88cc, 0x3d85_5e8d, 0x3d8d_5e8d, 0x4291_6215, 0x4295_9e74) == 72,
{
    reveal(chord_code);
    lemma2_to64();
    lemma2_to64_rest();
    lemma_high_powers();
    assert(0x8d_5e8d * 0x1 - 0x85_5e8d * 0x1 == 0x8_0000);
    lemma_sum_known(0x3d8d_5e8d, 0x3d85_5e8d, true, 0x8d_5e8d, 122, 0x85_5e8d, 122, 0x1, 0x1, 0x8_0000, 20, 0x8_0000, 0x10);
    assert(sub_spec(0x3d8d_5e8d, 0x3d85_5e8d) == 0x3b80_0000);
    assert(0x86_88cc * 0x1 - 0x85_5e8d * 0x1 == 0x1_2a3f);
    lemma_sum_known(0x3d86_88cc, 0x3d85_5e8d, true, 0x86_88cc, 122, 0x85_5e8d, 122, 0x1, 0x1, 0x1_2a3f, 17, 0x1_0000, 0x80);
    assert(sub_spec(0x3d86_88cc, 0x3d85_5e8d) == 0x3a15_1f80);
    assert(0x95_9e74 * 0x1 - 0x91_6215 * 0x1 == 0x4_3c5f);
    lemma_sum_known(0x4295_9e74, 0x4291_6215, true, 0x95_9e74, 132, 0x91_6215, 132, 0x1, 0x1, 0x4_3c5f, 19, 0x4_0000, 0x20);
    assert(sub_spec(0x4295_9e74, 0x4291_6215) == 0x4007_8be0);
    assert(0x87_8be0 * 0x95_1f80 == 0x4ef5_1716_1000);
    lemma_product_known(0x4007_8be0, 0x3a15_1f80, 0x87_8be0, 127, 0x95_1f80, 115, 0x4ef5_1716_1000, 47, 0x4000_0000_0000, 0x80_0000);
    assert(mul_spec(0x4007_8be0, 0x3a15_1f80) == 0x3a9d_ea2e);
    assert(0x9d_ea2e * 0x1_0000_0000_0000_0000 == 0x1_3bd4_5c00_0000_0000 * 0x80_0000 + 0x0);
    lemma_quotient_known(0x3a9d_ea2e, 0x3b80_0000, 0x9d_ea2e, 116, 0x80_0000, 118, 0x1_3bd4_5c00_0000_0000, 0x0, 66, 0x2_0000_0000_0000_0000, 0x400_0000_0000);
    assert(div_spec(0x3a9d_ea2e, 0x3b80_0000) == 0x3e9d_ea2e);
    assert(0x91_6215 * 0x100 + 0x9d_ea2e * 0x1 == 0x91ff_ff2e);
    lemma_sum_known(0x4291_6215, 0x3e9d_ea2e, false, 0x91_6215, 132, 0x9d_ea2e, 124, 0x100, 0x1, 0x91ff_ff2e, 32, 0x8000_0000, 0x100);
    assert(add_spec(0x4291_6215, 0x3e9d_ea2e) == 0x4291_ffff);
    lemma_whole_known(0x4291_ffff, 0x91_ffff, 132, 0x2_0000);
}

/// The value 0x3d86_88cd.
proof fn lemma_at_3d8688cd()
    ensures
        chord_code(0x3d86_88cd, 0x3d85_5e8d, 0x3d8d_5e8d, 0x4291_6215, 0x4295_9e74) == 73,
{
    reveal(chord_code);
    lemma2_to64();
    lemma2_to64_rest();
    lemma_high_powers();
    assert(0x8d_5e8d * 0x1 - 0x85_5e8d * 0x1 == 0x8_0000);
    lemma_sum_known(0x3d8d_5e8d, 0x3d85_5e8d, true, 0x8d_5e8d, 122, 0x85_5e8d, 122, 0x1, 0x1, 0x8_0000, 20, 0x8_0000, 0x10);
    assert(sub_spec(0x3d8d_5e8d, 0x3d85_5e8d) == 0x3b80_0000);
    assert(0x86_88cd * 0x1 - 0x85_5e8d * 0x1 == 0x1_2a40);
    lemma_sum_known(0x3d86_88cd, 0x3d85_5e8d, true, 0x86_88cd, 122, 0x85_5e8d, 122, 0x1, 0x1, 0x1_2a40, 17, 0x1_0000, 0x80);
    assert(sub_spec(0x3d86_88cd, 0x3d85_5e8d) == 0x3a15_2000);
    assert(0x95_9e74 * 0x1 - 0x91_6215 * 0x1 == 0x4_3c5f);
    lemma_sum_known(0x4295_9e74, 0x4291_6215, true, 0x95_9e74, 132, 0x91_6215, 132, 0x1, 0x1, 0x4_3c5f, 19, 0x4_0000, 0x20);
    assert(sub_spec(0x4295_9e74, 0x4291_6215) == 0x4007_8be0);
    assert(0x87_8be0 * 0x95_2000 == 0x4ef5_5adc_0000);
    lemma_product_known(0x4007_8be0, 0x3a15_2000, 0x87_8be0, 127, 0x95_2000, 115, 0x4ef5_5adc_0000, 47, 0x4000_0000_0000, 0x80_0000);
    assert(mul_spec(0x4007_8be0, 0x3a15_2000) == 0x3a9d_eab6);
    assert(0x9d_eab6 * 0x1_0000_0000_0000_0000 == 0x1_3bd5_6c00_0000_0000 * 0x80_0000 + 0x0);
    lemma_quotient_known(0x3a9d_eab6, 0x3b80_0000, 0x9d_eab6, 116, 0x80_0000, 118, 0x1_3bd5_6c00_0000_0000, 0x0, 66, 0x2_0000_0000_0000_0000, 0x400_0000_0000);
    assert(div_spec(0x3a9d_eab6, 0x3b80_0000) == 0x3e9d_eab6);
    assert(0x91_6215 * 0x100 + 0x9d_eab6 * 0x1 == 0x91ff_ffb6);
    lemma_sum_known(0x4291_6215, 0x3e9d_eab6, false, 0x91_6215, 132, 0x9d_eab6, 124, 0x100, 0x1, 0x91ff_ffb6, 32, 0x8000_0000, 0x100);
    assert(add_spec(0x4291_6215, 0x3e9d_eab6) == 0x4292_0000);
    lemma_whole_known(0x4292_0000, 0x92_0000, 132, 0x2_0000);
}

/// The edge of code 72.
proof fn lemma_near_72()
    ensures
        near_exact_edge(0x3d86_88cc, 72),
{
    lemma2_to64();
    lemma2_to64_rest();
    lemma_fifth_powers_of_two();
    lemma_more_fifth_powers_of_two();
    assert(86525nat * 86525 * 86525 == 0x2_4d26_17bf_a5e5);
    assert(269025nat * 269025 * 269025 == 0x45_2c59_9066_9ca1);
    assert(0x2_4d26_17bf_a5e5nat * 0x2_4d26_17bf_a5e5 == 0x5_4bd8_4ef2_f079_0144_1d36_fed9nat);
    assert(0x5_4bd8_4ef2_f079_0144_1d36_fed9nat * 0x5_4bd8_4ef2_f079_0144_1d36_fed9nat == 0x1c_0ceb_8a85_0fef_b0ae_73a4_7cc1_dca2_6471_bfac_96d5_ab3f_53f1nat);
    assert(0x45_2c59_9066_9ca1nat * 0x45_2c59_9066_9ca1 == 0x12b0_eff6_c049_6d6d_d948_5020_9d41nat);
    assert(0x12b0_eff6_c049_6d6d_d948_5020_9d41nat * 0x12b0_eff6_c049_6d6d_d948_5020_9d41nat == 0x15d_5c09_8741_6139_2178_92b9_bce5_5f46_89a2_dd05_b95f_0d00_50d8_ca81nat);
    assert(0x2a0_23fcnat * 0x2a0_23fc == 0x6_e4bc_f00e_e010);
    assert(0x6_e4bc_f00e_e010nat * 0x6_e4bc_f00e_e010 == 0x2f_853c_57be_76d1_7c7b_45dc_0100nat);
    assert(0x2f_853c_57be_76d1_7c7b_45dc_0100nat * 0x2a0_23fc == 0x7cc4_6c64_bb5d_4fa2_5dd2_c568_78b3_fc00nat);
    assert(0x2a1_33fcnat * 0x2a1_33fc == 0x6_ea52_5d86_6010);
    assert(0x6_ea52_5d86_6010nat * 0x6_ea52_5d86_6010 == 0x2f_d257_0fc6_349d_b294_54cc_0100nat);
    assert(0x2f_d257_0fc6_349d_b294_54cc_0100nat * 0x2a1_33fc == 0x7dc1_acda_dde8_5629_adc2_4336_be03_fc00nat);
    assert(0x7cc4_6c64_bb5d_4fa2_5dd2_c568_78b3_fc00nat * 0x15d_5c09_8741_6139_2178_92b9_bce5_5f46_89a2_dd05_b95f_0d00_50d8_ca81nat == 0xaa_44a3_011a_e380_98c0_396e_6ca0_ef23_8590_e5ba_41f7_b8da_d2fc_039a_421f_61da_a241_5c68_74a3_ff7f_7789_fc00nat);
    assert(0x7dc1_acda_dde8_5629_adc2_4336_be03_fc00nat * 0x15d_5c09_8741_6139_2178_92b9_bce5_5f46_89a2_dd05_b95f_0d00_50d8_ca81nat == 0xab_9e3e_eebf_8145_849b_5e21_c9bd_3b42_64f6_b3f8_d2f5_5771_ad87_aa7d_1c2a_7a51_dc32_b742_614a_a2a1_84d9_fc00nat);
    assert(0xc35nat * 0x80_0000_0000_0000_0000_0000_0000_0000_0000nat == 0x6_1a80_0000_0000_0000_0000_0000_0000_0000_0000nat);
    assert(0x1c_0ceb_8a85_0fef_b0ae_73a4_7cc1_dca2_6471_bfac_96d5_ab3f_53f1nat * 0x6_1a80_0000_0000_0000_0000_0000_0000_0000_0000nat == 0xab_34db_a0f5_25c4_73e0_c4d3_7375_3d25_2a10_4462_e69f_21b6_05d6_7280_0000_0000_0000_0000_0000_0000_0000_0000nat);
    lemma_near_above(
        0x3d86_88cc, 0x86_88cc, 122, 0x800, 0x6_1a80_0000_0000_0000_0000_0000_0000_0000_0000nat, 72,
        86525, 0x2_4d26_17bf_a5e5,
        0x5_4bd8_4ef2_f079_0144_1d36_fed9nat,
        0x45_2c59_9066_9ca1, 0x12b0_eff6_c049_6d6d_d948_5020_9d41nat,
        0x2a0_23fc, 0x6_e4bc_f00e_e010, 0x2f_853c_57be_76d1_7c7b_45dc_0100nat,
        0x2a1_33fc, 0x6_ea52_5d86_6010, 0x2f_d257_0fc6_349d_b294_54cc_0100nat,
    );
}

/// The value 0x3d8a_4fca.
proof fn lemma_at_3d8a4fca()
    ensures
        chord_code(0x3d8a_4fca, 0x3d85_5e8d, 0x3d8d_5e8d, 0x4291_6215, 0x4295_9e74) == 73,
{
    reveal(chord_code);
    lemma2_to64();
    lemma2_to64_rest();
    lemma_high_powers();
    assert(0x8d_5e8d * 0x1 - 0x85_5e8d * 0x1 == 0x8_0000);
    lemma_sum_known(0x3d8d_5e8d, 0x3d85_5e8d, true, 0x8d_5e8d, 122, 0x85_5e8d, 122, 0x1, 0x1, 0x8_0000, 20, 0x8_0000, 0x10);
    assert(sub_spec(0x3d8d_5e8d, 0x3d85_5e8d) == 0x3b80_0000);
    assert(0x8a_4fca * 0x1 - 0x85_5e8d * 0x1 == 0x4_f13d);
    lemma_sum_known(0x3d8a_4fca, 0x3d85_5e8d, true, 0x8a_4fca, 122, 0x85_5e8d, 122, 0x1, 0x1, 0x4_f13d, 19, 0x4_0000, 0x20);
    assert(sub_spec(0x3d8a_4fca, 0x3d85_5e8d) == 0x3b1e_27a0);
    assert(0x95_9e74 * 0x1 - 0x91_6215 * 0x1 == 0x4_3c5f);
    lemma_sum_known(0x4295_9e74, 0x4291_6215, true, 0x95_9e74, 132, 0x91_6215, 132, 0x1, 0x1, 0x4_3c5f, 19, 0x4_0000, 0x20);
    assert(sub_spec(0x4295_9e74, 0x4291_6215) == 0x4007_8be0);
    assert(0x87_8be0 * 0x9e_27a0 == 0x53bd_4f46_8c00);
    lemma_product_known(0x4007_8be0, 0x3b1e_27a0, 0x87_8be0, 127, 0x9e_27a0, 117, 0x53bd_4f46_8c00, 47, 0x4000_0000_0000, 0x80_0000);
    assert(mul_spec(0x4007_8be0, 0x3b1e_27a0) == 0x3ba7_7a9f);
    assert(0xa7_7a9f * 0x1_0000_0000_0000_0000 == 0x1_4ef5_3e00_0000_0000 * 0x80_0000 + 0x0);
    lemma_quotient_known(0x3ba7_7a9f, 0x3b80_0000, 0xa7_7a9f, 118, 0x80_0000, 118, 0x1_4ef5_3e00_0000_0000, 0x0, 66, 0x2_0000_0000_0000_0000, 0x400_0000_0000);
    assert(div_spec(0x3ba7_7a9f, 0x3b80_0000) == 0x3fa7_7a9f);
    assert(0x91_6215 * 0x40 + 0xa7_7a9f * 0x1 == 0x24ff_ffdf);
    lemma_sum_known(0x4291_6215, 0x3fa7_7a9f, false, 0x91_6215, 132, 0xa7_7a9f, 126, 0x40, 0x1, 0x24ff_ffdf, 30, 0x2000_0000, 0x40);
    assert(add_spec(0x4291_6215, 0x3fa7_7a9f) == 0x4293_ffff);
    lemma_whole_known(0x4293_ffff, 0x93_ffff, 132, 0x2_0000);
}

/// The value 0x3d8a_4fcb.
proof fn lemma_at_3d8a4fcb()
    ensures
        chord_code(0x3d8a_4fcb, 0x3d85_5e8d, 0x3d8d_5e8d, 0x4291_6215, 0x4295_9e74) == 74,
{
    reveal(chord_code);
    lemma2_to64();
    lemma2_to64_rest();
    lemma_high_powers();
    assert(0x8d_5e8d * 0x1 - 0x85_5e8d * 0x1 == 0x8_0000);
    lemma_sum_known(0x3d8d_5e8d, 0x3d85_5e8d, true, 0x8d_5e8d, 122, 0x85_5e8d, 122, 0x1, 0x1, 0x8_0000, 20, 0x8_0000, 0x10);
    assert(sub_spec(0x3d8d_5e8d, 0x3d85_5e8d) == 0x3b80_0000);
    assert(0x8a_4fcb * 0x1 - 0x85_5e8d * 0x1 == 0x4_f13e);
    lemma_sum_known(0x3d8a_4fcb, 0x3d85_5e8d, true, 0x8a_4fcb, 122, 0x85_5e8d, 122, 0x1, 0x1, 0x4_f13e, 19, 0x4_0000, 0x20);
    assert(sub_spec(0x3d8a_4fcb, 0x3d85_5e8d) == 0x3b1e_27c0);
    assert(0x95_9e74 * 0x1 - 0x91_6215 * 0x1 == 0x4_3c5f);
    lemma_sum_known(0x4295_9e74, 0x4291_6215, true, 0x95_9e74, 132, 0x91_6215, 132, 0x1, 0x1, 0x4_3c5f, 19, 0x4_0000, 0x20);
    assert(sub_spec(0x4295_9e74, 0x4291_6215) == 0x4007_8be0);
    assert(0x87_8be0 * 0x9e_27c0 == 0x53bd_6038_0800);
    lemma_product_known(0x4007_8be0, 0x3b1e_27c0, 0x87_8be0, 127, 0x9e_27c0, 117, 0x53bd_6038_0800, 47, 0x4000_0000_0000, 0x80_0000);
    assert(mul_spec(0x4007_8be0, 0x3b1e_27c0) == 0x3ba7_7ac0);
    assert(0xa7_7ac0 * 0x1_0000_0000_0000_0000 == 0x1_4ef5_8000_0000_0000 * 0x80_0000 + 0x0);
    lemma_quotient_known(0x3ba7_7ac0, 0x3b80_0000, 0xa7_7ac0, 118, 0x80_0000, 118, 0x1_4ef5_8000_0000_0000, 0x0, 66, 0x2_0000_0000_0000_0000, 0x400_0000_0000);
    assert(div_spec(0x3ba7_7ac0, 0x3b80_0000) == 0x3fa7_7ac0);
    assert(0x91_6215 * 0x40 + 0xa7_7ac0 * 0x1 == 0x2500_0000);
    lemma_sum_known(0x4291_6215, 0x3fa7_7ac0, false, 0x91_6215, 132, 0xa7_7ac0, 126, 0x40, 0x1, 0x2500_0000, 30, 0x2000_0000, 0x40);
    assert(add_spec(0x4291_6215, 0x3fa7_7ac0) == 0x4294_0000);
    lemma_whole_known(0x4294_0000, 0x94_0000, 132, 0x2_0000);
}

/// The edge of code 73.
proof fn lemma_near_73()
    ensures
        near_exact_edge(0x3d8a_4fca, 73),
{
    lemma2_to64();
    lemma2_to64_rest();
    lemma_fifth_powers_of_two();
    lemma_more_fifth_powers_of_two();
    assert(87525nat * 87525 * 87525 == 0x2_61d0_1345_651d);
    assert(269025nat * 269025 * 269025 == 0x45_2c59_9066_9ca1);
    assert(0x2_61d0_1345_651dnat * 0x2_61d0_1345_651d == 0x5_ac9f_a4cf_7d4b_a8f1_f791_e549nat);
    assert(0x5_ac9f_a4cf_7d4b_a8f1_f791_e549nat * 0x5_ac9f_a4cf_7d4b_a8f1_f791_e549nat == 0x20_32a3_591f_d92a_6929_7b14_be08_ed6e_5717_2fd2_5f0a_680d_aed1nat);
    assert(0x45_2c59_9066_9ca1nat * 0x45_2c59_9066_9ca1 == 0x12b0_eff6_c049_6d6d_d948_5020_9d41nat);
    assert(0x12b0_eff6_c049_6d6d_d948_5020_9d41nat * 0x12b0_eff6_c049_6d6d_d948_5020_9d41nat == 0x15d_5c09_8741_6139_2178_92b9_bce5_5f46_89a2_dd05_b95f_0d00_50d8_ca81nat);
    assert(0x2b3_06f2nat * 0x2b3_06f2 == 0x7_494e_7e9c_3cc4);
    assert(0x7_494e_7e9c_3cc4nat * 0x7_494e_7e9c_3cc4 == 0x35_1748_c8d1_d332_fa9b_0d4c_7610nat);
    assert(0x35_1748_c8d1_d332_fa9b_0d4c_7610nat * 0x2b3_06f2 == 0x8f4f_4a31_c5df_d3e7_4895_6e45_0a3b_fb20nat);
    assert(0x2b4_16f2nat * 0x2b4_16f2 == 0x7_4f0c_0e5e_7cc4);
    assert(0x7_4f0c_0e5e_7cc4nat * 0x7_4f0c_0e5e_7cc4 == 0x35_6b11_3a9a_7d63_22e5_4cbe_7610nat);
    assert(0x35_6b11_3a9a_7d63_22e5_4cbe_7610nat * 0x2b4_16f2 == 0x906a_3445_1aed_9ccb_608a_2432_0d70_fb20nat);
    assert(0x8f4f_4a31_c5df_d3e7_4895_6e45_0a3b_fb20nat * 0x15d_5c09_8741_6139_2178_92b9_bce5_5f46_89a2_dd05_b95f_0d00_50d8_ca81nat == 0xc3_929d_fa05_aaaf_63d0_e46f_9c53_edc5_146f_5550_b7fb_fe52_bf9e_4051_6ade_1a65_d0a6_653d_7663_0bf3_5f60_cb20nat);
    assert(0x906a_3445_1aed_9ccb_608a_2432_0d70_fb20nat * 0x15d_5c09_8741_6139_2178_92b9_bce5_5f46_89a2_dd05_b95f_0d00_50d8_ca81nat == 0xc5_14b4_cd07_456a_470a_e211_3af2_bdaa_3fb2_ef60_87fe_0145_6771_8b6b_1134_4018_5d98_d13c_e23b_01a1_cf15_cb20nat);
    assert(0xc35nat * 0x80_0000_0000_0000_0000_0000_0000_0000_0000nat == 0x6_1a80_0000_0000_0000_0000_0000_0000_0000_0000nat);
    assert(0x20_32a3_591f_d92a_6929_7b14_be08_ed6e_5717_2fd2_5f0a_680d_aed1nat * 0x6_1a80_0000_0000_0000_0000_0000_0000_0000_0000nat == 0xc4_8511_ff78_e2f9_5adb_adba_19e1_7d29_f68f_0561_8115_0417_837e_a280_0000_0000_0000_0000_0000_0000_0000_0000nat);
    lemma_near_above(
        0x3d8a_4fca, 0x8a_4fca, 122, 0x800, 0x6_1a80_0000_0000_0000_0000_0000_0000_0000_0000nat, 73,
        87525, 0x2_61d0_1345_651d,
        0x5_ac9f_a4cf_7d4b_a8f1_f791_e549nat,
        0x45_2c59_9066_9ca1, 0x12b0_eff6_c049_6d6d_d948_5020_9d41nat,
        0x2b3_06f2, 0x7_494e_7e9c_3cc4, 0x35_1748_c8d1_d332_fa9b_0d4c_7610nat,
        0x2b4_16f2, 0x7_4f0c_0e5e_7cc4, 0x35_6b11_3a9a_7d63_22e5_4cbe_7610nat,
    );
}

/// The value 0x3d8e_1d38.
proof fn lemma_at_3d8e1d38()
    ensures
        chord_code(0x3d8e_1d38, 0x3d8d_5e8d, 0x3d95_5e8d, 0x4295_9e74, 0x4299_b633) == 74,
{
    reveal(chord_code);
    lemma2_to64();
    lemma2_to64_rest();
    lemma_high_powers();
    assert(0x95_5e8d * 0x1 - 0x8d_5e8d * 0x1 == 0x8_0000);
    lemma_sum_known(0x3d95_5e8d, 0x3d8d_5e8d, true, 0x95_5e8d, 122, 0x8d_5e8d, 122, 0x1, 0x1, 0x8_0000, 20, 0x8_0000, 0x10);
    assert(sub_spec(0x3d95_5e8d, 0x3d8d_5e8d) == 0x3b80_0000);
    assert(0x8e_1d38 * 0x1 - 0x8d_5e8d * 0x1 == 0xbeab);
    lemma_sum_known(0x3d8e_1d38, 0x3d8d_5e8d, true, 0x8e_1d38, 122, 0x8d_5e8d, 122, 0x1, 0x1, 0xbeab, 16, 0x8000, 0x100);
    assert(sub_spec(0x3d8e_1d38, 0x3d8d_5e8d) == 0x39be_ab00);
    assert(0x99_b633 * 0x1 - 0x95_9e74 * 0x1 == 0x4_17bf);
    lemma_sum_known(0x4299_b633, 0x4295_9e74, true, 0x99_b633, 132, 0x95_9e74, 132, 0x1, 0x1, 0x4_17bf, 19, 0x4_0000, 0x20);
    assert(sub_spec(0x4299_b633, 0x4295_9e74) == 0x4002_f7e0);
    assert(0x82_f7e0 * 0xbe_ab00 == 0x618b_73d2_a000);
    lemma_product_known(0x4002_f7e0, 0x39be_ab00, 0x82_f7e0, 127, 0xbe_ab00, 114, 0x618b_73d2_a000, 47, 0x4000_0000_0000, 0x80_0000);
    assert(mul_spec(0x4002_f7e0, 0x39be_ab00) == 0x3a43_16e8);
    assert(0xc3_16e8 * 0x1_0000_0000_0000_0000 == 0x1_862d_d000_0000_0000 * 0x80_0000 + 0x0);
    lemma_quotient_known(0x3a43_16e8, 0x3b80_0000, 0xc3_16e8, 115, 0x80_0000, 118, 0x1_862d_d000_0000_0000, 0x0, 66, 0x2_0000_0000_0000_0000, 0x400_0000_0000);
    assert(div_spec(0x3a43_16e8, 0x3b80_0000) == 0x3e43_16e8);
    assert(0x95_9e74 * 0x200 + 0xc3_16e8 * 0x1 == 0x1_2bff_fee8);
    lemma_sum_known(0x4295_9e74, 0x3e43_16e8, false, 0x95_9e74, 132, 0xc3_16e8, 123, 0x200, 0x1, 0x1_2bff_fee8, 33, 0x1_0000_0000, 0x200);
    assert(add_spec(0x4295_9e74, 0x3e43_16e8) == 0x4295_ffff);
    lemma_whole_known(0x4295_ffff, 0x95_ffff, 132, 0x2_0000);
}

/// The value 0x3d8e_1d39.
proof fn lemma_at_3d8e1d39()
    ensures
        chord_code(0x3d8e_1d39, 0x3d8d_5e8d, 0x3d95_5e8d, 0x4295_9e74, 0x4299_b633) == 75,
{
    reveal(chord_code);
    lemma2_to64();
    lemma2_to64_rest();
    lemma_high_powers();
    assert(0x95_5e8d * 0x1 - 0x8d_5e8d * 0x1 == 0x8_0000);
    lemma_sum_known(0x3d95_5e8d, 0x3d8d_5e8d, true, 0x95_5e8d, 122, 0x8d_5e8d, 122, 0x1, 0x1, 0x8_0000, 20, 0x8_0000, 0x10);
    assert(sub_spec(0x3d95_5e8d, 0x3d8d_5e8d) == 0x3b80_0000);
    assert(0x8e_1d39 * 0x1 - 0x8d_5e8d * 0x1 == 0xbeac);
    lemma_sum_known(0x3d8e_1d39, 0x3d8d_5e8d, true, 0x8e_1d39, 122, 0x8d_5e8d, 122, 0x1, 0x1, 0xbeac, 16, 0x8000, 0x100);
    assert(sub_spec(0x3d8e_1d39, 0x3d8d_5e8d) == 0x39be_ac00);
    assert(0x99_b633 * 0x1 - 0x95_9e74 * 0x1 == 0x4_17bf);
    lemma_sum_known(0x4299_b633, 0x4295_9e74, true, 0x99_b633, 132, 0x95_9e74, 132, 0x1, 0x1, 0x4_17bf, 19, 0x4_0000, 0x20);
    assert(sub_spec(0x4299_b633, 0x4295_9e74) == 0x4002_f7e0);
    assert(0x82_f7e0 * 0xbe_ac00 == 0x618b_f6ca_8000);
    lemma_product_known(0x4002_f7e0, 0x39be_ac00, 0x82_f7e0, 127, 0xbe_ac00, 114, 0x618b_f6ca_8000, 47, 0x4000_0000_0000, 0x80_0000);
    assert(mul_spec(0x4002_f7e0, 0x39be_ac00) == 0x3a43_17ee);
    assert(0xc3_17ee * 0x1_0000_0000_0000_0000 == 0x1_862f_dc00_0000_0000 * 0x80_0000 + 0x0);
    lemma_quotient_known(0x3a43_17ee, 0x3b80_0000, 0xc3_17ee, 115, 0x80_0000, 118, 0x1_862f_dc00_0000_0000, 0x0, 66, 0x2_0000_0000_0000_0000, 0x400_0000_0000);
    assert(div_spec(0x3a43_17ee, 0x3b80_0000) == 0x3e43_17ee);
    assert(0x95_9e74 * 0x200 + 0xc3_17ee * 0x1 == 0x1_2bff_ffee);
    lemma_sum_known(0x4295_9e74, 0x3e43_17ee, false, 0x95_9e74, 132, 0xc3_17ee, 123, 0x200, 0x1, 0x1_2bff_ffee, 33, 0x1_0000_0000, 0x200);
    assert(add_spec(0x4295_9e74, 0x3e43_17ee) == 0x4296_0000);
    lemma_whole_known(0x4296_0000, 0x96_0000, 132, 0x2_0000);
}

/// The edge of code 74.
proof fn lemma_near_74()
    ensures
        near_exact_edge(0x3d8e_1d38, 74),
{
    lemma2_to64();
    lemma2_to64_rest();
    lemma_fifth_powers_of_two();
    lemma_more_fifth_powers_of_two();
    assert(88525nat * 88525 * 88525 == 0x2_76f4_542c_37d5);
    assert(269025nat * 269025 * 269025 == 0x45_2c59_9066_9ca1);
    assert(0x2_76f4_542c_37d5nat * 0x2_76f4_542c_37d5 == 0x6_1317_777a_32c3_d64f_0565_3739nat);
    assert(0x6_1317_777a_32c3_d64f_0565_3739nat * 0x6_1317_777a_32c3_d64f_0565_3739nat == 0x24_e686_179d_346f_123a_fbb5_64ea_adf3_9781_f1be_7d5a_d8e3_8ab1nat);
    assert(0x45_2c59_9066_9ca1nat * 0x45_2c59_9066_9ca1 == 0x12b0_eff6_c049_6d6d_d948_5020_9d41nat);
    assert(0x12b0_eff6_c049_6d6d_d948_5020_9d41nat * 0x12b0_eff6_c049_6d6d_d948_5020_9d41nat == 0x15d_5c09_8741_6139_2178_92b9_bce5_5f46_89a2_dd05_b95f_0d00_50d8_ca81nat);
    assert(0x2c6_0a18nat * 0x2c6_0a18 == 0x7_b15b_fd85_e240);
    assert(0x7_b15b_fd85_e240nat * 0x7_b15b_fd85_e240 == 0x3b_2de8_32f3_ba9d_40b7_5e75_1000nat);
    assert(0x3b_2de8_32f3_ba9d_40b7_5e75_1000nat * 0x2c6_0a18 == 0xa423_a754_afb9_dc45_1fd5_338b_cd99_8000nat);
    assert(0x2c7_1a18nat * 0x2c7_1a18 == 0x7_b741_f3f8_e240);
    assert(0x7_b741_f3f8_e240nat * 0x7_b741_f3f8_e240 == 0x3b_88ca_b367_ffdc_d3fc_a3f5_1000nat);
    assert(0x3b_88ca_b367_ffdc_d3fc_a3f5_1000nat * 0x2c7_1a18 == 0xa55e_fc71_af11_000d_2ce6_e5f5_b299_8000nat);
    assert(0xa423_a754_afb9_dc45_1fd5_338b_cd99_8000nat * 0x15d_5c09_8741_6139_2178_92b9_bce5_5f46_89a2_dd05_b95f_0d00_50d8_ca81nat == 0xdf_ff9e_0a8f_9a23_8be6_dcab_b773_e4a2_0ea7_7967_b397_525c_4ab6_4c74_6ad7_d5d4_2c4e_d8d9_bed0_bb31_b959_8000nat);
    assert(0xa55e_fc71_af11_000d_2ce6_e5f5_b299_8000nat * 0x15d_5c09_8741_6139_2178_92b9_bce5_5f46_89a2_dd05_b95f_0d00_50d8_ca81nat == 0xe1_adf2_716a_b822_472f_c837_9509_79cd_6f9b_cc23_3677_f1c4_c0d5_270d_b996_e48c_692c_a548_ec6c_6940_1e59_8000nat);
    assert(0xc35nat * 0x80_0000_0000_0000_0000_0000_0000_0000_0000nat == 0x6_1a80_0000_0000_0000_0000_0000_0000_0000_0000nat);
    assert(0x24_e686_179d_346f_123a_fbb5_64ea_adf3_9781_f1be_7d5a_d8e3_8ab1nat * 0x6_1a80_0000_0000_0000_0000_0000_0000_0000_0000nat == 0xe1_3901_6f21_0087_ecc5_014e_a472_5eb7_443a_9dfd_281a_fcc8_ce01_5280_0000_0000_0000_0000_0000_0000_0000_0000nat);
    lemma_near_above(
        0x3d8e_1d38, 0x8e_1d38, 122, 0x800, 0x6_1a80_0000_0000_0000_0000_0000_0000_0000_0000nat, 74,
        88525, 0x2_76f4_542c_37d5,
        0x6_1317_777a_32c3_d64f_0565_3739nat,
        0x45_2c59_9066_9ca1, 0x12b0_eff6_c049_6d6d_d948_5020_9d41nat,
        0x2c6_0a18, 0x7_b15b_fd85_e240, 0x3b_2de8_32f3_ba9d_40b7_5e75_1000nat,
        0x2c7_1a18, 0x7_b741_f3f8_e240, 0x3b_88ca_b367_ffdc_d3fc_a3f5_1000nat,
    );
}

/// The value 0x3d92_0602.
proof fn lemma_at_3d920602()
    ensures
        chord_code(0x3d92_0602, 0x3d8d_5e8d, 0x3d95_5e8d, 0x4295_9e74, 0x4299_b633) == 75,
{
    reveal(chord_code);
    lemma2_to64();
    lemma2_to64_rest();
    lemma_high_powers();
    assert(0x95_5e8d * 0x1 - 0x8d_5e8d * 0x1 == 0x8_0000);
    lemma_sum_known(0x3d95_5e8d, 0x3d8d_5e8d, true, 0x95_5e8d, 122, 0x8d_5e8d, 122, 0x1, 0x1, 0x8_0000, 20, 0x8_0000, 0x10);
    assert(sub_spec(0x3d95_5e8d, 0x3d8d_5e8d) == 0x3b80_0000);
    assert(0x92_0602 * 0x1 - 0x8d_5e8d * 0x1 == 0x4_a775);
    lemma_sum_known(0x3d92_0602, 0x3d8d_5e8d, true, 0x92_0602, 122, 0x8d_5e8d, 122, 0x1, 0x1, 0x4_a775, 19, 0x4_0000, 0x20);
    assert(sub_spec(0x3d92_0602, 0x3d8d_5e8d) == 0x3b14_eea0);
    assert(0x99_b633 * 0x1 - 0x95_9e74 * 0x1 == 0x4_17bf);
    lemma_sum_known(0x4299_b633, 0x4295_9e74, true, 0x99_b633, 132, 0x95_9e74, 132, 0x1, 0x1, 0x4_17bf, 19, 0x4_0000, 0x20);
    assert(sub_spec(0x4299_b633, 0x4295_9e74) == 0x4002_f7e0);
    assert(0x82_f7e0 * 0x94_eea0 == 0x4c31_61cd_2c00);
    lemma_product_known(0x4002_f7e0, 0x3b14_eea0, 0x82_f7e0, 127, 0x94_eea0, 117, 0x4c31_61cd_2c00, 47, 0x4000_0000_0000, 0x80_0000);
    assert(mul_spec(0x4002_f7e0, 0x3b14_eea0) == 0x3b98_62c4);
    assert(0x98_62c4 * 0x1_0000_0000_0000_0000 == 0x1_30c5_8800_0000_0000 * 0x80_0000 + 0x0);
    lemma_quotient_known(0x3b98_62c4, 0x3b80_0000, 0x98_62c4, 118, 0x80_0000, 118, 0x1_30c5_8800_0000_0000, 0x0, 66, 0x2_0000_0000_0000_0000, 0x400_0000_0000);
    assert(div_spec(0x3b98_62c4, 0x3b80_0000) == 0x3f98_62c4);
    assert(0x95_9e74 * 0x40 + 0x98_62c4 * 0x1 == 0x25ff_ffc4);
    lemma_sum_known(0x4295_9e74, 0x3f98_62c4, false, 0x95_9e74, 132, 0x98_62c4, 126, 0x40, 0x1, 0x25ff_ffc4, 30, 0x2000_0000, 0x40);
    assert(add_spec(0x4295_9e74, 0x3f98_62c4) == 0x4297_ffff);
    lemma_whole_known(0x4297_ffff, 0x97_ffff, 132, 0x2_0000);
}

/// The value 0x3d92_0603.
proof fn lemma_at_3d920603()
    ensures
        chord_code(0x3d92_0603, 0x3d8d_5e8d, 0x3d95_5e8d, 0x4295_9e74, 0x4299_b633) == 76,
{
    reveal(chord_code);
    lemma2_to64();
    lemma2_to64_rest();
    lemma_high_powers();
    assert(0x95_5e8d * 0x1 - 0x8d_5e8d * 0x1 == 0x8_0000);
    lemma_sum_known(0x3d95_5e8d, 0x3d8d_5e8d, true, 0x95_5e8d, 122, 0x8d_5e8d, 122, 0x1, 0x1, 0x8_0000, 20, 0x8_0000, 0x10);
    assert(sub_spec(0x3d95_5e8d, 0x3d8d_5e8d) == 0x3b80_0000);
    assert(0x92_0603 * 0x1 - 0x8d_5e8d * 0x1 == 0x4_a776);
    lemma_sum_known(0x3d92_0603, 0x3d8d_5e8d, true, 0x92_0603, 122, 0x8d_5e8d, 122, 0x1, 0x1, 0x4_a776, 19, 0x4_0000, 0x20);
    assert(sub_spec(0x3d92_0603, 0x3d8d_5e8d) == 0x3b14_eec0);
    assert(0x99_b633 * 0x1 - 0x95_9e74 * 0x1 == 0x4_17bf);
    lemma_sum_known(0x4299_b633, 0x4295_9e74, true, 0x99_b633, 132, 0x95_9e74, 132, 0x1, 0x1, 0x4_17bf, 19, 0x4_0000, 0x20);
    assert(sub_spec(0x4299_b633, 0x4295_9e74) == 0x4002_f7e0);
    assert(0x82_f7e0 * 0x94_eec0 == 0x4c31_722c_2800);
    lemma_product_known(0x4002_f7e0, 0x3b14_eec0, 0x82_f7e0, 127, 0x94_eec0, 117, 0x4c31_722c_2800, 47, 0x4000_0000_0000, 0x80_0000);
    assert(mul_spec(0x4002_f7e0, 0x3b14_eec0) == 0x3b98_62e4);
    assert(0x98_62e4 * 0x1_0000_0000_0000_0000 == 0x1_30c5_c800_0000_0000 * 0x80_0000 + 0x0);
    lemma_quotient_known(0x3b98_62e4, 0x3b80_0000, 0x98_62e4, 118, 0x80_0000, 118, 0x1_30c5_c800_0000_0000, 0x0, 66, 0x2_0000_0000_0000_0000, 0x400_0000_0000);
    assert(div_spec(0x3b98_62e4, 0x3b80_0000) == 0x3f98_62e4);
    assert(0x95_9e74 * 0x40 + 0x98_62e4 * 0x1 == 0x25ff_ffe4);
    lemma_sum_known(0x4295_9e74, 0x3f98_62e4, false, 0x95_9e74, 132, 0x98_62e4, 126, 0x40, 0x1, 0x25ff_ffe4, 30, 0x2000_0000, 0x40);
    assert(add_spec(0x4295_9e74, 0x3f98_62e4) == 0x4298_0000);
    lemma_whole_known(0x4298_0000, 0x98_0000, 132, 0x2_0000);
}

/// The edge of code 75.
proof fn lemma_near_75()
    ensures
        near_exact_edge(0x3d92_0602, 75),
{
    lemma2_to64();
    lemma2_to64_rest();
    lemma_fifth_powers_of_two();
    lemma_more_fifth_powers_of_two();
    assert(89525nat * 89525 * 89525 == 0x2_8c94_4014_da0d);
    assert(269025nat * 269025 * 269025 == 0x45_2c59_9066_9ca1);
    assert(0x2_8c94_4014_da0dnat * 0x2_8c94_4014_da0d == 0x6_7f83_7c44_5ed8_c5c1_4bc2_24a9nat);
    assert(0x6_7f83_7c44_5ed8_c5c1_4bc2_24a9nat * 0x6_7f83_7c44_5ed8_c5c1_4bc2_24a9nat == 0x2a_39ad_8c08_b28f_b944_3ff8_19d9_c832_acde_16c2_b588_9b63_f791nat);
    assert(0x45_2c59_9066_9ca1nat * 0x45_2c59_9066_9ca1 == 0x12b0_eff6_c049_6d6d_d948_5020_9d41nat);
    assert(0x12b0_eff6_c049_6d6d_d948_5020_9d41nat * 0x12b0_eff6_c049_6d6d_d948_5020_9d41nat == 0x15d_5c09_8741_6139_2178_92b9_bce5_5f46_89a2_dd05_b95f_0d00_50d8_ca81nat);
    assert(0x2d9_960anat * 0x2d9_960a == 0x8_1f47_dce3_b864);
    assert(0x8_1f47_dce3_b864nat * 0x8_1f47_dce3_b864 == 0x41_f850_49e6_f1d0_aef4_6627_e710nat);
    assert(0x41_f850_49e6_f1d0_aef4_6627_e710nat * 0x2d9_960a == 0xbc02_c6b5_3116_cff7_eea0_f108_5b82_66a0nat);
    assert(0x2da_a60anat * 0x2da_a60a == 0x8_2557_5cb8_f864);
    assert(0x8_2557_5cb8_f864nat * 0x8_2557_5cb8_f864 == 0x42_5ae8_2a2d_255b_3425_e0c1_e710nat);
    assert(0x42_5ae8_2a2d_255b_3425_e0c1_e710nat * 0x2da_a60a == 0xbd62_4392_5d27_720f_4d63_8225_6707_66a0nat);
    assert(0xbc02_c6b5_3116_cff7_eea0_f108_5b82_66a0nat * 0x15d_5c09_8741_6139_2178_92b9_bce5_5f46_89a2_dd05_b95f_0d00_50d8_ca81nat == 0x100_9360_e3db_8101_74ed_07f6_70aa_515d_48ea_9179_d222_0a5a_f1a7_42f9_07c6_26a7_4638_d0ab_8d86_2383_98af_f6a0nat);
    assert(0xbd62_4392_5d27_720f_4d63_8225_6707_66a0nat * 0x15d_5c09_8741_6139_2178_92b9_bce5_5f46_89a2_dd05_b95f_0d00_50d8_ca81nat == 0x102_730c_7b55_27e7_c8c4_d55f_9cdc_b227_b95e_bc18_3599_55cb_b0b5_bb6d_1e2b_4c1e_6ee7_8dac_192d_7675_58b4_f6a0nat);
    assert(0xc35nat * 0x80_0000_0000_0000_0000_0000_0000_0000_0000nat == 0x6_1a80_0000_0000_0000_0000_0000_0000_0000_0000nat);
    assert(0x2a_39ad_8c08_b28f_b944_3ff8_19d9_c832_acde_16c2_b588_9b63_f791nat * 0x6_1a80_0000_0000_0000_0000_0000_0000_0000_0000nat == 0x101_b909_bf33_15da_3847_106f_c9c7_bc69_4c19_85eb_68fe_486d_a686_8280_0000_0000_0000_0000_0000_0000_0000_0000nat);
    lemma_near_above(
        0x3d92_0602, 0x92_0602, 122, 0x800, 0x6_1a80_0000_0000_0000_0000_0000_0000_0000_0000nat, 75,
        89525, 0x2_8c94_4014_da0d,
        0x6_7f83_7c44_5ed8_c5c1_4bc2_24a9nat,
        0x45_2c59_9066_9ca1, 0x12b0_eff6_c049_6d6d_d948_5020_9d41nat,
        0x2d9_960a, 0x8_1f47_dce3_b864, 0x41_f850_49e6_f1d0_aef4_6627_e710nat,
        0x2da_a60a, 0x8_2557_5cb8_f864, 0x42_5ae8_2a2d_255b_3425_e0c1_e710nat,
    );
}

/// The value 0x3d95_f33e.
proof fn lemma_at_3d95f33e()
    ensures
        chord_code(0x3d95_f33e, 0x3d95_5e8d, 0x3d9d_5e8d, 0x4299_b633, 0x429d_aea5) == 76,
{
    reveal(chord_code);
    lemma2_to64();
    lemma2_to64_rest();
    lemma_high_powers();
    assert(0x9d_5e8d * 0x1 - 0x95_5e8d * 0x1 == 0x8_0000);
    lemma_sum_known(0x3d9d_5e8d, 0x3d95_5e8d, true, 0x9d_5e8d, 122, 0x95_5e8d, 122, 0x1, 0x1, 0x8_0000, 20, 0x8_0000, 0x10);
    assert(sub_spec(0x3d9d_5e8d, 0x3d95_5e8d) == 0x3b80_0000);
    assert(0x95_f33e * 0x1 - 0x95_5e8d * 0x1 == 0x94b1);
    lemma_sum_known(0x3d95_f33e, 0x3d95_5e8d, true, 0x95_f33e, 122, 0x95_5e8d, 122, 0x1, 0x1, 0x94b1, 16, 0x8000, 0x100);
    assert(sub_spec(0x3d95_f33e, 0x3d95_5e8d) == 0x3994_b100);
    assert(0x9d_aea5 * 0x1 - 0x99_b633 * 0x1 == 0x3_f872);
    lemma_sum_known(0x429d_aea5, 0x4299_b633, true, 0x9d_aea5, 132, 0x99_b633, 132, 0x1, 0x1, 0x3_f872, 18, 0x2_0000, 0x40);
    assert(sub_spec(0x429d_aea5, 0x4299_b633) == 0x3ffe_1c80);
    assert(0xfe_1c80 * 0x94_b100 == 0x9398_2bb4_8000);
    lemma_product_known(0x3ffe_1c80, 0x3994_b100, 0xfe_1c80, 126, 0x94_b100, 114, 0x9398_2bb4_8000, 48, 0x8000_0000_0000, 0x100_0000);
    assert(mul_spec(0x3ffe_1c80, 0x3994_b100) == 0x3a13_982c);
    assert(0x93_982c * 0x1_0000_0000_0000_0000 == 0x1_2730_5800_0000_0000 * 0x80_0000 + 0x0);
    lemma_quotient_known(0x3a13_982c, 0x3b80_0000, 0x93_982c, 115, 0x80_0000, 118, 0x1_2730_5800_0000_0000, 0x0, 66, 0x2_0000_0000_0000_0000, 0x400_0000_0000);
    assert(div_spec(0x3a13_982c, 0x3b80_0000) == 0x3e13_982c);
    assert(0x99_b633 * 0x200 + 0x93_982c * 0x1 == 0x1_33ff_fe2c);
    lemma_sum_known(0x4299_b633, 0x3e13_982c, false, 0x99_b633, 132, 0x93_982c, 123, 0x200, 0x1, 0x1_33ff_fe2c, 33, 0x1_0000_0000, 0x200);
    assert(add_spec(0x4299_b633, 0x3e13_982c) == 0x4299_ffff);
    lemma_whole_known(0x4299_ffff, 0x99_ffff, 132, 0x2_0000);
}

/// The value 0x3d95_f33f.
proof fn lemma_at_3d95f33f()
    ensures
        chord_code(0x3d95_f33f, 0x3d95_5e8d, 0x3d9d_5e8d, 0x4299_b633, 0x429d_aea5) == 77,
{
    reveal(chord_code);
    lemma2_to64();
    lemma2_to64_rest();
    lemma_high_powers();
    assert(0x9d_5e8d * 0x1 - 0x95_5e8d * 0x1 == 0x8_0000);
    lemma_sum_known(0x3d9d_5e8d, 0x3d95_5e8d, true, 0x9d_5e8d, 122, 0x95_5e8d, 122, 0x1, 0x1, 0x8_0000, 20, 0x8_0000, 0x10);
    assert(sub_spec(0x3d9d_5e8d, 0x3d95_5e8d) == 0x3b80_0000);
    assert(0x95_f33f * 0x1 - 0x95_5e8d * 0x1 == 0x94b2);
    lemma_sum_known(0x3d95_f33f, 0x3d95_5e8d, true, 0x95_f33f, 122, 0x95_5e8d, 122, 0x1, 0x1, 0x94b2, 16, 0x8000, 0x100);
    assert(sub_spec(0x3d95_f33f, 0x3d95_5e8d) == 0x3994_b200);
    assert(0x9d_aea5 * 0x1 - 0x99_b633 * 0x1 == 0x3_f872);
    lemma_sum_known(0x429d_aea5, 0x4299_b633, true, 0x9d_aea5, 132, 0x99_b633, 132, 0x1, 0x1, 0x3_f872, 18, 0x2_0000, 0x40);
    assert(sub_spec(0x429d_aea5, 0x4299_b633) == 0x3ffe_1c80);
    assert(0xfe_1c80 * 0x94_b200 == 0x9399_29d1_0000);
    lemma_product_known(0x3ffe_1c80, 0x3994_b200, 0xfe_1c80, 126, 0x94_b200, 114, 0x9399_29d1_0000, 48, 0x8000_0000_0000, 0x100_0000);
    assert(mul_spec(0x3ffe_1c80, 0x3994_b200) == 0x3a13_992a);
    assert(0x93_992a * 0x1_0000_0000_0000_0000 == 0x1_2732_5400_0000_0000 * 0x80_0000 + 0x0);
    lemma_quotient_known(0x3a13_992a, 0x3b80_0000, 0x93_992a, 115, 0x80_0000, 118, 0x1_2732_5400_0000_0000, 0x0, 66, 0x2_0000_0000_0000_0000, 0x400_0000_0000);
    assert(div_spec(0x3a13_992a, 0x3b80_0000) == 0x3e13_992a);
    assert(0x99_b633 * 0x200 + 0x93_992a * 0x1 == 0x1_33ff_ff2a);
    lemma_sum_known(0x4299_b633, 0x3e13_992a, false, 0x99_b633, 132, 0x93_992a, 123, 0x200, 0x1, 0x1_33ff_ff2a, 33, 0x1_0000_0000, 0x200);
    assert(add_spec(0x4299_b633, 0x3e13_992a) == 0x429a_0000);
    lemma_whole_known(0x429a_0000, 0x9a_0000, 132, 0x2_0000);
}

/// The edge of code 76.
proof fn lemma_near_76()
    ensures
        near_exact_edge(0x3d95_f33e, 76),
{
    lemma2_to64();
    lemma2_to64_rest();
    lemma_fifth_powers_of_two();
    lemma_more_fifth_powers_of_two();
    assert(90525nat * 90525 * 90525 == 0x2_a2b1_3ca0_07c5);
    assert(269025nat * 269025 * 269025 == 0x45_2c59_9066_9ca1);
    assert(0x2_a2b1_3ca0_07c5nat * 0x2_a2b1_3ca0_07c5 == 0x6_f229_bdef_8c8f_7a18_0e7c_5d99nat);
    assert(0x6_f229_bdef_8c8f_7a18_0e7c_5d99nat * 0x6_f229_bdef_8c8f_7a18_0e7c_5d99nat == 0x30_3f07_d921_e01f_979e_e046_e439_de5f_d30f_2a47_3757_8a70_8571nat);
    assert(0x45_2c59_9066_9ca1nat * 0x45_2c59_9066_9ca1 == 0x12b0_eff6_c049_6d6d_d948_5020_9d41nat);
    assert(0x12b0_eff6_c049_6d6d_d948_5020_9d41nat * 0x12b0_eff6_c049_6d6d_d948_5020_9d41nat == 0x15d_5c09_8741_6139_2178_92b9_bce5_5f46_89a2_dd05_b95f_0d00_50d8_ca81nat);
    assert(0x2ed_3836nat * 0x2ed_3836 == 0x8_90b1_f853_ab64);
    assert(0x8_90b1_f853_ab64nat * 0x8_90b1_f853_ab64 == 0x49_5ce8_3852_2ba5_b7b2_5596_bf10nat);
    assert(0x49_5ce8_3852_2ba5_b7b2_5596_bf10nat * 0x2ed_3836 == 0xd6b4_ef39_2db7_8ebb_e9e8_2c64_0967_cd60nat);
    assert(0x2ee_4836nat * 0x2ee_4836 == 0x8_96eb_30c6_6b64);
    assert(0x8_96eb_30c6_6b64nat * 0x8_96eb_30c6_6b64 == 0x49_c7ab_81a1_d1ad_5ba7_cbbc_bf10nat);
    assert(0x49_c7ab_81a1_d1ad_5ba7_cbbc_bf10nat * 0x2ee_4836 == 0xd83b_c82e_22b7_24fd_81ef_69a9_d06c_cd60nat);
    assert(0xd6b4_ef39_2db7_8ebb_e9e8_2c64_0967_cd60nat * 0x15d_5c09_8741_6139_2178_92b9_bce5_5f46_89a2_dd05_b95f_0d00_50d8_ca81nat == 0x125_01db_24b8_8850_868e_36d2_b7d0_f782_d5e6_4621_9fb5_31ae_b899_3b04_b126_3c66_b804_9550_a46b_8d97_ee5c_3d60nat);
    assert(0xd83b_c82e_22b7_24fd_81ef_69a9_d06c_cd60nat * 0x15d_5c09_8741_6139_2178_92b9_bce5_5f46_89a2_dd05_b95f_0d00_50d8_ca81nat == 0x127_173d_6f2e_b1a3_87c9_8a30_9e98_eb1a_b48e_ee5f_c97c_7a1e_b386_b5fa_3870_77c8_dc26_9a8b_b87b_f903_29e1_3d60nat);
    assert(0xc35nat * 0x80_0000_0000_0000_0000_0000_0000_0000_0000nat == 0x6_1a80_0000_0000_0000_0000_0000_0000_0000_0000nat);
    assert(0x30_3f07_d921_e01f_979e_e046_e439_de5f_d30f_2a47_3757_8a70_8571nat * 0x6_1a80_0000_0000_0000_0000_0000_0000_0000_0000nat == 0x126_78b5_66c5_4270_d2eb_33e0_affb_33c3_ddb4_0f8b_ab47_ce77_c676_3280_0000_0000_0000_0000_0000_0000_0000_0000nat);
    lemma_near_above(
        0x3d95_f33e, 0x95_f33e, 122, 0x800, 0x6_1a80_0000_0000_0000_0000_0000_0000_0000_0000nat, 76,
        90525, 0x2_a2b1_3ca0_07c5,
        0x6_f229_bdef_8c8f_7a18_0e7c_5d99nat,
        0x45_2c59_9066_9ca1, 0x12b0_eff6_c049_6d6d_d948_5020_9d41nat,
        0x2ed_3836, 0x8_90b1_f853_ab64, 0x49_5ce8_3852_2ba5_b7b2_5596_bf10nat,
        0x2ee_4836, 0x8_96eb_30c6_6b64, 0x49_c7ab_81a1_d1ad_5ba7_cbbc_bf10nat,
    );
}

/// The value 0x3d99_fadb.
proof fn lemma_at_3d99fadb()
    ensures
        chord_code(0x3d99_fadb, 0x3d95_5e8d, 0x3d9d_5e8d, 0x4299_b633, 0x429d_aea5) == 77,
{
    reveal(chord_code);
    lemma2_to64();
    lemma2_to64_rest();
    lemma_high_powers();
    assert(0x9d_5e8d * 0x1 - 0x95_5e8d * 0x1 == 0x8_0000);
    lemma_sum_known(0x3d9d_5e8d, 0x3d95_5e8d, true, 0x9d_5e8d, 122, 0x95_5e8d, 122, 0x1, 0x1, 0x8_0000, 20, 0x8_0000, 0x10);
    assert(sub_spec(0x3d9d_5e8d, 0x3d95_5e8d) == 0x3b80_0000);
    assert(0x99_fadb * 0x1 - 0x95_5e8d * 0x1 == 0x4_9c4e);
    lemma_sum_known(0x3d99_fadb, 0x3d95_5e8d, true, 0x99_fadb, 122, 0x95_5e8d, 122, 0x1, 0x1, 0x4_9c4e, 19, 0x4_0000, 0x20);
    assert(sub_spec(0x3d99_fadb, 0x3d95_5e8d) == 0x3b13_89c0);
    assert(0x9d_aea5 * 0x1 - 0x99_b633 * 0x1 == 0x3_f872);
    lemma_sum_known(0x429d_aea5, 0x4299_b633, true, 0x9d_aea5, 132, 0x99_b633, 132, 0x1, 0x1, 0x3_f872, 18, 0x2_0000, 0x40);
    assert(sub_spec(0x429d_aea5, 0x4299_b633) == 0x3ffe_1c80);
    assert(0xfe_1c80 * 0x93_89c0 == 0x9273_1955_e000);
    lemma_product_known(0x3ffe_1c80, 0x3b13_89c0, 0xfe_1c80, 126, 0x93_89c0, 117, 0x9273_1955_e000, 48, 0x8000_0000_0000, 0x100_0000);
    assert(mul_spec(0x3ffe_1c80, 0x3b13_89c0) == 0x3b92_7319);
    assert(0x92_7319 * 0x1_0000_0000_0000_0000 == 0x1_24e6_3200_0000_0000 * 0x80_0000 + 0x0);
    lemma_quotient_known(0x3b92_7319, 0x3b80_0000, 0x92_7319, 118, 0x80_0000, 118, 0x1_24e6_3200_0000_0000, 0x0, 66, 0x2_0000_0000_0000_0000, 0x400_0000_0000);
    assert(div_spec(0x3b92_7319, 0x3b80_0000) == 0x3f92_7319);
    assert(0x99_b633 * 0x40 + 0x92_7319 * 0x1 == 0x26ff_ffd9);
    lemma_sum_known(0x4299_b633, 0x3f92_7319, false, 0x99_b633, 132, 0x92_7319, 126, 0x40, 0x1, 0x26ff_ffd9, 30, 0x2000_0000, 0x40);
    assert(add_spec(0x4299_b633, 0x3f92_7319) == 0x429b_ffff);
    lemma_whole_known(0x429b_ffff, 0x9b_ffff, 132, 0x2_0000);
}

/// The value 0x3d99_fadc.
proof fn lemma_at_3d99fadc()
    ensures
        chord_code(0x3d99_fadc, 0x3d95_5e8d, 0x3d9d_5e8d, 0x4299_b633, 0x429d_aea5) == 78,
{
    reveal(chord_code);
    lemma2_to64();
    lemma2_to64_rest();
    lemma_high_powers();
    assert(0x9d_5e8d * 0x1 - 0x95_5e8d * 0x1 == 0x8_0000);
    lemma_sum_known(0x3d9d_5e8d, 0x3d95_5e8d, true, 0x9d_5e8d, 122, 0x95_5e8d, 122, 0x1, 0x1, 0x8_0000, 20, 0x8_0000, 0x10);
    assert(sub_spec(0x3d9d_5e8d, 0x3d95_5e8d) == 0x3b80_0000);
    assert(0x99_fadc * 0x1 - 0x95_5e8d * 0x1 == 0x4_9c4f);
    lemma_sum_known(0x3d99_fadc, 0x3d95_5e8d, true, 0x99_fadc, 122, 0x95_5e8d, 122, 0x1, 0x1, 0x4_9c4f, 19, 0x4_0000, 0x20);
    assert(sub_spec(0x3d99_fadc, 0x3d95_5e8d) == 0x3b13_89e0);
    assert(0x9d_aea5 * 0x1 - 0x99_b633 * 0x1 == 0x3_f872);
    lemma_sum_known(0x429d_aea5, 0x4299_b633, true, 0x9d_aea5, 132, 0x99_b633, 132, 0x1, 0x1, 0x3_f872, 18, 0x2_0000, 0x40);
    assert(sub_spec(0x429d_aea5, 0x4299_b633) == 0x3ffe_1c80);
    assert(0xfe_1c80 * 0x93_89e0 == 0x9273_3919_7000);
    lemma_product_known(0x3ffe_1c80, 0x3b13_89e0, 0xfe_1c80, 126, 0x93_89e0, 117, 0x9273_3919_7000, 48, 0x8000_0000_0000, 0x100_0000);
    assert(mul_spec(0x3ffe_1c80, 0x3b13_89e0) == 0x3b92_7339);
    assert(0x92_7339 * 0x1_0000_0000_0000_0000 == 0x1_24e6_7200_0000_0000 * 0x80_0000 + 0x0);
    lemma_quotient_known(0x3b92_7339, 0x3b80_0000, 0x92_7339, 118, 0x80_0000, 118, 0x1_24e6_7200_0000_0000, 0x0, 66, 0x2_0000_0000_0000_0000, 0x400_0000_0000);
    assert(div_spec(0x3b92_7339, 0x3b80_0000) == 0x3f92_7339);
    assert(0x99_b633 * 0x40 + 0x92_7339 * 0x1 == 0x26ff_fff9);
    lemma_sum_known(0x4299_b633, 0x3f92_7339, false, 0x99_b633, 132, 0x92_7339, 126, 0x40, 0x1, 0x26ff_fff9, 30, 0x2000_0000, 0x40);
    assert(add_spec(0x4299_b633, 0x3f92_7339) == 0x429c_0000);
    lemma_whole_known(0x429c_0000, 0x9c_0000, 132, 0x2_0000);
}

/// The edge of code 77.
proof fn lemma_near_77()
    ensures
        near_exact_edge(0x3d99_fadb, 77),
{
    lemma2_to64();
    lemma2_to64_rest();
    lemma_fifth_powers_of_two();
    lemma_more_fifth_powers_of_two();
    assert(91525nat * 91525 * 91525 == 0x2_b94c_af6e_7cfd);
    assert(269025nat * 269025 * 269025 == 0x45_2c59_9066_9ca1);
    assert(0x2_b94c_af6e_7cfdnat * 0x2_b94c_af6e_7cfd == 0x7_6b52_aa40_466c_1ec9_8c72_1209nat);
    assert(0x7_6b52_aa40_466c_1ec9_8c72_1209nat * 0x7_6b52_aa40_466c_1ec9_8c72_1209nat == 0x37_0b83_8487_172e_9bb0_c514_b273_0351_b634_b7ff_64af_e949_4451nat);
    assert(0x45_2c59_9066_9ca1nat * 0x45_2c59_9066_9ca1 == 0x12b0_eff6_c049_6d6d_d948_5020_9d41nat);
    assert(0x12b0_eff6_c049_6d6d_d948_5020_9d41nat * 0x12b0_eff6_c049_6d6d_d948_5020_9d41nat == 0x15d_5c09_8741_6139_2178_92b9_bce5_5f46_89a2_dd05_b95f_0d00_50d8_ca81nat);
    assert(0x301_5e47nat * 0x301_5e47 == 0x9_0837_8946_37b1);
    assert(0x9_0837_8946_37b1nat * 0x9_0837_8946_37b1 == 0x51_942b_2b90_93b5_38eb_f2e9_8861nat);
    assert(0x51_942b_2b90_93b5_38eb_f2e9_8861nat * 0x301_5e47 == 0xf52c_20b5_cf43_deb5_7eee_1c24_ca39_70e7nat);
    assert(0x302_6e47nat * 0x302_6e47 == 0x9_0e9b_929d_17b1);
    assert(0x9_0e9b_929d_17b1nat * 0x9_0e9b_929d_17b1 == 0x52_07c5_b19f_b73b_9bc1_f54b_4861nat);
    assert(0x52_07c5_b19f_b73b_9bc1_f54b_4861nat * 0x302_6e47 == 0xf6de_b6b7_5c8c_0551_ebd9_56a1_14bc_c0e7nat);
    assert(0xf52c_20b5_cf43_deb5_7eee_1c24_ca39_70e7nat * 0x15d_5c09_8741_6139_2178_92b9_bce5_5f46_89a2_dd05_b95f_0d00_50d8_ca81nat == 0x14e_954d_93b2_eef7_e896_d8b8_578c_5bef_af89_b8d8_ac07_d44d_a0db_253d_cf4c_0965_59b8_fcff_d5e2_84da_acf0_2a67nat);
    assert(0xf6de_b6b7_5c8c_0551_ebd9_56a1_14bc_c0e7nat * 0x15d_5c09_8741_6139_2178_92b9_bce5_5f46_89a2_dd05_b95f_0d00_50d8_ca81nat == 0x150_e660_51e5_fb40_64f9_a2a0_1fed_b7cd_e85e_ebbf_6a91_671f_9525_a815_0e09_b259_d822_b3d7_dfc8_f813_563b_7a67nat);
    assert(0xc35nat * 0x80_0000_0000_0000_0000_0000_0000_0000_0000nat == 0x6_1a80_0000_0000_0000_0000_0000_0000_0000_0000nat);
    assert(0x37_0b83_8487_172e_9bb0_c514_b273_0351_b634_b7ff_64af_e949_4451nat * 0x6_1a80_0000_0000_0000_0000_0000_0000_0000_0000nat == 0x14f_f7c6_3862_86fd_f942_6ae2_d32a_fbc2_3a98_c508_4c0b_ad5d_af78_6280_0000_0000_0000_0000_0000_0000_0000_0000nat);
    lemma_near_above(
        0x3d99_fadb, 0x99_fadb, 122, 0x800, 0x6_1a80_0000_0000_0000_0000_0000_0000_0000_0000nat, 77,
        91525, 0x2_b94c_af6e_7cfd,
        0x7_6b52_aa40_466c_1ec9_8c72_1209nat,
        0x45_2c59_9066_9ca1, 0x12b0_eff6_c049_6d6d_d948_5020_9d41nat,
        0x301_5e47, 0x9_0837_8946_37b1, 0x51_942b_2b90_93b5_38eb_f2e9_8861nat,
        0x302_6e47, 0x9_0e9b_929d_17b1, 0x52_07c5_b19f_b73b_9bc1_f54b_4861nat,
    );
}

/// The value 0x3d9e_0756.
proof fn lemma_at_3d9e0756()
    ensures
        chord_code(0x3d9e_0756, 0x3d9d_5e8d, 0x3da5_5e8d, 0x429d_aea5, 0x42a1_89c3) == 78,
{
    reveal(chord_code);
    lemma2_to64();
    lemma2_to64_rest();
    lemma_high_powers();
    assert(0xa5_5e8d * 0x1 - 0x9d_5e8d * 0x1 == 0x8_0000);
    lemma_sum_known(0x3da5_5e8d, 0x3d9d_5e8d, true, 0xa5_5e8d, 122, 0x9d_5e8d, 122, 0x1, 0x1, 0x8_0000, 20, 0x8_0000, 0x10);
    assert(sub_spec(0x3da5_5e8d, 0x3d9d_5e8d) == 0x3b80_0000);
    assert(0x9e_0756 * 0x1 - 0x9d_5e8d * 0x1 == 0xa8c9);
    lemma_sum_known(0x3d9e_0756, 0x3d9d_5e8d, true, 0x9e_0756, 122, 0x9d_5e8d, 122, 0x1, 0x1, 0xa8c9, 16, 0x8000, 0x100);
    assert(sub_spec(0x3d9e_0756, 0x3d9d_5e8d) == 0x39a8_c900);
    assert(0xa1_89c3 * 0x1 - 0x9d_aea5 * 0x1 == 0x3_db1e);
    lemma_sum_known(0x42a1_89c3, 0x429d_aea5, true, 0xa1_89c3, 132, 0x9d_aea5, 132, 0x1, 0x1, 0x3_db1e, 18, 0x2_0000, 0x40);
    assert(sub_spec(0x42a1_89c3, 0x429d_aea5) == 0x3ff6_c780);
    assert(0xf6_c780 * 0xa8_c900 == 0xa2b4_aea3_8000);
    lemma_product_known(0x3ff6_c780, 0x39a8_c900, 0xf6_c780, 126, 0xa8_c900, 114, 0xa2b4_aea3_8000, 48, 0x8000_0000_0000, 0x100_0000);
    assert(mul_spec(0x3ff6_c780, 0x39a8_c900) == 0x3a22_b4af);
    assert(0xa2_b4af * 0x1_0000_0000_0000_0000 == 0x1_4569_5e00_0000_0000 * 0x80_0000 + 0x0);
    lemma_quotient_known(0x3a22_b4af, 0x3b80_0000, 0xa2_b4af, 115, 0x80_0000, 118, 0x1_4569_5e00_0000_0000, 0x0, 66, 0x2_0000_0000_0000_0000, 0x400_0000_0000);
    assert(div_spec(0x3a22_b4af, 0x3b80_0000) == 0x3e22_b4af);
    assert(0x9d_aea5 * 0x200 + 0xa2_b4af * 0x1 == 0x1_3bff_feaf);
    lemma_sum_known(0x429d_aea5, 0x3e22_b4af, false, 0x9d_aea5, 132, 0xa2_b4af, 123, 0x200, 0x1, 0x1_3bff_feaf, 33, 0x1_0000_0000, 0x200);
    assert(add_spec(0x429d_aea5, 0x3e22_b4af) == 0x429d_ffff);
    lemma_whole_known(0x429d_ffff, 0x9d_ffff, 132, 0x2_0000);
}

/// The value 0x3d9e_0757.
proof fn lemma_at_3d9e0757()
    ensures
        chord_code(0x3d9e_0757, 0x3d9d_5e8d, 0x3da5_5e8d, 0x429d_aea5, 0x42a1_89c3) == 79,
{
    reveal(chord_code);
    lemma2_to64();
    lemma2_to64_rest();
    lemma_high_powers();
    assert(0xa5_5e8d * 0x1 - 0x9d_5e8d * 0x1 == 0x8_0000);
    lemma_sum_known(0x3da5_5e8d, 0x3d9d_5e8d, true, 0xa5_5e8d, 122, 0x9d_5e8d, 122, 0x1, 0x1, 0x8_0000, 20, 0x8_0000, 0x10);
    assert(sub_spec(0x3da5_5e8d, 0x3d9d_5e8d) == 0x3b80_0000);
    assert(0x9e_0757 * 0x1 - 0x9d_5e8d * 0x1 == 0xa8ca);
    lemma_sum_known(0x3d9e_0757, 0x3d9d_5e8d, true, 0x9e_0757, 122, 0x9d_5e8d, 122, 0x1, 0x1, 0xa8ca, 16, 0x8000, 0x100);
    assert(sub_spec(0x3d9e_0757, 0x3d9d_5e8d) == 0x39a8_ca00);
    assert(0xa1_89c3 * 0x1 - 0x9d_aea5 * 0x1 == 0x3_db1e);
    lemma_sum_known(0x42a1_89c3, 0x429d_aea5, true, 0xa1_89c3, 132, 0x9d_aea5, 132, 0x1, 0x1, 0x3_db1e, 18, 0x2_0000, 0x40);
    assert(sub_spec(0x42a1_89c3, 0x429d_aea5) == 0x3ff6_c780);
    assert(0xf6_c780 * 0xa8_ca00 == 0xa2b5_a56b_0000);
    lemma_product_known(0x3ff6_c780, 0x39a8_ca00, 0xf6_c780, 126, 0xa8_ca00, 114, 0xa2b5_a56b_0000, 48, 0x8000_0000_0000, 0x100_0000);
    assert(mul_spec(0x3ff6_c780, 0x39a8_ca00) == 0x3a22_b5a5);
    assert(0xa2_b5a5 * 0x1_0000_0000_0000_0000 == 0x1_456b_4a00_0000_0000 * 0x80_0000 + 0x0);
    lemma_quotient_known(0x3a22_b5a5, 0x3b80_0000, 0xa2_b5a5, 115, 0x80_0000, 118, 0x1_456b_4a00_0000_0000, 0x0, 66, 0x2_0000_0000_0000_0000, 0x400_0000_0000);
    assert(div_spec(0x3a22_b5a5, 0x3b80_0000) == 0x3e22_b5a5);
    assert(0x9d_aea5 * 0x200 + 0xa2_b5a5 * 0x1 == 0x1_3bff_ffa5);
    lemma_sum_known(0x429d_aea5, 0x3e22_b5a5, false, 0x9d_aea5, 132, 0xa2_b5a5, 123, 0x200, 0x1, 0x1_3bff_ffa5, 33, 0x1_0000_0000, 0x200);
    assert(add_spec(0x429d_aea5, 0x3e22_b5a5) == 0x429e_0000);
    lemma_whole_known(0x429e_0000, 0x9e_0000, 132, 0x2_0000);
}

/// The edge of code 78.
proof fn lemma_near_78()
    ensures
        near_exact_edge(0x3d9e_0756, 78),
{
    lemma2_to64();
    lemma2_to64_rest();
    lemma_fifth_powers_of_two();
    lemma_more_fifth_powers_of_two();
    assert(92525nat * 92525 * 92525 == 0x2_d067_fe20_f5b5);
    assert(269025nat * 269025 * 269025 == 0x45_2c59_9066_9ca1);
    assert(0x2_d067_fe20_f5b5nat * 0x2_d067_fe20_f5b5 == 0x7_eb49_1fb7_e0e5_4377_8513_f1f9nat);
    assert(0x7_eb49_1fb7_e0e5_4377_8513_f1f9nat * 0x7_eb49_1fb7_e0e5_4377_8513_f1f9nat == 0x3e_b63f_112c_fe3a_e9b2_0343_29bb_2b9f_0496_15db_0678_89ac_c431nat);
    assert(0x45_2c59_9066_9ca1nat * 0x45_2c59_9066_9ca1 == 0x12b0_eff6_c049_6d6d_d948_5020_9d41nat);
    assert(0x12b0_eff6_c049_6d6d_d948_5020_9d41nat * 0x12b0_eff6_c049_6d6d_d948_5020_9d41nat == 0x15d_5c09_8741_6139_2178_92b9_bce5_5f46_89a2_dd05_b95f_0d00_50d8_ca81nat);
    assert(0x315_9caenat * 0x315_9cae == 0x9_837f_2870_8644);
    assert(0x9_837f_2870_8644nat * 0x9_837f_2870_8644 == 0x5a_827c_3a75_c03a_2ae3_01eb_4210nat);
    assert(0x5a_827c_3a75_c03a_2ae3_01eb_4210nat * 0x315_9cae == 0x1_172b_8de8_90f8_f072_4750_6589_4578_a6e0nat);
    assert(0x316_acaenat * 0x316_acae == 0x9_8a0e_3662_4644);
    assert(0x9_8a0e_3662_4644nat * 0x9_8a0e_3662_4644 == 0x5a_ff73_2654_e2d6_9ace_8f59_4210nat);
    assert(0x5a_ff73_2654_e2d6_9ace_8f59_4210nat * 0x316_acae == 0x1_190d_aed3_47f9_185c_174e_5e27_446d_a6e0nat);
    assert(0x1_172b_8de8_90f8_f072_4750_6589_4578_a6e0nat * 0x15d_5c09_8741_6139_2178_92b9_bce5_5f46_89a2_dd05_b95f_0d00_50d8_ca81nat == 0x17c_fabe_8114_7890_d56c_a5ae_a0b7_4d33_ce67_7e9c_7d6e_6ec0_6a30_d41a_f72b_4528_0558_34b0_dec3_2cf0_0278_d6e0nat);
    assert(0x1_190d_aed3_47f9_185c_174e_5e27_446d_a6e0nat * 0x15d_5c09_8741_6139_2178_92b9_bce5_5f46_89a2_dd05_b95f_0d00_50d8_ca81nat == 0x17f_8cb2_b6d6_3048_f8b1_79e4_66c7_d234_3c08_342a_58a4_cfe1_57da_cabc_136b_d021_eb7b_5b79_a9e5_ce72_cded_d6e0nat);
    assert(0xc35nat * 0x80_0000_0000_0000_0000_0000_0000_0000_0000nat == 0x6_1a80_0000_0000_0000_0000_0000_0000_0000_0000nat);
    assert(0x3e_b63f_112c_fe3a_e9b2_0343_29bb_2b9f_0496_15db_0678_89ac_c431nat * 0x6_1a80_0000_0000_0000_0000_0000_0000_0000_0000nat == 0x17e_c357_ee55_1db2_935d_00e9_6e34_e5be_117e_0c65_52fe_b44c_fb75_1280_0000_0000_0000_0000_0000_0000_0000_0000nat);
    lemma_near_above(
        0x3d9e_0756, 0x9e_0756, 122, 0x800, 0x6_1a80_0000_0000_0000_0000_0000_0000_0000_0000nat, 78,
        92525, 0x2_d067_fe20_f5b5,
        0x7_eb49_1fb7_e0e5_4377_8513_f1f9nat,
        0x45_2c59_9066_9ca1, 0x12b0_eff6_c049_6d6d_d948_5020_9d41nat,
        0x315_9cae, 0x9_837f_2870_8644, 0x5a_827c_3a75_c03a_2ae3_01eb_4210nat,
        0x316_acae, 0x9_8a0e_3662_4644, 0x5a_ff73_2654_e2d6_9ace_8f59_4210nat,
    );
}

/// The value 0x3da2_2d99.
proof fn lemma_at_3da22d99()
    ensures
        chord_code(0x3da2_2d99, 0x3d9d_5e8d, 0x3da5_5e8d, 0x429d_aea5, 0x42a1_89c3) == 79,
{
    reveal(chord_code);
    lemma2_to64();
    lemma2_to64_rest();
    lemma_high_powers();
    assert(0xa5_5e8d * 0x1 - 0x9d_5e8d * 0x1 == 0x8_0000);
    lemma_sum_known(0x3da5_5e8d, 0x3d9d_5e8d, true, 0xa5_5e8d, 122, 0x9d_5e8d, 122, 0x1, 0x1, 0x8_0000, 20, 0x8_0000, 0x10);
    assert(sub_spec(0x3da5_5e8d, 0x3d9d_5e8d) == 0x3b80_0000);
    assert(0xa2_2d99 * 0x1 - 0x9d_5e8d * 0x1 == 0x4_cf0c);
    lemma_sum_known(0x3da2_2d99, 0x3d9d_5e8d, true, 0xa2_2d99, 122, 0x9d_5e8d, 122, 0x1, 0x1, 0x4_cf0c, 19, 0x4_0000, 0x20);
    assert(sub_spec(0x3da2_2d99, 0x3d9d_5e8d) == 0x3b19_e180);
    assert(0xa1_89c3 * 0x1 - 0x9d_aea5 * 0x1 == 0x3_db1e);
    lemma_sum_known(0x42a1_89c3, 0x429d_aea5, true, 0xa1_89c3, 132, 0x9d_aea5, 132, 0x1, 0x1, 0x3_db1e, 18, 0x2_0000, 0x40);
    assert(sub_spec(0x42a1_89c3, 0x429d_aea5) == 0x3ff6_c780);
    assert(0xf6_c780 * 0x99_e180 == 0x9456_9c3b_4000);
    lemma_product_known(0x3ff6_c780, 0x3b19_e180, 0xf6_c780, 126, 0x99_e180, 117, 0x9456_9c3b_4000, 48, 0x8000_0000_0000, 0x100_0000);
    assert(mul_spec(0x3ff6_c780, 0x3b19_e180) == 0x3b94_569c);
    assert(0x94_569c * 0x1_0000_0000_0000_0000 == 0x1_28ad_3800_0000_0000 * 0x80_0000 + 0x0);
    lemma_quotient_known(0x3b94_569c, 0x3b80_0000, 0x94_569c, 118, 0x80_0000, 118, 0x1_28ad_3800_0000_0000, 0x0, 66, 0x2_0000_0000_0000_0000, 0x400_0000_0000);
    assert(div_spec(0x3b94_569c, 0x3b80_0000) == 0x3f94_569c);
    assert(0x9d_aea5 * 0x40 + 0x94_569c * 0x1 == 0x27ff_ffdc);
    lemma_sum_known(0x429d_aea5, 0x3f94_569c, false, 0x9d_aea5, 132, 0x94_569c, 126, 0x40, 0x1, 0x27ff_ffdc, 30, 0x2000_0000, 0x40);
    assert(add_spec(0x429d_aea5, 0x3f94_569c) == 0x429f_ffff);
    lemma_whole_known(0x429f_ffff, 0x9f_ffff, 132, 0x2_0000);
}

/// The value 0x3da2_2d9a.
proof fn lemma_at_3da22d9a()
    ensures
        chord_code(0x3da2_2d9a, 0x3d9d_5e8d, 0x3da5_5e8d, 0x429d_aea5, 0x42a1_89c3) == 80,
{
    reveal(chord_code);
    lemma2_to64();
    lemma2_to64_rest();
    lemma_high_powers();
    assert(0xa5_5e8d * 0x1 - 0x9d_5e8d * 0x1 == 0x8_0000);
    lemma_sum_known(0x3da5_5e8d, 0x3d9d_5e8d, true, 0xa5_5e8d, 122, 0x9d_5e8d, 122, 0x1, 0x1, 0x8_0000, 20, 0x8_0000, 0x10);
    assert(sub_spec(0x3da5_5e8d, 0x3d9d_5e8d) == 0x3b80_0000);
    assert(0xa2_2d9a * 0x1 - 0x9d_5e8d * 0x1 == 0x4_cf0d);
    lemma_sum_known(0x3da2_2d9a, 0x3d9d_5e8d, true, 0xa2_2d9a, 122, 0x9d_5e8d, 122, 0x1, 0x1, 0x4_cf0d, 19, 0x4_0000, 0x20);
    assert(sub_spec(0x3da2_2d9a, 0x3d9d_5e8d) == 0x3b19_e1a0);
    assert(0xa1_89c3 * 0x1 - 0x9d_aea5 * 0x1 == 0x3_db1e);
    lemma_sum_known(0x42a1_89c3, 0x429d_aea5, true, 0xa1_89c3, 132, 0x9d_aea5, 132, 0x1, 0x1, 0x3_db1e, 18, 0x2_0000, 0x40);
    assert(sub_spec(0x42a1_89c3, 0x429d_aea5) == 0x3ff6_c780);
    assert(0xf6_c780 * 0x99_e1a0 == 0x9456_bb14_3000);
    lemma_product_known(0x3ff6_c780, 0x3b19_e1a0, 0xf6_c780, 126, 0x99_e1a0, 117, 0x9456_bb14_3000, 48, 0x8000_0000_0000, 0x100_0000);
    assert(mul_spec(0x3ff6_c780, 0x3b19_e1a0) == 0x3b94_56bb);
    assert(0x94_56bb * 0x1_0000_0000_0000_0000 == 0x1_28ad_7600_0000_0000 * 0x80_0000 + 0x0);
    lemma_quotient_known(0x3b94_56bb, 0x3b80_0000, 0x94_56bb, 118, 0x80_0000, 118, 0x1_28ad_7600_0000_0000, 0x0, 66, 0x2_0000_0000_0000_0000, 0x400_0000_0000);
    assert(div_spec(0x3b94_56bb, 0x3b80_0000) == 0x3f94_56bb);
    assert(0x9d_aea5 * 0x40 + 0x94_56bb * 0x1 == 0x27ff_fffb);
    lemma_sum_known(0x429d_aea5, 0x3f94_56bb, false, 0x9d_aea5, 132, 0x94_56bb, 126, 0x40, 0x1, 0x27ff_fffb, 30, 0x2000_0000, 0x40);
    assert(add_spec(0x429d_aea5, 0x3f94_56bb) == 0x42a0_0000);
    lemma_whole_known(0x42a0_0000, 0xa0_0000, 132, 0x2_0000);
}

/// The edge of code 79.
proof fn lemma_near_79()
    ensures
        near_exact_edge(0x3da2_2d99, 79),
{
    lemma2_to64();
    lemma2_to64_rest();
    lemma_fifth_powers_of_two();
    lemma_more_fifth_powers_of_two();
    assert(93525nat * 93525 * 93525 == 0x2_e804_8e58_2ded);
    assert(269025nat * 269025 * 269025 == 0x45_2c59_9066_9ca1);
    assert(0x2_e804_8e58_2dednat * 0x2_e804_8e58_2ded == 0x8_725a_7b75_4cd8_f0ba_872d_2d69nat);
    assert(0x8_725a_7b75_4cd8_f0ba_872d_2d69nat * 0x8_725a_7b75_4cd8_f0ba_872d_2d69nat == 0x47_58bc_6d44_5004_382f_a30e_edf0_4827_9c8a_635b_8a71_bcf8_1511nat);
    assert(0x45_2c59_9066_9ca1nat * 0x45_2c59_9066_9ca1 == 0x12b0_eff6_c049_6d6d_d948_5020_9d41nat);
    assert(0x12b0_eff6_c049_6d6d_d948_5020_9d41nat * 0x12b0_eff6_c049_6d6d_d948_5020_9d41nat == 0x15d_5c09_8741_6139_2178_92b9_bce5_5f46_89a2_dd05_b95f_0d00_50d8_ca81nat);
    assert(0x32a_5bfdnat * 0x32a_5bfd == 0xa_052a_3e11_d809);
    assert(0xa_052a_3e11_d809nat * 0xa_052a_3e11_d809 == 0x64_6767_86ca_000b_e2d6_c381_3051nat);
    assert(0x64_6767_86ca_000b_e2d6_c381_3051nat * 0x32a_5bfd == 0x1_3dd3_418c_795e_2942_00e8_1c81_0323_8b0dnat);
    assert(0x32b_6bfdnat * 0x32b_6bfd == 0xa_0be5_628b_7809);
    assert(0xa_0be5_628b_7809nat * 0xa_0be5_628b_7809 == 0x64_ee79_36e6_d078_99fc_760e_7051nat);
    assert(0x64_ee79_36e6_d078_99fc_760e_7051nat * 0x32b_6bfd == 0x1_3fea_0d6d_44f4_294e_4256_b396_85d1_db0dnat);
    assert(0x1_3dd3_418c_795e_2942_00e8_1c81_0323_8b0dnat * 0x15d_5c09_8741_6139_2178_92b9_bce5_5f46_89a2_dd05_b95f_0d00_50d8_ca81nat == 0x1b1_bb44_1c68_d1d5_0c37_9fa5_332c_e4b5_e439_278e_fe3c_928a_1115_7004_4c47_e95d_2f87_82d0_c62c_93ee_0399_538dnat);
    assert(0x1_3fea_0d6d_44f4_294e_4256_b396_85d1_db0dnat * 0x15d_5c09_8741_6139_2178_92b9_bce5_5f46_89a2_dd05_b95f_0d00_50d8_ca81nat == 0x1b4_9518_530a_df7c_9740_84d2_ea9f_981c_228f_c75d_d196_4422_9e7d_e144_f340_dfc1_e380_1747_bf2a_6af5_e88f_a38dnat);
    assert(0xc35nat * 0x80_0000_0000_0000_0000_0000_0000_0000_0000nat == 0x6_1a80_0000_0000_0000_0000_0000_0000_0000_0000nat);
    assert(0x47_58bc_6d44_5004_382f_a30e_edf0_4827_9c8a_635b_8a71_bcf8_1511nat * 0x6_1a80_0000_0000_0000_0000_0000_0000_0000_0000nat == 0x1b3_771a_10e9_7261_c0ee_c0ba_9f43_1065_c4f2_a76e_387f_33e0_2c94_4280_0000_0000_0000_0000_0000_0000_0000_0000nat);
    lemma_near_above(
        0x3da2_2d99, 0xa2_2d99, 122, 0x800, 0x6_1a80_0000_0000_0000_0000_0000_0000_0000_0000nat, 79,
        93525, 0x2_e804_8e58_2ded,
        0x8_725a_7b75_4cd8_f0ba_872d_2d69nat,
        0x45_2c59_9066_9ca1, 0x12b0_eff6_c049_6d6d_d948_5020_9d41nat,
        0x32a_5bfd, 0xa_052a_3e11_d809, 0x64_6767_86ca_000b_e2d6_c381_3051nat,
        0x32b_6bfd, 0xa_0be5_628b_7809, 0x64_ee79_36e6_d078_99fc_760e_7051nat,
    );
}

/// The value 0x3da6_5ad7.
proof fn lemma_at_3da65ad7()
    ensures
        chord_code(0x3da6_5ad7, 0x3da5_5e8d, 0x3dad_5e8d, 0x42a1_89c3, 0x42a5_498f) == 80,
{
    reveal(chord_code);
    lemma2_to64();
    lemma2_to64_rest();
    lemma_high_powers();
    assert(0xad_5e8d * 0x1 - 0xa5_5e8d * 0x1 == 0x8_0000);
    lemma_sum_known(0x3dad_5e8d, 0x3da5_5e8d, true, 0xad_5e8d, 122, 0xa5_5e8d, 122, 0x1, 0x1, 0x8_0000, 20, 0x8_0000, 0x10);
    assert(sub_spec(0x3dad_5e8d, 0x3da5_5e8d) == 0x3b80_0000);
    assert(0xa6_5ad7 * 0x1 - 0xa5_5e8d * 0x1 == 0xfc4a);
    lemma_sum_known(0x3da6_5ad7, 0x3da5_5e8d, true, 0xa6_5ad7, 122, 0xa5_5e8d, 122, 0x1, 0x1, 0xfc4a, 16, 0x8000, 0x100);
    assert(sub_spec(0x3da6_5ad7, 0x3da5_5e8d) == 0x39fc_4a00);
    assert(0xa5_498f * 0x1 - 0xa1_89c3 * 0x1 == 0x3_bfcc);
    lemma_sum_known(0x42a5_498f, 0x42a1_89c3, true, 0xa5_498f, 132, 0xa1_89c3, 132, 0x1, 0x1, 0x3_bfcc, 18, 0x2_0000, 0x40);
    assert(sub_spec(0x42a5_498f, 0x42a1_89c3) == 0x3fef_f300);
    assert(0xef_f300 * 0xfc_4a00 == 0xec78_903e_0000);
    lemma_product_known(0x3fef_f300, 0x39fc_4a00, 0xef_f300, 126, 0xfc_4a00, 114, 0xec78_903e_0000, 48, 0x8000_0000_0000, 0x100_0000);
    assert(mul_spec(0x3fef_f300, 0x39fc_4a00) == 0x3a6c_7890);
    assert(0xec_7890 * 0x1_0000_0000_0000_0000 == 0x1_d8f1_2000_0000_0000 * 0x80_0000 + 0x0);
    lemma_quotient_known(0x3a6c_7890, 0x3b80_0000, 0xec_7890, 115, 0x80_0000, 118, 0x1_d8f1_2000_0000_0000, 0x0, 66, 0x2_0000_0000_0000_0000, 0x400_0000_0000);
    assert(div_spec(0x3a6c_7890, 0x3b80_0000) == 0x3e6c_7890);
    assert(0xa1_89c3 * 0x200 + 0xec_7890 * 0x1 == 0x1_43ff_fe90);
    lemma_sum_known(0x42a1_89c3, 0x3e6c_7890, false, 0xa1_89c3, 132, 0xec_7890, 123, 0x200, 0x1, 0x1_43ff_fe90, 33, 0x1_0000_0000, 0x200);
    assert(add_spec(0x42a1_89c3, 0x3e6c_7890) == 0x42a1_ffff);
    lemma_whole_known(0x42a1_ffff, 0xa1_ffff, 132, 0x2_0000);
}

/// The value 0x3da6_5ad8.
proof fn lemma_at_3da65ad8()
    ensures
        chord_code(0x3da6_5ad8, 0x3da5_5e8d, 0x3dad_5e8d, 0x42a1_89c3, 0x42a5_498f) == 81,
{
    reveal(chord_code);
    lemma2_to64();
    lemma2_to64_rest();
    lemma_high_powers();
    assert(0xad_5e8d * 0x1 - 0xa5_5e8d * 0x1 == 0x8_0000);
    lemma_sum_known(0x3dad_5e8d, 0x3da5_5e8d, true, 0xad_5e8d, 122, 0xa5_5e8d, 122, 0x1, 0x1, 0x8_0000, 20, 0x8_0000, 0x10);
    assert(sub_spec(0x3dad_5e8d, 0x3da5_5e8d) == 0x3b80_0000);
    assert(0xa6_5ad8 * 0x1 - 0xa5_5e8d * 0x1 == 0xfc4b);
    lemma_sum_known(0x3da6_5ad8, 0x3da5_5e8d, true, 0xa6_5ad8, 122, 0xa5_5e8d, 122, 0x1, 0x1, 0xfc4b, 16, 0x8000, 0x100);
    assert(sub_spec(0x3da6_5ad8, 0x3da5_5e8d) == 0x39fc_4b00);
    assert(0xa5_498f * 0x1 - 0xa1_89c3 * 0x1 == 0x3_bfcc);
    lemma_sum_known(0x42a5_498f, 0x42a1_89c3, true, 0xa5_498f, 132, 0xa1_89c3, 132, 0x1, 0x1, 0x3_bfcc, 18, 0x2_0000, 0x40);
    assert(sub_spec(0x42a5_498f, 0x42a1_89c3) == 0x3fef_f300);
    assert(0xef_f300 * 0xfc_4b00 == 0xec79_8031_0000);
    lemma_product_known(0x3fef_f300, 0x39fc_4b00, 0xef_f300, 126, 0xfc_4b00, 114, 0xec79_8031_0000, 48, 0x8000_0000_0000, 0x100_0000);
    assert(mul_spec(0x3fef_f300, 0x39fc_4b00) == 0x3a6c_7980);
    assert(0xec_7980 * 0x1_0000_0000_0000_0000 == 0x1_d8f3_0000_0000_0000 * 0x80_0000 + 0x0);
    lemma_quotient_known(0x3a6c_7980, 0x3b80_0000, 0xec_7980, 115, 0x80_0000, 118, 0x1_d8f3_0000_0000_0000, 0x0, 66, 0x2_0000_0000_0000_0000, 0x400_0000_0000);
    assert(div_spec(0x3a6c_7980, 0x3b80_0000) == 0x3e6c_7980);
    assert(0xa1_89c3 * 0x200 + 0xec_7980 * 0x1 == 0x1_43ff_ff80);
    lemma_sum_known(0x42a1_89c3, 0x3e6c_7980, false, 0xa1_89c3, 132, 0xec_7980, 123, 0x200, 0x1, 0x1_43ff_ff80, 33, 0x1_0000_0000, 0x200);
    assert(add_spec(0x42a1_89c3, 0x3e6c_7980) == 0x42a2_0000);
    lemma_whole_known(0x42a2_0000, 0xa2_0000, 132, 0x2_0000);
}

/// The edge of code 80.
proof fn lemma_near_80()
    ensures
        near_exact_edge(0x3da6_5ad7, 80),
{
    lemma2_to64();
    lemma2_to64_rest();
    lemma_fifth_powers_of_two();
    lemma_more_fifth_powers_of_two();
    assert(94525nat * 94525 * 94525 == 0x3_0023_c5b4_e1a5);
    assert(269025nat * 269025 * 269025 == 0x45_2c59_9066_9ca1);
    assert(0x3_0023_c5b4_e1a5nat * 0x3_0023_c5b4_e1a5 == 0x9_00d6_a73c_f203_9634_08eb_7459nat);
    assert(0x9_00d6_a73c_f203_9634_08eb_7459nat * 0x9_00d6_a73c_f203_9634_08eb_7459nat == 0x51_0f18_7645_0b65_bfea_c3fe_2bf7_232d_0a3c_8a65_1ffc_6046_c6f1nat);
    assert(0x45_2c59_9066_9ca1nat * 0x45_2c59_9066_9ca1 == 0x12b0_eff6_c049_6d6d_d948_5020_9d41nat);
    assert(0x12b0_eff6_c049_6d6d_d948_5020_9d41nat * 0x12b0_eff6_c049_6d6d_d948_5020_9d41nat == 0x15d_5c09_8741_6139_2178_92b9_bce5_5f46_89a2_dd05_b95f_0d00_50d8_ca81nat);
    assert(0x33f_3e33nat * 0x33f_3e33 == 0xa_8b14_de36_be29);
    assert(0xa_8b14_de36_be29nat * 0xa_8b14_de36_be29 == 0x6f_2931_0749_c725_39eb_e28c_e291nat);
    assert(0x6f_2931_0749_c725_39eb_e28c_e291nat * 0x33f_3e33 == 0x1_68f1_b845_bd05_c3c4_b526_122f_b59f_40e3nat);
    assert(0x340_4e33nat * 0x340_4e33 == 0xa_91fc_6363_1e29);
    assert(0xa_91fc_6363_1e29nat * 0xa_91fc_6363_1e29 == 0x6f_baf7_a528_7517_a26c_0d43_a291nat);
    assert(0x6f_baf7_a528_7517_a26c_0d43_a291nat * 0x340_4e33 == 0x1_6b41_c612_7724_c78c_665d_6361_9741_90e3nat);
    assert(0x1_68f1_b845_bd05_c3c4_b526_122f_b59f_40e3nat * 0x15d_5c09_8741_6139_2178_92b9_bce5_5f46_89a2_dd05_b95f_0d00_50d8_ca81nat == 0x1ec_934c_847e_e1de_4ef2_2db3_a802_c7c4_d3bf_2212_5602_3431_0a13_24e8_ee7a_9419_2d9c_be82_c914_58ff_ddfa_d063nat);
    assert(0x1_6b41_c612_7724_c78c_665d_6361_9741_90e3nat * 0x15d_5c09_8741_6139_2178_92b9_bce5_5f46_89a2_dd05_b95f_0d00_50d8_ca81nat == 0x1ef_bb44_2f97_7bb7_771e_566d_1c04_ac16_3b06_f474_612d_35ea_378d_c4f2_f487_daf6_2c04_2785_c2ae_b920_23e5_2063nat);
    assert(0xc35nat * 0x80_0000_0000_0000_0000_0000_0000_0000_0000nat == 0x6_1a80_0000_0000_0000_0000_0000_0000_0000_0000nat);
    assert(0x51_0f18_7645_0b65_bfea_c3fe_2bf7_232d_0a3c_8a65_1ffc_6046_c6f1nat * 0x6_1a80_0000_0000_0000_0000_0000_0000_0000_0000nat == 0x1ee_bea2_cddc_6a10_87de_653e_d757_e832_66fa_82b2_37b9_e19f_fd3d_f280_0000_0000_0000_0000_0000_0000_0000_0000nat);
    lemma_near_above(
        0x3da6_5ad7, 0xa6_5ad7, 122, 0x800, 0x6_1a80_0000_0000_0000_0000_0000_0000_0000_0000nat, 80,
        94525, 0x3_0023_c5b4_e1a5,
        0x9_00d6_a73c_f203_9634_08eb_7459nat,
        0x45_2c59_9066_9ca1, 0x12b0_eff6_c049_6d6d_d948_5020_9d41nat,
        0x33f_3e33, 0xa_8b14_de36_be29, 0x6f_2931_0749_c725_39eb_e28c_e291nat,
        0x340_4e33, 0xa_91fc_6363_1e29, 0x6f_baf7_a528_7517_a26c_0d43_a291nat,
    );
}

/// The value 0x3daa_9f56.
proof fn lemma_at_3daa9f56()
    ensures
        chord_code(0x3daa_9f56, 0x3da5_5e8d, 0x3dad_5e8d, 0x42a1_89c3, 0x42a5_498f) == 81,
{
    reveal(chord_code);
    lemma2_to64();
    lemma2_to64_rest();
    lemma_high_powers();
    assert(0xad_5e8d * 0x1 - 0xa5_5e8d * 0x1 == 0x8_0000);
    lemma_sum_known(0x3dad_5e8d, 0x3da5_5e8d, true, 0xad_5e8d, 122, 0xa5_5e8d, 122, 0x1, 0x1, 0x8_0000, 20, 0x8_0000, 0x10);
    assert(sub_spec(0x3dad_5e8d, 0x3da5_5e8d) == 0x3b80_0000);
    assert(0xaa_9f56 * 0x1 - 0xa5_5e8d * 0x1 == 0x5_40c9);
    lemma_sum_known(0x3daa_9f56, 0x3da5_5e8d, true, 0xaa_9f56, 122, 0xa5_5e8d, 122, 0x1, 0x1, 0x5_40c9, 19, 0x4_0000, 0x20);
    assert(sub_spec(0x3daa_9f56, 0x3da5_5e8d) == 0x3b28_1920);
    assert(0xa5_498f * 0x1 - 0xa1_89c3 * 0x1 == 0x3_bfcc);
    lemma_sum_known(0x42a5_498f, 0x42a1_89c3, true, 0xa5_498f, 132, 0xa1_89c3, 132, 0x1, 0x1, 0x3_bfcc, 18, 0x2_0000, 0x40);
    assert(sub_spec(0x42a5_498f, 0x42a1_89c3) == 0x3fef_f300);
    assert(0xef_f300 * 0xa8_1920 == 0x9d8f_04b9_6000);
    lemma_product_known(0x3fef_f300, 0x3b28_1920, 0xef_f300, 126, 0xa8_1920, 117, 0x9d8f_04b9_6000, 48, 0x8000_0000_0000, 0x100_0000);
    assert(mul_spec(0x3fef_f300, 0x3b28_1920) == 0x3b9d_8f05);
    assert(0x9d_8f05 * 0x1_0000_0000_0000_0000 == 0x1_3b1e_0a00_0000_0000 * 0x80_0000 + 0x0);
    lemma_quotient_known(0x3b9d_8f05, 0x3b80_0000, 0x9d_8f05, 118, 0x80_0000, 118, 0x1_3b1e_0a00_0000_0000, 0x0, 66, 0x2_0000_0000_0000_0000, 0x400_0000_0000);
    assert(div_spec(0x3b9d_8f05, 0x3b80_0000) == 0x3f9d_8f05);
    assert(0xa1_89c3 * 0x40 + 0x9d_8f05 * 0x1 == 0x28ff_ffc5);
    lemma_sum_known(0x42a1_89c3, 0x3f9d_8f05, false, 0xa1_89c3, 132, 0x9d_8f05, 126, 0x40, 0x1, 0x28ff_ffc5, 30, 0x2000_0000, 0x40);
    assert(add_spec(0x42a1_89c3, 0x3f9d_8f05) == 0x42a3_ffff);
    lemma_whole_known(0x42a3_ffff, 0xa3_ffff, 132, 0x2_0000);
}

/// The value 0x3daa_9f57.
proof fn lemma_at_3daa9f57()
    ensures
        chord_code(0x3daa_9f57, 0x3da5_5e8d, 0x3dad_5e8d, 0x42a1_89c3, 0x42a5_498f) == 82,
{
    reveal(chord_code);
    lemma2_to64();
    lemma2_to64_rest();
    lemma_high_powers();
    assert(0xad_5e8d * 0x1 - 0xa5_5e8d * 0x1 == 0x8_0000);
    lemma_sum_known(0x3dad_5e8d, 0x3da5_5e8d, true, 0xad_5e8d, 122, 0xa5_5e8d, 122, 0x1, 0x1, 0x8_0000, 20, 0x8_0000, 0x10);
    assert(sub_spec(0x3dad_5e8d, 0x3da5_5e8d) == 0x3b80_0000);
    assert(0xaa_9f57 * 0x1 - 0xa5_5e8d * 0x1 == 0x5_40ca);
    lemma_sum_known(0x3daa_9f57, 0x3da5_5e8d, true, 0xaa_9f57, 122, 0xa5_5e8d, 122, 0x1, 0x1, 0x5_40ca, 19, 0x4_0000, 0x20);
    assert(sub_spec(0x3daa_9f57, 0x3da5_5e8d) == 0x3b28_1940);
    assert(0xa5_498f * 0x1 - 0xa1_89c3 * 0x1 == 0x3_bfcc);
    lemma_sum_known(0x42a5_498f, 0x42a1_89c3, true, 0xa5_498f, 132, 0xa1_89c3, 132, 0x1, 0x1, 0x3_bfcc, 18, 0x2_0000, 0x40);
    assert(sub_spec(0x42a5_498f, 0x42a1_89c3) == 0x3fef_f300);
    assert(0xef_f300 * 0xa8_1940 == 0x9d8f_22b7_c000);
    lemma_product_known(0x3fef_f300, 0x3b28_1940, 0xef_f300, 126, 0xa8_1940, 117, 0x9d8f_22b7_c000, 48, 0x8000_0000_0000, 0x100_0000);
    assert(mul_spec(0x3fef_f300, 0x3b28_1940) == 0x3b9d_8f23);
    assert(0x9d_8f23 * 0x1_0000_0000_0000_0000 == 0x1_3b1e_4600_0000_0000 * 0x80_0000 + 0x0);
    lemma_quotient_known(0x3b9d_8f23, 0x3b80_0000, 0x9d_8f23, 118, 0x80_0000, 118, 0x1_3b1e_4600_0000_0000, 0x0, 66, 0x2_0000_0000_0000_0000, 0x400_0000_0000);
    assert(div_spec(0x3b9d_8f23, 0x3b80_0000) == 0x3f9d_8f23);
    assert(0xa1_89c3 * 0x40 + 0x9d_8f23 * 0x1 == 0x28ff_ffe3);
    lemma_sum_known(0x42a1_89c3, 0x3f9d_8f23, false, 0xa1_89c3, 132, 0x9d_8f23, 126, 0x40, 0x1, 0x28ff_ffe3, 30, 0x2000_0000, 0x40);
    assert(add_spec(0x42a1_89c3, 0x3f9d_8f23) == 0x42a4_0000);
    lemma_whole_known(0x42a4_0000, 0xa4_0000, 132, 0x2_0000);
}

/// The edge of code 81.
proof fn lemma_near_81()
    ensures
        near_exact_edge(0x3daa_9f56, 81),
{
    lemma2_to64();
    lemma2_to64_rest();
    lemma_fifth_powers_of_two();
    lemma_more_fifth_powers_of_two();
    assert(95525nat * 95525 * 95525 == 0x3_18c7_09d7_ccdd);
    assert(269025nat * 269025 * 269025 == 0x45_2c59_9066_9ca1);
    assert(0x3_18c7_09d7_ccddnat * 0x3_18c7_09d7_ccdd == 0x9_9710_27a7_9178_d1e7_4926_f6c9nat);
    assert(0x9_9710_27a7_9178_d1e7_4926_f6c9nat * 0x9_9710_27a7_9178_d1e7_4926_f6c9nat == 0x5b_f846_d994_e331_f4fe_2832_e0fa_bcf5_66bb_c69c_cf6a_d392_e9d1nat);
    assert(0x45_2c59_9066_9ca1nat * 0x45_2c59_9066_9ca1 == 0x12b0_eff6_c049_6d6d_d948_5020_9d41nat);
    assert(0x12b0_eff6_c049_6d6d_d948_5020_9d41nat * 0x12b0_eff6_c049_6d6d_d948_5020_9d41nat == 0x15d_5c09_8741_6139_2178_92b9_bce5_5f46_89a2_dd05_b95f_0d00_50d8_ca81nat);
    assert(0x354_94aenat * 0x354_94ae == 0xb_176d_fc89_a644);
    assert(0xb_176d_fc89_a644nat * 0xb_176d_fc89_a644 == 0x7b_0598_a676_0c0f_1741_40c4_4210nat);
    assert(0x7b_0598_a676_0c0f_1741_40c4_4210nat * 0x354_94ae == 0x1_99b6_12e4_0edd_856e_50df_14f7_58d6_26e0nat);
    assert(0x355_a4aenat * 0x355_a4ae == 0xb_1e82_d97b_6644);
    assert(0xb_1e82_d97b_6644nat * 0xb_1e82_d97b_6644 == 0x7b_a2e1_9e75_4fe6_3bea_b632_4210nat);
    assert(0x7b_a2e1_9e75_4fe6_3bea_b632_4210nat * 0x355_a4ae == 0x1_9c45_4226_3bc0_1511_71f0_2bb6_27cb_26e0nat);
    assert(0x1_99b6_12e4_0edd_856e_50df_14f7_58d6_26e0nat * 0x15d_5c09_8741_6139_2178_92b9_bce5_5f46_89a2_dd05_b95f_0d00_50d8_ca81nat == 0x22f_2084_6f90_8a25_8524_3cb1_3f9a_7706_0e73_9cae_48d2_7cb5_4b88_89f4_a6c2_9464_47ce_a6a0_f083_fd93_8b96_56e0nat);
    assert(0x1_9c45_4226_3bc0_1511_71f0_2bb6_27cb_26e0nat * 0x15d_5c09_8741_6139_2178_92b9_bce5_5f46_89a2_dd05_b95f_0d00_50d8_ca81nat == 0x232_9ea3_6a26_55b8_0eb6_1f4c_1859_c22c_54ab_867c_b79e_6708_b9ea_f991_9540_6e16_9597_87e0_58be_31bf_270b_56e0nat);
    assert(0xc35nat * 0x80_0000_0000_0000_0000_0000_0000_0000_0000nat == 0x6_1a80_0000_0000_0000_0000_0000_0000_0000_0000nat);
    assert(0x5b_f846_d994_e331_f4fe_2832_e0fa_bcf5_66bb_c69c_cf6a_d392_e9d1nat * 0x6_1a80_0000_0000_0000_0000_0000_0000_0000_0000nat == 0x231_56dc_6f03_3cb0_69d1_405a_8a2a_624f_cf89_17bc_17f9_8458_301a_2280_0000_0000_0000_0000_0000_0000_0000_0000nat);
    lemma_near_above(
        0x3daa_9f56, 0xaa_9f56, 122, 0x800, 0x6_1a80_0000_0000_0000_0000_0000_0000_0000_0000nat, 81,
        95525, 0x3_18c7_09d7_ccdd,
        0x9_9710_27a7_9178_d1e7_4926_f6c9nat,
        0x45_2c59_9066_9ca1, 0x12b0_eff6_c049_6d6d_d948_5020_9d41nat,
        0x354_94ae, 0xb_176d_fc89_a644, 0x7b_0598_a676_0c0f_1741_40c4_4210nat,
        0x355_a4ae, 0xb_1e82_d97b_6644, 0x7b_a2e1_9e75_4fe6_3bea_b632_4210nat,
    );
}

/// The value 0x3dae_ee8b.
proof fn lemma_at_3daeee8b()
    ensures
        chord_code(0x3dae_ee8b, 0x3dad_5e8d, 0x3db5_5e8d, 0x42a5_498f, 0x42a8_efaa) == 82,
{
    reveal(chord_code);
    lemma2_to64();
    lemma2_to64_rest();
    lemma_high_powers();
    assert(0xb5_5e8d * 0x1 - 0xad_5e8d * 0x1 == 0x8_0000);
    lemma_sum_known(0x3db5_5e8d, 0x3dad_5e8d, true, 0xb5_5e8d, 122, 0xad_5e8d, 122, 0x1, 0x1, 0x8_0000, 20, 0x8_0000, 0x10);
    assert(sub_spec(0x3db5_5e8d, 0x3dad_5e8d) == 0x3b80_0000);
    assert(0xae_ee8b * 0x1 - 0xad_5e8d * 0x1 == 0x1_8ffe);
    lemma_sum_known(0x3dae_ee8b, 0x3dad_5e8d, true, 0xae_ee8b, 122, 0xad_5e8d, 122, 0x1, 0x1, 0x1_8ffe, 17, 0x1_0000, 0x80);
    assert(sub_spec(0x3dae_ee8b, 0x3dad_5e8d) == 0x3a47_ff00);
    assert(0xa8_efaa * 0x1 - 0xa5_498f * 0x1 == 0x3_a61b);
    lemma_sum_known(0x42a8_efaa, 0x42a5_498f, true, 0xa8_efaa, 132, 0xa5_498f, 132, 0x1, 0x1, 0x3_a61b, 18, 0x2_0000, 0x40);
    assert(sub_spec(0x42a8_efaa, 0x42a5_498f) == 0x3fe9_86c0);
    assert(0xe9_86c0 * 0xc7_ff00 == 0xb670_5c79_4000);
    lemma_product_known(0x3fe9_86c0, 0x3a47_ff00, 0xe9_86c0, 126, 0xc7_ff00, 115, 0xb670_5c79_4000, 48, 0x8000_0000_0000, 0x100_0000);
    assert(mul_spec(0x3fe9_86c0, 0x3a47_ff00) == 0x3ab6_705c);
    assert(0xb6_705c * 0x1_0000_0000_0000_0000 == 0x1_6ce0_b800_0000_0000 * 0x80_0000 + 0x0);
    lemma_quotient_known(0x3ab6_705c, 0x3b80_0000, 0xb6_705c, 116, 0x80_0000, 118, 0x1_6ce0_b800_0000_0000, 0x0, 66, 0x2_0000_0000_0000_0000, 0x400_0000_0000);
    assert(div_spec(0x3ab6_705c, 0x3b80_0000) == 0x3eb6_705c);
    assert(0xa5_498f * 0x100 + 0xb6_705c * 0x1 == 0xa5ff_ff5c);
    lemma_sum_known(0x42a5_498f, 0x3eb6_705c, false, 0xa5_498f, 132, 0xb6_705c, 124, 0x100, 0x1, 0xa5ff_ff5c, 32, 0x8000_0000, 0x100);
    assert(add_spec(0x42a5_498f, 0x3eb6_705c) == 0x42a5_ffff);
    lemma_whole_known(0x42a5_ffff, 0xa5_ffff, 132, 0x2_0000);
}

/// The value 0x3dae_ee8c.
proof fn lemma_at_3daeee8c()
    ensures
        chord_code(0x3dae_ee8c, 0x3dad_5e8d, 0x3db5_5e8d, 0x42a5_498f, 0x42a8_efaa) == 83,
{
    reveal(chord_code);
    lemma2_to64();
    lemma2_to64_rest();
    lemma_high_powers();
    assert(0xb5_5e8d * 0x1 - 0xad_5e8d * 0x1 == 0x8_0000);
    lemma_sum_known(0x3db5_5e8d, 0x3dad_5e8d, true, 0xb5_5e8d, 122, 0xad_5e8d, 122, 0x1, 0x1, 0x8_0000, 20, 0x8_0000, 0x10);
    assert(sub_spec(0x3db5_5e8d, 0x3dad_5e8d) == 0x3b80_0000);
    assert(0xae_ee8c * 0x1 - 0xad_5e8d * 0x1 == 0x1_8fff);
    lemma_sum_known(0x3dae_ee8c, 0x3dad_5e8d, true, 0xae_ee8c, 122, 0xad_5e8d, 122, 0x1, 0x1, 0x1_8fff, 17, 0x1_0000, 0x80);
    assert(sub_spec(0x3dae_ee8c, 0x3dad_5e8d) == 0x3a47_ff80);
    assert(0xa8_efaa * 0x1 - 0xa5_498f * 0x1 == 0x3_a61b);
    lemma_sum_known(0x42a8_efaa, 0x42a5_498f, true, 0xa8_efaa, 132, 0xa5_498f, 132, 0x1, 0x1, 0x3_a61b, 18, 0x2_0000, 0x40);
    assert(sub_spec(0x42a8_efaa, 0x42a5_498f) == 0x3fe9_86c0);
    assert(0xe9_86c0 * 0xc7_ff80 == 0xb670_d13c_a000);
    lemma_product_known(0x3fe9_86c0, 0x3a47_ff80, 0xe9_86c0, 126, 0xc7_ff80, 115, 0xb670_d13c_a000, 48, 0x8000_0000_0000, 0x100_0000);
    assert(mul_spec(0x3fe9_86c0, 0x3a47_ff80) == 0x3ab6_70d1);
    assert(0xb6_70d1 * 0x1_0000_0000_0000_0000 == 0x1_6ce1_a200_0000_0000 * 0x80_0000 + 0x0);
    lemma_quotient_known(0x3ab6_70d1, 0x3b80_0000, 0xb6_70d1, 116, 0x80_0000, 118, 0x1_6ce1_a200_0000_0000, 0x0, 66, 0x2_0000_0000_0000_0000, 0x400_0000_0000);
    assert(div_spec(0x3ab6_70d1, 0x3b80_0000) == 0x3eb6_70d1);
    assert(0xa5_498f * 0x100 + 0xb6_70d1 * 0x1 == 0xa5ff_ffd1);
    lemma_sum_known(0x42a5_498f, 0x3eb6_70d1, false, 0xa5_498f, 132, 0xb6_70d1, 124, 0x100, 0x1, 0xa5ff_ffd1, 32, 0x8000_0000, 0x100);
    assert(add_spec(0x42a5_498f, 0x3eb6_70d1) == 0x42a6_0000);
    lemma_whole_known(0x42a6_0000, 0xa6_0000, 132, 0x2_0000);
}

/// The edge of code 82.
proof fn lemma_near_82()
    ensures
        near_exact_edge(0x3dae_ee8b, 82),
{
    lemma2_to64();
    lemma2_to64_rest();
    lemma_fifth_powers_of_two();
    lemma_more_fifth_powers_of_two();
    assert(96525nat * 96525 * 96525 == 0x3_31ef_c061_ab95);
    assert(269025nat * 269025 * 269025 == 0x45_2c59_9066_9ca1);
    assert(0x3_31ef_c061_ab95nat * 0x3_31ef_c061_ab95 == 0xa_355c_2a78_301e_10d8_f9ea_64b9nat);
    assert(0xa_355c_2a78_301e_10d8_f9ea_64b9nat * 0xa_355c_2a78_301e_10d8_f9ea_64b9nat == 0x68_3652_9c28_13b4_01c0_7c80_d3e5_8571_7148_f776_e6bc_2bd5_0db1nat);
    assert(0x45_2c59_9066_9ca1nat * 0x45_2c59_9066_9ca1 == 0x12b0_eff6_c049_6d6d_d948_5020_9d41nat);
    assert(0x12b0_eff6_c049_6d6d_d948_5020_9d41nat * 0x12b0_eff6_c049_6d6d_d948_5020_9d41nat == 0x15d_5c09_8741_6139_2178_92b9_bce5_5f46_89a2_dd05_b95f_0d00_50d8_ca81nat);
    assert(0x36a_20b7nat * 0x36a_20b7 == 0xb_a8c3_65ba_42d1);
    assert(0xb_a8c3_65ba_42d1nat * 0xb_a8c3_65ba_42d1 == 0x87_f00b_c8aa_57d6_9aa4_1324_6ea1nat);
    assert(0x87_f00b_c8aa_57d6_9aa4_1324_6ea1nat * 0x36a_20b7 == 0x1_d02a_e769_2711_9f6b_91e6_680f_ee89_3517nat);
    assert(0x36b_30b7nat * 0x36b_30b7 == 0xb_b006_0c3f_22d1);
    assert(0xb_b006_0c3f_22d1nat * 0xb_b006_0c3f_22d1 == 0x88_998d_5e68_6160_fca1_bf9a_2ea1nat);
    assert(0x88_998d_5e68_6160_fca1_bf9a_2ea1nat * 0x36b_30b7 == 0x1_d2fe_d4a1_f486_e55f_488c_cf8a_4040_8517nat);
    assert(0x1_d02a_e769_2711_9f6b_91e6_680f_ee89_3517nat * 0x15d_5c09_8741_6139_2178_92b9_bce5_5f46_89a2_dd05_b95f_0d00_50d8_ca81nat == 0x279_715e_2c43_5af8_17c8_e50f_a59a_8f19_9aa0_59c3_5617_58e3_b4f8_a72f_4f76_6060_8fab_b119_656e_519b_726f_e697nat);
    assert(0x1_d2fe_d4a1_f486_e55f_488c_cf8a_4040_8517nat * 0x15d_5c09_8741_6139_2178_92b9_bce5_5f46_89a2_dd05_b95f_0d00_50d8_ca81nat == 0x27d_4d4c_d6e5_afa8_f181_f1d3_d6da_0603_d1da_a5e0_4066_6fbc_ae8a_c37c_ff15_737b_8703_edc2_44bd_3664_c4ef_3697nat);
    assert(0xc35nat * 0x80_0000_0000_0000_0000_0000_0000_0000_0000nat == 0x6_1a80_0000_0000_0000_0000_0000_0000_0000_0000nat);
    assert(0x68_3652_9c28_13b4_01c0_7c80_d3e5_8571_7148_f776_e6bc_2bd5_0db1nat * 0x6_1a80_0000_0000_0000_0000_0000_0000_0000_0000nat == 0x27c_0f8f_361a_9c42_2cb1_57e8_4d50_62f8_e5ef_da67_374b_8187_e010_d280_0000_0000_0000_0000_0000_0000_0000_0000nat);
    lemma_near_above(
        0x3dae_ee8b, 0xae_ee8b, 122, 0x800, 0x6_1a80_0000_0000_0000_0000_0000_0000_0000_0000nat, 82,
        96525, 0x3_31ef_c061_ab95,
        0xa_355c_2a78_301e_10d8_f9ea_64b9nat,
        0x45_2c59_9066_9ca1, 0x12b0_eff6_c049_6d6d_d948_5020_9d41nat,
        0x36a_20b7, 0xb_a8c3_65ba_42d1, 0x87_f00b_c8aa_57d6_9aa4_1324_6ea1nat,
        0x36b_30b7, 0xb_b006_0c3f_22d1, 0x88_998d_5e68_6160_fca1_bf9a_2ea1nat,
    );
}

/// The value 0x3db3_5116.
proof fn lemma_at_3db35116()
    ensures
        chord_code(0x3db3_5116, 0x3dad_5e8d, 0x3db5_5e8d, 0x42a5_498f, 0x42a8_efaa) == 83,
{
    reveal(chord_code);
    lemma2_to64();
    lemma2_to64_rest();
    lemma_high_powers();
    assert(0xb5_5e8d * 0x1 - 0xad_5e8d * 0x1 == 0x8_0000);
    lemma_sum_known(0x3db5_5e8d, 0x3dad_5e8d, true, 0xb5_5e8d, 122, 0xad_5e8d, 122, 0x1, 0x1, 0x8_0000, 20, 0x8_0000, 0x10);
    assert(sub_spec(0x3db5_5e8d, 0x3dad_5e8d) == 0x3b80_0000);
    assert(0xb3_5116 * 0x1 - 0xad_5e8d * 0x1 == 0x5_f289);
    lemma_sum_known(0x3db3_5116, 0x3dad_5e8d, true, 0xb3_5116, 122, 0xad_5e8d, 122, 0x1, 0x1, 0x5_f289, 19, 0x4_0000, 0x20);
    assert(sub_spec(0x3db3_5116, 0x3dad_5e8d) == 0x3b3e_5120);
    assert(0xa8_efaa * 0x1 - 0xa5_498f * 0x1 == 0x3_a61b);
    lemma_sum_known(0x42a8_efaa, 0x42a5_498f, true, 0xa8_efaa, 132, 0xa5_498f, 132, 0x1, 0x1, 0x3_a61b, 18, 0x2_0000, 0x40);
    assert(sub_spec(0x42a8_efaa, 0x42a5_498f) == 0x3fe9_86c0);
    assert(0xe9_86c0 * 0xbe_5120 == 0xad9c_0353_9800);
    lemma_product_known(0x3fe9_86c0, 0x3b3e_5120, 0xe9_86c0, 126, 0xbe_5120, 117, 0xad9c_0353_9800, 48, 0x8000_0000_0000, 0x100_0000);
    assert(mul_spec(0x3fe9_86c0, 0x3b3e_5120) == 0x3bad_9c03);
    assert(0xad_9c03 * 0x1_0000_0000_0000_0000 == 0x1_5b38_0600_0000_0000 * 0x80_0000 + 0x0);
    lemma_quotient_known(0x3bad_9c03, 0x3b80_0000, 0xad_9c03, 118, 0x80_0000, 118, 0x1_5b38_0600_0000_0000, 0x0, 66, 0x2_0000_0000_0000_0000, 0x400_0000_0000);
    assert(div_spec(0x3bad_9c03, 0x3b80_0000) == 0x3fad_9c03);
    assert(0xa5_498f * 0x40 + 0xad_9c03 * 0x1 == 0x29ff_ffc3);
    lemma_sum_known(0x42a5_498f, 0x3fad_9c03, false, 0xa5_498f, 132, 0xad_9c03, 126, 0x40, 0x1, 0x29ff_ffc3, 30, 0x2000_0000, 0x40);
    assert(add_spec(0x42a5_498f, 0x3fad_9c03) == 0x42a7_ffff);
    lemma_whole_known(0x42a7_ffff, 0xa7_ffff, 132, 0x2_0000);
}

/// The value 0x3db3_5117.
proof fn lemma_at_3db35117()
    ensures
        chord_code(0x3db3_5117, 0x3dad_5e8d, 0x3db5_5e8d, 0x42a5_498f, 0x42a8_efaa) == 84,
{
    reveal(chord_code);
    lemma2_to64();
    lemma2_to64_rest();
    lemma_high_powers();
    assert(0xb5_5e8d * 0x1 - 0xad_5e8d * 0x1 == 0x8_0000);
    lemma_sum_known(0x3db5_5e8d, 0x3dad_5e8d, true, 0xb5_5e8d, 122, 0xad_5e8d, 122, 0x1, 0x1, 0x8_0000, 20, 0x8_0000, 0x10);
    assert(sub_spec(0x3db5_5e8d, 0x3dad_5e8d) == 0x3b80_0000);
    assert(0xb3_5117 * 0x1 - 0xad_5e8d * 0x1 == 0x5_f28a);
    lemma_sum_known(0x3db3_5117, 0x3dad_5e8d, true, 0xb3_5117, 122, 0xad_5e8d, 122, 0x1, 0x1, 0x5_f28a, 19, 0x4_0000, 0x20);
    assert(sub_spec(0x3db3_5117, 0x3dad_5e8d) == 0x3b3e_5140);
    assert(0xa8_efaa * 0x1 - 0xa5_498f * 0x1 == 0x3_a61b);
    lemma_sum_known(0x42a8_efaa, 0x42a5_498f, true, 0xa8_efaa, 132, 0xa5_498f, 132, 0x1, 0x1, 0x3_a61b, 18, 0x2_0000, 0x40);
    assert(sub_spec(0x42a8_efaa, 0x42a5_498f) == 0x3fe9_86c0);
    assert(0xe9_86c0 * 0xbe_5140 == 0xad9c_2084_7000);
    lemma_product_known(0x3fe9_86c0, 0x3b3e_5140, 0xe9_86c0, 126, 0xbe_5140, 117, 0xad9c_2084_7000, 48, 0x8000_0000_0000, 0x100_0000);
    assert(mul_spec(0x3fe9_86c0, 0x3b3e_5140) == 0x3bad_9c21);
    assert(0xad_9c21 * 0x1_0000_0000_0000_0000 == 0x1_5b38_4200_0000_0000 * 0x80_0000 + 0x0);
    lemma_quotient_known(0x3bad_9c21, 0x3b80_0000, 0xad_9c21, 118, 0x80_0000, 118, 0x1_5b38_4200_0000_0000, 0x0, 66, 0x2_0000_0000_0000_0000, 0x400_0000_0000);
    assert(div_spec(0x3bad_9c21, 0x3b80_0000) == 0x3fad_9c21);
    assert(0xa5_498f * 0x40 + 0xad_9c21 * 0x1 == 0x29ff_ffe1);
    lemma_sum_known(0x42a5_498f, 0x3fad_9c21, false, 0xa5_498f, 132, 0xad_9c21, 126, 0x40, 0x1, 0x29ff_ffe1, 30, 0x2000_0000, 0x40);
    assert(add_spec(0x42a5_498f, 0x3fad_9c21) == 0x42a8_0000);
    lemma_whole_known(0x42a8_0000, 0xa8_0000, 132, 0x2_0000);
}

/// The edge of code 83.
proof fn lemma_near_83()
    ensures
        near_exact_edge(0x3db3_5116, 83),
{
    lemma2_to64();
    lemma2_to64_rest();
    lemma_fifth_powers_of_two();
    lemma_more_fifth_powers_of_two();
    assert(97525nat * 97525 * 97525 == 0x3_4b9f_4ef3_39cd);
    assert(269025nat * 269025 * 269025 == 0x45_2c59_9066_9ca1);
    assert(0x3_4b9f_4ef3_39cdnat * 0x3_4b9f_4ef3_39cd == 0xa_dc12_9519_0927_08f5_b43a_ee29nat);
    assert(0xa_dc12_9519_0927_08f5_b43a_ee29nat * 0xa_dc12_9519_0927_08f5_b43a_ee29nat == 0x75_eea3_9791_0d23_3b2f_df4e_c532_c45b_93cb_990f_56f4_7024_4291nat);
    assert(0x45_2c59_9066_9ca1nat * 0x45_2c59_9066_9ca1 == 0x12b0_eff6_c049_6d6d_d948_5020_9d41nat);
    assert(0x12b0_eff6_c049_6d6d_d948_5020_9d41nat * 0x12b0_eff6_c049_6d6d_d948_5020_9d41nat == 0x15d_5c09_8741_6139_2178_92b9_bce5_5f46_89a2_dd05_b95f_0d00_50d8_ca81nat);
    assert(0x380_0d6enat * 0x380_0d6e == 0xc_405e_02b4_5b44);
    assert(0xc_405e_02b4_5b44nat * 0xc_405e_02b4_5b44 == 0x96_18ff_64c8_b87c_566d_8829_6a10nat);
    assert(0x96_18ff_64c8_b87c_566d_8829_6a10nat * 0x380_0d6e == 0x2_0d5f_5da4_7461_32cc_152d_43ed_d42e_62e0nat);
    assert(0x381_1d6enat * 0x381_1d6e == 0xc_47cf_403e_1b44);
    assert(0xc_47cf_403e_1b44nat * 0xc_47cf_403e_1b44 == 0x96_cf92_a33d_f60e_ecab_37d7_6a10nat);
    assert(0x96_cf92_a33d_f60e_ecab_37d7_6a10nat * 0x381_1d6e == 0x2_107e_a71e_c99b_53ca_af27_c0b0_07a3_62e0nat);
    assert(0x2_0d5f_5da4_7461_32cc_152d_43ed_d42e_62e0nat * 0x15d_5c09_8741_6139_2178_92b9_bce5_5f46_89a2_dd05_b95f_0d00_50d8_ca81nat == 0x2cc_f7e4_7cc7_843c_276d_b490_8a2d_4f8f_cc1a_cd23_36f8_4f65_a618_3004_9704_59e1_fbed_49c8_f287_ca4d_f264_92e0nat);
    assert(0x2_107e_a71e_c99b_53ca_af27_c0b0_07a3_62e0nat * 0x15d_5c09_8741_6139_2178_92b9_bce5_5f46_89a2_dd05_b95f_0d00_50d8_ca81nat == 0x2d1_3aab_04b5_8c49_bda4_c9f4_0401_ba6e_003e_9602_0e25_78a6_13c8_839f_e00f_5451_9110_83f2_1521_df7c_3259_92e0nat);
    assert(0xc35nat * 0x80_0000_0000_0000_0000_0000_0000_0000_0000nat == 0x6_1a80_0000_0000_0000_0000_0000_0000_0000_0000nat);
    assert(0x75_eea3_9791_0d23_3b2f_df4e_c532_c45b_93cb_990f_56f4_7024_4291nat * 0x6_1a80_0000_0000_0000_0000_0000_0000_0000_0000nat == 0x2cf_cd09_7c96_d2af_88bf_b076_469a_5b78_f192_29b4_203a_ee75_504a_0280_0000_0000_0000_0000_0000_0000_0000_0000nat);
    lemma_near_above(
        0x3db3_5116, 0xb3_5116, 122, 0x800, 0x6_1a80_0000_0000_0000_0000_0000_0000_0000_0000nat, 83,
        97525, 0x3_4b9f_4ef3_39cd,
        0xa_dc12_9519_0927_08f5_b43a_ee29nat,
        0x45_2c59_9066_9ca1, 0x12b0_eff6_c049_6d6d_d948_5020_9d41nat,
        0x380_0d6e, 0xc_405e_02b4_5b44, 0x96_18ff_64c8_b87c_566d_8829_6a10nat,
        0x381_1d6e, 0xc_47cf_403e_1b44, 0x96_cf92_a33d_f60e_ecab_37d7_6a10nat,
    );
}

/// The value 0x3db7_c4b3.
proof fn lemma_at_3db7c4b3()
    ensures
        chord_code(0x3db7_c4b3, 0x3db5_5e8d, 0x3dbd_5e8d, 0x42a8_efaa, 0x42ac_7bd0) == 84,
{
    reveal(chord_code);
    lemma2_to64();
    lemma2_to64_rest();
    lemma_high_powers();
    assert(0xbd_5e8d * 0x1 - 0xb5_5e8d * 0x1 == 0x8_0000);
    lemma_sum_known(0x3dbd_5e8d, 0x3db5_5e8d, true, 0xbd_5e8d, 122, 0xb5_5e8d, 122, 0x1, 0x1, 0x8_0000, 20, 0x8_0000, 0x10);
    assert(sub_spec(0x3dbd_5e8d, 0x3db5_5e8d) == 0x3b80_0000);
    assert(0xb7_c4b3 * 0x1 - 0xb5_5e8d * 0x1 == 0x2_6626);
    lemma_sum_known(0x3db7_c4b3, 0x3db5_5e8d, true, 0xb7_c4b3, 122, 0xb5_5e8d, 122, 0x1, 0x1, 0x2_6626, 18, 0x2_0000, 0x40);
    assert(sub_spec(0x3db7_c4b3, 0x3db5_5e8d) == 0x3a99_8980);
    assert(0xac_7bd0 * 0x1 - 0xa8_efaa * 0x1 == 0x3_8c26);
    lemma_sum_known(0x42ac_7bd0, 0x42a8_efaa, true, 0xac_7bd0, 132, 0xa8_efaa, 132, 0x1, 0x1, 0x3_8c26, 18, 0x2_0000, 0x40);
    assert(sub_spec(0x42ac_7bd0, 0x42a8_efaa) == 0x3fe3_0980);
    assert(0xe3_0980 * 0x99_8980 == 0x882a_9f1a_4000);
    lemma_product_known(0x3fe3_0980, 0x3a99_8980, 0xe3_0980, 126, 0x99_8980, 116, 0x882a_9f1a_4000, 48, 0x8000_0000_0000, 0x100_0000);
    assert(mul_spec(0x3fe3_0980, 0x3a99_8980) == 0x3b08_2a9f);
    assert(0x88_2a9f * 0x1_0000_0000_0000_0000 == 0x1_1055_3e00_0000_0000 * 0x80_0000 + 0x0);
    lemma_quotient_known(0x3b08_2a9f, 0x3b80_0000, 0x88_2a9f, 117, 0x80_0000, 118, 0x1_1055_3e00_0000_0000, 0x0, 66, 0x2_0000_0000_0000_0000, 0x400_0000_0000);
    assert(div_spec(0x3b08_2a9f, 0x3b80_0000) == 0x3f08_2a9f);
    assert(0xa8_efaa * 0x80 + 0x88_2a9f * 0x1 == 0x54ff_ff9f);
    lemma_sum_known(0x42a8_efaa, 0x3f08_2a9f, false, 0xa8_efaa, 132, 0x88_2a9f, 125, 0x80, 0x1, 0x54ff_ff9f, 31, 0x4000_0000, 0x80);
    assert(add_spec(0x42a8_efaa, 0x3f08_2a9f) == 0x42a9_ffff);
    lemma_whole_known(0x42a9_ffff, 0xa9_ffff, 132, 0x2_0000);
}

/// The value 0x3db7_c4b4.
proof fn lemma_at_3db7c4b4()
    ensures
        chord_code(0x3db7_c4b4, 0x3db5_5e8d, 0x3dbd_5e8d, 0x42a8_efaa, 0x42ac_7bd0) == 85,
{
    reveal(chord_code);
    lemma2_to64();
    lemma2_to64_rest();
    lemma_high_powers();
    assert(0xbd_5e8d * 0x1 - 0xb5_5e8d * 0x1 == 0x8_0000);
    lemma_sum_known(0x3dbd_5e8d, 0x3db5_5e8d, true, 0xbd_5e8d, 122, 0xb5_5e8d, 122, 0x1, 0x1, 0x8_0000, 20, 0x8_0000, 0x10);
    assert(sub_spec(0x3dbd_5e8d, 0x3db5_5e8d) == 0x3b80_0000);
    assert(0xb7_c4b4 * 0x1 - 0xb5_5e8d * 0x1 == 0x2_6627);
    lemma_sum_known(0x3db7_c4b4, 0x3db5_5e8d, true, 0xb7_c4b4, 122, 0xb5_5e8d, 122, 0x1, 0x1, 0x2_6627, 18, 0x2_0000, 0x40);
    assert(sub_spec(0x3db7_c4b4, 0x3db5_5e8d) == 0x3a99_89c0);
    assert(0xac_7bd0 * 0x1 - 0xa8_efaa * 0x1 == 0x3_8c26);
    lemma_sum_known(0x42ac_7bd0, 0x42a8_efaa, true, 0xac_7bd0, 132, 0xa8_efaa, 132, 0x1, 0x1, 0x3_8c26, 18, 0x2_0000, 0x40);
    assert(sub_spec(0x42ac_7bd0, 0x42a8_efaa) == 0x3fe3_0980);
    assert(0xe3_0980 * 0x99_89c0 == 0x882a_d7dc_a000);
    lemma_product_known(0x3fe3_0980, 0x3a99_89c0, 0xe3_0980, 126, 0x99_89c0, 116, 0x882a_d7dc_a000, 48, 0x8000_0000_0000, 0x100_0000);
    assert(mul_spec(0x3fe3_0980, 0x3a99_89c0) == 0x3b08_2ad8);
    assert(0x88_2ad8 * 0x1_0000_0000_0000_0000 == 0x1_1055_b000_0000_0000 * 0x80_0000 + 0x0);
    lemma_quotient_known(0x3b08_2ad8, 0x3b80_0000, 0x88_2ad8, 117, 0x80_0000, 118, 0x1_1055_b000_0000_0000, 0x0, 66, 0x2_0000_0000_0000_0000, 0x400_0000_0000);
    assert(div_spec(0x3b08_2ad8, 0x3b80_0000) == 0x3f08_2ad8);
    assert(0xa8_efaa * 0x80 + 0x88_2ad8 * 0x1 == 0x54ff_ffd8);
    lemma_sum_known(0x42a8_efaa, 0x3f08_2ad8, false, 0xa8_efaa, 132, 0x88_2ad8, 125, 0x80, 0x1, 0x54ff_ffd8, 31, 0x4000_0000, 0x80);
    assert(add_spec(0x42a8_efaa, 0x3f08_2ad8) == 0x42aa_0000);
    lemma_whole_known(0x42aa_0000, 0xaa_0000, 132, 0x2_0000);
}

/// The edge of code 84.
proof fn lemma_near_84()
    ensures
        near_exact_edge(0x3db7_c4b3, 84),
{
    lemma2_to64();
    lemma2_to64_rest();
    lemma_fifth_powers_of_two();
    lemma_more_fifth_powers_of_two();
    assert(98525nat * 98525 * 98525 == 0x3_65d7_1b2d_3385);
    assert(269025nat * 269025 * 269025 == 0x45_2c59_9066_9ca1);
    assert(0x3_65d7_1b2d_3385nat * 0x3_65d7_1b2d_3385 == 0xb_8b8e_133f_8894_0c3f_3520_4319nat);
    assert(0xb_8b8e_133f_8894_0c3f_3520_4319nat * 0xb_8b8e_133f_8894_0c3f_3520_4319nat == 0x85_4a49_3f36_16f7_d503_4622_c86d_d7b0_6d7c_5c19_be27_31d6_1871nat);
    assert(0x45_2c59_9066_9ca1nat * 0x45_2c59_9066_9ca1 == 0x12b0_eff6_c049_6d6d_d948_5020_9d41nat);
    assert(0x12b0_eff6_c049_6d6d_d948_5020_9d41nat * 0x12b0_eff6_c049_6d6d_d948_5020_9d41nat == 0x15d_5c09_8741_6139_2178_92b9_bce5_5f46_89a2_dd05_b95f_0d00_50d8_ca81nat);
    assert(0x396_4f7fnat * 0x396_4f7f == 0xc_de1e_3b83_a101);
    assert(0xc_de1e_3b83_a101nat * 0xc_de1e_3b83_a101 == 0xa5_938e_0721_6405_6820_a248_4201nat);
    assert(0xa5_938e_0721_6405_6820_a248_4201nat * 0x396_4f7f == 0x2_51f2_89fa_9965_82d1_aed6_a961_7dcd_0d7fnat);
    assert(0x397_5f7fnat * 0x397_5f7f == 0xc_e5be_c571_8101);
    assert(0xc_e5be_c571_8101nat * 0xc_e5be_c571_8101 == 0xa6_5811_5e0a_d5a7_2a5a_ade4_0201nat);
    assert(0xa6_5811_5e0a_d5a7_2a5a_ade4_0201nat * 0x397_5f7f == 0x2_5564_338c_bb68_a7c2_122b_e707_1272_5d7fnat);
    assert(0x2_51f2_89fa_9965_82d1_aed6_a961_7dcd_0d7fnat * 0x15d_5c09_8741_6139_2178_92b9_bce5_5f46_89a2_dd05_b95f_0d00_50d8_ca81nat == 0x32a_8d2f_5f8e_9f3c_d9e6_786c_d966_914e_69ba_bd28_8c88_6268_1b28_a98f_8d63_b501_7da5_b163_1034_f39f_4422_02ffnat);
    assert(0x2_5564_338c_bb68_a7c2_122b_e707_1272_5d7fnat * 0x15d_5c09_8741_6139_2178_92b9_bce5_5f46_89a2_dd05_b95f_0d00_50d8_ca81nat == 0x32f_4060_8588_4979_7d0d_4598_92ac_27f3_4d70_9ff2_fd84_04a0_8c72_9e36_015d_5de2_8089_08cb_3806_bfd5_1c8f_52ffnat);
    assert(0xc35nat * 0x80_0000_0000_0000_0000_0000_0000_0000_0000nat == 0x6_1a80_0000_0000_0000_0000_0000_0000_0000_0000nat);
    assert(0x85_4a49_3f36_16f7_d503_4622_c86d_d7b0_6d7c_5c19_be27_31d6_1871nat * 0x6_1a80_0000_0000_0000_0000_0000_0000_0000_0000nat == 0x32d_89e8_104f_a32f_a5a0_7b93_4c52_6cf6_543f_8823_1f1a_39ad_3c2d_b280_0000_0000_0000_0000_0000_0000_0000_0000nat);
    lemma_near_above(
        0x3db7_c4b3, 0xb7_c4b3, 122, 0x800, 0x6_1a80_0000_0000_0000_0000_0000_0000_0000_0000nat, 84,
        98525, 0x3_65d7_1b2d_3385,
        0xb_8b8e_133f_8894_0c3f_3520_4319nat,
        0x45_2c59_9066_9ca1, 0x12b0_eff6_c049_6d6d_d948_5020_9d41nat,
        0x396_4f7f, 0xc_de1e_3b83_a101, 0xa5_938e_0721_6405_6820_a248_4201nat,
        0x397_5f7f, 0xc_e5be_c571_8101, 0xa6_5811_5e0a_d5a7_2a5a_ade4_0201nat,
    );
}

/// The value 0x3dbc_4755.
proof fn lemma_at_3dbc4755()
    ensures
        chord_code(0x3dbc_4755, 0x3db5_5e8d, 0x3dbd_5e8d, 0x42a8_efaa, 0x42ac_7bd0) == 85,
{
    reveal(chord_code);
    lemma2_to64();
    lemma2_to64_rest();
    lemma_high_powers();
    assert(0xbd_5e8d * 0x1 - 0xb5_5e8d * 0x1 == 0x8_0000);
    lemma_sum_known(0x3dbd_5e8d, 0x3db5_5e8d, true, 0xbd_5e8d, 122, 0xb5_5e8d, 122, 0x1, 0x1, 0x8_0000, 20, 0x8_0000, 0x10);
    assert(sub_spec(0x3dbd_5e8d, 0x3db5_5e8d) == 0x3b80_0000);
    assert(0xbc_4755 * 0x1 - 0xb5_5e8d * 0x1 == 0x6_e8c8);
    lemma_sum_known(0x3dbc_4755, 0x3db5_5e8d, true, 0xbc_4755, 122, 0xb5_5e8d, 122, 0x1, 0x1, 0x6_e8c8, 19, 0x4_0000, 0x20);
    assert(sub_spec(0x3dbc_4755, 0x3db5_5e8d) == 0x3b5d_1900);
    assert(0xac_7bd0 * 0x1 - 0xa8_efaa * 0x1 == 0x3_8c26);
    lemma_sum_known(0x42ac_7bd0, 0x42a8_efaa, true, 0xac_7bd0, 132, 0xa8_efaa, 132, 0x1, 0x1, 0x3_8c26, 18, 0x2_0000, 0x40);
    assert(sub_spec(0x42ac_7bd0, 0x42a8_efaa) == 0x3fe3_0980);
    assert(0xe3_0980 * 0xdd_1900 == 0xc415_5f6d_8000);
    lemma_product_known(0x3fe3_0980, 0x3b5d_1900, 0xe3_0980, 126, 0xdd_1900, 117, 0xc415_5f6d_8000, 48, 0x8000_0000_0000, 0x100_0000);
    assert(mul_spec(0x3fe3_0980, 0x3b5d_1900) == 0x3bc4_155f);
    assert(0xc4_155f * 0x1_0000_0000_0000_0000 == 0x1_882a_be00_0000_0000 * 0x80_0000 + 0x0);
    lemma_quotient_known(0x3bc4_155f, 0x3b80_0000, 0xc4_155f, 118, 0x80_0000, 118, 0x1_882a_be00_0000_0000, 0x0, 66, 0x2_0000_0000_0000_0000, 0x400_0000_0000);
    assert(div_spec(0x3bc4_155f, 0x3b80_0000) == 0x3fc4_155f);
    assert(0xa8_efaa * 0x40 + 0xc4_155f * 0x1 == 0x2aff_ffdf);
    lemma_sum_known(0x42a8_efaa, 0x3fc4_155f, false, 0xa8_efaa, 132, 0xc4_155f, 126, 0x40, 0x1, 0x2aff_ffdf, 30, 0x2000_0000, 0x40);
    assert(add_spec(0x42a8_efaa, 0x3fc4_155f) == 0x42ab_ffff);
    lemma_whole_known(0x42ab_ffff, 0xab_ffff, 132, 0x2_0000);
}

/// The value 0x3dbc_4756.
proof fn lemma_at_3dbc4756()
    ensures
        chord_code(0x3dbc_4756, 0x3db5_5e8d, 0x3dbd_5e8d, 0x42a8_efaa, 0x42ac_7bd0) == 86,
{
    reveal(chord_code);
    lemma2_to64();
    lemma2_to64_rest();
    lemma_high_powers();
    assert(0xbd_5e8d * 0x1 - 0xb5_5e8d * 0x1 == 0x8_0000);
    lemma_sum_known(0x3dbd_5e8d, 0x3db5_5e8d, true, 0xbd_5e8d, 122, 0xb5_5e8d, 122, 0x1, 0x1, 0x8_0000, 20, 0x8_0000, 0x10);
    assert(sub_spec(0x3dbd_5e8d, 0x3db5_5e8d) == 0x3b80_0000);
    assert(0xbc_4756 * 0x1 - 0xb5_5e8d * 0x1 == 0x6_e8c9);
    lemma_sum_known(0x3dbc_4756, 0x3db5_5e8d, true, 0xbc_4756, 122, 0xb5_5e8d, 122, 0x1, 0x1, 0x6_e8c9, 19, 0x4_0000, 0x20);
    assert(sub_spec(0x3dbc_4756, 0x3db5_5e8d) == 0x3b5d_1920);
    assert(0xac_7bd0 * 0x1 - 0xa8_efaa * 0x1 == 0x3_8c26);
    lemma_sum_known(0x42ac_7bd0, 0x42a8_efaa, true, 0xac_7bd0, 132, 0xa8_efaa, 132, 0x1, 0x1, 0x3_8c26, 18, 0x2_0000, 0x40);
    assert(sub_spec(0x42ac_7bd0, 0x42a8_efaa) == 0x3fe3_0980);
    assert(0xe3_0980 * 0xdd_1920 == 0xc415_7bce_b000);
    lemma_product_known(0x3fe3_0980, 0x3b5d_1920, 0xe3_0980, 126, 0xdd_1920, 117, 0xc415_7bce_b000, 48, 0x8000_0000_0000, 0x100_0000);
    assert(mul_spec(0x3fe3_0980, 0x3b5d_1920) == 0x3bc4_157c);
    assert(0xc4_157c * 0x1_0000_0000_0000_0000 == 0x1_882a_f800_0000_0000 * 0x80_0000 + 0x0);
    lemma_quotient_known(0x3bc4_157c, 0x3b80_0000, 0xc4_157c, 118, 0x80_0000, 118, 0x1_882a_f800_0000_0000, 0x0, 66, 0x2_0000_0000_0000_0000, 0x400_0000_0000);
    assert(div_spec(0x3bc4_157c, 0x3b80_0000) == 0x3fc4_157c);
    assert(0xa8_efaa * 0x40 + 0xc4_157c * 0x1 == 0x2aff_fffc);
    lemma_sum_known(0x42a8_efaa, 0x3fc4_157c, false, 0xa8_efaa, 132, 0xc4_157c, 126, 0x40, 0x1, 0x2aff_fffc, 30, 0x2000_0000, 0x40);
    assert(add_spec(0x42a8_efaa, 0x3fc4_157c) == 0x42ac_0000);
    lemma_whole_known(0x42ac_0000, 0xac_0000, 132, 0x2_0000);
}

/// The edge of code 85.
proof fn lemma_near_85()
    ensures
        near_exact_edge(0x3dbc_4755, 85),
{
    lemma2_to64();
    lemma2_to64_rest();
    lemma_fifth_powers_of_two();
    lemma_more_fifth_powers_of_two();
    assert(99525nat * 99525 * 99525 == 0x3_8098_8ab0_54bd);
    assert(269025nat * 269025 * 269025 == 0x45_2c59_9066_9ca1);
    assert(0x3_8098_8ab0_54bdnat * 0x3_8098_8ab0_54bd == 0xc_442c_25b7_4db2_3540_63ec_9389nat);
    assert(0xc_442c_25b7_4db2_3540_63ec_9389nat * 0xc_442c_25b7_4db2_3540_63ec_9389nat == 0x96_764b_04d5_a68c_df4b_9127_4b93_92b3_872d_a6e5_533c_4f9e_9f51nat);
    assert(0x45_2c59_9066_9ca1nat * 0x45_2c59_9066_9ca1 == 0x12b0_eff6_c049_6d6d_d948_5020_9d41nat);
    assert(0x12b0_eff6_c049_6d6d_d948_5020_9d41nat * 0x12b0_eff6_c049_6d6d_d948_5020_9d41nat == 0x15d_5c09_8741_6139_2178_92b9_bce5_5f46_89a2_dd05_b95f_0d00_50d8_ca81nat);
    assert(0x3ac_dca9nat * 0x3ac_dca9 == 0xd_81e5_374a_e791);
    assert(0xd_81e5_374a_e791nat * 0xd_81e5_374a_e791 == 0xb6_7330_6c90_fa0d_b0d4_ff4b_0021nat);
    assert(0xb6_7330_6c90_fa0d_b0d4_ff4b_0021nat * 0x3ac_dca9 == 0x2_9e8c_393e_4c9a_6cde_251a_2f65_75cb_71c9nat);
    assert(0x3ad_eca9nat * 0x3ad_eca9 == 0xd_89b5_ad32_0791);
    assert(0xd_89b5_ad32_0791nat * 0xd_89b5_ad32_0791 == 0xb7_4687_8b62_aebe_8d0a_eedd_4021nat);
    assert(0xb7_4687_8b62_aebe_8d0a_eedd_4021nat * 0x3ad_eca9 == 0x2_a257_ae3d_ddb6_4fa9_7701_33b0_607a_c1c9nat);
    assert(0x2_9e8c_393e_4c9a_6cde_251a_2f65_75cb_71c9nat * 0x15d_5c09_8741_6139_2178_92b9_bce5_5f46_89a2_dd05_b95f_0d00_50d8_ca81nat == 0x393_163d_63b6_07b1_c532_5fca_07b6_d892_f269_e4e0_a0da_fed0_f6b9_7e0e_cd6f_8046_7854_42c0_dd61_1d49_b4e4_f049nat);
    assert(0x2_a257_ae3d_ddb6_4fa9_7701_33b0_607a_c1c9nat * 0x15d_5c09_8741_6139_2178_92b9_bce5_5f46_89a2_dd05_b95f_0d00_50d8_ca81nat == 0x398_43f9_2653_12a4_7e67_8581_0986_bfda_cdcc_8487_f9e1_b99a_b2d5_2435_fa41_e4c3_8195_6be2_0bca_3123_cc5c_4049nat);
    assert(0xc35nat * 0x80_0000_0000_0000_0000_0000_0000_0000_0000nat == 0x6_1a80_0000_0000_0000_0000_0000_0000_0000_0000nat);
    assert(0x96_764b_04d5_a68c_df4b_9127_4b93_92b3_872d_a6e5_533c_4f9e_9f51nat * 0x6_1a80_0000_0000_0000_0000_0000_0000_0000_0000nat == 0x396_5900_e102_050a_d0e2_b972_56c8_36e4_c090_2326_b087_9bf5_a763_e280_0000_0000_0000_0000_0000_0000_0000_0000nat);
    lemma_near_above(
        0x3dbc_4755, 0xbc_4755, 122, 0x800, 0x6_1a80_0000_0000_0000_0000_0000_0000_0000_0000nat, 85,
        99525, 0x3_8098_8ab0_54bd,
        0xc_442c_25b7_4db2_3540_63ec_9389nat,
        0x45_2c59_9066_9ca1, 0x12b0_eff6_c049_6d6d_d948_5020_9d41nat,
        0x3ac_dca9, 0xd_81e5_374a_e791, 0xb6_7330_6c90_fa0d_b0d4_ff4b_0021nat,
        0x3ad_eca9, 0xd_89b5_ad32_0791, 0xb7_4687_8b62_aebe_8d0a_eedd_4021nat,
    );
}

/// The value 0x3dc0_dbae.
proof fn lemma_at_3dc0dbae()
    ensures
        chord_code(0x3dc0_dbae, 0x3dbd_5e8d, 0x3dc5_5e8d, 0x42ac_7bd0, 0x42af_f5f2) == 86,
{
    reveal(chord_code);
    lemma2_to64();
    lemma2_to64_rest();
    lemma_high_powers();
    assert(0xc5_5e8d * 0x1 - 0xbd_5e8d * 0x1 == 0x8_0000);
    lemma_sum_known(0x3dc5_5e8d, 0x3dbd_5e8d, true, 0xc5_5e8d, 122, 0xbd_5e8d, 122, 0x1, 0x1, 0x8_0000, 20, 0x8_0000, 0x10);
    assert(sub_spec(0x3dc5_5e8d, 0x3dbd_5e8d) == 0x3b80_0000);
    assert(0xc0_dbae * 0x1 - 0xbd_5e8d * 0x1 == 0x3_7d21);
    lemma_sum_known(0x3dc0_dbae, 0x3dbd_5e8d, true, 0xc0_dbae, 122, 0xbd_5e8d, 122, 0x1, 0x1, 0x3_7d21, 18, 0x2_0000, 0x40);
    assert(sub_spec(0x3dc0_dbae, 0x3dbd_5e8d) == 0x3adf_4840);
    assert(0xaf_f5f2 * 0x1 - 0xac_7bd0 * 0x1 == 0x3_7a22);
    lemma_sum_known(0x42af_f5f2, 0x42ac_7bd0, true, 0xaf_f5f2, 132, 0xac_7bd0, 132, 0x1, 0x1, 0x3_7a22, 18, 0x2_0000, 0x40);
    assert(sub_spec(0x42af_f5f2, 0x42ac_7bd0) == 0x3fde_8880);
    assert(0xde_8880 * 0xdf_4840 == 0xc217_b586_2000);
    lemma_product_known(0x3fde_8880, 0x3adf_4840, 0xde_8880, 126, 0xdf_4840, 116, 0xc217_b586_2000, 48, 0x8000_0000_0000, 0x100_0000);
    assert(mul_spec(0x3fde_8880, 0x3adf_4840) == 0x3b42_17b6);
    assert(0xc2_17b6 * 0x1_0000_0000_0000_0000 == 0x1_842f_6c00_0000_0000 * 0x80_0000 + 0x0);
    lemma_quotient_known(0x3b42_17b6, 0x3b80_0000, 0xc2_17b6, 117, 0x80_0000, 118, 0x1_842f_6c00_0000_0000, 0x0, 66, 0x2_0000_0000_0000_0000, 0x400_0000_0000);
    assert(div_spec(0x3b42_17b6, 0x3b80_0000) == 0x3f42_17b6);
    assert(0xac_7bd0 * 0x80 + 0xc2_17b6 * 0x1 == 0x56ff_ffb6);
    lemma_sum_known(0x42ac_7bd0, 0x3f42_17b6, false, 0xac_7bd0, 132, 0xc2_17b6, 125, 0x80, 0x1, 0x56ff_ffb6, 31, 0x4000_0000, 0x80);
    assert(add_spec(0x42ac_7bd0, 0x3f42_17b6) == 0x42ad_ffff);
    lemma_whole_known(0x42ad_ffff, 0xad_ffff, 132, 0x2_0000);
}

/// The value 0x3dc0_dbaf.
proof fn lemma_at_3dc0dbaf()
    ensures
        chord_code(0x3dc0_dbaf, 0x3dbd_5e8d, 0x3dc5_5e8d, 0x42ac_7bd0, 0x42af_f5f2) == 87,
{
    reveal(chord_code);
    lemma2_to64();
    lemma2_to64_rest();
    lemma_high_powers();
    assert(0xc5_5e8d * 0x1 - 0xbd_5e8d * 0x1 == 0x8_0000);
    lemma_sum_known(0x3dc5_5e8d, 0x3dbd_5e8d, true, 0xc5_5e8d, 122, 0xbd_5e8d, 122, 0x1, 0x1, 0x8_0000, 20, 0x8_0000, 0x10);
    assert(sub_spec(0x3dc5_5e8d, 0x3dbd_5e8d) == 0x3b80_0000);
    assert(0xc0_dbaf * 0x1 - 0xbd_5e8d * 0x1 == 0x3_7d22);
    lemma_sum_known(0x3dc0_dbaf, 0x3dbd_5e8d, true, 0xc0_dbaf, 122, 0xbd_5e8d, 122, 0x1, 0x1, 0x3_7d22, 18, 0x2_0000, 0x40);
    assert(sub_spec(0x3dc0_dbaf, 0x3dbd_5e8d) == 0x3adf_4880);
    assert(0xaf_f5f2 * 0x1 - 0xac_7bd0 * 0x1 == 0x3_7a22);
    lemma_sum_known(0x42af_f5f2, 0x42ac_7bd0, true, 0xaf_f5f2, 132, 0xac_7bd0, 132, 0x1, 0x1, 0x3_7a22, 18, 0x2_0000, 0x40);
    assert(sub_spec(0x42af_f5f2, 0x42ac_7bd0) == 0x3fde_8880);
    assert(0xde_8880 * 0xdf_4880 == 0xc217_ed28_4000);
    lemma_product_known(0x3fde_8880, 0x3adf_4880, 0xde_8880, 126, 0xdf_4880, 116, 0xc217_ed28_4000, 48, 0x8000_0000_0000, 0x100_0000);
    assert(mul_spec(0x3fde_8880, 0x3adf_4880) == 0x3b42_17ed);
    assert(0xc2_17ed * 0x1_0000_0000_0000_0000 == 0x1_842f_da00_0000_0000 * 0x80_0000 + 0x0);
    lemma_quotient_known(0x3b42_17ed, 0x3b80_0000, 0xc2_17ed, 117, 0x80_0000, 118, 0x1_842f_da00_0000_0000, 0x0, 66, 0x2_0000_0000_0000_0000, 0x400_0000_0000);
    assert(div_spec(0x3b42_17ed, 0x3b80_0000) == 0x3f42_17ed);
    assert(0xac_7bd0 * 0x80 + 0xc2_17ed * 0x1 == 0x56ff_ffed);
    lemma_sum_known(0x42ac_7bd0, 0x3f42_17ed, false, 0xac_7bd0, 132, 0xc2_17ed, 125, 0x80, 0x1, 0x56ff_ffed, 31, 0x4000_0000, 0x80);
    assert(add_spec(0x42ac_7bd0, 0x3f42_17ed) == 0x42ae_0000);
    lemma_whole_known(0x42ae_0000, 0xae_0000, 132, 0x2_0000);
}

/// The edge of code 86.
proof fn lemma_near_86()
    ensures
        near_exact_edge(0x3dc0_dbae, 86),
{
    lemma2_to64();
    lemma2_to64_rest();
    lemma_fifth_powers_of_two();
    lemma_more_fifth_powers_of_two();
    assert(100525nat * 100525 * 100525 == 0x3_9be5_031d_5975);
    assert(269025nat * 269025 * 269025 == 0x45_2c59_9066_9ca1);
    assert(0x3_9be5_031d_5975nat * 0x3_9be5_031d_5975 == 0xd_064d_3154_359d_6cc8_21c4_8f79nat);
    assert(0xd_064d_3154_359d_6cc8_21c4_8f79nat * 0xd_064d_3154_359d_6cc8_21c4_8f79nat == 0xa9_a3fe_b824_1aaa_0659_be1e_a95e_dc62_c0da_b50c_88f9_33b0_6731nat);
    assert(0x45_2c59_9066_9ca1nat * 0x45_2c59_9066_9ca1 == 0x12b0_eff6_c049_6d6d_d948_5020_9d41nat);
    assert(0x12b0_eff6_c049_6d6d_d948_5020_9d41nat * 0x12b0_eff6_c049_6d6d_d948_5020_9d41nat == 0x15d_5c09_8741_6139_2178_92b9_bce5_5f46_89a2_dd05_b95f_0d00_50d8_ca81nat);
    assert(0x3c3_c266nat * 0x3c3_c266 == 0xe_2c40_1f02_c0a4);
    assert(0xe_2c40_1f02_c0a4nat * 0xe_2c40_1f02_c0a4 == 0xc8_dea9_7f05_894a_5caf_4b86_6910nat);
    assert(0xc8_dea9_7f05_894a_5caf_4b86_6910nat * 0x3c3_c266 == 0x2_f436_205d_fb9e_40f9_b546_dfb1_2a5b_fc60nat);
    assert(0x3c4_d266nat * 0x3c4_d266 == 0xe_3441_3d1b_80a4);
    assert(0xe_3441_3d1b_80a4nat * 0xe_3441_3d1b_80a4 == 0xc9_c1cd_4075_54c0_118a_8b3c_6910nat);
    assert(0xc9_c1cd_4075_54c0_118a_8b3c_6910nat * 0x3c4_d266 == 0x2_f863_9a44_507b_1187_609e_f2e6_a880_fc60nat);
    assert(0x2_f436_205d_fb9e_40f9_b546_dfb1_2a5b_fc60nat * 0x15d_5c09_8741_6139_2178_92b9_bce5_5f46_89a2_dd05_b95f_0d00_50d8_ca81nat == 0x407_fda9_b932_9c7a_5913_7538_c850_67b3_33bd_2106_8c5e_2f49_b6c4_c785_1daa_5f70_7a7c_df1d_1361_e02d_de7d_ec60nat);
    assert(0x2_f863_9a44_507b_1187_609e_f2e6_a880_fc60nat * 0x15d_5c09_8741_6139_2178_92b9_bce5_5f46_89a2_dd05_b95f_0d00_50d8_ca81nat == 0x40d_b129_67d1_6985_9504_87c2_ab21_2d4f_0b51_44c3_1b31_88ba_0d37_577d_4e64_c293_611b_1c27_b779_c2e3_a122_ec60nat);
    assert(0xc35nat * 0x80_0000_0000_0000_0000_0000_0000_0000_0000nat == 0x6_1a80_0000_0000_0000_0000_0000_0000_0000_0000nat);
    assert(0xa9_a3fe_b824_1aaa_0659_be1e_a95e_dc62_c0da_b50c_88f9_33b0_6731nat * 0x6_1a80_0000_0000_0000_0000_0000_0000_0000_0000nat == 0x40b_6772_2ee8_5cbe_bfc2_bee6_24c1_7c20_be16_e209_0205_01fc_2dd4_9280_0000_0000_0000_0000_0000_0000_0000_0000nat);
    lemma_near_above(
        0x3dc0_dbae, 0xc0_dbae, 122, 0x800, 0x6_1a80_0000_0000_0000_0000_0000_0000_0000_0000nat, 86,
        100525, 0x3_9be5_031d_5975,
        0xd_064d_3154_359d_6cc8_21c4_8f79nat,
        0x45_2c59_9066_9ca1, 0x12b0_eff6_c049_6d6d_d948_5020_9d41nat,
        0x3c3_c266, 0xe_2c40_1f02_c0a4, 0xc8_dea9_7f05_894a_5caf_4b86_6910nat,
        0x3c4_d266, 0xe_3441_3d1b_80a4, 0xc9_c1cd_4075_54c0_118a_8b3c_6910nat,
    );
}

/// The value 0x3dc5_7650.
proof fn lemma_at_3dc57650()
    ensures
        chord_code(0x3dc5_7650, 0x3dc5_5e8d, 0x3dcd_5e8d, 0x42af_f5f2, 0x42b3_5847) == 87,
{
    reveal(chord_code);
    lemma2_to64();
    lemma2_to64_rest();
    lemma_high_powers();
    assert(0xcd_5e8d * 0x1 - 0xc5_5e8d * 0x1 == 0x8_0000);
    lemma_sum_known(0x3dcd_5e8d, 0x3dc5_5e8d, true, 0xcd_5e8d, 122, 0xc5_5e8d, 122, 0x1, 0x1, 0x8_0000, 20, 0x8_0000, 0x10);
    assert(sub_spec(0x3dcd_5e8d, 0x3dc5_5e8d) == 0x3b80_0000);
    assert(0xc5_7650 * 0x1 - 0xc5_5e8d * 0x1 == 0x17c3);
    lemma_sum_known(0x3dc5_7650, 0x3dc5_5e8d, true, 0xc5_7650, 122, 0xc5_5e8d, 122, 0x1, 0x1, 0x17c3, 13, 0x1000, 0x800);
    assert(sub_spec(0x3dc5_7650, 0x3dc5_5e8d) == 0x383e_1800);
    assert(0xb3_5847 * 0x1 - 0xaf_f5f2 * 0x1 == 0x3_6255);
    lemma_sum_known(0x42b3_5847, 0x42af_f5f2, true, 0xb3_5847, 132, 0xaf_f5f2, 132, 0x1, 0x1, 0x3_6255, 18, 0x2_0000, 0x40);
    assert(sub_spec(0x42b3_5847, 0x42af_f5f2) == 0x3fd8_9540);
    assert(0xd8_9540 * 0xbe_1800 == 0xa0d3_137e_0000);
    lemma_product_known(0x3fd8_9540, 0x383e_1800, 0xd8_9540, 126, 0xbe_1800, 111, 0xa0d3_137e_0000, 48, 0x8000_0000_0000, 0x100_0000);
    assert(mul_spec(0x3fd8_9540, 0x383e_1800) == 0x38a0_d313);
    assert(0xa0_d313 * 0x1_0000_0000_0000_0000 == 0x1_41a6_2600_0000_0000 * 0x80_0000 + 0x0);
    lemma_quotient_known(0x38a0_d313, 0x3b80_0000, 0xa0_d313, 112, 0x80_0000, 118, 0x1_41a6_2600_0000_0000, 0x0, 66, 0x2_0000_0000_0000_0000, 0x400_0000_0000);
    assert(div_spec(0x38a0_d313, 0x3b80_0000) == 0x3ca0_d313);
    assert(0xaf_f5f2 * 0x1000 + 0xa0_d313 * 0x1 == 0xa_ffff_f313);
    lemma_sum_known(0x42af_f5f2, 0x3ca0_d313, false, 0xaf_f5f2, 132, 0xa0_d313, 120, 0x1000, 0x1, 0xa_ffff_f313, 36, 0x8_0000_0000, 0x1000);
    assert(add_spec(0x42af_f5f2, 0x3ca0_d313) == 0x42af_ffff);
    lemma_whole_known(0x42af_ffff, 0xaf_ffff, 132, 0x2_0000);
}

/// The value 0x3dc5_7651.
proof fn lemma_at_3dc57651()
    ensures
        chord_code(0x3dc5_7651, 0x3dc5_5e8d, 0x3dcd_5e8d, 0x42af_f5f2, 0x42b3_5847) == 88,
{
    reveal(chord_code);
    lemma2_to64();
    lemma2_to64_rest();
    lemma_high_powers();
    assert(0xcd_5e8d * 0x1 - 0xc5_5e8d * 0x1 == 0x8_0000);
    lemma_sum_known(0x3dcd_5e8d, 0x3dc5_5e8d, true, 0xcd_5e8d, 122, 0xc5_5e8d, 122, 0x1, 0x1, 0x8_0000, 20, 0x8_0000, 0x10);
    assert(sub_spec(0x3dcd_5e8d, 0x3dc5_5e8d) == 0x3b80_0000);
    assert(0xc5_7651 * 0x1 - 0xc5_5e8d * 0x1 == 0x17c4);
    lemma_sum_known(0x3dc5_7651, 0x3dc5_5e8d, true, 0xc5_7651, 122, 0xc5_5e8d, 122, 0x1, 0x1, 0x17c4, 13, 0x1000, 0x800);
    assert(sub_spec(0x3dc5_7651, 0x3dc5_5e8d) == 0x383e_2000);
    assert(0xb3_5847 * 0x1 - 0xaf_f5f2 * 0x1 == 0x3_6255);
    lemma_sum_known(0x42b3_5847, 0x42af_f5f2, true, 0xb3_5847, 132, 0xaf_f5f2, 132, 0x1, 0x1, 0x3_6255, 18, 0x2_0000, 0x40);
    assert(sub_spec(0x42b3_5847, 0x42af_f5f2) == 0x3fd8_9540);
    assert(0xd8_9540 * 0xbe_2000 == 0xa0d9_d828_0000);
    lemma_product_known(0x3fd8_9540, 0x383e_2000, 0xd8_9540, 126, 0xbe_2000, 111, 0xa0d9_d828_0000, 48, 0x8000_0000_0000, 0x100_0000);
    assert(mul_spec(0x3fd8_9540, 0x383e_2000) == 0x38a0_d9d8);
    assert(0xa0_d9d8 * 0x1_0000_0000_0000_0000 == 0x1_41b3_b000_0000_0000 * 0x80_0000 + 0x0);
    lemma_quotient_known(0x38a0_d9d8, 0x3b80_0000, 0xa0_d9d8, 112, 0x80_0000, 118, 0x1_41b3_b000_0000_0000, 0x0, 66, 0x2_0000_0000_0000_0000, 0x400_0000_0000);
    assert(div_spec(0x38a0_d9d8, 0x3b80_0000) == 0x3ca0_d9d8);
    assert(0xaf_f5f2 * 0x1000 + 0xa0_d9d8 * 0x1 == 0xa_ffff_f9d8);
    lemma_sum_known(0x42af_f5f2, 0x3ca0_d9d8, false, 0xaf_f5f2, 132, 0xa0_d9d8, 120, 0x1000, 0x1, 0xa_ffff_f9d8, 36, 0x8_0000_0000, 0x1000);
    assert(add_spec(0x42af_f5f2, 0x3ca0_d9d8) == 0x42b0_0000);
    lemma_whole_known(0x42b0_0000, 0xb0_0000, 132, 0x2_0000);
}

/// The edge of code 87.
proof fn lemma_near_87()
    ensures
        near_exact_edge(0x3dc5_7650, 87),
{
    lemma2_to64();
    lemma2_to64_rest();
    lemma_fifth_powers_of_two();
    lemma_more_fifth_powers_of_two();
    assert(101525nat * 101525 * 101525 == 0x3_b7bd_ea14_fdad);
    assert(269025nat * 269025 * 269025 == 0x45_2c59_9066_9ca1);
    assert(0x3_b7bd_ea14_fdadnat * 0x3_b7bd_ea14_fdad == 0xd_d254_8e0b_6dc4_48ea_e267_66e9nat);
    assert(0xd_d254_8e0b_6dc4_48ea_e267_66e9nat * 0xd_d254_8e0b_6dc4_48ea_e267_66e9nat == 0xbf_0965_4221_6c56_2694_92ea_404d_b931_06da_d5ed_ed6b_5cdc_8011nat);
    assert(0x45_2c59_9066_9ca1nat * 0x45_2c59_9066_9ca1 == 0x12b0_eff6_c049_6d6d_d948_5020_9d41nat);
    assert(0x12b0_eff6_c049_6d6d_d948_5020_9d41nat * 0x12b0_eff6_c049_6d6d_d948_5020_9d41nat == 0x15d_5c09_8741_6139_2178_92b9_bce5_5f46_89a2_dd05_b95f_0d00_50d8_ca81nat);
    assert(0x3da_c790nat * 0x3da_c790 == 0xe_dba5_dcd1_3100);
    assert(0xe_dba5_dcd1_3100nat * 0xe_dba5_dcd1_3100 == 0xdc_c299_5a25_a9f7_6129_0b61_0000nat);
    assert(0xdc_c299_5a25_a9f7_6129_0b61_0000nat * 0x3da_c790 == 0x3_52f1_9a17_e066_9f1b_1fc3_6288_cd90_0000nat);
    assert(0x3db_d790nat * 0x3db_d790 == 0xe_e3d7_e5e3_3100);
    assert(0xe_e3d7_e5e3_3100nat * 0xe_e3d7_e5e3_3100 == 0xdd_b665_bc9e_36f2_8d49_ef61_0000nat);
    assert(0xdd_b665_bc9e_36f2_8d49_ef61_0000nat * 0x3db_d790 == 0x3_5788_eb24_40a0_d24b_5926_7c9c_1d90_0000nat);
    assert(0x3_52f1_9a17_e066_9f1b_1fc3_6288_cd90_0000nat * 0x15d_5c09_8741_6139_2178_92b9_bce5_5f46_89a2_dd05_b95f_0d00_50d8_ca81nat == 0x489_454d_9202_a628_d69a_05dd_b409_eb77_82a6_2c64_1ce3_b471_677e_4969_4589_6cfc_7333_ba41_60df_0aa3_3590_0000nat);
    assert(0x3_5788_eb24_40a0_d24b_5926_7c9c_1d90_0000nat * 0x15d_5c09_8741_6139_2178_92b9_bce5_5f46_89a2_dd05_b95f_0d00_50d8_ca81nat == 0x48f_893d_9cc1_196c_62ac_ea49_013f_d094_6799_403c_6282_6dcc_398b_b2a3_6bb2_943a_59d8_a1aa_87ad_eb7e_8590_0000nat);
    assert(0xc35nat * 0x80_0000_0000_0000_0000_0000_0000_0000_0000nat == 0x6_1a80_0000_0000_0000_0000_0000_0000_0000_0000nat);
    assert(0xbf_0965_4221_6c56_2694_92ea_404d_b931_06da_d5ed_ed6b_5cdc_8011nat * 0x6_1a80_0000_0000_0000_0000_0000_0000_0000_0000nat == 0x48d_fed8_8820_ffbb_d279_d2b2_c17a_62d1_bc56_aab8_b197_ca47_d3a7_c280_0000_0000_0000_0000_0000_0000_0000_0000nat);
    lemma_near_above(
        0x3dc5_7650, 0xc5_7650, 122, 0x800, 0x6_1a80_0000_0000_0000_0000_0000_0000_0000_0000nat, 87,
        101525, 0x3_b7bd_ea14_fdad,
        0xd_d254_8e0b_6dc4_48ea_e267_66e9nat,
        0x45_2c59_9066_9ca1, 0x12b0_eff6_c049_6d6d_d948_5020_9d41nat,
        0x3da_c790, 0xe_dba5_dcd1_3100, 0xdc_c299_5a25_a9f7_6129_0b61_0000nat,
        0x3db_d790, 0xe_e3d7_e5e3_3100, 0xdd_b665_bc9e_36f2_8d49_ef61_0000nat,
    );
}

/// The value 0x3dca_30ad.
proof fn lemma_at_3dca30ad()
    ensures
        chord_code(0x3dca_30ad, 0x3dc5_5e8d, 0x3dcd_5e8d, 0x42af_f5f2, 0x42b3_5847) == 88,
{
    reveal(chord_code);
    lemma2_to64();
    lemma2_to64_rest();
    lemma_high_powers();
    assert(0xcd_5e8d * 0x1 - 0xc5_5e8d * 0x1 == 0x8_0000);
    lemma_sum_known(0x3dcd_5e8d, 0x3dc5_5e8d, true, 0xcd_5e8d, 122, 0xc5_5e8d, 122, 0x1, 0x1, 0x8_0000, 20, 0x8_0000, 0x10);
    assert(sub_spec(0x3dcd_5e8d, 0x3dc5_5e8d) == 0x3b80_0000);
    assert(0xca_30ad * 0x1 - 0xc5_5e8d * 0x1 == 0x4_d220);
    lemma_sum_known(0x3dca_30ad, 0x3dc5_5e8d, true, 0xca_30ad, 122, 0xc5_5e8d, 122, 0x1, 0x1, 0x4_d220, 19, 0x4_0000, 0x20);
    assert(sub_spec(0x3dca_30ad, 0x3dc5_5e8d) == 0x3b1a_4400);
    assert(0xb3_5847 * 0x1 - 0xaf_f5f2 * 0x1 == 0x3_6255);
    lemma_sum_known(0x42b3_5847, 0x42af_f5f2, true, 0xb3_5847, 132, 0xaf_f5f2, 132, 0x1, 0x1, 0x3_6255, 18, 0x2_0000, 0x40);
    assert(sub_spec(0x42b3_5847, 0x42af_f5f2) == 0x3fd8_9540);
    assert(0xd8_9540 * 0x9a_4400 == 0x8283_5025_0000);
    lemma_product_known(0x3fd8_9540, 0x3b1a_4400, 0xd8_9540, 126, 0x9a_4400, 117, 0x8283_5025_0000, 48, 0x8000_0000_0000, 0x100_0000);
    assert(mul_spec(0x3fd8_9540, 0x3b1a_4400) == 0x3b82_8350);
    assert(0x82_8350 * 0x1_0000_0000_0000_0000 == 0x1_0506_a000_0000_0000 * 0x80_0000 + 0x0);
    lemma_quotient_known(0x3b82_8350, 0x3b80_0000, 0x82_8350, 118, 0x80_0000, 118, 0x1_0506_a000_0000_0000, 0x0, 66, 0x2_0000_0000_0000_0000, 0x400_0000_0000);
    assert(div_spec(0x3b82_8350, 0x3b80_0000) == 0x3f82_8350);
    assert(0xaf_f5f2 * 0x40 + 0x82_8350 * 0x1 == 0x2c7f_ffd0);
    lemma_sum_known(0x42af_f5f2, 0x3f82_8350, false, 0xaf_f5f2, 132, 0x82_8350, 126, 0x40, 0x1, 0x2c7f_ffd0, 30, 0x2000_0000, 0x40);
    assert(add_spec(0x42af_f5f2, 0x3f82_8350) == 0x42b1_ffff);
    lemma_whole_known(0x42b1_ffff, 0xb1_ffff, 132, 0x2_0000);
}

/// The value 0x3dca_30ae.
proof fn lemma_at_3dca30ae()
    ensures
        chord_code(0x3dca_30ae, 0x3dc5_5e8d, 0x3dcd_5e8d, 0x42af_f5f2, 0x42b3_5847) == 89,
{
    reveal(chord_code);
    lemma2_to64();
    lemma2_to64_rest();
    lemma_high_powers();
    assert(0xcd_5e8d * 0x1 - 0xc5_5e8d * 0x1 == 0x8_0000);
    lemma_sum_known(0x3dcd_5e8d, 0x3dc5_5e8d, true, 0xcd_5e8d, 122, 0xc5_5e8d, 122, 0x1, 0x1, 0x8_0000, 20, 0x8_0000, 0x10);
    assert(sub_spec(0x3dcd_5e8d, 0x3dc5_5e8d) == 0x3b80_0000);
    assert(0xca_30ae * 0x1 - 0xc5_5e8d * 0x1 == 0x4_d221);
    lemma_sum_known(0x3dca_30ae, 0x3dc5_5e8d, true, 0xca_30ae, 122, 0xc5_5e8d, 122, 0x1, 0x1, 0x4_d221, 19, 0x4_0000, 0x20);
    assert(sub_spec(0x3dca_30ae, 0x3dc5_5e8d) == 0x3b1a_4420);
    assert(0xb3_5847 * 0x1 - 0xaf_f5f2 * 0x1 == 0x3_6255);
    lemma_sum_known(0x42b3_5847, 0x42af_f5f2, true, 0xb3_5847, 132, 0xaf_f5f2, 132, 0x1, 0x1, 0x3_6255, 18, 0x2_0000, 0x40);
    assert(sub_spec(0x42b3_5847, 0x42af_f5f2) == 0x3fd8_9540);
    assert(0xd8_9540 * 0x9a_4420 == 0x8283_6b37_a800);
    lemma_product_known(0x3fd8_9540, 0x3b1a_4420, 0xd8_9540, 126, 0x9a_4420, 117, 0x8283_6b37_a800, 48, 0x8000_0000_0000, 0x100_0000);
    assert(mul_spec(0x3fd8_9540, 0x3b1a_4420) == 0x3b82_836b);
    assert(0x82_836b * 0x1_0000_0000_0000_0000 == 0x1_0506_d600_0000_0000 * 0x80_0000 + 0x0);
    lemma_quotient_known(0x3b82_836b, 0x3b80_0000, 0x82_836b, 118, 0x80_0000, 118, 0x1_0506_d600_0000_0000, 0x0, 66, 0x2_0000_0000_0000_0000, 0x400_0000_0000);
    assert(div_spec(0x3b82_836b, 0x3b80_0000) == 0x3f82_836b);
    assert(0xaf_f5f2 * 0x40 + 0x82_836b * 0x1 == 0x2c7f_ffeb);
    lemma_sum_known(0x42af_f5f2, 0x3f82_836b, false, 0xaf_f5f2, 132, 0x82_836b, 126, 0x40, 0x1, 0x2c7f_ffeb, 30, 0x2000_0000, 0x40);
    assert(add_spec(0x42af_f5f2, 0x3f82_836b) == 0x42b2_0000);
    lemma_whole_known(0x42b2_0000, 0xb2_0000, 132, 0x2_0000);
}

/// The edge of code 88.
proof fn lemma_near_88()
    ensures
        near_exact_edge(0x3dca_30ad, 88),
{
    lemma2_to64();
    lemma2_to64_rest();
    lemma_fifth_powers_of_two();
    lemma_more_fifth_powers_of_two();
    assert(102525nat * 102525 * 102525 == 0x3_d424_a537_fd65);
    assert(269025nat * 269025 * 269025 == 0x45_2c59_9066_9ca1);
    assert(0x3_d424_a537_fd65nat * 0x3_d424_a537_fd65 == 0xe_a8a8_9633_8e6d_c54b_0e36_c9d9nat);
    assert(0xe_a8a8_9633_8e6d_c54b_0e36_c9d9nat * 0xe_a8a8_9633_8e6d_c54b_0e36_c9d9nat == 0xd6_e18e_21cc_babd_0c85_b557_2b12_78ea_34ec_4656_48f3_82b2_79f1nat);
    assert(0x45_2c59_9066_9ca1nat * 0x45_2c59_9066_9ca1 == 0x12b0_eff6_c049_6d6d_d948_5020_9d41nat);
    assert(0x12b0_eff6_c049_6d6d_d948_5020_9d41nat * 0x12b0_eff6_c049_6d6d_d948_5020_9d41nat == 0x15d_5c09_8741_6139_2178_92b9_bce5_5f46_89a2_dd05_b95f_0d00_50d8_ca81nat);
    assert(0x3f2_6b61nat * 0x3f2_6b61 == 0xf_9413_766e_3ac1);
    assert(0xf_9413_766e_3ac1nat * 0xf_9413_766e_3ac1 == 0xf2_afee_6355_21b3_ae46_7758_0581nat);
    assert(0xf2_afee_6355_21b3_ae46_7758_0581nat * 0x3f2_6b61 == 0x3_bddf_e601_32b7_2f3d_70ef_55da_b999_00e1nat);
    assert(0x3f3_7b61nat * 0x3f3_7b61 == 0xf_9c77_bb9c_5ac1);
    assert(0xf_9c77_bb9c_5ac1nat * 0xf_9c77_bb9c_5ac1 == 0xf3_b5aa_20f9_2613_6382_b164_4581nat);
    assert(0xf3_b5aa_20f9_2613_6382_b164_4581nat * 0x3f3_7b61 == 0x3_c2eb_e380_cb3f_9244_bb4b_0ebe_e0d6_50e1nat);
    assert(0x3_bddf_e601_32b7_2f3d_70ef_55da_b999_00e1nat * 0x15d_5c09_8741_6139_2178_92b9_bce5_5f46_89a2_dd05_b95f_0d00_50d8_ca81nat == 0x51b_329c_ad3f_5beb_a677_db89_c229_47ec_833a_18c9_d7da_90a6_98c0_e413_c5f1_6ed9_e97f_2c13_3e6f_b009_4ea2_fb61nat);
    assert(0x3_c2eb_e380_cb3f_9244_bb4b_0ebe_e0d6_50e1nat * 0x15d_5c09_8741_6139_2178_92b9_bce5_5f46_89a2_dd05_b95f_0d00_50d8_ca81nat == 0x522_15c5_c362_aecc_5a01_b1ce_cc41_b2e2_3c7e_1e8a_abd3_37be_e9e4_1631_430a_82e5_b16c_3f26_3060_26b2_f5a8_4b61nat);
    assert(0xc35nat * 0x80_0000_0000_0000_0000_0000_0000_0000_0000nat == 0x6_1a80_0000_0000_0000_0000_0000_0000_0000_0000nat);
    assert(0xd6_e18e_21cc_babd_0c85_b557_2b12_78ea_34ec_4656_48f3_82b2_79f1nat * 0x6_1a80_0000_0000_0000_0000_0000_0000_0000_0000nat == 0x51f_87ae_014c_11c2_dcee_1750_8864_3f01_7c04_1b4d_a442_4536_5545_7280_0000_0000_0000_0000_0000_0000_0000_0000nat);
    lemma_near_above(
        0x3dca_30ad, 0xca_30ad, 122, 0x800, 0x6_1a80_0000_0000_0000_0000_0000_0000_0000_0000nat, 88,
        102525, 0x3_d424_a537_fd65,
        0xe_a8a8_9633_8e6d_c54b_0e36_c9d9nat,
        0x45_2c59_9066_9ca1, 0x12b0_eff6_c049_6d6d_d948_5020_9d41nat,
        0x3f2_6b61, 0xf_9413_766e_3ac1, 0xf2_afee_6355_21b3_ae46_7758_0581nat,
        0x3f3_7b61, 0xf_9c77_bb9c_5ac1, 0xf3_b5aa_20f9_2613_6382_b164_4581nat,
    );
}

/// The value 0x3dce_f493.
proof fn lemma_at_3dcef493()
    ensures
        chord_code(0x3dce_f493, 0x3dcd_5e8d, 0x3dd5_5e8d, 0x42b3_5847, 0x42b6_a643) == 89,
{
    reveal(chord_code);
    lemma2_to64();
    lemma2_to64_rest();
    lemma_high_powers();
    assert(0xd5_5e8d * 0x1 - 0xcd_5e8d * 0x1 == 0x8_0000);
    lemma_sum_known(0x3dd5_5e8d, 0x3dcd_5e8d, true, 0xd5_5e8d, 122, 0xcd_5e8d, 122, 0x1, 0x1, 0x8_0000, 20, 0x8_0000, 0x10);
    assert(sub_spec(0x3dd5_5e8d, 0x3dcd_5e8d) == 0x3b80_0000);
    assert(0xce_f493 * 0x1 - 0xcd_5e8d * 0x1 == 0x1_9606);
    lemma_sum_known(0x3dce_f493, 0x3dcd_5e8d, true, 0xce_f493, 122, 0xcd_5e8d, 122, 0x1, 0x1, 0x1_9606, 17, 0x1_0000, 0x80);
    assert(sub_spec(0x3dce_f493, 0x3dcd_5e8d) == 0x3a4b_0300);
    assert(0xb6_a643 * 0x1 - 0xb3_5847 * 0x1 == 0x3_4dfc);
    lemma_sum_known(0x42b6_a643, 0x42b3_5847, true, 0xb6_a643, 132, 0xb3_5847, 132, 0x1, 0x1, 0x3_4dfc, 18, 0x2_0000, 0x40);
    assert(sub_spec(0x42b6_a643, 0x42b3_5847) == 0x3fd3_7f00);
    assert(0xd3_7f00 * 0xcb_0300 == 0xa7b8_2f7d_0000);
    lemma_product_known(0x3fd3_7f00, 0x3a4b_0300, 0xd3_7f00, 126, 0xcb_0300, 115, 0xa7b8_2f7d_0000, 48, 0x8000_0000_0000, 0x100_0000);
    assert(mul_spec(0x3fd3_7f00, 0x3a4b_0300) == 0x3aa7_b82f);
    assert(0xa7_b82f * 0x1_0000_0000_0000_0000 == 0x1_4f70_5e00_0000_0000 * 0x80_0000 + 0x0);
    lemma_quotient_known(0x3aa7_b82f, 0x3b80_0000, 0xa7_b82f, 116, 0x80_0000, 118, 0x1_4f70_5e00_0000_0000, 0x0, 66, 0x2_0000_0000_0000_0000, 0x400_0000_0000);
    assert(div_spec(0x3aa7_b82f, 0x3b80_0000) == 0x3ea7_b82f);
    assert(0xb3_5847 * 0x100 + 0xa7_b82f * 0x1 == 0xb3ff_ff2f);
    lemma_sum_known(0x42b3_5847, 0x3ea7_b82f, false, 0xb3_5847, 132, 0xa7_b82f, 124, 0x100, 0x1, 0xb3ff_ff2f, 32, 0x8000_0000, 0x100);
    assert(add_spec(0x42b3_5847, 0x3ea7_b82f) == 0x42b3_ffff);
    lemma_whole_known(0x42b3_ffff, 0xb3_ffff, 132, 0x2_0000);
}

/// The value 0x3dce_f494.
proof fn lemma_at_3dcef494()
    ensures
        chord_code(0x3dce_f494, 0x3dcd_5e8d, 0x3dd5_5e8d, 0x42b3_5847, 0x42b6_a643) == 90,
{
    reveal(chord_code);
    lemma2_to64();
    lemma2_to64_rest();
    lemma_high_powers();
    assert(0xd5_5e8d * 0x1 - 0xcd_5e8d * 0x1 == 0x8_0000);
    lemma_sum_known(0x3dd5_5e8d, 0x3dcd_5e8d, true, 0xd5_5e8d, 122, 0xcd_5e8d, 122, 0x1, 0x1, 0x8_0000, 20, 0x8_0000, 0x10);
    assert(sub_spec(0x3dd5_5e8d, 0x3dcd_5e8d) == 0x3b80_0000);
    assert(0xce_f494 * 0x1 - 0xcd_5e8d * 0x1 == 0x1_9607);
    lemma_sum_known(0x3dce_f494, 0x3dcd_5e8d, true, 0xce_f494, 122, 0xcd_5e8d, 122, 0x1, 0x1, 0x1_9607, 17, 0x1_0000, 0x80);
    assert(sub_spec(0x3dce_f494, 0x3dcd_5e8d) == 0x3a4b_0380);
    assert(0xb6_a643 * 0x1 - 0xb3_5847 * 0x1 == 0x3_4dfc);
    lemma_sum_known(0x42b6_a643, 0x42b3_5847, true, 0xb6_a643, 132, 0xb3_5847, 132, 0x1, 0x1, 0x3_4dfc, 18, 0x2_0000, 0x40);
    assert(sub_spec(0x42b6_a643, 0x42b3_5847) == 0x3fd3_7f00);
    assert(0xd3_7f00 * 0xcb_0380 == 0xa7b8_993c_8000);
    lemma_product_known(0x3fd3_7f00, 0x3a4b_0380, 0xd3_7f00, 126, 0xcb_0380, 115, 0xa7b8_993c_8000, 48, 0x8000_0000_0000, 0x100_0000);
    assert(mul_spec(0x3fd3_7f00, 0x3a4b_0380) == 0x3aa7_b899);
    assert(0xa7_b899 * 0x1_0000_0000_0000_0000 == 0x1_4f71_3200_0000_0000 * 0x80_0000 + 0x0);
    lemma_quotient_known(0x3aa7_b899, 0x3b80_0000, 0xa7_b899, 116, 0x80_0000, 118, 0x1_4f71_3200_0000_0000, 0x0, 66, 0x2_0000_0000_0000_0000, 0x400_0000_0000);
    assert(div_spec(0x3aa7_b899, 0x3b80_0000) == 0x3ea7_b899);
    assert(0xb3_5847 * 0x100 + 0xa7_b899 * 0x1 == 0xb3ff_ff99);
    lemma_sum_known(0x42b3_5847, 0x3ea7_b899, false, 0xb3_5847, 132, 0xa7_b899, 124, 0x100, 0x1, 0xb3ff_ff99, 32, 0x8000_0000, 0x100);
    assert(add_spec(0x42b3_5847, 0x3ea7_b899) == 0x42b4_0000);
    lemma_whole_known(0x42b4_0000, 0xb4_0000, 132, 0x2_0000);
}

/// The edge of code 89.
proof fn lemma_near_89()
    ensures
        near_exact_edge(0x3dce_f493, 89),
{
    lemma2_to64();
    lemma2_to64_rest();
    lemma_fifth_powers_of_two();
    lemma_more_fifth_powers_of_two();
    assert(103525nat * 103525 * 103525 == 0x3_f11a_9a27_149d);
    assert(269025nat * 269025 * 269025 == 0x45_2c59_9066_9ca1);
    assert(0x3_f11a_9a27_149dnat * 0x3_f11a_9a27_149d == 0xf_89b2_b5eb_bd40_d4a8_2d7e_e849nat);
    assert(0xf_89b2_b5eb_bd40_d4a8_2d7e_e849nat * 0xf_89b2_b5eb_bd40_d4a8_2d7e_e849nat == 0xf1_6d02_1517_fb42_b02b_bd15_592b_7ae4_cc4b_dddf_a463_24a0_64d1nat);
    assert(0x45_2c59_9066_9ca1nat * 0x45_2c59_9066_9ca1 == 0x12b0_eff6_c049_6d6d_d948_5020_9d41nat);
    assert(0x12b0_eff6_c049_6d6d_d948_5020_9d41nat * 0x12b0_eff6_c049_6d6d_d948_5020_9d41nat == 0x15d_5c09_8741_6139_2178_92b9_bce5_5f46_89a2_dd05_b95f_0d00_50d8_ca81nat);
    assert(0x40a_3edfnat * 0x40a_3edf == 0x10_525f_f0dc_c641);
    assert(0x10_525f_f0dc_c641nat * 0x10_525f_f0dc_c641 == 0x10a_667f_b5da_dd9b_7a5d_3940_9c81nat);
    assert(0x10a_667f_b5da_dd9b_7a5d_3940_9c81nat * 0x40a_3edf == 0x4_3443_6cb6_bd4d_814e_ee9b_6a0a_a639_925fnat);
    assert(0x40b_4edfnat * 0x40b_4edf == 0x10_5af6_d776_a641);
    assert(0x10_5af6_d776_a641nat * 0x10_5af6_d776_a641 == 0x10b_7f2d_6c57_0265_bb2a_dde4_5c81nat);
    assert(0x10b_7f2d_6c57_0265_bb2a_dde4_5c81nat * 0x40b_4edf == 0x4_39cd_9668_a35a_93d1_cbf4_3434_dba6_e25fnat);
    assert(0x4_3443_6cb6_bd4d_814e_ee9b_6a0a_a639_925fnat * 0x15d_5c09_8741_6139_2178_92b9_bce5_5f46_89a2_dd05_b95f_0d00_50d8_ca81nat == 0x5bc_c2db_7f32_fd4e_7ef3_2f28_9e25_beaf_71b4_6bb5_4110_5602_3cde_bce7_7ab4_5320_ab50_08c1_8f9a_e7d8_60a9_b7dfnat);
    assert(0x4_39cd_9668_a35a_93d1_cbf4_3434_dba6_e25fnat * 0x15d_5c09_8741_6139_2178_92b9_bce5_5f46_89a2_dd05_b95f_0d00_50d8_ca81nat == 0x5c4_5234_327e_493a_813d_0986_1819_201a_2cbf_ee9c_164d_2648_956b_33b8_65d1_6b54_7dd4_a88a_2a3d_5281_0ddf_07dfnat);
    assert(0xc35nat * 0x80_0000_0000_0000_0000_0000_0000_0000_0000nat == 0x6_1a80_0000_0000_0000_0000_0000_0000_0000_0000nat);
    assert(0xf1_6d02_1517_fb42_b02b_bd15_592b_7ae4_cc4b_dddf_a463_24a0_64d1nat * 0x6_1a80_0000_0000_0000_0000_0000_0000_0000_0000nat == 0x5c1_8bd5_35be_df12_8842_f592_ccbf_e195_78ed_0db5_80d7_1f0c_f755_a280_0000_0000_0000_0000_0000_0000_0000_0000nat);
    lemma_near_above(
        0x3dce_f493, 0xce_f493, 122, 0x800, 0x6_1a80_0000_0000_0000_0000_0000_0000_0000_0000nat, 89,
        103525, 0x3_f11a_9a27_149d,
        0xf_89b2_b5eb_bd40_d4a8_2d7e_e849nat,
        0x45_2c59_9066_9ca1, 0x12b0_eff6_c049_6d6d_d948_5020_9d41nat,
        0x40a_3edf, 0x10_525f_f0dc_c641, 0x10a_667f_b5da_dd9b_7a5d_3940_9c81nat,
        0x40b_4edf, 0x10_5af6_d776_a641, 0x10b_7f2d_6c57_0265_bb2a_dde4_5c81nat,
    );
}

/// The value 0x3dd3_cc0d.
proof fn lemma_at_3dd3cc0d()
    ensures
        chord_code(0x3dd3_cc0d, 0x3dcd_5e8d, 0x3dd5_5e8d, 0x42b3_5847, 0x42b6_a643) == 90,
{
    reveal(chord_code);
    lemma2_to64();
    lemma2_to64_rest();
    lemma_high_powers();
    assert(0xd5_5e8d * 0x1 - 0xcd_5e8d * 0x1 == 0x8_0000);
    lemma_sum_known(0x3dd5_5e8d, 0x3dcd_5e8d, true, 0xd5_5e8d, 122, 0xcd_5e8d, 122, 0x1, 0x1, 0x8_0000, 20, 0x8_0000, 0x10);
    assert(sub_spec(0x3dd5_5e8d, 0x3dcd_5e8d) == 0x3b80_0000);
    assert(0xd3_cc0d * 0x1 - 0xcd_5e8d * 0x1 == 0x6_6d80);
    lemma_sum_known(0x3dd3_cc0d, 0x3dcd_5e8d, true, 0xd3_cc0d, 122, 0xcd_5e8d, 122, 0x1, 0x1, 0x6_6d80, 19, 0x4_0000, 0x20);
    assert(sub_spec(0x3dd3_cc0d, 0x3dcd_5e8d) == 0x3b4d_b000);
    assert(0xb6_a643 * 0x1 - 0xb3_5847 * 0x1 == 0x3_4dfc);
    lemma_sum_known(0x42b6_a643, 0x42b3_5847, true, 0xb6_a643, 132, 0xb3_5847, 132, 0x1, 0x1, 0x3_4dfc, 18, 0x2_0000, 0x40);
    assert(sub_spec(0x42b6_a643, 0x42b3_5847) == 0x3fd3_7f00);
    assert(0xd3_7f00 * 0xcd_b000 == 0xa9ee_1a50_0000);
    lemma_product_known(0x3fd3_7f00, 0x3b4d_b000, 0xd3_7f00, 126, 0xcd_b000, 117, 0xa9ee_1a50_0000, 48, 0x8000_0000_0000, 0x100_0000);
    assert(mul_spec(0x3fd3_7f00, 0x3b4d_b000) == 0x3ba9_ee1a);
    assert(0xa9_ee1a * 0x1_0000_0000_0000_0000 == 0x1_53dc_3400_0000_0000 * 0x80_0000 + 0x0);
    lemma_quotient_known(0x3ba9_ee1a, 0x3b80_0000, 0xa9_ee1a, 118, 0x80_0000, 118, 0x1_53dc_3400_0000_0000, 0x0, 66, 0x2_0000_0000_0000_0000, 0x400_0000_0000);
    assert(div_spec(0x3ba9_ee1a, 0x3b80_0000) == 0x3fa9_ee1a);
    assert(0xb3_5847 * 0x40 + 0xa9_ee1a * 0x1 == 0x2d7f_ffda);
    lemma_sum_known(0x42b3_5847, 0x3fa9_ee1a, false, 0xb3_5847, 132, 0xa9_ee1a, 126, 0x40, 0x1, 0x2d7f_ffda, 30, 0x2000_0000, 0x40);
    assert(add_spec(0x42b3_5847, 0x3fa9_ee1a) == 0x42b5_ffff);
    lemma_whole_known(0x42b5_ffff, 0xb5_ffff, 132, 0x2_0000);
}

/// The value 0x3dd3_cc0e.
proof fn lemma_at_3dd3cc0e()
    ensures
        chord_code(0x3dd3_cc0e, 0x3dcd_5e8d, 0x3dd5_5e8d, 0x42b3_5847, 0x42b6_a643) == 91,
{
    reveal(chord_code);
    lemma2_to64();
    lemma2_to64_rest();
    lemma_high_powers();
    assert(0xd5_5e8d * 0x1 - 0xcd_5e8d * 0x1 == 0x8_0000);
    lemma_sum_known(0x3dd5_5e8d, 0x3dcd_5e8d, true, 0xd5_5e8d, 122, 0xcd_5e8d, 122, 0x1, 0x1, 0x8_0000, 20, 0x8_0000, 0x10);
    assert(sub_spec(0x3dd5_5e8d, 0x3dcd_5e8d) == 0x3b80_0000);
    assert(0xd3_cc0e * 0x1 - 0xcd_5e8d * 0x1 == 0x6_6d81);
    lemma_sum_known(0x3dd3_cc0e, 0x3dcd_5e8d, true, 0xd3_cc0e, 122, 0xcd_5e8d, 122, 0x1, 0x1, 0x6_6d81, 19, 0x4_0000, 0x20);
    assert(sub_spec(0x3dd3_cc0e, 0x3dcd_5e8d) == 0x3b4d_b020);
    assert(0xb6_a643 * 0x1 - 0xb3_5847 * 0x1 == 0x3_4dfc);
    lemma_sum_known(0x42b6_a643, 0x42b3_5847, true, 0xb6_a643, 132, 0xb3_5847, 132, 0x1, 0x1, 0x3_4dfc, 18, 0x2_0000, 0x40);
    assert(sub_spec(0x42b6_a643, 0x42b3_5847) == 0x3fd3_7f00);
    assert(0xd3_7f00 * 0xcd_b020 == 0xa9ee_34bf_e000);
    lemma_product_known(0x3fd3_7f00, 0x3b4d_b020, 0xd3_7f00, 126, 0xcd_b020, 117, 0xa9ee_34bf_e000, 48, 0x8000_0000_0000, 0x100_0000);
    assert(mul_spec(0x3fd3_7f00, 0x3b4d_b020) == 0x3ba9_ee35);
    assert(0xa9_ee35 * 0x1_0000_0000_0000_0000 == 0x1_53dc_6a00_0000_0000 * 0x80_0000 + 0x0);
    lemma_quotient_known(0x3ba9_ee35, 0x3b80_0000, 0xa9_ee35, 118, 0x80_0000, 118, 0x1_53dc_6a00_0000_0000, 0x0, 66, 0x2_0000_0000_0000_0000, 0x400_0000_0000);
    assert(div_spec(0x3ba9_ee35, 0x3b80_0000) == 0x3fa9_ee35);
    assert(0xb3_5847 * 0x40 + 0xa9_ee35 * 0x1 == 0x2d7f_fff5);
    lemma_sum_known(0x42b3_5847, 0x3fa9_ee35, false, 0xb3_5847, 132, 0xa9_ee35, 126, 0x40, 0x1, 0x2d7f_fff5, 30, 0x2000_0000, 0x40);
    assert(add_spec(0x42b3_5847, 0x3fa9_ee35) == 0x42b6_0000);
    lemma_whole_known(0x42b6_0000, 0xb6_0000, 132, 0x2_0000);
}

/// The edge of code 90.
proof fn lemma_near_90()
    ensures
        near_exact_edge(0x3dd3_cc0d, 90),
{
    lemma2_to64();
    lemma2_to64_rest();
    lemma_fifth_powers_of_two();
    lemma_more_fifth_powers_of_two();
    assert(104525nat * 104525 * 104525 == 0x4_0ea1_2e82_ff55);
    assert(269025nat * 269025 * 269025 == 0x45_2c59_9066_9ca1);
    assert(0x4_0ea1_2e82_ff55nat * 0x4_0ea1_2e82_ff55 == 0x10_75df_7aa9_d7cd_cbb4_dcfe_7239nat);
    assert(0x10_75df_7aa9_d7cd_cbb4_dcfe_7239nat * 0x10_75df_7aa9_d7cd_cbb4_dcfe_7239nat == 0x10e_f235_5e71_27a7_ddb6_a0b2_87db_1314_cce3_bb07_5760_d412_d0b1nat);
    assert(0x45_2c59_9066_9ca1nat * 0x45_2c59_9066_9ca1 == 0x12b0_eff6_c049_6d6d_d948_5020_9d41nat);
    assert(0x12b0_eff6_c049_6d6d_d948_5020_9d41nat * 0x12b0_eff6_c049_6d6d_d948_5020_9d41nat == 0x15d_5c09_8741_6139_2178_92b9_bce5_5f46_89a2_dd05_b95f_0d00_50d8_ca81nat);
    assert(0x422_7441nat * 0x422_7441 == 0x11_1845_1e0e_f881);
    assert(0x11_1845_1e0e_f881nat * 0x11_1845_1e0e_f881 == 0x124_3b7b_0649_0753_a8a8_5b56_3101nat);
    assert(0x124_3b7b_0649_0753_a8a8_5b56_3101nat * 0x422_7441 == 0x4_b842_8796_d2e5_f79b_cc73_9658_c538_e541nat);
    assert(0x423_8441nat * 0x423_8441 == 0x11_210f_7619_1881);
    assert(0x11_210f_7619_1881nat * 0x11_210f_7619_1881 == 0x125_6852_acb6_c6df_462a_b78a_7101nat);
    assert(0x125_6852_acb6_c6df_462a_b78a_7101nat * 0x423_8441 == 0x4_be56_224a_9624_c692_e194_192d_738e_3541nat);
    assert(0x4_b842_8796_d2e5_f79b_cc73_9658_c538_e541nat * 0x15d_5c09_8741_6139_2178_92b9_bce5_5f46_89a2_dd05_b95f_0d00_50d8_ca81nat == 0x670_e517_ba0e_24de_6f24_3b29_6559_081a_97f2_ffc3_6d31_19af_2f10_ac18_4f5c_1634_fadc_bc69_c32c_4b00_0568_cfc1nat);
    assert(0x4_be56_224a_9624_c692_e194_192d_738e_3541nat * 0x15d_5c09_8741_6139_2178_92b9_bce5_5f46_89a2_dd05_b95f_0d00_50d8_ca81nat == 0x679_3000_e69e_3fd8_e1f3_bf78_940b_b796_f8a2_7ff4_dfde_529d_ef32_2324_12f1_24a8_572d_af3a_eec7_cab6_af86_1fc1nat);
    assert(0xc35nat * 0x80_0000_0000_0000_0000_0000_0000_0000_0000nat == 0x6_1a80_0000_0000_0000_0000_0000_0000_0000_0000nat);
    assert(0x10e_f235_5e71_27a7_ddb6_a0b2_87db_1314_cce3_bb07_5760_d412_d0b1nat * 0x6_1a80_0000_0000_0000_0000_0000_0000_0000_0000nat == 0x675_b952_bced_a48a_12bb_2bd1_aa32_9ff6_748b_f508_4ed0_7e64_d6c0_5280_0000_0000_0000_0000_0000_0000_0000_0000nat);
    lemma_near_above(
        0x3dd3_cc0d, 0xd3_cc0d, 122, 0x800, 0x6_1a80_0000_0000_0000_0000_0000_0000_0000_0000nat, 90,
        104525, 0x4_0ea1_2e82_ff55,
        0x10_75df_7aa9_d7cd_cbb4_dcfe_7239nat,
        0x45_2c59_9066_9ca1, 0x12b0_eff6_c049_6d6d_d948_5020_9d41nat,
        0x422_7441, 0x11_1845_1e0e_f881, 0x124_3b7b_0649_0753_a8a8_5b56_3101nat,
        0x423_8441, 0x11_210f_7619_1881, 0x125_6852_acb6_c6df_462a_b78a_7101nat,
    );
}

/// The value 0x3dd8_b253.
proof fn lemma_at_3dd8b253()
    ensures
        chord_code(0x3dd8_b253, 0x3dd5_5e8d, 0x3ddd_5e8d, 0x42b6_a643, 0x42b9_e58c) == 91,
{
    reveal(chord_code);
    lemma2_to64();
    lemma2_to64_rest();
    lemma_high_powers();
    assert(0xdd_5e8d * 0x1 - 0xd5_5e8d * 0x1 == 0x8_0000);
    lemma_sum_known(0x3ddd_5e8d, 0x3dd5_5e8d, true, 0xdd_5e8d, 122, 0xd5_5e8d, 122, 0x1, 0x1, 0x8_0000, 20, 0x8_0000, 0x10);
    assert(sub_spec(0x3ddd_5e8d, 0x3dd5_5e8d) == 0x3b80_0000);
    assert(0xd8_b253 * 0x1 - 0xd5_5e8d * 0x1 == 0x3_53c6);
    lemma_sum_known(0x3dd8_b253, 0x3dd5_5e8d, true, 0xd8_b253, 122, 0xd5_5e8d, 122, 0x1, 0x1, 0x3_53c6, 18, 0x2_0000, 0x40);
    assert(sub_spec(0x3dd8_b253, 0x3dd5_5e8d) == 0x3ad4_f180);
    assert(0xb9_e58c * 0x1 - 0xb6_a643 * 0x1 == 0x3_3f49);
    lemma_sum_known(0x42b9_e58c, 0x42b6_a643, true, 0xb9_e58c, 132, 0xb6_a643, 132, 0x1, 0x1, 0x3_3f49, 18, 0x2_0000, 0x40);
    assert(sub_spec(0x42b9_e58c, 0x42b6_a643) == 0x3fcf_d240);
    assert(0xcf_d240 * 0xd4_f180 == 0xacde_29d7_6000);
    lemma_product_known(0x3fcf_d240, 0x3ad4_f180, 0xcf_d240, 126, 0xd4_f180, 116, 0xacde_29d7_6000, 48, 0x8000_0000_0000, 0x100_0000);
    assert(mul_spec(0x3fcf_d240, 0x3ad4_f180) == 0x3b2c_de2a);
    assert(0xac_de2a * 0x1_0000_0000_0000_0000 == 0x1_59bc_5400_0000_0000 * 0x80_0000 + 0x0);
    lemma_quotient_known(0x3b2c_de2a, 0x3b80_0000, 0xac_de2a, 117, 0x80_0000, 118, 0x1_59bc_5400_0000_0000, 0x0, 66, 0x2_0000_0000_0000_0000, 0x400_0000_0000);
    assert(div_spec(0x3b2c_de2a, 0x3b80_0000) == 0x3f2c_de2a);
    assert(0xb6_a643 * 0x80 + 0xac_de2a * 0x1 == 0x5bff_ffaa);
    lemma_sum_known(0x42b6_a643, 0x3f2c_de2a, false, 0xb6_a643, 132, 0xac_de2a, 125, 0x80, 0x1, 0x5bff_ffaa, 31, 0x4000_0000, 0x80);
    assert(add_spec(0x42b6_a643, 0x3f2c_de2a) == 0x42b7_ffff);
    lemma_whole_known(0x42b7_ffff, 0xb7_ffff, 132, 0x2_0000);
}

/// The value 0x3dd8_b254.
proof fn lemma_at_3dd8b254()
    ensures
        chord_code(0x3dd8_b254, 0x3dd5_5e8d, 0x3ddd_5e8d, 0x42b6_a643, 0x42b9_e58c) == 92,
{
    reveal(chord_code);
    lemma2_to64();
    lemma2_to64_rest();
    lemma_high_powers();
    assert(0xdd_5e8d * 0x1 - 0xd5_5e8d * 0x1 == 0x8_0000);
    lemma_sum_known(0x3ddd_5e8d, 0x3dd5_5e8d, true, 0xdd_5e8d, 122, 0xd5_5e8d, 122, 0x1, 0x1, 0x8_0000, 20, 0x8_0000, 0x10);
    assert(sub_spec(0x3ddd_5e8d, 0x3dd5_5e8d) == 0x3b80_0000);
    assert(0xd8_b254 * 0x1 - 0xd5_5e8d * 0x1 == 0x3_53c7);
    lemma_sum_known(0x3dd8_b254, 0x3dd5_5e8d, true, 0xd8_b254, 122, 0xd5_5e8d, 122, 0x1, 0x1, 0x3_53c7, 18, 0x2_0000, 0x40);
    assert(sub_spec(0x3dd8_b254, 0x3dd5_5e8d) == 0x3ad4_f1c0);
    assert(0xb9_e58c * 0x1 - 0xb6_a643 * 0x1 == 0x3_3f49);
    lemma_sum_known(0x42b9_e58c, 0x42b6_a643, true, 0xb9_e58c, 132, 0xb6_a643, 132, 0x1, 0x1, 0x3_3f49, 18, 0x2_0000, 0x40);
    assert(sub_spec(0x42b9_e58c, 0x42b6_a643) == 0x3fcf_d240);
    assert(0xcf_d240 * 0xd4_f1c0 == 0xacde_5dcb_f000);
    lemma_product_known(0x3fcf_d240, 0x3ad4_f1c0, 0xcf_d240, 126, 0xd4_f1c0, 116, 0xacde_5dcb_f000, 48, 0x8000_0000_0000, 0x100_0000);
    assert(mul_spec(0x3fcf_d240, 0x3ad4_f1c0) == 0x3b2c_de5e);
    assert(0xac_de5e * 0x1_0000_0000_0000_0000 == 0x1_59bc_bc00_0000_0000 * 0x80_0000 + 0x0);
    lemma_quotient_known(0x3b2c_de5e, 0x3b80_0000, 0xac_de5e, 117, 0x80_0000, 118, 0x1_59bc_bc00_0000_0000, 0x0, 66, 0x2_0000_0000_0000_0000, 0x400_0000_0000);
    assert(div_spec(0x3b2c_de5e, 0x3b80_0000) == 0x3f2c_de5e);
    assert(0xb6_a643 * 0x80 + 0xac_de5e * 0x1 == 0x5bff_ffde);
    lemma_sum_known(0x42b6_a643, 0x3f2c_de5e, false, 0xb6_a643, 132, 0xac_de5e, 125, 0x80, 0x1, 0x5bff_ffde, 31, 0x4000_0000, 0x80);
    assert(add_spec(0x42b6_a643, 0x3f2c_de5e) == 0x42b8_0000);
    lemma_whole_known(0x42b8_0000, 0xb8_0000, 132, 0x2_0000);
}

/// The edge of code 91.
proof fn lemma_near_91()
    ensures
        near_exact_edge(0x3dd8_b253, 91),
{
    lemma2_to64();
    lemma2_to64_rest();
    lemma_fifth_powers_of_two();
    lemma_more_fifth_powers_of_two();
    assert(105525nat * 105525 * 105525 == 0x4_2cb9_c7ec_798d);
    assert(269025nat * 269025 * 269025 == 0x45_2c59_9066_9ca1);
    assert(0x4_2cb9_c7ec_798dnat * 0x4_2cb9_c7ec_798d == 0x11_6d9e_a2ef_a619_a533_8bae_97a9nat);
    assert(0x11_6d9e_a2ef_a619_a533_8bae_97a9nat * 0x11_6d9e_a2ef_a619_a533_8bae_97a9nat == 0x12f_be02_1ce1_aa5e_fdbe_6280_34f3_6e60_42c6_ce49_571a_0994_cd91nat);
    assert(0x45_2c59_9066_9ca1nat * 0x45_2c59_9066_9ca1 == 0x12b0_eff6_c049_6d6d_d948_5020_9d41nat);
    assert(0x12b0_eff6_c049_6d6d_d948_5020_9d41nat * 0x12b0_eff6_c049_6d6d_d948_5020_9d41nat == 0x15d_5c09_8741_6139_2178_92b9_bce5_5f46_89a2_dd05_b95f_0d00_50d8_ca81nat);
    assert(0x43a_f39fnat * 0x43a_f39f == 0x11_e530_43e3_3cc1);
    assert(0x11_e530_43e3_3cc1nat * 0x11_e530_43e3_3cc1 == 0x140_3d98_66bc_238a_cde1_d2b1_0981nat);
    assert(0x140_3d98_66bc_238a_cde1_d2b1_0981nat * 0x43a_f39f == 0x5_4ab5_1780_225a_9d41_0117_ba82_1334_5a1fnat);
    assert(0x43c_039fnat * 0x43c_039f == 0x11_ee2e_aa95_1cc1);
    assert(0x11_ee2e_aa95_1cc1nat * 0x11_ee2e_aa95_1cc1 == 0x141_7fcd_757c_d259_9266_cfe4_c981nat);
    assert(0x141_7fcd_757c_d259_9266_cfe4_c981nat * 0x43c_039f == 0x5_515d_b62b_4587_2245_9db1_6f10_0bb1_aa1fnat);
    assert(0x5_4ab5_1780_225a_9d41_0117_ba82_1334_5a1fnat * 0x15d_5c09_8741_6139_2178_92b9_bce5_5f46_89a2_dd05_b95f_0d00_50d8_ca81nat == 0x738_bfec_8a3e_2f3e_a251_10de_b965_8c7a_b9ce_e605_59f8_3806_d28f_d3ea_8b18_5ade_69fd_f50e_caf4_c208_b6a5_df9fnat);
    assert(0x5_515d_b62b_4587_2245_9db1_6f10_0bb1_aa1fnat * 0x15d_5c09_8741_6139_2178_92b9_bce5_5f46_89a2_dd05_b95f_0d00_50d8_ca81nat == 0x741_d631_b204_d69c_1f82_580b_f450_25cc_278e_627b_75b0_677e_e1c5_2f86_41ee_a1dd_0126_54fe_bf61_9661_4eeb_2f9fnat);
    assert(0xc35nat * 0x80_0000_0000_0000_0000_0000_0000_0000_0000nat == 0x6_1a80_0000_0000_0000_0000_0000_0000_0000_0000nat);
    assert(0x12f_be02_1ce1_aa5e_fdbe_6280_34f3_6e60_42c6_ce49_571a_0994_cd91nat * 0x6_1a80_0000_0000_0000_0000_0000_0000_0000_0000nat == 0x73d_e537_e547_5a5c_c7ba_8433_832f_c92e_8792_6a12_a220_6b7a_b8ad_8280_0000_0000_0000_0000_0000_0000_0000_0000nat);
    lemma_near_above(
        0x3dd8_b253, 0xd8_b253, 122, 0x800, 0x6_1a80_0000_0000_0000_0000_0000_0000_0000_0000nat, 91,
        105525, 0x4_2cb9_c7ec_798d,
        0x11_6d9e_a2ef_a619_a533_8bae_97a9nat,
        0x45_2c59_9066_9ca1, 0x12b0_eff6_c049_6d6d_d948_5020_9d41nat,
        0x43a_f39f, 0x11_e530_43e3_3cc1, 0x140_3d98_66bc_238a_cde1_d2b1_0981nat,
        0x43c_039f, 0x11_ee2e_aa95_1cc1, 0x141_7fcd_757c_d259_9266_cfe4_c981nat,
    );
}

/// The value 0x3ddd_a163.
proof fn lemma_at_3ddda163()
    ensures
        chord_code(0x3ddd_a163, 0x3ddd_5e8d, 0x3de5_5e8d, 0x42b9_e58c, 0x42bd_100a) == 92,
{
    reveal(chord_code);
    lemma2_to64();
    lemma2_to64_rest();
    lemma_high_powers();
    assert(0xe5_5e8d * 0x1 - 0xdd_5e8d * 0x1 == 0x8_0000);
    lemma_sum_known(0x3de5_5e8d, 0x3ddd_5e8d, true, 0xe5_5e8d, 122, 0xdd_5e8d, 122, 0x1, 0x1, 0x8_0000, 20, 0x8_0000, 0x10);
    assert(sub_spec(0x3de5_5e8d, 0x3ddd_5e8d) == 0x3b80_0000);
    assert(0xdd_a163 * 0x1 - 0xdd_5e8d * 0x1 == 0x42d6);
    lemma_sum_known(0x3ddd_a163, 0x3ddd_5e8d, true, 0xdd_a163, 122, 0xdd_5e8d, 122, 0x1, 0x1, 0x42d6, 15, 0x4000, 0x200);
    assert(sub_spec(0x3ddd_a163, 0x3ddd_5e8d) == 0x3905_ac00);
    assert(0xbd_100a * 0x1 - 0xb9_e58c * 0x1 == 0x3_2a7e);
    lemma_sum_known(0x42bd_100a, 0x42b9_e58c, true, 0xbd_100a, 132, 0xb9_e58c, 132, 0x1, 0x1, 0x3_2a7e, 18, 0x2_0000, 0x40);
    assert(sub_spec(0x42bd_100a, 0x42b9_e58c) == 0x3fca_9f80);
    assert(0xca_9f80 * 0x85_ac00 == 0x69cd_00aa_0000);
    lemma_product_known(0x3fca_9f80, 0x3905_ac00, 0xca_9f80, 126, 0x85_ac00, 113, 0x69cd_00aa_0000, 47, 0x4000_0000_0000, 0x80_0000);
    assert(mul_spec(0x3fca_9f80, 0x3905_ac00) == 0x3953_9a01);
    assert(0xd3_9a01 * 0x1_0000_0000_0000_0000 == 0x1_a734_0200_0000_0000 * 0x80_0000 + 0x0);
    lemma_quotient_known(0x3953_9a01, 0x3b80_0000, 0xd3_9a01, 113, 0x80_0000, 118, 0x1_a734_0200_0000_0000, 0x0, 66, 0x2_0000_0000_0000_0000, 0x400_0000_0000);
    assert(div_spec(0x3953_9a01, 0x3b80_0000) == 0x3d53_9a01);
    assert(0xb9_e58c * 0x800 + 0xd3_9a01 * 0x1 == 0x5_cfff_fa01);
    lemma_sum_known(0x42b9_e58c, 0x3d53_9a01, false, 0xb9_e58c, 132, 0xd3_9a01, 121, 0x800, 0x1, 0x5_cfff_fa01, 35, 0x4_0000_0000, 0x800);
    assert(add_spec(0x42b9_e58c, 0x3d53_9a01) == 0x42b9_ffff);
    lemma_whole_known(0x42b9_ffff, 0xb9_ffff, 132, 0x2_0000);
}

/// The value 0x3ddd_a164.
proof fn lemma_at_3ddda164()
    ensures
        chord_code(0x3ddd_a164, 0x3ddd_5e8d, 0x3de5_5e8d, 0x42b9_e58c, 0x42bd_100a) == 93,
{
    reveal(chord_code);
    lemma2_to64();
    lemma2_to64_rest();
    lemma_high_powers();
    assert(0xe5_5e8d * 0x1 - 0xdd_5e8d * 0x1 == 0x8_0000);
    lemma_sum_known(0x3de5_5e8d, 0x3ddd_5e8d, true, 0xe5_5e8d, 122, 0xdd_5e8d, 122, 0x1, 0x1, 0x8_0000, 20, 0x8_0000, 0x10);
    assert(sub_spec(0x3de5_5e8d, 0x3ddd_5e8d) == 0x3b80_0000);
    assert(0xdd_a164 * 0x1 - 0xdd_5e8d * 0x1 == 0x42d7);
    lemma_sum_known(0x3ddd_a164, 0x3ddd_5e8d, true, 0xdd_a164, 122, 0xdd_5e8d, 122, 0x1, 0x1, 0x42d7, 15, 0x4000, 0x200);
    assert(sub_spec(0x3ddd_a164, 0x3ddd_5e8d) == 0x3905_ae00);
    assert(0xbd_100a * 0x1 - 0xb9_e58c * 0x1 == 0x3_2a7e);
    lemma_sum_known(0x42bd_100a, 0x42b9_e58c, true, 0xbd_100a, 132, 0xb9_e58c, 132, 0x1, 0x1, 0x3_2a7e, 18, 0x2_0000, 0x40);
    assert(sub_spec(0x42bd_100a, 0x42b9_e58c) == 0x3fca_9f80);
    assert(0xca_9f80 * 0x85_ae00 == 0x69ce_95e9_0000);
    lemma_product_known(0x3fca_9f80, 0x3905_ae00, 0xca_9f80, 126, 0x85_ae00, 113, 0x69ce_95e9_0000, 47, 0x4000_0000_0000, 0x80_0000);
    assert(mul_spec(0x3fca_9f80, 0x3905_ae00) == 0x3953_9d2c);
    assert(0xd3_9d2c * 0x1_0000_0000_0000_0000 == 0x1_a73a_5800_0000_0000 * 0x80_0000 + 0x0);
    lemma_quotient_known(0x3953_9d2c, 0x3b80_0000, 0xd3_9d2c, 113, 0x80_0000, 118, 0x1_a73a_5800_0000_0000, 0x0, 66, 0x2_0000_0000_0000_0000, 0x400_0000_0000);
    assert(div_spec(0x3953_9d2c, 0x3b80_0000) == 0x3d53_9d2c);
    assert(0xb9_e58c * 0x800 + 0xd3_9d2c * 0x1 == 0x5_cfff_fd2c);
    lemma_sum_known(0x42b9_e58c, 0x3d53_9d2c, false, 0xb9_e58c, 132, 0xd3_9d2c, 121, 0x800, 0x1, 0x5_cfff_fd2c, 35, 0x4_0000_0000, 0x800);
    assert(add_spec(0x42b9_e58c, 0x3d53_9d2c) == 0x42ba_0000);
    lemma_whole_known(0x42ba_0000, 0xba_0000, 132, 0x2_0000);
}

/// The edge of code 92.
proof fn lemma_near_92()
    ensures
        near_exact_edge(0x3ddd_a163, 92),
{
    lemma2_to64();
    lemma2_to64_rest();
    lemma_fifth_powers_of_two();
    lemma_more_fifth_powers_of_two();
    assert(106525nat * 106525 * 106525 == 0x4_4b65_cc04_3f45);
    assert(269025nat * 269025 * 269025 == 0x45_2c59_9066_9ca1);
    assert(0x4_4b65_cc04_3f45nat * 0x4_4b65_cc04_3f45 == 0x12_7163_2e27_152b_1f5a_01cb_0899nat);
    assert(0x12_7163_2e27_152b_1f5a_01cb_0899nat * 0x12_7163_2e27_152b_1f5a_01cb_0899nat == 0x154_242b_32aa_354c_eb42_e9e7_d69d_8ba8_7050_6c40_50ab_d4ef_eb71nat);
    assert(0x45_2c59_9066_9ca1nat * 0x45_2c59_9066_9ca1 == 0x12b0_eff6_c049_6d6d_d948_5020_9d41nat);
    assert(0x12b0_eff6_c049_6d6d_d948_5020_9d41nat * 0x12b0_eff6_c049_6d6d_d948_5020_9d41nat == 0x15d_5c09_8741_6139_2178_92b9_bce5_5f46_89a2_dd05_b95f_0d00_50d8_ca81nat);
    assert(0x453_9eefnat * 0x453_9eef == 0x12_b847_e9a5_e321);
    assert(0x12_b847_e9a5_e321nat * 0x12_b847_e9a5_e321 == 0x15e_6ec4_4f65_d666_cf3e_a40d_8a41nat);
    assert(0x15e_6ec4_4f65_d666_cf3e_a40d_8a41nat * 0x453_9eef == 0x5_ec32_8a69_e7a5_18f8_c9c3_8b48_5b0b_30afnat);
    assert(0x454_aeefnat * 0x454_aeef == 0x12_c17a_bc61_c321);
    assert(0x12_c17a_bc61_c321nat * 0x12_c17a_bc61_c321 == 0x15f_c77c_c8a2_f0a9_7961_ebbd_4a41nat);
    assert(0x15f_c77c_c8a2_f0a9_7961_ebbd_4a41nat * 0x454_aeef == 0x5_f37b_ca16_6f17_ad33_3a89_2feb_1f84_80afnat);
    assert(0x5_ec32_8a69_e7a5_18f8_c9c3_8b48_5b0b_30afnat * 0x15d_5c09_8741_6139_2178_92b9_bce5_5f46_89a2_dd05_b95f_0d00_50d8_ca81nat == 0x815_2201_4af7_98b0_06ed_ccd0_5617_16da_938a_ffc8_8c3f_f878_585f_9672_f211_36b6_9e91_cf76_325a_7af4_78b5_9e2fnat);
    assert(0x5_f37b_ca16_6f17_ad33_3a89_2feb_1f84_80afnat * 0x15d_5c09_8741_6139_2178_92b9_bce5_5f46_89a2_dd05_b95f_0d00_50d8_ca81nat == 0x81f_137b_b17a_fa93_9284_fd8d_f30b_380c_de87_5d62_07b0_6a8d_abaa_06c9_87d2_06f1_8efe_efe9_99a6_8f5c_b2f6_ee2fnat);
    assert(0xc35nat * 0x80_0000_0000_0000_0000_0000_0000_0000_0000nat == 0x6_1a80_0000_0000_0000_0000_0000_0000_0000_0000nat);
    assert(0x154_242b_32aa_354c_eb42_e9e7_d69d_8ba8_7050_6c40_50ab_d4ef_eb71nat * 0x6_1a80_0000_0000_0000_0000_0000_0000_0000_0000nat == 0x81c_0ec1_a8bb_de51_f9eb_e8a5_8768_94e7_9182_dcb6_8c60_c72a_5a85_3280_0000_0000_0000_0000_0000_0000_0000_0000nat);
    lemma_near_above(
        0x3ddd_a163, 0xdd_a163, 122, 0x800, 0x6_1a80_0000_0000_0000_0000_0000_0000_0000_0000nat, 92,
        106525, 0x4_4b65_cc04_3f45,
        0x12_7163_2e27_152b_1f5a_01cb_0899nat,
        0x45_2c59_9066_9ca1, 0x12b0_eff6_c049_6d6d_d948_5020_9d41nat,
        0x453_9eef, 0x12_b847_e9a5_e321, 0x15e_6ec4_4f65_d666_cf3e_a40d_8a41nat,
        0x454_aeef, 0x12_c17a_bc61_c321, 0x15f_c77c_c8a2_f0a9_7961_ebbd_4a41nat,
    );
}

/// The value 0x3de2_af24.
proof fn lemma_at_3de2af24()
    ensures
        chord_code(0x3de2_af24, 0x3ddd_5e8d, 0x3de5_5e8d, 0x42b9_e58c, 0x42bd_100a) == 93,
{
    reveal(chord_code);
    lemma2_to64();
    lemma2_to64_rest();
    lemma_high_powers();
    assert(0xe5_5e8d * 0x1 - 0xdd_5e8d * 0x1 == 0x8_0000);
    lemma_sum_known(0x3de5_5e8d, 0x3ddd_5e8d, true, 0xe5_5e8d, 122, 0xdd_5e8d, 122, 0x1, 0x1, 0x8_0000, 20, 0x8_0000, 0x10);
    assert(sub_spec(0x3de5_5e8d, 0x3ddd_5e8d) == 0x3b80_0000);
    assert(0xe2_af24 * 0x1 - 0xdd_5e8d * 0x1 == 0x5_5097);
    lemma_sum_known(0x3de2_af24, 0x3ddd_5e8d, true, 0xe2_af24, 122, 0xdd_5e8d, 122, 0x1, 0x1, 0x5_5097, 19, 0x4_0000, 0x20);
    assert(sub_spec(0x3de2_af24, 0x3ddd_5e8d) == 0x3b2a_12e0);
    assert(0xbd_100a * 0x1 - 0xb9_e58c * 0x1 == 0x3_2a7e);
    lemma_sum_known(0x42bd_100a, 0x42b9_e58c, true, 0xbd_100a, 132, 0xb9_e58c, 132, 0x1, 0x1, 0x3_2a7e, 18, 0x2_0000, 0x40);
    assert(sub_spec(0x42bd_100a, 0x42b9_e58c) == 0x3fca_9f80);
    assert(0xca_9f80 * 0xaa_12e0 == 0x869c_db82_9000);
    lemma_product_known(0x3fca_9f80, 0x3b2a_12e0, 0xca_9f80, 126, 0xaa_12e0, 117, 0x869c_db82_9000, 48, 0x8000_0000_0000, 0x100_0000);
    assert(mul_spec(0x3fca_9f80, 0x3b2a_12e0) == 0x3b86_9cdc);
    assert(0x86_9cdc * 0x1_0000_0000_0000_0000 == 0x1_0d39_b800_0000_0000 * 0x80_0000 + 0x0);
    lemma_quotient_known(0x3b86_9cdc, 0x3b80_0000, 0x86_9cdc, 118, 0x80_0000, 118, 0x1_0d39_b800_0000_0000, 0x0, 66, 0x2_0000_0000_0000_0000, 0x400_0000_0000);
    assert(div_spec(0x3b86_9cdc, 0x3b80_0000) == 0x3f86_9cdc);
    assert(0xb9_e58c * 0x40 + 0x86_9cdc * 0x1 == 0x2eff_ffdc);
    lemma_sum_known(0x42b9_e58c, 0x3f86_9cdc, false, 0xb9_e58c, 132, 0x86_9cdc, 126, 0x40, 0x1, 0x2eff_ffdc, 30, 0x2000_0000, 0x40);
    assert(add_spec(0x42b9_e58c, 0x3f86_9cdc) == 0x42bb_ffff);
    lemma_whole_known(0x42bb_ffff, 0xbb_ffff, 132, 0x2_0000);
}

/// The value 0x3de2_af25.
proof fn lemma_at_3de2af25()
    ensures
        chord_code(0x3de2_af25, 0x3ddd_5e8d, 0x3de5_5e8d, 0x42b9_e58c, 0x42bd_100a) == 94,
{
    reveal(chord_code);
    lemma2_to64();
    lemma2_to64_rest();
    lemma_high_powers();
    assert(0xe5_5e8d * 0x1 - 0xdd_5e8d * 0x1 == 0x8_0000);
    lemma_sum_known(0x3de5_5e8d, 0x3ddd_5e8d, true, 0xe5_5e8d, 122, 0xdd_5e8d, 122, 0x1, 0x1, 0x8_0000, 20, 0x8_0000, 0x10);
    assert(sub_spec(0x3de5_5e8d, 0x3ddd_5e8d) == 0x3b80_0000);
    assert(0xe2_af25 * 0x1 - 0xdd_5e8d * 0x1 == 0x5_5098);
    lemma_sum_known(0x3de2_af25, 0x3ddd_5e8d, true, 0xe2_af25, 122, 0xdd_5e8d, 122, 0x1, 0x1, 0x5_5098, 19, 0x4_0000, 0x20);
    assert(sub_spec(0x3de2_af25, 0x3ddd_5e8d) == 0x3b2a_1300);
    assert(0xbd_100a * 0x1 - 0xb9_e58c * 0x1 == 0x3_2a7e);
    lemma_sum_known(0x42bd_100a, 0x42b9_e58c, true, 0xbd_100a, 132, 0xb9_e58c, 132, 0x1, 0x1, 0x3_2a7e, 18, 0x2_0000, 0x40);
    assert(sub_spec(0x42bd_100a, 0x42b9_e58c) == 0x3fca_9f80);
    assert(0xca_9f80 * 0xaa_1300 == 0x869c_f4d6_8000);
    lemma_product_known(0x3fca_9f80, 0x3b2a_1300, 0xca_9f80, 126, 0xaa_1300, 117, 0x869c_f4d6_8000, 48, 0x8000_0000_0000, 0x100_0000);
    assert(mul_spec(0x3fca_9f80, 0x3b2a_1300) == 0x3b86_9cf5);
    assert(0x86_9cf5 * 0x1_0000_0000_0000_0000 == 0x1_0d39_ea00_0000_0000 * 0x80_0000 + 0x0);
    lemma_quotient_known(0x3b86_9cf5, 0x3b80_0000, 0x86_9cf5, 118, 0x80_0000, 118, 0x1_0d39_ea00_0000_0000, 0x0, 66, 0x2_0000_0000_0000_0000, 0x400_0000_0000);
    assert(div_spec(0x3b86_9cf5, 0x3b80_0000) == 0x3f86_9cf5);
    assert(0xb9_e58c * 0x40 + 0x86_9cf5 * 0x1 == 0x2eff_fff5);
    lemma_sum_known(0x42b9_e58c, 0x3f86_9cf5, false, 0xb9_e58c, 132, 0x86_9cf5, 126, 0x40, 0x1, 0x2eff_fff5, 30, 0x2000_0000, 0x40);
    assert(add_spec(0x42b9_e58c, 0x3f86_9cf5) == 0x42bc_0000);
    lemma_whole_known(0x42bc_0000, 0xbc_0000, 132, 0x2_0000);
}

/// The edge of code 93.
proof fn lemma_near_93()
    ensures
        near_exact_edge(0x3de2_af24, 93),
{
    lemma2_to64();
    lemma2_to64_rest();
    lemma_fifth_powers_of_two();
    lemma_more_fifth_powers_of_two();
    assert(107525nat * 107525 * 107525 == 0x4_6aa6_a06b_0c7d);
    assert(269025nat * 269025 * 269025 == 0x45_2c59_9066_9ca1);
    assert(0x4_6aa6_a06b_0c7dnat * 0x4_6aa6_a06b_0c7d == 0x13_81a3_6ca5_7999_b27b_b119_f509nat);
    assert(0x13_81a3_6ca5_7999_b27b_b119_f509nat * 0x13_81a3_6ca5_7999_b27b_b119_f509nat == 0x17c_7fe8_3c62_5a32_4785_e455_2737_0f5f_ee4f_28f8_e21e_384c_3a51nat);
    assert(0x45_2c59_9066_9ca1nat * 0x45_2c59_9066_9ca1 == 0x12b0_eff6_c049_6d6d_d948_5020_9d41nat);
    assert(0x12b0_eff6_c049_6d6d_d948_5020_9d41nat * 0x12b0_eff6_c049_6d6d_d948_5020_9d41nat == 0x15d_5c09_8741_6139_2178_92b9_bce5_5f46_89a2_dd05_b95f_0d00_50d8_ca81nat);
    assert(0x46c_e3b4nat * 0x46c_e3b4 == 0x13_956e_8a68_b690);
    assert(0x13_956e_8a68_b690nat * 0x13_956e_8a68_b690 == 0x17f_85a2_6864_3ab5_9368_1731_1100nat);
    assert(0x17f_85a2_6864_3ab5_9368_1731_1100nat * 0x46c_e3b4 == 0x6_a138_0b4e_93f5_e170_19a7_7eb7_fc92_f400nat);
    assert(0x46d_f3b4nat * 0x46d_f3b4 == 0x13_9ed7_0f47_3690);
    assert(0x13_9ed7_0f47_3690nat * 0x13_9ed7_0f47_3690 == 0x180_f67a_7018_ab40_d214_2f81_1100nat);
    assert(0x180_f67a_7018_ab40_d214_2f81_1100nat * 0x46d_f3b4 == 0x6_a931_5485_a3ac_29c8_b453_1d81_26e2_f400nat);
    assert(0x6_a138_0b4e_93f5_e170_19a7_7eb7_fc92_f400nat * 0x15d_5c09_8741_6139_2178_92b9_bce5_5f46_89a2_dd05_b95f_0d00_50d8_ca81nat == 0x90c_2b96_b9de_5ae6_3521_4ddc_1a9a_4b2f_4025_81e1_4706_4d13_12fb_86de_5247_227f_8222_1357_83f3_1040_1a94_f400nat);
    assert(0x6_a931_5485_a3ac_29c8_b453_1d81_26e2_f400nat * 0x15d_5c09_8741_6139_2178_92b9_bce5_5f46_89a2_dd05_b95f_0d00_50d8_ca81nat == 0x917_0d4d_6c38_a1ea_c1e2_b808_b8a0_b26b_a299_4e0f_edcd_8a5c_858c_d437_ba9b_f76b_e405_4f4b_c6ad_8281_8ce4_f400nat);
    assert(0xc35nat * 0x80_0000_0000_0000_0000_0000_0000_0000_0000nat == 0x6_1a80_0000_0000_0000_0000_0000_0000_0000_0000nat);
    assert(0x17c_7fe8_3c62_5a32_4785_e455_2737_0f5f_ee4f_28f8_e21e_384c_3a51nat * 0x6_1a80_0000_0000_0000_0000_0000_0000_0000_0000nat == 0x912_62ae_f48e_4b83_e18a_b621_bbd9_8f57_0406_2793_101d_729d_41ef_6280_0000_0000_0000_0000_0000_0000_0000_0000nat);
    lemma_near_above(
        0x3de2_af24, 0xe2_af24, 122, 0x800, 0x6_1a80_0000_0000_0000_0000_0000_0000_0000_0000nat, 93,
        107525, 0x4_6aa6_a06b_0c7d,
        0x13_81a3_6ca5_7999_b27b_b119_f509nat,
        0x45_2c59_9066_9ca1, 0x12b0_eff6_c049_6d6d_d948_5020_9d41nat,
        0x46c_e3b4, 0x13_956e_8a68_b690, 0x17f_85a2_6864_3ab5_9368_1731_1100nat,
        0x46d_f3b4, 0x13_9ed7_0f47_3690, 0x180_f67a_7018_ab40_d214_2f81_1100nat,
    );
}

/// The value 0x3de7_c6e5.
proof fn lemma_at_3de7c6e5()
    ensures
        chord_code(0x3de7_c6e5, 0x3de5_5e8d, 0x3ded_5e8d, 0x42bd_100a, 0x42c0_2d61) == 94,
{
    reveal(chord_code);
    lemma2_to64();
    lemma2_to64_rest();
    lemma_high_powers();
    assert(0xed_5e8d * 0x1 - 0xe5_5e8d * 0x1 == 0x8_0000);
    lemma_sum_known(0x3ded_5e8d, 0x3de5_5e8d, true, 0xed_5e8d, 122, 0xe5_5e8d, 122, 0x1, 0x1, 0x8_0000, 20, 0x8_0000, 0x10);
    assert(sub_spec(0x3ded_5e8d, 0x3de5_5e8d) == 0x3b80_0000);
    assert(0xe7_c6e5 * 0x1 - 0xe5_5e8d * 0x1 == 0x2_6858);
    lemma_sum_known(0x3de7_c6e5, 0x3de5_5e8d, true, 0xe7_c6e5, 122, 0xe5_5e8d, 122, 0x1, 0x1, 0x2_6858, 18, 0x2_0000, 0x40);
    assert(sub_spec(0x3de7_c6e5, 0x3de5_5e8d) == 0x3a9a_1600);
    assert(0xc0_2d61 * 0x1 - 0xbd_100a * 0x1 == 0x3_1d57);
    lemma_sum_known(0x42c0_2d61, 0x42bd_100a, true, 0xc0_2d61, 132, 0xbd_100a, 132, 0x1, 0x1, 0x3_1d57, 18, 0x2_0000, 0x40);
    assert(sub_spec(0x42c0_2d61, 0x42bd_100a) == 0x3fc7_55c0);
    assert(0xc7_55c0 * 0x9a_1600 == 0x77fa_b6de_8000);
    lemma_product_known(0x3fc7_55c0, 0x3a9a_1600, 0xc7_55c0, 126, 0x9a_1600, 116, 0x77fa_b6de_8000, 47, 0x4000_0000_0000, 0x80_0000);
    assert(mul_spec(0x3fc7_55c0, 0x3a9a_1600) == 0x3aef_f56e);
    assert(0xef_f56e * 0x1_0000_0000_0000_0000 == 0x1_dfea_dc00_0000_0000 * 0x80_0000 + 0x0);
    lemma_quotient_known(0x3aef_f56e, 0x3b80_0000, 0xef_f56e, 116, 0x80_0000, 118, 0x1_dfea_dc00_0000_0000, 0x0, 66, 0x2_0000_0000_0000_0000, 0x400_0000_0000);
    assert(div_spec(0x3aef_f56e, 0x3b80_0000) == 0x3eef_f56e);
    assert(0xbd_100a * 0x100 + 0xef_f56e * 0x1 == 0xbdff_ff6e);
    lemma_sum_known(0x42bd_100a, 0x3eef_f56e, false, 0xbd_100a, 132, 0xef_f56e, 124, 0x100, 0x1, 0xbdff_ff6e, 32, 0x8000_0000, 0x100);
    assert(add_spec(0x42bd_100a, 0x3eef_f56e) == 0x42bd_ffff);
    lemma_whole_known(0x42bd_ffff, 0xbd_ffff, 132, 0x2_0000);
}

/// The value 0x3de7_c6e6.
proof fn lemma_at_3de7c6e6()
    ensures
        chord_code(0x3de7_c6e6, 0x3de5_5e8d, 0x3ded_5e8d, 0x42bd_100a, 0x42c0_2d61) == 95,
{
    reveal(chord_code);
    lemma2_to64();
    lemma2_to64_rest();
    lemma_high_powers();
    assert(0xed_5e8d * 0x1 - 0xe5_5e8d * 0x1 == 0x8_0000);
    lemma_sum_known(0x3ded_5e8d, 0x3de5_5e8d, true, 0xed_5e8d, 122, 0xe5_5e8d, 122, 0x1, 0x1, 0x8_0000, 20, 0x8_0000, 0x10);
    assert(sub_spec(0x3ded_5e8d, 0x3de5_5e8d) == 0x3b80_0000);
    assert(0xe7_c6e6 * 0x1 - 0xe5_5e8d * 0x1 == 0x2_6859);
    lemma_sum_known(0x3de7_c6e6, 0x3de5_5e8d, true, 0xe7_c6e6, 122, 0xe5_5e8d, 122, 0x1, 0x1, 0x2_6859, 18, 0x2_0000, 0x40);
    assert(sub_spec(0x3de7_c6e6, 0x3de5_5e8d) == 0x3a9a_1640);
    assert(0xc0_2d61 * 0x1 - 0xbd_100a * 0x1 == 0x3_1d57);
    lemma_sum_known(0x42c0_2d61, 0x42bd_100a, true, 0xc0_2d61, 132, 0xbd_100a, 132, 0x1, 0x1, 0x3_1d57, 18, 0x2_0000, 0x40);
    assert(sub_spec(0x42c0_2d61, 0x42bd_100a) == 0x3fc7_55c0);
    assert(0xc7_55c0 * 0x9a_1640 == 0x77fa_e8b3_f000);
    lemma_product_known(0x3fc7_55c0, 0x3a9a_1640, 0xc7_55c0, 126, 0x9a_1640, 116, 0x77fa_e8b3_f000, 47, 0x4000_0000_0000, 0x80_0000);
    assert(mul_spec(0x3fc7_55c0, 0x3a9a_1640) == 0x3aef_f5d1);
    assert(0xef_f5d1 * 0x1_0000_0000_0000_0000 == 0x1_dfeb_a200_0000_0000 * 0x80_0000 + 0x0);
    lemma_quotient_known(0x3aef_f5d1, 0x3b80_0000, 0xef_f5d1, 116, 0x80_0000, 118, 0x1_dfeb_a200_0000_0000, 0x0, 66, 0x2_0000_0000_0000_0000, 0x400_0000_0000);
    assert(div_spec(0x3aef_f5d1, 0x3b80_0000) == 0x3eef_f5d1);
    assert(0xbd_100a * 0x100 + 0xef_f5d1 * 0x1 == 0xbdff_ffd1);
    lemma_sum_known(0x42bd_100a, 0x3eef_f5d1, false, 0xbd_100a, 132, 0xef_f5d1, 124, 0x100, 0x1, 0xbdff_ffd1, 32, 0x8000_0000, 0x100);
    assert(add_spec(0x42bd_100a, 0x3eef_f5d1) == 0x42be_0000);
    lemma_whole_known(0x42be_0000, 0xbe_0000, 132, 0x2_0000);
}

/// The edge of code 94.
proof fn lemma_near_94()
    ensures
        near_exact_edge(0x3de7_c6e5, 94),
{
    lemma2_to64();
    lemma2_to64_rest();
    lemma_fifth_powers_of_two();
    lemma_more_fifth_powers_of_two();
    assert(108525nat * 108525 * 108525 == 0x4_8a7d_aac1_9d35);
    assert(269025nat * 269025 * 269025 == 0x45_2c59_9066_9ca1);
    assert(0x4_8a7d_aac1_9d35nat * 0x4_8a7d_aac1_9d35 == 0x14_9ed9_0fd5_da1e_60fa_ce74_0cf9nat);
    assert(0x14_9ed9_0fd5_da1e_60fa_ce74_0cf9nat * 0x14_9ed9_0fd5_da1e_60fa_ce74_0cf9nat == 0x1a9_347b_2101_e783_309a_81ed_cdfc_87e7_de34_093f_0fd0_7e50_4a31nat);
    assert(0x45_2c59_9066_9ca1nat * 0x45_2c59_9066_9ca1 == 0x12b0_eff6_c049_6d6d_d948_5020_9d41nat);
    assert(0x12b0_eff6_c049_6d6d_d948_5020_9d41nat * 0x12b0_eff6_c049_6d6d_d948_5020_9d41nat == 0x15d_5c09_8741_6139_2178_92b9_bce5_5f46_89a2_dd05_b95f_0d00_50d8_ca81nat);
    assert(0x486_5a79nat * 0x486_5a79 == 0x14_7956_9ea5_4d31);
    assert(0x14_7956_9ea5_4d31nat * 0x14_7956_9ea5_4d31 == 0x1a3_2f0b_c91b_4c00_a4f1_1470_8361nat);
    assert(0x1a3_2f0b_c91b_4c00_a4f1_1470_8361nat * 0x486_5a79 == 0x7_68ba_f3fb_12bf_7189_40cd_2c14_8024_32d9nat);
    assert(0x487_6a79nat * 0x487_6a79 == 0x14_82f5_3fe6_6d31);
    assert(0x14_82f5_3fe6_6d31nat * 0x14_82f5_3fe6_6d31 == 0x1a4_b94f_fbda_758d_fcf0_809e_c361nat);
    assert(0x1a4_b94f_fbda_758d_fcf0_809e_c361nat * 0x487_6a79 == 0x7_7171_f4b3_ef20_b4c2_7fae_71b5_1417_82d9nat);
    assert(0x7_68ba_f3fb_12bf_7189_40cd_2c14_8024_32d9nat * 0x15d_5c09_8741_6139_2178_92b9_bce5_5f46_89a2_dd05_b95f_0d00_50d8_ca81nat == 0xa1c_70c8_65a8_5c05_b758_457f_8793_4065_471d_1871_d36e_9d3b_252d_9725_3871_7014_d87c_621b_ab9e_d6df_d974_d959nat);
    assert(0x7_7171_f4b3_ef20_b4c2_7fae_71b5_1417_82d9nat * 0x15d_5c09_8741_6139_2178_92b9_bce5_5f46_89a2_dd05_b95f_0d00_50d8_ca81nat == 0xa28_5566_78f8_fd79_0447_13e5_a867_8469_0883_b671_9e1e_f0e8_eed2_29f7_a6b0_bcf3_2259_5505_14dc_7fd3_e430_2959nat);
    assert(0xc35nat * 0x80_0000_0000_0000_0000_0000_0000_0000_0000nat == 0x6_1a80_0000_0000_0000_0000_0000_0000_0000_0000nat);
    assert(0x1a9_347b_2101_e783_309a_81ed_cdfc_87e7_de34_093f_0fd0_7e50_4a31nat * 0x6_1a80_0000_0000_0000_0000_0000_0000_0000_0000nat == 0xa23_3ed1_84f6_1f8a_3827_0a05_f1bd_d380_b5b8_9a6f_6606_0af5_0cd4_1280_0000_0000_0000_0000_0000_0000_0000_0000nat);
    lemma_near_above(
        0x3de7_c6e5, 0xe7_c6e5, 122, 0x800, 0x6_1a80_0000_0000_0000_0000_0000_0000_0000_0000nat, 94,
        108525, 0x4_8a7d_aac1_9d35,
        0x14_9ed9_0fd5_da1e_60fa_ce74_0cf9nat,
        0x45_2c59_9066_9ca1, 0x12b0_eff6_c049_6d6d_d948_5020_9d41nat,
        0x486_5a79, 0x14_7956_9ea5_4d31, 0x1a3_2f0b_c91b_4c00_a4f1_1470_8361nat,
        0x487_6a79, 0x14_82f5_3fe6_6d31, 0x1a4_b94f_fbda_758d_fcf0_809e_c361nat,
    );
}

/// The value 0x3dec_e9fc.
proof fn lemma_at_3dece9fc()
    ensures
        chord_code(0x3dec_e9fc, 0x3de5_5e8d, 0x3ded_5e8d, 0x42bd_100a, 0x42c0_2d61) == 95,
{
    reveal(chord_code);
    lemma2_to64();
    lemma2_to64_rest();
    lemma_high_powers();
    assert(0xed_5e8d * 0x1 - 0xe5_5e8d * 0x1 == 0x8_0000);
    lemma_sum_known(0x3ded_5e8d, 0x3de5_5e8d, true, 0xed_5e8d, 122, 0xe5_5e8d, 122, 0x1, 0x1, 0x8_0000, 20, 0x8_0000, 0x10);
    assert(sub_spec(0x3ded_5e8d, 0x3de5_5e8d) == 0x3b80_0000);
    assert(0xec_e9fc * 0x1 - 0xe5_5e8d * 0x1 == 0x7_8b6f);
    lemma_sum_known(0x3dec_e9fc, 0x3de5_5e8d, true, 0xec_e9fc, 122, 0xe5_5e8d, 122, 0x1, 0x1, 0x7_8b6f, 19, 0x4_0000, 0x20);
    assert(sub_spec(0x3dec_e9fc, 0x3de5_5e8d) == 0x3b71_6de0);
    assert(0xc0_2d61 * 0x1 - 0xbd_100a * 0x1 == 0x3_1d57);
    lemma_sum_known(0x42c0_2d61, 0x42bd_100a, true, 0xc0_2d61, 132, 0xbd_100a, 132, 0x1, 0x1, 0x3_1d57, 18, 0x2_0000, 0x40);
    assert(sub_spec(0x42c0_2d61, 0x42bd_100a) == 0x3fc7_55c0);
    assert(0xc7_55c0 * 0xf1_6de0 == 0xbbfd_47ad_c800);
    lemma_product_known(0x3fc7_55c0, 0x3b71_6de0, 0xc7_55c0, 126, 0xf1_6de0, 117, 0xbbfd_47ad_c800, 48, 0x8000_0000_0000, 0x100_0000);
    assert(mul_spec(0x3fc7_55c0, 0x3b71_6de0) == 0x3bbb_fd48);
    assert(0xbb_fd48 * 0x1_0000_0000_0000_0000 == 0x1_77fa_9000_0000_0000 * 0x80_0000 + 0x0);
    lemma_quotient_known(0x3bbb_fd48, 0x3b80_0000, 0xbb_fd48, 118, 0x80_0000, 118, 0x1_77fa_9000_0000_0000, 0x0, 66, 0x2_0000_0000_0000_0000, 0x400_0000_0000);
    assert(div_spec(0x3bbb_fd48, 0x3b80_0000) == 0x3fbb_fd48);
    assert(0xbd_100a * 0x40 + 0xbb_fd48 * 0x1 == 0x2fff_ffc8);
    lemma_sum_known(0x42bd_100a, 0x3fbb_fd48, false, 0xbd_100a, 132, 0xbb_fd48, 126, 0x40, 0x1, 0x2fff_ffc8, 30, 0x2000_0000, 0x40);
    assert(add_spec(0x42bd_100a, 0x3fbb_fd48) == 0x42bf_ffff);
    lemma_whole_known(0x42bf_ffff, 0xbf_ffff, 132, 0x2_0000);
}

/// The value 0x3dec_e9fd.
proof fn lemma_at_3dece9fd()
    ensures
        chord_code(0x3dec_e9fd, 0x3de5_5e8d, 0x3ded_5e8d, 0x42bd_100a, 0x42c0_2d61) == 96,
{
    reveal(chord_code);
    lemma2_to64();
    lemma2_to64_rest();
    lemma_high_powers();
    assert(0xed_5e8d * 0x1 - 0xe5_5e8d * 0x1 == 0x8_0000);
    lemma_sum_known(0x3ded_5e8d, 0x3de5_5e8d, true, 0xed_5e8d, 122, 0xe5_5e8d, 122, 0x1, 0x1, 0x8_0000, 20, 0x8_0000, 0x10);
    assert(sub_spec(0x3ded_5e8d, 0x3de5_5e8d) == 0x3b80_0000);
    assert(0xec_e9fd * 0x1 - 0xe5_5e8d * 0x1 == 0x7_8b70);
    lemma_sum_known(0x3dec_e9fd, 0x3de5_5e8d, true, 0xec_e9fd, 122, 0xe5_5e8d, 122, 0x1, 0x1, 0x7_8b70, 19, 0x4_0000, 0x20);
    assert(sub_spec(0x3dec_e9fd, 0x3de5_5e8d) == 0x3b71_6e00);
    assert(0xc0_2d61 * 0x1 - 0xbd_100a * 0x1 == 0x3_1d57);
    lemma_sum_known(0x42c0_2d61, 0x42bd_100a, true, 0xc0_2d61, 132, 0xbd_100a, 132, 0x1, 0x1, 0x3_1d57, 18, 0x2_0000, 0x40);
    assert(sub_spec(0x42c0_2d61, 0x42bd_100a) == 0x3fc7_55c0);
    assert(0xc7_55c0 * 0xf1_6e00 == 0xbbfd_6098_8000);
    lemma_product_known(0x3fc7_55c0, 0x3b71_6e00, 0xc7_55c0, 126, 0xf1_6e00, 117, 0xbbfd_6098_8000, 48, 0x8000_0000_0000, 0x100_0000);
    assert(mul_spec(0x3fc7_55c0, 0x3b71_6e00) == 0x3bbb_fd61);
    assert(0xbb_fd61 * 0x1_0000_0000_0000_0000 == 0x1_77fa_c200_0000_0000 * 0x80_0000 + 0x0);
    lemma_quotient_known(0x3bbb_fd61, 0x3b80_0000, 0xbb_fd61, 118, 0x80_0000, 118, 0x1_77fa_c200_0000_0000, 0x0, 66, 0x2_0000_0000_0000_0000, 0x400_0000_0000);
    assert(div_spec(0x3bbb_fd61, 0x3b80_0000) == 0x3fbb_fd61);
    assert(0xbd_100a * 0x40 + 0xbb_fd61 * 0x1 == 0x2fff_ffe1);
    lemma_sum_known(0x42bd_100a, 0x3fbb_fd61, false, 0xbd_100a, 132, 0xbb_fd61, 126, 0x40, 0x1, 0x2fff_ffe1, 30, 0x2000_0000, 0x40);
    assert(add_spec(0x42bd_100a, 0x3fbb_fd61) == 0x42c0_0000);
    lemma_whole_known(0x42c0_0000, 0xc0_0000, 132, 0x2_0000);
}

/// The edge of code 95.
proof fn lemma_near_95()
    ensures
        near_exact_edge(0x3dec_e9fc, 95),
{
    lemma2_to64();
    lemma2_to64_rest();
    lemma_fifth_powers_of_two();
    lemma_more_fifth_powers_of_two();
    assert(109525nat * 109525 * 109525 == 0x4_aaec_50a8_ad6d);
    assert(269025nat * 269025 * 269025 == 0x45_2c59_9066_9ca1);
    assert(0x4_aaec_50a8_ad6dnat * 0x4_aaec_50a8_ad6d == 0x15_c981_3a8a_4226_6080_348c_8069nat);
    assert(0x15_c981_3a8a_4226_6080_348c_8069nat * 0x15_c981_3a8a_4226_6080_348c_8069nat == 0x1da_adcf_c9d8_02e5_b3e3_f8f8_9a03_8304_78be_3ac4_8a47_5b41_2b11nat);
    assert(0x45_2c59_9066_9ca1nat * 0x45_2c59_9066_9ca1 == 0x12b0_eff6_c049_6d6d_d948_5020_9d41nat);
    assert(0x12b0_eff6_c049_6d6d_d948_5020_9d41nat * 0x12b0_eff6_c049_6d6d_d948_5020_9d41nat == 0x15d_5c09_8741_6139_2178_92b9_bce5_5f46_89a2_dd05_b95f_0d00_50d8_ca81nat);
    assert(0x4a0_09ecnat * 0x4a0_09ec == 0x15_645b_c762_7190);
    assert(0x15_645b_c762_7190nat * 0x15_645b_c762_7190 == 0x1c9_9e66_8ad2_e59f_6ec9_04a0_7100nat);
    assert(0x1c9_9e66_8ad2_e59f_6ec9_04a0_7100nat * 0x4a0_09ec == 0x8_448e_56b1_b0cf_65de_ab94_9884_87e1_2c00nat);
    assert(0x4a1_19ecnat * 0x4a1_19ec == 0x15_6e30_fd77_f190);
    assert(0x15_6e30_fd77_f190nat * 0x15_6e30_fd77_f190 == 0x1cb_4377_b8e0_bd28_a1a9_17d0_7100nat);
    assert(0x1cb_4377_b8e0_bd28_a1a9_17d0_7100nat * 0x4a1_19ec == 0x8_4e11_ce27_abb7_fabb_a8f5_c710_6031_2c00nat);
    assert(0x8_448e_56b1_b0cf_65de_ab94_9884_87e1_2c00nat * 0x15d_5c09_8741_6139_2178_92b9_bce5_5f46_89a2_dd05_b95f_0d00_50d8_ca81nat == 0xb48_6efe_1eaa_8e35_9f17_a1ff_f6a6_bf85_5e36_f7d3_2dd1_1ace_99a6_4988_ee29_29e2_15e3_f9e3_93be_71bd_452f_2c00nat);
    assert(0x8_4e11_ce27_abb7_fabb_a8f5_c710_6031_2c00nat * 0x15d_5c09_8741_6139_2178_92b9_bce5_5f46_89a2_dd05_b95f_0d00_50d8_ca81nat == 0xb55_6aa3_9415_f897_7416_ccaf_aa2a_471b_ab4c_7113_d6f4_e8a7_a7ed_827a_d982_a6bd_4255_b564_fa08_c264_657f_2c00nat);
    assert(0xc35nat * 0x80_0000_0000_0000_0000_0000_0000_0000_0000nat == 0x6_1a80_0000_0000_0000_0000_0000_0000_0000_0000nat);
    assert(0x1da_adcf_c9d8_02e5_b3e3_f8f8_9a03_8304_78be_3ac4_8a47_5b41_2b11nat * 0x6_1a80_0000_0000_0000_0000_0000_0000_0000_0000nat == 0xb51_35dc_bd74_edae_fe76_ef19_5806_6f2a_caf5_11b0_95fc_8679_415b_4280_0000_0000_0000_0000_0000_0000_0000_0000nat);
    lemma_near_above(
        0x3dec_e9fc, 0xec_e9fc, 122, 0x800, 0x6_1a80_0000_0000_0000_0000_0000_0000_0000_0000nat, 95,
        109525, 0x4_aaec_50a8_ad6d,
        0x15_c981_3a8a_4226_6080_348c_8069nat,
        0x45_2c59_9066_9ca1, 0x12b0_eff6_c049_6d6d_d948_5020_9d41nat,
        0x4a0_09ec, 0x15_645b_c762_7190, 0x1c9_9e66_8ad2_e59f_6ec9_04a0_7100nat,
        0x4a1_19ec, 0x15_6e30_fd77_f190, 0x1cb_4377_b8e0_bd28_a1a9_17d0_7100nat,
    );
}

/// The value 0x3df2_389b.
proof fn lemma_at_3df2389b()
    ensures
        chord_code(0x3df2_389b, 0x3ded_5e8d, 0x3df5_5e8d, 0x42c0_2d61, 0x42c3_2ec7) == 96,
{
    reveal(chord_code);
    lemma2_to64();
    lemma2_to64_rest();
    lemma_high_powers();
    assert(0xf5_5e8d * 0x1 - 0xed_5e8d * 0x1 == 0x8_0000);
    lemma_sum_known(0x3df5_5e8d, 0x3ded_5e8d, true, 0xf5_5e8d, 122, 0xed_5e8d, 122, 0x1, 0x1, 0x8_0000, 20, 0x8_0000, 0x10);
    assert(sub_spec(0x3df5_5e8d, 0x3ded_5e8d) == 0x3b80_0000);
    assert(0xf2_389b * 0x1 - 0xed_5e8d * 0x1 == 0x4_da0e);
    lemma_sum_known(0x3df2_389b, 0x3ded_5e8d, true, 0xf2_389b, 122, 0xed_5e8d, 122, 0x1, 0x1, 0x4_da0e, 19, 0x4_0000, 0x20);
    assert(sub_spec(0x3df2_389b, 0x3ded_5e8d) == 0x3b1b_41c0);
    assert(0xc3_2ec7 * 0x1 - 0xc0_2d61 * 0x1 == 0x3_0166);
    lemma_sum_known(0x42c3_2ec7, 0x42c0_2d61, true, 0xc3_2ec7, 132, 0xc0_2d61, 132, 0x1, 0x1, 0x3_0166, 18, 0x2_0000, 0x40);
    assert(sub_spec(0x42c3_2ec7, 0x42c0_2d61) == 0x3fc0_5980);
    assert(0xc0_5980 * 0x9b_41c0 == 0x74a7_977c_a000);
    lemma_product_known(0x3fc0_5980, 0x3b1b_41c0, 0xc0_5980, 126, 0x9b_41c0, 117, 0x74a7_977c_a000, 47, 0x4000_0000_0000, 0x80_0000);
    assert(mul_spec(0x3fc0_5980, 0x3b1b_41c0) == 0x3b69_4f2f);
    assert(0xe9_4f2f * 0x1_0000_0000_0000_0000 == 0x1_d29e_5e00_0000_0000 * 0x80_0000 + 0x0);
    lemma_quotient_known(0x3b69_4f2f, 0x3b80_0000, 0xe9_4f2f, 117, 0x80_0000, 118, 0x1_d29e_5e00_0000_0000, 0x0, 66, 0x2_0000_0000_0000_0000, 0x400_0000_0000);
    assert(div_spec(0x3b69_4f2f, 0x3b80_0000) == 0x3f69_4f2f);
    assert(0xc0_2d61 * 0x80 + 0xe9_4f2f * 0x1 == 0x60ff_ffaf);
    lemma_sum_known(0x42c0_2d61, 0x3f69_4f2f, false, 0xc0_2d61, 132, 0xe9_4f2f, 125, 0x80, 0x1, 0x60ff_ffaf, 31, 0x4000_0000, 0x80);
    assert(add_spec(0x42c0_2d61, 0x3f69_4f2f) == 0x42c1_ffff);
    lemma_whole_known(0x42c1_ffff, 0xc1_ffff, 132, 0x2_0000);
}

/// The value 0x3df2_389c.
proof fn lemma_at_3df2389c()
    ensures
        chord_code(0x3df2_389c, 0x3ded_5e8d, 0x3df5_5e8d, 0x42c0_2d61, 0x42c3_2ec7) == 97,
{
    reveal(chord_code);
    lemma2_to64();
    lemma2_to64_rest();
    lemma_high_powers();
    assert(0xf5_5e8d * 0x1 - 0xed_5e8d * 0x1 == 0x8_0000);
    lemma_sum_known(0x3df5_5e8d, 0x3ded_5e8d, true, 0xf5_5e8d, 122, 0xed_5e8d, 122, 0x1, 0x1, 0x8_0000, 20, 0x8_0000, 0x10);
    assert(sub_spec(0x3df5_5e8d, 0x3ded_5e8d) == 0x3b80_0000);
    assert(0xf2_389c * 0x1 - 0xed_5e8d * 0x1 == 0x4_da0f);
    lemma_sum_known(0x3df2_389c, 0x3ded_5e8d, true, 0xf2_389c, 122, 0xed_5e8d, 122, 0x1, 0x1, 0x4_da0f, 19, 0x4_0000, 0x20);
    assert(sub_spec(0x3df2_389c, 0x3ded_5e8d) == 0x3b1b_41e0);
    assert(0xc3_2ec7 * 0x1 - 0xc0_2d61 * 0x1 == 0x3_0166);
    lemma_sum_known(0x42c3_2ec7, 0x42c0_2d61, true, 0xc3_2ec7, 132, 0xc0_2d61, 132, 0x1, 0x1, 0x3_0166, 18, 0x2_0000, 0x40);
    assert(sub_spec(0x42c3_2ec7, 0x42c0_2d61) == 0x3fc0_5980);
    assert(0xc0_5980 * 0x9b_41e0 == 0x74a7_af87_d000);
    lemma_product_known(0x3fc0_5980, 0x3b1b_41e0, 0xc0_5980, 126, 0x9b_41e0, 117, 0x74a7_af87_d000, 47, 0x4000_0000_0000, 0x80_0000);
    assert(mul_spec(0x3fc0_5980, 0x3b1b_41e0) == 0x3b69_4f5f);
    assert(0xe9_4f5f * 0x1_0000_0000_0000_0000 == 0x1_d29e_be00_0000_0000 * 0x80_0000 + 0x0);
    lemma_quotient_known(0x3b69_4f5f, 0x3b80_0000, 0xe9_4f5f, 117, 0x80_0000, 118, 0x1_d29e_be00_0000_0000, 0x0, 66, 0x2_0000_0000_0000_0000, 0x400_0000_0000);
    assert(div_spec(0x3b69_4f5f, 0x3b80_0000) == 0x3f69_4f5f);
    assert(0xc0_2d61 * 0x80 + 0xe9_4f5f * 0x1 == 0x60ff_ffdf);
    lemma_sum_known(0x42c0_2d61, 0x3f69_4f5f, false, 0xc0_2d61, 132, 0xe9_4f5f, 125, 0x80, 0x1, 0x60ff_ffdf, 31, 0x4000_0000, 0x80);
    assert(add_spec(0x42c0_2d61, 0x3f69_4f5f) == 0x42c2_0000);
    lemma_whole_known(0x42c2_0000, 0xc2_0000, 132, 0x2_0000);
}

/// The edge of code 96.
proof fn lemma_near_96()
    ensures
        near_exact_edge(0x3df2_389b, 96),
{
    lemma2_to64();
    lemma2_to64_rest();
    lemma_fifth_powers_of_two();
    lemma_more_fifth_powers_of_two();
    assert(110525nat * 110525 * 110525 == 0x4_cbf3_f7c0_f925);
    assert(269025nat * 269025 * 269025 == 0x45_2c59_9066_9ca1);
    assert(0x4_cbf3_f7c0_f925nat * 0x4_cbf3_f7c0_f925 == 0x17_021c_9174_1c67_9c7a_0ff8_ff59nat);
    assert(0x17_021c_9174_1c67_9c7a_0ff8_ff59nat * 0x17_021c_9174_1c67_9c7a_0ff8_ff59nat == 0x211_6126_9853_0f1a_afe2_2200_2d53_c7be_8a8b_a324_f8f0_2922_6cf1nat);
    assert(0x45_2c59_9066_9ca1nat * 0x45_2c59_9066_9ca1 == 0x12b0_eff6_c049_6d6d_d948_5020_9d41nat);
    assert(0x12b0_eff6_c049_6d6d_d948_5020_9d41nat * 0x12b0_eff6_c049_6d6d_d948_5020_9d41nat == 0x15d_5c09_8741_6139_2178_92b9_bce5_5f46_89a2_dd05_b95f_0d00_50d8_ca81nat);
    assert(0x4ba_9307nat * 0x4ba_9307 == 0x16_5c92_329d_0a31);
    assert(0x16_5c92_329d_0a31nat * 0x16_5c92_329d_0a31 == 0x1f4_0a9a_1adc_64e0_9034_a481_dd61nat);
    assert(0x1f4_0a9a_1adc_64e0_9034_a481_dd61nat * 0x4ba_9307 == 0x9_3c99_4c25_bd58_175d_4dc3_b9b7_6e25_c0a7nat);
    assert(0x4bb_a307nat * 0x4bb_a307 == 0x16_669f_cc0b_ea31);
    assert(0x16_669f_cc0b_ea31nat * 0x16_669f_cc0b_ea31 == 0x1f5_cc9a_cc64_d87a_f2aa_0e73_9d61nat);
    assert(0x1f5_cc9a_cc64_d87a_f2aa_0e73_9d61nat * 0x4bb_a307 == 0x9_46fe_6f44_096b_da32_1e51_46c3_7c39_10a7nat);
    assert(0x9_3c99_4c25_bd58_175d_4dc3_b9b7_6e25_c0a7nat * 0x15d_5c09_8741_6139_2178_92b9_bce5_5f46_89a2_dd05_b95f_0d00_50d8_ca81nat == 0xc9a_ef1b_e985_1a91_3045_9cd3_85f1_0304_bedf_8ce9_cfd6_9260_63db_b5f7_62ba_032a_3bae_93a4_bd1d_8967_07f1_da27nat);
    assert(0x9_46fe_6f44_096b_da32_1e51_46c3_7c39_10a7nat * 0x15d_5c09_8741_6139_2178_92b9_bce5_5f46_89a2_dd05_b95f_0d00_50d8_ca81nat == 0xca9_1eb9_857d_ee0f_1c1b_3a74_b912_8f58_8d07_6a54_5e95_89be_74c1_0c4a_2df9_c07c_de5b_3ba5_f75f_08e0_dccd_2a27nat);
    assert(0xc35nat * 0x80_0000_0000_0000_0000_0000_0000_0000_0000nat == 0x6_1a80_0000_0000_0000_0000_0000_0000_0000_0000nat);
    assert(0x211_6126_9853_0f1a_afe2_2200_2d53_c7be_8a8b_a324_f8f0_2922_6cf1nat * 0x6_1a80_0000_0000_0000_0000_0000_0000_0000_0000nat == 0xc9f_1376_10b6_f3b0_6281_b486_14a7_daa4_789d_4741_2965_d310_9dec_f280_0000_0000_0000_0000_0000_0000_0000_0000nat);
    lemma_near_above(
        0x3df2_389b, 0xf2_389b, 122, 0x800, 0x6_1a80_0000_0000_0000_0000_0000_0000_0000_0000nat, 96,
        110525, 0x4_cbf3_f7c0_f925,
        0x17_021c_9174_1c67_9c7a_0ff8_ff59nat,
        0x45_2c59_9066_9ca1, 0x12b0_eff6_c049_6d6d_d948_5020_9d41nat,
        0x4ba_9307, 0x16_5c92_329d_0a31, 0x1f4_0a9a_1adc_64e0_9034_a481_dd61nat,
        0x4bb_a307, 0x16_669f_cc0b_ea31, 0x1f5_cc9a_cc64_d87a_f2aa_0e73_9d61nat,
    );
}

/// The value 0x3df7_8640.
proof fn lemma_at_3df78640()
    ensures
        chord_code(0x3df7_8640, 0x3df5_5e8d, 0x3dfd_5e8d, 0x42c3_2ec7, 0x42c6_3770) == 97,
{
    reveal(chord_code);
    lemma2_to64();
    lemma2_to64_rest();
    lemma_high_powers();
    assert(0xfd_5e8d * 0x1 - 0xf5_5e8d * 0x1 == 0x8_0000);
    lemma_sum_known(0x3dfd_5e8d, 0x3df5_5e8d, true, 0xfd_5e8d, 122, 0xf5_5e8d, 122, 0x1, 0x1, 0x8_0000, 20, 0x8_0000, 0x10);
    assert(sub_spec(0x3dfd_5e8d, 0x3df5_5e8d) == 0x3b80_0000);
    assert(0xf7_8640 * 0x1 - 0xf5_5e8d * 0x1 == 0x2_27b3);
    lemma_sum_known(0x3df7_8640, 0x3df5_5e8d, true, 0xf7_8640, 122, 0xf5_5e8d, 122, 0x1, 0x1, 0x2_27b3, 18, 0x2_0000, 0x40);
    assert(sub_spec(0x3df7_8640, 0x3df5_5e8d) == 0x3a89_ecc0);
    assert(0xc6_3770 * 0x1 - 0xc3_2ec7 * 0x1 == 0x3_08a9);
    lemma_sum_known(0x42c6_3770, 0x42c3_2ec7, true, 0xc6_3770, 132, 0xc3_2ec7, 132, 0x1, 0x1, 0x3_08a9, 18, 0x2_0000, 0x40);
    assert(sub_spec(0x42c6_3770, 0x42c3_2ec7) == 0x3fc2_2a40);
    assert(0xc2_2a40 * 0x89_ecc0 == 0x689c_2cd2_b000);
    lemma_product_known(0x3fc2_2a40, 0x3a89_ecc0, 0xc2_2a40, 126, 0x89_ecc0, 116, 0x689c_2cd2_b000, 47, 0x4000_0000_0000, 0x80_0000);
    assert(mul_spec(0x3fc2_2a40, 0x3a89_ecc0) == 0x3ad1_385a);
    assert(0xd1_385a * 0x1_0000_0000_0000_0000 == 0x1_a270_b400_0000_0000 * 0x80_0000 + 0x0);
    lemma_quotient_known(0x3ad1_385a, 0x3b80_0000, 0xd1_385a, 116, 0x80_0000, 118, 0x1_a270_b400_0000_0000, 0x0, 66, 0x2_0000_0000_0000_0000, 0x400_0000_0000);
    assert(div_spec(0x3ad1_385a, 0x3b80_0000) == 0x3ed1_385a);
    assert(0xc3_2ec7 * 0x100 + 0xd1_385a * 0x1 == 0xc3ff_ff5a);
    lemma_sum_known(0x42c3_2ec7, 0x3ed1_385a, false, 0xc3_2ec7, 132, 0xd1_385a, 124, 0x100, 0x1, 0xc3ff_ff5a, 32, 0x8000_0000, 0x100);
    assert(add_spec(0x42c3_2ec7, 0x3ed1_385a) == 0x42c3_ffff);
    lemma_whole_known(0x42c3_ffff, 0xc3_ffff, 132, 0x2_0000);
}

/// The value 0x3df7_8641.
proof fn lemma_at_3df78641()
    ensures
        chord_code(0x3df7_8641, 0x3df5_5e8d, 0x3dfd_5e8d, 0x42c3_2ec7, 0x42c6_3770) == 98,
{
    reveal(chord_code);
    lemma2_to64();
    lemma2_to64_rest();
    lemma_high_powers();
    assert(0xfd_5e8d * 0x1 - 0xf5_5e8d * 0x1 == 0x8_0000);
    lemma_sum_known(0x3dfd_5e8d, 0x3df5_5e8d, true, 0xfd_5e8d, 122, 0xf5_5e8d, 122, 0x1, 0x1, 0x8_0000, 20, 0x8_0000, 0x10);
    assert(sub_spec(0x3dfd_5e8d, 0x3df5_5e8d) == 0x3b80_0000);
    assert(0xf7_8641 * 0x1 - 0xf5_5e8d * 0x1 == 0x2_27b4);
    lemma_sum_known(0x3df7_8641, 0x3df5_5e8d, true, 0xf7_8641, 122, 0xf5_5e8d, 122, 0x1, 0x1, 0x2_27b4, 18, 0x2_0000, 0x40);
    assert(sub_spec(0x3df7_8641, 0x3df5_5e8d) == 0x3a89_ed00);
    assert(0xc6_3770 * 0x1 - 0xc3_2ec7 * 0x1 == 0x3_08a9);
    lemma_sum_known(0x42c6_3770, 0x42c3_2ec7, true, 0xc6_3770, 132, 0xc3_2ec7, 132, 0x1, 0x1, 0x3_08a9, 18, 0x2_0000, 0x40);
    assert(sub_spec(0x42c6_3770, 0x42c3_2ec7) == 0x3fc2_2a40);
    assert(0xc2_2a40 * 0x89_ed00 == 0x689c_5d5d_4000);
    lemma_product_known(0x3fc2_2a40, 0x3a89_ed00, 0xc2_2a40, 126, 0x89_ed00, 116, 0x689c_5d5d_4000, 47, 0x4000_0000_0000, 0x80_0000);
    assert(mul_spec(0x3fc2_2a40, 0x3a89_ed00) == 0x3ad1_38bb);
    assert(0xd1_38bb * 0x1_0000_0000_0000_0000 == 0x1_a271_7600_0000_0000 * 0x80_0000 + 0x0);
    lemma_quotient_known(0x3ad1_38bb, 0x3b80_0000, 0xd1_38bb, 116, 0x80_0000, 118, 0x1_a271_7600_0000_0000, 0x0, 66, 0x2_0000_0000_0000_0000, 0x400_0000_0000);
    assert(div_spec(0x3ad1_38bb, 0x3b80_0000) == 0x3ed1_38bb);
    assert(0xc3_2ec7 * 0x100 + 0xd1_38bb * 0x1 == 0xc3ff_ffbb);
    lemma_sum_known(0x42c3_2ec7, 0x3ed1_38bb, false, 0xc3_2ec7, 132, 0xd1_38bb, 124, 0x100, 0x1, 0xc3ff_ffbb, 32, 0x8000_0000, 0x100);
    assert(add_spec(0x42c3_2ec7, 0x3ed1_38bb) == 0x42c4_0000);
    lemma_whole_known(0x42c4_0000, 0xc4_0000, 132, 0x2_0000);
}

/// The edge of code 97.
proof fn lemma_near_97()
    ensures
        near_exact_edge(0x3df7_8640, 97),
{
    lemma2_to64();
    lemma2_to64_rest();
    lemma_fifth_powers_of_two();
    lemma_more_fifth_powers_of_two();
    assert(111525nat * 111525 * 111525 == 0x4_ed96_05ab_3c5d);
    assert(269025nat * 269025 * 269025 == 0x45_2c59_9066_9ca1);
    assert(0x4_ed96_05ab_3c5dnat * 0x4_ed96_05ab_3c5d == 0x18_492f_4bc3_9577_11e1_5479_b9c9nat);
    assert(0x18_492f_4bc3_9577_11e1_5479_b9c9nat * 0x18_492f_4bc3_9577_11e1_5479_b9c9nat == 0x24d_cdca_369e_79ce_532b_b8e0_5d4e_cb2c_bd32_7763_611f_0ed6_1fd1nat);
    assert(0x45_2c59_9066_9ca1nat * 0x45_2c59_9066_9ca1 == 0x12b0_eff6_c049_6d6d_d948_5020_9d41nat);
    assert(0x12b0_eff6_c049_6d6d_d948_5020_9d41nat * 0x12b0_eff6_c049_6d6d_d948_5020_9d41nat == 0x15d_5c09_8741_6139_2178_92b9_bce5_5f46_89a2_dd05_b95f_0d00_50d8_ca81nat);
    assert(0x4d5_1740nat * 0x4d5_1740 == 0x17_5a19_b29c_9000);
    assert(0x17_5a19_b29c_9000nat * 0x17_5a19_b29c_9000 == 0x221_5054_2c4c_5472_37ff_d100_0000nat);
    assert(0x221_5054_2c4c_5472_37ff_d100_0000nat * 0x4d5_1740 == 0xa_4b2a_ad45_b1d9_fa93_f6b2_e0bb_4000_0000nat);
    assert(0x4d6_2740nat * 0x4d6_2740 == 0x17_645f_a504_9000);
    assert(0x17_645f_a504_9000nat * 0x17_645f_a504_9000 == 0x223_308a_8379_5441_c1b4_d100_0000nat);
    assert(0x223_308a_8379_5441_c1b4_d100_0000nat * 0x4d6_2740 == 0xa_5680_a309_0965_d029_d55d_af0b_4000_0000nat);
    assert(0xa_4b2a_ad45_b1d9_fa93_f6b2_e0bb_4000_0000nat * 0x15d_5c09_8741_6139_2178_92b9_bce5_5f46_89a2_dd05_b95f_0d00_50d8_ca81nat == 0xe0c_2c93_a30d_1985_329c_08ca_a226_1c5c_3d90_1c4d_116a_abb1_1d6f_9eee_acc4_5ae6_54a6_54a0_9774_fedb_4000_0000nat);
    assert(0xa_5680_a309_0965_d029_d55d_af0b_4000_0000nat * 0x15d_5c09_8741_6139_2178_92b9_bce5_5f46_89a2_dd05_b95f_0d00_50d8_ca81nat == 0xe1b_a4d6_feb0_8437_381b_1636_7a65_6bd8_e1ba_7b9c_e29c_05ad_3932_8270_759f_aa7d_e0d8_876f_a5d2_152b_4000_0000nat);
    assert(0xc35nat * 0x80_0000_0000_0000_0000_0000_0000_0000_0000nat == 0x6_1a80_0000_0000_0000_0000_0000_0000_0000_0000nat);
    assert(0x24d_cdca_369e_79ce_532b_b8e0_5d4e_cb2c_bd32_7763_611f_0ed6_1fd1nat * 0x6_1a80_0000_0000_0000_0000_0000_0000_0000_0000nat == 0xe0f_e08a_b65e_4271_cea2_5be5_6981_6b14_90c4_85b0_1048_100d_e931_2280_0000_0000_0000_0000_0000_0000_0000_0000nat);
    lemma_near_above(
        0x3df7_8640, 0xf7_8640, 122, 0x800, 0x6_1a80_0000_0000_0000_0000_0000_0000_0000_0000nat, 97,
        111525, 0x4_ed96_05ab_3c5d,
        0x18_492f_4bc3_9577_11e1_5479_b9c9nat,
        0x45_2c59_9066_9ca1, 0x12b0_eff6_c049_6d6d_d948_5020_9d41nat,
        0x4d5_1740, 0x17_5a19_b29c_9000, 0x221_5054_2c4c_5472_37ff_d100_0000nat,
        0x4d6_2740, 0x17_645f_a504_9000, 0x223_308a_8379_5441_c1b4_d100_0000nat,
    );
}

/// The value 0x3dfc_cc5c.
proof fn lemma_at_3dfccc5c()
    ensures
        chord_code(0x3dfc_cc5c, 0x3df5_5e8d, 0x3dfd_5e8d, 0x42c3_2ec7, 0x42c6_3770) == 98,
{
    reveal(chord_code);
    lemma2_to64();
    lemma2_to64_rest();
    lemma_high_powers();
    assert(0xfd_5e8d * 0x1 - 0xf5_5e8d * 0x1 == 0x8_0000);
    lemma_sum_known(0x3dfd_5e8d, 0x3df5_5e8d, true, 0xfd_5e8d, 122, 0xf5_5e8d, 122, 0x1, 0x1, 0x8_0000, 20, 0x8_0000, 0x10);
    assert(sub_spec(0x3dfd_5e8d, 0x3df5_5e8d) == 0x3b80_0000);
    assert(0xfc_cc5c * 0x1 - 0xf5_5e8d * 0x1 == 0x7_6dcf);
    lemma_sum_known(0x3dfc_cc5c, 0x3df5_5e8d, true, 0xfc_cc5c, 122, 0xf5_5e8d, 122, 0x1, 0x1, 0x7_6dcf, 19, 0x4_0000, 0x20);
    assert(sub_spec(0x3dfc_cc5c, 0x3df5_5e8d) == 0x3b6d_b9e0);
    assert(0xc6_3770 * 0x1 - 0xc3_2ec7 * 0x1 == 0x3_08a9);
    lemma_sum_known(0x42c6_3770, 0x42c3_2ec7, true, 0xc6_3770, 132, 0xc3_2ec7, 132, 0x1, 0x1, 0x3_08a9, 18, 0x2_0000, 0x40);
    assert(sub_spec(0x42c6_3770, 0x42c3_2ec7) == 0x3fc2_2a40);
    assert(0xc2_2a40 * 0xed_b9e0 == 0xb44e_17ad_3800);
    lemma_product_known(0x3fc2_2a40, 0x3b6d_b9e0, 0xc2_2a40, 126, 0xed_b9e0, 117, 0xb44e_17ad_3800, 48, 0x8000_0000_0000, 0x100_0000);
    assert(mul_spec(0x3fc2_2a40, 0x3b6d_b9e0) == 0x3bb4_4e18);
    assert(0xb4_4e18 * 0x1_0000_0000_0000_0000 == 0x1_689c_3000_0000_0000 * 0x80_0000 + 0x0);
    lemma_quotient_known(0x3bb4_4e18, 0x3b80_0000, 0xb4_4e18, 118, 0x80_0000, 118, 0x1_689c_3000_0000_0000, 0x0, 66, 0x2_0000_0000_0000_0000, 0x400_0000_0000);
    assert(div_spec(0x3bb4_4e18, 0x3b80_0000) == 0x3fb4_4e18);
    assert(0xc3_2ec7 * 0x40 + 0xb4_4e18 * 0x1 == 0x317f_ffd8);
    lemma_sum_known(0x42c3_2ec7, 0x3fb4_4e18, false, 0xc3_2ec7, 132, 0xb4_4e18, 126, 0x40, 0x1, 0x317f_ffd8, 30, 0x2000_0000, 0x40);
    assert(add_spec(0x42c3_2ec7, 0x3fb4_4e18) == 0x42c5_ffff);
    lemma_whole_known(0x42c5_ffff, 0xc5_ffff, 132, 0x2_0000);
}

/// The value 0x3dfc_cc5d.
proof fn lemma_at_3dfccc5d()
    ensures
        chord_code(0x3dfc_cc5d, 0x3df5_5e8d, 0x3dfd_5e8d, 0x42c3_2ec7, 0x42c6_3770) == 99,
{
    reveal(chord_code);
    lemma2_to64();
    lemma2_to64_rest();
    lemma_high_powers();
    assert(0xfd_5e8d * 0x1 - 0xf5_5e8d * 0x1 == 0x8_0000);
    lemma_sum_known(0x3dfd_5e8d, 0x3df5_5e8d, true, 0xfd_5e8d, 122, 0xf5_5e8d, 122, 0x1, 0x1, 0x8_0000, 20, 0x8_0000, 0x10);
    assert(sub_spec(0x3dfd_5e8d, 0x3df5_5e8d) == 0x3b80_0000);
    assert(0xfc_cc5d * 0x1 - 0xf5_5e8d * 0x1 == 0x7_6dd0);
    lemma_sum_known(0x3dfc_cc5d, 0x3df5_5e8d, true, 0xfc_cc5d, 122, 0xf5_5e8d, 122, 0x1, 0x1, 0x7_6dd0, 19, 0x4_0000, 0x20);
    assert(sub_spec(0x3dfc_cc5d, 0x3df5_5e8d) == 0x3b6d_ba00);
    assert(0xc6_3770 * 0x1 - 0xc3_2ec7 * 0x1 == 0x3_08a9);
    lemma_sum_known(0x42c6_3770, 0x42c3_2ec7, true, 0xc6_3770, 132, 0xc3_2ec7, 132, 0x1, 0x1, 0x3_08a9, 18, 0x2_0000, 0x40);
    assert(sub_spec(0x42c6_3770, 0x42c3_2ec7) == 0x3fc2_2a40);
    assert(0xc2_2a40 * 0xed_ba00 == 0xb44e_2ff2_8000);
    lemma_product_known(0x3fc2_2a40, 0x3b6d_ba00, 0xc2_2a40, 126, 0xed_ba00, 117, 0xb44e_2ff2_8000, 48, 0x8000_0000_0000, 0x100_0000);
    assert(mul_spec(0x3fc2_2a40, 0x3b6d_ba00) == 0x3bb4_4e30);
    assert(0xb4_4e30 * 0x1_0000_0000_0000_0000 == 0x1_689c_6000_0000_0000 * 0x80_0000 + 0x0);
    lemma_quotient_known(0x3bb4_4e30, 0x3b80_0000, 0xb4_4e30, 118, 0x80_0000, 118, 0x1_689c_6000_0000_0000, 0x0, 66, 0x2_0000_0000_0000_0000, 0x400_0000_0000);
    assert(div_spec(0x3bb4_4e30, 0x3b80_0000) == 0x3fb4_4e30);
    assert(0xc3_2ec7 * 0x40 + 0xb4_4e30 * 0x1 == 0x317f_fff0);
    lemma_sum_known(0x42c3_2ec7, 0x3fb4_4e30, false, 0xc3_2ec7, 132, 0xb4_4e30, 126, 0x40, 0x1, 0x317f_fff0, 30, 0x2000_0000, 0x40);
    assert(add_spec(0x42c3_2ec7, 0x3fb4_4e30) == 0x42c6_0000);
    lemma_whole_known(0x42c6_0000, 0xc6_0000, 132, 0x2_0000);
}

/// The edge of code 98.
proof fn lemma_near_98()
    ensures
        near_exact_edge(0x3dfc_cc5c, 98),
{
    lemma2_to64();
    lemma2_to64_rest();
    lemma_fifth_powers_of_two();
    lemma_more_fifth_powers_of_two();
    assert(112525nat * 112525 * 112525 == 0x5_0fd3_e008_3315);
    assert(269025nat * 269025 * 269025 == 0x45_2c59_9066_9ca1);
    assert(0x5_0fd3_e008_3315nat * 0x5_0fd3_e008_3315 == 0x19_9f41_43ee_0661_0445_fb81_5fb9nat);
    assert(0x19_9f41_43ee_0661_0445_fb81_5fb9nat * 0x19_9f41_43ee_0661_0445_fb81_5fb9nat == 0x290_7dd1_6782_7bc5_0ae4_de02_6379_4b7f_bd80_cc04_54d0_623c_d3b1nat);
    assert(0x45_2c59_9066_9ca1nat * 0x45_2c59_9066_9ca1 == 0x12b0_eff6_c049_6d6d_d948_5020_9d41nat);
    assert(0x12b0_eff6_c049_6d6d_d948_5020_9d41nat * 0x12b0_eff6_c049_6d6d_d948_5020_9d41nat == 0x15d_5c09_8741_6139_2178_92b9_bce5_5f46_89a2_dd05_b95f_0d00_50d8_ca81nat);
    assert(0x4ef_75ccnat * 0x4ef_75cc == 0x18_5bab_891c_1a90);
    assert(0x18_5bab_891c_1a90nat * 0x18_5bab_891c_1a90 == 0x251_50fd_1baf_6adc_f3e3_f241_9100nat);
    assert(0x251_50fd_1baf_6adc_f3e3_f241_9100nat * 0x4ef_75cc == 0xb_703f_938b_cdc9_73b7_6521_b8d7_6284_8c00nat);
    assert(0x4f0_85ccnat * 0x4f0_85cc == 0x18_6629_846d_9a90);
    assert(0x18_6629_846d_9a90nat * 0x18_6629_846d_9a90 == 0x253_508d_f0d0_01c7_7871_7bf1_9100nat);
    assert(0x253_508d_f0d0_01c7_7871_7bf1_9100nat * 0x4f0_85cc == 0xb_7c94_e012_f240_bf90_bcda_e88f_34d4_8c00nat);
    assert(0xb_703f_938b_cdc9_73b7_6521_b8d7_6284_8c00nat * 0x15d_5c09_8741_6139_2178_92b9_bce5_5f46_89a2_dd05_b95f_0d00_50d8_ca81nat == 0xf9c_236f_fbf7_588a_269f_862c_e8ac_11a3_5767_bfbd_31ee_9052_0651_67e5_4b30_913e_801e_e7ca_8578_a3db_5b42_8c00nat);
    assert(0xb_7c94_e012_f240_bf90_bcda_e88f_34d4_8c00nat * 0x15d_5c09_8741_6139_2178_92b9_bce5_5f46_89a2_dd05_b95f_0d00_50d8_ca81nat == 0xfac_f828_6d38_72ba_7a85_1bea_ae1d_3bce_f3ca_2b33_c55d_f112_6fee_fb0b_3b70_c0e9_0c10_b40f_9e43_2eef_7592_8c00nat);
    assert(0xc35nat * 0x80_0000_0000_0000_0000_0000_0000_0000_0000nat == 0x6_1a80_0000_0000_0000_0000_0000_0000_0000_0000nat);
    assert(0x290_7dd1_6782_7bc5_0ae4_de02_6379_4b7f_bd80_cc04_54d0_623c_d3b1nat * 0x6_1a80_0000_0000_0000_0000_0000_0000_0000_0000nat == 0xfa6_e7ee_9a45_e86e_26fd_e509_9423_d34f_2a22_9d38_6fa9_df98_420f_d280_0000_0000_0000_0000_0000_0000_0000_0000nat);
    lemma_near_above(
        0x3dfc_cc5c, 0xfc_cc5c, 122, 0x800, 0x6_1a80_0000_0000_0000_0000_0000_0000_0000_0000nat, 98,
        112525, 0x5_0fd3_e008_3315,
        0x19_9f41_43ee_0661_0445_fb81_5fb9nat,
        0x45_2c59_9066_9ca1, 0x12b0_eff6_c049_6d6d_d948_5020_9d41nat,
        0x4ef_75cc, 0x18_5bab_891c_1a90, 0x251_50fd_1baf_6adc_f3e3_f241_9100nat,
        0x4f0_85cc, 0x18_6629_846d_9a90, 0x253_508d_f0d0_01c7_7871_7bf1_9100nat,
    );
}

/// The value 0x3e01_1feb.
proof fn lemma_at_3e011feb()
    ensures
        chord_code(0x3e01_1feb, 0x3dfd_5e8d, 0x3e05_5e8d, 0x42c6_3770, 0x42cb_1a3a) == 99,
{
    reveal(chord_code);
    lemma2_to64();
    lemma2_to64_rest();
    lemma_high_powers();
    assert(0x85_5e8d * 0x2 - 0xfd_5e8d * 0x1 == 0xd_5e8d);
    lemma_sum_known(0x3e05_5e8d, 0x3dfd_5e8d, true, 0x85_5e8d, 123, 0xfd_5e8d, 122, 0x2, 0x1, 0xd_5e8d, 20, 0x8_0000, 0x10);
    assert(sub_spec(0x3e05_5e8d, 0x3dfd_5e8d) == 0x3bd5_e8d0);
    assert(0x81_1feb * 0x2 - 0xfd_5e8d * 0x1 == 0x4_e149);
    lemma_sum_known(0x3e01_1feb, 0x3dfd_5e8d, true, 0x81_1feb, 123, 0xfd_5e8d, 122, 0x2, 0x1, 0x4_e149, 19, 0x4_0000, 0x20);
    assert(sub_spec(0x3e01_1feb, 0x3dfd_5e8d) == 0x3b1c_2920);
    assert(0xcb_1a3a * 0x1 - 0xc6_3770 * 0x1 == 0x4_e2ca);
    lemma_sum_known(0x42cb_1a3a, 0x42c6_3770, true, 0xcb_1a3a, 132, 0xc6_3770, 132, 0x1, 0x1, 0x4_e2ca, 19, 0x4_0000, 0x20);
    assert(sub_spec(0x42cb_1a3a, 0x42c6_3770) == 0x401c_5940);
    assert(0x9c_5940 * 0x9c_2920 == 0x5f5f_80d6_6800);
    lemma_product_known(0x401c_5940, 0x3b1c_2920, 0x9c_5940, 127, 0x9c_2920, 117, 0x5f5f_80d6_6800, 47, 0x4000_0000_0000, 0x80_0000);
    assert(mul_spec(0x401c_5940, 0x3b1c_2920) == 0x3bbe_bf02);
    assert(0xbe_bf02 * 0x1_0000_0000_0000_0000 == 0xe447_65f1_1a0c_9ded * 0xd5_e8d0 + 0x6f_e770);
    lemma_quotient_known(0x3bbe_bf02, 0x3bd5_e8d0, 0xbe_bf02, 118, 0xd5_e8d0, 118, 0xe447_65f1_1a0c_9ded, 0x6f_e770, 65, 0x1_0000_0000_0000_0000, 0x200_0000_0000);
    assert(div_spec(0x3bbe_bf02, 0x3bd5_e8d0) == 0x3f64_4766);
    assert(0xc6_3770 * 0x80 + 0xe4_4766 * 0x1 == 0x63ff_ff66);
    lemma_sum_known(0x42c6_3770, 0x3f64_4766, false, 0xc6_3770, 132, 0xe4_4766, 125, 0x80, 0x1, 0x63ff_ff66, 31, 0x4000_0000, 0x80);
    assert(add_spec(0x42c6_3770, 0x3f64_4766) == 0x42c7_ffff);
    lemma_whole_known(0x42c7_ffff, 0xc7_ffff, 132, 0x2_0000);
}

/// The value 0x3e01_1fec.
proof fn lemma_at_3e011fec()
    ensures
        chord_code(0x3e01_1fec, 0x3dfd_5e8d, 0x3e05_5e8d, 0x42c6_3770, 0x42cb_1a3a) == 100,
{
    reveal(chord_code);
    lemma2_to64();
    lemma2_to64_rest();
    lemma_high_powers();
    assert(0x85_5e8d * 0x2 - 0xfd_5e8d * 0x1 == 0xd_5e8d);
    lemma_sum_known(0x3e05_5e8d, 0x3dfd_5e8d, true, 0x85_5e8d, 123, 0xfd_5e8d, 122, 0x2, 0x1, 0xd_5e8d, 20, 0x8_0000, 0x10);
    assert(sub_spec(0x3e05_5e8d, 0x3dfd_5e8d) == 0x3bd5_e8d0);
    assert(0x81_1fec * 0x2 - 0xfd_5e8d * 0x1 == 0x4_e14b);
    lemma_sum_known(0x3e01_1fec, 0x3dfd_5e8d, true, 0x81_1fec, 123, 0xfd_5e8d, 122, 0x2, 0x1, 0x4_e14b, 19, 0x4_0000, 0x20);
    assert(sub_spec(0x3e01_1fec, 0x3dfd_5e8d) == 0x3b1c_2960);
    assert(0xcb_1a3a * 0x1 - 0xc6_3770 * 0x1 == 0x4_e2ca);
    lemma_sum_known(0x42cb_1a3a, 0x42c6_3770, true, 0xcb_1a3a, 132, 0xc6_3770, 132, 0x1, 0x1, 0x4_e2ca, 19, 0x4_0000, 0x20);
    assert(sub_spec(0x42cb_1a3a, 0x42c6_3770) == 0x401c_5940);
    assert(0x9c_5940 * 0x9c_2960 == 0x5f5f_a7ec_b800);
    lemma_product_known(0x401c_5940, 0x3b1c_2960, 0x9c_5940, 127, 0x9c_2960, 117, 0x5f5f_a7ec_b800, 47, 0x4000_0000_0000, 0x80_0000);
    assert(mul_spec(0x401c_5940, 0x3b1c_2960) == 0x3bbe_bf50);
    assert(0xbe_bf50 * 0x1_0000_0000_0000_0000 == 0xe447_c34a_2b66_a583 * 0xd5_e8d0 + 0x9b_cd90);
    lemma_quotient_known(0x3bbe_bf50, 0x3bd5_e8d0, 0xbe_bf50, 118, 0xd5_e8d0, 118, 0xe447_c34a_2b66_a583, 0x9b_cd90, 65, 0x1_0000_0000_0000_0000, 0x200_0000_0000);
    assert(div_spec(0x3bbe_bf50, 0x3bd5_e8d0) == 0x3f64_47c3);
    assert(0xc6_3770 * 0x80 + 0xe4_47c3 * 0x1 == 0x63ff_ffc3);
    lemma_sum_known(0x42c6_3770, 0x3f64_47c3, false, 0xc6_3770, 132, 0xe4_47c3, 125, 0x80, 0x1, 0x63ff_ffc3, 31, 0x4000_0000, 0x80);
    assert(add_spec(0x42c6_3770, 0x3f64_47c3) == 0x42c8_0000);
    lemma_whole_known(0x42c8_0000, 0xc8_0000, 132, 0x2_0000);
}

/// The edge of code 99.
proof fn lemma_near_99()
    ensures
        near_exact_edge(0x3e01_1feb, 99),
{
    lemma2_to64();
    lemma2_to64_rest();
    lemma_fifth_powers_of_two();
    lemma_more_fifth_powers_of_two();
    assert(113525nat * 113525 * 113525 == 0x5_32ae_ec78_994d);
    assert(269025nat * 269025 * 269025 == 0x45_2c59_9066_9ca1);
    assert(0x5_32ae_ec78_994dnat * 0x5_32ae_ec78_994d == 0x1b_04de_089b_6743_0c22_0bfd_2129nat);
    assert(0x1b_04de_089b_6743_0c22_0bfd_2129nat * 0x1b_04de_089b_6743_0c22_0bfd_2129nat == 0x2da_06ed_819f_912f_d4a3_086b_8a01_e1bf_e47b_445e_6208_1555_9891nat);
    assert(0x45_2c59_9066_9ca1nat * 0x45_2c59_9066_9ca1 == 0x12b0_eff6_c049_6d6d_d948_5020_9d41nat);
    assert(0x12b0_eff6_c049_6d6d_d948_5020_9d41nat * 0x12b0_eff6_c049_6d6d_d948_5020_9d41nat == 0x15d_5c09_8741_6139_2178_92b9_bce5_5f46_89a2_dd05_b95f_0d00_50d8_ca81nat);
    assert(0x285_5b97nat * 0x285_5b97 == 0x6_5ae6_a7aa_b311);
    assert(0x6_5ae6_a7aa_b311nat * 0x6_5ae6_a7aa_b311 == 0x28_6316_d9b6_1f3d_ddfe_7dd4_c721nat);
    assert(0x28_6316_d9b6_1f3d_ddfe_7dd4_c721nat * 0x285_5b97 == 0x65d0_1b9e_19ba_de67_bd9a_70f0_916f_2f77nat);
    assert(0x285_e397nat * 0x285_e397 == 0x6_5d94_a13b_2311);
    assert(0x6_5d94_a13b_2311nat * 0x6_5d94_a13b_2311 == 0x28_852c_e235_6e32_556c_90a3_a721nat);
    assert(0x28_852c_e235_6e32_556c_90a3_a721nat * 0x285_e397 == 0x663b_9013_4aad_730b_dbf8_139e_83de_d777nat);
    assert(0x65d0_1b9e_19ba_de67_bd9a_70f0_916f_2f77nat * 0x15d_5c09_8741_6139_2178_92b9_bce5_5f46_89a2_dd05_b95f_0d00_50d8_ca81nat == 0x8a_f150_3a91_9ca1_38bf_7e7a_bae0_6e88_ef51_93cf_e59a_d146_39ec_7a13_54f3_913f_a2ff_5cc2_21f0_3ba0_40e2_d0f7nat);
    assert(0x663b_9013_4aad_730b_dbf8_139e_83de_d777nat * 0x15d_5c09_8741_6139_2178_92b9_bce5_5f46_89a2_dd05_b95f_0d00_50d8_ca81nat == 0x8b_83f4_a02f_52e6_f01b_d50d_9c69_09e1_aba4_682c_f13f_8b43_cb1c_0ae7_c385_8c27_aeb5_6a69_f38b_e949_45b6_78f7nat);
    assert(0xc35nat * 0x4_0000_0000_0000_0000_0000_0000_0000_0000nat == 0x30d4_0000_0000_0000_0000_0000_0000_0000_0000nat);
    assert(0x2da_06ed_819f_912f_d4a3_086b_8a01_e1bf_e47b_445e_6208_1555_9891nat * 0x30d4_0000_0000_0000_0000_0000_0000_0000_0000nat == 0x8b_3dda_44fd_435d_337a_a897_22ee_a3e2_edc0_52e6_508a_b2b1_b77d_8814_0000_0000_0000_0000_0000_0000_0000_0000nat);
    lemma_near_above(
        0x3e01_1feb, 0x81_1feb, 123, 0x400, 0x30d4_0000_0000_0000_0000_0000_0000_0000_0000nat, 99,
        113525, 0x5_32ae_ec78_994d,
        0x1b_04de_089b_6743_0c22_0bfd_2129nat,
        0x45_2c59_9066_9ca1, 0x12b0_eff6_c049_6d6d_d948_5020_9d41nat,
        0x285_5b97, 0x6_5ae6_a7aa_b311, 0x28_6316_d9b6_1f3d_ddfe_7dd4_c721nat,
        0x285_e397, 0x6_5d94_a13b_2311, 0x28_852c_e235_6e32_556c_90a3_a721nat,
    );
}

/// The value 0x3e03_dc6a.
proof fn lemma_at_3e03dc6a()
    ensures
        chord_code(0x3e03_dc6a, 0x3dfd_5e8d, 0x3e05_5e8d, 0x42c6_3770, 0x42cb_1a3a) == 100,
{
    reveal(chord_code);
    lemma2_to64();
    lemma2_to64_rest();
    lemma_high_powers();
    assert(0x85_5e8d * 0x2 - 0xfd_5e8d * 0x1 == 0xd_5e8d);
    lemma_sum_known(0x3e05_5e8d, 0x3dfd_5e8d, true, 0x85_5e8d, 123, 0xfd_5e8d, 122, 0x2, 0x1, 0xd_5e8d, 20, 0x8_0000, 0x10);
    assert(sub_spec(0x3e05_5e8d, 0x3dfd_5e8d) == 0x3bd5_e8d0);
    assert(0x83_dc6a * 0x2 - 0xfd_5e8d * 0x1 == 0xa_5a47);
    lemma_sum_known(0x3e03_dc6a, 0x3dfd_5e8d, true, 0x83_dc6a, 123, 0xfd_5e8d, 122, 0x2, 0x1, 0xa_5a47, 20, 0x8_0000, 0x10);
    assert(sub_spec(0x3e03_dc6a, 0x3dfd_5e8d) == 0x3ba5_a470);
    assert(0xcb_1a3a * 0x1 - 0xc6_3770 * 0x1 == 0x4_e2ca);
    lemma_sum_known(0x42cb_1a3a, 0x42c6_3770, true, 0xcb_1a3a, 132, 0xc6_3770, 132, 0x1, 0x1, 0x4_e2ca, 19, 0x4_0000, 0x20);
    assert(sub_spec(0x42cb_1a3a, 0x42c6_3770) == 0x401c_5940);
    assert(0x9c_5940 * 0xa5_a470 == 0x6529_f3d4_0c00);
    lemma_product_known(0x401c_5940, 0x3ba5_a470, 0x9c_5940, 127, 0xa5_a470, 118, 0x6529_f3d4_0c00, 47, 0x4000_0000_0000, 0x80_0000);
    assert(mul_spec(0x401c_5940, 0x3ba5_a470) == 0x3c4a_53e8);
    assert(0xca_53e8 * 0x1_0000_0000_0000_0000 == 0xf223_b1c6_2d9f_691f * 0xd5_e8d0 + 0x6b_7ed0);
    lemma_quotient_known(0x3c4a_53e8, 0x3bd5_e8d0, 0xca_53e8, 119, 0xd5_e8d0, 118, 0xf223_b1c6_2d9f_691f, 0x6b_7ed0, 65, 0x1_0000_0000_0000_0000, 0x200_0000_0000);
    assert(div_spec(0x3c4a_53e8, 0x3bd5_e8d0) == 0x3ff2_23b2);
    assert(0xc6_3770 * 0x40 + 0xf2_23b2 * 0x1 == 0x327f_ffb2);
    lemma_sum_known(0x42c6_3770, 0x3ff2_23b2, false, 0xc6_3770, 132, 0xf2_23b2, 126, 0x40, 0x1, 0x327f_ffb2, 30, 0x2000_0000, 0x40);
    assert(add_spec(0x42c6_3770, 0x3ff2_23b2) == 0x42c9_ffff);
    lemma_whole_known(0x42c9_ffff, 0xc9_ffff, 132, 0x2_0000);
}

/// The value 0x3e03_dc6b.
proof fn lemma_at_3e03dc6b()
    ensures
        chord_code(0x3e03_dc6b, 0x3dfd_5e8d, 0x3e05_5e8d, 0x42c6_3770, 0x42cb_1a3a) == 101,
{
    reveal(chord_code);
    lemma2_to64();
    lemma2_to64_rest();
    lemma_high_powers();
    assert(0x85_5e8d * 0x2 - 0xfd_5e8d * 0x1 == 0xd_5e8d);
    lemma_sum_known(0x3e05_5e8d, 0x3dfd_5e8d, true, 0x85_5e8d, 123, 0xfd_5e8d, 122, 0x2, 0x1, 0xd_5e8d, 20, 0x8_0000, 0x10);
    assert(sub_spec(0x3e05_5e8d, 0x3dfd_5e8d) == 0x3bd5_e8d0);
    assert(0x83_dc6b * 0x2 - 0xfd_5e8d * 0x1 == 0xa_5a49);
    lemma_sum_known(0x3e03_dc6b, 0x3dfd_5e8d, true, 0x83_dc6b, 123, 0xfd_5e8d, 122, 0x2, 0x1, 0xa_5a49, 20, 0x8_0000, 0x10);
    assert(sub_spec(0x3e03_dc6b, 0x3dfd_5e8d) == 0x3ba5_a490);
    assert(0xcb_1a3a * 0x1 - 0xc6_3770 * 0x1 == 0x4_e2ca);
    lemma_sum_known(0x42cb_1a3a, 0x42c6_3770, true, 0xcb_1a3a, 132, 0xc6_3770, 132, 0x1, 0x1, 0x4_e2ca, 19, 0x4_0000, 0x20);
    assert(sub_spec(0x42cb_1a3a, 0x42c6_3770) == 0x401c_5940);
    assert(0x9c_5940 * 0xa5_a490 == 0x652a_075f_3400);
    lemma_product_known(0x401c_5940, 0x3ba5_a490, 0x9c_5940, 127, 0xa5_a490, 118, 0x652a_075f_3400, 47, 0x4000_0000_0000, 0x80_0000);
    assert(mul_spec(0x401c_5940, 0x3ba5_a490) == 0x3c4a_540f);
    assert(0xca_540f * 0x1_0000_0000_0000_0000 == 0xf223_e072_b64c_6cea * 0xd5_e8d0 + 0x81_71e0);
    lemma_quotient_known(0x3c4a_540f, 0x3bd5_e8d0, 0xca_540f, 119, 0xd5_e8d0, 118, 0xf223_e072_b64c_6cea, 0x81_71e0, 65, 0x1_0000_0000_0000_0000, 0x200_0000_0000);
    assert(div_spec(0x3c4a_540f, 0x3bd5_e8d0) == 0x3ff2_23e0);
    assert(0xc6_3770 * 0x40 + 0xf2_23e0 * 0x1 == 0x327f_ffe0);
    lemma_sum_known(0x42c6_3770, 0x3ff2_23e0, false, 0xc6_3770, 132, 0xf2_23e0, 126, 0x40, 0x1, 0x327f_ffe0, 30, 0x2000_0000, 0x40);
    assert(add_spec(0x42c6_3770, 0x3ff2_23e0) == 0x42ca_0000);
    lemma_whole_known(0x42ca_0000, 0xca_0000, 132, 0x2_0000);
}

/// The edge of code 100.
proof fn lemma_near_100()
    ensures
        near_exact_edge(0x3e03_dc6a, 100),
{
    lemma2_to64();
    lemma2_to64_rest();
    lemma_fifth_powers_of_two();
    lemma_more_fifth_powers_of_two();
    assert(114525nat * 114525 * 114525 == 0x5_5628_909d_2b05);
    assert(269025nat * 269025 * 269025 == 0x45_2c59_9066_9ca1);
    assert(0x5_5628_909d_2b05nat * 0x5_5628_909d_2b05 == 0x1c_7a94_edba_c9e7_fe73_6b5c_ae19nat);
    assert(0x1c_7a94_edba_c9e7_fe73_6b5c_ae19nat * 0x1c_7a94_edba_c9e7_fe73_6b5c_ae19nat == 0x32b_0b46_4a15_efed_9e25_458c_22e1_2dbb_ce0e_fee2_a18c_7e5d_fe71nat);
    assert(0x45_2c59_9066_9ca1nat * 0x45_2c59_9066_9ca1 == 0x12b0_eff6_c049_6d6d_d948_5020_9d41nat);
    assert(0x12b0_eff6_c049_6d6d_d948_5020_9d41nat * 0x12b0_eff6_c049_6d6d_d948_5020_9d41nat == 0x15d_5c09_8741_6139_2178_92b9_bce5_5f46_89a2_dd05_b95f_0d00_50d8_ca81nat);
    assert(0x293_0a12nat * 0x293_0a12 == 0x6_a09c_d911_6944);
    assert(0x6_a09c_d911_6944nat * 0x6_a09c_d911_6944 == 0x2b_ec1e_9c3f_f80b_d084_6e50_da10nat);
    assert(0x2b_ec1e_9c3f_f80b_d084_6e50_da10nat * 0x293_0a12 == 0x7112_8d1c_04ed_0299_abe1_cfc0_4163_f520nat);
    assert(0x293_9212nat * 0x293_9212 == 0x6_a359_5c04_8944);
    assert(0x6_a359_5c04_8944nat * 0x6_a359_5c04_8944 == 0x2c_106b_3a95_5237_4c05_73b9_da10nat);
    assert(0x2c_106b_3a95_5237_4c05_73b9_da10nat * 0x293_9212 == 0x7187_687e_1d55_ebbc_0347_5bce_789e_7520nat);
    assert(0x7112_8d1c_04ed_0299_abe1_cfc0_4163_f520nat * 0x15d_5c09_8741_6139_2178_92b9_bce5_5f46_89a2_dd05_b95f_0d00_50d8_ca81nat == 0x9a_4ef1_3f4d_67ee_c2db_8f5d_6432_d18e_f663_0a5a_055c_a0f2_64ce_d91f_e194_02d8_05d1_d5b1_53b0_6c6a_a5c9_c520nat);
    assert(0x7187_687e_1d55_ebbc_0347_5bce_789e_7520nat * 0x15d_5c09_8741_6139_2178_92b9_bce5_5f46_89a2_dd05_b95f_0d00_50d8_ca81nat == 0x9a_ee6a_5739_63b5_f621_0f67_d703_7ae9_6047_32cb_202c_4c38_293c_e454_a7a5_2ab7_86de_e06b_9420_1884_a344_4520nat);
    assert(0xc35nat * 0x4_0000_0000_0000_0000_0000_0000_0000_0000nat == 0x30d4_0000_0000_0000_0000_0000_0000_0000_0000nat);
    assert(0x32b_0b46_4a15_efed_9e25_458c_22e1_2dbb_ce0e_fee2_a18c_7e5d_fe71nat * 0x30d4_0000_0000_0000_0000_0000_0000_0000_0000nat == 0x9a_b1c2_8419_7727_3e6d_f3e7_de97_1b0d_1629_7435_91f8_200a_458b_e594_0000_0000_0000_0000_0000_0000_0000_0000nat);
    lemma_near_above(
        0x3e03_dc6a, 0x83_dc6a, 123, 0x400, 0x30d4_0000_0000_0000_0000_0000_0000_0000_0000nat, 100,
        114525, 0x5_5628_909d_2b05,
        0x1c_7a94_edba_c9e7_fe73_6b5c_ae19nat,
        0x45_2c59_9066_9ca1, 0x12b0_eff6_c049_6d6d_d948_5020_9d41nat,
        0x293_0a12, 0x6_a09c_d911_6944, 0x2b_ec1e_9c3f_f80b_d084_6e50_da10nat,
        0x293_9212, 0x6_a359_5c04_8944, 0x2c_106b_3a95_5237_4c05_73b9_da10nat,
    );
}

/// The value 0x3e06_a3fe.
proof fn lemma_at_3e06a3fe()
    ensures
        chord_code(0x3e06_a3fe, 0x3e05_5e8d, 0x3e0d_5e8d, 0x42cb_1a3a, 0x42d0_c02d) == 101,
{
    reveal(chord_code);
    lemma2_to64();
    lemma2_to64_rest();
    lemma_high_powers();
    assert(0x8d_5e8d * 0x1 - 0x85_5e8d * 0x1 == 0x8_0000);
    lemma_sum_known(0x3e0d_5e8d, 0x3e05_5e8d, true, 0x8d_5e8d, 123, 0x85_5e8d, 123, 0x1, 0x1, 0x8_0000, 20, 0x8_0000, 0x10);
    assert(sub_spec(0x3e0d_5e8d, 0x3e05_5e8d) == 0x3c00_0000);
    assert(0x86_a3fe * 0x1 - 0x85_5e8d * 0x1 == 0x1_4571);
    lemma_sum_known(0x3e06_a3fe, 0x3e05_5e8d, true, 0x86_a3fe, 123, 0x85_5e8d, 123, 0x1, 0x1, 0x1_4571, 17, 0x1_0000, 0x80);
    assert(sub_spec(0x3e06_a3fe, 0x3e05_5e8d) == 0x3aa2_b880);
    assert(0xd0_c02d * 0x1 - 0xcb_1a3a * 0x1 == 0x5_a5f3);
    lemma_sum_known(0x42d0_c02d, 0x42cb_1a3a, true, 0xd0_c02d, 132, 0xcb_1a3a, 132, 0x1, 0x1, 0x5_a5f3, 19, 0x4_0000, 0x20);
    assert(sub_spec(0x42d0_c02d, 0x42cb_1a3a) == 0x4034_be60);
    assert(0xb4_be60 * 0xa2_b880 == 0x72e2_bbf4_3000);
    lemma_product_known(0x4034_be60, 0x3aa2_b880, 0xb4_be60, 127, 0xa2_b880, 116, 0x72e2_bbf4_3000, 47, 0x4000_0000_0000, 0x80_0000);
    assert(mul_spec(0x4034_be60, 0x3aa2_b880) == 0x3b65_c578);
    assert(0xe5_c578 * 0x1_0000_0000_0000_0000 == 0x1_cb8a_f000_0000_0000 * 0x80_0000 + 0x0);
    lemma_quotient_known(0x3b65_c578, 0x3c00_0000, 0xe5_c578, 117, 0x80_0000, 119, 0x1_cb8a_f000_0000_0000, 0x0, 66, 0x2_0000_0000_0000_0000, 0x400_0000_0000);
    assert(div_spec(0x3b65_c578, 0x3c00_0000) == 0x3ee5_c578);
    assert(0xcb_1a3a * 0x100 + 0xe5_c578 * 0x1 == 0xcbff_ff78);
    lemma_sum_known(0x42cb_1a3a, 0x3ee5_c578, false, 0xcb_1a3a, 132, 0xe5_c578, 124, 0x100, 0x1, 0xcbff_ff78, 32, 0x8000_0000, 0x100);
    assert(add_spec(0x42cb_1a3a, 0x3ee5_c578) == 0x42cb_ffff);
    lemma_whole_known(0x42cb_ffff, 0xcb_ffff, 132, 0x2_0000);
}

/// The value 0x3e06_a3ff.
proof fn lemma_at_3e06a3ff()
    ensures
        chord_code(0x3e06_a3ff, 0x3e05_5e8d, 0x3e0d_5e8d, 0x42cb_1a3a, 0x42d0_c02d) == 102,
{
    reveal(chord_code);
    lemma2_to64();
    lemma2_to64_rest();
    lemma_high_powers();
    assert(0x8d_5e8d * 0x1 - 0x85_5e8d * 0x1 == 0x8_0000);
    lemma_sum_known(0x3e0d_5e8d, 0x3e05_5e8d, true, 0x8d_5e8d, 123, 0x85_5e8d, 123, 0x1, 0x1, 0x8_0000, 20, 0x8_0000, 0x10);
    assert(sub_spec(0x3e0d_5e8d, 0x3e05_5e8d) == 0x3c00_0000);
    assert(0x86_a3ff * 0x1 - 0x85_5e8d * 0x1 == 0x1_4572);
    lemma_sum_known(0x3e06_a3ff, 0x3e05_5e8d, true, 0x86_a3ff, 123, 0x85_5e8d, 123, 0x1, 0x1, 0x1_4572, 17, 0x1_0000, 0x80);
    assert(sub_spec(0x3e06_a3ff, 0x3e05_5e8d) == 0x3aa2_b900);
    assert(0xd0_c02d * 0x1 - 0xcb_1a3a * 0x1 == 0x5_a5f3);
    lemma_sum_known(0x42d0_c02d, 0x42cb_1a3a, true, 0xd0_c02d, 132, 0xcb_1a3a, 132, 0x1, 0x1, 0x5_a5f3, 19, 0x4_0000, 0x20);
    assert(sub_spec(0x42d0_c02d, 0x42cb_1a3a) == 0x4034_be60);
    assert(0xb4_be60 * 0xa2_b900 == 0x72e3_1653_6000);
    lemma_product_known(0x4034_be60, 0x3aa2_b900, 0xb4_be60, 127, 0xa2_b900, 116, 0x72e3_1653_6000, 47, 0x4000_0000_0000, 0x80_0000);
    assert(mul_spec(0x4034_be60, 0x3aa2_b900) == 0x3b65_c62d);
    assert(0xe5_c62d * 0x1_0000_0000_0000_0000 == 0x1_cb8c_5a00_0000_0000 * 0x80_0000 + 0x0);
    lemma_quotient_known(0x3b65_c62d, 0x3c00_0000, 0xe5_c62d, 117, 0x80_0000, 119, 0x1_cb8c_5a00_0000_0000, 0x0, 66, 0x2_0000_0000_0000_0000, 0x400_0000_0000);
    assert(div_spec(0x3b65_c62d, 0x3c00_0000) == 0x3ee5_c62d);
    assert(0xcb_1a3a * 0x100 + 0xe5_c62d * 0x1 == 0xcc00_002d);
    lemma_sum_known(0x42cb_1a3a, 0x3ee5_c62d, false, 0xcb_1a3a, 132, 0xe5_c62d, 124, 0x100, 0x1, 0xcc00_002d, 32, 0x8000_0000, 0x100);
    assert(add_spec(0x42cb_1a3a, 0x3ee5_c62d) == 0x42cc_0000);
    lemma_whole_known(0x42cc_0000, 0xcc_0000, 132, 0x2_0000);
}

/// The edge of code 101.
proof fn lemma_near_101()
    ensures
        near_exact_edge(0x3e06_a3fe, 101),
{
    lemma2_to64();
    lemma2_to64_rest();
    lemma_fifth_powers_of_two();
    lemma_more_fifth_powers_of_two();
    assert(115525nat * 115525 * 115525 == 0x5_7a42_3216_a43d);
    assert(269025nat * 269025 * 269025 == 0x45_2c59_9066_9ca1);
    assert(0x5_7a42_3216_a43dnat * 0x5_7a42_3216_a43d == 0x1e_00f9_1dbd_dc65_ad9c_77da_3689nat);
    assert(0x1e_00f9_1dbd_dc65_ad9c_77da_3689nat * 0x1e_00f9_1dbd_dc65_ad9c_77da_3689nat == 0x384_3a63_eaea_869f_ff36_06bc_a591_e044_09d3_b7de_39ac_4af2_1551nat);
    assert(0x45_2c59_9066_9ca1nat * 0x45_2c59_9066_9ca1 == 0x12b0_eff6_c049_6d6d_d948_5020_9d41nat);
    assert(0x12b0_eff6_c049_6d6d_d948_5020_9d41nat * 0x12b0_eff6_c049_6d6d_d948_5020_9d41nat == 0x15d_5c09_8741_6139_2178_92b9_bce5_5f46_89a2_dd05_b95f_0d00_50d8_ca81nat);
    assert(0x2a0_eff6nat * 0x2a0_eff6 == 0x6_e8ec_ac6d_4064);
    assert(0x6_e8ec_ac6d_4064nat * 0x6_e8ec_ac6d_4064 == 0x2f_bf05_e873_66f6_f586_455a_2710nat);
    assert(0x2f_bf05_e873_66f6_f586_455a_2710nat * 0x2a0_eff6 == 0x7d82_30ba_429f_644a_00fe_566c_5919_7960nat);
    assert(0x2a1_77f6nat * 0x2a1_77f6 == 0x6_ebb7_f3a2_a064);
    assert(0x6_ebb7_f3a2_a064nat * 0x6_ebb7_f3a2_a064 == 0x2f_e5aa_a91a_5187_0ac5_3b0d_2710nat);
    assert(0x2f_e5aa_a91a_5187_0ac5_3b0d_2710nat * 0x2a1_77f6 == 0x7e01_376f_94ca_0f33_6e46_458d_8cdb_f960nat);
    assert(0x7d82_30ba_429f_644a_00fe_566c_5919_7960nat * 0x15d_5c09_8741_6139_2178_92b9_bce5_5f46_89a2_dd05_b95f_0d00_50d8_ca81nat == 0xab_479b_e353_2f34_47d1_c402_22e4_77c2_4b29_a9d9_5123_233f_2307_a1da_3b01_8680_4937_783e_ad68_0e53_689b_e960nat);
    assert(0x7e01_376f_94ca_0f33_6e46_458d_8cdb_f960nat * 0x15d_5c09_8741_6139_2178_92b9_bce5_5f46_89a2_dd05_b95f_0d00_50d8_ca81nat == 0xab_f4f5_b3a7_b641_1139_cfb7_1b5a_8e19_ad31_1572_f80a_20b8_d272_20b3_787c_3514_d0d9_6ad4_0608_3501_f69e_6960nat);
    assert(0xc35nat * 0x4_0000_0000_0000_0000_0000_0000_0000_0000nat == 0x30d4_0000_0000_0000_0000_0000_0000_0000_0000nat);
    assert(0x384_3a63_eaea_869f_ff36_06bc_a591_e044_09d3_b7de_39ac_4af2_1551nat * 0x30d4_0000_0000_0000_0000_0000_0000_0000_0000nat == 0xab_b473_16ca_8375_7c59_7a00_f344_76da_7a2f_d5cd_eed8_10bb_7478_d714_0000_0000_0000_0000_0000_0000_0000_0000nat);
    lemma_near_above(
        0x3e06_a3fe, 0x86_a3fe, 123, 0x400, 0x30d4_0000_0000_0000_0000_0000_0000_0000_0000nat, 101,
        115525, 0x5_7a42_3216_a43d,
        0x1e_00f9_1dbd_dc65_ad9c_77da_3689nat,
        0x45_2c59_9066_9ca1, 0x12b0_eff6_c049_6d6d_d948_5020_9d41nat,
        0x2a0_eff6, 0x6_e8ec_ac6d_4064, 0x2f_bf05_e873_66f6_f586_455a_2710nat,
        0x2a1_77f6, 0x6_ebb7_f3a2_a064, 0x2f_e5aa_a91a_5187_0ac5_3b0d_2710nat,
    );
}

/// The value 0x3e09_792c.
proof fn lemma_at_3e09792c()
    ensures
        chord_code(0x3e09_792c, 0x3e05_5e8d, 0x3e0d_5e8d, 0x42cb_1a3a, 0x42d0_c02d) == 102,
{
    reveal(chord_code);
    lemma2_to64();
    lemma2_to64_rest();
    lemma_high_powers();
    assert(0x8d_5e8d * 0x1 - 0x85_5e8d * 0x1 == 0x8_0000);
    lemma_sum_known(0x3e0d_5e8d, 0x3e05_5e8d, true, 0x8d_5e8d, 123, 0x85_5e8d, 123, 0x1, 0x1, 0x8_0000, 20, 0x8_0000, 0x10);
    assert(sub_spec(0x3e0d_5e8d, 0x3e05_5e8d) == 0x3c00_0000);
    assert(0x89_792c * 0x1 - 0x85_5e8d * 0x1 == 0x4_1a9f);
    lemma_sum_known(0x3e09_792c, 0x3e05_5e8d, true, 0x89_792c, 123, 0x85_5e8d, 123, 0x1, 0x1, 0x4_1a9f, 19, 0x4_0000, 0x20);
    assert(sub_spec(0x3e09_792c, 0x3e05_5e8d) == 0x3b83_53e0);
    assert(0xd0_c02d * 0x1 - 0xcb_1a3a * 0x1 == 0x5_a5f3);
    lemma_sum_known(0x42d0_c02d, 0x42cb_1a3a, true, 0xd0_c02d, 132, 0xcb_1a3a, 132, 0x1, 0x1, 0x5_a5f3, 19, 0x4_0000, 0x20);
    assert(sub_spec(0x42d0_c02d, 0x42cb_1a3a) == 0x4034_be60);
    assert(0xb4_be60 * 0x83_53e0 == 0x5cb8_a2ff_b400);
    lemma_product_known(0x4034_be60, 0x3b83_53e0, 0xb4_be60, 127, 0x83_53e0, 118, 0x5cb8_a2ff_b400, 47, 0x4000_0000_0000, 0x80_0000);
    assert(mul_spec(0x4034_be60, 0x3b83_53e0) == 0x3c39_7146);
    assert(0xb9_7146 * 0x1_0000_0000_0000_0000 == 0x1_72e2_8c00_0000_0000 * 0x80_0000 + 0x0);
    lemma_quotient_known(0x3c39_7146, 0x3c00_0000, 0xb9_7146, 119, 0x80_0000, 119, 0x1_72e2_8c00_0000_0000, 0x0, 66, 0x2_0000_0000_0000_0000, 0x400_0000_0000);
    assert(div_spec(0x3c39_7146, 0x3c00_0000) == 0x3fb9_7146);
    assert(0xcb_1a3a * 0x40 + 0xb9_7146 * 0x1 == 0x337f_ffc6);
    lemma_sum_known(0x42cb_1a3a, 0x3fb9_7146, false, 0xcb_1a3a, 132, 0xb9_7146, 126, 0x40, 0x1, 0x337f_ffc6, 30, 0x2000_0000, 0x40);
    assert(add_spec(0x42cb_1a3a, 0x3fb9_7146) == 0x42cd_ffff);
    lemma_whole_known(0x42cd_ffff, 0xcd_ffff, 132, 0x2_0000);
}

/// The value 0x3e09_792d.
proof fn lemma_at_3e09792d()
    ensures
        chord_code(0x3e09_792d, 0x3e05_5e8d, 0x3e0d_5e8d, 0x42cb_1a3a, 0x42d0_c02d) == 103,
{
    reveal(chord_code);
    lemma2_to64();
    lemma2_to64_rest();
    lemma_high_powers();
    assert(0x8d_5e8d * 0x1 - 0x85_5e8d * 0x1 == 0x8_0000);
    lemma_sum_known(0x3e0d_5e8d, 0x3e05_5e8d, true, 0x8d_5e8d, 123, 0x85_5e8d, 123, 0x1, 0x1, 0x8_0000, 20, 0x8_0000, 0x10);
    assert(sub_spec(0x3e0d_5e8d, 0x3e05_5e8d) == 0x3c00_0000);
    assert(0x89_792d * 0x1 - 0x85_5e8d * 0x1 == 0x4_1aa0);
    lemma_sum_known(0x3e09_792d, 0x3e05_5e8d, true, 0x89_792d, 123, 0x85_5e8d, 123, 0x1, 0x1, 0x4_1aa0, 19, 0x4_0000, 0x20);
    assert(sub_spec(0x3e09_792d, 0x3e05_5e8d) == 0x3b83_5400);
    assert(0xd0_c02d * 0x1 - 0xcb_1a3a * 0x1 == 0x5_a5f3);
    lemma_sum_known(0x42d0_c02d, 0x42cb_1a3a, true, 0xd0_c02d, 132, 0xcb_1a3a, 132, 0x1, 0x1, 0x5_a5f3, 19, 0x4_0000, 0x20);
    assert(sub_spec(0x42d0_c02d, 0x42cb_1a3a) == 0x4034_be60);
    assert(0xb4_be60 * 0x83_5400 == 0x5cb8_b997_8000);
    lemma_product_known(0x4034_be60, 0x3b83_5400, 0xb4_be60, 127, 0x83_5400, 118, 0x5cb8_b997_8000, 47, 0x4000_0000_0000, 0x80_0000);
    assert(mul_spec(0x4034_be60, 0x3b83_5400) == 0x3c39_7173);
    assert(0xb9_7173 * 0x1_0000_0000_0000_0000 == 0x1_72e2_e600_0000_0000 * 0x80_0000 + 0x0);
    lemma_quotient_known(0x3c39_7173, 0x3c00_0000, 0xb9_7173, 119, 0x80_0000, 119, 0x1_72e2_e600_0000_0000, 0x0, 66, 0x2_0000_0000_0000_0000, 0x400_0000_0000);
    assert(div_spec(0x3c39_7173, 0x3c00_0000) == 0x3fb9_7173);
    assert(0xcb_1a3a * 0x40 + 0xb9_7173 * 0x1 == 0x337f_fff3);
    lemma_sum_known(0x42cb_1a3a, 0x3fb9_7173, false, 0xcb_1a3a, 132, 0xb9_7173, 126, 0x40, 0x1, 0x337f_fff3, 30, 0x2000_0000, 0x40);
    assert(add_spec(0x42cb_1a3a, 0x3fb9_7173) == 0x42ce_0000);
    lemma_whole_known(0x42ce_0000, 0xce_0000, 132, 0x2_0000);
}

/// The edge of code 102.
proof fn lemma_near_102()
    ensures
        near_exact_edge(0x3e09_792c, 102),
{
    lemma2_to64();
    lemma2_to64_rest();
    lemma_fifth_powers_of_two();
    lemma_more_fifth_powers_of_two();
    assert(116525nat * 116525 * 116525 == 0x5_9efd_3685_c0f5);
    assert(269025nat * 269025 * 269025 == 0x45_2c59_9066_9ca1);
    assert(0x5_9efd_3685_c0f5nat * 0x5_9efd_3685_c0f5 == 0x1f_98a1_aafb_73bc_838b_6c02_6a79nat);
    assert(0x1f_98a1_aafb_73bc_838b_6c02_6a79nat * 0x1f_98a1_aafb_73bc_838b_6c02_6a79nat == 0x3e6_5227_ca09_2392_37c9_b4e8_8aa1_59c0_48f4_08e1_7f41_ee2c_6d31nat);
    assert(0x45_2c59_9066_9ca1nat * 0x45_2c59_9066_9ca1 == 0x12b0_eff6_c049_6d6d_d948_5020_9d41nat);
    assert(0x12b0_eff6_c049_6d6d_d948_5020_9d41nat * 0x12b0_eff6_c049_6d6d_d948_5020_9d41nat == 0x15d_5c09_8741_6139_2178_92b9_bce5_5f46_89a2_dd05_b95f_0d00_50d8_ca81nat);
    assert(0x2af_19dcnat * 0x2af_19dc == 0x7_342b_cd64_b510);
    assert(0x7_342b_cd64_b510nat * 0x7_342b_cd64_b510 == 0x33_e507_0e71_750d_c4f9_948f_a100nat);
    assert(0x33_e507_0e71_750d_c4f9_948f_a100nat * 0x2af_19dc == 0x8b48_dbe6_44f2_9de2_89d7_536e_c127_5c00nat);
    assert(0x2af_a1dcnat * 0x2af_a1dc == 0x7_3706_211e_7510);
    assert(0x7_3706_211e_7510nat * 0x7_3706_211e_7510 == 0x34_0e29_720b_0ee3_3a8d_c547_a100nat);
    assert(0x34_0e29_720b_0ee3_3a8d_c547_a100nat * 0x2af_a1dc == 0x8bd2_eadd_4803_e9a7_d58d_e620_a4cf_5c00nat);
    assert(0x8b48_dbe6_44f2_9de2_89d7_536e_c127_5c00nat * 0x15d_5c09_8741_6139_2178_92b9_bce5_5f46_89a2_dd05_b95f_0d00_50d8_ca81nat == 0xbe_1467_2719_78fc_cfaf_88a3_2c42_bb9c_db57_44ee_f629_258d_8a43_8611_2959_73bc_182a_7292_82d1_b52e_036d_5c00nat);
    assert(0x8bd2_eadd_4803_e9a7_d58d_e620_a4cf_5c00nat * 0x15d_5c09_8741_6139_2178_92b9_bce5_5f46_89a2_dd05_b95f_0d00_50d8_ca81nat == 0xbe_d0cf_305c_e480_ec4f_3224_ef60_88dc_8676_7657_9ecb_6ad2_c745_dea5_796c_59d2_9d0f_2a86_9ece_9434_4b15_5c00nat);
    assert(0xc35nat * 0x4_0000_0000_0000_0000_0000_0000_0000_0000nat == 0x30d4_0000_0000_0000_0000_0000_0000_0000_0000nat);
    assert(0x3e6_5227_ca09_2392_37c9_b4e8_8aa1_59c0_48f4_08e1_7f41_ee2c_6d31nat * 0x30d4_0000_0000_0000_0000_0000_0000_0000_0000nat == 0xbe_6a23_7ed5_063c_df8c_04f5_6a91_0e72_60ea_2bc1_a299_bf41_9143_9c94_0000_0000_0000_0000_0000_0000_0000_0000nat);
    lemma_near_above(
        0x3e09_792c, 0x89_792c, 123, 0x400, 0x30d4_0000_0000_0000_0000_0000_0000_0000_0000nat, 102,
        116525, 0x5_9efd_3685_c0f5,
        0x1f_98a1_aafb_73bc_838b_6c02_6a79nat,
        0x45_2c59_9066_9ca1, 0x12b0_eff6_c049_6d6d_d948_5020_9d41nat,
        0x2af_19dc, 0x7_342b_cd64_b510, 0x33_e507_0e71_750d_c4f9_948f_a100nat,
        0x2af_a1dc, 0x7_3706_211e_7510, 0x34_0e29_720b_0ee3_3a8d_c547_a100nat,
    );
}

/// The value 0x3e0c_4e5b.
proof fn lemma_at_3e0c4e5b()
    ensures
        chord_code(0x3e0c_4e5b, 0x3e05_5e8d, 0x3e0d_5e8d, 0x42cb_1a3a, 0x42d0_c02d) == 103,
{
    reveal(chord_code);
    lemma2_to64();
    lemma2_to64_rest();
    lemma_high_powers();
    assert(0x8d_5e8d * 0x1 - 0x85_5e8d * 0x1 == 0x8_0000);
    lemma_sum_known(0x3e0d_5e8d, 0x3e05_5e8d, true, 0x8d_5e8d, 123, 0x85_5e8d, 123, 0x1, 0x1, 0x8_0000, 20, 0x8_0000, 0x10);
    assert(sub_spec(0x3e0d_5e8d, 0x3e05_5e8d) == 0x3c00_0000);
    assert(0x8c_4e5b * 0x1 - 0x85_5e8d * 0x1 == 0x6_efce);
    lemma_sum_known(0x3e0c_4e5b, 0x3e05_5e8d, true, 0x8c_4e5b, 123, 0x85_5e8d, 123, 0x1, 0x1, 0x6_efce, 19, 0x4_0000, 0x20);
    assert(sub_spec(0x3e0c_4e5b, 0x3e05_5e8d) == 0x3bdd_f9c0);
    assert(0xd0_c02d * 0x1 - 0xcb_1a3a * 0x1 == 0x5_a5f3);
    lemma_sum_known(0x42d0_c02d, 0x42cb_1a3a, true, 0xd0_c02d, 132, 0xcb_1a3a, 132, 0x1, 0x1, 0x5_a5f3, 19, 0x4_0000, 0x20);
    assert(sub_spec(0x42d0_c02d, 0x42cb_1a3a) == 0x4034_be60);
    assert(0xb4_be60 * 0xdd_f9c0 == 0x9cb8_ad9a_2800);
    lemma_product_known(0x4034_be60, 0x3bdd_f9c0, 0xb4_be60, 127, 0xdd_f9c0, 118, 0x9cb8_ad9a_2800, 48, 0x8000_0000_0000, 0x100_0000);
    assert(mul_spec(0x4034_be60, 0x3bdd_f9c0) == 0x3c9c_b8ae);
    assert(0x9c_b8ae * 0x1_0000_0000_0000_0000 == 0x1_3971_5c00_0000_0000 * 0x80_0000 + 0x0);
    lemma_quotient_known(0x3c9c_b8ae, 0x3c00_0000, 0x9c_b8ae, 120, 0x80_0000, 119, 0x1_3971_5c00_0000_0000, 0x0, 66, 0x2_0000_0000_0000_0000, 0x400_0000_0000);
    assert(div_spec(0x3c9c_b8ae, 0x3c00_0000) == 0x401c_b8ae);
    assert(0xcb_1a3a * 0x20 + 0x9c_b8ae * 0x1 == 0x19ff_ffee);
    lemma_sum_known(0x42cb_1a3a, 0x401c_b8ae, false, 0xcb_1a3a, 132, 0x9c_b8ae, 127, 0x20, 0x1, 0x19ff_ffee, 29, 0x1000_0000, 0x20);
    assert(add_spec(0x42cb_1a3a, 0x401c_b8ae) == 0x42cf_ffff);
    lemma_whole_known(0x42cf_ffff, 0xcf_ffff, 132, 0x2_0000);
}

/// The value 0x3e0c_4e5c.
proof fn lemma_at_3e0c4e5c()
    ensures
        chord_code(0x3e0c_4e5c, 0x3e05_5e8d, 0x3e0d_5e8d, 0x42cb_1a3a, 0x42d0_c02d) == 104,
{
    reveal(chord_code);
    lemma2_to64();
    lemma2_to64_rest();
    lemma_high_powers();
    assert(0x8d_5e8d * 0x1 - 0x85_5e8d * 0x1 == 0x8_0000);
    lemma_sum_known(0x3e0d_5e8d, 0x3e05_5e8d, true, 0x8d_5e8d, 123, 0x85_5e8d, 123, 0x1, 0x1, 0x8_0000, 20, 0x8_0000, 0x10);
    assert(sub_spec(0x3e0d_5e8d, 0x3e05_5e8d) == 0x3c00_0000);
    assert(0x8c_4e5c * 0x1 - 0x85_5e8d * 0x1 == 0x6_efcf);
    lemma_sum_known(0x3e0c_4e5c, 0x3e05_5e8d, true, 0x8c_4e5c, 123, 0x85_5e8d, 123, 0x1, 0x1, 0x6_efcf, 19, 0x4_0000, 0x20);
    assert(sub_spec(0x3e0c_4e5c, 0x3e05_5e8d) == 0x3bdd_f9e0);
    assert(0xd0_c02d * 0x1 - 0xcb_1a3a * 0x1 == 0x5_a5f3);
    lemma_sum_known(0x42d0_c02d, 0x42cb_1a3a, true, 0xd0_c02d, 132, 0xcb_1a3a, 132, 0x1, 0x1, 0x5_a5f3, 19, 0x4_0000, 0x20);
    assert(sub_spec(0x42d0_c02d, 0x42cb_1a3a) == 0x4034_be60);
    assert(0xb4_be60 * 0xdd_f9e0 == 0x9cb8_c431_f400);
    lemma_product_known(0x4034_be60, 0x3bdd_f9e0, 0xb4_be60, 127, 0xdd_f9e0, 118, 0x9cb8_c431_f400, 48, 0x8000_0000_0000, 0x100_0000);
    assert(mul_spec(0x4034_be60, 0x3bdd_f9e0) == 0x3c9c_b8c4);
    assert(0x9c_b8c4 * 0x1_0000_0000_0000_0000 == 0x1_3971_8800_0000_0000 * 0x80_0000 + 0x0);
    lemma_quotient_known(0x3c9c_b8c4, 0x3c00_0000, 0x9c_b8c4, 120, 0x80_0000, 119, 0x1_3971_8800_0000_0000, 0x0, 66, 0x2_0000_0000_0000_0000, 0x400_0000_0000);
    assert(div_spec(0x3c9c_b8c4, 0x3c00_0000) == 0x401c_b8c4);
    assert(0xcb_1a3a * 0x20 + 0x9c_b8c4 * 0x1 == 0x1a00_0004);
    lemma_sum_known(0x42cb_1a3a, 0x401c_b8c4, false, 0xcb_1a3a, 132, 0x9c_b8c4, 127, 0x20, 0x1, 0x1a00_0004, 29, 0x1000_0000, 0x20);
    assert(add_spec(0x42cb_1a3a, 0x401c_b8c4) == 0x42d0_0000);
    lemma_whole_known(0x42d0_0000, 0xd0_0000, 132, 0x2_0000);
}

/// The edge of code 103.
proof fn lemma_near_103()
    ensures
        near_exact_edge(0x3e0c_4e5b, 103),
{
    lemma2_to64();
    lemma2_to64_rest();
    lemma_fifth_powers_of_two();
    lemma_more_fifth_powers_of_two();
    assert(117525nat * 117525 * 117525 == 0x5_c45b_038b_3d2d);
    assert(269025nat * 269025 * 269025 == 0x45_2c59_9066_9ca1);
    assert(0x5_c45b_038b_3d2dnat * 0x5_c45b_038b_3d2d == 0x21_4229_a139_1e78_f528_8b7c_79e9nat);
    assert(0x21_4229_a139_1e78_f528_8b7c_79e9nat * 0x21_4229_a139_1e78_f528_8b7c_79e9nat == 0x452_1fd5_0ea0_58ba_3aae_1edb_08ea_20e1_ee6f_0aae_7bb9_59c6_1611nat);
    assert(0x45_2c59_9066_9ca1nat * 0x45_2c59_9066_9ca1 == 0x12b0_eff6_c049_6d6d_d948_5020_9d41nat);
    assert(0x12b0_eff6_c049_6d6d_d948_5020_9d41nat * 0x12b0_eff6_c049_6d6d_d948_5020_9d41nat == 0x15d_5c09_8741_6139_2178_92b9_bce5_5f46_89a2_dd05_b95f_0d00_50d8_ca81nat);
    assert(0x2bd_43c7nat * 0x2bd_43c7 == 0x7_80fc_41c7_c4b1);
    assert(0x7_80fc_41c7_c4b1nat * 0x7_80fc_41c7_c4b1 == 0x38_4ec8_d346_1891_4a3d_444d_8261nat);
    assert(0x38_4ec8_d346_1891_4a3d_444d_8261nat * 0x2bd_43c7 == 0x9a3e_a44e_5458_d9c3_6922_c6be_64fc_bc67nat);
    assert(0x2bd_cbc7nat * 0x2bd_cbc7 == 0x7_83e5_a20b_34b1);
    assert(0x7_83e5_a20b_34b1nat * 0x7_83e5_a20b_34b1 == 0x38_7a83_ae6f_a839_99d7_960e_6261nat);
    assert(0x38_7a83_ae6f_a839_99d7_960e_6261nat * 0x2bd_cbc7 == 0x9ad4_6fa2_4f6e_c8eb_b51a_6ff6_70ce_6467nat);
    assert(0x9a3e_a44e_5458_d9c3_6922_c6be_64fc_bc67nat * 0x15d_5c09_8741_6139_2178_92b9_bce5_5f46_89a2_dd05_b95f_0d00_50d8_ca81nat == 0xd2_7eda_3f87_5752_f385_77ce_acf0_400c_d03f_e0c1_ac22_0a4e_a4d5_9a30_1c26_bfbc_05d1_e1f4_ca56_ccbf_76ec_35e7nat);
    assert(0x9ad4_6fa2_4f6e_c8eb_b51a_6ff6_70ce_6467nat * 0x15d_5c09_8741_6139_2178_92b9_bce5_5f46_89a2_dd05_b95f_0d00_50d8_ca81nat == 0xd3_4b46_4baa_1ce4_8060_eb71_3908_bf7e_71e3_9d64_59b9_0252_35a7_4894_10c6_b258_a561_b4db_c62c_c8b6_9a21_dde7nat);
    assert(0xc35nat * 0x4_0000_0000_0000_0000_0000_0000_0000_0000nat == 0x30d4_0000_0000_0000_0000_0000_0000_0000_0000nat);
    assert(0x452_1fd5_0ea0_58ba_3aae_1edb_08ea_20e1_ee6f_0aae_7bb9_59c6_1611nat * 0x30d4_0000_0000_0000_0000_0000_0000_0000_0000nat == 0xd2_f9fa_4f2e_2d6c_6539_3dfa_9f0f_480d_97ce_45f5_8fb1_3653_7c2d_7614_0000_0000_0000_0000_0000_0000_0000_0000nat);
    lemma_near_above(
        0x3e0c_4e5b, 0x8c_4e5b, 123, 0x400, 0x30d4_0000_0000_0000_0000_0000_0000_0000_0000nat, 103,
        117525, 0x5_c45b_038b_3d2d,
        0x21_4229_a139_1e78_f528_8b7c_79e9nat,
        0x45_2c59_9066_9ca1, 0x12b0_eff6_c049_6d6d_d948_5020_9d41nat,
        0x2bd_43c7, 0x7_80fc_41c7_c4b1, 0x38_4ec8_d346_1891_4a3d_444d_8261nat,
        0x2bd_cbc7, 0x7_83e5_a20b_34b1, 0x38_7a83_ae6f_a839_99d7_960e_6261nat,
    );
}

/// The value 0x3e0f_326e.
proof fn lemma_at_3e0f326e()
    ensures
        chord_code(0x3e0f_326e, 0x3e0d_5e8d, 0x3e15_5e8d, 0x42d0_c02d, 0x42d6_3819) == 104,
{
    reveal(chord_code);
    lemma2_to64();
    lemma2_to64_rest();
    lemma_high_powers();
    assert(0x95_5e8d * 0x1 - 0x8d_5e8d * 0x1 == 0x8_0000);
    lemma_sum_known(0x3e15_5e8d, 0x3e0d_5e8d, true, 0x95_5e8d, 123, 0x8d_5e8d, 123, 0x1, 0x1, 0x8_0000, 20, 0x8_0000, 0x10);
    assert(sub_spec(0x3e15_5e8d, 0x3e0d_5e8d) == 0x3c00_0000);
    assert(0x8f_326e * 0x1 - 0x8d_5e8d * 0x1 == 0x1_d3e1);
    lemma_sum_known(0x3e0f_326e, 0x3e0d_5e8d, true, 0x8f_326e, 123, 0x8d_5e8d, 123, 0x1, 0x1, 0x1_d3e1, 17, 0x1_0000, 0x80);
    assert(sub_spec(0x3e0f_326e, 0x3e0d_5e8d) == 0x3ae9_f080);
    assert(0xd6_3819 * 0x1 - 0xd0_c02d * 0x1 == 0x5_77ec);
    lemma_sum_known(0x42d6_3819, 0x42d0_c02d, true, 0xd6_3819, 132, 0xd0_c02d, 132, 0x1, 0x1, 0x5_77ec, 19, 0x4_0000, 0x20);
    assert(sub_spec(0x42d6_3819, 0x42d0_c02d) == 0x402e_fd80);
    assert(0xae_fd80 * 0xe9_f080 == 0x9fe9_1ea6_c000);
    lemma_product_known(0x402e_fd80, 0x3ae9_f080, 0xae_fd80, 127, 0xe9_f080, 116, 0x9fe9_1ea6_c000, 48, 0x8000_0000_0000, 0x100_0000);
    assert(mul_spec(0x402e_fd80, 0x3ae9_f080) == 0x3b9f_e91f);
    assert(0x9f_e91f * 0x1_0000_0000_0000_0000 == 0x1_3fd2_3e00_0000_0000 * 0x80_0000 + 0x0);
    lemma_quotient_known(0x3b9f_e91f, 0x3c00_0000, 0x9f_e91f, 118, 0x80_0000, 119, 0x1_3fd2_3e00_0000_0000, 0x0, 66, 0x2_0000_0000_0000_0000, 0x400_0000_0000);
    assert(div_spec(0x3b9f_e91f, 0x3c00_0000) == 0x3f1f_e91f);
    assert(0xd0_c02d * 0x80 + 0x9f_e91f * 0x1 == 0x68ff_ff9f);
    lemma_sum_known(0x42d0_c02d, 0x3f1f_e91f, false, 0xd0_c02d, 132, 0x9f_e91f, 125, 0x80, 0x1, 0x68ff_ff9f, 31, 0x4000_0000, 0x80);
    assert(add_spec(0x42d0_c02d, 0x3f1f_e91f) == 0x42d1_ffff);
    lemma_whole_known(0x42d1_ffff, 0xd1_ffff, 132, 0x2_0000);
}

/// The value 0x3e0f_326f.
proof fn lemma_at_3e0f326f()
    ensures
        chord_code(0x3e0f_326f, 0x3e0d_5e8d, 0x3e15_5e8d, 0x42d0_c02d, 0x42d6_3819) == 105,
{
    reveal(chord_code);
    lemma2_to64();
    lemma2_to64_rest();
    lemma_high_powers();
    assert(0x95_5e8d * 0x1 - 0x8d_5e8d * 0x1 == 0x8_0000);
    lemma_sum_known(0x3e15_5e8d, 0x3e0d_5e8d, true, 0x95_5e8d, 123, 0x8d_5e8d, 123, 0x1, 0x1, 0x8_0000, 20, 0x8_0000, 0x10);
    assert(sub_spec(0x3e15_5e8d, 0x3e0d_5e8d) == 0x3c00_0000);
    assert(0x8f_326f * 0x1 - 0x8d_5e8d * 0x1 == 0x1_d3e2);
    lemma_sum_known(0x3e0f_326f, 0x3e0d_5e8d, true, 0x8f_326f, 123, 0x8d_5e8d, 123, 0x1, 0x1, 0x1_d3e2, 17, 0x1_0000, 0x80);
    assert(sub_spec(0x3e0f_326f, 0x3e0d_5e8d) == 0x3ae9_f100);
    assert(0xd6_3819 * 0x1 - 0xd0_c02d * 0x1 == 0x5_77ec);
    lemma_sum_known(0x42d6_3819, 0x42d0_c02d, true, 0xd6_3819, 132, 0xd0_c02d, 132, 0x1, 0x1, 0x5_77ec, 19, 0x4_0000, 0x20);
    assert(sub_spec(0x42d6_3819, 0x42d0_c02d) == 0x402e_fd80);
    assert(0xae_fd80 * 0xe9_f100 == 0x9fe9_7625_8000);
    lemma_product_known(0x402e_fd80, 0x3ae9_f100, 0xae_fd80, 127, 0xe9_f100, 116, 0x9fe9_7625_8000, 48, 0x8000_0000_0000, 0x100_0000);
    assert(mul_spec(0x402e_fd80, 0x3ae9_f100) == 0x3b9f_e976);
    assert(0x9f_e976 * 0x1_0000_0000_0000_0000 == 0x1_3fd2_ec00_0000_0000 * 0x80_0000 + 0x0);
    lemma_quotient_known(0x3b9f_e976, 0x3c00_0000, 0x9f_e976, 118, 0x80_0000, 119, 0x1_3fd2_ec00_0000_0000, 0x0, 66, 0x2_0000_0000_0000_0000, 0x400_0000_0000);
    assert(div_spec(0x3b9f_e976, 0x3c00_0000) == 0x3f1f_e976);
    assert(0xd0_c02d * 0x80 + 0x9f_e976 * 0x1 == 0x68ff_fff6);
    lemma_sum_known(0x42d0_c02d, 0x3f1f_e976, false, 0xd0_c02d, 132, 0x9f_e976, 125, 0x80, 0x1, 0x68ff_fff6, 31, 0x4000_0000, 0x80);
    assert(add_spec(0x42d0_c02d, 0x3f1f_e976) == 0x42d2_0000);
    lemma_whole_known(0x42d2_0000, 0xd2_0000, 132, 0x2_0000);
}

/// The edge of code 104.
proof fn lemma_near_104()
    ensures
        near_exact_edge(0x3e0f_326e, 104),
{
    lemma2_to64();
    lemma2_to64_rest();
    lemma_fifth_powers_of_two();
    lemma_more_fifth_powers_of_two();
    assert(118525nat * 118525 * 118525 == 0x5_ea5c_fec7_d4e5);
    assert(269025nat * 269025 * 269025 == 0x45_2c59_9066_9ca1);
    assert(0x5_ea5c_fec7_d4e5nat * 0x5_ea5c_fec7_d4e5 == 0x22_fe30_175b_bf56_cf0b_1912_14d9nat);
    assert(0x22_fe30_175b_bf56_cf0b_1912_14d9nat * 0x22_fe30_175b_bf56_cf0b_1912_14d9nat == 0x4c8_8129_abc1_a748_9f9d_82a4_a891_d24a_968e_3785_41ff_5236_9ff1nat);
    assert(0x45_2c59_9066_9ca1nat * 0x45_2c59_9066_9ca1 == 0x12b0_eff6_c049_6d6d_d948_5020_9d41nat);
    assert(0x12b0_eff6_c049_6d6d_d948_5020_9d41nat * 0x12b0_eff6_c049_6d6d_d948_5020_9d41nat == 0x15d_5c09_8741_6139_2178_92b9_bce5_5f46_89a2_dd05_b95f_0d00_50d8_ca81nat);
    assert(0x2cb_b826nat * 0x2cb_b826 == 0x7_d0fe_28ba_a5a4);
    assert(0x7_d0fe_28ba_a5a4nat * 0x7_d0fe_28ba_a5a4 == 0x3d_1884_38b9_34fe_0d48_5d7c_d110nat);
    assert(0x3d_1884_38b9_34fe_0d48_5d7c_d110nat * 0x2cb_b826 == 0xaacf_6bfb_19ac_8b23_905f_178b_7e7a_8860nat);
    assert(0x2cc_4026nat * 0x2cc_4026 == 0x7_d3f6_e4a3_05a4);
    assert(0x7_d3f6_e4a3_05a4nat * 0x7_d3f6_e4a3_05a4 == 0x3d_4701_6beb_3fc5_f90c_4ef7_d110nat);
    assert(0x3d_4701_6beb_3fc5_f90c_4ef7_d110nat * 0x2cc_4026 == 0xab71_f2d2_bb27_3291_8412_e8ae_65cd_0860nat);
    assert(0xaacf_6bfb_19ac_8b23_905f_178b_7e7a_8860nat * 0x15d_5c09_8741_6139_2178_92b9_bce5_5f46_89a2_dd05_b95f_0d00_50d8_ca81nat == 0xe9_1a2f_1baa_0ac2_2447_5fa3_bbcd_86ea_e8d1_f143_a569_6461_a924_bc12_6c56_a32b_e517_cfc0_7244_d118_7c5a_7860nat);
    assert(0xab71_f2d2_bb27_3291_8412_e8ae_65cd_0860nat * 0x15d_5c09_8741_6139_2178_92b9_bce5_5f46_89a2_dd05_b95f_0d00_50d8_ca81nat == 0xe9_f7fb_5e23_4932_d2ec_aaca_1cc3_4627_db39_61f1_5795_ee42_e855_5bfb_5873_0661_60ca_7d64_3123_b3d2_25ec_f860nat);
    assert(0xc35nat * 0x4_0000_0000_0000_0000_0000_0000_0000_0000nat == 0x30d4_0000_0000_0000_0000_0000_0000_0000_0000nat);
    assert(0x4c8_8129_abc1_a748_9f9d_82a4_a891_d24a_968e_3785_41ff_5236_9ff1nat * 0x30d4_0000_0000_0000_0000_0000_0000_0000_0000nat == 0xe9_8e42_c6b6_8bbc_2611_b6ef_0ff6_f030_21ff_582e_f6ba_86da_5339_a394_0000_0000_0000_0000_0000_0000_0000_0000nat);
    lemma_near_above(
        0x3e0f_326e, 0x8f_326e, 123, 0x400, 0x30d4_0000_0000_0000_0000_0000_0000_0000_0000nat, 104,
        118525, 0x5_ea5c_fec7_d4e5,
        0x22_fe30_175b_bf56_cf0b_1912_14d9nat,
        0x45_2c59_9066_9ca1, 0x12b0_eff6_c049_6d6d_d948_5020_9d41nat,
        0x2cb_b826, 0x7_d0fe_28ba_a5a4, 0x3d_1884_38b9_34fe_0d48_5d7c_d110nat,
        0x2cc_4026, 0x7_d3f6_e4a3_05a4, 0x3d_4701_6beb_3fc5_f90c_4ef7_d110nat,
    );
}

/// The value 0x3e12_1f74.
proof fn lemma_at_3e121f74()
    ensures
        chord_code(0x3e12_1f74, 0x3e0d_5e8d, 0x3e15_5e8d, 0x42d0_c02d, 0x42d6_3819) == 105,
{
    reveal(chord_code);
    lemma2_to64();
    lemma2_to64_rest();
    lemma_high_powers();
    assert(0x95_5e8d * 0x1 - 0x8d_5e8d * 0x1 == 0x8_0000);
    lemma_sum_known(0x3e15_5e8d, 0x3e0d_5e8d, true, 0x95_5e8d, 123, 0x8d_5e8d, 123, 0x1, 0x1, 0x8_0000, 20, 0x8_0000, 0x10);
    assert(sub_spec(0x3e15_5e8d, 0x3e0d_5e8d) == 0x3c00_0000);
    assert(0x92_1f74 * 0x1 - 0x8d_5e8d * 0x1 == 0x4_c0e7);
    lemma_sum_known(0x3e12_1f74, 0x3e0d_5e8d, true, 0x92_1f74, 123, 0x8d_5e8d, 123, 0x1, 0x1, 0x4_c0e7, 19, 0x4_0000, 0x20);
    assert(sub_spec(0x3e12_1f74, 0x3e0d_5e8d) == 0x3b98_1ce0);
    assert(0xd6_3819 * 0x1 - 0xd0_c02d * 0x1 == 0x5_77ec);
    lemma_sum_known(0x42d6_3819, 0x42d0_c02d, true, 0xd6_3819, 132, 0xd0_c02d, 132, 0x1, 0x1, 0x5_77ec, 19, 0x4_0000, 0x20);
    assert(sub_spec(0x42d6_3819, 0x42d0_c02d) == 0x402e_fd80);
    assert(0xae_fd80 * 0x98_1ce0 == 0x67fa_40d7_d000);
    lemma_product_known(0x402e_fd80, 0x3b98_1ce0, 0xae_fd80, 127, 0x98_1ce0, 118, 0x67fa_40d7_d000, 47, 0x4000_0000_0000, 0x80_0000);
    assert(mul_spec(0x402e_fd80, 0x3b98_1ce0) == 0x3c4f_f482);
    assert(0xcf_f482 * 0x1_0000_0000_0000_0000 == 0x1_9fe9_0400_0000_0000 * 0x80_0000 + 0x0);
    lemma_quotient_known(0x3c4f_f482, 0x3c00_0000, 0xcf_f482, 119, 0x80_0000, 119, 0x1_9fe9_0400_0000_0000, 0x0, 66, 0x2_0000_0000_0000_0000, 0x400_0000_0000);
    assert(div_spec(0x3c4f_f482, 0x3c00_0000) == 0x3fcf_f482);
    assert(0xd0_c02d * 0x40 + 0xcf_f482 * 0x1 == 0x34ff_ffc2);
    lemma_sum_known(0x42d0_c02d, 0x3fcf_f482, false, 0xd0_c02d, 132, 0xcf_f482, 126, 0x40, 0x1, 0x34ff_ffc2, 30, 0x2000_0000, 0x40);
    assert(add_spec(0x42d0_c02d, 0x3fcf_f482) == 0x42d3_ffff);
    lemma_whole_known(0x42d3_ffff, 0xd3_ffff, 132, 0x2_0000);
}

/// The value 0x3e12_1f75.
proof fn lemma_at_3e121f75()
    ensures
        chord_code(0x3e12_1f75, 0x3e0d_5e8d, 0x3e15_5e8d, 0x42d0_c02d, 0x42d6_3819) == 106,
{
    reveal(chord_code);
    lemma2_to64();
    lemma2_to64_rest();
    lemma_high_powers();
    assert(0x95_5e8d * 0x1 - 0x8d_5e8d * 0x1 == 0x8_0000);
    lemma_sum_known(0x3e15_5e8d, 0x3e0d_5e8d, true, 0x95_5e8d, 123, 0x8d_5e8d, 123, 0x1, 0x1, 0x8_0000, 20, 0x8_0000, 0x10);
    assert(sub_spec(0x3e15_5e8d, 0x3e0d_5e8d) == 0x3c00_0000);
    assert(0x92_1f75 * 0x1 - 0x8d_5e8d * 0x1 == 0x4_c0e8);
    lemma_sum_known(0x3e12_1f75, 0x3e0d_5e8d, true, 0x92_1f75, 123, 0x8d_5e8d, 123, 0x1, 0x1, 0x4_c0e8, 19, 0x4_0000, 0x20);
    assert(sub_spec(0x3e12_1f75, 0x3e0d_5e8d) == 0x3b98_1d00);
    assert(0xd6_3819 * 0x1 - 0xd0_c02d * 0x1 == 0x5_77ec);
    lemma_sum_known(0x42d6_3819, 0x42d0_c02d, true, 0xd6_3819, 132, 0xd0_c02d, 132, 0x1, 0x1, 0x5_77ec, 19, 0x4_0000, 0x20);
    assert(sub_spec(0x42d6_3819, 0x42d0_c02d) == 0x402e_fd80);
    assert(0xae_fd80 * 0x98_1d00 == 0x67fa_56b7_8000);
    lemma_product_known(0x402e_fd80, 0x3b98_1d00, 0xae_fd80, 127, 0x98_1d00, 118, 0x67fa_56b7_8000, 47, 0x4000_0000_0000, 0x80_0000);
    assert(mul_spec(0x402e_fd80, 0x3b98_1d00) == 0x3c4f_f4ad);
    assert(0xcf_f4ad * 0x1_0000_0000_0000_0000 == 0x1_9fe9_5a00_0000_0000 * 0x80_0000 + 0x0);
    lemma_quotient_known(0x3c4f_f4ad, 0x3c00_0000, 0xcf_f4ad, 119, 0x80_0000, 119, 0x1_9fe9_5a00_0000_0000, 0x0, 66, 0x2_0000_0000_0000_0000, 0x400_0000_0000);
    assert(div_spec(0x3c4f_f4ad, 0x3c00_0000) == 0x3fcf_f4ad);
    assert(0xd0_c02d * 0x40 + 0xcf_f4ad * 0x1 == 0x34ff_ffed);
    lemma_sum_known(0x42d0_c02d, 0x3fcf_f4ad, false, 0xd0_c02d, 132, 0xcf_f4ad, 126, 0x40, 0x1, 0x34ff_ffed, 30, 0x2000_0000, 0x40);
    assert(add_spec(0x42d0_c02d, 0x3fcf_f4ad) == 0x42d4_0000);
    lemma_whole_known(0x42d4_0000, 0xd4_0000, 132, 0x2_0000);
}

/// The edge of code 105.
proof fn lemma_near_105()
    ensures
        near_exact_edge(0x3e12_1f74, 105),
{
    lemma2_to64();
    lemma2_to64_rest();
    lemma_fifth_powers_of_two();
    lemma_more_fifth_powers_of_two();
    assert(119525nat * 119525 * 119525 == 0x6_1104_8ddc_441d);
    assert(269025nat * 269025 * 269025 == 0x45_2c59_9066_9ca1);
    assert(0x6_1104_8ddc_441dnat * 0x6_1104_8ddc_441d == 0x24_cd58_413f_2fe6_5b75_15f7_6b49nat);
    assert(0x24_cd58_413f_2fe6_5b75_15f7_6b49nat * 0x24_cd58_413f_2fe6_5b75_15f7_6b49nat == 0x54a_6588_d0b1_9792_bbb2_2a0c_661a_9592_a512_917c_7d74_2dd4_1ad1nat);
    assert(0x45_2c59_9066_9ca1nat * 0x45_2c59_9066_9ca1 == 0x12b0_eff6_c049_6d6d_d948_5020_9d41nat);
    assert(0x12b0_eff6_c049_6d6d_d948_5020_9d41nat * 0x12b0_eff6_c049_6d6d_d948_5020_9d41nat == 0x15d_5c09_8741_6139_2178_92b9_bce5_5f46_89a2_dd05_b95f_0d00_50d8_ca81nat);
    assert(0x2da_5944nat * 0x2da_5944 == 0x8_23a1_36f0_5a10);
    assert(0x8_23a1_36f0_5a10nat * 0x8_23a1_36f0_5a10 == 0x42_3f08_e991_7fbb_efc7_bdaf_4100nat);
    assert(0x42_3f08_e991_7fbb_efc7_bdaf_4100nat * 0x2da_5944 == 0xbcfe_d8ec_e077_ddf8_03db_07bf_aa26_4400nat);
    assert(0x2da_e144nat * 0x2da_e144 == 0x8_26a9_7e08_9a10);
    assert(0x8_26a9_7e08_9a10nat * 0x8_26a9_7e08_9a10 == 0x42_706e_a22b_d424_a111_bdb7_4100nat);
    assert(0x42_706e_a22b_d424_a111_bdb7_4100nat * 0x2da_e144 == 0xbdaf_11f1_8ae6_898b_d7e2_5d03_cece_4400nat);
    assert(0xbcfe_d8ec_e077_ddf8_03db_07bf_aa26_4400nat * 0x15d_5c09_8741_6139_2178_92b9_bce5_5f46_89a2_dd05_b95f_0d00_50d8_ca81nat == 0x101_eb60_59b3_6d49_4f43_50bb_a4e3_030b_9261_aca7_83b9_0818_9665_6d3f_41b3_bd4c_60f2_1b3a_61d3_a960_4ef0_4400nat);
    assert(0xbdaf_11f1_8ae6_898b_d7e2_5d03_cece_4400nat * 0x15d_5c09_8741_6139_2178_92b9_bce5_5f46_89a2_dd05_b95f_0d00_50d8_ca81nat == 0x102_dbdd_701c_8fa5_d856_aaab_b537_710e_965d_cfb2_edec_fffc_f0a1_5fba_9ae9_9f85_8e79_df0f_c7c0_d363_5798_4400nat);
    assert(0xc35nat * 0x4_0000_0000_0000_0000_0000_0000_0000_0000nat == 0x30d4_0000_0000_0000_0000_0000_0000_0000_0000nat);
    assert(0x54a_6588_d0b1_9792_bbb2_2a0c_661a_9592_a512_917c_7d74_2dd4_1ad1nat * 0x30d4_0000_0000_0000_0000_0000_0000_0000_0000nat == 0x102_54a5_bc6e_1f7d_08b4_d76d_2569_8a0f_5c64_2ea7_d29d_accd_b8ad_6514_0000_0000_0000_0000_0000_0000_0000_0000nat);
    lemma_near_above(
        0x3e12_1f74, 0x92_1f74, 123, 0x400, 0x30d4_0000_0000_0000_0000_0000_0000_0000_0000nat, 105,
        119525, 0x6_1104_8ddc_441d,
        0x24_cd58_413f_2fe6_5b75_15f7_6b49nat,
        0x45_2c59_9066_9ca1, 0x12b0_eff6_c049_6d6d_d948_5020_9d41nat,
        0x2da_5944, 0x8_23a1_36f0_5a10, 0x42_3f08_e991_7fbb_efc7_bdaf_4100nat,
        0x2da_e144, 0x8_26a9_7e08_9a10, 0x42_706e_a22b_d424_a111_bdb7_4100nat,
    );
}

/// The value 0x3e15_0c7a.
proof fn lemma_at_3e150c7a()
    ensures
        chord_code(0x3e15_0c7a, 0x3e0d_5e8d, 0x3e15_5e8d, 0x42d0_c02d, 0x42d6_3819) == 106,
{
    reveal(chord_code);
    lemma2_to64();
    lemma2_to64_rest();
    lemma_high_powers();
    assert(0x95_5e8d * 0x1 - 0x8d_5e8d * 0x1 == 0x8_0000);
    lemma_sum_known(0x3e15_5e8d, 0x3e0d_5e8d, true, 0x95_5e8d, 123, 0x8d_5e8d, 123, 0x1, 0x1, 0x8_0000, 20, 0x8_0000, 0x10);
    assert(sub_spec(0x3e15_5e8d, 0x3e0d_5e8d) == 0x3c00_0000);
    assert(0x95_0c7a * 0x1 - 0x8d_5e8d * 0x1 == 0x7_aded);
    lemma_sum_known(0x3e15_0c7a, 0x3e0d_5e8d, true, 0x95_0c7a, 123, 0x8d_5e8d, 123, 0x1, 0x1, 0x7_aded, 19, 0x4_0000, 0x20);
    assert(sub_spec(0x3e15_0c7a, 0x3e0d_5e8d) == 0x3bf5_bda0);
    assert(0xd6_3819 * 0x1 - 0xd0_c02d * 0x1 == 0x5_77ec);
    lemma_sum_known(0x42d6_3819, 0x42d0_c02d, true, 0xd6_3819, 132, 0xd0_c02d, 132, 0x1, 0x1, 0x5_77ec, 19, 0x4_0000, 0x20);
    assert(sub_spec(0x42d6_3819, 0x42d0_c02d) == 0x402e_fd80);
    assert(0xae_fd80 * 0xf5_bda0 == 0xa7fa_3a05_f000);
    lemma_product_known(0x402e_fd80, 0x3bf5_bda0, 0xae_fd80, 127, 0xf5_bda0, 118, 0xa7fa_3a05_f000, 48, 0x8000_0000_0000, 0x100_0000);
    assert(mul_spec(0x402e_fd80, 0x3bf5_bda0) == 0x3ca7_fa3a);
    assert(0xa7_fa3a * 0x1_0000_0000_0000_0000 == 0x1_4ff4_7400_0000_0000 * 0x80_0000 + 0x0);
    lemma_quotient_known(0x3ca7_fa3a, 0x3c00_0000, 0xa7_fa3a, 120, 0x80_0000, 119, 0x1_4ff4_7400_0000_0000, 0x0, 66, 0x2_0000_0000_0000_0000, 0x400_0000_0000);
    assert(div_spec(0x3ca7_fa3a, 0x3c00_0000) == 0x4027_fa3a);
    assert(0xd0_c02d * 0x20 + 0xa7_fa3a * 0x1 == 0x1abf_ffda);
    lemma_sum_known(0x42d0_c02d, 0x4027_fa3a, false, 0xd0_c02d, 132, 0xa7_fa3a, 127, 0x20, 0x1, 0x1abf_ffda, 29, 0x1000_0000, 0x20);
    assert(add_spec(0x42d0_c02d, 0x4027_fa3a) == 0x42d5_ffff);
    lemma_whole_known(0x42d5_ffff, 0xd5_ffff, 132, 0x2_0000);
}

/// The value 0x3e15_0c7b.
proof fn lemma_at_3e150c7b()
    ensures
        chord_code(0x3e15_0c7b, 0x3e0d_5e8d, 0x3e15_5e8d, 0x42d0_c02d, 0x42d6_3819) == 107,
{
    reveal(chord_code);
    lemma2_to64();
    lemma2_to64_rest();
    lemma_high_powers();
    assert(0x95_5e8d * 0x1 - 0x8d_5e8d * 0x1 == 0x8_0000);
    lemma_sum_known(0x3e15_5e8d, 0x3e0d_5e8d, true, 0x95_5e8d, 123, 0x8d_5e8d, 123, 0x1, 0x1, 0x8_0000, 20, 0x8_0000, 0x10);
    assert(sub_spec(0x3e15_5e8d, 0x3e0d_5e8d) == 0x3c00_0000);
    assert(0x95_0c7b * 0x1 - 0x8d_5e8d * 0x1 == 0x7_adee);
    lemma_sum_known(0x3e15_0c7b, 0x3e0d_5e8d, true, 0x95_0c7b, 123, 0x8d_5e8d, 123, 0x1, 0x1, 0x7_adee, 19, 0x4_0000, 0x20);
    assert(sub_spec(0x3e15_0c7b, 0x3e0d_5e8d) == 0x3bf5_bdc0);
    assert(0xd6_3819 * 0x1 - 0xd0_c02d * 0x1 == 0x5_77ec);
    lemma_sum_known(0x42d6_3819, 0x42d0_c02d, true, 0xd6_3819, 132, 0xd0_c02d, 132, 0x1, 0x1, 0x5_77ec, 19, 0x4_0000, 0x20);
    assert(sub_spec(0x42d6_3819, 0x42d0_c02d) == 0x402e_fd80);
    assert(0xae_fd80 * 0xf5_bdc0 == 0xa7fa_4fe5_a000);
    lemma_product_known(0x402e_fd80, 0x3bf5_bdc0, 0xae_fd80, 127, 0xf5_bdc0, 118, 0xa7fa_4fe5_a000, 48, 0x8000_0000_0000, 0x100_0000);
    assert(mul_spec(0x402e_fd80, 0x3bf5_bdc0) == 0x3ca7_fa50);
    assert(0xa7_fa50 * 0x1_0000_0000_0000_0000 == 0x1_4ff4_a000_0000_0000 * 0x80_0000 + 0x0);
    lemma_quotient_known(0x3ca7_fa50, 0x3c00_0000, 0xa7_fa50, 120, 0x80_0000, 119, 0x1_4ff4_a000_0000_0000, 0x0, 66, 0x2_0000_0000_0000_0000, 0x400_0000_0000);
    assert(div_spec(0x3ca7_fa50, 0x3c00_0000) == 0x4027_fa50);
    assert(0xd0_c02d * 0x20 + 0xa7_fa50 * 0x1 == 0x1abf_fff0);
    lemma_sum_known(0x42d0_c02d, 0x4027_fa50, false, 0xd0_c02d, 132, 0xa7_fa50, 127, 0x20, 0x1, 0x1abf_fff0, 29, 0x1000_0000, 0x20);
    assert(add_spec(0x42d0_c02d, 0x4027_fa50) == 0x42d6_0000);
    lemma_whole_known(0x42d6_0000, 0xd6_0000, 132, 0x2_0000);
}

/// The edge of code 106.
proof fn lemma_near_106()
    ensures
        near_exact_edge(0x3e15_0c7a, 106),
{
    lemma2_to64();
    lemma2_to64_rest();
    lemma_fifth_powers_of_two();
    lemma_more_fifth_powers_of_two();
    assert(120525nat * 120525 * 120525 == 0x6_3853_1669_46d5);
    assert(269025nat * 269025 * 269025 == 0x45_2c59_9066_9ca1);
    assert(0x6_3853_1669_46d5nat * 0x6_3853_1669_46d5 == 0x26_b049_81b4_eb33_6195_ca53_2d39nat);
    assert(0x26_b049_81b4_eb33_6195_ca53_2d39nat * 0x26_b049_81b4_eb33_6195_ca53_2d39nat == 0x5d8_cf37_a929_d18d_96d9_0f02_be8f_8b63_374a_d7b5_34be_4ef3_16b1nat);
    assert(0x45_2c59_9066_9ca1nat * 0x45_2c59_9066_9ca1 == 0x12b0_eff6_c049_6d6d_d948_5020_9d41nat);
    assert(0x12b0_eff6_c049_6d6d_d948_5020_9d41nat * 0x12b0_eff6_c049_6d6d_d948_5020_9d41nat == 0x15d_5c09_8741_6139_2178_92b9_bce5_5f46_89a2_dd05_b95f_0d00_50d8_ca81nat);
    assert(0x2e8_fa62nat * 0x2e8_fa62 == 0x8_77f0_4e83_8d84);
    assert(0x8_77f0_4e83_8d84nat * 0x8_77f0_4e83_8d84 == 0x47_b736_32ca_748e_7d56_9352_ac10nat);
    assert(0x47_b736_32ca_748e_7d56_9352_ac10nat * 0x2e8_fa62 == 0xd0b2_99e2_acbb_e570_088e_af47_302d_7e20nat);
    assert(0x2e9_8262nat * 0x2e9_8262 == 0x8_7b08_20cb_ad84);
    assert(0x8_7b08_20cb_ad84nat * 0x8_7b08_20cb_ad84 == 0x47_eba2_dc80_a1eb_3dad_a4f3_ac10nat);
    assert(0x47_eba2_dc80_a1eb_3dad_a4f3_ac10nat * 0x2e9_8262 == 0xd171_5e24_9aa8_f10d_efb4_d35c_9d37_fe20nat);
    assert(0xd0b2_99e2_acbb_e570_088e_af47_302d_7e20nat * 0x15d_5c09_8741_6139_2178_92b9_bce5_5f46_89a2_dd05_b95f_0d00_50d8_ca81nat == 0x11c_ce83_bddd_d6f5_3dcc_6853_2721_3319_e13c_4ed2_c50e_c71c_55cf_28a1_26de_ead2_ca14_4878_469a_fcaf_9771_ce20nat);
    assert(0xd171_5e24_9aa8_f10d_efb4_d35c_9d37_fe20nat * 0x15d_5c09_8741_6139_2178_92b9_bce5_5f46_89a2_dd05_b95f_0d00_50d8_ca81nat == 0x11d_d2d9_e160_9527_adb7_b83c_05ba_50cf_448c_81d4_8d00_e556_cb59_24be_a93e_d815_e072_52d2_05f3_5c61_d2bc_4e20nat);
    assert(0xc35nat * 0x4_0000_0000_0000_0000_0000_0000_0000_0000nat == 0x30d4_0000_0000_0000_0000_0000_0000_0000_0000nat);
    assert(0x5d8_cf37_a929_d18d_96d9_0f02_be8f_8b63_374a_d7b5_34be_4ef3_16b1nat * 0x30d4_0000_0000_0000_0000_0000_0000_0000_0000nat == 0x11d_7e66_09cf_edec_1589_9e90_f200_b902_0887_d26c_9bf3_5c66_f58f_fa94_0000_0000_0000_0000_0000_0000_0000_0000nat);
    lemma_near_above(
        0x3e15_0c7a, 0x95_0c7a, 123, 0x400, 0x30d4_0000_0000_0000_0000_0000_0000_0000_0000nat, 106,
        120525, 0x6_3853_1669_46d5,
        0x26_b049_81b4_eb33_6195_ca53_2d39nat,
        0x45_2c59_9066_9ca1, 0x12b0_eff6_c049_6d6d_d948_5020_9d41nat,
        0x2e8_fa62, 0x8_77f0_4e83_8d84, 0x47_b736_32ca_748e_7d56_9352_ac10nat,
        0x2e9_8262, 0x8_7b08_20cb_ad84, 0x47_eba2_dc80_a1eb_3dad_a4f3_ac10nat,
    );
}

/// The value 0x3e18_0df3.
proof fn lemma_at_3e180df3()
    ensures
        chord_code(0x3e18_0df3, 0x3e15_5e8d, 0x3e1d_5e8d, 0x42d6_3819, 0x42db_8661) == 107,
{
    reveal(chord_code);
    lemma2_to64();
    lemma2_to64_rest();
    lemma_high_powers();
    assert(0x9d_5e8d * 0x1 - 0x95_5e8d * 0x1 == 0x8_0000);
    lemma_sum_known(0x3e1d_5e8d, 0x3e15_5e8d, true, 0x9d_5e8d, 123, 0x95_5e8d, 123, 0x1, 0x1, 0x8_0000, 20, 0x8_0000, 0x10);
    assert(sub_spec(0x3e1d_5e8d, 0x3e15_5e8d) == 0x3c00_0000);
    assert(0x98_0df3 * 0x1 - 0x95_5e8d * 0x1 == 0x2_af66);
    lemma_sum_known(0x3e18_0df3, 0x3e15_5e8d, true, 0x98_0df3, 123, 0x95_5e8d, 123, 0x1, 0x1, 0x2_af66, 18, 0x2_0000, 0x40);
    assert(sub_spec(0x3e18_0df3, 0x3e15_5e8d) == 0x3b2b_d980);
    assert(0xdb_8661 * 0x1 - 0xd6_3819 * 0x1 == 0x5_4e48);
    lemma_sum_known(0x42db_8661, 0x42d6_3819, true, 0xdb_8661, 132, 0xd6_3819, 132, 0x1, 0x1, 0x5_4e48, 19, 0x4_0000, 0x20);
    assert(sub_spec(0x42db_8661, 0x42d6_3819) == 0x4029_c900);
    assert(0xa9_c900 * 0xab_d980 == 0x71f9_8345_8000);
    lemma_product_known(0x4029_c900, 0x3b2b_d980, 0xa9_c900, 127, 0xab_d980, 117, 0x71f9_8345_8000, 47, 0x4000_0000_0000, 0x80_0000);
    assert(mul_spec(0x4029_c900, 0x3b2b_d980) == 0x3be3_f307);
    assert(0xe3_f307 * 0x1_0000_0000_0000_0000 == 0x1_c7e6_0e00_0000_0000 * 0x80_0000 + 0x0);
    lemma_quotient_known(0x3be3_f307, 0x3c00_0000, 0xe3_f307, 118, 0x80_0000, 119, 0x1_c7e6_0e00_0000_0000, 0x0, 66, 0x2_0000_0000_0000_0000, 0x400_0000_0000);
    assert(div_spec(0x3be3_f307, 0x3c00_0000) == 0x3f63_f307);
    assert(0xd6_3819 * 0x80 + 0xe3_f307 * 0x1 == 0x6bff_ff87);
    lemma_sum_known(0x42d6_3819, 0x3f63_f307, false, 0xd6_3819, 132, 0xe3_f307, 125, 0x80, 0x1, 0x6bff_ff87, 31, 0x4000_0000, 0x80);
    assert(add_spec(0x42d6_3819, 0x3f63_f307) == 0x42d7_ffff);
    lemma_whole_known(0x42d7_ffff, 0xd7_ffff, 132, 0x2_0000);
}

/// The value 0x3e18_0df4.
proof fn lemma_at_3e180df4()
    ensures
        chord_code(0x3e18_0df4, 0x3e15_5e8d, 0x3e1d_5e8d, 0x42d6_3819, 0x42db_8661) == 108,
{
    reveal(chord_code);
    lemma2_to64();
    lemma2_to64_rest();
    lemma_high_powers();
    assert(0x9d_5e8d * 0x1 - 0x95_5e8d * 0x1 == 0x8_0000);
    lemma_sum_known(0x3e1d_5e8d, 0x3e15_5e8d, true, 0x9d_5e8d, 123, 0x95_5e8d, 123, 0x1, 0x1, 0x8_0000, 20, 0x8_0000, 0x10);
    assert(sub_spec(0x3e1d_5e8d, 0x3e15_5e8d) == 0x3c00_0000);
    assert(0x98_0df4 * 0x1 - 0x95_5e8d * 0x1 == 0x2_af67);
    lemma_sum_known(0x3e18_0df4, 0x3e15_5e8d, true, 0x98_0df4, 123, 0x95_5e8d, 123, 0x1, 0x1, 0x2_af67, 18, 0x2_0000, 0x40);
    assert(sub_spec(0x3e18_0df4, 0x3e15_5e8d) == 0x3b2b_d9c0);
    assert(0xdb_8661 * 0x1 - 0xd6_3819 * 0x1 == 0x5_4e48);
    lemma_sum_known(0x42db_8661, 0x42d6_3819, true, 0xdb_8661, 132, 0xd6_3819, 132, 0x1, 0x1, 0x5_4e48, 19, 0x4_0000, 0x20);
    assert(sub_spec(0x42db_8661, 0x42d6_3819) == 0x4029_c900);
    assert(0xa9_c900 * 0xab_d9c0 == 0x71f9_adb7_c000);
    lemma_product_known(0x4029_c900, 0x3b2b_d9c0, 0xa9_c900, 127, 0xab_d9c0, 117, 0x71f9_adb7_c000, 47, 0x4000_0000_0000, 0x80_0000);
    assert(mul_spec(0x4029_c900, 0x3b2b_d9c0) == 0x3be3_f35b);
    assert(0xe3_f35b * 0x1_0000_0000_0000_0000 == 0x1_c7e6_b600_0000_0000 * 0x80_0000 + 0x0);
    lemma_quotient_known(0x3be3_f35b, 0x3c00_0000, 0xe3_f35b, 118, 0x80_0000, 119, 0x1_c7e6_b600_0000_0000, 0x0, 66, 0x2_0000_0000_0000_0000, 0x400_0000_0000);
    assert(div_spec(0x3be3_f35b, 0x3c00_0000) == 0x3f63_f35b);
    assert(0xd6_3819 * 0x80 + 0xe3_f35b * 0x1 == 0x6bff_ffdb);
    lemma_sum_known(0x42d6_3819, 0x3f63_f35b, false, 0xd6_3819, 132, 0xe3_f35b, 125, 0x80, 0x1, 0x6bff_ffdb, 31, 0x4000_0000, 0x80);
    assert(add_spec(0x42d6_3819, 0x3f63_f35b) == 0x42d8_0000);
    lemma_whole_known(0x42d8_0000, 0xd8_0000, 132, 0x2_0000);
}

/// The edge of code 107.
proof fn lemma_near_107()
    ensures
        near_exact_edge(0x3e18_0df3, 107),
{
    lemma2_to64();
    lemma2_to64_rest();
    lemma_fifth_powers_of_two();
    lemma_more_fifth_powers_of_two();
    assert(121525nat * 121525 * 121525 == 0x6_6049_fe0f_990d);
    assert(269025nat * 269025 * 269025 == 0x45_2c59_9066_9ca1);
    assert(0x6_6049_fe0f_990dnat * 0x6_6049_fe0f_990d == 0x28_a7af_7ca9_c06d_fe13_1706_8aa9nat);
    assert(0x28_a7af_7ca9_c06d_fe13_1706_8aa9nat * 0x28_a7af_7ca9_c06d_fe13_1706_8aa9nat == 0x674_d4ad_61fd_4838_e0cf_a830_788b_c8fa_19ce_fc1c_1e2b_2906_a391nat);
    assert(0x45_2c59_9066_9ca1nat * 0x45_2c59_9066_9ca1 == 0x12b0_eff6_c049_6d6d_d948_5020_9d41nat);
    assert(0x12b0_eff6_c049_6d6d_d948_5020_9d41nat * 0x12b0_eff6_c049_6d6d_d948_5020_9d41nat == 0x15d_5c09_8741_6139_2178_92b9_bce5_5f46_89a2_dd05_b95f_0d00_50d8_ca81nat);
    assert(0x2f8_01bfnat * 0x2f8_01bf == 0x8_d04a_5e13_0c81);
    assert(0x8_d04a_5e13_0c81nat * 0x8_d04a_5e13_0c81 == 0x4d_ae1e_cfaa_41f6_d92d_97c2_5901nat);
    assert(0x4d_ae1e_cfaa_41f6_d92d_97c2_5901nat * 0x2f8_01bf == 0xe69d_731b_8940_6f1d_ed5f_bf94_3751_68bfnat);
    assert(0x2f8_89bfnat * 0x2f8_89bf == 0x8_d372_282d_fc81);
    assert(0x8_d372_282d_fc81nat * 0x8_d372_282d_fc81 == 0x4d_e5c7_e403_658f_f00f_0e68_3901nat);
    assert(0x4d_e5c7_e403_658f_f00f_0e68_3901nat * 0x2f8_89bf == 0xe76c_1383_533e_7333_7a8e_ef5a_c13c_10bfnat);
    assert(0xe69d_731b_8940_6f1d_ed5f_bf94_3751_68bfnat * 0x15d_5c09_8741_6139_2178_92b9_bce5_5f46_89a2_dd05_b95f_0d00_50d8_ca81nat == 0x13a_b78f_1748_fb65_5631_12cd_85b2_0aec_f959_db36_02a1_000c_50d1_21df_7438_42bf_092a_a17c_28f5_4dc2_2dd4_7e3fnat);
    assert(0xe76c_1383_533e_7333_7a8e_ef5a_c13c_10bfnat * 0x15d_5c09_8741_6139_2178_92b9_bce5_5f46_89a2_dd05_b95f_0d00_50d8_ca81nat == 0x13b_d18a_0e1d_764a_39bb_bbeb_324d_e692_778f_9813_a287_3b61_9649_4dee_b6f4_8093_9e13_aefb_2694_bc1e_95a3_263fnat);
    assert(0xc35nat * 0x4_0000_0000_0000_0000_0000_0000_0000_0000nat == 0x30d4_0000_0000_0000_0000_0000_0000_0000_0000nat);
    assert(0x674_d4ad_61fd_4838_e0cf_a830_788b_c8fa_19ce_fc1c_1e2b_2906_a391nat * 0x30d4_0000_0000_0000_0000_0000_0000_0000_0000nat == 0x13b_40a0_a1f4_a34a_7941_1b80_5ebe_0971_53f4_2eae_0cf1_136f_382a_a414_0000_0000_0000_0000_0000_0000_0000_0000nat);
    lemma_near_above(
        0x3e18_0df3, 0x98_0df3, 123, 0x400, 0x30d4_0000_0000_0000_0000_0000_0000_0000_0000nat, 107,
        121525, 0x6_6049_fe0f_990d,
        0x28_a7af_7ca9_c06d_fe13_1706_8aa9nat,
        0x45_2c59_9066_9ca1, 0x12b0_eff6_c049_6d6d_d948_5020_9d41nat,
        0x2f8_01bf, 0x8_d04a_5e13_0c81, 0x4d_ae1e_cfaa_41f6_d92d_97c2_5901nat,
        0x2f8_89bf, 0x8_d372_282d_fc81, 0x4d_e5c7_e403_658f_f00f_0e68_3901nat,
    );
}

/// The value 0x3e1b_11f0.
proof fn lemma_at_3e1b11f0()
    ensures
        chord_code(0x3e1b_11f0, 0x3e15_5e8d, 0x3e1d_5e8d, 0x42d6_3819, 0x42db_8661) == 108,
{
    reveal(chord_code);
    lemma2_to64();
    lemma2_to64_rest();
    lemma_high_powers();
    assert(0x9d_5e8d * 0x1 - 0x95_5e8d * 0x1 == 0x8_0000);
    lemma_sum_known(0x3e1d_5e8d, 0x3e15_5e8d, true, 0x9d_5e8d, 123, 0x95_5e8d, 123, 0x1, 0x1, 0x8_0000, 20, 0x8_0000, 0x10);
    assert(sub_spec(0x3e1d_5e8d, 0x3e15_5e8d) == 0x3c00_0000);
    assert(0x9b_11f0 * 0x1 - 0x95_5e8d * 0x1 == 0x5_b363);
    lemma_sum_known(0x3e1b_11f0, 0x3e15_5e8d, true, 0x9b_11f0, 123, 0x95_5e8d, 123, 0x1, 0x1, 0x5_b363, 19, 0x4_0000, 0x20);
    assert(sub_spec(0x3e1b_11f0, 0x3e15_5e8d) == 0x3bb6_6c60);
    assert(0xdb_8661 * 0x1 - 0xd6_3819 * 0x1 == 0x5_4e48);
    lemma_sum_known(0x42db_8661, 0x42d6_3819, true, 0xdb_8661, 132, 0xd6_3819, 132, 0x1, 0x1, 0x5_4e48, 19, 0x4_0000, 0x20);
    assert(sub_spec(0x42db_8661, 0x42d6_3819) == 0x4029_c900);
    assert(0xa9_c900 * 0xb6_6c60 == 0x78fc_c677_6000);
    lemma_product_known(0x4029_c900, 0x3bb6_6c60, 0xa9_c900, 127, 0xb6_6c60, 118, 0x78fc_c677_6000, 47, 0x4000_0000_0000, 0x80_0000);
    assert(mul_spec(0x4029_c900, 0x3bb6_6c60) == 0x3c71_f98d);
    assert(0xf1_f98d * 0x1_0000_0000_0000_0000 == 0x1_e3f3_1a00_0000_0000 * 0x80_0000 + 0x0);
    lemma_quotient_known(0x3c71_f98d, 0x3c00_0000, 0xf1_f98d, 119, 0x80_0000, 119, 0x1_e3f3_1a00_0000_0000, 0x0, 66, 0x2_0000_0000_0000_0000, 0x400_0000_0000);
    assert(div_spec(0x3c71_f98d, 0x3c00_0000) == 0x3ff1_f98d);
    assert(0xd6_3819 * 0x40 + 0xf1_f98d * 0x1 == 0x367f_ffcd);
    lemma_sum_known(0x42d6_3819, 0x3ff1_f98d, false, 0xd6_3819, 132, 0xf1_f98d, 126, 0x40, 0x1, 0x367f_ffcd, 30, 0x2000_0000, 0x40);
    assert(add_spec(0x42d6_3819, 0x3ff1_f98d) == 0x42d9_ffff);
    lemma_whole_known(0x42d9_ffff, 0xd9_ffff, 132, 0x2_0000);
}

/// The value 0x3e1b_11f1.
proof fn lemma_at_3e1b11f1()
    ensures
        chord_code(0x3e1b_11f1, 0x3e15_5e8d, 0x3e1d_5e8d, 0x42d6_3819, 0x42db_8661) == 109,
{
    reveal(chord_code);
    lemma2_to64();
    lemma2_to64_rest();
    lemma_high_powers();
    assert(0x9d_5e8d * 0x1 - 0x95_5e8d * 0x1 == 0x8_0000);
    lemma_sum_known(0x3e1d_5e8d, 0x3e15_5e8d, true, 0x9d_5e8d, 123, 0x95_5e8d, 123, 0x1, 0x1, 0x8_0000, 20, 0x8_0000, 0x10);
    assert(sub_spec(0x3e1d_5e8d, 0x3e15_5e8d) == 0x3c00_0000);
    assert(0x9b_11f1 * 0x1 - 0x95_5e8d * 0x1 == 0x5_b364);
    lemma_sum_known(0x3e1b_11f1, 0x3e15_5e8d, true, 0x9b_11f1, 123, 0x95_5e8d, 123, 0x1, 0x1, 0x5_b364, 19, 0x4_0000, 0x20);
    assert(sub_spec(0x3e1b_11f1, 0x3e15_5e8d) == 0x3bb6_6c80);
    assert(0xdb_8661 * 0x1 - 0xd6_3819 * 0x1 == 0x5_4e48);
    lemma_sum_known(0x42db_8661, 0x42d6_3819, true, 0xdb_8661, 132, 0xd6_3819, 132, 0x1, 0x1, 0x5_4e48, 19, 0x4_0000, 0x20);
    assert(sub_spec(0x42db_8661, 0x42d6_3819) == 0x4029_c900);
    assert(0xa9_c900 * 0xb6_6c80 == 0x78fc_dbb0_8000);
    lemma_product_known(0x4029_c900, 0x3bb6_6c80, 0xa9_c900, 127, 0xb6_6c80, 118, 0x78fc_dbb0_8000, 47, 0x4000_0000_0000, 0x80_0000);
    assert(mul_spec(0x4029_c900, 0x3bb6_6c80) == 0x3c71_f9b7);
    assert(0xf1_f9b7 * 0x1_0000_0000_0000_0000 == 0x1_e3f3_6e00_0000_0000 * 0x80_0000 + 0x0);
    lemma_quotient_known(0x3c71_f9b7, 0x3c00_0000, 0xf1_f9b7, 119, 0x80_0000, 119, 0x1_e3f3_6e00_0000_0000, 0x0, 66, 0x2_0000_0000_0000_0000, 0x400_0000_0000);
    assert(div_spec(0x3c71_f9b7, 0x3c00_0000) == 0x3ff1_f9b7);
    assert(0xd6_3819 * 0x40 + 0xf1_f9b7 * 0x1 == 0x367f_fff7);
    lemma_sum_known(0x42d6_3819, 0x3ff1_f9b7, false, 0xd6_3819, 132, 0xf1_f9b7, 126, 0x40, 0x1, 0x367f_fff7, 30, 0x2000_0000, 0x40);
    assert(add_spec(0x42d6_3819, 0x3ff1_f9b7) == 0x42da_0000);
    lemma_whole_known(0x42da_0000, 0xda_0000, 132, 0x2_0000);
}

/// The edge of code 108.
proof fn lemma_near_108()
    ensures
        near_exact_edge(0x3e1b_11f0, 108),
{
    lemma2_to64();
    lemma2_to64_rest();
    lemma_fifth_powers_of_two();
    lemma_more_fifth_powers_of_two();
    assert(122525nat * 122525 * 122525 == 0x6_88ea_aa6f_f6c5);
    assert(269025nat * 269025 * 269025 == 0x45_2c59_9066_9ca1);
    assert(0x6_88ea_aa6f_f6c5nat * 0x6_88ea_aa6f_f6c5 == 0x2a_b43a_2972_8d95_54d9_90b5_3399nat);
    assert(0x2a_b43a_2972_8d95_54d9_90b5_3399nat * 0x2a_b43a_2972_8d95_54d9_90b5_3399nat == 0x71f_a1f7_7116_5ab7_e2fc_1e04_6991_0006_83e6_28f4_3bb0_20c0_5171nat);
    assert(0x45_2c59_9066_9ca1nat * 0x45_2c59_9066_9ca1 == 0x12b0_eff6_c049_6d6d_d948_5020_9d41nat);
    assert(0x12b0_eff6_c049_6d6d_d948_5020_9d41nat * 0x12b0_eff6_c049_6d6d_d948_5020_9d41nat == 0x15d_5c09_8741_6139_2178_92b9_bce5_5f46_89a2_dd05_b95f_0d00_50d8_ca81nat);
    assert(0x307_15b0nat * 0x307_15b0 == 0x9_2ab4_5176_5900);
    assert(0x9_2ab4_5176_5900nat * 0x9_2ab4_5176_5900 == 0x54_07cd_640f_bf8d_4308_2af1_0000nat);
    assert(0x54_07cd_640f_bf8d_4308_2af1_0000nat * 0x307_15b0 == 0xfe6a_bd33_2216_fa30_3557_c0ba_4ab0_0000nat);
    assert(0x307_9db0nat * 0x307_9db0 == 0x9_2dec_20c1_5900);
    assert(0x9_2dec_20c1_5900nat * 0x9_2dec_20c1_5900 == 0x54_42d7_2ae8_a3f7_0047_50f1_0000nat);
    assert(0x54_42d7_2ae8_a3f7_0047_50f1_0000nat * 0x307_9db0 == 0xff4a_404e_cf86_8d41_0ce1_f742_72b0_0000nat);
    assert(0xfe6a_bd33_2216_fa30_3557_c0ba_4ab0_0000nat * 0x15d_5c09_8741_6139_2178_92b9_bce5_5f46_89a2_dd05_b95f_0d00_50d8_ca81nat == 0x15b_32fb_c2df_c3de_c21e_b3cf_23ba_81b6_ea28_f113_3f22_fbd8_3a3e_c540_1417_5346_77aa_e7c1_e3d1_214e_82b0_0000nat);
    assert(0xff4a_404e_cf86_8d41_0ce1_f742_72b0_0000nat * 0x15d_5c09_8741_6139_2178_92b9_bce5_5f46_89a2_dd05_b95f_0d00_50d8_ca81nat == 0x15c_6401_db0a_da80_36e6_8b37_f994_c2dd_31ce_ef8e_5b0b_53a1_ec20_bf1c_678c_1301_aeb4_1d02_1edf_cb7a_aab0_0000nat);
    assert(0xc35nat * 0x4_0000_0000_0000_0000_0000_0000_0000_0000nat == 0x30d4_0000_0000_0000_0000_0000_0000_0000_0000nat);
    assert(0x71f_a1f7_7116_5ab7_e2fc_1e04_6991_0006_83e6_28f4_3bb0_20c0_5171nat * 0x30d4_0000_0000_0000_0000_0000_0000_0000_0000nat == 0x15b_d490_861d_d785_9ad7_3e69_af72_9c15_3e20_6247_b572_73ff_2e88_a194_0000_0000_0000_0000_0000_0000_0000_0000nat);
    lemma_near_above(
        0x3e1b_11f0, 0x9b_11f0, 123, 0x400, 0x30d4_0000_0000_0000_0000_0000_0000_0000_0000nat, 108,
        122525, 0x6_88ea_aa6f_f6c5,
        0x2a_b43a_2972_8d95_54d9_90b5_3399nat,
        0x45_2c59_9066_9ca1, 0x12b0_eff6_c049_6d6d_d948_5020_9d41nat,
        0x307_15b0, 0x9_2ab4_5176_5900, 0x54_07cd_640f_bf8d_4308_2af1_0000nat,
        0x307_9db0, 0x9_2dec_20c1_5900, 0x54_42d7_2ae8_a3f7_0047_50f1_0000nat,
    );
}

/// The value 0x3e1e_1ba9.
proof fn lemma_at_3e1e1ba9()
    ensures
        chord_code(0x3e1e_1ba9, 0x3e1d_5e8d, 0x3e25_5e8d, 0x42db_8661, 0x42e0_ab74) == 109,
{
    reveal(chord_code);
    lemma2_to64();
    lemma2_to64_rest();
    lemma_high_powers();
    assert(0xa5_5e8d * 0x1 - 0x9d_5e8d * 0x1 == 0x8_0000);
    lemma_sum_known(0x3e25_5e8d, 0x3e1d_5e8d, true, 0xa5_5e8d, 123, 0x9d_5e8d, 123, 0x1, 0x1, 0x8_0000, 20, 0x8_0000, 0x10);
    assert(sub_spec(0x3e25_5e8d, 0x3e1d_5e8d) == 0x3c00_0000);
    assert(0x9e_1ba9 * 0x1 - 0x9d_5e8d * 0x1 == 0xbd1c);
    lemma_sum_known(0x3e1e_1ba9, 0x3e1d_5e8d, true, 0x9e_1ba9, 123, 0x9d_5e8d, 123, 0x1, 0x1, 0xbd1c, 16, 0x8000, 0x100);
    assert(sub_spec(0x3e1e_1ba9, 0x3e1d_5e8d) == 0x3a3d_1c00);
    assert(0xe0_ab74 * 0x1 - 0xdb_8661 * 0x1 == 0x5_2513);
    lemma_sum_known(0x42e0_ab74, 0x42db_8661, true, 0xe0_ab74, 132, 0xdb_8661, 132, 0x1, 0x1, 0x5_2513, 19, 0x4_0000, 0x20);
    assert(sub_spec(0x42e0_ab74, 0x42db_8661) == 0x4024_a260);
    assert(0xa4_a260 * 0xbd_1c00 == 0x799d_e2a2_8000);
    lemma_product_known(0x4024_a260, 0x3a3d_1c00, 0xa4_a260, 127, 0xbd_1c00, 115, 0x799d_e2a2_8000, 47, 0x4000_0000_0000, 0x80_0000);
    assert(mul_spec(0x4024_a260, 0x3a3d_1c00) == 0x3af3_3bc5);
    assert(0xf3_3bc5 * 0x1_0000_0000_0000_0000 == 0x1_e677_8a00_0000_0000 * 0x80_0000 + 0x0);
    lemma_quotient_known(0x3af3_3bc5, 0x3c00_0000, 0xf3_3bc5, 116, 0x80_0000, 119, 0x1_e677_8a00_0000_0000, 0x0, 66, 0x2_0000_0000_0000_0000, 0x400_0000_0000);
    assert(div_spec(0x3af3_3bc5, 0x3c00_0000) == 0x3e73_3bc5);
    assert(0xdb_8661 * 0x200 + 0xf3_3bc5 * 0x1 == 0x1_b7ff_fdc5);
    lemma_sum_known(0x42db_8661, 0x3e73_3bc5, false, 0xdb_8661, 132, 0xf3_3bc5, 123, 0x200, 0x1, 0x1_b7ff_fdc5, 33, 0x1_0000_0000, 0x200);
    assert(add_spec(0x42db_8661, 0x3e73_3bc5) == 0x42db_ffff);
    lemma_whole_known(0x42db_ffff, 0xdb_ffff, 132, 0x2_0000);
}

/// The value 0x3e1e_1baa.
proof fn lemma_at_3e1e1baa()
    ensures
        chord_code(0x3e1e_1baa, 0x3e1d_5e8d, 0x3e25_5e8d, 0x42db_8661, 0x42e0_ab74) == 110,
{
    reveal(chord_code);
    lemma2_to64();
    lemma2_to64_rest();
    lemma_high_powers();
    assert(0xa5_5e8d * 0x1 - 0x9d_5e8d * 0x1 == 0x8_0000);
    lemma_sum_known(0x3e25_5e8d, 0x3e1d_5e8d, true, 0xa5_5e8d, 123, 0x9d_5e8d, 123, 0x1, 0x1, 0x8_0000, 20, 0x8_0000, 0x10);
    assert(sub_spec(0x3e25_5e8d, 0x3e1d_5e8d) == 0x3c00_0000);
    assert(0x9e_1baa * 0x1 - 0x9d_5e8d * 0x1 == 0xbd1d);
    lemma_sum_known(0x3e1e_1baa, 0x3e1d_5e8d, true, 0x9e_1baa, 123, 0x9d_5e8d, 123, 0x1, 0x1, 0xbd1d, 16, 0x8000, 0x100);
    assert(sub_spec(0x3e1e_1baa, 0x3e1d_5e8d) == 0x3a3d_1d00);
    assert(0xe0_ab74 * 0x1 - 0xdb_8661 * 0x1 == 0x5_2513);
    lemma_sum_known(0x42e0_ab74, 0x42db_8661, true, 0xe0_ab74, 132, 0xdb_8661, 132, 0x1, 0x1, 0x5_2513, 19, 0x4_0000, 0x20);
    assert(sub_spec(0x42e0_ab74, 0x42db_8661) == 0x4024_a260);
    assert(0xa4_a260 * 0xbd_1d00 == 0x799e_8744_e000);
    lemma_product_known(0x4024_a260, 0x3a3d_1d00, 0xa4_a260, 127, 0xbd_1d00, 115, 0x799e_8744_e000, 47, 0x4000_0000_0000, 0x80_0000);
    assert(mul_spec(0x4024_a260, 0x3a3d_1d00) == 0x3af3_3d0f);
    assert(0xf3_3d0f * 0x1_0000_0000_0000_0000 == 0x1_e67a_1e00_0000_0000 * 0x80_0000 + 0x0);
    lemma_quotient_known(0x3af3_3d0f, 0x3c00_0000, 0xf3_3d0f, 116, 0x80_0000, 119, 0x1_e67a_1e00_0000_0000, 0x0, 66, 0x2_0000_0000_0000_0000, 0x400_0000_0000);
    assert(div_spec(0x3af3_3d0f, 0x3c00_0000) == 0x3e73_3d0f);
    assert(0xdb_8661 * 0x200 + 0xf3_3d0f * 0x1 == 0x1_b7ff_ff0f);
    lemma_sum_known(0x42db_8661, 0x3e73_3d0f, false, 0xdb_8661, 132, 0xf3_3d0f, 123, 0x200, 0x1, 0x1_b7ff_ff0f, 33, 0x1_0000_0000, 0x200);
    assert(add_spec(0x42db_8661, 0x3e73_3d0f) == 0x42dc_0000);
    lemma_whole_known(0x42dc_0000, 0xdc_0000, 132, 0x2_0000);
}

/// The edge of code 109.
proof fn lemma_near_109()
    ensures
        near_exact_edge(0x3e1e_1ba9, 109),
{
    lemma2_to64();
    lemma2_to64_rest();
    lemma_fifth_powers_of_two();
    lemma_more_fifth_powers_of_two();
    assert(123525nat * 123525 * 123525 == 0x6_b236_812b_1bfd);
    assert(269025nat * 269025 * 269025 == 0x45_2c59_9066_9ca1);
    assert(0x6_b236_812b_1bfdnat * 0x6_b236_812b_1bfd == 0x2c_d69d_e540_0224_1c33_640d_5809nat);
    assert(0x2c_d69d_e540_0224_1c33_640d_5809nat * 0x2c_d69d_e540_0224_1c33_640d_5809nat == 0x7da_7a33_2aaa_bdcc_44f0_936b_eadf_ac55_bfd4_d635_790f_1730_3051nat);
    assert(0x45_2c59_9066_9ca1nat * 0x45_2c59_9066_9ca1 == 0x12b0_eff6_c049_6d6d_d948_5020_9d41nat);
    assert(0x12b0_eff6_c049_6d6d_d948_5020_9d41nat * 0x12b0_eff6_c049_6d6d_d948_5020_9d41nat == 0x15d_5c09_8741_6139_2178_92b9_bce5_5f46_89a2_dd05_b95f_0d00_50d8_ca81nat);
    assert(0x316_464dnat * 0x316_464d == 0x9_8795_f68a_3329);
    assert(0x9_8795_f68a_3329nat * 0x9_8795_f68a_3329 == 0x5a_d05a_d796_4524_b0a7_fe6d_5c91nat);
    assert(0x5a_d05a_d796_4524_b0a7_fe6d_5c91nat * 0x316_464d == 0x1_1857_e89e_cbff_4e53_fac2_3795_15aa_7d9dnat);
    assert(0x316_ce4dnat * 0x316_ce4d == 0x9_8add_e97c_0329);
    assert(0x9_8add_e97c_0329nat * 0x9_8add_e97c_0329 == 0x5b_0eee_6ace_e15a_a29d_b1c1_fc91nat);
    assert(0x5b_0eee_6ace_e15a_a29d_b1c1_fc91nat * 0x316_ce4d == 0x1_1949_7524_f214_0742_89c0_5b19_f80b_a59dnat);
    assert(0x1_1857_e89e_cbff_4e53_fac2_3795_15aa_7d9dnat * 0x15d_5c09_8741_6139_2178_92b9_bce5_5f46_89a2_dd05_b95f_0d00_50d8_ca81nat == 0x17e_94a2_274a_4e68_61e0_8d7e_c3ea_5c76_918f_1789_f77d_4561_a315_361d_9f53_7181_eb99_cfa1_d2ed_2d53_7e7f_2e1dnat);
    assert(0x1_1949_7524_f214_0742_89c0_5b19_f80b_a59dnat * 0x15d_5c09_8741_6139_2178_92b9_bce5_5f46_89a2_dd05_b95f_0d00_50d8_ca81nat == 0x17f_de45_91a9_fdda_7095_05b2_3d9f_b055_17e2_4f59_6058_8ebd_d82b_3e68_c58b_2494_c513_0da8_aee9_4c63_fb04_561dnat);
    assert(0xc35nat * 0x4_0000_0000_0000_0000_0000_0000_0000_0000nat == 0x30d4_0000_0000_0000_0000_0000_0000_0000_0000nat);
    assert(0x7da_7a33_2aaa_bdcc_44f0_936b_eadf_ac55_bfd4_d635_790f_1730_3051nat * 0x30d4_0000_0000_0000_0000_0000_0000_0000_0000nat == 0x17f_77d6_ca5f_58fb_7a16_32de_5168_718a_cafa_c46b_6afb_14d8_3cf7_3314_0000_0000_0000_0000_0000_0000_0000_0000nat);
    lemma_near_above(
        0x3e1e_1ba9, 0x9e_1ba9, 123, 0x400, 0x30d4_0000_0000_0000_0000_0000_0000_0000_0000nat, 109,
        123525, 0x6_b236_812b_1bfd,
        0x2c_d69d_e540_0224_1c33_640d_5809nat,
        0x45_2c59_9066_9ca1, 0x12b0_eff6_c049_6d6d_d948_5020_9d41nat,
        0x316_464d, 0x9_8795_f68a_3329, 0x5a_d05a_d796_4524_b0a7_fe6d_5c91nat,
        0x316_ce4d, 0x9_8add_e97c_0329, 0x5b_0eee_6ace_e15a_a29d_b1c1_fc91nat,
    );
}

/// The value 0x3e21_37cd.
proof fn lemma_at_3e2137cd()
    ensures
        chord_code(0x3e21_37cd, 0x3e1d_5e8d, 0x3e25_5e8d, 0x42db_8661, 0x42e0_ab74) == 110,
{
    reveal(chord_code);
    lemma2_to64();
    lemma2_to64_rest();
    lemma_high_powers();
    assert(0xa5_5e8d * 0x1 - 0x9d_5e8d * 0x1 == 0x8_0000);
    lemma_sum_known(0x3e25_5e8d, 0x3e1d_5e8d, true, 0xa5_5e8d, 123, 0x9d_5e8d, 123, 0x1, 0x1, 0x8_0000, 20, 0x8_0000, 0x10);
    assert(sub_spec(0x3e25_5e8d, 0x3e1d_5e8d) == 0x3c00_0000);
    assert(0xa1_37cd * 0x1 - 0x9d_5e8d * 0x1 == 0x3_d940);
    lemma_sum_known(0x3e21_37cd, 0x3e1d_5e8d, true, 0xa1_37cd, 123, 0x9d_5e8d, 123, 0x1, 0x1, 0x3_d940, 18, 0x2_0000, 0x40);
    assert(sub_spec(0x3e21_37cd, 0x3e1d_5e8d) == 0x3b76_5000);
    assert(0xe0_ab74 * 0x1 - 0xdb_8661 * 0x1 == 0x5_2513);
    lemma_sum_known(0x42e0_ab74, 0x42db_8661, true, 0xe0_ab74, 132, 0xdb_8661, 132, 0x1, 0x1, 0x5_2513, 19, 0x4_0000, 0x20);
    assert(sub_spec(0x42e0_ab74, 0x42db_8661) == 0x4024_a260);
    assert(0xa4_a260 * 0xf6_5000 == 0x9e67_7afe_0000);
    lemma_product_known(0x4024_a260, 0x3b76_5000, 0xa4_a260, 127, 0xf6_5000, 117, 0x9e67_7afe_0000, 48, 0x8000_0000_0000, 0x100_0000);
    assert(mul_spec(0x4024_a260, 0x3b76_5000) == 0x3c1e_677b);
    assert(0x9e_677b * 0x1_0000_0000_0000_0000 == 0x1_3cce_f600_0000_0000 * 0x80_0000 + 0x0);
    lemma_quotient_known(0x3c1e_677b, 0x3c00_0000, 0x9e_677b, 119, 0x80_0000, 119, 0x1_3cce_f600_0000_0000, 0x0, 66, 0x2_0000_0000_0000_0000, 0x400_0000_0000);
    assert(div_spec(0x3c1e_677b, 0x3c00_0000) == 0x3f9e_677b);
    assert(0xdb_8661 * 0x40 + 0x9e_677b * 0x1 == 0x377f_ffbb);
    lemma_sum_known(0x42db_8661, 0x3f9e_677b, false, 0xdb_8661, 132, 0x9e_677b, 126, 0x40, 0x1, 0x377f_ffbb, 30, 0x2000_0000, 0x40);
    assert(add_spec(0x42db_8661, 0x3f9e_677b) == 0x42dd_ffff);
    lemma_whole_known(0x42dd_ffff, 0xdd_ffff, 132, 0x2_0000);
}

/// The value 0x3e21_37ce.
proof fn lemma_at_3e2137ce()
    ensures
        chord_code(0x3e21_37ce, 0x3e1d_5e8d, 0x3e25_5e8d, 0x42db_8661, 0x42e0_ab74) == 111,
{
    reveal(chord_code);
    lemma2_to64();
    lemma2_to64_rest();
    lemma_high_powers();
    assert(0xa5_5e8d * 0x1 - 0x9d_5e8d * 0x1 == 0x8_0000);
    lemma_sum_known(0x3e25_5e8d, 0x3e1d_5e8d, true, 0xa5_5e8d, 123, 0x9d_5e8d, 123, 0x1, 0x1, 0x8_0000, 20, 0x8_0000, 0x10);
    assert(sub_spec(0x3e25_5e8d, 0x3e1d_5e8d) == 0x3c00_0000);
    assert(0xa1_37ce * 0x1 - 0x9d_5e8d * 0x1 == 0x3_d941);
    lemma_sum_known(0x3e21_37ce, 0x3e1d_5e8d, true, 0xa1_37ce, 123, 0x9d_5e8d, 123, 0x1, 0x1, 0x3_d941, 18, 0x2_0000, 0x40);
    assert(sub_spec(0x3e21_37ce, 0x3e1d_5e8d) == 0x3b76_5040);
    assert(0xe0_ab74 * 0x1 - 0xdb_8661 * 0x1 == 0x5_2513);
    lemma_sum_known(0x42e0_ab74, 0x42db_8661, true, 0xe0_ab74, 132, 0xdb_8661, 132, 0x1, 0x1, 0x5_2513, 19, 0x4_0000, 0x20);
    assert(sub_spec(0x42e0_ab74, 0x42db_8661) == 0x4024_a260);
    assert(0xa4_a260 * 0xf6_5040 == 0x9e67_a426_9800);
    lemma_product_known(0x4024_a260, 0x3b76_5040, 0xa4_a260, 127, 0xf6_5040, 117, 0x9e67_a426_9800, 48, 0x8000_0000_0000, 0x100_0000);
    assert(mul_spec(0x4024_a260, 0x3b76_5040) == 0x3c1e_67a4);
    assert(0x9e_67a4 * 0x1_0000_0000_0000_0000 == 0x1_3ccf_4800_0000_0000 * 0x80_0000 + 0x0);
    lemma_quotient_known(0x3c1e_67a4, 0x3c00_0000, 0x9e_67a4, 119, 0x80_0000, 119, 0x1_3ccf_4800_0000_0000, 0x0, 66, 0x2_0000_0000_0000_0000, 0x400_0000_0000);
    assert(div_spec(0x3c1e_67a4, 0x3c00_0000) == 0x3f9e_67a4);
    assert(0xdb_8661 * 0x40 + 0x9e_67a4 * 0x1 == 0x377f_ffe4);
    lemma_sum_known(0x42db_8661, 0x3f9e_67a4, false, 0xdb_8661, 132, 0x9e_67a4, 126, 0x40, 0x1, 0x377f_ffe4, 30, 0x2000_0000, 0x40);
    assert(add_spec(0x42db_8661, 0x3f9e_67a4) == 0x42de_0000);
    lemma_whole_known(0x42de_0000, 0xde_0000, 132, 0x2_0000);
}

/// The edge of code 110.
proof fn lemma_near_110()
    ensures
        near_exact_edge(0x3e21_37cd, 110),
{
    lemma2_to64();
    lemma2_to64_rest();
    lemma_fifth_powers_of_two();
    lemma_more_fifth_powers_of_two();
    assert(124525nat * 124525 * 124525 == 0x6_dc2e_e7e1_c4b5);
    assert(269025nat * 269025 * 269025 == 0x45_2c59_9066_9ca1);
    assert(0x6_dc2e_e7e1_c4b5nat * 0x6_dc2e_e7e1_c4b5 == 0x2f_0f93_85b9_69bf_0126_034f_a7f9nat);
    assert(0x2f_0f93_85b9_69bf_0126_034f_a7f9nat * 0x2f_0f93_85b9_69bf_0126_034f_a7f9nat == 0x8a6_b91d_b8c3_6750_6d9d_763a_366d_8911_1a34_828e_c6a4_efe4_d031nat);
    assert(0x45_2c59_9066_9ca1nat * 0x45_2c59_9066_9ca1 == 0x12b0_eff6_c049_6d6d_d948_5020_9d41nat);
    assert(0x12b0_eff6_c049_6d6d_d948_5020_9d41nat * 0x12b0_eff6_c049_6d6d_d948_5020_9d41nat == 0x15d_5c09_8741_6139_2178_92b9_bce5_5f46_89a2_dd05_b95f_0d00_50d8_ca81nat);
    assert(0x325_d301nat * 0x325_d301 == 0x9_e888_b234_a601);
    assert(0x9_e888_b234_a601nat * 0x9_e888_b234_a601 == 0x62_2cd4_93b0_ecf1_72bd_400d_4c01nat);
    assert(0x62_2cd4_93b0_ecf1_72bd_400d_4c01nat * 0x325_d301 == 0x1_3507_e3c9_cde8_7a39_bb9d_d858_34d7_1f01nat);
    assert(0x326_5b01nat * 0x326_5b01 == 0x9_ebe1_2aa5_b601);
    assert(0x9_ebe1_2aa5_b601nat * 0x9_ebe1_2aa5_b601 == 0x62_6f2c_29ff_069c_8ebe_72af_6c01nat);
    assert(0x62_6f2c_29ff_069c_8ebe_72af_6c01nat * 0x326_5b01 == 0x1_360d_02f3_5b08_a242_18f7_55d0_d939_c701nat);
    assert(0x1_3507_e3c9_cde8_7a39_bb9d_d858_34d7_1f01nat * 0x15d_5c09_8741_6139_2178_92b9_bce5_5f46_89a2_dd05_b95f_0d00_50d8_ca81nat == 0x1a5_badb_e087_5383_a019_7242_2cff_2dd1_9ff9_5c47_3b53_d6e0_d19b_5cc1_e0b6_cf4b_4e6f_c9dc_5921_7a56_d7b5_6981nat);
    assert(0x1_360d_02f3_5b08_a242_18f7_55d0_d939_c701nat * 0x15d_5c09_8741_6139_2178_92b9_bce5_5f46_89a2_dd05_b95f_0d00_50d8_ca81nat == 0x1a7_1f35_3d17_b5a6_b612_bc1a_7a47_3758_ccf2_dc2b_9c29_d7b9_6021_7ecc_2057_8475_2a59_fed0_ebec_6d95_45fc_1181nat);
    assert(0xc35nat * 0x4_0000_0000_0000_0000_0000_0000_0000_0000nat == 0x30d4_0000_0000_0000_0000_0000_0000_0000_0000nat);
    assert(0x8a6_b91d_b8c3_6750_6d9d_763a_366d_8911_1a34_828e_c6a4_efe4_d031nat * 0x30d4_0000_0000_0000_0000_0000_0000_0000_0000nat == 0x1a6_6cc6_df41_a530_a328_4c90_d269_9c68_b713_8bf6_e37b_6d91_9085_9894_0000_0000_0000_0000_0000_0000_0000_0000nat);
    lemma_near_above(
        0x3e21_37cd, 0xa1_37cd, 123, 0x400, 0x30d4_0000_0000_0000_0000_0000_0000_0000_0000nat, 110,
        124525, 0x6_dc2e_e7e1_c4b5,
        0x2f_0f93_85b9_69bf_0126_034f_a7f9nat,
        0x45_2c59_9066_9ca1, 0x12b0_eff6_c049_6d6d_d948_5020_9d41nat,
        0x325_d301, 0x9_e888_b234_a601, 0x62_2cd4_93b0_ecf1_72bd_400d_4c01nat,
        0x326_5b01, 0x9_ebe1_2aa5_b601, 0x62_6f2c_29ff_069c_8ebe_72af_6c01nat,
    );
}

/// The value 0x3e24_53f1.
proof fn lemma_at_3e2453f1()
    ensures
        chord_code(0x3e24_53f1, 0x3e1d_5e8d, 0x3e25_5e8d, 0x42db_8661, 0x42e0_ab74) == 111,
{
    reveal(chord_code);
    lemma2_to64();
    lemma2_to64_rest();
    lemma_high_powers();
    assert(0xa5_5e8d * 0x1 - 0x9d_5e8d * 0x1 == 0x8_0000);
    lemma_sum_known(0x3e25_5e8d, 0x3e1d_5e8d, true, 0xa5_5e8d, 123, 0x9d_5e8d, 123, 0x1, 0x1, 0x8_0000, 20, 0x8_0000, 0x10);
    assert(sub_spec(0x3e25_5e8d, 0x3e1d_5e8d) == 0x3c00_0000);
    assert(0xa4_53f1 * 0x1 - 0x9d_5e8d * 0x1 == 0x6_f564);
    lemma_sum_known(0x3e24_53f1, 0x3e1d_5e8d, true, 0xa4_53f1, 123, 0x9d_5e8d, 123, 0x1, 0x1, 0x6_f564, 19, 0x4_0000, 0x20);
    assert(sub_spec(0x3e24_53f1, 0x3e1d_5e8d) == 0x3bde_ac80);
    assert(0xe0_ab74 * 0x1 - 0xdb_8661 * 0x1 == 0x5_2513);
    lemma_sum_known(0x42e0_ab74, 0x42db_8661, true, 0xe0_ab74, 132, 0xdb_8661, 132, 0x1, 0x1, 0x5_2513, 19, 0x4_0000, 0x20);
    assert(sub_spec(0x42e0_ab74, 0x42db_8661) == 0x4024_a260);
    assert(0xa4_a260 * 0xde_ac80 == 0x8f33_bea9_b000);
    lemma_product_known(0x4024_a260, 0x3bde_ac80, 0xa4_a260, 127, 0xde_ac80, 118, 0x8f33_bea9_b000, 48, 0x8000_0000_0000, 0x100_0000);
    assert(mul_spec(0x4024_a260, 0x3bde_ac80) == 0x3c8f_33bf);
    assert(0x8f_33bf * 0x1_0000_0000_0000_0000 == 0x1_1e67_7e00_0000_0000 * 0x80_0000 + 0x0);
    lemma_quotient_known(0x3c8f_33bf, 0x3c00_0000, 0x8f_33bf, 120, 0x80_0000, 119, 0x1_1e67_7e00_0000_0000, 0x0, 66, 0x2_0000_0000_0000_0000, 0x400_0000_0000);
    assert(div_spec(0x3c8f_33bf, 0x3c00_0000) == 0x400f_33bf);
    assert(0xdb_8661 * 0x20 + 0x8f_33bf * 0x1 == 0x1bff_ffdf);
    lemma_sum_known(0x42db_8661, 0x400f_33bf, false, 0xdb_8661, 132, 0x8f_33bf, 127, 0x20, 0x1, 0x1bff_ffdf, 29, 0x1000_0000, 0x20);
    assert(add_spec(0x42db_8661, 0x400f_33bf) == 0x42df_ffff);
    lemma_whole_known(0x42df_ffff, 0xdf_ffff, 132, 0x2_0000);
}

/// The value 0x3e24_53f2.
proof fn lemma_at_3e2453f2()
    ensures
        chord_code(0x3e24_53f2, 0x3e1d_5e8d, 0x3e25_5e8d, 0x42db_8661, 0x42e0_ab74) == 112,
{
    reveal(chord_code);
    lemma2_to64();
    lemma2_to64_rest();
    lemma_high_powers();
    assert(0xa5_5e8d * 0x1 - 0x9d_5e8d * 0x1 == 0x8_0000);
    lemma_sum_known(0x3e25_5e8d, 0x3e1d_5e8d, true, 0xa5_5e8d, 123, 0x9d_5e8d, 123, 0x1, 0x1, 0x8_0000, 20, 0x8_0000, 0x10);
    assert(sub_spec(0x3e25_5e8d, 0x3e1d_5e8d) == 0x3c00_0000);
    assert(0xa4_53f2 * 0x1 - 0x9d_5e8d * 0x1 == 0x6_f565);
    lemma_sum_known(0x3e24_53f2, 0x3e1d_5e8d, true, 0xa4_53f2, 123, 0x9d_5e8d, 123, 0x1, 0x1, 0x6_f565, 19, 0x4_0000, 0x20);
    assert(sub_spec(0x3e24_53f2, 0x3e1d_5e8d) == 0x3bde_aca0);
    assert(0xe0_ab74 * 0x1 - 0xdb_8661 * 0x1 == 0x5_2513);
    lemma_sum_known(0x42e0_ab74, 0x42db_8661, true, 0xe0_ab74, 132, 0xdb_8661, 132, 0x1, 0x1, 0x5_2513, 19, 0x4_0000, 0x20);
    assert(sub_spec(0x42e0_ab74, 0x42db_8661) == 0x4024_a260);
    assert(0xa4_a260 * 0xde_aca0 == 0x8f33_d33d_fc00);
    lemma_product_known(0x4024_a260, 0x3bde_aca0, 0xa4_a260, 127, 0xde_aca0, 118, 0x8f33_d33d_fc00, 48, 0x8000_0000_0000, 0x100_0000);
    assert(mul_spec(0x4024_a260, 0x3bde_aca0) == 0x3c8f_33d3);
    assert(0x8f_33d3 * 0x1_0000_0000_0000_0000 == 0x1_1e67_a600_0000_0000 * 0x80_0000 + 0x0);
    lemma_quotient_known(0x3c8f_33d3, 0x3c00_0000, 0x8f_33d3, 120, 0x80_0000, 119, 0x1_1e67_a600_0000_0000, 0x0, 66, 0x2_0000_0000_0000_0000, 0x400_0000_0000);
    assert(div_spec(0x3c8f_33d3, 0x3c00_0000) == 0x400f_33d3);
    assert(0xdb_8661 * 0x20 + 0x8f_33d3 * 0x1 == 0x1bff_fff3);
    lemma_sum_known(0x42db_8661, 0x400f_33d3, false, 0xdb_8661, 132, 0x8f_33d3, 127, 0x20, 0x1, 0x1bff_fff3, 29, 0x1000_0000, 0x20);
    assert(add_spec(0x42db_8661, 0x400f_33d3) == 0x42e0_0000);
    lemma_whole_known(0x42e0_0000, 0xe0_0000, 132, 0x2_0000);
}

/// The edge of code 111.
proof fn lemma_near_111()
    ensures
        near_exact_edge(0x3e24_53f1, 111),
{
    lemma2_to64();
    lemma2_to64_rest();
    lemma_fifth_powers_of_two();
    lemma_more_fifth_powers_of_two();
    assert(125525nat * 125525 * 125525 == 0x7_06d5_4434_aced);
    assert(269025nat * 269025 * 269025 == 0x45_2c59_9066_9ca1);
    assert(0x7_06d5_4434_acednat * 0x7_06d5_4434_aced == 0x31_5fd8_6bbe_7ee4_e516_9d17_5369nat);
    assert(0x31_5fd8_6bbe_7ee4_e516_9d17_5369nat * 0x31_5fd8_6bbe_7ee4_e516_9d17_5369nat == 0x985_d4bb_95d9_f49c_82c5_73d9_6884_7d75_d48f_0aa9_ce7a_e20b_4111nat);
    assert(0x45_2c59_9066_9ca1nat * 0x45_2c59_9066_9ca1 == 0x12b0_eff6_c049_6d6d_d948_5020_9d41nat);
    assert(0x12b0_eff6_c049_6d6d_d948_5020_9d41nat * 0x12b0_eff6_c049_6d6d_d948_5020_9d41nat == 0x15d_5c09_8741_6139_2178_92b9_bce5_5f46_89a2_dd05_b95f_0d00_50d8_ca81nat);
    assert(0x335_5fb5nat * 0x335_5fb5 == 0xa_4b5f_02b9_d5f9);
    assert(0xa_4b5f_02b9_d5f9nat * 0xa_4b5f_02b9_d5f9 == 0x69_f99d_0560_a0c8_230c_d8ba_4c31nat);
    assert(0x69_f99d_0560_a0c8_230c_d8ba_4c31nat * 0x335_5fb5 == 0x1_5405_2320_ffe7_4ad4_5ab5_99f8_b723_0da5nat);
    assert(0x335_e7b5nat * 0x335_e7b5 == 0xa_4ec8_00aa_25f9);
    assert(0xa_4ec8_00aa_25f9nat * 0xa_4ec8_00aa_25f9 == 0x6a_3fde_89f3_b073_8226_7455_ec31nat);
    assert(0x6a_3fde_89f3_b073_8226_7455_ec31nat * 0x335_e7b5 == 0x1_551e_ff71_6157_4ff4_616e_cfb8_4205_35a5nat);
    assert(0x1_5405_2320_ffe7_4ad4_5ab5_99f8_b723_0da5nat * 0x15d_5c09_8741_6139_2178_92b9_bce5_5f46_89a2_dd05_b95f_0d00_50d8_ca81nat == 0x1d0_053f_6470_8267_47c2_aff4_4e7c_c919_7055_1548_8229_a7e3_ce9b_a089_dc62_f2e9_d274_2f50_b902_b1ad_04a6_1225nat);
    assert(0x1_551e_ff71_6157_4ff4_616e_cfb8_4205_35a5nat * 0x15d_5c09_8741_6139_2178_92b9_bce5_5f46_89a2_dd05_b95f_0d00_50d8_ca81nat == 0x1d1_85e6_13af_e520_525f_b81a_e363_a545_4bc4_971e_c07b_9c43_5d07_f449_c8c4_d57d_ad31_11b5_c9cb_c61a_342c_3a25nat);
    assert(0xc35nat * 0x4_0000_0000_0000_0000_0000_0000_0000_0000nat == 0x30d4_0000_0000_0000_0000_0000_0000_0000_0000nat);
    assert(0x985_d4bb_95d9_f49c_82c5_73d9_6884_7d75_d48f_0aa9_ce7a_e20b_4111nat * 0x30d4_0000_0000_0000_0000_0000_0000_0000_0000nat == 0x1d0_fab7_5770_f65b_ea21_513c_b3a3_653d_fd6e_d874_ab56_0825_4d85_1214_0000_0000_0000_0000_0000_0000_0000_0000nat);
    lemma_near_above(
        0x3e24_53f1, 0xa4_53f1, 123, 0x400, 0x30d4_0000_0000_0000_0000_0000_0000_0000_0000nat, 111,
        125525, 0x7_06d5_4434_aced,
        0x31_5fd8_6bbe_7ee4_e516_9d17_5369nat,
        0x45_2c59_9066_9ca1, 0x12b0_eff6_c049_6d6d_d948_5020_9d41nat,
        0x335_5fb5, 0xa_4b5f_02b9_d5f9, 0x69_f99d_0560_a0c8_230c_d8ba_4c31nat,
        0x335_e7b5, 0xa_4ec8_00aa_25f9, 0x6a_3fde_89f3_b073_8226_7455_ec31nat,
    );
}

/// The value 0x3e27_7eb7.
proof fn lemma_at_3e277eb7()
    ensures
        chord_code(0x3e27_7eb7, 0x3e25_5e8d, 0x3e2d_5e8d, 0x42e0_ab74, 0x42e5_ad1e) == 112,
{
    reveal(chord_code);
    lemma2_to64();
    lemma2_to64_rest();
    lemma_high_powers();
    assert(0xad_5e8d * 0x1 - 0xa5_5e8d * 0x1 == 0x8_0000);
    lemma_sum_known(0x3e2d_5e8d, 0x3e25_5e8d, true, 0xad_5e8d, 123, 0xa5_5e8d, 123, 0x1, 0x1, 0x8_0000, 20, 0x8_0000, 0x10);
    assert(sub_spec(0x3e2d_5e8d, 0x3e25_5e8d) == 0x3c00_0000);
    assert(0xa7_7eb7 * 0x1 - 0xa5_5e8d * 0x1 == 0x2_202a);
    lemma_sum_known(0x3e27_7eb7, 0x3e25_5e8d, true, 0xa7_7eb7, 123, 0xa5_5e8d, 123, 0x1, 0x1, 0x2_202a, 18, 0x2_0000, 0x40);
    assert(sub_spec(0x3e27_7eb7, 0x3e25_5e8d) == 0x3b08_0a80);
    assert(0xe5_ad1e * 0x1 - 0xe0_ab74 * 0x1 == 0x5_01aa);
    lemma_sum_known(0x42e5_ad1e, 0x42e0_ab74, true, 0xe5_ad1e, 132, 0xe0_ab74, 132, 0x1, 0x1, 0x5_01aa, 19, 0x4_0000, 0x20);
    assert(sub_spec(0x42e5_ad1e, 0x42e0_ab74) == 0x4020_3540);
    assert(0xa0_3540 * 0x88_0a80 == 0x5522_dc2f_2000);
    lemma_product_known(0x4020_3540, 0x3b08_0a80, 0xa0_3540, 127, 0x88_0a80, 117, 0x5522_dc2f_2000, 47, 0x4000_0000_0000, 0x80_0000);
    assert(mul_spec(0x4020_3540, 0x3b08_0a80) == 0x3baa_45b8);
    assert(0xaa_45b8 * 0x1_0000_0000_0000_0000 == 0x1_548b_7000_0000_0000 * 0x80_0000 + 0x0);
    lemma_quotient_known(0x3baa_45b8, 0x3c00_0000, 0xaa_45b8, 118, 0x80_0000, 119, 0x1_548b_7000_0000_0000, 0x0, 66, 0x2_0000_0000_0000_0000, 0x400_0000_0000);
    assert(div_spec(0x3baa_45b8, 0x3c00_0000) == 0x3f2a_45b8);
    assert(0xe0_ab74 * 0x80 + 0xaa_45b8 * 0x1 == 0x70ff_ffb8);
    lemma_sum_known(0x42e0_ab74, 0x3f2a_45b8, false, 0xe0_ab74, 132, 0xaa_45b8, 125, 0x80, 0x1, 0x70ff_ffb8, 31, 0x4000_0000, 0x80);
    assert(add_spec(0x42e0_ab74, 0x3f2a_45b8) == 0x42e1_ffff);
    lemma_whole_known(0x42e1_ffff, 0xe1_ffff, 132, 0x2_0000);
}

/// The value 0x3e27_7eb8.
proof fn lemma_at_3e277eb8()
    ensures
        chord_code(0x3e27_7eb8, 0x3e25_5e8d, 0x3e2d_5e8d, 0x42e0_ab74, 0x42e5_ad1e) == 113,
{
    reveal(chord_code);
    lemma2_to64();
    lemma2_to64_rest();
    lemma_high_powers();
    assert(0xad_5e8d * 0x1 - 0xa5_5e8d * 0x1 == 0x8_0000);
    lemma_sum_known(0x3e2d_5e8d, 0x3e25_5e8d, true, 0xad_5e8d, 123, 0xa5_5e8d, 123, 0x1, 0x1, 0x8_0000, 20, 0x8_0000, 0x10);
    assert(sub_spec(0x3e2d_5e8d, 0x3e25_5e8d) == 0x3c00_0000);
    assert(0xa7_7eb8 * 0x1 - 0xa5_5e8d * 0x1 == 0x2_202b);
    lemma_sum_known(0x3e27_7eb8, 0x3e25_5e8d, true, 0xa7_7eb8, 123, 0xa5_5e8d, 123, 0x1, 0x1, 0x2_202b, 18, 0x2_0000, 0x40);
    assert(sub_spec(0x3e27_7eb8, 0x3e25_5e8d) == 0x3b08_0ac0);
    assert(0xe5_ad1e * 0x1 - 0xe0_ab74 * 0x1 == 0x5_01aa);
    lemma_sum_known(0x42e5_ad1e, 0x42e0_ab74, true, 0xe5_ad1e, 132, 0xe0_ab74, 132, 0x1, 0x1, 0x5_01aa, 19, 0x4_0000, 0x20);
    assert(sub_spec(0x42e5_ad1e, 0x42e0_ab74) == 0x4020_3540);
    assert(0xa0_3540 * 0x88_0ac0 == 0x5523_043c_7000);
    lemma_product_known(0x4020_3540, 0x3b08_0ac0, 0xa0_3540, 127, 0x88_0ac0, 117, 0x5523_043c_7000, 47, 0x4000_0000_0000, 0x80_0000);
    assert(mul_spec(0x4020_3540, 0x3b08_0ac0) == 0x3baa_4608);
    assert(0xaa_4608 * 0x1_0000_0000_0000_0000 == 0x1_548c_1000_0000_0000 * 0x80_0000 + 0x0);
    lemma_quotient_known(0x3baa_4608, 0x3c00_0000, 0xaa_4608, 118, 0x80_0000, 119, 0x1_548c_1000_0000_0000, 0x0, 66, 0x2_0000_0000_0000_0000, 0x400_0000_0000);
    assert(div_spec(0x3baa_4608, 0x3c00_0000) == 0x3f2a_4608);
    assert(0xe0_ab74 * 0x80 + 0xaa_4608 * 0x1 == 0x7100_0008);
    lemma_sum_known(0x42e0_ab74, 0x3f2a_4608, false, 0xe0_ab74, 132, 0xaa_4608, 125, 0x80, 0x1, 0x7100_0008, 31, 0x4000_0000, 0x80);
    assert(add_spec(0x42e0_ab74, 0x3f2a_4608) == 0x42e2_0000);
    lemma_whole_known(0x42e2_0000, 0xe2_0000, 132, 0x2_0000);
}

/// The edge of code 112.
proof fn lemma_near_112()
    ensures
        near_exact_edge(0x3e27_7eb7, 112),
{
    lemma2_to64();
    lemma2_to64_rest();
    lemma_fifth_powers_of_two();
    lemma_more_fifth_powers_of_two();
    assert(126525nat * 126525 * 126525 == 0x7_322a_fbc4_90a5);
    assert(269025nat * 269025 * 269025 == 0x45_2c59_9066_9ca1);
    assert(0x7_322a_fbc4_90a5nat * 0x7_322a_fbc4_90a5 == 0x33_c82e_9650_45a0_f4b5_5c62_0a59nat);
    assert(0x33_c82e_9650_45a0_f4b5_5c62_0a59nat * 0x33_c82e_9650_45a0_f4b5_5c62_0a59nat == 0xa79_5f18_b753_8808_2f3a_56e4_2595_f9cd_5057_90f2_e6d5_e48f_12f1nat);
    assert(0x45_2c59_9066_9ca1nat * 0x45_2c59_9066_9ca1 == 0x12b0_eff6_c049_6d6d_d948_5020_9d41nat);
    assert(0x12b0_eff6_c049_6d6d_d948_5020_9d41nat * 0x12b0_eff6_c049_6d6d_d948_5020_9d41nat == 0x15d_5c09_8741_6139_2178_92b9_bce5_5f46_89a2_dd05_b95f_0d00_50d8_ca81nat);
    assert(0x345_3593nat * 0x345_3593 == 0xa_b1f7_5e74_3269);
    assert(0xa_b1f7_5e74_3269nat * 0xa_b1f7_5e74_3269 == 0x72_630b_60b8_04fc_0260_d515_2f11nat);
    assert(0x72_630b_60b8_04fc_0260_d515_2f11nat * 0x345_3593 == 0x1_7615_c463_7436_eea6_cfcc_17fa_a07d_8bc3nat);
    assert(0x345_bd93nat * 0x345_bd93 == 0xa_b571_2fa0_6269);
    assert(0xa_b571_2fa0_6269nat * 0xa_b571_2fa0_6269 == 0x72_ad70_f7eb_8fcf_a34f_b714_8f11nat);
    assert(0x72_ad70_f7eb_8fcf_a34f_b714_8f11nat * 0x345_bd93 == 0x1_7745_fe40_9414_7750_d36e_3728_1102_b3c3nat);
    assert(0x1_7615_c463_7436_eea6_cfcc_17fa_a07d_8bc3nat * 0x15d_5c09_8741_6139_2178_92b9_bce5_5f46_89a2_dd05_b95f_0d00_50d8_ca81nat == 0x1fe_822a_7a92_184f_37d0_81ae_4c6b_cb90_b253_1a6e_8920_dc93_9776_62fa_9b26_e35e_1762_1244_76d8_6488_cc13_4b43nat);
    assert(0x1_7745_fe40_9414_7750_d36e_3728_1102_b3c3nat * 0x15d_5c09_8741_6139_2178_92b9_bce5_5f46_89a2_dd05_b95f_0d00_50d8_ca81nat == 0x200_2156_bd24_c5c2_1a42_b95a_93f3_c878_dfdd_6b5d_6574_ecd7_10ea_d7af_0b9b_0522_7e53_e35f_54ac_8211_50bc_7343nat);
    assert(0xc35nat * 0x4_0000_0000_0000_0000_0000_0000_0000_0000nat == 0x30d4_0000_0000_0000_0000_0000_0000_0000_0000nat);
    assert(0xa79_5f18_b753_8808_2f3a_56e4_2595_f9cd_5057_90f2_e6d5_e48f_12f1nat * 0x30d4_0000_0000_0000_0000_0000_0000_0000_0000nat == 0x1ff_6e57_62d7_7aae_2fa2_0c9a_bbfb_3f09_5d16_f3b1_946f_43fc_1a08_df94_0000_0000_0000_0000_0000_0000_0000_0000nat);
    lemma_near_above(
        0x3e27_7eb7, 0xa7_7eb7, 123, 0x400, 0x30d4_0000_0000_0000_0000_0000_0000_0000_0000nat, 112,
        126525, 0x7_322a_fbc4_90a5,
        0x33_c82e_9650_45a0_f4b5_5c62_0a59nat,
        0x45_2c59_9066_9ca1, 0x12b0_eff6_c049_6d6d_d948_5020_9d41nat,
        0x345_3593, 0xa_b1f7_5e74_3269, 0x72_630b_60b8_04fc_0260_d515_2f11nat,
        0x345_bd93, 0xa_b571_2fa0_6269, 0x72_ad70_f7eb_8fcf_a34f_b714_8f11nat,
    );
}

/// The value 0x3e2a_b0d9.
proof fn lemma_at_3e2ab0d9()
    ensures
        chord_code(0x3e2a_b0d9, 0x3e25_5e8d, 0x3e2d_5e8d, 0x42e0_ab74, 0x42e5_ad1e) == 113,
{
    reveal(chord_code);
    lemma2_to64();
    lemma2_to64_rest();
    lemma_high_powers();
    assert(0xad_5e8d * 0x1 - 0xa5_5e8d * 0x1 == 0x8_0000);
    lemma_sum_known(0x3e2d_5e8d, 0x3e25_5e8d, true, 0xad_5e8d, 123, 0xa5_5e8d, 123, 0x1, 0x1, 0x8_0000, 20, 0x8_0000, 0x10);
    assert(sub_spec(0x3e2d_5e8d, 0x3e25_5e8d) == 0x3c00_0000);
    assert(0xaa_b0d9 * 0x1 - 0xa5_5e8d * 0x1 == 0x5_524c);
    lemma_sum_known(0x3e2a_b0d9, 0x3e25_5e8d, true, 0xaa_b0d9, 123, 0xa5_5e8d, 123, 0x1, 0x1, 0x5_524c, 19, 0x4_0000, 0x20);
    assert(sub_spec(0x3e2a_b0d9, 0x3e25_5e8d) == 0x3baa_4980);
    assert(0xe5_ad1e * 0x1 - 0xe0_ab74 * 0x1 == 0x5_01aa);
    lemma_sum_known(0x42e5_ad1e, 0x42e0_ab74, true, 0xe5_ad1e, 132, 0xe0_ab74, 132, 0x1, 0x1, 0x5_01aa, 19, 0x4_0000, 0x20);
    assert(sub_spec(0x42e5_ad1e, 0x42e0_ab74) == 0x4020_3540);
    assert(0xa0_3540 * 0xaa_4980 == 0x6a91_5bc9_e000);
    lemma_product_known(0x4020_3540, 0x3baa_4980, 0xa0_3540, 127, 0xaa_4980, 118, 0x6a91_5bc9_e000, 47, 0x4000_0000_0000, 0x80_0000);
    assert(mul_spec(0x4020_3540, 0x3baa_4980) == 0x3c55_22b8);
    assert(0xd5_22b8 * 0x1_0000_0000_0000_0000 == 0x1_aa45_7000_0000_0000 * 0x80_0000 + 0x0);
    lemma_quotient_known(0x3c55_22b8, 0x3c00_0000, 0xd5_22b8, 119, 0x80_0000, 119, 0x1_aa45_7000_0000_0000, 0x0, 66, 0x2_0000_0000_0000_0000, 0x400_0000_0000);
    assert(div_spec(0x3c55_22b8, 0x3c00_0000) == 0x3fd5_22b8);
    assert(0xe0_ab74 * 0x40 + 0xd5_22b8 * 0x1 == 0x38ff_ffb8);
    lemma_sum_known(0x42e0_ab74, 0x3fd5_22b8, false, 0xe0_ab74, 132, 0xd5_22b8, 126, 0x40, 0x1, 0x38ff_ffb8, 30, 0x2000_0000, 0x40);
    assert(add_spec(0x42e0_ab74, 0x3fd5_22b8) == 0x42e3_ffff);
    lemma_whole_known(0x42e3_ffff, 0xe3_ffff, 132, 0x2_0000);
}

/// The value 0x3e2a_b0da.
proof fn lemma_at_3e2ab0da()
    ensures
        chord_code(0x3e2a_b0da, 0x3e25_5e8d, 0x3e2d_5e8d, 0x42e0_ab74, 0x42e5_ad1e) == 114,
{
    reveal(chord_code);
    lemma2_to64();
    lemma2_to64_rest();
    lemma_high_powers();
    assert(0xad_5e8d * 0x1 - 0xa5_5e8d * 0x1 == 0x8_0000);
    lemma_sum_known(0x3e2d_5e8d, 0x3e25_5e8d, true, 0xad_5e8d, 123, 0xa5_5e8d, 123, 0x1, 0x1, 0x8_0000, 20, 0x8_0000, 0x10);
    assert(sub_spec(0x3e2d_5e8d, 0x3e25_5e8d) == 0x3c00_0000);
    assert(0xaa_b0da * 0x1 - 0xa5_5e8d * 0x1 == 0x5_524d);
    lemma_sum_known(0x3e2a_b0da, 0x3e25_5e8d, true, 0xaa_b0da, 123, 0xa5_5e8d, 123, 0x1, 0x1, 0x5_524d, 19, 0x4_0000, 0x20);
    assert(sub_spec(0x3e2a_b0da, 0x3e25_5e8d) == 0x3baa_49a0);
    assert(0xe5_ad1e * 0x1 - 0xe0_ab74 * 0x1 == 0x5_01aa);
    lemma_sum_known(0x42e5_ad1e, 0x42e0_ab74, true, 0xe5_ad1e, 132, 0xe0_ab74, 132, 0x1, 0x1, 0x5_01aa, 19, 0x4_0000, 0x20);
    assert(sub_spec(0x42e5_ad1e, 0x42e0_ab74) == 0x4020_3540);
    assert(0xa0_3540 * 0xaa_49a0 == 0x6a91_6fd0_8800);
    lemma_product_known(0x4020_3540, 0x3baa_49a0, 0xa0_3540, 127, 0xaa_49a0, 118, 0x6a91_6fd0_8800, 47, 0x4000_0000_0000, 0x80_0000);
    assert(mul_spec(0x4020_3540, 0x3baa_49a0) == 0x3c55_22e0);
    assert(0xd5_22e0 * 0x1_0000_0000_0000_0000 == 0x1_aa45_c000_0000_0000 * 0x80_0000 + 0x0);
    lemma_quotient_known(0x3c55_22e0, 0x3c00_0000, 0xd5_22e0, 119, 0x80_0000, 119, 0x1_aa45_c000_0000_0000, 0x0, 66, 0x2_0000_0000_0000_0000, 0x400_0000_0000);
    assert(div_spec(0x3c55_22e0, 0x3c00_0000) == 0x3fd5_22e0);
    assert(0xe0_ab74 * 0x40 + 0xd5_22e0 * 0x1 == 0x38ff_ffe0);
    lemma_sum_known(0x42e0_ab74, 0x3fd5_22e0, false, 0xe0_ab74, 132, 0xd5_22e0, 126, 0x40, 0x1, 0x38ff_ffe0, 30, 0x2000_0000, 0x40);
    assert(add_spec(0x42e0_ab74, 0x3fd5_22e0) == 0x42e4_0000);
    lemma_whole_known(0x42e4_0000, 0xe4_0000, 132, 0x2_0000);
}

/// The edge of code 113.
proof fn lemma_near_113()
    ensures
        near_exact_edge(0x3e2a_b0d9, 113),
{
    lemma2_to64();
    lemma2_to64_rest();
    lemma_fifth_powers_of_two();
    lemma_more_fifth_powers_of_two();
    assert(127525nat * 127525 * 127525 == 0x7_5e31_7432_2bdd);
    assert(269025nat * 269025 * 269025 == 0x45_2c59_9066_9ca1);
    assert(0x7_5e31_7432_2bddnat * 0x7_5e31_7432_2bdd == 0x36_495c_b5a0_ee3e_982f_71d7_fcc9nat);
    assert(0x36_495c_b5a0_ee3e_982f_71d7_fcc9nat * 0x36_495c_b5a0_ee3e_982f_71d7_fcc9nat == 0xb83_0822_a10d_56d0_19db_a74f_6ac4_5509_53df_a979_e532_053a_55d1nat);
    assert(0x45_2c59_9066_9ca1nat * 0x45_2c59_9066_9ca1 == 0x12b0_eff6_c049_6d6d_d948_5020_9d41nat);
    assert(0x12b0_eff6_c049_6d6d_d948_5020_9d41nat * 0x12b0_eff6_c049_6d6d_d948_5020_9d41nat == 0x15d_5c09_8741_6139_2178_92b9_bce5_5f46_89a2_dd05_b95f_0d00_50d8_ca81nat);
    assert(0x355_303dnat * 0x355_303d == 0xb_1b7a_7f98_ee89);
    assert(0xb_1b7a_7f98_ee89nat * 0xb_1b7a_7f98_ee89 == 0x7b_5f7a_08ac_9f73_589c_0ef3_0551nat);
    assert(0x7b_5f7a_08ac_9f73_589c_0ef3_0551nat * 0x355_303d == 0x1_9b2c_60eb_88e3_ba5d_df17_2fbd_d7cc_744dnat);
    assert(0x355_b83dnat * 0x355_b83d == 0xb_1f05_4b19_be89);
    assert(0xb_1f05_4b19_be89nat * 0xb_1f05_4b19_be89 == 0x7b_ae36_bc82_a0f4_b795_0a91_a551nat);
    assert(0x7b_ae36_bc82_a0f4_b795_0a91_a551nat * 0x355_b83d == 0x1_9c74_7f11_f9cb_1e37_f1df_1568_0a6b_9c4dnat);
    assert(0x1_9b2c_60eb_88e3_ba5d_df17_2fbd_d7cc_744dnat * 0x15d_5c09_8741_6139_2178_92b9_bce5_5f46_89a2_dd05_b95f_0d00_50d8_ca81nat == 0x231_1f53_61bb_1577_1d4f_7974_465f_eb66_ff36_a3cc_6abd_3181_18c1_4db3_cb18_d632_dbab_ad32_8173_bccb_42c3_5ccdnat);
    assert(0x1_9c74_7f11_f9cb_1e37_f1df_1568_0a6b_9c4dnat * 0x15d_5c09_8741_6139_2178_92b9_bce5_5f46_89a2_dd05_b95f_0d00_50d8_ca81nat == 0x232_df1a_732f_3c89_e792_d38f_2f6c_c9ba_4853_6597_7760_d9e6_6d74_16b1_3ad6_fe58_ccf8_9ae0_97db_364a_1a86_84cdnat);
    assert(0xc35nat * 0x4_0000_0000_0000_0000_0000_0000_0000_0000nat == 0x30d4_0000_0000_0000_0000_0000_0000_0000_0000nat);
    assert(0xb83_0822_a10d_56d0_19db_a74f_6ac4_5509_53df_a979_e532_053a_55d1nat * 0x30d4_0000_0000_0000_0000_0000_0000_0000_0000nat == 0x232_1a09_3adf_df52_e92e_9945_71c9_3a88_2b73_64ff_33eb_2e67_4466_4114_0000_0000_0000_0000_0000_0000_0000_0000nat);
    lemma_near_above(
        0x3e2a_b0d9, 0xaa_b0d9, 123, 0x400, 0x30d4_0000_0000_0000_0000_0000_0000_0000_0000nat, 113,
        127525, 0x7_5e31_7432_2bdd,
        0x36_495c_b5a0_ee3e_982f_71d7_fcc9nat,
        0x45_2c59_9066_9ca1, 0x12b0_eff6_c049_6d6d_d948_5020_9d41nat,
        0x355_303d, 0xb_1b7a_7f98_ee89, 0x7b_5f7a_08ac_9f73_589c_0ef3_0551nat,
        0x355_b83d, 0xb_1f05_4b19_be89, 0x7b_ae36_bc82_a0f4_b795_0a91_a551nat,
    );
}

/// The value 0x3e2d_e6cf.
proof fn lemma_at_3e2de6cf()
    ensures
        chord_code(0x3e2d_e6cf, 0x3e2d_5e8d, 0x3e35_5e8d, 0x42e5_ad1e, 0x42ea_8ad8) == 114,
{
    reveal(chord_code);
    lemma2_to64();
    lemma2_to64_rest();
    lemma_high_powers();
    assert(0xb5_5e8d * 0x1 - 0xad_5e8d * 0x1 == 0x8_0000);
    lemma_sum_known(0x3e35_5e8d, 0x3e2d_5e8d, true, 0xb5_5e8d, 123, 0xad_5e8d, 123, 0x1, 0x1, 0x8_0000, 20, 0x8_0000, 0x10);
    assert(sub_spec(0x3e35_5e8d, 0x3e2d_5e8d) == 0x3c00_0000);
    assert(0xad_e6cf * 0x1 - 0xad_5e8d * 0x1 == 0x8842);
    lemma_sum_known(0x3e2d_e6cf, 0x3e2d_5e8d, true, 0xad_e6cf, 123, 0xad_5e8d, 123, 0x1, 0x1, 0x8842, 16, 0x8000, 0x100);
    assert(sub_spec(0x3e2d_e6cf, 0x3e2d_5e8d) == 0x3a08_4200);
    assert(0xea_8ad8 * 0x1 - 0xe5_ad1e * 0x1 == 0x4_ddba);
    lemma_sum_known(0x42ea_8ad8, 0x42e5_ad1e, true, 0xea_8ad8, 132, 0xe5_ad1e, 132, 0x1, 0x1, 0x4_ddba, 19, 0x4_0000, 0x20);
    assert(sub_spec(0x42ea_8ad8, 0x42e5_ad1e) == 0x401b_b740);
    assert(0x9b_b740 * 0x88_4200 == 0x52e1_7f3e_8000);
    lemma_product_known(0x401b_b740, 0x3a08_4200, 0x9b_b740, 127, 0x88_4200, 115, 0x52e1_7f3e_8000, 47, 0x4000_0000_0000, 0x80_0000);
    assert(mul_spec(0x401b_b740, 0x3a08_4200) == 0x3aa5_c2fe);
    assert(0xa5_c2fe * 0x1_0000_0000_0000_0000 == 0x1_4b85_fc00_0000_0000 * 0x80_0000 + 0x0);
    lemma_quotient_known(0x3aa5_c2fe, 0x3c00_0000, 0xa5_c2fe, 116, 0x80_0000, 119, 0x1_4b85_fc00_0000_0000, 0x0, 66, 0x2_0000_0000_0000_0000, 0x400_0000_0000);
    assert(div_spec(0x3aa5_c2fe, 0x3c00_0000) == 0x3e25_c2fe);
    assert(0xe5_ad1e * 0x200 + 0xa5_c2fe * 0x1 == 0x1_cbff_fefe);
    lemma_sum_known(0x42e5_ad1e, 0x3e25_c2fe, false, 0xe5_ad1e, 132, 0xa5_c2fe, 123, 0x200, 0x1, 0x1_cbff_fefe, 33, 0x1_0000_0000, 0x200);
    assert(add_spec(0x42e5_ad1e, 0x3e25_c2fe) == 0x42e5_ffff);
    lemma_whole_known(0x42e5_ffff, 0xe5_ffff, 132, 0x2_0000);
}

/// The value 0x3e2d_e6d0.
proof fn lemma_at_3e2de6d0()
    ensures
        chord_code(0x3e2d_e6d0, 0x3e2d_5e8d, 0x3e35_5e8d, 0x42e5_ad1e, 0x42ea_8ad8) == 115,
{
    reveal(chord_code);
    lemma2_to64();
    lemma2_to64_rest();
    lemma_high_powers();
    assert(0xb5_5e8d * 0x1 - 0xad_5e8d * 0x1 == 0x8_0000);
    lemma_sum_known(0x3e35_5e8d, 0x3e2d_5e8d, true, 0xb5_5e8d, 123, 0xad_5e8d, 123, 0x1, 0x1, 0x8_0000, 20, 0x8_0000, 0x10);
    assert(sub_spec(0x3e35_5e8d, 0x3e2d_5e8d) == 0x3c00_0000);
    assert(0xad_e6d0 * 0x1 - 0xad_5e8d * 0x1 == 0x8843);
    lemma_sum_known(0x3e2d_e6d0, 0x3e2d_5e8d, true, 0xad_e6d0, 123, 0xad_5e8d, 123, 0x1, 0x1, 0x8843, 16, 0x8000, 0x100);
    assert(sub_spec(0x3e2d_e6d0, 0x3e2d_5e8d) == 0x3a08_4300);
    assert(0xea_8ad8 * 0x1 - 0xe5_ad1e * 0x1 == 0x4_ddba);
    lemma_sum_known(0x42ea_8ad8, 0x42e5_ad1e, true, 0xea_8ad8, 132, 0xe5_ad1e, 132, 0x1, 0x1, 0x4_ddba, 19, 0x4_0000, 0x20);
    assert(sub_spec(0x42ea_8ad8, 0x42e5_ad1e) == 0x401b_b740);
    assert(0x9b_b740 * 0x88_4300 == 0x52e2_1af5_c000);
    lemma_product_known(0x401b_b740, 0x3a08_4300, 0x9b_b740, 127, 0x88_4300, 115, 0x52e2_1af5_c000, 47, 0x4000_0000_0000, 0x80_0000);
    assert(mul_spec(0x401b_b740, 0x3a08_4300) == 0x3aa5_c436);
    assert(0xa5_c436 * 0x1_0000_0000_0000_0000 == 0x1_4b88_6c00_0000_0000 * 0x80_0000 + 0x0);
    lemma_quotient_known(0x3aa5_c436, 0x3c00_0000, 0xa5_c436, 116, 0x80_0000, 119, 0x1_4b88_6c00_0000_0000, 0x0, 66, 0x2_0000_0000_0000_0000, 0x400_0000_0000);
    assert(div_spec(0x3aa5_c436, 0x3c00_0000) == 0x3e25_c436);
    assert(0xe5_ad1e * 0x200 + 0xa5_c436 * 0x1 == 0x1_cc00_0036);
    lemma_sum_known(0x42e5_ad1e, 0x3e25_c436, false, 0xe5_ad1e, 132, 0xa5_c436, 123, 0x200, 0x1, 0x1_cc00_0036, 33, 0x1_0000_0000, 0x200);
    assert(add_spec(0x42e5_ad1e, 0x3e25_c436) == 0x42e6_0000);
    lemma_whole_known(0x42e6_0000, 0xe6_0000, 132, 0x2_0000);
}

/// The edge of code 114.
proof fn lemma_near_114()
    ensures
        near_exact_edge(0x3e2d_e6cf, 114),
{
    lemma2_to64();
    lemma2_to64_rest();
    lemma_fifth_powers_of_two();
    lemma_more_fifth_powers_of_two();
    assert(128525nat * 128525 * 128525 == 0x7_8aea_131e_3a95);
    assert(269025nat * 269025 * 269025 == 0x45_2c59_9066_9ca1);
    assert(0x7_8aea_131e_3a95nat * 0x7_8aea_131e_3a95 == 0x38_e42e_3e4a_bfff_3ca7_e653_dab9nat);
    assert(0x38_e42e_3e4a_bfff_3ca7_e653_dab9nat * 0x38_e42e_3e4a_bfff_3ca7_e653_dab9nat == 0xca4_9f9d_a803_97ae_780c_d43b_144a_5775_2c77_69b6_ddd9_fad5_99b1nat);
    assert(0x45_2c59_9066_9ca1nat * 0x45_2c59_9066_9ca1 == 0x12b0_eff6_c049_6d6d_d948_5020_9d41nat);
    assert(0x12b0_eff6_c049_6d6d_d948_5020_9d41nat * 0x12b0_eff6_c049_6d6d_d948_5020_9d41nat == 0x15d_5c09_8741_6139_2178_92b9_bce5_5f46_89a2_dd05_b95f_0d00_50d8_ca81nat);
    assert(0x365_3e0bnat * 0x365_3e0b == 0xb_877e_45b7_5479);
    assert(0xb_877e_45b7_5479nat * 0xb_877e_45b7_5479 == 0x84_ec90_6991_50f1_1bef_1add_a131nat);
    assert(0x84_ec90_6991_50f1_1bef_1add_a131nat * 0x365_3e0b == 0x1_c357_3d37_7e0d_7d4c_b1c6_4e1b_ffe4_cb1bnat);
    assert(0x365_c60bnat * 0x365_c60b == 0xb_8b1a_1fe3_0479);
    assert(0xb_8b1a_1fe3_0479nat * 0xb_8b1a_1fe3_0479 == 0x85_3fd4_1ecd_6757_12fa_3caa_0131nat);
    assert(0x85_3fd4_1ecd_6757_12fa_3caa_0131nat * 0x365_c60b == 0x1_c4b8_c024_5d2f_fb54_34db_48c2_238e_f31bnat);
    assert(0x1_c357_3d37_7e0d_7d4c_b1c6_4e1b_ffe4_cb1bnat * 0x15d_5c09_8741_6139_2178_92b9_bce5_5f46_89a2_dd05_b95f_0d00_50d8_ca81nat == 0x267_f032_9b2e_367b_af40_ec04_812a_8245_1529_78d9_fc02_6655_f970_f1ec_55d2_0157_a11a_9eda_367c_3b8a_4955_a69bnat);
    assert(0x1_c4b8_c024_5d2f_fb54_34db_48c2_238e_f31bnat * 0x15d_5c09_8741_6139_2178_92b9_bce5_5f46_89a2_dd05_b95f_0d00_50d8_ca81nat == 0x269_d2a1_304f_e959_264f_b8df_96e4_7e7b_021e_a0ee_0c0e_7096_0363_6d61_4927_01f3_033d_a0f5_b530_e578_45a3_ce9bnat);
    assert(0xc35nat * 0x4_0000_0000_0000_0000_0000_0000_0000_0000nat == 0x30d4_0000_0000_0000_0000_0000_0000_0000_0000nat);
    assert(0xca4_9f9d_a803_97ae_780c_d43b_144a_5775_2c77_69b6_ddd9_fad5_99b1nat * 0x30d4_0000_0000_0000_0000_0000_0000_0000_0000nat == 0x269_5641_be0f_cf6a_52fd_d26a_d4ba_bdf6_655f_36b5_d508_978b_c5b4_7694_0000_0000_0000_0000_0000_0000_0000_0000nat);
    lemma_near_above(
        0x3e2d_e6cf, 0xad_e6cf, 123, 0x400, 0x30d4_0000_0000_0000_0000_0000_0000_0000_0000nat, 114,
        128525, 0x7_8aea_131e_3a95,
        0x38_e42e_3e4a_bfff_3ca7_e653_dab9nat,
        0x45_2c59_9066_9ca1, 0x12b0_eff6_c049_6d6d_d948_5020_9d41nat,
        0x365_3e0b, 0xb_877e_45b7_5479, 0x84_ec90_6991_50f1_1bef_1add_a131nat,
        0x365_c60b, 0xb_8b1a_1fe3_0479, 0x85_3fd4_1ecd_6757_12fa_3caa_0131nat,
    );
}

/// The value 0x3e31_308c.
proof fn lemma_at_3e31308c()
    ensures
        chord_code(0x3e31_308c, 0x3e2d_5e8d, 0x3e35_5e8d, 0x42e5_ad1e, 0x42ea_8ad8) == 115,
{
    reveal(chord_code);
    lemma2_to64();
    lemma2_to64_rest();
    lemma_high_powers();
    assert(0xb5_5e8d * 0x1 - 0xad_5e8d * 0x1 == 0x8_0000);
    lemma_sum_known(0x3e35_5e8d, 0x3e2d_5e8d, true, 0xb5_5e8d, 123, 0xad_5e8d, 123, 0x1, 0x1, 0x8_0000, 20, 0x8_0000, 0x10);
    assert(sub_spec(0x3e35_5e8d, 0x3e2d_5e8d) == 0x3c00_0000);
    assert(0xb1_308c * 0x1 - 0xad_5e8d * 0x1 == 0x3_d1ff);
    lemma_sum_known(0x3e31_308c, 0x3e2d_5e8d, true, 0xb1_308c, 123, 0xad_5e8d, 123, 0x1, 0x1, 0x3_d1ff, 18, 0x2_0000, 0x40);
    assert(sub_spec(0x3e31_308c, 0x3e2d_5e8d) == 0x3b74_7fc0);
    assert(0xea_8ad8 * 0x1 - 0xe5_ad1e * 0x1 == 0x4_ddba);
    lemma_sum_known(0x42ea_8ad8, 0x42e5_ad1e, true, 0xea_8ad8, 132, 0xe5_ad1e, 132, 0x1, 0x1, 0x4_ddba, 19, 0x4_0000, 0x20);
    assert(sub_spec(0x42ea_8ad8, 0x42e5_ad1e) == 0x401b_b740);
    assert(0x9b_b740 * 0xf4_7fc0 == 0x94b8_5db2_3000);
    lemma_product_known(0x401b_b740, 0x3b74_7fc0, 0x9b_b740, 127, 0xf4_7fc0, 117, 0x94b8_5db2_3000, 48, 0x8000_0000_0000, 0x100_0000);
    assert(mul_spec(0x401b_b740, 0x3b74_7fc0) == 0x3c14_b85e);
    assert(0x94_b85e * 0x1_0000_0000_0000_0000 == 0x1_2970_bc00_0000_0000 * 0x80_0000 + 0x0);
    lemma_quotient_known(0x3c14_b85e, 0x3c00_0000, 0x94_b85e, 119, 0x80_0000, 119, 0x1_2970_bc00_0000_0000, 0x0, 66, 0x2_0000_0000_0000_0000, 0x400_0000_0000);
    assert(div_spec(0x3c14_b85e, 0x3c00_0000) == 0x3f94_b85e);
    assert(0xe5_ad1e * 0x40 + 0x94_b85e * 0x1 == 0x39ff_ffde);
    lemma_sum_known(0x42e5_ad1e, 0x3f94_b85e, false, 0xe5_ad1e, 132, 0x94_b85e, 126, 0x40, 0x1, 0x39ff_ffde, 30, 0x2000_0000, 0x40);
    assert(add_spec(0x42e5_ad1e, 0x3f94_b85e) == 0x42e7_ffff);
    lemma_whole_known(0x42e7_ffff, 0xe7_ffff, 132, 0x2_0000);
}

/// The value 0x3e31_308d.
proof fn lemma_at_3e31308d()
    ensures
        chord_code(0x3e31_308d, 0x3e2d_5e8d, 0x3e35_5e8d, 0x42e5_ad1e, 0x42ea_8ad8) == 116,
{
    reveal(chord_code);
    lemma2_to64();
    lemma2_to64_rest();
    lemma_high_powers();
    assert(0xb5_5e8d * 0x1 - 0xad_5e8d * 0x1 == 0x8_0000);
    lemma_sum_known(0x3e35_5e8d, 0x3e2d_5e8d, true, 0xb5_5e8d, 123, 0xad_5e8d, 123, 0x1, 0x1, 0x8_0000, 20, 0x8_0000, 0x10);
    assert(sub_spec(0x3e35_5e8d, 0x3e2d_5e8d) == 0x3c00_0000);
    assert(0xb1_308d * 0x1 - 0xad_5e8d * 0x1 == 0x3_d200);
    lemma_sum_known(0x3e31_308d, 0x3e2d_5e8d, true, 0xb1_308d, 123, 0xad_5e8d, 123, 0x1, 0x1, 0x3_d200, 18, 0x2_0000, 0x40);
    assert(sub_spec(0x3e31_308d, 0x3e2d_5e8d) == 0x3b74_8000);
    assert(0xea_8ad8 * 0x1 - 0xe5_ad1e * 0x1 == 0x4_ddba);
    lemma_sum_known(0x42ea_8ad8, 0x42e5_ad1e, true, 0xea_8ad8, 132, 0xe5_ad1e, 132, 0x1, 0x1, 0x4_ddba, 19, 0x4_0000, 0x20);
    assert(sub_spec(0x42ea_8ad8, 0x42e5_ad1e) == 0x401b_b740);
    assert(0x9b_b740 * 0xf4_8000 == 0x94b8_84a0_0000);
    lemma_product_known(0x401b_b740, 0x3b74_8000, 0x9b_b740, 127, 0xf4_8000, 117, 0x94b8_84a0_0000, 48, 0x8000_0000_0000, 0x100_0000);
    assert(mul_spec(0x401b_b740, 0x3b74_8000) == 0x3c14_b885);
    assert(0x94_b885 * 0x1_0000_0000_0000_0000 == 0x1_2971_0a00_0000_0000 * 0x80_0000 + 0x0);
    lemma_quotient_known(0x3c14_b885, 0x3c00_0000, 0x94_b885, 119, 0x80_0000, 119, 0x1_2971_0a00_0000_0000, 0x0, 66, 0x2_0000_0000_0000_0000, 0x400_0000_0000);
    assert(div_spec(0x3c14_b885, 0x3c00_0000) == 0x3f94_b885);
    assert(0xe5_ad1e * 0x40 + 0x94_b885 * 0x1 == 0x3a00_0005);
    lemma_sum_known(0x42e5_ad1e, 0x3f94_b885, false, 0xe5_ad1e, 132, 0x94_b885, 126, 0x40, 0x1, 0x3a00_0005, 30, 0x2000_0000, 0x40);
    assert(add_spec(0x42e5_ad1e, 0x3f94_b885) == 0x42e8_0000);
    lemma_whole_known(0x42e8_0000, 0xe8_0000, 132, 0x2_0000);
}

/// The edge of code 115.
proof fn lemma_near_115()
    ensures
        near_exact_edge(0x3e31_308c, 115),
{
    lemma2_to64();
    lemma2_to64_rest();
    lemma_fifth_powers_of_two();
    lemma_more_fifth_powers_of_two();
    assert(129525nat * 129525 * 129525 == 0x7_b856_3e29_78cd);
    assert(269025nat * 269025 * 269025 == 0x45_2c59_9066_9ca1);
    assert(0x7_b856_3e29_78cdnat * 0x7_b856_3e29_78cd == 0x3b_9973_7cae_0bd1_f6f7_36aa_d429nat);
    assert(0x3b_9973_7cae_0bd1_f6f7_36aa_d429nat * 0x3b_9973_7cae_0bd1_f6f7_36aa_d429nat == 0xde0_1736_b75a_be00_7f92_0d68_066b_d930_1cb0_ca02_b69d_c247_ee91nat);
    assert(0x45_2c59_9066_9ca1nat * 0x45_2c59_9066_9ca1 == 0x12b0_eff6_c049_6d6d_d948_5020_9d41nat);
    assert(0x12b0_eff6_c049_6d6d_d948_5020_9d41nat * 0x12b0_eff6_c049_6d6d_d948_5020_9d41nat == 0x15d_5c09_8741_6139_2178_92b9_bce5_5f46_89a2_dd05_b95f_0d00_50d8_ca81nat);
    assert(0x375_aebcnat * 0x375_aebc == 0xb_f831_971c_1a10);
    assert(0xb_f831_971c_1a10nat * 0xb_f831_971c_1a10 == 0x8f_44e3_1acb_e1d3_23f4_9627_4100nat);
    assert(0x8f_44e3_1acb_e1d3_23f4_9627_4100nat * 0x375_aebc == 0x1_efaa_ef24_95d1_f022_a609_bb60_a801_bc00nat);
    assert(0x376_36bcnat * 0x376_36bc == 0xb_fbde_e903_da10);
    assert(0xb_fbde_e903_da10nat * 0xb_fbde_e903_da10 == 0x8f_9cf6_e55b_41c1_96bf_f61f_4100nat);
    assert(0x8f_9cf6_e55b_41c1_96bf_f61f_4100nat * 0x376_36bc == 0x1_f127_f311_2387_42e2_dc55_030e_4ca9_bc00nat);
    assert(0x1_efaa_ef24_95d1_f022_a609_bb60_a801_bc00nat * 0x15d_5c09_8741_6139_2178_92b9_bce5_5f46_89a2_dd05_b95f_0d00_50d8_ca81nat == 0x2a4_6e3b_e5b5_8816_7bb0_990c_dba7_dd4b_daf6_e10c_50f5_89f3_4638_bdef_5ed3_8cea_3784_a946_815b_fc7c_a737_bc00nat);
    assert(0x1_f127_f311_2387_42e2_dc55_030e_4ca9_bc00nat * 0x15d_5c09_8741_6139_2178_92b9_bce5_5f46_89a2_dd05_b95f_0d00_50d8_ca81nat == 0x2a6_7633_3aca_2ce6_e226_85f2_e0c7_af94_d126_3ce3_08cd_e90f_c796_9997_84d9_211f_bdad_b098_89d1_8ca9_2fdf_bc00nat);
    assert(0xc35nat * 0x4_0000_0000_0000_0000_0000_0000_0000_0000nat == 0x30d4_0000_0000_0000_0000_0000_0000_0000_0000nat);
    assert(0xde0_1736_b75a_be00_7f92_0d68_066b_d930_1cb0_ca02_b69d_c247_ee91nat * 0x30d4_0000_0000_0000_0000_0000_0000_0000_0000nat == 0x2a5_81ed_7bb0_dac5_7055_0776_9b59_8a08_e138_e847_cc7c_cf12_604c_c014_0000_0000_0000_0000_0000_0000_0000_0000nat);
    lemma_near_above(
        0x3e31_308c, 0xb1_308c, 123, 0x400, 0x30d4_0000_0000_0000_0000_0000_0000_0000_0000nat, 115,
        129525, 0x7_b856_3e29_78cd,
        0x3b_9973_7cae_0bd1_f6f7_36aa_d429nat,
        0x45_2c59_9066_9ca1, 0x12b0_eff6_c049_6d6d_d948_5020_9d41nat,
        0x375_aebc, 0xb_f831_971c_1a10, 0x8f_44e3_1acb_e1d3_23f4_9627_4100nat,
        0x376_36bc, 0xb_fbde_e903_da10, 0x8f_9cf6_e55b_41c1_96bf_f61f_4100nat,
    );
}

/// The value 0x3e34_7a49.
proof fn lemma_at_3e347a49()
    ensures
        chord_code(0x3e34_7a49, 0x3e2d_5e8d, 0x3e35_5e8d, 0x42e5_ad1e, 0x42ea_8ad8) == 116,
{
    reveal(chord_code);
    lemma2_to64();
    lemma2_to64_rest();
    lemma_high_powers();
    assert(0xb5_5e8d * 0x1 - 0xad_5e8d * 0x1 == 0x8_0000);
    lemma_sum_known(0x3e35_5e8d, 0x3e2d_5e8d, true, 0xb5_5e8d, 123, 0xad_5e8d, 123, 0x1, 0x1, 0x8_0000, 20, 0x8_0000, 0x10);
    assert(sub_spec(0x3e35_5e8d, 0x3e2d_5e8d) == 0x3c00_0000);
    assert(0xb4_7a49 * 0x1 - 0xad_5e8d * 0x1 == 0x7_1bbc);
    lemma_sum_known(0x3e34_7a49, 0x3e2d_5e8d, true, 0xb4_7a49, 123, 0xad_5e8d, 123, 0x1, 0x1, 0x7_1bbc, 19, 0x4_0000, 0x20);
    assert(sub_spec(0x3e34_7a49, 0x3e2d_5e8d) == 0x3be3_7780);
    assert(0xea_8ad8 * 0x1 - 0xe5_ad1e * 0x1 == 0x4_ddba);
    lemma_sum_known(0x42ea_8ad8, 0x42e5_ad1e, true, 0xea_8ad8, 132, 0xe5_ad1e, 132, 0x1, 0x1, 0x4_ddba, 19, 0x4_0000, 0x20);
    assert(sub_spec(0x42ea_8ad8, 0x42e5_ad1e) == 0x401b_b740);
    assert(0x9b_b740 * 0xe3_7780 == 0x8a5c_2dca_6000);
    lemma_product_known(0x401b_b740, 0x3be3_7780, 0x9b_b740, 127, 0xe3_7780, 118, 0x8a5c_2dca_6000, 48, 0x8000_0000_0000, 0x100_0000);
    assert(mul_spec(0x401b_b740, 0x3be3_7780) == 0x3c8a_5c2e);
    assert(0x8a_5c2e * 0x1_0000_0000_0000_0000 == 0x1_14b8_5c00_0000_0000 * 0x80_0000 + 0x0);
    lemma_quotient_known(0x3c8a_5c2e, 0x3c00_0000, 0x8a_5c2e, 120, 0x80_0000, 119, 0x1_14b8_5c00_0000_0000, 0x0, 66, 0x2_0000_0000_0000_0000, 0x400_0000_0000);
    assert(div_spec(0x3c8a_5c2e, 0x3c00_0000) == 0x400a_5c2e);
    assert(0xe5_ad1e * 0x20 + 0x8a_5c2e * 0x1 == 0x1d3f_ffee);
    lemma_sum_known(0x42e5_ad1e, 0x400a_5c2e, false, 0xe5_ad1e, 132, 0x8a_5c2e, 127, 0x20, 0x1, 0x1d3f_ffee, 29, 0x1000_0000, 0x20);
    assert(add_spec(0x42e5_ad1e, 0x400a_5c2e) == 0x42e9_ffff);
    lemma_whole_known(0x42e9_ffff, 0xe9_ffff, 132, 0x2_0000);
}

/// The value 0x3e34_7a4a.
proof fn lemma_at_3e347a4a()
    ensures
        chord_code(0x3e34_7a4a, 0x3e2d_5e8d, 0x3e35_5e8d, 0x42e5_ad1e, 0x42ea_8ad8) == 117,
{
    reveal(chord_code);
    lemma2_to64();
    lemma2_to64_rest();
    lemma_high_powers();
    assert(0xb5_5e8d * 0x1 - 0xad_5e8d * 0x1 == 0x8_0000);
    lemma_sum_known(0x3e35_5e8d, 0x3e2d_5e8d, true, 0xb5_5e8d, 123, 0xad_5e8d, 123, 0x1, 0x1, 0x8_0000, 20, 0x8_0000, 0x10);
    assert(sub_spec(0x3e35_5e8d, 0x3e2d_5e8d) == 0x3c00_0000);
    assert(0xb4_7a4a * 0x1 - 0xad_5e8d * 0x1 == 0x7_1bbd);
    lemma_sum_known(0x3e34_7a4a, 0x3e2d_5e8d, true, 0xb4_7a4a, 123, 0xad_5e8d, 123, 0x1, 0x1, 0x7_1bbd, 19, 0x4_0000, 0x20);
    assert(sub_spec(0x3e34_7a4a, 0x3e2d_5e8d) == 0x3be3_77a0);
    assert(0xea_8ad8 * 0x1 - 0xe5_ad1e * 0x1 == 0x4_ddba);
    lemma_sum_known(0x42ea_8ad8, 0x42e5_ad1e, true, 0xea_8ad8, 132, 0xe5_ad1e, 132, 0x1, 0x1, 0x4_ddba, 19, 0x4_0000, 0x20);
    assert(sub_spec(0x42ea_8ad8, 0x42e5_ad1e) == 0x401b_b740);
    assert(0x9b_b740 * 0xe3_77a0 == 0x8a5c_4141_4800);
    lemma_product_known(0x401b_b740, 0x3be3_77a0, 0x9b_b740, 127, 0xe3_77a0, 118, 0x8a5c_4141_4800, 48, 0x8000_0000_0000, 0x100_0000);
    assert(mul_spec(0x401b_b740, 0x3be3_77a0) == 0x3c8a_5c41);
    assert(0x8a_5c41 * 0x1_0000_0000_0000_0000 == 0x1_14b8_8200_0000_0000 * 0x80_0000 + 0x0);
    lemma_quotient_known(0x3c8a_5c41, 0x3c00_0000, 0x8a_5c41, 120, 0x80_0000, 119, 0x1_14b8_8200_0000_0000, 0x0, 66, 0x2_0000_0000_0000_0000, 0x400_0000_0000);
    assert(div_spec(0x3c8a_5c41, 0x3c00_0000) == 0x400a_5c41);
    assert(0xe5_ad1e * 0x20 + 0x8a_5c41 * 0x1 == 0x1d40_0001);
    lemma_sum_known(0x42e5_ad1e, 0x400a_5c41, false, 0xe5_ad1e, 132, 0x8a_5c41, 127, 0x20, 0x1, 0x1d40_0001, 29, 0x1000_0000, 0x20);
    assert(add_spec(0x42e5_ad1e, 0x400a_5c41) == 0x42ea_0000);
    lemma_whole_known(0x42ea_0000, 0xea_0000, 132, 0x2_0000);
}

/// The edge of code 116.
proof fn lemma_near_116()
    ensures
        near_exact_edge(0x3e34_7a49, 116),
{
    lemma2_to64();
    lemma2_to64_rest();
    lemma_fifth_powers_of_two();
    lemma_more_fifth_powers_of_two();
    assert(130525nat * 130525 * 130525 == 0x7_e677_5af4_a285);
    assert(269025nat * 269025 * 269025 == 0x45_2c59_9066_9ca1);
    assert(0x7_e677_5af4_a285nat * 0x7_e677_5af4_a285 == 0x3e_6a01_a876_270c_ffb1_b8b4_9919nat);
    assert(0x3e_6a01_a876_270c_ffb1_b8b4_9919nat * 0x3e_6a01_a876_270c_ffb1_b8b4_9919nat == 0xf37_84b2_f8bf_826a_35b7_b95d_1922_53f3_d3f8_b057_9e0d_96b6_e471nat);
    assert(0x45_2c59_9066_9ca1nat * 0x45_2c59_9066_9ca1 == 0x12b0_eff6_c049_6d6d_d948_5020_9d41nat);
    assert(0x12b0_eff6_c049_6d6d_d948_5020_9d41nat * 0x12b0_eff6_c049_6d6d_d948_5020_9d41nat == 0x15d_5c09_8741_6139_2178_92b9_bce5_5f46_89a2_dd05_b95f_0d00_50d8_ca81nat);
    assert(0x386_1f6dnat * 0x386_1f6d == 0xc_6b01_77f7_9469);
    assert(0xc_6b01_77f7_9469nat * 0xc_6b01_77f7_9469 == 0x9a_34dd_7981_080f_0a3b_56a7_9311nat);
    assert(0x9a_34dd_7981_080f_0a3b_56a7_9311nat * 0x386_1f6d == 0x2_1f69_3269_70a5_c0e8_4db7_dd32_5e0e_ad3dnat);
    assert(0x386_a76dnat * 0x386_a76d == 0xc_6ec0_419b_6469);
    assert(0xc_6ec0_419b_6469nat * 0xc_6ec0_419b_6469 == 0x9a_91ef_ef55_6e09_20d0_1088_3311nat);
    assert(0x9a_91ef_ef55_6e09_20d0_1088_3311nat * 0x386_a76d == 0x2_2103_4a68_ef4b_5651_6b64_f343_d133_d53dnat);
    assert(0x2_1f69_3269_70a5_c0e8_4db7_dd32_5e0e_ad3dnat * 0x15d_5c09_8741_6139_2178_92b9_bce5_5f46_89a2_dd05_b95f_0d00_50d8_ca81nat == 0x2e5_95c7_c1aa_7dd4_0c98_e7fe_3746_a574_0d76_6743_a002_869b_598f_f478_4dbe_230a_835e_a73f_bb83_401e_358f_6dbdnat);
    assert(0x2_2103_4a68_ef4b_5651_6b64_f343_d133_d53dnat * 0x15d_5c09_8741_6139_2178_92b9_bce5_5f46_89a2_dd05_b95f_0d00_50d8_ca81nat == 0x2e7_c56d_e8dd_7a73_44af_a345_1536_f023_3e9f_0e9d_2704_5aeb_fd96_df3a_f79e_0c78_20bb_431d_10e1_e79e_4cd8_95bdnat);
    assert(0xc35nat * 0x4_0000_0000_0000_0000_0000_0000_0000_0000nat == 0x30d4_0000_0000_0000_0000_0000_0000_0000_0000nat);
    assert(0xf37_84b2_f8bf_826a_35b7_b95d_1922_53f3_d3f8_b057_9e0d_96b6_e471nat * 0x30d4_0000_0000_0000_0000_0000_0000_0000_0000nat == 0x2e7_02db_72d9_e70b_ea06_eee6_f5cf_402b_3daa_2b02_7631_6f83_1a4a_5d94_0000_0000_0000_0000_0000_0000_0000_0000nat);
    lemma_near_above(
        0x3e34_7a49, 0xb4_7a49, 123, 0x400, 0x30d4_0000_0000_0000_0000_0000_0000_0000_0000nat, 116,
        130525, 0x7_e677_5af4_a285,
        0x3e_6a01_a876_270c_ffb1_b8b4_9919nat,
        0x45_2c59_9066_9ca1, 0x12b0_eff6_c049_6d6d_d948_5020_9d41nat,
        0x386_1f6d, 0xc_6b01_77f7_9469, 0x9a_34dd_7981_080f_0a3b_56a7_9311nat,
        0x386_a76d, 0xc_6ec0_419b_6469, 0x9a_91ef_ef55_6e09_20d0_1088_3311nat,
    );
}

/// The value 0x3e37_d2eb.
proof fn lemma_at_3e37d2eb()
    ensures
        chord_code(0x3e37_d2eb, 0x3e35_5e8d, 0x3e3d_5e8d, 0x42ea_8ad8, 0x42ef_4b0a) == 117,
{
    reveal(chord_code);
    lemma2_to64();
    lemma2_to64_rest();
    lemma_high_powers();
    assert(0xbd_5e8d * 0x1 - 0xb5_5e8d * 0x1 == 0x8_0000);
    lemma_sum_known(0x3e3d_5e8d, 0x3e35_5e8d, true, 0xbd_5e8d, 123, 0xb5_5e8d, 123, 0x1, 0x1, 0x8_0000, 20, 0x8_0000, 0x10);
    assert(sub_spec(0x3e3d_5e8d, 0x3e35_5e8d) == 0x3c00_0000);
    assert(0xb7_d2eb * 0x1 - 0xb5_5e8d * 0x1 == 0x2_745e);
    lemma_sum_known(0x3e37_d2eb, 0x3e35_5e8d, true, 0xb7_d2eb, 123, 0xb5_5e8d, 123, 0x1, 0x1, 0x2_745e, 18, 0x2_0000, 0x40);
    assert(sub_spec(0x3e37_d2eb, 0x3e35_5e8d) == 0x3b1d_1780);
    assert(0xef_4b0a * 0x1 - 0xea_8ad8 * 0x1 == 0x4_c032);
    lemma_sum_known(0x42ef_4b0a, 0x42ea_8ad8, true, 0xef_4b0a, 132, 0xea_8ad8, 132, 0x1, 0x1, 0x4_c032, 19, 0x4_0000, 0x20);
    assert(sub_spec(0x42ef_4b0a, 0x42ea_8ad8) == 0x4018_0640);
    assert(0x98_0640 * 0x9d_1780 == 0x5d49_c9d2_e000);
    lemma_product_known(0x4018_0640, 0x3b1d_1780, 0x98_0640, 127, 0x9d_1780, 117, 0x5d49_c9d2_e000, 47, 0x4000_0000_0000, 0x80_0000);
    assert(mul_spec(0x4018_0640, 0x3b1d_1780) == 0x3bba_9394);
    assert(0xba_9394 * 0x1_0000_0000_0000_0000 == 0x1_7527_2800_0000_0000 * 0x80_0000 + 0x0);
    lemma_quotient_known(0x3bba_9394, 0x3c00_0000, 0xba_9394, 118, 0x80_0000, 119, 0x1_7527_2800_0000_0000, 0x0, 66, 0x2_0000_0000_0000_0000, 0x400_0000_0000);
    assert(div_spec(0x3bba_9394, 0x3c00_0000) == 0x3f3a_9394);
    assert(0xea_8ad8 * 0x80 + 0xba_9394 * 0x1 == 0x75ff_ff94);
    lemma_sum_known(0x42ea_8ad8, 0x3f3a_9394, false, 0xea_8ad8, 132, 0xba_9394, 125, 0x80, 0x1, 0x75ff_ff94, 31, 0x4000_0000, 0x80);
    assert(add_spec(0x42ea_8ad8, 0x3f3a_9394) == 0x42eb_ffff);
    lemma_whole_known(0x42eb_ffff, 0xeb_ffff, 132, 0x2_0000);
}

/// The value 0x3e37_d2ec.
proof fn lemma_at_3e37d2ec()
    ensures
        chord_code(0x3e37_d2ec, 0x3e35_5e8d, 0x3e3d_5e8d, 0x42ea_8ad8, 0x42ef_4b0a) == 118,
{
    reveal(chord_code);
    lemma2_to64();
    lemma2_to64_rest();
    lemma_high_powers();
    assert(0xbd_5e8d * 0x1 - 0xb5_5e8d * 0x1 == 0x8_0000);
    lemma_sum_known(0x3e3d_5e8d, 0x3e35_5e8d, true, 0xbd_5e8d, 123, 0xb5_5e8d, 123, 0x1, 0x1, 0x8_0000, 20, 0x8_0000, 0x10);
    assert(sub_spec(0x3e3d_5e8d, 0x3e35_5e8d) == 0x3c00_0000);
    assert(0xb7_d2ec * 0x1 - 0xb5_5e8d * 0x1 == 0x2_745f);
    lemma_sum_known(0x3e37_d2ec, 0x3e35_5e8d, true, 0xb7_d2ec, 123, 0xb5_5e8d, 123, 0x1, 0x1, 0x2_745f, 18, 0x2_0000, 0x40);
    assert(sub_spec(0x3e37_d2ec, 0x3e35_5e8d) == 0x3b1d_17c0);
    assert(0xef_4b0a * 0x1 - 0xea_8ad8 * 0x1 == 0x4_c032);
    lemma_sum_known(0x42ef_4b0a, 0x42ea_8ad8, true, 0xef_4b0a, 132, 0xea_8ad8, 132, 0x1, 0x1, 0x4_c032, 19, 0x4_0000, 0x20);
    assert(sub_spec(0x42ef_4b0a, 0x42ea_8ad8) == 0x4018_0640);
    assert(0x98_0640 * 0x9d_17c0 == 0x5d49_efd4_7000);
    lemma_product_known(0x4018_0640, 0x3b1d_17c0, 0x98_0640, 127, 0x9d_17c0, 117, 0x5d49_efd4_7000, 47, 0x4000_0000_0000, 0x80_0000);
    assert(mul_spec(0x4018_0640, 0x3b1d_17c0) == 0x3bba_93e0);
    assert(0xba_93e0 * 0x1_0000_0000_0000_0000 == 0x1_7527_c000_0000_0000 * 0x80_0000 + 0x0);
    lemma_quotient_known(0x3bba_93e0, 0x3c00_0000, 0xba_93e0, 118, 0x80_0000, 119, 0x1_7527_c000_0000_0000, 0x0, 66, 0x2_0000_0000_0000_0000, 0x400_0000_0000);
    assert(div_spec(0x3bba_93e0, 0x3c00_0000) == 0x3f3a_93e0);
    assert(0xea_8ad8 * 0x80 + 0xba_93e0 * 0x1 == 0x75ff_ffe0);
    lemma_sum_known(0x42ea_8ad8, 0x3f3a_93e0, false, 0xea_8ad8, 132, 0xba_93e0, 125, 0x80, 0x1, 0x75ff_ffe0, 31, 0x4000_0000, 0x80);
    assert(add_spec(0x42ea_8ad8, 0x3f3a_93e0) == 0x42ec_0000);
    lemma_whole_known(0x42ec_0000, 0xec_0000, 132, 0x2_0000);
}

/// The edge of code 117.
proof fn lemma_near_117()
    ensures
        near_exact_edge(0x3e37_d2eb, 117),
{
    lemma2_to64();
    lemma2_to64_rest();
    lemma_fifth_powers_of_two();
    lemma_more_fifth_powers_of_two();
    assert(131525nat * 131525 * 131525 == 0x8_154e_cf20_73bd);
    assert(269025nat * 269025 * 269025 == 0x45_2c59_9066_9ca1);
    assert(0x8_154e_cf20_73bdnat * 0x8_154e_cf20_73bd == 0x41_56b2_f845_6e29_0874_c993_5989nat);
    assert(0x41_56b2_f845_6e29_0874_c993_5989nat * 0x41_56b2_f845_6e29_0874_c993_5989nat == 0x10ad_243e_cf2e_c82d_a650_a892_e7fc_c856_67de_ebbc_6b91_14a6_8b51nat);
    assert(0x45_2c59_9066_9ca1nat * 0x45_2c59_9066_9ca1 == 0x12b0_eff6_c049_6d6d_d948_5020_9d41nat);
    assert(0x12b0_eff6_c049_6d6d_d948_5020_9d41nat * 0x12b0_eff6_c049_6d6d_d948_5020_9d41nat == 0x15d_5c09_8741_6139_2178_92b9_bce5_5f46_89a2_dd05_b95f_0d00_50d8_ca81nat);
    assert(0x396_da97nat * 0x396_da97 == 0xc_e204_6d99_8511);
    assert(0xc_e204_6d99_8511nat * 0xc_e204_6d99_8511 == 0xa5_f7f6_17fb_2442_43e8_cd7c_ab21nat);
    assert(0xa5_f7f6_17fb_2442_43e8_cd7c_ab21nat * 0x396_da97 == 0x2_53b4_e386_d128_07a2_55bb_2a5b_0699_0a77nat);
    assert(0x397_6297nat * 0x397_6297 == 0xc_e5d4_fe19_f511);
    assert(0xc_e5d4_fe19_f511nat * 0xc_e5d4_fe19_f511 == 0xa6_5a4e_923f_413d_d317_83eb_8b21nat);
    assert(0xa6_5a4e_923f_413d_d317_83eb_8b21nat * 0x397_6297 == 0x2_556e_40c0_5967_af39_efb1_15ef_6ea8_b277nat);
    assert(0x2_53b4_e386_d128_07a2_55bb_2a5b_0699_0a77nat * 0x15d_5c09_8741_6139_2178_92b9_bce5_5f46_89a2_dd05_b95f_0d00_50d8_ca81nat == 0x32c_f3c5_5ca8_1da0_7e5c_54ae_b452_f8c2_8b7b_5e2a_d9b0_bd46_0e5a_2c26_4fe9_d602_b4fb_5d9e_b84a_9a79_19c8_2bf7nat);
    assert(0x2_556e_40c0_5967_af39_efb1_15ef_6ea8_b277nat * 0x15d_5c09_8741_6139_2178_92b9_bce5_5f46_89a2_dd05_b95f_0d00_50d8_ca81nat == 0x32f_4e18_2205_0146_43c8_0578_b13b_e91f_2b33_d733_a5d3_9865_65a8_b3d7_696e_7e75_63e5_f11c_a25e_1c13_a43b_d3f7nat);
    assert(0xc35nat * 0x4_0000_0000_0000_0000_0000_0000_0000_0000nat == 0x30d4_0000_0000_0000_0000_0000_0000_0000_0000nat);
    assert(0x10ad_243e_cf2e_c82d_a650_a892_e7fc_c856_67de_ebbc_6b91_14a6_8b51nat * 0x30d4_0000_0000_0000_0000_0000_0000_0000_0000nat == 0x32e_462d_cadc_5846_54fc_da67_2527_82e6_1b07_d0ce_8c34_4804_540a_8f14_0000_0000_0000_0000_0000_0000_0000_0000nat);
    lemma_near_above(
        0x3e37_d2eb, 0xb7_d2eb, 123, 0x400, 0x30d4_0000_0000_0000_0000_0000_0000_0000_0000nat, 117,
        131525, 0x8_154e_cf20_73bd,
        0x41_56b2_f845_6e29_0874_c993_5989nat,
        0x45_2c59_9066_9ca1, 0x12b0_eff6_c049_6d6d_d948_5020_9d41nat,
        0x396_da97, 0xc_e204_6d99_8511, 0xa5_f7f6_17fb_2442_43e8_cd7c_ab21nat,
        0x397_6297, 0xc_e5d4_fe19_f511, 0xa6_5a4e_923f_413d_d317_83eb_8b21nat,
    );
}

/// The value 0x3e3b_3118.
proof fn lemma_at_3e3b3118()
    ensures
        chord_code(0x3e3b_3118, 0x3e35_5e8d, 0x3e3d_5e8d, 0x42ea_8ad8, 0x42ef_4b0a) == 118,
{
    reveal(chord_code);
    lemma2_to64();
    lemma2_to64_rest();
    lemma_high_powers();
    assert(0xbd_5e8d * 0x1 - 0xb5_5e8d * 0x1 == 0x8_0000);
    lemma_sum_known(0x3e3d_5e8d, 0x3e35_5e8d, true, 0xbd_5e8d, 123, 0xb5_5e8d, 123, 0x1, 0x1, 0x8_0000, 20, 0x8_0000, 0x10);
    assert(sub_spec(0x3e3d_5e8d, 0x3e35_5e8d) == 0x3c00_0000);
    assert(0xbb_3118 * 0x1 - 0xb5_5e8d * 0x1 == 0x5_d28b);
    lemma_sum_known(0x3e3b_3118, 0x3e35_5e8d, true, 0xbb_3118, 123, 0xb5_5e8d, 123, 0x1, 0x1, 0x5_d28b, 19, 0x4_0000, 0x20);
    assert(sub_spec(0x3e3b_3118, 0x3e35_5e8d) == 0x3bba_5160);
    assert(0xef_4b0a * 0x1 - 0xea_8ad8 * 0x1 == 0x4_c032);
    lemma_sum_known(0x42ef_4b0a, 0x42ea_8ad8, true, 0xef_4b0a, 132, 0xea_8ad8, 132, 0x1, 0x1, 0x4_c032, 19, 0x4_0000, 0x20);
    assert(sub_spec(0x42ef_4b0a, 0x42ea_8ad8) == 0x4018_0640);
    assert(0x98_0640 * 0xba_5160 == 0x6ea4_dd7c_9800);
    lemma_product_known(0x4018_0640, 0x3bba_5160, 0x98_0640, 127, 0xba_5160, 118, 0x6ea4_dd7c_9800, 47, 0x4000_0000_0000, 0x80_0000);
    assert(mul_spec(0x4018_0640, 0x3bba_5160) == 0x3c5d_49bb);
    assert(0xdd_49bb * 0x1_0000_0000_0000_0000 == 0x1_ba93_7600_0000_0000 * 0x80_0000 + 0x0);
    lemma_quotient_known(0x3c5d_49bb, 0x3c00_0000, 0xdd_49bb, 119, 0x80_0000, 119, 0x1_ba93_7600_0000_0000, 0x0, 66, 0x2_0000_0000_0000_0000, 0x400_0000_0000);
    assert(div_spec(0x3c5d_49bb, 0x3c00_0000) == 0x3fdd_49bb);
    assert(0xea_8ad8 * 0x40 + 0xdd_49bb * 0x1 == 0x3b7f_ffbb);
    lemma_sum_known(0x42ea_8ad8, 0x3fdd_49bb, false, 0xea_8ad8, 132, 0xdd_49bb, 126, 0x40, 0x1, 0x3b7f_ffbb, 30, 0x2000_0000, 0x40);
    assert(add_spec(0x42ea_8ad8, 0x3fdd_49bb) == 0x42ed_ffff);
    lemma_whole_known(0x42ed_ffff, 0xed_ffff, 132, 0x2_0000);
}

/// The value 0x3e3b_3119.
proof fn lemma_at_3e3b3119()
    ensures
        chord_code(0x3e3b_3119, 0x3e35_5e8d, 0x3e3d_5e8d, 0x42ea_8ad8, 0x42ef_4b0a) == 119,
{
    reveal(chord_code);
    lemma2_to64();
    lemma2_to64_rest();
    lemma_high_powers();
    assert(0xbd_5e8d * 0x1 - 0xb5_5e8d * 0x1 == 0x8_0000);
    lemma_sum_known(0x3e3d_5e8d, 0x3e35_5e8d, true, 0xbd_5e8d, 123, 0xb5_5e8d, 123, 0x1, 0x1, 0x8_0000, 20, 0x8_0000, 0x10);
    assert(sub_spec(0x3e3d_5e8d, 0x3e35_5e8d) == 0x3c00_0000);
    assert(0xbb_3119 * 0x1 - 0xb5_5e8d * 0x1 == 0x5_d28c);
    lemma_sum_known(0x3e3b_3119, 0x3e35_5e8d, true, 0xbb_3119, 123, 0xb5_5e8d, 123, 0x1, 0x1, 0x5_d28c, 19, 0x4_0000, 0x20);
    assert(sub_spec(0x3e3b_3119, 0x3e35_5e8d) == 0x3bba_5180);
    assert(0xef_4b0a * 0x1 - 0xea_8ad8 * 0x1 == 0x4_c032);
    lemma_sum_known(0x42ef_4b0a, 0x42ea_8ad8, true, 0xef_4b0a, 132, 0xea_8ad8, 132, 0x1, 0x1, 0x4_c032, 19, 0x4_0000, 0x20);
    assert(sub_spec(0x42ef_4b0a, 0x42ea_8ad8) == 0x4018_0640);
    assert(0x98_0640 * 0xba_5180 == 0x6ea4_f07d_6000);
    lemma_product_known(0x4018_0640, 0x3bba_5180, 0x98_0640, 127, 0xba_5180, 118, 0x6ea4_f07d_6000, 47, 0x4000_0000_0000, 0x80_0000);
    assert(mul_spec(0x4018_0640, 0x3bba_5180) == 0x3c5d_49e1);
    assert(0xdd_49e1 * 0x1_0000_0000_0000_0000 == 0x1_ba93_c200_0000_0000 * 0x80_0000 + 0x0);
    lemma_quotient_known(0x3c5d_49e1, 0x3c00_0000, 0xdd_49e1, 119, 0x80_0000, 119, 0x1_ba93_c200_0000_0000, 0x0, 66, 0x2_0000_0000_0000_0000, 0x400_0000_0000);
    assert(div_spec(0x3c5d_49e1, 0x3c00_0000) == 0x3fdd_49e1);
    assert(0xea_8ad8 * 0x40 + 0xdd_49e1 * 0x1 == 0x3b7f_ffe1);
    lemma_sum_known(0x42ea_8ad8, 0x3fdd_49e1, false, 0xea_8ad8, 132, 0xdd_49e1, 126, 0x40, 0x1, 0x3b7f_ffe1, 30, 0x2000_0000, 0x40);
    assert(add_spec(0x42ea_8ad8, 0x3fdd_49e1) == 0x42ee_0000);
    lemma_whole_known(0x42ee_0000, 0xee_0000, 132, 0x2_0000);
}

/// The edge of code 118.
proof fn lemma_near_118()
    ensures
        near_exact_edge(0x3e3b_3118, 118),
{
    lemma2_to64();
    lemma2_to64_rest();
    lemma_fifth_powers_of_two();
    lemma_more_fifth_powers_of_two();
    assert(132525nat * 132525 * 132525 == 0x8_44de_004d_a875);
    assert(269025nat * 269025 * 269025 == 0x45_2c59_9066_9ca1);
    assert(0x8_44de_004d_a875nat * 0x8_44de_004d_a875 == 0x44_6066_b588_4f7e_6a7a_c53b_c579nat);
    assert(0x44_6066_b588_4f7e_6a7a_c53b_c579nat * 0x44_6066_b588_4f7e_6a7a_c53b_c579nat == 0x1243_5add_a1c5_a020_c2cf_0714_e980_f409_db7d_2591_7734_d819_7331nat);
    assert(0x45_2c59_9066_9ca1nat * 0x45_2c59_9066_9ca1 == 0x12b0_eff6_c049_6d6d_d948_5020_9d41nat);
    assert(0x12b0_eff6_c049_6d6d_d948_5020_9d41nat * 0x12b0_eff6_c049_6d6d_d948_5020_9d41nat == 0x15d_5c09_8741_6139_2178_92b9_bce5_5f46_89a2_dd05_b95f_0d00_50d8_ca81nat);
    assert(0x3a7_b178nat * 0x3a7_b178 == 0xd_5c01_d597_2840);
    assert(0xd_5c01_d597_2840nat * 0xd_5c01_d597_2840 == 0xb2_7941_02e2_18d1_32bb_01d4_1000nat);
    assert(0xb2_7941_02e2_18d1_32bb_01d4_1000nat * 0x3a7_b178 == 0x2_8c54_95f0_5140_5134_8f26_c172_ea77_8000nat);
    assert(0x3a8_3978nat * 0x3a8_3978 == 0xd_5fe4_4a66_a840);
    assert(0xd_5fe4_4a66_a840nat * 0xd_5fe4_4a66_a840 == 0xb2_e11a_c939_e3da_b46f_8194_1000nat);
    assert(0xb2_e11a_c939_e3da_b46f_8194_1000nat * 0x3a8_3978 == 0x2_8e2f_31e8_3705_4e82_3863_2d79_34f7_8000nat);
    assert(0x2_8c54_95f0_5140_5134_8f26_c172_ea77_8000nat * 0x15d_5c09_8741_6139_2178_92b9_bce5_5f46_89a2_dd05_b95f_0d00_50d8_ca81nat == 0x37a_39d7_1621_9b9e_1ae6_086f_4691_e82f_f0f6_c8ff_7366_ed5f_9679_82e6_934c_f114_2d4e_fd58_6ae7_54be_7137_8000nat);
    assert(0x2_8e2f_31e8_3705_4e82_3863_2d79_34f7_8000nat * 0x15d_5c09_8741_6139_2178_92b9_bce5_5f46_89a2_dd05_b95f_0d00_50d8_ca81nat == 0x37c_c188_58cd_2cea_dfda_7ed9_5d03_945d_38e9_1bb4_6b6f_622a_e6b2_8ae8_42c3_2a2f_0c04_0d09_fc2d_96b2_fbb7_8000nat);
    assert(0xc35nat * 0x4_0000_0000_0000_0000_0000_0000_0000_0000nat == 0x30d4_0000_0000_0000_0000_0000_0000_0000_0000nat);
    assert(0x1243_5add_a1c5_a020_c2cf_0714_e980_f409_db7d_2591_7734_d819_7331nat * 0x30d4_0000_0000_0000_0000_0000_0000_0000_0000nat == 0x37b_c0d0_cddf_05ae_bfa8_24c5_c919_8c8b_f151_3aae_62d0_a047_baac_9494_0000_0000_0000_0000_0000_0000_0000_0000nat);
    lemma_near_above(
        0x3e3b_3118, 0xbb_3118, 123, 0x400, 0x30d4_0000_0000_0000_0000_0000_0000_0000_0000nat, 118,
        132525, 0x8_44de_004d_a875,
        0x44_6066_b588_4f7e_6a7a_c53b_c579nat,
        0x45_2c59_9066_9ca1, 0x12b0_eff6_c049_6d6d_d948_5020_9d41nat,
        0x3a7_b178, 0xd_5c01_d597_2840, 0xb2_7941_02e2_18d1_32bb_01d4_1000nat,
        0x3a8_3978, 0xd_5fe4_4a66_a840, 0xb2_e11a_c939_e3da_b46f_8194_1000nat,
    );
}

/// The value 0x3e3e_972c.
proof fn lemma_at_3e3e972c()
    ensures
        chord_code(0x3e3e_972c, 0x3e3d_5e8d, 0x3e45_5e8d, 0x42ef_4b0a, 0x42f3_ec80) == 119,
{
    reveal(chord_code);
    lemma2_to64();
    lemma2_to64_rest();
    lemma_high_powers();
    assert(0xc5_5e8d * 0x1 - 0xbd_5e8d * 0x1 == 0x8_0000);
    lemma_sum_known(0x3e45_5e8d, 0x3e3d_5e8d, true, 0xc5_5e8d, 123, 0xbd_5e8d, 123, 0x1, 0x1, 0x8_0000, 20, 0x8_0000, 0x10);
    assert(sub_spec(0x3e45_5e8d, 0x3e3d_5e8d) == 0x3c00_0000);
    assert(0xbe_972c * 0x1 - 0xbd_5e8d * 0x1 == 0x1_389f);
    lemma_sum_known(0x3e3e_972c, 0x3e3d_5e8d, true, 0xbe_972c, 123, 0xbd_5e8d, 123, 0x1, 0x1, 0x1_389f, 17, 0x1_0000, 0x80);
    assert(sub_spec(0x3e3e_972c, 0x3e3d_5e8d) == 0x3a9c_4f80);
    assert(0xf3_ec80 * 0x1 - 0xef_4b0a * 0x1 == 0x4_a176);
    lemma_sum_known(0x42f3_ec80, 0x42ef_4b0a, true, 0xf3_ec80, 132, 0xef_4b0a, 132, 0x1, 0x1, 0x4_a176, 19, 0x4_0000, 0x20);
    assert(sub_spec(0x42f3_ec80, 0x42ef_4b0a) == 0x4014_2ec0);
    assert(0x94_2ec0 * 0x9c_4f80 == 0x5a7a_8184_a000);
    lemma_product_known(0x4014_2ec0, 0x3a9c_4f80, 0x94_2ec0, 127, 0x9c_4f80, 116, 0x5a7a_8184_a000, 47, 0x4000_0000_0000, 0x80_0000);
    assert(mul_spec(0x4014_2ec0, 0x3a9c_4f80) == 0x3b34_f503);
    assert(0xb4_f503 * 0x1_0000_0000_0000_0000 == 0x1_69ea_0600_0000_0000 * 0x80_0000 + 0x0);
    lemma_quotient_known(0x3b34_f503, 0x3c00_0000, 0xb4_f503, 117, 0x80_0000, 119, 0x1_69ea_0600_0000_0000, 0x0, 66, 0x2_0000_0000_0000_0000, 0x400_0000_0000);
    assert(div_spec(0x3b34_f503, 0x3c00_0000) == 0x3eb4_f503);
    assert(0xef_4b0a * 0x100 + 0xb4_f503 * 0x1 == 0xefff_ff03);
    lemma_sum_known(0x42ef_4b0a, 0x3eb4_f503, false, 0xef_4b0a, 132, 0xb4_f503, 124, 0x100, 0x1, 0xefff_ff03, 32, 0x8000_0000, 0x100);
    assert(add_spec(0x42ef_4b0a, 0x3eb4_f503) == 0x42ef_ffff);
    lemma_whole_known(0x42ef_ffff, 0xef_ffff, 132, 0x2_0000);
}

/// The value 0x3e3e_972d.
proof fn lemma_at_3e3e972d()
    ensures
        chord_code(0x3e3e_972d, 0x3e3d_5e8d, 0x3e45_5e8d, 0x42ef_4b0a, 0x42f3_ec80) == 120,
{
    reveal(chord_code);
    lemma2_to64();
    lemma2_to64_rest();
    lemma_high_powers();
    assert(0xc5_5e8d * 0x1 - 0xbd_5e8d * 0x1 == 0x8_0000);
    lemma_sum_known(0x3e45_5e8d, 0x3e3d_5e8d, true, 0xc5_5e8d, 123, 0xbd_5e8d, 123, 0x1, 0x1, 0x8_0000, 20, 0x8_0000, 0x10);
    assert(sub_spec(0x3e45_5e8d, 0x3e3d_5e8d) == 0x3c00_0000);
    assert(0xbe_972d * 0x1 - 0xbd_5e8d * 0x1 == 0x1_38a0);
    lemma_sum_known(0x3e3e_972d, 0x3e3d_5e8d, true, 0xbe_972d, 123, 0xbd_5e8d, 123, 0x1, 0x1, 0x1_38a0, 17, 0x1_0000, 0x80);
    assert(sub_spec(0x3e3e_972d, 0x3e3d_5e8d) == 0x3a9c_5000);
    assert(0xf3_ec80 * 0x1 - 0xef_4b0a * 0x1 == 0x4_a176);
    lemma_sum_known(0x42f3_ec80, 0x42ef_4b0a, true, 0xf3_ec80, 132, 0xef_4b0a, 132, 0x1, 0x1, 0x4_a176, 19, 0x4_0000, 0x20);
    assert(sub_spec(0x42f3_ec80, 0x42ef_4b0a) == 0x4014_2ec0);
    assert(0x94_2ec0 * 0x9c_5000 == 0x5a7a_cb9c_0000);
    lemma_product_known(0x4014_2ec0, 0x3a9c_5000, 0x94_2ec0, 127, 0x9c_5000, 116, 0x5a7a_cb9c_0000, 47, 0x4000_0000_0000, 0x80_0000);
    assert(mul_spec(0x4014_2ec0, 0x3a9c_5000) == 0x3b34_f597);
    assert(0xb4_f597 * 0x1_0000_0000_0000_0000 == 0x1_69eb_2e00_0000_0000 * 0x80_0000 + 0x0);
    lemma_quotient_known(0x3b34_f597, 0x3c00_0000, 0xb4_f597, 117, 0x80_0000, 119, 0x1_69eb_2e00_0000_0000, 0x0, 66, 0x2_0000_0000_0000_0000, 0x400_0000_0000);
    assert(div_spec(0x3b34_f597, 0x3c00_0000) == 0x3eb4_f597);
    assert(0xef_4b0a * 0x100 + 0xb4_f597 * 0x1 == 0xefff_ff97);
    lemma_sum_known(0x42ef_4b0a, 0x3eb4_f597, false, 0xef_4b0a, 132, 0xb4_f597, 124, 0x100, 0x1, 0xefff_ff97, 32, 0x8000_0000, 0x100);
    assert(add_spec(0x42ef_4b0a, 0x3eb4_f597) == 0x42f0_0000);
    lemma_whole_known(0x42f0_0000, 0xf0_0000, 132, 0x2_0000);
}

/// The edge of code 119.
proof fn lemma_near_119()
    ensures
        near_exact_edge(0x3e3e_972c, 119),
{
    lemma2_to64();
    lemma2_to64_rest();
    lemma_fifth_powers_of_two();
    lemma_more_fifth_powers_of_two();
    assert(133525nat * 133525 * 133525 == 0x8_7526_541c_fcad);
    assert(269025nat * 269025 * 269025 == 0x45_2c59_9066_9ca1);
    assert(0x8_7526_541c_fcadnat * 0x8_7526_541c_fcad == 0x47_8801_506f_5e04_2e75_c73d_0ce9nat);
    assert(0x47_8801_506f_5e04_2e75_c73d_0ce9nat * 0x47_8801_506f_5e04_2e75_c73d_0ce9nat == 0x13fc_b8fc_033e_345a_bdef_4baa_8e48_9342_6b3b_2cc9_819b_65b0_ac11nat);
    assert(0x45_2c59_9066_9ca1nat * 0x45_2c59_9066_9ca1 == 0x12b0_eff6_c049_6d6d_d948_5020_9d41nat);
    assert(0x12b0_eff6_c049_6d6d_d948_5020_9d41nat * 0x12b0_eff6_c049_6d6d_d948_5020_9d41nat == 0x15d_5c09_8741_6139_2178_92b9_bce5_5f46_89a2_dd05_b95f_0d00_50d8_ca81nat);
    assert(0x3b8_afdcnat * 0x3b8_afdc == 0xd_d95c_6d0e_8510);
    assert(0xd_d95c_6d0e_8510nat * 0xd_d95c_6d0e_8510 == 0xbf_cbf0_e5ba_b21a_21a2_72e9_a100nat);
    assert(0xbf_cbf0_e5ba_b21a_21a2_72e9_a100nat * 0x3b8_afdc == 0x2_c9c2_2913_3e56_5d5d_ff8e_48f7_2dd5_5c00nat);
    assert(0x3b9_37dcnat * 0x3b9_37dc == 0xd_dd50_f028_4510);
    assert(0xd_dd50_f028_4510nat * 0xd_dd50_f028_4510 == 0xc0_398d_3c53_8554_51d3_a7a1_a100nat);
    assert(0xc0_398d_3c53_8554_51d3_a7a1_a100nat * 0x3b9_37dc == 0x2_cbc0_3054_6041_2050_4ef5_d398_217d_5c00nat);
    assert(0x2_c9c2_2913_3e56_5d5d_ff8e_48f7_2dd5_5c00nat * 0x15d_5c09_8741_6139_2178_92b9_bce5_5f46_89a2_dd05_b95f_0d00_50d8_ca81nat == 0x3ce_0e4e_56ee_04d8_f29c_7795_cbe5_51dc_2d8f_0d2b_cf39_14d4_73a0_5181_c977_0d15_f181_d9db_d4d3_277e_131b_5c00nat);
    assert(0x2_cbc0_3054_6041_2050_4ef5_d398_217d_5c00nat * 0x15d_5c09_8741_6139_2178_92b9_bce5_5f46_89a2_dd05_b95f_0d00_50d8_ca81nat == 0x3d0_c655_9850_6374_2941_0ab6_b066_1370_4273_1cb3_6502_000d_b716_8d1b_d8d5_6d1b_4a05_a304_5755_189b_6ac3_5c00nat);
    assert(0xc35nat * 0x4_0000_0000_0000_0000_0000_0000_0000_0000nat == 0x30d4_0000_0000_0000_0000_0000_0000_0000_0000nat);
    assert(0x13fc_b8fc_033e_345a_bdef_4baa_8e48_9342_6b3b_2cc9_819b_65b0_ac11nat * 0x30d4_0000_0000_0000_0000_0000_0000_0000_0000nat == 0x3cf_eff8_714e_5954_5ec2_285a_a3eb_6fb6_671b_e566_df2c_77c1_5691_ae14_0000_0000_0000_0000_0000_0000_0000_0000nat);
    lemma_near_above(
        0x3e3e_972c, 0xbe_972c, 123, 0x400, 0x30d4_0000_0000_0000_0000_0000_0000_0000_0000nat, 119,
        133525, 0x8_7526_541c_fcad,
        0x47_8801_506f_5e04_2e75_c73d_0ce9nat,
        0x45_2c59_9066_9ca1, 0x12b0_eff6_c049_6d6d_d948_5020_9d41nat,
        0x3b8_afdc, 0xd_d95c_6d0e_8510, 0xbf_cbf0_e5ba_b21a_21a2_72e9_a100nat,
        0x3b9_37dc, 0xd_dd50_f028_4510, 0xc0_398d_3c53_8554_51d3_a7a1_a100nat,
    );
}

/// The value 0x3e42_0bb4.
proof fn lemma_at_3e420bb4()
    ensures
        chord_code(0x3e42_0bb4, 0x3e3d_5e8d, 0x3e45_5e8d, 0x42ef_4b0a, 0x42f3_ec80) == 120,
{
    reveal(chord_code);
    lemma2_to64();
    lemma2_to64_rest();
    lemma_high_powers();
    assert(0xc5_5e8d * 0x1 - 0xbd_5e8d * 0x1 == 0x8_0000);
    lemma_sum_known(0x3e45_5e8d, 0x3e3d_5e8d, true, 0xc5_5e8d, 123, 0xbd_5e8d, 123, 0x1, 0x1, 0x8_0000, 20, 0x8_0000, 0x10);
    assert(sub_spec(0x3e45_5e8d, 0x3e3d_5e8d) == 0x3c00_0000);
    assert(0xc2_0bb4 * 0x1 - 0xbd_5e8d * 0x1 == 0x4_ad27);
    lemma_sum_known(0x3e42_0bb4, 0x3e3d_5e8d, true, 0xc2_0bb4, 123, 0xbd_5e8d, 123, 0x1, 0x1, 0x4_ad27, 19, 0x4_0000, 0x20);
    assert(sub_spec(0x3e42_0bb4, 0x3e3d_5e8d) == 0x3b95_a4e0);
    assert(0xf3_ec80 * 0x1 - 0xef_4b0a * 0x1 == 0x4_a176);
    lemma_sum_known(0x42f3_ec80, 0x42ef_4b0a, true, 0xf3_ec80, 132, 0xef_4b0a, 132, 0x1, 0x1, 0x4_a176, 19, 0x4_0000, 0x20);
    assert(sub_spec(0x42f3_ec80, 0x42ef_4b0a) == 0x4014_2ec0);
    assert(0x94_2ec0 * 0x95_a4e0 == 0x569e_a55b_e800);
    lemma_product_known(0x4014_2ec0, 0x3b95_a4e0, 0x94_2ec0, 127, 0x95_a4e0, 118, 0x569e_a55b_e800, 47, 0x4000_0000_0000, 0x80_0000);
    assert(mul_spec(0x4014_2ec0, 0x3b95_a4e0) == 0x3c2d_3d4b);
    assert(0xad_3d4b * 0x1_0000_0000_0000_0000 == 0x1_5a7a_9600_0000_0000 * 0x80_0000 + 0x0);
    lemma_quotient_known(0x3c2d_3d4b, 0x3c00_0000, 0xad_3d4b, 119, 0x80_0000, 119, 0x1_5a7a_9600_0000_0000, 0x0, 66, 0x2_0000_0000_0000_0000, 0x400_0000_0000);
    assert(div_spec(0x3c2d_3d4b, 0x3c00_0000) == 0x3fad_3d4b);
    assert(0xef_4b0a * 0x40 + 0xad_3d4b * 0x1 == 0x3c7f_ffcb);
    lemma_sum_known(0x42ef_4b0a, 0x3fad_3d4b, false, 0xef_4b0a, 132, 0xad_3d4b, 126, 0x40, 0x1, 0x3c7f_ffcb, 30, 0x2000_0000, 0x40);
    assert(add_spec(0x42ef_4b0a, 0x3fad_3d4b) == 0x42f1_ffff);
    lemma_whole_known(0x42f1_ffff, 0xf1_ffff, 132, 0x2_0000);
}

/// The value 0x3e42_0bb5.
proof fn lemma_at_3e420bb5()
    ensures
        chord_code(0x3e42_0bb5, 0x3e3d_5e8d, 0x3e45_5e8d, 0x42ef_4b0a, 0x42f3_ec80) == 121,
{
    reveal(chord_code);
    lemma2_to64();
    lemma2_to64_rest();
    lemma_high_powers();
    assert(0xc5_5e8d * 0x1 - 0xbd_5e8d * 0x1 == 0x8_0000);
    lemma_sum_known(0x3e45_5e8d, 0x3e3d_5e8d, true, 0xc5_5e8d, 123, 0xbd_5e8d, 123, 0x1, 0x1, 0x8_0000, 20, 0x8_0000, 0x10);
    assert(sub_spec(0x3e45_5e8d, 0x3e3d_5e8d) == 0x3c00_0000);
    assert(0xc2_0bb5 * 0x1 - 0xbd_5e8d * 0x1 == 0x4_ad28);
    lemma_sum_known(0x3e42_0bb5, 0x3e3d_5e8d, true, 0xc2_0bb5, 123, 0xbd_5e8d, 123, 0x1, 0x1, 0x4_ad28, 19, 0x4_0000, 0x20);
    assert(sub_spec(0x3e42_0bb5, 0x3e3d_5e8d) == 0x3b95_a500);
    assert(0xf3_ec80 * 0x1 - 0xef_4b0a * 0x1 == 0x4_a176);
    lemma_sum_known(0x42f3_ec80, 0x42ef_4b0a, true, 0xf3_ec80, 132, 0xef_4b0a, 132, 0x1, 0x1, 0x4_a176, 19, 0x4_0000, 0x20);
    assert(sub_spec(0x42f3_ec80, 0x42ef_4b0a) == 0x4014_2ec0);
    assert(0x94_2ec0 * 0x95_a500 == 0x569e_b7e1_c000);
    lemma_product_known(0x4014_2ec0, 0x3b95_a500, 0x94_2ec0, 127, 0x95_a500, 118, 0x569e_b7e1_c000, 47, 0x4000_0000_0000, 0x80_0000);
    assert(mul_spec(0x4014_2ec0, 0x3b95_a500) == 0x3c2d_3d70);
    assert(0xad_3d70 * 0x1_0000_0000_0000_0000 == 0x1_5a7a_e000_0000_0000 * 0x80_0000 + 0x0);
    lemma_quotient_known(0x3c2d_3d70, 0x3c00_0000, 0xad_3d70, 119, 0x80_0000, 119, 0x1_5a7a_e000_0000_0000, 0x0, 66, 0x2_0000_0000_0000_0000, 0x400_0000_0000);
    assert(div_spec(0x3c2d_3d70, 0x3c00_0000) == 0x3fad_3d70);
    assert(0xef_4b0a * 0x40 + 0xad_3d70 * 0x1 == 0x3c7f_fff0);
    lemma_sum_known(0x42ef_4b0a, 0x3fad_3d70, false, 0xef_4b0a, 132, 0xad_3d70, 126, 0x40, 0x1, 0x3c7f_fff0, 30, 0x2000_0000, 0x40);
    assert(add_spec(0x42ef_4b0a, 0x3fad_3d70) == 0x42f2_0000);
    lemma_whole_known(0x42f2_0000, 0xf2_0000, 132, 0x2_0000);
}

/// The edge of code 120.
proof fn lemma_near_120()
    ensures
        near_exact_edge(0x3e42_0bb4, 120),
{
    lemma2_to64();
    lemma2_to64_rest();
    lemma_fifth_powers_of_two();
    lemma_more_fifth_powers_of_two();
    assert(134525nat * 134525 * 134525 == 0x8_a629_302f_2c65);
    assert(269025nat * 269025 * 269025 == 0x45_2c59_9066_9ca1);
    assert(0x8_a629_302f_2c65nat * 0x8_a629_302f_2c65 == 0x4a_ce6c_7410_6c10_edb1_34c8_dfd9nat);
    assert(0x4a_ce6c_7410_6c10_edb1_34c8_dfd9nat * 0x4a_ce6c_7410_6c10_edb1_34c8_dfd9nat == 0x15db_fd25_d23b_0a2e_ba41_49bd_d2da_d672_4f81_0a3f_8ca0_aecb_c5f1nat);
    assert(0x45_2c59_9066_9ca1nat * 0x45_2c59_9066_9ca1 == 0x12b0_eff6_c049_6d6d_d948_5020_9d41nat);
    assert(0x12b0_eff6_c049_6d6d_d948_5020_9d41nat * 0x12b0_eff6_c049_6d6d_d948_5020_9d41nat == 0x15d_5c09_8741_6139_2178_92b9_bce5_5f46_89a2_dd05_b95f_0d00_50d8_ca81nat);
    assert(0x3c9_f684nat * 0x3c9_f684 == 0xe_5b1c_20a9_f410);
    assert(0xe_5b1c_20a9_f410nat * 0xe_5b1c_20a9_f410 == 0xce_1780_94e6_ae9b_b158_25ce_8100nat);
    assert(0xce_1780_94e6_ae9b_b158_25ce_8100nat * 0x3c9_f684 == 0x3_0cdd_6a8d_4a8d_5e0d_eb59_406e_3770_8400nat);
    assert(0x3ca_7e84nat * 0x3ca_7e84 == 0xe_5f22_fed6_3410);
    assert(0xe_5f22_fed6_3410nat * 0xe_5f22_fed6_3410 == 0xce_8b2e_dd59_5af7_76ca_d556_8100nat);
    assert(0xce_8b2e_dd59_5af7_76ca_d556_8100nat * 0x3ca_7e84 == 0x3_0f01_7293_89ae_ca80_d09d_6f5b_5e18_8400nat);
    assert(0x3_0cdd_6a8d_4a8d_5e0d_eb59_406e_3770_8400nat * 0x15d_5c09_8741_6139_2178_92b9_bce5_5f46_89a2_dd05_b95f_0d00_50d8_ca81nat == 0x429_a296_e542_5872_5eb4_3704_8e1a_7d0a_d19c_3b49_ba03_140e_793f_23b8_c8b5_992e_a920_e71e_85d6_5f78_17da_8400nat);
    assert(0x3_0f01_7293_89ae_ca80_d09d_6f5b_5e18_8400nat * 0x15d_5c09_8741_6139_2178_92b9_bce5_5f46_89a2_dd05_b95f_0d00_50d8_ca81nat == 0x42c_8e7a_dd0e_7c1c_e8b5_558a_9b89_8de6_776c_46ce_c00c_af44_dfef_c733_d98f_7b68_4bbc_c16c_1666_4339_2282_8400nat);
    assert(0xc35nat * 0x4_0000_0000_0000_0000_0000_0000_0000_0000nat == 0x30d4_0000_0000_0000_0000_0000_0000_0000_0000nat);
    assert(0x15db_fd25_d23b_0a2e_ba41_49bd_d2da_d672_4f81_0a3f_8ca0_aecb_c5f1nat * 0x30d4_0000_0000_0000_0000_0000_0000_0000_0000nat == 0x42b_59a4_babd_2acd_319e_7be4_a8bb_a56f_0592_08c8_66fe_95d6_f5dd_1b94_0000_0000_0000_0000_0000_0000_0000_0000nat);
    lemma_near_above(
        0x3e42_0bb4, 0xc2_0bb4, 123, 0x400, 0x30d4_0000_0000_0000_0000_0000_0000_0000_0000nat, 120,
        134525, 0x8_a629_302f_2c65,
        0x4a_ce6c_7410_6c10_edb1_34c8_dfd9nat,
        0x45_2c59_9066_9ca1, 0x12b0_eff6_c049_6d6d_d948_5020_9d41nat,
        0x3c9_f684, 0xe_5b1c_20a9_f410, 0xce_1780_94e6_ae9b_b158_25ce_8100nat,
        0x3ca_7e84, 0xe_5f22_fed6_3410, 0xce_8b2e_dd59_5af7_76ca_d556_8100nat,
    );
}

/// The value 0x3e45_8111.
proof fn lemma_at_3e458111()
    ensures
        chord_code(0x3e45_8111, 0x3e45_5e8d, 0x3e4d_5e8d, 0x42f3_ec80, 0x42f8_7167) == 121,
{
    reveal(chord_code);
    lemma2_to64();
    lemma2_to64_rest();
    lemma_high_powers();
    assert(0xcd_5e8d * 0x1 - 0xc5_5e8d * 0x1 == 0x8_0000);
    lemma_sum_known(0x3e4d_5e8d, 0x3e45_5e8d, true, 0xcd_5e8d, 123, 0xc5_5e8d, 123, 0x1, 0x1, 0x8_0000, 20, 0x8_0000, 0x10);
    assert(sub_spec(0x3e4d_5e8d, 0x3e45_5e8d) == 0x3c00_0000);
    assert(0xc5_8111 * 0x1 - 0xc5_5e8d * 0x1 == 0x2284);
    lemma_sum_known(0x3e45_8111, 0x3e45_5e8d, true, 0xc5_8111, 123, 0xc5_5e8d, 123, 0x1, 0x1, 0x2284, 14, 0x2000, 0x400);
    assert(sub_spec(0x3e45_8111, 0x3e45_5e8d) == 0x390a_1000);
    assert(0xf8_7167 * 0x1 - 0xf3_ec80 * 0x1 == 0x4_84e7);
    lemma_sum_known(0x42f8_7167, 0x42f3_ec80, true, 0xf8_7167, 132, 0xf3_ec80, 132, 0x1, 0x1, 0x4_84e7, 19, 0x4_0000, 0x20);
    assert(sub_spec(0x42f8_7167, 0x42f3_ec80) == 0x4010_9ce0);
    assert(0x90_9ce0 * 0x8a_1000 == 0x4dfd_9a8e_0000);
    lemma_product_known(0x4010_9ce0, 0x390a_1000, 0x90_9ce0, 127, 0x8a_1000, 113, 0x4dfd_9a8e_0000, 47, 0x4000_0000_0000, 0x80_0000);
    assert(mul_spec(0x4010_9ce0, 0x390a_1000) == 0x399b_fb35);
    assert(0x9b_fb35 * 0x1_0000_0000_0000_0000 == 0x1_37f6_6a00_0000_0000 * 0x80_0000 + 0x0);
    lemma_quotient_known(0x399b_fb35, 0x3c00_0000, 0x9b_fb35, 114, 0x80_0000, 119, 0x1_37f6_6a00_0000_0000, 0x0, 66, 0x2_0000_0000_0000_0000, 0x400_0000_0000);
    assert(div_spec(0x399b_fb35, 0x3c00_0000) == 0x3d1b_fb35);
    assert(0xf3_ec80 * 0x800 + 0x9b_fb35 * 0x1 == 0x7_9fff_fb35);
    lemma_sum_known(0x42f3_ec80, 0x3d1b_fb35, false, 0xf3_ec80, 132, 0x9b_fb35, 121, 0x800, 0x1, 0x7_9fff_fb35, 35, 0x4_0000_0000, 0x800);
    assert(add_spec(0x42f3_ec80, 0x3d1b_fb35) == 0x42f3_ffff);
    lemma_whole_known(0x42f3_ffff, 0xf3_ffff, 132, 0x2_0000);
}

/// The value 0x3e45_8112.
proof fn lemma_at_3e458112()
    ensures
        chord_code(0x3e45_8112, 0x3e45_5e8d, 0x3e4d_5e8d, 0x42f3_ec80, 0x42f8_7167) == 122,
{
    reveal(chord_code);
    lemma2_to64();
    lemma2_to64_rest();
    lemma_high_powers();
    assert(0xcd_5e8d * 0x1 - 0xc5_5e8d * 0x1 == 0x8_0000);
    lemma_sum_known(0x3e4d_5e8d, 0x3e45_5e8d, true, 0xcd_5e8d, 123, 0xc5_5e8d, 123, 0x1, 0x1, 0x8_0000, 20, 0x8_0000, 0x10);
    assert(sub_spec(0x3e4d_5e8d, 0x3e45_5e8d) == 0x3c00_0000);
    assert(0xc5_8112 * 0x1 - 0xc5_5e8d * 0x1 == 0x2285);
    lemma_sum_known(0x3e45_8112, 0x3e45_5e8d, true, 0xc5_8112, 123, 0xc5_5e8d, 123, 0x1, 0x1, 0x2285, 14, 0x2000, 0x400);
    assert(sub_spec(0x3e45_8112, 0x3e45_5e8d) == 0x390a_1400);
    assert(0xf8_7167 * 0x1 - 0xf3_ec80 * 0x1 == 0x4_84e7);
    lemma_sum_known(0x42f8_7167, 0x42f3_ec80, true, 0xf8_7167, 132, 0xf3_ec80, 132, 0x1, 0x1, 0x4_84e7, 19, 0x4_0000, 0x20);
    assert(sub_spec(0x42f8_7167, 0x42f3_ec80) == 0x4010_9ce0);
    assert(0x90_9ce0 * 0x8a_1400 == 0x4dff_dd01_8000);
    lemma_product_known(0x4010_9ce0, 0x390a_1400, 0x90_9ce0, 127, 0x8a_1400, 113, 0x4dff_dd01_8000, 47, 0x4000_0000_0000, 0x80_0000);
    assert(mul_spec(0x4010_9ce0, 0x390a_1400) == 0x399b_ffba);
    assert(0x9b_ffba * 0x1_0000_0000_0000_0000 == 0x1_37ff_7400_0000_0000 * 0x80_0000 + 0x0);
    lemma_quotient_known(0x399b_ffba, 0x3c00_0000, 0x9b_ffba, 114, 0x80_0000, 119, 0x1_37ff_7400_0000_0000, 0x0, 66, 0x2_0000_0000_0000_0000, 0x400_0000_0000);
    assert(div_spec(0x399b_ffba, 0x3c00_0000) == 0x3d1b_ffba);
    assert(0xf3_ec80 * 0x800 + 0x9b_ffba * 0x1 == 0x7_9fff_ffba);
    lemma_sum_known(0x42f3_ec80, 0x3d1b_ffba, false, 0xf3_ec80, 132, 0x9b_ffba, 121, 0x800, 0x1, 0x7_9fff_ffba, 35, 0x4_0000_0000, 0x800);
    assert(add_spec(0x42f3_ec80, 0x3d1b_ffba) == 0x42f4_0000);
    lemma_whole_known(0x42f4_0000, 0xf4_0000, 132, 0x2_0000);
}

/// The edge of code 121.
proof fn lemma_near_121()
    ensures
        near_exact_edge(0x3e45_8111, 121),
{
    lemma2_to64();
    lemma2_to64_rest();
    lemma_fifth_powers_of_two();
    lemma_more_fifth_powers_of_two();
    assert(135525nat * 135525 * 135525 == 0x8_d7e7_fa24_f39d);
    assert(269025nat * 269025 * 269025 == 0x45_2c59_9066_9ca1);
    assert(0x8_d7e7_fa24_f39dnat * 0x8_d7e7_fa24_f39d == 0x4e_3497_1aae_ae1d_8c7a_0ffb_6e49nat);
    assert(0x4e_3497_1aae_ae1d_8c7a_0ffb_6e49nat * 0x4e_3497_1aae_ae1d_8c7a_0ffb_6e49nat == 0x17e4_16e1_fe79_8d96_f4de_32d4_2371_9cc5_e3cc_75ce_6372_00a8_d0d1nat);
    assert(0x45_2c59_9066_9ca1nat * 0x45_2c59_9066_9ca1 == 0x12b0_eff6_c049_6d6d_d948_5020_9d41nat);
    assert(0x12b0_eff6_c049_6d6d_d948_5020_9d41nat * 0x12b0_eff6_c049_6d6d_d948_5020_9d41nat == 0x15d_5c09_8741_6139_2178_92b9_bce5_5f46_89a2_dd05_b95f_0d00_50d8_ca81nat);
    assert(0x3db_4155nat * 0x3db_4155 == 0xe_df50_d61a_4639);
    assert(0xe_df50_d61a_4639nat * 0xe_df50_d61a_4639 == 0xdd_2fa5_5967_f80f_21b9_a2d7_38b1nat);
    assert(0xdd_2fa5_5967_f80f_21b9_a2d7_38b1nat * 0x3db_4155 == 0x3_54ff_2509_8173_77d8_3b4d_28c3_4945_c3c5nat);
    assert(0x3db_c955nat * 0x3db_c955 == 0xe_e36a_13c4_9639);
    assert(0xe_e36a_13c4_9639nat * 0xe_e36a_13c4_9639 == 0xdd_a99f_7483_70f8_4276_d56e_d8b1nat);
    assert(0xdd_a99f_7483_70f8_4276_d56e_d8b1nat * 0x3db_c955 == 0x3_574b_4d8d_bb31_707f_aec6_4166_585b_ebc5nat);
    assert(0x3_54ff_2509_8173_77d8_3b4d_28c3_4945_c3c5nat * 0x15d_5c09_8741_6139_2178_92b9_bce5_5f46_89a2_dd05_b95f_0d00_50d8_ca81nat == 0x48c_1280_eee9_9788_e1f6_040d_65f0_432c_96b4_454b_96a7_dcb7_03c2_18d0_c3e2_f0c4_2c3f_9286_bdc3_4343_b6d9_1845nat);
    assert(0x3_574b_4d8d_bb31_707f_aec6_4166_585b_ebc5nat * 0x15d_5c09_8741_6139_2178_92b9_bce5_5f46_89a2_dd05_b95f_0d00_50d8_ca81nat == 0x48f_3527_9fa0_007e_8dea_3871_fa88_84a1_e7c3_ead3_7632_e220_267c_7ad3_3ada_3b31_292d_f1ca_318c_fe87_8c93_4045nat);
    assert(0xc35nat * 0x4_0000_0000_0000_0000_0000_0000_0000_0000nat == 0x30d4_0000_0000_0000_0000_0000_0000_0000_0000nat);
    assert(0x17e4_16e1_fe79_8d96_f4de_32d4_2371_9cc5_e3cc_75ce_6372_00a8_d0d1nat * 0x30d4_0000_0000_0000_0000_0000_0000_0000_0000nat == 0x48e_8d2d_52dd_8735_8eec_7189_de52_a77a_ee96_fb68_418f_ba88_32f4_1d14_0000_0000_0000_0000_0000_0000_0000_0000nat);
    lemma_near_above(
        0x3e45_8111, 0xc5_8111, 123, 0x400, 0x30d4_0000_0000_0000_0000_0000_0000_0000_0000nat, 121,
        135525, 0x8_d7e7_fa24_f39d,
        0x4e_3497_1aae_ae1d_8c7a_0ffb_6e49nat,
        0x45_2c59_9066_9ca1, 0x12b0_eff6_c049_6d6d_d948_5020_9d41nat,
        0x3db_4155, 0xe_df50_d61a_4639, 0xdd_2fa5_5967_f80f_21b9_a2d7_38b1nat,
        0x3db_c955, 0xe_e36a_13c4_9639, 0xdd_a99f_7483_70f8_4276_d56e_d8b1nat,
    );
}

/// The value 0x3e49_0b6e.
proof fn lemma_at_3e490b6e()
    ensures
        chord_code(0x3e49_0b6e, 0x3e45_5e8d, 0x3e4d_5e8d, 0x42f3_ec80, 0x42f8_7167) == 122,
{
    reveal(chord_code);
    lemma2_to64();
    lemma2_to64_rest();
    lemma_high_powers();
    assert(0xcd_5e8d * 0x1 - 0xc5_5e8d * 0x1 == 0x8_0000);
    lemma_sum_known(0x3e4d_5e8d, 0x3e45_5e8d, true, 0xcd_5e8d, 123, 0xc5_5e8d, 123, 0x1, 0x1, 0x8_0000, 20, 0x8_0000, 0x10);
    assert(sub_spec(0x3e4d_5e8d, 0x3e45_5e8d) == 0x3c00_0000);
    assert(0xc9_0b6e * 0x1 - 0xc5_5e8d * 0x1 == 0x3_ace1);
    lemma_sum_known(0x3e49_0b6e, 0x3e45_5e8d, true, 0xc9_0b6e, 123, 0xc5_5e8d, 123, 0x1, 0x1, 0x3_ace1, 18, 0x2_0000, 0x40);
    assert(sub_spec(0x3e49_0b6e, 0x3e45_5e8d) == 0x3b6b_3840);
    assert(0xf8_7167 * 0x1 - 0xf3_ec80 * 0x1 == 0x4_84e7);
    lemma_sum_known(0x42f8_7167, 0x42f3_ec80, true, 0xf8_7167, 132, 0xf3_ec80, 132, 0x1, 0x1, 0x4_84e7, 19, 0x4_0000, 0x20);
    assert(sub_spec(0x42f8_7167, 0x42f3_ec80) == 0x4010_9ce0);
    assert(0x90_9ce0 * 0xeb_3840 == 0x84df_c818_3800);
    lemma_product_known(0x4010_9ce0, 0x3b6b_3840, 0x90_9ce0, 127, 0xeb_3840, 117, 0x84df_c818_3800, 48, 0x8000_0000_0000, 0x100_0000);
    assert(mul_spec(0x4010_9ce0, 0x3b6b_3840) == 0x3c04_dfc8);
    assert(0x84_dfc8 * 0x1_0000_0000_0000_0000 == 0x1_09bf_9000_0000_0000 * 0x80_0000 + 0x0);
    lemma_quotient_known(0x3c04_dfc8, 0x3c00_0000, 0x84_dfc8, 119, 0x80_0000, 119, 0x1_09bf_9000_0000_0000, 0x0, 66, 0x2_0000_0000_0000_0000, 0x400_0000_0000);
    assert(div_spec(0x3c04_dfc8, 0x3c00_0000) == 0x3f84_dfc8);
    assert(0xf3_ec80 * 0x40 + 0x84_dfc8 * 0x1 == 0x3d7f_ffc8);
    lemma_sum_known(0x42f3_ec80, 0x3f84_dfc8, false, 0xf3_ec80, 132, 0x84_dfc8, 126, 0x40, 0x1, 0x3d7f_ffc8, 30, 0x2000_0000, 0x40);
    assert(add_spec(0x42f3_ec80, 0x3f84_dfc8) == 0x42f5_ffff);
    lemma_whole_known(0x42f5_ffff, 0xf5_ffff, 132, 0x2_0000);
}

/// The value 0x3e49_0b6f.
proof fn lemma_at_3e490b6f()
    ensures
        chord_code(0x3e49_0b6f, 0x3e45_5e8d, 0x3e4d_5e8d, 0x42f3_ec80, 0x42f8_7167) == 123,
{
    reveal(chord_code);
    lemma2_to64();
    lemma2_to64_rest();
    lemma_high_powers();
    assert(0xcd_5e8d * 0x1 - 0xc5_5e8d * 0x1 == 0x8_0000);
    lemma_sum_known(0x3e4d_5e8d, 0x3e45_5e8d, true, 0xcd_5e8d, 123, 0xc5_5e8d, 123, 0x1, 0x1, 0x8_0000, 20, 0x8_0000, 0x10);
    assert(sub_spec(0x3e4d_5e8d, 0x3e45_5e8d) == 0x3c00_0000);
    assert(0xc9_0b6f * 0x1 - 0xc5_5e8d * 0x1 == 0x3_ace2);
    lemma_sum_known(0x3e49_0b6f, 0x3e45_5e8d, true, 0xc9_0b6f, 123, 0xc5_5e8d, 123, 0x1, 0x1, 0x3_ace2, 18, 0x2_0000, 0x40);
    assert(sub_spec(0x3e49_0b6f, 0x3e45_5e8d) == 0x3b6b_3880);
    assert(0xf8_7167 * 0x1 - 0xf3_ec80 * 0x1 == 0x4_84e7);
    lemma_sum_known(0x42f8_7167, 0x42f3_ec80, true, 0xf8_7167, 132, 0xf3_ec80, 132, 0x1, 0x1, 0x4_84e7, 19, 0x4_0000, 0x20);
    assert(sub_spec(0x42f8_7167, 0x42f3_ec80) == 0x4010_9ce0);
    assert(0x90_9ce0 * 0xeb_3880 == 0x84df_ec3f_7000);
    lemma_product_known(0x4010_9ce0, 0x3b6b_3880, 0x90_9ce0, 127, 0xeb_3880, 117, 0x84df_ec3f_7000, 48, 0x8000_0000_0000, 0x100_0000);
    assert(mul_spec(0x4010_9ce0, 0x3b6b_3880) == 0x3c04_dfec);
    assert(0x84_dfec * 0x1_0000_0000_0000_0000 == 0x1_09bf_d800_0000_0000 * 0x80_0000 + 0x0);
    lemma_quotient_known(0x3c04_dfec, 0x3c00_0000, 0x84_dfec, 119, 0x80_0000, 119, 0x1_09bf_d800_0000_0000, 0x0, 66, 0x2_0000_0000_0000_0000, 0x400_0000_0000);
    assert(div_spec(0x3c04_dfec, 0x3c00_0000) == 0x3f84_dfec);
    assert(0xf3_ec80 * 0x40 + 0x84_dfec * 0x1 == 0x3d7f_ffec);
    lemma_sum_known(0x42f3_ec80, 0x3f84_dfec, false, 0xf3_ec80, 132, 0x84_dfec, 126, 0x40, 0x1, 0x3d7f_ffec, 30, 0x2000_0000, 0x40);
    assert(add_spec(0x42f3_ec80, 0x3f84_dfec) == 0x42f6_0000);
    lemma_whole_known(0x42f6_0000, 0xf6_0000, 132, 0x2_0000);
}

/// The edge of code 122.
proof fn lemma_near_122()
    ensures
        near_exact_edge(0x3e49_0b6e, 122),
{
    lemma2_to64();
    lemma2_to64_rest();
    lemma_fifth_powers_of_two();
    lemma_more_fifth_powers_of_two();
    assert(136525nat * 136525 * 136525 == 0x9_0a64_179f_0e55);
    assert(269025nat * 269025 * 269025 == 0x45_2c59_9066_9ca1);
    assert(0x9_0a64_179f_0e55nat * 0x9_0a64_179f_0e55 == 0x51_bb75_a229_e589_cdce_1463_6839nat);
    assert(0x51_bb75_a229_e589_cdce_1463_6839nat * 0x51_bb75_a229_e589_cdce_1463_6839nat == 0x1a18_29b5_af7a_1790_6c67_d37c_6363_7e58_e3a9_8d88_b49e_ae84_5cb1nat);
    assert(0x45_2c59_9066_9ca1nat * 0x45_2c59_9066_9ca1 == 0x12b0_eff6_c049_6d6d_d948_5020_9d41nat);
    assert(0x12b0_eff6_c049_6d6d_d948_5020_9d41nat * 0x12b0_eff6_c049_6d6d_d948_5020_9d41nat == 0x15d_5c09_8741_6139_2178_92b9_bce5_5f46_89a2_dd05_b95f_0d00_50d8_ca81nat);
    assert(0x3ec_f526nat * 0x3ec_f526 == 0xf_6913_ccd1_c1a4);
    assert(0xf_6913_ccd1_c1a4nat * 0xf_6913_ccd1_c1a4 == 0xed_7b73_4020_cd12_3ed3_2040_b110nat);
    assert(0xed_7b73_4020_cd12_3ed3_2040_b110nat * 0x3ec_f526 == 0x3_a443_9265_201f_2caf_4ad7_deeb_1dce_9860nat);
    assert(0x3ed_7d26nat * 0x3ed_7d26 == 0xf_6d3f_d98a_21a4);
    assert(0xf_6d3f_d98a_21a4nat * 0xf_6d3f_d98a_21a4 == 0xed_fc1a_ed5c_5cb5_ae48_513b_b110nat);
    assert(0xed_fc1a_ed5c_5cb5_ae48_513b_b110nat * 0x3ed_7d26 == 0x3_a6bb_0d22_657d_4a37_aaf8_15bc_5021_1860nat);
    assert(0x3_a443_9265_201f_2caf_4ad7_deeb_1dce_9860nat * 0x15d_5c09_8741_6139_2178_92b9_bce5_5f46_89a2_dd05_b95f_0d00_50d8_ca81nat == 0x4f8_3f49_8f67_0102_6725_e763_72d6_a310_c5bf_b461_391c_fad7_6be9_b712_62a3_1f6d_97b2_975c_05bb_6fed_9a56_8860nat);
    assert(0x3_a6bb_0d22_657d_4a37_aaf8_15bc_5021_1860nat * 0x15d_5c09_8741_6139_2178_92b9_bce5_5f46_89a2_dd05_b95f_0d00_50d8_ca81nat == 0x4fb_9d0e_eb0b_8ae5_b90e_d9c8_8527_3c0b_9236_c3cf_4f53_4407_6939_9b06_1bf6_cbdc_b46c_abe9_31f4_5ea9_0ee9_0860nat);
    assert(0xc35nat * 0x4_0000_0000_0000_0000_0000_0000_0000_0000nat == 0x30d4_0000_0000_0000_0000_0000_0000_0000_0000nat);
    assert(0x1a18_29b5_af7a_1790_6c67_d37c_6363_7e58_e3a9_8d88_b49e_ae84_5cb1nat * 0x30d4_0000_0000_0000_0000_0000_0000_0000_0000nat == 0x4fa_23d4_9b5c_3586_97ed_3da2_75a4_f615_4c4c_52f2_d713_5421_56fd_f294_0000_0000_0000_0000_0000_0000_0000_0000nat);
    lemma_near_above(
        0x3e49_0b6e, 0xc9_0b6e, 123, 0x400, 0x30d4_0000_0000_0000_0000_0000_0000_0000_0000nat, 122,
        136525, 0x9_0a64_179f_0e55,
        0x51_bb75_a229_e589_cdce_1463_6839nat,
        0x45_2c59_9066_9ca1, 0x12b0_eff6_c049_6d6d_d948_5020_9d41nat,
        0x3ec_f526, 0xf_6913_ccd1_c1a4, 0xed_7b73_4020_cd12_3ed3_2040_b110nat,
        0x3ed_7d26, 0xf_6d3f_d98a_21a4, 0xed_fc1a_ed5c_5cb5_ae48_513b_b110nat,
    );
}

/// The value 0x3e4c_95cc.
proof fn lemma_at_3e4c95cc()
    ensures
        chord_code(0x3e4c_95cc, 0x3e45_5e8d, 0x3e4d_5e8d, 0x42f3_ec80, 0x42f8_7167) == 123,
{
    reveal(chord_code);
    lemma2_to64();
    lemma2_to64_rest();
    lemma_high_powers();
    assert(0xcd_5e8d * 0x1 - 0xc5_5e8d * 0x1 == 0x8_0000);
    lemma_sum_known(0x3e4d_5e8d, 0x3e45_5e8d, true, 0xcd_5e8d, 123, 0xc5_5e8d, 123, 0x1, 0x1, 0x8_0000, 20, 0x8_0000, 0x10);
    assert(sub_spec(0x3e4d_5e8d, 0x3e45_5e8d) == 0x3c00_0000);
    assert(0xcc_95cc * 0x1 - 0xc5_5e8d * 0x1 == 0x7_373f);
    lemma_sum_known(0x3e4c_95cc, 0x3e45_5e8d, true, 0xcc_95cc, 123, 0xc5_5e8d, 123, 0x1, 0x1, 0x7_373f, 19, 0x4_0000, 0x20);
    assert(sub_spec(0x3e4c_95cc, 0x3e45_5e8d) == 0x3be6_e7e0);
    assert(0xf8_7167 * 0x1 - 0xf3_ec80 * 0x1 == 0x4_84e7);
    lemma_sum_known(0x42f8_7167, 0x42f3_ec80, true, 0xf8_7167, 132, 0xf3_ec80, 132, 0x1, 0x1, 0x4_84e7, 19, 0x4_0000, 0x20);
    assert(sub_spec(0x42f8_7167, 0x42f3_ec80) == 0x4010_9ce0);
    assert(0x90_9ce0 * 0xe6_e7e0 == 0x826f_ed57_6400);
    lemma_product_known(0x4010_9ce0, 0x3be6_e7e0, 0x90_9ce0, 127, 0xe6_e7e0, 118, 0x826f_ed57_6400, 48, 0x8000_0000_0000, 0x100_0000);
    assert(mul_spec(0x4010_9ce0, 0x3be6_e7e0) == 0x3c82_6fed);
    assert(0x82_6fed * 0x1_0000_0000_0000_0000 == 0x1_04df_da00_0000_0000 * 0x80_0000 + 0x0);
    lemma_quotient_known(0x3c82_6fed, 0x3c00_0000, 0x82_6fed, 120, 0x80_0000, 119, 0x1_04df_da00_0000_0000, 0x0, 66, 0x2_0000_0000_0000_0000, 0x400_0000_0000);
    assert(div_spec(0x3c82_6fed, 0x3c00_0000) == 0x4002_6fed);
    assert(0xf3_ec80 * 0x20 + 0x82_6fed * 0x1 == 0x1eff_ffed);
    lemma_sum_known(0x42f3_ec80, 0x4002_6fed, false, 0xf3_ec80, 132, 0x82_6fed, 127, 0x20, 0x1, 0x1eff_ffed, 29, 0x1000_0000, 0x20);
    assert(add_spec(0x42f3_ec80, 0x4002_6fed) == 0x42f7_ffff);
    lemma_whole_known(0x42f7_ffff, 0xf7_ffff, 132, 0x2_0000);
}

/// The value 0x3e4c_95cd.
proof fn lemma_at_3e4c95cd()
    ensures
        chord_code(0x3e4c_95cd, 0x3e45_5e8d, 0x3e4d_5e8d, 0x42f3_ec80, 0x42f8_7167) == 124,
{
    reveal(chord_code);
    lemma2_to64();
    lemma2_to64_rest();
    lemma_high_powers();
    assert(0xcd_5e8d * 0x1 - 0xc5_5e8d * 0x1 == 0x8_0000);
    lemma_sum_known(0x3e4d_5e8d, 0x3e45_5e8d, true, 0xcd_5e8d, 123, 0xc5_5e8d, 123, 0x1, 0x1, 0x8_0000, 20, 0x8_0000, 0x10);
    assert(sub_spec(0x3e4d_5e8d, 0x3e45_5e8d) == 0x3c00_0000);
    assert(0xcc_95cd * 0x1 - 0xc5_5e8d * 0x1 == 0x7_3740);
    lemma_sum_known(0x3e4c_95cd, 0x3e45_5e8d, true, 0xcc_95cd, 123, 0xc5_5e8d, 123, 0x1, 0x1, 0x7_3740, 19, 0x4_0000, 0x20);
    assert(sub_spec(0x3e4c_95cd, 0x3e45_5e8d) == 0x3be6_e800);
    assert(0xf8_7167 * 0x1 - 0xf3_ec80 * 0x1 == 0x4_84e7);
    lemma_sum_known(0x42f8_7167, 0x42f3_ec80, true, 0xf8_7167, 132, 0xf3_ec80, 132, 0x1, 0x1, 0x4_84e7, 19, 0x4_0000, 0x20);
    assert(sub_spec(0x42f8_7167, 0x42f3_ec80) == 0x4010_9ce0);
    assert(0x90_9ce0 * 0xe6_e800 == 0x826f_ff6b_0000);
    lemma_product_known(0x4010_9ce0, 0x3be6_e800, 0x90_9ce0, 127, 0xe6_e800, 118, 0x826f_ff6b_0000, 48, 0x8000_0000_0000, 0x100_0000);
    assert(mul_spec(0x4010_9ce0, 0x3be6_e800) == 0x3c82_6fff);
    assert(0x82_6fff * 0x1_0000_0000_0000_0000 == 0x1_04df_fe00_0000_0000 * 0x80_0000 + 0x0);
    lemma_quotient_known(0x3c82_6fff, 0x3c00_0000, 0x82_6fff, 120, 0x80_0000, 119, 0x1_04df_fe00_0000_0000, 0x0, 66, 0x2_0000_0000_0000_0000, 0x400_0000_0000);
    assert(div_spec(0x3c82_6fff, 0x3c00_0000) == 0x4002_6fff);
    assert(0xf3_ec80 * 0x20 + 0x82_6fff * 0x1 == 0x1eff_ffff);
    lemma_sum_known(0x42f3_ec80, 0x4002_6fff, false, 0xf3_ec80, 132, 0x82_6fff, 127, 0x20, 0x1, 0x1eff_ffff, 29, 0x1000_0000, 0x20);
    assert(add_spec(0x42f3_ec80, 0x4002_6fff) == 0x42f8_0000);
    lemma_whole_known(0x42f8_0000, 0xf8_0000, 132, 0x2_0000);
}

/// The edge of code 123.
proof fn lemma_near_123()
    ensures
        near_exact_edge(0x3e4c_95cc, 123),
{
    lemma2_to64();
    lemma2_to64_rest();
    lemma_fifth_powers_of_two();
    lemma_more_fifth_powers_of_two();
    assert(137525nat * 137525 * 137525 == 0x9_3d9e_ee3e_388d);
    assert(269025nat * 269025 * 269025 == 0x45_2c59_9066_9ca1);
    assert(0x9_3d9e_ee3e_388dnat * 0x9_3d9e_ee3e_388d == 0x55_6401_e094_9362_c051_9cc9_fda9nat);
    assert(0x55_6401_e094_9362_c051_9cc9_fda9nat * 0x55_6401_e094_9362_c051_9cc9_fda9nat == 0x1c7b_9050_9a21_78e6_5b5e_f0db_39ae_51cd_9491_dfba_d178_46b9_7991nat);
    assert(0x45_2c59_9066_9ca1nat * 0x45_2c59_9066_9ca1 == 0x12b0_eff6_c049_6d6d_d948_5020_9d41nat);
    assert(0x12b0_eff6_c049_6d6d_d948_5020_9d41nat * 0x12b0_eff6_c049_6d6d_d948_5020_9d41nat == 0x15d_5c09_8741_6139_2178_92b9_bce5_5f46_89a2_dd05_b95f_0d00_50d8_ca81nat);
    assert(0x3fe_a8fcnat * 0x3fe_a8fc == 0xf_f549_ab9b_b810);
    assert(0xf_f549_ab9b_b810nat * 0xf_f549_ab9b_b810 == 0xfe_a9a8_33ea_f206_ffbd_c7b7_0100nat);
    assert(0xfe_a9a8_33ea_f206_ffbd_c7b7_0100nat * 0x3fe_a8fc == 0x3_f951_6784_a797_820b_ce5b_9676_aecc_fc00nat);
    assert(0x3ff_30fcnat * 0x3ff_30fc == 0xf_f988_8767_7810);
    assert(0xf_f988_8767_7810nat * 0xf_f988_8767_7810 == 0xff_313a_be57_7efc_fb72_b52f_0100nat);
    assert(0xff_313a_be57_7efc_fb72_b52f_0100nat * 0x3ff_30fc == 0x3_fbf6_8e2e_1928_3ae1_3f8f_0db8_2974_fc00nat);
    assert(0x3_f951_6784_a797_820b_ce5b_9676_aecc_fc00nat * 0x15d_5c09_8741_6139_2178_92b9_bce5_5f46_89a2_dd05_b95f_0d00_50d8_ca81nat == 0x56c_51b9_3e66_870d_be93_8a18_6a39_338b_55a4_89df_5550_e8ae_dd44_e314_4302_918e_82f6_8821_3870_0370_7422_fc00nat);
    assert(0x3_fbf6_8e2e_1928_3ae1_3f8f_0db8_2974_fc00nat * 0x15d_5c09_8741_6139_2178_92b9_bce5_5f46_89a2_dd05_b95f_0d00_50d8_ca81nat == 0x56f_edd2_667f_5e72_10bf_9155_26b8_2b52_550b_050a_6b2d_10e5_a970_1ea0_b290_37ed_3379_ef45_7d0c_c3f7_d2ca_fc00nat);
    assert(0xc35nat * 0x4_0000_0000_0000_0000_0000_0000_0000_0000nat == 0x30d4_0000_0000_0000_0000_0000_0000_0000_0000nat);
    assert(0x1c7b_9050_9a21_78e6_5b5e_f0db_39ae_51cd_9491_dfba_d178_46b9_7991nat * 0x30d4_0000_0000_0000_0000_0000_0000_0000_0000nat == 0x56e_c162_9fa5_ea63_4fe5_77c8_905c_73b2_4a1a_62c0_4dfc_04dd_5863_dc14_0000_0000_0000_0000_0000_0000_0000_0000nat);
    lemma_near_above(
        0x3e4c_95cc, 0xcc_95cc, 123, 0x400, 0x30d4_0000_0000_0000_0000_0000_0000_0000_0000nat, 123,
        137525, 0x9_3d9e_ee3e_388d,
        0x55_6401_e094_9362_c051_9cc9_fda9nat,
        0x45_2c59_9066_9ca1, 0x12b0_eff6_c049_6d6d_d948_5020_9d41nat,
        0x3fe_a8fc, 0xf_f549_ab9b_b810, 0xfe_a9a8_33ea_f206_ffbd_c7b7_0100nat,
        0x3ff_30fc, 0xf_f988_8767_7810, 0xff_313a_be57_7efc_fb72_b52f_0100nat,
    );
}

/// The value 0x3e50_2fcf.
proof fn lemma_at_3e502fcf()
    ensures
        chord_code(0x3e50_2fcf, 0x3e4d_5e8d, 0x3e55_5e8d, 0x42f8_7167, 0x42fc_dd34) == 124,
{
    reveal(chord_code);
    lemma2_to64();
    lemma2_to64_rest();
    lemma_high_powers();
    assert(0xd5_5e8d * 0x1 - 0xcd_5e8d * 0x1 == 0x8_0000);
    lemma_sum_known(0x3e55_5e8d, 0x3e4d_5e8d, true, 0xd5_5e8d, 123, 0xcd_5e8d, 123, 0x1, 0x1, 0x8_0000, 20, 0x8_0000, 0x10);
    assert(sub_spec(0x3e55_5e8d, 0x3e4d_5e8d) == 0x3c00_0000);
    assert(0xd0_2fcf * 0x1 - 0xcd_5e8d * 0x1 == 0x2_d142);
    lemma_sum_known(0x3e50_2fcf, 0x3e4d_5e8d, true, 0xd0_2fcf, 123, 0xcd_5e8d, 123, 0x1, 0x1, 0x2_d142, 18, 0x2_0000, 0x40);
    assert(sub_spec(0x3e50_2fcf, 0x3e4d_5e8d) == 0x3b34_5080);
    assert(0xfc_dd34 * 0x1 - 0xf8_7167 * 0x1 == 0x4_6bcd);
    lemma_sum_known(0x42fc_dd34, 0x42f8_7167, true, 0xfc_dd34, 132, 0xf8_7167, 132, 0x1, 0x1, 0x4_6bcd, 19, 0x4_0000, 0x20);
    assert(sub_spec(0x42fc_dd34, 0x42f8_7167) == 0x400d_79a0);
    assert(0x8d_79a0 * 0xb4_5080 == 0x63a6_013e_d000);
    lemma_product_known(0x400d_79a0, 0x3b34_5080, 0x8d_79a0, 127, 0xb4_5080, 117, 0x63a6_013e_d000, 47, 0x4000_0000_0000, 0x80_0000);
    assert(mul_spec(0x400d_79a0, 0x3b34_5080) == 0x3bc7_4c02);
    assert(0xc7_4c02 * 0x1_0000_0000_0000_0000 == 0x1_8e98_0400_0000_0000 * 0x80_0000 + 0x0);
    lemma_quotient_known(0x3bc7_4c02, 0x3c00_0000, 0xc7_4c02, 118, 0x80_0000, 119, 0x1_8e98_0400_0000_0000, 0x0, 66, 0x2_0000_0000_0000_0000, 0x400_0000_0000);
    assert(div_spec(0x3bc7_4c02, 0x3c00_0000) == 0x3f47_4c02);
    assert(0xf8_7167 * 0x80 + 0xc7_4c02 * 0x1 == 0x7cff_ff82);
    lemma_sum_known(0x42f8_7167, 0x3f47_4c02, false, 0xf8_7167, 132, 0xc7_4c02, 125, 0x80, 0x1, 0x7cff_ff82, 31, 0x4000_0000, 0x80);
    assert(add_spec(0x42f8_7167, 0x3f47_4c02) == 0x42f9_ffff);
    lemma_whole_known(0x42f9_ffff, 0xf9_ffff, 132, 0x2_0000);
}

/// The value 0x3e50_2fd0.
proof fn lemma_at_3e502fd0()
    ensures
        chord_code(0x3e50_2fd0, 0x3e4d_5e8d, 0x3e55_5e8d, 0x42f8_7167, 0x42fc_dd34) == 125,
{
    reveal(chord_code);
    lemma2_to64();
    lemma2_to64_rest();
    lemma_high_powers();
    assert(0xd5_5e8d * 0x1 - 0xcd_5e8d * 0x1 == 0x8_0000);
    lemma_sum_known(0x3e55_5e8d, 0x3e4d_5e8d, true, 0xd5_5e8d, 123, 0xcd_5e8d, 123, 0x1, 0x1, 0x8_0000, 20, 0x8_0000, 0x10);
    assert(sub_spec(0x3e55_5e8d, 0x3e4d_5e8d) == 0x3c00_0000);
    assert(0xd0_2fd0 * 0x1 - 0xcd_5e8d * 0x1 == 0x2_d143);
    lemma_sum_known(0x3e50_2fd0, 0x3e4d_5e8d, true, 0xd0_2fd0, 123, 0xcd_5e8d, 123, 0x1, 0x1, 0x2_d143, 18, 0x2_0000, 0x40);
    assert(sub_spec(0x3e50_2fd0, 0x3e4d_5e8d) == 0x3b34_50c0);
    assert(0xfc_dd34 * 0x1 - 0xf8_7167 * 0x1 == 0x4_6bcd);
    lemma_sum_known(0x42fc_dd34, 0x42f8_7167, true, 0xfc_dd34, 132, 0xf8_7167, 132, 0x1, 0x1, 0x4_6bcd, 19, 0x4_0000, 0x20);
    assert(sub_spec(0x42fc_dd34, 0x42f8_7167) == 0x400d_79a0);
    assert(0x8d_79a0 * 0xb4_50c0 == 0x63a6_249d_3800);
    lemma_product_known(0x400d_79a0, 0x3b34_50c0, 0x8d_79a0, 127, 0xb4_50c0, 117, 0x63a6_249d_3800, 47, 0x4000_0000_0000, 0x80_0000);
    assert(mul_spec(0x400d_79a0, 0x3b34_50c0) == 0x3bc7_4c49);
    assert(0xc7_4c49 * 0x1_0000_0000_0000_0000 == 0x1_8e98_9200_0000_0000 * 0x80_0000 + 0x0);
    lemma_quotient_known(0x3bc7_4c49, 0x3c00_0000, 0xc7_4c49, 118, 0x80_0000, 119, 0x1_8e98_9200_0000_0000, 0x0, 66, 0x2_0000_0000_0000_0000, 0x400_0000_0000);
    assert(div_spec(0x3bc7_4c49, 0x3c00_0000) == 0x3f47_4c49);
    assert(0xf8_7167 * 0x80 + 0xc7_4c49 * 0x1 == 0x7cff_ffc9);
    lemma_sum_known(0x42f8_7167, 0x3f47_4c49, false, 0xf8_7167, 132, 0xc7_4c49, 125, 0x80, 0x1, 0x7cff_ffc9, 31, 0x4000_0000, 0x80);
    assert(add_spec(0x42f8_7167, 0x3f47_4c49) == 0x42fa_0000);
    lemma_whole_known(0x42fa_0000, 0xfa_0000, 132, 0x2_0000);
}

/// The edge of code 124.
proof fn lemma_near_124()
    ensures
        near_exact_edge(0x3e50_2fcf, 124),
{
    lemma2_to64();
    lemma2_to64_rest();
    lemma_fifth_powers_of_two();
    lemma_more_fifth_powers_of_two();
    assert(138525nat * 138525 * 138525 == 0x9_7199_e3a3_2e45);
    assert(269025nat * 269025 * 269025 == 0x45_2c59_9066_9ca1);
    assert(0x9_7199_e3a3_2e45nat * 0x9_7199_e3a3_2e45 == 0x59_2f3b_38f1_332b_048c_523a_de99nat);
    assert(0x59_2f3b_38f1_332b_048c_523a_de99nat * 0x59_2f3b_38f1_332b_048c_523a_de99nat == 0x1f11_dfe4_6451_708a_f4b4_ff04_6a77_ccbb_d005_9f28_037b_a2e1_b771nat);
    assert(0x45_2c59_9066_9ca1nat * 0x45_2c59_9066_9ca1 == 0x12b0_eff6_c049_6d6d_d948_5020_9d41nat);
    assert(0x12b0_eff6_c049_6d6d_d948_5020_9d41nat * 0x12b0_eff6_c049_6d6d_d948_5020_9d41nat == 0x15d_5c09_8741_6139_2178_92b9_bce5_5f46_89a2_dd05_b95f_0d00_50d8_ca81nat);
    assert(0x410_ab0bnat * 0x410_ab0b == 0x10_866e_2ba7_b279);
    assert(0x10_866e_2ba7_b279nat * 0x10_866e_2ba7_b279 == 0x111_145c_fa13_6985_cfca_fc4a_7d31nat);
    assert(0x111_145c_fa13_6985_cfca_fc4a_7d31nat * 0x410_ab0b == 0x4_5619_2e0d_e9e6_65ee_132d_72db_2fe3_1c1bnat);
    assert(0x411_330bnat * 0x411_330b == 0x10_8ac0_29a3_6279);
    assert(0x10_8ac0_29a3_6279nat * 0x10_8ac0_29a3_6279 == 0x111_a338_f18e_f123_e751_4df6_dd31nat);
    assert(0x111_a338_f18e_f123_e751_4df6_dd31nat * 0x411_330b == 0x4_58ef_49d4_a1d4_6e2e_253e_2bdf_fbed_441bnat);
    assert(0x4_5619_2e0d_e9e6_65ee_132d_72db_2fe3_1c1bnat * 0x15d_5c09_8741_6139_2178_92b9_bce5_5f46_89a2_dd05_b95f_0d00_50d8_ca81nat == 0x5ea_ef6e_26ea_46ea_4a5e_ca2f_8e6b_82fe_632a_6a09_9544_8f8f_c59d_ff3d_f74c_996d_9ef5_7be3_67e1_93a4_7c66_779bnat);
    assert(0x4_58ef_49d4_a1d4_6e2e_253e_2bdf_fbed_441bnat * 0x15d_5c09_8741_6139_2178_92b9_bce5_5f46_89a2_dd05_b95f_0d00_50d8_ca81nat == 0x5ee_ce57_11d5_0c98_2711_6006_437a_8162_6bd6_2ec3_d5f6_fbbf_5115_c763_1b67_4303_2679_bf64_ac23_ed21_1114_9f9bnat);
    assert(0xc35nat * 0x4_0000_0000_0000_0000_0000_0000_0000_0000nat == 0x30d4_0000_0000_0000_0000_0000_0000_0000_0000nat);
    assert(0x1f11_dfe4_6451_708a_f4b4_ff04_6a77_ccbb_d005_9f28_037b_a2e1_b771nat * 0x30d4_0000_0000_0000_0000_0000_0000_0000_0000nat == 0x5ed_14c8_3bf2_588b_40f4_95b4_039e_a198_c289_527f_4dca_10ed_3551_1994_0000_0000_0000_0000_0000_0000_0000_0000nat);
    lemma_near_above(
        0x3e50_2fcf, 0xd0_2fcf, 123, 0x400, 0x30d4_0000_0000_0000_0000_0000_0000_0000_0000nat, 124,
        138525, 0x9_7199_e3a3_2e45,
        0x59_2f3b_38f1_332b_048c_523a_de99nat,
        0x45_2c59_9066_9ca1, 0x12b0_eff6_c049_6d6d_d948_5020_9d41nat,
        0x410_ab0b, 0x10_866e_2ba7_b279, 0x111_145c_fa13_6985_cfca_fc4a_7d31nat,
        0x411_330b, 0x10_8ac0_29a3_6279, 0x111_a338_f18e_f123_e751_4df6_dd31nat,
    );
}

/// The value 0x3e53_ce47.
proof fn lemma_at_3e53ce47()
    ensures
        chord_code(0x3e53_ce47, 0x3e4d_5e8d, 0x3e55_5e8d, 0x42f8_7167, 0x42fc_dd34) == 125,
{
    reveal(chord_code);
    lemma2_to64();
    lemma2_to64_rest();
    lemma_high_powers();
    assert(0xd5_5e8d * 0x1 - 0xcd_5e8d * 0x1 == 0x8_0000);
    lemma_sum_known(0x3e55_5e8d, 0x3e4d_5e8d, true, 0xd5_5e8d, 123, 0xcd_5e8d, 123, 0x1, 0x1, 0x8_0000, 20, 0x8_0000, 0x10);
    assert(sub_spec(0x3e55_5e8d, 0x3e4d_5e8d) == 0x3c00_0000);
    assert(0xd3_ce47 * 0x1 - 0xcd_5e8d * 0x1 == 0x6_6fba);
    lemma_sum_known(0x3e53_ce47, 0x3e4d_5e8d, true, 0xd3_ce47, 123, 0xcd_5e8d, 123, 0x1, 0x1, 0x6_6fba, 19, 0x4_0000, 0x20);
    assert(sub_spec(0x3e53_ce47, 0x3e4d_5e8d) == 0x3bcd_f740);
    assert(0xfc_dd34 * 0x1 - 0xf8_7167 * 0x1 == 0x4_6bcd);
    lemma_sum_known(0x42fc_dd34, 0x42f8_7167, true, 0xfc_dd34, 132, 0xf8_7167, 132, 0x1, 0x1, 0x4_6bcd, 19, 0x4_0000, 0x20);
    assert(sub_spec(0x42fc_dd34, 0x42f8_7167) == 0x400d_79a0);
    assert(0x8d_79a0 * 0xcd_f740 == 0x71d3_08d7_c800);
    lemma_product_known(0x400d_79a0, 0x3bcd_f740, 0x8d_79a0, 127, 0xcd_f740, 118, 0x71d3_08d7_c800, 47, 0x4000_0000_0000, 0x80_0000);
    assert(mul_spec(0x400d_79a0, 0x3bcd_f740) == 0x3c63_a612);
    assert(0xe3_a612 * 0x1_0000_0000_0000_0000 == 0x1_c74c_2400_0000_0000 * 0x80_0000 + 0x0);
    lemma_quotient_known(0x3c63_a612, 0x3c00_0000, 0xe3_a612, 119, 0x80_0000, 119, 0x1_c74c_2400_0000_0000, 0x0, 66, 0x2_0000_0000_0000_0000, 0x400_0000_0000);
    assert(div_spec(0x3c63_a612, 0x3c00_0000) == 0x3fe3_a612);
    assert(0xf8_7167 * 0x40 + 0xe3_a612 * 0x1 == 0x3eff_ffd2);
    lemma_sum_known(0x42f8_7167, 0x3fe3_a612, false, 0xf8_7167, 132, 0xe3_a612, 126, 0x40, 0x1, 0x3eff_ffd2, 30, 0x2000_0000, 0x40);
    assert(add_spec(0x42f8_7167, 0x3fe3_a612) == 0x42fb_ffff);
    lemma_whole_known(0x42fb_ffff, 0xfb_ffff, 132, 0x2_0000);
}

/// The value 0x3e53_ce48.
proof fn lemma_at_3e53ce48()
    ensures
        chord_code(0x3e53_ce48, 0x3e4d_5e8d, 0x3e55_5e8d, 0x42f8_7167, 0x42fc_dd34) == 126,
{
    reveal(chord_code);
    lemma2_to64();
    lemma2_to64_rest();
    lemma_high_powers();
    assert(0xd5_5e8d * 0x1 - 0xcd_5e8d * 0x1 == 0x8_0000);
    lemma_sum_known(0x3e55_5e8d, 0x3e4d_5e8d, true, 0xd5_5e8d, 123, 0xcd_5e8d, 123, 0x1, 0x1, 0x8_0000, 20, 0x8_0000, 0x10);
    assert(sub_spec(0x3e55_5e8d, 0x3e4d_5e8d) == 0x3c00_0000);
    assert(0xd3_ce48 * 0x1 - 0xcd_5e8d * 0x1 == 0x6_6fbb);
    lemma_sum_known(0x3e53_ce48, 0x3e4d_5e8d, true, 0xd3_ce48, 123, 0xcd_5e8d, 123, 0x1, 0x1, 0x6_6fbb, 19, 0x4_0000, 0x20);
    assert(sub_spec(0x3e53_ce48, 0x3e4d_5e8d) == 0x3bcd_f760);
    assert(0xfc_dd34 * 0x1 - 0xf8_7167 * 0x1 == 0x4_6bcd);
    lemma_sum_known(0x42fc_dd34, 0x42f8_7167, true, 0xfc_dd34, 132, 0xf8_7167, 132, 0x1, 0x1, 0x4_6bcd, 19, 0x4_0000, 0x20);
    assert(sub_spec(0x42fc_dd34, 0x42f8_7167) == 0x400d_79a0);
    assert(0x8d_79a0 * 0xcd_f760 == 0x71d3_1a86_fc00);
    lemma_product_known(0x400d_79a0, 0x3bcd_f760, 0x8d_79a0, 127, 0xcd_f760, 118, 0x71d3_1a86_fc00, 47, 0x4000_0000_0000, 0x80_0000);
    assert(mul_spec(0x400d_79a0, 0x3bcd_f760) == 0x3c63_a635);
    assert(0xe3_a635 * 0x1_0000_0000_0000_0000 == 0x1_c74c_6a00_0000_0000 * 0x80_0000 + 0x0);
    lemma_quotient_known(0x3c63_a635, 0x3c00_0000, 0xe3_a635, 119, 0x80_0000, 119, 0x1_c74c_6a00_0000_0000, 0x0, 66, 0x2_0000_0000_0000_0000, 0x400_0000_0000);
    assert(div_spec(0x3c63_a635, 0x3c00_0000) == 0x3fe3_a635);
    assert(0xf8_7167 * 0x40 + 0xe3_a635 * 0x1 == 0x3eff_fff5);
    lemma_sum_known(0x42f8_7167, 0x3fe3_a635, false, 0xf8_7167, 132, 0xe3_a635, 126, 0x40, 0x1, 0x3eff_fff5, 30, 0x2000_0000, 0x40);
    assert(add_spec(0x42f8_7167, 0x3fe3_a635) == 0x42fc_0000);
    lemma_whole_known(0x42fc_0000, 0xfc_0000, 132, 0x2_0000);
}

/// The edge of code 125.
proof fn lemma_near_125()
    ensures
        near_exact_edge(0x3e53_ce47, 125),
{
    lemma2_to64();
    lemma2_to64_rest();
    lemma_fifth_powers_of_two();
    lemma_more_fifth_powers_of_two();
    assert(139525nat * 139525 * 139525 == 0x9_a656_5d6e_ab7d);
    assert(269025nat * 269025 * 269025 == 0x45_2c59_9066_9ca1);
    assert(0x9_a656_5d6e_ab7dnat * 0x9_a656_5d6e_ab7d == 0x5d_1e26_b016_7da4_ec6c_a44c_3b09nat);
    assert(0x5d_1e26_b016_7da4_ec6c_a44c_3b09nat * 0x5d_1e26_b016_7da4_ec6c_a44c_3b09nat == 0x21de_eba9_0775_4f12_aa0b_a13e_06b8_8eef_f5e6_0424_29ee_a2f5_2651nat);
    assert(0x45_2c59_9066_9ca1nat * 0x45_2c59_9066_9ca1 == 0x12b0_eff6_c049_6d6d_d948_5020_9d41nat);
    assert(0x12b0_eff6_c049_6d6d_d948_5020_9d41nat * 0x12b0_eff6_c049_6d6d_d948_5020_9d41nat == 0x15d_5c09_8741_6139_2178_92b9_bce5_5f46_89a2_dd05_b95f_0d00_50d8_ca81nat);
    assert(0x422_c363nat * 0x422_c363 == 0x11_1ad3_936b_f849);
    assert(0x11_1ad3_936b_f849nat * 0x11_1ad3_936b_f849 == 0x124_92e9_3d25_4101_4903_53d3_84d1nat);
    assert(0x124_92e9_3d25_4101_4903_53d3_84d1nat * 0x422_c363 == 0x4_ba06_74fb_2dbc_ad3b_dddd_354e_70b9_8fd3nat);
    assert(0x423_4b63nat * 0x423_4b63 == 0x11_1f38_cb45_2849);
    assert(0x11_1f38_cb45_2849nat * 0x11_1f38_cb45_2849 == 0x125_2959_cd03_a91c_0e82_83b0_e4d1nat);
    assert(0x125_2959_cd03_a91c_0e82_83b0_e4d1nat * 0x423_4b63 == 0x4_bd10_62f7_62ee_ea05_a400_9dd0_4d04_b7d3nat);
    assert(0x4_ba06_74fb_2dbc_ad3b_dddd_354e_70b9_8fd3nat * 0x15d_5c09_8741_6139_2178_92b9_bce5_5f46_89a2_dd05_b95f_0d00_50d8_ca81nat == 0x673_4dd4_d600_2a5b_395e_238d_0395_6f4e_527e_b8f3_5008_7715_226f_b348_7649_f2cd_d332_bb2d_1c8b_91fc_8305_f753nat);
    assert(0x4_bd10_62f7_62ee_ea05_a400_9dd0_4d04_b7d3nat * 0x15d_5c09_8741_6139_2178_92b9_bce5_5f46_89a2_dd05_b95f_0d00_50d8_ca81nat == 0x677_7375_f54f_b400_e2ed_2b51_d495_505e_6092_01f2_0e96_e010_0d39_dce5_5706_88a7_8956_41b6_504b_0f29_9275_1f53nat);
    assert(0xc35nat * 0x4_0000_0000_0000_0000_0000_0000_0000_0000nat == 0x30d4_0000_0000_0000_0000_0000_0000_0000_0000nat);
    assert(0x21de_eba9_0775_4f12_aa0b_a13e_06b8_8eef_f5e6_0424_29ee_a2f5_2651nat * 0x30d4_0000_0000_0000_0000_0000_0000_0000_0000nat == 0x675_d8ca_d960_2bf8_fb56_ffdd_28a0_2ba3_5cd2_c342_35cf_782c_ea32_eb14_0000_0000_0000_0000_0000_0000_0000_0000nat);
    lemma_near_above(
        0x3e53_ce47, 0xd3_ce47, 123, 0x400, 0x30d4_0000_0000_0000_0000_0000_0000_0000_0000nat, 125,
        139525, 0x9_a656_5d6e_ab7d,
        0x5d_1e26_b016_7da4_ec6c_a44c_3b09nat,
        0x45_2c59_9066_9ca1, 0x12b0_eff6_c049_6d6d_d948_5020_9d41nat,
        0x422_c363, 0x11_1ad3_936b_f849, 0x124_92e9_3d25_4101_4903_53d3_84d1nat,
        0x423_4b63, 0x11_1f38_cb45_2849, 0x125_2959_cd03_a91c_0e82_83b0_e4d1nat,
    );
}

/// The value 0x3e57_7860.
proof fn lemma_at_3e577860()
    ensures
        chord_code(0x3e57_7860, 0x3e55_5e8d, 0x3e5d_5e8d, 0x42fc_dd34, 0x4300_9843) == 126,
{
    reveal(chord_code);
    lemma2_to64();
    lemma2_to64_rest();
    lemma_high_powers();
    assert(0xdd_5e8d * 0x1 - 0xd5_5e8d * 0x1 == 0x8_0000);
    lemma_sum_known(0x3e5d_5e8d, 0x3e55_5e8d, true, 0xdd_5e8d, 123, 0xd5_5e8d, 123, 0x1, 0x1, 0x8_0000, 20, 0x8_0000, 0x10);
    assert(sub_spec(0x3e5d_5e8d, 0x3e55_5e8d) == 0x3c00_0000);
    assert(0xd7_7860 * 0x1 - 0xd5_5e8d * 0x1 == 0x2_19d3);
    lemma_sum_known(0x3e57_7860, 0x3e55_5e8d, true, 0xd7_7860, 123, 0xd5_5e8d, 123, 0x1, 0x1, 0x2_19d3, 18, 0x2_0000, 0x40);
    assert(sub_spec(0x3e57_7860, 0x3e55_5e8d) == 0x3b06_74c0);
    assert(0x80_9843 * 0x2 - 0xfc_dd34 * 0x1 == 0x4_5352);
    lemma_sum_known(0x4300_9843, 0x42fc_dd34, true, 0x80_9843, 133, 0xfc_dd34, 132, 0x2, 0x1, 0x4_5352, 19, 0x4_0000, 0x20);
    assert(sub_spec(0x4300_9843, 0x42fc_dd34) == 0x400a_6a40);
    assert(0x8a_6a40 * 0x86_74c0 == 0x48b2_bd74_b000);
    lemma_product_known(0x400a_6a40, 0x3b06_74c0, 0x8a_6a40, 127, 0x86_74c0, 117, 0x48b2_bd74_b000, 47, 0x4000_0000_0000, 0x80_0000);
    assert(mul_spec(0x400a_6a40, 0x3b06_74c0) == 0x3b91_657b);
    assert(0x91_657b * 0x1_0000_0000_0000_0000 == 0x1_22ca_f600_0000_0000 * 0x80_0000 + 0x0);
    lemma_quotient_known(0x3b91_657b, 0x3c00_0000, 0x91_657b, 118, 0x80_0000, 119, 0x1_22ca_f600_0000_0000, 0x0, 66, 0x2_0000_0000_0000_0000, 0x400_0000_0000);
    assert(div_spec(0x3b91_657b, 0x3c00_0000) == 0x3f11_657b);
    assert(0xfc_dd34 * 0x80 + 0x91_657b * 0x1 == 0x7eff_ff7b);
    lemma_sum_known(0x42fc_dd34, 0x3f11_657b, false, 0xfc_dd34, 132, 0x91_657b, 125, 0x80, 0x1, 0x7eff_ff7b, 31, 0x4000_0000, 0x80);
    assert(add_spec(0x42fc_dd34, 0x3f11_657b) == 0x42fd_ffff);
    lemma_whole_known(0x42fd_ffff, 0xfd_ffff, 132, 0x2_0000);
}

/// The value 0x3e57_7861.
proof fn lemma_at_3e577861()
    ensures
        chord_code(0x3e57_7861, 0x3e55_5e8d, 0x3e5d_5e8d, 0x42fc_dd34, 0x4300_9843) == 127,
{
    reveal(chord_code);
    lemma2_to64();
    lemma2_to64_rest();
    lemma_high_powers();
    assert(0xdd_5e8d * 0x1 - 0xd5_5e8d * 0x1 == 0x8_0000);
    lemma_sum_known(0x3e5d_5e8d, 0x3e55_5e8d, true, 0xdd_5e8d, 123, 0xd5_5e8d, 123, 0x1, 0x1, 0x8_0000, 20, 0x8_0000, 0x10);
    assert(sub_spec(0x3e5d_5e8d, 0x3e55_5e8d) == 0x3c00_0000);
    assert(0xd7_7861 * 0x1 - 0xd5_5e8d * 0x1 == 0x2_19d4);
    lemma_sum_known(0x3e57_7861, 0x3e55_5e8d, true, 0xd7_7861, 123, 0xd5_5e8d, 123, 0x1, 0x1, 0x2_19d4, 18, 0x2_0000, 0x40);
    assert(sub_spec(0x3e57_7861, 0x3e55_5e8d) == 0x3b06_7500);
    assert(0x80_9843 * 0x2 - 0xfc_dd34 * 0x1 == 0x4_5352);
    lemma_sum_known(0x4300_9843, 0x42fc_dd34, true, 0x80_9843, 133, 0xfc_dd34, 132, 0x2, 0x1, 0x4_5352, 19, 0x4_0000, 0x20);
    assert(sub_spec(0x4300_9843, 0x42fc_dd34) == 0x400a_6a40);
    assert(0x8a_6a40 * 0x86_7500 == 0x48b2_e00f_4000);
    lemma_product_known(0x400a_6a40, 0x3b06_7500, 0x8a_6a40, 127, 0x86_7500, 117, 0x48b2_e00f_4000, 47, 0x4000_0000_0000, 0x80_0000);
    assert(mul_spec(0x400a_6a40, 0x3b06_7500) == 0x3b91_65c0);
    assert(0x91_65c0 * 0x1_0000_0000_0000_0000 == 0x1_22cb_8000_0000_0000 * 0x80_0000 + 0x0);
    lemma_quotient_known(0x3b91_65c0, 0x3c00_0000, 0x91_65c0, 118, 0x80_0000, 119, 0x1_22cb_8000_0000_0000, 0x0, 66, 0x2_0000_0000_0000_0000, 0x400_0000_0000);
    assert(div_spec(0x3b91_65c0, 0x3c00_0000) == 0x3f11_65c0);
    assert(0xfc_dd34 * 0x80 + 0x91_65c0 * 0x1 == 0x7eff_ffc0);
    lemma_sum_known(0x42fc_dd34, 0x3f11_65c0, false, 0xfc_dd34, 132, 0x91_65c0, 125, 0x80, 0x1, 0x7eff_ffc0, 31, 0x4000_0000, 0x80);
    assert(add_spec(0x42fc_dd34, 0x3f11_65c0) == 0x42fe_0000);
    lemma_whole_known(0x42fe_0000, 0xfe_0000, 132, 0x2_0000);
}

/// The edge of code 126.
proof fn lemma_near_126()
    ensures
        near_exact_edge(0x3e57_7860, 126),
{
    lemma2_to64();
    lemma2_to64_rest();
    lemma_fifth_powers_of_two();
    lemma_more_fifth_powers_of_two();
    assert(140525nat * 140525 * 140525 == 0x9_dbd5_c141_6c35);
    assert(269025nat * 269025 * 269025 == 0x45_2c59_9066_9ca1);
    assert(0x9_dbd5_c141_6c35nat * 0x9_dbd5_c141_6c35 == 0x61_31cf_01ba_b39e_7412_0aa6_c2f9nat);
    assert(0x61_31cf_01ba_b39e_7412_0aa6_c2f9nat * 0x61_31cf_01ba_b39e_7412_0aa6_c2f9nat == 0x24e6_c890_3589_62c8_15eb_6cd0_97b6_1e51_f941_81f2_86e0_e36a_5631nat);
    assert(0x45_2c59_9066_9ca1nat * 0x45_2c59_9066_9ca1 == 0x12b0_eff6_c049_6d6d_d948_5020_9d41nat);
    assert(0x12b0_eff6_c049_6d6d_d948_5020_9d41nat * 0x12b0_eff6_c049_6d6d_d948_5020_9d41nat == 0x15d_5c09_8741_6139_2178_92b9_bce5_5f46_89a2_dd05_b95f_0d00_50d8_ca81nat);
    assert(0x435_15e0nat * 0x435_15e0 == 0x11_b3b1_109e_8400);
    assert(0x11_b3b1_109e_8400nat * 0x11_b3b1_109e_8400 == 0x139_5ba5_4cc3_30de_baa7_3410_0000nat);
    assert(0x139_5ba5_4cc3_30de_baa7_3410_0000nat * 0x435_15e0 == 0x5_2669_5520_b11b_c6d4_49a1_10e2_de00_0000nat);
    assert(0x435_9de0nat * 0x435_9de0 == 0x11_b829_c01c_8400);
    assert(0x11_b829_c01c_8400nat * 0x11_b829_c01c_8400 == 0x139_fa07_8ec1_9f0d_112d_2410_0000nat);
    assert(0x139_fa07_8ec1_9f0d_112d_2410_0000nat * 0x435_9de0 == 0x5_29aa_82dc_fdbb_c9ef_71e0_6ded_5e00_0000nat);
    assert(0x5_2669_5520_b11b_c6d4_49a1_10e2_de00_0000nat * 0x15d_5c09_8741_6139_2178_92b9_bce5_5f46_89a2_dd05_b95f_0d00_50d8_ca81nat == 0x707_3797_fa6f_7201_429f_26c8_a1e9_816b_10ef_7ab8_ed05_677c_1a04_2f74_665a_f895_fe7d_0f85_5647_d57d_de00_0000nat);
    assert(0x5_29aa_82dc_fdbb_c9ef_71e0_6ded_5e00_0000nat * 0x15d_5c09_8741_6139_2178_92b9_bce5_5f46_89a2_dd05_b95f_0d00_50d8_ca81nat == 0x70b_a89e_df96_6335_06df_311f_b48b_6e85_900a_d3b4_b853_f897_8d64_a95d_ca22_3d69_ce2e_d900_667c_00c8_5e00_0000nat);
    assert(0xc35nat * 0x4_0000_0000_0000_0000_0000_0000_0000_0000nat == 0x30d4_0000_0000_0000_0000_0000_0000_0000_0000nat);
    assert(0x24e6_c890_3589_62c8_15eb_6cd0_97b6_1e51_f941_81f2_86e0_e36a_5631nat * 0x30d4_0000_0000_0000_0000_0000_0000_0000_0000nat == 0x709_d4b9_2176_184b_51ce_4b5d_392f_c880_7a9e_b29d_1621_dce0_4438_9094_0000_0000_0000_0000_0000_0000_0000_0000nat);
    lemma_near_above(
        0x3e57_7860, 0xd7_7860, 123, 0x400, 0x30d4_0000_0000_0000_0000_0000_0000_0000_0000nat, 126,
        140525, 0x9_dbd5_c141_6c35,
        0x61_31cf_01ba_b39e_7412_0aa6_c2f9nat,
        0x45_2c59_9066_9ca1, 0x12b0_eff6_c049_6d6d_d948_5020_9d41nat,
        0x435_15e0, 0x11_b3b1_109e_8400, 0x139_5ba5_4cc3_30de_baa7_3410_0000nat,
        0x435_9de0, 0x11_b829_c01c_8400, 0x139_fa07_8ec1_9f0d_112d_2410_0000nat,
    );
}

/// The value 0x3e5b_2b53.
proof fn lemma_at_3e5b2b53()
    ensures
        chord_code(0x3e5b_2b53, 0x3e55_5e8d, 0x3e5d_5e8d, 0x42fc_dd34, 0x4300_9843) == 127,
{
    reveal(chord_code);
    lemma2_to64();
    lemma2_to64_rest();
    lemma_high_powers();
    assert(0xdd_5e8d * 0x1 - 0xd5_5e8d * 0x1 == 0x8_0000);
    lemma_sum_known(0x3e5d_5e8d, 0x3e55_5e8d, true, 0xdd_5e8d, 123, 0xd5_5e8d, 123, 0x1, 0x1, 0x8_0000, 20, 0x8_0000, 0x10);
    assert(sub_spec(0x3e5d_5e8d, 0x3e55_5e8d) == 0x3c00_0000);
    assert(0xdb_2b53 * 0x1 - 0xd5_5e8d * 0x1 == 0x5_ccc6);
    lemma_sum_known(0x3e5b_2b53, 0x3e55_5e8d, true, 0xdb_2b53, 123, 0xd5_5e8d, 123, 0x1, 0x1, 0x5_ccc6, 19, 0x4_0000, 0x20);
    assert(sub_spec(0x3e5b_2b53, 0x3e55_5e8d) == 0x3bb9_98c0);
    assert(0x80_9843 * 0x2 - 0xfc_dd34 * 0x1 == 0x4_5352);
    lemma_sum_known(0x4300_9843, 0x42fc_dd34, true, 0x80_9843, 133, 0xfc_dd34, 132, 0x2, 0x1, 0x4_5352, 19, 0x4_0000, 0x20);
    assert(sub_spec(0x4300_9843, 0x42fc_dd34) == 0x400a_6a40);
    assert(0x8a_6a40 * 0xb9_98c0 == 0x6459_5f25_b000);
    lemma_product_known(0x400a_6a40, 0x3bb9_98c0, 0x8a_6a40, 127, 0xb9_98c0, 118, 0x6459_5f25_b000, 47, 0x4000_0000_0000, 0x80_0000);
    assert(mul_spec(0x400a_6a40, 0x3bb9_98c0) == 0x3c48_b2be);
    assert(0xc8_b2be * 0x1_0000_0000_0000_0000 == 0x1_9165_7c00_0000_0000 * 0x80_0000 + 0x0);
    lemma_quotient_known(0x3c48_b2be, 0x3c00_0000, 0xc8_b2be, 119, 0x80_0000, 119, 0x1_9165_7c00_0000_0000, 0x0, 66, 0x2_0000_0000_0000_0000, 0x400_0000_0000);
    assert(div_spec(0x3c48_b2be, 0x3c00_0000) == 0x3fc8_b2be);
    assert(0xfc_dd34 * 0x40 + 0xc8_b2be * 0x1 == 0x3fff_ffbe);
    lemma_sum_known(0x42fc_dd34, 0x3fc8_b2be, false, 0xfc_dd34, 132, 0xc8_b2be, 126, 0x40, 0x1, 0x3fff_ffbe, 30, 0x2000_0000, 0x40);
    assert(add_spec(0x42fc_dd34, 0x3fc8_b2be) == 0x42ff_ffff);
    lemma_whole_known(0x42ff_ffff, 0xff_ffff, 132, 0x2_0000);
}

/// The value 0x3e5b_2b54.
proof fn lemma_at_3e5b2b54()
    ensures
        chord_code(0x3e5b_2b54, 0x3e55_5e8d, 0x3e5d_5e8d, 0x42fc_dd34, 0x4300_9843) == 128,
{
    reveal(chord_code);
    lemma2_to64();
    lemma2_to64_rest();
    lemma_high_powers();
    assert(0xdd_5e8d * 0x1 - 0xd5_5e8d * 0x1 == 0x8_0000);
    lemma_sum_known(0x3e5d_5e8d, 0x3e55_5e8d, true, 0xdd_5e8d, 123, 0xd5_5e8d, 123, 0x1, 0x1, 0x8_0000, 20, 0x8_0000, 0x10);
    assert(sub_spec(0x3e5d_5e8d, 0x3e55_5e8d) == 0x3c00_0000);
    assert(0xdb_2b54 * 0x1 - 0xd5_5e8d * 0x1 == 0x5_ccc7);
    lemma_sum_known(0x3e5b_2b54, 0x3e55_5e8d, true, 0xdb_2b54, 123, 0xd5_5e8d, 123, 0x1, 0x1, 0x5_ccc7, 19, 0x4_0000, 0x20);
    assert(sub_spec(0x3e5b_2b54, 0x3e55_5e8d) == 0x3bb9_98e0);
    assert(0x80_9843 * 0x2 - 0xfc_dd34 * 0x1 == 0x4_5352);
    lemma_sum_known(0x4300_9843, 0x42fc_dd34, true, 0x80_9843, 133, 0xfc_dd34, 132, 0x2, 0x1, 0x4_5352, 19, 0x4_0000, 0x20);
    assert(sub_spec(0x4300_9843, 0x42fc_dd34) == 0x400a_6a40);
    assert(0x8a_6a40 * 0xb9_98e0 == 0x6459_7072_f800);
    lemma_product_known(0x400a_6a40, 0x3bb9_98e0, 0x8a_6a40, 127, 0xb9_98e0, 118, 0x6459_7072_f800, 47, 0x4000_0000_0000, 0x80_0000);
    assert(mul_spec(0x400a_6a40, 0x3bb9_98e0) == 0x3c48_b2e1);
    assert(0xc8_b2e1 * 0x1_0000_0000_0000_0000 == 0x1_9165_c200_0000_0000 * 0x80_0000 + 0x0);
    lemma_quotient_known(0x3c48_b2e1, 0x3c00_0000, 0xc8_b2e1, 119, 0x80_0000, 119, 0x1_9165_c200_0000_0000, 0x0, 66, 0x2_0000_0000_0000_0000, 0x400_0000_0000);
    assert(div_spec(0x3c48_b2e1, 0x3c00_0000) == 0x3fc8_b2e1);
    assert(0xfc_dd34 * 0x40 + 0xc8_b2e1 * 0x1 == 0x3fff_ffe1);
    lemma_sum_known(0x42fc_dd34, 0x3fc8_b2e1, false, 0xfc_dd34, 132, 0xc8_b2e1, 126, 0x40, 0x1, 0x3fff_ffe1, 30, 0x2000_0000, 0x40);
    assert(add_spec(0x42fc_dd34, 0x3fc8_b2e1) == 0x4300_0000);
    lemma_whole_known(0x4300_0000, 0x80_0000, 133, 0x1_0000);
}

/// The edge of code 127.
proof fn lemma_near_127()
    ensures
        near_exact_edge(0x3e5b_2b53, 127),
{
    lemma2_to64();
    lemma2_to64_rest();
    lemma_fifth_powers_of_two();
    lemma_more_fifth_powers_of_two();
    assert(141525nat * 141525 * 141525 == 0xa_1219_74bc_2c6d);
    assert(269025nat * 269025 * 269025 == 0x45_2c59_9066_9ca1);
    assert(0xa_1219_74bc_2c6dnat * 0xa_1219_74bc_2c6d == 0x65_6b44_b5a5_f0bf_13de_0fcd_a669nat);
    assert(0x65_6b44_b5a5_f0bf_13de_0fcd_a669nat * 0x65_6b44_b5a5_f0bf_13de_0fcd_a669nat == 0x282d_d129_d739_af11_5f55_1242_0fae_5eb8_e135_2107_f2d0_3e56_5711nat);
    assert(0x45_2c59_9066_9ca1nat * 0x45_2c59_9066_9ca1 == 0x12b0_eff6_c049_6d6d_d948_5020_9d41nat);
    assert(0x12b0_eff6_c049_6d6d_d948_5020_9d41nat * 0x12b0_eff6_c049_6d6d_d948_5020_9d41nat == 0x15d_5c09_8741_6139_2178_92b9_bce5_5f46_89a2_dd05_b95f_0d00_50d8_ca81nat);
    assert(0x447_949fnat * 0x447_949f == 0x12_50a8_be7a_3ac1);
    assert(0x12_50a8_be7a_3ac1nat * 0x12_50a8_be7a_3ac1 == 0x14f_7124_af77_3603_66e2_8970_0581nat);
    assert(0x14f_7124_af77_3603_66e2_8970_0581nat * 0x447_949f == 0x5_9b8f_b1ab_0221_eed1_9691_bc4f_aa88_ff1fnat);
    assert(0x448_1c9fnat * 0x448_1c9f == 0x12_5535_14a3_2ac1);
    assert(0x12_5535_14a3_2ac1nat * 0x12_5535_14a3_2ac1 == 0x150_17d3_31a7_eac1_c497_a0e9_e581nat);
    assert(0x150_17d3_31a7_eac1_c497_a0e9_e581nat * 0x448_1c9f == 0x5_9f0b_9386_7c7f_4289_a902_9925_16a7_a71fnat);
    assert(0x5_9b8f_b1ab_0221_eed1_9691_bc4f_aa88_ff1fnat * 0x15d_5c09_8741_6139_2178_92b9_bce5_5f46_89a2_dd05_b95f_0d00_50d8_ca81nat == 0x7a7_1702_4880_0368_f44c_6ea4_b6ef_78a6_d8ad_4c67_4914_ebc2_5daf_b811_ed38_a667_5555_61b3_aeff_0705_fa7f_049fnat);
    assert(0x5_9f0b_9386_7c7f_4289_a902_9925_16a7_a71fnat * 0x15d_5c09_8741_6139_2178_92b9_bce5_5f46_89a2_dd05_b95f_0d00_50d8_ca81nat == 0x7ab_d825_d712_dd36_bb7b_02dd_41bd_cacb_f4be_3ed5_ea20_ec23_17ab_35ac_63a9_1fad_98ac_0984_f483_843f_6681_ac9fnat);
    assert(0xc35nat * 0x4_0000_0000_0000_0000_0000_0000_0000_0000nat == 0x30d4_0000_0000_0000_0000_0000_0000_0000_0000nat);
    assert(0x282d_d129_d739_af11_5f55_1242_0fae_5eb8_e135_2107_f2d0_3e56_5711nat * 0x30d4_0000_0000_0000_0000_0000_0000_0000_0000nat == 0x7a9_dd29_0f01_0c98_3c42_e5df_81a5_ae29_1b54_7630_d81c_2023_cfd3_4a14_0000_0000_0000_0000_0000_0000_0000_0000nat);
    lemma_near_above(
        0x3e5b_2b53, 0xdb_2b53, 123, 0x400, 0x30d4_0000_0000_0000_0000_0000_0000_0000_0000nat, 127,
        141525, 0xa_1219_74bc_2c6d,
        0x65_6b44_b5a5_f0bf_13de_0fcd_a669nat,
        0x45_2c59_9066_9ca1, 0x12b0_eff6_c049_6d6d_d948_5020_9d41nat,
        0x447_949f, 0x12_50a8_be7a_3ac1, 0x14f_7124_af77_3603_66e2_8970_0581nat,
        0x448_1c9f, 0x12_5535_14a3_2ac1, 0x150_17d3_31a7_eac1_c497_a0e9_e581nat,
    );
}

/// The value 0x3e5e_e5e5.
proof fn lemma_at_3e5ee5e5()
    ensures
        chord_code(0x3e5e_e5e5, 0x3e5d_5e8d, 0x3e65_5e8d, 0x4300_9843, 0x4302_b723) == 128,
{
    reveal(chord_code);
    lemma2_to64();
    lemma2_to64_rest();
    lemma_high_powers();
    assert(0xe5_5e8d * 0x1 - 0xdd_5e8d * 0x1 == 0x8_0000);
    lemma_sum_known(0x3e65_5e8d, 0x3e5d_5e8d, true, 0xe5_5e8d, 123, 0xdd_5e8d, 123, 0x1, 0x1, 0x8_0000, 20, 0x8_0000, 0x10);
    assert(sub_spec(0x3e65_5e8d, 0x3e5d_5e8d) == 0x3c00_0000);
    assert(0xde_e5e5 * 0x1 - 0xdd_5e8d * 0x1 == 0x1_8758);
    lemma_sum_known(0x3e5e_e5e5, 0x3e5d_5e8d, true, 0xde_e5e5, 123, 0xdd_5e8d, 123, 0x1, 0x1, 0x1_8758, 17, 0x1_0000, 0x80);
    assert(sub_spec(0x3e5e_e5e5, 0x3e5d_5e8d) == 0x3ac3_ac00);
    assert(0x82_b723 * 0x1 - 0x80_9843 * 0x1 == 0x2_1ee0);
    lemma_sum_known(0x4302_b723, 0x4300_9843, true, 0x82_b723, 133, 0x80_9843, 133, 0x1, 0x1, 0x2_1ee0, 18, 0x2_0000, 0x40);
    assert(sub_spec(0x4302_b723, 0x4300_9843) == 0x4007_b800);
    assert(0x87_b800 * 0xc3_ac00 == 0x67bc_57a0_0000);
    lemma_product_known(0x4007_b800, 0x3ac3_ac00, 0x87_b800, 127, 0xc3_ac00, 116, 0x67bc_57a0_0000, 47, 0x4000_0000_0000, 0x80_0000);
    assert(mul_spec(0x4007_b800, 0x3ac3_ac00) == 0x3b4f_78af);
    assert(0xcf_78af * 0x1_0000_0000_0000_0000 == 0x1_9ef1_5e00_0000_0000 * 0x80_0000 + 0x0);
    lemma_quotient_known(0x3b4f_78af, 0x3c00_0000, 0xcf_78af, 117, 0x80_0000, 119, 0x1_9ef1_5e00_0000_0000, 0x0, 66, 0x2_0000_0000_0000_0000, 0x400_0000_0000);
    assert(div_spec(0x3b4f_78af, 0x3c00_0000) == 0x3ecf_78af);
    assert(0x80_9843 * 0x200 + 0xcf_78af * 0x1 == 0x1_01ff_feaf);
    lemma_sum_known(0x4300_9843, 0x3ecf_78af, false, 0x80_9843, 133, 0xcf_78af, 124, 0x200, 0x1, 0x1_01ff_feaf, 33, 0x1_0000_0000, 0x200);
    assert(add_spec(0x4300_9843, 0x3ecf_78af) == 0x4300_ffff);
    lemma_whole_known(0x4300_ffff, 0x80_ffff, 133, 0x1_0000);
}

/// The value 0x3e5e_e5e6.
proof fn lemma_at_3e5ee5e6()
    ensures
        chord_code(0x3e5e_e5e6, 0x3e5d_5e8d, 0x3e65_5e8d, 0x4300_9843, 0x4302_b723) == 129,
{
    reveal(chord_code);
    lemma2_to64();
    lemma2_to64_rest();
    lemma_high_powers();
    assert(0xe5_5e8d * 0x1 - 0xdd_5e8d * 0x1 == 0x8_0000);
    lemma_sum_known(0x3e65_5e8d, 0x3e5d_5e8d, true, 0xe5_5e8d, 123, 0xdd_5e8d, 123, 0x1, 0x1, 0x8_0000, 20, 0x8_0000, 0x10);
    assert(sub_spec(0x3e65_5e8d, 0x3e5d_5e8d) == 0x3c00_0000);
    assert(0xde_e5e6 * 0x1 - 0xdd_5e8d * 0x1 == 0x1_8759);
    lemma_sum_known(0x3e5e_e5e6, 0x3e5d_5e8d, true, 0xde_e5e6, 123, 0xdd_5e8d, 123, 0x1, 0x1, 0x1_8759, 17, 0x1_0000, 0x80);
    assert(sub_spec(0x3e5e_e5e6, 0x3e5d_5e8d) == 0x3ac3_ac80);
    assert(0x82_b723 * 0x1 - 0x80_9843 * 0x1 == 0x2_1ee0);
    lemma_sum_known(0x4302_b723, 0x4300_9843, true, 0x82_b723, 133, 0x80_9843, 133, 0x1, 0x1, 0x2_1ee0, 18, 0x2_0000, 0x40);
    assert(sub_spec(0x4302_b723, 0x4300_9843) == 0x4007_b800);
    assert(0x87_b800 * 0xc3_ac80 == 0x67bc_9b7c_0000);
    lemma_product_known(0x4007_b800, 0x3ac3_ac80, 0x87_b800, 127, 0xc3_ac80, 116, 0x67bc_9b7c_0000, 47, 0x4000_0000_0000, 0x80_0000);
    assert(mul_spec(0x4007_b800, 0x3ac3_ac80) == 0x3b4f_7937);
    assert(0xcf_7937 * 0x1_0000_0000_0000_0000 == 0x1_9ef2_6e00_0000_0000 * 0x80_0000 + 0x0);
    lemma_quotient_known(0x3b4f_7937, 0x3c00_0000, 0xcf_7937, 117, 0x80_0000, 119, 0x1_9ef2_6e00_0000_0000, 0x0, 66, 0x2_0000_0000_0000_0000, 0x400_0000_0000);
    assert(div_spec(0x3b4f_7937, 0x3c00_0000) == 0x3ecf_7937);
    assert(0x80_9843 * 0x200 + 0xcf_7937 * 0x1 == 0x1_01ff_ff37);
    lemma_sum_known(0x4300_9843, 0x3ecf_7937, false, 0x80_9843, 133, 0xcf_7937, 124, 0x200, 0x1, 0x1_01ff_ff37, 33, 0x1_0000_0000, 0x200);
    assert(add_spec(0x4300_9843, 0x3ecf_7937) == 0x4301_0000);
    lemma_whole_known(0x4301_0000, 0x81_0000, 133, 0x1_0000);
}

/// The edge of code 128.
proof fn lemma_near_128()
    ensures
        near_exact_edge(0x3e5e_e5e5, 128),
{
    lemma2_to64();
    lemma2_to64_rest();
    lemma_fifth_powers_of_two();
    lemma_more_fifth_powers_of_two();
    assert(142525nat * 142525 * 142525 == 0xa_4922_dd7f_a825);
    assert(269025nat * 269025 * 269025 == 0x45_2c59_9066_9ca1);
    assert(0xa_4922_dd7f_a825nat * 0xa_4922_dd7f_a825 == 0x69_cb9e_350b_8657_6bcc_2526_9559nat);
    assert(0x69_cb9e_350b_8657_6bcc_2526_9559nat * 0x69_cb9e_350b_8657_6bcc_2526_9559nat == 0x2bb8_a9bb_cd59_fffc_ac7a_5134_fd1e_d40d_9e12_2a38_98d4_678c_b8f1nat);
    assert(0x45_2c59_9066_9ca1nat * 0x45_2c59_9066_9ca1 == 0x12b0_eff6_c049_6d6d_d948_5020_9d41nat);
    assert(0x12b0_eff6_c049_6d6d_d948_5020_9d41nat * 0x12b0_eff6_c049_6d6d_d948_5020_9d41nat == 0x15d_5c09_8741_6139_2178_92b9_bce5_5f46_89a2_dd05_b95f_0d00_50d8_ca81nat);
    assert(0x45a_3979nat * 0x45a_3979 == 0x12_f198_3dfb_1b31);
    assert(0x12_f198_3dfb_1b31nat * 0x12_f198_3dfb_1b31 == 0x166_dd68_b68c_4548_2d73_aef9_5f61nat);
    assert(0x166_dd68_b68c_4548_2d73_aef9_5f61nat * 0x45a_3979 == 0x6_19f0_0a95_5588_ffcf_9aa3_a6cc_4634_add9nat);
    assert(0x45a_c179nat * 0x45a_c179 == 0x12_f638_634b_ab31);
    assert(0x12_f638_634b_ab31nat * 0x12_f638_634b_ab31 == 0x167_8cbe_61e5_1784_ae35_a730_7f61nat);
    assert(0x167_8cbe_61e5_1784_ae35_a730_7f61nat * 0x45a_c179 == 0x6_1daa_2f83_0cb2_5361_3a86_5371_e20e_55d9nat);
    assert(0x6_19f0_0a95_5588_ffcf_9aa3_a6cc_4634_add9nat * 0x15d_5c09_8741_6139_2178_92b9_bce5_5f46_89a2_dd05_b95f_0d00_50d8_ca81nat == 0x853_8dca_d410_2279_f277_eb6c_61ea_7e41_1e8e_a947_0caa_2384_5b8c_ff52_c5e1_a0b3_bcd0_8ed2_a1ba_f41b_70d0_d459nat);
    assert(0x6_1daa_2f83_0cb2_5361_3a86_5371_e20e_55d9nat * 0x15d_5c09_8741_6139_2178_92b9_bce5_5f46_89a2_dd05_b95f_0d00_50d8_ca81nat == 0x858_a3e6_34eb_ad26_435a_8111_1a39_f1d3_17dd_3613_736e_1c0e_c698_62cc_acfd_2e6b_2c8c_21a9_e126_24ae_780e_7c59nat);
    assert(0xc35nat * 0x4_0000_0000_0000_0000_0000_0000_0000_0000nat == 0x30d4_0000_0000_0000_0000_0000_0000_0000_0000nat);
    assert(0x2bb8_a9bb_cd59_fffc_ac7a_5134_fd1e_d40d_9e12_2a38_98d4_678c_b8f1nat * 0x30d4_0000_0000_0000_0000_0000_0000_0000_0000nat == 0x856_d4bf_c606_ee87_5d95_c485_2f57_654a_28ea_4ef5_9386_6350_2336_5794_0000_0000_0000_0000_0000_0000_0000_0000nat);
    lemma_near_above(
        0x3e5e_e5e5, 0xde_e5e5, 123, 0x400, 0x30d4_0000_0000_0000_0000_0000_0000_0000_0000nat, 128,
        142525, 0xa_4922_dd7f_a825,
        0x69_cb9e_350b_8657_6bcc_2526_9559nat,
        0x45_2c59_9066_9ca1, 0x12b0_eff6_c049_6d6d_d948_5020_9d41nat,
        0x45a_3979, 0x12_f198_3dfb_1b31, 0x166_dd68_b68c_4548_2d73_aef9_5f61nat,
        0x45a_c179, 0x12_f638_634b_ab31, 0x167_8cbe_61e5_1784_ae35_a730_7f61nat,
    );
}

/// The value 0x3e62_aba8.
proof fn lemma_at_3e62aba8()
    ensures
        chord_code(0x3e62_aba8, 0x3e5d_5e8d, 0x3e65_5e8d, 0x4300_9843, 0x4302_b723) == 129,
{
    reveal(chord_code);
    lemma2_to64();
    lemma2_to64_rest();
    lemma_high_powers();
    assert(0xe5_5e8d * 0x1 - 0xdd_5e8d * 0x1 == 0x8_0000);
    lemma_sum_known(0x3e65_5e8d, 0x3e5d_5e8d, true, 0xe5_5e8d, 123, 0xdd_5e8d, 123, 0x1, 0x1, 0x8_0000, 20, 0x8_0000, 0x10);
    assert(sub_spec(0x3e65_5e8d, 0x3e5d_5e8d) == 0x3c00_0000);
    assert(0xe2_aba8 * 0x1 - 0xdd_5e8d * 0x1 == 0x5_4d1b);
    lemma_sum_known(0x3e62_aba8, 0x3e5d_5e8d, true, 0xe2_aba8, 123, 0xdd_5e8d, 123, 0x1, 0x1, 0x5_4d1b, 19, 0x4_0000, 0x20);
    assert(sub_spec(0x3e62_aba8, 0x3e5d_5e8d) == 0x3ba9_a360);
    assert(0x82_b723 * 0x1 - 0x80_9843 * 0x1 == 0x2_1ee0);
    lemma_sum_known(0x4302_b723, 0x4300_9843, true, 0x82_b723, 133, 0x80_9843, 133, 0x1, 0x1, 0x2_1ee0, 18, 0x2_0000, 0x40);
    assert(sub_spec(0x4302_b723, 0x4300_9843) == 0x4007_b800);
    assert(0x87_b800 * 0xa9_a360 == 0x59ef_150d_0000);
    lemma_product_known(0x4007_b800, 0x3ba9_a360, 0x87_b800, 127, 0xa9_a360, 118, 0x59ef_150d_0000, 47, 0x4000_0000_0000, 0x80_0000);
    assert(mul_spec(0x4007_b800, 0x3ba9_a360) == 0x3c33_de2a);
    assert(0xb3_de2a * 0x1_0000_0000_0000_0000 == 0x1_67bc_5400_0000_0000 * 0x80_0000 + 0x0);
    lemma_quotient_known(0x3c33_de2a, 0x3c00_0000, 0xb3_de2a, 119, 0x80_0000, 119, 0x1_67bc_5400_0000_0000, 0x0, 66, 0x2_0000_0000_0000_0000, 0x400_0000_0000);
    assert(div_spec(0x3c33_de2a, 0x3c00_0000) == 0x3fb3_de2a);
    assert(0x80_9843 * 0x80 + 0xb3_de2a * 0x1 == 0x40ff_ffaa);
    lemma_sum_known(0x4300_9843, 0x3fb3_de2a, false, 0x80_9843, 133, 0xb3_de2a, 126, 0x80, 0x1, 0x40ff_ffaa, 31, 0x4000_0000, 0x80);
    assert(add_spec(0x4300_9843, 0x3fb3_de2a) == 0x4301_ffff);
    lemma_whole_known(0x4301_ffff, 0x81_ffff, 133, 0x1_0000);
}

/// The value 0x3e62_aba9.
proof fn lemma_at_3e62aba9()
    ensures
        chord_code(0x3e62_aba9, 0x3e5d_5e8d, 0x3e65_5e8d, 0x4300_9843, 0x4302_b723) == 130,
{
    reveal(chord_code);
    lemma2_to64();
    lemma2_to64_rest();
    lemma_high_powers();
    assert(0xe5_5e8d * 0x1 - 0xdd_5e8d * 0x1 == 0x8_0000);
    lemma_sum_known(0x3e65_5e8d, 0x3e5d_5e8d, true, 0xe5_5e8d, 123, 0xdd_5e8d, 123, 0x1, 0x1, 0x8_0000, 20, 0x8_0000, 0x10);
    assert(sub_spec(0x3e65_5e8d, 0x3e5d_5e8d) == 0x3c00_0000);
    assert(0xe2_aba9 * 0x1 - 0xdd_5e8d * 0x1 == 0x5_4d1c);
    lemma_sum_known(0x3e62_aba9, 0x3e5d_5e8d, true, 0xe2_aba9, 123, 0xdd_5e8d, 123, 0x1, 0x1, 0x5_4d1c, 19, 0x4_0000, 0x20);
    assert(sub_spec(0x3e62_aba9, 0x3e5d_5e8d) == 0x3ba9_a380);
    assert(0x82_b723 * 0x1 - 0x80_9843 * 0x1 == 0x2_1ee0);
    lemma_sum_known(0x4302_b723, 0x4300_9843, true, 0x82_b723, 133, 0x80_9843, 133, 0x1, 0x1, 0x2_1ee0, 18, 0x2_0000, 0x40);
    assert(sub_spec(0x4302_b723, 0x4300_9843) == 0x4007_b800);
    assert(0x87_b800 * 0xa9_a380 == 0x59ef_2604_0000);
    lemma_product_known(0x4007_b800, 0x3ba9_a380, 0x87_b800, 127, 0xa9_a380, 118, 0x59ef_2604_0000, 47, 0x4000_0000_0000, 0x80_0000);
    assert(mul_spec(0x4007_b800, 0x3ba9_a380) == 0x3c33_de4c);
    assert(0xb3_de4c * 0x1_0000_0000_0000_0000 == 0x1_67bc_9800_0000_0000 * 0x80_0000 + 0x0);
    lemma_quotient_known(0x3c33_de4c, 0x3c00_0000, 0xb3_de4c, 119, 0x80_0000, 119, 0x1_67bc_9800_0000_0000, 0x0, 66, 0x2_0000_0000_0000_0000, 0x400_0000_0000);
    assert(div_spec(0x3c33_de4c, 0x3c00_0000) == 0x3fb3_de4c);
    assert(0x80_9843 * 0x80 + 0xb3_de4c * 0x1 == 0x40ff_ffcc);
    lemma_sum_known(0x4300_9843, 0x3fb3_de4c, false, 0x80_9843, 133, 0xb3_de4c, 126, 0x80, 0x1, 0x40ff_ffcc, 31, 0x4000_0000, 0x80);
    assert(add_spec(0x4300_9843, 0x3fb3_de4c) == 0x4302_0000);
    lemma_whole_known(0x4302_0000, 0x82_0000, 133, 0x1_0000);
}

/// The edge of code 129.
proof fn lemma_near_129()
    ensures
        near_exact_edge(0x3e62_aba8, 129),
{
    lemma2_to64();
    lemma2_to64_rest();
    lemma_fifth_powers_of_two();
    lemma_more_fifth_powers_of_two();
    assert(143525nat * 143525 * 143525 == 0xa_80f3_612c_9b5d);
    assert(269025nat * 269025 * 269025 == 0x45_2c59_9066_9ca1);
    assert(0xa_80f3_612c_9b5dnat * 0xa_80f3_612c_9b5d == 0x6e_53f7_e00a_5e32_c810_4041_bfc9nat);
    assert(0x6e_53f7_e00a_5e32_c810_4041_bfc9nat * 0x6e_53f7_e00a_5e32_c810_4041_bfc9nat == 0x2f8c_448f_3431_c4cc_c6f4_2e44_d8af_3283_83a9_5a86_f9e7_73bf_8bd1nat);
    assert(0x45_2c59_9066_9ca1nat * 0x45_2c59_9066_9ca1 == 0x12b0_eff6_c049_6d6d_d948_5020_9d41nat);
    assert(0x12b0_eff6_c049_6d6d_d948_5020_9d41nat * 0x12b0_eff6_c049_6d6d_d948_5020_9d41nat == 0x15d_5c09_8741_6139_2178_92b9_bce5_5f46_89a2_dd05_b95f_0d00_50d8_ca81nat);
    assert(0x46d_1648nat * 0x46d_1648 == 0x13_972e_3b40_7440);
    assert(0x13_972e_3b40_7440nat * 0x13_972e_3b40_7440 == 0x17f_ca24_5dd0_a384_0ccf_d4ca_1000nat);
    assert(0x17f_ca24_5dd0_a384_0ccf_d4ca_1000nat * 0x46d_1648 == 0x6_a2b3_0a43_2eae_0028_0a0e_3906_0634_8000nat);
    assert(0x46d_9e48nat * 0x46d_9e48 == 0x13_9be2_6b2c_f440);
    assert(0x13_9be2_6b2c_f440nat * 0x13_9be2_6b2c_f440 == 0x180_8287_deb6_1983_5d12_5f0a_1000nat);
    assert(0x180_8287_deb6_1983_5d12_5f0a_1000nat * 0x46d_9e48 == 0x6_a6af_7009_3d99_f159_2ab2_235b_c0b4_8000nat);
    assert(0x6_a2b3_0a43_2eae_0028_0a0e_3906_0634_8000nat * 0x15d_5c09_8741_6139_2178_92b9_bce5_5f46_89a2_dd05_b95f_0d00_50d8_ca81nat == 0x90e_30cc_8f10_6359_5a48_9a2b_bba6_6c13_15c0_030f_8757_1d36_14d5_edf1_3437_52be_24de_a63a_73af_213a_8d74_8000nat);
    assert(0x6_a6af_7009_3d99_f159_2ab2_235b_c0b4_8000nat * 0x15d_5c09_8741_6139_2178_92b9_bce5_5f46_89a2_dd05_b95f_0d00_50d8_ca81nat == 0x913_a152_28a0_9a99_4aab_90a8_3240_9a70_b600_d2fa_5d18_9455_ccda_7ee4_ee1a_6046_12b7_c73e_3fcd_3796_87f4_8000nat);
    assert(0xc35nat * 0x4_0000_0000_0000_0000_0000_0000_0000_0000nat == 0x30d4_0000_0000_0000_0000_0000_0000_0000_0000nat);
    assert(0x2f8c_448f_3431_c4cc_c6f4_2e44_d8af_3283_83a9_5a86_f9e7_73bf_8bd1nat * 0x30d4_0000_0000_0000_0000_0000_0000_0000_0000nat == 0x911_ad03_a060_8e1d_5ee2_8ae3_39a4_4a8e_7d98_c938_46a2_595f_c4d6_f914_0000_0000_0000_0000_0000_0000_0000_0000nat);
    lemma_near_above(
        0x3e62_aba8, 0xe2_aba8, 123, 0x400, 0x30d4_0000_0000_0000_0000_0000_0000_0000_0000nat, 129,
        143525, 0xa_80f3_612c_9b5d,
        0x6e_53f7_e00a_5e32_c810_4041_bfc9nat,
        0x45_2c59_9066_9ca1, 0x12b0_eff6_c049_6d6d_d948_5020_9d41nat,
        0x46d_1648, 0x13_972e_3b40_7440, 0x17f_ca24_5dd0_a384_0ccf_d4ca_1000nat,
        0x46d_9e48, 0x13_9be2_6b2c_f440, 0x180_8287_deb6_1983_5d12_5f0a_1000nat,
    );
}

/// The value 0x3e66_777f.
proof fn lemma_at_3e66777f()
    ensures
        chord_code(0x3e66_777f, 0x3e65_5e8d, 0x3e6d_5e8d, 0x4302_b723, 0x4304_ca44) == 130,
{
    reveal(chord_code);
    lemma2_to64();
    lemma2_to64_rest();
    lemma_high_powers();
    assert(0xed_5e8d * 0x1 - 0xe5_5e8d * 0x1 == 0x8_0000);
    lemma_sum_known(0x3e6d_5e8d, 0x3e65_5e8d, true, 0xed_5e8d, 123, 0xe5_5e8d, 123, 0x1, 0x1, 0x8_0000, 20, 0x8_0000, 0x10);
    assert(sub_spec(0x3e6d_5e8d, 0x3e65_5e8d) == 0x3c00_0000);
    assert(0xe6_777f * 0x1 - 0xe5_5e8d * 0x1 == 0x1_18f2);
    lemma_sum_known(0x3e66_777f, 0x3e65_5e8d, true, 0xe6_777f, 123, 0xe5_5e8d, 123, 0x1, 0x1, 0x1_18f2, 17, 0x1_0000, 0x80);
    assert(sub_spec(0x3e66_777f, 0x3e65_5e8d) == 0x3a8c_7900);
    assert(0x84_ca44 * 0x1 - 0x82_b723 * 0x1 == 0x2_1321);
    lemma_sum_known(0x4304_ca44, 0x4302_b723, true, 0x84_ca44, 133, 0x82_b723, 133, 0x1, 0x1, 0x2_1321, 18, 0x2_0000, 0x40);
    assert(sub_spec(0x4304_ca44, 0x4302_b723) == 0x4004_c840);
    assert(0x84_c840 * 0x8c_7900 == 0x48dc_45a6_4000);
    lemma_product_known(0x4004_c840, 0x3a8c_7900, 0x84_c840, 127, 0x8c_7900, 116, 0x48dc_45a6_4000, 47, 0x4000_0000_0000, 0x80_0000);
    assert(mul_spec(0x4004_c840, 0x3a8c_7900) == 0x3b11_b88b);
    assert(0x91_b88b * 0x1_0000_0000_0000_0000 == 0x1_2371_1600_0000_0000 * 0x80_0000 + 0x0);
    lemma_quotient_known(0x3b11_b88b, 0x3c00_0000, 0x91_b88b, 117, 0x80_0000, 119, 0x1_2371_1600_0000_0000, 0x0, 66, 0x2_0000_0000_0000_0000, 0x400_0000_0000);
    assert(div_spec(0x3b11_b88b, 0x3c00_0000) == 0x3e91_b88b);
    assert(0x82_b723 * 0x200 + 0x91_b88b * 0x1 == 0x1_05ff_fe8b);
    lemma_sum_known(0x4302_b723, 0x3e91_b88b, false, 0x82_b723, 133, 0x91_b88b, 124, 0x200, 0x1, 0x1_05ff_fe8b, 33, 0x1_0000_0000, 0x200);
    assert(add_spec(0x4302_b723, 0x3e91_b88b) == 0x4302_ffff);
    lemma_whole_known(0x4302_ffff, 0x82_ffff, 133, 0x1_0000);
}

/// The value 0x3e66_7780.
proof fn lemma_at_3e667780()
    ensures
        chord_code(0x3e66_7780, 0x3e65_5e8d, 0x3e6d_5e8d, 0x4302_b723, 0x4304_ca44) == 131,
{
    reveal(chord_code);
    lemma2_to64();
    lemma2_to64_rest();
    lemma_high_powers();
    assert(0xed_5e8d * 0x1 - 0xe5_5e8d * 0x1 == 0x8_0000);
    lemma_sum_known(0x3e6d_5e8d, 0x3e65_5e8d, true, 0xed_5e8d, 123, 0xe5_5e8d, 123, 0x1, 0x1, 0x8_0000, 20, 0x8_0000, 0x10);
    assert(sub_spec(0x3e6d_5e8d, 0x3e65_5e8d) == 0x3c00_0000);
    assert(0xe6_7780 * 0x1 - 0xe5_5e8d * 0x1 == 0x1_18f3);
    lemma_sum_known(0x3e66_7780, 0x3e65_5e8d, true, 0xe6_7780, 123, 0xe5_5e8d, 123, 0x1, 0x1, 0x1_18f3, 17, 0x1_0000, 0x80);
    assert(sub_spec(0x3e66_7780, 0x3e65_5e8d) == 0x3a8c_7980);
    assert(0x84_ca44 * 0x1 - 0x82_b723 * 0x1 == 0x2_1321);
    lemma_sum_known(0x4304_ca44, 0x4302_b723, true, 0x84_ca44, 133, 0x82_b723, 133, 0x1, 0x1, 0x2_1321, 18, 0x2_0000, 0x40);
    assert(sub_spec(0x4304_ca44, 0x4302_b723) == 0x4004_c840);
    assert(0x84_c840 * 0x8c_7980 == 0x48dc_880a_6000);
    lemma_product_known(0x4004_c840, 0x3a8c_7980, 0x84_c840, 127, 0x8c_7980, 116, 0x48dc_880a_6000, 47, 0x4000_0000_0000, 0x80_0000);
    assert(mul_spec(0x4004_c840, 0x3a8c_7980) == 0x3b11_b910);
    assert(0x91_b910 * 0x1_0000_0000_0000_0000 == 0x1_2372_2000_0000_0000 * 0x80_0000 + 0x0);
    lemma_quotient_known(0x3b11_b910, 0x3c00_0000, 0x91_b910, 117, 0x80_0000, 119, 0x1_2372_2000_0000_0000, 0x0, 66, 0x2_0000_0000_0000_0000, 0x400_0000_0000);
    assert(div_spec(0x3b11_b910, 0x3c00_0000) == 0x3e91_b910);
    assert(0x82_b723 * 0x200 + 0x91_b910 * 0x1 == 0x1_05ff_ff10);
    lemma_sum_known(0x4302_b723, 0x3e91_b910, false, 0x82_b723, 133, 0x91_b910, 124, 0x200, 0x1, 0x1_05ff_ff10, 33, 0x1_0000_0000, 0x200);
    assert(add_spec(0x4302_b723, 0x3e91_b910) == 0x4303_0000);
    lemma_whole_known(0x4303_0000, 0x83_0000, 133, 0x1_0000);
}

/// The edge of code 130.
proof fn lemma_near_130()
    ensures
        near_exact_edge(0x3e66_777f, 130),
{
    lemma2_to64();
    lemma2_to64_rest();
    lemma_fifth_powers_of_two();
    lemma_more_fifth_powers_of_two();
    assert(144525nat * 144525 * 144525 == 0xa_b98c_6563_c215);
    assert(269025nat * 269025 * 269025 == 0x45_2c59_9066_9ca1);
    assert(0xa_b98c_6563_c215nat * 0xa_b98c_6563_c215 == 0x73_0574_2354_656a_7efc_4161_d5b9nat);
    assert(0x73_0574_2354_656a_7efc_4161_d5b9nat * 0x73_0574_2354_656a_7efc_4161_d5b9nat == 0x33ad_e675_7be4_7300_57a9_81d8_9b25_05c7_77fe_0ee5_b423_9a9f_5fb1nat);
    assert(0x45_2c59_9066_9ca1nat * 0x45_2c59_9066_9ca1 == 0x12b0_eff6_c049_6d6d_d948_5020_9d41nat);
    assert(0x12b0_eff6_c049_6d6d_d948_5020_9d41nat * 0x12b0_eff6_c049_6d6d_d948_5020_9d41nat == 0x15d_5c09_8741_6139_2178_92b9_bce5_5f46_89a2_dd05_b95f_0d00_50d8_ca81nat);
    assert(0x480_117bnat * 0x480_117b == 0x14_409d_5431_9119);
    assert(0x14_409d_5431_9119nat * 0x14_409d_5431_9119 == 0x19a_28e4_3287_d4f1_097b_45cf_5471nat);
    assert(0x19a_28e4_3287_d4f1_097b_45cf_5471nat * 0x480_117b == 0x7_35d4_04ac_303d_8911_fc2a_e2d9_4bb9_134bnat);
    assert(0x480_997bnat * 0x480_997b == 0x14_4565_af04_4119);
    assert(0x14_4565_af04_4119nat * 0x14_4565_af04_4119 == 0x19a_eab3_5166_0801_a8cc_4755_b471nat);
    assert(0x19a_eab3_5166_0801_a8cc_4755_b471nat * 0x480_997b == 0x7_3a16_82a2_3af2_1e46_6def_3274_7b85_3b4bnat);
    assert(0x7_35d4_04ac_303d_8911_fc2a_e2d9_4bb9_134bnat * 0x15d_5c09_8741_6139_2178_92b9_bce5_5f46_89a2_dd05_b95f_0d00_50d8_ca81nat == 0x9d6_f9a7_441a_0594_ed69_bc29_6740_eebd_7d6d_9d05_ba0a_e6b4_fd96_40d1_ab4e_b9ce_1fc0_6f0b_f96d_4e6e_e8c3_e6cbnat);
    assert(0x7_3a16_82a2_3af2_1e46_6def_3274_7b85_3b4bnat * 0x15d_5c09_8741_6139_2178_92b9_bce5_5f46_89a2_dd05_b95f_0d00_50d8_ca81nat == 0x9dc_c9d5_0a61_9e30_7c15_b8bc_991f_74a9_7878_f134_2c95_aaae_5d42_ca45_9e68_8446_6ff9_45da_1412_001a_d634_0ecbnat);
    assert(0xc35nat * 0x4_0000_0000_0000_0000_0000_0000_0000_0000nat == 0x30d4_0000_0000_0000_0000_0000_0000_0000_0000nat);
    assert(0x33ad_e675_7be4_7300_57a9_81d8_9b25_05c7_77fe_0ee5_b423_9a9f_5fb1nat * 0x30d4_0000_0000_0000_0000_0000_0000_0000_0000nat == 0x9db_6738_e085_6ebf_4cb8_60b8_2477_6bbe_2faf_012f_67ff_da79_edec_6e94_0000_0000_0000_0000_0000_0000_0000_0000nat);
    lemma_near_above(
        0x3e66_777f, 0xe6_777f, 123, 0x400, 0x30d4_0000_0000_0000_0000_0000_0000_0000_0000nat, 130,
        144525, 0xa_b98c_6563_c215,
        0x73_0574_2354_656a_7efc_4161_d5b9nat,
        0x45_2c59_9066_9ca1, 0x12b0_eff6_c049_6d6d_d948_5020_9d41nat,
        0x480_117b, 0x14_409d_5431_9119, 0x19a_28e4_3287_d4f1_097b_45cf_5471nat,
        0x480_997b, 0x14_4565_af04_4119, 0x19a_eab3_5166_0801_a8cc_4755_b471nat,
    );
}

/// The value 0x3e6a_529e.
proof fn lemma_at_3e6a529e()
    ensures
        chord_code(0x3e6a_529e, 0x3e65_5e8d, 0x3e6d_5e8d, 0x4302_b723, 0x4304_ca44) == 131,
{
    reveal(chord_code);
    lemma2_to64();
    lemma2_to64_rest();
    lemma_high_powers();
    assert(0xed_5e8d * 0x1 - 0xe5_5e8d * 0x1 == 0x8_0000);
    lemma_sum_known(0x3e6d_5e8d, 0x3e65_5e8d, true, 0xed_5e8d, 123, 0xe5_5e8d, 123, 0x1, 0x1, 0x8_0000, 20, 0x8_0000, 0x10);
    assert(sub_spec(0x3e6d_5e8d, 0x3e65_5e8d) == 0x3c00_0000);
    assert(0xea_529e * 0x1 - 0xe5_5e8d * 0x1 == 0x4_f411);
    lemma_sum_known(0x3e6a_529e, 0x3e65_5e8d, true, 0xea_529e, 123, 0xe5_5e8d, 123, 0x1, 0x1, 0x4_f411, 19, 0x4_0000, 0x20);
    assert(sub_spec(0x3e6a_529e, 0x3e65_5e8d) == 0x3b9e_8220);
    assert(0x84_ca44 * 0x1 - 0x82_b723 * 0x1 == 0x2_1321);
    lemma_sum_known(0x4304_ca44, 0x4302_b723, true, 0x84_ca44, 133, 0x82_b723, 133, 0x1, 0x1, 0x2_1321, 18, 0x2_0000, 0x40);
    assert(sub_spec(0x4304_ca44, 0x4302_b723) == 0x4004_c840);
    assert(0x84_c840 * 0x9e_8220 == 0x5237_15c9_8800);
    lemma_product_known(0x4004_c840, 0x3b9e_8220, 0x84_c840, 127, 0x9e_8220, 118, 0x5237_15c9_8800, 47, 0x4000_0000_0000, 0x80_0000);
    assert(mul_spec(0x4004_c840, 0x3b9e_8220) == 0x3c24_6e2c);
    assert(0xa4_6e2c * 0x1_0000_0000_0000_0000 == 0x1_48dc_5800_0000_0000 * 0x80_0000 + 0x0);
    lemma_quotient_known(0x3c24_6e2c, 0x3c00_0000, 0xa4_6e2c, 119, 0x80_0000, 119, 0x1_48dc_5800_0000_0000, 0x0, 66, 0x2_0000_0000_0000_0000, 0x400_0000_0000);
    assert(div_spec(0x3c24_6e2c, 0x3c00_0000) == 0x3fa4_6e2c);
    assert(0x82_b723 * 0x80 + 0xa4_6e2c * 0x1 == 0x41ff_ffac);
    lemma_sum_known(0x4302_b723, 0x3fa4_6e2c, false, 0x82_b723, 133, 0xa4_6e2c, 126, 0x80, 0x1, 0x41ff_ffac, 31, 0x4000_0000, 0x80);
    assert(add_spec(0x4302_b723, 0x3fa4_6e2c) == 0x4303_ffff);
    lemma_whole_known(0x4303_ffff, 0x83_ffff, 133, 0x1_0000);
}

/// The value 0x3e6a_529f.
proof fn lemma_at_3e6a529f()
    ensures
        chord_code(0x3e6a_529f, 0x3e65_5e8d, 0x3e6d_5e8d, 0x4302_b723, 0x4304_ca44) == 132,
{
    reveal(chord_code);
    lemma2_to64();
    lemma2_to64_rest();
    lemma_high_powers();
    assert(0xed_5e8d * 0x1 - 0xe5_5e8d * 0x1 == 0x8_0000);
    lemma_sum_known(0x3e6d_5e8d, 0x3e65_5e8d, true, 0xed_5e8d, 123, 0xe5_5e8d, 123, 0x1, 0x1, 0x8_0000, 20, 0x8_0000, 0x10);
    assert(sub_spec(0x3e6d_5e8d, 0x3e65_5e8d) == 0x3c00_0000);
    assert(0xea_529f * 0x1 - 0xe5_5e8d * 0x1 == 0x4_f412);
    lemma_sum_known(0x3e6a_529f, 0x3e65_5e8d, true, 0xea_529f, 123, 0xe5_5e8d, 123, 0x1, 0x1, 0x4_f412, 19, 0x4_0000, 0x20);
    assert(sub_spec(0x3e6a_529f, 0x3e65_5e8d) == 0x3b9e_8240);
    assert(0x84_ca44 * 0x1 - 0x82_b723 * 0x1 == 0x2_1321);
    lemma_sum_known(0x4304_ca44, 0x4302_b723, true, 0x84_ca44, 133, 0x82_b723, 133, 0x1, 0x1, 0x2_1321, 18, 0x2_0000, 0x40);
    assert(sub_spec(0x4304_ca44, 0x4302_b723) == 0x4004_c840);
    assert(0x84_c840 * 0x9e_8240 == 0x5237_2662_9000);
    lemma_product_known(0x4004_c840, 0x3b9e_8240, 0x84_c840, 127, 0x9e_8240, 118, 0x5237_2662_9000, 47, 0x4000_0000_0000, 0x80_0000);
    assert(mul_spec(0x4004_c840, 0x3b9e_8240) == 0x3c24_6e4d);
    assert(0xa4_6e4d * 0x1_0000_0000_0000_0000 == 0x1_48dc_9a00_0000_0000 * 0x80_0000 + 0x0);
    lemma_quotient_known(0x3c24_6e4d, 0x3c00_0000, 0xa4_6e4d, 119, 0x80_0000, 119, 0x1_48dc_9a00_0000_0000, 0x0, 66, 0x2_0000_0000_0000_0000, 0x400_0000_0000);
    assert(div_spec(0x3c24_6e4d, 0x3c00_0000) == 0x3fa4_6e4d);
    assert(0x82_b723 * 0x80 + 0xa4_6e4d * 0x1 == 0x41ff_ffcd);
    lemma_sum_known(0x4302_b723, 0x3fa4_6e4d, false, 0x82_b723, 133, 0xa4_6e4d, 126, 0x80, 0x1, 0x41ff_ffcd, 31, 0x4000_0000, 0x80);
    assert(add_spec(0x4302_b723, 0x3fa4_6e4d) == 0x4304_0000);
    lemma_whole_known(0x4304_0000, 0x84_0000, 133, 0x1_0000);
}

/// The edge of code 131.
proof fn lemma_near_131()
    ensures
        near_exact_edge(0x3e6a_529e, 131),
{
    lemma2_to64();
    lemma2_to64_rest();
    lemma_fifth_powers_of_two();
    lemma_more_fifth_powers_of_two();
    assert(145525nat * 145525 * 145525 == 0xa_f2ef_4fc5_d84d);
    assert(269025nat * 269025 * 269025 == 0x45_2c59_9066_9ca1);
    assert(0xa_f2ef_4fc5_d84dnat * 0xa_f2ef_4fc5_d84d == 0x77_e13b_8dfc_ff3b_282c_2344_0729nat);
    assert(0x77_e13b_8dfc_ff3b_282c_2344_0729nat * 0x77_e13b_8dfc_ff3b_282c_2344_0729nat == 0x3823_2b87_bea6_c303_a619_88c3_1b81_359e_dcf8_6160_f221_03fb_4491nat);
    assert(0x45_2c59_9066_9ca1nat * 0x45_2c59_9066_9ca1 == 0x12b0_eff6_c049_6d6d_d948_5020_9d41nat);
    assert(0x12b0_eff6_c049_6d6d_d948_5020_9d41nat * 0x12b0_eff6_c049_6d6d_d948_5020_9d41nat == 0x15d_5c09_8741_6139_2178_92b9_bce5_5f46_89a2_dd05_b95f_0d00_50d8_ca81nat);
    assert(0x493_5916nat * 0x493_5916 == 0x14_ef98_1e44_4de4);
    assert(0x14_ef98_1e44_4de4nat * 0x14_ef98_1e44_4de4 == 0x1b6_5002_1d93_a9c0_4b3a_e8d2_f310nat);
    assert(0x1b6_5002_1d93_a9c0_4b3a_e8d2_f310nat * 0x493_5916 == 0x7_d588_8128_e6e8_5b4c_8f24_eeef_2ad1_7360nat);
    assert(0x493_e116nat * 0x493_e116 == 0x14_f474_f52b_ade4);
    assert(0x14_f474_f52b_ade4nat * 0x14_f474_f52b_ade4 == 0x1b7_1bb5_779d_897c_d8ea_48b5_f310nat);
    assert(0x1b7_1bb5_779d_897c_d8ea_48b5_f310nat * 0x493_e116 == 0x7_da15_d429_0555_a374_c30b_2650_fc73_f360nat);
    assert(0x7_d588_8128_e6e8_5b4c_8f24_eeef_2ad1_7360nat * 0x15d_5c09_8741_6139_2178_92b9_bce5_5f46_89a2_dd05_b95f_0d00_50d8_ca81nat == 0xab0_ec1f_c895_359d_be0d_7753_ce8c_e94a_99c2_d4bc_b82d_551f_cfb0_41f7_1712_fd35_12ba_4282_70ce_9315_3194_e360nat);
    assert(0x7_da15_d429_0555_a374_c30b_2650_fc73_f360nat * 0x15d_5c09_8741_6139_2178_92b9_bce5_5f46_89a2_dd05_b95f_0d00_50d8_ca81nat == 0xab7_226c_e4f2_56eb_2838_7226_64f3_f1e8_a71b_7643_797d_4699_2966_82cd_9ece_8c56_6426_c4b8_4c0f_53e6_0d77_6360nat);
    assert(0xc35nat * 0x4_0000_0000_0000_0000_0000_0000_0000_0000nat == 0x30d4_0000_0000_0000_0000_0000_0000_0000_0000nat);
    assert(0x3823_2b87_bea6_c303_a619_88c3_1b81_359e_dcf8_6160_f221_03fb_4491nat * 0x30d4_0000_0000_0000_0000_0000_0000_0000_0000nat == 0xab5_1549_8029_26aa_2e2a_56c9_d6bb_010e_30fd_8ff2_d1ae_b416_68ef_f814_0000_0000_0000_0000_0000_0000_0000_0000nat);
    lemma_near_above(
        0x3e6a_529e, 0xea_529e, 123, 0x400, 0x30d4_0000_0000_0000_0000_0000_0000_0000_0000nat, 131,
        145525, 0xa_f2ef_4fc5_d84d,
        0x77_e13b_8dfc_ff3b_282c_2344_0729nat,
        0x45_2c59_9066_9ca1, 0x12b0_eff6_c049_6d6d_d948_5020_9d41nat,
        0x493_5916, 0x14_ef98_1e44_4de4, 0x1b6_5002_1d93_a9c0_4b3a_e8d2_f310nat,
        0x493_e116, 0x14_f474_f52b_ade4, 0x1b7_1bb5_779d_897c_d8ea_48b5_f310nat,
    );
}

/// The value 0x3e6e_31fc.
proof fn lemma_at_3e6e31fc()
    ensures
        chord_code(0x3e6e_31fc, 0x3e6d_5e8d, 0x3e75_5e8d, 0x4304_ca44, 0x4306_d2b9) == 132,
{
    reveal(chord_code);
    lemma2_to64();
    lemma2_to64_rest();
    lemma_high_powers();
    assert(0xf5_5e8d * 0x1 - 0xed_5e8d * 0x1 == 0x8_0000);
    lemma_sum_known(0x3e75_5e8d, 0x3e6d_5e8d, true, 0xf5_5e8d, 123, 0xed_5e8d, 123, 0x1, 0x1, 0x8_0000, 20, 0x8_0000, 0x10);
    assert(sub_spec(0x3e75_5e8d, 0x3e6d_5e8d) == 0x3c00_0000);
    assert(0xee_31fc * 0x1 - 0xed_5e8d * 0x1 == 0xd36f);
    lemma_sum_known(0x3e6e_31fc, 0x3e6d_5e8d, true, 0xee_31fc, 123, 0xed_5e8d, 123, 0x1, 0x1, 0xd36f, 16, 0x8000, 0x100);
    assert(sub_spec(0x3e6e_31fc, 0x3e6d_5e8d) == 0x3a53_6f00);
    assert(0x86_d2b9 * 0x1 - 0x84_ca44 * 0x1 == 0x2_0875);
    lemma_sum_known(0x4306_d2b9, 0x4304_ca44, true, 0x86_d2b9, 133, 0x84_ca44, 133, 0x1, 0x1, 0x2_0875, 18, 0x2_0000, 0x40);
    assert(sub_spec(0x4306_d2b9, 0x4304_ca44) == 0x4002_1d40);
    assert(0x82_1d40 * 0xd3_6f00 == 0x6b76_866e_c000);
    lemma_product_known(0x4002_1d40, 0x3a53_6f00, 0x82_1d40, 127, 0xd3_6f00, 115, 0x6b76_866e_c000, 47, 0x4000_0000_0000, 0x80_0000);
    assert(mul_spec(0x4002_1d40, 0x3a53_6f00) == 0x3ad6_ed0d);
    assert(0xd6_ed0d * 0x1_0000_0000_0000_0000 == 0x1_adda_1a00_0000_0000 * 0x80_0000 + 0x0);
    lemma_quotient_known(0x3ad6_ed0d, 0x3c00_0000, 0xd6_ed0d, 116, 0x80_0000, 119, 0x1_adda_1a00_0000_0000, 0x0, 66, 0x2_0000_0000_0000_0000, 0x400_0000_0000);
    assert(div_spec(0x3ad6_ed0d, 0x3c00_0000) == 0x3e56_ed0d);
    assert(0x84_ca44 * 0x400 + 0xd6_ed0d * 0x1 == 0x2_13ff_fd0d);
    lemma_sum_known(0x4304_ca44, 0x3e56_ed0d, false, 0x84_ca44, 133, 0xd6_ed0d, 123, 0x400, 0x1, 0x2_13ff_fd0d, 34, 0x2_0000_0000, 0x400);
    assert(add_spec(0x4304_ca44, 0x3e56_ed0d) == 0x4304_ffff);
    lemma_whole_known(0x4304_ffff, 0x84_ffff, 133, 0x1_0000);
}

/// The value 0x3e6e_31fd.
proof fn lemma_at_3e6e31fd()
    ensures
        chord_code(0x3e6e_31fd, 0x3e6d_5e8d, 0x3e75_5e8d, 0x4304_ca44, 0x4306_d2b9) == 133,
{
    reveal(chord_code);
    lemma2_to64();
    lemma2_to64_rest();
    lemma_high_powers();
    assert(0xf5_5e8d * 0x1 - 0xed_5e8d * 0x1 == 0x8_0000);
    lemma_sum_known(0x3e75_5e8d, 0x3e6d_5e8d, true, 0xf5_5e8d, 123, 0xed_5e8d, 123, 0x1, 0x1, 0x8_0000, 20, 0x8_0000, 0x10);
    assert(sub_spec(0x3e75_5e8d, 0x3e6d_5e8d) == 0x3c00_0000);
    assert(0xee_31fd * 0x1 - 0xed_5e8d * 0x1 == 0xd370);
    lemma_sum_known(0x3e6e_31fd, 0x3e6d_5e8d, true, 0xee_31fd, 123, 0xed_5e8d, 123, 0x1, 0x1, 0xd370, 16, 0x8000, 0x100);
    assert(sub_spec(0x3e6e_31fd, 0x3e6d_5e8d) == 0x3a53_7000);
    assert(0x86_d2b9 * 0x1 - 0x84_ca44 * 0x1 == 0x2_0875);
    lemma_sum_known(0x4306_d2b9, 0x4304_ca44, true, 0x86_d2b9, 133, 0x84_ca44, 133, 0x1, 0x1, 0x2_0875, 18, 0x2_0000, 0x40);
    assert(sub_spec(0x4306_d2b9, 0x4304_ca44) == 0x4002_1d40);
    assert(0x82_1d40 * 0xd3_7000 == 0x6b77_088c_0000);
    lemma_product_known(0x4002_1d40, 0x3a53_7000, 0x82_1d40, 127, 0xd3_7000, 115, 0x6b77_088c_0000, 47, 0x4000_0000_0000, 0x80_0000);
    assert(mul_spec(0x4002_1d40, 0x3a53_7000) == 0x3ad6_ee11);
    assert(0xd6_ee11 * 0x1_0000_0000_0000_0000 == 0x1_addc_2200_0000_0000 * 0x80_0000 + 0x0);
    lemma_quotient_known(0x3ad6_ee11, 0x3c00_0000, 0xd6_ee11, 116, 0x80_0000, 119, 0x1_addc_2200_0000_0000, 0x0, 66, 0x2_0000_0000_0000_0000, 0x400_0000_0000);
    assert(div_spec(0x3ad6_ee11, 0x3c00_0000) == 0x3e56_ee11);
    assert(0x84_ca44 * 0x400 + 0xd6_ee11 * 0x1 == 0x2_13ff_fe11);
    lemma_sum_known(0x4304_ca44, 0x3e56_ee11, false, 0x84_ca44, 133, 0xd6_ee11, 123, 0x400, 0x1, 0x2_13ff_fe11, 34, 0x2_0000_0000, 0x400);
    assert(add_spec(0x4304_ca44, 0x3e56_ee11) == 0x4305_0000);
    lemma_whole_known(0x4305_0000, 0x85_0000, 133, 0x1_0000);
}

/// The edge of code 132.
proof fn lemma_near_132()
    ensures
        near_exact_edge(0x3e6e_31fc, 132),
{
    lemma2_to64();
    lemma2_to64_rest();
    lemma_fifth_powers_of_two();
    lemma_more_fifth_powers_of_two();
    assert(146525nat * 146525 * 146525 == 0xb_2d1d_85f3_9a05);
    assert(269025nat * 269025 * 269025 == 0x45_2c59_9066_9ca1);
    assert(0xb_2d1d_85f3_9a05nat * 0xb_2d1d_85f3_9a05 == 0x7c_e87c_e76e_7fdb_acf8_f428_0419nat);
    assert(0x7c_e87c_e76e_7fdb_acf8_f428_0419nat * 0x7c_e87c_e76e_7fdb_acf8_f428_0419nat == 0x3cf2_0c22_d375_28d2_31ef_e546_a71b_bb11_8e33_8cab_d680_efe0_ca71nat);
    assert(0x45_2c59_9066_9ca1nat * 0x45_2c59_9066_9ca1 == 0x12b0_eff6_c049_6d6d_d948_5020_9d41nat);
    assert(0x12b0_eff6_c049_6d6d_d948_5020_9d41nat * 0x12b0_eff6_c049_6d6d_d948_5020_9d41nat == 0x15d_5c09_8741_6139_2178_92b9_bce5_5f46_89a2_dd05_b95f_0d00_50d8_ca81nat);
    assert(0x4a6_b5ecnat * 0x4a6_b5ec == 0x15_a23f_cf57_9190);
    assert(0x15_a23f_cf57_9190nat * 0x15_a23f_cf57_9190 == 0x1d4_054c_d6b0_6ae2_a03b_22a4_7100nat);
    assert(0x1d4_054c_d6b0_6ae2_a03b_22a4_7100nat * 0x4a6_b5ec == 0x8_80dd_3a62_2eb1_7fa9_9718_8e67_797d_2c00nat);
    assert(0x4a7_3decnat * 0x4a7_3dec == 0x15_a731_38e2_5190);
    assert(0x15_a731_38e2_5190nat * 0x15_a731_38e2_5190 == 0x1d4_db44_96cf_7b50_e4e3_1c3c_7100nat);
    assert(0x1d4_db44_96cf_7b50_e4e3_1c3c_7100nat * 0x4a7_3dec == 0x8_85b9_8493_1a71_2d00_d1b5_7c4a_25a5_2c00nat);
    assert(0x8_80dd_3a62_2eb1_7fa9_9718_8e67_797d_2c00nat * 0x15d_5c09_8741_6139_2178_92b9_bce5_5f46_89a2_dd05_b95f_0d00_50d8_ca81nat == 0xb9a_bc39_1ebc_9ae5_b2dd_e092_5d33_ab75_d1ad_1508_755d_661b_d55b_8f87_0e0d_3154_7156_f651_b03f_075e_1ccb_2c00nat);
    assert(0x8_85b9_8493_1a71_2d00_d1b5_7c4a_25a5_2c00nat * 0x15d_5c09_8741_6139_2178_92b9_bce5_5f46_89a2_dd05_b95f_0d00_50d8_ca81nat == 0xba1_5e49_9c67_988d_5f5a_e78c_800e_5619_4096_8780_a697_52ab_1a6b_4d5b_b003_4160_f201_efdb_a215_842e_6cf3_2c00nat);
    assert(0xc35nat * 0x4_0000_0000_0000_0000_0000_0000_0000_0000nat == 0x30d4_0000_0000_0000_0000_0000_0000_0000_0000nat);
    assert(0x3cf2_0c22_d375_28d2_31ef_e546_a71b_bb11_8e33_8cab_d680_efe0_ca71nat * 0x30d4_0000_0000_0000_0000_0000_0000_0000_0000nat == 0xb9f_dab8_947d_14ad_376e_55a7_1dd7_960a_3533_6d10_b685_cfc0_cc1c_d594_0000_0000_0000_0000_0000_0000_0000_0000nat);
    lemma_near_above(
        0x3e6e_31fc, 0xee_31fc, 123, 0x400, 0x30d4_0000_0000_0000_0000_0000_0000_0000_0000nat, 132,
        146525, 0xb_2d1d_85f3_9a05,
        0x7c_e87c_e76e_7fdb_acf8_f428_0419nat,
        0x45_2c59_9066_9ca1, 0x12b0_eff6_c049_6d6d_d948_5020_9d41nat,
        0x4a6_b5ec, 0x15_a23f_cf57_9190, 0x1d4_054c_d6b0_6ae2_a03b_22a4_7100nat,
        0x4a7_3dec, 0x15_a731_38e2_5190, 0x1d4_db44_96cf_7b50_e4e3_1c3c_7100nat,
    );
}

/// The value 0x3e72_2159.
proof fn lemma_at_3e722159()
    ensures
        chord_code(0x3e72_2159, 0x3e6d_5e8d, 0x3e75_5e8d, 0x4304_ca44, 0x4306_d2b9) == 133,
{
    reveal(chord_code);
    lemma2_to64();
    lemma2_to64_rest();
    lemma_high_powers();
    assert(0xf5_5e8d * 0x1 - 0xed_5e8d * 0x1 == 0x8_0000);
    lemma_sum_known(0x3e75_5e8d, 0x3e6d_5e8d, true, 0xf5_5e8d, 123, 0xed_5e8d, 123, 0x1, 0x1, 0x8_0000, 20, 0x8_0000, 0x10);
    assert(sub_spec(0x3e75_5e8d, 0x3e6d_5e8d) == 0x3c00_0000);
    assert(0xf2_2159 * 0x1 - 0xed_5e8d * 0x1 == 0x4_c2cc);
    lemma_sum_known(0x3e72_2159, 0x3e6d_5e8d, true, 0xf2_2159, 123, 0xed_5e8d, 123, 0x1, 0x1, 0x4_c2cc, 19, 0x4_0000, 0x20);
    assert(sub_spec(0x3e72_2159, 0x3e6d_5e8d) == 0x3b98_5980);
    assert(0x86_d2b9 * 0x1 - 0x84_ca44 * 0x1 == 0x2_0875);
    lemma_sum_known(0x4306_d2b9, 0x4304_ca44, true, 0x86_d2b9, 133, 0x84_ca44, 133, 0x1, 0x1, 0x2_0875, 18, 0x2_0000, 0x40);
    assert(sub_spec(0x4306_d2b9, 0x4304_ca44) == 0x4002_1d40);
    assert(0x82_1d40 * 0x98_5980 == 0x4d6e_db39_e000);
    lemma_product_known(0x4002_1d40, 0x3b98_5980, 0x82_1d40, 127, 0x98_5980, 118, 0x4d6e_db39_e000, 47, 0x4000_0000_0000, 0x80_0000);
    assert(mul_spec(0x4002_1d40, 0x3b98_5980) == 0x3c1a_ddb6);
    assert(0x9a_ddb6 * 0x1_0000_0000_0000_0000 == 0x1_35bb_6c00_0000_0000 * 0x80_0000 + 0x0);
    lemma_quotient_known(0x3c1a_ddb6, 0x3c00_0000, 0x9a_ddb6, 119, 0x80_0000, 119, 0x1_35bb_6c00_0000_0000, 0x0, 66, 0x2_0000_0000_0000_0000, 0x400_0000_0000);
    assert(div_spec(0x3c1a_ddb6, 0x3c00_0000) == 0x3f9a_ddb6);
    assert(0x84_ca44 * 0x80 + 0x9a_ddb6 * 0x1 == 0x42ff_ffb6);
    lemma_sum_known(0x4304_ca44, 0x3f9a_ddb6, false, 0x84_ca44, 133, 0x9a_ddb6, 126, 0x80, 0x1, 0x42ff_ffb6, 31, 0x4000_0000, 0x80);
    assert(add_spec(0x4304_ca44, 0x3f9a_ddb6) == 0x4305_ffff);
    lemma_whole_known(0x4305_ffff, 0x85_ffff, 133, 0x1_0000);
}

/// The value 0x3e72_215a.
proof fn lemma_at_3e72215a()
    ensures
        chord_code(0x3e72_215a, 0x3e6d_5e8d, 0x3e75_5e8d, 0x4304_ca44, 0x4306_d2b9) == 134,
{
    reveal(chord_code);
    lemma2_to64();
    lemma2_to64_rest();
    lemma_high_powers();
    assert(0xf5_5e8d * 0x1 - 0xed_5e8d * 0x1 == 0x8_0000);
    lemma_sum_known(0x3e75_5e8d, 0x3e6d_5e8d, true, 0xf5_5e8d, 123, 0xed_5e8d, 123, 0x1, 0x1, 0x8_0000, 20, 0x8_0000, 0x10);
    assert(sub_spec(0x3e75_5e8d, 0x3e6d_5e8d) == 0x3c00_0000);
    assert(0xf2_215a * 0x1 - 0xed_5e8d * 0x1 == 0x4_c2cd);
    lemma_sum_known(0x3e72_215a, 0x3e6d_5e8d, true, 0xf2_215a, 123, 0xed_5e8d, 123, 0x1, 0x1, 0x4_c2cd, 19, 0x4_0000, 0x20);
    assert(sub_spec(0x3e72_215a, 0x3e6d_5e8d) == 0x3b98_59a0);
    assert(0x86_d2b9 * 0x1 - 0x84_ca44 * 0x1 == 0x2_0875);
    lemma_sum_known(0x4306_d2b9, 0x4304_ca44, true, 0x86_d2b9, 133, 0x84_ca44, 133, 0x1, 0x1, 0x2_0875, 18, 0x2_0000, 0x40);
    assert(sub_spec(0x4306_d2b9, 0x4304_ca44) == 0x4002_1d40);
    assert(0x82_1d40 * 0x98_59a0 == 0x4d6e_eb7d_8800);
    lemma_product_known(0x4002_1d40, 0x3b98_59a0, 0x82_1d40, 127, 0x98_59a0, 118, 0x4d6e_eb7d_8800, 47, 0x4000_0000_0000, 0x80_0000);
    assert(mul_spec(0x4002_1d40, 0x3b98_59a0) == 0x3c1a_ddd7);
    assert(0x9a_ddd7 * 0x1_0000_0000_0000_0000 == 0x1_35bb_ae00_0000_0000 * 0x80_0000 + 0x0);
    lemma_quotient_known(0x3c1a_ddd7, 0x3c00_0000, 0x9a_ddd7, 119, 0x80_0000, 119, 0x1_35bb_ae00_0000_0000, 0x0, 66, 0x2_0000_0000_0000_0000, 0x400_0000_0000);
    assert(div_spec(0x3c1a_ddd7, 0x3c00_0000) == 0x3f9a_ddd7);
    assert(0x84_ca44 * 0x80 + 0x9a_ddd7 * 0x1 == 0x42ff_ffd7);
    lemma_sum_known(0x4304_ca44, 0x3f9a_ddd7, false, 0x84_ca44, 133, 0x9a_ddd7, 126, 0x80, 0x1, 0x42ff_ffd7, 31, 0x4000_0000, 0x80);
    assert(add_spec(0x4304_ca44, 0x3f9a_ddd7) == 0x4306_0000);
    lemma_whole_known(0x4306_0000, 0x86_0000, 133, 0x1_0000);
}

/// The edge of code 133.
proof fn lemma_near_133()
    ensures
        near_exact_edge(0x3e72_2159, 133),
{
    lemma2_to64();
    lemma2_to64_rest();
    lemma_fifth_powers_of_two();
    lemma_more_fifth_powers_of_two();
    assert(147525nat * 147525 * 147525 == 0xb_6818_6d8d_c33d);
    assert(269025nat * 269025 * 269025 == 0x45_2c59_9066_9ca1);
    assert(0xb_6818_6d8d_c33dnat * 0xb_6818_6d8d_c33d == 0x82_1c6d_4586_af56_3232_9817_fc89nat);
    assert(0x82_1c6d_4586_af56_3232_9817_fc89nat * 0x82_1c6d_4586_af56_3232_9817_fc89nat == 0x4220_e222_b2a3_d179_0724_c61a_076a_1baf_0236_1c6c_a7a6_09bc_0151nat);
    assert(0x45_2c59_9066_9ca1nat * 0x45_2c59_9066_9ca1 == 0x12b0_eff6_c049_6d6d_d948_5020_9d41nat);
    assert(0x12b0_eff6_c049_6d6d_d948_5020_9d41nat * 0x12b0_eff6_c049_6d6d_d948_5020_9d41nat == 0x15d_5c09_8741_6139_2178_92b9_bce5_5f46_89a2_dd05_b95f_0d00_50d8_ca81nat);
    assert(0x4ba_62bdnat * 0x4ba_62bd == 0x16_5ac9_88b9_3f89);
    assert(0x16_5ac9_88b9_3f89nat * 0x16_5ac9_88b9_3f89 == 0x1f3_bad5_d2a1_2823_72b0_73c6_b751nat);
    assert(0x1f3_bad5_d2a1_2823_72b0_73c6_b751nat * 0x4ba_62bd == 0x9_3ac1_d51c_5835_e9e4_4a16_71d6_00bc_58cdnat);
    assert(0x4ba_eabdnat * 0x4ba_eabd == 0x16_5fcf_d9e2_0f89);
    assert(0x16_5fcf_d9e2_0f89nat * 0x16_5fcf_d9e2_0f89 == 0x1f4_9b95_5f52_8819_d383_b0d5_5751nat);
    assert(0x1f4_9b95_5f52_8819_d383_b0d5_5751nat * 0x4ba_eabd == 0x9_3ff2_67d1_f280_1a67_d2d9_583b_442b_80cdnat);
    assert(0x9_3ac1_d51c_5835_e9e4_4a16_71d6_00bc_58cdnat * 0x15d_5c09_8741_6139_2178_92b9_bce5_5f46_89a2_dd05_b95f_0d00_50d8_ca81nat == 0xc98_6bb5_2162_931e_20b7_1a8d_11cb_f2a4_7f4f_c052_a922_76f6_588b_bad6_31ce_eb67_3949_7a1d_a183_1d15_f9f2_814dnat);
    assert(0x9_3ff2_67d1_f280_1a67_d2d9_583b_442b_80cdnat * 0x15d_5c09_8741_6139_2178_92b9_bce5_5f46_89a2_dd05_b95f_0d00_50d8_ca81nat == 0xc9f_80ca_c922_46c2_eea2_00ff_ce88_5072_1b66_2c7b_c5ad_1c14_b551_2cfb_e1b4_cd1f_b662_4955_dd10_bf9c_6a85_a94dnat);
    assert(0xc35nat * 0x4_0000_0000_0000_0000_0000_0000_0000_0000nat == 0x30d4_0000_0000_0000_0000_0000_0000_0000_0000nat);
    assert(0x4220_e222_b2a3_d179_0724_c61a_076a_1baf_0236_1c6c_a7a6_09bc_0151nat * 0x30d4_0000_0000_0000_0000_0000_0000_0000_0000nat == 0xc9c_eda1_c63a_a6f0_2990_cf98_eef2_090f_bd57_fa23_e969_f753_4ff0_4714_0000_0000_0000_0000_0000_0000_0000_0000nat);
    lemma_near_above(
        0x3e72_2159, 0xf2_2159, 123, 0x400, 0x30d4_0000_0000_0000_0000_0000_0000_0000_0000nat, 133,
        147525, 0xb_6818_6d8d_c33d,
        0x82_1c6d_4586_af56_3232_9817_fc89nat,
        0x45_2c59_9066_9ca1, 0x12b0_eff6_c049_6d6d_d948_5020_9d41nat,
        0x4ba_62bd, 0x16_5ac9_88b9_3f89, 0x1f3_bad5_d2a1_2823_72b0_73c6_b751nat,
        0x4ba_eabd, 0x16_5fcf_d9e2_0f89, 0x1f4_9b95_5f52_8819_d383_b0d5_5751nat,
    );
}

/// The value 0x3e76_1414.
proof fn lemma_at_3e761414()
    ensures
        chord_code(0x3e76_1414, 0x3e75_5e8d, 0x3e7d_5e8d, 0x4306_d2b9, 0x4308_d183) == 134,
{
    reveal(chord_code);
    lemma2_to64();
    lemma2_to64_rest();
    lemma_high_powers();
    assert(0xfd_5e8d * 0x1 - 0xf5_5e8d * 0x1 == 0x8_0000);
    lemma_sum_known(0x3e7d_5e8d, 0x3e75_5e8d, true, 0xfd_5e8d, 123, 0xf5_5e8d, 123, 0x1, 0x1, 0x8_0000, 20, 0x8_0000, 0x10);
    assert(sub_spec(0x3e7d_5e8d, 0x3e75_5e8d) == 0x3c00_0000);
    assert(0xf6_1414 * 0x1 - 0xf5_5e8d * 0x1 == 0xb587);
    lemma_sum_known(0x3e76_1414, 0x3e75_5e8d, true, 0xf6_1414, 123, 0xf5_5e8d, 123, 0x1, 0x1, 0xb587, 16, 0x8000, 0x100);
    assert(sub_spec(0x3e76_1414, 0x3e75_5e8d) == 0x3a35_8700);
    assert(0x88_d183 * 0x1 - 0x86_d2b9 * 0x1 == 0x1_feca);
    lemma_sum_known(0x4308_d183, 0x4306_d2b9, true, 0x88_d183, 133, 0x86_d2b9, 133, 0x1, 0x1, 0x1_feca, 17, 0x1_0000, 0x80);
    assert(sub_spec(0x4308_d183, 0x4306_d2b9) == 0x3fff_6500);
    assert(0xff_6500 * 0xb5_8700 == 0xb519_1743_0000);
    lemma_product_known(0x3fff_6500, 0x3a35_8700, 0xff_6500, 126, 0xb5_8700, 115, 0xb519_1743_0000, 48, 0x8000_0000_0000, 0x100_0000);
    assert(mul_spec(0x3fff_6500, 0x3a35_8700) == 0x3ab5_1917);
    assert(0xb5_1917 * 0x1_0000_0000_0000_0000 == 0x1_6a32_2e00_0000_0000 * 0x80_0000 + 0x0);
    lemma_quotient_known(0x3ab5_1917, 0x3c00_0000, 0xb5_1917, 116, 0x80_0000, 119, 0x1_6a32_2e00_0000_0000, 0x0, 66, 0x2_0000_0000_0000_0000, 0x400_0000_0000);
    assert(div_spec(0x3ab5_1917, 0x3c00_0000) == 0x3e35_1917);
    assert(0x86_d2b9 * 0x400 + 0xb5_1917 * 0x1 == 0x2_1bff_fd17);
    lemma_sum_known(0x4306_d2b9, 0x3e35_1917, false, 0x86_d2b9, 133, 0xb5_1917, 123, 0x400, 0x1, 0x2_1bff_fd17, 34, 0x2_0000_0000, 0x400);
    assert(add_spec(0x4306_d2b9, 0x3e35_1917) == 0x4306_ffff);
    lemma_whole_known(0x4306_ffff, 0x86_ffff, 133, 0x1_0000);
}

/// The value 0x3e76_1415.
proof fn lemma_at_3e761415()
    ensures
        chord_code(0x3e76_1415, 0x3e75_5e8d, 0x3e7d_5e8d, 0x4306_d2b9, 0x4308_d183) == 135,
{
    reveal(chord_code);
    lemma2_to64();
    lemma2_to64_rest();
    lemma_high_powers();
    assert(0xfd_5e8d * 0x1 - 0xf5_5e8d * 0x1 == 0x8_0000);
    lemma_sum_known(0x3e7d_5e8d, 0x3e75_5e8d, true, 0xfd_5e8d, 123, 0xf5_5e8d, 123, 0x1, 0x1, 0x8_0000, 20, 0x8_0000, 0x10);
    assert(sub_spec(0x3e7d_5e8d, 0x3e75_5e8d) == 0x3c00_0000);
    assert(0xf6_1415 * 0x1 - 0xf5_5e8d * 0x1 == 0xb588);
    lemma_sum_known(0x3e76_1415, 0x3e75_5e8d, true, 0xf6_1415, 123, 0xf5_5e8d, 123, 0x1, 0x1, 0xb588, 16, 0x8000, 0x100);
    assert(sub_spec(0x3e76_1415, 0x3e75_5e8d) == 0x3a35_8800);
    assert(0x88_d183 * 0x1 - 0x86_d2b9 * 0x1 == 0x1_feca);
    lemma_sum_known(0x4308_d183, 0x4306_d2b9, true, 0x88_d183, 133, 0x86_d2b9, 133, 0x1, 0x1, 0x1_feca, 17, 0x1_0000, 0x80);
    assert(sub_spec(0x4308_d183, 0x4306_d2b9) == 0x3fff_6500);
    assert(0xff_6500 * 0xb5_8800 == 0xb51a_16a8_0000);
    lemma_product_known(0x3fff_6500, 0x3a35_8800, 0xff_6500, 126, 0xb5_8800, 115, 0xb51a_16a8_0000, 48, 0x8000_0000_0000, 0x100_0000);
    assert(mul_spec(0x3fff_6500, 0x3a35_8800) == 0x3ab5_1a17);
    assert(0xb5_1a17 * 0x1_0000_0000_0000_0000 == 0x1_6a34_2e00_0000_0000 * 0x80_0000 + 0x0);
    lemma_quotient_known(0x3ab5_1a17, 0x3c00_0000, 0xb5_1a17, 116, 0x80_0000, 119, 0x1_6a34_2e00_0000_0000, 0x0, 66, 0x2_0000_0000_0000_0000, 0x400_0000_0000);
    assert(div_spec(0x3ab5_1a17, 0x3c00_0000) == 0x3e35_1a17);
    assert(0x86_d2b9 * 0x400 + 0xb5_1a17 * 0x1 == 0x2_1bff_fe17);
    lemma_sum_known(0x4306_d2b9, 0x3e35_1a17, false, 0x86_d2b9, 133, 0xb5_1a17, 123, 0x400, 0x1, 0x2_1bff_fe17, 34, 0x2_0000_0000, 0x400);
    assert(add_spec(0x4306_d2b9, 0x3e35_1a17) == 0x4307_0000);
    lemma_whole_known(0x4307_0000, 0x87_0000, 133, 0x1_0000);
}

/// The edge of code 134.
proof fn lemma_near_134()
    ensures
        near_exact_edge(0x3e76_1414, 134),
{
    lemma2_to64();
    lemma2_to64_rest();
    lemma_fifth_powers_of_two();
    lemma_more_fifth_powers_of_two();
    assert(148525nat * 148525 * 148525 == 0xb_a3e1_6c35_0ff5);
    assert(269025nat * 269025 * 269025 == 0x45_2c59_9066_9ca1);
    assert(0xb_a3e1_6c35_0ff5nat * 0xb_a3e1_6c35_0ff5 == 0x87_7e48_22da_5462_db20_5470_a079nat);
    assert(0x87_7e48_22da_5462_db20_5470_a079nat * 0x87_7e48_22da_5462_db20_5470_a079nat == 0x47b6_6e5f_d8e7_8ae2_9c06_3a7a_6c66_d23c_562c_2f35_3f1c_3677_7931nat);
    assert(0x45_2c59_9066_9ca1nat * 0x45_2c59_9066_9ca1 == 0x12b0_eff6_c049_6d6d_d948_5020_9d41nat);
    assert(0x12b0_eff6_c049_6d6d_d948_5020_9d41nat * 0x12b0_eff6_c049_6d6d_d948_5020_9d41nat == 0x15d_5c09_8741_6139_2178_92b9_bce5_5f46_89a2_dd05_b95f_0d00_50d8_ca81nat);
    assert(0x4ce_2064nat * 0x4ce_2064 == 0x17_16fb_4509_2710);
    assert(0x17_16fb_4509_2710nat * 0x17_16fb_4509_2710 == 0x215_2336_8e23_0a27_48c2_6515_e100nat);
    assert(0x215_2336_8e23_0a27_48c2_6515_e100nat * 0x4ce_2064 == 0xa_01d2_a4c7_7f6e_afb4_7672_67b1_46ab_e400nat);
    assert(0x4ce_a864nat * 0x4ce_a864 == 0x17_1c16_8fb3_6710);
    assert(0x17_1c16_8fb3_6710nat * 0x17_1c16_8fb3_6710 == 0x216_0f22_c3a8_c6eb_219d_29dd_e100nat);
    assert(0x216_0f22_c3a8_c6eb_219d_29dd_e100nat * 0x4ce_a864 == 0xa_075c_0394_cee6_ee33_8307_6ced_0453_e400nat);
    assert(0xa_01d2_a4c7_7f6e_afb4_7672_67b1_46ab_e400nat * 0x15d_5c09_8741_6139_2178_92b9_bce5_5f46_89a2_dd05_b95f_0d00_50d8_ca81nat == 0xda8_1531_b11c_8f02_5d32_419f_85e9_8201_6a34_ea3f_d767_cb7f_be74_71ca_5f2a_790b_a601_8679_2fb5_7a60_9e85_e400nat);
    assert(0xa_075c_0394_cee6_ee33_8307_6ced_0453_e400nat * 0x15d_5c09_8741_6139_2178_92b9_bce5_5f46_89a2_dd05_b95f_0d00_50d8_ca81nat == 0xdaf_a375_81d4_deb0_325b_11de_0aba_be9f_50e8_bc1e_18e2_310f_55e2_1cf7_3156_491f_6cd0_45c4_ba9a_c6e1_c02d_e400nat);
    assert(0xc35nat * 0x4_0000_0000_0000_0000_0000_0000_0000_0000nat == 0x30d4_0000_0000_0000_0000_0000_0000_0000_0000nat);
    assert(0x47b6_6e5f_d8e7_8ae2_9c06_3a7a_6c66_d23c_562c_2f35_3f1c_3677_7931nat * 0x30d4_0000_0000_0000_0000_0000_0000_0000_0000nat == 0xdad_97c5_600b_09c9_80ea_601f_61b5_0c91_6a1f_a571_13ed_8d93_81a9_8c94_0000_0000_0000_0000_0000_0000_0000_0000nat);
    lemma_near_above(
        0x3e76_1414, 0xf6_1414, 123, 0x400, 0x30d4_0000_0000_0000_0000_0000_0000_0000_0000nat, 134,
        148525, 0xb_a3e1_6c35_0ff5,
        0x87_7e48_22da_5462_db20_5470_a079nat,
        0x45_2c59_9066_9ca1, 0x12b0_eff6_c049_6d6d_d948_5020_9d41nat,
        0x4ce_2064, 0x17_16fb_4509_2710, 0x215_2336_8e23_0a27_48c2_6515_e100nat,
        0x4ce_a864, 0x17_1c16_8fb3_6710, 0x216_0f22_c3a8_c6eb_219d_29dd_e100nat,
    );
}

/// The value 0x3e7a_1682.
proof fn lemma_at_3e7a1682()
    ensures
        chord_code(0x3e7a_1682, 0x3e75_5e8d, 0x3e7d_5e8d, 0x4306_d2b9, 0x4308_d183) == 135,
{
    reveal(chord_code);
    lemma2_to64();
    lemma2_to64_rest();
    lemma_high_powers();
    assert(0xfd_5e8d * 0x1 - 0xf5_5e8d * 0x1 == 0x8_0000);
    lemma_sum_known(0x3e7d_5e8d, 0x3e75_5e8d, true, 0xfd_5e8d, 123, 0xf5_5e8d, 123, 0x1, 0x1, 0x8_0000, 20, 0x8_0000, 0x10);
    assert(sub_spec(0x3e7d_5e8d, 0x3e75_5e8d) == 0x3c00_0000);
    assert(0xfa_1682 * 0x1 - 0xf5_5e8d * 0x1 == 0x4_b7f5);
    lemma_sum_known(0x3e7a_1682, 0x3e75_5e8d, true, 0xfa_1682, 123, 0xf5_5e8d, 123, 0x1, 0x1, 0x4_b7f5, 19, 0x4_0000, 0x20);
    assert(sub_spec(0x3e7a_1682, 0x3e75_5e8d) == 0x3b96_fea0);
    assert(0x88_d183 * 0x1 - 0x86_d2b9 * 0x1 == 0x1_feca);
    lemma_sum_known(0x4308_d183, 0x4306_d2b9, true, 0x88_d183, 133, 0x86_d2b9, 133, 0x1, 0x1, 0x1_feca, 17, 0x1_0000, 0x80);
    assert(sub_spec(0x4308_d183, 0x4306_d2b9) == 0x3fff_6500);
    assert(0xff_6500 * 0x96_fea0 == 0x96a3_33d5_2000);
    lemma_product_known(0x3fff_6500, 0x3b96_fea0, 0xff_6500, 126, 0x96_fea0, 118, 0x96a3_33d5_2000, 48, 0x8000_0000_0000, 0x100_0000);
    assert(mul_spec(0x3fff_6500, 0x3b96_fea0) == 0x3c16_a334);
    assert(0x96_a334 * 0x1_0000_0000_0000_0000 == 0x1_2d46_6800_0000_0000 * 0x80_0000 + 0x0);
    lemma_quotient_known(0x3c16_a334, 0x3c00_0000, 0x96_a334, 119, 0x80_0000, 119, 0x1_2d46_6800_0000_0000, 0x0, 66, 0x2_0000_0000_0000_0000, 0x400_0000_0000);
    assert(div_spec(0x3c16_a334, 0x3c00_0000) == 0x3f96_a334);
    assert(0x86_d2b9 * 0x80 + 0x96_a334 * 0x1 == 0x43ff_ffb4);
    lemma_sum_known(0x4306_d2b9, 0x3f96_a334, false, 0x86_d2b9, 133, 0x96_a334, 126, 0x80, 0x1, 0x43ff_ffb4, 31, 0x4000_0000, 0x80);
    assert(add_spec(0x4306_d2b9, 0x3f96_a334) == 0x4307_ffff);
    lemma_whole_known(0x4307_ffff, 0x87_ffff, 133, 0x1_0000);
}

/// The value 0x3e7a_1683.
proof fn lemma_at_3e7a1683()
    ensures
        chord_code(0x3e7a_1683, 0x3e75_5e8d, 0x3e7d_5e8d, 0x4306_d2b9, 0x4308_d183) == 136,
{
    reveal(chord_code);
    lemma2_to64();
    lemma2_to64_rest();
    lemma_high_powers();
    assert(0xfd_5e8d * 0x1 - 0xf5_5e8d * 0x1 == 0x8_0000);
    lemma_sum_known(0x3e7d_5e8d, 0x3e75_5e8d, true, 0xfd_5e8d, 123, 0xf5_5e8d, 123, 0x1, 0x1, 0x8_0000, 20, 0x8_0000, 0x10);
    assert(sub_spec(0x3e7d_5e8d, 0x3e75_5e8d) == 0x3c00_0000);
    assert(0xfa_1683 * 0x1 - 0xf5_5e8d * 0x1 == 0x4_b7f6);
    lemma_sum_known(0x3e7a_1683, 0x3e75_5e8d, true, 0xfa_1683, 123, 0xf5_5e8d, 123, 0x1, 0x1, 0x4_b7f6, 19, 0x4_0000, 0x20);
    assert(sub_spec(0x3e7a_1683, 0x3e75_5e8d) == 0x3b96_fec0);
    assert(0x88_d183 * 0x1 - 0x86_d2b9 * 0x1 == 0x1_feca);
    lemma_sum_known(0x4308_d183, 0x4306_d2b9, true, 0x88_d183, 133, 0x86_d2b9, 133, 0x1, 0x1, 0x1_feca, 17, 0x1_0000, 0x80);
    assert(sub_spec(0x4308_d183, 0x4306_d2b9) == 0x3fff_6500);
    assert(0xff_6500 * 0x96_fec0 == 0x96a3_53c1_c000);
    lemma_product_known(0x3fff_6500, 0x3b96_fec0, 0xff_6500, 126, 0x96_fec0, 118, 0x96a3_53c1_c000, 48, 0x8000_0000_0000, 0x100_0000);
    assert(mul_spec(0x3fff_6500, 0x3b96_fec0) == 0x3c16_a354);
    assert(0x96_a354 * 0x1_0000_0000_0000_0000 == 0x1_2d46_a800_0000_0000 * 0x80_0000 + 0x0);
    lemma_quotient_known(0x3c16_a354, 0x3c00_0000, 0x96_a354, 119, 0x80_0000, 119, 0x1_2d46_a800_0000_0000, 0x0, 66, 0x2_0000_0000_0000_0000, 0x400_0000_0000);
    assert(div_spec(0x3c16_a354, 0x3c00_0000) == 0x3f96_a354);
    assert(0x86_d2b9 * 0x80 + 0x96_a354 * 0x1 == 0x43ff_ffd4);
    lemma_sum_known(0x4306_d2b9, 0x3f96_a354, false, 0x86_d2b9, 133, 0x96_a354, 126, 0x80, 0x1, 0x43ff_ffd4, 31, 0x4000_0000, 0x80);
    assert(add_spec(0x4306_d2b9, 0x3f96_a354) == 0x4308_0000);
    lemma_whole_known(0x4308_0000, 0x88_0000, 133, 0x1_0000);
}

/// The edge of code 135.
proof fn lemma_near_135()
    ensures
        near_exact_edge(0x3e7a_1682, 135),
{
    lemma2_to64();
    lemma2_to64_rest();
    lemma_fifth_powers_of_two();
    lemma_more_fifth_powers_of_two();
    assert(149525nat * 149525 * 149525 == 0xb_e079_e78a_3c2d);
    assert(269025nat * 269025 * 269025 == 0x45_2c59_9066_9ca1);
    assert(0xb_e079_e78a_3c2dnat * 0xb_e079_e78a_3c2d == 0x8d_0f4f_751f_c744_65c8_24a9_1fe9nat);
    assert(0x8d_0f4f_751f_c744_65c8_24a9_1fe9nat * 0x8d_0f4f_751f_c744_65c8_24a9_1fe9nat == 0x4db9_de71_6d64_b9e5_2eb3_0ad4_9947_dbb8_a749_f277_b6c4_ad9c_4211nat);
    assert(0x45_2c59_9066_9ca1nat * 0x45_2c59_9066_9ca1 == 0x12b0_eff6_c049_6d6d_d948_5020_9d41nat);
    assert(0x12b0_eff6_c049_6d6d_d948_5020_9d41nat * 0x12b0_eff6_c049_6d6d_d948_5020_9d41nat == 0x15d_5c09_8741_6139_2178_92b9_bce5_5f46_89a2_dd05_b95f_0d00_50d8_ca81nat);
    assert(0x4e2_2c8anat * 0x4e2_2c8a == 0x17_d936_fb67_ba64);
    assert(0x17_d936_fb67_ba64nat * 0x17_d936_fb67_ba64 == 0x238_c02f_6ea8_5e9c_bbb7_9c2d_7710nat);
    assert(0x238_c02f_6ea8_5e9c_bbb7_9c2d_7710nat * 0x4e2_2c8a == 0xa_d97d_5b3a_12b4_9052_8749_55d1_5d18_eea0nat);
    assert(0x4e2_b48anat * 0x4e2_b48a == 0x17_de67_92fa_5a64);
    assert(0x17_de67_92fa_5a64nat * 0x17_de67_92fa_5a64 == 0x239_b7d4_35ce_0c94_b066_bb3a_7710nat);
    assert(0x239_b7d4_35ce_0c94_b066_bb3a_7710nat * 0x4e2_b48a == 0xa_df65_628d_0653_4ff0_a9cd_867f_655b_6ea0nat);
    assert(0xa_d97d_5b3a_12b4_9052_8749_55d1_5d18_eea0nat * 0x15d_5c09_8741_6139_2178_92b9_bce5_5f46_89a2_dd05_b95f_0d00_50d8_ca81nat == 0xece_6675_cbd3_06b0_6df4_c6e5_c4b7_5706_82e2_4163_e6f0_3924_0d41_004e_f609_b043_4dd7_e494_50e7_e990_ecda_7ea0nat);
    assert(0xa_df65_628d_0653_4ff0_a9cd_867f_655b_6ea0nat * 0x15d_5c09_8741_6139_2178_92b9_bce5_5f46_89a2_dd05_b95f_0d00_50d8_ca81nat == 0xed6_75e7_62d2_1598_1cb9_b94d_07ea_dc6d_1aab_cd84_8d7f_5ff7_ee66_4f86_bd0e_5e37_8912_1ed8_59d9_83e3_8f5c_fea0nat);
    assert(0xc35nat * 0x4_0000_0000_0000_0000_0000_0000_0000_0000nat == 0x30d4_0000_0000_0000_0000_0000_0000_0000_0000nat);
    assert(0x4db9_de71_6d64_b9e5_2eb3_0ad4_9947_dbb8_a749_f277_b6c4_ad9c_4211nat * 0x30d4_0000_0000_0000_0000_0000_0000_0000_0000nat == 0xed3_37a1_7a71_7a44_ea8c_3e4c_d4cc_68b4_9448_66b3_3d68_3b6d_11c9_e614_0000_0000_0000_0000_0000_0000_0000_0000nat);
    lemma_near_above(
        0x3e7a_1682, 0xfa_1682, 123, 0x400, 0x30d4_0000_0000_0000_0000_0000_0000_0000_0000nat, 135,
        149525, 0xb_e079_e78a_3c2d,
        0x8d_0f4f_751f_c744_65c8_24a9_1fe9nat,
        0x45_2c59_9066_9ca1, 0x12b0_eff6_c049_6d6d_d948_5020_9d41nat,
        0x4e2_2c8a, 0x17_d936_fb67_ba64, 0x238_c02f_6ea8_5e9c_bbb7_9c2d_7710nat,
        0x4e2_b48a, 0x17_de67_92fa_5a64, 0x239_b7d4_35ce_0c94_b066_bb3a_7710nat,
    );
}

/// The value 0x3e7e_1d51.
proof fn lemma_at_3e7e1d51()
    ensures
        chord_code(0x3e7e_1d51, 0x3e7d_5e8d, 0x3e85_5e8d, 0x4308_d183, 0x430c_1384) == 136,
{
    reveal(chord_code);
    lemma2_to64();
    lemma2_to64_rest();
    lemma_high_powers();
    assert(0x85_5e8d * 0x2 - 0xfd_5e8d * 0x1 == 0xd_5e8d);
    lemma_sum_known(0x3e85_5e8d, 0x3e7d_5e8d, true, 0x85_5e8d, 124, 0xfd_5e8d, 123, 0x2, 0x1, 0xd_5e8d, 20, 0x8_0000, 0x10);
    assert(sub_spec(0x3e85_5e8d, 0x3e7d_5e8d) == 0x3c55_e8d0);
    assert(0xfe_1d51 * 0x1 - 0xfd_5e8d * 0x1 == 0xbec4);
    lemma_sum_known(0x3e7e_1d51, 0x3e7d_5e8d, true, 0xfe_1d51, 123, 0xfd_5e8d, 123, 0x1, 0x1, 0xbec4, 16, 0x8000, 0x100);
    assert(sub_spec(0x3e7e_1d51, 0x3e7d_5e8d) == 0x3a3e_c400);
    assert(0x8c_1384 * 0x1 - 0x88_d183 * 0x1 == 0x3_4201);
    lemma_sum_known(0x430c_1384, 0x4308_d183, true, 0x8c_1384, 133, 0x88_d183, 133, 0x1, 0x1, 0x3_4201, 18, 0x2_0000, 0x40);
    assert(sub_spec(0x430c_1384, 0x4308_d183) == 0x4050_8040);
    assert(0xd0_8040 * 0xbe_c400 == 0x9b5e_d1b1_0000);
    lemma_product_known(0x4050_8040, 0x3a3e_c400, 0xd0_8040, 127, 0xbe_c400, 115, 0x9b5e_d1b1_0000, 48, 0x8000_0000_0000, 0x100_0000);
    assert(mul_spec(0x4050_8040, 0x3a3e_c400) == 0x3b1b_5ed2);
    assert(0x9b_5ed2 * 0x1_0000_0000_0000_0000 == 0xb9f1_3da7_3422_bbb0 * 0xd5_e8d0 + 0x40_0100);
    lemma_quotient_known(0x3b1b_5ed2, 0x3c55_e8d0, 0x9b_5ed2, 117, 0xd5_e8d0, 119, 0xb9f1_3da7_3422_bbb0, 0x40_0100, 65, 0x1_0000_0000_0000_0000, 0x200_0000_0000);
    assert(div_spec(0x3b1b_5ed2, 0x3c55_e8d0) == 0x3e39_f13e);
    assert(0x88_d183 * 0x400 + 0xb9_f13e * 0x1 == 0x2_23ff_fd3e);
    lemma_sum_known(0x4308_d183, 0x3e39_f13e, false, 0x88_d183, 133, 0xb9_f13e, 123, 0x400, 0x1, 0x2_23ff_fd3e, 34, 0x2_0000_0000, 0x400);
    assert(add_spec(0x4308_d183, 0x3e39_f13e) == 0x4308_ffff);
    lemma_whole_known(0x4308_ffff, 0x88_ffff, 133, 0x1_0000);
}

/// The value 0x3e7e_1d52.
proof fn lemma_at_3e7e1d52()
    ensures
        chord_code(0x3e7e_1d52, 0x3e7d_5e8d, 0x3e85_5e8d, 0x4308_d183, 0x430c_1384) == 137,
{
    reveal(chord_code);
    lemma2_to64();
    lemma2_to64_rest();
    lemma_high_powers();
    assert(0x85_5e8d * 0x2 - 0xfd_5e8d * 0x1 == 0xd_5e8d);
    lemma_sum_known(0x3e85_5e8d, 0x3e7d_5e8d, true, 0x85_5e8d, 124, 0xfd_5e8d, 123, 0x2, 0x1, 0xd_5e8d, 20, 0x8_0000, 0x10);
    assert(sub_spec(0x3e85_5e8d, 0x3e7d_5e8d) == 0x3c55_e8d0);
    assert(0xfe_1d52 * 0x1 - 0xfd_5e8d * 0x1 == 0xbec5);
    lemma_sum_known(0x3e7e_1d52, 0x3e7d_5e8d, true, 0xfe_1d52, 123, 0xfd_5e8d, 123, 0x1, 0x1, 0xbec5, 16, 0x8000, 0x100);
    assert(sub_spec(0x3e7e_1d52, 0x3e7d_5e8d) == 0x3a3e_c500);
    assert(0x8c_1384 * 0x1 - 0x88_d183 * 0x1 == 0x3_4201);
    lemma_sum_known(0x430c_1384, 0x4308_d183, true, 0x8c_1384, 133, 0x88_d183, 133, 0x1, 0x1, 0x3_4201, 18, 0x2_0000, 0x40);
    assert(sub_spec(0x430c_1384, 0x4308_d183) == 0x4050_8040);
    assert(0xd0_8040 * 0xbe_c500 == 0x9b5f_a231_4000);
    lemma_product_known(0x4050_8040, 0x3a3e_c500, 0xd0_8040, 127, 0xbe_c500, 115, 0x9b5f_a231_4000, 48, 0x8000_0000_0000, 0x100_0000);
    assert(mul_spec(0x4050_8040, 0x3a3e_c500) == 0x3b1b_5fa2);
    assert(0x9b_5fa2 * 0x1_0000_0000_0000_0000 == 0xb9f2_3694_b7bd_7a96 * 0xd5_e8d0 + 0x26_7620);
    lemma_quotient_known(0x3b1b_5fa2, 0x3c55_e8d0, 0x9b_5fa2, 117, 0xd5_e8d0, 119, 0xb9f2_3694_b7bd_7a96, 0x26_7620, 65, 0x1_0000_0000_0000_0000, 0x200_0000_0000);
    assert(div_spec(0x3b1b_5fa2, 0x3c55_e8d0) == 0x3e39_f237);
    assert(0x88_d183 * 0x400 + 0xb9_f237 * 0x1 == 0x2_23ff_fe37);
    lemma_sum_known(0x4308_d183, 0x3e39_f237, false, 0x88_d183, 133, 0xb9_f237, 123, 0x400, 0x1, 0x2_23ff_fe37, 34, 0x2_0000_0000, 0x400);
    assert(add_spec(0x4308_d183, 0x3e39_f237) == 0x4309_0000);
    lemma_whole_known(0x4309_0000, 0x89_0000, 133, 0x1_0000);
}

/// The edge of code 136.
proof fn lemma_near_136()
    ensures
        near_exact_edge(0x3e7e_1d51, 136),
{
    lemma2_to64();
    lemma2_to64_rest();
    lemma_fifth_powers_of_two();
    lemma_more_fifth_powers_of_two();
    assert(150525nat * 150525 * 150525 == 0xc_1de3_452e_03e5);
    assert(269025nat * 269025 * 269025 == 0x45_2c59_9066_9ca1);
    assert(0xc_1de3_452e_03e5nat * 0xc_1de3_452e_03e5 == 0x92_d0cb_c3c0_8ca6_a07c_d85b_2ad9nat);
    assert(0x92_d0cb_c3c0_8ca6_a07c_d85b_2ad9nat * 0x92_d0cb_c3c0_8ca6_a07c_d85b_2ad9nat == 0x5432_d2b7_07e9_5bab_ca8d_4d45_be97_1355_73ed_2e26_bafd_ad71_ebf1nat);
    assert(0x45_2c59_9066_9ca1nat * 0x45_2c59_9066_9ca1 == 0x12b0_eff6_c049_6d6d_d948_5020_9d41nat);
    assert(0x12b0_eff6_c049_6d6d_d948_5020_9d41nat * 0x12b0_eff6_c049_6d6d_d948_5020_9d41nat == 0x15d_5c09_8741_6139_2178_92b9_bce5_5f46_89a2_dd05_b95f_0d00_50d8_ca81nat);
    assert(0x4f6_4e95nat * 0x4f6_4e95 == 0x18_9f6f_c67b_22b9);
    assert(0x18_9f6f_c67b_22b9nat * 0x18_9f6f_c67b_22b9 == 0x25e_4841_4071_307c_9f5e_8e7b_a9b1nat);
    assert(0x25e_4841_4071_307c_9f5e_8e7b_a9b1nat * 0x4f6_4e95 == 0xb_c074_8e99_a123_88e5_d02e_6aee_6fc3_b205nat);
    assert(0x4f6_d695nat * 0x4f6_d695 == 0x18_a4b5_c239_72b9);
    assert(0x18_a4b5_c239_72b9nat * 0x18_a4b5_c239_72b9 == 0x25f_4c0d_ccab_5644_605e_adcb_49b1nat);
    assert(0x25f_4c0d_ccab_5644_605e_adcb_49b1nat * 0x4f6_d695 == 0xb_c6c0_5780_271d_510c_740d_6ae2_ab01_da05nat);
    assert(0xb_c074_8e99_a123_88e5_d02e_6aee_6fc3_b205nat * 0x15d_5c09_8741_6139_2178_92b9_bce5_5f46_89a2_dd05_b95f_0d00_50d8_ca81nat == 0x1009_9880_4446_b217_d70e_ccf4_f13d_9e6d_dd56_e721_7840_13ef_6189_f0de_76df_8703_5c3c_46b1_e0c4_bc16_804c_a685nat);
    assert(0xb_c6c0_5780_271d_510c_740d_6ae2_ab01_da05nat * 0x15d_5c09_8741_6139_2178_92b9_bce5_5f46_89a2_dd05_b95f_0d00_50d8_ca81nat == 0x1012_3014_9ebb_d271_df72_ad4f_2104_82e3_83f0_37d2_3d05_ee4b_da93_5bc4_4c4b_36e2_d908_a997_b2b7_d5d9_262e_ce85nat);
    assert(0xc35nat * 0x4_0000_0000_0000_0000_0000_0000_0000_0000nat == 0x30d4_0000_0000_0000_0000_0000_0000_0000_0000nat);
    assert(0x5432_d2b7_07e9_5bab_ca8d_4d45_be97_1355_73ed_2e26_bafd_ad71_ebf1nat * 0x30d4_0000_0000_0000_0000_0000_0000_0000_0000nat == 0x100f_4198_d10e_4e70_203e_3b81_117e_28bc_0880_7911_7b22_6a98_fe94_9394_0000_0000_0000_0000_0000_0000_0000_0000nat);
    lemma_near_above(
        0x3e7e_1d51, 0xfe_1d51, 123, 0x400, 0x30d4_0000_0000_0000_0000_0000_0000_0000_0000nat, 136,
        150525, 0xc_1de3_452e_03e5,
        0x92_d0cb_c3c0_8ca6_a07c_d85b_2ad9nat,
        0x45_2c59_9066_9ca1, 0x12b0_eff6_c049_6d6d_d948_5020_9d41nat,
        0x4f6_4e95, 0x18_9f6f_c67b_22b9, 0x25e_4841_4071_307c_9f5e_8e7b_a9b1nat,
        0x4f6_d695, 0x18_a4b5_c239_72b9, 0x25f_4c0d_ccab_5644_605e_adcb_49b1nat,
    );
}

/// The value 0x3e81_1bf0.
proof fn lemma_at_3e811bf0()
    ensures
        chord_code(0x3e81_1bf0, 0x3e7d_5e8d, 0x3e85_5e8d, 0x4308_d183, 0x430c_1384) == 137,
{
    reveal(chord_code);
    lemma2_to64();
    lemma2_to64_rest();
    lemma_high_powers();
    assert(0x85_5e8d * 0x2 - 0xfd_5e8d * 0x1 == 0xd_5e8d);
    lemma_sum_known(0x3e85_5e8d, 0x3e7d_5e8d, true, 0x85_5e8d, 124, 0xfd_5e8d, 123, 0x2, 0x1, 0xd_5e8d, 20, 0x8_0000, 0x10);
    assert(sub_spec(0x3e85_5e8d, 0x3e7d_5e8d) == 0x3c55_e8d0);
    assert(0x81_1bf0 * 0x2 - 0xfd_5e8d * 0x1 == 0x4_d953);
    lemma_sum_known(0x3e81_1bf0, 0x3e7d_5e8d, true, 0x81_1bf0, 124, 0xfd_5e8d, 123, 0x2, 0x1, 0x4_d953, 19, 0x4_0000, 0x20);
    assert(sub_spec(0x3e81_1bf0, 0x3e7d_5e8d) == 0x3b9b_2a60);
    assert(0x8c_1384 * 0x1 - 0x88_d183 * 0x1 == 0x3_4201);
    lemma_sum_known(0x430c_1384, 0x4308_d183, true, 0x8c_1384, 133, 0x88_d183, 133, 0x1, 0x1, 0x3_4201, 18, 0x2_0000, 0x40);
    assert(sub_spec(0x430c_1384, 0x4308_d183) == 0x4050_8040);
    assert(0xd0_8040 * 0x9b_2a60 == 0x7e60_29fa_9800);
    lemma_product_known(0x4050_8040, 0x3b9b_2a60, 0xd0_8040, 127, 0x9b_2a60, 118, 0x7e60_29fa_9800, 47, 0x4000_0000_0000, 0x80_0000);
    assert(mul_spec(0x4050_8040, 0x3b9b_2a60) == 0x3c7c_c054);
    assert(0xfc_c054 * 0x1_0000_0000_0000_0000 == 0x1_2e7c_155e_ba0a_23a4 * 0xd5_e8d0 + 0x2_6ac0);
    lemma_quotient_known(0x3c7c_c054, 0x3c55_e8d0, 0xfc_c054, 119, 0xd5_e8d0, 119, 0x1_2e7c_155e_ba0a_23a4, 0x2_6ac0, 66, 0x2_0000_0000_0000_0000, 0x400_0000_0000);
    assert(div_spec(0x3c7c_c054, 0x3c55_e8d0) == 0x3f97_3e0b);
    assert(0x88_d183 * 0x80 + 0x97_3e0b * 0x1 == 0x44ff_ff8b);
    lemma_sum_known(0x4308_d183, 0x3f97_3e0b, false, 0x88_d183, 133, 0x97_3e0b, 126, 0x80, 0x1, 0x44ff_ff8b, 31, 0x4000_0000, 0x80);
    assert(add_spec(0x4308_d183, 0x3f97_3e0b) == 0x4309_ffff);
    lemma_whole_known(0x4309_ffff, 0x89_ffff, 133, 0x1_0000);
}

/// The value 0x3e81_1bf1.
proof fn lemma_at_3e811bf1()
    ensures
        chord_code(0x3e81_1bf1, 0x3e7d_5e8d, 0x3e85_5e8d, 0x4308_d183, 0x430c_1384) == 138,
{
    reveal(chord_code);
    lemma2_to64();
    lemma2_to64_rest();
    lemma_high_powers();
    assert(0x85_5e8d * 0x2 - 0xfd_5e8d * 0x1 == 0xd_5e8d);
    lemma_sum_known(0x3e85_5e8d, 0x3e7d_5e8d, true, 0x85_5e8d, 124, 0xfd_5e8d, 123, 0x2, 0x1, 0xd_5e8d, 20, 0x8_0000, 0x10);
    assert(sub_spec(0x3e85_5e8d, 0x3e7d_5e8d) == 0x3c55_e8d0);
    assert(0x81_1bf1 * 0x2 - 0xfd_5e8d * 0x1 == 0x4_d955);
    lemma_sum_known(0x3e81_1bf1, 0x3e7d_5e8d, true, 0x81_1bf1, 124, 0xfd_5e8d, 123, 0x2, 0x1, 0x4_d955, 19, 0x4_0000, 0x20);
    assert(sub_spec(0x3e81_1bf1, 0x3e7d_5e8d) == 0x3b9b_2aa0);
    assert(0x8c_1384 * 0x1 - 0x88_d183 * 0x1 == 0x3_4201);
    lemma_sum_known(0x430c_1384, 0x4308_d183, true, 0x8c_1384, 133, 0x88_d183, 133, 0x1, 0x1, 0x3_4201, 18, 0x2_0000, 0x40);
    assert(sub_spec(0x430c_1384, 0x4308_d183) == 0x4050_8040);
    assert(0xd0_8040 * 0x9b_2aa0 == 0x7e60_5e1a_a800);
    lemma_product_known(0x4050_8040, 0x3b9b_2aa0, 0xd0_8040, 127, 0x9b_2aa0, 118, 0x7e60_5e1a_a800, 47, 0x4000_0000_0000, 0x80_0000);
    assert(mul_spec(0x4050_8040, 0x3b9b_2aa0) == 0x3c7c_c0bc);
    assert(0xfc_c0bc * 0x1_0000_0000_0000_0000 == 0x1_2e7c_91d5_7bd7_8316 * 0xd5_e8d0 + 0xcb_8e20);
    lemma_quotient_known(0x3c7c_c0bc, 0x3c55_e8d0, 0xfc_c0bc, 119, 0xd5_e8d0, 119, 0x1_2e7c_91d5_7bd7_8316, 0xcb_8e20, 66, 0x2_0000_0000_0000_0000, 0x400_0000_0000);
    assert(div_spec(0x3c7c_c0bc, 0x3c55_e8d0) == 0x3f97_3e49);
    assert(0x88_d183 * 0x80 + 0x97_3e49 * 0x1 == 0x44ff_ffc9);
    lemma_sum_known(0x4308_d183, 0x3f97_3e49, false, 0x88_d183, 133, 0x97_3e49, 126, 0x80, 0x1, 0x44ff_ffc9, 31, 0x4000_0000, 0x80);
    assert(add_spec(0x4308_d183, 0x3f97_3e49) == 0x430a_0000);
    lemma_whole_known(0x430a_0000, 0x8a_0000, 133, 0x1_0000);
}

/// The edge of code 137.
proof fn lemma_near_137()
    ensures
        near_exact_edge(0x3e81_1bf0, 137),
{
    lemma2_to64();
    lemma2_to64_rest();
    lemma_fifth_powers_of_two();
    lemma_more_fifth_powers_of_two();
    assert(151525nat * 151525 * 151525 == 0xc_5c1e_eac1_231d);
    assert(269025nat * 269025 * 269025 == 0x45_2c59_9066_9ca1);
    assert(0xc_5c1e_eac1_231dnat * 0xc_5c1e_eac1_231d == 0x98_c40c_3e91_f87e_b8b2_fa8a_f149nat);
    assert(0x98_c40c_3e91_f87e_b8b2_fa8a_f149nat * 0x98_c40c_3e91_f87e_b8b2_fa8a_f149nat == 0x5b29_64ad_0dbc_87f7_b2d5_b7a4_75de_9ffa_4a3e_0d20_242f_9a1e_86d1nat);
    assert(0x45_2c59_9066_9ca1nat * 0x45_2c59_9066_9ca1 == 0x12b0_eff6_c049_6d6d_d948_5020_9d41nat);
    assert(0x12b0_eff6_c049_6d6d_d948_5020_9d41nat * 0x12b0_eff6_c049_6d6d_d948_5020_9d41nat == 0x15d_5c09_8741_6139_2178_92b9_bce5_5f46_89a2_dd05_b95f_0d00_50d8_ca81nat);
    assert(0x285_69b0nat * 0x285_69b0 == 0x6_5b2d_bc81_d900);
    assert(0x6_5b2d_bc81_d900nat * 0x6_5b2d_bc81_d900 == 0x28_669e_6246_4cbb_4294_69f1_0000nat);
    assert(0x28_669e_6246_4cbb_4294_69f1_0000nat * 0x285_69b0 == 0x65db_3aeb_1e51_b99c_4efb_91b1_aeb0_0000nat);
    assert(0x285_adb0nat * 0x285_adb0 == 0x6_5c84_aeb7_5900);
    assert(0x6_5c84_aeb7_5900nat * 0x6_5c84_aeb7_5900 == 0x28_77a7_d2f0_9849_884c_5cf1_0000nat);
    assert(0x28_77a7_d2f0_9849_884c_5cf1_0000nat * 0x285_adb0 == 0x6610_ee85_251d_4d96_cc0f_7a83_c2b0_0000nat);
    assert(0x65db_3aeb_1e51_b99c_4efb_91b1_aeb0_0000nat * 0x15d_5c09_8741_6139_2178_92b9_bce5_5f46_89a2_dd05_b95f_0d00_50d8_ca81nat == 0x8b_007d_e63a_85fe_38cf_9c0b_ef9b_121e_742a_484d_6ad8_a487_a99a_7a35_9110_58a9_d038_290f_b23d_02df_e6b0_0000nat);
    assert(0x6610_ee85_251d_4d96_cc0f_7a83_c2b0_0000nat * 0x15d_5c09_8741_6139_2178_92b9_bce5_5f46_89a2_dd05_b95f_0d00_50d8_ca81nat == 0x8b_49c7_0dc0_d3cf_945c_ccfc_06cb_d262_dff8_830c_00ec_9c11_807b_5891_d7cd_d202_9f3d_398c_867b_f883_fab0_0000nat);
    assert(0xc35nat * 0x2000_0000_0000_0000_0000_0000_0000_0000nat == 0x186_a000_0000_0000_0000_0000_0000_0000_0000nat);
    assert(0x5b29_64ad_0dbc_87f7_b2d5_b7a4_75de_9ffa_4a3e_0d20_242f_9a1e_86d1nat * 0x186_a000_0000_0000_0000_0000_0000_0000_0000nat == 0x8b_1a09_3e8f_15cc_f855_415b_5752_5ad2_db49_88ee_c72b_3722_8ad4_76a8_a000_0000_0000_0000_0000_0000_0000_0000nat);
    lemma_near_above(
        0x3e81_1bf0, 0x81_1bf0, 124, 0x200, 0x186_a000_0000_0000_0000_0000_0000_0000_0000nat, 137,
        151525, 0xc_5c1e_eac1_231d,
        0x98_c40c_3e91_f87e_b8b2_fa8a_f149nat,
        0x45_2c59_9066_9ca1, 0x12b0_eff6_c049_6d6d_d948_5020_9d41nat,
        0x285_69b0, 0x6_5b2d_bc81_d900, 0x28_669e_6246_4cbb_4294_69f1_0000nat,
        0x285_adb0, 0x6_5c84_aeb7_5900, 0x28_77a7_d2f0_9849_884c_5cf1_0000nat,
    );
}

/// The value 0x3e83_2938.
proof fn lemma_at_3e832938()
    ensures
        chord_code(0x3e83_2938, 0x3e7d_5e8d, 0x3e85_5e8d, 0x4308_d183, 0x430c_1384) == 138,
{
    reveal(chord_code);
    lemma2_to64();
    lemma2_to64_rest();
    lemma_high_powers();
    assert(0x85_5e8d * 0x2 - 0xfd_5e8d * 0x1 == 0xd_5e8d);
    lemma_sum_known(0x3e85_5e8d, 0x3e7d_5e8d, true, 0x85_5e8d, 124, 0xfd_5e8d, 123, 0x2, 0x1, 0xd_5e8d, 20, 0x8_0000, 0x10);
    assert(sub_spec(0x3e85_5e8d, 0x3e7d_5e8d) == 0x3c55_e8d0);
    assert(0x83_2938 * 0x2 - 0xfd_5e8d * 0x1 == 0x8_f3e3);
    lemma_sum_known(0x3e83_2938, 0x3e7d_5e8d, true, 0x83_2938, 124, 0xfd_5e8d, 123, 0x2, 0x1, 0x8_f3e3, 20, 0x8_0000, 0x10);
    assert(sub_spec(0x3e83_2938, 0x3e7d_5e8d) == 0x3c0f_3e30);
    assert(0x8c_1384 * 0x1 - 0x88_d183 * 0x1 == 0x3_4201);
    lemma_sum_known(0x430c_1384, 0x4308_d183, true, 0x8c_1384, 133, 0x88_d183, 133, 0x1, 0x1, 0x3_4201, 18, 0x2_0000, 0x40);
    assert(sub_spec(0x430c_1384, 0x4308_d183) == 0x4050_8040);
    assert(0xd0_8040 * 0x8f_3e30 == 0x74aa_49e7_8c00);
    lemma_product_known(0x4050_8040, 0x3c0f_3e30, 0xd0_8040, 127, 0x8f_3e30, 119, 0x74aa_49e7_8c00, 47, 0x4000_0000_0000, 0x80_0000);
    assert(mul_spec(0x4050_8040, 0x3c0f_3e30) == 0x3ce9_5494);
    assert(0xe9_5494 * 0x1_0000_0000_0000_0000 == 0x1_173e_0d14_1bd2_dd80 * 0xd5_e8d0 + 0x70_0800);
    lemma_quotient_known(0x3ce9_5494, 0x3c55_e8d0, 0xe9_5494, 120, 0xd5_e8d0, 119, 0x1_173e_0d14_1bd2_dd80, 0x70_0800, 66, 0x2_0000_0000_0000_0000, 0x400_0000_0000);
    assert(div_spec(0x3ce9_5494, 0x3c55_e8d0) == 0x400b_9f07);
    assert(0x88_d183 * 0x40 + 0x8b_9f07 * 0x1 == 0x22bf_ffc7);
    lemma_sum_known(0x4308_d183, 0x400b_9f07, false, 0x88_d183, 133, 0x8b_9f07, 127, 0x40, 0x1, 0x22bf_ffc7, 30, 0x2000_0000, 0x40);
    assert(add_spec(0x4308_d183, 0x400b_9f07) == 0x430a_ffff);
    lemma_whole_known(0x430a_ffff, 0x8a_ffff, 133, 0x1_0000);
}

/// The value 0x3e83_2939.
proof fn lemma_at_3e832939()
    ensures
        chord_code(0x3e83_2939, 0x3e7d_5e8d, 0x3e85_5e8d, 0x4308_d183, 0x430c_1384) == 139,
{
    reveal(chord_code);
    lemma2_to64();
    lemma2_to64_rest();
    lemma_high_powers();
    assert(0x85_5e8d * 0x2 - 0xfd_5e8d * 0x1 == 0xd_5e8d);
    lemma_sum_known(0x3e85_5e8d, 0x3e7d_5e8d, true, 0x85_5e8d, 124, 0xfd_5e8d, 123, 0x2, 0x1, 0xd_5e8d, 20, 0x8_0000, 0x10);
    assert(sub_spec(0x3e85_5e8d, 0x3e7d_5e8d) == 0x3c55_e8d0);
    assert(0x83_2939 * 0x2 - 0xfd_5e8d * 0x1 == 0x8_f3e5);
    lemma_sum_known(0x3e83_2939, 0x3e7d_5e8d, true, 0x83_2939, 124, 0xfd_5e8d, 123, 0x2, 0x1, 0x8_f3e5, 20, 0x8_0000, 0x10);
    assert(sub_spec(0x3e83_2939, 0x3e7d_5e8d) == 0x3c0f_3e50);
    assert(0x8c_1384 * 0x1 - 0x88_d183 * 0x1 == 0x3_4201);
    lemma_sum_known(0x430c_1384, 0x4308_d183, true, 0x8c_1384, 133, 0x88_d183, 133, 0x1, 0x1, 0x3_4201, 18, 0x2_0000, 0x40);
    assert(sub_spec(0x430c_1384, 0x4308_d183) == 0x4050_8040);
    assert(0xd0_8040 * 0x8f_3e50 == 0x74aa_63f7_9400);
    lemma_product_known(0x4050_8040, 0x3c0f_3e50, 0xd0_8040, 127, 0x8f_3e50, 119, 0x74aa_63f7_9400, 47, 0x4000_0000_0000, 0x80_0000);
    assert(mul_spec(0x4050_8040, 0x3c0f_3e50) == 0x3ce9_54c8);
    assert(0xe9_54c8 * 0x1_0000_0000_0000_0000 == 0x1_173e_4b4f_7cb9_8d39 * 0xd5_e8d0 + 0xd4_99b0);
    lemma_quotient_known(0x3ce9_54c8, 0x3c55_e8d0, 0xe9_54c8, 120, 0xd5_e8d0, 119, 0x1_173e_4b4f_7cb9_8d39, 0xd4_99b0, 66, 0x2_0000_0000_0000_0000, 0x400_0000_0000);
    assert(div_spec(0x3ce9_54c8, 0x3c55_e8d0) == 0x400b_9f26);
    assert(0x88_d183 * 0x40 + 0x8b_9f26 * 0x1 == 0x22bf_ffe6);
    lemma_sum_known(0x4308_d183, 0x400b_9f26, false, 0x88_d183, 133, 0x8b_9f26, 127, 0x40, 0x1, 0x22bf_ffe6, 30, 0x2000_0000, 0x40);
    assert(add_spec(0x4308_d183, 0x400b_9f26) == 0x430b_0000);
    lemma_whole_known(0x430b_0000, 0x8b_0000, 133, 0x1_0000);
}

/// The edge of code 138.
proof fn lemma_near_138()
    ensures
        near_exact_edge(0x3e83_2938, 138),
{
    lemma2_to64();
    lemma2_to64_rest();
    lemma_fifth_powers_of_two();
    lemma_more_fifth_powers_of_two();
    assert(152525nat * 152525 * 152525 == 0xc_9b2e_3de4_55d5);
    assert(269025nat * 269025 * 269025 == 0x45_2c59_9066_9ca1);
    assert(0xc_9b2e_3de4_55d5nat * 0xc_9b2e_3de4_55d5 == 0x9e_ea66_d4b4_d8ed_631c_822f_2339nat);
    assert(0x9e_ea66_d4b4_d8ed_631c_822f_2339nat * 0x9e_ea66_d4b4_d8ed_631c_822f_2339nat == 0x62a6_2d8e_b564_9271_3496_bcb1_6f66_2ee3_96bc_994b_b2eb_d7c6_a2b1nat);
    assert(0x45_2c59_9066_9ca1nat * 0x45_2c59_9066_9ca1 == 0x12b0_eff6_c049_6d6d_d948_5020_9d41nat);
    assert(0x12b0_eff6_c049_6d6d_d948_5020_9d41nat * 0x12b0_eff6_c049_6d6d_d948_5020_9d41nat == 0x15d_5c09_8741_6139_2178_92b9_bce5_5f46_89a2_dd05_b95f_0d00_50d8_ca81nat);
    assert(0x28f_ac18nat * 0x28f_ac18 == 0x6_8f52_1680_4240);
    assert(0x6_8f52_1680_4240nat * 0x6_8f52_1680_4240 == 0x2b_0815_dd78_d128_3ca5_5125_1000nat);
    assert(0x2b_0815_dd78_d128_3ca5_5125_1000nat * 0x28f_ac18 == 0x6e36_9d69_1af9_15cd_cf7f_5fd8_7239_8000nat);
    assert(0x28f_f018nat * 0x28f_f018 == 0x6_90ae_7bfd_0240);
    assert(0x6_90ae_7bfd_0240nat * 0x6_90ae_7bfd_0240 == 0x2b_19f2_9245_8584_2936_f285_1000nat);
    assert(0x2b_19f2_9245_8584_2936_f285_1000nat * 0x28f_f018 == 0x6e6f_d002_17bf_80d5_de9d_e2f7_6b79_8000nat);
    assert(0x6e36_9d69_1af9_15cd_cf7f_5fd8_7239_8000nat * 0x15d_5c09_8741_6139_2178_92b9_bce5_5f46_89a2_dd05_b95f_0d00_50d8_ca81nat == 0x96_6814_5302_06b1_df4b_a1e0_a2b5_dfc2_0cfb_6f3c_1197_37dd_ceb7_c111_54d2_2204_2b92_b27f_fea2_6eb6_edf9_8000nat);
    assert(0x6e6f_d002_17bf_80d5_de9d_e2f7_6b79_8000nat * 0x15d_5c09_8741_6139_2178_92b9_bce5_5f46_89a2_dd05_b95f_0d00_50d8_ca81nat == 0x96_b622_dde2_9bb4_39cd_6e50_ff89_5004_4e30_8dab_48a6_88a5_6f44_0808_c945_fa8c_a50f_999e_407f_3fff_0739_8000nat);
    assert(0xc35nat * 0x2000_0000_0000_0000_0000_0000_0000_0000nat == 0x186_a000_0000_0000_0000_0000_0000_0000_0000nat);
    assert(0x62a6_2d8e_b564_9271_3496_bcb1_6f66_2ee3_96bc_994b_b2eb_d7c6_a2b1nat * 0x186_a000_0000_0000_0000_0000_0000_0000_0000nat == 0x96_86d1_43e1_8895_f3fc_de81_ac3e_9b4b_4c05_e187_6921_e31e_1f77_ff54_a000_0000_0000_0000_0000_0000_0000_0000nat);
    lemma_near_above(
        0x3e83_2938, 0x83_2938, 124, 0x200, 0x186_a000_0000_0000_0000_0000_0000_0000_0000nat, 138,
        152525, 0xc_9b2e_3de4_55d5,
        0x9e_ea66_d4b4_d8ed_631c_822f_2339nat,
        0x45_2c59_9066_9ca1, 0x12b0_eff6_c049_6d6d_d948_5020_9d41nat,
        0x28f_ac18, 0x6_8f52_1680_4240, 0x2b_0815_dd78_d128_3ca5_5125_1000nat,
        0x28f_f018, 0x6_90ae_7bfd_0240, 0x2b_19f2_9245_8584_2936_f285_1000nat,
    );
}

/// The value 0x3e85_3680.
proof fn lemma_at_3e853680()
    ensures
        chord_code(0x3e85_3680, 0x3e7d_5e8d, 0x3e85_5e8d, 0x4308_d183, 0x430c_1384) == 139,
{
    reveal(chord_code);
    lemma2_to64();
    lemma2_to64_rest();
    lemma_high_powers();
    assert(0x85_5e8d * 0x2 - 0xfd_5e8d * 0x1 == 0xd_5e8d);
    lemma_sum_known(0x3e85_5e8d, 0x3e7d_5e8d, true, 0x85_5e8d, 124, 0xfd_5e8d, 123, 0x2, 0x1, 0xd_5e8d, 20, 0x8_0000, 0x10);
    assert(sub_spec(0x3e85_5e8d, 0x3e7d_5e8d) == 0x3c55_e8d0);
    assert(0x85_3680 * 0x2 - 0xfd_5e8d * 0x1 == 0xd_0e73);
    lemma_sum_known(0x3e85_3680, 0x3e7d_5e8d, true, 0x85_3680, 124, 0xfd_5e8d, 123, 0x2, 0x1, 0xd_0e73, 20, 0x8_0000, 0x10);
    assert(sub_spec(0x3e85_3680, 0x3e7d_5e8d) == 0x3c50_e730);
    assert(0x8c_1384 * 0x1 - 0x88_d183 * 0x1 == 0x3_4201);
    lemma_sum_known(0x430c_1384, 0x4308_d183, true, 0x8c_1384, 133, 0x88_d183, 133, 0x1, 0x1, 0x3_4201, 18, 0x2_0000, 0x40);
    assert(sub_spec(0x430c_1384, 0x4308_d183) == 0x4050_8040);
    assert(0xd0_8040 * 0xd0_e730 == 0xaa24_7ed1_cc00);
    lemma_product_known(0x4050_8040, 0x3c50_e730, 0xd0_8040, 127, 0xd0_e730, 119, 0xaa24_7ed1_cc00, 48, 0x8000_0000_0000, 0x100_0000);
    assert(mul_spec(0x4050_8040, 0x3c50_e730) == 0x3d2a_247f);
    assert(0xaa_247f * 0x1_0000_0000_0000_0000 == 0xcb9f_07bc_6d50_5497 * 0xd5_e8d0 + 0x6f_6d50);
    lemma_quotient_known(0x3d2a_247f, 0x3c55_e8d0, 0xaa_247f, 121, 0xd5_e8d0, 119, 0xcb9f_07bc_6d50_5497, 0x6f_6d50, 65, 0x1_0000_0000_0000_0000, 0x200_0000_0000);
    assert(div_spec(0x3d2a_247f, 0x3c55_e8d0) == 0x404b_9f08);
    assert(0x88_d183 * 0x40 + 0xcb_9f08 * 0x1 == 0x22ff_ffc8);
    lemma_sum_known(0x4308_d183, 0x404b_9f08, false, 0x88_d183, 133, 0xcb_9f08, 127, 0x40, 0x1, 0x22ff_ffc8, 30, 0x2000_0000, 0x40);
    assert(add_spec(0x4308_d183, 0x404b_9f08) == 0x430b_ffff);
    lemma_whole_known(0x430b_ffff, 0x8b_ffff, 133, 0x1_0000);
}

/// The value 0x3e85_3681.
proof fn lemma_at_3e853681()
    ensures
        chord_code(0x3e85_3681, 0x3e7d_5e8d, 0x3e85_5e8d, 0x4308_d183, 0x430c_1384) == 140,
{
    reveal(chord_code);
    lemma2_to64();
    lemma2_to64_rest();
    lemma_high_powers();
    assert(0x85_5e8d * 0x2 - 0xfd_5e8d * 0x1 == 0xd_5e8d);
    lemma_sum_known(0x3e85_5e8d, 0x3e7d_5e8d, true, 0x85_5e8d, 124, 0xfd_5e8d, 123, 0x2, 0x1, 0xd_5e8d, 20, 0x8_0000, 0x10);
    assert(sub_spec(0x3e85_5e8d, 0x3e7d_5e8d) == 0x3c55_e8d0);
    assert(0x85_3681 * 0x2 - 0xfd_5e8d * 0x1 == 0xd_0e75);
    lemma_sum_known(0x3e85_3681, 0x3e7d_5e8d, true, 0x85_3681, 124, 0xfd_5e8d, 123, 0x2, 0x1, 0xd_0e75, 20, 0x8_0000, 0x10);
    assert(sub_spec(0x3e85_3681, 0x3e7d_5e8d) == 0x3c50_e750);
    assert(0x8c_1384 * 0x1 - 0x88_d183 * 0x1 == 0x3_4201);
    lemma_sum_known(0x430c_1384, 0x4308_d183, true, 0x8c_1384, 133, 0x88_d183, 133, 0x1, 0x1, 0x3_4201, 18, 0x2_0000, 0x40);
    assert(sub_spec(0x430c_1384, 0x4308_d183) == 0x4050_8040);
    assert(0xd0_8040 * 0xd0_e750 == 0xaa24_98e1_d400);
    lemma_product_known(0x4050_8040, 0x3c50_e750, 0xd0_8040, 127, 0xd0_e750, 119, 0xaa24_98e1_d400, 48, 0x8000_0000_0000, 0x100_0000);
    assert(mul_spec(0x4050_8040, 0x3c50_e750) == 0x3d2a_2499);
    assert(0xaa_2499 * 0x1_0000_0000_0000_0000 == 0xcb9f_26da_1dc3_ac74 * 0xd5_e8d0 + 0x36_c1c0);
    lemma_quotient_known(0x3d2a_2499, 0x3c55_e8d0, 0xaa_2499, 121, 0xd5_e8d0, 119, 0xcb9f_26da_1dc3_ac74, 0x36_c1c0, 65, 0x1_0000_0000_0000_0000, 0x200_0000_0000);
    assert(div_spec(0x3d2a_2499, 0x3c55_e8d0) == 0x404b_9f27);
    assert(0x88_d183 * 0x40 + 0xcb_9f27 * 0x1 == 0x22ff_ffe7);
    lemma_sum_known(0x4308_d183, 0x404b_9f27, false, 0x88_d183, 133, 0xcb_9f27, 127, 0x40, 0x1, 0x22ff_ffe7, 30, 0x2000_0000, 0x40);
    assert(add_spec(0x4308_d183, 0x404b_9f27) == 0x430c_0000);
    lemma_whole_known(0x430c_0000, 0x8c_0000, 133, 0x1_0000);
}

/// The edge of code 139.
proof fn lemma_near_139()
    ensures
        near_exact_edge(0x3e85_3680, 139),
{
    lemma2_to64();
    lemma2_to64_rest();
    lemma_fifth_powers_of_two();
    lemma_more_fifth_powers_of_two();
    assert(153525nat * 153525 * 153525 == 0xc_db12_a438_580d);
    assert(269025nat * 269025 * 269025 == 0x45_2c59_9066_9ca1);
    assert(0xc_db12_a438_580dnat * 0xc_db12_a438_580d == 0xa5_4538_4b9c_2922_dd0b_4bf8_f0a9nat);
    assert(0xa5_4538_4b9c_2922_dd0b_4bf8_f0a9nat * 0xa5_4538_4b9c_2922_dd0b_4bf8_f0a9nat == 0x6ab2_4d48_dc70_5fc4_9a55_5169_dc53_ec8a_c0d9_7c58_479c_2fad_4f91nat);
    assert(0x45_2c59_9066_9ca1nat * 0x45_2c59_9066_9ca1 == 0x12b0_eff6_c049_6d6d_d948_5020_9d41nat);
    assert(0x12b0_eff6_c049_6d6d_d948_5020_9d41nat * 0x12b0_eff6_c049_6d6d_d948_5020_9d41nat == 0x15d_5c09_8741_6139_2178_92b9_bce5_5f46_89a2_dd05_b95f_0d00_50d8_ca81nat);
    assert(0x299_ee80nat * 0x299_ee80 == 0x6_c448_f332_4000);
    assert(0x6_c448_f332_4000nat * 0x6_c448_f332_4000 == 0x2d_c9eb_2f89_a54c_6f5d_1000_0000nat);
    assert(0x2d_c9eb_2f89_a54c_6f5d_1000_0000nat * 0x299_ee80 == 0x771c_2c8c_1858_200c_fe7e_c368_0000_0000nat);
    assert(0x29a_3280nat * 0x29a_3280 == 0x6_c5aa_cbf6_4000);
    assert(0x6_c5aa_cbf6_4000nat * 0x6_c5aa_cbf6_4000 == 0x2d_dca1_df67_840d_765f_1000_0000nat);
    assert(0x2d_dca1_df67_840d_765f_1000_0000nat * 0x29a_3280 == 0x7759_0925_21df_7692_9b29_60a8_0000_0000nat);
    assert(0x771c_2c8c_1858_200c_fe7e_c368_0000_0000nat * 0x15d_5c09_8741_6139_2178_92b9_bce5_5f46_89a2_dd05_b95f_0d00_50d8_ca81nat == 0xa2_8c3b_49eb_60b1_aa77_21a4_2032_0b05_b600_a382_ee3e_d169_f079_4232_1780_6062_03b5_0761_a3d0_8768_0000_0000nat);
    assert(0x7759_0925_21df_7692_9b29_60a8_0000_0000nat * 0x15d_5c09_8741_6139_2178_92b9_bce5_5f46_89a2_dd05_b95f_0d00_50d8_ca81nat == 0xa2_df49_e818_46e0_6b84_9f03_2b58_bac8_2352_cdab_cca6_959c_9469_d161_d51d_2a67_a19a_cf6c_e3de_44a8_0000_0000nat);
    assert(0xc35nat * 0x2000_0000_0000_0000_0000_0000_0000_0000nat == 0x186_a000_0000_0000_0000_0000_0000_0000_0000nat);
    assert(0x6ab2_4d48_dc70_5fc4_9a55_5169_dc53_ec8a_c0d9_7c58_479c_2fad_4f91nat * 0x186_a000_0000_0000_0000_0000_0000_0000_0000nat == 0xa2_ce51_2d4d_5cf8_215d_fe6f_5a27_d18e_cf38_83db_5c34_44b2_3fd3_88a0_a000_0000_0000_0000_0000_0000_0000_0000nat);
    lemma_near_above(
        0x3e85_3680, 0x85_3680, 124, 0x200, 0x186_a000_0000_0000_0000_0000_0000_0000_0000nat, 139,
        153525, 0xc_db12_a438_580d,
        0xa5_4538_4b9c_2922_dd0b_4bf8_f0a9nat,
        0x45_2c59_9066_9ca1, 0x12b0_eff6_c049_6d6d_d948_5020_9d41nat,
        0x299_ee80, 0x6_c448_f332_4000, 0x2d_c9eb_2f89_a54c_6f5d_1000_0000nat,
        0x29a_3280, 0x6_c5aa_cbf6_4000, 0x2d_dca1_df67_840d_765f_1000_0000nat,
    );
}

/// The value 0x3e87_53d7.
proof fn lemma_at_3e8753d7()
    ensures
        chord_code(0x3e87_53d7, 0x3e85_5e8d, 0x3e8d_5e8d, 0x430c_1384, 0x430f_d9a7) == 140,
{
    reveal(chord_code);
    lemma2_to64();
    lemma2_to64_rest();
    lemma_high_powers();
    assert(0x8d_5e8d * 0x1 - 0x85_5e8d * 0x1 == 0x8_0000);
    lemma_sum_known(0x3e8d_5e8d, 0x3e85_5e8d, true, 0x8d_5e8d, 124, 0x85_5e8d, 124, 0x1, 0x1, 0x8_0000, 20, 0x8_0000, 0x10);
    assert(sub_spec(0x3e8d_5e8d, 0x3e85_5e8d) == 0x3c80_0000);
    assert(0x87_53d7 * 0x1 - 0x85_5e8d * 0x1 == 0x1_f54a);
    lemma_sum_known(0x3e87_53d7, 0x3e85_5e8d, true, 0x87_53d7, 124, 0x85_5e8d, 124, 0x1, 0x1, 0x1_f54a, 17, 0x1_0000, 0x80);
    assert(sub_spec(0x3e87_53d7, 0x3e85_5e8d) == 0x3b7a_a500);
    assert(0x8f_d9a7 * 0x1 - 0x8c_1384 * 0x1 == 0x3_c623);
    lemma_sum_known(0x430f_d9a7, 0x430c_1384, true, 0x8f_d9a7, 133, 0x8c_1384, 133, 0x1, 0x1, 0x3_c623, 18, 0x2_0000, 0x40);
    assert(sub_spec(0x430f_d9a7, 0x430c_1384) == 0x4071_88c0);
    assert(0xf1_88c0 * 0xfa_a500 == 0xec7b_38a3_c000);
    lemma_product_known(0x4071_88c0, 0x3b7a_a500, 0xf1_88c0, 127, 0xfa_a500, 117, 0xec7b_38a3_c000, 48, 0x8000_0000_0000, 0x100_0000);
    assert(mul_spec(0x4071_88c0, 0x3b7a_a500) == 0x3c6c_7b39);
    assert(0xec_7b39 * 0x1_0000_0000_0000_0000 == 0x1_d8f6_7200_0000_0000 * 0x80_0000 + 0x0);
    lemma_quotient_known(0x3c6c_7b39, 0x3c80_0000, 0xec_7b39, 119, 0x80_0000, 120, 0x1_d8f6_7200_0000_0000, 0x0, 66, 0x2_0000_0000_0000_0000, 0x400_0000_0000);
    assert(div_spec(0x3c6c_7b39, 0x3c80_0000) == 0x3f6c_7b39);
    assert(0x8c_1384 * 0x100 + 0xec_7b39 * 0x1 == 0x8cff_ff39);
    lemma_sum_known(0x430c_1384, 0x3f6c_7b39, false, 0x8c_1384, 133, 0xec_7b39, 125, 0x100, 0x1, 0x8cff_ff39, 32, 0x8000_0000, 0x100);
    assert(add_spec(0x430c_1384, 0x3f6c_7b39) == 0x430c_ffff);
    lemma_whole_known(0x430c_ffff, 0x8c_ffff, 133, 0x1_0000);
}

/// The value 0x3e87_53d8.
proof fn lemma_at_3e8753d8()
    ensures
        chord_code(0x3e87_53d8, 0x3e85_5e8d, 0x3e8d_5e8d, 0x430c_1384, 0x430f_d9a7) == 141,
{
    reveal(chord_code);
    lemma2_to64();
    lemma2_to64_rest();
    lemma_high_powers();
    assert(0x8d_5e8d * 0x1 - 0x85_5e8d * 0x1 == 0x8_0000);
    lemma_sum_known(0x3e8d_5e8d, 0x3e85_5e8d, true, 0x8d_5e8d, 124, 0x85_5e8d, 124, 0x1, 0x1, 0x8_0000, 20, 0x8_0000, 0x10);
    assert(sub_spec(0x3e8d_5e8d, 0x3e85_5e8d) == 0x3c80_0000);
    assert(0x87_53d8 * 0x1 - 0x85_5e8d * 0x1 == 0x1_f54b);
    lemma_sum_known(0x3e87_53d8, 0x3e85_5e8d, true, 0x87_53d8, 124, 0x85_5e8d, 124, 0x1, 0x1, 0x1_f54b, 17, 0x1_0000, 0x80);
    assert(sub_spec(0x3e87_53d8, 0x3e85_5e8d) == 0x3b7a_a580);
    assert(0x8f_d9a7 * 0x1 - 0x8c_1384 * 0x1 == 0x3_c623);
    lemma_sum_known(0x430f_d9a7, 0x430c_1384, true, 0x8f_d9a7, 133, 0x8c_1384, 133, 0x1, 0x1, 0x3_c623, 18, 0x2_0000, 0x40);
    assert(sub_spec(0x430f_d9a7, 0x430c_1384) == 0x4071_88c0);
    assert(0xf1_88c0 * 0xfa_a580 == 0xec7b_b168_2000);
    lemma_product_known(0x4071_88c0, 0x3b7a_a580, 0xf1_88c0, 127, 0xfa_a580, 117, 0xec7b_b168_2000, 48, 0x8000_0000_0000, 0x100_0000);
    assert(mul_spec(0x4071_88c0, 0x3b7a_a580) == 0x3c6c_7bb1);
    assert(0xec_7bb1 * 0x1_0000_0000_0000_0000 == 0x1_d8f7_6200_0000_0000 * 0x80_0000 + 0x0);
    lemma_quotient_known(0x3c6c_7bb1, 0x3c80_0000, 0xec_7bb1, 119, 0x80_0000, 120, 0x1_d8f7_6200_0000_0000, 0x0, 66, 0x2_0000_0000_0000_0000, 0x400_0000_0000);
    assert(div_spec(0x3c6c_7bb1, 0x3c80_0000) == 0x3f6c_7bb1);
    assert(0x8c_1384 * 0x100 + 0xec_7bb1 * 0x1 == 0x8cff_ffb1);
    lemma_sum_known(0x430c_1384, 0x3f6c_7bb1, false, 0x8c_1384, 133, 0xec_7bb1, 125, 0x100, 0x1, 0x8cff_ffb1, 32, 0x8000_0000, 0x100);
    assert(add_spec(0x430c_1384, 0x3f6c_7bb1) == 0x430d_0000);
    lemma_whole_known(0x430d_0000, 0x8d_0000, 133, 0x1_0000);
}

/// The edge of code 140.
proof fn lemma_near_140()
    ensures
        near_exact_edge(0x3e87_53d7, 140),
{
    lemma2_to64();
    lemma2_to64_rest();
    lemma_fifth_powers_of_two();
    lemma_more_fifth_powers_of_two();
    assert(154525nat * 154525 * 154525 == 0xd_1bcd_835d_e5c5);
    assert(269025nat * 269025 * 269025 == 0x45_2c59_9066_9ca1);
    assert(0xd_1bcd_835d_e5c5nat * 0xd_1bcd_835d_e5c5 == 0xab_d5e4_563a_cc44_c71a_5d5c_0999nat);
    assert(0xab_d5e4_563a_cc44_c71a_5d5c_0999nat * 0xab_d5e4_563a_cc44_c71a_5d5c_0999nat == 0x7357_71c0_f5b4_7193_d9cc_a733_e4c8_3c55_6d61_20f1_d124_1054_1d71nat);
    assert(0x45_2c59_9066_9ca1nat * 0x45_2c59_9066_9ca1 == 0x12b0_eff6_c049_6d6d_d948_5020_9d41nat);
    assert(0x12b0_eff6_c049_6d6d_d948_5020_9d41nat * 0x12b0_eff6_c049_6d6d_d948_5020_9d41nat == 0x15d_5c09_8741_6139_2178_92b9_bce5_5f46_89a2_dd05_b95f_0d00_50d8_ca81nat);
    assert(0x2a4_8133nat * 0x2a4_8133 == 0x6_fbba_968c_7029);
    assert(0x6_fbba_968c_7029nat * 0x6_fbba_968c_7029 == 0x30_c446_79cb_c278_420e_e9fb_e691nat);
    assert(0x30_c446_79cb_c278_420e_e9fb_e691nat * 0x2a4_8133 == 0x80de_e6b8_3b77_7624_c6a0_8a0d_6341_ffe3nat);
    assert(0x2a4_c533nat * 0x2a4_c533 == 0x6_fd22_0d3f_8829);
    assert(0x6_fd22_0d3f_8829nat * 0x6_fd22_0d3f_8829 == 0x30_d7e4_f1b1_7a9c_b87c_7699_9691nat);
    assert(0x30_d7e4_f1b1_7a9c_b87c_7699_9691nat * 0x2a4_c533 == 0x811f_b86c_6941_7f8d_2fd9_b5a1_685a_93e3nat);
    assert(0x80de_e6b8_3b77_7624_c6a0_8a0d_6341_ffe3nat * 0x15d_5c09_8741_6139_2178_92b9_bce5_5f46_89a2_dd05_b95f_0d00_50d8_ca81nat == 0xaf_de35_6fff_d8ea_09d4_dbcf_4cbb_8c32_5a6b_3207_81a1_fd40_c1ae_8efe_c78e_529f_c911_7bbd_c860_07b7_efb3_0f63nat);
    assert(0x811f_b86c_6941_7f8d_2fd9_b5a1_685a_93e3nat * 0x15d_5c09_8741_6139_2178_92b9_bce5_5f46_89a2_dd05_b95f_0d00_50d8_ca81nat == 0xb0_36aa_a068_a446_f579_c485_d3bb_61ab_8e56_dd71_5cce_8302_f5f0_14ee_9b10_150d_dc59_5192_1c91_c450_c5dd_a363nat);
    assert(0xc35nat * 0x2000_0000_0000_0000_0000_0000_0000_0000nat == 0x186_a000_0000_0000_0000_0000_0000_0000_0000nat);
    assert(0x7357_71c0_f5b4_7193_d9cc_a733_e4c8_3c55_6d61_20f1_d124_1054_1d71nat * 0x186_a000_0000_0000_0000_0000_0000_0000_0000nat == 0xaf_ff4d_f30e_ea75_ce3a_35e6_a18e_f809_0fda_0654_e4fb_bfa7_6a59_6c8c_a000_0000_0000_0000_0000_0000_0000_0000nat);
    lemma_near_above(
        0x3e87_53d7, 0x87_53d7, 124, 0x200, 0x186_a000_0000_0000_0000_0000_0000_0000_0000nat, 140,
        154525, 0xd_1bcd_835d_e5c5,
        0xab_d5e4_563a_cc44_c71a_5d5c_0999nat,
        0x45_2c59_9066_9ca1, 0x12b0_eff6_c049_6d6d_d948_5020_9d41nat,
        0x2a4_8133, 0x6_fbba_968c_7029, 0x30_c446_79cb_c278_420e_e9fb_e691nat,
        0x2a4_c533, 0x6_fd22_0d3f_8829, 0x30_d7e4_f1b1_7a9c_b87c_7699_9691nat,
    );
}

/// The value 0x3e89_7281.
proof fn lemma_at_3e897281()
    ensures
        chord_code(0x3e89_7281, 0x3e85_5e8d, 0x3e8d_5e8d, 0x430c_1384, 0x430f_d9a7) == 141,
{
    reveal(chord_code);
    lemma2_to64();
    lemma2_to64_rest();
    lemma_high_powers();
    assert(0x8d_5e8d * 0x1 - 0x85_5e8d * 0x1 == 0x8_0000);
    lemma_sum_known(0x3e8d_5e8d, 0x3e85_5e8d, true, 0x8d_5e8d, 124, 0x85_5e8d, 124, 0x1, 0x1, 0x8_0000, 20, 0x8_0000, 0x10);
    assert(sub_spec(0x3e8d_5e8d, 0x3e85_5e8d) == 0x3c80_0000);
    assert(0x89_7281 * 0x1 - 0x85_5e8d * 0x1 == 0x4_13f4);
    lemma_sum_known(0x3e89_7281, 0x3e85_5e8d, true, 0x89_7281, 124, 0x85_5e8d, 124, 0x1, 0x1, 0x4_13f4, 19, 0x4_0000, 0x20);
    assert(sub_spec(0x3e89_7281, 0x3e85_5e8d) == 0x3c02_7e80);
    assert(0x8f_d9a7 * 0x1 - 0x8c_1384 * 0x1 == 0x3_c623);
    lemma_sum_known(0x430f_d9a7, 0x430c_1384, true, 0x8f_d9a7, 133, 0x8c_1384, 133, 0x1, 0x1, 0x3_c623, 18, 0x2_0000, 0x40);
    assert(sub_spec(0x430f_d9a7, 0x430c_1384) == 0x4071_88c0);
    assert(0xf1_88c0 * 0x82_7e80 == 0x7b1e_cb92_e000);
    lemma_product_known(0x4071_88c0, 0x3c02_7e80, 0xf1_88c0, 127, 0x82_7e80, 119, 0x7b1e_cb92_e000, 47, 0x4000_0000_0000, 0x80_0000);
    assert(mul_spec(0x4071_88c0, 0x3c02_7e80) == 0x3cf6_3d97);
    assert(0xf6_3d97 * 0x1_0000_0000_0000_0000 == 0x1_ec7b_2e00_0000_0000 * 0x80_0000 + 0x0);
    lemma_quotient_known(0x3cf6_3d97, 0x3c80_0000, 0xf6_3d97, 120, 0x80_0000, 120, 0x1_ec7b_2e00_0000_0000, 0x0, 66, 0x2_0000_0000_0000_0000, 0x400_0000_0000);
    assert(div_spec(0x3cf6_3d97, 0x3c80_0000) == 0x3ff6_3d97);
    assert(0x8c_1384 * 0x80 + 0xf6_3d97 * 0x1 == 0x46ff_ff97);
    lemma_sum_known(0x430c_1384, 0x3ff6_3d97, false, 0x8c_1384, 133, 0xf6_3d97, 126, 0x80, 0x1, 0x46ff_ff97, 31, 0x4000_0000, 0x80);
    assert(add_spec(0x430c_1384, 0x3ff6_3d97) == 0x430d_ffff);
    lemma_whole_known(0x430d_ffff, 0x8d_ffff, 133, 0x1_0000);
}

/// The value 0x3e89_7282.
proof fn lemma_at_3e897282()
    ensures
        chord_code(0x3e89_7282, 0x3e85_5e8d, 0x3e8d_5e8d, 0x430c_1384, 0x430f_d9a7) == 142,
{
    reveal(chord_code);
    lemma2_to64();
    lemma2_to64_rest();
    lemma_high_powers();
    assert(0x8d_5e8d * 0x1 - 0x85_5e8d * 0x1 == 0x8_0000);
    lemma_sum_known(0x3e8d_5e8d, 0x3e85_5e8d, true, 0x8d_5e8d, 124, 0x85_5e8d, 124, 0x1, 0x1, 0x8_0000, 20, 0x8_0000, 0x10);
    assert(sub_spec(0x3e8d_5e8d, 0x3e85_5e8d) == 0x3c80_0000);
    assert(0x89_7282 * 0x1 - 0x85_5e8d * 0x1 == 0x4_13f5);
    lemma_sum_known(0x3e89_7282, 0x3e85_5e8d, true, 0x89_7282, 124, 0x85_5e8d, 124, 0x1, 0x1, 0x4_13f5, 19, 0x4_0000, 0x20);
    assert(sub_spec(0x3e89_7282, 0x3e85_5e8d) == 0x3c02_7ea0);
    assert(0x8f_d9a7 * 0x1 - 0x8c_1384 * 0x1 == 0x3_c623);
    lemma_sum_known(0x430f_d9a7, 0x430c_1384, true, 0x8f_d9a7, 133, 0x8c_1384, 133, 0x1, 0x1, 0x3_c623, 18, 0x2_0000, 0x40);
    assert(sub_spec(0x430f_d9a7, 0x430c_1384) == 0x4071_88c0);
    assert(0xf1_88c0 * 0x82_7ea0 == 0x7b1e_e9c3_f800);
    lemma_product_known(0x4071_88c0, 0x3c02_7ea0, 0xf1_88c0, 127, 0x82_7ea0, 119, 0x7b1e_e9c3_f800, 47, 0x4000_0000_0000, 0x80_0000);
    assert(mul_spec(0x4071_88c0, 0x3c02_7ea0) == 0x3cf6_3dd4);
    assert(0xf6_3dd4 * 0x1_0000_0000_0000_0000 == 0x1_ec7b_a800_0000_0000 * 0x80_0000 + 0x0);
    lemma_quotient_known(0x3cf6_3dd4, 0x3c80_0000, 0xf6_3dd4, 120, 0x80_0000, 120, 0x1_ec7b_a800_0000_0000, 0x0, 66, 0x2_0000_0000_0000_0000, 0x400_0000_0000);
    assert(div_spec(0x3cf6_3dd4, 0x3c80_0000) == 0x3ff6_3dd4);
    assert(0x8c_1384 * 0x80 + 0xf6_3dd4 * 0x1 == 0x46ff_ffd4);
    lemma_sum_known(0x430c_1384, 0x3ff6_3dd4, false, 0x8c_1384, 133, 0xf6_3dd4, 126, 0x80, 0x1, 0x46ff_ffd4, 31, 0x4000_0000, 0x80);
    assert(add_spec(0x430c_1384, 0x3ff6_3dd4) == 0x430e_0000);
    lemma_whole_known(0x430e_0000, 0x8e_0000, 133, 0x1_0000);
}

/// The edge of code 141.
proof fn lemma_near_141()
    ensures
        near_exact_edge(0x3e89_7281, 141),
{
    lemma2_to64();
    lemma2_to64_rest();
    lemma_fifth_powers_of_two();
    lemma_more_fifth_powers_of_two();
    assert(155525nat * 155525 * 155525 == 0xd_5d60_40f5_bafd);
    assert(269025nat * 269025 * 269025 == 0x45_2c59_9066_9ca1);
    assert(0xd_5d60_40f5_bafdnat * 0xd_5d60_40f5_bafd == 0xb2_9dd5_ac58_5055_d91d_f0d6_9e09nat);
    assert(0xb2_9dd5_ac58_5055_d91d_f0d6_9e09nat * 0xb2_9dd5_ac58_5055_d91d_f0d6_9e09nat == 0x7c9f_de73_728c_48e7_b337_9fa9_0c30_996e_9546_dd18_2c47_789b_1c51nat);
    assert(0x45_2c59_9066_9ca1nat * 0x45_2c59_9066_9ca1 == 0x12b0_eff6_c049_6d6d_d948_5020_9d41nat);
    assert(0x12b0_eff6_c049_6d6d_d948_5020_9d41nat * 0x12b0_eff6_c049_6d6d_d948_5020_9d41nat == 0x15d_5c09_8741_6139_2178_92b9_bce5_5f46_89a2_dd05_b95f_0d00_50d8_ca81nat);
    assert(0x2af_1a85nat * 0x2af_1a85 == 0x7_342f_5895_4919);
    assert(0x7_342f_5895_4919nat * 0x7_342f_5895_4919 == 0x33_e53a_1ce8_4a87_f87d_5bf9_4471nat);
    assert(0x33_e53a_1ce8_4a87_f87d_5bf9_4471nat * 0x2af_1a85 == 0x8b49_8731_9180_9f24_604a_a666_c4b3_08b5nat);
    assert(0x2af_5e85nat * 0x2af_5e85 == 0x7_359c_70bb_f119);
    assert(0x7_359c_70bb_f119nat * 0x7_359c_70bb_f119 == 0x33_f9c8_508e_97e5_2d67_fd96_1471nat);
    assert(0x33_f9c8_508e_97e5_2d67_fd96_1471nat * 0x2af_5e85 == 0x8b8e_8148_814f_d5df_eace_4be4_b5b9_1cb5nat);
    assert(0x8b49_8731_9180_9f24_604a_a666_c4b3_08b5nat * 0x15d_5c09_8741_6139_2178_92b9_bce5_5f46_89a2_dd05_b95f_0d00_50d8_ca81nat == 0xbe_1550_ea56_463d_b46d_ad20_8a7c_852b_1633_2514_f536_d3a4_f793_6029_32b0_8726_0874_7c8d_10b5_0bc6_4bce_3535nat);
    assert(0x8b8e_8148_814f_d5df_eace_4be4_b5b9_1cb5nat * 0x15d_5c09_8741_6139_2178_92b9_bce5_5f46_89a2_dd05_b95f_0d00_50d8_ca81nat == 0xbe_7372_a80c_ae38_027e_6324_c228_d96d_b3dc_e5a4_3b82_e2bf_b124_a477_d4c1_006e_e348_ae17_763a_13cc_6ba6_4935nat);
    assert(0xc35nat * 0x2000_0000_0000_0000_0000_0000_0000_0000nat == 0x186_a000_0000_0000_0000_0000_0000_0000_0000nat);
    assert(0x7c9f_de73_728c_48e7_b337_9fa9_0c30_996e_9546_dd18_2c47_789b_1c51nat * 0x186_a000_0000_0000_0000_0000_0000_0000_0000nat == 0xbe_2970_cee8_a94e_be8b_d6bf_ff52_39a8_1e5c_8741_1d02_908e_67ae_1518_a000_0000_0000_0000_0000_0000_0000_0000nat);
    lemma_near_above(
        0x3e89_7281, 0x89_7281, 124, 0x200, 0x186_a000_0000_0000_0000_0000_0000_0000_0000nat, 141,
        155525, 0xd_5d60_40f5_bafd,
        0xb2_9dd5_ac58_5055_d91d_f0d6_9e09nat,
        0x45_2c59_9066_9ca1, 0x12b0_eff6_c049_6d6d_d948_5020_9d41nat,
        0x2af_1a85, 0x7_342f_5895_4919, 0x33_e53a_1ce8_4a87_f87d_5bf9_4471nat,
        0x2af_5e85, 0x7_359c_70bb_f119, 0x33_f9c8_508e_97e5_2d67_fd96_1471nat,
    );
}

/// The value 0x3e8b_912b.
proof fn lemma_at_3e8b912b()
    ensures
        chord_code(0x3e8b_912b, 0x3e85_5e8d, 0x3e8d_5e8d, 0x430c_1384, 0x430f_d9a7) == 142,
{
    reveal(chord_code);
    lemma2_to64();
    lemma2_to64_rest();
    lemma_high_powers();
    assert(0x8d_5e8d * 0x1 - 0x85_5e8d * 0x1 == 0x8_0000);
    lemma_sum_known(0x3e8d_5e8d, 0x3e85_5e8d, true, 0x8d_5e8d, 124, 0x85_5e8d, 124, 0x1, 0x1, 0x8_0000, 20, 0x8_0000, 0x10);
    assert(sub_spec(0x3e8d_5e8d, 0x3e85_5e8d) == 0x3c80_0000);
    assert(0x8b_912b * 0x1 - 0x85_5e8d * 0x1 == 0x6_329e);
    lemma_sum_known(0x3e8b_912b, 0x3e85_5e8d, true, 0x8b_912b, 124, 0x85_5e8d, 124, 0x1, 0x1, 0x6_329e, 19, 0x4_0000, 0x20);
    assert(sub_spec(0x3e8b_912b, 0x3e85_5e8d) == 0x3c46_53c0);
    assert(0x8f_d9a7 * 0x1 - 0x8c_1384 * 0x1 == 0x3_c623);
    lemma_sum_known(0x430f_d9a7, 0x430c_1384, true, 0x8f_d9a7, 133, 0x8c_1384, 133, 0x1, 0x1, 0x3_c623, 18, 0x2_0000, 0x40);
    assert(sub_spec(0x430f_d9a7, 0x430c_1384) == 0x4071_88c0);
    assert(0xf1_88c0 * 0xc6_53c0 == 0xbb1e_c8fc_d000);
    lemma_product_known(0x4071_88c0, 0x3c46_53c0, 0xf1_88c0, 127, 0xc6_53c0, 119, 0xbb1e_c8fc_d000, 48, 0x8000_0000_0000, 0x100_0000);
    assert(mul_spec(0x4071_88c0, 0x3c46_53c0) == 0x3d3b_1ec9);
    assert(0xbb_1ec9 * 0x1_0000_0000_0000_0000 == 0x1_763d_9200_0000_0000 * 0x80_0000 + 0x0);
    lemma_quotient_known(0x3d3b_1ec9, 0x3c80_0000, 0xbb_1ec9, 121, 0x80_0000, 120, 0x1_763d_9200_0000_0000, 0x0, 66, 0x2_0000_0000_0000_0000, 0x400_0000_0000);
    assert(div_spec(0x3d3b_1ec9, 0x3c80_0000) == 0x403b_1ec9);
    assert(0x8c_1384 * 0x40 + 0xbb_1ec9 * 0x1 == 0x23bf_ffc9);
    lemma_sum_known(0x430c_1384, 0x403b_1ec9, false, 0x8c_1384, 133, 0xbb_1ec9, 127, 0x40, 0x1, 0x23bf_ffc9, 30, 0x2000_0000, 0x40);
    assert(add_spec(0x430c_1384, 0x403b_1ec9) == 0x430e_ffff);
    lemma_whole_known(0x430e_ffff, 0x8e_ffff, 133, 0x1_0000);
}

/// The value 0x3e8b_912c.
proof fn lemma_at_3e8b912c()
    ensures
        chord_code(0x3e8b_912c, 0x3e85_5e8d, 0x3e8d_5e8d, 0x430c_1384, 0x430f_d9a7) == 143,
{
    reveal(chord_code);
    lemma2_to64();
    lemma2_to64_rest();
    lemma_high_powers();
    assert(0x8d_5e8d * 0x1 - 0x85_5e8d * 0x1 == 0x8_0000);
    lemma_sum_known(0x3e8d_5e8d, 0x3e85_5e8d, true, 0x8d_5e8d, 124, 0x85_5e8d, 124, 0x1, 0x1, 0x8_0000, 20, 0x8_0000, 0x10);
    assert(sub_spec(0x3e8d_5e8d, 0x3e85_5e8d) == 0x3c80_0000);
    assert(0x8b_912c * 0x1 - 0x85_5e8d * 0x1 == 0x6_329f);
    lemma_sum_known(0x3e8b_912c, 0x3e85_5e8d, true, 0x8b_912c, 124, 0x85_5e8d, 124, 0x1, 0x1, 0x6_329f, 19, 0x4_0000, 0x20);
    assert(sub_spec(0x3e8b_912c, 0x3e85_5e8d) == 0x3c46_53e0);
    assert(0x8f_d9a7 * 0x1 - 0x8c_1384 * 0x1 == 0x3_c623);
    lemma_sum_known(0x430f_d9a7, 0x430c_1384, true, 0x8f_d9a7, 133, 0x8c_1384, 133, 0x1, 0x1, 0x3_c623, 18, 0x2_0000, 0x40);
    assert(sub_spec(0x430f_d9a7, 0x430c_1384) == 0x4071_88c0);
    assert(0xf1_88c0 * 0xc6_53e0 == 0xbb1e_e72d_e800);
    lemma_product_known(0x4071_88c0, 0x3c46_53e0, 0xf1_88c0, 127, 0xc6_53e0, 119, 0xbb1e_e72d_e800, 48, 0x8000_0000_0000, 0x100_0000);
    assert(mul_spec(0x4071_88c0, 0x3c46_53e0) == 0x3d3b_1ee7);
    assert(0xbb_1ee7 * 0x1_0000_0000_0000_0000 == 0x1_763d_ce00_0000_0000 * 0x80_0000 + 0x0);
    lemma_quotient_known(0x3d3b_1ee7, 0x3c80_0000, 0xbb_1ee7, 121, 0x80_0000, 120, 0x1_763d_ce00_0000_0000, 0x0, 66, 0x2_0000_0000_0000_0000, 0x400_0000_0000);
    assert(div_spec(0x3d3b_1ee7, 0x3c80_0000) == 0x403b_1ee7);
    assert(0x8c_1384 * 0x40 + 0xbb_1ee7 * 0x1 == 0x23bf_ffe7);
    lemma_sum_known(0x430c_1384, 0x403b_1ee7, false, 0x8c_1384, 133, 0xbb_1ee7, 127, 0x40, 0x1, 0x23bf_ffe7, 30, 0x2000_0000, 0x40);
    assert(add_spec(0x430c_1384, 0x403b_1ee7) == 0x430f_0000);
    lemma_whole_known(0x430f_0000, 0x8f_0000, 133, 0x1_0000);
}

/// The edge of code 142.
proof fn lemma_near_142()
    ensures
        near_exact_edge(0x3e8b_912b, 142),
{
    lemma2_to64();
    lemma2_to64_rest();
    lemma_fifth_powers_of_two();
    lemma_more_fifth_powers_of_two();
    assert(156525nat * 156525 * 156525 == 0xd_9fcc_42a0_93b5);
    assert(269025nat * 269025 * 269025 == 0x45_2c59_9066_9ca1);
    assert(0xd_9fcc_42a0_93b5nat * 0xd_9fcc_42a0_93b5 == 0xb9_9e7e_220c_b91f_6f5a_4b79_5df9nat);
    assert(0xb9_9e7e_220c_b91f_6f5a_4b79_5df9nat * 0xb9_9e7e_220c_b91f_6f5a_4b79_5df9nat == 0x8696_746d_2690_ccff_5ab4_61da_cca9_d6d6_11db_0b62_57ad_dde0_dc31nat);
    assert(0x45_2c59_9066_9ca1nat * 0x45_2c59_9066_9ca1 == 0x12b0_eff6_c049_6d6d_d948_5020_9d41nat);
    assert(0x12b0_eff6_c049_6d6d_d948_5020_9d41nat * 0x12b0_eff6_c049_6d6d_d948_5020_9d41nat == 0x15d_5c09_8741_6139_2178_92b9_bce5_5f46_89a2_dd05_b95f_0d00_50d8_ca81nat);
    assert(0x2b9_b3d7nat * 0x2b9_b3d7 == 0x7_6d84_c714_5e91);
    assert(0x7_6d84_c714_5e91nat * 0x7_6d84_c714_5e91 == 0x37_2c1d_3982_6c47_ac2c_5796_ce21nat);
    assert(0x37_2c1d_3982_6c47_ac2c_5796_ce21nat * 0x2b9_b3d7 == 0x965d_ddc0_0fda_4d62_d24f_1413_39a1_30b7nat);
    assert(0x2b9_f7d7nat * 0x2b9_f7d7 == 0x7_6ef7_80ae_9691);
    assert(0x7_6ef7_80ae_9691nat * 0x7_6ef7_80ae_9691 == 0x37_41a2_ab6b_d6e8_3570_05aa_3e21nat);
    assert(0x37_41a2_ab6b_d6e8_3570_05aa_3e21nat * 0x2b9_f7d7 == 0x96a7_32a0_cb9f_2225_0693_630f_2bc5_04b7nat);
    assert(0x965d_ddc0_0fda_4d62_d24f_1413_39a1_30b7nat * 0x15d_5c09_8741_6139_2178_92b9_bce5_5f46_89a2_dd05_b95f_0d00_50d8_ca81nat == 0xcd_3406_a345_54ef_37ea_28a2_8573_f868_08b6_3994_6546_239a_9645_694e_1599_0b6f_d0f9_e942_d44d_9363_8511_f237nat);
    assert(0x96a7_32a0_cb9f_2225_0693_630f_2bc5_04b7nat * 0x15d_5c09_8741_6139_2178_92b9_bce5_5f46_89a2_dd05_b95f_0d00_50d8_ca81nat == 0xcd_9819_b6e0_ce23_84a7_cc35_312f_a662_d7ef_7631_8ecb_50f7_7a1f_8d27_2d78_1e91_9d70_7d79_ef0f_ade3_ae67_c637nat);
    assert(0xc35nat * 0x2000_0000_0000_0000_0000_0000_0000_0000nat == 0x186_a000_0000_0000_0000_0000_0000_0000_0000nat);
    assert(0x8696_746d_2690_ccff_5ab4_61da_cca9_d6d6_11db_0b62_57ad_dde0_dc31nat * 0x186_a000_0000_0000_0000_0000_0000_0000_0000nat == 0xcd_5d53_670c_f8b2_cd23_c77d_d07c_8aa7_7064_fedc_3eef_09ac_af3b_fc44_a000_0000_0000_0000_0000_0000_0000_0000nat);
    lemma_near_above(
        0x3e8b_912b, 0x8b_912b, 124, 0x200, 0x186_a000_0000_0000_0000_0000_0000_0000_0000nat, 142,
        156525, 0xd_9fcc_42a0_93b5,
        0xb9_9e7e_220c_b91f_6f5a_4b79_5df9nat,
        0x45_2c59_9066_9ca1, 0x12b0_eff6_c049_6d6d_d948_5020_9d41nat,
        0x2b9_b3d7, 0x7_6d84_c714_5e91, 0x37_2c1d_3982_6c47_ac2c_5796_ce21nat,
        0x2b9_f7d7, 0x7_6ef7_80ae_9691, 0x37_41a2_ab6b_d6e8_3570_05aa_3e21nat,
    );
}

/// The value 0x3e8d_b27e.
proof fn lemma_at_3e8db27e()
    ensures
        chord_code(0x3e8d_b27e, 0x3e8d_5e8d, 0x3e95_5e8d, 0x430f_d9a7, 0x4313_8132) == 143,
{
    reveal(chord_code);
    lemma2_to64();
    lemma2_to64_rest();
    lemma_high_powers();
    assert(0x95_5e8d * 0x1 - 0x8d_5e8d * 0x1 == 0x8_0000);
    lemma_sum_known(0x3e95_5e8d, 0x3e8d_5e8d, true, 0x95_5e8d, 124, 0x8d_5e8d, 124, 0x1, 0x1, 0x8_0000, 20, 0x8_0000, 0x10);
    assert(sub_spec(0x3e95_5e8d, 0x3e8d_5e8d) == 0x3c80_0000);
    assert(0x8d_b27e * 0x1 - 0x8d_5e8d * 0x1 == 0x53f1);
    lemma_sum_known(0x3e8d_b27e, 0x3e8d_5e8d, true, 0x8d_b27e, 124, 0x8d_5e8d, 124, 0x1, 0x1, 0x53f1, 15, 0x4000, 0x200);
    assert(sub_spec(0x3e8d_b27e, 0x3e8d_5e8d) == 0x3a27_e200);
    assert(0x93_8132 * 0x1 - 0x8f_d9a7 * 0x1 == 0x3_a78b);
    lemma_sum_known(0x4313_8132, 0x430f_d9a7, true, 0x93_8132, 133, 0x8f_d9a7, 133, 0x1, 0x1, 0x3_a78b, 18, 0x2_0000, 0x40);
    assert(sub_spec(0x4313_8132, 0x430f_d9a7) == 0x4069_e2c0);
    assert(0xe9_e2c0 * 0xa7_e200 == 0x9961_656d_8000);
    lemma_product_known(0x4069_e2c0, 0x3a27_e200, 0xe9_e2c0, 127, 0xa7_e200, 115, 0x9961_656d_8000, 48, 0x8000_0000_0000, 0x100_0000);
    assert(mul_spec(0x4069_e2c0, 0x3a27_e200) == 0x3b19_6165);
    assert(0x99_6165 * 0x1_0000_0000_0000_0000 == 0x1_32c2_ca00_0000_0000 * 0x80_0000 + 0x0);
    lemma_quotient_known(0x3b19_6165, 0x3c80_0000, 0x99_6165, 117, 0x80_0000, 120, 0x1_32c2_ca00_0000_0000, 0x0, 66, 0x2_0000_0000_0000_0000, 0x400_0000_0000);
    assert(div_spec(0x3b19_6165, 0x3c80_0000) == 0x3e19_6165);
    assert(0x8f_d9a7 * 0x400 + 0x99_6165 * 0x1 == 0x2_3fff_fd65);
    lemma_sum_known(0x430f_d9a7, 0x3e19_6165, false, 0x8f_d9a7, 133, 0x99_6165, 123, 0x400, 0x1, 0x2_3fff_fd65, 34, 0x2_0000_0000, 0x400);
    assert(add_spec(0x430f_d9a7, 0x3e19_6165) == 0x430f_ffff);
    lemma_whole_known(0x430f_ffff, 0x8f_ffff, 133, 0x1_0000);
}

/// The value 0x3e8d_b27f.
proof fn lemma_at_3e8db27f()
    ensures
        chord_code(0x3e8d_b27f, 0x3e8d_5e8d, 0x3e95_5e8d, 0x430f_d9a7, 0x4313_8132) == 144,
{
    reveal(chord_code);
    lemma2_to64();
    lemma2_to64_rest();
    lemma_high_powers();
    assert(0x95_5e8d * 0x1 - 0x8d_5e8d * 0x1 == 0x8_0000);
    lemma_sum_known(0x3e95_5e8d, 0x3e8d_5e8d, true, 0x95_5e8d, 124, 0x8d_5e8d, 124, 0x1, 0x1, 0x8_0000, 20, 0x8_0000, 0x10);
    assert(sub_spec(0x3e95_5e8d, 0x3e8d_5e8d) == 0x3c80_0000);
    assert(0x8d_b27f * 0x1 - 0x8d_5e8d * 0x1 == 0x53f2);
    lemma_sum_known(0x3e8d_b27f, 0x3e8d_5e8d, true, 0x8d_b27f, 124, 0x8d_5e8d, 124, 0x1, 0x1, 0x53f2, 15, 0x4000, 0x200);
    assert(sub_spec(0x3e8d_b27f, 0x3e8d_5e8d) == 0x3a27_e400);
    assert(0x93_8132 * 0x1 - 0x8f_d9a7 * 0x1 == 0x3_a78b);
    lemma_sum_known(0x4313_8132, 0x430f_d9a7, true, 0x93_8132, 133, 0x8f_d9a7, 133, 0x1, 0x1, 0x3_a78b, 18, 0x2_0000, 0x40);
    assert(sub_spec(0x4313_8132, 0x430f_d9a7) == 0x4069_e2c0);
    assert(0xe9_e2c0 * 0xa7_e400 == 0x9963_3933_0000);
    lemma_product_known(0x4069_e2c0, 0x3a27_e400, 0xe9_e2c0, 127, 0xa7_e400, 115, 0x9963_3933_0000, 48, 0x8000_0000_0000, 0x100_0000);
    assert(mul_spec(0x4069_e2c0, 0x3a27_e400) == 0x3b19_6339);
    assert(0x99_6339 * 0x1_0000_0000_0000_0000 == 0x1_32c6_7200_0000_0000 * 0x80_0000 + 0x0);
    lemma_quotient_known(0x3b19_6339, 0x3c80_0000, 0x99_6339, 117, 0x80_0000, 120, 0x1_32c6_7200_0000_0000, 0x0, 66, 0x2_0000_0000_0000_0000, 0x400_0000_0000);
    assert(div_spec(0x3b19_6339, 0x3c80_0000) == 0x3e19_6339);
    assert(0x8f_d9a7 * 0x400 + 0x99_6339 * 0x1 == 0x2_3fff_ff39);
    lemma_sum_known(0x430f_d9a7, 0x3e19_6339, false, 0x8f_d9a7, 133, 0x99_6339, 123, 0x400, 0x1, 0x2_3fff_ff39, 34, 0x2_0000_0000, 0x400);
    assert(add_spec(0x430f_d9a7, 0x3e19_6339) == 0x4310_0000);
    lemma_whole_known(0x4310_0000, 0x90_0000, 133, 0x1_0000);
}

/// The edge of code 143.
proof fn lemma_near_143()
    ensures
        near_exact_edge(0x3e8d_b27e, 143),
{
    lemma2_to64();
    lemma2_to64_rest();
    lemma_fifth_powers_of_two();
    lemma_more_fifth_powers_of_two();
    assert(157525nat * 157525 * 157525 == 0xd_e312_edff_2bed);
    assert(269025nat * 269025 * 269025 == 0x45_2c59_9066_9ca1);
    assert(0xd_e312_edff_2bednat * 0xd_e312_edff_2bed == 0xc0_d956_bf63_531c_f101_5baf_7969nat);
    assert(0xc0_d956_bf63_531c_f101_5baf_7969nat * 0xc0_d956_bf63_531c_f101_5baf_7969nat == 0x9146_baa3_42d8_3421_c69e_548d_68a2_d211_faf4_dfc4_dd69_dd22_6d11nat);
    assert(0x45_2c59_9066_9ca1nat * 0x45_2c59_9066_9ca1 == 0x12b0_eff6_c049_6d6d_d948_5020_9d41nat);
    assert(0x12b0_eff6_c049_6d6d_d948_5020_9d41nat * 0x12b0_eff6_c049_6d6d_d948_5020_9d41nat == 0x15d_5c09_8741_6139_2178_92b9_bce5_5f46_89a2_dd05_b95f_0d00_50d8_ca81nat);
    assert(0x2c4_5a76nat * 0x2c4_5a76 == 0x7_a804_7ca7_2e64);
    assert(0x7_a804_7ca7_2e64nat * 0x7_a804_7ca7_2e64 == 0x3a_9e84_b4d4_1847_153e_6ee0_1710nat);
    assert(0x3a_9e84_b4d4_1847_153e_6ee0_1710nat * 0x2c4_5a76 == 0xa233_1dc3_d351_0ee2_eee6_6181_aba6_4160nat);
    assert(0x2c4_9e76nat * 0x2c4_9e76 == 0x7_a97c_dec5_de64);
    assert(0x7_a97c_dec5_de64nat * 0x7_a97c_dec5_de64 == 0x3a_b50a_49db_faa3_3f85_7719_9710nat);
    assert(0x3a_b50a_49db_faa3_3f85_7719_9710nat * 0x2c4_9e76 == 0xa281_0740_10b4_fb91_f591_09cc_7947_8160nat);
    assert(0xa233_1dc3_d351_0ee2_eee6_6181_aba6_4160nat * 0x15d_5c09_8741_6139_2178_92b9_bce5_5f46_89a2_dd05_b95f_0d00_50d8_ca81nat == 0xdd_59ff_fc27_e29b_3e98_f9c5_5dd7_0bc1_cbb8_ab7f_1c73_4ff5_78a9_5a34_454e_c0b6_2245_b63f_0a06_1c7d_d75c_b160nat);
    assert(0xa281_0740_10b4_fb91_f591_09cc_7947_8160nat * 0x15d_5c09_8741_6139_2178_92b9_bce5_5f46_89a2_dd05_b95f_0d00_50d8_ca81nat == 0xdd_c453_4d56_9949_5e8d_d0e0_6705_9d1b_8104_1934_8ce0_87ae_f3c0_e99f_6b70_ef96_3572_ecd1_5e6f_d47e_b21d_f160nat);
    assert(0xc35nat * 0x2000_0000_0000_0000_0000_0000_0000_0000nat == 0x186_a000_0000_0000_0000_0000_0000_0000_0000nat);
    assert(0x9146_baa3_42d8_3421_c69e_548d_68a2_d211_faf4_dfc4_dd69_dd22_6d11nat * 0x186_a000_0000_0000_0000_0000_0000_0000_0000nat == 0xdd_ac8c_895d_df26_8c09_b157_c445_c971_caaf_8de5_f1c4_59a9_0ca7_ac10_a000_0000_0000_0000_0000_0000_0000_0000nat);
    lemma_near_above(
        0x3e8d_b27e, 0x8d_b27e, 124, 0x200, 0x186_a000_0000_0000_0000_0000_0000_0000_0000nat, 143,
        157525, 0xd_e312_edff_2bed,
        0xc0_d956_bf63_531c_f101_5baf_7969nat,
        0x45_2c59_9066_9ca1, 0x12b0_eff6_c049_6d6d_d948_5020_9d41nat,
        0x2c4_5a76, 0x7_a804_7ca7_2e64, 0x3a_9e84_b4d4_1847_153e_6ee0_1710nat,
        0x2c4_9e76, 0x7_a97c_dec5_de64, 0x3a_b50a_49db_faa3_3f85_7719_9710nat,
    );
}

/// The value 0x3e8f_e2e7.
proof fn lemma_at_3e8fe2e7()
    ensures
        chord_code(0x3e8f_e2e7, 0x3e8d_5e8d, 0x3e95_5e8d, 0x430f_d9a7, 0x4313_8132) == 144,
{
    reveal(chord_code);
    lemma2_to64();
    lemma2_to64_rest();
    lemma_high_powers();
    assert(0x95_5e8d * 0x1 - 0x8d_5e8d * 0x1 == 0x8_0000);
    lemma_sum_known(0x3e95_5e8d, 0x3e8d_5e8d, true, 0x95_5e8d, 124, 0x8d_5e8d, 124, 0x1, 0x1, 0x8_0000, 20, 0x8_0000, 0x10);
    assert(sub_spec(0x3e95_5e8d, 0x3e8d_5e8d) == 0x3c80_0000);
    assert(0x8f_e2e7 * 0x1 - 0x8d_5e8d * 0x1 == 0x2_845a);
    lemma_sum_known(0x3e8f_e2e7, 0x3e8d_5e8d, true, 0x8f_e2e7, 124, 0x8d_5e8d, 124, 0x1, 0x1, 0x2_845a, 18, 0x2_0000, 0x40);
    assert(sub_spec(0x3e8f_e2e7, 0x3e8d_5e8d) == 0x3ba1_1680);
    assert(0x93_8132 * 0x1 - 0x8f_d9a7 * 0x1 == 0x3_a78b);
    lemma_sum_known(0x4313_8132, 0x430f_d9a7, true, 0x93_8132, 133, 0x8f_d9a7, 133, 0x1, 0x1, 0x3_a78b, 18, 0x2_0000, 0x40);
    assert(sub_spec(0x4313_8132, 0x430f_d9a7) == 0x4069_e2c0);
    assert(0xe9_e2c0 * 0xa1_1680 == 0x932c_292d_e000);
    lemma_product_known(0x4069_e2c0, 0x3ba1_1680, 0xe9_e2c0, 127, 0xa1_1680, 118, 0x932c_292d_e000, 48, 0x8000_0000_0000, 0x100_0000);
    assert(mul_spec(0x4069_e2c0, 0x3ba1_1680) == 0x3c93_2c29);
    assert(0x93_2c29 * 0x1_0000_0000_0000_0000 == 0x1_2658_5200_0000_0000 * 0x80_0000 + 0x0);
    lemma_quotient_known(0x3c93_2c29, 0x3c80_0000, 0x93_2c29, 120, 0x80_0000, 120, 0x1_2658_5200_0000_0000, 0x0, 66, 0x2_0000_0000_0000_0000, 0x400_0000_0000);
    assert(div_spec(0x3c93_2c29, 0x3c80_0000) == 0x3f93_2c29);
    assert(0x8f_d9a7 * 0x80 + 0x93_2c29 * 0x1 == 0x487f_ffa9);
    lemma_sum_known(0x430f_d9a7, 0x3f93_2c29, false, 0x8f_d9a7, 133, 0x93_2c29, 126, 0x80, 0x1, 0x487f_ffa9, 31, 0x4000_0000, 0x80);
    assert(add_spec(0x430f_d9a7, 0x3f93_2c29) == 0x4310_ffff);
    lemma_whole_known(0x4310_ffff, 0x90_ffff, 133, 0x1_0000);
}

/// The value 0x3e8f_e2e8.
proof fn lemma_at_3e8fe2e8()
    ensures
        chord_code(0x3e8f_e2e8, 0x3e8d_5e8d, 0x3e95_5e8d, 0x430f_d9a7, 0x4313_8132) == 145,
{
    reveal(chord_code);
    lemma2_to64();
    lemma2_to64_rest();
    lemma_high_powers();
    assert(0x95_5e8d * 0x1 - 0x8d_5e8d * 0x1 == 0x8_0000);
    lemma_sum_known(0x3e95_5e8d, 0x3e8d_5e8d, true, 0x95_5e8d, 124, 0x8d_5e8d, 124, 0x1, 0x1, 0x8_0000, 20, 0x8_0000, 0x10);
    assert(sub_spec(0x3e95_5e8d, 0x3e8d_5e8d) == 0x3c80_0000);
    assert(0x8f_e2e8 * 0x1 - 0x8d_5e8d * 0x1 == 0x2_845b);
    lemma_sum_known(0x3e8f_e2e8, 0x3e8d_5e8d, true, 0x8f_e2e8, 124, 0x8d_5e8d, 124, 0x1, 0x1, 0x2_845b, 18, 0x2_0000, 0x40);
    assert(sub_spec(0x3e8f_e2e8, 0x3e8d_5e8d) == 0x3ba1_16c0);
    assert(0x93_8132 * 0x1 - 0x8f_d9a7 * 0x1 == 0x3_a78b);
    lemma_sum_known(0x4313_8132, 0x430f_d9a7, true, 0x93_8132, 133, 0x8f_d9a7, 133, 0x1, 0x1, 0x3_a78b, 18, 0x2_0000, 0x40);
    assert(sub_spec(0x4313_8132, 0x430f_d9a7) == 0x4069_e2c0);
    assert(0xe9_e2c0 * 0xa1_16c0 == 0x932c_63a6_9000);
    lemma_product_known(0x4069_e2c0, 0x3ba1_16c0, 0xe9_e2c0, 127, 0xa1_16c0, 118, 0x932c_63a6_9000, 48, 0x8000_0000_0000, 0x100_0000);
    assert(mul_spec(0x4069_e2c0, 0x3ba1_16c0) == 0x3c93_2c64);
    assert(0x93_2c64 * 0x1_0000_0000_0000_0000 == 0x1_2658_c800_0000_0000 * 0x80_0000 + 0x0);
    lemma_quotient_known(0x3c93_2c64, 0x3c80_0000, 0x93_2c64, 120, 0x80_0000, 120, 0x1_2658_c800_0000_0000, 0x0, 66, 0x2_0000_0000_0000_0000, 0x400_0000_0000);
    assert(div_spec(0x3c93_2c64, 0x3c80_0000) == 0x3f93_2c64);
    assert(0x8f_d9a7 * 0x80 + 0x93_2c64 * 0x1 == 0x487f_ffe4);
    lemma_sum_known(0x430f_d9a7, 0x3f93_2c64, false, 0x8f_d9a7, 133, 0x93_2c64, 126, 0x80, 0x1, 0x487f_ffe4, 31, 0x4000_0000, 0x80);
    assert(add_spec(0x430f_d9a7, 0x3f93_2c64) == 0x4311_0000);
    lemma_whole_known(0x4311_0000, 0x91_0000, 133, 0x1_0000);
}

/// The edge of code 144.
proof fn lemma_near_144()
    ensures
        near_exact_edge(0x3e8f_e2e7, 144),
{
    lemma2_to64();
    lemma2_to64_rest();
    lemma_fifth_powers_of_two();
    lemma_more_fifth_powers_of_two();
    assert(158525nat * 158525 * 158525 == 0xe_2735_a8b2_3fa5);
    assert(269025nat * 269025 * 269025 == 0x45_2c59_9066_9ca1);
    assert(0xe_2735_a8b2_3fa5nat * 0xe_2735_a8b2_3fa5 == 0xc8_4fdf_d824_8e69_0ff7_2146_a059nat);
    assert(0xc8_4fdf_d824_8e69_0ff7_2146_a059nat * 0xc8_4fdf_d824_8e69_0ff7_2146_a059nat == 0x9cbc_e6ad_a43f_5a3b_9a91_fd26_598f_1623_d351_c669_2291_071b_5ef1nat);
    assert(0x45_2c59_9066_9ca1nat * 0x45_2c59_9066_9ca1 == 0x12b0_eff6_c049_6d6d_d948_5020_9d41nat);
    assert(0x12b0_eff6_c049_6d6d_d948_5020_9d41nat * 0x12b0_eff6_c049_6d6d_d948_5020_9d41nat == 0x15d_5c09_8741_6139_2178_92b9_bce5_5f46_89a2_dd05_b95f_0d00_50d8_ca81nat);
    assert(0x2cf_4c83nat * 0x2cf_4c83 == 0x7_e50e_deb8_0b09);
    assert(0x7_e50e_deb8_0b09nat * 0x7_e50e_deb8_0b09 == 0x3e_53c3_c962_fc21_066f_7969_c651nat);
    assert(0x3e_53c3_c962_fc21_066f_7969_c651nat * 0x2cf_4c83 == 0xaf1f_e3a5_99fb_9141_e5e5_632a_857f_8773nat);
    assert(0x2cf_9083nat * 0x2cf_9083 == 0x7_e68d_116d_a309);
    assert(0x7_e68d_116d_a309nat * 0x7_e68d_116d_a309 == 0x3e_6b58_bd0c_1f67_8285_6f7e_7651nat);
    assert(0x3e_6b58_bd0c_1f67_8285_6f7e_7651nat * 0x2cf_9083 == 0xaf72_ba8d_cdcb_c295_e026_fd2d_7dc3_1b73nat);
    assert(0xaf1f_e3a5_99fb_9141_e5e5_632a_857f_8773nat * 0x15d_5c09_8741_6139_2178_92b9_bce5_5f46_89a2_dd05_b95f_0d00_50d8_ca81nat == 0xee_fd6f_5337_fac5_2462_fd03_4042_4daa_8e83_fb47_ec01_7c64_cb8d_0486_01f4_6ec6_624f_a260_a6fc_dab2_1f2b_fef3nat);
    assert(0xaf72_ba8d_cdcb_c295_e026_fd2d_7dc3_1b73nat * 0x15d_5c09_8741_6139_2178_92b9_bce5_5f46_89a2_dd05_b95f_0d00_50d8_ca81nat == 0xef_6e7c_1617_62dd_821d_ae42_f77e_28dc_4e43_4a1f_39f3_0bf8_8034_7510_ea47_9371_1b9f_6a47_c02c_655b_6c01_92f3nat);
    assert(0xc35nat * 0x2000_0000_0000_0000_0000_0000_0000_0000nat == 0x186_a000_0000_0000_0000_0000_0000_0000_0000nat);
    assert(0x9cbc_e6ad_a43f_5a3b_9a91_fd26_598f_1623_d351_c669_2291_071b_5ef1nat * 0x186_a000_0000_0000_0000_0000_0000_0000_0000nat == 0xef_29bd_7cb4_bf2b_0f32_bb02_e6a4_67f5_286a_52a7_602c_5e8b_7823_be7c_a000_0000_0000_0000_0000_0000_0000_0000nat);
    lemma_near_above(
        0x3e8f_e2e7, 0x8f_e2e7, 124, 0x200, 0x186_a000_0000_0000_0000_0000_0000_0000_0000nat, 144,
        158525, 0xe_2735_a8b2_3fa5,
        0xc8_4fdf_d824_8e69_0ff7_2146_a059nat,
        0x45_2c59_9066_9ca1, 0x12b0_eff6_c049_6d6d_d948_5020_9d41nat,
        0x2cf_4c83, 0x7_e50e_deb8_0b09, 0x3e_53c3_c962_fc21_066f_7969_c651nat,
        0x2cf_9083, 0x7_e68d_116d_a309, 0x3e_6b58_bd0c_1f67_8285_6f7e_7651nat,
    );
}

/// The value 0x3e92_1350.
proof fn lemma_at_3e921350()
    ensures
        chord_code(0x3e92_1350, 0x3e8d_5e8d, 0x3e95_5e8d, 0x430f_d9a7, 0x4313_8132) == 145,
{
    reveal(chord_code);
    lemma2_to64();
    lemma2_to64_rest();
    lemma_high_powers();
    assert(0x95_5e8d * 0x1 - 0x8d_5e8d * 0x1 == 0x8_0000);
    lemma_sum_known(0x3e95_5e8d, 0x3e8d_5e8d, true, 0x95_5e8d, 124, 0x8d_5e8d, 124, 0x1, 0x1, 0x8_0000, 20, 0x8_0000, 0x10);
    assert(sub_spec(0x3e95_5e8d, 0x3e8d_5e8d) == 0x3c80_0000);
    assert(0x92_1350 * 0x1 - 0x8d_5e8d * 0x1 == 0x4_b4c3);
    lemma_sum_known(0x3e92_1350, 0x3e8d_5e8d, true, 0x92_1350, 124, 0x8d_5e8d, 124, 0x1, 0x1, 0x4_b4c3, 19, 0x4_0000, 0x20);
    assert(sub_spec(0x3e92_1350, 0x3e8d_5e8d) == 0x3c16_9860);
    assert(0x93_8132 * 0x1 - 0x8f_d9a7 * 0x1 == 0x3_a78b);
    lemma_sum_known(0x4313_8132, 0x430f_d9a7, true, 0x93_8132, 133, 0x8f_d9a7, 133, 0x1, 0x1, 0x3_a78b, 18, 0x2_0000, 0x40);
    assert(sub_spec(0x4313_8132, 0x430f_d9a7) == 0x4069_e2c0);
    assert(0xe9_e2c0 * 0x96_9860 == 0x8996_12d7_0800);
    lemma_product_known(0x4069_e2c0, 0x3c16_9860, 0xe9_e2c0, 127, 0x96_9860, 119, 0x8996_12d7_0800, 48, 0x8000_0000_0000, 0x100_0000);
    assert(mul_spec(0x4069_e2c0, 0x3c16_9860) == 0x3d09_9613);
    assert(0x89_9613 * 0x1_0000_0000_0000_0000 == 0x1_132c_2600_0000_0000 * 0x80_0000 + 0x0);
    lemma_quotient_known(0x3d09_9613, 0x3c80_0000, 0x89_9613, 121, 0x80_0000, 120, 0x1_132c_2600_0000_0000, 0x0, 66, 0x2_0000_0000_0000_0000, 0x400_0000_0000);
    assert(div_spec(0x3d09_9613, 0x3c80_0000) == 0x4009_9613);
    assert(0x8f_d9a7 * 0x40 + 0x89_9613 * 0x1 == 0x247f_ffd3);
    lemma_sum_known(0x430f_d9a7, 0x4009_9613, false, 0x8f_d9a7, 133, 0x89_9613, 127, 0x40, 0x1, 0x247f_ffd3, 30, 0x2000_0000, 0x40);
    assert(add_spec(0x430f_d9a7, 0x4009_9613) == 0x4311_ffff);
    lemma_whole_known(0x4311_ffff, 0x91_ffff, 133, 0x1_0000);
}

/// The value 0x3e92_1351.
proof fn lemma_at_3e921351()
    ensures
        chord_code(0x3e92_1351, 0x3e8d_5e8d, 0x3e95_5e8d, 0x430f_d9a7, 0x4313_8132) == 146,
{
    reveal(chord_code);
    lemma2_to64();
    lemma2_to64_rest();
    lemma_high_powers();
    assert(0x95_5e8d * 0x1 - 0x8d_5e8d * 0x1 == 0x8_0000);
    lemma_sum_known(0x3e95_5e8d, 0x3e8d_5e8d, true, 0x95_5e8d, 124, 0x8d_5e8d, 124, 0x1, 0x1, 0x8_0000, 20, 0x8_0000, 0x10);
    assert(sub_spec(0x3e95_5e8d, 0x3e8d_5e8d) == 0x3c80_0000);
    assert(0x92_1351 * 0x1 - 0x8d_5e8d * 0x1 == 0x4_b4c4);
    lemma_sum_known(0x3e92_1351, 0x3e8d_5e8d, true, 0x92_1351, 124, 0x8d_5e8d, 124, 0x1, 0x1, 0x4_b4c4, 19, 0x4_0000, 0x20);
    assert(sub_spec(0x3e92_1351, 0x3e8d_5e8d) == 0x3c16_9880);
    assert(0x93_8132 * 0x1 - 0x8f_d9a7 * 0x1 == 0x3_a78b);
    lemma_sum_known(0x4313_8132, 0x430f_d9a7, true, 0x93_8132, 133, 0x8f_d9a7, 133, 0x1, 0x1, 0x3_a78b, 18, 0x2_0000, 0x40);
    assert(sub_spec(0x4313_8132, 0x430f_d9a7) == 0x4069_e2c0);
    assert(0xe9_e2c0 * 0x96_9880 == 0x8996_3013_6000);
    lemma_product_known(0x4069_e2c0, 0x3c16_9880, 0xe9_e2c0, 127, 0x96_9880, 119, 0x8996_3013_6000, 48, 0x8000_0000_0000, 0x100_0000);
    assert(mul_spec(0x4069_e2c0, 0x3c16_9880) == 0x3d09_9630);
    assert(0x89_9630 * 0x1_0000_0000_0000_0000 == 0x1_132c_6000_0000_0000 * 0x80_0000 + 0x0);
    lemma_quotient_known(0x3d09_9630, 0x3c80_0000, 0x89_9630, 121, 0x80_0000, 120, 0x1_132c_6000_0000_0000, 0x0, 66, 0x2_0000_0000_0000_0000, 0x400_0000_0000);
    assert(div_spec(0x3d09_9630, 0x3c80_0000) == 0x4009_9630);
    assert(0x8f_d9a7 * 0x40 + 0x89_9630 * 0x1 == 0x247f_fff0);
    lemma_sum_known(0x430f_d9a7, 0x4009_9630, false, 0x8f_d9a7, 133, 0x89_9630, 127, 0x40, 0x1, 0x247f_fff0, 30, 0x2000_0000, 0x40);
    assert(add_spec(0x430f_d9a7, 0x4009_9630) == 0x4312_0000);
    lemma_whole_known(0x4312_0000, 0x92_0000, 133, 0x1_0000);
}

/// The edge of code 145.
proof fn lemma_near_145()
    ensures
        near_exact_edge(0x3e92_1350, 145),
{
    lemma2_to64();
    lemma2_to64_rest();
    lemma_fifth_powers_of_two();
    lemma_more_fifth_powers_of_two();
    assert(159525nat * 159525 * 159525 == 0xe_6c35_d85a_8add);
    assert(269025nat * 269025 * 269025 == 0x45_2c59_9066_9ca1);
    assert(0xe_6c35_d85a_8addnat * 0xe_6c35_d85a_8add == 0xd0_03a1_23c6_e1ac_e1dc_deb7_02c9nat);
    assert(0xd0_03a1_23c6_e1ac_e1dc_deb7_02c9nat * 0xd0_03a1_23c6_e1ac_e1dc_deb7_02c9nat == 0xa905_e5e7_4f73_6760_ebe0_528e_1337_4c3c_3bca_4f4c_0721_9765_c1d1nat);
    assert(0x45_2c59_9066_9ca1nat * 0x45_2c59_9066_9ca1 == 0x12b0_eff6_c049_6d6d_d948_5020_9d41nat);
    assert(0x12b0_eff6_c049_6d6d_d948_5020_9d41nat * 0x12b0_eff6_c049_6d6d_d948_5020_9d41nat == 0x15d_5c09_8741_6139_2178_92b9_bce5_5f46_89a2_dd05_b95f_0d00_50d8_ca81nat);
    assert(0x2da_3e90nat * 0x2da_3e90 == 0x8_2308_dc8a_1100);
    assert(0x8_2308_dc8a_1100nat * 0x8_2308_dc8a_1100 == 0x42_3559_353d_5744_a7ae_5521_0000nat);
    assert(0x42_3559_353d_5744_a7ae_5521_0000nat * 0x2da_3e90 == 0xbcdc_4e8b_6dfd_a769_de59_4ac7_e090_0000nat);
    assert(0x2da_8290nat * 0x2da_8290 == 0x8_248c_dfd6_9100);
    assert(0x8_248c_dfd6_9100nat * 0x8_248c_dfd6_9100 == 0x42_4e05_e9e2_ff2e_1c74_be21_0000nat);
    assert(0x42_4e05_e9e2_ff2e_1c74_be21_0000nat * 0x2da_8290 == 0xbd34_4dc7_d564_7ec2_1949_7451_b490_0000nat);
    assert(0xbcdc_4e8b_6dfd_a769_de59_4ac7_e090_0000nat * 0x15d_5c09_8741_6139_2178_92b9_bce5_5f46_89a2_dd05_b95f_0d00_50d8_ca81nat == 0x101_bc3d_47d6_3a50_5952_6a68_4071_12fb_17f2_5f41_6d4f_f928_1143_62dc_ead0_43be_56ca_f458_5ed2_df69_c890_0000nat);
    assert(0xbd34_4dc7_d564_7ec2_1949_7451_b490_0000nat * 0x15d_5c09_8741_6139_2178_92b9_bce5_5f46_89a2_dd05_b95f_0d00_50d8_ca81nat == 0x102_3453_e02f_5dde_98d2_c0bf_51bd_a0bf_03f8_bc2d_1b9a_01e3_02d2_4659_2552_c8ae_36db_89b1_b129_6f25_9c90_0000nat);
    assert(0xc35nat * 0x2000_0000_0000_0000_0000_0000_0000_0000nat == 0x186_a000_0000_0000_0000_0000_0000_0000_0000nat);
    assert(0xa905_e5e7_4f73_6760_ebe0_528e_1337_4c3c_3bca_4f4c_0721_9765_c1d1nat * 0x186_a000_0000_0000_0000_0000_0000_0000_0000nat == 0x101_e89f_ee13_9b77_9e43_eb29_f80a_1240_b368_bb93_3f62_61a1_a3a4_dd88_a000_0000_0000_0000_0000_0000_0000_0000nat);
    lemma_near_above(
        0x3e92_1350, 0x92_1350, 124, 0x200, 0x186_a000_0000_0000_0000_0000_0000_0000_0000nat, 145,
        159525, 0xe_6c35_d85a_8add,
        0xd0_03a1_23c6_e1ac_e1dc_deb7_02c9nat,
        0x45_2c59_9066_9ca1, 0x12b0_eff6_c049_6d6d_d948_5020_9d41nat,
        0x2da_3e90, 0x8_2308_dc8a_1100, 0x42_3559_353d_5744_a7ae_5521_0000nat,
        0x2da_8290, 0x8_248c_dfd6_9100, 0x42_4e05_e9e2_ff2e_1c74_be21_0000nat,
    );
}

/// The value 0x3e94_43b9.
proof fn lemma_at_3e9443b9()
    ensures
        chord_code(0x3e94_43b9, 0x3e8d_5e8d, 0x3e95_5e8d, 0x430f_d9a7, 0x4313_8132) == 146,
{
    reveal(chord_code);
    lemma2_to64();
    lemma2_to64_rest();
    lemma_high_powers();
    assert(0x95_5e8d * 0x1 - 0x8d_5e8d * 0x1 == 0x8_0000);
    lemma_sum_known(0x3e95_5e8d, 0x3e8d_5e8d, true, 0x95_5e8d, 124, 0x8d_5e8d, 124, 0x1, 0x1, 0x8_0000, 20, 0x8_0000, 0x10);
    assert(sub_spec(0x3e95_5e8d, 0x3e8d_5e8d) == 0x3c80_0000);
    assert(0x94_43b9 * 0x1 - 0x8d_5e8d * 0x1 == 0x6_e52c);
    lemma_sum_known(0x3e94_43b9, 0x3e8d_5e8d, true, 0x94_43b9, 124, 0x8d_5e8d, 124, 0x1, 0x1, 0x6_e52c, 19, 0x4_0000, 0x20);
    assert(sub_spec(0x3e94_43b9, 0x3e8d_5e8d) == 0x3c5c_a580);
    assert(0x93_8132 * 0x1 - 0x8f_d9a7 * 0x1 == 0x3_a78b);
    lemma_sum_known(0x4313_8132, 0x430f_d9a7, true, 0x93_8132, 133, 0x8f_d9a7, 133, 0x1, 0x1, 0x3_a78b, 18, 0x2_0000, 0x40);
    assert(sub_spec(0x4313_8132, 0x430f_d9a7) == 0x4069_e2c0);
    assert(0xe9_e2c0 * 0xdc_a580 == 0xc996_1117_2000);
    lemma_product_known(0x4069_e2c0, 0x3c5c_a580, 0xe9_e2c0, 127, 0xdc_a580, 119, 0xc996_1117_2000, 48, 0x8000_0000_0000, 0x100_0000);
    assert(mul_spec(0x4069_e2c0, 0x3c5c_a580) == 0x3d49_9611);
    assert(0xc9_9611 * 0x1_0000_0000_0000_0000 == 0x1_932c_2200_0000_0000 * 0x80_0000 + 0x0);
    lemma_quotient_known(0x3d49_9611, 0x3c80_0000, 0xc9_9611, 121, 0x80_0000, 120, 0x1_932c_2200_0000_0000, 0x0, 66, 0x2_0000_0000_0000_0000, 0x400_0000_0000);
    assert(div_spec(0x3d49_9611, 0x3c80_0000) == 0x4049_9611);
    assert(0x8f_d9a7 * 0x40 + 0xc9_9611 * 0x1 == 0x24bf_ffd1);
    lemma_sum_known(0x430f_d9a7, 0x4049_9611, false, 0x8f_d9a7, 133, 0xc9_9611, 127, 0x40, 0x1, 0x24bf_ffd1, 30, 0x2000_0000, 0x40);
    assert(add_spec(0x430f_d9a7, 0x4049_9611) == 0x4312_ffff);
    lemma_whole_known(0x4312_ffff, 0x92_ffff, 133, 0x1_0000);
}

/// The value 0x3e94_43ba.
proof fn lemma_at_3e9443ba()
    ensures
        chord_code(0x3e94_43ba, 0x3e8d_5e8d, 0x3e95_5e8d, 0x430f_d9a7, 0x4313_8132) == 147,
{
    reveal(chord_code);
    lemma2_to64();
    lemma2_to64_rest();
    lemma_high_powers();
    assert(0x95_5e8d * 0x1 - 0x8d_5e8d * 0x1 == 0x8_0000);
    lemma_sum_known(0x3e95_5e8d, 0x3e8d_5e8d, true, 0x95_5e8d, 124, 0x8d_5e8d, 124, 0x1, 0x1, 0x8_0000, 20, 0x8_0000, 0x10);
    assert(sub_spec(0x3e95_5e8d, 0x3e8d_5e8d) == 0x3c80_0000);
    assert(0x94_43ba * 0x1 - 0x8d_5e8d * 0x1 == 0x6_e52d);
    lemma_sum_known(0x3e94_43ba, 0x3e8d_5e8d, true, 0x94_43ba, 124, 0x8d_5e8d, 124, 0x1, 0x1, 0x6_e52d, 19, 0x4_0000, 0x20);
    assert(sub_spec(0x3e94_43ba, 0x3e8d_5e8d) == 0x3c5c_a5a0);
    assert(0x93_8132 * 0x1 - 0x8f_d9a7 * 0x1 == 0x3_a78b);
    lemma_sum_known(0x4313_8132, 0x430f_d9a7, true, 0x93_8132, 133, 0x8f_d9a7, 133, 0x1, 0x1, 0x3_a78b, 18, 0x2_0000, 0x40);
    assert(sub_spec(0x4313_8132, 0x430f_d9a7) == 0x4069_e2c0);
    assert(0xe9_e2c0 * 0xdc_a5a0 == 0xc996_2e53_7800);
    lemma_product_known(0x4069_e2c0, 0x3c5c_a5a0, 0xe9_e2c0, 127, 0xdc_a5a0, 119, 0xc996_2e53_7800, 48, 0x8000_0000_0000, 0x100_0000);
    assert(mul_spec(0x4069_e2c0, 0x3c5c_a5a0) == 0x3d49_962e);
    assert(0xc9_962e * 0x1_0000_0000_0000_0000 == 0x1_932c_5c00_0000_0000 * 0x80_0000 + 0x0);
    lemma_quotient_known(0x3d49_962e, 0x3c80_0000, 0xc9_962e, 121, 0x80_0000, 120, 0x1_932c_5c00_0000_0000, 0x0, 66, 0x2_0000_0000_0000_0000, 0x400_0000_0000);
    assert(div_spec(0x3d49_962e, 0x3c80_0000) == 0x4049_962e);
    assert(0x8f_d9a7 * 0x40 + 0xc9_962e * 0x1 == 0x24bf_ffee);
    lemma_sum_known(0x430f_d9a7, 0x4049_962e, false, 0x8f_d9a7, 133, 0xc9_962e, 127, 0x40, 0x1, 0x24bf_ffee, 30, 0x2000_0000, 0x40);
    assert(add_spec(0x430f_d9a7, 0x4049_962e) == 0x4313_0000);
    lemma_whole_known(0x4313_0000, 0x93_0000, 133, 0x1_0000);
}

/// The edge of code 146.
proof fn lemma_near_146()
    ensures
        near_exact_edge(0x3e94_43b9, 146),
{
    lemma2_to64();
    lemma2_to64_rest();
    lemma_fifth_powers_of_two();
    lemma_more_fifth_powers_of_two();
    assert(160525nat * 160525 * 160525 == 0xe_b214_e298_c995);
    assert(269025nat * 269025 * 269025 == 0x45_2c59_9066_9ca1);
    assert(0xe_b214_e298_c995nat * 0xe_b214_e298_c995 == 0xd7_f629_d586_b510_d263_13ab_50b9nat);
    assert(0xd7_f629_d586_b510_d263_13ab_50b9nat * 0xd7_f629_d586_b510_d263_13ab_50b9nat == 0xb62f_66f9_1579_1d7d_2654_e311_0bd0_2607_c3d8_f992_d3b6_669a_25b1nat);
    assert(0x45_2c59_9066_9ca1nat * 0x45_2c59_9066_9ca1 == 0x12b0_eff6_c049_6d6d_d948_5020_9d41nat);
    assert(0x12b0_eff6_c049_6d6d_d948_5020_9d41nat * 0x12b0_eff6_c049_6d6d_d948_5020_9d41nat == 0x15d_5c09_8741_6139_2178_92b9_bce5_5f46_89a2_dd05_b95f_0d00_50d8_ca81nat);
    assert(0x2e5_309dnat * 0x2e5_309d == 0x8_61f2_761d_4049);
    assert(0x8_61f2_761d_4049nat * 0x8_61f2_761d_4049 == 0x46_44a1_04f9_b513_d69e_ecae_94d1nat);
    assert(0x46_44a1_04f9_b513_d69e_ecae_94d1nat * 0x2e5_309d == 0xcb71_fe09_ae78_0183_ff6b_812c_a3ed_742dnat);
    assert(0x2e5_749dnat * 0x2e5_749d == 0x8_637c_4a00_a849);
    assert(0x8_637c_4a00_a849nat * 0x8_637c_4a00_a849 == 0x46_5e6d_fd9e_ccbf_de02_a29f_e4d1nat);
    assert(0x46_5e6d_fd9e_ccbf_de02_a29f_e4d1nat * 0x2e5_749d == 0xcbcf_6250_dd07_2688_1fe5_121f_80b3_082dnat);
    assert(0xcb71_fe09_ae78_0183_ff6b_812c_a3ed_742dnat * 0x15d_5c09_8741_6139_2178_92b9_bce5_5f46_89a2_dd05_b95f_0d00_50d8_ca81nat == 0x115_a38b_dcfd_54d0_876a_074e_f8f7_4ff9_621a_6be1_5319_ddbb_204a_8982_381b_df9d_94da_d668_2a97_1e80_0e4b_0cadnat);
    assert(0xcbcf_6250_dd07_2688_1fe5_121f_80b3_082dnat * 0x15d_5c09_8741_6139_2178_92b9_bce5_5f46_89a2_dd05_b95f_0d00_50d8_ca81nat == 0x116_22ff_258b_40ed_89d6_e71f_4bcf_11ea_fbcc_fb0b_2606_1c54_3de5_8e8b_4a12_19a4_847a_1176_9aa4_d00a_14a2_a0adnat);
    assert(0xc35nat * 0x2000_0000_0000_0000_0000_0000_0000_0000nat == 0x186_a000_0000_0000_0000_0000_0000_0000_0000nat);
    assert(0xb62f_66f9_1579_1d7d_2654_e311_0bd0_2607_c3d8_f992_d3b6_669a_25b1nat * 0x186_a000_0000_0000_0000_0000_0000_0000_0000nat == 0x115_fe14_7fd2_63ee_9f16_9d46_f9e2_a67c_0799_36f3_d1aa_4c32_4ef5_c334_a000_0000_0000_0000_0000_0000_0000_0000nat);
    lemma_near_above(
        0x3e94_43b9, 0x94_43b9, 124, 0x200, 0x186_a000_0000_0000_0000_0000_0000_0000_0000nat, 146,
        160525, 0xe_b214_e298_c995,
        0xd7_f629_d586_b510_d263_13ab_50b9nat,
        0x45_2c59_9066_9ca1, 0x12b0_eff6_c049_6d6d_d948_5020_9d41nat,
        0x2e5_309d, 0x8_61f2_761d_4049, 0x46_44a1_04f9_b513_d69e_ecae_94d1nat,
        0x2e5_749d, 0x8_637c_4a00_a849, 0x46_5e6d_fd9e_ccbf_de02_a29f_e4d1nat,
    );
}

/// The value 0x3e96_7d80.
proof fn lemma_at_3e967d80()
    ensures
        chord_code(0x3e96_7d80, 0x3e95_5e8d, 0x3e9d_5e8d, 0x4313_8132, 0x4317_0a33) == 147,
{
    reveal(chord_code);
    lemma2_to64();
    lemma2_to64_rest();
    lemma_high_powers();
    assert(0x9d_5e8d * 0x1 - 0x95_5e8d * 0x1 == 0x8_0000);
    lemma_sum_known(0x3e9d_5e8d, 0x3e95_5e8d, true, 0x9d_5e8d, 124, 0x95_5e8d, 124, 0x1, 0x1, 0x8_0000, 20, 0x8_0000, 0x10);
    assert(sub_spec(0x3e9d_5e8d, 0x3e95_5e8d) == 0x3c80_0000);
    assert(0x96_7d80 * 0x1 - 0x95_5e8d * 0x1 == 0x1_1ef3);
    lemma_sum_known(0x3e96_7d80, 0x3e95_5e8d, true, 0x96_7d80, 124, 0x95_5e8d, 124, 0x1, 0x1, 0x1_1ef3, 17, 0x1_0000, 0x80);
    assert(sub_spec(0x3e96_7d80, 0x3e95_5e8d) == 0x3b0f_7980);
    assert(0x97_0a33 * 0x1 - 0x93_8132 * 0x1 == 0x3_8901);
    lemma_sum_known(0x4317_0a33, 0x4313_8132, true, 0x97_0a33, 133, 0x93_8132, 133, 0x1, 0x1, 0x3_8901, 18, 0x2_0000, 0x40);
    assert(sub_spec(0x4317_0a33, 0x4313_8132) == 0x4062_4040);
    assert(0xe2_4040 * 0x8f_7980 == 0x7ecd_453e_6000);
    lemma_product_known(0x4062_4040, 0x3b0f_7980, 0xe2_4040, 127, 0x8f_7980, 117, 0x7ecd_453e_6000, 47, 0x4000_0000_0000, 0x80_0000);
    assert(mul_spec(0x4062_4040, 0x3b0f_7980) == 0x3bfd_9a8a);
    assert(0xfd_9a8a * 0x1_0000_0000_0000_0000 == 0x1_fb35_1400_0000_0000 * 0x80_0000 + 0x0);
    lemma_quotient_known(0x3bfd_9a8a, 0x3c80_0000, 0xfd_9a8a, 118, 0x80_0000, 120, 0x1_fb35_1400_0000_0000, 0x0, 66, 0x2_0000_0000_0000_0000, 0x400_0000_0000);
    assert(div_spec(0x3bfd_9a8a, 0x3c80_0000) == 0x3efd_9a8a);
    assert(0x93_8132 * 0x200 + 0xfd_9a8a * 0x1 == 0x1_27ff_fe8a);
    lemma_sum_known(0x4313_8132, 0x3efd_9a8a, false, 0x93_8132, 133, 0xfd_9a8a, 124, 0x200, 0x1, 0x1_27ff_fe8a, 33, 0x1_0000_0000, 0x200);
    assert(add_spec(0x4313_8132, 0x3efd_9a8a) == 0x4313_ffff);
    lemma_whole_known(0x4313_ffff, 0x93_ffff, 133, 0x1_0000);
}

/// The value 0x3e96_7d81.
proof fn lemma_at_3e967d81()
    ensures
        chord_code(0x3e96_7d81, 0x3e95_5e8d, 0x3e9d_5e8d, 0x4313_8132, 0x4317_0a33) == 148,
{
    reveal(chord_code);
    lemma2_to64();
    lemma2_to64_rest();
    lemma_high_powers();
    assert(0x9d_5e8d * 0x1 - 0x95_5e8d * 0x1 == 0x8_0000);
    lemma_sum_known(0x3e9d_5e8d, 0x3e95_5e8d, true, 0x9d_5e8d, 124, 0x95_5e8d, 124, 0x1, 0x1, 0x8_0000, 20, 0x8_0000, 0x10);
    assert(sub_spec(0x3e9d_5e8d, 0x3e95_5e8d) == 0x3c80_0000);
    assert(0x96_7d81 * 0x1 - 0x95_5e8d * 0x1 == 0x1_1ef4);
    lemma_sum_known(0x3e96_7d81, 0x3e95_5e8d, true, 0x96_7d81, 124, 0x95_5e8d, 124, 0x1, 0x1, 0x1_1ef4, 17, 0x1_0000, 0x80);
    assert(sub_spec(0x3e96_7d81, 0x3e95_5e8d) == 0x3b0f_7a00);
    assert(0x97_0a33 * 0x1 - 0x93_8132 * 0x1 == 0x3_8901);
    lemma_sum_known(0x4317_0a33, 0x4313_8132, true, 0x97_0a33, 133, 0x93_8132, 133, 0x1, 0x1, 0x3_8901, 18, 0x2_0000, 0x40);
    assert(sub_spec(0x4317_0a33, 0x4313_8132) == 0x4062_4040);
    assert(0xe2_4040 * 0x8f_7a00 == 0x7ecd_b65e_8000);
    lemma_product_known(0x4062_4040, 0x3b0f_7a00, 0xe2_4040, 127, 0x8f_7a00, 117, 0x7ecd_b65e_8000, 47, 0x4000_0000_0000, 0x80_0000);
    assert(mul_spec(0x4062_4040, 0x3b0f_7a00) == 0x3bfd_9b6d);
    assert(0xfd_9b6d * 0x1_0000_0000_0000_0000 == 0x1_fb36_da00_0000_0000 * 0x80_0000 + 0x0);
    lemma_quotient_known(0x3bfd_9b6d, 0x3c80_0000, 0xfd_9b6d, 118, 0x80_0000, 120, 0x1_fb36_da00_0000_0000, 0x0, 66, 0x2_0000_0000_0000_0000, 0x400_0000_0000);
    assert(div_spec(0x3bfd_9b6d, 0x3c80_0000) == 0x3efd_9b6d);
    assert(0x93_8132 * 0x200 + 0xfd_9b6d * 0x1 == 0x1_27ff_ff6d);
    lemma_sum_known(0x4313_8132, 0x3efd_9b6d, false, 0x93_8132, 133, 0xfd_9b6d, 124, 0x200, 0x1, 0x1_27ff_ff6d, 33, 0x1_0000_0000, 0x200);
    assert(add_spec(0x4313_8132, 0x3efd_9b6d) == 0x4314_0000);
    lemma_whole_known(0x4314_0000, 0x94_0000, 133, 0x1_0000);
}

/// The edge of code 147.
proof fn lemma_near_147()
    ensures
        near_exact_edge(0x3e96_7d80, 147),
{
    lemma2_to64();
    lemma2_to64_rest();
    lemma_fifth_powers_of_two();
    lemma_more_fifth_powers_of_two();
    assert(161525nat * 161525 * 161525 == 0xe_f8d4_2d0d_b7cd);
    assert(269025nat * 269025 * 269025 == 0x45_2c59_9066_9ca1);
    assert(0xe_f8d4_2d0d_b7cdnat * 0xe_f8d4_2d0d_b7cd == 0xe0_2910_b4a5_552f_6ee2_40c8_ba29nat);
    assert(0xe0_2910_b4a5_552f_6ee2_40c8_ba29nat * 0xe0_2910_b4a5_552f_6ee2_40c8_ba29nat == 0xc447_e3d2_7c49_1c6e_cdf5_53b9_cfa6_55c9_edd0_87d6_e6db_e76f_9a91nat);
    assert(0x45_2c59_9066_9ca1nat * 0x45_2c59_9066_9ca1 == 0x12b0_eff6_c049_6d6d_d948_5020_9d41nat);
    assert(0x12b0_eff6_c049_6d6d_d948_5020_9d41nat * 0x12b0_eff6_c049_6d6d_d948_5020_9d41nat == 0x15d_5c09_8741_6139_2178_92b9_bce5_5f46_89a2_dd05_b95f_0d00_50d8_ca81nat);
    assert(0x2f0_5180nat * 0x2f0_5180 == 0x8_a2de_e9f2_4000);
    assert(0x8_a2de_e9f2_4000nat * 0x8_a2de_e9f2_4000 == 0x4a_958d_8155_2ef1_ddbd_1000_0000nat);
    assert(0x4a_958d_8155_2ef1_ddbd_1000_0000nat * 0x2f0_5180 == 0xdb2f_0e48_76e6_84ed_5b76_b098_0000_0000nat);
    assert(0x2f0_9580nat * 0x2f0_9580 == 0x8_a46e_a74e_4000);
    assert(0x8_a46e_a74e_4000nat * 0x8_a46e_a74e_4000 == 0x4a_b088_6b14_7696_2f6b_1000_0000nat);
    assert(0x4a_b088_6b14_7696_2f6b_1000_0000nat * 0x2f0_9580 == 0xdb92_2ed2_36a4_cc6b_ff30_05d8_0000_0000nat);
    assert(0xdb2f_0e48_76e6_84ed_5b76_b098_0000_0000nat * 0x15d_5c09_8741_6139_2178_92b9_bce5_5f46_89a2_dd05_b95f_0d00_50d8_ca81nat == 0x12b_1df3_8a61_6e42_d31b_5a5c_4139_38a2_7a87_955a_c609_8a88_711f_4cf6_2e2a_2ba6_8b46_411b_3e66_ec98_0000_0000nat);
    assert(0xdb92_2ed2_36a4_cc6b_ff30_05d8_0000_0000nat * 0x15d_5c09_8741_6139_2178_92b9_bce5_5f46_89a2_dd05_b95f_0d00_50d8_ca81nat == 0x12b_a53a_898d_d9e3_f6ad_0188_6257_0d26_a183_e85e_e2c1_3fc4_ec55_d54e_3197_8a32_80aa_841f_ea0f_61d8_0000_0000nat);
    assert(0xc35nat * 0x2000_0000_0000_0000_0000_0000_0000_0000nat == 0x186_a000_0000_0000_0000_0000_0000_0000_0000nat);
    assert(0xc447_e3d2_7c49_1c6e_cdf5_53b9_cfa6_55c9_edd0_87d6_e6db_e76f_9a91nat * 0x186_a000_0000_0000_0000_0000_0000_0000_0000nat == 0x12b_8032_010c_e50f_0293_0476_e166_792e_a73e_8051_464a_034c_04ab_3980_a000_0000_0000_0000_0000_0000_0000_0000nat);
    lemma_near_above(
        0x3e96_7d80, 0x96_7d80, 124, 0x200, 0x186_a000_0000_0000_0000_0000_0000_0000_0000nat, 147,
        161525, 0xe_f8d4_2d0d_b7cd,
        0xe0_2910_b4a5_552f_6ee2_40c8_ba29nat,
        0x45_2c59_9066_9ca1, 0x12b0_eff6_c049_6d6d_d948_5020_9d41nat,
        0x2f0_5180, 0x8_a2de_e9f2_4000, 0x4a_958d_8155_2ef1_ddbd_1000_0000nat,
        0x2f0_9580, 0x8_a46e_a74e_4000, 0x4a_b088_6b14_7696_2f6b_1000_0000nat,
    );
}

/// The value 0x3e98_c0d2.
proof fn lemma_at_3e98c0d2()
    ensures
        chord_code(0x3e98_c0d2, 0x3e95_5e8d, 0x3e9d_5e8d, 0x4313_8132, 0x4317_0a33) == 148,
{
    reveal(chord_code);
    lemma2_to64();
    lemma2_to64_rest();
    lemma_high_powers();
    assert(0x9d_5e8d * 0x1 - 0x95_5e8d * 0x1 == 0x8_0000);
    lemma_sum_known(0x3e9d_5e8d, 0x3e95_5e8d, true, 0x9d_5e8d, 124, 0x95_5e8d, 124, 0x1, 0x1, 0x8_0000, 20, 0x8_0000, 0x10);
    assert(sub_spec(0x3e9d_5e8d, 0x3e95_5e8d) == 0x3c80_0000);
    assert(0x98_c0d2 * 0x1 - 0x95_5e8d * 0x1 == 0x3_6245);
    lemma_sum_known(0x3e98_c0d2, 0x3e95_5e8d, true, 0x98_c0d2, 124, 0x95_5e8d, 124, 0x1, 0x1, 0x3_6245, 18, 0x2_0000, 0x40);
    assert(sub_spec(0x3e98_c0d2, 0x3e95_5e8d) == 0x3bd8_9140);
    assert(0x97_0a33 * 0x1 - 0x93_8132 * 0x1 == 0x3_8901);
    lemma_sum_known(0x4317_0a33, 0x4313_8132, true, 0x97_0a33, 133, 0x93_8132, 133, 0x1, 0x1, 0x3_8901, 18, 0x2_0000, 0x40);
    assert(sub_spec(0x4317_0a33, 0x4313_8132) == 0x4062_4040);
    assert(0xe2_4040 * 0xd8_9140 == 0xbf66_94f4_5000);
    lemma_product_known(0x4062_4040, 0x3bd8_9140, 0xe2_4040, 127, 0xd8_9140, 118, 0xbf66_94f4_5000, 48, 0x8000_0000_0000, 0x100_0000);
    assert(mul_spec(0x4062_4040, 0x3bd8_9140) == 0x3cbf_6695);
    assert(0xbf_6695 * 0x1_0000_0000_0000_0000 == 0x1_7ecd_2a00_0000_0000 * 0x80_0000 + 0x0);
    lemma_quotient_known(0x3cbf_6695, 0x3c80_0000, 0xbf_6695, 120, 0x80_0000, 120, 0x1_7ecd_2a00_0000_0000, 0x0, 66, 0x2_0000_0000_0000_0000, 0x400_0000_0000);
    assert(div_spec(0x3cbf_6695, 0x3c80_0000) == 0x3fbf_6695);
    assert(0x93_8132 * 0x80 + 0xbf_6695 * 0x1 == 0x4a7f_ff95);
    lemma_sum_known(0x4313_8132, 0x3fbf_6695, false, 0x93_8132, 133, 0xbf_6695, 126, 0x80, 0x1, 0x4a7f_ff95, 31, 0x4000_0000, 0x80);
    assert(add_spec(0x4313_8132, 0x3fbf_6695) == 0x4314_ffff);
    lemma_whole_known(0x4314_ffff, 0x94_ffff, 133, 0x1_0000);
}

/// The value 0x3e98_c0d3.
proof fn lemma_at_3e98c0d3()
    ensures
        chord_code(0x3e98_c0d3, 0x3e95_5e8d, 0x3e9d_5e8d, 0x4313_8132, 0x4317_0a33) == 149,
{
    reveal(chord_code);
    lemma2_to64();
    lemma2_to64_rest();
    lemma_high_powers();
    assert(0x9d_5e8d * 0x1 - 0x95_5e8d * 0x1 == 0x8_0000);
    lemma_sum_known(0x3e9d_5e8d, 0x3e95_5e8d, true, 0x9d_5e8d, 124, 0x95_5e8d, 124, 0x1, 0x1, 0x8_0000, 20, 0x8_0000, 0x10);
    assert(sub_spec(0x3e9d_5e8d, 0x3e95_5e8d) == 0x3c80_0000);
    assert(0x98_c0d3 * 0x1 - 0x95_5e8d * 0x1 == 0x3_6246);
    lemma_sum_known(0x3e98_c0d3, 0x3e95_5e8d, true, 0x98_c0d3, 124, 0x95_5e8d, 124, 0x1, 0x1, 0x3_6246, 18, 0x2_0000, 0x40);
    assert(sub_spec(0x3e98_c0d3, 0x3e95_5e8d) == 0x3bd8_9180);
    assert(0x97_0a33 * 0x1 - 0x93_8132 * 0x1 == 0x3_8901);
    lemma_sum_known(0x4317_0a33, 0x4313_8132, true, 0x97_0a33, 133, 0x93_8132, 133, 0x1, 0x1, 0x3_8901, 18, 0x2_0000, 0x40);
    assert(sub_spec(0x4317_0a33, 0x4313_8132) == 0x4062_4040);
    assert(0xe2_4040 * 0xd8_9180 == 0xbf66_cd84_6000);
    lemma_product_known(0x4062_4040, 0x3bd8_9180, 0xe2_4040, 127, 0xd8_9180, 118, 0xbf66_cd84_6000, 48, 0x8000_0000_0000, 0x100_0000);
    assert(mul_spec(0x4062_4040, 0x3bd8_9180) == 0x3cbf_66ce);
    assert(0xbf_66ce * 0x1_0000_0000_0000_0000 == 0x1_7ecd_9c00_0000_0000 * 0x80_0000 + 0x0);
    lemma_quotient_known(0x3cbf_66ce, 0x3c80_0000, 0xbf_66ce, 120, 0x80_0000, 120, 0x1_7ecd_9c00_0000_0000, 0x0, 66, 0x2_0000_0000_0000_0000, 0x400_0000_0000);
    assert(div_spec(0x3cbf_66ce, 0x3c80_0000) == 0x3fbf_66ce);
    assert(0x93_8132 * 0x80 + 0xbf_66ce * 0x1 == 0x4a7f_ffce);
    lemma_sum_known(0x4313_8132, 0x3fbf_66ce, false, 0x93_8132, 133, 0xbf_66ce, 126, 0x80, 0x1, 0x4a7f_ffce, 31, 0x4000_0000, 0x80);
    assert(add_spec(0x4313_8132, 0x3fbf_66ce) == 0x4315_0000);
    lemma_whole_known(0x4315_0000, 0x95_0000, 133, 0x1_0000);
}

/// The edge of code 148.
proof fn lemma_near_148()
    ensures
        near_exact_edge(0x3e98_c0d2, 148),
{
    lemma2_to64();
    lemma2_to64_rest();
    lemma_fifth_powers_of_two();
    lemma_more_fifth_powers_of_two();
    assert(162525nat * 162525 * 162525 == 0xf_4075_1d5a_1185);
    assert(269025nat * 269025 * 269025 == 0x45_2c59_9066_9ca1);
    assert(0xf_4075_1d5a_1185nat * 0xf_4075_1d5a_1185 == 0xe8_9df4_34ce_ee0a_0b3a_74b6_ef19nat);
    assert(0xe8_9df4_34ce_ee0a_0b3a_74b6_ef19nat * 0xe8_9df4_34ce_ee0a_0b3a_74b6_ef19nat == 0xd35e_ac15_28c9_f787_26d6_b038_ba10_2b46_4a79_fa9a_c8bb_7edb_b071nat);
    assert(0x45_2c59_9066_9ca1nat * 0x45_2c59_9066_9ca1 == 0x12b0_eff6_c049_6d6d_d948_5020_9d41nat);
    assert(0x12b0_eff6_c049_6d6d_d948_5020_9d41nat * 0x12b0_eff6_c049_6d6d_d948_5020_9d41nat == 0x15d_5c09_8741_6139_2178_92b9_bce5_5f46_89a2_dd05_b95f_0d00_50d8_ca81nat);
    assert(0x2fb_a21anat * 0x2fb_a21a == 0x8_e5df_ada0_eaa4);
    assert(0x8_e5df_ada0_eaa4nat * 0x8_e5df_ada0_eaa4 == 0x4f_2c64_ca20_8225_13ff_cc10_3910nat);
    assert(0x4f_2c64_ca20_8225_13ff_cc10_3910nat * 0x2fb_a21a == 0xec2b_7288_b908_fe2b_49d1_1b77_1071_eba0nat);
    assert(0x2fb_e61anat * 0x2fb_e61a == 0x8_e775_6dce_baa4);
    assert(0x8_e775_6dce_baa4nat * 0x8_e775_6dce_baa4 == 0x4f_489b_fef4_4d24_43c8_9002_b910nat);
    assert(0x4f_489b_fef4_4d24_43c8_9002_b910nat * 0x2fb_e61a == 0xec94_ac3a_6909_4d34_715a_4bde_a53b_2ba0nat);
    assert(0xec2b_7288_b908_fe2b_49d1_1b77_1071_eba0nat * 0x15d_5c09_8741_6139_2178_92b9_bce5_5f46_89a2_dd05_b95f_0d00_50d8_ca81nat == 0x142_4c23_8bdb_a4af_96e9_fd7b_98b0_54c4_cb7b_dced_5ef7_a646_e801_397f_d16b_bb91_9207_1096_6cfb_63b9_fc53_fba0nat);
    assert(0xec94_ac3a_6909_4d34_715a_4bde_a53b_2ba0nat * 0x15d_5c09_8741_6139_2178_92b9_bce5_5f46_89a2_dd05_b95f_0d00_50d8_ca81nat == 0x142_dbbd_07bf_0fe6_f314_bd0b_bc88_c262_267e_8cf5_f7ef_04ad_11b5_b565_1b4a_9ae8_f939_80c3_c772_f120_c23d_3ba0nat);
    assert(0xc35nat * 0x2000_0000_0000_0000_0000_0000_0000_0000nat == 0x186_a000_0000_0000_0000_0000_0000_0000_0000nat);
    assert(0xd35e_ac15_28c9_f787_26d6_b038_ba10_2b46_4a79_fa9a_c8bb_7edb_b071nat * 0x186_a000_0000_0000_0000_0000_0000_0000_0000nat == 0x142_8655_53c9_5d2d_5299_a356_a48e_e8ec_0821_6460_046e_8b18_71f8_1a6c_a000_0000_0000_0000_0000_0000_0000_0000nat);
    lemma_near_above(
        0x3e98_c0d2, 0x98_c0d2, 124, 0x200, 0x186_a000_0000_0000_0000_0000_0000_0000_0000nat, 148,
        162525, 0xf_4075_1d5a_1185,
        0xe8_9df4_34ce_ee0a_0b3a_74b6_ef19nat,
        0x45_2c59_9066_9ca1, 0x12b0_eff6_c049_6d6d_d948_5020_9d41nat,
        0x2fb_a21a, 0x8_e5df_ada0_eaa4, 0x4f_2c64_ca20_8225_13ff_cc10_3910nat,
        0x2fb_e61a, 0x8_e775_6dce_baa4, 0x4f_489b_fef4_4d24_43c8_9002_b910nat,
    );
}

/// The value 0x3e9b_0424.
proof fn lemma_at_3e9b0424()
    ensures
        chord_code(0x3e9b_0424, 0x3e95_5e8d, 0x3e9d_5e8d, 0x4313_8132, 0x4317_0a33) == 149,
{
    reveal(chord_code);
    lemma2_to64();
    lemma2_to64_rest();
    lemma_high_powers();
    assert(0x9d_5e8d * 0x1 - 0x95_5e8d * 0x1 == 0x8_0000);
    lemma_sum_known(0x3e9d_5e8d, 0x3e95_5e8d, true, 0x9d_5e8d, 124, 0x95_5e8d, 124, 0x1, 0x1, 0x8_0000, 20, 0x8_0000, 0x10);
    assert(sub_spec(0x3e9d_5e8d, 0x3e95_5e8d) == 0x3c80_0000);
    assert(0x9b_0424 * 0x1 - 0x95_5e8d * 0x1 == 0x5_a597);
    lemma_sum_known(0x3e9b_0424, 0x3e95_5e8d, true, 0x9b_0424, 124, 0x95_5e8d, 124, 0x1, 0x1, 0x5_a597, 19, 0x4_0000, 0x20);
    assert(sub_spec(0x3e9b_0424, 0x3e95_5e8d) == 0x3c34_b2e0);
    assert(0x97_0a33 * 0x1 - 0x93_8132 * 0x1 == 0x3_8901);
    lemma_sum_known(0x4317_0a33, 0x4313_8132, true, 0x97_0a33, 133, 0x93_8132, 133, 0x1, 0x1, 0x3_8901, 18, 0x2_0000, 0x40);
    assert(sub_spec(0x4317_0a33, 0x4313_8132) == 0x4062_4040);
    assert(0xe2_4040 * 0xb4_b2e0 == 0x9fb3_43a4_b800);
    lemma_product_known(0x4062_4040, 0x3c34_b2e0, 0xe2_4040, 127, 0xb4_b2e0, 119, 0x9fb3_43a4_b800, 48, 0x8000_0000_0000, 0x100_0000);
    assert(mul_spec(0x4062_4040, 0x3c34_b2e0) == 0x3d1f_b344);
    assert(0x9f_b344 * 0x1_0000_0000_0000_0000 == 0x1_3f66_8800_0000_0000 * 0x80_0000 + 0x0);
    lemma_quotient_known(0x3d1f_b344, 0x3c80_0000, 0x9f_b344, 121, 0x80_0000, 120, 0x1_3f66_8800_0000_0000, 0x0, 66, 0x2_0000_0000_0000_0000, 0x400_0000_0000);
    assert(div_spec(0x3d1f_b344, 0x3c80_0000) == 0x401f_b344);
    assert(0x93_8132 * 0x40 + 0x9f_b344 * 0x1 == 0x257f_ffc4);
    lemma_sum_known(0x4313_8132, 0x401f_b344, false, 0x93_8132, 133, 0x9f_b344, 127, 0x40, 0x1, 0x257f_ffc4, 30, 0x2000_0000, 0x40);
    assert(add_spec(0x4313_8132, 0x401f_b344) == 0x4315_ffff);
    lemma_whole_known(0x4315_ffff, 0x95_ffff, 133, 0x1_0000);
}

/// The value 0x3e9b_0425.
proof fn lemma_at_3e9b0425()
    ensures
        chord_code(0x3e9b_0425, 0x3e95_5e8d, 0x3e9d_5e8d, 0x4313_8132, 0x4317_0a33) == 150,
{
    reveal(chord_code);
    lemma2_to64();
    lemma2_to64_rest();
    lemma_high_powers();
    assert(0x9d_5e8d * 0x1 - 0x95_5e8d * 0x1 == 0x8_0000);
    lemma_sum_known(0x3e9d_5e8d, 0x3e95_5e8d, true, 0x9d_5e8d, 124, 0x95_5e8d, 124, 0x1, 0x1, 0x8_0000, 20, 0x8_0000, 0x10);
    assert(sub_spec(0x3e9d_5e8d, 0x3e95_5e8d) == 0x3c80_0000);
    assert(0x9b_0425 * 0x1 - 0x95_5e8d * 0x1 == 0x5_a598);
    lemma_sum_known(0x3e9b_0425, 0x3e95_5e8d, true, 0x9b_0425, 124, 0x95_5e8d, 124, 0x1, 0x1, 0x5_a598, 19, 0x4_0000, 0x20);
    assert(sub_spec(0x3e9b_0425, 0x3e95_5e8d) == 0x3c34_b300);
    assert(0x97_0a33 * 0x1 - 0x93_8132 * 0x1 == 0x3_8901);
    lemma_sum_known(0x4317_0a33, 0x4313_8132, true, 0x97_0a33, 133, 0x93_8132, 133, 0x1, 0x1, 0x3_8901, 18, 0x2_0000, 0x40);
    assert(sub_spec(0x4317_0a33, 0x4313_8132) == 0x4062_4040);
    assert(0xe2_4040 * 0xb4_b300 == 0x9fb3_5fec_c000);
    lemma_product_known(0x4062_4040, 0x3c34_b300, 0xe2_4040, 127, 0xb4_b300, 119, 0x9fb3_5fec_c000, 48, 0x8000_0000_0000, 0x100_0000);
    assert(mul_spec(0x4062_4040, 0x3c34_b300) == 0x3d1f_b360);
    assert(0x9f_b360 * 0x1_0000_0000_0000_0000 == 0x1_3f66_c000_0000_0000 * 0x80_0000 + 0x0);
    lemma_quotient_known(0x3d1f_b360, 0x3c80_0000, 0x9f_b360, 121, 0x80_0000, 120, 0x1_3f66_c000_0000_0000, 0x0, 66, 0x2_0000_0000_0000_0000, 0x400_0000_0000);
    assert(div_spec(0x3d1f_b360, 0x3c80_0000) == 0x401f_b360);
    assert(0x93_8132 * 0x40 + 0x9f_b360 * 0x1 == 0x257f_ffe0);
    lemma_sum_known(0x4313_8132, 0x401f_b360, false, 0x93_8132, 133, 0x9f_b360, 127, 0x40, 0x1, 0x257f_ffe0, 30, 0x2000_0000, 0x40);
    assert(add_spec(0x4313_8132, 0x401f_b360) == 0x4316_0000);
    lemma_whole_known(0x4316_0000, 0x96_0000, 133, 0x1_0000);
}

/// The edge of code 149.
proof fn lemma_near_149()
    ensures
        near_exact_edge(0x3e9b_0424, 149),
{
    lemma2_to64();
    lemma2_to64_rest();
    lemma_fifth_powers_of_two();
    lemma_more_fifth_powers_of_two();
    assert(163525nat * 163525 * 163525 == 0xf_88f9_191e_92bd);
    assert(269025nat * 269025 * 269025 == 0x45_2c59_9066_9ca1);
    assert(0xf_88f9_191e_92bdnat * 0xf_88f9_191e_92bd == 0xf1_567a_8ea7_8dff_3ff9_a268_1f89nat);
    assert(0xf1_567a_8ea7_8dff_3ff9_a268_1f89nat * 0xf1_567a_8ea7_8dff_3ff9_a268_1f89nat == 0xe383_eff7_29fe_352f_997a_37d9_b337_019e_3046_5208_b8c5_0732_7751nat);
    assert(0x45_2c59_9066_9ca1nat * 0x45_2c59_9066_9ca1 == 0x12b0_eff6_c049_6d6d_d948_5020_9d41nat);
    assert(0x12b0_eff6_c049_6d6d_d948_5020_9d41nat * 0x12b0_eff6_c049_6d6d_d948_5020_9d41nat == 0x15d_5c09_8741_6139_2178_92b9_bce5_5f46_89a2_dd05_b95f_0d00_50d8_ca81nat);
    assert(0x306_f2b4nat * 0x306_f2b4 == 0x9_29e0_7e88_ce90);
    assert(0x9_29e0_7e88_ce90nat * 0x9_29e0_7e88_ce90 == 0x53_f8a2_9304_063e_9071_dfac_1100nat);
    assert(0x53_f8a2_9304_063e_9071_dfac_1100nat * 0x306_f2b4 == 0xfe31_579c_ff74_0de4_40d3_77bd_530d_f400nat);
    assert(0x307_36b4nat * 0x307_36b4 == 0x9_2b7c_4188_6e90);
    assert(0x9_2b7c_4188_6e90nat * 0x9_2b7c_4188_6e90 == 0x54_161f_95eb_2836_0c5a_c8c0_1100nat);
    assert(0x54_161f_95eb_2836_0c5a_c8c0_1100nat * 0x307_36b4 == 0xfea0_f169_12bb_bf73_1371_93a1_21a1_f400nat);
    assert(0xfe31_579c_ff74_0de4_40d3_77bd_530d_f400nat * 0x15d_5c09_8741_6139_2178_92b9_bce5_5f46_89a2_dd05_b95f_0d00_50d8_ca81nat == 0x15a_e4a7_a28d_b1ce_163d_0844_2285_932a_1f59_5ba2_6c83_64bf_9ad4_b1be_12a9_d30b_698f_2bbc_fa21_29f5_bc8f_f400nat);
    assert(0xfea0_f169_12bb_bf73_1371_93a1_21a1_f400nat * 0x15d_5c09_8741_6139_2178_92b9_bce5_5f46_89a2_dd05_b95f_0d00_50d8_ca81nat == 0x15b_7cf4_6d30_b040_a470_987e_9a11_b58a_07ce_f108_cbb2_014a_153d_9124_3608_d408_f33e_a36e_1a93_85a1_9d23_f400nat);
    assert(0xc35nat * 0x2000_0000_0000_0000_0000_0000_0000_0000nat == 0x186_a000_0000_0000_0000_0000_0000_0000_0000nat);
    assert(0xe383_eff7_29fe_352f_997a_37d9_b337_019e_3046_5208_b8c5_0732_7751nat * 0x186_a000_0000_0000_0000_0000_0000_0000_0000nat == 0x15b_2932_0884_7383_e7c1_901d_788f_15ce_d800_694c_ec8e_efa4_1b61_4ff8_a000_0000_0000_0000_0000_0000_0000_0000nat);
    lemma_near_above(
        0x3e9b_0424, 0x9b_0424, 124, 0x200, 0x186_a000_0000_0000_0000_0000_0000_0000_0000nat, 149,
        163525, 0xf_88f9_191e_92bd,
        0xf1_567a_8ea7_8dff_3ff9_a268_1f89nat,
        0x45_2c59_9066_9ca1, 0x12b0_eff6_c049_6d6d_d948_5020_9d41nat,
        0x306_f2b4, 0x9_29e0_7e88_ce90, 0x53_f8a2_9304_063e_9071_dfac_1100nat,
        0x307_36b4, 0x9_2b7c_4188_6e90, 0x54_161f_95eb_2836_0c5a_c8c0_1100nat,
    );
}

/// The value 0x3e9d_4777.
proof fn lemma_at_3e9d4777()
    ensures
        chord_code(0x3e9d_4777, 0x3e95_5e8d, 0x3e9d_5e8d, 0x4313_8132, 0x4317_0a33) == 150,
{
    reveal(chord_code);
    lemma2_to64();
    lemma2_to64_rest();
    lemma_high_powers();
    assert(0x9d_5e8d * 0x1 - 0x95_5e8d * 0x1 == 0x8_0000);
    lemma_sum_known(0x3e9d_5e8d, 0x3e95_5e8d, true, 0x9d_5e8d, 124, 0x95_5e8d, 124, 0x1, 0x1, 0x8_0000, 20, 0x8_0000, 0x10);
    assert(sub_spec(0x3e9d_5e8d, 0x3e95_5e8d) == 0x3c80_0000);
    assert(0x9d_4777 * 0x1 - 0x95_5e8d * 0x1 == 0x7_e8ea);
    lemma_sum_known(0x3e9d_4777, 0x3e95_5e8d, true, 0x9d_4777, 124, 0x95_5e8d, 124, 0x1, 0x1, 0x7_e8ea, 19, 0x4_0000, 0x20);
    assert(sub_spec(0x3e9d_4777, 0x3e95_5e8d) == 0x3c7d_1d40);
    assert(0x97_0a33 * 0x1 - 0x93_8132 * 0x1 == 0x3_8901);
    lemma_sum_known(0x4317_0a33, 0x4313_8132, true, 0x97_0a33, 133, 0x93_8132, 133, 0x1, 0x1, 0x3_8901, 18, 0x2_0000, 0x40);
    assert(sub_spec(0x4317_0a33, 0x4313_8132) == 0x4062_4040);
    assert(0xe2_4040 * 0xfd_1d40 == 0xdfb3_5917_5000);
    lemma_product_known(0x4062_4040, 0x3c7d_1d40, 0xe2_4040, 127, 0xfd_1d40, 119, 0xdfb3_5917_5000, 48, 0x8000_0000_0000, 0x100_0000);
    assert(mul_spec(0x4062_4040, 0x3c7d_1d40) == 0x3d5f_b359);
    assert(0xdf_b359 * 0x1_0000_0000_0000_0000 == 0x1_bf66_b200_0000_0000 * 0x80_0000 + 0x0);
    lemma_quotient_known(0x3d5f_b359, 0x3c80_0000, 0xdf_b359, 121, 0x80_0000, 120, 0x1_bf66_b200_0000_0000, 0x0, 66, 0x2_0000_0000_0000_0000, 0x400_0000_0000);
    assert(div_spec(0x3d5f_b359, 0x3c80_0000) == 0x405f_b359);
    assert(0x93_8132 * 0x40 + 0xdf_b359 * 0x1 == 0x25bf_ffd9);
    lemma_sum_known(0x4313_8132, 0x405f_b359, false, 0x93_8132, 133, 0xdf_b359, 127, 0x40, 0x1, 0x25bf_ffd9, 30, 0x2000_0000, 0x40);
    assert(add_spec(0x4313_8132, 0x405f_b359) == 0x4316_ffff);
    lemma_whole_known(0x4316_ffff, 0x96_ffff, 133, 0x1_0000);
}

/// The value 0x3e9d_4778.
proof fn lemma_at_3e9d4778()
    ensures
        chord_code(0x3e9d_4778, 0x3e95_5e8d, 0x3e9d_5e8d, 0x4313_8132, 0x4317_0a33) == 151,
{
    reveal(chord_code);
    lemma2_to64();
    lemma2_to64_rest();
    lemma_high_powers();
    assert(0x9d_5e8d * 0x1 - 0x95_5e8d * 0x1 == 0x8_0000);
    lemma_sum_known(0x3e9d_5e8d, 0x3e95_5e8d, true, 0x9d_5e8d, 124, 0x95_5e8d, 124, 0x1, 0x1, 0x8_0000, 20, 0x8_0000, 0x10);
    assert(sub_spec(0x3e9d_5e8d, 0x3e95_5e8d) == 0x3c80_0000);
    assert(0x9d_4778 * 0x1 - 0x95_5e8d * 0x1 == 0x7_e8eb);
    lemma_sum_known(0x3e9d_4778, 0x3e95_5e8d, true, 0x9d_4778, 124, 0x95_5e8d, 124, 0x1, 0x1, 0x7_e8eb, 19, 0x4_0000, 0x20);
    assert(sub_spec(0x3e9d_4778, 0x3e95_5e8d) == 0x3c7d_1d60);
    assert(0x97_0a33 * 0x1 - 0x93_8132 * 0x1 == 0x3_8901);
    lemma_sum_known(0x4317_0a33, 0x4313_8132, true, 0x97_0a33, 133, 0x93_8132, 133, 0x1, 0x1, 0x3_8901, 18, 0x2_0000, 0x40);
    assert(sub_spec(0x4317_0a33, 0x4313_8132) == 0x4062_4040);
    assert(0xe2_4040 * 0xfd_1d60 == 0xdfb3_755f_5800);
    lemma_product_known(0x4062_4040, 0x3c7d_1d60, 0xe2_4040, 127, 0xfd_1d60, 119, 0xdfb3_755f_5800, 48, 0x8000_0000_0000, 0x100_0000);
    assert(mul_spec(0x4062_4040, 0x3c7d_1d60) == 0x3d5f_b375);
    assert(0xdf_b375 * 0x1_0000_0000_0000_0000 == 0x1_bf66_ea00_0000_0000 * 0x80_0000 + 0x0);
    lemma_quotient_known(0x3d5f_b375, 0x3c80_0000, 0xdf_b375, 121, 0x80_0000, 120, 0x1_bf66_ea00_0000_0000, 0x0, 66, 0x2_0000_0000_0000_0000, 0x400_0000_0000);
    assert(div_spec(0x3d5f_b375, 0x3c80_0000) == 0x405f_b375);
    assert(0x93_8132 * 0x40 + 0xdf_b375 * 0x1 == 0x25bf_fff5);
    lemma_sum_known(0x4313_8132, 0x405f_b375, false, 0x93_8132, 133, 0xdf_b375, 127, 0x40, 0x1, 0x25bf_fff5, 30, 0x2000_0000, 0x40);
    assert(add_spec(0x4313_8132, 0x405f_b375) == 0x4317_0000);
    lemma_whole_known(0x4317_0000, 0x97_0000, 133, 0x1_0000);
}

/// The edge of code 150.
proof fn lemma_near_150()
    ensures
        near_exact_edge(0x3e9d_4777, 150),
{
    lemma2_to64();
    lemma2_to64_rest();
    lemma_fifth_powers_of_two();
    lemma_more_fifth_powers_of_two();
    assert(164525nat * 164525 * 164525 == 0xf_d261_85fb_f775);
    assert(269025nat * 269025 * 269025 == 0x45_2c59_9066_9ca1);
    assert(0xf_d261_85fb_f775nat * 0xf_d261_85fb_f775 == 0xfa_5451_d87f_30c3_41c8_c0a0_fb79nat);
    assert(0xfa_5451_d87f_30c3_41c8_c0a0_fb79nat * 0xfa_5451_d87f_30c3_41c8_c0a0_fb79nat == 0xf4c8_cba0_a8a9_6cf0_5c4e_83e6_8b11_e3a1_14d9_c684_3d80_ce46_7f31nat);
    assert(0x45_2c59_9066_9ca1nat * 0x45_2c59_9066_9ca1 == 0x12b0_eff6_c049_6d6d_d948_5020_9d41nat);
    assert(0x12b0_eff6_c049_6d6d_d948_5020_9d41nat * 0x12b0_eff6_c049_6d6d_d948_5020_9d41nat == 0x15d_5c09_8741_6139_2178_92b9_bce5_5f46_89a2_dd05_b95f_0d00_50d8_ca81nat);
    assert(0x312_4353nat * 0x312_4353 == 0x9_6ee1_7b60_8ce9);
    assert(0x9_6ee1_7b60_8ce9nat * 0x9_6ee1_7b60_8ce9 == 0x58_fbe1_396a_fca7_d963_e24f_ac11nat);
    assert(0x58_fbe1_396a_fca7_d963_e24f_ac11nat * 0x312_4353 == 0x1_114c_c047_e688_5929_4cfd_783b_860f_3c83nat);
    assert(0x312_8753nat * 0x312_8753 == 0x9_7083_4134_a4e9);
    assert(0x9_7083_4134_a4e9nat * 0x9_7083_4134_a4e9 == 0x59_1aad_b20d_752a_6d07_bae3_5c11nat);
    assert(0x59_1aad_b20d_752a_6d07_bae3_5c11nat * 0x312_8753 == 0x1_11c3_0341_ec87_8f69_1dfc_3b20_2975_d083nat);
    assert(0x1_114c_c047_e688_5929_4cfd_783b_860f_3c83nat * 0x15d_5c09_8741_6139_2178_92b9_bce5_5f46_89a2_dd05_b95f_0d00_50d8_ca81nat == 0x174_f7e3_e337_26ef_77a5_0b12_94b3_ed96_d93b_e795_8a9f_1535_7adf_6f8b_be8e_77a3_9079_bdbf_be66_148a_91f4_dc03nat);
    assert(0x1_11c3_0341_ec87_8f69_1dfc_3b20_2975_d083nat * 0x15d_5c09_8741_6139_2178_92b9_bce5_5f46_89a2_dd05_b95f_0d00_50d8_ca81nat == 0x175_9947_b68a_0454_1e87_056b_0c2a_57ec_6b8a_9627_8d67_cdb6_d49f_779f_fb9f_2b48_91a2_a6fe_1a0c_9f7c_b96d_7003nat);
    assert(0xc35nat * 0x2000_0000_0000_0000_0000_0000_0000_0000nat == 0x186_a000_0000_0000_0000_0000_0000_0000_0000nat);
    assert(0xf4c8_cba0_a8a9_6cf0_5c4e_83e6_8b11_e3a1_14d9_c684_3d80_ce46_7f31nat * 0x186_a000_0000_0000_0000_0000_0000_0000_0000nat == 0x175_82e3_b605_5b85_da42_d94e_03a7_f42b_f5aa_70cc_8988_58aa_c051_d424_a000_0000_0000_0000_0000_0000_0000_0000nat);
    lemma_near_above(
        0x3e9d_4777, 0x9d_4777, 124, 0x200, 0x186_a000_0000_0000_0000_0000_0000_0000_0000nat, 150,
        164525, 0xf_d261_85fb_f775,
        0xfa_5451_d87f_30c3_41c8_c0a0_fb79nat,
        0x45_2c59_9066_9ca1, 0x12b0_eff6_c049_6d6d_d948_5020_9d41nat,
        0x312_4353, 0x9_6ee1_7b60_8ce9, 0x58_fbe1_396a_fca7_d963_e24f_ac11nat,
        0x312_8753, 0x9_7083_4134_a4e9, 0x59_1aad_b20d_752a_6d07_bae3_5c11nat,
    );
}

/// The value 0x3e9f_9a64.
proof fn lemma_at_3e9f9a64()
    ensures
        chord_code(0x3e9f_9a64, 0x3e9d_5e8d, 0x3ea5_5e8d, 0x4317_0a33, 0x431a_7a82) == 151,
{
    reveal(chord_code);
    lemma2_to64();
    lemma2_to64_rest();
    lemma_high_powers();
    assert(0xa5_5e8d * 0x1 - 0x9d_5e8d * 0x1 == 0x8_0000);
    lemma_sum_known(0x3ea5_5e8d, 0x3e9d_5e8d, true, 0xa5_5e8d, 124, 0x9d_5e8d, 124, 0x1, 0x1, 0x8_0000, 20, 0x8_0000, 0x10);
    assert(sub_spec(0x3ea5_5e8d, 0x3e9d_5e8d) == 0x3c80_0000);
    assert(0x9f_9a64 * 0x1 - 0x9d_5e8d * 0x1 == 0x2_3bd7);
    lemma_sum_known(0x3e9f_9a64, 0x3e9d_5e8d, true, 0x9f_9a64, 124, 0x9d_5e8d, 124, 0x1, 0x1, 0x2_3bd7, 18, 0x2_0000, 0x40);
    assert(sub_spec(0x3e9f_9a64, 0x3e9d_5e8d) == 0x3b8e_f5c0);
    assert(0x9a_7a82 * 0x1 - 0x97_0a33 * 0x1 == 0x3_704f);
    lemma_sum_known(0x431a_7a82, 0x4317_0a33, true, 0x9a_7a82, 133, 0x97_0a33, 133, 0x1, 0x1, 0x3_704f, 18, 0x2_0000, 0x40);
    assert(sub_spec(0x431a_7a82, 0x4317_0a33) == 0x405c_13c0);
    assert(0xdc_13c0 * 0x8e_f5c0 == 0x7ae6_3875_9000);
    lemma_product_known(0x405c_13c0, 0x3b8e_f5c0, 0xdc_13c0, 127, 0x8e_f5c0, 118, 0x7ae6_3875_9000, 47, 0x4000_0000_0000, 0x80_0000);
    assert(mul_spec(0x405c_13c0, 0x3b8e_f5c0) == 0x3c75_cc71);
    assert(0xf5_cc71 * 0x1_0000_0000_0000_0000 == 0x1_eb98_e200_0000_0000 * 0x80_0000 + 0x0);
    lemma_quotient_known(0x3c75_cc71, 0x3c80_0000, 0xf5_cc71, 119, 0x80_0000, 120, 0x1_eb98_e200_0000_0000, 0x0, 66, 0x2_0000_0000_0000_0000, 0x400_0000_0000);
    assert(div_spec(0x3c75_cc71, 0x3c80_0000) == 0x3f75_cc71);
    assert(0x97_0a33 * 0x100 + 0xf5_cc71 * 0x1 == 0x97ff_ff71);
    lemma_sum_known(0x4317_0a33, 0x3f75_cc71, false, 0x97_0a33, 133, 0xf5_cc71, 125, 0x100, 0x1, 0x97ff_ff71, 32, 0x8000_0000, 0x100);
    assert(add_spec(0x4317_0a33, 0x3f75_cc71) == 0x4317_ffff);
    lemma_whole_known(0x4317_ffff, 0x97_ffff, 133, 0x1_0000);
}

/// The value 0x3e9f_9a65.
proof fn lemma_at_3e9f9a65()
    ensures
        chord_code(0x3e9f_9a65, 0x3e9d_5e8d, 0x3ea5_5e8d, 0x4317_0a33, 0x431a_7a82) == 152,
{
    reveal(chord_code);
    lemma2_to64();
    lemma2_to64_rest();
    lemma_high_powers();
    assert(0xa5_5e8d * 0x1 - 0x9d_5e8d * 0x1 == 0x8_0000);
    lemma_sum_known(0x3ea5_5e8d, 0x3e9d_5e8d, true, 0xa5_5e8d, 124, 0x9d_5e8d, 124, 0x1, 0x1, 0x8_0000, 20, 0x8_0000, 0x10);
    assert(sub_spec(0x3ea5_5e8d, 0x3e9d_5e8d) == 0x3c80_0000);
    assert(0x9f_9a65 * 0x1 - 0x9d_5e8d * 0x1 == 0x2_3bd8);
    lemma_sum_known(0x3e9f_9a65, 0x3e9d_5e8d, true, 0x9f_9a65, 124, 0x9d_5e8d, 124, 0x1, 0x1, 0x2_3bd8, 18, 0x2_0000, 0x40);
    assert(sub_spec(0x3e9f_9a65, 0x3e9d_5e8d) == 0x3b8e_f600);
    assert(0x9a_7a82 * 0x1 - 0x97_0a33 * 0x1 == 0x3_704f);
    lemma_sum_known(0x431a_7a82, 0x4317_0a33, true, 0x9a_7a82, 133, 0x97_0a33, 133, 0x1, 0x1, 0x3_704f, 18, 0x2_0000, 0x40);
    assert(sub_spec(0x431a_7a82, 0x4317_0a33) == 0x405c_13c0);
    assert(0xdc_13c0 * 0x8e_f600 == 0x7ae6_6f7a_8000);
    lemma_product_known(0x405c_13c0, 0x3b8e_f600, 0xdc_13c0, 127, 0x8e_f600, 118, 0x7ae6_6f7a_8000, 47, 0x4000_0000_0000, 0x80_0000);
    assert(mul_spec(0x405c_13c0, 0x3b8e_f600) == 0x3c75_ccdf);
    assert(0xf5_ccdf * 0x1_0000_0000_0000_0000 == 0x1_eb99_be00_0000_0000 * 0x80_0000 + 0x0);
    lemma_quotient_known(0x3c75_ccdf, 0x3c80_0000, 0xf5_ccdf, 119, 0x80_0000, 120, 0x1_eb99_be00_0000_0000, 0x0, 66, 0x2_0000_0000_0000_0000, 0x400_0000_0000);
    assert(div_spec(0x3c75_ccdf, 0x3c80_0000) == 0x3f75_ccdf);
    assert(0x97_0a33 * 0x100 + 0xf5_ccdf * 0x1 == 0x97ff_ffdf);
    lemma_sum_known(0x4317_0a33, 0x3f75_ccdf, false, 0x97_0a33, 133, 0xf5_ccdf, 125, 0x100, 0x1, 0x97ff_ffdf, 32, 0x8000_0000, 0x100);
    assert(add_spec(0x4317_0a33, 0x3f75_ccdf) == 0x4318_0000);
    lemma_whole_known(0x4318_0000, 0x98_0000, 133, 0x1_0000);
}

/// The edge of code 151.
proof fn lemma_near_151()
    ensures
        near_exact_edge(0x3e9f_9a64, 151),
{
    lemma2_to64();
    lemma2_to64_rest();
    lemma_fifth_powers_of_two();
    lemma_more_fifth_powers_of_two();
    assert(165525nat * 165525 * 165525 == 0x10_1caf_c992_fbad);
    assert(269025nat * 269025 * 269025 == 0x45_2c59_9066_9ca1);
    assert(0x10_1caf_c992_fbadnat * 0x10_1caf_c992_fbad == 0x103_9930_1f2c_d25a_121f_b2c0_b2e9nat);
    assert(0x103_9930_1f2c_d25a_121f_b2c0_b2e9nat * 0x103_9930_1f2c_d25a_121f_b2c0_b2e9nat == 0x1_073f_5309_a300_ea4b_1a5f_2da9_2f30_77c8_3c2b_f078_a246_de88_d811nat);
    assert(0x45_2c59_9066_9ca1nat * 0x45_2c59_9066_9ca1 == 0x12b0_eff6_c049_6d6d_d948_5020_9d41nat);
    assert(0x12b0_eff6_c049_6d6d_d948_5020_9d41nat * 0x12b0_eff6_c049_6d6d_d948_5020_9d41nat == 0x15d_5c09_8741_6139_2178_92b9_bce5_5f46_89a2_dd05_b95f_0d00_50d8_ca81nat);
    assert(0x31d_e1f4nat * 0x31d_e1f4 == 0x9_b6c8_b0b6_d090);
    assert(0x9_b6c8_b0b6_d090nat * 0x9_b6c8_b0b6_d090 == 0x5e_5c9e_6573_324e_8253_36aa_5100nat);
    assert(0x5e_5c9e_6573_324e_8253_36aa_5100nat * 0x31d_e1f4 == 0x1_2619_a279_55c6_8f6e_b070_8a99_f886_3400nat);
    assert(0x31e_25f4nat * 0x31e_25f4 == 0x9_b870_a2d0_7090);
    assert(0x9_b870_a2d0_7090nat * 0x9_b870_a2d0_7090 == 0x5e_7ccd_8e42_69dd_f62d_5b7e_5100nat);
    assert(0x5e_7ccd_8e42_69dd_f62d_5b7e_5100nat * 0x31e_25f4 == 0x1_2697_0ada_1c81_327f_5d86_6534_f41a_3400nat);
    assert(0x1_2619_a279_55c6_8f6e_b070_8a99_f886_3400nat * 0x15d_5c09_8741_6139_2178_92b9_bce5_5f46_89a2_dd05_b95f_0d00_50d8_ca81nat == 0x191_5aae_a816_e1aa_7f30_d1d1_8681_c9b7_e501_b73b_14af_4d81_4e66_452b_b671_655f_8b0c_b344_e24a_f72c_00a8_3400nat);
    assert(0x1_2697_0ada_1c81_327f_5d86_6534_f41a_3400nat * 0x15d_5c09_8741_6139_2178_92b9_bce5_5f46_89a2_dd05_b95f_0d00_50d8_ca81nat == 0x192_05d3_0a33_82ff_05fe_b225_ed78_9c43_bbba_0c61_ff42_5c0c_796b_3cdf_80a0_b21f_a93c_14b2_be2e_eea7_8e3c_3400nat);
    assert(0xc35nat * 0x2000_0000_0000_0000_0000_0000_0000_0000nat == 0x186_a000_0000_0000_0000_0000_0000_0000_0000nat);
    assert(0x1_073f_5309_a300_ea4b_1a5f_2da9_2f30_77c8_3c2b_f078_a246_de88_d811nat * 0x186_a000_0000_0000_0000_0000_0000_0000_0000nat == 0x191_af00_1494_5945_80d9_1d7b_0c47_a154_c5e8_d08b_ce12_9d63_4f8e_b0f0_a000_0000_0000_0000_0000_0000_0000_0000nat);
    lemma_near_above(
        0x3e9f_9a64, 0x9f_9a64, 124, 0x200, 0x186_a000_0000_0000_0000_0000_0000_0000_0000nat, 151,
        165525, 0x10_1caf_c992_fbad,
        0x103_9930_1f2c_d25a_121f_b2c0_b2e9nat,
        0x45_2c59_9066_9ca1, 0x12b0_eff6_c049_6d6d_d948_5020_9d41nat,
        0x31d_e1f4, 0x9_b6c8_b0b6_d090, 0x5e_5c9e_6573_324e_8253_36aa_5100nat,
        0x31e_25f4, 0x9_b870_a2d0_7090, 0x5e_7ccd_8e42_69dd_f62d_5b7e_5100nat,
    );
}

/// The value 0x3ea1_edf6.
proof fn lemma_at_3ea1edf6()
    ensures
        chord_code(0x3ea1_edf6, 0x3e9d_5e8d, 0x3ea5_5e8d, 0x4317_0a33, 0x431a_7a82) == 152,
{
    reveal(chord_code);
    lemma2_to64();
    lemma2_to64_rest();
    lemma_high_powers();
    assert(0xa5_5e8d * 0x1 - 0x9d_5e8d * 0x1 == 0x8_0000);
    lemma_sum_known(0x3ea5_5e8d, 0x3e9d_5e8d, true, 0xa5_5e8d, 124, 0x9d_5e8d, 124, 0x1, 0x1, 0x8_0000, 20, 0x8_0000, 0x10);
    assert(sub_spec(0x3ea5_5e8d, 0x3e9d_5e8d) == 0x3c80_0000);
    assert(0xa1_edf6 * 0x1 - 0x9d_5e8d * 0x1 == 0x4_8f69);
    lemma_sum_known(0x3ea1_edf6, 0x3e9d_5e8d, true, 0xa1_edf6, 124, 0x9d_5e8d, 124, 0x1, 0x1, 0x4_8f69, 19, 0x4_0000, 0x20);
    assert(sub_spec(0x3ea1_edf6, 0x3e9d_5e8d) == 0x3c11_ed20);
    assert(0x9a_7a82 * 0x1 - 0x97_0a33 * 0x1 == 0x3_704f);
    lemma_sum_known(0x431a_7a82, 0x4317_0a33, true, 0x9a_7a82, 133, 0x97_0a33, 133, 0x1, 0x1, 0x3_704f, 18, 0x2_0000, 0x40);
    assert(sub_spec(0x431a_7a82, 0x4317_0a33) == 0x405c_13c0);
    assert(0xdc_13c0 * 0x91_ed20 == 0x7d73_098b_3800);
    lemma_product_known(0x405c_13c0, 0x3c11_ed20, 0xdc_13c0, 127, 0x91_ed20, 119, 0x7d73_098b_3800, 47, 0x4000_0000_0000, 0x80_0000);
    assert(mul_spec(0x405c_13c0, 0x3c11_ed20) == 0x3cfa_e613);
    assert(0xfa_e613 * 0x1_0000_0000_0000_0000 == 0x1_f5cc_2600_0000_0000 * 0x80_0000 + 0x0);
    lemma_quotient_known(0x3cfa_e613, 0x3c80_0000, 0xfa_e613, 120, 0x80_0000, 120, 0x1_f5cc_2600_0000_0000, 0x0, 66, 0x2_0000_0000_0000_0000, 0x400_0000_0000);
    assert(div_spec(0x3cfa_e613, 0x3c80_0000) == 0x3ffa_e613);
    assert(0x97_0a33 * 0x80 + 0xfa_e613 * 0x1 == 0x4c7f_ff93);
    lemma_sum_known(0x4317_0a33, 0x3ffa_e613, false, 0x97_0a33, 133, 0xfa_e613, 126, 0x80, 0x1, 0x4c7f_ff93, 31, 0x4000_0000, 0x80);
    assert(add_spec(0x4317_0a33, 0x3ffa_e613) == 0x4318_ffff);
    lemma_whole_known(0x4318_ffff, 0x98_ffff, 133, 0x1_0000);
}

/// The value 0x3ea1_edf7.
proof fn lemma_at_3ea1edf7()
    ensures
        chord_code(0x3ea1_edf7, 0x3e9d_5e8d, 0x3ea5_5e8d, 0x4317_0a33, 0x431a_7a82) == 153,
{
    reveal(chord_code);
    lemma2_to64();
    lemma2_to64_rest();
    lemma_high_powers();
    assert(0xa5_5e8d * 0x1 - 0x9d_5e8d * 0x1 == 0x8_0000);
    lemma_sum_known(0x3ea5_5e8d, 0x3e9d_5e8d, true, 0xa5_5e8d, 124, 0x9d_5e8d, 124, 0x1, 0x1, 0x8_0000, 20, 0x8_0000, 0x10);
    assert(sub_spec(0x3ea5_5e8d, 0x3e9d_5e8d) == 0x3c80_0000);
    assert(0xa1_edf7 * 0x1 - 0x9d_5e8d * 0x1 == 0x4_8f6a);
    lemma_sum_known(0x3ea1_edf7, 0x3e9d_5e8d, true, 0xa1_edf7, 124, 0x9d_5e8d, 124, 0x1, 0x1, 0x4_8f6a, 19, 0x4_0000, 0x20);
    assert(sub_spec(0x3ea1_edf7, 0x3e9d_5e8d) == 0x3c11_ed40);
    assert(0x9a_7a82 * 0x1 - 0x97_0a33 * 0x1 == 0x3_704f);
    lemma_sum_known(0x431a_7a82, 0x4317_0a33, true, 0x9a_7a82, 133, 0x97_0a33, 133, 0x1, 0x1, 0x3_704f, 18, 0x2_0000, 0x40);
    assert(sub_spec(0x431a_7a82, 0x4317_0a33) == 0x405c_13c0);
    assert(0xdc_13c0 * 0x91_ed40 == 0x7d73_250d_b000);
    lemma_product_known(0x405c_13c0, 0x3c11_ed40, 0xdc_13c0, 127, 0x91_ed40, 119, 0x7d73_250d_b000, 47, 0x4000_0000_0000, 0x80_0000);
    assert(mul_spec(0x405c_13c0, 0x3c11_ed40) == 0x3cfa_e64a);
    assert(0xfa_e64a * 0x1_0000_0000_0000_0000 == 0x1_f5cc_9400_0000_0000 * 0x80_0000 + 0x0);
    lemma_quotient_known(0x3cfa_e64a, 0x3c80_0000, 0xfa_e64a, 120, 0x80_0000, 120, 0x1_f5cc_9400_0000_0000, 0x0, 66, 0x2_0000_0000_0000_0000, 0x400_0000_0000);
    assert(div_spec(0x3cfa_e64a, 0x3c80_0000) == 0x3ffa_e64a);
    assert(0x97_0a33 * 0x80 + 0xfa_e64a * 0x1 == 0x4c7f_ffca);
    lemma_sum_known(0x4317_0a33, 0x3ffa_e64a, false, 0x97_0a33, 133, 0xfa_e64a, 126, 0x80, 0x1, 0x4c7f_ffca, 31, 0x4000_0000, 0x80);
    assert(add_spec(0x4317_0a33, 0x3ffa_e64a) == 0x4319_0000);
    lemma_whole_known(0x4319_0000, 0x99_0000, 133, 0x1_0000);
}

/// The edge of code 152.
proof fn lemma_near_152()
    ensures
        near_exact_edge(0x3ea1_edf6, 152),
{
    lemma2_to64();
    lemma2_to64_rest();
    lemma_fifth_powers_of_two();
    lemma_more_fifth_powers_of_two();
    assert(166525nat * 166525 * 166525 == 0x10_67e5_4984_5b65);
    assert(269025nat * 269025 * 269025 == 0x45_2c59_9066_9ca1);
    assert(0x10_67e5_4984_5b65nat * 0x10_67e5_4984_5b65 == 0x10d_26d3_7f10_8a13_893f_fac8_f5d9nat);
    assert(0x10d_26d3_7f10_8a13_893f_fac8_f5d9nat * 0x10d_26d3_7f10_8a13_893f_fac8_f5d9nat == 0x1_1afa_9e5c_8135_ca61_4379_3757_6e95_1037_766a_edee_60ba_e329_11f1nat);
    assert(0x45_2c59_9066_9ca1nat * 0x45_2c59_9066_9ca1 == 0x12b0_eff6_c049_6d6d_d948_5020_9d41nat);
    assert(0x12b0_eff6_c049_6d6d_d948_5020_9d41nat * 0x12b0_eff6_c049_6d6d_d948_5020_9d41nat == 0x15d_5c09_8741_6139_2178_92b9_bce5_5f46_89a2_dd05_b95f_0d00_50d8_ca81nat);
    assert(0x329_83cenat * 0x329_83ce == 0x9_ffd2_4fd8_79c4);
    assert(0x9_ffd2_4fd8_79c4nat * 0x9_ffd2_4fd8_79c4 == 0x63_fc6e_4510_ea6b_8fc4_acaa_de10nat);
    assert(0x63_fc6e_4510_ea6b_8fc4_acaa_de10nat * 0x329_83ce == 0x1_3c2c_3319_d088_097b_01a4_fc96_21b0_e0e0nat);
    assert(0x329_c7cenat * 0x329_c7ce == 0xa_0180_6fed_e9c4);
    assert(0xa_0180_6fed_e9c4nat * 0xa_0180_6fed_e9c4 == 0x64_1e0a_ffe6_3dfd_79d2_a25e_5e10nat);
    assert(0x64_1e0a_ffe6_3dfd_79d2_a25e_5e10nat * 0x329_c7ce == 0x1_3cb1_14ad_685f_cb7b_e64d_dfed_439e_20e0nat);
    assert(0x1_3c2c_3319_d088_097b_01a4_fc96_21b0_e0e0nat * 0x15d_5c09_8741_6139_2178_92b9_bce5_5f46_89a2_dd05_b95f_0d00_50d8_ca81nat == 0x1af_79ed_5128_6a8d_09f2_3ca8_d496_95ee_4597_31ad_7945_f1e0_f93d_577b_da5b_cbad_ff8d_7fa7_5b30_d1c0_4892_10e0nat);
    assert(0x1_3cb1_14ad_685f_cb7b_e64d_dfed_439e_20e0nat * 0x15d_5c09_8741_6139_2178_92b9_bce5_5f46_89a2_dd05_b95f_0d00_50d8_ca81nat == 0x1b0_2f44_9d61_9956_f824_f641_b530_065a_0401_a2e1_c658_3474_ef57_0913_5732_027c_9cd8_6316_b00c_e59b_959f_50e0nat);
    assert(0xc35nat * 0x2000_0000_0000_0000_0000_0000_0000_0000nat == 0x186_a000_0000_0000_0000_0000_0000_0000_0000nat);
    assert(0x1_1afa_9e5c_8135_ca61_4379_3757_6e95_1037_766a_edee_60ba_e329_11f1nat * 0x186_a000_0000_0000_0000_0000_0000_0000_0000nat == 0x1af_caa9_e3e6_a8b3_eea9_94d6_11c9_1c33_dea1_10e9_4ddc_592a_de8b_005c_a000_0000_0000_0000_0000_0000_0000_0000nat);
    lemma_near_above(
        0x3ea1_edf6, 0xa1_edf6, 124, 0x200, 0x186_a000_0000_0000_0000_0000_0000_0000_0000nat, 152,
        166525, 0x10_67e5_4984_5b65,
        0x10d_26d3_7f10_8a13_893f_fac8_f5d9nat,
        0x45_2c59_9066_9ca1, 0x12b0_eff6_c049_6d6d_d948_5020_9d41nat,
        0x329_83ce, 0x9_ffd2_4fd8_79c4, 0x63_fc6e_4510_ea6b_8fc4_acaa_de10nat,
        0x329_c7ce, 0xa_0180_6fed_e9c4, 0x64_1e0a_ffe6_3dfd_79d2_a25e_5e10nat,
    );
}

/// The value 0x3ea4_4189.
proof fn lemma_at_3ea44189()
    ensures
        chord_code(0x3ea4_4189, 0x3e9d_5e8d, 0x3ea5_5e8d, 0x4317_0a33, 0x431a_7a82) == 153,
{
    reveal(chord_code);
    lemma2_to64();
    lemma2_to64_rest();
    lemma_high_powers();
    assert(0xa5_5e8d * 0x1 - 0x9d_5e8d * 0x1 == 0x8_0000);
    lemma_sum_known(0x3ea5_5e8d, 0x3e9d_5e8d, true, 0xa5_5e8d, 124, 0x9d_5e8d, 124, 0x1, 0x1, 0x8_0000, 20, 0x8_0000, 0x10);
    assert(sub_spec(0x3ea5_5e8d, 0x3e9d_5e8d) == 0x3c80_0000);
    assert(0xa4_4189 * 0x1 - 0x9d_5e8d * 0x1 == 0x6_e2fc);
    lemma_sum_known(0x3ea4_4189, 0x3e9d_5e8d, true, 0xa4_4189, 124, 0x9d_5e8d, 124, 0x1, 0x1, 0x6_e2fc, 19, 0x4_0000, 0x20);
    assert(sub_spec(0x3ea4_4189, 0x3e9d_5e8d) == 0x3c5c_5f80);
    assert(0x9a_7a82 * 0x1 - 0x97_0a33 * 0x1 == 0x3_704f);
    lemma_sum_known(0x431a_7a82, 0x4317_0a33, true, 0x9a_7a82, 133, 0x97_0a33, 133, 0x1, 0x1, 0x3_704f, 18, 0x2_0000, 0x40);
    assert(sub_spec(0x431a_7a82, 0x4317_0a33) == 0x405c_13c0);
    assert(0xdc_13c0 * 0xdc_5f80 == 0xbd73_125e_2000);
    lemma_product_known(0x405c_13c0, 0x3c5c_5f80, 0xdc_13c0, 127, 0xdc_5f80, 119, 0xbd73_125e_2000, 48, 0x8000_0000_0000, 0x100_0000);
    assert(mul_spec(0x405c_13c0, 0x3c5c_5f80) == 0x3d3d_7312);
    assert(0xbd_7312 * 0x1_0000_0000_0000_0000 == 0x1_7ae6_2400_0000_0000 * 0x80_0000 + 0x0);
    lemma_quotient_known(0x3d3d_7312, 0x3c80_0000, 0xbd_7312, 121, 0x80_0000, 120, 0x1_7ae6_2400_0000_0000, 0x0, 66, 0x2_0000_0000_0000_0000, 0x400_0000_0000);
    assert(div_spec(0x3d3d_7312, 0x3c80_0000) == 0x403d_7312);
    assert(0x97_0a33 * 0x40 + 0xbd_7312 * 0x1 == 0x267f_ffd2);
    lemma_sum_known(0x4317_0a33, 0x403d_7312, false, 0x97_0a33, 133, 0xbd_7312, 127, 0x40, 0x1, 0x267f_ffd2, 30, 0x2000_0000, 0x40);
    assert(add_spec(0x4317_0a33, 0x403d_7312) == 0x4319_ffff);
    lemma_whole_known(0x4319_ffff, 0x99_ffff, 133, 0x1_0000);
}

/// The value 0x3ea4_418a.
proof fn lemma_at_3ea4418a()
    ensures
        chord_code(0x3ea4_418a, 0x3e9d_5e8d, 0x3ea5_5e8d, 0x4317_0a33, 0x431a_7a82) == 154,
{
    reveal(chord_code);
    lemma2_to64();
    lemma2_to64_rest();
    lemma_high_powers();
    assert(0xa5_5e8d * 0x1 - 0x9d_5e8d * 0x1 == 0x8_0000);
    lemma_sum_known(0x3ea5_5e8d, 0x3e9d_5e8d, true, 0xa5_5e8d, 124, 0x9d_5e8d, 124, 0x1, 0x1, 0x8_0000, 20, 0x8_0000, 0x10);
    assert(sub_spec(0x3ea5_5e8d, 0x3e9d_5e8d) == 0x3c80_0000);
    assert(0xa4_418a * 0x1 - 0x9d_5e8d * 0x1 == 0x6_e2fd);
    lemma_sum_known(0x3ea4_418a, 0x3e9d_5e8d, true, 0xa4_418a, 124, 0x9d_5e8d, 124, 0x1, 0x1, 0x6_e2fd, 19, 0x4_0000, 0x20);
    assert(sub_spec(0x3ea4_418a, 0x3e9d_5e8d) == 0x3c5c_5fa0);
    assert(0x9a_7a82 * 0x1 - 0x97_0a33 * 0x1 == 0x3_704f);
    lemma_sum_known(0x431a_7a82, 0x4317_0a33, true, 0x9a_7a82, 133, 0x97_0a33, 133, 0x1, 0x1, 0x3_704f, 18, 0x2_0000, 0x40);
    assert(sub_spec(0x431a_7a82, 0x4317_0a33) == 0x405c_13c0);
    assert(0xdc_13c0 * 0xdc_5fa0 == 0xbd73_2de0_9800);
    lemma_product_known(0x405c_13c0, 0x3c5c_5fa0, 0xdc_13c0, 127, 0xdc_5fa0, 119, 0xbd73_2de0_9800, 48, 0x8000_0000_0000, 0x100_0000);
    assert(mul_spec(0x405c_13c0, 0x3c5c_5fa0) == 0x3d3d_732e);
    assert(0xbd_732e * 0x1_0000_0000_0000_0000 == 0x1_7ae6_5c00_0000_0000 * 0x80_0000 + 0x0);
    lemma_quotient_known(0x3d3d_732e, 0x3c80_0000, 0xbd_732e, 121, 0x80_0000, 120, 0x1_7ae6_5c00_0000_0000, 0x0, 66, 0x2_0000_0000_0000_0000, 0x400_0000_0000);
    assert(div_spec(0x3d3d_732e, 0x3c80_0000) == 0x403d_732e);
    assert(0x97_0a33 * 0x40 + 0xbd_732e * 0x1 == 0x267f_ffee);
    lemma_sum_known(0x4317_0a33, 0x403d_732e, false, 0x97_0a33, 133, 0xbd_732e, 127, 0x40, 0x1, 0x267f_ffee, 30, 0x2000_0000, 0x40);
    assert(add_spec(0x4317_0a33, 0x403d_732e) == 0x431a_0000);
    lemma_whole_known(0x431a_0000, 0x9a_0000, 133, 0x1_0000);
}

/// The edge of code 153.
proof fn lemma_near_153()
    ensures
        near_exact_edge(0x3ea4_4189, 153),
{
    lemma2_to64();
    lemma2_to64_rest();
    lemma_fifth_powers_of_two();
    lemma_more_fifth_powers_of_two();
    assert(167525nat * 167525 * 167525 == 0x10_b403_6b70_d29d);
    assert(269025nat * 269025 * 269025 == 0x45_2c59_9066_9ca1);
    assert(0x10_b403_6b70_d29dnat * 0x10_b403_6b70_d29d == 0x116_ff02_3d3c_ad89_3976_34a5_f449nat);
    assert(0x116_ff02_3d3c_ad89_3976_34a5_f449nat * 0x116_ff02_3d3c_ad89_3976_34a5_f449nat == 0x1_300e_d6e2_75cc_cb58_dc6d_ee82_0385_53eb_cc08_9abb_8c1e_7735_3cd1nat);
    assert(0x45_2c59_9066_9ca1nat * 0x45_2c59_9066_9ca1 == 0x12b0_eff6_c049_6d6d_d948_5020_9d41nat);
    assert(0x12b0_eff6_c049_6d6d_d948_5020_9d41nat * 0x12b0_eff6_c049_6d6d_d948_5020_9d41nat == 0x15d_5c09_8741_6139_2178_92b9_bce5_5f46_89a2_dd05_b95f_0d00_50d8_ca81nat);
    assert(0x335_25adnat * 0x335_25ad == 0xa_49ea_ad2d_76e9);
    assert(0xa_49ea_ad2d_76e9nat * 0xa_49ea_ad2d_76e9 == 0x69_dbad_3572_4448_bebd_ef25_a011nat);
    assert(0x69_dbad_3572_4448_bebd_ef25_a011nat * 0x335_25ad == 0x1_538d_16c5_e43b_9f62_5fda_4d95_6314_a07dnat);
    assert(0x335_69adnat * 0x335_69ad == 0xa_4b9e_fb41_5ee9);
    assert(0xa_4b9e_fb41_5ee9nat * 0xa_4b9e_fb41_5ee9 == 0x69_fec2_2b0e_d31a_ee6a_3b81_f011nat);
    assert(0x69_fec2_2b0e_d31a_ee6a_3b81_f011nat * 0x335_69ad == 0x1_5419_c5d2_e36b_32f9_4fad_87e9_68cb_347dnat);
    assert(0x1_538d_16c5_e43b_9f62_5fda_4d95_6314_a07dnat * 0x15d_5c09_8741_6139_2178_92b9_bce5_5f46_89a2_dd05_b95f_0d00_50d8_ca81nat == 0x1cf_616b_6353_2f0c_1c87_2fed_5a14_8a83_2aa9_f6f8_fe70_425a_82f8_af3e_3a09_a370_4dcb_56bf_a2c4_5d03_ad7f_80fdnat);
    assert(0x1_5419_c5d2_e36b_32f9_4fad_87e9_68cb_347dnat * 0x15d_5c09_8741_6139_2178_92b9_bce5_5f46_89a2_dd05_b95f_0d00_50d8_ca81nat == 0x1d0_2168_9c30_3a50_1d9a_beb4_7d37_6226_f9b8_a502_772b_f86c_b593_1d53_2623_0ea3_9b20_637d_d26c_ee29_7f48_14fdnat);
    assert(0xc35nat * 0x2000_0000_0000_0000_0000_0000_0000_0000nat == 0x186_a000_0000_0000_0000_0000_0000_0000_0000nat);
    assert(0x1_300e_d6e2_75cc_cb58_dc6d_ee82_0385_53eb_cc08_9abb_8c1e_7735_3cd1nat * 0x186_a000_0000_0000_0000_0000_0000_0000_0000nat == 0x1cf_f4a4_a34c_ff9d_c877_593e_0f22_9f51_2dac_34a1_1a6c_adfc_a59b_ec68_a000_0000_0000_0000_0000_0000_0000_0000nat);
    lemma_near_above(
        0x3ea4_4189, 0xa4_4189, 124, 0x200, 0x186_a000_0000_0000_0000_0000_0000_0000_0000nat, 153,
        167525, 0x10_b403_6b70_d29d,
        0x116_ff02_3d3c_ad89_3976_34a5_f449nat,
        0x45_2c59_9066_9ca1, 0x12b0_eff6_c049_6d6d_d948_5020_9d41nat,
        0x335_25ad, 0xa_49ea_ad2d_76e9, 0x69_dbad_3572_4448_bebd_ef25_a011nat,
        0x335_69ad, 0xa_4b9e_fb41_5ee9, 0x69_fec2_2b0e_d31a_ee6a_3b81_f011nat,
    );
}

/// The value 0x3ea6_9eb5.
proof fn lemma_at_3ea69eb5()
    ensures
        chord_code(0x3ea6_9eb5, 0x3ea5_5e8d, 0x3ead_5e8d, 0x431a_7a82, 0x431d_d06c) == 154,
{
    reveal(chord_code);
    lemma2_to64();
    lemma2_to64_rest();
    lemma_high_powers();
    assert(0xad_5e8d * 0x1 - 0xa5_5e8d * 0x1 == 0x8_0000);
    lemma_sum_known(0x3ead_5e8d, 0x3ea5_5e8d, true, 0xad_5e8d, 124, 0xa5_5e8d, 124, 0x1, 0x1, 0x8_0000, 20, 0x8_0000, 0x10);
    assert(sub_spec(0x3ead_5e8d, 0x3ea5_5e8d) == 0x3c80_0000);
    assert(0xa6_9eb5 * 0x1 - 0xa5_5e8d * 0x1 == 0x1_4028);
    lemma_sum_known(0x3ea6_9eb5, 0x3ea5_5e8d, true, 0xa6_9eb5, 124, 0xa5_5e8d, 124, 0x1, 0x1, 0x1_4028, 17, 0x1_0000, 0x80);
    assert(sub_spec(0x3ea6_9eb5, 0x3ea5_5e8d) == 0x3b20_1400);
    assert(0x9d_d06c * 0x1 - 0x9a_7a82 * 0x1 == 0x3_55ea);
    lemma_sum_known(0x431d_d06c, 0x431a_7a82, true, 0x9d_d06c, 133, 0x9a_7a82, 133, 0x1, 0x1, 0x3_55ea, 18, 0x2_0000, 0x40);
    assert(sub_spec(0x431d_d06c, 0x431a_7a82) == 0x4055_7a80);
    assert(0xd5_7a80 * 0xa0_1400 == 0x857d_3d92_0000);
    lemma_product_known(0x4055_7a80, 0x3b20_1400, 0xd5_7a80, 127, 0xa0_1400, 117, 0x857d_3d92_0000, 48, 0x8000_0000_0000, 0x100_0000);
    assert(mul_spec(0x4055_7a80, 0x3b20_1400) == 0x3c05_7d3e);
    assert(0x85_7d3e * 0x1_0000_0000_0000_0000 == 0x1_0afa_7c00_0000_0000 * 0x80_0000 + 0x0);
    lemma_quotient_known(0x3c05_7d3e, 0x3c80_0000, 0x85_7d3e, 119, 0x80_0000, 120, 0x1_0afa_7c00_0000_0000, 0x0, 66, 0x2_0000_0000_0000_0000, 0x400_0000_0000);
    assert(div_spec(0x3c05_7d3e, 0x3c80_0000) == 0x3f05_7d3e);
    assert(0x9a_7a82 * 0x100 + 0x85_7d3e * 0x1 == 0x9aff_ff3e);
    lemma_sum_known(0x431a_7a82, 0x3f05_7d3e, false, 0x9a_7a82, 133, 0x85_7d3e, 125, 0x100, 0x1, 0x9aff_ff3e, 32, 0x8000_0000, 0x100);
    assert(add_spec(0x431a_7a82, 0x3f05_7d3e) == 0x431a_ffff);
    lemma_whole_known(0x431a_ffff, 0x9a_ffff, 133, 0x1_0000);
}

/// The value 0x3ea6_9eb6.
proof fn lemma_at_3ea69eb6()
    ensures
        chord_code(0x3ea6_9eb6, 0x3ea5_5e8d, 0x3ead_5e8d, 0x431a_7a82, 0x431d_d06c) == 155,
{
    reveal(chord_code);
    lemma2_to64();
    lemma2_to64_rest();
    lemma_high_powers();
    assert(0xad_5e8d * 0x1 - 0xa5_5e8d * 0x1 == 0x8_0000);
    lemma_sum_known(0x3ead_5e8d, 0x3ea5_5e8d, true, 0xad_5e8d, 124, 0xa5_5e8d, 124, 0x1, 0x1, 0x8_0000, 20, 0x8_0000, 0x10);
    assert(sub_spec(0x3ead_5e8d, 0x3ea5_5e8d) == 0x3c80_0000);
    assert(0xa6_9eb6 * 0x1 - 0xa5_5e8d * 0x1 == 0x1_4029);
    lemma_sum_known(0x3ea6_9eb6, 0x3ea5_5e8d, true, 0xa6_9eb6, 124, 0xa5_5e8d, 124, 0x1, 0x1, 0x1_4029, 17, 0x1_0000, 0x80);
    assert(sub_spec(0x3ea6_9eb6, 0x3ea5_5e8d) == 0x3b20_1480);
    assert(0x9d_d06c * 0x1 - 0x9a_7a82 * 0x1 == 0x3_55ea);
    lemma_sum_known(0x431d_d06c, 0x431a_7a82, true, 0x9d_d06c, 133, 0x9a_7a82, 133, 0x1, 0x1, 0x3_55ea, 18, 0x2_0000, 0x40);
    assert(sub_spec(0x431d_d06c, 0x431a_7a82) == 0x4055_7a80);
    assert(0xd5_7a80 * 0xa0_1480 == 0x857d_a84f_4000);
    lemma_product_known(0x4055_7a80, 0x3b20_1480, 0xd5_7a80, 127, 0xa0_1480, 117, 0x857d_a84f_4000, 48, 0x8000_0000_0000, 0x100_0000);
    assert(mul_spec(0x4055_7a80, 0x3b20_1480) == 0x3c05_7da8);
    assert(0x85_7da8 * 0x1_0000_0000_0000_0000 == 0x1_0afb_5000_0000_0000 * 0x80_0000 + 0x0);
    lemma_quotient_known(0x3c05_7da8, 0x3c80_0000, 0x85_7da8, 119, 0x80_0000, 120, 0x1_0afb_5000_0000_0000, 0x0, 66, 0x2_0000_0000_0000_0000, 0x400_0000_0000);
    assert(div_spec(0x3c05_7da8, 0x3c80_0000) == 0x3f05_7da8);
    assert(0x9a_7a82 * 0x100 + 0x85_7da8 * 0x1 == 0x9aff_ffa8);
    lemma_sum_known(0x431a_7a82, 0x3f05_7da8, false, 0x9a_7a82, 133, 0x85_7da8, 125, 0x100, 0x1, 0x9aff_ffa8, 32, 0x8000_0000, 0x100);
    assert(add_spec(0x431a_7a82, 0x3f05_7da8) == 0x431b_0000);
    lemma_whole_known(0x431b_0000, 0x9b_0000, 133, 0x1_0000);
}

/// The edge of code 154.
proof fn lemma_near_154()
    ensures
        near_exact_edge(0x3ea6_9eb5, 154),
{
    lemma2_to64();
    lemma2_to64_rest();
    lemma_fifth_powers_of_two();
    lemma_more_fifth_powers_of_two();
    assert(168525nat * 168525 * 168525 == 0x11_010b_94f9_1d55);
    assert(269025nat * 269025 * 269025 == 0x45_2c59_9066_9ca1);
    assert(0x11_010b_94f9_1d55nat * 0x11_010b_94f9_1d55 == 0x121_238a_e0c5_fb9e_2ba2_5ab6_5e39nat);
    assert(0x121_238a_e0c5_fb9e_2ba2_5ab6_5e39nat * 0x121_238a_e0c5_fb9e_2ba2_5ab6_5e39nat == 0x1_4691_447e_c3cf_58ba_1c78_44b3_38fc_2ebe_4b0a_46f7_224e_2fb9_e8b1nat);
    assert(0x45_2c59_9066_9ca1nat * 0x45_2c59_9066_9ca1 == 0x12b0_eff6_c049_6d6d_d948_5020_9d41nat);
    assert(0x12b0_eff6_c049_6d6d_d948_5020_9d41nat * 0x12b0_eff6_c049_6d6d_d948_5020_9d41nat == 0x15d_5c09_8741_6139_2178_92b9_bce5_5f46_89a2_dd05_b95f_0d00_50d8_ca81nat);
    assert(0x340_f789nat * 0x340_f789 == 0xa_9649_e9d9_a751);
    assert(0xa_9649_e9d9_a751nat * 0xa_9649_e9d9_a751 == 0x70_1600_f863_5626_43d0_86ac_c7a1nat);
    assert(0x70_1600_f863_5626_43d0_86ac_c7a1nat * 0x340_f789 == 0x1_6cb3_e45d_f904_c1a4_6b9e_2e11_9253_2c29nat);
    assert(0x341_3b89nat * 0x341_3b89 == 0xa_9804_7f6a_6f51);
    assert(0xa_9804_7f6a_6f51nat * 0xa_9804_7f6a_6f51 == 0x70_3a9f_4bb3_5142_713a_bd7b_57a1nat);
    assert(0x70_3a9f_4bb3_5142_713a_bd7b_57a1nat * 0x341_3b89 == 0x1_6d48_d9e7_682d_3fe3_3cc9_b072_f715_0029nat);
    assert(0x1_6cb3_e45d_f904_c1a4_6b9e_2e11_9253_2c29nat * 0x15d_5c09_8741_6139_2178_92b9_bce5_5f46_89a2_dd05_b95f_0d00_50d8_ca81nat == 0x1f1_b45c_8d31_49e3_8b5a_c27d_ea7f_69e9_44c1_9cf8_d916_82f0_2488_8a6b_64a9_e1f7_5fd9_1aa3_a511_9d4a_6f59_9aa9nat);
    assert(0x1_6d48_d9e7_682d_3fe3_3cc9_b072_f715_0029nat * 0x15d_5c09_8741_6139_2178_92b9_bce5_5f46_89a2_dd05_b95f_0d00_50d8_ca81nat == 0x1f2_7fa4_d756_8d65_8093_ba92_1c9f_6194_b61c_e8aa_367d_e703_005a_e366_09ac_d587_ea9c_eb0b_564c_bfaa_064d_6ea9nat);
    assert(0xc35nat * 0x2000_0000_0000_0000_0000_0000_0000_0000nat == 0x186_a000_0000_0000_0000_0000_0000_0000_0000nat);
    assert(0x1_4691_447e_c3cf_58ba_1c78_44b3_38fc_2ebe_4b0a_46f7_224e_2fb9_e8b1nat * 0x186_a000_0000_0000_0000_0000_0000_0000_0000nat == 0x1f2_4d69_23ed_8842_c2fb_b103_d3f8_d3cc_d31d_408e_88d8_b88d_930c_af14_a000_0000_0000_0000_0000_0000_0000_0000nat);
    lemma_near_above(
        0x3ea6_9eb5, 0xa6_9eb5, 124, 0x200, 0x186_a000_0000_0000_0000_0000_0000_0000_0000nat, 154,
        168525, 0x11_010b_94f9_1d55,
        0x121_238a_e0c5_fb9e_2ba2_5ab6_5e39nat,
        0x45_2c59_9066_9ca1, 0x12b0_eff6_c049_6d6d_d948_5020_9d41nat,
        0x340_f789, 0xa_9649_e9d9_a751, 0x70_1600_f863_5626_43d0_86ac_c7a1nat,
        0x341_3b89, 0xa_9804_7f6a_6f51, 0x70_3a9f_4bb3_5142_713a_bd7b_57a1nat,
    );
}

/// The value 0x3ea9_04b1.
proof fn lemma_at_3ea904b1()
    ensures
        chord_code(0x3ea9_04b1, 0x3ea5_5e8d, 0x3ead_5e8d, 0x431a_7a82, 0x431d_d06c) == 155,
{
    reveal(chord_code);
    lemma2_to64();
    lemma2_to64_rest();
    lemma_high_powers();
    assert(0xad_5e8d * 0x1 - 0xa5_5e8d * 0x1 == 0x8_0000);
    lemma_sum_known(0x3ead_5e8d, 0x3ea5_5e8d, true, 0xad_5e8d, 124, 0xa5_5e8d, 124, 0x1, 0x1, 0x8_0000, 20, 0x8_0000, 0x10);
    assert(sub_spec(0x3ead_5e8d, 0x3ea5_5e8d) == 0x3c80_0000);
    assert(0xa9_04b1 * 0x1 - 0xa5_5e8d * 0x1 == 0x3_a624);
    lemma_sum_known(0x3ea9_04b1, 0x3ea5_5e8d, true, 0xa9_04b1, 124, 0xa5_5e8d, 124, 0x1, 0x1, 0x3_a624, 18, 0x2_0000, 0x40);
    assert(sub_spec(0x3ea9_04b1, 0x3ea5_5e8d) == 0x3be9_8900);
    assert(0x9d_d06c * 0x1 - 0x9a_7a82 * 0x1 == 0x3_55ea);
    lemma_sum_known(0x431d_d06c, 0x431a_7a82, true, 0x9d_d06c, 133, 0x9a_7a82, 133, 0x1, 0x1, 0x3_55ea, 18, 0x2_0000, 0x40);
    assert(sub_spec(0x431d_d06c, 0x431a_7a82) == 0x4055_7a80);
    assert(0xd5_7a80 * 0xe9_8900 == 0xc2be_bd0e_8000);
    lemma_product_known(0x4055_7a80, 0x3be9_8900, 0xd5_7a80, 127, 0xe9_8900, 118, 0xc2be_bd0e_8000, 48, 0x8000_0000_0000, 0x100_0000);
    assert(mul_spec(0x4055_7a80, 0x3be9_8900) == 0x3cc2_bebd);
    assert(0xc2_bebd * 0x1_0000_0000_0000_0000 == 0x1_857d_7a00_0000_0000 * 0x80_0000 + 0x0);
    lemma_quotient_known(0x3cc2_bebd, 0x3c80_0000, 0xc2_bebd, 120, 0x80_0000, 120, 0x1_857d_7a00_0000_0000, 0x0, 66, 0x2_0000_0000_0000_0000, 0x400_0000_0000);
    assert(div_spec(0x3cc2_bebd, 0x3c80_0000) == 0x3fc2_bebd);
    assert(0x9a_7a82 * 0x80 + 0xc2_bebd * 0x1 == 0x4dff_ffbd);
    lemma_sum_known(0x431a_7a82, 0x3fc2_bebd, false, 0x9a_7a82, 133, 0xc2_bebd, 126, 0x80, 0x1, 0x4dff_ffbd, 31, 0x4000_0000, 0x80);
    assert(add_spec(0x431a_7a82, 0x3fc2_bebd) == 0x431b_ffff);
    lemma_whole_known(0x431b_ffff, 0x9b_ffff, 133, 0x1_0000);
}

/// The value 0x3ea9_04b2.
proof fn lemma_at_3ea904b2()
    ensures
        chord_code(0x3ea9_04b2, 0x3ea5_5e8d, 0x3ead_5e8d, 0x431a_7a82, 0x431d_d06c) == 156,
{
    reveal(chord_code);
    lemma2_to64();
    lemma2_to64_rest();
    lemma_high_powers();
    assert(0xad_5e8d * 0x1 - 0xa5_5e8d * 0x1 == 0x8_0000);
    lemma_sum_known(0x3ead_5e8d, 0x3ea5_5e8d, true, 0xad_5e8d, 124, 0xa5_5e8d, 124, 0x1, 0x1, 0x8_0000, 20, 0x8_0000, 0x10);
    assert(sub_spec(0x3ead_5e8d, 0x3ea5_5e8d) == 0x3c80_0000);
    assert(0xa9_04b2 * 0x1 - 0xa5_5e8d * 0x1 == 0x3_a625);
    lemma_sum_known(0x3ea9_04b2, 0x3ea5_5e8d, true, 0xa9_04b2, 124, 0xa5_5e8d, 124, 0x1, 0x1, 0x3_a625, 18, 0x2_0000, 0x40);
    assert(sub_spec(0x3ea9_04b2, 0x3ea5_5e8d) == 0x3be9_8940);
    assert(0x9d_d06c * 0x1 - 0x9a_7a82 * 0x1 == 0x3_55ea);
    lemma_sum_known(0x431d_d06c, 0x431a_7a82, true, 0x9d_d06c, 133, 0x9a_7a82, 133, 0x1, 0x1, 0x3_55ea, 18, 0x2_0000, 0x40);
    assert(sub_spec(0x431d_d06c, 0x431a_7a82) == 0x4055_7a80);
    assert(0xd5_7a80 * 0xe9_8940 == 0xc2be_f26d_2000);
    lemma_product_known(0x4055_7a80, 0x3be9_8940, 0xd5_7a80, 127, 0xe9_8940, 118, 0xc2be_f26d_2000, 48, 0x8000_0000_0000, 0x100_0000);
    assert(mul_spec(0x4055_7a80, 0x3be9_8940) == 0x3cc2_bef2);
    assert(0xc2_bef2 * 0x1_0000_0000_0000_0000 == 0x1_857d_e400_0000_0000 * 0x80_0000 + 0x0);
    lemma_quotient_known(0x3cc2_bef2, 0x3c80_0000, 0xc2_bef2, 120, 0x80_0000, 120, 0x1_857d_e400_0000_0000, 0x0, 66, 0x2_0000_0000_0000_0000, 0x400_0000_0000);
    assert(div_spec(0x3cc2_bef2, 0x3c80_0000) == 0x3fc2_bef2);
    assert(0x9a_7a82 * 0x80 + 0xc2_bef2 * 0x1 == 0x4dff_fff2);
    lemma_sum_known(0x431a_7a82, 0x3fc2_bef2, false, 0x9a_7a82, 133, 0xc2_bef2, 126, 0x80, 0x1, 0x4dff_fff2, 31, 0x4000_0000, 0x80);
    assert(add_spec(0x431a_7a82, 0x3fc2_bef2) == 0x431c_0000);
    lemma_whole_known(0x431c_0000, 0x9c_0000, 133, 0x1_0000);
}

/// The edge of code 155.
proof fn lemma_near_155()
    ensures
        near_exact_edge(0x3ea9_04b1, 155),
{
    lemma2_to64();
    lemma2_to64_rest();
    lemma_fifth_powers_of_two();
    lemma_more_fifth_powers_of_two();
    assert(169525nat * 169525 * 169525 == 0x11_4eff_2bbd_f78d);
    assert(269025nat * 269025 * 269025 == 0x45_2c59_9066_9ca1);
    assert(0x11_4eff_2bbd_f78dnat * 0x11_4eff_2bbd_f78d == 0x12b_9644_4c3a_cf80_7506_d393_63a9nat);
    assert(0x12b_9644_4c3a_cf80_7506_d393_63a9nat * 0x12b_9644_4c3a_cf80_7506_d393_63a9nat == 0x1_5e98_5bbe_2cee_372d_1c0b_59bd_fe4a_a638_acb6_49dd_7110_30e2_2591nat);
    assert(0x45_2c59_9066_9ca1nat * 0x45_2c59_9066_9ca1 == 0x12b0_eff6_c049_6d6d_d948_5020_9d41nat);
    assert(0x12b0_eff6_c049_6d6d_d948_5020_9d41nat * 0x12b0_eff6_c049_6d6d_d948_5020_9d41nat == 0x15d_5c09_8741_6139_2178_92b9_bce5_5f46_89a2_dd05_b95f_0d00_50d8_ca81nat);
    assert(0x34c_f575nat * 0x34c_f575 == 0xa_e4e3_66d1_2779);
    assert(0xa_e4e3_66d1_2779nat * 0xa_e4e3_66d1_2779 == 0x76_ae69_e17b_23fa_deeb_e5a8_1731nat);
    assert(0x76_ae69_e17b_23fa_deeb_e5a8_1731nat * 0x34c_f575 == 0x1_87b8_d03c_6d29_85cd_7ab8_cac6_4990_7e65nat);
    assert(0x34d_3975nat * 0x34d_3975 == 0xa_e6a4_5b47_4f79);
    assert(0xa_e6a4_5b47_4f79nat * 0xa_e6a4_5b47_4f79 == 0x76_d4a2_df1b_6c2b_0565_33c9_e731nat);
    assert(0x76_d4a2_df1b_6c2b_0565_33c9_e731nat * 0x34d_3975 == 0x1_8856_8941_dfa1_1c9e_d2e8_f138_bc7d_9265nat);
    assert(0x1_87b8_d03c_6d29_85cd_7ab8_cac6_4990_7e65nat * 0x15d_5c09_8741_6139_2178_92b9_bce5_5f46_89a2_dd05_b95f_0d00_50d8_ca81nat == 0x216_93c8_e1ac_5b77_5ad9_0c28_8b47_1a2a_2966_be2f_6ef1_fff6_65a4_8183_628a_44da_041e_4d54_f04f_fe61_4ac3_62e5nat);
    assert(0x1_8856_8941_dfa1_1c9e_d2e8_f138_bc7d_9265nat * 0x15d_5c09_8741_6139_2178_92b9_bce5_5f46_89a2_dd05_b95f_0d00_50d8_ca81nat == 0x217_6b06_d276_33ad_b6b2_d178_ae82_3621_79dd_211e_6526_12c7_021f_150c_72c2_8742_b7f3_1e51_0968_bb05_2602_76e5nat);
    assert(0xc35nat * 0x2000_0000_0000_0000_0000_0000_0000_0000nat == 0x186_a000_0000_0000_0000_0000_0000_0000_0000nat);
    assert(0x1_5e98_5bbe_2cee_372d_1c0b_59bd_fe4a_a638_acb6_49dd_7110_30e2_2591nat * 0x186_a000_0000_0000_0000_0000_0000_0000_0000nat == 0x216_f73a_fd0f_4efc_f134_ead1_cf88_24a7_e23a_89a6_7584_a554_9712_9260_a000_0000_0000_0000_0000_0000_0000_0000nat);
    lemma_near_above(
        0x3ea9_04b1, 0xa9_04b1, 124, 0x200, 0x186_a000_0000_0000_0000_0000_0000_0000_0000nat, 155,
        169525, 0x11_4eff_2bbd_f78d,
        0x12b_9644_4c3a_cf80_7506_d393_63a9nat,
        0x45_2c59_9066_9ca1, 0x12b0_eff6_c049_6d6d_d948_5020_9d41nat,
        0x34c_f575, 0xa_e4e3_66d1_2779, 0x76_ae69_e17b_23fa_deeb_e5a8_1731nat,
        0x34d_3975, 0xa_e6a4_5b47_4f79, 0x76_d4a2_df1b_6c2b_0565_33c9_e731nat,
    );
}

/// The value 0x3eab_6aac.
proof fn lemma_at_3eab6aac()
    ensures
        chord_code(0x3eab_6aac, 0x3ea5_5e8d, 0x3ead_5e8d, 0x431a_7a82, 0x431d_d06c) == 156,
{
    reveal(chord_code);
    lemma2_to64();
    lemma2_to64_rest();
    lemma_high_powers();
    assert(0xad_5e8d * 0x1 - 0xa5_5e8d * 0x1 == 0x8_0000);
    lemma_sum_known(0x3ead_5e8d, 0x3ea5_5e8d, true, 0xad_5e8d, 124, 0xa5_5e8d, 124, 0x1, 0x1, 0x8_0000, 20, 0x8_0000, 0x10);
    assert(sub_spec(0x3ead_5e8d, 0x3ea5_5e8d) == 0x3c80_0000);
    assert(0xab_6aac * 0x1 - 0xa5_5e8d * 0x1 == 0x6_0c1f);
    lemma_sum_known(0x3eab_6aac, 0x3ea5_5e8d, true, 0xab_6aac, 124, 0xa5_5e8d, 124, 0x1, 0x1, 0x6_0c1f, 19, 0x4_0000, 0x20);
    assert(sub_spec(0x3eab_6aac, 0x3ea5_5e8d) == 0x3c41_83e0);
    assert(0x9d_d06c * 0x1 - 0x9a_7a82 * 0x1 == 0x3_55ea);
    lemma_sum_known(0x431d_d06c, 0x431a_7a82, true, 0x9d_d06c, 133, 0x9a_7a82, 133, 0x1, 0x1, 0x3_55ea, 18, 0x2_0000, 0x40);
    assert(sub_spec(0x431d_d06c, 0x431a_7a82) == 0x4055_7a80);
    assert(0xd5_7a80 * 0xc1_83e0 == 0xa15f_52fa_b000);
    lemma_product_known(0x4055_7a80, 0x3c41_83e0, 0xd5_7a80, 127, 0xc1_83e0, 119, 0xa15f_52fa_b000, 48, 0x8000_0000_0000, 0x100_0000);
    assert(mul_spec(0x4055_7a80, 0x3c41_83e0) == 0x3d21_5f53);
    assert(0xa1_5f53 * 0x1_0000_0000_0000_0000 == 0x1_42be_a600_0000_0000 * 0x80_0000 + 0x0);
    lemma_quotient_known(0x3d21_5f53, 0x3c80_0000, 0xa1_5f53, 121, 0x80_0000, 120, 0x1_42be_a600_0000_0000, 0x0, 66, 0x2_0000_0000_0000_0000, 0x400_0000_0000);
    assert(div_spec(0x3d21_5f53, 0x3c80_0000) == 0x4021_5f53);
    assert(0x9a_7a82 * 0x40 + 0xa1_5f53 * 0x1 == 0x273f_ffd3);
    lemma_sum_known(0x431a_7a82, 0x4021_5f53, false, 0x9a_7a82, 133, 0xa1_5f53, 127, 0x40, 0x1, 0x273f_ffd3, 30, 0x2000_0000, 0x40);
    assert(add_spec(0x431a_7a82, 0x4021_5f53) == 0x431c_ffff);
    lemma_whole_known(0x431c_ffff, 0x9c_ffff, 133, 0x1_0000);
}

/// The value 0x3eab_6aad.
proof fn lemma_at_3eab6aad()
    ensures
        chord_code(0x3eab_6aad, 0x3ea5_5e8d, 0x3ead_5e8d, 0x431a_7a82, 0x431d_d06c) == 157,
{
    reveal(chord_code);
    lemma2_to64();
    lemma2_to64_rest();
    lemma_high_powers();
    assert(0xad_5e8d * 0x1 - 0xa5_5e8d * 0x1 == 0x8_0000);
    lemma_sum_known(0x3ead_5e8d, 0x3ea5_5e8d, true, 0xad_5e8d, 124, 0xa5_5e8d, 124, 0x1, 0x1, 0x8_0000, 20, 0x8_0000, 0x10);
    assert(sub_spec(0x3ead_5e8d, 0x3ea5_5e8d) == 0x3c80_0000);
    assert(0xab_6aad * 0x1 - 0xa5_5e8d * 0x1 == 0x6_0c20);
    lemma_sum_known(0x3eab_6aad, 0x3ea5_5e8d, true, 0xab_6aad, 124, 0xa5_5e8d, 124, 0x1, 0x1, 0x6_0c20, 19, 0x4_0000, 0x20);
    assert(sub_spec(0x3eab_6aad, 0x3ea5_5e8d) == 0x3c41_8400);
    assert(0x9d_d06c * 0x1 - 0x9a_7a82 * 0x1 == 0x3_55ea);
    lemma_sum_known(0x431d_d06c, 0x431a_7a82, true, 0x9d_d06c, 133, 0x9a_7a82, 133, 0x1, 0x1, 0x3_55ea, 18, 0x2_0000, 0x40);
    assert(sub_spec(0x431d_d06c, 0x431a_7a82) == 0x4055_7a80);
    assert(0xd5_7a80 * 0xc1_8400 == 0xa15f_6daa_0000);
    lemma_product_known(0x4055_7a80, 0x3c41_8400, 0xd5_7a80, 127, 0xc1_8400, 119, 0xa15f_6daa_0000, 48, 0x8000_0000_0000, 0x100_0000);
    assert(mul_spec(0x4055_7a80, 0x3c41_8400) == 0x3d21_5f6e);
    assert(0xa1_5f6e * 0x1_0000_0000_0000_0000 == 0x1_42be_dc00_0000_0000 * 0x80_0000 + 0x0);
    lemma_quotient_known(0x3d21_5f6e, 0x3c80_0000, 0xa1_5f6e, 121, 0x80_0000, 120, 0x1_42be_dc00_0000_0000, 0x0, 66, 0x2_0000_0000_0000_0000, 0x400_0000_0000);
    assert(div_spec(0x3d21_5f6e, 0x3c80_0000) == 0x4021_5f6e);
    assert(0x9a_7a82 * 0x40 + 0xa1_5f6e * 0x1 == 0x273f_ffee);
    lemma_sum_known(0x431a_7a82, 0x4021_5f6e, false, 0x9a_7a82, 133, 0xa1_5f6e, 127, 0x40, 0x1, 0x273f_ffee, 30, 0x2000_0000, 0x40);
    assert(add_spec(0x431a_7a82, 0x4021_5f6e) == 0x431d_0000);
    lemma_whole_known(0x431d_0000, 0x9d_0000, 133, 0x1_0000);
}

/// The edge of code 156.
proof fn lemma_near_156()
    ensures
        near_exact_edge(0x3eab_6aac, 156),
{
    lemma2_to64();
    lemma2_to64_rest();
    lemma_fifth_powers_of_two();
    lemma_more_fifth_powers_of_two();
    assert(170525nat * 170525 * 170525 == 0x11_9ddf_9560_1d45);
    assert(269025nat * 269025 * 269025 == 0x45_2c59_9066_9ca1);
    assert(0x11_9ddf_9560_1d45nat * 0x11_9ddf_9560_1d45 == 0x136_590d_d741_5bac_a65e_4918_b499nat);
    assert(0x136_590d_d741_5bac_a65e_4918_b499nat * 0x136_590d_d741_5bac_a65e_4918_b499nat == 0x1_783b_cc7f_f2b5_0983_203b_2a2f_0a00_5a36_e6cf_40d2_25bd_9e17_8371nat);
    assert(0x45_2c59_9066_9ca1nat * 0x45_2c59_9066_9ca1 == 0x12b0_eff6_c049_6d6d_d948_5020_9d41nat);
    assert(0x12b0_eff6_c049_6d6d_d948_5020_9d41nat * 0x12b0_eff6_c049_6d6d_d948_5020_9d41nat == 0x15d_5c09_8741_6139_2178_92b9_bce5_5f46_89a2_dd05_b95f_0d00_50d8_ca81nat);
    assert(0x358_f35cnat * 0x358_f35c == 0xb_349c_5e97_c910);
    assert(0xb_349c_5e97_c910nat * 0xb_349c_5e97_c910 == 0x7d_9040_06fc_5cff_5d26_8eca_2100nat);
    assert(0x7d_9040_06fc_5cff_5d26_8eca_2100nat * 0x358_f35c == 0x1_a451_b323_f97b_04d7_4a1e_8743_85f6_dc00nat);
    assert(0x359_375cnat * 0x359_375c == 0xb_3663_b1f0_a910);
    assert(0xb_3663_b1f0_a910nat * 0xb_3663_b1f0_a910 == 0x7d_b81f_8093_2a84_2e65_8da6_2100nat);
    assert(0x7d_b81f_8093_2a84_2e65_8da6_2100nat * 0x359_375c == 0x1_a4f8_9132_5c9b_2784_ff6f_af12_11ca_dc00nat);
    assert(0x1_a451_b323_f97b_04d7_4a1e_8743_85f6_dc00nat * 0x15d_5c09_8741_6139_2178_92b9_bce5_5f46_89a2_dd05_b95f_0d00_50d8_ca81nat == 0x23d_9a7e_395d_c478_cb48_d172_1015_98cb_a2e7_8e90_26c6_29ec_6526_1fad_da78_120d_a21a_3a64_d81f_9dc4_eafc_dc00nat);
    assert(0x1_a4f8_9132_5c9b_2784_ff6f_af12_11ca_dc00nat * 0x15d_5c09_8741_6139_2178_92b9_bce5_5f46_89a2_dd05_b95f_0d00_50d8_ca81nat == 0x23e_7e36_f0fe_0b20_71fe_79c7_1c12_a258_cd89_9b66_1df2_d918_31bd_aafc_f897_c676_62be_b2af_2565_e20e_a8d0_dc00nat);
    assert(0xc35nat * 0x2000_0000_0000_0000_0000_0000_0000_0000nat == 0x186_a000_0000_0000_0000_0000_0000_0000_0000nat);
    assert(0x1_783b_cc7f_f2b5_0983_203b_2a2f_0a00_5a36_e6cf_40d2_25bd_9e17_8371nat * 0x186_a000_0000_0000_0000_0000_0000_0000_0000nat == 0x23e_163e_eabb_b77d_a3b5_0e47_3e06_a2c9_a805_effe_48a8_d675_5aa0_f04c_a000_0000_0000_0000_0000_0000_0000_0000nat);
    lemma_near_above(
        0x3eab_6aac, 0xab_6aac, 124, 0x200, 0x186_a000_0000_0000_0000_0000_0000_0000_0000nat, 156,
        170525, 0x11_9ddf_9560_1d45,
        0x136_590d_d741_5bac_a65e_4918_b499nat,
        0x45_2c59_9066_9ca1, 0x12b0_eff6_c049_6d6d_d948_5020_9d41nat,
        0x358_f35c, 0xb_349c_5e97_c910, 0x7d_9040_06fc_5cff_5d26_8eca_2100nat,
        0x359_375c, 0xb_3663_b1f0_a910, 0x7d_b81f_8093_2a84_2e65_8da6_2100nat,
    );
}

/// The value 0x3ead_d3a2.
proof fn lemma_at_3eadd3a2()
    ensures
        chord_code(0x3ead_d3a2, 0x3ead_5e8d, 0x3eb5_5e8d, 0x431d_d06c, 0x4321_109e) == 157,
{
    reveal(chord_code);
    lemma2_to64();
    lemma2_to64_rest();
    lemma_high_powers();
    assert(0xb5_5e8d * 0x1 - 0xad_5e8d * 0x1 == 0x8_0000);
    lemma_sum_known(0x3eb5_5e8d, 0x3ead_5e8d, true, 0xb5_5e8d, 124, 0xad_5e8d, 124, 0x1, 0x1, 0x8_0000, 20, 0x8_0000, 0x10);
    assert(sub_spec(0x3eb5_5e8d, 0x3ead_5e8d) == 0x3c80_0000);
    assert(0xad_d3a2 * 0x1 - 0xad_5e8d * 0x1 == 0x7515);
    lemma_sum_known(0x3ead_d3a2, 0x3ead_5e8d, true, 0xad_d3a2, 124, 0xad_5e8d, 124, 0x1, 0x1, 0x7515, 15, 0x4000, 0x200);
    assert(sub_spec(0x3ead_d3a2, 0x3ead_5e8d) == 0x3a6a_2a00);
    assert(0xa1_109e * 0x1 - 0x9d_d06c * 0x1 == 0x3_4032);
    lemma_sum_known(0x4321_109e, 0x431d_d06c, true, 0xa1_109e, 133, 0x9d_d06c, 133, 0x1, 0x1, 0x3_4032, 18, 0x2_0000, 0x40);
    assert(sub_spec(0x4321_109e, 0x431d_d06c) == 0x4050_0c80);
    assert(0xd0_0c80 * 0xea_2a00 == 0xbe4d_8f0d_0000);
    lemma_product_known(0x4050_0c80, 0x3a6a_2a00, 0xd0_0c80, 127, 0xea_2a00, 115, 0xbe4d_8f0d_0000, 48, 0x8000_0000_0000, 0x100_0000);
    assert(mul_spec(0x4050_0c80, 0x3a6a_2a00) == 0x3b3e_4d8f);
    assert(0xbe_4d8f * 0x1_0000_0000_0000_0000 == 0x1_7c9b_1e00_0000_0000 * 0x80_0000 + 0x0);
    lemma_quotient_known(0x3b3e_4d8f, 0x3c80_0000, 0xbe_4d8f, 117, 0x80_0000, 120, 0x1_7c9b_1e00_0000_0000, 0x0, 66, 0x2_0000_0000_0000_0000, 0x400_0000_0000);
    assert(div_spec(0x3b3e_4d8f, 0x3c80_0000) == 0x3e3e_4d8f);
    assert(0x9d_d06c * 0x400 + 0xbe_4d8f * 0x1 == 0x2_77ff_fd8f);
    lemma_sum_known(0x431d_d06c, 0x3e3e_4d8f, false, 0x9d_d06c, 133, 0xbe_4d8f, 123, 0x400, 0x1, 0x2_77ff_fd8f, 34, 0x2_0000_0000, 0x400);
    assert(add_spec(0x431d_d06c, 0x3e3e_4d8f) == 0x431d_ffff);
    lemma_whole_known(0x431d_ffff, 0x9d_ffff, 133, 0x1_0000);
}

/// The value 0x3ead_d3a3.
proof fn lemma_at_3eadd3a3()
    ensures
        chord_code(0x3ead_d3a3, 0x3ead_5e8d, 0x3eb5_5e8d, 0x431d_d06c, 0x4321_109e) == 158,
{
    reveal(chord_code);
    lemma2_to64();
    lemma2_to64_rest();
    lemma_high_powers();
    assert(0xb5_5e8d * 0x1 - 0xad_5e8d * 0x1 == 0x8_0000);
    lemma_sum_known(0x3eb5_5e8d, 0x3ead_5e8d, true, 0xb5_5e8d, 124, 0xad_5e8d, 124, 0x1, 0x1, 0x8_0000, 20, 0x8_0000, 0x10);
    assert(sub_spec(0x3eb5_5e8d, 0x3ead_5e8d) == 0x3c80_0000);
    assert(0xad_d3a3 * 0x1 - 0xad_5e8d * 0x1 == 0x7516);
    lemma_sum_known(0x3ead_d3a3, 0x3ead_5e8d, true, 0xad_d3a3, 124, 0xad_5e8d, 124, 0x1, 0x1, 0x7516, 15, 0x4000, 0x200);
    assert(sub_spec(0x3ead_d3a3, 0x3ead_5e8d) == 0x3a6a_2c00);
    assert(0xa1_109e * 0x1 - 0x9d_d06c * 0x1 == 0x3_4032);
    lemma_sum_known(0x4321_109e, 0x431d_d06c, true, 0xa1_109e, 133, 0x9d_d06c, 133, 0x1, 0x1, 0x3_4032, 18, 0x2_0000, 0x40);
    assert(sub_spec(0x4321_109e, 0x431d_d06c) == 0x4050_0c80);
    assert(0xd0_0c80 * 0xea_2c00 == 0xbe4f_2f26_0000);
    lemma_product_known(0x4050_0c80, 0x3a6a_2c00, 0xd0_0c80, 127, 0xea_2c00, 115, 0xbe4f_2f26_0000, 48, 0x8000_0000_0000, 0x100_0000);
    assert(mul_spec(0x4050_0c80, 0x3a6a_2c00) == 0x3b3e_4f2f);
    assert(0xbe_4f2f * 0x1_0000_0000_0000_0000 == 0x1_7c9e_5e00_0000_0000 * 0x80_0000 + 0x0);
    lemma_quotient_known(0x3b3e_4f2f, 0x3c80_0000, 0xbe_4f2f, 117, 0x80_0000, 120, 0x1_7c9e_5e00_0000_0000, 0x0, 66, 0x2_0000_0000_0000_0000, 0x400_0000_0000);
    assert(div_spec(0x3b3e_4f2f, 0x3c80_0000) == 0x3e3e_4f2f);
    assert(0x9d_d06c * 0x400 + 0xbe_4f2f * 0x1 == 0x2_77ff_ff2f);
    lemma_sum_known(0x431d_d06c, 0x3e3e_4f2f, false, 0x9d_d06c, 133, 0xbe_4f2f, 123, 0x400, 0x1, 0x2_77ff_ff2f, 34, 0x2_0000_0000, 0x400);
    assert(add_spec(0x431d_d06c, 0x3e3e_4f2f) == 0x431e_0000);
    lemma_whole_known(0x431e_0000, 0x9e_0000, 133, 0x1_0000);
}

/// The edge of code 157.
proof fn lemma_near_157()
    ensures
        near_exact_edge(0x3ead_d3a2, 157),
{
    lemma2_to64();
    lemma2_to64_rest();
    lemma_fifth_powers_of_two();
    lemma_more_fifth_powers_of_two();
    assert(171525nat * 171525 * 171525 == 0x11_edae_3780_4a7d);
    assert(269025nat * 269025 * 269025 == 0x45_2c59_9066_9ca1);
    assert(0x11_edae_3780_4a7dnat * 0x11_edae_3780_4a7d == 0x141_6dcf_685c_ecf3_1438_48ac_8109nat);
    assert(0x141_6dcf_685c_ecf3_1438_48ac_8109nat * 0x141_6dcf_685c_ecf3_1438_48ac_8109nat == 0x1_9394_913d_fff3_4c32_87b9_8bf9_5d03_e5d2_eb98_6359_58c2_b522_1251nat);
    assert(0x45_2c59_9066_9ca1nat * 0x45_2c59_9066_9ca1 == 0x12b0_eff6_c049_6d6d_d948_5020_9d41nat);
    assert(0x12b0_eff6_c049_6d6d_d948_5020_9d41nat * 0x12b0_eff6_c049_6d6d_d948_5020_9d41nat == 0x15d_5c09_8741_6139_2178_92b9_bce5_5f46_89a2_dd05_b95f_0d00_50d8_ca81nat);
    assert(0x365_002anat * 0x365_002a == 0xb_85da_1d24_06e4);
    assert(0xb_85da_1d24_06e4nat * 0xb_85da_1d24_06e4 == 0x84_c6ba_dd35_ab6d_d2f1_984f_7b10nat);
    assert(0x84_c6ba_dd35_ab6d_d2f1_984f_7b10nat * 0x365_002a == 0x1_c2b6_ae19_81d7_369b_2e1e_a16f_ba5a_30a0nat);
    assert(0x365_442anat * 0x365_442a == 0xb_87a7_d74a_56e4);
    assert(0xb_87a7_d74a_56e4nat * 0xb_87a7_d74a_56e4 == 0x84_f04e_f37e_7747_c901_514d_fb10nat);
    assert(0x84_f04e_f37e_7747_c901_514d_fb10nat * 0x365_442a == 0x1_c367_21a4_f1ec_711b_f4a4_5185_4acb_70a0nat);
    assert(0x1_c2b6_ae19_81d7_369b_2e1e_a16f_ba5a_30a0nat * 0x15d_5c09_8741_6139_2178_92b9_bce5_5f46_89a2_dd05_b95f_0d00_50d8_ca81nat == 0x267_1515_c5e4_bd51_cf43_4780_f54f_a733_a7cd_a8f2_0a61_332f_c2b0_4e54_2e70_433a_e932_8713_c92b_0da3_18d0_c0a0nat);
    assert(0x1_c367_21a4_f1ec_711b_f4a4_5185_4acb_70a0nat * 0x15d_5c09_8741_6139_2178_92b9_bce5_5f46_89a2_dd05_b95f_0d00_50d8_ca81nat == 0x268_05e2_bb13_f070_0442_8a63_10b2_bb16_2d1d_c063_e604_8981_07c5_4e3d_b3b5_1a19_8c89_b00d_1f0f_1008_3e62_00a0nat);
    assert(0xc35nat * 0x2000_0000_0000_0000_0000_0000_0000_0000nat == 0x186_a000_0000_0000_0000_0000_0000_0000_0000nat);
    assert(0x1_9394_913d_fff3_4c32_87b9_8bf9_5d03_e5d2_eb98_6359_58c2_b522_1251nat * 0x186_a000_0000_0000_0000_0000_0000_0000_0000nat == 0x267_d092_1f3a_ac9e_249a_597f_355f_8e12_8ef6_bd66_9835_1019_a31d_32d8_a000_0000_0000_0000_0000_0000_0000_0000nat);
    lemma_near_above(
        0x3ead_d3a2, 0xad_d3a2, 124, 0x200, 0x186_a000_0000_0000_0000_0000_0000_0000_0000nat, 157,
        171525, 0x11_edae_3780_4a7d,
        0x141_6dcf_685c_ecf3_1438_48ac_8109nat,
        0x45_2c59_9066_9ca1, 0x12b0_eff6_c049_6d6d_d948_5020_9d41nat,
        0x365_002a, 0xb_85da_1d24_06e4, 0x84_c6ba_dd35_ab6d_d2f1_984f_7b10nat,
        0x365_442a, 0xb_87a7_d74a_56e4, 0x84_f04e_f37e_7747_c901_514d_fb10nat,
    );
}

/// The value 0x3eb0_49a3.
proof fn lemma_at_3eb049a3()
    ensures
        chord_code(0x3eb0_49a3, 0x3ead_5e8d, 0x3eb5_5e8d, 0x431d_d06c, 0x4321_109e) == 158,
{
    reveal(chord_code);
    lemma2_to64();
    lemma2_to64_rest();
    lemma_high_powers();
    assert(0xb5_5e8d * 0x1 - 0xad_5e8d * 0x1 == 0x8_0000);
    lemma_sum_known(0x3eb5_5e8d, 0x3ead_5e8d, true, 0xb5_5e8d, 124, 0xad_5e8d, 124, 0x1, 0x1, 0x8_0000, 20, 0x8_0000, 0x10);
    assert(sub_spec(0x3eb5_5e8d, 0x3ead_5e8d) == 0x3c80_0000);
    assert(0xb0_49a3 * 0x1 - 0xad_5e8d * 0x1 == 0x2_eb16);
    lemma_sum_known(0x3eb0_49a3, 0x3ead_5e8d, true, 0xb0_49a3, 124, 0xad_5e8d, 124, 0x1, 0x1, 0x2_eb16, 18, 0x2_0000, 0x40);
    assert(sub_spec(0x3eb0_49a3, 0x3ead_5e8d) == 0x3bba_c580);
    assert(0xa1_109e * 0x1 - 0x9d_d06c * 0x1 == 0x3_4032);
    lemma_sum_known(0x4321_109e, 0x431d_d06c, true, 0xa1_109e, 133, 0x9d_d06c, 133, 0x1, 0x1, 0x3_4032, 18, 0x2_0000, 0x40);
    assert(sub_spec(0x4321_109e, 0x431d_d06c) == 0x4050_0c80);
    assert(0xd0_0c80 * 0xba_c580 == 0x97c9_96a4_c000);
    lemma_product_known(0x4050_0c80, 0x3bba_c580, 0xd0_0c80, 127, 0xba_c580, 118, 0x97c9_96a4_c000, 48, 0x8000_0000_0000, 0x100_0000);
    assert(mul_spec(0x4050_0c80, 0x3bba_c580) == 0x3c97_c997);
    assert(0x97_c997 * 0x1_0000_0000_0000_0000 == 0x1_2f93_2e00_0000_0000 * 0x80_0000 + 0x0);
    lemma_quotient_known(0x3c97_c997, 0x3c80_0000, 0x97_c997, 120, 0x80_0000, 120, 0x1_2f93_2e00_0000_0000, 0x0, 66, 0x2_0000_0000_0000_0000, 0x400_0000_0000);
    assert(div_spec(0x3c97_c997, 0x3c80_0000) == 0x3f97_c997);
    assert(0x9d_d06c * 0x80 + 0x97_c997 * 0x1 == 0x4f7f_ff97);
    lemma_sum_known(0x431d_d06c, 0x3f97_c997, false, 0x9d_d06c, 133, 0x97_c997, 126, 0x80, 0x1, 0x4f7f_ff97, 31, 0x4000_0000, 0x80);
    assert(add_spec(0x431d_d06c, 0x3f97_c997) == 0x431e_ffff);
    lemma_whole_known(0x431e_ffff, 0x9e_ffff, 133, 0x1_0000);
}

/// The value 0x3eb0_49a4.
proof fn lemma_at_3eb049a4()
    ensures
        chord_code(0x3eb0_49a4, 0x3ead_5e8d, 0x3eb5_5e8d, 0x431d_d06c, 0x4321_109e) == 159,
{
    reveal(chord_code);
    lemma2_to64();
    lemma2_to64_rest();
    lemma_high_powers();
    assert(0xb5_5e8d * 0x1 - 0xad_5e8d * 0x1 == 0x8_0000);
    lemma_sum_known(0x3eb5_5e8d, 0x3ead_5e8d, true, 0xb5_5e8d, 124, 0xad_5e8d, 124, 0x1, 0x1, 0x8_0000, 20, 0x8_0000, 0x10);
    assert(sub_spec(0x3eb5_5e8d, 0x3ead_5e8d) == 0x3c80_0000);
    assert(0xb0_49a4 * 0x1 - 0xad_5e8d * 0x1 == 0x2_eb17);
    lemma_sum_known(0x3eb0_49a4, 0x3ead_5e8d, true, 0xb0_49a4, 124, 0xad_5e8d, 124, 0x1, 0x1, 0x2_eb17, 18, 0x2_0000, 0x40);
    assert(sub_spec(0x3eb0_49a4, 0x3ead_5e8d) == 0x3bba_c5c0);
    assert(0xa1_109e * 0x1 - 0x9d_d06c * 0x1 == 0x3_4032);
    lemma_sum_known(0x4321_109e, 0x431d_d06c, true, 0xa1_109e, 133, 0x9d_d06c, 133, 0x1, 0x1, 0x3_4032, 18, 0x2_0000, 0x40);
    assert(sub_spec(0x4321_109e, 0x431d_d06c) == 0x4050_0c80);
    assert(0xd0_0c80 * 0xba_c5c0 == 0x97c9_caa7_e000);
    lemma_product_known(0x4050_0c80, 0x3bba_c5c0, 0xd0_0c80, 127, 0xba_c5c0, 118, 0x97c9_caa7_e000, 48, 0x8000_0000_0000, 0x100_0000);
    assert(mul_spec(0x4050_0c80, 0x3bba_c5c0) == 0x3c97_c9cb);
    assert(0x97_c9cb * 0x1_0000_0000_0000_0000 == 0x1_2f93_9600_0000_0000 * 0x80_0000 + 0x0);
    lemma_quotient_known(0x3c97_c9cb, 0x3c80_0000, 0x97_c9cb, 120, 0x80_0000, 120, 0x1_2f93_9600_0000_0000, 0x0, 66, 0x2_0000_0000_0000_0000, 0x400_0000_0000);
    assert(div_spec(0x3c97_c9cb, 0x3c80_0000) == 0x3f97_c9cb);
    assert(0x9d_d06c * 0x80 + 0x97_c9cb * 0x1 == 0x4f7f_ffcb);
    lemma_sum_known(0x431d_d06c, 0x3f97_c9cb, false, 0x9d_d06c, 133, 0x97_c9cb, 126, 0x80, 0x1, 0x4f7f_ffcb, 31, 0x4000_0000, 0x80);
    assert(add_spec(0x431d_d06c, 0x3f97_c9cb) == 0x431f_0000);
    lemma_whole_known(0x431f_0000, 0x9f_0000, 133, 0x1_0000);
}

/// The edge of code 158.
proof fn lemma_near_158()
    ensures
        near_exact_edge(0x3eb0_49a3, 158),
{
    lemma2_to64();
    lemma2_to64_rest();
    lemma_fifth_powers_of_two();
    lemma_more_fifth_powers_of_two();
    assert(172525nat * 172525 * 172525 == 0x12_3e6c_77bf_3b35);
    assert(269025nat * 269025 * 269025 == 0x45_2c59_9066_9ca1);
    assert(0x12_3e6c_77bf_3b35nat * 0x12_3e6c_77bf_3b35 == 0x14c_d679_8eda_357e_f89c_acc7_78f9nat);
    assert(0x14c_d679_8eda_357e_f89c_acc7_78f9nat * 0x14c_d679_8eda_357e_f89c_acc7_78f9nat == 0x1_b0bc_fef9_fa87_ecc2_7d65_1d95_a516_c084_df2b_b136_8573_e448_6231nat);
    assert(0x45_2c59_9066_9ca1nat * 0x45_2c59_9066_9ca1 == 0x12b0_eff6_c049_6d6d_d948_5020_9d41nat);
    assert(0x12b0_eff6_c049_6d6d_d948_5020_9d41nat * 0x12b0_eff6_c049_6d6d_d948_5020_9d41nat == 0x15d_5c09_8741_6139_2178_92b9_bce5_5f46_89a2_dd05_b95f_0d00_50d8_ca81nat);
    assert(0x371_4e2fnat * 0x371_4e2f == 0xb_d9fb_375e_aca1);
    assert(0xb_d9fb_375e_aca1nat * 0xb_d9fb_375e_aca1 == 0x8c_7532_9c86_f61f_46e6_68a4_bd41nat);
    assert(0x8c_7532_9c86_f61f_46e6_68a4_bd41nat * 0x371_4e2f == 0x1_e38a_38ab_9c70_dd67_b646_571e_b499_8cefnat);
    assert(0x371_922fnat * 0x371_922f == 0xb_dbcf_7af7_a4a1);
    assert(0xb_dbcf_7af7_a4a1nat * 0xb_dbcf_7af7_a4a1 == 0x8c_a091_35d3_f10e_aad6_8c8c_ad41nat);
    assert(0x8c_a091_35d3_f10e_aad6_8c8c_ad41nat * 0x371_922f == 0x1_e444_e11e_89bc_54dd_8b79_69ac_4553_e0efnat);
    assert(0x1_e38a_38ab_9c70_dd67_b646_571e_b499_8cefnat * 0x15d_5c09_8741_6139_2178_92b9_bce5_5f46_89a2_dd05_b95f_0d00_50d8_ca81nat == 0x293_e146_eda7_51bd_1176_fd2e_4db9_bb2d_08b6_f5e2_8f31_aa90_23dd_8927_ce3e_df1a_5f47_cc54_4461_a193_c43c_9a6fnat);
    assert(0x1_e444_e11e_89bc_54dd_8b79_69ac_4553_e0efnat * 0x15d_5c09_8741_6139_2178_92b9_bce5_5f46_89a2_dd05_b95f_0d00_50d8_ca81nat == 0x294_e001_add0_a970_a77c_b0db_1a8d_d70f_0b83_7e8a_6543_330a_a85e_d3a1_6e61_1704_bad6_0205_86b2_0693_9868_ee6fnat);
    assert(0xc35nat * 0x2000_0000_0000_0000_0000_0000_0000_0000nat == 0x186_a000_0000_0000_0000_0000_0000_0000_0000nat);
    assert(0x1_b0bc_fef9_fa87_ecc2_7d65_1d95_a516_c084_df2b_b136_8573_e448_6231nat * 0x186_a000_0000_0000_0000_0000_0000_0000_0000nat == 0x294_4e62_902f_e7a7_a444_966a_4477_07d7_82bf_080b_47d1_61f6_34f2_d404_a000_0000_0000_0000_0000_0000_0000_0000nat);
    lemma_near_above(
        0x3eb0_49a3, 0xb0_49a3, 124, 0x200, 0x186_a000_0000_0000_0000_0000_0000_0000_0000nat, 158,
        172525, 0x12_3e6c_77bf_3b35,
        0x14c_d679_8eda_357e_f89c_acc7_78f9nat,
        0x45_2c59_9066_9ca1, 0x12b0_eff6_c049_6d6d_d948_5020_9d41nat,
        0x371_4e2f, 0xb_d9fb_375e_aca1, 0x8c_7532_9c86_f61f_46e6_68a4_bd41nat,
        0x371_922f, 0xb_dbcf_7af7_a4a1, 0x8c_a091_35d3_f10e_aad6_8c8c_ad41nat,
    );
}

/// The value 0x3eb2_bfa5.
proof fn lemma_at_3eb2bfa5()
    ensures
        chord_code(0x3eb2_bfa5, 0x3ead_5e8d, 0x3eb5_5e8d, 0x431d_d06c, 0x4321_109e) == 159,
{
    reveal(chord_code);
    lemma2_to64();
    lemma2_to64_rest();
    lemma_high_powers();
    assert(0xb5_5e8d * 0x1 - 0xad_5e8d * 0x1 == 0x8_0000);
    lemma_sum_known(0x3eb5_5e8d, 0x3ead_5e8d, true, 0xb5_5e8d, 124, 0xad_5e8d, 124, 0x1, 0x1, 0x8_0000, 20, 0x8_0000, 0x10);
    assert(sub_spec(0x3eb5_5e8d, 0x3ead_5e8d) == 0x3c80_0000);
    assert(0xb2_bfa5 * 0x1 - 0xad_5e8d * 0x1 == 0x5_6118);
    lemma_sum_known(0x3eb2_bfa5, 0x3ead_5e8d, true, 0xb2_bfa5, 124, 0xad_5e8d, 124, 0x1, 0x1, 0x5_6118, 19, 0x4_0000, 0x20);
    assert(sub_spec(0x3eb2_bfa5, 0x3ead_5e8d) == 0x3c2c_2300);
    assert(0xa1_109e * 0x1 - 0x9d_d06c * 0x1 == 0x3_4032);
    lemma_sum_known(0x4321_109e, 0x431d_d06c, true, 0xa1_109e, 133, 0x9d_d06c, 133, 0x1, 0x1, 0x3_4032, 18, 0x2_0000, 0x40);
    assert(sub_spec(0x4321_109e, 0x431d_d06c) == 0x4050_0c80);
    assert(0xd0_0c80 * 0xac_2300 == 0x8be4_d7b5_8000);
    lemma_product_known(0x4050_0c80, 0x3c2c_2300, 0xd0_0c80, 127, 0xac_2300, 119, 0x8be4_d7b5_8000, 48, 0x8000_0000_0000, 0x100_0000);
    assert(mul_spec(0x4050_0c80, 0x3c2c_2300) == 0x3d0b_e4d8);
    assert(0x8b_e4d8 * 0x1_0000_0000_0000_0000 == 0x1_17c9_b000_0000_0000 * 0x80_0000 + 0x0);
    lemma_quotient_known(0x3d0b_e4d8, 0x3c80_0000, 0x8b_e4d8, 121, 0x80_0000, 120, 0x1_17c9_b000_0000_0000, 0x0, 66, 0x2_0000_0000_0000_0000, 0x400_0000_0000);
    assert(div_spec(0x3d0b_e4d8, 0x3c80_0000) == 0x400b_e4d8);
    assert(0x9d_d06c * 0x40 + 0x8b_e4d8 * 0x1 == 0x27ff_ffd8);
    lemma_sum_known(0x431d_d06c, 0x400b_e4d8, false, 0x9d_d06c, 133, 0x8b_e4d8, 127, 0x40, 0x1, 0x27ff_ffd8, 30, 0x2000_0000, 0x40);
    assert(add_spec(0x431d_d06c, 0x400b_e4d8) == 0x431f_ffff);
    lemma_whole_known(0x431f_ffff, 0x9f_ffff, 133, 0x1_0000);
}

/// The value 0x3eb2_bfa6.
proof fn lemma_at_3eb2bfa6()
    ensures
        chord_code(0x3eb2_bfa6, 0x3ead_5e8d, 0x3eb5_5e8d, 0x431d_d06c, 0x4321_109e) == 160,
{
    reveal(chord_code);
    lemma2_to64();
    lemma2_to64_rest();
    lemma_high_powers();
    assert(0xb5_5e8d * 0x1 - 0xad_5e8d * 0x1 == 0x8_0000);
    lemma_sum_known(0x3eb5_5e8d, 0x3ead_5e8d, true, 0xb5_5e8d, 124, 0xad_5e8d, 124, 0x1, 0x1, 0x8_0000, 20, 0x8_0000, 0x10);
    assert(sub_spec(0x3eb5_5e8d, 0x3ead_5e8d) == 0x3c80_0000);
    assert(0xb2_bfa6 * 0x1 - 0xad_5e8d * 0x1 == 0x5_6119);
    lemma_sum_known(0x3eb2_bfa6, 0x3ead_5e8d, true, 0xb2_bfa6, 124, 0xad_5e8d, 124, 0x1, 0x1, 0x5_6119, 19, 0x4_0000, 0x20);
    assert(sub_spec(0x3eb2_bfa6, 0x3ead_5e8d) == 0x3c2c_2320);
    assert(0xa1_109e * 0x1 - 0x9d_d06c * 0x1 == 0x3_4032);
    lemma_sum_known(0x4321_109e, 0x431d_d06c, true, 0xa1_109e, 133, 0x9d_d06c, 133, 0x1, 0x1, 0x3_4032, 18, 0x2_0000, 0x40);
    assert(sub_spec(0x4321_109e, 0x431d_d06c) == 0x4050_0c80);
    assert(0xd0_0c80 * 0xac_2320 == 0x8be4_f1b7_1000);
    lemma_product_known(0x4050_0c80, 0x3c2c_2320, 0xd0_0c80, 127, 0xac_2320, 119, 0x8be4_f1b7_1000, 48, 0x8000_0000_0000, 0x100_0000);
    assert(mul_spec(0x4050_0c80, 0x3c2c_2320) == 0x3d0b_e4f2);
    assert(0x8b_e4f2 * 0x1_0000_0000_0000_0000 == 0x1_17c9_e400_0000_0000 * 0x80_0000 + 0x0);
    lemma_quotient_known(0x3d0b_e4f2, 0x3c80_0000, 0x8b_e4f2, 121, 0x80_0000, 120, 0x1_17c9_e400_0000_0000, 0x0, 66, 0x2_0000_0000_0000_0000, 0x400_0000_0000);
    assert(div_spec(0x3d0b_e4f2, 0x3c80_0000) == 0x400b_e4f2);
    assert(0x9d_d06c * 0x40 + 0x8b_e4f2 * 0x1 == 0x27ff_fff2);
    lemma_sum_known(0x431d_d06c, 0x400b_e4f2, false, 0x9d_d06c, 133, 0x8b_e4f2, 127, 0x40, 0x1, 0x27ff_fff2, 30, 0x2000_0000, 0x40);
    assert(add_spec(0x431d_d06c, 0x400b_e4f2) == 0x4320_0000);
    lemma_whole_known(0x4320_0000, 0xa0_0000, 133, 0x1_0000);
}

/// The edge of code 159.
proof fn lemma_near_159()
    ensures
        near_exact_edge(0x3eb2_bfa5, 159),
{
    lemma2_to64();
    lemma2_to64_rest();
    lemma_fifth_powers_of_two();
    lemma_more_fifth_powers_of_two();
    assert(173525nat * 173525 * 173525 == 0x12_901b_bbbd_ab6d);
    assert(269025nat * 269025 * 269025 == 0x45_2c59_9066_9ca1);
    assert(0x12_901b_bbbd_ab6dnat * 0x12_901b_bbbd_ab6d == 0x158_9505_9ce2_9fdf_6df5_cfbc_cc69nat);
    assert(0x158_9505_9ce2_9fdf_6df5_cfbc_cc69nat * 0x158_9505_9ce2_9fdf_6df5_cfbc_cc69nat == 0x1_cfd0_d5d5_29cc_f790_d4cf_b32a_464b_321a_9128_9af1_88c8_ab6f_8311nat);
    assert(0x45_2c59_9066_9ca1nat * 0x45_2c59_9066_9ca1 == 0x12b0_eff6_c049_6d6d_d948_5020_9d41nat);
    assert(0x12b0_eff6_c049_6d6d_d948_5020_9d41nat * 0x12b0_eff6_c049_6d6d_d948_5020_9d41nat == 0x15d_5c09_8741_6139_2178_92b9_bce5_5f46_89a2_dd05_b95f_0d00_50d8_ca81nat);
    assert(0x37d_9c39nat * 0x37d_9c39 == 0xc_2f4b_44ff_84b1);
    assert(0xc_2f4b_44ff_84b1nat * 0xc_2f4b_44ff_84b1 == 0x94_77cb_316b_c3a1_7b3d_a565_0261nat);
    assert(0x94_77cb_316b_c3a1_7b3d_a565_0261nat * 0x37d_9c39 == 0x2_0640_79d9_e345_167f_dc17_f2dc_ad4d_a399nat);
    assert(0x37d_e039nat * 0x37d_e039 == 0xc_3126_120d_ccb1);
    assert(0xc_3126_120d_ccb1nat * 0xc_3126_120d_ccb1 == 0x94_a501_49dd_d652_7813_51a4_9261nat);
    assert(0x94_a501_49dd_d652_7813_51a4_9261nat * 0x37d_e039 == 0x2_0705_c6f8_88c0_2b99_bcd1_6ecf_ca16_7799nat);
    assert(0x2_0640_79d9_e345_167f_dc17_f2dc_ad4d_a399nat * 0x15d_5c09_8741_6139_2178_92b9_bce5_5f46_89a2_dd05_b95f_0d00_50d8_ca81nat == 0x2c3_4038_93e9_c6f8_6b48_053d_5753_874b_8b3c_3a4f_fe31_5bc9_a2e4_174e_d777_2174_9b42_5105_e623_c394_704e_2a19nat);
    assert(0x2_0705_c6f8_88c0_2b99_bcd1_6ecf_ca16_7799nat * 0x15d_5c09_8741_6139_2178_92b9_bce5_5f46_89a2_dd05_b95f_0d00_50d8_ca81nat == 0x2c4_4d79_a5c0_575e_e8c4_ed8c_8c21_19b1_aaa7_d21a_4c3e_3165_83a1_1486_6ed7_f6df_323e_3dcf_ec4c_197f_48c8_fe19nat);
    assert(0xc35nat * 0x2000_0000_0000_0000_0000_0000_0000_0000nat == 0x186_a000_0000_0000_0000_0000_0000_0000_0000nat);
    assert(0x1_cfd0_d5d5_29cc_f790_d4cf_b32a_464b_321a_9128_9af1_88c8_ab6f_8311nat * 0x186_a000_0000_0000_0000_0000_0000_0000_0000nat == 0x2c3_ba08_4862_e861_415e_b96c_c261_827d_53c9_be95_6ccd_5732_9707_5dd0_a000_0000_0000_0000_0000_0000_0000_0000nat);
    lemma_near_above(
        0x3eb2_bfa5, 0xb2_bfa5, 124, 0x200, 0x186_a000_0000_0000_0000_0000_0000_0000_0000nat, 159,
        173525, 0x12_901b_bbbd_ab6d,
        0x158_9505_9ce2_9fdf_6df5_cfbc_cc69nat,
        0x45_2c59_9066_9ca1, 0x12b0_eff6_c049_6d6d_d948_5020_9d41nat,
        0x37d_9c39, 0xc_2f4b_44ff_84b1, 0x94_77cb_316b_c3a1_7b3d_a565_0261nat,
        0x37d_e039, 0xc_3126_120d_ccb1, 0x94_a501_49dd_d652_7813_51a4_9261nat,
    );
}

/// The value 0x3eb5_35a6.
proof fn lemma_at_3eb535a6()
    ensures
        chord_code(0x3eb5_35a6, 0x3ead_5e8d, 0x3eb5_5e8d, 0x431d_d06c, 0x4321_109e) == 160,
{
    reveal(chord_code);
    lemma2_to64();
    lemma2_to64_rest();
    lemma_high_powers();
    assert(0xb5_5e8d * 0x1 - 0xad_5e8d * 0x1 == 0x8_0000);
    lemma_sum_known(0x3eb5_5e8d, 0x3ead_5e8d, true, 0xb5_5e8d, 124, 0xad_5e8d, 124, 0x1, 0x1, 0x8_0000, 20, 0x8_0000, 0x10);
    assert(sub_spec(0x3eb5_5e8d, 0x3ead_5e8d) == 0x3c80_0000);
    assert(0xb5_35a6 * 0x1 - 0xad_5e8d * 0x1 == 0x7_d719);
    lemma_sum_known(0x3eb5_35a6, 0x3ead_5e8d, true, 0xb5_35a6, 124, 0xad_5e8d, 124, 0x1, 0x1, 0x7_d719, 19, 0x4_0000, 0x20);
    assert(sub_spec(0x3eb5_35a6, 0x3ead_5e8d) == 0x3c7a_e320);
    assert(0xa1_109e * 0x1 - 0x9d_d06c * 0x1 == 0x3_4032);
    lemma_sum_known(0x4321_109e, 0x431d_d06c, true, 0xa1_109e, 133, 0x9d_d06c, 133, 0x1, 0x1, 0x3_4032, 18, 0x2_0000, 0x40);
    assert(sub_spec(0x4321_109e, 0x431d_d06c) == 0x4050_0c80);
    assert(0xd0_0c80 * 0xfa_e320 == 0xcbe4_ca17_1000);
    lemma_product_known(0x4050_0c80, 0x3c7a_e320, 0xd0_0c80, 127, 0xfa_e320, 119, 0xcbe4_ca17_1000, 48, 0x8000_0000_0000, 0x100_0000);
    assert(mul_spec(0x4050_0c80, 0x3c7a_e320) == 0x3d4b_e4ca);
    assert(0xcb_e4ca * 0x1_0000_0000_0000_0000 == 0x1_97c9_9400_0000_0000 * 0x80_0000 + 0x0);
    lemma_quotient_known(0x3d4b_e4ca, 0x3c80_0000, 0xcb_e4ca, 121, 0x80_0000, 120, 0x1_97c9_9400_0000_0000, 0x0, 66, 0x2_0000_0000_0000_0000, 0x400_0000_0000);
    assert(div_spec(0x3d4b_e4ca, 0x3c80_0000) == 0x404b_e4ca);
    assert(0x9d_d06c * 0x40 + 0xcb_e4ca * 0x1 == 0x283f_ffca);
    lemma_sum_known(0x431d_d06c, 0x404b_e4ca, false, 0x9d_d06c, 133, 0xcb_e4ca, 127, 0x40, 0x1, 0x283f_ffca, 30, 0x2000_0000, 0x40);
    assert(add_spec(0x431d_d06c, 0x404b_e4ca) == 0x4320_ffff);
    lemma_whole_known(0x4320_ffff, 0xa0_ffff, 133, 0x1_0000);
}

/// The value 0x3eb5_35a7.
proof fn lemma_at_3eb535a7()
    ensures
        chord_code(0x3eb5_35a7, 0x3ead_5e8d, 0x3eb5_5e8d, 0x431d_d06c, 0x4321_109e) == 161,
{
    reveal(chord_code);
    lemma2_to64();
    lemma2_to64_rest();
    lemma_high_powers();
    assert(0xb5_5e8d * 0x1 - 0xad_5e8d * 0x1 == 0x8_0000);
    lemma_sum_known(0x3eb5_5e8d, 0x3ead_5e8d, true, 0xb5_5e8d, 124, 0xad_5e8d, 124, 0x1, 0x1, 0x8_0000, 20, 0x8_0000, 0x10);
    assert(sub_spec(0x3eb5_5e8d, 0x3ead_5e8d) == 0x3c80_0000);
    assert(0xb5_35a7 * 0x1 - 0xad_5e8d * 0x1 == 0x7_d71a);
    lemma_sum_known(0x3eb5_35a7, 0x3ead_5e8d, true, 0xb5_35a7, 124, 0xad_5e8d, 124, 0x1, 0x1, 0x7_d71a, 19, 0x4_0000, 0x20);
    assert(sub_spec(0x3eb5_35a7, 0x3ead_5e8d) == 0x3c7a_e340);
    assert(0xa1_109e * 0x1 - 0x9d_d06c * 0x1 == 0x3_4032);
    lemma_sum_known(0x4321_109e, 0x431d_d06c, true, 0xa1_109e, 133, 0x9d_d06c, 133, 0x1, 0x1, 0x3_4032, 18, 0x2_0000, 0x40);
    assert(sub_spec(0x4321_109e, 0x431d_d06c) == 0x4050_0c80);
    assert(0xd0_0c80 * 0xfa_e340 == 0xcbe4_e418_a000);
    lemma_product_known(0x4050_0c80, 0x3c7a_e340, 0xd0_0c80, 127, 0xfa_e340, 119, 0xcbe4_e418_a000, 48, 0x8000_0000_0000, 0x100_0000);
    assert(mul_spec(0x4050_0c80, 0x3c7a_e340) == 0x3d4b_e4e4);
    assert(0xcb_e4e4 * 0x1_0000_0000_0000_0000 == 0x1_97c9_c800_0000_0000 * 0x80_0000 + 0x0);
    lemma_quotient_known(0x3d4b_e4e4, 0x3c80_0000, 0xcb_e4e4, 121, 0x80_0000, 120, 0x1_97c9_c800_0000_0000, 0x0, 66, 0x2_0000_0000_0000_0000, 0x400_0000_0000);
    assert(div_spec(0x3d4b_e4e4, 0x3c80_0000) == 0x404b_e4e4);
    assert(0x9d_d06c * 0x40 + 0xcb_e4e4 * 0x1 == 0x283f_ffe4);
    lemma_sum_known(0x431d_d06c, 0x404b_e4e4, false, 0x9d_d06c, 133, 0xcb_e4e4, 127, 0x40, 0x1, 0x283f_ffe4, 30, 0x2000_0000, 0x40);
    assert(add_spec(0x431d_d06c, 0x404b_e4e4) == 0x4321_0000);
    lemma_whole_known(0x4321_0000, 0xa1_0000, 133, 0x1_0000);
}

/// The edge of code 160.
proof fn lemma_near_160()
    ensures
        near_exact_edge(0x3eb5_35a6, 160),
{
    lemma2_to64();
    lemma2_to64_rest();
    lemma_fifth_powers_of_two();
    lemma_more_fifth_powers_of_two();
    assert(174525nat * 174525 * 174525 == 0x12_e2bd_691c_5725);
    assert(269025nat * 269025 * 269025 == 0x45_2c59_9066_9ca1);
    assert(0x12_e2bd_691c_5725nat * 0x12_e2bd_691c_5725 == 0x164_ab75_c1b6_aa12_4341_87c2_2b59nat);
    assert(0x164_ab75_c1b6_aa12_4341_87c2_2b59nat * 0x164_ab75_c1b6_aa12_4341_87c2_2b59nat == 0x1_f0ed_5259_4afd_ad8b_d792_65a8_bf6c_e1fc_2b42_27cc_f62f_983b_04f1nat);
    assert(0x45_2c59_9066_9ca1nat * 0x45_2c59_9066_9ca1 == 0x12b0_eff6_c049_6d6d_d948_5020_9d41nat);
    assert(0x12b0_eff6_c049_6d6d_d948_5020_9d41nat * 0x12b0_eff6_c049_6d6d_d948_5020_9d41nat == 0x15d_5c09_8741_6139_2178_92b9_bce5_5f46_89a2_dd05_b95f_0d00_50d8_ca81nat);
    assert(0x389_ea3enat * 0x389_ea3e == 0xc_85ca_00b1_6704);
    assert(0xc_85ca_00b1_6704nat * 0xc_85ca_00b1_6704 == 0x9c_d0db_94bf_1561_353f_9cfc_3810nat);
    assert(0x9c_d0db_94bf_1561_353f_9cfc_3810nat * 0x389_ea3e == 0x2_2aed_d524_22a7_4477_4619_0288_c0e4_33e0nat);
    assert(0x38a_2e3enat * 0x38a_2e3e == 0xc_87ab_5732_5704);
    assert(0xc_87ab_5732_5704nat * 0xc_87ab_5732_5704 == 0x9c_fff6_555c_db19_b862_d323_b810nat);
    assert(0x9c_fff6_555c_db19_b862_d323_b810nat * 0x38a_2e3e == 0x2_2bbe_39ce_5b9e_c4e2_3d1b_a648_f659_73e0nat);
    assert(0x2_2aed_d524_22a7_4477_4619_0288_c0e4_33e0nat * 0x15d_5c09_8741_6139_2178_92b9_bce5_5f46_89a2_dd05_b95f_0d00_50d8_ca81nat == 0x2f5_4dbd_b269_dd4a_cccf_033f_1cf5_eef2_9f22_7240_c607_d9ce_1426_b0a8_9a35_2c5c_ff1d_66a6_a506_9fdf_08ec_e3e0nat);
    assert(0x2_2bbe_39ce_5b9e_c4e2_3d1b_a648_f659_73e0nat * 0x15d_5c09_8741_6139_2178_92b9_bce5_5f46_89a2_dd05_b95f_0d00_50d8_ca81nat == 0x2f6_6a21_da68_5778_4964_da8d_07dd_13e8_bdd7_c62e_76da_3fe6_f857_ff0b_1142_d542_576b_5555_21b2_8cd6_7d82_23e0nat);
    assert(0xc35nat * 0x2000_0000_0000_0000_0000_0000_0000_0000nat == 0x186_a000_0000_0000_0000_0000_0000_0000_0000nat);
    assert(0x1_f0ed_5259_4afd_ad8b_d792_65a8_bf6c_e1fc_2b42_27cc_f62f_983b_04f1nat * 0x186_a000_0000_0000_0000_0000_0000_0000_0000nat == 0x2f6_401f_c780_0d54_ef81_cfc2_5e9d_1784_5367_81d1_fb1f_265f_a90e_6a3c_a000_0000_0000_0000_0000_0000_0000_0000nat);
    lemma_near_above(
        0x3eb5_35a6, 0xb5_35a6, 124, 0x200, 0x186_a000_0000_0000_0000_0000_0000_0000_0000nat, 160,
        174525, 0x12_e2bd_691c_5725,
        0x164_ab75_c1b6_aa12_4341_87c2_2b59nat,
        0x45_2c59_9066_9ca1, 0x12b0_eff6_c049_6d6d_d948_5020_9d41nat,
        0x389_ea3e, 0xc_85ca_00b1_6704, 0x9c_d0db_94bf_1561_353f_9cfc_3810nat,
        0x38a_2e3e, 0xc_87ab_5732_5704, 0x9c_fff6_555c_db19_b862_d323_b810nat,
    );
}

/// The value 0x3eb7_badc.
proof fn lemma_at_3eb7badc()
    ensures
        chord_code(0x3eb7_badc, 0x3eb5_5e8d, 0x3ebd_5e8d, 0x4321_109e, 0x4324_3be0) == 161,
{
    reveal(chord_code);
    lemma2_to64();
    lemma2_to64_rest();
    lemma_high_powers();
    assert(0xbd_5e8d * 0x1 - 0xb5_5e8d * 0x1 == 0x8_0000);
    lemma_sum_known(0x3ebd_5e8d, 0x3eb5_5e8d, true, 0xbd_5e8d, 124, 0xb5_5e8d, 124, 0x1, 0x1, 0x8_0000, 20, 0x8_0000, 0x10);
    assert(sub_spec(0x3ebd_5e8d, 0x3eb5_5e8d) == 0x3c80_0000);
    assert(0xb7_badc * 0x1 - 0xb5_5e8d * 0x1 == 0x2_5c4f);
    lemma_sum_known(0x3eb7_badc, 0x3eb5_5e8d, true, 0xb7_badc, 124, 0xb5_5e8d, 124, 0x1, 0x1, 0x2_5c4f, 18, 0x2_0000, 0x40);
    assert(sub_spec(0x3eb7_badc, 0x3eb5_5e8d) == 0x3b97_13c0);
    assert(0xa4_3be0 * 0x1 - 0xa1_109e * 0x1 == 0x3_2b42);
    lemma_sum_known(0x4324_3be0, 0x4321_109e, true, 0xa4_3be0, 133, 0xa1_109e, 133, 0x1, 0x1, 0x3_2b42, 18, 0x2_0000, 0x40);
    assert(sub_spec(0x4324_3be0, 0x4321_109e) == 0x404a_d080);
    assert(0xca_d080 * 0x97_13c0 == 0x77b0_a115_e000);
    lemma_product_known(0x404a_d080, 0x3b97_13c0, 0xca_d080, 127, 0x97_13c0, 118, 0x77b0_a115_e000, 47, 0x4000_0000_0000, 0x80_0000);
    assert(mul_spec(0x404a_d080, 0x3b97_13c0) == 0x3c6f_6142);
    assert(0xef_6142 * 0x1_0000_0000_0000_0000 == 0x1_dec2_8400_0000_0000 * 0x80_0000 + 0x0);
    lemma_quotient_known(0x3c6f_6142, 0x3c80_0000, 0xef_6142, 119, 0x80_0000, 120, 0x1_dec2_8400_0000_0000, 0x0, 66, 0x2_0000_0000_0000_0000, 0x400_0000_0000);
    assert(div_spec(0x3c6f_6142, 0x3c80_0000) == 0x3f6f_6142);
    assert(0xa1_109e * 0x100 + 0xef_6142 * 0x1 == 0xa1ff_ff42);
    lemma_sum_known(0x4321_109e, 0x3f6f_6142, false, 0xa1_109e, 133, 0xef_6142, 125, 0x100, 0x1, 0xa1ff_ff42, 32, 0x8000_0000, 0x100);
    assert(add_spec(0x4321_109e, 0x3f6f_6142) == 0x4321_ffff);
    lemma_whole_known(0x4321_ffff, 0xa1_ffff, 133, 0x1_0000);
}

/// The value 0x3eb7_badd.
proof fn lemma_at_3eb7badd()
    ensures
        chord_code(0x3eb7_badd, 0x3eb5_5e8d, 0x3ebd_5e8d, 0x4321_109e, 0x4324_3be0) == 162,
{
    reveal(chord_code);
    lemma2_to64();
    lemma2_to64_rest();
    lemma_high_powers();
    assert(0xbd_5e8d * 0x1 - 0xb5_5e8d * 0x1 == 0x8_0000);
    lemma_sum_known(0x3ebd_5e8d, 0x3eb5_5e8d, true, 0xbd_5e8d, 124, 0xb5_5e8d, 124, 0x1, 0x1, 0x8_0000, 20, 0x8_0000, 0x10);
    assert(sub_spec(0x3ebd_5e8d, 0x3eb5_5e8d) == 0x3c80_0000);
    assert(0xb7_badd * 0x1 - 0xb5_5e8d * 0x1 == 0x2_5c50);
    lemma_sum_known(0x3eb7_badd, 0x3eb5_5e8d, true, 0xb7_badd, 124, 0xb5_5e8d, 124, 0x1, 0x1, 0x2_5c50, 18, 0x2_0000, 0x40);
    assert(sub_spec(0x3eb7_badd, 0x3eb5_5e8d) == 0x3b97_1400);
    assert(0xa4_3be0 * 0x1 - 0xa1_109e * 0x1 == 0x3_2b42);
    lemma_sum_known(0x4324_3be0, 0x4321_109e, true, 0xa4_3be0, 133, 0xa1_109e, 133, 0x1, 0x1, 0x3_2b42, 18, 0x2_0000, 0x40);
    assert(sub_spec(0x4324_3be0, 0x4321_109e) == 0x404a_d080);
    assert(0xca_d080 * 0x97_1400 == 0x77b0_d3ca_0000);
    lemma_product_known(0x404a_d080, 0x3b97_1400, 0xca_d080, 127, 0x97_1400, 118, 0x77b0_d3ca_0000, 47, 0x4000_0000_0000, 0x80_0000);
    assert(mul_spec(0x404a_d080, 0x3b97_1400) == 0x3c6f_61a8);
    assert(0xef_61a8 * 0x1_0000_0000_0000_0000 == 0x1_dec3_5000_0000_0000 * 0x80_0000 + 0x0);
    lemma_quotient_known(0x3c6f_61a8, 0x3c80_0000, 0xef_61a8, 119, 0x80_0000, 120, 0x1_dec3_5000_0000_0000, 0x0, 66, 0x2_0000_0000_0000_0000, 0x400_0000_0000);
    assert(div_spec(0x3c6f_61a8, 0x3c80_0000) == 0x3f6f_61a8);
    assert(0xa1_109e * 0x100 + 0xef_61a8 * 0x1 == 0xa1ff_ffa8);
    lemma_sum_known(0x4321_109e, 0x3f6f_61a8, false, 0xa1_109e, 133, 0xef_61a8, 125, 0x100, 0x1, 0xa1ff_ffa8, 32, 0x8000_0000, 0x100);
    assert(add_spec(0x4321_109e, 0x3f6f_61a8) == 0x4322_0000);
    lemma_whole_known(0x4322_0000, 0xa2_0000, 133, 0x1_0000);
}

/// The edge of code 161.
proof fn lemma_near_161()
    ensures
        near_exact_edge(0x3eb7_badc, 161),
{
    lemma2_to64();
    lemma2_to64_rest();
    lemma_fifth_powers_of_two();
    lemma_more_fifth_powers_of_two();
    assert(175525nat * 175525 * 175525 == 0x13_3652_e57b_fa5d);
    assert(269025nat * 269025 * 269025 == 0x45_2c59_9066_9ca1);
    assert(0x13_3652_e57b_fa5dnat * 0x13_3652_e57b_fa5d == 0x171_1bd5_240f_4890_a988_ec37_c5c9nat);
    assert(0x171_1bd5_240f_4890_a988_ec37_c5c9nat * 0x171_1bd5_240f_4890_a988_ec37_c5c9nat == 0x2_1431_3f78_9b1f_70da_4e88_3da9_1791_13d2_e4ab_0a7c_6861_2d2c_f7d1nat);
    assert(0x45_2c59_9066_9ca1nat * 0x45_2c59_9066_9ca1 == 0x12b0_eff6_c049_6d6d_d948_5020_9d41nat);
    assert(0x12b0_eff6_c049_6d6d_d948_5020_9d41nat * 0x12b0_eff6_c049_6d6d_d948_5020_9d41nat == 0x15d_5c09_8741_6139_2178_92b9_bce5_5f46_89a2_dd05_b95f_0d00_50d8_ca81nat);
    assert(0x396_844cnat * 0x396_844c == 0xc_df99_156e_7690);
    assert(0xc_df99_156e_7690nat * 0xc_df99_156e_7690 == 0xa5_b9a6_113c_2fe3_e73d_baa9_1100nat);
    assert(0xa5_b9a6_113c_2fe3_e73d_baa9_1100nat * 0x396_844c == 0x2_529d_5e6e_8c03_e1ce_f23f_d4d5_8cf5_0c00nat);
    assert(0x396_c84cnat * 0x396_c84c == 0xc_e181_1dc6_d690);
    assert(0xc_e181_1dc6_d690nat * 0xc_e181_1dc6_d690 == 0xa5_eabf_021a_a884_042d_3a95_1100nat);
    assert(0xa5_eabf_021a_a884_042d_3a95_1100nat * 0x396_c84c == 0x2_5379_9998_75f1_bcf8_24a4_a5bc_cf89_0c00nat);
    assert(0x2_529d_5e6e_8c03_e1ce_f23f_d4d5_8cf5_0c00nat * 0x15d_5c09_8741_6139_2178_92b9_bce5_5f46_89a2_dd05_b95f_0d00_50d8_ca81nat == 0x32b_7650_6c55_c612_c1e1_6ad3_66c7_01a0_f8a2_2c8c_cdd0_812d_c44d_c88f_962d_d42b_4082_e590_a5f2_4357_82f3_0c00nat);
    assert(0x2_5379_9998_75f1_bcf8_24a4_a5bc_cf89_0c00nat * 0x15d_5c09_8741_6139_2178_92b9_bce5_5f46_89a2_dd05_b95f_0d00_50d8_ca81nat == 0x32c_a2dc_41ef_2f53_00bc_4e1d_2409_11b3_53df_d34c_e5b0_1c4d_3fdf_084f_17e5_20a3_6f3d_44bc_a384_6f48_d787_0c00nat);
    assert(0xc35nat * 0x2000_0000_0000_0000_0000_0000_0000_0000nat == 0x186_a000_0000_0000_0000_0000_0000_0000_0000nat);
    assert(0x2_1431_3f78_9b1f_70da_4e88_3da9_1791_13d2_e4ab_0a7c_6861_2d2c_f7d1nat * 0x186_a000_0000_0000_0000_0000_0000_0000_0000nat == 0x32c_0fa5_7967_b2d9_931c_14a3_1623_95be_dfac_2b7c_e014_c547_8ebd_a348_a000_0000_0000_0000_0000_0000_0000_0000nat);
    lemma_near_above(
        0x3eb7_badc, 0xb7_badc, 124, 0x200, 0x186_a000_0000_0000_0000_0000_0000_0000_0000nat, 161,
        175525, 0x13_3652_e57b_fa5d,
        0x171_1bd5_240f_4890_a988_ec37_c5c9nat,
        0x45_2c59_9066_9ca1, 0x12b0_eff6_c049_6d6d_d948_5020_9d41nat,
        0x396_844c, 0xc_df99_156e_7690, 0xa5_b9a6_113c_2fe3_e73d_baa9_1100nat,
        0x396_c84c, 0xc_e181_1dc6_d690, 0xa5_eabf_021a_a884_042d_3a95_1100nat,
    );
}

/// The value 0x3eba_4120.
proof fn lemma_at_3eba4120()
    ensures
        chord_code(0x3eba_4120, 0x3eb5_5e8d, 0x3ebd_5e8d, 0x4321_109e, 0x4324_3be0) == 162,
{
    reveal(chord_code);
    lemma2_to64();
    lemma2_to64_rest();
    lemma_high_powers();
    assert(0xbd_5e8d * 0x1 - 0xb5_5e8d * 0x1 == 0x8_0000);
    lemma_sum_known(0x3ebd_5e8d, 0x3eb5_5e8d, true, 0xbd_5e8d, 124, 0xb5_5e8d, 124, 0x1, 0x1, 0x8_0000, 20, 0x8_0000, 0x10);
    assert(sub_spec(0x3ebd_5e8d, 0x3eb5_5e8d) == 0x3c80_0000);
    assert(0xba_4120 * 0x1 - 0xb5_5e8d * 0x1 == 0x4_e293);
    lemma_sum_known(0x3eba_4120, 0x3eb5_5e8d, true, 0xba_4120, 124, 0xb5_5e8d, 124, 0x1, 0x1, 0x4_e293, 19, 0x4_0000, 0x20);
    assert(sub_spec(0x3eba_4120, 0x3eb5_5e8d) == 0x3c1c_5260);
    assert(0xa4_3be0 * 0x1 - 0xa1_109e * 0x1 == 0x3_2b42);
    lemma_sum_known(0x4324_3be0, 0x4321_109e, true, 0xa4_3be0, 133, 0xa1_109e, 133, 0x1, 0x1, 0x3_2b42, 18, 0x2_0000, 0x40);
    assert(sub_spec(0x4324_3be0, 0x4321_109e) == 0x404a_d080);
    assert(0xca_d080 * 0x9c_5260 == 0x7bd8_50d7_3000);
    lemma_product_known(0x404a_d080, 0x3c1c_5260, 0xca_d080, 127, 0x9c_5260, 119, 0x7bd8_50d7_3000, 47, 0x4000_0000_0000, 0x80_0000);
    assert(mul_spec(0x404a_d080, 0x3c1c_5260) == 0x3cf7_b0a2);
    assert(0xf7_b0a2 * 0x1_0000_0000_0000_0000 == 0x1_ef61_4400_0000_0000 * 0x80_0000 + 0x0);
    lemma_quotient_known(0x3cf7_b0a2, 0x3c80_0000, 0xf7_b0a2, 120, 0x80_0000, 120, 0x1_ef61_4400_0000_0000, 0x0, 66, 0x2_0000_0000_0000_0000, 0x400_0000_0000);
    assert(div_spec(0x3cf7_b0a2, 0x3c80_0000) == 0x3ff7_b0a2);
    assert(0xa1_109e * 0x80 + 0xf7_b0a2 * 0x1 == 0x517f_ffa2);
    lemma_sum_known(0x4321_109e, 0x3ff7_b0a2, false, 0xa1_109e, 133, 0xf7_b0a2, 126, 0x80, 0x1, 0x517f_ffa2, 31, 0x4000_0000, 0x80);
    assert(add_spec(0x4321_109e, 0x3ff7_b0a2) == 0x4322_ffff);
    lemma_whole_known(0x4322_ffff, 0xa2_ffff, 133, 0x1_0000);
}

/// The value 0x3eba_4121.
proof fn lemma_at_3eba4121()
    ensures
        chord_code(0x3eba_4121, 0x3eb5_5e8d, 0x3ebd_5e8d, 0x4321_109e, 0x4324_3be0) == 163,
{
    reveal(chord_code);
    lemma2_to64();
    lemma2_to64_rest();
    lemma_high_powers();
    assert(0xbd_5e8d * 0x1 - 0xb5_5e8d * 0x1 == 0x8_0000);
    lemma_sum_known(0x3ebd_5e8d, 0x3eb5_5e8d, true, 0xbd_5e8d, 124, 0xb5_5e8d, 124, 0x1, 0x1, 0x8_0000, 20, 0x8_0000, 0x10);
    assert(sub_spec(0x3ebd_5e8d, 0x3eb5_5e8d) == 0x3c80_0000);
    assert(0xba_4121 * 0x1 - 0xb5_5e8d * 0x1 == 0x4_e294);
    lemma_sum_known(0x3eba_4121, 0x3eb5_5e8d, true, 0xba_4121, 124, 0xb5_5e8d, 124, 0x1, 0x1, 0x4_e294, 19, 0x4_0000, 0x20);
    assert(sub_spec(0x3eba_4121, 0x3eb5_5e8d) == 0x3c1c_5280);
    assert(0xa4_3be0 * 0x1 - 0xa1_109e * 0x1 == 0x3_2b42);
    lemma_sum_known(0x4324_3be0, 0x4321_109e, true, 0xa4_3be0, 133, 0xa1_109e, 133, 0x1, 0x1, 0x3_2b42, 18, 0x2_0000, 0x40);
    assert(sub_spec(0x4324_3be0, 0x4321_109e) == 0x404a_d080);
    assert(0xca_d080 * 0x9c_5280 == 0x7bd8_6a31_4000);
    lemma_product_known(0x404a_d080, 0x3c1c_5280, 0xca_d080, 127, 0x9c_5280, 119, 0x7bd8_6a31_4000, 47, 0x4000_0000_0000, 0x80_0000);
    assert(mul_spec(0x404a_d080, 0x3c1c_5280) == 0x3cf7_b0d4);
    assert(0xf7_b0d4 * 0x1_0000_0000_0000_0000 == 0x1_ef61_a800_0000_0000 * 0x80_0000 + 0x0);
    lemma_quotient_known(0x3cf7_b0d4, 0x3c80_0000, 0xf7_b0d4, 120, 0x80_0000, 120, 0x1_ef61_a800_0000_0000, 0x0, 66, 0x2_0000_0000_0000_0000, 0x400_0000_0000);
    assert(div_spec(0x3cf7_b0d4, 0x3c80_0000) == 0x3ff7_b0d4);
    assert(0xa1_109e * 0x80 + 0xf7_b0d4 * 0x1 == 0x517f_ffd4);
    lemma_sum_known(0x4321_109e, 0x3ff7_b0d4, false, 0xa1_109e, 133, 0xf7_b0d4, 126, 0x80, 0x1, 0x517f_ffd4, 31, 0x4000_0000, 0x80);
    assert(add_spec(0x4321_109e, 0x3ff7_b0d4) == 0x4323_0000);
    lemma_whole_known(0x4323_0000, 0xa3_0000, 133, 0x1_0000);
}

/// The edge of code 162.
proof fn lemma_near_162()
    ensures
        near_exact_edge(0x3eba_4120, 162),
{
    lemma2_to64();
    lemma2_to64_rest();
    lemma_fifth_powers_of_two();
    lemma_more_fifth_powers_of_two();
    assert(176525nat * 176525 * 176525 == 0x13_8add_967d_5115);
    assert(269025nat * 269025 * 269025 == 0x45_2c59_9066_9ca1);
    assert(0x13_8add_967d_5115nat * 0x13_8add_967d_5115 == 0x17d_e837_fca6_515d_ba9e_e430_4bb9nat);
    assert(0x17d_e837_fca6_515d_ba9e_e430_4bb9nat * 0x17d_e837_fca6_515d_ba9e_e430_4bb9nat == 0x2_39bd_094b_8d3a_2d46_31b7_8c72_4462_8918_0d22_bb76_5c5a_03c5_ebb1nat);
    assert(0x45_2c59_9066_9ca1nat * 0x45_2c59_9066_9ca1 == 0x12b0_eff6_c049_6d6d_d948_5020_9d41nat);
    assert(0x12b0_eff6_c049_6d6d_d948_5020_9d41nat * 0x12b0_eff6_c049_6d6d_d948_5020_9d41nat == 0x15d_5c09_8741_6139_2178_92b9_bce5_5f46_89a2_dd05_b95f_0d00_50d8_ca81nat);
    assert(0x3a3_23a0nat * 0x3a3_23a0 == 0xd_3acc_22b5_2400);
    assert(0xd_3acc_22b5_2400nat * 0xd_3acc_22b5_2400 == 0xaf_063c_a8e7_11b5_fdbb_ed10_0000nat);
    assert(0xaf_063c_a8e7_11b5_fdbb_ed10_0000nat * 0x3a3_23a0 == 0x2_7c9c_09d8_7156_90b0_b5de_680d_5a00_0000nat);
    assert(0x3a3_67a0nat * 0x3a3_67a0 == 0xd_3cba_dfb2_2400);
    assert(0xd_3cba_dfb2_2400nat * 0xd_3cba_dfb2_2400 == 0xaf_3962_d95c_fb34_26ae_1510_0000nat);
    assert(0xaf_3962_d95c_fb34_26ae_1510_0000nat * 0x3a3_67a0 == 0x2_7d84_a017_2061_d1d7_a73e_d076_9a00_0000nat);
    assert(0x2_7c9c_09d8_7156_90b0_b5de_680d_5a00_0000nat * 0x15d_5c09_8741_6139_2178_92b9_bce5_5f46_89a2_dd05_b95f_0d00_50d8_ca81nat == 0x364_c599_3171_82ef_2e61_1c79_8678_9c6e_5695_d0bd_1f10_5fc8_08fc_e0ae_cd93_20ac_0900_604b_1a90_e7be_5a00_0000nat);
    assert(0x2_7d84_a017_2061_d1d7_a73e_d076_9a00_0000nat * 0x15d_5c09_8741_6139_2178_92b9_bce5_5f46_89a2_dd05_b95f_0d00_50d8_ca81nat == 0x366_0301_a38c_d704_bc56_746e_219f_3155_5835_4c42_a577_18bc_d333_b14b_dffc_2107_36fa_d199_cb56_9147_9a00_0000nat);
    assert(0xc35nat * 0x2000_0000_0000_0000_0000_0000_0000_0000nat == 0x186_a000_0000_0000_0000_0000_0000_0000_0000nat);
    assert(0x2_39bd_094b_8d3a_2d46_31b7_8c72_4462_8918_0d22_bb76_5c5a_03c5_ebb1nat * 0x186_a000_0000_0000_0000_0000_0000_0000_0000nat == 0x365_5a12_4ee8_5ee5_553b_9cb2_addb_98da_7053_0b1f_4b7a_aada_01e0_c2f4_a000_0000_0000_0000_0000_0000_0000_0000nat);
    lemma_near_above(
        0x3eba_4120, 0xba_4120, 124, 0x200, 0x186_a000_0000_0000_0000_0000_0000_0000_0000nat, 162,
        176525, 0x13_8add_967d_5115,
        0x17d_e837_fca6_515d_ba9e_e430_4bb9nat,
        0x45_2c59_9066_9ca1, 0x12b0_eff6_c049_6d6d_d948_5020_9d41nat,
        0x3a3_23a0, 0xd_3acc_22b5_2400, 0xaf_063c_a8e7_11b5_fdbb_ed10_0000nat,
        0x3a3_67a0, 0xd_3cba_dfb2_2400, 0xaf_3962_d95c_fb34_26ae_1510_0000nat,
    );
}

/// The value 0x3ebc_c764.
proof fn lemma_at_3ebcc764()
    ensures
        chord_code(0x3ebc_c764, 0x3eb5_5e8d, 0x3ebd_5e8d, 0x4321_109e, 0x4324_3be0) == 163,
{
    reveal(chord_code);
    lemma2_to64();
    lemma2_to64_rest();
    lemma_high_powers();
    assert(0xbd_5e8d * 0x1 - 0xb5_5e8d * 0x1 == 0x8_0000);
    lemma_sum_known(0x3ebd_5e8d, 0x3eb5_5e8d, true, 0xbd_5e8d, 124, 0xb5_5e8d, 124, 0x1, 0x1, 0x8_0000, 20, 0x8_0000, 0x10);
    assert(sub_spec(0x3ebd_5e8d, 0x3eb5_5e8d) == 0x3c80_0000);
    assert(0xbc_c764 * 0x1 - 0xb5_5e8d * 0x1 == 0x7_68d7);
    lemma_sum_known(0x3ebc_c764, 0x3eb5_5e8d, true, 0xbc_c764, 124, 0xb5_5e8d, 124, 0x1, 0x1, 0x7_68d7, 19, 0x4_0000, 0x20);
    assert(sub_spec(0x3ebc_c764, 0x3eb5_5e8d) == 0x3c6d_1ae0);
    assert(0xa4_3be0 * 0x1 - 0xa1_109e * 0x1 == 0x3_2b42);
    lemma_sum_known(0x4324_3be0, 0x4321_109e, true, 0xa4_3be0, 133, 0xa1_109e, 133, 0x1, 0x1, 0x3_2b42, 18, 0x2_0000, 0x40);
    assert(sub_spec(0x4324_3be0, 0x4321_109e) == 0x404a_d080);
    assert(0xca_d080 * 0xed_1ae0 == 0xbbd8_5123_7000);
    lemma_product_known(0x404a_d080, 0x3c6d_1ae0, 0xca_d080, 127, 0xed_1ae0, 119, 0xbbd8_5123_7000, 48, 0x8000_0000_0000, 0x100_0000);
    assert(mul_spec(0x404a_d080, 0x3c6d_1ae0) == 0x3d3b_d851);
    assert(0xbb_d851 * 0x1_0000_0000_0000_0000 == 0x1_77b0_a200_0000_0000 * 0x80_0000 + 0x0);
    lemma_quotient_known(0x3d3b_d851, 0x3c80_0000, 0xbb_d851, 121, 0x80_0000, 120, 0x1_77b0_a200_0000_0000, 0x0, 66, 0x2_0000_0000_0000_0000, 0x400_0000_0000);
    assert(div_spec(0x3d3b_d851, 0x3c80_0000) == 0x403b_d851);
    assert(0xa1_109e * 0x40 + 0xbb_d851 * 0x1 == 0x28ff_ffd1);
    lemma_sum_known(0x4321_109e, 0x403b_d851, false, 0xa1_109e, 133, 0xbb_d851, 127, 0x40, 0x1, 0x28ff_ffd1, 30, 0x2000_0000, 0x40);
    assert(add_spec(0x4321_109e, 0x403b_d851) == 0x4323_ffff);
    lemma_whole_known(0x4323_ffff, 0xa3_ffff, 133, 0x1_0000);
}

/// The value 0x3ebc_c765.
proof fn lemma_at_3ebcc765()
    ensures
        chord_code(0x3ebc_c765, 0x3eb5_5e8d, 0x3ebd_5e8d, 0x4321_109e, 0x4324_3be0) == 164,
{
    reveal(chord_code);
    lemma2_to64();
    lemma2_to64_rest();
    lemma_high_powers();
    assert(0xbd_5e8d * 0x1 - 0xb5_5e8d * 0x1 == 0x8_0000);
    lemma_sum_known(0x3ebd_5e8d, 0x3eb5_5e8d, true, 0xbd_5e8d, 124, 0xb5_5e8d, 124, 0x1, 0x1, 0x8_0000, 20, 0x8_0000, 0x10);
    assert(sub_spec(0x3ebd_5e8d, 0x3eb5_5e8d) == 0x3c80_0000);
    assert(0xbc_c765 * 0x1 - 0xb5_5e8d * 0x1 == 0x7_68d8);
    lemma_sum_known(0x3ebc_c765, 0x3eb5_5e8d, true, 0xbc_c765, 124, 0xb5_5e8d, 124, 0x1, 0x1, 0x7_68d8, 19, 0x4_0000, 0x20);
    assert(sub_spec(0x3ebc_c765, 0x3eb5_5e8d) == 0x3c6d_1b00);
    assert(0xa4_3be0 * 0x1 - 0xa1_109e * 0x1 == 0x3_2b42);
    lemma_sum_known(0x4324_3be0, 0x4321_109e, true, 0xa4_3be0, 133, 0xa1_109e, 133, 0x1, 0x1, 0x3_2b42, 18, 0x2_0000, 0x40);
    assert(sub_spec(0x4324_3be0, 0x4321_109e) == 0x404a_d080);
    assert(0xca_d080 * 0xed_1b00 == 0xbbd8_6a7d_8000);
    lemma_product_known(0x404a_d080, 0x3c6d_1b00, 0xca_d080, 127, 0xed_1b00, 119, 0xbbd8_6a7d_8000, 48, 0x8000_0000_0000, 0x100_0000);
    assert(mul_spec(0x404a_d080, 0x3c6d_1b00) == 0x3d3b_d86a);
    assert(0xbb_d86a * 0x1_0000_0000_0000_0000 == 0x1_77b0_d400_0000_0000 * 0x80_0000 + 0x0);
    lemma_quotient_known(0x3d3b_d86a, 0x3c80_0000, 0xbb_d86a, 121, 0x80_0000, 120, 0x1_77b0_d400_0000_0000, 0x0, 66, 0x2_0000_0000_0000_0000, 0x400_0000_0000);
    assert(div_spec(0x3d3b_d86a, 0x3c80_0000) == 0x403b_d86a);
    assert(0xa1_109e * 0x40 + 0xbb_d86a * 0x1 == 0x28ff_ffea);
    lemma_sum_known(0x4321_109e, 0x403b_d86a, false, 0xa1_109e, 133, 0xbb_d86a, 127, 0x40, 0x1, 0x28ff_ffea, 30, 0x2000_0000, 0x40);
    assert(add_spec(0x4321_109e, 0x403b_d86a) == 0x4324_0000);
    lemma_whole_known(0x4324_0000, 0xa4_0000, 133, 0x1_0000);
}

/// The edge of code 163.
proof fn lemma_near_163()
    ensures
        near_exact_edge(0x3ebc_c764, 163),
{
    lemma2_to64();
    lemma2_to64_rest();
    lemma_fifth_powers_of_two();
    lemma_more_fifth_powers_of_two();
    assert(177525nat * 177525 * 177525 == 0x13_e05e_e1c1_174d);
    assert(269025nat * 269025 * 269025 == 0x45_2c59_9066_9ca1);
    assert(0x13_e05e_e1c1_174dnat * 0x13_e05e_e1c1_174d == 0x18b_12bb_b0e5_ef16_d925_7e38_ed29nat);
    assert(0x18b_12bb_b0e5_ef16_d925_7e38_ed29nat * 0x18b_12bb_b0e5_ef16_d925_7e38_ed29nat == 0x2_61b2_d092_d40c_1049_92e3_0ef1_fb2a_6227_3d6f_8dcc_25f6_f9a4_f091nat);
    assert(0x45_2c59_9066_9ca1nat * 0x45_2c59_9066_9ca1 == 0x12b0_eff6_c049_6d6d_d948_5020_9d41nat);
    assert(0x12b0_eff6_c049_6d6d_d948_5020_9d41nat * 0x12b0_eff6_c049_6d6d_d948_5020_9d41nat == 0x15d_5c09_8741_6139_2178_92b9_bce5_5f46_89a2_dd05_b95f_0d00_50d8_ca81nat);
    assert(0x3af_c2f4nat * 0x3af_c2f4 == 0xd_973d_d60e_b890);
    assert(0xd_973d_d60e_b890nat * 0xd_973d_d60e_b890 == 0xb8_b5a1_bef3_d25a_7209_74cf_5100nat);
    assert(0xb8_b5a1_bef3_d25a_7209_74cf_5100nat * 0x3af_c2f4 == 0x2_a8f1_b880_1502_a0f7_1975_2333_cffb_3400nat);
    assert(0x3b0_06f4nat * 0x3b0_06f4 == 0xd_9933_47b0_5890);
    assert(0xd_9933_47b0_5890nat * 0xd_9933_47b0_5890 == 0xb8_eae3_9ddf_6cd2_b3f9_c4a3_5100nat);
    assert(0xb8_eae3_9ddf_6cd2_b3f9_c4a3_5100nat * 0x3b0_06f4 == 0x2_a9e7_2d17_5e86_fe78_5210_7ee5_ef8f_3400nat);
    assert(0x2_a8f1_b880_1502_a0f7_1975_2333_cffb_3400nat * 0x15d_5c09_8741_6139_2178_92b9_bce5_5f46_89a2_dd05_b95f_0d00_50d8_ca81nat == 0x3a1_4658_bd2f_88ea_112a_5fed_bc3f_4aaa_3540_2010_7203_5537_d37f_99a2_3a0a_e930_f9e4_88cc_3427_9b6b_e49d_3400nat);
    assert(0x2_a9e7_2d17_5e86_fe78_5210_7ee5_ef8f_3400nat * 0x15d_5c09_8741_6139_2178_92b9_bce5_5f46_89a2_dd05_b95f_0d00_50d8_ca81nat == 0x3a2_9550_ee77_e946_4bb9_1db4_cf07_d5f7_0abc_e2d9_6e5f_4997_1b5a_2ff1_f93d_0486_c38f_a4d7_dcf4_41f8_9631_3400nat);
    assert(0xc35nat * 0x2000_0000_0000_0000_0000_0000_0000_0000nat == 0x186_a000_0000_0000_0000_0000_0000_0000_0000nat);
    assert(0x2_61b2_d092_d40c_1049_92e3_0ef1_fb2a_6227_3d6f_8dcc_25f6_f9a4_f091nat * 0x186_a000_0000_0000_0000_0000_0000_0000_0000nat == 0x3a2_5379_820a_cee8_5a43_c1b6_adfb_df8c_0520_1e57_bda1_6dfa_ad4d_9340_a000_0000_0000_0000_0000_0000_0000_0000nat);
    lemma_near_above(
        0x3ebc_c764, 0xbc_c764, 124, 0x200, 0x186_a000_0000_0000_0000_0000_0000_0000_0000nat, 163,
        177525, 0x13_e05e_e1c1_174d,
        0x18b_12bb_b0e5_ef16_d925_7e38_ed29nat,
        0x45_2c59_9066_9ca1, 0x12b0_eff6_c049_6d6d_d948_5020_9d41nat,
        0x3af_c2f4, 0xd_973d_d60e_b890, 0xb8_b5a1_bef3_d25a_7209_74cf_5100nat,
        0x3b0_06f4, 0xd_9933_47b0_5890, 0xb8_eae3_9ddf_6cd2_b3f9_c4a3_5100nat,
    );
}

/// The value 0x3ebf_5a05.
proof fn lemma_at_3ebf5a05()
    ensures
        chord_code(0x3ebf_5a05, 0x3ebd_5e8d, 0x3ec5_5e8d, 0x4324_3be0, 0x4327_535e) == 164,
{
    reveal(chord_code);
    lemma2_to64();
    lemma2_to64_rest();
    lemma_high_powers();
    assert(0xc5_5e8d * 0x1 - 0xbd_5e8d * 0x1 == 0x8_0000);
    lemma_sum_known(0x3ec5_5e8d, 0x3ebd_5e8d, true, 0xc5_5e8d, 124, 0xbd_5e8d, 124, 0x1, 0x1, 0x8_0000, 20, 0x8_0000, 0x10);
    assert(sub_spec(0x3ec5_5e8d, 0x3ebd_5e8d) == 0x3c80_0000);
    assert(0xbf_5a05 * 0x1 - 0xbd_5e8d * 0x1 == 0x1_fb78);
    lemma_sum_known(0x3ebf_5a05, 0x3ebd_5e8d, true, 0xbf_5a05, 124, 0xbd_5e8d, 124, 0x1, 0x1, 0x1_fb78, 17, 0x1_0000, 0x80);
    assert(sub_spec(0x3ebf_5a05, 0x3ebd_5e8d) == 0x3b7d_bc00);
    assert(0xa7_535e * 0x1 - 0xa4_3be0 * 0x1 == 0x3_177e);
    lemma_sum_known(0x4327_535e, 0x4324_3be0, true, 0xa7_535e, 133, 0xa4_3be0, 133, 0x1, 0x1, 0x3_177e, 18, 0x2_0000, 0x40);
    assert(sub_spec(0x4327_535e, 0x4324_3be0) == 0x4045_df80);
    assert(0xc5_df80 * 0xfd_bc00 == 0xc41f_31a2_0000);
    lemma_product_known(0x4045_df80, 0x3b7d_bc00, 0xc5_df80, 127, 0xfd_bc00, 117, 0xc41f_31a2_0000, 48, 0x8000_0000_0000, 0x100_0000);
    assert(mul_spec(0x4045_df80, 0x3b7d_bc00) == 0x3c44_1f32);
    assert(0xc4_1f32 * 0x1_0000_0000_0000_0000 == 0x1_883e_6400_0000_0000 * 0x80_0000 + 0x0);
    lemma_quotient_known(0x3c44_1f32, 0x3c80_0000, 0xc4_1f32, 119, 0x80_0000, 120, 0x1_883e_6400_0000_0000, 0x0, 66, 0x2_0000_0000_0000_0000, 0x400_0000_0000);
    assert(div_spec(0x3c44_1f32, 0x3c80_0000) == 0x3f44_1f32);
    assert(0xa4_3be0 * 0x100 + 0xc4_1f32 * 0x1 == 0xa4ff_ff32);
    lemma_sum_known(0x4324_3be0, 0x3f44_1f32, false, 0xa4_3be0, 133, 0xc4_1f32, 125, 0x100, 0x1, 0xa4ff_ff32, 32, 0x8000_0000, 0x100);
    assert(add_spec(0x4324_3be0, 0x3f44_1f32) == 0x4324_ffff);
    lemma_whole_known(0x4324_ffff, 0xa4_ffff, 133, 0x1_0000);
}

/// The value 0x3ebf_5a06.
proof fn lemma_at_3ebf5a06()
    ensures
        chord_code(0x3ebf_5a06, 0x3ebd_5e8d, 0x3ec5_5e8d, 0x4324_3be0, 0x4327_535e) == 165,
{
    reveal(chord_code);
    lemma2_to64();
    lemma2_to64_rest();
    lemma_high_powers();
    assert(0xc5_5e8d * 0x1 - 0xbd_5e8d * 0x1 == 0x8_0000);
    lemma_sum_known(0x3ec5_5e8d, 0x3ebd_5e8d, true, 0xc5_5e8d, 124, 0xbd_5e8d, 124, 0x1, 0x1, 0x8_0000, 20, 0x8_0000, 0x10);
    assert(sub_spec(0x3ec5_5e8d, 0x3ebd_5e8d) == 0x3c80_0000);
    assert(0xbf_5a06 * 0x1 - 0xbd_5e8d * 0x1 == 0x1_fb79);
    lemma_sum_known(0x3ebf_5a06, 0x3ebd_5e8d, true, 0xbf_5a06, 124, 0xbd_5e8d, 124, 0x1, 0x1, 0x1_fb79, 17, 0x1_0000, 0x80);
    assert(sub_spec(0x3ebf_5a06, 0x3ebd_5e8d) == 0x3b7d_bc80);
    assert(0xa7_535e * 0x1 - 0xa4_3be0 * 0x1 == 0x3_177e);
    lemma_sum_known(0x4327_535e, 0x4324_3be0, true, 0xa7_535e, 133, 0xa4_3be0, 133, 0x1, 0x1, 0x3_177e, 18, 0x2_0000, 0x40);
    assert(sub_spec(0x4327_535e, 0x4324_3be0) == 0x4045_df80);
    assert(0xc5_df80 * 0xfd_bc80 == 0xc41f_9491_c000);
    lemma_product_known(0x4045_df80, 0x3b7d_bc80, 0xc5_df80, 127, 0xfd_bc80, 117, 0xc41f_9491_c000, 48, 0x8000_0000_0000, 0x100_0000);
    assert(mul_spec(0x4045_df80, 0x3b7d_bc80) == 0x3c44_1f95);
    assert(0xc4_1f95 * 0x1_0000_0000_0000_0000 == 0x1_883f_2a00_0000_0000 * 0x80_0000 + 0x0);
    lemma_quotient_known(0x3c44_1f95, 0x3c80_0000, 0xc4_1f95, 119, 0x80_0000, 120, 0x1_883f_2a00_0000_0000, 0x0, 66, 0x2_0000_0000_0000_0000, 0x400_0000_0000);
    assert(div_spec(0x3c44_1f95, 0x3c80_0000) == 0x3f44_1f95);
    assert(0xa4_3be0 * 0x100 + 0xc4_1f95 * 0x1 == 0xa4ff_ff95);
    lemma_sum_known(0x4324_3be0, 0x3f44_1f95, false, 0xa4_3be0, 133, 0xc4_1f95, 125, 0x100, 0x1, 0xa4ff_ff95, 32, 0x8000_0000, 0x100);
    assert(add_spec(0x4324_3be0, 0x3f44_1f95) == 0x4325_0000);
    lemma_whole_known(0x4325_0000, 0xa5_0000, 133, 0x1_0000);
}

/// The edge of code 164.
proof fn lemma_near_164()
    ensures
        near_exact_edge(0x3ebf_5a05, 164),
{
    lemma2_to64();
    lemma2_to64_rest();
    lemma_fifth_powers_of_two();
    lemma_more_fifth_powers_of_two();
    assert(178525nat * 178525 * 178525 == 0x14_36d8_2ce8_0905);
    assert(269025nat * 269025 * 269025 == 0x45_2c59_9066_9ca1);
    assert(0x14_36d8_2ce8_0905nat * 0x14_36d8_2ce8_0905 == 0x198_9d86_edbf_1c05_e9da_1161_5a19nat);
    assert(0x198_9d86_edbf_1c05_e9da_1161_5a19nat * 0x198_9d86_edbf_1c05_e9da_1161_5a19nat == 0x2_8c36_7f04_97e3_7c15_66ab_76cc_ccfb_d833_6235_cdf7_0790_b8a7_9671nat);
    assert(0x45_2c59_9066_9ca1nat * 0x45_2c59_9066_9ca1 == 0x12b0_eff6_c049_6d6d_d948_5020_9d41nat);
    assert(0x12b0_eff6_c049_6d6d_d948_5020_9d41nat * 0x12b0_eff6_c049_6d6d_d948_5020_9d41nat == 0x15d_5c09_8741_6139_2178_92b9_bce5_5f46_89a2_dd05_b95f_0d00_50d8_ca81nat);
    assert(0x3bc_a019nat * 0x3bc_a019 == 0xd_f6bc_1ed7_4271);
    assert(0xd_f6bc_1ed7_4271nat * 0xd_f6bc_1ed7_4271 == 0xc2_fce9_375f_c30b_ea8b_270c_75e1nat);
    assert(0xc2_fce9_375f_c30b_ea8b_270c_75e1nat * 0x3bc_a019 == 0x2_d8a2_6807_3efe_a2c1_5e66_b286_ce20_22f9nat);
    assert(0x3bc_e419nat * 0x3bc_e419 == 0xd_f8b8_65f4_8a71);
    assert(0xd_f8b8_65f4_8a71nat * 0xd_f8b8_65f4_8a71 == 0xc3_3460_2532_93d6_d145_5c46_05e1nat);
    assert(0xc3_3460_2532_93d6_d145_5c46_05e1nat * 0x3bc_e419 == 0x2_d9a5_84c0_a764_c3d1_4160_cb72_544e_f6f9nat);
    assert(0x2_d8a2_6807_3efe_a2c1_5e66_b286_ce20_22f9nat * 0x15d_5c09_8741_6139_2178_92b9_bce5_5f46_89a2_dd05_b95f_0d00_50d8_ca81nat == 0x3e2_5b5d_4df0_ded8_fbf6_34d8_62a4_2306_32bd_2763_a0a1_3d12_e925_76be_7735_64b3_74d4_89e5_e9f3_ef9e_8be2_1979nat);
    assert(0x2_d9a5_84c0_a764_c3d1_4160_cb72_544e_f6f9nat * 0x15d_5c09_8741_6139_2178_92b9_bce5_5f46_89a2_dd05_b95f_0d00_50d8_ca81nat == 0x3e3_bcf8_9eab_bc6f_e6ee_66df_ce37_4677_1d34_1b06_92e9_4fb5_85d5_edde_66d4_b0e0_dd48_2334_4f10_2ff0_fcc2_ed79nat);
    assert(0xc35nat * 0x2000_0000_0000_0000_0000_0000_0000_0000nat == 0x186_a000_0000_0000_0000_0000_0000_0000_0000nat);
    assert(0x2_8c36_7f04_97e3_7c15_66ab_76cc_ccfb_d833_6235_cdf7_0790_b8a7_9671nat * 0x186_a000_0000_0000_0000_0000_0000_0000_0000nat == 0x3e3_32a7_9062_437d_3627_c962_2640_47c8_c567_bb59_670f_eb33_c2b7_ee2c_a000_0000_0000_0000_0000_0000_0000_0000nat);
    lemma_near_above(
        0x3ebf_5a05, 0xbf_5a05, 124, 0x200, 0x186_a000_0000_0000_0000_0000_0000_0000_0000nat, 164,
        178525, 0x14_36d8_2ce8_0905,
        0x198_9d86_edbf_1c05_e9da_1161_5a19nat,
        0x45_2c59_9066_9ca1, 0x12b0_eff6_c049_6d6d_d948_5020_9d41nat,
        0x3bc_a019, 0xd_f6bc_1ed7_4271, 0xc2_fce9_375f_c30b_ea8b_270c_75e1nat,
        0x3bc_e419, 0xd_f8b8_65f4_8a71, 0xc3_3460_2532_93d6_d145_5c46_05e1nat,
    );
}

/// The value 0x3ec1_f06d.
proof fn lemma_at_3ec1f06d()
    ensures
        chord_code(0x3ec1_f06d, 0x3ebd_5e8d, 0x3ec5_5e8d, 0x4324_3be0, 0x4327_535e) == 165,
{
    reveal(chord_code);
    lemma2_to64();
    lemma2_to64_rest();
    lemma_high_powers();
    assert(0xc5_5e8d * 0x1 - 0xbd_5e8d * 0x1 == 0x8_0000);
    lemma_sum_known(0x3ec5_5e8d, 0x3ebd_5e8d, true, 0xc5_5e8d, 124, 0xbd_5e8d, 124, 0x1, 0x1, 0x8_0000, 20, 0x8_0000, 0x10);
    assert(sub_spec(0x3ec5_5e8d, 0x3ebd_5e8d) == 0x3c80_0000);
    assert(0xc1_f06d * 0x1 - 0xbd_5e8d * 0x1 == 0x4_91e0);
    lemma_sum_known(0x3ec1_f06d, 0x3ebd_5e8d, true, 0xc1_f06d, 124, 0xbd_5e8d, 124, 0x1, 0x1, 0x4_91e0, 19, 0x4_0000, 0x20);
    assert(sub_spec(0x3ec1_f06d, 0x3ebd_5e8d) == 0x3c12_3c00);
    assert(0xa7_535e * 0x1 - 0xa4_3be0 * 0x1 == 0x3_177e);
    lemma_sum_known(0x4327_535e, 0x4324_3be0, true, 0xa7_535e, 133, 0xa4_3be0, 133, 0x1, 0x1, 0x3_177e, 18, 0x2_0000, 0x40);
    assert(sub_spec(0x4327_535e, 0x4324_3be0) == 0x4045_df80);
    assert(0xc5_df80 * 0x92_3c00 == 0x7107_d762_0000);
    lemma_product_known(0x4045_df80, 0x3c12_3c00, 0xc5_df80, 127, 0x92_3c00, 119, 0x7107_d762_0000, 47, 0x4000_0000_0000, 0x80_0000);
    assert(mul_spec(0x4045_df80, 0x3c12_3c00) == 0x3ce2_0faf);
    assert(0xe2_0faf * 0x1_0000_0000_0000_0000 == 0x1_c41f_5e00_0000_0000 * 0x80_0000 + 0x0);
    lemma_quotient_known(0x3ce2_0faf, 0x3c80_0000, 0xe2_0faf, 120, 0x80_0000, 120, 0x1_c41f_5e00_0000_0000, 0x0, 66, 0x2_0000_0000_0000_0000, 0x400_0000_0000);
    assert(div_spec(0x3ce2_0faf, 0x3c80_0000) == 0x3fe2_0faf);
    assert(0xa4_3be0 * 0x80 + 0xe2_0faf * 0x1 == 0x52ff_ffaf);
    lemma_sum_known(0x4324_3be0, 0x3fe2_0faf, false, 0xa4_3be0, 133, 0xe2_0faf, 126, 0x80, 0x1, 0x52ff_ffaf, 31, 0x4000_0000, 0x80);
    assert(add_spec(0x4324_3be0, 0x3fe2_0faf) == 0x4325_ffff);
    lemma_whole_known(0x4325_ffff, 0xa5_ffff, 133, 0x1_0000);
}

/// The value 0x3ec1_f06e.
proof fn lemma_at_3ec1f06e()
    ensures
        chord_code(0x3ec1_f06e, 0x3ebd_5e8d, 0x3ec5_5e8d, 0x4324_3be0, 0x4327_535e) == 166,
{
    reveal(chord_code);
    lemma2_to64();
    lemma2_to64_rest();
    lemma_high_powers();
    assert(0xc5_5e8d * 0x1 - 0xbd_5e8d * 0x1 == 0x8_0000);
    lemma_sum_known(0x3ec5_5e8d, 0x3ebd_5e8d, true, 0xc5_5e8d, 124, 0xbd_5e8d, 124, 0x1, 0x1, 0x8_0000, 20, 0x8_0000, 0x10);
    assert(sub_spec(0x3ec5_5e8d, 0x3ebd_5e8d) == 0x3c80_0000);
    assert(0xc1_f06e * 0x1 - 0xbd_5e8d * 0x1 == 0x4_91e1);
    lemma_sum_known(0x3ec1_f06e, 0x3ebd_5e8d, true, 0xc1_f06e, 124, 0xbd_5e8d, 124, 0x1, 0x1, 0x4_91e1, 19, 0x4_0000, 0x20);
    assert(sub_spec(0x3ec1_f06e, 0x3ebd_5e8d) == 0x3c12_3c20);
    assert(0xa7_535e * 0x1 - 0xa4_3be0 * 0x1 == 0x3_177e);
    lemma_sum_known(0x4327_535e, 0x4324_3be0, true, 0xa7_535e, 133, 0xa4_3be0, 133, 0x1, 0x1, 0x3_177e, 18, 0x2_0000, 0x40);
    assert(sub_spec(0x4327_535e, 0x4324_3be0) == 0x4045_df80);
    assert(0xc5_df80 * 0x92_3c20 == 0x7107_f01d_f000);
    lemma_product_known(0x4045_df80, 0x3c12_3c20, 0xc5_df80, 127, 0x92_3c20, 119, 0x7107_f01d_f000, 47, 0x4000_0000_0000, 0x80_0000);
    assert(mul_spec(0x4045_df80, 0x3c12_3c20) == 0x3ce2_0fe0);
    assert(0xe2_0fe0 * 0x1_0000_0000_0000_0000 == 0x1_c41f_c000_0000_0000 * 0x80_0000 + 0x0);
    lemma_quotient_known(0x3ce2_0fe0, 0x3c80_0000, 0xe2_0fe0, 120, 0x80_0000, 120, 0x1_c41f_c000_0000_0000, 0x0, 66, 0x2_0000_0000_0000_0000, 0x400_0000_0000);
    assert(div_spec(0x3ce2_0fe0, 0x3c80_0000) == 0x3fe2_0fe0);
    assert(0xa4_3be0 * 0x80 + 0xe2_0fe0 * 0x1 == 0x52ff_ffe0);
    lemma_sum_known(0x4324_3be0, 0x3fe2_0fe0, false, 0xa4_3be0, 133, 0xe2_0fe0, 126, 0x80, 0x1, 0x52ff_ffe0, 31, 0x4000_0000, 0x80);
    assert(add_spec(0x4324_3be0, 0x3fe2_0fe0) == 0x4326_0000);
    lemma_whole_known(0x4326_0000, 0xa6_0000, 133, 0x1_0000);
}

/// The edge of code 165.
proof fn lemma_near_165()
    ensures
        near_exact_edge(0x3ec1_f06d, 165),
{
    lemma2_to64();
    lemma2_to64_rest();
    lemma_fifth_powers_of_two();
    lemma_more_fifth_powers_of_two();
    assert(179525nat * 179525 * 179525 == 0x14_8e4a_dd92_e23d);
    assert(269025nat * 269025 * 269025 == 0x45_2c59_9066_9ca1);
    assert(0x14_8e4a_dd92_e23dnat * 0x14_8e4a_dd92_e23d == 0x1a6_8ac9_c2a7_2535_6628_2783_c289nat);
    assert(0x1a6_8ac9_c2a7_2535_6628_2783_c289nat * 0x1a6_8ac9_c2a7_2535_6628_2783_c289nat == 0x2_b96d_dc6b_e3ee_1ea4_8de6_7bf6_1541_80b1_eb51_8505_5fe6_6a09_ed51nat);
    assert(0x45_2c59_9066_9ca1nat * 0x45_2c59_9066_9ca1 == 0x12b0_eff6_c049_6d6d_d948_5020_9d41nat);
    assert(0x12b0_eff6_c049_6d6d_d948_5020_9d41nat * 0x12b0_eff6_c049_6d6d_d948_5020_9d41nat == 0x15d_5c09_8741_6139_2178_92b9_bce5_5f46_89a2_dd05_b95f_0d00_50d8_ca81nat);
    assert(0x3c9_9021nat * 0x3c9_9021 == 0xe_5814_6af7_2441);
    assert(0xe_5814_6af7_2441nat * 0xe_5814_6af7_2441 == 0xcd_c089_be32_c357_f2c4_ce90_5881nat);
    assert(0xcd_c089_be32_c357_f2c4_ce90_5881nat * 0x3c9_9021 == 0x3_0b41_a034_3ae3_7a52_91d6_dfee_d2ac_f8a1nat);
    assert(0x3c9_d421nat * 0x3c9_d421 == 0xe_5a17_9198_ac41);
    assert(0xe_5a17_9198_ac41nat * 0xe_5a17_9198_ac41 == 0xcd_fa48_813d_ac76_f5dc_a317_6881nat);
    assert(0xcd_fa48_813d_ac76_f5dc_a317_6881nat * 0x3c9_d421 == 0x3_0c53_0a42_80d1_8a0e_5f15_bc1a_f8d8_4ca1nat);
    assert(0x3_0b41_a034_3ae3_7a52_91d6_dfee_d2ac_f8a1nat * 0x15d_5c09_8741_6139_2178_92b9_bce5_5f46_89a2_dd05_b95f_0d00_50d8_ca81nat == 0x427_709f_fdcc_4e34_9209_a57f_2c57_a84e_3653_ffa0_27aa_c40c_1efa_1720_dc2a_77fd_b688_24ab_02b0_4638_bd30_5321nat);
    assert(0x3_0c53_0a42_80d1_8a0e_5f15_bc1a_f8d8_4ca1nat * 0x15d_5c09_8741_6139_2178_92b9_bce5_5f46_89a2_dd05_b95f_0d00_50d8_ca81nat == 0x428_e5bf_df8b_f423_52ca_906b_3350_37f8_571c_b4e4_bb88_042b_8214_5b36_9d04_6c2f_de03_6fd0_f989_cd65_094d_a721nat);
    assert(0xc35nat * 0x2000_0000_0000_0000_0000_0000_0000_0000nat == 0x186_a000_0000_0000_0000_0000_0000_0000_0000nat);
    assert(0x2_b96d_dc6b_e3ee_1ea4_8de6_7bf6_1541_80b1_eb51_8505_5fe6_6a09_ed51nat * 0x186_a000_0000_0000_0000_0000_0000_0000_0000nat == 0x428_3142_7620_ab37_81d7_05d0_e65e_2f12_ff7b_b143_9953_74f5_8d65_bdb8_a000_0000_0000_0000_0000_0000_0000_0000nat);
    lemma_near_above(
        0x3ec1_f06d, 0xc1_f06d, 124, 0x200, 0x186_a000_0000_0000_0000_0000_0000_0000_0000nat, 165,
        179525, 0x14_8e4a_dd92_e23d,
        0x1a6_8ac9_c2a7_2535_6628_2783_c289nat,
        0x45_2c59_9066_9ca1, 0x12b0_eff6_c049_6d6d_d948_5020_9d41nat,
        0x3c9_9021, 0xe_5814_6af7_2441, 0xcd_c089_be32_c357_f2c4_ce90_5881nat,
        0x3c9_d421, 0xe_5a17_9198_ac41, 0xcd_fa48_813d_ac76_f5dc_a317_6881nat,
    );
}

/// The value 0x3ec4_86d4.
proof fn lemma_at_3ec486d4()
    ensures
        chord_code(0x3ec4_86d4, 0x3ebd_5e8d, 0x3ec5_5e8d, 0x4324_3be0, 0x4327_535e) == 166,
{
    reveal(chord_code);
    lemma2_to64();
    lemma2_to64_rest();
    lemma_high_powers();
    assert(0xc5_5e8d * 0x1 - 0xbd_5e8d * 0x1 == 0x8_0000);
    lemma_sum_known(0x3ec5_5e8d, 0x3ebd_5e8d, true, 0xc5_5e8d, 124, 0xbd_5e8d, 124, 0x1, 0x1, 0x8_0000, 20, 0x8_0000, 0x10);
    assert(sub_spec(0x3ec5_5e8d, 0x3ebd_5e8d) == 0x3c80_0000);
    assert(0xc4_86d4 * 0x1 - 0xbd_5e8d * 0x1 == 0x7_2847);
    lemma_sum_known(0x3ec4_86d4, 0x3ebd_5e8d, true, 0xc4_86d4, 124, 0xbd_5e8d, 124, 0x1, 0x1, 0x7_2847, 19, 0x4_0000, 0x20);
    assert(sub_spec(0x3ec4_86d4, 0x3ebd_5e8d) == 0x3c65_08e0);
    assert(0xa7_535e * 0x1 - 0xa4_3be0 * 0x1 == 0x3_177e);
    lemma_sum_known(0x4327_535e, 0x4324_3be0, true, 0xa7_535e, 133, 0xa4_3be0, 133, 0x1, 0x1, 0x3_177e, 18, 0x2_0000, 0x40);
    assert(sub_spec(0x4327_535e, 0x4324_3be0) == 0x4045_df80);
    assert(0xc5_df80 * 0xe5_08e0 == 0xb107_c99f_9000);
    lemma_product_known(0x4045_df80, 0x3c65_08e0, 0xc5_df80, 127, 0xe5_08e0, 119, 0xb107_c99f_9000, 48, 0x8000_0000_0000, 0x100_0000);
    assert(mul_spec(0x4045_df80, 0x3c65_08e0) == 0x3d31_07ca);
    assert(0xb1_07ca * 0x1_0000_0000_0000_0000 == 0x1_620f_9400_0000_0000 * 0x80_0000 + 0x0);
    lemma_quotient_known(0x3d31_07ca, 0x3c80_0000, 0xb1_07ca, 121, 0x80_0000, 120, 0x1_620f_9400_0000_0000, 0x0, 66, 0x2_0000_0000_0000_0000, 0x400_0000_0000);
    assert(div_spec(0x3d31_07ca, 0x3c80_0000) == 0x4031_07ca);
    assert(0xa4_3be0 * 0x40 + 0xb1_07ca * 0x1 == 0x29bf_ffca);
    lemma_sum_known(0x4324_3be0, 0x4031_07ca, false, 0xa4_3be0, 133, 0xb1_07ca, 127, 0x40, 0x1, 0x29bf_ffca, 30, 0x2000_0000, 0x40);
    assert(add_spec(0x4324_3be0, 0x4031_07ca) == 0x4326_ffff);
    lemma_whole_known(0x4326_ffff, 0xa6_ffff, 133, 0x1_0000);
}

/// The value 0x3ec4_86d5.
proof fn lemma_at_3ec486d5()
    ensures
        chord_code(0x3ec4_86d5, 0x3ebd_5e8d, 0x3ec5_5e8d, 0x4324_3be0, 0x4327_535e) == 167,
{
    reveal(chord_code);
    lemma2_to64();
    lemma2_to64_rest();
    lemma_high_powers();
    assert(0xc5_5e8d * 0x1 - 0xbd_5e8d * 0x1 == 0x8_0000);
    lemma_sum_known(0x3ec5_5e8d, 0x3ebd_5e8d, true, 0xc5_5e8d, 124, 0xbd_5e8d, 124, 0x1, 0x1, 0x8_0000, 20, 0x8_0000, 0x10);
    assert(sub_spec(0x3ec5_5e8d, 0x3ebd_5e8d) == 0x3c80_0000);
    assert(0xc4_86d5 * 0x1 - 0xbd_5e8d * 0x1 == 0x7_2848);
    lemma_sum_known(0x3ec4_86d5, 0x3ebd_5e8d, true, 0xc4_86d5, 124, 0xbd_5e8d, 124, 0x1, 0x1, 0x7_2848, 19, 0x4_0000, 0x20);
    assert(sub_spec(0x3ec4_86d5, 0x3ebd_5e8d) == 0x3c65_0900);
    assert(0xa7_535e * 0x1 - 0xa4_3be0 * 0x1 == 0x3_177e);
    lemma_sum_known(0x4327_535e, 0x4324_3be0, true, 0xa7_535e, 133, 0xa4_3be0, 133, 0x1, 0x1, 0x3_177e, 18, 0x2_0000, 0x40);
    assert(sub_spec(0x4327_535e, 0x4324_3be0) == 0x4045_df80);
    assert(0xc5_df80 * 0xe5_0900 == 0xb107_e25b_8000);
    lemma_product_known(0x4045_df80, 0x3c65_0900, 0xc5_df80, 127, 0xe5_0900, 119, 0xb107_e25b_8000, 48, 0x8000_0000_0000, 0x100_0000);
    assert(mul_spec(0x4045_df80, 0x3c65_0900) == 0x3d31_07e2);
    assert(0xb1_07e2 * 0x1_0000_0000_0000_0000 == 0x1_620f_c400_0000_0000 * 0x80_0000 + 0x0);
    lemma_quotient_known(0x3d31_07e2, 0x3c80_0000, 0xb1_07e2, 121, 0x80_0000, 120, 0x1_620f_c400_0000_0000, 0x0, 66, 0x2_0000_0000_0000_0000, 0x400_0000_0000);
    assert(div_spec(0x3d31_07e2, 0x3c80_0000) == 0x4031_07e2);
    assert(0xa4_3be0 * 0x40 + 0xb1_07e2 * 0x1 == 0x29bf_ffe2);
    lemma_sum_known(0x4324_3be0, 0x4031_07e2, false, 0xa4_3be0, 133, 0xb1_07e2, 127, 0x40, 0x1, 0x29bf_ffe2, 30, 0x2000_0000, 0x40);
    assert(add_spec(0x4324_3be0, 0x4031_07e2) == 0x4327_0000);
    lemma_whole_known(0x4327_0000, 0xa7_0000, 133, 0x1_0000);
}

/// The edge of code 166.
proof fn lemma_near_166()
    ensures
        near_exact_edge(0x3ec4_86d4, 166),
{
    lemma2_to64();
    lemma2_to64_rest();
    lemma_fifth_powers_of_two();
    lemma_more_fifth_powers_of_two();
    assert(180525nat * 180525 * 180525 == 0x14_e6b8_5962_5ef5);
    assert(269025nat * 269025 * 269025 == 0x45_2c59_9066_9ca1);
    assert(0x14_e6b8_5962_5ef5nat * 0x14_e6b8_5962_5ef5 == 0x1b4_dcbd_bcbc_3586_4803_30cc_d679nat);
    assert(0x1b4_dcbd_bcbc_3586_4803_30cc_d679nat * 0x1b4_dcbd_bcbc_3586_4803_30cc_d679nat == 0x2_e980_a4a1_8a1a_0670_17e5_ec7f_ffd9_f854_6c74_076a_8b29_e486_8531nat);
    assert(0x45_2c59_9066_9ca1nat * 0x45_2c59_9066_9ca1 == 0x12b0_eff6_c049_6d6d_d948_5020_9d41nat);
    assert(0x12b0_eff6_c049_6d6d_d948_5020_9d41nat * 0x12b0_eff6_c049_6d6d_d948_5020_9d41nat == 0x15d_5c09_8741_6139_2178_92b9_bce5_5f46_89a2_dd05_b95f_0d00_50d8_ca81nat);
    assert(0x3d6_8024nat * 0x3d6_8024 == 0xe_babb_5454_0510);
    assert(0xe_babb_5454_0510nat * 0xe_babb_5454_0510 == 0xd8_f4b1_f8ce_f3a1_e445_d299_a100nat);
    assert(0xd8_f4b1_f8ce_f3a1_e445_d299_a100nat * 0x3d6_8024 == 0x3_40a7_3b8b_cf49_05ec_d8bc_dc6e_041a_a400nat);
    assert(0x3d6_c424nat * 0x3d6_c424 == 0xe_bcc5_5a77_2510);
    assert(0xe_bcc5_5a77_2510nat * 0xe_bcc5_5a77_2510 == 0xd9_30c8_5a0b_6786_8822_ba3d_a100nat);
    assert(0xd9_30c8_5a0b_6786_8822_ba3d_a100nat * 0x3d6_c424 == 0x3_41c7_886d_a8dc_82eb_c45c_23e0_f5ee_a400nat);
    assert(0x3_40a7_3b8b_cf49_05ec_d8bc_dc6e_041a_a400nat * 0x15d_5c09_8741_6139_2178_92b9_bce5_5f46_89a2_dd05_b95f_0d00_50d8_ca81nat == 0x470_4f57_44cd_c40b_a40e_e652_a83c_c52c_4670_5a69_fe92_1deb_98b8_d55a_e2c1_f52d_d720_5436_d189_ac67_76d4_a400nat);
    assert(0x3_41c7_886d_a8dc_82eb_c45c_23e0_f5ee_a400nat * 0x15d_5c09_8741_6139_2178_92b9_bce5_5f46_89a2_dd05_b95f_0d00_50d8_ca81nat == 0x471_d8c7_bb0f_926a_cf3e_88e4_7954_9b9d_43a8_7bb7_42a3_5b70_99e8_badd_1c63_2d0b_63fa_d343_33bb_ab04_9aa8_a400nat);
    assert(0xc35nat * 0x2000_0000_0000_0000_0000_0000_0000_0000nat == 0x186_a000_0000_0000_0000_0000_0000_0000_0000nat);
    assert(0x2_e980_a4a1_8a1a_0670_17e5_ec7f_ffd9_f854_6c74_076a_8b29_e486_8531nat * 0x186_a000_0000_0000_0000_0000_0000_0000_0000nat == 0x471_8beb_34fd_59f6_12ca_7735_fecf_c5f8_8bd1_fc8b_d0f2_98cc_53c2_fbe4_a000_0000_0000_0000_0000_0000_0000_0000nat);
    lemma_near_above(
        0x3ec4_86d4, 0xc4_86d4, 124, 0x200, 0x186_a000_0000_0000_0000_0000_0000_0000_0000nat, 166,
        180525, 0x14_e6b8_5962_5ef5,
        0x1b4_dcbd_bcbc_3586_4803_30cc_d679nat,
        0x45_2c59_9066_9ca1, 0x12b0_eff6_c049_6d6d_d948_5020_9d41nat,
        0x3d6_8024, 0xe_babb_5454_0510, 0xd8_f4b1_f8ce_f3a1_e445_d299_a100nat,
        0x3d6_c424, 0xe_bcc5_5a77_2510, 0xd9_30c8_5a0b_6786_8822_ba3d_a100nat,
    );
}

/// The value 0x3ec7_2839.
proof fn lemma_at_3ec72839()
    ensures
        chord_code(0x3ec7_2839, 0x3ec5_5e8d, 0x3ecd_5e8d, 0x4327_535e, 0x432a_57db) == 167,
{
    reveal(chord_code);
    lemma2_to64();
    lemma2_to64_rest();
    lemma_high_powers();
    assert(0xcd_5e8d * 0x1 - 0xc5_5e8d * 0x1 == 0x8_0000);
    lemma_sum_known(0x3ecd_5e8d, 0x3ec5_5e8d, true, 0xcd_5e8d, 124, 0xc5_5e8d, 124, 0x1, 0x1, 0x8_0000, 20, 0x8_0000, 0x10);
    assert(sub_spec(0x3ecd_5e8d, 0x3ec5_5e8d) == 0x3c80_0000);
    assert(0xc7_2839 * 0x1 - 0xc5_5e8d * 0x1 == 0x1_c9ac);
    lemma_sum_known(0x3ec7_2839, 0x3ec5_5e8d, true, 0xc7_2839, 124, 0xc5_5e8d, 124, 0x1, 0x1, 0x1_c9ac, 17, 0x1_0000, 0x80);
    assert(sub_spec(0x3ec7_2839, 0x3ec5_5e8d) == 0x3b64_d600);
    assert(0xaa_57db * 0x1 - 0xa7_535e * 0x1 == 0x3_047d);
    lemma_sum_known(0x432a_57db, 0x4327_535e, true, 0xaa_57db, 133, 0xa7_535e, 133, 0x1, 0x1, 0x3_047d, 18, 0x2_0000, 0x40);
    assert(sub_spec(0x432a_57db, 0x4327_535e) == 0x4041_1f40);
    assert(0xc1_1f40 * 0xe4_d600 == 0xaca1_451f_8000);
    lemma_product_known(0x4041_1f40, 0x3b64_d600, 0xc1_1f40, 127, 0xe4_d600, 117, 0xaca1_451f_8000, 48, 0x8000_0000_0000, 0x100_0000);
    assert(mul_spec(0x4041_1f40, 0x3b64_d600) == 0x3c2c_a145);
    assert(0xac_a145 * 0x1_0000_0000_0000_0000 == 0x1_5942_8a00_0000_0000 * 0x80_0000 + 0x0);
    lemma_quotient_known(0x3c2c_a145, 0x3c80_0000, 0xac_a145, 119, 0x80_0000, 120, 0x1_5942_8a00_0000_0000, 0x0, 66, 0x2_0000_0000_0000_0000, 0x400_0000_0000);
    assert(div_spec(0x3c2c_a145, 0x3c80_0000) == 0x3f2c_a145);
    assert(0xa7_535e * 0x100 + 0xac_a145 * 0x1 == 0xa7ff_ff45);
    lemma_sum_known(0x4327_535e, 0x3f2c_a145, false, 0xa7_535e, 133, 0xac_a145, 125, 0x100, 0x1, 0xa7ff_ff45, 32, 0x8000_0000, 0x100);
    assert(add_spec(0x4327_535e, 0x3f2c_a145) == 0x4327_ffff);
    lemma_whole_known(0x4327_ffff, 0xa7_ffff, 133, 0x1_0000);
}

/// The value 0x3ec7_283a.
proof fn lemma_at_3ec7283a()
    ensures
        chord_code(0x3ec7_283a, 0x3ec5_5e8d, 0x3ecd_5e8d, 0x4327_535e, 0x432a_57db) == 168,
{
    reveal(chord_code);
    lemma2_to64();
    lemma2_to64_rest();
    lemma_high_powers();
    assert(0xcd_5e8d * 0x1 - 0xc5_5e8d * 0x1 == 0x8_0000);
    lemma_sum_known(0x3ecd_5e8d, 0x3ec5_5e8d, true, 0xcd_5e8d, 124, 0xc5_5e8d, 124, 0x1, 0x1, 0x8_0000, 20, 0x8_0000, 0x10);
    assert(sub_spec(0x3ecd_5e8d, 0x3ec5_5e8d) == 0x3c80_0000);
    assert(0xc7_283a * 0x1 - 0xc5_5e8d * 0x1 == 0x1_c9ad);
    lemma_sum_known(0x3ec7_283a, 0x3ec5_5e8d, true, 0xc7_283a, 124, 0xc5_5e8d, 124, 0x1, 0x1, 0x1_c9ad, 17, 0x1_0000, 0x80);
    assert(sub_spec(0x3ec7_283a, 0x3ec5_5e8d) == 0x3b64_d680);
    assert(0xaa_57db * 0x1 - 0xa7_535e * 0x1 == 0x3_047d);
    lemma_sum_known(0x432a_57db, 0x4327_535e, true, 0xaa_57db, 133, 0xa7_535e, 133, 0x1, 0x1, 0x3_047d, 18, 0x2_0000, 0x40);
    assert(sub_spec(0x432a_57db, 0x4327_535e) == 0x4041_1f40);
    assert(0xc1_1f40 * 0xe4_d680 == 0xaca1_a5af_2000);
    lemma_product_known(0x4041_1f40, 0x3b64_d680, 0xc1_1f40, 127, 0xe4_d680, 117, 0xaca1_a5af_2000, 48, 0x8000_0000_0000, 0x100_0000);
    assert(mul_spec(0x4041_1f40, 0x3b64_d680) == 0x3c2c_a1a6);
    assert(0xac_a1a6 * 0x1_0000_0000_0000_0000 == 0x1_5943_4c00_0000_0000 * 0x80_0000 + 0x0);
    lemma_quotient_known(0x3c2c_a1a6, 0x3c80_0000, 0xac_a1a6, 119, 0x80_0000, 120, 0x1_5943_4c00_0000_0000, 0x0, 66, 0x2_0000_0000_0000_0000, 0x400_0000_0000);
    assert(div_spec(0x3c2c_a1a6, 0x3c80_0000) == 0x3f2c_a1a6);
    assert(0xa7_535e * 0x100 + 0xac_a1a6 * 0x1 == 0xa7ff_ffa6);
    lemma_sum_known(0x4327_535e, 0x3f2c_a1a6, false, 0xa7_535e, 133, 0xac_a1a6, 125, 0x100, 0x1, 0xa7ff_ffa6, 32, 0x8000_0000, 0x100);
    assert(add_spec(0x4327_535e, 0x3f2c_a1a6) == 0x4328_0000);
    lemma_whole_known(0x4328_0000, 0xa8_0000, 133, 0x1_0000);
}

/// The edge of code 167.
proof fn lemma_near_167()
    ensures
        near_exact_edge(0x3ec7_2839, 167),
{
    lemma2_to64();
    lemma2_to64_rest();
    lemma_fifth_powers_of_two();
    lemma_more_fifth_powers_of_two();
    assert(181525nat * 181525 * 181525 == 0x15_4022_05f7_3b2d);
    assert(269025nat * 269025 * 269025 == 0x45_2c59_9066_9ca1);
    assert(0x15_4022_05f7_3b2dnat * 0x15_4022_05f7_3b2d == 0x1c3_95a6_0210_e8c7_cf07_0083_c5e9nat);
    assert(0x1c3_95a6_0210_e8c7_cf07_0083_c5e9nat * 0x1c3_95a6_0210_e8c7_cf07_0083_c5e9nat == 0x3_1c98_9e65_f1a2_8cee_318b_7fda_224e_38fa_57ba_2181_e492_2576_6e11nat);
    assert(0x45_2c59_9066_9ca1nat * 0x45_2c59_9066_9ca1 == 0x12b0_eff6_c049_6d6d_d948_5020_9d41nat);
    assert(0x12b0_eff6_c049_6d6d_d948_5020_9d41nat * 0x12b0_eff6_c049_6d6d_d948_5020_9d41nat == 0x15d_5c09_8741_6139_2178_92b9_bce5_5f46_89a2_dd05_b95f_0d00_50d8_ca81nat);
    assert(0x3e3_a71dnat * 0x3e3_a71d == 0xf_205c_7884_d949);
    assert(0xf_205c_7884_d949nat * 0xf_205c_7884_d949 == 0xe4_ceed_5f19_8519_3d1d_3bb4_d6d1nat);
    assert(0xe4_ceed_5f19_8519_3d1d_3bb4_d6d1nat * 0x3e3_a71d == 0x3_79e5_a180_ea1d_bcd0_1359_0e21_a9f1_acadnat);
    assert(0x3e3_eb1dnat * 0x3e3_eb1d == 0xf_226d_7b5c_4149);
    assert(0xf_226d_7b5c_4149nat * 0xf_226d_7b5c_4149 == 0xe5_0d75_b866_6fe6_c425_231e_26d1nat);
    assert(0xe5_0d75_b866_6fe6_c425_231e_26d1nat * 0x3e3_eb1d == 0x3_7b15_add9_4cc0_da3f_df89_cda2_865f_40adnat);
    assert(0x3_79e5_a180_ea1d_bcd0_1359_0e21_a9f1_acadnat * 0x15d_5c09_8741_6139_2178_92b9_bce5_5f46_89a2_dd05_b95f_0d00_50d8_ca81nat == 0x4be_6dfc_d207_89a4_ea6e_74b4_f397_cf9e_a75d_b1cd_4cf5_a409_8499_cc7e_fef8_aa0b_abdd_a026_d581_61ef_1700_852dnat);
    assert(0x3_7b15_add9_4cc0_da3f_df89_cda2_865f_40adnat * 0x15d_5c09_8741_6139_2178_92b9_bce5_5f46_89a2_dd05_b95f_0d00_50d8_ca81nat == 0x4c0_0cea_f646_d8bb_5925_1743_5d1f_c43f_b007_d000_c55b_5590_a26f_f72e_1688_1672_142b_9d64_874d_ca81_8100_192dnat);
    assert(0xc35nat * 0x2000_0000_0000_0000_0000_0000_0000_0000nat == 0x186_a000_0000_0000_0000_0000_0000_0000_0000nat);
    assert(0x3_1c98_9e65_f1a2_8cee_318b_7fda_224e_38fa_57ba_2181_e492_2576_6e11nat * 0x186_a000_0000_0000_0000_0000_0000_0000_0000nat == 0x4bf_8260_b24d_d4a8_4af4_597b_f638_989b_b0fe_1c63_60d3_6580_69d5_b2b0_a000_0000_0000_0000_0000_0000_0000_0000nat);
    lemma_near_above(
        0x3ec7_2839, 0xc7_2839, 124, 0x200, 0x186_a000_0000_0000_0000_0000_0000_0000_0000nat, 167,
        181525, 0x15_4022_05f7_3b2d,
        0x1c3_95a6_0210_e8c7_cf07_0083_c5e9nat,
        0x45_2c59_9066_9ca1, 0x12b0_eff6_c049_6d6d_d948_5020_9d41nat,
        0x3e3_a71d, 0xf_205c_7884_d949, 0xe4_ceed_5f19_8519_3d1d_3bb4_d6d1nat,
        0x3e3_eb1d, 0xf_226d_7b5c_4149, 0xe5_0d75_b866_6fe6_c425_231e_26d1nat,
    );
}

/// The value 0x3ec9_ceec.
proof fn lemma_at_3ec9ceec()
    ensures
        chord_code(0x3ec9_ceec, 0x3ec5_5e8d, 0x3ecd_5e8d, 0x4327_535e, 0x432a_57db) == 168,
{
    reveal(chord_code);
    lemma2_to64();
    lemma2_to64_rest();
    lemma_high_powers();
    assert(0xcd_5e8d * 0x1 - 0xc5_5e8d * 0x1 == 0x8_0000);
    lemma_sum_known(0x3ecd_5e8d, 0x3ec5_5e8d, true, 0xcd_5e8d, 124, 0xc5_5e8d, 124, 0x1, 0x1, 0x8_0000, 20, 0x8_0000, 0x10);
    assert(sub_spec(0x3ecd_5e8d, 0x3ec5_5e8d) == 0x3c80_0000);
    assert(0xc9_ceec * 0x1 - 0xc5_5e8d * 0x1 == 0x4_705f);
    lemma_sum_known(0x3ec9_ceec, 0x3ec5_5e8d, true, 0xc9_ceec, 124, 0xc5_5e8d, 124, 0x1, 0x1, 0x4_705f, 19, 0x4_0000, 0x20);
    assert(sub_spec(0x3ec9_ceec, 0x3ec5_5e8d) == 0x3c0e_0be0);
    assert(0xaa_57db * 0x1 - 0xa7_535e * 0x1 == 0x3_047d);
    lemma_sum_known(0x432a_57db, 0x4327_535e, true, 0xaa_57db, 133, 0xa7_535e, 133, 0x1, 0x1, 0x3_047d, 18, 0x2_0000, 0x40);
    assert(sub_spec(0x432a_57db, 0x4327_535e) == 0x4041_1f40);
    assert(0xc1_1f40 * 0x8e_0be0 == 0x6b28_4ad3_1800);
    lemma_product_known(0x4041_1f40, 0x3c0e_0be0, 0xc1_1f40, 127, 0x8e_0be0, 119, 0x6b28_4ad3_1800, 47, 0x4000_0000_0000, 0x80_0000);
    assert(mul_spec(0x4041_1f40, 0x3c0e_0be0) == 0x3cd6_5096);
    assert(0xd6_5096 * 0x1_0000_0000_0000_0000 == 0x1_aca1_2c00_0000_0000 * 0x80_0000 + 0x0);
    lemma_quotient_known(0x3cd6_5096, 0x3c80_0000, 0xd6_5096, 120, 0x80_0000, 120, 0x1_aca1_2c00_0000_0000, 0x0, 66, 0x2_0000_0000_0000_0000, 0x400_0000_0000);
    assert(div_spec(0x3cd6_5096, 0x3c80_0000) == 0x3fd6_5096);
    assert(0xa7_535e * 0x80 + 0xd6_5096 * 0x1 == 0x547f_ff96);
    lemma_sum_known(0x4327_535e, 0x3fd6_5096, false, 0xa7_535e, 133, 0xd6_5096, 126, 0x80, 0x1, 0x547f_ff96, 31, 0x4000_0000, 0x80);
    assert(add_spec(0x4327_535e, 0x3fd6_5096) == 0x4328_ffff);
    lemma_whole_known(0x4328_ffff, 0xa8_ffff, 133, 0x1_0000);
}

/// The value 0x3ec9_ceed.
proof fn lemma_at_3ec9ceed()
    ensures
        chord_code(0x3ec9_ceed, 0x3ec5_5e8d, 0x3ecd_5e8d, 0x4327_535e, 0x432a_57db) == 169,
{
    reveal(chord_code);
    lemma2_to64();
    lemma2_to64_rest();
    lemma_high_powers();
    assert(0xcd_5e8d * 0x1 - 0xc5_5e8d * 0x1 == 0x8_0000);
    lemma_sum_known(0x3ecd_5e8d, 0x3ec5_5e8d, true, 0xcd_5e8d, 124, 0xc5_5e8d, 124, 0x1, 0x1, 0x8_0000, 20, 0x8_0000, 0x10);
    assert(sub_spec(0x3ecd_5e8d, 0x3ec5_5e8d) == 0x3c80_0000);
    assert(0xc9_ceed * 0x1 - 0xc5_5e8d * 0x1 == 0x4_7060);
    lemma_sum_known(0x3ec9_ceed, 0x3ec5_5e8d, true, 0xc9_ceed, 124, 0xc5_5e8d, 124, 0x1, 0x1, 0x4_7060, 19, 0x4_0000, 0x20);
    assert(sub_spec(0x3ec9_ceed, 0x3ec5_5e8d) == 0x3c0e_0c00);
    assert(0xaa_57db * 0x1 - 0xa7_535e * 0x1 == 0x3_047d);
    lemma_sum_known(0x432a_57db, 0x4327_535e, true, 0xaa_57db, 133, 0xa7_535e, 133, 0x1, 0x1, 0x3_047d, 18, 0x2_0000, 0x40);
    assert(sub_spec(0x432a_57db, 0x4327_535e) == 0x4041_1f40);
    assert(0xc1_1f40 * 0x8e_0c00 == 0x6b28_62f7_0000);
    lemma_product_known(0x4041_1f40, 0x3c0e_0c00, 0xc1_1f40, 127, 0x8e_0c00, 119, 0x6b28_62f7_0000, 47, 0x4000_0000_0000, 0x80_0000);
    assert(mul_spec(0x4041_1f40, 0x3c0e_0c00) == 0x3cd6_50c6);
    assert(0xd6_50c6 * 0x1_0000_0000_0000_0000 == 0x1_aca1_8c00_0000_0000 * 0x80_0000 + 0x0);
    lemma_quotient_known(0x3cd6_50c6, 0x3c80_0000, 0xd6_50c6, 120, 0x80_0000, 120, 0x1_aca1_8c00_0000_0000, 0x0, 66, 0x2_0000_0000_0000_0000, 0x400_0000_0000);
    assert(div_spec(0x3cd6_50c6, 0x3c80_0000) == 0x3fd6_50c6);
    assert(0xa7_535e * 0x80 + 0xd6_50c6 * 0x1 == 0x547f_ffc6);
    lemma_sum_known(0x4327_535e, 0x3fd6_50c6, false, 0xa7_535e, 133, 0xd6_50c6, 126, 0x80, 0x1, 0x547f_ffc6, 31, 0x4000_0000, 0x80);
    assert(add_spec(0x4327_535e, 0x3fd6_50c6) == 0x4329_0000);
    lemma_whole_known(0x4329_0000, 0xa9_0000, 133, 0x1_0000);
}

/// The edge of code 168.
proof fn lemma_near_168()
    ensures
        near_exact_edge(0x3ec9_ceec, 168),
{
    lemma2_to64();
    lemma2_to64_rest();
    lemma_fifth_powers_of_two();
    lemma_more_fifth_powers_of_two();
    assert(182525nat * 182525 * 182525 == 0x15_9a89_48f2_32e5);
    assert(269025nat * 269025 * 269025 == 0x45_2c59_9066_9ca1);
    assert(0x15_9a89_48f2_32e5nat * 0x15_9a89_48f2_32e5 == 0x1d2_b7cf_6d1e_e6d1_1edf_1312_40d9nat);
    assert(0x1d2_b7cf_6d1e_e6d1_1edf_1312_40d9nat * 0x1d2_b7cf_6d1e_e6d1_1edf_1312_40d9nat == 0x3_52e1_b323_7a94_25cf_f8bd_45e2_a711_62a8_f80a_50bd_8cfb_64f1_37f1nat);
    assert(0x45_2c59_9066_9ca1nat * 0x45_2c59_9066_9ca1 == 0x12b0_eff6_c049_6d6d_d948_5020_9d41nat);
    assert(0x12b0_eff6_c049_6d6d_d948_5020_9d41nat * 0x12b0_eff6_c049_6d6d_d948_5020_9d41nat == 0x15d_5c09_8741_6139_2178_92b9_bce5_5f46_89a2_dd05_b95f_0d00_50d8_ca81nat);
    assert(0x3f0_e89cnat * 0x3f0_e89c == 0xf_8828_9fdb_1f10);
    assert(0xf_8828_9fdb_1f10nat * 0xf_8828_9fdb_1f10 == 0xf1_3d2d_ebf8_cd2c_a124_0924_e100nat);
    assert(0xf1_3d2d_ebf8_cd2c_a124_0924_e100nat * 0x3f0_e89c == 0x3_b6bc_1744_097d_2547_f71e_db74_ee61_1c00nat);
    assert(0x3f1_2c9cnat * 0x3f1_2c9c == 0xf_8a40_ad7d_ff10);
    assert(0xf_8a40_ad7d_ff10nat * 0xf_8a40_ad7d_ff10 == 0xf1_7e3e_2026_ef70_50be_b3c0_e100nat);
    assert(0xf1_7e3e_2026_ef70_50be_b3c0_e100nat * 0x3f1_2c9c == 0x3_b7fc_a7b8_54d8_028f_75f4_7651_8135_1c00nat);
    assert(0x3_b6bc_1744_097d_2547_f71e_db74_ee61_1c00nat * 0x15d_5c09_8741_6139_2178_92b9_bce5_5f46_89a2_dd05_b95f_0d00_50d8_ca81nat == 0x511_743a_b30a_3381_5c2f_76a9_a5c6_789c_123c_313d_1b76_7b4a_d4a2_3f78_c441_e31d_304b_d83f_e74a_54b4_5f07_1c00nat);
    assert(0x3_b7fc_a7b8_54d8_028f_75f4_7651_8135_1c00nat * 0x15d_5c09_8741_6139_2178_92b9_bce5_5f46_89a2_dd05_b95f_0d00_50d8_ca81nat == 0x513_29b2_e16d_2b98_13e9_09c5_84f2_d876_6163_23b1_d085_5ae1_6f1c_dce9_b3dc_49d4_809c_6c1b_b91d_8c95_a3db_1c00nat);
    assert(0xc35nat * 0x2000_0000_0000_0000_0000_0000_0000_0000nat == 0x186_a000_0000_0000_0000_0000_0000_0000_0000nat);
    assert(0x3_52e1_b323_7a94_25cf_f8bd_45e2_a711_62a8_f80a_50bd_8cfb_64f1_37f1nat * 0x186_a000_0000_0000_0000_0000_0000_0000_0000nat == 0x512_57a3_f802_ea4e_3276_ebce_c2f8_2ce7_2b13_7abd_733b_3f18_e691_fc1c_a000_0000_0000_0000_0000_0000_0000_0000nat);
    lemma_near_above(
        0x3ec9_ceec, 0xc9_ceec, 124, 0x200, 0x186_a000_0000_0000_0000_0000_0000_0000_0000nat, 168,
        182525, 0x15_9a89_48f2_32e5,
        0x1d2_b7cf_6d1e_e6d1_1edf_1312_40d9nat,
        0x45_2c59_9066_9ca1, 0x12b0_eff6_c049_6d6d_d948_5020_9d41nat,
        0x3f0_e89c, 0xf_8828_9fdb_1f10, 0xf1_3d2d_ebf8_cd2c_a124_0924_e100nat,
        0x3f1_2c9c, 0xf_8a40_ad7d_ff10, 0xf1_7e3e_2026_ef70_50be_b3c0_e100nat,
    );
}

/// The value 0x3ecc_75a0.
proof fn lemma_at_3ecc75a0()
    ensures
        chord_code(0x3ecc_75a0, 0x3ec5_5e8d, 0x3ecd_5e8d, 0x4327_535e, 0x432a_57db) == 169,
{
    reveal(chord_code);
    lemma2_to64();
    lemma2_to64_rest();
    lemma_high_powers();
    assert(0xcd_5e8d * 0x1 - 0xc5_5e8d * 0x1 == 0x8_0000);
    lemma_sum_known(0x3ecd_5e8d, 0x3ec5_5e8d, true, 0xcd_5e8d, 124, 0xc5_5e8d, 124, 0x1, 0x1, 0x8_0000, 20, 0x8_0000, 0x10);
    assert(sub_spec(0x3ecd_5e8d, 0x3ec5_5e8d) == 0x3c80_0000);
    assert(0xcc_75a0 * 0x1 - 0xc5_5e8d * 0x1 == 0x7_1713);
    lemma_sum_known(0x3ecc_75a0, 0x3ec5_5e8d, true, 0xcc_75a0, 124, 0xc5_5e8d, 124, 0x1, 0x1, 0x7_1713, 19, 0x4_0000, 0x20);
    assert(sub_spec(0x3ecc_75a0, 0x3ec5_5e8d) == 0x3c62_e260);
    assert(0xaa_57db * 0x1 - 0xa7_535e * 0x1 == 0x3_047d);
    lemma_sum_known(0x432a_57db, 0x4327_535e, true, 0xaa_57db, 133, 0xa7_535e, 133, 0x1, 0x1, 0x3_047d, 18, 0x2_0000, 0x40);
    assert(sub_spec(0x432a_57db, 0x4327_535e) == 0x4041_1f40);
    assert(0xc1_1f40 * 0xe2_e260 == 0xab28_5c82_3800);
    lemma_product_known(0x4041_1f40, 0x3c62_e260, 0xc1_1f40, 127, 0xe2_e260, 119, 0xab28_5c82_3800, 48, 0x8000_0000_0000, 0x100_0000);
    assert(mul_spec(0x4041_1f40, 0x3c62_e260) == 0x3d2b_285d);
    assert(0xab_285d * 0x1_0000_0000_0000_0000 == 0x1_5650_ba00_0000_0000 * 0x80_0000 + 0x0);
    lemma_quotient_known(0x3d2b_285d, 0x3c80_0000, 0xab_285d, 121, 0x80_0000, 120, 0x1_5650_ba00_0000_0000, 0x0, 66, 0x2_0000_0000_0000_0000, 0x400_0000_0000);
    assert(div_spec(0x3d2b_285d, 0x3c80_0000) == 0x402b_285d);
    assert(0xa7_535e * 0x40 + 0xab_285d * 0x1 == 0x2a7f_ffdd);
    lemma_sum_known(0x4327_535e, 0x402b_285d, false, 0xa7_535e, 133, 0xab_285d, 127, 0x40, 0x1, 0x2a7f_ffdd, 30, 0x2000_0000, 0x40);
    assert(add_spec(0x4327_535e, 0x402b_285d) == 0x4329_ffff);
    lemma_whole_known(0x4329_ffff, 0xa9_ffff, 133, 0x1_0000);
}

/// The value 0x3ecc_75a1.
proof fn lemma_at_3ecc75a1()
    ensures
        chord_code(0x3ecc_75a1, 0x3ec5_5e8d, 0x3ecd_5e8d, 0x4327_535e, 0x432a_57db) == 170,
{
    reveal(chord_code);
    lemma2_to64();
    lemma2_to64_rest();
    lemma_high_powers();
    assert(0xcd_5e8d * 0x1 - 0xc5_5e8d * 0x1 == 0x8_0000);
    lemma_sum_known(0x3ecd_5e8d, 0x3ec5_5e8d, true, 0xcd_5e8d, 124, 0xc5_5e8d, 124, 0x1, 0x1, 0x8_0000, 20, 0x8_0000, 0x10);
    assert(sub_spec(0x3ecd_5e8d, 0x3ec5_5e8d) == 0x3c80_0000);
    assert(0xcc_75a1 * 0x1 - 0xc5_5e8d * 0x1 == 0x7_1714);
    lemma_sum_known(0x3ecc_75a1, 0x3ec5_5e8d, true, 0xcc_75a1, 124, 0xc5_5e8d, 124, 0x1, 0x1, 0x7_1714, 19, 0x4_0000, 0x20);
    assert(sub_spec(0x3ecc_75a1, 0x3ec5_5e8d) == 0x3c62_e280);
    assert(0xaa_57db * 0x1 - 0xa7_535e * 0x1 == 0x3_047d);
    lemma_sum_known(0x432a_57db, 0x4327_535e, true, 0xaa_57db, 133, 0xa7_535e, 133, 0x1, 0x1, 0x3_047d, 18, 0x2_0000, 0x40);
    assert(sub_spec(0x432a_57db, 0x4327_535e) == 0x4041_1f40);
    assert(0xc1_1f40 * 0xe2_e280 == 0xab28_74a6_2000);
    lemma_product_known(0x4041_1f40, 0x3c62_e280, 0xc1_1f40, 127, 0xe2_e280, 119, 0xab28_74a6_2000, 48, 0x8000_0000_0000, 0x100_0000);
    assert(mul_spec(0x4041_1f40, 0x3c62_e280) == 0x3d2b_2875);
    assert(0xab_2875 * 0x1_0000_0000_0000_0000 == 0x1_5650_ea00_0000_0000 * 0x80_0000 + 0x0);
    lemma_quotient_known(0x3d2b_2875, 0x3c80_0000, 0xab_2875, 121, 0x80_0000, 120, 0x1_5650_ea00_0000_0000, 0x0, 66, 0x2_0000_0000_0000_0000, 0x400_0000_0000);
    assert(div_spec(0x3d2b_2875, 0x3c80_0000) == 0x402b_2875);
    assert(0xa7_535e * 0x40 + 0xab_2875 * 0x1 == 0x2a7f_fff5);
    lemma_sum_known(0x4327_535e, 0x402b_2875, false, 0xa7_535e, 133, 0xab_2875, 127, 0x40, 0x1, 0x2a7f_fff5, 30, 0x2000_0000, 0x40);
    assert(add_spec(0x4327_535e, 0x402b_2875) == 0x432a_0000);
    lemma_whole_known(0x432a_0000, 0xaa_0000, 133, 0x1_0000);
}

/// The edge of code 169.
proof fn lemma_near_169()
    ensures
        near_exact_edge(0x3ecc_75a0, 169),
{
    lemma2_to64();
    lemma2_to64_rest();
    lemma_fifth_powers_of_two();
    lemma_more_fifth_powers_of_two();
    assert(183525nat * 183525 * 183525 == 0x15_f5ef_87f4_021d);
    assert(269025nat * 269025 * 269025 == 0x45_2c59_9066_9ca1);
    assert(0x15_f5ef_87f4_021dnat * 0x15_f5ef_87f4_021d == 0x1e2_4590_a860_869c_b6f4_9d4c_7749nat);
    assert(0x1e2_4590_a860_869c_b6f4_9d4c_7749nat * 0x1e2_4590_a860_869c_b6f4_9d4c_7749nat == 0x3_8c8a_07a1_57fc_ca07_b120_f060_1299_7395_c236_c0fe_104e_94ec_f2d1nat);
    assert(0x45_2c59_9066_9ca1nat * 0x45_2c59_9066_9ca1 == 0x12b0_eff6_c049_6d6d_d948_5020_9d41nat);
    assert(0x12b0_eff6_c049_6d6d_d948_5020_9d41nat * 0x12b0_eff6_c049_6d6d_d948_5020_9d41nat == 0x15d_5c09_8741_6139_2178_92b9_bce5_5f46_89a2_dd05_b95f_0d00_50d8_ca81nat);
    assert(0x3fe_2a20nat * 0x3fe_2a20 == 0xf_f154_5e6e_8400);
    assert(0xf_f154_5e6e_8400nat * 0xf_f154_5e6e_8400 == 0xfe_2b63_068d_a7e3_f8a5_b410_0000nat);
    assert(0xfe_2b63_068d_a7e3_f8a5_b410_0000nat * 0x3fe_2a20 == 0x3_f6db_0837_d4f8_4f5b_08cf_1c21_2200_0000nat);
    assert(0x3fe_6e20nat * 0x3fe_6e20 == 0xf_f373_76df_8400);
    assert(0xf_f373_76df_8400nat * 0xf_f373_76df_8400 == 0xfe_6f0c_55f1_d09b_68d7_3c10_0000nat);
    assert(0xfe_6f0c_55f1_d09b_68d7_3c10_0000nat * 0x3fe_6e20 == 0x3_f82c_c6c4_49d7_7249_65bb_5e96_6200_0000nat);
    assert(0x3_f6db_0837_d4f8_4f5b_08cf_1c21_2200_0000nat * 0x15d_5c09_8741_6139_2178_92b9_bce5_5f46_89a2_dd05_b95f_0d00_50d8_ca81nat == 0x568_f576_b0f5_6161_e968_bd21_081b_a181_f689_38ac_9669_b9b9_8ee5_20a4_3e2f_b71f_3799_4616_f324_0186_2200_0000nat);
    assert(0x3_f82c_c6c4_49d7_7249_65bb_5e96_6200_0000nat * 0x15d_5c09_8741_6139_2178_92b9_bce5_5f46_89a2_dd05_b95f_0d00_50d8_ca81nat == 0x56a_c260_e37d_5442_8ca1_7542_f235_32bf_3df8_1d77_662d_2966_63cc_2bf1_b394_3e43_c7e4_e5e2_e990_031b_6200_0000nat);
    assert(0xc35nat * 0x2000_0000_0000_0000_0000_0000_0000_0000nat == 0x186_a000_0000_0000_0000_0000_0000_0000_0000nat);
    assert(0x3_8c8a_07a1_57fc_ca07_b120_f060_1299_7395_c236_c0fe_104e_94ec_f2d1nat * 0x186_a000_0000_0000_0000_0000_0000_0000_0000nat == 0x56a_521d_e490_e219_c5fc_a6e2_c898_6165_fe63_78cc_3bab_a1e7_fe0e_0228_a000_0000_0000_0000_0000_0000_0000_0000nat);
    lemma_near_above(
        0x3ecc_75a0, 0xcc_75a0, 124, 0x200, 0x186_a000_0000_0000_0000_0000_0000_0000_0000nat, 169,
        183525, 0x15_f5ef_87f4_021d,
        0x1e2_4590_a860_869c_b6f4_9d4c_7749nat,
        0x45_2c59_9066_9ca1, 0x12b0_eff6_c049_6d6d_d948_5020_9d41nat,
        0x3fe_2a20, 0xf_f154_5e6e_8400, 0xfe_2b63_068d_a7e3_f8a5_b410_0000nat,
        0x3fe_6e20, 0xf_f373_76df_8400, 0xfe_6f0c_55f1_d09b_68d7_3c10_0000nat,
    );
}

/// The value 0x3ecf_2684.
proof fn lemma_at_3ecf2684()
    ensures
        chord_code(0x3ecf_2684, 0x3ecd_5e8d, 0x3ed5_5e8d, 0x432a_57db, 0x432d_4b13) == 170,
{
    reveal(chord_code);
    lemma2_to64();
    lemma2_to64_rest();
    lemma_high_powers();
    assert(0xd5_5e8d * 0x1 - 0xcd_5e8d * 0x1 == 0x8_0000);
    lemma_sum_known(0x3ed5_5e8d, 0x3ecd_5e8d, true, 0xd5_5e8d, 124, 0xcd_5e8d, 124, 0x1, 0x1, 0x8_0000, 20, 0x8_0000, 0x10);
    assert(sub_spec(0x3ed5_5e8d, 0x3ecd_5e8d) == 0x3c80_0000);
    assert(0xcf_2684 * 0x1 - 0xcd_5e8d * 0x1 == 0x1_c7f7);
    lemma_sum_known(0x3ecf_2684, 0x3ecd_5e8d, true, 0xcf_2684, 124, 0xcd_5e8d, 124, 0x1, 0x1, 0x1_c7f7, 17, 0x1_0000, 0x80);
    assert(sub_spec(0x3ecf_2684, 0x3ecd_5e8d) == 0x3b63_fb80);
    assert(0xad_4b13 * 0x1 - 0xaa_57db * 0x1 == 0x2_f338);
    lemma_sum_known(0x432d_4b13, 0x432a_57db, true, 0xad_4b13, 133, 0xaa_57db, 133, 0x1, 0x1, 0x2_f338, 18, 0x2_0000, 0x40);
    assert(sub_spec(0x432d_4b13, 0x432a_57db) == 0x403c_ce00);
    assert(0xbc_ce00 * 0xe3_fb80 == 0xa824_2661_0000);
    lemma_product_known(0x403c_ce00, 0x3b63_fb80, 0xbc_ce00, 127, 0xe3_fb80, 117, 0xa824_2661_0000, 48, 0x8000_0000_0000, 0x100_0000);
    assert(mul_spec(0x403c_ce00, 0x3b63_fb80) == 0x3c28_2426);
    assert(0xa8_2426 * 0x1_0000_0000_0000_0000 == 0x1_5048_4c00_0000_0000 * 0x80_0000 + 0x0);
    lemma_quotient_known(0x3c28_2426, 0x3c80_0000, 0xa8_2426, 119, 0x80_0000, 120, 0x1_5048_4c00_0000_0000, 0x0, 66, 0x2_0000_0000_0000_0000, 0x400_0000_0000);
    assert(div_spec(0x3c28_2426, 0x3c80_0000) == 0x3f28_2426);
    assert(0xaa_57db * 0x100 + 0xa8_2426 * 0x1 == 0xaaff_ff26);
    lemma_sum_known(0x432a_57db, 0x3f28_2426, false, 0xaa_57db, 133, 0xa8_2426, 125, 0x100, 0x1, 0xaaff_ff26, 32, 0x8000_0000, 0x100);
    assert(add_spec(0x432a_57db, 0x3f28_2426) == 0x432a_ffff);
    lemma_whole_known(0x432a_ffff, 0xaa_ffff, 133, 0x1_0000);
}

/// The value 0x3ecf_2685.
proof fn lemma_at_3ecf2685()
    ensures
        chord_code(0x3ecf_2685, 0x3ecd_5e8d, 0x3ed5_5e8d, 0x432a_57db, 0x432d_4b13) == 171,
{
    reveal(chord_code);
    lemma2_to64();
    lemma2_to64_rest();
    lemma_high_powers();
    assert(0xd5_5e8d * 0x1 - 0xcd_5e8d * 0x1 == 0x8_0000);
    lemma_sum_known(0x3ed5_5e8d, 0x3ecd_5e8d, true, 0xd5_5e8d, 124, 0xcd_5e8d, 124, 0x1, 0x1, 0x8_0000, 20, 0x8_0000, 0x10);
    assert(sub_spec(0x3ed5_5e8d, 0x3ecd_5e8d) == 0x3c80_0000);
    assert(0xcf_2685 * 0x1 - 0xcd_5e8d * 0x1 == 0x1_c7f8);
    lemma_sum_known(0x3ecf_2685, 0x3ecd_5e8d, true, 0xcf_2685, 124, 0xcd_5e8d, 124, 0x1, 0x1, 0x1_c7f8, 17, 0x1_0000, 0x80);
    assert(sub_spec(0x3ecf_2685, 0x3ecd_5e8d) == 0x3b63_fc00);
    assert(0xad_4b13 * 0x1 - 0xaa_57db * 0x1 == 0x2_f338);
    lemma_sum_known(0x432d_4b13, 0x432a_57db, true, 0xad_4b13, 133, 0xaa_57db, 133, 0x1, 0x1, 0x2_f338, 18, 0x2_0000, 0x40);
    assert(sub_spec(0x432d_4b13, 0x432a_57db) == 0x403c_ce00);
    assert(0xbc_ce00 * 0xe3_fc00 == 0xa824_84c8_0000);
    lemma_product_known(0x403c_ce00, 0x3b63_fc00, 0xbc_ce00, 127, 0xe3_fc00, 117, 0xa824_84c8_0000, 48, 0x8000_0000_0000, 0x100_0000);
    assert(mul_spec(0x403c_ce00, 0x3b63_fc00) == 0x3c28_2485);
    assert(0xa8_2485 * 0x1_0000_0000_0000_0000 == 0x1_5049_0a00_0000_0000 * 0x80_0000 + 0x0);
    lemma_quotient_known(0x3c28_2485, 0x3c80_0000, 0xa8_2485, 119, 0x80_0000, 120, 0x1_5049_0a00_0000_0000, 0x0, 66, 0x2_0000_0000_0000_0000, 0x400_0000_0000);
    assert(div_spec(0x3c28_2485, 0x3c80_0000) == 0x3f28_2485);
    assert(0xaa_57db * 0x100 + 0xa8_2485 * 0x1 == 0xaaff_ff85);
    lemma_sum_known(0x432a_57db, 0x3f28_2485, false, 0xaa_57db, 133, 0xa8_2485, 125, 0x100, 0x1, 0xaaff_ff85, 32, 0x8000_0000, 0x100);
    assert(add_spec(0x432a_57db, 0x3f28_2485) == 0x432b_0000);
    lemma_whole_known(0x432b_0000, 0xab_0000, 133, 0x1_0000);
}

/// The edge of code 170.
proof fn lemma_near_170()
    ensures
        near_exact_edge(0x3ecf_2684, 170),
{
    lemma2_to64();
    lemma2_to64_rest();
    lemma_fifth_powers_of_two();
    lemma_more_fifth_powers_of_two();
    assert(184525nat * 184525 * 184525 == 0x16_5256_289d_64d5);
    assert(269025nat * 269025 * 269025 == 0x45_2c59_9066_9ca1);
    assert(0x16_5256_289d_64d5nat * 0x16_5256_289d_64d5 == 0x1f2_414a_4a11_7965_c363_64f9_1939nat);
    assert(0x1f2_414a_4a11_7965_c363_64f9_1939nat * 0x1f2_414a_4a11_7965_c363_64f9_1939nat == 0x3_c9c2_15ae_fb28_171a_2622_75ed_c550_a9a0_0662_85e3_e62c_9b5e_2eb1nat);
    assert(0x45_2c59_9066_9ca1nat * 0x45_2c59_9066_9ca1 == 0x12b0_eff6_c049_6d6d_d948_5020_9d41nat);
    assert(0x12b0_eff6_c049_6d6d_d948_5020_9d41nat * 0x12b0_eff6_c049_6d6d_d948_5020_9d41nat == 0x15d_5c09_8741_6139_2178_92b9_bce5_5f46_89a2_dd05_b95f_0d00_50d8_ca81nat);
    assert(0x40b_9e94nat * 0x40b_9e94 == 0x10_5d7b_a2f3_0590);
    assert(0x10_5d7b_a2f3_0590nat * 0x10_5d7b_a2f3_0590 == 0x10b_d197_6e7b_414a_721d_cf7e_f100nat);
    assert(0x10b_d197_6e7b_414a_721d_cf7e_f100nat * 0x40b_9e94 == 0x4_3b6e_456c_4e0c_e989_0ffe_4584_a921_5400nat);
    assert(0x40b_e294nat * 0x40b_e294 == 0x10_5fa1_e141_a590);
    assert(0x10_5fa1_e141_a590nat * 0x10_5fa1_e141_a590 == 0x10c_17f5_b3c0_85a7_94fc_9e32_f100nat);
    assert(0x10c_17f5_b3c0_85a7_94fc_9e32_f100nat * 0x40b_e294 == 0x4_3cd2_2682_7e18_3dd2_8fbc_bda8_c935_5400nat);
    assert(0x4_3b6e_456c_4e0c_e989_0ffe_4584_a921_5400nat * 0x15d_5c09_8741_6139_2178_92b9_bce5_5f46_89a2_dd05_b95f_0d00_50d8_ca81nat == 0x5c6_8ad8_98e5_9d88_1167_e3ef_05eb_ad75_f1a1_2caa_e117_0b73_b79e_896a_4f1f_b116_3493_029c_ac08_d3ac_6613_5400nat);
    assert(0x4_3cd2_2682_7e18_3dd2_8fbc_bda8_c935_5400nat * 0x15d_5c09_8741_6139_2178_92b9_bce5_5f46_89a2_dd05_b95f_0d00_50d8_ca81nat == 0x5c8_7082_6648_069b_bdf8_a530_3db1_ffc7_ae3e_fa78_cbbb_4351_f14a_92e5_1d99_041e_b1cd_f9c0_0251_3010_5827_5400nat);
    assert(0xc35nat * 0x2000_0000_0000_0000_0000_0000_0000_0000nat == 0x186_a000_0000_0000_0000_0000_0000_0000_0000nat);
    assert(0x3_c9c2_15ae_fb28_171a_2622_75ed_c550_a9a0_0662_85e3_e62c_9b5e_2eb1nat * 0x186_a000_0000_0000_0000_0000_0000_0000_0000nat == 0x5c7_bbc6_561f_fc0c_4046_7055_31ef_3434_d3cd_be15_8cdf_17d0_9295_fed4_a000_0000_0000_0000_0000_0000_0000_0000nat);
    lemma_near_above(
        0x3ecf_2684, 0xcf_2684, 124, 0x200, 0x186_a000_0000_0000_0000_0000_0000_0000_0000nat, 170,
        184525, 0x16_5256_289d_64d5,
        0x1f2_414a_4a11_7965_c363_64f9_1939nat,
        0x45_2c59_9066_9ca1, 0x12b0_eff6_c049_6d6d_d948_5020_9d41nat,
        0x40b_9e94, 0x10_5d7b_a2f3_0590, 0x10b_d197_6e7b_414a_721d_cf7e_f100nat,
        0x40b_e294, 0x10_5fa1_e141_a590, 0x10c_17f5_b3c0_85a7_94fc_9e32_f100nat,
    );
}

/// The value 0x3ed1_dcbd.
proof fn lemma_at_3ed1dcbd()
    ensures
        chord_code(0x3ed1_dcbd, 0x3ecd_5e8d, 0x3ed5_5e8d, 0x432a_57db, 0x432d_4b13) == 171,
{
    reveal(chord_code);
    lemma2_to64();
    lemma2_to64_rest();
    lemma_high_powers();
    assert(0xd5_5e8d * 0x1 - 0xcd_5e8d * 0x1 == 0x8_0000);
    lemma_sum_known(0x3ed5_5e8d, 0x3ecd_5e8d, true, 0xd5_5e8d, 124, 0xcd_5e8d, 124, 0x1, 0x1, 0x8_0000, 20, 0x8_0000, 0x10);
    assert(sub_spec(0x3ed5_5e8d, 0x3ecd_5e8d) == 0x3c80_0000);
    assert(0xd1_dcbd * 0x1 - 0xcd_5e8d * 0x1 == 0x4_7e30);
    lemma_sum_known(0x3ed1_dcbd, 0x3ecd_5e8d, true, 0xd1_dcbd, 124, 0xcd_5e8d, 124, 0x1, 0x1, 0x4_7e30, 19, 0x4_0000, 0x20);
    assert(sub_spec(0x3ed1_dcbd, 0x3ecd_5e8d) == 0x3c0f_c600);
    assert(0xad_4b13 * 0x1 - 0xaa_57db * 0x1 == 0x2_f338);
    lemma_sum_known(0x432d_4b13, 0x432a_57db, true, 0xad_4b13, 133, 0xaa_57db, 133, 0x1, 0x1, 0x2_f338, 18, 0x2_0000, 0x40);
    assert(sub_spec(0x432d_4b13, 0x432a_57db) == 0x403c_ce00);
    assert(0xbc_ce00 * 0x8f_c600 == 0x6a09_1954_0000);
    lemma_product_known(0x403c_ce00, 0x3c0f_c600, 0xbc_ce00, 127, 0x8f_c600, 119, 0x6a09_1954_0000, 47, 0x4000_0000_0000, 0x80_0000);
    assert(mul_spec(0x403c_ce00, 0x3c0f_c600) == 0x3cd4_1233);
    assert(0xd4_1233 * 0x1_0000_0000_0000_0000 == 0x1_a824_6600_0000_0000 * 0x80_0000 + 0x0);
    lemma_quotient_known(0x3cd4_1233, 0x3c80_0000, 0xd4_1233, 120, 0x80_0000, 120, 0x1_a824_6600_0000_0000, 0x0, 66, 0x2_0000_0000_0000_0000, 0x400_0000_0000);
    assert(div_spec(0x3cd4_1233, 0x3c80_0000) == 0x3fd4_1233);
    assert(0xaa_57db * 0x80 + 0xd4_1233 * 0x1 == 0x55ff_ffb3);
    lemma_sum_known(0x432a_57db, 0x3fd4_1233, false, 0xaa_57db, 133, 0xd4_1233, 126, 0x80, 0x1, 0x55ff_ffb3, 31, 0x4000_0000, 0x80);
    assert(add_spec(0x432a_57db, 0x3fd4_1233) == 0x432b_ffff);
    lemma_whole_known(0x432b_ffff, 0xab_ffff, 133, 0x1_0000);
}

/// The value 0x3ed1_dcbe.
proof fn lemma_at_3ed1dcbe()
    ensures
        chord_code(0x3ed1_dcbe, 0x3ecd_5e8d, 0x3ed5_5e8d, 0x432a_57db, 0x432d_4b13) == 172,
{
    reveal(chord_code);
    lemma2_to64();
    lemma2_to64_rest();
    lemma_high_powers();
    assert(0xd5_5e8d * 0x1 - 0xcd_5e8d * 0x1 == 0x8_0000);
    lemma_sum_known(0x3ed5_5e8d, 0x3ecd_5e8d, true, 0xd5_5e8d, 124, 0xcd_5e8d, 124, 0x1, 0x1, 0x8_0000, 20, 0x8_0000, 0x10);
    assert(sub_spec(0x3ed5_5e8d, 0x3ecd_5e8d) == 0x3c80_0000);
    assert(0xd1_dcbe * 0x1 - 0xcd_5e8d * 0x1 == 0x4_7e31);
    lemma_sum_known(0x3ed1_dcbe, 0x3ecd_5e8d, true, 0xd1_dcbe, 124, 0xcd_5e8d, 124, 0x1, 0x1, 0x4_7e31, 19, 0x4_0000, 0x20);
    assert(sub_spec(0x3ed1_dcbe, 0x3ecd_5e8d) == 0x3c0f_c620);
    assert(0xad_4b13 * 0x1 - 0xaa_57db * 0x1 == 0x2_f338);
    lemma_sum_known(0x432d_4b13, 0x432a_57db, true, 0xad_4b13, 133, 0xaa_57db, 133, 0x1, 0x1, 0x2_f338, 18, 0x2_0000, 0x40);
    assert(sub_spec(0x432d_4b13, 0x432a_57db) == 0x403c_ce00);
    assert(0xbc_ce00 * 0x8f_c620 == 0x6a09_30ed_c000);
    lemma_product_known(0x403c_ce00, 0x3c0f_c620, 0xbc_ce00, 127, 0x8f_c620, 119, 0x6a09_30ed_c000, 47, 0x4000_0000_0000, 0x80_0000);
    assert(mul_spec(0x403c_ce00, 0x3c0f_c620) == 0x3cd4_1262);
    assert(0xd4_1262 * 0x1_0000_0000_0000_0000 == 0x1_a824_c400_0000_0000 * 0x80_0000 + 0x0);
    lemma_quotient_known(0x3cd4_1262, 0x3c80_0000, 0xd4_1262, 120, 0x80_0000, 120, 0x1_a824_c400_0000_0000, 0x0, 66, 0x2_0000_0000_0000_0000, 0x400_0000_0000);
    assert(div_spec(0x3cd4_1262, 0x3c80_0000) == 0x3fd4_1262);
    assert(0xaa_57db * 0x80 + 0xd4_1262 * 0x1 == 0x55ff_ffe2);
    lemma_sum_known(0x432a_57db, 0x3fd4_1262, false, 0xaa_57db, 133, 0xd4_1262, 126, 0x80, 0x1, 0x55ff_ffe2, 31, 0x4000_0000, 0x80);
    assert(add_spec(0x432a_57db, 0x3fd4_1262) == 0x432c_0000);
    lemma_whole_known(0x432c_0000, 0xac_0000, 133, 0x1_0000);
}

/// The edge of code 171.
proof fn lemma_near_171()
    ensures
        near_exact_edge(0x3ed1_dcbd, 171),
{
    lemma2_to64();
    lemma2_to64_rest();
    lemma_fifth_powers_of_two();
    lemma_more_fifth_powers_of_two();
    assert(185525nat * 185525 * 185525 == 0x16_afbe_908f_170d);
    assert(269025nat * 269025 * 269025 == 0x45_2c59_9066_9ca1);
    assert(0x16_afbe_908f_170dnat * 0x16_afbe_908f_170d == 0x202_ad66_f016_7dc7_4735_6299_56a9nat);
    assert(0x202_ad66_f016_7dc7_4735_6299_56a9nat * 0x202_ad66_f016_7dc7_4735_6299_56a9nat == 0x4_0abc_c6d0_6433_ad4f_b13a_571e_5cab_d89b_75e4_cc47_622c_1757_fb91nat);
    assert(0x45_2c59_9066_9ca1nat * 0x45_2c59_9066_9ca1 == 0x12b0_eff6_c049_6d6d_d948_5020_9d41nat);
    assert(0x12b0_eff6_c049_6d6d_d948_5020_9d41nat * 0x12b0_eff6_c049_6d6d_d948_5020_9d41nat == 0x15d_5c09_8741_6139_2178_92b9_bce5_5f46_89a2_dd05_b95f_0d00_50d8_ca81nat);
    assert(0x419_2db1nat * 0x419_2db1 == 0x10_cbe7_7cb9_b461);
    assert(0x10_cbe7_7cb9_b461nat * 0x10_cbe7_7cb9_b461 == 0x11a_1f58_8857_6419_ca82_2b4a_8cc1nat);
    assert(0x11a_1f58_8857_6419_ca82_2b4a_8cc1nat * 0x419_2db1 == 0x4_843c_cc58_ea46_ceb3_8dd1_4a16_cc22_3e71nat);
    assert(0x419_71b1nat * 0x419_71b1 == 0x10_ce14_ef0f_bc61);
    assert(0x10_ce14_ef0f_bc61nat * 0x10_ce14_ef0f_bc61 == 0x11a_6883_946b_18ff_eddc_bbfc_9cc1nat);
    assert(0x11a_6883_946b_18ff_eddc_bbfc_9cc1nat * 0x419_71b1 == 0x4_85b3_ae8f_8256_54ca_ee70_32b6_cdb2_9271nat);
    assert(0x4_843c_cc58_ea46_ceb3_8dd1_4a16_cc22_3e71nat * 0x15d_5c09_8741_6139_2178_92b9_bce5_5f46_89a2_dd05_b95f_0d00_50d8_ca81nat == 0x629_e693_77ad_e029_51d0_8eae_2f0a_783e_47fc_9dc9_b7c8_34de_8a84_997b_c40f_8f10_926b_5386_d00d_fff7_e1de_a0f1nat);
    assert(0x4_85b3_ae8f_8256_54ca_ee70_32b6_cdb2_9271nat * 0x15d_5c09_8741_6139_2178_92b9_bce5_5f46_89a2_dd05_b95f_0d00_50d8_ca81nat == 0x62b_e62c_a35a_d0ec_a5d8_4203_dfb5_d5c7_7713_99b1_afeb_9db0_8470_7911_b701_874e_b29f_2ba9_ab71_e5db_6de0_f4f1nat);
    assert(0xc35nat * 0x2000_0000_0000_0000_0000_0000_0000_0000nat == 0x186_a000_0000_0000_0000_0000_0000_0000_0000nat);
    assert(0x4_0abc_c6d0_6433_ad4f_b13a_571e_5cab_d89b_75e4_cc47_622c_1757_fb91nat * 0x186_a000_0000_0000_0000_0000_0000_0000_0000nat == 0x62a_e24c_ddba_e55a_53b9_cda5_2eb4_27b7_6436_c43e_346c_2c87_1ea0_3c20_a000_0000_0000_0000_0000_0000_0000_0000nat);
    lemma_near_above(
        0x3ed1_dcbd, 0xd1_dcbd, 124, 0x200, 0x186_a000_0000_0000_0000_0000_0000_0000_0000nat, 171,
        185525, 0x16_afbe_908f_170d,
        0x202_ad66_f016_7dc7_4735_6299_56a9nat,
        0x45_2c59_9066_9ca1, 0x12b0_eff6_c049_6d6d_d948_5020_9d41nat,
        0x419_2db1, 0x10_cbe7_7cb9_b461, 0x11a_1f58_8857_6419_ca82_2b4a_8cc1nat,
        0x419_71b1, 0x10_ce14_ef0f_bc61, 0x11a_6883_946b_18ff_eddc_bbfc_9cc1nat,
    );
}

/// The value 0x3ed4_92f5.
proof fn lemma_at_3ed492f5()
    ensures
        chord_code(0x3ed4_92f5, 0x3ecd_5e8d, 0x3ed5_5e8d, 0x432a_57db, 0x432d_4b13) == 172,
{
    reveal(chord_code);
    lemma2_to64();
    lemma2_to64_rest();
    lemma_high_powers();
    assert(0xd5_5e8d * 0x1 - 0xcd_5e8d * 0x1 == 0x8_0000);
    lemma_sum_known(0x3ed5_5e8d, 0x3ecd_5e8d, true, 0xd5_5e8d, 124, 0xcd_5e8d, 124, 0x1, 0x1, 0x8_0000, 20, 0x8_0000, 0x10);
    assert(sub_spec(0x3ed5_5e8d, 0x3ecd_5e8d) == 0x3c80_0000);
    assert(0xd4_92f5 * 0x1 - 0xcd_5e8d * 0x1 == 0x7_3468);
    lemma_sum_known(0x3ed4_92f5, 0x3ecd_5e8d, true, 0xd4_92f5, 124, 0xcd_5e8d, 124, 0x1, 0x1, 0x7_3468, 19, 0x4_0000, 0x20);
    assert(sub_spec(0x3ed4_92f5, 0x3ecd_5e8d) == 0x3c66_8d00);
    assert(0xad_4b13 * 0x1 - 0xaa_57db * 0x1 == 0x2_f338);
    lemma_sum_known(0x432d_4b13, 0x432a_57db, true, 0xad_4b13, 133, 0xaa_57db, 133, 0x1, 0x1, 0x2_f338, 18, 0x2_0000, 0x40);
    assert(sub_spec(0x432d_4b13, 0x432a_57db) == 0x403c_ce00);
    assert(0xbc_ce00 * 0xe6_8d00 == 0xaa09_1176_0000);
    lemma_product_known(0x403c_ce00, 0x3c66_8d00, 0xbc_ce00, 127, 0xe6_8d00, 119, 0xaa09_1176_0000, 48, 0x8000_0000_0000, 0x100_0000);
    assert(mul_spec(0x403c_ce00, 0x3c66_8d00) == 0x3d2a_0911);
    assert(0xaa_0911 * 0x1_0000_0000_0000_0000 == 0x1_5412_2200_0000_0000 * 0x80_0000 + 0x0);
    lemma_quotient_known(0x3d2a_0911, 0x3c80_0000, 0xaa_0911, 121, 0x80_0000, 120, 0x1_5412_2200_0000_0000, 0x0, 66, 0x2_0000_0000_0000_0000, 0x400_0000_0000);
    assert(div_spec(0x3d2a_0911, 0x3c80_0000) == 0x402a_0911);
    assert(0xaa_57db * 0x40 + 0xaa_0911 * 0x1 == 0x2b3f_ffd1);
    lemma_sum_known(0x432a_57db, 0x402a_0911, false, 0xaa_57db, 133, 0xaa_0911, 127, 0x40, 0x1, 0x2b3f_ffd1, 30, 0x2000_0000, 0x40);
    assert(add_spec(0x432a_57db, 0x402a_0911) == 0x432c_ffff);
    lemma_whole_known(0x432c_ffff, 0xac_ffff, 133, 0x1_0000);
}

/// The value 0x3ed4_92f6.
proof fn lemma_at_3ed492f6()
    ensures
        chord_code(0x3ed4_92f6, 0x3ecd_5e8d, 0x3ed5_5e8d, 0x432a_57db, 0x432d_4b13) == 173,
{
    reveal(chord_code);
    lemma2_to64();
    lemma2_to64_rest();
    lemma_high_powers();
    assert(0xd5_5e8d * 0x1 - 0xcd_5e8d * 0x1 == 0x8_0000);
    lemma_sum_known(0x3ed5_5e8d, 0x3ecd_5e8d, true, 0xd5_5e8d, 124, 0xcd_5e8d, 124, 0x1, 0x1, 0x8_0000, 20, 0x8_0000, 0x10);
    assert(sub_spec(0x3ed5_5e8d, 0x3ecd_5e8d) == 0x3c80_0000);
    assert(0xd4_92f6 * 0x1 - 0xcd_5e8d * 0x1 == 0x7_3469);
    lemma_sum_known(0x3ed4_92f6, 0x3ecd_5e8d, true, 0xd4_92f6, 124, 0xcd_5e8d, 124, 0x1, 0x1, 0x7_3469, 19, 0x4_0000, 0x20);
    assert(sub_spec(0x3ed4_92f6, 0x3ecd_5e8d) == 0x3c66_8d20);
    assert(0xad_4b13 * 0x1 - 0xaa_57db * 0x1 == 0x2_f338);
    lemma_sum_known(0x432d_4b13, 0x432a_57db, true, 0xad_4b13, 133, 0xaa_57db, 133, 0x1, 0x1, 0x2_f338, 18, 0x2_0000, 0x40);
    assert(sub_spec(0x432d_4b13, 0x432a_57db) == 0x403c_ce00);
    assert(0xbc_ce00 * 0xe6_8d20 == 0xaa09_290f_c000);
    lemma_product_known(0x403c_ce00, 0x3c66_8d20, 0xbc_ce00, 127, 0xe6_8d20, 119, 0xaa09_290f_c000, 48, 0x8000_0000_0000, 0x100_0000);
    assert(mul_spec(0x403c_ce00, 0x3c66_8d20) == 0x3d2a_0929);
    assert(0xaa_0929 * 0x1_0000_0000_0000_0000 == 0x1_5412_5200_0000_0000 * 0x80_0000 + 0x0);
    lemma_quotient_known(0x3d2a_0929, 0x3c80_0000, 0xaa_0929, 121, 0x80_0000, 120, 0x1_5412_5200_0000_0000, 0x0, 66, 0x2_0000_0000_0000_0000, 0x400_0000_0000);
    assert(div_spec(0x3d2a_0929, 0x3c80_0000) == 0x402a_0929);
    assert(0xaa_57db * 0x40 + 0xaa_0929 * 0x1 == 0x2b3f_ffe9);
    lemma_sum_known(0x432a_57db, 0x402a_0929, false, 0xaa_57db, 133, 0xaa_0929, 127, 0x40, 0x1, 0x2b3f_ffe9, 30, 0x2000_0000, 0x40);
    assert(add_spec(0x432a_57db, 0x402a_0929) == 0x432d_0000);
    lemma_whole_known(0x432d_0000, 0xad_0000, 133, 0x1_0000);
}

/// The edge of code 172.
proof fn lemma_near_172()
    ensures
        near_exact_edge(0x3ed4_92f5, 172),
{
    lemma2_to64();
    lemma2_to64_rest();
    lemma_fifth_powers_of_two();
    lemma_more_fifth_powers_of_two();
    assert(186525nat * 186525 * 186525 == 0x17_0e2a_2569_d4c5);
    assert(269025nat * 269025 * 269025 == 0x45_2c59_9066_9ca1);
    assert(0x17_0e2a_2569_d4c5nat * 0x17_0e2a_2569_d4c5 == 0x213_8c5b_5c0c_1add_1fe5_2c70_df99nat);
    assert(0x213_8c5b_5c0c_1add_1fe5_2c70_df99nat * 0x213_8c5b_5c0c_1add_1fe5_2c70_df99nat == 0x4_4faf_8ff3_e77f_4067_f8af_2842_006c_3cbf_e491_01f8_145b_012b_e971nat);
    assert(0x45_2c59_9066_9ca1nat * 0x45_2c59_9066_9ca1 == 0x12b0_eff6_c049_6d6d_d948_5020_9d41nat);
    assert(0x12b0_eff6_c049_6d6d_d948_5020_9d41nat * 0x12b0_eff6_c049_6d6d_d948_5020_9d41nat == 0x15d_5c09_8741_6139_2178_92b9_bce5_5f46_89a2_dd05_b95f_0d00_50d8_ca81nat);
    assert(0x426_bcc9nat * 0x426_bcc9 == 0x11_3bc2_dee3_d5d1);
    assert(0x11_3bc2_dee3_d5d1nat * 0x11_3bc2_dee3_d5d1 == 0x128_fdd5_0155_fdb0_585f_5f3b_74a1nat);
    assert(0x128_fdd5_0155_fdb0_585f_5f3b_74a1nat * 0x426_bcc9 == 0x4_d0e8_053b_43f3_9c60_4c00_7d77_433a_ce69nat);
    assert(0x427_00c9nat * 0x427_00c9 == 0x11_3df7_853e_9dd1);
    assert(0x11_3df7_853e_9dd1nat * 0x11_3df7_853e_9dd1 == 0x129_49df_9723_3126_4299_fc86_04a1nat);
    assert(0x129_49df_9723_3126_4299_fc86_04a1nat * 0x427_00c9 == 0x4_d272_a8d7_93ae_c080_2471_db64_7dc0_a269nat);
    assert(0x4_d0e8_053b_43f3_9c60_4c00_7d77_433a_ce69nat * 0x15d_5c09_8741_6139_2178_92b9_bce5_5f46_89a2_dd05_b95f_0d00_50d8_ca81nat == 0x692_8790_673a_5883_c2c3_a6b2_c0a4_ad39_851a_7217_e5b6_705a_6346_5519_5b42_235c_2925_3d91_4754_c344_4018_dce9nat);
    assert(0x4_d272_a8d7_93ae_c080_2471_db64_7dc0_a269nat * 0x15d_5c09_8741_6139_2178_92b9_bce5_5f46_89a2_dd05_b95f_0d00_50d8_ca81nat == 0x694_a21f_54cf_78da_e989_9fb1_ce8e_f003_306c_2472_febd_900a_992d_1c7d_2317_ca76_502f_3d3e_a6c9_7b27_36d0_b0e9nat);
    assert(0xc35nat * 0x2000_0000_0000_0000_0000_0000_0000_0000nat == 0x186_a000_0000_0000_0000_0000_0000_0000_0000nat);
    assert(0x4_4faf_8ff3_e77f_4067_f8af_2842_006c_3cbf_e491_01f8_145b_012b_e971nat * 0x186_a000_0000_0000_0000_0000_0000_0000_0000nat == 0x694_1743_078b_1c8b_a6a5_d644_cdb5_e528_324e_23c3_a12a_0f5c_a9a1_140c_a000_0000_0000_0000_0000_0000_0000_0000nat);
    lemma_near_above(
        0x3ed4_92f5, 0xd4_92f5, 124, 0x200, 0x186_a000_0000_0000_0000_0000_0000_0000_0000nat, 172,
        186525, 0x17_0e2a_2569_d4c5,
        0x213_8c5b_5c0c_1add_1fe5_2c70_df99nat,
        0x45_2c59_9066_9ca1, 0x12b0_eff6_c049_6d6d_d948_5020_9d41nat,
        0x426_bcc9, 0x11_3bc2_dee3_d5d1, 0x128_fdd5_0155_fdb0_585f_5f3b_74a1nat,
        0x427_00c9, 0x11_3df7_853e_9dd1, 0x129_49df_9723_3126_4299_fc86_04a1nat,
    );
}

/// The value 0x3ed7_53db.
proof fn lemma_at_3ed753db()
    ensures
        chord_code(0x3ed7_53db, 0x3ed5_5e8d, 0x3edd_5e8d, 0x432d_4b13, 0x4330_2e35) == 173,
{
    reveal(chord_code);
    lemma2_to64();
    lemma2_to64_rest();
    lemma_high_powers();
    assert(0xdd_5e8d * 0x1 - 0xd5_5e8d * 0x1 == 0x8_0000);
    lemma_sum_known(0x3edd_5e8d, 0x3ed5_5e8d, true, 0xdd_5e8d, 124, 0xd5_5e8d, 124, 0x1, 0x1, 0x8_0000, 20, 0x8_0000, 0x10);
    assert(sub_spec(0x3edd_5e8d, 0x3ed5_5e8d) == 0x3c80_0000);
    assert(0xd7_53db * 0x1 - 0xd5_5e8d * 0x1 == 0x1_f54e);
    lemma_sum_known(0x3ed7_53db, 0x3ed5_5e8d, true, 0xd7_53db, 124, 0xd5_5e8d, 124, 0x1, 0x1, 0x1_f54e, 17, 0x1_0000, 0x80);
    assert(sub_spec(0x3ed7_53db, 0x3ed5_5e8d) == 0x3b7a_a700);
    assert(0xb0_2e35 * 0x1 - 0xad_4b13 * 0x1 == 0x2_e322);
    lemma_sum_known(0x4330_2e35, 0x432d_4b13, true, 0xb0_2e35, 133, 0xad_4b13, 133, 0x1, 0x1, 0x2_e322, 18, 0x2_0000, 0x40);
    assert(sub_spec(0x4330_2e35, 0x432d_4b13) == 0x4038_c880);
    assert(0xb8_c880 * 0xfa_a700 == 0xb4ec_57cb_8000);
    lemma_product_known(0x4038_c880, 0x3b7a_a700, 0xb8_c880, 127, 0xfa_a700, 117, 0xb4ec_57cb_8000, 48, 0x8000_0000_0000, 0x100_0000);
    assert(mul_spec(0x4038_c880, 0x3b7a_a700) == 0x3c34_ec58);
    assert(0xb4_ec58 * 0x1_0000_0000_0000_0000 == 0x1_69d8_b000_0000_0000 * 0x80_0000 + 0x0);
    lemma_quotient_known(0x3c34_ec58, 0x3c80_0000, 0xb4_ec58, 119, 0x80_0000, 120, 0x1_69d8_b000_0000_0000, 0x0, 66, 0x2_0000_0000_0000_0000, 0x400_0000_0000);
    assert(div_spec(0x3c34_ec58, 0x3c80_0000) == 0x3f34_ec58);
    assert(0xad_4b13 * 0x100 + 0xb4_ec58 * 0x1 == 0xadff_ff58);
    lemma_sum_known(0x432d_4b13, 0x3f34_ec58, false, 0xad_4b13, 133, 0xb4_ec58, 125, 0x100, 0x1, 0xadff_ff58, 32, 0x8000_0000, 0x100);
    assert(add_spec(0x432d_4b13, 0x3f34_ec58) == 0x432d_ffff);
    lemma_whole_known(0x432d_ffff, 0xad_ffff, 133, 0x1_0000);
}

/// The value 0x3ed7_53dc.
proof fn lemma_at_3ed753dc()
    ensures
        chord_code(0x3ed7_53dc, 0x3ed5_5e8d, 0x3edd_5e8d, 0x432d_4b13, 0x4330_2e35) == 174,
{
    reveal(chord_code);
    lemma2_to64();
    lemma2_to64_rest();
    lemma_high_powers();
    assert(0xdd_5e8d * 0x1 - 0xd5_5e8d * 0x1 == 0x8_0000);
    lemma_sum_known(0x3edd_5e8d, 0x3ed5_5e8d, true, 0xdd_5e8d, 124, 0xd5_5e8d, 124, 0x1, 0x1, 0x8_0000, 20, 0x8_0000, 0x10);
    assert(sub_spec(0x3edd_5e8d, 0x3ed5_5e8d) == 0x3c80_0000);
    assert(0xd7_53dc * 0x1 - 0xd5_5e8d * 0x1 == 0x1_f54f);
    lemma_sum_known(0x3ed7_53dc, 0x3ed5_5e8d, true, 0xd7_53dc, 124, 0xd5_5e8d, 124, 0x1, 0x1, 0x1_f54f, 17, 0x1_0000, 0x80);
    assert(sub_spec(0x3ed7_53dc, 0x3ed5_5e8d) == 0x3b7a_a780);
    assert(0xb0_2e35 * 0x1 - 0xad_4b13 * 0x1 == 0x2_e322);
    lemma_sum_known(0x4330_2e35, 0x432d_4b13, true, 0xb0_2e35, 133, 0xad_4b13, 133, 0x1, 0x1, 0x2_e322, 18, 0x2_0000, 0x40);
    assert(sub_spec(0x4330_2e35, 0x432d_4b13) == 0x4038_c880);
    assert(0xb8_c880 * 0xfa_a780 == 0xb4ec_b42f_c000);
    lemma_product_known(0x4038_c880, 0x3b7a_a780, 0xb8_c880, 127, 0xfa_a780, 117, 0xb4ec_b42f_c000, 48, 0x8000_0000_0000, 0x100_0000);
    assert(mul_spec(0x4038_c880, 0x3b7a_a780) == 0x3c34_ecb4);
    assert(0xb4_ecb4 * 0x1_0000_0000_0000_0000 == 0x1_69d9_6800_0000_0000 * 0x80_0000 + 0x0);
    lemma_quotient_known(0x3c34_ecb4, 0x3c80_0000, 0xb4_ecb4, 119, 0x80_0000, 120, 0x1_69d9_6800_0000_0000, 0x0, 66, 0x2_0000_0000_0000_0000, 0x400_0000_0000);
    assert(div_spec(0x3c34_ecb4, 0x3c80_0000) == 0x3f34_ecb4);
    assert(0xad_4b13 * 0x100 + 0xb4_ecb4 * 0x1 == 0xadff_ffb4);
    lemma_sum_known(0x432d_4b13, 0x3f34_ecb4, false, 0xad_4b13, 133, 0xb4_ecb4, 125, 0x100, 0x1, 0xadff_ffb4, 32, 0x8000_0000, 0x100);
    assert(add_spec(0x432d_4b13, 0x3f34_ecb4) == 0x432e_0000);
    lemma_whole_known(0x432e_0000, 0xae_0000, 133, 0x1_0000);
}

/// The edge of code 173.
proof fn lemma_near_173()
    ensures
        near_exact_edge(0x3ed7_53db, 173),
{
    lemma2_to64();
    lemma2_to64_rest();
    lemma_fifth_powers_of_two();
    lemma_more_fifth_powers_of_two();
    assert(187525nat * 187525 * 187525 == 0x17_6d9a_4cce_59fd);
    assert(269025nat * 269025 * 269025 == 0x45_2c59_9066_9ca1);
    assert(0x17_6d9a_4cce_59fdnat * 0x17_6d9a_4cce_59fd == 0x224_e0a6_8f7c_6366_e227_2acd_e409nat);
    assert(0x224_e0a6_8f7c_6366_e227_2acd_e409nat * 0x224_e0a6_8f7c_6366_e227_2acd_e409nat == 0x4_98d2_8e3a_3401_a429_605e_7a17_aca2_41fd_7eba_45af_9327_f58a_0851nat);
    assert(0x45_2c59_9066_9ca1nat * 0x45_2c59_9066_9ca1 == 0x12b0_eff6_c049_6d6d_d948_5020_9d41nat);
    assert(0x12b0_eff6_c049_6d6d_d948_5020_9d41nat * 0x12b0_eff6_c049_6d6d_d948_5020_9d41nat == 0x15d_5c09_8741_6139_2178_92b9_bce5_5f46_89a2_dd05_b95f_0d00_50d8_ca81nat);
    assert(0x434_8147nat * 0x434_8147 == 0x11_aece_fe20_a1b1);
    assert(0x11_aece_fe20_a1b1nat * 0x11_aece_fe20_a1b1 == 0x138_aedb_c927_ce17_99e0_0e60_1c61nat);
    assert(0x138_aedb_c927_ce17_99e0_0e60_1c61nat * 0x434_8147 == 0x5_22dc_da9e_baa0_1416_ced2_0059_b2a8_bfe7nat);
    assert(0x434_c547nat * 0x434_c547 == 0x11_b10a_f4de_59b1);
    assert(0x11_b10a_f4de_59b1nat * 0x11_b10a_f4de_59b1 == 0x138_fde4_ac9b_6d20_5fed_1668_8c61nat);
    assert(0x138_fde4_ac9b_6d20_5fed_1668_8c61nat * 0x434_c547 == 0x5_247c_5754_e086_2628_5e4e_3c6d_b2b9_93e7nat);
    assert(0x5_22dc_da9e_baa0_1416_ced2_0059_b2a8_bfe7nat * 0x15d_5c09_8741_6139_2178_92b9_bce5_5f46_89a2_dd05_b95f_0d00_50d8_ca81nat == 0x702_5fce_596b_6b99_ce95_3c07_6eda_1897_73ab_9752_b7f3_3610_2d5d_61de_4bc1_91e8_45f2_37de_f714_2986_495c_f967nat);
    assert(0x5_247c_5754_e086_2628_5e4e_3c6d_b2b9_93e7nat * 0x15d_5c09_8741_6139_2178_92b9_bce5_5f46_89a2_dd05_b95f_0d00_50d8_ca81nat == 0x704_96d0_be05_7326_f750_d934_901e_1d09_a0d0_2c62_22a5_1fff_2974_7043_dc70_62b8_62a8_68fc_c3bf_881a_791f_cd67nat);
    assert(0xc35nat * 0x2000_0000_0000_0000_0000_0000_0000_0000nat == 0x186_a000_0000_0000_0000_0000_0000_0000_0000nat);
    assert(0x4_98d2_8e3a_3401_a429_605e_7a17_aca2_41fd_7eba_45af_9327_f58a_0851nat * 0x186_a000_0000_0000_0000_0000_0000_0000_0000nat == 0x703_b048_458f_9b01_1da2_ac29_0c5f_cb15_f16d_7efa_9507_ead9_09be_f098_a000_0000_0000_0000_0000_0000_0000_0000nat);
    lemma_near_above(
        0x3ed7_53db, 0xd7_53db, 124, 0x200, 0x186_a000_0000_0000_0000_0000_0000_0000_0000nat, 173,
        187525, 0x17_6d9a_4cce_59fd,
        0x224_e0a6_8f7c_6366_e227_2acd_e409nat,
        0x45_2c59_9066_9ca1, 0x12b0_eff6_c049_6d6d_d948_5020_9d41nat,
        0x434_8147, 0x11_aece_fe20_a1b1, 0x138_aedb_c927_ce17_99e0_0e60_1c61nat,
        0x434_c547, 0x11_b10a_f4de_59b1, 0x138_fde4_ac9b_6d20_5fed_1668_8c61nat,
    );
}

/// The value 0x3eda_192f.
proof fn lemma_at_3eda192f()
    ensures
        chord_code(0x3eda_192f, 0x3ed5_5e8d, 0x3edd_5e8d, 0x432d_4b13, 0x4330_2e35) == 174,
{
    reveal(chord_code);
    lemma2_to64();
    lemma2_to64_rest();
    lemma_high_powers();
    assert(0xdd_5e8d * 0x1 - 0xd5_5e8d * 0x1 == 0x8_0000);
    lemma_sum_known(0x3edd_5e8d, 0x3ed5_5e8d, true, 0xdd_5e8d, 124, 0xd5_5e8d, 124, 0x1, 0x1, 0x8_0000, 20, 0x8_0000, 0x10);
    assert(sub_spec(0x3edd_5e8d, 0x3ed5_5e8d) == 0x3c80_0000);
    assert(0xda_192f * 0x1 - 0xd5_5e8d * 0x1 == 0x4_baa2);
    lemma_sum_known(0x3eda_192f, 0x3ed5_5e8d, true, 0xda_192f, 124, 0xd5_5e8d, 124, 0x1, 0x1, 0x4_baa2, 19, 0x4_0000, 0x20);
    assert(sub_spec(0x3eda_192f, 0x3ed5_5e8d) == 0x3c17_5440);
    assert(0xb0_2e35 * 0x1 - 0xad_4b13 * 0x1 == 0x2_e322);
    lemma_sum_known(0x4330_2e35, 0x432d_4b13, true, 0xb0_2e35, 133, 0xad_4b13, 133, 0x1, 0x1, 0x2_e322, 18, 0x2_0000, 0x40);
    assert(sub_spec(0x4330_2e35, 0x432d_4b13) == 0x4038_c880);
    assert(0xb8_c880 * 0x97_5440 == 0x6d3b_137c_2000);
    lemma_product_known(0x4038_c880, 0x3c17_5440, 0xb8_c880, 127, 0x97_5440, 119, 0x6d3b_137c_2000, 47, 0x4000_0000_0000, 0x80_0000);
    assert(mul_spec(0x4038_c880, 0x3c17_5440) == 0x3cda_7627);
    assert(0xda_7627 * 0x1_0000_0000_0000_0000 == 0x1_b4ec_4e00_0000_0000 * 0x80_0000 + 0x0);
    lemma_quotient_known(0x3cda_7627, 0x3c80_0000, 0xda_7627, 120, 0x80_0000, 120, 0x1_b4ec_4e00_0000_0000, 0x0, 66, 0x2_0000_0000_0000_0000, 0x400_0000_0000);
    assert(div_spec(0x3cda_7627, 0x3c80_0000) == 0x3fda_7627);
    assert(0xad_4b13 * 0x80 + 0xda_7627 * 0x1 == 0x577f_ffa7);
    lemma_sum_known(0x432d_4b13, 0x3fda_7627, false, 0xad_4b13, 133, 0xda_7627, 126, 0x80, 0x1, 0x577f_ffa7, 31, 0x4000_0000, 0x80);
    assert(add_spec(0x432d_4b13, 0x3fda_7627) == 0x432e_ffff);
    lemma_whole_known(0x432e_ffff, 0xae_ffff, 133, 0x1_0000);
}

/// The value 0x3eda_1930.
proof fn lemma_at_3eda1930()
    ensures
        chord_code(0x3eda_1930, 0x3ed5_5e8d, 0x3edd_5e8d, 0x432d_4b13, 0x4330_2e35) == 175,
{
    reveal(chord_code);
    lemma2_to64();
    lemma2_to64_rest();
    lemma_high_powers();
    assert(0xdd_5e8d * 0x1 - 0xd5_5e8d * 0x1 == 0x8_0000);
    lemma_sum_known(0x3edd_5e8d, 0x3ed5_5e8d, true, 0xdd_5e8d, 124, 0xd5_5e8d, 124, 0x1, 0x1, 0x8_0000, 20, 0x8_0000, 0x10);
    assert(sub_spec(0x3edd_5e8d, 0x3ed5_5e8d) == 0x3c80_0000);
    assert(0xda_1930 * 0x1 - 0xd5_5e8d * 0x1 == 0x4_baa3);
    lemma_sum_known(0x3eda_1930, 0x3ed5_5e8d, true, 0xda_1930, 124, 0xd5_5e8d, 124, 0x1, 0x1, 0x4_baa3, 19, 0x4_0000, 0x20);
    assert(sub_spec(0x3eda_1930, 0x3ed5_5e8d) == 0x3c17_5460);
    assert(0xb0_2e35 * 0x1 - 0xad_4b13 * 0x1 == 0x2_e322);
    lemma_sum_known(0x4330_2e35, 0x432d_4b13, true, 0xb0_2e35, 133, 0xad_4b13, 133, 0x1, 0x1, 0x2_e322, 18, 0x2_0000, 0x40);
    assert(sub_spec(0x4330_2e35, 0x432d_4b13) == 0x4038_c880);
    assert(0xb8_c880 * 0x97_5460 == 0x6d3b_2a95_3000);
    lemma_product_known(0x4038_c880, 0x3c17_5460, 0xb8_c880, 127, 0x97_5460, 119, 0x6d3b_2a95_3000, 47, 0x4000_0000_0000, 0x80_0000);
    assert(mul_spec(0x4038_c880, 0x3c17_5460) == 0x3cda_7655);
    assert(0xda_7655 * 0x1_0000_0000_0000_0000 == 0x1_b4ec_aa00_0000_0000 * 0x80_0000 + 0x0);
    lemma_quotient_known(0x3cda_7655, 0x3c80_0000, 0xda_7655, 120, 0x80_0000, 120, 0x1_b4ec_aa00_0000_0000, 0x0, 66, 0x2_0000_0000_0000_0000, 0x400_0000_0000);
    assert(div_spec(0x3cda_7655, 0x3c80_0000) == 0x3fda_7655);
    assert(0xad_4b13 * 0x80 + 0xda_7655 * 0x1 == 0x577f_ffd5);
    lemma_sum_known(0x432d_4b13, 0x3fda_7655, false, 0xad_4b13, 133, 0xda_7655, 126, 0x80, 0x1, 0x577f_ffd5, 31, 0x4000_0000, 0x80);
    assert(add_spec(0x432d_4b13, 0x3fda_7655) == 0x432f_0000);
    lemma_whole_known(0x432f_0000, 0xaf_0000, 133, 0x1_0000);
}

/// The edge of code 174.
proof fn lemma_near_174()
    ensures
        near_exact_edge(0x3eda_192f, 174),
{
    lemma2_to64();
    lemma2_to64_rest();
    lemma_fifth_powers_of_two();
    lemma_more_fifth_powers_of_two();
    assert(188525nat * 188525 * 188525 == 0x17_ce10_6c5d_62b5);
    assert(269025nat * 269025 * 269025 == 0x45_2c59_9066_9ca1);
    assert(0x17_ce10_6c5d_62b5nat * 0x17_ce10_6c5d_62b5 == 0x236_acd1_e83b_c0ec_8ff9_9591_13f9nat);
    assert(0x236_acd1_e83b_c0ec_8ff9_9591_13f9nat * 0x236_acd1_e83b_c0ec_8ff9_9591_13f9nat == 0x4_e660_a4d9_a466_6587_e2fb_1767_e977_3f22_aea4_b303_3bd9_7ba0_e831nat);
    assert(0x45_2c59_9066_9ca1nat * 0x45_2c59_9066_9ca1 == 0x12b0_eff6_c049_6d6d_d948_5020_9d41nat);
    assert(0x12b0_eff6_c049_6d6d_d948_5020_9d41nat * 0x12b0_eff6_c049_6d6d_d948_5020_9d41nat == 0x15d_5c09_8741_6139_2178_92b9_bce5_5f46_89a2_dd05_b95f_0d00_50d8_ca81nat);
    assert(0x442_5bebnat * 0x442_5beb == 0x12_2412_de2c_e9b9);
    assert(0x12_2412_de2c_e9b9nat * 0x12_2412_de2c_e9b9 == 0x149_17bc_8e31_7ee2_d342_08fa_47b1nat);
    assert(0x149_17bc_8e31_7ee2_d342_08fa_47b1nat * 0x442_5beb == 0x5_79ad_3a5e_3f60_6151_9a7a_a074_74dd_ba7bnat);
    assert(0x442_9febnat * 0x442_9feb == 0x12_2656_3111_c1b9);
    assert(0x12_2656_3111_c1b9nat * 0x12_2656_3111_c1b9 == 0x149_69dc_9a15_84dc_e1b0_1f2a_77b1nat);
    assert(0x149_69dc_9a15_84dc_e1b0_1f2a_77b1nat * 0x442_9feb == 0x5_7b62_846c_40d4_83bf_16d4_42d9_9bf4_ce7bnat);
    assert(0x5_79ad_3a5e_3f60_6151_9a7a_a074_74dd_ba7bnat * 0x15d_5c09_8741_6139_2178_92b9_bce5_5f46_89a2_dd05_b95f_0d00_50d8_ca81nat == 0x778_d916_ff1d_a592_80e9_7970_e456_7348_db96_2267_613d_cb9b_f7eb_2f4a_cc8a_6071_0e74_6f00_ba4b_e341_a0a8_05fbnat);
    assert(0x5_7b62_846c_40d4_83bf_16d4_42d9_9bf4_ce7bnat * 0x15d_5c09_8741_6139_2178_92b9_bce5_5f46_89a2_dd05_b95f_0d00_50d8_ca81nat == 0x77b_2dda_2b19_4da4_7c99_22fd_d248_9d41_d3d9_b87f_a4f0_f23e_0b55_9e69_3671_cb5a_f220_d0ac_572e_bacb_6911_19fbnat);
    assert(0xc35nat * 0x2000_0000_0000_0000_0000_0000_0000_0000nat == 0x186_a000_0000_0000_0000_0000_0000_0000_0000nat);
    assert(0x4_e660_a4d9_a466_6587_e2fb_1767_e977_3f22_aea4_b303_3bd9_7ba0_e831nat * 0x186_a000_0000_0000_0000_0000_0000_0000_0000nat == 0x77a_0737_8a98_7abe_ac78_b862_96ee_9d94_b64b_bc0f_a6cf_32ba_4466_4bc4_a000_0000_0000_0000_0000_0000_0000_0000nat);
    lemma_near_above(
        0x3eda_192f, 0xda_192f, 124, 0x200, 0x186_a000_0000_0000_0000_0000_0000_0000_0000nat, 174,
        188525, 0x17_ce10_6c5d_62b5,
        0x236_acd1_e83b_c0ec_8ff9_9591_13f9nat,
        0x45_2c59_9066_9ca1, 0x12b0_eff6_c049_6d6d_d948_5020_9d41nat,
        0x442_5beb, 0x12_2412_de2c_e9b9, 0x149_17bc_8e31_7ee2_d342_08fa_47b1nat,
        0x442_9feb, 0x12_2656_3111_c1b9, 0x149_69dc_9a15_84dc_e1b0_1f2a_77b1nat,
    );
}

/// The value 0x3edc_de83.
proof fn lemma_at_3edcde83()
    ensures
        chord_code(0x3edc_de83, 0x3ed5_5e8d, 0x3edd_5e8d, 0x432d_4b13, 0x4330_2e35) == 175,
{
    reveal(chord_code);
    lemma2_to64();
    lemma2_to64_rest();
    lemma_high_powers();
    assert(0xdd_5e8d * 0x1 - 0xd5_5e8d * 0x1 == 0x8_0000);
    lemma_sum_known(0x3edd_5e8d, 0x3ed5_5e8d, true, 0xdd_5e8d, 124, 0xd5_5e8d, 124, 0x1, 0x1, 0x8_0000, 20, 0x8_0000, 0x10);
    assert(sub_spec(0x3edd_5e8d, 0x3ed5_5e8d) == 0x3c80_0000);
    assert(0xdc_de83 * 0x1 - 0xd5_5e8d * 0x1 == 0x7_7ff6);
    lemma_sum_known(0x3edc_de83, 0x3ed5_5e8d, true, 0xdc_de83, 124, 0xd5_5e8d, 124, 0x1, 0x1, 0x7_7ff6, 19, 0x4_0000, 0x20);
    assert(sub_spec(0x3edc_de83, 0x3ed5_5e8d) == 0x3c6f_fec0);
    assert(0xb0_2e35 * 0x1 - 0xad_4b13 * 0x1 == 0x2_e322);
    lemma_sum_known(0x4330_2e35, 0x432d_4b13, true, 0xb0_2e35, 133, 0xad_4b13, 133, 0x1, 0x1, 0x2_e322, 18, 0x2_0000, 0x40);
    assert(sub_spec(0x4330_2e35, 0x432d_4b13) == 0x4038_c880);
    assert(0xb8_c880 * 0xef_fec0 == 0xad3b_1105_6000);
    lemma_product_known(0x4038_c880, 0x3c6f_fec0, 0xb8_c880, 127, 0xef_fec0, 119, 0xad3b_1105_6000, 48, 0x8000_0000_0000, 0x100_0000);
    assert(mul_spec(0x4038_c880, 0x3c6f_fec0) == 0x3d2d_3b11);
    assert(0xad_3b11 * 0x1_0000_0000_0000_0000 == 0x1_5a76_2200_0000_0000 * 0x80_0000 + 0x0);
    lemma_quotient_known(0x3d2d_3b11, 0x3c80_0000, 0xad_3b11, 121, 0x80_0000, 120, 0x1_5a76_2200_0000_0000, 0x0, 66, 0x2_0000_0000_0000_0000, 0x400_0000_0000);
    assert(div_spec(0x3d2d_3b11, 0x3c80_0000) == 0x402d_3b11);
    assert(0xad_4b13 * 0x40 + 0xad_3b11 * 0x1 == 0x2bff_ffd1);
    lemma_sum_known(0x432d_4b13, 0x402d_3b11, false, 0xad_4b13, 133, 0xad_3b11, 127, 0x40, 0x1, 0x2bff_ffd1, 30, 0x2000_0000, 0x40);
    assert(add_spec(0x432d_4b13, 0x402d_3b11) == 0x432f_ffff);
    lemma_whole_known(0x432f_ffff, 0xaf_ffff, 133, 0x1_0000);
}

/// The value 0x3edc_de84.
proof fn lemma_at_3edcde84()
    ensures
        chord_code(0x3edc_de84, 0x3ed5_5e8d, 0x3edd_5e8d, 0x432d_4b13, 0x4330_2e35) == 176,
{
    reveal(chord_code);
    lemma2_to64();
    lemma2_to64_rest();
    lemma_high_powers();
    assert(0xdd_5e8d * 0x1 - 0xd5_5e8d * 0x1 == 0x8_0000);
    lemma_sum_known(0x3edd_5e8d, 0x3ed5_5e8d, true, 0xdd_5e8d, 124, 0xd5_5e8d, 124, 0x1, 0x1, 0x8_0000, 20, 0x8_0000, 0x10);
    assert(sub_spec(0x3edd_5e8d, 0x3ed5_5e8d) == 0x3c80_0000);
    assert(0xdc_de84 * 0x1 - 0xd5_5e8d * 0x1 == 0x7_7ff7);
    lemma_sum_known(0x3edc_de84, 0x3ed5_5e8d, true, 0xdc_de84, 124, 0xd5_5e8d, 124, 0x1, 0x1, 0x7_7ff7, 19, 0x4_0000, 0x20);
    assert(sub_spec(0x3edc_de84, 0x3ed5_5e8d) == 0x3c6f_fee0);
    assert(0xb0_2e35 * 0x1 - 0xad_4b13 * 0x1 == 0x2_e322);
    lemma_sum_known(0x4330_2e35, 0x432d_4b13, true, 0xb0_2e35, 133, 0xad_4b13, 133, 0x1, 0x1, 0x2_e322, 18, 0x2_0000, 0x40);
    assert(sub_spec(0x4330_2e35, 0x432d_4b13) == 0x4038_c880);
    assert(0xb8_c880 * 0xef_fee0 == 0xad3b_281e_7000);
    lemma_product_known(0x4038_c880, 0x3c6f_fee0, 0xb8_c880, 127, 0xef_fee0, 119, 0xad3b_281e_7000, 48, 0x8000_0000_0000, 0x100_0000);
    assert(mul_spec(0x4038_c880, 0x3c6f_fee0) == 0x3d2d_3b28);
    assert(0xad_3b28 * 0x1_0000_0000_0000_0000 == 0x1_5a76_5000_0000_0000 * 0x80_0000 + 0x0);
    lemma_quotient_known(0x3d2d_3b28, 0x3c80_0000, 0xad_3b28, 121, 0x80_0000, 120, 0x1_5a76_5000_0000_0000, 0x0, 66, 0x2_0000_0000_0000_0000, 0x400_0000_0000);
    assert(div_spec(0x3d2d_3b28, 0x3c80_0000) == 0x402d_3b28);
    assert(0xad_4b13 * 0x40 + 0xad_3b28 * 0x1 == 0x2bff_ffe8);
    lemma_sum_known(0x432d_4b13, 0x402d_3b28, false, 0xad_4b13, 133, 0xad_3b28, 127, 0x40, 0x1, 0x2bff_ffe8, 30, 0x2000_0000, 0x40);
    assert(add_spec(0x432d_4b13, 0x402d_3b28) == 0x4330_0000);
    lemma_whole_known(0x4330_0000, 0xb0_0000, 133, 0x1_0000);
}

/// The edge of code 175.
proof fn lemma_near_175()
    ensures
        near_exact_edge(0x3edc_de83, 175),
{
    lemma2_to64();
    lemma2_to64_rest();
    lemma_fifth_powers_of_two();
    lemma_more_fifth_powers_of_two();
    assert(189525nat * 189525 * 189525 == 0x18_2f8d_e9b7_aaed);
    assert(269025nat * 269025 * 269025 == 0x45_2c59_9066_9ca1);
    assert(0x18_2f8d_e9b7_aaednat * 0x18_2f8d_e9b7_aaed == 0x248_f371_3cec_c6e5_27fb_3af5_9f69nat);
    assert(0x248_f371_3cec_c6e5_27fb_3af5_9f69nat * 0x248_f371_3cec_c6e5_27fb_3af5_9f69nat == 0x5_3897_9c26_240b_cea4_e2ab_fa26_6a59_1533_1221_1fa6_cdcc_163d_9911nat);
    assert(0x45_2c59_9066_9ca1nat * 0x45_2c59_9066_9ca1 == 0x12b0_eff6_c049_6d6d_d948_5020_9d41nat);
    assert(0x12b0_eff6_c049_6d6d_d948_5020_9d41nat * 0x12b0_eff6_c049_6d6d_d948_5020_9d41nat == 0x15d_5c09_8741_6139_2178_92b9_bce5_5f46_89a2_dd05_b95f_0d00_50d8_ca81nat);
    assert(0x450_368fnat * 0x450_368f == 0x12_9ad6_9d00_a3e1);
    assert(0x12_9ad6_9d00_a3e1nat * 0x12_9ad6_9d00_a3e1 == 0x15a_23d4_fce6_ae2a_792e_62e8_4bc1nat);
    assert(0x15a_23d4_fce6_ae2a_792e_62e8_4bc1nat * 0x450_368f == 0x5_d504_4b6b_9421_04c2_d754_038c_f00d_06cfnat);
    assert(0x450_7a8fnat * 0x450_7a8f == 0x12_9d21_4c0c_9be1);
    assert(0x12_9d21_4c0c_9be1nat * 0x12_9d21_4c0c_9be1 == 0x15a_7920_8d62_14ad_a72e_9402_3bc1nat);
    assert(0x15a_7920_8d62_14ad_a72e_9402_3bc1nat * 0x450_7a8f == 0x5_d6d0_3ba4_e388_e485_478a_df2f_6e09_5acfnat);
    assert(0x5_d504_4b6b_9421_04c2_d754_038c_f00d_06cfnat * 0x15d_5c09_8741_6139_2178_92b9_bce5_5f46_89a2_dd05_b95f_0d00_50d8_ca81nat == 0x7f5_7f9f_eebc_d1e8_43aa_1131_f6d8_515b_1314_667b_1ea6_381c_fb92_0c0d_3681_0097_0e29_9012_9d3b_1f8d_ac97_c44fnat);
    assert(0x5_d6d0_3ba4_e388_e485_478a_df2f_6e09_5acfnat * 0x15d_5c09_8741_6139_2178_92b9_bce5_5f46_89a2_dd05_b95f_0d00_50d8_ca81nat == 0x7f7_f34b_c851_1e36_52e5_10f5_0a7d_60a6_a702_b0d7_612c_f330_f1e9_6568_2eb2_3008_c121_8e41_86eb_2aff_2306_184fnat);
    assert(0xc35nat * 0x2000_0000_0000_0000_0000_0000_0000_0000nat == 0x186_a000_0000_0000_0000_0000_0000_0000_0000nat);
    assert(0x5_3897_9c26_240b_cea4_e2ab_fa26_6a59_1533_1221_1fa6_cdcc_163d_9911nat * 0x186_a000_0000_0000_0000_0000_0000_0000_0000nat == 0x7f7_7a56_a3b2_c084_3058_5faa_92de_062d_f90d_89ca_ebe5_c589_6fbd_af90_a000_0000_0000_0000_0000_0000_0000_0000nat);
    lemma_near_above(
        0x3edc_de83, 0xdc_de83, 124, 0x200, 0x186_a000_0000_0000_0000_0000_0000_0000_0000nat, 175,
        189525, 0x18_2f8d_e9b7_aaed,
        0x248_f371_3cec_c6e5_27fb_3af5_9f69nat,
        0x45_2c59_9066_9ca1, 0x12b0_eff6_c049_6d6d_d948_5020_9d41nat,
        0x450_368f, 0x12_9ad6_9d00_a3e1, 0x15a_23d4_fce6_ae2a_792e_62e8_4bc1nat,
        0x450_7a8f, 0x12_9d21_4c0c_9be1, 0x15a_7920_8d62_14ad_a72e_9402_3bc1nat,
    );
}

/// The value 0x3edf_b05a.
proof fn lemma_at_3edfb05a()
    ensures
        chord_code(0x3edf_b05a, 0x3edd_5e8d, 0x3ee5_5e8d, 0x4330_2e35, 0x4333_01c5) == 176,
{
    reveal(chord_code);
    lemma2_to64();
    lemma2_to64_rest();
    lemma_high_powers();
    assert(0xe5_5e8d * 0x1 - 0xdd_5e8d * 0x1 == 0x8_0000);
    lemma_sum_known(0x3ee5_5e8d, 0x3edd_5e8d, true, 0xe5_5e8d, 124, 0xdd_5e8d, 124, 0x1, 0x1, 0x8_0000, 20, 0x8_0000, 0x10);
    assert(sub_spec(0x3ee5_5e8d, 0x3edd_5e8d) == 0x3c80_0000);
    assert(0xdf_b05a * 0x1 - 0xdd_5e8d * 0x1 == 0x2_51cd);
    lemma_sum_known(0x3edf_b05a, 0x3edd_5e8d, true, 0xdf_b05a, 124, 0xdd_5e8d, 124, 0x1, 0x1, 0x2_51cd, 18, 0x2_0000, 0x40);
    assert(sub_spec(0x3edf_b05a, 0x3edd_5e8d) == 0x3b94_7340);
    assert(0xb3_01c5 * 0x1 - 0xb0_2e35 * 0x1 == 0x2_d390);
    lemma_sum_known(0x4333_01c5, 0x4330_2e35, true, 0xb3_01c5, 133, 0xb0_2e35, 133, 0x1, 0x1, 0x2_d390, 18, 0x2_0000, 0x40);
    assert(sub_spec(0x4333_01c5, 0x4330_2e35) == 0x4034_e400);
    assert(0xb4_e400 * 0x94_7340 == 0x68e5_3fa5_0000);
    lemma_product_known(0x4034_e400, 0x3b94_7340, 0xb4_e400, 127, 0x94_7340, 118, 0x68e5_3fa5_0000, 47, 0x4000_0000_0000, 0x80_0000);
    assert(mul_spec(0x4034_e400, 0x3b94_7340) == 0x3c51_ca7f);
    assert(0xd1_ca7f * 0x1_0000_0000_0000_0000 == 0x1_a394_fe00_0000_0000 * 0x80_0000 + 0x0);
    lemma_quotient_known(0x3c51_ca7f, 0x3c80_0000, 0xd1_ca7f, 119, 0x80_0000, 120, 0x1_a394_fe00_0000_0000, 0x0, 66, 0x2_0000_0000_0000_0000, 0x400_0000_0000);
    assert(div_spec(0x3c51_ca7f, 0x3c80_0000) == 0x3f51_ca7f);
    assert(0xb0_2e35 * 0x100 + 0xd1_ca7f * 0x1 == 0xb0ff_ff7f);
    lemma_sum_known(0x4330_2e35, 0x3f51_ca7f, false, 0xb0_2e35, 133, 0xd1_ca7f, 125, 0x100, 0x1, 0xb0ff_ff7f, 32, 0x8000_0000, 0x100);
    assert(add_spec(0x4330_2e35, 0x3f51_ca7f) == 0x4330_ffff);
    lemma_whole_known(0x4330_ffff, 0xb0_ffff, 133, 0x1_0000);
}

/// The value 0x3edf_b05b.
proof fn lemma_at_3edfb05b()
    ensures
        chord_code(0x3edf_b05b, 0x3edd_5e8d, 0x3ee5_5e8d, 0x4330_2e35, 0x4333_01c5) == 177,
{
    reveal(chord_code);
    lemma2_to64();
    lemma2_to64_rest();
    lemma_high_powers();
    assert(0xe5_5e8d * 0x1 - 0xdd_5e8d * 0x1 == 0x8_0000);
    lemma_sum_known(0x3ee5_5e8d, 0x3edd_5e8d, true, 0xe5_5e8d, 124, 0xdd_5e8d, 124, 0x1, 0x1, 0x8_0000, 20, 0x8_0000, 0x10);
    assert(sub_spec(0x3ee5_5e8d, 0x3edd_5e8d) == 0x3c80_0000);
    assert(0xdf_b05b * 0x1 - 0xdd_5e8d * 0x1 == 0x2_51ce);
    lemma_sum_known(0x3edf_b05b, 0x3edd_5e8d, true, 0xdf_b05b, 124, 0xdd_5e8d, 124, 0x1, 0x1, 0x2_51ce, 18, 0x2_0000, 0x40);
    assert(sub_spec(0x3edf_b05b, 0x3edd_5e8d) == 0x3b94_7380);
    assert(0xb3_01c5 * 0x1 - 0xb0_2e35 * 0x1 == 0x2_d390);
    lemma_sum_known(0x4333_01c5, 0x4330_2e35, true, 0xb3_01c5, 133, 0xb0_2e35, 133, 0x1, 0x1, 0x2_d390, 18, 0x2_0000, 0x40);
    assert(sub_spec(0x4333_01c5, 0x4330_2e35) == 0x4034_e400);
    assert(0xb4_e400 * 0x94_7380 == 0x68e5_6cde_0000);
    lemma_product_known(0x4034_e400, 0x3b94_7380, 0xb4_e400, 127, 0x94_7380, 118, 0x68e5_6cde_0000, 47, 0x4000_0000_0000, 0x80_0000);
    assert(mul_spec(0x4034_e400, 0x3b94_7380) == 0x3c51_cada);
    assert(0xd1_cada * 0x1_0000_0000_0000_0000 == 0x1_a395_b400_0000_0000 * 0x80_0000 + 0x0);
    lemma_quotient_known(0x3c51_cada, 0x3c80_0000, 0xd1_cada, 119, 0x80_0000, 120, 0x1_a395_b400_0000_0000, 0x0, 66, 0x2_0000_0000_0000_0000, 0x400_0000_0000);
    assert(div_spec(0x3c51_cada, 0x3c80_0000) == 0x3f51_cada);
    assert(0xb0_2e35 * 0x100 + 0xd1_cada * 0x1 == 0xb0ff_ffda);
    lemma_sum_known(0x4330_2e35, 0x3f51_cada, false, 0xb0_2e35, 133, 0xd1_cada, 125, 0x100, 0x1, 0xb0ff_ffda, 32, 0x8000_0000, 0x100);
    assert(add_spec(0x4330_2e35, 0x3f51_cada) == 0x4331_0000);
    lemma_whole_known(0x4331_0000, 0xb1_0000, 133, 0x1_0000);
}

/// The edge of code 176.
proof fn lemma_near_176()
    ensures
        near_exact_edge(0x3edf_b05a, 176),
{
    lemma2_to64();
    lemma2_to64_rest();
    lemma_fifth_powers_of_two();
    lemma_more_fifth_powers_of_two();
    assert(190525nat * 190525 * 190525 == 0x18_9214_2a7d_eea5);
    assert(269025nat * 269025 * 269025 == 0x45_2c59_9066_9ca1);
    assert(0x18_9214_2a7d_eea5nat * 0x18_9214_2a7d_eea5 == 0x25b_b722_f9ab_0ddf_0e09_0f99_3659nat);
    assert(0x25b_b722_f9ab_0ddf_0e09_0f99_3659nat * 0x25b_b722_f9ab_0ddf_0e09_0f99_3659nat == 0x5_8fb8_41c7_318d_2b8e_e747_9c86_01e4_f02f_775e_94b8_de52_6feb_aaf1nat);
    assert(0x45_2c59_9066_9ca1nat * 0x45_2c59_9066_9ca1 == 0x12b0_eff6_c049_6d6d_d948_5020_9d41nat);
    assert(0x12b0_eff6_c049_6d6d_d948_5020_9d41nat * 0x12b0_eff6_c049_6d6d_d948_5020_9d41nat == 0x15d_5c09_8741_6139_2178_92b9_bce5_5f46_89a2_dd05_b95f_0d00_50d8_ca81nat);
    assert(0x45e_4fc2nat * 0x45e_4fc2 == 0x13_153c_bb51_4f04);
    assert(0x13_153c_bb51_4f04nat * 0x13_153c_bb51_4f04 == 0x16c_28c6_d335_68bb_9522_f0eb_7810nat);
    assert(0x16c_28c6_d335_68bb_9522_f0eb_7810nat * 0x45e_4fc2 == 0x6_36cb_88da_a518_ed00_8fc4_f129_925d_ec20nat);
    assert(0x45e_93c2nat * 0x45e_93c2 == 0x13_178e_e7c0_5f04);
    assert(0x13_178e_e7c0_5f04nat * 0x13_178e_e7c0_5f04 == 0x16c_8161_63f8_96e0_dc77_e143_f810nat);
    assert(0x16c_8161_63f8_96e0_dc77_e143_f810nat * 0x45e_93c2 == 0x6_38af_69d7_8fd8_6b08_4889_b008_12d3_2c20nat);
    assert(0x6_36cb_88da_a518_ed00_8fc4_f129_925d_ec20nat * 0x15d_5c09_8741_6139_2178_92b9_bce5_5f46_89a2_dd05_b95f_0d00_50d8_ca81nat == 0x87a_ef65_ece5_10ff_0b8e_6587_e04a_4be6_2045_d2e3_534e_a081_e8b8_c8cf_e95e_33ec_0858_41ce_d636_cc7a_18a5_3c20nat);
    assert(0x6_38af_69d7_8fd8_6b08_4889_b008_12d3_2c20nat * 0x15d_5c09_8741_6139_2178_92b9_bce5_5f46_89a2_dd05_b95f_0d00_50d8_ca81nat == 0x87d_83bd_9c8e_8c88_325a_45ab_951f_5780_84e8_ecc4_a301_4514_e6c7_4da5_d13f_8992_042c_306d_7817_92e3_583a_7c20nat);
    assert(0xc35nat * 0x2000_0000_0000_0000_0000_0000_0000_0000nat == 0x186_a000_0000_0000_0000_0000_0000_0000_0000nat);
    assert(0x5_8fb8_41c7_318d_2b8e_e747_9c86_01e4_f02f_775e_94b8_de52_6feb_aaf1nat * 0x186_a000_0000_0000_0000_0000_0000_0000_0000nat == 0x87c_6c87_5e91_fc08_96ed_a7a5_35fa_a3f4_fe6d_84b1_ae96_3c8a_06f9_b5fc_a000_0000_0000_0000_0000_0000_0000_0000nat);
    lemma_near_above(
        0x3edf_b05a, 0xdf_b05a, 124, 0x200, 0x186_a000_0000_0000_0000_0000_0000_0000_0000nat, 176,
        190525, 0x18_9214_2a7d_eea5,
        0x25b_b722_f9ab_0ddf_0e09_0f99_3659nat,
        0x45_2c59_9066_9ca1, 0x12b0_eff6_c049_6d6d_d948_5020_9d41nat,
        0x45e_4fc2, 0x13_153c_bb51_4f04, 0x16c_28c6_d335_68bb_9522_f0eb_7810nat,
        0x45e_93c2, 0x13_178e_e7c0_5f04, 0x16c_8161_63f8_96e0_dc77_e143_f810nat,
    );
}

/// The value 0x3ee2_84f1.
proof fn lemma_at_3ee284f1()
    ensures
        chord_code(0x3ee2_84f1, 0x3edd_5e8d, 0x3ee5_5e8d, 0x4330_2e35, 0x4333_01c5) == 177,
{
    reveal(chord_code);
    lemma2_to64();
    lemma2_to64_rest();
    lemma_high_powers();
    assert(0xe5_5e8d * 0x1 - 0xdd_5e8d * 0x1 == 0x8_0000);
    lemma_sum_known(0x3ee5_5e8d, 0x3edd_5e8d, true, 0xe5_5e8d, 124, 0xdd_5e8d, 124, 0x1, 0x1, 0x8_0000, 20, 0x8_0000, 0x10);
    assert(sub_spec(0x3ee5_5e8d, 0x3edd_5e8d) == 0x3c80_0000);
    assert(0xe2_84f1 * 0x1 - 0xdd_5e8d * 0x1 == 0x5_2664);
    lemma_sum_known(0x3ee2_84f1, 0x3edd_5e8d, true, 0xe2_84f1, 124, 0xdd_5e8d, 124, 0x1, 0x1, 0x5_2664, 19, 0x4_0000, 0x20);
    assert(sub_spec(0x3ee2_84f1, 0x3edd_5e8d) == 0x3c24_cc80);
    assert(0xb3_01c5 * 0x1 - 0xb0_2e35 * 0x1 == 0x2_d390);
    lemma_sum_known(0x4333_01c5, 0x4330_2e35, true, 0xb3_01c5, 133, 0xb0_2e35, 133, 0x1, 0x1, 0x2_d390, 18, 0x2_0000, 0x40);
    assert(sub_spec(0x4333_01c5, 0x4330_2e35) == 0x4034_e400);
    assert(0xb4_e400 * 0xa4_cc80 == 0x7472_9022_0000);
    lemma_product_known(0x4034_e400, 0x3c24_cc80, 0xb4_e400, 127, 0xa4_cc80, 119, 0x7472_9022_0000, 47, 0x4000_0000_0000, 0x80_0000);
    assert(mul_spec(0x4034_e400, 0x3c24_cc80) == 0x3ce8_e520);
    assert(0xe8_e520 * 0x1_0000_0000_0000_0000 == 0x1_d1ca_4000_0000_0000 * 0x80_0000 + 0x0);
    lemma_quotient_known(0x3ce8_e520, 0x3c80_0000, 0xe8_e520, 120, 0x80_0000, 120, 0x1_d1ca_4000_0000_0000, 0x0, 66, 0x2_0000_0000_0000_0000, 0x400_0000_0000);
    assert(div_spec(0x3ce8_e520, 0x3c80_0000) == 0x3fe8_e520);
    assert(0xb0_2e35 * 0x80 + 0xe8_e520 * 0x1 == 0x58ff_ffa0);
    lemma_sum_known(0x4330_2e35, 0x3fe8_e520, false, 0xb0_2e35, 133, 0xe8_e520, 126, 0x80, 0x1, 0x58ff_ffa0, 31, 0x4000_0000, 0x80);
    assert(add_spec(0x4330_2e35, 0x3fe8_e520) == 0x4331_ffff);
    lemma_whole_known(0x4331_ffff, 0xb1_ffff, 133, 0x1_0000);
}

/// The value 0x3ee2_84f2.
proof fn lemma_at_3ee284f2()
    ensures
        chord_code(0x3ee2_84f2, 0x3edd_5e8d, 0x3ee5_5e8d, 0x4330_2e35, 0x4333_01c5) == 178,
{
    reveal(chord_code);
    lemma2_to64();
    lemma2_to64_rest();
    lemma_high_powers();
    assert(0xe5_5e8d * 0x1 - 0xdd_5e8d * 0x1 == 0x8_0000);
    lemma_sum_known(0x3ee5_5e8d, 0x3edd_5e8d, true, 0xe5_5e8d, 124, 0xdd_5e8d, 124, 0x1, 0x1, 0x8_0000, 20, 0x8_0000, 0x10);
    assert(sub_spec(0x3ee5_5e8d, 0x3edd_5e8d) == 0x3c80_0000);
    assert(0xe2_84f2 * 0x1 - 0xdd_5e8d * 0x1 == 0x5_2665);
    lemma_sum_known(0x3ee2_84f2, 0x3edd_5e8d, true, 0xe2_84f2, 124, 0xdd_5e8d, 124, 0x1, 0x1, 0x5_2665, 19, 0x4_0000, 0x20);
    assert(sub_spec(0x3ee2_84f2, 0x3edd_5e8d) == 0x3c24_cca0);
    assert(0xb3_01c5 * 0x1 - 0xb0_2e35 * 0x1 == 0x2_d390);
    lemma_sum_known(0x4333_01c5, 0x4330_2e35, true, 0xb3_01c5, 133, 0xb0_2e35, 133, 0x1, 0x1, 0x2_d390, 18, 0x2_0000, 0x40);
    assert(sub_spec(0x4333_01c5, 0x4330_2e35) == 0x4034_e400);
    assert(0xb4_e400 * 0xa4_cca0 == 0x7472_a6be_8000);
    lemma_product_known(0x4034_e400, 0x3c24_cca0, 0xb4_e400, 127, 0xa4_cca0, 119, 0x7472_a6be_8000, 47, 0x4000_0000_0000, 0x80_0000);
    assert(mul_spec(0x4034_e400, 0x3c24_cca0) == 0x3ce8_e54d);
    assert(0xe8_e54d * 0x1_0000_0000_0000_0000 == 0x1_d1ca_9a00_0000_0000 * 0x80_0000 + 0x0);
    lemma_quotient_known(0x3ce8_e54d, 0x3c80_0000, 0xe8_e54d, 120, 0x80_0000, 120, 0x1_d1ca_9a00_0000_0000, 0x0, 66, 0x2_0000_0000_0000_0000, 0x400_0000_0000);
    assert(div_spec(0x3ce8_e54d, 0x3c80_0000) == 0x3fe8_e54d);
    assert(0xb0_2e35 * 0x80 + 0xe8_e54d * 0x1 == 0x58ff_ffcd);
    lemma_sum_known(0x4330_2e35, 0x3fe8_e54d, false, 0xb0_2e35, 133, 0xe8_e54d, 126, 0x80, 0x1, 0x58ff_ffcd, 31, 0x4000_0000, 0x80);
    assert(add_spec(0x4330_2e35, 0x3fe8_e54d) == 0x4332_0000);
    lemma_whole_known(0x4332_0000, 0xb2_0000, 133, 0x1_0000);
}

/// The edge of code 177.
proof fn lemma_near_177()
    ensures
        near_exact_edge(0x3ee2_84f1, 177),
{
    lemma2_to64();
    lemma2_to64_rest();
    lemma_fifth_powers_of_two();
    lemma_more_fifth_powers_of_two();
    assert(191525nat * 191525 * 191525 == 0x18_f5a4_9450_e9dd);
    assert(269025nat * 269025 * 269025 == 0x45_2c59_9066_9ca1);
    assert(0x18_f5a4_9450_e9ddnat * 0x18_f5a4_9450_e9dd == 0x26e_fa90_3cdd_16aa_4d22_87c4_08c9nat);
    assert(0x26e_fa90_3cdd_16aa_4d22_87c4_08c9nat * 0x26e_fa90_3cdd_16aa_4d22_87c4_08c9nat == 0x5_ec06_8a25_ca7e_7b05_5399_ecd1_623d_3b25_2f3c_7c4f_96c5_7215_2dd1nat);
    assert(0x45_2c59_9066_9ca1nat * 0x45_2c59_9066_9ca1 == 0x12b0_eff6_c049_6d6d_d948_5020_9d41nat);
    assert(0x12b0_eff6_c049_6d6d_d948_5020_9d41nat * 0x12b0_eff6_c049_6d6d_d948_5020_9d41nat == 0x15d_5c09_8741_6139_2178_92b9_bce5_5f46_89a2_dd05_b95f_0d00_50d8_ca81nat);
    assert(0x46c_76b5nat * 0x46c_76b5 == 0x13_91aa_07c3_5bf9);
    assert(0x13_91aa_07c3_5bf9nat * 0x13_91aa_07c3_5bf9 == 0x17e_f21f_34b9_44d8_7cd0_dc60_f831nat);
    assert(0x17e_f21f_34b9_44d8_7cd0_dc60_f831nat * 0x46c_76b5 == 0x6_9e08_3458_b59a_1a01_6227_0209_fba2_10a5nat);
    assert(0x46c_bab5nat * 0x46c_bab5 == 0x13_9403_b8e3_83f9);
    assert(0x13_9403_b8e3_83f9nat * 0x13_9403_b8e3_83f9 == 0x17f_4e21_bf9a_826a_d7bf_3f9e_c831nat);
    assert(0x17f_4e21_bf9a_826a_d7bf_3f9e_c831nat * 0x46c_bab5 == 0x6_a005_0b02_024b_6b71_d7f8_d08e_9163_24a5nat);
    assert(0x6_9e08_3458_b59a_1a01_6227_0209_fba2_10a5nat * 0x15d_5c09_8741_6139_2178_92b9_bce5_5f46_89a2_dd05_b95f_0d00_50d8_ca81nat == 0x907_d239_5d10_4282_7316_ca6d_24bf_c6b6_78f9_0d31_c631_359d_a0c3_9697_b464_d916_169c_f8dd_b966_3e87_4904_9525nat);
    assert(0x6_a005_0b02_024b_6b71_d7f8_d08e_9163_24a5nat * 0x15d_5c09_8741_6139_2178_92b9_bce5_5f46_89a2_dd05_b95f_0d00_50d8_ca81nat == 0x90a_88a0_f1f3_0ae8_ec3a_24cc_8ef8_1686_6baa_ff3b_044f_4d17_a80b_de8d_49a5_d4cf_dfe0_f2c5_8dc2_9ea9_f917_a925nat);
    assert(0xc35nat * 0x2000_0000_0000_0000_0000_0000_0000_0000nat == 0x186_a000_0000_0000_0000_0000_0000_0000_0000nat);
    assert(0x5_ec06_8a25_ca7e_7b05_5399_ecd1_623d_3b25_2f3c_7c4f_96c5_7215_2dd1nat * 0x186_a000_0000_0000_0000_0000_0000_0000_0000nat == 0x909_457a_8bea_1b3e_7700_b0be_fafe_86ae_5f9d_33ab_2ef1_6f07_3391_0908_a000_0000_0000_0000_0000_0000_0000_0000nat);
    lemma_near_above(
        0x3ee2_84f1, 0xe2_84f1, 124, 0x200, 0x186_a000_0000_0000_0000_0000_0000_0000_0000nat, 177,
        191525, 0x18_f5a4_9450_e9dd,
        0x26e_fa90_3cdd_16aa_4d22_87c4_08c9nat,
        0x45_2c59_9066_9ca1, 0x12b0_eff6_c049_6d6d_d948_5020_9d41nat,
        0x46c_76b5, 0x13_91aa_07c3_5bf9, 0x17e_f21f_34b9_44d8_7cd0_dc60_f831nat,
        0x46c_bab5, 0x13_9403_b8e3_83f9, 0x17f_4e21_bf9a_826a_d7bf_3f9e_c831nat,
    );
}

/// The value 0x3ee5_5989.
proof fn lemma_at_3ee55989()
    ensures
        chord_code(0x3ee5_5989, 0x3edd_5e8d, 0x3ee5_5e8d, 0x4330_2e35, 0x4333_01c5) == 178,
{
    reveal(chord_code);
    lemma2_to64();
    lemma2_to64_rest();
    lemma_high_powers();
    assert(0xe5_5e8d * 0x1 - 0xdd_5e8d * 0x1 == 0x8_0000);
    lemma_sum_known(0x3ee5_5e8d, 0x3edd_5e8d, true, 0xe5_5e8d, 124, 0xdd_5e8d, 124, 0x1, 0x1, 0x8_0000, 20, 0x8_0000, 0x10);
    assert(sub_spec(0x3ee5_5e8d, 0x3edd_5e8d) == 0x3c80_0000);
    assert(0xe5_5989 * 0x1 - 0xdd_5e8d * 0x1 == 0x7_fafc);
    lemma_sum_known(0x3ee5_5989, 0x3edd_5e8d, true, 0xe5_5989, 124, 0xdd_5e8d, 124, 0x1, 0x1, 0x7_fafc, 19, 0x4_0000, 0x20);
    assert(sub_spec(0x3ee5_5989, 0x3edd_5e8d) == 0x3c7f_5f80);
    assert(0xb3_01c5 * 0x1 - 0xb0_2e35 * 0x1 == 0x2_d390);
    lemma_sum_known(0x4333_01c5, 0x4330_2e35, true, 0xb3_01c5, 133, 0xb0_2e35, 133, 0x1, 0x1, 0x2_d390, 18, 0x2_0000, 0x40);
    assert(sub_spec(0x4333_01c5, 0x4330_2e35) == 0x4034_e400);
    assert(0xb4_e400 * 0xff_5f80 == 0xb472_970e_0000);
    lemma_product_known(0x4034_e400, 0x3c7f_5f80, 0xb4_e400, 127, 0xff_5f80, 119, 0xb472_970e_0000, 48, 0x8000_0000_0000, 0x100_0000);
    assert(mul_spec(0x4034_e400, 0x3c7f_5f80) == 0x3d34_7297);
    assert(0xb4_7297 * 0x1_0000_0000_0000_0000 == 0x1_68e5_2e00_0000_0000 * 0x80_0000 + 0x0);
    lemma_quotient_known(0x3d34_7297, 0x3c80_0000, 0xb4_7297, 121, 0x80_0000, 120, 0x1_68e5_2e00_0000_0000, 0x0, 66, 0x2_0000_0000_0000_0000, 0x400_0000_0000);
    assert(div_spec(0x3d34_7297, 0x3c80_0000) == 0x4034_7297);
    assert(0xb0_2e35 * 0x40 + 0xb4_7297 * 0x1 == 0x2cbf_ffd7);
    lemma_sum_known(0x4330_2e35, 0x4034_7297, false, 0xb0_2e35, 133, 0xb4_7297, 127, 0x40, 0x1, 0x2cbf_ffd7, 30, 0x2000_0000, 0x40);
    assert(add_spec(0x4330_2e35, 0x4034_7297) == 0x4332_ffff);
    lemma_whole_known(0x4332_ffff, 0xb2_ffff, 133, 0x1_0000);
}

/// The value 0x3ee5_598a.
proof fn lemma_at_3ee5598a()
    ensures
        chord_code(0x3ee5_598a, 0x3edd_5e8d, 0x3ee5_5e8d, 0x4330_2e35, 0x4333_01c5) == 179,
{
    reveal(chord_code);
    lemma2_to64();
    lemma2_to64_rest();
    lemma_high_powers();
    assert(0xe5_5e8d * 0x1 - 0xdd_5e8d * 0x1 == 0x8_0000);
    lemma_sum_known(0x3ee5_5e8d, 0x3edd_5e8d, true, 0xe5_5e8d, 124, 0xdd_5e8d, 124, 0x1, 0x1, 0x8_0000, 20, 0x8_0000, 0x10);
    assert(sub_spec(0x3ee5_5e8d, 0x3edd_5e8d) == 0x3c80_0000);
    assert(0xe5_598a * 0x1 - 0xdd_5e8d * 0x1 == 0x7_fafd);
    lemma_sum_known(0x3ee5_598a, 0x3edd_5e8d, true, 0xe5_598a, 124, 0xdd_5e8d, 124, 0x1, 0x1, 0x7_fafd, 19, 0x4_0000, 0x20);
    assert(sub_spec(0x3ee5_598a, 0x3edd_5e8d) == 0x3c7f_5fa0);
    assert(0xb3_01c5 * 0x1 - 0xb0_2e35 * 0x1 == 0x2_d390);
    lemma_sum_known(0x4333_01c5, 0x4330_2e35, true, 0xb3_01c5, 133, 0xb0_2e35, 133, 0x1, 0x1, 0x2_d390, 18, 0x2_0000, 0x40);
    assert(sub_spec(0x4333_01c5, 0x4330_2e35) == 0x4034_e400);
    assert(0xb4_e400 * 0xff_5fa0 == 0xb472_adaa_8000);
    lemma_product_known(0x4034_e400, 0x3c7f_5fa0, 0xb4_e400, 127, 0xff_5fa0, 119, 0xb472_adaa_8000, 48, 0x8000_0000_0000, 0x100_0000);
    assert(mul_spec(0x4034_e400, 0x3c7f_5fa0) == 0x3d34_72ae);
    assert(0xb4_72ae * 0x1_0000_0000_0000_0000 == 0x1_68e5_5c00_0000_0000 * 0x80_0000 + 0x0);
    lemma_quotient_known(0x3d34_72ae, 0x3c80_0000, 0xb4_72ae, 121, 0x80_0000, 120, 0x1_68e5_5c00_0000_0000, 0x0, 66, 0x2_0000_0000_0000_0000, 0x400_0000_0000);
    assert(div_spec(0x3d34_72ae, 0x3c80_0000) == 0x4034_72ae);
    assert(0xb0_2e35 * 0x40 + 0xb4_72ae * 0x1 == 0x2cbf_ffee);
    lemma_sum_known(0x4330_2e35, 0x4034_72ae, false, 0xb0_2e35, 133, 0xb4_72ae, 127, 0x40, 0x1, 0x2cbf_ffee, 30, 0x2000_0000, 0x40);
    assert(add_spec(0x4330_2e35, 0x4034_72ae) == 0x4333_0000);
    lemma_whole_known(0x4333_0000, 0xb3_0000, 133, 0x1_0000);
}

/// The edge of code 178.
proof fn lemma_near_178()
    ensures
        near_exact_edge(0x3ee5_5989, 178),
{
    lemma2_to64();
    lemma2_to64_rest();
    lemma_fifth_powers_of_two();
    lemma_more_fifth_powers_of_two();
    assert(192525nat * 192525 * 192525 == 0x19_5a40_8cd1_5895);
    assert(269025nat * 269025 * 269025 == 0x45_2c59_9066_9ca1);
    assert(0x19_5a40_8cd1_5895nat * 0x19_5a40_8cd1_5895 == 0x282_c06c_f42d_3584_b294_b9f0_c6b9nat);
    assert(0x282_c06c_f42d_3584_b294_b9f0_c6b9nat * 0x282_c06c_f42d_3584_b294_b9f0_c6b9nat == 0x6_4dc9_b31c_4f63_2ce2_1bcb_304d_4697_c07f_2099_e294_eb94_9722_b1b1nat);
    assert(0x45_2c59_9066_9ca1nat * 0x45_2c59_9066_9ca1 == 0x12b0_eff6_c049_6d6d_d948_5020_9d41nat);
    assert(0x12b0_eff6_c049_6d6d_d948_5020_9d41nat * 0x12b0_eff6_c049_6d6d_d948_5020_9d41nat == 0x15d_5c09_8741_6139_2178_92b9_bce5_5f46_89a2_dd05_b95f_0d00_50d8_ca81nat);
    assert(0x47a_9dadnat * 0x47a_9dad == 0x14_0fa8_1201_a6e9);
    assert(0x14_0fa8_1201_a6e9nat * 0x14_0fa8_1201_a6e9 == 0x192_7337_f0b5_e966_9b4b_7ea5_0011nat);
    assert(0x192_7337_f0b5_e966_9b4b_7ea5_0011nat * 0x47a_9dad == 0x7_0a8f_a90c_b9c4_1065_d789_2d52_12a5_787dnat);
    assert(0x47a_e1adnat * 0x47a_e1ad == 0x14_1209_47d5_8ee9);
    assert(0x14_1209_47d5_8ee9nat * 0x14_1209_47d5_8ee9 == 0x192_d2b8_87ce_7dac_f7ce_5d81_5011nat);
    assert(0x192_d2b8_87ce_7dac_f7ce_5d81_5011nat * 0x47a_e1ad == 0x7_0ca6_697c_886e_db4d_457e_6b84_43dc_0c7dnat);
    assert(0x7_0a8f_a90c_b9c4_1065_d789_2d52_12a5_787dnat * 0x15d_5c09_8741_6139_2178_92b9_bce5_5f46_89a2_dd05_b95f_0d00_50d8_ca81nat == 0x99b_ede8_2e84_e1b1_af89_89f6_d297_27ea_906d_bc72_4ca0_802e_4deb_1847_3e72_f238_6c9a_4729_2f77_6356_afec_58fdnat);
    assert(0x7_0ca6_697c_886e_db4d_457e_6b84_43dc_0c7dnat * 0x15d_5c09_8741_6139_2178_92b9_bce5_5f46_89a2_dd05_b95f_0d00_50d8_ca81nat == 0x99e_c7ac_c801_1ac8_da97_6a30_036d_e35c_4ebe_c457_1da1_a232_0a03_092f_f3c1_08e4_6494_b19b_f65d_e9c3_6d34_ecfdnat);
    assert(0xc35nat * 0x2000_0000_0000_0000_0000_0000_0000_0000nat == 0x186_a000_0000_0000_0000_0000_0000_0000_0000nat);
    assert(0x6_4dc9_b31c_4f63_2ce2_1bcb_304d_4697_c07f_2099_e294_eb94_9722_b1b1nat * 0x186_a000_0000_0000_0000_0000_0000_0000_0000nat == 0x99e_71e4_ed12_a2b4_5c83_a8ea_93e9_d74e_19fb_1ecf_5c7b_f79b_1d50_62b4_a000_0000_0000_0000_0000_0000_0000_0000nat);
    lemma_near_above(
        0x3ee5_5989, 0xe5_5989, 124, 0x200, 0x186_a000_0000_0000_0000_0000_0000_0000_0000nat, 178,
        192525, 0x19_5a40_8cd1_5895,
        0x282_c06c_f42d_3584_b294_b9f0_c6b9nat,
        0x45_2c59_9066_9ca1, 0x12b0_eff6_c049_6d6d_d948_5020_9d41nat,
        0x47a_9dad, 0x14_0fa8_1201_a6e9, 0x192_7337_f0b5_e966_9b4b_7ea5_0011nat,
        0x47a_e1ad, 0x14_1209_47d5_8ee9, 0x192_d2b8_87ce_7dac_f7ce_5d81_5011nat,
    );
}

/// The value 0x3ee8_3d05.
proof fn lemma_at_3ee83d05()
    ensures
        chord_code(0x3ee8_3d05, 0x3ee5_5e8d, 0x3eed_5e8d, 0x4333_01c5, 0x4335_c6a9) == 179,
{
    reveal(chord_code);
    lemma2_to64();
    lemma2_to64_rest();
    lemma_high_powers();
    assert(0xed_5e8d * 0x1 - 0xe5_5e8d * 0x1 == 0x8_0000);
    lemma_sum_known(0x3eed_5e8d, 0x3ee5_5e8d, true, 0xed_5e8d, 124, 0xe5_5e8d, 124, 0x1, 0x1, 0x8_0000, 20, 0x8_0000, 0x10);
    assert(sub_spec(0x3eed_5e8d, 0x3ee5_5e8d) == 0x3c80_0000);
    assert(0xe8_3d05 * 0x1 - 0xe5_5e8d * 0x1 == 0x2_de78);
    lemma_sum_known(0x3ee8_3d05, 0x3ee5_5e8d, true, 0xe8_3d05, 124, 0xe5_5e8d, 124, 0x1, 0x1, 0x2_de78, 18, 0x2_0000, 0x40);
    assert(sub_spec(0x3ee8_3d05, 0x3ee5_5e8d) == 0x3bb7_9e00);
    assert(0xb5_c6a9 * 0x1 - 0xb3_01c5 * 0x1 == 0x2_c4e4);
    lemma_sum_known(0x4335_c6a9, 0x4333_01c5, true, 0xb5_c6a9, 133, 0xb3_01c5, 133, 0x1, 0x1, 0x2_c4e4, 18, 0x2_0000, 0x40);
    assert(sub_spec(0x4335_c6a9, 0x4333_01c5) == 0x4031_3900);
    assert(0xb1_3900 * 0xb7_9e00 == 0x7f1d_202e_0000);
    lemma_product_known(0x4031_3900, 0x3bb7_9e00, 0xb1_3900, 127, 0xb7_9e00, 118, 0x7f1d_202e_0000, 47, 0x4000_0000_0000, 0x80_0000);
    assert(mul_spec(0x4031_3900, 0x3bb7_9e00) == 0x3c7e_3a40);
    assert(0xfe_3a40 * 0x1_0000_0000_0000_0000 == 0x1_fc74_8000_0000_0000 * 0x80_0000 + 0x0);
    lemma_quotient_known(0x3c7e_3a40, 0x3c80_0000, 0xfe_3a40, 119, 0x80_0000, 120, 0x1_fc74_8000_0000_0000, 0x0, 66, 0x2_0000_0000_0000_0000, 0x400_0000_0000);
    assert(div_spec(0x3c7e_3a40, 0x3c80_0000) == 0x3f7e_3a40);
    assert(0xb3_01c5 * 0x100 + 0xfe_3a40 * 0x1 == 0xb3ff_ff40);
    lemma_sum_known(0x4333_01c5, 0x3f7e_3a40, false, 0xb3_01c5, 133, 0xfe_3a40, 125, 0x100, 0x1, 0xb3ff_ff40, 32, 0x8000_0000, 0x100);
    assert(add_spec(0x4333_01c5, 0x3f7e_3a40) == 0x4333_ffff);
    lemma_whole_known(0x4333_ffff, 0xb3_ffff, 133, 0x1_0000);
}

/// The value 0x3ee8_3d06.
proof fn lemma_at_3ee83d06()
    ensures
        chord_code(0x3ee8_3d06, 0x3ee5_5e8d, 0x3eed_5e8d, 0x4333_01c5, 0x4335_c6a9) == 180,
{
    reveal(chord_code);
    lemma2_to64();
    lemma2_to64_rest();
    lemma_high_powers();
    assert(0xed_5e8d * 0x1 - 0xe5_5e8d * 0x1 == 0x8_0000);
    lemma_sum_known(0x3eed_5e8d, 0x3ee5_5e8d, true, 0xed_5e8d, 124, 0xe5_5e8d, 124, 0x1, 0x1, 0x8_0000, 20, 0x8_0000, 0x10);
    assert(sub_spec(0x3eed_5e8d, 0x3ee5_5e8d) == 0x3c80_0000);
    assert(0xe8_3d06 * 0x1 - 0xe5_5e8d * 0x1 == 0x2_de79);
    lemma_sum_known(0x3ee8_3d06, 0x3ee5_5e8d, true, 0xe8_3d06, 124, 0xe5_5e8d, 124, 0x1, 0x1, 0x2_de79, 18, 0x2_0000, 0x40);
    assert(sub_spec(0x3ee8_3d06, 0x3ee5_5e8d) == 0x3bb7_9e40);
    assert(0xb5_c6a9 * 0x1 - 0xb3_01c5 * 0x1 == 0x2_c4e4);
    lemma_sum_known(0x4335_c6a9, 0x4333_01c5, true, 0xb5_c6a9, 133, 0xb3_01c5, 133, 0x1, 0x1, 0x2_c4e4, 18, 0x2_0000, 0x40);
    assert(sub_spec(0x4335_c6a9, 0x4333_01c5) == 0x4031_3900);
    assert(0xb1_3900 * 0xb7_9e40 == 0x7f1d_4c7c_4000);
    lemma_product_known(0x4031_3900, 0x3bb7_9e40, 0xb1_3900, 127, 0xb7_9e40, 118, 0x7f1d_4c7c_4000, 47, 0x4000_0000_0000, 0x80_0000);
    assert(mul_spec(0x4031_3900, 0x3bb7_9e40) == 0x3c7e_3a99);
    assert(0xfe_3a99 * 0x1_0000_0000_0000_0000 == 0x1_fc75_3200_0000_0000 * 0x80_0000 + 0x0);
    lemma_quotient_known(0x3c7e_3a99, 0x3c80_0000, 0xfe_3a99, 119, 0x80_0000, 120, 0x1_fc75_3200_0000_0000, 0x0, 66, 0x2_0000_0000_0000_0000, 0x400_0000_0000);
    assert(div_spec(0x3c7e_3a99, 0x3c80_0000) == 0x3f7e_3a99);
    assert(0xb3_01c5 * 0x100 + 0xfe_3a99 * 0x1 == 0xb3ff_ff99);
    lemma_sum_known(0x4333_01c5, 0x3f7e_3a99, false, 0xb3_01c5, 133, 0xfe_3a99, 125, 0x100, 0x1, 0xb3ff_ff99, 32, 0x8000_0000, 0x100);
    assert(add_spec(0x4333_01c5, 0x3f7e_3a99) == 0x4334_0000);
    lemma_whole_known(0x4334_0000, 0xb4_0000, 133, 0x1_0000);
}

/// The edge of code 179.
proof fn lemma_near_179()
    ensures
        near_exact_edge(0x3ee8_3d05, 179),
{
    lemma2_to64();
    lemma2_to64_rest();
    lemma_fifth_powers_of_two();
    lemma_more_fifth_powers_of_two();
    assert(193525nat * 193525 * 193525 == 0x19_bfe9_799f_f6cd);
    assert(269025nat * 269025 * 269025 == 0x45_2c59_9066_9ca1);
    assert(0x19_bfe9_799f_f6cdnat * 0x19_bfe9_799f_f6cd == 0x297_0b77_f9a9_8547_c26c_4a94_a029nat);
    assert(0x297_0b77_f9a9_8547_c26c_4a94_a029nat * 0x297_0b77_f9a9_8547_c26c_4a94_a029nat == 0x6_b54c_67f2_b3be_fa3a_55dd_3344_b07f_f521_53d5_b69d_8979_479b_4691nat);
    assert(0x45_2c59_9066_9ca1nat * 0x45_2c59_9066_9ca1 == 0x12b0_eff6_c049_6d6d_d948_5020_9d41nat);
    assert(0x12b0_eff6_c049_6d6d_d948_5020_9d41nat * 0x12b0_eff6_c049_6d6d_d948_5020_9d41nat == 0x15d_5c09_8741_6139_2178_92b9_bce5_5f46_89a2_dd05_b95f_0d00_50d8_ca81nat);
    assert(0x489_0f19nat * 0x489_0f19 == 0x14_91d9_f1a5_f071);
    assert(0x14_91d9_f1a5_f071nat * 0x14_91d9_f1a5_f071 == 0x1a7_1d26_5f37_1b73_7bd6_957e_11e1nat);
    assert(0x1a7_1d26_5f37_1b73_7bd6_957e_11e1nat * 0x489_0f19 == 0x7_7efc_270c_e93f_05ba_12b4_a376_11c4_edf9nat);
    assert(0x489_5319nat * 0x489_5319 == 0x14_9442_d3bb_3871);
    assert(0x14_9442_d3bb_3871nat * 0x14_9442_d3bb_3871 == 0x1a7_804e_6b83_2691_ea39_c787_a1e1nat);
    assert(0x1a7_804e_6b83_2691_ea39_c787_a1e1nat * 0x489_5319 == 0x7_812e_5b9a_8a4d_f10f_533a_8172_9b23_c1f9nat);
    assert(0x7_7efc_270c_e93f_05ba_12b4_a376_11c4_edf9nat * 0x15d_5c09_8741_6139_2178_92b9_bce5_5f46_89a2_dd05_b95f_0d00_50d8_ca81nat == 0xa3a_cfab_4761_0d99_2d0f_f0e3_e1f2_c9a6_1ada_d312_d45c_7a24_08c3_e29d_5547_8454_98ee_72d6_07aa_b60a_f21a_6479nat);
    assert(0x7_812e_5b9a_8a4d_f10f_533a_8172_9b23_c1f9nat * 0x15d_5c09_8741_6139_2178_92b9_bce5_5f46_89a2_dd05_b95f_0d00_50d8_ca81nat == 0xa3d_cee7_0c45_6717_91a7_7297_3ae5_4e82_1c82_af73_e50a_0bb1_1633_fa56_3144_5045_1b5d_0c65_e10e_60f3_de2b_3879nat);
    assert(0xc35nat * 0x2000_0000_0000_0000_0000_0000_0000_0000nat == 0x186_a000_0000_0000_0000_0000_0000_0000_0000nat);
    assert(0x6_b54c_67f2_b3be_fa3a_55dd_3344_b07f_f521_53d5_b69d_8979_479b_4691nat * 0x186_a000_0000_0000_0000_0000_0000_0000_0000nat == 0xa3c_63b6_1cb5_8548_9143_44a6_5aaf_d13f_69fa_8bf9_c621_e4ae_e34e_8d00_a000_0000_0000_0000_0000_0000_0000_0000nat);
    lemma_near_above(
        0x3ee8_3d05, 0xe8_3d05, 124, 0x200, 0x186_a000_0000_0000_0000_0000_0000_0000_0000nat, 179,
        193525, 0x19_bfe9_799f_f6cd,
        0x297_0b77_f9a9_8547_c26c_4a94_a029nat,
        0x45_2c59_9066_9ca1, 0x12b0_eff6_c049_6d6d_d948_5020_9d41nat,
        0x489_0f19, 0x14_91d9_f1a5_f071, 0x1a7_1d26_5f37_1b73_7bd6_957e_11e1nat,
        0x489_5319, 0x14_9442_d3bb_3871, 0x1a7_804e_6b83_2691_ea39_c787_a1e1nat,
    );
}

/// The value 0x3eeb_209c.
proof fn lemma_at_3eeb209c()
    ensures
        chord_code(0x3eeb_209c, 0x3ee5_5e8d, 0x3eed_5e8d, 0x4333_01c5, 0x4335_c6a9) == 180,
{
    reveal(chord_code);
    lemma2_to64();
    lemma2_to64_rest();
    lemma_high_powers();
    assert(0xed_5e8d * 0x1 - 0xe5_5e8d * 0x1 == 0x8_0000);
    lemma_sum_known(0x3eed_5e8d, 0x3ee5_5e8d, true, 0xed_5e8d, 124, 0xe5_5e8d, 124, 0x1, 0x1, 0x8_0000, 20, 0x8_0000, 0x10);
    assert(sub_spec(0x3eed_5e8d, 0x3ee5_5e8d) == 0x3c80_0000);
    assert(0xeb_209c * 0x1 - 0xe5_5e8d * 0x1 == 0x5_c20f);
    lemma_sum_known(0x3eeb_209c, 0x3ee5_5e8d, true, 0xeb_209c, 124, 0xe5_5e8d, 124, 0x1, 0x1, 0x5_c20f, 19, 0x4_0000, 0x20);
    assert(sub_spec(0x3eeb_209c, 0x3ee5_5e8d) == 0x3c38_41e0);
    assert(0xb5_c6a9 * 0x1 - 0xb3_01c5 * 0x1 == 0x2_c4e4);
    lemma_sum_known(0x4335_c6a9, 0x4333_01c5, true, 0xb5_c6a9, 133, 0xb3_01c5, 133, 0x1, 0x1, 0x2_c4e4, 18, 0x2_0000, 0x40);
    assert(sub_spec(0x4335_c6a9, 0x4333_01c5) == 0x4031_3900);
    assert(0xb1_3900 * 0xb8_41e0 == 0x7f8e_928a_e000);
    lemma_product_known(0x4031_3900, 0x3c38_41e0, 0xb1_3900, 127, 0xb8_41e0, 119, 0x7f8e_928a_e000, 47, 0x4000_0000_0000, 0x80_0000);
    assert(mul_spec(0x4031_3900, 0x3c38_41e0) == 0x3cff_1d25);
    assert(0xff_1d25 * 0x1_0000_0000_0000_0000 == 0x1_fe3a_4a00_0000_0000 * 0x80_0000 + 0x0);
    lemma_quotient_known(0x3cff_1d25, 0x3c80_0000, 0xff_1d25, 120, 0x80_0000, 120, 0x1_fe3a_4a00_0000_0000, 0x0, 66, 0x2_0000_0000_0000_0000, 0x400_0000_0000);
    assert(div_spec(0x3cff_1d25, 0x3c80_0000) == 0x3fff_1d25);
    assert(0xb3_01c5 * 0x80 + 0xff_1d25 * 0x1 == 0x5a7f_ffa5);
    lemma_sum_known(0x4333_01c5, 0x3fff_1d25, false, 0xb3_01c5, 133, 0xff_1d25, 126, 0x80, 0x1, 0x5a7f_ffa5, 31, 0x4000_0000, 0x80);
    assert(add_spec(0x4333_01c5, 0x3fff_1d25) == 0x4334_ffff);
    lemma_whole_known(0x4334_ffff, 0xb4_ffff, 133, 0x1_0000);
}

/// The value 0x3eeb_209d.
proof fn lemma_at_3eeb209d()
    ensures
        chord_code(0x3eeb_209d, 0x3ee5_5e8d, 0x3eed_5e8d, 0x4333_01c5, 0x4335_c6a9) == 181,
{
    reveal(chord_code);
    lemma2_to64();
    lemma2_to64_rest();
    lemma_high_powers();
    assert(0xed_5e8d * 0x1 - 0xe5_5e8d * 0x1 == 0x8_0000);
    lemma_sum_known(0x3eed_5e8d, 0x3ee5_5e8d, true, 0xed_5e8d, 124, 0xe5_5e8d, 124, 0x1, 0x1, 0x8_0000, 20, 0x8_0000, 0x10);
    assert(sub_spec(0x3eed_5e8d, 0x3ee5_5e8d) == 0x3c80_0000);
    assert(0xeb_209d * 0x1 - 0xe5_5e8d * 0x1 == 0x5_c210);
    lemma_sum_known(0x3eeb_209d, 0x3ee5_5e8d, true, 0xeb_209d, 124, 0xe5_5e8d, 124, 0x1, 0x1, 0x5_c210, 19, 0x4_0000, 0x20);
    assert(sub_spec(0x3eeb_209d, 0x3ee5_5e8d) == 0x3c38_4200);
    assert(0xb5_c6a9 * 0x1 - 0xb3_01c5 * 0x1 == 0x2_c4e4);
    lemma_sum_known(0x4335_c6a9, 0x4333_01c5, true, 0xb5_c6a9, 133, 0xb3_01c5, 133, 0x1, 0x1, 0x2_c4e4, 18, 0x2_0000, 0x40);
    assert(sub_spec(0x4335_c6a9, 0x4333_01c5) == 0x4031_3900);
    assert(0xb1_3900 * 0xb8_4200 == 0x7f8e_a8b2_0000);
    lemma_product_known(0x4031_3900, 0x3c38_4200, 0xb1_3900, 127, 0xb8_4200, 119, 0x7f8e_a8b2_0000, 47, 0x4000_0000_0000, 0x80_0000);
    assert(mul_spec(0x4031_3900, 0x3c38_4200) == 0x3cff_1d51);
    assert(0xff_1d51 * 0x1_0000_0000_0000_0000 == 0x1_fe3a_a200_0000_0000 * 0x80_0000 + 0x0);
    lemma_quotient_known(0x3cff_1d51, 0x3c80_0000, 0xff_1d51, 120, 0x80_0000, 120, 0x1_fe3a_a200_0000_0000, 0x0, 66, 0x2_0000_0000_0000_0000, 0x400_0000_0000);
    assert(div_spec(0x3cff_1d51, 0x3c80_0000) == 0x3fff_1d51);
    assert(0xb3_01c5 * 0x80 + 0xff_1d51 * 0x1 == 0x5a7f_ffd1);
    lemma_sum_known(0x4333_01c5, 0x3fff_1d51, false, 0xb3_01c5, 133, 0xff_1d51, 126, 0x80, 0x1, 0x5a7f_ffd1, 31, 0x4000_0000, 0x80);
    assert(add_spec(0x4333_01c5, 0x3fff_1d51) == 0x4335_0000);
    lemma_whole_known(0x4335_0000, 0xb5_0000, 133, 0x1_0000);
}

/// The edge of code 180.
proof fn lemma_near_180()
    ensures
        near_exact_edge(0x3eeb_209c, 180),
{
    lemma2_to64();
    lemma2_to64_rest();
    lemma_fifth_powers_of_two();
    lemma_more_fifth_powers_of_two();
    assert(194525nat * 194525 * 194525 == 0x1a_26a0_c05d_8085);
    assert(269025nat * 269025 * 269025 == 0x45_2c59_9066_9ca1);
    assert(0x1a_26a0_c05d_8085nat * 0x1a_26a0_c05d_8085 == 0x2ab_de7b_310a_e298_852e_2127_4519nat);
    assert(0x2ab_de7b_310a_e298_852e_2127_4519nat * 0x2ab_de7b_310a_e298_852e_2127_4519nat == 0x7_22dc_e6b1_946c_24b2_14e5_c2d6_6149_4024_a358_ede3_f4d2_9244_7c71nat);
    assert(0x45_2c59_9066_9ca1nat * 0x45_2c59_9066_9ca1 == 0x12b0_eff6_c049_6d6d_d948_5020_9d41nat);
    assert(0x12b0_eff6_c049_6d6d_d948_5020_9d41nat * 0x12b0_eff6_c049_6d6d_d948_5020_9d41nat == 0x15d_5c09_8741_6139_2178_92b9_bce5_5f46_89a2_dd05_b95f_0d00_50d8_ca81nat);
    assert(0x497_810cnat * 0x497_810c == 0x15_15b1_dd35_1890);
    assert(0x15_15b1_dd35_1890nat * 0x15_15b1_dd35_1890 == 0x1bc_9104_f494_6038_4e8b_cdfb_5100nat);
    assert(0x1bc_9104_f494_6038_4e8b_cdfb_5100nat * 0x497_810c == 0x7_f95d_b7a8_e07f_dde1_65e6_8dda_1298_cc00nat);
    assert(0x497_c50cnat * 0x497_c50c == 0x15_1822_6bd3_7890);
    assert(0x15_1822_6bd3_7890nat * 0x15_1822_6bd3_7890 == 0x1bc_f7ec_298a_3fd1_7bb8_5627_5100nat);
    assert(0x1bc_f7ec_298a_3fd1_7bb8_5627_5100nat * 0x497_c50c == 0x7_fbac_6c97_0494_4016_0d1a_1565_122c_cc00nat);
    assert(0x7_f95d_b7a8_e07f_dde1_65e6_8dda_1298_cc00nat * 0x15d_5c09_8741_6139_2178_92b9_bce5_5f46_89a2_dd05_b95f_0d00_50d8_ca81nat == 0xae1_d2ad_0a0f_f7d9_1823_9399_daba_94da_84ea_8330_8dc4_08e8_f04c_0ca6_d2bc_66e2_f932_10e9_9146_fe3c_0ff6_cc00nat);
    assert(0x7_fbac_6c97_0494_4016_0d1a_1565_122c_cc00nat * 0x15d_5c09_8741_6139_2178_92b9_bce5_5f46_89a2_dd05_b95f_0d00_50d8_ca81nat == 0xae4_f8ce_11b9_313f_6dcd_8dfc_9015_2403_416a_fe13_16ac_87e6_1101_858c_69f1_d4d0_acaf_221c_cc57_ddd1_a18a_cc00nat);
    assert(0xc35nat * 0x2000_0000_0000_0000_0000_0000_0000_0000nat == 0x186_a000_0000_0000_0000_0000_0000_0000_0000nat);
    assert(0x7_22dc_e6b1_946c_24b2_14e5_c2d6_6149_4024_a358_ede3_f4d2_9244_7c71nat * 0x186_a000_0000_0000_0000_0000_0000_0000_0000nat == 0xae3_9251_82b7_1983_7e3b_2316_6c5e_3265_7fe7_bf91_fdf5_71ce_6fc0_61ec_a000_0000_0000_0000_0000_0000_0000_0000nat);
    lemma_near_above(
        0x3eeb_209c, 0xeb_209c, 124, 0x200, 0x186_a000_0000_0000_0000_0000_0000_0000_0000nat, 180,
        194525, 0x1a_26a0_c05d_8085,
        0x2ab_de7b_310a_e298_852e_2127_4519nat,
        0x45_2c59_9066_9ca1, 0x12b0_eff6_c049_6d6d_d948_5020_9d41nat,
        0x497_810c, 0x15_15b1_dd35_1890, 0x1bc_9104_f494_6038_4e8b_cdfb_5100nat,
        0x497_c50c, 0x15_1822_6bd3_7890, 0x1bc_f7ec_298a_3fd1_7bb8_5627_5100nat,
    );
}

/// The value 0x3eee_0774.
proof fn lemma_at_3eee0774()
    ensures
        chord_code(0x3eee_0774, 0x3eed_5e8d, 0x3ef5_5e8d, 0x4335_c6a9, 0x4338_7de3) == 181,
{
    reveal(chord_code);
    lemma2_to64();
    lemma2_to64_rest();
    lemma_high_powers();
    assert(0xf5_5e8d * 0x1 - 0xed_5e8d * 0x1 == 0x8_0000);
    lemma_sum_known(0x3ef5_5e8d, 0x3eed_5e8d, true, 0xf5_5e8d, 124, 0xed_5e8d, 124, 0x1, 0x1, 0x8_0000, 20, 0x8_0000, 0x10);
    assert(sub_spec(0x3ef5_5e8d, 0x3eed_5e8d) == 0x3c80_0000);
    assert(0xee_0774 * 0x1 - 0xed_5e8d * 0x1 == 0xa8e7);
    lemma_sum_known(0x3eee_0774, 0x3eed_5e8d, true, 0xee_0774, 124, 0xed_5e8d, 124, 0x1, 0x1, 0xa8e7, 16, 0x8000, 0x100);
    assert(sub_spec(0x3eee_0774, 0x3eed_5e8d) == 0x3aa8_e700);
    assert(0xb8_7de3 * 0x1 - 0xb5_c6a9 * 0x1 == 0x2_b73a);
    lemma_sum_known(0x4338_7de3, 0x4335_c6a9, true, 0xb8_7de3, 133, 0xb5_c6a9, 133, 0x1, 0x1, 0x2_b73a, 18, 0x2_0000, 0x40);
    assert(sub_spec(0x4338_7de3, 0x4335_c6a9) == 0x402d_ce80);
    assert(0xad_ce80 * 0xa8_e700 == 0x72ac_5955_8000);
    lemma_product_known(0x402d_ce80, 0x3aa8_e700, 0xad_ce80, 127, 0xa8_e700, 116, 0x72ac_5955_8000, 47, 0x4000_0000_0000, 0x80_0000);
    assert(mul_spec(0x402d_ce80, 0x3aa8_e700) == 0x3b65_58b3);
    assert(0xe5_58b3 * 0x1_0000_0000_0000_0000 == 0x1_cab1_6600_0000_0000 * 0x80_0000 + 0x0);
    lemma_quotient_known(0x3b65_58b3, 0x3c80_0000, 0xe5_58b3, 117, 0x80_0000, 120, 0x1_cab1_6600_0000_0000, 0x0, 66, 0x2_0000_0000_0000_0000, 0x400_0000_0000);
    assert(div_spec(0x3b65_58b3, 0x3c80_0000) == 0x3e65_58b3);
    assert(0xb5_c6a9 * 0x400 + 0xe5_58b3 * 0x1 == 0x2_d7ff_fcb3);
    lemma_sum_known(0x4335_c6a9, 0x3e65_58b3, false, 0xb5_c6a9, 133, 0xe5_58b3, 123, 0x400, 0x1, 0x2_d7ff_fcb3, 34, 0x2_0000_0000, 0x400);
    assert(add_spec(0x4335_c6a9, 0x3e65_58b3) == 0x4335_ffff);
    lemma_whole_known(0x4335_ffff, 0xb5_ffff, 133, 0x1_0000);
}

/// The value 0x3eee_0775.
proof fn lemma_at_3eee0775()
    ensures
        chord_code(0x3eee_0775, 0x3eed_5e8d, 0x3ef5_5e8d, 0x4335_c6a9, 0x4338_7de3) == 182,
{
    reveal(chord_code);
    lemma2_to64();
    lemma2_to64_rest();
    lemma_high_powers();
    assert(0xf5_5e8d * 0x1 - 0xed_5e8d * 0x1 == 0x8_0000);
    lemma_sum_known(0x3ef5_5e8d, 0x3eed_5e8d, true, 0xf5_5e8d, 124, 0xed_5e8d, 124, 0x1, 0x1, 0x8_0000, 20, 0x8_0000, 0x10);
    assert(sub_spec(0x3ef5_5e8d, 0x3eed_5e8d) == 0x3c80_0000);
    assert(0xee_0775 * 0x1 - 0xed_5e8d * 0x1 == 0xa8e8);
    lemma_sum_known(0x3eee_0775, 0x3eed_5e8d, true, 0xee_0775, 124, 0xed_5e8d, 124, 0x1, 0x1, 0xa8e8, 16, 0x8000, 0x100);
    assert(sub_spec(0x3eee_0775, 0x3eed_5e8d) == 0x3aa8_e800);
    assert(0xb8_7de3 * 0x1 - 0xb5_c6a9 * 0x1 == 0x2_b73a);
    lemma_sum_known(0x4338_7de3, 0x4335_c6a9, true, 0xb8_7de3, 133, 0xb5_c6a9, 133, 0x1, 0x1, 0x2_b73a, 18, 0x2_0000, 0x40);
    assert(sub_spec(0x4338_7de3, 0x4335_c6a9) == 0x402d_ce80);
    assert(0xad_ce80 * 0xa8_e800 == 0x72ad_0724_0000);
    lemma_product_known(0x402d_ce80, 0x3aa8_e800, 0xad_ce80, 127, 0xa8_e800, 116, 0x72ad_0724_0000, 47, 0x4000_0000_0000, 0x80_0000);
    assert(mul_spec(0x402d_ce80, 0x3aa8_e800) == 0x3b65_5a0e);
    assert(0xe5_5a0e * 0x1_0000_0000_0000_0000 == 0x1_cab4_1c00_0000_0000 * 0x80_0000 + 0x0);
    lemma_quotient_known(0x3b65_5a0e, 0x3c80_0000, 0xe5_5a0e, 117, 0x80_0000, 120, 0x1_cab4_1c00_0000_0000, 0x0, 66, 0x2_0000_0000_0000_0000, 0x400_0000_0000);
    assert(div_spec(0x3b65_5a0e, 0x3c80_0000) == 0x3e65_5a0e);
    assert(0xb5_c6a9 * 0x400 + 0xe5_5a0e * 0x1 == 0x2_d7ff_fe0e);
    lemma_sum_known(0x4335_c6a9, 0x3e65_5a0e, false, 0xb5_c6a9, 133, 0xe5_5a0e, 123, 0x400, 0x1, 0x2_d7ff_fe0e, 34, 0x2_0000_0000, 0x400);
    assert(add_spec(0x4335_c6a9, 0x3e65_5a0e) == 0x4336_0000);
    lemma_whole_known(0x4336_0000, 0xb6_0000, 133, 0x1_0000);
}

/// The edge of code 181.
proof fn lemma_near_181()
    ensures
        near_exact_edge(0x3eee_0774, 181),
{
    lemma2_to64();
    lemma2_to64_rest();
    lemma_fifth_powers_of_two();
    lemma_more_fifth_powers_of_two();
    assert(195525nat * 195525 * 195525 == 0x1a_8e67_c6aa_b1bd);
    assert(269025nat * 269025 * 269025 == 0x45_2c59_9066_9ca1);
    assert(0x1a_8e67_c6aa_b1bdnat * 0x1a_8e67_c6aa_b1bd == 0x2c1_3c4b_a522_ef19_2ed6_e66a_e589nat);
    assert(0x2c1_3c4b_a522_ef19_2ed6_e66a_e589nat * 0x2c1_3c4b_a522_ef19_2ed6_e66a_e589nat == 0x7_96cd_26d7_162b_75c5_ef52_1f12_d8d7_2754_1b0f_175b_3e21_0f42_6351nat);
    assert(0x45_2c59_9066_9ca1nat * 0x45_2c59_9066_9ca1 == 0x12b0_eff6_c049_6d6d_d948_5020_9d41nat);
    assert(0x12b0_eff6_c049_6d6d_d948_5020_9d41nat * 0x12b0_eff6_c049_6d6d_d948_5020_9d41nat == 0x15d_5c09_8741_6139_2178_92b9_bce5_5f46_89a2_dd05_b95f_0d00_50d8_ca81nat);
    assert(0x4a6_0344nat * 0x4a6_0344 == 0x15_9bc2_5c3a_aa10);
    assert(0x15_9bc2_5c3a_aa10nat * 0x15_9bc2_5c3a_aa10 == 0x1d2_eca8_10de_dab3_57ed_0039_4100nat);
    assert(0x1d2_eca8_10de_dab3_57ed_0039_4100nat * 0x4a6_0344 == 0x8_7a7e_0a0b_40c3_b56c_e95a_2c18_e0f8_4400nat);
    assert(0x4a6_4744nat * 0x4a6_4744 == 0x15_9e3a_a006_ca10);
    assert(0x15_9e3a_a006_ca10nat * 0x15_9e3a_a006_ca10 == 0x1d3_576a_ac12_6f27_cc02_183d_4100nat);
    assert(0x1d3_576a_ac12_6f27_cc02_183d_4100nat * 0x4a6_4744 == 0x8_7cea_733d_abbf_84b7_e1e3_7203_934c_4400nat);
    assert(0x8_7a7e_0a0b_40c3_b56c_e95a_2c18_e0f8_4400nat * 0x15d_5c09_8741_6139_2178_92b9_bce5_5f46_89a2_dd05_b95f_0d00_50d8_ca81nat == 0xb92_0a29_c624_7a14_9138_516a_9df3_341a_d8b3_c5e6_b03b_3d2c_45de_f6fa_3b85_30f8_d830_ea91_8ffb_40c6_a2c2_4400nat);
    assert(0x8_7cea_733d_abbf_84b7_e1e3_7203_934c_4400nat * 0x15d_5c09_8741_6139_2178_92b9_bce5_5f46_89a2_dd05_b95f_0d00_50d8_ca81nat == 0xb95_58d4_3cc5_ee82_564e_f84a_cd1f_57e2_f45e_414c_8637_f3b9_9968_0eb7_8a0a_f4d0_4cb9_ed5b_b813_63a0_c716_4400nat);
    assert(0xc35nat * 0x2000_0000_0000_0000_0000_0000_0000_0000nat == 0x186_a000_0000_0000_0000_0000_0000_0000_0000nat);
    assert(0x7_96cd_26d7_162b_75c5_ef52_1f12_d8d7_2754_1b0f_175b_3e21_0f42_6351nat * 0x186_a000_0000_0000_0000_0000_0000_0000_0000nat == 0xb94_7ac9_63f2_3410_9526_4cae_aa22_1f4c_62b5_c9e7_0399_ad31_e8ac_cb78_a000_0000_0000_0000_0000_0000_0000_0000nat);
    lemma_near_above(
        0x3eee_0774, 0xee_0774, 124, 0x200, 0x186_a000_0000_0000_0000_0000_0000_0000_0000nat, 181,
        195525, 0x1a_8e67_c6aa_b1bd,
        0x2c1_3c4b_a522_ef19_2ed6_e66a_e589nat,
        0x45_2c59_9066_9ca1, 0x12b0_eff6_c049_6d6d_d948_5020_9d41nat,
        0x4a6_0344, 0x15_9bc2_5c3a_aa10, 0x1d2_eca8_10de_dab3_57ed_0039_4100nat,
        0x4a6_4744, 0x15_9e3a_a006_ca10, 0x1d3_576a_ac12_6f27_cc02_183d_4100nat,
    );
}

/// The value 0x3ef0_f995.
proof fn lemma_at_3ef0f995()
    ensures
        chord_code(0x3ef0_f995, 0x3eed_5e8d, 0x3ef5_5e8d, 0x4335_c6a9, 0x4338_7de3) == 182,
{
    reveal(chord_code);
    lemma2_to64();
    lemma2_to64_rest();
    lemma_high_powers();
    assert(0xf5_5e8d * 0x1 - 0xed_5e8d * 0x1 == 0x8_0000);
    lemma_sum_known(0x3ef5_5e8d, 0x3eed_5e8d, true, 0xf5_5e8d, 124, 0xed_5e8d, 124, 0x1, 0x1, 0x8_0000, 20, 0x8_0000, 0x10);
    assert(sub_spec(0x3ef5_5e8d, 0x3eed_5e8d) == 0x3c80_0000);
    assert(0xf0_f995 * 0x1 - 0xed_5e8d * 0x1 == 0x3_9b08);
    lemma_sum_known(0x3ef0_f995, 0x3eed_5e8d, true, 0xf0_f995, 124, 0xed_5e8d, 124, 0x1, 0x1, 0x3_9b08, 18, 0x2_0000, 0x40);
    assert(sub_spec(0x3ef0_f995, 0x3eed_5e8d) == 0x3be6_c200);
    assert(0xb8_7de3 * 0x1 - 0xb5_c6a9 * 0x1 == 0x2_b73a);
    lemma_sum_known(0x4338_7de3, 0x4335_c6a9, true, 0xb8_7de3, 133, 0xb5_c6a9, 133, 0x1, 0x1, 0x2_b73a, 18, 0x2_0000, 0x40);
    assert(sub_spec(0x4338_7de3, 0x4335_c6a9) == 0x402d_ce80);
    assert(0xad_ce80 * 0xe6_c200 == 0x9cab_3d7d_0000);
    lemma_product_known(0x402d_ce80, 0x3be6_c200, 0xad_ce80, 127, 0xe6_c200, 118, 0x9cab_3d7d_0000, 48, 0x8000_0000_0000, 0x100_0000);
    assert(mul_spec(0x402d_ce80, 0x3be6_c200) == 0x3c9c_ab3d);
    assert(0x9c_ab3d * 0x1_0000_0000_0000_0000 == 0x1_3956_7a00_0000_0000 * 0x80_0000 + 0x0);
    lemma_quotient_known(0x3c9c_ab3d, 0x3c80_0000, 0x9c_ab3d, 120, 0x80_0000, 120, 0x1_3956_7a00_0000_0000, 0x0, 66, 0x2_0000_0000_0000_0000, 0x400_0000_0000);
    assert(div_spec(0x3c9c_ab3d, 0x3c80_0000) == 0x3f9c_ab3d);
    assert(0xb5_c6a9 * 0x80 + 0x9c_ab3d * 0x1 == 0x5b7f_ffbd);
    lemma_sum_known(0x4335_c6a9, 0x3f9c_ab3d, false, 0xb5_c6a9, 133, 0x9c_ab3d, 126, 0x80, 0x1, 0x5b7f_ffbd, 31, 0x4000_0000, 0x80);
    assert(add_spec(0x4335_c6a9, 0x3f9c_ab3d) == 0x4336_ffff);
    lemma_whole_known(0x4336_ffff, 0xb6_ffff, 133, 0x1_0000);
}

/// The value 0x3ef0_f996.
proof fn lemma_at_3ef0f996()
    ensures
        chord_code(0x3ef0_f996, 0x3eed_5e8d, 0x3ef5_5e8d, 0x4335_c6a9, 0x4338_7de3) == 183,
{
    reveal(chord_code);
    lemma2_to64();
    lemma2_to64_rest();
    lemma_high_powers();
    assert(0xf5_5e8d * 0x1 - 0xed_5e8d * 0x1 == 0x8_0000);
    lemma_sum_known(0x3ef5_5e8d, 0x3eed_5e8d, true, 0xf5_5e8d, 124, 0xed_5e8d, 124, 0x1, 0x1, 0x8_0000, 20, 0x8_0000, 0x10);
    assert(sub_spec(0x3ef5_5e8d, 0x3eed_5e8d) == 0x3c80_0000);
    assert(0xf0_f996 * 0x1 - 0xed_5e8d * 0x1 == 0x3_9b09);
    lemma_sum_known(0x3ef0_f996, 0x3eed_5e8d, true, 0xf0_f996, 124, 0xed_5e8d, 124, 0x1, 0x1, 0x3_9b09, 18, 0x2_0000, 0x40);
    assert(sub_spec(0x3ef0_f996, 0x3eed_5e8d) == 0x3be6_c240);
    assert(0xb8_7de3 * 0x1 - 0xb5_c6a9 * 0x1 == 0x2_b73a);
    lemma_sum_known(0x4338_7de3, 0x4335_c6a9, true, 0xb8_7de3, 133, 0xb5_c6a9, 133, 0x1, 0x1, 0x2_b73a, 18, 0x2_0000, 0x40);
    assert(sub_spec(0x4338_7de3, 0x4335_c6a9) == 0x402d_ce80);
    assert(0xad_ce80 * 0xe6_c240 == 0x9cab_68f0_a000);
    lemma_product_known(0x402d_ce80, 0x3be6_c240, 0xad_ce80, 127, 0xe6_c240, 118, 0x9cab_68f0_a000, 48, 0x8000_0000_0000, 0x100_0000);
    assert(mul_spec(0x402d_ce80, 0x3be6_c240) == 0x3c9c_ab69);
    assert(0x9c_ab69 * 0x1_0000_0000_0000_0000 == 0x1_3956_d200_0000_0000 * 0x80_0000 + 0x0);
    lemma_quotient_known(0x3c9c_ab69, 0x3c80_0000, 0x9c_ab69, 120, 0x80_0000, 120, 0x1_3956_d200_0000_0000, 0x0, 66, 0x2_0000_0000_0000_0000, 0x400_0000_0000);
    assert(div_spec(0x3c9c_ab69, 0x3c80_0000) == 0x3f9c_ab69);
    assert(0xb5_c6a9 * 0x80 + 0x9c_ab69 * 0x1 == 0x5b7f_ffe9);
    lemma_sum_known(0x4335_c6a9, 0x3f9c_ab69, false, 0xb5_c6a9, 133, 0x9c_ab69, 126, 0x80, 0x1, 0x5b7f_ffe9, 31, 0x4000_0000, 0x80);
    assert(add_spec(0x4335_c6a9, 0x3f9c_ab69) == 0x4337_0000);
    lemma_whole_known(0x4337_0000, 0xb7_0000, 133, 0x1_0000);
}

/// The edge of code 182.
proof fn lemma_near_182()
    ensures
        near_exact_edge(0x3ef0_f995, 182),
{
    lemma2_to64();
    lemma2_to64_rest();
    lemma_fifth_powers_of_two();
    lemma_more_fifth_powers_of_two();
    assert(196525nat * 196525 * 196525 == 0x1a_f73f_f228_4675);
    assert(269025nat * 269025 * 269025 == 0x45_2c59_9066_9ca1);
    assert(0x1a_f73f_f228_4675nat * 0x1a_f73f_f228_4675 == 0x2d7_27c9_a571_1c9c_9f21_4bf4_3179nat);
    assert(0x2d7_27c9_a571_1c9c_9f21_4bf4_3179nat * 0x2d7_27c9_a571_1c9c_9f21_4bf4_3179nat == 0x8_1173_0178_b7ae_2ed1_7667_96f6_b3b5_ff78_03ee_c46a_0d1d_3e37_8b31nat);
    assert(0x45_2c59_9066_9ca1nat * 0x45_2c59_9066_9ca1 == 0x12b0_eff6_c049_6d6d_d948_5020_9d41nat);
    assert(0x12b0_eff6_c049_6d6d_d948_5020_9d41nat * 0x12b0_eff6_c049_6d6d_d948_5020_9d41nat == 0x15d_5c09_8741_6139_2178_92b9_bce5_5f46_89a2_dd05_b95f_0d00_50d8_ca81nat);
    assert(0x4b4_bde9nat * 0x4b4_bde9 == 0x16_258a_e489_de11);
    assert(0x16_258a_e489_de11nat * 0x16_258a_e489_de11 == 0x1ea_7960_b91d_35c6_3221_b6d3_7d21nat);
    assert(0x1ea_7960_b91d_35c6_3221_b6d3_7d21nat * 0x4b4_bde9 == 0x9_042e_b4eb_7f13_f46d_0af6_5f52_0912_4009nat);
    assert(0x4b5_01e9nat * 0x4b5_01e9 == 0x16_280a_fb7d_a611);
    assert(0x16_280a_fb7d_a611nat * 0x16_280a_fb7d_a611 == 0x1ea_e826_a8a8_6bb1_eaa4_ee54_0d21nat);
    assert(0x1ea_e826_a8a8_6bb1_eaa4_ee54_0d21nat * 0x4b5_01e9 == 0x9_06ba_67ad_529b_162b_312f_06ad_0ae2_1409nat);
    assert(0x9_042e_b4eb_7f13_f46d_0af6_5f52_0912_4009nat * 0x15d_5c09_8741_6139_2178_92b9_bce5_5f46_89a2_dd05_b95f_0d00_50d8_ca81nat == 0xc4d_f183_5737_5a03_cabe_2d56_c522_3b7a_61b9_0f56_f3e4_ab94_5b55_eb72_fe2d_21bd_8786_30f2_2f01_93e7_d051_5e89nat);
    assert(0x9_06ba_67ad_529b_162b_312f_06ad_0ae2_1409nat * 0x15d_5c09_8741_6139_2178_92b9_bce5_5f46_89a2_dd05_b95f_0d00_50d8_ca81nat == 0xc51_6ae0_55f3_fbc5_e4c7_3964_108c_99b3_a7e4_019d_5b27_d4ff_fbfd_05be_38cd_ce18_fe47_cf71_04ba_31cc_9753_3289nat);
    assert(0xc35nat * 0x2000_0000_0000_0000_0000_0000_0000_0000nat == 0x186_a000_0000_0000_0000_0000_0000_0000_0000nat);
    assert(0x8_1173_0178_b7ae_2ed1_7667_96f6_b3b5_ff78_03ee_c46a_0d1d_3e37_8b31nat * 0x186_a000_0000_0000_0000_0000_0000_0000_0000nat == 0xc4f_a01c_1ed3_4628_305d_4bd0_ba2f_f794_f081_0034_7452_42bf_0f80_c3a4_a000_0000_0000_0000_0000_0000_0000_0000nat);
    lemma_near_above(
        0x3ef0_f995, 0xf0_f995, 124, 0x200, 0x186_a000_0000_0000_0000_0000_0000_0000_0000nat, 182,
        196525, 0x1a_f73f_f228_4675,
        0x2d7_27c9_a571_1c9c_9f21_4bf4_3179nat,
        0x45_2c59_9066_9ca1, 0x12b0_eff6_c049_6d6d_d948_5020_9d41nat,
        0x4b4_bde9, 0x16_258a_e489_de11, 0x1ea_7960_b91d_35c6_3221_b6d3_7d21nat,
        0x4b5_01e9, 0x16_280a_fb7d_a611, 0x1ea_e826_a8a8_6bb1_eaa4_ee54_0d21nat,
    );
}

/// The value 0x3ef3_ebb5.
proof fn lemma_at_3ef3ebb5()
    ensures
        chord_code(0x3ef3_ebb5, 0x3eed_5e8d, 0x3ef5_5e8d, 0x4335_c6a9, 0x4338_7de3) == 183,
{
    reveal(chord_code);
    lemma2_to64();
    lemma2_to64_rest();
    lemma_high_powers();
    assert(0xf5_5e8d * 0x1 - 0xed_5e8d * 0x1 == 0x8_0000);
    lemma_sum_known(0x3ef5_5e8d, 0x3eed_5e8d, true, 0xf5_5e8d, 124, 0xed_5e8d, 124, 0x1, 0x1, 0x8_0000, 20, 0x8_0000, 0x10);
    assert(sub_spec(0x3ef5_5e8d, 0x3eed_5e8d) == 0x3c80_0000);
    assert(0xf3_ebb5 * 0x1 - 0xed_5e8d * 0x1 == 0x6_8d28);
    lemma_sum_known(0x3ef3_ebb5, 0x3eed_5e8d, true, 0xf3_ebb5, 124, 0xed_5e8d, 124, 0x1, 0x1, 0x6_8d28, 19, 0x4_0000, 0x20);
    assert(sub_spec(0x3ef3_ebb5, 0x3eed_5e8d) == 0x3c51_a500);
    assert(0xb8_7de3 * 0x1 - 0xb5_c6a9 * 0x1 == 0x2_b73a);
    lemma_sum_known(0x4338_7de3, 0x4335_c6a9, true, 0xb8_7de3, 133, 0xb5_c6a9, 133, 0x1, 0x1, 0x2_b73a, 18, 0x2_0000, 0x40);
    assert(sub_spec(0x4338_7de3, 0x4335_c6a9) == 0x402d_ce80);
    assert(0xad_ce80 * 0xd1_a500 == 0x8e55_9c98_8000);
    lemma_product_known(0x402d_ce80, 0x3c51_a500, 0xad_ce80, 127, 0xd1_a500, 119, 0x8e55_9c98_8000, 48, 0x8000_0000_0000, 0x100_0000);
    assert(mul_spec(0x402d_ce80, 0x3c51_a500) == 0x3d0e_559d);
    assert(0x8e_559d * 0x1_0000_0000_0000_0000 == 0x1_1cab_3a00_0000_0000 * 0x80_0000 + 0x0);
    lemma_quotient_known(0x3d0e_559d, 0x3c80_0000, 0x8e_559d, 121, 0x80_0000, 120, 0x1_1cab_3a00_0000_0000, 0x0, 66, 0x2_0000_0000_0000_0000, 0x400_0000_0000);
    assert(div_spec(0x3d0e_559d, 0x3c80_0000) == 0x400e_559d);
    assert(0xb5_c6a9 * 0x40 + 0x8e_559d * 0x1 == 0x2dff_ffdd);
    lemma_sum_known(0x4335_c6a9, 0x400e_559d, false, 0xb5_c6a9, 133, 0x8e_559d, 127, 0x40, 0x1, 0x2dff_ffdd, 30, 0x2000_0000, 0x40);
    assert(add_spec(0x4335_c6a9, 0x400e_559d) == 0x4337_ffff);
    lemma_whole_known(0x4337_ffff, 0xb7_ffff, 133, 0x1_0000);
}

/// The value 0x3ef3_ebb6.
proof fn lemma_at_3ef3ebb6()
    ensures
        chord_code(0x3ef3_ebb6, 0x3eed_5e8d, 0x3ef5_5e8d, 0x4335_c6a9, 0x4338_7de3) == 184,
{
    reveal(chord_code);
    lemma2_to64();
    lemma2_to64_rest();
    lemma_high_powers();
    assert(0xf5_5e8d * 0x1 - 0xed_5e8d * 0x1 == 0x8_0000);
    lemma_sum_known(0x3ef5_5e8d, 0x3eed_5e8d, true, 0xf5_5e8d, 124, 0xed_5e8d, 124, 0x1, 0x1, 0x8_0000, 20, 0x8_0000, 0x10);
    assert(sub_spec(0x3ef5_5e8d, 0x3eed_5e8d) == 0x3c80_0000);
    assert(0xf3_ebb6 * 0x1 - 0xed_5e8d * 0x1 == 0x6_8d29);
    lemma_sum_known(0x3ef3_ebb6, 0x3eed_5e8d, true, 0xf3_ebb6, 124, 0xed_5e8d, 124, 0x1, 0x1, 0x6_8d29, 19, 0x4_0000, 0x20);
    assert(sub_spec(0x3ef3_ebb6, 0x3eed_5e8d) == 0x3c51_a520);
    assert(0xb8_7de3 * 0x1 - 0xb5_c6a9 * 0x1 == 0x2_b73a);
    lemma_sum_known(0x4338_7de3, 0x4335_c6a9, true, 0xb8_7de3, 133, 0xb5_c6a9, 133, 0x1, 0x1, 0x2_b73a, 18, 0x2_0000, 0x40);
    assert(sub_spec(0x4338_7de3, 0x4335_c6a9) == 0x402d_ce80);
    assert(0xad_ce80 * 0xd1_a520 == 0x8e55_b252_5000);
    lemma_product_known(0x402d_ce80, 0x3c51_a520, 0xad_ce80, 127, 0xd1_a520, 119, 0x8e55_b252_5000, 48, 0x8000_0000_0000, 0x100_0000);
    assert(mul_spec(0x402d_ce80, 0x3c51_a520) == 0x3d0e_55b2);
    assert(0x8e_55b2 * 0x1_0000_0000_0000_0000 == 0x1_1cab_6400_0000_0000 * 0x80_0000 + 0x0);
    lemma_quotient_known(0x3d0e_55b2, 0x3c80_0000, 0x8e_55b2, 121, 0x80_0000, 120, 0x1_1cab_6400_0000_0000, 0x0, 66, 0x2_0000_0000_0000_0000, 0x400_0000_0000);
    assert(div_spec(0x3d0e_55b2, 0x3c80_0000) == 0x400e_55b2);
    assert(0xb5_c6a9 * 0x40 + 0x8e_55b2 * 0x1 == 0x2dff_fff2);
    lemma_sum_known(0x4335_c6a9, 0x400e_55b2, false, 0xb5_c6a9, 133, 0x8e_55b2, 127, 0x40, 0x1, 0x2dff_fff2, 30, 0x2000_0000, 0x40);
    assert(add_spec(0x4335_c6a9, 0x400e_55b2) == 0x4338_0000);
    lemma_whole_known(0x4338_0000, 0xb8_0000, 133, 0x1_0000);
}

/// The edge of code 183.
proof fn lemma_near_183()
    ensures
        near_exact_edge(0x3ef3_ebb5, 183),
{
    lemma2_to64();
    lemma2_to64_rest();
    lemma_fifth_powers_of_two();
    lemma_more_fifth_powers_of_two();
    assert(197525nat * 197525 * 197525 == 0x1b_612a_a876_faad);
    assert(269025nat * 269025 * 269025 == 0x45_2c59_9066_9ca1);
    assert(0x1b_612a_a876_faadnat * 0x1b_612a_a876_faad == 0x2ed_a3e0_e3de_c05b_bb13_1cf2_58e9nat);
    assert(0x2ed_a3e0_e3de_c05b_bb13_1cf2_58e9nat * 0x2ed_a3e0_e3de_c05b_bb13_1cf2_58e9nat == 0x8_9328_5add_8d2e_d25e_e98d_f7d1_9cb5_7f76_717c_12c9_8175_2f65_0411nat);
    assert(0x45_2c59_9066_9ca1nat * 0x45_2c59_9066_9ca1 == 0x12b0_eff6_c049_6d6d_d948_5020_9d41nat);
    assert(0x12b0_eff6_c049_6d6d_d948_5020_9d41nat * 0x12b0_eff6_c049_6d6d_d948_5020_9d41nat == 0x15d_5c09_8741_6139_2178_92b9_bce5_5f46_89a2_dd05_b95f_0d00_50d8_ca81nat);
    assert(0x4c3_7889nat * 0x4c3_7889 == 0x16_b105_2176_b951);
    assert(0x16_b105_2176_b951nat * 0x16_b105_2176_b951 == 0x202_e749_d8c8_5931_1200_3ed2_2ba1nat);
    assert(0x202_e749_d8c8_5931_1200_3ed2_2ba1nat * 0x4c3_7889 == 0x9_94c5_c49b_a623_a1af_72dd_e259_e28f_d129nat);
    assert(0x4c3_bc89nat * 0x4c3_bc89 == 0x16_b38d_0b8f_8151);
    assert(0x16_b38d_0b8f_8151nat * 0x16_b38d_0b8f_8151 == 0x203_5a2c_888a_a55d_5ec8_afd0_bba1nat);
    assert(0x203_5a2c_888a_a55d_5ec8_afd0_bba1nat * 0x4c3_bc89 == 0x9_9771_ec12_224c_4f3d_6630_4970_d021_a529nat);
    assert(0x9_94c5_c49b_a623_a1af_72dd_e259_e28f_d129nat * 0x15d_5c09_8741_6139_2178_92b9_bce5_5f46_89a2_dd05_b95f_0d00_50d8_ca81nat == 0xd13_436f_65b4_0c28_61e5_c7b4_0543_fbda_8095_d170_5291_b98f_0913_54b1_ced9_d85c_2f5c_38d2_95e4_2bc5_f01a_bfa9nat);
    assert(0x9_9771_ec12_224c_4f3d_6630_4970_d021_a529nat * 0x15d_5c09_8741_6139_2178_92b9_bce5_5f46_89a2_dd05_b95f_0d00_50d8_ca81nat == 0xd16_e917_29e0_beef_4c68_b811_9a12_bdc6_7403_b755_0310_c37c_c655_64ec_7ba2_e64c_56e6_9679_711c_3b13_97de_93a9nat);
    assert(0xc35nat * 0x2000_0000_0000_0000_0000_0000_0000_0000nat == 0x186_a000_0000_0000_0000_0000_0000_0000_0000nat);
    assert(0x8_9328_5add_8d2e_d25e_e98d_f7d1_9cb5_7f76_717c_12c9_8175_2f65_0411nat * 0x186_a000_0000_0000_0000_0000_0000_0000_0000nat == 0xd15_8b73_a64f_8d91_c013_2040_4437_be71_9e1a_e9f2_2ab9_296f_7183_5470_a000_0000_0000_0000_0000_0000_0000_0000nat);
    lemma_near_above(
        0x3ef3_ebb5, 0xf3_ebb5, 124, 0x200, 0x186_a000_0000_0000_0000_0000_0000_0000_0000nat, 183,
        197525, 0x1b_612a_a876_faad,
        0x2ed_a3e0_e3de_c05b_bb13_1cf2_58e9nat,
        0x45_2c59_9066_9ca1, 0x12b0_eff6_c049_6d6d_d948_5020_9d41nat,
        0x4c3_7889, 0x16_b105_2176_b951, 0x202_e749_d8c8_5931_1200_3ed2_2ba1nat,
        0x4c3_bc89, 0x16_b38d_0b8f_8151, 0x203_5a2c_888a_a55d_5ec8_afd0_bba1nat,
    );
}

/// The value 0x3ef6_e4d7.
proof fn lemma_at_3ef6e4d7()
    ensures
        chord_code(0x3ef6_e4d7, 0x3ef5_5e8d, 0x3efd_5e8d, 0x4338_7de3, 0x433b_28a1) == 184,
{
    reveal(chord_code);
    lemma2_to64();
    lemma2_to64_rest();
    lemma_high_powers();
    assert(0xfd_5e8d * 0x1 - 0xf5_5e8d * 0x1 == 0x8_0000);
    lemma_sum_known(0x3efd_5e8d, 0x3ef5_5e8d, true, 0xfd_5e8d, 124, 0xf5_5e8d, 124, 0x1, 0x1, 0x8_0000, 20, 0x8_0000, 0x10);
    assert(sub_spec(0x3efd_5e8d, 0x3ef5_5e8d) == 0x3c80_0000);
    assert(0xf6_e4d7 * 0x1 - 0xf5_5e8d * 0x1 == 0x1_864a);
    lemma_sum_known(0x3ef6_e4d7, 0x3ef5_5e8d, true, 0xf6_e4d7, 124, 0xf5_5e8d, 124, 0x1, 0x1, 0x1_864a, 17, 0x1_0000, 0x80);
    assert(sub_spec(0x3ef6_e4d7, 0x3ef5_5e8d) == 0x3b43_2500);
    assert(0xbb_28a1 * 0x1 - 0xb8_7de3 * 0x1 == 0x2_aabe);
    lemma_sum_known(0x433b_28a1, 0x4338_7de3, true, 0xbb_28a1, 133, 0xb8_7de3, 133, 0x1, 0x1, 0x2_aabe, 18, 0x2_0000, 0x40);
    assert(sub_spec(0x433b_28a1, 0x4338_7de3) == 0x402a_af80);
    assert(0xaa_af80 * 0xc3_2500 == 0x821c_59dd_8000);
    lemma_product_known(0x402a_af80, 0x3b43_2500, 0xaa_af80, 127, 0xc3_2500, 117, 0x821c_59dd_8000, 48, 0x8000_0000_0000, 0x100_0000);
    assert(mul_spec(0x402a_af80, 0x3b43_2500) == 0x3c02_1c5a);
    assert(0x82_1c5a * 0x1_0000_0000_0000_0000 == 0x1_0438_b400_0000_0000 * 0x80_0000 + 0x0);
    lemma_quotient_known(0x3c02_1c5a, 0x3c80_0000, 0x82_1c5a, 119, 0x80_0000, 120, 0x1_0438_b400_0000_0000, 0x0, 66, 0x2_0000_0000_0000_0000, 0x400_0000_0000);
    assert(div_spec(0x3c02_1c5a, 0x3c80_0000) == 0x3f02_1c5a);
    assert(0xb8_7de3 * 0x100 + 0x82_1c5a * 0x1 == 0xb8ff_ff5a);
    lemma_sum_known(0x4338_7de3, 0x3f02_1c5a, false, 0xb8_7de3, 133, 0x82_1c5a, 125, 0x100, 0x1, 0xb8ff_ff5a, 32, 0x8000_0000, 0x100);
    assert(add_spec(0x4338_7de3, 0x3f02_1c5a) == 0x4338_ffff);
    lemma_whole_known(0x4338_ffff, 0xb8_ffff, 133, 0x1_0000);
}

/// The value 0x3ef6_e4d8.
proof fn lemma_at_3ef6e4d8()
    ensures
        chord_code(0x3ef6_e4d8, 0x3ef5_5e8d, 0x3efd_5e8d, 0x4338_7de3, 0x433b_28a1) == 185,
{
    reveal(chord_code);
    lemma2_to64();
    lemma2_to64_rest();
    lemma_high_powers();
    assert(0xfd_5e8d * 0x1 - 0xf5_5e8d * 0x1 == 0x8_0000);
    lemma_sum_known(0x3efd_5e8d, 0x3ef5_5e8d, true, 0xfd_5e8d, 124, 0xf5_5e8d, 124, 0x1, 0x1, 0x8_0000, 20, 0x8_0000, 0x10);
    assert(sub_spec(0x3efd_5e8d, 0x3ef5_5e8d) == 0x3c80_0000);
    assert(0xf6_e4d8 * 0x1 - 0xf5_5e8d * 0x1 == 0x1_864b);
    lemma_sum_known(0x3ef6_e4d8, 0x3ef5_5e8d, true, 0xf6_e4d8, 124, 0xf5_5e8d, 124, 0x1, 0x1, 0x1_864b, 17, 0x1_0000, 0x80);
    assert(sub_spec(0x3ef6_e4d8, 0x3ef5_5e8d) == 0x3b43_2580);
    assert(0xbb_28a1 * 0x1 - 0xb8_7de3 * 0x1 == 0x2_aabe);
    lemma_sum_known(0x433b_28a1, 0x4338_7de3, true, 0xbb_28a1, 133, 0xb8_7de3, 133, 0x1, 0x1, 0x2_aabe, 18, 0x2_0000, 0x40);
    assert(sub_spec(0x433b_28a1, 0x4338_7de3) == 0x402a_af80);
    assert(0xaa_af80 * 0xc3_2580 == 0x821c_af35_4000);
    lemma_product_known(0x402a_af80, 0x3b43_2580, 0xaa_af80, 127, 0xc3_2580, 117, 0x821c_af35_4000, 48, 0x8000_0000_0000, 0x100_0000);
    assert(mul_spec(0x402a_af80, 0x3b43_2580) == 0x3c02_1caf);
    assert(0x82_1caf * 0x1_0000_0000_0000_0000 == 0x1_0439_5e00_0000_0000 * 0x80_0000 + 0x0);
    lemma_quotient_known(0x3c02_1caf, 0x3c80_0000, 0x82_1caf, 119, 0x80_0000, 120, 0x1_0439_5e00_0000_0000, 0x0, 66, 0x2_0000_0000_0000_0000, 0x400_0000_0000);
    assert(div_spec(0x3c02_1caf, 0x3c80_0000) == 0x3f02_1caf);
    assert(0xb8_7de3 * 0x100 + 0x82_1caf * 0x1 == 0xb8ff_ffaf);
    lemma_sum_known(0x4338_7de3, 0x3f02_1caf, false, 0xb8_7de3, 133, 0x82_1caf, 125, 0x100, 0x1, 0xb8ff_ffaf, 32, 0x8000_0000, 0x100);
    assert(add_spec(0x4338_7de3, 0x3f02_1caf) == 0x4339_0000);
    lemma_whole_known(0x4339_0000, 0xb9_0000, 133, 0x1_0000);
}

/// The edge of code 184.
proof fn lemma_near_184()
    ensures
        near_exact_edge(0x3ef6_e4d7, 184),
{
    lemma2_to64();
    lemma2_to64_rest();
    lemma_fifth_powers_of_two();
    lemma_more_fifth_powers_of_two();
    assert(198525nat * 198525 * 198525 == 0x1b_cc29_4f37_8a65);
    assert(269025nat * 269025 * 269025 == 0x45_2c59_9066_9ca1);
    assert(0x1b_cc29_4f37_8a65nat * 0x1b_cc29_4f37_8a65 == 0x304_b388_92a2_2e2c_9fd1_1837_0bd9nat);
    assert(0x304_b388_92a2_2e2c_9fd1_1837_0bd9nat * 0x304_b388_92a2_2e2c_9fd1_1837_0bd9nat == 0x9_1c4b_4d9c_a811_6a04_bf6b_a11e_ff4d_f418_04ae_fb7b_4460_c7ca_5df1nat);
    assert(0x45_2c59_9066_9ca1nat * 0x45_2c59_9066_9ca1 == 0x12b0_eff6_c049_6d6d_d948_5020_9d41nat);
    assert(0x12b0_eff6_c049_6d6d_d948_5020_9d41nat * 0x12b0_eff6_c049_6d6d_d948_5020_9d41nat == 0x15d_5c09_8741_6139_2178_92b9_bce5_5f46_89a2_dd05_b95f_0d00_50d8_ca81nat);
    assert(0x4d2_5633nat * 0x4d2_5633 == 0x17_3f83_20b2_4e29);
    assert(0x17_3f83_20b2_4e29nat * 0x17_3f83_20b2_4e29 == 0x21c_7951_ad4c_487f_3bb1_08e1_0291nat);
    assert(0x21c_7951_ad4c_487f_3bb1_08e1_0291nat * 0x4d2_5633 == 0xa_2df6_c822_f532_9bda_eac3_29de_baa2_38e3nat);
    assert(0x4d2_9a33nat * 0x4d2_9a33 == 0x17_4212_f08d_6629);
    assert(0x17_4212_f08d_6629nat * 0x17_4212_f08d_6629 == 0x21c_f074_fed7_f9f6_ef6a_91ee_b291nat);
    assert(0x21c_f074_fed7_f9f6_ef6a_91ee_b291nat * 0x4d2_9a33 == 0xa_30c4_e85e_b5af_99b3_67eb_3e9d_68ea_cce3nat);
    assert(0xa_2df6_c822_f532_9bda_eac3_29de_baa2_38e3nat * 0x15d_5c09_8741_6139_2178_92b9_bce5_5f46_89a2_dd05_b95f_0d00_50d8_ca81nat == 0xde4_5254_8618_8c3a_9aea_24ef_0c9b_49e4_5f67_0de7_2586_c8f7_7e4c_14f7_dd82_36bc_fa22_3887_9dc2_8a26_fc29_c863nat);
    assert(0xa_30c4_e85e_b5af_99b3_67eb_3e9d_68ea_cce3nat * 0x15d_5c09_8741_6139_2178_92b9_bce5_5f46_89a2_dd05_b95f_0d00_50d8_ca81nat == 0xde8_2658_a5dd_fc4d_c6d2_fd63_5fa3_3449_7c99_7444_180f_9432_a8b9_bff1_fc72_180d_ae22_c86a_0231_2f3e_f384_5c63nat);
    assert(0xc35nat * 0x2000_0000_0000_0000_0000_0000_0000_0000nat == 0x186_a000_0000_0000_0000_0000_0000_0000_0000nat);
    assert(0x9_1c4b_4d9c_a811_6a04_bf6b_a11e_ff4d_f418_04ae_fb7b_4460_c7ca_5df1nat * 0x186_a000_0000_0000_0000_0000_0000_0000_0000nat == 0xde6_cc67_4d29_f392_657e_959a_b9ec_5052_9526_2580_7af7_362c_db29_97dc_a000_0000_0000_0000_0000_0000_0000_0000nat);
    lemma_near_above(
        0x3ef6_e4d7, 0xf6_e4d7, 124, 0x200, 0x186_a000_0000_0000_0000_0000_0000_0000_0000nat, 184,
        198525, 0x1b_cc29_4f37_8a65,
        0x304_b388_92a2_2e2c_9fd1_1837_0bd9nat,
        0x45_2c59_9066_9ca1, 0x12b0_eff6_c049_6d6d_d948_5020_9d41nat,
        0x4d2_5633, 0x17_3f83_20b2_4e29, 0x21c_7951_ad4c_487f_3bb1_08e1_0291nat,
        0x4d2_9a33, 0x17_4212_f08d_6629, 0x21c_f074_fed7_f9f6_ef6a_91ee_b291nat,
    );
}

/// The value 0x3ef9_e4c1.
proof fn lemma_at_3ef9e4c1()
    ensures
        chord_code(0x3ef9_e4c1, 0x3ef5_5e8d, 0x3efd_5e8d, 0x4338_7de3, 0x433b_28a1) == 185,
{
    reveal(chord_code);
    lemma2_to64();
    lemma2_to64_rest();
    lemma_high_powers();
    assert(0xfd_5e8d * 0x1 - 0xf5_5e8d * 0x1 == 0x8_0000);
    lemma_sum_known(0x3efd_5e8d, 0x3ef5_5e8d, true, 0xfd_5e8d, 124, 0xf5_5e8d, 124, 0x1, 0x1, 0x8_0000, 20, 0x8_0000, 0x10);
    assert(sub_spec(0x3efd_5e8d, 0x3ef5_5e8d) == 0x3c80_0000);
    assert(0xf9_e4c1 * 0x1 - 0xf5_5e8d * 0x1 == 0x4_8634);
    lemma_sum_known(0x3ef9_e4c1, 0x3ef5_5e8d, true, 0xf9_e4c1, 124, 0xf5_5e8d, 124, 0x1, 0x1, 0x4_8634, 19, 0x4_0000, 0x20);
    assert(sub_spec(0x3ef9_e4c1, 0x3ef5_5e8d) == 0x3c10_c680);
    assert(0xbb_28a1 * 0x1 - 0xb8_7de3 * 0x1 == 0x2_aabe);
    lemma_sum_known(0x433b_28a1, 0x4338_7de3, true, 0xbb_28a1, 133, 0xb8_7de3, 133, 0x1, 0x1, 0x2_aabe, 18, 0x2_0000, 0x40);
    assert(sub_spec(0x433b_28a1, 0x4338_7de3) == 0x402a_af80);
    assert(0xaa_af80 * 0x90_c680 == 0x6087_1114_c000);
    lemma_product_known(0x402a_af80, 0x3c10_c680, 0xaa_af80, 127, 0x90_c680, 119, 0x6087_1114_c000, 47, 0x4000_0000_0000, 0x80_0000);
    assert(mul_spec(0x402a_af80, 0x3c10_c680) == 0x3cc1_0e22);
    assert(0xc1_0e22 * 0x1_0000_0000_0000_0000 == 0x1_821c_4400_0000_0000 * 0x80_0000 + 0x0);
    lemma_quotient_known(0x3cc1_0e22, 0x3c80_0000, 0xc1_0e22, 120, 0x80_0000, 120, 0x1_821c_4400_0000_0000, 0x0, 66, 0x2_0000_0000_0000_0000, 0x400_0000_0000);
    assert(div_spec(0x3cc1_0e22, 0x3c80_0000) == 0x3fc1_0e22);
    assert(0xb8_7de3 * 0x80 + 0xc1_0e22 * 0x1 == 0x5cff_ffa2);
    lemma_sum_known(0x4338_7de3, 0x3fc1_0e22, false, 0xb8_7de3, 133, 0xc1_0e22, 126, 0x80, 0x1, 0x5cff_ffa2, 31, 0x4000_0000, 0x80);
    assert(add_spec(0x4338_7de3, 0x3fc1_0e22) == 0x4339_ffff);
    lemma_whole_known(0x4339_ffff, 0xb9_ffff, 133, 0x1_0000);
}

/// The value 0x3ef9_e4c2.
proof fn lemma_at_3ef9e4c2()
    ensures
        chord_code(0x3ef9_e4c2, 0x3ef5_5e8d, 0x3efd_5e8d, 0x4338_7de3, 0x433b_28a1) == 186,
{
    reveal(chord_code);
    lemma2_to64();
    lemma2_to64_rest();
    lemma_high_powers();
    assert(0xfd_5e8d * 0x1 - 0xf5_5e8d * 0x1 == 0x8_0000);
    lemma_sum_known(0x3efd_5e8d, 0x3ef5_5e8d, true, 0xfd_5e8d, 124, 0xf5_5e8d, 124, 0x1, 0x1, 0x8_0000, 20, 0x8_0000, 0x10);
    assert(sub_spec(0x3efd_5e8d, 0x3ef5_5e8d) == 0x3c80_0000);
    assert(0xf9_e4c2 * 0x1 - 0xf5_5e8d * 0x1 == 0x4_8635);
    lemma_sum_known(0x3ef9_e4c2, 0x3ef5_5e8d, true, 0xf9_e4c2, 124, 0xf5_5e8d, 124, 0x1, 0x1, 0x4_8635, 19, 0x4_0000, 0x20);
    assert(sub_spec(0x3ef9_e4c2, 0x3ef5_5e8d) == 0x3c10_c6a0);
    assert(0xbb_28a1 * 0x1 - 0xb8_7de3 * 0x1 == 0x2_aabe);
    lemma_sum_known(0x433b_28a1, 0x4338_7de3, true, 0xbb_28a1, 133, 0xb8_7de3, 133, 0x1, 0x1, 0x2_aabe, 18, 0x2_0000, 0x40);
    assert(sub_spec(0x433b_28a1, 0x4338_7de3) == 0x402a_af80);
    assert(0xaa_af80 * 0x90_c6a0 == 0x6087_266a_b000);
    lemma_product_known(0x402a_af80, 0x3c10_c6a0, 0xaa_af80, 127, 0x90_c6a0, 119, 0x6087_266a_b000, 47, 0x4000_0000_0000, 0x80_0000);
    assert(mul_spec(0x402a_af80, 0x3c10_c6a0) == 0x3cc1_0e4d);
    assert(0xc1_0e4d * 0x1_0000_0000_0000_0000 == 0x1_821c_9a00_0000_0000 * 0x80_0000 + 0x0);
    lemma_quotient_known(0x3cc1_0e4d, 0x3c80_0000, 0xc1_0e4d, 120, 0x80_0000, 120, 0x1_821c_9a00_0000_0000, 0x0, 66, 0x2_0000_0000_0000_0000, 0x400_0000_0000);
    assert(div_spec(0x3cc1_0e4d, 0x3c80_0000) == 0x3fc1_0e4d);
    assert(0xb8_7de3 * 0x80 + 0xc1_0e4d * 0x1 == 0x5cff_ffcd);
    lemma_sum_known(0x4338_7de3, 0x3fc1_0e4d, false, 0xb8_7de3, 133, 0xc1_0e4d, 126, 0x80, 0x1, 0x5cff_ffcd, 31, 0x4000_0000, 0x80);
    assert(add_spec(0x4338_7de3, 0x3fc1_0e4d) == 0x433a_0000);
    lemma_whole_known(0x433a_0000, 0xba_0000, 133, 0x1_0000);
}

/// The edge of code 185.
proof fn lemma_near_185()
    ensures
        near_exact_edge(0x3ef9_e4c1, 185),
{
    lemma2_to64();
    lemma2_to64_rest();
    lemma_fifth_powers_of_two();
    lemma_more_fifth_powers_of_two();
    assert(199525nat * 199525 * 199525 == 0x1c_383d_4c0a_b19d);
    assert(269025nat * 269025 * 269025 == 0x45_2c59_9066_9ca1);
    assert(0x1c_383d_4c0a_b19dnat * 0x1c_383d_4c0a_b19d == 0x31c_59c3_8248_dbbb_aeb9_937e_7a49nat);
    assert(0x31c_59c3_8248_dbbb_aeb9_937e_7a49nat * 0x31c_59c3_8248_dbbb_aeb9_937e_7a49nat == 0x9_ad3e_574b_bafc_dd3b_e55d_656e_8266_b545_9815_fca8_786e_7045_a8d1nat);
    assert(0x45_2c59_9066_9ca1nat * 0x45_2c59_9066_9ca1 == 0x12b0_eff6_c049_6d6d_d948_5020_9d41nat);
    assert(0x12b0_eff6_c049_6d6d_d948_5020_9d41nat * 0x12b0_eff6_c049_6d6d_d948_5020_9d41nat == 0x15d_5c09_8741_6139_2178_92b9_bce5_5f46_89a2_dd05_b95f_0d00_50d8_ca81nat);
    assert(0x4e1_55c5nat * 0x4e1_55c5 == 0x17_d106_0906_6999);
    assert(0x17_d106_0906_6999nat * 0x17_d106_0906_6999 == 0x237_39c0_7a07_de88_38c1_e0ba_dd71nat);
    assert(0x237_39c0_7a07_de88_38c1_e0ba_dd71nat * 0x4e1_55c5 == 0xa_d02e_cebf_ba07_3b8e_6395_7c82_5fa3_ecf5nat);
    assert(0x4e1_99c5nat * 0x4e1_99c5 == 0x17_d39d_d0a7_1199);
    assert(0x17_d39d_d0a7_1199nat * 0x17_d39d_d0a7_1199 == 0x237_b549_0542_277b_b54a_96d3_ad71nat);
    assert(0x237_b549_0542_277b_b54a_96d3_ad71nat * 0x4e1_99c5 == 0xa_d320_7979_cd18_3810_d275_f54b_c7de_00f5nat);
    assert(0xa_d02e_cebf_ba07_3b8e_6395_7c82_5fa3_ecf5nat * 0x15d_5c09_8741_6139_2178_92b9_bce5_5f46_89a2_dd05_b95f_0d00_50d8_ca81nat == 0xec1_b307_b5de_6da9_6f3e_922c_14be_7422_2ca0_f32a_4b49_a4e4_eaa2_42cf_fd76_d744_a684_cf14_3d69_fa86_094b_b975nat);
    assert(0xa_d320_7979_cd18_3810_d275_f54b_c7de_00f5nat * 0x15d_5c09_8741_6139_2178_92b9_bce5_5f46_89a2_dd05_b95f_0d00_50d8_ca81nat == 0xec5_b78c_6af2_7cb9_2696_55b9_de87_1419_19e5_3180_cd62_ee2e_098b_017e_4c74_cfe7_139e_efbc_755b_db82_4257_cd75nat);
    assert(0xc35nat * 0x2000_0000_0000_0000_0000_0000_0000_0000nat == 0x186_a000_0000_0000_0000_0000_0000_0000_0000nat);
    assert(0x9_ad3e_574b_bafc_dd3b_e55d_656e_8266_b545_9815_fca8_786e_7045_a8d1nat * 0x186_a000_0000_0000_0000_0000_0000_0000_0000nat == 0xec3_f93f_f3ee_3217_1384_dba2_e5bf_b9f8_5951_308c_a690_c384_104a_b7e8_a000_0000_0000_0000_0000_0000_0000_0000nat);
    lemma_near_above(
        0x3ef9_e4c1, 0xf9_e4c1, 124, 0x200, 0x186_a000_0000_0000_0000_0000_0000_0000_0000nat, 185,
        199525, 0x1c_383d_4c0a_b19d,
        0x31c_59c3_8248_dbbb_aeb9_937e_7a49nat,
        0x45_2c59_9066_9ca1, 0x12b0_eff6_c049_6d6d_d948_5020_9d41nat,
        0x4e1_55c5, 0x17_d106_0906_6999, 0x237_39c0_7a07_de88_38c1_e0ba_dd71nat,
        0x4e1_99c5, 0x17_d39d_d0a7_1199, 0x237_b549_0542_277b_b54a_96d3_ad71nat,
    );
}

/// The value 0x3efc_e4ab.
proof fn lemma_at_3efce4ab()
    ensures
        chord_code(0x3efc_e4ab, 0x3ef5_5e8d, 0x3efd_5e8d, 0x4338_7de3, 0x433b_28a1) == 186,
{
    reveal(chord_code);
    lemma2_to64();
    lemma2_to64_rest();
    lemma_high_powers();
    assert(0xfd_5e8d * 0x1 - 0xf5_5e8d * 0x1 == 0x8_0000);
    lemma_sum_known(0x3efd_5e8d, 0x3ef5_5e8d, true, 0xfd_5e8d, 124, 0xf5_5e8d, 124, 0x1, 0x1, 0x8_0000, 20, 0x8_0000, 0x10);
    assert(sub_spec(0x3efd_5e8d, 0x3ef5_5e8d) == 0x3c80_0000);
    assert(0xfc_e4ab * 0x1 - 0xf5_5e8d * 0x1 == 0x7_861e);
    lemma_sum_known(0x3efc_e4ab, 0x3ef5_5e8d, true, 0xfc_e4ab, 124, 0xf5_5e8d, 124, 0x1, 0x1, 0x7_861e, 19, 0x4_0000, 0x20);
    assert(sub_spec(0x3efc_e4ab, 0x3ef5_5e8d) == 0x3c70_c3c0);
    assert(0xbb_28a1 * 0x1 - 0xb8_7de3 * 0x1 == 0x2_aabe);
    lemma_sum_known(0x433b_28a1, 0x4338_7de3, true, 0xbb_28a1, 133, 0xb8_7de3, 133, 0x1, 0x1, 0x2_aabe, 18, 0x2_0000, 0x40);
    assert(sub_spec(0x433b_28a1, 0x4338_7de3) == 0x402a_af80);
    assert(0xaa_af80 * 0xf0_c3c0 == 0xa087_0bb2_2000);
    lemma_product_known(0x402a_af80, 0x3c70_c3c0, 0xaa_af80, 127, 0xf0_c3c0, 119, 0xa087_0bb2_2000, 48, 0x8000_0000_0000, 0x100_0000);
    assert(mul_spec(0x402a_af80, 0x3c70_c3c0) == 0x3d20_870c);
    assert(0xa0_870c * 0x1_0000_0000_0000_0000 == 0x1_410e_1800_0000_0000 * 0x80_0000 + 0x0);
    lemma_quotient_known(0x3d20_870c, 0x3c80_0000, 0xa0_870c, 121, 0x80_0000, 120, 0x1_410e_1800_0000_0000, 0x0, 66, 0x2_0000_0000_0000_0000, 0x400_0000_0000);
    assert(div_spec(0x3d20_870c, 0x3c80_0000) == 0x4020_870c);
    assert(0xb8_7de3 * 0x40 + 0xa0_870c * 0x1 == 0x2ebf_ffcc);
    lemma_sum_known(0x4338_7de3, 0x4020_870c, false, 0xb8_7de3, 133, 0xa0_870c, 127, 0x40, 0x1, 0x2ebf_ffcc, 30, 0x2000_0000, 0x40);
    assert(add_spec(0x4338_7de3, 0x4020_870c) == 0x433a_ffff);
    lemma_whole_known(0x433a_ffff, 0xba_ffff, 133, 0x1_0000);
}

/// The value 0x3efc_e4ac.
proof fn lemma_at_3efce4ac()
    ensures
        chord_code(0x3efc_e4ac, 0x3ef5_5e8d, 0x3efd_5e8d, 0x4338_7de3, 0x433b_28a1) == 187,
{
    reveal(chord_code);
    lemma2_to64();
    lemma2_to64_rest();
    lemma_high_powers();
    assert(0xfd_5e8d * 0x1 - 0xf5_5e8d * 0x1 == 0x8_0000);
    lemma_sum_known(0x3efd_5e8d, 0x3ef5_5e8d, true, 0xfd_5e8d, 124, 0xf5_5e8d, 124, 0x1, 0x1, 0x8_0000, 20, 0x8_0000, 0x10);
    assert(sub_spec(0x3efd_5e8d, 0x3ef5_5e8d) == 0x3c80_0000);
    assert(0xfc_e4ac * 0x1 - 0xf5_5e8d * 0x1 == 0x7_861f);
    lemma_sum_known(0x3efc_e4ac, 0x3ef5_5e8d, true, 0xfc_e4ac, 124, 0xf5_5e8d, 124, 0x1, 0x1, 0x7_861f, 19, 0x4_0000, 0x20);
    assert(sub_spec(0x3efc_e4ac, 0x3ef5_5e8d) == 0x3c70_c3e0);
    assert(0xbb_28a1 * 0x1 - 0xb8_7de3 * 0x1 == 0x2_aabe);
    lemma_sum_known(0x433b_28a1, 0x4338_7de3, true, 0xbb_28a1, 133, 0xb8_7de3, 133, 0x1, 0x1, 0x2_aabe, 18, 0x2_0000, 0x40);
    assert(sub_spec(0x433b_28a1, 0x4338_7de3) == 0x402a_af80);
    assert(0xaa_af80 * 0xf0_c3e0 == 0xa087_2108_1000);
    lemma_product_known(0x402a_af80, 0x3c70_c3e0, 0xaa_af80, 127, 0xf0_c3e0, 119, 0xa087_2108_1000, 48, 0x8000_0000_0000, 0x100_0000);
    assert(mul_spec(0x402a_af80, 0x3c70_c3e0) == 0x3d20_8721);
    assert(0xa0_8721 * 0x1_0000_0000_0000_0000 == 0x1_410e_4200_0000_0000 * 0x80_0000 + 0x0);
    lemma_quotient_known(0x3d20_8721, 0x3c80_0000, 0xa0_8721, 121, 0x80_0000, 120, 0x1_410e_4200_0000_0000, 0x0, 66, 0x2_0000_0000_0000_0000, 0x400_0000_0000);
    assert(div_spec(0x3d20_8721, 0x3c80_0000) == 0x4020_8721);
    assert(0xb8_7de3 * 0x40 + 0xa0_8721 * 0x1 == 0x2ebf_ffe1);
    lemma_sum_known(0x4338_7de3, 0x4020_8721, false, 0xb8_7de3, 133, 0xa0_8721, 127, 0x40, 0x1, 0x2ebf_ffe1, 30, 0x2000_0000, 0x40);
    assert(add_spec(0x4338_7de3, 0x4020_8721) == 0x433b_0000);
    lemma_whole_known(0x433b_0000, 0xbb_0000, 133, 0x1_0000);
}

/// The edge of code 186.
proof fn lemma_near_186()
    ensures
        near_exact_edge(0x3efc_e4ab, 186),
{
    lemma2_to64();
    lemma2_to64_rest();
    lemma_fifth_powers_of_two();
    lemma_more_fifth_powers_of_two();
    assert(200525nat * 200525 * 200525 == 0x1c_a568_0491_2c55);
    assert(269025nat * 269025 * 269025 == 0x45_2c59_9066_9ca1);
    assert(0x1c_a568_0491_2c55nat * 0x1c_a568_0491_2c55 == 0x334_99a0_3fe8_8bc6_72c5_e7f7_5439nat);
    assert(0x334_99a0_3fe8_8bc6_72c5_e7f7_5439nat * 0x334_99a0_3fe8_8bc6_72c5_e7f7_5439nat == 0xa_4668_86ca_5a73_5905_791f_5f99_ae56_3c7a_f8f3_4a06_acac_7fb3_74b1nat);
    assert(0x45_2c59_9066_9ca1nat * 0x45_2c59_9066_9ca1 == 0x12b0_eff6_c049_6d6d_d948_5020_9d41nat);
    assert(0x12b0_eff6_c049_6d6d_d948_5020_9d41nat * 0x12b0_eff6_c049_6d6d_d948_5020_9d41nat == 0x15d_5c09_8741_6139_2178_92b9_bce5_5f46_89a2_dd05_b95f_0d00_50d8_ca81nat);
    assert(0x4f0_5557nat * 0x4f0_5557 == 0x18_644a_d792_e391);
    assert(0x18_644a_d792_e391nat * 0x18_644a_d792_e391 == 0x252_f552_f9d6_c36c_e659_e9ae_7821nat);
    assert(0x252_f552_f9d6_c36c_e659_e9ae_7821nat * 0x4f0_5557 == 0xb_7a61_9f57_808c_2090_ee6f_f096_7b1d_c837nat);
    assert(0x4f0_9957nat * 0x4f0_9957 == 0x18_66ea_96f9_1b91);
    assert(0x18_66ea_96f9_1b91nat * 0x18_66ea_96f9_1b91 == 0x253_755c_15fc_0596_cfc8_8f09_e821nat);
    assert(0x253_755c_15fc_0596_cfc8_8f09_e821nat * 0x4f0_9957 == 0xb_7d78_222d_77ca_b09e_f6b1_bb8f_ab09_9c37nat);
    assert(0xb_7a61_9f57_808c_2090_ee6f_f096_7b1d_c837nat * 0x15d_5c09_8741_6139_2178_92b9_bce5_5f46_89a2_dd05_b95f_0d00_50d8_ca81nat == 0xfa9_f77e_ad74_350d_9d82_fbc1_91c9_ed65_5800_4749_3673_5e4a_f3fd_7c16_b34d_efb3_125d_2cdf_0e43_f3ab_a865_49b7nat);
    assert(0xb_7d78_222d_77ca_b09e_f6b1_bb8f_ab09_9c37nat * 0x15d_5c09_8741_6139_2178_92b9_bce5_5f46_89a2_dd05_b95f_0d00_50d8_ca81nat == 0xfae_2e4b_3f97_6c9a_734f_ad45_ef84_f6c4_90ec_a165_9d18_26bf_854d_8d82_112b_c3da_6002_5d8c_e891_fc47_c383_1db7nat);
    assert(0xc35nat * 0x2000_0000_0000_0000_0000_0000_0000_0000nat == 0x186_a000_0000_0000_0000_0000_0000_0000_0000nat);
    assert(0xa_4668_86ca_5a73_5905_791f_5f99_ae56_3c7a_f8f3_4a06_acac_7fb3_74b1nat * 0x186_a000_0000_0000_0000_0000_0000_0000_0000nat == 0xfad_af3e_ac84_4441_b5f9_f17f_3fdf_a456_0924_1e3a_d46f_3ab6_5b33_ee94_a000_0000_0000_0000_0000_0000_0000_0000nat);
    lemma_near_above(
        0x3efc_e4ab, 0xfc_e4ab, 124, 0x200, 0x186_a000_0000_0000_0000_0000_0000_0000_0000nat, 186,
        200525, 0x1c_a568_0491_2c55,
        0x334_99a0_3fe8_8bc6_72c5_e7f7_5439nat,
        0x45_2c59_9066_9ca1, 0x12b0_eff6_c049_6d6d_d948_5020_9d41nat,
        0x4f0_5557, 0x18_644a_d792_e391, 0x252_f552_f9d6_c36c_e659_e9ae_7821nat,
        0x4f0_9957, 0x18_66ea_96f9_1b91, 0x253_755c_15fc_0596_cfc8_8f09_e821nat,
    );
}

/// The value 0x3eff_f464.
proof fn lemma_at_3efff464()
    ensures
        chord_code(0x3eff_f464, 0x3efd_5e8d, 0x3f05_5e8d, 0x433b_28a1, 0x433f_825c) == 187,
{
    reveal(chord_code);
    lemma2_to64();
    lemma2_to64_rest();
    lemma_high_powers();
    assert(0x85_5e8d * 0x2 - 0xfd_5e8d * 0x1 == 0xd_5e8d);
    lemma_sum_known(0x3f05_5e8d, 0x3efd_5e8d, true, 0x85_5e8d, 125, 0xfd_5e8d, 124, 0x2, 0x1, 0xd_5e8d, 20, 0x8_0000, 0x10);
    assert(sub_spec(0x3f05_5e8d, 0x3efd_5e8d) == 0x3cd5_e8d0);
    assert(0xff_f464 * 0x1 - 0xfd_5e8d * 0x1 == 0x2_95d7);
    lemma_sum_known(0x3eff_f464, 0x3efd_5e8d, true, 0xff_f464, 124, 0xfd_5e8d, 124, 0x1, 0x1, 0x2_95d7, 18, 0x2_0000, 0x40);
    assert(sub_spec(0x3eff_f464, 0x3efd_5e8d) == 0x3ba5_75c0);
    assert(0xbf_825c * 0x1 - 0xbb_28a1 * 0x1 == 0x4_59bb);
    lemma_sum_known(0x433f_825c, 0x433b_28a1, true, 0xbf_825c, 133, 0xbb_28a1, 133, 0x1, 0x1, 0x4_59bb, 19, 0x4_0000, 0x20);
    assert(sub_spec(0x433f_825c, 0x433b_28a1) == 0x408b_3760);
    assert(0x8b_3760 * 0xa5_75c0 == 0x59fa_b998_6800);
    lemma_product_known(0x408b_3760, 0x3ba5_75c0, 0x8b_3760, 128, 0xa5_75c0, 118, 0x59fa_b998_6800, 47, 0x4000_0000_0000, 0x80_0000);
    assert(mul_spec(0x408b_3760, 0x3ba5_75c0) == 0x3cb3_f573);
    assert(0xb3_f573 * 0x1_0000_0000_0000_0000 == 0xd75e_73e1_0ab3_a078 * 0xd5_e8d0 + 0xc8_de80);
    lemma_quotient_known(0x3cb3_f573, 0x3cd5_e8d0, 0xb3_f573, 120, 0xd5_e8d0, 120, 0xd75e_73e1_0ab3_a078, 0xc8_de80, 65, 0x1_0000_0000_0000_0000, 0x200_0000_0000);
    assert(div_spec(0x3cb3_f573, 0x3cd5_e8d0) == 0x3f57_5e74);
    assert(0xbb_28a1 * 0x100 + 0xd7_5e74 * 0x1 == 0xbbff_ff74);
    lemma_sum_known(0x433b_28a1, 0x3f57_5e74, false, 0xbb_28a1, 133, 0xd7_5e74, 125, 0x100, 0x1, 0xbbff_ff74, 32, 0x8000_0000, 0x100);
    assert(add_spec(0x433b_28a1, 0x3f57_5e74) == 0x433b_ffff);
    lemma_whole_known(0x433b_ffff, 0xbb_ffff, 133, 0x1_0000);
}

/// The value 0x3eff_f465.
proof fn lemma_at_3efff465()
    ensures
        chord_code(0x3eff_f465, 0x3efd_5e8d, 0x3f05_5e8d, 0x433b_28a1, 0x433f_825c) == 188,
{
    reveal(chord_code);
    lemma2_to64();
    lemma2_to64_rest();
    lemma_high_powers();
    assert(0x85_5e8d * 0x2 - 0xfd_5e8d * 0x1 == 0xd_5e8d);
    lemma_sum_known(0x3f05_5e8d, 0x3efd_5e8d, true, 0x85_5e8d, 125, 0xfd_5e8d, 124, 0x2, 0x1, 0xd_5e8d, 20, 0x8_0000, 0x10);
    assert(sub_spec(0x3f05_5e8d, 0x3efd_5e8d) == 0x3cd5_e8d0);
    assert(0xff_f465 * 0x1 - 0xfd_5e8d * 0x1 == 0x2_95d8);
    lemma_sum_known(0x3eff_f465, 0x3efd_5e8d, true, 0xff_f465, 124, 0xfd_5e8d, 124, 0x1, 0x1, 0x2_95d8, 18, 0x2_0000, 0x40);
    assert(sub_spec(0x3eff_f465, 0x3efd_5e8d) == 0x3ba5_7600);
    assert(0xbf_825c * 0x1 - 0xbb_28a1 * 0x1 == 0x4_59bb);
    lemma_sum_known(0x433f_825c, 0x433b_28a1, true, 0xbf_825c, 133, 0xbb_28a1, 133, 0x1, 0x1, 0x4_59bb, 19, 0x4_0000, 0x20);
    assert(sub_spec(0x433f_825c, 0x433b_28a1) == 0x408b_3760);
    assert(0x8b_3760 * 0xa5_7600 == 0x59fa_dc66_4000);
    lemma_product_known(0x408b_3760, 0x3ba5_7600, 0x8b_3760, 128, 0xa5_7600, 118, 0x59fa_dc66_4000, 47, 0x4000_0000_0000, 0x80_0000);
    assert(mul_spec(0x408b_3760, 0x3ba5_7600) == 0x3cb3_f5b9);
    assert(0xb3_f5b9 * 0x1_0000_0000_0000_0000 == 0xd75e_c7a7_20d6_7955 * 0xd5_e8d0 + 0xf_62f0);
    lemma_quotient_known(0x3cb3_f5b9, 0x3cd5_e8d0, 0xb3_f5b9, 120, 0xd5_e8d0, 120, 0xd75e_c7a7_20d6_7955, 0xf_62f0, 65, 0x1_0000_0000_0000_0000, 0x200_0000_0000);
    assert(div_spec(0x3cb3_f5b9, 0x3cd5_e8d0) == 0x3f57_5ec8);
    assert(0xbb_28a1 * 0x100 + 0xd7_5ec8 * 0x1 == 0xbbff_ffc8);
    lemma_sum_known(0x433b_28a1, 0x3f57_5ec8, false, 0xbb_28a1, 133, 0xd7_5ec8, 125, 0x100, 0x1, 0xbbff_ffc8, 32, 0x8000_0000, 0x100);
    assert(add_spec(0x433b_28a1, 0x3f57_5ec8) == 0x433c_0000);
    lemma_whole_known(0x433c_0000, 0xbc_0000, 133, 0x1_0000);
}

/// The edge of code 187.
proof fn lemma_near_187()
    ensures
        near_exact_edge(0x3eff_f464, 187),
{
    lemma2_to64();
    lemma2_to64_rest();
    lemma_fifth_powers_of_two();
    lemma_more_fifth_powers_of_two();
    assert(201525nat * 201525 * 201525 == 0x1d_13aa_de6b_b68d);
    assert(269025nat * 269025 * 269025 == 0x45_2c59_9066_9ca1);
    assert(0x1d_13aa_de6b_b68dnat * 0x1d_13aa_de6b_b68d == 0x34d_7639_3377_8158_5f32_a80a_c9a9nat);
    assert(0x34d_7639_3377_8158_5f32_a80a_c9a9nat * 0x34d_7639_3377_8158_5f32_a80a_c9a9nat == 0xa_e835_ac36_8b26_0232_5ad9_2620_eade_c337_da83_0a60_5d26_300e_d191nat);
    assert(0x45_2c59_9066_9ca1nat * 0x45_2c59_9066_9ca1 == 0x12b0_eff6_c049_6d6d_d948_5020_9d41nat);
    assert(0x12b0_eff6_c049_6d6d_d948_5020_9d41nat * 0x12b0_eff6_c049_6d6d_d948_5020_9d41nat == 0x15d_5c09_8741_6139_2178_92b9_bce5_5f46_89a2_dd05_b95f_0d00_50d8_ca81nat);
    assert(0x4ff_a3f4nat * 0x4ff_a3f4 == 0x18_fc67_a918_a090);
    assert(0x18_fc67_a918_a090nat * 0x18_fc67_a918_a090 == 0x270_4c4b_f380_189e_3a3c_9fb4_5100nat);
    assert(0x270_4c4b_f380_189e_3a3c_9fb4_5100nat * 0x4ff_a3f4 == 0xc_309d_0312_a169_a449_2ac6_0158_b670_3400nat);
    assert(0x4ff_e7f4nat * 0x4ff_e7f4 == 0x18_ff0f_8a42_4090);
    assert(0x18_ff0f_8a42_4090nat * 0x18_ff0f_8a42_4090 == 0x270_d109_e2cd_960d_efa0_9a88_5100nat);
    assert(0x270_d109_e2cd_960d_efa0_9a88_5100nat * 0x4ff_e7f4 == 0xc_33da_808b_4a34_5df9_cbe6_5f90_fa04_3400nat);
    assert(0xc_309d_0312_a169_a449_2ac6_0158_b670_3400nat * 0x15d_5c09_8741_6139_2178_92b9_bce5_5f46_89a2_dd05_b95f_0d00_50d8_ca81nat == 0x10a2_a7f9_c3c5_a04f_1f7b_d536_46ab_ad74_2ddb_4b6e_81e7_d1e4_a106_c7f4_24e3_74e9_2be0_ca96_a557_ac94_5792_3400nat);
    assert(0xc_33da_808b_4a34_5df9_cbe6_5f90_fa04_3400nat * 0x15d_5c09_8741_6139_2178_92b9_bce5_5f46_89a2_dd05_b95f_0d00_50d8_ca81nat == 0x10a7_13f8_093a_c397_9171_5e86_7f63_638b_70dd_5731_4749_8817_c32a_2de7_f00e_315a_6a53_afd6_f996_d121_2d26_3400nat);
    assert(0xc35nat * 0x2000_0000_0000_0000_0000_0000_0000_0000nat == 0x186_a000_0000_0000_0000_0000_0000_0000_0000nat);
    assert(0xa_e835_ac36_8b26_0232_5ad9_2620_eade_c337_da83_0a60_5d26_300e_d191nat * 0x186_a000_0000_0000_0000_0000_0000_0000_0000nat == 0x10a4_92e5_e6ba_12df_1a15_df97_cdfa_6228_a119_cc33_b54a_2265_149c_85e0_a000_0000_0000_0000_0000_0000_0000_0000nat);
    lemma_near_above(
        0x3eff_f464, 0xff_f464, 124, 0x200, 0x186_a000_0000_0000_0000_0000_0000_0000_0000nat, 187,
        201525, 0x1d_13aa_de6b_b68d,
        0x34d_7639_3377_8158_5f32_a80a_c9a9nat,
        0x45_2c59_9066_9ca1, 0x12b0_eff6_c049_6d6d_d948_5020_9d41nat,
        0x4ff_a3f4, 0x18_fc67_a918_a090, 0x270_4c4b_f380_189e_3a3c_9fb4_5100nat,
        0x4ff_e7f4, 0x18_ff0f_8a42_4090, 0x270_d109_e2cd_960d_efa0_9a88_5100nat,
    );
}

/// The value 0x3f01_838b.
proof fn lemma_at_3f01838b()
    ensures
        chord_code(0x3f01_838b, 0x3efd_5e8d, 0x3f05_5e8d, 0x433b_28a1, 0x433f_825c) == 188,
{
    reveal(chord_code);
    lemma2_to64();
    lemma2_to64_rest();
    lemma_high_powers();
    assert(0x85_5e8d * 0x2 - 0xfd_5e8d * 0x1 == 0xd_5e8d);
    lemma_sum_known(0x3f05_5e8d, 0x3efd_5e8d, true, 0x85_5e8d, 125, 0xfd_5e8d, 124, 0x2, 0x1, 0xd_5e8d, 20, 0x8_0000, 0x10);
    assert(sub_spec(0x3f05_5e8d, 0x3efd_5e8d) == 0x3cd5_e8d0);
    assert(0x81_838b * 0x2 - 0xfd_5e8d * 0x1 == 0x5_a889);
    lemma_sum_known(0x3f01_838b, 0x3efd_5e8d, true, 0x81_838b, 125, 0xfd_5e8d, 124, 0x2, 0x1, 0x5_a889, 19, 0x4_0000, 0x20);
    assert(sub_spec(0x3f01_838b, 0x3efd_5e8d) == 0x3c35_1120);
    assert(0xbf_825c * 0x1 - 0xbb_28a1 * 0x1 == 0x4_59bb);
    lemma_sum_known(0x433f_825c, 0x433b_28a1, true, 0xbf_825c, 133, 0xbb_28a1, 133, 0x1, 0x1, 0x4_59bb, 19, 0x4_0000, 0x20);
    assert(sub_spec(0x433f_825c, 0x433b_28a1) == 0x408b_3760);
    assert(0x8b_3760 * 0xb5_1120 == 0x6277_76f4_4c00);
    lemma_product_known(0x408b_3760, 0x3c35_1120, 0x8b_3760, 128, 0xb5_1120, 119, 0x6277_76f4_4c00, 47, 0x4000_0000_0000, 0x80_0000);
    assert(mul_spec(0x408b_3760, 0x3c35_1120) == 0x3d44_eeee);
    assert(0xc4_eeee * 0x1_0000_0000_0000_0000 == 0xebae_fc4e_5426_936e * 0xd5_e8d0 + 0x86_86a0);
    lemma_quotient_known(0x3d44_eeee, 0x3cd5_e8d0, 0xc4_eeee, 121, 0xd5_e8d0, 120, 0xebae_fc4e_5426_936e, 0x86_86a0, 65, 0x1_0000_0000_0000_0000, 0x200_0000_0000);
    assert(div_spec(0x3d44_eeee, 0x3cd5_e8d0) == 0x3feb_aefc);
    assert(0xbb_28a1 * 0x80 + 0xeb_aefc * 0x1 == 0x5e7f_ff7c);
    lemma_sum_known(0x433b_28a1, 0x3feb_aefc, false, 0xbb_28a1, 133, 0xeb_aefc, 126, 0x80, 0x1, 0x5e7f_ff7c, 31, 0x4000_0000, 0x80);
    assert(add_spec(0x433b_28a1, 0x3feb_aefc) == 0x433c_ffff);
    lemma_whole_known(0x433c_ffff, 0xbc_ffff, 133, 0x1_0000);
}

/// The value 0x3f01_838c.
proof fn lemma_at_3f01838c()
    ensures
        chord_code(0x3f01_838c, 0x3efd_5e8d, 0x3f05_5e8d, 0x433b_28a1, 0x433f_825c) == 189,
{
    reveal(chord_code);
    lemma2_to64();
    lemma2_to64_rest();
    lemma_high_powers();
    assert(0x85_5e8d * 0x2 - 0xfd_5e8d * 0x1 == 0xd_5e8d);
    lemma_sum_known(0x3f05_5e8d, 0x3efd_5e8d, true, 0x85_5e8d, 125, 0xfd_5e8d, 124, 0x2, 0x1, 0xd_5e8d, 20, 0x8_0000, 0x10);
    assert(sub_spec(0x3f05_5e8d, 0x3efd_5e8d) == 0x3cd5_e8d0);
    assert(0x81_838c * 0x2 - 0xfd_5e8d * 0x1 == 0x5_a88b);
    lemma_sum_known(0x3f01_838c, 0x3efd_5e8d, true, 0x81_838c, 125, 0xfd_5e8d, 124, 0x2, 0x1, 0x5_a88b, 19, 0x4_0000, 0x20);
    assert(sub_spec(0x3f01_838c, 0x3efd_5e8d) == 0x3c35_1160);
    assert(0xbf_825c * 0x1 - 0xbb_28a1 * 0x1 == 0x4_59bb);
    lemma_sum_known(0x433f_825c, 0x433b_28a1, true, 0xbf_825c, 133, 0xbb_28a1, 133, 0x1, 0x1, 0x4_59bb, 19, 0x4_0000, 0x20);
    assert(sub_spec(0x433f_825c, 0x433b_28a1) == 0x408b_3760);
    assert(0x8b_3760 * 0xb5_1160 == 0x6277_99c2_2400);
    lemma_product_known(0x408b_3760, 0x3c35_1160, 0x8b_3760, 128, 0xb5_1160, 119, 0x6277_99c2_2400, 47, 0x4000_0000_0000, 0x80_0000);
    assert(mul_spec(0x408b_3760, 0x3c35_1160) == 0x3d44_ef34);
    assert(0xc4_ef34 * 0x1_0000_0000_0000_0000 == 0xebaf_5014_6a49_6c4a * 0xd5_e8d0 + 0xa2_f3e0);
    lemma_quotient_known(0x3d44_ef34, 0x3cd5_e8d0, 0xc4_ef34, 121, 0xd5_e8d0, 120, 0xebaf_5014_6a49_6c4a, 0xa2_f3e0, 65, 0x1_0000_0000_0000_0000, 0x200_0000_0000);
    assert(div_spec(0x3d44_ef34, 0x3cd5_e8d0) == 0x3feb_af50);
    assert(0xbb_28a1 * 0x80 + 0xeb_af50 * 0x1 == 0x5e7f_ffd0);
    lemma_sum_known(0x433b_28a1, 0x3feb_af50, false, 0xbb_28a1, 133, 0xeb_af50, 126, 0x80, 0x1, 0x5e7f_ffd0, 31, 0x4000_0000, 0x80);
    assert(add_spec(0x433b_28a1, 0x3feb_af50) == 0x433d_0000);
    lemma_whole_known(0x433d_0000, 0xbd_0000, 133, 0x1_0000);
}

/// The edge of code 188.
proof fn lemma_near_188()
    ensures
        near_exact_edge(0x3f01_838b, 188),
{
    lemma2_to64();
    lemma2_to64_rest();
    lemma_fifth_powers_of_two();
    lemma_more_fifth_powers_of_two();
    assert(202525nat * 202525 * 202525 == 0x1d_8307_3f3b_0c45);
    assert(269025nat * 269025 * 269025 == 0x45_2c59_9066_9ca1);
    assert(0x1d_8307_3f3b_0c45nat * 0x1d_8307_3f3b_0c45 == 0x366_f2b4_be4b_bb09_676e_9e64_8a99nat);
    assert(0x366_f2b4_be4b_bb09_676e_9e64_8a99nat * 0x366_f2b4_be4b_bb09_676e_9e64_8a99nat == 0xb_9316_8a97_a21e_997c_50ac_4014_66ba_42c4_8a74_acb0_7c0d_6e91_4f71nat);
    assert(0x45_2c59_9066_9ca1nat * 0x45_2c59_9066_9ca1 == 0x12b0_eff6_c049_6d6d_d948_5020_9d41nat);
    assert(0x12b0_eff6_c049_6d6d_d948_5020_9d41nat * 0x12b0_eff6_c049_6d6d_d948_5020_9d41nat == 0x15d_5c09_8741_6139_2178_92b9_bce5_5f46_89a2_dd05_b95f_0d00_50d8_ca81nat);
    assert(0x287_80b7nat * 0x287_80b7 == 0x6_65bb_ddb9_82d1);
    assert(0x6_65bb_ddb9_82d1nat * 0x6_65bb_ddb9_82d1 == 0x28_ed3c_2b84_3013_d9a1_2eea_eea1nat);
    assert(0x28_ed3c_2b84_3013_d9a1_2eea_eea1nat * 0x287_80b7 == 0x6784_26f1_a6da_b5b3_515e_bd6f_1a28_1517nat);
    assert(0x287_a2b7nat * 0x287_a2b7 == 0x6_6667_e06e_1ed1);
    assert(0x6_6667_e06e_1ed1nat * 0x6_6667_e06e_1ed1 == 0x28_f5d5_7627_8fb8_3d7a_3f51_a6a1nat);
    assert(0x28_f5d5_7627_8fb8_3d7a_3f51_a6a1nat * 0x287_a2b7 == 0x679f_5756_6e58_b9dd_b391_55d1_0fb6_ff17nat);
    assert(0x6784_26f1_a6da_b5b3_515e_bd6f_1a28_1517nat * 0x15d_5c09_8741_6139_2178_92b9_bce5_5f46_89a2_dd05_b95f_0d00_50d8_ca81nat == 0x8d_4460_6fc5_cf06_ab82_7c60_c1bb_6ebb_3d61_c37d_d278_a0c4_ffa4_f6a0_6cfb_1d9f_2a9a_e597_cbbc_e308_ca3e_c697nat);
    assert(0x679f_5756_6e58_b9dd_b391_55d1_0fb6_ff17nat * 0x15d_5c09_8741_6139_2178_92b9_bce5_5f46_89a2_dd05_b95f_0d00_50d8_ca81nat == 0x8d_697b_2f91_0e85_6869_5b65_f748_a036_7df0_ba97_21f2_6c2e_b133_6270_c7ff_47e4_0b2f_0d59_7abe_d1dd_bbe6_b097nat);
    assert(0xc35nat * 0x100_0000_0000_0000_0000_0000_0000_0000nat == 0xc_3500_0000_0000_0000_0000_0000_0000_0000nat);
    assert(0xb_9316_8a97_a21e_997c_50ac_4014_66ba_42c4_8a74_acb0_7c0d_6e91_4f71nat * 0xc_3500_0000_0000_0000_0000_0000_0000_0000nat == 0x8d_4a82_29cc_fdff_879a_84c6_aa39_09ff_b109_2e22_4006_5a4f_f6b3_cebe_6500_0000_0000_0000_0000_0000_0000_0000nat);
    lemma_near_above(
        0x3f01_838b, 0x81_838b, 125, 0x100, 0xc_3500_0000_0000_0000_0000_0000_0000_0000nat, 188,
        202525, 0x1d_8307_3f3b_0c45,
        0x366_f2b4_be4b_bb09_676e_9e64_8a99nat,
        0x45_2c59_9066_9ca1, 0x12b0_eff6_c049_6d6d_d948_5020_9d41nat,
        0x287_80b7, 0x6_65bb_ddb9_82d1, 0x28_ed3c_2b84_3013_d9a1_2eea_eea1nat,
        0x287_a2b7, 0x6_6667_e06e_1ed1, 0x28_f5d5_7627_8fb8_3d7a_3f51_a6a1nat,
    );
}

/// The value 0x3f03_0ce5.
proof fn lemma_at_3f030ce5()
    ensures
        chord_code(0x3f03_0ce5, 0x3efd_5e8d, 0x3f05_5e8d, 0x433b_28a1, 0x433f_825c) == 189,
{
    reveal(chord_code);
    lemma2_to64();
    lemma2_to64_rest();
    lemma_high_powers();
    assert(0x85_5e8d * 0x2 - 0xfd_5e8d * 0x1 == 0xd_5e8d);
    lemma_sum_known(0x3f05_5e8d, 0x3efd_5e8d, true, 0x85_5e8d, 125, 0xfd_5e8d, 124, 0x2, 0x1, 0xd_5e8d, 20, 0x8_0000, 0x10);
    assert(sub_spec(0x3f05_5e8d, 0x3efd_5e8d) == 0x3cd5_e8d0);
    assert(0x83_0ce5 * 0x2 - 0xfd_5e8d * 0x1 == 0x8_bb3d);
    lemma_sum_known(0x3f03_0ce5, 0x3efd_5e8d, true, 0x83_0ce5, 125, 0xfd_5e8d, 124, 0x2, 0x1, 0x8_bb3d, 20, 0x8_0000, 0x10);
    assert(sub_spec(0x3f03_0ce5, 0x3efd_5e8d) == 0x3c8b_b3d0);
    assert(0xbf_825c * 0x1 - 0xbb_28a1 * 0x1 == 0x4_59bb);
    lemma_sum_known(0x433f_825c, 0x433b_28a1, true, 0xbf_825c, 133, 0xbb_28a1, 133, 0x1, 0x1, 0x4_59bb, 19, 0x4_0000, 0x20);
    assert(sub_spec(0x433f_825c, 0x433b_28a1) == 0x408b_3760);
    assert(0x8b_3760 * 0x8b_b3d0 == 0x4bf8_d9f5_1e00);
    lemma_product_known(0x408b_3760, 0x3c8b_b3d0, 0x8b_3760, 128, 0x8b_b3d0, 120, 0x4bf8_d9f5_1e00, 47, 0x4000_0000_0000, 0x80_0000);
    assert(mul_spec(0x408b_3760, 0x3c8b_b3d0) == 0x3d97_f1b4);
    assert(0x97_f1b4 * 0x1_0000_0000_0000_0000 == 0xb5d7_88ec_84b1_5e48 * 0xd5_e8d0 + 0x8a_2580);
    lemma_quotient_known(0x3d97_f1b4, 0x3cd5_e8d0, 0x97_f1b4, 122, 0xd5_e8d0, 120, 0xb5d7_88ec_84b1_5e48, 0x8a_2580, 65, 0x1_0000_0000_0000_0000, 0x200_0000_0000);
    assert(div_spec(0x3d97_f1b4, 0x3cd5_e8d0) == 0x4035_d789);
    assert(0xbb_28a1 * 0x40 + 0xb5_d789 * 0x1 == 0x2f7f_ffc9);
    lemma_sum_known(0x433b_28a1, 0x4035_d789, false, 0xbb_28a1, 133, 0xb5_d789, 127, 0x40, 0x1, 0x2f7f_ffc9, 30, 0x2000_0000, 0x40);
    assert(add_spec(0x433b_28a1, 0x4035_d789) == 0x433d_ffff);
    lemma_whole_known(0x433d_ffff, 0xbd_ffff, 133, 0x1_0000);
}

/// The value 0x3f03_0ce6.
proof fn lemma_at_3f030ce6()
    ensures
        chord_code(0x3f03_0ce6, 0x3efd_5e8d, 0x3f05_5e8d, 0x433b_28a1, 0x433f_825c) == 190,
{
    reveal(chord_code);
    lemma2_to64();
    lemma2_to64_rest();
    lemma_high_powers();
    assert(0x85_5e8d * 0x2 - 0xfd_5e8d * 0x1 == 0xd_5e8d);
    lemma_sum_known(0x3f05_5e8d, 0x3efd_5e8d, true, 0x85_5e8d, 125, 0xfd_5e8d, 124, 0x2, 0x1, 0xd_5e8d, 20, 0x8_0000, 0x10);
    assert(sub_spec(0x3f05_5e8d, 0x3efd_5e8d) == 0x3cd5_e8d0);
    assert(0x83_0ce6 * 0x2 - 0xfd_5e8d * 0x1 == 0x8_bb3f);
    lemma_sum_known(0x3f03_0ce6, 0x3efd_5e8d, true, 0x83_0ce6, 125, 0xfd_5e8d, 124, 0x2, 0x1, 0x8_bb3f, 20, 0x8_0000, 0x10);
    assert(sub_spec(0x3f03_0ce6, 0x3efd_5e8d) == 0x3c8b_b3f0);
    assert(0xbf_825c * 0x1 - 0xbb_28a1 * 0x1 == 0x4_59bb);
    lemma_sum_known(0x433f_825c, 0x433b_28a1, true, 0xbf_825c, 133, 0xbb_28a1, 133, 0x1, 0x1, 0x4_59bb, 19, 0x4_0000, 0x20);
    assert(sub_spec(0x433f_825c, 0x433b_28a1) == 0x408b_3760);
    assert(0x8b_3760 * 0x8b_b3f0 == 0x4bf8_eb5c_0a00);
    lemma_product_known(0x408b_3760, 0x3c8b_b3f0, 0x8b_3760, 128, 0x8b_b3f0, 120, 0x4bf8_eb5c_0a00, 47, 0x4000_0000_0000, 0x80_0000);
    assert(mul_spec(0x408b_3760, 0x3c8b_b3f0) == 0x3d97_f1d7);
    assert(0x97_f1d7 * 0x1_0000_0000_0000_0000 == 0xb5d7_b2cf_8fc2_cab6 * 0xd5_e8d0 + 0x98_5c20);
    lemma_quotient_known(0x3d97_f1d7, 0x3cd5_e8d0, 0x97_f1d7, 122, 0xd5_e8d0, 120, 0xb5d7_b2cf_8fc2_cab6, 0x98_5c20, 65, 0x1_0000_0000_0000_0000, 0x200_0000_0000);
    assert(div_spec(0x3d97_f1d7, 0x3cd5_e8d0) == 0x4035_d7b3);
    assert(0xbb_28a1 * 0x40 + 0xb5_d7b3 * 0x1 == 0x2f7f_fff3);
    lemma_sum_known(0x433b_28a1, 0x4035_d7b3, false, 0xbb_28a1, 133, 0xb5_d7b3, 127, 0x40, 0x1, 0x2f7f_fff3, 30, 0x2000_0000, 0x40);
    assert(add_spec(0x433b_28a1, 0x4035_d7b3) == 0x433e_0000);
    lemma_whole_known(0x433e_0000, 0xbe_0000, 133, 0x1_0000);
}

/// The edge of code 189.
proof fn lemma_near_189()
    ensures
        near_exact_edge(0x3f03_0ce5, 189),
{
    lemma2_to64();
    lemma2_to64_rest();
    lemma_fifth_powers_of_two();
    lemma_more_fifth_powers_of_two();
    assert(203525nat * 203525 * 203525 == 0x1d_f37e_8c9f_e97d);
    assert(269025nat * 269025 * 269025 == 0x45_2c59_9066_9ca1);
    assert(0x1d_f37e_8c9f_e97dnat * 0x1d_f37e_8c9f_e97d == 0x381_1245_59c1_363e_7050_963a_c709nat);
    assert(0x381_1245_59c1_363e_7050_963a_c709nat * 0x381_1245_59c1_363e_7050_963a_c709nat == 0xc_4781_0b4c_cf66_cecf_03ba_e833_d552_898e_8ad3_df69_345d_56d2_fe51nat);
    assert(0x45_2c59_9066_9ca1nat * 0x45_2c59_9066_9ca1 == 0x12b0_eff6_c049_6d6d_d948_5020_9d41nat);
    assert(0x12b0_eff6_c049_6d6d_d948_5020_9d41nat * 0x12b0_eff6_c049_6d6d_d948_5020_9d41nat == 0x15d_5c09_8741_6139_2178_92b9_bce5_5f46_89a2_dd05_b95f_0d00_50d8_ca81nat);
    assert(0x28f_2f79nat * 0x28f_2f79 == 0x6_8cd3_f5fb_a731);
    assert(0x6_8cd3_f5fb_a731nat * 0x6_8cd3_f5fb_a731 == 0x2a_e768_0c56_7e5a_d82b_1146_f761nat);
    assert(0x2a_e768_0c56_7e5a_d82b_1146_f761nat * 0x28f_2f79 == 0x6dce_07fb_0bbf_0083_7cd1_491a_2324_bbd9nat);
    assert(0x28f_5179nat * 0x28f_5179 == 0x6_8d82_031b_cb31);
    assert(0x6_8d82_031b_cb31nat * 0x6_8d82_031b_cb31 == 0x2a_f050_9ec1_4c64_018b_a39c_bf61nat);
    assert(0x2a_f050_9ec1_4c64_018b_a39c_bf61nat * 0x28f_5179 == 0x6dea_889b_48e8_a668_b409_87d2_96d3_25d9nat);
    assert(0x6dce_07fb_0bbf_0083_7cd1_491a_2324_bbd9nat * 0x15d_5c09_8741_6139_2178_92b9_bce5_5f46_89a2_dd05_b95f_0d00_50d8_ca81nat == 0x95_d95b_025f_34a8_bd58_5072_fcd8_9fa1_c8ac_2492_e571_75d6_8ad9_9fbb_fe09_bae1_329c_a494_463e_9c99_00d3_e259nat);
    assert(0x6dea_889b_48e8_a668_b409_87d2_96d3_25d9nat * 0x15d_5c09_8741_6139_2178_92b9_bce5_5f46_89a2_dd05_b95f_0d00_50d8_ca81nat == 0x96_0040_9c1b_c129_00f3_5ff2_544e_b35d_7223_12cf_7a95_e3ab_9acf_7c0b_ac80_5e6f_d14d_ade9_3c3d_df1c_5b5b_4c59nat);
    assert(0xc35nat * 0x100_0000_0000_0000_0000_0000_0000_0000nat == 0xc_3500_0000_0000_0000_0000_0000_0000_0000nat);
    assert(0xc_4781_0b4c_cf66_cecf_03ba_e833_d552_898e_8ad3_df69_345d_56d2_fe51nat * 0xc_3500_0000_0000_0000_0000_0000_0000_0000nat == 0x95_e4da_3ef0_9fc1_fa85_0888_9480_bb08_8929_04ac_562f_3c37_64dd_9a72_c500_0000_0000_0000_0000_0000_0000_0000nat);
    lemma_near_above(
        0x3f03_0ce5, 0x83_0ce5, 125, 0x100, 0xc_3500_0000_0000_0000_0000_0000_0000_0000nat, 189,
        203525, 0x1d_f37e_8c9f_e97d,
        0x381_1245_59c1_363e_7050_963a_c709nat,
        0x45_2c59_9066_9ca1, 0x12b0_eff6_c049_6d6d_d948_5020_9d41nat,
        0x28f_2f79, 0x6_8cd3_f5fb_a731, 0x2a_e768_0c56_7e5a_d82b_1146_f761nat,
        0x28f_5179, 0x6_8d82_031b_cb31, 0x2a_f050_9ec1_4c64_018b_a39c_bf61nat,
    );
}

/// The value 0x3f04_963f.
proof fn lemma_at_3f04963f()
    ensures
        chord_code(0x3f04_963f, 0x3efd_5e8d, 0x3f05_5e8d, 0x433b_28a1, 0x433f_825c) == 190,
{
    reveal(chord_code);
    lemma2_to64();
    lemma2_to64_rest();
    lemma_high_powers();
    assert(0x85_5e8d * 0x2 - 0xfd_5e8d * 0x1 == 0xd_5e8d);
    lemma_sum_known(0x3f05_5e8d, 0x3efd_5e8d, true, 0x85_5e8d, 125, 0xfd_5e8d, 124, 0x2, 0x1, 0xd_5e8d, 20, 0x8_0000, 0x10);
    assert(sub_spec(0x3f05_5e8d, 0x3efd_5e8d) == 0x3cd5_e8d0);
    assert(0x84_963f * 0x2 - 0xfd_5e8d * 0x1 == 0xb_cdf1);
    lemma_sum_known(0x3f04_963f, 0x3efd_5e8d, true, 0x84_963f, 125, 0xfd_5e8d, 124, 0x2, 0x1, 0xb_cdf1, 20, 0x8_0000, 0x10);
    assert(sub_spec(0x3f04_963f, 0x3efd_5e8d) == 0x3cbc_df10);
    assert(0xbf_825c * 0x1 - 0xbb_28a1 * 0x1 == 0x4_59bb);
    lemma_sum_known(0x433f_825c, 0x433b_28a1, true, 0xbf_825c, 133, 0xbb_28a1, 133, 0x1, 0x1, 0x4_59bb, 19, 0x4_0000, 0x20);
    assert(sub_spec(0x433f_825c, 0x433b_28a1) == 0x408b_3760);
    assert(0x8b_3760 * 0xbc_df10 == 0x66b5_f870_1600);
    lemma_product_known(0x408b_3760, 0x3cbc_df10, 0x8b_3760, 128, 0xbc_df10, 120, 0x66b5_f870_1600, 47, 0x4000_0000_0000, 0x80_0000);
    assert(mul_spec(0x408b_3760, 0x3cbc_df10) == 0x3dcd_6bf1);
    assert(0xcd_6bf1 * 0x1_0000_0000_0000_0000 == 0xf5d7_93b1_df4f_72d9 * 0xd5_e8d0 + 0xd1_07b0);
    lemma_quotient_known(0x3dcd_6bf1, 0x3cd5_e8d0, 0xcd_6bf1, 122, 0xd5_e8d0, 120, 0xf5d7_93b1_df4f_72d9, 0xd1_07b0, 65, 0x1_0000_0000_0000_0000, 0x200_0000_0000);
    assert(div_spec(0x3dcd_6bf1, 0x3cd5_e8d0) == 0x4075_d794);
    assert(0xbb_28a1 * 0x40 + 0xf5_d794 * 0x1 == 0x2fbf_ffd4);
    lemma_sum_known(0x433b_28a1, 0x4075_d794, false, 0xbb_28a1, 133, 0xf5_d794, 127, 0x40, 0x1, 0x2fbf_ffd4, 30, 0x2000_0000, 0x40);
    assert(add_spec(0x433b_28a1, 0x4075_d794) == 0x433e_ffff);
    lemma_whole_known(0x433e_ffff, 0xbe_ffff, 133, 0x1_0000);
}

/// The value 0x3f04_9640.
proof fn lemma_at_3f049640()
    ensures
        chord_code(0x3f04_9640, 0x3efd_5e8d, 0x3f05_5e8d, 0x433b_28a1, 0x433f_825c) == 191,
{
    reveal(chord_code);
    lemma2_to64();
    lemma2_to64_rest();
    lemma_high_powers();
    assert(0x85_5e8d * 0x2 - 0xfd_5e8d * 0x1 == 0xd_5e8d);
    lemma_sum_known(0x3f05_5e8d, 0x3efd_5e8d, true, 0x85_5e8d, 125, 0xfd_5e8d, 124, 0x2, 0x1, 0xd_5e8d, 20, 0x8_0000, 0x10);
    assert(sub_spec(0x3f05_5e8d, 0x3efd_5e8d) == 0x3cd5_e8d0);
    assert(0x84_9640 * 0x2 - 0xfd_5e8d * 0x1 == 0xb_cdf3);
    lemma_sum_known(0x3f04_9640, 0x3efd_5e8d, true, 0x84_9640, 125, 0xfd_5e8d, 124, 0x2, 0x1, 0xb_cdf3, 20, 0x8_0000, 0x10);
    assert(sub_spec(0x3f04_9640, 0x3efd_5e8d) == 0x3cbc_df30);
    assert(0xbf_825c * 0x1 - 0xbb_28a1 * 0x1 == 0x4_59bb);
    lemma_sum_known(0x433f_825c, 0x433b_28a1, true, 0xbf_825c, 133, 0xbb_28a1, 133, 0x1, 0x1, 0x4_59bb, 19, 0x4_0000, 0x20);
    assert(sub_spec(0x433f_825c, 0x433b_28a1) == 0x408b_3760);
    assert(0x8b_3760 * 0xbc_df30 == 0x66b6_09d7_0200);
    lemma_product_known(0x408b_3760, 0x3cbc_df30, 0x8b_3760, 128, 0xbc_df30, 120, 0x66b6_09d7_0200, 47, 0x4000_0000_0000, 0x80_0000);
    assert(mul_spec(0x408b_3760, 0x3cbc_df30) == 0x3dcd_6c14);
    assert(0xcd_6c14 * 0x1_0000_0000_0000_0000 == 0xf5d7_bd94_ea60_df48 * 0xd5_e8d0 + 0x9_5580);
    lemma_quotient_known(0x3dcd_6c14, 0x3cd5_e8d0, 0xcd_6c14, 122, 0xd5_e8d0, 120, 0xf5d7_bd94_ea60_df48, 0x9_5580, 65, 0x1_0000_0000_0000_0000, 0x200_0000_0000);
    assert(div_spec(0x3dcd_6c14, 0x3cd5_e8d0) == 0x4075_d7be);
    assert(0xbb_28a1 * 0x40 + 0xf5_d7be * 0x1 == 0x2fbf_fffe);
    lemma_sum_known(0x433b_28a1, 0x4075_d7be, false, 0xbb_28a1, 133, 0xf5_d7be, 127, 0x40, 0x1, 0x2fbf_fffe, 30, 0x2000_0000, 0x40);
    assert(add_spec(0x433b_28a1, 0x4075_d7be) == 0x433f_0000);
    lemma_whole_known(0x433f_0000, 0xbf_0000, 133, 0x1_0000);
}

/// The edge of code 190.
proof fn lemma_near_190()
    ensures
        near_exact_edge(0x3f04_963f, 190),
{
    lemma2_to64();
    lemma2_to64_rest();
    lemma_fifth_powers_of_two();
    lemma_more_fifth_powers_of_two();
    assert(204525nat * 204525 * 204525 == 0x1e_6512_2c3b_0a35);
    assert(269025nat * 269025 * 269025 == 0x45_2c59_9066_9ca1);
    assert(0x1e_6512_2c3b_0a35nat * 0x1e_6512_2c3b_0a35 == 0x39b_d829_b607_3a6b_9a93_ecd6_2ef9nat);
    assert(0x39b_d829_b607_3a6b_9a93_ecd6_2ef9nat * 0x39b_d829_b607_3a6b_9a93_ecd6_2ef9nat == 0xd_05f0_734d_0217_4641_3944_3283_bb82_5691_f45d_a1bf_1fc3_a8ea_6e31nat);
    assert(0x45_2c59_9066_9ca1nat * 0x45_2c59_9066_9ca1 == 0x12b0_eff6_c049_6d6d_d948_5020_9d41nat);
    assert(0x12b0_eff6_c049_6d6d_d948_5020_9d41nat * 0x12b0_eff6_c049_6d6d_d948_5020_9d41nat == 0x15d_5c09_8741_6139_2178_92b9_bce5_5f46_89a2_dd05_b95f_0d00_50d8_ca81nat);
    assert(0x296_de3bnat * 0x296_de3b == 0x6_b462_1a0e_6199);
    assert(0x6_b462_1a0e_6199nat * 0x6_b462_1a0e_6199 == 0x2c_f3b3_52e8_c214_cdc5_e5f1_4d71nat);
    assert(0x2c_f3b3_52e8_c214_cdc5_e5f1_4d71nat * 0x296_de3b == 0x7465_376a_121f_d5be_e2fd_a801_81fa_d70bnat);
    assert(0x297_003bnat * 0x297_003b == 0x6_b512_319a_0d99);
    assert(0x6_b512_319a_0d99nat * 0x6_b512_319a_0d99 == 0x2c_fced_0ea7_7dac_996c_eecc_e571nat);
    assert(0x2c_fced_0ea7_7dac_996c_eecc_e571nat * 0x297_003b == 0x7483_144f_3e68_da9b_4fe5_d0c1_40df_e10bnat);
    assert(0x7465_376a_121f_d5be_e2fd_a801_81fa_d70bnat * 0x15d_5c09_8741_6139_2178_92b9_bce5_5f46_89a2_dd05_b95f_0d00_50d8_ca81nat == 0x9e_d7d5_4092_e0c4_ce68_5aad_0849_b943_22d1_8666_001a_b673_8d06_5300_e75a_0d89_9f38_6620_3f47_772b_4e5d_0a8bnat);
    assert(0x7483_144f_3e68_da9b_4fe5_d0c1_40df_e10bnat * 0x15d_5c09_8741_6139_2178_92b9_bce5_5f46_89a2_dd05_b95f_0d00_50d8_ca81nat == 0x9f_0096_217f_2766_8320_e283_0cc6_8754_d193_cb87_6466_ab0f_0d40_9fb8_6933_310d_cc26_81aa_f55d_f0cb_a9ab_148bnat);
    assert(0xc35nat * 0x100_0000_0000_0000_0000_0000_0000_0000nat == 0xc_3500_0000_0000_0000_0000_0000_0000_0000nat);
    assert(0xd_05f0_734d_0217_4641_3944_3283_bb82_5691_f45d_a1bf_1fc3_a8ea_6e31nat * 0xc_3500_0000_0000_0000_0000_0000_0000_0000nat == 0x9e_f980_2f7b_0a86_1c9a_300d_7ca2_0fee_0ac3_abfa_f772_0ebf_6cf5_b31c_2500_0000_0000_0000_0000_0000_0000_0000nat);
    lemma_near_above(
        0x3f04_963f, 0x84_963f, 125, 0x100, 0xc_3500_0000_0000_0000_0000_0000_0000_0000nat, 190,
        204525, 0x1e_6512_2c3b_0a35,
        0x39b_d829_b607_3a6b_9a93_ecd6_2ef9nat,
        0x45_2c59_9066_9ca1, 0x12b0_eff6_c049_6d6d_d948_5020_9d41nat,
        0x296_de3b, 0x6_b462_1a0e_6199, 0x2c_f3b3_52e8_c214_cdc5_e5f1_4d71nat,
        0x297_003b, 0x6_b512_319a_0d99, 0x2c_fced_0ea7_7dac_996c_eecc_e571nat,
    );
}

/// The value 0x3f06_25fc.
proof fn lemma_at_3f0625fc()
    ensures
        chord_code(0x3f06_25fc, 0x3f05_5e8d, 0x3f0d_5e8d, 0x433f_825c, 0x4344_8c89) == 191,
{
    reveal(chord_code);
    lemma2_to64();
    lemma2_to64_rest();
    lemma_high_powers();
    assert(0x8d_5e8d * 0x1 - 0x85_5e8d * 0x1 == 0x8_0000);
    lemma_sum_known(0x3f0d_5e8d, 0x3f05_5e8d, true, 0x8d_5e8d, 125, 0x85_5e8d, 125, 0x1, 0x1, 0x8_0000, 20, 0x8_0000, 0x10);
    assert(sub_spec(0x3f0d_5e8d, 0x3f05_5e8d) == 0x3d00_0000);
    assert(0x86_25fc * 0x1 - 0x85_5e8d * 0x1 == 0xc76f);
    lemma_sum_known(0x3f06_25fc, 0x3f05_5e8d, true, 0x86_25fc, 125, 0x85_5e8d, 125, 0x1, 0x1, 0xc76f, 16, 0x8000, 0x100);
    assert(sub_spec(0x3f06_25fc, 0x3f05_5e8d) == 0x3b47_6f00);
    assert(0xc4_8c89 * 0x1 - 0xbf_825c * 0x1 == 0x5_0a2d);
    lemma_sum_known(0x4344_8c89, 0x433f_825c, true, 0xc4_8c89, 133, 0xbf_825c, 133, 0x1, 0x1, 0x5_0a2d, 19, 0x4_0000, 0x20);
    assert(sub_spec(0x4344_8c89, 0x433f_825c) == 0x40a1_45a0);
    assert(0xa1_45a0 * 0xc7_6f00 == 0x7da3_0c90_6000);
    lemma_product_known(0x40a1_45a0, 0x3b47_6f00, 0xa1_45a0, 128, 0xc7_6f00, 117, 0x7da3_0c90_6000, 47, 0x4000_0000_0000, 0x80_0000);
    assert(mul_spec(0x40a1_45a0, 0x3b47_6f00) == 0x3c7b_4619);
    assert(0xfb_4619 * 0x1_0000_0000_0000_0000 == 0x1_f68c_3200_0000_0000 * 0x80_0000 + 0x0);
    lemma_quotient_known(0x3c7b_4619, 0x3d00_0000, 0xfb_4619, 119, 0x80_0000, 121, 0x1_f68c_3200_0000_0000, 0x0, 66, 0x2_0000_0000_0000_0000, 0x400_0000_0000);
    assert(div_spec(0x3c7b_4619, 0x3d00_0000) == 0x3efb_4619);
    assert(0xbf_825c * 0x200 + 0xfb_4619 * 0x1 == 0x1_7fff_fe19);
    lemma_sum_known(0x433f_825c, 0x3efb_4619, false, 0xbf_825c, 133, 0xfb_4619, 124, 0x200, 0x1, 0x1_7fff_fe19, 33, 0x1_0000_0000, 0x200);
    assert(add_spec(0x433f_825c, 0x3efb_4619) == 0x433f_ffff);
    lemma_whole_known(0x433f_ffff, 0xbf_ffff, 133, 0x1_0000);
}

/// The value 0x3f06_25fd.
proof fn lemma_at_3f0625fd()
    ensures
        chord_code(0x3f06_25fd, 0x3f05_5e8d, 0x3f0d_5e8d, 0x433f_825c, 0x4344_8c89) == 192,
{
    reveal(chord_code);
    lemma2_to64();
    lemma2_to64_rest();
    lemma_high_powers();
    assert(0x8d_5e8d * 0x1 - 0x85_5e8d * 0x1 == 0x8_0000);
    lemma_sum_known(0x3f0d_5e8d, 0x3f05_5e8d, true, 0x8d_5e8d, 125, 0x85_5e8d, 125, 0x1, 0x1, 0x8_0000, 20, 0x8_0000, 0x10);
    assert(sub_spec(0x3f0d_5e8d, 0x3f05_5e8d) == 0x3d00_0000);
    assert(0x86_25fd * 0x1 - 0x85_5e8d * 0x1 == 0xc770);
    lemma_sum_known(0x3f06_25fd, 0x3f05_5e8d, true, 0x86_25fd, 125, 0x85_5e8d, 125, 0x1, 0x1, 0xc770, 16, 0x8000, 0x100);
    assert(sub_spec(0x3f06_25fd, 0x3f05_5e8d) == 0x3b47_7000);
    assert(0xc4_8c89 * 0x1 - 0xbf_825c * 0x1 == 0x5_0a2d);
    lemma_sum_known(0x4344_8c89, 0x433f_825c, true, 0xc4_8c89, 133, 0xbf_825c, 133, 0x1, 0x1, 0x5_0a2d, 19, 0x4_0000, 0x20);
    assert(sub_spec(0x4344_8c89, 0x433f_825c) == 0x40a1_45a0);
    assert(0xa1_45a0 * 0xc7_7000 == 0x7da3_add6_0000);
    lemma_product_known(0x40a1_45a0, 0x3b47_7000, 0xa1_45a0, 128, 0xc7_7000, 117, 0x7da3_add6_0000, 47, 0x4000_0000_0000, 0x80_0000);
    assert(mul_spec(0x40a1_45a0, 0x3b47_7000) == 0x3c7b_475c);
    assert(0xfb_475c * 0x1_0000_0000_0000_0000 == 0x1_f68e_b800_0000_0000 * 0x80_0000 + 0x0);
    lemma_quotient_known(0x3c7b_475c, 0x3d00_0000, 0xfb_475c, 119, 0x80_0000, 121, 0x1_f68e_b800_0000_0000, 0x0, 66, 0x2_0000_0000_0000_0000, 0x400_0000_0000);
    assert(div_spec(0x3c7b_475c, 0x3d00_0000) == 0x3efb_475c);
    assert(0xbf_825c * 0x200 + 0xfb_475c * 0x1 == 0x1_7fff_ff5c);
    lemma_sum_known(0x433f_825c, 0x3efb_475c, false, 0xbf_825c, 133, 0xfb_475c, 124, 0x200, 0x1, 0x1_7fff_ff5c, 33, 0x1_0000_0000, 0x200);
    assert(add_spec(0x433f_825c, 0x3efb_475c) == 0x4340_0000);
    lemma_whole_known(0x4340_0000, 0xc0_0000, 133, 0x1_0000);
}

/// The edge of code 191.
proof fn lemma_near_191()
    ensures
        near_exact_edge(0x3f06_25fc, 191),
{
    lemma2_to64();
    lemma2_to64_rest();
    lemma_fifth_powers_of_two();
    lemma_more_fifth_powers_of_two();
    assert(205525nat * 205525 * 205525 == 0x1e_d7c3_83ad_2a6d);
    assert(269025nat * 269025 * 269025 == 0x45_2c59_9066_9ca1);
    assert(0x1e_d7c3_83ad_2a6dnat * 0x1e_d7c3_83ad_2a6d == 0x3b7_47ac_d914_ac58_669b_ec59_f269nat);
    assert(0x3b7_47ac_d914_ac58_669b_ec59_f269nat * 0x3b7_47ac_d914_ac58_669b_ec59_f269nat == 0xd_cee5_9a46_2cb6_5c3f_0803_a2b1_cce7_a007_dd4b_7c7d_2db2_0a8c_af11nat);
    assert(0x45_2c59_9066_9ca1nat * 0x45_2c59_9066_9ca1 == 0x12b0_eff6_c049_6d6d_d948_5020_9d41nat);
    assert(0x12b0_eff6_c049_6d6d_d948_5020_9d41nat * 0x12b0_eff6_c049_6d6d_d948_5020_9d41nat == 0x15d_5c09_8741_6139_2178_92b9_bce5_5f46_89a2_dd05_b95f_0d00_50d8_ca81nat);
    assert(0x29e_acecnat * 0x29e_acec == 0x6_dd0d_981d_f990);
    assert(0x6_dd0d_981d_f990nat * 0x6_dd0d_981d_f990 == 0x2f_1b83_9ac4_4111_947d_7de9_7100nat);
    assert(0x2f_1b83_9ac4_4111_947d_7de9_7100nat * 0x29e_acec == 0x7b69_d458_d6f0_d4a6_6c68_bd3e_a920_2c00nat);
    assert(0x29e_ceecnat * 0x29e_ceec == 0x6_ddbf_c290_a990);
    assert(0x6_ddbf_c290_a990nat * 0x6_ddbf_c290_a990 == 0x2f_2511_c459_9f3f_379d_724f_7100nat);
    assert(0x2f_2511_c459_9f3f_379d_724f_7100nat * 0x29e_ceec == 0x7b89_1fca_5aef_e837_3b19_230b_0c2a_2c00nat);
    assert(0x7b69_d458_d6f0_d4a6_6c68_bd3e_a920_2c00nat * 0x15d_5c09_8741_6139_2178_92b9_bce5_5f46_89a2_dd05_b95f_0d00_50d8_ca81nat == 0xa8_6ba5_1d59_be68_69d5_5cd3_32bc_1dfd_b0c6_8ccd_80de_8e61_4421_159d_679d_2749_8524_ba3d_7e0f_8eeb_bbee_2c00nat);
    assert(0x7b89_1fca_5aef_e837_3b19_230b_0c2a_2c00nat * 0x15d_5c09_8741_6139_2178_92b9_bce5_5f46_89a2_dd05_b95f_0d00_50d8_ca81nat == 0xa8_965a_3761_ac5a_4c3e_cb82_f115_ff46_7335_678e_7ad5_154a_f36e_4124_0e6f_cf51_11ab_b9b0_1aac_d17f_87f8_2c00nat);
    assert(0xc35nat * 0x100_0000_0000_0000_0000_0000_0000_0000nat == 0xc_3500_0000_0000_0000_0000_0000_0000_0000nat);
    assert(0xd_cee5_9a46_2cb6_5c3f_0803_a2b1_cce7_a007_dd4b_7c7d_2db2_0a8c_af11nat * 0xc_3500_0000_0000_0000_0000_0000_0000_0000nat == 0xa8_8e98_c43a_9fce_140d_6cd4_6104_6a47_7480_005a_76a4_0ece_5ac7_550a_8500_0000_0000_0000_0000_0000_0000_0000nat);
    lemma_near_above(
        0x3f06_25fc, 0x86_25fc, 125, 0x100, 0xc_3500_0000_0000_0000_0000_0000_0000_0000nat, 191,
        205525, 0x1e_d7c3_83ad_2a6d,
        0x3b7_47ac_d914_ac58_669b_ec59_f269nat,
        0x45_2c59_9066_9ca1, 0x12b0_eff6_c049_6d6d_d948_5020_9d41nat,
        0x29e_acec, 0x6_dd0d_981d_f990, 0x2f_1b83_9ac4_4111_947d_7de9_7100nat,
        0x29e_ceec, 0x6_ddbf_c290_a990, 0x2f_2511_c459_9f3f_379d_724f_7100nat,
    );
}

/// The value 0x3f07_bc5b.
proof fn lemma_at_3f07bc5b()
    ensures
        chord_code(0x3f07_bc5b, 0x3f05_5e8d, 0x3f0d_5e8d, 0x433f_825c, 0x4344_8c89) == 192,
{
    reveal(chord_code);
    lemma2_to64();
    lemma2_to64_rest();
    lemma_high_powers();
    assert(0x8d_5e8d * 0x1 - 0x85_5e8d * 0x1 == 0x8_0000);
    lemma_sum_known(0x3f0d_5e8d, 0x3f05_5e8d, true, 0x8d_5e8d, 125, 0x85_5e8d, 125, 0x1, 0x1, 0x8_0000, 20, 0x8_0000, 0x10);
    assert(sub_spec(0x3f0d_5e8d, 0x3f05_5e8d) == 0x3d00_0000);
    assert(0x87_bc5b * 0x1 - 0x85_5e8d * 0x1 == 0x2_5dce);
    lemma_sum_known(0x3f07_bc5b, 0x3f05_5e8d, true, 0x87_bc5b, 125, 0x85_5e8d, 125, 0x1, 0x1, 0x2_5dce, 18, 0x2_0000, 0x40);
    assert(sub_spec(0x3f07_bc5b, 0x3f05_5e8d) == 0x3c17_7380);
    assert(0xc4_8c89 * 0x1 - 0xbf_825c * 0x1 == 0x5_0a2d);
    lemma_sum_known(0x4344_8c89, 0x433f_825c, true, 0xc4_8c89, 133, 0xbf_825c, 133, 0x1, 0x1, 0x5_0a2d, 19, 0x4_0000, 0x20);
    assert(sub_spec(0x4344_8c89, 0x433f_825c) == 0x40a1_45a0);
    assert(0xa1_45a0 * 0x97_7380 == 0x5f68_d449_b000);
    lemma_product_known(0x40a1_45a0, 0x3c17_7380, 0xa1_45a0, 128, 0x97_7380, 119, 0x5f68_d449_b000, 47, 0x4000_0000_0000, 0x80_0000);
    assert(mul_spec(0x40a1_45a0, 0x3c17_7380) == 0x3d3e_d1a9);
    assert(0xbe_d1a9 * 0x1_0000_0000_0000_0000 == 0x1_7da3_5200_0000_0000 * 0x80_0000 + 0x0);
    lemma_quotient_known(0x3d3e_d1a9, 0x3d00_0000, 0xbe_d1a9, 121, 0x80_0000, 121, 0x1_7da3_5200_0000_0000, 0x0, 66, 0x2_0000_0000_0000_0000, 0x400_0000_0000);
    assert(div_spec(0x3d3e_d1a9, 0x3d00_0000) == 0x3fbe_d1a9);
    assert(0xbf_825c * 0x80 + 0xbe_d1a9 * 0x1 == 0x607f_ffa9);
    lemma_sum_known(0x433f_825c, 0x3fbe_d1a9, false, 0xbf_825c, 133, 0xbe_d1a9, 126, 0x80, 0x1, 0x607f_ffa9, 31, 0x4000_0000, 0x80);
    assert(add_spec(0x433f_825c, 0x3fbe_d1a9) == 0x4340_ffff);
    lemma_whole_known(0x4340_ffff, 0xc0_ffff, 133, 0x1_0000);
}

/// The value 0x3f07_bc5c.
proof fn lemma_at_3f07bc5c()
    ensures
        chord_code(0x3f07_bc5c, 0x3f05_5e8d, 0x3f0d_5e8d, 0x433f_825c, 0x4344_8c89) == 193,
{
    reveal(chord_code);
    lemma2_to64();
    lemma2_to64_rest();
    lemma_high_powers();
    assert(0x8d_5e8d * 0x1 - 0x85_5e8d * 0x1 == 0x8_0000);
    lemma_sum_known(0x3f0d_5e8d, 0x3f05_5e8d, true, 0x8d_5e8d, 125, 0x85_5e8d, 125, 0x1, 0x1, 0x8_0000, 20, 0x8_0000, 0x10);
    assert(sub_spec(0x3f0d_5e8d, 0x3f05_5e8d) == 0x3d00_0000);
    assert(0x87_bc5c * 0x1 - 0x85_5e8d * 0x1 == 0x2_5dcf);
    lemma_sum_known(0x3f07_bc5c, 0x3f05_5e8d, true, 0x87_bc5c, 125, 0x85_5e8d, 125, 0x1, 0x1, 0x2_5dcf, 18, 0x2_0000, 0x40);
    assert(sub_spec(0x3f07_bc5c, 0x3f05_5e8d) == 0x3c17_73c0);
    assert(0xc4_8c89 * 0x1 - 0xbf_825c * 0x1 == 0x5_0a2d);
    lemma_sum_known(0x4344_8c89, 0x433f_825c, true, 0xc4_8c89, 133, 0xbf_825c, 133, 0x1, 0x1, 0x5_0a2d, 19, 0x4_0000, 0x20);
    assert(sub_spec(0x4344_8c89, 0x433f_825c) == 0x40a1_45a0);
    assert(0xa1_45a0 * 0x97_73c0 == 0x5f68_fc9b_1800);
    lemma_product_known(0x40a1_45a0, 0x3c17_73c0, 0xa1_45a0, 128, 0x97_73c0, 119, 0x5f68_fc9b_1800, 47, 0x4000_0000_0000, 0x80_0000);
    assert(mul_spec(0x40a1_45a0, 0x3c17_73c0) == 0x3d3e_d1f9);
    assert(0xbe_d1f9 * 0x1_0000_0000_0000_0000 == 0x1_7da3_f200_0000_0000 * 0x80_0000 + 0x0);
    lemma_quotient_known(0x3d3e_d1f9, 0x3d00_0000, 0xbe_d1f9, 121, 0x80_0000, 121, 0x1_7da3_f200_0000_0000, 0x0, 66, 0x2_0000_0000_0000_0000, 0x400_0000_0000);
    assert(div_spec(0x3d3e_d1f9, 0x3d00_0000) == 0x3fbe_d1f9);
    assert(0xbf_825c * 0x80 + 0xbe_d1f9 * 0x1 == 0x607f_fff9);
    lemma_sum_known(0x433f_825c, 0x3fbe_d1f9, false, 0xbf_825c, 133, 0xbe_d1f9, 126, 0x80, 0x1, 0x607f_fff9, 31, 0x4000_0000, 0x80);
    assert(add_spec(0x433f_825c, 0x3fbe_d1f9) == 0x4341_0000);
    lemma_whole_known(0x4341_0000, 0xc1_0000, 133, 0x1_0000);
}

/// The edge of code 192.
proof fn lemma_near_192()
    ensures
        near_exact_edge(0x3f07_bc5b, 192),
{
    lemma2_to64();
    lemma2_to64_rest();
    lemma_fifth_powers_of_two();
    lemma_more_fifth_powers_of_two();
    assert(206525nat * 206525 * 206525 == 0x1f_4b93_f897_0625);
    assert(269025nat * 269025 * 269025 == 0x45_2c59_9066_9ca1);
    assert(0x1f_4b93_f897_0625nat * 0x1f_4b93_f897_0625 == 0x3d3_6426_3dc3_6965_b17d_efcb_c159nat);
    assert(0x3d3_6426_3dc3_6965_b17d_efcb_c159nat * 0x3d3_6426_3dc3_6965_b17d_efcb_c159nat == 0xe_a2e7_23aa_4a8f_2f0c_fb77_580a_2c62_301c_b683_612f_f81a_632d_50f1nat);
    assert(0x45_2c59_9066_9ca1nat * 0x45_2c59_9066_9ca1 == 0x12b0_eff6_c049_6d6d_d948_5020_9d41nat);
    assert(0x12b0_eff6_c049_6d6d_d948_5020_9d41nat * 0x12b0_eff6_c049_6d6d_d948_5020_9d41nat == 0x15d_5c09_8741_6139_2178_92b9_bce5_5f46_89a2_dd05_b95f_0d00_50d8_ca81nat);
    assert(0x2a6_9cc7nat * 0x2a6_9cc7 == 0x7_06e2_ce17_22b1);
    assert(0x7_06e2_ce17_22b1nat * 0x7_06e2_ce17_22b1 == 0x31_6096_afdd_8210_ca70_1c81_7e61nat);
    assert(0x31_6096_afdd_8210_ca70_1c81_7e61nat * 0x2a6_9cc7 == 0x82e4_0c53_acf4_28ea_7b55_2d79_c692_5967nat);
    assert(0x2a6_bec7nat * 0x2a6_bec7 == 0x7_0797_143f_feb1);
    assert(0x7_0797_143f_feb1nat * 0x7_0797_143f_feb1 == 0x31_6a7c_b7c4_52b4_3299_0081_b661nat);
    assert(0x31_6a7c_b7c4_52b4_3299_0081_b661nat * 0x2a6_bec7 == 0x8304_d9c1_0949_983c_08d8_3ad8_af16_c367nat);
    assert(0x82e4_0c53_acf4_28ea_7b55_2d79_c692_5967nat * 0x15d_5c09_8741_6139_2178_92b9_bce5_5f46_89a2_dd05_b95f_0d00_50d8_ca81nat == 0xb2_9ff3_a1ac_fa11_7af7_01ed_98b9_2f4c_c347_dc4a_796f_424f_e86d_ea0a_9717_5b96_b9eb_9d90_d35e_8378_2932_52e7nat);
    assert(0x8304_d9c1_0949_983c_08d8_3ad8_af16_c367nat * 0x15d_5c09_8741_6139_2178_92b9_bce5_5f46_89a2_dd05_b95f_0d00_50d8_ca81nat == 0xb2_ccb7_7acf_b546_79c5_1cf9_4a2d_cc28_1097_4cfc_1a1c_9137_b3e8_ce3a_5029_5002_35dd_479f_8b14_b49d_3f8f_bce7nat);
    assert(0xc35nat * 0x100_0000_0000_0000_0000_0000_0000_0000nat == 0xc_3500_0000_0000_0000_0000_0000_0000_0000nat);
    assert(0xe_a2e7_23aa_4a8f_2f0c_fb77_580a_2c62_301c_b683_612f_f81a_632d_50f1nat * 0xc_3500_0000_0000_0000_0000_0000_0000_0000nat == 0xb2_aa8f_865d_c025_d959_79a7_d5b4_2fca_954e_7ff1_c15e_8f9a_1ca8_2d0d_e500_0000_0000_0000_0000_0000_0000_0000nat);
    lemma_near_above(
        0x3f07_bc5b, 0x87_bc5b, 125, 0x100, 0xc_3500_0000_0000_0000_0000_0000_0000_0000nat, 192,
        206525, 0x1f_4b93_f897_0625,
        0x3d3_6426_3dc3_6965_b17d_efcb_c159nat,
        0x45_2c59_9066_9ca1, 0x12b0_eff6_c049_6d6d_d948_5020_9d41nat,
        0x2a6_9cc7, 0x7_06e2_ce17_22b1, 0x31_6096_afdd_8210_ca70_1c81_7e61nat,
        0x2a6_bec7, 0x7_0797_143f_feb1, 0x31_6a7c_b7c4_52b4_3299_0081_b661nat,
    );
}

/// The value 0x3f09_52b9.
proof fn lemma_at_3f0952b9()
    ensures
        chord_code(0x3f09_52b9, 0x3f05_5e8d, 0x3f0d_5e8d, 0x433f_825c, 0x4344_8c89) == 193,
{
    reveal(chord_code);
    lemma2_to64();
    lemma2_to64_rest();
    lemma_high_powers();
    assert(0x8d_5e8d * 0x1 - 0x85_5e8d * 0x1 == 0x8_0000);
    lemma_sum_known(0x3f0d_5e8d, 0x3f05_5e8d, true, 0x8d_5e8d, 125, 0x85_5e8d, 125, 0x1, 0x1, 0x8_0000, 20, 0x8_0000, 0x10);
    assert(sub_spec(0x3f0d_5e8d, 0x3f05_5e8d) == 0x3d00_0000);
    assert(0x89_52b9 * 0x1 - 0x85_5e8d * 0x1 == 0x3_f42c);
    lemma_sum_known(0x3f09_52b9, 0x3f05_5e8d, true, 0x89_52b9, 125, 0x85_5e8d, 125, 0x1, 0x1, 0x3_f42c, 18, 0x2_0000, 0x40);
    assert(sub_spec(0x3f09_52b9, 0x3f05_5e8d) == 0x3c7d_0b00);
    assert(0xc4_8c89 * 0x1 - 0xbf_825c * 0x1 == 0x5_0a2d);
    lemma_sum_known(0x4344_8c89, 0x433f_825c, true, 0xc4_8c89, 133, 0xbf_825c, 133, 0x1, 0x1, 0x5_0a2d, 19, 0x4_0000, 0x20);
    assert(sub_spec(0x4344_8c89, 0x433f_825c) == 0x40a1_45a0);
    assert(0xa1_45a0 * 0xfd_0b00 == 0x9f68_bd1d_e000);
    lemma_product_known(0x40a1_45a0, 0x3c7d_0b00, 0xa1_45a0, 128, 0xfd_0b00, 119, 0x9f68_bd1d_e000, 48, 0x8000_0000_0000, 0x100_0000);
    assert(mul_spec(0x40a1_45a0, 0x3c7d_0b00) == 0x3d9f_68bd);
    assert(0x9f_68bd * 0x1_0000_0000_0000_0000 == 0x1_3ed1_7a00_0000_0000 * 0x80_0000 + 0x0);
    lemma_quotient_known(0x3d9f_68bd, 0x3d00_0000, 0x9f_68bd, 122, 0x80_0000, 121, 0x1_3ed1_7a00_0000_0000, 0x0, 66, 0x2_0000_0000_0000_0000, 0x400_0000_0000);
    assert(div_spec(0x3d9f_68bd, 0x3d00_0000) == 0x401f_68bd);
    assert(0xbf_825c * 0x40 + 0x9f_68bd * 0x1 == 0x307f_ffbd);
    lemma_sum_known(0x433f_825c, 0x401f_68bd, false, 0xbf_825c, 133, 0x9f_68bd, 127, 0x40, 0x1, 0x307f_ffbd, 30, 0x2000_0000, 0x40);
    assert(add_spec(0x433f_825c, 0x401f_68bd) == 0x4341_ffff);
    lemma_whole_known(0x4341_ffff, 0xc1_ffff, 133, 0x1_0000);
}

/// The value 0x3f09_52ba.
proof fn lemma_at_3f0952ba()
    ensures
        chord_code(0x3f09_52ba, 0x3f05_5e8d, 0x3f0d_5e8d, 0x433f_825c, 0x4344_8c89) == 194,
{
    reveal(chord_code);
    lemma2_to64();
    lemma2_to64_rest();
    lemma_high_powers();
    assert(0x8d_5e8d * 0x1 - 0x85_5e8d * 0x1 == 0x8_0000);
    lemma_sum_known(0x3f0d_5e8d, 0x3f05_5e8d, true, 0x8d_5e8d, 125, 0x85_5e8d, 125, 0x1, 0x1, 0x8_0000, 20, 0x8_0000, 0x10);
    assert(sub_spec(0x3f0d_5e8d, 0x3f05_5e8d) == 0x3d00_0000);
    assert(0x89_52ba * 0x1 - 0x85_5e8d * 0x1 == 0x3_f42d);
    lemma_sum_known(0x3f09_52ba, 0x3f05_5e8d, true, 0x89_52ba, 125, 0x85_5e8d, 125, 0x1, 0x1, 0x3_f42d, 18, 0x2_0000, 0x40);
    assert(sub_spec(0x3f09_52ba, 0x3f05_5e8d) == 0x3c7d_0b40);
    assert(0xc4_8c89 * 0x1 - 0xbf_825c * 0x1 == 0x5_0a2d);
    lemma_sum_known(0x4344_8c89, 0x433f_825c, true, 0xc4_8c89, 133, 0xbf_825c, 133, 0x1, 0x1, 0x5_0a2d, 19, 0x4_0000, 0x20);
    assert(sub_spec(0x4344_8c89, 0x433f_825c) == 0x40a1_45a0);
    assert(0xa1_45a0 * 0xfd_0b40 == 0x9f68_e56f_4800);
    lemma_product_known(0x40a1_45a0, 0x3c7d_0b40, 0xa1_45a0, 128, 0xfd_0b40, 119, 0x9f68_e56f_4800, 48, 0x8000_0000_0000, 0x100_0000);
    assert(mul_spec(0x40a1_45a0, 0x3c7d_0b40) == 0x3d9f_68e5);
    assert(0x9f_68e5 * 0x1_0000_0000_0000_0000 == 0x1_3ed1_ca00_0000_0000 * 0x80_0000 + 0x0);
    lemma_quotient_known(0x3d9f_68e5, 0x3d00_0000, 0x9f_68e5, 122, 0x80_0000, 121, 0x1_3ed1_ca00_0000_0000, 0x0, 66, 0x2_0000_0000_0000_0000, 0x400_0000_0000);
    assert(div_spec(0x3d9f_68e5, 0x3d00_0000) == 0x401f_68e5);
    assert(0xbf_825c * 0x40 + 0x9f_68e5 * 0x1 == 0x307f_ffe5);
    lemma_sum_known(0x433f_825c, 0x401f_68e5, false, 0xbf_825c, 133, 0x9f_68e5, 127, 0x40, 0x1, 0x307f_ffe5, 30, 0x2000_0000, 0x40);
    assert(add_spec(0x433f_825c, 0x401f_68e5) == 0x4342_0000);
    lemma_whole_known(0x4342_0000, 0xc2_0000, 133, 0x1_0000);
}

/// The edge of code 193.
proof fn lemma_near_193()
    ensures
        near_exact_edge(0x3f09_52b9, 193),
{
    lemma2_to64();
    lemma2_to64_rest();
    lemma_fifth_powers_of_two();
    lemma_more_fifth_powers_of_two();
    assert(207525nat * 207525 * 207525 == 0x1f_c084_f099_595d);
    assert(269025nat * 269025 * 269025 == 0x45_2c59_9066_9ca1);
    assert(0x1f_c084_f099_595dnat * 0x1f_c084_f099_595d == 0x3f0_30f9_f312_aad5_8b52_505b_cbc9nat);
    assert(0x3f0_30f9_f312_aad5_8b52_505b_cbc9nat * 0x3f0_30f9_f312_aad5_8b52_505b_cbc9nat == 0xf_8281_b9b8_e233_12d6_018e_95ad_b929_d450_5f67_53ce_530c_231e_63d1nat);
    assert(0x45_2c59_9066_9ca1nat * 0x45_2c59_9066_9ca1 == 0x12b0_eff6_c049_6d6d_d948_5020_9d41nat);
    assert(0x12b0_eff6_c049_6d6d_d948_5020_9d41nat * 0x12b0_eff6_c049_6d6d_d948_5020_9d41nat == 0x15d_5c09_8741_6139_2178_92b9_bce5_5f46_89a2_dd05_b95f_0d00_50d8_ca81nat);
    assert(0x2ae_8c9dnat * 0x2ae_8c9d == 0x7_3135_e6a8_1849);
    assert(0x7_3135_e6a8_1849nat * 0x7_3135_e6a8_1849 == 0x33_ba68_4ad6_feb6_7a3d_0e1d_c4d1nat);
    assert(0x33_ba68_4ad6_feb6_7a3d_0e1d_c4d1nat * 0x2ae_8c9d == 0x8ab9_ed22_e702_0621_905e_2eef_57f2_002dnat);
    assert(0x2ae_ae9dnat * 0x2ae_ae9d == 0x7_31ec_4885_cc49);
    assert(0x7_31ec_4885_cc49nat * 0x7_31ec_4885_cc49 == 0x33_c4a8_452a_2f6e_216e_f6de_6cd1nat);
    assert(0x33_c4a8_452a_2f6e_216e_f6de_6cd1nat * 0x2ae_ae9d == 0x8adc_4a53_5140_3039_889d_74e0_2c6c_ca2dnat);
    assert(0x8ab9_ed22_e702_0621_905e_2eef_57f2_002dnat * 0x15d_5c09_8741_6139_2178_92b9_bce5_5f46_89a2_dd05_b95f_0d00_50d8_ca81nat == 0xbd_5158_43a2_48f3_3b1a_24bd_b600_9e93_896a_5470_591e_4425_9182_3ad7_34e9_5dd3_a767_573d_55a1_9f3e_7b0d_98adnat);
    assert(0x8adc_4a53_5140_3039_889d_74e0_2c6c_ca2dnat * 0x15d_5c09_8741_6139_2178_92b9_bce5_5f46_89a2_dd05_b95f_0d00_50d8_ca81nat == 0xbd_803d_a967_f47f_ef64_0345_aef0_4684_47a9_2ec3_b5f7_7f3b_2343_1313_3880_563a_6eff_74c6_d28f_8bfc_e051_62adnat);
    assert(0xc35nat * 0x100_0000_0000_0000_0000_0000_0000_0000nat == 0xc_3500_0000_0000_0000_0000_0000_0000_0000nat);
    assert(0xf_8281_b9b8_e233_12d6_018e_95ad_b929_d450_5f67_53ce_530c_231e_63d1nat * 0xc_3500_0000_0000_0000_0000_0000_0000_0000nat == 0xbd_5419_901d_e139_74ee_6101_8921_a54b_9cb9_1c98_5205_9bc3_28b1_f876_4500_0000_0000_0000_0000_0000_0000_0000nat);
    lemma_near_above(
        0x3f09_52b9, 0x89_52b9, 125, 0x100, 0xc_3500_0000_0000_0000_0000_0000_0000_0000nat, 193,
        207525, 0x1f_c084_f099_595d,
        0x3f0_30f9_f312_aad5_8b52_505b_cbc9nat,
        0x45_2c59_9066_9ca1, 0x12b0_eff6_c049_6d6d_d948_5020_9d41nat,
        0x2ae_8c9d, 0x7_3135_e6a8_1849, 0x33_ba68_4ad6_feb6_7a3d_0e1d_c4d1nat,
        0x2ae_ae9d, 0x7_31ec_4885_cc49, 0x33_c4a8_452a_2f6e_216e_f6de_6cd1nat,
    );
}

/// The value 0x3f0a_e918.
proof fn lemma_at_3f0ae918()
    ensures
        chord_code(0x3f0a_e918, 0x3f05_5e8d, 0x3f0d_5e8d, 0x433f_825c, 0x4344_8c89) == 194,
{
    reveal(chord_code);
    lemma2_to64();
    lemma2_to64_rest();
    lemma_high_powers();
    assert(0x8d_5e8d * 0x1 - 0x85_5e8d * 0x1 == 0x8_0000);
    lemma_sum_known(0x3f0d_5e8d, 0x3f05_5e8d, true, 0x8d_5e8d, 125, 0x85_5e8d, 125, 0x1, 0x1, 0x8_0000, 20, 0x8_0000, 0x10);
    assert(sub_spec(0x3f0d_5e8d, 0x3f05_5e8d) == 0x3d00_0000);
    assert(0x8a_e918 * 0x1 - 0x85_5e8d * 0x1 == 0x5_8a8b);
    lemma_sum_known(0x3f0a_e918, 0x3f05_5e8d, true, 0x8a_e918, 125, 0x85_5e8d, 125, 0x1, 0x1, 0x5_8a8b, 19, 0x4_0000, 0x20);
    assert(sub_spec(0x3f0a_e918, 0x3f05_5e8d) == 0x3cb1_5160);
    assert(0xc4_8c89 * 0x1 - 0xbf_825c * 0x1 == 0x5_0a2d);
    lemma_sum_known(0x4344_8c89, 0x433f_825c, true, 0xc4_8c89, 133, 0xbf_825c, 133, 0x1, 0x1, 0x5_0a2d, 19, 0x4_0000, 0x20);
    assert(sub_spec(0x4344_8c89, 0x433f_825c) == 0x40a1_45a0);
    assert(0xa1_45a0 * 0xb1_5160 == 0x6fb4_6721_bc00);
    lemma_product_known(0x40a1_45a0, 0x3cb1_5160, 0xa1_45a0, 128, 0xb1_5160, 120, 0x6fb4_6721_bc00, 47, 0x4000_0000_0000, 0x80_0000);
    assert(mul_spec(0x40a1_45a0, 0x3cb1_5160) == 0x3ddf_68ce);
    assert(0xdf_68ce * 0x1_0000_0000_0000_0000 == 0x1_bed1_9c00_0000_0000 * 0x80_0000 + 0x0);
    lemma_quotient_known(0x3ddf_68ce, 0x3d00_0000, 0xdf_68ce, 122, 0x80_0000, 121, 0x1_bed1_9c00_0000_0000, 0x0, 66, 0x2_0000_0000_0000_0000, 0x400_0000_0000);
    assert(div_spec(0x3ddf_68ce, 0x3d00_0000) == 0x405f_68ce);
    assert(0xbf_825c * 0x40 + 0xdf_68ce * 0x1 == 0x30bf_ffce);
    lemma_sum_known(0x433f_825c, 0x405f_68ce, false, 0xbf_825c, 133, 0xdf_68ce, 127, 0x40, 0x1, 0x30bf_ffce, 30, 0x2000_0000, 0x40);
    assert(add_spec(0x433f_825c, 0x405f_68ce) == 0x4342_ffff);
    lemma_whole_known(0x4342_ffff, 0xc2_ffff, 133, 0x1_0000);
}

/// The value 0x3f0a_e919.
proof fn lemma_at_3f0ae919()
    ensures
        chord_code(0x3f0a_e919, 0x3f05_5e8d, 0x3f0d_5e8d, 0x433f_825c, 0x4344_8c89) == 195,
{
    reveal(chord_code);
    lemma2_to64();
    lemma2_to64_rest();
    lemma_high_powers();
    assert(0x8d_5e8d * 0x1 - 0x85_5e8d * 0x1 == 0x8_0000);
    lemma_sum_known(0x3f0d_5e8d, 0x3f05_5e8d, true, 0x8d_5e8d, 125, 0x85_5e8d, 125, 0x1, 0x1, 0x8_0000, 20, 0x8_0000, 0x10);
    assert(sub_spec(0x3f0d_5e8d, 0x3f05_5e8d) == 0x3d00_0000);
    assert(0x8a_e919 * 0x1 - 0x85_5e8d * 0x1 == 0x5_8a8c);
    lemma_sum_known(0x3f0a_e919, 0x3f05_5e8d, true, 0x8a_e919, 125, 0x85_5e8d, 125, 0x1, 0x1, 0x5_8a8c, 19, 0x4_0000, 0x20);
    assert(sub_spec(0x3f0a_e919, 0x3f05_5e8d) == 0x3cb1_5180);
    assert(0xc4_8c89 * 0x1 - 0xbf_825c * 0x1 == 0x5_0a2d);
    lemma_sum_known(0x4344_8c89, 0x433f_825c, true, 0xc4_8c89, 133, 0xbf_825c, 133, 0x1, 0x1, 0x5_0a2d, 19, 0x4_0000, 0x20);
    assert(sub_spec(0x4344_8c89, 0x433f_825c) == 0x40a1_45a0);
    assert(0xa1_45a0 * 0xb1_5180 == 0x6fb4_7b4a_7000);
    lemma_product_known(0x40a1_45a0, 0x3cb1_5180, 0xa1_45a0, 128, 0xb1_5180, 120, 0x6fb4_7b4a_7000, 47, 0x4000_0000_0000, 0x80_0000);
    assert(mul_spec(0x40a1_45a0, 0x3cb1_5180) == 0x3ddf_68f7);
    assert(0xdf_68f7 * 0x1_0000_0000_0000_0000 == 0x1_bed1_ee00_0000_0000 * 0x80_0000 + 0x0);
    lemma_quotient_known(0x3ddf_68f7, 0x3d00_0000, 0xdf_68f7, 122, 0x80_0000, 121, 0x1_bed1_ee00_0000_0000, 0x0, 66, 0x2_0000_0000_0000_0000, 0x400_0000_0000);
    assert(div_spec(0x3ddf_68f7, 0x3d00_0000) == 0x405f_68f7);
    assert(0xbf_825c * 0x40 + 0xdf_68f7 * 0x1 == 0x30bf_fff7);
    lemma_sum_known(0x433f_825c, 0x405f_68f7, false, 0xbf_825c, 133, 0xdf_68f7, 127, 0x40, 0x1, 0x30bf_fff7, 30, 0x2000_0000, 0x40);
    assert(add_spec(0x433f_825c, 0x405f_68f7) == 0x4343_0000);
    lemma_whole_known(0x4343_0000, 0xc3_0000, 133, 0x1_0000);
}

/// The edge of code 194.
proof fn lemma_near_194()
    ensures
        near_exact_edge(0x3f0a_e918, 194),
{
    lemma2_to64();
    lemma2_to64_rest();
    lemma_fifth_powers_of_two();
    lemma_more_fifth_powers_of_two();
    assert(208525nat * 208525 * 208525 == 0x20_3697_d154_e015);
    assert(269025nat * 269025 * 269025 == 0x45_2c59_9066_9ca1);
    assert(0x20_3697_d154_e015nat * 0x20_3697_d154_e015 == 0x40d_b198_bb90_7114_e6cc_1bec_c1b9nat);
    assert(0x40d_b198_bb90_7114_e6cc_1bec_c1b9nat * 0x40d_b198_bb90_7114_e6cc_1bec_c1b9nat == 0x10_6e48_4a94_1eb1_24a7_5846_7fbd_4db2_3bac_fb0d_8760_f6aa_c5b0_77b1nat);
    assert(0x45_2c59_9066_9ca1nat * 0x45_2c59_9066_9ca1 == 0x12b0_eff6_c049_6d6d_d948_5020_9d41nat);
    assert(0x12b0_eff6_c049_6d6d_d948_5020_9d41nat * 0x12b0_eff6_c049_6d6d_d948_5020_9d41nat == 0x15d_5c09_8741_6139_2178_92b9_bce5_5f46_89a2_dd05_b95f_0d00_50d8_ca81nat);
    assert(0x2b6_7c78nat * 0x2b6_7c78 == 0x7_5c07_1724_7840);
    assert(0x7_5c07_1724_7840nat * 0x7_5c07_1724_7840 == 0x36_2978_5cd3_1004_264d_8a7c_1000nat);
    assert(0x36_2978_5cd3_1004_264d_8a7c_1000nat * 0x2b6_7c78 == 0x92ee_c1c5_618f_29f1_5ab4_efc0_61e7_8000nat);
    assert(0x2b6_9e78nat * 0x2b6_9e78 == 0x7_5cbf_94b8_5840);
    assert(0x7_5cbf_94b8_5840nat * 0x7_5cbf_94b8_5840 == 0x36_3414_6458_9467_5a48_fa6c_1000nat);
    assert(0x36_3414_6458_9467_5a48_fa6c_1000nat * 0x2b6_9e78 == 0x9312_bcd5_07a0_054c_1c02_3db7_7487_8000nat);
    assert(0x92ee_c1c5_618f_29f1_5ab4_efc0_61e7_8000nat * 0x15d_5c09_8741_6139_2178_92b9_bce5_5f46_89a2_dd05_b95f_0d00_50d8_ca81nat == 0xc8_8451_6fbf_2dc7_9a7f_0d3e_003e_0b61_8359_66c3_2801_e2aa_8600_2a77_aeec_b89f_e290_8d29_24c5_9086_00a7_8000nat);
    assert(0x9312_bcd5_07a0_054c_1c02_3db7_7487_8000nat * 0x15d_5c09_8741_6139_2178_92b9_bce5_5f46_89a2_dd05_b95f_0d00_50d8_ca81nat == 0xc8_b56b_a3a5_0893_3459_7df6_1baf_f6e2_b20f_10e3_f2a4_694e_7091_9f7c_3fa6_6651_345b_0954_aa88_85b8_a347_8000nat);
    assert(0xc35nat * 0x100_0000_0000_0000_0000_0000_0000_0000nat == 0xc_3500_0000_0000_0000_0000_0000_0000_0000nat);
    assert(0x10_6e48_4a94_1eb1_24a7_5846_7fbd_4db2_3bac_fb0d_8760_f6aa_c5b0_77b1nat * 0xc_3500_0000_0000_0000_0000_0000_0000_0000nat == 0xc8_9238_7662_1aa8_646e_c894_9551_d570_b276_949c_2592_a312_9f33_2513_a500_0000_0000_0000_0000_0000_0000_0000nat);
    lemma_near_above(
        0x3f0a_e918, 0x8a_e918, 125, 0x100, 0xc_3500_0000_0000_0000_0000_0000_0000_0000nat, 194,
        208525, 0x20_3697_d154_e015,
        0x40d_b198_bb90_7114_e6cc_1bec_c1b9nat,
        0x45_2c59_9066_9ca1, 0x12b0_eff6_c049_6d6d_d948_5020_9d41nat,
        0x2b6_7c78, 0x7_5c07_1724_7840, 0x36_2978_5cd3_1004_264d_8a7c_1000nat,
        0x2b6_9e78, 0x7_5cbf_94b8_5840, 0x36_3414_6458_9467_5a48_fa6c_1000nat,
    );
}

/// The value 0x3f0c_7f76.
proof fn lemma_at_3f0c7f76()
    ensures
        chord_code(0x3f0c_7f76, 0x3f05_5e8d, 0x3f0d_5e8d, 0x433f_825c, 0x4344_8c89) == 195,
{
    reveal(chord_code);
    lemma2_to64();
    lemma2_to64_rest();
    lemma_high_powers();
    assert(0x8d_5e8d * 0x1 - 0x85_5e8d * 0x1 == 0x8_0000);
    lemma_sum_known(0x3f0d_5e8d, 0x3f05_5e8d, true, 0x8d_5e8d, 125, 0x85_5e8d, 125, 0x1, 0x1, 0x8_0000, 20, 0x8_0000, 0x10);
    assert(sub_spec(0x3f0d_5e8d, 0x3f05_5e8d) == 0x3d00_0000);
    assert(0x8c_7f76 * 0x1 - 0x85_5e8d * 0x1 == 0x7_20e9);
    lemma_sum_known(0x3f0c_7f76, 0x3f05_5e8d, true, 0x8c_7f76, 125, 0x85_5e8d, 125, 0x1, 0x1, 0x7_20e9, 19, 0x4_0000, 0x20);
    assert(sub_spec(0x3f0c_7f76, 0x3f05_5e8d) == 0x3ce4_1d20);
    assert(0xc4_8c89 * 0x1 - 0xbf_825c * 0x1 == 0x5_0a2d);
    lemma_sum_known(0x4344_8c89, 0x433f_825c, true, 0xc4_8c89, 133, 0xbf_825c, 133, 0x1, 0x1, 0x5_0a2d, 19, 0x4_0000, 0x20);
    assert(sub_spec(0x4344_8c89, 0x433f_825c) == 0x40a1_45a0);
    assert(0xa1_45a0 * 0xe4_1d20 == 0x8fb4_5b8b_d400);
    lemma_product_known(0x40a1_45a0, 0x3ce4_1d20, 0xa1_45a0, 128, 0xe4_1d20, 120, 0x8fb4_5b8b_d400, 48, 0x8000_0000_0000, 0x100_0000);
    assert(mul_spec(0x40a1_45a0, 0x3ce4_1d20) == 0x3e0f_b45c);
    assert(0x8f_b45c * 0x1_0000_0000_0000_0000 == 0x1_1f68_b800_0000_0000 * 0x80_0000 + 0x0);
    lemma_quotient_known(0x3e0f_b45c, 0x3d00_0000, 0x8f_b45c, 123, 0x80_0000, 121, 0x1_1f68_b800_0000_0000, 0x0, 66, 0x2_0000_0000_0000_0000, 0x400_0000_0000);
    assert(div_spec(0x3e0f_b45c, 0x3d00_0000) == 0x408f_b45c);
    assert(0xbf_825c * 0x20 + 0x8f_b45c * 0x1 == 0x187f_ffdc);
    lemma_sum_known(0x433f_825c, 0x408f_b45c, false, 0xbf_825c, 133, 0x8f_b45c, 128, 0x20, 0x1, 0x187f_ffdc, 29, 0x1000_0000, 0x20);
    assert(add_spec(0x433f_825c, 0x408f_b45c) == 0x4343_ffff);
    lemma_whole_known(0x4343_ffff, 0xc3_ffff, 133, 0x1_0000);
}

/// The value 0x3f0c_7f77.
proof fn lemma_at_3f0c7f77()
    ensures
        chord_code(0x3f0c_7f77, 0x3f05_5e8d, 0x3f0d_5e8d, 0x433f_825c, 0x4344_8c89) == 196,
{
    reveal(chord_code);
    lemma2_to64();
    lemma2_to64_rest();
    lemma_high_powers();
    assert(0x8d_5e8d * 0x1 - 0x85_5e8d * 0x1 == 0x8_0000);
    lemma_sum_known(0x3f0d_5e8d, 0x3f05_5e8d, true, 0x8d_5e8d, 125, 0x85_5e8d, 125, 0x1, 0x1, 0x8_0000, 20, 0x8_0000, 0x10);
    assert(sub_spec(0x3f0d_5e8d, 0x3f05_5e8d) == 0x3d00_0000);
    assert(0x8c_7f77 * 0x1 - 0x85_5e8d * 0x1 == 0x7_20ea);
    lemma_sum_known(0x3f0c_7f77, 0x3f05_5e8d, true, 0x8c_7f77, 125, 0x85_5e8d, 125, 0x1, 0x1, 0x7_20ea, 19, 0x4_0000, 0x20);
    assert(sub_spec(0x3f0c_7f77, 0x3f05_5e8d) == 0x3ce4_1d40);
    assert(0xc4_8c89 * 0x1 - 0xbf_825c * 0x1 == 0x5_0a2d);
    lemma_sum_known(0x4344_8c89, 0x433f_825c, true, 0xc4_8c89, 133, 0xbf_825c, 133, 0x1, 0x1, 0x5_0a2d, 19, 0x4_0000, 0x20);
    assert(sub_spec(0x4344_8c89, 0x433f_825c) == 0x40a1_45a0);
    assert(0xa1_45a0 * 0xe4_1d40 == 0x8fb4_6fb4_8800);
    lemma_product_known(0x40a1_45a0, 0x3ce4_1d40, 0xa1_45a0, 128, 0xe4_1d40, 120, 0x8fb4_6fb4_8800, 48, 0x8000_0000_0000, 0x100_0000);
    assert(mul_spec(0x40a1_45a0, 0x3ce4_1d40) == 0x3e0f_b470);
    assert(0x8f_b470 * 0x1_0000_0000_0000_0000 == 0x1_1f68_e000_0000_0000 * 0x80_0000 + 0x0);
    lemma_quotient_known(0x3e0f_b470, 0x3d00_0000, 0x8f_b470, 123, 0x80_0000, 121, 0x1_1f68_e000_0000_0000, 0x0, 66, 0x2_0000_0000_0000_0000, 0x400_0000_0000);
    assert(div_spec(0x3e0f_b470, 0x3d00_0000) == 0x408f_b470);
    assert(0xbf_825c * 0x20 + 0x8f_b470 * 0x1 == 0x187f_fff0);
    lemma_sum_known(0x433f_825c, 0x408f_b470, false, 0xbf_825c, 133, 0x8f_b470, 128, 0x20, 0x1, 0x187f_fff0, 29, 0x1000_0000, 0x20);
    assert(add_spec(0x433f_825c, 0x408f_b470) == 0x4344_0000);
    lemma_whole_known(0x4344_0000, 0xc4_0000, 133, 0x1_0000);
}

/// The edge of code 195.
proof fn lemma_near_195()
    ensures
        near_exact_edge(0x3f0c_7f76, 195),
{
    lemma2_to64();
    lemma2_to64_rest();
    lemma_fifth_powers_of_two();
    lemma_more_fifth_powers_of_two();
    assert(209525nat * 209525 * 209525 == 0x20_adce_006a_564d);
    assert(269025nat * 269025 * 269025 == 0x45_2c59_9066_9ca1);
    assert(0x20_adce_006a_564dnat * 0x20_adce_006a_564d == 0x42b_e980_2ce9_f707_2217_94db_d329nat);
    assert(0x42b_e980_2ce9_f707_2217_94db_d329nat * 0x42b_e980_2ce9_f707_2217_94db_d329nat == 0x11_66d4_4770_f840_0af9_7681_f212_280e_b6d1_13d7_2463_be48_5e52_9c91nat);
    assert(0x45_2c59_9066_9ca1nat * 0x45_2c59_9066_9ca1 == 0x12b0_eff6_c049_6d6d_d948_5020_9d41nat);
    assert(0x12b0_eff6_c049_6d6d_d948_5020_9d41nat * 0x12b0_eff6_c049_6d6d_d948_5020_9d41nat == 0x15d_5c09_8741_6139_2178_92b9_bce5_5f46_89a2_dd05_b95f_0d00_50d8_ca81nat);
    assert(0x2be_6c4enat * 0x2be_6c4e == 0x7_8756_2999_e7c4);
    assert(0x7_8756_2999_e7c4nat * 0x7_8756_2999_e7c4 == 0x38_ae42_434a_f953_1873_a21b_4e10nat);
    assert(0x38_ae42_434a_f953_1873_a21b_4e10nat * 0x2be_6c4e == 0x9b85_d47d_942b_d3e4_12b8_c27e_f920_88e0nat);
    assert(0x2be_8e4enat * 0x2be_8e4e == 0x7_8810_c2e2_9fc4);
    assert(0x7_8810_c2e2_9fc4nat * 0x7_8810_c2e2_9fc4 == 0x38_b93c_788e_7728_7b43_89c5_0e10nat);
    assert(0x38_b93c_788e_7728_7b43_89c5_0e10nat * 0x2be_8e4e == 0x9bab_7bda_91f6_8282_c5e8_cf5b_d7b7_28e0nat);
    assert(0x9b85_d47d_942b_d3e4_12b8_c27e_f920_88e0nat * 0x15d_5c09_8741_6139_2178_92b9_bce5_5f46_89a2_dd05_b95f_0d00_50d8_ca81nat == 0xd4_3d5c_916f_e483_6b49_10db_d5f0_ca75_2e34_ecf8_9bde_88a3_ff83_058b_348a_f418_1024_ba62_53a1_f0c8_b265_b8e0nat);
    assert(0x9bab_7bda_91f6_8282_c5e8_cf5b_d7b7_28e0nat * 0x15d_5c09_8741_6139_2178_92b9_bce5_5f46_89a2_dd05_b95f_0d00_50d8_ca81nat == 0xd4_70bf_44c2_142d_11c8_4410_4a83_c5e0_6da0_52d6_ce14_454a_df0b_a356_3f17_8e6e_437f_f121_6f09_94ce_b68c_58e0nat);
    assert(0xc35nat * 0x100_0000_0000_0000_0000_0000_0000_0000nat == 0xc_3500_0000_0000_0000_0000_0000_0000_0000nat);
    assert(0x11_66d4_4770_f840_0af9_7681_f212_280e_b6d1_13d7_2463_be48_5e52_9c91nat * 0xc_3500_0000_0000_0000_0000_0000_0000_0000nat == 0xd4_6c3d_4c16_0665_c5f7_33a0_3ff7_a2fb_9da6_3731_3f35_91c9_6766_7136_0500_0000_0000_0000_0000_0000_0000_0000nat);
    lemma_near_above(
        0x3f0c_7f76, 0x8c_7f76, 125, 0x100, 0xc_3500_0000_0000_0000_0000_0000_0000_0000nat, 195,
        209525, 0x20_adce_006a_564d,
        0x42b_e980_2ce9_f707_2217_94db_d329nat,
        0x45_2c59_9066_9ca1, 0x12b0_eff6_c049_6d6d_d948_5020_9d41nat,
        0x2be_6c4e, 0x7_8756_2999_e7c4, 0x38_ae42_434a_f953_1873_a21b_4e10nat,
        0x2be_8e4e, 0x7_8810_c2e2_9fc4, 0x38_b93c_788e_7728_7b43_89c5_0e10nat,
    );
}

/// The value 0x3f0e_1c47.
proof fn lemma_at_3f0e1c47()
    ensures
        chord_code(0x3f0e_1c47, 0x3f0d_5e8d, 0x3f15_5e8d, 0x4344_8c89, 0x4349_6ae5) == 196,
{
    reveal(chord_code);
    lemma2_to64();
    lemma2_to64_rest();
    lemma_high_powers();
    assert(0x95_5e8d * 0x1 - 0x8d_5e8d * 0x1 == 0x8_0000);
    lemma_sum_known(0x3f15_5e8d, 0x3f0d_5e8d, true, 0x95_5e8d, 125, 0x8d_5e8d, 125, 0x1, 0x1, 0x8_0000, 20, 0x8_0000, 0x10);
    assert(sub_spec(0x3f15_5e8d, 0x3f0d_5e8d) == 0x3d00_0000);
    assert(0x8e_1c47 * 0x1 - 0x8d_5e8d * 0x1 == 0xbdba);
    lemma_sum_known(0x3f0e_1c47, 0x3f0d_5e8d, true, 0x8e_1c47, 125, 0x8d_5e8d, 125, 0x1, 0x1, 0xbdba, 16, 0x8000, 0x100);
    assert(sub_spec(0x3f0e_1c47, 0x3f0d_5e8d) == 0x3b3d_ba00);
    assert(0xc9_6ae5 * 0x1 - 0xc4_8c89 * 0x1 == 0x4_de5c);
    lemma_sum_known(0x4349_6ae5, 0x4344_8c89, true, 0xc9_6ae5, 133, 0xc4_8c89, 133, 0x1, 0x1, 0x4_de5c, 19, 0x4_0000, 0x20);
    assert(sub_spec(0x4349_6ae5, 0x4344_8c89) == 0x409b_cb80);
    assert(0x9b_cb80 * 0xbd_ba00 == 0x7376_6f5b_0000);
    lemma_product_known(0x409b_cb80, 0x3b3d_ba00, 0x9b_cb80, 128, 0xbd_ba00, 117, 0x7376_6f5b_0000, 47, 0x4000_0000_0000, 0x80_0000);
    assert(mul_spec(0x409b_cb80, 0x3b3d_ba00) == 0x3c66_ecdf);
    assert(0xe6_ecdf * 0x1_0000_0000_0000_0000 == 0x1_cdd9_be00_0000_0000 * 0x80_0000 + 0x0);
    lemma_quotient_known(0x3c66_ecdf, 0x3d00_0000, 0xe6_ecdf, 119, 0x80_0000, 121, 0x1_cdd9_be00_0000_0000, 0x0, 66, 0x2_0000_0000_0000_0000, 0x400_0000_0000);
    assert(div_spec(0x3c66_ecdf, 0x3d00_0000) == 0x3ee6_ecdf);
    assert(0xc4_8c89 * 0x200 + 0xe6_ecdf * 0x1 == 0x1_89ff_fedf);
    lemma_sum_known(0x4344_8c89, 0x3ee6_ecdf, false, 0xc4_8c89, 133, 0xe6_ecdf, 124, 0x200, 0x1, 0x1_89ff_fedf, 33, 0x1_0000_0000, 0x200);
    assert(add_spec(0x4344_8c89, 0x3ee6_ecdf) == 0x4344_ffff);
    lemma_whole_known(0x4344_ffff, 0xc4_ffff, 133, 0x1_0000);
}

/// The value 0x3f0e_1c48.
proof fn lemma_at_3f0e1c48()
    ensures
        chord_code(0x3f0e_1c48, 0x3f0d_5e8d, 0x3f15_5e8d, 0x4344_8c89, 0x4349_6ae5) == 197,
{
    reveal(chord_code);
    lemma2_to64();
    lemma2_to64_rest();
    lemma_high_powers();
    assert(0x95_5e8d * 0x1 - 0x8d_5e8d * 0x1 == 0x8_0000);
    lemma_sum_known(0x3f15_5e8d, 0x3f0d_5e8d, true, 0x95_5e8d, 125, 0x8d_5e8d, 125, 0x1, 0x1, 0x8_0000, 20, 0x8_0000, 0x10);
    assert(sub_spec(0x3f15_5e8d, 0x3f0d_5e8d) == 0x3d00_0000);
    assert(0x8e_1c48 * 0x1 - 0x8d_5e8d * 0x1 == 0xbdbb);
    lemma_sum_known(0x3f0e_1c48, 0x3f0d_5e8d, true, 0x8e_1c48, 125, 0x8d_5e8d, 125, 0x1, 0x1, 0xbdbb, 16, 0x8000, 0x100);
    assert(sub_spec(0x3f0e_1c48, 0x3f0d_5e8d) == 0x3b3d_bb00);
    assert(0xc9_6ae5 * 0x1 - 0xc4_8c89 * 0x1 == 0x4_de5c);
    lemma_sum_known(0x4349_6ae5, 0x4344_8c89, true, 0xc9_6ae5, 133, 0xc4_8c89, 133, 0x1, 0x1, 0x4_de5c, 19, 0x4_0000, 0x20);
    assert(sub_spec(0x4349_6ae5, 0x4344_8c89) == 0x409b_cb80);
    assert(0x9b_cb80 * 0xbd_bb00 == 0x7377_0b26_8000);
    lemma_product_known(0x409b_cb80, 0x3b3d_bb00, 0x9b_cb80, 128, 0xbd_bb00, 117, 0x7377_0b26_8000, 47, 0x4000_0000_0000, 0x80_0000);
    assert(mul_spec(0x409b_cb80, 0x3b3d_bb00) == 0x3c66_ee16);
    assert(0xe6_ee16 * 0x1_0000_0000_0000_0000 == 0x1_cddc_2c00_0000_0000 * 0x80_0000 + 0x0);
    lemma_quotient_known(0x3c66_ee16, 0x3d00_0000, 0xe6_ee16, 119, 0x80_0000, 121, 0x1_cddc_2c00_0000_0000, 0x0, 66, 0x2_0000_0000_0000_0000, 0x400_0000_0000);
    assert(div_spec(0x3c66_ee16, 0x3d00_0000) == 0x3ee6_ee16);
    assert(0xc4_8c89 * 0x200 + 0xe6_ee16 * 0x1 == 0x1_8a00_0016);
    lemma_sum_known(0x4344_8c89, 0x3ee6_ee16, false, 0xc4_8c89, 133, 0xe6_ee16, 124, 0x200, 0x1, 0x1_8a00_0016, 33, 0x1_0000_0000, 0x200);
    assert(add_spec(0x4344_8c89, 0x3ee6_ee16) == 0x4345_0000);
    lemma_whole_known(0x4345_0000, 0xc5_0000, 133, 0x1_0000);
}

/// The edge of code 196.
proof fn lemma_near_196()
    ensures
        near_exact_edge(0x3f0e_1c47, 196),
{
    lemma2_to64();
    lemma2_to64_rest();
    lemma_fifth_powers_of_two();
    lemma_more_fifth_powers_of_two();
    assert(210525nat * 210525 * 210525 == 0x21_2628_e37a_7805);
    assert(269025nat * 269025 * 269025 == 0x45_2c59_9066_9ca1);
    assert(0x21_2628_e37a_7805nat * 0x21_2628_e37a_7805 == 0x44a_dc3a_cfa3_2d53_68ff_7b08_b019nat);
    assert(0x44a_dc3a_cfa3_2d53_68ff_7b08_b019nat * 0x44a_dc3a_cfa3_2d53_68ff_7b08_b019nat == 0x12_6cc5_e5f2_4624_03c1_e11d_b9cc_9174_8f28_164e_5fba_7b51_80b2_6271nat);
    assert(0x45_2c59_9066_9ca1nat * 0x45_2c59_9066_9ca1 == 0x12b0_eff6_c049_6d6d_d948_5020_9d41nat);
    assert(0x12b0_eff6_c049_6d6d_d948_5020_9d41nat * 0x12b0_eff6_c049_6d6d_d948_5020_9d41nat == 0x15d_5c09_8741_6139_2178_92b9_bce5_5f46_89a2_dd05_b95f_0d00_50d8_ca81nat);
    assert(0x2c6_7c63nat * 0x2c6_7c63 == 0x7_b3d6_3194_0e49);
    assert(0x7_b3d6_3194_0e49nat * 0x7_b3d6_3194_0e49 == 0x3b_540b_f2a4_c119_fb24_7734_10d1nat);
    assert(0x3b_540b_f2a4_c119_fb24_7734_10d1nat * 0x2c6_7c63 == 0xa4a7_ecca_3f16_314d_c9d4_633d_f4ed_bcd3nat);
    assert(0x2c6_9e63nat * 0x2c6_9e63 == 0x7_b492_ef22_5a49);
    assert(0x7_b492_ef22_5a49nat * 0x7_b492_ef22_5a49 == 0x3b_5f68_087e_e184_cc74_693b_68d1nat);
    assert(0x3b_5f68_087e_e184_cc74_693b_68d1nat * 0x2c6_9e63 == 0xa4cf_565f_aa5f_0e90_3766_c4bc_1050_86d3nat);
    assert(0xa4a7_ecca_3f16_314d_c9d4_633d_f4ed_bcd3nat * 0x15d_5c09_8741_6139_2178_92b9_bce5_5f46_89a2_dd05_b95f_0d00_50d8_ca81nat == 0xe0_b420_49b6_9e13_8ece_1cfe_033b_1aa3_29d9_b98a_c196_dee4_8c7d_bbe9_69f8_fa73_05ff_91e8_0309_9015_44d2_a453nat);
    assert(0xa4cf_565f_aa5f_0e90_3766_c4bc_1050_86d3nat * 0x15d_5c09_8741_6139_2178_92b9_bce5_5f46_89a2_dd05_b95f_0d00_50d8_ca81nat == 0xe0_e9e9_65d3_1bf6_b9c2_1589_6db8_ea2b_5681_5d32_1511_ef57_31b4_0eb7_b744_6514_6a71_93d7_5ff2_2cb7_74fe_6e53nat);
    assert(0xc35nat * 0x100_0000_0000_0000_0000_0000_0000_0000nat == 0xc_3500_0000_0000_0000_0000_0000_0000_0000nat);
    assert(0x12_6cc5_e5f2_4624_03c1_e11d_b9cc_9174_8f28_164e_5fba_7b51_80b2_6271nat * 0xc_3500_0000_0000_0000_0000_0000_0000_0000nat == 0xe0_e9cb_bff6_7235_a1dd_b0ff_dd0e_2b93_d784_584a_b68f_6359_e801_8bad_6500_0000_0000_0000_0000_0000_0000_0000nat);
    lemma_near_above(
        0x3f0e_1c47, 0x8e_1c47, 125, 0x100, 0xc_3500_0000_0000_0000_0000_0000_0000_0000nat, 196,
        210525, 0x21_2628_e37a_7805,
        0x44a_dc3a_cfa3_2d53_68ff_7b08_b019nat,
        0x45_2c59_9066_9ca1, 0x12b0_eff6_c049_6d6d_d948_5020_9d41nat,
        0x2c6_7c63, 0x7_b3d6_3194_0e49, 0x3b_540b_f2a4_c119_fb24_7734_10d1nat,
        0x2c6_9e63, 0x7_b492_ef22_5a49, 0x3b_5f68_087e_e184_cc74_693b_68d1nat,
    );
}

/// The value 0x3f0f_c0ee.
proof fn lemma_at_3f0fc0ee()
    ensures
        chord_code(0x3f0f_c0ee, 0x3f0d_5e8d, 0x3f15_5e8d, 0x4344_8c89, 0x4349_6ae5) == 197,
{
    reveal(chord_code);
    lemma2_to64();
    lemma2_to64_rest();
    lemma_high_powers();
    assert(0x95_5e8d * 0x1 - 0x8d_5e8d * 0x1 == 0x8_0000);
    lemma_sum_known(0x3f15_5e8d, 0x3f0d_5e8d, true, 0x95_5e8d, 125, 0x8d_5e8d, 125, 0x1, 0x1, 0x8_0000, 20, 0x8_0000, 0x10);
    assert(sub_spec(0x3f15_5e8d, 0x3f0d_5e8d) == 0x3d00_0000);
    assert(0x8f_c0ee * 0x1 - 0x8d_5e8d * 0x1 == 0x2_6261);
    lemma_sum_known(0x3f0f_c0ee, 0x3f0d_5e8d, true, 0x8f_c0ee, 125, 0x8d_5e8d, 125, 0x1, 0x1, 0x2_6261, 18, 0x2_0000, 0x40);
    assert(sub_spec(0x3f0f_c0ee, 0x3f0d_5e8d) == 0x3c18_9840);
    assert(0xc9_6ae5 * 0x1 - 0xc4_8c89 * 0x1 == 0x4_de5c);
    lemma_sum_known(0x4349_6ae5, 0x4344_8c89, true, 0xc9_6ae5, 133, 0xc4_8c89, 133, 0x1, 0x1, 0x4_de5c, 19, 0x4_0000, 0x20);
    assert(sub_spec(0x4349_6ae5, 0x4344_8c89) == 0x409b_cb80);
    assert(0x9b_cb80 * 0x98_9840 == 0x5cdd_7bc6_e000);
    lemma_product_known(0x409b_cb80, 0x3c18_9840, 0x9b_cb80, 128, 0x98_9840, 119, 0x5cdd_7bc6_e000, 47, 0x4000_0000_0000, 0x80_0000);
    assert(mul_spec(0x409b_cb80, 0x3c18_9840) == 0x3d39_baf8);
    assert(0xb9_baf8 * 0x1_0000_0000_0000_0000 == 0x1_7375_f000_0000_0000 * 0x80_0000 + 0x0);
    lemma_quotient_known(0x3d39_baf8, 0x3d00_0000, 0xb9_baf8, 121, 0x80_0000, 121, 0x1_7375_f000_0000_0000, 0x0, 66, 0x2_0000_0000_0000_0000, 0x400_0000_0000);
    assert(div_spec(0x3d39_baf8, 0x3d00_0000) == 0x3fb9_baf8);
    assert(0xc4_8c89 * 0x80 + 0xb9_baf8 * 0x1 == 0x62ff_ff78);
    lemma_sum_known(0x4344_8c89, 0x3fb9_baf8, false, 0xc4_8c89, 133, 0xb9_baf8, 126, 0x80, 0x1, 0x62ff_ff78, 31, 0x4000_0000, 0x80);
    assert(add_spec(0x4344_8c89, 0x3fb9_baf8) == 0x4345_ffff);
    lemma_whole_known(0x4345_ffff, 0xc5_ffff, 133, 0x1_0000);
}

/// The value 0x3f0f_c0ef.
proof fn lemma_at_3f0fc0ef()
    ensures
        chord_code(0x3f0f_c0ef, 0x3f0d_5e8d, 0x3f15_5e8d, 0x4344_8c89, 0x4349_6ae5) == 198,
{
    reveal(chord_code);
    lemma2_to64();
    lemma2_to64_rest();
    lemma_high_powers();
    assert(0x95_5e8d * 0x1 - 0x8d_5e8d * 0x1 == 0x8_0000);
    lemma_sum_known(0x3f15_5e8d, 0x3f0d_5e8d, true, 0x95_5e8d, 125, 0x8d_5e8d, 125, 0x1, 0x1, 0x8_0000, 20, 0x8_0000, 0x10);
    assert(sub_spec(0x3f15_5e8d, 0x3f0d_5e8d) == 0x3d00_0000);
    assert(0x8f_c0ef * 0x1 - 0x8d_5e8d * 0x1 == 0x2_6262);
    lemma_sum_known(0x3f0f_c0ef, 0x3f0d_5e8d, true, 0x8f_c0ef, 125, 0x8d_5e8d, 125, 0x1, 0x1, 0x2_6262, 18, 0x2_0000, 0x40);
    assert(sub_spec(0x3f0f_c0ef, 0x3f0d_5e8d) == 0x3c18_9880);
    assert(0xc9_6ae5 * 0x1 - 0xc4_8c89 * 0x1 == 0x4_de5c);
    lemma_sum_known(0x4349_6ae5, 0x4344_8c89, true, 0xc9_6ae5, 133, 0xc4_8c89, 133, 0x1, 0x1, 0x4_de5c, 19, 0x4_0000, 0x20);
    assert(sub_spec(0x4349_6ae5, 0x4344_8c89) == 0x409b_cb80);
    assert(0x9b_cb80 * 0x98_9880 == 0x5cdd_a2b9_c000);
    lemma_product_known(0x409b_cb80, 0x3c18_9880, 0x9b_cb80, 128, 0x98_9880, 119, 0x5cdd_a2b9_c000, 47, 0x4000_0000_0000, 0x80_0000);
    assert(mul_spec(0x409b_cb80, 0x3c18_9880) == 0x3d39_bb45);
    assert(0xb9_bb45 * 0x1_0000_0000_0000_0000 == 0x1_7376_8a00_0000_0000 * 0x80_0000 + 0x0);
    lemma_quotient_known(0x3d39_bb45, 0x3d00_0000, 0xb9_bb45, 121, 0x80_0000, 121, 0x1_7376_8a00_0000_0000, 0x0, 66, 0x2_0000_0000_0000_0000, 0x400_0000_0000);
    assert(div_spec(0x3d39_bb45, 0x3d00_0000) == 0x3fb9_bb45);
    assert(0xc4_8c89 * 0x80 + 0xb9_bb45 * 0x1 == 0x62ff_ffc5);
    lemma_sum_known(0x4344_8c89, 0x3fb9_bb45, false, 0xc4_8c89, 133, 0xb9_bb45, 126, 0x80, 0x1, 0x62ff_ffc5, 31, 0x4000_0000, 0x80);
    assert(add_spec(0x4344_8c89, 0x3fb9_bb45) == 0x4346_0000);
    lemma_whole_known(0x4346_0000, 0xc6_0000, 133, 0x1_0000);
}

/// The edge of code 197.
proof fn lemma_near_197()
    ensures
        near_exact_edge(0x3f0f_c0ee, 197),
{
    lemma2_to64();
    lemma2_to64_rest();
    lemma_fifth_powers_of_two();
    lemma_more_fifth_powers_of_two();
    assert(211525nat * 211525 * 211525 == 0x21_9fa9_e026_013d);
    assert(269025nat * 269025 * 269025 == 0x45_2c59_9066_9ca1);
    assert(0x21_9fa9_e026_013dnat * 0x21_9fa9_e026_013d == 0x46a_8d60_3ef5_3db3_f059_1e1d_8889nat);
    assert(0x46a_8d60_3ef5_3db3_f059_1e1d_8889nat * 0x46a_8d60_3ef5_3db3_f059_1e1d_8889nat == 0x13_80c4_63be_f68e_25e8_0546_9c70_ec2f_ba0b_1a15_8daa_beaa_53db_d951nat);
    assert(0x45_2c59_9066_9ca1nat * 0x45_2c59_9066_9ca1 == 0x12b0_eff6_c049_6d6d_d948_5020_9d41nat);
    assert(0x12b0_eff6_c049_6d6d_d948_5020_9d41nat * 0x12b0_eff6_c049_6d6d_d948_5020_9d41nat == 0x15d_5c09_8741_6139_2178_92b9_bce5_5f46_89a2_dd05_b95f_0d00_50d8_ca81nat);
    assert(0x2ce_b3a6nat * 0x2ce_b3a6 == 0x7_e1b4_3539_8fa4);
    assert(0x7_e1b4_3539_8fa4nat * 0x7_e1b4_3539_8fa4 == 0x3e_1ed9_2d8f_ed79_290b_2fa0_a110nat);
    assert(0x3e_1ed9_2d8f_ed79_290b_2fa0_a110nat * 0x2ce_b3a6 == 0xae66_1cf7_a55b_3830_d1a3_0411_eda6_a060nat);
    assert(0x2ce_d5a6nat * 0x2ce_d5a6 == 0x7_e273_2175_a7a4);
    assert(0x7_e273_2175_a7a4nat * 0x7_e273_2175_a7a4 == 0x3e_2a9b_4f49_fb09_b8a2_f1af_6110nat);
    assert(0x3e_2a9b_4f49_fb09_b8a2_f1af_6110nat * 0x2ce_d5a6 == 0xae8f_615b_3b2c_0d1b_b7ef_26a1_de5b_4060nat);
    assert(0xae66_1cf7_a55b_3830_d1a3_0411_eda6_a060nat * 0x15d_5c09_8741_6139_2178_92b9_bce5_5f46_89a2_dd05_b95f_0d00_50d8_ca81nat == 0xed_ffe8_adc0_d4ec_c28b_fd6f_2a94_75d3_ae5a_19b4_2c50_34aa_b7d6_f694_d193_b3e7_100f_2e81_a784_a943_8c82_9060nat);
    assert(0xae8f_615b_3b2c_0d1b_b7ef_26a1_de5b_4060nat * 0x15d_5c09_8741_6139_2178_92b9_bce5_5f46_89a2_dd05_b95f_0d00_50d8_ca81nat == 0xee_3839_bfa1_1190_e50d_5fbe_b51b_66b2_1ab9_2547_0fe8_128d_9e50_70b3_c093_7d7e_fc3b_3782_77f3_3221_5dc7_3060nat);
    assert(0xc35nat * 0x100_0000_0000_0000_0000_0000_0000_0000nat == 0xc_3500_0000_0000_0000_0000_0000_0000_0000nat);
    assert(0x13_80c4_63be_f68e_25e8_0546_9c70_ec2f_ba0b_1a15_8daa_beaa_53db_d951nat * 0xc_3500_0000_0000_0000_0000_0000_0000_0000nat == 0xee_12dd_559a_17b5_34b9_4866_f3ae_7322_9a09_8569_1a55_4975_31aa_b3c9_c500_0000_0000_0000_0000_0000_0000_0000nat);
    lemma_near_above(
        0x3f0f_c0ee, 0x8f_c0ee, 125, 0x100, 0xc_3500_0000_0000_0000_0000_0000_0000_0000nat, 197,
        211525, 0x21_9fa9_e026_013d,
        0x46a_8d60_3ef5_3db3_f059_1e1d_8889nat,
        0x45_2c59_9066_9ca1, 0x12b0_eff6_c049_6d6d_d948_5020_9d41nat,
        0x2ce_b3a6, 0x7_e1b4_3539_8fa4, 0x3e_1ed9_2d8f_ed79_290b_2fa0_a110nat,
        0x2ce_d5a6, 0x7_e273_2175_a7a4, 0x3e_2a9b_4f49_fb09_b8a2_f1af_6110nat,
    );
}

/// The value 0x3f11_6596.
proof fn lemma_at_3f116596()
    ensures
        chord_code(0x3f11_6596, 0x3f0d_5e8d, 0x3f15_5e8d, 0x4344_8c89, 0x4349_6ae5) == 198,
{
    reveal(chord_code);
    lemma2_to64();
    lemma2_to64_rest();
    lemma_high_powers();
    assert(0x95_5e8d * 0x1 - 0x8d_5e8d * 0x1 == 0x8_0000);
    lemma_sum_known(0x3f15_5e8d, 0x3f0d_5e8d, true, 0x95_5e8d, 125, 0x8d_5e8d, 125, 0x1, 0x1, 0x8_0000, 20, 0x8_0000, 0x10);
    assert(sub_spec(0x3f15_5e8d, 0x3f0d_5e8d) == 0x3d00_0000);
    assert(0x91_6596 * 0x1 - 0x8d_5e8d * 0x1 == 0x4_0709);
    lemma_sum_known(0x3f11_6596, 0x3f0d_5e8d, true, 0x91_6596, 125, 0x8d_5e8d, 125, 0x1, 0x1, 0x4_0709, 19, 0x4_0000, 0x20);
    assert(sub_spec(0x3f11_6596, 0x3f0d_5e8d) == 0x3c80_e120);
    assert(0xc9_6ae5 * 0x1 - 0xc4_8c89 * 0x1 == 0x4_de5c);
    lemma_sum_known(0x4349_6ae5, 0x4344_8c89, true, 0xc9_6ae5, 133, 0xc4_8c89, 133, 0x1, 0x1, 0x4_de5c, 19, 0x4_0000, 0x20);
    assert(sub_spec(0x4349_6ae5, 0x4344_8c89) == 0x409b_cb80);
    assert(0x9b_cb80 * 0x80_e120 == 0x4e6e_c154_f000);
    lemma_product_known(0x409b_cb80, 0x3c80_e120, 0x9b_cb80, 128, 0x80_e120, 120, 0x4e6e_c154_f000, 47, 0x4000_0000_0000, 0x80_0000);
    assert(mul_spec(0x409b_cb80, 0x3c80_e120) == 0x3d9c_dd83);
    assert(0x9c_dd83 * 0x1_0000_0000_0000_0000 == 0x1_39bb_0600_0000_0000 * 0x80_0000 + 0x0);
    lemma_quotient_known(0x3d9c_dd83, 0x3d00_0000, 0x9c_dd83, 122, 0x80_0000, 121, 0x1_39bb_0600_0000_0000, 0x0, 66, 0x2_0000_0000_0000_0000, 0x400_0000_0000);
    assert(div_spec(0x3d9c_dd83, 0x3d00_0000) == 0x401c_dd83);
    assert(0xc4_8c89 * 0x40 + 0x9c_dd83 * 0x1 == 0x31bf_ffc3);
    lemma_sum_known(0x4344_8c89, 0x401c_dd83, false, 0xc4_8c89, 133, 0x9c_dd83, 127, 0x40, 0x1, 0x31bf_ffc3, 30, 0x2000_0000, 0x40);
    assert(add_spec(0x4344_8c89, 0x401c_dd83) == 0x4346_ffff);
    lemma_whole_known(0x4346_ffff, 0xc6_ffff, 133, 0x1_0000);
}

/// The value 0x3f11_6597.
proof fn lemma_at_3f116597()
    ensures
        chord_code(0x3f11_6597, 0x3f0d_5e8d, 0x3f15_5e8d, 0x4344_8c89, 0x4349_6ae5) == 199,
{
    reveal(chord_code);
    lemma2_to64();
    lemma2_to64_rest();
    lemma_high_powers();
    assert(0x95_5e8d * 0x1 - 0x8d_5e8d * 0x1 == 0x8_0000);
    lemma_sum_known(0x3f15_5e8d, 0x3f0d_5e8d, true, 0x95_5e8d, 125, 0x8d_5e8d, 125, 0x1, 0x1, 0x8_0000, 20, 0x8_0000, 0x10);
    assert(sub_spec(0x3f15_5e8d, 0x3f0d_5e8d) == 0x3d00_0000);
    assert(0x91_6597 * 0x1 - 0x8d_5e8d * 0x1 == 0x4_070a);
    lemma_sum_known(0x3f11_6597, 0x3f0d_5e8d, true, 0x91_6597, 125, 0x8d_5e8d, 125, 0x1, 0x1, 0x4_070a, 19, 0x4_0000, 0x20);
    assert(sub_spec(0x3f11_6597, 0x3f0d_5e8d) == 0x3c80_e140);
    assert(0xc9_6ae5 * 0x1 - 0xc4_8c89 * 0x1 == 0x4_de5c);
    lemma_sum_known(0x4349_6ae5, 0x4344_8c89, true, 0xc9_6ae5, 133, 0xc4_8c89, 133, 0x1, 0x1, 0x4_de5c, 19, 0x4_0000, 0x20);
    assert(sub_spec(0x4349_6ae5, 0x4344_8c89) == 0x409b_cb80);
    assert(0x9b_cb80 * 0x80_e140 == 0x4e6e_d4ce_6000);
    lemma_product_known(0x409b_cb80, 0x3c80_e140, 0x9b_cb80, 128, 0x80_e140, 120, 0x4e6e_d4ce_6000, 47, 0x4000_0000_0000, 0x80_0000);
    assert(mul_spec(0x409b_cb80, 0x3c80_e140) == 0x3d9c_ddaa);
    assert(0x9c_ddaa * 0x1_0000_0000_0000_0000 == 0x1_39bb_5400_0000_0000 * 0x80_0000 + 0x0);
    lemma_quotient_known(0x3d9c_ddaa, 0x3d00_0000, 0x9c_ddaa, 122, 0x80_0000, 121, 0x1_39bb_5400_0000_0000, 0x0, 66, 0x2_0000_0000_0000_0000, 0x400_0000_0000);
    assert(div_spec(0x3d9c_ddaa, 0x3d00_0000) == 0x401c_ddaa);
    assert(0xc4_8c89 * 0x40 + 0x9c_ddaa * 0x1 == 0x31bf_ffea);
    lemma_sum_known(0x4344_8c89, 0x401c_ddaa, false, 0xc4_8c89, 133, 0x9c_ddaa, 127, 0x40, 0x1, 0x31bf_ffea, 30, 0x2000_0000, 0x40);
    assert(add_spec(0x4344_8c89, 0x401c_ddaa) == 0x4347_0000);
    lemma_whole_known(0x4347_0000, 0xc7_0000, 133, 0x1_0000);
}

/// The edge of code 198.
proof fn lemma_near_198()
    ensures
        near_exact_edge(0x3f11_6596, 198),
{
    lemma2_to64();
    lemma2_to64_rest();
    lemma_fifth_powers_of_two();
    lemma_more_fifth_powers_of_two();
    assert(212525nat * 212525 * 212525 == 0x22_1a52_5c0d_adf5);
    assert(269025nat * 269025 * 269025 == 0x45_2c59_9066_9ca1);
    assert(0x22_1a52_5c0d_adf5nat * 0x22_1a52_5c0d_adf5 == 0x48b_0095_48d4_1647_0ab7_3917_0c79nat);
    assert(0x48b_0095_48d4_1647_0ab7_3917_0c79nat * 0x48b_0095_48d4_1647_0ab7_3917_0c79nat == 0x14_a37e_4c64_0e10_4515_47b0_0e54_e15c_79ef_2cee_2fc6_8e9f_2059_9131nat);
    assert(0x45_2c59_9066_9ca1nat * 0x45_2c59_9066_9ca1 == 0x12b0_eff6_c049_6d6d_d948_5020_9d41nat);
    assert(0x12b0_eff6_c049_6d6d_d948_5020_9d41nat * 0x12b0_eff6_c049_6d6d_d948_5020_9d41nat == 0x15d_5c09_8741_6139_2178_92b9_bce5_5f46_89a2_dd05_b95f_0d00_50d8_ca81nat);
    assert(0x2d6_eaeenat * 0x2d6_eaee == 0x8_1019_557f_f544);
    assert(0x8_1019_557f_f544nat * 0x8_1019_557f_f544 == 0x41_0298_8531_2274_a01c_6c73_3a10nat);
    assert(0x41_0298_8531_2274_a01c_6c73_3a10nat * 0x2d6_eaee == 0xb899_0559_8ce2_73ea_b362_6454_cf92_9ae0nat);
    assert(0x2d7_0ceenat * 0x2d7_0cee == 0x8_10da_706b_2d44);
    assert(0x8_10da_706b_2d44nat * 0x8_10da_706b_2d44 == 0x41_0ec3_0f23_e1cf_8c4a_5ed8_fa10nat);
    assert(0x41_0ec3_0f23_e1cf_8c4a_5ed8_fa10nat * 0x2d7_0cee == 0xb8c4_351c_dcf4_0659_10bb_43c4_7ce1_3ae0nat);
    assert(0xb899_0559_8ce2_73ea_b362_6454_cf92_9ae0nat * 0x15d_5c09_8741_6139_2178_92b9_bce5_5f46_89a2_dd05_b95f_0d00_50d8_ca81nat == 0xfb_eafa_27ea_4647_1ed8_f405_12a6_193a_4aa5_2ccf_11fe_d167_9455_9722_e8c1_0b77_d78c_636c_fb29_ce9e_f414_cae0nat);
    assert(0xb8c4_351c_dcf4_0659_10bb_43c4_7ce1_3ae0nat * 0x15d_5c09_8741_6139_2178_92b9_bce5_5f46_89a2_dd05_b95f_0d00_50d8_ca81nat == 0xfc_25e9_cbf4_1e17_6718_e79c_1568_e9a6_d438_978a_d588_9fcd_9229_4246_c9c9_0403_bced_b91b_efc3_50fc_52f3_6ae0nat);
    assert(0xc35nat * 0x100_0000_0000_0000_0000_0000_0000_0000nat == 0xc_3500_0000_0000_0000_0000_0000_0000_0000nat);
    assert(0x14_a37e_4c64_0e10_4515_47b0_0e54_e15c_79ef_2cee_2fc6_8e9f_2059_9131nat * 0xc_3500_0000_0000_0000_0000_0000_0000_0000nat == 0xfb_efc4_ba81_5fac_9b4c_c418_1ef2_22fd_dc74_9f77_8d32_cafc_75e5_595b_2500_0000_0000_0000_0000_0000_0000_0000nat);
    lemma_near_above(
        0x3f11_6596, 0x91_6596, 125, 0x100, 0xc_3500_0000_0000_0000_0000_0000_0000_0000nat, 198,
        212525, 0x22_1a52_5c0d_adf5,
        0x48b_0095_48d4_1647_0ab7_3917_0c79nat,
        0x45_2c59_9066_9ca1, 0x12b0_eff6_c049_6d6d_d948_5020_9d41nat,
        0x2d6_eaee, 0x8_1019_557f_f544, 0x41_0298_8531_2274_a01c_6c73_3a10nat,
        0x2d7_0cee, 0x8_10da_706b_2d44, 0x41_0ec3_0f23_e1cf_8c4a_5ed8_fa10nat,
    );
}

/// The value 0x3f13_0a3e.
proof fn lemma_at_3f130a3e()
    ensures
        chord_code(0x3f13_0a3e, 0x3f0d_5e8d, 0x3f15_5e8d, 0x4344_8c89, 0x4349_6ae5) == 199,
{
    reveal(chord_code);
    lemma2_to64();
    lemma2_to64_rest();
    lemma_high_powers();
    assert(0x95_5e8d * 0x1 - 0x8d_5e8d * 0x1 == 0x8_0000);
    lemma_sum_known(0x3f15_5e8d, 0x3f0d_5e8d, true, 0x95_5e8d, 125, 0x8d_5e8d, 125, 0x1, 0x1, 0x8_0000, 20, 0x8_0000, 0x10);
    assert(sub_spec(0x3f15_5e8d, 0x3f0d_5e8d) == 0x3d00_0000);
    assert(0x93_0a3e * 0x1 - 0x8d_5e8d * 0x1 == 0x5_abb1);
    lemma_sum_known(0x3f13_0a3e, 0x3f0d_5e8d, true, 0x93_0a3e, 125, 0x8d_5e8d, 125, 0x1, 0x1, 0x5_abb1, 19, 0x4_0000, 0x20);
    assert(sub_spec(0x3f13_0a3e, 0x3f0d_5e8d) == 0x3cb5_7620);
    assert(0xc9_6ae5 * 0x1 - 0xc4_8c89 * 0x1 == 0x4_de5c);
    lemma_sum_known(0x4349_6ae5, 0x4344_8c89, true, 0xc9_6ae5, 133, 0xc4_8c89, 133, 0x1, 0x1, 0x4_de5c, 19, 0x4_0000, 0x20);
    assert(sub_spec(0x4349_6ae5, 0x4344_8c89) == 0x409b_cb80);
    assert(0x9b_cb80 * 0xb5_7620 == 0x6e6e_c4c6_7000);
    lemma_product_known(0x409b_cb80, 0x3cb5_7620, 0x9b_cb80, 128, 0xb5_7620, 120, 0x6e6e_c4c6_7000, 47, 0x4000_0000_0000, 0x80_0000);
    assert(mul_spec(0x409b_cb80, 0x3cb5_7620) == 0x3ddc_dd8a);
    assert(0xdc_dd8a * 0x1_0000_0000_0000_0000 == 0x1_b9bb_1400_0000_0000 * 0x80_0000 + 0x0);
    lemma_quotient_known(0x3ddc_dd8a, 0x3d00_0000, 0xdc_dd8a, 122, 0x80_0000, 121, 0x1_b9bb_1400_0000_0000, 0x0, 66, 0x2_0000_0000_0000_0000, 0x400_0000_0000);
    assert(div_spec(0x3ddc_dd8a, 0x3d00_0000) == 0x405c_dd8a);
    assert(0xc4_8c89 * 0x40 + 0xdc_dd8a * 0x1 == 0x31ff_ffca);
    lemma_sum_known(0x4344_8c89, 0x405c_dd8a, false, 0xc4_8c89, 133, 0xdc_dd8a, 127, 0x40, 0x1, 0x31ff_ffca, 30, 0x2000_0000, 0x40);
    assert(add_spec(0x4344_8c89, 0x405c_dd8a) == 0x4347_ffff);
    lemma_whole_known(0x4347_ffff, 0xc7_ffff, 133, 0x1_0000);
}

/// The value 0x3f13_0a3f.
proof fn lemma_at_3f130a3f()
    ensures
        chord_code(0x3f13_0a3f, 0x3f0d_5e8d, 0x3f15_5e8d, 0x4344_8c89, 0x4349_6ae5) == 200,
{
    reveal(chord_code);
    lemma2_to64();
    lemma2_to64_rest();
    lemma_high_powers();
    assert(0x95_5e8d * 0x1 - 0x8d_5e8d * 0x1 == 0x8_0000);
    lemma_sum_known(0x3f15_5e8d, 0x3f0d_5e8d, true, 0x95_5e8d, 125, 0x8d_5e8d, 125, 0x1, 0x1, 0x8_0000, 20, 0x8_0000, 0x10);
    assert(sub_spec(0x3f15_5e8d, 0x3f0d_5e8d) == 0x3d00_0000);
    assert(0x93_0a3f * 0x1 - 0x8d_5e8d * 0x1 == 0x5_abb2);
    lemma_sum_known(0x3f13_0a3f, 0x3f0d_5e8d, true, 0x93_0a3f, 125, 0x8d_5e8d, 125, 0x1, 0x1, 0x5_abb2, 19, 0x4_0000, 0x20);
    assert(sub_spec(0x3f13_0a3f, 0x3f0d_5e8d) == 0x3cb5_7640);
    assert(0xc9_6ae5 * 0x1 - 0xc4_8c89 * 0x1 == 0x4_de5c);
    lemma_sum_known(0x4349_6ae5, 0x4344_8c89, true, 0xc9_6ae5, 133, 0xc4_8c89, 133, 0x1, 0x1, 0x4_de5c, 19, 0x4_0000, 0x20);
    assert(sub_spec(0x4349_6ae5, 0x4344_8c89) == 0x409b_cb80);
    assert(0x9b_cb80 * 0xb5_7640 == 0x6e6e_d83f_e000);
    lemma_product_known(0x409b_cb80, 0x3cb5_7640, 0x9b_cb80, 128, 0xb5_7640, 120, 0x6e6e_d83f_e000, 47, 0x4000_0000_0000, 0x80_0000);
    assert(mul_spec(0x409b_cb80, 0x3cb5_7640) == 0x3ddc_ddb0);
    assert(0xdc_ddb0 * 0x1_0000_0000_0000_0000 == 0x1_b9bb_6000_0000_0000 * 0x80_0000 + 0x0);
    lemma_quotient_known(0x3ddc_ddb0, 0x3d00_0000, 0xdc_ddb0, 122, 0x80_0000, 121, 0x1_b9bb_6000_0000_0000, 0x0, 66, 0x2_0000_0000_0000_0000, 0x400_0000_0000);
    assert(div_spec(0x3ddc_ddb0, 0x3d00_0000) == 0x405c_ddb0);
    assert(0xc4_8c89 * 0x40 + 0xdc_ddb0 * 0x1 == 0x31ff_fff0);
    lemma_sum_known(0x4344_8c89, 0x405c_ddb0, false, 0xc4_8c89, 133, 0xdc_ddb0, 127, 0x40, 0x1, 0x31ff_fff0, 30, 0x2000_0000, 0x40);
    assert(add_spec(0x4344_8c89, 0x405c_ddb0) == 0x4348_0000);
    lemma_whole_known(0x4348_0000, 0xc8_0000, 133, 0x1_0000);
}

/// The edge of code 199.
proof fn lemma_near_199()
    ensures
        near_exact_edge(0x3f13_0a3e, 199),
{
    lemma2_to64();
    lemma2_to64_rest();
    lemma_fifth_powers_of_two();
    lemma_more_fifth_powers_of_two();
    assert(213525nat * 213525 * 213525 == 0x22_9623_bcd2_3a2d);
    assert(269025nat * 269025 * 269025 == 0x45_2c59_9066_9ca1);
    assert(0x22_9623_bcd2_3a2dnat * 0x22_9623_bcd2_3a2d == 0x4ac_398c_0e1a_fce2_1663_970c_6be9nat);
    assert(0x4ac_398c_0e1a_fce2_1663_970c_6be9nat * 0x4ac_398c_0e1a_fce2_1663_970c_6be9nat == 0x15_d5a9_c193_7712_5369_6e4d_446e_5b3b_6e57_d269_8eab_2a1d_2954_9a11nat);
    assert(0x45_2c59_9066_9ca1nat * 0x45_2c59_9066_9ca1 == 0x12b0_eff6_c049_6d6d_d948_5020_9d41nat);
    assert(0x12b0_eff6_c049_6d6d_d948_5020_9d41nat * 0x12b0_eff6_c049_6d6d_d948_5020_9d41nat == 0x15d_5c09_8741_6139_2178_92b9_bce5_5f46_89a2_dd05_b95f_0d00_50d8_ca81nat);
    assert(0x2df_2236nat * 0x2df_2236 == 0x8_3f05_76a6_6364);
    assert(0x8_3f05_76a6_6364nat * 0x8_3f05_76a6_6364 == 0x43_ffdb_1ae9_f4a8_e9ad_3c46_7f10nat);
    assert(0x43_ffdb_1ae9_f4a8_e9ad_3c46_7f10nat * 0x2df_2236 == 0xc344_ac65_5780_30ce_f30a_5af2_e2ae_ed60nat);
    assert(0x2df_4436nat * 0x2df_4436 == 0x8_3fc8_c040_bb64);
    assert(0x8_3fc8_c040_bb64nat * 0x8_3fc8_c040_bb64 == 0x44_0c70_7018_8801_2db4_3b2b_3f10nat);
    assert(0x44_0c70_7018_8801_2db4_3b2b_3f10nat * 0x2df_4436 == 0xc371_d87a_53ec_a4af_38d9_64e6_06cf_8d60nat);
    assert(0xc344_ac65_5780_30ce_f30a_5af2_e2ae_ed60nat * 0x15d_5c09_8741_6139_2178_92b9_bce5_5f46_89a2_dd05_b95f_0d00_50d8_ca81nat == 0x10a_7ad2_f8b1_da46_7f31_d812_8cbb_4776_7ac4_9fae_3efb_6459_3209_8e5a_d8eb_f4d8_ec53_920e_a06f_4908_8a73_5d60nat);
    assert(0xc371_d87a_53ec_a4af_38d9_64e6_06cf_8d60nat * 0x15d_5c09_8741_6139_2178_92b9_bce5_5f46_89a2_dd05_b95f_0d00_50d8_ca81nat == 0x10a_b878_4ed3_ef5c_bb9f_a437_3828_676b_7c9b_993b_8ec3_e0e9_0220_a1bf_88bd_ae17_960e_fb84_942d_d496_7d23_fd60nat);
    assert(0xc35nat * 0x100_0000_0000_0000_0000_0000_0000_0000nat == 0xc_3500_0000_0000_0000_0000_0000_0000_0000nat);
    assert(0x15_d5a9_c193_7712_5369_6e4d_446e_5b3b_6e57_d269_8eab_2a1d_2954_9a11nat * 0xc_3500_0000_0000_0000_0000_0000_0000_0000nat == 0x10a_8931_37fd_1c82_b435_ff75_3457_1fac_79f6_0b82_8a8f_6915_f985_bcb1_8500_0000_0000_0000_0000_0000_0000_0000nat);
    lemma_near_above(
        0x3f13_0a3e, 0x93_0a3e, 125, 0x100, 0xc_3500_0000_0000_0000_0000_0000_0000_0000nat, 199,
        213525, 0x22_9623_bcd2_3a2d,
        0x4ac_398c_0e1a_fce2_1663_970c_6be9nat,
        0x45_2c59_9066_9ca1, 0x12b0_eff6_c049_6d6d_d948_5020_9d41nat,
        0x2df_2236, 0x8_3f05_76a6_6364, 0x43_ffdb_1ae9_f4a8_e9ad_3c46_7f10nat,
        0x2df_4436, 0x8_3fc8_c040_bb64, 0x44_0c70_7018_8801_2db4_3b2b_3f10nat,
    );
}

/// The value 0x3f14_aee6.
proof fn lemma_at_3f14aee6()
    ensures
        chord_code(0x3f14_aee6, 0x3f0d_5e8d, 0x3f15_5e8d, 0x4344_8c89, 0x4349_6ae5) == 200,
{
    reveal(chord_code);
    lemma2_to64();
    lemma2_to64_rest();
    lemma_high_powers();
    assert(0x95_5e8d * 0x1 - 0x8d_5e8d * 0x1 == 0x8_0000);
    lemma_sum_known(0x3f15_5e8d, 0x3f0d_5e8d, true, 0x95_5e8d, 125, 0x8d_5e8d, 125, 0x1, 0x1, 0x8_0000, 20, 0x8_0000, 0x10);
    assert(sub_spec(0x3f15_5e8d, 0x3f0d_5e8d) == 0x3d00_0000);
    assert(0x94_aee6 * 0x1 - 0x8d_5e8d * 0x1 == 0x7_5059);
    lemma_sum_known(0x3f14_aee6, 0x3f0d_5e8d, true, 0x94_aee6, 125, 0x8d_5e8d, 125, 0x1, 0x1, 0x7_5059, 19, 0x4_0000, 0x20);
    assert(sub_spec(0x3f14_aee6, 0x3f0d_5e8d) == 0x3cea_0b20);
    assert(0xc9_6ae5 * 0x1 - 0xc4_8c89 * 0x1 == 0x4_de5c);
    lemma_sum_known(0x4349_6ae5, 0x4344_8c89, true, 0xc9_6ae5, 133, 0xc4_8c89, 133, 0x1, 0x1, 0x4_de5c, 19, 0x4_0000, 0x20);
    assert(sub_spec(0x4349_6ae5, 0x4344_8c89) == 0x409b_cb80);
    assert(0x9b_cb80 * 0xea_0b20 == 0x8e6e_c837_f000);
    lemma_product_known(0x409b_cb80, 0x3cea_0b20, 0x9b_cb80, 128, 0xea_0b20, 120, 0x8e6e_c837_f000, 48, 0x8000_0000_0000, 0x100_0000);
    assert(mul_spec(0x409b_cb80, 0x3cea_0b20) == 0x3e0e_6ec8);
    assert(0x8e_6ec8 * 0x1_0000_0000_0000_0000 == 0x1_1cdd_9000_0000_0000 * 0x80_0000 + 0x0);
    lemma_quotient_known(0x3e0e_6ec8, 0x3d00_0000, 0x8e_6ec8, 123, 0x80_0000, 121, 0x1_1cdd_9000_0000_0000, 0x0, 66, 0x2_0000_0000_0000_0000, 0x400_0000_0000);
    assert(div_spec(0x3e0e_6ec8, 0x3d00_0000) == 0x408e_6ec8);
    assert(0xc4_8c89 * 0x20 + 0x8e_6ec8 * 0x1 == 0x191f_ffe8);
    lemma_sum_known(0x4344_8c89, 0x408e_6ec8, false, 0xc4_8c89, 133, 0x8e_6ec8, 128, 0x20, 0x1, 0x191f_ffe8, 29, 0x1000_0000, 0x20);
    assert(add_spec(0x4344_8c89, 0x408e_6ec8) == 0x4348_ffff);
    lemma_whole_known(0x4348_ffff, 0xc8_ffff, 133, 0x1_0000);
}

/// The value 0x3f14_aee7.
proof fn lemma_at_3f14aee7()
    ensures
        chord_code(0x3f14_aee7, 0x3f0d_5e8d, 0x3f15_5e8d, 0x4344_8c89, 0x4349_6ae5) == 201,
{
    reveal(chord_code);
    lemma2_to64();
    lemma2_to64_rest();
    lemma_high_powers();
    assert(0x95_5e8d * 0x1 - 0x8d_5e8d * 0x1 == 0x8_0000);
    lemma_sum_known(0x3f15_5e8d, 0x3f0d_5e8d, true, 0x95_5e8d, 125, 0x8d_5e8d, 125, 0x1, 0x1, 0x8_0000, 20, 0x8_0000, 0x10);
    assert(sub_spec(0x3f15_5e8d, 0x3f0d_5e8d) == 0x3d00_0000);
    assert(0x94_aee7 * 0x1 - 0x8d_5e8d * 0x1 == 0x7_505a);
    lemma_sum_known(0x3f14_aee7, 0x3f0d_5e8d, true, 0x94_aee7, 125, 0x8d_5e8d, 125, 0x1, 0x1, 0x7_505a, 19, 0x4_0000, 0x20);
    assert(sub_spec(0x3f14_aee7, 0x3f0d_5e8d) == 0x3cea_0b40);
    assert(0xc9_6ae5 * 0x1 - 0xc4_8c89 * 0x1 == 0x4_de5c);
    lemma_sum_known(0x4349_6ae5, 0x4344_8c89, true, 0xc9_6ae5, 133, 0xc4_8c89, 133, 0x1, 0x1, 0x4_de5c, 19, 0x4_0000, 0x20);
    assert(sub_spec(0x4349_6ae5, 0x4344_8c89) == 0x409b_cb80);
    assert(0x9b_cb80 * 0xea_0b40 == 0x8e6e_dbb1_6000);
    lemma_product_known(0x409b_cb80, 0x3cea_0b40, 0x9b_cb80, 128, 0xea_0b40, 120, 0x8e6e_dbb1_6000, 48, 0x8000_0000_0000, 0x100_0000);
    assert(mul_spec(0x409b_cb80, 0x3cea_0b40) == 0x3e0e_6edc);
    assert(0x8e_6edc * 0x1_0000_0000_0000_0000 == 0x1_1cdd_b800_0000_0000 * 0x80_0000 + 0x0);
    lemma_quotient_known(0x3e0e_6edc, 0x3d00_0000, 0x8e_6edc, 123, 0x80_0000, 121, 0x1_1cdd_b800_0000_0000, 0x0, 66, 0x2_0000_0000_0000_0000, 0x400_0000_0000);
    assert(div_spec(0x3e0e_6edc, 0x3d00_0000) == 0x408e_6edc);
    assert(0xc4_8c89 * 0x20 + 0x8e_6edc * 0x1 == 0x191f_fffc);
    lemma_sum_known(0x4344_8c89, 0x408e_6edc, false, 0xc4_8c89, 133, 0x8e_6edc, 128, 0x20, 0x1, 0x191f_fffc, 29, 0x1000_0000, 0x20);
    assert(add_spec(0x4344_8c89, 0x408e_6edc) == 0x4349_0000);
    lemma_whole_known(0x4349_0000, 0xc9_0000, 133, 0x1_0000);
}

/// The edge of code 200.
proof fn lemma_near_200()
    ensures
        near_exact_edge(0x3f14_aee6, 200),
{
    lemma2_to64();
    lemma2_to64_rest();
    lemma_fifth_powers_of_two();
    lemma_more_fifth_powers_of_two();
    assert(214525nat * 214525 * 214525 == 0x23_131f_6814_61e5);
    assert(269025nat * 269025 * 269025 == 0x45_2c59_9066_9ca1);
    assert(0x23_131f_6814_61e5nat * 0x23_131f_6814_61e5 == 0x4ce_3c04_22e0_2a66_449f_8137_56d9nat);
    assert(0x4ce_3c04_22e0_2a66_449f_8137_56d9nat * 0x4ce_3c04_22e0_2a66_449f_8137_56d9nat == 0x17_1804_c5d1_1281_9e5c_ffa7_fd8c_b480_5a97_e05f_9305_fb0b_20b4_83f1nat);
    assert(0x45_2c59_9066_9ca1nat * 0x45_2c59_9066_9ca1 == 0x12b0_eff6_c049_6d6d_d948_5020_9d41nat);
    assert(0x12b0_eff6_c049_6d6d_d948_5020_9d41nat * 0x12b0_eff6_c049_6d6d_d948_5020_9d41nat == 0x15d_5c09_8741_6139_2178_92b9_bce5_5f46_89a2_dd05_b95f_0d00_50d8_ca81nat);
    assert(0x2e7_597enat * 0x2e7_597e == 0x8_6e78_98ac_da04);
    assert(0x8_6e78_98ac_da04nat * 0x8_6e78_98ac_da04 == 0x47_1735_66d1_a8b5_8b5a_6f0a_d010nat);
    assert(0x47_1735_66d1_a8b5_8b5a_6f0a_d010nat * 0x2e7_597e == 0xce6d_360c_6788_25bf_9a45_4f7f_4817_f7e0nat);
    assert(0x2e7_7b7enat * 0x2e7_7b7e == 0x8_6f3e_10f6_5204);
    assert(0x8_6f3e_10f6_5204nat * 0x8_6f3e_10f6_5204 == 0x47_2437_f126_f3ce_e932_39f6_9010nat);
    assert(0x47_2437_f126_f3ce_e932_39f6_9010nat * 0x2e7_7b7e == 0xce9c_6fc7_9c74_05d7_3aa8_232e_1d02_97e0nat);
    assert(0xce6d_360c_6788_25bf_9a45_4f7f_4817_f7e0nat * 0x15d_5c09_8741_6139_2178_92b9_bce5_5f46_89a2_dd05_b95f_0d00_50d8_ca81nat == 0x119_b519_9d3c_cfe0_be17_9e9a_f65e_ea99_b5d5_a317_ecf6_053a_205a_2d9e_2b06_c669_28d6_c9a9_5b4a_2fb5_62aa_a7e0nat);
    assert(0xce9c_6fc7_9c74_05d7_3aa8_232e_1d02_97e0nat * 0x15d_5c09_8741_6139_2178_92b9_bce5_5f46_89a2_dd05_b95f_0d00_50d8_ca81nat == 0x119_f58c_4bf5_378c_2ffb_6d49_7a08_af82_4b3c_f922_30a0_1f3a_4d08_ffc0_53b4_31aa_47c7_2129_b04b_c6c6_cf25_47e0nat);
    assert(0xc35nat * 0x100_0000_0000_0000_0000_0000_0000_0000nat == 0xc_3500_0000_0000_0000_0000_0000_0000_0000nat);
    assert(0x17_1804_c5d1_1281_9e5c_ffa7_fd8c_b480_5a97_e05f_9305_fb0b_20b4_83f1nat * 0xc_3500_0000_0000_0000_0000_0000_0000_0000nat == 0x119_e832_42c1_26e8_4225_3ccd_aa16_9762_d1df_f5ee_adb8_017e_d63b_8e9c_e500_0000_0000_0000_0000_0000_0000_0000nat);
    lemma_near_above(
        0x3f14_aee6, 0x94_aee6, 125, 0x100, 0xc_3500_0000_0000_0000_0000_0000_0000_0000nat, 200,
        214525, 0x23_131f_6814_61e5,
        0x4ce_3c04_22e0_2a66_449f_8137_56d9nat,
        0x45_2c59_9066_9ca1, 0x12b0_eff6_c049_6d6d_d948_5020_9d41nat,
        0x2e7_597e, 0x8_6e78_98ac_da04, 0x47_1735_66d1_a8b5_8b5a_6f0a_d010nat,
        0x2e7_7b7e, 0x8_6f3e_10f6_5204, 0x47_2437_f126_f3ce_e932_39f6_9010nat,
    );
}

/// The value 0x3f16_5b1c.
proof fn lemma_at_3f165b1c()
    ensures
        chord_code(0x3f16_5b1c, 0x3f15_5e8d, 0x3f1d_5e8d, 0x4349_6ae5, 0x434e_23f7) == 201,
{
    reveal(chord_code);
    lemma2_to64();
    lemma2_to64_rest();
    lemma_high_powers();
    assert(0x9d_5e8d * 0x1 - 0x95_5e8d * 0x1 == 0x8_0000);
    lemma_sum_known(0x3f1d_5e8d, 0x3f15_5e8d, true, 0x9d_5e8d, 125, 0x95_5e8d, 125, 0x1, 0x1, 0x8_0000, 20, 0x8_0000, 0x10);
    assert(sub_spec(0x3f1d_5e8d, 0x3f15_5e8d) == 0x3d00_0000);
    assert(0x96_5b1c * 0x1 - 0x95_5e8d * 0x1 == 0xfc8f);
    lemma_sum_known(0x3f16_5b1c, 0x3f15_5e8d, true, 0x96_5b1c, 125, 0x95_5e8d, 125, 0x1, 0x1, 0xfc8f, 16, 0x8000, 0x100);
    assert(sub_spec(0x3f16_5b1c, 0x3f15_5e8d) == 0x3b7c_8f00);
    assert(0xce_23f7 * 0x1 - 0xc9_6ae5 * 0x1 == 0x4_b912);
    lemma_sum_known(0x434e_23f7, 0x4349_6ae5, true, 0xce_23f7, 133, 0xc9_6ae5, 133, 0x1, 0x1, 0x4_b912, 19, 0x4_0000, 0x20);
    assert(sub_spec(0x434e_23f7, 0x4349_6ae5) == 0x4097_2240);
    assert(0x97_2240 * 0xfc_8f00 == 0x951a_2321_c000);
    lemma_product_known(0x4097_2240, 0x3b7c_8f00, 0x97_2240, 128, 0xfc_8f00, 117, 0x951a_2321_c000, 48, 0x8000_0000_0000, 0x100_0000);
    assert(mul_spec(0x4097_2240, 0x3b7c_8f00) == 0x3c95_1a23);
    assert(0x95_1a23 * 0x1_0000_0000_0000_0000 == 0x1_2a34_4600_0000_0000 * 0x80_0000 + 0x0);
    lemma_quotient_known(0x3c95_1a23, 0x3d00_0000, 0x95_1a23, 120, 0x80_0000, 121, 0x1_2a34_4600_0000_0000, 0x0, 66, 0x2_0000_0000_0000_0000, 0x400_0000_0000);
    assert(div_spec(0x3c95_1a23, 0x3d00_0000) == 0x3f15_1a23);
    assert(0xc9_6ae5 * 0x100 + 0x95_1a23 * 0x1 == 0xc9ff_ff23);
    lemma_sum_known(0x4349_6ae5, 0x3f15_1a23, false, 0xc9_6ae5, 133, 0x95_1a23, 125, 0x100, 0x1, 0xc9ff_ff23, 32, 0x8000_0000, 0x100);
    assert(add_spec(0x4349_6ae5, 0x3f15_1a23) == 0x4349_ffff);
    lemma_whole_known(0x4349_ffff, 0xc9_ffff, 133, 0x1_0000);
}

/// The value 0x3f16_5b1d.
proof fn lemma_at_3f165b1d()
    ensures
        chord_code(0x3f16_5b1d, 0x3f15_5e8d, 0x3f1d_5e8d, 0x4349_6ae5, 0x434e_23f7) == 202,
{
    reveal(chord_code);
    lemma2_to64();
    lemma2_to64_rest();
    lemma_high_powers();
    assert(0x9d_5e8d * 0x1 - 0x95_5e8d * 0x1 == 0x8_0000);
    lemma_sum_known(0x3f1d_5e8d, 0x3f15_5e8d, true, 0x9d_5e8d, 125, 0x95_5e8d, 125, 0x1, 0x1, 0x8_0000, 20, 0x8_0000, 0x10);
    assert(sub_spec(0x3f1d_5e8d, 0x3f15_5e8d) == 0x3d00_0000);
    assert(0x96_5b1d * 0x1 - 0x95_5e8d * 0x1 == 0xfc90);
    lemma_sum_known(0x3f16_5b1d, 0x3f15_5e8d, true, 0x96_5b1d, 125, 0x95_5e8d, 125, 0x1, 0x1, 0xfc90, 16, 0x8000, 0x100);
    assert(sub_spec(0x3f16_5b1d, 0x3f15_5e8d) == 0x3b7c_9000);
    assert(0xce_23f7 * 0x1 - 0xc9_6ae5 * 0x1 == 0x4_b912);
    lemma_sum_known(0x434e_23f7, 0x4349_6ae5, true, 0xce_23f7, 133, 0xc9_6ae5, 133, 0x1, 0x1, 0x4_b912, 19, 0x4_0000, 0x20);
    assert(sub_spec(0x434e_23f7, 0x4349_6ae5) == 0x4097_2240);
    assert(0x97_2240 * 0xfc_9000 == 0x951a_ba44_0000);
    lemma_product_known(0x4097_2240, 0x3b7c_9000, 0x97_2240, 128, 0xfc_9000, 117, 0x951a_ba44_0000, 48, 0x8000_0000_0000, 0x100_0000);
    assert(mul_spec(0x4097_2240, 0x3b7c_9000) == 0x3c95_1aba);
    assert(0x95_1aba * 0x1_0000_0000_0000_0000 == 0x1_2a35_7400_0000_0000 * 0x80_0000 + 0x0);
    lemma_quotient_known(0x3c95_1aba, 0x3d00_0000, 0x95_1aba, 120, 0x80_0000, 121, 0x1_2a35_7400_0000_0000, 0x0, 66, 0x2_0000_0000_0000_0000, 0x400_0000_0000);
    assert(div_spec(0x3c95_1aba, 0x3d00_0000) == 0x3f15_1aba);
    assert(0xc9_6ae5 * 0x100 + 0x95_1aba * 0x1 == 0xc9ff_ffba);
    lemma_sum_known(0x4349_6ae5, 0x3f15_1aba, false, 0xc9_6ae5, 133, 0x95_1aba, 125, 0x100, 0x1, 0xc9ff_ffba, 32, 0x8000_0000, 0x100);
    assert(add_spec(0x4349_6ae5, 0x3f15_1aba) == 0x434a_0000);
    lemma_whole_known(0x434a_0000, 0xca_0000, 133, 0x1_0000);
}

/// The edge of code 201.
proof fn lemma_near_201()
    ensures
        near_exact_edge(0x3f16_5b1c, 201),
{
    lemma2_to64();
    lemma2_to64_rest();
    lemma_fifth_powers_of_two();
    lemma_more_fifth_powers_of_two();
    assert(215525nat * 215525 * 215525 == 0x23_9146_c374_e11d);
    assert(269025nat * 269025 * 269025 == 0x45_2c59_9066_9ca1);
    assert(0x23_9146_c374_e11dnat * 0x23_9146_c374_e11d == 0x4f1_0bca_aeef_6e17_3a2a_f63b_fd49nat);
    assert(0x4f1_0bca_aeef_6e17_3a2a_f63b_fd49nat * 0x4f1_0bca_aeef_6e17_3a2a_f63b_fd49nat == 0x18_6b55_899f_e5bf_1e66_f1d3_4b9b_e4eb_ba11_7589_2669_88cb_063f_5ed1nat);
    assert(0x45_2c59_9066_9ca1nat * 0x45_2c59_9066_9ca1 == 0x12b0_eff6_c049_6d6d_d948_5020_9d41nat);
    assert(0x12b0_eff6_c049_6d6d_d948_5020_9d41nat * 0x12b0_eff6_c049_6d6d_d948_5020_9d41nat == 0x15d_5c09_8741_6139_2178_92b9_bce5_5f46_89a2_dd05_b95f_0d00_50d8_ca81nat);
    assert(0x2ef_b68cnat * 0x2ef_b68c == 0x8_9f50_8b93_5c90);
    assert(0x8_9f50_8b93_5c90nat * 0x8_9f50_8b93_5c90 == 0x4a_582d_dfee_5e2e_1557_ced7_d100nat);
    assert(0x4a_582d_dfee_5e2e_1557_ced7_d100nat * 0x2ef_b68c == 0xda4d_b1ec_c290_3680_e0f7_e430_ab9c_4c00nat);
    assert(0x2ef_d88cnat * 0x2ef_d88c == 0x8_a018_3c94_8c90);
    assert(0x8_a018_3c94_8c90nat * 0x8_a018_3c94_8c90 == 0x4a_65a2_174d_e2e4_5316_53ad_d100nat);
    assert(0x4a_65a2_174d_e2e4_5316_53ad_d100nat * 0x2ef_d88c == 0xda7f_14f2_b5cb_11d8_7977_c1b8_8a66_4c00nat);
    assert(0xda4d_b1ec_c290_3680_e0f7_e430_ab9c_4c00nat * 0x15d_5c09_8741_6139_2178_92b9_bce5_5f46_89a2_dd05_b95f_0d00_50d8_ca81nat == 0x129_ea67_9bc8_4f4f_2854_8998_77f4_54c4_7558_2281_491b_8daa_3e93_9af4_dbb1_5e88_e90c_078f_d986_078f_edba_4c00nat);
    assert(0xda7f_14f2_b5cb_11d8_7977_c1b8_8a66_4c00nat * 0x15d_5c09_8741_6139_2178_92b9_bce5_5f46_89a2_dd05_b95f_0d00_50d8_ca81nat == 0x12a_2dcd_5c51_9cff_ebf6_2eeb_9f9d_d86a_f67c_1a42_4998_a6d3_567d_c3c7_29c6_bac1_fbf5_db6c_3904_f942_9584_4c00nat);
    assert(0xc35nat * 0x100_0000_0000_0000_0000_0000_0000_0000nat == 0xc_3500_0000_0000_0000_0000_0000_0000_0000nat);
    assert(0x18_6b55_899f_e5bf_1e66_f1d3_4b9b_e4eb_ba11_7589_2669_88cb_063f_5ed1nat * 0xc_3500_0000_0000_0000_0000_0000_0000_0000nat == 0x12a_163b_28fc_df85_fe1e_a5f8_49f6_0171_8657_1fc3_31e6_42d6_5343_906d_4500_0000_0000_0000_0000_0000_0000_0000nat);
    lemma_near_above(
        0x3f16_5b1c, 0x96_5b1c, 125, 0x100, 0xc_3500_0000_0000_0000_0000_0000_0000_0000nat, 201,
        215525, 0x23_9146_c374_e11d,
        0x4f1_0bca_aeef_6e17_3a2a_f63b_fd49nat,
        0x45_2c59_9066_9ca1, 0x12b0_eff6_c049_6d6d_d948_5020_9d41nat,
        0x2ef_b68c, 0x8_9f50_8b93_5c90, 0x4a_582d_dfee_5e2e_1557_ced7_d100nat,
        0x2ef_d88c, 0x8_a018_3c94_8c90, 0x4a_65a2_174d_e2e4_5316_53ad_d100nat,
    );
}

/// The value 0x3f18_0cbd.
proof fn lemma_at_3f180cbd()
    ensures
        chord_code(0x3f18_0cbd, 0x3f15_5e8d, 0x3f1d_5e8d, 0x4349_6ae5, 0x434e_23f7) == 202,
{
    reveal(chord_code);
    lemma2_to64();
    lemma2_to64_rest();
    lemma_high_powers();
    assert(0x9d_5e8d * 0x1 - 0x95_5e8d * 0x1 == 0x8_0000);
    lemma_sum_known(0x3f1d_5e8d, 0x3f15_5e8d, true, 0x9d_5e8d, 125, 0x95_5e8d, 125, 0x1, 0x1, 0x8_0000, 20, 0x8_0000, 0x10);
    assert(sub_spec(0x3f1d_5e8d, 0x3f15_5e8d) == 0x3d00_0000);
    assert(0x98_0cbd * 0x1 - 0x95_5e8d * 0x1 == 0x2_ae30);
    lemma_sum_known(0x3f18_0cbd, 0x3f15_5e8d, true, 0x98_0cbd, 125, 0x95_5e8d, 125, 0x1, 0x1, 0x2_ae30, 18, 0x2_0000, 0x40);
    assert(sub_spec(0x3f18_0cbd, 0x3f15_5e8d) == 0x3c2b_8c00);
    assert(0xce_23f7 * 0x1 - 0xc9_6ae5 * 0x1 == 0x4_b912);
    lemma_sum_known(0x434e_23f7, 0x4349_6ae5, true, 0xce_23f7, 133, 0xc9_6ae5, 133, 0x1, 0x1, 0x4_b912, 19, 0x4_0000, 0x20);
    assert(sub_spec(0x434e_23f7, 0x4349_6ae5) == 0x4097_2240);
    assert(0x97_2240 * 0xab_8c00 == 0x6546_877b_0000);
    lemma_product_known(0x4097_2240, 0x3c2b_8c00, 0x97_2240, 128, 0xab_8c00, 119, 0x6546_877b_0000, 47, 0x4000_0000_0000, 0x80_0000);
    assert(mul_spec(0x4097_2240, 0x3c2b_8c00) == 0x3d4a_8d0f);
    assert(0xca_8d0f * 0x1_0000_0000_0000_0000 == 0x1_951a_1e00_0000_0000 * 0x80_0000 + 0x0);
    lemma_quotient_known(0x3d4a_8d0f, 0x3d00_0000, 0xca_8d0f, 121, 0x80_0000, 121, 0x1_951a_1e00_0000_0000, 0x0, 66, 0x2_0000_0000_0000_0000, 0x400_0000_0000);
    assert(div_spec(0x3d4a_8d0f, 0x3d00_0000) == 0x3fca_8d0f);
    assert(0xc9_6ae5 * 0x80 + 0xca_8d0f * 0x1 == 0x657f_ff8f);
    lemma_sum_known(0x4349_6ae5, 0x3fca_8d0f, false, 0xc9_6ae5, 133, 0xca_8d0f, 126, 0x80, 0x1, 0x657f_ff8f, 31, 0x4000_0000, 0x80);
    assert(add_spec(0x4349_6ae5, 0x3fca_8d0f) == 0x434a_ffff);
    lemma_whole_known(0x434a_ffff, 0xca_ffff, 133, 0x1_0000);
}

/// The value 0x3f18_0cbe.
proof fn lemma_at_3f180cbe()
    ensures
        chord_code(0x3f18_0cbe, 0x3f15_5e8d, 0x3f1d_5e8d, 0x4349_6ae5, 0x434e_23f7) == 203,
{
    reveal(chord_code);
    lemma2_to64();
    lemma2_to64_rest();
    lemma_high_powers();
    assert(0x9d_5e8d * 0x1 - 0x95_5e8d * 0x1 == 0x8_0000);
    lemma_sum_known(0x3f1d_5e8d, 0x3f15_5e8d, true, 0x9d_5e8d, 125, 0x95_5e8d, 125, 0x1, 0x1, 0x8_0000, 20, 0x8_0000, 0x10);
    assert(sub_spec(0x3f1d_5e8d, 0x3f15_5e8d) == 0x3d00_0000);
    assert(0x98_0cbe * 0x1 - 0x95_5e8d * 0x1 == 0x2_ae31);
    lemma_sum_known(0x3f18_0cbe, 0x3f15_5e8d, true, 0x98_0cbe, 125, 0x95_5e8d, 125, 0x1, 0x1, 0x2_ae31, 18, 0x2_0000, 0x40);
    assert(sub_spec(0x3f18_0cbe, 0x3f15_5e8d) == 0x3c2b_8c40);
    assert(0xce_23f7 * 0x1 - 0xc9_6ae5 * 0x1 == 0x4_b912);
    lemma_sum_known(0x434e_23f7, 0x4349_6ae5, true, 0xce_23f7, 133, 0xc9_6ae5, 133, 0x1, 0x1, 0x4_b912, 19, 0x4_0000, 0x20);
    assert(sub_spec(0x434e_23f7, 0x4349_6ae5) == 0x4097_2240);
    assert(0x97_2240 * 0xab_8c40 == 0x6546_ad43_9000);
    lemma_product_known(0x4097_2240, 0x3c2b_8c40, 0x97_2240, 128, 0xab_8c40, 119, 0x6546_ad43_9000, 47, 0x4000_0000_0000, 0x80_0000);
    assert(mul_spec(0x4097_2240, 0x3c2b_8c40) == 0x3d4a_8d5b);
    assert(0xca_8d5b * 0x1_0000_0000_0000_0000 == 0x1_951a_b600_0000_0000 * 0x80_0000 + 0x0);
    lemma_quotient_known(0x3d4a_8d5b, 0x3d00_0000, 0xca_8d5b, 121, 0x80_0000, 121, 0x1_951a_b600_0000_0000, 0x0, 66, 0x2_0000_0000_0000_0000, 0x400_0000_0000);
    assert(div_spec(0x3d4a_8d5b, 0x3d00_0000) == 0x3fca_8d5b);
    assert(0xc9_6ae5 * 0x80 + 0xca_8d5b * 0x1 == 0x657f_ffdb);
    lemma_sum_known(0x4349_6ae5, 0x3fca_8d5b, false, 0xc9_6ae5, 133, 0xca_8d5b, 126, 0x80, 0x1, 0x657f_ffdb, 31, 0x4000_0000, 0x80);
    assert(add_spec(0x4349_6ae5, 0x3fca_8d5b) == 0x434b_0000);
    lemma_whole_known(0x434b_0000, 0xcb_0000, 133, 0x1_0000);
}

/// The edge of code 202.
proof fn lemma_near_202()
    ensures
        near_exact_edge(0x3f18_0cbd, 202),
{
    lemma2_to64();
    lemma2_to64_rest();
    lemma_fifth_powers_of_two();
    lemma_more_fifth_powers_of_two();
    assert(216525nat * 216525 * 216525 == 0x24_109b_3494_73d5);
    assert(269025nat * 269025 * 269025 == 0x45_2c59_9066_9ca1);
    assert(0x24_109b_3494_73d5nat * 0x24_109b_3494_73d5 == 0x514_acba_8e6b_d8f3_8912_aab1_0f39nat);
    assert(0x514_acba_8e6b_d8f3_8912_aab1_0f39nat * 0x514_acba_8e6b_d8f3_8912_aab1_0f39nat == 0x19_d06a_bb41_aea7_98e2_79c7_1a41_ba9a_d699_c787_0b36_c8b1_c1b9_bab1nat);
    assert(0x45_2c59_9066_9ca1nat * 0x45_2c59_9066_9ca1 == 0x12b0_eff6_c049_6d6d_d948_5020_9d41nat);
    assert(0x12b0_eff6_c049_6d6d_d948_5020_9d41nat * 0x12b0_eff6_c049_6d6d_d948_5020_9d41nat == 0x15d_5c09_8741_6139_2178_92b9_bce5_5f46_89a2_dd05_b95f_0d00_50d8_ca81nat);
    assert(0x2f8_2eb1nat * 0x2f8_2eb1 == 0x8_d155_4374_1661);
    assert(0x8_d155_4374_1661nat * 0x8_d155_4374_1661 == 0x4d_c080_8bca_cf77_36c5_0fdc_d0c1nat);
    assert(0x4d_c080_8bca_cf77_36c5_0fdc_d0c1nat * 0x2f8_2eb1 == 0xe6e1_abf8_3417_026b_764b_5ea5_6227_0371nat);
    assert(0x2f8_50b1nat * 0x2f8_50b1 == 0x8_d21f_345f_1a61);
    assert(0x8_d21f_345f_1a61nat * 0x8_d21f_345f_1a61 == 0x4d_ce6a_7bab_6716_4d89_feb5_d8c1nat);
    assert(0x4d_ce6a_7bab_6716_4d89_feb5_d8c1nat * 0x2f8_50b1 == 0xe715_526c_231f_1bef_7052_e7dd_6c6f_2d71nat);
    assert(0xe6e1_abf8_3417_026b_764b_5ea5_6227_0371nat * 0x15d_5c09_8741_6139_2178_92b9_bce5_5f46_89a2_dd05_b95f_0d00_50d8_ca81nat == 0x13b_14a9_2317_3a7b_fc43_8070_b26a_6a54_869e_7117_c07b_c202_a41f_4003_f3fc_f41b_bd7e_02d1_89fb_efc7_75b7_e5f1nat);
    assert(0xe715_526c_231f_1bef_7052_e7dd_6c6f_2d71nat * 0x15d_5c09_8741_6139_2178_92b9_bce5_5f46_89a2_dd05_b95f_0d00_50d8_ca81nat == 0x13b_5b25_a0e1_e679_19b9_64e3_33c9_267a_9651_5373_a840_d4db_96ab_8d84_1cb8_1fb7_3b0e_f481_04af_8725_0539_0ff1nat);
    assert(0xc35nat * 0x100_0000_0000_0000_0000_0000_0000_0000nat == 0xc_3500_0000_0000_0000_0000_0000_0000_0000nat);
    assert(0x19_d06a_bb41_aea7_98e2_79c7_1a41_ba9a_d699_c787_0b36_c8b1_c1b9_bab1nat * 0xc_3500_0000_0000_0000_0000_0000_0000_0000nat == 0x13b_1d26_dfd8_c903_dd44_988b_7384_5ae4_1da3_30a3_7be3_bfe1_e1d0_33f2_a500_0000_0000_0000_0000_0000_0000_0000nat);
    lemma_near_above(
        0x3f18_0cbd, 0x98_0cbd, 125, 0x100, 0xc_3500_0000_0000_0000_0000_0000_0000_0000nat, 202,
        216525, 0x24_109b_3494_73d5,
        0x514_acba_8e6b_d8f3_8912_aab1_0f39nat,
        0x45_2c59_9066_9ca1, 0x12b0_eff6_c049_6d6d_d948_5020_9d41nat,
        0x2f8_2eb1, 0x8_d155_4374_1661, 0x4d_c080_8bca_cf77_36c5_0fdc_d0c1nat,
        0x2f8_50b1, 0x8_d21f_345f_1a61, 0x4d_ce6a_7bab_6716_4d89_feb5_d8c1nat,
    );
}

/// The value 0x3f19_be5e.
proof fn lemma_at_3f19be5e()
    ensures
        chord_code(0x3f19_be5e, 0x3f15_5e8d, 0x3f1d_5e8d, 0x4349_6ae5, 0x434e_23f7) == 203,
{
    reveal(chord_code);
    lemma2_to64();
    lemma2_to64_rest();
    lemma_high_powers();
    assert(0x9d_5e8d * 0x1 - 0x95_5e8d * 0x1 == 0x8_0000);
    lemma_sum_known(0x3f1d_5e8d, 0x3f15_5e8d, true, 0x9d_5e8d, 125, 0x95_5e8d, 125, 0x1, 0x1, 0x8_0000, 20, 0x8_0000, 0x10);
    assert(sub_spec(0x3f1d_5e8d, 0x3f15_5e8d) == 0x3d00_0000);
    assert(0x99_be5e * 0x1 - 0x95_5e8d * 0x1 == 0x4_5fd1);
    lemma_sum_known(0x3f19_be5e, 0x3f15_5e8d, true, 0x99_be5e, 125, 0x95_5e8d, 125, 0x1, 0x1, 0x4_5fd1, 19, 0x4_0000, 0x20);
    assert(sub_spec(0x3f19_be5e, 0x3f15_5e8d) == 0x3c8b_fa20);
    assert(0xce_23f7 * 0x1 - 0xc9_6ae5 * 0x1 == 0x4_b912);
    lemma_sum_known(0x434e_23f7, 0x4349_6ae5, true, 0xce_23f7, 133, 0xc9_6ae5, 133, 0x1, 0x1, 0x4_b912, 19, 0x4_0000, 0x20);
    assert(sub_spec(0x434e_23f7, 0x4349_6ae5) == 0x4097_2240);
    assert(0x97_2240 * 0x8b_fa20 == 0x52a3_4316_c800);
    lemma_product_known(0x4097_2240, 0x3c8b_fa20, 0x97_2240, 128, 0x8b_fa20, 120, 0x52a3_4316_c800, 47, 0x4000_0000_0000, 0x80_0000);
    assert(mul_spec(0x4097_2240, 0x3c8b_fa20) == 0x3da5_4686);
    assert(0xa5_4686 * 0x1_0000_0000_0000_0000 == 0x1_4a8d_0c00_0000_0000 * 0x80_0000 + 0x0);
    lemma_quotient_known(0x3da5_4686, 0x3d00_0000, 0xa5_4686, 122, 0x80_0000, 121, 0x1_4a8d_0c00_0000_0000, 0x0, 66, 0x2_0000_0000_0000_0000, 0x400_0000_0000);
    assert(div_spec(0x3da5_4686, 0x3d00_0000) == 0x4025_4686);
    assert(0xc9_6ae5 * 0x40 + 0xa5_4686 * 0x1 == 0x32ff_ffc6);
    lemma_sum_known(0x4349_6ae5, 0x4025_4686, false, 0xc9_6ae5, 133, 0xa5_4686, 127, 0x40, 0x1, 0x32ff_ffc6, 30, 0x2000_0000, 0x40);
    assert(add_spec(0x4349_6ae5, 0x4025_4686) == 0x434b_ffff);
    lemma_whole_known(0x434b_ffff, 0xcb_ffff, 133, 0x1_0000);
}

/// The value 0x3f19_be5f.
proof fn lemma_at_3f19be5f()
    ensures
        chord_code(0x3f19_be5f, 0x3f15_5e8d, 0x3f1d_5e8d, 0x4349_6ae5, 0x434e_23f7) == 204,
{
    reveal(chord_code);
    lemma2_to64();
    lemma2_to64_rest();
    lemma_high_powers();
    assert(0x9d_5e8d * 0x1 - 0x95_5e8d * 0x1 == 0x8_0000);
    lemma_sum_known(0x3f1d_5e8d, 0x3f15_5e8d, true, 0x9d_5e8d, 125, 0x95_5e8d, 125, 0x1, 0x1, 0x8_0000, 20, 0x8_0000, 0x10);
    assert(sub_spec(0x3f1d_5e8d, 0x3f15_5e8d) == 0x3d00_0000);
    assert(0x99_be5f * 0x1 - 0x95_5e8d * 0x1 == 0x4_5fd2);
    lemma_sum_known(0x3f19_be5f, 0x3f15_5e8d, true, 0x99_be5f, 125, 0x95_5e8d, 125, 0x1, 0x1, 0x4_5fd2, 19, 0x4_0000, 0x20);
    assert(sub_spec(0x3f19_be5f, 0x3f15_5e8d) == 0x3c8b_fa40);
    assert(0xce_23f7 * 0x1 - 0xc9_6ae5 * 0x1 == 0x4_b912);
    lemma_sum_known(0x434e_23f7, 0x4349_6ae5, true, 0xce_23f7, 133, 0xc9_6ae5, 133, 0x1, 0x1, 0x4_b912, 19, 0x4_0000, 0x20);
    assert(sub_spec(0x434e_23f7, 0x4349_6ae5) == 0x4097_2240);
    assert(0x97_2240 * 0x8b_fa40 == 0x52a3_55fb_1000);
    lemma_product_known(0x4097_2240, 0x3c8b_fa40, 0x97_2240, 128, 0x8b_fa40, 120, 0x52a3_55fb_1000, 47, 0x4000_0000_0000, 0x80_0000);
    assert(mul_spec(0x4097_2240, 0x3c8b_fa40) == 0x3da5_46ac);
    assert(0xa5_46ac * 0x1_0000_0000_0000_0000 == 0x1_4a8d_5800_0000_0000 * 0x80_0000 + 0x0);
    lemma_quotient_known(0x3da5_46ac, 0x3d00_0000, 0xa5_46ac, 122, 0x80_0000, 121, 0x1_4a8d_5800_0000_0000, 0x0, 66, 0x2_0000_0000_0000_0000, 0x400_0000_0000);
    assert(div_spec(0x3da5_46ac, 0x3d00_0000) == 0x4025_46ac);
    assert(0xc9_6ae5 * 0x40 + 0xa5_46ac * 0x1 == 0x32ff_ffec);
    lemma_sum_known(0x4349_6ae5, 0x4025_46ac, false, 0xc9_6ae5, 133, 0xa5_46ac, 127, 0x40, 0x1, 0x32ff_ffec, 30, 0x2000_0000, 0x40);
    assert(add_spec(0x4349_6ae5, 0x4025_46ac) == 0x434c_0000);
    lemma_whole_known(0x434c_0000, 0xcc_0000, 133, 0x1_0000);
}

/// The edge of code 203.
proof fn lemma_near_203()
    ensures
        near_exact_edge(0x3f19_be5e, 203),
{
    lemma2_to64();
    lemma2_to64_rest();
    lemma_fifth_powers_of_two();
    lemma_more_fifth_powers_of_two();
    assert(217525nat * 217525 * 217525 == 0x24_911e_2113_d60d);
    assert(269025nat * 269025 * 269025 == 0x45_2c59_9066_9ca1);
    assert(0x24_911e_2113_d60dnat * 0x24_911e_2113_d60d == 0x539_22bc_7298_710f_03c4_d2e7_bca9nat);
    assert(0x539_22bc_7298_710f_03c4_d2e7_bca9nat * 0x539_22bc_7298_710f_03c4_d2e7_bca9nat == 0x1b_481b_d91b_9575_f00f_8868_9cc9_f782_06be_0caa_5cd3_dc13_4806_a791nat);
    assert(0x45_2c59_9066_9ca1nat * 0x45_2c59_9066_9ca1 == 0x12b0_eff6_c049_6d6d_d948_5020_9d41nat);
    assert(0x12b0_eff6_c049_6d6d_d948_5020_9d41nat * 0x12b0_eff6_c049_6d6d_d948_5020_9d41nat == 0x15d_5c09_8741_6139_2178_92b9_bce5_5f46_89a2_dd05_b95f_0d00_50d8_ca81nat);
    assert(0x300_a6d6nat * 0x300_a6d6 == 0x9_03e9_70ba_3ae4);
    assert(0x9_03e9_70ba_3ae4nat * 0x9_03e9_70ba_3ae4 == 0x51_4679_3a9a_e60c_0609_20dc_1b10nat);
    assert(0x51_4679_3a9a_e60c_0609_20dc_1b10nat * 0x300_a6d6 == 0xf408_6353_5609_92ba_3559_8b41_618a_ff60nat);
    assert(0x300_c8d6nat * 0x300_c8d6 == 0x9_04b5_a18f_12e4);
    assert(0x9_04b5_a18f_12e4nat * 0x9_04b5_a18f_12e4 == 0x51_54db_89f9_a6e5_1c20_e41c_db10nat);
    assert(0x51_54db_89f9_a6e5_1c20_e41c_db10nat * 0x300_c8d6 == 0xf43e_60e6_6045_1068_e42b_8c46_6b43_9f60nat);
    assert(0xf408_6353_5609_92ba_3559_8b41_618a_ff60nat * 0x15d_5c09_8741_6139_2178_92b9_bce5_5f46_89a2_dd05_b95f_0d00_50d8_ca81nat == 0x14d_072b_8188_7b16_4cdc_695b_4665_0aa6_fe1f_ebf4_67a5_9f2c_7fd2_9f51_9619_15be_4022_b0f4_ab3e_5fff_4d8c_6f60nat);
    assert(0xf43e_60e6_6045_1068_e42b_8c46_6b43_9f60nat * 0x15d_5c09_8741_6139_2178_92b9_bce5_5f46_89a2_dd05_b95f_0d00_50d8_ca81nat == 0x14d_50d9_9c20_b68b_cf1f_23bb_e474_dac9_e1c6_c016_bb86_4dac_d69a_401c_706c_b0e0_7cfb_6610_a748_c2fb_e1d5_0f60nat);
    assert(0xc35nat * 0x100_0000_0000_0000_0000_0000_0000_0000nat == 0xc_3500_0000_0000_0000_0000_0000_0000_0000nat);
    assert(0x1b_481b_d91b_9575_f00f_8868_9cc9_f782_06be_0caa_5cd3_dc13_4806_a791nat * 0xc_3500_0000_0000_0000_0000_0000_0000_0000nat == 0x14d_073b_f13d_b778_ab6d_9c25_01ed_6a56_3c4d_f09b_9f26_2d77_5e39_3b7d_0500_0000_0000_0000_0000_0000_0000_0000nat);
    lemma_near_above(
        0x3f19_be5e, 0x99_be5e, 125, 0x100, 0xc_3500_0000_0000_0000_0000_0000_0000_0000nat, 203,
        217525, 0x24_911e_2113_d60d,
        0x539_22bc_7298_710f_03c4_d2e7_bca9nat,
        0x45_2c59_9066_9ca1, 0x12b0_eff6_c049_6d6d_d948_5020_9d41nat,
        0x300_a6d6, 0x9_03e9_70ba_3ae4, 0x51_4679_3a9a_e60c_0609_20dc_1b10nat,
        0x300_c8d6, 0x9_04b5_a18f_12e4, 0x51_54db_89f9_a6e5_1c20_e41c_db10nat,
    );
}

/// The value 0x3f1b_6fff.
proof fn lemma_at_3f1b6fff()
    ensures
        chord_code(0x3f1b_6fff, 0x3f15_5e8d, 0x3f1d_5e8d, 0x4349_6ae5, 0x434e_23f7) == 204,
{
    reveal(chord_code);
    lemma2_to64();
    lemma2_to64_rest();
    lemma_high_powers();
    assert(0x9d_5e8d * 0x1 - 0x95_5e8d * 0x1 == 0x8_0000);
    lemma_sum_known(0x3f1d_5e8d, 0x3f15_5e8d, true, 0x9d_5e8d, 125, 0x95_5e8d, 125, 0x1, 0x1, 0x8_0000, 20, 0x8_0000, 0x10);
    assert(sub_spec(0x3f1d_5e8d, 0x3f15_5e8d) == 0x3d00_0000);
    assert(0x9b_6fff * 0x1 - 0x95_5e8d * 0x1 == 0x6_1172);
    lemma_sum_known(0x3f1b_6fff, 0x3f15_5e8d, true, 0x9b_6fff, 125, 0x95_5e8d, 125, 0x1, 0x1, 0x6_1172, 19, 0x4_0000, 0x20);
    assert(sub_spec(0x3f1b_6fff, 0x3f15_5e8d) == 0x3cc2_2e40);
    assert(0xce_23f7 * 0x1 - 0xc9_6ae5 * 0x1 == 0x4_b912);
    lemma_sum_known(0x434e_23f7, 0x4349_6ae5, true, 0xce_23f7, 133, 0xc9_6ae5, 133, 0x1, 0x1, 0x4_b912, 19, 0x4_0000, 0x20);
    assert(sub_spec(0x434e_23f7, 0x4349_6ae5) == 0x4097_2240);
    assert(0x97_2240 * 0xc2_2e40 == 0x72a3_4270_1000);
    lemma_product_known(0x4097_2240, 0x3cc2_2e40, 0x97_2240, 128, 0xc2_2e40, 120, 0x72a3_4270_1000, 47, 0x4000_0000_0000, 0x80_0000);
    assert(mul_spec(0x4097_2240, 0x3cc2_2e40) == 0x3de5_4685);
    assert(0xe5_4685 * 0x1_0000_0000_0000_0000 == 0x1_ca8d_0a00_0000_0000 * 0x80_0000 + 0x0);
    lemma_quotient_known(0x3de5_4685, 0x3d00_0000, 0xe5_4685, 122, 0x80_0000, 121, 0x1_ca8d_0a00_0000_0000, 0x0, 66, 0x2_0000_0000_0000_0000, 0x400_0000_0000);
    assert(div_spec(0x3de5_4685, 0x3d00_0000) == 0x4065_4685);
    assert(0xc9_6ae5 * 0x40 + 0xe5_4685 * 0x1 == 0x333f_ffc5);
    lemma_sum_known(0x4349_6ae5, 0x4065_4685, false, 0xc9_6ae5, 133, 0xe5_4685, 127, 0x40, 0x1, 0x333f_ffc5, 30, 0x2000_0000, 0x40);
    assert(add_spec(0x4349_6ae5, 0x4065_4685) == 0x434c_ffff);
    lemma_whole_known(0x434c_ffff, 0xcc_ffff, 133, 0x1_0000);
}

/// The value 0x3f1b_7000.
proof fn lemma_at_3f1b7000()
    ensures
        chord_code(0x3f1b_7000, 0x3f15_5e8d, 0x3f1d_5e8d, 0x4349_6ae5, 0x434e_23f7) == 205,
{
    reveal(chord_code);
    lemma2_to64();
    lemma2_to64_rest();
    lemma_high_powers();
    assert(0x9d_5e8d * 0x1 - 0x95_5e8d * 0x1 == 0x8_0000);
    lemma_sum_known(0x3f1d_5e8d, 0x3f15_5e8d, true, 0x9d_5e8d, 125, 0x95_5e8d, 125, 0x1, 0x1, 0x8_0000, 20, 0x8_0000, 0x10);
    assert(sub_spec(0x3f1d_5e8d, 0x3f15_5e8d) == 0x3d00_0000);
    assert(0x9b_7000 * 0x1 - 0x95_5e8d * 0x1 == 0x6_1173);
    lemma_sum_known(0x3f1b_7000, 0x3f15_5e8d, true, 0x9b_7000, 125, 0x95_5e8d, 125, 0x1, 0x1, 0x6_1173, 19, 0x4_0000, 0x20);
    assert(sub_spec(0x3f1b_7000, 0x3f15_5e8d) == 0x3cc2_2e60);
    assert(0xce_23f7 * 0x1 - 0xc9_6ae5 * 0x1 == 0x4_b912);
    lemma_sum_known(0x434e_23f7, 0x4349_6ae5, true, 0xce_23f7, 133, 0xc9_6ae5, 133, 0x1, 0x1, 0x4_b912, 19, 0x4_0000, 0x20);
    assert(sub_spec(0x434e_23f7, 0x4349_6ae5) == 0x4097_2240);
    assert(0x97_2240 * 0xc2_2e60 == 0x72a3_5554_5800);
    lemma_product_known(0x4097_2240, 0x3cc2_2e60, 0x97_2240, 128, 0xc2_2e60, 120, 0x72a3_5554_5800, 47, 0x4000_0000_0000, 0x80_0000);
    assert(mul_spec(0x4097_2240, 0x3cc2_2e60) == 0x3de5_46ab);
    assert(0xe5_46ab * 0x1_0000_0000_0000_0000 == 0x1_ca8d_5600_0000_0000 * 0x80_0000 + 0x0);
    lemma_quotient_known(0x3de5_46ab, 0x3d00_0000, 0xe5_46ab, 122, 0x80_0000, 121, 0x1_ca8d_5600_0000_0000, 0x0, 66, 0x2_0000_0000_0000_0000, 0x400_0000_0000);
    assert(div_spec(0x3de5_46ab, 0x3d00_0000) == 0x4065_46ab);
    assert(0xc9_6ae5 * 0x40 + 0xe5_46ab * 0x1 == 0x333f_ffeb);
    lemma_sum_known(0x4349_6ae5, 0x4065_46ab, false, 0xc9_6ae5, 133, 0xe5_46ab, 127, 0x40, 0x1, 0x333f_ffeb, 30, 0x2000_0000, 0x40);
    assert(add_spec(0x4349_6ae5, 0x4065_46ab) == 0x434d_0000);
    lemma_whole_known(0x434d_0000, 0xcd_0000, 133, 0x1_0000);
}

/// The edge of code 204.
proof fn lemma_near_204()
    ensures
        near_exact_edge(0x3f1b_6fff, 204),
{
    lemma2_to64();
    lemma2_to64_rest();
    lemma_fifth_powers_of_two();
    lemma_more_fifth_powers_of_two();
    assert(218525nat * 218525 * 218525 == 0x25_12d0_ee93_c3c5);
    assert(269025nat * 269025 * 269025 == 0x45_2c59_9066_9ca1);
    assert(0x25_12d0_ee93_c3c5nat * 0x25_12d0_ee93_c3c5 == 0x55e_71c7_02c7_ecee_e96c_b5f3_b599nat);
    assert(0x55e_71c7_02c7_ecee_e96c_b5f3_b599nat * 0x55e_71c7_02c7_ecee_e96c_b5f3_b599nat == 0x1c_d349_86d3_253d_2696_ac47_f613_54c3_600b_7135_6800_41e4_9b47_b571nat);
    assert(0x45_2c59_9066_9ca1nat * 0x45_2c59_9066_9ca1 == 0x12b0_eff6_c049_6d6d_d948_5020_9d41nat);
    assert(0x12b0_eff6_c049_6d6d_d948_5020_9d41nat * 0x12b0_eff6_c049_6d6d_d948_5020_9d41nat == 0x15d_5c09_8741_6139_2178_92b9_bce5_5f46_89a2_dd05_b95f_0d00_50d8_ca81nat);
    assert(0x309_1efbnat * 0x309_1efb == 0x9_370d_1365_ca19);
    assert(0x9_370d_1365_ca19nat * 0x9_370d_1365_ca19 == 0x54_eac1_fc28_ec67_8902_cd45_7671nat);
    assert(0x54_eac1_fc28_ec67_8902_cd45_7671nat * 0x309_1efb == 0x1_01c6_cd8b_3ff4_8e12_c512_b1a1_e3f5_5ecbnat);
    assert(0x309_40fbnat * 0x309_40fb == 0x9_37db_8424_7619);
    assert(0x9_37db_8424_7619nat * 0x9_37db_8424_7619 == 0x54_f99f_5993_5318_6bc1_3583_0e71nat);
    assert(0x54_f99f_5993_5318_6bc1_3583_0e71nat * 0x309_40fb == 0x1_01ff_365f_75c8_dd57_a14d_5e97_1014_68cbnat);
    assert(0x1_01c6_cd8b_3ff4_8e12_c512_b1a1_e3f5_5ecbnat * 0x15d_5c09_8741_6139_2178_92b9_bce5_5f46_89a2_dd05_b95f_0d00_50d8_ca81nat == 0x15f_c8b3_40e3_210b_4c2d_2ca6_63c9_412a_7ef0_aebb_269d_fbfe_864b_ae9a_b473_7a26_b1ad_c157_dc8f_941a_e6b8_f24bnat);
    assert(0x1_01ff_365f_75c8_dd57_a14d_5e97_1014_68cbnat * 0x15d_5c09_8741_6139_2178_92b9_bce5_5f46_89a2_dd05_b95f_0d00_50d8_ca81nat == 0x160_15ae_71f6_43f9_8094_b1a4_b44c_3328_eed9_2c79_279f_cd51_066d_329d_309c_6f49_1205_a35b_f8c3_1dc7_1040_fc4bnat);
    assert(0xc35nat * 0x100_0000_0000_0000_0000_0000_0000_0000nat == 0xc_3500_0000_0000_0000_0000_0000_0000_0000nat);
    assert(0x1c_d349_86d3_253d_2696_ac47_f613_54c3_600b_7135_6800_41e4_9b47_b571nat * 0xc_3500_0000_0000_0000_0000_0000_0000_0000nat == 0x15f_df30_8acf_7593_780d_450a_6ed9_f9b4_f36b_acf0_ee8b_245b_9b82_59dc_6500_0000_0000_0000_0000_0000_0000_0000nat);
    lemma_near_above(
        0x3f1b_6fff, 0x9b_6fff, 125, 0x100, 0xc_3500_0000_0000_0000_0000_0000_0000_0000nat, 204,
        218525, 0x25_12d0_ee93_c3c5,
        0x55e_71c7_02c7_ecee_e96c_b5f3_b599nat,
        0x45_2c59_9066_9ca1, 0x12b0_eff6_c049_6d6d_d948_5020_9d41nat,
        0x309_1efb, 0x9_370d_1365_ca19, 0x54_eac1_fc28_ec67_8902_cd45_7671nat,
        0x309_40fb, 0x9_37db_8424_7619, 0x54_f99f_5993_5318_6bc1_3583_0e71nat,
    );
}

/// The value 0x3f1d_21a0.
proof fn lemma_at_3f1d21a0()
    ensures
        chord_code(0x3f1d_21a0, 0x3f15_5e8d, 0x3f1d_5e8d, 0x4349_6ae5, 0x434e_23f7) == 205,
{
    reveal(chord_code);
    lemma2_to64();
    lemma2_to64_rest();
    lemma_high_powers();
    assert(0x9d_5e8d * 0x1 - 0x95_5e8d * 0x1 == 0x8_0000);
    lemma_sum_known(0x3f1d_5e8d, 0x3f15_5e8d, true, 0x9d_5e8d, 125, 0x95_5e8d, 125, 0x1, 0x1, 0x8_0000, 20, 0x8_0000, 0x10);
    assert(sub_spec(0x3f1d_5e8d, 0x3f15_5e8d) == 0x3d00_0000);
    assert(0x9d_21a0 * 0x1 - 0x95_5e8d * 0x1 == 0x7_c313);
    lemma_sum_known(0x3f1d_21a0, 0x3f15_5e8d, true, 0x9d_21a0, 125, 0x95_5e8d, 125, 0x1, 0x1, 0x7_c313, 19, 0x4_0000, 0x20);
    assert(sub_spec(0x3f1d_21a0, 0x3f15_5e8d) == 0x3cf8_6260);
    assert(0xce_23f7 * 0x1 - 0xc9_6ae5 * 0x1 == 0x4_b912);
    lemma_sum_known(0x434e_23f7, 0x4349_6ae5, true, 0xce_23f7, 133, 0xc9_6ae5, 133, 0x1, 0x1, 0x4_b912, 19, 0x4_0000, 0x20);
    assert(sub_spec(0x434e_23f7, 0x4349_6ae5) == 0x4097_2240);
    assert(0x97_2240 * 0xf8_6260 == 0x92a3_41c9_5800);
    lemma_product_known(0x4097_2240, 0x3cf8_6260, 0x97_2240, 128, 0xf8_6260, 120, 0x92a3_41c9_5800, 48, 0x8000_0000_0000, 0x100_0000);
    assert(mul_spec(0x4097_2240, 0x3cf8_6260) == 0x3e12_a342);
    assert(0x92_a342 * 0x1_0000_0000_0000_0000 == 0x1_2546_8400_0000_0000 * 0x80_0000 + 0x0);
    lemma_quotient_known(0x3e12_a342, 0x3d00_0000, 0x92_a342, 123, 0x80_0000, 121, 0x1_2546_8400_0000_0000, 0x0, 66, 0x2_0000_0000_0000_0000, 0x400_0000_0000);
    assert(div_spec(0x3e12_a342, 0x3d00_0000) == 0x4092_a342);
    assert(0xc9_6ae5 * 0x20 + 0x92_a342 * 0x1 == 0x19bf_ffe2);
    lemma_sum_known(0x4349_6ae5, 0x4092_a342, false, 0xc9_6ae5, 133, 0x92_a342, 128, 0x20, 0x1, 0x19bf_ffe2, 29, 0x1000_0000, 0x20);
    assert(add_spec(0x4349_6ae5, 0x4092_a342) == 0x434d_ffff);
    lemma_whole_known(0x434d_ffff, 0xcd_ffff, 133, 0x1_0000);
}

/// The value 0x3f1d_21a1.
proof fn lemma_at_3f1d21a1()
    ensures
        chord_code(0x3f1d_21a1, 0x3f15_5e8d, 0x3f1d_5e8d, 0x4349_6ae5, 0x434e_23f7) == 206,
{
    reveal(chord_code);
    lemma2_to64();
    lemma2_to64_rest();
    lemma_high_powers();
    assert(0x9d_5e8d * 0x1 - 0x95_5e8d * 0x1 == 0x8_0000);
    lemma_sum_known(0x3f1d_5e8d, 0x3f15_5e8d, true, 0x9d_5e8d, 125, 0x95_5e8d, 125, 0x1, 0x1, 0x8_0000, 20, 0x8_0000, 0x10);
    assert(sub_spec(0x3f1d_5e8d, 0x3f15_5e8d) == 0x3d00_0000);
    assert(0x9d_21a1 * 0x1 - 0x95_5e8d * 0x1 == 0x7_c314);
    lemma_sum_known(0x3f1d_21a1, 0x3f15_5e8d, true, 0x9d_21a1, 125, 0x95_5e8d, 125, 0x1, 0x1, 0x7_c314, 19, 0x4_0000, 0x20);
    assert(sub_spec(0x3f1d_21a1, 0x3f15_5e8d) == 0x3cf8_6280);
    assert(0xce_23f7 * 0x1 - 0xc9_6ae5 * 0x1 == 0x4_b912);
    lemma_sum_known(0x434e_23f7, 0x4349_6ae5, true, 0xce_23f7, 133, 0xc9_6ae5, 133, 0x1, 0x1, 0x4_b912, 19, 0x4_0000, 0x20);
    assert(sub_spec(0x434e_23f7, 0x4349_6ae5) == 0x4097_2240);
    assert(0x97_2240 * 0xf8_6280 == 0x92a3_54ad_a000);
    lemma_product_known(0x4097_2240, 0x3cf8_6280, 0x97_2240, 128, 0xf8_6280, 120, 0x92a3_54ad_a000, 48, 0x8000_0000_0000, 0x100_0000);
    assert(mul_spec(0x4097_2240, 0x3cf8_6280) == 0x3e12_a355);
    assert(0x92_a355 * 0x1_0000_0000_0000_0000 == 0x1_2546_aa00_0000_0000 * 0x80_0000 + 0x0);
    lemma_quotient_known(0x3e12_a355, 0x3d00_0000, 0x92_a355, 123, 0x80_0000, 121, 0x1_2546_aa00_0000_0000, 0x0, 66, 0x2_0000_0000_0000_0000, 0x400_0000_0000);
    assert(div_spec(0x3e12_a355, 0x3d00_0000) == 0x4092_a355);
    assert(0xc9_6ae5 * 0x20 + 0x92_a355 * 0x1 == 0x19bf_fff5);
    lemma_sum_known(0x4349_6ae5, 0x4092_a355, false, 0xc9_6ae5, 133, 0x92_a355, 128, 0x20, 0x1, 0x19bf_fff5, 29, 0x1000_0000, 0x20);
    assert(add_spec(0x4349_6ae5, 0x4092_a355) == 0x434e_0000);
    lemma_whole_known(0x434e_0000, 0xce_0000, 133, 0x1_0000);
}

/// The edge of code 205.
proof fn lemma_near_205()
    ensures
        near_exact_edge(0x3f1d_21a0, 205),
{
    lemma2_to64();
    lemma2_to64_rest();
    lemma_fifth_powers_of_two();
    lemma_more_fifth_powers_of_two();
    assert(219525nat * 219525 * 219525 == 0x25_95b5_02b4_f8fd);
    assert(269025nat * 269025 * 269025 == 0x45_2c59_9066_9ca1);
    assert(0x25_95b5_02b4_f8fdnat * 0x25_95b5_02b4_f8fd == 0x584_9dde_fd73_76e7_eb95_09f3_2a09nat);
    assert(0x584_9dde_fd73_76e7_eb95_09f3_2a09nat * 0x584_9dde_fd73_76e7_eb95_09f3_2a09nat == 0x1e_72dd_e537_26d3_dd66_e261_9a56_136d_e818_a4b5_2cdc_7467_75fc_f451nat);
    assert(0x45_2c59_9066_9ca1nat * 0x45_2c59_9066_9ca1 == 0x12b0_eff6_c049_6d6d_d948_5020_9d41nat);
    assert(0x12b0_eff6_c049_6d6d_d948_5020_9d41nat * 0x12b0_eff6_c049_6d6d_d948_5020_9d41nat == 0x15d_5c09_8741_6139_2178_92b9_bce5_5f46_89a2_dd05_b95f_0d00_50d8_ca81nat);
    assert(0x311_9720nat * 0x311_9720 == 0x9_6ac0_2b76_c400);
    assert(0x9_6ac0_2b76_c400nat * 0x9_6ac0_2b76_c400 == 0x58_ae06_c299_5bd7_1cf1_4610_0000nat);
    assert(0x58_ae06_c299_5bd7_1cf1_4610_0000nat * 0x311_9720 == 0x1_1021_fc76_75e3_66f7_1ccd_c58c_3200_0000nat);
    assert(0x311_b920nat * 0x311_b920 == 0x9_6b90_dc1f_4400);
    assert(0x9_6b90_dc1f_4400nat * 0x9_6b90_dc1f_4400 == 0x58_bd61_e42d_4b4a_40b1_8a10_0000nat);
    assert(0x58_bd61_e42d_4b4a_40b1_8a10_0000nat * 0x311_b920 == 0x1_105c_e520_1905_1fc2_7270_be06_d200_0000nat);
    assert(0x1_1021_fc76_75e3_66f7_1ccd_c58c_3200_0000nat * 0x15d_5c09_8741_6139_2178_92b9_bce5_5f46_89a2_dd05_b95f_0d00_50d8_ca81nat == 0x173_602b_8532_95a8_6aef_3217_9500_3d0b_a810_edd2_c1d5_fb32_68bc_a022_39e7_b03e_fc87_2724_5f7b_5b19_3200_0000nat);
    assert(0x1_105c_e520_1905_1fc2_7270_be06_d200_0000nat * 0x15d_5c09_8741_6139_2178_92b9_bce5_5f46_89a2_dd05_b95f_0d00_50d8_ca81nat == 0x173_b08f_e244_3ef5_1a22_7f85_d87e_34e3_6f3d_eebd_1dd1_ad15_3a1d_dffa_59ec_cd8f_7c68_8075_1822_5323_d200_0000nat);
    assert(0xc35nat * 0x100_0000_0000_0000_0000_0000_0000_0000nat == 0xc_3500_0000_0000_0000_0000_0000_0000_0000nat);
    assert(0x1e_72dd_e537_26d3_dd66_e261_9a56_136d_e818_a4b5_2cdc_7467_75fc_f451nat * 0xc_3500_0000_0000_0000_0000_0000_0000_0000nat == 0x173_b02e_af0a_3cf8_3da8_e971_70fc_bb2c_a234_d297_9c9f_18f2_f348_d260_c500_0000_0000_0000_0000_0000_0000_0000nat);
    lemma_near_above(
        0x3f1d_21a0, 0x9d_21a0, 125, 0x100, 0xc_3500_0000_0000_0000_0000_0000_0000_0000nat, 205,
        219525, 0x25_95b5_02b4_f8fd,
        0x584_9dde_fd73_76e7_eb95_09f3_2a09nat,
        0x45_2c59_9066_9ca1, 0x12b0_eff6_c049_6d6d_d948_5020_9d41nat,
        0x311_9720, 0x9_6ac0_2b76_c400, 0x58_ae06_c299_5bd7_1cf1_4610_0000nat,
        0x311_b920, 0x9_6b90_dc1f_4400, 0x58_bd61_e42d_4b4a_40b1_8a10_0000nat,
    );
}

/// The value 0x3f1e_de93.
proof fn lemma_at_3f1ede93()
    ensures
        chord_code(0x3f1e_de93, 0x3f1d_5e8d, 0x3f25_5e8d, 0x434e_23f7, 0x4352_b965) == 206,
{
    reveal(chord_code);
    lemma2_to64();
    lemma2_to64_rest();
    lemma_high_powers();
    assert(0xa5_5e8d * 0x1 - 0x9d_5e8d * 0x1 == 0x8_0000);
    lemma_sum_known(0x3f25_5e8d, 0x3f1d_5e8d, true, 0xa5_5e8d, 125, 0x9d_5e8d, 125, 0x1, 0x1, 0x8_0000, 20, 0x8_0000, 0x10);
    assert(sub_spec(0x3f25_5e8d, 0x3f1d_5e8d) == 0x3d00_0000);
    assert(0x9e_de93 * 0x1 - 0x9d_5e8d * 0x1 == 0x1_8006);
    lemma_sum_known(0x3f1e_de93, 0x3f1d_5e8d, true, 0x9e_de93, 125, 0x9d_5e8d, 125, 0x1, 0x1, 0x1_8006, 17, 0x1_0000, 0x80);
    assert(sub_spec(0x3f1e_de93, 0x3f1d_5e8d) == 0x3bc0_0300);
    assert(0xd2_b965 * 0x1 - 0xce_23f7 * 0x1 == 0x4_956e);
    lemma_sum_known(0x4352_b965, 0x434e_23f7, true, 0xd2_b965, 133, 0xce_23f7, 133, 0x1, 0x1, 0x4_956e, 19, 0x4_0000, 0x20);
    assert(sub_spec(0x4352_b965, 0x434e_23f7) == 0x4092_adc0);
    assert(0x92_adc0 * 0xc0_0300 == 0x6e04_0809_4000);
    lemma_product_known(0x4092_adc0, 0x3bc0_0300, 0x92_adc0, 128, 0xc0_0300, 118, 0x6e04_0809_4000, 47, 0x4000_0000_0000, 0x80_0000);
    assert(mul_spec(0x4092_adc0, 0x3bc0_0300) == 0x3cdc_0810);
    assert(0xdc_0810 * 0x1_0000_0000_0000_0000 == 0x1_b810_2000_0000_0000 * 0x80_0000 + 0x0);
    lemma_quotient_known(0x3cdc_0810, 0x3d00_0000, 0xdc_0810, 120, 0x80_0000, 121, 0x1_b810_2000_0000_0000, 0x0, 66, 0x2_0000_0000_0000_0000, 0x400_0000_0000);
    assert(div_spec(0x3cdc_0810, 0x3d00_0000) == 0x3f5c_0810);
    assert(0xce_23f7 * 0x100 + 0xdc_0810 * 0x1 == 0xceff_ff10);
    lemma_sum_known(0x434e_23f7, 0x3f5c_0810, false, 0xce_23f7, 133, 0xdc_0810, 125, 0x100, 0x1, 0xceff_ff10, 32, 0x8000_0000, 0x100);
    assert(add_spec(0x434e_23f7, 0x3f5c_0810) == 0x434e_ffff);
    lemma_whole_known(0x434e_ffff, 0xce_ffff, 133, 0x1_0000);
}

/// The value 0x3f1e_de94.
proof fn lemma_at_3f1ede94()
    ensures
        chord_code(0x3f1e_de94, 0x3f1d_5e8d, 0x3f25_5e8d, 0x434e_23f7, 0x4352_b965) == 207,
{
    reveal(chord_code);
    lemma2_to64();
    lemma2_to64_rest();
    lemma_high_powers();
    assert(0xa5_5e8d * 0x1 - 0x9d_5e8d * 0x1 == 0x8_0000);
    lemma_sum_known(0x3f25_5e8d, 0x3f1d_5e8d, true, 0xa5_5e8d, 125, 0x9d_5e8d, 125, 0x1, 0x1, 0x8_0000, 20, 0x8_0000, 0x10);
    assert(sub_spec(0x3f25_5e8d, 0x3f1d_5e8d) == 0x3d00_0000);
    assert(0x9e_de94 * 0x1 - 0x9d_5e8d * 0x1 == 0x1_8007);
    lemma_sum_known(0x3f1e_de94, 0x3f1d_5e8d, true, 0x9e_de94, 125, 0x9d_5e8d, 125, 0x1, 0x1, 0x1_8007, 17, 0x1_0000, 0x80);
    assert(sub_spec(0x3f1e_de94, 0x3f1d_5e8d) == 0x3bc0_0380);
    assert(0xd2_b965 * 0x1 - 0xce_23f7 * 0x1 == 0x4_956e);
    lemma_sum_known(0x4352_b965, 0x434e_23f7, true, 0xd2_b965, 133, 0xce_23f7, 133, 0x1, 0x1, 0x4_956e, 19, 0x4_0000, 0x20);
    assert(sub_spec(0x4352_b965, 0x434e_23f7) == 0x4092_adc0);
    assert(0x92_adc0 * 0xc0_0380 == 0x6e04_5160_2000);
    lemma_product_known(0x4092_adc0, 0x3bc0_0380, 0x92_adc0, 128, 0xc0_0380, 118, 0x6e04_5160_2000, 47, 0x4000_0000_0000, 0x80_0000);
    assert(mul_spec(0x4092_adc0, 0x3bc0_0380) == 0x3cdc_08a3);
    assert(0xdc_08a3 * 0x1_0000_0000_0000_0000 == 0x1_b811_4600_0000_0000 * 0x80_0000 + 0x0);
    lemma_quotient_known(0x3cdc_08a3, 0x3d00_0000, 0xdc_08a3, 120, 0x80_0000, 121, 0x1_b811_4600_0000_0000, 0x0, 66, 0x2_0000_0000_0000_0000, 0x400_0000_0000);
    assert(div_spec(0x3cdc_08a3, 0x3d00_0000) == 0x3f5c_08a3);
    assert(0xce_23f7 * 0x100 + 0xdc_08a3 * 0x1 == 0xceff_ffa3);
    lemma_sum_known(0x434e_23f7, 0x3f5c_08a3, false, 0xce_23f7, 133, 0xdc_08a3, 125, 0x100, 0x1, 0xceff_ffa3, 32, 0x8000_0000, 0x100);
    assert(add_spec(0x434e_23f7, 0x3f5c_08a3) == 0x434f_0000);
    lemma_whole_known(0x434f_0000, 0xcf_0000, 133, 0x1_0000);
}

/// The edge of code 206.
proof fn lemma_near_206()
    ensures
        near_exact_edge(0x3f1e_de93, 206),
{
    lemma2_to64();
    lemma2_to64_rest();
    lemma_fifth_powers_of_two();
    lemma_more_fifth_powers_of_two();
    assert(220525nat * 220525 * 220525 == 0x26_19cb_c318_31b5);
    assert(269025nat * 269025 * 269025 == 0x45_2c59_9066_9ca1);
    assert(0x26_19cb_c318_31b5nat * 0x26_19cb_c318_31b5 == 0x5ab_ab17_5978_787e_0d11_1996_c9f9nat);
    assert(0x5ab_ab17_5978_787e_0d11_1996_c9f9nat * 0x5ab_ab17_5978_787e_0d11_1996_c9f9nat == 0x20_27cc_ed08_6f4e_08cb_286c_1890_25b4_ac07_c6f5_fa34_e955_f124_f431nat);
    assert(0x45_2c59_9066_9ca1nat * 0x45_2c59_9066_9ca1 == 0x12b0_eff6_c049_6d6d_d948_5020_9d41nat);
    assert(0x12b0_eff6_c049_6d6d_d948_5020_9d41nat * 0x12b0_eff6_c049_6d6d_d948_5020_9d41nat == 0x15d_5c09_8741_6139_2178_92b9_bce5_5f46_89a2_dd05_b95f_0d00_50d8_ca81nat);
    assert(0x31a_47dfnat * 0x31a_47df == 0x9_a061_e779_7441);
    assert(0x9_a061_e779_7441nat * 0x9_a061_e779_7441 == 0x5c_ab5c_cd53_3939_c2ae_683c_f881nat);
    assert(0x5c_ab5c_cd53_3939_c2ae_683c_f881nat * 0x31a_47df == 0x1_1f85_8214_d6e8_6d83_af3e_41f0_7622_3f5fnat);
    assert(0x31a_69dfnat * 0x31a_69df == 0x9_a134_e714_b041);
    assert(0x9_a134_e714_b041nat * 0x9_a134_e714_b041 == 0x5c_bb3b_d50b_1b41_b429_5181_7081nat);
    assert(0x5c_bb3b_d50b_1b41_b429_5181_7081nat * 0x31a_69df == 0x1_1fc3_1125_67f2_aca3_7947_ade3_06ff_e95fnat);
    assert(0x1_1f85_8214_d6e8_6d83_af3e_41f0_7622_3f5fnat * 0x15d_5c09_8741_6139_2178_92b9_bce5_5f46_89a2_dd05_b95f_0d00_50d8_ca81nat == 0x188_6061_04c2_e085_2747_b476_0217_a38d_9d41_3aab_5c48_2072_8969_1400_261e_344e_76da_7521_1eae_2b15_b56a_e4dfnat);
    assert(0x1_1fc3_1125_67f2_aca3_7947_ade3_06ff_e95fnat * 0x15d_5c09_8741_6139_2178_92b9_bce5_5f46_89a2_dd05_b95f_0d00_50d8_ca81nat == 0x188_b463_300d_1d5c_6e4d_3100_1b6f_0821_66dc_1fa0_d5d1_7296_97c9_e99a_ca6d_a348_6d0e_58b7_962c_76c7_0d41_8edfnat);
    assert(0xc35nat * 0x100_0000_0000_0000_0000_0000_0000_0000nat == 0xc_3500_0000_0000_0000_0000_0000_0000_0000nat);
    assert(0x20_27cc_ed08_6f4e_08cb_286c_1890_25b4_ac07_c6f5_fa34_e955_f124_f431nat * 0xc_3500_0000_0000_0000_0000_0000_0000_0000nat == 0x188_85d8_8977_f6b3_9157_f46f_87d7_9c46_77fa_efb8_a747_e456_18a8_18da_2500_0000_0000_0000_0000_0000_0000_0000nat);
    lemma_near_above(
        0x3f1e_de93, 0x9e_de93, 125, 0x100, 0xc_3500_0000_0000_0000_0000_0000_0000_0000nat, 206,
        220525, 0x26_19cb_c318_31b5,
        0x5ab_ab17_5978_787e_0d11_1996_c9f9nat,
        0x45_2c59_9066_9ca1, 0x12b0_eff6_c049_6d6d_d948_5020_9d41nat,
        0x31a_47df, 0x9_a061_e779_7441, 0x5c_ab5c_cd53_3939_c2ae_683c_f881nat,
        0x31a_69df, 0x9_a134_e714_b041, 0x5c_bb3b_d50b_1b41_b429_5181_7081nat,
    );
}

/// The value 0x3f20_9d60.
proof fn lemma_at_3f209d60()
    ensures
        chord_code(0x3f20_9d60, 0x3f1d_5e8d, 0x3f25_5e8d, 0x434e_23f7, 0x4352_b965) == 207,
{
    reveal(chord_code);
    lemma2_to64();
    lemma2_to64_rest();
    lemma_high_powers();
    assert(0xa5_5e8d * 0x1 - 0x9d_5e8d * 0x1 == 0x8_0000);
    lemma_sum_known(0x3f25_5e8d, 0x3f1d_5e8d, true, 0xa5_5e8d, 125, 0x9d_5e8d, 125, 0x1, 0x1, 0x8_0000, 20, 0x8_0000, 0x10);
    assert(sub_spec(0x3f25_5e8d, 0x3f1d_5e8d) == 0x3d00_0000);
    assert(0xa0_9d60 * 0x1 - 0x9d_5e8d * 0x1 == 0x3_3ed3);
    lemma_sum_known(0x3f20_9d60, 0x3f1d_5e8d, true, 0xa0_9d60, 125, 0x9d_5e8d, 125, 0x1, 0x1, 0x3_3ed3, 18, 0x2_0000, 0x40);
    assert(sub_spec(0x3f20_9d60, 0x3f1d_5e8d) == 0x3c4f_b4c0);
    assert(0xd2_b965 * 0x1 - 0xce_23f7 * 0x1 == 0x4_956e);
    lemma_sum_known(0x4352_b965, 0x434e_23f7, true, 0xd2_b965, 133, 0xce_23f7, 133, 0x1, 0x1, 0x4_956e, 19, 0x4_0000, 0x20);
    assert(sub_spec(0x4352_b965, 0x434e_23f7) == 0x4092_adc0);
    assert(0x92_adc0 * 0xcf_b4c0 == 0x7702_0e6d_5000);
    lemma_product_known(0x4092_adc0, 0x3c4f_b4c0, 0x92_adc0, 128, 0xcf_b4c0, 119, 0x7702_0e6d_5000, 47, 0x4000_0000_0000, 0x80_0000);
    assert(mul_spec(0x4092_adc0, 0x3c4f_b4c0) == 0x3d6e_041d);
    assert(0xee_041d * 0x1_0000_0000_0000_0000 == 0x1_dc08_3a00_0000_0000 * 0x80_0000 + 0x0);
    lemma_quotient_known(0x3d6e_041d, 0x3d00_0000, 0xee_041d, 121, 0x80_0000, 121, 0x1_dc08_3a00_0000_0000, 0x0, 66, 0x2_0000_0000_0000_0000, 0x400_0000_0000);
    assert(div_spec(0x3d6e_041d, 0x3d00_0000) == 0x3fee_041d);
    assert(0xce_23f7 * 0x80 + 0xee_041d * 0x1 == 0x67ff_ff9d);
    lemma_sum_known(0x434e_23f7, 0x3fee_041d, false, 0xce_23f7, 133, 0xee_041d, 126, 0x80, 0x1, 0x67ff_ff9d, 31, 0x4000_0000, 0x80);
    assert(add_spec(0x434e_23f7, 0x3fee_041d) == 0x434f_ffff);
    lemma_whole_known(0x434f_ffff, 0xcf_ffff, 133, 0x1_0000);
}

/// The value 0x3f20_9d61.
proof fn lemma_at_3f209d61()
    ensures
        chord_code(0x3f20_9d61, 0x3f1d_5e8d, 0x3f25_5e8d, 0x434e_23f7, 0x4352_b965) == 208,
{
    reveal(chord_code);
    lemma2_to64();
    lemma2_to64_rest();
    lemma_high_powers();
    assert(0xa5_5e8d * 0x1 - 0x9d_5e8d * 0x1 == 0x8_0000);
    lemma_sum_known(0x3f25_5e8d, 0x3f1d_5e8d, true, 0xa5_5e8d, 125, 0x9d_5e8d, 125, 0x1, 0x1, 0x8_0000, 20, 0x8_0000, 0x10);
    assert(sub_spec(0x3f25_5e8d, 0x3f1d_5e8d) == 0x3d00_0000);
    assert(0xa0_9d61 * 0x1 - 0x9d_5e8d * 0x1 == 0x3_3ed4);
    lemma_sum_known(0x3f20_9d61, 0x3f1d_5e8d, true, 0xa0_9d61, 125, 0x9d_5e8d, 125, 0x1, 0x1, 0x3_3ed4, 18, 0x2_0000, 0x40);
    assert(sub_spec(0x3f20_9d61, 0x3f1d_5e8d) == 0x3c4f_b500);
    assert(0xd2_b965 * 0x1 - 0xce_23f7 * 0x1 == 0x4_956e);
    lemma_sum_known(0x4352_b965, 0x434e_23f7, true, 0xd2_b965, 133, 0xce_23f7, 133, 0x1, 0x1, 0x4_956e, 19, 0x4_0000, 0x20);
    assert(sub_spec(0x4352_b965, 0x434e_23f7) == 0x4092_adc0);
    assert(0x92_adc0 * 0xcf_b500 == 0x7702_3318_c000);
    lemma_product_known(0x4092_adc0, 0x3c4f_b500, 0x92_adc0, 128, 0xcf_b500, 119, 0x7702_3318_c000, 47, 0x4000_0000_0000, 0x80_0000);
    assert(mul_spec(0x4092_adc0, 0x3c4f_b500) == 0x3d6e_0466);
    assert(0xee_0466 * 0x1_0000_0000_0000_0000 == 0x1_dc08_cc00_0000_0000 * 0x80_0000 + 0x0);
    lemma_quotient_known(0x3d6e_0466, 0x3d00_0000, 0xee_0466, 121, 0x80_0000, 121, 0x1_dc08_cc00_0000_0000, 0x0, 66, 0x2_0000_0000_0000_0000, 0x400_0000_0000);
    assert(div_spec(0x3d6e_0466, 0x3d00_0000) == 0x3fee_0466);
    assert(0xce_23f7 * 0x80 + 0xee_0466 * 0x1 == 0x67ff_ffe6);
    lemma_sum_known(0x434e_23f7, 0x3fee_0466, false, 0xce_23f7, 133, 0xee_0466, 126, 0x80, 0x1, 0x67ff_ffe6, 31, 0x4000_0000, 0x80);
    assert(add_spec(0x434e_23f7, 0x3fee_0466) == 0x4350_0000);
    lemma_whole_known(0x4350_0000, 0xd0_0000, 133, 0x1_0000);
}

/// The edge of code 207.
proof fn lemma_near_207()
    ensures
        near_exact_edge(0x3f20_9d60, 207),
{
    lemma2_to64();
    lemma2_to64_rest();
    lemma_fifth_powers_of_two();
    lemma_more_fifth_powers_of_two();
    assert(221525nat * 221525 * 221525 == 0x26_9f16_955e_29ed);
    assert(269025nat * 269025 * 269025 == 0x45_2c59_9066_9ca1);
    assert(0x26_9f16_955e_29ednat * 0x26_9f16_955e_29ed == 0x5d3_9d91_677d_6dc6_5a2c_b2e9_c569nat);
    assert(0x5d3_9d91_677d_6dc6_5a2c_b2e9_c569nat * 0x5d3_9d91_677d_6dc6_5a2c_b2e9_c569nat == 0x21_f314_ccb7_2a92_f310_35c3_087d_7822_ed5a_8fdd_249f_9c16_f55c_c511nat);
    assert(0x45_2c59_9066_9ca1nat * 0x45_2c59_9066_9ca1 == 0x12b0_eff6_c049_6d6d_d948_5020_9d41nat);
    assert(0x12b0_eff6_c049_6d6d_d948_5020_9d41nat * 0x12b0_eff6_c049_6d6d_d948_5020_9d41nat == 0x15d_5c09_8741_6139_2178_92b9_bce5_5f46_89a2_dd05_b95f_0d00_50d8_ca81nat);
    assert(0x323_01e0nat * 0x323_01e0 == 0x9_d6d4_c343_8400);
    assert(0x9_d6d4_c343_8400nat * 0x9_d6d4_c343_8400 == 0x60_cf3e_2208_2572_8ce6_5c10_0000nat);
    assert(0x60_cf3e_2208_2572_8ce6_5c10_0000nat * 0x323_01e0 == 0x1_2faa_c569_540d_4596_2d5a_f61c_9e00_0000nat);
    assert(0x323_23e0nat * 0x323_23e0 == 0x9_d7aa_1447_0400);
    assert(0x9_d7aa_1447_0400nat * 0x9_d7aa_1447_0400 == 0x60_dfa4_8c0c_80a4_7c53_3810_0000nat);
    assert(0x60_dfa4_8c0c_80a4_7c53_3810_0000nat * 0x323_23e0 == 0x1_2feb_147a_7a57_c479_05f5_03ab_3e00_0000nat);
    assert(0x1_2faa_c569_540d_4596_2d5a_f61c_9e00_0000nat * 0x15d_5c09_8741_6139_2178_92b9_bce5_5f46_89a2_dd05_b95f_0d00_50d8_ca81nat == 0x19e_68fb_ccfa_fcca_bbcd_7d7e_3d4c_8c48_f8c6_41d9_d540_9980_6e39_4a48_f1e7_5736_2fc7_5825_3a8d_e917_9e00_0000nat);
    assert(0x1_2feb_147a_7a57_c479_05f5_03ab_3e00_0000nat * 0x15d_5c09_8741_6139_2178_92b9_bce5_5f46_89a2_dd05_b95f_0d00_50d8_ca81nat == 0x19e_c0be_b62b_1bd5_6022_47f6_6d3c_c4d5_fbc6_eb99_8746_8471_120d_1845_90e1_2b73_42c4_cbb5_f138_4836_3e00_0000nat);
    assert(0xc35nat * 0x100_0000_0000_0000_0000_0000_0000_0000nat == 0xc_3500_0000_0000_0000_0000_0000_0000_0000nat);
    assert(0x21_f314_ccb7_2a92_f310_35c3_087d_7822_ed5a_8fdd_249f_9c16_f55c_c511nat * 0xc_3500_0000_0000_0000_0000_0000_0000_0000nat == 0x19e_6c4c_e6f7_eab3_d114_e045_c6a3_9b82_5b62_7e26_8010_5c64_4125_7198_8500_0000_0000_0000_0000_0000_0000_0000nat);
    lemma_near_above(
        0x3f20_9d60, 0xa0_9d60, 125, 0x100, 0xc_3500_0000_0000_0000_0000_0000_0000_0000nat, 207,
        221525, 0x26_9f16_955e_29ed,
        0x5d3_9d91_677d_6dc6_5a2c_b2e9_c569nat,
        0x45_2c59_9066_9ca1, 0x12b0_eff6_c049_6d6d_d948_5020_9d41nat,
        0x323_01e0, 0x9_d6d4_c343_8400, 0x60_cf3e_2208_2572_8ce6_5c10_0000nat,
        0x323_23e0, 0x9_d7aa_1447_0400, 0x60_dfa4_8c0c_80a4_7c53_3810_0000nat,
    );
}

/// The value 0x3f22_5c2d.
proof fn lemma_at_3f225c2d()
    ensures
        chord_code(0x3f22_5c2d, 0x3f1d_5e8d, 0x3f25_5e8d, 0x434e_23f7, 0x4352_b965) == 208,
{
    reveal(chord_code);
    lemma2_to64();
    lemma2_to64_rest();
    lemma_high_powers();
    assert(0xa5_5e8d * 0x1 - 0x9d_5e8d * 0x1 == 0x8_0000);
    lemma_sum_known(0x3f25_5e8d, 0x3f1d_5e8d, true, 0xa5_5e8d, 125, 0x9d_5e8d, 125, 0x1, 0x1, 0x8_0000, 20, 0x8_0000, 0x10);
    assert(sub_spec(0x3f25_5e8d, 0x3f1d_5e8d) == 0x3d00_0000);
    assert(0xa2_5c2d * 0x1 - 0x9d_5e8d * 0x1 == 0x4_fda0);
    lemma_sum_known(0x3f22_5c2d, 0x3f1d_5e8d, true, 0xa2_5c2d, 125, 0x9d_5e8d, 125, 0x1, 0x1, 0x4_fda0, 19, 0x4_0000, 0x20);
    assert(sub_spec(0x3f22_5c2d, 0x3f1d_5e8d) == 0x3c9f_b400);
    assert(0xd2_b965 * 0x1 - 0xce_23f7 * 0x1 == 0x4_956e);
    lemma_sum_known(0x4352_b965, 0x434e_23f7, true, 0xd2_b965, 133, 0xce_23f7, 133, 0x1, 0x1, 0x4_956e, 19, 0x4_0000, 0x20);
    assert(sub_spec(0x4352_b965, 0x434e_23f7) == 0x4092_adc0);
    assert(0x92_adc0 * 0x9f_b400 == 0x5b81_0c6b_0000);
    lemma_product_known(0x4092_adc0, 0x3c9f_b400, 0x92_adc0, 128, 0x9f_b400, 120, 0x5b81_0c6b_0000, 47, 0x4000_0000_0000, 0x80_0000);
    assert(mul_spec(0x4092_adc0, 0x3c9f_b400) == 0x3db7_0219);
    assert(0xb7_0219 * 0x1_0000_0000_0000_0000 == 0x1_6e04_3200_0000_0000 * 0x80_0000 + 0x0);
    lemma_quotient_known(0x3db7_0219, 0x3d00_0000, 0xb7_0219, 122, 0x80_0000, 121, 0x1_6e04_3200_0000_0000, 0x0, 66, 0x2_0000_0000_0000_0000, 0x400_0000_0000);
    assert(div_spec(0x3db7_0219, 0x3d00_0000) == 0x4037_0219);
    assert(0xce_23f7 * 0x40 + 0xb7_0219 * 0x1 == 0x343f_ffd9);
    lemma_sum_known(0x434e_23f7, 0x4037_0219, false, 0xce_23f7, 133, 0xb7_0219, 127, 0x40, 0x1, 0x343f_ffd9, 30, 0x2000_0000, 0x40);
    assert(add_spec(0x434e_23f7, 0x4037_0219) == 0x4350_ffff);
    lemma_whole_known(0x4350_ffff, 0xd0_ffff, 133, 0x1_0000);
}

/// The value 0x3f22_5c2e.
proof fn lemma_at_3f225c2e()
    ensures
        chord_code(0x3f22_5c2e, 0x3f1d_5e8d, 0x3f25_5e8d, 0x434e_23f7, 0x4352_b965) == 209,
{
    reveal(chord_code);
    lemma2_to64();
    lemma2_to64_rest();
    lemma_high_powers();
    assert(0xa5_5e8d * 0x1 - 0x9d_5e8d * 0x1 == 0x8_0000);
    lemma_sum_known(0x3f25_5e8d, 0x3f1d_5e8d, true, 0xa5_5e8d, 125, 0x9d_5e8d, 125, 0x1, 0x1, 0x8_0000, 20, 0x8_0000, 0x10);
    assert(sub_spec(0x3f25_5e8d, 0x3f1d_5e8d) == 0x3d00_0000);
    assert(0xa2_5c2e * 0x1 - 0x9d_5e8d * 0x1 == 0x4_fda1);
    lemma_sum_known(0x3f22_5c2e, 0x3f1d_5e8d, true, 0xa2_5c2e, 125, 0x9d_5e8d, 125, 0x1, 0x1, 0x4_fda1, 19, 0x4_0000, 0x20);
    assert(sub_spec(0x3f22_5c2e, 0x3f1d_5e8d) == 0x3c9f_b420);
    assert(0xd2_b965 * 0x1 - 0xce_23f7 * 0x1 == 0x4_956e);
    lemma_sum_known(0x4352_b965, 0x434e_23f7, true, 0xd2_b965, 133, 0xce_23f7, 133, 0x1, 0x1, 0x4_956e, 19, 0x4_0000, 0x20);
    assert(sub_spec(0x4352_b965, 0x434e_23f7) == 0x4092_adc0);
    assert(0x92_adc0 * 0x9f_b420 == 0x5b81_1ec0_b800);
    lemma_product_known(0x4092_adc0, 0x3c9f_b420, 0x92_adc0, 128, 0x9f_b420, 120, 0x5b81_1ec0_b800, 47, 0x4000_0000_0000, 0x80_0000);
    assert(mul_spec(0x4092_adc0, 0x3c9f_b420) == 0x3db7_023e);
    assert(0xb7_023e * 0x1_0000_0000_0000_0000 == 0x1_6e04_7c00_0000_0000 * 0x80_0000 + 0x0);
    lemma_quotient_known(0x3db7_023e, 0x3d00_0000, 0xb7_023e, 122, 0x80_0000, 121, 0x1_6e04_7c00_0000_0000, 0x0, 66, 0x2_0000_0000_0000_0000, 0x400_0000_0000);
    assert(div_spec(0x3db7_023e, 0x3d00_0000) == 0x4037_023e);
    assert(0xce_23f7 * 0x40 + 0xb7_023e * 0x1 == 0x343f_fffe);
    lemma_sum_known(0x434e_23f7, 0x4037_023e, false, 0xce_23f7, 133, 0xb7_023e, 127, 0x40, 0x1, 0x343f_fffe, 30, 0x2000_0000, 0x40);
    assert(add_spec(0x434e_23f7, 0x4037_023e) == 0x4351_0000);
    lemma_whole_known(0x4351_0000, 0xd1_0000, 133, 0x1_0000);
}

/// The edge of code 208.
proof fn lemma_near_208()
    ensures
        near_exact_edge(0x3f22_5c2d, 208),
{
    lemma2_to64();
    lemma2_to64_rest();
    lemma_fifth_powers_of_two();
    lemma_more_fifth_powers_of_two();
    assert(222525nat * 222525 * 222525 == 0x27_2596_df27_9da5);
    assert(269025nat * 269025 * 269025 == 0x45_2c59_9066_9ca1);
    assert(0x27_2596_df27_9da5nat * 0x27_2596_df27_9da5 == 0x5fc_797c_f37d_c0ca_7a22_df59_cc59nat);
    assert(0x5fc_797c_f37d_c0ca_7a22_df59_cc59nat * 0x5fc_797c_f37d_c0ca_7a22_df59_cc59nat == 0x23_d5be_4929_a445_210f_f6c2_be7a_dccd_f82e_f2c7_a9f0_ad26_c6ff_f6f1nat);
    assert(0x45_2c59_9066_9ca1nat * 0x45_2c59_9066_9ca1 == 0x12b0_eff6_c049_6d6d_d948_5020_9d41nat);
    assert(0x12b0_eff6_c049_6d6d_d948_5020_9d41nat * 0x12b0_eff6_c049_6d6d_d948_5020_9d41nat == 0x15d_5c09_8741_6139_2178_92b9_bce5_5f46_89a2_dd05_b95f_0d00_50d8_ca81nat);
    assert(0x32b_bbe1nat * 0x32b_bbe1 == 0xa_0ddf_ed78_7bc1);
    assert(0xa_0ddf_ed78_7bc1nat * 0xa_0ddf_ed78_7bc1 == 0x65_163f_0f67_7bd5_8215_9ac3_0781nat);
    assert(0x65_163f_0f67_7bd5_8215_9ac3_0781nat * 0x32b_bbe1 == 0x1_4087_a9de_6a82_6ecb_e71e_64e2_418f_d361nat);
    assert(0x32b_dde1nat * 0x32b_dde1 == 0xa_0eb7_8fe4_3fc1);
    assert(0xa_0eb7_8fe4_3fc1nat * 0xa_0eb7_8fe4_3fc1 == 0x65_272f_d530_fb41_0ca9_3da8_8f81nat);
    assert(0x65_272f_d530_fb41_0ca9_3da8_8f81nat * 0x32b_dde1 == 0x1_40ca_d044_1e41_a007_1840_8ff8_52b3_7d61nat);
    assert(0x1_4087_a9de_6a82_6ecb_e71e_64e2_418f_d361nat * 0x15d_5c09_8741_6139_2178_92b9_bce5_5f46_89a2_dd05_b95f_0d00_50d8_ca81nat == 0x1b5_6c2f_4361_81ab_057f_a149_99dd_09c5_98bb_26e7_e8cc_a275_d584_82e2_c825_5b64_658d_d9a3_1d0a_8e27_301c_0de1nat);
    assert(0x1_40ca_d044_1e41_a007_1840_8ff8_52b3_7d61nat * 0x15d_5c09_8741_6139_2178_92b9_bce5_5f46_89a2_dd05_b95f_0d00_50d8_ca81nat == 0x1b5_c7d2_c053_ede3_0cc0_f171_1f41_eedb_e7b4_8d58_bec0_8b9c_a88e_88cc_5b12_9a42_3e42_127b_fadd_4903_6738_b7e1nat);
    assert(0xc35nat * 0x100_0000_0000_0000_0000_0000_0000_0000nat == 0xc_3500_0000_0000_0000_0000_0000_0000_0000nat);
    assert(0x23_d5be_4929_a445_210f_f6c2_be7a_dccd_f82e_f2c7_a9f0_ad26_c6ff_f6f1nat * 0xc_3500_0000_0000_0000_0000_0000_0000_0000nat == 0x1b5_702b_d319_523f_dc97_df37_3f31_c95e_4695_199f_4d76_f1aa_5b32_916b_e500_0000_0000_0000_0000_0000_0000_0000nat);
    lemma_near_above(
        0x3f22_5c2d, 0xa2_5c2d, 125, 0x100, 0xc_3500_0000_0000_0000_0000_0000_0000_0000nat, 208,
        222525, 0x27_2596_df27_9da5,
        0x5fc_797c_f37d_c0ca_7a22_df59_cc59nat,
        0x45_2c59_9066_9ca1, 0x12b0_eff6_c049_6d6d_d948_5020_9d41nat,
        0x32b_bbe1, 0xa_0ddf_ed78_7bc1, 0x65_163f_0f67_7bd5_8215_9ac3_0781nat,
        0x32b_dde1, 0xa_0eb7_8fe4_3fc1, 0x65_272f_d530_fb41_0ca9_3da8_8f81nat,
    );
}

/// The value 0x3f24_1af9.
proof fn lemma_at_3f241af9()
    ensures
        chord_code(0x3f24_1af9, 0x3f1d_5e8d, 0x3f25_5e8d, 0x434e_23f7, 0x4352_b965) == 209,
{
    reveal(chord_code);
    lemma2_to64();
    lemma2_to64_rest();
    lemma_high_powers();
    assert(0xa5_5e8d * 0x1 - 0x9d_5e8d * 0x1 == 0x8_0000);
    lemma_sum_known(0x3f25_5e8d, 0x3f1d_5e8d, true, 0xa5_5e8d, 125, 0x9d_5e8d, 125, 0x1, 0x1, 0x8_0000, 20, 0x8_0000, 0x10);
    assert(sub_spec(0x3f25_5e8d, 0x3f1d_5e8d) == 0x3d00_0000);
    assert(0xa4_1af9 * 0x1 - 0x9d_5e8d * 0x1 == 0x6_bc6c);
    lemma_sum_known(0x3f24_1af9, 0x3f1d_5e8d, true, 0xa4_1af9, 125, 0x9d_5e8d, 125, 0x1, 0x1, 0x6_bc6c, 19, 0x4_0000, 0x20);
    assert(sub_spec(0x3f24_1af9, 0x3f1d_5e8d) == 0x3cd7_8d80);
    assert(0xd2_b965 * 0x1 - 0xce_23f7 * 0x1 == 0x4_956e);
    lemma_sum_known(0x4352_b965, 0x434e_23f7, true, 0xd2_b965, 133, 0xce_23f7, 133, 0x1, 0x1, 0x4_956e, 19, 0x4_0000, 0x20);
    assert(sub_spec(0x4352_b965, 0x434e_23f7) == 0x4092_adc0);
    assert(0x92_adc0 * 0xd7_8d80 == 0x7b80_ff49_a000);
    lemma_product_known(0x4092_adc0, 0x3cd7_8d80, 0x92_adc0, 128, 0xd7_8d80, 120, 0x7b80_ff49_a000, 47, 0x4000_0000_0000, 0x80_0000);
    assert(mul_spec(0x4092_adc0, 0x3cd7_8d80) == 0x3df7_01ff);
    assert(0xf7_01ff * 0x1_0000_0000_0000_0000 == 0x1_ee03_fe00_0000_0000 * 0x80_0000 + 0x0);
    lemma_quotient_known(0x3df7_01ff, 0x3d00_0000, 0xf7_01ff, 122, 0x80_0000, 121, 0x1_ee03_fe00_0000_0000, 0x0, 66, 0x2_0000_0000_0000_0000, 0x400_0000_0000);
    assert(div_spec(0x3df7_01ff, 0x3d00_0000) == 0x4077_01ff);
    assert(0xce_23f7 * 0x40 + 0xf7_01ff * 0x1 == 0x347f_ffbf);
    lemma_sum_known(0x434e_23f7, 0x4077_01ff, false, 0xce_23f7, 133, 0xf7_01ff, 127, 0x40, 0x1, 0x347f_ffbf, 30, 0x2000_0000, 0x40);
    assert(add_spec(0x434e_23f7, 0x4077_01ff) == 0x4351_ffff);
    lemma_whole_known(0x4351_ffff, 0xd1_ffff, 133, 0x1_0000);
}

/// The value 0x3f24_1afa.
proof fn lemma_at_3f241afa()
    ensures
        chord_code(0x3f24_1afa, 0x3f1d_5e8d, 0x3f25_5e8d, 0x434e_23f7, 0x4352_b965) == 210,
{
    reveal(chord_code);
    lemma2_to64();
    lemma2_to64_rest();
    lemma_high_powers();
    assert(0xa5_5e8d * 0x1 - 0x9d_5e8d * 0x1 == 0x8_0000);
    lemma_sum_known(0x3f25_5e8d, 0x3f1d_5e8d, true, 0xa5_5e8d, 125, 0x9d_5e8d, 125, 0x1, 0x1, 0x8_0000, 20, 0x8_0000, 0x10);
    assert(sub_spec(0x3f25_5e8d, 0x3f1d_5e8d) == 0x3d00_0000);
    assert(0xa4_1afa * 0x1 - 0x9d_5e8d * 0x1 == 0x6_bc6d);
    lemma_sum_known(0x3f24_1afa, 0x3f1d_5e8d, true, 0xa4_1afa, 125, 0x9d_5e8d, 125, 0x1, 0x1, 0x6_bc6d, 19, 0x4_0000, 0x20);
    assert(sub_spec(0x3f24_1afa, 0x3f1d_5e8d) == 0x3cd7_8da0);
    assert(0xd2_b965 * 0x1 - 0xce_23f7 * 0x1 == 0x4_956e);
    lemma_sum_known(0x4352_b965, 0x434e_23f7, true, 0xd2_b965, 133, 0xce_23f7, 133, 0x1, 0x1, 0x4_956e, 19, 0x4_0000, 0x20);
    assert(sub_spec(0x4352_b965, 0x434e_23f7) == 0x4092_adc0);
    assert(0x92_adc0 * 0xd7_8da0 == 0x7b81_119f_5800);
    lemma_product_known(0x4092_adc0, 0x3cd7_8da0, 0x92_adc0, 128, 0xd7_8da0, 120, 0x7b81_119f_5800, 47, 0x4000_0000_0000, 0x80_0000);
    assert(mul_spec(0x4092_adc0, 0x3cd7_8da0) == 0x3df7_0223);
    assert(0xf7_0223 * 0x1_0000_0000_0000_0000 == 0x1_ee04_4600_0000_0000 * 0x80_0000 + 0x0);
    lemma_quotient_known(0x3df7_0223, 0x3d00_0000, 0xf7_0223, 122, 0x80_0000, 121, 0x1_ee04_4600_0000_0000, 0x0, 66, 0x2_0000_0000_0000_0000, 0x400_0000_0000);
    assert(div_spec(0x3df7_0223, 0x3d00_0000) == 0x4077_0223);
    assert(0xce_23f7 * 0x40 + 0xf7_0223 * 0x1 == 0x347f_ffe3);
    lemma_sum_known(0x434e_23f7, 0x4077_0223, false, 0xce_23f7, 133, 0xf7_0223, 127, 0x40, 0x1, 0x347f_ffe3, 30, 0x2000_0000, 0x40);
    assert(add_spec(0x434e_23f7, 0x4077_0223) == 0x4352_0000);
    lemma_whole_known(0x4352_0000, 0xd2_0000, 133, 0x1_0000);
}

/// The edge of code 209.
proof fn lemma_near_209()
    ensures
        near_exact_edge(0x3f24_1af9, 209),
{
    lemma2_to64();
    lemma2_to64_rest();
    lemma_fifth_powers_of_two();
    lemma_more_fifth_powers_of_two();
    assert(223525nat * 223525 * 223525 == 0x27_ad4e_0615_48dd);
    assert(269025nat * 269025 * 269025 == 0x45_2c59_9066_9ca1);
    assert(0x27_ad4e_0615_48ddnat * 0x27_ad4e_0615_48dd == 0x626_4318_667c_acee_19db_64ff_0ec9nat);
    assert(0x626_4318_667c_acee_19db_64ff_0ec9nat * 0x626_4318_667c_acee_19db_64ff_0ec9nat == 0x25_d0dd_21a2_0d17_22d2_9a91_587e_f273_f8d1_9a95_5ada_cf91_7d48_99d1nat);
    assert(0x45_2c59_9066_9ca1nat * 0x45_2c59_9066_9ca1 == 0x12b0_eff6_c049_6d6d_d948_5020_9d41nat);
    assert(0x12b0_eff6_c049_6d6d_d948_5020_9d41nat * 0x12b0_eff6_c049_6d6d_d948_5020_9d41nat == 0x15d_5c09_8741_6139_2178_92b9_bce5_5f46_89a2_dd05_b95f_0d00_50d8_ca81nat);
    assert(0x334_75ddnat * 0x334_75dd == 0xa_4583_460b_c0c9);
    assert(0xa_4583_460b_c0c9nat * 0xa_4583_460b_c0c9 == 0x69_8121_7ffe_28d2_15ae_0e74_1dd1nat);
    assert(0x69_8121_7ffe_28d2_15ae_0e74_1dd1nat * 0x334_75dd == 0x1_5222_3266_c385_67fe_b2cb_8fcd_0d52_426dnat);
    assert(0x334_97ddnat * 0x334_97dd == 0xa_465d_39de_74c9);
    assert(0xa_465d_39de_74c9nat * 0xa_465d_39de_74c9 == 0x69_929f_a2f9_e047_975a_43e2_c5d1nat);
    assert(0x69_929f_a2f9_e047_975a_43e2_c5d1nat * 0x334_97dd == 0x1_5268_47f5_c553_7a51_a535_5958_fee7_0c6dnat);
    assert(0x1_5222_3266_c385_67fe_b2cb_8fcd_0d52_426dnat * 0x15d_5c09_8741_6139_2178_92b9_bce5_5f46_89a2_dd05_b95f_0d00_50d8_ca81nat == 0x1cd_722f_960f_a46c_ff68_c1b9_fcc6_4445_8ac6_a558_a202_4304_98ac_1be9_0777_6c92_a702_0b73_ba0a_be00_bad5_7aednat);
    assert(0x1_5268_47f5_c553_7a51_a535_5958_fee7_0c6dnat * 0x15d_5c09_8741_6139_2178_92b9_bce5_5f46_89a2_dd05_b95f_0d00_50d8_ca81nat == 0x1cd_d1d4_2c60_484d_9a63_f746_e0d7_1846_6b82_dbcc_11d1_7e27_2554_75da_0375_266a_d615_8c3a_a836_0ecf_4e33_44ednat);
    assert(0xc35nat * 0x100_0000_0000_0000_0000_0000_0000_0000nat == 0xc_3500_0000_0000_0000_0000_0000_0000_0000nat);
    assert(0x25_d0dd_21a2_0d17_22d2_9a91_587e_f273_f8d1_9a95_5ada_cf91_7d48_99d1nat * 0xc_3500_0000_0000_0000_0000_0000_0000_0000nat == 0x1cd_9e9b_5b8f_29cb_6c14_d8d0_3d45_a5a1_ac56_a401_2e11_07ca_fe57_3da4_4500_0000_0000_0000_0000_0000_0000_0000nat);
    lemma_near_above(
        0x3f24_1af9, 0xa4_1af9, 125, 0x100, 0xc_3500_0000_0000_0000_0000_0000_0000_0000nat, 209,
        223525, 0x27_ad4e_0615_48dd,
        0x626_4318_667c_acee_19db_64ff_0ec9nat,
        0x45_2c59_9066_9ca1, 0x12b0_eff6_c049_6d6d_d948_5020_9d41nat,
        0x334_75dd, 0xa_4583_460b_c0c9, 0x69_8121_7ffe_28d2_15ae_0e74_1dd1nat,
        0x334_97dd, 0xa_465d_39de_74c9, 0x69_929f_a2f9_e047_975a_43e2_c5d1nat,
    );
}

/// The value 0x3f25_dd41.
proof fn lemma_at_3f25dd41()
    ensures
        chord_code(0x3f25_dd41, 0x3f25_5e8d, 0x3f2d_5e8d, 0x4352_b965, 0x4357_2e9d) == 210,
{
    reveal(chord_code);
    lemma2_to64();
    lemma2_to64_rest();
    lemma_high_powers();
    assert(0xad_5e8d * 0x1 - 0xa5_5e8d * 0x1 == 0x8_0000);
    lemma_sum_known(0x3f2d_5e8d, 0x3f25_5e8d, true, 0xad_5e8d, 125, 0xa5_5e8d, 125, 0x1, 0x1, 0x8_0000, 20, 0x8_0000, 0x10);
    assert(sub_spec(0x3f2d_5e8d, 0x3f25_5e8d) == 0x3d00_0000);
    assert(0xa5_dd41 * 0x1 - 0xa5_5e8d * 0x1 == 0x7eb4);
    lemma_sum_known(0x3f25_dd41, 0x3f25_5e8d, true, 0xa5_dd41, 125, 0xa5_5e8d, 125, 0x1, 0x1, 0x7eb4, 15, 0x4000, 0x200);
    assert(sub_spec(0x3f25_dd41, 0x3f25_5e8d) == 0x3afd_6800);
    assert(0xd7_2e9d * 0x1 - 0xd2_b965 * 0x1 == 0x4_7538);
    lemma_sum_known(0x4357_2e9d, 0x4352_b965, true, 0xd7_2e9d, 133, 0xd2_b965, 133, 0x1, 0x1, 0x4_7538, 19, 0x4_0000, 0x20);
    assert(sub_spec(0x4357_2e9d, 0x4352_b965) == 0x408e_a700);
    assert(0x8e_a700 * 0xfd_6800 == 0x8d34_fed8_0000);
    lemma_product_known(0x408e_a700, 0x3afd_6800, 0x8e_a700, 128, 0xfd_6800, 116, 0x8d34_fed8_0000, 48, 0x8000_0000_0000, 0x100_0000);
    assert(mul_spec(0x408e_a700, 0x3afd_6800) == 0x3c0d_34ff);
    assert(0x8d_34ff * 0x1_0000_0000_0000_0000 == 0x1_1a69_fe00_0000_0000 * 0x80_0000 + 0x0);
    lemma_quotient_known(0x3c0d_34ff, 0x3d00_0000, 0x8d_34ff, 119, 0x80_0000, 121, 0x1_1a69_fe00_0000_0000, 0x0, 66, 0x2_0000_0000_0000_0000, 0x400_0000_0000);
    assert(div_spec(0x3c0d_34ff, 0x3d00_0000) == 0x3e8d_34ff);
    assert(0xd2_b965 * 0x200 + 0x8d_34ff * 0x1 == 0x1_a5ff_feff);
    lemma_sum_known(0x4352_b965, 0x3e8d_34ff, false, 0xd2_b965, 133, 0x8d_34ff, 124, 0x200, 0x1, 0x1_a5ff_feff, 33, 0x1_0000_0000, 0x200);
    assert(add_spec(0x4352_b965, 0x3e8d_34ff) == 0x4352_ffff);
    lemma_whole_known(0x4352_ffff, 0xd2_ffff, 133, 0x1_0000);
}

/// The value 0x3f25_dd42.
proof fn lemma_at_3f25dd42()
    ensures
        chord_code(0x3f25_dd42, 0x3f25_5e8d, 0x3f2d_5e8d, 0x4352_b965, 0x4357_2e9d) == 211,
{
    reveal(chord_code);
    lemma2_to64();
    lemma2_to64_rest();
    lemma_high_powers();
    assert(0xad_5e8d * 0x1 - 0xa5_5e8d * 0x1 == 0x8_0000);
    lemma_sum_known(0x3f2d_5e8d, 0x3f25_5e8d, true, 0xad_5e8d, 125, 0xa5_5e8d, 125, 0x1, 0x1, 0x8_0000, 20, 0x8_0000, 0x10);
    assert(sub_spec(0x3f2d_5e8d, 0x3f25_5e8d) == 0x3d00_0000);
    assert(0xa5_dd42 * 0x1 - 0xa5_5e8d * 0x1 == 0x7eb5);
    lemma_sum_known(0x3f25_dd42, 0x3f25_5e8d, true, 0xa5_dd42, 125, 0xa5_5e8d, 125, 0x1, 0x1, 0x7eb5, 15, 0x4000, 0x200);
    assert(sub_spec(0x3f25_dd42, 0x3f25_5e8d) == 0x3afd_6a00);
    assert(0xd7_2e9d * 0x1 - 0xd2_b965 * 0x1 == 0x4_7538);
    lemma_sum_known(0x4357_2e9d, 0x4352_b965, true, 0xd7_2e9d, 133, 0xd2_b965, 133, 0x1, 0x1, 0x4_7538, 19, 0x4_0000, 0x20);
    assert(sub_spec(0x4357_2e9d, 0x4352_b965) == 0x408e_a700);
    assert(0x8e_a700 * 0xfd_6a00 == 0x8d36_1c26_0000);
    lemma_product_known(0x408e_a700, 0x3afd_6a00, 0x8e_a700, 128, 0xfd_6a00, 116, 0x8d36_1c26_0000, 48, 0x8000_0000_0000, 0x100_0000);
    assert(mul_spec(0x408e_a700, 0x3afd_6a00) == 0x3c0d_361c);
    assert(0x8d_361c * 0x1_0000_0000_0000_0000 == 0x1_1a6c_3800_0000_0000 * 0x80_0000 + 0x0);
    lemma_quotient_known(0x3c0d_361c, 0x3d00_0000, 0x8d_361c, 119, 0x80_0000, 121, 0x1_1a6c_3800_0000_0000, 0x0, 66, 0x2_0000_0000_0000_0000, 0x400_0000_0000);
    assert(div_spec(0x3c0d_361c, 0x3d00_0000) == 0x3e8d_361c);
    assert(0xd2_b965 * 0x200 + 0x8d_361c * 0x1 == 0x1_a600_001c);
    lemma_sum_known(0x4352_b965, 0x3e8d_361c, false, 0xd2_b965, 133, 0x8d_361c, 124, 0x200, 0x1, 0x1_a600_001c, 33, 0x1_0000_0000, 0x200);
    assert(add_spec(0x4352_b965, 0x3e8d_361c) == 0x4353_0000);
    lemma_whole_known(0x4353_0000, 0xd3_0000, 133, 0x1_0000);
}

/// The edge of code 210.
proof fn lemma_near_210()
    ensures
        near_exact_edge(0x3f25_dd41, 210),
{
    lemma2_to64();
    lemma2_to64_rest();
    lemma_fifth_powers_of_two();
    lemma_more_fifth_powers_of_two();
    assert(224525nat * 224525 * 224525 == 0x28_363d_6fc7_e795);
    assert(269025nat * 269025 * 269025 == 0x45_2c59_9066_9ca1);
    assert(0x28_363d_6fc7_e795nat * 0x28_363d_6fc7_e795 == 0x650_feb0_e85f_2a56_2fef_1124_3cb9nat);
    assert(0x650_feb0_e85f_2a56_2fef_1124_3cb9nat * 0x650_feb0_e85f_2a56_2fef_1124_3cb9nat == 0x27_e590_76d9_38d3_ade7_07f5_6213_6131_b08d_711f_d167_249f_b46f_3db1nat);
    assert(0x45_2c59_9066_9ca1nat * 0x45_2c59_9066_9ca1 == 0x12b0_eff6_c049_6d6d_d948_5020_9d41nat);
    assert(0x12b0_eff6_c049_6d6d_d948_5020_9d41nat * 0x12b0_eff6_c049_6d6d_d948_5020_9d41nat == 0x15d_5c09_8741_6139_2178_92b9_bce5_5f46_89a2_dd05_b95f_0d00_50d8_ca81nat);
    assert(0x33d_4145nat * 0x33d_4145 == 0xa_7e2f_c986_1c99);
    assert(0xa_7e2f_c986_1c99nat * 0xa_7e2f_c986_1c99 == 0x6e_19ee_d1c5_ddfc_fb58_355d_d371nat);
    assert(0x6e_19ee_d1c5_ddfc_fb58_355d_d371nat * 0x33d_4145 == 0x1_64a6_0c9f_ee61_a3eb_fda5_f528_e9e6_ae75nat);
    assert(0x33d_6345nat * 0x33d_6345 == 0xa_7f0c_1360_7099);
    assert(0xa_7f0c_1360_7099nat * 0xa_7f0c_1360_7099 == 0x6e_2bfe_7f54_4e2d_d163_5a46_3b71nat);
    assert(0x6e_2bfe_7f54_4e2d_d163_5a46_3b71nat * 0x33d_6345 == 0x1_64ef_2fd7_9ad7_1653_d90e_311e_fad7_b875nat);
    assert(0x1_64a6_0c9f_ee61_a3eb_fda5_f528_e9e6_ae75nat * 0x15d_5c09_8741_6139_2178_92b9_bce5_5f46_89a2_dd05_b95f_0d00_50d8_ca81nat == 0x1e6_b698_28d6_8caa_fec4_2cbd_eb4d_3005_fc37_25ae_e053_0e10_d827_f7c5_7fb1_f0fb_eabd_ae8a_68f7_3455_a59e_3af5nat);
    assert(0x1_64ef_2fd7_9ad7_1653_d90e_311e_fad7_b875nat * 0x15d_5c09_8741_6139_2178_92b9_bce5_5f46_89a2_dd05_b95f_0d00_50d8_ca81nat == 0x1e7_1a67_771d_8bf7_4f57_db39_2805_787e_6761_d1cf_ebfe_4b0a_02b8_62bf_dc4f_e56f_9655_2538_a839_3332_d0f8_44f5nat);
    assert(0xc35nat * 0x100_0000_0000_0000_0000_0000_0000_0000nat == 0xc_3500_0000_0000_0000_0000_0000_0000_0000nat);
    assert(0x27_e590_76d9_38d3_ade7_07f5_6213_6131_b08d_711f_d167_249f_b46f_3db1nat * 0xc_3500_0000_0000_0000_0000_0000_0000_0000nat == 0x1e7_054c_7ac9_a2af_f9d5_3426_6636_9173_902e_95e9_6730_1211_8591_ec11_a500_0000_0000_0000_0000_0000_0000_0000nat);
    lemma_near_above(
        0x3f25_dd41, 0xa5_dd41, 125, 0x100, 0xc_3500_0000_0000_0000_0000_0000_0000_0000nat, 210,
        224525, 0x28_363d_6fc7_e795,
        0x650_feb0_e85f_2a56_2fef_1124_3cb9nat,
        0x45_2c59_9066_9ca1, 0x12b0_eff6_c049_6d6d_d948_5020_9d41nat,
        0x33d_4145, 0xa_7e2f_c986_1c99, 0x6e_19ee_d1c5_ddfc_fb58_355d_d371nat,
        0x33d_6345, 0xa_7f0c_1360_7099, 0x6e_2bfe_7f54_4e2d_d163_5a46_3b71nat,
    );
}

/// The value 0x3f27_a8aa.
proof fn lemma_at_3f27a8aa()
    ensures
        chord_code(0x3f27_a8aa, 0x3f25_5e8d, 0x3f2d_5e8d, 0x4352_b965, 0x4357_2e9d) == 211,
{
    reveal(chord_code);
    lemma2_to64();
    lemma2_to64_rest();
    lemma_high_powers();
    assert(0xad_5e8d * 0x1 - 0xa5_5e8d * 0x1 == 0x8_0000);
    lemma_sum_known(0x3f2d_5e8d, 0x3f25_5e8d, true, 0xad_5e8d, 125, 0xa5_5e8d, 125, 0x1, 0x1, 0x8_0000, 20, 0x8_0000, 0x10);
    assert(sub_spec(0x3f2d_5e8d, 0x3f25_5e8d) == 0x3d00_0000);
    assert(0xa7_a8aa * 0x1 - 0xa5_5e8d * 0x1 == 0x2_4a1d);
    lemma_sum_known(0x3f27_a8aa, 0x3f25_5e8d, true, 0xa7_a8aa, 125, 0xa5_5e8d, 125, 0x1, 0x1, 0x2_4a1d, 18, 0x2_0000, 0x40);
    assert(sub_spec(0x3f27_a8aa, 0x3f25_5e8d) == 0x3c12_8740);
    assert(0xd7_2e9d * 0x1 - 0xd2_b965 * 0x1 == 0x4_7538);
    lemma_sum_known(0x4357_2e9d, 0x4352_b965, true, 0xd7_2e9d, 133, 0xd2_b965, 133, 0x1, 0x1, 0x4_7538, 19, 0x4_0000, 0x20);
    assert(sub_spec(0x4357_2e9d, 0x4352_b965) == 0x408e_a700);
    assert(0x8e_a700 * 0x92_8740 == 0x51a6_9bba_c000);
    lemma_product_known(0x408e_a700, 0x3c12_8740, 0x8e_a700, 128, 0x92_8740, 119, 0x51a6_9bba_c000, 47, 0x4000_0000_0000, 0x80_0000);
    assert(mul_spec(0x408e_a700, 0x3c12_8740) == 0x3d23_4d37);
    assert(0xa3_4d37 * 0x1_0000_0000_0000_0000 == 0x1_469a_6e00_0000_0000 * 0x80_0000 + 0x0);
    lemma_quotient_known(0x3d23_4d37, 0x3d00_0000, 0xa3_4d37, 121, 0x80_0000, 121, 0x1_469a_6e00_0000_0000, 0x0, 66, 0x2_0000_0000_0000_0000, 0x400_0000_0000);
    assert(div_spec(0x3d23_4d37, 0x3d00_0000) == 0x3fa3_4d37);
    assert(0xd2_b965 * 0x80 + 0xa3_4d37 * 0x1 == 0x69ff_ffb7);
    lemma_sum_known(0x4352_b965, 0x3fa3_4d37, false, 0xd2_b965, 133, 0xa3_4d37, 126, 0x80, 0x1, 0x69ff_ffb7, 31, 0x4000_0000, 0x80);
    assert(add_spec(0x4352_b965, 0x3fa3_4d37) == 0x4353_ffff);
    lemma_whole_known(0x4353_ffff, 0xd3_ffff, 133, 0x1_0000);
}

/// The value 0x3f27_a8ab.
proof fn lemma_at_3f27a8ab()
    ensures
        chord_code(0x3f27_a8ab, 0x3f25_5e8d, 0x3f2d_5e8d, 0x4352_b965, 0x4357_2e9d) == 212,
{
    reveal(chord_code);
    lemma2_to64();
    lemma2_to64_rest();
    lemma_high_powers();
    assert(0xad_5e8d * 0x1 - 0xa5_5e8d * 0x1 == 0x8_0000);
    lemma_sum_known(0x3f2d_5e8d, 0x3f25_5e8d, true, 0xad_5e8d, 125, 0xa5_5e8d, 125, 0x1, 0x1, 0x8_0000, 20, 0x8_0000, 0x10);
    assert(sub_spec(0x3f2d_5e8d, 0x3f25_5e8d) == 0x3d00_0000);
    assert(0xa7_a8ab * 0x1 - 0xa5_5e8d * 0x1 == 0x2_4a1e);
    lemma_sum_known(0x3f27_a8ab, 0x3f25_5e8d, true, 0xa7_a8ab, 125, 0xa5_5e8d, 125, 0x1, 0x1, 0x2_4a1e, 18, 0x2_0000, 0x40);
    assert(sub_spec(0x3f27_a8ab, 0x3f25_5e8d) == 0x3c12_8780);
    assert(0xd7_2e9d * 0x1 - 0xd2_b965 * 0x1 == 0x4_7538);
    lemma_sum_known(0x4357_2e9d, 0x4352_b965, true, 0xd7_2e9d, 133, 0xd2_b965, 133, 0x1, 0x1, 0x4_7538, 19, 0x4_0000, 0x20);
    assert(sub_spec(0x4357_2e9d, 0x4352_b965) == 0x408e_a700);
    assert(0x8e_a700 * 0x92_8780 == 0x51a6_bf64_8000);
    lemma_product_known(0x408e_a700, 0x3c12_8780, 0x8e_a700, 128, 0x92_8780, 119, 0x51a6_bf64_8000, 47, 0x4000_0000_0000, 0x80_0000);
    assert(mul_spec(0x408e_a700, 0x3c12_8780) == 0x3d23_4d7f);
    assert(0xa3_4d7f * 0x1_0000_0000_0000_0000 == 0x1_469a_fe00_0000_0000 * 0x80_0000 + 0x0);
    lemma_quotient_known(0x3d23_4d7f, 0x3d00_0000, 0xa3_4d7f, 121, 0x80_0000, 121, 0x1_469a_fe00_0000_0000, 0x0, 66, 0x2_0000_0000_0000_0000, 0x400_0000_0000);
    assert(div_spec(0x3d23_4d7f, 0x3d00_0000) == 0x3fa3_4d7f);
    assert(0xd2_b965 * 0x80 + 0xa3_4d7f * 0x1 == 0x69ff_ffff);
    lemma_sum_known(0x4352_b965, 0x3fa3_4d7f, false, 0xd2_b965, 133, 0xa3_4d7f, 126, 0x80, 0x1, 0x69ff_ffff, 31, 0x4000_0000, 0x80);
    assert(add_spec(0x4352_b965, 0x3fa3_4d7f) == 0x4354_0000);
    lemma_whole_known(0x4354_0000, 0xd4_0000, 133, 0x1_0000);
}

/// The edge of code 211.
proof fn lemma_near_211()
    ensures
        near_exact_edge(0x3f27_a8aa, 211),
{
    lemma2_to64();
    lemma2_to64_rest();
    lemma_fifth_powers_of_two();
    lemma_more_fifth_powers_of_two();
    assert(225525nat * 225525 * 225525 == 0x28_c066_81e0_35cd);
    assert(269025nat * 269025 * 269025 == 0x45_2c59_9066_9ca1);
    assert(0x28_c066_81e0_35cdnat * 0x28_c066_81e0_35cd == 0x67c_b0a2_81ec_e152_19f2_cc0e_8629nat);
    assert(0x67c_b0a2_81ec_e152_19f2_cc0e_8629nat * 0x67c_b0a2_81ec_e152_19f2_cc0e_8629nat == 0x2a_1503_3564_d1d8_884f_2aa2_0012_13d2_76be_40db_4894_ce28_4aca_f291nat);
    assert(0x45_2c59_9066_9ca1nat * 0x45_2c59_9066_9ca1 == 0x12b0_eff6_c049_6d6d_d948_5020_9d41nat);
    assert(0x12b0_eff6_c049_6d6d_d948_5020_9d41nat * 0x12b0_eff6_c049_6d6d_d948_5020_9d41nat == 0x15d_5c09_8741_6139_2178_92b9_bce5_5f46_89a2_dd05_b95f_0d00_50d8_ca81nat);
    assert(0x346_3a52nat * 0x346_3a52 == 0xa_b8a1_de21_4244);
    assert(0xa_b8a1_de21_4244nat * 0xa_b8a1_de21_4244 == 0x72_f1ce_7042_2324_ccc8_16af_2210nat);
    assert(0x72_f1ce_7042_2324_ccc8_16af_2210nat * 0x346_3a52 == 0x1_785d_b95d_b20d_fb9b_ef29_2e84_7230_8920nat);
    assert(0x346_5c52nat * 0x346_5c52 == 0xa_b980_8a23_0a44);
    assert(0xa_b980_8a23_0a44nat * 0xa_b980_8a23_0a44 == 0x73_0475_d2ed_dfba_57dd_1f01_6210nat);
    assert(0x73_0475_d2ed_dfba_57dd_1f01_6210nat * 0x346_5c52 == 0x1_78aa_1422_3c35_6894_3f17_1a7f_6e0f_2920nat);
    assert(0x1_785d_b95d_b20d_fb9b_ef29_2e84_7230_8920nat * 0x15d_5c09_8741_6139_2178_92b9_bce5_5f46_89a2_dd05_b95f_0d00_50d8_ca81nat == 0x201_9f15_657e_78d4_477e_a1ad_2beb_2878_b41d_3854_ef42_92ab_18ff_dd13_fe55_3930_e07e_f81a_1fbb_16a5_89a8_5920nat);
    assert(0x1_78aa_1422_3c35_6894_3f17_1a7f_6e0f_2920nat * 0x15d_5c09_8741_6139_2178_92b9_bce5_5f46_89a2_dd05_b95f_0d00_50d8_ca81nat == 0x202_0748_96e4_fa80_8cc0_32bb_269d_ff28_43b4_adfa_3180_0daa_cd77_32ef_7e1a_b148_8772_d2d1_5b6d_20b3_1f16_f920nat);
    assert(0xc35nat * 0x100_0000_0000_0000_0000_0000_0000_0000nat == 0xc_3500_0000_0000_0000_0000_0000_0000_0000nat);
    assert(0x2a_1503_3564_d1d8_884f_2aa2_0012_13d2_76be_40db_4894_ce28_4aca_f291nat * 0xc_3500_0000_0000_0000_0000_0000_0000_0000nat == 0x201_b280_2ac7_b598_37ee_636b_8adc_abf8_2380_6db4_cd00_7891_d8ff_6304_0500_0000_0000_0000_0000_0000_0000_0000nat);
    lemma_near_above(
        0x3f27_a8aa, 0xa7_a8aa, 125, 0x100, 0xc_3500_0000_0000_0000_0000_0000_0000_0000nat, 211,
        225525, 0x28_c066_81e0_35cd,
        0x67c_b0a2_81ec_e152_19f2_cc0e_8629nat,
        0x45_2c59_9066_9ca1, 0x12b0_eff6_c049_6d6d_d948_5020_9d41nat,
        0x346_3a52, 0xa_b8a1_de21_4244, 0x72_f1ce_7042_2324_ccc8_16af_2210nat,
        0x346_5c52, 0xa_b980_8a23_0a44, 0x73_0475_d2ed_dfba_57dd_1f01_6210nat,
    );
}

/// The value 0x3f29_7413.
proof fn lemma_at_3f297413()
    ensures
        chord_code(0x3f29_7413, 0x3f25_5e8d, 0x3f2d_5e8d, 0x4352_b965, 0x4357_2e9d) == 212,
{
    reveal(chord_code);
    lemma2_to64();
    lemma2_to64_rest();
    lemma_high_powers();
    assert(0xad_5e8d * 0x1 - 0xa5_5e8d * 0x1 == 0x8_0000);
    lemma_sum_known(0x3f2d_5e8d, 0x3f25_5e8d, true, 0xad_5e8d, 125, 0xa5_5e8d, 125, 0x1, 0x1, 0x8_0000, 20, 0x8_0000, 0x10);
    assert(sub_spec(0x3f2d_5e8d, 0x3f25_5e8d) == 0x3d00_0000);
    assert(0xa9_7413 * 0x1 - 0xa5_5e8d * 0x1 == 0x4_1586);
    lemma_sum_known(0x3f29_7413, 0x3f25_5e8d, true, 0xa9_7413, 125, 0xa5_5e8d, 125, 0x1, 0x1, 0x4_1586, 19, 0x4_0000, 0x20);
    assert(sub_spec(0x3f29_7413, 0x3f25_5e8d) == 0x3c82_b0c0);
    assert(0xd7_2e9d * 0x1 - 0xd2_b965 * 0x1 == 0x4_7538);
    lemma_sum_known(0x4357_2e9d, 0x4352_b965, true, 0xd7_2e9d, 133, 0xd2_b965, 133, 0x1, 0x1, 0x4_7538, 19, 0x4_0000, 0x20);
    assert(sub_spec(0x4357_2e9d, 0x4352_b965) == 0x408e_a700);
    assert(0x8e_a700 * 0x82_b0c0 == 0x48d3_4bcd_4000);
    lemma_product_known(0x408e_a700, 0x3c82_b0c0, 0x8e_a700, 128, 0x82_b0c0, 120, 0x48d3_4bcd_4000, 47, 0x4000_0000_0000, 0x80_0000);
    assert(mul_spec(0x408e_a700, 0x3c82_b0c0) == 0x3d91_a698);
    assert(0x91_a698 * 0x1_0000_0000_0000_0000 == 0x1_234d_3000_0000_0000 * 0x80_0000 + 0x0);
    lemma_quotient_known(0x3d91_a698, 0x3d00_0000, 0x91_a698, 122, 0x80_0000, 121, 0x1_234d_3000_0000_0000, 0x0, 66, 0x2_0000_0000_0000_0000, 0x400_0000_0000);
    assert(div_spec(0x3d91_a698, 0x3d00_0000) == 0x4011_a698);
    assert(0xd2_b965 * 0x40 + 0x91_a698 * 0x1 == 0x353f_ffd8);
    lemma_sum_known(0x4352_b965, 0x4011_a698, false, 0xd2_b965, 133, 0x91_a698, 127, 0x40, 0x1, 0x353f_ffd8, 30, 0x2000_0000, 0x40);
    assert(add_spec(0x4352_b965, 0x4011_a698) == 0x4354_ffff);
    lemma_whole_known(0x4354_ffff, 0xd4_ffff, 133, 0x1_0000);
}

/// The value 0x3f29_7414.
proof fn lemma_at_3f297414()
    ensures
        chord_code(0x3f29_7414, 0x3f25_5e8d, 0x3f2d_5e8d, 0x4352_b965, 0x4357_2e9d) == 213,
{
    reveal(chord_code);
    lemma2_to64();
    lemma2_to64_rest();
    lemma_high_powers();
    assert(0xad_5e8d * 0x1 - 0xa5_5e8d * 0x1 == 0x8_0000);
    lemma_sum_known(0x3f2d_5e8d, 0x3f25_5e8d, true, 0xad_5e8d, 125, 0xa5_5e8d, 125, 0x1, 0x1, 0x8_0000, 20, 0x8_0000, 0x10);
    assert(sub_spec(0x3f2d_5e8d, 0x3f25_5e8d) == 0x3d00_0000);
    assert(0xa9_7414 * 0x1 - 0xa5_5e8d * 0x1 == 0x4_1587);
    lemma_sum_known(0x3f29_7414, 0x3f25_5e8d, true, 0xa9_7414, 125, 0xa5_5e8d, 125, 0x1, 0x1, 0x4_1587, 19, 0x4_0000, 0x20);
    assert(sub_spec(0x3f29_7414, 0x3f25_5e8d) == 0x3c82_b0e0);
    assert(0xd7_2e9d * 0x1 - 0xd2_b965 * 0x1 == 0x4_7538);
    lemma_sum_known(0x4357_2e9d, 0x4352_b965, true, 0xd7_2e9d, 133, 0xd2_b965, 133, 0x1, 0x1, 0x4_7538, 19, 0x4_0000, 0x20);
    assert(sub_spec(0x4357_2e9d, 0x4352_b965) == 0x408e_a700);
    assert(0x8e_a700 * 0x82_b0e0 == 0x48d3_5da2_2000);
    lemma_product_known(0x408e_a700, 0x3c82_b0e0, 0x8e_a700, 128, 0x82_b0e0, 120, 0x48d3_5da2_2000, 47, 0x4000_0000_0000, 0x80_0000);
    assert(mul_spec(0x408e_a700, 0x3c82_b0e0) == 0x3d91_a6bb);
    assert(0x91_a6bb * 0x1_0000_0000_0000_0000 == 0x1_234d_7600_0000_0000 * 0x80_0000 + 0x0);
    lemma_quotient_known(0x3d91_a6bb, 0x3d00_0000, 0x91_a6bb, 122, 0x80_0000, 121, 0x1_234d_7600_0000_0000, 0x0, 66, 0x2_0000_0000_0000_0000, 0x400_0000_0000);
    assert(div_spec(0x3d91_a6bb, 0x3d00_0000) == 0x4011_a6bb);
    assert(0xd2_b965 * 0x40 + 0x91_a6bb * 0x1 == 0x353f_fffb);
    lemma_sum_known(0x4352_b965, 0x4011_a6bb, false, 0xd2_b965, 133, 0x91_a6bb, 127, 0x40, 0x1, 0x353f_fffb, 30, 0x2000_0000, 0x40);
    assert(add_spec(0x4352_b965, 0x4011_a6bb) == 0x4355_0000);
    lemma_whole_known(0x4355_0000, 0xd5_0000, 133, 0x1_0000);
}

/// The edge of code 212.
proof fn lemma_near_212()
    ensures
        near_exact_edge(0x3f29_7413, 212),
{
    lemma2_to64();
    lemma2_to64_rest();
    lemma_fifth_powers_of_two();
    lemma_more_fifth_powers_of_two();
    assert(226525nat * 226525 * 226525 == 0x29_4bca_a1fe_ef85);
    assert(269025nat * 269025 * 269025 == 0x45_2c59_9066_9ca1);
    assert(0x29_4bca_a1fe_ef85nat * 0x29_4bca_a1fe_ef85 == 0x6a9_5d58_3ef8_25c6_9309_7605_9b19nat);
    assert(0x6a9_5d58_3ef8_25c6_9309_7605_9b19nat * 0x6a9_5d58_3ef8_25c6_9309_7605_9b19nat == 0x2c_606c_8380_0192_d49b_f635_7275_a194_b060_a9d5_1798_c8dc_78f1_4871nat);
    assert(0x45_2c59_9066_9ca1nat * 0x45_2c59_9066_9ca1 == 0x12b0_eff6_c049_6d6d_d948_5020_9d41nat);
    assert(0x12b0_eff6_c049_6d6d_d948_5020_9d41nat * 0x12b0_eff6_c049_6d6d_d948_5020_9d41nat == 0x15d_5c09_8741_6139_2178_92b9_bce5_5f46_89a2_dd05_b95f_0d00_50d8_ca81nat);
    assert(0x34f_335fnat * 0x34f_335f == 0xa_f3b4_f8f0_fd41);
    assert(0xa_f3b4_f8f0_fd41nat * 0xa_f3b4_f8f0_fd41 == 0x77_f224_835c_4ed5_56f1_c469_8a81nat);
    assert(0x77_f224_835c_4ed5_56f1_c469_8a81nat * 0x34f_335f == 0x1_8cf2_388e_c020_f6d0_6b66_470a_2a91_18dfnat);
    assert(0x34f_555fnat * 0x34f_555f == 0xa_f496_071a_3941);
    assert(0xa_f496_071a_3941nat * 0xa_f496_071a_3941 == 0x78_0566_e382_c925_71fd_3c02_0281nat);
    assert(0x78_0566_e382_c925_71fd_3c02_0281nat * 0x34f_555f == 0x1_8d41_e5bf_e870_5d36_3897_ec8c_3862_c2dfnat);
    assert(0x1_8cf2_388e_c020_f6d0_6b66_470a_2a91_18dfnat * 0x15d_5c09_8741_6139_2178_92b9_bce5_5f46_89a2_dd05_b95f_0d00_50d8_ca81nat == 0x21d_b4ec_ed2c_5315_14d1_05ce_4746_71ef_8051_6e7c_b215_d383_1f61_a3b5_a595_3446_4757_9299_b07d_66e8_9ce5_7e5fnat);
    assert(0x1_8d41_e5bf_e870_5d36_3897_ec8c_3862_c2dfnat * 0x15d_5c09_8741_6139_2178_92b9_bce5_5f46_89a2_dd05_b95f_0d00_50d8_ca81nat == 0x21e_21a8_ae65_2138_c955_a809_e627_9c1d_699b_0ec2_dda2_430d_e9c6_a404_9eb0_386b_39ac_b6c7_48c9_9a60_73b0_285fnat);
    assert(0xc35nat * 0x100_0000_0000_0000_0000_0000_0000_0000nat == 0xc_3500_0000_0000_0000_0000_0000_0000_0000nat);
    assert(0x2c_606c_8380_0192_d49b_f635_7275_a194_b060_a9d5_1798_c8dc_78f1_4871nat * 0xc_3500_0000_0000_0000_0000_0000_0000_0000nat == 0x21d_b50c_a139_9335_5d53_d47a_6e35_ed6c_0d0b_f926_390c_0beb_5059_594b_6500_0000_0000_0000_0000_0000_0000_0000nat);
    lemma_near_above(
        0x3f29_7413, 0xa9_7413, 125, 0x100, 0xc_3500_0000_0000_0000_0000_0000_0000_0000nat, 212,
        226525, 0x29_4bca_a1fe_ef85,
        0x6a9_5d58_3ef8_25c6_9309_7605_9b19nat,
        0x45_2c59_9066_9ca1, 0x12b0_eff6_c049_6d6d_d948_5020_9d41nat,
        0x34f_335f, 0xa_f3b4_f8f0_fd41, 0x77_f224_835c_4ed5_56f1_c469_8a81nat,
        0x34f_555f, 0xa_f496_071a_3941, 0x78_0566_e382_c925_71fd_3c02_0281nat,
    );
}

/// The value 0x3f2b_3f7c.
proof fn lemma_at_3f2b3f7c()
    ensures
        chord_code(0x3f2b_3f7c, 0x3f25_5e8d, 0x3f2d_5e8d, 0x4352_b965, 0x4357_2e9d) == 213,
{
    reveal(chord_code);
    lemma2_to64();
    lemma2_to64_rest();
    lemma_high_powers();
    assert(0xad_5e8d * 0x1 - 0xa5_5e8d * 0x1 == 0x8_0000);
    lemma_sum_known(0x3f2d_5e8d, 0x3f25_5e8d, true, 0xad_5e8d, 125, 0xa5_5e8d, 125, 0x1, 0x1, 0x8_0000, 20, 0x8_0000, 0x10);
    assert(sub_spec(0x3f2d_5e8d, 0x3f25_5e8d) == 0x3d00_0000);
    assert(0xab_3f7c * 0x1 - 0xa5_5e8d * 0x1 == 0x5_e0ef);
    lemma_sum_known(0x3f2b_3f7c, 0x3f25_5e8d, true, 0xab_3f7c, 125, 0xa5_5e8d, 125, 0x1, 0x1, 0x5_e0ef, 19, 0x4_0000, 0x20);
    assert(sub_spec(0x3f2b_3f7c, 0x3f25_5e8d) == 0x3cbc_1de0);
    assert(0xd7_2e9d * 0x1 - 0xd2_b965 * 0x1 == 0x4_7538);
    lemma_sum_known(0x4357_2e9d, 0x4352_b965, true, 0xd7_2e9d, 133, 0xd2_b965, 133, 0x1, 0x1, 0x4_7538, 19, 0x4_0000, 0x20);
    assert(sub_spec(0x4357_2e9d, 0x4352_b965) == 0x408e_a700);
    assert(0x8e_a700 * 0xbc_1de0 == 0x68d3_49bd_2000);
    lemma_product_known(0x408e_a700, 0x3cbc_1de0, 0x8e_a700, 128, 0xbc_1de0, 120, 0x68d3_49bd_2000, 47, 0x4000_0000_0000, 0x80_0000);
    assert(mul_spec(0x408e_a700, 0x3cbc_1de0) == 0x3dd1_a693);
    assert(0xd1_a693 * 0x1_0000_0000_0000_0000 == 0x1_a34d_2600_0000_0000 * 0x80_0000 + 0x0);
    lemma_quotient_known(0x3dd1_a693, 0x3d00_0000, 0xd1_a693, 122, 0x80_0000, 121, 0x1_a34d_2600_0000_0000, 0x0, 66, 0x2_0000_0000_0000_0000, 0x400_0000_0000);
    assert(div_spec(0x3dd1_a693, 0x3d00_0000) == 0x4051_a693);
    assert(0xd2_b965 * 0x40 + 0xd1_a693 * 0x1 == 0x357f_ffd3);
    lemma_sum_known(0x4352_b965, 0x4051_a693, false, 0xd2_b965, 133, 0xd1_a693, 127, 0x40, 0x1, 0x357f_ffd3, 30, 0x2000_0000, 0x40);
    assert(add_spec(0x4352_b965, 0x4051_a693) == 0x4355_ffff);
    lemma_whole_known(0x4355_ffff, 0xd5_ffff, 133, 0x1_0000);
}

/// The value 0x3f2b_3f7d.
proof fn lemma_at_3f2b3f7d()
    ensures
        chord_code(0x3f2b_3f7d, 0x3f25_5e8d, 0x3f2d_5e8d, 0x4352_b965, 0x4357_2e9d) == 214,
{
    reveal(chord_code);
    lemma2_to64();
    lemma2_to64_rest();
    lemma_high_powers();
    assert(0xad_5e8d * 0x1 - 0xa5_5e8d * 0x1 == 0x8_0000);
    lemma_sum_known(0x3f2d_5e8d, 0x3f25_5e8d, true, 0xad_5e8d, 125, 0xa5_5e8d, 125, 0x1, 0x1, 0x8_0000, 20, 0x8_0000, 0x10);
    assert(sub_spec(0x3f2d_5e8d, 0x3f25_5e8d) == 0x3d00_0000);
    assert(0xab_3f7d * 0x1 - 0xa5_5e8d * 0x1 == 0x5_e0f0);
    lemma_sum_known(0x3f2b_3f7d, 0x3f25_5e8d, true, 0xab_3f7d, 125, 0xa5_5e8d, 125, 0x1, 0x1, 0x5_e0f0, 19, 0x4_0000, 0x20);
    assert(sub_spec(0x3f2b_3f7d, 0x3f25_5e8d) == 0x3cbc_1e00);
    assert(0xd7_2e9d * 0x1 - 0xd2_b965 * 0x1 == 0x4_7538);
    lemma_sum_known(0x4357_2e9d, 0x4352_b965, true, 0xd7_2e9d, 133, 0xd2_b965, 133, 0x1, 0x1, 0x4_7538, 19, 0x4_0000, 0x20);
    assert(sub_spec(0x4357_2e9d, 0x4352_b965) == 0x408e_a700);
    assert(0x8e_a700 * 0xbc_1e00 == 0x68d3_5b92_0000);
    lemma_product_known(0x408e_a700, 0x3cbc_1e00, 0x8e_a700, 128, 0xbc_1e00, 120, 0x68d3_5b92_0000, 47, 0x4000_0000_0000, 0x80_0000);
    assert(mul_spec(0x408e_a700, 0x3cbc_1e00) == 0x3dd1_a6b7);
    assert(0xd1_a6b7 * 0x1_0000_0000_0000_0000 == 0x1_a34d_6e00_0000_0000 * 0x80_0000 + 0x0);
    lemma_quotient_known(0x3dd1_a6b7, 0x3d00_0000, 0xd1_a6b7, 122, 0x80_0000, 121, 0x1_a34d_6e00_0000_0000, 0x0, 66, 0x2_0000_0000_0000_0000, 0x400_0000_0000);
    assert(div_spec(0x3dd1_a6b7, 0x3d00_0000) == 0x4051_a6b7);
    assert(0xd2_b965 * 0x40 + 0xd1_a6b7 * 0x1 == 0x357f_fff7);
    lemma_sum_known(0x4352_b965, 0x4051_a6b7, false, 0xd2_b965, 133, 0xd1_a6b7, 127, 0x40, 0x1, 0x357f_fff7, 30, 0x2000_0000, 0x40);
    assert(add_spec(0x4352_b965, 0x4051_a6b7) == 0x4356_0000);
    lemma_whole_known(0x4356_0000, 0xd6_0000, 133, 0x1_0000);
}

/// The edge of code 213.
proof fn lemma_near_213()
    ensures
        near_exact_edge(0x3f2b_3f7c, 213),
{
    lemma2_to64();
    lemma2_to64_rest();
    lemma_fifth_powers_of_two();
    lemma_more_fifth_powers_of_two();
    assert(227525nat * 227525 * 227525 == 0x29_d86b_35c4_d0bd);
    assert(269025nat * 269025 * 269025 == 0x45_2c59_9066_9ca1);
    assert(0x29_d86b_35c4_d0bdnat * 0x29_d86b_35c4_d0bd == 0x6d7_094c_50ac_fa9a_83bc_8d9b_ab89nat);
    assert(0x6d7_094c_50ac_fa9a_83bc_8d9b_ab89nat * 0x6d7_094c_50ac_fa9a_83bc_8d9b_ab89nat == 0x2e_c910_324e_12b8_5776_57dc_e8b6_970a_16f5_0e37_915b_00d6_14d6_4f51nat);
    assert(0x45_2c59_9066_9ca1nat * 0x45_2c59_9066_9ca1 == 0x12b0_eff6_c049_6d6d_d948_5020_9d41nat);
    assert(0x12b0_eff6_c049_6d6d_d948_5020_9d41nat * 0x12b0_eff6_c049_6d6d_d948_5020_9d41nat == 0x15d_5c09_8741_6139_2178_92b9_bce5_5f46_89a2_dd05_b95f_0d00_50d8_ca81nat);
    assert(0x358_2c6cnat * 0x358_2c6c == 0xb_2f69_19f5_4d90);
    assert(0xb_2f69_19f5_4d90nat * 0xb_2f69_19f5_4d90 == 0x7d_1bcf_fdc3_0ab6_5453_ad1f_f100nat);
    assert(0x7d_1bcf_fdc3_0ab6_5453_ad1f_f100nat * 0x358_2c6c == 0x1_a26a_b507_ff88_65c9_d334_d7dc_5ee5_ac00nat);
    assert(0x358_4e6cnat * 0x358_4e6c == 0xb_304c_8a45_fd90);
    assert(0xb_304c_8a45_fd90nat * 0xb_304c_8a45_fd90 == 0x7d_2fb0_acc0_6db4_1601_eac5_f100nat);
    assert(0x7d_2fb0_acc0_6db4_1601_eac5_f100nat * 0x358_4e6c == 0x1_a2bd_d019_969a_54c4_bd16_e435_32ef_ac00nat);
    assert(0x1_a26a_b507_ff88_65c9_d334_d7dc_5ee5_ac00nat * 0x15d_5c09_8741_6139_2178_92b9_bce5_5f46_89a2_dd05_b95f_0d00_50d8_ca81nat == 0x23b_01e6_b7c7_bb86_c25d_041e_df34_cadd_4f04_cf5f_4101_21c5_88af_4934_2629_077f_5aa1_00be_9d48_8076_2b73_ac00nat);
    assert(0x1_a2bd_d019_969a_54c4_bd16_e435_32ef_ac00nat * 0x15d_5c09_8741_6139_2178_92b9_bce5_5f46_89a2_dd05_b95f_0d00_50d8_ca81nat == 0x23b_7350_7f94_dd62_05e0_cf87_2dbb_21a2_e363_d110_b999_29ac_8042_0e72_e534_f72c_b50c_d0cb_8524_d8f8_e87d_ac00nat);
    assert(0xc35nat * 0x100_0000_0000_0000_0000_0000_0000_0000nat == 0xc_3500_0000_0000_0000_0000_0000_0000_0000nat);
    assert(0x2e_c910_324e_12b8_5776_57dc_e8b6_970a_16f5_0e37_915b_00d6_14d6_4f51nat * 0xc_3500_0000_0000_0000_0000_0000_0000_0000nat == 0x23b_1c62_b613_0a84_43a7_9e8b_a4bc_e1be_2a3d_668c_515b_e135_4c5c_1637_c500_0000_0000_0000_0000_0000_0000_0000nat);
    lemma_near_above(
        0x3f2b_3f7c, 0xab_3f7c, 125, 0x100, 0xc_3500_0000_0000_0000_0000_0000_0000_0000nat, 213,
        227525, 0x29_d86b_35c4_d0bd,
        0x6d7_094c_50ac_fa9a_83bc_8d9b_ab89nat,
        0x45_2c59_9066_9ca1, 0x12b0_eff6_c049_6d6d_d948_5020_9d41nat,
        0x358_2c6c, 0xb_2f69_19f5_4d90, 0x7d_1bcf_fdc3_0ab6_5453_ad1f_f100nat,
        0x358_4e6c, 0xb_304c_8a45_fd90, 0x7d_2fb0_acc0_6db4_1601_eac5_f100nat,
    );
}

/// The value 0x3f2d_0ae5.
proof fn lemma_at_3f2d0ae5()
    ensures
        chord_code(0x3f2d_0ae5, 0x3f25_5e8d, 0x3f2d_5e8d, 0x4352_b965, 0x4357_2e9d) == 214,
{
    reveal(chord_code);
    lemma2_to64();
    lemma2_to64_rest();
    lemma_high_powers();
    assert(0xad_5e8d * 0x1 - 0xa5_5e8d * 0x1 == 0x8_0000);
    lemma_sum_known(0x3f2d_5e8d, 0x3f25_5e8d, true, 0xad_5e8d, 125, 0xa5_5e8d, 125, 0x1, 0x1, 0x8_0000, 20, 0x8_0000, 0x10);
    assert(sub_spec(0x3f2d_5e8d, 0x3f25_5e8d) == 0x3d00_0000);
    assert(0xad_0ae5 * 0x1 - 0xa5_5e8d * 0x1 == 0x7_ac58);
    lemma_sum_known(0x3f2d_0ae5, 0x3f25_5e8d, true, 0xad_0ae5, 125, 0xa5_5e8d, 125, 0x1, 0x1, 0x7_ac58, 19, 0x4_0000, 0x20);
    assert(sub_spec(0x3f2d_0ae5, 0x3f25_5e8d) == 0x3cf5_8b00);
    assert(0xd7_2e9d * 0x1 - 0xd2_b965 * 0x1 == 0x4_7538);
    lemma_sum_known(0x4357_2e9d, 0x4352_b965, true, 0xd7_2e9d, 133, 0xd2_b965, 133, 0x1, 0x1, 0x4_7538, 19, 0x4_0000, 0x20);
    assert(sub_spec(0x4357_2e9d, 0x4352_b965) == 0x408e_a700);
    assert(0x8e_a700 * 0xf5_8b00 == 0x88d3_47ad_0000);
    lemma_product_known(0x408e_a700, 0x3cf5_8b00, 0x8e_a700, 128, 0xf5_8b00, 120, 0x88d3_47ad_0000, 48, 0x8000_0000_0000, 0x100_0000);
    assert(mul_spec(0x408e_a700, 0x3cf5_8b00) == 0x3e08_d348);
    assert(0x88_d348 * 0x1_0000_0000_0000_0000 == 0x1_11a6_9000_0000_0000 * 0x80_0000 + 0x0);
    lemma_quotient_known(0x3e08_d348, 0x3d00_0000, 0x88_d348, 123, 0x80_0000, 121, 0x1_11a6_9000_0000_0000, 0x0, 66, 0x2_0000_0000_0000_0000, 0x400_0000_0000);
    assert(div_spec(0x3e08_d348, 0x3d00_0000) == 0x4088_d348);
    assert(0xd2_b965 * 0x20 + 0x88_d348 * 0x1 == 0x1adf_ffe8);
    lemma_sum_known(0x4352_b965, 0x4088_d348, false, 0xd2_b965, 133, 0x88_d348, 128, 0x20, 0x1, 0x1adf_ffe8, 29, 0x1000_0000, 0x20);
    assert(add_spec(0x4352_b965, 0x4088_d348) == 0x4356_ffff);
    lemma_whole_known(0x4356_ffff, 0xd6_ffff, 133, 0x1_0000);
}

/// The value 0x3f2d_0ae6.
proof fn lemma_at_3f2d0ae6()
    ensures
        chord_code(0x3f2d_0ae6, 0x3f25_5e8d, 0x3f2d_5e8d, 0x4352_b965, 0x4357_2e9d) == 215,
{
    reveal(chord_code);
    lemma2_to64();
    lemma2_to64_rest();
    lemma_high_powers();
    assert(0xad_5e8d * 0x1 - 0xa5_5e8d * 0x1 == 0x8_0000);
    lemma_sum_known(0x3f2d_5e8d, 0x3f25_5e8d, true, 0xad_5e8d, 125, 0xa5_5e8d, 125, 0x1, 0x1, 0x8_0000, 20, 0x8_0000, 0x10);
    assert(sub_spec(0x3f2d_5e8d, 0x3f25_5e8d) == 0x3d00_0000);
    assert(0xad_0ae6 * 0x1 - 0xa5_5e8d * 0x1 == 0x7_ac59);
    lemma_sum_known(0x3f2d_0ae6, 0x3f25_5e8d, true, 0xad_0ae6, 125, 0xa5_5e8d, 125, 0x1, 0x1, 0x7_ac59, 19, 0x4_0000, 0x20);
    assert(sub_spec(0x3f2d_0ae6, 0x3f25_5e8d) == 0x3cf5_8b20);
    assert(0xd7_2e9d * 0x1 - 0xd2_b965 * 0x1 == 0x4_7538);
    lemma_sum_known(0x4357_2e9d, 0x4352_b965, true, 0xd7_2e9d, 133, 0xd2_b965, 133, 0x1, 0x1, 0x4_7538, 19, 0x4_0000, 0x20);
    assert(sub_spec(0x4357_2e9d, 0x4352_b965) == 0x408e_a700);
    assert(0x8e_a700 * 0xf5_8b20 == 0x88d3_5981_e000);
    lemma_product_known(0x408e_a700, 0x3cf5_8b20, 0x8e_a700, 128, 0xf5_8b20, 120, 0x88d3_5981_e000, 48, 0x8000_0000_0000, 0x100_0000);
    assert(mul_spec(0x408e_a700, 0x3cf5_8b20) == 0x3e08_d35a);
    assert(0x88_d35a * 0x1_0000_0000_0000_0000 == 0x1_11a6_b400_0000_0000 * 0x80_0000 + 0x0);
    lemma_quotient_known(0x3e08_d35a, 0x3d00_0000, 0x88_d35a, 123, 0x80_0000, 121, 0x1_11a6_b400_0000_0000, 0x0, 66, 0x2_0000_0000_0000_0000, 0x400_0000_0000);
    assert(div_spec(0x3e08_d35a, 0x3d00_0000) == 0x4088_d35a);
    assert(0xd2_b965 * 0x20 + 0x88_d35a * 0x1 == 0x1adf_fffa);
    lemma_sum_known(0x4352_b965, 0x4088_d35a, false, 0xd2_b965, 133, 0x88_d35a, 128, 0x20, 0x1, 0x1adf_fffa, 29, 0x1000_0000, 0x20);
    assert(add_spec(0x4352_b965, 0x4088_d35a) == 0x4357_0000);
    lemma_whole_known(0x4357_0000, 0xd7_0000, 133, 0x1_0000);
}

/// The edge of code 214.
proof fn lemma_near_214()
    ensures
        near_exact_edge(0x3f2d_0ae5, 214),
{
    lemma2_to64();
    lemma2_to64_rest();
    lemma_fifth_powers_of_two();
    lemma_more_fifth_powers_of_two();
    assert(228525nat * 228525 * 228525 == 0x2a_6649_a2d2_9575);
    assert(269025nat * 269025 * 269025 == 0x45_2c59_9066_9ca1);
    assert(0x2a_6649_a2d2_9575nat * 0x2a_6649_a2d2_9575 == 0x705_b908_3007_1d25_ab1b_9f35_6779nat);
    assert(0x705_b908_3007_1d25_ab1b_9f35_6779nat * 0x705_b908_3007_1d25_ab1b_9f35_6779nat == 0x31_503f_32af_198c_8469_2092_7d1f_1123_3fb5_112b_a37c_db32_4fec_9731nat);
    assert(0x45_2c59_9066_9ca1nat * 0x45_2c59_9066_9ca1 == 0x12b0_eff6_c049_6d6d_d948_5020_9d41nat);
    assert(0x12b0_eff6_c049_6d6d_d948_5020_9d41nat * 0x12b0_eff6_c049_6d6d_d948_5020_9d41nat == 0x15d_5c09_8741_6139_2178_92b9_bce5_5f46_89a2_dd05_b95f_0d00_50d8_ca81nat);
    assert(0x361_2579nat * 0x361_2579 == 0xb_6bbe_412e_3331);
    assert(0xb_6bbe_412e_3331nat * 0xb_6bbe_412e_3331 == 0x82_6fb2_31d9_d62d_7111_51d8_8f61nat);
    assert(0x82_6fb2_31d9_d62d_7111_51d8_8f61nat * 0x361_2579 == 0x1_b8ce_80e5_fd7a_bb75_d857_7ec0_72d5_c9d9nat);
    assert(0x361_4779nat * 0x361_4779 == 0xb_6ca4_13a6_5731);
    assert(0xb_6ca4_13a6_5731nat * 0xb_6ca4_13a6_5731 == 0x82_8434_8a09_0669_2bce_773e_5761nat);
    assert(0x82_8434_8a09_0669_2bce_773e_5761nat * 0x361_4779 == 0x1_b925_25e1_779c_6868_377c_e14d_e574_33d9nat);
    assert(0x1_b8ce_80e5_fd7a_bb75_d857_7ec0_72d5_c9d9nat * 0x15d_5c09_8741_6139_2178_92b9_bce5_5f46_89a2_dd05_b95f_0d00_50d8_ca81nat == 0x259_9000_5805_3950_35dc_0981_31d7_31a8_90b9_e741_95d1_b971_80a2_cee3_4578_90a1_c963_7ccb_b825_720c_ae17_f059nat);
    assert(0x1_b925_25e1_779c_6868_377c_e14d_e574_33d9nat * 0x15d_5c09_8741_6139_2178_92b9_bce5_5f46_89a2_dd05_b95f_0d00_50d8_ca81nat == 0x25a_063e_695e_ad15_cab9_0c48_6bba_2285_4800_6f92_ee7c_86f4_4062_5587_c874_a9ca_53fc_1c8d_e64b_ee8d_df8f_5a59nat);
    assert(0xc35nat * 0x100_0000_0000_0000_0000_0000_0000_0000nat == 0xc_3500_0000_0000_0000_0000_0000_0000_0000nat);
    assert(0x31_503f_32af_198c_8469_2092_7d1f_1123_3fb5_112b_a37c_db32_4fec_9731nat * 0xc_3500_0000_0000_0000_0000_0000_0000_0000nat == 0x259_f893_75b3_72e0_4c57_4a9c_315c_3c33_48ad_4a99_b2b3_1fbd_29a3_1199_2500_0000_0000_0000_0000_0000_0000_0000nat);
    lemma_near_above(
        0x3f2d_0ae5, 0xad_0ae5, 125, 0x100, 0xc_3500_0000_0000_0000_0000_0000_0000_0000nat, 214,
        228525, 0x2a_6649_a2d2_9575,
        0x705_b908_3007_1d25_ab1b_9f35_6779nat,
        0x45_2c59_9066_9ca1, 0x12b0_eff6_c049_6d6d_d948_5020_9d41nat,
        0x361_2579, 0xb_6bbe_412e_3331, 0x82_6fb2_31d9_d62d_7111_51d8_8f61nat,
        0x361_4779, 0xb_6ca4_13a6_5731, 0x82_8434_8a09_0669_2bce_773e_5761nat,
    );
}

/// The value 0x3f2e_e091.
proof fn lemma_at_3f2ee091()
    ensures
        chord_code(0x3f2e_e091, 0x3f2d_5e8d, 0x3f35_5e8d, 0x4357_2e9d, 0x435b_857f) == 215,
{
    reveal(chord_code);
    lemma2_to64();
    lemma2_to64_rest();
    lemma_high_powers();
    assert(0xb5_5e8d * 0x1 - 0xad_5e8d * 0x1 == 0x8_0000);
    lemma_sum_known(0x3f35_5e8d, 0x3f2d_5e8d, true, 0xb5_5e8d, 125, 0xad_5e8d, 125, 0x1, 0x1, 0x8_0000, 20, 0x8_0000, 0x10);
    assert(sub_spec(0x3f35_5e8d, 0x3f2d_5e8d) == 0x3d00_0000);
    assert(0xae_e091 * 0x1 - 0xad_5e8d * 0x1 == 0x1_8204);
    lemma_sum_known(0x3f2e_e091, 0x3f2d_5e8d, true, 0xae_e091, 125, 0xad_5e8d, 125, 0x1, 0x1, 0x1_8204, 17, 0x1_0000, 0x80);
    assert(sub_spec(0x3f2e_e091, 0x3f2d_5e8d) == 0x3bc1_0200);
    assert(0xdb_857f * 0x1 - 0xd7_2e9d * 0x1 == 0x4_56e2);
    lemma_sum_known(0x435b_857f, 0x4357_2e9d, true, 0xdb_857f, 133, 0xd7_2e9d, 133, 0x1, 0x1, 0x4_56e2, 19, 0x4_0000, 0x20);
    assert(sub_spec(0x435b_857f, 0x4357_2e9d) == 0x408a_dc40);
    assert(0x8a_dc40 * 0xc1_0200 == 0x68b1_21f8_8000);
    lemma_product_known(0x408a_dc40, 0x3bc1_0200, 0x8a_dc40, 128, 0xc1_0200, 118, 0x68b1_21f8_8000, 47, 0x4000_0000_0000, 0x80_0000);
    assert(mul_spec(0x408a_dc40, 0x3bc1_0200) == 0x3cd1_6244);
    assert(0xd1_6244 * 0x1_0000_0000_0000_0000 == 0x1_a2c4_8800_0000_0000 * 0x80_0000 + 0x0);
    lemma_quotient_known(0x3cd1_6244, 0x3d00_0000, 0xd1_6244, 120, 0x80_0000, 121, 0x1_a2c4_8800_0000_0000, 0x0, 66, 0x2_0000_0000_0000_0000, 0x400_0000_0000);
    assert(div_spec(0x3cd1_6244, 0x3d00_0000) == 0x3f51_6244);
    assert(0xd7_2e9d * 0x100 + 0xd1_6244 * 0x1 == 0xd7ff_ff44);
    lemma_sum_known(0x4357_2e9d, 0x3f51_6244, false, 0xd7_2e9d, 133, 0xd1_6244, 125, 0x100, 0x1, 0xd7ff_ff44, 32, 0x8000_0000, 0x100);
    assert(add_spec(0x4357_2e9d, 0x3f51_6244) == 0x4357_ffff);
    lemma_whole_known(0x4357_ffff, 0xd7_ffff, 133, 0x1_0000);
}

/// The value 0x3f2e_e092.
proof fn lemma_at_3f2ee092()
    ensures
        chord_code(0x3f2e_e092, 0x3f2d_5e8d, 0x3f35_5e8d, 0x4357_2e9d, 0x435b_857f) == 216,
{
    reveal(chord_code);
    lemma2_to64();
    lemma2_to64_rest();
    lemma_high_powers();
    assert(0xb5_5e8d * 0x1 - 0xad_5e8d * 0x1 == 0x8_0000);
    lemma_sum_known(0x3f35_5e8d, 0x3f2d_5e8d, true, 0xb5_5e8d, 125, 0xad_5e8d, 125, 0x1, 0x1, 0x8_0000, 20, 0x8_0000, 0x10);
    assert(sub_spec(0x3f35_5e8d, 0x3f2d_5e8d) == 0x3d00_0000);
    assert(0xae_e092 * 0x1 - 0xad_5e8d * 0x1 == 0x1_8205);
    lemma_sum_known(0x3f2e_e092, 0x3f2d_5e8d, true, 0xae_e092, 125, 0xad_5e8d, 125, 0x1, 0x1, 0x1_8205, 17, 0x1_0000, 0x80);
    assert(sub_spec(0x3f2e_e092, 0x3f2d_5e8d) == 0x3bc1_0280);
    assert(0xdb_857f * 0x1 - 0xd7_2e9d * 0x1 == 0x4_56e2);
    lemma_sum_known(0x435b_857f, 0x4357_2e9d, true, 0xdb_857f, 133, 0xd7_2e9d, 133, 0x1, 0x1, 0x4_56e2, 19, 0x4_0000, 0x20);
    assert(sub_spec(0x435b_857f, 0x4357_2e9d) == 0x408a_dc40);
    assert(0x8a_dc40 * 0xc1_0280 == 0x68b1_6766_a000);
    lemma_product_known(0x408a_dc40, 0x3bc1_0280, 0x8a_dc40, 128, 0xc1_0280, 118, 0x68b1_6766_a000, 47, 0x4000_0000_0000, 0x80_0000);
    assert(mul_spec(0x408a_dc40, 0x3bc1_0280) == 0x3cd1_62cf);
    assert(0xd1_62cf * 0x1_0000_0000_0000_0000 == 0x1_a2c5_9e00_0000_0000 * 0x80_0000 + 0x0);
    lemma_quotient_known(0x3cd1_62cf, 0x3d00_0000, 0xd1_62cf, 120, 0x80_0000, 121, 0x1_a2c5_9e00_0000_0000, 0x0, 66, 0x2_0000_0000_0000_0000, 0x400_0000_0000);
    assert(div_spec(0x3cd1_62cf, 0x3d00_0000) == 0x3f51_62cf);
    assert(0xd7_2e9d * 0x100 + 0xd1_62cf * 0x1 == 0xd7ff_ffcf);
    lemma_sum_known(0x4357_2e9d, 0x3f51_62cf, false, 0xd7_2e9d, 133, 0xd1_62cf, 125, 0x100, 0x1, 0xd7ff_ffcf, 32, 0x8000_0000, 0x100);
    assert(add_spec(0x4357_2e9d, 0x3f51_62cf) == 0x4358_0000);
    lemma_whole_known(0x4358_0000, 0xd8_0000, 133, 0x1_0000);
}

/// The edge of code 215.
proof fn lemma_near_215()
    ensures
        near_exact_edge(0x3f2e_e091, 215),
{
    lemma2_to64();
    lemma2_to64_rest();
    lemma_fifth_powers_of_two();
    lemma_more_fifth_powers_of_two();
    assert(229525nat * 229525 * 229525 == 0x2a_f567_4ec8_f9ad);
    assert(269025nat * 269025 * 269025 == 0x45_2c59_9066_9ca1);
    assert(0x2a_f567_4ec8_f9adnat * 0x2a_f567_4ec8_f9ad == 0x735_7124_c06f_18a1_2122_7dd1_fee9nat);
    assert(0x735_7124_c06f_18a1_2122_7dd1_fee9nat * 0x735_7124_c06f_18a1_2122_7dd1_fee9nat == 0x33_f758_0dbf_3881_c62b_9ce3_6978_24d8_a744_1912_1e68_8715_c045_3011nat);
    assert(0x45_2c59_9066_9ca1nat * 0x45_2c59_9066_9ca1 == 0x12b0_eff6_c049_6d6d_d948_5020_9d41nat);
    assert(0x12b0_eff6_c049_6d6d_d948_5020_9d41nat * 0x12b0_eff6_c049_6d6d_d948_5020_9d41nat == 0x15d_5c09_8741_6139_2178_92b9_bce5_5f46_89a2_dd05_b95f_0d00_50d8_ca81nat);
    assert(0x36a_51d5nat * 0x36a_51d5 == 0xb_aa12_dc8c_7b39);
    assert(0xb_aa12_dc8c_7b39nat * 0xb_aa12_dc8c_7b39 == 0x88_0e9c_0260_ec50_c8e4_f9a7_d2b1nat);
    assert(0x88_0e9c_0260_ec50_c8e4_f9a7_d2b1nat * 0x36a_51d5 == 0x1_d0ad_5e73_a375_7138_0c83_f077_2296_4e45nat);
    assert(0x36a_73d5nat * 0x36a_73d5 == 0xb_aafb_1ecd_0f39);
    assert(0xb_aafb_1ecd_0f39nat * 0xb_aafb_1ecd_0f39 == 0x88_23c7_20dd_10ee_4198_be31_bab1nat);
    assert(0x88_23c7_20dd_10ee_4198_be31_bab1nat * 0x36a_73d5 == 0x1_d107_bf2e_6b2d_73f6_112d_874d_f687_d845nat);
    assert(0x1_d0ad_5e73_a375_7138_0c83_f077_2296_4e45nat * 0x15d_5c09_8741_6139_2178_92b9_bce5_5f46_89a2_dd05_b95f_0d00_50d8_ca81nat == 0x27a_2369_5d31_d137_a7ee_ac51_12a7_3fe0_c78d_89e7_b4f1_80c8_7daa_685b_4211_2c25_ff4d_ab08_1422_d59a_a1b7_e2c5nat);
    assert(0x1_d107_bf2e_6b2d_73f6_112d_874d_f687_d845nat * 0x15d_5c09_8741_6139_2178_92b9_bce5_5f46_89a2_dd05_b95f_0d00_50d8_ca81nat == 0x27a_9ebf_b9f4_5d81_ed00_4956_2172_5f10_6ea0_1a21_08f3_a682_a372_fd1b_5c1e_c403_585e_b8d0_201d_aa04_7552_6cc5nat);
    assert(0xc35nat * 0x100_0000_0000_0000_0000_0000_0000_0000nat == 0xc_3500_0000_0000_0000_0000_0000_0000_0000nat);
    assert(0x33_f758_0dbf_3881_c62b_9ce3_6978_24d8_a744_1912_1e68_8715_c045_3011nat * 0xc_3500_0000_0000_0000_0000_0000_0000_0000nat == 0x27a_5a55_dfcf_3cc8_2812_6224_0677_99c8_b1d2_460a_2d31_f8fc_840c_93bf_8500_0000_0000_0000_0000_0000_0000_0000nat);
    lemma_near_above(
        0x3f2e_e091, 0xae_e091, 125, 0x100, 0xc_3500_0000_0000_0000_0000_0000_0000_0000nat, 215,
        229525, 0x2a_f567_4ec8_f9ad,
        0x735_7124_c06f_18a1_2122_7dd1_fee9nat,
        0x45_2c59_9066_9ca1, 0x12b0_eff6_c049_6d6d_d948_5020_9d41nat,
        0x36a_51d5, 0xb_aa12_dc8c_7b39, 0x88_0e9c_0260_ec50_c8e4_f9a7_d2b1nat,
        0x36a_73d5, 0xb_aafb_1ecd_0f39, 0x88_23c7_20dd_10ee_4198_be31_bab1nat,
    );
}

/// The value 0x3f30_b886.
proof fn lemma_at_3f30b886()
    ensures
        chord_code(0x3f30_b886, 0x3f2d_5e8d, 0x3f35_5e8d, 0x4357_2e9d, 0x435b_857f) == 216,
{
    reveal(chord_code);
    lemma2_to64();
    lemma2_to64_rest();
    lemma_high_powers();
    assert(0xb5_5e8d * 0x1 - 0xad_5e8d * 0x1 == 0x8_0000);
    lemma_sum_known(0x3f35_5e8d, 0x3f2d_5e8d, true, 0xb5_5e8d, 125, 0xad_5e8d, 125, 0x1, 0x1, 0x8_0000, 20, 0x8_0000, 0x10);
    assert(sub_spec(0x3f35_5e8d, 0x3f2d_5e8d) == 0x3d00_0000);
    assert(0xb0_b886 * 0x1 - 0xad_5e8d * 0x1 == 0x3_59f9);
    lemma_sum_known(0x3f30_b886, 0x3f2d_5e8d, true, 0xb0_b886, 125, 0xad_5e8d, 125, 0x1, 0x1, 0x3_59f9, 18, 0x2_0000, 0x40);
    assert(sub_spec(0x3f30_b886, 0x3f2d_5e8d) == 0x3c56_7e40);
    assert(0xdb_857f * 0x1 - 0xd7_2e9d * 0x1 == 0x4_56e2);
    lemma_sum_known(0x435b_857f, 0x4357_2e9d, true, 0xdb_857f, 133, 0xd7_2e9d, 133, 0x1, 0x1, 0x4_56e2, 19, 0x4_0000, 0x20);
    assert(sub_spec(0x435b_857f, 0x4357_2e9d) == 0x408a_dc40);
    assert(0x8a_dc40 * 0xd6_7e40 == 0x7458_989e_9000);
    lemma_product_known(0x408a_dc40, 0x3c56_7e40, 0x8a_dc40, 128, 0xd6_7e40, 119, 0x7458_989e_9000, 47, 0x4000_0000_0000, 0x80_0000);
    assert(mul_spec(0x408a_dc40, 0x3c56_7e40) == 0x3d68_b131);
    assert(0xe8_b131 * 0x1_0000_0000_0000_0000 == 0x1_d162_6200_0000_0000 * 0x80_0000 + 0x0);
    lemma_quotient_known(0x3d68_b131, 0x3d00_0000, 0xe8_b131, 121, 0x80_0000, 121, 0x1_d162_6200_0000_0000, 0x0, 66, 0x2_0000_0000_0000_0000, 0x400_0000_0000);
    assert(div_spec(0x3d68_b131, 0x3d00_0000) == 0x3fe8_b131);
    assert(0xd7_2e9d * 0x80 + 0xe8_b131 * 0x1 == 0x6c7f_ffb1);
    lemma_sum_known(0x4357_2e9d, 0x3fe8_b131, false, 0xd7_2e9d, 133, 0xe8_b131, 126, 0x80, 0x1, 0x6c7f_ffb1, 31, 0x4000_0000, 0x80);
    assert(add_spec(0x4357_2e9d, 0x3fe8_b131) == 0x4358_ffff);
    lemma_whole_known(0x4358_ffff, 0xd8_ffff, 133, 0x1_0000);
}

/// The value 0x3f30_b887.
proof fn lemma_at_3f30b887()
    ensures
        chord_code(0x3f30_b887, 0x3f2d_5e8d, 0x3f35_5e8d, 0x4357_2e9d, 0x435b_857f) == 217,
{
    reveal(chord_code);
    lemma2_to64();
    lemma2_to64_rest();
    lemma_high_powers();
    assert(0xb5_5e8d * 0x1 - 0xad_5e8d * 0x1 == 0x8_0000);
    lemma_sum_known(0x3f35_5e8d, 0x3f2d_5e8d, true, 0xb5_5e8d, 125, 0xad_5e8d, 125, 0x1, 0x1, 0x8_0000, 20, 0x8_0000, 0x10);
    assert(sub_spec(0x3f35_5e8d, 0x3f2d_5e8d) == 0x3d00_0000);
    assert(0xb0_b887 * 0x1 - 0xad_5e8d * 0x1 == 0x3_59fa);
    lemma_sum_known(0x3f30_b887, 0x3f2d_5e8d, true, 0xb0_b887, 125, 0xad_5e8d, 125, 0x1, 0x1, 0x3_59fa, 18, 0x2_0000, 0x40);
    assert(sub_spec(0x3f30_b887, 0x3f2d_5e8d) == 0x3c56_7e80);
    assert(0xdb_857f * 0x1 - 0xd7_2e9d * 0x1 == 0x4_56e2);
    lemma_sum_known(0x435b_857f, 0x4357_2e9d, true, 0xdb_857f, 133, 0xd7_2e9d, 133, 0x1, 0x1, 0x4_56e2, 19, 0x4_0000, 0x20);
    assert(sub_spec(0x435b_857f, 0x4357_2e9d) == 0x408a_dc40);
    assert(0x8a_dc40 * 0xd6_7e80 == 0x7458_bb55_a000);
    lemma_product_known(0x408a_dc40, 0x3c56_7e80, 0x8a_dc40, 128, 0xd6_7e80, 119, 0x7458_bb55_a000, 47, 0x4000_0000_0000, 0x80_0000);
    assert(mul_spec(0x408a_dc40, 0x3c56_7e80) == 0x3d68_b177);
    assert(0xe8_b177 * 0x1_0000_0000_0000_0000 == 0x1_d162_ee00_0000_0000 * 0x80_0000 + 0x0);
    lemma_quotient_known(0x3d68_b177, 0x3d00_0000, 0xe8_b177, 121, 0x80_0000, 121, 0x1_d162_ee00_0000_0000, 0x0, 66, 0x2_0000_0000_0000_0000, 0x400_0000_0000);
    assert(div_spec(0x3d68_b177, 0x3d00_0000) == 0x3fe8_b177);
    assert(0xd7_2e9d * 0x80 + 0xe8_b177 * 0x1 == 0x6c7f_fff7);
    lemma_sum_known(0x4357_2e9d, 0x3fe8_b177, false, 0xd7_2e9d, 133, 0xe8_b177, 126, 0x80, 0x1, 0x6c7f_fff7, 31, 0x4000_0000, 0x80);
    assert(add_spec(0x4357_2e9d, 0x3fe8_b177) == 0x4359_0000);
    lemma_whole_known(0x4359_0000, 0xd9_0000, 133, 0x1_0000);
}

/// The edge of code 216.
proof fn lemma_near_216()
    ensures
        near_exact_edge(0x3f30_b886, 216),
{
    lemma2_to64();
    lemma2_to64_rest();
    lemma_fifth_powers_of_two();
    lemma_more_fifth_powers_of_two();
    assert(230525nat * 230525 * 230525 == 0x2b_85c5_9f48_b965);
    assert(269025nat * 269025 * 269025 == 0x45_2c59_9066_9ca1);
    assert(0x2b_85c5_9f48_b965nat * 0x2b_85c5_9f48_b965 == 0x766_364a_727e_6199_b266_4513_21d9nat);
    assert(0x766_364a_727e_6199_b266_4513_21d9nat * 0x766_364a_727e_6199_b266_4513_21d9nat == 0x36_bfc7_6119_a3ff_e3ad_d2b5_7ac1_5fec_6158_070a_a056_0e99_04af_a9f1nat);
    assert(0x45_2c59_9066_9ca1nat * 0x45_2c59_9066_9ca1 == 0x12b0_eff6_c049_6d6d_d948_5020_9d41nat);
    assert(0x12b0_eff6_c049_6d6d_d948_5020_9d41nat * 0x12b0_eff6_c049_6d6d_d948_5020_9d41nat == 0x15d_5c09_8741_6139_2178_92b9_bce5_5f46_89a2_dd05_b95f_0d00_50d8_ca81nat);
    assert(0x373_899enat * 0x373_899e == 0xb_e95e_a1ee_7d84);
    assert(0xb_e95e_a1ee_7d84nat * 0xb_e95e_a1ee_7d84 == 0x8d_e2df_503e_3b64_4cfd_a6fa_2c10nat);
    assert(0x8d_e2df_503e_3b64_4cfd_a6fa_2c10nat * 0x373_899e == 0x1_e9b1_ce3d_4e6b_af26_e402_33ce_eb2b_c1e0nat);
    assert(0x373_ab9enat * 0x373_ab9e == 0xb_ea49_5700_7584);
    assert(0xb_ea49_5700_7584nat * 0xb_ea49_5700_7584 == 0x8d_f8b7_a219_ac01_a527_edf1_ec10nat);
    assert(0x8d_f8b7_a219_ac01_a527_edf1_ec10nat * 0x373_ab9e == 0x1_ea10_0e26_4929_7b69_eb0f_5406_af2e_61e0nat);
    assert(0x1_e9b1_ce3d_4e6b_af26_e402_33ce_eb2b_c1e0nat * 0x15d_5c09_8741_6139_2178_92b9_bce5_5f46_89a2_dd05_b95f_0d00_50d8_ca81nat == 0x29c_4774_49ac_0505_966e_61fa_f488_8e37_cb75_05bf_b011_c9f5_bc4d_0f50_2583_4ff4_38df_9438_0d09_da56_9d07_71e0nat);
    assert(0x1_ea10_0e26_4929_7b69_eb0f_5406_af2e_61e0nat * 0x15d_5c09_8741_6139_2178_92b9_bce5_5f46_89a2_dd05_b95f_0d00_50d8_ca81nat == 0x29c_c813_4cc3_9ed7_f584_d92e_ce5a_2329_0eea_38f1_4147_41db_3212_98a7_b40e_b246_e49a_0a41_1481_4b51_749a_11e0nat);
    assert(0xc35nat * 0x100_0000_0000_0000_0000_0000_0000_0000nat == 0xc_3500_0000_0000_0000_0000_0000_0000_0000nat);
    assert(0x36_bfc7_6119_a3ff_e3ad_d2b5_7ac1_5fec_6158_070a_a056_0e99_04af_a9f1nat * 0xc_3500_0000_0000_0000_0000_0000_0000_0000nat == 0x29c_530c_d44d_fef2_a648_dd21_537a_87f0_8047_8df4_b73a_8031_e634_557a_e500_0000_0000_0000_0000_0000_0000_0000nat);
    lemma_near_above(
        0x3f30_b886, 0xb0_b886, 125, 0x100, 0xc_3500_0000_0000_0000_0000_0000_0000_0000nat, 216,
        230525, 0x2b_85c5_9f48_b965,
        0x766_364a_727e_6199_b266_4513_21d9nat,
        0x45_2c59_9066_9ca1, 0x12b0_eff6_c049_6d6d_d948_5020_9d41nat,
        0x373_899e, 0xb_e95e_a1ee_7d84, 0x8d_e2df_503e_3b64_4cfd_a6fa_2c10nat,
        0x373_ab9e, 0xb_ea49_5700_7584, 0x8d_f8b7_a219_ac01_a527_edf1_ec10nat,
    );
}

/// The value 0x3f32_907a.
proof fn lemma_at_3f32907a()
    ensures
        chord_code(0x3f32_907a, 0x3f2d_5e8d, 0x3f35_5e8d, 0x4357_2e9d, 0x435b_857f) == 217,
{
    reveal(chord_code);
    lemma2_to64();
    lemma2_to64_rest();
    lemma_high_powers();
    assert(0xb5_5e8d * 0x1 - 0xad_5e8d * 0x1 == 0x8_0000);
    lemma_sum_known(0x3f35_5e8d, 0x3f2d_5e8d, true, 0xb5_5e8d, 125, 0xad_5e8d, 125, 0x1, 0x1, 0x8_0000, 20, 0x8_0000, 0x10);
    assert(sub_spec(0x3f35_5e8d, 0x3f2d_5e8d) == 0x3d00_0000);
    assert(0xb2_907a * 0x1 - 0xad_5e8d * 0x1 == 0x5_31ed);
    lemma_sum_known(0x3f32_907a, 0x3f2d_5e8d, true, 0xb2_907a, 125, 0xad_5e8d, 125, 0x1, 0x1, 0x5_31ed, 19, 0x4_0000, 0x20);
    assert(sub_spec(0x3f32_907a, 0x3f2d_5e8d) == 0x3ca6_3da0);
    assert(0xdb_857f * 0x1 - 0xd7_2e9d * 0x1 == 0x4_56e2);
    lemma_sum_known(0x435b_857f, 0x4357_2e9d, true, 0xdb_857f, 133, 0xd7_2e9d, 133, 0x1, 0x1, 0x4_56e2, 19, 0x4_0000, 0x20);
    assert(sub_spec(0x435b_857f, 0x4357_2e9d) == 0x408a_dc40);
    assert(0x8a_dc40 * 0xa6_3da0 == 0x5a2c_3ec4_e800);
    lemma_product_known(0x408a_dc40, 0x3ca6_3da0, 0x8a_dc40, 128, 0xa6_3da0, 120, 0x5a2c_3ec4_e800, 47, 0x4000_0000_0000, 0x80_0000);
    assert(mul_spec(0x408a_dc40, 0x3ca6_3da0) == 0x3db4_587e);
    assert(0xb4_587e * 0x1_0000_0000_0000_0000 == 0x1_68b0_fc00_0000_0000 * 0x80_0000 + 0x0);
    lemma_quotient_known(0x3db4_587e, 0x3d00_0000, 0xb4_587e, 122, 0x80_0000, 121, 0x1_68b0_fc00_0000_0000, 0x0, 66, 0x2_0000_0000_0000_0000, 0x400_0000_0000);
    assert(div_spec(0x3db4_587e, 0x3d00_0000) == 0x4034_587e);
    assert(0xd7_2e9d * 0x40 + 0xb4_587e * 0x1 == 0x367f_ffbe);
    lemma_sum_known(0x4357_2e9d, 0x4034_587e, false, 0xd7_2e9d, 133, 0xb4_587e, 127, 0x40, 0x1, 0x367f_ffbe, 30, 0x2000_0000, 0x40);
    assert(add_spec(0x4357_2e9d, 0x4034_587e) == 0x4359_ffff);
    lemma_whole_known(0x4359_ffff, 0xd9_ffff, 133, 0x1_0000);
}

/// The value 0x3f32_907b.
proof fn lemma_at_3f32907b()
    ensures
        chord_code(0x3f32_907b, 0x3f2d_5e8d, 0x3f35_5e8d, 0x4357_2e9d, 0x435b_857f) == 218,
{
    reveal(chord_code);
    lemma2_to64();
    lemma2_to64_rest();
    lemma_high_powers();
    assert(0xb5_5e8d * 0x1 - 0xad_5e8d * 0x1 == 0x8_0000);
    lemma_sum_known(0x3f35_5e8d, 0x3f2d_5e8d, true, 0xb5_5e8d, 125, 0xad_5e8d, 125, 0x1, 0x1, 0x8_0000, 20, 0x8_0000, 0x10);
    assert(sub_spec(0x3f35_5e8d, 0x3f2d_5e8d) == 0x3d00_0000);
    assert(0xb2_907b * 0x1 - 0xad_5e8d * 0x1 == 0x5_31ee);
    lemma_sum_known(0x3f32_907b, 0x3f2d_5e8d, true, 0xb2_907b, 125, 0xad_5e8d, 125, 0x1, 0x1, 0x5_31ee, 19, 0x4_0000, 0x20);
    assert(sub_spec(0x3f32_907b, 0x3f2d_5e8d) == 0x3ca6_3dc0);
    assert(0xdb_857f * 0x1 - 0xd7_2e9d * 0x1 == 0x4_56e2);
    lemma_sum_known(0x435b_857f, 0x4357_2e9d, true, 0xdb_857f, 133, 0xd7_2e9d, 133, 0x1, 0x1, 0x4_56e2, 19, 0x4_0000, 0x20);
    assert(sub_spec(0x435b_857f, 0x4357_2e9d) == 0x408a_dc40);
    assert(0x8a_dc40 * 0xa6_3dc0 == 0x5a2c_5020_7000);
    lemma_product_known(0x408a_dc40, 0x3ca6_3dc0, 0x8a_dc40, 128, 0xa6_3dc0, 120, 0x5a2c_5020_7000, 47, 0x4000_0000_0000, 0x80_0000);
    assert(mul_spec(0x408a_dc40, 0x3ca6_3dc0) == 0x3db4_58a0);
    assert(0xb4_58a0 * 0x1_0000_0000_0000_0000 == 0x1_68b1_4000_0000_0000 * 0x80_0000 + 0x0);
    lemma_quotient_known(0x3db4_58a0, 0x3d00_0000, 0xb4_58a0, 122, 0x80_0000, 121, 0x1_68b1_4000_0000_0000, 0x0, 66, 0x2_0000_0000_0000_0000, 0x400_0000_0000);
    assert(div_spec(0x3db4_58a0, 0x3d00_0000) == 0x4034_58a0);
    assert(0xd7_2e9d * 0x40 + 0xb4_58a0 * 0x1 == 0x367f_ffe0);
    lemma_sum_known(0x4357_2e9d, 0x4034_58a0, false, 0xd7_2e9d, 133, 0xb4_58a0, 127, 0x40, 0x1, 0x367f_ffe0, 30, 0x2000_0000, 0x40);
    assert(add_spec(0x4357_2e9d, 0x4034_58a0) == 0x435a_0000);
    lemma_whole_known(0x435a_0000, 0xda_0000, 133, 0x1_0000);
}

/// The edge of code 217.
proof fn lemma_near_217()
    ensures
        near_exact_edge(0x3f32_907a, 217),
{
    lemma2_to64();
    lemma2_to64_rest();
    lemma_fifth_powers_of_two();
    lemma_more_fifth_powers_of_two();
    assert(231525nat * 231525 * 231525 == 0x2c_1765_f9f2_909d);
    assert(269025nat * 269025 * 269025 == 0x45_2c59_9066_9ca1);
    assert(0x2c_1765_f9f2_909dnat * 0x2c_1765_f9f2_909d == 0x798_0d31_66ea_7964_1509_2485_0049nat);
    assert(0x798_0d31_66ea_7964_1509_2485_0049nat * 0x798_0d31_66ea_7964_1509_2485_0049nat == 0x39_ab08_5ef9_170f_ff75_cccb_8473_5275_5ab5_73f2_a3a3_ac4f_d3da_14d1nat);
    assert(0x45_2c59_9066_9ca1nat * 0x45_2c59_9066_9ca1 == 0x12b0_eff6_c049_6d6d_d948_5020_9d41nat);
    assert(0x12b0_eff6_c049_6d6d_d948_5020_9d41nat * 0x12b0_eff6_c049_6d6d_d948_5020_9d41nat == 0x15d_5c09_8741_6139_2178_92b9_bce5_5f46_89a2_dd05_b95f_0d00_50d8_ca81nat);
    assert(0x37c_c162nat * 0x37c_c162 == 0xc_2954_3504_e984);
    assert(0xc_2954_3504_e984nat * 0xc_2954_3504_e984 == 0x93_e691_0d24_4d60_8f68_c921_8c10nat);
    assert(0x93_e691_0d24_4d60_8f68_c921_8c10nat * 0x37c_c162 == 0x2_03c7_1adb_68ed_02af_1c31_b6a3_512f_ae20nat);
    assert(0x37c_e362nat * 0x37c_e362 == 0xc_2a41_5ce6_f184);
    assert(0xc_2a41_5ce6_f184nat * 0xc_2a41_5ce6_f184 == 0x93_fd1a_38d2_ba9c_c2f5_bd09_cc10nat);
    assert(0x93_fd1a_38d2_ba9c_c2f5_bd09_cc10nat * 0x37c_e362 == 0x2_0429_5973_22ae_d65b_c121_36d5_1572_4e20nat);
    assert(0x2_03c7_1adb_68ed_02af_1c31_b6a3_512f_ae20nat * 0x15d_5c09_8741_6139_2178_92b9_bce5_5f46_89a2_dd05_b95f_0d00_50d8_ca81nat == 0x2bf_dfde_5d46_8f21_9801_cbac_ad4d_bd27_f6fd_b83e_1786_3af5_6a30_4aff_68a5_796b_4228_c0c7_bc0c_ed00_736b_fe20nat);
    assert(0x2_0429_5973_22ae_d65b_c121_36d5_1572_4e20nat * 0x15d_5c09_8741_6139_2178_92b9_bce5_5f46_89a2_dd05_b95f_0d00_50d8_ca81nat == 0x2c0_65f1_0445_6e8f_9160_c8df_1bdb_ba55_6f48_12d9_6e90_7479_992c_618a_c114_2837_a74c_4860_4d56_3527_eb3e_9e20nat);
    assert(0xc35nat * 0x100_0000_0000_0000_0000_0000_0000_0000nat == 0xc_3500_0000_0000_0000_0000_0000_0000_0000nat);
    assert(0x39_ab08_5ef9_170f_ff75_cccb_8473_5275_5ab5_73f2_a3a3_ac4f_d3da_14d1nat * 0xc_3500_0000_0000_0000_0000_0000_0000_0000nat == 0x2bf_f4cd_2f56_a686_4968_fcf0_57d3_bd92_8c49_0060_e78c_f66a_7515_201b_4500_0000_0000_0000_0000_0000_0000_0000nat);
    lemma_near_above(
        0x3f32_907a, 0xb2_907a, 125, 0x100, 0xc_3500_0000_0000_0000_0000_0000_0000_0000nat, 217,
        231525, 0x2c_1765_f9f2_909d,
        0x798_0d31_66ea_7964_1509_2485_0049nat,
        0x45_2c59_9066_9ca1, 0x12b0_eff6_c049_6d6d_d948_5020_9d41nat,
        0x37c_c162, 0xc_2954_3504_e984, 0x93_e691_0d24_4d60_8f68_c921_8c10nat,
        0x37c_e362, 0xc_2a41_5ce6_f184, 0x93_fd1a_38d2_ba9c_c2f5_bd09_cc10nat,
    );
}

/// The value 0x3f34_686f.
proof fn lemma_at_3f34686f()
    ensures
        chord_code(0x3f34_686f, 0x3f2d_5e8d, 0x3f35_5e8d, 0x4357_2e9d, 0x435b_857f) == 218,
{
    reveal(chord_code);
    lemma2_to64();
    lemma2_to64_rest();
    lemma_high_powers();
    assert(0xb5_5e8d * 0x1 - 0xad_5e8d * 0x1 == 0x8_0000);
    lemma_sum_known(0x3f35_5e8d, 0x3f2d_5e8d, true, 0xb5_5e8d, 125, 0xad_5e8d, 125, 0x1, 0x1, 0x8_0000, 20, 0x8_0000, 0x10);
    assert(sub_spec(0x3f35_5e8d, 0x3f2d_5e8d) == 0x3d00_0000);
    assert(0xb4_686f * 0x1 - 0xad_5e8d * 0x1 == 0x7_09e2);
    lemma_sum_known(0x3f34_686f, 0x3f2d_5e8d, true, 0xb4_686f, 125, 0xad_5e8d, 125, 0x1, 0x1, 0x7_09e2, 19, 0x4_0000, 0x20);
    assert(sub_spec(0x3f34_686f, 0x3f2d_5e8d) == 0x3ce1_3c40);
    assert(0xdb_857f * 0x1 - 0xd7_2e9d * 0x1 == 0x4_56e2);
    lemma_sum_known(0x435b_857f, 0x4357_2e9d, true, 0xdb_857f, 133, 0xd7_2e9d, 133, 0x1, 0x1, 0x4_56e2, 19, 0x4_0000, 0x20);
    assert(sub_spec(0x435b_857f, 0x4357_2e9d) == 0x408a_dc40);
    assert(0x8a_dc40 * 0xe1_3c40 == 0x7a2c_4296_1000);
    lemma_product_known(0x408a_dc40, 0x3ce1_3c40, 0x8a_dc40, 128, 0xe1_3c40, 120, 0x7a2c_4296_1000, 47, 0x4000_0000_0000, 0x80_0000);
    assert(mul_spec(0x408a_dc40, 0x3ce1_3c40) == 0x3df4_5885);
    assert(0xf4_5885 * 0x1_0000_0000_0000_0000 == 0x1_e8b1_0a00_0000_0000 * 0x80_0000 + 0x0);
    lemma_quotient_known(0x3df4_5885, 0x3d00_0000, 0xf4_5885, 122, 0x80_0000, 121, 0x1_e8b1_0a00_0000_0000, 0x0, 66, 0x2_0000_0000_0000_0000, 0x400_0000_0000);
    assert(div_spec(0x3df4_5885, 0x3d00_0000) == 0x4074_5885);
    assert(0xd7_2e9d * 0x40 + 0xf4_5885 * 0x1 == 0x36bf_ffc5);
    lemma_sum_known(0x4357_2e9d, 0x4074_5885, false, 0xd7_2e9d, 133, 0xf4_5885, 127, 0x40, 0x1, 0x36bf_ffc5, 30, 0x2000_0000, 0x40);
    assert(add_spec(0x4357_2e9d, 0x4074_5885) == 0x435a_ffff);
    lemma_whole_known(0x435a_ffff, 0xda_ffff, 133, 0x1_0000);
}

/// The value 0x3f34_6870.
proof fn lemma_at_3f346870()
    ensures
        chord_code(0x3f34_6870, 0x3f2d_5e8d, 0x3f35_5e8d, 0x4357_2e9d, 0x435b_857f) == 219,
{
    reveal(chord_code);
    lemma2_to64();
    lemma2_to64_rest();
    lemma_high_powers();
    assert(0xb5_5e8d * 0x1 - 0xad_5e8d * 0x1 == 0x8_0000);
    lemma_sum_known(0x3f35_5e8d, 0x3f2d_5e8d, true, 0xb5_5e8d, 125, 0xad_5e8d, 125, 0x1, 0x1, 0x8_0000, 20, 0x8_0000, 0x10);
    assert(sub_spec(0x3f35_5e8d, 0x3f2d_5e8d) == 0x3d00_0000);
    assert(0xb4_6870 * 0x1 - 0xad_5e8d * 0x1 == 0x7_09e3);
    lemma_sum_known(0x3f34_6870, 0x3f2d_5e8d, true, 0xb4_6870, 125, 0xad_5e8d, 125, 0x1, 0x1, 0x7_09e3, 19, 0x4_0000, 0x20);
    assert(sub_spec(0x3f34_6870, 0x3f2d_5e8d) == 0x3ce1_3c60);
    assert(0xdb_857f * 0x1 - 0xd7_2e9d * 0x1 == 0x4_56e2);
    lemma_sum_known(0x435b_857f, 0x4357_2e9d, true, 0xdb_857f, 133, 0xd7_2e9d, 133, 0x1, 0x1, 0x4_56e2, 19, 0x4_0000, 0x20);
    assert(sub_spec(0x435b_857f, 0x4357_2e9d) == 0x408a_dc40);
    assert(0x8a_dc40 * 0xe1_3c60 == 0x7a2c_53f1_9800);
    lemma_product_known(0x408a_dc40, 0x3ce1_3c60, 0x8a_dc40, 128, 0xe1_3c60, 120, 0x7a2c_53f1_9800, 47, 0x4000_0000_0000, 0x80_0000);
    assert(mul_spec(0x408a_dc40, 0x3ce1_3c60) == 0x3df4_58a8);
    assert(0xf4_58a8 * 0x1_0000_0000_0000_0000 == 0x1_e8b1_5000_0000_0000 * 0x80_0000 + 0x0);
    lemma_quotient_known(0x3df4_58a8, 0x3d00_0000, 0xf4_58a8, 122, 0x80_0000, 121, 0x1_e8b1_5000_0000_0000, 0x0, 66, 0x2_0000_0000_0000_0000, 0x400_0000_0000);
    assert(div_spec(0x3df4_58a8, 0x3d00_0000) == 0x4074_58a8);
    assert(0xd7_2e9d * 0x40 + 0xf4_58a8 * 0x1 == 0x36bf_ffe8);
    lemma_sum_known(0x4357_2e9d, 0x4074_58a8, false, 0xd7_2e9d, 133, 0xf4_58a8, 127, 0x40, 0x1, 0x36bf_ffe8, 30, 0x2000_0000, 0x40);
    assert(add_spec(0x4357_2e9d, 0x4074_58a8) == 0x435b_0000);
    lemma_whole_known(0x435b_0000, 0xdb_0000, 133, 0x1_0000);
}

/// The edge of code 218.
proof fn lemma_near_218()
    ensures
        near_exact_edge(0x3f34_686f, 218),
{
    lemma2_to64();
    lemma2_to64_rest();
    lemma_fifth_powers_of_two();
    lemma_more_fifth_powers_of_two();
    assert(232525nat * 232525 * 232525 == 0x2c_aa49_c467_3b55);
    assert(269025nat * 269025 * 269025 == 0x45_2c59_9066_9ca1);
    assert(0x2c_aa49_c467_3b55nat * 0x2c_aa49_c467_3b55 == 0x7ca_faa1_9197_1992_f6f4_f426_4a39nat);
    assert(0x7ca_faa1_9197_1992_f6f4_f426_4a39nat * 0x7ca_faa1_9197_1992_f6f4_f426_4a39nat == 0x3c_baa5_524f_fc2d_f63c_d944_1b20_fb3a_8a43_c705_b380_0bde_c671_00b1nat);
    assert(0x45_2c59_9066_9ca1nat * 0x45_2c59_9066_9ca1 == 0x12b0_eff6_c049_6d6d_d948_5020_9d41nat);
    assert(0x12b0_eff6_c049_6d6d_d948_5020_9d41nat * 0x12b0_eff6_c049_6d6d_d948_5020_9d41nat == 0x15d_5c09_8741_6139_2178_92b9_bce5_5f46_89a2_dd05_b95f_0d00_50d8_ca81nat);
    assert(0x385_f92bnat * 0x385_f92b == 0xc_69f3_db32_ad39);
    assert(0xc_69f3_db32_ad39nat * 0xc_69f3_db32_ad39 == 0x9a_1ab6_7ed9_ad55_5a9d_a57a_16b1nat);
    assert(0x9a_1ab6_7ed9_ad55_5a9d_a57a_16b1nat * 0x385_f92b == 0x2_1ef6_022a_7228_1590_0f50_f520_6888_f8bbnat);
    assert(0x386_1b2bnat * 0x386_1b2b == 0xc_6ae3_75e6_1939);
    assert(0xc_6ae3_75e6_1939nat * 0xc_6ae3_75e6_1939 == 0x9a_31f4_354f_3698_10f5_6ee8_2eb1nat);
    assert(0x9a_31f4_354f_3698_10f5_6ee8_2eb1nat * 0x386_1b2b == 0x2_1f5c_5f9e_fabe_aadb_f619_8200_a192_82bbnat);
    assert(0x2_1ef6_022a_7228_1590_0f50_f520_6888_f8bbnat * 0x15d_5c09_8741_6139_2178_92b9_bce5_5f46_89a2_dd05_b95f_0d00_50d8_ca81nat == 0x2e4_f895_9229_5af9_221d_89fb_9622_5736_71f4_e901_090e_c82a_dff0_836c_d776_8ec8_9f4d_791f_f240_981d_0f10_e43bnat);
    assert(0x2_1f5c_5f9e_fabe_aadb_f619_8200_a192_82bbnat * 0x15d_5c09_8741_6139_2178_92b9_bce5_5f46_89a2_dd05_b95f_0d00_50d8_ca81nat == 0x2e5_8447_c76c_cfde_a469_1feb_ba5c_f472_06a8_6966_e1f6_702a_484c_8e64_5916_9572_220c_21e0_1d7d_9d47_c3c3_6e3bnat);
    assert(0xc35nat * 0x100_0000_0000_0000_0000_0000_0000_0000nat == 0xc_3500_0000_0000_0000_0000_0000_0000_0000nat);
    assert(0x3c_baa5_524f_fc2d_f63c_d944_1b20_fb3a_8a43_c705_b380_0bde_c671_00b1nat * 0xc_3500_0000_0000_0000_0000_0000_0000_0000nat == 0x2e5_5264_15ca_615d_0ed4_c82c_5f29_9ac1_99cd_5c78_982a_10e6_6c61_6d70_a500_0000_0000_0000_0000_0000_0000_0000nat);
    lemma_near_above(
        0x3f34_686f, 0xb4_686f, 125, 0x100, 0xc_3500_0000_0000_0000_0000_0000_0000_0000nat, 218,
        232525, 0x2c_aa49_c467_3b55,
        0x7ca_faa1_9197_1992_f6f4_f426_4a39nat,
        0x45_2c59_9066_9ca1, 0x12b0_eff6_c049_6d6d_d948_5020_9d41nat,
        0x385_f92b, 0xc_69f3_db32_ad39, 0x9a_1ab6_7ed9_ad55_5a9d_a57a_16b1nat,
        0x386_1b2b, 0xc_6ae3_75e6_1939, 0x9a_31f4_354f_3698_10f5_6ee8_2eb1nat,
    );
}

/// The value 0x3f36_4647.
proof fn lemma_at_3f364647()
    ensures
        chord_code(0x3f36_4647, 0x3f35_5e8d, 0x3f3d_5e8d, 0x435b_857f, 0x435f_c028) == 219,
{
    reveal(chord_code);
    lemma2_to64();
    lemma2_to64_rest();
    lemma_high_powers();
    assert(0xbd_5e8d * 0x1 - 0xb5_5e8d * 0x1 == 0x8_0000);
    lemma_sum_known(0x3f3d_5e8d, 0x3f35_5e8d, true, 0xbd_5e8d, 125, 0xb5_5e8d, 125, 0x1, 0x1, 0x8_0000, 20, 0x8_0000, 0x10);
    assert(sub_spec(0x3f3d_5e8d, 0x3f35_5e8d) == 0x3d00_0000);
    assert(0xb6_4647 * 0x1 - 0xb5_5e8d * 0x1 == 0xe7ba);
    lemma_sum_known(0x3f36_4647, 0x3f35_5e8d, true, 0xb6_4647, 125, 0xb5_5e8d, 125, 0x1, 0x1, 0xe7ba, 16, 0x8000, 0x100);
    assert(sub_spec(0x3f36_4647, 0x3f35_5e8d) == 0x3b67_ba00);
    assert(0xdf_c028 * 0x1 - 0xdb_857f * 0x1 == 0x4_3aa9);
    lemma_sum_known(0x435f_c028, 0x435b_857f, true, 0xdf_c028, 133, 0xdb_857f, 133, 0x1, 0x1, 0x4_3aa9, 19, 0x4_0000, 0x20);
    assert(sub_spec(0x435f_c028, 0x435b_857f) == 0x4087_5520);
    assert(0x87_5520 * 0xe7_ba00 == 0x7a80_23b9_4000);
    lemma_product_known(0x4087_5520, 0x3b67_ba00, 0x87_5520, 128, 0xe7_ba00, 117, 0x7a80_23b9_4000, 47, 0x4000_0000_0000, 0x80_0000);
    assert(mul_spec(0x4087_5520, 0x3b67_ba00) == 0x3c75_0047);
    assert(0xf5_0047 * 0x1_0000_0000_0000_0000 == 0x1_ea00_8e00_0000_0000 * 0x80_0000 + 0x0);
    lemma_quotient_known(0x3c75_0047, 0x3d00_0000, 0xf5_0047, 119, 0x80_0000, 121, 0x1_ea00_8e00_0000_0000, 0x0, 66, 0x2_0000_0000_0000_0000, 0x400_0000_0000);
    assert(div_spec(0x3c75_0047, 0x3d00_0000) == 0x3ef5_0047);
    assert(0xdb_857f * 0x200 + 0xf5_0047 * 0x1 == 0x1_b7ff_fe47);
    lemma_sum_known(0x435b_857f, 0x3ef5_0047, false, 0xdb_857f, 133, 0xf5_0047, 124, 0x200, 0x1, 0x1_b7ff_fe47, 33, 0x1_0000_0000, 0x200);
    assert(add_spec(0x435b_857f, 0x3ef5_0047) == 0x435b_ffff);
    lemma_whole_known(0x435b_ffff, 0xdb_ffff, 133, 0x1_0000);
}

/// The value 0x3f36_4648.
proof fn lemma_at_3f364648()
    ensures
        chord_code(0x3f36_4648, 0x3f35_5e8d, 0x3f3d_5e8d, 0x435b_857f, 0x435f_c028) == 220,
{
    reveal(chord_code);
    lemma2_to64();
    lemma2_to64_rest();
    lemma_high_powers();
    assert(0xbd_5e8d * 0x1 - 0xb5_5e8d * 0x1 == 0x8_0000);
    lemma_sum_known(0x3f3d_5e8d, 0x3f35_5e8d, true, 0xbd_5e8d, 125, 0xb5_5e8d, 125, 0x1, 0x1, 0x8_0000, 20, 0x8_0000, 0x10);
    assert(sub_spec(0x3f3d_5e8d, 0x3f35_5e8d) == 0x3d00_0000);
    assert(0xb6_4648 * 0x1 - 0xb5_5e8d * 0x1 == 0xe7bb);
    lemma_sum_known(0x3f36_4648, 0x3f35_5e8d, true, 0xb6_4648, 125, 0xb5_5e8d, 125, 0x1, 0x1, 0xe7bb, 16, 0x8000, 0x100);
    assert(sub_spec(0x3f36_4648, 0x3f35_5e8d) == 0x3b67_bb00);
    assert(0xdf_c028 * 0x1 - 0xdb_857f * 0x1 == 0x4_3aa9);
    lemma_sum_known(0x435f_c028, 0x435b_857f, true, 0xdf_c028, 133, 0xdb_857f, 133, 0x1, 0x1, 0x4_3aa9, 19, 0x4_0000, 0x20);
    assert(sub_spec(0x435f_c028, 0x435b_857f) == 0x4087_5520);
    assert(0x87_5520 * 0xe7_bb00 == 0x7a80_ab0e_6000);
    lemma_product_known(0x4087_5520, 0x3b67_bb00, 0x87_5520, 128, 0xe7_bb00, 117, 0x7a80_ab0e_6000, 47, 0x4000_0000_0000, 0x80_0000);
    assert(mul_spec(0x4087_5520, 0x3b67_bb00) == 0x3c75_0156);
    assert(0xf5_0156 * 0x1_0000_0000_0000_0000 == 0x1_ea02_ac00_0000_0000 * 0x80_0000 + 0x0);
    lemma_quotient_known(0x3c75_0156, 0x3d00_0000, 0xf5_0156, 119, 0x80_0000, 121, 0x1_ea02_ac00_0000_0000, 0x0, 66, 0x2_0000_0000_0000_0000, 0x400_0000_0000);
    assert(div_spec(0x3c75_0156, 0x3d00_0000) == 0x3ef5_0156);
    assert(0xdb_857f * 0x200 + 0xf5_0156 * 0x1 == 0x1_b7ff_ff56);
    lemma_sum_known(0x435b_857f, 0x3ef5_0156, false, 0xdb_857f, 133, 0xf5_0156, 124, 0x200, 0x1, 0x1_b7ff_ff56, 33, 0x1_0000_0000, 0x200);
    assert(add_spec(0x435b_857f, 0x3ef5_0156) == 0x435c_0000);
    lemma_whole_known(0x435c_0000, 0xdc_0000, 133, 0x1_0000);
}

/// The edge of code 219.
proof fn lemma_near_219()
    ensures
        near_exact_edge(0x3f36_4647, 219),
{
    lemma2_to64();
    lemma2_to64_rest();
    lemma_fifth_powers_of_two();
    lemma_more_fifth_powers_of_two();
    assert(233525nat * 233525 * 233525 == 0x2d_3e72_6447_758d);
    assert(269025nat * 269025 * 269025 == 0x45_2c59_9066_9ca1);
    assert(0x2d_3e72_6447_758dnat * 0x2d_3e72_6447_758d == 0x7ff_0372_dccf_676e_e55c_9230_2fa9nat);
    assert(0x7ff_0372_dccf_676e_e55c_9230_2fa9nat * 0x7ff_0372_dccf_676e_e55c_9230_2fa9nat == 0x3f_f038_26f3_218e_6311_d85d_59d1_f848_0b0a_b214_8e9d_9ae6_ac3f_7d91nat);
    assert(0x45_2c59_9066_9ca1nat * 0x45_2c59_9066_9ca1 == 0x12b0_eff6_c049_6d6d_d948_5020_9d41nat);
    assert(0x12b0_eff6_c049_6d6d_d948_5020_9d41nat * 0x12b0_eff6_c049_6d6d_d948_5020_9d41nat == 0x15d_5c09_8741_6139_2178_92b9_bce5_5f46_89a2_dd05_b95f_0d00_50d8_ca81nat);
    assert(0x38f_4e63nat * 0x38f_4e63 == 0xc_ac0e_fc9a_7a49);
    assert(0xc_ac0e_fc9a_7a49nat * 0xc_ac0e_fc9a_7a49 == 0xa0_950b_d2cb_a54f_f5f3_123d_a8d1nat);
    assert(0xa0_950b_d2cb_a54f_f5f3_123d_a8d1nat * 0x38f_4e63 == 0x2_3ba3_9096_607d_d8ab_86da_15fa_9706_f6d3nat);
    assert(0x38f_7063nat * 0x38f_7063 == 0xc_ad01_11f0_c649);
    assert(0xc_ad01_11f0_c649nat * 0xc_ad01_11f0_c649 == 0xa0_ad04_20d3_27fa_135c_1475_00d1nat);
    assert(0xa0_ad04_20d3_27fa_135c_1475_00d1nat * 0x38f_7063 == 0x2_3c0e_3b85_8660_5610_c2da_91ed_0159_c0d3nat);
    assert(0x2_3ba3_9096_607d_d8ab_86da_15fa_9706_f6d3nat * 0x15d_5c09_8741_6139_2178_92b9_bce5_5f46_89a2_dd05_b95f_0d00_50d8_ca81nat == 0x30c_1b80_2bbc_ea66_8f23_7500_e75c_33b1_d826_5e53_76bd_937f_452f_dca0_6587_75ee_bc3c_3c76_51b4_2073_cb4c_de53nat);
    assert(0x2_3c0e_3b85_8660_5610_c2da_91ed_0159_c0d3nat * 0x15d_5c09_8741_6139_2178_92b9_bce5_5f46_89a2_dd05_b95f_0d00_50d8_ca81nat == 0x30c_ad11_8d29_df93_4272_b94b_ba8c_f8ea_2c4b_2b30_f2bb_fb81_f50f_3b85_2bfc_506e_8e90_9f0f_6fc5_727b_2268_a853nat);
    assert(0xc35nat * 0x100_0000_0000_0000_0000_0000_0000_0000nat == 0xc_3500_0000_0000_0000_0000_0000_0000_0000nat);
    assert(0x3f_f038_26f3_218e_6311_d85d_59d1_f848_0b0a_b214_8e9d_9ae6_ac3f_7d91nat * 0xc_3500_0000_0000_0000_0000_0000_0000_0000nat == 0x30c_7f5d_7375_e89f_1f58_d62b_8970_1bc7_6ec9_8fd4_f0e9_e3e1_d4a3_07cb_0500_0000_0000_0000_0000_0000_0000_0000nat);
    lemma_near_above(
        0x3f36_4647, 0xb6_4647, 125, 0x100, 0xc_3500_0000_0000_0000_0000_0000_0000_0000nat, 219,
        233525, 0x2d_3e72_6447_758d,
        0x7ff_0372_dccf_676e_e55c_9230_2fa9nat,
        0x45_2c59_9066_9ca1, 0x12b0_eff6_c049_6d6d_d948_5020_9d41nat,
        0x38f_4e63, 0xc_ac0e_fc9a_7a49, 0xa0_950b_d2cb_a54f_f5f3_123d_a8d1nat,
        0x38f_7063, 0xc_ad01_11f0_c649, 0xa0_ad04_20d3_27fa_135c_1475_00d1nat,
    );
}

/// The value 0x3f38_2a89.
proof fn lemma_at_3f382a89()
    ensures
        chord_code(0x3f38_2a89, 0x3f35_5e8d, 0x3f3d_5e8d, 0x435b_857f, 0x435f_c028) == 220,
{
    reveal(chord_code);
    lemma2_to64();
    lemma2_to64_rest();
    lemma_high_powers();
    assert(0xbd_5e8d * 0x1 - 0xb5_5e8d * 0x1 == 0x8_0000);
    lemma_sum_known(0x3f3d_5e8d, 0x3f35_5e8d, true, 0xbd_5e8d, 125, 0xb5_5e8d, 125, 0x1, 0x1, 0x8_0000, 20, 0x8_0000, 0x10);
    assert(sub_spec(0x3f3d_5e8d, 0x3f35_5e8d) == 0x3d00_0000);
    assert(0xb8_2a89 * 0x1 - 0xb5_5e8d * 0x1 == 0x2_cbfc);
    lemma_sum_known(0x3f38_2a89, 0x3f35_5e8d, true, 0xb8_2a89, 125, 0xb5_5e8d, 125, 0x1, 0x1, 0x2_cbfc, 18, 0x2_0000, 0x40);
    assert(sub_spec(0x3f38_2a89, 0x3f35_5e8d) == 0x3c32_ff00);
    assert(0xdf_c028 * 0x1 - 0xdb_857f * 0x1 == 0x4_3aa9);
    lemma_sum_known(0x435f_c028, 0x435b_857f, true, 0xdf_c028, 133, 0xdb_857f, 133, 0x1, 0x1, 0x4_3aa9, 19, 0x4_0000, 0x20);
    assert(sub_spec(0x435f_c028, 0x435b_857f) == 0x4087_5520);
    assert(0x87_5520 * 0xb2_ff00 == 0x5e9f_fe0a_e000);
    lemma_product_known(0x4087_5520, 0x3c32_ff00, 0x87_5520, 128, 0xb2_ff00, 119, 0x5e9f_fe0a_e000, 47, 0x4000_0000_0000, 0x80_0000);
    assert(mul_spec(0x4087_5520, 0x3c32_ff00) == 0x3d3d_3ffc);
    assert(0xbd_3ffc * 0x1_0000_0000_0000_0000 == 0x1_7a7f_f800_0000_0000 * 0x80_0000 + 0x0);
    lemma_quotient_known(0x3d3d_3ffc, 0x3d00_0000, 0xbd_3ffc, 121, 0x80_0000, 121, 0x1_7a7f_f800_0000_0000, 0x0, 66, 0x2_0000_0000_0000_0000, 0x400_0000_0000);
    assert(div_spec(0x3d3d_3ffc, 0x3d00_0000) == 0x3fbd_3ffc);
    assert(0xdb_857f * 0x80 + 0xbd_3ffc * 0x1 == 0x6e7f_ff7c);
    lemma_sum_known(0x435b_857f, 0x3fbd_3ffc, false, 0xdb_857f, 133, 0xbd_3ffc, 126, 0x80, 0x1, 0x6e7f_ff7c, 31, 0x4000_0000, 0x80);
    assert(add_spec(0x435b_857f, 0x3fbd_3ffc) == 0x435c_ffff);
    lemma_whole_known(0x435c_ffff, 0xdc_ffff, 133, 0x1_0000);
}

/// The value 0x3f38_2a8a.
proof fn lemma_at_3f382a8a()
    ensures
        chord_code(0x3f38_2a8a, 0x3f35_5e8d, 0x3f3d_5e8d, 0x435b_857f, 0x435f_c028) == 221,
{
    reveal(chord_code);
    lemma2_to64();
    lemma2_to64_rest();
    lemma_high_powers();
    assert(0xbd_5e8d * 0x1 - 0xb5_5e8d * 0x1 == 0x8_0000);
    lemma_sum_known(0x3f3d_5e8d, 0x3f35_5e8d, true, 0xbd_5e8d, 125, 0xb5_5e8d, 125, 0x1, 0x1, 0x8_0000, 20, 0x8_0000, 0x10);
    assert(sub_spec(0x3f3d_5e8d, 0x3f35_5e8d) == 0x3d00_0000);
    assert(0xb8_2a8a * 0x1 - 0xb5_5e8d * 0x1 == 0x2_cbfd);
    lemma_sum_known(0x3f38_2a8a, 0x3f35_5e8d, true, 0xb8_2a8a, 125, 0xb5_5e8d, 125, 0x1, 0x1, 0x2_cbfd, 18, 0x2_0000, 0x40);
    assert(sub_spec(0x3f38_2a8a, 0x3f35_5e8d) == 0x3c32_ff40);
    assert(0xdf_c028 * 0x1 - 0xdb_857f * 0x1 == 0x4_3aa9);
    lemma_sum_known(0x435f_c028, 0x435b_857f, true, 0xdf_c028, 133, 0xdb_857f, 133, 0x1, 0x1, 0x4_3aa9, 19, 0x4_0000, 0x20);
    assert(sub_spec(0x435f_c028, 0x435b_857f) == 0x4087_5520);
    assert(0x87_5520 * 0xb2_ff40 == 0x5ea0_1fe0_2800);
    lemma_product_known(0x4087_5520, 0x3c32_ff40, 0x87_5520, 128, 0xb2_ff40, 119, 0x5ea0_1fe0_2800, 47, 0x4000_0000_0000, 0x80_0000);
    assert(mul_spec(0x4087_5520, 0x3c32_ff40) == 0x3d3d_4040);
    assert(0xbd_4040 * 0x1_0000_0000_0000_0000 == 0x1_7a80_8000_0000_0000 * 0x80_0000 + 0x0);
    lemma_quotient_known(0x3d3d_4040, 0x3d00_0000, 0xbd_4040, 121, 0x80_0000, 121, 0x1_7a80_8000_0000_0000, 0x0, 66, 0x2_0000_0000_0000_0000, 0x400_0000_0000);
    assert(div_spec(0x3d3d_4040, 0x3d00_0000) == 0x3fbd_4040);
    assert(0xdb_857f * 0x80 + 0xbd_4040 * 0x1 == 0x6e7f_ffc0);
    lemma_sum_known(0x435b_857f, 0x3fbd_4040, false, 0xdb_857f, 133, 0xbd_4040, 126, 0x80, 0x1, 0x6e7f_ffc0, 31, 0x4000_0000, 0x80);
    assert(add_spec(0x435b_857f, 0x3fbd_4040) == 0x435d_0000);
    lemma_whole_known(0x435d_0000, 0xdd_0000, 133, 0x1_0000);
}

/// The edge of code 220.
proof fn lemma_near_220()
    ensures
        near_exact_edge(0x3f38_2a89, 220),
{
    lemma2_to64();
    lemma2_to64_rest();
    lemma_fifth_powers_of_two();
    lemma_more_fifth_powers_of_two();
    assert(234525nat * 234525 * 234525 == 0x2d_d3e1_3f33_fb45);
    assert(269025nat * 269025 * 269025 == 0x45_2c59_9066_9ca1);
    assert(0x2d_d3e1_3f33_fb45nat * 0x2d_d3e1_3f33_fb45 == 0x834_2c8d_4ca6_2f70_0d84_0a1e_6099nat);
    assert(0x834_2c8d_4ca6_2f70_0d84_0a1e_6099nat * 0x834_2c8d_4ca6_2f70_0d84_0a1e_6099nat == 0x43_4d6a_f5f2_66d0_ecaf_9c66_5f70_a814_7940_cd9a_3969_8aee_bc4f_1b71nat);
    assert(0x45_2c59_9066_9ca1nat * 0x45_2c59_9066_9ca1 == 0x12b0_eff6_c049_6d6d_d948_5020_9d41nat);
    assert(0x12b0_eff6_c049_6d6d_d948_5020_9d41nat * 0x12b0_eff6_c049_6d6d_d948_5020_9d41nat == 0x15d_5c09_8741_6139_2178_92b9_bce5_5f46_89a2_dd05_b95f_0d00_50d8_ca81nat);
    assert(0x398_c3adnat * 0x398_c3ad == 0xc_efbf_0101_02e9);
    assert(0xc_efbf_0101_02e9nat * 0xc_efbf_0101_02e9 == 0xa7_5a6e_4a7a_a8ca_67b4_d7da_7811nat);
    assert(0xa7_5a6e_4a7a_a8ca_67b4_d7da_7811nat * 0x398_c3ad == 0x2_59ec_e755_c812_5ada_efae_8ec0_c530_167dnat);
    assert(0x398_e5adnat * 0x398_e5ad == 0xc_f0b3_997e_f6e9);
    assert(0xc_f0b3_997e_f6e9nat * 0xc_f0b3_997e_f6e9 == 0xa7_7327_a1b5_3863_2bf0_7d80_a011nat);
    assert(0xa7_7327_a1b5_3863_2bf0_7d80_a011nat * 0x398_e5ad == 0x2_5a5c_1198_68b2_074d_b995_d808_1c33_607dnat);
    assert(0x2_59ec_e755_c812_5ada_efae_8ec0_c530_167dnat * 0x15d_5c09_8741_6139_2178_92b9_bce5_5f46_89a2_dd05_b95f_0d00_50d8_ca81nat == 0x335_705e_ea6e_5eae_8f28_2825_1f03_c098_d794_977a_1f72_7a1e_2dfc_50be_a75a_44b9_034e_61e4_5266_cb55_5871_f6fdnat);
    assert(0x2_5a5c_1198_68b2_074d_b995_d808_1c33_607dnat * 0x15d_5c09_8741_6139_2178_92b9_bce5_5f46_89a2_dd05_b95f_0d00_50d8_ca81nat == 0x336_0813_7e96_821a_c4ac_e607_eef1_26c1_a8fe_e6c9_ff81_f381_9d7b_0b52_7d3c_87e2_2dcf_3936_4fe9_74d7_397e_40fdnat);
    assert(0xc35nat * 0x100_0000_0000_0000_0000_0000_0000_0000nat == 0xc_3500_0000_0000_0000_0000_0000_0000_0000nat);
    assert(0x43_4d6a_f5f2_66d0_ecaf_9c66_5f70_a814_7940_cd9a_3969_8aee_bc4f_1b71nat * 0xc_3500_0000_0000_0000_0000_0000_0000_0000nat == 0x335_900a_ac48_0114_593b_b02d_ab0a_33c1_ec24_0dcb_9ed5_5cf4_40b1_a9fa_6500_0000_0000_0000_0000_0000_0000_0000nat);
    lemma_near_above(
        0x3f38_2a89, 0xb8_2a89, 125, 0x100, 0xc_3500_0000_0000_0000_0000_0000_0000_0000nat, 220,
        234525, 0x2d_d3e1_3f33_fb45,
        0x834_2c8d_4ca6_2f70_0d84_0a1e_6099nat,
        0x45_2c59_9066_9ca1, 0x12b0_eff6_c049_6d6d_d948_5020_9d41nat,
        0x398_c3ad, 0xc_efbf_0101_02e9, 0xa7_5a6e_4a7a_a8ca_67b4_d7da_7811nat,
        0x398_e5ad, 0xc_f0b3_997e_f6e9, 0xa7_7327_a1b5_3863_2bf0_7d80_a011nat,
    );
}

/// The value 0x3f3a_0ecc.
proof fn lemma_at_3f3a0ecc()
    ensures
        chord_code(0x3f3a_0ecc, 0x3f35_5e8d, 0x3f3d_5e8d, 0x435b_857f, 0x435f_c028) == 221,
{
    reveal(chord_code);
    lemma2_to64();
    lemma2_to64_rest();
    lemma_high_powers();
    assert(0xbd_5e8d * 0x1 - 0xb5_5e8d * 0x1 == 0x8_0000);
    lemma_sum_known(0x3f3d_5e8d, 0x3f35_5e8d, true, 0xbd_5e8d, 125, 0xb5_5e8d, 125, 0x1, 0x1, 0x8_0000, 20, 0x8_0000, 0x10);
    assert(sub_spec(0x3f3d_5e8d, 0x3f35_5e8d) == 0x3d00_0000);
    assert(0xba_0ecc * 0x1 - 0xb5_5e8d * 0x1 == 0x4_b03f);
    lemma_sum_known(0x3f3a_0ecc, 0x3f35_5e8d, true, 0xba_0ecc, 125, 0xb5_5e8d, 125, 0x1, 0x1, 0x4_b03f, 19, 0x4_0000, 0x20);
    assert(sub_spec(0x3f3a_0ecc, 0x3f35_5e8d) == 0x3c96_07e0);
    assert(0xdf_c028 * 0x1 - 0xdb_857f * 0x1 == 0x4_3aa9);
    lemma_sum_known(0x435f_c028, 0x435b_857f, true, 0xdf_c028, 133, 0xdb_857f, 133, 0x1, 0x1, 0x4_3aa9, 19, 0x4_0000, 0x20);
    assert(sub_spec(0x435f_c028, 0x435b_857f) == 0x4087_5520);
    assert(0x87_5520 * 0x96_07e0 == 0x4f50_0a7e_5c00);
    lemma_product_known(0x4087_5520, 0x3c96_07e0, 0x87_5520, 128, 0x96_07e0, 120, 0x4f50_0a7e_5c00, 47, 0x4000_0000_0000, 0x80_0000);
    assert(mul_spec(0x4087_5520, 0x3c96_07e0) == 0x3d9e_a015);
    assert(0x9e_a015 * 0x1_0000_0000_0000_0000 == 0x1_3d40_2a00_0000_0000 * 0x80_0000 + 0x0);
    lemma_quotient_known(0x3d9e_a015, 0x3d00_0000, 0x9e_a015, 122, 0x80_0000, 121, 0x1_3d40_2a00_0000_0000, 0x0, 66, 0x2_0000_0000_0000_0000, 0x400_0000_0000);
    assert(div_spec(0x3d9e_a015, 0x3d00_0000) == 0x401e_a015);
    assert(0xdb_857f * 0x40 + 0x9e_a015 * 0x1 == 0x377f_ffd5);
    lemma_sum_known(0x435b_857f, 0x401e_a015, false, 0xdb_857f, 133, 0x9e_a015, 127, 0x40, 0x1, 0x377f_ffd5, 30, 0x2000_0000, 0x40);
    assert(add_spec(0x435b_857f, 0x401e_a015) == 0x435d_ffff);
    lemma_whole_known(0x435d_ffff, 0xdd_ffff, 133, 0x1_0000);
}

/// The value 0x3f3a_0ecd.
proof fn lemma_at_3f3a0ecd()
    ensures
        chord_code(0x3f3a_0ecd, 0x3f35_5e8d, 0x3f3d_5e8d, 0x435b_857f, 0x435f_c028) == 222,
{
    reveal(chord_code);
    lemma2_to64();
    lemma2_to64_rest();
    lemma_high_powers();
    assert(0xbd_5e8d * 0x1 - 0xb5_5e8d * 0x1 == 0x8_0000);
    lemma_sum_known(0x3f3d_5e8d, 0x3f35_5e8d, true, 0xbd_5e8d, 125, 0xb5_5e8d, 125, 0x1, 0x1, 0x8_0000, 20, 0x8_0000, 0x10);
    assert(sub_spec(0x3f3d_5e8d, 0x3f35_5e8d) == 0x3d00_0000);
    assert(0xba_0ecd * 0x1 - 0xb5_5e8d * 0x1 == 0x4_b040);
    lemma_sum_known(0x3f3a_0ecd, 0x3f35_5e8d, true, 0xba_0ecd, 125, 0xb5_5e8d, 125, 0x1, 0x1, 0x4_b040, 19, 0x4_0000, 0x20);
    assert(sub_spec(0x3f3a_0ecd, 0x3f35_5e8d) == 0x3c96_0800);
    assert(0xdf_c028 * 0x1 - 0xdb_857f * 0x1 == 0x4_3aa9);
    lemma_sum_known(0x435f_c028, 0x435b_857f, true, 0xdf_c028, 133, 0xdb_857f, 133, 0x1, 0x1, 0x4_3aa9, 19, 0x4_0000, 0x20);
    assert(sub_spec(0x435f_c028, 0x435b_857f) == 0x4087_5520);
    assert(0x87_5520 * 0x96_0800 == 0x4f50_1b69_0000);
    lemma_product_known(0x4087_5520, 0x3c96_0800, 0x87_5520, 128, 0x96_0800, 120, 0x4f50_1b69_0000, 47, 0x4000_0000_0000, 0x80_0000);
    assert(mul_spec(0x4087_5520, 0x3c96_0800) == 0x3d9e_a037);
    assert(0x9e_a037 * 0x1_0000_0000_0000_0000 == 0x1_3d40_6e00_0000_0000 * 0x80_0000 + 0x0);
    lemma_quotient_known(0x3d9e_a037, 0x3d00_0000, 0x9e_a037, 122, 0x80_0000, 121, 0x1_3d40_6e00_0000_0000, 0x0, 66, 0x2_0000_0000_0000_0000, 0x400_0000_0000);
    assert(div_spec(0x3d9e_a037, 0x3d00_0000) == 0x401e_a037);
    assert(0xdb_857f * 0x40 + 0x9e_a037 * 0x1 == 0x377f_fff7);
    lemma_sum_known(0x435b_857f, 0x401e_a037, false, 0xdb_857f, 133, 0x9e_a037, 127, 0x40, 0x1, 0x377f_fff7, 30, 0x2000_0000, 0x40);
    assert(add_spec(0x435b_857f, 0x401e_a037) == 0x435e_0000);
    lemma_whole_known(0x435e_0000, 0xde_0000, 133, 0x1_0000);
}

/// The edge of code 221.
proof fn lemma_near_221()
    ensures
        near_exact_edge(0x3f3a_0ecc, 221),
{
    lemma2_to64();
    lemma2_to64_rest();
    lemma_fifth_powers_of_two();
    lemma_more_fifth_powers_of_two();
    assert(235525nat * 235525 * 235525 == 0x2e_6a97_bacd_887d);
    assert(269025nat * 269025 * 269025 == 0x45_2c59_9066_9ca1);
    assert(0x2e_6a97_bacd_887dnat * 0x2e_6a97_bacd_887d == 0x86a_7ae9_227d_28b9_d6cf_84f7_0d09nat);
    assert(0x86a_7ae9_227d_28b9_d6cf_84f7_0d09nat * 0x86a_7ae9_227d_28b9_d6cf_84f7_0d09nat == 0x46_d3f8_963b_6b60_6e9d_9b32_86e8_5d98_ccd6_1a72_fd63_d469_7007_ea51nat);
    assert(0x45_2c59_9066_9ca1nat * 0x45_2c59_9066_9ca1 == 0x12b0_eff6_c049_6d6d_d948_5020_9d41nat);
    assert(0x12b0_eff6_c049_6d6d_d948_5020_9d41nat * 0x12b0_eff6_c049_6d6d_d948_5020_9d41nat == 0x15d_5c09_8741_6139_2178_92b9_bce5_5f46_89a2_dd05_b95f_0d00_50d8_ca81nat);
    assert(0x3a2_38fcnat * 0x3a2_38fc == 0xd_3422_139f_3810);
    assert(0xd_3422_139f_3810nat * 0xd_3422_139f_3810 == 0xae_5613_daad_9832_6999_1027_0100nat);
    assert(0xae_5613_daad_9832_6999_1027_0100nat * 0x3a2_38fc == 0x2_797b_8291_7e04_2350_76c6_1be6_109c_fc00nat);
    assert(0x3a2_5afcnat * 0x3a2_5afc == 0xd_3519_2f46_2810);
    assert(0xd_3519_2f46_2810nat * 0xd_3519_2f46_2810 == 0xae_6f92_3d2d_62a5_490f_cf05_0100nat);
    assert(0xae_6f92_3d2d_62a5_490f_cf05_0100nat * 0x3a2_5afc == 0x2_79ef_5031_7c56_89ce_a1d1_8a85_2d46_fc00nat);
    assert(0x2_797b_8291_7e04_2350_76c6_1be6_109c_fc00nat * 0x15d_5c09_8741_6139_2178_92b9_bce5_5f46_89a2_dd05_b95f_0d00_50d8_ca81nat == 0x360_8120_f74e_96d7_1bb9_be36_7198_84a3_d799_6fc2_aa48_5317_a77b_ca8a_1bc3_2105_b15e_a059_17f2_ab3e_ddf2_fc00nat);
    assert(0x2_79ef_5031_7c56_89ce_a1d1_8a85_2d46_fc00nat * 0x15d_5c09_8741_6139_2178_92b9_bce5_5f46_89a2_dd05_b95f_0d00_50d8_ca81nat == 0x361_1f29_eca1_3634_f2f3_f1b5_a9a7_6032_7957_d35f_a240_214f_6c9a_77b2_6333_99ac_b45e_49a5_7f34_457a_739c_fc00nat);
    assert(0xc35nat * 0x100_0000_0000_0000_0000_0000_0000_0000nat == 0xc_3500_0000_0000_0000_0000_0000_0000_0000nat);
    assert(0x46_d3f8_963b_6b60_6e9d_9b32_86e8_5d98_ccd6_1a72_fd63_d469_7007_ea51nat * 0xc_3500_0000_0000_0000_0000_0000_0000_0000nat == 0x360_9989_81e3_55c0_2649_e77f_c8d2_7e8a_3c71_90dd_af23_9feb_1490_9f4e_c500_0000_0000_0000_0000_0000_0000_0000nat);
    lemma_near_above(
        0x3f3a_0ecc, 0xba_0ecc, 125, 0x100, 0xc_3500_0000_0000_0000_0000_0000_0000_0000nat, 221,
        235525, 0x2e_6a97_bacd_887d,
        0x86a_7ae9_227d_28b9_d6cf_84f7_0d09nat,
        0x45_2c59_9066_9ca1, 0x12b0_eff6_c049_6d6d_d948_5020_9d41nat,
        0x3a2_38fc, 0xd_3422_139f_3810, 0xae_5613_daad_9832_6999_1027_0100nat,
        0x3a2_5afc, 0xd_3519_2f46_2810, 0xae_6f92_3d2d_62a5_490f_cf05_0100nat,
    );
}

/// The value 0x3f3b_f30e.
proof fn lemma_at_3f3bf30e()
    ensures
        chord_code(0x3f3b_f30e, 0x3f35_5e8d, 0x3f3d_5e8d, 0x435b_857f, 0x435f_c028) == 222,
{
    reveal(chord_code);
    lemma2_to64();
    lemma2_to64_rest();
    lemma_high_powers();
    assert(0xbd_5e8d * 0x1 - 0xb5_5e8d * 0x1 == 0x8_0000);
    lemma_sum_known(0x3f3d_5e8d, 0x3f35_5e8d, true, 0xbd_5e8d, 125, 0xb5_5e8d, 125, 0x1, 0x1, 0x8_0000, 20, 0x8_0000, 0x10);
    assert(sub_spec(0x3f3d_5e8d, 0x3f35_5e8d) == 0x3d00_0000);
    assert(0xbb_f30e * 0x1 - 0xb5_5e8d * 0x1 == 0x6_9481);
    lemma_sum_known(0x3f3b_f30e, 0x3f35_5e8d, true, 0xbb_f30e, 125, 0xb5_5e8d, 125, 0x1, 0x1, 0x6_9481, 19, 0x4_0000, 0x20);
    assert(sub_spec(0x3f3b_f30e, 0x3f35_5e8d) == 0x3cd2_9020);
    assert(0xdf_c028 * 0x1 - 0xdb_857f * 0x1 == 0x4_3aa9);
    lemma_sum_known(0x435f_c028, 0x435b_857f, true, 0xdf_c028, 133, 0xdb_857f, 133, 0x1, 0x1, 0x4_3aa9, 19, 0x4_0000, 0x20);
    assert(sub_spec(0x435f_c028, 0x435b_857f) == 0x4087_5520);
    assert(0x87_5520 * 0xd2_9020 == 0x6f50_050c_a400);
    lemma_product_known(0x4087_5520, 0x3cd2_9020, 0x87_5520, 128, 0xd2_9020, 120, 0x6f50_050c_a400, 47, 0x4000_0000_0000, 0x80_0000);
    assert(mul_spec(0x4087_5520, 0x3cd2_9020) == 0x3dde_a00a);
    assert(0xde_a00a * 0x1_0000_0000_0000_0000 == 0x1_bd40_1400_0000_0000 * 0x80_0000 + 0x0);
    lemma_quotient_known(0x3dde_a00a, 0x3d00_0000, 0xde_a00a, 122, 0x80_0000, 121, 0x1_bd40_1400_0000_0000, 0x0, 66, 0x2_0000_0000_0000_0000, 0x400_0000_0000);
    assert(div_spec(0x3dde_a00a, 0x3d00_0000) == 0x405e_a00a);
    assert(0xdb_857f * 0x40 + 0xde_a00a * 0x1 == 0x37bf_ffca);
    lemma_sum_known(0x435b_857f, 0x405e_a00a, false, 0xdb_857f, 133, 0xde_a00a, 127, 0x40, 0x1, 0x37bf_ffca, 30, 0x2000_0000, 0x40);
    assert(add_spec(0x435b_857f, 0x405e_a00a) == 0x435e_ffff);
    lemma_whole_known(0x435e_ffff, 0xde_ffff, 133, 0x1_0000);
}

/// The value 0x3f3b_f30f.
proof fn lemma_at_3f3bf30f()
    ensures
        chord_code(0x3f3b_f30f, 0x3f35_5e8d, 0x3f3d_5e8d, 0x435b_857f, 0x435f_c028) == 223,
{
    reveal(chord_code);
    lemma2_to64();
    lemma2_to64_rest();
    lemma_high_powers();
    assert(0xbd_5e8d * 0x1 - 0xb5_5e8d * 0x1 == 0x8_0000);
    lemma_sum_known(0x3f3d_5e8d, 0x3f35_5e8d, true, 0xbd_5e8d, 125, 0xb5_5e8d, 125, 0x1, 0x1, 0x8_0000, 20, 0x8_0000, 0x10);
    assert(sub_spec(0x3f3d_5e8d, 0x3f35_5e8d) == 0x3d00_0000);
    assert(0xbb_f30f * 0x1 - 0xb5_5e8d * 0x1 == 0x6_9482);
    lemma_sum_known(0x3f3b_f30f, 0x3f35_5e8d, true, 0xbb_f30f, 125, 0xb5_5e8d, 125, 0x1, 0x1, 0x6_9482, 19, 0x4_0000, 0x20);
    assert(sub_spec(0x3f3b_f30f, 0x3f35_5e8d) == 0x3cd2_9040);
    assert(0xdf_c028 * 0x1 - 0xdb_857f * 0x1 == 0x4_3aa9);
    lemma_sum_known(0x435f_c028, 0x435b_857f, true, 0xdf_c028, 133, 0xdb_857f, 133, 0x1, 0x1, 0x4_3aa9, 19, 0x4_0000, 0x20);
    assert(sub_spec(0x435f_c028, 0x435b_857f) == 0x4087_5520);
    assert(0x87_5520 * 0xd2_9040 == 0x6f50_15f7_4800);
    lemma_product_known(0x4087_5520, 0x3cd2_9040, 0x87_5520, 128, 0xd2_9040, 120, 0x6f50_15f7_4800, 47, 0x4000_0000_0000, 0x80_0000);
    assert(mul_spec(0x4087_5520, 0x3cd2_9040) == 0x3dde_a02c);
    assert(0xde_a02c * 0x1_0000_0000_0000_0000 == 0x1_bd40_5800_0000_0000 * 0x80_0000 + 0x0);
    lemma_quotient_known(0x3dde_a02c, 0x3d00_0000, 0xde_a02c, 122, 0x80_0000, 121, 0x1_bd40_5800_0000_0000, 0x0, 66, 0x2_0000_0000_0000_0000, 0x400_0000_0000);
    assert(div_spec(0x3dde_a02c, 0x3d00_0000) == 0x405e_a02c);
    assert(0xdb_857f * 0x40 + 0xde_a02c * 0x1 == 0x37bf_ffec);
    lemma_sum_known(0x435b_857f, 0x405e_a02c, false, 0xdb_857f, 133, 0xde_a02c, 127, 0x40, 0x1, 0x37bf_ffec, 30, 0x2000_0000, 0x40);
    assert(add_spec(0x435b_857f, 0x405e_a02c) == 0x435f_0000);
    lemma_whole_known(0x435f_0000, 0xdf_0000, 133, 0x1_0000);
}

/// The edge of code 222.
proof fn lemma_near_222()
    ensures
        near_exact_edge(0x3f3b_f30e, 222),
{
    lemma2_to64();
    lemma2_to64_rest();
    lemma_fifth_powers_of_two();
    lemma_more_fifth_powers_of_two();
    assert(236525nat * 236525 * 236525 == 0x2f_0297_3cb4_d935);
    assert(269025nat * 269025 * 269025 == 0x45_2c59_9066_9ca1);
    assert(0x2f_0297_3cb4_d935nat * 0x2f_0297_3cb4_d935 == 0x8a1_f38f_00b3_4098_5619_02d2_e4f9nat);
    assert(0x8a1_f38f_00b3_4098_5619_02d2_e4f9nat * 0x8a1_f38f_00b3_4098_5619_02d2_e4f9nat == 0x4a_85ad_31a2_e0b6_d9e1_b6c9_cc36_042b_532b_d179_a6bf_fdf2_5950_7a31nat);
    assert(0x45_2c59_9066_9ca1nat * 0x45_2c59_9066_9ca1 == 0x12b0_eff6_c049_6d6d_d948_5020_9d41nat);
    assert(0x12b0_eff6_c049_6d6d_d948_5020_9d41nat * 0x12b0_eff6_c049_6d6d_d948_5020_9d41nat == 0x15d_5c09_8741_6139_2178_92b9_bce5_5f46_89a2_dd05_b95f_0d00_50d8_ca81nat);
    assert(0x3ab_ae46nat * 0x3ab_ae46 == 0xd_7937_ec27_3b24);
    assert(0xd_7937_ec27_3b24nat * 0xd_7937_ec27_3b24 == 0xb5_8913_e570_6a43_cc85_72a1_9d10nat);
    assert(0xb5_8913_e570_6a43_cc85_72a1_9d10nat * 0x3ab_ae46 == 0x2_9a59_60c9_94b8_eba6_5108_1732_4aa1_d260nat);
    assert(0x3ab_d046nat * 0x3ab_d046 == 0xd_7a31_8af5_d324);
    assert(0xd_7a31_8af5_d324nat * 0xd_7a31_8af5_d324 == 0xb5_a35b_5f00_3c6f_1778_a10c_5d10nat);
    assert(0xb5_a35b_5f00_3c6f_1778_a10c_5d10nat * 0x3ab_d046 == 0x2_9ad1_f68a_5e09_d6a5_e0e9_262f_6eae_7260nat);
    assert(0x2_9a59_60c9_94b8_eba6_5108_1732_4aa1_d260nat * 0x15d_5c09_8741_6139_2178_92b9_bce5_5f46_89a2_dd05_b95f_0d00_50d8_ca81nat == 0x38d_5b69_decb_e86e_643b_18bd_e3bd_18cb_5278_6f81_e8a5_127b_acd3_7409_4b5a_501f_ae13_0d91_2a71_c982_cc8a_c260nat);
    assert(0x2_9ad1_f68a_5e09_d6a5_e0e9_262f_6eae_7260nat * 0x15d_5c09_8741_6139_2178_92b9_bce5_5f46_89a2_dd05_b95f_0d00_50d8_ca81nat == 0x38d_fff9_60ec_9da3_66b2_4b06_582d_0eb3_016b_fb84_57e2_dea3_5f2a_640e_003f_322a_e4fe_5598_05a8_722a_ed27_6260nat);
    assert(0xc35nat * 0x100_0000_0000_0000_0000_0000_0000_0000nat == 0xc_3500_0000_0000_0000_0000_0000_0000_0000nat);
    assert(0x4a_85ad_31a2_e0b6_d9e1_b6c9_cc36_042b_532b_d179_a6bf_fdf2_5950_7a31nat * 0xc_3500_0000_0000_0000_0000_0000_0000_0000nat == 0x38d_b1cb_2ee9_4118_11b0_4c4d_59cf_60e4_de45_e412_0085_a6ef_5c43_6398_2500_0000_0000_0000_0000_0000_0000_0000nat);
    lemma_near_above(
        0x3f3b_f30e, 0xbb_f30e, 125, 0x100, 0xc_3500_0000_0000_0000_0000_0000_0000_0000nat, 222,
        236525, 0x2f_0297_3cb4_d935,
        0x8a1_f38f_00b3_4098_5619_02d2_e4f9nat,
        0x45_2c59_9066_9ca1, 0x12b0_eff6_c049_6d6d_d948_5020_9d41nat,
        0x3ab_ae46, 0xd_7937_ec27_3b24, 0xb5_8913_e570_6a43_cc85_72a1_9d10nat,
        0x3ab_d046, 0xd_7a31_8af5_d324, 0xb5_a35b_5f00_3c6f_1778_a10c_5d10nat,
    );
}

/// The value 0x3f3d_da57.
proof fn lemma_at_3f3dda57()
    ensures
        chord_code(0x3f3d_da57, 0x3f3d_5e8d, 0x3f45_5e8d, 0x435f_c028, 0x4363_e05d) == 223,
{
    reveal(chord_code);
    lemma2_to64();
    lemma2_to64_rest();
    lemma_high_powers();
    assert(0xc5_5e8d * 0x1 - 0xbd_5e8d * 0x1 == 0x8_0000);
    lemma_sum_known(0x3f45_5e8d, 0x3f3d_5e8d, true, 0xc5_5e8d, 125, 0xbd_5e8d, 125, 0x1, 0x1, 0x8_0000, 20, 0x8_0000, 0x10);
    assert(sub_spec(0x3f45_5e8d, 0x3f3d_5e8d) == 0x3d00_0000);
    assert(0xbd_da57 * 0x1 - 0xbd_5e8d * 0x1 == 0x7bca);
    lemma_sum_known(0x3f3d_da57, 0x3f3d_5e8d, true, 0xbd_da57, 125, 0xbd_5e8d, 125, 0x1, 0x1, 0x7bca, 15, 0x4000, 0x200);
    assert(sub_spec(0x3f3d_da57, 0x3f3d_5e8d) == 0x3af7_9400);
    assert(0xe3_e05d * 0x1 - 0xdf_c028 * 0x1 == 0x4_2035);
    lemma_sum_known(0x4363_e05d, 0x435f_c028, true, 0xe3_e05d, 133, 0xdf_c028, 133, 0x1, 0x1, 0x4_2035, 19, 0x4_0000, 0x20);
    assert(sub_spec(0x4363_e05d, 0x435f_c028) == 0x4084_06a0);
    assert(0x84_06a0 * 0xf7_9400 == 0x7fae_b834_8000);
    lemma_product_known(0x4084_06a0, 0x3af7_9400, 0x84_06a0, 128, 0xf7_9400, 116, 0x7fae_b834_8000, 47, 0x4000_0000_0000, 0x80_0000);
    assert(mul_spec(0x4084_06a0, 0x3af7_9400) == 0x3bff_5d70);
    assert(0xff_5d70 * 0x1_0000_0000_0000_0000 == 0x1_feba_e000_0000_0000 * 0x80_0000 + 0x0);
    lemma_quotient_known(0x3bff_5d70, 0x3d00_0000, 0xff_5d70, 118, 0x80_0000, 121, 0x1_feba_e000_0000_0000, 0x0, 66, 0x2_0000_0000_0000_0000, 0x400_0000_0000);
    assert(div_spec(0x3bff_5d70, 0x3d00_0000) == 0x3e7f_5d70);
    assert(0xdf_c028 * 0x400 + 0xff_5d70 * 0x1 == 0x3_7fff_fd70);
    lemma_sum_known(0x435f_c028, 0x3e7f_5d70, false, 0xdf_c028, 133, 0xff_5d70, 123, 0x400, 0x1, 0x3_7fff_fd70, 34, 0x2_0000_0000, 0x400);
    assert(add_spec(0x435f_c028, 0x3e7f_5d70) == 0x435f_ffff);
    lemma_whole_known(0x435f_ffff, 0xdf_ffff, 133, 0x1_0000);
}

/// The value 0x3f3d_da58.
proof fn lemma_at_3f3dda58()
    ensures
        chord_code(0x3f3d_da58, 0x3f3d_5e8d, 0x3f45_5e8d, 0x435f_c028, 0x4363_e05d) == 224,
{
    reveal(chord_code);
    lemma2_to64();
    lemma2_to64_rest();
    lemma_high_powers();
    assert(0xc5_5e8d * 0x1 - 0xbd_5e8d * 0x1 == 0x8_0000);
    lemma_sum_known(0x3f45_5e8d, 0x3f3d_5e8d, true, 0xc5_5e8d, 125, 0xbd_5e8d, 125, 0x1, 0x1, 0x8_0000, 20, 0x8_0000, 0x10);
    assert(sub_spec(0x3f45_5e8d, 0x3f3d_5e8d) == 0x3d00_0000);
    assert(0xbd_da58 * 0x1 - 0xbd_5e8d * 0x1 == 0x7bcb);
    lemma_sum_known(0x3f3d_da58, 0x3f3d_5e8d, true, 0xbd_da58, 125, 0xbd_5e8d, 125, 0x1, 0x1, 0x7bcb, 15, 0x4000, 0x200);
    assert(sub_spec(0x3f3d_da58, 0x3f3d_5e8d) == 0x3af7_9600);
    assert(0xe3_e05d * 0x1 - 0xdf_c028 * 0x1 == 0x4_2035);
    lemma_sum_known(0x4363_e05d, 0x435f_c028, true, 0xe3_e05d, 133, 0xdf_c028, 133, 0x1, 0x1, 0x4_2035, 19, 0x4_0000, 0x20);
    assert(sub_spec(0x4363_e05d, 0x435f_c028) == 0x4084_06a0);
    assert(0x84_06a0 * 0xf7_9600 == 0x7faf_c041_c000);
    lemma_product_known(0x4084_06a0, 0x3af7_9600, 0x84_06a0, 128, 0xf7_9600, 116, 0x7faf_c041_c000, 47, 0x4000_0000_0000, 0x80_0000);
    assert(mul_spec(0x4084_06a0, 0x3af7_9600) == 0x3bff_5f81);
    assert(0xff_5f81 * 0x1_0000_0000_0000_0000 == 0x1_febf_0200_0000_0000 * 0x80_0000 + 0x0);
    lemma_quotient_known(0x3bff_5f81, 0x3d00_0000, 0xff_5f81, 118, 0x80_0000, 121, 0x1_febf_0200_0000_0000, 0x0, 66, 0x2_0000_0000_0000_0000, 0x400_0000_0000);
    assert(div_spec(0x3bff_5f81, 0x3d00_0000) == 0x3e7f_5f81);
    assert(0xdf_c028 * 0x400 + 0xff_5f81 * 0x1 == 0x3_7fff_ff81);
    lemma_sum_known(0x435f_c028, 0x3e7f_5f81, false, 0xdf_c028, 133, 0xff_5f81, 123, 0x400, 0x1, 0x3_7fff_ff81, 34, 0x2_0000_0000, 0x400);
    assert(add_spec(0x435f_c028, 0x3e7f_5f81) == 0x4360_0000);
    lemma_whole_known(0x4360_0000, 0xe0_0000, 133, 0x1_0000);
}

/// The edge of code 223.
proof fn lemma_near_223()
    ensures
        near_exact_edge(0x3f3d_da57, 223),
{
    lemma2_to64();
    lemma2_to64_rest();
    lemma_fifth_powers_of_two();
    lemma_more_fifth_powers_of_two();
    assert(237525nat * 237525 * 237525 == 0x2f_9be1_2a8a_a96d);
    assert(269025nat * 269025 * 269025 == 0x45_2c59_9066_9ca1);
    assert(0x2f_9be1_2a8a_a96dnat * 0x2f_9be1_2a8a_a96d == 0x8da_9b98_0e79_edff_9a4c_dda5_1869nat);
    assert(0x8da_9b98_0e79_edff_9a4c_dda5_1869nat * 0x8da_9b98_0e79_edff_9a4c_dda5_1869nat == 0x4e_6466_de71_c262_28c7_4d3e_ec24_ca3e_cbf2_5f1a_0679_48f5_c3ad_db11nat);
    assert(0x45_2c59_9066_9ca1nat * 0x45_2c59_9066_9ca1 == 0x12b0_eff6_c049_6d6d_d948_5020_9d41nat);
    assert(0x12b0_eff6_c049_6d6d_d948_5020_9d41nat * 0x12b0_eff6_c049_6d6d_d948_5020_9d41nat == 0x15d_5c09_8741_6139_2178_92b9_bce5_5f46_89a2_dd05_b95f_0d00_50d8_ca81nat);
    assert(0x3b5_32b3nat * 0x3b5_32b3 == 0xd_bf70_ed28_6929);
    assert(0xd_bf70_ed28_6929nat * 0xd_bf70_ed28_6929 == 0xbd_00a1_c9cd_5a25_0af6_f202_a891nat);
    assert(0xbd_00a1_c9cd_5a25_0af6_f202_a891nat * 0x3b5_32b3 == 0x2_bcc8_c608_20c9_6182_e97a_09ca_9e4d_2f63nat);
    assert(0x3b5_54b3nat * 0x3b5_54b3 == 0xd_c06d_1323_f529);
    assert(0xd_c06d_1323_f529nat * 0xd_c06d_1323_f529 == 0xbd_1bb7_bcd6_23f4_a05b_09fd_8091nat);
    assert(0xbd_1bb7_bcd6_23f4_a05b_09fd_8091nat * 0x3b5_54b3 == 0x2_bd46_5171_b142_975d_da26_07ac_c3f5_7963nat);
    assert(0x2_bcc8_c608_20c9_6182_e97a_09ca_9e4d_2f63nat * 0x15d_5c09_8741_6139_2178_92b9_bce5_5f46_89a2_dd05_b95f_0d00_50d8_ca81nat == 0x3bc_59a8_358f_6e28_7e4f_67f5_a357_5461_4ea0_0d98_7c43_411e_c0b2_239b_c2cf_9076_8dfc_c515_92cb_86f1_97d0_fee3nat);
    assert(0x2_bd46_5171_b142_975d_da26_07ac_c3f5_7963nat * 0x15d_5c09_8741_6139_2178_92b9_bce5_5f46_89a2_dd05_b95f_0d00_50d8_ca81nat == 0x3bd_04fc_673f_8e9d_4c3c_2425_2988_8e17_6cb8_fdba_25b7_2497_8db9_d92b_da78_ec4c_13b2_ff9c_7421_44bb_cc02_48e3nat);
    assert(0xc35nat * 0x100_0000_0000_0000_0000_0000_0000_0000nat == 0xc_3500_0000_0000_0000_0000_0000_0000_0000nat);
    assert(0x4e_6466_de71_c262_28c7_4d3e_ec24_ca3e_cbf2_5f1a_0679_48f5_c3ad_db11nat * 0xc_3500_0000_0000_0000_0000_0000_0000_0000nat == 0x3bc_ef9b_b962_a9d8_3bc8_e1f1_189d_18d0_8f95_a2e8_b106_87a0_0da9_4326_8500_0000_0000_0000_0000_0000_0000_0000nat);
    lemma_near_above(
        0x3f3d_da57, 0xbd_da57, 125, 0x100, 0xc_3500_0000_0000_0000_0000_0000_0000_0000nat, 223,
        237525, 0x2f_9be1_2a8a_a96d,
        0x8da_9b98_0e79_edff_9a4c_dda5_1869nat,
        0x45_2c59_9066_9ca1, 0x12b0_eff6_c049_6d6d_d948_5020_9d41nat,
        0x3b5_32b3, 0xd_bf70_ed28_6929, 0xbd_00a1_c9cd_5a25_0af6_f202_a891nat,
        0x3b5_54b3, 0xd_c06d_1323_f529, 0xbd_1bb7_bcd6_23f4_a05b_09fd_8091nat,
    );
}

/// The value 0x3f3f_caba.
proof fn lemma_at_3f3fcaba()
    ensures
        chord_code(0x3f3f_caba, 0x3f3d_5e8d, 0x3f45_5e8d, 0x435f_c028, 0x4363_e05d) == 224,
{
    reveal(chord_code);
    lemma2_to64();
    lemma2_to64_rest();
    lemma_high_powers();
    assert(0xc5_5e8d * 0x1 - 0xbd_5e8d * 0x1 == 0x8_0000);
    lemma_sum_known(0x3f45_5e8d, 0x3f3d_5e8d, true, 0xc5_5e8d, 125, 0xbd_5e8d, 125, 0x1, 0x1, 0x8_0000, 20, 0x8_0000, 0x10);
    assert(sub_spec(0x3f45_5e8d, 0x3f3d_5e8d) == 0x3d00_0000);
    assert(0xbf_caba * 0x1 - 0xbd_5e8d * 0x1 == 0x2_6c2d);
    lemma_sum_known(0x3f3f_caba, 0x3f3d_5e8d, true, 0xbf_caba, 125, 0xbd_5e8d, 125, 0x1, 0x1, 0x2_6c2d, 18, 0x2_0000, 0x40);
    assert(sub_spec(0x3f3f_caba, 0x3f3d_5e8d) == 0x3c1b_0b40);
    assert(0xe3_e05d * 0x1 - 0xdf_c028 * 0x1 == 0x4_2035);
    lemma_sum_known(0x4363_e05d, 0x435f_c028, true, 0xe3_e05d, 133, 0xdf_c028, 133, 0x1, 0x1, 0x4_2035, 19, 0x4_0000, 0x20);
    assert(sub_spec(0x4363_e05d, 0x435f_c028) == 0x4084_06a0);
    assert(0x84_06a0 * 0x9b_0b40 == 0x4ff5_d02a_8800);
    lemma_product_known(0x4084_06a0, 0x3c1b_0b40, 0x84_06a0, 128, 0x9b_0b40, 119, 0x4ff5_d02a_8800, 47, 0x4000_0000_0000, 0x80_0000);
    assert(mul_spec(0x4084_06a0, 0x3c1b_0b40) == 0x3d1f_eba0);
    assert(0x9f_eba0 * 0x1_0000_0000_0000_0000 == 0x1_3fd7_4000_0000_0000 * 0x80_0000 + 0x0);
    lemma_quotient_known(0x3d1f_eba0, 0x3d00_0000, 0x9f_eba0, 121, 0x80_0000, 121, 0x1_3fd7_4000_0000_0000, 0x0, 66, 0x2_0000_0000_0000_0000, 0x400_0000_0000);
    assert(div_spec(0x3d1f_eba0, 0x3d00_0000) == 0x3f9f_eba0);
    assert(0xdf_c028 * 0x80 + 0x9f_eba0 * 0x1 == 0x707f_ffa0);
    lemma_sum_known(0x435f_c028, 0x3f9f_eba0, false, 0xdf_c028, 133, 0x9f_eba0, 126, 0x80, 0x1, 0x707f_ffa0, 31, 0x4000_0000, 0x80);
    assert(add_spec(0x435f_c028, 0x3f9f_eba0) == 0x4360_ffff);
    lemma_whole_known(0x4360_ffff, 0xe0_ffff, 133, 0x1_0000);
}

/// The value 0x3f3f_cabb.
proof fn lemma_at_3f3fcabb()
    ensures
        chord_code(0x3f3f_cabb, 0x3f3d_5e8d, 0x3f45_5e8d, 0x435f_c028, 0x4363_e05d) == 225,
{
    reveal(chord_code);
    lemma2_to64();
    lemma2_to64_rest();
    lemma_high_powers();
    assert(0xc5_5e8d * 0x1 - 0xbd_5e8d * 0x1 == 0x8_0000);
    lemma_sum_known(0x3f45_5e8d, 0x3f3d_5e8d, true, 0xc5_5e8d, 125, 0xbd_5e8d, 125, 0x1, 0x1, 0x8_0000, 20, 0x8_0000, 0x10);
    assert(sub_spec(0x3f45_5e8d, 0x3f3d_5e8d) == 0x3d00_0000);
    assert(0xbf_cabb * 0x1 - 0xbd_5e8d * 0x1 == 0x2_6c2e);
    lemma_sum_known(0x3f3f_cabb, 0x3f3d_5e8d, true, 0xbf_cabb, 125, 0xbd_5e8d, 125, 0x1, 0x1, 0x2_6c2e, 18, 0x2_0000, 0x40);
    assert(sub_spec(0x3f3f_cabb, 0x3f3d_5e8d) == 0x3c1b_0b80);
    assert(0xe3_e05d * 0x1 - 0xdf_c028 * 0x1 == 0x4_2035);
    lemma_sum_known(0x4363_e05d, 0x435f_c028, true, 0xe3_e05d, 133, 0xdf_c028, 133, 0x1, 0x1, 0x4_2035, 19, 0x4_0000, 0x20);
    assert(sub_spec(0x4363_e05d, 0x435f_c028) == 0x4084_06a0);
    assert(0x84_06a0 * 0x9b_0b80 == 0x4ff5_f12c_3000);
    lemma_product_known(0x4084_06a0, 0x3c1b_0b80, 0x84_06a0, 128, 0x9b_0b80, 119, 0x4ff5_f12c_3000, 47, 0x4000_0000_0000, 0x80_0000);
    assert(mul_spec(0x4084_06a0, 0x3c1b_0b80) == 0x3d1f_ebe2);
    assert(0x9f_ebe2 * 0x1_0000_0000_0000_0000 == 0x1_3fd7_c400_0000_0000 * 0x80_0000 + 0x0);
    lemma_quotient_known(0x3d1f_ebe2, 0x3d00_0000, 0x9f_ebe2, 121, 0x80_0000, 121, 0x1_3fd7_c400_0000_0000, 0x0, 66, 0x2_0000_0000_0000_0000, 0x400_0000_0000);
    assert(div_spec(0x3d1f_ebe2, 0x3d00_0000) == 0x3f9f_ebe2);
    assert(0xdf_c028 * 0x80 + 0x9f_ebe2 * 0x1 == 0x707f_ffe2);
    lemma_sum_known(0x435f_c028, 0x3f9f_ebe2, false, 0xdf_c028, 133, 0x9f_ebe2, 126, 0x80, 0x1, 0x707f_ffe2, 31, 0x4000_0000, 0x80);
    assert(add_spec(0x435f_c028, 0x3f9f_ebe2) == 0x4361_0000);
    lemma_whole_known(0x4361_0000, 0xe1_0000, 133, 0x1_0000);
}

/// The edge of code 224.
proof fn lemma_near_224()
    ensures
        near_exact_edge(0x3f3f_caba, 224),
{
    lemma2_to64();
    lemma2_to64_rest();
    lemma_fifth_powers_of_two();
    lemma_more_fifth_powers_of_two();
    assert(238525nat * 238525 * 238525 == 0x30_3676_e9ef_b525);
    assert(269025nat * 269025 * 269025 == 0x45_2c59_9066_9ca1);
    assert(0x30_3676_e9ef_b525nat * 0x30_3676_e9ef_b525 == 0x914_782e_1bd1_8d0c_d24d_1543_5759nat);
    assert(0x914_782e_1bd1_8d0c_d24d_1543_5759nat * 0x914_782e_1bd1_8d0c_d24d_1543_5759nat == 0x52_7216_3d94_570b_675a_dc96_374f_72a5_0dc6_1ff2_81ec_ad95_7063_9cf1nat);
    assert(0x45_2c59_9066_9ca1nat * 0x45_2c59_9066_9ca1 == 0x12b0_eff6_c049_6d6d_d948_5020_9d41nat);
    assert(0x12b0_eff6_c049_6d6d_d948_5020_9d41nat * 0x12b0_eff6_c049_6d6d_d948_5020_9d41nat == 0x15d_5c09_8741_6139_2178_92b9_bce5_5f46_89a2_dd05_b95f_0d00_50d8_ca81nat);
    assert(0x3be_e4a2nat * 0x3be_e4a2 == 0xe_07b3_f8a8_f684);
    assert(0xe_07b3_f8a8_f684nat * 0xe_07b3_f8a8_f684 == 0xc4_d7ea_8899_e1bb_c1bc_3aa1_f410nat);
    assert(0xc4_d7ea_8899_e1bb_c1bc_3aa1_f410nat * 0x3be_e4a2 == 0x2_e14f_cc88_b3ee_3b0b_0fbf_a764_abba_b220nat);
    assert(0x3bf_06a2nat * 0x3bf_06a2 == 0xe_08b2_b1e7_fe84);
    assert(0xe_08b2_b1e7_fe84nat * 0xe_08b2_b1e7_fe84 == 0xc4_f3d7_1d3a_3898_cfbf_d742_3410nat);
    assert(0xc4_f3d7_1d3a_3898_cfbf_d742_3410nat * 0x3bf_06a2 == 0x2_e1d2_8d2f_d5e9_e09d_a539_5772_cd0d_5220nat);
    assert(0x2_e14f_cc88_b3ee_3b0b_0fbf_a764_abba_b220nat * 0x15d_5c09_8741_6139_2178_92b9_bce5_5f46_89a2_dd05_b95f_0d00_50d8_ca81nat == 0x3ee_32dd_f539_ff61_3bef_b9ec_be4c_a0d1_cd05_a17a_b6cf_99bf_673d_4090_704a_71a4_e484_855e_912f_a66c_24a1_0220nat);
    assert(0x2_e1d2_8d2f_d5e9_e09d_a539_5772_cd0d_5220nat * 0x15d_5c09_8741_6139_2178_92b9_bce5_5f46_89a2_dd05_b95f_0d00_50d8_ca81nat == 0x3ee_e54d_9b2d_3e85_4ba7_a767_ca62_3e0a_a6a2_0bcf_826e_6d3c_8a0b_7b05_a3c2_41ad_0b5d_aed9_70e2_738d_2183_a220nat);
    assert(0xc35nat * 0x100_0000_0000_0000_0000_0000_0000_0000nat == 0xc_3500_0000_0000_0000_0000_0000_0000_0000nat);
    assert(0x52_7216_3d94_570b_675a_dc96_374f_72a5_0dc6_1ff2_81ec_ad95_7063_9cf1nat * 0xc_3500_0000_0000_0000_0000_0000_0000_0000nat == 0x3ee_6aa9_7db3_ca8e_34a8_26b5_b12c_d278_d123_83fb_4bfe_22f1_34ef_fac9_e500_0000_0000_0000_0000_0000_0000_0000nat);
    lemma_near_above(
        0x3f3f_caba, 0xbf_caba, 125, 0x100, 0xc_3500_0000_0000_0000_0000_0000_0000_0000nat, 224,
        238525, 0x30_3676_e9ef_b525,
        0x914_782e_1bd1_8d0c_d24d_1543_5759nat,
        0x45_2c59_9066_9ca1, 0x12b0_eff6_c049_6d6d_d948_5020_9d41nat,
        0x3be_e4a2, 0xe_07b3_f8a8_f684, 0xc4_d7ea_8899_e1bb_c1bc_3aa1_f410nat,
        0x3bf_06a2, 0xe_08b2_b1e7_fe84, 0xc4_f3d7_1d3a_3898_cfbf_d742_3410nat,
    );
}

/// The value 0x3f41_bb1d.
proof fn lemma_at_3f41bb1d()
    ensures
        chord_code(0x3f41_bb1d, 0x3f3d_5e8d, 0x3f45_5e8d, 0x435f_c028, 0x4363_e05d) == 225,
{
    reveal(chord_code);
    lemma2_to64();
    lemma2_to64_rest();
    lemma_high_powers();
    assert(0xc5_5e8d * 0x1 - 0xbd_5e8d * 0x1 == 0x8_0000);
    lemma_sum_known(0x3f45_5e8d, 0x3f3d_5e8d, true, 0xc5_5e8d, 125, 0xbd_5e8d, 125, 0x1, 0x1, 0x8_0000, 20, 0x8_0000, 0x10);
    assert(sub_spec(0x3f45_5e8d, 0x3f3d_5e8d) == 0x3d00_0000);
    assert(0xc1_bb1d * 0x1 - 0xbd_5e8d * 0x1 == 0x4_5c90);
    lemma_sum_known(0x3f41_bb1d, 0x3f3d_5e8d, true, 0xc1_bb1d, 125, 0xbd_5e8d, 125, 0x1, 0x1, 0x4_5c90, 19, 0x4_0000, 0x20);
    assert(sub_spec(0x3f41_bb1d, 0x3f3d_5e8d) == 0x3c8b_9200);
    assert(0xe3_e05d * 0x1 - 0xdf_c028 * 0x1 == 0x4_2035);
    lemma_sum_known(0x4363_e05d, 0x435f_c028, true, 0xe3_e05d, 133, 0xdf_c028, 133, 0x1, 0x1, 0x4_2035, 19, 0x4_0000, 0x20);
    assert(sub_spec(0x4363_e05d, 0x435f_c028) == 0x4084_06a0);
    assert(0x84_06a0 * 0x8b_9200 == 0x47fa_e4a7_4000);
    lemma_product_known(0x4084_06a0, 0x3c8b_9200, 0x84_06a0, 128, 0x8b_9200, 120, 0x47fa_e4a7_4000, 47, 0x4000_0000_0000, 0x80_0000);
    assert(mul_spec(0x4084_06a0, 0x3c8b_9200) == 0x3d8f_f5c9);
    assert(0x8f_f5c9 * 0x1_0000_0000_0000_0000 == 0x1_1feb_9200_0000_0000 * 0x80_0000 + 0x0);
    lemma_quotient_known(0x3d8f_f5c9, 0x3d00_0000, 0x8f_f5c9, 122, 0x80_0000, 121, 0x1_1feb_9200_0000_0000, 0x0, 66, 0x2_0000_0000_0000_0000, 0x400_0000_0000);
    assert(div_spec(0x3d8f_f5c9, 0x3d00_0000) == 0x400f_f5c9);
    assert(0xdf_c028 * 0x40 + 0x8f_f5c9 * 0x1 == 0x387f_ffc9);
    lemma_sum_known(0x435f_c028, 0x400f_f5c9, false, 0xdf_c028, 133, 0x8f_f5c9, 127, 0x40, 0x1, 0x387f_ffc9, 30, 0x2000_0000, 0x40);
    assert(add_spec(0x435f_c028, 0x400f_f5c9) == 0x4361_ffff);
    lemma_whole_known(0x4361_ffff, 0xe1_ffff, 133, 0x1_0000);
}

/// The value 0x3f41_bb1e.
proof fn lemma_at_3f41bb1e()
    ensures
        chord_code(0x3f41_bb1e, 0x3f3d_5e8d, 0x3f45_5e8d, 0x435f_c028, 0x4363_e05d) == 226,
{
    reveal(chord_code);
    lemma2_to64();
    lemma2_to64_rest();
    lemma_high_powers();
    assert(0xc5_5e8d * 0x1 - 0xbd_5e8d * 0x1 == 0x8_0000);
    lemma_sum_known(0x3f45_5e8d, 0x3f3d_5e8d, true, 0xc5_5e8d, 125, 0xbd_5e8d, 125, 0x1, 0x1, 0x8_0000, 20, 0x8_0000, 0x10);
    assert(sub_spec(0x3f45_5e8d, 0x3f3d_5e8d) == 0x3d00_0000);
    assert(0xc1_bb1e * 0x1 - 0xbd_5e8d * 0x1 == 0x4_5c91);
    lemma_sum_known(0x3f41_bb1e, 0x3f3d_5e8d, true, 0xc1_bb1e, 125, 0xbd_5e8d, 125, 0x1, 0x1, 0x4_5c91, 19, 0x4_0000, 0x20);
    assert(sub_spec(0x3f41_bb1e, 0x3f3d_5e8d) == 0x3c8b_9220);
    assert(0xe3_e05d * 0x1 - 0xdf_c028 * 0x1 == 0x4_2035);
    lemma_sum_known(0x4363_e05d, 0x435f_c028, true, 0xe3_e05d, 133, 0xdf_c028, 133, 0x1, 0x1, 0x4_2035, 19, 0x4_0000, 0x20);
    assert(sub_spec(0x4363_e05d, 0x435f_c028) == 0x4084_06a0);
    assert(0x84_06a0 * 0x8b_9220 == 0x47fa_f528_1400);
    lemma_product_known(0x4084_06a0, 0x3c8b_9220, 0x84_06a0, 128, 0x8b_9220, 120, 0x47fa_f528_1400, 47, 0x4000_0000_0000, 0x80_0000);
    assert(mul_spec(0x4084_06a0, 0x3c8b_9220) == 0x3d8f_f5ea);
    assert(0x8f_f5ea * 0x1_0000_0000_0000_0000 == 0x1_1feb_d400_0000_0000 * 0x80_0000 + 0x0);
    lemma_quotient_known(0x3d8f_f5ea, 0x3d00_0000, 0x8f_f5ea, 122, 0x80_0000, 121, 0x1_1feb_d400_0000_0000, 0x0, 66, 0x2_0000_0000_0000_0000, 0x400_0000_0000);
    assert(div_spec(0x3d8f_f5ea, 0x3d00_0000) == 0x400f_f5ea);
    assert(0xdf_c028 * 0x40 + 0x8f_f5ea * 0x1 == 0x387f_ffea);
    lemma_sum_known(0x435f_c028, 0x400f_f5ea, false, 0xdf_c028, 133, 0x8f_f5ea, 127, 0x40, 0x1, 0x387f_ffea, 30, 0x2000_0000, 0x40);
    assert(add_spec(0x435f_c028, 0x400f_f5ea) == 0x4362_0000);
    lemma_whole_known(0x4362_0000, 0xe2_0000, 133, 0x1_0000);
}

/// The edge of code 225.
proof fn lemma_near_225()
    ensures
        near_exact_edge(0x3f41_bb1d, 225),
{
    lemma2_to64();
    lemma2_to64_rest();
    lemma_fifth_powers_of_two();
    lemma_more_fifth_powers_of_two();
    assert(239525nat * 239525 * 239525 == 0x30_d259_e084_b85d);
    assert(269025nat * 269025 * 269025 == 0x45_2c59_9066_9ca1);
    assert(0x30_d259_e084_b85dnat * 0x30_d259_e084_b85d == 0x94f_8e8b_c5ac_c289_4c1b_64ad_d1c9nat);
    assert(0x94f_8e8b_c5ac_c289_4c1b_64ad_d1c9nat * 0x94f_8e8b_c5ac_c289_4c1b_64ad_d1c9nat == 0x56_b0bf_1d89_81e9_a225_cf80_b0ec_9449_ab40_bacc_c5f3_da50_3d93_cfd1nat);
    assert(0x45_2c59_9066_9ca1nat * 0x45_2c59_9066_9ca1 == 0x12b0_eff6_c049_6d6d_d948_5020_9d41nat);
    assert(0x12b0_eff6_c049_6d6d_d948_5020_9d41nat * 0x12b0_eff6_c049_6d6d_d948_5020_9d41nat == 0x15d_5c09_8741_6139_2178_92b9_bce5_5f46_89a2_dd05_b95f_0d00_50d8_ca81nat);
    assert(0x3c8_9691nat * 0x3c8_9691 == 0xe_50b3_011e_3e21);
    assert(0xe_50b3_011e_3e21nat * 0xe_50b3_011e_3e21 == 0xcc_ed04_7d2c_42bc_c234_e0d0_0041nat);
    assert(0xcc_ed04_7d2c_42bc_c234_e0d0_0041nat * 0x3c8_9691 == 0x3_0758_bfec_303f_2eea_bea7_0e2e_2bbe_3ad1nat);
    assert(0x3c8_b891nat * 0x3c8_b891 == 0xe_51b4_4da0_c221);
    assert(0xe_51b4_4da0_c221nat * 0xe_51b4_4da0_c221 == 0xcd_09cc_15b2_380f_fa23_1676_0841nat);
    assert(0xcd_09cc_15b2_380f_fa23_1676_0841nat * 0x3c8_b891 == 0x3_07e0_dedf_4614_5ea7_1182_d453_c491_64d1nat);
    assert(0x3_0758_bfec_303f_2eea_bea7_0e2e_2bbe_3ad1nat * 0x15d_5c09_8741_6139_2178_92b9_bce5_5f46_89a2_dd05_b95f_0d00_50d8_ca81nat == 0x422_1abe_65bb_37fb_4e5f_56e5_0688_a6d6_a332_61c4_6a9e_10bf_7fc9_0ab6_01b9_2fa6_5db7_8f82_cd8a_8bab_159c_8d51nat);
    assert(0x3_07e0_dedf_4614_5ea7_1182_d453_c491_64d1nat * 0x15d_5c09_8741_6139_2178_92b9_bce5_5f46_89a2_dd05_b95f_0d00_50d8_ca81nat == 0x422_d481_8750_5917_8219_6ab4_faf6_8c78_e394_6535_584a_49c7_a670_5b6c_f81a_4ae3_6e6f_d89e_373f_fe7f_2728_b751nat);
    assert(0xc35nat * 0x100_0000_0000_0000_0000_0000_0000_0000nat == 0xc_3500_0000_0000_0000_0000_0000_0000_0000nat);
    assert(0x56_b0bf_1d89_81e9_a225_cf80_b0ec_9449_ab40_bacc_c5f3_da50_3d93_cfd1nat * 0xc_3500_0000_0000_0000_0000_0000_0000_0000nat == 0x422_3b8c_f38f_8ed8_f857_8dfd_efb7_ee27_477d_2845_ac69_b7f5_7fad_57d2_4500_0000_0000_0000_0000_0000_0000_0000nat);
    lemma_near_above(
        0x3f41_bb1d, 0xc1_bb1d, 125, 0x100, 0xc_3500_0000_0000_0000_0000_0000_0000_0000nat, 225,
        239525, 0x30_d259_e084_b85d,
        0x94f_8e8b_c5ac_c289_4c1b_64ad_d1c9nat,
        0x45_2c59_9066_9ca1, 0x12b0_eff6_c049_6d6d_d948_5020_9d41nat,
        0x3c8_9691, 0xe_50b3_011e_3e21, 0xcc_ed04_7d2c_42bc_c234_e0d0_0041nat,
        0x3c8_b891, 0xe_51b4_4da0_c221, 0xcd_09cc_15b2_380f_fa23_1676_0841nat,
    );
}

/// The value 0x3f43_ab80.
proof fn lemma_at_3f43ab80()
    ensures
        chord_code(0x3f43_ab80, 0x3f3d_5e8d, 0x3f45_5e8d, 0x435f_c028, 0x4363_e05d) == 226,
{
    reveal(chord_code);
    lemma2_to64();
    lemma2_to64_rest();
    lemma_high_powers();
    assert(0xc5_5e8d * 0x1 - 0xbd_5e8d * 0x1 == 0x8_0000);
    lemma_sum_known(0x3f45_5e8d, 0x3f3d_5e8d, true, 0xc5_5e8d, 125, 0xbd_5e8d, 125, 0x1, 0x1, 0x8_0000, 20, 0x8_0000, 0x10);
    assert(sub_spec(0x3f45_5e8d, 0x3f3d_5e8d) == 0x3d00_0000);
    assert(0xc3_ab80 * 0x1 - 0xbd_5e8d * 0x1 == 0x6_4cf3);
    lemma_sum_known(0x3f43_ab80, 0x3f3d_5e8d, true, 0xc3_ab80, 125, 0xbd_5e8d, 125, 0x1, 0x1, 0x6_4cf3, 19, 0x4_0000, 0x20);
    assert(sub_spec(0x3f43_ab80, 0x3f3d_5e8d) == 0x3cc9_9e60);
    assert(0xe3_e05d * 0x1 - 0xdf_c028 * 0x1 == 0x4_2035);
    lemma_sum_known(0x4363_e05d, 0x435f_c028, true, 0xe3_e05d, 133, 0xdf_c028, 133, 0x1, 0x1, 0x4_2035, 19, 0x4_0000, 0x20);
    assert(sub_spec(0x4363_e05d, 0x435f_c028) == 0x4084_06a0);
    assert(0x84_06a0 * 0xc9_9e60 == 0x67fa_e139_3c00);
    lemma_product_known(0x4084_06a0, 0x3cc9_9e60, 0x84_06a0, 128, 0xc9_9e60, 120, 0x67fa_e139_3c00, 47, 0x4000_0000_0000, 0x80_0000);
    assert(mul_spec(0x4084_06a0, 0x3cc9_9e60) == 0x3dcf_f5c2);
    assert(0xcf_f5c2 * 0x1_0000_0000_0000_0000 == 0x1_9feb_8400_0000_0000 * 0x80_0000 + 0x0);
    lemma_quotient_known(0x3dcf_f5c2, 0x3d00_0000, 0xcf_f5c2, 122, 0x80_0000, 121, 0x1_9feb_8400_0000_0000, 0x0, 66, 0x2_0000_0000_0000_0000, 0x400_0000_0000);
    assert(div_spec(0x3dcf_f5c2, 0x3d00_0000) == 0x404f_f5c2);
    assert(0xdf_c028 * 0x40 + 0xcf_f5c2 * 0x1 == 0x38bf_ffc2);
    lemma_sum_known(0x435f_c028, 0x404f_f5c2, false, 0xdf_c028, 133, 0xcf_f5c2, 127, 0x40, 0x1, 0x38bf_ffc2, 30, 0x2000_0000, 0x40);
    assert(add_spec(0x435f_c028, 0x404f_f5c2) == 0x4362_ffff);
    lemma_whole_known(0x4362_ffff, 0xe2_ffff, 133, 0x1_0000);
}

/// The value 0x3f43_ab81.
proof fn lemma_at_3f43ab81()
    ensures
        chord_code(0x3f43_ab81, 0x3f3d_5e8d, 0x3f45_5e8d, 0x435f_c028, 0x4363_e05d) == 227,
{
    reveal(chord_code);
    lemma2_to64();
    lemma2_to64_rest();
    lemma_high_powers();
    assert(0xc5_5e8d * 0x1 - 0xbd_5e8d * 0x1 == 0x8_0000);
    lemma_sum_known(0x3f45_5e8d, 0x3f3d_5e8d, true, 0xc5_5e8d, 125, 0xbd_5e8d, 125, 0x1, 0x1, 0x8_0000, 20, 0x8_0000, 0x10);
    assert(sub_spec(0x3f45_5e8d, 0x3f3d_5e8d) == 0x3d00_0000);
    assert(0xc3_ab81 * 0x1 - 0xbd_5e8d * 0x1 == 0x6_4cf4);
    lemma_sum_known(0x3f43_ab81, 0x3f3d_5e8d, true, 0xc3_ab81, 125, 0xbd_5e8d, 125, 0x1, 0x1, 0x6_4cf4, 19, 0x4_0000, 0x20);
    assert(sub_spec(0x3f43_ab81, 0x3f3d_5e8d) == 0x3cc9_9e80);
    assert(0xe3_e05d * 0x1 - 0xdf_c028 * 0x1 == 0x4_2035);
    lemma_sum_known(0x4363_e05d, 0x435f_c028, true, 0xe3_e05d, 133, 0xdf_c028, 133, 0x1, 0x1, 0x4_2035, 19, 0x4_0000, 0x20);
    assert(sub_spec(0x4363_e05d, 0x435f_c028) == 0x4084_06a0);
    assert(0x84_06a0 * 0xc9_9e80 == 0x67fa_f1ba_1000);
    lemma_product_known(0x4084_06a0, 0x3cc9_9e80, 0x84_06a0, 128, 0xc9_9e80, 120, 0x67fa_f1ba_1000, 47, 0x4000_0000_0000, 0x80_0000);
    assert(mul_spec(0x4084_06a0, 0x3cc9_9e80) == 0x3dcf_f5e3);
    assert(0xcf_f5e3 * 0x1_0000_0000_0000_0000 == 0x1_9feb_c600_0000_0000 * 0x80_0000 + 0x0);
    lemma_quotient_known(0x3dcf_f5e3, 0x3d00_0000, 0xcf_f5e3, 122, 0x80_0000, 121, 0x1_9feb_c600_0000_0000, 0x0, 66, 0x2_0000_0000_0000_0000, 0x400_0000_0000);
    assert(div_spec(0x3dcf_f5e3, 0x3d00_0000) == 0x404f_f5e3);
    assert(0xdf_c028 * 0x40 + 0xcf_f5e3 * 0x1 == 0x38bf_ffe3);
    lemma_sum_known(0x435f_c028, 0x404f_f5e3, false, 0xdf_c028, 133, 0xcf_f5e3, 127, 0x40, 0x1, 0x38bf_ffe3, 30, 0x2000_0000, 0x40);
    assert(add_spec(0x435f_c028, 0x404f_f5e3) == 0x4363_0000);
    lemma_whole_known(0x4363_0000, 0xe3_0000, 133, 0x1_0000);
}

/// The edge of code 226.
proof fn lemma_near_226()
    ensures
        near_exact_edge(0x3f43_ab80, 226),
{
    lemma2_to64();
    lemma2_to64_rest();
    lemma_fifth_powers_of_two();
    lemma_more_fifth_powers_of_two();
    assert(240525nat * 240525 * 240525 == 0x31_6f8b_73ea_6f15);
    assert(269025nat * 269025 * 269025 == 0x45_2c59_9066_9ca1);
    assert(0x31_6f8b_73ea_6f15nat * 0x31_6f8b_73ea_6f15 == 0x98b_e3fc_9a3a_e76f_4d4a_2097_37b9nat);
    assert(0x98b_e3fc_9a3a_e76f_4d4a_2097_37b9nat * 0x98b_e3fc_9a3a_e76f_4d4a_2097_37b9nat == 0x5b_2279_2231_9301_9d9f_16fb_3e84_1e1a_6236_aa98_0385_a835_085f_03b1nat);
    assert(0x45_2c59_9066_9ca1nat * 0x45_2c59_9066_9ca1 == 0x12b0_eff6_c049_6d6d_d948_5020_9d41nat);
    assert(0x12b0_eff6_c049_6d6d_d948_5020_9d41nat * 0x12b0_eff6_c049_6d6d_d948_5020_9d41nat == 0x15d_5c09_8741_6139_2178_92b9_bce5_5f46_89a2_dd05_b95f_0d00_50d8_ca81nat);
    assert(0x3d2_4880nat * 0x3d2_4880 == 0xe_9a6e_0688_4000);
    assert(0xe_9a6e_0688_4000nat * 0xe_9a6e_0688_4000 == 0xd5_4131_460c_8a41_ab84_1000_0000nat);
    assert(0xd5_4131_460c_8a41_ab84_1000_0000nat * 0x3d2_4880 == 0x3_2eef_7334_103e_bc08_d798_0688_0000_0000nat);
    assert(0x3d2_6a80nat * 0x3d2_6a80 == 0xe_9b71_e64e_4000);
    assert(0xe_9b71_e64e_4000nat * 0xe_9b71_e64e_4000 == 0xd5_5ed8_501e_e1c5_32eb_1000_0000nat);
    assert(0xd5_5ed8_501e_e1c5_32eb_1000_0000nat * 0x3d2_6a80 == 0x3_2f7d_1a57_134f_5c49_0fb1_ea28_0000_0000nat);
    assert(0x3_2eef_7334_103e_bc08_d798_0688_0000_0000nat * 0x15d_5c09_8741_6139_2178_92b9_bce5_5f46_89a2_dd05_b95f_0d00_50d8_ca81nat == 0x458_216c_705c_4e3c_c322_fb0c_73cf_e51c_793c_95f8_3660_255b_d272_4dd7_c8de_4b7c_879e_0ce2_9b82_9a88_0000_0000nat);
    assert(0x3_2f7d_1a57_134f_5c49_0fb1_ea28_0000_0000nat * 0x15d_5c09_8741_6139_2178_92b9_bce5_5f46_89a2_dd05_b95f_0d00_50d8_ca81nat == 0x458_e2bc_386d_c88d_024e_b8b5_a0dd_290f_fa3d_c34e_29cf_a2ab_9851_82cb_a266_48ba_e218_067d_5d2a_8e28_0000_0000nat);
    assert(0xc35nat * 0x100_0000_0000_0000_0000_0000_0000_0000nat == 0xc_3500_0000_0000_0000_0000_0000_0000_0000nat);
    assert(0x5b_2279_2231_9301_9d9f_16fb_3e84_1e1a_6236_aa98_0385_a835_085f_03b1nat * 0xc_3500_0000_0000_0000_0000_0000_0000_0000nat == 0x458_7bd0_ae67_2782_b917_0388_f222_c378_10e5_5071_a2fe_8e4f_5f2f_d80f_a500_0000_0000_0000_0000_0000_0000_0000nat);
    lemma_near_above(
        0x3f43_ab80, 0xc3_ab80, 125, 0x100, 0xc_3500_0000_0000_0000_0000_0000_0000_0000nat, 226,
        240525, 0x31_6f8b_73ea_6f15,
        0x98b_e3fc_9a3a_e76f_4d4a_2097_37b9nat,
        0x45_2c59_9066_9ca1, 0x12b0_eff6_c049_6d6d_d948_5020_9d41nat,
        0x3d2_4880, 0xe_9a6e_0688_4000, 0xd5_4131_460c_8a41_ab84_1000_0000nat,
        0x3d2_6a80, 0xe_9b71_e64e_4000, 0xd5_5ed8_501e_e1c5_32eb_1000_0000nat,
    );
}

/// The value 0x3f45_9d5c.
proof fn lemma_at_3f459d5c()
    ensures
        chord_code(0x3f45_9d5c, 0x3f45_5e8d, 0x3f4d_5e8d, 0x4363_e05d, 0x4367_e7dd) == 227,
{
    reveal(chord_code);
    lemma2_to64();
    lemma2_to64_rest();
    lemma_high_powers();
    assert(0xcd_5e8d * 0x1 - 0xc5_5e8d * 0x1 == 0x8_0000);
    lemma_sum_known(0x3f4d_5e8d, 0x3f45_5e8d, true, 0xcd_5e8d, 125, 0xc5_5e8d, 125, 0x1, 0x1, 0x8_0000, 20, 0x8_0000, 0x10);
    assert(sub_spec(0x3f4d_5e8d, 0x3f45_5e8d) == 0x3d00_0000);
    assert(0xc5_9d5c * 0x1 - 0xc5_5e8d * 0x1 == 0x3ecf);
    lemma_sum_known(0x3f45_9d5c, 0x3f45_5e8d, true, 0xc5_9d5c, 125, 0xc5_5e8d, 125, 0x1, 0x1, 0x3ecf, 14, 0x2000, 0x400);
    assert(sub_spec(0x3f45_9d5c, 0x3f45_5e8d) == 0x3a7b_3c00);
    assert(0xe7_e7dd * 0x1 - 0xe3_e05d * 0x1 == 0x4_0780);
    lemma_sum_known(0x4367_e7dd, 0x4363_e05d, true, 0xe7_e7dd, 133, 0xe3_e05d, 133, 0x1, 0x1, 0x4_0780, 19, 0x4_0000, 0x20);
    assert(sub_spec(0x4367_e7dd, 0x4363_e05d) == 0x4080_f000);
    assert(0x80_f000 * 0xfb_3c00 == 0x7e89_8840_0000);
    lemma_product_known(0x4080_f000, 0x3a7b_3c00, 0x80_f000, 128, 0xfb_3c00, 115, 0x7e89_8840_0000, 47, 0x4000_0000_0000, 0x80_0000);
    assert(mul_spec(0x4080_f000, 0x3a7b_3c00) == 0x3b7d_1310);
    assert(0xfd_1310 * 0x1_0000_0000_0000_0000 == 0x1_fa26_2000_0000_0000 * 0x80_0000 + 0x0);
    lemma_quotient_known(0x3b7d_1310, 0x3d00_0000, 0xfd_1310, 117, 0x80_0000, 121, 0x1_fa26_2000_0000_0000, 0x0, 66, 0x2_0000_0000_0000_0000, 0x400_0000_0000);
    assert(div_spec(0x3b7d_1310, 0x3d00_0000) == 0x3dfd_1310);
    assert(0xe3_e05d * 0x800 + 0xfd_1310 * 0x1 == 0x7_1fff_fb10);
    lemma_sum_known(0x4363_e05d, 0x3dfd_1310, false, 0xe3_e05d, 133, 0xfd_1310, 122, 0x800, 0x1, 0x7_1fff_fb10, 35, 0x4_0000_0000, 0x800);
    assert(add_spec(0x4363_e05d, 0x3dfd_1310) == 0x4363_ffff);
    lemma_whole_known(0x4363_ffff, 0xe3_ffff, 133, 0x1_0000);
}

/// The value 0x3f45_9d5d.
proof fn lemma_at_3f459d5d()
    ensures
        chord_code(0x3f45_9d5d, 0x3f45_5e8d, 0x3f4d_5e8d, 0x4363_e05d, 0x4367_e7dd) == 228,
{
    reveal(chord_code);
    lemma2_to64();
    lemma2_to64_rest();
    lemma_high_powers();
    assert(0xcd_5e8d * 0x1 - 0xc5_5e8d * 0x1 == 0x8_0000);
    lemma_sum_known(0x3f4d_5e8d, 0x3f45_5e8d, true, 0xcd_5e8d, 125, 0xc5_5e8d, 125, 0x1, 0x1, 0x8_0000, 20, 0x8_0000, 0x10);
    assert(sub_spec(0x3f4d_5e8d, 0x3f45_5e8d) == 0x3d00_0000);
    assert(0xc5_9d5d * 0x1 - 0xc5_5e8d * 0x1 == 0x3ed0);
    lemma_sum_known(0x3f45_9d5d, 0x3f45_5e8d, true, 0xc5_9d5d, 125, 0xc5_5e8d, 125, 0x1, 0x1, 0x3ed0, 14, 0x2000, 0x400);
    assert(sub_spec(0x3f45_9d5d, 0x3f45_5e8d) == 0x3a7b_4000);
    assert(0xe7_e7dd * 0x1 - 0xe3_e05d * 0x1 == 0x4_0780);
    lemma_sum_known(0x4367_e7dd, 0x4363_e05d, true, 0xe7_e7dd, 133, 0xe3_e05d, 133, 0x1, 0x1, 0x4_0780, 19, 0x4_0000, 0x20);
    assert(sub_spec(0x4367_e7dd, 0x4363_e05d) == 0x4080_f000);
    assert(0x80_f000 * 0xfb_4000 == 0x7e8b_8c00_0000);
    lemma_product_known(0x4080_f000, 0x3a7b_4000, 0x80_f000, 128, 0xfb_4000, 115, 0x7e8b_8c00_0000, 47, 0x4000_0000_0000, 0x80_0000);
    assert(mul_spec(0x4080_f000, 0x3a7b_4000) == 0x3b7d_1718);
    assert(0xfd_1718 * 0x1_0000_0000_0000_0000 == 0x1_fa2e_3000_0000_0000 * 0x80_0000 + 0x0);
    lemma_quotient_known(0x3b7d_1718, 0x3d00_0000, 0xfd_1718, 117, 0x80_0000, 121, 0x1_fa2e_3000_0000_0000, 0x0, 66, 0x2_0000_0000_0000_0000, 0x400_0000_0000);
    assert(div_spec(0x3b7d_1718, 0x3d00_0000) == 0x3dfd_1718);
    assert(0xe3_e05d * 0x800 + 0xfd_1718 * 0x1 == 0x7_1fff_ff18);
    lemma_sum_known(0x4363_e05d, 0x3dfd_1718, false, 0xe3_e05d, 133, 0xfd_1718, 122, 0x800, 0x1, 0x7_1fff_ff18, 35, 0x4_0000_0000, 0x800);
    assert(add_spec(0x4363_e05d, 0x3dfd_1718) == 0x4364_0000);
    lemma_whole_known(0x4364_0000, 0xe4_0000, 133, 0x1_0000);
}

/// The edge of code 227.
proof fn lemma_near_227()
    ensures
        near_exact_edge(0x3f45_9d5c, 227),
{
    lemma2_to64();
    lemma2_to64_rest();
    lemma_fifth_powers_of_two();
    lemma_more_fifth_powers_of_two();
    assert(241525nat * 241525 * 241525 == 0x32_0e0d_09c1_954d);
    assert(269025nat * 269025 * 269025 == 0x45_2c59_9066_9ca1);
    assert(0x32_0e0d_09c1_954dnat * 0x32_0e0d_09c1_954d == 0x9c9_7ddd_3d59_7c70_c4b3_df2c_b929nat);
    assert(0x9c9_7ddd_3d59_7c70_c4b3_df2c_b929nat * 0x9c9_7ddd_3d59_7c70_c4b3_df2c_b929nat == 0x5f_c970_719c_6e61_b5a4_4786_6064_9213_2cda_cf22_1280_a9bb_9a04_4891nat);
    assert(0x45_2c59_9066_9ca1nat * 0x45_2c59_9066_9ca1 == 0x12b0_eff6_c049_6d6d_d948_5020_9d41nat);
    assert(0x12b0_eff6_c049_6d6d_d948_5020_9d41nat * 0x12b0_eff6_c049_6d6d_d948_5020_9d41nat == 0x15d_5c09_8741_6139_2178_92b9_bce5_5f46_89a2_dd05_b95f_0d00_50d8_ca81nat);
    assert(0x3dc_01ccnat * 0x3dc_01cc == 0xe_e51d_dea3_3a90);
    assert(0xe_e51d_dea3_3a90nat * 0xe_e51d_dea3_3a90 == 0xdd_dc52_cda6_a120_6645_60c5_9100nat);
    assert(0xdd_dc52_cda6_a120_6645_60c5_9100nat * 0x3dc_01cc == 0x3_583f_de39_93df_6074_39f9_3f25_7f00_8c00nat);
    assert(0x3dc_23ccnat * 0x3dc_23cc == 0xe_e624_53a1_6a90);
    assert(0xe_e624_53a1_6a90nat * 0xe_e624_53a1_6a90 == 0xdd_fade_7115_53f2_c960_957b_9100nat);
    assert(0xdd_fade_7115_53f2_c960_957b_9100nat * 0x3dc_23cc == 0x3_58d3_3cac_c108_047a_47c1_964a_9f4a_8c00nat);
    assert(0x3_583f_de39_93df_6074_39f9_3f25_7f00_8c00nat * 0x15d_5c09_8741_6139_2178_92b9_bce5_5f46_89a2_dd05_b95f_0d00_50d8_ca81nat == 0x490_82e8_c6fe_7448_0af0_597c_4cb0_2337_d405_6156_3157_6efd_6bc2_f147_fb6d_1105_359f_482b_dcdb_bc51_8dbe_8c00nat);
    assert(0x3_58d3_3cac_c108_047a_47c1_964a_9f4a_8c00nat * 0x15d_5c09_8741_6139_2178_92b9_bce5_5f46_89a2_dd05_b95f_0d00_50d8_ca81nat == 0x491_4c05_8570_9768_884c_eaed_7643_9cfc_a314_625d_8343_1e9a_0f3b_a843_1231_54b0_2cec_4a77_c6fd_4ff1_3708_8c00nat);
    assert(0xc35nat * 0x100_0000_0000_0000_0000_0000_0000_0000nat == 0xc_3500_0000_0000_0000_0000_0000_0000_0000nat);
    assert(0x5f_c970_719c_6e61_b5a4_4786_6064_9213_2cda_cf22_1280_a9bb_9a04_4891nat * 0xc_3500_0000_0000_0000_0000_0000_0000_0000nat == 0x491_45f9_9ada_8f6e_be4e_5d1b_56ab_ab24_128b_027a_ebdc_97ef_0f16_49d2_0500_0000_0000_0000_0000_0000_0000_0000nat);
    lemma_near_above(
        0x3f45_9d5c, 0xc5_9d5c, 125, 0x100, 0xc_3500_0000_0000_0000_0000_0000_0000_0000nat, 227,
        241525, 0x32_0e0d_09c1_954d,
        0x9c9_7ddd_3d59_7c70_c4b3_df2c_b929nat,
        0x45_2c59_9066_9ca1, 0x12b0_eff6_c049_6d6d_d948_5020_9d41nat,
        0x3dc_01cc, 0xe_e51d_dea3_3a90, 0xdd_dc52_cda6_a120_6645_60c5_9100nat,
        0x3dc_23cc, 0xe_e624_53a1_6a90, 0xdd_fade_7115_53f2_c960_957b_9100nat,
    );
}

/// The value 0x3f47_99a3.
proof fn lemma_at_3f4799a3()
    ensures
        chord_code(0x3f47_99a3, 0x3f45_5e8d, 0x3f4d_5e8d, 0x4363_e05d, 0x4367_e7dd) == 228,
{
    reveal(chord_code);
    lemma2_to64();
    lemma2_to64_rest();
    lemma_high_powers();
    assert(0xcd_5e8d * 0x1 - 0xc5_5e8d * 0x1 == 0x8_0000);
    lemma_sum_known(0x3f4d_5e8d, 0x3f45_5e8d, true, 0xcd_5e8d, 125, 0xc5_5e8d, 125, 0x1, 0x1, 0x8_0000, 20, 0x8_0000, 0x10);
    assert(sub_spec(0x3f4d_5e8d, 0x3f45_5e8d) == 0x3d00_0000);
    assert(0xc7_99a3 * 0x1 - 0xc5_5e8d * 0x1 == 0x2_3b16);
    lemma_sum_known(0x3f47_99a3, 0x3f45_5e8d, true, 0xc7_99a3, 125, 0xc5_5e8d, 125, 0x1, 0x1, 0x2_3b16, 18, 0x2_0000, 0x40);
    assert(sub_spec(0x3f47_99a3, 0x3f45_5e8d) == 0x3c0e_c580);
    assert(0xe7_e7dd * 0x1 - 0xe3_e05d * 0x1 == 0x4_0780);
    lemma_sum_known(0x4367_e7dd, 0x4363_e05d, true, 0xe7_e7dd, 133, 0xe3_e05d, 133, 0x1, 0x1, 0x4_0780, 19, 0x4_0000, 0x20);
    assert(sub_spec(0x4367_e7dd, 0x4363_e05d) == 0x4080_f000);
    assert(0x80_f000 * 0x8e_c580 == 0x47e8_9928_0000);
    lemma_product_known(0x4080_f000, 0x3c0e_c580, 0x80_f000, 128, 0x8e_c580, 119, 0x47e8_9928_0000, 47, 0x4000_0000_0000, 0x80_0000);
    assert(mul_spec(0x4080_f000, 0x3c0e_c580) == 0x3d0f_d132);
    assert(0x8f_d132 * 0x1_0000_0000_0000_0000 == 0x1_1fa2_6400_0000_0000 * 0x80_0000 + 0x0);
    lemma_quotient_known(0x3d0f_d132, 0x3d00_0000, 0x8f_d132, 121, 0x80_0000, 121, 0x1_1fa2_6400_0000_0000, 0x0, 66, 0x2_0000_0000_0000_0000, 0x400_0000_0000);
    assert(div_spec(0x3d0f_d132, 0x3d00_0000) == 0x3f8f_d132);
    assert(0xe3_e05d * 0x80 + 0x8f_d132 * 0x1 == 0x727f_ffb2);
    lemma_sum_known(0x4363_e05d, 0x3f8f_d132, false, 0xe3_e05d, 133, 0x8f_d132, 126, 0x80, 0x1, 0x727f_ffb2, 31, 0x4000_0000, 0x80);
    assert(add_spec(0x4363_e05d, 0x3f8f_d132) == 0x4364_ffff);
    lemma_whole_known(0x4364_ffff, 0xe4_ffff, 133, 0x1_0000);
}

/// The value 0x3f47_99a4.
proof fn lemma_at_3f4799a4()
    ensures
        chord_code(0x3f47_99a4, 0x3f45_5e8d, 0x3f4d_5e8d, 0x4363_e05d, 0x4367_e7dd) == 229,
{
    reveal(chord_code);
    lemma2_to64();
    lemma2_to64_rest();
    lemma_high_powers();
    assert(0xcd_5e8d * 0x1 - 0xc5_5e8d * 0x1 == 0x8_0000);
    lemma_sum_known(0x3f4d_5e8d, 0x3f45_5e8d, true, 0xcd_5e8d, 125, 0xc5_5e8d, 125, 0x1, 0x1, 0x8_0000, 20, 0x8_0000, 0x10);
    assert(sub_spec(0x3f4d_5e8d, 0x3f45_5e8d) == 0x3d00_0000);
    assert(0xc7_99a4 * 0x1 - 0xc5_5e8d * 0x1 == 0x2_3b17);
    lemma_sum_known(0x3f47_99a4, 0x3f45_5e8d, true, 0xc7_99a4, 125, 0xc5_5e8d, 125, 0x1, 0x1, 0x2_3b17, 18, 0x2_0000, 0x40);
    assert(sub_spec(0x3f47_99a4, 0x3f45_5e8d) == 0x3c0e_c5c0);
    assert(0xe7_e7dd * 0x1 - 0xe3_e05d * 0x1 == 0x4_0780);
    lemma_sum_known(0x4367_e7dd, 0x4363_e05d, true, 0xe7_e7dd, 133, 0xe3_e05d, 133, 0x1, 0x1, 0x4_0780, 19, 0x4_0000, 0x20);
    assert(sub_spec(0x4367_e7dd, 0x4363_e05d) == 0x4080_f000);
    assert(0x80_f000 * 0x8e_c5c0 == 0x47e8_b964_0000);
    lemma_product_known(0x4080_f000, 0x3c0e_c5c0, 0x80_f000, 128, 0x8e_c5c0, 119, 0x47e8_b964_0000, 47, 0x4000_0000_0000, 0x80_0000);
    assert(mul_spec(0x4080_f000, 0x3c0e_c5c0) == 0x3d0f_d173);
    assert(0x8f_d173 * 0x1_0000_0000_0000_0000 == 0x1_1fa2_e600_0000_0000 * 0x80_0000 + 0x0);
    lemma_quotient_known(0x3d0f_d173, 0x3d00_0000, 0x8f_d173, 121, 0x80_0000, 121, 0x1_1fa2_e600_0000_0000, 0x0, 66, 0x2_0000_0000_0000_0000, 0x400_0000_0000);
    assert(div_spec(0x3d0f_d173, 0x3d00_0000) == 0x3f8f_d173);
    assert(0xe3_e05d * 0x80 + 0x8f_d173 * 0x1 == 0x727f_fff3);
    lemma_sum_known(0x4363_e05d, 0x3f8f_d173, false, 0xe3_e05d, 133, 0x8f_d173, 126, 0x80, 0x1, 0x727f_fff3, 31, 0x4000_0000, 0x80);
    assert(add_spec(0x4363_e05d, 0x3f8f_d173) == 0x4365_0000);
    lemma_whole_known(0x4365_0000, 0xe5_0000, 133, 0x1_0000);
}

/// The edge of code 228.
proof fn lemma_near_228()
    ensures
        near_exact_edge(0x3f47_99a3, 228),
{
    lemma2_to64();
    lemma2_to64_rest();
    lemma_fifth_powers_of_two();
    lemma_more_fifth_powers_of_two();
    assert(242525nat * 242525 * 242525 == 0x32_ade0_07aa_e705);
    assert(269025nat * 269025 * 269025 == 0x45_2c59_9066_9ca1);
    assert(0x32_ade0_07aa_e705nat * 0x32_ade0_07aa_e705 == 0xa08_619b_8d2c_a57f_d579_e91e_0619nat);
    assert(0xa08_619b_8d2c_a57f_d579_e91e_0619nat * 0xa08_619b_8d2c_a57f_d579_e91e_0619nat == 0x64_a7e6_65f7_8f38_6c00_5c7f_eebb_1642_30c9_ba38_6f9d_0840_f001_2e71nat);
    assert(0x45_2c59_9066_9ca1nat * 0x45_2c59_9066_9ca1 == 0x12b0_eff6_c049_6d6d_d948_5020_9d41nat);
    assert(0x12b0_eff6_c049_6d6d_d948_5020_9d41nat * 0x12b0_eff6_c049_6d6d_d948_5020_9d41nat == 0x15d_5c09_8741_6139_2178_92b9_bce5_5f46_89a2_dd05_b95f_0d00_50d8_ca81nat);
    assert(0x3e5_ef2fnat * 0x3e5_ef2f == 0xf_3220_e38e_caa1);
    assert(0xf_3220_e38e_caa1nat * 0xf_3220_e38e_caa1 == 0xe6_e9ab_87d9_33fe_173e_f0fe_7941nat);
    assert(0xe6_e9ab_87d9_33fe_173e_f0fe_7941nat * 0x3e5_ef2f == 0x3_8423_c794_1b39_34fb_4b7a_969a_0c10_f1efnat);
    assert(0x3e6_112fnat * 0x3e6_112f == 0xf_3329_fb9b_46a1);
    assert(0xf_3329_fb9b_46a1nat * 0xf_3329_fb9b_46a1 == 0xe7_0925_3d54_b408_a040_5072_7141nat);
    assert(0xe7_0925_3d54_b408_a040_5072_7141nat * 0x3e6_112f == 0x3_84bd_2933_3f1e_bc22_5af3_4f4b_e1ee_1befnat);
    assert(0x3_8423_c794_1b39_34fb_4b7a_969a_0c10_f1efnat * 0x15d_5c09_8741_6139_2178_92b9_bce5_5f46_89a2_dd05_b95f_0d00_50d8_ca81nat == 0x4cc_6865_7179_1c29_f5e0_463f_ddaa_8bba_308e_c8f6_a9f9_e8b2_85a2_7be0_3a06_1e11_6436_9316_5455_0e0c_4518_7f6fnat);
    assert(0x3_84bd_2933_3f1e_bc22_5af3_4f4b_e1ee_1befnat * 0x15d_5c09_8741_6139_2178_92b9_bce5_5f46_89a2_dd05_b95f_0d00_50d8_ca81nat == 0x4cd_39b6_ac37_b538_eb52_662b_a54c_e28f_d1ae_5793_3779_c27b_0865_85f7_6139_2b11_b2cf_51d6_9bea_0224_fcae_a96fnat);
    assert(0xc35nat * 0x100_0000_0000_0000_0000_0000_0000_0000nat == 0xc_3500_0000_0000_0000_0000_0000_0000_0000nat);
    assert(0x64_a7e6_65f7_8f38_6c00_5c7f_eebb_1642_30c9_ba38_6f9d_0840_f001_2e71nat * 0xc_3500_0000_0000_0000_0000_0000_0000_0000nat == 0x4cc_b58f_7ab6_f74b_be60_6925_ad31_c6b5_fd8e_7e32_ea77_e5c0_b1be_6be9_6500_0000_0000_0000_0000_0000_0000_0000nat);
    lemma_near_above(
        0x3f47_99a3, 0xc7_99a3, 125, 0x100, 0xc_3500_0000_0000_0000_0000_0000_0000_0000nat, 228,
        242525, 0x32_ade0_07aa_e705,
        0xa08_619b_8d2c_a57f_d579_e91e_0619nat,
        0x45_2c59_9066_9ca1, 0x12b0_eff6_c049_6d6d_d948_5020_9d41nat,
        0x3e5_ef2f, 0xf_3220_e38e_caa1, 0xe6_e9ab_87d9_33fe_173e_f0fe_7941nat,
        0x3e6_112f, 0xf_3329_fb9b_46a1, 0xe7_0925_3d54_b408_a040_5072_7141nat,
    );
}

/// The value 0x3f49_95ea.
proof fn lemma_at_3f4995ea()
    ensures
        chord_code(0x3f49_95ea, 0x3f45_5e8d, 0x3f4d_5e8d, 0x4363_e05d, 0x4367_e7dd) == 229,
{
    reveal(chord_code);
    lemma2_to64();
    lemma2_to64_rest();
    lemma_high_powers();
    assert(0xcd_5e8d * 0x1 - 0xc5_5e8d * 0x1 == 0x8_0000);
    lemma_sum_known(0x3f4d_5e8d, 0x3f45_5e8d, true, 0xcd_5e8d, 125, 0xc5_5e8d, 125, 0x1, 0x1, 0x8_0000, 20, 0x8_0000, 0x10);
    assert(sub_spec(0x3f4d_5e8d, 0x3f45_5e8d) == 0x3d00_0000);
    assert(0xc9_95ea * 0x1 - 0xc5_5e8d * 0x1 == 0x4_375d);
    lemma_sum_known(0x3f49_95ea, 0x3f45_5e8d, true, 0xc9_95ea, 125, 0xc5_5e8d, 125, 0x1, 0x1, 0x4_375d, 19, 0x4_0000, 0x20);
    assert(sub_spec(0x3f49_95ea, 0x3f45_5e8d) == 0x3c86_eba0);
    assert(0xe7_e7dd * 0x1 - 0xe3_e05d * 0x1 == 0x4_0780);
    lemma_sum_known(0x4367_e7dd, 0x4363_e05d, true, 0xe7_e7dd, 133, 0xe3_e05d, 133, 0x1, 0x1, 0x4_0780, 19, 0x4_0000, 0x20);
    assert(sub_spec(0x4367_e7dd, 0x4363_e05d) == 0x4080_f000);
    assert(0x80_f000 * 0x86_eba0 == 0x43f4_4ce6_0000);
    lemma_product_known(0x4080_f000, 0x3c86_eba0, 0x80_f000, 128, 0x86_eba0, 120, 0x43f4_4ce6_0000, 47, 0x4000_0000_0000, 0x80_0000);
    assert(mul_spec(0x4080_f000, 0x3c86_eba0) == 0x3d87_e89a);
    assert(0x87_e89a * 0x1_0000_0000_0000_0000 == 0x1_0fd1_3400_0000_0000 * 0x80_0000 + 0x0);
    lemma_quotient_known(0x3d87_e89a, 0x3d00_0000, 0x87_e89a, 122, 0x80_0000, 121, 0x1_0fd1_3400_0000_0000, 0x0, 66, 0x2_0000_0000_0000_0000, 0x400_0000_0000);
    assert(div_spec(0x3d87_e89a, 0x3d00_0000) == 0x4007_e89a);
    assert(0xe3_e05d * 0x40 + 0x87_e89a * 0x1 == 0x397f_ffda);
    lemma_sum_known(0x4363_e05d, 0x4007_e89a, false, 0xe3_e05d, 133, 0x87_e89a, 127, 0x40, 0x1, 0x397f_ffda, 30, 0x2000_0000, 0x40);
    assert(add_spec(0x4363_e05d, 0x4007_e89a) == 0x4365_ffff);
    lemma_whole_known(0x4365_ffff, 0xe5_ffff, 133, 0x1_0000);
}

/// The value 0x3f49_95eb.
proof fn lemma_at_3f4995eb()
    ensures
        chord_code(0x3f49_95eb, 0x3f45_5e8d, 0x3f4d_5e8d, 0x4363_e05d, 0x4367_e7dd) == 230,
{
    reveal(chord_code);
    lemma2_to64();
    lemma2_to64_rest();
    lemma_high_powers();
    assert(0xcd_5e8d * 0x1 - 0xc5_5e8d * 0x1 == 0x8_0000);
    lemma_sum_known(0x3f4d_5e8d, 0x3f45_5e8d, true, 0xcd_5e8d, 125, 0xc5_5e8d, 125, 0x1, 0x1, 0x8_0000, 20, 0x8_0000, 0x10);
    assert(sub_spec(0x3f4d_5e8d, 0x3f45_5e8d) == 0x3d00_0000);
    assert(0xc9_95eb * 0x1 - 0xc5_5e8d * 0x1 == 0x4_375e);
    lemma_sum_known(0x3f49_95eb, 0x3f45_5e8d, true, 0xc9_95eb, 125, 0xc5_5e8d, 125, 0x1, 0x1, 0x4_375e, 19, 0x4_0000, 0x20);
    assert(sub_spec(0x3f49_95eb, 0x3f45_5e8d) == 0x3c86_ebc0);
    assert(0xe7_e7dd * 0x1 - 0xe3_e05d * 0x1 == 0x4_0780);
    lemma_sum_known(0x4367_e7dd, 0x4363_e05d, true, 0xe7_e7dd, 133, 0xe3_e05d, 133, 0x1, 0x1, 0x4_0780, 19, 0x4_0000, 0x20);
    assert(sub_spec(0x4367_e7dd, 0x4363_e05d) == 0x4080_f000);
    assert(0x80_f000 * 0x86_ebc0 == 0x43f4_5d04_0000);
    lemma_product_known(0x4080_f000, 0x3c86_ebc0, 0x80_f000, 128, 0x86_ebc0, 120, 0x43f4_5d04_0000, 47, 0x4000_0000_0000, 0x80_0000);
    assert(mul_spec(0x4080_f000, 0x3c86_ebc0) == 0x3d87_e8ba);
    assert(0x87_e8ba * 0x1_0000_0000_0000_0000 == 0x1_0fd1_7400_0000_0000 * 0x80_0000 + 0x0);
    lemma_quotient_known(0x3d87_e8ba, 0x3d00_0000, 0x87_e8ba, 122, 0x80_0000, 121, 0x1_0fd1_7400_0000_0000, 0x0, 66, 0x2_0000_0000_0000_0000, 0x400_0000_0000);
    assert(div_spec(0x3d87_e8ba, 0x3d00_0000) == 0x4007_e8ba);
    assert(0xe3_e05d * 0x40 + 0x87_e8ba * 0x1 == 0x397f_fffa);
    lemma_sum_known(0x4363_e05d, 0x4007_e8ba, false, 0xe3_e05d, 133, 0x87_e8ba, 127, 0x40, 0x1, 0x397f_fffa, 30, 0x2000_0000, 0x40);
    assert(add_spec(0x4363_e05d, 0x4007_e8ba) == 0x4366_0000);
    lemma_whole_known(0x4366_0000, 0xe6_0000, 133, 0x1_0000);
}

/// The edge of code 229.
proof fn lemma_near_229()
    ensures
        near_exact_edge(0x3f49_95ea, 229),
{
    lemma2_to64();
    lemma2_to64_rest();
    lemma_fifth_powers_of_two();
    lemma_more_fifth_powers_of_two();
    assert(243525nat * 243525 * 243525 == 0x33_4f05_d347_203d);
    assert(269025nat * 269025 * 269025 == 0x45_2c59_9066_9ca1);
    assert(0x33_4f05_d347_203dnat * 0x33_4f05_d347_203d == 0xa48_94b6_c6de_ad59_3b49_73e5_4e89nat);
    assert(0xa48_94b6_c6de_ad59_3b49_73e5_4e89nat * 0xa48_94b6_c6de_ad59_3b49_73e5_4e89nat == 0x69_c032_44bd_1b3d_525d_f3a3_796a_f9d1_576d_93b0_c4b3_c216_af31_c551nat);
    assert(0x45_2c59_9066_9ca1nat * 0x45_2c59_9066_9ca1 == 0x12b0_eff6_c049_6d6d_d948_5020_9d41nat);
    assert(0x12b0_eff6_c049_6d6d_d948_5020_9d41nat * 0x12b0_eff6_c049_6d6d_d948_5020_9d41nat == 0x15d_5c09_8741_6139_2178_92b9_bce5_5f46_89a2_dd05_b95f_0d00_50d8_ca81nat);
    assert(0x3ef_dc92nat * 0x3ef_dc92 == 0xf_7fe9_02a7_4344);
    assert(0xf_7fe9_02a7_4344nat * 0xf_7fe9_02a7_4344 == 0xf0_3d37_5451_ab34_f41d_e464_aa10nat);
    assert(0xf0_3d37_5451_ab34_f41d_e464_aa10nat * 0x3ef_dc92 == 0x3_b1cf_ca43_2344_bb01_6792_514b_b87e_bd20nat);
    assert(0x3ef_fe92nat * 0x3ef_fe92 == 0xf_80f4_bdc2_0b44);
    assert(0xf_80f4_bdc2_0b44nat * 0xf_80f4_bdc2_0b44 == 0xf0_5da3_e479_a3c9_9157_7b8e_ea10nat);
    assert(0xf0_5da3_e479_a3c9_9157_7b8e_ea10nat * 0x3ef_fe92 == 0x3_b26f_5dad_bea4_43c4_1e48_b7a6_f8ad_5d20nat);
    assert(0x3_b1cf_ca43_2344_bb01_6792_514b_b87e_bd20nat * 0x15d_5c09_8741_6139_2178_92b9_bce5_5f46_89a2_dd05_b95f_0d00_50d8_ca81nat == 0x50a_bc50_9e3b_725a_72bf_33af_5d25_17b1_699e_2088_12c9_15e5_bd50_1f39_8ffd_7f4f_5e4a_abfd_a4e6_9cc5_8c18_8d20nat);
    assert(0x3_b26f_5dad_bea4_43c4_1e48_b7a6_f8ad_5d20nat * 0x15d_5c09_8741_6139_2178_92b9_bce5_5f46_89a2_dd05_b95f_0d00_50d8_ca81nat == 0x50b_9615_f57c_11ab_f02c_fc00_617a_03b3_f92a_d919_d6b2_c4f0_0953_c150_6a9b_723a_3a35_a95a_42c0_eabc_add7_2d20nat);
    assert(0xc35nat * 0x100_0000_0000_0000_0000_0000_0000_0000nat == 0xc_3500_0000_0000_0000_0000_0000_0000_0000nat);
    assert(0x69_c032_44bd_1b3d_525d_f3a3_796a_f9d1_576d_93b0_c4b3_c216_af31_c551nat * 0xc_3500_0000_0000_0000_0000_0000_0000_0000nat == 0x50a_e725_a118_6d83_8e74_df1a_8926_db88_703c_9bdc_d126_503e_e89a_8da5_c500_0000_0000_0000_0000_0000_0000_0000nat);
    lemma_near_above(
        0x3f49_95ea, 0xc9_95ea, 125, 0x100, 0xc_3500_0000_0000_0000_0000_0000_0000_0000nat, 229,
        243525, 0x33_4f05_d347_203d,
        0xa48_94b6_c6de_ad59_3b49_73e5_4e89nat,
        0x45_2c59_9066_9ca1, 0x12b0_eff6_c049_6d6d_d948_5020_9d41nat,
        0x3ef_dc92, 0xf_7fe9_02a7_4344, 0xf0_3d37_5451_ab34_f41d_e464_aa10nat,
        0x3ef_fe92, 0xf_80f4_bdc2_0b44, 0xf0_5da3_e479_a3c9_9157_7b8e_ea10nat,
    );
}

/// The value 0x3f4b_9231.
proof fn lemma_at_3f4b9231()
    ensures
        chord_code(0x3f4b_9231, 0x3f45_5e8d, 0x3f4d_5e8d, 0x4363_e05d, 0x4367_e7dd) == 230,
{
    reveal(chord_code);
    lemma2_to64();
    lemma2_to64_rest();
    lemma_high_powers();
    assert(0xcd_5e8d * 0x1 - 0xc5_5e8d * 0x1 == 0x8_0000);
    lemma_sum_known(0x3f4d_5e8d, 0x3f45_5e8d, true, 0xcd_5e8d, 125, 0xc5_5e8d, 125, 0x1, 0x1, 0x8_0000, 20, 0x8_0000, 0x10);
    assert(sub_spec(0x3f4d_5e8d, 0x3f45_5e8d) == 0x3d00_0000);
    assert(0xcb_9231 * 0x1 - 0xc5_5e8d * 0x1 == 0x6_33a4);
    lemma_sum_known(0x3f4b_9231, 0x3f45_5e8d, true, 0xcb_9231, 125, 0xc5_5e8d, 125, 0x1, 0x1, 0x6_33a4, 19, 0x4_0000, 0x20);
    assert(sub_spec(0x3f4b_9231, 0x3f45_5e8d) == 0x3cc6_7480);
    assert(0xe7_e7dd * 0x1 - 0xe3_e05d * 0x1 == 0x4_0780);
    lemma_sum_known(0x4367_e7dd, 0x4363_e05d, true, 0xe7_e7dd, 133, 0xe3_e05d, 133, 0x1, 0x1, 0x4_0780, 19, 0x4_0000, 0x20);
    assert(sub_spec(0x4367_e7dd, 0x4363_e05d) == 0x4080_f000);
    assert(0x80_f000 * 0xc6_7480 == 0x63f4_4d38_0000);
    lemma_product_known(0x4080_f000, 0x3cc6_7480, 0x80_f000, 128, 0xc6_7480, 120, 0x63f4_4d38_0000, 47, 0x4000_0000_0000, 0x80_0000);
    assert(mul_spec(0x4080_f000, 0x3cc6_7480) == 0x3dc7_e89a);
    assert(0xc7_e89a * 0x1_0000_0000_0000_0000 == 0x1_8fd1_3400_0000_0000 * 0x80_0000 + 0x0);
    lemma_quotient_known(0x3dc7_e89a, 0x3d00_0000, 0xc7_e89a, 122, 0x80_0000, 121, 0x1_8fd1_3400_0000_0000, 0x0, 66, 0x2_0000_0000_0000_0000, 0x400_0000_0000);
    assert(div_spec(0x3dc7_e89a, 0x3d00_0000) == 0x4047_e89a);
    assert(0xe3_e05d * 0x40 + 0xc7_e89a * 0x1 == 0x39bf_ffda);
    lemma_sum_known(0x4363_e05d, 0x4047_e89a, false, 0xe3_e05d, 133, 0xc7_e89a, 127, 0x40, 0x1, 0x39bf_ffda, 30, 0x2000_0000, 0x40);
    assert(add_spec(0x4363_e05d, 0x4047_e89a) == 0x4366_ffff);
    lemma_whole_known(0x4366_ffff, 0xe6_ffff, 133, 0x1_0000);
}

/// The value 0x3f4b_9232.
proof fn lemma_at_3f4b9232()
    ensures
        chord_code(0x3f4b_9232, 0x3f45_5e8d, 0x3f4d_5e8d, 0x4363_e05d, 0x4367_e7dd) == 231,
{
    reveal(chord_code);
    lemma2_to64();
    lemma2_to64_rest();
    lemma_high_powers();
    assert(0xcd_5e8d * 0x1 - 0xc5_5e8d * 0x1 == 0x8_0000);
    lemma_sum_known(0x3f4d_5e8d, 0x3f45_5e8d, true, 0xcd_5e8d, 125, 0xc5_5e8d, 125, 0x1, 0x1, 0x8_0000, 20, 0x8_0000, 0x10);
    assert(sub_spec(0x3f4d_5e8d, 0x3f45_5e8d) == 0x3d00_0000);
    assert(0xcb_9232 * 0x1 - 0xc5_5e8d * 0x1 == 0x6_33a5);
    lemma_sum_known(0x3f4b_9232, 0x3f45_5e8d, true, 0xcb_9232, 125, 0xc5_5e8d, 125, 0x1, 0x1, 0x6_33a5, 19, 0x4_0000, 0x20);
    assert(sub_spec(0x3f4b_9232, 0x3f45_5e8d) == 0x3cc6_74a0);
    assert(0xe7_e7dd * 0x1 - 0xe3_e05d * 0x1 == 0x4_0780);
    lemma_sum_known(0x4367_e7dd, 0x4363_e05d, true, 0xe7_e7dd, 133, 0xe3_e05d, 133, 0x1, 0x1, 0x4_0780, 19, 0x4_0000, 0x20);
    assert(sub_spec(0x4367_e7dd, 0x4363_e05d) == 0x4080_f000);
    assert(0x80_f000 * 0xc6_74a0 == 0x63f4_5d56_0000);
    lemma_product_known(0x4080_f000, 0x3cc6_74a0, 0x80_f000, 128, 0xc6_74a0, 120, 0x63f4_5d56_0000, 47, 0x4000_0000_0000, 0x80_0000);
    assert(mul_spec(0x4080_f000, 0x3cc6_74a0) == 0x3dc7_e8bb);
    assert(0xc7_e8bb * 0x1_0000_0000_0000_0000 == 0x1_8fd1_7600_0000_0000 * 0x80_0000 + 0x0);
    lemma_quotient_known(0x3dc7_e8bb, 0x3d00_0000, 0xc7_e8bb, 122, 0x80_0000, 121, 0x1_8fd1_7600_0000_0000, 0x0, 66, 0x2_0000_0000_0000_0000, 0x400_0000_0000);
    assert(div_spec(0x3dc7_e8bb, 0x3d00_0000) == 0x4047_e8bb);
    assert(0xe3_e05d * 0x40 + 0xc7_e8bb * 0x1 == 0x39bf_fffb);
    lemma_sum_known(0x4363_e05d, 0x4047_e8bb, false, 0xe3_e05d, 133, 0xc7_e8bb, 127, 0x40, 0x1, 0x39bf_fffb, 30, 0x2000_0000, 0x40);
    assert(add_spec(0x4363_e05d, 0x4047_e8bb) == 0x4367_0000);
    lemma_whole_known(0x4367_0000, 0xe7_0000, 133, 0x1_0000);
}

/// The edge of code 230.
proof fn lemma_near_230()
    ensures
        near_exact_edge(0x3f4b_9231, 230),
{
    lemma2_to64();
    lemma2_to64_rest();
    lemma_fifth_powers_of_two();
    lemma_more_fifth_powers_of_two();
    assert(244525nat * 244525 * 244525 == 0x33_f17f_d236_fcf5);
    assert(269025nat * 269025 * 269025 == 0x45_2c59_9066_9ca1);
    assert(0x33_f17f_d236_fcf5nat * 0x33_f17f_d236_fcf5 == 0xa8a_1cbf_ab86_9110_87e7_a54f_4279nat);
    assert(0xa8a_1cbf_ab86_9110_87e7_a54f_4279nat * 0xa8a_1cbf_ab86_9110_87e7_a54f_4279nat == 0x6f_14c1_fb45_ed70_85e5_bf96_2788_99a2_48b3_d1d6_b904_d898_11f0_9d31nat);
    assert(0x45_2c59_9066_9ca1nat * 0x45_2c59_9066_9ca1 == 0x12b0_eff6_c049_6d6d_d948_5020_9d41nat);
    assert(0x12b0_eff6_c049_6d6d_d948_5020_9d41nat * 0x12b0_eff6_c049_6d6d_d948_5020_9d41nat == 0x15d_5c09_8741_6139_2178_92b9_bce5_5f46_89a2_dd05_b95f_0d00_50d8_ca81nat);
    assert(0x3f9_c9f5nat * 0x3f9_c9f5 == 0xf_ce76_3bec_a479);
    assert(0xf_ce76_3bec_a479nat * 0xf_ce76_3bec_a479 == 0xf9_d85d_84c7_6b0f_4a1b_6ec3_4131nat);
    assert(0xf9_d85d_84c7_6b0f_4a1b_6ec3_4131nat * 0x3f9_c9f5 == 0x3_e151_a581_faf8_f5a5_ddcc_7be6_4ab5_dce5nat);
    assert(0x3f9_ebf5nat * 0x3f9_ebf5 == 0xf_cf84_9a15_b879);
    assert(0xf_cf84_9a15_b879nat * 0xf_cf84_9a15_b879 == 0xf9_f9c1_c46a_01a6_0e91_5cc8_2931nat);
    assert(0xf9_f9c1_c46a_01a6_0e91_5cc8_2931nat * 0x3f9_ebf5 == 0x3_e1f7_9a46_2ede_d5a6_e2c4_f875_2d08_66e5nat);
    assert(0x3_e151_a581_faf8_f5a5_ddcc_7be6_4ab5_dce5nat * 0x15d_5c09_8741_6139_2178_92b9_bce5_5f46_89a2_dd05_b95f_0d00_50d8_ca81nat == 0x54b_916c_f25c_6a6a_5c45_1905_d6e0_16cc_4609_ad18_9c24_e4dd_03cc_1383_165d_3bf2_9672_8e3b_51a8_a579_1729_0165nat);
    assert(0x3_e1f7_9a46_2ede_d5a6_e2c4_f875_2d08_66e5nat * 0x15d_5c09_8741_6139_2178_92b9_bce5_5f46_89a2_dd05_b95f_0d00_50d8_ca81nat == 0x54c_73e7_4bfa_f6ce_d135_0e29_55c4_1d06_ccdb_6a1c_390f_9907_0e75_15ce_97ef_6374_8c18_ab1a_0b72_e8d2_b3a4_8b65nat);
    assert(0xc35nat * 0x100_0000_0000_0000_0000_0000_0000_0000nat == 0xc_3500_0000_0000_0000_0000_0000_0000_0000nat);
    assert(0x6f_14c1_fb45_ed70_85e5_bf96_2788_99a2_48b3_d1d6_b904_d898_11f0_9d31nat * 0xc_3500_0000_0000_0000_0000_0000_0000_0000nat == 0x54b_f863_f04c_9b6e_927d_8bb3_f096_7b6a_017b_1082_2088_27f8_52fe_2ed7_2500_0000_0000_0000_0000_0000_0000_0000nat);
    lemma_near_above(
        0x3f4b_9231, 0xcb_9231, 125, 0x100, 0xc_3500_0000_0000_0000_0000_0000_0000_0000nat, 230,
        244525, 0x33_f17f_d236_fcf5,
        0xa8a_1cbf_ab86_9110_87e7_a54f_4279nat,
        0x45_2c59_9066_9ca1, 0x12b0_eff6_c049_6d6d_d948_5020_9d41nat,
        0x3f9_c9f5, 0xf_ce76_3bec_a479, 0xf9_d85d_84c7_6b0f_4a1b_6ec3_4131nat,
        0x3f9_ebf5, 0xf_cf84_9a15_b879, 0xf9_f9c1_c46a_01a6_0e91_5cc8_2931nat,
    );
}

/// The value 0x3f4d_8f91.
proof fn lemma_at_3f4d8f91()
    ensures
        chord_code(0x3f4d_8f91, 0x3f4d_5e8d, 0x3f55_5e8d, 0x4367_e7dd, 0x436b_d83b) == 231,
{
    reveal(chord_code);
    lemma2_to64();
    lemma2_to64_rest();
    lemma_high_powers();
    assert(0xd5_5e8d * 0x1 - 0xcd_5e8d * 0x1 == 0x8_0000);
    lemma_sum_known(0x3f55_5e8d, 0x3f4d_5e8d, true, 0xd5_5e8d, 125, 0xcd_5e8d, 125, 0x1, 0x1, 0x8_0000, 20, 0x8_0000, 0x10);
    assert(sub_spec(0x3f55_5e8d, 0x3f4d_5e8d) == 0x3d00_0000);
    assert(0xcd_8f91 * 0x1 - 0xcd_5e8d * 0x1 == 0x3104);
    lemma_sum_known(0x3f4d_8f91, 0x3f4d_5e8d, true, 0xcd_8f91, 125, 0xcd_5e8d, 125, 0x1, 0x1, 0x3104, 14, 0x2000, 0x400);
    assert(sub_spec(0x3f4d_8f91, 0x3f4d_5e8d) == 0x3a44_1000);
    assert(0xeb_d83b * 0x1 - 0xe7_e7dd * 0x1 == 0x3_f05e);
    lemma_sum_known(0x436b_d83b, 0x4367_e7dd, true, 0xeb_d83b, 133, 0xe7_e7dd, 133, 0x1, 0x1, 0x3_f05e, 18, 0x2_0000, 0x40);
    assert(sub_spec(0x436b_d83b, 0x4367_e7dd) == 0x407c_1780);
    assert(0xfc_1780 * 0xc4_1000 == 0xc111_bf78_0000);
    lemma_product_known(0x407c_1780, 0x3a44_1000, 0xfc_1780, 127, 0xc4_1000, 115, 0xc111_bf78_0000, 48, 0x8000_0000_0000, 0x100_0000);
    assert(mul_spec(0x407c_1780, 0x3a44_1000) == 0x3b41_11bf);
    assert(0xc1_11bf * 0x1_0000_0000_0000_0000 == 0x1_8223_7e00_0000_0000 * 0x80_0000 + 0x0);
    lemma_quotient_known(0x3b41_11bf, 0x3d00_0000, 0xc1_11bf, 117, 0x80_0000, 121, 0x1_8223_7e00_0000_0000, 0x0, 66, 0x2_0000_0000_0000_0000, 0x400_0000_0000);
    assert(div_spec(0x3b41_11bf, 0x3d00_0000) == 0x3dc1_11bf);
    assert(0xe7_e7dd * 0x800 + 0xc1_11bf * 0x1 == 0x7_3fff_f9bf);
    lemma_sum_known(0x4367_e7dd, 0x3dc1_11bf, false, 0xe7_e7dd, 133, 0xc1_11bf, 122, 0x800, 0x1, 0x7_3fff_f9bf, 35, 0x4_0000_0000, 0x800);
    assert(add_spec(0x4367_e7dd, 0x3dc1_11bf) == 0x4367_ffff);
    lemma_whole_known(0x4367_ffff, 0xe7_ffff, 133, 0x1_0000);
}

/// The value 0x3f4d_8f92.
proof fn lemma_at_3f4d8f92()
    ensures
        chord_code(0x3f4d_8f92, 0x3f4d_5e8d, 0x3f55_5e8d, 0x4367_e7dd, 0x436b_d83b) == 232,
{
    reveal(chord_code);
    lemma2_to64();
    lemma2_to64_rest();
    lemma_high_powers();
    assert(0xd5_5e8d * 0x1 - 0xcd_5e8d * 0x1 == 0x8_0000);
    lemma_sum_known(0x3f55_5e8d, 0x3f4d_5e8d, true, 0xd5_5e8d, 125, 0xcd_5e8d, 125, 0x1, 0x1, 0x8_0000, 20, 0x8_0000, 0x10);
    assert(sub_spec(0x3f55_5e8d, 0x3f4d_5e8d) == 0x3d00_0000);
    assert(0xcd_8f92 * 0x1 - 0xcd_5e8d * 0x1 == 0x3105);
    lemma_sum_known(0x3f4d_8f92, 0x3f4d_5e8d, true, 0xcd_8f92, 125, 0xcd_5e8d, 125, 0x1, 0x1, 0x3105, 14, 0x2000, 0x400);
    assert(sub_spec(0x3f4d_8f92, 0x3f4d_5e8d) == 0x3a44_1400);
    assert(0xeb_d83b * 0x1 - 0xe7_e7dd * 0x1 == 0x3_f05e);
    lemma_sum_known(0x436b_d83b, 0x4367_e7dd, true, 0xeb_d83b, 133, 0xe7_e7dd, 133, 0x1, 0x1, 0x3_f05e, 18, 0x2_0000, 0x40);
    assert(sub_spec(0x436b_d83b, 0x4367_e7dd) == 0x407c_1780);
    assert(0xfc_1780 * 0xc4_1400 == 0xc115_afd6_0000);
    lemma_product_known(0x407c_1780, 0x3a44_1400, 0xfc_1780, 127, 0xc4_1400, 115, 0xc115_afd6_0000, 48, 0x8000_0000_0000, 0x100_0000);
    assert(mul_spec(0x407c_1780, 0x3a44_1400) == 0x3b41_15b0);
    assert(0xc1_15b0 * 0x1_0000_0000_0000_0000 == 0x1_822b_6000_0000_0000 * 0x80_0000 + 0x0);
    lemma_quotient_known(0x3b41_15b0, 0x3d00_0000, 0xc1_15b0, 117, 0x80_0000, 121, 0x1_822b_6000_0000_0000, 0x0, 66, 0x2_0000_0000_0000_0000, 0x400_0000_0000);
    assert(div_spec(0x3b41_15b0, 0x3d00_0000) == 0x3dc1_15b0);
    assert(0xe7_e7dd * 0x800 + 0xc1_15b0 * 0x1 == 0x7_3fff_fdb0);
    lemma_sum_known(0x4367_e7dd, 0x3dc1_15b0, false, 0xe7_e7dd, 133, 0xc1_15b0, 122, 0x800, 0x1, 0x7_3fff_fdb0, 35, 0x4_0000_0000, 0x800);
    assert(add_spec(0x4367_e7dd, 0x3dc1_15b0) == 0x4368_0000);
    lemma_whole_known(0x4368_0000, 0xe8_0000, 133, 0x1_0000);
}

/// The edge of code 231.
proof fn lemma_near_231()
    ensures
        near_exact_edge(0x3f4d_8f91, 231),
{
    lemma2_to64();
    lemma2_to64_rest();
    lemma_fifth_powers_of_two();
    lemma_more_fifth_powers_of_two();
    assert(245525nat * 245525 * 245525 == 0x34_954f_6a1b_392d);
    assert(269025nat * 269025 * 269025 == 0x45_2c59_9066_9ca1);
    assert(0x34_954f_6a1b_392dnat * 0x34_954f_6a1b_392d == 0xacc_ff58_a535_939e_3a04_6043_11e9nat);
    assert(0xacc_ff58_a535_939e_3a04_6043_11e9nat * 0xacc_ff58_a535_939e_3a04_6043_11e9nat == 0x74_a81a_e0e1_34be_5c3d_9e5b_ae7f_4d75_8025_9987_3c04_8249_2136_c611nat);
    assert(0x45_2c59_9066_9ca1nat * 0x45_2c59_9066_9ca1 == 0x12b0_eff6_c049_6d6d_d948_5020_9d41nat);
    assert(0x12b0_eff6_c049_6d6d_d948_5020_9d41nat * 0x12b0_eff6_c049_6d6d_d948_5020_9d41nat == 0x15d_5c09_8741_6139_2178_92b9_bce5_5f46_89a2_dd05_b95f_0d00_50d8_ca81nat);
    assert(0x403_bcd5nat * 0x403_bcd5 == 0x10_1df4_a047_8939);
    assert(0x10_1df4_a047_8939nat * 0x10_1df4_a047_8939 == 0x103_c215_5f03_48ed_fe2c_a72c_0eb1nat);
    assert(0x103_c215_5f03_48ed_fe2c_a72c_0eb1nat * 0x403_bcd5 == 0x4_12d3_3664_57bc_0a0d_21cf_ebaa_6285_3545nat);
    assert(0x403_ded5nat * 0x403_ded5 == 0x10_1f05_a2f4_1d39);
    assert(0x10_1f05_a2f4_1d39nat * 0x10_1f05_a2f4_1d39 == 0x103_e476_bc1a_8b76_cffd_dbfd_f6b1nat);
    assert(0x103_e476_bc1a_8b76_cffd_dbfd_f6b1nat * 0x403_ded5 == 0x4_137f_c0b0_ac67_04ab_79a2_bed2_ee4e_bf45nat);
    assert(0x4_12d3_3664_57bc_0a0d_21cf_ebaa_6285_3545nat * 0x15d_5c09_8741_6139_2178_92b9_bce5_5f46_89a2_dd05_b95f_0d00_50d8_ca81nat == 0x58f_20db_debc_49c2_d7da_1f67_f299_a2c7_10a0_82e9_f1f6_0ee7_838c_520b_5437_56d1_ddfa_03a7_9596_74a3_4360_49c5nat);
    assert(0x4_137f_c0b0_ac67_04ab_79a2_bed2_ee4e_bf45nat * 0x15d_5c09_8741_6139_2178_92b9_bce5_5f46_89a2_dd05_b95f_0d00_50d8_ca81nat == 0x590_0c52_70eb_2af5_d2bb_80b0_ff78_fdaa_8a9f_7b79_c8af_4ba3_e878_3725_f74b_49d1_cbca_803a_7957_c78b_2ad2_d3c5nat);
    assert(0xc35nat * 0x100_0000_0000_0000_0000_0000_0000_0000nat == 0xc_3500_0000_0000_0000_0000_0000_0000_0000nat);
    assert(0x74_a81a_e0e1_34be_5c3d_9e5b_ae7f_4d75_8025_9987_3c04_8249_2136_c611nat * 0xc_3500_0000_0000_0000_0000_0000_0000_0000nat == 0x590_0810_1b1d_18d7_bbfc_2e15_2917_fc8b_554a_fb1f_cfa3_0a66_b271_9fcd_8500_0000_0000_0000_0000_0000_0000_0000nat);
    lemma_near_above(
        0x3f4d_8f91, 0xcd_8f91, 125, 0x100, 0xc_3500_0000_0000_0000_0000_0000_0000_0000nat, 231,
        245525, 0x34_954f_6a1b_392d,
        0xacc_ff58_a535_939e_3a04_6043_11e9nat,
        0x45_2c59_9066_9ca1, 0x12b0_eff6_c049_6d6d_d948_5020_9d41nat,
        0x403_bcd5, 0x10_1df4_a047_8939, 0x103_c215_5f03_48ed_fe2c_a72c_0eb1nat,
        0x403_ded5, 0x10_1f05_a2f4_1d39, 0x103_e476_bc1a_8b76_cffd_dbfd_f6b1nat,
    );
}

/// The value 0x3f4f_9781.
proof fn lemma_at_3f4f9781()
    ensures
        chord_code(0x3f4f_9781, 0x3f4d_5e8d, 0x3f55_5e8d, 0x4367_e7dd, 0x436b_d83b) == 232,
{
    reveal(chord_code);
    lemma2_to64();
    lemma2_to64_rest();
    lemma_high_powers();
    assert(0xd5_5e8d * 0x1 - 0xcd_5e8d * 0x1 == 0x8_0000);
    lemma_sum_known(0x3f55_5e8d, 0x3f4d_5e8d, true, 0xd5_5e8d, 125, 0xcd_5e8d, 125, 0x1, 0x1, 0x8_0000, 20, 0x8_0000, 0x10);
    assert(sub_spec(0x3f55_5e8d, 0x3f4d_5e8d) == 0x3d00_0000);
    assert(0xcf_9781 * 0x1 - 0xcd_5e8d * 0x1 == 0x2_38f4);
    lemma_sum_known(0x3f4f_9781, 0x3f4d_5e8d, true, 0xcf_9781, 125, 0xcd_5e8d, 125, 0x1, 0x1, 0x2_38f4, 18, 0x2_0000, 0x40);
    assert(sub_spec(0x3f4f_9781, 0x3f4d_5e8d) == 0x3c0e_3d00);
    assert(0xeb_d83b * 0x1 - 0xe7_e7dd * 0x1 == 0x3_f05e);
    lemma_sum_known(0x436b_d83b, 0x4367_e7dd, true, 0xeb_d83b, 133, 0xe7_e7dd, 133, 0x1, 0x1, 0x3_f05e, 18, 0x2_0000, 0x40);
    assert(sub_spec(0x436b_d83b, 0x4367_e7dd) == 0x407c_1780);
    assert(0xfc_1780 * 0x8e_3d00 == 0x8c11_1a99_8000);
    lemma_product_known(0x407c_1780, 0x3c0e_3d00, 0xfc_1780, 127, 0x8e_3d00, 119, 0x8c11_1a99_8000, 48, 0x8000_0000_0000, 0x100_0000);
    assert(mul_spec(0x407c_1780, 0x3c0e_3d00) == 0x3d0c_111b);
    assert(0x8c_111b * 0x1_0000_0000_0000_0000 == 0x1_1822_3600_0000_0000 * 0x80_0000 + 0x0);
    lemma_quotient_known(0x3d0c_111b, 0x3d00_0000, 0x8c_111b, 121, 0x80_0000, 121, 0x1_1822_3600_0000_0000, 0x0, 66, 0x2_0000_0000_0000_0000, 0x400_0000_0000);
    assert(div_spec(0x3d0c_111b, 0x3d00_0000) == 0x3f8c_111b);
    assert(0xe7_e7dd * 0x80 + 0x8c_111b * 0x1 == 0x747f_ff9b);
    lemma_sum_known(0x4367_e7dd, 0x3f8c_111b, false, 0xe7_e7dd, 133, 0x8c_111b, 126, 0x80, 0x1, 0x747f_ff9b, 31, 0x4000_0000, 0x80);
    assert(add_spec(0x4367_e7dd, 0x3f8c_111b) == 0x4368_ffff);
    lemma_whole_known(0x4368_ffff, 0xe8_ffff, 133, 0x1_0000);
}

/// The value 0x3f4f_9782.
proof fn lemma_at_3f4f9782()
    ensures
        chord_code(0x3f4f_9782, 0x3f4d_5e8d, 0x3f55_5e8d, 0x4367_e7dd, 0x436b_d83b) == 233,
{
    reveal(chord_code);
    lemma2_to64();
    lemma2_to64_rest();
    lemma_high_powers();
    assert(0xd5_5e8d * 0x1 - 0xcd_5e8d * 0x1 == 0x8_0000);
    lemma_sum_known(0x3f55_5e8d, 0x3f4d_5e8d, true, 0xd5_5e8d, 125, 0xcd_5e8d, 125, 0x1, 0x1, 0x8_0000, 20, 0x8_0000, 0x10);
    assert(sub_spec(0x3f55_5e8d, 0x3f4d_5e8d) == 0x3d00_0000);
    assert(0xcf_9782 * 0x1 - 0xcd_5e8d * 0x1 == 0x2_38f5);
    lemma_sum_known(0x3f4f_9782, 0x3f4d_5e8d, true, 0xcf_9782, 125, 0xcd_5e8d, 125, 0x1, 0x1, 0x2_38f5, 18, 0x2_0000, 0x40);
    assert(sub_spec(0x3f4f_9782, 0x3f4d_5e8d) == 0x3c0e_3d40);
    assert(0xeb_d83b * 0x1 - 0xe7_e7dd * 0x1 == 0x3_f05e);
    lemma_sum_known(0x436b_d83b, 0x4367_e7dd, true, 0xeb_d83b, 133, 0xe7_e7dd, 133, 0x1, 0x1, 0x3_f05e, 18, 0x2_0000, 0x40);
    assert(sub_spec(0x436b_d83b, 0x4367_e7dd) == 0x407c_1780);
    assert(0xfc_1780 * 0x8e_3d40 == 0x8c11_599f_6000);
    lemma_product_known(0x407c_1780, 0x3c0e_3d40, 0xfc_1780, 127, 0x8e_3d40, 119, 0x8c11_599f_6000, 48, 0x8000_0000_0000, 0x100_0000);
    assert(mul_spec(0x407c_1780, 0x3c0e_3d40) == 0x3d0c_115a);
    assert(0x8c_115a * 0x1_0000_0000_0000_0000 == 0x1_1822_b400_0000_0000 * 0x80_0000 + 0x0);
    lemma_quotient_known(0x3d0c_115a, 0x3d00_0000, 0x8c_115a, 121, 0x80_0000, 121, 0x1_1822_b400_0000_0000, 0x0, 66, 0x2_0000_0000_0000_0000, 0x400_0000_0000);
    assert(div_spec(0x3d0c_115a, 0x3d00_0000) == 0x3f8c_115a);
    assert(0xe7_e7dd * 0x80 + 0x8c_115a * 0x1 == 0x747f_ffda);
    lemma_sum_known(0x4367_e7dd, 0x3f8c_115a, false, 0xe7_e7dd, 133, 0x8c_115a, 126, 0x80, 0x1, 0x747f_ffda, 31, 0x4000_0000, 0x80);
    assert(add_spec(0x4367_e7dd, 0x3f8c_115a) == 0x4369_0000);
    lemma_whole_known(0x4369_0000, 0xe9_0000, 133, 0x1_0000);
}

/// The edge of code 232.
proof fn lemma_near_232()
    ensures
        near_exact_edge(0x3f4f_9781, 232),
{
    lemma2_to64();
    lemma2_to64_rest();
    lemma_fifth_powers_of_two();
    lemma_more_fifth_powers_of_two();
    assert(246525nat * 246525 * 246525 == 0x35_3a76_0094_90e5);
    assert(269025nat * 269025 * 269025 == 0x45_2c59_9066_9ca1);
    assert(0x35_3a76_0094_90e5nat * 0x35_3a76_0094_90e5 == 0xb11_4235_ec2b_d96f_ad53_daca_6cd9nat);
    assert(0xb11_4235_ec2b_d96f_ad53_daca_6cd9nat * 0xb11_4235_ec2b_d96f_ad53_daca_6cd9nat == 0x7a_7cda_7e94_fba4_b9e0_b7f6_218b_6ce3_9b88_0225_778b_4027_88bb_cff1nat);
    assert(0x45_2c59_9066_9ca1nat * 0x45_2c59_9066_9ca1 == 0x12b0_eff6_c049_6d6d_d948_5020_9d41nat);
    assert(0x12b0_eff6_c049_6d6d_d948_5020_9d41nat * 0x12b0_eff6_c049_6d6d_d948_5020_9d41nat == 0x15d_5c09_8741_6139_2178_92b9_bce5_5f46_89a2_dd05_b95f_0d00_50d8_ca81nat);
    assert(0x40d_e485nat * 0x40d_e485 == 0x10_6fe5_297f_2d19);
    assert(0x10_6fe5_297f_2d19nat * 0x10_6fe5_297f_2d19 == 0x10e_2d8d_b705_307c_5859_c8bf_cc71nat);
    assert(0x10e_2d8d_b705_307c_5859_c8bf_cc71nat * 0x40d_e485 == 0x4_475f_b3fe_41a6_1c92_d2fc_0e5f_4376_dab5nat);
    assert(0x40e_0685nat * 0x40e_0685 == 0x10_70f8_deb6_8119);
    assert(0x10_70f8_deb6_8119nat * 0x10_70f8_deb6_8119 == 0x10e_50f6_8ba0_1771_0a73_2ca6_3471nat);
    assert(0x10e_50f6_8ba0_1771_0a73_2ca6_3471nat * 0x40e_0685 == 0x4_4813_29ff_fa7b_5711_32f8_2aca_b9c1_e4b5nat);
    assert(0x4_475f_b3fe_41a6_1c92_d2fc_0e5f_4376_dab5nat * 0x15d_5c09_8741_6139_2178_92b9_bce5_5f46_89a2_dd05_b95f_0d00_50d8_ca81nat == 0x5d6_d747_8b67_6a34_742c_5436_4bf5_2f06_2bc0_f924_54be_6342_8413_bb1d_dafd_507e_4e91_53bf_1916_aadd_e02f_0735nat);
    assert(0x4_4813_29ff_fa7b_5711_32f8_2aca_b9c1_e4b5nat * 0x15d_5c09_8741_6139_2178_92b9_bce5_5f46_89a2_dd05_b95f_0d00_50d8_ca81nat == 0x5d7_cc2f_f0d6_fa71_59a5_6bfc_db05_1ab9_3722_2234_4cb2_4628_1be9_df94_edfa_066b_f7b3_11d8_7ab3_0acc_21e3_1135nat);
    assert(0xc35nat * 0x100_0000_0000_0000_0000_0000_0000_0000nat == 0xc_3500_0000_0000_0000_0000_0000_0000_0000nat);
    assert(0x7a_7cda_7e94_fba4_b9e0_b7f6_218b_6ce3_9b88_0225_778b_4027_88bb_cff1nat * 0xc_3500_0000_0000_0000_0000_0000_0000_0000nat == 0x5d7_3617_2b30_a3d1_d104_259f_877a_f836_6993_4233_5c46_d622_981c_a158_e500_0000_0000_0000_0000_0000_0000_0000nat);
    lemma_near_above(
        0x3f4f_9781, 0xcf_9781, 125, 0x100, 0xc_3500_0000_0000_0000_0000_0000_0000_0000nat, 232,
        246525, 0x35_3a76_0094_90e5,
        0xb11_4235_ec2b_d96f_ad53_daca_6cd9nat,
        0x45_2c59_9066_9ca1, 0x12b0_eff6_c049_6d6d_d948_5020_9d41nat,
        0x40d_e485, 0x10_6fe5_297f_2d19, 0x10e_2d8d_b705_307c_5859_c8bf_cc71nat,
        0x40e_0685, 0x10_70f8_deb6_8119, 0x10e_50f6_8ba0_1771_0a73_2ca6_3471nat,
    );
}

/// The value 0x3f51_9f71.
proof fn lemma_at_3f519f71()
    ensures
        chord_code(0x3f51_9f71, 0x3f4d_5e8d, 0x3f55_5e8d, 0x4367_e7dd, 0x436b_d83b) == 233,
{
    reveal(chord_code);
    lemma2_to64();
    lemma2_to64_rest();
    lemma_high_powers();
    assert(0xd5_5e8d * 0x1 - 0xcd_5e8d * 0x1 == 0x8_0000);
    lemma_sum_known(0x3f55_5e8d, 0x3f4d_5e8d, true, 0xd5_5e8d, 125, 0xcd_5e8d, 125, 0x1, 0x1, 0x8_0000, 20, 0x8_0000, 0x10);
    assert(sub_spec(0x3f55_5e8d, 0x3f4d_5e8d) == 0x3d00_0000);
    assert(0xd1_9f71 * 0x1 - 0xcd_5e8d * 0x1 == 0x4_40e4);
    lemma_sum_known(0x3f51_9f71, 0x3f4d_5e8d, true, 0xd1_9f71, 125, 0xcd_5e8d, 125, 0x1, 0x1, 0x4_40e4, 19, 0x4_0000, 0x20);
    assert(sub_spec(0x3f51_9f71, 0x3f4d_5e8d) == 0x3c88_1c80);
    assert(0xeb_d83b * 0x1 - 0xe7_e7dd * 0x1 == 0x3_f05e);
    lemma_sum_known(0x436b_d83b, 0x4367_e7dd, true, 0xeb_d83b, 133, 0xe7_e7dd, 133, 0x1, 0x1, 0x3_f05e, 18, 0x2_0000, 0x40);
    assert(sub_spec(0x436b_d83b, 0x4367_e7dd) == 0x407c_1780);
    assert(0xfc_1780 * 0x88_1c80 == 0x8608_8c9d_c000);
    lemma_product_known(0x407c_1780, 0x3c88_1c80, 0xfc_1780, 127, 0x88_1c80, 120, 0x8608_8c9d_c000, 48, 0x8000_0000_0000, 0x100_0000);
    assert(mul_spec(0x407c_1780, 0x3c88_1c80) == 0x3d86_088d);
    assert(0x86_088d * 0x1_0000_0000_0000_0000 == 0x1_0c11_1a00_0000_0000 * 0x80_0000 + 0x0);
    lemma_quotient_known(0x3d86_088d, 0x3d00_0000, 0x86_088d, 122, 0x80_0000, 121, 0x1_0c11_1a00_0000_0000, 0x0, 66, 0x2_0000_0000_0000_0000, 0x400_0000_0000);
    assert(div_spec(0x3d86_088d, 0x3d00_0000) == 0x4006_088d);
    assert(0xe7_e7dd * 0x40 + 0x86_088d * 0x1 == 0x3a7f_ffcd);
    lemma_sum_known(0x4367_e7dd, 0x4006_088d, false, 0xe7_e7dd, 133, 0x86_088d, 127, 0x40, 0x1, 0x3a7f_ffcd, 30, 0x2000_0000, 0x40);
    assert(add_spec(0x4367_e7dd, 0x4006_088d) == 0x4369_ffff);
    lemma_whole_known(0x4369_ffff, 0xe9_ffff, 133, 0x1_0000);
}

/// The value 0x3f51_9f72.
proof fn lemma_at_3f519f72()
    ensures
        chord_code(0x3f51_9f72, 0x3f4d_5e8d, 0x3f55_5e8d, 0x4367_e7dd, 0x436b_d83b) == 234,
{
    reveal(chord_code);
    lemma2_to64();
    lemma2_to64_rest();
    lemma_high_powers();
    assert(0xd5_5e8d * 0x1 - 0xcd_5e8d * 0x1 == 0x8_0000);
    lemma_sum_known(0x3f55_5e8d, 0x3f4d_5e8d, true, 0xd5_5e8d, 125, 0xcd_5e8d, 125, 0x1, 0x1, 0x8_0000, 20, 0x8_0000, 0x10);
    assert(sub_spec(0x3f55_5e8d, 0x3f4d_5e8d) == 0x3d00_0000);
    assert(0xd1_9f72 * 0x1 - 0xcd_5e8d * 0x1 == 0x4_40e5);
    lemma_sum_known(0x3f51_9f72, 0x3f4d_5e8d, true, 0xd1_9f72, 125, 0xcd_5e8d, 125, 0x1, 0x1, 0x4_40e5, 19, 0x4_0000, 0x20);
    assert(sub_spec(0x3f51_9f72, 0x3f4d_5e8d) == 0x3c88_1ca0);
    assert(0xeb_d83b * 0x1 - 0xe7_e7dd * 0x1 == 0x3_f05e);
    lemma_sum_known(0x436b_d83b, 0x4367_e7dd, true, 0xeb_d83b, 133, 0xe7_e7dd, 133, 0x1, 0x1, 0x3_f05e, 18, 0x2_0000, 0x40);
    assert(sub_spec(0x436b_d83b, 0x4367_e7dd) == 0x407c_1780);
    assert(0xfc_1780 * 0x88_1ca0 == 0x8608_ac20_b000);
    lemma_product_known(0x407c_1780, 0x3c88_1ca0, 0xfc_1780, 127, 0x88_1ca0, 120, 0x8608_ac20_b000, 48, 0x8000_0000_0000, 0x100_0000);
    assert(mul_spec(0x407c_1780, 0x3c88_1ca0) == 0x3d86_08ac);
    assert(0x86_08ac * 0x1_0000_0000_0000_0000 == 0x1_0c11_5800_0000_0000 * 0x80_0000 + 0x0);
    lemma_quotient_known(0x3d86_08ac, 0x3d00_0000, 0x86_08ac, 122, 0x80_0000, 121, 0x1_0c11_5800_0000_0000, 0x0, 66, 0x2_0000_0000_0000_0000, 0x400_0000_0000);
    assert(div_spec(0x3d86_08ac, 0x3d00_0000) == 0x4006_08ac);
    assert(0xe7_e7dd * 0x40 + 0x86_08ac * 0x1 == 0x3a7f_ffec);
    lemma_sum_known(0x4367_e7dd, 0x4006_08ac, false, 0xe7_e7dd, 133, 0x86_08ac, 127, 0x40, 0x1, 0x3a7f_ffec, 30, 0x2000_0000, 0x40);
    assert(add_spec(0x4367_e7dd, 0x4006_08ac) == 0x436a_0000);
    lemma_whole_known(0x436a_0000, 0xea_0000, 133, 0x1_0000);
}

/// The edge of code 233.
proof fn lemma_near_233()
    ensures
        near_exact_edge(0x3f51_9f71, 233),
{
    lemma2_to64();
    lemma2_to64_rest();
    lemma_fifth_powers_of_two();
    lemma_more_fifth_powers_of_two();
    assert(247525nat * 247525 * 247525 == 0x35_e0f4_fb43_c01d);
    assert(269025nat * 269025 * 269025 == 0x45_2c59_9066_9ca1);
    assert(0x35_e0f4_fb43_c01dnat * 0x35_e0f4_fb43_c01d == 0xb56_eb1d_ac34_0bf8_e3ee_fd59_8349nat);
    assert(0xb56_eb1d_ac34_0bf8_e3ee_fd59_8349nat * 0xb56_eb1d_ac34_0bf8_e3ee_fd59_8349nat == 0x80_95b7_5cab_a997_746b_51df_a2a9_4b73_ed13_b0c7_6f6d_9e86_d615_cad1nat);
    assert(0x45_2c59_9066_9ca1nat * 0x45_2c59_9066_9ca1 == 0x12b0_eff6_c049_6d6d_d948_5020_9d41nat);
    assert(0x12b0_eff6_c049_6d6d_d948_5020_9d41nat * 0x12b0_eff6_c049_6d6d_d948_5020_9d41nat == 0x15d_5c09_8741_6139_2178_92b9_bce5_5f46_89a2_dd05_b95f_0d00_50d8_ca81nat);
    assert(0x418_0c35nat * 0x418_0c35 == 0x10_c2a3_f285_02f9);
    assert(0x10_c2a3_f285_02f9nat * 0x10_c2a3_f285_02f9 == 0x118_e87b_3530_b2c2_ebd0_dac2_d631nat);
    assert(0x118_e87b_3530_b2c2_ebd0_dac2_d631nat * 0x418_0c35 == 0x4_7e05_1d6f_a75c_196b_8468_2a1b_44f8_a425nat);
    assert(0x418_2e35nat * 0x418_2e35 == 0x10_c3ba_5a47_16f9);
    assert(0x10_c3ba_5a47_16f9nat * 0x10_c3ba_5a47_16f9 == 0x119_0cf0_b612_7b42_c7b8_d42d_be31nat);
    assert(0x119_0cf0_b612_7b42_c7b8_d42d_be31nat * 0x418_2e35 == 0x4_7ebf_b3ec_4a35_9d5b_215b_2aa6_be3d_2e25nat);
    assert(0x4_7e05_1d6f_a75c_196b_8468_2a1b_44f8_a425nat * 0x15d_5c09_8741_6139_2178_92b9_bce5_5f46_89a2_dd05_b95f_0d00_50d8_ca81nat == 0x621_6a6d_c593_b833_9335_44c1_4c32_af40_eb89_c73c_3f69_90be_997d_4edd_f4bc_7b28_57a2_b9d1_3d57_8240_0207_e8a5nat);
    assert(0x4_7ebf_b3ec_4a35_9d5b_215b_2aa6_be3d_2e25nat * 0x15d_5c09_8741_6139_2178_92b9_bce5_5f46_89a2_dd05_b95f_0d00_50d8_ca81nat == 0x622_6910_0284_64a7_221d_2a66_f8b9_3296_b68a_8e46_c208_db73_15c4_6c44_81eb_9f65_6f75_f3ec_cece_932c_a275_72a5nat);
    assert(0xc35nat * 0x100_0000_0000_0000_0000_0000_0000_0000nat == 0xc_3500_0000_0000_0000_0000_0000_0000_0000nat);
    assert(0x80_95b7_5cab_a997_746b_51df_a2a9_4b73_ed13_b0c7_6f6d_9e86_d615_cad1nat * 0xc_3500_0000_0000_0000_0000_0000_0000_0000nat == 0x621_a397_4e3b_7d35_d022_0e6e_ec9c_960e_1d01_5cf2_8335_2023_f358_04c9_4500_0000_0000_0000_0000_0000_0000_0000nat);
    lemma_near_above(
        0x3f51_9f71, 0xd1_9f71, 125, 0x100, 0xc_3500_0000_0000_0000_0000_0000_0000_0000nat, 233,
        247525, 0x35_e0f4_fb43_c01d,
        0xb56_eb1d_ac34_0bf8_e3ee_fd59_8349nat,
        0x45_2c59_9066_9ca1, 0x12b0_eff6_c049_6d6d_d948_5020_9d41nat,
        0x418_0c35, 0x10_c2a3_f285_02f9, 0x118_e87b_3530_b2c2_ebd0_dac2_d631nat,
        0x418_2e35, 0x10_c3ba_5a47_16f9, 0x119_0cf0_b612_7b42_c7b8_d42d_be31nat,
    );
}

/// The value 0x3f53_a761.
proof fn lemma_at_3f53a761()
    ensures
        chord_code(0x3f53_a761, 0x3f4d_5e8d, 0x3f55_5e8d, 0x4367_e7dd, 0x436b_d83b) == 234,
{
    reveal(chord_code);
    lemma2_to64();
    lemma2_to64_rest();
    lemma_high_powers();
    assert(0xd5_5e8d * 0x1 - 0xcd_5e8d * 0x1 == 0x8_0000);
    lemma_sum_known(0x3f55_5e8d, 0x3f4d_5e8d, true, 0xd5_5e8d, 125, 0xcd_5e8d, 125, 0x1, 0x1, 0x8_0000, 20, 0x8_0000, 0x10);
    assert(sub_spec(0x3f55_5e8d, 0x3f4d_5e8d) == 0x3d00_0000);
    assert(0xd3_a761 * 0x1 - 0xcd_5e8d * 0x1 == 0x6_48d4);
    lemma_sum_known(0x3f53_a761, 0x3f4d_5e8d, true, 0xd3_a761, 125, 0xcd_5e8d, 125, 0x1, 0x1, 0x6_48d4, 19, 0x4_0000, 0x20);
    assert(sub_spec(0x3f53_a761, 0x3f4d_5e8d) == 0x3cc9_1a80);
    assert(0xeb_d83b * 0x1 - 0xe7_e7dd * 0x1 == 0x3_f05e);
    lemma_sum_known(0x436b_d83b, 0x4367_e7dd, true, 0xeb_d83b, 133, 0xe7_e7dd, 133, 0x1, 0x1, 0x3_f05e, 18, 0x2_0000, 0x40);
    assert(sub_spec(0x436b_d83b, 0x4367_e7dd) == 0x407c_1780);
    assert(0xfc_1780 * 0xc9_1a80 == 0xc608_8bee_c000);
    lemma_product_known(0x407c_1780, 0x3cc9_1a80, 0xfc_1780, 127, 0xc9_1a80, 120, 0xc608_8bee_c000, 48, 0x8000_0000_0000, 0x100_0000);
    assert(mul_spec(0x407c_1780, 0x3cc9_1a80) == 0x3dc6_088c);
    assert(0xc6_088c * 0x1_0000_0000_0000_0000 == 0x1_8c11_1800_0000_0000 * 0x80_0000 + 0x0);
    lemma_quotient_known(0x3dc6_088c, 0x3d00_0000, 0xc6_088c, 122, 0x80_0000, 121, 0x1_8c11_1800_0000_0000, 0x0, 66, 0x2_0000_0000_0000_0000, 0x400_0000_0000);
    assert(div_spec(0x3dc6_088c, 0x3d00_0000) == 0x4046_088c);
    assert(0xe7_e7dd * 0x40 + 0xc6_088c * 0x1 == 0x3abf_ffcc);
    lemma_sum_known(0x4367_e7dd, 0x4046_088c, false, 0xe7_e7dd, 133, 0xc6_088c, 127, 0x40, 0x1, 0x3abf_ffcc, 30, 0x2000_0000, 0x40);
    assert(add_spec(0x4367_e7dd, 0x4046_088c) == 0x436a_ffff);
    lemma_whole_known(0x436a_ffff, 0xea_ffff, 133, 0x1_0000);
}

/// The value 0x3f53_a762.
proof fn lemma_at_3f53a762()
    ensures
        chord_code(0x3f53_a762, 0x3f4d_5e8d, 0x3f55_5e8d, 0x4367_e7dd, 0x436b_d83b) == 235,
{
    reveal(chord_code);
    lemma2_to64();
    lemma2_to64_rest();
    lemma_high_powers();
    assert(0xd5_5e8d * 0x1 - 0xcd_5e8d * 0x1 == 0x8_0000);
    lemma_sum_known(0x3f55_5e8d, 0x3f4d_5e8d, true, 0xd5_5e8d, 125, 0xcd_5e8d, 125, 0x1, 0x1, 0x8_0000, 20, 0x8_0000, 0x10);
    assert(sub_spec(0x3f55_5e8d, 0x3f4d_5e8d) == 0x3d00_0000);
    assert(0xd3_a762 * 0x1 - 0xcd_5e8d * 0x1 == 0x6_48d5);
    lemma_sum_known(0x3f53_a762, 0x3f4d_5e8d, true, 0xd3_a762, 125, 0xcd_5e8d, 125, 0x1, 0x1, 0x6_48d5, 19, 0x4_0000, 0x20);
    assert(sub_spec(0x3f53_a762, 0x3f4d_5e8d) == 0x3cc9_1aa0);
    assert(0xeb_d83b * 0x1 - 0xe7_e7dd * 0x1 == 0x3_f05e);
    lemma_sum_known(0x436b_d83b, 0x4367_e7dd, true, 0xeb_d83b, 133, 0xe7_e7dd, 133, 0x1, 0x1, 0x3_f05e, 18, 0x2_0000, 0x40);
    assert(sub_spec(0x436b_d83b, 0x4367_e7dd) == 0x407c_1780);
    assert(0xfc_1780 * 0xc9_1aa0 == 0xc608_ab71_b000);
    lemma_product_known(0x407c_1780, 0x3cc9_1aa0, 0xfc_1780, 127, 0xc9_1aa0, 120, 0xc608_ab71_b000, 48, 0x8000_0000_0000, 0x100_0000);
    assert(mul_spec(0x407c_1780, 0x3cc9_1aa0) == 0x3dc6_08ab);
    assert(0xc6_08ab * 0x1_0000_0000_0000_0000 == 0x1_8c11_5600_0000_0000 * 0x80_0000 + 0x0);
    lemma_quotient_known(0x3dc6_08ab, 0x3d00_0000, 0xc6_08ab, 122, 0x80_0000, 121, 0x1_8c11_5600_0000_0000, 0x0, 66, 0x2_0000_0000_0000_0000, 0x400_0000_0000);
    assert(div_spec(0x3dc6_08ab, 0x3d00_0000) == 0x4046_08ab);
    assert(0xe7_e7dd * 0x40 + 0xc6_08ab * 0x1 == 0x3abf_ffeb);
    lemma_sum_known(0x4367_e7dd, 0x4046_08ab, false, 0xe7_e7dd, 133, 0xc6_08ab, 127, 0x40, 0x1, 0x3abf_ffeb, 30, 0x2000_0000, 0x40);
    assert(add_spec(0x4367_e7dd, 0x4046_08ab) == 0x436b_0000);
    lemma_whole_known(0x436b_0000, 0xeb_0000, 133, 0x1_0000);
}

/// The edge of code 234.
proof fn lemma_near_234()
    ensures
        near_exact_edge(0x3f53_a761, 234),
{
    lemma2_to64();
    lemma2_to64_rest();
    lemma_fifth_powers_of_two();
    lemma_more_fifth_powers_of_two();
    assert(248525nat * 248525 * 248525 == 0x36_88cd_bfc9_82d5);
    assert(269025nat * 269025 * 269025 == 0x45_2c59_9066_9ca1);
    assert(0x36_88cd_bfc9_82d5nat * 0x36_88cd_bfc9_82d5 == 0xb9d_ffe8_2a26_0548_28fa_8b57_0539nat);
    assert(0xb9d_ffe8_2a26_0548_28fa_8b57_0539nat * 0xb9d_ffe8_2a26_0548_28fa_8b57_0539nat == 0x86_f581_d633_4d9a_d867_9f17_09dd_7e15_cdcb_48d2_cd7f_a094_72d9_46b1nat);
    assert(0x45_2c59_9066_9ca1nat * 0x45_2c59_9066_9ca1 == 0x12b0_eff6_c049_6d6d_d948_5020_9d41nat);
    assert(0x12b0_eff6_c049_6d6d_d948_5020_9d41nat * 0x12b0_eff6_c049_6d6d_d948_5020_9d41nat == 0x15d_5c09_8741_6139_2178_92b9_bce5_5f46_89a2_dd05_b95f_0d00_50d8_ca81nat);
    assert(0x422_33e5nat * 0x422_33e5 == 0x11_1630_fb59_0ad9);
    assert(0x11_1630_fb59_0ad9nat * 0x11_1630_fb59_0ad9 == 0x123_f46d_d665_f6db_179e_1157_abf1nat);
    assert(0x123_f46d_d665_f6db_179e_1157_abf1nat * 0x422_33e5 == 0x4_b6d3_5ccb_995d_4edb_12f4_4a2e_94af_d195nat);
    assert(0x422_55e5nat * 0x422_55e5 == 0x11_174a_15a5_ded9);
    assert(0x11_174a_15a5_ded9nat * 0x11_174a_15a5_ded9 == 0x124_19f5_455b_ec96_757c_9fb7_13f1nat);
    assert(0x124_19f5_455b_ec96_757c_9fb7_13f1nat * 0x422_55e5 == 0x4_b795_4992_4e56_569a_24a5_8c23_1265_db95nat);
    assert(0x4_b6d3_5ccb_995d_4edb_12f4_4a2e_94af_d195nat * 0x15d_5c09_8741_6139_2178_92b9_bce5_5f46_89a2_dd05_b95f_0d00_50d8_ca81nat == 0x66e_f006_61f5_2e67_c3db_f0fe_8661_dcbb_0cb9_5e9e_6bec_4269_0c82_3c14_136f_1ca2_8c29_40cf_d656_19a3_0db0_2e15nat);
    assert(0x4_b795_4992_4e56_569a_24a5_8c23_1265_db95nat * 0x15d_5c09_8741_6139_2178_92b9_bce5_5f46_89a2_dd05_b95f_0d00_50d8_ca81nat == 0x66f_f8ab_e529_1750_bcc2_a3b5_e50f_f8e2_45b9_2ef8_fbfa_612c_8c71_f8a7_c529_284a_949e_0e63_a0c8_35c0_7a4f_3815nat);
    assert(0xc35nat * 0x100_0000_0000_0000_0000_0000_0000_0000nat == 0xc_3500_0000_0000_0000_0000_0000_0000_0000nat);
    assert(0x86_f581_d633_4d9a_d867_9f17_09dd_7e15_cdcb_48d2_cd7f_a094_72d9_46b1nat * 0xc_3500_0000_0000_0000_0000_0000_0000_0000nat == 0x66f_72e9_ebc0_4253_33a8_e904_3b6c_c420_2922_7ff5_4686_f334_1df6_4bee_a500_0000_0000_0000_0000_0000_0000_0000nat);
    lemma_near_above(
        0x3f53_a761, 0xd3_a761, 125, 0x100, 0xc_3500_0000_0000_0000_0000_0000_0000_0000nat, 234,
        248525, 0x36_88cd_bfc9_82d5,
        0xb9d_ffe8_2a26_0548_28fa_8b57_0539nat,
        0x45_2c59_9066_9ca1, 0x12b0_eff6_c049_6d6d_d948_5020_9d41nat,
        0x422_33e5, 0x11_1630_fb59_0ad9, 0x123_f46d_d665_f6db_179e_1157_abf1nat,
        0x422_55e5, 0x11_174a_15a5_ded9, 0x124_19f5_455b_ec96_757c_9fb7_13f1nat,
    );
}

/// The value 0x3f55_b11a.
proof fn lemma_at_3f55b11a()
    ensures
        chord_code(0x3f55_b11a, 0x3f55_5e8d, 0x3f5d_5e8d, 0x436b_d83b, 0x436f_b2c9) == 235,
{
    reveal(chord_code);
    lemma2_to64();
    lemma2_to64_rest();
    lemma_high_powers();
    assert(0xdd_5e8d * 0x1 - 0xd5_5e8d * 0x1 == 0x8_0000);
    lemma_sum_known(0x3f5d_5e8d, 0x3f55_5e8d, true, 0xdd_5e8d, 125, 0xd5_5e8d, 125, 0x1, 0x1, 0x8_0000, 20, 0x8_0000, 0x10);
    assert(sub_spec(0x3f5d_5e8d, 0x3f55_5e8d) == 0x3d00_0000);
    assert(0xd5_b11a * 0x1 - 0xd5_5e8d * 0x1 == 0x528d);
    lemma_sum_known(0x3f55_b11a, 0x3f55_5e8d, true, 0xd5_b11a, 125, 0xd5_5e8d, 125, 0x1, 0x1, 0x528d, 15, 0x4000, 0x200);
    assert(sub_spec(0x3f55_b11a, 0x3f55_5e8d) == 0x3aa5_1a00);
    assert(0xef_b2c9 * 0x1 - 0xeb_d83b * 0x1 == 0x3_da8e);
    lemma_sum_known(0x436f_b2c9, 0x436b_d83b, true, 0xef_b2c9, 133, 0xeb_d83b, 133, 0x1, 0x1, 0x3_da8e, 18, 0x2_0000, 0x40);
    assert(sub_spec(0x436f_b2c9, 0x436b_d83b) == 0x4076_a380);
    assert(0xf6_a380 * 0xa5_1a00 == 0x9f10_6e1b_0000);
    lemma_product_known(0x4076_a380, 0x3aa5_1a00, 0xf6_a380, 127, 0xa5_1a00, 116, 0x9f10_6e1b_0000, 48, 0x8000_0000_0000, 0x100_0000);
    assert(mul_spec(0x4076_a380, 0x3aa5_1a00) == 0x3b9f_106e);
    assert(0x9f_106e * 0x1_0000_0000_0000_0000 == 0x1_3e20_dc00_0000_0000 * 0x80_0000 + 0x0);
    lemma_quotient_known(0x3b9f_106e, 0x3d00_0000, 0x9f_106e, 118, 0x80_0000, 121, 0x1_3e20_dc00_0000_0000, 0x0, 66, 0x2_0000_0000_0000_0000, 0x400_0000_0000);
    assert(div_spec(0x3b9f_106e, 0x3d00_0000) == 0x3e1f_106e);
    assert(0xeb_d83b * 0x400 + 0x9f_106e * 0x1 == 0x3_afff_fc6e);
    lemma_sum_known(0x436b_d83b, 0x3e1f_106e, false, 0xeb_d83b, 133, 0x9f_106e, 123, 0x400, 0x1, 0x3_afff_fc6e, 34, 0x2_0000_0000, 0x400);
    assert(add_spec(0x436b_d83b, 0x3e1f_106e) == 0x436b_ffff);
    lemma_whole_known(0x436b_ffff, 0xeb_ffff, 133, 0x1_0000);
}

/// The value 0x3f55_b11b.
proof fn lemma_at_3f55b11b()
    ensures
        chord_code(0x3f55_b11b, 0x3f55_5e8d, 0x3f5d_5e8d, 0x436b_d83b, 0x436f_b2c9) == 236,
{
    reveal(chord_code);
    lemma2_to64();
    lemma2_to64_rest();
    lemma_high_powers();
    assert(0xdd_5e8d * 0x1 - 0xd5_5e8d * 0x1 == 0x8_0000);
    lemma_sum_known(0x3f5d_5e8d, 0x3f55_5e8d, true, 0xdd_5e8d, 125, 0xd5_5e8d, 125, 0x1, 0x1, 0x8_0000, 20, 0x8_0000, 0x10);
    assert(sub_spec(0x3f5d_5e8d, 0x3f55_5e8d) == 0x3d00_0000);
    assert(0xd5_b11b * 0x1 - 0xd5_5e8d * 0x1 == 0x528e);
    lemma_sum_known(0x3f55_b11b, 0x3f55_5e8d, true, 0xd5_b11b, 125, 0xd5_5e8d, 125, 0x1, 0x1, 0x528e, 15, 0x4000, 0x200);
    assert(sub_spec(0x3f55_b11b, 0x3f55_5e8d) == 0x3aa5_1c00);
    assert(0xef_b2c9 * 0x1 - 0xeb_d83b * 0x1 == 0x3_da8e);
    lemma_sum_known(0x436f_b2c9, 0x436b_d83b, true, 0xef_b2c9, 133, 0xeb_d83b, 133, 0x1, 0x1, 0x3_da8e, 18, 0x2_0000, 0x40);
    assert(sub_spec(0x436f_b2c9, 0x436b_d83b) == 0x4076_a380);
    assert(0xf6_a380 * 0xa5_1c00 == 0x9f12_5b62_0000);
    lemma_product_known(0x4076_a380, 0x3aa5_1c00, 0xf6_a380, 127, 0xa5_1c00, 116, 0x9f12_5b62_0000, 48, 0x8000_0000_0000, 0x100_0000);
    assert(mul_spec(0x4076_a380, 0x3aa5_1c00) == 0x3b9f_125b);
    assert(0x9f_125b * 0x1_0000_0000_0000_0000 == 0x1_3e24_b600_0000_0000 * 0x80_0000 + 0x0);
    lemma_quotient_known(0x3b9f_125b, 0x3d00_0000, 0x9f_125b, 118, 0x80_0000, 121, 0x1_3e24_b600_0000_0000, 0x0, 66, 0x2_0000_0000_0000_0000, 0x400_0000_0000);
    assert(div_spec(0x3b9f_125b, 0x3d00_0000) == 0x3e1f_125b);
    assert(0xeb_d83b * 0x400 + 0x9f_125b * 0x1 == 0x3_afff_fe5b);
    lemma_sum_known(0x436b_d83b, 0x3e1f_125b, false, 0xeb_d83b, 133, 0x9f_125b, 123, 0x400, 0x1, 0x3_afff_fe5b, 34, 0x2_0000_0000, 0x400);
    assert(add_spec(0x436b_d83b, 0x3e1f_125b) == 0x436c_0000);
    lemma_whole_known(0x436c_0000, 0xec_0000, 133, 0x1_0000);
}

/// The edge of code 235.
proof fn lemma_near_235()
    ensures
        near_exact_edge(0x3f55_b11a, 235),
{
    lemma2_to64();
    lemma2_to64_rest();
    lemma_fifth_powers_of_two();
    lemma_more_fifth_powers_of_two();
    assert(249525nat * 249525 * 249525 == 0x37_3201_b3c6_950d);
    assert(269025nat * 269025 * 269025 == 0x45_2c59_9066_9ca1);
    assert(0x37_3201_b3c6_950dnat * 0x37_3201_b3c6_950d == 0xbe6_867f_e990_839b_8c95_14e4_22a9nat);
    assert(0xbe6_867f_e990_839b_8c95_14e4_22a9nat * 0xbe6_867f_e990_839b_8c95_14e4_22a9nat == 0x8d_9f24_f294_4368_b5d7_3854_2b40_7472_3488_cd85_c7d3_a172_29b9_5391nat);
    assert(0x45_2c59_9066_9ca1nat * 0x45_2c59_9066_9ca1 == 0x12b0_eff6_c049_6d6d_d948_5020_9d41nat);
    assert(0x12b0_eff6_c049_6d6d_d948_5020_9d41nat * 0x12b0_eff6_c049_6d6d_d948_5020_9d41nat == 0x15d_5c09_8741_6139_2178_92b9_bce5_5f46_89a2_dd05_b95f_0d00_50d8_ca81nat);
    assert(0x42c_6482nat * 0x42c_6482 == 0x11_6ad6_c425_d204);
    assert(0x11_6ad6_c425_d204nat * 0x11_6ad6_c425_d204 == 0x12f_5d1c_9ba1_bbf8_5ddc_8172_9010nat);
    assert(0x12f_5d1c_9ba1_bbf8_5ddc_8172_9010nat * 0x42c_6482 == 0x4_f20f_8dc5_bc0e_65b6_0cb5_d67b_7f33_6820nat);
    assert(0x42c_8682nat * 0x42c_8682 == 0x11_6bf2_935c_5a04);
    assert(0x11_6bf2_935c_5a04nat * 0x11_6bf2_935c_5a04 == 0x12f_83bc_3f4e_1734_b841_6a86_d010nat);
    assert(0x12f_83bc_3f4e_1734_b841_6a86_d010nat * 0x42c_8682 == 0x4_f2d9_0e6d_8883_d5be_1220_3966_ac1e_0820nat);
    assert(0x4_f20f_8dc5_bc0e_65b6_0cb5_d67b_7f33_6820nat * 0x15d_5c09_8741_6139_2178_92b9_bce5_5f46_89a2_dd05_b95f_0d00_50d8_ca81nat == 0x6bf_c660_fcf9_f5b2_2755_76a4_bdb9_19fc_1df6_8db1_2c20_c35f_6e22_413e_3d79_284e_c8df_bb9f_d2fb_8a83_8410_b820nat);
    assert(0x4_f2d9_0e6d_8883_d5be_1220_3966_ac1e_0820nat * 0x15d_5c09_8741_6139_2178_92b9_bce5_5f46_89a2_dd05_b95f_0d00_50d8_ca81nat == 0x6c0_d95d_d377_fb7a_f4cd_1520_24b2_1fa6_6003_27a6_bf54_6366_a6e1_0d74_d571_96ff_3f5f_9e96_be3c_2c6d_488b_5820nat);
    assert(0xc35nat * 0x100_0000_0000_0000_0000_0000_0000_0000nat == 0xc_3500_0000_0000_0000_0000_0000_0000_0000nat);
    assert(0x8d_9f24_f294_4368_b5d7_3854_2b40_7472_3488_cd85_c7d3_a172_29b9_5391nat * 0xc_3500_0000_0000_0000_0000_0000_0000_0000nat == 0x6c0_c7ae_052b_dadd_33bc_329b_73f9_cd76_1b49_f4d2_104a_61c6_9753_4919_0500_0000_0000_0000_0000_0000_0000_0000nat);
    lemma_near_above(
        0x3f55_b11a, 0xd5_b11a, 125, 0x100, 0xc_3500_0000_0000_0000_0000_0000_0000_0000nat, 235,
        249525, 0x37_3201_b3c6_950d,
        0xbe6_867f_e990_839b_8c95_14e4_22a9nat,
        0x45_2c59_9066_9ca1, 0x12b0_eff6_c049_6d6d_d948_5020_9d41nat,
        0x42c_6482, 0x11_6ad6_c425_d204, 0x12f_5d1c_9ba1_bbf8_5ddc_8172_9010nat,
        0x42c_8682, 0x11_6bf2_935c_5a04, 0x12f_83bc_3f4e_1734_b841_6a86_d010nat,
    );
}

/// The value 0x3f57_c489.
proof fn lemma_at_3f57c489()
    ensures
        chord_code(0x3f57_c489, 0x3f55_5e8d, 0x3f5d_5e8d, 0x436b_d83b, 0x436f_b2c9) == 236,
{
    reveal(chord_code);
    lemma2_to64();
    lemma2_to64_rest();
    lemma_high_powers();
    assert(0xdd_5e8d * 0x1 - 0xd5_5e8d * 0x1 == 0x8_0000);
    lemma_sum_known(0x3f5d_5e8d, 0x3f55_5e8d, true, 0xdd_5e8d, 125, 0xd5_5e8d, 125, 0x1, 0x1, 0x8_0000, 20, 0x8_0000, 0x10);
    assert(sub_spec(0x3f5d_5e8d, 0x3f55_5e8d) == 0x3d00_0000);
    assert(0xd7_c489 * 0x1 - 0xd5_5e8d * 0x1 == 0x2_65fc);
    lemma_sum_known(0x3f57_c489, 0x3f55_5e8d, true, 0xd7_c489, 125, 0xd5_5e8d, 125, 0x1, 0x1, 0x2_65fc, 18, 0x2_0000, 0x40);
    assert(sub_spec(0x3f57_c489, 0x3f55_5e8d) == 0x3c19_7f00);
    assert(0xef_b2c9 * 0x1 - 0xeb_d83b * 0x1 == 0x3_da8e);
    lemma_sum_known(0x436f_b2c9, 0x436b_d83b, true, 0xef_b2c9, 133, 0xeb_d83b, 133, 0x1, 0x1, 0x3_da8e, 18, 0x2_0000, 0x40);
    assert(sub_spec(0x436f_b2c9, 0x436b_d83b) == 0x4076_a380);
    assert(0xf6_a380 * 0x99_7f00 == 0x93e2_129c_8000);
    lemma_product_known(0x4076_a380, 0x3c19_7f00, 0xf6_a380, 127, 0x99_7f00, 119, 0x93e2_129c_8000, 48, 0x8000_0000_0000, 0x100_0000);
    assert(mul_spec(0x4076_a380, 0x3c19_7f00) == 0x3d13_e213);
    assert(0x93_e213 * 0x1_0000_0000_0000_0000 == 0x1_27c4_2600_0000_0000 * 0x80_0000 + 0x0);
    lemma_quotient_known(0x3d13_e213, 0x3d00_0000, 0x93_e213, 121, 0x80_0000, 121, 0x1_27c4_2600_0000_0000, 0x0, 66, 0x2_0000_0000_0000_0000, 0x400_0000_0000);
    assert(div_spec(0x3d13_e213, 0x3d00_0000) == 0x3f93_e213);
    assert(0xeb_d83b * 0x80 + 0x93_e213 * 0x1 == 0x767f_ff93);
    lemma_sum_known(0x436b_d83b, 0x3f93_e213, false, 0xeb_d83b, 133, 0x93_e213, 126, 0x80, 0x1, 0x767f_ff93, 31, 0x4000_0000, 0x80);
    assert(add_spec(0x436b_d83b, 0x3f93_e213) == 0x436c_ffff);
    lemma_whole_known(0x436c_ffff, 0xec_ffff, 133, 0x1_0000);
}

/// The value 0x3f57_c48a.
proof fn lemma_at_3f57c48a()
    ensures
        chord_code(0x3f57_c48a, 0x3f55_5e8d, 0x3f5d_5e8d, 0x436b_d83b, 0x436f_b2c9) == 237,
{
    reveal(chord_code);
    lemma2_to64();
    lemma2_to64_rest();
    lemma_high_powers();
    assert(0xdd_5e8d * 0x1 - 0xd5_5e8d * 0x1 == 0x8_0000);
    lemma_sum_known(0x3f5d_5e8d, 0x3f55_5e8d, true, 0xdd_5e8d, 125, 0xd5_5e8d, 125, 0x1, 0x1, 0x8_0000, 20, 0x8_0000, 0x10);
    assert(sub_spec(0x3f5d_5e8d, 0x3f55_5e8d) == 0x3d00_0000);
    assert(0xd7_c48a * 0x1 - 0xd5_5e8d * 0x1 == 0x2_65fd);
    lemma_sum_known(0x3f57_c48a, 0x3f55_5e8d, true, 0xd7_c48a, 125, 0xd5_5e8d, 125, 0x1, 0x1, 0x2_65fd, 18, 0x2_0000, 0x40);
    assert(sub_spec(0x3f57_c48a, 0x3f55_5e8d) == 0x3c19_7f40);
    assert(0xef_b2c9 * 0x1 - 0xeb_d83b * 0x1 == 0x3_da8e);
    lemma_sum_known(0x436f_b2c9, 0x436b_d83b, true, 0xef_b2c9, 133, 0xeb_d83b, 133, 0x1, 0x1, 0x3_da8e, 18, 0x2_0000, 0x40);
    assert(sub_spec(0x436f_b2c9, 0x436b_d83b) == 0x4076_a380);
    assert(0xf6_a380 * 0x99_7f40 == 0x93e2_5045_6000);
    lemma_product_known(0x4076_a380, 0x3c19_7f40, 0xf6_a380, 127, 0x99_7f40, 119, 0x93e2_5045_6000, 48, 0x8000_0000_0000, 0x100_0000);
    assert(mul_spec(0x4076_a380, 0x3c19_7f40) == 0x3d13_e250);
    assert(0x93_e250 * 0x1_0000_0000_0000_0000 == 0x1_27c4_a000_0000_0000 * 0x80_0000 + 0x0);
    lemma_quotient_known(0x3d13_e250, 0x3d00_0000, 0x93_e250, 121, 0x80_0000, 121, 0x1_27c4_a000_0000_0000, 0x0, 66, 0x2_0000_0000_0000_0000, 0x400_0000_0000);
    assert(div_spec(0x3d13_e250, 0x3d00_0000) == 0x3f93_e250);
    assert(0xeb_d83b * 0x80 + 0x93_e250 * 0x1 == 0x767f_ffd0);
    lemma_sum_known(0x436b_d83b, 0x3f93_e250, false, 0xeb_d83b, 133, 0x93_e250, 126, 0x80, 0x1, 0x767f_ffd0, 31, 0x4000_0000, 0x80);
    assert(add_spec(0x436b_d83b, 0x3f93_e250) == 0x436d_0000);
    lemma_whole_known(0x436d_0000, 0xed_0000, 133, 0x1_0000);
}

/// The edge of code 236.
proof fn lemma_near_236()
    ensures
        near_exact_edge(0x3f57_c489, 236),
{
    lemma2_to64();
    lemma2_to64_rest();
    lemma_fifth_powers_of_two();
    lemma_more_fifth_powers_of_two();
    assert(250525nat * 250525 * 250525 == 0x37_dc92_3cdb_b2c5);
    assert(269025nat * 269025 * 269025 == 0x45_2c59_9066_9ca1);
    assert(0x37_dc92_3cdb_b2c5nat * 0x37_dc92_3cdb_b2c5 == 0xc30_84e1_d289_e4f8_390b_b1e4_8b99nat);
    assert(0xc30_84e1_d289_e4f8_390b_b1e4_8b99nat * 0xc30_84e1_d289_e4f8_390b_b1e4_8b99nat == 0x94_95a7_4565_897f_1a19_7a26_94dc_69bd_eed4_66f9_8bdb_f638_86a7_8171nat);
    assert(0x45_2c59_9066_9ca1nat * 0x45_2c59_9066_9ca1 == 0x12b0_eff6_c049_6d6d_d948_5020_9d41nat);
    assert(0x12b0_eff6_c049_6d6d_d948_5020_9d41nat * 0x12b0_eff6_c049_6d6d_d948_5020_9d41nat == 0x15d_5c09_8741_6139_2178_92b9_bce5_5f46_89a2_dd05_b95f_0d00_50d8_ca81nat);
    assert(0x436_c5adnat * 0x436_c5ad == 0x11_c1e5_659f_b6e9);
    assert(0x11_c1e5_659f_b6e9nat * 0x11_c1e5_659f_b6e9 == 0x13b_5353_3000_14d1_f8d2_921e_2011nat);
    assert(0x13b_5353_3000_14d1_f8d2_921e_2011nat * 0x436_c5ad == 0x5_30c4_5c82_737f_2c41_6d12_7b98_f49e_c07dnat);
    assert(0x436_e7adnat * 0x436_e7ad == 0x11_c303_f6a5_aae9);
    assert(0x11_c303_f6a5_aae9nat * 0x11_c303_f6a5_aae9 == 0x13b_7b15_cbd0_cad5_c723_8e74_4811nat);
    assert(0x13b_7b15_cbd0_cad5_c723_8e74_4811nat * 0x436_e7ad == 0x5_3195_cf0b_19da_4354_88e2_8639_a932_0a7dnat);
    assert(0x5_30c4_5c82_737f_2c41_6d12_7b98_f49e_c07dnat * 0x15d_5c09_8741_6139_2178_92b9_bce5_5f46_89a2_dd05_b95f_0d00_50d8_ca81nat == 0x715_596a_2408_7dbe_511a_53ad_daf7_6d0d_1dc0_a2cf_6a25_4163_8026_9d4d_6fdf_2188_337a_ab21_7480_5432_0159_a0fdnat);
    assert(0x5_3195_cf0b_19da_4354_88e2_8639_a932_0a7dnat * 0x15d_5c09_8741_6139_2178_92b9_bce5_5f46_89a2_dd05_b95f_0d00_50d8_ca81nat == 0x716_773e_9548_1367_0b35_dc21_ec82_d8ae_f30c_c910_1109_a458_9eaa_db29_8dbd_66da_7ed4_e8dd_c180_e10f_a7f5_eafdnat);
    assert(0xc35nat * 0x100_0000_0000_0000_0000_0000_0000_0000nat == 0xc_3500_0000_0000_0000_0000_0000_0000_0000nat);
    assert(0x94_95a7_4565_897f_1a19_7a26_94dc_69bd_eed4_66f9_8bdb_f638_86a7_8171nat * 0xc_3500_0000_0000_0000_0000_0000_0000_0000nat == 0x715_c6d2_e220_776c_8999_0018_f726_96cb_8466_cd04_3844_14a0_03ba_bf18_6500_0000_0000_0000_0000_0000_0000_0000nat);
    lemma_near_above(
        0x3f57_c489, 0xd7_c489, 125, 0x100, 0xc_3500_0000_0000_0000_0000_0000_0000_0000nat, 236,
        250525, 0x37_dc92_3cdb_b2c5,
        0xc30_84e1_d289_e4f8_390b_b1e4_8b99nat,
        0x45_2c59_9066_9ca1, 0x12b0_eff6_c049_6d6d_d948_5020_9d41nat,
        0x436_c5ad, 0x11_c1e5_659f_b6e9, 0x13b_5353_3000_14d1_f8d2_921e_2011nat,
        0x436_e7ad, 0x11_c303_f6a5_aae9, 0x13b_7b15_cbd0_cad5_c723_8e74_4811nat,
    );
}

/// The value 0x3f59_d7f8.
proof fn lemma_at_3f59d7f8()
    ensures
        chord_code(0x3f59_d7f8, 0x3f55_5e8d, 0x3f5d_5e8d, 0x436b_d83b, 0x436f_b2c9) == 237,
{
    reveal(chord_code);
    lemma2_to64();
    lemma2_to64_rest();
    lemma_high_powers();
    assert(0xdd_5e8d * 0x1 - 0xd5_5e8d * 0x1 == 0x8_0000);
    lemma_sum_known(0x3f5d_5e8d, 0x3f55_5e8d, true, 0xdd_5e8d, 125, 0xd5_5e8d, 125, 0x1, 0x1, 0x8_0000, 20, 0x8_0000, 0x10);
    assert(sub_spec(0x3f5d_5e8d, 0x3f55_5e8d) == 0x3d00_0000);
    assert(0xd9_d7f8 * 0x1 - 0xd5_5e8d * 0x1 == 0x4_796b);
    lemma_sum_known(0x3f59_d7f8, 0x3f55_5e8d, true, 0xd9_d7f8, 125, 0xd5_5e8d, 125, 0x1, 0x1, 0x4_796b, 19, 0x4_0000, 0x20);
    assert(sub_spec(0x3f59_d7f8, 0x3f55_5e8d) == 0x3c8f_2d60);
    assert(0xef_b2c9 * 0x1 - 0xeb_d83b * 0x1 == 0x3_da8e);
    lemma_sum_known(0x436f_b2c9, 0x436b_d83b, true, 0xef_b2c9, 133, 0xeb_d83b, 133, 0x1, 0x1, 0x3_da8e, 18, 0x2_0000, 0x40);
    assert(sub_spec(0x436f_b2c9, 0x436b_d83b) == 0x4076_a380);
    assert(0xf6_a380 * 0x8f_2d60 == 0x89f1_0bba_d000);
    lemma_product_known(0x4076_a380, 0x3c8f_2d60, 0xf6_a380, 127, 0x8f_2d60, 120, 0x89f1_0bba_d000, 48, 0x8000_0000_0000, 0x100_0000);
    assert(mul_spec(0x4076_a380, 0x3c8f_2d60) == 0x3d89_f10c);
    assert(0x89_f10c * 0x1_0000_0000_0000_0000 == 0x1_13e2_1800_0000_0000 * 0x80_0000 + 0x0);
    lemma_quotient_known(0x3d89_f10c, 0x3d00_0000, 0x89_f10c, 122, 0x80_0000, 121, 0x1_13e2_1800_0000_0000, 0x0, 66, 0x2_0000_0000_0000_0000, 0x400_0000_0000);
    assert(div_spec(0x3d89_f10c, 0x3d00_0000) == 0x4009_f10c);
    assert(0xeb_d83b * 0x40 + 0x89_f10c * 0x1 == 0x3b7f_ffcc);
    lemma_sum_known(0x436b_d83b, 0x4009_f10c, false, 0xeb_d83b, 133, 0x89_f10c, 127, 0x40, 0x1, 0x3b7f_ffcc, 30, 0x2000_0000, 0x40);
    assert(add_spec(0x436b_d83b, 0x4009_f10c) == 0x436d_ffff);
    lemma_whole_known(0x436d_ffff, 0xed_ffff, 133, 0x1_0000);
}

/// The value 0x3f59_d7f9.
proof fn lemma_at_3f59d7f9()
    ensures
        chord_code(0x3f59_d7f9, 0x3f55_5e8d, 0x3f5d_5e8d, 0x436b_d83b, 0x436f_b2c9) == 238,
{
    reveal(chord_code);
    lemma2_to64();
    lemma2_to64_rest();
    lemma_high_powers();
    assert(0xdd_5e8d * 0x1 - 0xd5_5e8d * 0x1 == 0x8_0000);
    lemma_sum_known(0x3f5d_5e8d, 0x3f55_5e8d, true, 0xdd_5e8d, 125, 0xd5_5e8d, 125, 0x1, 0x1, 0x8_0000, 20, 0x8_0000, 0x10);
    assert(sub_spec(0x3f5d_5e8d, 0x3f55_5e8d) == 0x3d00_0000);
    assert(0xd9_d7f9 * 0x1 - 0xd5_5e8d * 0x1 == 0x4_796c);
    lemma_sum_known(0x3f59_d7f9, 0x3f55_5e8d, true, 0xd9_d7f9, 125, 0xd5_5e8d, 125, 0x1, 0x1, 0x4_796c, 19, 0x4_0000, 0x20);
    assert(sub_spec(0x3f59_d7f9, 0x3f55_5e8d) == 0x3c8f_2d80);
    assert(0xef_b2c9 * 0x1 - 0xeb_d83b * 0x1 == 0x3_da8e);
    lemma_sum_known(0x436f_b2c9, 0x436b_d83b, true, 0xef_b2c9, 133, 0xeb_d83b, 133, 0x1, 0x1, 0x3_da8e, 18, 0x2_0000, 0x40);
    assert(sub_spec(0x436f_b2c9, 0x436b_d83b) == 0x4076_a380);
    assert(0xf6_a380 * 0x8f_2d80 == 0x89f1_2a8f_4000);
    lemma_product_known(0x4076_a380, 0x3c8f_2d80, 0xf6_a380, 127, 0x8f_2d80, 120, 0x89f1_2a8f_4000, 48, 0x8000_0000_0000, 0x100_0000);
    assert(mul_spec(0x4076_a380, 0x3c8f_2d80) == 0x3d89_f12b);
    assert(0x89_f12b * 0x1_0000_0000_0000_0000 == 0x1_13e2_5600_0000_0000 * 0x80_0000 + 0x0);
    lemma_quotient_known(0x3d89_f12b, 0x3d00_0000, 0x89_f12b, 122, 0x80_0000, 121, 0x1_13e2_5600_0000_0000, 0x0, 66, 0x2_0000_0000_0000_0000, 0x400_0000_0000);
    assert(div_spec(0x3d89_f12b, 0x3d00_0000) == 0x4009_f12b);
    assert(0xeb_d83b * 0x40 + 0x89_f12b * 0x1 == 0x3b7f_ffeb);
    lemma_sum_known(0x436b_d83b, 0x4009_f12b, false, 0xeb_d83b, 133, 0x89_f12b, 127, 0x40, 0x1, 0x3b7f_ffeb, 30, 0x2000_0000, 0x40);
    assert(add_spec(0x436b_d83b, 0x4009_f12b) == 0x436e_0000);
    lemma_whole_known(0x436e_0000, 0xee_0000, 133, 0x1_0000);
}

/// The edge of code 237.
proof fn lemma_near_237()
    ensures
        near_exact_edge(0x3f59_d7f8, 237),
{
    lemma2_to64();
    lemma2_to64_rest();
    lemma_fifth_powers_of_two();
    lemma_more_fifth_powers_of_two();
    assert(251525nat * 251525 * 251525 == 0x38_8880_c0a9_97fd);
    assert(269025nat * 269025 * 269025 == 0x45_2c59_9066_9ca1);
    assert(0x38_8880_c0a9_97fdnat * 0x38_8880_c0a9_97fd == 0xc7c_011d_57a7_eac3_a155_8646_7009nat);
    assert(0xc7c_011d_57a7_eac3_a155_8646_7009nat * 0xc7c_011d_57a7_eac3_a155_8646_7009nat == 0x9b_dc2b_d4a5_e6ba_0e88_96bb_0159_30d6_0b86_4d54_2bd5_88a4_e1f3_e051nat);
    assert(0x45_2c59_9066_9ca1nat * 0x45_2c59_9066_9ca1 == 0x12b0_eff6_c049_6d6d_d948_5020_9d41nat);
    assert(0x12b0_eff6_c049_6d6d_d948_5020_9d41nat * 0x12b0_eff6_c049_6d6d_d948_5020_9d41nat == 0x15d_5c09_8741_6139_2178_92b9_bce5_5f46_89a2_dd05_b95f_0d00_50d8_ca81nat);
    assert(0x441_26d8nat * 0x441_26d8 == 0x12_19cb_7f94_d640);
    assert(0x12_19cb_7f94_d640nat * 0x12_19cb_7f94_d640 == 0x147_a337_519c_c879_4c9b_ed4f_1000nat);
    assert(0x147_a337_519c_c879_4c9b_ed4f_1000nat * 0x441_26d8 == 0x5_71ef_04fe_18ba_ee0a_0b04_461d_0715_8000nat);
    assert(0x441_48d8nat * 0x441_48d8 == 0x12_1aec_d26a_3640);
    assert(0x12_1aec_d26a_3640nat * 0x12_1aec_d26a_3640 == 0x147_cc22_8cc1_d4cb_7311_f87f_1000nat);
    assert(0x147_cc22_8cc1_d4cb_7311_f87f_1000nat * 0x441_48d8 == 0x5_72c8_a4f6_b947_7cd9_4378_3990_77b5_8000nat);
    assert(0x5_71ef_04fe_18ba_ee0a_0b04_461d_0715_8000nat * 0x15d_5c09_8741_6139_2178_92b9_bce5_5f46_89a2_dd05_b95f_0d00_50d8_ca81nat == 0x76e_47ff_9613_3f5d_78ba_94b0_5784_18a3_dc74_7ac6_51c5_0cd5_36ec_7240_f06e_6643_db4f_a51b_beae_ee5b_88d5_8000nat);
    assert(0x5_72c8_a4f6_b947_7cd9_4378_3990_77b5_8000nat * 0x15d_5c09_8741_6139_2178_92b9_bce5_5f46_89a2_dd05_b95f_0d00_50d8_ca81nat == 0x76f_70fc_e99d_135c_b277_32a5_329e_d4a6_07ea_09b0_1b21_fed6_b39f_0ffa_d9b9_2703_e606_4414_4bce_b965_8975_8000nat);
    assert(0xc35nat * 0x100_0000_0000_0000_0000_0000_0000_0000nat == 0xc_3500_0000_0000_0000_0000_0000_0000_0000nat);
    assert(0x9b_dc2b_d4a5_e6ba_0e88_96bb_0159_30d6_0b86_4d54_2bd5_88a4_e1f3_e051nat * 0xc_3500_0000_0000_0000_0000_0000_0000_0000nat == 0x76e_96a3_0acd_297d_3369_57f8_c775_c124_daae_6df4_7b15_9d04_ba36_013c_c500_0000_0000_0000_0000_0000_0000_0000nat);
    lemma_near_above(
        0x3f59_d7f8, 0xd9_d7f8, 125, 0x100, 0xc_3500_0000_0000_0000_0000_0000_0000_0000nat, 237,
        251525, 0x38_8880_c0a9_97fd,
        0xc7c_011d_57a7_eac3_a155_8646_7009nat,
        0x45_2c59_9066_9ca1, 0x12b0_eff6_c049_6d6d_d948_5020_9d41nat,
        0x441_26d8, 0x12_19cb_7f94_d640, 0x147_a337_519c_c879_4c9b_ed4f_1000nat,
        0x441_48d8, 0x12_1aec_d26a_3640, 0x147_cc22_8cc1_d4cb_7311_f87f_1000nat,
    );
}

/// The value 0x3f5b_eb67.
proof fn lemma_at_3f5beb67()
    ensures
        chord_code(0x3f5b_eb67, 0x3f55_5e8d, 0x3f5d_5e8d, 0x436b_d83b, 0x436f_b2c9) == 238,
{
    reveal(chord_code);
    lemma2_to64();
    lemma2_to64_rest();
    lemma_high_powers();
    assert(0xdd_5e8d * 0x1 - 0xd5_5e8d * 0x1 == 0x8_0000);
    lemma_sum_known(0x3f5d_5e8d, 0x3f55_5e8d, true, 0xdd_5e8d, 125, 0xd5_5e8d, 125, 0x1, 0x1, 0x8_0000, 20, 0x8_0000, 0x10);
    assert(sub_spec(0x3f5d_5e8d, 0x3f55_5e8d) == 0x3d00_0000);
    assert(0xdb_eb67 * 0x1 - 0xd5_5e8d * 0x1 == 0x6_8cda);
    lemma_sum_known(0x3f5b_eb67, 0x3f55_5e8d, true, 0xdb_eb67, 125, 0xd5_5e8d, 125, 0x1, 0x1, 0x6_8cda, 19, 0x4_0000, 0x20);
    assert(sub_spec(0x3f5b_eb67, 0x3f55_5e8d) == 0x3cd1_9b40);
    assert(0xef_b2c9 * 0x1 - 0xeb_d83b * 0x1 == 0x3_da8e);
    lemma_sum_known(0x436f_b2c9, 0x436b_d83b, true, 0xef_b2c9, 133, 0xeb_d83b, 133, 0x1, 0x1, 0x3_da8e, 18, 0x2_0000, 0x40);
    assert(sub_spec(0x436f_b2c9, 0x436b_d83b) == 0x4076_a380);
    assert(0xf6_a380 * 0xd1_9b40 == 0xc9f1_0e27_6000);
    lemma_product_known(0x4076_a380, 0x3cd1_9b40, 0xf6_a380, 127, 0xd1_9b40, 120, 0xc9f1_0e27_6000, 48, 0x8000_0000_0000, 0x100_0000);
    assert(mul_spec(0x4076_a380, 0x3cd1_9b40) == 0x3dc9_f10e);
    assert(0xc9_f10e * 0x1_0000_0000_0000_0000 == 0x1_93e2_1c00_0000_0000 * 0x80_0000 + 0x0);
    lemma_quotient_known(0x3dc9_f10e, 0x3d00_0000, 0xc9_f10e, 122, 0x80_0000, 121, 0x1_93e2_1c00_0000_0000, 0x0, 66, 0x2_0000_0000_0000_0000, 0x400_0000_0000);
    assert(div_spec(0x3dc9_f10e, 0x3d00_0000) == 0x4049_f10e);
    assert(0xeb_d83b * 0x40 + 0xc9_f10e * 0x1 == 0x3bbf_ffce);
    lemma_sum_known(0x436b_d83b, 0x4049_f10e, false, 0xeb_d83b, 133, 0xc9_f10e, 127, 0x40, 0x1, 0x3bbf_ffce, 30, 0x2000_0000, 0x40);
    assert(add_spec(0x436b_d83b, 0x4049_f10e) == 0x436e_ffff);
    lemma_whole_known(0x436e_ffff, 0xee_ffff, 133, 0x1_0000);
}

/// The value 0x3f5b_eb68.
proof fn lemma_at_3f5beb68()
    ensures
        chord_code(0x3f5b_eb68, 0x3f55_5e8d, 0x3f5d_5e8d, 0x436b_d83b, 0x436f_b2c9) == 239,
{
    reveal(chord_code);
    lemma2_to64();
    lemma2_to64_rest();
    lemma_high_powers();
    assert(0xdd_5e8d * 0x1 - 0xd5_5e8d * 0x1 == 0x8_0000);
    lemma_sum_known(0x3f5d_5e8d, 0x3f55_5e8d, true, 0xdd_5e8d, 125, 0xd5_5e8d, 125, 0x1, 0x1, 0x8_0000, 20, 0x8_0000, 0x10);
    assert(sub_spec(0x3f5d_5e8d, 0x3f55_5e8d) == 0x3d00_0000);
    assert(0xdb_eb68 * 0x1 - 0xd5_5e8d * 0x1 == 0x6_8cdb);
    lemma_sum_known(0x3f5b_eb68, 0x3f55_5e8d, true, 0xdb_eb68, 125, 0xd5_5e8d, 125, 0x1, 0x1, 0x6_8cdb, 19, 0x4_0000, 0x20);
    assert(sub_spec(0x3f5b_eb68, 0x3f55_5e8d) == 0x3cd1_9b60);
    assert(0xef_b2c9 * 0x1 - 0xeb_d83b * 0x1 == 0x3_da8e);
    lemma_sum_known(0x436f_b2c9, 0x436b_d83b, true, 0xef_b2c9, 133, 0xeb_d83b, 133, 0x1, 0x1, 0x3_da8e, 18, 0x2_0000, 0x40);
    assert(sub_spec(0x436f_b2c9, 0x436b_d83b) == 0x4076_a380);
    assert(0xf6_a380 * 0xd1_9b60 == 0xc9f1_2cfb_d000);
    lemma_product_known(0x4076_a380, 0x3cd1_9b60, 0xf6_a380, 127, 0xd1_9b60, 120, 0xc9f1_2cfb_d000, 48, 0x8000_0000_0000, 0x100_0000);
    assert(mul_spec(0x4076_a380, 0x3cd1_9b60) == 0x3dc9_f12d);
    assert(0xc9_f12d * 0x1_0000_0000_0000_0000 == 0x1_93e2_5a00_0000_0000 * 0x80_0000 + 0x0);
    lemma_quotient_known(0x3dc9_f12d, 0x3d00_0000, 0xc9_f12d, 122, 0x80_0000, 121, 0x1_93e2_5a00_0000_0000, 0x0, 66, 0x2_0000_0000_0000_0000, 0x400_0000_0000);
    assert(div_spec(0x3dc9_f12d, 0x3d00_0000) == 0x4049_f12d);
    assert(0xeb_d83b * 0x40 + 0xc9_f12d * 0x1 == 0x3bbf_ffed);
    lemma_sum_known(0x436b_d83b, 0x4049_f12d, false, 0xeb_d83b, 133, 0xc9_f12d, 127, 0x40, 0x1, 0x3bbf_ffed, 30, 0x2000_0000, 0x40);
    assert(add_spec(0x436b_d83b, 0x4049_f12d) == 0x436f_0000);
    lemma_whole_known(0x436f_0000, 0xef_0000, 133, 0x1_0000);
}

/// The edge of code 238.
proof fn lemma_near_238()
    ensures
        near_exact_edge(0x3f5b_eb67, 238),
{
    lemma2_to64();
    lemma2_to64_rest();
    lemma_fifth_powers_of_two();
    lemma_more_fifth_powers_of_two();
    assert(252525nat * 252525 * 252525 == 0x39_35ce_a4d1_00b5);
    assert(269025nat * 269025 * 269025 == 0x45_2c59_9066_9ca1);
    assert(0x39_35ce_a4d1_00b5nat * 0x39_35ce_a4d1_00b5 == 0xcc9_0154_9c1e_855e_88d6_0f8a_7ff9nat);
    assert(0xcc9_0154_9c1e_855e_88d6_0f8a_7ff9nat * 0xcc9_0154_9c1e_855e_88d6_0f8a_7ff9nat == 0xa3_75f3_0581_c99d_5b8e_6ae3_9a7d_e719_9052_ec8b_d954_0a39_666d_0031nat);
    assert(0x45_2c59_9066_9ca1nat * 0x45_2c59_9066_9ca1 == 0x12b0_eff6_c049_6d6d_d948_5020_9d41nat);
    assert(0x12b0_eff6_c049_6d6d_d948_5020_9d41nat * 0x12b0_eff6_c049_6d6d_d948_5020_9d41nat == 0x15d_5c09_8741_6139_2178_92b9_bce5_5f46_89a2_dd05_b95f_0d00_50d8_ca81nat);
    assert(0x44b_8803nat * 0x44b_8803 == 0x12_7289_1205_3009);
    assert(0x12_7289_1205_3009nat * 0x12_7289_1205_3009 == 0x154_4e84_e62b_aade_287e_2d5d_6051nat);
    assert(0x154_4e84_e62b_aade_287e_2d5d_6051nat * 0x44b_8803 == 0x5_b5a1_e23b_a34c_6d00_dbca_4170_9efe_28f3nat);
    assert(0x44b_aa03nat * 0x44b_aa03 == 0x12_73ad_26a9_fc09);
    assert(0x12_73ad_26a9_fc09nat * 0x12_73ad_26a9_fc09 == 0x154_789e_75c1_7149_a1db_6803_b851nat);
    assert(0x154_789e_75c1_7149_a1db_6803_b851nat * 0x44b_aa03 == 0x5_b683_ec5a_297f_2d99_1240_209c_f42b_f2f3nat);
    assert(0x5_b5a1_e23b_a34c_6d00_dbca_4170_9efe_28f3nat * 0x15d_5c09_8741_6139_2178_92b9_bce5_5f46_89a2_dd05_b95f_0d00_50d8_ca81nat == 0x7ca_ab2d_ff89_a979_3a27_ca90_9a1e_f7f4_1ca6_76f6_4812_15fd_7201_2581_2ffb_fe9c_3f08_39b1_7684_c173_276a_6073nat);
    assert(0x5_b683_ec5a_297f_2d99_1240_209c_f42b_f2f3nat * 0x15d_5c09_8741_6139_2178_92b9_bce5_5f46_89a2_dd05_b95f_0d00_50d8_ca81nat == 0x7cb_dfa7_0f33_5d07_4175_b80a_a2ed_5edc_319d_7a89_4773_3024_b060_89f5_dd44_a926_d8a4_0fdb_5b4b_5fc2_a4e1_2a73nat);
    assert(0xc35nat * 0x100_0000_0000_0000_0000_0000_0000_0000nat == 0xc_3500_0000_0000_0000_0000_0000_0000_0000nat);
    assert(0xa3_75f3_0581_c99d_5b8e_6ae3_9a7d_e719_9052_ec8b_d954_0a39_666d_0031nat * 0xc_3500_0000_0000_0000_0000_0000_0000_0000nat == 0x7cb_5ecf_9239_521d_dea1_7ecc_5ce2_e60b_0ec4_4187_23ee_e0ce_af50_9356_2500_0000_0000_0000_0000_0000_0000_0000nat);
    lemma_near_above(
        0x3f5b_eb67, 0xdb_eb67, 125, 0x100, 0xc_3500_0000_0000_0000_0000_0000_0000_0000nat, 238,
        252525, 0x39_35ce_a4d1_00b5,
        0xcc9_0154_9c1e_855e_88d6_0f8a_7ff9nat,
        0x45_2c59_9066_9ca1, 0x12b0_eff6_c049_6d6d_d948_5020_9d41nat,
        0x44b_8803, 0x12_7289_1205_3009, 0x154_4e84_e62b_aade_287e_2d5d_6051nat,
        0x44b_aa03, 0x12_73ad_26a9_fc09, 0x154_789e_75c1_7149_a1db_6803_b851nat,
    );
}

/// The value 0x3f5e_024d.
proof fn lemma_at_3f5e024d()
    ensures
        chord_code(0x3f5e_024d, 0x3f5d_5e8d, 0x3f65_5e8d, 0x436f_b2c9, 0x4373_7876) == 239,
{
    reveal(chord_code);
    lemma2_to64();
    lemma2_to64_rest();
    lemma_high_powers();
    assert(0xe5_5e8d * 0x1 - 0xdd_5e8d * 0x1 == 0x8_0000);
    lemma_sum_known(0x3f65_5e8d, 0x3f5d_5e8d, true, 0xe5_5e8d, 125, 0xdd_5e8d, 125, 0x1, 0x1, 0x8_0000, 20, 0x8_0000, 0x10);
    assert(sub_spec(0x3f65_5e8d, 0x3f5d_5e8d) == 0x3d00_0000);
    assert(0xde_024d * 0x1 - 0xdd_5e8d * 0x1 == 0xa3c0);
    lemma_sum_known(0x3f5e_024d, 0x3f5d_5e8d, true, 0xde_024d, 125, 0xdd_5e8d, 125, 0x1, 0x1, 0xa3c0, 16, 0x8000, 0x100);
    assert(sub_spec(0x3f5e_024d, 0x3f5d_5e8d) == 0x3b23_c000);
    assert(0xf3_7876 * 0x1 - 0xef_b2c9 * 0x1 == 0x3_c5ad);
    lemma_sum_known(0x4373_7876, 0x436f_b2c9, true, 0xf3_7876, 133, 0xef_b2c9, 133, 0x1, 0x1, 0x3_c5ad, 18, 0x2_0000, 0x40);
    assert(sub_spec(0x4373_7876, 0x436f_b2c9) == 0x4071_6b40);
    assert(0xf1_6b40 * 0xa3_c000 == 0x9a6c_5a30_0000);
    lemma_product_known(0x4071_6b40, 0x3b23_c000, 0xf1_6b40, 127, 0xa3_c000, 117, 0x9a6c_5a30_0000, 48, 0x8000_0000_0000, 0x100_0000);
    assert(mul_spec(0x4071_6b40, 0x3b23_c000) == 0x3c1a_6c5a);
    assert(0x9a_6c5a * 0x1_0000_0000_0000_0000 == 0x1_34d8_b400_0000_0000 * 0x80_0000 + 0x0);
    lemma_quotient_known(0x3c1a_6c5a, 0x3d00_0000, 0x9a_6c5a, 119, 0x80_0000, 121, 0x1_34d8_b400_0000_0000, 0x0, 66, 0x2_0000_0000_0000_0000, 0x400_0000_0000);
    assert(div_spec(0x3c1a_6c5a, 0x3d00_0000) == 0x3e9a_6c5a);
    assert(0xef_b2c9 * 0x200 + 0x9a_6c5a * 0x1 == 0x1_dfff_fe5a);
    lemma_sum_known(0x436f_b2c9, 0x3e9a_6c5a, false, 0xef_b2c9, 133, 0x9a_6c5a, 124, 0x200, 0x1, 0x1_dfff_fe5a, 33, 0x1_0000_0000, 0x200);
    assert(add_spec(0x436f_b2c9, 0x3e9a_6c5a) == 0x436f_ffff);
    lemma_whole_known(0x436f_ffff, 0xef_ffff, 133, 0x1_0000);
}

/// The value 0x3f5e_024e.
proof fn lemma_at_3f5e024e()
    ensures
        chord_code(0x3f5e_024e, 0x3f5d_5e8d, 0x3f65_5e8d, 0x436f_b2c9, 0x4373_7876) == 240,
{
    reveal(chord_code);
    lemma2_to64();
    lemma2_to64_rest();
    lemma_high_powers();
    assert(0xe5_5e8d * 0x1 - 0xdd_5e8d * 0x1 == 0x8_0000);
    lemma_sum_known(0x3f65_5e8d, 0x3f5d_5e8d, true, 0xe5_5e8d, 125, 0xdd_5e8d, 125, 0x1, 0x1, 0x8_0000, 20, 0x8_0000, 0x10);
    assert(sub_spec(0x3f65_5e8d, 0x3f5d_5e8d) == 0x3d00_0000);
    assert(0xde_024e * 0x1 - 0xdd_5e8d * 0x1 == 0xa3c1);
    lemma_sum_known(0x3f5e_024e, 0x3f5d_5e8d, true, 0xde_024e, 125, 0xdd_5e8d, 125, 0x1, 0x1, 0xa3c1, 16, 0x8000, 0x100);
    assert(sub_spec(0x3f5e_024e, 0x3f5d_5e8d) == 0x3b23_c100);
    assert(0xf3_7876 * 0x1 - 0xef_b2c9 * 0x1 == 0x3_c5ad);
    lemma_sum_known(0x4373_7876, 0x436f_b2c9, true, 0xf3_7876, 133, 0xef_b2c9, 133, 0x1, 0x1, 0x3_c5ad, 18, 0x2_0000, 0x40);
    assert(sub_spec(0x4373_7876, 0x436f_b2c9) == 0x4071_6b40);
    assert(0xf1_6b40 * 0xa3_c100 == 0x9a6d_4b9b_4000);
    lemma_product_known(0x4071_6b40, 0x3b23_c100, 0xf1_6b40, 127, 0xa3_c100, 117, 0x9a6d_4b9b_4000, 48, 0x8000_0000_0000, 0x100_0000);
    assert(mul_spec(0x4071_6b40, 0x3b23_c100) == 0x3c1a_6d4c);
    assert(0x9a_6d4c * 0x1_0000_0000_0000_0000 == 0x1_34da_9800_0000_0000 * 0x80_0000 + 0x0);
    lemma_quotient_known(0x3c1a_6d4c, 0x3d00_0000, 0x9a_6d4c, 119, 0x80_0000, 121, 0x1_34da_9800_0000_0000, 0x0, 66, 0x2_0000_0000_0000_0000, 0x400_0000_0000);
    assert(div_spec(0x3c1a_6d4c, 0x3d00_0000) == 0x3e9a_6d4c);
    assert(0xef_b2c9 * 0x200 + 0x9a_6d4c * 0x1 == 0x1_dfff_ff4c);
    lemma_sum_known(0x436f_b2c9, 0x3e9a_6d4c, false, 0xef_b2c9, 133, 0x9a_6d4c, 124, 0x200, 0x1, 0x1_dfff_ff4c, 33, 0x1_0000_0000, 0x200);
    assert(add_spec(0x436f_b2c9, 0x3e9a_6d4c) == 0x4370_0000);
    lemma_whole_known(0x4370_0000, 0xf0_0000, 133, 0x1_0000);
}

/// The edge of code 239.
proof fn lemma_near_239()
    ensures
        near_exact_edge(0x3f5e_024d, 239),
{
    lemma2_to64();
    lemma2_to64_rest();
    lemma_fifth_powers_of_two();
    lemma_more_fifth_powers_of_two();
    assert(253525nat * 253525 * 253525 == 0x39_e47d_4ef2_a8ed);
    assert(269025nat * 269025 * 269025 == 0x45_2c59_9066_9ca1);
    assert(0x39_e47d_4ef2_a8ednat * 0x39_e47d_4ef2_a8ed == 0xd17_8bbc_9a05_a7c1_e466_3b8b_eb69nat);
    assert(0xd17_8bbc_9a05_a7c1_e466_3b8b_eb69nat * 0xd17_8bbc_9a05_a7c1_e466_3b8b_eb69nat == 0xab_665b_8fce_9a42_8f2f_2d2e_a62a_d47e_0286_1f1a_aefe_6aa7_e27f_f111nat);
    assert(0x45_2c59_9066_9ca1nat * 0x45_2c59_9066_9ca1 == 0x12b0_eff6_c049_6d6d_d948_5020_9d41nat);
    assert(0x12b0_eff6_c049_6d6d_d948_5020_9d41nat * 0x12b0_eff6_c049_6d6d_d948_5020_9d41nat == 0x15d_5c09_8741_6139_2178_92b9_bce5_5f46_89a2_dd05_b95f_0d00_50d8_ca81nat);
    assert(0x455_fa81nat * 0x455_fa81 == 0x12_ccb4_56ca_3501);
    assert(0x12_ccb4_56ca_3501nat * 0x12_ccb4_56ca_3501 == 0x161_6d0c_1dcb_e264_9cbc_5c8d_6a01nat);
    assert(0x161_6d0c_1dcb_e264_9cbc_5c8d_6a01nat * 0x455_fa81 == 0x5_fc67_3c12_dc6f_dcae_51bf_dde8_f31c_6481nat);
    assert(0x456_1c81nat * 0x456_1c81 == 0x12_cddb_31d8_7901);
    assert(0x12_cddb_31d8_7901nat * 0x12_cddb_31d8_7901 == 0x161_985b_cbf4_0803_3714_cce1_f201nat);
    assert(0x161_985b_cbf4_0803_3714_cce1_f201nat * 0x456_1c81 == 0x5_fd51_fcde_24ab_34c9_37d5_6393_44a9_0e81nat);
    assert(0x5_fc67_3c12_dc6f_dcae_51bf_dde8_f31c_6481nat * 0x15d_5c09_8741_6139_2178_92b9_bce5_5f46_89a2_dd05_b95f_0d00_50d8_ca81nat == 0x82b_3fab_0890_353f_1906_6301_0fce_cfcd_003d_1d75_afc1_8aad_9e15_69ba_bf7b_c5f4_597a_939c_9548_2e94_0574_6f01nat);
    assert(0x5_fd51_fcde_24ab_34c9_37d5_6393_44a9_0e81nat * 0x15d_5c09_8741_6139_2178_92b9_bce5_5f46_89a2_dd05_b95f_0d00_50d8_ca81nat == 0x82c_8008_43b7_8ae0_6197_198e_5b6d_752c_3d7b_7852_458d_e2c9_2a81_79f2_2981_20f8_b2ed_f0d6_bd6b_b18f_8b7a_1901nat);
    assert(0xc35nat * 0x100_0000_0000_0000_0000_0000_0000_0000nat == 0xc_3500_0000_0000_0000_0000_0000_0000_0000nat);
    assert(0xab_665b_8fce_9a42_8f2f_2d2e_a62a_d47e_0286_1f1a_aefe_6aa7_e27f_f111nat * 0xc_3500_0000_0000_0000_0000_0000_0000_0000nat == 0x82c_487b_b275_010e_7dda_e28a_7268_d3e6_34cf_39b0_ba27_abf3_5fe3_c9b4_8500_0000_0000_0000_0000_0000_0000_0000nat);
    lemma_near_above(
        0x3f5e_024d, 0xde_024d, 125, 0x100, 0xc_3500_0000_0000_0000_0000_0000_0000_0000nat, 239,
        253525, 0x39_e47d_4ef2_a8ed,
        0xd17_8bbc_9a05_a7c1_e466_3b8b_eb69nat,
        0x45_2c59_9066_9ca1, 0x12b0_eff6_c049_6d6d_d948_5020_9d41nat,
        0x455_fa81, 0x12_ccb4_56ca_3501, 0x161_6d0c_1dcb_e264_9cbc_5c8d_6a01nat,
        0x456_1c81, 0x12_cddb_31d8_7901, 0x161_985b_cbf4_0803_3714_cce1_f201nat,
    );
}

/// The value 0x3f60_213a.
proof fn lemma_at_3f60213a()
    ensures
        chord_code(0x3f60_213a, 0x3f5d_5e8d, 0x3f65_5e8d, 0x436f_b2c9, 0x4373_7876) == 240,
{
    reveal(chord_code);
    lemma2_to64();
    lemma2_to64_rest();
    lemma_high_powers();
    assert(0xe5_5e8d * 0x1 - 0xdd_5e8d * 0x1 == 0x8_0000);
    lemma_sum_known(0x3f65_5e8d, 0x3f5d_5e8d, true, 0xe5_5e8d, 125, 0xdd_5e8d, 125, 0x1, 0x1, 0x8_0000, 20, 0x8_0000, 0x10);
    assert(sub_spec(0x3f65_5e8d, 0x3f5d_5e8d) == 0x3d00_0000);
    assert(0xe0_213a * 0x1 - 0xdd_5e8d * 0x1 == 0x2_c2ad);
    lemma_sum_known(0x3f60_213a, 0x3f5d_5e8d, true, 0xe0_213a, 125, 0xdd_5e8d, 125, 0x1, 0x1, 0x2_c2ad, 18, 0x2_0000, 0x40);
    assert(sub_spec(0x3f60_213a, 0x3f5d_5e8d) == 0x3c30_ab40);
    assert(0xf3_7876 * 0x1 - 0xef_b2c9 * 0x1 == 0x3_c5ad);
    lemma_sum_known(0x4373_7876, 0x436f_b2c9, true, 0xf3_7876, 133, 0xef_b2c9, 133, 0x1, 0x1, 0x3_c5ad, 18, 0x2_0000, 0x40);
    assert(sub_spec(0x4373_7876, 0x436f_b2c9) == 0x4071_6b40);
    assert(0xf1_6b40 * 0xb0_ab40 == 0xa69b_3afe_9000);
    lemma_product_known(0x4071_6b40, 0x3c30_ab40, 0xf1_6b40, 127, 0xb0_ab40, 119, 0xa69b_3afe_9000, 48, 0x8000_0000_0000, 0x100_0000);
    assert(mul_spec(0x4071_6b40, 0x3c30_ab40) == 0x3d26_9b3b);
    assert(0xa6_9b3b * 0x1_0000_0000_0000_0000 == 0x1_4d36_7600_0000_0000 * 0x80_0000 + 0x0);
    lemma_quotient_known(0x3d26_9b3b, 0x3d00_0000, 0xa6_9b3b, 121, 0x80_0000, 121, 0x1_4d36_7600_0000_0000, 0x0, 66, 0x2_0000_0000_0000_0000, 0x400_0000_0000);
    assert(div_spec(0x3d26_9b3b, 0x3d00_0000) == 0x3fa6_9b3b);
    assert(0xef_b2c9 * 0x80 + 0xa6_9b3b * 0x1 == 0x787f_ffbb);
    lemma_sum_known(0x436f_b2c9, 0x3fa6_9b3b, false, 0xef_b2c9, 133, 0xa6_9b3b, 126, 0x80, 0x1, 0x787f_ffbb, 31, 0x4000_0000, 0x80);
    assert(add_spec(0x436f_b2c9, 0x3fa6_9b3b) == 0x4370_ffff);
    lemma_whole_known(0x4370_ffff, 0xf0_ffff, 133, 0x1_0000);
}

/// The value 0x3f60_213b.
proof fn lemma_at_3f60213b()
    ensures
        chord_code(0x3f60_213b, 0x3f5d_5e8d, 0x3f65_5e8d, 0x436f_b2c9, 0x4373_7876) == 241,
{
    reveal(chord_code);
    lemma2_to64();
    lemma2_to64_rest();
    lemma_high_powers();
    assert(0xe5_5e8d * 0x1 - 0xdd_5e8d * 0x1 == 0x8_0000);
    lemma_sum_known(0x3f65_5e8d, 0x3f5d_5e8d, true, 0xe5_5e8d, 125, 0xdd_5e8d, 125, 0x1, 0x1, 0x8_0000, 20, 0x8_0000, 0x10);
    assert(sub_spec(0x3f65_5e8d, 0x3f5d_5e8d) == 0x3d00_0000);
    assert(0xe0_213b * 0x1 - 0xdd_5e8d * 0x1 == 0x2_c2ae);
    lemma_sum_known(0x3f60_213b, 0x3f5d_5e8d, true, 0xe0_213b, 125, 0xdd_5e8d, 125, 0x1, 0x1, 0x2_c2ae, 18, 0x2_0000, 0x40);
    assert(sub_spec(0x3f60_213b, 0x3f5d_5e8d) == 0x3c30_ab80);
    assert(0xf3_7876 * 0x1 - 0xef_b2c9 * 0x1 == 0x3_c5ad);
    lemma_sum_known(0x4373_7876, 0x436f_b2c9, true, 0xf3_7876, 133, 0xef_b2c9, 133, 0x1, 0x1, 0x3_c5ad, 18, 0x2_0000, 0x40);
    assert(sub_spec(0x4373_7876, 0x436f_b2c9) == 0x4071_6b40);
    assert(0xf1_6b40 * 0xb0_ab80 == 0xa69b_7759_6000);
    lemma_product_known(0x4071_6b40, 0x3c30_ab80, 0xf1_6b40, 127, 0xb0_ab80, 119, 0xa69b_7759_6000, 48, 0x8000_0000_0000, 0x100_0000);
    assert(mul_spec(0x4071_6b40, 0x3c30_ab80) == 0x3d26_9b77);
    assert(0xa6_9b77 * 0x1_0000_0000_0000_0000 == 0x1_4d36_ee00_0000_0000 * 0x80_0000 + 0x0);
    lemma_quotient_known(0x3d26_9b77, 0x3d00_0000, 0xa6_9b77, 121, 0x80_0000, 121, 0x1_4d36_ee00_0000_0000, 0x0, 66, 0x2_0000_0000_0000_0000, 0x400_0000_0000);
    assert(div_spec(0x3d26_9b77, 0x3d00_0000) == 0x3fa6_9b77);
    assert(0xef_b2c9 * 0x80 + 0xa6_9b77 * 0x1 == 0x787f_fff7);
    lemma_sum_known(0x436f_b2c9, 0x3fa6_9b77, false, 0xef_b2c9, 133, 0xa6_9b77, 126, 0x80, 0x1, 0x787f_fff7, 31, 0x4000_0000, 0x80);
    assert(add_spec(0x436f_b2c9, 0x3fa6_9b77) == 0x4371_0000);
    lemma_whole_known(0x4371_0000, 0xf1_0000, 133, 0x1_0000);
}

/// The edge of code 240.
proof fn lemma_near_240()
    ensures
        near_exact_edge(0x3f60_213a, 240),
{
    lemma2_to64();
    lemma2_to64_rest();
    lemma_fifth_powers_of_two();
    lemma_more_fifth_powers_of_two();
    assert(254525nat * 254525 * 254525 == 0x3a_948e_24af_4ca5);
    assert(269025nat * 269025 * 269025 == 0x45_2c59_9066_9ca1);
    assert(0x3a_948e_24af_4ca5nat * 0x3a_948e_24af_4ca5 == 0xd67_a69d_48c6_231d_94a4_4888_6259nat);
    assert(0xd67_a69d_48c6_231d_94a4_4888_6259nat * 0xd67_a69d_48c6_231d_94a4_4888_6259nat == 0xb3_b0e3_7865_0a04_9027_c7b8_917d_756e_e6d0_48c1_532b_ea02_b458_42f1nat);
    assert(0x45_2c59_9066_9ca1nat * 0x45_2c59_9066_9ca1 == 0x12b0_eff6_c049_6d6d_d948_5020_9d41nat);
    assert(0x12b0_eff6_c049_6d6d_d948_5020_9d41nat * 0x12b0_eff6_c049_6d6d_d948_5020_9d41nat == 0x15d_5c09_8741_6139_2178_92b9_bce5_5f46_89a2_dd05_b95f_0d00_50d8_ca81nat);
    assert(0x460_9522nat * 0x460_9522 == 0x13_2919_4060_9884);
    assert(0x13_2919_4060_9884nat * 0x13_2919_4060_9884 == 0x16f_2058_a773_3780_827c_bddd_0410nat);
    assert(0x16f_2058_a773_3780_827c_bddd_0410nat * 0x460_9522 == 0x6_4703_6272_7d4f_1ed6_0cc2_9604_a0b7_da20nat);
    assert(0x460_b722nat * 0x460_b722 == 0x13_2a42_ec81_a084);
    assert(0x13_2a42_ec81_a084nat * 0x13_2a42_ec81_a084 == 0x16f_4ce9_2257_2999_55a6_89ad_4410nat);
    assert(0x16f_4ce9_2257_2999_55a6_89ad_4410nat * 0x460_b722 == 0x6_47f7_3cb9_1bd8_dd26_db31_c292_eaaa_7a20nat);
    assert(0x6_4703_6272_7d4f_1ed6_0cc2_9604_a0b7_da20nat * 0x15d_5c09_8741_6139_2178_92b9_bce5_5f46_89a2_dd05_b95f_0d00_50d8_ca81nat == 0x891_115e_3da1_a301_29fd_910a_44a0_963f_1b36_47c5_a4e8_78eb_e64d_6e1e_e074_29e4_646a_a2a2_6681_ee70_19c2_2a20nat);
    assert(0x6_47f7_3cb9_1bd8_dd26_db31_c292_eaaa_7a20nat * 0x15d_5c09_8741_6139_2178_92b9_bce5_5f46_89a2_dd05_b95f_0d00_50d8_ca81nat == 0x892_5e26_7b6c_a8a0_f70c_dbbf_d4a3_26dc_155c_2580_fc20_8eae_de29_f167_c17e_d4fb_f40e_5862_e6f9_df33_cf44_ca20nat);
    assert(0xc35nat * 0x100_0000_0000_0000_0000_0000_0000_0000nat == 0xc_3500_0000_0000_0000_0000_0000_0000_0000nat);
    assert(0xb3_b0e3_7865_0a04_9027_c7b8_917d_756e_e6d0_48c1_532b_ea02_b458_42f1nat * 0xc_3500_0000_0000_0000_0000_0000_0000_0000nat == 0x891_7e48_bca9_6349_b3b5_9900_0800_7a82_c78c_881f_ec47_0f93_0379_6927_e500_0000_0000_0000_0000_0000_0000_0000nat);
    lemma_near_above(
        0x3f60_213a, 0xe0_213a, 125, 0x100, 0xc_3500_0000_0000_0000_0000_0000_0000_0000nat, 240,
        254525, 0x3a_948e_24af_4ca5,
        0xd67_a69d_48c6_231d_94a4_4888_6259nat,
        0x45_2c59_9066_9ca1, 0x12b0_eff6_c049_6d6d_d948_5020_9d41nat,
        0x460_9522, 0x13_2919_4060_9884, 0x16f_2058_a773_3780_827c_bddd_0410nat,
        0x460_b722, 0x13_2a42_ec81_a084, 0x16f_4ce9_2257_2999_55a6_89ad_4410nat,
    );
}

/// The value 0x3f62_4026.
proof fn lemma_at_3f624026()
    ensures
        chord_code(0x3f62_4026, 0x3f5d_5e8d, 0x3f65_5e8d, 0x436f_b2c9, 0x4373_7876) == 241,
{
    reveal(chord_code);
    lemma2_to64();
    lemma2_to64_rest();
    lemma_high_powers();
    assert(0xe5_5e8d * 0x1 - 0xdd_5e8d * 0x1 == 0x8_0000);
    lemma_sum_known(0x3f65_5e8d, 0x3f5d_5e8d, true, 0xe5_5e8d, 125, 0xdd_5e8d, 125, 0x1, 0x1, 0x8_0000, 20, 0x8_0000, 0x10);
    assert(sub_spec(0x3f65_5e8d, 0x3f5d_5e8d) == 0x3d00_0000);
    assert(0xe2_4026 * 0x1 - 0xdd_5e8d * 0x1 == 0x4_e199);
    lemma_sum_known(0x3f62_4026, 0x3f5d_5e8d, true, 0xe2_4026, 125, 0xdd_5e8d, 125, 0x1, 0x1, 0x4_e199, 19, 0x4_0000, 0x20);
    assert(sub_spec(0x3f62_4026, 0x3f5d_5e8d) == 0x3c9c_3320);
    assert(0xf3_7876 * 0x1 - 0xef_b2c9 * 0x1 == 0x3_c5ad);
    lemma_sum_known(0x4373_7876, 0x436f_b2c9, true, 0xf3_7876, 133, 0xef_b2c9, 133, 0x1, 0x1, 0x3_c5ad, 18, 0x2_0000, 0x40);
    assert(sub_spec(0x4373_7876, 0x436f_b2c9) == 0x4071_6b40);
    assert(0xf1_6b40 * 0x9c_3320 == 0x934d_918b_2800);
    lemma_product_known(0x4071_6b40, 0x3c9c_3320, 0xf1_6b40, 127, 0x9c_3320, 120, 0x934d_918b_2800, 48, 0x8000_0000_0000, 0x100_0000);
    assert(mul_spec(0x4071_6b40, 0x3c9c_3320) == 0x3d93_4d92);
    assert(0x93_4d92 * 0x1_0000_0000_0000_0000 == 0x1_269b_2400_0000_0000 * 0x80_0000 + 0x0);
    lemma_quotient_known(0x3d93_4d92, 0x3d00_0000, 0x93_4d92, 122, 0x80_0000, 121, 0x1_269b_2400_0000_0000, 0x0, 66, 0x2_0000_0000_0000_0000, 0x400_0000_0000);
    assert(div_spec(0x3d93_4d92, 0x3d00_0000) == 0x4013_4d92);
    assert(0xef_b2c9 * 0x40 + 0x93_4d92 * 0x1 == 0x3c7f_ffd2);
    lemma_sum_known(0x436f_b2c9, 0x4013_4d92, false, 0xef_b2c9, 133, 0x93_4d92, 127, 0x40, 0x1, 0x3c7f_ffd2, 30, 0x2000_0000, 0x40);
    assert(add_spec(0x436f_b2c9, 0x4013_4d92) == 0x4371_ffff);
    lemma_whole_known(0x4371_ffff, 0xf1_ffff, 133, 0x1_0000);
}

/// The value 0x3f62_4027.
proof fn lemma_at_3f624027()
    ensures
        chord_code(0x3f62_4027, 0x3f5d_5e8d, 0x3f65_5e8d, 0x436f_b2c9, 0x4373_7876) == 242,
{
    reveal(chord_code);
    lemma2_to64();
    lemma2_to64_rest();
    lemma_high_powers();
    assert(0xe5_5e8d * 0x1 - 0xdd_5e8d * 0x1 == 0x8_0000);
    lemma_sum_known(0x3f65_5e8d, 0x3f5d_5e8d, true, 0xe5_5e8d, 125, 0xdd_5e8d, 125, 0x1, 0x1, 0x8_0000, 20, 0x8_0000, 0x10);
    assert(sub_spec(0x3f65_5e8d, 0x3f5d_5e8d) == 0x3d00_0000);
    assert(0xe2_4027 * 0x1 - 0xdd_5e8d * 0x1 == 0x4_e19a);
    lemma_sum_known(0x3f62_4027, 0x3f5d_5e8d, true, 0xe2_4027, 125, 0xdd_5e8d, 125, 0x1, 0x1, 0x4_e19a, 19, 0x4_0000, 0x20);
    assert(sub_spec(0x3f62_4027, 0x3f5d_5e8d) == 0x3c9c_3340);
    assert(0xf3_7876 * 0x1 - 0xef_b2c9 * 0x1 == 0x3_c5ad);
    lemma_sum_known(0x4373_7876, 0x436f_b2c9, true, 0xf3_7876, 133, 0xef_b2c9, 133, 0x1, 0x1, 0x3_c5ad, 18, 0x2_0000, 0x40);
    assert(sub_spec(0x4373_7876, 0x436f_b2c9) == 0x4071_6b40);
    assert(0xf1_6b40 * 0x9c_3340 == 0x934d_afb8_9000);
    lemma_product_known(0x4071_6b40, 0x3c9c_3340, 0xf1_6b40, 127, 0x9c_3340, 120, 0x934d_afb8_9000, 48, 0x8000_0000_0000, 0x100_0000);
    assert(mul_spec(0x4071_6b40, 0x3c9c_3340) == 0x3d93_4db0);
    assert(0x93_4db0 * 0x1_0000_0000_0000_0000 == 0x1_269b_6000_0000_0000 * 0x80_0000 + 0x0);
    lemma_quotient_known(0x3d93_4db0, 0x3d00_0000, 0x93_4db0, 122, 0x80_0000, 121, 0x1_269b_6000_0000_0000, 0x0, 66, 0x2_0000_0000_0000_0000, 0x400_0000_0000);
    assert(div_spec(0x3d93_4db0, 0x3d00_0000) == 0x4013_4db0);
    assert(0xef_b2c9 * 0x40 + 0x93_4db0 * 0x1 == 0x3c7f_fff0);
    lemma_sum_known(0x436f_b2c9, 0x4013_4db0, false, 0xef_b2c9, 133, 0x93_4db0, 127, 0x40, 0x1, 0x3c7f_fff0, 30, 0x2000_0000, 0x40);
    assert(add_spec(0x436f_b2c9, 0x4013_4db0) == 0x4372_0000);
    lemma_whole_known(0x4372_0000, 0xf2_0000, 133, 0x1_0000);
}

/// The edge of code 241.
proof fn lemma_near_241()
    ensures
        near_exact_edge(0x3f62_4026, 241),
{
    lemma2_to64();
    lemma2_to64_rest();
    lemma_fifth_powers_of_two();
    lemma_more_fifth_powers_of_two();
    assert(255525nat * 255525 * 255525 == 0x3b_4602_8ba7_a7dd);
    assert(269025nat * 269025 * 269025 == 0x45_2c59_9066_9ca1);
    assert(0x3b_4602_8ba7_a7ddnat * 0x3b_4602_8ba7_a7dd == 0xdb9_5851_c3ad_8a78_f98a_6e68_14c9nat);
    assert(0xdb9_5851_c3ad_8a78_f98a_6e68_14c9nat * 0xdb9_5851_c3ad_8a78_f98a_6e68_14c9nat == 0xbc_5929_1284_c187_24c7_5bff_f89c_b029_4396_9b47_e0b3_06e1_a100_05d1nat);
    assert(0x45_2c59_9066_9ca1nat * 0x45_2c59_9066_9ca1 == 0x12b0_eff6_c049_6d6d_d948_5020_9d41nat);
    assert(0x12b0_eff6_c049_6d6d_d948_5020_9d41nat * 0x12b0_eff6_c049_6d6d_d948_5020_9d41nat == 0x15d_5c09_8741_6139_2178_92b9_bce5_5f46_89a2_dd05_b95f_0d00_50d8_ca81nat);
    assert(0x46b_2fbenat * 0x46b_2fbe == 0x13_865e_e1bb_5104);
    assert(0x13_865e_e1bb_5104nat * 0x13_865e_e1bb_5104 == 0x17d_389c_f948_ac02_7c68_7d7b_8810nat);
    assert(0x17d_389c_f948_ac02_7c68_7d7b_8810nat * 0x46b_2fbe == 0x6_9480_35d6_2a55_4a7f_c051_e558_ee59_ebe0nat);
    assert(0x46b_51benat * 0x46b_51be == 0x13_878b_5eed_c904);
    assert(0x13_878b_5eed_c904nat * 0x13_878b_5eed_c904 == 0x17d_6674_614a_da05_fed4_bf3f_4810nat);
    assert(0x17d_6674_614a_da05_fed4_bf3f_4810nat * 0x46b_51be == 0x6_957d_6ca6_b2da_1d06_8bfd_5efc_5574_8be0nat);
    assert(0x6_9480_35d6_2a55_4a7f_c051_e558_ee59_ebe0nat * 0x15d_5c09_8741_6139_2178_92b9_bce5_5f46_89a2_dd05_b95f_0d00_50d8_ca81nat == 0x8fa_d066_2ad0_62b2_d0d2_7c6d_04c4_4d11_05de_dcba_8710_9738_b81f_3a83_de1b_5b59_5eae_2333_cedc_5378_146e_9be0nat);
    assert(0x6_957d_6ca6_b2da_1d06_8bfd_5efc_5574_8be0nat * 0x15d_5c09_8741_6139_2178_92b9_bce5_5f46_89a2_dd05_b95f_0d00_50d8_ca81nat == 0x8fc_29f4_ee3a_26bd_6822_055b_9892_721d_98d5_7777_1763_b1a4_224b_ddc2_7e0e_3e8f_e713_f145_2a76_dea1_0b19_3be0nat);
    assert(0xc35nat * 0x100_0000_0000_0000_0000_0000_0000_0000nat == 0xc_3500_0000_0000_0000_0000_0000_0000_0000nat);
    assert(0xbc_5929_1284_c187_24c7_5bff_f89c_b029_4396_9b47_e0b3_06e1_a100_05d1nat * 0xc_3500_0000_0000_0000_0000_0000_0000_0000nat == 0x8fb_2c62_5f0e_8e66_b3f5_960b_a5d0_b267_b60d_7584_69e9_6300_4255_4700_4500_0000_0000_0000_0000_0000_0000_0000nat);
    lemma_near_above(
        0x3f62_4026, 0xe2_4026, 125, 0x100, 0xc_3500_0000_0000_0000_0000_0000_0000_0000nat, 241,
        255525, 0x3b_4602_8ba7_a7dd,
        0xdb9_5851_c3ad_8a78_f98a_6e68_14c9nat,
        0x45_2c59_9066_9ca1, 0x12b0_eff6_c049_6d6d_d948_5020_9d41nat,
        0x46b_2fbe, 0x13_865e_e1bb_5104, 0x17d_389c_f948_ac02_7c68_7d7b_8810nat,
        0x46b_51be, 0x13_878b_5eed_c904, 0x17d_6674_614a_da05_fed4_bf3f_4810nat,
    );
}

/// The value 0x3f64_5f12.
proof fn lemma_at_3f645f12()
    ensures
        chord_code(0x3f64_5f12, 0x3f5d_5e8d, 0x3f65_5e8d, 0x436f_b2c9, 0x4373_7876) == 242,
{
    reveal(chord_code);
    lemma2_to64();
    lemma2_to64_rest();
    lemma_high_powers();
    assert(0xe5_5e8d * 0x1 - 0xdd_5e8d * 0x1 == 0x8_0000);
    lemma_sum_known(0x3f65_5e8d, 0x3f5d_5e8d, true, 0xe5_5e8d, 125, 0xdd_5e8d, 125, 0x1, 0x1, 0x8_0000, 20, 0x8_0000, 0x10);
    assert(sub_spec(0x3f65_5e8d, 0x3f5d_5e8d) == 0x3d00_0000);
    assert(0xe4_5f12 * 0x1 - 0xdd_5e8d * 0x1 == 0x7_0085);
    lemma_sum_known(0x3f64_5f12, 0x3f5d_5e8d, true, 0xe4_5f12, 125, 0xdd_5e8d, 125, 0x1, 0x1, 0x7_0085, 19, 0x4_0000, 0x20);
    assert(sub_spec(0x3f64_5f12, 0x3f5d_5e8d) == 0x3ce0_10a0);
    assert(0xf3_7876 * 0x1 - 0xef_b2c9 * 0x1 == 0x3_c5ad);
    lemma_sum_known(0x4373_7876, 0x436f_b2c9, true, 0xf3_7876, 133, 0xef_b2c9, 133, 0x1, 0x1, 0x3_c5ad, 18, 0x2_0000, 0x40);
    assert(sub_spec(0x4373_7876, 0x436f_b2c9) == 0x4071_6b40);
    assert(0xf1_6b40 * 0xe0_10a0 == 0xd34d_8597_0800);
    lemma_product_known(0x4071_6b40, 0x3ce0_10a0, 0xf1_6b40, 127, 0xe0_10a0, 120, 0xd34d_8597_0800, 48, 0x8000_0000_0000, 0x100_0000);
    assert(mul_spec(0x4071_6b40, 0x3ce0_10a0) == 0x3dd3_4d86);
    assert(0xd3_4d86 * 0x1_0000_0000_0000_0000 == 0x1_a69b_0c00_0000_0000 * 0x80_0000 + 0x0);
    lemma_quotient_known(0x3dd3_4d86, 0x3d00_0000, 0xd3_4d86, 122, 0x80_0000, 121, 0x1_a69b_0c00_0000_0000, 0x0, 66, 0x2_0000_0000_0000_0000, 0x400_0000_0000);
    assert(div_spec(0x3dd3_4d86, 0x3d00_0000) == 0x4053_4d86);
    assert(0xef_b2c9 * 0x40 + 0xd3_4d86 * 0x1 == 0x3cbf_ffc6);
    lemma_sum_known(0x436f_b2c9, 0x4053_4d86, false, 0xef_b2c9, 133, 0xd3_4d86, 127, 0x40, 0x1, 0x3cbf_ffc6, 30, 0x2000_0000, 0x40);
    assert(add_spec(0x436f_b2c9, 0x4053_4d86) == 0x4372_ffff);
    lemma_whole_known(0x4372_ffff, 0xf2_ffff, 133, 0x1_0000);
}

/// The value 0x3f64_5f13.
proof fn lemma_at_3f645f13()
    ensures
        chord_code(0x3f64_5f13, 0x3f5d_5e8d, 0x3f65_5e8d, 0x436f_b2c9, 0x4373_7876) == 243,
{
    reveal(chord_code);
    lemma2_to64();
    lemma2_to64_rest();
    lemma_high_powers();
    assert(0xe5_5e8d * 0x1 - 0xdd_5e8d * 0x1 == 0x8_0000);
    lemma_sum_known(0x3f65_5e8d, 0x3f5d_5e8d, true, 0xe5_5e8d, 125, 0xdd_5e8d, 125, 0x1, 0x1, 0x8_0000, 20, 0x8_0000, 0x10);
    assert(sub_spec(0x3f65_5e8d, 0x3f5d_5e8d) == 0x3d00_0000);
    assert(0xe4_5f13 * 0x1 - 0xdd_5e8d * 0x1 == 0x7_0086);
    lemma_sum_known(0x3f64_5f13, 0x3f5d_5e8d, true, 0xe4_5f13, 125, 0xdd_5e8d, 125, 0x1, 0x1, 0x7_0086, 19, 0x4_0000, 0x20);
    assert(sub_spec(0x3f64_5f13, 0x3f5d_5e8d) == 0x3ce0_10c0);
    assert(0xf3_7876 * 0x1 - 0xef_b2c9 * 0x1 == 0x3_c5ad);
    lemma_sum_known(0x4373_7876, 0x436f_b2c9, true, 0xf3_7876, 133, 0xef_b2c9, 133, 0x1, 0x1, 0x3_c5ad, 18, 0x2_0000, 0x40);
    assert(sub_spec(0x4373_7876, 0x436f_b2c9) == 0x4071_6b40);
    assert(0xf1_6b40 * 0xe0_10c0 == 0xd34d_a3c4_7000);
    lemma_product_known(0x4071_6b40, 0x3ce0_10c0, 0xf1_6b40, 127, 0xe0_10c0, 120, 0xd34d_a3c4_7000, 48, 0x8000_0000_0000, 0x100_0000);
    assert(mul_spec(0x4071_6b40, 0x3ce0_10c0) == 0x3dd3_4da4);
    assert(0xd3_4da4 * 0x1_0000_0000_0000_0000 == 0x1_a69b_4800_0000_0000 * 0x80_0000 + 0x0);
    lemma_quotient_known(0x3dd3_4da4, 0x3d00_0000, 0xd3_4da4, 122, 0x80_0000, 121, 0x1_a69b_4800_0000_0000, 0x0, 66, 0x2_0000_0000_0000_0000, 0x400_0000_0000);
    assert(div_spec(0x3dd3_4da4, 0x3d00_0000) == 0x4053_4da4);
    assert(0xef_b2c9 * 0x40 + 0xd3_4da4 * 0x1 == 0x3cbf_ffe4);
    lemma_sum_known(0x436f_b2c9, 0x4053_4da4, false, 0xef_b2c9, 133, 0xd3_4da4, 127, 0x40, 0x1, 0x3cbf_ffe4, 30, 0x2000_0000, 0x40);
    assert(add_spec(0x436f_b2c9, 0x4053_4da4) == 0x4373_0000);
    lemma_whole_known(0x4373_0000, 0xf3_0000, 133, 0x1_0000);
}

/// The edge of code 242.
proof fn lemma_near_242()
    ensures
        near_exact_edge(0x3f64_5f12, 242),
{
    lemma2_to64();
    lemma2_to64_rest();
    lemma_fifth_powers_of_two();
    lemma_more_fifth_powers_of_two();
    assert(256525nat * 256525 * 256525 == 0x3b_f8db_e97c_7695);
    assert(269025nat * 269025 * 269025 == 0x45_2c59_9066_9ca1);
    assert(0x3b_f8db_e97c_7695nat * 0x3b_f8db_e97c_7695 == 0xe0c_a748_70a9_1e55_5f4c_5145_b2b9nat);
    assert(0xe0c_a748_70a9_1e55_5f4c_5145_b2b9nat * 0xe0c_a748_70a9_1e55_5f4c_5145_b2b9nat == 0xc5_62ec_086c_a6a8_64b6_24aa_2ebe_5c68_7fab_e180_20ae_99ea_e67f_c9b1nat);
    assert(0x45_2c59_9066_9ca1nat * 0x45_2c59_9066_9ca1 == 0x12b0_eff6_c049_6d6d_d948_5020_9d41nat);
    assert(0x12b0_eff6_c049_6d6d_d948_5020_9d41nat * 0x12b0_eff6_c049_6d6d_d948_5020_9d41nat == 0x15d_5c09_8741_6139_2178_92b9_bce5_5f46_89a2_dd05_b95f_0d00_50d8_ca81nat);
    assert(0x475_ca5anat * 0x475_ca5a == 0x13_e485_6636_27a4);
    assert(0x13_e485_6636_27a4nat * 0x13_e485_6636_27a4 == 0x18b_b7cb_0f9d_b608_8373_6f53_6110nat);
    assert(0x18b_b7cb_0f9d_b608_8373_6f53_6110nat * 0x475_ca5a == 0x6_e4f2_f631_71a2_4306_9836_7b0c_8a36_bfa0nat);
    assert(0x475_ec5anat * 0x475_ec5a == 0x13_e5b4_b47a_0fa4);
    assert(0x13_e5b4_b47a_0fa4nat * 0x13_e5b4_b47a_0fa4 == 0x18b_e6ef_948e_fd35_46d1_8944_a110nat);
    assert(0x18b_e6ef_948e_fd35_46d1_8944_a110nat * 0x475_ec5a == 0x6_e5f9_cde5_2e7c_9a26_c5ec_df17_62eb_5fa0nat);
    assert(0x6_e4f2_f631_71a2_4306_9836_7b0c_8a36_bfa0nat * 0x15d_5c09_8741_6139_2178_92b9_bce5_5f46_89a2_dd05_b95f_0d00_50d8_ca81nat == 0x968_99c2_a2eb_3697_3466_cc03_d6d2_24d9_1952_4113_75fa_4796_8524_d862_be2a_9ccf_404f_cac9_f26c_c074_87ca_cfa0nat);
    assert(0x6_e5f9_cde5_2e7c_9a26_c5ec_df17_62eb_5fa0nat * 0x15d_5c09_8741_6139_2178_92b9_bce5_5f46_89a2_dd05_b95f_0d00_50d8_ca81nat == 0x96a_0075_3240_b850_75df_54c9_2d31_5efb_eb1c_10ba_f8fb_e880_9786_5d76_5e69_f95d_e7e1_46e3_3f45_0351_410f_6fa0nat);
    assert(0xc35nat * 0x100_0000_0000_0000_0000_0000_0000_0000nat == 0xc_3500_0000_0000_0000_0000_0000_0000_0000nat);
    assert(0xc5_62ec_086c_a6a8_64b6_24aa_2ebe_5c68_7fab_e180_20ae_99ea_e67f_c9b1nat * 0xc_3500_0000_0000_0000_0000_0000_0000_0000nat == 0x969_808b_42d6_4e65_9563_6d91_6c99_be07_9e7d_27b1_0ef3_5ce0_6fb5_e90d_a500_0000_0000_0000_0000_0000_0000_0000nat);
    lemma_near_above(
        0x3f64_5f12, 0xe4_5f12, 125, 0x100, 0xc_3500_0000_0000_0000_0000_0000_0000_0000nat, 242,
        256525, 0x3b_f8db_e97c_7695,
        0xe0c_a748_70a9_1e55_5f4c_5145_b2b9nat,
        0x45_2c59_9066_9ca1, 0x12b0_eff6_c049_6d6d_d948_5020_9d41nat,
        0x475_ca5a, 0x13_e485_6636_27a4, 0x18b_b7cb_0f9d_b608_8373_6f53_6110nat,
        0x475_ec5a, 0x13_e5b4_b47a_0fa4, 0x18b_e6ef_948e_fd35_46d1_8944_a110nat,
    );
}

/// The value 0x3f66_83a7.
proof fn lemma_at_3f6683a7()
    ensures
        chord_code(0x3f66_83a7, 0x3f65_5e8d, 0x3f6d_5e8d, 0x4373_7876, 0x4377_2b7e) == 243,
{
    reveal(chord_code);
    lemma2_to64();
    lemma2_to64_rest();
    lemma_high_powers();
    assert(0xed_5e8d * 0x1 - 0xe5_5e8d * 0x1 == 0x8_0000);
    lemma_sum_known(0x3f6d_5e8d, 0x3f65_5e8d, true, 0xed_5e8d, 125, 0xe5_5e8d, 125, 0x1, 0x1, 0x8_0000, 20, 0x8_0000, 0x10);
    assert(sub_spec(0x3f6d_5e8d, 0x3f65_5e8d) == 0x3d00_0000);
    assert(0xe6_83a7 * 0x1 - 0xe5_5e8d * 0x1 == 0x1_251a);
    lemma_sum_known(0x3f66_83a7, 0x3f65_5e8d, true, 0xe6_83a7, 125, 0xe5_5e8d, 125, 0x1, 0x1, 0x1_251a, 17, 0x1_0000, 0x80);
    assert(sub_spec(0x3f66_83a7, 0x3f65_5e8d) == 0x3b92_8d00);
    assert(0xf7_2b7e * 0x1 - 0xf3_7876 * 0x1 == 0x3_b308);
    lemma_sum_known(0x4377_2b7e, 0x4373_7876, true, 0xf7_2b7e, 133, 0xf3_7876, 133, 0x1, 0x1, 0x3_b308, 18, 0x2_0000, 0x40);
    assert(sub_spec(0x4377_2b7e, 0x4373_7876) == 0x406c_c200);
    assert(0xec_c200 * 0x92_8d00 == 0x8789_0ada_0000);
    lemma_product_known(0x406c_c200, 0x3b92_8d00, 0xec_c200, 127, 0x92_8d00, 118, 0x8789_0ada_0000, 48, 0x8000_0000_0000, 0x100_0000);
    assert(mul_spec(0x406c_c200, 0x3b92_8d00) == 0x3c87_890b);
    assert(0x87_890b * 0x1_0000_0000_0000_0000 == 0x1_0f12_1600_0000_0000 * 0x80_0000 + 0x0);
    lemma_quotient_known(0x3c87_890b, 0x3d00_0000, 0x87_890b, 120, 0x80_0000, 121, 0x1_0f12_1600_0000_0000, 0x0, 66, 0x2_0000_0000_0000_0000, 0x400_0000_0000);
    assert(div_spec(0x3c87_890b, 0x3d00_0000) == 0x3f07_890b);
    assert(0xf3_7876 * 0x100 + 0x87_890b * 0x1 == 0xf3ff_ff0b);
    lemma_sum_known(0x4373_7876, 0x3f07_890b, false, 0xf3_7876, 133, 0x87_890b, 125, 0x100, 0x1, 0xf3ff_ff0b, 32, 0x8000_0000, 0x100);
    assert(add_spec(0x4373_7876, 0x3f07_890b) == 0x4373_ffff);
    lemma_whole_known(0x4373_ffff, 0xf3_ffff, 133, 0x1_0000);
}

/// The value 0x3f66_83a8.
proof fn lemma_at_3f6683a8()
    ensures
        chord_code(0x3f66_83a8, 0x3f65_5e8d, 0x3f6d_5e8d, 0x4373_7876, 0x4377_2b7e) == 244,
{
    reveal(chord_code);
    lemma2_to64();
    lemma2_to64_rest();
    lemma_high_powers();
    assert(0xed_5e8d * 0x1 - 0xe5_5e8d * 0x1 == 0x8_0000);
    lemma_sum_known(0x3f6d_5e8d, 0x3f65_5e8d, true, 0xed_5e8d, 125, 0xe5_5e8d, 125, 0x1, 0x1, 0x8_0000, 20, 0x8_0000, 0x10);
    assert(sub_spec(0x3f6d_5e8d, 0x3f65_5e8d) == 0x3d00_0000);
    assert(0xe6_83a8 * 0x1 - 0xe5_5e8d * 0x1 == 0x1_251b);
    lemma_sum_known(0x3f66_83a8, 0x3f65_5e8d, true, 0xe6_83a8, 125, 0xe5_5e8d, 125, 0x1, 0x1, 0x1_251b, 17, 0x1_0000, 0x80);
    assert(sub_spec(0x3f66_83a8, 0x3f65_5e8d) == 0x3b92_8d80);
    assert(0xf7_2b7e * 0x1 - 0xf3_7876 * 0x1 == 0x3_b308);
    lemma_sum_known(0x4377_2b7e, 0x4373_7876, true, 0xf7_2b7e, 133, 0xf3_7876, 133, 0x1, 0x1, 0x3_b308, 18, 0x2_0000, 0x40);
    assert(sub_spec(0x4377_2b7e, 0x4373_7876) == 0x406c_c200);
    assert(0xec_c200 * 0x92_8d80 == 0x8789_813b_0000);
    lemma_product_known(0x406c_c200, 0x3b92_8d80, 0xec_c200, 127, 0x92_8d80, 118, 0x8789_813b_0000, 48, 0x8000_0000_0000, 0x100_0000);
    assert(mul_spec(0x406c_c200, 0x3b92_8d80) == 0x3c87_8981);
    assert(0x87_8981 * 0x1_0000_0000_0000_0000 == 0x1_0f13_0200_0000_0000 * 0x80_0000 + 0x0);
    lemma_quotient_known(0x3c87_8981, 0x3d00_0000, 0x87_8981, 120, 0x80_0000, 121, 0x1_0f13_0200_0000_0000, 0x0, 66, 0x2_0000_0000_0000_0000, 0x400_0000_0000);
    assert(div_spec(0x3c87_8981, 0x3d00_0000) == 0x3f07_8981);
    assert(0xf3_7876 * 0x100 + 0x87_8981 * 0x1 == 0xf3ff_ff81);
    lemma_sum_known(0x4373_7876, 0x3f07_8981, false, 0xf3_7876, 133, 0x87_8981, 125, 0x100, 0x1, 0xf3ff_ff81, 32, 0x8000_0000, 0x100);
    assert(add_spec(0x4373_7876, 0x3f07_8981) == 0x4374_0000);
    lemma_whole_known(0x4374_0000, 0xf4_0000, 133, 0x1_0000);
}

/// The edge of code 243.
proof fn lemma_near_243()
    ensures
        near_exact_edge(0x3f66_83a7, 243),
{
    lemma2_to64();
    lemma2_to64_rest();
    lemma_fifth_powers_of_two();
    lemma_more_fifth_powers_of_two();
    assert(257525nat * 257525 * 257525 == 0x3c_ad1b_a3ce_74cd);
    assert(269025nat * 269025 * 269025 == 0x45_2c59_9066_9ca1);
    assert(0x3c_ad1b_a3ce_74cdnat * 0x3c_ad1b_a3ce_74cd == 0xe61_9a03_2727_c052_447b_3d36_6c29nat);
    assert(0xe61_9a03_2727_c052_447b_3d36_6c29nat * 0xe61_9a03_2727_c052_447b_3d36_6c29nat == 0xce_d20e_6b53_d04e_8223_ff2d_7205_47d5_e595_ff71_94a8_b283_58fe_9e91nat);
    assert(0x45_2c59_9066_9ca1nat * 0x45_2c59_9066_9ca1 == 0x12b0_eff6_c049_6d6d_d948_5020_9d41nat);
    assert(0x12b0_eff6_c049_6d6d_d948_5020_9d41nat * 0x12b0_eff6_c049_6d6d_d948_5020_9d41nat == 0x15d_5c09_8741_6139_2178_92b9_bce5_5f46_89a2_dd05_b95f_0d00_50d8_ca81nat);
    assert(0x480_8143nat * 0x480_8143 == 0x14_448b_9c44_9789);
    assert(0x14_448b_9c44_9789nat * 0x14_448b_9c44_9789 == 0x19a_c82a_e1df_2fc9_01d5_d27a_e751nat);
    assert(0x19a_c82a_e1df_2fc9_01d5_d27a_e751nat * 0x480_8143 == 0x7_3954_2b58_6b61_9d06_0dbb_6316_f13a_5b33nat);
    assert(0x480_a343nat * 0x480_a343 == 0x14_45bd_c31e_6389);
    assert(0x14_45bd_c31e_6389nat * 0x14_45bd_c31e_6389 == 0x19a_f8a6_5497_9ea6_2188_30cf_3f51nat);
    assert(0x19a_f8a6_5497_9ea6_2188_30cf_3f51nat * 0x480_a343 == 0x7_3a65_045d_a5ae_9949_31b0_2255_a80e_2533nat);
    assert(0x7_3954_2b58_6b61_9d06_0dbb_6316_f13a_5b33nat * 0x15d_5c09_8741_6139_2178_92b9_bce5_5f46_89a2_dd05_b95f_0d00_50d8_ca81nat == 0x9db_c09e_2c27_6056_2826_2c8d_58e4_99f6_41af_cbcd_5354_d579_380f_c5fe_c728_05ef_7980_b5c4_37e9_65a4_7d66_32b3nat);
    assert(0x7_3a65_045d_a5ae_9949_31b0_2255_a80e_2533nat * 0x15d_5c09_8741_6139_2178_92b9_bce5_5f46_89a2_dd05_b95f_0d00_50d8_ca81nat == 0x9dd_34f8_206d_858d_423c_90ce_ae27_4da4_01d6_01a6_0a03_fdbe_ef01_b711_3f81_8565_60db_a718_2273_b254_2b82_fcb3nat);
    assert(0xc35nat * 0x100_0000_0000_0000_0000_0000_0000_0000nat == 0xc_3500_0000_0000_0000_0000_0000_0000_0000nat);
    assert(0xce_d20e_6b53_d04e_8223_ff2d_7205_47d5_e595_ff71_94a8_b283_58fe_9e91nat * 0xc_3500_0000_0000_0000_0000_0000_0000_0000nat == 0x9dc_aa2a_0426_1dce_5aa1_69f5_c0da_75e6_0b90_0735_7baf_4b1d_5d5c_25a0_0500_0000_0000_0000_0000_0000_0000_0000nat);
    lemma_near_above(
        0x3f66_83a7, 0xe6_83a7, 125, 0x100, 0xc_3500_0000_0000_0000_0000_0000_0000_0000nat, 243,
        257525, 0x3c_ad1b_a3ce_74cd,
        0xe61_9a03_2727_c052_447b_3d36_6c29nat,
        0x45_2c59_9066_9ca1, 0x12b0_eff6_c049_6d6d_d948_5020_9d41nat,
        0x480_8143, 0x14_448b_9c44_9789, 0x19a_c82a_e1df_2fc9_01d5_d27a_e751nat,
        0x480_a343, 0x14_45bd_c31e_6389, 0x19a_f8a6_5497_9ea6_2188_30cf_3f51nat,
    );
}

/// The value 0x3f68_ad44.
proof fn lemma_at_3f68ad44()
    ensures
        chord_code(0x3f68_ad44, 0x3f65_5e8d, 0x3f6d_5e8d, 0x4373_7876, 0x4377_2b7e) == 244,
{
    reveal(chord_code);
    lemma2_to64();
    lemma2_to64_rest();
    lemma_high_powers();
    assert(0xed_5e8d * 0x1 - 0xe5_5e8d * 0x1 == 0x8_0000);
    lemma_sum_known(0x3f6d_5e8d, 0x3f65_5e8d, true, 0xed_5e8d, 125, 0xe5_5e8d, 125, 0x1, 0x1, 0x8_0000, 20, 0x8_0000, 0x10);
    assert(sub_spec(0x3f6d_5e8d, 0x3f65_5e8d) == 0x3d00_0000);
    assert(0xe8_ad44 * 0x1 - 0xe5_5e8d * 0x1 == 0x3_4eb7);
    lemma_sum_known(0x3f68_ad44, 0x3f65_5e8d, true, 0xe8_ad44, 125, 0xe5_5e8d, 125, 0x1, 0x1, 0x3_4eb7, 18, 0x2_0000, 0x40);
    assert(sub_spec(0x3f68_ad44, 0x3f65_5e8d) == 0x3c53_adc0);
    assert(0xf7_2b7e * 0x1 - 0xf3_7876 * 0x1 == 0x3_b308);
    lemma_sum_known(0x4377_2b7e, 0x4373_7876, true, 0xf7_2b7e, 133, 0xf3_7876, 133, 0x1, 0x1, 0x3_b308, 18, 0x2_0000, 0x40);
    assert(sub_spec(0x4377_2b7e, 0x4373_7876) == 0x406c_c200);
    assert(0xec_c200 * 0xd3_adc0 == 0xc3c4_96ab_8000);
    lemma_product_known(0x406c_c200, 0x3c53_adc0, 0xec_c200, 127, 0xd3_adc0, 119, 0xc3c4_96ab_8000, 48, 0x8000_0000_0000, 0x100_0000);
    assert(mul_spec(0x406c_c200, 0x3c53_adc0) == 0x3d43_c497);
    assert(0xc3_c497 * 0x1_0000_0000_0000_0000 == 0x1_8789_2e00_0000_0000 * 0x80_0000 + 0x0);
    lemma_quotient_known(0x3d43_c497, 0x3d00_0000, 0xc3_c497, 121, 0x80_0000, 121, 0x1_8789_2e00_0000_0000, 0x0, 66, 0x2_0000_0000_0000_0000, 0x400_0000_0000);
    assert(div_spec(0x3d43_c497, 0x3d00_0000) == 0x3fc3_c497);
    assert(0xf3_7876 * 0x80 + 0xc3_c497 * 0x1 == 0x7a7f_ff97);
    lemma_sum_known(0x4373_7876, 0x3fc3_c497, false, 0xf3_7876, 133, 0xc3_c497, 126, 0x80, 0x1, 0x7a7f_ff97, 31, 0x4000_0000, 0x80);
    assert(add_spec(0x4373_7876, 0x3fc3_c497) == 0x4374_ffff);
    lemma_whole_known(0x4374_ffff, 0xf4_ffff, 133, 0x1_0000);
}

/// The value 0x3f68_ad45.
proof fn lemma_at_3f68ad45()
    ensures
        chord_code(0x3f68_ad45, 0x3f65_5e8d, 0x3f6d_5e8d, 0x4373_7876, 0x4377_2b7e) == 245,
{
    reveal(chord_code);
    lemma2_to64();
    lemma2_to64_rest();
    lemma_high_powers();
    assert(0xed_5e8d * 0x1 - 0xe5_5e8d * 0x1 == 0x8_0000);
    lemma_sum_known(0x3f6d_5e8d, 0x3f65_5e8d, true, 0xed_5e8d, 125, 0xe5_5e8d, 125, 0x1, 0x1, 0x8_0000, 20, 0x8_0000, 0x10);
    assert(sub_spec(0x3f6d_5e8d, 0x3f65_5e8d) == 0x3d00_0000);
    assert(0xe8_ad45 * 0x1 - 0xe5_5e8d * 0x1 == 0x3_4eb8);
    lemma_sum_known(0x3f68_ad45, 0x3f65_5e8d, true, 0xe8_ad45, 125, 0xe5_5e8d, 125, 0x1, 0x1, 0x3_4eb8, 18, 0x2_0000, 0x40);
    assert(sub_spec(0x3f68_ad45, 0x3f65_5e8d) == 0x3c53_ae00);
    assert(0xf7_2b7e * 0x1 - 0xf3_7876 * 0x1 == 0x3_b308);
    lemma_sum_known(0x4377_2b7e, 0x4373_7876, true, 0xf7_2b7e, 133, 0xf3_7876, 133, 0x1, 0x1, 0x3_b308, 18, 0x2_0000, 0x40);
    assert(sub_spec(0x4377_2b7e, 0x4373_7876) == 0x406c_c200);
    assert(0xec_c200 * 0xd3_ae00 == 0xc3c4_d1dc_0000);
    lemma_product_known(0x406c_c200, 0x3c53_ae00, 0xec_c200, 127, 0xd3_ae00, 119, 0xc3c4_d1dc_0000, 48, 0x8000_0000_0000, 0x100_0000);
    assert(mul_spec(0x406c_c200, 0x3c53_ae00) == 0x3d43_c4d2);
    assert(0xc3_c4d2 * 0x1_0000_0000_0000_0000 == 0x1_8789_a400_0000_0000 * 0x80_0000 + 0x0);
    lemma_quotient_known(0x3d43_c4d2, 0x3d00_0000, 0xc3_c4d2, 121, 0x80_0000, 121, 0x1_8789_a400_0000_0000, 0x0, 66, 0x2_0000_0000_0000_0000, 0x400_0000_0000);
    assert(div_spec(0x3d43_c4d2, 0x3d00_0000) == 0x3fc3_c4d2);
    assert(0xf3_7876 * 0x80 + 0xc3_c4d2 * 0x1 == 0x7a7f_ffd2);
    lemma_sum_known(0x4373_7876, 0x3fc3_c4d2, false, 0xf3_7876, 133, 0xc3_c4d2, 126, 0x80, 0x1, 0x7a7f_ffd2, 31, 0x4000_0000, 0x80);
    assert(add_spec(0x4373_7876, 0x3fc3_c4d2) == 0x4375_0000);
    lemma_whole_known(0x4375_0000, 0xf5_0000, 133, 0x1_0000);
}

/// The edge of code 244.
proof fn lemma_near_244()
    ensures
        near_exact_edge(0x3f68_ad44, 244),
{
    lemma2_to64();
    lemma2_to64_rest();
    lemma_fifth_powers_of_two();
    lemma_more_fifth_powers_of_two();
    assert(258525nat * 258525 * 258525 == 0x3d_62c3_203e_5e85);
    assert(269025nat * 269025 * 269025 == 0x45_2c59_9066_9ca1);
    assert(0x3d_62c3_203e_5e85nat * 0x3d_62c3_203e_5e85 == 0xeb8_3717_5722_eed3_7971_2b51_f119nat);
    assert(0xeb8_3717_5722_eed3_7971_2b51_f119nat * 0xeb8_3717_5722_eed3_7971_2b51_f119nat == 0xd8_aa95_caf0_1de8_39d5_7eb1_baa1_6043_1ad6_fafc_a6cb_1b4a_dae2_1471nat);
    assert(0x45_2c59_9066_9ca1nat * 0x45_2c59_9066_9ca1 == 0x12b0_eff6_c049_6d6d_d948_5020_9d41nat);
    assert(0x12b0_eff6_c049_6d6d_d948_5020_9d41nat * 0x12b0_eff6_c049_6d6d_d948_5020_9d41nat == 0x15d_5c09_8741_6139_2178_92b9_bce5_5f46_89a2_dd05_b95f_0d00_50d8_ca81nat);
    assert(0x48b_5154nat * 0x48b_5154 == 0x14_a65c_0b0e_4390);
    assert(0x14_a65c_0b0e_4390nat * 0x14_a65c_0b0e_4390 == 0x1aa_6a7d_39a9_00d9_8a19_d594_b100nat);
    assert(0x1aa_6a7d_39a9_00d9_8a19_d594_b100nat * 0x48b_5154 == 0x7_91b9_3e81_831c_40ff_7f70_c78e_3bcb_1400nat);
    assert(0x48b_7354nat * 0x48b_7354 == 0x14_a791_112c_9390);
    assert(0x14_a791_112c_9390nat * 0x14_a791_112c_9390 == 0x1aa_9c59_4593_acab_fc7c_2e8e_b100nat);
    assert(0x1aa_9c59_4593_acab_fc7c_2e8e_b100nat * 0x48b_7354 == 0x7_92d4_79c6_7d6d_9c59_f302_23e7_7b55_1400nat);
    assert(0x7_91b9_3e81_831c_40ff_7f70_c78e_3bcb_1400nat * 0x15d_5c09_8741_6139_2178_92b9_bce5_5f46_89a2_dd05_b95f_0d00_50d8_ca81nat == 0xa54_6230_e851_0b17_2af8_8bfc_bb81_1a26_1429_550f_d949_d6f2_76ac_bd57_da8e_9502_c048_afac_c400_b373_3f1d_1400nat);
    assert(0x7_92d4_79c6_7d6d_9c59_f302_23e7_7b55_1400nat * 0x15d_5c09_8741_6139_2178_92b9_bce5_5f46_89a2_dd05_b95f_0d00_50d8_ca81nat == 0xa55_e4b6_8931_cff9_bc27_a3f1_6502_a39b_164a_dfe3_3aca_75a4_574d_b801_63f7_f0f2_f337_dd63_8447_64ff_27a7_1400nat);
    assert(0xc35nat * 0x100_0000_0000_0000_0000_0000_0000_0000nat == 0xc_3500_0000_0000_0000_0000_0000_0000_0000nat);
    assert(0xd8_aa95_caf0_1de8_39d5_7eb1_baa1_6043_1ad6_fafc_a6cb_1b4a_dae2_1471nat * 0xc_3500_0000_0000_0000_0000_0000_0000_0000nat == 0xa54_da56_8645_1d13_c9fb_238f_8b33_ec13_26a2_45ce_200d_5428_c1e9_c387_6500_0000_0000_0000_0000_0000_0000_0000nat);
    lemma_near_above(
        0x3f68_ad44, 0xe8_ad44, 125, 0x100, 0xc_3500_0000_0000_0000_0000_0000_0000_0000nat, 244,
        258525, 0x3d_62c3_203e_5e85,
        0xeb8_3717_5722_eed3_7971_2b51_f119nat,
        0x45_2c59_9066_9ca1, 0x12b0_eff6_c049_6d6d_d948_5020_9d41nat,
        0x48b_5154, 0x14_a65c_0b0e_4390, 0x1aa_6a7d_39a9_00d9_8a19_d594_b100nat,
        0x48b_7354, 0x14_a791_112c_9390, 0x1aa_9c59_4593_acab_fc7c_2e8e_b100nat,
    );
}

/// The value 0x3f6a_d6e1.
proof fn lemma_at_3f6ad6e1()
    ensures
        chord_code(0x3f6a_d6e1, 0x3f65_5e8d, 0x3f6d_5e8d, 0x4373_7876, 0x4377_2b7e) == 245,
{
    reveal(chord_code);
    lemma2_to64();
    lemma2_to64_rest();
    lemma_high_powers();
    assert(0xed_5e8d * 0x1 - 0xe5_5e8d * 0x1 == 0x8_0000);
    lemma_sum_known(0x3f6d_5e8d, 0x3f65_5e8d, true, 0xed_5e8d, 125, 0xe5_5e8d, 125, 0x1, 0x1, 0x8_0000, 20, 0x8_0000, 0x10);
    assert(sub_spec(0x3f6d_5e8d, 0x3f65_5e8d) == 0x3d00_0000);
    assert(0xea_d6e1 * 0x1 - 0xe5_5e8d * 0x1 == 0x5_7854);
    lemma_sum_known(0x3f6a_d6e1, 0x3f65_5e8d, true, 0xea_d6e1, 125, 0xe5_5e8d, 125, 0x1, 0x1, 0x5_7854, 19, 0x4_0000, 0x20);
    assert(sub_spec(0x3f6a_d6e1, 0x3f65_5e8d) == 0x3caf_0a80);
    assert(0xf7_2b7e * 0x1 - 0xf3_7876 * 0x1 == 0x3_b308);
    lemma_sum_known(0x4377_2b7e, 0x4373_7876, true, 0xf7_2b7e, 133, 0xf3_7876, 133, 0x1, 0x1, 0x3_b308, 18, 0x2_0000, 0x40);
    assert(sub_spec(0x4377_2b7e, 0x4373_7876) == 0x406c_c200);
    assert(0xec_c200 * 0xaf_0a80 == 0xa1e2_53f5_0000);
    lemma_product_known(0x406c_c200, 0x3caf_0a80, 0xec_c200, 127, 0xaf_0a80, 120, 0xa1e2_53f5_0000, 48, 0x8000_0000_0000, 0x100_0000);
    assert(mul_spec(0x406c_c200, 0x3caf_0a80) == 0x3da1_e254);
    assert(0xa1_e254 * 0x1_0000_0000_0000_0000 == 0x1_43c4_a800_0000_0000 * 0x80_0000 + 0x0);
    lemma_quotient_known(0x3da1_e254, 0x3d00_0000, 0xa1_e254, 122, 0x80_0000, 121, 0x1_43c4_a800_0000_0000, 0x0, 66, 0x2_0000_0000_0000_0000, 0x400_0000_0000);
    assert(div_spec(0x3da1_e254, 0x3d00_0000) == 0x4021_e254);
    assert(0xf3_7876 * 0x40 + 0xa1_e254 * 0x1 == 0x3d7f_ffd4);
    lemma_sum_known(0x4373_7876, 0x4021_e254, false, 0xf3_7876, 133, 0xa1_e254, 127, 0x40, 0x1, 0x3d7f_ffd4, 30, 0x2000_0000, 0x40);
    assert(add_spec(0x4373_7876, 0x4021_e254) == 0x4375_ffff);
    lemma_whole_known(0x4375_ffff, 0xf5_ffff, 133, 0x1_0000);
}

/// The value 0x3f6a_d6e2.
proof fn lemma_at_3f6ad6e2()
    ensures
        chord_code(0x3f6a_d6e2, 0x3f65_5e8d, 0x3f6d_5e8d, 0x4373_7876, 0x4377_2b7e) == 246,
{
    reveal(chord_code);
    lemma2_to64();
    lemma2_to64_rest();
    lemma_high_powers();
    assert(0xed_5e8d * 0x1 - 0xe5_5e8d * 0x1 == 0x8_0000);
    lemma_sum_known(0x3f6d_5e8d, 0x3f65_5e8d, true, 0xed_5e8d, 125, 0xe5_5e8d, 125, 0x1, 0x1, 0x8_0000, 20, 0x8_0000, 0x10);
    assert(sub_spec(0x3f6d_5e8d, 0x3f65_5e8d) == 0x3d00_0000);
    assert(0xea_d6e2 * 0x1 - 0xe5_5e8d * 0x1 == 0x5_7855);
    lemma_sum_known(0x3f6a_d6e2, 0x3f65_5e8d, true, 0xea_d6e2, 125, 0xe5_5e8d, 125, 0x1, 0x1, 0x5_7855, 19, 0x4_0000, 0x20);
    assert(sub_spec(0x3f6a_d6e2, 0x3f65_5e8d) == 0x3caf_0aa0);
    assert(0xf7_2b7e * 0x1 - 0xf3_7876 * 0x1 == 0x3_b308);
    lemma_sum_known(0x4377_2b7e, 0x4373_7876, true, 0xf7_2b7e, 133, 0xf3_7876, 133, 0x1, 0x1, 0x3_b308, 18, 0x2_0000, 0x40);
    assert(sub_spec(0x4377_2b7e, 0x4373_7876) == 0x406c_c200);
    assert(0xec_c200 * 0xaf_0aa0 == 0xa1e2_718d_4000);
    lemma_product_known(0x406c_c200, 0x3caf_0aa0, 0xec_c200, 127, 0xaf_0aa0, 120, 0xa1e2_718d_4000, 48, 0x8000_0000_0000, 0x100_0000);
    assert(mul_spec(0x406c_c200, 0x3caf_0aa0) == 0x3da1_e272);
    assert(0xa1_e272 * 0x1_0000_0000_0000_0000 == 0x1_43c4_e400_0000_0000 * 0x80_0000 + 0x0);
    lemma_quotient_known(0x3da1_e272, 0x3d00_0000, 0xa1_e272, 122, 0x80_0000, 121, 0x1_43c4_e400_0000_0000, 0x0, 66, 0x2_0000_0000_0000_0000, 0x400_0000_0000);
    assert(div_spec(0x3da1_e272, 0x3d00_0000) == 0x4021_e272);
    assert(0xf3_7876 * 0x40 + 0xa1_e272 * 0x1 == 0x3d7f_fff2);
    lemma_sum_known(0x4373_7876, 0x4021_e272, false, 0xf3_7876, 133, 0xa1_e272, 127, 0x40, 0x1, 0x3d7f_fff2, 30, 0x2000_0000, 0x40);
    assert(add_spec(0x4373_7876, 0x4021_e272) == 0x4376_0000);
    lemma_whole_known(0x4376_0000, 0xf6_0000, 133, 0x1_0000);
}

/// The edge of code 245.
proof fn lemma_near_245()
    ensures
        near_exact_edge(0x3f6a_d6e1, 245),
{
    lemma2_to64();
    lemma2_to64_rest();
    lemma_fifth_powers_of_two();
    lemma_more_fifth_powers_of_two();
    assert(259525nat * 259525 * 259525 == 0x3e_19d3_c46c_efbd);
    assert(269025nat * 269025 * 269025 == 0x45_2c59_9066_9ca1);
    assert(0x3e_19d3_c46c_efbdnat * 0x3e_19d3_c46c_efbd == 0xf10_852e_304e_c8a9_1902_8ffa_7189nat);
    assert(0xf10_852e_304e_c8a9_1902_8ffa_7189nat * 0xf10_852e_304e_c8a9_1902_8ffa_7189nat == 0xe2_f0ac_54b8_4be4_27fe_e171_4cd7_116c_d737_79b1_71f2_47fc_ffee_3b51nat);
    assert(0x45_2c59_9066_9ca1nat * 0x45_2c59_9066_9ca1 == 0x12b0_eff6_c049_6d6d_d948_5020_9d41nat);
    assert(0x12b0_eff6_c049_6d6d_d948_5020_9d41nat * 0x12b0_eff6_c049_6d6d_d948_5020_9d41nat == 0x15d_5c09_8741_6139_2178_92b9_bce5_5f46_89a2_dd05_b95f_0d00_50d8_ca81nat);
    assert(0x496_2165nat * 0x496_2165 == 0x15_0916_4eb7_31d9);
    assert(0x15_0916_4eb7_31d9nat * 0x15_0916_4eb7_31d9 == 0x1ba_7dfb_7d88_aecb_f8c4_89f2_c9f1nat);
    assert(0x1ba_7dfb_7d88_aecb_f8c4_89f2_c9f1nat * 0x496_2165 == 0x7_ed77_7822_d038_c0dc_16db_1abc_d007_bd15nat);
    assert(0x496_4365nat * 0x496_4365 == 0x15_0a4e_341a_05d9);
    assert(0x15_0a4e_341a_05d9nat * 0x15_0a4e_341a_05d9 == 0x1ba_b13e_c03a_c885_1941_5836_31f1nat);
    assert(0x1ba_b13e_c03a_c885_1941_5836_31f1nat * 0x496_4365 == 0x7_ee9d_60d0_e7a4_cc0d_c3c9_9967_03a9_c715nat);
    assert(0x7_ed77_7822_d038_c0dc_16db_1abc_d007_bd15nat * 0x15d_5c09_8741_6139_2178_92b9_bce5_5f46_89a2_dd05_b95f_0d00_50d8_ca81nat == 0xad1_9581_4015_e7db_ad75_0715_48dd_c71e_81f5_32c5_fe69_bad6_6b4c_457e_8caa_39e4_570c_cda6_b438_77e9_08d0_d995nat);
    assert(0x7_ee9d_60d0_e7a4_cc0d_c3c9_9967_03a9_c715nat * 0x15d_5c09_8741_6139_2178_92b9_bce5_5f46_89a2_dd05_b95f_0d00_50d8_ca81nat == 0xad3_2699_1ffa_dd74_184f_2681_e879_fcf7_8b16_91f5_e194_47e6_65f3_136f_01e8_f25e_b2fc_2dee_0898_cc43_595b_e395nat);
    assert(0xc35nat * 0x100_0000_0000_0000_0000_0000_0000_0000nat == 0xc_3500_0000_0000_0000_0000_0000_0000_0000nat);
    assert(0xe2_f0ac_54b8_4be4_27fe_e171_4cd7_116c_d737_79b1_71f2_47fc_ffee_3b51nat * 0xc_3500_0000_0000_0000_0000_0000_0000_0000nat == 0xad2_43e7_a62d_b668_1c3a_55fc_0efd_57b5_9f28_3083_13f2_88c3_6027_1a13_c500_0000_0000_0000_0000_0000_0000_0000nat);
    lemma_near_above(
        0x3f6a_d6e1, 0xea_d6e1, 125, 0x100, 0xc_3500_0000_0000_0000_0000_0000_0000_0000nat, 245,
        259525, 0x3e_19d3_c46c_efbd,
        0xf10_852e_304e_c8a9_1902_8ffa_7189nat,
        0x45_2c59_9066_9ca1, 0x12b0_eff6_c049_6d6d_d948_5020_9d41nat,
        0x496_2165, 0x15_0916_4eb7_31d9, 0x1ba_7dfb_7d88_aecb_f8c4_89f2_c9f1nat,
        0x496_4365, 0x15_0a4e_341a_05d9, 0x1ba_b13e_c03a_c885_1941_5836_31f1nat,
    );
}

/// The value 0x3f6d_007e.
proof fn lemma_at_3f6d007e()
    ensures
        chord_code(0x3f6d_007e, 0x3f65_5e8d, 0x3f6d_5e8d, 0x4373_7876, 0x4377_2b7e) == 246,
{
    reveal(chord_code);
    lemma2_to64();
    lemma2_to64_rest();
    lemma_high_powers();
    assert(0xed_5e8d * 0x1 - 0xe5_5e8d * 0x1 == 0x8_0000);
    lemma_sum_known(0x3f6d_5e8d, 0x3f65_5e8d, true, 0xed_5e8d, 125, 0xe5_5e8d, 125, 0x1, 0x1, 0x8_0000, 20, 0x8_0000, 0x10);
    assert(sub_spec(0x3f6d_5e8d, 0x3f65_5e8d) == 0x3d00_0000);
    assert(0xed_007e * 0x1 - 0xe5_5e8d * 0x1 == 0x7_a1f1);
    lemma_sum_known(0x3f6d_007e, 0x3f65_5e8d, true, 0xed_007e, 125, 0xe5_5e8d, 125, 0x1, 0x1, 0x7_a1f1, 19, 0x4_0000, 0x20);
    assert(sub_spec(0x3f6d_007e, 0x3f65_5e8d) == 0x3cf4_3e20);
    assert(0xf7_2b7e * 0x1 - 0xf3_7876 * 0x1 == 0x3_b308);
    lemma_sum_known(0x4377_2b7e, 0x4373_7876, true, 0xf7_2b7e, 133, 0xf3_7876, 133, 0x1, 0x1, 0x3_b308, 18, 0x2_0000, 0x40);
    assert(sub_spec(0x4377_2b7e, 0x4373_7876) == 0x406c_c200);
    assert(0xec_c200 * 0xf4_3e20 == 0xe1e2_5c94_4000);
    lemma_product_known(0x406c_c200, 0x3cf4_3e20, 0xec_c200, 127, 0xf4_3e20, 120, 0xe1e2_5c94_4000, 48, 0x8000_0000_0000, 0x100_0000);
    assert(mul_spec(0x406c_c200, 0x3cf4_3e20) == 0x3de1_e25d);
    assert(0xe1_e25d * 0x1_0000_0000_0000_0000 == 0x1_c3c4_ba00_0000_0000 * 0x80_0000 + 0x0);
    lemma_quotient_known(0x3de1_e25d, 0x3d00_0000, 0xe1_e25d, 122, 0x80_0000, 121, 0x1_c3c4_ba00_0000_0000, 0x0, 66, 0x2_0000_0000_0000_0000, 0x400_0000_0000);
    assert(div_spec(0x3de1_e25d, 0x3d00_0000) == 0x4061_e25d);
    assert(0xf3_7876 * 0x40 + 0xe1_e25d * 0x1 == 0x3dbf_ffdd);
    lemma_sum_known(0x4373_7876, 0x4061_e25d, false, 0xf3_7876, 133, 0xe1_e25d, 127, 0x40, 0x1, 0x3dbf_ffdd, 30, 0x2000_0000, 0x40);
    assert(add_spec(0x4373_7876, 0x4061_e25d) == 0x4376_ffff);
    lemma_whole_known(0x4376_ffff, 0xf6_ffff, 133, 0x1_0000);
}

/// The value 0x3f6d_007f.
proof fn lemma_at_3f6d007f()
    ensures
        chord_code(0x3f6d_007f, 0x3f65_5e8d, 0x3f6d_5e8d, 0x4373_7876, 0x4377_2b7e) == 247,
{
    reveal(chord_code);
    lemma2_to64();
    lemma2_to64_rest();
    lemma_high_powers();
    assert(0xed_5e8d * 0x1 - 0xe5_5e8d * 0x1 == 0x8_0000);
    lemma_sum_known(0x3f6d_5e8d, 0x3f65_5e8d, true, 0xed_5e8d, 125, 0xe5_5e8d, 125, 0x1, 0x1, 0x8_0000, 20, 0x8_0000, 0x10);
    assert(sub_spec(0x3f6d_5e8d, 0x3f65_5e8d) == 0x3d00_0000);
    assert(0xed_007f * 0x1 - 0xe5_5e8d * 0x1 == 0x7_a1f2);
    lemma_sum_known(0x3f6d_007f, 0x3f65_5e8d, true, 0xed_007f, 125, 0xe5_5e8d, 125, 0x1, 0x1, 0x7_a1f2, 19, 0x4_0000, 0x20);
    assert(sub_spec(0x3f6d_007f, 0x3f65_5e8d) == 0x3cf4_3e40);
    assert(0xf7_2b7e * 0x1 - 0xf3_7876 * 0x1 == 0x3_b308);
    lemma_sum_known(0x4377_2b7e, 0x4373_7876, true, 0xf7_2b7e, 133, 0xf3_7876, 133, 0x1, 0x1, 0x3_b308, 18, 0x2_0000, 0x40);
    assert(sub_spec(0x4377_2b7e, 0x4373_7876) == 0x406c_c200);
    assert(0xec_c200 * 0xf4_3e40 == 0xe1e2_7a2c_8000);
    lemma_product_known(0x406c_c200, 0x3cf4_3e40, 0xec_c200, 127, 0xf4_3e40, 120, 0xe1e2_7a2c_8000, 48, 0x8000_0000_0000, 0x100_0000);
    assert(mul_spec(0x406c_c200, 0x3cf4_3e40) == 0x3de1_e27a);
    assert(0xe1_e27a * 0x1_0000_0000_0000_0000 == 0x1_c3c4_f400_0000_0000 * 0x80_0000 + 0x0);
    lemma_quotient_known(0x3de1_e27a, 0x3d00_0000, 0xe1_e27a, 122, 0x80_0000, 121, 0x1_c3c4_f400_0000_0000, 0x0, 66, 0x2_0000_0000_0000_0000, 0x400_0000_0000);
    assert(div_spec(0x3de1_e27a, 0x3d00_0000) == 0x4061_e27a);
    assert(0xf3_7876 * 0x40 + 0xe1_e27a * 0x1 == 0x3dbf_fffa);
    lemma_sum_known(0x4373_7876, 0x4061_e27a, false, 0xf3_7876, 133, 0xe1_e27a, 127, 0x40, 0x1, 0x3dbf_fffa, 30, 0x2000_0000, 0x40);
    assert(add_spec(0x4373_7876, 0x4061_e27a) == 0x4377_0000);
    lemma_whole_known(0x4377_0000, 0xf7_0000, 133, 0x1_0000);
}

/// The edge of code 246.
proof fn lemma_near_246()
    ensures
        near_exact_edge(0x3f6d_007e, 246),
{
    lemma2_to64();
    lemma2_to64_rest();
    lemma_fifth_powers_of_two();
    lemma_more_fifth_powers_of_two();
    assert(260525nat * 260525 * 260525 == 0x3e_d24e_f5fa_e475);
    assert(269025nat * 269025 * 269025 == 0x45_2c59_9066_9ca1);
    assert(0x3e_d24e_f5fa_e475nat * 0x3e_d24e_f5fa_e475 == 0xf6a_8b04_c971_18b9_5a76_f264_9d79nat);
    assert(0xf6a_8b04_c971_18b9_5a76_f264_9d79nat * 0xf6a_8b04_c971_18b9_5a76_f264_9d79nat == 0xed_a8a1_fb10_4565_ecfd_b3ba_6acb_5928_7b38_1377_61de_a0d0_2b65_a331nat);
    assert(0x45_2c59_9066_9ca1nat * 0x45_2c59_9066_9ca1 == 0x12b0_eff6_c049_6d6d_d948_5020_9d41nat);
    assert(0x12b0_eff6_c049_6d6d_d948_5020_9d41nat * 0x12b0_eff6_c049_6d6d_d948_5020_9d41nat == 0x15d_5c09_8741_6139_2178_92b9_bce5_5f46_89a2_dd05_b95f_0d00_50d8_ca81nat);
    assert(0x4a0_f176nat * 0x4a0_f176 == 0x15_6cba_673f_6264);
    assert(0x15_6cba_673f_6264nat * 0x15_6cba_673f_6264 == 0x1cb_04c2_bf3d_d12b_6a2e_0b08_b710nat);
    assert(0x1cb_04c2_bf3d_d12b_6a2e_0b08_b710nat * 0x4a0_f176 == 0x8_4ca6_f7c4_05b4_c133_5deb_51ea_f45a_7160nat);
    assert(0x4a1_1376nat * 0x4a1_1376 == 0x15_6df5_2be6_ba64);
    assert(0x15_6df5_2be6_ba64nat * 0x15_6df5_2be6_ba64 == 0x1cb_3973_e60a_1e49_3df9_0b65_7710nat);
    assert(0x1cb_3973_e60a_1e49_3df9_0b65_7710nat * 0x4a1_1376 == 0x8_4dd7_da6b_ea54_f9f1_4329_cd4f_e9ab_1160nat);
    assert(0x8_4ca6_f7c4_05b4_c133_5deb_51ea_f45a_7160nat * 0x15d_5c09_8741_6139_2178_92b9_bce5_5f46_89a2_dd05_b95f_0d00_50d8_ca81nat == 0xb53_7b7a_dbaf_994f_3e70_b5e4_995a_f3ee_cc2e_1f7a_5fa5_a989_1de5_de40_8800_6e26_ad8b_b9eb_9733_fbf2_2808_e160nat);
    assert(0x8_4dd7_da6b_ea54_f9f1_4329_cd4f_e9ab_1160nat * 0x15d_5c09_8741_6139_2178_92b9_bce5_5f46_89a2_dd05_b95f_0d00_50d8_ca81nat == 0xb55_1b8d_775f_ab31_1775_f590_2074_1564_ff17_78ec_03dc_e9b9_011f_55ca_7cef_a977_17a0_a8c7_8b06_016a_63e9_8160nat);
    assert(0xc35nat * 0x100_0000_0000_0000_0000_0000_0000_0000nat == 0xc_3500_0000_0000_0000_0000_0000_0000_0000nat);
    assert(0xed_a8a1_fb10_4565_ecfd_b3ba_6acb_5928_7b38_1377_61de_a0d0_2b65_a331nat * 0xc_3500_0000_0000_0000_0000_0000_0000_0000nat == 0xb55_1b81_4dbd_9f25_35f4_f2f2_99a4_475b_2823_85a0_4db2_a10d_21bf_b115_2500_0000_0000_0000_0000_0000_0000_0000nat);
    lemma_near_above(
        0x3f6d_007e, 0xed_007e, 125, 0x100, 0xc_3500_0000_0000_0000_0000_0000_0000_0000nat, 246,
        260525, 0x3e_d24e_f5fa_e475,
        0xf6a_8b04_c971_18b9_5a76_f264_9d79nat,
        0x45_2c59_9066_9ca1, 0x12b0_eff6_c049_6d6d_d948_5020_9d41nat,
        0x4a0_f176, 0x15_6cba_673f_6264, 0x1cb_04c2_bf3d_d12b_6a2e_0b08_b710nat,
        0x4a1_1376, 0x15_6df5_2be6_ba64, 0x1cb_3973_e60a_1e49_3df9_0b65_7710nat,
    );
}

/// The value 0x3f6f_337b.
proof fn lemma_at_3f6f337b()
    ensures
        chord_code(0x3f6f_337b, 0x3f6d_5e8d, 0x3f75_5e8d, 0x4377_2b7e, 0x437a_cb96) == 247,
{
    reveal(chord_code);
    lemma2_to64();
    lemma2_to64_rest();
    lemma_high_powers();
    assert(0xf5_5e8d * 0x1 - 0xed_5e8d * 0x1 == 0x8_0000);
    lemma_sum_known(0x3f75_5e8d, 0x3f6d_5e8d, true, 0xf5_5e8d, 125, 0xed_5e8d, 125, 0x1, 0x1, 0x8_0000, 20, 0x8_0000, 0x10);
    assert(sub_spec(0x3f75_5e8d, 0x3f6d_5e8d) == 0x3d00_0000);
    assert(0xef_337b * 0x1 - 0xed_5e8d * 0x1 == 0x1_d4ee);
    lemma_sum_known(0x3f6f_337b, 0x3f6d_5e8d, true, 0xef_337b, 125, 0xed_5e8d, 125, 0x1, 0x1, 0x1_d4ee, 17, 0x1_0000, 0x80);
    assert(sub_spec(0x3f6f_337b, 0x3f6d_5e8d) == 0x3bea_7700);
    assert(0xfa_cb96 * 0x1 - 0xf7_2b7e * 0x1 == 0x3_a018);
    lemma_sum_known(0x437a_cb96, 0x4377_2b7e, true, 0xfa_cb96, 133, 0xf7_2b7e, 133, 0x1, 0x1, 0x3_a018, 18, 0x2_0000, 0x40);
    assert(sub_spec(0x437a_cb96, 0x4377_2b7e) == 0x4068_0600);
    assert(0xe8_0600 * 0xea_7700 == 0xd481_56ca_0000);
    lemma_product_known(0x4068_0600, 0x3bea_7700, 0xe8_0600, 127, 0xea_7700, 118, 0xd481_56ca_0000, 48, 0x8000_0000_0000, 0x100_0000);
    assert(mul_spec(0x4068_0600, 0x3bea_7700) == 0x3cd4_8157);
    assert(0xd4_8157 * 0x1_0000_0000_0000_0000 == 0x1_a902_ae00_0000_0000 * 0x80_0000 + 0x0);
    lemma_quotient_known(0x3cd4_8157, 0x3d00_0000, 0xd4_8157, 120, 0x80_0000, 121, 0x1_a902_ae00_0000_0000, 0x0, 66, 0x2_0000_0000_0000_0000, 0x400_0000_0000);
    assert(div_spec(0x3cd4_8157, 0x3d00_0000) == 0x3f54_8157);
    assert(0xf7_2b7e * 0x100 + 0xd4_8157 * 0x1 == 0xf7ff_ff57);
    lemma_sum_known(0x4377_2b7e, 0x3f54_8157, false, 0xf7_2b7e, 133, 0xd4_8157, 125, 0x100, 0x1, 0xf7ff_ff57, 32, 0x8000_0000, 0x100);
    assert(add_spec(0x4377_2b7e, 0x3f54_8157) == 0x4377_ffff);
    lemma_whole_known(0x4377_ffff, 0xf7_ffff, 133, 0x1_0000);
}

/// The value 0x3f6f_337c.
proof fn lemma_at_3f6f337c()
    ensures
        chord_code(0x3f6f_337c, 0x3f6d_5e8d, 0x3f75_5e8d, 0x4377_2b7e, 0x437a_cb96) == 248,
{
    reveal(chord_code);
    lemma2_to64();
    lemma2_to64_rest();
    lemma_high_powers();
    assert(0xf5_5e8d * 0x1 - 0xed_5e8d * 0x1 == 0x8_0000);
    lemma_sum_known(0x3f75_5e8d, 0x3f6d_5e8d, true, 0xf5_5e8d, 125, 0xed_5e8d, 125, 0x1, 0x1, 0x8_0000, 20, 0x8_0000, 0x10);
    assert(sub_spec(0x3f75_5e8d, 0x3f6d_5e8d) == 0x3d00_0000);
    assert(0xef_337c * 0x1 - 0xed_5e8d * 0x1 == 0x1_d4ef);
    lemma_sum_known(0x3f6f_337c, 0x3f6d_5e8d, true, 0xef_337c, 125, 0xed_5e8d, 125, 0x1, 0x1, 0x1_d4ef, 17, 0x1_0000, 0x80);
    assert(sub_spec(0x3f6f_337c, 0x3f6d_5e8d) == 0x3bea_7780);
    assert(0xfa_cb96 * 0x1 - 0xf7_2b7e * 0x1 == 0x3_a018);
    lemma_sum_known(0x437a_cb96, 0x4377_2b7e, true, 0xfa_cb96, 133, 0xf7_2b7e, 133, 0x1, 0x1, 0x3_a018, 18, 0x2_0000, 0x40);
    assert(sub_spec(0x437a_cb96, 0x4377_2b7e) == 0x4068_0600);
    assert(0xe8_0600 * 0xea_7780 == 0xd481_cacd_0000);
    lemma_product_known(0x4068_0600, 0x3bea_7780, 0xe8_0600, 127, 0xea_7780, 118, 0xd481_cacd_0000, 48, 0x8000_0000_0000, 0x100_0000);
    assert(mul_spec(0x4068_0600, 0x3bea_7780) == 0x3cd4_81cb);
    assert(0xd4_81cb * 0x1_0000_0000_0000_0000 == 0x1_a903_9600_0000_0000 * 0x80_0000 + 0x0);
    lemma_quotient_known(0x3cd4_81cb, 0x3d00_0000, 0xd4_81cb, 120, 0x80_0000, 121, 0x1_a903_9600_0000_0000, 0x0, 66, 0x2_0000_0000_0000_0000, 0x400_0000_0000);
    assert(div_spec(0x3cd4_81cb, 0x3d00_0000) == 0x3f54_81cb);
    assert(0xf7_2b7e * 0x100 + 0xd4_81cb * 0x1 == 0xf7ff_ffcb);
    lemma_sum_known(0x4377_2b7e, 0x3f54_81cb, false, 0xf7_2b7e, 133, 0xd4_81cb, 125, 0x100, 0x1, 0xf7ff_ffcb, 32, 0x8000_0000, 0x100);
    assert(add_spec(0x4377_2b7e, 0x3f54_81cb) == 0x4378_0000);
    lemma_whole_known(0x4378_0000, 0xf8_0000, 133, 0x1_0000);
}

/// The edge of code 247.
proof fn lemma_near_247()
    ensures
        near_exact_edge(0x3f6f_337b, 247),
{
    lemma2_to64();
    lemma2_to64_rest();
    lemma_fifth_powers_of_two();
    lemma_more_fifth_powers_of_two();
    assert(261525nat * 261525 * 261525 == 0x3f_8c36_1a88_f8ad);
    assert(269025nat * 269025 * 269025 == 0x45_2c59_9066_9ca1);
    assert(0x3f_8c36_1a88_f8adnat * 0x3f_8c36_1a88_f8ad == 0xfc6_4f6c_47df_69ac_3cc8_4d5f_a4e9nat);
    assert(0xfc6_4f6c_47df_69ac_3cc8_4d5f_a4e9nat * 0xfc6_4f6c_47df_69ac_3cc8_4d5f_a4e9nat == 0xf8_d6ed_a48f_5e22_4174_a556_9d70_7486_d7c1_7ab8_8d39_90ff_f929_5c11nat);
    assert(0x45_2c59_9066_9ca1nat * 0x45_2c59_9066_9ca1 == 0x12b0_eff6_c049_6d6d_d948_5020_9d41nat);
    assert(0x12b0_eff6_c049_6d6d_d948_5020_9d41nat * 0x12b0_eff6_c049_6d6d_d948_5020_9d41nat == 0x15d_5c09_8741_6139_2178_92b9_bce5_5f46_89a2_dd05_b95f_0d00_50d8_ca81nat);
    assert(0x4ab_f067nat * 0x4ab_f067 == 0x15_d2fe_435b_4971);
    assert(0x15_d2fe_435b_4971nat * 0x15_d2fe_435b_4971 == 0x1dc_4b9d_3005_8be6_093a_7167_a3e1nat);
    assert(0x1dc_4b9d_3005_8be6_093a_7167_a3e1nat * 0x4ab_f067 == 0x8_b114_3d44_f327_9030_0603_df9e_c5a0_df87nat);
    assert(0x4ac_1267nat * 0x4ac_1267 == 0x15_d43b_f3ba_a571);
    assert(0x15_d43b_f3ba_a571nat * 0x15_d43b_f3ba_a571 == 0x1dc_81c9_5656_86a1_483f_591e_dbe1nat);
    assert(0x1dc_81c9_5656_86a1_483f_591e_dbe1nat * 0x4ac_1267 == 0x8_b250_9977_bc50_cbc5_09ec_e1ec_460c_4987nat);
    assert(0x8_b114_3d44_f327_9030_0603_df9e_c5a0_df87nat * 0x15d_5c09_8741_6139_2178_92b9_bce5_5f46_89a2_dd05_b95f_0d00_50d8_ca81nat == 0xbdc_888d_9e54_5b3a_7c0d_7e61_0ed2_64a3_e912_8a81_0ff7_7706_a530_9b2e_6f41_1470_c3bd_6700_0f92_d789_5059_2907nat);
    assert(0x8_b250_9977_bc50_cbc5_09ec_e1ec_460c_4987nat * 0x15d_5c09_8741_6139_2178_92b9_bce5_5f46_89a2_dd05_b95f_0d00_50d8_ca81nat == 0xbde_3849_0c79_3bee_f093_6cfc_4800_a195_aec4_adce_bfa4_4353_dd64_4438_324c_5093_83c5_687a_d7b6_13ad_381d_9307nat);
    assert(0xc35nat * 0x100_0000_0000_0000_0000_0000_0000_0000nat == 0xc_3500_0000_0000_0000_0000_0000_0000_0000nat);
    assert(0xf8_d6ed_a48f_5e22_4174_a556_9d70_7486_d7c1_7ab8_8d39_90ff_f929_5c11nat * 0xc_3500_0000_0000_0000_0000_0000_0000_0000nat == 0xbdd_97a2_e9ca_1818_2904_e64a_4fdd_be72_07bc_cf0e_d3ef_b704_ac85_e0db_8500_0000_0000_0000_0000_0000_0000_0000nat);
    lemma_near_above(
        0x3f6f_337b, 0xef_337b, 125, 0x100, 0xc_3500_0000_0000_0000_0000_0000_0000_0000nat, 247,
        261525, 0x3f_8c36_1a88_f8ad,
        0xfc6_4f6c_47df_69ac_3cc8_4d5f_a4e9nat,
        0x45_2c59_9066_9ca1, 0x12b0_eff6_c049_6d6d_d948_5020_9d41nat,
        0x4ab_f067, 0x15_d2fe_435b_4971, 0x1dc_4b9d_3005_8be6_093a_7167_a3e1nat,
        0x4ac_1267, 0x15_d43b_f3ba_a571, 0x1dc_81c9_5656_86a1_483f_591e_dbe1nat,
    );
}

/// The value 0x3f71_6863.
proof fn lemma_at_3f716863()
    ensures
        chord_code(0x3f71_6863, 0x3f6d_5e8d, 0x3f75_5e8d, 0x4377_2b7e, 0x437a_cb96) == 248,
{
    reveal(chord_code);
    lemma2_to64();
    lemma2_to64_rest();
    lemma_high_powers();
    assert(0xf5_5e8d * 0x1 - 0xed_5e8d * 0x1 == 0x8_0000);
    lemma_sum_known(0x3f75_5e8d, 0x3f6d_5e8d, true, 0xf5_5e8d, 125, 0xed_5e8d, 125, 0x1, 0x1, 0x8_0000, 20, 0x8_0000, 0x10);
    assert(sub_spec(0x3f75_5e8d, 0x3f6d_5e8d) == 0x3d00_0000);
    assert(0xf1_6863 * 0x1 - 0xed_5e8d * 0x1 == 0x4_09d6);
    lemma_sum_known(0x3f71_6863, 0x3f6d_5e8d, true, 0xf1_6863, 125, 0xed_5e8d, 125, 0x1, 0x1, 0x4_09d6, 19, 0x4_0000, 0x20);
    assert(sub_spec(0x3f71_6863, 0x3f6d_5e8d) == 0x3c81_3ac0);
    assert(0xfa_cb96 * 0x1 - 0xf7_2b7e * 0x1 == 0x3_a018);
    lemma_sum_known(0x437a_cb96, 0x4377_2b7e, true, 0xfa_cb96, 133, 0xf7_2b7e, 133, 0x1, 0x1, 0x3_a018, 18, 0x2_0000, 0x40);
    assert(sub_spec(0x437a_cb96, 0x4377_2b7e) == 0x4068_0600);
    assert(0xe8_0600 * 0x81_3ac0 == 0x7520_4560_8000);
    lemma_product_known(0x4068_0600, 0x3c81_3ac0, 0xe8_0600, 127, 0x81_3ac0, 120, 0x7520_4560_8000, 47, 0x4000_0000_0000, 0x80_0000);
    assert(mul_spec(0x4068_0600, 0x3c81_3ac0) == 0x3d6a_408b);
    assert(0xea_408b * 0x1_0000_0000_0000_0000 == 0x1_d481_1600_0000_0000 * 0x80_0000 + 0x0);
    lemma_quotient_known(0x3d6a_408b, 0x3d00_0000, 0xea_408b, 121, 0x80_0000, 121, 0x1_d481_1600_0000_0000, 0x0, 66, 0x2_0000_0000_0000_0000, 0x400_0000_0000);
    assert(div_spec(0x3d6a_408b, 0x3d00_0000) == 0x3fea_408b);
    assert(0xf7_2b7e * 0x80 + 0xea_408b * 0x1 == 0x7c7f_ff8b);
    lemma_sum_known(0x4377_2b7e, 0x3fea_408b, false, 0xf7_2b7e, 133, 0xea_408b, 126, 0x80, 0x1, 0x7c7f_ff8b, 31, 0x4000_0000, 0x80);
    assert(add_spec(0x4377_2b7e, 0x3fea_408b) == 0x4378_ffff);
    lemma_whole_known(0x4378_ffff, 0xf8_ffff, 133, 0x1_0000);
}

/// The value 0x3f71_6864.
proof fn lemma_at_3f716864()
    ensures
        chord_code(0x3f71_6864, 0x3f6d_5e8d, 0x3f75_5e8d, 0x4377_2b7e, 0x437a_cb96) == 249,
{
    reveal(chord_code);
    lemma2_to64();
    lemma2_to64_rest();
    lemma_high_powers();
    assert(0xf5_5e8d * 0x1 - 0xed_5e8d * 0x1 == 0x8_0000);
    lemma_sum_known(0x3f75_5e8d, 0x3f6d_5e8d, true, 0xf5_5e8d, 125, 0xed_5e8d, 125, 0x1, 0x1, 0x8_0000, 20, 0x8_0000, 0x10);
    assert(sub_spec(0x3f75_5e8d, 0x3f6d_5e8d) == 0x3d00_0000);
    assert(0xf1_6864 * 0x1 - 0xed_5e8d * 0x1 == 0x4_09d7);
    lemma_sum_known(0x3f71_6864, 0x3f6d_5e8d, true, 0xf1_6864, 125, 0xed_5e8d, 125, 0x1, 0x1, 0x4_09d7, 19, 0x4_0000, 0x20);
    assert(sub_spec(0x3f71_6864, 0x3f6d_5e8d) == 0x3c81_3ae0);
    assert(0xfa_cb96 * 0x1 - 0xf7_2b7e * 0x1 == 0x3_a018);
    lemma_sum_known(0x437a_cb96, 0x4377_2b7e, true, 0xfa_cb96, 133, 0xf7_2b7e, 133, 0x1, 0x1, 0x3_a018, 18, 0x2_0000, 0x40);
    assert(sub_spec(0x437a_cb96, 0x4377_2b7e) == 0x4068_0600);
    assert(0xe8_0600 * 0x81_3ae0 == 0x7520_6261_4000);
    lemma_product_known(0x4068_0600, 0x3c81_3ae0, 0xe8_0600, 127, 0x81_3ae0, 120, 0x7520_6261_4000, 47, 0x4000_0000_0000, 0x80_0000);
    assert(mul_spec(0x4068_0600, 0x3c81_3ae0) == 0x3d6a_40c5);
    assert(0xea_40c5 * 0x1_0000_0000_0000_0000 == 0x1_d481_8a00_0000_0000 * 0x80_0000 + 0x0);
    lemma_quotient_known(0x3d6a_40c5, 0x3d00_0000, 0xea_40c5, 121, 0x80_0000, 121, 0x1_d481_8a00_0000_0000, 0x0, 66, 0x2_0000_0000_0000_0000, 0x400_0000_0000);
    assert(div_spec(0x3d6a_40c5, 0x3d00_0000) == 0x3fea_40c5);
    assert(0xf7_2b7e * 0x80 + 0xea_40c5 * 0x1 == 0x7c7f_ffc5);
    lemma_sum_known(0x4377_2b7e, 0x3fea_40c5, false, 0xf7_2b7e, 133, 0xea_40c5, 126, 0x80, 0x1, 0x7c7f_ffc5, 31, 0x4000_0000, 0x80);
    assert(add_spec(0x4377_2b7e, 0x3fea_40c5) == 0x4379_0000);
    lemma_whole_known(0x4379_0000, 0xf9_0000, 133, 0x1_0000);
}

/// The edge of code 248.
proof fn lemma_near_248()
    ensures
        near_exact_edge(0x3f71_6863, 248),
{
    lemma2_to64();
    lemma2_to64_rest();
    lemma_fifth_powers_of_two();
    lemma_more_fifth_powers_of_two();
    assert(262525nat * 262525 * 262525 == 0x40_478a_97b7_e865);
    assert(269025nat * 269025 * 269025 == 0x45_2c59_9066_9ca1);
    assert(0x40_478a_97b7_e865nat * 0x40_478a_97b7_e865 == 0x1023_d94a_0724_2199_0b29_395d_37d9nat);
    assert(0x1023_d94a_0724_2199_0b29_395d_37d9nat * 0x1023_d94a_0724_2199_0b29_395d_37d9nat == 0x104_802e_6391_0d97_b34a_14c7_839d_cd02_5f46_be6c_22e5_2e52_41d8_f5f1nat);
    assert(0x45_2c59_9066_9ca1nat * 0x45_2c59_9066_9ca1 == 0x12b0_eff6_c049_6d6d_d948_5020_9d41nat);
    assert(0x12b0_eff6_c049_6d6d_d948_5020_9d41nat * 0x12b0_eff6_c049_6d6d_d948_5020_9d41nat == 0x15d_5c09_8741_6139_2178_92b9_bce5_5f46_89a2_dd05_b95f_0d00_50d8_ca81nat);
    assert(0x4b6_f8efnat * 0x4b6_f8ef == 0x16_3a8e_5de3_ef21);
    assert(0x16_3a8e_5de3_ef21nat * 0x16_3a8e_5de3_ef21 == 0x1ee_1ddc_f4e4_ad53_a34b_ede4_a241nat);
    assert(0x1ee_1ddc_f4e4_ad53_a34b_ede4_a241nat * 0x4b6_f8ef == 0x9_19a1_2925_9bce_b16a_1ef9_b56c_f3d8_72afnat);
    assert(0x4b7_1aefnat * 0x4b7_1aef == 0x16_3bce_fc87_6b21);
    assert(0x16_3bce_fc87_6b21nat * 0x16_3bce_fc87_6b21 == 0x1ee_558c_7708_3818_81a7_21a2_9a41nat);
    assert(0x1ee_558c_7708_3818_81a7_21a2_9a41nat * 0x4b7_1aef == 0x9_1ae9_5b77_59fa_71ea_270b_9a18_32ef_9cafnat);
    assert(0x9_19a1_2925_9bce_b16a_1ef9_b56c_f3d8_72afnat * 0x15d_5c09_8741_6139_2178_92b9_bce5_5f46_89a2_dd05_b95f_0d00_50d8_ca81nat == 0xc6b_3641_b890_5274_dd79_93cd_76a7_c02d_302f_caa6_eb4a_30f7_7547_65fa_f719_d7e9_0c33_0f4d_c8e1_a9c7_1e37_e02fnat);
    assert(0x9_1ae9_5b77_59fa_71ea_270b_9a18_32ef_9cafnat * 0x15d_5c09_8741_6139_2178_92b9_bce5_5f46_89a2_dd05_b95f_0d00_50d8_ca81nat == 0xc6c_f624_504d_1fac_3b15_cd8a_7603_2202_3cd0_4fdb_1b3d_7a9a_5656_3a9b_2182_5c79_2827_27e5_2fab_7c85_a008_0a2fnat);
    assert(0xc35nat * 0x100_0000_0000_0000_0000_0000_0000_0000nat == 0xc_3500_0000_0000_0000_0000_0000_0000_0000nat);
    assert(0x104_802e_6391_0d97_b34a_14c7_839d_cd02_5f46_be6c_22e5_2e52_41d8_f5f1nat * 0xc_3500_0000_0000_0000_0000_0000_0000_0000nat == 0xc6b_f0b6_4569_aaec_cf97_4fa7_79a5_478d_f50a_927e_05f7_9e72_1dcd_7236_e500_0000_0000_0000_0000_0000_0000_0000nat);
    lemma_near_above(
        0x3f71_6863, 0xf1_6863, 125, 0x100, 0xc_3500_0000_0000_0000_0000_0000_0000_0000nat, 248,
        262525, 0x40_478a_97b7_e865,
        0x1023_d94a_0724_2199_0b29_395d_37d9nat,
        0x45_2c59_9066_9ca1, 0x12b0_eff6_c049_6d6d_d948_5020_9d41nat,
        0x4b6_f8ef, 0x16_3a8e_5de3_ef21, 0x1ee_1ddc_f4e4_ad53_a34b_ede4_a241nat,
        0x4b7_1aef, 0x16_3bce_fc87_6b21, 0x1ee_558c_7708_3818_81a7_21a2_9a41nat,
    );
}

/// The value 0x3f73_9d4c.
proof fn lemma_at_3f739d4c()
    ensures
        chord_code(0x3f73_9d4c, 0x3f6d_5e8d, 0x3f75_5e8d, 0x4377_2b7e, 0x437a_cb96) == 249,
{
    reveal(chord_code);
    lemma2_to64();
    lemma2_to64_rest();
    lemma_high_powers();
    assert(0xf5_5e8d * 0x1 - 0xed_5e8d * 0x1 == 0x8_0000);
    lemma_sum_known(0x3f75_5e8d, 0x3f6d_5e8d, true, 0xf5_5e8d, 125, 0xed_5e8d, 125, 0x1, 0x1, 0x8_0000, 20, 0x8_0000, 0x10);
    assert(sub_spec(0x3f75_5e8d, 0x3f6d_5e8d) == 0x3d00_0000);
    assert(0xf3_9d4c * 0x1 - 0xed_5e8d * 0x1 == 0x6_3ebf);
    lemma_sum_known(0x3f73_9d4c, 0x3f6d_5e8d, true, 0xf3_9d4c, 125, 0xed_5e8d, 125, 0x1, 0x1, 0x6_3ebf, 19, 0x4_0000, 0x20);
    assert(sub_spec(0x3f73_9d4c, 0x3f6d_5e8d) == 0x3cc7_d7e0);
    assert(0xfa_cb96 * 0x1 - 0xf7_2b7e * 0x1 == 0x3_a018);
    lemma_sum_known(0x437a_cb96, 0x4377_2b7e, true, 0xfa_cb96, 133, 0xf7_2b7e, 133, 0x1, 0x1, 0x3_a018, 18, 0x2_0000, 0x40);
    assert(sub_spec(0x437a_cb96, 0x4377_2b7e) == 0x4068_0600);
    assert(0xe8_0600 * 0xc7_d7e0 == 0xb520_520f_4000);
    lemma_product_known(0x4068_0600, 0x3cc7_d7e0, 0xe8_0600, 127, 0xc7_d7e0, 120, 0xb520_520f_4000, 48, 0x8000_0000_0000, 0x100_0000);
    assert(mul_spec(0x4068_0600, 0x3cc7_d7e0) == 0x3db5_2052);
    assert(0xb5_2052 * 0x1_0000_0000_0000_0000 == 0x1_6a40_a400_0000_0000 * 0x80_0000 + 0x0);
    lemma_quotient_known(0x3db5_2052, 0x3d00_0000, 0xb5_2052, 122, 0x80_0000, 121, 0x1_6a40_a400_0000_0000, 0x0, 66, 0x2_0000_0000_0000_0000, 0x400_0000_0000);
    assert(div_spec(0x3db5_2052, 0x3d00_0000) == 0x4035_2052);
    assert(0xf7_2b7e * 0x40 + 0xb5_2052 * 0x1 == 0x3e7f_ffd2);
    lemma_sum_known(0x4377_2b7e, 0x4035_2052, false, 0xf7_2b7e, 133, 0xb5_2052, 127, 0x40, 0x1, 0x3e7f_ffd2, 30, 0x2000_0000, 0x40);
    assert(add_spec(0x4377_2b7e, 0x4035_2052) == 0x4379_ffff);
    lemma_whole_known(0x4379_ffff, 0xf9_ffff, 133, 0x1_0000);
}

/// The value 0x3f73_9d4d.
proof fn lemma_at_3f739d4d()
    ensures
        chord_code(0x3f73_9d4d, 0x3f6d_5e8d, 0x3f75_5e8d, 0x4377_2b7e, 0x437a_cb96) == 250,
{
    reveal(chord_code);
    lemma2_to64();
    lemma2_to64_rest();
    lemma_high_powers();
    assert(0xf5_5e8d * 0x1 - 0xed_5e8d * 0x1 == 0x8_0000);
    lemma_sum_known(0x3f75_5e8d, 0x3f6d_5e8d, true, 0xf5_5e8d, 125, 0xed_5e8d, 125, 0x1, 0x1, 0x8_0000, 20, 0x8_0000, 0x10);
    assert(sub_spec(0x3f75_5e8d, 0x3f6d_5e8d) == 0x3d00_0000);
    assert(0xf3_9d4d * 0x1 - 0xed_5e8d * 0x1 == 0x6_3ec0);
    lemma_sum_known(0x3f73_9d4d, 0x3f6d_5e8d, true, 0xf3_9d4d, 125, 0xed_5e8d, 125, 0x1, 0x1, 0x6_3ec0, 19, 0x4_0000, 0x20);
    assert(sub_spec(0x3f73_9d4d, 0x3f6d_5e8d) == 0x3cc7_d800);
    assert(0xfa_cb96 * 0x1 - 0xf7_2b7e * 0x1 == 0x3_a018);
    lemma_sum_known(0x437a_cb96, 0x4377_2b7e, true, 0xfa_cb96, 133, 0xf7_2b7e, 133, 0x1, 0x1, 0x3_a018, 18, 0x2_0000, 0x40);
    assert(sub_spec(0x437a_cb96, 0x4377_2b7e) == 0x4068_0600);
    assert(0xe8_0600 * 0xc7_d800 == 0xb520_6f10_0000);
    lemma_product_known(0x4068_0600, 0x3cc7_d800, 0xe8_0600, 127, 0xc7_d800, 120, 0xb520_6f10_0000, 48, 0x8000_0000_0000, 0x100_0000);
    assert(mul_spec(0x4068_0600, 0x3cc7_d800) == 0x3db5_206f);
    assert(0xb5_206f * 0x1_0000_0000_0000_0000 == 0x1_6a40_de00_0000_0000 * 0x80_0000 + 0x0);
    lemma_quotient_known(0x3db5_206f, 0x3d00_0000, 0xb5_206f, 122, 0x80_0000, 121, 0x1_6a40_de00_0000_0000, 0x0, 66, 0x2_0000_0000_0000_0000, 0x400_0000_0000);
    assert(div_spec(0x3db5_206f, 0x3d00_0000) == 0x4035_206f);
    assert(0xf7_2b7e * 0x40 + 0xb5_206f * 0x1 == 0x3e7f_ffef);
    lemma_sum_known(0x4377_2b7e, 0x4035_206f, false, 0xf7_2b7e, 133, 0xb5_206f, 127, 0x40, 0x1, 0x3e7f_ffef, 30, 0x2000_0000, 0x40);
    assert(add_spec(0x4377_2b7e, 0x4035_206f) == 0x437a_0000);
    lemma_whole_known(0x437a_0000, 0xfa_0000, 133, 0x1_0000);
}

/// The edge of code 249.
proof fn lemma_near_249()
    ensures
        near_exact_edge(0x3f73_9d4c, 249),
{
    lemma2_to64();
    lemma2_to64_rest();
    lemma_fifth_powers_of_two();
    lemma_more_fifth_powers_of_two();
    assert(263525nat * 263525 * 263525 == 0x41_044d_d328_6f9d);
    assert(269025nat * 269025 * 269025 == 0x45_2c59_9066_9ca1);
    assert(0x41_044d_d328_6f9dnat * 0x41_044d_d328_6f9d == 0x1083_2f97_c0ca_a5b5_bad1_dfb9_8649nat);
    assert(0x1083_2f97_c0ca_a5b5_bad1_dfb9_8649nat * 0x1083_2f97_c0ca_a5b5_bad1_dfb9_8649nat == 0x110_a92c_b641_b6db_b870_3eb8_22ae_0180_d1d4_93ce_a4ce_1598_89f2_80d1nat);
    assert(0x45_2c59_9066_9ca1nat * 0x45_2c59_9066_9ca1 == 0x12b0_eff6_c049_6d6d_d948_5020_9d41nat);
    assert(0x12b0_eff6_c049_6d6d_d948_5020_9d41nat * 0x12b0_eff6_c049_6d6d_d948_5020_9d41nat == 0x15d_5c09_8741_6139_2178_92b9_bce5_5f46_89a2_dd05_b95f_0d00_50d8_ca81nat);
    assert(0x4c2_017cnat * 0x4c2_017c == 0x16_a312_1ff2_3410);
    assert(0x16_a312_1ff2_3410nat * 0x16_a312_1ff2_3410 == 0x200_6efd_9397_e318_4002_58d6_8100nat);
    assert(0x200_6efd_9397_e318_4002_58d6_8100nat * 0x4c2_017c == 0x9_8613_0b1c_f90d_8ed5_a329_b00d_a067_7c00nat);
    assert(0x4c2_237cnat * 0x4c2_237c == 0x16_a455_acdb_2410);
    assert(0x16_a455_acdb_2410nat * 0x16_a455_acdb_2410 == 0x200_a837_97cf_3731_a6ac_3874_8100nat);
    assert(0x200_a837_97cf_3731_a6ac_3874_8100nat * 0x4c2_237c == 0x9_8767_67d1_5c93_7725_853a_e171_0811_7c00nat);
    assert(0x9_8613_0b1c_f90d_8ed5_a329_b00d_a067_7c00nat * 0x15d_5c09_8741_6139_2178_92b9_bce5_5f46_89a2_dd05_b95f_0d00_50d8_ca81nat == 0xcff_347f_bd4c_08a0_c3f7_d54b_f784_6f56_28a0_ba79_a945_20de_f58f_5e8a_28a8_5ac2_b5c3_aabf_2fd8_2580_1bfd_7c00nat);
    assert(0x9_8767_67d1_5c93_7725_853a_e171_0811_7c00nat * 0x15d_5c09_8741_6139_2178_92b9_bce5_5f46_89a2_dd05_b95f_0d00_50d8_ca81nat == 0xd01_04fc_7d33_a01a_056f_476d_37ed_9b92_4388_a1ec_bc06_abc4_8d2d_721e_dd44_f455_513a_3fac_09bf_0fd3_7ca7_7c00nat);
    assert(0xc35nat * 0x100_0000_0000_0000_0000_0000_0000_0000nat == 0xc_3500_0000_0000_0000_0000_0000_0000_0000nat);
    assert(0x110_a92c_b641_b6db_b870_3eb8_22ae_0180_d1d4_93ce_a4ce_1598_89f2_80d1nat * 0xc_3500_0000_0000_0000_0000_0000_0000_0000nat == 0xd00_611e_ccd0_2d28_2272_2d9d_bf56_1859_8167_f049_81c7_ad9f_0bed_3e77_4500_0000_0000_0000_0000_0000_0000_0000nat);
    lemma_near_above(
        0x3f73_9d4c, 0xf3_9d4c, 125, 0x100, 0xc_3500_0000_0000_0000_0000_0000_0000_0000nat, 249,
        263525, 0x41_044d_d328_6f9d,
        0x1083_2f97_c0ca_a5b5_bad1_dfb9_8649nat,
        0x45_2c59_9066_9ca1, 0x12b0_eff6_c049_6d6d_d948_5020_9d41nat,
        0x4c2_017c, 0x16_a312_1ff2_3410, 0x200_6efd_9397_e318_4002_58d6_8100nat,
        0x4c2_237c, 0x16_a455_acdb_2410, 0x200_a837_97cf_3731_a6ac_3874_8100nat,
    );
}

/// The value 0x3f75_d466.
proof fn lemma_at_3f75d466()
    ensures
        chord_code(0x3f75_d466, 0x3f75_5e8d, 0x3f7d_5e8d, 0x437a_cb96, 0x437e_5a67) == 250,
{
    reveal(chord_code);
    lemma2_to64();
    lemma2_to64_rest();
    lemma_high_powers();
    assert(0xfd_5e8d * 0x1 - 0xf5_5e8d * 0x1 == 0x8_0000);
    lemma_sum_known(0x3f7d_5e8d, 0x3f75_5e8d, true, 0xfd_5e8d, 125, 0xf5_5e8d, 125, 0x1, 0x1, 0x8_0000, 20, 0x8_0000, 0x10);
    assert(sub_spec(0x3f7d_5e8d, 0x3f75_5e8d) == 0x3d00_0000);
    assert(0xf5_d466 * 0x1 - 0xf5_5e8d * 0x1 == 0x75d9);
    lemma_sum_known(0x3f75_d466, 0x3f75_5e8d, true, 0xf5_d466, 125, 0xf5_5e8d, 125, 0x1, 0x1, 0x75d9, 15, 0x4000, 0x200);
    assert(sub_spec(0x3f75_d466, 0x3f75_5e8d) == 0x3aeb_b200);
    assert(0xfe_5a67 * 0x1 - 0xfa_cb96 * 0x1 == 0x3_8ed1);
    lemma_sum_known(0x437e_5a67, 0x437a_cb96, true, 0xfe_5a67, 133, 0xfa_cb96, 133, 0x1, 0x1, 0x3_8ed1, 18, 0x2_0000, 0x40);
    assert(sub_spec(0x437e_5a67, 0x437a_cb96) == 0x4063_b440);
    assert(0xe3_b440 * 0xeb_b200 == 0xd1a4_ca14_8000);
    lemma_product_known(0x4063_b440, 0x3aeb_b200, 0xe3_b440, 127, 0xeb_b200, 116, 0xd1a4_ca14_8000, 48, 0x8000_0000_0000, 0x100_0000);
    assert(mul_spec(0x4063_b440, 0x3aeb_b200) == 0x3bd1_a4ca);
    assert(0xd1_a4ca * 0x1_0000_0000_0000_0000 == 0x1_a349_9400_0000_0000 * 0x80_0000 + 0x0);
    lemma_quotient_known(0x3bd1_a4ca, 0x3d00_0000, 0xd1_a4ca, 118, 0x80_0000, 121, 0x1_a349_9400_0000_0000, 0x0, 66, 0x2_0000_0000_0000_0000, 0x400_0000_0000);
    assert(div_spec(0x3bd1_a4ca, 0x3d00_0000) == 0x3e51_a4ca);
    assert(0xfa_cb96 * 0x400 + 0xd1_a4ca * 0x1 == 0x3_ebff_fcca);
    lemma_sum_known(0x437a_cb96, 0x3e51_a4ca, false, 0xfa_cb96, 133, 0xd1_a4ca, 123, 0x400, 0x1, 0x3_ebff_fcca, 34, 0x2_0000_0000, 0x400);
    assert(add_spec(0x437a_cb96, 0x3e51_a4ca) == 0x437a_ffff);
    lemma_whole_known(0x437a_ffff, 0xfa_ffff, 133, 0x1_0000);
}

/// The value 0x3f75_d467.
proof fn lemma_at_3f75d467()
    ensures
        chord_code(0x3f75_d467, 0x3f75_5e8d, 0x3f7d_5e8d, 0x437a_cb96, 0x437e_5a67) == 251,
{
    reveal(chord_code);
    lemma2_to64();
    lemma2_to64_rest();
    lemma_high_powers();
    assert(0xfd_5e8d * 0x1 - 0xf5_5e8d * 0x1 == 0x8_0000);
    lemma_sum_known(0x3f7d_5e8d, 0x3f75_5e8d, true, 0xfd_5e8d, 125, 0xf5_5e8d, 125, 0x1, 0x1, 0x8_0000, 20, 0x8_0000, 0x10);
    assert(sub_spec(0x3f7d_5e8d, 0x3f75_5e8d) == 0x3d00_0000);
    assert(0xf5_d467 * 0x1 - 0xf5_5e8d * 0x1 == 0x75da);
    lemma_sum_known(0x3f75_d467, 0x3f75_5e8d, true, 0xf5_d467, 125, 0xf5_5e8d, 125, 0x1, 0x1, 0x75da, 15, 0x4000, 0x200);
    assert(sub_spec(0x3f75_d467, 0x3f75_5e8d) == 0x3aeb_b400);
    assert(0xfe_5a67 * 0x1 - 0xfa_cb96 * 0x1 == 0x3_8ed1);
    lemma_sum_known(0x437e_5a67, 0x437a_cb96, true, 0xfe_5a67, 133, 0xfa_cb96, 133, 0x1, 0x1, 0x3_8ed1, 18, 0x2_0000, 0x40);
    assert(sub_spec(0x437e_5a67, 0x437a_cb96) == 0x4063_b440);
    assert(0xe3_b440 * 0xeb_b400 == 0xd1a6_917d_0000);
    lemma_product_known(0x4063_b440, 0x3aeb_b400, 0xe3_b440, 127, 0xeb_b400, 116, 0xd1a6_917d_0000, 48, 0x8000_0000_0000, 0x100_0000);
    assert(mul_spec(0x4063_b440, 0x3aeb_b400) == 0x3bd1_a691);
    assert(0xd1_a691 * 0x1_0000_0000_0000_0000 == 0x1_a34d_2200_0000_0000 * 0x80_0000 + 0x0);
    lemma_quotient_known(0x3bd1_a691, 0x3d00_0000, 0xd1_a691, 118, 0x80_0000, 121, 0x1_a34d_2200_0000_0000, 0x0, 66, 0x2_0000_0000_0000_0000, 0x400_0000_0000);
    assert(div_spec(0x3bd1_a691, 0x3d00_0000) == 0x3e51_a691);
    assert(0xfa_cb96 * 0x400 + 0xd1_a691 * 0x1 == 0x3_ebff_fe91);
    lemma_sum_known(0x437a_cb96, 0x3e51_a691, false, 0xfa_cb96, 133, 0xd1_a691, 123, 0x400, 0x1, 0x3_ebff_fe91, 34, 0x2_0000_0000, 0x400);
    assert(add_spec(0x437a_cb96, 0x3e51_a691) == 0x437b_0000);
    lemma_whole_known(0x437b_0000, 0xfb_0000, 133, 0x1_0000);
}

/// The edge of code 250.
proof fn lemma_near_250()
    ensures
        near_exact_edge(0x3f75_d466, 250),
{
    lemma2_to64();
    lemma2_to64_rest();
    lemma_fifth_powers_of_two();
    lemma_more_fifth_powers_of_two();
    assert(264525nat * 264525 * 264525 == 0x41_c281_327b_4a55);
    assert(269025nat * 269025 * 269025 == 0x45_2c59_9066_9ca1);
    assert(0x41_c281_327b_4a55nat * 0x41_c281_327b_4a55 == 0x10e4_5963_b452_8608_2213_b743_4039nat);
    assert(0x10e4_5963_b452_8608_2213_b743_4039nat * 0x10e4_5963_b452_8608_2213_b743_4039nat == 0x11d_56db_cf59_fdf6_1ac8_a318_7bcc_187a_111a_6626_43cb_e3f2_2bf2_8cb1nat);
    assert(0x45_2c59_9066_9ca1nat * 0x45_2c59_9066_9ca1 == 0x12b0_eff6_c049_6d6d_d948_5020_9d41nat);
    assert(0x12b0_eff6_c049_6d6d_d948_5020_9d41nat * 0x12b0_eff6_c049_6d6d_d948_5020_9d41nat == 0x15d_5c09_8741_6139_2178_92b9_bce5_5f46_89a2_dd05_b95f_0d00_50d8_ca81nat);
    assert(0x4cd_14fenat * 0x4cd_14fe == 0x17_0cf2_9084_ac04);
    assert(0x17_0cf2_9084_ac04nat * 0x17_0cf2_9084_ac04 == 0x213_543d_9b38_e543_1dd6_57b5_6010nat);
    assert(0x213_543d_9b38_e543_1dd6_57b5_6010nat * 0x4cd_14fe == 0x9_f6f6_fd84_9565_1792_f4ef_6b43_5e46_8fe0nat);
    assert(0x4cd_36fenat * 0x4cd_36fe == 0x17_0e39_0e9c_2404);
    assert(0x17_0e39_0e9c_2404nat * 0x17_0e39_0e9c_2404 == 0x213_8f0a_ea5f_0f05_ecf4_59f1_2010nat);
    assert(0x213_8f0a_ea5f_0f05_ecf4_59f1_2010nat * 0x4cd_36fe == 0x9_f857_e6fb_649f_b6ee_b8f0_7001_06d1_2fe0nat);
    assert(0x9_f6f6_fd84_9565_1792_f4ef_6b43_5e46_8fe0nat * 0x15d_5c09_8741_6139_2178_92b9_bce5_5f46_89a2_dd05_b95f_0d00_50d8_ca81nat == 0xd99_43d7_5351_f75e_e265_cc58_8b7f_c647_20b9_1a27_e972_ba87_43dd_52f0_5235_85c1_2ffc_e72b_bf04_2dd5_9415_3fe0nat);
    assert(0x9_f857_e6fb_649f_b6ee_b8f0_7001_06d1_2fe0nat * 0x15d_5c09_8741_6139_2178_92b9_bce5_5f46_89a2_dd05_b95f_0d00_50d8_ca81nat == 0xd9b_2574_7b53_d72f_727f_429b_7e7e_ffad_6506_2351_dbb8_b4e0_a492_db48_e2a9_a0b6_1633_ca0a_0016_bf5b_e42f_dfe0nat);
    assert(0xc35nat * 0x100_0000_0000_0000_0000_0000_0000_0000nat == 0xc_3500_0000_0000_0000_0000_0000_0000_0000nat);
    assert(0x11d_56db_cf59_fdf6_1ac8_a318_7bcc_187a_111a_6626_43cb_e3f2_2bf2_8cb1nat * 0xc_3500_0000_0000_0000_0000_0000_0000_0000nat == 0xd9b_2549_3a25_891d_34f3_2ee9_df32_66ca_12c7_40f1_1997_e58b_3277_cf6c_a500_0000_0000_0000_0000_0000_0000_0000nat);
    lemma_near_above(
        0x3f75_d466, 0xf5_d466, 125, 0x100, 0xc_3500_0000_0000_0000_0000_0000_0000_0000nat, 250,
        264525, 0x41_c281_327b_4a55,
        0x10e4_5963_b452_8608_2213_b743_4039nat,
        0x45_2c59_9066_9ca1, 0x12b0_eff6_c049_6d6d_d948_5020_9d41nat,
        0x4cd_14fe, 0x17_0cf2_9084_ac04, 0x213_543d_9b38_e543_1dd6_57b5_6010nat,
        0x4cd_36fe, 0x17_0e39_0e9c_2404, 0x213_8f0a_ea5f_0f05_ecf4_59f1_2010nat,
    );
}

/// The value 0x3f78_1406.
proof fn lemma_at_3f781406()
    ensures
        chord_code(0x3f78_1406, 0x3f75_5e8d, 0x3f7d_5e8d, 0x437a_cb96, 0x437e_5a67) == 251,
{
    reveal(chord_code);
    lemma2_to64();
    lemma2_to64_rest();
    lemma_high_powers();
    assert(0xfd_5e8d * 0x1 - 0xf5_5e8d * 0x1 == 0x8_0000);
    lemma_sum_known(0x3f7d_5e8d, 0x3f75_5e8d, true, 0xfd_5e8d, 125, 0xf5_5e8d, 125, 0x1, 0x1, 0x8_0000, 20, 0x8_0000, 0x10);
    assert(sub_spec(0x3f7d_5e8d, 0x3f75_5e8d) == 0x3d00_0000);
    assert(0xf8_1406 * 0x1 - 0xf5_5e8d * 0x1 == 0x2_b579);
    lemma_sum_known(0x3f78_1406, 0x3f75_5e8d, true, 0xf8_1406, 125, 0xf5_5e8d, 125, 0x1, 0x1, 0x2_b579, 18, 0x2_0000, 0x40);
    assert(sub_spec(0x3f78_1406, 0x3f75_5e8d) == 0x3c2d_5e40);
    assert(0xfe_5a67 * 0x1 - 0xfa_cb96 * 0x1 == 0x3_8ed1);
    lemma_sum_known(0x437e_5a67, 0x437a_cb96, true, 0xfe_5a67, 133, 0xfa_cb96, 133, 0x1, 0x1, 0x3_8ed1, 18, 0x2_0000, 0x40);
    assert(sub_spec(0x437e_5a67, 0x437a_cb96) == 0x4063_b440);
    assert(0xe3_b440 * 0xad_5e40 == 0x9a34_a45c_9000);
    lemma_product_known(0x4063_b440, 0x3c2d_5e40, 0xe3_b440, 127, 0xad_5e40, 119, 0x9a34_a45c_9000, 48, 0x8000_0000_0000, 0x100_0000);
    assert(mul_spec(0x4063_b440, 0x3c2d_5e40) == 0x3d1a_34a4);
    assert(0x9a_34a4 * 0x1_0000_0000_0000_0000 == 0x1_3469_4800_0000_0000 * 0x80_0000 + 0x0);
    lemma_quotient_known(0x3d1a_34a4, 0x3d00_0000, 0x9a_34a4, 121, 0x80_0000, 121, 0x1_3469_4800_0000_0000, 0x0, 66, 0x2_0000_0000_0000_0000, 0x400_0000_0000);
    assert(div_spec(0x3d1a_34a4, 0x3d00_0000) == 0x3f9a_34a4);
    assert(0xfa_cb96 * 0x80 + 0x9a_34a4 * 0x1 == 0x7dff_ffa4);
    lemma_sum_known(0x437a_cb96, 0x3f9a_34a4, false, 0xfa_cb96, 133, 0x9a_34a4, 126, 0x80, 0x1, 0x7dff_ffa4, 31, 0x4000_0000, 0x80);
    assert(add_spec(0x437a_cb96, 0x3f9a_34a4) == 0x437b_ffff);
    lemma_whole_known(0x437b_ffff, 0xfb_ffff, 133, 0x1_0000);
}

/// The value 0x3f78_1407.
proof fn lemma_at_3f781407()
    ensures
        chord_code(0x3f78_1407, 0x3f75_5e8d, 0x3f7d_5e8d, 0x437a_cb96, 0x437e_5a67) == 252,
{
    reveal(chord_code);
    lemma2_to64();
    lemma2_to64_rest();
    lemma_high_powers();
    assert(0xfd_5e8d * 0x1 - 0xf5_5e8d * 0x1 == 0x8_0000);
    lemma_sum_known(0x3f7d_5e8d, 0x3f75_5e8d, true, 0xfd_5e8d, 125, 0xf5_5e8d, 125, 0x1, 0x1, 0x8_0000, 20, 0x8_0000, 0x10);
    assert(sub_spec(0x3f7d_5e8d, 0x3f75_5e8d) == 0x3d00_0000);
    assert(0xf8_1407 * 0x1 - 0xf5_5e8d * 0x1 == 0x2_b57a);
    lemma_sum_known(0x3f78_1407, 0x3f75_5e8d, true, 0xf8_1407, 125, 0xf5_5e8d, 125, 0x1, 0x1, 0x2_b57a, 18, 0x2_0000, 0x40);
    assert(sub_spec(0x3f78_1407, 0x3f75_5e8d) == 0x3c2d_5e80);
    assert(0xfe_5a67 * 0x1 - 0xfa_cb96 * 0x1 == 0x3_8ed1);
    lemma_sum_known(0x437e_5a67, 0x437a_cb96, true, 0xfe_5a67, 133, 0xfa_cb96, 133, 0x1, 0x1, 0x3_8ed1, 18, 0x2_0000, 0x40);
    assert(sub_spec(0x437e_5a67, 0x437a_cb96) == 0x4063_b440);
    assert(0xe3_b440 * 0xad_5e80 == 0x9a34_dd49_a000);
    lemma_product_known(0x4063_b440, 0x3c2d_5e80, 0xe3_b440, 127, 0xad_5e80, 119, 0x9a34_dd49_a000, 48, 0x8000_0000_0000, 0x100_0000);
    assert(mul_spec(0x4063_b440, 0x3c2d_5e80) == 0x3d1a_34dd);
    assert(0x9a_34dd * 0x1_0000_0000_0000_0000 == 0x1_3469_ba00_0000_0000 * 0x80_0000 + 0x0);
    lemma_quotient_known(0x3d1a_34dd, 0x3d00_0000, 0x9a_34dd, 121, 0x80_0000, 121, 0x1_3469_ba00_0000_0000, 0x0, 66, 0x2_0000_0000_0000_0000, 0x400_0000_0000);
    assert(div_spec(0x3d1a_34dd, 0x3d00_0000) == 0x3f9a_34dd);
    assert(0xfa_cb96 * 0x80 + 0x9a_34dd * 0x1 == 0x7dff_ffdd);
    lemma_sum_known(0x437a_cb96, 0x3f9a_34dd, false, 0xfa_cb96, 133, 0x9a_34dd, 126, 0x80, 0x1, 0x7dff_ffdd, 31, 0x4000_0000, 0x80);
    assert(add_spec(0x437a_cb96, 0x3f9a_34dd) == 0x437c_0000);
    lemma_whole_known(0x437c_0000, 0xfc_0000, 133, 0x1_0000);
}

/// The edge of code 251.
proof fn lemma_near_251()
    ensures
        near_exact_edge(0x3f78_1406, 251),
{
    lemma2_to64();
    lemma2_to64_rest();
    lemma_fifth_powers_of_two();
    lemma_more_fifth_powers_of_two();
    assert(265525nat * 265525 * 265525 == 0x42_8226_1b51_348d);
    assert(269025nat * 269025 * 269025 == 0x45_2c59_9066_9ca1);
    assert(0x42_8226_1b51_348dnat * 0x42_8226_1b51_348d == 0x1147_5dd0_cf49_b119_08b4_0a03_95a9nat);
    assert(0x1147_5dd0_cf49_b119_08b4_0a03_95a9nat * 0x1147_5dd0_cf49_b119_08b4_0a03_95a9nat == 0x12a_8e5a_e7bc_2552_994e_f7cf_f292_15a9_2801_5147_3bcb_4d66_0d74_2991nat);
    assert(0x45_2c59_9066_9ca1nat * 0x45_2c59_9066_9ca1 == 0x12b0_eff6_c049_6d6d_d948_5020_9d41nat);
    assert(0x12b0_eff6_c049_6d6d_d948_5020_9d41nat * 0x12b0_eff6_c049_6d6d_d948_5020_9d41nat == 0x15d_5c09_8741_6139_2178_92b9_bce5_5f46_89a2_dd05_b95f_0d00_50d8_ca81nat);
    assert(0x4d8_531enat * 0x4d8_531e == 0x17_7965_4d9c_7784);
    assert(0x17_7965_4d9c_7784nat * 0x17_7965_4d9c_7784 == 0x227_09c4_dd91_b7b0_95af_48ab_fc10nat);
    assert(0x227_09c4_dd91_b7b0_95af_48ab_fc10nat * 0x4d8_531e == 0xa_6dca_3a4f_32b9_f4f6_d041_6027_3460_b9e0nat);
    assert(0x4d8_751enat * 0x4d8_751e == 0x17_7aae_c834_6f84);
    assert(0x17_7aae_c834_6f84nat * 0x17_7aae_c834_6f84 == 0x227_4633_0792_c7db_606b_be33_bc10nat);
    assert(0x227_4633_0792_c7db_606b_be33_bc10nat * 0x4d8_751e == 0xa_6f38_3adc_3b69_0725_b8a7_d524_dc83_59e0nat);
    assert(0xa_6dca_3a4f_32b9_f4f6_d041_6027_3460_b9e0nat * 0x15d_5c09_8741_6139_2178_92b9_bce5_5f46_89a2_dd05_b95f_0d00_50d8_ca81nat == 0xe3b_6c89_8998_258c_9217_aa62_eb0a_f27a_9430_6a1c_5b49_8a1f_15e3_bcd5_df0a_6d9f_77b5_ab28_abd3_2ec8_8c68_69e0nat);
    assert(0xa_6f38_3adc_3b69_0725_b8a7_d524_dc83_59e0nat * 0x15d_5c09_8741_6139_2178_92b9_bce5_5f46_89a2_dd05_b95f_0d00_50d8_ca81nat == 0xe3d_6003_dfaf_1010_1801_ee6b_3beb_d3da_1089_c9e5_53c3_21de_763b_8bb7_2e3a_a1f2_55db_5f31_bc74_f87c_981b_09e0nat);
    assert(0xc35nat * 0x100_0000_0000_0000_0000_0000_0000_0000nat == 0xc_3500_0000_0000_0000_0000_0000_0000_0000nat);
    assert(0x12a_8e5a_e7bc_2552_994e_f7cf_f292_15a9_2801_5147_3bcb_4d66_0d74_2991nat * 0xc_3500_0000_0000_0000_0000_0000_0000_0000nat == 0xe3c_7bbb_aecb_b399_4970_f70d_6c11_4269_e558_152a_8ce8_b7ce_c23a_ff67_0500_0000_0000_0000_0000_0000_0000_0000nat);
    lemma_near_above(
        0x3f78_1406, 0xf8_1406, 125, 0x100, 0xc_3500_0000_0000_0000_0000_0000_0000_0000nat, 251,
        265525, 0x42_8226_1b51_348d,
        0x1147_5dd0_cf49_b119_08b4_0a03_95a9nat,
        0x45_2c59_9066_9ca1, 0x12b0_eff6_c049_6d6d_d948_5020_9d41nat,
        0x4d8_531e, 0x17_7965_4d9c_7784, 0x227_09c4_dd91_b7b0_95af_48ab_fc10nat,
        0x4d8_751e, 0x17_7aae_c834_6f84, 0x227_4633_0792_c7db_606b_be33_bc10nat,
    );
}

/// The value 0x3f7a_53a6.
proof fn lemma_at_3f7a53a6()
    ensures
        chord_code(0x3f7a_53a6, 0x3f75_5e8d, 0x3f7d_5e8d, 0x437a_cb96, 0x437e_5a67) == 252,
{
    reveal(chord_code);
    lemma2_to64();
    lemma2_to64_rest();
    lemma_high_powers();
    assert(0xfd_5e8d * 0x1 - 0xf5_5e8d * 0x1 == 0x8_0000);
    lemma_sum_known(0x3f7d_5e8d, 0x3f75_5e8d, true, 0xfd_5e8d, 125, 0xf5_5e8d, 125, 0x1, 0x1, 0x8_0000, 20, 0x8_0000, 0x10);
    assert(sub_spec(0x3f7d_5e8d, 0x3f75_5e8d) == 0x3d00_0000);
    assert(0xfa_53a6 * 0x1 - 0xf5_5e8d * 0x1 == 0x4_f519);
    lemma_sum_known(0x3f7a_53a6, 0x3f75_5e8d, true, 0xfa_53a6, 125, 0xf5_5e8d, 125, 0x1, 0x1, 0x4_f519, 19, 0x4_0000, 0x20);
    assert(sub_spec(0x3f7a_53a6, 0x3f75_5e8d) == 0x3c9e_a320);
    assert(0xfe_5a67 * 0x1 - 0xfa_cb96 * 0x1 == 0x3_8ed1);
    lemma_sum_known(0x437e_5a67, 0x437a_cb96, true, 0xfe_5a67, 133, 0xfa_cb96, 133, 0x1, 0x1, 0x3_8ed1, 18, 0x2_0000, 0x40);
    assert(sub_spec(0x437e_5a67, 0x437a_cb96) == 0x4063_b440);
    assert(0xe3_b440 * 0x9e_a320 == 0x8d1a_57bb_4800);
    lemma_product_known(0x4063_b440, 0x3c9e_a320, 0xe3_b440, 127, 0x9e_a320, 120, 0x8d1a_57bb_4800, 48, 0x8000_0000_0000, 0x100_0000);
    assert(mul_spec(0x4063_b440, 0x3c9e_a320) == 0x3d8d_1a58);
    assert(0x8d_1a58 * 0x1_0000_0000_0000_0000 == 0x1_1a34_b000_0000_0000 * 0x80_0000 + 0x0);
    lemma_quotient_known(0x3d8d_1a58, 0x3d00_0000, 0x8d_1a58, 122, 0x80_0000, 121, 0x1_1a34_b000_0000_0000, 0x0, 66, 0x2_0000_0000_0000_0000, 0x400_0000_0000);
    assert(div_spec(0x3d8d_1a58, 0x3d00_0000) == 0x400d_1a58);
    assert(0xfa_cb96 * 0x40 + 0x8d_1a58 * 0x1 == 0x3f3f_ffd8);
    lemma_sum_known(0x437a_cb96, 0x400d_1a58, false, 0xfa_cb96, 133, 0x8d_1a58, 127, 0x40, 0x1, 0x3f3f_ffd8, 30, 0x2000_0000, 0x40);
    assert(add_spec(0x437a_cb96, 0x400d_1a58) == 0x437c_ffff);
    lemma_whole_known(0x437c_ffff, 0xfc_ffff, 133, 0x1_0000);
}

/// The value 0x3f7a_53a7.
proof fn lemma_at_3f7a53a7()
    ensures
        chord_code(0x3f7a_53a7, 0x3f75_5e8d, 0x3f7d_5e8d, 0x437a_cb96, 0x437e_5a67) == 253,
{
    reveal(chord_code);
    lemma2_to64();
    lemma2_to64_rest();
    lemma_high_powers();
    assert(0xfd_5e8d * 0x1 - 0xf5_5e8d * 0x1 == 0x8_0000);
    lemma_sum_known(0x3f7d_5e8d, 0x3f75_5e8d, true, 0xfd_5e8d, 125, 0xf5_5e8d, 125, 0x1, 0x1, 0x8_0000, 20, 0x8_0000, 0x10);
    assert(sub_spec(0x3f7d_5e8d, 0x3f75_5e8d) == 0x3d00_0000);
    assert(0xfa_53a7 * 0x1 - 0xf5_5e8d * 0x1 == 0x4_f51a);
    lemma_sum_known(0x3f7a_53a7, 0x3f75_5e8d, true, 0xfa_53a7, 125, 0xf5_5e8d, 125, 0x1, 0x1, 0x4_f51a, 19, 0x4_0000, 0x20);
    assert(sub_spec(0x3f7a_53a7, 0x3f75_5e8d) == 0x3c9e_a340);
    assert(0xfe_5a67 * 0x1 - 0xfa_cb96 * 0x1 == 0x3_8ed1);
    lemma_sum_known(0x437e_5a67, 0x437a_cb96, true, 0xfe_5a67, 133, 0xfa_cb96, 133, 0x1, 0x1, 0x3_8ed1, 18, 0x2_0000, 0x40);
    assert(sub_spec(0x437e_5a67, 0x437a_cb96) == 0x4063_b440);
    assert(0xe3_b440 * 0x9e_a340 == 0x8d1a_7431_d000);
    lemma_product_known(0x4063_b440, 0x3c9e_a340, 0xe3_b440, 127, 0x9e_a340, 120, 0x8d1a_7431_d000, 48, 0x8000_0000_0000, 0x100_0000);
    assert(mul_spec(0x4063_b440, 0x3c9e_a340) == 0x3d8d_1a74);
    assert(0x8d_1a74 * 0x1_0000_0000_0000_0000 == 0x1_1a34_e800_0000_0000 * 0x80_0000 + 0x0);
    lemma_quotient_known(0x3d8d_1a74, 0x3d00_0000, 0x8d_1a74, 122, 0x80_0000, 121, 0x1_1a34_e800_0000_0000, 0x0, 66, 0x2_0000_0000_0000_0000, 0x400_0000_0000);
    assert(div_spec(0x3d8d_1a74, 0x3d00_0000) == 0x400d_1a74);
    assert(0xfa_cb96 * 0x40 + 0x8d_1a74 * 0x1 == 0x3f3f_fff4);
    lemma_sum_known(0x437a_cb96, 0x400d_1a74, false, 0xfa_cb96, 133, 0x8d_1a74, 127, 0x40, 0x1, 0x3f3f_fff4, 30, 0x2000_0000, 0x40);
    assert(add_spec(0x437a_cb96, 0x400d_1a74) == 0x437d_0000);
    lemma_whole_known(0x437d_0000, 0xfd_0000, 133, 0x1_0000);
}

/// The edge of code 252.
proof fn lemma_near_252()
    ensures
        near_exact_edge(0x3f7a_53a6, 252),
{
    lemma2_to64();
    lemma2_to64_rest();
    lemma_fifth_powers_of_two();
    lemma_more_fifth_powers_of_two();
    assert(266525nat * 266525 * 266525 == 0x43_433d_f34a_ea45);
    assert(269025nat * 269025 * 269025 == 0x45_2c59_9066_9ca1);
    assert(0x43_433d_f34a_ea45nat * 0x43_433d_f34a_ea45 == 0x11ac_4416_d58d_afa9_118d_4446_3699nat);
    assert(0x11ac_4416_d58d_afa9_118d_4446_3699nat * 0x11ac_4416_d58d_afa9_118d_4446_3699nat == 0x138_54f6_9927_eb35_2b55_7001_7221_b78c_078e_f2e8_decf_d6cd_2f50_e771nat);
    assert(0x45_2c59_9066_9ca1nat * 0x45_2c59_9066_9ca1 == 0x12b0_eff6_c049_6d6d_d948_5020_9d41nat);
    assert(0x12b0_eff6_c049_6d6d_d948_5020_9d41nat * 0x12b0_eff6_c049_6d6d_d948_5020_9d41nat == 0x15d_5c09_8741_6139_2178_92b9_bce5_5f46_89a2_dd05_b95f_0d00_50d8_ca81nat);
    assert(0x4e3_913enat * 0x4e3_913e == 0x17_e6d4_d65b_4b04);
    assert(0x17_e6d4_d65b_4b04nat * 0x17_e6d4_d65b_4b04 == 0x23b_4a61_a687_4034_3099_1ad3_5810nat);
    assert(0x23b_4a61_a687_4034_3099_1ad3_5810nat * 0x4e3_913e == 0xa_e900_9aae_19e7_af28_9858_940d_8a40_63e0nat);
    assert(0x4e3_b33enat * 0x4e3_b33e == 0x17_e821_4d73_c304);
    assert(0x17_e821_4d73_c304nat * 0x17_e821_4d73_c304 == 0x23b_8878_4b83_eb76_5eb1_3227_1810nat);
    assert(0x23b_8878_4b83_eb76_5eb1_3227_1810nat * 0x4e3_b33e == 0xa_ea7c_0eb0_2f97_2b07_86c8_ea06_117b_03e0nat);
    assert(0xa_e900_9aae_19e7_af28_9858_940d_8a40_63e0nat * 0x15d_5c09_8741_6139_2178_92b9_bce5_5f46_89a2_dd05_b95f_0d00_50d8_ca81nat == 0xee3_91f7_0b9d_f1b9_9538_26bb_2fde_55a5_96a6_22c5_013a_6020_017b_f67d_d38b_260c_ee7f_5e23_0548_6f73_be41_13e0nat);
    assert(0xa_ea7c_0eb0_2f97_2b07_86c8_ea06_117b_03e0nat * 0x15d_5c09_8741_6139_2178_92b9_bce5_5f46_89a2_dd05_b95f_0d00_50d8_ca81nat == 0xee5_97cc_9e45_d0e8_f16c_f5a2_9b1e_a806_284d_007a_5f13_a9d6_e630_0530_659c_4c3a_37dd_4683_5dce_47db_250b_b3e0nat);
    assert(0xc35nat * 0x100_0000_0000_0000_0000_0000_0000_0000nat == 0xc_3500_0000_0000_0000_0000_0000_0000_0000nat);
    assert(0x138_54f6_9927_eb35_2b55_7001_7221_b78c_078e_f2e8_decf_d6cd_2f50_e771nat * 0xc_3500_0000_0000_0000_0000_0000_0000_0000nat == 0xee4_a526_3b94_4a30_09f9_f041_a635_9590_5843_fb34_a7df_1916_b296_9936_6500_0000_0000_0000_0000_0000_0000_0000nat);
    lemma_near_above(
        0x3f7a_53a6, 0xfa_53a6, 125, 0x100, 0xc_3500_0000_0000_0000_0000_0000_0000_0000nat, 252,
        266525, 0x43_433d_f34a_ea45,
        0x11ac_4416_d58d_afa9_118d_4446_3699nat,
        0x45_2c59_9066_9ca1, 0x12b0_eff6_c049_6d6d_d948_5020_9d41nat,
        0x4e3_913e, 0x17_e6d4_d65b_4b04, 0x23b_4a61_a687_4034_3099_1ad3_5810nat,
        0x4e3_b33e, 0x17_e821_4d73_c304, 0x23b_8878_4b83_eb76_5eb1_3227_1810nat,
    );
}

/// The value 0x3f7c_9346.
proof fn lemma_at_3f7c9346()
    ensures
        chord_code(0x3f7c_9346, 0x3f75_5e8d, 0x3f7d_5e8d, 0x437a_cb96, 0x437e_5a67) == 253,
{
    reveal(chord_code);
    lemma2_to64();
    lemma2_to64_rest();
    lemma_high_powers();
    assert(0xfd_5e8d * 0x1 - 0xf5_5e8d * 0x1 == 0x8_0000);
    lemma_sum_known(0x3f7d_5e8d, 0x3f75_5e8d, true, 0xfd_5e8d, 125, 0xf5_5e8d, 125, 0x1, 0x1, 0x8_0000, 20, 0x8_0000, 0x10);
    assert(sub_spec(0x3f7d_5e8d, 0x3f75_5e8d) == 0x3d00_0000);
    assert(0xfc_9346 * 0x1 - 0xf5_5e8d * 0x1 == 0x7_34b9);
    lemma_sum_known(0x3f7c_9346, 0x3f75_5e8d, true, 0xfc_9346, 125, 0xf5_5e8d, 125, 0x1, 0x1, 0x7_34b9, 19, 0x4_0000, 0x20);
    assert(sub_spec(0x3f7c_9346, 0x3f75_5e8d) == 0x3ce6_9720);
    assert(0xfe_5a67 * 0x1 - 0xfa_cb96 * 0x1 == 0x3_8ed1);
    lemma_sum_known(0x437e_5a67, 0x437a_cb96, true, 0xfe_5a67, 133, 0xfa_cb96, 133, 0x1, 0x1, 0x3_8ed1, 18, 0x2_0000, 0x40);
    assert(sub_spec(0x437e_5a67, 0x437a_cb96) == 0x4063_b440);
    assert(0xe3_b440 * 0xe6_9720 == 0xcd1a_5d48_4800);
    lemma_product_known(0x4063_b440, 0x3ce6_9720, 0xe3_b440, 127, 0xe6_9720, 120, 0xcd1a_5d48_4800, 48, 0x8000_0000_0000, 0x100_0000);
    assert(mul_spec(0x4063_b440, 0x3ce6_9720) == 0x3dcd_1a5d);
    assert(0xcd_1a5d * 0x1_0000_0000_0000_0000 == 0x1_9a34_ba00_0000_0000 * 0x80_0000 + 0x0);
    lemma_quotient_known(0x3dcd_1a5d, 0x3d00_0000, 0xcd_1a5d, 122, 0x80_0000, 121, 0x1_9a34_ba00_0000_0000, 0x0, 66, 0x2_0000_0000_0000_0000, 0x400_0000_0000);
    assert(div_spec(0x3dcd_1a5d, 0x3d00_0000) == 0x404d_1a5d);
    assert(0xfa_cb96 * 0x40 + 0xcd_1a5d * 0x1 == 0x3f7f_ffdd);
    lemma_sum_known(0x437a_cb96, 0x404d_1a5d, false, 0xfa_cb96, 133, 0xcd_1a5d, 127, 0x40, 0x1, 0x3f7f_ffdd, 30, 0x2000_0000, 0x40);
    assert(add_spec(0x437a_cb96, 0x404d_1a5d) == 0x437d_ffff);
    lemma_whole_known(0x437d_ffff, 0xfd_ffff, 133, 0x1_0000);
}

/// The value 0x3f7c_9347.
proof fn lemma_at_3f7c9347()
    ensures
        chord_code(0x3f7c_9347, 0x3f75_5e8d, 0x3f7d_5e8d, 0x437a_cb96, 0x437e_5a67) == 254,
{
    reveal(chord_code);
    lemma2_to64();
    lemma2_to64_rest();
    lemma_high_powers();
    assert(0xfd_5e8d * 0x1 - 0xf5_5e8d * 0x1 == 0x8_0000);
    lemma_sum_known(0x3f7d_5e8d, 0x3f75_5e8d, true, 0xfd_5e8d, 125, 0xf5_5e8d, 125, 0x1, 0x1, 0x8_0000, 20, 0x8_0000, 0x10);
    assert(sub_spec(0x3f7d_5e8d, 0x3f75_5e8d) == 0x3d00_0000);
    assert(0xfc_9347 * 0x1 - 0xf5_5e8d * 0x1 == 0x7_34ba);
    lemma_sum_known(0x3f7c_9347, 0x3f75_5e8d, true, 0xfc_9347, 125, 0xf5_5e8d, 125, 0x1, 0x1, 0x7_34ba, 19, 0x4_0000, 0x20);
    assert(sub_spec(0x3f7c_9347, 0x3f75_5e8d) == 0x3ce6_9740);
    assert(0xfe_5a67 * 0x1 - 0xfa_cb96 * 0x1 == 0x3_8ed1);
    lemma_sum_known(0x437e_5a67, 0x437a_cb96, true, 0xfe_5a67, 133, 0xfa_cb96, 133, 0x1, 0x1, 0x3_8ed1, 18, 0x2_0000, 0x40);
    assert(sub_spec(0x437e_5a67, 0x437a_cb96) == 0x4063_b440);
    assert(0xe3_b440 * 0xe6_9740 == 0xcd1a_79be_d000);
    lemma_product_known(0x4063_b440, 0x3ce6_9740, 0xe3_b440, 127, 0xe6_9740, 120, 0xcd1a_79be_d000, 48, 0x8000_0000_0000, 0x100_0000);
    assert(mul_spec(0x4063_b440, 0x3ce6_9740) == 0x3dcd_1a7a);
    assert(0xcd_1a7a * 0x1_0000_0000_0000_0000 == 0x1_9a34_f400_0000_0000 * 0x80_0000 + 0x0);
    lemma_quotient_known(0x3dcd_1a7a, 0x3d00_0000, 0xcd_1a7a, 122, 0x80_0000, 121, 0x1_9a34_f400_0000_0000, 0x0, 66, 0x2_0000_0000_0000_0000, 0x400_0000_0000);
    assert(div_spec(0x3dcd_1a7a, 0x3d00_0000) == 0x404d_1a7a);
    assert(0xfa_cb96 * 0x40 + 0xcd_1a7a * 0x1 == 0x3f7f_fffa);
    lemma_sum_known(0x437a_cb96, 0x404d_1a7a, false, 0xfa_cb96, 133, 0xcd_1a7a, 127, 0x40, 0x1, 0x3f7f_fffa, 30, 0x2000_0000, 0x40);
    assert(add_spec(0x437a_cb96, 0x404d_1a7a) == 0x437e_0000);
    lemma_whole_known(0x437e_0000, 0xfe_0000, 133, 0x1_0000);
}

/// The edge of code 253.
proof fn lemma_near_253()
    ensures
        near_exact_edge(0x3f7c_9346, 253),
{
    lemma2_to64();
    lemma2_to64_rest();
    lemma_fifth_powers_of_two();
    lemma_more_fifth_powers_of_two();
    assert(267525nat * 267525 * 267525 == 0x44_05ca_2009_277d);
    assert(269025nat * 269025 * 269025 == 0x45_2c59_9066_9ca1);
    assert(0x44_05ca_2009_277dnat * 0x44_05ca_2009_277d == 0x1213_1382_89b3_e867_7d77_0ce1_5309nat);
    assert(0x1213_1382_89b3_e867_7d77_0ce1_5309nat * 0x1213_1382_89b3_e867_7d77_0ce1_5309nat == 0x146_b02a_423a_6063_e64a_d064_49f0_bc04_d3bf_fe58_2675_e279_e8c0_d651nat);
    assert(0x45_2c59_9066_9ca1nat * 0x45_2c59_9066_9ca1 == 0x12b0_eff6_c049_6d6d_d948_5020_9d41nat);
    assert(0x12b0_eff6_c049_6d6d_d948_5020_9d41nat * 0x12b0_eff6_c049_6d6d_d948_5020_9d41nat == 0x15d_5c09_8741_6139_2178_92b9_bce5_5f46_89a2_dd05_b95f_0d00_50d8_ca81nat);
    assert(0x4ee_cf5enat * 0x4ee_cf5e == 0x18_5541_2ac1_2684);
    assert(0x18_5541_2ac1_2684nat * 0x18_5541_2ac1_2684 == 0x250_189c_5b32_398d_2966_68d3_7410nat);
    assert(0x250_189c_5b32_398d_2966_68d3_7410nat * 0x4ee_cf5e == 0xb_68b8_f019_08be_cedc_5d27_c4c3_9f5d_8de0nat);
    assert(0x4ee_f15enat * 0x4ee_f15e == 0x18_5690_9e5a_1e84);
    assert(0x18_5690_9e5a_1e84nat * 0x18_5690_9e5a_1e84 == 0x250_5863_2cfc_cc96_61e4_6873_3410nat);
    assert(0x250_5863_2cfc_cc96_61e4_6873_3410nat * 0x4ee_f15e == 0xb_6a42_359d_97fd_0ec3_455a_e01d_7530_2de0nat);
    assert(0xb_68b8_f019_08be_cedc_5d27_c4c3_9f5d_8de0nat * 0x15d_5c09_8741_6139_2178_92b9_bce5_5f46_89a2_dd05_b95f_0d00_50d8_ca81nat == 0xf91_de2e_7e0d_cef1_ef75_b781_214e_e0db_a3b9_28a2_e573_e520_b63c_06c3_dd6b_cc9c_4e39_f94d_bf7c_9598_d517_3de0nat);
    assert(0xb_6a42_359d_97fd_0ec3_455a_e01d_7530_2de0nat * 0x15d_5c09_8741_6139_2178_92b9_bce5_5f46_89a2_dd05_b95f_0d00_50d8_ca81nat == 0xf93_f6df_a763_f40b_5eb4_d239_7f23_721d_fe78_10b2_c256_d38d_5cb1_5cd8_91a5_6eb4_99e4_8231_4d90_7c4c_c679_dde0nat);
    assert(0xc35nat * 0x100_0000_0000_0000_0000_0000_0000_0000nat == 0xc_3500_0000_0000_0000_0000_0000_0000_0000nat);
    assert(0x146_b02a_423a_6063_e64a_d064_49f0_bc04_d3bf_fe58_2675_e279_e8c0_d651nat * 0xc_3500_0000_0000_0000_0000_0000_0000_0000nat == 0xf93_e473_da72_9aa3_7a2f_41d8_3a97_a726_ecd6_abca_0d7d_059a_2639_f82a_c500_0000_0000_0000_0000_0000_0000_0000nat);
    lemma_near_above(
        0x3f7c_9346, 0xfc_9346, 125, 0x100, 0xc_3500_0000_0000_0000_0000_0000_0000_0000nat, 253,
        267525, 0x44_05ca_2009_277d,
        0x1213_1382_89b3_e867_7d77_0ce1_5309nat,
        0x45_2c59_9066_9ca1, 0x12b0_eff6_c049_6d6d_d948_5020_9d41nat,
        0x4ee_cf5e, 0x18_5541_2ac1_2684, 0x250_189c_5b32_398d_2966_68d3_7410nat,
        0x4ee_f15e, 0x18_5690_9e5a_1e84, 0x250_5863_2cfc_cc96_61e4_6873_3410nat,
    );
}

/// The value 0x3f7e_d8f3.
proof fn lemma_at_3f7ed8f3()
    ensures
        chord_code(0x3f7e_d8f3, 0x3f7d_5e8d, 0x3f85_5e8d, 0x437e_5a67, 0x4382_0289) == 254,
{
    reveal(chord_code);
    lemma2_to64();
    lemma2_to64_rest();
    lemma_high_powers();
    assert(0x85_5e8d * 0x2 - 0xfd_5e8d * 0x1 == 0xd_5e8d);
    lemma_sum_known(0x3f85_5e8d, 0x3f7d_5e8d, true, 0x85_5e8d, 126, 0xfd_5e8d, 125, 0x2, 0x1, 0xd_5e8d, 20, 0x8_0000, 0x10);
    assert(sub_spec(0x3f85_5e8d, 0x3f7d_5e8d) == 0x3d55_e8d0);
    assert(0xfe_d8f3 * 0x1 - 0xfd_5e8d * 0x1 == 0x1_7a66);
    lemma_sum_known(0x3f7e_d8f3, 0x3f7d_5e8d, true, 0xfe_d8f3, 125, 0xfd_5e8d, 125, 0x1, 0x1, 0x1_7a66, 17, 0x1_0000, 0x80);
    assert(sub_spec(0x3f7e_d8f3, 0x3f7d_5e8d) == 0x3bbd_3300);
    assert(0x82_0289 * 0x2 - 0xfe_5a67 * 0x1 == 0x5_aaab);
    lemma_sum_known(0x4382_0289, 0x437e_5a67, true, 0x82_0289, 134, 0xfe_5a67, 133, 0x2, 0x1, 0x5_aaab, 19, 0x4_0000, 0x20);
    assert(sub_spec(0x4382_0289, 0x437e_5a67) == 0x40b5_5560);
    assert(0xb5_5560 * 0xbd_3300 == 0x8604_27e2_2000);
    lemma_product_known(0x40b5_5560, 0x3bbd_3300, 0xb5_5560, 128, 0xbd_3300, 118, 0x8604_27e2_2000, 48, 0x8000_0000_0000, 0x100_0000);
    assert(mul_spec(0x40b5_5560, 0x3bbd_3300) == 0x3d06_0428);
    assert(0x86_0428 * 0x1_0000_0000_0000_0000 == 0xa062_e938_d257_fcd2 * 0xd5_e8d0 + 0xaa_4560);
    lemma_quotient_known(0x3d06_0428, 0x3d55_e8d0, 0x86_0428, 121, 0xd5_e8d0, 121, 0xa062_e938_d257_fcd2, 0xaa_4560, 65, 0x1_0000_0000_0000_0000, 0x200_0000_0000);
    assert(div_spec(0x3d06_0428, 0x3d55_e8d0) == 0x3f20_62e9);
    assert(0xfe_5a67 * 0x100 + 0xa0_62e9 * 0x1 == 0xfefa_c9e9);
    lemma_sum_known(0x437e_5a67, 0x3f20_62e9, false, 0xfe_5a67, 133, 0xa0_62e9, 125, 0x100, 0x1, 0xfefa_c9e9, 32, 0x8000_0000, 0x100);
    assert(add_spec(0x437e_5a67, 0x3f20_62e9) == 0x437e_faca);
    lemma_whole_known(0x437e_faca, 0xfe_faca, 133, 0x1_0000);
}

/// The edge of code 254.
proof fn lemma_near_254()
    ensures
        near_exact_edge(0x3f7e_d8f3, 254),
{
    lemma2_to64();
    lemma2_to64_rest();
    lemma_fifth_powers_of_two();
    lemma_more_fifth_powers_of_two();
    assert(268525nat * 268525 * 268525 == 0x44_c9cc_072c_a835);
    assert(269025nat * 269025 * 269025 == 0x45_2c59_9066_9ca1);
    assert(0x44_c9cc_072c_a835nat * 0x44_c9cc_072c_a835 == 0x127b_d375_d598_ebaa_c775_26bd_9af9nat);
    assert(0x127b_d375_d598_ebaa_c775_26bd_9af9nat * 0x127b_d375_d598_ebaa_c775_26bd_9af9nat == 0x155_a5a1_73f0_366d_7ea2_e66e_3698_afc0_3ac3_47de_2ecf_9c0a_1d7a_8631nat);
    assert(0x45_2c59_9066_9ca1nat * 0x45_2c59_9066_9ca1 == 0x12b0_eff6_c049_6d6d_d948_5020_9d41nat);
    assert(0x12b0_eff6_c049_6d6d_d948_5020_9d41nat * 0x12b0_eff6_c049_6d6d_d948_5020_9d41nat == 0x15d_5c09_8741_6139_2178_92b9_bce5_5f46_89a2_dd05_b95f_0d00_50d8_ca81nat);
    assert(0x4fa_2bbfnat * 0x4fa_2bbf == 0x18_c5d7_7085_b881);
    assert(0x18_c5d7_7085_b881nat * 0x18_c5d7_7085_b881 == 0x265_b14a_618e_9837_b9f8_1b03_b101nat);
    assert(0x265_b14a_618e_9837_b9f8_1b03_b101nat * 0x4fa_2bbf == 0xb_ee7d_2ad0_4483_4248_6a86_dd04_a576_3abfnat);
    assert(0x4fa_4dbfnat * 0x4fa_4dbf == 0x18_c729_e8a8_7481);
    assert(0x18_c729_e8a8_7481nat * 0x18_c729_e8a8_7481 == 0x265_f2cd_ce28_16b7_a154_ee55_2901nat);
    assert(0x265_f2cd_ce28_16b7_a154_ee55_2901nat * 0x4fa_4dbf == 0xb_f014_c84c_020f_ec97_0f31_fddb_7dd8_e4bfnat);
    assert(0xb_ee7d_2ad0_4483_4248_6a86_dd04_a576_3abfnat * 0x15d_5c09_8741_6139_2178_92b9_bce5_5f46_89a2_dd05_b95f_0d00_50d8_ca81nat == 0x1048_6aca_0986_d845_ba9f_6828_fa90_d2ef_e025_6ef8_313b_bdc9_5242_67df_881e_a70f_903e_addd_dcd8_4b03_ec16_503fnat);
    assert(0xb_f014_c84c_020f_ec97_0f31_fddb_7dd8_e4bfnat * 0x15d_5c09_8741_6139_2178_92b9_bce5_5f46_89a2_dd05_b95f_0d00_50d8_ca81nat == 0x104a_970e_46fc_9ea8_29ff_b294_a5ed_15b7_756e_435c_885d_02c7_e4a4_fde0_3ec4_a2e5_75c6_cc88_d084_c664_3ff1_fa3fnat);
    assert(0xc35nat * 0x100_0000_0000_0000_0000_0000_0000_0000nat == 0xc_3500_0000_0000_0000_0000_0000_0000_0000nat);
    assert(0x155_a5a1_73f0_366d_7ea2_e66e_3698_afc0_3ac3_47de_2ecf_9c0a_1d7a_8631nat * 0xc_3500_0000_0000_0000_0000_0000_0000_0000nat == 0x104a_7edb_dc43_4866_9ada_86df_6075_d965_8d51_cc4b_316c_4bc7_79d8_a814_2500_0000_0000_0000_0000_0000_0000_0000nat);
    lemma_near_above(
        0x3f7e_d8f3, 0xfe_d8f3, 125, 0x100, 0xc_3500_0000_0000_0000_0000_0000_0000_0000nat, 254,
        268525, 0x44_c9cc_072c_a835,
        0x127b_d375_d598_ebaa_c775_26bd_9af9nat,
        0x45_2c59_9066_9ca1, 0x12b0_eff6_c049_6d6d_d948_5020_9d41nat,
        0x4fa_2bbf, 0x18_c5d7_7085_b881, 0x265_b14a_618e_9837_b9f8_1b03_b101nat,
        0x4fa_4dbf, 0x18_c729_e8a8_7481, 0x265_f2cd_ce28_16b7_a154_ee55_2901nat,
    );
}

/// The codes 0 to 7.
proof fn lemma_edges_0_to_7(n: int)
    requires
        0 <= n <= 7,
    ensures
        0 < FAST_EDGES[n] < 0x3f80_0000,
        compress_u8_spec(FAST_EDGES[n]) == n,
        compress_u8_spec((FAST_EDGES[n] + 1) as u32) == n + 1,
        near_exact_edge(FAST_EDGES[n], n as nat),
{
    if n == 0 {
        lemma_at_391f22b2();
        lemma_at_391f22b3();
        lemma_near_0();
    } else if n == 1 {
        lemma_at_39eeb40c();
        lemma_at_39eeb40d();
        lemma_near_1();
    } else if n == 2 {
        lemma_at_3a46eb5f();
        lemma_at_3a46eb60();
        lemma_near_2();
    } else if n == 3 {
        lemma_at_3a8b3e5c();
        lemma_at_3a8b3e5d();
        lemma_near_3();
    } else if n == 4 {
        lemma_at_3ab30709();
        lemma_at_3ab3070a();
        lemma_near_4();
    } else if n == 5 {
        lemma_at_3adacfb6();
        lemma_at_3adacfb7();
        lemma_near_5();
    } else if n == 6 {
        lemma_at_3b014c31();
        lemma_at_3b014c32();
        lemma_near_6();
    } else {
        lemma_at_3b153087();
        lemma_at_3b153088();
        lemma_near_7();
    }
}

/// The codes 8 to 15.
proof fn lemma_edges_8_to_15(n: int)
    requires
        8 <= n <= 15,
    ensures
        0 < FAST_EDGES[n] < 0x3f80_0000,
        compress_u8_spec(FAST_EDGES[n]) == n,
        compress_u8_spec((FAST_EDGES[n] + 1) as u32) == n + 1,
        near_exact_edge(FAST_EDGES[n], n as nat),
{
    if n == 8 {
        lemma_at_3b2914de();
        lemma_at_3b2914df();
        lemma_near_8();
    } else if n == 9 {
        lemma_at_3b3cf934();
        lemma_at_3b3cf935();
        lemma_near_9();
    } else if n == 10 {
        lemma_at_3b50dd8a();
        lemma_at_3b50dd8b();
        lemma_near_10();
    } else if n == 11 {
        lemma_at_3b65e98b();
        lemma_on_chord(0x3b65_e98b, 3, 0x3b65_5e8d, 0x3b6d_5e8d, 0x413f_9846, 0x4145_909d, 11);
        lemma_at_3b65e98c();
        lemma_on_chord(0x3b65_e98c, 3, 0x3b65_5e8d, 0x3b6d_5e8d, 0x413f_9846, 0x4145_909d, 12);
        lemma_near_11();
    } else if n == 12 {
        lemma_at_3b7b50a5();
        lemma_on_chord(0x3b7b_50a5, 5, 0x3b75_5e8d, 0x3b7d_5e8d, 0x414b_a25f, 0x4151_8227, 12);
        lemma_at_3b7b50a6();
        lemma_on_chord(0x3b7b_50a6, 5, 0x3b75_5e8d, 0x3b7d_5e8d, 0x414b_a25f, 0x4151_8227, 13);
        lemma_near_12();
    } else if n == 13 {
        lemma_at_3b89ca72();
        lemma_on_chord(0x3b89_ca72, 7, 0x3b85_5e8d, 0x3b8d_5e8d, 0x415a_357d, 0x4164_afdf, 13);
        lemma_at_3b89ca73();
        lemma_on_chord(0x3b89_ca73, 7, 0x3b85_5e8d, 0x3b8d_5e8d, 0x415a_357d, 0x4164_afdf, 14);
        lemma_near_13();
    } else if n == 14 {
        lemma_at_3b965056();
        lemma_on_chord(0x3b96_5056, 9, 0x3b95_5e8d, 0x3b9d_5e8d, 0x416e_c765, 0x4179_1f3d, 14);
        lemma_at_3b965057();
        lemma_on_chord(0x3b96_5057, 9, 0x3b95_5e8d, 0x3b9d_5e8d, 0x416e_c765, 0x4179_1f3d, 15);
        lemma_near_14();
    } else {
        lemma_at_3ba2becd();
        lemma_on_chord(0x3ba2_becd, 10, 0x3b9d_5e8d, 0x3ba5_5e8d, 0x4179_1f3d, 0x4181_adb6, 15);
        lemma_at_3ba2bece();
        lemma_on_chord(0x3ba2_bece, 10, 0x3b9d_5e8d, 0x3ba5_5e8d, 0x4179_1f3d, 0x4181_adb6, 16);
        lemma_near_15();
    }
}

/// The codes 16 to 23.
proof fn lemma_edges_16_to_23(n: int)
    requires
        16 <= n <= 23,
    ensures
        0 < FAST_EDGES[n] < 0x3f80_0000,
        compress_u8_spec(FAST_EDGES[n]) == n,
        compress_u8_spec((FAST_EDGES[n] + 1) as u32) == n + 1,
        near_exact_edge(FAST_EDGES[n], n as nat),
{
    if n == 16 {
        lemma_at_3bb0a8b0();
        lemma_on_chord(0x3bb0_a8b0, 12, 0x3bad_5e8d, 0x3bb5_5e8d, 0x4186_1da3, 0x418a_b2b2, 16);
        lemma_at_3bb0a8b1();
        lemma_on_chord(0x3bb0_a8b1, 12, 0x3bad_5e8d, 0x3bb5_5e8d, 0x4186_1da3, 0x418a_b2b2, 17);
        lemma_near_16();
    } else if n == 17 {
        lemma_at_3bbecd41();
        lemma_on_chord(0x3bbe_cd41, 14, 0x3bbd_5e8d, 0x3bc5_5e8d, 0x418f_2bbc, 0x4193_cd32, 17);
        lemma_at_3bbecd42();
        lemma_on_chord(0x3bbe_cd42, 14, 0x3bbd_5e8d, 0x3bc5_5e8d, 0x418f_2bbc, 0x4193_cd32, 18);
        lemma_near_17();
    } else if n == 18 {
        lemma_at_3bcd544c();
        lemma_on_chord(0x3bcd_544c, 15, 0x3bc5_5e8d, 0x3bcd_5e8d, 0x4193_cd32, 0x4198_0568, 18);
        lemma_at_3bcd544d();
        lemma_on_chord(0x3bcd_544d, 15, 0x3bc5_5e8d, 0x3bcd_5e8d, 0x4193_cd32, 0x4198_0568, 19);
        lemma_near_18();
    } else if n == 19 {
        lemma_at_3bdcbb95();
        lemma_on_chord(0x3bdc_bb95, 17, 0x3bd5_5e8d, 0x3bdd_5e8d, 0x419c_2ef9, 0x41a0_5477, 19);
        lemma_at_3bdcbb96();
        lemma_on_chord(0x3bdc_bb96, 17, 0x3bd5_5e8d, 0x3bdd_5e8d, 0x419c_2ef9, 0x41a0_5477, 20);
        lemma_near_19();
    } else if n == 20 {
        lemma_at_3bed45c3();
        lemma_on_chord(0x3bed_45c3, 19, 0x3be5_5e8d, 0x3bed_5e8d, 0x41a3_906f, 0x41a8_0de9, 20);
        lemma_at_3bed45c4();
        lemma_on_chord(0x3bed_45c4, 19, 0x3be5_5e8d, 0x3bed_5e8d, 0x41a3_906f, 0x41a8_0de9, 21);
        lemma_near_20();
    } else if n == 21 {
        lemma_at_3bfe1955();
        lemma_on_chord(0x3bfe_1955, 22, 0x3bfd_5e8d, 0x3c05_5e8d, 0x41af_a86c, 0x41b5_ed23, 21);
        lemma_at_3bfe1956();
        lemma_on_chord(0x3bfe_1956, 22, 0x3bfd_5e8d, 0x3c05_5e8d, 0x41af_a86c, 0x41b5_ed23, 22);
        lemma_near_21();
    } else if n == 22 {
        lemma_at_3c07b3cb();
        lemma_on_chord(0x3c07_b3cb, 23, 0x3c05_5e8d, 0x3c0d_5e8d, 0x41b5_ed23, 0x41bd_0980, 22);
        lemma_at_3c07b3cc();
        lemma_on_chord(0x3c07_b3cc, 23, 0x3c05_5e8d, 0x3c0d_5e8d, 0x41b5_ed23, 0x41bd_0980, 23);
        lemma_near_22();
    } else {
        lemma_at_3c10aa88();
        lemma_on_chord(0x3c10_aa88, 24, 0x3c0d_5e8d, 0x3c15_5e8d, 0x41bd_0980, 0x41c4_3a11, 23);
        lemma_at_3c10aa89();
        lemma_on_chord(0x3c10_aa89, 24, 0x3c0d_5e8d, 0x3c15_5e8d, 0x41bd_0980, 0x41c4_3a11, 24);
        lemma_near_23();
    }
}

/// The codes 24 to 31.
proof fn lemma_edges_24_to_31(n: int)
    requires
        24 <= n <= 31,
    ensures
        0 < FAST_EDGES[n] < 0x3f80_0000,
        compress_u8_spec(FAST_EDGES[n]) == n,
        compress_u8_spec((FAST_EDGES[n] + 1) as u32) == n + 1,
        near_exact_edge(FAST_EDGES[n], n as nat),
{
    if n == 24 {
        lemma_at_3c19fd5d();
        lemma_on_chord(0x3c19_fd5d, 25, 0x3c15_5e8d, 0x3c1d_5e8d, 0x41c4_3a11, 0x41ca_c28a, 24);
        lemma_at_3c19fd5e();
        lemma_on_chord(0x3c19_fd5e, 25, 0x3c15_5e8d, 0x3c1d_5e8d, 0x41c4_3a11, 0x41ca_c28a, 25);
        lemma_near_24();
    } else if n == 25 {
        lemma_at_3c23df6e();
        lemma_on_chord(0x3c23_df6e, 26, 0x3c1d_5e8d, 0x3c25_5e8d, 0x41ca_c28a, 0x41d1_34b1, 25);
        lemma_at_3c23df6f();
        lemma_on_chord(0x3c23_df6f, 26, 0x3c1d_5e8d, 0x3c25_5e8d, 0x41ca_c28a, 0x41d1_34b1, 26);
        lemma_near_25();
    } else if n == 26 {
        lemma_at_3c2e1631();
        lemma_on_chord(0x3c2e_1631, 28, 0x3c2d_5e8d, 0x3c35_5e8d, 0x41d7_7436, 0x41dd_8b21, 26);
        lemma_at_3c2e1632();
        lemma_on_chord(0x3c2e_1632, 28, 0x3c2d_5e8d, 0x3c35_5e8d, 0x41d7_7436, 0x41dd_8b21, 27);
        lemma_near_26();
    } else if n == 27 {
        lemma_at_3c389857();
        lemma_on_chord(0x3c38_9857, 29, 0x3c35_5e8d, 0x3c3d_5e8d, 0x41dd_8b21, 0x41e3_a2c0, 27);
        lemma_at_3c389858();
        lemma_on_chord(0x3c38_9858, 29, 0x3c35_5e8d, 0x3c3d_5e8d, 0x41dd_8b21, 0x41e3_a2c0, 28);
        lemma_near_27();
    } else if n == 28 {
        lemma_at_3c4386ab();
        lemma_on_chord(0x3c43_86ab, 30, 0x3c3d_5e8d, 0x3c45_5e8d, 0x41e3_a2c0, 0x41e9_4e7f, 28);
        lemma_at_3c4386ac();
        lemma_on_chord(0x3c43_86ac, 30, 0x3c3d_5e8d, 0x3c45_5e8d, 0x41e3_a2c0, 0x41e9_4e7f, 29);
        lemma_near_28();
    } else if n == 29 {
        lemma_at_3c4ed187();
        lemma_on_chord(0x3c4e_d187, 32, 0x3c4d_5e8d, 0x3c55_5e8d, 0x41ef_0a95, 0x41f4_5569, 29);
        lemma_at_3c4ed188();
        lemma_on_chord(0x3c4e_d188, 32, 0x3c4d_5e8d, 0x3c55_5e8d, 0x41ef_0a95, 0x41f4_5569, 30);
        lemma_near_29();
    } else if n == 30 {
        lemma_at_3c5a4f11();
        lemma_on_chord(0x3c5a_4f11, 33, 0x3c55_5e8d, 0x3c5d_5e8d, 0x41f4_5569, 0x41fa_458a, 30);
        lemma_at_3c5a4f12();
        lemma_on_chord(0x3c5a_4f12, 33, 0x3c55_5e8d, 0x3c5d_5e8d, 0x41f4_5569, 0x41fa_458a, 31);
        lemma_near_30();
    } else {
        lemma_at_3c6673f8();
        lemma_on_chord(0x3c66_73f8, 35, 0x3c65_5e8d, 0x3c6d_5e8d, 0x41ff_4654, 0x4202_5081, 31);
        lemma_at_3c6673f9();
        lemma_on_chord(0x3c66_73f9, 35, 0x3c65_5e8d, 0x3c6d_5e8d, 0x41ff_4654, 0x4202_5081, 32);
        lemma_near_31();
    }
}

/// The codes 32 to 39.
proof fn lemma_edges_32_to_39(n: int)
    requires
        32 <= n <= 39,
    ensures
        0 < FAST_EDGES[n] < 0x3f80_0000,
        compress_u8_spec(FAST_EDGES[n]) == n,
        compress_u8_spec((FAST_EDGES[n] + 1) as u32) == n + 1,
        near_exact_edge(FAST_EDGES[n], n as nat),
{
    if n == 32 {
        lemma_at_3c729d5e();
        lemma_on_chord(0x3c72_9d5e, 36, 0x3c6d_5e8d, 0x3c75_5e8d, 0x4202_5081, 0x4204_e299, 32);
        lemma_at_3c729d5f();
        lemma_on_chord(0x3c72_9d5f, 36, 0x3c6d_5e8d, 0x3c75_5e8d, 0x4202_5081, 0x4204_e299, 33);
        lemma_near_32();
    } else if n == 33 {
        lemma_at_3c7f3c36();
        lemma_on_chord(0x3c7f_3c36, 38, 0x3c7d_5e8d, 0x3c85_5e8d, 0x4207_710a, 0x420b_715e, 33);
        lemma_at_3c7f3c37();
        lemma_on_chord(0x3c7f_3c37, 38, 0x3c7d_5e8d, 0x3c85_5e8d, 0x4207_710a, 0x420b_715e, 34);
        lemma_near_33();
    } else if n == 34 {
        lemma_at_3c864e5c();
        lemma_on_chord(0x3c86_4e5c, 39, 0x3c85_5e8d, 0x3c8d_5e8d, 0x420b_715e, 0x4210_3370, 34);
        lemma_at_3c864e5d();
        lemma_on_chord(0x3c86_4e5d, 39, 0x3c85_5e8d, 0x3c8d_5e8d, 0x420b_715e, 0x4210_3370, 35);
        lemma_near_34();
    } else if n == 35 {
        lemma_at_3c8d0810();
        lemma_on_chord(0x3c8d_0810, 39, 0x3c85_5e8d, 0x3c8d_5e8d, 0x420b_715e, 0x4210_3370, 35);
        lemma_at_3c8d0811();
        lemma_on_chord(0x3c8d_0811, 39, 0x3c85_5e8d, 0x3c8d_5e8d, 0x420b_715e, 0x4210_3370, 36);
        lemma_near_35();
    } else if n == 36 {
        lemma_at_3c93ffce();
        lemma_on_chord(0x3c93_ffce, 40, 0x3c8d_5e8d, 0x3c95_5e8d, 0x4210_3370, 0x4214_c8fb, 36);
        lemma_at_3c93ffcf();
        lemma_on_chord(0x3c93_ffcf, 40, 0x3c8d_5e8d, 0x3c95_5e8d, 0x4210_3370, 0x4214_c8fb, 37);
        lemma_near_36();
    } else if n == 37 {
        lemma_at_3c9b024d();
        lemma_on_chord(0x3c9b_024d, 41, 0x3c95_5e8d, 0x3c9d_5e8d, 0x4214_c8fb, 0x4219_5874, 37);
        lemma_at_3c9b024e();
        lemma_on_chord(0x3c9b_024e, 41, 0x3c95_5e8d, 0x3c9d_5e8d, 0x4214_c8fb, 0x4219_5874, 38);
        lemma_near_37();
    } else if n == 38 {
        lemma_at_3ca254cf();
        lemma_on_chord(0x3ca2_54cf, 42, 0x3c9d_5e8d, 0x3ca5_5e8d, 0x4219_5874, 0x421d_a010, 38);
        lemma_at_3ca254d0();
        lemma_on_chord(0x3ca2_54d0, 42, 0x3c9d_5e8d, 0x3ca5_5e8d, 0x4219_5874, 0x421d_a010, 39);
        lemma_near_38();
    } else {
        lemma_at_3ca9cace();
        lemma_on_chord(0x3ca9_cace, 43, 0x3ca5_5e8d, 0x3cad_5e8d, 0x421d_a010, 0x4221_ebaf, 39);
        lemma_at_3ca9cacf();
        lemma_on_chord(0x3ca9_cacf, 43, 0x3ca5_5e8d, 0x3cad_5e8d, 0x421d_a010, 0x4221_ebaf, 40);
        lemma_near_39();
    }
}

/// The codes 40 to 47.
proof fn lemma_edges_40_to_47(n: int)
    requires
        40 <= n <= 47,
    ensures
        0 < FAST_EDGES[n] < 0x3f80_0000,
        compress_u8_spec(FAST_EDGES[n]) == n,
        compress_u8_spec((FAST_EDGES[n] + 1) as u32) == n + 1,
        near_exact_edge(FAST_EDGES[n], n as nat),
{
    if n == 40 {
        lemma_at_3cb1717a();
        lemma_on_chord(0x3cb1_717a, 44, 0x3cad_5e8d, 0x3cb5_5e8d, 0x4221_ebaf, 0x4226_00fe, 40);
        lemma_at_3cb1717b();
        lemma_on_chord(0x3cb1_717b, 44, 0x3cad_5e8d, 0x3cb5_5e8d, 0x4221_ebaf, 0x4226_00fe, 41);
        lemma_near_40();
    } else if n == 41 {
        lemma_at_3cb96d2b();
        lemma_on_chord(0x3cb9_6d2b, 45, 0x3cb5_5e8d, 0x3cbd_5e8d, 0x4226_00fe, 0x4229_f09e, 41);
        lemma_at_3cb96d2c();
        lemma_on_chord(0x3cb9_6d2c, 45, 0x3cb5_5e8d, 0x3cbd_5e8d, 0x4226_00fe, 0x4229_f09e, 42);
        lemma_near_41();
    } else if n == 42 {
        lemma_at_3cc1ae2a();
        lemma_on_chord(0x3cc1_ae2a, 46, 0x3cbd_5e8d, 0x3cc5_5e8d, 0x4229_f09e, 0x422d_c34a, 42);
        lemma_at_3cc1ae2b();
        lemma_on_chord(0x3cc1_ae2b, 46, 0x3cbd_5e8d, 0x3cc5_5e8d, 0x4229_f09e, 0x422d_c34a, 43);
        lemma_near_42();
    } else if n == 43 {
        lemma_at_3cc9f3dd();
        lemma_on_chord(0x3cc9_f3dd, 47, 0x3cc5_5e8d, 0x3ccd_5e8d, 0x422d_c34a, 0x4231_aaf1, 43);
        lemma_at_3cc9f3de();
        lemma_on_chord(0x3cc9_f3de, 47, 0x3cc5_5e8d, 0x3ccd_5e8d, 0x422d_c34a, 0x4231_aaf1, 44);
        lemma_near_43();
    } else if n == 44 {
        lemma_at_3cd275b8();
        lemma_on_chord(0x3cd2_75b8, 48, 0x3ccd_5e8d, 0x3cd5_5e8d, 0x4231_aaf1, 0x4235_553f, 44);
        lemma_at_3cd275b9();
        lemma_on_chord(0x3cd2_75b9, 48, 0x3ccd_5e8d, 0x3cd5_5e8d, 0x4231_aaf1, 0x4235_553f, 45);
        lemma_near_44();
    } else if n == 45 {
        lemma_at_3cdb39c8();
        lemma_on_chord(0x3cdb_39c8, 49, 0x3cd5_5e8d, 0x3cdd_5e8d, 0x4235_553f, 0x4238_f9e8, 45);
        lemma_at_3cdb39c9();
        lemma_on_chord(0x3cdb_39c9, 49, 0x3cd5_5e8d, 0x3cdd_5e8d, 0x4235_553f, 0x4238_f9e8, 46);
        lemma_near_45();
    } else if n == 46 {
        lemma_at_3ce44ff6();
        lemma_on_chord(0x3ce4_4ff6, 50, 0x3cdd_5e8d, 0x3ce5_5e8d, 0x4238_f9e8, 0x423c_75d8, 46);
        lemma_at_3ce44ff7();
        lemma_on_chord(0x3ce4_4ff7, 50, 0x3cdd_5e8d, 0x3ce5_5e8d, 0x4238_f9e8, 0x423c_75d8, 47);
        lemma_near_46();
    } else {
        lemma_at_3ced5cca();
        lemma_on_chord(0x3ced_5cca, 51, 0x3ce5_5e8d, 0x3ced_5e8d, 0x423c_75d8, 0x4240_00c7, 47);
        lemma_at_3ced5ccb();
        lemma_on_chord(0x3ced_5ccb, 51, 0x3ce5_5e8d, 0x3ced_5e8d, 0x423c_75d8, 0x4240_00c7, 48);
        lemma_near_47();
    }
}

/// The codes 48 to 55.
proof fn lemma_edges_48_to_55(n: int)
    requires
        48 <= n <= 55,
    ensures
        0 < FAST_EDGES[n] < 0x3f80_0000,
        compress_u8_spec(FAST_EDGES[n]) == n,
        compress_u8_spec((FAST_EDGES[n] + 1) as u32) == n + 1,
        near_exact_edge(FAST_EDGES[n], n as nat),
{
    if n == 48 {
        lemma_at_3cf6b455();
        lemma_on_chord(0x3cf6_b455, 53, 0x3cf5_5e8d, 0x3cfd_5e8d, 0x4243_7283, 0x4246_c250, 48);
        lemma_at_3cf6b456();
        lemma_on_chord(0x3cf6_b456, 53, 0x3cf5_5e8d, 0x3cfd_5e8d, 0x4243_7283, 0x4246_c250, 49);
        lemma_near_48();
    } else if n == 49 {
        lemma_at_3d003306();
        lemma_on_chord(0x3d00_3306, 54, 0x3cfd_5e8d, 0x3d05_5e8d, 0x4246_c250, 0x424c_3c5d, 49);
        lemma_at_3d003307();
        lemma_on_chord(0x3d00_3307, 54, 0x3cfd_5e8d, 0x3d05_5e8d, 0x4246_c250, 0x424c_3c5d, 50);
        lemma_near_49();
    } else if n == 50 {
        lemma_at_3d0514df();
        lemma_on_chord(0x3d05_14df, 54, 0x3cfd_5e8d, 0x3d05_5e8d, 0x4246_c250, 0x424c_3c5d, 50);
        lemma_at_3d0514e0();
        lemma_on_chord(0x3d05_14e0, 54, 0x3cfd_5e8d, 0x3d05_5e8d, 0x4246_c250, 0x424c_3c5d, 51);
        lemma_near_50();
    } else if n == 51 {
        lemma_at_3d0a1867();
        lemma_on_chord(0x3d0a_1867, 55, 0x3d05_5e8d, 0x3d0d_5e8d, 0x424c_3c5d, 0x4252_9b93, 51);
        lemma_at_3d0a1868();
        lemma_on_chord(0x3d0a_1868, 55, 0x3d05_5e8d, 0x3d0d_5e8d, 0x424c_3c5d, 0x4252_9b93, 52);
        lemma_near_51();
    } else if n == 52 {
        lemma_at_3d0f2f82();
        lemma_on_chord(0x3d0f_2f82, 56, 0x3d0d_5e8d, 0x3d15_5e8d, 0x4252_9b93, 0x4258_bd84, 52);
        lemma_at_3d0f2f83();
        lemma_on_chord(0x3d0f_2f83, 56, 0x3d0d_5e8d, 0x3d15_5e8d, 0x4252_9b93, 0x4258_bd84, 53);
        lemma_near_52();
    } else if n == 53 {
        lemma_at_3d146752();
        lemma_on_chord(0x3d14_6752, 56, 0x3d0d_5e8d, 0x3d15_5e8d, 0x4252_9b93, 0x4258_bd84, 53);
        lemma_at_3d146753();
        lemma_on_chord(0x3d14_6753, 56, 0x3d0d_5e8d, 0x3d15_5e8d, 0x4252_9b93, 0x4258_bd84, 54);
        lemma_near_53();
    } else if n == 54 {
        lemma_at_3d19be19();
        lemma_on_chord(0x3d19_be19, 57, 0x3d15_5e8d, 0x3d1d_5e8d, 0x4258_bd84, 0x425e_b40a, 54);
        lemma_at_3d19be1a();
        lemma_on_chord(0x3d19_be1a, 57, 0x3d15_5e8d, 0x3d1d_5e8d, 0x4258_bd84, 0x425e_b40a, 55);
        lemma_near_54();
    } else {
        lemma_at_3d1f297e();
        lemma_on_chord(0x3d1f_297e, 58, 0x3d1d_5e8d, 0x3d25_5e8d, 0x425e_b40a, 0x4264_7d61, 55);
        lemma_at_3d1f297f();
        lemma_on_chord(0x3d1f_297f, 58, 0x3d1d_5e8d, 0x3d25_5e8d, 0x425e_b40a, 0x4264_7d61, 56);
        lemma_near_55();
    }
}

/// The codes 56 to 63.
proof fn lemma_edges_56_to_63(n: int)
    requires
        56 <= n <= 63,
    ensures
        0 < FAST_EDGES[n] < 0x3f80_0000,
        compress_u8_spec(FAST_EDGES[n]) == n,
        compress_u8_spec((FAST_EDGES[n] + 1) as u32) == n + 1,
        near_exact_edge(FAST_EDGES[n], n as nat),
{
    if n == 56 {
        lemma_at_3d24b135();
        lemma_on_chord(0x3d24_b135, 58, 0x3d1d_5e8d, 0x3d25_5e8d, 0x425e_b40a, 0x4264_7d61, 56);
        lemma_at_3d24b136();
        lemma_on_chord(0x3d24_b136, 58, 0x3d1d_5e8d, 0x3d25_5e8d, 0x425e_b40a, 0x4264_7d61, 57);
        lemma_near_56();
    } else if n == 57 {
        lemma_at_3d2a5ef2();
        lemma_on_chord(0x3d2a_5ef2, 59, 0x3d25_5e8d, 0x3d2d_5e8d, 0x4264_7d61, 0x426a_1ab9, 57);
        lemma_at_3d2a5ef3();
        lemma_on_chord(0x3d2a_5ef3, 59, 0x3d25_5e8d, 0x3d2d_5e8d, 0x4264_7d61, 0x426a_1ab9, 58);
        lemma_near_57();
    } else if n == 58 {
        lemma_at_3d302a07();
        lemma_on_chord(0x3d30_2a07, 60, 0x3d2d_5e8d, 0x3d35_5e8d, 0x426a_1ab9, 0x426f_87c9, 58);
        lemma_at_3d302a08();
        lemma_on_chord(0x3d30_2a08, 60, 0x3d2d_5e8d, 0x3d35_5e8d, 0x426a_1ab9, 0x426f_87c9, 59);
        lemma_near_58();
    } else if n == 59 {
        lemma_at_3d36122a();
        lemma_on_chord(0x3d36_122a, 61, 0x3d35_5e8d, 0x3d3d_5e8d, 0x426f_87c9, 0x4274_e277, 59);
        lemma_at_3d36122b();
        lemma_on_chord(0x3d36_122b, 61, 0x3d35_5e8d, 0x3d3d_5e8d, 0x426f_87c9, 0x4274_e277, 60);
        lemma_near_59();
    } else if n == 60 {
        lemma_at_3d3c0c2c();
        lemma_on_chord(0x3d3c_0c2c, 61, 0x3d35_5e8d, 0x3d3d_5e8d, 0x426f_87c9, 0x4274_e277, 60);
        lemma_at_3d3c0c2d();
        lemma_on_chord(0x3d3c_0c2d, 61, 0x3d35_5e8d, 0x3d3d_5e8d, 0x426f_87c9, 0x4274_e277, 61);
        lemma_near_60();
    } else if n == 61 {
        lemma_at_3d422723();
        lemma_on_chord(0x3d42_2723, 62, 0x3d3d_5e8d, 0x3d45_5e8d, 0x4274_e277, 0x427a_1842, 61);
        lemma_at_3d422724();
        lemma_on_chord(0x3d42_2724, 62, 0x3d3d_5e8d, 0x3d45_5e8d, 0x4274_e277, 0x427a_1842, 62);
        lemma_near_61();
    } else if n == 62 {
        lemma_at_3d486372();
        lemma_on_chord(0x3d48_6372, 63, 0x3d45_5e8d, 0x3d4d_5e8d, 0x427a_1842, 0x427f_24a9, 62);
        lemma_at_3d486373();
        lemma_on_chord(0x3d48_6373, 63, 0x3d45_5e8d, 0x3d4d_5e8d, 0x427a_1842, 0x427f_24a9, 63);
        lemma_near_62();
    } else {
        lemma_at_3d4ebcb2();
        lemma_on_chord(0x3d4e_bcb2, 64, 0x3d4d_5e8d, 0x3d55_5e8d, 0x427f_24a9, 0x4282_13c9, 63);
        lemma_at_3d4ebcb3();
        lemma_on_chord(0x3d4e_bcb3, 64, 0x3d4d_5e8d, 0x3d55_5e8d, 0x427f_24a9, 0x4282_13c9, 64);
        lemma_near_63();
    }
}

/// The codes 64 to 71.
proof fn lemma_edges_64_to_71(n: int)
    requires
        64 <= n <= 71,
    ensures
        0 < FAST_EDGES[n] < 0x3f80_0000,
        compress_u8_spec(FAST_EDGES[n]) == n,
        compress_u8_spec((FAST_EDGES[n] + 1) as u32) == n + 1,
        near_exact_edge(FAST_EDGES[n], n as nat),
{
    if n == 64 {
        lemma_at_3d551f60();
        lemma_on_chord(0x3d55_1f60, 64, 0x3d4d_5e8d, 0x3d55_5e8d, 0x427f_24a9, 0x4282_13c9, 64);
        lemma_at_3d551f61();
        lemma_on_chord(0x3d55_1f61, 64, 0x3d4d_5e8d, 0x3d55_5e8d, 0x427f_24a9, 0x4282_13c9, 65);
        lemma_near_64();
    } else if n == 65 {
        lemma_at_3d5bd13e();
        lemma_on_chord(0x3d5b_d13e, 65, 0x3d55_5e8d, 0x3d5d_5e8d, 0x4282_13c9, 0x4284_7678, 65);
        lemma_at_3d5bd13f();
        lemma_on_chord(0x3d5b_d13f, 65, 0x3d55_5e8d, 0x3d5d_5e8d, 0x4282_13c9, 0x4284_7678, 66);
        lemma_near_65();
    } else if n == 66 {
        lemma_at_3d627b61();
        lemma_on_chord(0x3d62_7b61, 66, 0x3d5d_5e8d, 0x3d65_5e8d, 0x4284_7678, 0x4286_de3f, 66);
        lemma_at_3d627b62();
        lemma_on_chord(0x3d62_7b62, 66, 0x3d5d_5e8d, 0x3d65_5e8d, 0x4284_7678, 0x4286_de3f, 67);
        lemma_near_66();
    } else if n == 67 {
        lemma_at_3d695043();
        lemma_on_chord(0x3d69_5043, 67, 0x3d65_5e8d, 0x3d6d_5e8d, 0x4286_de3f, 0x4289_29f3, 67);
        lemma_at_3d695044();
        lemma_on_chord(0x3d69_5044, 67, 0x3d65_5e8d, 0x3d6d_5e8d, 0x4286_de3f, 0x4289_29f3, 68);
        lemma_near_67();
    } else if n == 68 {
        lemma_at_3d70440a();
        lemma_on_chord(0x3d70_440a, 68, 0x3d6d_5e8d, 0x3d75_5e8d, 0x4289_29f3, 0x428b_7927, 68);
        lemma_at_3d70440b();
        lemma_on_chord(0x3d70_440b, 68, 0x3d6d_5e8d, 0x3d75_5e8d, 0x4289_29f3, 0x428b_7927, 69);
        lemma_near_68();
    } else if n == 69 {
        lemma_at_3d773ec6();
        lemma_on_chord(0x3d77_3ec6, 69, 0x3d75_5e8d, 0x3d7d_5e8d, 0x428b_7927, 0x428d_b839, 69);
        lemma_at_3d773ec7();
        lemma_on_chord(0x3d77_3ec7, 69, 0x3d75_5e8d, 0x3d7d_5e8d, 0x428b_7927, 0x428d_b839, 70);
        lemma_near_69();
    } else if n == 70 {
        lemma_at_3d7e647b();
        lemma_on_chord(0x3d7e_647b, 70, 0x3d7d_5e8d, 0x3d85_5e8d, 0x428d_b839, 0x4291_6215, 70);
        lemma_at_3d7e647c();
        lemma_on_chord(0x3d7e_647c, 70, 0x3d7d_5e8d, 0x3d85_5e8d, 0x428d_b839, 0x4291_6215, 71);
        lemma_near_70();
    } else {
        lemma_at_3d82d877();
        lemma_on_chord(0x3d82_d877, 70, 0x3d7d_5e8d, 0x3d85_5e8d, 0x428d_b839, 0x4291_6215, 71);
        lemma_at_3d82d878();
        lemma_on_chord(0x3d82_d878, 70, 0x3d7d_5e8d, 0x3d85_5e8d, 0x428d_b839, 0x4291_6215, 72);
        lemma_near_71();
    }
}

/// The codes 72 to 79.
proof fn lemma_edges_72_to_79(n: int)
    requires
        72 <= n <= 79,
    ensures
        0 < FAST_EDGES[n] < 0x3f80_0000,
        compress_u8_spec(FAST_EDGES[n]) == n,
        compress_u8_spec((FAST_EDGES[n] + 1) as u32) == n + 1,
        near_exact_edge(FAST_EDGES[n], n as nat),
{
    if n == 72 {
        lemma_at_3d8688cc();
        lemma_on_chord(0x3d86_88cc, 71, 0x3d85_5e8d, 0x3d8d_5e8d, 0x4291_6215, 0x4295_9e74, 72);
        lemma_at_3d8688cd();
        lemma_on_chord(0x3d86_88cd, 71, 0x3d85_5e8d, 0x3d8d_5e8d, 0x4291_6215, 0x4295_9e74, 73);
        lemma_near_72();
    } else if n == 73 {
        lemma_at_3d8a4fca();
        lemma_on_chord(0x3d8a_4fca, 71, 0x3d85_5e8d, 0x3d8d_5e8d, 0x4291_6215, 0x4295_9e74, 73);
        lemma_at_3d8a4fcb();
        lemma_on_chord(0x3d8a_4fcb, 71, 0x3d85_5e8d, 0x3d8d_5e8d, 0x4291_6215, 0x4295_9e74, 74);
        lemma_near_73();
    } else if n == 74 {
        lemma_at_3d8e1d38();
        lemma_on_chord(0x3d8e_1d38, 72, 0x3d8d_5e8d, 0x3d95_5e8d, 0x4295_9e74, 0x4299_b633, 74);
        lemma_at_3d8e1d39();
        lemma_on_chord(0x3d8e_1d39, 72, 0x3d8d_5e8d, 0x3d95_5e8d, 0x4295_9e74, 0x4299_b633, 75);
        lemma_near_74();
    } else if n == 75 {
        lemma_at_3d920602();
        lemma_on_chord(0x3d92_0602, 72, 0x3d8d_5e8d, 0x3d95_5e8d, 0x4295_9e74, 0x4299_b633, 75);
        lemma_at_3d920603();
        lemma_on_chord(0x3d92_0603, 72, 0x3d8d_5e8d, 0x3d95_5e8d, 0x4295_9e74, 0x4299_b633, 76);
        lemma_near_75();
    } else if n == 76 {
        lemma_at_3d95f33e();
        lemma_on_chord(0x3d95_f33e, 73, 0x3d95_5e8d, 0x3d9d_5e8d, 0x4299_b633, 0x429d_aea5, 76);
        lemma_at_3d95f33f();
        lemma_on_chord(0x3d95_f33f, 73, 0x3d95_5e8d, 0x3d9d_5e8d, 0x4299_b633, 0x429d_aea5, 77);
        lemma_near_76();
    } else if n == 77 {
        lemma_at_3d99fadb();
        lemma_on_chord(0x3d99_fadb, 73, 0x3d95_5e8d, 0x3d9d_5e8d, 0x4299_b633, 0x429d_aea5, 77);
        lemma_at_3d99fadc();
        lemma_on_chord(0x3d99_fadc, 73, 0x3d95_5e8d, 0x3d9d_5e8d, 0x4299_b633, 0x429d_aea5, 78);
        lemma_near_77();
    } else if n == 78 {
        lemma_at_3d9e0756();
        lemma_on_chord(0x3d9e_0756, 74, 0x3d9d_5e8d, 0x3da5_5e8d, 0x429d_aea5, 0x42a1_89c3, 78);
        lemma_at_3d9e0757();
        lemma_on_chord(0x3d9e_0757, 74, 0x3d9d_5e8d, 0x3da5_5e8d, 0x429d_aea5, 0x42a1_89c3, 79);
        lemma_near_78();
    } else {
        lemma_at_3da22d99();
        lemma_on_chord(0x3da2_2d99, 74, 0x3d9d_5e8d, 0x3da5_5e8d, 0x429d_aea5, 0x42a1_89c3, 79);
        lemma_at_3da22d9a();
        lemma_on_chord(0x3da2_2d9a, 74, 0x3d9d_5e8d, 0x3da5_5e8d, 0x429d_aea5, 0x42a1_89c3, 80);
        lemma_near_79();
    }
}

/// The codes 80 to 87.
proof fn lemma_edges_80_to_87(n: int)
    requires
        80 <= n <= 87,
    ensures
        0 < FAST_EDGES[n] < 0x3f80_0000,
        compress_u8_spec(FAST_EDGES[n]) == n,
        compress_u8_spec((FAST_EDGES[n] + 1) as u32) == n + 1,
        near_exact_edge(FAST_EDGES[n], n as nat),
{
    if n == 80 {
        lemma_at_3da65ad7();
        lemma_on_chord(0x3da6_5ad7, 75, 0x3da5_5e8d, 0x3dad_5e8d, 0x42a1_89c3, 0x42a5_498f, 80);
        lemma_at_3da65ad8();
        lemma_on_chord(0x3da6_5ad8, 75, 0x3da5_5e8d, 0x3dad_5e8d, 0x42a1_89c3, 0x42a5_498f, 81);
        lemma_near_80();
    } else if n == 81 {
        lemma_at_3daa9f56();
        lemma_on_chord(0x3daa_9f56, 75, 0x3da5_5e8d, 0x3dad_5e8d, 0x42a1_89c3, 0x42a5_498f, 81);
        lemma_at_3daa9f57();
        lemma_on_chord(0x3daa_9f57, 75, 0x3da5_5e8d, 0x3dad_5e8d, 0x42a1_89c3, 0x42a5_498f, 82);
        lemma_near_81();
    } else if n == 82 {
        lemma_at_3daeee8b();
        lemma_on_chord(0x3dae_ee8b, 76, 0x3dad_5e8d, 0x3db5_5e8d, 0x42a5_498f, 0x42a8_efaa, 82);
        lemma_at_3daeee8c();
        lemma_on_chord(0x3dae_ee8c, 76, 0x3dad_5e8d, 0x3db5_5e8d, 0x42a5_498f, 0x42a8_efaa, 83);
        lemma_near_82();
    } else if n == 83 {
        lemma_at_3db35116();
        lemma_on_chord(0x3db3_5116, 76, 0x3dad_5e8d, 0x3db5_5e8d, 0x42a5_498f, 0x42a8_efaa, 83);
        lemma_at_3db35117();
        lemma_on_chord(0x3db3_5117, 76, 0x3dad_5e8d, 0x3db5_5e8d, 0x42a5_498f, 0x42a8_efaa, 84);
        lemma_near_83();
    } else if n == 84 {
        lemma_at_3db7c4b3();
        lemma_on_chord(0x3db7_c4b3, 77, 0x3db5_5e8d, 0x3dbd_5e8d, 0x42a8_efaa, 0x42ac_7bd0, 84);
        lemma_at_3db7c4b4();
        lemma_on_chord(0x3db7_c4b4, 77, 0x3db5_5e8d, 0x3dbd_5e8d, 0x42a8_efaa, 0x42ac_7bd0, 85);
        lemma_near_84();
    } else if n == 85 {
        lemma_at_3dbc4755();
        lemma_on_chord(0x3dbc_4755, 77, 0x3db5_5e8d, 0x3dbd_5e8d, 0x42a8_efaa, 0x42ac_7bd0, 85);
        lemma_at_3dbc4756();
        lemma_on_chord(0x3dbc_4756, 77, 0x3db5_5e8d, 0x3dbd_5e8d, 0x42a8_efaa, 0x42ac_7bd0, 86);
        lemma_near_85();
    } else if n == 86 {
        lemma_at_3dc0dbae();
        lemma_on_chord(0x3dc0_dbae, 78, 0x3dbd_5e8d, 0x3dc5_5e8d, 0x42ac_7bd0, 0x42af_f5f2, 86);
        lemma_at_3dc0dbaf();
        lemma_on_chord(0x3dc0_dbaf, 78, 0x3dbd_5e8d, 0x3dc5_5e8d, 0x42ac_7bd0, 0x42af_f5f2, 87);
        lemma_near_86();
    } else {
        lemma_at_3dc57650();
        lemma_on_chord(0x3dc5_7650, 79, 0x3dc5_5e8d, 0x3dcd_5e8d, 0x42af_f5f2, 0x42b3_5847, 87);
        lemma_at_3dc57651();
        lemma_on_chord(0x3dc5_7651, 79, 0x3dc5_5e8d, 0x3dcd_5e8d, 0x42af_f5f2, 0x42b3_5847, 88);
        lemma_near_87();
    }
}

/// The codes 88 to 95.
proof fn lemma_edges_88_to_95(n: int)
    requires
        88 <= n <= 95,
    ensures
        0 < FAST_EDGES[n] < 0x3f80_0000,
        compress_u8_spec(FAST_EDGES[n]) == n,
        compress_u8_spec((FAST_EDGES[n] + 1) as u32) == n + 1,
        near_exact_edge(FAST_EDGES[n], n as nat),
{
    if n == 88 {
        lemma_at_3dca30ad();
        lemma_on_chord(0x3dca_30ad, 79, 0x3dc5_5e8d, 0x3dcd_5e8d, 0x42af_f5f2, 0x42b3_5847, 88);
        lemma_at_3dca30ae();
        lemma_on_chord(0x3dca_30ae, 79, 0x3dc5_5e8d, 0x3dcd_5e8d, 0x42af_f5f2, 0x42b3_5847, 89);
        lemma_near_88();
    } else if n == 89 {
        lemma_at_3dcef493();
        lemma_on_chord(0x3dce_f493, 80, 0x3dcd_5e8d, 0x3dd5_5e8d, 0x42b3_5847, 0x42b6_a643, 89);
        lemma_at_3dcef494();
        lemma_on_chord(0x3dce_f494, 80, 0x3dcd_5e8d, 0x3dd5_5e8d, 0x42b3_5847, 0x42b6_a643, 90);
        lemma_near_89();
    } else if n == 90 {
        lemma_at_3dd3cc0d();
        lemma_on_chord(0x3dd3_cc0d, 80, 0x3dcd_5e8d, 0x3dd5_5e8d, 0x42b3_5847, 0x42b6_a643, 90);
        lemma_at_3dd3cc0e();
        lemma_on_chord(0x3dd3_cc0e, 80, 0x3dcd_5e8d, 0x3dd5_5e8d, 0x42b3_5847, 0x42b6_a643, 91);
        lemma_near_90();
    } else if n == 91 {
        lemma_at_3dd8b253();
        lemma_on_chord(0x3dd8_b253, 81, 0x3dd5_5e8d, 0x3ddd_5e8d, 0x42b6_a643, 0x42b9_e58c, 91);
        lemma_at_3dd8b254();
        lemma_on_chord(0x3dd8_b254, 81, 0x3dd5_5e8d, 0x3ddd_5e8d, 0x42b6_a643, 0x42b9_e58c, 92);
        lemma_near_91();
    } else if n == 92 {
        lemma_at_3ddda163();
        lemma_on_chord(0x3ddd_a163, 82, 0x3ddd_5e8d, 0x3de5_5e8d, 0x42b9_e58c, 0x42bd_100a, 92);
        lemma_at_3ddda164();
        lemma_on_chord(0x3ddd_a164, 82, 0x3ddd_5e8d, 0x3de5_5e8d, 0x42b9_e58c, 0x42bd_100a, 93);
        lemma_near_92();
    } else if n == 93 {
        lemma_at_3de2af24();
        lemma_on_chord(0x3de2_af24, 82, 0x3ddd_5e8d, 0x3de5_5e8d, 0x42b9_e58c, 0x42bd_100a, 93);
        lemma_at_3de2af25();
        lemma_on_chord(0x3de2_af25, 82, 0x3ddd_5e8d, 0x3de5_5e8d, 0x42b9_e58c, 0x42bd_100a, 94);
        lemma_near_93();
    } else if n == 94 {
        lemma_at_3de7c6e5();
        lemma_on_chord(0x3de7_c6e5, 83, 0x3de5_5e8d, 0x3ded_5e8d, 0x42bd_100a, 0x42c0_2d61, 94);
        lemma_at_3de7c6e6();
        lemma_on_chord(0x3de7_c6e6, 83, 0x3de5_5e8d, 0x3ded_5e8d, 0x42bd_100a, 0x42c0_2d61, 95);
        lemma_near_94();
    } else {
        lemma_at_3dece9fc();
        lemma_on_chord(0x3dec_e9fc, 83, 0x3de5_5e8d, 0x3ded_5e8d, 0x42bd_100a, 0x42c0_2d61, 95);
        lemma_at_3dece9fd();
        lemma_on_chord(0x3dec_e9fd, 83, 0x3de5_5e8d, 0x3ded_5e8d, 0x42bd_100a, 0x42c0_2d61, 96);
        lemma_near_95();
    }
}

/// The codes 96 to 103.
proof fn lemma_edges_96_to_103(n: int)
    requires
        96 <= n <= 103,
    ensures
        0 < FAST_EDGES[n] < 0x3f80_0000,
        compress_u8_spec(FAST_EDGES[n]) == n,
        compress_u8_spec((FAST_EDGES[n] + 1) as u32) == n + 1,
        near_exact_edge(FAST_EDGES[n], n as nat),
{
    if n == 96 {
        lemma_at_3df2389b();
        lemma_on_chord(0x3df2_389b, 84, 0x3ded_5e8d, 0x3df5_5e8d, 0x42c0_2d61, 0x42c3_2ec7, 96);
        lemma_at_3df2389c();
        lemma_on_chord(0x3df2_389c, 84, 0x3ded_5e8d, 0x3df5_5e8d, 0x42c0_2d61, 0x42c3_2ec7, 97);
        lemma_near_96();
    } else if n == 97 {
        lemma_at_3df78640();
        lemma_on_chord(0x3df7_8640, 85, 0x3df5_5e8d, 0x3dfd_5e8d, 0x42c3_2ec7, 0x42c6_3770, 97);
        lemma_at_3df78641();
        lemma_on_chord(0x3df7_8641, 85, 0x3df5_5e8d, 0x3dfd_5e8d, 0x42c3_2ec7, 0x42c6_3770, 98);
        lemma_near_97();
    } else if n == 98 {
        lemma_at_3dfccc5c();
        lemma_on_chord(0x3dfc_cc5c, 85, 0x3df5_5e8d, 0x3dfd_5e8d, 0x42c3_2ec7, 0x42c6_3770, 98);
        lemma_at_3dfccc5d();
        lemma_on_chord(0x3dfc_cc5d, 85, 0x3df5_5e8d, 0x3dfd_5e8d, 0x42c3_2ec7, 0x42c6_3770, 99);
        lemma_near_98();
    } else if n == 99 {
        lemma_at_3e011feb();
        lemma_on_chord(0x3e01_1feb, 86, 0x3dfd_5e8d, 0x3e05_5e8d, 0x42c6_3770, 0x42cb_1a3a, 99);
        lemma_at_3e011fec();
        lemma_on_chord(0x3e01_1fec, 86, 0x3dfd_5e8d, 0x3e05_5e8d, 0x42c6_3770, 0x42cb_1a3a, 100);
        lemma_near_99();
    } else if n == 100 {
        lemma_at_3e03dc6a();
        lemma_on_chord(0x3e03_dc6a, 86, 0x3dfd_5e8d, 0x3e05_5e8d, 0x42c6_3770, 0x42cb_1a3a, 100);
        lemma_at_3e03dc6b();
        lemma_on_chord(0x3e03_dc6b, 86, 0x3dfd_5e8d, 0x3e05_5e8d, 0x42c6_3770, 0x42cb_1a3a, 101);
        lemma_near_100();
    } else if n == 101 {
        lemma_at_3e06a3fe();
        lemma_on_chord(0x3e06_a3fe, 87, 0x3e05_5e8d, 0x3e0d_5e8d, 0x42cb_1a3a, 0x42d0_c02d, 101);
        lemma_at_3e06a3ff();
        lemma_on_chord(0x3e06_a3ff, 87, 0x3e05_5e8d, 0x3e0d_5e8d, 0x42cb_1a3a, 0x42d0_c02d, 102);
        lemma_near_101();
    } else if n == 102 {
        lemma_at_3e09792c();
        lemma_on_chord(0x3e09_792c, 87, 0x3e05_5e8d, 0x3e0d_5e8d, 0x42cb_1a3a, 0x42d0_c02d, 102);
        lemma_at_3e09792d();
        lemma_on_chord(0x3e09_792d, 87, 0x3e05_5e8d, 0x3e0d_5e8d, 0x42cb_1a3a, 0x42d0_c02d, 103);
        lemma_near_102();
    } else {
        lemma_at_3e0c4e5b();
        lemma_on_chord(0x3e0c_4e5b, 87, 0x3e05_5e8d, 0x3e0d_5e8d, 0x42cb_1a3a, 0x42d0_c02d, 103);
        lemma_at_3e0c4e5c();
        lemma_on_chord(0x3e0c_4e5c, 87, 0x3e05_5e8d, 0x3e0d_5e8d, 0x42cb_1a3a, 0x42d0_c02d, 104);
        lemma_near_103();
    }
}

/// The codes 104 to 111.
proof fn lemma_edges_104_to_111(n: int)
    requires
        104 <= n <= 111,
    ensures
        0 < FAST_EDGES[n] < 0x3f80_0000,
        compress_u8_spec(FAST_EDGES[n]) == n,
        compress_u8_spec((FAST_EDGES[n] + 1) as u32) == n + 1,
        near_exact_edge(FAST_EDGES[n], n as nat),
{
    if n == 104 {
        lemma_at_3e0f326e();
        lemma_on_chord(0x3e0f_326e, 88, 0x3e0d_5e8d, 0x3e15_5e8d, 0x42d0_c02d, 0x42d6_3819, 104);
        lemma_at_3e0f326f();
        lemma_on_chord(0x3e0f_326f, 88, 0x3e0d_5e8d, 0x3e15_5e8d, 0x42d0_c02d, 0x42d6_3819, 105);
        lemma_near_104();
    } else if n == 105 {
        lemma_at_3e121f74();
        lemma_on_chord(0x3e12_1f74, 88, 0x3e0d_5e8d, 0x3e15_5e8d, 0x42d0_c02d, 0x42d6_3819, 105);
        lemma_at_3e121f75();
        lemma_on_chord(0x3e12_1f75, 88, 0x3e0d_5e8d, 0x3e15_5e8d, 0x42d0_c02d, 0x42d6_3819, 106);
        lemma_near_105();
    } else if n == 106 {
        lemma_at_3e150c7a();
        lemma_on_chord(0x3e15_0c7a, 88, 0x3e0d_5e8d, 0x3e15_5e8d, 0x42d0_c02d, 0x42d6_3819, 106);
        lemma_at_3e150c7b();
        lemma_on_chord(0x3e15_0c7b, 88, 0x3e0d_5e8d, 0x3e15_5e8d, 0x42d0_c02d, 0x42d6_3819, 107);
        lemma_near_106();
    } else if n == 107 {
        lemma_at_3e180df3();
        lemma_on_chord(0x3e18_0df3, 89, 0x3e15_5e8d, 0x3e1d_5e8d, 0x42d6_3819, 0x42db_8661, 107);
        lemma_at_3e180df4();
        lemma_on_chord(0x3e18_0df4, 89, 0x3e15_5e8d, 0x3e1d_5e8d, 0x42d6_3819, 0x42db_8661, 108);
        lemma_near_107();
    } else if n == 108 {
        lemma_at_3e1b11f0();
        lemma_on_chord(0x3e1b_11f0, 89, 0x3e15_5e8d, 0x3e1d_5e8d, 0x42d6_3819, 0x42db_8661, 108);
        lemma_at_3e1b11f1();
        lemma_on_chord(0x3e1b_11f1, 89, 0x3e15_5e8d, 0x3e1d_5e8d, 0x42d6_3819, 0x42db_8661, 109);
        lemma_near_108();
    } else if n == 109 {
        lemma_at_3e1e1ba9();
        lemma_on_chord(0x3e1e_1ba9, 90, 0x3e1d_5e8d, 0x3e25_5e8d, 0x42db_8661, 0x42e0_ab74, 109);
        lemma_at_3e1e1baa();
        lemma_on_chord(0x3e1e_1baa, 90, 0x3e1d_5e8d, 0x3e25_5e8d, 0x42db_8661, 0x42e0_ab74, 110);
        lemma_near_109();
    } else if n == 110 {
        lemma_at_3e2137cd();
        lemma_on_chord(0x3e21_37cd, 90, 0x3e1d_5e8d, 0x3e25_5e8d, 0x42db_8661, 0x42e0_ab74, 110);
        lemma_at_3e2137ce();
        lemma_on_chord(0x3e21_37ce, 90, 0x3e1d_5e8d, 0x3e25_5e8d, 0x42db_8661, 0x42e0_ab74, 111);
        lemma_near_110();
    } else {
        lemma_at_3e2453f1();
        lemma_on_chord(0x3e24_53f1, 90, 0x3e1d_5e8d, 0x3e25_5e8d, 0x42db_8661, 0x42e0_ab74, 111);
        lemma_at_3e2453f2();
        lemma_on_chord(0x3e24_53f2, 90, 0x3e1d_5e8d, 0x3e25_5e8d, 0x42db_8661, 0x42e0_ab74, 112);
        lemma_near_111();
    }
}

/// The codes 112 to 119.
proof fn lemma_edges_112_to_119(n: int)
    requires
        112 <= n <= 119,
    ensures
        0 < FAST_EDGES[n] < 0x3f80_0000,
        compress_u8_spec(FAST_EDGES[n]) == n,
        compress_u8_spec((FAST_EDGES[n] + 1) as u32) == n + 1,
        near_exact_edge(FAST_EDGES[n], n as nat),
{
    if n == 112 {
        lemma_at_3e277eb7();
        lemma_on_chord(0x3e27_7eb7, 91, 0x3e25_5e8d, 0x3e2d_5e8d, 0x42e0_ab74, 0x42e5_ad1e, 112);
        lemma_at_3e277eb8();
        lemma_on_chord(0x3e27_7eb8, 91, 0x3e25_5e8d, 0x3e2d_5e8d, 0x42e0_ab74, 0x42e5_ad1e, 113);
        lemma_near_112();
    } else if n == 113 {
        lemma_at_3e2ab0d9();
        lemma_on_chord(0x3e2a_b0d9, 91, 0x3e25_5e8d, 0x3e2d_5e8d, 0x42e0_ab74, 0x42e5_ad1e, 113);
        lemma_at_3e2ab0da();
        lemma_on_chord(0x3e2a_b0da, 91, 0x3e25_5e8d, 0x3e2d_5e8d, 0x42e0_ab74, 0x42e5_ad1e, 114);
        lemma_near_113();
    } else if n == 114 {
        lemma_at_3e2de6cf();
        lemma_on_chord(0x3e2d_e6cf, 92, 0x3e2d_5e8d, 0x3e35_5e8d, 0x42e5_ad1e, 0x42ea_8ad8, 114);
        lemma_at_3e2de6d0();
        lemma_on_chord(0x3e2d_e6d0, 92, 0x3e2d_5e8d, 0x3e35_5e8d, 0x42e5_ad1e, 0x42ea_8ad8, 115);
        lemma_near_114();
    } else if n == 115 {
        lemma_at_3e31308c();
        lemma_on_chord(0x3e31_308c, 92, 0x3e2d_5e8d, 0x3e35_5e8d, 0x42e5_ad1e, 0x42ea_8ad8, 115);
        lemma_at_3e31308d();
        lemma_on_chord(0x3e31_308d, 92, 0x3e2d_5e8d, 0x3e35_5e8d, 0x42e5_ad1e, 0x42ea_8ad8, 116);
        lemma_near_115();
    } else if n == 116 {
        lemma_at_3e347a49();
        lemma_on_chord(0x3e34_7a49, 92, 0x3e2d_5e8d, 0x3e35_5e8d, 0x42e5_ad1e, 0x42ea_8ad8, 116);
        lemma_at_3e347a4a();
        lemma_on_chord(0x3e34_7a4a, 92, 0x3e2d_5e8d, 0x3e35_5e8d, 0x42e5_ad1e, 0x42ea_8ad8, 117);
        lemma_near_116();
    } else if n == 117 {
        lemma_at_3e37d2eb();
        lemma_on_chord(0x3e37_d2eb, 93, 0x3e35_5e8d, 0x3e3d_5e8d, 0x42ea_8ad8, 0x42ef_4b0a, 117);
        lemma_at_3e37d2ec();
        lemma_on_chord(0x3e37_d2ec, 93, 0x3e35_5e8d, 0x3e3d_5e8d, 0x42ea_8ad8, 0x42ef_4b0a, 118);
        lemma_near_117();
    } else if n == 118 {
        lemma_at_3e3b3118();
        lemma_on_chord(0x3e3b_3118, 93, 0x3e35_5e8d, 0x3e3d_5e8d, 0x42ea_8ad8, 0x42ef_4b0a, 118);
        lemma_at_3e3b3119();
        lemma_on_chord(0x3e3b_3119, 93, 0x3e35_5e8d, 0x3e3d_5e8d, 0x42ea_8ad8, 0x42ef_4b0a, 119);
        lemma_near_118();
    } else {
        lemma_at_3e3e972c();
        lemma_on_chord(0x3e3e_972c, 94, 0x3e3d_5e8d, 0x3e45_5e8d, 0x42ef_4b0a, 0x42f3_ec80, 119);
        lemma_at_3e3e972d();
        lemma_on_chord(0x3e3e_972d, 94, 0x3e3d_5e8d, 0x3e45_5e8d, 0x42ef_4b0a, 0x42f3_ec80, 120);
        lemma_near_119();
    }
}

/// The codes 120 to 127.
proof fn lemma_edges_120_to_127(n: int)
    requires
        120 <= n <= 127,
    ensures
        0 < FAST_EDGES[n] < 0x3f80_0000,
        compress_u8_spec(FAST_EDGES[n]) == n,
        compress_u8_spec((FAST_EDGES[n] + 1) as u32) == n + 1,
        near_exact_edge(FAST_EDGES[n], n as nat),
{
    if n == 120 {
        lemma_at_3e420bb4();
        lemma_on_chord(0x3e42_0bb4, 94, 0x3e3d_5e8d, 0x3e45_5e8d, 0x42ef_4b0a, 0x42f3_ec80, 120);
        lemma_at_3e420bb5();
        lemma_on_chord(0x3e42_0bb5, 94, 0x3e3d_5e8d, 0x3e45_5e8d, 0x42ef_4b0a, 0x42f3_ec80, 121);
        lemma_near_120();
    } else if n == 121 {
        lemma_at_3e458111();
        lemma_on_chord(0x3e45_8111, 95, 0x3e45_5e8d, 0x3e4d_5e8d, 0x42f3_ec80, 0x42f8_7167, 121);
        lemma_at_3e458112();
        lemma_on_chord(0x3e45_8112, 95, 0x3e45_5e8d, 0x3e4d_5e8d, 0x42f3_ec80, 0x42f8_7167, 122);
        lemma_near_121();
    } else if n == 122 {
        lemma_at_3e490b6e();
        lemma_on_chord(0x3e49_0b6e, 95, 0x3e45_5e8d, 0x3e4d_5e8d, 0x42f3_ec80, 0x42f8_7167, 122);
        lemma_at_3e490b6f();
        lemma_on_chord(0x3e49_0b6f, 95, 0x3e45_5e8d, 0x3e4d_5e8d, 0x42f3_ec80, 0x42f8_7167, 123);
        lemma_near_122();
    } else if n == 123 {
        lemma_at_3e4c95cc();
        lemma_on_chord(0x3e4c_95cc, 95, 0x3e45_5e8d, 0x3e4d_5e8d, 0x42f3_ec80, 0x42f8_7167, 123);
        lemma_at_3e4c95cd();
        lemma_on_chord(0x3e4c_95cd, 95, 0x3e45_5e8d, 0x3e4d_5e8d, 0x42f3_ec80, 0x42f8_7167, 124);
        lemma_near_123();
    } else if n == 124 {
        lemma_at_3e502fcf();
        lemma_on_chord(0x3e50_2fcf, 96, 0x3e4d_5e8d, 0x3e55_5e8d, 0x42f8_7167, 0x42fc_dd34, 124);
        lemma_at_3e502fd0();
        lemma_on_chord(0x3e50_2fd0, 96, 0x3e4d_5e8d, 0x3e55_5e8d, 0x42f8_7167, 0x42fc_dd34, 125);
        lemma_near_124();
    } else if n == 125 {
        lemma_at_3e53ce47();
        lemma_on_chord(0x3e53_ce47, 96, 0x3e4d_5e8d, 0x3e55_5e8d, 0x42f8_7167, 0x42fc_dd34, 125);
        lemma_at_3e53ce48();
        lemma_on_chord(0x3e53_ce48, 96, 0x3e4d_5e8d, 0x3e55_5e8d, 0x42f8_7167, 0x42fc_dd34, 126);
        lemma_near_125();
    } else if n == 126 {
        lemma_at_3e577860();
        lemma_on_chord(0x3e57_7860, 97, 0x3e55_5e8d, 0x3e5d_5e8d, 0x42fc_dd34, 0x4300_9843, 126);
        lemma_at_3e577861();
        lemma_on_chord(0x3e57_7861, 97, 0x3e55_5e8d, 0x3e5d_5e8d, 0x42fc_dd34, 0x4300_9843, 127);
        lemma_near_126();
    } else {
        lemma_at_3e5b2b53();
        lemma_on_chord(0x3e5b_2b53, 97, 0x3e55_5e8d, 0x3e5d_5e8d, 0x42fc_dd34, 0x4300_9843, 127);
        lemma_at_3e5b2b54();
        lemma_on_chord(0x3e5b_2b54, 97, 0x3e55_5e8d, 0x3e5d_5e8d, 0x42fc_dd34, 0x4300_9843, 128);
        lemma_near_127();
    }
}

/// The codes 128 to 135.
proof fn lemma_edges_128_to_135(n: int)
    requires
        128 <= n <= 135,
    ensures
        0 < FAST_EDGES[n] < 0x3f80_0000,
        compress_u8_spec(FAST_EDGES[n]) == n,
        compress_u8_spec((FAST_EDGES[n] + 1) as u32) == n + 1,
        near_exact_edge(FAST_EDGES[n], n as nat),
{
    if n == 128 {
        lemma_at_3e5ee5e5();
        lemma_on_chord(0x3e5e_e5e5, 98, 0x3e5d_5e8d, 0x3e65_5e8d, 0x4300_9843, 0x4302_b723, 128);
        lemma_at_3e5ee5e6();
        lemma_on_chord(0x3e5e_e5e6, 98, 0x3e5d_5e8d, 0x3e65_5e8d, 0x4300_9843, 0x4302_b723, 129);
        lemma_near_128();
    } else if n == 129 {
        lemma_at_3e62aba8();
        lemma_on_chord(0x3e62_aba8, 98, 0x3e5d_5e8d, 0x3e65_5e8d, 0x4300_9843, 0x4302_b723, 129);
        lemma_at_3e62aba9();
        lemma_on_chord(0x3e62_aba9, 98, 0x3e5d_5e8d, 0x3e65_5e8d, 0x4300_9843, 0x4302_b723, 130);
        lemma_near_129();
    } else if n == 130 {
        lemma_at_3e66777f();
        lemma_on_chord(0x3e66_777f, 99, 0x3e65_5e8d, 0x3e6d_5e8d, 0x4302_b723, 0x4304_ca44, 130);
        lemma_at_3e667780();
        lemma_on_chord(0x3e66_7780, 99, 0x3e65_5e8d, 0x3e6d_5e8d, 0x4302_b723, 0x4304_ca44, 131);
        lemma_near_130();
    } else if n == 131 {
        lemma_at_3e6a529e();
        lemma_on_chord(0x3e6a_529e, 99, 0x3e65_5e8d, 0x3e6d_5e8d, 0x4302_b723, 0x4304_ca44, 131);
        lemma_at_3e6a529f();
        lemma_on_chord(0x3e6a_529f, 99, 0x3e65_5e8d, 0x3e6d_5e8d, 0x4302_b723, 0x4304_ca44, 132);
        lemma_near_131();
    } else if n == 132 {
        lemma_at_3e6e31fc();
        lemma_on_chord(0x3e6e_31fc, 100, 0x3e6d_5e8d, 0x3e75_5e8d, 0x4304_ca44, 0x4306_d2b9, 132);
        lemma_at_3e6e31fd();
        lemma_on_chord(0x3e6e_31fd, 100, 0x3e6d_5e8d, 0x3e75_5e8d, 0x4304_ca44, 0x4306_d2b9, 133);
        lemma_near_132();
    } else if n == 133 {
        lemma_at_3e722159();
        lemma_on_chord(0x3e72_2159, 100, 0x3e6d_5e8d, 0x3e75_5e8d, 0x4304_ca44, 0x4306_d2b9, 133);
        lemma_at_3e72215a();
        lemma_on_chord(0x3e72_215a, 100, 0x3e6d_5e8d, 0x3e75_5e8d, 0x4304_ca44, 0x4306_d2b9, 134);
        lemma_near_133();
    } else if n == 134 {
        lemma_at_3e761414();
        lemma_on_chord(0x3e76_1414, 101, 0x3e75_5e8d, 0x3e7d_5e8d, 0x4306_d2b9, 0x4308_d183, 134);
        lemma_at_3e761415();
        lemma_on_chord(0x3e76_1415, 101, 0x3e75_5e8d, 0x3e7d_5e8d, 0x4306_d2b9, 0x4308_d183, 135);
        lemma_near_134();
    } else {
        lemma_at_3e7a1682();
        lemma_on_chord(0x3e7a_1682, 101, 0x3e75_5e8d, 0x3e7d_5e8d, 0x4306_d2b9, 0x4308_d183, 135);
        lemma_at_3e7a1683();
        lemma_on_chord(0x3e7a_1683, 101, 0x3e75_5e8d, 0x3e7d_5e8d, 0x4306_d2b9, 0x4308_d183, 136);
        lemma_near_135();
    }
}

/// The codes 136 to 143.
proof fn lemma_edges_136_to_143(n: int)
    requires
        136 <= n <= 143,
    ensures
        0 < FAST_EDGES[n] < 0x3f80_0000,
        compress_u8_spec(FAST_EDGES[n]) == n,
        compress_u8_spec((FAST_EDGES[n] + 1) as u32) == n + 1,
        near_exact_edge(FAST_EDGES[n], n as nat),
{
    if n == 136 {
        lemma_at_3e7e1d51();
        lemma_on_chord(0x3e7e_1d51, 102, 0x3e7d_5e8d, 0x3e85_5e8d, 0x4308_d183, 0x430c_1384, 136);
        lemma_at_3e7e1d52();
        lemma_on_chord(0x3e7e_1d52, 102, 0x3e7d_5e8d, 0x3e85_5e8d, 0x4308_d183, 0x430c_1384, 137);
        lemma_near_136();
    } else if n == 137 {
        lemma_at_3e811bf0();
        lemma_on_chord(0x3e81_1bf0, 102, 0x3e7d_5e8d, 0x3e85_5e8d, 0x4308_d183, 0x430c_1384, 137);
        lemma_at_3e811bf1();
        lemma_on_chord(0x3e81_1bf1, 102, 0x3e7d_5e8d, 0x3e85_5e8d, 0x4308_d183, 0x430c_1384, 138);
        lemma_near_137();
    } else if n == 138 {
        lemma_at_3e832938();
        lemma_on_chord(0x3e83_2938, 102, 0x3e7d_5e8d, 0x3e85_5e8d, 0x4308_d183, 0x430c_1384, 138);
        lemma_at_3e832939();
        lemma_on_chord(0x3e83_2939, 102, 0x3e7d_5e8d, 0x3e85_5e8d, 0x4308_d183, 0x430c_1384, 139);
        lemma_near_138();
    } else if n == 139 {
        lemma_at_3e853680();
        lemma_on_chord(0x3e85_3680, 102, 0x3e7d_5e8d, 0x3e85_5e8d, 0x4308_d183, 0x430c_1384, 139);
        lemma_at_3e853681();
        lemma_on_chord(0x3e85_3681, 102, 0x3e7d_5e8d, 0x3e85_5e8d, 0x4308_d183, 0x430c_1384, 140);
        lemma_near_139();
    } else if n == 140 {
        lemma_at_3e8753d7();
        lemma_on_chord(0x3e87_53d7, 103, 0x3e85_5e8d, 0x3e8d_5e8d, 0x430c_1384, 0x430f_d9a7, 140);
        lemma_at_3e8753d8();
        lemma_on_chord(0x3e87_53d8, 103, 0x3e85_5e8d, 0x3e8d_5e8d, 0x430c_1384, 0x430f_d9a7, 141);
        lemma_near_140();
    } else if n == 141 {
        lemma_at_3e897281();
        lemma_on_chord(0x3e89_7281, 103, 0x3e85_5e8d, 0x3e8d_5e8d, 0x430c_1384, 0x430f_d9a7, 141);
        lemma_at_3e897282();
        lemma_on_chord(0x3e89_7282, 103, 0x3e85_5e8d, 0x3e8d_5e8d, 0x430c_1384, 0x430f_d9a7, 142);
        lemma_near_141();
    } else if n == 142 {
        lemma_at_3e8b912b();
        lemma_on_chord(0x3e8b_912b, 103, 0x3e85_5e8d, 0x3e8d_5e8d, 0x430c_1384, 0x430f_d9a7, 142);
        lemma_at_3e8b912c();
        lemma_on_chord(0x3e8b_912c, 103, 0x3e85_5e8d, 0x3e8d_5e8d, 0x430c_1384, 0x430f_d9a7, 143);
        lemma_near_142();
    } else {
        lemma_at_3e8db27e();
        lemma_on_chord(0x3e8d_b27e, 104, 0x3e8d_5e8d, 0x3e95_5e8d, 0x430f_d9a7, 0x4313_8132, 143);
        lemma_at_3e8db27f();
        lemma_on_chord(0x3e8d_b27f, 104, 0x3e8d_5e8d, 0x3e95_5e8d, 0x430f_d9a7, 0x4313_8132, 144);
        lemma_near_143();
    }
}

/// The codes 144 to 151.
proof fn lemma_edges_144_to_151(n: int)
    requires
        144 <= n <= 151,
    ensures
        0 < FAST_EDGES[n] < 0x3f80_0000,
        compress_u8_spec(FAST_EDGES[n]) == n,
        compress_u8_spec((FAST_EDGES[n] + 1) as u32) == n + 1,
        near_exact_edge(FAST_EDGES[n], n as nat),
{
    if n == 144 {
        lemma_at_3e8fe2e7();
        lemma_on_chord(0x3e8f_e2e7, 104, 0x3e8d_5e8d, 0x3e95_5e8d, 0x430f_d9a7, 0x4313_8132, 144);
        lemma_at_3e8fe2e8();
        lemma_on_chord(0x3e8f_e2e8, 104, 0x3e8d_5e8d, 0x3e95_5e8d, 0x430f_d9a7, 0x4313_8132, 145);
        lemma_near_144();
    } else if n == 145 {
        lemma_at_3e921350();
        lemma_on_chord(0x3e92_1350, 104, 0x3e8d_5e8d, 0x3e95_5e8d, 0x430f_d9a7, 0x4313_8132, 145);
        lemma_at_3e921351();
        lemma_on_chord(0x3e92_1351, 104, 0x3e8d_5e8d, 0x3e95_5e8d, 0x430f_d9a7, 0x4313_8132, 146);
        lemma_near_145();
    } else if n == 146 {
        lemma_at_3e9443b9();
        lemma_on_chord(0x3e94_43b9, 104, 0x3e8d_5e8d, 0x3e95_5e8d, 0x430f_d9a7, 0x4313_8132, 146);
        lemma_at_3e9443ba();
        lemma_on_chord(0x3e94_43ba, 104, 0x3e8d_5e8d, 0x3e95_5e8d, 0x430f_d9a7, 0x4313_8132, 147);
        lemma_near_146();
    } else if n == 147 {
        lemma_at_3e967d80();
        lemma_on_chord(0x3e96_7d80, 105, 0x3e95_5e8d, 0x3e9d_5e8d, 0x4313_8132, 0x4317_0a33, 147);
        lemma_at_3e967d81();
        lemma_on_chord(0x3e96_7d81, 105, 0x3e95_5e8d, 0x3e9d_5e8d, 0x4313_8132, 0x4317_0a33, 148);
        lemma_near_147();
    } else if n == 148 {
        lemma_at_3e98c0d2();
        lemma_on_chord(0x3e98_c0d2, 105, 0x3e95_5e8d, 0x3e9d_5e8d, 0x4313_8132, 0x4317_0a33, 148);
        lemma_at_3e98c0d3();
        lemma_on_chord(0x3e98_c0d3, 105, 0x3e95_5e8d, 0x3e9d_5e8d, 0x4313_8132, 0x4317_0a33, 149);
        lemma_near_148();
    } else if n == 149 {
        lemma_at_3e9b0424();
        lemma_on_chord(0x3e9b_0424, 105, 0x3e95_5e8d, 0x3e9d_5e8d, 0x4313_8132, 0x4317_0a33, 149);
        lemma_at_3e9b0425();
        lemma_on_chord(0x3e9b_0425, 105, 0x3e95_5e8d, 0x3e9d_5e8d, 0x4313_8132, 0x4317_0a33, 150);
        lemma_near_149();
    } else if n == 150 {
        lemma_at_3e9d4777();
        lemma_on_chord(0x3e9d_4777, 105, 0x3e95_5e8d, 0x3e9d_5e8d, 0x4313_8132, 0x4317_0a33, 150);
        lemma_at_3e9d4778();
        lemma_on_chord(0x3e9d_4778, 105, 0x3e95_5e8d, 0x3e9d_5e8d, 0x4313_8132, 0x4317_0a33, 151);
        lemma_near_150();
    } else {
        lemma_at_3e9f9a64();
        lemma_on_chord(0x3e9f_9a64, 106, 0x3e9d_5e8d, 0x3ea5_5e8d, 0x4317_0a33, 0x431a_7a82, 151);
        lemma_at_3e9f9a65();
        lemma_on_chord(0x3e9f_9a65, 106, 0x3e9d_5e8d, 0x3ea5_5e8d, 0x4317_0a33, 0x431a_7a82, 152);
        lemma_near_151();
    }
}

/// The codes 152 to 159.
proof fn lemma_edges_152_to_159(n: int)
    requires
        152 <= n <= 159,
    ensures
        0 < FAST_EDGES[n] < 0x3f80_0000,
        compress_u8_spec(FAST_EDGES[n]) == n,
        compress_u8_spec((FAST_EDGES[n] + 1) as u32) == n + 1,
        near_exact_edge(FAST_EDGES[n], n as nat),
{
    if n == 152 {
        lemma_at_3ea1edf6();
        lemma_on_chord(0x3ea1_edf6, 106, 0x3e9d_5e8d, 0x3ea5_5e8d, 0x4317_0a33, 0x431a_7a82, 152);
        lemma_at_3ea1edf7();
        lemma_on_chord(0x3ea1_edf7, 106, 0x3e9d_5e8d, 0x3ea5_5e8d, 0x4317_0a33, 0x431a_7a82, 153);
        lemma_near_152();
    } else if n == 153 {
        lemma_at_3ea44189();
        lemma_on_chord(0x3ea4_4189, 106, 0x3e9d_5e8d, 0x3ea5_5e8d, 0x4317_0a33, 0x431a_7a82, 153);
        lemma_at_3ea4418a();
        lemma_on_chord(0x3ea4_418a, 106, 0x3e9d_5e8d, 0x3ea5_5e8d, 0x4317_0a33, 0x431a_7a82, 154);
        lemma_near_153();
    } else if n == 154 {
        lemma_at_3ea69eb5();
        lemma_on_chord(0x3ea6_9eb5, 107, 0x3ea5_5e8d, 0x3ead_5e8d, 0x431a_7a82, 0x431d_d06c, 154);
        lemma_at_3ea69eb6();
        lemma_on_chord(0x3ea6_9eb6, 107, 0x3ea5_5e8d, 0x3ead_5e8d, 0x431a_7a82, 0x431d_d06c, 155);
        lemma_near_154();
    } else if n == 155 {
        lemma_at_3ea904b1();
        lemma_on_chord(0x3ea9_04b1, 107, 0x3ea5_5e8d, 0x3ead_5e8d, 0x431a_7a82, 0x431d_d06c, 155);
        lemma_at_3ea904b2();
        lemma_on_chord(0x3ea9_04b2, 107, 0x3ea5_5e8d, 0x3ead_5e8d, 0x431a_7a82, 0x431d_d06c, 156);
        lemma_near_155();
    } else if n == 156 {
        lemma_at_3eab6aac();
        lemma_on_chord(0x3eab_6aac, 107, 0x3ea5_5e8d, 0x3ead_5e8d, 0x431a_7a82, 0x431d_d06c, 156);
        lemma_at_3eab6aad();
        lemma_on_chord(0x3eab_6aad, 107, 0x3ea5_5e8d, 0x3ead_5e8d, 0x431a_7a82, 0x431d_d06c, 157);
        lemma_near_156();
    } else if n == 157 {
        lemma_at_3eadd3a2();
        lemma_on_chord(0x3ead_d3a2, 108, 0x3ead_5e8d, 0x3eb5_5e8d, 0x431d_d06c, 0x4321_109e, 157);
        lemma_at_3eadd3a3();
        lemma_on_chord(0x3ead_d3a3, 108, 0x3ead_5e8d, 0x3eb5_5e8d, 0x431d_d06c, 0x4321_109e, 158);
        lemma_near_157();
    } else if n == 158 {
        lemma_at_3eb049a3();
        lemma_on_chord(0x3eb0_49a3, 108, 0x3ead_5e8d, 0x3eb5_5e8d, 0x431d_d06c, 0x4321_109e, 158);
        lemma_at_3eb049a4();
        lemma_on_chord(0x3eb0_49a4, 108, 0x3ead_5e8d, 0x3eb5_5e8d, 0x431d_d06c, 0x4321_109e, 159);
        lemma_near_158();
    } else {
        lemma_at_3eb2bfa5();
        lemma_on_chord(0x3eb2_bfa5, 108, 0x3ead_5e8d, 0x3eb5_5e8d, 0x431d_d06c, 0x4321_109e, 159);
        lemma_at_3eb2bfa6();
        lemma_on_chord(0x3eb2_bfa6, 108, 0x3ead_5e8d, 0x3eb5_5e8d, 0x431d_d06c, 0x4321_109e, 160);
        lemma_near_159();
    }
}

/// The codes 160 to 167.
proof fn lemma_edges_160_to_167(n: int)
    requires
        160 <= n <= 167,
    ensures
        0 < FAST_EDGES[n] < 0x3f80_0000,
        compress_u8_spec(FAST_EDGES[n]) == n,
        compress_u8_spec((FAST_EDGES[n] + 1) as u32) == n + 1,
        near_exact_edge(FAST_EDGES[n], n as nat),
{
    if n == 160 {
        lemma_at_3eb535a6();
        lemma_on_chord(0x3eb5_35a6, 108, 0x3ead_5e8d, 0x3eb5_5e8d, 0x431d_d06c, 0x4321_109e, 160);
        lemma_at_3eb535a7();
        lemma_on_chord(0x3eb5_35a7, 108, 0x3ead_5e8d, 0x3eb5_5e8d, 0x431d_d06c, 0x4321_109e, 161);
        lemma_near_160();
    } else if n == 161 {
        lemma_at_3eb7badc();
        lemma_on_chord(0x3eb7_badc, 109, 0x3eb5_5e8d, 0x3ebd_5e8d, 0x4321_109e, 0x4324_3be0, 161);
        lemma_at_3eb7badd();
        lemma_on_chord(0x3eb7_badd, 109, 0x3eb5_5e8d, 0x3ebd_5e8d, 0x4321_109e, 0x4324_3be0, 162);
        lemma_near_161();
    } else if n == 162 {
        lemma_at_3eba4120();
        lemma_on_chord(0x3eba_4120, 109, 0x3eb5_5e8d, 0x3ebd_5e8d, 0x4321_109e, 0x4324_3be0, 162);
        lemma_at_3eba4121();
        lemma_on_chord(0x3eba_4121, 109, 0x3eb5_5e8d, 0x3ebd_5e8d, 0x4321_109e, 0x4324_3be0, 163);
        lemma_near_162();
    } else if n == 163 {
        lemma_at_3ebcc764();
        lemma_on_chord(0x3ebc_c764, 109, 0x3eb5_5e8d, 0x3ebd_5e8d, 0x4321_109e, 0x4324_3be0, 163);
        lemma_at_3ebcc765();
        lemma_on_chord(0x3ebc_c765, 109, 0x3eb5_5e8d, 0x3ebd_5e8d, 0x4321_109e, 0x4324_3be0, 164);
        lemma_near_163();
    } else if n == 164 {
        lemma_at_3ebf5a05();
        lemma_on_chord(0x3ebf_5a05, 110, 0x3ebd_5e8d, 0x3ec5_5e8d, 0x4324_3be0, 0x4327_535e, 164);
        lemma_at_3ebf5a06();
        lemma_on_chord(0x3ebf_5a06, 110, 0x3ebd_5e8d, 0x3ec5_5e8d, 0x4324_3be0, 0x4327_535e, 165);
        lemma_near_164();
    } else if n == 165 {
        lemma_at_3ec1f06d();
        lemma_on_chord(0x3ec1_f06d, 110, 0x3ebd_5e8d, 0x3ec5_5e8d, 0x4324_3be0, 0x4327_535e, 165);
        lemma_at_3ec1f06e();
        lemma_on_chord(0x3ec1_f06e, 110, 0x3ebd_5e8d, 0x3ec5_5e8d, 0x4324_3be0, 0x4327_535e, 166);
        lemma_near_165();
    } else if n == 166 {
        lemma_at_3ec486d4();
        lemma_on_chord(0x3ec4_86d4, 110, 0x3ebd_5e8d, 0x3ec5_5e8d, 0x4324_3be0, 0x4327_535e, 166);
        lemma_at_3ec486d5();
        lemma_on_chord(0x3ec4_86d5, 110, 0x3ebd_5e8d, 0x3ec5_5e8d, 0x4324_3be0, 0x4327_535e, 167);
        lemma_near_166();
    } else {
        lemma_at_3ec72839();
        lemma_on_chord(0x3ec7_2839, 111, 0x3ec5_5e8d, 0x3ecd_5e8d, 0x4327_535e, 0x432a_57db, 167);
        lemma_at_3ec7283a();
        lemma_on_chord(0x3ec7_283a, 111, 0x3ec5_5e8d, 0x3ecd_5e8d, 0x4327_535e, 0x432a_57db, 168);
        lemma_near_167();
    }
}

/// The codes 168 to 175.
proof fn lemma_edges_168_to_175(n: int)
    requires
        168 <= n <= 175,
    ensures
        0 < FAST_EDGES[n] < 0x3f80_0000,
        compress_u8_spec(FAST_EDGES[n]) == n,
        compress_u8_spec((FAST_EDGES[n] + 1) as u32) == n + 1,
        near_exact_edge(FAST_EDGES[n], n as nat),
{
    if n == 168 {
        lemma_at_3ec9ceec();
        lemma_on_chord(0x3ec9_ceec, 111, 0x3ec5_5e8d, 0x3ecd_5e8d, 0x4327_535e, 0x432a_57db, 168);
        lemma_at_3ec9ceed();
        lemma_on_chord(0x3ec9_ceed, 111, 0x3ec5_5e8d, 0x3ecd_5e8d, 0x4327_535e, 0x432a_57db, 169);
        lemma_near_168();
    } else if n == 169 {
        lemma_at_3ecc75a0();
        lemma_on_chord(0x3ecc_75a0, 111, 0x3ec5_5e8d, 0x3ecd_5e8d, 0x4327_535e, 0x432a_57db, 169);
        lemma_at_3ecc75a1();
        lemma_on_chord(0x3ecc_75a1, 111, 0x3ec5_5e8d, 0x3ecd_5e8d, 0x4327_535e, 0x432a_57db, 170);
        lemma_near_169();
    } else if n == 170 {
        lemma_at_3ecf2684();
        lemma_on_chord(0x3ecf_2684, 112, 0x3ecd_5e8d, 0x3ed5_5e8d, 0x432a_57db, 0x432d_4b13, 170);
        lemma_at_3ecf2685();
        lemma_on_chord(0x3ecf_2685, 112, 0x3ecd_5e8d, 0x3ed5_5e8d, 0x432a_57db, 0x432d_4b13, 171);
        lemma_near_170();
    } else if n == 171 {
        lemma_at_3ed1dcbd();
        lemma_on_chord(0x3ed1_dcbd, 112, 0x3ecd_5e8d, 0x3ed5_5e8d, 0x432a_57db, 0x432d_4b13, 171);
        lemma_at_3ed1dcbe();
        lemma_on_chord(0x3ed1_dcbe, 112, 0x3ecd_5e8d, 0x3ed5_5e8d, 0x432a_57db, 0x432d_4b13, 172);
        lemma_near_171();
    } else if n == 172 {
        lemma_at_3ed492f5();
        lemma_on_chord(0x3ed4_92f5, 112, 0x3ecd_5e8d, 0x3ed5_5e8d, 0x432a_57db, 0x432d_4b13, 172);
        lemma_at_3ed492f6();
        lemma_on_chord(0x3ed4_92f6, 112, 0x3ecd_5e8d, 0x3ed5_5e8d, 0x432a_57db, 0x432d_4b13, 173);
        lemma_near_172();
    } else if n == 173 {
        lemma_at_3ed753db();
        lemma_on_chord(0x3ed7_53db, 113, 0x3ed5_5e8d, 0x3edd_5e8d, 0x432d_4b13, 0x4330_2e35, 173);
        lemma_at_3ed753dc();
        lemma_on_chord(0x3ed7_53dc, 113, 0x3ed5_5e8d, 0x3edd_5e8d, 0x432d_4b13, 0x4330_2e35, 174);
        lemma_near_173();
    } else if n == 174 {
        lemma_at_3eda192f();
        lemma_on_chord(0x3eda_192f, 113, 0x3ed5_5e8d, 0x3edd_5e8d, 0x432d_4b13, 0x4330_2e35, 174);
        lemma_at_3eda1930();
        lemma_on_chord(0x3eda_1930, 113, 0x3ed5_5e8d, 0x3edd_5e8d, 0x432d_4b13, 0x4330_2e35, 175);
        lemma_near_174();
    } else {
        lemma_at_3edcde83();
        lemma_on_chord(0x3edc_de83, 113, 0x3ed5_5e8d, 0x3edd_5e8d, 0x432d_4b13, 0x4330_2e35, 175);
        lemma_at_3edcde84();
        lemma_on_chord(0x3edc_de84, 113, 0x3ed5_5e8d, 0x3edd_5e8d, 0x432d_4b13, 0x4330_2e35, 176);
        lemma_near_175();
    }
}

/// The codes 176 to 183.
proof fn lemma_edges_176_to_183(n: int)
    requires
        176 <= n <= 183,
    ensures
        0 < FAST_EDGES[n] < 0x3f80_0000,
        compress_u8_spec(FAST_EDGES[n]) == n,
        compress_u8_spec((FAST_EDGES[n] + 1) as u32) == n + 1,
        near_exact_edge(FAST_EDGES[n], n as nat),
{
    if n == 176 {
        lemma_at_3edfb05a();
        lemma_on_chord(0x3edf_b05a, 114, 0x3edd_5e8d, 0x3ee5_5e8d, 0x4330_2e35, 0x4333_01c5, 176);
        lemma_at_3edfb05b();
        lemma_on_chord(0x3edf_b05b, 114, 0x3edd_5e8d, 0x3ee5_5e8d, 0x4330_2e35, 0x4333_01c5, 177);
        lemma_near_176();
    } else if n == 177 {
        lemma_at_3ee284f1();
        lemma_on_chord(0x3ee2_84f1, 114, 0x3edd_5e8d, 0x3ee5_5e8d, 0x4330_2e35, 0x4333_01c5, 177);
        lemma_at_3ee284f2();
        lemma_on_chord(0x3ee2_84f2, 114, 0x3edd_5e8d, 0x3ee5_5e8d, 0x4330_2e35, 0x4333_01c5, 178);
        lemma_near_177();
    } else if n == 178 {
        lemma_at_3ee55989();
        lemma_on_chord(0x3ee5_5989, 114, 0x3edd_5e8d, 0x3ee5_5e8d, 0x4330_2e35, 0x4333_01c5, 178);
        lemma_at_3ee5598a();
        lemma_on_chord(0x3ee5_598a, 114, 0x3edd_5e8d, 0x3ee5_5e8d, 0x4330_2e35, 0x4333_01c5, 179);
        lemma_near_178();
    } else if n == 179 {
        lemma_at_3ee83d05();
        lemma_on_chord(0x3ee8_3d05, 115, 0x3ee5_5e8d, 0x3eed_5e8d, 0x4333_01c5, 0x4335_c6a9, 179);
        lemma_at_3ee83d06();
        lemma_on_chord(0x3ee8_3d06, 115, 0x3ee5_5e8d, 0x3eed_5e8d, 0x4333_01c5, 0x4335_c6a9, 180);
        lemma_near_179();
    } else if n == 180 {
        lemma_at_3eeb209c();
        lemma_on_chord(0x3eeb_209c, 115, 0x3ee5_5e8d, 0x3eed_5e8d, 0x4333_01c5, 0x4335_c6a9, 180);
        lemma_at_3eeb209d();
        lemma_on_chord(0x3eeb_209d, 115, 0x3ee5_5e8d, 0x3eed_5e8d, 0x4333_01c5, 0x4335_c6a9, 181);
        lemma_near_180();
    } else if n == 181 {
        lemma_at_3eee0774();
        lemma_on_chord(0x3eee_0774, 116, 0x3eed_5e8d, 0x3ef5_5e8d, 0x4335_c6a9, 0x4338_7de3, 181);
        lemma_at_3eee0775();
        lemma_on_chord(0x3eee_0775, 116, 0x3eed_5e8d, 0x3ef5_5e8d, 0x4335_c6a9, 0x4338_7de3, 182);
        lemma_near_181();
    } else if n == 182 {
        lemma_at_3ef0f995();
        lemma_on_chord(0x3ef0_f995, 116, 0x3eed_5e8d, 0x3ef5_5e8d, 0x4335_c6a9, 0x4338_7de3, 182);
        lemma_at_3ef0f996();
        lemma_on_chord(0x3ef0_f996, 116, 0x3eed_5e8d, 0x3ef5_5e8d, 0x4335_c6a9, 0x4338_7de3, 183);
        lemma_near_182();
    } else {
        lemma_at_3ef3ebb5();
        lemma_on_chord(0x3ef3_ebb5, 116, 0x3eed_5e8d, 0x3ef5_5e8d, 0x4335_c6a9, 0x4338_7de3, 183);
        lemma_at_3ef3ebb6();
        lemma_on_chord(0x3ef3_ebb6, 116, 0x3eed_5e8d, 0x3ef5_5e8d, 0x4335_c6a9, 0x4338_7de3, 184);
        lemma_near_183();
    }
}

/// The codes 184 to 191.
proof fn lemma_edges_184_to_191(n: int)
    requires
        184 <= n <= 191,
    ensures
        0 < FAST_EDGES[n] < 0x3f80_0000,
        compress_u8_spec(FAST_EDGES[n]) == n,
        compress_u8_spec((FAST_EDGES[n] + 1) as u32) == n + 1,
        near_exact_edge(FAST_EDGES[n], n as nat),
{
    if n == 184 {
        lemma_at_3ef6e4d7();
        lemma_on_chord(0x3ef6_e4d7, 117, 0x3ef5_5e8d, 0x3efd_5e8d, 0x4338_7de3, 0x433b_28a1, 184);
        lemma_at_3ef6e4d8();
        lemma_on_chord(0x3ef6_e4d8, 117, 0x3ef5_5e8d, 0x3efd_5e8d, 0x4338_7de3, 0x433b_28a1, 185);
        lemma_near_184();
    } else if n == 185 {
        lemma_at_3ef9e4c1();
        lemma_on_chord(0x3ef9_e4c1, 117, 0x3ef5_5e8d, 0x3efd_5e8d, 0x4338_7de3, 0x433b_28a1, 185);
        lemma_at_3ef9e4c2();
        lemma_on_chord(0x3ef9_e4c2, 117, 0x3ef5_5e8d, 0x3efd_5e8d, 0x4338_7de3, 0x433b_28a1, 186);
        lemma_near_185();
    } else if n == 186 {
        lemma_at_3efce4ab();
        lemma_on_chord(0x3efc_e4ab, 117, 0x3ef5_5e8d, 0x3efd_5e8d, 0x4338_7de3, 0x433b_28a1, 186);
        lemma_at_3efce4ac();
        lemma_on_chord(0x3efc_e4ac, 117, 0x3ef5_5e8d, 0x3efd_5e8d, 0x4338_7de3, 0x433b_28a1, 187);
        lemma_near_186();
    } else if n == 187 {
        lemma_at_3efff464();
        lemma_on_chord(0x3eff_f464, 118, 0x3efd_5e8d, 0x3f05_5e8d, 0x433b_28a1, 0x433f_825c, 187);
        lemma_at_3efff465();
        lemma_on_chord(0x3eff_f465, 118, 0x3efd_5e8d, 0x3f05_5e8d, 0x433b_28a1, 0x433f_825c, 188);
        lemma_near_187();
    } else if n == 188 {
        lemma_at_3f01838b();
        lemma_on_chord(0x3f01_838b, 118, 0x3efd_5e8d, 0x3f05_5e8d, 0x433b_28a1, 0x433f_825c, 188);
        lemma_at_3f01838c();
        lemma_on_chord(0x3f01_838c, 118, 0x3efd_5e8d, 0x3f05_5e8d, 0x433b_28a1, 0x433f_825c, 189);
        lemma_near_188();
    } else if n == 189 {
        lemma_at_3f030ce5();
        lemma_on_chord(0x3f03_0ce5, 118, 0x3efd_5e8d, 0x3f05_5e8d, 0x433b_28a1, 0x433f_825c, 189);
        lemma_at_3f030ce6();
        lemma_on_chord(0x3f03_0ce6, 118, 0x3efd_5e8d, 0x3f05_5e8d, 0x433b_28a1, 0x433f_825c, 190);
        lemma_near_189();
    } else if n == 190 {
        lemma_at_3f04963f();
        lemma_on_chord(0x3f04_963f, 118, 0x3efd_5e8d, 0x3f05_5e8d, 0x433b_28a1, 0x433f_825c, 190);
        lemma_at_3f049640();
        lemma_on_chord(0x3f04_9640, 118, 0x3efd_5e8d, 0x3f05_5e8d, 0x433b_28a1, 0x433f_825c, 191);
        lemma_near_190();
    } else {
        lemma_at_3f0625fc();
        lemma_on_chord(0x3f06_25fc, 119, 0x3f05_5e8d, 0x3f0d_5e8d, 0x433f_825c, 0x4344_8c89, 191);
        lemma_at_3f0625fd();
        lemma_on_chord(0x3f06_25fd, 119, 0x3f05_5e8d, 0x3f0d_5e8d, 0x433f_825c, 0x4344_8c89, 192);
        lemma_near_191();
    }
}

/// The codes 192 to 199.
proof fn lemma_edges_192_to_199(n: int)
    requires
        192 <= n <= 199,
    ensures
        0 < FAST_EDGES[n] < 0x3f80_0000,
        compress_u8_spec(FAST_EDGES[n]) == n,
        compress_u8_spec((FAST_EDGES[n] + 1) as u32) == n + 1,
        near_exact_edge(FAST_EDGES[n], n as nat),
{
    if n == 192 {
        lemma_at_3f07bc5b();
        lemma_on_chord(0x3f07_bc5b, 119, 0x3f05_5e8d, 0x3f0d_5e8d, 0x433f_825c, 0x4344_8c89, 192);
        lemma_at_3f07bc5c();
        lemma_on_chord(0x3f07_bc5c, 119, 0x3f05_5e8d, 0x3f0d_5e8d, 0x433f_825c, 0x4344_8c89, 193);
        lemma_near_192();
    } else if n == 193 {
        lemma_at_3f0952b9();
        lemma_on_chord(0x3f09_52b9, 119, 0x3f05_5e8d, 0x3f0d_5e8d, 0x433f_825c, 0x4344_8c89, 193);
        lemma_at_3f0952ba();
        lemma_on_chord(0x3f09_52ba, 119, 0x3f05_5e8d, 0x3f0d_5e8d, 0x433f_825c, 0x4344_8c89, 194);
        lemma_near_193();
    } else if n == 194 {
        lemma_at_3f0ae918();
        lemma_on_chord(0x3f0a_e918, 119, 0x3f05_5e8d, 0x3f0d_5e8d, 0x433f_825c, 0x4344_8c89, 194);
        lemma_at_3f0ae919();
        lemma_on_chord(0x3f0a_e919, 119, 0x3f05_5e8d, 0x3f0d_5e8d, 0x433f_825c, 0x4344_8c89, 195);
        lemma_near_194();
    } else if n == 195 {
        lemma_at_3f0c7f76();
        lemma_on_chord(0x3f0c_7f76, 119, 0x3f05_5e8d, 0x3f0d_5e8d, 0x433f_825c, 0x4344_8c89, 195);
        lemma_at_3f0c7f77();
        lemma_on_chord(0x3f0c_7f77, 119, 0x3f05_5e8d, 0x3f0d_5e8d, 0x433f_825c, 0x4344_8c89, 196);
        lemma_near_195();
    } else if n == 196 {
        lemma_at_3f0e1c47();
        lemma_on_chord(0x3f0e_1c47, 120, 0x3f0d_5e8d, 0x3f15_5e8d, 0x4344_8c89, 0x4349_6ae5, 196);
        lemma_at_3f0e1c48();
        lemma_on_chord(0x3f0e_1c48, 120, 0x3f0d_5e8d, 0x3f15_5e8d, 0x4344_8c89, 0x4349_6ae5, 197);
        lemma_near_196();
    } else if n == 197 {
        lemma_at_3f0fc0ee();
        lemma_on_chord(0x3f0f_c0ee, 120, 0x3f0d_5e8d, 0x3f15_5e8d, 0x4344_8c89, 0x4349_6ae5, 197);
        lemma_at_3f0fc0ef();
        lemma_on_chord(0x3f0f_c0ef, 120, 0x3f0d_5e8d, 0x3f15_5e8d, 0x4344_8c89, 0x4349_6ae5, 198);
        lemma_near_197();
    } else if n == 198 {
        lemma_at_3f116596();
        lemma_on_chord(0x3f11_6596, 120, 0x3f0d_5e8d, 0x3f15_5e8d, 0x4344_8c89, 0x4349_6ae5, 198);
        lemma_at_3f116597();
        lemma_on_chord(0x3f11_6597, 120, 0x3f0d_5e8d, 0x3f15_5e8d, 0x4344_8c89, 0x4349_6ae5, 199);
        lemma_near_198();
    } else {
        lemma_at_3f130a3e();
        lemma_on_chord(0x3f13_0a3e, 120, 0x3f0d_5e8d, 0x3f15_5e8d, 0x4344_8c89, 0x4349_6ae5, 199);
        lemma_at_3f130a3f();
        lemma_on_chord(0x3f13_0a3f, 120, 0x3f0d_5e8d, 0x3f15_5e8d, 0x4344_8c89, 0x4349_6ae5, 200);
        lemma_near_199();
    }
}

/// The codes 200 to 207.
proof fn lemma_edges_200_to_207(n: int)
    requires
        200 <= n <= 207,
    ensures
        0 < FAST_EDGES[n] < 0x3f80_0000,
        compress_u8_spec(FAST_EDGES[n]) == n,
        compress_u8_spec((FAST_EDGES[n] + 1) as u32) == n + 1,
        near_exact_edge(FAST_EDGES[n], n as nat),
{
    if n == 200 {
        lemma_at_3f14aee6();
        lemma_on_chord(0x3f14_aee6, 120, 0x3f0d_5e8d, 0x3f15_5e8d, 0x4344_8c89, 0x4349_6ae5, 200);
        lemma_at_3f14aee7();
        lemma_on_chord(0x3f14_aee7, 120, 0x3f0d_5e8d, 0x3f15_5e8d, 0x4344_8c89, 0x4349_6ae5, 201);
        lemma_near_200();
    } else if n == 201 {
        lemma_at_3f165b1c();
        lemma_on_chord(0x3f16_5b1c, 121, 0x3f15_5e8d, 0x3f1d_5e8d, 0x4349_6ae5, 0x434e_23f7, 201);
        lemma_at_3f165b1d();
        lemma_on_chord(0x3f16_5b1d, 121, 0x3f15_5e8d, 0x3f1d_5e8d, 0x4349_6ae5, 0x434e_23f7, 202);
        lemma_near_201();
    } else if n == 202 {
        lemma_at_3f180cbd();
        lemma_on_chord(0x3f18_0cbd, 121, 0x3f15_5e8d, 0x3f1d_5e8d, 0x4349_6ae5, 0x434e_23f7, 202);
        lemma_at_3f180cbe();
        lemma_on_chord(0x3f18_0cbe, 121, 0x3f15_5e8d, 0x3f1d_5e8d, 0x4349_6ae5, 0x434e_23f7, 203);
        lemma_near_202();
    } else if n == 203 {
        lemma_at_3f19be5e();
        lemma_on_chord(0x3f19_be5e, 121, 0x3f15_5e8d, 0x3f1d_5e8d, 0x4349_6ae5, 0x434e_23f7, 203);
        lemma_at_3f19be5f();
        lemma_on_chord(0x3f19_be5f, 121, 0x3f15_5e8d, 0x3f1d_5e8d, 0x4349_6ae5, 0x434e_23f7, 204);
        lemma_near_203();
    } else if n == 204 {
        lemma_at_3f1b6fff();
        lemma_on_chord(0x3f1b_6fff, 121, 0x3f15_5e8d, 0x3f1d_5e8d, 0x4349_6ae5, 0x434e_23f7, 204);
        lemma_at_3f1b7000();
        lemma_on_chord(0x3f1b_7000, 121, 0x3f15_5e8d, 0x3f1d_5e8d, 0x4349_6ae5, 0x434e_23f7, 205);
        lemma_near_204();
    } else if n == 205 {
        lemma_at_3f1d21a0();
        lemma_on_chord(0x3f1d_21a0, 121, 0x3f15_5e8d, 0x3f1d_5e8d, 0x4349_6ae5, 0x434e_23f7, 205);
        lemma_at_3f1d21a1();
        lemma_on_chord(0x3f1d_21a1, 121, 0x3f15_5e8d, 0x3f1d_5e8d, 0x4349_6ae5, 0x434e_23f7, 206);
        lemma_near_205();
    } else if n == 206 {
        lemma_at_3f1ede93();
        lemma_on_chord(0x3f1e_de93, 122, 0x3f1d_5e8d, 0x3f25_5e8d, 0x434e_23f7, 0x4352_b965, 206);
        lemma_at_3f1ede94();
        lemma_on_chord(0x3f1e_de94, 122, 0x3f1d_5e8d, 0x3f25_5e8d, 0x434e_23f7, 0x4352_b965, 207);
        lemma_near_206();
    } else {
        lemma_at_3f209d60();
        lemma_on_chord(0x3f20_9d60, 122, 0x3f1d_5e8d, 0x3f25_5e8d, 0x434e_23f7, 0x4352_b965, 207);
        lemma_at_3f209d61();
        lemma_on_chord(0x3f20_9d61, 122, 0x3f1d_5e8d, 0x3f25_5e8d, 0x434e_23f7, 0x4352_b965, 208);
        lemma_near_207();
    }
}

/// The codes 208 to 215.
proof fn lemma_edges_208_to_215(n: int)
    requires
        208 <= n <= 215,
    ensures
        0 < FAST_EDGES[n] < 0x3f80_0000,
        compress_u8_spec(FAST_EDGES[n]) == n,
        compress_u8_spec((FAST_EDGES[n] + 1) as u32) == n + 1,
        near_exact_edge(FAST_EDGES[n], n as nat),
{
    if n == 208 {
        lemma_at_3f225c2d();
        lemma_on_chord(0x3f22_5c2d, 122, 0x3f1d_5e8d, 0x3f25_5e8d, 0x434e_23f7, 0x4352_b965, 208);
        lemma_at_3f225c2e();
        lemma_on_chord(0x3f22_5c2e, 122, 0x3f1d_5e8d, 0x3f25_5e8d, 0x434e_23f7, 0x4352_b965, 209);
        lemma_near_208();
    } else if n == 209 {
        lemma_at_3f241af9();
        lemma_on_chord(0x3f24_1af9, 122, 0x3f1d_5e8d, 0x3f25_5e8d, 0x434e_23f7, 0x4352_b965, 209);
        lemma_at_3f241afa();
        lemma_on_chord(0x3f24_1afa, 122, 0x3f1d_5e8d, 0x3f25_5e8d, 0x434e_23f7, 0x4352_b965, 210);
        lemma_near_209();
    } else if n == 210 {
        lemma_at_3f25dd41();
        lemma_on_chord(0x3f25_dd41, 123, 0x3f25_5e8d, 0x3f2d_5e8d, 0x4352_b965, 0x4357_2e9d, 210);
        lemma_at_3f25dd42();
        lemma_on_chord(0x3f25_dd42, 123, 0x3f25_5e8d, 0x3f2d_5e8d, 0x4352_b965, 0x4357_2e9d, 211);
        lemma_near_210();
    } else if n == 211 {
        lemma_at_3f27a8aa();
        lemma_on_chord(0x3f27_a8aa, 123, 0x3f25_5e8d, 0x3f2d_5e8d, 0x4352_b965, 0x4357_2e9d, 211);
        lemma_at_3f27a8ab();
        lemma_on_chord(0x3f27_a8ab, 123, 0x3f25_5e8d, 0x3f2d_5e8d, 0x4352_b965, 0x4357_2e9d, 212);
        lemma_near_211();
    } else if n == 212 {
        lemma_at_3f297413();
        lemma_on_chord(0x3f29_7413, 123, 0x3f25_5e8d, 0x3f2d_5e8d, 0x4352_b965, 0x4357_2e9d, 212);
        lemma_at_3f297414();
        lemma_on_chord(0x3f29_7414, 123, 0x3f25_5e8d, 0x3f2d_5e8d, 0x4352_b965, 0x4357_2e9d, 213);
        lemma_near_212();
    } else if n == 213 {
        lemma_at_3f2b3f7c();
        lemma_on_chord(0x3f2b_3f7c, 123, 0x3f25_5e8d, 0x3f2d_5e8d, 0x4352_b965, 0x4357_2e9d, 213);
        lemma_at_3f2b3f7d();
        lemma_on_chord(0x3f2b_3f7d, 123, 0x3f25_5e8d, 0x3f2d_5e8d, 0x4352_b965, 0x4357_2e9d, 214);
        lemma_near_213();
    } else if n == 214 {
        lemma_at_3f2d0ae5();
        lemma_on_chord(0x3f2d_0ae5, 123, 0x3f25_5e8d, 0x3f2d_5e8d, 0x4352_b965, 0x4357_2e9d, 214);
        lemma_at_3f2d0ae6();
        lemma_on_chord(0x3f2d_0ae6, 123, 0x3f25_5e8d, 0x3f2d_5e8d, 0x4352_b965, 0x4357_2e9d, 215);
        lemma_near_214();
    } else {
        lemma_at_3f2ee091();
        lemma_on_chord(0x3f2e_e091, 124, 0x3f2d_5e8d, 0x3f35_5e8d, 0x4357_2e9d, 0x435b_857f, 215);
        lemma_at_3f2ee092();
        lemma_on_chord(0x3f2e_e092, 124, 0x3f2d_5e8d, 0x3f35_5e8d, 0x4357_2e9d, 0x435b_857f, 216);
        lemma_near_215();
    }
}

/// The codes 216 to 223.
proof fn lemma_edges_216_to_223(n: int)
    requires
        216 <= n <= 223,
    ensures
        0 < FAST_EDGES[n] < 0x3f80_0000,
        compress_u8_spec(FAST_EDGES[n]) == n,
        compress_u8_spec((FAST_EDGES[n] + 1) as u32) == n + 1,
        near_exact_edge(FAST_EDGES[n], n as nat),
{
    if n == 216 {
        lemma_at_3f30b886();
        lemma_on_chord(0x3f30_b886, 124, 0x3f2d_5e8d, 0x3f35_5e8d, 0x4357_2e9d, 0x435b_857f, 216);
        lemma_at_3f30b887();
        lemma_on_chord(0x3f30_b887, 124, 0x3f2d_5e8d, 0x3f35_5e8d, 0x4357_2e9d, 0x435b_857f, 217);
        lemma_near_216();
    } else if n == 217 {
        lemma_at_3f32907a();
        lemma_on_chord(0x3f32_907a, 124, 0x3f2d_5e8d, 0x3f35_5e8d, 0x4357_2e9d, 0x435b_857f, 217);
        lemma_at_3f32907b();
        lemma_on_chord(0x3f32_907b, 124, 0x3f2d_5e8d, 0x3f35_5e8d, 0x4357_2e9d, 0x435b_857f, 218);
        lemma_near_217();
    } else if n == 218 {
        lemma_at_3f34686f();
        lemma_on_chord(0x3f34_686f, 124, 0x3f2d_5e8d, 0x3f35_5e8d, 0x4357_2e9d, 0x435b_857f, 218);
        lemma_at_3f346870();
        lemma_on_chord(0x3f34_6870, 124, 0x3f2d_5e8d, 0x3f35_5e8d, 0x4357_2e9d, 0x435b_857f, 219);
        lemma_near_218();
    } else if n == 219 {
        lemma_at_3f364647();
        lemma_on_chord(0x3f36_4647, 125, 0x3f35_5e8d, 0x3f3d_5e8d, 0x435b_857f, 0x435f_c028, 219);
        lemma_at_3f364648();
        lemma_on_chord(0x3f36_4648, 125, 0x3f35_5e8d, 0x3f3d_5e8d, 0x435b_857f, 0x435f_c028, 220);
        lemma_near_219();
    } else if n == 220 {
        lemma_at_3f382a89();
        lemma_on_chord(0x3f38_2a89, 125, 0x3f35_5e8d, 0x3f3d_5e8d, 0x435b_857f, 0x435f_c028, 220);
        lemma_at_3f382a8a();
        lemma_on_chord(0x3f38_2a8a, 125, 0x3f35_5e8d, 0x3f3d_5e8d, 0x435b_857f, 0x435f_c028, 221);
        lemma_near_220();
    } else if n == 221 {
        lemma_at_3f3a0ecc();
        lemma_on_chord(0x3f3a_0ecc, 125, 0x3f35_5e8d, 0x3f3d_5e8d, 0x435b_857f, 0x435f_c028, 221);
        lemma_at_3f3a0ecd();
        lemma_on_chord(0x3f3a_0ecd, 125, 0x3f35_5e8d, 0x3f3d_5e8d, 0x435b_857f, 0x435f_c028, 222);
        lemma_near_221();
    } else if n == 222 {
        lemma_at_3f3bf30e();
        lemma_on_chord(0x3f3b_f30e, 125, 0x3f35_5e8d, 0x3f3d_5e8d, 0x435b_857f, 0x435f_c028, 222);
        lemma_at_3f3bf30f();
        lemma_on_chord(0x3f3b_f30f, 125, 0x3f35_5e8d, 0x3f3d_5e8d, 0x435b_857f, 0x435f_c028, 223);
        lemma_near_222();
    } else {
        lemma_at_3f3dda57();
        lemma_on_chord(0x3f3d_da57, 126, 0x3f3d_5e8d, 0x3f45_5e8d, 0x435f_c028, 0x4363_e05d, 223);
        lemma_at_3f3dda58();
        lemma_on_chord(0x3f3d_da58, 126, 0x3f3d_5e8d, 0x3f45_5e8d, 0x435f_c028, 0x4363_e05d, 224);
        lemma_near_223();
    }
}

/// The codes 224 to 231.
proof fn lemma_edges_224_to_231(n: int)
    requires
        224 <= n <= 231,
    ensures
        0 < FAST_EDGES[n] < 0x3f80_0000,
        compress_u8_spec(FAST_EDGES[n]) == n,
        compress_u8_spec((FAST_EDGES[n] + 1) as u32) == n + 1,
        near_exact_edge(FAST_EDGES[n], n as nat),
{
    if n == 224 {
        lemma_at_3f3fcaba();
        lemma_on_chord(0x3f3f_caba, 126, 0x3f3d_5e8d, 0x3f45_5e8d, 0x435f_c028, 0x4363_e05d, 224);
        lemma_at_3f3fcabb();
        lemma_on_chord(0x3f3f_cabb, 126, 0x3f3d_5e8d, 0x3f45_5e8d, 0x435f_c028, 0x4363_e05d, 225);
        lemma_near_224();
    } else if n == 225 {
        lemma_at_3f41bb1d();
        lemma_on_chord(0x3f41_bb1d, 126, 0x3f3d_5e8d, 0x3f45_5e8d, 0x435f_c028, 0x4363_e05d, 225);
        lemma_at_3f41bb1e();
        lemma_on_chord(0x3f41_bb1e, 126, 0x3f3d_5e8d, 0x3f45_5e8d, 0x435f_c028, 0x4363_e05d, 226);
        lemma_near_225();
    } else if n == 226 {
        lemma_at_3f43ab80();
        lemma_on_chord(0x3f43_ab80, 126, 0x3f3d_5e8d, 0x3f45_5e8d, 0x435f_c028, 0x4363_e05d, 226);
        lemma_at_3f43ab81();
        lemma_on_chord(0x3f43_ab81, 126, 0x3f3d_5e8d, 0x3f45_5e8d, 0x435f_c028, 0x4363_e05d, 227);
        lemma_near_226();
    } else if n == 227 {
        lemma_at_3f459d5c();
        lemma_on_chord(0x3f45_9d5c, 127, 0x3f45_5e8d, 0x3f4d_5e8d, 0x4363_e05d, 0x4367_e7dd, 227);
        lemma_at_3f459d5d();
        lemma_on_chord(0x3f45_9d5d, 127, 0x3f45_5e8d, 0x3f4d_5e8d, 0x4363_e05d, 0x4367_e7dd, 228);
        lemma_near_227();
    } else if n == 228 {
        lemma_at_3f4799a3();
        lemma_on_chord(0x3f47_99a3, 127, 0x3f45_5e8d, 0x3f4d_5e8d, 0x4363_e05d, 0x4367_e7dd, 228);
        lemma_at_3f4799a4();
        lemma_on_chord(0x3f47_99a4, 127, 0x3f45_5e8d, 0x3f4d_5e8d, 0x4363_e05d, 0x4367_e7dd, 229);
        lemma_near_228();
    } else if n == 229 {
        lemma_at_3f4995ea();
        lemma_on_chord(0x3f49_95ea, 127, 0x3f45_5e8d, 0x3f4d_5e8d, 0x4363_e05d, 0x4367_e7dd, 229);
        lemma_at_3f4995eb();
        lemma_on_chord(0x3f49_95eb, 127, 0x3f45_5e8d, 0x3f4d_5e8d, 0x4363_e05d, 0x4367_e7dd, 230);
        lemma_near_229();
    } else if n == 230 {
        lemma_at_3f4b9231();
        lemma_on_chord(0x3f4b_9231, 127, 0x3f45_5e8d, 0x3f4d_5e8d, 0x4363_e05d, 0x4367_e7dd, 230);
        lemma_at_3f4b9232();
        lemma_on_chord(0x3f4b_9232, 127, 0x3f45_5e8d, 0x3f4d_5e8d, 0x4363_e05d, 0x4367_e7dd, 231);
        lemma_near_230();
    } else {
        lemma_at_3f4d8f91();
        lemma_on_chord(0x3f4d_8f91, 128, 0x3f4d_5e8d, 0x3f55_5e8d, 0x4367_e7dd, 0x436b_d83b, 231);
        lemma_at_3f4d8f92();
        lemma_on_chord(0x3f4d_8f92, 128, 0x3f4d_5e8d, 0x3f55_5e8d, 0x4367_e7dd, 0x436b_d83b, 232);
        lemma_near_231();
    }
}

/// The codes 232 to 239.
proof fn lemma_edges_232_to_239(n: int)
    requires
        232 <= n <= 239,
    ensures
        0 < FAST_EDGES[n] < 0x3f80_0000,
        compress_u8_spec(FAST_EDGES[n]) == n,
        compress_u8_spec((FAST_EDGES[n] + 1) as u32) == n + 1,
        near_exact_edge(FAST_EDGES[n], n as nat),
{
    if n == 232 {
        lemma_at_3f4f9781();
        lemma_on_chord(0x3f4f_9781, 128, 0x3f4d_5e8d, 0x3f55_5e8d, 0x4367_e7dd, 0x436b_d83b, 232);
        lemma_at_3f4f9782();
        lemma_on_chord(0x3f4f_9782, 128, 0x3f4d_5e8d, 0x3f55_5e8d, 0x4367_e7dd, 0x436b_d83b, 233);
        lemma_near_232();
    } else if n == 233 {
        lemma_at_3f519f71();
        lemma_on_chord(0x3f51_9f71, 128, 0x3f4d_5e8d, 0x3f55_5e8d, 0x4367_e7dd, 0x436b_d83b, 233);
        lemma_at_3f519f72();
        lemma_on_chord(0x3f51_9f72, 128, 0x3f4d_5e8d, 0x3f55_5e8d, 0x4367_e7dd, 0x436b_d83b, 234);
        lemma_near_233();
    } else if n == 234 {
        lemma_at_3f53a761();
        lemma_on_chord(0x3f53_a761, 128, 0x3f4d_5e8d, 0x3f55_5e8d, 0x4367_e7dd, 0x436b_d83b, 234);
        lemma_at_3f53a762();
        lemma_on_chord(0x3f53_a762, 128, 0x3f4d_5e8d, 0x3f55_5e8d, 0x4367_e7dd, 0x436b_d83b, 235);
        lemma_near_234();
    } else if n == 235 {
        lemma_at_3f55b11a();
        lemma_on_chord(0x3f55_b11a, 129, 0x3f55_5e8d, 0x3f5d_5e8d, 0x436b_d83b, 0x436f_b2c9, 235);
        lemma_at_3f55b11b();
        lemma_on_chord(0x3f55_b11b, 129, 0x3f55_5e8d, 0x3f5d_5e8d, 0x436b_d83b, 0x436f_b2c9, 236);
        lemma_near_235();
    } else if n == 236 {
        lemma_at_3f57c489();
        lemma_on_chord(0x3f57_c489, 129, 0x3f55_5e8d, 0x3f5d_5e8d, 0x436b_d83b, 0x436f_b2c9, 236);
        lemma_at_3f57c48a();
        lemma_on_chord(0x3f57_c48a, 129, 0x3f55_5e8d, 0x3f5d_5e8d, 0x436b_d83b, 0x436f_b2c9, 237);
        lemma_near_236();
    } else if n == 237 {
        lemma_at_3f59d7f8();
        lemma_on_chord(0x3f59_d7f8, 129, 0x3f55_5e8d, 0x3f5d_5e8d, 0x436b_d83b, 0x436f_b2c9, 237);
        lemma_at_3f59d7f9();
        lemma_on_chord(0x3f59_d7f9, 129, 0x3f55_5e8d, 0x3f5d_5e8d, 0x436b_d83b, 0x436f_b2c9, 238);
        lemma_near_237();
    } else if n == 238 {
        lemma_at_3f5beb67();
        lemma_on_chord(0x3f5b_eb67, 129, 0x3f55_5e8d, 0x3f5d_5e8d, 0x436b_d83b, 0x436f_b2c9, 238);
        lemma_at_3f5beb68();
        lemma_on_chord(0x3f5b_eb68, 129, 0x3f55_5e8d, 0x3f5d_5e8d, 0x436b_d83b, 0x436f_b2c9, 239);
        lemma_near_238();
    } else {
        lemma_at_3f5e024d();
        lemma_on_chord(0x3f5e_024d, 130, 0x3f5d_5e8d, 0x3f65_5e8d, 0x436f_b2c9, 0x4373_7876, 239);
        lemma_at_3f5e024e();
        lemma_on_chord(0x3f5e_024e, 130, 0x3f5d_5e8d, 0x3f65_5e8d, 0x436f_b2c9, 0x4373_7876, 240);
        lemma_near_239();
    }
}

/// The codes 240 to 247.
proof fn lemma_edges_240_to_247(n: int)
    requires
        240 <= n <= 247,
    ensures
        0 < FAST_EDGES[n] < 0x3f80_0000,
        compress_u8_spec(FAST_EDGES[n]) == n,
        compress_u8_spec((FAST_EDGES[n] + 1) as u32) == n + 1,
        near_exact_edge(FAST_EDGES[n], n as nat),
{
    if n == 240 {
        lemma_at_3f60213a();
        lemma_on_chord(0x3f60_213a, 130, 0x3f5d_5e8d, 0x3f65_5e8d, 0x436f_b2c9, 0x4373_7876, 240);
        lemma_at_3f60213b();
        lemma_on_chord(0x3f60_213b, 130, 0x3f5d_5e8d, 0x3f65_5e8d, 0x436f_b2c9, 0x4373_7876, 241);
        lemma_near_240();
    } else if n == 241 {
        lemma_at_3f624026();
        lemma_on_chord(0x3f62_4026, 130, 0x3f5d_5e8d, 0x3f65_5e8d, 0x436f_b2c9, 0x4373_7876, 241);
        lemma_at_3f624027();
        lemma_on_chord(0x3f62_4027, 130, 0x3f5d_5e8d, 0x3f65_5e8d, 0x436f_b2c9, 0x4373_7876, 242);
        lemma_near_241();
    } else if n == 242 {
        lemma_at_3f645f12();
        lemma_on_chord(0x3f64_5f12, 130, 0x3f5d_5e8d, 0x3f65_5e8d, 0x436f_b2c9, 0x4373_7876, 242);
        lemma_at_3f645f13();
        lemma_on_chord(0x3f64_5f13, 130, 0x3f5d_5e8d, 0x3f65_5e8d, 0x436f_b2c9, 0x4373_7876, 243);
        lemma_near_242();
    } else if n == 243 {
        lemma_at_3f6683a7();
        lemma_on_chord(0x3f66_83a7, 131, 0x3f65_5e8d, 0x3f6d_5e8d, 0x4373_7876, 0x4377_2b7e, 243);
        lemma_at_3f6683a8();
        lemma_on_chord(0x3f66_83a8, 131, 0x3f65_5e8d, 0x3f6d_5e8d, 0x4373_7876, 0x4377_2b7e, 244);
        lemma_near_243();
    } else if n == 244 {
        lemma_at_3f68ad44();
        lemma_on_chord(0x3f68_ad44, 131, 0x3f65_5e8d, 0x3f6d_5e8d, 0x4373_7876, 0x4377_2b7e, 244);
        lemma_at_3f68ad45();
        lemma_on_chord(0x3f68_ad45, 131, 0x3f65_5e8d, 0x3f6d_5e8d, 0x4373_7876, 0x4377_2b7e, 245);
        lemma_near_244();
    } else if n == 245 {
        lemma_at_3f6ad6e1();
        lemma_on_chord(0x3f6a_d6e1, 131, 0x3f65_5e8d, 0x3f6d_5e8d, 0x4373_7876, 0x4377_2b7e, 245);
        lemma_at_3f6ad6e2();
        lemma_on_chord(0x3f6a_d6e2, 131, 0x3f65_5e8d, 0x3f6d_5e8d, 0x4373_7876, 0x4377_2b7e, 246);
        lemma_near_245();
    } else if n == 246 {
        lemma_at_3f6d007e();
        lemma_on_chord(0x3f6d_007e, 131, 0x3f65_5e8d, 0x3f6d_5e8d, 0x4373_7876, 0x4377_2b7e, 246);
        lemma_at_3f6d007f();
        lemma_on_chord(0x3f6d_007f, 131, 0x3f65_5e8d, 0x3f6d_5e8d, 0x4373_7876, 0x4377_2b7e, 247);
        lemma_near_246();
    } else {
        lemma_at_3f6f337b();
        lemma_on_chord(0x3f6f_337b, 132, 0x3f6d_5e8d, 0x3f75_5e8d, 0x4377_2b7e, 0x437a_cb96, 247);
        lemma_at_3f6f337c();
        lemma_on_chord(0x3f6f_337c, 132, 0x3f6d_5e8d, 0x3f75_5e8d, 0x4377_2b7e, 0x437a_cb96, 248);
        lemma_near_247();
    }
}

/// The codes 248 to 254.
proof fn lemma_edges_248_to_254(n: int)
    requires
        248 <= n <= 254,
    ensures
        0 < FAST_EDGES[n] < 0x3f80_0000,
        compress_u8_spec(FAST_EDGES[n]) == n,
        compress_u8_spec((FAST_EDGES[n] + 1) as u32) == n + 1,
        near_exact_edge(FAST_EDGES[n], n as nat),
{
    if n == 248 {
        lemma_at_3f716863();
        lemma_on_chord(0x3f71_6863, 132, 0x3f6d_5e8d, 0x3f75_5e8d, 0x4377_2b7e, 0x437a_cb96, 248);
        lemma_at_3f716864();
        lemma_on_chord(0x3f71_6864, 132, 0x3f6d_5e8d, 0x3f75_5e8d, 0x4377_2b7e, 0x437a_cb96, 249);
        lemma_near_248();
    } else if n == 249 {
        lemma_at_3f739d4c();
        lemma_on_chord(0x3f73_9d4c, 132, 0x3f6d_5e8d, 0x3f75_5e8d, 0x4377_2b7e, 0x437a_cb96, 249);
        lemma_at_3f739d4d();
        lemma_on_chord(0x3f73_9d4d, 132, 0x3f6d_5e8d, 0x3f75_5e8d, 0x4377_2b7e, 0x437a_cb96, 250);
        lemma_near_249();
    } else if n == 250 {
        lemma_at_3f75d466();
        lemma_on_chord(0x3f75_d466, 133, 0x3f75_5e8d, 0x3f7d_5e8d, 0x437a_cb96, 0x437e_5a67, 250);
        lemma_at_3f75d467();
        lemma_on_chord(0x3f75_d467, 133, 0x3f75_5e8d, 0x3f7d_5e8d, 0x437a_cb96, 0x437e_5a67, 251);
        lemma_near_250();
    } else if n == 251 {
        lemma_at_3f781406();
        lemma_on_chord(0x3f78_1406, 133, 0x3f75_5e8d, 0x3f7d_5e8d, 0x437a_cb96, 0x437e_5a67, 251);
        lemma_at_3f781407();
        lemma_on_chord(0x3f78_1407, 133, 0x3f75_5e8d, 0x3f7d_5e8d, 0x437a_cb96, 0x437e_5a67, 252);
        lemma_near_251();
    } else if n == 252 {
        lemma_at_3f7a53a6();
        lemma_on_chord(0x3f7a_53a6, 133, 0x3f75_5e8d, 0x3f7d_5e8d, 0x437a_cb96, 0x437e_5a67, 252);
        lemma_at_3f7a53a7();
        lemma_on_chord(0x3f7a_53a7, 133, 0x3f75_5e8d, 0x3f7d_5e8d, 0x437a_cb96, 0x437e_5a67, 253);
        lemma_near_252();
    } else if n == 253 {
        lemma_at_3f7c9346();
        lemma_on_chord(0x3f7c_9346, 133, 0x3f75_5e8d, 0x3f7d_5e8d, 0x437a_cb96, 0x437e_5a67, 253);
        lemma_at_3f7c9347();
        lemma_on_chord(0x3f7c_9347, 133, 0x3f75_5e8d, 0x3f7d_5e8d, 0x437a_cb96, 0x437e_5a67, 254);
        lemma_near_253();
    } else {
        lemma_at_3f7ed8f3();
        lemma_on_chord(0x3f7e_d8f3, 134, 0x3f7d_5e8d, 0x3f85_5e8d, 0x437e_5a67, 0x4382_0289, 254);
        crate::binary32::lemma_less_by_rank(FAST_START_AT, 0x3f7e_d8f4);
        crate::binary32::lemma_less_by_rank(0x3f7e_d8f4, FAST_START_255_AT);
        lemma_near_254();
    }
}

/// Each entry of [`FAST_EDGES`] has its code, and the next value the next
/// code; the entry lies within `0.85 / 2^14` of the edge of the exact
/// curve.
pub proof fn lemma_fast_edges(n: int)
    requires
        0 <= n <= 254,
    ensures
        0 < FAST_EDGES[n] < 0x3f80_0000,
        compress_u8_spec(FAST_EDGES[n]) == n,
        compress_u8_spec((FAST_EDGES[n] + 1) as u32) == n + 1,
        near_exact_edge(FAST_EDGES[n], n as nat),
{
    if n <= 7 {
        lemma_edges_0_to_7(n);
    } else if n <= 15 {
        lemma_edges_8_to_15(n);
    } else if n <= 23 {
        lemma_edges_16_to_23(n);
    } else if n <= 31 {
        lemma_edges_24_to_31(n);
    } else if n <= 39 {
        lemma_edges_32_to_39(n);
    } else if n <= 47 {
        lemma_edges_40_to_47(n);
    } else if n <= 55 {
        lemma_edges_48_to_55(n);
    } else if n <= 63 {
        lemma_edges_56_to_63(n);
    } else if n <= 71 {
        lemma_edges_64_to_71(n);
    } else if n <= 79 {
        lemma_edges_72_to_79(n);
    } else if n <= 87 {
        lemma_edges_80_to_87(n);
    } else if n <= 95 {
        lemma_edges_88_to_95(n);
    } else if n <= 103 {
        lemma_edges_96_to_103(n);
    } else if n <= 111 {
        lemma_edges_104_to_111(n);
    } else if n <= 119 {
        lemma_edges_112_to_119(n);
    } else if n <= 127 {
        lemma_edges_120_to_127(n);
    } else if n <= 135 {
        lemma_edges_128_to_135(n);
    } else if n <= 143 {
        lemma_edges_136_to_143(n);
    } else if n <= 151 {
        lemma_edges_144_to_151(n);
    } else if n <= 159 {
        lemma_edges_152_to_159(n);
    } else if n <= 167 {
        lemma_edges_160_to_167(n);
    } else if n <= 175 {
        lemma_edges_168_to_175(n);
    } else if n <= 183 {
        lemma_edges_176_to_183(n);
    } else if n <= 191 {
        lemma_edges_184_to_191(n);
    } else if n <= 199 {
        lemma_edges_192_to_199(n);
    } else if n <= 207 {
        lemma_edges_200_to_207(n);
    } else if n <= 215 {
        lemma_edges_208_to_215(n);
    } else if n <= 223 {
        lemma_edges_216_to_223(n);
    } else if n <= 231 {
        lemma_edges_224_to_231(n);
    } else if n <= 239 {
        lemma_edges_232_to_239(n);
    } else if n <= 247 {
        lemma_edges_240_to_247(n);
    } else if n <= 254 {
        lemma_edges_248_to_254(n);
    }
}

/// An entry of [`FAST_EDGES`] is the largest value of its code: a number
/// has a code up to `n` where it is not above the entry, and there only.
pub proof fn lemma_edge_is_the_largest(n: int, s: u32)
    requires
        0 <= n <= 254,
        !is_nan(s),
    ensures
        compress_u8_spec(s) <= n <==> !less(FAST_EDGES[n], s),
{
    lemma_fast_edges(n);
    lemma_between_edges(FAST_EDGES[n], s, n);
}

} // verus!
