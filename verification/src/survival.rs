//! A code of the power piece survives expansion and compression.
//!
//! The way from a code back to the code leads through a power that the
//! caller takes, and through two on the way through Rec.709.  Were the
//! powers exact, the number that compression finishes from would be the
//! number that expansion raised: `(n + offset) / gain` for Rec.709, and
//! `(v / 255 + 0.055) / 1.055`, which is `(1000 v + 14025) / 269025`, for
//! sRGB.  The proofs here say how far from that number the power may lie:
//! every pattern within 4096 of its pattern is finished to the code.  A
//! range of codes is one calculation, on significands that are known but
//! for the code and the power.

use vstd::prelude::*;
use vstd::arithmetic::power2::{lemma2_to64, lemma2_to64_rest};
use crate::arith::{add_spec, div_spec, mul_spec};
use crate::binary32::{number, whole_part, ONE};
use crate::gamma::{
    code_above, code_u8, compress_rec709_spec, expand_rec709_spec, Step, POWER_BIAS, POWER_GAIN,
    REC709_BIAS_10BIT, REC709_BIAS_8BIT, REC709_BREAK, REC709_COMPRESS_EXPONENT,
    REC709_EXPAND_EXPONENT, REC709_GAIN_10BIT, REC709_GAIN_8BIT,
    REC709_OFFSET_10BIT, REC709_OFFSET_8BIT, REC709_SLOPE_10BIT, REC709_SLOPE_8BIT,
};
use crate::known::{
    lemma_high_powers, lemma_number_known, lemma_product_known, lemma_quotient_known,
    lemma_sum_known, lemma_whole_known,
};
use crate::maths::mul_add_spec;
use crate::rounding::nearest_even;

verus! {

/// How far a power may lie from the number that was raised, in patterns.
pub const TOLERANCE: u32 = 4096;

/// The codes whose count from the first is 18 to 31.
#[verifier::rlimit(80)]
proof fn lemma_8bit_18_to_31(n: nat, p: u32)
    requires
        18 <= n <= 31,
        div_spec(add_spec(number(n), REC709_OFFSET_8BIT), REC709_GAIN_8BIT) - 4096 <= p <= div_spec(add_spec(number(n), REC709_OFFSET_8BIT), REC709_GAIN_8BIT) + 4096,
    ensures
        whole_part(mul_add_spec(REC709_GAIN_8BIT, p, REC709_BIAS_8BIT)) == n,
{
    lemma2_to64();
    lemma2_to64_rest();
    lemma_high_powers();
    let sg: nat = 0xf0_ae56;
    let sbias: nat = 0xa9_72b0;
    let sa: nat = 0xad_72b0;
    lemma_number_known(n, 5, 0x10, 0x8_0000);
    let big_n = number(n);
    assert(big_n == 130 * 0x80_0000 + n * 0x8_0000);
    let x = n * 0x8_0000 + sa;
    assert((n * 0x8_0000) * 0x1 + sa * 1 == x);
    lemma_sum_known(big_n, REC709_OFFSET_8BIT, false, n * 0x8_0000, 130, sa, 130, 0x1, 1, x, 25, 0x100_0000, 0x2);
    let ss = nearest_even(x, 0x2);
    let s = add_spec(big_n, REC709_OFFSET_8BIT);
    assert(s == 131 * 0x80_0000 + ss);
    assert(0x80_0000 <= ss < 0x100_0000);
    let q = (ss * 0x1_0000_0000_0000_0000) / sg;
    let rest = (ss * 0x1_0000_0000_0000_0000) % sg;
    let nq: nat = if rest != 0 {
        2 * q + 1
    } else {
        2 * q
    };
    assert(0x8000_0000_0000_0000 <= q < 0x1_0000_0000_0000_0000);
    lemma_quotient_known(s, REC709_GAIN_8BIT, ss, 131, sg, 133, q, rest, 65, 0x1_0000_0000_0000_0000, 0x200_0000_0000);
    let b = div_spec(s, REC709_GAIN_8BIT);
    let sb = nearest_even(nq, 0x200_0000_0000);
    assert(b == 123 * 0x80_0000 + sb);
    let sp = (p - 123 * 0x80_0000) as nat;
    assert(0x80_0000 <= sp < 0x100_0000);
    let prod = sg * sp;
    lemma_product_known(REC709_GAIN_8BIT, p, sg, 133, sp, 123, prod, 48, 0x8000_0000_0000, 0x100_0000);
    let m1 = mul_spec(REC709_GAIN_8BIT, p);
    let s1 = nearest_even(prod, 0x100_0000);
    assert(m1 == 131 * 0x80_0000 + s1);
    assert(0x80_0000 <= s1 < 0x100_0000);
    let x2 = (s1 * 0x2 - sbias) as nat;
    assert(s1 * 0x2 - sbias * 1 == x2);
    lemma_sum_known(m1, 0x41a9_72b0, true, s1, 131, sbias, 130, 0x2, 1, x2, 24, 0x80_0000, 0x1);
    let s2 = nearest_even(x2, 0x1);
    let m2 = mul_add_spec(REC709_GAIN_8BIT, p, REC709_BIAS_8BIT);
    assert(m2 == 130 * 0x80_0000 + s2);
    lemma_whole_known(m2, s2, 130, 0x8_0000);
    assert(s2 / 0x8_0000 == n);
}

/// The codes whose count from the first is 32 to 38.
#[verifier::rlimit(80)]
proof fn lemma_8bit_32_to_38(n: nat, p: u32)
    requires
        32 <= n <= 38,
        div_spec(add_spec(number(n), REC709_OFFSET_8BIT), REC709_GAIN_8BIT) - 4096 <= p <= div_spec(add_spec(number(n), REC709_OFFSET_8BIT), REC709_GAIN_8BIT) + 4096,
    ensures
        whole_part(mul_add_spec(REC709_GAIN_8BIT, p, REC709_BIAS_8BIT)) == n,
{
    lemma2_to64();
    lemma2_to64_rest();
    lemma_high_powers();
    let sg: nat = 0xf0_ae56;
    let sbias: nat = 0xa9_72b0;
    let sa: nat = 0xad_72b0;
    lemma_number_known(n, 6, 0x20, 0x4_0000);
    let big_n = number(n);
    assert(big_n == 131 * 0x80_0000 + n * 0x4_0000);
    let x = n * 0x8_0000 + sa;
    assert((n * 0x4_0000) * 0x2 + sa * 1 == x);
    lemma_sum_known(big_n, REC709_OFFSET_8BIT, false, n * 0x4_0000, 131, sa, 130, 0x2, 1, x, 25, 0x100_0000, 0x2);
    let ss = nearest_even(x, 0x2);
    let s = add_spec(big_n, REC709_OFFSET_8BIT);
    assert(s == 131 * 0x80_0000 + ss);
    assert(0x80_0000 <= ss < 0x100_0000);
    let q = (ss * 0x1_0000_0000_0000_0000) / sg;
    let rest = (ss * 0x1_0000_0000_0000_0000) % sg;
    let nq: nat = if rest != 0 {
        2 * q + 1
    } else {
        2 * q
    };
    assert(0x8000_0000_0000_0000 <= q < 0x1_0000_0000_0000_0000);
    lemma_quotient_known(s, REC709_GAIN_8BIT, ss, 131, sg, 133, q, rest, 65, 0x1_0000_0000_0000_0000, 0x200_0000_0000);
    let b = div_spec(s, REC709_GAIN_8BIT);
    let sb = nearest_even(nq, 0x200_0000_0000);
    assert(b == 123 * 0x80_0000 + sb);
    let sp = (p - 123 * 0x80_0000) as nat;
    assert(0x80_0000 <= sp < 0x100_0000);
    let prod = sg * sp;
    lemma_product_known(REC709_GAIN_8BIT, p, sg, 133, sp, 123, prod, 48, 0x8000_0000_0000, 0x100_0000);
    let m1 = mul_spec(REC709_GAIN_8BIT, p);
    let s1 = nearest_even(prod, 0x100_0000);
    assert(m1 == 131 * 0x80_0000 + s1);
    assert(0x80_0000 <= s1 < 0x100_0000);
    let x2 = (s1 * 0x2 - sbias) as nat;
    assert(s1 * 0x2 - sbias * 1 == x2);
    lemma_sum_known(m1, 0x41a9_72b0, true, s1, 131, sbias, 130, 0x2, 1, x2, 25, 0x100_0000, 0x2);
    let s2 = nearest_even(x2, 0x2);
    let m2 = mul_add_spec(REC709_GAIN_8BIT, p, REC709_BIAS_8BIT);
    assert(m2 == 131 * 0x80_0000 + s2);
    lemma_whole_known(m2, s2, 131, 0x4_0000);
    assert(s2 / 0x4_0000 == n);
}

/// The codes whose count from the first is 39 to 42.
#[verifier::rlimit(80)]
proof fn lemma_8bit_39_to_42(n: nat, p: u32)
    requires
        39 <= n <= 42,
        div_spec(add_spec(number(n), REC709_OFFSET_8BIT), REC709_GAIN_8BIT) - 4096 <= p <= div_spec(add_spec(number(n), REC709_OFFSET_8BIT), REC709_GAIN_8BIT) + 4096,
    ensures
        whole_part(mul_add_spec(REC709_GAIN_8BIT, p, REC709_BIAS_8BIT)) == n,
{
    lemma2_to64();
    lemma2_to64_rest();
    lemma_high_powers();
    let sg: nat = 0xf0_ae56;
    let sbias: nat = 0xa9_72b0;
    let sa: nat = 0xad_72b0;
    lemma_number_known(n, 6, 0x20, 0x4_0000);
    let big_n = number(n);
    assert(big_n == 131 * 0x80_0000 + n * 0x4_0000);
    let x = n * 0x8_0000 + sa;
    assert((n * 0x4_0000) * 0x2 + sa * 1 == x);
    lemma_sum_known(big_n, REC709_OFFSET_8BIT, false, n * 0x4_0000, 131, sa, 130, 0x2, 1, x, 25, 0x100_0000, 0x2);
    let ss = nearest_even(x, 0x2);
    let s = add_spec(big_n, REC709_OFFSET_8BIT);
    assert(s == 131 * 0x80_0000 + ss);
    assert(0x80_0000 <= ss < 0x100_0000);
    let q = (ss * 0x1_0000_0000_0000_0000) / sg;
    let rest = (ss * 0x1_0000_0000_0000_0000) % sg;
    let nq: nat = if rest != 0 {
        2 * q + 1
    } else {
        2 * q
    };
    assert(0x1_0000_0000_0000_0000 <= q < 0x2_0000_0000_0000_0000);
    lemma_quotient_known(s, REC709_GAIN_8BIT, ss, 131, sg, 133, q, rest, 66, 0x2_0000_0000_0000_0000, 0x400_0000_0000);
    let b = div_spec(s, REC709_GAIN_8BIT);
    let sb = nearest_even(nq, 0x400_0000_0000);
    assert(b == 124 * 0x80_0000 + sb);
    let sp = (p - 124 * 0x80_0000) as nat;
    assert(0x80_0000 <= sp < 0x100_0000);
    let prod = sg * sp;
    lemma_product_known(REC709_GAIN_8BIT, p, sg, 133, sp, 124, prod, 47, 0x4000_0000_0000, 0x80_0000);
    let m1 = mul_spec(REC709_GAIN_8BIT, p);
    let s1 = nearest_even(prod, 0x80_0000);
    assert(m1 == 131 * 0x80_0000 + s1);
    assert(0x80_0000 <= s1 < 0x100_0000);
    let x2 = (s1 * 0x2 - sbias) as nat;
    assert(s1 * 0x2 - sbias * 1 == x2);
    lemma_sum_known(m1, 0x41a9_72b0, true, s1, 131, sbias, 130, 0x2, 1, x2, 25, 0x100_0000, 0x2);
    let s2 = nearest_even(x2, 0x2);
    let m2 = mul_add_spec(REC709_GAIN_8BIT, p, REC709_BIAS_8BIT);
    assert(m2 == 131 * 0x80_0000 + s2);
    lemma_whole_known(m2, s2, 131, 0x4_0000);
    assert(s2 / 0x4_0000 == n);
}

/// The codes whose count from the first is 43 to 63.
#[verifier::rlimit(80)]
proof fn lemma_8bit_43_to_63(n: nat, p: u32)
    requires
        43 <= n <= 63,
        div_spec(add_spec(number(n), REC709_OFFSET_8BIT), REC709_GAIN_8BIT) - 4096 <= p <= div_spec(add_spec(number(n), REC709_OFFSET_8BIT), REC709_GAIN_8BIT) + 4096,
    ensures
        whole_part(mul_add_spec(REC709_GAIN_8BIT, p, REC709_BIAS_8BIT)) == n,
{
    lemma2_to64();
    lemma2_to64_rest();
    lemma_high_powers();
    let sg: nat = 0xf0_ae56;
    let sbias: nat = 0xa9_72b0;
    let sa: nat = 0xad_72b0;
    lemma_number_known(n, 6, 0x20, 0x4_0000);
    let big_n = number(n);
    assert(big_n == 131 * 0x80_0000 + n * 0x4_0000);
    let x = n * 0x8_0000 + sa;
    assert((n * 0x4_0000) * 0x2 + sa * 1 == x);
    lemma_sum_known(big_n, REC709_OFFSET_8BIT, false, n * 0x4_0000, 131, sa, 130, 0x2, 1, x, 26, 0x200_0000, 0x4);
    let ss = nearest_even(x, 0x4);
    let s = add_spec(big_n, REC709_OFFSET_8BIT);
    assert(s == 132 * 0x80_0000 + ss);
    assert(0x80_0000 <= ss < 0x100_0000);
    let q = (ss * 0x1_0000_0000_0000_0000) / sg;
    let rest = (ss * 0x1_0000_0000_0000_0000) % sg;
    let nq: nat = if rest != 0 {
        2 * q + 1
    } else {
        2 * q
    };
    assert(0x8000_0000_0000_0000 <= q < 0x1_0000_0000_0000_0000);
    lemma_quotient_known(s, REC709_GAIN_8BIT, ss, 132, sg, 133, q, rest, 65, 0x1_0000_0000_0000_0000, 0x200_0000_0000);
    let b = div_spec(s, REC709_GAIN_8BIT);
    let sb = nearest_even(nq, 0x200_0000_0000);
    assert(b == 124 * 0x80_0000 + sb);
    let sp = (p - 124 * 0x80_0000) as nat;
    assert(0x80_0000 <= sp < 0x100_0000);
    let prod = sg * sp;
    lemma_product_known(REC709_GAIN_8BIT, p, sg, 133, sp, 124, prod, 48, 0x8000_0000_0000, 0x100_0000);
    let m1 = mul_spec(REC709_GAIN_8BIT, p);
    let s1 = nearest_even(prod, 0x100_0000);
    assert(m1 == 132 * 0x80_0000 + s1);
    assert(0x80_0000 <= s1 < 0x100_0000);
    let x2 = (s1 * 0x4 - sbias) as nat;
    assert(s1 * 0x4 - sbias * 1 == x2);
    lemma_sum_known(m1, 0x41a9_72b0, true, s1, 132, sbias, 130, 0x4, 1, x2, 25, 0x100_0000, 0x2);
    let s2 = nearest_even(x2, 0x2);
    let m2 = mul_add_spec(REC709_GAIN_8BIT, p, REC709_BIAS_8BIT);
    assert(m2 == 131 * 0x80_0000 + s2);
    lemma_whole_known(m2, s2, 131, 0x4_0000);
    assert(s2 / 0x4_0000 == n);
}

/// The codes whose count from the first is 64 to 98.
#[verifier::rlimit(80)]
proof fn lemma_8bit_64_to_98(n: nat, p: u32)
    requires
        64 <= n <= 98,
        div_spec(add_spec(number(n), REC709_OFFSET_8BIT), REC709_GAIN_8BIT) - 4096 <= p <= div_spec(add_spec(number(n), REC709_OFFSET_8BIT), REC709_GAIN_8BIT) + 4096,
    ensures
        whole_part(mul_add_spec(REC709_GAIN_8BIT, p, REC709_BIAS_8BIT)) == n,
{
    lemma2_to64();
    lemma2_to64_rest();
    lemma_high_powers();
    let sg: nat = 0xf0_ae56;
    let sbias: nat = 0xa9_72b0;
    let sa: nat = 0xad_72b0;
    lemma_number_known(n, 7, 0x40, 0x2_0000);
    let big_n = number(n);
    assert(big_n == 132 * 0x80_0000 + n * 0x2_0000);
    let x = n * 0x8_0000 + sa;
    assert((n * 0x2_0000) * 0x4 + sa * 1 == x);
    lemma_sum_known(big_n, REC709_OFFSET_8BIT, false, n * 0x2_0000, 132, sa, 130, 0x4, 1, x, 26, 0x200_0000, 0x4);
    let ss = nearest_even(x, 0x4);
    let s = add_spec(big_n, REC709_OFFSET_8BIT);
    assert(s == 132 * 0x80_0000 + ss);
    assert(0x80_0000 <= ss < 0x100_0000);
    let q = (ss * 0x1_0000_0000_0000_0000) / sg;
    let rest = (ss * 0x1_0000_0000_0000_0000) % sg;
    let nq: nat = if rest != 0 {
        2 * q + 1
    } else {
        2 * q
    };
    assert(0x8000_0000_0000_0000 <= q < 0x1_0000_0000_0000_0000);
    lemma_quotient_known(s, REC709_GAIN_8BIT, ss, 132, sg, 133, q, rest, 65, 0x1_0000_0000_0000_0000, 0x200_0000_0000);
    let b = div_spec(s, REC709_GAIN_8BIT);
    let sb = nearest_even(nq, 0x200_0000_0000);
    assert(b == 124 * 0x80_0000 + sb);
    let sp = (p - 124 * 0x80_0000) as nat;
    assert(0x80_0000 <= sp < 0x100_0000);
    let prod = sg * sp;
    lemma_product_known(REC709_GAIN_8BIT, p, sg, 133, sp, 124, prod, 48, 0x8000_0000_0000, 0x100_0000);
    let m1 = mul_spec(REC709_GAIN_8BIT, p);
    let s1 = nearest_even(prod, 0x100_0000);
    assert(m1 == 132 * 0x80_0000 + s1);
    assert(0x80_0000 <= s1 < 0x100_0000);
    let x2 = (s1 * 0x4 - sbias) as nat;
    assert(s1 * 0x4 - sbias * 1 == x2);
    lemma_sum_known(m1, 0x41a9_72b0, true, s1, 132, sbias, 130, 0x4, 1, x2, 26, 0x200_0000, 0x4);
    let s2 = nearest_even(x2, 0x4);
    let m2 = mul_add_spec(REC709_GAIN_8BIT, p, REC709_BIAS_8BIT);
    assert(m2 == 132 * 0x80_0000 + s2);
    lemma_whole_known(m2, s2, 132, 0x2_0000);
    assert(s2 / 0x2_0000 == n);
}

/// The codes whose count from the first is 99 to 106.
#[verifier::rlimit(80)]
proof fn lemma_8bit_99_to_106(n: nat, p: u32)
    requires
        99 <= n <= 106,
        div_spec(add_spec(number(n), REC709_OFFSET_8BIT), REC709_GAIN_8BIT) - 4096 <= p <= div_spec(add_spec(number(n), REC709_OFFSET_8BIT), REC709_GAIN_8BIT) + 4096,
    ensures
        whole_part(mul_add_spec(REC709_GAIN_8BIT, p, REC709_BIAS_8BIT)) == n,
{
    lemma2_to64();
    lemma2_to64_rest();
    lemma_high_powers();
    let sg: nat = 0xf0_ae56;
    let sbias: nat = 0xa9_72b0;
    let sa: nat = 0xad_72b0;
    lemma_number_known(n, 7, 0x40, 0x2_0000);
    let big_n = number(n);
    assert(big_n == 132 * 0x80_0000 + n * 0x2_0000);
    let x = n * 0x8_0000 + sa;
    assert((n * 0x2_0000) * 0x4 + sa * 1 == x);
    lemma_sum_known(big_n, REC709_OFFSET_8BIT, false, n * 0x2_0000, 132, sa, 130, 0x4, 1, x, 26, 0x200_0000, 0x4);
    let ss = nearest_even(x, 0x4);
    let s = add_spec(big_n, REC709_OFFSET_8BIT);
    assert(s == 132 * 0x80_0000 + ss);
    assert(0x80_0000 <= ss < 0x100_0000);
    let q = (ss * 0x1_0000_0000_0000_0000) / sg;
    let rest = (ss * 0x1_0000_0000_0000_0000) % sg;
    let nq: nat = if rest != 0 {
        2 * q + 1
    } else {
        2 * q
    };
    assert(0x1_0000_0000_0000_0000 <= q < 0x2_0000_0000_0000_0000);
    lemma_quotient_known(s, REC709_GAIN_8BIT, ss, 132, sg, 133, q, rest, 66, 0x2_0000_0000_0000_0000, 0x400_0000_0000);
    let b = div_spec(s, REC709_GAIN_8BIT);
    let sb = nearest_even(nq, 0x400_0000_0000);
    assert(b == 125 * 0x80_0000 + sb);
    let sp = (p - 125 * 0x80_0000) as nat;
    assert(0x80_0000 <= sp < 0x100_0000);
    let prod = sg * sp;
    lemma_product_known(REC709_GAIN_8BIT, p, sg, 133, sp, 125, prod, 47, 0x4000_0000_0000, 0x80_0000);
    let m1 = mul_spec(REC709_GAIN_8BIT, p);
    let s1 = nearest_even(prod, 0x80_0000);
    assert(m1 == 132 * 0x80_0000 + s1);
    assert(0x80_0000 <= s1 < 0x100_0000);
    let x2 = (s1 * 0x4 - sbias) as nat;
    assert(s1 * 0x4 - sbias * 1 == x2);
    lemma_sum_known(m1, 0x41a9_72b0, true, s1, 132, sbias, 130, 0x4, 1, x2, 26, 0x200_0000, 0x4);
    let s2 = nearest_even(x2, 0x4);
    let m2 = mul_add_spec(REC709_GAIN_8BIT, p, REC709_BIAS_8BIT);
    assert(m2 == 132 * 0x80_0000 + s2);
    lemma_whole_known(m2, s2, 132, 0x2_0000);
    assert(s2 / 0x2_0000 == n);
}

/// The codes whose count from the first is 107 to 127.
#[verifier::rlimit(80)]
proof fn lemma_8bit_107_to_127(n: nat, p: u32)
    requires
        107 <= n <= 127,
        div_spec(add_spec(number(n), REC709_OFFSET_8BIT), REC709_GAIN_8BIT) - 4096 <= p <= div_spec(add_spec(number(n), REC709_OFFSET_8BIT), REC709_GAIN_8BIT) + 4096,
    ensures
        whole_part(mul_add_spec(REC709_GAIN_8BIT, p, REC709_BIAS_8BIT)) == n,
{
    lemma2_to64();
    lemma2_to64_rest();
    lemma_high_powers();
    let sg: nat = 0xf0_ae56;
    let sbias: nat = 0xa9_72b0;
    let sa: nat = 0xad_72b0;
    lemma_number_known(n, 7, 0x40, 0x2_0000);
    let big_n = number(n);
    assert(big_n == 132 * 0x80_0000 + n * 0x2_0000);
    let x = n * 0x8_0000 + sa;
    assert((n * 0x2_0000) * 0x4 + sa * 1 == x);
    lemma_sum_known(big_n, REC709_OFFSET_8BIT, false, n * 0x2_0000, 132, sa, 130, 0x4, 1, x, 27, 0x400_0000, 0x8);
    let ss = nearest_even(x, 0x8);
    let s = add_spec(big_n, REC709_OFFSET_8BIT);
    assert(s == 133 * 0x80_0000 + ss);
    assert(0x80_0000 <= ss < 0x100_0000);
    let q = (ss * 0x1_0000_0000_0000_0000) / sg;
    let rest = (ss * 0x1_0000_0000_0000_0000) % sg;
    let nq: nat = if rest != 0 {
        2 * q + 1
    } else {
        2 * q
    };
    assert(0x8000_0000_0000_0000 <= q < 0x1_0000_0000_0000_0000);
    lemma_quotient_known(s, REC709_GAIN_8BIT, ss, 133, sg, 133, q, rest, 65, 0x1_0000_0000_0000_0000, 0x200_0000_0000);
    let b = div_spec(s, REC709_GAIN_8BIT);
    let sb = nearest_even(nq, 0x200_0000_0000);
    assert(b == 125 * 0x80_0000 + sb);
    let sp = (p - 125 * 0x80_0000) as nat;
    assert(0x80_0000 <= sp < 0x100_0000);
    let prod = sg * sp;
    lemma_product_known(REC709_GAIN_8BIT, p, sg, 133, sp, 125, prod, 48, 0x8000_0000_0000, 0x100_0000);
    let m1 = mul_spec(REC709_GAIN_8BIT, p);
    let s1 = nearest_even(prod, 0x100_0000);
    assert(m1 == 133 * 0x80_0000 + s1);
    assert(0x80_0000 <= s1 < 0x100_0000);
    let x2 = (s1 * 0x8 - sbias) as nat;
    assert(s1 * 0x8 - sbias * 1 == x2);
    lemma_sum_known(m1, 0x41a9_72b0, true, s1, 133, sbias, 130, 0x8, 1, x2, 26, 0x200_0000, 0x4);
    let s2 = nearest_even(x2, 0x4);
    let m2 = mul_add_spec(REC709_GAIN_8BIT, p, REC709_BIAS_8BIT);
    assert(m2 == 132 * 0x80_0000 + s2);
    lemma_whole_known(m2, s2, 132, 0x2_0000);
    assert(s2 / 0x2_0000 == n);
}

/// The codes whose count from the first is 128 to 218.
#[verifier::rlimit(80)]
proof fn lemma_8bit_128_to_218(n: nat, p: u32)
    requires
        128 <= n <= 218,
        div_spec(add_spec(number(n), REC709_OFFSET_8BIT), REC709_GAIN_8BIT) - 4096 <= p <= div_spec(add_spec(number(n), REC709_OFFSET_8BIT), REC709_GAIN_8BIT) + 4096,
    ensures
        whole_part(mul_add_spec(REC709_GAIN_8BIT, p, REC709_BIAS_8BIT)) == n,
{
    lemma2_to64();
    lemma2_to64_rest();
    lemma_high_powers();
    let sg: nat = 0xf0_ae56;
    let sbias: nat = 0xa9_72b0;
    let sa: nat = 0xad_72b0;
    lemma_number_known(n, 8, 0x80, 0x1_0000);
    let big_n = number(n);
    assert(big_n == 133 * 0x80_0000 + n * 0x1_0000);
    let x = n * 0x8_0000 + sa;
    assert((n * 0x1_0000) * 0x8 + sa * 1 == x);
    lemma_sum_known(big_n, REC709_OFFSET_8BIT, false, n * 0x1_0000, 133, sa, 130, 0x8, 1, x, 27, 0x400_0000, 0x8);
    let ss = nearest_even(x, 0x8);
    let s = add_spec(big_n, REC709_OFFSET_8BIT);
    assert(s == 133 * 0x80_0000 + ss);
    assert(0x80_0000 <= ss < 0x100_0000);
    let q = (ss * 0x1_0000_0000_0000_0000) / sg;
    let rest = (ss * 0x1_0000_0000_0000_0000) % sg;
    let nq: nat = if rest != 0 {
        2 * q + 1
    } else {
        2 * q
    };
    assert(0x8000_0000_0000_0000 <= q < 0x1_0000_0000_0000_0000);
    lemma_quotient_known(s, REC709_GAIN_8BIT, ss, 133, sg, 133, q, rest, 65, 0x1_0000_0000_0000_0000, 0x200_0000_0000);
    let b = div_spec(s, REC709_GAIN_8BIT);
    let sb = nearest_even(nq, 0x200_0000_0000);
    assert(b == 125 * 0x80_0000 + sb);
    let sp = (p - 125 * 0x80_0000) as nat;
    assert(0x80_0000 <= sp < 0x100_0000);
    let prod = sg * sp;
    lemma_product_known(REC709_GAIN_8BIT, p, sg, 133, sp, 125, prod, 48, 0x8000_0000_0000, 0x100_0000);
    let m1 = mul_spec(REC709_GAIN_8BIT, p);
    let s1 = nearest_even(prod, 0x100_0000);
    assert(m1 == 133 * 0x80_0000 + s1);
    assert(0x80_0000 <= s1 < 0x100_0000);
    let x2 = (s1 * 0x8 - sbias) as nat;
    assert(s1 * 0x8 - sbias * 1 == x2);
    lemma_sum_known(m1, 0x41a9_72b0, true, s1, 133, sbias, 130, 0x8, 1, x2, 27, 0x400_0000, 0x8);
    let s2 = nearest_even(x2, 0x8);
    let m2 = mul_add_spec(REC709_GAIN_8BIT, p, REC709_BIAS_8BIT);
    assert(m2 == 133 * 0x80_0000 + s2);
    lemma_whole_known(m2, s2, 133, 0x1_0000);
    assert(s2 / 0x1_0000 == n);
}

/// The codes whose count from the first is 71 to 127.
#[verifier::rlimit(80)]
proof fn lemma_10bit_71_to_127(n: nat, p: u32)
    requires
        71 <= n <= 127,
        div_spec(add_spec(number(n), REC709_OFFSET_10BIT), REC709_GAIN_10BIT) - 4096 <= p <= div_spec(add_spec(number(n), REC709_OFFSET_10BIT), REC709_GAIN_10BIT) + 4096,
    ensures
        whole_part(mul_add_spec(REC709_GAIN_10BIT, p, REC709_BIAS_10BIT)) == n,
{
    lemma2_to64();
    lemma2_to64_rest();
    lemma_high_powers();
    let sg: nat = 0xf0_ae56;
    let sbias: nat = 0xac_72b0;
    let sa: nat = 0xad_72b0;
    lemma_number_known(n, 7, 0x40, 0x2_0000);
    let big_n = number(n);
    assert(big_n == 132 * 0x80_0000 + n * 0x2_0000);
    let x = n * 0x2_0000 + sa;
    assert((n * 0x2_0000) * 0x1 + sa * 1 == x);
    lemma_sum_known(big_n, REC709_OFFSET_10BIT, false, n * 0x2_0000, 132, sa, 132, 0x1, 1, x, 25, 0x100_0000, 0x2);
    let ss = nearest_even(x, 0x2);
    let s = add_spec(big_n, REC709_OFFSET_10BIT);
    assert(s == 133 * 0x80_0000 + ss);
    assert(0x80_0000 <= ss < 0x100_0000);
    let q = (ss * 0x1_0000_0000_0000_0000) / sg;
    let rest = (ss * 0x1_0000_0000_0000_0000) % sg;
    let nq: nat = if rest != 0 {
        2 * q + 1
    } else {
        2 * q
    };
    assert(0x8000_0000_0000_0000 <= q < 0x1_0000_0000_0000_0000);
    lemma_quotient_known(s, REC709_GAIN_10BIT, ss, 133, sg, 135, q, rest, 65, 0x1_0000_0000_0000_0000, 0x200_0000_0000);
    let b = div_spec(s, REC709_GAIN_10BIT);
    let sb = nearest_even(nq, 0x200_0000_0000);
    assert(b == 123 * 0x80_0000 + sb);
    let sp = (p - 123 * 0x80_0000) as nat;
    assert(0x80_0000 <= sp < 0x100_0000);
    let prod = sg * sp;
    lemma_product_known(REC709_GAIN_10BIT, p, sg, 135, sp, 123, prod, 48, 0x8000_0000_0000, 0x100_0000);
    let m1 = mul_spec(REC709_GAIN_10BIT, p);
    let s1 = nearest_even(prod, 0x100_0000);
    assert(m1 == 133 * 0x80_0000 + s1);
    assert(0x80_0000 <= s1 < 0x100_0000);
    let x2 = (s1 * 0x2 - sbias) as nat;
    assert(s1 * 0x2 - sbias * 1 == x2);
    lemma_sum_known(m1, 0x42ac_72b0, true, s1, 133, sbias, 132, 0x2, 1, x2, 24, 0x80_0000, 0x1);
    let s2 = nearest_even(x2, 0x1);
    let m2 = mul_add_spec(REC709_GAIN_10BIT, p, REC709_BIAS_10BIT);
    assert(m2 == 132 * 0x80_0000 + s2);
    lemma_whole_known(m2, s2, 132, 0x2_0000);
    assert(s2 / 0x2_0000 == n);
}

/// The codes whose count from the first is 128 to 153.
#[verifier::rlimit(80)]
proof fn lemma_10bit_128_to_153(n: nat, p: u32)
    requires
        128 <= n <= 153,
        div_spec(add_spec(number(n), REC709_OFFSET_10BIT), REC709_GAIN_10BIT) - 4096 <= p <= div_spec(add_spec(number(n), REC709_OFFSET_10BIT), REC709_GAIN_10BIT) + 4096,
    ensures
        whole_part(mul_add_spec(REC709_GAIN_10BIT, p, REC709_BIAS_10BIT)) == n,
{
    lemma2_to64();
    lemma2_to64_rest();
    lemma_high_powers();
    let sg: nat = 0xf0_ae56;
    let sbias: nat = 0xac_72b0;
    let sa: nat = 0xad_72b0;
    lemma_number_known(n, 8, 0x80, 0x1_0000);
    let big_n = number(n);
    assert(big_n == 133 * 0x80_0000 + n * 0x1_0000);
    let x = n * 0x2_0000 + sa;
    assert((n * 0x1_0000) * 0x2 + sa * 1 == x);
    lemma_sum_known(big_n, REC709_OFFSET_10BIT, false, n * 0x1_0000, 133, sa, 132, 0x2, 1, x, 25, 0x100_0000, 0x2);
    let ss = nearest_even(x, 0x2);
    let s = add_spec(big_n, REC709_OFFSET_10BIT);
    assert(s == 133 * 0x80_0000 + ss);
    assert(0x80_0000 <= ss < 0x100_0000);
    let q = (ss * 0x1_0000_0000_0000_0000) / sg;
    let rest = (ss * 0x1_0000_0000_0000_0000) % sg;
    let nq: nat = if rest != 0 {
        2 * q + 1
    } else {
        2 * q
    };
    assert(0x8000_0000_0000_0000 <= q < 0x1_0000_0000_0000_0000);
    lemma_quotient_known(s, REC709_GAIN_10BIT, ss, 133, sg, 135, q, rest, 65, 0x1_0000_0000_0000_0000, 0x200_0000_0000);
    let b = div_spec(s, REC709_GAIN_10BIT);
    let sb = nearest_even(nq, 0x200_0000_0000);
    assert(b == 123 * 0x80_0000 + sb);
    let sp = (p - 123 * 0x80_0000) as nat;
    assert(0x80_0000 <= sp < 0x100_0000);
    let prod = sg * sp;
    lemma_product_known(REC709_GAIN_10BIT, p, sg, 135, sp, 123, prod, 48, 0x8000_0000_0000, 0x100_0000);
    let m1 = mul_spec(REC709_GAIN_10BIT, p);
    let s1 = nearest_even(prod, 0x100_0000);
    assert(m1 == 133 * 0x80_0000 + s1);
    assert(0x80_0000 <= s1 < 0x100_0000);
    let x2 = (s1 * 0x2 - sbias) as nat;
    assert(s1 * 0x2 - sbias * 1 == x2);
    lemma_sum_known(m1, 0x42ac_72b0, true, s1, 133, sbias, 132, 0x2, 1, x2, 25, 0x100_0000, 0x2);
    let s2 = nearest_even(x2, 0x2);
    let m2 = mul_add_spec(REC709_GAIN_10BIT, p, REC709_BIAS_10BIT);
    assert(m2 == 133 * 0x80_0000 + s2);
    lemma_whole_known(m2, s2, 133, 0x1_0000);
    assert(s2 / 0x1_0000 == n);
}

/// The codes whose count from the first is 154 to 154.
#[verifier::rlimit(80)]
proof fn lemma_10bit_154_to_154_below(n: nat, p: u32)
    requires
        154 <= n <= 154,
        div_spec(add_spec(number(n), REC709_OFFSET_10BIT), REC709_GAIN_10BIT) - 4096 <= p <= div_spec(add_spec(number(n), REC709_OFFSET_10BIT), REC709_GAIN_10BIT) + 4096,
        p < 0x3e80_0000,
    ensures
        whole_part(mul_add_spec(REC709_GAIN_10BIT, p, REC709_BIAS_10BIT)) == n,
{
    lemma2_to64();
    lemma2_to64_rest();
    lemma_high_powers();
    let sg: nat = 0xf0_ae56;
    let sbias: nat = 0xac_72b0;
    let sa: nat = 0xad_72b0;
    lemma_number_known(n, 8, 0x80, 0x1_0000);
    let big_n = number(n);
    assert(big_n == 133 * 0x80_0000 + n * 0x1_0000);
    let x = n * 0x2_0000 + sa;
    assert((n * 0x1_0000) * 0x2 + sa * 1 == x);
    lemma_sum_known(big_n, REC709_OFFSET_10BIT, false, n * 0x1_0000, 133, sa, 132, 0x2, 1, x, 25, 0x100_0000, 0x2);
    let ss = nearest_even(x, 0x2);
    let s = add_spec(big_n, REC709_OFFSET_10BIT);
    assert(s == 133 * 0x80_0000 + ss);
    assert(0x80_0000 <= ss < 0x100_0000);
    let q = (ss * 0x1_0000_0000_0000_0000) / sg;
    let rest = (ss * 0x1_0000_0000_0000_0000) % sg;
    let nq: nat = if rest != 0 {
        2 * q + 1
    } else {
        2 * q
    };
    assert(0x1_0000_0000_0000_0000 <= q < 0x2_0000_0000_0000_0000);
    lemma_quotient_known(s, REC709_GAIN_10BIT, ss, 133, sg, 135, q, rest, 66, 0x2_0000_0000_0000_0000, 0x400_0000_0000);
    let b = div_spec(s, REC709_GAIN_10BIT);
    let sb = nearest_even(nq, 0x400_0000_0000);
    assert(b == 124 * 0x80_0000 + sb);
    let sp = (p - 123 * 0x80_0000) as nat;
    assert(0x80_0000 <= sp < 0x100_0000);
    let prod = sg * sp;
    lemma_product_known(REC709_GAIN_10BIT, p, sg, 135, sp, 123, prod, 48, 0x8000_0000_0000, 0x100_0000);
    let m1 = mul_spec(REC709_GAIN_10BIT, p);
    let s1 = nearest_even(prod, 0x100_0000);
    assert(m1 == 133 * 0x80_0000 + s1);
    assert(0x80_0000 <= s1 < 0x100_0000);
    let x2 = (s1 * 0x2 - sbias) as nat;
    assert(s1 * 0x2 - sbias * 1 == x2);
    lemma_sum_known(m1, 0x42ac_72b0, true, s1, 133, sbias, 132, 0x2, 1, x2, 25, 0x100_0000, 0x2);
    let s2 = nearest_even(x2, 0x2);
    let m2 = mul_add_spec(REC709_GAIN_10BIT, p, REC709_BIAS_10BIT);
    assert(m2 == 133 * 0x80_0000 + s2);
    lemma_whole_known(m2, s2, 133, 0x1_0000);
    assert(s2 / 0x1_0000 == n);
}

/// The codes whose count from the first is 154 to 154.
#[verifier::rlimit(80)]
proof fn lemma_10bit_154_to_154_above(n: nat, p: u32)
    requires
        154 <= n <= 154,
        div_spec(add_spec(number(n), REC709_OFFSET_10BIT), REC709_GAIN_10BIT) - 4096 <= p <= div_spec(add_spec(number(n), REC709_OFFSET_10BIT), REC709_GAIN_10BIT) + 4096,
        p >= 0x3e80_0000,
    ensures
        whole_part(mul_add_spec(REC709_GAIN_10BIT, p, REC709_BIAS_10BIT)) == n,
{
    lemma2_to64();
    lemma2_to64_rest();
    lemma_high_powers();
    let sg: nat = 0xf0_ae56;
    let sbias: nat = 0xac_72b0;
    let sa: nat = 0xad_72b0;
    lemma_number_known(n, 8, 0x80, 0x1_0000);
    let big_n = number(n);
    assert(big_n == 133 * 0x80_0000 + n * 0x1_0000);
    let x = n * 0x2_0000 + sa;
    assert((n * 0x1_0000) * 0x2 + sa * 1 == x);
    lemma_sum_known(big_n, REC709_OFFSET_10BIT, false, n * 0x1_0000, 133, sa, 132, 0x2, 1, x, 25, 0x100_0000, 0x2);
    let ss = nearest_even(x, 0x2);
    let s = add_spec(big_n, REC709_OFFSET_10BIT);
    assert(s == 133 * 0x80_0000 + ss);
    assert(0x80_0000 <= ss < 0x100_0000);
    let q = (ss * 0x1_0000_0000_0000_0000) / sg;
    let rest = (ss * 0x1_0000_0000_0000_0000) % sg;
    let nq: nat = if rest != 0 {
        2 * q + 1
    } else {
        2 * q
    };
    assert(0x1_0000_0000_0000_0000 <= q < 0x2_0000_0000_0000_0000);
    lemma_quotient_known(s, REC709_GAIN_10BIT, ss, 133, sg, 135, q, rest, 66, 0x2_0000_0000_0000_0000, 0x400_0000_0000);
    let b = div_spec(s, REC709_GAIN_10BIT);
    let sb = nearest_even(nq, 0x400_0000_0000);
    assert(b == 124 * 0x80_0000 + sb);
    let sp = (p - 124 * 0x80_0000) as nat;
    assert(0x80_0000 <= sp < 0x100_0000);
    let prod = sg * sp;
    lemma_product_known(REC709_GAIN_10BIT, p, sg, 135, sp, 124, prod, 47, 0x4000_0000_0000, 0x80_0000);
    let m1 = mul_spec(REC709_GAIN_10BIT, p);
    let s1 = nearest_even(prod, 0x80_0000);
    assert(m1 == 133 * 0x80_0000 + s1);
    assert(0x80_0000 <= s1 < 0x100_0000);
    let x2 = (s1 * 0x2 - sbias) as nat;
    assert(s1 * 0x2 - sbias * 1 == x2);
    lemma_sum_known(m1, 0x42ac_72b0, true, s1, 133, sbias, 132, 0x2, 1, x2, 25, 0x100_0000, 0x2);
    let s2 = nearest_even(x2, 0x2);
    let m2 = mul_add_spec(REC709_GAIN_10BIT, p, REC709_BIAS_10BIT);
    assert(m2 == 133 * 0x80_0000 + s2);
    lemma_whole_known(m2, s2, 133, 0x1_0000);
    assert(s2 / 0x1_0000 == n);
}

/// The codes whose count from the first is 155 to 169.
#[verifier::rlimit(80)]
proof fn lemma_10bit_155_to_169(n: nat, p: u32)
    requires
        155 <= n <= 169,
        div_spec(add_spec(number(n), REC709_OFFSET_10BIT), REC709_GAIN_10BIT) - 4096 <= p <= div_spec(add_spec(number(n), REC709_OFFSET_10BIT), REC709_GAIN_10BIT) + 4096,
    ensures
        whole_part(mul_add_spec(REC709_GAIN_10BIT, p, REC709_BIAS_10BIT)) == n,
{
    lemma2_to64();
    lemma2_to64_rest();
    lemma_high_powers();
    let sg: nat = 0xf0_ae56;
    let sbias: nat = 0xac_72b0;
    let sa: nat = 0xad_72b0;
    lemma_number_known(n, 8, 0x80, 0x1_0000);
    let big_n = number(n);
    assert(big_n == 133 * 0x80_0000 + n * 0x1_0000);
    let x = n * 0x2_0000 + sa;
    assert((n * 0x1_0000) * 0x2 + sa * 1 == x);
    lemma_sum_known(big_n, REC709_OFFSET_10BIT, false, n * 0x1_0000, 133, sa, 132, 0x2, 1, x, 25, 0x100_0000, 0x2);
    let ss = nearest_even(x, 0x2);
    let s = add_spec(big_n, REC709_OFFSET_10BIT);
    assert(s == 133 * 0x80_0000 + ss);
    assert(0x80_0000 <= ss < 0x100_0000);
    let q = (ss * 0x1_0000_0000_0000_0000) / sg;
    let rest = (ss * 0x1_0000_0000_0000_0000) % sg;
    let nq: nat = if rest != 0 {
        2 * q + 1
    } else {
        2 * q
    };
    assert(0x1_0000_0000_0000_0000 <= q < 0x2_0000_0000_0000_0000);
    lemma_quotient_known(s, REC709_GAIN_10BIT, ss, 133, sg, 135, q, rest, 66, 0x2_0000_0000_0000_0000, 0x400_0000_0000);
    let b = div_spec(s, REC709_GAIN_10BIT);
    let sb = nearest_even(nq, 0x400_0000_0000);
    assert(b == 124 * 0x80_0000 + sb);
    let sp = (p - 124 * 0x80_0000) as nat;
    assert(0x80_0000 <= sp < 0x100_0000);
    let prod = sg * sp;
    lemma_product_known(REC709_GAIN_10BIT, p, sg, 135, sp, 124, prod, 47, 0x4000_0000_0000, 0x80_0000);
    let m1 = mul_spec(REC709_GAIN_10BIT, p);
    let s1 = nearest_even(prod, 0x80_0000);
    assert(m1 == 133 * 0x80_0000 + s1);
    assert(0x80_0000 <= s1 < 0x100_0000);
    let x2 = (s1 * 0x2 - sbias) as nat;
    assert(s1 * 0x2 - sbias * 1 == x2);
    lemma_sum_known(m1, 0x42ac_72b0, true, s1, 133, sbias, 132, 0x2, 1, x2, 25, 0x100_0000, 0x2);
    let s2 = nearest_even(x2, 0x2);
    let m2 = mul_add_spec(REC709_GAIN_10BIT, p, REC709_BIAS_10BIT);
    assert(m2 == 133 * 0x80_0000 + s2);
    lemma_whole_known(m2, s2, 133, 0x1_0000);
    assert(s2 / 0x1_0000 == n);
}

/// The codes whose count from the first is 170 to 255.
#[verifier::rlimit(80)]
proof fn lemma_10bit_170_to_255(n: nat, p: u32)
    requires
        170 <= n <= 255,
        div_spec(add_spec(number(n), REC709_OFFSET_10BIT), REC709_GAIN_10BIT) - 4096 <= p <= div_spec(add_spec(number(n), REC709_OFFSET_10BIT), REC709_GAIN_10BIT) + 4096,
    ensures
        whole_part(mul_add_spec(REC709_GAIN_10BIT, p, REC709_BIAS_10BIT)) == n,
{
    lemma2_to64();
    lemma2_to64_rest();
    lemma_high_powers();
    let sg: nat = 0xf0_ae56;
    let sbias: nat = 0xac_72b0;
    let sa: nat = 0xad_72b0;
    lemma_number_known(n, 8, 0x80, 0x1_0000);
    let big_n = number(n);
    assert(big_n == 133 * 0x80_0000 + n * 0x1_0000);
    let x = n * 0x2_0000 + sa;
    assert((n * 0x1_0000) * 0x2 + sa * 1 == x);
    lemma_sum_known(big_n, REC709_OFFSET_10BIT, false, n * 0x1_0000, 133, sa, 132, 0x2, 1, x, 26, 0x200_0000, 0x4);
    let ss = nearest_even(x, 0x4);
    let s = add_spec(big_n, REC709_OFFSET_10BIT);
    assert(s == 134 * 0x80_0000 + ss);
    assert(0x80_0000 <= ss < 0x100_0000);
    let q = (ss * 0x1_0000_0000_0000_0000) / sg;
    let rest = (ss * 0x1_0000_0000_0000_0000) % sg;
    let nq: nat = if rest != 0 {
        2 * q + 1
    } else {
        2 * q
    };
    assert(0x8000_0000_0000_0000 <= q < 0x1_0000_0000_0000_0000);
    lemma_quotient_known(s, REC709_GAIN_10BIT, ss, 134, sg, 135, q, rest, 65, 0x1_0000_0000_0000_0000, 0x200_0000_0000);
    let b = div_spec(s, REC709_GAIN_10BIT);
    let sb = nearest_even(nq, 0x200_0000_0000);
    assert(b == 124 * 0x80_0000 + sb);
    let sp = (p - 124 * 0x80_0000) as nat;
    assert(0x80_0000 <= sp < 0x100_0000);
    let prod = sg * sp;
    lemma_product_known(REC709_GAIN_10BIT, p, sg, 135, sp, 124, prod, 48, 0x8000_0000_0000, 0x100_0000);
    let m1 = mul_spec(REC709_GAIN_10BIT, p);
    let s1 = nearest_even(prod, 0x100_0000);
    assert(m1 == 134 * 0x80_0000 + s1);
    assert(0x80_0000 <= s1 < 0x100_0000);
    let x2 = (s1 * 0x4 - sbias) as nat;
    assert(s1 * 0x4 - sbias * 1 == x2);
    lemma_sum_known(m1, 0x42ac_72b0, true, s1, 134, sbias, 132, 0x4, 1, x2, 25, 0x100_0000, 0x2);
    let s2 = nearest_even(x2, 0x2);
    let m2 = mul_add_spec(REC709_GAIN_10BIT, p, REC709_BIAS_10BIT);
    assert(m2 == 133 * 0x80_0000 + s2);
    lemma_whole_known(m2, s2, 133, 0x1_0000);
    assert(s2 / 0x1_0000 == n);
}

/// The codes whose count from the first is 256 to 394.
#[verifier::rlimit(80)]
proof fn lemma_10bit_256_to_394(n: nat, p: u32)
    requires
        256 <= n <= 394,
        div_spec(add_spec(number(n), REC709_OFFSET_10BIT), REC709_GAIN_10BIT) - 4096 <= p <= div_spec(add_spec(number(n), REC709_OFFSET_10BIT), REC709_GAIN_10BIT) + 4096,
    ensures
        whole_part(mul_add_spec(REC709_GAIN_10BIT, p, REC709_BIAS_10BIT)) == n,
{
    lemma2_to64();
    lemma2_to64_rest();
    lemma_high_powers();
    let sg: nat = 0xf0_ae56;
    let sbias: nat = 0xac_72b0;
    let sa: nat = 0xad_72b0;
    lemma_number_known(n, 9, 0x100, 0x8000);
    let big_n = number(n);
    assert(big_n == 134 * 0x80_0000 + n * 0x8000);
    let x = n * 0x2_0000 + sa;
    assert((n * 0x8000) * 0x4 + sa * 1 == x);
    lemma_sum_known(big_n, REC709_OFFSET_10BIT, false, n * 0x8000, 134, sa, 132, 0x4, 1, x, 26, 0x200_0000, 0x4);
    let ss = nearest_even(x, 0x4);
    let s = add_spec(big_n, REC709_OFFSET_10BIT);
    assert(s == 134 * 0x80_0000 + ss);
    assert(0x80_0000 <= ss < 0x100_0000);
    let q = (ss * 0x1_0000_0000_0000_0000) / sg;
    let rest = (ss * 0x1_0000_0000_0000_0000) % sg;
    let nq: nat = if rest != 0 {
        2 * q + 1
    } else {
        2 * q
    };
    assert(0x8000_0000_0000_0000 <= q < 0x1_0000_0000_0000_0000);
    lemma_quotient_known(s, REC709_GAIN_10BIT, ss, 134, sg, 135, q, rest, 65, 0x1_0000_0000_0000_0000, 0x200_0000_0000);
    let b = div_spec(s, REC709_GAIN_10BIT);
    let sb = nearest_even(nq, 0x200_0000_0000);
    assert(b == 124 * 0x80_0000 + sb);
    let sp = (p - 124 * 0x80_0000) as nat;
    assert(0x80_0000 <= sp < 0x100_0000);
    let prod = sg * sp;
    lemma_product_known(REC709_GAIN_10BIT, p, sg, 135, sp, 124, prod, 48, 0x8000_0000_0000, 0x100_0000);
    let m1 = mul_spec(REC709_GAIN_10BIT, p);
    let s1 = nearest_even(prod, 0x100_0000);
    assert(m1 == 134 * 0x80_0000 + s1);
    assert(0x80_0000 <= s1 < 0x100_0000);
    let x2 = (s1 * 0x4 - sbias) as nat;
    assert(s1 * 0x4 - sbias * 1 == x2);
    lemma_sum_known(m1, 0x42ac_72b0, true, s1, 134, sbias, 132, 0x4, 1, x2, 26, 0x200_0000, 0x4);
    let s2 = nearest_even(x2, 0x4);
    let m2 = mul_add_spec(REC709_GAIN_10BIT, p, REC709_BIAS_10BIT);
    assert(m2 == 134 * 0x80_0000 + s2);
    lemma_whole_known(m2, s2, 134, 0x8000);
    assert(s2 / 0x8000 == n);
}

/// The codes whose count from the first is 395 to 425.
#[verifier::rlimit(80)]
proof fn lemma_10bit_395_to_425(n: nat, p: u32)
    requires
        395 <= n <= 425,
        div_spec(add_spec(number(n), REC709_OFFSET_10BIT), REC709_GAIN_10BIT) - 4096 <= p <= div_spec(add_spec(number(n), REC709_OFFSET_10BIT), REC709_GAIN_10BIT) + 4096,
    ensures
        whole_part(mul_add_spec(REC709_GAIN_10BIT, p, REC709_BIAS_10BIT)) == n,
{
    lemma2_to64();
    lemma2_to64_rest();
    lemma_high_powers();
    let sg: nat = 0xf0_ae56;
    let sbias: nat = 0xac_72b0;
    let sa: nat = 0xad_72b0;
    lemma_number_known(n, 9, 0x100, 0x8000);
    let big_n = number(n);
    assert(big_n == 134 * 0x80_0000 + n * 0x8000);
    let x = n * 0x2_0000 + sa;
    assert((n * 0x8000) * 0x4 + sa * 1 == x);
    lemma_sum_known(big_n, REC709_OFFSET_10BIT, false, n * 0x8000, 134, sa, 132, 0x4, 1, x, 26, 0x200_0000, 0x4);
    let ss = nearest_even(x, 0x4);
    let s = add_spec(big_n, REC709_OFFSET_10BIT);
    assert(s == 134 * 0x80_0000 + ss);
    assert(0x80_0000 <= ss < 0x100_0000);
    let q = (ss * 0x1_0000_0000_0000_0000) / sg;
    let rest = (ss * 0x1_0000_0000_0000_0000) % sg;
    let nq: nat = if rest != 0 {
        2 * q + 1
    } else {
        2 * q
    };
    assert(0x1_0000_0000_0000_0000 <= q < 0x2_0000_0000_0000_0000);
    lemma_quotient_known(s, REC709_GAIN_10BIT, ss, 134, sg, 135, q, rest, 66, 0x2_0000_0000_0000_0000, 0x400_0000_0000);
    let b = div_spec(s, REC709_GAIN_10BIT);
    let sb = nearest_even(nq, 0x400_0000_0000);
    assert(b == 125 * 0x80_0000 + sb);
    let sp = (p - 125 * 0x80_0000) as nat;
    assert(0x80_0000 <= sp < 0x100_0000);
    let prod = sg * sp;
    lemma_product_known(REC709_GAIN_10BIT, p, sg, 135, sp, 125, prod, 47, 0x4000_0000_0000, 0x80_0000);
    let m1 = mul_spec(REC709_GAIN_10BIT, p);
    let s1 = nearest_even(prod, 0x80_0000);
    assert(m1 == 134 * 0x80_0000 + s1);
    assert(0x80_0000 <= s1 < 0x100_0000);
    let x2 = (s1 * 0x4 - sbias) as nat;
    assert(s1 * 0x4 - sbias * 1 == x2);
    lemma_sum_known(m1, 0x42ac_72b0, true, s1, 134, sbias, 132, 0x4, 1, x2, 26, 0x200_0000, 0x4);
    let s2 = nearest_even(x2, 0x4);
    let m2 = mul_add_spec(REC709_GAIN_10BIT, p, REC709_BIAS_10BIT);
    assert(m2 == 134 * 0x80_0000 + s2);
    lemma_whole_known(m2, s2, 134, 0x8000);
    assert(s2 / 0x8000 == n);
}

/// The codes whose count from the first is 426 to 511.
#[verifier::rlimit(80)]
proof fn lemma_10bit_426_to_511(n: nat, p: u32)
    requires
        426 <= n <= 511,
        div_spec(add_spec(number(n), REC709_OFFSET_10BIT), REC709_GAIN_10BIT) - 4096 <= p <= div_spec(add_spec(number(n), REC709_OFFSET_10BIT), REC709_GAIN_10BIT) + 4096,
    ensures
        whole_part(mul_add_spec(REC709_GAIN_10BIT, p, REC709_BIAS_10BIT)) == n,
{
    lemma2_to64();
    lemma2_to64_rest();
    lemma_high_powers();
    let sg: nat = 0xf0_ae56;
    let sbias: nat = 0xac_72b0;
    let sa: nat = 0xad_72b0;
    lemma_number_known(n, 9, 0x100, 0x8000);
    let big_n = number(n);
    assert(big_n == 134 * 0x80_0000 + n * 0x8000);
    let x = n * 0x2_0000 + sa;
    assert((n * 0x8000) * 0x4 + sa * 1 == x);
    lemma_sum_known(big_n, REC709_OFFSET_10BIT, false, n * 0x8000, 134, sa, 132, 0x4, 1, x, 27, 0x400_0000, 0x8);
    let ss = nearest_even(x, 0x8);
    let s = add_spec(big_n, REC709_OFFSET_10BIT);
    assert(s == 135 * 0x80_0000 + ss);
    assert(0x80_0000 <= ss < 0x100_0000);
    let q = (ss * 0x1_0000_0000_0000_0000) / sg;
    let rest = (ss * 0x1_0000_0000_0000_0000) % sg;
    let nq: nat = if rest != 0 {
        2 * q + 1
    } else {
        2 * q
    };
    assert(0x8000_0000_0000_0000 <= q < 0x1_0000_0000_0000_0000);
    lemma_quotient_known(s, REC709_GAIN_10BIT, ss, 135, sg, 135, q, rest, 65, 0x1_0000_0000_0000_0000, 0x200_0000_0000);
    let b = div_spec(s, REC709_GAIN_10BIT);
    let sb = nearest_even(nq, 0x200_0000_0000);
    assert(b == 125 * 0x80_0000 + sb);
    let sp = (p - 125 * 0x80_0000) as nat;
    assert(0x80_0000 <= sp < 0x100_0000);
    let prod = sg * sp;
    lemma_product_known(REC709_GAIN_10BIT, p, sg, 135, sp, 125, prod, 48, 0x8000_0000_0000, 0x100_0000);
    let m1 = mul_spec(REC709_GAIN_10BIT, p);
    let s1 = nearest_even(prod, 0x100_0000);
    assert(m1 == 135 * 0x80_0000 + s1);
    assert(0x80_0000 <= s1 < 0x100_0000);
    let x2 = (s1 * 0x8 - sbias) as nat;
    assert(s1 * 0x8 - sbias * 1 == x2);
    lemma_sum_known(m1, 0x42ac_72b0, true, s1, 135, sbias, 132, 0x8, 1, x2, 26, 0x200_0000, 0x4);
    let s2 = nearest_even(x2, 0x4);
    let m2 = mul_add_spec(REC709_GAIN_10BIT, p, REC709_BIAS_10BIT);
    assert(m2 == 134 * 0x80_0000 + s2);
    lemma_whole_known(m2, s2, 134, 0x8000);
    assert(s2 / 0x8000 == n);
}

/// The codes whose count from the first is 512 to 875.
#[verifier::rlimit(80)]
proof fn lemma_10bit_512_to_875(n: nat, p: u32)
    requires
        512 <= n <= 875,
        div_spec(add_spec(number(n), REC709_OFFSET_10BIT), REC709_GAIN_10BIT) - 4096 <= p <= div_spec(add_spec(number(n), REC709_OFFSET_10BIT), REC709_GAIN_10BIT) + 4096,
    ensures
        whole_part(mul_add_spec(REC709_GAIN_10BIT, p, REC709_BIAS_10BIT)) == n,
{
    lemma2_to64();
    lemma2_to64_rest();
    lemma_high_powers();
    let sg: nat = 0xf0_ae56;
    let sbias: nat = 0xac_72b0;
    let sa: nat = 0xad_72b0;
    lemma_number_known(n, 10, 0x200, 0x4000);
    let big_n = number(n);
    assert(big_n == 135 * 0x80_0000 + n * 0x4000);
    let x = n * 0x2_0000 + sa;
    assert((n * 0x4000) * 0x8 + sa * 1 == x);
    lemma_sum_known(big_n, REC709_OFFSET_10BIT, false, n * 0x4000, 135, sa, 132, 0x8, 1, x, 27, 0x400_0000, 0x8);
    let ss = nearest_even(x, 0x8);
    let s = add_spec(big_n, REC709_OFFSET_10BIT);
    assert(s == 135 * 0x80_0000 + ss);
    assert(0x80_0000 <= ss < 0x100_0000);
    let q = (ss * 0x1_0000_0000_0000_0000) / sg;
    let rest = (ss * 0x1_0000_0000_0000_0000) % sg;
    let nq: nat = if rest != 0 {
        2 * q + 1
    } else {
        2 * q
    };
    assert(0x8000_0000_0000_0000 <= q < 0x1_0000_0000_0000_0000);
    lemma_quotient_known(s, REC709_GAIN_10BIT, ss, 135, sg, 135, q, rest, 65, 0x1_0000_0000_0000_0000, 0x200_0000_0000);
    let b = div_spec(s, REC709_GAIN_10BIT);
    let sb = nearest_even(nq, 0x200_0000_0000);
    assert(b == 125 * 0x80_0000 + sb);
    let sp = (p - 125 * 0x80_0000) as nat;
    assert(0x80_0000 <= sp < 0x100_0000);
    let prod = sg * sp;
    lemma_product_known(REC709_GAIN_10BIT, p, sg, 135, sp, 125, prod, 48, 0x8000_0000_0000, 0x100_0000);
    let m1 = mul_spec(REC709_GAIN_10BIT, p);
    let s1 = nearest_even(prod, 0x100_0000);
    assert(m1 == 135 * 0x80_0000 + s1);
    assert(0x80_0000 <= s1 < 0x100_0000);
    let x2 = (s1 * 0x8 - sbias) as nat;
    assert(s1 * 0x8 - sbias * 1 == x2);
    lemma_sum_known(m1, 0x42ac_72b0, true, s1, 135, sbias, 132, 0x8, 1, x2, 27, 0x400_0000, 0x8);
    let s2 = nearest_even(x2, 0x8);
    let m2 = mul_add_spec(REC709_GAIN_10BIT, p, REC709_BIAS_10BIT);
    assert(m2 == 135 * 0x80_0000 + s2);
    lemma_whole_known(m2, s2, 135, 0x4000);
    assert(s2 / 0x4000 == n);
}

/// The codes 11 to 15.
#[verifier::rlimit(80)]
proof fn lemma_srgb_11_to_15(n: nat, p: u32)
    requires
        11 <= n <= 15,
        div_spec(number(1000 * n + 14025), number(269025)) - 4096 <= p <= div_spec(number(1000 * n + 14025), number(269025)) + 4096,
    ensures
        whole_part(mul_add_spec(POWER_GAIN, p, POWER_BIAS)) == n,
{
    lemma2_to64();
    lemma2_to64_rest();
    lemma_high_powers();
    let sg: nat = 0x86_8333;
    let sbias: nat = 0xd8_6666;
    let num: nat = 1000 * n + 14025;
    lemma_number_known(num, 15, 0x4000, 0x200);
    let s = number(num);
    let ss = num * 0x200;
    assert(s == 140 * 0x80_0000 + ss);
    lemma_number_known(269025, 19, 0x4_0000, 0x20);
    assert(number(269025) == 0x4883_5c20);
    let sd: nat = 0x83_5c20;
    let q = (ss * 0x1_0000_0000_0000_0000) / sd;
    let rest = (ss * 0x1_0000_0000_0000_0000) % sd;
    let nq: nat = if rest != 0 {
        2 * q + 1
    } else {
        2 * q
    };
    assert(0x1_0000_0000_0000_0000 <= q < 0x2_0000_0000_0000_0000);
    lemma_quotient_known(s, number(269025), ss, 140, sd, 144, q, rest, 66, 0x2_0000_0000_0000_0000, 0x400_0000_0000);
    let b = div_spec(s, number(269025));
    let sb = nearest_even(nq, 0x400_0000_0000);
    assert(b == 122 * 0x80_0000 + sb);
    let sp = (p - 122 * 0x80_0000) as nat;
    assert(0x80_0000 <= sp < 0x100_0000);
    let prod = sg * sp;
    lemma_product_known(POWER_GAIN, p, sg, 134, sp, 122, prod, 47, 0x4000_0000_0000, 0x80_0000);
    let m1 = mul_spec(POWER_GAIN, p);
    let s1 = nearest_even(prod, 0x80_0000);
    assert(m1 == 130 * 0x80_0000 + s1);
    assert(0x80_0000 <= s1 < 0x100_0000);
    let x2 = (s1 * 0x2 - sbias) as nat;
    assert(s1 * 0x2 - sbias * 1 == x2);
    lemma_sum_known(m1, 0x4158_6666, true, s1, 130, sbias, 129, 0x2, 1, x2, 24, 0x80_0000, 0x1);
    let s2 = nearest_even(x2, 0x1);
    let m2 = mul_add_spec(POWER_GAIN, p, POWER_BIAS);
    assert(m2 == 129 * 0x80_0000 + s2);
    lemma_whole_known(m2, s2, 129, 0x10_0000);
    assert(s2 / 0x10_0000 == n);
}

/// The codes 16 to 17.
#[verifier::rlimit(80)]
proof fn lemma_srgb_16_to_17(n: nat, p: u32)
    requires
        16 <= n <= 17,
        div_spec(number(1000 * n + 14025), number(269025)) - 4096 <= p <= div_spec(number(1000 * n + 14025), number(269025)) + 4096,
    ensures
        whole_part(mul_add_spec(POWER_GAIN, p, POWER_BIAS)) == n,
{
    lemma2_to64();
    lemma2_to64_rest();
    lemma_high_powers();
    let sg: nat = 0x86_8333;
    let sbias: nat = 0xd8_6666;
    let num: nat = 1000 * n + 14025;
    lemma_number_known(num, 15, 0x4000, 0x200);
    let s = number(num);
    let ss = num * 0x200;
    assert(s == 140 * 0x80_0000 + ss);
    lemma_number_known(269025, 19, 0x4_0000, 0x20);
    assert(number(269025) == 0x4883_5c20);
    let sd: nat = 0x83_5c20;
    let q = (ss * 0x1_0000_0000_0000_0000) / sd;
    let rest = (ss * 0x1_0000_0000_0000_0000) % sd;
    let nq: nat = if rest != 0 {
        2 * q + 1
    } else {
        2 * q
    };
    assert(0x1_0000_0000_0000_0000 <= q < 0x2_0000_0000_0000_0000);
    lemma_quotient_known(s, number(269025), ss, 140, sd, 144, q, rest, 66, 0x2_0000_0000_0000_0000, 0x400_0000_0000);
    let b = div_spec(s, number(269025));
    let sb = nearest_even(nq, 0x400_0000_0000);
    assert(b == 122 * 0x80_0000 + sb);
    let sp = (p - 122 * 0x80_0000) as nat;
    assert(0x80_0000 <= sp < 0x100_0000);
    let prod = sg * sp;
    lemma_product_known(POWER_GAIN, p, sg, 134, sp, 122, prod, 47, 0x4000_0000_0000, 0x80_0000);
    let m1 = mul_spec(POWER_GAIN, p);
    let s1 = nearest_even(prod, 0x80_0000);
    assert(m1 == 130 * 0x80_0000 + s1);
    assert(0x80_0000 <= s1 < 0x100_0000);
    let x2 = (s1 * 0x2 - sbias) as nat;
    assert(s1 * 0x2 - sbias * 1 == x2);
    lemma_sum_known(m1, 0x4158_6666, true, s1, 130, sbias, 129, 0x2, 1, x2, 25, 0x100_0000, 0x2);
    let s2 = nearest_even(x2, 0x2);
    let m2 = mul_add_spec(POWER_GAIN, p, POWER_BIAS);
    assert(m2 == 130 * 0x80_0000 + s2);
    lemma_whole_known(m2, s2, 130, 0x8_0000);
    assert(s2 / 0x8_0000 == n);
}

/// The codes 18 to 18.
#[verifier::rlimit(80)]
proof fn lemma_srgb_18_to_18(n: nat, p: u32)
    requires
        18 <= n <= 18,
        div_spec(number(1000 * n + 14025), number(269025)) - 4096 <= p <= div_spec(number(1000 * n + 14025), number(269025)) + 4096,
    ensures
        whole_part(mul_add_spec(POWER_GAIN, p, POWER_BIAS)) == n,
{
    lemma2_to64();
    lemma2_to64_rest();
    lemma_high_powers();
    let sg: nat = 0x86_8333;
    let sbias: nat = 0xd8_6666;
    let num: nat = 1000 * n + 14025;
    lemma_number_known(num, 15, 0x4000, 0x200);
    let s = number(num);
    let ss = num * 0x200;
    assert(s == 140 * 0x80_0000 + ss);
    lemma_number_known(269025, 19, 0x4_0000, 0x20);
    assert(number(269025) == 0x4883_5c20);
    let sd: nat = 0x83_5c20;
    let q = (ss * 0x1_0000_0000_0000_0000) / sd;
    let rest = (ss * 0x1_0000_0000_0000_0000) % sd;
    let nq: nat = if rest != 0 {
        2 * q + 1
    } else {
        2 * q
    };
    assert(0x1_0000_0000_0000_0000 <= q < 0x2_0000_0000_0000_0000);
    lemma_quotient_known(s, number(269025), ss, 140, sd, 144, q, rest, 66, 0x2_0000_0000_0000_0000, 0x400_0000_0000);
    let b = div_spec(s, number(269025));
    let sb = nearest_even(nq, 0x400_0000_0000);
    assert(b == 122 * 0x80_0000 + sb);
    let sp = (p - 122 * 0x80_0000) as nat;
    assert(0x80_0000 <= sp < 0x100_0000);
    let prod = sg * sp;
    lemma_product_known(POWER_GAIN, p, sg, 134, sp, 122, prod, 48, 0x8000_0000_0000, 0x100_0000);
    let m1 = mul_spec(POWER_GAIN, p);
    let s1 = nearest_even(prod, 0x100_0000);
    assert(m1 == 131 * 0x80_0000 + s1);
    assert(0x80_0000 <= s1 < 0x100_0000);
    let x2 = (s1 * 0x4 - sbias) as nat;
    assert(s1 * 0x4 - sbias * 1 == x2);
    lemma_sum_known(m1, 0x4158_6666, true, s1, 131, sbias, 129, 0x4, 1, x2, 25, 0x100_0000, 0x2);
    let s2 = nearest_even(x2, 0x2);
    let m2 = mul_add_spec(POWER_GAIN, p, POWER_BIAS);
    assert(m2 == 130 * 0x80_0000 + s2);
    lemma_whole_known(m2, s2, 130, 0x8_0000);
    assert(s2 / 0x8_0000 == n);
}

/// The codes 19 to 19.
#[verifier::rlimit(80)]
proof fn lemma_srgb_19_to_19(n: nat, p: u32)
    requires
        19 <= n <= 19,
        div_spec(number(1000 * n + 14025), number(269025)) - 4096 <= p <= div_spec(number(1000 * n + 14025), number(269025)) + 4096,
    ensures
        whole_part(mul_add_spec(POWER_GAIN, p, POWER_BIAS)) == n,
{
    lemma2_to64();
    lemma2_to64_rest();
    lemma_high_powers();
    let sg: nat = 0x86_8333;
    let sbias: nat = 0xd8_6666;
    let num: nat = 1000 * n + 14025;
    lemma_number_known(num, 16, 0x8000, 0x100);
    let s = number(num);
    let ss = num * 0x100;
    assert(s == 141 * 0x80_0000 + ss);
    lemma_number_known(269025, 19, 0x4_0000, 0x20);
    assert(number(269025) == 0x4883_5c20);
    let sd: nat = 0x83_5c20;
    let q = (ss * 0x1_0000_0000_0000_0000) / sd;
    let rest = (ss * 0x1_0000_0000_0000_0000) % sd;
    let nq: nat = if rest != 0 {
        2 * q + 1
    } else {
        2 * q
    };
    assert(0x8000_0000_0000_0000 <= q < 0x1_0000_0000_0000_0000);
    lemma_quotient_known(s, number(269025), ss, 141, sd, 144, q, rest, 65, 0x1_0000_0000_0000_0000, 0x200_0000_0000);
    let b = div_spec(s, number(269025));
    let sb = nearest_even(nq, 0x200_0000_0000);
    assert(b == 122 * 0x80_0000 + sb);
    let sp = (p - 122 * 0x80_0000) as nat;
    assert(0x80_0000 <= sp < 0x100_0000);
    let prod = sg * sp;
    lemma_product_known(POWER_GAIN, p, sg, 134, sp, 122, prod, 48, 0x8000_0000_0000, 0x100_0000);
    let m1 = mul_spec(POWER_GAIN, p);
    let s1 = nearest_even(prod, 0x100_0000);
    assert(m1 == 131 * 0x80_0000 + s1);
    assert(0x80_0000 <= s1 < 0x100_0000);
    let x2 = (s1 * 0x4 - sbias) as nat;
    assert(s1 * 0x4 - sbias * 1 == x2);
    lemma_sum_known(m1, 0x4158_6666, true, s1, 131, sbias, 129, 0x4, 1, x2, 25, 0x100_0000, 0x2);
    let s2 = nearest_even(x2, 0x2);
    let m2 = mul_add_spec(POWER_GAIN, p, POWER_BIAS);
    assert(m2 == 130 * 0x80_0000 + s2);
    lemma_whole_known(m2, s2, 130, 0x8_0000);
    assert(s2 / 0x8_0000 == n);
}

/// The codes 20 to 31.
#[verifier::rlimit(80)]
proof fn lemma_srgb_20_to_31(n: nat, p: u32)
    requires
        20 <= n <= 31,
        div_spec(number(1000 * n + 14025), number(269025)) - 4096 <= p <= div_spec(number(1000 * n + 14025), number(269025)) + 4096,
    ensures
        whole_part(mul_add_spec(POWER_GAIN, p, POWER_BIAS)) == n,
{
    lemma2_to64();
    lemma2_to64_rest();
    lemma_high_powers();
    let sg: nat = 0x86_8333;
    let sbias: nat = 0xd8_6666;
    let num: nat = 1000 * n + 14025;
    lemma_number_known(num, 16, 0x8000, 0x100);
    let s = number(num);
    let ss = num * 0x100;
    assert(s == 141 * 0x80_0000 + ss);
    lemma_number_known(269025, 19, 0x4_0000, 0x20);
    assert(number(269025) == 0x4883_5c20);
    let sd: nat = 0x83_5c20;
    let q = (ss * 0x1_0000_0000_0000_0000) / sd;
    let rest = (ss * 0x1_0000_0000_0000_0000) % sd;
    let nq: nat = if rest != 0 {
        2 * q + 1
    } else {
        2 * q
    };
    assert(0x1_0000_0000_0000_0000 <= q < 0x2_0000_0000_0000_0000);
    lemma_quotient_known(s, number(269025), ss, 141, sd, 144, q, rest, 66, 0x2_0000_0000_0000_0000, 0x400_0000_0000);
    let b = div_spec(s, number(269025));
    let sb = nearest_even(nq, 0x400_0000_0000);
    assert(b == 123 * 0x80_0000 + sb);
    let sp = (p - 123 * 0x80_0000) as nat;
    assert(0x80_0000 <= sp < 0x100_0000);
    let prod = sg * sp;
    lemma_product_known(POWER_GAIN, p, sg, 134, sp, 123, prod, 47, 0x4000_0000_0000, 0x80_0000);
    let m1 = mul_spec(POWER_GAIN, p);
    let s1 = nearest_even(prod, 0x80_0000);
    assert(m1 == 131 * 0x80_0000 + s1);
    assert(0x80_0000 <= s1 < 0x100_0000);
    let x2 = (s1 * 0x4 - sbias) as nat;
    assert(s1 * 0x4 - sbias * 1 == x2);
    lemma_sum_known(m1, 0x4158_6666, true, s1, 131, sbias, 129, 0x4, 1, x2, 25, 0x100_0000, 0x2);
    let s2 = nearest_even(x2, 0x2);
    let m2 = mul_add_spec(POWER_GAIN, p, POWER_BIAS);
    assert(m2 == 130 * 0x80_0000 + s2);
    lemma_whole_known(m2, s2, 130, 0x8_0000);
    assert(s2 / 0x8_0000 == n);
}

/// The codes 32 to 49.
#[verifier::rlimit(80)]
proof fn lemma_srgb_32_to_49(n: nat, p: u32)
    requires
        32 <= n <= 49,
        div_spec(number(1000 * n + 14025), number(269025)) - 4096 <= p <= div_spec(number(1000 * n + 14025), number(269025)) + 4096,
    ensures
        whole_part(mul_add_spec(POWER_GAIN, p, POWER_BIAS)) == n,
{
    lemma2_to64();
    lemma2_to64_rest();
    lemma_high_powers();
    let sg: nat = 0x86_8333;
    let sbias: nat = 0xd8_6666;
    let num: nat = 1000 * n + 14025;
    lemma_number_known(num, 16, 0x8000, 0x100);
    let s = number(num);
    let ss = num * 0x100;
    assert(s == 141 * 0x80_0000 + ss);
    lemma_number_known(269025, 19, 0x4_0000, 0x20);
    assert(number(269025) == 0x4883_5c20);
    let sd: nat = 0x83_5c20;
    let q = (ss * 0x1_0000_0000_0000_0000) / sd;
    let rest = (ss * 0x1_0000_0000_0000_0000) % sd;
    let nq: nat = if rest != 0 {
        2 * q + 1
    } else {
        2 * q
    };
    assert(0x1_0000_0000_0000_0000 <= q < 0x2_0000_0000_0000_0000);
    lemma_quotient_known(s, number(269025), ss, 141, sd, 144, q, rest, 66, 0x2_0000_0000_0000_0000, 0x400_0000_0000);
    let b = div_spec(s, number(269025));
    let sb = nearest_even(nq, 0x400_0000_0000);
    assert(b == 123 * 0x80_0000 + sb);
    let sp = (p - 123 * 0x80_0000) as nat;
    assert(0x80_0000 <= sp < 0x100_0000);
    let prod = sg * sp;
    lemma_product_known(POWER_GAIN, p, sg, 134, sp, 123, prod, 47, 0x4000_0000_0000, 0x80_0000);
    let m1 = mul_spec(POWER_GAIN, p);
    let s1 = nearest_even(prod, 0x80_0000);
    assert(m1 == 131 * 0x80_0000 + s1);
    assert(0x80_0000 <= s1 < 0x100_0000);
    let x2 = (s1 * 0x4 - sbias) as nat;
    assert(s1 * 0x4 - sbias * 1 == x2);
    lemma_sum_known(m1, 0x4158_6666, true, s1, 131, sbias, 129, 0x4, 1, x2, 26, 0x200_0000, 0x4);
    let s2 = nearest_even(x2, 0x4);
    let m2 = mul_add_spec(POWER_GAIN, p, POWER_BIAS);
    assert(m2 == 131 * 0x80_0000 + s2);
    lemma_whole_known(m2, s2, 131, 0x4_0000);
    assert(s2 / 0x4_0000 == n);
}

/// The codes 50 to 51.
#[verifier::rlimit(80)]
proof fn lemma_srgb_50_to_51(n: nat, p: u32)
    requires
        50 <= n <= 51,
        div_spec(number(1000 * n + 14025), number(269025)) - 4096 <= p <= div_spec(number(1000 * n + 14025), number(269025)) + 4096,
    ensures
        whole_part(mul_add_spec(POWER_GAIN, p, POWER_BIAS)) == n,
{
    lemma2_to64();
    lemma2_to64_rest();
    lemma_high_powers();
    let sg: nat = 0x86_8333;
    let sbias: nat = 0xd8_6666;
    let num: nat = 1000 * n + 14025;
    lemma_number_known(num, 16, 0x8000, 0x100);
    let s = number(num);
    let ss = num * 0x100;
    assert(s == 141 * 0x80_0000 + ss);
    lemma_number_known(269025, 19, 0x4_0000, 0x20);
    assert(number(269025) == 0x4883_5c20);
    let sd: nat = 0x83_5c20;
    let q = (ss * 0x1_0000_0000_0000_0000) / sd;
    let rest = (ss * 0x1_0000_0000_0000_0000) % sd;
    let nq: nat = if rest != 0 {
        2 * q + 1
    } else {
        2 * q
    };
    assert(0x1_0000_0000_0000_0000 <= q < 0x2_0000_0000_0000_0000);
    lemma_quotient_known(s, number(269025), ss, 141, sd, 144, q, rest, 66, 0x2_0000_0000_0000_0000, 0x400_0000_0000);
    let b = div_spec(s, number(269025));
    let sb = nearest_even(nq, 0x400_0000_0000);
    assert(b == 123 * 0x80_0000 + sb);
    let sp = (p - 123 * 0x80_0000) as nat;
    assert(0x80_0000 <= sp < 0x100_0000);
    let prod = sg * sp;
    lemma_product_known(POWER_GAIN, p, sg, 134, sp, 123, prod, 48, 0x8000_0000_0000, 0x100_0000);
    let m1 = mul_spec(POWER_GAIN, p);
    let s1 = nearest_even(prod, 0x100_0000);
    assert(m1 == 132 * 0x80_0000 + s1);
    assert(0x80_0000 <= s1 < 0x100_0000);
    let x2 = (s1 * 0x8 - sbias) as nat;
    assert(s1 * 0x8 - sbias * 1 == x2);
    lemma_sum_known(m1, 0x4158_6666, true, s1, 132, sbias, 129, 0x8, 1, x2, 26, 0x200_0000, 0x4);
    let s2 = nearest_even(x2, 0x4);
    let m2 = mul_add_spec(POWER_GAIN, p, POWER_BIAS);
    assert(m2 == 131 * 0x80_0000 + s2);
    lemma_whole_known(m2, s2, 131, 0x4_0000);
    assert(s2 / 0x4_0000 == n);
}

/// The codes 52 to 53.
#[verifier::rlimit(80)]
proof fn lemma_srgb_52_to_53(n: nat, p: u32)
    requires
        52 <= n <= 53,
        div_spec(number(1000 * n + 14025), number(269025)) - 4096 <= p <= div_spec(number(1000 * n + 14025), number(269025)) + 4096,
    ensures
        whole_part(mul_add_spec(POWER_GAIN, p, POWER_BIAS)) == n,
{
    lemma2_to64();
    lemma2_to64_rest();
    lemma_high_powers();
    let sg: nat = 0x86_8333;
    let sbias: nat = 0xd8_6666;
    let num: nat = 1000 * n + 14025;
    lemma_number_known(num, 17, 0x1_0000, 0x80);
    let s = number(num);
    let ss = num * 0x80;
    assert(s == 142 * 0x80_0000 + ss);
    lemma_number_known(269025, 19, 0x4_0000, 0x20);
    assert(number(269025) == 0x4883_5c20);
    let sd: nat = 0x83_5c20;
    let q = (ss * 0x1_0000_0000_0000_0000) / sd;
    let rest = (ss * 0x1_0000_0000_0000_0000) % sd;
    let nq: nat = if rest != 0 {
        2 * q + 1
    } else {
        2 * q
    };
    assert(0x8000_0000_0000_0000 <= q < 0x1_0000_0000_0000_0000);
    lemma_quotient_known(s, number(269025), ss, 142, sd, 144, q, rest, 65, 0x1_0000_0000_0000_0000, 0x200_0000_0000);
    let b = div_spec(s, number(269025));
    let sb = nearest_even(nq, 0x200_0000_0000);
    assert(b == 123 * 0x80_0000 + sb);
    let sp = (p - 123 * 0x80_0000) as nat;
    assert(0x80_0000 <= sp < 0x100_0000);
    let prod = sg * sp;
    lemma_product_known(POWER_GAIN, p, sg, 134, sp, 123, prod, 48, 0x8000_0000_0000, 0x100_0000);
    let m1 = mul_spec(POWER_GAIN, p);
    let s1 = nearest_even(prod, 0x100_0000);
    assert(m1 == 132 * 0x80_0000 + s1);
    assert(0x80_0000 <= s1 < 0x100_0000);
    let x2 = (s1 * 0x8 - sbias) as nat;
    assert(s1 * 0x8 - sbias * 1 == x2);
    lemma_sum_known(m1, 0x4158_6666, true, s1, 132, sbias, 129, 0x8, 1, x2, 26, 0x200_0000, 0x4);
    let s2 = nearest_even(x2, 0x4);
    let m2 = mul_add_spec(POWER_GAIN, p, POWER_BIAS);
    assert(m2 == 131 * 0x80_0000 + s2);
    lemma_whole_known(m2, s2, 131, 0x4_0000);
    assert(s2 / 0x4_0000 == n);
}

/// The codes 54 to 63.
#[verifier::rlimit(80)]
proof fn lemma_srgb_54_to_63(n: nat, p: u32)
    requires
        54 <= n <= 63,
        div_spec(number(1000 * n + 14025), number(269025)) - 4096 <= p <= div_spec(number(1000 * n + 14025), number(269025)) + 4096,
    ensures
        whole_part(mul_add_spec(POWER_GAIN, p, POWER_BIAS)) == n,
{
    lemma2_to64();
    lemma2_to64_rest();
    lemma_high_powers();
    let sg: nat = 0x86_8333;
    let sbias: nat = 0xd8_6666;
    let num: nat = 1000 * n + 14025;
    lemma_number_known(num, 17, 0x1_0000, 0x80);
    let s = number(num);
    let ss = num * 0x80;
    assert(s == 142 * 0x80_0000 + ss);
    lemma_number_known(269025, 19, 0x4_0000, 0x20);
    assert(number(269025) == 0x4883_5c20);
    let sd: nat = 0x83_5c20;
    let q = (ss * 0x1_0000_0000_0000_0000) / sd;
    let rest = (ss * 0x1_0000_0000_0000_0000) % sd;
    let nq: nat = if rest != 0 {
        2 * q + 1
    } else {
        2 * q
    };
    assert(0x1_0000_0000_0000_0000 <= q < 0x2_0000_0000_0000_0000);
    lemma_quotient_known(s, number(269025), ss, 142, sd, 144, q, rest, 66, 0x2_0000_0000_0000_0000, 0x400_0000_0000);
    let b = div_spec(s, number(269025));
    let sb = nearest_even(nq, 0x400_0000_0000);
    assert(b == 124 * 0x80_0000 + sb);
    let sp = (p - 124 * 0x80_0000) as nat;
    assert(0x80_0000 <= sp < 0x100_0000);
    let prod = sg * sp;
    lemma_product_known(POWER_GAIN, p, sg, 134, sp, 124, prod, 47, 0x4000_0000_0000, 0x80_0000);
    let m1 = mul_spec(POWER_GAIN, p);
    let s1 = nearest_even(prod, 0x80_0000);
    assert(m1 == 132 * 0x80_0000 + s1);
    assert(0x80_0000 <= s1 < 0x100_0000);
    let x2 = (s1 * 0x8 - sbias) as nat;
    assert(s1 * 0x8 - sbias * 1 == x2);
    lemma_sum_known(m1, 0x4158_6666, true, s1, 132, sbias, 129, 0x8, 1, x2, 26, 0x200_0000, 0x4);
    let s2 = nearest_even(x2, 0x4);
    let m2 = mul_add_spec(POWER_GAIN, p, POWER_BIAS);
    assert(m2 == 131 * 0x80_0000 + s2);
    lemma_whole_known(m2, s2, 131, 0x4_0000);
    assert(s2 / 0x4_0000 == n);
}

/// The codes 64 to 113.
#[verifier::rlimit(80)]
proof fn lemma_srgb_64_to_113(n: nat, p: u32)
    requires
        64 <= n <= 113,
        div_spec(number(1000 * n + 14025), number(269025)) - 4096 <= p <= div_spec(number(1000 * n + 14025), number(269025)) + 4096,
    ensures
        whole_part(mul_add_spec(POWER_GAIN, p, POWER_BIAS)) == n,
{
    lemma2_to64();
    lemma2_to64_rest();
    lemma_high_powers();
    let sg: nat = 0x86_8333;
    let sbias: nat = 0xd8_6666;
    let num: nat = 1000 * n + 14025;
    lemma_number_known(num, 17, 0x1_0000, 0x80);
    let s = number(num);
    let ss = num * 0x80;
    assert(s == 142 * 0x80_0000 + ss);
    lemma_number_known(269025, 19, 0x4_0000, 0x20);
    assert(number(269025) == 0x4883_5c20);
    let sd: nat = 0x83_5c20;
    let q = (ss * 0x1_0000_0000_0000_0000) / sd;
    let rest = (ss * 0x1_0000_0000_0000_0000) % sd;
    let nq: nat = if rest != 0 {
        2 * q + 1
    } else {
        2 * q
    };
    assert(0x1_0000_0000_0000_0000 <= q < 0x2_0000_0000_0000_0000);
    lemma_quotient_known(s, number(269025), ss, 142, sd, 144, q, rest, 66, 0x2_0000_0000_0000_0000, 0x400_0000_0000);
    let b = div_spec(s, number(269025));
    let sb = nearest_even(nq, 0x400_0000_0000);
    assert(b == 124 * 0x80_0000 + sb);
    let sp = (p - 124 * 0x80_0000) as nat;
    assert(0x80_0000 <= sp < 0x100_0000);
    let prod = sg * sp;
    lemma_product_known(POWER_GAIN, p, sg, 134, sp, 124, prod, 47, 0x4000_0000_0000, 0x80_0000);
    let m1 = mul_spec(POWER_GAIN, p);
    let s1 = nearest_even(prod, 0x80_0000);
    assert(m1 == 132 * 0x80_0000 + s1);
    assert(0x80_0000 <= s1 < 0x100_0000);
    let x2 = (s1 * 0x8 - sbias) as nat;
    assert(s1 * 0x8 - sbias * 1 == x2);
    lemma_sum_known(m1, 0x4158_6666, true, s1, 132, sbias, 129, 0x8, 1, x2, 27, 0x400_0000, 0x8);
    let s2 = nearest_even(x2, 0x8);
    let m2 = mul_add_spec(POWER_GAIN, p, POWER_BIAS);
    assert(m2 == 132 * 0x80_0000 + s2);
    lemma_whole_known(m2, s2, 132, 0x2_0000);
    assert(s2 / 0x2_0000 == n);
}

/// The codes 114 to 114.
#[verifier::rlimit(80)]
proof fn lemma_srgb_114_to_114_below(n: nat, p: u32)
    requires
        114 <= n <= 114,
        div_spec(number(1000 * n + 14025), number(269025)) - 4096 <= p <= div_spec(number(1000 * n + 14025), number(269025)) + 4096,
        p < 0x3ef3_9b0a,
    ensures
        whole_part(mul_add_spec(POWER_GAIN, p, POWER_BIAS)) == n,
{
    lemma2_to64();
    lemma2_to64_rest();
    lemma_high_powers();
    let sg: nat = 0x86_8333;
    let sbias: nat = 0xd8_6666;
    let num: nat = 1000 * n + 14025;
    lemma_number_known(num, 17, 0x1_0000, 0x80);
    let s = number(num);
    let ss = num * 0x80;
    assert(s == 142 * 0x80_0000 + ss);
    lemma_number_known(269025, 19, 0x4_0000, 0x20);
    assert(number(269025) == 0x4883_5c20);
    let sd: nat = 0x83_5c20;
    let q = (ss * 0x1_0000_0000_0000_0000) / sd;
    let rest = (ss * 0x1_0000_0000_0000_0000) % sd;
    let nq: nat = if rest != 0 {
        2 * q + 1
    } else {
        2 * q
    };
    assert(0x1_0000_0000_0000_0000 <= q < 0x2_0000_0000_0000_0000);
    lemma_quotient_known(s, number(269025), ss, 142, sd, 144, q, rest, 66, 0x2_0000_0000_0000_0000, 0x400_0000_0000);
    let b = div_spec(s, number(269025));
    let sb = nearest_even(nq, 0x400_0000_0000);
    assert(b == 124 * 0x80_0000 + sb);
    let sp = (p - 124 * 0x80_0000) as nat;
    assert(0x80_0000 <= sp < 0x100_0000);
    let prod = sg * sp;
    lemma_product_known(POWER_GAIN, p, sg, 134, sp, 124, prod, 47, 0x4000_0000_0000, 0x80_0000);
    let m1 = mul_spec(POWER_GAIN, p);
    let s1 = nearest_even(prod, 0x80_0000);
    assert(m1 == 132 * 0x80_0000 + s1);
    assert(0x80_0000 <= s1 < 0x100_0000);
    let x2 = (s1 * 0x8 - sbias) as nat;
    assert(s1 * 0x8 - sbias * 1 == x2);
    lemma_sum_known(m1, 0x4158_6666, true, s1, 132, sbias, 129, 0x8, 1, x2, 27, 0x400_0000, 0x8);
    let s2 = nearest_even(x2, 0x8);
    let m2 = mul_add_spec(POWER_GAIN, p, POWER_BIAS);
    assert(m2 == 132 * 0x80_0000 + s2);
    lemma_whole_known(m2, s2, 132, 0x2_0000);
    assert(s2 / 0x2_0000 == n);
}

/// The codes 114 to 114.
#[verifier::rlimit(80)]
proof fn lemma_srgb_114_to_114_above(n: nat, p: u32)
    requires
        114 <= n <= 114,
        div_spec(number(1000 * n + 14025), number(269025)) - 4096 <= p <= div_spec(number(1000 * n + 14025), number(269025)) + 4096,
        p >= 0x3ef3_9b0a,
    ensures
        whole_part(mul_add_spec(POWER_GAIN, p, POWER_BIAS)) == n,
{
    lemma2_to64();
    lemma2_to64_rest();
    lemma_high_powers();
    let sg: nat = 0x86_8333;
    let sbias: nat = 0xd8_6666;
    let num: nat = 1000 * n + 14025;
    lemma_number_known(num, 17, 0x1_0000, 0x80);
    let s = number(num);
    let ss = num * 0x80;
    assert(s == 142 * 0x80_0000 + ss);
    lemma_number_known(269025, 19, 0x4_0000, 0x20);
    assert(number(269025) == 0x4883_5c20);
    let sd: nat = 0x83_5c20;
    let q = (ss * 0x1_0000_0000_0000_0000) / sd;
    let rest = (ss * 0x1_0000_0000_0000_0000) % sd;
    let nq: nat = if rest != 0 {
        2 * q + 1
    } else {
        2 * q
    };
    assert(0x1_0000_0000_0000_0000 <= q < 0x2_0000_0000_0000_0000);
    lemma_quotient_known(s, number(269025), ss, 142, sd, 144, q, rest, 66, 0x2_0000_0000_0000_0000, 0x400_0000_0000);
    let b = div_spec(s, number(269025));
    let sb = nearest_even(nq, 0x400_0000_0000);
    assert(b == 124 * 0x80_0000 + sb);
    let sp = (p - 124 * 0x80_0000) as nat;
    assert(0x80_0000 <= sp < 0x100_0000);
    let prod = sg * sp;
    lemma_product_known(POWER_GAIN, p, sg, 134, sp, 124, prod, 48, 0x8000_0000_0000, 0x100_0000);
    let m1 = mul_spec(POWER_GAIN, p);
    let s1 = nearest_even(prod, 0x100_0000);
    assert(m1 == 133 * 0x80_0000 + s1);
    assert(0x80_0000 <= s1 < 0x100_0000);
    let x2 = (s1 * 0x10 - sbias) as nat;
    assert(s1 * 0x10 - sbias * 1 == x2);
    lemma_sum_known(m1, 0x4158_6666, true, s1, 133, sbias, 129, 0x10, 1, x2, 27, 0x400_0000, 0x8);
    let s2 = nearest_even(x2, 0x8);
    let m2 = mul_add_spec(POWER_GAIN, p, POWER_BIAS);
    assert(m2 == 132 * 0x80_0000 + s2);
    lemma_whole_known(m2, s2, 132, 0x2_0000);
    assert(s2 / 0x2_0000 == n);
}

/// The codes 115 to 117.
#[verifier::rlimit(80)]
proof fn lemma_srgb_115_to_117(n: nat, p: u32)
    requires
        115 <= n <= 117,
        div_spec(number(1000 * n + 14025), number(269025)) - 4096 <= p <= div_spec(number(1000 * n + 14025), number(269025)) + 4096,
    ensures
        whole_part(mul_add_spec(POWER_GAIN, p, POWER_BIAS)) == n,
{
    lemma2_to64();
    lemma2_to64_rest();
    lemma_high_powers();
    let sg: nat = 0x86_8333;
    let sbias: nat = 0xd8_6666;
    let num: nat = 1000 * n + 14025;
    lemma_number_known(num, 17, 0x1_0000, 0x80);
    let s = number(num);
    let ss = num * 0x80;
    assert(s == 142 * 0x80_0000 + ss);
    lemma_number_known(269025, 19, 0x4_0000, 0x20);
    assert(number(269025) == 0x4883_5c20);
    let sd: nat = 0x83_5c20;
    let q = (ss * 0x1_0000_0000_0000_0000) / sd;
    let rest = (ss * 0x1_0000_0000_0000_0000) % sd;
    let nq: nat = if rest != 0 {
        2 * q + 1
    } else {
        2 * q
    };
    assert(0x1_0000_0000_0000_0000 <= q < 0x2_0000_0000_0000_0000);
    lemma_quotient_known(s, number(269025), ss, 142, sd, 144, q, rest, 66, 0x2_0000_0000_0000_0000, 0x400_0000_0000);
    let b = div_spec(s, number(269025));
    let sb = nearest_even(nq, 0x400_0000_0000);
    assert(b == 124 * 0x80_0000 + sb);
    let sp = (p - 124 * 0x80_0000) as nat;
    assert(0x80_0000 <= sp < 0x100_0000);
    let prod = sg * sp;
    lemma_product_known(POWER_GAIN, p, sg, 134, sp, 124, prod, 48, 0x8000_0000_0000, 0x100_0000);
    let m1 = mul_spec(POWER_GAIN, p);
    let s1 = nearest_even(prod, 0x100_0000);
    assert(m1 == 133 * 0x80_0000 + s1);
    assert(0x80_0000 <= s1 < 0x100_0000);
    let x2 = (s1 * 0x10 - sbias) as nat;
    assert(s1 * 0x10 - sbias * 1 == x2);
    lemma_sum_known(m1, 0x4158_6666, true, s1, 133, sbias, 129, 0x10, 1, x2, 27, 0x400_0000, 0x8);
    let s2 = nearest_even(x2, 0x8);
    let m2 = mul_add_spec(POWER_GAIN, p, POWER_BIAS);
    assert(m2 == 132 * 0x80_0000 + s2);
    lemma_whole_known(m2, s2, 132, 0x2_0000);
    assert(s2 / 0x2_0000 == n);
}

/// The codes 118 to 120.
#[verifier::rlimit(80)]
proof fn lemma_srgb_118_to_120(n: nat, p: u32)
    requires
        118 <= n <= 120,
        div_spec(number(1000 * n + 14025), number(269025)) - 4096 <= p <= div_spec(number(1000 * n + 14025), number(269025)) + 4096,
    ensures
        whole_part(mul_add_spec(POWER_GAIN, p, POWER_BIAS)) == n,
{
    lemma2_to64();
    lemma2_to64_rest();
    lemma_high_powers();
    let sg: nat = 0x86_8333;
    let sbias: nat = 0xd8_6666;
    let num: nat = 1000 * n + 14025;
    lemma_number_known(num, 18, 0x2_0000, 0x40);
    let s = number(num);
    let ss = num * 0x40;
    assert(s == 143 * 0x80_0000 + ss);
    lemma_number_known(269025, 19, 0x4_0000, 0x20);
    assert(number(269025) == 0x4883_5c20);
    let sd: nat = 0x83_5c20;
    let q = (ss * 0x1_0000_0000_0000_0000) / sd;
    let rest = (ss * 0x1_0000_0000_0000_0000) % sd;
    let nq: nat = if rest != 0 {
        2 * q + 1
    } else {
        2 * q
    };
    assert(0x8000_0000_0000_0000 <= q < 0x1_0000_0000_0000_0000);
    lemma_quotient_known(s, number(269025), ss, 143, sd, 144, q, rest, 65, 0x1_0000_0000_0000_0000, 0x200_0000_0000);
    let b = div_spec(s, number(269025));
    let sb = nearest_even(nq, 0x200_0000_0000);
    assert(b == 124 * 0x80_0000 + sb);
    let sp = (p - 124 * 0x80_0000) as nat;
    assert(0x80_0000 <= sp < 0x100_0000);
    let prod = sg * sp;
    lemma_product_known(POWER_GAIN, p, sg, 134, sp, 124, prod, 48, 0x8000_0000_0000, 0x100_0000);
    let m1 = mul_spec(POWER_GAIN, p);
    let s1 = nearest_even(prod, 0x100_0000);
    assert(m1 == 133 * 0x80_0000 + s1);
    assert(0x80_0000 <= s1 < 0x100_0000);
    let x2 = (s1 * 0x10 - sbias) as nat;
    assert(s1 * 0x10 - sbias * 1 == x2);
    lemma_sum_known(m1, 0x4158_6666, true, s1, 133, sbias, 129, 0x10, 1, x2, 27, 0x400_0000, 0x8);
    let s2 = nearest_even(x2, 0x8);
    let m2 = mul_add_spec(POWER_GAIN, p, POWER_BIAS);
    assert(m2 == 132 * 0x80_0000 + s2);
    lemma_whole_known(m2, s2, 132, 0x2_0000);
    assert(s2 / 0x2_0000 == n);
}

/// The codes 121 to 127.
#[verifier::rlimit(80)]
proof fn lemma_srgb_121_to_127(n: nat, p: u32)
    requires
        121 <= n <= 127,
        div_spec(number(1000 * n + 14025), number(269025)) - 4096 <= p <= div_spec(number(1000 * n + 14025), number(269025)) + 4096,
    ensures
        whole_part(mul_add_spec(POWER_GAIN, p, POWER_BIAS)) == n,
{
    lemma2_to64();
    lemma2_to64_rest();
    lemma_high_powers();
    let sg: nat = 0x86_8333;
    let sbias: nat = 0xd8_6666;
    let num: nat = 1000 * n + 14025;
    lemma_number_known(num, 18, 0x2_0000, 0x40);
    let s = number(num);
    let ss = num * 0x40;
    assert(s == 143 * 0x80_0000 + ss);
    lemma_number_known(269025, 19, 0x4_0000, 0x20);
    assert(number(269025) == 0x4883_5c20);
    let sd: nat = 0x83_5c20;
    let q = (ss * 0x1_0000_0000_0000_0000) / sd;
    let rest = (ss * 0x1_0000_0000_0000_0000) % sd;
    let nq: nat = if rest != 0 {
        2 * q + 1
    } else {
        2 * q
    };
    assert(0x1_0000_0000_0000_0000 <= q < 0x2_0000_0000_0000_0000);
    lemma_quotient_known(s, number(269025), ss, 143, sd, 144, q, rest, 66, 0x2_0000_0000_0000_0000, 0x400_0000_0000);
    let b = div_spec(s, number(269025));
    let sb = nearest_even(nq, 0x400_0000_0000);
    assert(b == 125 * 0x80_0000 + sb);
    let sp = (p - 125 * 0x80_0000) as nat;
    assert(0x80_0000 <= sp < 0x100_0000);
    let prod = sg * sp;
    lemma_product_known(POWER_GAIN, p, sg, 134, sp, 125, prod, 47, 0x4000_0000_0000, 0x80_0000);
    let m1 = mul_spec(POWER_GAIN, p);
    let s1 = nearest_even(prod, 0x80_0000);
    assert(m1 == 133 * 0x80_0000 + s1);
    assert(0x80_0000 <= s1 < 0x100_0000);
    let x2 = (s1 * 0x10 - sbias) as nat;
    assert(s1 * 0x10 - sbias * 1 == x2);
    lemma_sum_known(m1, 0x4158_6666, true, s1, 133, sbias, 129, 0x10, 1, x2, 27, 0x400_0000, 0x8);
    let s2 = nearest_even(x2, 0x8);
    let m2 = mul_add_spec(POWER_GAIN, p, POWER_BIAS);
    assert(m2 == 132 * 0x80_0000 + s2);
    lemma_whole_known(m2, s2, 132, 0x2_0000);
    assert(s2 / 0x2_0000 == n);
}

/// The codes 128 to 241.
#[verifier::rlimit(80)]
proof fn lemma_srgb_128_to_241(n: nat, p: u32)
    requires
        128 <= n <= 241,
        div_spec(number(1000 * n + 14025), number(269025)) - 4096 <= p <= div_spec(number(1000 * n + 14025), number(269025)) + 4096,
    ensures
        whole_part(mul_add_spec(POWER_GAIN, p, POWER_BIAS)) == n,
{
    lemma2_to64();
    lemma2_to64_rest();
    lemma_high_powers();
    let sg: nat = 0x86_8333;
    let sbias: nat = 0xd8_6666;
    let num: nat = 1000 * n + 14025;
    lemma_number_known(num, 18, 0x2_0000, 0x40);
    let s = number(num);
    let ss = num * 0x40;
    assert(s == 143 * 0x80_0000 + ss);
    lemma_number_known(269025, 19, 0x4_0000, 0x20);
    assert(number(269025) == 0x4883_5c20);
    let sd: nat = 0x83_5c20;
    let q = (ss * 0x1_0000_0000_0000_0000) / sd;
    let rest = (ss * 0x1_0000_0000_0000_0000) % sd;
    let nq: nat = if rest != 0 {
        2 * q + 1
    } else {
        2 * q
    };
    assert(0x1_0000_0000_0000_0000 <= q < 0x2_0000_0000_0000_0000);
    lemma_quotient_known(s, number(269025), ss, 143, sd, 144, q, rest, 66, 0x2_0000_0000_0000_0000, 0x400_0000_0000);
    let b = div_spec(s, number(269025));
    let sb = nearest_even(nq, 0x400_0000_0000);
    assert(b == 125 * 0x80_0000 + sb);
    let sp = (p - 125 * 0x80_0000) as nat;
    assert(0x80_0000 <= sp < 0x100_0000);
    let prod = sg * sp;
    lemma_product_known(POWER_GAIN, p, sg, 134, sp, 125, prod, 47, 0x4000_0000_0000, 0x80_0000);
    let m1 = mul_spec(POWER_GAIN, p);
    let s1 = nearest_even(prod, 0x80_0000);
    assert(m1 == 133 * 0x80_0000 + s1);
    assert(0x80_0000 <= s1 < 0x100_0000);
    let x2 = (s1 * 0x10 - sbias) as nat;
    assert(s1 * 0x10 - sbias * 1 == x2);
    lemma_sum_known(m1, 0x4158_6666, true, s1, 133, sbias, 129, 0x10, 1, x2, 28, 0x800_0000, 0x10);
    let s2 = nearest_even(x2, 0x10);
    let m2 = mul_add_spec(POWER_GAIN, p, POWER_BIAS);
    assert(m2 == 133 * 0x80_0000 + s2);
    lemma_whole_known(m2, s2, 133, 0x1_0000);
    assert(s2 / 0x1_0000 == n);
}

/// The codes 242 to 242.
#[verifier::rlimit(80)]
proof fn lemma_srgb_242_to_242_below(n: nat, p: u32)
    requires
        242 <= n <= 242,
        div_spec(number(1000 * n + 14025), number(269025)) - 4096 <= p <= div_spec(number(1000 * n + 14025), number(269025)) + 4096,
        p < 0x3f73_9b0a,
    ensures
        whole_part(mul_add_spec(POWER_GAIN, p, POWER_BIAS)) == n,
{
    lemma2_to64();
    lemma2_to64_rest();
    lemma_high_powers();
    let sg: nat = 0x86_8333;
    let sbias: nat = 0xd8_6666;
    let num: nat = 1000 * n + 14025;
    lemma_number_known(num, 18, 0x2_0000, 0x40);
    let s = number(num);
    let ss = num * 0x40;
    assert(s == 143 * 0x80_0000 + ss);
    lemma_number_known(269025, 19, 0x4_0000, 0x20);
    assert(number(269025) == 0x4883_5c20);
    let sd: nat = 0x83_5c20;
    let q = (ss * 0x1_0000_0000_0000_0000) / sd;
    let rest = (ss * 0x1_0000_0000_0000_0000) % sd;
    let nq: nat = if rest != 0 {
        2 * q + 1
    } else {
        2 * q
    };
    assert(0x1_0000_0000_0000_0000 <= q < 0x2_0000_0000_0000_0000);
    lemma_quotient_known(s, number(269025), ss, 143, sd, 144, q, rest, 66, 0x2_0000_0000_0000_0000, 0x400_0000_0000);
    let b = div_spec(s, number(269025));
    let sb = nearest_even(nq, 0x400_0000_0000);
    assert(b == 125 * 0x80_0000 + sb);
    let sp = (p - 125 * 0x80_0000) as nat;
    assert(0x80_0000 <= sp < 0x100_0000);
    let prod = sg * sp;
    lemma_product_known(POWER_GAIN, p, sg, 134, sp, 125, prod, 47, 0x4000_0000_0000, 0x80_0000);
    let m1 = mul_spec(POWER_GAIN, p);
    let s1 = nearest_even(prod, 0x80_0000);
    assert(m1 == 133 * 0x80_0000 + s1);
    assert(0x80_0000 <= s1 < 0x100_0000);
    let x2 = (s1 * 0x10 - sbias) as nat;
    assert(s1 * 0x10 - sbias * 1 == x2);
    lemma_sum_known(m1, 0x4158_6666, true, s1, 133, sbias, 129, 0x10, 1, x2, 28, 0x800_0000, 0x10);
    let s2 = nearest_even(x2, 0x10);
    let m2 = mul_add_spec(POWER_GAIN, p, POWER_BIAS);
    assert(m2 == 133 * 0x80_0000 + s2);
    lemma_whole_known(m2, s2, 133, 0x1_0000);
    assert(s2 / 0x1_0000 == n);
}

/// The codes 242 to 242.
#[verifier::rlimit(80)]
proof fn lemma_srgb_242_to_242_above(n: nat, p: u32)
    requires
        242 <= n <= 242,
        div_spec(number(1000 * n + 14025), number(269025)) - 4096 <= p <= div_spec(number(1000 * n + 14025), number(269025)) + 4096,
        p >= 0x3f73_9b0a,
    ensures
        whole_part(mul_add_spec(POWER_GAIN, p, POWER_BIAS)) == n,
{
    lemma2_to64();
    lemma2_to64_rest();
    lemma_high_powers();
    let sg: nat = 0x86_8333;
    let sbias: nat = 0xd8_6666;
    let num: nat = 1000 * n + 14025;
    lemma_number_known(num, 18, 0x2_0000, 0x40);
    let s = number(num);
    let ss = num * 0x40;
    assert(s == 143 * 0x80_0000 + ss);
    lemma_number_known(269025, 19, 0x4_0000, 0x20);
    assert(number(269025) == 0x4883_5c20);
    let sd: nat = 0x83_5c20;
    let q = (ss * 0x1_0000_0000_0000_0000) / sd;
    let rest = (ss * 0x1_0000_0000_0000_0000) % sd;
    let nq: nat = if rest != 0 {
        2 * q + 1
    } else {
        2 * q
    };
    assert(0x1_0000_0000_0000_0000 <= q < 0x2_0000_0000_0000_0000);
    lemma_quotient_known(s, number(269025), ss, 143, sd, 144, q, rest, 66, 0x2_0000_0000_0000_0000, 0x400_0000_0000);
    let b = div_spec(s, number(269025));
    let sb = nearest_even(nq, 0x400_0000_0000);
    assert(b == 125 * 0x80_0000 + sb);
    let sp = (p - 125 * 0x80_0000) as nat;
    assert(0x80_0000 <= sp < 0x100_0000);
    let prod = sg * sp;
    lemma_product_known(POWER_GAIN, p, sg, 134, sp, 125, prod, 48, 0x8000_0000_0000, 0x100_0000);
    let m1 = mul_spec(POWER_GAIN, p);
    let s1 = nearest_even(prod, 0x100_0000);
    assert(m1 == 134 * 0x80_0000 + s1);
    assert(0x80_0000 <= s1 < 0x100_0000);
    let x2 = (s1 * 0x20 - sbias) as nat;
    assert(s1 * 0x20 - sbias * 1 == x2);
    lemma_sum_known(m1, 0x4158_6666, true, s1, 134, sbias, 129, 0x20, 1, x2, 28, 0x800_0000, 0x10);
    let s2 = nearest_even(x2, 0x10);
    let m2 = mul_add_spec(POWER_GAIN, p, POWER_BIAS);
    assert(m2 == 133 * 0x80_0000 + s2);
    lemma_whole_known(m2, s2, 133, 0x1_0000);
    assert(s2 / 0x1_0000 == n);
}

/// The codes 243 to 248.
#[verifier::rlimit(80)]
proof fn lemma_srgb_243_to_248(n: nat, p: u32)
    requires
        243 <= n <= 248,
        div_spec(number(1000 * n + 14025), number(269025)) - 4096 <= p <= div_spec(number(1000 * n + 14025), number(269025)) + 4096,
    ensures
        whole_part(mul_add_spec(POWER_GAIN, p, POWER_BIAS)) == n,
{
    lemma2_to64();
    lemma2_to64_rest();
    lemma_high_powers();
    let sg: nat = 0x86_8333;
    let sbias: nat = 0xd8_6666;
    let num: nat = 1000 * n + 14025;
    lemma_number_known(num, 18, 0x2_0000, 0x40);
    let s = number(num);
    let ss = num * 0x40;
    assert(s == 143 * 0x80_0000 + ss);
    lemma_number_known(269025, 19, 0x4_0000, 0x20);
    assert(number(269025) == 0x4883_5c20);
    let sd: nat = 0x83_5c20;
    let q = (ss * 0x1_0000_0000_0000_0000) / sd;
    let rest = (ss * 0x1_0000_0000_0000_0000) % sd;
    let nq: nat = if rest != 0 {
        2 * q + 1
    } else {
        2 * q
    };
    assert(0x1_0000_0000_0000_0000 <= q < 0x2_0000_0000_0000_0000);
    lemma_quotient_known(s, number(269025), ss, 143, sd, 144, q, rest, 66, 0x2_0000_0000_0000_0000, 0x400_0000_0000);
    let b = div_spec(s, number(269025));
    let sb = nearest_even(nq, 0x400_0000_0000);
    assert(b == 125 * 0x80_0000 + sb);
    let sp = (p - 125 * 0x80_0000) as nat;
    assert(0x80_0000 <= sp < 0x100_0000);
    let prod = sg * sp;
    lemma_product_known(POWER_GAIN, p, sg, 134, sp, 125, prod, 48, 0x8000_0000_0000, 0x100_0000);
    let m1 = mul_spec(POWER_GAIN, p);
    let s1 = nearest_even(prod, 0x100_0000);
    assert(m1 == 134 * 0x80_0000 + s1);
    assert(0x80_0000 <= s1 < 0x100_0000);
    let x2 = (s1 * 0x20 - sbias) as nat;
    assert(s1 * 0x20 - sbias * 1 == x2);
    lemma_sum_known(m1, 0x4158_6666, true, s1, 134, sbias, 129, 0x20, 1, x2, 28, 0x800_0000, 0x10);
    let s2 = nearest_even(x2, 0x10);
    let m2 = mul_add_spec(POWER_GAIN, p, POWER_BIAS);
    assert(m2 == 133 * 0x80_0000 + s2);
    lemma_whole_known(m2, s2, 133, 0x1_0000);
    assert(s2 / 0x1_0000 == n);
}

/// The codes 249 to 254.
#[verifier::rlimit(80)]
proof fn lemma_srgb_249_to_254(n: nat, p: u32)
    requires
        249 <= n <= 254,
        div_spec(number(1000 * n + 14025), number(269025)) - 4096 <= p <= div_spec(number(1000 * n + 14025), number(269025)) + 4096,
    ensures
        whole_part(mul_add_spec(POWER_GAIN, p, POWER_BIAS)) == n,
{
    lemma2_to64();
    lemma2_to64_rest();
    lemma_high_powers();
    let sg: nat = 0x86_8333;
    let sbias: nat = 0xd8_6666;
    let num: nat = 1000 * n + 14025;
    lemma_number_known(num, 19, 0x4_0000, 0x20);
    let s = number(num);
    let ss = num * 0x20;
    assert(s == 144 * 0x80_0000 + ss);
    lemma_number_known(269025, 19, 0x4_0000, 0x20);
    assert(number(269025) == 0x4883_5c20);
    let sd: nat = 0x83_5c20;
    let q = (ss * 0x1_0000_0000_0000_0000) / sd;
    let rest = (ss * 0x1_0000_0000_0000_0000) % sd;
    let nq: nat = if rest != 0 {
        2 * q + 1
    } else {
        2 * q
    };
    assert(0x8000_0000_0000_0000 <= q < 0x1_0000_0000_0000_0000);
    lemma_quotient_known(s, number(269025), ss, 144, sd, 144, q, rest, 65, 0x1_0000_0000_0000_0000, 0x200_0000_0000);
    let b = div_spec(s, number(269025));
    let sb = nearest_even(nq, 0x200_0000_0000);
    assert(b == 125 * 0x80_0000 + sb);
    let sp = (p - 125 * 0x80_0000) as nat;
    assert(0x80_0000 <= sp < 0x100_0000);
    let prod = sg * sp;
    lemma_product_known(POWER_GAIN, p, sg, 134, sp, 125, prod, 48, 0x8000_0000_0000, 0x100_0000);
    let m1 = mul_spec(POWER_GAIN, p);
    let s1 = nearest_even(prod, 0x100_0000);
    assert(m1 == 134 * 0x80_0000 + s1);
    assert(0x80_0000 <= s1 < 0x100_0000);
    let x2 = (s1 * 0x20 - sbias) as nat;
    assert(s1 * 0x20 - sbias * 1 == x2);
    lemma_sum_known(m1, 0x4158_6666, true, s1, 134, sbias, 129, 0x20, 1, x2, 28, 0x800_0000, 0x10);
    let s2 = nearest_even(x2, 0x10);
    let m2 = mul_add_spec(POWER_GAIN, p, POWER_BIAS);
    assert(m2 == 133 * 0x80_0000 + s2);
    lemma_whole_known(m2, s2, 133, 0x1_0000);
    assert(s2 / 0x1_0000 == n);
}

/// The codes 255 to 255.
#[verifier::rlimit(80)]
proof fn lemma_srgb_255_to_255_below(n: nat, p: u32)
    requires
        255 <= n <= 255,
        div_spec(number(1000 * n + 14025), number(269025)) - 4096 <= p <= div_spec(number(1000 * n + 14025), number(269025)) + 4096,
        p < 0x3f80_0000,
    ensures
        whole_part(mul_add_spec(POWER_GAIN, p, POWER_BIAS)) == n,
{
    lemma2_to64();
    lemma2_to64_rest();
    lemma_high_powers();
    let sg: nat = 0x86_8333;
    let sbias: nat = 0xd8_6666;
    let num: nat = 1000 * n + 14025;
    lemma_number_known(num, 19, 0x4_0000, 0x20);
    let s = number(num);
    let ss = num * 0x20;
    assert(s == 144 * 0x80_0000 + ss);
    lemma_number_known(269025, 19, 0x4_0000, 0x20);
    assert(number(269025) == 0x4883_5c20);
    let sd: nat = 0x83_5c20;
    let q = (ss * 0x1_0000_0000_0000_0000) / sd;
    let rest = (ss * 0x1_0000_0000_0000_0000) % sd;
    let nq: nat = if rest != 0 {
        2 * q + 1
    } else {
        2 * q
    };
    assert(0x1_0000_0000_0000_0000 <= q < 0x2_0000_0000_0000_0000);
    lemma_quotient_known(s, number(269025), ss, 144, sd, 144, q, rest, 66, 0x2_0000_0000_0000_0000, 0x400_0000_0000);
    let b = div_spec(s, number(269025));
    let sb = nearest_even(nq, 0x400_0000_0000);
    assert(b == 126 * 0x80_0000 + sb);
    let sp = (p - 125 * 0x80_0000) as nat;
    assert(0x80_0000 <= sp < 0x100_0000);
    let prod = sg * sp;
    lemma_product_known(POWER_GAIN, p, sg, 134, sp, 125, prod, 48, 0x8000_0000_0000, 0x100_0000);
    let m1 = mul_spec(POWER_GAIN, p);
    let s1 = nearest_even(prod, 0x100_0000);
    assert(m1 == 134 * 0x80_0000 + s1);
    assert(0x80_0000 <= s1 < 0x100_0000);
    let x2 = (s1 * 0x20 - sbias) as nat;
    assert(s1 * 0x20 - sbias * 1 == x2);
    lemma_sum_known(m1, 0x4158_6666, true, s1, 134, sbias, 129, 0x20, 1, x2, 28, 0x800_0000, 0x10);
    let s2 = nearest_even(x2, 0x10);
    let m2 = mul_add_spec(POWER_GAIN, p, POWER_BIAS);
    assert(m2 == 133 * 0x80_0000 + s2);
    lemma_whole_known(m2, s2, 133, 0x1_0000);
    assert(s2 / 0x1_0000 == n);
}

/// The codes 255 to 255.
#[verifier::rlimit(80)]
proof fn lemma_srgb_255_to_255_above(n: nat, p: u32)
    requires
        255 <= n <= 255,
        div_spec(number(1000 * n + 14025), number(269025)) - 4096 <= p <= div_spec(number(1000 * n + 14025), number(269025)) + 4096,
        p >= 0x3f80_0000,
    ensures
        whole_part(mul_add_spec(POWER_GAIN, p, POWER_BIAS)) == n,
{
    lemma2_to64();
    lemma2_to64_rest();
    lemma_high_powers();
    let sg: nat = 0x86_8333;
    let sbias: nat = 0xd8_6666;
    let num: nat = 1000 * n + 14025;
    lemma_number_known(num, 19, 0x4_0000, 0x20);
    let s = number(num);
    let ss = num * 0x20;
    assert(s == 144 * 0x80_0000 + ss);
    lemma_number_known(269025, 19, 0x4_0000, 0x20);
    assert(number(269025) == 0x4883_5c20);
    let sd: nat = 0x83_5c20;
    let q = (ss * 0x1_0000_0000_0000_0000) / sd;
    let rest = (ss * 0x1_0000_0000_0000_0000) % sd;
    let nq: nat = if rest != 0 {
        2 * q + 1
    } else {
        2 * q
    };
    assert(0x1_0000_0000_0000_0000 <= q < 0x2_0000_0000_0000_0000);
    lemma_quotient_known(s, number(269025), ss, 144, sd, 144, q, rest, 66, 0x2_0000_0000_0000_0000, 0x400_0000_0000);
    let b = div_spec(s, number(269025));
    let sb = nearest_even(nq, 0x400_0000_0000);
    assert(b == 126 * 0x80_0000 + sb);
    let sp = (p - 126 * 0x80_0000) as nat;
    assert(0x80_0000 <= sp < 0x100_0000);
    let prod = sg * sp;
    lemma_product_known(POWER_GAIN, p, sg, 134, sp, 126, prod, 47, 0x4000_0000_0000, 0x80_0000);
    let m1 = mul_spec(POWER_GAIN, p);
    let s1 = nearest_even(prod, 0x80_0000);
    assert(m1 == 134 * 0x80_0000 + s1);
    assert(0x80_0000 <= s1 < 0x100_0000);
    let x2 = (s1 * 0x20 - sbias) as nat;
    assert(s1 * 0x20 - sbias * 1 == x2);
    lemma_sum_known(m1, 0x4158_6666, true, s1, 134, sbias, 129, 0x20, 1, x2, 28, 0x800_0000, 0x10);
    let s2 = nearest_even(x2, 0x10);
    let m2 = mul_add_spec(POWER_GAIN, p, POWER_BIAS);
    assert(m2 == 133 * 0x80_0000 + s2);
    lemma_whole_known(m2, s2, 133, 0x1_0000);
    assert(s2 / 0x1_0000 == n);
}

/// The last code, for a power below one.
#[verifier::rlimit(80)]
proof fn lemma_8bit_last_below(n: nat, p: u32)
    requires
        219 <= n <= 219,
        ONE - 4096 <= p <= ONE + 4096,
        p < ONE,
    ensures
        whole_part(mul_add_spec(REC709_GAIN_8BIT, p, REC709_BIAS_8BIT)) == n,
{
    lemma2_to64();
    lemma2_to64_rest();
    lemma_high_powers();
    let sg: nat = 0xf0_ae56;
    let sbias: nat = 0xa9_72b0;
    let sp = (p - 125 * 0x80_0000) as nat;
    assert(0x80_0000 <= sp < 0x100_0000);
    let prod = sg * sp;
    lemma_product_known(REC709_GAIN_8BIT, p, sg, 133, sp, 125, prod, 48, 0x8000_0000_0000, 0x100_0000);
    let m1 = mul_spec(REC709_GAIN_8BIT, p);
    let s1 = nearest_even(prod, 0x100_0000);
    assert(m1 == 133 * 0x80_0000 + s1);
    assert(0x80_0000 <= s1 < 0x100_0000);
    let x2 = (s1 * 0x8 - sbias) as nat;
    assert(s1 * 0x8 - sbias * 1 == x2);
    lemma_sum_known(m1, 0x41a9_72b0, true, s1, 133, sbias, 130, 0x8, 1, x2, 27, 0x400_0000, 0x8);
    let s2 = nearest_even(x2, 0x8);
    let m2 = mul_add_spec(REC709_GAIN_8BIT, p, REC709_BIAS_8BIT);
    assert(m2 == 133 * 0x80_0000 + s2);
    lemma_whole_known(m2, s2, 133, 0x1_0000);
    assert(s2 / 0x1_0000 == n);
}

/// The last code, for a power from one.
#[verifier::rlimit(80)]
proof fn lemma_8bit_last_above(n: nat, p: u32)
    requires
        219 <= n <= 219,
        ONE - 4096 <= p <= ONE + 4096,
        p >= ONE,
    ensures
        whole_part(mul_add_spec(REC709_GAIN_8BIT, p, REC709_BIAS_8BIT)) == n,
{
    lemma2_to64();
    lemma2_to64_rest();
    lemma_high_powers();
    let sg: nat = 0xf0_ae56;
    let sbias: nat = 0xa9_72b0;
    let sp = (p - 126 * 0x80_0000) as nat;
    assert(0x80_0000 <= sp < 0x100_0000);
    let prod = sg * sp;
    lemma_product_known(REC709_GAIN_8BIT, p, sg, 133, sp, 126, prod, 47, 0x4000_0000_0000, 0x80_0000);
    let m1 = mul_spec(REC709_GAIN_8BIT, p);
    let s1 = nearest_even(prod, 0x80_0000);
    assert(m1 == 133 * 0x80_0000 + s1);
    assert(0x80_0000 <= s1 < 0x100_0000);
    let x2 = (s1 * 0x8 - sbias) as nat;
    assert(s1 * 0x8 - sbias * 1 == x2);
    lemma_sum_known(m1, 0x41a9_72b0, true, s1, 133, sbias, 130, 0x8, 1, x2, 27, 0x400_0000, 0x8);
    let s2 = nearest_even(x2, 0x8);
    let m2 = mul_add_spec(REC709_GAIN_8BIT, p, REC709_BIAS_8BIT);
    assert(m2 == 133 * 0x80_0000 + s2);
    lemma_whole_known(m2, s2, 133, 0x1_0000);
    assert(s2 / 0x1_0000 == n);
}

/// The last code, for a power below one.
#[verifier::rlimit(80)]
proof fn lemma_10bit_last_below(n: nat, p: u32)
    requires
        876 <= n <= 876,
        ONE - 4096 <= p <= ONE + 4096,
        p < ONE,
    ensures
        whole_part(mul_add_spec(REC709_GAIN_10BIT, p, REC709_BIAS_10BIT)) == n,
{
    lemma2_to64();
    lemma2_to64_rest();
    lemma_high_powers();
    let sg: nat = 0xf0_ae56;
    let sbias: nat = 0xac_72b0;
    let sp = (p - 125 * 0x80_0000) as nat;
    assert(0x80_0000 <= sp < 0x100_0000);
    let prod = sg * sp;
    lemma_product_known(REC709_GAIN_10BIT, p, sg, 135, sp, 125, prod, 48, 0x8000_0000_0000, 0x100_0000);
    let m1 = mul_spec(REC709_GAIN_10BIT, p);
    let s1 = nearest_even(prod, 0x100_0000);
    assert(m1 == 135 * 0x80_0000 + s1);
    assert(0x80_0000 <= s1 < 0x100_0000);
    let x2 = (s1 * 0x8 - sbias) as nat;
    assert(s1 * 0x8 - sbias * 1 == x2);
    lemma_sum_known(m1, 0x42ac_72b0, true, s1, 135, sbias, 132, 0x8, 1, x2, 27, 0x400_0000, 0x8);
    let s2 = nearest_even(x2, 0x8);
    let m2 = mul_add_spec(REC709_GAIN_10BIT, p, REC709_BIAS_10BIT);
    assert(m2 == 135 * 0x80_0000 + s2);
    lemma_whole_known(m2, s2, 135, 0x4000);
    assert(s2 / 0x4000 == n);
}

/// The last code, for a power from one.
#[verifier::rlimit(80)]
proof fn lemma_10bit_last_above(n: nat, p: u32)
    requires
        876 <= n <= 876,
        ONE - 4096 <= p <= ONE + 4096,
        p >= ONE,
    ensures
        whole_part(mul_add_spec(REC709_GAIN_10BIT, p, REC709_BIAS_10BIT)) == n,
{
    lemma2_to64();
    lemma2_to64_rest();
    lemma_high_powers();
    let sg: nat = 0xf0_ae56;
    let sbias: nat = 0xac_72b0;
    let sp = (p - 126 * 0x80_0000) as nat;
    assert(0x80_0000 <= sp < 0x100_0000);
    let prod = sg * sp;
    lemma_product_known(REC709_GAIN_10BIT, p, sg, 135, sp, 126, prod, 47, 0x4000_0000_0000, 0x80_0000);
    let m1 = mul_spec(REC709_GAIN_10BIT, p);
    let s1 = nearest_even(prod, 0x80_0000);
    assert(m1 == 135 * 0x80_0000 + s1);
    assert(0x80_0000 <= s1 < 0x100_0000);
    let x2 = (s1 * 0x8 - sbias) as nat;
    assert(s1 * 0x8 - sbias * 1 == x2);
    lemma_sum_known(m1, 0x42ac_72b0, true, s1, 135, sbias, 132, 0x8, 1, x2, 27, 0x400_0000, 0x8);
    let s2 = nearest_even(x2, 0x8);
    let m2 = mul_add_spec(REC709_GAIN_10BIT, p, REC709_BIAS_10BIT);
    assert(m2 == 135 * 0x80_0000 + s2);
    lemma_whole_known(m2, s2, 135, 0x4000);
    assert(s2 / 0x4000 == n);
}

/// The last 8-bit Rec.709 code survives: code 235 expands to 1, which
/// compression asks to be raised, and finishes to the code from every
/// power within [`TOLERANCE`] of 1, where an exact power of 1 lies.
pub proof fn lemma_rec709_8bit_last_code_survives(p: u32)
    requires
        ONE - TOLERANCE <= p <= ONE + TOLERANCE,
    ensures
        expand_rec709_spec(235, 16, 33, 235, REC709_SLOPE_8BIT, REC709_OFFSET_8BIT, REC709_GAIN_8BIT) == Step::Done(ONE),
        compress_rec709_spec(
            ONE,
            16,
            219,
            REC709_SLOPE_8BIT,
            Step::Raise { base: ONE, exponent: REC709_COMPRESS_EXPONENT },
        ),
        code_above(mul_add_spec(REC709_GAIN_8BIT, p, REC709_BIAS_8BIT), 16, 219) == 235,
{
    crate::binary32::lemma_less_by_rank(REC709_BREAK, ONE);
    crate::binary32::lemma_less_by_rank(ONE, ONE);
    if p < ONE {
        lemma_8bit_last_below(219, p);
    } else {
        lemma_8bit_last_above(219, p);
    }
}

/// The last 10-bit Rec.709 code survives: code 940 expands to 1, which
/// compression asks to be raised, and finishes to the code from every
/// power within [`TOLERANCE`] of 1, where an exact power of 1 lies.
pub proof fn lemma_rec709_10bit_last_code_survives(p: u32)
    requires
        ONE - TOLERANCE <= p <= ONE + TOLERANCE,
    ensures
        expand_rec709_spec(940, 64, 134, 940, REC709_SLOPE_10BIT, REC709_OFFSET_10BIT, REC709_GAIN_10BIT) == Step::Done(ONE),
        compress_rec709_spec(
            ONE,
            64,
            876,
            REC709_SLOPE_10BIT,
            Step::Raise { base: ONE, exponent: REC709_COMPRESS_EXPONENT },
        ),
        code_above(mul_add_spec(REC709_GAIN_10BIT, p, REC709_BIAS_10BIT), 64, 876) == 940,
{
    crate::binary32::lemma_less_by_rank(REC709_BREAK, ONE);
    crate::binary32::lemma_less_by_rank(ONE, ONE);
    if p < ONE {
        lemma_10bit_last_below(876, p);
    } else {
        lemma_10bit_last_above(876, p);
    }
}

/// The two Rec.709 codings compress the last code alike: from every power
/// within [`TOLERANCE`] of 1, the 10-bit code is 940 and the 8-bit code 235.
pub proof fn lemma_rec709_codings_compress_the_last_code_alike(p: u32)
    requires
        ONE - TOLERANCE <= p <= ONE + TOLERANCE,
    ensures
        code_above(mul_add_spec(REC709_GAIN_10BIT, p, REC709_BIAS_10BIT), 64, 876) == 4
            * code_above(mul_add_spec(REC709_GAIN_8BIT, p, REC709_BIAS_8BIT), 16, 219),
{
    lemma_rec709_8bit_last_code_survives(p);
    lemma_rec709_10bit_last_code_survives(p);
}

/// An 8-bit Rec.709 code of the power piece survives: where expansion asks
/// for `base` to be raised, compression finishes to the code from every
/// power within [`TOLERANCE`] of `base`.
pub proof fn lemma_rec709_8bit_survives(v: int, base: u32, p: u32)
    requires
        33 < v < 235,
        expand_rec709_spec(
            v,
            16,
            33,
            235,
            REC709_SLOPE_8BIT,
            REC709_OFFSET_8BIT,
            REC709_GAIN_8BIT,
        ) == (Step::<u32>::Raise { base, exponent: REC709_EXPAND_EXPONENT }),
        base - TOLERANCE <= p <= base + TOLERANCE,
    ensures
        code_above(mul_add_spec(REC709_GAIN_8BIT, p, REC709_BIAS_8BIT), 16, 219) == v,
{
    let n = (v - 16) as nat;
    if n <= 31 {
        lemma_8bit_18_to_31(n, p);
    } else if n <= 38 {
        lemma_8bit_32_to_38(n, p);
    } else if n <= 42 {
        lemma_8bit_39_to_42(n, p);
    } else if n <= 63 {
        lemma_8bit_43_to_63(n, p);
    } else if n <= 98 {
        lemma_8bit_64_to_98(n, p);
    } else if n <= 106 {
        lemma_8bit_99_to_106(n, p);
    } else if n <= 127 {
        lemma_8bit_107_to_127(n, p);
    } else if n <= 218 {
        lemma_8bit_128_to_218(n, p);
    }
}

/// A 10-bit Rec.709 code of the power piece survives: where expansion asks
/// for `base` to be raised, compression finishes to the code from every
/// power within [`TOLERANCE`] of `base`.
pub proof fn lemma_rec709_10bit_survives(v: int, base: u32, p: u32)
    requires
        134 < v < 940,
        expand_rec709_spec(
            v,
            64,
            134,
            940,
            REC709_SLOPE_10BIT,
            REC709_OFFSET_10BIT,
            REC709_GAIN_10BIT,
        ) == (Step::<u32>::Raise { base, exponent: REC709_EXPAND_EXPONENT }),
        base - TOLERANCE <= p <= base + TOLERANCE,
    ensures
        code_above(mul_add_spec(REC709_GAIN_10BIT, p, REC709_BIAS_10BIT), 64, 876) == v,
{
    let n = (v - 64) as nat;
    if n <= 127 {
        lemma_10bit_71_to_127(n, p);
    } else if n <= 153 {
        lemma_10bit_128_to_153(n, p);
    } else if n <= 154 {
        if p < 0x3e80_0000 {
            lemma_10bit_154_to_154_below(n, p);
        } else {
            lemma_10bit_154_to_154_above(n, p);
        }
    } else if n <= 169 {
        lemma_10bit_155_to_169(n, p);
    } else if n <= 255 {
        lemma_10bit_170_to_255(n, p);
    } else if n <= 394 {
        lemma_10bit_256_to_394(n, p);
    } else if n <= 425 {
        lemma_10bit_395_to_425(n, p);
    } else if n <= 511 {
        lemma_10bit_426_to_511(n, p);
    } else if n <= 875 {
        lemma_10bit_512_to_875(n, p);
    }
}

/// The two Rec.709 codings compress alike on the power piece: from every
/// power within [`TOLERANCE`] of the number that the expansion of an 8-bit
/// code raised, the 10-bit code is four times the 8-bit code.
pub proof fn lemma_rec709_codings_compress_alike(v: int, base: u32, p: u32)
    requires
        33 < v < 235,
        expand_rec709_spec(
            v,
            16,
            33,
            235,
            REC709_SLOPE_8BIT,
            REC709_OFFSET_8BIT,
            REC709_GAIN_8BIT,
        ) == (Step::<u32>::Raise { base, exponent: REC709_EXPAND_EXPONENT }),
        base - TOLERANCE <= p <= base + TOLERANCE,
    ensures
        code_above(mul_add_spec(REC709_GAIN_10BIT, p, REC709_BIAS_10BIT), 64, 876) == 4
            * code_above(mul_add_spec(REC709_GAIN_8BIT, p, REC709_BIAS_8BIT), 16, 219),
{
    lemma_rec709_8bit_survives(v, base, p);
    crate::gamma::lemma_rec709_codings_expand_alike(v as u8);
    lemma_rec709_10bit_survives(4 * v, base, p);
}

/// An sRGB code of the power piece survives: exact compression finishes to
/// the code `v` from every power within [`TOLERANCE`] of the pattern of
/// `(1000 v + 14025) / 269025`, the number whose power 2.4 the linear value
/// of the code is.
pub proof fn lemma_compress_u8_precise_survives(v: u8, p: u32)
    requires
        10 < v,
        div_spec(number((1000 * v + 14025) as nat), number(269025)) - TOLERANCE <= p <= div_spec(
            number((1000 * v + 14025) as nat),
            number(269025),
        ) + TOLERANCE,
    ensures
        code_u8(mul_add_spec(POWER_GAIN, p, POWER_BIAS)) == v,
{
    let n = v as nat;
    if n <= 15 {
        lemma_srgb_11_to_15(n, p);
    } else if n <= 17 {
        lemma_srgb_16_to_17(n, p);
    } else if n <= 18 {
        lemma_srgb_18_to_18(n, p);
    } else if n <= 19 {
        lemma_srgb_19_to_19(n, p);
    } else if n <= 31 {
        lemma_srgb_20_to_31(n, p);
    } else if n <= 49 {
        lemma_srgb_32_to_49(n, p);
    } else if n <= 51 {
        lemma_srgb_50_to_51(n, p);
    } else if n <= 53 {
        lemma_srgb_52_to_53(n, p);
    } else if n <= 63 {
        lemma_srgb_54_to_63(n, p);
    } else if n <= 113 {
        lemma_srgb_64_to_113(n, p);
    } else if n <= 114 {
        if p < 0x3ef3_9b0a {
            lemma_srgb_114_to_114_below(n, p);
        } else {
            lemma_srgb_114_to_114_above(n, p);
        }
    } else if n <= 117 {
        lemma_srgb_115_to_117(n, p);
    } else if n <= 120 {
        lemma_srgb_118_to_120(n, p);
    } else if n <= 127 {
        lemma_srgb_121_to_127(n, p);
    } else if n <= 241 {
        lemma_srgb_128_to_241(n, p);
    } else if n <= 242 {
        if p < 0x3f73_9b0a {
            lemma_srgb_242_to_242_below(n, p);
        } else {
            lemma_srgb_242_to_242_above(n, p);
        }
    } else if n <= 248 {
        lemma_srgb_243_to_248(n, p);
    } else if n <= 254 {
        lemma_srgb_249_to_254(n, p);
    } else if n <= 255 {
        if p < 0x3f80_0000 {
            lemma_srgb_255_to_255_below(n, p);
        } else {
            lemma_srgb_255_to_255_above(n, p);
        }
    }
}

} // verus!
