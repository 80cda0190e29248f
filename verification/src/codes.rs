//! Codes survive normalisation: a code that is brought into the unit
//! interval comes back as it was.  A range of codes is one calculation, on
//! significands that are known but for the code.

use vstd::prelude::*;
use vstd::arithmetic::power2::{lemma2_to64, lemma2_to64_rest};
use crate::arith::{div_spec, fused_domain, fused_spec, quantise_spec, unit_part};
use crate::binary32::{capped, is_nan, less, number, ONE};
use crate::known::{
    lemma_fused_known, lemma_high_powers, lemma_number_known, lemma_quotient_known,
    lemma_whole_known,
};
use crate::rec709::steps_above;
use crate::rounding::nearest_even;

verus! {

/// Proof that the code of a value lies between the code of zero and the
/// code of one: it is the code of zero for what is not above zero, a NaN
/// among it, and the code of one for what is not below one.
proof fn lemma_code_between(v: u32, k: u32, c: u32)
    requires
        fused_domain(ONE, k, c),
    ensures
        quantise_spec(0, k, c) <= quantise_spec(v, k, c) <= quantise_spec(ONE, k, c),
        !less(0, v) ==> quantise_spec(v, k, c) == quantise_spec(0, k, c),
        !is_nan(v) && !less(v, ONE) ==> quantise_spec(v, k, c) == quantise_spec(ONE, k, c),
{
    let x = unit_part(v);
    crate::binary32::lemma_less_by_rank(ONE, ONE);
    crate::binary32::lemma_less_by_rank(0, ONE);
    crate::binary32::lemma_less_by_rank(ONE, 0);
    crate::binary32::lemma_less_by_rank(0, 0);
    if !is_nan(v) {
        crate::binary32::lemma_less_by_rank(ONE, v);
        crate::binary32::lemma_less_by_rank(v, ONE);
        crate::binary32::lemma_less_by_rank(0, v);
    }
    assert(unit_part(0) == 0);
    assert(unit_part(ONE) == ONE);
    assert(x <= ONE);
    crate::order::lemma_fused_increases(x, ONE, k, c);
    crate::order::lemma_fused_increases(0, x, k, c);
    crate::order::lemma_whole_increases(fused_spec(0, k, c), fused_spec(x, k, c));
    crate::order::lemma_whole_increases(fused_spec(x, k, c), fused_spec(ONE, k, c));
}

/// Proof that zero has the first code of a scale: zero times the factor is
/// lost in the term.
proof fn lemma_zero_has_first_code(d: u32, k: u32, c: u32, sc: nat, tc: nat, low: nat, shift: nat)
    requires
        0x0d80_0000 <= d < 0x7f80_0000,
        0x0d80_0000 <= k < 0x7f80_0000,
        crate::known::parts(c as nat, sc, tc),
        c < 0x7f80_0000,
        0x80_0000 <= sc,
        tc < 149,
        crate::binary32::binade(k as nat) <= 140,
        shift == vstd::arithmetic::power2::pow2((149 - tc) as nat),
        sc / shift == low,
    ensures
        quantise_spec(div_spec(0, d), k, c) == low,
{
    lemma2_to64();
    crate::known::lemma_parts(c as nat, sc, tc);
    assert(div_spec(0, d) == 0);
    crate::binary32::lemma_less_by_rank(ONE, 0);
    crate::binary32::lemma_less_by_rank(0, 0);
    assert(unit_part(0) == 0);
    crate::arith::lemma_fused_of_zero(0, k, c);
    assert(fused_spec(0, k, c) == c);
    lemma_whole_known(c, sc, tc, shift);
}

/// The codes whose count from the first is 1 to 1.
#[verifier::rlimit(80)]
proof fn lemma_rec709_8bit_1_to_1(n: nat)
    requires
        1 <= n <= 1,
    ensures
        quantise_spec(div_spec(number(n), number(219)), crate::rec709::RANGE_8BIT, crate::rec709::BIAS_8BIT) == 16 + n,
{
    lemma2_to64();
    lemma2_to64_rest();
    lemma_high_powers();
    let sr: nat = 0xdb_0000;
    lemma_number_known(219, 8, 0x80, 0x1_0000);
    assert(number(219) == crate::rec709::RANGE_8BIT);
    lemma_number_known(n, 1, 0x1, 0x80_0000);
    let big_n = number(n);
    let sn = n * 0x80_0000;
    assert(big_n == 126 * 0x80_0000 + sn);
    let q = (sn * 0x1_0000_0000_0000_0000) / sr;
    let rest = (sn * 0x1_0000_0000_0000_0000) % sr;
    let nq: nat = if rest != 0 {
        2 * q + 1
    } else {
        2 * q
    };
    assert(0x8000_0000_0000_0000 <= q < 0x1_0000_0000_0000_0000);
    lemma_quotient_known(big_n, crate::rec709::RANGE_8BIT, sn, 126, sr, 133, q, rest, 65, 0x1_0000_0000_0000_0000, 0x200_0000_0000);
    let x = div_spec(big_n, crate::rec709::RANGE_8BIT);
    let sx = nearest_even(nq, 0x200_0000_0000);
    assert(x == 118 * 0x80_0000 + sx);
    assert(0x80_0000 <= sx < 0x100_0000);
    assert(0 < x <= ONE);
    crate::binary32::lemma_less_by_rank(ONE, x);
    crate::binary32::lemma_less_by_rank(0, x);
    assert(unit_part(x) == x);
    let total = 0x84_0000 * 0x1000_0000 + sx * sr;
    lemma_fused_known(x, crate::rec709::RANGE_8BIT, crate::rec709::BIAS_8BIT, sx, 118, sr, 133, 0x84_0000, 130, 0x1000_0000, total, 52, 0x8_0000_0000_0000, 0x1000_0000);
    let y = fused_spec(x, crate::rec709::RANGE_8BIT, crate::rec709::BIAS_8BIT);
    let sy = nearest_even(total, 0x1000_0000);
    assert(y == 130 * 0x80_0000 + sy);
    assert(0x80_0000 <= sy < 0x100_0000);
    lemma_whole_known(y, sy, 130, 0x8_0000);
    assert(sy / 0x8_0000 == 16 + n);
}

/// The codes whose count from the first is 2 to 3.
#[verifier::rlimit(80)]
proof fn lemma_rec709_8bit_2_to_3(n: nat)
    requires
        2 <= n <= 3,
    ensures
        quantise_spec(div_spec(number(n), number(219)), crate::rec709::RANGE_8BIT, crate::rec709::BIAS_8BIT) == 16 + n,
{
    lemma2_to64();
    lemma2_to64_rest();
    lemma_high_powers();
    let sr: nat = 0xdb_0000;
    lemma_number_known(219, 8, 0x80, 0x1_0000);
    assert(number(219) == crate::rec709::RANGE_8BIT);
    lemma_number_known(n, 2, 0x2, 0x40_0000);
    let big_n = number(n);
    let sn = n * 0x40_0000;
    assert(big_n == 127 * 0x80_0000 + sn);
    let q = (sn * 0x1_0000_0000_0000_0000) / sr;
    let rest = (sn * 0x1_0000_0000_0000_0000) % sr;
    let nq: nat = if rest != 0 {
        2 * q + 1
    } else {
        2 * q
    };
    assert(0x8000_0000_0000_0000 <= q < 0x1_0000_0000_0000_0000);
    lemma_quotient_known(big_n, crate::rec709::RANGE_8BIT, sn, 127, sr, 133, q, rest, 65, 0x1_0000_0000_0000_0000, 0x200_0000_0000);
    let x = div_spec(big_n, crate::rec709::RANGE_8BIT);
    let sx = nearest_even(nq, 0x200_0000_0000);
    assert(x == 119 * 0x80_0000 + sx);
    assert(0x80_0000 <= sx < 0x100_0000);
    assert(0 < x <= ONE);
    crate::binary32::lemma_less_by_rank(ONE, x);
    crate::binary32::lemma_less_by_rank(0, x);
    assert(unit_part(x) == x);
    let total = 0x84_0000 * 0x800_0000 + sx * sr;
    lemma_fused_known(x, crate::rec709::RANGE_8BIT, crate::rec709::BIAS_8BIT, sx, 119, sr, 133, 0x84_0000, 130, 0x800_0000, total, 51, 0x4_0000_0000_0000, 0x800_0000);
    let y = fused_spec(x, crate::rec709::RANGE_8BIT, crate::rec709::BIAS_8BIT);
    let sy = nearest_even(total, 0x800_0000);
    assert(y == 130 * 0x80_0000 + sy);
    assert(0x80_0000 <= sy < 0x100_0000);
    lemma_whole_known(y, sy, 130, 0x8_0000);
    assert(sy / 0x8_0000 == 16 + n);
}

/// The codes whose count from the first is 4 to 6.
#[verifier::rlimit(80)]
proof fn lemma_rec709_8bit_4_to_6(n: nat)
    requires
        4 <= n <= 6,
    ensures
        quantise_spec(div_spec(number(n), number(219)), crate::rec709::RANGE_8BIT, crate::rec709::BIAS_8BIT) == 16 + n,
{
    lemma2_to64();
    lemma2_to64_rest();
    lemma_high_powers();
    let sr: nat = 0xdb_0000;
    lemma_number_known(219, 8, 0x80, 0x1_0000);
    assert(number(219) == crate::rec709::RANGE_8BIT);
    lemma_number_known(n, 3, 0x4, 0x20_0000);
    let big_n = number(n);
    let sn = n * 0x20_0000;
    assert(big_n == 128 * 0x80_0000 + sn);
    let q = (sn * 0x1_0000_0000_0000_0000) / sr;
    let rest = (sn * 0x1_0000_0000_0000_0000) % sr;
    let nq: nat = if rest != 0 {
        2 * q + 1
    } else {
        2 * q
    };
    assert(0x8000_0000_0000_0000 <= q < 0x1_0000_0000_0000_0000);
    lemma_quotient_known(big_n, crate::rec709::RANGE_8BIT, sn, 128, sr, 133, q, rest, 65, 0x1_0000_0000_0000_0000, 0x200_0000_0000);
    let x = div_spec(big_n, crate::rec709::RANGE_8BIT);
    let sx = nearest_even(nq, 0x200_0000_0000);
    assert(x == 120 * 0x80_0000 + sx);
    assert(0x80_0000 <= sx < 0x100_0000);
    assert(0 < x <= ONE);
    crate::binary32::lemma_less_by_rank(ONE, x);
    crate::binary32::lemma_less_by_rank(0, x);
    assert(unit_part(x) == x);
    let total = 0x84_0000 * 0x400_0000 + sx * sr;
    lemma_fused_known(x, crate::rec709::RANGE_8BIT, crate::rec709::BIAS_8BIT, sx, 120, sr, 133, 0x84_0000, 130, 0x400_0000, total, 50, 0x2_0000_0000_0000, 0x400_0000);
    let y = fused_spec(x, crate::rec709::RANGE_8BIT, crate::rec709::BIAS_8BIT);
    let sy = nearest_even(total, 0x400_0000);
    assert(y == 130 * 0x80_0000 + sy);
    assert(0x80_0000 <= sy < 0x100_0000);
    lemma_whole_known(y, sy, 130, 0x8_0000);
    assert(sy / 0x8_0000 == 16 + n);
}

/// The codes whose count from the first is 7 to 7.
#[verifier::rlimit(80)]
proof fn lemma_rec709_8bit_7_to_7(n: nat)
    requires
        7 <= n <= 7,
    ensures
        quantise_spec(div_spec(number(n), number(219)), crate::rec709::RANGE_8BIT, crate::rec709::BIAS_8BIT) == 16 + n,
{
    lemma2_to64();
    lemma2_to64_rest();
    lemma_high_powers();
    let sr: nat = 0xdb_0000;
    lemma_number_known(219, 8, 0x80, 0x1_0000);
    assert(number(219) == crate::rec709::RANGE_8BIT);
    lemma_number_known(n, 3, 0x4, 0x20_0000);
    let big_n = number(n);
    let sn = n * 0x20_0000;
    assert(big_n == 128 * 0x80_0000 + sn);
    let q = (sn * 0x1_0000_0000_0000_0000) / sr;
    let rest = (sn * 0x1_0000_0000_0000_0000) % sr;
    let nq: nat = if rest != 0 {
        2 * q + 1
    } else {
        2 * q
    };
    assert(0x1_0000_0000_0000_0000 <= q < 0x2_0000_0000_0000_0000);
    lemma_quotient_known(big_n, crate::rec709::RANGE_8BIT, sn, 128, sr, 133, q, rest, 66, 0x2_0000_0000_0000_0000, 0x400_0000_0000);
    let x = div_spec(big_n, crate::rec709::RANGE_8BIT);
    let sx = nearest_even(nq, 0x400_0000_0000);
    assert(x == 121 * 0x80_0000 + sx);
    assert(0x80_0000 <= sx < 0x100_0000);
    assert(0 < x <= ONE);
    crate::binary32::lemma_less_by_rank(ONE, x);
    crate::binary32::lemma_less_by_rank(0, x);
    assert(unit_part(x) == x);
    let total = 0x84_0000 * 0x200_0000 + sx * sr;
    lemma_fused_known(x, crate::rec709::RANGE_8BIT, crate::rec709::BIAS_8BIT, sx, 121, sr, 133, 0x84_0000, 130, 0x200_0000, total, 49, 0x1_0000_0000_0000, 0x200_0000);
    let y = fused_spec(x, crate::rec709::RANGE_8BIT, crate::rec709::BIAS_8BIT);
    let sy = nearest_even(total, 0x200_0000);
    assert(y == 130 * 0x80_0000 + sy);
    assert(0x80_0000 <= sy < 0x100_0000);
    lemma_whole_known(y, sy, 130, 0x8_0000);
    assert(sy / 0x8_0000 == 16 + n);
}

/// The codes whose count from the first is 8 to 13.
#[verifier::rlimit(80)]
proof fn lemma_rec709_8bit_8_to_13(n: nat)
    requires
        8 <= n <= 13,
    ensures
        quantise_spec(div_spec(number(n), number(219)), crate::rec709::RANGE_8BIT, crate::rec709::BIAS_8BIT) == 16 + n,
{
    lemma2_to64();
    lemma2_to64_rest();
    lemma_high_powers();
    let sr: nat = 0xdb_0000;
    lemma_number_known(219, 8, 0x80, 0x1_0000);
    assert(number(219) == crate::rec709::RANGE_8BIT);
    lemma_number_known(n, 4, 0x8, 0x10_0000);
    let big_n = number(n);
    let sn = n * 0x10_0000;
    assert(big_n == 129 * 0x80_0000 + sn);
    let q = (sn * 0x1_0000_0000_0000_0000) / sr;
    let rest = (sn * 0x1_0000_0000_0000_0000) % sr;
    let nq: nat = if rest != 0 {
        2 * q + 1
    } else {
        2 * q
    };
    assert(0x8000_0000_0000_0000 <= q < 0x1_0000_0000_0000_0000);
    lemma_quotient_known(big_n, crate::rec709::RANGE_8BIT, sn, 129, sr, 133, q, rest, 65, 0x1_0000_0000_0000_0000, 0x200_0000_0000);
    let x = div_spec(big_n, crate::rec709::RANGE_8BIT);
    let sx = nearest_even(nq, 0x200_0000_0000);
    assert(x == 121 * 0x80_0000 + sx);
    assert(0x80_0000 <= sx < 0x100_0000);
    assert(0 < x <= ONE);
    crate::binary32::lemma_less_by_rank(ONE, x);
    crate::binary32::lemma_less_by_rank(0, x);
    assert(unit_part(x) == x);
    let total = 0x84_0000 * 0x200_0000 + sx * sr;
    lemma_fused_known(x, crate::rec709::RANGE_8BIT, crate::rec709::BIAS_8BIT, sx, 121, sr, 133, 0x84_0000, 130, 0x200_0000, total, 49, 0x1_0000_0000_0000, 0x200_0000);
    let y = fused_spec(x, crate::rec709::RANGE_8BIT, crate::rec709::BIAS_8BIT);
    let sy = nearest_even(total, 0x200_0000);
    assert(y == 130 * 0x80_0000 + sy);
    assert(0x80_0000 <= sy < 0x100_0000);
    lemma_whole_known(y, sy, 130, 0x8_0000);
    assert(sy / 0x8_0000 == 16 + n);
}

/// The codes whose count from the first is 14 to 15.
#[verifier::rlimit(80)]
proof fn lemma_rec709_8bit_14_to_15(n: nat)
    requires
        14 <= n <= 15,
    ensures
        quantise_spec(div_spec(number(n), number(219)), crate::rec709::RANGE_8BIT, crate::rec709::BIAS_8BIT) == 16 + n,
{
    lemma2_to64();
    lemma2_to64_rest();
    lemma_high_powers();
    let sr: nat = 0xdb_0000;
    lemma_number_known(219, 8, 0x80, 0x1_0000);
    assert(number(219) == crate::rec709::RANGE_8BIT);
    lemma_number_known(n, 4, 0x8, 0x10_0000);
    let big_n = number(n);
    let sn = n * 0x10_0000;
    assert(big_n == 129 * 0x80_0000 + sn);
    let q = (sn * 0x1_0000_0000_0000_0000) / sr;
    let rest = (sn * 0x1_0000_0000_0000_0000) % sr;
    let nq: nat = if rest != 0 {
        2 * q + 1
    } else {
        2 * q
    };
    assert(0x1_0000_0000_0000_0000 <= q < 0x2_0000_0000_0000_0000);
    lemma_quotient_known(big_n, crate::rec709::RANGE_8BIT, sn, 129, sr, 133, q, rest, 66, 0x2_0000_0000_0000_0000, 0x400_0000_0000);
    let x = div_spec(big_n, crate::rec709::RANGE_8BIT);
    let sx = nearest_even(nq, 0x400_0000_0000);
    assert(x == 122 * 0x80_0000 + sx);
    assert(0x80_0000 <= sx < 0x100_0000);
    assert(0 < x <= ONE);
    crate::binary32::lemma_less_by_rank(ONE, x);
    crate::binary32::lemma_less_by_rank(0, x);
    assert(unit_part(x) == x);
    let total = 0x84_0000 * 0x100_0000 + sx * sr;
    lemma_fused_known(x, crate::rec709::RANGE_8BIT, crate::rec709::BIAS_8BIT, sx, 122, sr, 133, 0x84_0000, 130, 0x100_0000, total, 48, 0x8000_0000_0000, 0x100_0000);
    let y = fused_spec(x, crate::rec709::RANGE_8BIT, crate::rec709::BIAS_8BIT);
    let sy = nearest_even(total, 0x100_0000);
    assert(y == 130 * 0x80_0000 + sy);
    assert(0x80_0000 <= sy < 0x100_0000);
    lemma_whole_known(y, sy, 130, 0x8_0000);
    assert(sy / 0x8_0000 == 16 + n);
}

/// The codes whose count from the first is 16 to 27.
#[verifier::rlimit(80)]
proof fn lemma_rec709_8bit_16_to_27(n: nat)
    requires
        16 <= n <= 27,
    ensures
        quantise_spec(div_spec(number(n), number(219)), crate::rec709::RANGE_8BIT, crate::rec709::BIAS_8BIT) == 16 + n,
{
    lemma2_to64();
    lemma2_to64_rest();
    lemma_high_powers();
    let sr: nat = 0xdb_0000;
    lemma_number_known(219, 8, 0x80, 0x1_0000);
    assert(number(219) == crate::rec709::RANGE_8BIT);
    lemma_number_known(n, 5, 0x10, 0x8_0000);
    let big_n = number(n);
    let sn = n * 0x8_0000;
    assert(big_n == 130 * 0x80_0000 + sn);
    let q = (sn * 0x1_0000_0000_0000_0000) / sr;
    let rest = (sn * 0x1_0000_0000_0000_0000) % sr;
    let nq: nat = if rest != 0 {
        2 * q + 1
    } else {
        2 * q
    };
    assert(0x8000_0000_0000_0000 <= q < 0x1_0000_0000_0000_0000);
    lemma_quotient_known(big_n, crate::rec709::RANGE_8BIT, sn, 130, sr, 133, q, rest, 65, 0x1_0000_0000_0000_0000, 0x200_0000_0000);
    let x = div_spec(big_n, crate::rec709::RANGE_8BIT);
    let sx = nearest_even(nq, 0x200_0000_0000);
    assert(x == 122 * 0x80_0000 + sx);
    assert(0x80_0000 <= sx < 0x100_0000);
    assert(0 < x <= ONE);
    crate::binary32::lemma_less_by_rank(ONE, x);
    crate::binary32::lemma_less_by_rank(0, x);
    assert(unit_part(x) == x);
    let total = 0x84_0000 * 0x100_0000 + sx * sr;
    lemma_fused_known(x, crate::rec709::RANGE_8BIT, crate::rec709::BIAS_8BIT, sx, 122, sr, 133, 0x84_0000, 130, 0x100_0000, total, 49, 0x1_0000_0000_0000, 0x200_0000);
    let y = fused_spec(x, crate::rec709::RANGE_8BIT, crate::rec709::BIAS_8BIT);
    let sy = nearest_even(total, 0x200_0000);
    assert(y == 131 * 0x80_0000 + sy);
    assert(0x80_0000 <= sy < 0x100_0000);
    lemma_whole_known(y, sy, 131, 0x4_0000);
    assert(sy / 0x4_0000 == 16 + n);
}

/// The codes whose count from the first is 28 to 31.
#[verifier::rlimit(80)]
proof fn lemma_rec709_8bit_28_to_31(n: nat)
    requires
        28 <= n <= 31,
    ensures
        quantise_spec(div_spec(number(n), number(219)), crate::rec709::RANGE_8BIT, crate::rec709::BIAS_8BIT) == 16 + n,
{
    lemma2_to64();
    lemma2_to64_rest();
    lemma_high_powers();
    let sr: nat = 0xdb_0000;
    lemma_number_known(219, 8, 0x80, 0x1_0000);
    assert(number(219) == crate::rec709::RANGE_8BIT);
    lemma_number_known(n, 5, 0x10, 0x8_0000);
    let big_n = number(n);
    let sn = n * 0x8_0000;
    assert(big_n == 130 * 0x80_0000 + sn);
    let q = (sn * 0x1_0000_0000_0000_0000) / sr;
    let rest = (sn * 0x1_0000_0000_0000_0000) % sr;
    let nq: nat = if rest != 0 {
        2 * q + 1
    } else {
        2 * q
    };
    assert(0x1_0000_0000_0000_0000 <= q < 0x2_0000_0000_0000_0000);
    lemma_quotient_known(big_n, crate::rec709::RANGE_8BIT, sn, 130, sr, 133, q, rest, 66, 0x2_0000_0000_0000_0000, 0x400_0000_0000);
    let x = div_spec(big_n, crate::rec709::RANGE_8BIT);
    let sx = nearest_even(nq, 0x400_0000_0000);
    assert(x == 123 * 0x80_0000 + sx);
    assert(0x80_0000 <= sx < 0x100_0000);
    assert(0 < x <= ONE);
    crate::binary32::lemma_less_by_rank(ONE, x);
    crate::binary32::lemma_less_by_rank(0, x);
    assert(unit_part(x) == x);
    let total = 0x84_0000 * 0x80_0000 + sx * sr;
    lemma_fused_known(x, crate::rec709::RANGE_8BIT, crate::rec709::BIAS_8BIT, sx, 123, sr, 133, 0x84_0000, 130, 0x80_0000, total, 48, 0x8000_0000_0000, 0x100_0000);
    let y = fused_spec(x, crate::rec709::RANGE_8BIT, crate::rec709::BIAS_8BIT);
    let sy = nearest_even(total, 0x100_0000);
    assert(y == 131 * 0x80_0000 + sy);
    assert(0x80_0000 <= sy < 0x100_0000);
    lemma_whole_known(y, sy, 131, 0x4_0000);
    assert(sy / 0x4_0000 == 16 + n);
}

/// The codes whose count from the first is 32 to 47.
#[verifier::rlimit(80)]
proof fn lemma_rec709_8bit_32_to_47(n: nat)
    requires
        32 <= n <= 47,
    ensures
        quantise_spec(div_spec(number(n), number(219)), crate::rec709::RANGE_8BIT, crate::rec709::BIAS_8BIT) == 16 + n,
{
    lemma2_to64();
    lemma2_to64_rest();
    lemma_high_powers();
    let sr: nat = 0xdb_0000;
    lemma_number_known(219, 8, 0x80, 0x1_0000);
    assert(number(219) == crate::rec709::RANGE_8BIT);
    lemma_number_known(n, 6, 0x20, 0x4_0000);
    let big_n = number(n);
    let sn = n * 0x4_0000;
    assert(big_n == 131 * 0x80_0000 + sn);
    let q = (sn * 0x1_0000_0000_0000_0000) / sr;
    let rest = (sn * 0x1_0000_0000_0000_0000) % sr;
    let nq: nat = if rest != 0 {
        2 * q + 1
    } else {
        2 * q
    };
    assert(0x8000_0000_0000_0000 <= q < 0x1_0000_0000_0000_0000);
    lemma_quotient_known(big_n, crate::rec709::RANGE_8BIT, sn, 131, sr, 133, q, rest, 65, 0x1_0000_0000_0000_0000, 0x200_0000_0000);
    let x = div_spec(big_n, crate::rec709::RANGE_8BIT);
    let sx = nearest_even(nq, 0x200_0000_0000);
    assert(x == 123 * 0x80_0000 + sx);
    assert(0x80_0000 <= sx < 0x100_0000);
    assert(0 < x <= ONE);
    crate::binary32::lemma_less_by_rank(ONE, x);
    crate::binary32::lemma_less_by_rank(0, x);
    assert(unit_part(x) == x);
    let total = 0x84_0000 * 0x80_0000 + sx * sr;
    lemma_fused_known(x, crate::rec709::RANGE_8BIT, crate::rec709::BIAS_8BIT, sx, 123, sr, 133, 0x84_0000, 130, 0x80_0000, total, 48, 0x8000_0000_0000, 0x100_0000);
    let y = fused_spec(x, crate::rec709::RANGE_8BIT, crate::rec709::BIAS_8BIT);
    let sy = nearest_even(total, 0x100_0000);
    assert(y == 131 * 0x80_0000 + sy);
    assert(0x80_0000 <= sy < 0x100_0000);
    lemma_whole_known(y, sy, 131, 0x4_0000);
    assert(sy / 0x4_0000 == 16 + n);
}

/// The codes whose count from the first is 48 to 54.
#[verifier::rlimit(80)]
proof fn lemma_rec709_8bit_48_to_54(n: nat)
    requires
        48 <= n <= 54,
    ensures
        quantise_spec(div_spec(number(n), number(219)), crate::rec709::RANGE_8BIT, crate::rec709::BIAS_8BIT) == 16 + n,
{
    lemma2_to64();
    lemma2_to64_rest();
    lemma_high_powers();
    let sr: nat = 0xdb_0000;
    lemma_number_known(219, 8, 0x80, 0x1_0000);
    assert(number(219) == crate::rec709::RANGE_8BIT);
    lemma_number_known(n, 6, 0x20, 0x4_0000);
    let big_n = number(n);
    let sn = n * 0x4_0000;
    assert(big_n == 131 * 0x80_0000 + sn);
    let q = (sn * 0x1_0000_0000_0000_0000) / sr;
    let rest = (sn * 0x1_0000_0000_0000_0000) % sr;
    let nq: nat = if rest != 0 {
        2 * q + 1
    } else {
        2 * q
    };
    assert(0x8000_0000_0000_0000 <= q < 0x1_0000_0000_0000_0000);
    lemma_quotient_known(big_n, crate::rec709::RANGE_8BIT, sn, 131, sr, 133, q, rest, 65, 0x1_0000_0000_0000_0000, 0x200_0000_0000);
    let x = div_spec(big_n, crate::rec709::RANGE_8BIT);
    let sx = nearest_even(nq, 0x200_0000_0000);
    assert(x == 123 * 0x80_0000 + sx);
    assert(0x80_0000 <= sx < 0x100_0000);
    assert(0 < x <= ONE);
    crate::binary32::lemma_less_by_rank(ONE, x);
    crate::binary32::lemma_less_by_rank(0, x);
    assert(unit_part(x) == x);
    let total = 0x84_0000 * 0x80_0000 + sx * sr;
    lemma_fused_known(x, crate::rec709::RANGE_8BIT, crate::rec709::BIAS_8BIT, sx, 123, sr, 133, 0x84_0000, 130, 0x80_0000, total, 49, 0x1_0000_0000_0000, 0x200_0000);
    let y = fused_spec(x, crate::rec709::RANGE_8BIT, crate::rec709::BIAS_8BIT);
    let sy = nearest_even(total, 0x200_0000);
    assert(y == 132 * 0x80_0000 + sy);
    assert(0x80_0000 <= sy < 0x100_0000);
    lemma_whole_known(y, sy, 132, 0x2_0000);
    assert(sy / 0x2_0000 == 16 + n);
}

/// The codes whose count from the first is 55 to 63.
#[verifier::rlimit(80)]
proof fn lemma_rec709_8bit_55_to_63(n: nat)
    requires
        55 <= n <= 63,
    ensures
        quantise_spec(div_spec(number(n), number(219)), crate::rec709::RANGE_8BIT, crate::rec709::BIAS_8BIT) == 16 + n,
{
    lemma2_to64();
    lemma2_to64_rest();
    lemma_high_powers();
    let sr: nat = 0xdb_0000;
    lemma_number_known(219, 8, 0x80, 0x1_0000);
    assert(number(219) == crate::rec709::RANGE_8BIT);
    lemma_number_known(n, 6, 0x20, 0x4_0000);
    let big_n = number(n);
    let sn = n * 0x4_0000;
    assert(big_n == 131 * 0x80_0000 + sn);
    let q = (sn * 0x1_0000_0000_0000_0000) / sr;
    let rest = (sn * 0x1_0000_0000_0000_0000) % sr;
    let nq: nat = if rest != 0 {
        2 * q + 1
    } else {
        2 * q
    };
    assert(0x1_0000_0000_0000_0000 <= q < 0x2_0000_0000_0000_0000);
    lemma_quotient_known(big_n, crate::rec709::RANGE_8BIT, sn, 131, sr, 133, q, rest, 66, 0x2_0000_0000_0000_0000, 0x400_0000_0000);
    let x = div_spec(big_n, crate::rec709::RANGE_8BIT);
    let sx = nearest_even(nq, 0x400_0000_0000);
    assert(x == 124 * 0x80_0000 + sx);
    assert(0x80_0000 <= sx < 0x100_0000);
    assert(0 < x <= ONE);
    crate::binary32::lemma_less_by_rank(ONE, x);
    crate::binary32::lemma_less_by_rank(0, x);
    assert(unit_part(x) == x);
    let total = 0x84_0000 * 0x40_0000 + sx * sr;
    lemma_fused_known(x, crate::rec709::RANGE_8BIT, crate::rec709::BIAS_8BIT, sx, 124, sr, 133, 0x84_0000, 130, 0x40_0000, total, 48, 0x8000_0000_0000, 0x100_0000);
    let y = fused_spec(x, crate::rec709::RANGE_8BIT, crate::rec709::BIAS_8BIT);
    let sy = nearest_even(total, 0x100_0000);
    assert(y == 132 * 0x80_0000 + sy);
    assert(0x80_0000 <= sy < 0x100_0000);
    lemma_whole_known(y, sy, 132, 0x2_0000);
    assert(sy / 0x2_0000 == 16 + n);
}

/// The codes whose count from the first is 64 to 109.
#[verifier::rlimit(80)]
proof fn lemma_rec709_8bit_64_to_109(n: nat)
    requires
        64 <= n <= 109,
    ensures
        quantise_spec(div_spec(number(n), number(219)), crate::rec709::RANGE_8BIT, crate::rec709::BIAS_8BIT) == 16 + n,
{
    lemma2_to64();
    lemma2_to64_rest();
    lemma_high_powers();
    let sr: nat = 0xdb_0000;
    lemma_number_known(219, 8, 0x80, 0x1_0000);
    assert(number(219) == crate::rec709::RANGE_8BIT);
    lemma_number_known(n, 7, 0x40, 0x2_0000);
    let big_n = number(n);
    let sn = n * 0x2_0000;
    assert(big_n == 132 * 0x80_0000 + sn);
    let q = (sn * 0x1_0000_0000_0000_0000) / sr;
    let rest = (sn * 0x1_0000_0000_0000_0000) % sr;
    let nq: nat = if rest != 0 {
        2 * q + 1
    } else {
        2 * q
    };
    assert(0x8000_0000_0000_0000 <= q < 0x1_0000_0000_0000_0000);
    lemma_quotient_known(big_n, crate::rec709::RANGE_8BIT, sn, 132, sr, 133, q, rest, 65, 0x1_0000_0000_0000_0000, 0x200_0000_0000);
    let x = div_spec(big_n, crate::rec709::RANGE_8BIT);
    let sx = nearest_even(nq, 0x200_0000_0000);
    assert(x == 124 * 0x80_0000 + sx);
    assert(0x80_0000 <= sx < 0x100_0000);
    assert(0 < x <= ONE);
    crate::binary32::lemma_less_by_rank(ONE, x);
    crate::binary32::lemma_less_by_rank(0, x);
    assert(unit_part(x) == x);
    let total = 0x84_0000 * 0x40_0000 + sx * sr;
    lemma_fused_known(x, crate::rec709::RANGE_8BIT, crate::rec709::BIAS_8BIT, sx, 124, sr, 133, 0x84_0000, 130, 0x40_0000, total, 48, 0x8000_0000_0000, 0x100_0000);
    let y = fused_spec(x, crate::rec709::RANGE_8BIT, crate::rec709::BIAS_8BIT);
    let sy = nearest_even(total, 0x100_0000);
    assert(y == 132 * 0x80_0000 + sy);
    assert(0x80_0000 <= sy < 0x100_0000);
    lemma_whole_known(y, sy, 132, 0x2_0000);
    assert(sy / 0x2_0000 == 16 + n);
}

/// The codes whose count from the first is 110 to 111.
#[verifier::rlimit(80)]
proof fn lemma_rec709_8bit_110_to_111(n: nat)
    requires
        110 <= n <= 111,
    ensures
        quantise_spec(div_spec(number(n), number(219)), crate::rec709::RANGE_8BIT, crate::rec709::BIAS_8BIT) == 16 + n,
{
    lemma2_to64();
    lemma2_to64_rest();
    lemma_high_powers();
    let sr: nat = 0xdb_0000;
    lemma_number_known(219, 8, 0x80, 0x1_0000);
    assert(number(219) == crate::rec709::RANGE_8BIT);
    lemma_number_known(n, 7, 0x40, 0x2_0000);
    let big_n = number(n);
    let sn = n * 0x2_0000;
    assert(big_n == 132 * 0x80_0000 + sn);
    let q = (sn * 0x1_0000_0000_0000_0000) / sr;
    let rest = (sn * 0x1_0000_0000_0000_0000) % sr;
    let nq: nat = if rest != 0 {
        2 * q + 1
    } else {
        2 * q
    };
    assert(0x1_0000_0000_0000_0000 <= q < 0x2_0000_0000_0000_0000);
    lemma_quotient_known(big_n, crate::rec709::RANGE_8BIT, sn, 132, sr, 133, q, rest, 66, 0x2_0000_0000_0000_0000, 0x400_0000_0000);
    let x = div_spec(big_n, crate::rec709::RANGE_8BIT);
    let sx = nearest_even(nq, 0x400_0000_0000);
    assert(x == 125 * 0x80_0000 + sx);
    assert(0x80_0000 <= sx < 0x100_0000);
    assert(0 < x <= ONE);
    crate::binary32::lemma_less_by_rank(ONE, x);
    crate::binary32::lemma_less_by_rank(0, x);
    assert(unit_part(x) == x);
    let total = 0x84_0000 * 0x20_0000 + sx * sr;
    lemma_fused_known(x, crate::rec709::RANGE_8BIT, crate::rec709::BIAS_8BIT, sx, 125, sr, 133, 0x84_0000, 130, 0x20_0000, total, 47, 0x4000_0000_0000, 0x80_0000);
    let y = fused_spec(x, crate::rec709::RANGE_8BIT, crate::rec709::BIAS_8BIT);
    let sy = nearest_even(total, 0x80_0000);
    assert(y == 132 * 0x80_0000 + sy);
    assert(0x80_0000 <= sy < 0x100_0000);
    lemma_whole_known(y, sy, 132, 0x2_0000);
    assert(sy / 0x2_0000 == 16 + n);
}

/// The codes whose count from the first is 112 to 127.
#[verifier::rlimit(80)]
proof fn lemma_rec709_8bit_112_to_127(n: nat)
    requires
        112 <= n <= 127,
    ensures
        quantise_spec(div_spec(number(n), number(219)), crate::rec709::RANGE_8BIT, crate::rec709::BIAS_8BIT) == 16 + n,
{
    lemma2_to64();
    lemma2_to64_rest();
    lemma_high_powers();
    let sr: nat = 0xdb_0000;
    lemma_number_known(219, 8, 0x80, 0x1_0000);
    assert(number(219) == crate::rec709::RANGE_8BIT);
    lemma_number_known(n, 7, 0x40, 0x2_0000);
    let big_n = number(n);
    let sn = n * 0x2_0000;
    assert(big_n == 132 * 0x80_0000 + sn);
    let q = (sn * 0x1_0000_0000_0000_0000) / sr;
    let rest = (sn * 0x1_0000_0000_0000_0000) % sr;
    let nq: nat = if rest != 0 {
        2 * q + 1
    } else {
        2 * q
    };
    assert(0x1_0000_0000_0000_0000 <= q < 0x2_0000_0000_0000_0000);
    lemma_quotient_known(big_n, crate::rec709::RANGE_8BIT, sn, 132, sr, 133, q, rest, 66, 0x2_0000_0000_0000_0000, 0x400_0000_0000);
    let x = div_spec(big_n, crate::rec709::RANGE_8BIT);
    let sx = nearest_even(nq, 0x400_0000_0000);
    assert(x == 125 * 0x80_0000 + sx);
    assert(0x80_0000 <= sx < 0x100_0000);
    assert(0 < x <= ONE);
    crate::binary32::lemma_less_by_rank(ONE, x);
    crate::binary32::lemma_less_by_rank(0, x);
    assert(unit_part(x) == x);
    let total = 0x84_0000 * 0x20_0000 + sx * sr;
    lemma_fused_known(x, crate::rec709::RANGE_8BIT, crate::rec709::BIAS_8BIT, sx, 125, sr, 133, 0x84_0000, 130, 0x20_0000, total, 48, 0x8000_0000_0000, 0x100_0000);
    let y = fused_spec(x, crate::rec709::RANGE_8BIT, crate::rec709::BIAS_8BIT);
    let sy = nearest_even(total, 0x100_0000);
    assert(y == 133 * 0x80_0000 + sy);
    assert(0x80_0000 <= sy < 0x100_0000);
    lemma_whole_known(y, sy, 133, 0x1_0000);
    assert(sy / 0x1_0000 == 16 + n);
}

/// The codes whose count from the first is 128 to 218.
#[verifier::rlimit(80)]
proof fn lemma_rec709_8bit_128_to_218(n: nat)
    requires
        128 <= n <= 218,
    ensures
        quantise_spec(div_spec(number(n), number(219)), crate::rec709::RANGE_8BIT, crate::rec709::BIAS_8BIT) == 16 + n,
{
    lemma2_to64();
    lemma2_to64_rest();
    lemma_high_powers();
    let sr: nat = 0xdb_0000;
    lemma_number_known(219, 8, 0x80, 0x1_0000);
    assert(number(219) == crate::rec709::RANGE_8BIT);
    lemma_number_known(n, 8, 0x80, 0x1_0000);
    let big_n = number(n);
    let sn = n * 0x1_0000;
    assert(big_n == 133 * 0x80_0000 + sn);
    let q = (sn * 0x1_0000_0000_0000_0000) / sr;
    let rest = (sn * 0x1_0000_0000_0000_0000) % sr;
    let nq: nat = if rest != 0 {
        2 * q + 1
    } else {
        2 * q
    };
    assert(0x8000_0000_0000_0000 <= q < 0x1_0000_0000_0000_0000);
    lemma_quotient_known(big_n, crate::rec709::RANGE_8BIT, sn, 133, sr, 133, q, rest, 65, 0x1_0000_0000_0000_0000, 0x200_0000_0000);
    let x = div_spec(big_n, crate::rec709::RANGE_8BIT);
    let sx = nearest_even(nq, 0x200_0000_0000);
    assert(x == 125 * 0x80_0000 + sx);
    assert(0x80_0000 <= sx < 0x100_0000);
    assert(0 < x <= ONE);
    crate::binary32::lemma_less_by_rank(ONE, x);
    crate::binary32::lemma_less_by_rank(0, x);
    assert(unit_part(x) == x);
    let total = 0x84_0000 * 0x20_0000 + sx * sr;
    lemma_fused_known(x, crate::rec709::RANGE_8BIT, crate::rec709::BIAS_8BIT, sx, 125, sr, 133, 0x84_0000, 130, 0x20_0000, total, 48, 0x8000_0000_0000, 0x100_0000);
    let y = fused_spec(x, crate::rec709::RANGE_8BIT, crate::rec709::BIAS_8BIT);
    let sy = nearest_even(total, 0x100_0000);
    assert(y == 133 * 0x80_0000 + sy);
    assert(0x80_0000 <= sy < 0x100_0000);
    lemma_whole_known(y, sy, 133, 0x1_0000);
    assert(sy / 0x1_0000 == 16 + n);
}

/// The codes whose count from the first is 219 to 219.
#[verifier::rlimit(80)]
proof fn lemma_rec709_8bit_219_to_219(n: nat)
    requires
        219 <= n <= 219,
    ensures
        quantise_spec(div_spec(number(n), number(219)), crate::rec709::RANGE_8BIT, crate::rec709::BIAS_8BIT) == 16 + n,
{
    lemma2_to64();
    lemma2_to64_rest();
    lemma_high_powers();
    let sr: nat = 0xdb_0000;
    lemma_number_known(219, 8, 0x80, 0x1_0000);
    assert(number(219) == crate::rec709::RANGE_8BIT);
    lemma_number_known(n, 8, 0x80, 0x1_0000);
    let big_n = number(n);
    let sn = n * 0x1_0000;
    assert(big_n == 133 * 0x80_0000 + sn);
    let q = (sn * 0x1_0000_0000_0000_0000) / sr;
    let rest = (sn * 0x1_0000_0000_0000_0000) % sr;
    let nq: nat = if rest != 0 {
        2 * q + 1
    } else {
        2 * q
    };
    assert(0x1_0000_0000_0000_0000 <= q < 0x2_0000_0000_0000_0000);
    lemma_quotient_known(big_n, crate::rec709::RANGE_8BIT, sn, 133, sr, 133, q, rest, 66, 0x2_0000_0000_0000_0000, 0x400_0000_0000);
    let x = div_spec(big_n, crate::rec709::RANGE_8BIT);
    let sx = nearest_even(nq, 0x400_0000_0000);
    assert(x == 126 * 0x80_0000 + sx);
    assert(0x80_0000 <= sx < 0x100_0000);
    assert(0 < x <= ONE);
    crate::binary32::lemma_less_by_rank(ONE, x);
    crate::binary32::lemma_less_by_rank(0, x);
    assert(unit_part(x) == x);
    let total = 0x84_0000 * 0x10_0000 + sx * sr;
    lemma_fused_known(x, crate::rec709::RANGE_8BIT, crate::rec709::BIAS_8BIT, sx, 126, sr, 133, 0x84_0000, 130, 0x10_0000, total, 47, 0x4000_0000_0000, 0x80_0000);
    let y = fused_spec(x, crate::rec709::RANGE_8BIT, crate::rec709::BIAS_8BIT);
    let sy = nearest_even(total, 0x80_0000);
    assert(y == 133 * 0x80_0000 + sy);
    assert(0x80_0000 <= sy < 0x100_0000);
    lemma_whole_known(y, sy, 133, 0x1_0000);
    assert(sy / 0x1_0000 == 16 + n);
}

/// A 8-bit Rec.709 code survives normalisation: a code of the range is
/// encoded from the value that it decodes to, and a code outside of the
/// range comes back as the end of the range that it lies beyond.
pub proof fn lemma_rec709_8bit_survives_normalisation(v: int)
    requires
        0 <= v <= 255,
    ensures
        capped(
            quantise_spec(
                div_spec(number(steps_above(v, 16, 235)), number(219)),
                crate::rec709::RANGE_8BIT,
                crate::rec709::BIAS_8BIT,
            ),
            255,
        ) == 16 + steps_above(v, 16, 235),
{
    let n = steps_above(v, 16, 235);
    lemma2_to64();
    lemma_number_known(219, 8, 0x80, 0x1_0000);
    if n == 0 {
        crate::order::lemma_round_zero(149);
        lemma_zero_has_first_code(crate::rec709::RANGE_8BIT, crate::rec709::RANGE_8BIT, crate::rec709::BIAS_8BIT, 0x84_0000, 130, 16, 0x8_0000);
    } else {
        if n <= 1 {
            lemma_rec709_8bit_1_to_1(n);
        } else if n <= 3 {
            lemma_rec709_8bit_2_to_3(n);
        } else if n <= 6 {
            lemma_rec709_8bit_4_to_6(n);
        } else if n <= 7 {
            lemma_rec709_8bit_7_to_7(n);
        } else if n <= 13 {
            lemma_rec709_8bit_8_to_13(n);
        } else if n <= 15 {
            lemma_rec709_8bit_14_to_15(n);
        } else if n <= 27 {
            lemma_rec709_8bit_16_to_27(n);
        } else if n <= 31 {
            lemma_rec709_8bit_28_to_31(n);
        } else if n <= 47 {
            lemma_rec709_8bit_32_to_47(n);
        } else if n <= 54 {
            lemma_rec709_8bit_48_to_54(n);
        } else if n <= 63 {
            lemma_rec709_8bit_55_to_63(n);
        } else if n <= 109 {
            lemma_rec709_8bit_64_to_109(n);
        } else if n <= 111 {
            lemma_rec709_8bit_110_to_111(n);
        } else if n <= 127 {
            lemma_rec709_8bit_112_to_127(n);
        } else if n <= 218 {
            lemma_rec709_8bit_128_to_218(n);
        } else if n <= 219 {
            lemma_rec709_8bit_219_to_219(n);
        }
    }
}

/// The codes whose count from the first is 1 to 1.
#[verifier::rlimit(80)]
proof fn lemma_rec709_10bit_1_to_1(n: nat)
    requires
        1 <= n <= 1,
    ensures
        quantise_spec(div_spec(number(n), number(876)), crate::rec709::RANGE_10BIT, crate::rec709::BIAS_10BIT) == 64 + n,
{
    lemma2_to64();
    lemma2_to64_rest();
    lemma_high_powers();
    let sr: nat = 0xdb_0000;
    lemma_number_known(876, 10, 0x200, 0x4000);
    assert(number(876) == crate::rec709::RANGE_10BIT);
    lemma_number_known(n, 1, 0x1, 0x80_0000);
    let big_n = number(n);
    let sn = n * 0x80_0000;
    assert(big_n == 126 * 0x80_0000 + sn);
    let q = (sn * 0x1_0000_0000_0000_0000) / sr;
    let rest = (sn * 0x1_0000_0000_0000_0000) % sr;
    let nq: nat = if rest != 0 {
        2 * q + 1
    } else {
        2 * q
    };
    assert(0x8000_0000_0000_0000 <= q < 0x1_0000_0000_0000_0000);
    lemma_quotient_known(big_n, crate::rec709::RANGE_10BIT, sn, 126, sr, 135, q, rest, 65, 0x1_0000_0000_0000_0000, 0x200_0000_0000);
    let x = div_spec(big_n, crate::rec709::RANGE_10BIT);
    let sx = nearest_even(nq, 0x200_0000_0000);
    assert(x == 116 * 0x80_0000 + sx);
    assert(0x80_0000 <= sx < 0x100_0000);
    assert(0 < x <= ONE);
    crate::binary32::lemma_less_by_rank(ONE, x);
    crate::binary32::lemma_less_by_rank(0, x);
    assert(unit_part(x) == x);
    let total = 0x81_0000 * 0x4000_0000 + sx * sr;
    lemma_fused_known(x, crate::rec709::RANGE_10BIT, crate::rec709::BIAS_10BIT, sx, 116, sr, 135, 0x81_0000, 132, 0x4000_0000, total, 54, 0x20_0000_0000_0000, 0x4000_0000);
    let y = fused_spec(x, crate::rec709::RANGE_10BIT, crate::rec709::BIAS_10BIT);
    let sy = nearest_even(total, 0x4000_0000);
    assert(y == 132 * 0x80_0000 + sy);
    assert(0x80_0000 <= sy < 0x100_0000);
    lemma_whole_known(y, sy, 132, 0x2_0000);
    assert(sy / 0x2_0000 == 64 + n);
}

/// The codes whose count from the first is 2 to 3.
#[verifier::rlimit(80)]
proof fn lemma_rec709_10bit_2_to_3(n: nat)
    requires
        2 <= n <= 3,
    ensures
        quantise_spec(div_spec(number(n), number(876)), crate::rec709::RANGE_10BIT, crate::rec709::BIAS_10BIT) == 64 + n,
{
    lemma2_to64();
    lemma2_to64_rest();
    lemma_high_powers();
    let sr: nat = 0xdb_0000;
    lemma_number_known(876, 10, 0x200, 0x4000);
    assert(number(876) == crate::rec709::RANGE_10BIT);
    lemma_number_known(n, 2, 0x2, 0x40_0000);
    let big_n = number(n);
    let sn = n * 0x40_0000;
    assert(big_n == 127 * 0x80_0000 + sn);
    let q = (sn * 0x1_0000_0000_0000_0000) / sr;
    let rest = (sn * 0x1_0000_0000_0000_0000) % sr;
    let nq: nat = if rest != 0 {
        2 * q + 1
    } else {
        2 * q
    };
    assert(0x8000_0000_0000_0000 <= q < 0x1_0000_0000_0000_0000);
    lemma_quotient_known(big_n, crate::rec709::RANGE_10BIT, sn, 127, sr, 135, q, rest, 65, 0x1_0000_0000_0000_0000, 0x200_0000_0000);
    let x = div_spec(big_n, crate::rec709::RANGE_10BIT);
    let sx = nearest_even(nq, 0x200_0000_0000);
    assert(x == 117 * 0x80_0000 + sx);
    assert(0x80_0000 <= sx < 0x100_0000);
    assert(0 < x <= ONE);
    crate::binary32::lemma_less_by_rank(ONE, x);
    crate::binary32::lemma_less_by_rank(0, x);
    assert(unit_part(x) == x);
    let total = 0x81_0000 * 0x2000_0000 + sx * sr;
    lemma_fused_known(x, crate::rec709::RANGE_10BIT, crate::rec709::BIAS_10BIT, sx, 117, sr, 135, 0x81_0000, 132, 0x2000_0000, total, 53, 0x10_0000_0000_0000, 0x2000_0000);
    let y = fused_spec(x, crate::rec709::RANGE_10BIT, crate::rec709::BIAS_10BIT);
    let sy = nearest_even(total, 0x2000_0000);
    assert(y == 132 * 0x80_0000 + sy);
    assert(0x80_0000 <= sy < 0x100_0000);
    lemma_whole_known(y, sy, 132, 0x2_0000);
    assert(sy / 0x2_0000 == 64 + n);
}

/// The codes whose count from the first is 4 to 6.
#[verifier::rlimit(80)]
proof fn lemma_rec709_10bit_4_to_6(n: nat)
    requires
        4 <= n <= 6,
    ensures
        quantise_spec(div_spec(number(n), number(876)), crate::rec709::RANGE_10BIT, crate::rec709::BIAS_10BIT) == 64 + n,
{
    lemma2_to64();
    lemma2_to64_rest();
    lemma_high_powers();
    let sr: nat = 0xdb_0000;
    lemma_number_known(876, 10, 0x200, 0x4000);
    assert(number(876) == crate::rec709::RANGE_10BIT);
    lemma_number_known(n, 3, 0x4, 0x20_0000);
    let big_n = number(n);
    let sn = n * 0x20_0000;
    assert(big_n == 128 * 0x80_0000 + sn);
    let q = (sn * 0x1_0000_0000_0000_0000) / sr;
    let rest = (sn * 0x1_0000_0000_0000_0000) % sr;
    let nq: nat = if rest != 0 {
        2 * q + 1
    } else {
        2 * q
    };
    assert(0x8000_0000_0000_0000 <= q < 0x1_0000_0000_0000_0000);
    lemma_quotient_known(big_n, crate::rec709::RANGE_10BIT, sn, 128, sr, 135, q, rest, 65, 0x1_0000_0000_0000_0000, 0x200_0000_0000);
    let x = div_spec(big_n, crate::rec709::RANGE_10BIT);
    let sx = nearest_even(nq, 0x200_0000_0000);
    assert(x == 118 * 0x80_0000 + sx);
    assert(0x80_0000 <= sx < 0x100_0000);
    assert(0 < x <= ONE);
    crate::binary32::lemma_less_by_rank(ONE, x);
    crate::binary32::lemma_less_by_rank(0, x);
    assert(unit_part(x) == x);
    let total = 0x81_0000 * 0x1000_0000 + sx * sr;
    lemma_fused_known(x, crate::rec709::RANGE_10BIT, crate::rec709::BIAS_10BIT, sx, 118, sr, 135, 0x81_0000, 132, 0x1000_0000, total, 52, 0x8_0000_0000_0000, 0x1000_0000);
    let y = fused_spec(x, crate::rec709::RANGE_10BIT, crate::rec709::BIAS_10BIT);
    let sy = nearest_even(total, 0x1000_0000);
    assert(y == 132 * 0x80_0000 + sy);
    assert(0x80_0000 <= sy < 0x100_0000);
    lemma_whole_known(y, sy, 132, 0x2_0000);
    assert(sy / 0x2_0000 == 64 + n);
}

/// The codes whose count from the first is 7 to 7.
#[verifier::rlimit(80)]
proof fn lemma_rec709_10bit_7_to_7(n: nat)
    requires
        7 <= n <= 7,
    ensures
        quantise_spec(div_spec(number(n), number(876)), crate::rec709::RANGE_10BIT, crate::rec709::BIAS_10BIT) == 64 + n,
{
    lemma2_to64();
    lemma2_to64_rest();
    lemma_high_powers();
    let sr: nat = 0xdb_0000;
    lemma_number_known(876, 10, 0x200, 0x4000);
    assert(number(876) == crate::rec709::RANGE_10BIT);
    lemma_number_known(n, 3, 0x4, 0x20_0000);
    let big_n = number(n);
    let sn = n * 0x20_0000;
    assert(big_n == 128 * 0x80_0000 + sn);
    let q = (sn * 0x1_0000_0000_0000_0000) / sr;
    let rest = (sn * 0x1_0000_0000_0000_0000) % sr;
    let nq: nat = if rest != 0 {
        2 * q + 1
    } else {
        2 * q
    };
    assert(0x1_0000_0000_0000_0000 <= q < 0x2_0000_0000_0000_0000);
    lemma_quotient_known(big_n, crate::rec709::RANGE_10BIT, sn, 128, sr, 135, q, rest, 66, 0x2_0000_0000_0000_0000, 0x400_0000_0000);
    let x = div_spec(big_n, crate::rec709::RANGE_10BIT);
    let sx = nearest_even(nq, 0x400_0000_0000);
    assert(x == 119 * 0x80_0000 + sx);
    assert(0x80_0000 <= sx < 0x100_0000);
    assert(0 < x <= ONE);
    crate::binary32::lemma_less_by_rank(ONE, x);
    crate::binary32::lemma_less_by_rank(0, x);
    assert(unit_part(x) == x);
    let total = 0x81_0000 * 0x800_0000 + sx * sr;
    lemma_fused_known(x, crate::rec709::RANGE_10BIT, crate::rec709::BIAS_10BIT, sx, 119, sr, 135, 0x81_0000, 132, 0x800_0000, total, 51, 0x4_0000_0000_0000, 0x800_0000);
    let y = fused_spec(x, crate::rec709::RANGE_10BIT, crate::rec709::BIAS_10BIT);
    let sy = nearest_even(total, 0x800_0000);
    assert(y == 132 * 0x80_0000 + sy);
    assert(0x80_0000 <= sy < 0x100_0000);
    lemma_whole_known(y, sy, 132, 0x2_0000);
    assert(sy / 0x2_0000 == 64 + n);
}

/// The codes whose count from the first is 8 to 13.
#[verifier::rlimit(80)]
proof fn lemma_rec709_10bit_8_to_13(n: nat)
    requires
        8 <= n <= 13,
    ensures
        quantise_spec(div_spec(number(n), number(876)), crate::rec709::RANGE_10BIT, crate::rec709::BIAS_10BIT) == 64 + n,
{
    lemma2_to64();
    lemma2_to64_rest();
    lemma_high_powers();
    let sr: nat = 0xdb_0000;
    lemma_number_known(876, 10, 0x200, 0x4000);
    assert(number(876) == crate::rec709::RANGE_10BIT);
    lemma_number_known(n, 4, 0x8, 0x10_0000);
    let big_n = number(n);
    let sn = n * 0x10_0000;
    assert(big_n == 129 * 0x80_0000 + sn);
    let q = (sn * 0x1_0000_0000_0000_0000) / sr;
    let rest = (sn * 0x1_0000_0000_0000_0000) % sr;
    let nq: nat = if rest != 0 {
        2 * q + 1
    } else {
        2 * q
    };
    assert(0x8000_0000_0000_0000 <= q < 0x1_0000_0000_0000_0000);
    lemma_quotient_known(big_n, crate::rec709::RANGE_10BIT, sn, 129, sr, 135, q, rest, 65, 0x1_0000_0000_0000_0000, 0x200_0000_0000);
    let x = div_spec(big_n, crate::rec709::RANGE_10BIT);
    let sx = nearest_even(nq, 0x200_0000_0000);
    assert(x == 119 * 0x80_0000 + sx);
    assert(0x80_0000 <= sx < 0x100_0000);
    assert(0 < x <= ONE);
    crate::binary32::lemma_less_by_rank(ONE, x);
    crate::binary32::lemma_less_by_rank(0, x);
    assert(unit_part(x) == x);
    let total = 0x81_0000 * 0x800_0000 + sx * sr;
    lemma_fused_known(x, crate::rec709::RANGE_10BIT, crate::rec709::BIAS_10BIT, sx, 119, sr, 135, 0x81_0000, 132, 0x800_0000, total, 51, 0x4_0000_0000_0000, 0x800_0000);
    let y = fused_spec(x, crate::rec709::RANGE_10BIT, crate::rec709::BIAS_10BIT);
    let sy = nearest_even(total, 0x800_0000);
    assert(y == 132 * 0x80_0000 + sy);
    assert(0x80_0000 <= sy < 0x100_0000);
    lemma_whole_known(y, sy, 132, 0x2_0000);
    assert(sy / 0x2_0000 == 64 + n);
}

/// The codes whose count from the first is 14 to 15.
#[verifier::rlimit(80)]
proof fn lemma_rec709_10bit_14_to_15(n: nat)
    requires
        14 <= n <= 15,
    ensures
        quantise_spec(div_spec(number(n), number(876)), crate::rec709::RANGE_10BIT, crate::rec709::BIAS_10BIT) == 64 + n,
{
    lemma2_to64();
    lemma2_to64_rest();
    lemma_high_powers();
    let sr: nat = 0xdb_0000;
    lemma_number_known(876, 10, 0x200, 0x4000);
    assert(number(876) == crate::rec709::RANGE_10BIT);
    lemma_number_known(n, 4, 0x8, 0x10_0000);
    let big_n = number(n);
    let sn = n * 0x10_0000;
    assert(big_n == 129 * 0x80_0000 + sn);
    let q = (sn * 0x1_0000_0000_0000_0000) / sr;
    let rest = (sn * 0x1_0000_0000_0000_0000) % sr;
    let nq: nat = if rest != 0 {
        2 * q + 1
    } else {
        2 * q
    };
    assert(0x1_0000_0000_0000_0000 <= q < 0x2_0000_0000_0000_0000);
    lemma_quotient_known(big_n, crate::rec709::RANGE_10BIT, sn, 129, sr, 135, q, rest, 66, 0x2_0000_0000_0000_0000, 0x400_0000_0000);
    let x = div_spec(big_n, crate::rec709::RANGE_10BIT);
    let sx = nearest_even(nq, 0x400_0000_0000);
    assert(x == 120 * 0x80_0000 + sx);
    assert(0x80_0000 <= sx < 0x100_0000);
    assert(0 < x <= ONE);
    crate::binary32::lemma_less_by_rank(ONE, x);
    crate::binary32::lemma_less_by_rank(0, x);
    assert(unit_part(x) == x);
    let total = 0x81_0000 * 0x400_0000 + sx * sr;
    lemma_fused_known(x, crate::rec709::RANGE_10BIT, crate::rec709::BIAS_10BIT, sx, 120, sr, 135, 0x81_0000, 132, 0x400_0000, total, 50, 0x2_0000_0000_0000, 0x400_0000);
    let y = fused_spec(x, crate::rec709::RANGE_10BIT, crate::rec709::BIAS_10BIT);
    let sy = nearest_even(total, 0x400_0000);
    assert(y == 132 * 0x80_0000 + sy);
    assert(0x80_0000 <= sy < 0x100_0000);
    lemma_whole_known(y, sy, 132, 0x2_0000);
    assert(sy / 0x2_0000 == 64 + n);
}

/// The codes whose count from the first is 16 to 27.
#[verifier::rlimit(80)]
proof fn lemma_rec709_10bit_16_to_27(n: nat)
    requires
        16 <= n <= 27,
    ensures
        quantise_spec(div_spec(number(n), number(876)), crate::rec709::RANGE_10BIT, crate::rec709::BIAS_10BIT) == 64 + n,
{
    lemma2_to64();
    lemma2_to64_rest();
    lemma_high_powers();
    let sr: nat = 0xdb_0000;
    lemma_number_known(876, 10, 0x200, 0x4000);
    assert(number(876) == crate::rec709::RANGE_10BIT);
    lemma_number_known(n, 5, 0x10, 0x8_0000);
    let big_n = number(n);
    let sn = n * 0x8_0000;
    assert(big_n == 130 * 0x80_0000 + sn);
    let q = (sn * 0x1_0000_0000_0000_0000) / sr;
    let rest = (sn * 0x1_0000_0000_0000_0000) % sr;
    let nq: nat = if rest != 0 {
        2 * q + 1
    } else {
        2 * q
    };
    assert(0x8000_0000_0000_0000 <= q < 0x1_0000_0000_0000_0000);
    lemma_quotient_known(big_n, crate::rec709::RANGE_10BIT, sn, 130, sr, 135, q, rest, 65, 0x1_0000_0000_0000_0000, 0x200_0000_0000);
    let x = div_spec(big_n, crate::rec709::RANGE_10BIT);
    let sx = nearest_even(nq, 0x200_0000_0000);
    assert(x == 120 * 0x80_0000 + sx);
    assert(0x80_0000 <= sx < 0x100_0000);
    assert(0 < x <= ONE);
    crate::binary32::lemma_less_by_rank(ONE, x);
    crate::binary32::lemma_less_by_rank(0, x);
    assert(unit_part(x) == x);
    let total = 0x81_0000 * 0x400_0000 + sx * sr;
    lemma_fused_known(x, crate::rec709::RANGE_10BIT, crate::rec709::BIAS_10BIT, sx, 120, sr, 135, 0x81_0000, 132, 0x400_0000, total, 50, 0x2_0000_0000_0000, 0x400_0000);
    let y = fused_spec(x, crate::rec709::RANGE_10BIT, crate::rec709::BIAS_10BIT);
    let sy = nearest_even(total, 0x400_0000);
    assert(y == 132 * 0x80_0000 + sy);
    assert(0x80_0000 <= sy < 0x100_0000);
    lemma_whole_known(y, sy, 132, 0x2_0000);
    assert(sy / 0x2_0000 == 64 + n);
}

/// The codes whose count from the first is 28 to 31.
#[verifier::rlimit(80)]
proof fn lemma_rec709_10bit_28_to_31(n: nat)
    requires
        28 <= n <= 31,
    ensures
        quantise_spec(div_spec(number(n), number(876)), crate::rec709::RANGE_10BIT, crate::rec709::BIAS_10BIT) == 64 + n,
{
    lemma2_to64();
    lemma2_to64_rest();
    lemma_high_powers();
    let sr: nat = 0xdb_0000;
    lemma_number_known(876, 10, 0x200, 0x4000);
    assert(number(876) == crate::rec709::RANGE_10BIT);
    lemma_number_known(n, 5, 0x10, 0x8_0000);
    let big_n = number(n);
    let sn = n * 0x8_0000;
    assert(big_n == 130 * 0x80_0000 + sn);
    let q = (sn * 0x1_0000_0000_0000_0000) / sr;
    let rest = (sn * 0x1_0000_0000_0000_0000) % sr;
    let nq: nat = if rest != 0 {
        2 * q + 1
    } else {
        2 * q
    };
    assert(0x1_0000_0000_0000_0000 <= q < 0x2_0000_0000_0000_0000);
    lemma_quotient_known(big_n, crate::rec709::RANGE_10BIT, sn, 130, sr, 135, q, rest, 66, 0x2_0000_0000_0000_0000, 0x400_0000_0000);
    let x = div_spec(big_n, crate::rec709::RANGE_10BIT);
    let sx = nearest_even(nq, 0x400_0000_0000);
    assert(x == 121 * 0x80_0000 + sx);
    assert(0x80_0000 <= sx < 0x100_0000);
    assert(0 < x <= ONE);
    crate::binary32::lemma_less_by_rank(ONE, x);
    crate::binary32::lemma_less_by_rank(0, x);
    assert(unit_part(x) == x);
    let total = 0x81_0000 * 0x200_0000 + sx * sr;
    lemma_fused_known(x, crate::rec709::RANGE_10BIT, crate::rec709::BIAS_10BIT, sx, 121, sr, 135, 0x81_0000, 132, 0x200_0000, total, 49, 0x1_0000_0000_0000, 0x200_0000);
    let y = fused_spec(x, crate::rec709::RANGE_10BIT, crate::rec709::BIAS_10BIT);
    let sy = nearest_even(total, 0x200_0000);
    assert(y == 132 * 0x80_0000 + sy);
    assert(0x80_0000 <= sy < 0x100_0000);
    lemma_whole_known(y, sy, 132, 0x2_0000);
    assert(sy / 0x2_0000 == 64 + n);
}

/// The codes whose count from the first is 32 to 54.
#[verifier::rlimit(80)]
proof fn lemma_rec709_10bit_32_to_54(n: nat)
    requires
        32 <= n <= 54,
    ensures
        quantise_spec(div_spec(number(n), number(876)), crate::rec709::RANGE_10BIT, crate::rec709::BIAS_10BIT) == 64 + n,
{
    lemma2_to64();
    lemma2_to64_rest();
    lemma_high_powers();
    let sr: nat = 0xdb_0000;
    lemma_number_known(876, 10, 0x200, 0x4000);
    assert(number(876) == crate::rec709::RANGE_10BIT);
    lemma_number_known(n, 6, 0x20, 0x4_0000);
    let big_n = number(n);
    let sn = n * 0x4_0000;
    assert(big_n == 131 * 0x80_0000 + sn);
    let q = (sn * 0x1_0000_0000_0000_0000) / sr;
    let rest = (sn * 0x1_0000_0000_0000_0000) % sr;
    let nq: nat = if rest != 0 {
        2 * q + 1
    } else {
        2 * q
    };
    assert(0x8000_0000_0000_0000 <= q < 0x1_0000_0000_0000_0000);
    lemma_quotient_known(big_n, crate::rec709::RANGE_10BIT, sn, 131, sr, 135, q, rest, 65, 0x1_0000_0000_0000_0000, 0x200_0000_0000);
    let x = div_spec(big_n, crate::rec709::RANGE_10BIT);
    let sx = nearest_even(nq, 0x200_0000_0000);
    assert(x == 121 * 0x80_0000 + sx);
    assert(0x80_0000 <= sx < 0x100_0000);
    assert(0 < x <= ONE);
    crate::binary32::lemma_less_by_rank(ONE, x);
    crate::binary32::lemma_less_by_rank(0, x);
    assert(unit_part(x) == x);
    let total = 0x81_0000 * 0x200_0000 + sx * sr;
    lemma_fused_known(x, crate::rec709::RANGE_10BIT, crate::rec709::BIAS_10BIT, sx, 121, sr, 135, 0x81_0000, 132, 0x200_0000, total, 49, 0x1_0000_0000_0000, 0x200_0000);
    let y = fused_spec(x, crate::rec709::RANGE_10BIT, crate::rec709::BIAS_10BIT);
    let sy = nearest_even(total, 0x200_0000);
    assert(y == 132 * 0x80_0000 + sy);
    assert(0x80_0000 <= sy < 0x100_0000);
    lemma_whole_known(y, sy, 132, 0x2_0000);
    assert(sy / 0x2_0000 == 64 + n);
}

/// The codes whose count from the first is 55 to 63.
#[verifier::rlimit(80)]
proof fn lemma_rec709_10bit_55_to_63(n: nat)
    requires
        55 <= n <= 63,
    ensures
        quantise_spec(div_spec(number(n), number(876)), crate::rec709::RANGE_10BIT, crate::rec709::BIAS_10BIT) == 64 + n,
{
    lemma2_to64();
    lemma2_to64_rest();
    lemma_high_powers();
    let sr: nat = 0xdb_0000;
    lemma_number_known(876, 10, 0x200, 0x4000);
    assert(number(876) == crate::rec709::RANGE_10BIT);
    lemma_number_known(n, 6, 0x20, 0x4_0000);
    let big_n = number(n);
    let sn = n * 0x4_0000;
    assert(big_n == 131 * 0x80_0000 + sn);
    let q = (sn * 0x1_0000_0000_0000_0000) / sr;
    let rest = (sn * 0x1_0000_0000_0000_0000) % sr;
    let nq: nat = if rest != 0 {
        2 * q + 1
    } else {
        2 * q
    };
    assert(0x1_0000_0000_0000_0000 <= q < 0x2_0000_0000_0000_0000);
    lemma_quotient_known(big_n, crate::rec709::RANGE_10BIT, sn, 131, sr, 135, q, rest, 66, 0x2_0000_0000_0000_0000, 0x400_0000_0000);
    let x = div_spec(big_n, crate::rec709::RANGE_10BIT);
    let sx = nearest_even(nq, 0x400_0000_0000);
    assert(x == 122 * 0x80_0000 + sx);
    assert(0x80_0000 <= sx < 0x100_0000);
    assert(0 < x <= ONE);
    crate::binary32::lemma_less_by_rank(ONE, x);
    crate::binary32::lemma_less_by_rank(0, x);
    assert(unit_part(x) == x);
    let total = 0x81_0000 * 0x100_0000 + sx * sr;
    lemma_fused_known(x, crate::rec709::RANGE_10BIT, crate::rec709::BIAS_10BIT, sx, 122, sr, 135, 0x81_0000, 132, 0x100_0000, total, 48, 0x8000_0000_0000, 0x100_0000);
    let y = fused_spec(x, crate::rec709::RANGE_10BIT, crate::rec709::BIAS_10BIT);
    let sy = nearest_even(total, 0x100_0000);
    assert(y == 132 * 0x80_0000 + sy);
    assert(0x80_0000 <= sy < 0x100_0000);
    lemma_whole_known(y, sy, 132, 0x2_0000);
    assert(sy / 0x2_0000 == 64 + n);
}

/// The codes whose count from the first is 64 to 109.
#[verifier::rlimit(80)]
proof fn lemma_rec709_10bit_64_to_109(n: nat)
    requires
        64 <= n <= 109,
    ensures
        quantise_spec(div_spec(number(n), number(876)), crate::rec709::RANGE_10BIT, crate::rec709::BIAS_10BIT) == 64 + n,
{
    lemma2_to64();
    lemma2_to64_rest();
    lemma_high_powers();
    let sr: nat = 0xdb_0000;
    lemma_number_known(876, 10, 0x200, 0x4000);
    assert(number(876) == crate::rec709::RANGE_10BIT);
    lemma_number_known(n, 7, 0x40, 0x2_0000);
    let big_n = number(n);
    let sn = n * 0x2_0000;
    assert(big_n == 132 * 0x80_0000 + sn);
    let q = (sn * 0x1_0000_0000_0000_0000) / sr;
    let rest = (sn * 0x1_0000_0000_0000_0000) % sr;
    let nq: nat = if rest != 0 {
        2 * q + 1
    } else {
        2 * q
    };
    assert(0x8000_0000_0000_0000 <= q < 0x1_0000_0000_0000_0000);
    lemma_quotient_known(big_n, crate::rec709::RANGE_10BIT, sn, 132, sr, 135, q, rest, 65, 0x1_0000_0000_0000_0000, 0x200_0000_0000);
    let x = div_spec(big_n, crate::rec709::RANGE_10BIT);
    let sx = nearest_even(nq, 0x200_0000_0000);
    assert(x == 122 * 0x80_0000 + sx);
    assert(0x80_0000 <= sx < 0x100_0000);
    assert(0 < x <= ONE);
    crate::binary32::lemma_less_by_rank(ONE, x);
    crate::binary32::lemma_less_by_rank(0, x);
    assert(unit_part(x) == x);
    let total = 0x81_0000 * 0x100_0000 + sx * sr;
    lemma_fused_known(x, crate::rec709::RANGE_10BIT, crate::rec709::BIAS_10BIT, sx, 122, sr, 135, 0x81_0000, 132, 0x100_0000, total, 49, 0x1_0000_0000_0000, 0x200_0000);
    let y = fused_spec(x, crate::rec709::RANGE_10BIT, crate::rec709::BIAS_10BIT);
    let sy = nearest_even(total, 0x200_0000);
    assert(y == 133 * 0x80_0000 + sy);
    assert(0x80_0000 <= sy < 0x100_0000);
    lemma_whole_known(y, sy, 133, 0x1_0000);
    assert(sy / 0x1_0000 == 64 + n);
}

/// The codes whose count from the first is 110 to 127.
#[verifier::rlimit(80)]
proof fn lemma_rec709_10bit_110_to_127(n: nat)
    requires
        110 <= n <= 127,
    ensures
        quantise_spec(div_spec(number(n), number(876)), crate::rec709::RANGE_10BIT, crate::rec709::BIAS_10BIT) == 64 + n,
{
    lemma2_to64();
    lemma2_to64_rest();
    lemma_high_powers();
    let sr: nat = 0xdb_0000;
    lemma_number_known(876, 10, 0x200, 0x4000);
    assert(number(876) == crate::rec709::RANGE_10BIT);
    lemma_number_known(n, 7, 0x40, 0x2_0000);
    let big_n = number(n);
    let sn = n * 0x2_0000;
    assert(big_n == 132 * 0x80_0000 + sn);
    let q = (sn * 0x1_0000_0000_0000_0000) / sr;
    let rest = (sn * 0x1_0000_0000_0000_0000) % sr;
    let nq: nat = if rest != 0 {
        2 * q + 1
    } else {
        2 * q
    };
    assert(0x1_0000_0000_0000_0000 <= q < 0x2_0000_0000_0000_0000);
    lemma_quotient_known(big_n, crate::rec709::RANGE_10BIT, sn, 132, sr, 135, q, rest, 66, 0x2_0000_0000_0000_0000, 0x400_0000_0000);
    let x = div_spec(big_n, crate::rec709::RANGE_10BIT);
    let sx = nearest_even(nq, 0x400_0000_0000);
    assert(x == 123 * 0x80_0000 + sx);
    assert(0x80_0000 <= sx < 0x100_0000);
    assert(0 < x <= ONE);
    crate::binary32::lemma_less_by_rank(ONE, x);
    crate::binary32::lemma_less_by_rank(0, x);
    assert(unit_part(x) == x);
    let total = 0x81_0000 * 0x80_0000 + sx * sr;
    lemma_fused_known(x, crate::rec709::RANGE_10BIT, crate::rec709::BIAS_10BIT, sx, 123, sr, 135, 0x81_0000, 132, 0x80_0000, total, 48, 0x8000_0000_0000, 0x100_0000);
    let y = fused_spec(x, crate::rec709::RANGE_10BIT, crate::rec709::BIAS_10BIT);
    let sy = nearest_even(total, 0x100_0000);
    assert(y == 133 * 0x80_0000 + sy);
    assert(0x80_0000 <= sy < 0x100_0000);
    lemma_whole_known(y, sy, 133, 0x1_0000);
    assert(sy / 0x1_0000 == 64 + n);
}

/// The codes whose count from the first is 128 to 191.
#[verifier::rlimit(80)]
proof fn lemma_rec709_10bit_128_to_191(n: nat)
    requires
        128 <= n <= 191,
    ensures
        quantise_spec(div_spec(number(n), number(876)), crate::rec709::RANGE_10BIT, crate::rec709::BIAS_10BIT) == 64 + n,
{
    lemma2_to64();
    lemma2_to64_rest();
    lemma_high_powers();
    let sr: nat = 0xdb_0000;
    lemma_number_known(876, 10, 0x200, 0x4000);
    assert(number(876) == crate::rec709::RANGE_10BIT);
    lemma_number_known(n, 8, 0x80, 0x1_0000);
    let big_n = number(n);
    let sn = n * 0x1_0000;
    assert(big_n == 133 * 0x80_0000 + sn);
    let q = (sn * 0x1_0000_0000_0000_0000) / sr;
    let rest = (sn * 0x1_0000_0000_0000_0000) % sr;
    let nq: nat = if rest != 0 {
        2 * q + 1
    } else {
        2 * q
    };
    assert(0x8000_0000_0000_0000 <= q < 0x1_0000_0000_0000_0000);
    lemma_quotient_known(big_n, crate::rec709::RANGE_10BIT, sn, 133, sr, 135, q, rest, 65, 0x1_0000_0000_0000_0000, 0x200_0000_0000);
    let x = div_spec(big_n, crate::rec709::RANGE_10BIT);
    let sx = nearest_even(nq, 0x200_0000_0000);
    assert(x == 123 * 0x80_0000 + sx);
    assert(0x80_0000 <= sx < 0x100_0000);
    assert(0 < x <= ONE);
    crate::binary32::lemma_less_by_rank(ONE, x);
    crate::binary32::lemma_less_by_rank(0, x);
    assert(unit_part(x) == x);
    let total = 0x81_0000 * 0x80_0000 + sx * sr;
    lemma_fused_known(x, crate::rec709::RANGE_10BIT, crate::rec709::BIAS_10BIT, sx, 123, sr, 135, 0x81_0000, 132, 0x80_0000, total, 48, 0x8000_0000_0000, 0x100_0000);
    let y = fused_spec(x, crate::rec709::RANGE_10BIT, crate::rec709::BIAS_10BIT);
    let sy = nearest_even(total, 0x100_0000);
    assert(y == 133 * 0x80_0000 + sy);
    assert(0x80_0000 <= sy < 0x100_0000);
    lemma_whole_known(y, sy, 133, 0x1_0000);
    assert(sy / 0x1_0000 == 64 + n);
}

/// The codes whose count from the first is 192 to 218.
#[verifier::rlimit(80)]
proof fn lemma_rec709_10bit_192_to_218(n: nat)
    requires
        192 <= n <= 218,
    ensures
        quantise_spec(div_spec(number(n), number(876)), crate::rec709::RANGE_10BIT, crate::rec709::BIAS_10BIT) == 64 + n,
{
    lemma2_to64();
    lemma2_to64_rest();
    lemma_high_powers();
    let sr: nat = 0xdb_0000;
    lemma_number_known(876, 10, 0x200, 0x4000);
    assert(number(876) == crate::rec709::RANGE_10BIT);
    lemma_number_known(n, 8, 0x80, 0x1_0000);
    let big_n = number(n);
    let sn = n * 0x1_0000;
    assert(big_n == 133 * 0x80_0000 + sn);
    let q = (sn * 0x1_0000_0000_0000_0000) / sr;
    let rest = (sn * 0x1_0000_0000_0000_0000) % sr;
    let nq: nat = if rest != 0 {
        2 * q + 1
    } else {
        2 * q
    };
    assert(0x8000_0000_0000_0000 <= q < 0x1_0000_0000_0000_0000);
    lemma_quotient_known(big_n, crate::rec709::RANGE_10BIT, sn, 133, sr, 135, q, rest, 65, 0x1_0000_0000_0000_0000, 0x200_0000_0000);
    let x = div_spec(big_n, crate::rec709::RANGE_10BIT);
    let sx = nearest_even(nq, 0x200_0000_0000);
    assert(x == 123 * 0x80_0000 + sx);
    assert(0x80_0000 <= sx < 0x100_0000);
    assert(0 < x <= ONE);
    crate::binary32::lemma_less_by_rank(ONE, x);
    crate::binary32::lemma_less_by_rank(0, x);
    assert(unit_part(x) == x);
    let total = 0x81_0000 * 0x80_0000 + sx * sr;
    lemma_fused_known(x, crate::rec709::RANGE_10BIT, crate::rec709::BIAS_10BIT, sx, 123, sr, 135, 0x81_0000, 132, 0x80_0000, total, 49, 0x1_0000_0000_0000, 0x200_0000);
    let y = fused_spec(x, crate::rec709::RANGE_10BIT, crate::rec709::BIAS_10BIT);
    let sy = nearest_even(total, 0x200_0000);
    assert(y == 134 * 0x80_0000 + sy);
    assert(0x80_0000 <= sy < 0x100_0000);
    lemma_whole_known(y, sy, 134, 0x8000);
    assert(sy / 0x8000 == 64 + n);
}

/// The codes whose count from the first is 219 to 255.
#[verifier::rlimit(80)]
proof fn lemma_rec709_10bit_219_to_255(n: nat)
    requires
        219 <= n <= 255,
    ensures
        quantise_spec(div_spec(number(n), number(876)), crate::rec709::RANGE_10BIT, crate::rec709::BIAS_10BIT) == 64 + n,
{
    lemma2_to64();
    lemma2_to64_rest();
    lemma_high_powers();
    let sr: nat = 0xdb_0000;
    lemma_number_known(876, 10, 0x200, 0x4000);
    assert(number(876) == crate::rec709::RANGE_10BIT);
    lemma_number_known(n, 8, 0x80, 0x1_0000);
    let big_n = number(n);
    let sn = n * 0x1_0000;
    assert(big_n == 133 * 0x80_0000 + sn);
    let q = (sn * 0x1_0000_0000_0000_0000) / sr;
    let rest = (sn * 0x1_0000_0000_0000_0000) % sr;
    let nq: nat = if rest != 0 {
        2 * q + 1
    } else {
        2 * q
    };
    assert(0x1_0000_0000_0000_0000 <= q < 0x2_0000_0000_0000_0000);
    lemma_quotient_known(big_n, crate::rec709::RANGE_10BIT, sn, 133, sr, 135, q, rest, 66, 0x2_0000_0000_0000_0000, 0x400_0000_0000);
    let x = div_spec(big_n, crate::rec709::RANGE_10BIT);
    let sx = nearest_even(nq, 0x400_0000_0000);
    assert(x == 124 * 0x80_0000 + sx);
    assert(0x80_0000 <= sx < 0x100_0000);
    assert(0 < x <= ONE);
    crate::binary32::lemma_less_by_rank(ONE, x);
    crate::binary32::lemma_less_by_rank(0, x);
    assert(unit_part(x) == x);
    let total = 0x81_0000 * 0x40_0000 + sx * sr;
    lemma_fused_known(x, crate::rec709::RANGE_10BIT, crate::rec709::BIAS_10BIT, sx, 124, sr, 135, 0x81_0000, 132, 0x40_0000, total, 48, 0x8000_0000_0000, 0x100_0000);
    let y = fused_spec(x, crate::rec709::RANGE_10BIT, crate::rec709::BIAS_10BIT);
    let sy = nearest_even(total, 0x100_0000);
    assert(y == 134 * 0x80_0000 + sy);
    assert(0x80_0000 <= sy < 0x100_0000);
    lemma_whole_known(y, sy, 134, 0x8000);
    assert(sy / 0x8000 == 64 + n);
}

/// The codes whose count from the first is 256 to 437.
#[verifier::rlimit(80)]
proof fn lemma_rec709_10bit_256_to_437(n: nat)
    requires
        256 <= n <= 437,
    ensures
        quantise_spec(div_spec(number(n), number(876)), crate::rec709::RANGE_10BIT, crate::rec709::BIAS_10BIT) == 64 + n,
{
    lemma2_to64();
    lemma2_to64_rest();
    lemma_high_powers();
    let sr: nat = 0xdb_0000;
    lemma_number_known(876, 10, 0x200, 0x4000);
    assert(number(876) == crate::rec709::RANGE_10BIT);
    lemma_number_known(n, 9, 0x100, 0x8000);
    let big_n = number(n);
    let sn = n * 0x8000;
    assert(big_n == 134 * 0x80_0000 + sn);
    let q = (sn * 0x1_0000_0000_0000_0000) / sr;
    let rest = (sn * 0x1_0000_0000_0000_0000) % sr;
    let nq: nat = if rest != 0 {
        2 * q + 1
    } else {
        2 * q
    };
    assert(0x8000_0000_0000_0000 <= q < 0x1_0000_0000_0000_0000);
    lemma_quotient_known(big_n, crate::rec709::RANGE_10BIT, sn, 134, sr, 135, q, rest, 65, 0x1_0000_0000_0000_0000, 0x200_0000_0000);
    let x = div_spec(big_n, crate::rec709::RANGE_10BIT);
    let sx = nearest_even(nq, 0x200_0000_0000);
    assert(x == 124 * 0x80_0000 + sx);
    assert(0x80_0000 <= sx < 0x100_0000);
    assert(0 < x <= ONE);
    crate::binary32::lemma_less_by_rank(ONE, x);
    crate::binary32::lemma_less_by_rank(0, x);
    assert(unit_part(x) == x);
    let total = 0x81_0000 * 0x40_0000 + sx * sr;
    lemma_fused_known(x, crate::rec709::RANGE_10BIT, crate::rec709::BIAS_10BIT, sx, 124, sr, 135, 0x81_0000, 132, 0x40_0000, total, 48, 0x8000_0000_0000, 0x100_0000);
    let y = fused_spec(x, crate::rec709::RANGE_10BIT, crate::rec709::BIAS_10BIT);
    let sy = nearest_even(total, 0x100_0000);
    assert(y == 134 * 0x80_0000 + sy);
    assert(0x80_0000 <= sy < 0x100_0000);
    lemma_whole_known(y, sy, 134, 0x8000);
    assert(sy / 0x8000 == 64 + n);
}

/// The codes whose count from the first is 438 to 447.
#[verifier::rlimit(80)]
proof fn lemma_rec709_10bit_438_to_447(n: nat)
    requires
        438 <= n <= 447,
    ensures
        quantise_spec(div_spec(number(n), number(876)), crate::rec709::RANGE_10BIT, crate::rec709::BIAS_10BIT) == 64 + n,
{
    lemma2_to64();
    lemma2_to64_rest();
    lemma_high_powers();
    let sr: nat = 0xdb_0000;
    lemma_number_known(876, 10, 0x200, 0x4000);
    assert(number(876) == crate::rec709::RANGE_10BIT);
    lemma_number_known(n, 9, 0x100, 0x8000);
    let big_n = number(n);
    let sn = n * 0x8000;
    assert(big_n == 134 * 0x80_0000 + sn);
    let q = (sn * 0x1_0000_0000_0000_0000) / sr;
    let rest = (sn * 0x1_0000_0000_0000_0000) % sr;
    let nq: nat = if rest != 0 {
        2 * q + 1
    } else {
        2 * q
    };
    assert(0x1_0000_0000_0000_0000 <= q < 0x2_0000_0000_0000_0000);
    lemma_quotient_known(big_n, crate::rec709::RANGE_10BIT, sn, 134, sr, 135, q, rest, 66, 0x2_0000_0000_0000_0000, 0x400_0000_0000);
    let x = div_spec(big_n, crate::rec709::RANGE_10BIT);
    let sx = nearest_even(nq, 0x400_0000_0000);
    assert(x == 125 * 0x80_0000 + sx);
    assert(0x80_0000 <= sx < 0x100_0000);
    assert(0 < x <= ONE);
    crate::binary32::lemma_less_by_rank(ONE, x);
    crate::binary32::lemma_less_by_rank(0, x);
    assert(unit_part(x) == x);
    let total = 0x81_0000 * 0x20_0000 + sx * sr;
    lemma_fused_known(x, crate::rec709::RANGE_10BIT, crate::rec709::BIAS_10BIT, sx, 125, sr, 135, 0x81_0000, 132, 0x20_0000, total, 47, 0x4000_0000_0000, 0x80_0000);
    let y = fused_spec(x, crate::rec709::RANGE_10BIT, crate::rec709::BIAS_10BIT);
    let sy = nearest_even(total, 0x80_0000);
    assert(y == 134 * 0x80_0000 + sy);
    assert(0x80_0000 <= sy < 0x100_0000);
    lemma_whole_known(y, sy, 134, 0x8000);
    assert(sy / 0x8000 == 64 + n);
}

/// The codes whose count from the first is 448 to 511.
#[verifier::rlimit(80)]
proof fn lemma_rec709_10bit_448_to_511(n: nat)
    requires
        448 <= n <= 511,
    ensures
        quantise_spec(div_spec(number(n), number(876)), crate::rec709::RANGE_10BIT, crate::rec709::BIAS_10BIT) == 64 + n,
{
    lemma2_to64();
    lemma2_to64_rest();
    lemma_high_powers();
    let sr: nat = 0xdb_0000;
    lemma_number_known(876, 10, 0x200, 0x4000);
    assert(number(876) == crate::rec709::RANGE_10BIT);
    lemma_number_known(n, 9, 0x100, 0x8000);
    let big_n = number(n);
    let sn = n * 0x8000;
    assert(big_n == 134 * 0x80_0000 + sn);
    let q = (sn * 0x1_0000_0000_0000_0000) / sr;
    let rest = (sn * 0x1_0000_0000_0000_0000) % sr;
    let nq: nat = if rest != 0 {
        2 * q + 1
    } else {
        2 * q
    };
    assert(0x1_0000_0000_0000_0000 <= q < 0x2_0000_0000_0000_0000);
    lemma_quotient_known(big_n, crate::rec709::RANGE_10BIT, sn, 134, sr, 135, q, rest, 66, 0x2_0000_0000_0000_0000, 0x400_0000_0000);
    let x = div_spec(big_n, crate::rec709::RANGE_10BIT);
    let sx = nearest_even(nq, 0x400_0000_0000);
    assert(x == 125 * 0x80_0000 + sx);
    assert(0x80_0000 <= sx < 0x100_0000);
    assert(0 < x <= ONE);
    crate::binary32::lemma_less_by_rank(ONE, x);
    crate::binary32::lemma_less_by_rank(0, x);
    assert(unit_part(x) == x);
    let total = 0x81_0000 * 0x20_0000 + sx * sr;
    lemma_fused_known(x, crate::rec709::RANGE_10BIT, crate::rec709::BIAS_10BIT, sx, 125, sr, 135, 0x81_0000, 132, 0x20_0000, total, 48, 0x8000_0000_0000, 0x100_0000);
    let y = fused_spec(x, crate::rec709::RANGE_10BIT, crate::rec709::BIAS_10BIT);
    let sy = nearest_even(total, 0x100_0000);
    assert(y == 135 * 0x80_0000 + sy);
    assert(0x80_0000 <= sy < 0x100_0000);
    lemma_whole_known(y, sy, 135, 0x4000);
    assert(sy / 0x4000 == 64 + n);
}

/// The codes whose count from the first is 512 to 875.
#[verifier::rlimit(80)]
proof fn lemma_rec709_10bit_512_to_875(n: nat)
    requires
        512 <= n <= 875,
    ensures
        quantise_spec(div_spec(number(n), number(876)), crate::rec709::RANGE_10BIT, crate::rec709::BIAS_10BIT) == 64 + n,
{
    lemma2_to64();
    lemma2_to64_rest();
    lemma_high_powers();
    let sr: nat = 0xdb_0000;
    lemma_number_known(876, 10, 0x200, 0x4000);
    assert(number(876) == crate::rec709::RANGE_10BIT);
    lemma_number_known(n, 10, 0x200, 0x4000);
    let big_n = number(n);
    let sn = n * 0x4000;
    assert(big_n == 135 * 0x80_0000 + sn);
    let q = (sn * 0x1_0000_0000_0000_0000) / sr;
    let rest = (sn * 0x1_0000_0000_0000_0000) % sr;
    let nq: nat = if rest != 0 {
        2 * q + 1
    } else {
        2 * q
    };
    assert(0x8000_0000_0000_0000 <= q < 0x1_0000_0000_0000_0000);
    lemma_quotient_known(big_n, crate::rec709::RANGE_10BIT, sn, 135, sr, 135, q, rest, 65, 0x1_0000_0000_0000_0000, 0x200_0000_0000);
    let x = div_spec(big_n, crate::rec709::RANGE_10BIT);
    let sx = nearest_even(nq, 0x200_0000_0000);
    assert(x == 125 * 0x80_0000 + sx);
    assert(0x80_0000 <= sx < 0x100_0000);
    assert(0 < x <= ONE);
    crate::binary32::lemma_less_by_rank(ONE, x);
    crate::binary32::lemma_less_by_rank(0, x);
    assert(unit_part(x) == x);
    let total = 0x81_0000 * 0x20_0000 + sx * sr;
    lemma_fused_known(x, crate::rec709::RANGE_10BIT, crate::rec709::BIAS_10BIT, sx, 125, sr, 135, 0x81_0000, 132, 0x20_0000, total, 48, 0x8000_0000_0000, 0x100_0000);
    let y = fused_spec(x, crate::rec709::RANGE_10BIT, crate::rec709::BIAS_10BIT);
    let sy = nearest_even(total, 0x100_0000);
    assert(y == 135 * 0x80_0000 + sy);
    assert(0x80_0000 <= sy < 0x100_0000);
    lemma_whole_known(y, sy, 135, 0x4000);
    assert(sy / 0x4000 == 64 + n);
}

/// The codes whose count from the first is 876 to 876.
#[verifier::rlimit(80)]
proof fn lemma_rec709_10bit_876_to_876(n: nat)
    requires
        876 <= n <= 876,
    ensures
        quantise_spec(div_spec(number(n), number(876)), crate::rec709::RANGE_10BIT, crate::rec709::BIAS_10BIT) == 64 + n,
{
    lemma2_to64();
    lemma2_to64_rest();
    lemma_high_powers();
    let sr: nat = 0xdb_0000;
    lemma_number_known(876, 10, 0x200, 0x4000);
    assert(number(876) == crate::rec709::RANGE_10BIT);
    lemma_number_known(n, 10, 0x200, 0x4000);
    let big_n = number(n);
    let sn = n * 0x4000;
    assert(big_n == 135 * 0x80_0000 + sn);
    let q = (sn * 0x1_0000_0000_0000_0000) / sr;
    let rest = (sn * 0x1_0000_0000_0000_0000) % sr;
    let nq: nat = if rest != 0 {
        2 * q + 1
    } else {
        2 * q
    };
    assert(0x1_0000_0000_0000_0000 <= q < 0x2_0000_0000_0000_0000);
    lemma_quotient_known(big_n, crate::rec709::RANGE_10BIT, sn, 135, sr, 135, q, rest, 66, 0x2_0000_0000_0000_0000, 0x400_0000_0000);
    let x = div_spec(big_n, crate::rec709::RANGE_10BIT);
    let sx = nearest_even(nq, 0x400_0000_0000);
    assert(x == 126 * 0x80_0000 + sx);
    assert(0x80_0000 <= sx < 0x100_0000);
    assert(0 < x <= ONE);
    crate::binary32::lemma_less_by_rank(ONE, x);
    crate::binary32::lemma_less_by_rank(0, x);
    assert(unit_part(x) == x);
    let total = 0x81_0000 * 0x10_0000 + sx * sr;
    lemma_fused_known(x, crate::rec709::RANGE_10BIT, crate::rec709::BIAS_10BIT, sx, 126, sr, 135, 0x81_0000, 132, 0x10_0000, total, 47, 0x4000_0000_0000, 0x80_0000);
    let y = fused_spec(x, crate::rec709::RANGE_10BIT, crate::rec709::BIAS_10BIT);
    let sy = nearest_even(total, 0x80_0000);
    assert(y == 135 * 0x80_0000 + sy);
    assert(0x80_0000 <= sy < 0x100_0000);
    lemma_whole_known(y, sy, 135, 0x4000);
    assert(sy / 0x4000 == 64 + n);
}

/// A 10-bit Rec.709 code survives normalisation: a code of the range is
/// encoded from the value that it decodes to, and a code outside of the
/// range comes back as the end of the range that it lies beyond.
pub proof fn lemma_rec709_10bit_survives_normalisation(v: int)
    requires
        0 <= v <= 65535,
    ensures
        capped(
            quantise_spec(
                div_spec(number(steps_above(v, 64, 940)), number(876)),
                crate::rec709::RANGE_10BIT,
                crate::rec709::BIAS_10BIT,
            ),
            65535,
        ) == 64 + steps_above(v, 64, 940),
{
    let n = steps_above(v, 64, 940);
    lemma2_to64();
    lemma_number_known(876, 10, 0x200, 0x4000);
    if n == 0 {
        crate::order::lemma_round_zero(149);
        lemma_zero_has_first_code(crate::rec709::RANGE_10BIT, crate::rec709::RANGE_10BIT, crate::rec709::BIAS_10BIT, 0x81_0000, 132, 64, 0x2_0000);
    } else {
        if n <= 1 {
            lemma_rec709_10bit_1_to_1(n);
        } else if n <= 3 {
            lemma_rec709_10bit_2_to_3(n);
        } else if n <= 6 {
            lemma_rec709_10bit_4_to_6(n);
        } else if n <= 7 {
            lemma_rec709_10bit_7_to_7(n);
        } else if n <= 13 {
            lemma_rec709_10bit_8_to_13(n);
        } else if n <= 15 {
            lemma_rec709_10bit_14_to_15(n);
        } else if n <= 27 {
            lemma_rec709_10bit_16_to_27(n);
        } else if n <= 31 {
            lemma_rec709_10bit_28_to_31(n);
        } else if n <= 54 {
            lemma_rec709_10bit_32_to_54(n);
        } else if n <= 63 {
            lemma_rec709_10bit_55_to_63(n);
        } else if n <= 109 {
            lemma_rec709_10bit_64_to_109(n);
        } else if n <= 127 {
            lemma_rec709_10bit_110_to_127(n);
        } else if n <= 191 {
            lemma_rec709_10bit_128_to_191(n);
        } else if n <= 218 {
            lemma_rec709_10bit_192_to_218(n);
        } else if n <= 255 {
            lemma_rec709_10bit_219_to_255(n);
        } else if n <= 437 {
            lemma_rec709_10bit_256_to_437(n);
        } else if n <= 447 {
            lemma_rec709_10bit_438_to_447(n);
        } else if n <= 511 {
            lemma_rec709_10bit_448_to_511(n);
        } else if n <= 875 {
            lemma_rec709_10bit_512_to_875(n);
        } else if n <= 876 {
            lemma_rec709_10bit_876_to_876(n);
        }
    }
}

/// The codes whose count from the first is 1 to 1.
#[verifier::rlimit(80)]
proof fn lemma_u8_1_to_1(n: nat)
    requires
        1 <= n <= 1,
    ensures
        quantise_spec(div_spec(number(n), number(255)), crate::SCALE_U8, crate::gamma::HALF) == 0 + n,
{
    lemma2_to64();
    lemma2_to64_rest();
    lemma_high_powers();
    let sr: nat = 0xff_0000;
    lemma_number_known(255, 8, 0x80, 0x1_0000);
    assert(number(255) == crate::SCALE_U8);
    lemma_number_known(n, 1, 0x1, 0x80_0000);
    let big_n = number(n);
    let sn = n * 0x80_0000;
    assert(big_n == 126 * 0x80_0000 + sn);
    let q = (sn * 0x1_0000_0000_0000_0000) / sr;
    let rest = (sn * 0x1_0000_0000_0000_0000) % sr;
    let nq: nat = if rest != 0 {
        2 * q + 1
    } else {
        2 * q
    };
    assert(0x8000_0000_0000_0000 <= q < 0x1_0000_0000_0000_0000);
    lemma_quotient_known(big_n, crate::SCALE_U8, sn, 126, sr, 133, q, rest, 65, 0x1_0000_0000_0000_0000, 0x200_0000_0000);
    let x = div_spec(big_n, crate::SCALE_U8);
    let sx = nearest_even(nq, 0x200_0000_0000);
    assert(x == 118 * 0x80_0000 + sx);
    assert(0x80_0000 <= sx < 0x100_0000);
    assert(0 < x <= ONE);
    crate::binary32::lemma_less_by_rank(ONE, x);
    crate::binary32::lemma_less_by_rank(0, x);
    assert(unit_part(x) == x);
    let total = 0x80_0000 * 0x80_0000 + sx * sr;
    lemma_fused_known(x, crate::SCALE_U8, crate::gamma::HALF, sx, 118, sr, 133, 0x80_0000, 125, 0x80_0000, total, 48, 0x8000_0000_0000, 0x100_0000);
    let y = fused_spec(x, crate::SCALE_U8, crate::gamma::HALF);
    let sy = nearest_even(total, 0x100_0000);
    assert(y == 126 * 0x80_0000 + sy);
    assert(0x80_0000 <= sy < 0x100_0000);
    lemma_whole_known(y, sy, 126, 0x80_0000);
    assert(sy / 0x80_0000 == 0 + n);
}

/// The codes whose count from the first is 2 to 3.
#[verifier::rlimit(80)]
proof fn lemma_u8_2_to_3(n: nat)
    requires
        2 <= n <= 3,
    ensures
        quantise_spec(div_spec(number(n), number(255)), crate::SCALE_U8, crate::gamma::HALF) == 0 + n,
{
    lemma2_to64();
    lemma2_to64_rest();
    lemma_high_powers();
    let sr: nat = 0xff_0000;
    lemma_number_known(255, 8, 0x80, 0x1_0000);
    assert(number(255) == crate::SCALE_U8);
    lemma_number_known(n, 2, 0x2, 0x40_0000);
    let big_n = number(n);
    let sn = n * 0x40_0000;
    assert(big_n == 127 * 0x80_0000 + sn);
    let q = (sn * 0x1_0000_0000_0000_0000) / sr;
    let rest = (sn * 0x1_0000_0000_0000_0000) % sr;
    let nq: nat = if rest != 0 {
        2 * q + 1
    } else {
        2 * q
    };
    assert(0x8000_0000_0000_0000 <= q < 0x1_0000_0000_0000_0000);
    lemma_quotient_known(big_n, crate::SCALE_U8, sn, 127, sr, 133, q, rest, 65, 0x1_0000_0000_0000_0000, 0x200_0000_0000);
    let x = div_spec(big_n, crate::SCALE_U8);
    let sx = nearest_even(nq, 0x200_0000_0000);
    assert(x == 119 * 0x80_0000 + sx);
    assert(0x80_0000 <= sx < 0x100_0000);
    assert(0 < x <= ONE);
    crate::binary32::lemma_less_by_rank(ONE, x);
    crate::binary32::lemma_less_by_rank(0, x);
    assert(unit_part(x) == x);
    let total = 0x80_0000 * 0x40_0000 + sx * sr;
    lemma_fused_known(x, crate::SCALE_U8, crate::gamma::HALF, sx, 119, sr, 133, 0x80_0000, 125, 0x40_0000, total, 48, 0x8000_0000_0000, 0x100_0000);
    let y = fused_spec(x, crate::SCALE_U8, crate::gamma::HALF);
    let sy = nearest_even(total, 0x100_0000);
    assert(y == 127 * 0x80_0000 + sy);
    assert(0x80_0000 <= sy < 0x100_0000);
    lemma_whole_known(y, sy, 127, 0x40_0000);
    assert(sy / 0x40_0000 == 0 + n);
}

/// The codes whose count from the first is 4 to 7.
#[verifier::rlimit(80)]
proof fn lemma_u8_4_to_7(n: nat)
    requires
        4 <= n <= 7,
    ensures
        quantise_spec(div_spec(number(n), number(255)), crate::SCALE_U8, crate::gamma::HALF) == 0 + n,
{
    lemma2_to64();
    lemma2_to64_rest();
    lemma_high_powers();
    let sr: nat = 0xff_0000;
    lemma_number_known(255, 8, 0x80, 0x1_0000);
    assert(number(255) == crate::SCALE_U8);
    lemma_number_known(n, 3, 0x4, 0x20_0000);
    let big_n = number(n);
    let sn = n * 0x20_0000;
    assert(big_n == 128 * 0x80_0000 + sn);
    let q = (sn * 0x1_0000_0000_0000_0000) / sr;
    let rest = (sn * 0x1_0000_0000_0000_0000) % sr;
    let nq: nat = if rest != 0 {
        2 * q + 1
    } else {
        2 * q
    };
    assert(0x8000_0000_0000_0000 <= q < 0x1_0000_0000_0000_0000);
    lemma_quotient_known(big_n, crate::SCALE_U8, sn, 128, sr, 133, q, rest, 65, 0x1_0000_0000_0000_0000, 0x200_0000_0000);
    let x = div_spec(big_n, crate::SCALE_U8);
    let sx = nearest_even(nq, 0x200_0000_0000);
    assert(x == 120 * 0x80_0000 + sx);
    assert(0x80_0000 <= sx < 0x100_0000);
    assert(0 < x <= ONE);
    crate::binary32::lemma_less_by_rank(ONE, x);
    crate::binary32::lemma_less_by_rank(0, x);
    assert(unit_part(x) == x);
    let total = 0x80_0000 * 0x20_0000 + sx * sr;
    lemma_fused_known(x, crate::SCALE_U8, crate::gamma::HALF, sx, 120, sr, 133, 0x80_0000, 125, 0x20_0000, total, 48, 0x8000_0000_0000, 0x100_0000);
    let y = fused_spec(x, crate::SCALE_U8, crate::gamma::HALF);
    let sy = nearest_even(total, 0x100_0000);
    assert(y == 128 * 0x80_0000 + sy);
    assert(0x80_0000 <= sy < 0x100_0000);
    lemma_whole_known(y, sy, 128, 0x20_0000);
    assert(sy / 0x20_0000 == 0 + n);
}

/// The codes whose count from the first is 8 to 15.
#[verifier::rlimit(80)]
proof fn lemma_u8_8_to_15(n: nat)
    requires
        8 <= n <= 15,
    ensures
        quantise_spec(div_spec(number(n), number(255)), crate::SCALE_U8, crate::gamma::HALF) == 0 + n,
{
    lemma2_to64();
    lemma2_to64_rest();
    lemma_high_powers();
    let sr: nat = 0xff_0000;
    lemma_number_known(255, 8, 0x80, 0x1_0000);
    assert(number(255) == crate::SCALE_U8);
    lemma_number_known(n, 4, 0x8, 0x10_0000);
    let big_n = number(n);
    let sn = n * 0x10_0000;
    assert(big_n == 129 * 0x80_0000 + sn);
    let q = (sn * 0x1_0000_0000_0000_0000) / sr;
    let rest = (sn * 0x1_0000_0000_0000_0000) % sr;
    let nq: nat = if rest != 0 {
        2 * q + 1
    } else {
        2 * q
    };
    assert(0x8000_0000_0000_0000 <= q < 0x1_0000_0000_0000_0000);
    lemma_quotient_known(big_n, crate::SCALE_U8, sn, 129, sr, 133, q, rest, 65, 0x1_0000_0000_0000_0000, 0x200_0000_0000);
    let x = div_spec(big_n, crate::SCALE_U8);
    let sx = nearest_even(nq, 0x200_0000_0000);
    assert(x == 121 * 0x80_0000 + sx);
    assert(0x80_0000 <= sx < 0x100_0000);
    assert(0 < x <= ONE);
    crate::binary32::lemma_less_by_rank(ONE, x);
    crate::binary32::lemma_less_by_rank(0, x);
    assert(unit_part(x) == x);
    let total = 0x80_0000 * 0x10_0000 + sx * sr;
    lemma_fused_known(x, crate::SCALE_U8, crate::gamma::HALF, sx, 121, sr, 133, 0x80_0000, 125, 0x10_0000, total, 48, 0x8000_0000_0000, 0x100_0000);
    let y = fused_spec(x, crate::SCALE_U8, crate::gamma::HALF);
    let sy = nearest_even(total, 0x100_0000);
    assert(y == 129 * 0x80_0000 + sy);
    assert(0x80_0000 <= sy < 0x100_0000);
    lemma_whole_known(y, sy, 129, 0x10_0000);
    assert(sy / 0x10_0000 == 0 + n);
}

/// The codes whose count from the first is 16 to 31.
#[verifier::rlimit(80)]
proof fn lemma_u8_16_to_31(n: nat)
    requires
        16 <= n <= 31,
    ensures
        quantise_spec(div_spec(number(n), number(255)), crate::SCALE_U8, crate::gamma::HALF) == 0 + n,
{
    lemma2_to64();
    lemma2_to64_rest();
    lemma_high_powers();
    let sr: nat = 0xff_0000;
    lemma_number_known(255, 8, 0x80, 0x1_0000);
    assert(number(255) == crate::SCALE_U8);
    lemma_number_known(n, 5, 0x10, 0x8_0000);
    let big_n = number(n);
    let sn = n * 0x8_0000;
    assert(big_n == 130 * 0x80_0000 + sn);
    let q = (sn * 0x1_0000_0000_0000_0000) / sr;
    let rest = (sn * 0x1_0000_0000_0000_0000) % sr;
    let nq: nat = if rest != 0 {
        2 * q + 1
    } else {
        2 * q
    };
    assert(0x8000_0000_0000_0000 <= q < 0x1_0000_0000_0000_0000);
    lemma_quotient_known(big_n, crate::SCALE_U8, sn, 130, sr, 133, q, rest, 65, 0x1_0000_0000_0000_0000, 0x200_0000_0000);
    let x = div_spec(big_n, crate::SCALE_U8);
    let sx = nearest_even(nq, 0x200_0000_0000);
    assert(x == 122 * 0x80_0000 + sx);
    assert(0x80_0000 <= sx < 0x100_0000);
    assert(0 < x <= ONE);
    crate::binary32::lemma_less_by_rank(ONE, x);
    crate::binary32::lemma_less_by_rank(0, x);
    assert(unit_part(x) == x);
    let total = 0x80_0000 * 0x8_0000 + sx * sr;
    lemma_fused_known(x, crate::SCALE_U8, crate::gamma::HALF, sx, 122, sr, 133, 0x80_0000, 125, 0x8_0000, total, 48, 0x8000_0000_0000, 0x100_0000);
    let y = fused_spec(x, crate::SCALE_U8, crate::gamma::HALF);
    let sy = nearest_even(total, 0x100_0000);
    assert(y == 130 * 0x80_0000 + sy);
    assert(0x80_0000 <= sy < 0x100_0000);
    lemma_whole_known(y, sy, 130, 0x8_0000);
    assert(sy / 0x8_0000 == 0 + n);
}

/// The codes whose count from the first is 32 to 63.
#[verifier::rlimit(80)]
proof fn lemma_u8_32_to_63(n: nat)
    requires
        32 <= n <= 63,
    ensures
        quantise_spec(div_spec(number(n), number(255)), crate::SCALE_U8, crate::gamma::HALF) == 0 + n,
{
    lemma2_to64();
    lemma2_to64_rest();
    lemma_high_powers();
    let sr: nat = 0xff_0000;
    lemma_number_known(255, 8, 0x80, 0x1_0000);
    assert(number(255) == crate::SCALE_U8);
    lemma_number_known(n, 6, 0x20, 0x4_0000);
    let big_n = number(n);
    let sn = n * 0x4_0000;
    assert(big_n == 131 * 0x80_0000 + sn);
    let q = (sn * 0x1_0000_0000_0000_0000) / sr;
    let rest = (sn * 0x1_0000_0000_0000_0000) % sr;
    let nq: nat = if rest != 0 {
        2 * q + 1
    } else {
        2 * q
    };
    assert(0x8000_0000_0000_0000 <= q < 0x1_0000_0000_0000_0000);
    lemma_quotient_known(big_n, crate::SCALE_U8, sn, 131, sr, 133, q, rest, 65, 0x1_0000_0000_0000_0000, 0x200_0000_0000);
    let x = div_spec(big_n, crate::SCALE_U8);
    let sx = nearest_even(nq, 0x200_0000_0000);
    assert(x == 123 * 0x80_0000 + sx);
    assert(0x80_0000 <= sx < 0x100_0000);
    assert(0 < x <= ONE);
    crate::binary32::lemma_less_by_rank(ONE, x);
    crate::binary32::lemma_less_by_rank(0, x);
    assert(unit_part(x) == x);
    let total = 0x80_0000 * 0x4_0000 + sx * sr;
    lemma_fused_known(x, crate::SCALE_U8, crate::gamma::HALF, sx, 123, sr, 133, 0x80_0000, 125, 0x4_0000, total, 48, 0x8000_0000_0000, 0x100_0000);
    let y = fused_spec(x, crate::SCALE_U8, crate::gamma::HALF);
    let sy = nearest_even(total, 0x100_0000);
    assert(y == 131 * 0x80_0000 + sy);
    assert(0x80_0000 <= sy < 0x100_0000);
    lemma_whole_known(y, sy, 131, 0x4_0000);
    assert(sy / 0x4_0000 == 0 + n);
}

/// The codes whose count from the first is 64 to 127.
#[verifier::rlimit(80)]
proof fn lemma_u8_64_to_127(n: nat)
    requires
        64 <= n <= 127,
    ensures
        quantise_spec(div_spec(number(n), number(255)), crate::SCALE_U8, crate::gamma::HALF) == 0 + n,
{
    lemma2_to64();
    lemma2_to64_rest();
    lemma_high_powers();
    let sr: nat = 0xff_0000;
    lemma_number_known(255, 8, 0x80, 0x1_0000);
    assert(number(255) == crate::SCALE_U8);
    lemma_number_known(n, 7, 0x40, 0x2_0000);
    let big_n = number(n);
    let sn = n * 0x2_0000;
    assert(big_n == 132 * 0x80_0000 + sn);
    let q = (sn * 0x1_0000_0000_0000_0000) / sr;
    let rest = (sn * 0x1_0000_0000_0000_0000) % sr;
    let nq: nat = if rest != 0 {
        2 * q + 1
    } else {
        2 * q
    };
    assert(0x8000_0000_0000_0000 <= q < 0x1_0000_0000_0000_0000);
    lemma_quotient_known(big_n, crate::SCALE_U8, sn, 132, sr, 133, q, rest, 65, 0x1_0000_0000_0000_0000, 0x200_0000_0000);
    let x = div_spec(big_n, crate::SCALE_U8);
    let sx = nearest_even(nq, 0x200_0000_0000);
    assert(x == 124 * 0x80_0000 + sx);
    assert(0x80_0000 <= sx < 0x100_0000);
    assert(0 < x <= ONE);
    crate::binary32::lemma_less_by_rank(ONE, x);
    crate::binary32::lemma_less_by_rank(0, x);
    assert(unit_part(x) == x);
    let total = 0x80_0000 * 0x2_0000 + sx * sr;
    lemma_fused_known(x, crate::SCALE_U8, crate::gamma::HALF, sx, 124, sr, 133, 0x80_0000, 125, 0x2_0000, total, 48, 0x8000_0000_0000, 0x100_0000);
    let y = fused_spec(x, crate::SCALE_U8, crate::gamma::HALF);
    let sy = nearest_even(total, 0x100_0000);
    assert(y == 132 * 0x80_0000 + sy);
    assert(0x80_0000 <= sy < 0x100_0000);
    lemma_whole_known(y, sy, 132, 0x2_0000);
    assert(sy / 0x2_0000 == 0 + n);
}

/// The codes whose count from the first is 128 to 254.
#[verifier::rlimit(80)]
proof fn lemma_u8_128_to_254(n: nat)
    requires
        128 <= n <= 254,
    ensures
        quantise_spec(div_spec(number(n), number(255)), crate::SCALE_U8, crate::gamma::HALF) == 0 + n,
{
    lemma2_to64();
    lemma2_to64_rest();
    lemma_high_powers();
    let sr: nat = 0xff_0000;
    lemma_number_known(255, 8, 0x80, 0x1_0000);
    assert(number(255) == crate::SCALE_U8);
    lemma_number_known(n, 8, 0x80, 0x1_0000);
    let big_n = number(n);
    let sn = n * 0x1_0000;
    assert(big_n == 133 * 0x80_0000 + sn);
    let q = (sn * 0x1_0000_0000_0000_0000) / sr;
    let rest = (sn * 0x1_0000_0000_0000_0000) % sr;
    let nq: nat = if rest != 0 {
        2 * q + 1
    } else {
        2 * q
    };
    assert(0x8000_0000_0000_0000 <= q < 0x1_0000_0000_0000_0000);
    lemma_quotient_known(big_n, crate::SCALE_U8, sn, 133, sr, 133, q, rest, 65, 0x1_0000_0000_0000_0000, 0x200_0000_0000);
    let x = div_spec(big_n, crate::SCALE_U8);
    let sx = nearest_even(nq, 0x200_0000_0000);
    assert(x == 125 * 0x80_0000 + sx);
    assert(0x80_0000 <= sx < 0x100_0000);
    assert(0 < x <= ONE);
    crate::binary32::lemma_less_by_rank(ONE, x);
    crate::binary32::lemma_less_by_rank(0, x);
    assert(unit_part(x) == x);
    let total = 0x80_0000 * 0x1_0000 + sx * sr;
    lemma_fused_known(x, crate::SCALE_U8, crate::gamma::HALF, sx, 125, sr, 133, 0x80_0000, 125, 0x1_0000, total, 48, 0x8000_0000_0000, 0x100_0000);
    let y = fused_spec(x, crate::SCALE_U8, crate::gamma::HALF);
    let sy = nearest_even(total, 0x100_0000);
    assert(y == 133 * 0x80_0000 + sy);
    assert(0x80_0000 <= sy < 0x100_0000);
    lemma_whole_known(y, sy, 133, 0x1_0000);
    assert(sy / 0x1_0000 == 0 + n);
}

/// The codes whose count from the first is 255 to 255.
#[verifier::rlimit(80)]
proof fn lemma_u8_255_to_255(n: nat)
    requires
        255 <= n <= 255,
    ensures
        quantise_spec(div_spec(number(n), number(255)), crate::SCALE_U8, crate::gamma::HALF) == 0 + n,
{
    lemma2_to64();
    lemma2_to64_rest();
    lemma_high_powers();
    let sr: nat = 0xff_0000;
    lemma_number_known(255, 8, 0x80, 0x1_0000);
    assert(number(255) == crate::SCALE_U8);
    lemma_number_known(n, 8, 0x80, 0x1_0000);
    let big_n = number(n);
    let sn = n * 0x1_0000;
    assert(big_n == 133 * 0x80_0000 + sn);
    let q = (sn * 0x1_0000_0000_0000_0000) / sr;
    let rest = (sn * 0x1_0000_0000_0000_0000) % sr;
    let nq: nat = if rest != 0 {
        2 * q + 1
    } else {
        2 * q
    };
    assert(0x1_0000_0000_0000_0000 <= q < 0x2_0000_0000_0000_0000);
    lemma_quotient_known(big_n, crate::SCALE_U8, sn, 133, sr, 133, q, rest, 66, 0x2_0000_0000_0000_0000, 0x400_0000_0000);
    let x = div_spec(big_n, crate::SCALE_U8);
    let sx = nearest_even(nq, 0x400_0000_0000);
    assert(x == 126 * 0x80_0000 + sx);
    assert(0x80_0000 <= sx < 0x100_0000);
    assert(0 < x <= ONE);
    crate::binary32::lemma_less_by_rank(ONE, x);
    crate::binary32::lemma_less_by_rank(0, x);
    assert(unit_part(x) == x);
    let total = 0x80_0000 * 0x8000 + sx * sr;
    lemma_fused_known(x, crate::SCALE_U8, crate::gamma::HALF, sx, 126, sr, 133, 0x80_0000, 125, 0x8000, total, 47, 0x4000_0000_0000, 0x80_0000);
    let y = fused_spec(x, crate::SCALE_U8, crate::gamma::HALF);
    let sy = nearest_even(total, 0x80_0000);
    assert(y == 133 * 0x80_0000 + sy);
    assert(0x80_0000 <= sy < 0x100_0000);
    lemma_whole_known(y, sy, 133, 0x1_0000);
    assert(sy / 0x1_0000 == 0 + n);
}

/// An 8-bit code survives normalisation: the code of `v / 255` is `v`.
pub proof fn lemma_u8_survives_normalisation(v: u8)
    ensures
        capped(quantise_spec(div_spec(number(v as nat), number(255)), crate::SCALE_U8, crate::gamma::HALF), 255) == v,
{
    let n = v as nat;
    lemma2_to64();
    lemma_number_known(255, 8, 0x80, 0x1_0000);
    if n == 0 {
        crate::order::lemma_round_zero(149);
        lemma_zero_has_first_code(crate::SCALE_U8, crate::SCALE_U8, crate::gamma::HALF, 0x80_0000, 125, 0, 0x100_0000);
    } else {
        if n <= 1 {
            lemma_u8_1_to_1(n);
        } else if n <= 3 {
            lemma_u8_2_to_3(n);
        } else if n <= 7 {
            lemma_u8_4_to_7(n);
        } else if n <= 15 {
            lemma_u8_8_to_15(n);
        } else if n <= 31 {
            lemma_u8_16_to_31(n);
        } else if n <= 63 {
            lemma_u8_32_to_63(n);
        } else if n <= 127 {
            lemma_u8_64_to_127(n);
        } else if n <= 254 {
            lemma_u8_128_to_254(n);
        } else if n <= 255 {
            lemma_u8_255_to_255(n);
        }
    }
}

/// A 8-bit Rec.709 code is never outside of its range: the code of a value is from 16 to
/// 235, it is 16 for what is not above zero, a NaN among it, and 235 for
/// what is not below one.
pub proof fn lemma_rec709_8bit_codes_stay_in_range(v: u32)
    ensures
        16 <= quantise_spec(v, crate::rec709::RANGE_8BIT, crate::rec709::BIAS_8BIT) <= 235,
        !less(0, v) ==> quantise_spec(v, crate::rec709::RANGE_8BIT, crate::rec709::BIAS_8BIT) == 16,
        !is_nan(v) && !less(v, ONE) ==> quantise_spec(v, crate::rec709::RANGE_8BIT, crate::rec709::BIAS_8BIT) == 235,
{
    lemma2_to64();
    lemma2_to64_rest();
    crate::arith::lemma_fused_of_zero(0, crate::rec709::RANGE_8BIT, crate::rec709::BIAS_8BIT);
    lemma_whole_known(crate::rec709::BIAS_8BIT, 0x84_0000, 130, 0x8_0000);
    crate::binary32::lemma_less_by_rank(ONE, 0);
    crate::binary32::lemma_less_by_rank(0, 0);
    crate::binary32::lemma_less_by_rank(ONE, ONE);
    crate::binary32::lemma_less_by_rank(0, ONE);
    assert(unit_part(0) == 0);
    assert(unit_part(ONE) == ONE);
    assert(quantise_spec(0, crate::rec709::RANGE_8BIT, crate::rec709::BIAS_8BIT) == 16);
    lemma_fused_known(0x3f80_0000, 0x435b_0000, 0x4184_0000, 0x80_0000, 126, 0xdb_0000, 133, 0x84_0000, 130, 0x10_0000, 0x75c0_0000_0000, 47, 0x4000_0000_0000, 0x80_0000);
    assert(fused_spec(ONE, crate::rec709::RANGE_8BIT, crate::rec709::BIAS_8BIT) == 0x436b_8000);
    lemma_whole_known(0x436b_8000, 0xeb_8000, 133, 0x1_0000);
    assert(quantise_spec(ONE, crate::rec709::RANGE_8BIT, crate::rec709::BIAS_8BIT) == 235);
    lemma_code_between(v, crate::rec709::RANGE_8BIT, crate::rec709::BIAS_8BIT);
}

/// A 10-bit Rec.709 code is never outside of its range: the code of a value is from 64 to
/// 940, it is 64 for what is not above zero, a NaN among it, and 940 for
/// what is not below one.
pub proof fn lemma_rec709_10bit_codes_stay_in_range(v: u32)
    ensures
        64 <= quantise_spec(v, crate::rec709::RANGE_10BIT, crate::rec709::BIAS_10BIT) <= 940,
        !less(0, v) ==> quantise_spec(v, crate::rec709::RANGE_10BIT, crate::rec709::BIAS_10BIT) == 64,
        !is_nan(v) && !less(v, ONE) ==> quantise_spec(v, crate::rec709::RANGE_10BIT, crate::rec709::BIAS_10BIT) == 940,
{
    lemma2_to64();
    lemma2_to64_rest();
    crate::arith::lemma_fused_of_zero(0, crate::rec709::RANGE_10BIT, crate::rec709::BIAS_10BIT);
    lemma_whole_known(crate::rec709::BIAS_10BIT, 0x81_0000, 132, 0x2_0000);
    crate::binary32::lemma_less_by_rank(ONE, 0);
    crate::binary32::lemma_less_by_rank(0, 0);
    crate::binary32::lemma_less_by_rank(ONE, ONE);
    crate::binary32::lemma_less_by_rank(0, ONE);
    assert(unit_part(0) == 0);
    assert(unit_part(ONE) == ONE);
    assert(quantise_spec(0, crate::rec709::RANGE_10BIT, crate::rec709::BIAS_10BIT) == 64);
    lemma_fused_known(0x3f80_0000, 0x445b_0000, 0x4281_0000, 0x80_0000, 126, 0xdb_0000, 135, 0x81_0000, 132, 0x10_0000, 0x7590_0000_0000, 47, 0x4000_0000_0000, 0x80_0000);
    assert(fused_spec(ONE, crate::rec709::RANGE_10BIT, crate::rec709::BIAS_10BIT) == 0x446b_2000);
    lemma_whole_known(0x446b_2000, 0xeb_2000, 135, 0x4000);
    assert(quantise_spec(ONE, crate::rec709::RANGE_10BIT, crate::rec709::BIAS_10BIT) == 940);
    lemma_code_between(v, crate::rec709::RANGE_10BIT, crate::rec709::BIAS_10BIT);
}

/// An 8-bit sRGB code is never outside of its range: the code of a value is from 0 to
/// 255, it is 0 for what is not above zero, a NaN among it, and 255 for
/// what is not below one.
pub proof fn lemma_u8_codes_stay_in_range(v: u32)
    ensures
        0 <= quantise_spec(v, crate::SCALE_U8, crate::gamma::HALF) <= 255,
        !less(0, v) ==> quantise_spec(v, crate::SCALE_U8, crate::gamma::HALF) == 0,
        !is_nan(v) && !less(v, ONE) ==> quantise_spec(v, crate::SCALE_U8, crate::gamma::HALF) == 255,
{
    lemma2_to64();
    lemma2_to64_rest();
    crate::arith::lemma_fused_of_zero(0, crate::SCALE_U8, crate::gamma::HALF);
    lemma_whole_known(crate::gamma::HALF, 0x80_0000, 125, 0x100_0000);
    crate::binary32::lemma_less_by_rank(ONE, 0);
    crate::binary32::lemma_less_by_rank(0, 0);
    crate::binary32::lemma_less_by_rank(ONE, ONE);
    crate::binary32::lemma_less_by_rank(0, ONE);
    assert(unit_part(0) == 0);
    assert(unit_part(ONE) == ONE);
    assert(quantise_spec(0, crate::SCALE_U8, crate::gamma::HALF) == 0);
    lemma_fused_known(0x3f80_0000, 0x437f_0000, 0x3f00_0000, 0x80_0000, 126, 0xff_0000, 133, 0x80_0000, 125, 0x8000, 0x7fc0_0000_0000, 47, 0x4000_0000_0000, 0x80_0000);
    assert(fused_spec(ONE, crate::SCALE_U8, crate::gamma::HALF) == 0x437f_8000);
    lemma_whole_known(0x437f_8000, 0xff_8000, 133, 0x1_0000);
    assert(quantise_spec(ONE, crate::SCALE_U8, crate::gamma::HALF) == 255);
    lemma_code_between(v, crate::SCALE_U8, crate::gamma::HALF);
}

} // verus!
