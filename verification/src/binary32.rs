//! The binary32 format read as integers.
//!
//! A pattern is a sign and a 31-bit magnitude.  A magnitude below
//! [`INFINITE`] is finite and stands for `significand * 2^binade` in units of
//! `2^-149`; the magnitude `INFINITE` is infinity and every larger one is a
//! NaN.  Magnitudes order finite numbers and infinity as their values do.

use vstd::prelude::*;
use vstd::arithmetic::power2::{pow2, lemma_pow2_pos, lemma_pow2_adds, lemma_pow2_strictly_increases, lemma2_to64};
use crate::rounding::INFINITE;

verus! {

/// The least pattern with the sign set: negative zero.
pub const SIGN: u32 = 0x8000_0000;

/// The NaN that the arithmetic of this crate produces.
pub const NAN: u32 = 0x7fc0_0000;

/// The pattern of 1.
pub const ONE: u32 = 0x3f80_0000;

/// The pattern without its sign.
pub open spec fn magnitude(b: u32) -> nat {
    if b >= 0x8000_0000 {
        (b - 0x8000_0000) as nat
    } else {
        b as nat
    }
}

/// Whether the sign is set, as it is for negative zero too.
pub open spec fn is_negative(b: u32) -> bool {
    b >= 0x8000_0000
}

/// Whether the pattern is no number.
pub open spec fn is_nan(b: u32) -> bool {
    magnitude(b) > 0x7f80_0000
}

/// Positive or negative infinity.
pub open spec fn is_infinite(b: u32) -> bool {
    magnitude(b) == 0x7f80_0000
}

/// A zero, a subnormal or a normal number.
pub open spec fn is_finite(b: u32) -> bool {
    magnitude(b) < 0x7f80_0000
}

/// Positive or negative zero.
pub open spec fn is_zero(b: u32) -> bool {
    magnitude(b) == 0
}

/// The pattern with sign `negative` and magnitude `m`.
pub open spec fn pattern(negative: bool, m: nat) -> u32 {
    if negative {
        (m + 0x8000_0000) as u32
    } else {
        m as u32
    }
}

/// Exponent of the last place of magnitude `m`, in units of `2^-149`:
/// 0 for the subnormal numbers and the first binade of normal ones.
pub open spec fn binade(m: nat) -> nat {
    if m < 0x100_0000 {
        0
    } else {
        (m / 0x80_0000 - 1) as nat
    }
}

/// Significand of magnitude `m`, with the leading bit of a normal number
/// made explicit: below `2^24`, and at least `2^23` from the second binade on.
pub open spec fn significand(m: nat) -> nat {
    (m - binade(m) * 0x80_0000) as nat
}

/// The magnitude as a count of units of `2^-149`.
pub open spec fn scaled(m: nat) -> nat {
    significand(m) * pow2(binade(m))
}

/// The value of a pattern that is no NaN, in units of `2^-149`; infinity
/// counts as `2^277`, above every finite value.
pub open spec fn value(b: u32) -> int {
    if is_negative(b) {
        -(scaled(magnitude(b)) as int)
    } else {
        scaled(magnitude(b)) as int
    }
}

/// The magnitude of `b`.
pub fn magnitude_of(b: u32) -> (m: u32)
    ensures
        m == magnitude(b),
        m < 0x8000_0000,
{
    if b >= SIGN {
        b - SIGN
    } else {
        b
    }
}

/// The pattern with sign `negative` and magnitude `m`.
pub fn with_sign(negative: bool, m: u32) -> (b: u32)
    requires
        m < 0x8000_0000,
    ensures
        b == pattern(negative, m as nat),
        magnitude(b) == m,
        is_negative(b) == negative,
{
    if negative {
        m + SIGN
    } else {
        m
    }
}

/// Splits a magnitude into significand and binade.
pub fn unpack(m: u32) -> (r: (u32, u32))
    requires
        m < 0x8000_0000,
    ensures
        r.0 == significand(m as nat),
        r.1 == binade(m as nat),
        r.0 < 0x100_0000,
        r.1 <= 254,
        r.1 > 0 ==> r.0 >= 0x80_0000,
        m == r.1 * 0x80_0000 + r.0,
{
    if m < 0x100_0000 {
        (m, 0)
    } else {
        let t: u32 = m / 0x80_0000 - 1;
        (m - t * 0x80_0000, t)
    }
}

/// The pattern with the opposite sign.
pub fn negate(b: u32) -> (r: u32)
    ensures
        magnitude(r) == magnitude(b),
        is_negative(r) != is_negative(b),
{
    if b >= SIGN {
        b - SIGN
    } else {
        b + SIGN
    }
}

/// Proof that magnitudes are ordered as the values they stand for.
pub proof fn lemma_scaled_increases(m1: nat, m2: nat)
    requires
        m1 < m2,
    ensures
        scaled(m1) < scaled(m2),
{
    let t1 = binade(m1);
    let t2 = binade(m2);
    let s1 = significand(m1);
    let s2 = significand(m2);
    lemma_pow2_pos(t1);
    if t1 == t2 {
        assert(s1 * pow2(t1) < s2 * pow2(t1)) by (nonlinear_arith)
            requires
                s1 < s2,
                pow2(t1) > 0,
        ;
    } else {
        assert(t1 < t2);
        assert(s1 < 0x100_0000 && s2 >= 0x80_0000);
        lemma_pow2_adds(1, t1);
        lemma2_to64();
        if t1 + 1 < t2 {
            lemma_pow2_strictly_increases(t1 + 1, t2);
        }
        assert(s1 * pow2(t1) < s2 * pow2(t2)) by (nonlinear_arith)
            requires
                s1 < 0x100_0000,
                s2 >= 0x80_0000,
                pow2(t1) > 0,
                2 * pow2(t1) <= pow2(t2),
        ;
    }
}

/// `a < b` as numbers: false where either is a NaN, and the two zeros equal.
pub open spec fn less(a: u32, b: u32) -> bool {
    !is_nan(a) && !is_nan(b) && value(a) < value(b)
}

/// The signed magnitude: patterns that are no NaN are ordered by it as
/// their values are.
pub open spec fn rank_of(b: u32) -> int {
    if is_negative(b) {
        -(magnitude(b) as int)
    } else {
        magnitude(b) as int
    }
}

/// Proof that two patterns that are no NaN compare as their signed
/// magnitudes do.
pub proof fn lemma_less_by_rank(b: u32, c: u32)
    requires
        !is_nan(b),
        !is_nan(c),
    ensures
        less(b, c) <==> rank_of(b) < rank_of(c),
{
    let mb = magnitude(b);
    let mc = magnitude(c);
    if mb < mc {
        lemma_scaled_increases(mb, mc);
    }
    if mc < mb {
        lemma_scaled_increases(mc, mb);
    }
    if mb > 0 {
        lemma_scaled_increases(0, mb);
    }
    if mc > 0 {
        lemma_scaled_increases(0, mc);
    }
    assert(scaled(0) == 0) by (nonlinear_arith)
        requires
            scaled(0) == 0 * pow2(0),
    ;
}

/// The place of a pattern that is no NaN in the order of the numbers.
fn rank(b: u32) -> (k: i64)
    requires
        !is_nan(b),
    ensures
        k == rank_of(b),
{
    if b >= SIGN {
        -((b - SIGN) as i64)
    } else {
        b as i64
    }
}

/// Whether `a < b`.
pub fn lt(a: u32, b: u32) -> (r: bool)
    ensures
        r == less(a, b),
{
    if magnitude_of(a) > INFINITE || magnitude_of(b) > INFINITE {
        false
    } else {
        proof {
            lemma_less_by_rank(a, b);
        }
        rank(a) < rank(b)
    }
}

/// Whether `a > b`.
pub fn gt(a: u32, b: u32) -> (r: bool)
    ensures
        r == less(b, a),
{
    lt(b, a)
}

/// The smaller of two numbers; the other one where one is a NaN, and the
/// first where they are equal.
pub open spec fn min_spec(a: u32, b: u32) -> u32 {
    if is_nan(a) {
        b
    } else if is_nan(b) {
        a
    } else if less(b, a) {
        b
    } else {
        a
    }
}

/// `v` where it is above zero, and zero otherwise: for a negative number,
/// for either zero and for a NaN.
pub open spec fn positive_part(v: u32) -> u32 {
    if less(0, v) {
        v
    } else {
        0
    }
}

/// `v` where it is above zero, and zero otherwise.
pub fn positive(v: u32) -> (r: u32)
    ensures
        r == positive_part(v),
        is_finite(r) || is_infinite(r),
        !is_negative(r),
{
    if lt(0, v) {
        proof {
            lemma_less_by_rank(0, v);
        }
        v
    } else {
        0
    }
}

/// The smaller of two numbers.
pub fn min(a: u32, b: u32) -> (r: u32)
    ensures
        r == min_spec(a, b),
{
    if magnitude_of(a) > INFINITE {
        b
    } else if magnitude_of(b) > INFINITE {
        a
    } else if lt(b, a) {
        b
    } else {
        a
    }
}

/// The whole part of a number that is not negative; 0 for a negative
/// number and for a NaN.
pub open spec fn whole_part(b: u32) -> nat {
    if is_nan(b) || is_negative(b) {
        0
    } else {
        scaled(magnitude(b)) / pow2(149)
    }
}

/// `x`, and `limit` where `x` is larger.
pub open spec fn capped(x: nat, limit: nat) -> nat {
    if x > limit {
        limit
    } else {
        x
    }
}

/// The pattern of the binary32 number nearest to the integer `n`: of `n`
/// itself where `n < 2^24`.
pub open spec fn number(n: nat) -> u32 {
    crate::rounding::round_dyadic(n, 149) as u32
}

/// The whole part of `b`, and `limit` where that is larger: the conversion
/// of a number to an unsigned integer type whose largest value is `limit`.
pub fn truncate(b: u32, limit: u32) -> (r: u32)
    requires
        limit < 0x80_0000,
    ensures
        r == capped(whole_part(b), limit as nat),
{
    let m = magnitude_of(b);
    if m > INFINITE || b >= SIGN {
        return 0;
    }
    let (sig, t) = unpack(m);
    proof {
        lemma2_to64();
        lemma_pow2_pos(t as nat);
        if t >= 149 {
            lemma_pow2_adds(149, (t - 149) as nat);
            lemma_pow2_pos((t - 149) as nat);
            lemma_pow2_pos(149);
            let p = pow2(149) as int;
            let k = (sig * pow2((t - 149) as nat)) as int;
            assert(k >= sig) by (nonlinear_arith)
                requires
                    k == sig * pow2((t - 149) as nat),
                    pow2((t - 149) as nat) >= 1,
            ;
            assert(scaled(m as nat) == k * p) by (nonlinear_arith)
                requires
                    scaled(m as nat) == sig * pow2(t as nat),
                    pow2(t as nat) == p * pow2((t - 149) as nat),
                    k == sig * pow2((t - 149) as nat),
            ;
            vstd::arithmetic::div_mod::lemma_div_multiples_vanish(k, p);
        } else {
            let shift = (149 - t) as nat;
            lemma_pow2_adds(t as nat, shift);
            lemma_pow2_pos(shift);
            vstd::arithmetic::div_mod::lemma_div_multiples_vanish_quotient(
                pow2(t as nat) as int,
                sig as int,
                pow2(shift) as int,
            );
            assert(sig * pow2(t as nat) == pow2(t as nat) * sig) by (nonlinear_arith);
            if shift >= 24 {
                if shift > 24 {
                    lemma_pow2_strictly_increases(24, shift);
                }
                vstd::arithmetic::div_mod::lemma_basic_div(sig as int, pow2(shift) as int);
            } else {
                vstd::bits::lemma_u32_shr_is_div(sig, shift as u32);
            }
        }
    }
    if t >= 149 {
        limit
    } else if 149 - t >= 24 {
        0
    } else {
        let whole: u32 = sig >> (149 - t);
        if whole > limit {
            limit
        } else {
            whole
        }
    }
}

/// The conversion to an 8-bit code: the whole part, at most 255.
pub fn to_u8(b: u32) -> (r: u8)
    ensures
        r == capped(whole_part(b), 255),
{
    truncate(b, 255) as u8
}

/// The conversion to a 16-bit code: the whole part, at most 65535.
pub fn to_u16(b: u32) -> (r: u16)
    ensures
        r == capped(whole_part(b), 65535),
{
    truncate(b, 65535) as u16
}

/// The pattern of the number nearest to the integer `n`; of `n` itself
/// where `n < 2^24`.
pub fn from_u32(n: u32) -> (b: u32)
    ensures
        b == number(n as nat),
        n < 0x100_0000 ==> is_finite(b) && !is_negative(b) && scaled(b as nat) == n * pow2(149),
{
    let b = crate::rounding::round_pack(n as u128, 149);
    proof {
        if n < 0x100_0000 {
            crate::rounding::lemma_exact(n as nat, 149);
        }
    }
    b
}

} // verus!
