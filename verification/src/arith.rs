//! Correctly rounded arithmetic on binary32 patterns.
//!
//! Each operation states its result as the exact result of the operation on
//! the values of its arguments, rounded once to the nearest binary32 number,
//! ties to even.  An operation that has a NaN among its arguments, or no
//! defined result, gives [`NAN`].

use vstd::prelude::*;
use vstd::arithmetic::power2::{pow2, lemma_pow2_pos, lemma_pow2_adds, lemma_pow2_strictly_increases, lemma2_to64};
use crate::binary32::{ONE, less, whole_part, positive_part, lemma_less_by_rank, SIGN, NAN, magnitude, is_negative, is_nan, is_infinite, is_finite, is_zero, pattern, binade, significand, magnitude_of, with_sign, unpack, negate};
use crate::rounding::{INFINITE, round_dyadic, round_pack, round_pack_u64};

verus! {

/// The product of two patterns: the exact product of their values, rounded.
pub open spec fn mul_spec(a: u32, b: u32) -> u32 {
    let negative = is_negative(a) != is_negative(b);
    let ma = magnitude(a);
    let mb = magnitude(b);
    if is_nan(a) || is_nan(b) {
        NAN
    } else if is_infinite(a) || is_infinite(b) {
        if is_zero(a) || is_zero(b) {
            NAN
        } else {
            pattern(negative, 0x7f80_0000)
        }
    } else {
        pattern(
            negative,
            round_dyadic(significand(ma) * significand(mb), binade(ma) + binade(mb) - 149),
        )
    }
}

/// Multiplies two binary32 numbers.
pub fn mul(a: u32, b: u32) -> (r: u32)
    ensures
        r == mul_spec(a, b),
{
    let negative = (a >= SIGN) != (b >= SIGN);
    let ma = magnitude_of(a);
    let mb = magnitude_of(b);
    if ma > INFINITE || mb > INFINITE {
        NAN
    } else if ma == INFINITE || mb == INFINITE {
        if ma == 0 || mb == 0 {
            NAN
        } else {
            with_sign(negative, INFINITE)
        }
    } else {
        let (sa, ta) = unpack(ma);
        let (sb, tb) = unpack(mb);
        assert(sa * sb < 0x1_0000_0000_0000) by (nonlinear_arith)
            requires
                sa < 0x100_0000,
                sb < 0x100_0000,
        ;
        let n: u64 = (sa as u64) * (sb as u64);
        let e: i32 = (ta as i32) + (tb as i32) - 149;
        with_sign(negative, round_pack_u64(n, e))
    }
}

/// The significand of a finite pattern in units of `2^lo`, with its sign.
pub open spec fn aligned(b: u32, lo: nat) -> int {
    let m = magnitude(b);
    let x = (significand(m) * pow2((binade(m) - lo) as nat)) as int;
    if is_negative(b) {
        -x
    } else {
        x
    }
}

/// The sum of two patterns: the exact sum of their values, rounded.  An
/// exact zero is negative only where both terms are.
pub open spec fn add_spec(a: u32, b: u32) -> u32 {
    let ma = magnitude(a);
    let mb = magnitude(b);
    if is_nan(a) || is_nan(b) {
        NAN
    } else if is_infinite(a) {
        if is_infinite(b) && is_negative(a) != is_negative(b) {
            NAN
        } else {
            a
        }
    } else if is_infinite(b) {
        b
    } else {
        let lo = if binade(ma) <= binade(mb) {
            binade(ma)
        } else {
            binade(mb)
        };
        let x = aligned(a, lo) + aligned(b, lo);
        if x == 0 {
            if is_negative(a) && is_negative(b) {
                SIGN
            } else {
                0
            }
        } else if x < 0 {
            pattern(true, round_dyadic((-x) as nat, lo as int))
        } else {
            pattern(false, round_dyadic(x as nat, lo as int))
        }
    }
}

/// Proof that a finite term is absorbed by one whose binade is at least 26
/// higher: the sum is the larger term.
pub proof fn lemma_add_absorbs(a: u32, b: u32)
    requires
        is_finite(a),
        is_finite(b),
        binade(magnitude(a)) >= binade(magnitude(b)) + 26,
    ensures
        add_spec(a, b) == a,
        add_spec(b, a) == a,
{
    let ma = magnitude(a);
    let mb = magnitude(b);
    let sa = significand(ma);
    let sb = significand(mb);
    let lo = binade(mb);
    let d = (binade(ma) - lo) as nat;
    lemma2_to64();
    if d > 26 {
        lemma_pow2_strictly_increases(26, d);
    }
    crate::rounding::lemma_absorbed(sa, sb, d, lo as int, is_negative(a) != is_negative(b));
    assert(sb * pow2(0) == sb) by (nonlinear_arith)
        requires
            pow2(0) == 1,
    ;
    let x = aligned(a, lo) + aligned(b, lo);
    let y = aligned(b, lo) + aligned(a, lo);
    assert(x == y);
    assert(aligned(b, lo) == if is_negative(b) { -(sb as int) } else { sb as int });
    assert(aligned(a, lo) == if is_negative(a) { -((sa * pow2(d)) as int) } else { (sa * pow2(d)) as int });
}

/// Proof that a significand moved up by at most 38 places keeps below `2^62`.
proof fn lemma_aligned_bound(sig: nat, k: nat)
    requires
        sig < 0x100_0000,
        k <= 38,
    ensures
        sig * pow2(k) < 0x4000_0000_0000_0000,
        pow2(k) < 0x1_0000_0000_0000_0000,
{
    lemma2_to64();
    vstd::arithmetic::power2::lemma2_to64_rest();
    crate::rounding::lemma_scale_below(sig, 24, k);
    if k < 38 {
        lemma_pow2_strictly_increases(24 + k, 62);
    }
    lemma_pow2_strictly_increases(k, 64);
}

/// Adds two finite binary32 numbers whose binades are less than 39 apart:
/// the sum of the aligned significands is exact in 64 bits.
fn add_near(a: u32, b: u32) -> (r: u32)
    requires
        is_finite(a),
        is_finite(b),
        binade(magnitude(a)) < binade(magnitude(b)) + 39,
        binade(magnitude(b)) < binade(magnitude(a)) + 39,
    ensures
        r == add_spec(a, b),
{
    let na = a >= SIGN;
    let nb = b >= SIGN;
    let (sa, ta) = unpack(magnitude_of(a));
    let (sb, tb) = unpack(magnitude_of(b));
    let lo: u32 = if ta <= tb {
        ta
    } else {
        tb
    };
    proof {
        lemma_aligned_bound(sa as nat, (ta - lo) as nat);
        lemma_aligned_bound(sb as nat, (tb - lo) as nat);
    }
    let xa: u64 = (sa as u64) * crate::rounding::pow2_u64(ta - lo);
    let xb: u64 = (sb as u64) * crate::rounding::pow2_u64(tb - lo);
    assert(aligned(a, lo as nat) == if na { -(xa as int) } else { xa as int });
    assert(aligned(b, lo as nat) == if nb { -(xb as int) } else { xb as int });
    if na == nb {
        let n: u64 = xa + xb;
        if n == 0 {
            if na {
                SIGN
            } else {
                0
            }
        } else {
            with_sign(na, round_pack_u64(n, lo as i32))
        }
    } else if xa > xb {
        with_sign(na, round_pack_u64(xa - xb, lo as i32))
    } else if xb > xa {
        with_sign(nb, round_pack_u64(xb - xa, lo as i32))
    } else {
        0
    }
}

/// Adds two finite binary32 numbers.
fn add_finite(a: u32, b: u32) -> (r: u32)
    requires
        is_finite(a),
        is_finite(b),
    ensures
        r == add_spec(a, b),
{
    let (_, ta) = unpack(magnitude_of(a));
    let (_, tb) = unpack(magnitude_of(b));
    if ta >= tb + 39 {
        proof {
            lemma_add_absorbs(a, b);
        }
        a
    } else if tb >= ta + 39 {
        proof {
            lemma_add_absorbs(b, a);
        }
        b
    } else {
        add_near(a, b)
    }
}

/// Adds two binary32 numbers.
pub fn add(a: u32, b: u32) -> (r: u32)
    ensures
        r == add_spec(a, b),
{
    let ma = magnitude_of(a);
    let mb = magnitude_of(b);
    if ma > INFINITE || mb > INFINITE {
        NAN
    } else if ma == INFINITE {
        if mb == INFINITE && (a >= SIGN) != (b >= SIGN) {
            NAN
        } else {
            a
        }
    } else if mb == INFINITE {
        b
    } else {
        add_finite(a, b)
    }
}

/// The difference of two patterns: the sum of `a` and `b` with its sign
/// changed.
pub open spec fn sub_spec(a: u32, b: u32) -> u32 {
    add_spec(a, pattern(!is_negative(b), magnitude(b)))
}

/// Subtracts `b` from `a`.
pub fn sub(a: u32, b: u32) -> (r: u32)
    ensures
        r == sub_spec(a, b),
{
    self::add(a, negate(b))
}

/// A sum is a NaN only as [`NAN`], and a product likewise.
pub proof fn lemma_nan_is_canonical(a: u32, b: u32)
    ensures
        is_nan(add_spec(a, b)) ==> add_spec(a, b) == NAN,
        is_nan(mul_spec(a, b)) ==> mul_spec(a, b) == NAN,
{
}

/// Zero added to a number gives the number; to a zero, a zero that is
/// negative only where both are.
pub proof fn lemma_add_to_zero(z: u32, x: u32)
    requires
        is_zero(z),
        !is_nan(x),
    ensures
        !is_zero(x) ==> add_spec(z, x) == x,
        is_zero(x) ==> is_zero(add_spec(z, x)),
{
    if is_finite(x) && !is_zero(x) {
        let m = magnitude(x);
        let sx = significand(m);
        let tx = binade(m);
        lemma2_to64();
        lemma_pow2_pos(tx);
        crate::order::lemma_round_shifted(sx, tx, 0);
        crate::rounding::lemma_exact_parts(sx, tx);
        assert(sx * pow2(tx) > 0) by (nonlinear_arith)
            requires
                sx > 0,
                pow2(tx) > 0,
        ;
        assert(0 * pow2(0) == 0) by (nonlinear_arith);
        assert(aligned(z, 0) == 0);
        assert(round_dyadic(sx * pow2(tx), 0) == m);
    }
}

/// The pattern two binades above `a`: four times the number.
pub open spec fn four_times(a: u32) -> u32 {
    (a + 0x100_0000) as u32
}

/// Whether `a` is a positive normal number that stays finite when it is
/// taken four times.
pub open spec fn can_be_four_times(a: u32) -> bool {
    0x80_0000 <= a < 0x7e80_0000
}

/// Proof that four times a normal number has the same significand two
/// binades higher.
pub proof fn lemma_four_times_parts(a: u32)
    requires
        can_be_four_times(a),
    ensures
        significand(four_times(a) as nat) == significand(a as nat),
        binade(four_times(a) as nat) == binade(a as nat) + 2,
{
}

/// A quotient does not change when both numbers are taken four times.
pub proof fn lemma_div_four_times(a: u32, b: u32)
    requires
        can_be_four_times(a),
        can_be_four_times(b),
    ensures
        div_spec(four_times(a), four_times(b)) == div_spec(a, b),
{
    lemma_four_times_parts(a);
    lemma_four_times_parts(b);
}

/// The sum of two positive normal numbers taken four times is four times
/// their sum.
pub proof fn lemma_add_four_times(a: u32, b: u32)
    requires
        can_be_four_times(a),
        can_be_four_times(b),
        binade(a as nat) <= 200,
        binade(b as nat) <= 200,
        0x100_0000 <= a,
    ensures
        add_spec(four_times(a), four_times(b)) == four_times(add_spec(a, b)),
        can_be_four_times(add_spec(a, b)),
{
    lemma_four_times_parts(a);
    lemma_four_times_parts(b);
    let ta = binade(a as nat);
    let tb = binade(b as nat);
    let lo = if ta <= tb {
        ta
    } else {
        tb
    };
    let hi = if ta <= tb {
        tb
    } else {
        ta
    };
    let x = (aligned(a, lo) + aligned(b, lo)) as nat;
    assert(aligned(four_times(a), lo + 2) == aligned(a, lo));
    assert(aligned(four_times(b), lo + 2) == aligned(b, lo));
    // the sum has at least the digits of `a` and at most one more than the
    // larger of the two
    let sa = significand(a as nat);
    let sb = significand(b as nat);
    let ka = pow2((ta - lo) as nat);
    let kb = pow2((tb - lo) as nat);
    let kh = pow2((hi - lo) as nat);
    lemma_pow2_pos((ta - lo) as nat);
    lemma_pow2_pos((tb - lo) as nat);
    lemma2_to64();
    if ta < hi {
        lemma_pow2_strictly_increases((ta - lo) as nat, (hi - lo) as nat);
    }
    if tb < hi {
        lemma_pow2_strictly_increases((tb - lo) as nat, (hi - lo) as nat);
    }
    lemma_pow2_adds(25, (hi - lo) as nat);
    lemma_pow2_adds(23, (ta - lo) as nat);
    assert(x >= 0x80_0000 * ka && x < 0x200_0000 * kh) by (nonlinear_arith)
        requires
            x == sa * ka + sb * kb,
            0x80_0000 <= sa < 0x100_0000,
            sb < 0x100_0000,
            0 < ka <= kh,
            0 < kb <= kh,
    ;
    crate::rounding::lemma_bit_length_bounds(x);
    let l = crate::rounding::bit_length(x);
    if l - 1 > 25 + (hi - lo) {
        lemma_pow2_strictly_increases((25 + (hi - lo)) as nat, (l - 1) as nat);
    }
    if l < 23 + (ta - lo) {
        lemma_pow2_strictly_increases(l, (23 + (ta - lo)) as nat);
    }
    assert(24 + ta - lo <= l <= 25 + hi - lo);
    crate::rounding::lemma_significand_bounds(x, lo as int + 2);
    crate::rounding::lemma_round_two_up(x, lo as int);
}

/// The quotient of two patterns: the exact quotient of their values,
/// rounded.  The quotient of the significands is that of the first, 65
/// places up, by the second, so that it has more than 24 digits before the
/// point.
pub open spec fn div_spec(a: u32, b: u32) -> u32 {
    let negative = is_negative(a) != is_negative(b);
    let ma = magnitude(a);
    let mb = magnitude(b);
    if is_nan(a) || is_nan(b) {
        NAN
    } else if is_infinite(a) {
        if is_infinite(b) {
            NAN
        } else {
            pattern(negative, 0x7f80_0000)
        }
    } else if is_infinite(b) {
        pattern(negative, 0)
    } else if is_zero(b) {
        if is_zero(a) {
            NAN
        } else {
            pattern(negative, 0x7f80_0000)
        }
    } else if is_zero(a) {
        pattern(negative, 0)
    } else {
        pattern(
            negative,
            crate::rounding::round_ratio(
                significand(ma) * 0x2_0000_0000_0000_0000,
                significand(mb),
                binade(ma) - binade(mb) + 84,
            ),
        )
    }
}

/// The quotient of two finite magnitudes as it is computed: the quotient
/// of the significands is cut off 64 places behind the point, and one
/// further place records whether anything is left over.
pub open spec fn quotient_with_left_over(ma: nat, mb: nat) -> nat {
    let scaled = significand(ma) * 0x1_0000_0000_0000_0000;
    let q = scaled / significand(mb);
    let left_over: nat = if scaled % significand(mb) != 0 {
        1
    } else {
        0
    };
    round_dyadic(2 * q + left_over, binade(ma) - binade(mb) + 84)
}

/// Proof that the quotient as it is computed is the exact quotient,
/// rounded: the place that records what is left over lies below every
/// place at which the result can be rounded.
pub proof fn lemma_div_by_left_over(a: u32, b: u32)
    requires
        is_finite(a),
        is_finite(b),
        !is_zero(b),
    ensures
        div_spec(a, b) == pattern(
            is_negative(a) != is_negative(b),
            quotient_with_left_over(magnitude(a), magnitude(b)),
        ),
{
    let ma = magnitude(a);
    let mb = magnitude(b);
    let sa = significand(ma);
    let sb = significand(mb);
    let e = binade(ma) - binade(mb) + 84;
    let w: nat = 0x1_0000_0000_0000_0000;
    let n = sa * w;
    let q = n / sb;
    let rest = n % sb;
    vstd::arithmetic::div_mod::lemma_fundamental_div_mod(n as int, sb as int);
    if is_zero(a) {
        assert(n == 0) by (nonlinear_arith)
            requires
                n == sa * w,
                sa == 0,
        ;
        vstd::arithmetic::div_mod::lemma_fundamental_div_mod_converse(0, sb as int, 0, 0);
        crate::order::lemma_round_zero(e);
    } else {
        lemma2_to64();
        let with_left_over: nat = if rest != 0 {
            2 * q + 1
        } else {
            2 * q
        };
        let twice = (2 * n) / sb;
        let twice_rest = (2 * n) % sb;
        vstd::arithmetic::div_mod::lemma_fundamental_div_mod((2 * n) as int, sb as int);
        assert(q >= 0x100_0000_0000 && (twice == 2 * q || twice == 2 * q + 1)) by (nonlinear_arith)
            requires
                n == sa * w,
                sa >= 1,
                w == 0x1_0000_0000_0000_0000,
                0 < sb < 0x100_0000,
                n == sb * q + rest,
                0 <= rest < sb,
                2 * n == sb * twice + twice_rest,
                0 <= twice_rest < sb,
        ;
        assert(sa * 0x2_0000_0000_0000_0000 == 2 * n) by (nonlinear_arith)
            requires
                n == sa * w,
                w == 0x1_0000_0000_0000_0000,
        ;
        // both have the digits of `2 q`
        assert((2 * q) / 2 == q && (2 * q + 1) / 2 == q);
        let l = crate::rounding::bit_length(2 * q);
        assert(crate::rounding::bit_length(2 * q + 1) == l);
        crate::rounding::lemma_bit_length_bounds(q);
        let lq = crate::rounding::bit_length(q);
        if lq < 41 {
            lemma_pow2_strictly_increases(lq, 41);
            vstd::arithmetic::power2::lemma2_to64_rest();
        }
        assert(l >= 42);
        let t = crate::rounding::binade_of(with_left_over, e);
        assert(crate::rounding::binade_of(twice, e) == t);
        assert(t - e >= 2);
        crate::order::lemma_left_over_rounds_alike(n, sb, (t - e) as nat);
    }
}

/// Divides `a` by `b`.
pub fn div(a: u32, b: u32) -> (r: u32)
    ensures
        r == div_spec(a, b),
{
    let negative = (a >= SIGN) != (b >= SIGN);
    let ma = magnitude_of(a);
    let mb = magnitude_of(b);
    if ma > INFINITE || mb > INFINITE {
        NAN
    } else if ma == INFINITE {
        if mb == INFINITE {
            NAN
        } else {
            with_sign(negative, INFINITE)
        }
    } else if mb == INFINITE {
        with_sign(negative, 0)
    } else if mb == 0 {
        if ma == 0 {
            NAN
        } else {
            with_sign(negative, INFINITE)
        }
    } else {
        let (sa, ta) = unpack(ma);
        let (sb, tb) = unpack(mb);
        // Long division by 32 places at a time keeps to 64-bit operands.
        let high: u64 = (sa as u64) * 0x1_0000_0000;
        let q_high: u64 = high / (sb as u64);
        let r_high: u64 = high % (sb as u64);
        let low: u64 = r_high * 0x1_0000_0000;
        let q_low: u64 = low / (sb as u64);
        let r_low: u64 = low % (sb as u64);
        let q: u128 = (q_high as u128) * 0x1_0000_0000 + (q_low as u128);
        let left_over: u128 = if r_low != 0 {
            1
        } else {
            0
        };
        proof {
            let scaled = sa as int * 0x1_0000_0000_0000_0000;
            vstd::arithmetic::div_mod::lemma_fundamental_div_mod(high as int, sb as int);
            vstd::arithmetic::div_mod::lemma_fundamental_div_mod(low as int, sb as int);
            assert(scaled == q * sb + r_low && q_low < 0x1_0000_0000) by (nonlinear_arith)
                requires
                    scaled == sa as int * 0x1_0000_0000_0000_0000,
                    high == sa as int * 0x1_0000_0000,
                    high == sb * q_high + r_high,
                    low == r_high * 0x1_0000_0000,
                    low == sb * q_low + r_low,
                    q == q_high * 0x1_0000_0000 + q_low,
                    0 <= r_high < sb,
                    0 <= r_low < sb,
                    sb > 0,
            ;
            vstd::arithmetic::div_mod::lemma_fundamental_div_mod_converse(
                scaled,
                sb as int,
                q as int,
                r_low as int,
            );
        }
        let e: i32 = (ta as i32) - (tb as i32) + 84;
        proof {
            lemma_div_by_left_over(a, b);
        }
        with_sign(negative, round_pack(2 * q + left_over, e))
    }
}

/// An exact sum `x * 2^lo` rounded, with its sign; an exact zero is
/// negative only where both terms of the sum were.
pub open spec fn signed_round(x: int, lo: int, both_negative: bool) -> u32 {
    if x == 0 {
        if both_negative {
            SIGN
        } else {
            0
        }
    } else if x < 0 {
        pattern(true, round_dyadic((-x) as nat, lo))
    } else {
        pattern(false, round_dyadic(x as nat, lo))
    }
}

/// The last place of the exact sum `a * b + c` of finite numbers: the
/// lower of the last place of the product and that of the term.
pub open spec fn fused_place(a: u32, b: u32, c: u32) -> int {
    let ep = binade(magnitude(a)) + binade(magnitude(b)) - 149;
    if ep <= binade(magnitude(c)) {
        ep
    } else {
        binade(magnitude(c)) as int
    }
}

/// The exact sum `a * b + c` of finite numbers, in units of its last
/// place.
pub open spec fn fused_sum(a: u32, b: u32, c: u32) -> int {
    let ep = binade(magnitude(a)) + binade(magnitude(b)) - 149;
    let lo = fused_place(a, b, c);
    let product = (significand(magnitude(a)) * significand(magnitude(b)) * pow2((ep - lo) as nat)) as int;
    let term = (significand(magnitude(c)) * pow2((binade(magnitude(c)) - lo) as nat)) as int;
    (if is_negative(a) != is_negative(b) {
        -product
    } else {
        product
    }) + (if is_negative(c) {
        -term
    } else {
        term
    })
}

/// The fused multiply-add `a * b + c`: the exact product and the term,
/// added exactly and rounded once.
pub open spec fn fused_spec(a: u32, b: u32, c: u32) -> u32 {
    let negative = is_negative(a) != is_negative(b);
    if is_nan(a) || is_nan(b) || is_nan(c) {
        NAN
    } else if is_infinite(a) || is_infinite(b) {
        if is_zero(a) || is_zero(b) {
            NAN
        } else if is_infinite(c) && is_negative(c) != negative {
            NAN
        } else {
            pattern(negative, 0x7f80_0000)
        }
    } else if is_infinite(c) {
        c
    } else {
        signed_round(fused_sum(a, b, c), fused_place(a, b, c), negative && is_negative(c))
    }
}

/// The arguments on which the fused multiply-add is known to rise with its
/// first factor: a first factor that is finite and not negative, a second
/// factor and a term that are finite and positive, the term a normal number
/// whose last place is not below that of the product.
pub open spec fn fused_domain(x: u32, k: u32, c: u32) -> bool {
    &&& is_finite(x) && !is_negative(x)
    &&& is_finite(k) && !is_negative(k)
    &&& is_finite(c) && !is_negative(c)
    &&& c >= 0x100_0000
    &&& binade(magnitude(c)) >= binade(magnitude(x)) + binade(magnitude(k)) - 149
}

/// Proof that the fused multiply-add of finite numbers that are not
/// negative, the last place of the term not below that of the product, is
/// the sum of the product of the significands and the significand of the
/// term, brought to the last place of the product, rounded.
pub proof fn lemma_fused_not_negative(x: u32, k: u32, c: u32)
    requires
        x < 0x7f80_0000,
        k < 0x7f80_0000,
        c < 0x7f80_0000,
        binade(c as nat) >= binade(x as nat) + binade(k as nat) - 149,
    ensures
        fused_spec(x, k, c) == round_dyadic(
            significand(c as nat) * pow2(
                (binade(c as nat) - (binade(x as nat) + binade(k as nat) - 149)) as nat,
            ) + significand(x as nat) * significand(k as nat),
            binade(x as nat) + binade(k as nat) - 149,
        ),
{
    lemma2_to64();
    let ep = binade(x as nat) + binade(k as nat) - 149;
    let product = significand(x as nat) * significand(k as nat);
    let term = significand(c as nat) * pow2((binade(c as nat) - ep) as nat);
    assert(product * pow2(0) == product) by (nonlinear_arith)
        requires
            pow2(0) == 1,
    ;
    assert(fused_place(x, k, c) == ep);
    assert(fused_sum(x, k, c) == product + term);
    crate::order::lemma_round_zero(ep);
}

/// The sum of two magnitudes in the same place, each with its sign,
/// rounded.
fn round_signed(negative_first: bool, first: u128, negative_second: bool, second: u128, lo: i32) -> (r:
    u32)
    requires
        first < 0x4000_0000_0000_0000_0000_0000_0000_0000,
        second < 0x4000_0000_0000_0000_0000_0000_0000_0000,
        -1000 <= lo <= 1000,
    ensures
        r == signed_round(
            (if negative_first {
                -(first as int)
            } else {
                first as int
            }) + (if negative_second {
                -(second as int)
            } else {
                second as int
            }),
            lo as int,
            negative_first && negative_second,
        ),
{
    if negative_first == negative_second {
        let n: u128 = first + second;
        if n == 0 {
            if negative_first {
                SIGN
            } else {
                0
            }
        } else {
            with_sign(negative_first, round_pack(n, lo))
        }
    } else if first > second {
        with_sign(negative_first, round_pack(first - second, lo))
    } else if second > first {
        with_sign(negative_second, round_pack(second - first, lo))
    } else {
        0
    }
}

/// The sum of a large magnitude and a small one that lies so far below
/// that it can only tip the rounding: `large * 2^gap` and `small`, with
/// their signs, in the place `lo` of the small one.
fn round_far(
    negative_large: bool,
    large: u64,
    negative_small: bool,
    Ghost(small): Ghost<nat>,
    gap: i32,
    lo: i32,
) -> (r: u32)
    requires
        0 < large < 0x1_0000_0000_0000,
        0 < small < 0x1_0000_0000_0000,
        79 <= gap <= 1000,
        -1000 <= lo,
        lo + gap <= 1000,
    ensures
        r == signed_round(
            (if negative_large {
                -((large * pow2(gap as nat)) as int)
            } else {
                (large * pow2(gap as nat)) as int
            }) + (if negative_small {
                -(small as int)
            } else {
                small as int
            }),
            lo as int,
            negative_large && negative_small,
        ),
{
    let twice: u128 = (large as u128) * 0x800_0000;
    let n: u128 = if negative_large == negative_small {
        twice + 1
    } else {
        twice - 1
    };
    proof {
        lemma2_to64();
        vstd::arithmetic::power2::lemma2_to64_rest();
        let j = (gap - 26) as nat;
        let d = pow2(j);
        lemma_pow2_adds(26, j);
        lemma_pow2_strictly_increases(48, j);
        lemma_pow2_pos(gap as nat);
        let big: nat = large as nat * pow2(gap as nat);
        assert(big == (large * 0x400_0000) * d) by (nonlinear_arith)
            requires
                big == large * pow2(gap as nat),
                pow2(gap as nat) == 0x400_0000 * d,
        ;
        let x: nat = if negative_large == negative_small {
            (big + small) as nat
        } else {
            (big - small) as nat
        };
        assert(big >= d && d > small) by (nonlinear_arith)
            requires
                big == (large * 0x400_0000) * d,
                large >= 1,
                d > small,
        ;
        if negative_large == negative_small {
            vstd::arithmetic::div_mod::lemma_fundamental_div_mod_converse(
                x as int,
                d as int,
                (large * 0x400_0000) as int,
                small as int,
            );
        } else {
            assert(x == (large * 0x400_0000 - 1) * d + (d - small)) by (nonlinear_arith)
                requires
                    x == big - small,
                    big == (large * 0x400_0000) * d,
            ;
            vstd::arithmetic::div_mod::lemma_fundamental_div_mod_converse(
                x as int,
                d as int,
                (large * 0x400_0000 - 1) as int,
                (d - small) as int,
            );
        }
        crate::order::lemma_round_with_left_over(x, j, lo as int);
        assert(lo + j - 1 == lo + gap - 27);
        assert(x > 0);
    }
    with_sign(negative_large, round_pack(n, lo + gap - 27))
}

/// Proof that zero times a finite number, added to a term, gives the term;
/// for a zero term, a zero that is negative only where the product is too.
pub proof fn lemma_fused_of_zero(a: u32, b: u32, c: u32)
    requires
        is_finite(a),
        is_finite(b),
        is_finite(c),
        is_zero(a) || is_zero(b),
    ensures
        !is_zero(c) ==> fused_spec(a, b, c) == c,
        is_zero(c) ==> fused_spec(a, b, c) == if is_negative(a) != is_negative(b) && is_negative(c) {
            SIGN
        } else {
            0
        },
{
    let mc = magnitude(c);
    let sc = significand(mc);
    let tc = binade(mc);
    let ep = binade(magnitude(a)) + binade(magnitude(b)) - 149;
    let lo = fused_place(a, b, c);
    let sa = significand(magnitude(a));
    let sb = significand(magnitude(b));
    assert(sa * sb * pow2((ep - lo) as nat) == 0) by (nonlinear_arith)
        requires
            sa == 0 || sb == 0,
    ;
    lemma_pow2_pos((tc - lo) as nat);
    if is_zero(c) {
        assert(sc * pow2((tc - lo) as nat) == 0) by (nonlinear_arith)
            requires
                sc == 0,
        ;
    } else {
        assert(sc * pow2((tc - lo) as nat) > 0) by (nonlinear_arith)
            requires
                sc > 0,
                pow2((tc - lo) as nat) > 0,
        ;
        crate::order::lemma_round_shifted(sc, (tc - lo) as nat, lo);
        crate::rounding::lemma_exact_parts(sc, tc);
    }
}

/// The last place of the product of two finite numbers, before the last
/// place of a third: by how much the first lies above the second.
pub open spec fn fused_gap(a: u32, b: u32, c: u32) -> int {
    binade(magnitude(a)) + binade(magnitude(b)) - 149 - binade(magnitude(c))
}

/// Whether neither the product nor the term of `a * b + c` is zero.
pub open spec fn fused_proper(a: u32, b: u32, c: u32) -> bool {
    &&& is_finite(a) && is_finite(b) && is_finite(c)
    &&& !is_zero(a) && !is_zero(b) && !is_zero(c)
}

/// Fused multiply-add where the term is zero: the product, rounded.
fn fused_product(a: u32, b: u32, c: u32) -> (r: u32)
    requires
        is_finite(a) && is_finite(b) && is_finite(c),
        !is_zero(a) && !is_zero(b),
        is_zero(c),
    ensures
        r == fused_spec(a, b, c),
{
    let negative = (a >= SIGN) != (b >= SIGN);
    let (sa, ta) = unpack(magnitude_of(a));
    let (sb, tb) = unpack(magnitude_of(b));
    assert(0 < sa * sb < 0x1_0000_0000_0000) by (nonlinear_arith)
        requires
            0 < sa < 0x100_0000,
            0 < sb < 0x100_0000,
    ;
    let product: u64 = (sa as u64) * (sb as u64);
    let ep: i32 = (ta as i32) + (tb as i32) - 149;
    proof {
        let lo = fused_place(a, b, c);
        let shift = pow2((ep - lo) as nat);
        assert(0 * pow2((0 - lo) as nat) == 0) by (nonlinear_arith);
        lemma_pow2_pos((ep - lo) as nat);
        assert(product * shift > 0) by (nonlinear_arith)
            requires
                product > 0,
                shift > 0,
        ;
        assert(fused_sum(a, b, c) == if negative {
            -((product * shift) as int)
        } else {
            (product * shift) as int
        });
        crate::order::lemma_round_shifted(product as nat, (ep - lo) as nat, lo);
    }
    with_sign(negative, round_pack_u64(product, ep))
}

/// Fused multiply-add where the last places of the product and of the term
/// are less than 79 apart: the sum is exact in 128 bits.
fn fused_near(a: u32, b: u32, c: u32) -> (r: u32)
    requires
        fused_proper(a, b, c),
        -79 < fused_gap(a, b, c) < 79,
    ensures
        r == fused_spec(a, b, c),
{
    let negative = (a >= SIGN) != (b >= SIGN);
    let negative_term = c >= SIGN;
    let (sa, ta) = unpack(magnitude_of(a));
    let (sb, tb) = unpack(magnitude_of(b));
    let (sc, tc) = unpack(magnitude_of(c));
    assert(sa * sb < 0x1_0000_0000_0000) by (nonlinear_arith)
        requires
            sa < 0x100_0000,
            sb < 0x100_0000,
    ;
    let product: u64 = (sa as u64) * (sb as u64);
    let ep: i32 = (ta as i32) + (tb as i32) - 149;
    let gap: i32 = ep - (tc as i32);
    proof {
        lemma2_to64();
        vstd::arithmetic::power2::lemma2_to64_rest();
        lemma_pow2_adds(64, 62);
    }
    if gap >= 0 {
        proof {
            crate::rounding::lemma_scale_below(product as nat, 48, gap as nat);
            if gap < 78 {
                lemma_pow2_strictly_increases((48 + gap) as nat, 126);
            }
            assert(sc * pow2(0) == sc) by (nonlinear_arith)
                requires
                    pow2(0) == 1,
            ;
        }
        let first: u128 = (product as u128) * crate::rounding::pow2_u128(gap as u32);
        assert(fused_place(a, b, c) == tc);
        assert(fused_sum(a, b, c) == (if negative {
            -(first as int)
        } else {
            first as int
        }) + (if negative_term {
            -(sc as int)
        } else {
            sc as int
        }));
        round_signed(negative, first, negative_term, sc as u128, tc as i32)
    } else {
        proof {
            crate::rounding::lemma_scale_below(sc as nat, 24, (-gap) as nat);
            lemma_pow2_strictly_increases((24 - gap) as nat, 126);
            assert(product * pow2(0) == product) by (nonlinear_arith)
                requires
                    pow2(0) == 1,
            ;
        }
        let second: u128 = (sc as u128) * crate::rounding::pow2_u128((-gap) as u32);
        assert(fused_place(a, b, c) == ep);
        assert(fused_sum(a, b, c) == (if negative {
            -(product as int)
        } else {
            product as int
        }) + (if negative_term {
            -(second as int)
        } else {
            second as int
        }));
        round_signed(negative, product as u128, negative_term, second, ep)
    }
}

/// Fused multiply-add where the last places of the product and of the term
/// are at least 79 apart: the lower of the two can only tip the rounding
/// of the other.
fn fused_far(a: u32, b: u32, c: u32) -> (r: u32)
    requires
        fused_proper(a, b, c),
        fused_gap(a, b, c) >= 79 || fused_gap(a, b, c) <= -79,
    ensures
        r == fused_spec(a, b, c),
{
    let negative = (a >= SIGN) != (b >= SIGN);
    let negative_term = c >= SIGN;
    let (sa, ta) = unpack(magnitude_of(a));
    let (sb, tb) = unpack(magnitude_of(b));
    let (sc, tc) = unpack(magnitude_of(c));
    assert(0 < sa * sb < 0x1_0000_0000_0000) by (nonlinear_arith)
        requires
            0 < sa < 0x100_0000,
            0 < sb < 0x100_0000,
    ;
    let product: u64 = (sa as u64) * (sb as u64);
    let ep: i32 = (ta as i32) + (tb as i32) - 149;
    let gap: i32 = ep - (tc as i32);
    proof {
        lemma2_to64();
    }
    if gap >= 79 {
        proof {
            assert(sc * pow2(0) == sc) by (nonlinear_arith)
                requires
                    pow2(0) == 1,
            ;
            assert(fused_place(a, b, c) == tc);
            assert(fused_sum(a, b, c) == (if negative {
                -((product * pow2(gap as nat)) as int)
            } else {
                (product * pow2(gap as nat)) as int
            }) + (if negative_term {
                -(sc as int)
            } else {
                sc as int
            }));
        }
        round_far(negative, product, negative_term, Ghost(sc as nat), gap, tc as i32)
    } else {
        proof {
            assert(product * pow2(0) == product) by (nonlinear_arith)
                requires
                    pow2(0) == 1,
            ;
            assert(fused_place(a, b, c) == ep);
            assert(fused_sum(a, b, c) == (if negative {
                -(product as int)
            } else {
                product as int
            }) + (if negative_term {
                -((sc * pow2((-gap) as nat)) as int)
            } else {
                (sc * pow2((-gap) as nat)) as int
            }));
        }
        round_far(negative_term, sc as u64, negative, Ghost(product as nat), -gap, ep)
    }
}

/// Fused multiply-add of finite numbers.
fn fused_finite(a: u32, b: u32, c: u32) -> (r: u32)
    requires
        is_finite(a),
        is_finite(b),
        is_finite(c),
    ensures
        r == fused_spec(a, b, c),
{
    let ma = magnitude_of(a);
    let mb = magnitude_of(b);
    let mc = magnitude_of(c);
    if ma == 0 || mb == 0 {
        proof {
            lemma_fused_of_zero(a, b, c);
        }
        if mc == 0 {
            if ((a >= SIGN) != (b >= SIGN)) && c >= SIGN {
                SIGN
            } else {
                0
            }
        } else {
            c
        }
    } else if mc == 0 {
        fused_product(a, b, c)
    } else {
        let (_, ta) = unpack(ma);
        let (_, tb) = unpack(mb);
        let (_, tc) = unpack(mc);
        let gap: i32 = (ta as i32) + (tb as i32) - 149 - (tc as i32);
        if gap >= 79 || gap <= -79 {
            fused_far(a, b, c)
        } else {
            fused_near(a, b, c)
        }
    }
}

/// Fused multiply-add: `a * b + c` with a single rounding.
pub fn fused(a: u32, b: u32, c: u32) -> (r: u32)
    ensures
        r == fused_spec(a, b, c),
{
    let negative = (a >= SIGN) != (b >= SIGN);
    let ma = magnitude_of(a);
    let mb = magnitude_of(b);
    let mc = magnitude_of(c);
    if ma > INFINITE || mb > INFINITE || mc > INFINITE {
        NAN
    } else if ma == INFINITE || mb == INFINITE {
        if ma == 0 || mb == 0 {
            NAN
        } else if mc == INFINITE && (c >= SIGN) != negative {
            NAN
        } else {
            with_sign(negative, INFINITE)
        }
    } else if mc == INFINITE {
        c
    } else {
        fused_finite(a, b, c)
    }
}


/// `v` held in the unit interval: 0 for what is not above zero, a NaN among
/// it, and 1 for what is above one.
pub open spec fn unit_part(v: u32) -> u32 {
    if less(ONE, v) {
        ONE
    } else {
        positive_part(v)
    }
}

/// The code of a value on a scale of `k` steps that starts at `c`: the
/// whole part of `unit_part(v) * k + c`, rounded once.  What is not above
/// zero, a NaN among it, has the code of zero, and what is above one the
/// code of one.
pub open spec fn quantise_spec(v: u32, k: u32, c: u32) -> nat {
    whole_part(fused_spec(unit_part(v), k, c))
}

/// Quantises `v`, held in the unit interval, to a code of at most `limit`.
pub fn quantise(v: u32, k: u32, c: u32, limit: u32) -> (r: u32)
    requires
        limit < 0x80_0000,
    ensures
        r == crate::binary32::capped(quantise_spec(v, k, c), limit as nat),
{
    let x: u32 = if crate::binary32::lt(ONE, v) {
        ONE
    } else {
        crate::binary32::positive(v)
    };
    crate::binary32::truncate(fused(x, k, c), limit)
}

} // verus!
