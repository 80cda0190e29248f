//! The arithmetic on known numbers.
//!
//! What an operation gives on two given patterns is a matter of a few
//! integer products and quotients.  Each proof here takes those integers
//! as it is handed them, asks that they fit together, and concludes what
//! the operation gives; a caller that names the patterns has nothing left
//! to prove but sums and products of numerals.

use vstd::prelude::*;
use vstd::arithmetic::power2::{pow2, lemma_pow2_pos, lemma_pow2_adds, lemma_pow2_unfold, lemma2_to64};
use crate::binary32::{magnitude, is_negative, is_finite, binade, significand, pattern, whole_part, scaled};
use crate::rounding::{bit_length, nearest_even, round_dyadic, lemma_bit_length_unique};
use crate::arith::{add_spec, mul_spec, div_spec, fused_spec, aligned};

verus! {

/// The powers of two from `2^65` to `2^96`.
pub proof fn lemma_high_powers()
    ensures
        pow2(65) == 0x2_0000_0000_0000_0000,
        pow2(66) == 0x4_0000_0000_0000_0000,
        pow2(67) == 0x8_0000_0000_0000_0000,
        pow2(68) == 0x10_0000_0000_0000_0000,
        pow2(69) == 0x20_0000_0000_0000_0000,
        pow2(70) == 0x40_0000_0000_0000_0000,
        pow2(71) == 0x80_0000_0000_0000_0000,
        pow2(72) == 0x100_0000_0000_0000_0000,
        pow2(73) == 0x200_0000_0000_0000_0000,
        pow2(74) == 0x400_0000_0000_0000_0000,
        pow2(75) == 0x800_0000_0000_0000_0000,
        pow2(76) == 0x1000_0000_0000_0000_0000,
        pow2(77) == 0x2000_0000_0000_0000_0000,
        pow2(78) == 0x4000_0000_0000_0000_0000,
        pow2(79) == 0x8000_0000_0000_0000_0000,
        pow2(80) == 0x1_0000_0000_0000_0000_0000,
        pow2(81) == 0x2_0000_0000_0000_0000_0000,
        pow2(82) == 0x4_0000_0000_0000_0000_0000,
        pow2(83) == 0x8_0000_0000_0000_0000_0000,
        pow2(84) == 0x10_0000_0000_0000_0000_0000,
        pow2(85) == 0x20_0000_0000_0000_0000_0000,
        pow2(86) == 0x40_0000_0000_0000_0000_0000,
        pow2(87) == 0x80_0000_0000_0000_0000_0000,
        pow2(88) == 0x100_0000_0000_0000_0000_0000,
        pow2(89) == 0x200_0000_0000_0000_0000_0000,
        pow2(90) == 0x400_0000_0000_0000_0000_0000,
        pow2(91) == 0x800_0000_0000_0000_0000_0000,
        pow2(92) == 0x1000_0000_0000_0000_0000_0000,
        pow2(93) == 0x2000_0000_0000_0000_0000_0000,
        pow2(94) == 0x4000_0000_0000_0000_0000_0000,
        pow2(95) == 0x8000_0000_0000_0000_0000_0000,
        pow2(96) == 0x1_0000_0000_0000_0000_0000_0000,
{
    lemma2_to64();
    lemma_pow2_unfold(65);
    lemma_pow2_unfold(66);
    lemma_pow2_unfold(67);
    lemma_pow2_unfold(68);
    lemma_pow2_unfold(69);
    lemma_pow2_unfold(70);
    lemma_pow2_unfold(71);
    lemma_pow2_unfold(72);
    lemma_pow2_unfold(73);
    lemma_pow2_unfold(74);
    lemma_pow2_unfold(75);
    lemma_pow2_unfold(76);
    lemma_pow2_unfold(77);
    lemma_pow2_unfold(78);
    lemma_pow2_unfold(79);
    lemma_pow2_unfold(80);
    lemma_pow2_unfold(81);
    lemma_pow2_unfold(82);
    lemma_pow2_unfold(83);
    lemma_pow2_unfold(84);
    lemma_pow2_unfold(85);
    lemma_pow2_unfold(86);
    lemma_pow2_unfold(87);
    lemma_pow2_unfold(88);
    lemma_pow2_unfold(89);
    lemma_pow2_unfold(90);
    lemma_pow2_unfold(91);
    lemma_pow2_unfold(92);
    lemma_pow2_unfold(93);
    lemma_pow2_unfold(94);
    lemma_pow2_unfold(95);
    lemma_pow2_unfold(96);
}

/// The powers `2^(5 k)` for `k` from 24 to 34.
pub proof fn lemma_fifth_powers_of_two()
    ensures
        pow2(120) == 0x100_0000_0000_0000_0000_0000_0000_0000,
        pow2(125) == 0x2000_0000_0000_0000_0000_0000_0000_0000,
        pow2(130) == 0x4_0000_0000_0000_0000_0000_0000_0000_0000,
        pow2(135) == 0x80_0000_0000_0000_0000_0000_0000_0000_0000,
        pow2(140) == 0x1000_0000_0000_0000_0000_0000_0000_0000_0000,
        pow2(145) == 0x2_0000_0000_0000_0000_0000_0000_0000_0000_0000,
        pow2(150) == 0x40_0000_0000_0000_0000_0000_0000_0000_0000_0000,
        pow2(155) == 0x800_0000_0000_0000_0000_0000_0000_0000_0000_0000,
        pow2(160) == 0x1_0000_0000_0000_0000_0000_0000_0000_0000_0000_0000,
        pow2(165) == 0x20_0000_0000_0000_0000_0000_0000_0000_0000_0000_0000,
        pow2(170) == 0x400_0000_0000_0000_0000_0000_0000_0000_0000_0000_0000,
{
    lemma2_to64();
    vstd::arithmetic::power2::lemma2_to64_rest();
    lemma_high_powers();
    lemma_pow2_adds(64, 56);
    lemma_pow2_adds(64, 61);
    lemma_pow2_adds(64, 66);
    lemma_pow2_adds(64, 71);
    lemma_pow2_adds(64, 76);
    lemma_pow2_adds(64, 81);
    lemma_pow2_adds(64, 86);
    lemma_pow2_adds(64, 91);
    lemma_pow2_adds(64, 96);
    lemma_pow2_adds(96, 69);
    lemma_pow2_adds(96, 74);
}

/// Whether `m` is the magnitude with significand `sig` in binade `t`.
pub open spec fn parts(m: nat, sig: nat, t: nat) -> bool {
    &&& m == t * 0x80_0000 + sig
    &&& sig < 0x100_0000
    &&& t > 0 ==> sig >= 0x80_0000
}

/// Proof that a magnitude has the parts it is made of.
pub proof fn lemma_parts(m: nat, sig: nat, t: nat)
    requires
        parts(m, sig, t),
    ensures
        binade(m) == t,
        significand(m) == sig,
{
}

/// What `n * 2^e` rounds to, for a positive `n` of `l` digits: the binade,
/// and the significand from `n` and the power of two `d` that lies between
/// the last place of `n` and that of the result.
pub open spec fn rounded(n: nat, e: int, l: nat, d: nat) -> nat {
    let t = if l + e > 24 {
        l + e - 24
    } else {
        0
    };
    let m = if t >= e {
        t * 0x80_0000 + nearest_even(n, d)
    } else {
        t * 0x80_0000 + n * d
    };
    if m >= 0x7f80_0000 {
        0x7f80_0000
    } else {
        m as nat
    }
}

/// Whether `l` and `d` are what `rounded` takes for `n * 2^e`: `low` is
/// `2^(l-1)`, which `n` reaches without reaching its double.
pub open spec fn rounds_with(n: nat, e: int, l: nat, low: nat, d: nat) -> bool {
    let t = if l + e > 24 {
        l + e - 24
    } else {
        0
    };
    &&& l >= 1
    &&& low == pow2((l - 1) as nat)
    &&& low <= n < 2 * low
    &&& d == if t >= e {
        pow2((t - e) as nat)
    } else {
        pow2((e - t) as nat)
    }
}

/// Rounding of a known number.
pub proof fn lemma_round_known(n: nat, e: int, l: nat, low: nat, d: nat)
    requires
        rounds_with(n, e, l, low, d),
    ensures
        round_dyadic(n, e) == rounded(n, e, l, d),
{
    vstd::arithmetic::power2::lemma_pow2_unfold(l);
    lemma_bit_length_unique(n, l);
}

/// The sum `a + b` of two known numbers that are not negative, or their
/// difference `a - b` where `minus` is set and `a` is the larger: `ka` and
/// `kb` bring the significands to the lower of the two binades, where `n`
/// is their sum or difference.
pub proof fn lemma_sum_known(
    a: u32,
    b: u32,
    minus: bool,
    sa: nat,
    ta: nat,
    sb: nat,
    tb: nat,
    ka: nat,
    kb: nat,
    n: nat,
    l: nat,
    low: nat,
    d: nat,
)
    requires
        a < 0x7f80_0000,
        b < 0x7f80_0000,
        parts(a as nat, sa, ta),
        parts(b as nat, sb, tb),
        ta >= tb ==> ka == pow2((ta - tb) as nat) && kb == 1,
        ta < tb ==> kb == pow2((tb - ta) as nat) && ka == 1,
        n > 0,
        n == if minus {
            sa * ka - sb * kb
        } else {
            (sa * ka + sb * kb) as int
        },
        rounds_with(
            n,
            if ta <= tb {
                ta as int
            } else {
                tb as int
            },
            l,
            low,
            d,
        ),
    ensures
        add_spec(
            a,
            if minus {
                pattern(true, b as nat)
            } else {
                b
            },
        ) == rounded(
            n,
            if ta <= tb {
                ta as int
            } else {
                tb as int
            },
            l,
            d,
        ),
{
    lemma2_to64();
    let lo: nat = if ta <= tb {
        ta
    } else {
        tb
    };
    let other: u32 = if minus {
        pattern(true, b as nat)
    } else {
        b
    };
    lemma_parts(a as nat, sa, ta);
    lemma_parts(b as nat, sb, tb);
    assert(magnitude(other) == b);
    assert(sa * 1 == sa && sb * 1 == sb) by (nonlinear_arith);
    assert(aligned(a, lo) == sa * ka);
    assert(aligned(other, lo) == if minus {
        -((sb * kb) as int)
    } else {
        (sb * kb) as int
    });
    lemma_round_known(n, lo as int, l, low, d);
}

/// The product of two known numbers that are not negative.
pub proof fn lemma_product_known(
    a: u32,
    b: u32,
    sa: nat,
    ta: nat,
    sb: nat,
    tb: nat,
    n: nat,
    l: nat,
    low: nat,
    d: nat,
)
    requires
        a < 0x7f80_0000,
        b < 0x7f80_0000,
        parts(a as nat, sa, ta),
        parts(b as nat, sb, tb),
        n == sa * sb,
        n > 0,
        rounds_with(n, ta + tb - 149, l, low, d),
    ensures
        mul_spec(a, b) == rounded(n, ta + tb - 149, l, d),
{
    lemma_parts(a as nat, sa, ta);
    lemma_parts(b as nat, sb, tb);
    lemma_round_known(n, ta + tb - 149, l, low, d);
}

/// The quotient of two known numbers that are positive: `q` and `rest` are
/// the quotient and the remainder of the significands, the first of them
/// 64 places up.
pub proof fn lemma_quotient_known(
    a: u32,
    b: u32,
    sa: nat,
    ta: nat,
    sb: nat,
    tb: nat,
    q: nat,
    rest: nat,
    l: nat,
    low: nat,
    d: nat,
)
    requires
        0 < a < 0x7f80_0000,
        0 < b < 0x7f80_0000,
        parts(a as nat, sa, ta),
        parts(b as nat, sb, tb),
        sa * 0x1_0000_0000_0000_0000 == q * sb + rest,
        rest < sb,
        rounds_with(
            if rest != 0 {
                2 * q + 1
            } else {
                2 * q
            },
            ta - tb + 84,
            l,
            low,
            d,
        ),
    ensures
        div_spec(a, b) == rounded(
            if rest != 0 {
                2 * q + 1
            } else {
                2 * q
            },
            ta - tb + 84,
            l,
            d,
        ),
{
    lemma_parts(a as nat, sa, ta);
    lemma_parts(b as nat, sb, tb);
    vstd::arithmetic::div_mod::lemma_fundamental_div_mod_converse(
        (sa * 0x1_0000_0000_0000_0000) as int,
        sb as int,
        q as int,
        rest as int,
    );
    crate::arith::lemma_div_by_left_over(a, b);
    let n: nat = if rest != 0 {
        2 * q + 1
    } else {
        2 * q
    };
    lemma_round_known(n, ta - tb + 84, l, low, d);
}

/// The fused multiply-add `x * k + c` of three known numbers that are not
/// negative: `kc` brings the significand of `c` to the last place of the
/// product, where `n` is the sum.
pub proof fn lemma_fused_known(
    x: u32,
    k: u32,
    c: u32,
    sx: nat,
    tx: nat,
    sk: nat,
    tk: nat,
    sc: nat,
    tc: nat,
    kc: nat,
    n: nat,
    l: nat,
    low: nat,
    d: nat,
)
    requires
        x < 0x7f80_0000,
        k < 0x7f80_0000,
        c < 0x7f80_0000,
        parts(x as nat, sx, tx),
        parts(k as nat, sk, tk),
        parts(c as nat, sc, tc),
        tc >= tx + tk - 149,
        kc == pow2((tc - (tx + tk - 149)) as nat),
        n == sc * kc + sx * sk,
        n > 0,
        rounds_with(n, tx + tk - 149, l, low, d),
    ensures
        fused_spec(x, k, c) == rounded(n, tx + tk - 149, l, d),
{
    lemma_parts(x as nat, sx, tx);
    lemma_parts(k as nat, sk, tk);
    lemma_parts(c as nat, sc, tc);
    crate::arith::lemma_fused_not_negative(x, k, c);
    lemma_round_known(n, tx + tk - 149, l, low, d);
}

/// The whole part of a known number that is not negative and below
/// `2^24`: its significand without the `149 - t` places behind the point.
pub proof fn lemma_whole_known(v: u32, sv: nat, tv: nat, d: nat)
    requires
        v < 0x7f80_0000,
        parts(v as nat, sv, tv),
        tv < 149,
        d == pow2((149 - tv) as nat),
    ensures
        whole_part(v) == sv / d,
{
    lemma_parts(v as nat, sv, tv);
    lemma_pow2_adds(tv, (149 - tv) as nat);
    lemma_pow2_pos(tv);
    lemma_pow2_pos((149 - tv) as nat);
    vstd::arithmetic::div_mod::lemma_div_multiples_vanish_quotient(
        pow2(tv) as int,
        sv as int,
        d as int,
    );
    assert(sv * pow2(tv) == pow2(tv) * sv) by (nonlinear_arith);
}

/// The pattern of the known integer `n`.
pub proof fn lemma_number_known(n: nat, l: nat, low: nat, d: nat)
    requires
        rounds_with(n, 149, l, low, d),
    ensures
        crate::binary32::number(n) == rounded(n, 149, l, d),
{
    lemma_round_known(n, 149, l, low, d);
}

/// A known number of the first binades below 1 is the nearest to the power
/// 2.4 of a known ratio: the numbers that are handed over are the powers of
/// the numerator, of the denominator and of the two odd numbers about
/// twice the significand.
pub proof fn lemma_power_known(
    b: u32,
    sig: nat,
    t: nat,
    scale: nat,
    num: nat,
    n3: nat,
    n6: nat,
    den: nat,
    d3: nat,
    d6: nat,
    l2: nat,
    l4: nat,
    h2: nat,
    h4: nat,
)
    requires
        b < 0x7f80_0000,
        parts(b as nat, sig, t),
        0 < t < 150,
        0x80_0000 < sig,
        scale == pow2((5 * (150 - t)) as nat),
        n3 == num * num * num,
        n6 == n3 * n3,
        d3 == den * den * den,
        d6 == d3 * d3,
        l2 == (2 * sig - 1) * (2 * sig - 1),
        l4 == l2 * l2,
        h2 == (2 * sig + 1) * (2 * sig + 1),
        h4 == h2 * h2,
        (l4 * (2 * sig - 1)) * (d6 * d6) < (n6 * n6) * scale,
        (n6 * n6) * scale < (h4 * (2 * sig + 1)) * (d6 * d6),
    ensures
        crate::gamma::nearest_to_power(b, num, den),
{
    reveal(crate::gamma::nearest_to_power);
    lemma_parts(b as nat, sig, t);
}

} // verus!
