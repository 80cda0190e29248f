//! Rounding of exact dyadic values to binary32, ties to even.
//!
//! Magnitudes are measured in units of `2^-149`, the smallest positive
//! binary32 number, so that every finite binary32 magnitude is an integer.
//! In that unit the pattern of a magnitude is `t * 2^23 + sig`, where `t` is
//! the binade (the exponent of the last place) and `sig < 2^24` the
//! significand: the carry from a rounded-up significand and the overflow to
//! infinity both fall out of that sum.

use vstd::prelude::*;
use vstd::arithmetic::power2::{pow2, lemma_pow2_pos, lemma_pow2_unfold, lemma_pow2_adds, lemma_pow2_strictly_increases, lemma2_to64};

verus! {

/// The pattern of positive infinity, which is also the least magnitude that
/// is not finite.
pub const INFINITE: u32 = 0x7f80_0000;

/// Number of binary digits of `n`: the least `l` with `n < 2^l`.
pub open spec fn bit_length(n: nat) -> nat
    decreases n,
{
    if n == 0 {
        0
    } else {
        1 + bit_length(n / 2)
    }
}

/// `n / d` rounded to the nearest integer, a tie going to the even one.
pub open spec fn nearest_even(n: nat, d: nat) -> nat {
    let q = n / d;
    let r = n % d;
    if 2 * r > d || (2 * r == d && q % 2 == 1) {
        q + 1
    } else {
        q
    }
}

/// The binade in which `n * 2^e` lies: the exponent of its last place once
/// it is written with a 24-bit significand, and 0 for what is smaller.
pub open spec fn binade_of(n: nat, e: int) -> nat {
    if n > 0 && bit_length(n) + e > 24 {
        (bit_length(n) + e - 24) as nat
    } else {
        0
    }
}

/// The significand of `n * 2^e` in binade `t`: `n * 2^(e - t)`, rounded to
/// an integer where it is none.
pub open spec fn significand_at(n: nat, e: int, t: nat) -> nat {
    if t >= e {
        nearest_even(n, pow2((t - e) as nat))
    } else {
        n * pow2((e - t) as nat)
    }
}

/// The magnitude pattern of the binary32 number nearest to `n * 2^e` (in
/// units of `2^-149`), ties to even; the pattern of infinity where the
/// rounded value is too large to be finite.
pub open spec fn round_dyadic(n: nat, e: int) -> nat {
    let t = binade_of(n, e);
    let m = t * 0x80_0000 + significand_at(n, e, t);
    if m >= 0x7f80_0000 {
        0x7f80_0000
    } else {
        m
    }
}

/// The magnitude pattern of the binary32 number nearest to
/// `num / den * 2^e`, ties to even, for a quotient `num / den` of more than
/// 24 digits before the point: the binade is that of the whole part of the
/// quotient, and the significand the exact quotient in the last place of
/// that binade, rounded.
pub open spec fn round_ratio(num: nat, den: nat, e: int) -> nat {
    let t = binade_of(num / den, e);
    let m = t * 0x80_0000 + nearest_even(num, den * pow2((t - e) as nat));
    if m >= 0x7f80_0000 {
        0x7f80_0000
    } else {
        m
    }
}

/// `2^k` as a machine integer.
pub fn pow2_u64(k: u32) -> (p: u64)
    requires
        k < 64,
    ensures
        p == pow2(k as nat),
        p >= 1,
{
    proof {
        lemma2_to64();
        lemma_pow2_pos(k as nat);
        lemma_pow2_strictly_increases(k as nat, 64);
        vstd::bits::lemma_u64_shl_is_mul(1, k as u64);
    }
    1u64 << k
}

/// `2^k` as a machine integer.
pub fn pow2_u128(k: u32) -> (p: u128)
    requires
        k < 128,
    ensures
        p == pow2(k as nat),
        p >= 1,
{
    if k < 64 {
        pow2_u64(k) as u128
    } else {
        proof {
            lemma2_to64();
            lemma_pow2_adds((k - 64) as nat, 64);
        }
        (pow2_u64(k - 64) as u128) * 0x1_0000_0000_0000_0000
    }
}

/// Proof that the digits of a 64-bit number are those that its leading
/// zeros leave.
pub proof fn lemma_leading_zeros(n: u64)
    ensures
        bit_length(n as nat) == 64 - vstd::std_specs::bits::u64_leading_zeros(n),
    decreases n,
{
    reveal(vstd::std_specs::bits::u64_leading_zeros);
    if n != 0 {
        lemma_leading_zeros(n / 2);
    }
}

/// Number of binary digits of `n`.
pub fn bit_length_u64(n: u64) -> (l: u32)
    ensures
        l == bit_length(n as nat),
        l <= 64,
        n > 0 ==> pow2((l - 1) as nat) <= n,
        l < 64 ==> n < pow2(l as nat),
{
    proof {
        lemma2_to64();
        lemma_leading_zeros(n);
        vstd::std_specs::bits::axiom_u64_leading_zeros(n);
        if n > 0 {
            lemma_bit_length_bounds(n as nat);
        }
    }
    64 - n.leading_zeros()
}

/// Number of binary digits of `n`.
pub fn bit_length_u128(n: u128) -> (l: u32)
    ensures
        l == bit_length(n as nat),
        l <= 128,
        n > 0 ==> pow2((l - 1) as nat) <= n,
        l < 128 ==> n < pow2(l as nat),
{
    proof {
        lemma2_to64();
        lemma_pow2_adds(64, 64);
    }
    if n == 0 {
        0
    } else if n < 0x1_0000_0000_0000_0000 {
        let low: u64 = n as u64;
        proof {
            lemma_leading_zeros(low);
            vstd::std_specs::bits::axiom_u64_leading_zeros(low);
            lemma_bit_length_bounds(n as nat);
        }
        64 - low.leading_zeros()
    } else {
        let shifted: u128 = n >> 64;
        proof {
            vstd::bits::lemma_u128_shr_is_div(n, 64);
            vstd::arithmetic::div_mod::lemma_fundamental_div_mod(n as int, pow2(64) as int);
            assert(shifted < 0x1_0000_0000_0000_0000) by (nonlinear_arith)
                requires
                    n == 0x1_0000_0000_0000_0000 * shifted + (n as int) % 0x1_0000_0000_0000_0000,
                    (n as int) % 0x1_0000_0000_0000_0000 >= 0,
                    n < 0x1_0000_0000_0000_0000_0000_0000_0000_0000,
            ;
        }
        let high: u64 = shifted as u64;
        proof {
            lemma_leading_zeros(high);
            vstd::std_specs::bits::axiom_u64_leading_zeros(high);
            lemma_bit_length_bounds(high as nat);
            let lh = bit_length(high as nat);
            lemma_pow2_adds((lh - 1) as nat, 64);
            lemma_pow2_adds(lh, 64);
            let w = pow2(64) as int;
            let r = (n as int) % w;
            assert(pow2((lh - 1) as nat) * w <= n && n < pow2(lh) * w) by (nonlinear_arith)
                requires
                    n == w * high + r,
                    0 <= r < w,
                    pow2((lh - 1) as nat) <= high < pow2(lh),
            ;
            lemma_bit_length_unique(n as nat, lh + 64);
        }
        128 - high.leading_zeros()
    }
}

/// Proof that a number below `2^l` keeps below `2^(l + k)` when it is
/// multiplied by `2^k`.
pub proof fn lemma_scale_below(n: nat, l: nat, k: nat)
    requires
        n < pow2(l),
    ensures
        n * pow2(k) < pow2(l + k),
{
    lemma_pow2_adds(l, k);
    lemma_pow2_pos(k);
    assert(n * pow2(k) < pow2(l) * pow2(k)) by (nonlinear_arith)
        requires
            n < pow2(l),
            pow2(k) > 0,
    ;
}

/// Proof that a number in `[2^(l-1), 2^l)` has `l` binary digits.
pub proof fn lemma_bit_length_unique(n: nat, l: nat)
    requires
        l > 0,
        pow2((l - 1) as nat) <= n < pow2(l),
    ensures
        bit_length(n) == l,
    decreases l,
{
    lemma_pow2_pos((l - 1) as nat);
    lemma_pow2_unfold(l);
    if l == 1 {
        lemma2_to64();
        assert(bit_length(0) == 0);
        assert(n / 2 == 0);
    } else {
        lemma_pow2_unfold((l - 1) as nat);
        lemma_bit_length_unique(n / 2, (l - 1) as nat);
    }
}

/// Proof that a 24-bit significand rounds to itself when less than a
/// quarter of a unit in its last place is added to it or taken from it: the
/// smaller operand of such a sum is absorbed.
pub proof fn lemma_absorbed(sa: nat, sb: nat, d: nat, lo: int, minus: bool)
    requires
        0x80_0000 <= sa < 0x100_0000,
        d >= 2,
        4 * sb < pow2(d),
        lo + d >= 0,
        minus ==> lo + d >= 1,
        (lo + d) * 0x80_0000 + sa < 0x7f80_0000,
    ensures
        sa * pow2(d) > sb,
        round_dyadic(
            if minus {
                (sa * pow2(d) - sb) as nat
            } else {
                sa * pow2(d) + sb
            },
            lo,
        ) == (lo + d) * 0x80_0000 + sa,
{
    lemma2_to64();
    let p = pow2(d);
    let h = pow2((d - 1) as nat);
    lemma_pow2_unfold(d);
    lemma_pow2_pos(d);
    if d > 2 {
        lemma_pow2_strictly_increases(2, d);
    }
    lemma_pow2_adds(23, d);
    lemma_pow2_adds(24, d);
    lemma_pow2_adds(22, d);
    assert(sa * p >= 0x80_0000 * p && sa * p + p <= 0x100_0000 * p) by (nonlinear_arith)
        requires
            0x80_0000 <= sa < 0x100_0000,
            p > 0,
    ;
    if !minus {
        let n = sa * p + sb;
        lemma_bit_length_unique(n, 24 + d);
        vstd::arithmetic::div_mod::lemma_fundamental_div_mod_converse(
            n as int,
            p as int,
            sa as int,
            sb as int,
        );
    } else if sb == 0 {
        let n = sa * p;
        lemma_bit_length_unique(n, 24 + d);
        vstd::arithmetic::div_mod::lemma_fundamental_div_mod_converse(
            n as int,
            p as int,
            sa as int,
            0,
        );
    } else if sa > 0x80_0000 {
        let n = (sa * p - sb) as nat;
        assert((sa - 1) * p + (p - sb) == n && (sa - 1) * p >= 0x80_0000 * p) by (nonlinear_arith)
            requires
                n == sa * p - sb,
                sa > 0x80_0000,
                p > 0,
        ;
        lemma_bit_length_unique(n, 24 + d);
        vstd::arithmetic::div_mod::lemma_fundamental_div_mod_converse(
            n as int,
            p as int,
            sa - 1,
            p - sb,
        );
    } else {
        let n = (sa * p - sb) as nat;
        assert(0xff_ffff * h + (h - sb) == n && 0x80_0000 * p == 0x100_0000 * h) by (nonlinear_arith)
            requires
                n == sa * p - sb,
                sa == 0x80_0000,
                p == 2 * h,
        ;
        lemma_pow2_adds(23, (d - 1) as nat);
        lemma_pow2_adds(24, (d - 1) as nat);
        assert(0x80_0000 * h <= 0xff_ffff * h) by (nonlinear_arith)
            requires
                h > 0,
        ;
        lemma_bit_length_unique(n, 23 + d);
        vstd::arithmetic::div_mod::lemma_fundamental_div_mod_converse(
            n as int,
            h as int,
            0xff_ffff,
            h - sb,
        );
    }
}

/// Proof that a number of at most 24 digits in a place that is not below
/// the first is rounded to itself: the value of the result is `n * 2^e`.
pub proof fn lemma_exact(n: nat, e: nat)
    requires
        n < 0x100_0000,
        e <= 230,
    ensures
        ({
            let m = round_dyadic(n, e as int);
            let t: nat = if m < 0x100_0000 {
                0
            } else {
                (m / 0x80_0000 - 1) as nat
            };
            &&& m < 0x7f80_0000
            &&& (m - t * 0x80_0000) * pow2(t) == n * pow2(e)
        }),
{
    lemma2_to64();
    if n == 0 {
        assert(0 * pow2(e) == 0 && 0 * pow2(0) == 0) by (nonlinear_arith);
    } else {
        let l = bit_length(n);
        lemma_bit_length_bounds(n);
        if l > 25 {
            lemma_pow2_strictly_increases(24, (l - 1) as nat);
        }
        assert(l <= 24);
        if l + e > 24 {
            let t = (l + e - 24) as nat;
            let k = (e - t) as nat;
            lemma_pow2_adds(k, t);
            lemma_scale_below(n, l, k);
            lemma_pow2_adds((l - 1) as nat, k);
            lemma_pow2_pos(k);
            let sig = n * pow2(k);
            assert(pow2((l - 1) as nat) * pow2(k) <= sig) by (nonlinear_arith)
                requires
                    pow2((l - 1) as nat) <= n,
                    sig == n * pow2(k),
                    pow2(k) > 0,
            ;
            assert(sig * pow2(t) == n * pow2(e)) by (nonlinear_arith)
                requires
                    sig == n * pow2(k),
                    pow2(e) == pow2(k) * pow2(t),
            ;
            let m = t * 0x80_0000 + sig;
            assert(m / 0x80_0000 == t + 1);
        } else {
            lemma_scale_below(n, l, e);
            if l + e < 24 {
                lemma_pow2_strictly_increases(l + e, 24);
            }
            assert(n * pow2(e) * pow2(0) == n * pow2(e)) by (nonlinear_arith)
                requires
                    pow2(0) == 1,
            ;
        }
    }
}

/// Proof that the significand of a rounded number is in range: at most
/// `2^24`, and at least `2^23` from the second binade on.
pub proof fn lemma_significand_bounds(n: nat, e: int)
    requires
        n > 0,
    ensures
        significand_at(n, e, binade_of(n, e)) <= 0x100_0000,
        binade_of(n, e) > 0 ==> significand_at(n, e, binade_of(n, e)) >= 0x80_0000,
{
    lemma2_to64();
    lemma_bit_length_bounds(n);
    let l = bit_length(n);
    let t = binade_of(n, e);
    if t >= e {
        let k = (t - e) as nat;
        let d = pow2(k);
        lemma_pow2_pos(k);
        if t > 0 {
            lemma_pow2_adds(23, k);
            lemma_pow2_adds(24, k);
            assert(0x80_0000 <= n / d < 0x100_0000) by (nonlinear_arith)
                requires
                    0x80_0000 * d <= n < 0x100_0000 * d,
                    d > 0,
            ;
        } else {
            lemma_pow2_adds(24, k);
            if l < 24 + k {
                lemma_pow2_strictly_increases(l, 24 + k);
            }
            assert(n / d < 0x100_0000) by (nonlinear_arith)
                requires
                    n < 0x100_0000 * d,
                    d > 0,
            ;
        }
    } else {
        let k = (e - t) as nat;
        lemma_scale_below(n, l, k);
        if t > 0 {
            lemma_pow2_adds((l - 1) as nat, k);
            lemma_pow2_pos(k);
            assert(pow2((l - 1) as nat) * pow2(k) <= n * pow2(k)) by (nonlinear_arith)
                requires
                    pow2((l - 1) as nat) <= n,
                    pow2(k) > 0,
            ;
        } else if l + k < 24 {
            lemma_pow2_strictly_increases(l + k, 24);
        }
    }
}

/// Proof that a significand in its binade is rounded to itself: the
/// pattern made of the two.
pub proof fn lemma_exact_parts(sig: nat, t: nat)
    requires
        sig < 0x100_0000,
        t > 0 ==> sig >= 0x80_0000,
    ensures
        round_dyadic(sig, t as int) == if t * 0x80_0000 + sig >= 0x7f80_0000 {
            0x7f80_0000
        } else {
            t * 0x80_0000 + sig
        },
{
    lemma2_to64();
    if sig == 0 {
    } else {
        lemma_bit_length_bounds(sig);
        let l = bit_length(sig);
        if l > 25 {
            lemma_pow2_strictly_increases(24, (l - 1) as nat);
        }
        if t > 0 {
            if l < 23 {
                lemma_pow2_strictly_increases(l, 23);
            }
            assert(l == 24);
        }
        assert(sig / 1 == sig && sig % 1 == 0);
    }
}

/// Proof that a number in a place two higher is rounded to the number two
/// binades higher, where the result is a normal number.
pub proof fn lemma_round_two_up(n: nat, e: int)
    requires
        n > 0,
        bit_length(n) + e > 24,
        round_dyadic(n, e + 2) < 0x7f80_0000,
    ensures
        round_dyadic(n, e + 2) == round_dyadic(n, e) + 0x100_0000,
{
}

/// Proof that four times a positive number has two digits more.
pub proof fn lemma_bit_length_times_four(n: nat)
    requires
        n > 0,
    ensures
        bit_length(4 * n) == bit_length(n) + 2,
{
    assert((4 * n) / 2 == 2 * n);
    assert((2 * n) / 2 == n);
    assert(bit_length(4 * n) == 1 + bit_length(2 * n));
    assert(bit_length(2 * n) == 1 + bit_length(n));
}

/// Proof that a positive number lies between the powers of two that its
/// number of digits names.
pub proof fn lemma_bit_length_bounds(n: nat)
    requires
        n > 0,
    ensures
        bit_length(n) > 0,
        pow2((bit_length(n) - 1) as nat) <= n < pow2(bit_length(n)),
    decreases n,
{
    lemma2_to64();
    if n == 1 {
        assert(bit_length(0) == 0);
        assert(n / 2 == 0);
    } else {
        lemma_bit_length_bounds(n / 2);
        lemma_pow2_unfold(bit_length(n));
        lemma_pow2_unfold(bit_length(n / 2));
    }
}

/// Rounds `n * 2^e`, in units of `2^-149`, to the nearest binary32
/// magnitude, ties to even, for an `n` of at most 63 digits.
pub fn round_pack_u64(n: u64, e: i32) -> (m: u32)
    requires
        n < 0x8000_0000_0000_0000,
        -1000 <= e <= 1000,
    ensures
        m == round_dyadic(n as nat, e as int),
        m <= INFINITE,
{
    let l: i32 = bit_length_u64(n) as i32;
    let t: i32 = if n > 0 && l + e > 24 {
        l + e - 24
    } else {
        0
    };
    proof {
        lemma2_to64();
        vstd::arithmetic::power2::lemma2_to64_rest();
    }
    let sig: u64 = if t >= e {
        let drop: i32 = t - e;
        if drop >= 64 {
            proof {
                let p = pow2(drop as nat);
                if drop > 64 {
                    lemma_pow2_strictly_increases(64, drop as nat);
                }
                vstd::arithmetic::div_mod::lemma_small_mod(n as nat, p);
                vstd::arithmetic::div_mod::lemma_basic_div(n as int, p as int);
            }
            0
        } else {
            let p: u64 = pow2_u64(drop as u32);
            let q: u64 = n >> (drop as u32);
            proof {
                vstd::bits::lemma_u64_shr_is_div(n, drop as u64);
                vstd::arithmetic::div_mod::lemma_fundamental_div_mod(n as int, p as int);
                lemma_pow2_strictly_increases(drop as nat, 64);
                assert(q * p <= n) by (nonlinear_arith)
                    requires
                        n == p * (n / p) + n % p,
                        q == n / p,
                        n % p >= 0,
                ;
            }
            let r: u64 = n - q * p;
            assert(r == n % p) by (nonlinear_arith)
                requires
                    n == p * (n / p) + n % p,
                    q == n / p,
                    r == n - q * p,
            ;
            if r > p - r || (r == p - r && q % 2 == 1) {
                q + 1
            } else {
                q
            }
        }
    } else {
        let shift: i32 = e - t;
        proof {
            if n > 0 {
                lemma_scale_below(n as nat, l as nat, shift as nat);
                if shift + l < 24 {
                    lemma_pow2_strictly_increases((shift + l) as nat, 24);
                }
            } else {
                assert(n * pow2(shift as nat) == 0) by (nonlinear_arith)
                    requires
                        n == 0,
                ;
            }
        }
        if n == 0 {
            0
        } else {
            n * pow2_u64(shift as u32)
        }
    };
    let m: u64 = (t as u64) * 0x80_0000 + sig;
    if m >= 0x7f80_0000 {
        INFINITE
    } else {
        m as u32
    }
}

/// Rounds `n * 2^e`, in units of `2^-149`, to the nearest binary32
/// magnitude, ties to even.
pub fn round_pack(n: u128, e: i32) -> (m: u32)
    requires
        n < 0x8000_0000_0000_0000_0000_0000_0000_0000,
        -1000 <= e <= 1000,
    ensures
        m == round_dyadic(n as nat, e as int),
        m <= INFINITE,
{
    if n < 0x8000_0000_0000_0000 {
        return round_pack_u64(n as u64, e);
    }
    let l: i32 = bit_length_u128(n) as i32;
    let t: i32 = if n > 0 && l + e > 24 {
        l + e - 24
    } else {
        0
    };
    proof {
        lemma2_to64();
        lemma_pow2_adds(64, 63);
        lemma_pow2_adds(64, 64);
        vstd::arithmetic::power2::lemma2_to64_rest();
    }
    let sig: u128 = if t >= e {
        let drop: i32 = t - e;
        if drop >= 128 {
            proof {
                let p = pow2(drop as nat);
                if drop > 128 {
                    lemma_pow2_strictly_increases(128, drop as nat);
                }
                vstd::arithmetic::div_mod::lemma_small_mod(n as nat, p);
                vstd::arithmetic::div_mod::lemma_basic_div(n as int, p as int);
            }
            0
        } else {
            let p: u128 = pow2_u128(drop as u32);
            let q: u128 = n >> (drop as u32);
            proof {
                vstd::bits::lemma_u128_shr_is_div(n, drop as u128);
                vstd::arithmetic::div_mod::lemma_fundamental_div_mod(n as int, p as int);
                lemma_pow2_strictly_increases(drop as nat, 128);
                assert(q * p <= n) by (nonlinear_arith)
                    requires
                        n == p * (n / p) + n % p,
                        q == n / p,
                        n % p >= 0,
                ;
            }
            let r: u128 = n - q * p;
            assert(r == n % p) by (nonlinear_arith)
                requires
                    n == p * (n / p) + n % p,
                    q == n / p,
                    r == n - q * p,
            ;
            if r > p - r || (r == p - r && q % 2 == 1) {
                q + 1
            } else {
                q
            }
        }
    } else {
        let shift: i32 = e - t;
        proof {
            if n > 0 {
                lemma_scale_below(n as nat, l as nat, shift as nat);
                if shift + l < 24 {
                    lemma_pow2_strictly_increases((shift + l) as nat, 24);
                }
            } else {
                assert(n * pow2(shift as nat) == 0) by (nonlinear_arith)
                    requires
                        n == 0,
                ;
            }
        }
        if n == 0 {
            0
        } else {
            n * pow2_u128(shift as u32)
        }
    };
    let m: u128 = (t as u128) * 0x80_0000 + sig;
    if m >= 0x7f80_0000 {
        INFINITE
    } else {
        m as u32
    }
}

} // verus!
