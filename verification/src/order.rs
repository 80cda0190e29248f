//! The arithmetic keeps the order of the numbers: rounding does, and so does
//! every operation in each argument that it rises with.

use vstd::prelude::*;
use vstd::arithmetic::power2::{pow2, lemma_pow2_pos, lemma_pow2_adds, lemma_pow2_strictly_increases, lemma2_to64};
use vstd::arithmetic::div_mod::{lemma_fundamental_div_mod, lemma_fundamental_div_mod_converse, lemma_div_is_ordered};
use crate::rounding::{bit_length, nearest_even, binade_of, significand_at, round_dyadic, lemma_bit_length_bounds, lemma_bit_length_unique, lemma_significand_bounds};
use crate::binary32::{binade, significand, scaled, pattern, whole_part, lemma_scaled_increases, lemma_less_by_rank};
use crate::arith::{add_spec, mul_spec, div_spec, fused_spec, fused_domain, aligned};

verus! {

/// Rounding to the nearest integer keeps the order.
pub proof fn lemma_nearest_even_increases(n1: nat, n2: nat, d: nat)
    requires
        n1 <= n2,
        d > 0,
    ensures
        nearest_even(n1, d) <= nearest_even(n2, d),
{
    lemma_fundamental_div_mod(n1 as int, d as int);
    lemma_fundamental_div_mod(n2 as int, d as int);
    lemma_div_is_ordered(n1 as int, n2 as int, d as int);
    let q1 = n1 / d;
    let q2 = n2 / d;
    let r1 = n1 % d;
    let r2 = n2 % d;
    if q1 == q2 {
        assert(r1 <= r2) by (nonlinear_arith)
            requires
                n1 == d * q1 + r1,
                n2 == d * q1 + r2,
                n1 <= n2,
        ;
    }
}

/// A quotient that is rounded does not change when both numbers are
/// multiplied alike.
pub proof fn lemma_nearest_even_scaled(n: nat, d: nat, c: nat)
    requires
        d > 0,
        c > 0,
    ensures
        nearest_even(n * c, d * c) == nearest_even(n, d),
{
    let q = n / d;
    let r = n % d;
    lemma_fundamental_div_mod(n as int, d as int);
    assert(n * c == q * (d * c) + r * c && r * c < d * c && d * c > 0) by (nonlinear_arith)
        requires
            n == d * q + r,
            0 <= r < d,
            c > 0,
    ;
    lemma_fundamental_div_mod_converse((n * c) as int, (d * c) as int, q as int, (r * c) as int);
    assert((2 * (r * c) > d * c) == (2 * r > d) && (2 * (r * c) == d * c) == (2 * r == d))
        by (nonlinear_arith)
        requires
            c > 0,
    ;
}

/// A multiple of the divisor is its own rounded quotient.
pub proof fn lemma_nearest_even_exact(n: nat, d: nat)
    requires
        d > 0,
    ensures
        nearest_even(n * d, d) == n,
{
    lemma_fundamental_div_mod_converse((n * d) as int, d as int, n as int, 0);
}

/// A quotient that is cut off, with one place more that records whether
/// anything was left over, is rounded as the exact quotient is: for
/// `n = q * d + rest` with `rest < d`, and a place of rounding at least two
/// above the last place of `q`, the number `2 q`, or `2 q + 1` where
/// `rest` is not zero, over `2^k` is rounded to what `2 n` over `d * 2^k`
/// is rounded to.
pub proof fn lemma_left_over_rounds_alike(n: nat, d: nat, k: nat)
    requires
        d > 0,
        k >= 2,
    ensures
        nearest_even(
            if n % d != 0 {
                2 * (n / d) + 1
            } else {
                2 * (n / d)
            },
            pow2(k),
        ) == nearest_even(2 * n, d * pow2(k)),
{
    let q = n / d;
    let rest = n % d;
    let s: nat = if rest != 0 {
        1
    } else {
        0
    };
    let big = pow2(k);
    let half = pow2((k - 1) as nat);
    let quarter = pow2((k - 2) as nat);
    vstd::arithmetic::power2::lemma_pow2_unfold(k);
    vstd::arithmetic::power2::lemma_pow2_unfold((k - 1) as nat);
    lemma_pow2_pos((k - 2) as nat);
    lemma_fundamental_div_mod(n as int, d as int);
    // 2 q = top * 2^k + 2 u with u < 2^(k-1)
    let top = q / half;
    let u = q % half;
    lemma_fundamental_div_mod(q as int, half as int);
    assert((2 * q + s) == top * big + (2 * u + s) && 2 * u + s < big) by (nonlinear_arith)
        requires
            q == half * top + u,
            0 <= u < half,
            big == 2 * half,
            s <= 1,
    ;
    lemma_fundamental_div_mod_converse((2 * q + s) as int, big as int, top as int, (2 * u + s) as int);
    assert(2 * n == top * (d * big) + (2 * u * d + 2 * rest) && 2 * u * d + 2 * rest < d * big && d
        * big > 0) by (nonlinear_arith)
        requires
            n == d * q + rest,
            0 <= rest < d,
            q == half * top + u,
            0 <= u < half,
            big == 2 * half,
            half > 0,
    ;
    lemma_fundamental_div_mod_converse(
        (2 * n) as int,
        (d * big) as int,
        top as int,
        (2 * u * d + 2 * rest) as int,
    );
    // the two remainders lie on the same side of the half
    assert((2 * (2 * u + s) > big) == (2 * (2 * u * d + 2 * rest) > d * big) && (2 * (2 * u + s)
        == big) == (2 * (2 * u * d + 2 * rest) == d * big)) by (nonlinear_arith)
        requires
            big == 4 * quarter,
            0 <= rest < d,
            s == if rest != 0 {
                1nat
            } else {
                0nat
            },
            u >= 0,
            quarter > 0,
    ;
}

/// A larger number has no fewer digits.
pub proof fn lemma_bit_length_increases(n1: nat, n2: nat)
    requires
        n1 <= n2,
    ensures
        bit_length(n1) <= bit_length(n2),
{
    if n1 > 0 {
        lemma_bit_length_bounds(n1);
        lemma_bit_length_bounds(n2);
        let l1 = bit_length(n1);
        let l2 = bit_length(n2);
        if l2 < l1 {
            if l2 < l1 - 1 {
                lemma_pow2_strictly_increases(l2, (l1 - 1) as nat);
            }
        }
    }
}

/// A positive number moved up by `k` places has `k` digits more.
pub proof fn lemma_bit_length_shifted(n: nat, k: nat)
    requires
        n > 0,
    ensures
        bit_length(n * pow2(k)) == bit_length(n) + k,
{
    lemma_bit_length_bounds(n);
    let l = bit_length(n);
    lemma_pow2_adds((l - 1) as nat, k);
    lemma_pow2_adds(l, k);
    lemma_pow2_pos(k);
    assert(pow2((l - 1) as nat) * pow2(k) <= n * pow2(k) < pow2(l) * pow2(k)) by (nonlinear_arith)
        requires
            pow2((l - 1) as nat) <= n < pow2(l),
            pow2(k) > 0,
    ;
    lemma_bit_length_unique(n * pow2(k), l + k);
}

/// Zero is rounded to zero.
pub proof fn lemma_round_zero(e: int)
    ensures
        round_dyadic(0, e) == 0,
{
    if e > 0 {
        assert(0 * pow2(e as nat) == 0) by (nonlinear_arith);
    } else {
        lemma_pow2_pos((-e) as nat);
    }
}

/// Rounding sees the value alone: `n` moved up by `k` places, in a place
/// `k` lower, is rounded as `n` is.
pub proof fn lemma_round_shifted(n: nat, k: nat, e: int)
    ensures
        round_dyadic(n * pow2(k), e) == round_dyadic(n, e + k),
{
    lemma_pow2_pos(k);
    if n == 0 {
        assert(n * pow2(k) == 0) by (nonlinear_arith)
            requires
                n == 0,
        ;
        lemma_round_zero(e);
        lemma_round_zero(e + k);
    } else {
        lemma_bit_length_shifted(n, k);
        let m = n * pow2(k);
        assert(m > 0) by (nonlinear_arith)
            requires
                m == n * pow2(k),
                n > 0,
                pow2(k) > 0,
        ;
        let t = binade_of(n, e + k);
        assert(binade_of(m, e) == t);
        if t >= e + k {
            let j = (t - e - k) as nat;
            lemma_pow2_adds(j, k);
            lemma_pow2_pos(j);
            lemma_nearest_even_scaled(n, pow2(j), pow2(k));
            assert(pow2((t - e) as nat) == pow2(j) * pow2(k));
            assert(significand_at(m, e, t) == nearest_even(m, pow2(j) * pow2(k)));
            assert(significand_at(n, e + k, t) == nearest_even(n, pow2(j)));
        } else if t >= e {
            let j = (t - e) as nat;
            let i = (e + k - t) as nat;
            lemma_pow2_adds(i, j);
            lemma_pow2_pos(j);
            assert(m == (n * pow2(i)) * pow2(j)) by (nonlinear_arith)
                requires
                    m == n * pow2(k),
                    pow2(k) == pow2(i) * pow2(j),
            ;
            lemma_nearest_even_exact(n * pow2(i), pow2(j));
            assert(significand_at(m, e, t) == nearest_even(m, pow2(j)));
            assert(significand_at(n, e + k, t) == n * pow2(i));
        } else {
            let j = (e - t) as nat;
            lemma_pow2_adds(k, j);
            assert(m * pow2(j) == n * pow2(k + j)) by (nonlinear_arith)
                requires
                    m == n * pow2(k),
                    pow2(k + j) == pow2(k) * pow2(j),
            ;
            assert(significand_at(m, e, t) == m * pow2(j));
            assert(significand_at(n, e + k, t) == n * pow2(k + j));
        }
    }
}

/// A number may be cut off before it is rounded, where one place more
/// records whether anything was cut off: for a number whose whole part
/// over `2^j` has more than 25 digits, it is rounded as twice that whole
/// part is, or twice that whole part and one where the number is no
/// multiple of `2^j`.
pub proof fn lemma_round_with_left_over(x: nat, j: nat, e: int)
    requires
        j >= 1,
        x / pow2(j) >= 0x200_0000,
    ensures
        round_dyadic(x, e) == round_dyadic(
            if x % pow2(j) != 0 {
                2 * (x / pow2(j)) + 1
            } else {
                2 * (x / pow2(j))
            },
            e + j - 1,
        ),
{
    let d = pow2(j);
    let q = x / d;
    let rest = x % d;
    let n: nat = if rest != 0 {
        2 * q + 1
    } else {
        2 * q
    };
    lemma2_to64();
    lemma_pow2_pos(j);
    lemma_fundamental_div_mod(x as int, d as int);
    // the digits of both
    lemma_bit_length_bounds(q);
    let lq = bit_length(q);
    if lq < 26 {
        lemma_pow2_strictly_increases(lq, 26);
    }
    assert(lq >= 26);
    assert(n / 2 == q);
    assert(bit_length(n) == lq + 1);
    lemma_pow2_adds((lq - 1) as nat, j);
    lemma_pow2_adds(lq, j);
    assert(pow2((lq - 1) as nat) * d <= x < pow2(lq) * d) by (nonlinear_arith)
        requires
            x == d * q + rest,
            0 <= rest < d,
            pow2((lq - 1) as nat) <= q < pow2(lq),
    ;
    lemma_bit_length_unique(x, lq + j);
    let t = binade_of(x, e);
    assert(binade_of(n, e + j - 1) == t);
    let k = (t - (e + j - 1)) as nat;
    assert(t - (e + j - 1) >= 2);
    lemma_left_over_rounds_alike(x, d, k);
    lemma_pow2_adds(j, k);
    lemma_pow2_adds(1, (t - e) as nat);
    lemma_pow2_pos((t - e) as nat);
    lemma_nearest_even_scaled(x, pow2((t - e) as nat), 2);
    assert(d * pow2(k) == pow2((t - e) as nat) * 2);
    assert(x * 2 == 2 * x);
    assert(significand_at(n, e + j - 1, t) == nearest_even(n, pow2(k)));
    assert(significand_at(x, e, t) == nearest_even(x, pow2((t - e) as nat)));
}

/// Rounding keeps the order of two numbers in the same place.
pub proof fn lemma_round_increases_in_place(n1: nat, n2: nat, e: int)
    requires
        n1 <= n2,
    ensures
        round_dyadic(n1, e) <= round_dyadic(n2, e),
{
    if n1 == 0 {
        lemma_round_zero(e);
    } else {
        lemma_bit_length_increases(n1, n2);
        lemma_significand_bounds(n1, e);
        lemma_significand_bounds(n2, e);
        let t1 = binade_of(n1, e);
        let t2 = binade_of(n2, e);
        let s1 = significand_at(n1, e, t1);
        let s2 = significand_at(n2, e, t2);
        assert(t1 <= t2);
        if t1 == t2 {
            if t1 >= e {
                lemma_pow2_pos((t1 - e) as nat);
                lemma_nearest_even_increases(n1, n2, pow2((t1 - e) as nat));
            } else {
                lemma_pow2_pos((e - t1) as nat);
                assert(n1 * pow2((e - t1) as nat) <= n2 * pow2((e - t1) as nat)) by (nonlinear_arith)
                    requires
                        n1 <= n2,
                        pow2((e - t1) as nat) > 0,
                ;
            }
            assert(s1 <= s2);
        } else {
            assert(t1 * 0x80_0000 + s1 <= t2 * 0x80_0000 + s2);
        }
    }
}

/// Rounding keeps the order: of two numbers `n1 * 2^e1 <= n2 * 2^e2`, the
/// first is rounded to no more than the second.
pub proof fn lemma_round_increases(n1: nat, e1: int, n2: nat, e2: int)
    requires
        e1 <= e2 ==> n1 <= n2 * pow2((e2 - e1) as nat),
        e1 > e2 ==> n1 * pow2((e1 - e2) as nat) <= n2,
    ensures
        round_dyadic(n1, e1) <= round_dyadic(n2, e2),
{
    if e1 <= e2 {
        lemma_round_shifted(n2, (e2 - e1) as nat, e1);
        lemma_round_increases_in_place(n1, n2 * pow2((e2 - e1) as nat), e1);
    } else {
        lemma_round_shifted(n1, (e1 - e2) as nat, e2);
        lemma_round_increases_in_place(n1 * pow2((e1 - e2) as nat), n2, e2);
    }
}

/// Proof that of two magnitudes the larger has no lower binade, and no
/// smaller significand once both are brought to the binade of the smaller.
pub proof fn lemma_parts_ordered(m1: nat, m2: nat)
    requires
        m1 <= m2,
    ensures
        binade(m1) <= binade(m2),
        significand(m1) <= significand(m2) * pow2((binade(m2) - binade(m1)) as nat),
{
    lemma2_to64();
    let t1 = binade(m1);
    let t2 = binade(m2);
    let s2 = significand(m2);
    let p = pow2((t2 - t1) as nat);
    if t1 == t2 {
        assert(s2 * p == s2) by (nonlinear_arith)
            requires
                p == 1,
        ;
    } else {
        if t2 - t1 > 1 {
            lemma_pow2_strictly_increases(1, (t2 - t1) as nat);
        }
        assert(s2 * p >= 0x100_0000) by (nonlinear_arith)
            requires
                s2 >= 0x80_0000,
                p >= 2,
        ;
    }
}

/// A product does not depend on the order of its factors.
pub proof fn lemma_mul_commutes(a: u32, b: u32)
    ensures
        mul_spec(a, b) == mul_spec(b, a),
{
    let sa = significand(crate::binary32::magnitude(a));
    let sb = significand(crate::binary32::magnitude(b));
    assert(sa * sb == sb * sa) by (nonlinear_arith);
}

/// A sum does not depend on the order of its terms.
pub proof fn lemma_add_commutes(a: u32, b: u32)
    ensures
        add_spec(a, b) == add_spec(b, a),
{
}

/// The sum of two negative numbers, the second of them finite and no zero,
/// is negative.
pub proof fn lemma_add_of_negatives(a: u32, b: u32)
    requires
        crate::binary32::is_negative(a),
        crate::binary32::is_negative(b),
        !crate::binary32::is_nan(a),
        crate::binary32::is_finite(b),
        !crate::binary32::is_zero(b),
    ensures
        crate::binary32::is_negative(add_spec(a, b)),
        whole_part(add_spec(a, b)) == 0,
{
    if crate::binary32::is_finite(a) {
        let ma = crate::binary32::magnitude(a);
        let mb = crate::binary32::magnitude(b);
        let lo = if binade(ma) <= binade(mb) {
            binade(ma)
        } else {
            binade(mb)
        };
        let pa = pow2((binade(ma) - lo) as nat);
        let pb = pow2((binade(mb) - lo) as nat);
        lemma_pow2_pos((binade(ma) - lo) as nat);
        lemma_pow2_pos((binade(mb) - lo) as nat);
        assert(significand(ma) * pa >= 0 && significand(mb) * pb > 0) by (nonlinear_arith)
            requires
                significand(mb) > 0,
                pa > 0,
                pb > 0,
        ;
    }
}

/// What is taken from a smaller number leaves nothing above zero: for
/// finite numbers `x < c` that are not negative, `x - c` has no whole part.
pub proof fn lemma_sub_below(x: u32, c: u32)
    requires
        x <= c < 0x7f80_0000,
    ensures
        whole_part(add_spec(x, pattern(true, c as nat))) == 0,
{
    let nc = pattern(true, c as nat);
    assert(crate::binary32::magnitude(nc) == c);
    lemma_parts_ordered(x as nat, c as nat);
    let sx = significand(x as nat);
    let sc = significand(c as nat);
    let tx = binade(x as nat);
    let tc = binade(c as nat);
    lemma2_to64();
    assert(sx * 1 == sx) by (nonlinear_arith);
    assert(aligned(x, tx) + aligned(nc, tx) == sx - sc * pow2((tc - tx) as nat));
    assert(crate::binary32::scaled(0) == 0) by (nonlinear_arith)
        requires
            crate::binary32::scaled(0) == 0 * pow2(0),
    ;
    lemma_pow2_pos(149);
}

/// A product rises with its second factor: for numbers that are not
/// negative, the first of them finite, `x1 <= x2` gives `c * x1 <= c * x2`,
/// but that zero times infinity is no number.
pub proof fn lemma_mul_increases(c: u32, x1: u32, x2: u32)
    requires
        c < 0x7f80_0000,
        x1 <= x2 <= 0x7f80_0000,
        x2 == 0x7f80_0000 ==> c > 0,
    ensures
        mul_spec(c, x1) <= mul_spec(c, x2) <= 0x7f80_0000,
{
    if x2 < 0x7f80_0000 {
        lemma_mul_increases_finite(c, x1, x2);
    } else if x1 < 0x7f80_0000 {
        lemma_mul_increases_finite(c, x1, x1);
    }
}

/// A product rises with its second factor, for finite numbers that are not
/// negative.
proof fn lemma_mul_increases_finite(c: u32, x1: u32, x2: u32)
    requires
        c < 0x7f80_0000,
        x1 <= x2 < 0x7f80_0000,
    ensures
        mul_spec(c, x1) <= mul_spec(c, x2) <= 0x7f80_0000,
{
    lemma_parts_ordered(x1 as nat, x2 as nat);
    let sc = significand(c as nat);
    let tc = binade(c as nat);
    let s1 = significand(x1 as nat);
    let s2 = significand(x2 as nat);
    let t1 = binade(x1 as nat);
    let t2 = binade(x2 as nat);
    let p = pow2((t2 - t1) as nat);
    assert(sc * s1 <= (sc * s2) * p) by (nonlinear_arith)
        requires
            s1 <= s2 * p,
    ;
    lemma_round_increases(sc * s1, tc + t1 - 149, sc * s2, tc + t2 - 149);
}

/// A sum of finite numbers that are not negative is the sum of their
/// significands, brought to the lower binade and rounded.
proof fn lemma_add_of_parts(c: u32, x: u32)
    requires
        c < 0x7f80_0000,
        x < 0x7f80_0000,
    ensures
        add_spec(c, x) == round_dyadic(
            significand(c as nat) * pow2(
                (binade(c as nat) - if binade(c as nat) <= binade(x as nat) {
                    binade(c as nat)
                } else {
                    binade(x as nat)
                }) as nat,
            ) + significand(x as nat) * pow2(
                (binade(x as nat) - if binade(c as nat) <= binade(x as nat) {
                    binade(c as nat)
                } else {
                    binade(x as nat)
                }) as nat,
            ),
            if binade(c as nat) <= binade(x as nat) {
                binade(c as nat) as int
            } else {
                binade(x as nat) as int
            },
        ),
        add_spec(c, x) <= 0x7f80_0000,
{
    let lo = if binade(c as nat) <= binade(x as nat) {
        binade(c as nat)
    } else {
        binade(x as nat)
    };
    lemma_round_zero(lo as int);
}

/// A sum rises with its second term: for numbers that are not negative,
/// the first of them finite, `x1 <= x2` gives `c + x1 <= c + x2`.
pub proof fn lemma_add_increases(c: u32, x1: u32, x2: u32)
    requires
        c < 0x7f80_0000,
        x1 <= x2 <= 0x7f80_0000,
    ensures
        add_spec(c, x1) <= add_spec(c, x2) <= 0x7f80_0000,
{
    if x2 == 0x7f80_0000 {
        if x1 < 0x7f80_0000 {
            lemma_add_of_parts(c, x1);
        }
    } else {
        lemma_add_increases_finite(c, x1, x2);
    }
}

/// A sum rises with its second term, for finite numbers that are not
/// negative.
proof fn lemma_add_increases_finite(c: u32, x1: u32, x2: u32)
    requires
        c < 0x7f80_0000,
        x1 <= x2 < 0x7f80_0000,
    ensures
        add_spec(c, x1) <= add_spec(c, x2) <= 0x7f80_0000,
{
    lemma_parts_ordered(x1 as nat, x2 as nat);
    let sc = significand(c as nat);
    let tc = binade(c as nat);
    let s1 = significand(x1 as nat);
    let s2 = significand(x2 as nat);
    let t1 = binade(x1 as nat);
    let t2 = binade(x2 as nat);
    let lo1 = if tc <= t1 {
        tc
    } else {
        t1
    };
    let lo2 = if tc <= t2 {
        tc
    } else {
        t2
    };
    let n1 = sc * pow2((tc - lo1) as nat) + s1 * pow2((t1 - lo1) as nat);
    let n2 = sc * pow2((tc - lo2) as nat) + s2 * pow2((t2 - lo2) as nat);
    assert(aligned(c, lo1) + aligned(x1, lo1) == n1);
    assert(aligned(c, lo2) + aligned(x2, lo2) == n2);
    lemma_round_zero(lo1 as int);
    lemma_round_zero(lo2 as int);
    assert(add_spec(c, x1) == round_dyadic(n1, lo1 as int));
    assert(add_spec(c, x2) == round_dyadic(n2, lo2 as int));
    let k = (lo2 - lo1) as nat;
    let p = pow2(k);
    lemma_pow2_adds((tc - lo2) as nat, k);
    lemma_pow2_adds((t2 - lo2) as nat, k);
    lemma_pow2_adds((t1 - lo1) as nat, (t2 - t1) as nat);
    let pc = pow2((tc - lo2) as nat);
    let pb = pow2((t2 - lo2) as nat);
    let pa = pow2((t1 - lo1) as nat);
    let pd = pow2((t2 - t1) as nat);
    assert(n1 <= n2 * p) by (nonlinear_arith)
        requires
            n1 == sc * (pc * p) + s1 * pa,
            n2 == sc * pc + s2 * pb,
            pb * p == pa * pd,
            s1 <= s2 * pd,
            pa >= 0,
    ;
    lemma_round_increases(n1, lo1 as int, n2, lo2 as int);
}

/// A difference rises with the number that is taken from: for finite
/// numbers `c <= x1 <= x2` that are not negative, `x1 - c <= x2 - c`, and
/// neither is negative.
pub proof fn lemma_sub_increases(x1: u32, x2: u32, c: u32)
    requires
        c <= x1 <= x2 < 0x7f80_0000,
    ensures
        add_spec(x1, pattern(true, c as nat)) <= add_spec(x2, pattern(true, c as nat)) < 0x7f80_0000,
{
    let nc = pattern(true, c as nat);
    assert(crate::binary32::magnitude(nc) == c);
    lemma_parts_ordered(x1 as nat, x2 as nat);
    lemma_parts_ordered(c as nat, x1 as nat);
    lemma_parts_ordered(c as nat, x2 as nat);
    let sc = significand(c as nat);
    let tc = binade(c as nat);
    let s1 = significand(x1 as nat);
    let s2 = significand(x2 as nat);
    let t1 = binade(x1 as nat);
    let t2 = binade(x2 as nat);
    let pa = pow2((t1 - tc) as nat);
    let pb = pow2((t2 - tc) as nat);
    let pd = pow2((t2 - t1) as nat);
    lemma2_to64();
    lemma_pow2_adds((t1 - tc) as nat, (t2 - t1) as nat);
    let n1 = (s1 * pa - sc) as nat;
    let n2 = (s2 * pb - sc) as nat;
    assert(sc * 1 == sc) by (nonlinear_arith);
    assert(aligned(x1, tc) + aligned(nc, tc) == s1 * pa - sc);
    assert(aligned(x2, tc) + aligned(nc, tc) == s2 * pb - sc);
    lemma_round_zero(tc as int);
    assert(add_spec(x1, nc) == round_dyadic(n1, tc as int));
    assert(add_spec(x2, nc) == round_dyadic(n2, tc as int));
    assert(n1 <= n2) by (nonlinear_arith)
        requires
            n1 == s1 * pa - sc,
            n2 == s2 * pb - sc,
            pb == pa * pd,
            s1 <= s2 * pd,
            pa >= 0,
    ;
    lemma_round_increases_in_place(n1, n2, tc as int);
    // the difference is no more than the number that is taken from
    lemma_round_increases_in_place(n2, s2 * pb, tc as int);
    lemma_round_shifted(s2, (t2 - tc) as nat, tc as int);
    crate::rounding::lemma_exact_parts(s2, t2);
}

/// A quotient rises with the number that is divided: for numbers that are
/// not negative and a finite positive divisor, `a1 <= a2` gives
/// `a1 / b <= a2 / b`.
pub proof fn lemma_div_increases(a1: u32, a2: u32, b: u32)
    requires
        a1 <= a2 <= 0x7f80_0000,
        0 < b < 0x7f80_0000,
    ensures
        div_spec(a1, b) <= div_spec(a2, b) <= 0x7f80_0000,
{
    let sb = significand(b as nat);
    let tb = binade(b as nat);
    let w: nat = 0x1_0000_0000_0000_0000;
    if a2 == 0x7f80_0000 {
    } else {
        lemma_parts_ordered(a1 as nat, a2 as nat);
        let s1 = significand(a1 as nat);
        let s2 = significand(a2 as nat);
        let t1 = binade(a1 as nat);
        let t2 = binade(a2 as nat);
        let q1 = (s1 * w) / sb;
        let q2 = (s2 * w) / sb;
        let r1 = (s1 * w) % sb;
        let r2 = (s2 * w) % sb;
        lemma_fundamental_div_mod((s1 * w) as int, sb as int);
        lemma_fundamental_div_mod((s2 * w) as int, sb as int);
        let n1: nat = if r1 != 0 {
            2 * q1 + 1
        } else {
            2 * q1
        };
        let n2: nat = if r2 != 0 {
            2 * q2 + 1
        } else {
            2 * q2
        };
        crate::arith::lemma_div_by_left_over(a1, b);
        crate::arith::lemma_div_by_left_over(a2, b);
        assert(div_spec(a1, b) == round_dyadic(n1, t1 - tb + 84));
        assert(div_spec(a2, b) == round_dyadic(n2, t2 - tb + 84));
        let p = pow2((t2 - t1) as nat);
        lemma2_to64();
        if t1 == t2 {
            assert(s1 <= s2) by (nonlinear_arith)
                requires
                    s1 <= s2 * p,
                    p == 1,
            ;
            assert(q1 < q2 || (q1 == q2 && r1 <= r2)) by (nonlinear_arith)
                requires
                    s1 * w == sb * q1 + r1,
                    s2 * w == sb * q2 + r2,
                    0 <= r1 < sb,
                    0 <= r2 < sb,
                    s1 <= s2,
                    w > 0,
            ;
            assert(n2 * p == n2) by (nonlinear_arith)
                requires
                    p == 1,
            ;
        } else {
            if t2 - t1 > 1 {
                lemma_pow2_strictly_increases(1, (t2 - t1) as nat);
            }
            assert(q1 < 2 * q2) by (nonlinear_arith)
                requires
                    s1 * w == sb * q1 + r1,
                    s2 * w == sb * q2 + r2,
                    0 <= r1 < sb,
                    0 <= r2 < sb,
                    s1 < 0x100_0000,
                    s2 >= 0x80_0000,
                    0 < sb < 0x100_0000,
                    w == 0x1_0000_0000_0000_0000,
            ;
            assert(n1 <= n2 * p) by (nonlinear_arith)
                requires
                    n1 <= 2 * q1 + 1,
                    n2 >= 2 * q2,
                    q1 < 2 * q2,
                    p >= 2,
            ;
        }
        lemma_round_increases(n1, t1 - tb + 84, n2, t2 - tb + 84);
    }
}

/// A fused multiply-add rises with its first factor.
pub proof fn lemma_fused_increases(x1: u32, x2: u32, k: u32, c: u32)
    requires
        x1 <= x2,
        fused_domain(x2, k, c),
    ensures
        fused_domain(x1, k, c),
        fused_spec(x1, k, c) <= fused_spec(x2, k, c) <= 0x7f80_0000,
{
    lemma_parts_ordered(x1 as nat, x2 as nat);
    crate::arith::lemma_fused_not_negative(x1, k, c);
    crate::arith::lemma_fused_not_negative(x2, k, c);
    let sk = significand(k as nat);
    let tk = binade(k as nat);
    let sc = significand(c as nat);
    let tc = binade(c as nat);
    let s1 = significand(x1 as nat);
    let s2 = significand(x2 as nat);
    let t1 = binade(x1 as nat);
    let t2 = binade(x2 as nat);
    let e1 = t1 + tk - 149;
    let e2 = t2 + tk - 149;
    let pa = pow2((tc - e1) as nat);
    let pb = pow2((tc - e2) as nat);
    let pd = pow2((t2 - t1) as nat);
    lemma_pow2_adds((tc - e2) as nat, (t2 - t1) as nat);
    let n1 = sc * pa + s1 * sk;
    let n2 = sc * pb + s2 * sk;
    assert(n1 <= n2 * pd) by (nonlinear_arith)
        requires
            n1 == sc * pa + s1 * sk,
            n2 == sc * pb + s2 * sk,
            pa == pb * pd,
            s1 <= s2 * pd,
    ;
    lemma_round_increases(n1, e1, n2, e2);
}

/// The whole part rises with the number, for numbers that are not
/// negative.
pub proof fn lemma_whole_increases(v1: u32, v2: u32)
    requires
        v1 <= v2 <= 0x7f80_0000,
    ensures
        whole_part(v1) <= whole_part(v2),
{
    if v1 < v2 {
        lemma_scaled_increases(v1 as nat, v2 as nat);
    }
    lemma_pow2_pos(149);
    lemma_div_is_ordered(scaled(v1 as nat) as int, scaled(v2 as nat) as int, pow2(149) as int);
}

/// The whole part of `g * p - c` rises with `p`, for a finite positive
/// factor `g` and a finite positive `c`: of two numbers `lower <= upper`, the
/// first gives no larger whole part, and what is not above zero gives none.
pub proof fn lemma_scaled_whole_increases(g: u32, c: u32, lower: u32, upper: u32)
    requires
        0 < g < 0x7f80_0000,
        0 < c < 0x7f80_0000,
        !crate::binary32::is_nan(lower),
        !crate::binary32::is_nan(upper),
        !crate::binary32::less(upper, lower),
    ensures
        whole_part(add_spec(mul_spec(g, lower), pattern(true, c as nat))) <= whole_part(
            add_spec(mul_spec(g, upper), pattern(true, c as nat)),
        ),
        !crate::binary32::less(0, lower) ==> whole_part(
            add_spec(mul_spec(g, lower), pattern(true, c as nat)),
        ) == 0,
{
    let nc = pattern(true, c as nat);
    assert(crate::binary32::magnitude(nc) == c);
    lemma_less_by_rank(upper, lower);
    lemma_less_by_rank(0, lower);
    lemma_less_by_rank(0, upper);
    let m1 = mul_spec(g, lower);
    let m2 = mul_spec(g, upper);
    if !crate::binary32::less(0, lower) {
        // the product is a zero or negative
        if crate::binary32::is_zero(lower) {
            assert(significand(g as nat) * 0 == 0) by (nonlinear_arith);
            lemma_round_zero(binade(g as nat) + 0 - 149);
            assert(crate::binary32::is_zero(m1));
            crate::arith::lemma_add_to_zero(m1, nc);
        } else {
            assert(crate::binary32::is_negative(m1));
            if crate::binary32::is_zero(m1) {
                crate::arith::lemma_add_to_zero(m1, nc);
            } else {
                lemma_add_of_negatives(m1, nc);
            }
        }
    } else {
        lemma_mul_increases(g, lower, upper);
        if m1 < c {
            lemma_sub_below(m1, c);
        } else if m2 < 0x7f80_0000 {
            lemma_sub_increases(m1, m2, c);
            lemma_whole_increases(add_spec(m1, nc), add_spec(m2, nc));
        } else {
            if m1 < 0x7f80_0000 {
                lemma_sub_increases(m1, m1, c);
            }
            lemma_whole_increases(add_spec(m1, nc), add_spec(m2, nc));
        }
    }
}

} // verus!
