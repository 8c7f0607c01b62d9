//! Ratios and percentages as double-precision arithmetic yields them.
//!
//! Each operation on binary64 numbers rounds its exact result to 53 significant bits,
//! ties to even. Here such a result is kept as an integer, or as an integer over a power
//! of two, so that the rounding is plain integer arithmetic.

use vstd::arithmetic::power2::pow2;
use vstd::prelude::*;

verus! {

/// Two to the power 52: the least integer that needs all 53 bits.
pub const LEAST: u128 = 0x10_0000_0000_0000;

/// Two to the power 53: the first integer that 53 bits do not hold.
pub const LIMIT: u128 = 0x20_0000_0000_0000;

/// The integer nearest to `n / d`, the even one of two that are equally near.
pub open spec fn nearest(n: nat, d: nat) -> nat {
    let q = n / d;
    let r = n % d;
    if 2 * r < d || (2 * r == d && q % 2 == 0) {
        q
    } else {
        q + 1
    }
}

/// How many low bits of `n` are beyond the 53 that are kept.
pub open spec fn excess_bits(n: nat) -> nat
    decreases n,
{
    if n < LIMIT {
        0
    } else {
        1 + excess_bits(n / 2)
    }
}

/// `n` rounded to 53 significant bits.
pub open spec fn rounded(n: nat) -> nat {
    let unit = pow2(excess_bits(n));
    nearest(n, unit) * unit
}

/// The least `e` for which `n * 2^e / d` reaches [`LEAST`].
pub open spec fn scale(n: nat, d: nat) -> nat
    decreases
            if n < LEAST * d {
                (LEAST * d - n) as nat
            } else {
                0
            },
{
    if n == 0 || n >= LEAST * d {
        0
    } else {
        1 + scale(2 * n, d)
    }
}

/// The 53 bits of `n / d`, to be divided by two to the power [`scale`]; for `n / d` below
/// [`LIMIT`].
pub open spec fn quotient_bits(n: nat, d: nat) -> nat {
    nearest(n * pow2(scale(n, d)), d)
}

/// `weight as f64 / total as f64 * 100.0`, to the nearest integer.
pub open spec fn percent(weight: nat, total: nat) -> nat {
    let t = rounded(total);
    nearest(rounded(100 * quotient_bits(weight, t)), pow2(scale(weight, t)))
}

/// `part as f64 * 100.0 / whole as f64`, to the nearest tenth, in tenths.
pub open spec fn percent_tenths(part: nat, whole: nat) -> nat {
    if part == 0 {
        0
    } else {
        let p = rounded(100 * rounded(part));
        let w = rounded(whole);
        nearest(10 * quotient_bits(p, w), pow2(scale(p, w)))
    }
}

/// The bit pattern of `part as f64 / whole as f64`, for a part of the whole: 11 bits of
/// exponent, biased by 1023, above the 52 bits that follow the leading one.
pub open spec fn ratio_bits(part: nat, whole: nat) -> nat {
    if part == 0 {
        0
    } else {
        let p = rounded(part);
        let w = rounded(whole);
        ((1075 - scale(p, w)) * LEAST + (quotient_bits(p, w) - LEAST)) as nat
    }
}

/// The integer nearest to `n / d`.
fn nearest_to(n: u128, d: u128) -> (r: u128)
    requires
        0 < d,
        d <= u128::MAX / 4,
        n <= u128::MAX / 4,
    ensures
        r == nearest(n as nat, d as nat),
        r <= n / d + 1,
{
    let q = n / d;
    let r = n % d;
    assert(q <= n) by (nonlinear_arith)
        requires
            q == n / d,
            d > 0,
    ;
    if 2 * r < d || (2 * r == d && q % 2 == 0) {
        q
    } else {
        q + 1
    }
}

/// The number that [`nearest`] gives is off by at most a half.
proof fn lemma_nearest(n: nat, d: nat)
    requires
        d > 0,
    ensures
        2 * (nearest(n, d) * d) <= 2 * n + d,
        2 * n <= 2 * (nearest(n, d) * d) + d,
{
    let q = n / d;
    let r = n % d;
    assert(n == q * d + r) by {
        vstd::arithmetic::div_mod::lemma_fundamental_div_mod(n as int, d as int);
        assert(d * q == q * d) by (nonlinear_arith);
    }
    assert((q + 1) * d == q * d + d) by (nonlinear_arith);
}

/// What is less than a half away from `k` is rounded to `k`.
proof fn lemma_nearest_is(n: nat, d: nat, k: nat)
    requires
        d > 0,
        2 * n < 2 * (k * d) + d,
        2 * (k * d) < 2 * n + d,
    ensures
        nearest(n, d) == k,
{
    lemma_nearest(n, d);
    let m = nearest(n, d);
    assert(m == k) by (nonlinear_arith)
        requires
            2 * (m * d) < 2 * (k * d) + 2 * d,
            2 * (k * d) < 2 * (m * d) + 2 * d,
            d > 0,
    ;
}

/// `n` rounded to 53 significant bits.
fn round(n: u128) -> (r: u128)
    requires
        n < 0x1_0000_0000_0000_0000_0000,
    ensures
        r == rounded(n as nat),
        r <= 2 * n,
        n <= 2 * r,
{
    let mut m: u128 = n;
    let mut unit: u128 = 1;
    let ghost mut k: nat = 0;
    proof {
        vstd::arithmetic::power2::lemma2_to64();
    }
    while m >= LIMIT
        invariant
            n < 0x1_0000_0000_0000_0000_0000,
            excess_bits(n as nat) == k + excess_bits(m as nat),
            unit == pow2(k),
            unit >= 1,
            m * unit <= n,
            n > 0 ==> m > 0,
        decreases m,
    {
        assert((m / 2) * (2 * unit) <= m * unit) by (nonlinear_arith);
        assert(2 * unit <= n) by (nonlinear_arith)
            requires
                (m / 2) * (2 * unit) <= n,
                m / 2 >= 1,
        ;
        proof {
            vstd::arithmetic::power2::lemma_pow2_unfold(k + 1);
            k = k + 1;
        }
        m = m / 2;
        unit = 2 * unit;
    }
    assert(n > 0 ==> unit <= n) by (nonlinear_arith)
        requires
            m * unit <= n,
            n > 0 ==> m > 0,
            unit >= 1,
    ;
    let q = nearest_to(n, unit);
    assert(q * unit <= n + unit) by (nonlinear_arith)
        requires
            q <= n / unit + 1,
            unit >= 1,
    ;
    proof {
        lemma_nearest(n as nat, unit as nat);
        if n == 0 {
            assert(q * unit == 0) by (nonlinear_arith)
                requires
                    q == 0,
            ;
        } else {
            assert(2 * n <= 2 * (q * unit) + unit);
        }
    }
    q * unit
}

/// The 53 bits of `n / d`, the power of two that divides them, and its exponent.
fn divide(n: u128, d: u128) -> (r: (u128, u128, u64))
    requires
        0 < n < 0x1_0000_0000_0000_0000_0000,
        0 < d <= 0x2_0000_0000_0000_0000,
    ensures
        r.0 == quotient_bits(n as nat, d as nat),
        r.1 == pow2(scale(n as nat, d as nat)),
        r.2 == scale(n as nat, d as nat),
        0 < r.1 < 0x100_0000_0000_0000_0000_0000_0000_0000,
        r.2 < 120,
        r.0 <= LIMIT + n + 1,
        n < LIMIT * d ==> r.0 <= LIMIT,
{
    let top: u128 = LEAST * d;
    let mut a: u128 = n;
    let mut s: u128 = 1;
    let mut k: u64 = 0;
    proof {
        vstd::arithmetic::power2::lemma2_to64();
    }
    while a < top
        invariant
            top == LEAST * d,
            0 < n < 0x1_0000_0000_0000_0000_0000,
            0 < d <= 0x2_0000_0000_0000_0000,
            scale(n as nat, d as nat) == k + scale(a as nat, d as nat),
            s == pow2(k as nat),
            a == n * s,
            0 < s <= a,
            k < 120,
            a < 2 * top || a == n,
        decreases (if a < top { top - a } else { 0 }),
    {
        proof {
            vstd::arithmetic::power2::lemma_pow2_unfold((k + 1) as nat);
            lemma_exponent((k + 1) as nat);
        }
        assert(n * (2 * s) == 2 * (n * s)) by (nonlinear_arith);
        a = 2 * a;
        s = 2 * s;
        k = k + 1;
    }
    let m = nearest_to(a, d);
    proof {
        lemma_nearest(a as nat, d as nat);
        if a == n {
            assert(a / d <= a) by (nonlinear_arith)
                requires
                    d > 0,
            ;
        }
        if a < LIMIT * d {
            assert(m <= LIMIT) by (nonlinear_arith)
                requires
                    2 * (m * d) <= 2 * a + d,
                    a < LIMIT * d,
                    d > 0,
            ;
        }
    }
    (m, s, k)
}

/// A power of two below two to the power 120 has an exponent below 120.
proof fn lemma_exponent(k: nat)
    requires
        pow2(k) < 0x100_0000_0000_0000_0000_0000_0000_0000,
    ensures
        k < 120,
{
    vstd::arithmetic::power2::lemma2_to64();
    vstd::arithmetic::power2::lemma2_to64_rest();
    vstd::arithmetic::power2::lemma_pow2_adds(60, 60);
    assert(pow2(120) == pow2(60) * pow2(60));
    assert(pow2(60) == 0x1000_0000_0000_0000);
    if k > 120 {
        vstd::arithmetic::power2::lemma_pow2_strictly_increases(120, k);
    }
}

/// The share of `weight` in `total`, in percent.
pub fn percent_of(weight: u32, total: u64) -> (r: u128)
    requires
        0 < weight <= total,
    ensures
        r == percent(weight as nat, total as nat),
{
    let t = round(total as u128);
    let (m, s, _) = divide(weight as u128, t);
    nearest_to(round(100 * m), s)
}

/// The share of `part` in `whole`, in tenths of a percent.
pub fn percent_tenths_of(part: u64, whole: u64) -> (r: u128)
    requires
        part <= whole,
    ensures
        r == percent_tenths(part as nat, whole as nat),
{
    if part == 0 {
        return 0;
    }
    let p = round(100 * round(part as u128));
    let w = round(whole as u128);
    let (m, s, _) = divide(p, w);
    nearest_to(10 * m, s)
}

/// The bit pattern of the ratio of `part` to `whole`.
pub fn ratio_of(part: u64, whole: u64) -> (r: u64)
    requires
        part <= whole,
    ensures
        r == ratio_bits(part as nat, whole as nat),
{
    if part == 0 {
        return 0;
    }
    let p = round(part as u128);
    let w = round(whole as u128);
    assert(p < LIMIT * w) by (nonlinear_arith)
        requires
            p <= 4 * w,
            w > 0,
    ;
    let (m, _, e) = divide(p, w);
    assert((1075 - e) * LEAST + (m - LEAST) == (1074 - e) * LEAST + m) by (nonlinear_arith);
    assert((1074 - e) * LEAST <= 1074 * LEAST) by (nonlinear_arith)
        requires
            0 <= e,
    ;
    (1074 - e) * (LEAST as u64) + (m as u64)
}

/// `rounded` is off by at most half of the unit of the last bit that is kept.
proof fn lemma_rounded(n: nat)
    requires
        LEAST <= n < LIMIT * 128,
    ensures
        2 * rounded(n) <= 2 * n + 128,
        2 * n <= 2 * rounded(n) + 128,
{
    let k = excess_bits(n);
    reveal_with_fuel(excess_bits, 9);
    vstd::arithmetic::power2::lemma2_to64();
    lemma_nearest(n, pow2(k));
}

/// Scaled, `n / d` lies between [`LEAST`] and [`LIMIT`].
proof fn lemma_scale(n: nat, d: nat)
    requires
        0 < n < LIMIT * d,
    ensures
        LEAST * d <= n * pow2(scale(n, d)) < LIMIT * d,
    decreases
            if n < LEAST * d {
                (LEAST * d - n) as nat
            } else {
                0
            },
{
    vstd::arithmetic::power2::lemma2_to64();
    if n < LEAST * d {
        lemma_scale(2 * n, d);
        let e = scale(2 * n, d);
        vstd::arithmetic::power2::lemma_pow2_unfold(e + 1);
        assert(n * (2 * pow2(e)) == (2 * n) * pow2(e)) by (nonlinear_arith);
        assert(scale(n, d) == e + 1);
    } else {
        assert(n * pow2(0) == n);
    }
}

/// Of a total of 100, every weight is its own percentage.
pub proof fn percent_of_hundred(weight: nat)
    requires
        0 < weight <= 100,
    ensures
        percent(weight, 100) == weight,
{
    vstd::arithmetic::power2::lemma2_to64();
    assert(rounded(100) == 100) by {
        let unit = pow2(excess_bits(100));
        assert(unit == 1);
        assert(nearest(100, unit) == 100);
        assert(100 * unit == 100);
        assert(rounded(100) == nearest(100, unit) * unit);
    }
    let e = scale(weight, 100);
    let p = pow2(e);
    lemma_scale(weight, 100);
    let m = quotient_bits(weight, 100);
    lemma_nearest(weight * p, 100);
    lemma_rounded(100 * m);
    let n = rounded(100 * m);
    assert(p >= LEAST) by (nonlinear_arith)
        requires
            LEAST * 100 <= weight * p,
            0 < weight <= 100,
    ;
    lemma_nearest_is(n, p, weight);
}

/// The unit of the last bit that is kept is no more than the number itself.
proof fn lemma_unit(n: nat)
    requires
        n > 0,
    ensures
        0 < pow2(excess_bits(n)) <= n,
    decreases n,
{
    vstd::arithmetic::power2::lemma2_to64();
    if n >= LIMIT {
        lemma_unit(n / 2);
        vstd::arithmetic::power2::lemma_pow2_unfold(excess_bits(n));
    }
}

/// Rounding leaves a positive number positive.
proof fn lemma_rounded_positive(n: nat)
    requires
        n > 0,
    ensures
        rounded(n) > 0,
{
    lemma_unit(n);
    lemma_nearest(n, pow2(excess_bits(n)));
}

/// The whole of it is the ratio one, whose exponent is 0, and nothing of it the ratio zero.
pub proof fn ratio_of_all_and_nothing(whole: nat)
    requires
        whole > 0,
    ensures
        ratio_bits(whole, whole) == 1023 * LEAST,
        ratio_bits(0, whole) == 0,
{
    let w = rounded(whole);
    lemma_rounded_positive(whole);
    assert(w < LIMIT * w) by (nonlinear_arith)
        requires
            w > 0,
    ;
    lemma_scale(w, w);
    let e = scale(w, w);
    assert(LEAST <= pow2(e) < LIMIT) by (nonlinear_arith)
        requires
            LEAST * w <= w * pow2(e) < LIMIT * w,
            w > 0,
    ;
    vstd::arithmetic::power2::lemma2_to64();
    vstd::arithmetic::power2::lemma2_to64_rest();
    if e < 52 {
        vstd::arithmetic::power2::lemma_pow2_strictly_increases(e, 52);
    }
    if e > 53 {
        vstd::arithmetic::power2::lemma_pow2_strictly_increases(53, e);
    }
    assert(pow2(e) == LEAST);
    assert(w * LEAST == LEAST * w) by (nonlinear_arith);
    lemma_nearest_is(w * pow2(e), w, LEAST as nat);
}

/// A number that loses bits is at least [`LEAST`] units of its last kept bit.
proof fn lemma_units(n: nat)
    requires
        n >= LIMIT,
    ensures
        n >= LEAST * pow2(excess_bits(n)),
    decreases n,
{
    let half = n / 2;
    let unit = pow2(excess_bits(half));
    vstd::arithmetic::power2::lemma2_to64();
    vstd::arithmetic::power2::lemma_pow2_unfold(excess_bits(n));
    assert(pow2(excess_bits(n)) == 2 * unit);
    if half >= LIMIT {
        lemma_units(half);
    } else {
        assert(unit == 1);
    }
    assert(half >= LEAST * unit);
}

/// Rounding moves a number by at most a part in [`LIMIT`] of it.
proof fn lemma_rounded_close(n: nat)
    ensures
        LIMIT * rounded(n) <= (LIMIT + 1) * n,
        (LIMIT - 1) * n <= LIMIT * rounded(n),
{
    vstd::arithmetic::power2::lemma2_to64();
    let unit = pow2(excess_bits(n));
    if n < LIMIT {
        assert(unit == 1);
        assert(nearest(n, 1) == n);
        assert(nearest(n, 1) * 1 == n);
    } else {
        lemma_units(n);
        lemma_unit(n);
        lemma_nearest(n, unit);
    }
}

/// A quotient is moved by at most a part in [`LIMIT`] of it.
proof fn lemma_quotient_close(n: nat, d: nat)
    requires
        0 < n < LIMIT * d,
    ensures
        LIMIT * (quotient_bits(n, d) * d) <= (LIMIT + 1) * (n * pow2(scale(n, d))),
        (LIMIT - 1) * (n * pow2(scale(n, d))) <= LIMIT * (quotient_bits(n, d) * d),
{
    let a = n * pow2(scale(n, d));
    let md = quotient_bits(n, d) * d;
    lemma_scale(n, d);
    lemma_nearest(a, d);
    assert(0x10_0000_0000_0000 * d <= a);
    assert(2 * md <= 2 * a + d);
    assert(2 * a <= 2 * md + d);
}

/// Both sides of an inequality, multiplied.
proof fn lemma_times(a: int, b: int, c: int, x: int, y: int, z: int, t: int)
    by (nonlinear_arith)
    requires
        a * x <= b * y + c * z,
        t >= 0,
    ensures
        a * (x * t) <= b * (y * t) + c * (z * t),
{
}

/// A common factor taken out of an inequality.
proof fn lemma_cancel(a: int, b: int, c: int, x: int, y: int, z: int, t: int)
    by (nonlinear_arith)
    requires
        a * (x * t) <= b * (y * t) + c * (z * t),
        t > 0,
    ensures
        a * x <= b * y + c * z,
{
}

/// Three roundings and one to an integer keep a share from being too great: `t` is the
/// rounded total, `m / s` the rounded share, `x / s` the rounded hundredfold of it and `p`
/// the integer nearest to that.
proof fn lemma_not_above(w: int, total: int, t: int, m: int, s: int, x: int, p: int)
    requires
        0 <= w <= total,
        0 < t,
        0 < s,
        0 <= p,
        0x1f_ffff_ffff_ffff * total <= 0x20_0000_0000_0000 * t,
        0x20_0000_0000_0000 * t <= 0x20_0000_0000_0001 * total,
        0x20_0000_0000_0000 * (m * t) <= 0x20_0000_0000_0001 * (w * s),
        0x20_0000_0000_0000 * x <= 0x20_0000_0000_0001 * (100 * m),
        2 * (p * s) <= 2 * x + s,
    ensures
        0x800_0000_0000 * (2 * (p * total) - 200 * w) <= 0x800_0000_0001 * total,
{
    // The coefficients are products of 2, 200, K = 2^53 and its neighbours: first 2 K, 200 (K + 1) and K,
    // then, times K, 2 K K, 200 (K + 1) (K + 1) and K K.
    assert(0x40_0000_0000_0000 * (p * s) <= 0x1900_0000_0000_00c8 * m + 0x20_0000_0000_0000 * s);
    lemma_times(0x40_0000_0000_0000, 0x1900_0000_0000_00c8, 0x20_0000_0000_0000, p * s, m, s, t);
    assert((p * s) * t == (p * t) * s) by (nonlinear_arith);
    assert(s * t == t * s) by (nonlinear_arith);
    assert(0x800_0000_0000_0000_0000_0000_0000 * ((p * t) * s)
        <= 0x3_2000_0000_0000_3200_0000_0000_00c8 * (w * s)
        + 0x400_0000_0000_0000_0000_0000_0000 * (t * s));
    lemma_cancel(
        0x800_0000_0000_0000_0000_0000_0000,
        0x3_2000_0000_0000_3200_0000_0000_00c8,
        0x400_0000_0000_0000_0000_0000_0000,
        p * t,
        w,
        t,
        s,
    );
    lemma_times(0x1f_ffff_ffff_ffff, 0x20_0000_0000_0000, 0, total, t, 0, p);
    assert(total * p == p * total && t * p == p * t) by (nonlinear_arith);
    assert(0x7ff_ffff_ffff_ffc0_0000_0000_0000 * (p * total)
        <= 0x800_0000_0000_0000_0000_0000_0000 * (p * t));
}

/// Three roundings and one to an integer keep a share from being too small, with the same
/// numbers.
proof fn lemma_not_below(w: int, total: int, t: int, m: int, s: int, x: int, p: int)
    requires
        0 <= w <= total,
        0 < t,
        0 < s,
        0 <= p,
        0x20_0000_0000_0000 * t <= 0x20_0000_0000_0001 * total,
        0x1f_ffff_ffff_ffff * (w * s) <= 0x20_0000_0000_0000 * (m * t),
        0x1f_ffff_ffff_ffff * (100 * m) <= 0x20_0000_0000_0000 * x,
        2 * x <= 2 * (p * s) + s,
    ensures
        0x800_0000_0000 * (200 * w - 2 * (p * total)) <= 0x800_0000_0001 * total,
{
    // The coefficients are products of 2, 200, K = 2^53 and its neighbours: first 200 (K - 1), 2 K and K,
    // then, times K, 200 (K - 1) (K - 1), 2 K K and K K.
    assert(0x18ff_ffff_ffff_ff38 * m <= 0x40_0000_0000_0000 * (p * s) + 0x20_0000_0000_0000 * s);
    lemma_times(0x18ff_ffff_ffff_ff38, 0x40_0000_0000_0000, 0x20_0000_0000_0000, m, p * s, s, t);
    assert((p * s) * t == (p * t) * s) by (nonlinear_arith);
    assert(s * t == t * s) by (nonlinear_arith);
    assert(0x3_1fff_ffff_ffff_ce00_0000_0000_00c8 * (w * s)
        <= 0x800_0000_0000_0000_0000_0000_0000 * ((p * t) * s)
        + 0x400_0000_0000_0000_0000_0000_0000 * (t * s));
    lemma_cancel(
        0x3_1fff_ffff_ffff_ce00_0000_0000_00c8,
        0x800_0000_0000_0000_0000_0000_0000,
        0x400_0000_0000_0000_0000_0000_0000,
        w,
        p * t,
        t,
        s,
    );
    lemma_times(0x20_0000_0000_0000, 0x20_0000_0000_0001, 0, t, total, 0, p);
    assert(total * p == p * total && t * p == p * t) by (nonlinear_arith);
    assert(0x800_0000_0000_0000_0000_0000_0000 * (p * t)
        <= 0x800_0000_0000_0040_0000_0000_0000 * (p * total));
}

/// The percentage is a whole number nearest to the true share, `100 * weight / total`, for
/// every total below 2^43; at a tie it is one of the two that are equally near. For greater
/// totals it may be off from that by a part in 2^44, and so be the other neighbour only
/// where the share is that close to a tie.
pub proof fn percent_is_nearest(weight: nat, total: nat)
    requires
        0 < weight <= total,
    ensures
        2 * (percent(weight, total) * total) <= 200 * weight + total + total / 0x800_0000_0000,
        200 * weight <= 2 * (percent(weight, total) * total) + total + total / 0x800_0000_0000,
{
    let t = rounded(total);
    let e = scale(weight, t);
    let s = pow2(e);
    let m = quotient_bits(weight, t);
    let x = rounded(100 * m);
    let p = percent(weight, total);
    lemma_rounded_positive(total);
    lemma_rounded_close(total);
    lemma_rounded_close(100 * m);
    lemma_quotient_close(weight, t);
    vstd::arithmetic::power2::lemma_pow2_pos(e);
    lemma_nearest(x, s);
    lemma_not_above(
        weight as int,
        total as int,
        t as int,
        m as int,
        s as int,
        x as int,
        p as int,
    );
    lemma_not_below(
        weight as int,
        total as int,
        t as int,
        m as int,
        s as int,
        x as int,
        p as int,
    );
}

/// A number below [`LIMIT`] is not rounded.
proof fn lemma_small_exact(n: nat)
    requires
        n < LIMIT,
    ensures
        rounded(n) == n,
{
    vstd::arithmetic::power2::lemma2_to64();
    assert(pow2(excess_bits(n)) == 1);
    assert(nearest(n, 1) == n);
    assert(nearest(n, 1) * 1 == n);
}

/// The percentage in tenths is a whole number nearest to the true one, `1000 * part / whole`,
/// for every whole below 2^42; at a tie it is one of the two that are equally near.
pub proof fn tenths_are_nearest(part: nat, whole: nat)
    requires
        part <= whole,
        0 < whole < 0x400_0000_0000,
    ensures
        2 * (percent_tenths(part, whole) * whole) <= 2000 * part + whole,
        2000 * part <= 2 * (percent_tenths(part, whole) * whole) + whole,
{
    if part > 0 {
        let p = (100 * part) as nat;
        lemma_small_exact(part);
        lemma_small_exact(p);
        lemma_small_exact(whole);
        let s = pow2(scale(p, whole));
        let m = quotient_bits(p, whole);
        let t = percent_tenths(part, whole);
        vstd::arithmetic::power2::lemma_pow2_pos(scale(p, whole));
        lemma_quotient_close(p, whole);
        lemma_nearest(10 * m, s);
        assert(t == nearest(10 * m, s));
        lemma_tenths(part as int, whole as int, m as int, s as int, t as int);
    } else {
        assert(0 * whole == 0);
    }
}

/// One rounding and one to an integer keep a percentage in tenths near: `m / s` is the
/// rounded percentage and `t` the integer nearest to ten times that.
proof fn lemma_tenths(part: int, whole: int, m: int, s: int, t: int)
    requires
        0 < part <= whole < 0x400_0000_0000,
        0 < s,
        0x20_0000_0000_0000 * (m * whole) <= 0x20_0000_0000_0001 * ((100 * part) * s),
        0x1f_ffff_ffff_ffff * ((100 * part) * s) <= 0x20_0000_0000_0000 * (m * whole),
        2 * (t * s) <= 2 * (10 * m) + s,
        2 * (10 * m) <= 2 * (t * s) + s,
    ensures
        2 * (t * whole) <= 2000 * part + whole,
        2000 * part <= 2 * (t * whole) + whole,
{
    assert((100 * part) * s == 100 * (part * s)) by (nonlinear_arith);
    assert((t * s) * whole == (t * whole) * s) by (nonlinear_arith);
    assert(s * whole == whole * s) by (nonlinear_arith);
    lemma_times(2, 20, 1, t * s, m, s, whole);
    lemma_times(20, 2, 1, m, t * s, s, whole);
    assert(0x40_0000_0000_0000 * ((t * whole) * s) <= 0xfa00_0000_0000_07d0 * (part * s)
        + 0x20_0000_0000_0000 * (whole * s));
    lemma_cancel(
        0x40_0000_0000_0000,
        0xfa00_0000_0000_07d0,
        0x20_0000_0000_0000,
        t * whole,
        part,
        whole,
        s,
    );
    assert(0xf9ff_ffff_ffff_f830 * (part * s) <= 0x40_0000_0000_0000 * ((t * whole) * s)
        + 0x20_0000_0000_0000 * (whole * s));
    lemma_cancel(
        0xf9ff_ffff_ffff_f830,
        0x40_0000_0000_0000,
        0x20_0000_0000_0000,
        part,
        t * whole,
        whole,
        s,
    );
}

/// The ratio of a part to a whole below 2^53 is the double nearest to it: its 53 bits, `m`,
/// are the integer nearest to the ratio times the power of two, `e`, that its exponent says.
pub proof fn ratio_is_the_nearest_double(part: nat, whole: nat)
    requires
        0 < part <= whole < LIMIT,
    ensures
        exists|m: nat, e: nat|
            #![trigger pow2(e), m * whole]
            ratio_bits(part, whole) == (1075 - e) * LEAST + (m - LEAST) && LEAST <= m <= LIMIT && 2
                * (m * whole) <= 2 * (part * pow2(e)) + whole && 2 * (part * pow2(e)) <= 2 * (m
                * whole) + whole,
{
    lemma_small_exact(part);
    lemma_small_exact(whole);
    let e = scale(part, whole);
    let m = quotient_bits(part, whole);
    assert(part < LIMIT * whole) by (nonlinear_arith)
        requires
            0 < part <= whole,
            LIMIT == 0x20_0000_0000_0000,
    ;
    lemma_scale(part, whole);
    lemma_nearest(part * pow2(e), whole);
    assert(m >= LEAST) by (nonlinear_arith)
        requires
            LEAST * whole <= part * pow2(e),
            2 * (part * pow2(e)) <= 2 * (m * whole) + whole,
            0 < whole,
            LEAST == 0x10_0000_0000_0000,
    ;
    assert(m <= LIMIT) by (nonlinear_arith)
        requires
            part * pow2(e) < LIMIT * whole,
            2 * (m * whole) <= 2 * (part * pow2(e)) + whole,
            0 < whole,
    ;
    assert(e <= 1075) by {
        assert(pow2(e) < 0x100_0000_0000_0000_0000_0000_0000_0000) by (nonlinear_arith)
            requires
                part * pow2(e) < LIMIT * whole,
                0 < part,
                whole < LIMIT,
                LIMIT == 0x20_0000_0000_0000,
        ;
        lemma_exponent(e);
    }
    assert((1075 - e) * LEAST + (m - LEAST) >= 0) by (nonlinear_arith)
        requires
            e <= 1075,
            m >= LEAST,
    ;
    assert(part * pow2(e) >= 0 && m * whole >= 0);
}

/// The bit pattern of the ratio of a part to a whole below 2^53 is one of 64 bits.
pub proof fn ratio_bits_fit(part: nat, whole: nat)
    requires
        0 < part <= whole < LIMIT,
    ensures
        ratio_bits(part, whole) <= u64::MAX,
{
    ratio_is_the_nearest_double(part, whole);
    let (m, e) = choose|m: nat, e: nat|
        #![trigger pow2(e), m * whole]
        ratio_bits(part, whole) == (1075 - e) * LEAST + (m - LEAST) && LEAST <= m <= LIMIT && 2 * (m
            * whole) <= 2 * (part * pow2(e)) + whole && 2 * (part * pow2(e)) <= 2 * (m * whole)
            + whole;
    assert((1075 - e) * LEAST + (m - LEAST) <= 1075 * LEAST + LEAST) by (nonlinear_arith)
        requires
            0 <= e,
            m <= LIMIT,
            LIMIT == 2 * LEAST,
    ;
}

} // verus!
