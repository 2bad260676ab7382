//! Fixed-point numbers with sixteen fractional bits.
//!
//! Every fractional quantity of this crate (a percentage of the day, a
//! position on a gradient, a normalised colour channel) is a [`Fixed`]:
//! a signed integer that counts units of `1 / 65536`. All roundings go
//! towards negative infinity, so each operation is an exact function on
//! the integers and can be stated as such in a contract.

use vstd::arithmetic::div_mod::{
    lemma_div_is_ordered, lemma_div_multiples_vanish, lemma_fundamental_div_mod,
    lemma_fundamental_div_mod_converse, lemma_mod_bound,
};
use vstd::prelude::*;

verus! {

/// A signed fixed-point number: the integer `n` stands for `n / 65536`.
pub type Fixed = i64;

/// The number one.
pub const ONE: Fixed = 65536;

/// One half.
pub const HALF: Fixed = 32768;

/// The circle constant, rounded to the nearest representable value.
pub const PI: Fixed = 205887;

/// The largest value of a colour channel as it is stored.
pub const CHANNEL_MAX: u8 = 255;

/// `x` limited to the interval from `lo` to `hi`.
pub open spec fn clamp_spec(x: int, lo: int, hi: int) -> int {
    if x < lo {
        lo
    } else if x > hi {
        hi
    } else {
        x
    }
}

/// The absolute value of `x`.
pub open spec fn abs_spec(x: int) -> int {
    if x < 0 {
        -x
    } else {
        x
    }
}

/// The quotient `num / den` as a fixed-point number, rounded down.
pub open spec fn ratio_spec(num: int, den: int) -> int {
    (num * ONE) / den
}

/// The product of two fixed-point numbers, rounded down.
pub open spec fn mul_spec(a: int, b: int) -> int {
    (a * b) / (ONE as int)
}

/// The product of two fixed-point numbers, kept inside the range of [`Fixed`].
pub open spec fn mul_saturating_spec(a: int, b: int) -> int {
    clamp_spec(mul_spec(a, b), i64::MIN as int, i64::MAX as int)
}

/// The point at fraction `ratio` of the way from `a` to `b`.
pub open spec fn lerp_spec(a: int, b: int, ratio: int) -> int {
    a + ((b - a) * ratio) / (ONE as int)
}

/// How far `t` lies between `t0` and `t1`, as a fraction limited to `[0, 1]`.
pub open spec fn span_ratio_spec(t: int, t0: int, t1: int) -> int {
    clamp_spec(((t - t0) * ONE) / (t1 - t0), 0, ONE as int)
}

/// A stored colour channel (`0..=255`) as a fraction of one.
pub open spec fn channel_unit_spec(c: int) -> int {
    (c * ONE) / (CHANNEL_MAX as int)
}

/// Rounding down keeps the order: a larger numerator over the same positive
/// denominator never gives a smaller quotient.
pub proof fn lemma_ratio_monotonic(a: int, b: int, den: int)
    requires
        a <= b,
        den > 0,
    ensures
        ratio_spec(a, den) <= ratio_spec(b, den),
{
    assert(a * ONE <= b * ONE);
    lemma_div_is_ordered(a * ONE, b * ONE, den);
}

/// A quantity divided by itself is exactly one, and zero divided by anything
/// positive is zero.
pub proof fn lemma_ratio_endpoints(den: int)
    requires
        den > 0,
    ensures
        ratio_spec(den, den) == ONE,
        ratio_spec(0, den) == 0,
{
    assert(den * ONE == ONE * den);
    lemma_div_multiples_vanish(ONE as int, den);
    assert(0int * ONE == 0 * den);
    lemma_div_multiples_vanish(0, den);
}

/// The ratio of non-negative numbers is non-negative, and it stays at or below
/// one as long as the numerator does not exceed the denominator.
pub proof fn lemma_ratio_bounds(num: int, den: int)
    requires
        0 <= num,
        den > 0,
    ensures
        0 <= ratio_spec(num, den),
        num <= den ==> ratio_spec(num, den) <= ONE,
        num >= den ==> ratio_spec(num, den) >= ONE,
        ratio_spec(num, den) <= num * ONE,
{
    lemma_ratio_endpoints(den);
    lemma_ratio_monotonic(0, num, den);
    if num <= den {
        lemma_ratio_monotonic(num, den, den);
    }
    if num >= den {
        lemma_ratio_monotonic(den, num, den);
    }
    let n = num * ONE;
    lemma_fundamental_div_mod(n, den);
    lemma_mod_bound(n, den);
    let q = n / den;
    assert(q <= n) by (nonlinear_arith)
        requires
            n == den * q + n % den,
            0 <= n % den,
            den >= 1,
            q >= 0,
    ;
}

/// An interpolated value never leaves the interval between its endpoints, and
/// it meets them exactly at ratio zero and ratio one.
pub proof fn lemma_lerp_bounds(a: int, b: int, ratio: int)
    requires
        0 <= ratio <= ONE,
    ensures
        a <= b ==> a <= lerp_spec(a, b, ratio) <= b,
        b <= a ==> b <= lerp_spec(a, b, ratio) <= a,
        lerp_spec(a, b, 0) == a,
        lerp_spec(a, b, ONE as int) == b,
        lerp_spec(a, a, ratio) == a,
{
    let d = b - a;
    let one = ONE as int;
    assert(d * 0 == 0 * one) by (nonlinear_arith);
    lemma_div_multiples_vanish(0, one);
    lemma_div_multiples_vanish(d, one);
    assert(0int * ratio == 0 * one) by (nonlinear_arith);
    if d >= 0 {
        assert(0 <= d * ratio <= d * one) by (nonlinear_arith)
            requires
                d >= 0,
                0 <= ratio <= one,
        ;
        lemma_div_is_ordered(0 * one, d * ratio, one);
        lemma_div_is_ordered(d * ratio, d * one, one);
    }
    if d <= 0 {
        assert(d * one <= d * ratio <= 0) by (nonlinear_arith)
            requires
                d <= 0,
                0 <= ratio <= one,
        ;
        lemma_div_is_ordered(d * one, d * ratio, one);
        lemma_div_is_ordered(d * ratio, 0 * one, one);
    }
}

/// A stored channel maps into `[0, 1]`, with `0` going to zero and `255` to one.
pub proof fn lemma_channel_unit_bounds(c: int)
    requires
        0 <= c <= CHANNEL_MAX,
    ensures
        0 <= channel_unit_spec(c) <= ONE,
        channel_unit_spec(0) == 0,
        channel_unit_spec(CHANNEL_MAX as int) == ONE,
{
    let m = CHANNEL_MAX as int;
    lemma_div_is_ordered(0, c * ONE, m);
    lemma_div_is_ordered(c * ONE, m * ONE, m);
    assert(m * ONE == ONE * m);
    lemma_div_multiples_vanish(ONE as int, m);
    assert(0int * ONE == 0 * m);
    lemma_div_multiples_vanish(0, m);
}

/// Quotient of `n` by a positive `d`, rounded towards negative infinity.
fn div_floor(n: i128, d: i128) -> (q: i128)
    requires
        d > 0,
        n > i128::MIN,
    ensures
        q == n / d,
{
    if n >= 0 {
        n / d
    } else {
        let m: i128 = -(n + 1);
        let p: i128 = m / d;
        proof {
            let mi = m as int;
            let di = d as int;
            lemma_fundamental_div_mod(mi, di);
            lemma_mod_bound(mi, di);
            let r = mi % di;
            assert(p == mi / di);
            assert((n as int) == (-p - 1) * di + (di - r - 1)) by (nonlinear_arith)
                requires
                    mi == di * p + r,
                    mi == -(n + 1),
            ;
            lemma_fundamental_div_mod_converse(n as int, di, -p - 1, di - r - 1);
            assert(p <= mi) by (nonlinear_arith)
                requires
                    mi == di * p + r,
                    0 <= r,
                    di >= 1,
                    p >= 0,
            ;
        }
        -p - 1
    }
}

/// `num / den` as a fixed-point number, rounded down.
pub fn ratio(num: u32, den: u32) -> (r: Fixed)
    requires
        den > 0,
    ensures
        r == ratio_spec(num as int, den as int),
        0 <= r,
{
    let n: u64 = (num as u64) * 65536;
    let q: u64 = n / (den as u64);
    proof {
        lemma_ratio_bounds(num as int, den as int);
    }
    q as i64
}

/// Half of `x`, rounded down.
pub fn halve(x: Fixed) -> (r: Fixed)
    ensures
        r == x / 2,
{
    let q: i128 = div_floor(x as i128, 2);
    q as i64
}

/// The product `a * b`, rounded down and kept inside the range of [`Fixed`].
pub fn mul_saturating(a: Fixed, b: Fixed) -> (r: Fixed)
    ensures
        r == mul_saturating_spec(a as int, b as int),
{
    proof {
        let lim = 0x8000_0000_0000_0000int;
        assert(-(lim * lim) <= a * b <= lim * lim) by (nonlinear_arith)
            requires
                -lim <= a <= lim,
                -lim <= b <= lim,
        ;
    }
    let p: i128 = (a as i128) * (b as i128);
    let q: i128 = div_floor(p, 65536);
    if q < i64::MIN as i128 {
        i64::MIN
    } else if q > i64::MAX as i128 {
        i64::MAX
    } else {
        q as i64
    }
}

/// The point at fraction `ratio` of the way from `a` to `b`, rounded down.
pub fn lerp(a: Fixed, b: Fixed, ratio: Fixed) -> (r: Fixed)
    requires
        0 <= ratio <= ONE,
    ensures
        r == lerp_spec(a as int, b as int, ratio as int),
{
    let d: i128 = (b as i128) - (a as i128);
    proof {
        let lim = 0x1_0000_0000_0000_0000int;
        assert(-(lim * 65536) <= d * ratio <= lim * 65536) by (nonlinear_arith)
            requires
                -lim <= d <= lim,
                0 <= ratio <= 65536,
        ;
        lemma_lerp_bounds(a as int, b as int, ratio as int);
    }
    let p: i128 = d * (ratio as i128);
    let q: i128 = div_floor(p, 65536);
    let v: i128 = (a as i128) + q;
    v as i64
}

/// How far `t` lies between `t0` and `t1`, as a fraction limited to `[0, 1]`.
pub fn span_ratio(t: Fixed, t0: Fixed, t1: Fixed) -> (r: Fixed)
    requires
        t0 < t1,
    ensures
        r == span_ratio_spec(t as int, t0 as int, t1 as int),
        0 <= r <= ONE,
{
    let num: i128 = ((t as i128) - (t0 as i128)) * 65536;
    let den: i128 = (t1 as i128) - (t0 as i128);
    let q: i128 = div_floor(num, den);
    if q < 0 {
        0
    } else if q > 65536 {
        65536
    } else {
        q as i64
    }
}

/// A stored colour channel as a fraction of one, rounded down.
pub fn channel_unit(c: u8) -> (r: Fixed)
    ensures
        r == channel_unit_spec(c as int),
        0 <= r <= ONE,
{
    proof {
        lemma_channel_unit_bounds(c as int);
    }
    let n: u32 = (c as u32) * 65536;
    (n / 255) as i64
}

} // verus!
