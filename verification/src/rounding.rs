//! How the rounded quotients of the fixed-point numbers behave.

use crate::scalar::{
    fx_mix, fx_recip, fx_unmix, lemma_quot_of_multiple, magnitude, quot, saturate, ONE_RAW,
};
use vstd::prelude::*;

verus! {

/// What is left when the rounded quotient is multiplied back is smaller
/// than the divisor and has the sign of the numerator.
pub proof fn lemma_quot_remainder(n: int, d: int)
    requires
        d > 0,
    ensures
        magnitude(n - quot(n, d) * d) < d,
        n >= 0 ==> n - quot(n, d) * d >= 0,
        n <= 0 ==> n - quot(n, d) * d <= 0,
{
    let un = magnitude(n);
    let q = un / d;
    vstd::arithmetic::div_mod::lemma_fundamental_div_mod(un, d);
    vstd::arithmetic::div_mod::lemma_mod_bound(un, d);
    assert(q * d == d * q) by (nonlinear_arith);
    assert((-q) * d == -(d * q)) by (nonlinear_arith);
}

/// A numerator between two multiples of the divisor has its quotient
/// between the two factors.
pub proof fn lemma_quot_between(n: int, d: int, lo: int, hi: int)
    requires
        d > 0,
        lo * d <= n <= hi * d,
    ensures
        lo <= quot(n, d) <= hi,
{
    let t = quot(n, d);
    lemma_quot_remainder(n, d);
    assert(t >= hi + 1 ==> t * d >= hi * d + d) by (nonlinear_arith)
        requires
            d > 0,
    ;
    assert(t <= lo - 1 ==> t * d <= lo * d - d) by (nonlinear_arith)
        requires
            d > 0,
    ;
}

/// The quotient is as near to `c` as the numerator is to `c * d`, up to
/// the rounding.
pub proof fn lemma_quot_near(n: int, d: int, c: int)
    requires
        d > 0,
    ensures
        magnitude(quot(n, d) - c) * d <= magnitude(n - c * d) + d - 1,
{
    let t = quot(n, d);
    lemma_quot_remainder(n, d);
    assert((t - c) * d == t * d - c * d) by (nonlinear_arith);
    assert(magnitude(t - c) * d == magnitude((t - c) * d)) by (nonlinear_arith)
        requires
            d > 0,
    ;
}

/// The reciprocal of a number that is not negative is not negative.
pub proof fn lemma_recip_not_negative(a: int)
    requires
        a >= 0,
    ensures
        fx_recip(a) >= 0,
{
    if a > 0 {
        vstd::arithmetic::div_mod::lemma_div_pos_is_pos(magnitude(ONE_RAW * ONE_RAW), a);
    }
}

/// The mean of two values, weighted by masses that are not negative, lies
/// between the two values.
pub proof fn lemma_mix_between(a: int, wa: int, b: int, wb: int)
    requires
        wa >= 0,
        wb >= 0,
        wa + wb > 0,
        i64::MIN <= a <= i64::MAX,
        i64::MIN <= b <= i64::MAX,
    ensures
        fx_mix(a, wa, b, wb, wa + wb) == quot(a * wa + b * wb, wa + wb),
        a <= b ==> a <= fx_mix(a, wa, b, wb, wa + wb) <= b,
        b <= a ==> b <= fx_mix(a, wa, b, wb, wa + wb) <= a,
{
    let lo = if a <= b { a } else { b };
    let hi = if a <= b { b } else { a };
    let d = wa + wb;
    assert(lo * d <= a * wa + b * wb <= hi * d) by (nonlinear_arith)
        requires
            wa >= 0,
            wb >= 0,
            d == wa + wb,
            lo <= a <= hi,
            lo <= b <= hi,
    ;
    lemma_quot_between(a * wa + b * wb, d, lo, hi);
}

/// Taking the second value out of the weighted mean of two gives back the
/// first, up to the rounding of the two quotients.
pub proof fn lemma_unmix_of_mix(a: int, wa: int, b: int, wb: int)
    requires
        wa > 0,
        wb >= 0,
        i64::MIN <= a <= i64::MAX,
        i64::MIN <= b <= i64::MAX,
    ensures
        magnitude(fx_unmix(fx_mix(a, wa, b, wb, wa + wb), wa + wb, b, wb, wa) - a) * wa < 2 * wa
            + wb,
{
    let d = wa + wb;
    let x = a * wa + b * wb;
    let m = fx_mix(a, wa, b, wb, d);
    lemma_mix_between(a, wa, b, wb);
    lemma_quot_remainder(x, d);
    let n = m * d - b * wb;
    let t = quot(n, wa);
    lemma_quot_near(n, wa, a);
    assert(n - a * wa == m * d - x);
    assert(magnitude(t - a) * wa <= d - 1 + wa - 1);
    let r = saturate(t);
    assert(magnitude(r - a) <= magnitude(t - a));
    assert(magnitude(r - a) * wa <= magnitude(t - a) * wa) by (nonlinear_arith)
        requires
            magnitude(r - a) <= magnitude(t - a),
            wa > 0,
    ;
}

/// The reciprocal is zero of zero alone.
pub proof fn lemma_recip_zero(a: int)
    requires
        i64::MIN <= a <= i64::MAX,
    ensures
        fx_recip(a) == 0 <==> a == 0,
{
    if a != 0 {
        let n = ONE_RAW * ONE_RAW;
        let d = magnitude(a);
        vstd::arithmetic::div_mod::lemma_div_is_ordered(d, n, d);
        vstd::arithmetic::div_mod::lemma_div_basics(d);
    }
}

/// A difference that, multiplied by the first mass, stays under twice that
/// mass plus the second, is at most two plus the ratio of the masses.
pub proof fn lemma_center_shift(delta: int, m1: int, m2: int)
    requires
        m1 > 0,
        m2 >= 0,
        magnitude(delta) * m1 < 2 * m1 + m2,
    ensures
        magnitude(delta) <= 2 + m2 / m1,
{
    let k = m2 / m1;
    let ud = magnitude(delta);
    vstd::arithmetic::div_mod::lemma_fundamental_div_mod(m2, m1);
    vstd::arithmetic::div_mod::lemma_mod_bound(m2, m1);
    assert(ud >= 3 + k ==> ud * m1 >= 3 * m1 + m1 * k) by (nonlinear_arith)
        requires
            m1 > 0,
    ;
}

/// The reciprocals of two numbers from `2^31` raw units (one half) on, not
/// more than `2^18` raw units apart, are less than `2^21` raw units apart.
pub proof fn lemma_recip_near(x: int, y: int)
    requires
        0x8000_0000 <= x <= y <= i64::MAX,
        y - x <= 0x4_0000,
    ensures
        0 <= fx_recip(x) - fx_recip(y) < 0x20_0000,
{
    let n = ONE_RAW * ONE_RAW;
    let qx = n / x;
    let qy = n / y;
    vstd::arithmetic::div_mod::lemma_fundamental_div_mod(n, x);
    vstd::arithmetic::div_mod::lemma_fundamental_div_mod(n, y);
    vstd::arithmetic::div_mod::lemma_mod_bound(n, x);
    vstd::arithmetic::div_mod::lemma_mod_bound(n, y);
    vstd::arithmetic::div_mod::lemma_div_is_ordered_by_denominator(n, x, y);
    vstd::arithmetic::div_mod::lemma_div_is_ordered_by_denominator(n, 0x8000_0000, x);
    vstd::arithmetic::div_mod::lemma_div_is_ordered_by_denominator(n, 0x8000_0000, y);
    vstd::arithmetic::div_mod::lemma_div_pos_is_pos(n, y);
    assert(n / 0x8000_0000 == 0x2_0000_0000);
    assert(0 <= qy <= qx <= 0x2_0000_0000);
    assert(fx_recip(x) == qx);
    assert(fx_recip(y) == qy);
    assert((qx - qy) * x < x + 0x4_0000 + 0x8_0000_0000_0000) by (nonlinear_arith)
        requires
            n == x * qx + n % x,
            n == y * qy + n % y,
            0 <= n % x,
            n % y < y,
            0 <= qy <= 0x2_0000_0000,
            0 <= y - x <= 0x4_0000,
    ;
    assert(qx - qy >= 0x20_0000 ==> (qx - qy) * x >= 0x20_0000 * x) by (nonlinear_arith)
        requires
            x > 0,
    ;
}

/// The weighted mean of a value with itself is the value, and taking the
/// one share out of it gives the value back.
pub proof fn lemma_mix_of_equal(a: int, wa: int, wb: int)
    requires
        wa > 0,
        wb >= 0,
        i64::MIN <= a <= i64::MAX,
    ensures
        fx_mix(a, wa, a, wb, wa + wb) == a,
        fx_unmix(a, wa + wb, a, wb, wa) == a,
{
    assert(a * wa + a * wb == a * (wa + wb)) by (nonlinear_arith);
    assert(a * (wa + wb) - a * wb == a * wa) by (nonlinear_arith);
    lemma_quot_of_multiple(a, wa + wb);
    lemma_quot_of_multiple(a, wa);
}

} // verus!
