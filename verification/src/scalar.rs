//! Signed fixed-point numbers with 32 fractional bits.
//!
//! A [`Scalar`] holds a raw `i64`; the number it stands for is `raw / 2^32`.
//! Every operation is total: a result outside the range of `i64` is replaced
//! by the nearest end of the range, a quotient is rounded toward zero, and a
//! division by zero gives zero. The contracts state each result over the raw
//! values as mathematical integers.

use vstd::prelude::*;

verus! {

/// The raw value of the number one.
pub const ONE_RAW: i64 = 0x1_0000_0000;

/// The raw value of the threshold below which a mass counts as vanished (`2^-23`).
pub const EPSILON_RAW: i64 = 0x200;

/// The nearest integer in the range of `i64`.
pub open spec fn saturate(x: int) -> int {
    if x < i64::MIN {
        i64::MIN as int
    } else if x > i64::MAX {
        i64::MAX as int
    } else {
        x
    }
}

/// The nearest integer in the range of `i128`.
pub open spec fn clamp_wide(x: int) -> int {
    if x < i128::MIN {
        i128::MIN as int
    } else if x > i128::MAX {
        i128::MAX as int
    } else {
        x
    }
}

/// The absolute value of an integer.
pub open spec fn magnitude(x: int) -> int {
    if x < 0 {
        -x
    } else {
        x
    }
}

/// The quotient of `n` by `d`, rounded toward zero (`d` is not zero).
pub open spec fn quot(n: int, d: int) -> int {
    if d > 0 {
        if n >= 0 {
            n / d
        } else {
            -((-n) / d)
        }
    } else {
        if n >= 0 {
            -(n / (-d))
        } else {
            (-n) / (-d)
        }
    }
}

/// The raw quotient of a wide numerator by a raw divisor: rounded toward
/// zero, saturated, and zero where the divisor is zero.
pub open spec fn fx_ratio(n: int, d: int) -> int {
    if d == 0 {
        0
    } else {
        saturate(quot(n, d))
    }
}

/// Raw sum.
pub open spec fn fx_add(a: int, b: int) -> int {
    saturate(a + b)
}

/// Raw difference.
pub open spec fn fx_sub(a: int, b: int) -> int {
    saturate(a - b)
}

/// Raw negation.
pub open spec fn fx_neg(a: int) -> int {
    saturate(-a)
}

/// Raw product: `a * b / 2^32`.
pub open spec fn fx_mul(a: int, b: int) -> int {
    fx_ratio(a * b, ONE_RAW as int)
}

/// Raw quotient: `a * 2^32 / b`, zero where `b` is zero.
pub open spec fn fx_div(a: int, b: int) -> int {
    fx_ratio(a * ONE_RAW, b)
}

/// Raw reciprocal: `2^64 / a`, zero where `a` is zero.
pub open spec fn fx_recip(a: int) -> int {
    fx_div(ONE_RAW as int, a)
}

/// The larger of two raw values.
pub open spec fn fx_max(a: int, b: int) -> int {
    if a >= b {
        a
    } else {
        b
    }
}

/// `(a * wa + b * wb) / d` with a single rounding.
pub open spec fn fx_mix(a: int, wa: int, b: int, wb: int, d: int) -> int {
    fx_ratio(a * wa + b * wb, d)
}

/// `(a * wa - b * wb) / d` with a single rounding.
pub open spec fn fx_unmix(a: int, wa: int, b: int, wb: int, d: int) -> int {
    fx_ratio(a * wa - b * wb, d)
}

/// `a1 * b1 + a2 * b2 + a3 * b3` as a raw value, with a single rounding.
pub open spec fn fx_dot3(a1: int, b1: int, a2: int, b2: int, a3: int, b3: int) -> int {
    fx_ratio(a1 * b1 + a2 * b2 + a3 * b3, ONE_RAW as int)
}

/// A quotient whose numerator is at least `2^63` times the divisor saturates.
pub proof fn lemma_ratio_saturates(n: int, d: int)
    requires
        d != 0,
        magnitude(n) >= magnitude(d) * 0x8000_0000_0000_0000,
    ensures
        fx_ratio(n, d) == if (n < 0) != (d < 0) {
            i64::MIN as int
        } else {
            i64::MAX as int
        },
{
    let un = magnitude(n);
    let ud = magnitude(d);
    let q = un / ud;
    assert(q >= 0x8000_0000_0000_0000) by {
        vstd::arithmetic::div_mod::lemma_fundamental_div_mod(un, ud);
        vstd::arithmetic::div_mod::lemma_mod_bound(un, ud);
        assert(q < 0x8000_0000_0000_0000 ==> ud * q + un % ud < ud * 0x8000_0000_0000_0000)
            by (nonlinear_arith)
            requires
                ud > 0,
                0 <= un % ud < ud,
        ;
    }
}

/// Replacing a wide numerator by the nearest `i128` does not change the quotient.
pub proof fn lemma_ratio_of_clamped(n: int, d: int)
    requires
        i64::MIN <= d <= i64::MAX,
    ensures
        fx_ratio(clamp_wide(n), d) == fx_ratio(n, d),
{
    if d != 0 && clamp_wide(n) != n {
        lemma_ratio_saturates(n, d);
        lemma_ratio_saturates(clamp_wide(n), d);
    }
}

/// The quotient of a multiple by its factor is exact.
pub proof fn lemma_quot_of_multiple(a: int, d: int)
    requires
        d > 0,
    ensures
        quot(a * d, d) == a,
{
    let m = magnitude(a);
    assert(magnitude(a * d) == m * d) by (nonlinear_arith)
        requires
            d > 0,
            m == magnitude(a),
    ;
    vstd::arithmetic::div_mod::lemma_div_multiples_vanish(m, d);
    assert((a * d < 0) == (a < 0)) by (nonlinear_arith)
        requires
            d > 0,
    ;
}

/// Multiplying by one changes nothing.
pub proof fn lemma_mul_one(a: int)
    requires
        i64::MIN <= a <= i64::MAX,
    ensures
        fx_mul(a, ONE_RAW as int) == a,
        fx_mul(ONE_RAW as int, a) == a,
{
    lemma_quot_of_multiple(a, ONE_RAW as int);
    assert(ONE_RAW * a == a * ONE_RAW) by (nonlinear_arith);
}

/// A fixed-point number: `raw / 2^32`.
#[derive(Clone, Copy, Debug, PartialEq, Eq, Structural)]
pub struct Scalar {
    pub raw: i64,
}

impl View for Scalar {
    type V = int;

    open spec fn view(&self) -> int {
        self.raw as int
    }
}

/// The exact product of two raw values.
pub(crate) fn wide_mul(a: i64, b: i64) -> (p: i128)
    ensures
        p == a * b,
        -0x4000_0000_0000_0000_0000_0000_0000_0000 <= p <= 0x4000_0000_0000_0000_0000_0000_0000_0000,
{
    assert(-0x4000_0000_0000_0000_0000_0000_0000_0000 <= a * b
        <= 0x4000_0000_0000_0000_0000_0000_0000_0000) by (nonlinear_arith)
        requires
            -0x8000_0000_0000_0000 <= a <= 0x7fff_ffff_ffff_ffff,
            -0x8000_0000_0000_0000 <= b <= 0x7fff_ffff_ffff_ffff,
    ;
    (a as i128) * (b as i128)
}

/// The sum of two wide values, kept within `i128`.
pub(crate) fn wide_sum(x: i128, y: i128) -> (s: i128)
    ensures
        s == clamp_wide(x + y),
{
    if y > 0 && x > i128::MAX - y {
        i128::MAX
    } else if y < 0 && x < i128::MIN - y {
        i128::MIN
    } else {
        x + y
    }
}

/// The difference of two wide values, kept within `i128`.
pub(crate) fn wide_diff(x: i128, y: i128) -> (s: i128)
    ensures
        s == clamp_wide(x - y),
{
    if y < 0 && x > i128::MAX + y {
        i128::MAX
    } else if y > 0 && x < i128::MIN + y {
        i128::MIN
    } else {
        x - y
    }
}

/// The nearest `i64` to a wide value.
pub(crate) fn saturate_wide(x: i128) -> (r: i64)
    ensures
        r == saturate(x as int),
{
    if x < i64::MIN as i128 {
        i64::MIN
    } else if x > i64::MAX as i128 {
        i64::MAX
    } else {
        x as i64
    }
}

/// Divides a wide numerator by a raw divisor.
pub(crate) fn narrow(n: i128, d: i64) -> (r: Scalar)
    ensures
        r@ == fx_ratio(n as int, d as int),
{
    if d == 0 {
        return Scalar { raw: 0 };
    }
    let un: u128 = if n >= 0 {
        n as u128
    } else if n == i128::MIN {
        0x8000_0000_0000_0000_0000_0000_0000_0000u128
    } else {
        (-n) as u128
    };
    let ud: u128 = if d >= 0 {
        d as u128
    } else {
        (-(d as i128)) as u128
    };
    let q: u128 = un / ud;
    let negative: bool = (n < 0) != (d < 0);
    if negative {
        if q >= 0x8000_0000_0000_0000u128 {
            Scalar { raw: i64::MIN }
        } else {
            Scalar { raw: -(q as i64) }
        }
    } else {
        if q > 0x7fff_ffff_ffff_ffffu128 {
            Scalar { raw: i64::MAX }
        } else {
            Scalar { raw: q as i64 }
        }
    }
}

impl Scalar {
    /// The number with the given raw value.
    pub fn from_raw(raw: i64) -> (r: Scalar)
        ensures
            r@ == raw,
    {
        Scalar { raw }
    }

    /// The whole number `n`.
    pub fn from_int(n: i32) -> (r: Scalar)
        ensures
            r@ == n * ONE_RAW,
    {
        Scalar { raw: (n as i64) * ONE_RAW }
    }

    /// Zero.
    pub fn zero() -> (r: Scalar)
        ensures
            r@ == 0,
    {
        Scalar { raw: 0 }
    }

    /// One.
    pub fn one() -> (r: Scalar)
        ensures
            r@ == ONE_RAW,
    {
        Scalar { raw: ONE_RAW }
    }

    /// The threshold below which a mass counts as vanished.
    pub fn epsilon() -> (r: Scalar)
        ensures
            r@ == EPSILON_RAW,
    {
        Scalar { raw: EPSILON_RAW }
    }

    /// The raw value.
    pub fn raw(self) -> (r: i64)
        ensures
            r == self@,
    {
        self.raw
    }

    /// Whether the number is greater than zero.
    pub fn is_positive(self) -> (r: bool)
        ensures
            r == (self@ > 0),
    {
        self.raw > 0
    }

    /// Whether the number is zero.
    pub fn is_zero(self) -> (r: bool)
        ensures
            r == (self@ == 0),
    {
        self.raw == 0
    }

    /// Whether the number is greater than `other`.
    pub fn gt(self, other: Scalar) -> (r: bool)
        ensures
            r == (self@ > other@),
    {
        self.raw > other.raw
    }

    /// The larger of the two numbers.
    pub fn max(self, other: Scalar) -> (r: Scalar)
        ensures
            r@ == fx_max(self@, other@),
    {
        if self.raw >= other.raw {
            self
        } else {
            other
        }
    }

    /// Saturating sum.
    pub fn add(self, rhs: Scalar) -> (r: Scalar)
        ensures
            r@ == fx_add(self@, rhs@),
    {
        Scalar { raw: saturate_wide(self.raw as i128 + rhs.raw as i128) }
    }

    /// Saturating difference.
    pub fn sub(self, rhs: Scalar) -> (r: Scalar)
        ensures
            r@ == fx_sub(self@, rhs@),
    {
        Scalar { raw: saturate_wide(self.raw as i128 - rhs.raw as i128) }
    }

    /// Saturating negation.
    pub fn neg(self) -> (r: Scalar)
        ensures
            r@ == fx_neg(self@),
    {
        Scalar { raw: saturate_wide(-(self.raw as i128)) }
    }

    /// Saturating product, rounded toward zero.
    pub fn mul(self, rhs: Scalar) -> (r: Scalar)
        ensures
            r@ == fx_mul(self@, rhs@),
    {
        narrow(wide_mul(self.raw, rhs.raw), ONE_RAW)
    }

    /// Saturating quotient, rounded toward zero; zero where `rhs` is zero.
    pub fn div(self, rhs: Scalar) -> (r: Scalar)
        ensures
            r@ == fx_div(self@, rhs@),
    {
        narrow(wide_mul(self.raw, ONE_RAW), rhs.raw)
    }

    /// Saturating reciprocal; zero where the number is zero.
    pub fn recip(self) -> (r: Scalar)
        ensures
            r@ == fx_recip(self@),
    {
        narrow(wide_mul(ONE_RAW, ONE_RAW), self.raw)
    }

    /// `(a * wa + b * wb) / d` with a single rounding; zero where `d` is zero.
    pub fn mix(a: Scalar, wa: Scalar, b: Scalar, wb: Scalar, d: Scalar) -> (r: Scalar)
        ensures
            r@ == fx_mix(a@, wa@, b@, wb@, d@),
    {
        let s: i128 = wide_sum(wide_mul(a.raw, wa.raw), wide_mul(b.raw, wb.raw));
        proof {
            lemma_ratio_of_clamped(a@ * wa@ + b@ * wb@, d@);
        }
        narrow(s, d.raw)
    }

    /// `(a * wa - b * wb) / d` with a single rounding; zero where `d` is zero.
    pub fn unmix(a: Scalar, wa: Scalar, b: Scalar, wb: Scalar, d: Scalar) -> (r: Scalar)
        ensures
            r@ == fx_unmix(a@, wa@, b@, wb@, d@),
    {
        let s: i128 = wide_diff(wide_mul(a.raw, wa.raw), wide_mul(b.raw, wb.raw));
        proof {
            lemma_ratio_of_clamped(a@ * wa@ - b@ * wb@, d@);
        }
        narrow(s, d.raw)
    }

    /// `a1 * b1 + a2 * b2 + a3 * b3` with a single rounding.
    pub fn dot3(a1: Scalar, b1: Scalar, a2: Scalar, b2: Scalar, a3: Scalar, b3: Scalar) -> (r:
        Scalar)
        ensures
            r@ == fx_dot3(a1@, b1@, a2@, b2@, a3@, b3@),
    {
        let p3: i128 = wide_mul(a3.raw, b3.raw);
        let s12: i128 = wide_sum(wide_mul(a1.raw, b1.raw), wide_mul(a2.raw, b2.raw));
        let s: i128 = wide_sum(s12, p3);
        proof {
            let exact = a1@ * b1@ + a2@ * b2@ + a3@ * b3@;
            if s != exact {
                lemma_ratio_saturates(s as int, ONE_RAW as int);
                lemma_ratio_saturates(exact, ONE_RAW as int);
            }
        }
        narrow(s, ONE_RAW)
    }
}

} // verus!
