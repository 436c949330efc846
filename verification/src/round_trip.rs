//! Merging a contribution into the mass properties of a body and taking it
//! out again gives the mass properties back, up to the rounding.
//!
//! This is the parallel-axis theorem, used twice: the inertia of each part
//! is moved to the common centre of mass before the two are added or
//! subtracted. The proofs follow the raw values through the two steps and
//! bound what each rounding can add.

use crate::aggregation::{
    ColliderMassProperties2d, ColliderMassProperties3d, MassPropertiesQuery2dItem,
    MassPropertiesQuery3dItem, MassProps2, MassProps3,
};
use crate::inertia::{shift2, shift3};
use crate::matrix::Mat3;
use crate::rounding::{
    lemma_center_shift, lemma_mix_between, lemma_mix_of_equal, lemma_quot_between,
    lemma_quot_remainder, lemma_recip_near, lemma_unmix_of_mix,
};
use crate::scalar::{
    fx_add, fx_mix, fx_mul, fx_recip, fx_sub, fx_unmix, magnitude, quot, EPSILON_RAW, ONE_RAW,
};
use crate::vector::{Vec2, Vec3};
use vstd::prelude::*;

verus! {

/// The moment that a mass adds at an offset, `m |d|²`, is rounded down by
/// less than `m / 2^32 + 1` raw units.
pub proof fn lemma_moment(m: int, d: Vec2)
    requires
        0 <= m <= 0x80_0000_0000,
        magnitude(d.x) <= 0x200_0000_0000,
        magnitude(d.y) <= 0x200_0000_0000,
    ensures
        ({
            let s = fx_mul(d.length_squared(), m);
            let n = d.x * d.x + d.y * d.y;
            &&& 0 <= s <= 0x400_0000_0000_0000
            &&& s * ONE_RAW * ONE_RAW <= m * n
            &&& m * n < s * ONE_RAW * ONE_RAW + m * ONE_RAW + ONE_RAW * ONE_RAW
        }),
{
    let u = ONE_RAW as int;
    let n = d.x * d.x + d.y * d.y;
    assert(0 <= n <= 0x8_0000_0000_0000_0000_0000) by (nonlinear_arith)
        requires
            n == d.x * d.x + d.y * d.y,
            -0x200_0000_0000 <= d.x <= 0x200_0000_0000,
            -0x200_0000_0000 <= d.y <= 0x200_0000_0000,
    ;
    let l = d.length_squared();
    assert(l == n / u);
    assert(0 <= l <= 0x8_0000_0000_0000);
    assert(u * l <= n < u * l + u);
    let lm = l * m;
    assert(0 <= lm <= 0x400_0000_0000_0000_0000_0000) by (nonlinear_arith)
        requires
            lm == l * m,
            0 <= l <= 0x8_0000_0000_0000,
            0 <= m <= 0x80_0000_0000,
    ;
    let s = fx_mul(l, m);
    assert(s == lm / u);
    assert(u * s <= lm < u * s + u);
    assert(s * u * u <= m * n && m * n < s * u * u + m * u + u * u) by (nonlinear_arith)
        requires
            u * l <= n < u * l + u,
            u * s <= lm < u * s + u,
            lm == l * m,
            m >= 0,
            u > 0,
    ;
}

/// The parallel-axis theorem in one coordinate: what two masses at `a` and
/// `b` add about `q`, plus what their sum at `q` adds about `r`, less what
/// the second adds about `r`, is what the first adds about `r`, up to a
/// term in how far `q` is from the centre of mass.
pub proof fn lemma_parallel_axis(a: int, b: int, q: int, r: int, m1: int, m2: int)
    ensures
        m1 * ((q - a) * (q - a)) + m2 * ((q - b) * (q - b)) + (m1 + m2) * ((r - q) * (r - q)) - m2
            * ((r - b) * (r - b)) == 2 * ((a * m1 + b * m2 - q * (m1 + m2)) * (r - q)) + m1 * ((r
            - a) * (r - a)),
{
    let x = q - a;
    let w = q - b;
    let y = r - q;
    let xx = x * x;
    let ww = w * w;
    let yy = y * y;
    let xy = x * y;
    let wy = w * y;
    let rho = a * m1 + b * m2 - q * (m1 + m2);
    assert(r - b == w + y);
    assert(r - a == x + y);
    assert((w + y) * (w + y) == ww + 2 * wy + yy) by (nonlinear_arith)
        requires
            ww == w * w,
            wy == w * y,
            yy == y * y,
    ;
    assert((x + y) * (x + y) == xx + 2 * xy + yy) by (nonlinear_arith)
        requires
            xx == x * x,
            xy == x * y,
            yy == y * y,
    ;
    assert(m2 * (ww + 2 * wy + yy) == m2 * ww + 2 * (m2 * wy) + m2 * yy) by (nonlinear_arith);
    assert(m1 * (xx + 2 * xy + yy) == m1 * xx + 2 * (m1 * xy) + m1 * yy) by (nonlinear_arith);
    assert((m1 + m2) * yy == m1 * yy + m2 * yy) by (nonlinear_arith);
    assert(rho == -(m1 * x) - m2 * w) by (nonlinear_arith)
        requires
            x == q - a,
            w == q - b,
            rho == a * m1 + b * m2 - q * (m1 + m2),
    ;
    assert(rho * y == -(m1 * xy) - m2 * wy) by (nonlinear_arith)
        requires
            rho == -(m1 * x) - m2 * w,
            xy == x * y,
            wy == w * y,
    ;
}

/// The size of one of the terms of the parallel-axis theorem.
proof fn lemma_axis_term(rho: int, e: int, delta: int, m1: int, m2: int)
    requires
        m1 > 0,
        m2 >= 0,
        magnitude(rho) < m1 + m2,
        magnitude(delta) * m1 < 2 * m1 + m2,
    ensures
        magnitude(2 * (rho * e) + m1 * (delta * delta)) <= 2 * ((m1 + m2) * magnitude(e)) + (2
            * m1 + m2) * magnitude(delta),
{
    let mm = m1 + m2;
    let ue = magnitude(e);
    let ud = magnitude(delta);
    assert(magnitude(rho * e) <= mm * ue) by (nonlinear_arith)
        requires
            magnitude(rho) < mm,
            ue == magnitude(e),
    ;
    assert(0 <= m1 * (delta * delta) <= (2 * m1 + m2) * ud) by (nonlinear_arith)
        requires
            ud == magnitude(delta),
            ud * m1 < 2 * m1 + m2,
            m1 > 0,
    ;
}

/// Merging a contribution of positive mass and taking it out again gives
/// back the mass exactly, and the inverse mass that belongs to it.
pub proof fn lemma_round_trip_mass2(p: MassPropertiesQuery2dItem, c: ColliderMassProperties2d)
    requires
        p@.mass >= 0,
        c@.mass > 0,
        p@.mass + c@.mass <= i64::MAX,
    ensures
        p@.combined(c@).decombined(c@).mass == p@.mass,
        p@.combined(c@).decombined(c@).inverse_mass == fx_recip(p@.mass),
        p@.consistent() ==> p@.combined(c@).decombined(c@).inverse_mass == p@.inverse_mass,
{
}

/// Merging a contribution of positive mass into a body whose mass exceeds
/// the threshold and taking it out again gives back the centre of mass up
/// to the rounding of the two quotients: in each component the difference,
/// in raw units and multiplied by the mass of the body, stays under twice
/// that mass plus the mass of the contribution.
pub proof fn lemma_round_trip_center2(p: MassPropertiesQuery2dItem, c: ColliderMassProperties2d)
    requires
        p@.mass > EPSILON_RAW,
        c@.mass > 0,
        p@.mass + c@.mass <= i64::MAX,
    ensures
        ({
            let r = p@.combined(c@).decombined(c@);
            &&& magnitude(r.center_of_mass.x - p@.center_of_mass.x) * p@.mass < 2 * p@.mass
                + c@.mass
            &&& magnitude(r.center_of_mass.y - p@.center_of_mass.y) * p@.mass < 2 * p@.mass
                + c@.mass
            &&& magnitude(r.center_of_mass.x - p@.center_of_mass.x) <= 2 + c@.mass / p@.mass
            &&& magnitude(r.center_of_mass.y - p@.center_of_mass.y) <= 2 + c@.mass / p@.mass
        }),
{
    let r = p@.combined(c@).decombined(c@);
    lemma_unmix_of_mix(p@.center_of_mass.x, p@.mass, c@.center_of_mass.x, c@.mass);
    lemma_unmix_of_mix(p@.center_of_mass.y, p@.mass, c@.center_of_mass.y, c@.mass);
    lemma_center_shift(r.center_of_mass.x - p@.center_of_mass.x, p@.mass, c@.mass);
    lemma_center_shift(r.center_of_mass.y - p@.center_of_mass.y, p@.mass, c@.mass);
}

/// Merging a contribution whose centre of mass is that of the body and
/// taking it out again gives back the mass properties of the body exactly,
/// where the two masses and the two inertias do not leave the range
/// together.
pub proof fn lemma_round_trip_exact2(p: MassPropertiesQuery2dItem, c: ColliderMassProperties2d)
    requires
        p@.consistent(),
        p@.mass > EPSILON_RAW,
        c@.mass > 0,
        p@.mass + c@.mass <= i64::MAX,
        i64::MIN <= p@.inertia + c@.inertia <= i64::MAX,
        c@.center_of_mass == p@.center_of_mass,
    ensures
        p@.combined(c@).decombined(c@) == p@,
{
    let a = p@.center_of_mass;
    let o = Vec2 { x: 0, y: 0 };
    lemma_mix_of_equal(a.x, p@.mass, c@.mass);
    lemma_mix_of_equal(a.y, p@.mass, c@.mass);
    let q = p@.combined(c@);
    assert(q.center_of_mass == a);
    assert(a.minus(a) == o);
    lemma_shift2_by_zero(p@.inertia, p@.mass);
    lemma_shift2_by_zero(c@.inertia, c@.mass);
    assert(q.inertia == p@.inertia + c@.inertia);
    let r = q.decombined(c@);
    assert(r.center_of_mass == a);
    lemma_shift2_by_zero(q.inertia, p@.mass + c@.mass);
    assert(r.inertia == p@.inertia);
}

/// A product with zero is zero.
proof fn lemma_mul_zero(m: int)
    ensures
        fx_mul(0, m) == 0,
{
    assert(0 * m == 0) by (nonlinear_arith);
}

/// Moving a moment of inertia by no offset leaves it unchanged.
pub proof fn lemma_shift2_by_zero(i: int, m: int)
    requires
        i64::MIN <= i <= i64::MAX,
    ensures
        shift2(i, m, Vec2 { x: 0, y: 0 }) == i,
{
    lemma_mul_zero(m);
}

impl MassProps2 {
    /// The bodies and contributions for which this module bounds the round
    /// trip of the inertia: the mass of the body exceeds the threshold,
    /// that of the contribution `c` is positive, the two masses together
    /// and each coordinate of the two centres of mass stay within `2^39`
    /// raw units (128), and the two inertias within `2^58` (`2^26`).
    pub open spec fn in_round_trip_range(self, c: MassProps2) -> bool {
        &&& self.mass > EPSILON_RAW
        &&& c.mass > 0
        &&& self.mass + c.mass <= 0x80_0000_0000
        &&& magnitude(self.center_of_mass.x) <= 0x80_0000_0000
        &&& magnitude(self.center_of_mass.y) <= 0x80_0000_0000
        &&& magnitude(c.center_of_mass.x) <= 0x80_0000_0000
        &&& magnitude(c.center_of_mass.y) <= 0x80_0000_0000
        &&& magnitude(self.inertia) <= 0x400_0000_0000_0000
        &&& magnitude(c.inertia) <= 0x400_0000_0000_0000
    }
}

/// Merging a contribution and taking it out again gives back the inertia up
/// to the rounding: the difference in raw units, times `2^64`, stays under
/// a bound in the merged mass `M` and in how far the centre of mass has
/// moved, and the inverse is that of the inertia that came back.
pub proof fn lemma_round_trip_inertia_steps2(p: MassProps2, c: MassProps2)
    requires
        p.in_round_trip_range(c),
    ensures
        ({
            let q = p.combined(c);
            let r = q.decombined(c);
            let mm = p.mass + c.mass;
            let ex = magnitude(r.center_of_mass.x - q.center_of_mass.x);
            let ey = magnitude(r.center_of_mass.y - q.center_of_mass.y);
            let dx = magnitude(r.center_of_mass.x - p.center_of_mass.x);
            let dy = magnitude(r.center_of_mass.y - p.center_of_mass.y);
            &&& magnitude(r.inertia - p.inertia) * ONE_RAW * ONE_RAW < 2 * (mm * ex) + 2 * (mm
                * ey) + (2 * p.mass + c.mass) * dx + (2 * p.mass + c.mass) * dy + 2 * mm * ONE_RAW
                + 3 * ONE_RAW * ONE_RAW
            &&& dx <= 2 + c.mass / p.mass
            &&& dy <= 2 + c.mass / p.mass
            &&& ex <= dx + magnitude(c.center_of_mass.x - p.center_of_mass.x)
            &&& ey <= dy + magnitude(c.center_of_mass.y - p.center_of_mass.y)
            &&& r.inverse_inertia == fx_recip(r.inertia)
        }),
{
    let u = ONE_RAW as int;
    let m1 = p.mass;
    let m2 = c.mass;
    let mm = m1 + m2;
    let a = p.center_of_mass;
    let b = c.center_of_mass;
    let q = p.combined(c);
    let r = q.decombined(c);
    let qc = q.center_of_mass;
    let rc = r.center_of_mass;

    // The merged centre of mass lies between the two centres.
    lemma_mix_between(a.x, m1, b.x, m2);
    lemma_mix_between(a.y, m1, b.y, m2);
    assert(q.mass == mm);
    assert(magnitude(qc.x) <= 0x80_0000_0000 && magnitude(qc.y) <= 0x80_0000_0000);
    let d1 = qc.minus(a);
    let d2 = qc.minus(b);
    assert(d1.x == qc.x - a.x && d1.y == qc.y - a.y);
    assert(d2.x == qc.x - b.x && d2.y == qc.y - b.y);
    lemma_moment(m1, d1);
    lemma_moment(m2, d2);
    let s1 = fx_mul(d1.length_squared(), m1);
    let s2 = fx_mul(d2.length_squared(), m2);
    assert(q.inertia == p.inertia + s1 + c.inertia + s2);

    // The centre of mass that comes back is near the first.
    lemma_unmix_of_mix(a.x, m1, b.x, m2);
    lemma_unmix_of_mix(a.y, m1, b.y, m2);
    assert(r.mass == m1);
    assert(rc.x == fx_unmix(qc.x, mm, b.x, m2, m1));
    assert(rc.y == fx_unmix(qc.y, mm, b.y, m2, m1));
    lemma_center_shift(rc.x - a.x, m1, m2);
    lemma_center_shift(rc.y - a.y, m1, m2);
    vstd::arithmetic::div_mod::lemma_div_is_ordered(m2, 0x80_0000_0000, m1);
    vstd::arithmetic::div_mod::lemma_div_is_ordered(0, m2, m1);
    assert(0x80_0000_0000int / m1 <= 0x80_0000_0000int / 513) by {
        vstd::arithmetic::div_mod::lemma_div_is_ordered_by_denominator(0x80_0000_0000, 513, m1);
    }
    assert(magnitude(rc.x - a.x) <= 0x1_0000_0000 && magnitude(rc.y - a.y) <= 0x1_0000_0000);
    let e1 = rc.minus(qc);
    let e2 = rc.minus(b);
    assert(e1.x == rc.x - qc.x && e1.y == rc.y - qc.y);
    assert(e2.x == rc.x - b.x && e2.y == rc.y - b.y);
    lemma_moment(mm, e1);
    lemma_moment(m2, e2);
    let t1 = fx_mul(e1.length_squared(), mm);
    let t2 = fx_mul(e2.length_squared(), m2);
    assert(r.inertia == q.inertia + t1 - c.inertia - t2);
    assert(r.inertia - p.inertia == s1 + s2 + t1 - t2);

    // The four moments, before their rounding, add up to the two small terms.
    lemma_parallel_axis(a.x, b.x, qc.x, rc.x, m1, m2);
    lemma_parallel_axis(a.y, b.y, qc.y, rc.y, m1, m2);
    let rho_x = a.x * m1 + b.x * m2 - qc.x * mm;
    let rho_y = a.y * m1 + b.y * m2 - qc.y * mm;
    lemma_quot_remainder(a.x * m1 + b.x * m2, mm);
    lemma_quot_remainder(a.y * m1 + b.y * m2, mm);
    lemma_axis_term(rho_x, e1.x, rc.x - a.x, m1, m2);
    lemma_axis_term(rho_y, e1.y, rc.y - a.y, m1, m2);
    let p1 = m1 * (d1.x * d1.x + d1.y * d1.y);
    let p2 = m2 * (d2.x * d2.x + d2.y * d2.y);
    let q1 = mm * (e1.x * e1.x + e1.y * e1.y);
    let q2 = m2 * (e2.x * e2.x + e2.y * e2.y);
    assert(p1 == m1 * (d1.x * d1.x) + m1 * (d1.y * d1.y)) by (nonlinear_arith)
        requires
            p1 == m1 * (d1.x * d1.x + d1.y * d1.y),
    ;
    assert(p2 == m2 * (d2.x * d2.x) + m2 * (d2.y * d2.y)) by (nonlinear_arith)
        requires
            p2 == m2 * (d2.x * d2.x + d2.y * d2.y),
    ;
    assert(q1 == mm * (e1.x * e1.x) + mm * (e1.y * e1.y)) by (nonlinear_arith)
        requires
            q1 == mm * (e1.x * e1.x + e1.y * e1.y),
    ;
    assert(q2 == m2 * (e2.x * e2.x) + m2 * (e2.y * e2.y)) by (nonlinear_arith)
        requires
            q2 == m2 * (e2.x * e2.x + e2.y * e2.y),
    ;
    let term_x = 2 * (rho_x * e1.x) + m1 * ((rc.x - a.x) * (rc.x - a.x));
    let term_y = 2 * (rho_y * e1.y) + m1 * ((rc.y - a.y) * (rc.y - a.y));
    assert(p1 + p2 + q1 - q2 == term_x + term_y);
}

/// Merging a contribution and taking it out again gives back the inertia up
/// to the rounding. With `M` for the two masses together, `D` for the
/// distance of the two centres of mass, summed over the coordinates, and
/// `k` for two plus the ratio of the mass of the contribution to the mass
/// of the body, the difference in raw units, times `2^64`, stays under
/// `2 M (D + 4 k + 2^32) + 3 * 2^64`: about `2 M (D + 1) + 3` raw units
/// for `M` and `D` in whole units. For every body in the range that is
/// less than `2^18` raw units.
pub proof fn lemma_round_trip_inertia2(p: MassPropertiesQuery2dItem, c: ColliderMassProperties2d)
    requires
        p@.in_round_trip_range(c@),
    ensures
        ({
            let r = p@.combined(c@).decombined(c@);
            let mm = p@.mass + c@.mass;
            let k = 2 + c@.mass / p@.mass;
            let dist = magnitude(c@.center_of_mass.x - p@.center_of_mass.x) + magnitude(
                c@.center_of_mass.y - p@.center_of_mass.y,
            );
            &&& magnitude(r.inertia - p@.inertia) * ONE_RAW * ONE_RAW < 2 * (mm * (dist + 4 * k
                + ONE_RAW)) + 3 * ONE_RAW * ONE_RAW
            &&& magnitude(r.inertia - p@.inertia) < 0x4_0000
            &&& r.inverse_inertia == fx_recip(r.inertia)
        }),
{
    let q = p@.combined(c@);
    let r = q.decombined(c@);
    let m1 = p@.mass;
    let m2 = c@.mass;
    let mm = m1 + m2;
    let k = 2 + m2 / m1;
    let gx = magnitude(c@.center_of_mass.x - p@.center_of_mass.x);
    let gy = magnitude(c@.center_of_mass.y - p@.center_of_mass.y);
    let ex = magnitude(r.center_of_mass.x - q.center_of_mass.x);
    let ey = magnitude(r.center_of_mass.y - q.center_of_mass.y);
    let dx = magnitude(r.center_of_mass.x - p@.center_of_mass.x);
    let dy = magnitude(r.center_of_mass.y - p@.center_of_mass.y);
    lemma_round_trip_inertia_steps2(p@, c@);
    assert(2 * (mm * ex) + 2 * (mm * ey) + (2 * m1 + m2) * dx + (2 * m1 + m2) * dy <= 2 * (mm * (
        gx + gy + 4 * k))) by (nonlinear_arith)
        requires
            0 <= ex <= dx + gx,
            0 <= ey <= dy + gy,
            0 <= dx <= k,
            0 <= dy <= k,
            mm == m1 + m2,
            m1 > 0,
            m2 > 0,
    ;
    assert(mm * (gx + gy + 4 * k + ONE_RAW) == mm * (gx + gy + 4 * k) + mm * ONE_RAW)
        by (nonlinear_arith);
    vstd::arithmetic::div_mod::lemma_div_is_ordered(m2, 0x80_0000_0000, m1);
    vstd::arithmetic::div_mod::lemma_div_is_ordered_by_denominator(0x80_0000_0000, 513, m1);
    assert(k <= 0x4000_0000);
    assert(mm * (gx + gy + 4 * k + ONE_RAW) <= 0x80_0000_0000 * 0x204_0000_0000) by (nonlinear_arith)
        requires
            0 < mm <= 0x80_0000_0000,
            0 <= gx + gy + 4 * k + ONE_RAW <= 0x204_0000_0000,
    ;
}

/// Merging a contribution into a body and taking it out again gives the
/// mass properties of the body back: the mass and the inverse mass exactly,
/// each coordinate of the centre of mass, the inertia and the inverse
/// inertia within `2^21` raw units, which is less than 0.0005.
///
/// This holds of a body with consistent mass properties, a mass above the
/// threshold and an inertia of at least one, and of a contribution with a
/// positive mass of at most `2^20` times that of the body, where the two
/// are in the range of [`MassProps2::in_round_trip_range`].
pub proof fn lemma_round_trip2(p: MassPropertiesQuery2dItem, c: ColliderMassProperties2d)
    requires
        p@.consistent(),
        p@.in_round_trip_range(c@),
        c@.mass <= 0x10_0000 * p@.mass,
        p@.inertia >= ONE_RAW,
    ensures
        ({
            let r = p@.combined(c@).decombined(c@);
            &&& r.mass == p@.mass
            &&& r.inverse_mass == p@.inverse_mass
            &&& magnitude(r.center_of_mass.x - p@.center_of_mass.x) <= 0x10_0002
            &&& magnitude(r.center_of_mass.y - p@.center_of_mass.y) <= 0x10_0002
            &&& magnitude(r.inertia - p@.inertia) < 0x4_0000
            &&& magnitude(r.inverse_inertia - p@.inverse_inertia) < 0x20_0000
        }),
{
    let r = p@.combined(c@).decombined(c@);
    lemma_round_trip_mass2(p, c);
    lemma_round_trip_inertia_steps2(p@, c@);
    lemma_round_trip_inertia2(p, c);
    vstd::arithmetic::div_mod::lemma_div_is_ordered(c@.mass, 0x10_0000 * p@.mass, p@.mass);
    vstd::arithmetic::div_mod::lemma_div_multiples_vanish(0x10_0000, p@.mass);
    assert(p@.mass * 0x10_0000 == 0x10_0000 * p@.mass);
    if r.inertia <= p@.inertia {
        lemma_recip_near(r.inertia, p@.inertia);
    } else {
        lemma_recip_near(p@.inertia, r.inertia);
    }
}

/// What a mass `m` at the offset `d` adds to one entry of the inertia
/// tensor, before any rounding and times `2^64`: `m (|d|² - d_row d_col)` on
/// the diagonal, `-m d_row d_col` off it.
pub open spec fn exact_term(m: int, d: Vec3, row: int, col: int) -> int {
    let n = if row == col {
        d.x * d.x + d.y * d.y + d.z * d.z
    } else {
        0
    };
    m * n - m * (d.at(row) * d.at(col))
}

/// What a mass `m` at the offset `d` adds to one entry of the inertia
/// tensor: `m (|d|² - d_row d_col)` on the diagonal, `-m d_row d_col` off it.
#[verifier::opaque]
pub open spec fn tensor_term(m: int, d: Vec3, row: int, col: int) -> int {
    let len = if row == col {
        d.length_squared()
    } else {
        0
    };
    fx_mul(fx_sub(len, fx_mul(d.at(row), d.at(col))), m)
}

/// Each entry of a moved tensor is the entry plus the term of the mass.
pub proof fn lemma_shift3_entry(i: Mat3, m: int, d: Vec3, row: int, col: int)
    requires
        0 <= row < 3,
        0 <= col < 3,
    ensures
        shift3(i, m, d).at(row, col) == fx_add(i.at(row, col), tensor_term(m, d, row, col)),
{
    reveal(tensor_term);
}

/// The term of a mass in one entry of the tensor is within `m / 2^31 + 1`
/// raw units of `m (|d|² - d_row d_col)`, or of `-m d_row d_col`.
proof fn lemma_tensor_term(m: int, d: Vec3, row: int, col: int)
    requires
        0 <= m <= 0x80_0000_0000,
        magnitude(d.x) <= 0x200_0000_0000,
        magnitude(d.y) <= 0x200_0000_0000,
        magnitude(d.z) <= 0x200_0000_0000,
        0 <= row < 3,
        0 <= col < 3,
    ensures
        magnitude(tensor_term(m, d, row, col)) <= 0x1000_0000_0000_0000,
        magnitude(tensor_term(m, d, row, col) * ONE_RAW * ONE_RAW - exact_term(m, d, row, col))
            < ONE_RAW * ONE_RAW + 2 * m * ONE_RAW,
{
    reveal(tensor_term);
    let u = ONE_RAW as int;
    let sq = d.x * d.x + d.y * d.y + d.z * d.z;
    assert(0 <= sq <= 0xc_0000_0000_0000_0000_0000) by (nonlinear_arith)
        requires
            sq == d.x * d.x + d.y * d.y + d.z * d.z,
            -0x200_0000_0000 <= d.x <= 0x200_0000_0000,
            -0x200_0000_0000 <= d.y <= 0x200_0000_0000,
            -0x200_0000_0000 <= d.z <= 0x200_0000_0000,
    ;
    let full = d.length_squared();
    assert(full == sq / u);
    assert(u * full <= sq < u * full + u);
    let len = if row == col { full } else { 0 };
    let n = if row == col { sq } else { 0 };
    assert(0 <= len <= 0xc_0000_0000_0000);
    assert(u * len <= n < u * len + u);
    let di = d.at(row);
    let dj = d.at(col);
    let dd = di * dj;
    assert(magnitude(dd) <= 0x4_0000_0000_0000_0000_0000) by (nonlinear_arith)
        requires
            dd == di * dj,
            -0x200_0000_0000 <= di <= 0x200_0000_0000,
            -0x200_0000_0000 <= dj <= 0x200_0000_0000,
    ;
    let f = fx_mul(di, dj);
    lemma_quot_remainder(dd, u);
    lemma_quot_between(dd, u, -0x4_0000_0000_0000, 0x4_0000_0000_0000);
    assert(f == quot(dd, u));
    assert(magnitude(dd - f * u) < u);
    let v = fx_sub(len, f);
    assert(v == len - f);
    assert(magnitude(v) <= 0x10_0000_0000_0000);
    assert(magnitude(v * u - (n - dd)) < 2 * u);
    let vm = v * m;
    assert(magnitude(vm) <= 0x10_0000_0000_0000 * 0x80_0000_0000) by (nonlinear_arith)
        requires
            vm == v * m,
            -0x10_0000_0000_0000 <= v <= 0x10_0000_0000_0000,
            0 <= m <= 0x80_0000_0000,
    ;
    let w = fx_mul(v, m);
    lemma_quot_remainder(vm, u);
    lemma_quot_between(vm, u, -0x800_0000_0000_0000, 0x800_0000_0000_0000);
    assert(w == quot(vm, u));
    assert(magnitude(vm - w * u) < u);
    assert(magnitude(w * u * u - (m * n - m * dd)) < u * u + 2 * m * u) by (nonlinear_arith)
        requires
            -u < vm - w * u < u,
            -2 * u < v * u - (n - dd) < 2 * u,
            vm == v * m,
            m >= 0,
            u > 0,
    ;
}

/// The parallel-axis theorem for a pair of coordinates `i` and `j`: what
/// two masses at `a` and `b` add about `q`, plus what their sum at `q`
/// adds about `r`, less what the second adds about `r`, is what the first
/// adds about `r`, up to two terms in how far `q` is from the centre of mass.
pub proof fn lemma_parallel_axis_pair(
    ai: int,
    bi: int,
    qi: int,
    ri: int,
    aj: int,
    bj: int,
    qj: int,
    rj: int,
    m1: int,
    m2: int,
)
    ensures
        m1 * ((qi - ai) * (qj - aj)) + m2 * ((qi - bi) * (qj - bj)) + (m1 + m2) * ((ri - qi) * (rj
            - qj)) - m2 * ((ri - bi) * (rj - bj)) == (aj * m1 + bj * m2 - qj * (m1 + m2)) * (ri
            - qi) + (ai * m1 + bi * m2 - qi * (m1 + m2)) * (rj - qj) + m1 * ((ri - ai) * (rj
            - aj)),
{
    let xi = qi - ai;
    let wi = qi - bi;
    let yi = ri - qi;
    let xj = qj - aj;
    let wj = qj - bj;
    let yj = rj - qj;
    let xx = xi * xj;
    let ww = wi * wj;
    let yy = yi * yj;
    let xy = xi * yj;
    let yx = yi * xj;
    let wy = wi * yj;
    let yw = yi * wj;
    let rho_i = ai * m1 + bi * m2 - qi * (m1 + m2);
    let rho_j = aj * m1 + bj * m2 - qj * (m1 + m2);
    assert(ri - bi == wi + yi && rj - bj == wj + yj);
    assert(ri - ai == xi + yi && rj - aj == xj + yj);
    assert((wi + yi) * (wj + yj) == ww + wy + yw + yy) by (nonlinear_arith)
        requires
            ww == wi * wj,
            wy == wi * yj,
            yw == yi * wj,
            yy == yi * yj,
    ;
    assert((xi + yi) * (xj + yj) == xx + xy + yx + yy) by (nonlinear_arith)
        requires
            xx == xi * xj,
            xy == xi * yj,
            yx == yi * xj,
            yy == yi * yj,
    ;
    assert(m2 * (ww + wy + yw + yy) == m2 * ww + m2 * wy + m2 * yw + m2 * yy)
        by (nonlinear_arith);
    assert(m1 * (xx + xy + yx + yy) == m1 * xx + m1 * xy + m1 * yx + m1 * yy)
        by (nonlinear_arith);
    assert((m1 + m2) * yy == m1 * yy + m2 * yy) by (nonlinear_arith);
    assert(rho_i == -(m1 * xi) - m2 * wi) by (nonlinear_arith)
        requires
            xi == qi - ai,
            wi == qi - bi,
            rho_i == ai * m1 + bi * m2 - qi * (m1 + m2),
    ;
    assert(rho_j == -(m1 * xj) - m2 * wj) by (nonlinear_arith)
        requires
            xj == qj - aj,
            wj == qj - bj,
            rho_j == aj * m1 + bj * m2 - qj * (m1 + m2),
    ;
    assert(rho_i * yj == -(m1 * xy) - m2 * wy) by (nonlinear_arith)
        requires
            rho_i == -(m1 * xi) - m2 * wi,
            xy == xi * yj,
            wy == wi * yj,
    ;
    assert(rho_j * yi == -(m1 * yx) - m2 * yw) by (nonlinear_arith)
        requires
            rho_j == -(m1 * xj) - m2 * wj,
            yx == yi * xj,
            yw == yi * wj,
    ;
}

/// The size of the terms of the parallel-axis theorem for a pair of
/// coordinates, for masses and distances in the range of the round trip.
proof fn lemma_axis_term_pair(
    rho_i: int,
    rho_j: int,
    ei: int,
    ej: int,
    delta_i: int,
    delta_j: int,
    m1: int,
    m2: int,
)
    requires
        m1 > 0,
        m2 >= 0,
        m1 + m2 <= 0x80_0000_0000,
        magnitude(rho_i) < m1 + m2,
        magnitude(rho_j) < m1 + m2,
        magnitude(ei) <= 0x101_0000_0000,
        magnitude(ej) <= 0x101_0000_0000,
        magnitude(delta_i) * m1 < 2 * m1 + m2,
        magnitude(delta_j) <= 0x1_0000_0000,
    ensures
        magnitude(rho_j * ei + rho_i * ej + m1 * (delta_i * delta_j)) <= 0x1_0300_0000_0000_0000_0000,
{
    let mm = m1 + m2;
    assert(magnitude(rho_j * ei) <= 0x80_0000_0000 * 0x101_0000_0000) by (nonlinear_arith)
        requires
            magnitude(rho_j) < mm,
            mm <= 0x80_0000_0000,
            magnitude(ei) <= 0x101_0000_0000,
    ;
    assert(magnitude(rho_i * ej) <= 0x80_0000_0000 * 0x101_0000_0000) by (nonlinear_arith)
        requires
            magnitude(rho_i) < mm,
            mm <= 0x80_0000_0000,
            magnitude(ej) <= 0x101_0000_0000,
    ;
    let md = m1 * magnitude(delta_i);
    assert(md == magnitude(delta_i) * m1) by (nonlinear_arith)
        requires
            md == m1 * magnitude(delta_i),
    ;
    assert(magnitude(m1 * (delta_i * delta_j)) <= 0x100_0000_0000 * 0x1_0000_0000)
        by (nonlinear_arith)
        requires
            md == m1 * magnitude(delta_i),
            0 <= md < 0x100_0000_0000,
            m1 > 0,
            magnitude(delta_j) <= 0x1_0000_0000,
    ;
}

/// Moving a tensor by no offset leaves it unchanged.
pub proof fn lemma_shift3_by_zero(i: Mat3, m: int)
    requires
        forall|row: int, col: int|
            0 <= row < 3 && 0 <= col < 3 ==> i64::MIN <= #[trigger] i.at(row, col) <= i64::MAX,
    ensures
        shift3(i, m, Vec3 { x: 0, y: 0, z: 0 }) == i,
{
    lemma_mul_zero(m);
    assert(i64::MIN <= i.at(0, 0) <= i64::MAX && i64::MIN <= i.at(1, 0) <= i64::MAX && i64::MIN
        <= i.at(2, 0) <= i64::MAX);
    assert(i64::MIN <= i.at(0, 1) <= i64::MAX && i64::MIN <= i.at(1, 1) <= i64::MAX && i64::MIN
        <= i.at(2, 1) <= i64::MAX);
    assert(i64::MIN <= i.at(0, 2) <= i64::MAX && i64::MIN <= i.at(1, 2) <= i64::MAX && i64::MIN
        <= i.at(2, 2) <= i64::MAX);
}

/// Merging a contribution whose centre of mass is that of the body and
/// taking it out again gives back the mass properties of the body exactly,
/// where the two masses and the entries of the two inertia tensors do not
/// leave the range together.
pub proof fn lemma_round_trip_exact3(p: MassPropertiesQuery3dItem, c: ColliderMassProperties3d)
    requires
        p@.consistent(),
        p@.mass > EPSILON_RAW,
        c@.mass > 0,
        p@.mass + c@.mass <= i64::MAX,
        forall|row: int, col: int|
            0 <= row < 3 && 0 <= col < 3 ==> i64::MIN <= #[trigger] p@.inertia.at(row, col)
                + c@.inertia.at(row, col) <= i64::MAX,
        c@.center_of_mass == p@.center_of_mass,
    ensures
        p@.combined(c@).decombined(c@) == p@,
{
    let a = p@.center_of_mass;
    let o = Vec3 { x: 0, y: 0, z: 0 };
    lemma_mix_of_equal(a.x, p@.mass, c@.mass);
    lemma_mix_of_equal(a.y, p@.mass, c@.mass);
    lemma_mix_of_equal(a.z, p@.mass, c@.mass);
    let q = p@.combined(c@);
    assert(q.center_of_mass == a);
    assert(a.minus(a) == o);
    lemma_shift3_by_zero(p@.inertia, p@.mass);
    lemma_shift3_by_zero(c@.inertia, c@.mass);
    assert(q.inertia == p@.inertia.plus(c@.inertia));
    let r = q.decombined(c@);
    assert(r.center_of_mass == a);
    lemma_sum_in_range(p@.inertia, c@.inertia);
    lemma_shift3_by_zero(q.inertia, p@.mass + c@.mass);
    assert(r.inertia == q.inertia.minus(c@.inertia));
    assert(r.inertia == p@.inertia);
}

/// The sum of two matrices is the sum of their entries, where no entry of
/// the sum leaves the range.
proof fn lemma_sum_in_range(i: Mat3, j: Mat3)
    requires
        forall|row: int, col: int|
            0 <= row < 3 && 0 <= col < 3 ==> i64::MIN <= #[trigger] i.at(row, col) + j.at(
                row,
                col,
            ) <= i64::MAX,
    ensures
        i.plus(j) == (Mat3 {
            x_axis: Vec3 {
                x: i.x_axis.x + j.x_axis.x,
                y: i.x_axis.y + j.x_axis.y,
                z: i.x_axis.z + j.x_axis.z,
            },
            y_axis: Vec3 {
                x: i.y_axis.x + j.y_axis.x,
                y: i.y_axis.y + j.y_axis.y,
                z: i.y_axis.z + j.y_axis.z,
            },
            z_axis: Vec3 {
                x: i.z_axis.x + j.z_axis.x,
                y: i.z_axis.y + j.z_axis.y,
                z: i.z_axis.z + j.z_axis.z,
            },
        }),
{
    assert(i.at(0, 0) + j.at(0, 0) == i.x_axis.x + j.x_axis.x);
    assert(i.at(1, 0) + j.at(1, 0) == i.x_axis.y + j.x_axis.y);
    assert(i.at(2, 0) + j.at(2, 0) == i.x_axis.z + j.x_axis.z);
    assert(i.at(0, 1) + j.at(0, 1) == i.y_axis.x + j.y_axis.x);
    assert(i.at(1, 1) + j.at(1, 1) == i.y_axis.y + j.y_axis.y);
    assert(i.at(2, 1) + j.at(2, 1) == i.y_axis.z + j.y_axis.z);
    assert(i.at(0, 2) + j.at(0, 2) == i.z_axis.x + j.z_axis.x);
    assert(i.at(1, 2) + j.at(1, 2) == i.z_axis.y + j.z_axis.y);
    assert(i.at(2, 2) + j.at(2, 2) == i.z_axis.z + j.z_axis.z);
}

impl MassProps3 {
    /// The bodies and contributions for which this module bounds the round
    /// trip of the inertia: the mass of the body exceeds the threshold,
    /// that of the contribution `c` is positive, the two masses together
    /// and each coordinate of the two centres of mass stay within `2^39`
    /// raw units (128), and each entry of the two inertia tensors within
    /// `2^58` (`2^26`).
    pub open spec fn in_round_trip_range(self, c: MassProps3) -> bool {
        &&& self.mass > EPSILON_RAW
        &&& c.mass > 0
        &&& self.mass + c.mass <= 0x80_0000_0000
        &&& forall|k: int|
            0 <= k < 3 ==> magnitude(#[trigger] self.center_of_mass.at(k)) <= 0x80_0000_0000
        &&& forall|k: int|
            0 <= k < 3 ==> magnitude(#[trigger] c.center_of_mass.at(k)) <= 0x80_0000_0000
        &&& forall|row: int, col: int|
            0 <= row < 3 && 0 <= col < 3 ==> magnitude(#[trigger] self.inertia.at(row, col))
                <= 0x400_0000_0000_0000
        &&& forall|row: int, col: int|
            0 <= row < 3 && 0 <= col < 3 ==> magnitude(#[trigger] c.inertia.at(row, col))
                <= 0x400_0000_0000_0000
    }
}

/// What merging and taking out again are made of, for a body and a
/// contribution with positive masses that do not leave the range together.
proof fn lemma_round_trip_parts3(p: MassProps3, c: MassProps3)
    requires
        p.mass > EPSILON_RAW,
        c.mass > 0,
        p.mass + c.mass <= 0x80_0000_0000,
    ensures
        ({
            let mm = p.mass + c.mass;
            let q = p.combined(c);
            let r = q.decombined(c);
            let qc = q.center_of_mass;
            let rc = r.center_of_mass;
            &&& q.mass == mm
            &&& qc == Vec3::mix(p.center_of_mass, p.mass, c.center_of_mass, c.mass, mm)
            &&& q.inertia == shift3(p.inertia, p.mass, qc.minus(p.center_of_mass)).plus(
                shift3(c.inertia, c.mass, qc.minus(c.center_of_mass)),
            )
            &&& r.mass == p.mass
            &&& rc == Vec3::unmix(qc, mm, c.center_of_mass, c.mass, p.mass)
            &&& r.inertia == shift3(q.inertia, mm, rc.minus(qc)).minus(
                shift3(c.inertia, c.mass, rc.minus(c.center_of_mass)),
            )
            &&& r.inverse_inertia == r.inertia.inverted()
        }),
{
}

/// Where one coordinate of the centres of mass lies in the round trip: of
/// the merged one between the two, of the one that comes back near the first.
proof fn lemma_round_trip_center_at(p: MassProps3, c: MassProps3, k: int)
    requires
        p.in_round_trip_range(c),
        0 <= k < 3,
    ensures
        ({
            let m1 = p.mass;
            let m2 = c.mass;
            let a = p.center_of_mass.at(k);
            let b = c.center_of_mass.at(k);
            let q = p.combined(c).center_of_mass;
            let r = p.combined(c).decombined(c).center_of_mass;
            &&& magnitude(a) <= 0x80_0000_0000
            &&& magnitude(b) <= 0x80_0000_0000
            &&& magnitude(q.at(k)) <= 0x80_0000_0000
            &&& magnitude(a * m1 + b * m2 - q.at(k) * (m1 + m2)) < m1 + m2
            &&& magnitude(r.at(k) - a) * m1 < 2 * m1 + m2
            &&& magnitude(r.at(k) - a) <= 0x1_0000_0000
            &&& q.minus(p.center_of_mass).at(k) == q.at(k) - a
            &&& q.minus(c.center_of_mass).at(k) == q.at(k) - b
            &&& r.minus(q).at(k) == r.at(k) - q.at(k)
            &&& r.minus(c.center_of_mass).at(k) == r.at(k) - b
        }),
{
    let m1 = p.mass;
    let m2 = c.mass;
    let mm = m1 + m2;
    let a = p.center_of_mass.at(k);
    let b = c.center_of_mass.at(k);
    let q = p.combined(c).center_of_mass;
    let r = p.combined(c).decombined(c).center_of_mass;
    lemma_round_trip_parts3(p, c);
    assert(magnitude(a) <= 0x80_0000_0000);
    assert(magnitude(b) <= 0x80_0000_0000);
    assert(q.at(k) == fx_mix(a, m1, b, m2, mm));
    assert(r.at(k) == fx_unmix(q.at(k), mm, b, m2, m1));
    lemma_mix_between(a, m1, b, m2);
    lemma_quot_remainder(a * m1 + b * m2, mm);
    lemma_unmix_of_mix(a, m1, b, m2);
    lemma_center_shift(r.at(k) - a, m1, m2);
    vstd::arithmetic::div_mod::lemma_div_is_ordered(m2, 0x80_0000_0000, m1);
    vstd::arithmetic::div_mod::lemma_div_is_ordered_by_denominator(0x80_0000_0000, 513, m1);
}

/// The four terms of one pair of coordinates in the round trip, before
/// their rounding, are small together.
proof fn lemma_round_trip_pair3(p: MassProps3, c: MassProps3, i: int, j: int)
    requires
        p.in_round_trip_range(c),
        0 <= i < 3,
        0 <= j < 3,
    ensures
        ({
            let q = p.combined(c);
            let r = q.decombined(c);
            let d1 = q.center_of_mass.minus(p.center_of_mass);
            let d2 = q.center_of_mass.minus(c.center_of_mass);
            let e1 = r.center_of_mass.minus(q.center_of_mass);
            let e2 = r.center_of_mass.minus(c.center_of_mass);
            magnitude(
                p.mass * (d1.at(i) * d1.at(j)) + c.mass * (d2.at(i) * d2.at(j)) + (p.mass + c.mass)
                    * (e1.at(i) * e1.at(j)) - c.mass * (e2.at(i) * e2.at(j)),
            ) <= 0x1_0300_0000_0000_0000_0000
        }),
{
    let m1 = p.mass;
    let m2 = c.mass;
    let mm = m1 + m2;
    let a = p.center_of_mass;
    let b = c.center_of_mass;
    let qc = p.combined(c).center_of_mass;
    let rc = p.combined(c).decombined(c).center_of_mass;
    lemma_round_trip_center_at(p, c, i);
    lemma_round_trip_center_at(p, c, j);
    lemma_parallel_axis_pair(
        a.at(i),
        b.at(i),
        qc.at(i),
        rc.at(i),
        a.at(j),
        b.at(j),
        qc.at(j),
        rc.at(j),
        m1,
        m2,
    );
    lemma_axis_term_pair(
        a.at(i) * m1 + b.at(i) * m2 - qc.at(i) * mm,
        a.at(j) * m1 + b.at(j) * m2 - qc.at(j) * mm,
        rc.at(i) - qc.at(i),
        rc.at(j) - qc.at(j),
        rc.at(i) - a.at(i),
        rc.at(j) - a.at(j),
        m1,
        m2,
    );
}

/// The square of the length of a vector times a mass, coordinate by coordinate.
proof fn lemma_square_parts(m: int, d: Vec3)
    ensures
        m * (d.x * d.x + d.y * d.y + d.z * d.z) == m * (d.at(0) * d.at(0)) + m * (d.at(1) * d.at(
            1,
        )) + m * (d.at(2) * d.at(2)),
        m * 0 == 0,
{
    let xx = d.x * d.x;
    let yy = d.y * d.y;
    let zz = d.z * d.z;
    assert(m * (xx + yy + zz) == m * xx + m * yy + m * zz) by (nonlinear_arith);
}

/// Four rounded terms whose exact values are small together are small together.
proof fn lemma_rounded_terms(
    m1: int,
    m2: int,
    s1: int,
    s2: int,
    t1: int,
    t2: int,
    x1: int,
    x2: int,
    x3: int,
    x4: int,
)
    requires
        m1 > 0,
        m2 > 0,
        m1 + m2 <= 0x80_0000_0000,
        magnitude(s1 * ONE_RAW * ONE_RAW - x1) < ONE_RAW * ONE_RAW + 2 * m1 * ONE_RAW,
        magnitude(s2 * ONE_RAW * ONE_RAW - x2) < ONE_RAW * ONE_RAW + 2 * m2 * ONE_RAW,
        magnitude(t1 * ONE_RAW * ONE_RAW - x3) < ONE_RAW * ONE_RAW + 2 * (m1 + m2) * ONE_RAW,
        magnitude(t2 * ONE_RAW * ONE_RAW - x4) < ONE_RAW * ONE_RAW + 2 * m2 * ONE_RAW,
        magnitude(x1 + x2 + x3 - x4) <= 4 * 0x1_0300_0000_0000_0000_0000,
    ensures
        magnitude(s1 + s2 + t1 - t2) < 0x8_0000,
{
}

/// The offsets between the centres of mass in the round trip stay within
/// `2^41` raw units in each coordinate.
proof fn lemma_round_trip_offsets3(p: MassProps3, c: MassProps3)
    requires
        p.in_round_trip_range(c),
    ensures
        ({
            let q = p.combined(c);
            let r = q.decombined(c);
            let d1 = q.center_of_mass.minus(p.center_of_mass);
            let d2 = q.center_of_mass.minus(c.center_of_mass);
            let e1 = r.center_of_mass.minus(q.center_of_mass);
            let e2 = r.center_of_mass.minus(c.center_of_mass);
            &&& magnitude(d1.x) <= 0x200_0000_0000
            &&& magnitude(d1.y) <= 0x200_0000_0000
            &&& magnitude(d1.z) <= 0x200_0000_0000
            &&& magnitude(d2.x) <= 0x200_0000_0000
            &&& magnitude(d2.y) <= 0x200_0000_0000
            &&& magnitude(d2.z) <= 0x200_0000_0000
            &&& magnitude(e1.x) <= 0x200_0000_0000
            &&& magnitude(e1.y) <= 0x200_0000_0000
            &&& magnitude(e1.z) <= 0x200_0000_0000
            &&& magnitude(e2.x) <= 0x200_0000_0000
            &&& magnitude(e2.y) <= 0x200_0000_0000
            &&& magnitude(e2.z) <= 0x200_0000_0000
        }),
{
    let q = p.combined(c);
    let r = q.decombined(c);
    let d1 = q.center_of_mass.minus(p.center_of_mass);
    let d2 = q.center_of_mass.minus(c.center_of_mass);
    let e1 = r.center_of_mass.minus(q.center_of_mass);
    let e2 = r.center_of_mass.minus(c.center_of_mass);
    lemma_round_trip_center_at(p, c, 0);
    lemma_round_trip_center_at(p, c, 1);
    lemma_round_trip_center_at(p, c, 2);
    assert(d1.at(0) == d1.x && d1.at(1) == d1.y && d1.at(2) == d1.z);
    assert(d2.at(0) == d2.x && d2.at(1) == d2.y && d2.at(2) == d2.z);
    assert(e1.at(0) == e1.x && e1.at(1) == e1.y && e1.at(2) == e1.z);
    assert(e2.at(0) == e2.x && e2.at(1) == e2.y && e2.at(2) == e2.z);
}

/// An entry of a tensor to which two terms are added, with another tensor
/// and its term first added and then taken off, is the entry plus the
/// three terms less the fourth, where nothing leaves the range.
proof fn lemma_entry_terms(
    i1: Mat3,
    i2: Mat3,
    m1: int,
    m2: int,
    d1: Vec3,
    d2: Vec3,
    e1: Vec3,
    e2: Vec3,
    row: int,
    col: int,
)
    requires
        0 < m1,
        0 < m2,
        m1 + m2 <= 0x80_0000_0000,
        magnitude(i1.at(row, col)) <= 0x400_0000_0000_0000,
        magnitude(i2.at(row, col)) <= 0x400_0000_0000_0000,
        magnitude(d1.x) <= 0x200_0000_0000,
        magnitude(d1.y) <= 0x200_0000_0000,
        magnitude(d1.z) <= 0x200_0000_0000,
        magnitude(d2.x) <= 0x200_0000_0000,
        magnitude(d2.y) <= 0x200_0000_0000,
        magnitude(d2.z) <= 0x200_0000_0000,
        magnitude(e1.x) <= 0x200_0000_0000,
        magnitude(e1.y) <= 0x200_0000_0000,
        magnitude(e1.z) <= 0x200_0000_0000,
        magnitude(e2.x) <= 0x200_0000_0000,
        magnitude(e2.y) <= 0x200_0000_0000,
        magnitude(e2.z) <= 0x200_0000_0000,
        0 <= row < 3,
        0 <= col < 3,
    ensures
        shift3(shift3(i1, m1, d1).plus(shift3(i2, m2, d2)), m1 + m2, e1).minus(
            shift3(i2, m2, e2),
        ).at(row, col) == i1.at(row, col) + tensor_term(m1, d1, row, col) + tensor_term(
            m2,
            d2,
            row,
            col,
        ) + tensor_term(m1 + m2, e1, row, col) - tensor_term(m2, e2, row, col),
{
    let mm = m1 + m2;
    let s1 = tensor_term(m1, d1, row, col);
    let s2 = tensor_term(m2, d2, row, col);
    let t1 = tensor_term(mm, e1, row, col);
    let t2 = tensor_term(m2, e2, row, col);
    lemma_tensor_term(m1, d1, row, col);
    lemma_tensor_term(m2, d2, row, col);
    lemma_tensor_term(mm, e1, row, col);
    lemma_tensor_term(m2, e2, row, col);
    let f1 = shift3(i1, m1, d1);
    let f2 = shift3(i2, m2, d2);
    lemma_shift3_entry(i1, m1, d1, row, col);
    lemma_shift3_entry(i2, m2, d2, row, col);
    let sum = f1.plus(f2);
    assert(sum.at(row, col) == fx_add(f1.at(row, col), f2.at(row, col)));
    let g1 = shift3(sum, mm, e1);
    let g2 = shift3(i2, m2, e2);
    lemma_shift3_entry(sum, mm, e1, row, col);
    lemma_shift3_entry(i2, m2, e2, row, col);
    assert(g1.minus(g2).at(row, col) == fx_sub(g1.at(row, col), g2.at(row, col)));
}

/// Each entry of the tensor that comes back is the first plus four rounded
/// terms, the last of them taken off.
proof fn lemma_round_trip_entry_terms3(p: MassProps3, c: MassProps3, row: int, col: int)
    requires
        p.in_round_trip_range(c),
        0 <= row < 3,
        0 <= col < 3,
    ensures
        ({
            let q = p.combined(c);
            let r = q.decombined(c);
            let d1 = q.center_of_mass.minus(p.center_of_mass);
            let d2 = q.center_of_mass.minus(c.center_of_mass);
            let e1 = r.center_of_mass.minus(q.center_of_mass);
            let e2 = r.center_of_mass.minus(c.center_of_mass);
            r.inertia.at(row, col) - p.inertia.at(row, col) == tensor_term(p.mass, d1, row, col)
                + tensor_term(c.mass, d2, row, col) + tensor_term(p.mass + c.mass, e1, row, col)
                - tensor_term(c.mass, e2, row, col)
        }),
{
    let q = p.combined(c);
    let r = q.decombined(c);
    let d1 = q.center_of_mass.minus(p.center_of_mass);
    let d2 = q.center_of_mass.minus(c.center_of_mass);
    let e1 = r.center_of_mass.minus(q.center_of_mass);
    let e2 = r.center_of_mass.minus(c.center_of_mass);
    lemma_round_trip_parts3(p, c);
    lemma_round_trip_offsets3(p, c);
    assert(magnitude(p.inertia.at(row, col)) <= 0x400_0000_0000_0000);
    assert(magnitude(c.inertia.at(row, col)) <= 0x400_0000_0000_0000);
    lemma_entry_terms(p.inertia, c.inertia, p.mass, c.mass, d1, d2, e1, e2, row, col);
}

/// Before their rounding the four terms of an entry are small together.
proof fn lemma_round_trip_entry_exact3(p: MassProps3, c: MassProps3, row: int, col: int)
    requires
        p.in_round_trip_range(c),
        0 <= row < 3,
        0 <= col < 3,
    ensures
        ({
            let q = p.combined(c);
            let r = q.decombined(c);
            let d1 = q.center_of_mass.minus(p.center_of_mass);
            let d2 = q.center_of_mass.minus(c.center_of_mass);
            let e1 = r.center_of_mass.minus(q.center_of_mass);
            let e2 = r.center_of_mass.minus(c.center_of_mass);
            magnitude(
                exact_term(p.mass, d1, row, col) + exact_term(c.mass, d2, row, col) + exact_term(
                    p.mass + c.mass,
                    e1,
                    row,
                    col,
                ) - exact_term(c.mass, e2, row, col),
            ) <= 4 * 0x1_0300_0000_0000_0000_0000
        }),
{
    let m1 = p.mass;
    let m2 = c.mass;
    let mm = m1 + m2;
    let q = p.combined(c);
    let r = q.decombined(c);
    let d1 = q.center_of_mass.minus(p.center_of_mass);
    let d2 = q.center_of_mass.minus(c.center_of_mass);
    let e1 = r.center_of_mass.minus(q.center_of_mass);
    let e2 = r.center_of_mass.minus(c.center_of_mass);
    lemma_round_trip_pair3(p, c, 0, 0);
    lemma_round_trip_pair3(p, c, 1, 1);
    lemma_round_trip_pair3(p, c, 2, 2);
    lemma_round_trip_pair3(p, c, row, col);
    lemma_square_parts(m1, d1);
    lemma_square_parts(m2, d2);
    lemma_square_parts(mm, e1);
    lemma_square_parts(m2, e2);
}

/// Merging a contribution and taking it out again gives back each entry of
/// the inertia tensor within `2^19` raw units.
proof fn lemma_round_trip_inertia_entry3(p: MassProps3, c: MassProps3, row: int, col: int)
    requires
        p.in_round_trip_range(c),
        0 <= row < 3,
        0 <= col < 3,
    ensures
        magnitude(
            p.combined(c).decombined(c).inertia.at(row, col) - p.inertia.at(row, col),
        ) < 0x8_0000,
{
    let m1 = p.mass;
    let m2 = c.mass;
    let mm = m1 + m2;
    let q = p.combined(c);
    let r = q.decombined(c);
    let d1 = q.center_of_mass.minus(p.center_of_mass);
    let d2 = q.center_of_mass.minus(c.center_of_mass);
    let e1 = r.center_of_mass.minus(q.center_of_mass);
    let e2 = r.center_of_mass.minus(c.center_of_mass);
    lemma_round_trip_offsets3(p, c);
    lemma_round_trip_entry_terms3(p, c, row, col);
    lemma_round_trip_entry_exact3(p, c, row, col);
    lemma_tensor_term(m1, d1, row, col);
    lemma_tensor_term(m2, d2, row, col);
    lemma_tensor_term(mm, e1, row, col);
    lemma_tensor_term(m2, e2, row, col);
    lemma_rounded_terms(
        m1,
        m2,
        tensor_term(m1, d1, row, col),
        tensor_term(m2, d2, row, col),
        tensor_term(mm, e1, row, col),
        tensor_term(m2, e2, row, col),
        exact_term(m1, d1, row, col),
        exact_term(m2, d2, row, col),
        exact_term(mm, e1, row, col),
        exact_term(m2, e2, row, col),
    );
}

/// Merging a contribution and taking it out again gives back each entry of
/// the inertia tensor within `2^19` raw units, which is less than 0.000123,
/// and the inverse is that of the tensor that came back.
pub proof fn lemma_round_trip_inertia3(p: MassPropertiesQuery3dItem, c: ColliderMassProperties3d)
    requires
        p@.in_round_trip_range(c@),
    ensures
        forall|row: int, col: int|
            0 <= row < 3 && 0 <= col < 3 ==> magnitude(
                #[trigger] p@.combined(c@).decombined(c@).inertia.at(row, col) - p@.inertia.at(
                    row,
                    col,
                ),
            ) < 0x8_0000,
        p@.combined(c@).decombined(c@).inverse_inertia == p@.combined(c@).decombined(
            c@,
        ).inertia.inverted(),
{
    assert forall|row: int, col: int| 0 <= row < 3 && 0 <= col < 3 implies magnitude(
        #[trigger] p@.combined(c@).decombined(c@).inertia.at(row, col) - p@.inertia.at(row, col),
    ) < 0x8_0000 by {
        lemma_round_trip_inertia_entry3(p@, c@, row, col);
    }
}

/// Merging a contribution into a body and taking it out again gives the
/// mass properties of the body back: the mass and the inverse mass exactly,
/// each coordinate of the centre of mass within `2^20 + 2` raw units and
/// each entry of the inertia tensor within `2^19`, which is less than
/// 0.0003. The inverse inertia is that of the tensor that came back.
///
/// This holds of a body with consistent mass properties and a mass above
/// the threshold, and of a contribution with a positive mass of at most
/// `2^20` times that of the body, where the two are in the range of
/// [`MassProps3::in_round_trip_range`].
pub proof fn lemma_round_trip3(p: MassPropertiesQuery3dItem, c: ColliderMassProperties3d)
    requires
        p@.consistent(),
        p@.in_round_trip_range(c@),
        c@.mass <= 0x10_0000 * p@.mass,
    ensures
        ({
            let r = p@.combined(c@).decombined(c@);
            &&& r.mass == p@.mass
            &&& r.inverse_mass == p@.inverse_mass
            &&& magnitude(r.center_of_mass.x - p@.center_of_mass.x) <= 0x10_0002
            &&& magnitude(r.center_of_mass.y - p@.center_of_mass.y) <= 0x10_0002
            &&& magnitude(r.center_of_mass.z - p@.center_of_mass.z) <= 0x10_0002
            &&& forall|row: int, col: int|
                0 <= row < 3 && 0 <= col < 3 ==> magnitude(
                    #[trigger] r.inertia.at(row, col) - p@.inertia.at(row, col),
                ) < 0x8_0000
            &&& r.inverse_inertia == r.inertia.inverted()
        }),
{
    lemma_round_trip_mass3(p, c);
    lemma_round_trip_center3(p, c);
    lemma_round_trip_inertia3(p, c);
    vstd::arithmetic::div_mod::lemma_div_is_ordered(c@.mass, 0x10_0000 * p@.mass, p@.mass);
    vstd::arithmetic::div_mod::lemma_div_multiples_vanish(0x10_0000, p@.mass);
    assert(p@.mass * 0x10_0000 == 0x10_0000 * p@.mass);
}

/// Merging a contribution of positive mass and taking it out again gives
/// back the mass exactly, and the inverse mass that belongs to it.
pub proof fn lemma_round_trip_mass3(p: MassPropertiesQuery3dItem, c: ColliderMassProperties3d)
    requires
        p@.mass >= 0,
        c@.mass > 0,
        p@.mass + c@.mass <= i64::MAX,
    ensures
        p@.combined(c@).decombined(c@).mass == p@.mass,
        p@.combined(c@).decombined(c@).inverse_mass == fx_recip(p@.mass),
        p@.consistent() ==> p@.combined(c@).decombined(c@).inverse_mass == p@.inverse_mass,
{
}

/// Merging a contribution of positive mass into a body whose mass exceeds
/// the threshold and taking it out again gives back the centre of mass up
/// to the rounding of the two quotients: in each component the difference,
/// in raw units and multiplied by the mass of the body, stays under twice
/// that mass plus the mass of the contribution.
pub proof fn lemma_round_trip_center3(p: MassPropertiesQuery3dItem, c: ColliderMassProperties3d)
    requires
        p@.mass > EPSILON_RAW,
        c@.mass > 0,
        p@.mass + c@.mass <= i64::MAX,
    ensures
        ({
            let r = p@.combined(c@).decombined(c@);
            &&& magnitude(r.center_of_mass.x - p@.center_of_mass.x) * p@.mass < 2 * p@.mass
                + c@.mass
            &&& magnitude(r.center_of_mass.y - p@.center_of_mass.y) * p@.mass < 2 * p@.mass
                + c@.mass
            &&& magnitude(r.center_of_mass.z - p@.center_of_mass.z) * p@.mass < 2 * p@.mass
                + c@.mass
            &&& magnitude(r.center_of_mass.x - p@.center_of_mass.x) <= 2 + c@.mass / p@.mass
            &&& magnitude(r.center_of_mass.y - p@.center_of_mass.y) <= 2 + c@.mass / p@.mass
            &&& magnitude(r.center_of_mass.z - p@.center_of_mass.z) <= 2 + c@.mass / p@.mass
        }),
{
    let r = p@.combined(c@).decombined(c@);
    lemma_unmix_of_mix(p@.center_of_mass.x, p@.mass, c@.center_of_mass.x, c@.mass);
    lemma_unmix_of_mix(p@.center_of_mass.y, p@.mass, c@.center_of_mass.y, c@.mass);
    lemma_unmix_of_mix(p@.center_of_mass.z, p@.mass, c@.center_of_mass.z, c@.mass);
    lemma_center_shift(r.center_of_mass.x - p@.center_of_mass.x, p@.mass, c@.mass);
    lemma_center_shift(r.center_of_mass.y - p@.center_of_mass.y, p@.mass, c@.mass);
    lemma_center_shift(r.center_of_mass.z - p@.center_of_mass.z, p@.mass, c@.mass);
}

} // verus!
