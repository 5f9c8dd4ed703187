//! Hohmann transfers between circular orbits.
//!
//! Radii are fixed-point metres; the gravitational parameter is carried as
//! a plain integer in cubic metres per squared second (it exceeds the
//! fixed range), and the square roots fold the scale conversion in.

use vstd::prelude::*;

use crate::fixed::{
    fx_abs, fx_add, fx_divi, fx_min, fx_sub, fxdiv, isqrt_u128, lemma_isqrt_unique, quot,
    quot_i128, sat64, sat_i128, sqrt_floor, SCALE,
};
use crate::trig::PI_FX;

verus! {

/// Earth's gravitational parameter, m^3/s^2, unscaled.
pub const MU_EARTH_PLAIN: i64 = 398_600_441_800_000;

/// `SCALE^3`, the factor that turns `mu / r` into a squared fixed-point
/// speed.
pub const SCALE3: i64 = 1_000_000_000_000_000_000;

/// A computed two-burn transfer between circular orbits.
#[derive(Debug, Clone, Copy, PartialEq, Eq, Structural)]
pub struct HohmannTransfer {
    /// First burn (raise the apoapsis), m/s.
    pub dv1: i64,
    /// Second burn (circularise), m/s.
    pub dv2: i64,
    /// Sum of the two burns, m/s.
    pub total_dv: i64,
    /// Half the transfer-orbit period, s.
    pub transfer_time: i64,
    /// Initial orbit radius, m.
    pub r1: i64,
    /// Final orbit radius, m.
    pub r2: i64,
}

/// Circular-orbit speed `sqrt(mu / r)` at fixed scale.
pub open spec fn spec_circ_speed(mu: int, r: int) -> int {
    sat64(sqrt_floor(quot(mu * (SCALE3 as int), r)))
}

/// Periapsis speed of the transfer ellipse from `ra` toward `rb`:
/// `sqrt(2 mu rb / (ra (ra + rb)))`.
pub open spec fn spec_transfer_speed(mu: int, ra: int, rb: int) -> int {
    let a = quot(2 * mu * (SCALE3 as int), ra);
    let b = fxdiv(rb, sat64(ra + rb));
    sat64(sqrt_floor(quot(a * b, SCALE as int)))
}

/// Half the transfer-orbit period, `pi sqrt(a^3 / mu)`, with the inner
/// root taken at `2^32` extra precision (and clamped far outside any
/// bound orbit's range).
pub open spec fn spec_transfer_time(mu: int, a: int) -> int {
    let ac = if a <= 4_000_000_000_000_000_000int { a } else { 4_000_000_000_000_000_000int };
    let q = quot(ac * 0x1_0000_0000_0000_0000int, (SCALE as int) * mu);
    let sk = if sat64(sqrt_floor(q)) <= 1_000_000_000_000 {
        sat64(sqrt_floor(q))
    } else {
        1_000_000_000_000int
    };
    sat64(quot((PI_FX as int) * ac * sk, (SCALE as int) * 0x1_0000_0000int))
}

/// Circular-orbit speed around Earth at radius `r` (fixed-point metres).
pub fn circular_velocity(r: i64) -> (v: i64)
    requires
        SCALE <= r,
    ensures
        v as int == spec_circ_speed(MU_EARTH_PLAIN as int, r as int),
{
    circular_velocity_mu(r, MU_EARTH_PLAIN)
}

/// Circular-orbit speed `sqrt(mu / r)` for an explicit gravitational
/// parameter.
pub fn circular_velocity_mu(r: i64, mu: i64) -> (v: i64)
    requires
        SCALE <= r,
        0 < mu,
    ensures
        v as int == spec_circ_speed(mu as int, r as int),
{
    let n: u128 = (mu as u128) * (SCALE3 as u128) / (r as u128);
    proof {
        assert((mu as int) * (SCALE3 as int) >= 0) by (nonlinear_arith)
            requires
                mu as int > 0;
        assert(quot((mu as int) * (SCALE3 as int), r as int) == ((mu as int) * (SCALE3 as int)) / (
        r as int));
    }
    let s: u128 = isqrt_u128(n);
    proof {
        lemma_isqrt_unique(n as int, s as int);
    }
    sat_u128(s)
}

/// Saturate an unsigned 128-bit value into the non-negative `i64` range.
fn sat_u128(x: u128) -> (r: i64)
    ensures
        r as int == sat64(x as int),
{
    if x > i64::MAX as u128 {
        i64::MAX
    } else {
        x as i64
    }
}

/// Periapsis speed of the transfer ellipse.
fn transfer_speed(mu: i64, ra: i64, rb: i64) -> (v: i64)
    requires
        SCALE <= ra,
        SCALE <= rb,
        0 < mu,
    ensures
        v as int == spec_transfer_speed(mu as int, ra as int, rb as int),
{
    proof {
        assert(2 * (mu as int) * (SCALE3 as int) >= 0 && 2 * (mu as int) * (SCALE3 as int)
            < 0x4000_0000_0000_0000_0000_0000_0000_0000int) by (nonlinear_arith)
            requires
                0 < mu as int <= 0x8000_0000_0000_0000int;
    }
    let a128: i128 = 2 * (mu as i128) * (SCALE3 as i128);
    let a: i128 = quot_i128(a128, ra as i128);
    let b: i64 = fxdiv_pos(rb, fx_add(ra, rb));
    proof {
        crate::fixed::lemma_quot_sign(a128 as int, ra as int);
        assert(quot(a128 as int, ra as int) == (a128 as int) / (ra as int));
        vstd::arithmetic::div_mod::lemma_div_is_ordered_by_denominator(
            a128 as int,
            SCALE as int,
            ra as int,
        );
        assert((a128 as int) / (SCALE as int) <= 0x4000_0000_0000_0000_0000_0000_0000_0000int
            / 1_000_000) by (nonlinear_arith)
            requires
                0 <= a128 as int <= 0x4000_0000_0000_0000_0000_0000_0000_0000int;
        assert(a >= 0 && b >= 0);
        assert(rb <= sat64(ra + rb));
        assert((a as int) * (b as int) >= 0 && (a as int) * (b as int)
            <= 0x4000_0000_0000_0000_0000_0000_0000_0000int) by (nonlinear_arith)
            requires
                0 <= a as int <= 0x4000_0000_0000_0000_0000_0000_0000_0000int / 1_000_000,
                0 <= b as int <= 1_000_000;
        assert(quot((a as int) * (b as int), SCALE as int) == ((a as int) * (b as int)) / (
        SCALE as int));
        assert(((a as int) * (b as int)) / (SCALE as int) >= 0) by {
            vstd::arithmetic::div_mod::lemma_div_pos_is_pos((a as int) * (b as int), SCALE as int);
        }
    }
    let prod: i128 = (a as i128) * (b as i128);
    let n: u128 = (prod / (SCALE as i128)) as u128;
    proof {
        assert(n as int == quot((a as int) * (b as int), SCALE as int));
    }
    let s: u128 = isqrt_u128(n);
    proof {
        lemma_isqrt_unique(n as int, s as int);
    }
    sat_u128(s)
}

/// `fxdiv` for non-negative operands with a positive divisor, with the
/// bounds the caller needs: the quotient of a part over its whole is at
/// most one.
fn fxdiv_pos(a: i64, b: i64) -> (r: i64)
    requires
        0 <= a,
        0 < b,
    ensures
        r as int == fxdiv(a as int, b as int),
        r >= 0,
        a <= b ==> r <= SCALE,
{
    proof {
        crate::fixed::lemma_fxdiv_sign(a as int, b as int);
        if a <= b {
            assert((a as int) * (SCALE as int) <= (b as int) * (SCALE as int)) by (nonlinear_arith)
                requires
                    a as int <= b as int;
            vstd::arithmetic::div_mod::lemma_div_is_ordered(
                (a as int) * (SCALE as int),
                (b as int) * (SCALE as int),
                b as int,
            );
            assert((b as int) * (SCALE as int) == (b as int) * (SCALE as int));
            vstd::arithmetic::div_mod::lemma_div_multiples_vanish(SCALE as int, b as int);
            assert((b as int) * (SCALE as int) / (b as int) == SCALE as int);
            assert(quot((a as int) * (SCALE as int), b as int) == ((a as int) * (SCALE as int)) / (
            b as int));
        }
    }
    crate::fixed::fx_div(a, b)
}

/// Compute a Hohmann transfer between circular orbits of radii `r1` and
/// `r2` around Earth.
pub fn hohmann(r1: i64, r2: i64) -> (h: HohmannTransfer)
    requires
        SCALE <= r1,
        SCALE <= r2,
    ensures
        h.r1 == r1 && h.r2 == r2,
        h.dv1 as int == sat64(
            crate::fixed::abs_int(
                spec_transfer_speed(MU_EARTH_PLAIN as int, r1 as int, r2 as int) - spec_circ_speed(
                    MU_EARTH_PLAIN as int,
                    r1 as int,
                ),
            ),
        ),
        h.dv2 as int == sat64(
            crate::fixed::abs_int(
                spec_circ_speed(MU_EARTH_PLAIN as int, r2 as int) - spec_transfer_speed(
                    MU_EARTH_PLAIN as int,
                    r2 as int,
                    r1 as int,
                ),
            ),
        ),
        h.total_dv as int == sat64(h.dv1 + h.dv2),
        h.transfer_time as int == spec_transfer_time(
            MU_EARTH_PLAIN as int,
            quot(sat64(r1 + r2), 2),
        ),
{
    hohmann_mu(r1, r2, MU_EARTH_PLAIN)
}

/// Compute a Hohmann transfer for an explicit gravitational parameter.
pub fn hohmann_mu(r1: i64, r2: i64, mu: i64) -> (h: HohmannTransfer)
    requires
        SCALE <= r1,
        SCALE <= r2,
        0 < mu,
    ensures
        h.r1 == r1 && h.r2 == r2,
        h.dv1 as int == sat64(
            crate::fixed::abs_int(
                spec_transfer_speed(mu as int, r1 as int, r2 as int) - spec_circ_speed(
                    mu as int,
                    r1 as int,
                ),
            ),
        ),
        h.dv2 as int == sat64(
            crate::fixed::abs_int(
                spec_circ_speed(mu as int, r2 as int) - spec_transfer_speed(
                    mu as int,
                    r2 as int,
                    r1 as int,
                ),
            ),
        ),
        h.total_dv as int == sat64(h.dv1 + h.dv2),
        h.transfer_time as int == spec_transfer_time(mu as int, quot(sat64(r1 + r2), 2)),
{
    let a_transfer: i64 = fx_divi(fx_add(r1, r2), 2);
    let v_circ1: i64 = circular_velocity_mu(r1, mu);
    let v_circ2: i64 = circular_velocity_mu(r2, mu);
    let v_t1: i64 = transfer_speed(mu, r1, r2);
    let v_t2: i64 = transfer_speed(mu, r2, r1);
    let dv1: i64 = fx_abs(fx_sub(v_t1, v_circ1));
    let dv2: i64 = fx_abs(fx_sub(v_circ2, v_t2));
    let transfer_time: i64 = transfer_time_of(mu, a_transfer);
    HohmannTransfer { dv1, dv2, total_dv: fx_add(dv1, dv2), transfer_time, r1, r2 }
}

/// Half the transfer-orbit period.
fn transfer_time_of(mu: i64, a: i64) -> (t: i64)
    requires
        0 < mu,
        0 <= a,
    ensures
        t as int == spec_transfer_time(mu as int, a as int),
{
    let ac: i64 = fx_min(a, 4_000_000_000_000_000_000);
    proof {
        assert((ac as int) * 0x1_0000_0000_0000_0000int >= 0 && (ac as int)
            * 0x1_0000_0000_0000_0000int <= 0x4000_0000_0000_0000_0000_0000_0000_0000int)
            by (nonlinear_arith)
            requires
                0 <= ac as int <= 4_000_000_000_000_000_000,
        ;
        assert((SCALE as int) * (mu as int) > 0 && (SCALE as int) * (mu as int)
            < 0x4000_0000_0000_0000_0000_0000_0000_0000int) by (nonlinear_arith)
            requires
                0 < mu as int <= 0x8000_0000_0000_0000int;
    }
    let num: i128 = (ac as i128) * 0x1_0000_0000_0000_0000i128;
    let den: i128 = (SCALE as i128) * (mu as i128);
    let q: i128 = quot_i128(num, den);
    proof {
        assert(q >= 0) by {
            crate::fixed::lemma_quot_sign(num as int, den as int);
        }
    }
    let sq: u128 = isqrt_u128(q as u128);
    proof {
        lemma_isqrt_unique(sq as int * 0 + (q as u128) as int, sq as int);
    }
    let sk: i64 = fx_min(sat_u128(sq), 1_000_000_000_000);
    proof {
        assert((PI_FX as int) * (ac as int) >= 0 && (PI_FX as int) * (ac as int)
            <= 0x1_0000_0000_0000_0000_0000_0000int) by (nonlinear_arith)
            requires
                0 <= ac as int <= 0x8000_0000_0000_0000int;
        assert((PI_FX as int) * (ac as int) * (sk as int) >= 0 && (PI_FX as int) * (ac as int) * (
        sk as int) < 0x4000_0000_0000_0000_0000_0000_0000_0000int) by (nonlinear_arith)
            requires
                0 <= (PI_FX as int) * (ac as int) <= 0x1_0000_0000_0000_0000_0000_0000int,
                0 <= sk as int <= 1_000_000_000_000;
        assert((SCALE as int) * 0x1_0000_0000int > 0) by (nonlinear_arith);
    }
    let pa: i128 = (PI_FX as i128) * (ac as i128);
    let num2: i128 = pa * (sk as i128);
    let den2: i128 = (SCALE as i128) * 0x1_0000_0000i128;
    sat_i128(quot_i128(num2, den2))
}

} // verus!
