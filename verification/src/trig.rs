//! Fixed-point elementary functions: sine, cosine, arctangent, arcsine,
//! exponential and natural logarithm.
//!
//! Each function reduces its argument to a small interval and evaluates a
//! truncated power series with the saturating kernels of `fixed`. The
//! contracts are exact: every result equals its spec-level mirror, so a
//! caller knows the precise integer value, and facts such as `sin 0 == 0`
//! and `cos 0 == SCALE` follow by evaluation.

use vstd::prelude::*;

use crate::fixed::{
    abs_int, clamp_s, fx_add, fx_clamp, fx_div, fx_divi, fx_mul, fx_sqrt, fx_sub, fxdiv, fxmul,
    quot, rdiv_i128, rquot, sat64, sat_i128, sqrtfx, SCALE,
};
use vstd::arithmetic::power2::{lemma2_to64, lemma2_to64_rest, lemma_pow2_strictly_increases, lemma_pow2_unfold, pow2};

verus! {

/// pi at fixed scale.
pub const PI_FX: i64 = 3_141_593;

/// 2 pi at fixed scale.
pub const TWO_PI_FX: i64 = 6_283_185;

/// pi / 2 at fixed scale.
pub const HALF_PI_FX: i64 = 1_570_796;

/// pi / 4 at fixed scale.
pub const QUARTER_PI_FX: i64 = 785_398;

/// tan(pi / 8) at fixed scale.
pub const TAN_PI_8_FX: i64 = 414_214;

/// ln 2 at fixed scale.
pub const LN2_FX: i64 = 693_147;

// ---------------------------------------------------------------------------
// Sine and cosine
// ---------------------------------------------------------------------------

/// Argument folded into [-pi, pi] by subtracting the nearest multiple of
/// 2 pi.
pub open spec fn spec_wrap_pi(x: int) -> int {
    sat64(x - sat64(rquot(x, TWO_PI_FX as int)) * (TWO_PI_FX as int))
}

/// The sine series on the reduced argument:
/// `x (1 - u/6 (1 - u/20 (1 - u/42 (1 - u/72 (1 - u/110)))))` with `u = x^2`.
pub open spec fn spec_sin_poly(x: int) -> int {
    let u = fxmul(x, x);
    let e1 = sat64((SCALE as int) - quot(u, 110));
    let e2 = sat64((SCALE as int) - quot(fxmul(u, e1), 72));
    let e3 = sat64((SCALE as int) - quot(fxmul(u, e2), 42));
    let e4 = sat64((SCALE as int) - quot(fxmul(u, e3), 20));
    let e5 = sat64((SCALE as int) - quot(fxmul(u, e4), 6));
    fxmul(x, e5)
}

/// The cosine series on `[0, pi/2]`:
/// `1 - u/2 (1 - u/12 (1 - u/30 (1 - u/56 (1 - u/90))))` with `u = x^2`.
pub open spec fn spec_cos_poly(x: int) -> int {
    let u = fxmul(x, x);
    let e1 = sat64((SCALE as int) - quot(u, 90));
    let e2 = sat64((SCALE as int) - quot(fxmul(u, e1), 56));
    let e3 = sat64((SCALE as int) - quot(fxmul(u, e2), 30));
    let e4 = sat64((SCALE as int) - quot(fxmul(u, e3), 12));
    sat64((SCALE as int) - quot(fxmul(u, e4), 2))
}

pub open spec fn spec_sin(x: int) -> int {
    let r = spec_wrap_pi(x);
    if r > HALF_PI_FX as int {
        spec_sin_poly(sat64((PI_FX as int) - r))
    } else if r < -(HALF_PI_FX as int) {
        spec_sin_poly(sat64(-(PI_FX as int) - r))
    } else {
        spec_sin_poly(r)
    }
}

pub open spec fn spec_cos(x: int) -> int {
    let r = spec_wrap_pi(x);
    let a = sat64(abs_int(r));
    if a <= HALF_PI_FX as int {
        spec_cos_poly(a)
    } else {
        sat64(-spec_cos_poly(sat64((PI_FX as int) - a)))
    }
}

/// Fixed-point sine.
pub fn sin_fx(x: i64) -> (r: i64)
    ensures
        r as int == spec_sin(x as int),
{
    let red: i64 = wrap_pi(x);
    if red > HALF_PI_FX {
        sin_poly(fx_sub(PI_FX, red))
    } else if red < -HALF_PI_FX {
        sin_poly(fx_sub(-PI_FX, red))
    } else {
        sin_poly(red)
    }
}

/// Fixed-point cosine.
pub fn cos_fx(x: i64) -> (r: i64)
    ensures
        r as int == spec_cos(x as int),
{
    let red: i64 = wrap_pi(x);
    let a: i64 = crate::fixed::fx_abs(red);
    if a <= HALF_PI_FX {
        cos_poly(a)
    } else {
        let c: i64 = cos_poly(fx_sub(PI_FX, a));
        crate::fixed::fx_neg(c)
    }
}

fn wrap_pi(x: i64) -> (r: i64)
    ensures
        r as int == spec_wrap_pi(x as int),
{
    let k: i64 = rdiv_i128(x as i128, TWO_PI_FX as i128);
    sat_i128((x as i128) - (k as i128) * (TWO_PI_FX as i128))
}

fn sin_poly(x: i64) -> (r: i64)
    ensures
        r as int == spec_sin_poly(x as int),
{
    let u: i64 = fx_mul(x, x);
    let e1: i64 = fx_sub(SCALE, fx_divi(u, 110));
    let e2: i64 = fx_sub(SCALE, fx_divi(fx_mul(u, e1), 72));
    let e3: i64 = fx_sub(SCALE, fx_divi(fx_mul(u, e2), 42));
    let e4: i64 = fx_sub(SCALE, fx_divi(fx_mul(u, e3), 20));
    let e5: i64 = fx_sub(SCALE, fx_divi(fx_mul(u, e4), 6));
    fx_mul(x, e5)
}

fn cos_poly(x: i64) -> (r: i64)
    ensures
        r as int == spec_cos_poly(x as int),
{
    let u: i64 = fx_mul(x, x);
    let e1: i64 = fx_sub(SCALE, fx_divi(u, 90));
    let e2: i64 = fx_sub(SCALE, fx_divi(fx_mul(u, e1), 56));
    let e3: i64 = fx_sub(SCALE, fx_divi(fx_mul(u, e2), 30));
    let e4: i64 = fx_sub(SCALE, fx_divi(fx_mul(u, e3), 12));
    fx_sub(SCALE, fx_divi(fx_mul(u, e4), 2))
}

// ---------------------------------------------------------------------------
// Arctangent family
// ---------------------------------------------------------------------------

/// The arctangent series on `[-tan(pi/8), tan(pi/8)]`:
/// `v (1 - w (1/3 - w (1/5 - w (1/7 - w (1/9 - w/11)))))` with `w = v^2`.
pub open spec fn spec_atan_poly(v: int) -> int {
    let w = fxmul(v, v);
    let e1 = sat64(90_909 - fxmul(w, quot(SCALE as int, 11)));
    let e2 = sat64(142_857 - fxmul(w, sat64(111_111 - fxmul(w, e1))));
    let e3 = sat64(333_333 - fxmul(w, sat64(200_000 - fxmul(w, e2))));
    fxmul(v, sat64((SCALE as int) - fxmul(w, e3)))
}

/// Arctangent of a ratio in `[0, 1]` (one argument-halving step).
pub open spec fn spec_atan_unit(u: int) -> int {
    let uc = clamp_s(u, 0, SCALE as int);
    if uc > TAN_PI_8_FX as int {
        sat64((QUARTER_PI_FX as int) + spec_atan_poly(
            fxdiv(sat64(uc - SCALE as int), sat64(uc + SCALE as int)),
        ))
    } else {
        spec_atan_poly(uc)
    }
}

/// Four-quadrant arctangent, range `(-pi, pi]`, 0 at the origin.
pub open spec fn spec_atan2(y: int, x: int) -> int {
    let ax = sat64(abs_int(x));
    let ay = sat64(abs_int(y));
    let base = if ay <= ax {
        spec_atan_unit(clamp_s(fxdiv(ay, ax), 0, SCALE as int))
    } else {
        sat64((HALF_PI_FX as int) - spec_atan_unit(clamp_s(fxdiv(ax, ay), 0, SCALE as int)))
    };
    if x >= 0 && y >= 0 {
        base
    } else if x < 0 && y >= 0 {
        sat64((PI_FX as int) - base)
    } else if x < 0 {
        sat64(base - PI_FX as int)
    } else {
        sat64(-base)
    }
}

fn atan_poly(v: i64) -> (r: i64)
    ensures
        r as int == spec_atan_poly(v as int),
{
    let w: i64 = fx_mul(v, v);
    let e1: i64 = fx_sub(90_909, fx_mul(w, fx_divi(SCALE, 11)));
    let e2: i64 = fx_sub(142_857, fx_mul(w, fx_sub(111_111, fx_mul(w, e1))));
    let e3: i64 = fx_sub(333_333, fx_mul(w, fx_sub(200_000, fx_mul(w, e2))));
    fx_mul(v, fx_sub(SCALE, fx_mul(w, e3)))
}

fn atan_unit(u: i64) -> (r: i64)
    ensures
        r as int == spec_atan_unit(u as int),
{
    let uc: i64 = fx_clamp(u, 0, SCALE);
    if uc > TAN_PI_8_FX {
        let v: i64 = fx_div(fx_sub(uc, SCALE), fx_add(uc, SCALE));
        fx_add(QUARTER_PI_FX, atan_poly(v))
    } else {
        atan_poly(uc)
    }
}

/// Fixed-point four-quadrant arctangent.
pub fn atan2_fx(y: i64, x: i64) -> (r: i64)
    ensures
        r as int == spec_atan2(y as int, x as int),
{
    let ax: i64 = crate::fixed::fx_abs(x);
    let ay: i64 = crate::fixed::fx_abs(y);
    let base: i64 = if ay <= ax {
        atan_unit(fx_clamp(fx_div(ay, ax), 0, SCALE))
    } else {
        fx_sub(HALF_PI_FX, atan_unit(fx_clamp(fx_div(ax, ay), 0, SCALE)))
    };
    if x >= 0 && y >= 0 {
        base
    } else if x < 0 && y >= 0 {
        fx_sub(PI_FX, base)
    } else if x < 0 {
        fx_sub(base, PI_FX)
    } else {
        crate::fixed::fx_neg(base)
    }
}

/// Arcsine via `atan2(s, sqrt(1 - s^2))`, input clamped to `[-1, 1]`.
pub open spec fn spec_asin(s: int) -> int {
    let sc = clamp_s(s, -(SCALE as int), SCALE as int);
    let w = sat64((SCALE as int) - fxmul(sc, sc));
    spec_atan2(sc, sqrtfx(w))
}

/// Fixed-point arcsine.
pub fn asin_fx(s: i64) -> (r: i64)
    ensures
        r as int == spec_asin(s as int),
{
    let sc: i64 = fx_clamp(s, -SCALE, SCALE);
    let w: i64 = fx_sub(SCALE, fx_mul(sc, sc));
    let c: i64 = fx_sqrt(w);
    atan2_fx(sc, c)
}

/// Arccosine: `pi/2 - asin`.
pub open spec fn spec_acos(s: int) -> int {
    sat64((HALF_PI_FX as int) - spec_asin(s))
}

/// Fixed-point arccosine.
pub fn acos_fx(s: i64) -> (r: i64)
    ensures
        r as int == spec_acos(s as int),
{
    fx_sub(HALF_PI_FX, asin_fx(s))
}

// ---------------------------------------------------------------------------
// Exponential
// ---------------------------------------------------------------------------

/// The exponential series on `[0, ln 2]`:
/// `1 + r (1 + r/2 (1 + r/3 (... (1 + r/8))))`.
pub open spec fn spec_exp_poly(r: int) -> int {
    let e1 = sat64((SCALE as int) + quot(r, 8));
    let e2 = sat64((SCALE as int) + quot(fxmul(r, e1), 7));
    let e3 = sat64((SCALE as int) + quot(fxmul(r, e2), 6));
    let e4 = sat64((SCALE as int) + quot(fxmul(r, e3), 5));
    let e5 = sat64((SCALE as int) + quot(fxmul(r, e4), 4));
    let e6 = sat64((SCALE as int) + quot(fxmul(r, e5), 3));
    let e7 = sat64((SCALE as int) + quot(fxmul(r, e6), 2));
    sat64((SCALE as int) + fxmul(r, e7))
}

/// `v * 2^k` with saturating doubling.
pub open spec fn spec_dbl(v: int, k: nat) -> int
    decreases k,
{
    if k == 0 {
        v
    } else {
        sat64(2 * spec_dbl(v, (k - 1) as nat))
    }
}

/// Exponential of a non-negative argument (clamped to at most 29.0, above
/// which the result would leave the fixed range).
pub open spec fn spec_exp_pos(x: int) -> int {
    let xc = clamp_s(x, 0, 29 * SCALE as int);
    let k = quot(xc, LN2_FX as int);
    let r = xc - k * (LN2_FX as int);
    spec_dbl(spec_exp_poly(r), k as nat)
}

/// Fixed-point exponential, clamped into the representable domain.
pub open spec fn spec_exp(x: int) -> int {
    if x >= 0 {
        spec_exp_pos(x)
    } else {
        fxdiv(SCALE as int, spec_exp_pos(sat64(-x)))
    }
}

fn exp_poly(r: i64) -> (res: i64)
    ensures
        res as int == spec_exp_poly(r as int),
{
    let e1: i64 = fx_add(SCALE, fx_divi(r, 8));
    let e2: i64 = fx_add(SCALE, fx_divi(fx_mul(r, e1), 7));
    let e3: i64 = fx_add(SCALE, fx_divi(fx_mul(r, e2), 6));
    let e4: i64 = fx_add(SCALE, fx_divi(fx_mul(r, e3), 5));
    let e5: i64 = fx_add(SCALE, fx_divi(fx_mul(r, e4), 4));
    let e6: i64 = fx_add(SCALE, fx_divi(fx_mul(r, e5), 3));
    let e7: i64 = fx_add(SCALE, fx_divi(fx_mul(r, e6), 2));
    fx_add(SCALE, fx_mul(r, e7))
}

fn exp_pos(x: i64) -> (res: i64)
    requires
        x >= 0,
    ensures
        res as int == spec_exp_pos(x as int),
{
    let xc: i64 = fx_clamp(x, 0, 29 * SCALE);
    let k: i64 = fx_divi(xc, LN2_FX);
    proof {
        assert(quot(xc as int, LN2_FX as int) == (xc as int) / (LN2_FX as int));
        assert(0 <= (xc as int) / (LN2_FX as int) <= 42) by (nonlinear_arith)
            requires
                0 <= xc as int <= 29 * SCALE as int;
        assert(sat64(quot(xc as int, LN2_FX as int)) == quot(xc as int, LN2_FX as int));
    }
    let r: i64 = xc - k * LN2_FX;
    proof {
        vstd::arithmetic::div_mod::lemma_fundamental_div_mod(xc as int, LN2_FX as int);
        assert(0 <= (r as int) < (LN2_FX as int));
    }
    let mut res: i64 = exp_poly(r);
    let mut i: i64 = 0;
    while i < k
        invariant
            0 <= i <= k,
            k <= 42,
            res as int == spec_dbl(spec_exp_poly(r as int), i as nat),
        decreases k - i,
    {
        res = fx_add(res, res);
        proof {
            assert(sat64((res as int) + (res as int)) == sat64(2 * (res as int)));
        }
        i = i + 1;
    }
    res
}

/// Fixed-point exponential.
pub fn exp_fx(x: i64) -> (res: i64)
    ensures
        res as int == spec_exp(x as int),
{
    if x >= 0 {
        exp_pos(x)
    } else {
        let nx: i64 = crate::fixed::fx_neg(x);
        let p: i64 = exp_pos(nx);
        fx_div(SCALE, p)
    }
}

// ---------------------------------------------------------------------------
// Natural logarithm
// ---------------------------------------------------------------------------

/// Halvings that bring `m` under `2 * SCALE`.
pub open spec fn spec_ln_down_m(m: int) -> int
    decreases m,
{
    if m >= 2 * SCALE as int {
        spec_ln_down_m(m / 2)
    } else {
        m
    }
}

pub open spec fn spec_ln_down_k(m: int) -> int
    decreases m,
{
    if m >= 2 * SCALE as int {
        1 + spec_ln_down_k(m / 2)
    } else {
        0
    }
}

/// Doublings that raise `m` to at least `SCALE`.
pub open spec fn spec_ln_up_m(m: int) -> int
    decreases 2 * (SCALE as int) - m,
{
    if 1 <= m < SCALE as int {
        spec_ln_up_m(2 * m)
    } else {
        m
    }
}

pub open spec fn spec_ln_up_k(m: int) -> int
    decreases 2 * (SCALE as int) - m,
{
    if 1 <= m < SCALE as int {
        1 + spec_ln_up_k(2 * m)
    } else {
        0
    }
}

/// The logarithm series on a mantissa `t` in `[1, 2)`, via
/// `v = (t - 1)/(t + 1)`: `2 v (1 + w (1/3 + w (1/5 + ... + w/13)))`.
pub open spec fn spec_ln_mant(t: int) -> int {
    let v = fxdiv(sat64(t - SCALE as int), sat64(t + SCALE as int));
    let w = fxmul(v, v);
    let e1 = sat64(90_909 + fxmul(w, 76_923));
    let e2 = sat64(200_000 + fxmul(w, sat64(142_857 + fxmul(w, sat64(111_111 + fxmul(w, e1))))));
    let e3 = sat64((SCALE as int) + fxmul(w, sat64(333_333 + fxmul(w, e2))));
    let s = fxmul(v, e3);
    sat64(2 * s)
}

/// Fixed-point natural logarithm; 0 for non-positive inputs.
pub open spec fn spec_ln(x: int) -> int {
    if x <= 0 {
        0
    } else {
        let md = spec_ln_down_m(x);
        let kd = spec_ln_down_k(x);
        let mu = spec_ln_up_m(md);
        let ku = spec_ln_up_k(md);
        sat64(spec_ln_mant(mu) + (kd - ku) * (LN2_FX as int))
    }
}

fn ln_mant(t: i64) -> (r: i64)
    ensures
        r as int == spec_ln_mant(t as int),
{
    let v: i64 = fx_div(fx_sub(t, SCALE), fx_add(t, SCALE));
    let w: i64 = fx_mul(v, v);
    let e1: i64 = fx_add(90_909, fx_mul(w, 76_923));
    let e2: i64 = fx_add(200_000, fx_mul(w, fx_add(142_857, fx_mul(w, fx_add(111_111, fx_mul(w, e1))))));
    let e3: i64 = fx_add(SCALE, fx_mul(w, fx_add(333_333, fx_mul(w, e2))));
    let s: i64 = fx_mul(v, e3);
    fx_add(s, s)
}

/// Fixed-point natural logarithm.
pub fn ln_fx(x: i64) -> (r: i64)
    ensures
        r as int == spec_ln(x as int),
{
    if x <= 0 {
        return 0;
    }
    proof {
        lemma2_to64();
        assert((x as int) * pow2(0) == x as int) by (nonlinear_arith)
            requires
                pow2(0) == 1;
    }
    let mut m: i64 = x;
    let mut kd: i64 = 0;
    while m >= 2 * SCALE
        invariant
            1 <= m,
            0 <= kd <= 62,
            (m as int) * pow2(kd as nat) <= x as int,
            spec_ln_down_m(x as int) == spec_ln_down_m(m as int),
            spec_ln_down_k(x as int) == kd + spec_ln_down_k(m as int),
        decreases m,
    {
        let m2: i64 = fx_divi(m, 2);
        proof {
            assert(quot(m as int, 2) == (m as int) / 2);
            assert(m2 as int == (m as int) / 2);
            assert(spec_ln_down_m(m as int) == spec_ln_down_m(m2 as int));
            assert(spec_ln_down_k(m as int) == 1 + spec_ln_down_k(m2 as int));
            assert(pow2((kd + 1) as nat) == 2 * pow2(kd as nat)) by {
                lemma_pow2_unfold((kd + 1) as nat);
            }
            assert((m2 as int) * pow2((kd + 1) as nat) <= (m as int) * pow2(kd as nat))
                by (nonlinear_arith)
                requires
                    m2 as int == (m as int) / 2,
                    m as int >= 2,
                    pow2((kd + 1) as nat) == 2 * pow2(kd as nat),
                    pow2(kd as nat) >= 0;
            // the count cannot reach 63: that would put x at 2^63 or above
            if kd >= 62 {
                lemma2_to64_rest();
                if kd + 1 > 63 {
                    lemma_pow2_strictly_increases(63, (kd + 1) as nat);
                }
                assert(pow2((kd + 1) as nat) >= 0x8000_0000_0000_0000int);
                assert((m2 as int) * pow2((kd + 1) as nat) >= 0x8000_0000_0000_0000int)
                    by (nonlinear_arith)
                    requires
                        m2 as int >= 1,
                        pow2((kd + 1) as nat) >= 0x8000_0000_0000_0000int;
                assert(false);
            }
        }
        m = m2;
        kd = kd + 1;
    }
    let md: i64 = m;
    let mut ku: i64 = 0;
    proof {
        assert(pow2(0) == 1) by {
            lemma2_to64();
        }
    }
    while m < SCALE
        invariant
            1 <= m < 2 * SCALE,
            1 <= md,
            0 <= ku <= 20,
            m as int == (md as int) * pow2(ku as nat),
            spec_ln_up_m(md as int) == spec_ln_up_m(m as int),
            spec_ln_up_k(md as int) == ku + spec_ln_up_k(m as int),
        decreases 2 * (SCALE as int) - m,
    {
        proof {
            assert(pow2((ku + 1) as nat) == 2 * pow2(ku as nat)) by {
                lemma_pow2_unfold((ku + 1) as nat);
            }
            assert(2 * (m as int) == (md as int) * pow2((ku + 1) as nat)) by (nonlinear_arith)
                requires
                    m as int == (md as int) * pow2(ku as nat),
                    pow2((ku + 1) as nat) == 2 * pow2(ku as nat);
            if ku >= 20 {
                lemma2_to64();
                assert(pow2(20) <= (md as int) * pow2(ku as nat)) by (nonlinear_arith)
                    requires
                        md as int >= 1,
                        pow2(ku as nat) >= pow2(20);
                assert(false);
            }
        }
        m = 2 * m;
        ku = ku + 1;
    }
    let lm: i64 = ln_mant(m);
    sat_i128((lm as i128) + ((kd - ku) as i128) * (LN2_FX as i128))
}


/// At a neutral argument the series are exact: `sin 0 == 0` and
/// `cos 0 == 1`.
pub proof fn lemma_trig_zero()
    ensures
        spec_sin(0) == 0,
        spec_cos(0) == SCALE as int,
{
    assert(rquot(0, TWO_PI_FX as int) == 0) by {
        vstd::arithmetic::div_mod::lemma_basic_div(TWO_PI_FX as int, 2 * TWO_PI_FX as int);
    }
    assert(spec_wrap_pi(0) == 0);
    assert(quot(0, SCALE as int) == 0) by {
        crate::fixed::lemma_quot_zero(SCALE as int);
    }
    assert(fxmul(0, 0) == 0);
    assert(quot(0, 110) == 0) by {
        crate::fixed::lemma_quot_zero(110);
    }
    assert(quot(0, 2) == 0) by {
        crate::fixed::lemma_quot_zero(2);
    }
    assert(spec_sin_poly(0) == 0) by {
        let u = fxmul(0, 0);
        assert(u == 0);
        let e5 = spec_sin_poly_last(0);
        assert(fxmul(0, e5) == sat64(quot(0 * e5, SCALE as int)));
        assert(0 * e5 == 0) by (nonlinear_arith);
        crate::fixed::lemma_quot_zero(SCALE as int);
    }
    assert(spec_cos_poly(0) == SCALE as int) by {
        assert(fxmul(0, 0) == 0);
        let e4 = spec_cos_poly_inner(0);
        assert(fxmul(0, e4) == sat64(quot(0 * e4, SCALE as int)));
        assert(0 * e4 == 0) by (nonlinear_arith);
        crate::fixed::lemma_quot_zero(SCALE as int);
        crate::fixed::lemma_quot_zero(2);
    }
    assert(sat64(abs_int(0)) == 0);
}

/// The innermost factor of the sine series (exposed for the zero lemma).
pub open spec fn spec_sin_poly_last(x: int) -> int {
    let u = fxmul(x, x);
    let e1 = sat64((SCALE as int) - quot(u, 110));
    let e2 = sat64((SCALE as int) - quot(fxmul(u, e1), 72));
    let e3 = sat64((SCALE as int) - quot(fxmul(u, e2), 42));
    let e4 = sat64((SCALE as int) - quot(fxmul(u, e3), 20));
    sat64((SCALE as int) - quot(fxmul(u, e4), 6))
}

/// The inner factor of the cosine series (exposed for the zero lemma).
pub open spec fn spec_cos_poly_inner(x: int) -> int {
    let u = fxmul(x, x);
    let e1 = sat64((SCALE as int) - quot(u, 90));
    let e2 = sat64((SCALE as int) - quot(fxmul(u, e1), 56));
    let e3 = sat64((SCALE as int) - quot(fxmul(u, e2), 30));
    sat64((SCALE as int) - quot(fxmul(u, e3), 12))
}

} // verus!
