//! The 1976 standard atmosphere, sea level to 86 km, in fixed point.
//!
//! Piecewise temperature profile with seven layers; pressure follows the
//! barometric relations (a power law across gradient layers, an exponential
//! across isothermal ones), evaluated with the fixed-point `exp` and `ln`.
//! Negative altitudes clamp to sea level; above 86 km an exponential decay
//! approximation returns near-vacuum.

use vstd::prelude::*;

use crate::fixed::{
    fx_add, fx_div, fx_max, fx_mul, fx_muldiv, fx_neg, fx_sqrt, fx_sub, fxdiv, fxmd, fxmul,
    lemma_fxdiv_sign, lemma_fxmul_sign, sat64, sqrtfx,
};
use crate::trig::{exp_fx, ln_fx, spec_exp, spec_ln};

verus! {

/// Specific gas constant for dry air, J/(kg K), fixed scale.
pub const R_AIR: i64 = 287_052_870;

/// Ratio of specific heats times the gas constant, for the speed of sound.
pub const GAMMA_R_AIR: i64 = 401_874_018;

/// Atmospheric properties at one altitude, fixed scale.
#[derive(Debug, Clone, Copy, PartialEq, Eq, Structural)]
pub struct Atmo {
    /// kg/m^3.
    pub density: i64,
    /// Pa.
    pub pressure: i64,
    /// K.
    pub temperature: i64,
    /// m/s.
    pub sound_speed: i64,
}

/// Temperature across a gradient layer: `t_base + lapse (h - h_base)`.
pub open spec fn spec_grad_t(h: int, h_base: int, t_base: int, lapse: int) -> int {
    sat64(t_base + fxmul(lapse, sat64(h - h_base)))
}

/// Pressure across a gradient layer: `p_base (t / t_base)^c`, with the
/// exponent folded into `exp(c ln(t / t_base))`; floored at zero.
pub open spec fn spec_grad_p(h: int, h_base: int, t_base: int, lapse: int, p_base: int, c: int) -> int {
    let t = spec_grad_t(h, h_base, t_base, lapse);
    let p = fxmul(p_base, spec_exp(fxmul(c, spec_ln(fxdiv(t, t_base)))));
    if p >= 0 { p } else { 0 }
}

/// Pressure across an isothermal layer: `p_base exp(-k (h - h_base))`,
/// the decay constant held at nano resolution; floored at zero.
pub open spec fn spec_iso_p(h: int, h_base: int, p_base: int, k9: int) -> int {
    let e = fxmd(sat64(h - h_base), k9, 1_000_000_000);
    let p = fxmul(p_base, spec_exp(sat64(-e)));
    if p >= 0 { p } else { 0 }
}

/// Layer temperature at clamped altitude `h`.
pub open spec fn spec_isa_t(alt: int) -> int {
    let h = if alt >= 0 { alt } else { 0 };
    if h < 11_000_000_000 {
        spec_grad_t(h, 0, 288_150_000, -6_500)
    } else if h < 20_000_000_000 {
        216_650_000
    } else if h < 32_000_000_000 {
        spec_grad_t(h, 20_000_000_000, 216_650_000, 1_000)
    } else if h < 47_000_000_000 {
        spec_grad_t(h, 32_000_000_000, 228_650_000, 2_800)
    } else if h < 51_000_000_000 {
        270_650_000
    } else if h < 71_000_000_000 {
        spec_grad_t(h, 51_000_000_000, 270_650_000, -2_800)
    } else if h < 86_000_000_000 {
        spec_grad_t(h, 71_000_000_000, 214_650_000, -2_000)
    } else {
        186_870_000
    }
}

/// Layer pressure at clamped altitude `h`.
pub open spec fn spec_isa_p(alt: int) -> int {
    let h = if alt >= 0 { alt } else { 0 };
    if h < 11_000_000_000 {
        spec_grad_p(h, 0, 288_150_000, -6_500, 101_325_000_000, 5_255_880)
    } else if h < 20_000_000_000 {
        spec_iso_p(h, 11_000_000_000, 22_632_100_000, 157_689)
    } else if h < 32_000_000_000 {
        spec_grad_p(h, 20_000_000_000, 216_650_000, 1_000, 5_474_890_000, -34_163_219)
    } else if h < 47_000_000_000 {
        spec_grad_p(h, 32_000_000_000, 228_650_000, 2_800, 868_019_000, -12_201_150)
    } else if h < 51_000_000_000 {
        spec_iso_p(h, 47_000_000_000, 110_906_000, 126_227)
    } else if h < 71_000_000_000 {
        spec_grad_p(h, 51_000_000_000, 270_650_000, -2_800, 66_938_900, 12_201_150)
    } else if h < 86_000_000_000 {
        spec_grad_p(h, 71_000_000_000, 214_650_000, -2_000, 3_956_420, 17_081_609)
    } else {
        spec_iso_p(h, 86_000_000_000, 373_400, 150_000)
    }
}

/// Density from the gas law, zero where the temperature model is
/// non-positive.
pub open spec fn spec_isa_density(alt: int) -> int {
    let t = spec_isa_t(alt);
    if t > 0 {
        fxdiv(spec_isa_p(alt), fxmul(R_AIR as int, t))
    } else {
        0
    }
}

/// Speed of sound `sqrt(gamma R t)`.
pub open spec fn spec_isa_sound(alt: int) -> int {
    sqrtfx(fxmul(GAMMA_R_AIR as int, spec_isa_t(alt)))
}

/// Gradient layer evaluation.
fn gradient_layer(h: i64, h_base: i64, t_base: i64, lapse: i64, p_base: i64, c: i64) -> (r: (
    i64,
    i64,
))
    ensures
        r.0 as int == spec_grad_t(h as int, h_base as int, t_base as int, lapse as int),
        r.1 as int == spec_grad_p(
            h as int,
            h_base as int,
            t_base as int,
            lapse as int,
            p_base as int,
            c as int,
        ),
        r.1 >= 0,
{
    let t: i64 = fx_add(t_base, fx_mul(lapse, fx_sub(h, h_base)));
    let p: i64 = fx_mul(p_base, exp_fx(fx_mul(c, ln_fx(fx_div(t, t_base)))));
    (t, fx_max(p, 0))
}

/// Isothermal layer evaluation.
fn isothermal_layer(h: i64, h_base: i64, p_base: i64, k9: i64) -> (r: i64)
    ensures
        r as int == spec_iso_p(h as int, h_base as int, p_base as int, k9 as int),
        r >= 0,
{
    let e: i64 = fx_muldiv(fx_sub(h, h_base), k9, 1_000_000_000);
    let p: i64 = fx_mul(p_base, exp_fx(fx_neg(e)));
    fx_max(p, 0)
}

/// Standard-atmosphere lookup. The returned record matches the layered
/// model exactly; density and pressure are never negative, and negative
/// altitudes behave as sea level.
pub fn isa(altitude: i64) -> (r: Atmo)
    ensures
        r.temperature as int == spec_isa_t(altitude as int),
        r.pressure as int == spec_isa_p(altitude as int),
        r.density as int == spec_isa_density(altitude as int),
        r.sound_speed as int == spec_isa_sound(altitude as int),
        r.pressure >= 0,
        r.density >= 0,
        r.sound_speed >= 0,
{
    let h: i64 = fx_max(altitude, 0);
    let tp: (i64, i64) = if h < 11_000_000_000 {
        gradient_layer(h, 0, 288_150_000, -6_500, 101_325_000_000, 5_255_880)
    } else if h < 20_000_000_000 {
        (216_650_000, isothermal_layer(h, 11_000_000_000, 22_632_100_000, 157_689))
    } else if h < 32_000_000_000 {
        gradient_layer(h, 20_000_000_000, 216_650_000, 1_000, 5_474_890_000, -34_163_219)
    } else if h < 47_000_000_000 {
        gradient_layer(h, 32_000_000_000, 228_650_000, 2_800, 868_019_000, -12_201_150)
    } else if h < 51_000_000_000 {
        (270_650_000, isothermal_layer(h, 47_000_000_000, 110_906_000, 126_227))
    } else if h < 71_000_000_000 {
        gradient_layer(h, 51_000_000_000, 270_650_000, -2_800, 66_938_900, 12_201_150)
    } else if h < 86_000_000_000 {
        gradient_layer(h, 71_000_000_000, 214_650_000, -2_000, 3_956_420, 17_081_609)
    } else {
        (186_870_000, isothermal_layer(h, 86_000_000_000, 373_400, 150_000))
    };
    let t: i64 = tp.0;
    let p: i64 = tp.1;
    let density: i64 = if t > 0 {
        let d: i64 = fx_mul(R_AIR, t);
        proof {
            lemma_fxmul_sign(R_AIR as int, t as int);
            if d as int > 0 {
                lemma_fxdiv_sign(p as int, d as int);
            }
        }
        fx_div(p, d)
    } else {
        0
    };
    let sound: i64 = fx_sqrt(fx_mul(GAMMA_R_AIR, t));
    Atmo { density, pressure: p, temperature: t, sound_speed: sound }
}

} // verus!
