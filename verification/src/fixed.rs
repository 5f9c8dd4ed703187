//! Saturating fixed-point arithmetic on scaled 64-bit integers.
//!
//! A quantity `x` represents the real number `x / SCALE`. Every operation is
//! total: intermediate products are taken in 128 bits and the final value is
//! saturated into the `i64` range, and division by zero yields zero. Each
//! executable operation carries an exact contract in terms of the spec-level
//! functions `sat64`, `quot` and `rquot`, so callers reason about the precise
//! integer result, not an approximation.

use vstd::prelude::*;

verus! {

/// Fixed-point units per 1.0 for general physical quantities
/// (metres, seconds, kilograms, newtons, radians, ...).
pub const SCALE: i64 = 1_000_000;

/// Fixed-point units per 1.0 for quaternion components. The finer scale keeps
/// the renormalised attitude unit to well below the stated drift tolerance.
pub const QSCALE: i64 = 1_000_000_000;

pub open spec fn abs_int(x: int) -> int {
    if x < 0 { -x } else { x }
}

/// Saturation of an unbounded integer into the `i64` range.
pub open spec fn sat64(x: int) -> int {
    if x > i64::MAX as int {
        i64::MAX as int
    } else if x < i64::MIN as int {
        i64::MIN as int
    } else {
        x
    }
}

/// Quotient rounded toward zero; 0 when the divisor is 0.
pub open spec fn quot(a: int, b: int) -> int {
    if b == 0 {
        0
    } else if (a >= 0) == (b >= 0) {
        abs_int(a) / abs_int(b)
    } else {
        -(abs_int(a) / abs_int(b))
    }
}

/// Quotient rounded to nearest, halves away from zero; 0 when the divisor is 0.
pub open spec fn rquot(a: int, b: int) -> int {
    if b == 0 {
        0
    } else if (a >= 0) == (b >= 0) {
        (2 * abs_int(a) + abs_int(b)) / (2 * abs_int(b))
    } else {
        -((2 * abs_int(a) + abs_int(b)) / (2 * abs_int(b)))
    }
}

/// The fixed-point product `a * b / SCALE`, truncated and saturated.
pub open spec fn fxmul(a: int, b: int) -> int {
    sat64(quot(a * b, SCALE as int))
}

/// The fixed-point quotient `a * SCALE / b`, truncated and saturated.
pub open spec fn fxdiv(a: int, b: int) -> int {
    sat64(quot(a * (SCALE as int), b))
}

/// `a * b / c`, truncated and saturated.
pub open spec fn fxmd(a: int, b: int, c: int) -> int {
    sat64(quot(a * b, c))
}

/// `x` clamped into `[lo, hi]`.
pub open spec fn clamp_s(x: int, lo: int, hi: int) -> int {
    if x < lo {
        lo
    } else if x > hi {
        hi
    } else {
        x
    }
}

/// `r` is the integer square root of `n`.
pub open spec fn is_isqrt(n: int, r: int) -> bool {
    &&& 0 <= r
    &&& r * r <= n
    &&& n < (r + 1) * (r + 1)
}

/// The integer square root (meaningful for `n >= 0`).
pub open spec fn sqrt_floor(n: int) -> int {
    choose|r: int| is_isqrt(n, r)
}

/// Any witness of `is_isqrt` is the integer square root.
pub proof fn lemma_isqrt_unique(n: int, r: int)
    requires
        is_isqrt(n, r),
    ensures
        r == sqrt_floor(n),
{
    let c = choose|q: int| is_isqrt(n, q);
    assert(is_isqrt(n, c));
    assert(r == c) by (nonlinear_arith)
        requires
            is_isqrt(n, r),
            is_isqrt(n, c);
}

/// The integer square root is monotone in its argument.
pub proof fn lemma_isqrt_le(n1: int, n2: int, r1: int, r2: int)
    requires
        is_isqrt(n1, r1),
        is_isqrt(n2, r2),
        n1 <= n2,
    ensures
        r1 <= r2,
{
    assert(r1 <= r2) by (nonlinear_arith)
        requires
            is_isqrt(n1, r1),
            is_isqrt(n2, r2),
            n1 <= n2;
}

/// Saturate a 128-bit value into the `i64` range.
pub fn sat_i128(x: i128) -> (r: i64)
    ensures
        r as int == sat64(x as int),
{
    if x > i64::MAX as i128 {
        i64::MAX
    } else if x < i64::MIN as i128 {
        i64::MIN
    } else {
        x as i64
    }
}

/// Truncated 128-bit division, total in the divisor.
pub fn quot_i128(a: i128, b: i128) -> (r: i128)
    requires
        a > i128::MIN,
        b > i128::MIN,
    ensures
        r as int == quot(a as int, b as int),
        abs_int(r as int) <= abs_int(a as int),
{
    if b == 0 {
        return 0;
    }
    let an: u128 = if a < 0 {
        (-a) as u128
    } else {
        a as u128
    };
    let bn: u128 = if b < 0 {
        (-b) as u128
    } else {
        b as u128
    };
    let q: u128 = an / bn;
    proof {
        assert(an as int == abs_int(a as int));
        assert(bn as int == abs_int(b as int));
        assert(q as int <= an as int) by (nonlinear_arith)
            requires
                q as int == an as int / bn as int,
                bn as int >= 1,
                an as int >= 0;
    }
    if (a < 0) != (b < 0) {
        -(q as i128)
    } else {
        q as i128
    }
}

/// Fixed-point saturating addition.
pub fn fx_add(a: i64, b: i64) -> (r: i64)
    ensures
        r as int == sat64(a + b),
{
    sat_i128((a as i128) + (b as i128))
}

/// Fixed-point saturating subtraction.
pub fn fx_sub(a: i64, b: i64) -> (r: i64)
    ensures
        r as int == sat64(a - b),
{
    sat_i128((a as i128) - (b as i128))
}

/// Fixed-point saturating negation.
pub fn fx_neg(a: i64) -> (r: i64)
    ensures
        r as int == sat64(-(a as int)),
{
    sat_i128(-(a as i128))
}

/// Fixed-point saturating absolute value.
pub fn fx_abs(a: i64) -> (r: i64)
    ensures
        r as int == sat64(abs_int(a as int)),
{
    if a < 0 {
        sat_i128(-(a as i128))
    } else {
        a
    }
}

/// The smaller of two fixed-point values.
pub fn fx_min(a: i64, b: i64) -> (r: i64)
    ensures
        r as int == if a <= b { a as int } else { b as int },
{
    if a <= b {
        a
    } else {
        b
    }
}

/// The larger of two fixed-point values.
pub fn fx_max(a: i64, b: i64) -> (r: i64)
    ensures
        r as int == if a >= b { a as int } else { b as int },
{
    if a >= b {
        a
    } else {
        b
    }
}

/// Clamp a fixed-point value into `[lo, hi]`.
pub fn fx_clamp(x: i64, lo: i64, hi: i64) -> (r: i64)
    requires
        lo <= hi,
    ensures
        r as int == clamp_s(x as int, lo as int, hi as int),
{
    if x < lo {
        lo
    } else if x > hi {
        hi
    } else {
        x
    }
}

/// `a * b / c` with a 128-bit intermediate product, truncated and saturated.
pub fn fx_muldiv(a: i64, b: i64, c: i64) -> (r: i64)
    ensures
        r as int == fxmd(a as int, b as int, c as int),
{
    proof {
        assert((a as int) * (b as int) <= (0x4000_0000_0000_0000_0000_0000_0000_0000int) && (a as int) * (b as int) >= -(0x4000_0000_0000_0000_0000_0000_0000_0000int)) by (nonlinear_arith)
            requires
                -(0x8000_0000_0000_0000int) <= a as int <= 0x8000_0000_0000_0000int,
                -(0x8000_0000_0000_0000int) <= b as int <= 0x8000_0000_0000_0000int;
    }
    let p: i128 = (a as i128) * (b as i128);
    let q: i128 = quot_i128(p, c as i128);
    sat_i128(q)
}

/// Fixed-point multiplication: `a * b / SCALE`, truncated and saturated.
pub fn fx_mul(a: i64, b: i64) -> (r: i64)
    ensures
        r as int == fxmul(a as int, b as int),
{
    fx_muldiv(a, b, SCALE)
}

/// Fixed-point division: `a * SCALE / b`, truncated and saturated;
/// 0 when `b` is 0.
pub fn fx_div(a: i64, b: i64) -> (r: i64)
    ensures
        r as int == fxdiv(a as int, b as int),
{
    fx_muldiv(a, SCALE, b)
}

/// Plain integer division of a fixed-point value, truncated; 0 when `d` is 0.
pub fn fx_divi(a: i64, d: i64) -> (r: i64)
    ensures
        r as int == sat64(quot(a as int, d as int)),
        abs_int(r as int) <= abs_int(a as int),
{
    let q: i128 = quot_i128(a as i128, d as i128);
    sat_i128(q)
}

/// `a * b / c` rounded to nearest (halves away from zero), saturated.
pub fn fx_muldiv_round(a: i64, b: i64, c: i64) -> (r: i64)
    ensures
        r as int == sat64(rquot((a as int) * (b as int), c as int)),
{
    proof {
        assert((a as int) * (b as int) <= (0x4000_0000_0000_0000_0000_0000_0000_0000int) && (a as int) * (b as int) >= -(0x4000_0000_0000_0000_0000_0000_0000_0000int)) by (nonlinear_arith)
            requires
                -(0x8000_0000_0000_0000int) <= a as int <= 0x8000_0000_0000_0000int,
                -(0x8000_0000_0000_0000int) <= b as int <= 0x8000_0000_0000_0000int;
    }
    let p: i128 = (a as i128) * (b as i128);
    if c == 0 {
        return 0;
    }
    let pn: u128 = if p < 0 {
        (-p) as u128
    } else {
        p as u128
    };
    let cn: u128 = if c < 0 {
        (-(c as i128)) as u128
    } else {
        c as u128
    };
    let num: u128 = 2 * pn + cn;
    let q: u128 = num / (2 * cn);
    proof {
        assert(pn as int == abs_int(p as int));
        assert(cn as int == abs_int(c as int));
        assert(q as int <= pn as int + 1) by (nonlinear_arith)
            requires
                q as int == (2 * (pn as int) + cn as int) / (2 * (cn as int)),
                cn as int >= 1,
                pn as int >= 0;
    }
    let qs: i128 = if (p < 0) != (c < 0) {
        -(q as i128)
    } else {
        q as i128
    };
    sat_i128(qs)
}

/// Integer square root of a 128-bit value, by bisection.
pub fn isqrt_u128(n: u128) -> (r: u128)
    ensures
        is_isqrt(n as int, r as int),
{
    let mut lo: u128 = 0;
    // start the bisection just above the root's magnitude tier
    let mut hi: u128 = if n < 0x1_0000_0000u128 {
        0x1_0000u128
    } else if n < 0x1_0000_0000_0000_0000u128 {
        0x1_0000_0000u128
    } else if n < 0x1_0000_0000_0000_0000_0000_0000u128 {
        0x1_0000_0000_0000u128
    } else {
        0x1_0000_0000_0000_0000u128
    };
    proof {
        assert(0x1_0000int * 0x1_0000int == 0x1_0000_0000int) by (nonlinear_arith);
        assert(0x1_0000_0000int * 0x1_0000_0000int == 0x1_0000_0000_0000_0000int) by (nonlinear_arith);
        assert(0x1_0000_0000_0000int * 0x1_0000_0000_0000int == 0x1_0000_0000_0000_0000_0000_0000int) by (nonlinear_arith);
        assert((n as int) < 0x1_0000_0000_0000_0000int * 0x1_0000_0000_0000_0000int) by (nonlinear_arith)
            requires
                n as int <= u128::MAX as int;
    }
    while lo + 1 < hi
        invariant
            lo < hi,
            hi <= 0x1_0000_0000_0000_0000u128,
            (lo as int) * (lo as int) <= n as int,
            (n as int) < (hi as int) * (hi as int),
        decreases hi - lo,
    {
        let mid: u128 = lo + (hi - lo) / 2;
        proof {
            assert((mid as int) * (mid as int) < u128::MAX as int) by (nonlinear_arith)
                requires
                    0 <= mid as int,
                    (mid as int) < 0x1_0000_0000_0000_0000int;
        }
        if mid * mid <= n {
            lo = mid;
        } else {
            hi = mid;
        }
    }
    proof {
        assert(hi == lo + 1);
    }
    lo
}

/// The fixed-point square root as a total spec value: 0 for non-positive
/// inputs, else the floor of the real square root at fixed resolution.
pub open spec fn sqrtfx(a: int) -> int {
    if a <= 0 {
        0
    } else {
        sqrt_floor(a * (SCALE as int))
    }
}

/// Fixed-point square root: the result `r` satisfies
/// `r * r <= a * SCALE < (r + 1) * (r + 1)`, i.e. `r / SCALE` is the floor of
/// the real square root at fixed resolution. Non-positive inputs give 0.
pub fn fx_sqrt(a: i64) -> (r: i64)
    ensures
        r as int == sqrtfx(a as int),
        a >= 0 ==> is_isqrt((a as int) * (SCALE as int), r as int),
        r >= 0,
{
    if a <= 0 {
        proof {
            if a == 0 {
                assert(is_isqrt(0, 0)) by (nonlinear_arith);
                lemma_isqrt_unique(0, 0);
            }
        }
        0
    } else {
        proof {
            assert((a as int) * (SCALE as int) < 0x8000_0000_0000_0000_0000_0000_0000_0000int) by (nonlinear_arith)
                requires
                    0 <= a as int <= 0x8000_0000_0000_0000int;
        }
        let n: u128 = (a as u128) * (SCALE as u128);
        let r: u128 = isqrt_u128(n);
        proof {
            assert((r as int) < 4_000_000_000_000int) by (nonlinear_arith)
                requires
                    is_isqrt(n as int, r as int),
                    n as int <= (i64::MAX as int) * (SCALE as int);
            lemma_isqrt_unique(n as int, r as int);
        }
        r as i64
    }
}

/// `(a * b - c * d) / e`, truncated and saturated: the cross-product /
/// gyroscopic term pattern. Total for any operands.
pub fn fx_cross_term(a: i64, b: i64, c: i64, d: i64, e: i64) -> (r: i64)
    requires
        0 < e <= 1_000_000_000,
    ensures
        r as int == sat64(quot((a as int) * (b as int) - (c as int) * (d as int), e as int)),
{
    proof {
        assert((a as int) * (b as int) <= 0x4000_0000_0000_0000_0000_0000_0000_0000int
            && (a as int) * (b as int) >= -(0x4000_0000_0000_0000_0000_0000_0000_0000int)) by (nonlinear_arith)
            requires
                -(0x8000_0000_0000_0000int) <= a as int <= 0x8000_0000_0000_0000int,
                -(0x8000_0000_0000_0000int) <= b as int <= 0x8000_0000_0000_0000int;
        assert((c as int) * (d as int) <= 0x4000_0000_0000_0000_0000_0000_0000_0000int
            && (c as int) * (d as int) >= -(0x4000_0000_0000_0000_0000_0000_0000_0000int)) by (nonlinear_arith)
            requires
                -(0x8000_0000_0000_0000int) <= c as int <= 0x8000_0000_0000_0000int,
                -(0x8000_0000_0000_0000int) <= d as int <= 0x8000_0000_0000_0000int;
    }
    let p1: i128 = (a as i128) * (b as i128);
    let p2: i128 = (c as i128) * (d as i128);
    if p1 >= 0 && p2 < 0 && p1 > i128::MAX + p2 {
        proof {
            let diff = (p1 as int) - (p2 as int);
            assert(diff / (e as int) > i64::MAX as int) by (nonlinear_arith)
                requires
                    diff > i128::MAX as int,
                    0 < e as int <= 1_000_000_000;
        }
        i64::MAX
    } else if p1 < 0 && p2 > 0 && p1 <= i128::MIN + p2 {
        proof {
            let diff = (p2 as int) - (p1 as int);
            assert(diff / (e as int) > -(i64::MIN as int)) by (nonlinear_arith)
                requires
                    diff >= -(i128::MIN as int),
                    0 < e as int <= 1_000_000_000;
        }
        i64::MIN
    } else {
        let q: i128 = quot_i128(p1 - p2, e as i128);
        sat_i128(q)
    }
}

/// Rounded 128-bit division saturated into `i64` (halves away from zero).
pub fn rdiv_i128(a: i128, b: i128) -> (r: i64)
    requires
        -(0x4000_0000_0000_0000_0000_0000_0000_0000i128) <= a <= 0x4000_0000_0000_0000_0000_0000_0000_0000i128,
        -(0x4000_0000_0000_0000_0000_0000_0000_0000i128) <= b <= 0x4000_0000_0000_0000_0000_0000_0000_0000i128,
    ensures
        r as int == sat64(rquot(a as int, b as int)),
{
    if b == 0 {
        return 0;
    }
    let an: u128 = if a < 0 {
        (-a) as u128
    } else {
        a as u128
    };
    let bn: u128 = if b < 0 {
        (-b) as u128
    } else {
        b as u128
    };
    let num: u128 = 2 * an + bn;
    let q: u128 = num / (2 * bn);
    proof {
        assert(an as int == abs_int(a as int));
        assert(bn as int == abs_int(b as int));
        assert(q as int <= an as int + 1) by (nonlinear_arith)
            requires
                q as int == (2 * (an as int) + bn as int) / (2 * (bn as int)),
                bn as int >= 1,
                an as int >= 0;
    }
    let qs: i128 = if (a < 0) != (b < 0) {
        -(q as i128)
    } else {
        q as i128
    };
    sat_i128(qs)
}


/// Sign and magnitude facts about the truncated quotient.
pub proof fn lemma_quot_sign(a: int, b: int)
    requires
        b > 0,
    ensures
        a >= 0 ==> quot(a, b) >= 0,
        a <= 0 ==> quot(a, b) <= 0,
        a == 0 ==> quot(a, b) == 0,
        abs_int(quot(a, b)) <= abs_int(a),
{
    vstd::arithmetic::div_mod::lemma_div_pos_is_pos(abs_int(a), b);
    vstd::arithmetic::div_mod::lemma_div_nonincreasing(abs_int(a), b);
    if a == 0 {
        vstd::arithmetic::div_mod::lemma_div_of0(b);
    }
}

/// Sign facts about the saturating fixed-point product.
pub proof fn lemma_fxmul_sign(a: int, b: int)
    ensures
        (a >= 0 && b >= 0) ==> fxmul(a, b) >= 0,
        (a <= 0 && b >= 0) ==> fxmul(a, b) <= 0,
        (a >= 0 && b <= 0) ==> fxmul(a, b) <= 0,
        (a <= 0 && b <= 0) ==> fxmul(a, b) >= 0,
        (a == 0 || b == 0) ==> fxmul(a, b) == 0,
{
    assert((a >= 0 && b >= 0) ==> a * b >= 0) by (nonlinear_arith);
    assert((a <= 0 && b >= 0) ==> a * b <= 0) by (nonlinear_arith);
    assert((a >= 0 && b <= 0) ==> a * b <= 0) by (nonlinear_arith);
    assert((a <= 0 && b <= 0) ==> a * b >= 0) by (nonlinear_arith);
    assert((a == 0 || b == 0) ==> a * b == 0) by (nonlinear_arith);
    lemma_quot_sign(a * b, SCALE as int);
}

/// Sign facts about the saturating fixed-point quotient, for a positive
/// divisor.
pub proof fn lemma_fxdiv_sign(a: int, b: int)
    requires
        b > 0,
    ensures
        a >= 0 ==> fxdiv(a, b) >= 0,
        a <= 0 ==> fxdiv(a, b) <= 0,
        a == 0 ==> fxdiv(a, b) == 0,
{
    assert(a >= 0 ==> a * (SCALE as int) >= 0) by (nonlinear_arith);
    assert(a <= 0 ==> a * (SCALE as int) <= 0) by (nonlinear_arith);
    assert(a == 0 ==> a * (SCALE as int) == 0) by (nonlinear_arith);
    lemma_quot_sign(a * (SCALE as int), b);
}

/// The truncated quotient is monotone in a non-negative numerator.
pub proof fn lemma_quot_ordered(a1: int, a2: int, b: int)
    requires
        0 <= a1 <= a2,
        b > 0,
    ensures
        quot(a1, b) <= quot(a2, b),
{
    vstd::arithmetic::div_mod::lemma_div_is_ordered(a1, a2, b);
}

/// The truncated quotient of zero is zero.
pub proof fn lemma_quot_zero(b: int)
    ensures
        quot(0, b) == 0,
{
    if b != 0 {
        vstd::arithmetic::div_mod::lemma_div_of0(abs_int(b));
    }
}

/// Multiplying by one (at fixed scale) is the identity on in-range values.
pub proof fn lemma_fxmul_one(a: int)
    requires
        i64::MIN as int <= a <= i64::MAX as int,
    ensures
        fxmul(a, SCALE as int) == a,
{
    assert(abs_int(a * (SCALE as int)) == abs_int(a) * (SCALE as int)) by (nonlinear_arith);
    assert((SCALE as int) * abs_int(a) == abs_int(a) * (SCALE as int)) by (nonlinear_arith);
    vstd::arithmetic::div_mod::lemma_div_multiples_vanish(abs_int(a), SCALE as int);
}

/// The rounded quotient lands within half a divisor of the exact ratio.
pub proof fn lemma_rquot_err(a: int, b: int)
    requires
        b > 0,
    ensures
        2 * abs_int(rquot(a, b) * b - a) <= b,
{
    if a >= 0 {
        let q = (2 * a + b) / (2 * b);
        vstd::arithmetic::div_mod::lemma_fundamental_div_mod(2 * a + b, 2 * b);
        vstd::arithmetic::div_mod::lemma_mod_bound(2 * a + b, 2 * b);
        let r = (2 * a + b) % (2 * b);
        assert(2 * a + b == 2 * b * q + r);
        assert(2 * (q * b - a) == b - r) by (nonlinear_arith)
            requires
                2 * a + b == 2 * b * q + r;
        assert(rquot(a, b) == q);
    } else {
        let a2 = -a;
        let q = (2 * a2 + b) / (2 * b);
        vstd::arithmetic::div_mod::lemma_fundamental_div_mod(2 * a2 + b, 2 * b);
        vstd::arithmetic::div_mod::lemma_mod_bound(2 * a2 + b, 2 * b);
        let r = (2 * a2 + b) % (2 * b);
        assert(2 * a2 + b == 2 * b * q + r);
        assert(2 * (q * b - a2) == b - r) by (nonlinear_arith)
            requires
                2 * a2 + b == 2 * b * q + r;
        assert(rquot(a, b) == -q);
        assert((-q) * b - a == -(q * b - a2)) by (nonlinear_arith)
            requires
                a2 == -a;
    }
}
} // verus!
