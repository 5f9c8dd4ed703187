//! Three-component vectors of fixed-point scalars.

use vstd::prelude::*;

use crate::fixed::{
    abs_int, fx_add, fx_cross_term, fx_div, fx_mul, fx_sub, fxdiv, fxmul, isqrt_u128,
    lemma_isqrt_unique, quot, sat64, sqrt_floor, SCALE,
};

verus! {

/// A 3-vector with fixed-point components (east, north, up in the launch
/// frame, or body axes, depending on context).
#[derive(Clone, Copy, Debug, PartialEq, Eq, Structural)]
pub struct Vec3 {
    pub x: i64,
    pub y: i64,
    pub z: i64,
}

/// Sum of the squared components, exact.
pub open spec fn norm_sq3(v: Vec3) -> int {
    (v.x as int) * (v.x as int) + (v.y as int) * (v.y as int) + (v.z as int) * (v.z as int)
}

/// The fixed-point Euclidean norm: floor of the real norm at fixed
/// resolution, saturated.
pub open spec fn norm3_s(v: Vec3) -> int {
    sat64(sqrt_floor(norm_sq3(v)))
}

/// The fixed-point dot product (left-to-right saturating sum).
pub open spec fn dot3_s(a: Vec3, b: Vec3) -> int {
    sat64(
        sat64(fxmul(a.x as int, b.x as int) + fxmul(a.y as int, b.y as int)) + fxmul(
            a.z as int,
            b.z as int,
        ),
    )
}

impl Vec3 {
    /// The zero vector.
    pub fn zero() -> (r: Vec3)
        ensures
            r == (Vec3 { x: 0, y: 0, z: 0 }),
    {
        Vec3 { x: 0, y: 0, z: 0 }
    }

    /// Component-wise saturating sum.
    pub fn plus(&self, o: &Vec3) -> (r: Vec3)
        ensures
            r.x as int == sat64(self.x + o.x),
            r.y as int == sat64(self.y + o.y),
            r.z as int == sat64(self.z + o.z),
    {
        Vec3 { x: fx_add(self.x, o.x), y: fx_add(self.y, o.y), z: fx_add(self.z, o.z) }
    }

    /// Component-wise saturating difference.
    pub fn minus(&self, o: &Vec3) -> (r: Vec3)
        ensures
            r.x as int == sat64(self.x - o.x),
            r.y as int == sat64(self.y - o.y),
            r.z as int == sat64(self.z - o.z),
    {
        Vec3 { x: fx_sub(self.x, o.x), y: fx_sub(self.y, o.y), z: fx_sub(self.z, o.z) }
    }

    /// Component-wise saturating negation.
    pub fn negate(&self) -> (r: Vec3)
        ensures
            r.x as int == sat64(-(self.x as int)),
            r.y as int == sat64(-(self.y as int)),
            r.z as int == sat64(-(self.z as int)),
    {
        Vec3 {
            x: crate::fixed::fx_neg(self.x),
            y: crate::fixed::fx_neg(self.y),
            z: crate::fixed::fx_neg(self.z),
        }
    }

    /// Scale by a fixed-point factor.
    pub fn scale(&self, s: i64) -> (r: Vec3)
        ensures
            r.x as int == fxmul(self.x as int, s as int),
            r.y as int == fxmul(self.y as int, s as int),
            r.z as int == fxmul(self.z as int, s as int),
    {
        Vec3 { x: fx_mul(self.x, s), y: fx_mul(self.y, s), z: fx_mul(self.z, s) }
    }

    /// Fixed-point dot product.
    pub fn dot(&self, o: &Vec3) -> (r: i64)
        ensures
            r as int == dot3_s(*self, *o),
    {
        fx_add(fx_add(fx_mul(self.x, o.x), fx_mul(self.y, o.y)), fx_mul(self.z, o.z))
    }

    /// Fixed-point cross product.
    pub fn cross(&self, o: &Vec3) -> (r: Vec3)
        ensures
            r.x as int == sat64(
                quot((self.y as int) * (o.z as int) - (self.z as int) * (o.y as int), SCALE as int),
            ),
            r.y as int == sat64(
                quot((self.z as int) * (o.x as int) - (self.x as int) * (o.z as int), SCALE as int),
            ),
            r.z as int == sat64(
                quot((self.x as int) * (o.y as int) - (self.y as int) * (o.x as int), SCALE as int),
            ),
    {
        Vec3 {
            x: fx_cross_term(self.y, o.z, self.z, o.y, SCALE),
            y: fx_cross_term(self.z, o.x, self.x, o.z, SCALE),
            z: fx_cross_term(self.x, o.y, self.y, o.x, SCALE),
        }
    }

    /// Fixed-point Euclidean norm.
    pub fn norm(&self) -> (r: i64)
        ensures
            r as int == norm3_s(*self),
            r >= 0,
    {
        let ax: i128 = if self.x < 0 {
            -(self.x as i128)
        } else {
            self.x as i128
        };
        let ay: i128 = if self.y < 0 {
            -(self.y as i128)
        } else {
            self.y as i128
        };
        let az: i128 = if self.z < 0 {
            -(self.z as i128)
        } else {
            self.z as i128
        };
        proof {
            assert((ax as int) * (ax as int) == (self.x as int) * (self.x as int)
                && (ax as int) * (ax as int) <= 0x4000_0000_0000_0000_0000_0000_0000_0000int) by (nonlinear_arith)
                requires
                    ax as int == abs_int(self.x as int),
                    abs_int(self.x as int) <= 0x8000_0000_0000_0000int;
            assert((ay as int) * (ay as int) == (self.y as int) * (self.y as int)
                && (ay as int) * (ay as int) <= 0x4000_0000_0000_0000_0000_0000_0000_0000int) by (nonlinear_arith)
                requires
                    ay as int == abs_int(self.y as int),
                    abs_int(self.y as int) <= 0x8000_0000_0000_0000int;
            assert((az as int) * (az as int) == (self.z as int) * (self.z as int)
                && (az as int) * (az as int) <= 0x4000_0000_0000_0000_0000_0000_0000_0000int) by (nonlinear_arith)
                requires
                    az as int == abs_int(self.z as int),
                    abs_int(self.z as int) <= 0x8000_0000_0000_0000int;
        }
        let sx: u128 = (ax as u128) * (ax as u128);
        let sy: u128 = (ay as u128) * (ay as u128);
        let sz: u128 = (az as u128) * (az as u128);
        let n: u128 = sx + sy + sz;
        let r: u128 = isqrt_u128(n);
        proof {
            lemma_isqrt_unique(n as int, r as int);
        }
        if r > i64::MAX as u128 {
            i64::MAX
        } else {
            r as i64
        }
    }

    /// The unit vector in this direction (zero when the norm is zero).
    pub fn unit(&self) -> (r: Vec3)
        ensures
            r.x as int == fxdiv(self.x as int, norm3_s(*self)),
            r.y as int == fxdiv(self.y as int, norm3_s(*self)),
            r.z as int == fxdiv(self.z as int, norm3_s(*self)),
    {
        let n: i64 = self.norm();
        Vec3 { x: fx_div(self.x, n), y: fx_div(self.y, n), z: fx_div(self.z, n) }
    }
}

} // verus!
