//! Attitude quaternions with fixed-point components at `QSCALE`.
//!
//! A quaternion holds the body-to-inertial rotation. Components live at a
//! finer scale than general quantities so that renormalisation after each
//! integration step keeps the attitude unit to within a few parts in 1e9,
//! far inside the 1e-6 drift tolerance the flight invariants demand.

use vstd::prelude::*;

use crate::fixed::{
    clamp_s, fx_add, fx_clamp, fx_cross_term, fx_muldiv, is_isqrt, isqrt_u128, lemma_isqrt_unique,
    quot, quot_i128, rdiv_i128, rquot, sat64, sat_i128, sqrt_floor, QSCALE, SCALE,
};
use crate::vec3::Vec3;

verus! {

/// Twice `QSCALE`: quaternion components are clamped into this range before
/// any rotation arithmetic, so that every operation is total.
pub const QCLAMP: i64 = 2_000_000_000;

/// `QSCALE * 2^32`: the numerator scale used by the high-precision
/// renormalisation.
pub const QK: i64 = 1_000_000_000 * 4_294_967_296;


/// A rotation quaternion (scalar part `w`, vector part `x, y, z`), components
/// at `QSCALE`.
#[derive(Clone, Copy, Debug, PartialEq, Eq, Structural)]
pub struct Quat {
    pub w: i64,
    pub x: i64,
    pub y: i64,
    pub z: i64,
}

/// A quaternion component clamped into the working range.
pub open spec fn qc(v: int) -> int {
    clamp_s(v, -(QCLAMP as int), QCLAMP as int)
}

/// Sum of squared components, exact.
pub open spec fn qnorm_sq(q: Quat) -> int {
    (q.w as int) * (q.w as int) + (q.x as int) * (q.x as int) + (q.y as int) * (q.y as int) + (
    q.z as int) * (q.z as int)
}

/// Sum of squared clamped components.
pub open spec fn qclamped_sq(q: Quat) -> int {
    qc(q.w as int) * qc(q.w as int) + qc(q.x as int) * qc(q.x as int) + qc(q.y as int) * qc(q.y as int) + qc(q.z as int) * qc(q.z as int)
}

/// The quaternion is unit length to within 8 parts in `QSCALE`
/// (8e-9 of 1.0) -- the invariant every attitude sample satisfies.
pub open spec fn unitish(q: Quat) -> bool {
    &&& (QSCALE - 8) * (QSCALE - 8) <= qnorm_sq(q)
    &&& qnorm_sq(q) <= (QSCALE + 8) * (QSCALE + 8)
}

/// The half-turn intermediate `t = 2 (qv x v) / QSCALE` of the rotation
/// formula, x component (and cyclic).
pub open spec fn rott_x_of(y: int, z: int, v: Vec3) -> int {
    sat64(quot(2 * y * (v.z as int) - 2 * z * (v.y as int), QSCALE as int))
}

pub open spec fn rott_y_of(z: int, x: int, v: Vec3) -> int {
    sat64(quot(2 * z * (v.x as int) - 2 * x * (v.z as int), QSCALE as int))
}

pub open spec fn rott_z_of(x: int, y: int, v: Vec3) -> int {
    sat64(quot(2 * x * (v.y as int) - 2 * y * (v.x as int), QSCALE as int))
}

/// Rotation of `v` by the unit quaternion with (clamped) components
/// `w, x, y, z`: `v + w t / QSCALE + (qv x t) / QSCALE`.
pub open spec fn rot_x_of(w: int, x: int, y: int, z: int, v: Vec3) -> int {
    let tx = rott_x_of(y, z, v);
    let ty = rott_y_of(z, x, v);
    let tz = rott_z_of(x, y, v);
    sat64(
        sat64((v.x as int) + sat64(quot(w * tx, QSCALE as int))) + sat64(
            quot(y * tz - z * ty, QSCALE as int),
        ),
    )
}

pub open spec fn rot_y_of(w: int, x: int, y: int, z: int, v: Vec3) -> int {
    let tx = rott_x_of(y, z, v);
    let ty = rott_y_of(z, x, v);
    let tz = rott_z_of(x, y, v);
    sat64(
        sat64((v.y as int) + sat64(quot(w * ty, QSCALE as int))) + sat64(
            quot(z * tx - x * tz, QSCALE as int),
        ),
    )
}

pub open spec fn rot_z_of(w: int, x: int, y: int, z: int, v: Vec3) -> int {
    let tx = rott_x_of(y, z, v);
    let ty = rott_y_of(z, x, v);
    let tz = rott_z_of(x, y, v);
    sat64(
        sat64((v.z as int) + sat64(quot(w * tz, QSCALE as int))) + sat64(
            quot(x * ty - y * tx, QSCALE as int),
        ),
    )
}

/// Scalar part of the raw quaternion rate `0.5 q (0, omega)`.
pub open spec fn qrate_w_of(x: int, y: int, z: int, o: Vec3) -> int {
    sat64(
        quot(
            -(x * (o.x as int) + y * (o.y as int) + z * (o.z as int)),
            2 * SCALE as int,
        ),
    )
}

pub open spec fn qrate_x_of(w: int, y: int, z: int, o: Vec3) -> int {
    sat64(quot(w * (o.x as int) + y * (o.z as int) - z * (o.y as int), 2 * SCALE as int))
}

pub open spec fn qrate_y_of(w: int, x: int, z: int, o: Vec3) -> int {
    sat64(quot(w * (o.y as int) + z * (o.x as int) - x * (o.z as int), 2 * SCALE as int))
}

pub open spec fn qrate_z_of(w: int, x: int, y: int, o: Vec3) -> int {
    sat64(quot(w * (o.z as int) + x * (o.y as int) - y * (o.x as int), 2 * SCALE as int))
}

/// The scale applied to a clamped component by renormalisation:
/// `round(c * QK / n2)` where `n2` is the clamped norm at `2^32` extra
/// precision.
pub open spec fn renorm_n2(q: Quat) -> int {
    sqrt_floor(qclamped_sq(q) * 0x1_0000_0000_0000_0000int)
}

pub open spec fn renorm_w(q: Quat) -> int {
    sat64(rquot(qc(q.w as int) * (QK as int), renorm_n2(q)))
}

pub open spec fn renorm_x(q: Quat) -> int {
    sat64(rquot(qc(q.x as int) * (QK as int), renorm_n2(q)))
}

pub open spec fn renorm_y(q: Quat) -> int {
    sat64(rquot(qc(q.y as int) * (QK as int), renorm_n2(q)))
}

pub open spec fn renorm_z(q: Quat) -> int {
    sat64(rquot(qc(q.z as int) * (QK as int), renorm_n2(q)))
}

/// What renormalisation guarantees of a non-degenerate input: components
/// in working range and a squared norm inside the `unitish` band
/// (`lemma_renorm_in_band` proves this holds whenever the clamped input is
/// not the zero quaternion).
pub open spec fn renorm_ok(q: Quat) -> bool {
    let w = renorm_w(q);
    let x = renorm_x(q);
    let y = renorm_y(q);
    let z = renorm_z(q);
    &&& qclamped_sq(q) != 0
    &&& -(QCLAMP as int) <= w <= QCLAMP as int
    &&& -(QCLAMP as int) <= x <= QCLAMP as int
    &&& -(QCLAMP as int) <= y <= QCLAMP as int
    &&& -(QCLAMP as int) <= z <= QCLAMP as int
    &&& (QSCALE - 8) * (QSCALE - 8) <= w * w + x * x + y * y + z * z
    &&& w * w + x * x + y * y + z * z <= (QSCALE + 8) * (QSCALE + 8)
}

impl Quat {
    /// The identity rotation.
    pub fn identity() -> (r: Quat)
        ensures
            r == (Quat { w: QSCALE, x: 0, y: 0, z: 0 }),
            unitish(r),
    {
        proof {
            assert(unitish(Quat { w: QSCALE, x: 0, y: 0, z: 0 })) by (nonlinear_arith);
        }
        Quat { w: QSCALE, x: 0, y: 0, z: 0 }
    }

    /// Rotate a vector from the body frame into the inertial frame.
    pub fn rotate(&self, v: &Vec3) -> (r: Vec3)
        ensures
            r.x as int == rot_x_of(qc(self.w as int), qc(self.x as int), qc(self.y as int), qc(self.z as int), *v),
            r.y as int == rot_y_of(qc(self.w as int), qc(self.x as int), qc(self.y as int), qc(self.z as int), *v),
            r.z as int == rot_z_of(qc(self.w as int), qc(self.x as int), qc(self.y as int), qc(self.z as int), *v),
    {
        let w: i64 = fx_clamp(self.w, -QCLAMP, QCLAMP);
        let x: i64 = fx_clamp(self.x, -QCLAMP, QCLAMP);
        let y: i64 = fx_clamp(self.y, -QCLAMP, QCLAMP);
        let z: i64 = fx_clamp(self.z, -QCLAMP, QCLAMP);
        rotate_wxyz(w, x, y, z, v)
    }

    /// Rotate a vector from the inertial frame into the body frame
    /// (rotation by the conjugate).
    pub fn rotate_inv(&self, v: &Vec3) -> (r: Vec3)
        ensures
            r.x as int == rot_x_of(qc(self.w as int), -qc(self.x as int), -qc(self.y as int), -qc(self.z as int), *v),
            r.y as int == rot_y_of(qc(self.w as int), -qc(self.x as int), -qc(self.y as int), -qc(self.z as int), *v),
            r.z as int == rot_z_of(qc(self.w as int), -qc(self.x as int), -qc(self.y as int), -qc(self.z as int), *v),
    {
        let w: i64 = fx_clamp(self.w, -QCLAMP, QCLAMP);
        let x: i64 = fx_clamp(self.x, -QCLAMP, QCLAMP);
        let y: i64 = fx_clamp(self.y, -QCLAMP, QCLAMP);
        let z: i64 = fx_clamp(self.z, -QCLAMP, QCLAMP);
        rotate_wxyz(w, -x, -y, -z, v)
    }

    /// The raw (non-unit) quaternion rate `0.5 q (0, omega)` driven by the
    /// body angular velocity; components at `QSCALE`.
    pub fn omega_rate(&self, omega: &Vec3) -> (r: Quat)
        ensures
            r.w as int == qrate_w_of(qc(self.x as int), qc(self.y as int), qc(self.z as int), *omega),
            r.x as int == qrate_x_of(qc(self.w as int), qc(self.y as int), qc(self.z as int), *omega),
            r.y as int == qrate_y_of(qc(self.w as int), qc(self.x as int), qc(self.z as int), *omega),
            r.z as int == qrate_z_of(qc(self.w as int), qc(self.x as int), qc(self.y as int), *omega),
    {
        let w: i64 = fx_clamp(self.w, -QCLAMP, QCLAMP);
        let x: i64 = fx_clamp(self.x, -QCLAMP, QCLAMP);
        let y: i64 = fx_clamp(self.y, -QCLAMP, QCLAMP);
        let z: i64 = fx_clamp(self.z, -QCLAMP, QCLAMP);
        proof {
            lemma_qprod_bounds(w as int, omega.x as int);
            lemma_qprod_bounds(x as int, omega.x as int);
            lemma_qprod_bounds(x as int, omega.y as int);
            lemma_qprod_bounds(y as int, omega.y as int);
            lemma_qprod_bounds(y as int, omega.z as int);
            lemma_qprod_bounds(z as int, omega.z as int);
            lemma_qprod_bounds(w as int, omega.y as int);
            lemma_qprod_bounds(w as int, omega.z as int);
            lemma_qprod_bounds(x as int, omega.z as int);
            lemma_qprod_bounds(y as int, omega.x as int);
            lemma_qprod_bounds(z as int, omega.x as int);
            lemma_qprod_bounds(z as int, omega.y as int);
        }
        let den: i64 = 2 * SCALE;
        let pw: i128 = -((x as i128) * (omega.x as i128) + (y as i128) * (omega.y as i128) + (
        z as i128) * (omega.z as i128));
        let px: i128 = (w as i128) * (omega.x as i128) + (y as i128) * (omega.z as i128) - (
        z as i128) * (omega.y as i128);
        let py: i128 = (w as i128) * (omega.y as i128) + (z as i128) * (omega.x as i128) - (
        x as i128) * (omega.z as i128);
        let pz: i128 = (w as i128) * (omega.z as i128) + (x as i128) * (omega.y as i128) - (
        y as i128) * (omega.x as i128);
        Quat {
            w: sat_i128(quot_i128(pw, den as i128)),
            x: sat_i128(quot_i128(px, den as i128)),
            y: sat_i128(quot_i128(py, den as i128)),
            z: sat_i128(quot_i128(pz, den as i128)),
        }
    }

    /// Renormalise to unit length: each clamped component is divided, with
    /// rounding, by the clamped norm taken at `2^32` extra precision. The
    /// result is proved to land inside the `unitish` band for every
    /// non-degenerate input; only the zero quaternion falls back to the
    /// identity.
    pub fn normalize(&self) -> (r: Quat)
        ensures
            qclamped_sq(*self) != 0 ==> (r.w as int == renorm_w(*self) && r.x as int == renorm_x(
                *self,
            ) && r.y as int == renorm_y(*self) && r.z as int == renorm_z(*self)),
            qclamped_sq(*self) == 0 ==> r == (Quat { w: QSCALE, x: 0, y: 0, z: 0 }),
            unitish(r),
    {
        let wc: i64 = fx_clamp(self.w, -QCLAMP, QCLAMP);
        let xc: i64 = fx_clamp(self.x, -QCLAMP, QCLAMP);
        let yc: i64 = fx_clamp(self.y, -QCLAMP, QCLAMP);
        let zc: i64 = fx_clamp(self.z, -QCLAMP, QCLAMP);
        let nsq: u128 = sq_u128(wc) + sq_u128(xc) + sq_u128(yc) + sq_u128(zc);
        proof {
            assert(nsq as int == qclamped_sq(*self));
            assert(qclamped_sq(*self) <= 4 * (QCLAMP as int) * (QCLAMP as int)) by (nonlinear_arith)
                requires
                    nsq as int == qclamped_sq(*self),
                    nsq >= 0;
            assert((nsq as int) * 0x1_0000_0000_0000_0000int < 0x1_0000_0000_0000_0000_0000_0000_0000_0000int
                - 1) by (nonlinear_arith)
                requires
                    0 <= nsq as int <= 4 * (QCLAMP as int) * (QCLAMP as int);
        }
        if nsq == 0 {
            return Quat::identity();
        }
        let n2: u128 = isqrt_u128(nsq * 0x1_0000_0000_0000_0000u128);
        proof {
            lemma_isqrt_unique((nsq * 0x1_0000_0000_0000_0000u128) as int, n2 as int);
            // the rounded candidate provably lands inside the unit band
            lemma_renorm_in_band(*self, n2 as int);
            assert(n2 as int == renorm_n2(*self));
            assert((n2 as int) * (n2 as int) <= (nsq as int) * 0x1_0000_0000_0000_0000int);
            assert(n2 as int <= 0x4000_0000_0000_0000_0000_0000_0000_0000int) by (nonlinear_arith)
                requires
                    (n2 as int) * (n2 as int) <= (nsq as int) * 0x1_0000_0000_0000_0000int,
                    0 <= nsq as int <= 4 * (QCLAMP as int) * (QCLAMP as int),
                    n2 >= 0;
            lemma_qk_prod_bounds(wc as int);
            lemma_qk_prod_bounds(xc as int);
            lemma_qk_prod_bounds(yc as int);
            lemma_qk_prod_bounds(zc as int);
        }
        let rw: i64 = rdiv_i128((wc as i128) * (QK as i128), n2 as i128);
        let rx: i64 = rdiv_i128((xc as i128) * (QK as i128), n2 as i128);
        let ry: i64 = rdiv_i128((yc as i128) * (QK as i128), n2 as i128);
        let rz: i64 = rdiv_i128((zc as i128) * (QK as i128), n2 as i128);
        let out: Quat = Quat { w: rw, x: rx, y: ry, z: rz };
        proof {
            assert(qnorm_sq(out) == renorm_w(*self) * renorm_w(*self) + renorm_x(*self)
                * renorm_x(*self) + renorm_y(*self) * renorm_y(*self) + renorm_z(*self)
                * renorm_z(*self));
            assert(unitish(out));
        }
        out
    }
}

/// Square of a clamped component as `u128`.
fn sq_u128(a: i64) -> (r: u128)
    requires
        -QCLAMP <= a <= QCLAMP,
    ensures
        r as int == (a as int) * (a as int),
        r as int <= (QCLAMP as int) * (QCLAMP as int),
{
    proof {
        assert((a as int) * (a as int) == abs_sq(a as int) && 0 <= abs_sq(a as int) <= (
        QCLAMP as int) * (QCLAMP as int)) by (nonlinear_arith)
            requires
                -(QCLAMP as int) <= a as int <= QCLAMP as int;
    }
    let m: i128 = if a < 0 {
        -(a as i128)
    } else {
        a as i128
    };
    (m as u128) * (m as u128)
}

/// Helper: the square via the absolute value.
pub open spec fn abs_sq(a: int) -> int {
    crate::fixed::abs_int(a) * crate::fixed::abs_int(a)
}

proof fn lemma_qprod_bounds(c: int, o: int)
    requires
        -(QCLAMP as int) <= c <= QCLAMP as int,
        i64::MIN as int <= o <= i64::MAX as int,
    ensures
        -(0x1000_0000_0000_0000_0000_0000_0000_0000int) <= c * o <= 0x1000_0000_0000_0000_0000_0000_0000_0000int,
{
    assert(-(0x1000_0000_0000_0000_0000_0000_0000_0000int) <= c * o
        <= 0x1000_0000_0000_0000_0000_0000_0000_0000int) by (nonlinear_arith)
        requires
            -(QCLAMP as int) <= c <= QCLAMP as int,
            i64::MIN as int <= o <= i64::MAX as int;
}

proof fn lemma_qk_prod_bounds(c: int)
    requires
        -(QCLAMP as int) <= c <= QCLAMP as int,
    ensures
        -(0x4000_0000_0000_0000_0000_0000_0000_0000int) <= c * (QK as int) <= 0x4000_0000_0000_0000_0000_0000_0000_0000int,
{
    assert(-(0x4000_0000_0000_0000_0000_0000_0000_0000int) <= c * (QK as int)
        <= 0x4000_0000_0000_0000_0000_0000_0000_0000int) by (nonlinear_arith)
        requires
            -(QCLAMP as int) <= c <= QCLAMP as int;
}

/// Rotation with already-clamped components.
fn rotate_wxyz(w: i64, x: i64, y: i64, z: i64, v: &Vec3) -> (r: Vec3)
    requires
        -QCLAMP <= w <= QCLAMP,
        -QCLAMP <= x <= QCLAMP,
        -QCLAMP <= y <= QCLAMP,
        -QCLAMP <= z <= QCLAMP,
    ensures
        r.x as int == rot_x_of(w as int, x as int, y as int, z as int, *v),
        r.y as int == rot_y_of(w as int, x as int, y as int, z as int, *v),
        r.z as int == rot_z_of(w as int, x as int, y as int, z as int, *v),
{
    let tx: i64 = fx_cross_term(2 * y, v.z, 2 * z, v.y, QSCALE);
    let ty: i64 = fx_cross_term(2 * z, v.x, 2 * x, v.z, QSCALE);
    let tz: i64 = fx_cross_term(2 * x, v.y, 2 * y, v.x, QSCALE);
    let rx: i64 = fx_add(
        fx_add(v.x, fx_muldiv(w, tx, QSCALE)),
        fx_cross_term(y, tz, z, ty, QSCALE),
    );
    let ry: i64 = fx_add(
        fx_add(v.y, fx_muldiv(w, ty, QSCALE)),
        fx_cross_term(z, tx, x, tz, QSCALE),
    );
    let rz: i64 = fx_add(
        fx_add(v.z, fx_muldiv(w, tz, QSCALE)),
        fx_cross_term(x, ty, y, tx, QSCALE),
    );
    Vec3 { x: rx, y: ry, z: rz }
}


/// The identity quaternion rotates every vector to itself.
pub proof fn lemma_rot_identity(v: Vec3)
    ensures
        rot_x_of(QSCALE as int, 0, 0, 0, v) == v.x as int,
        rot_y_of(QSCALE as int, 0, 0, 0, v) == v.y as int,
        rot_z_of(QSCALE as int, 0, 0, 0, v) == v.z as int,
{
    crate::fixed::lemma_quot_zero(QSCALE as int);
    assert(2 * 0 * (v.z as int) - 2 * 0 * (v.y as int) == 0) by (nonlinear_arith);
    assert(2 * 0 * (v.x as int) - 2 * 0 * (v.z as int) == 0) by (nonlinear_arith);
    assert(2 * 0 * (v.y as int) - 2 * 0 * (v.x as int) == 0) by (nonlinear_arith);
    assert(rott_x_of(0, 0, v) == 0);
    assert(rott_y_of(0, 0, v) == 0);
    assert(rott_z_of(0, 0, v) == 0);
    assert(sat64((v.x as int) + sat64(quot((QSCALE as int) * 0, QSCALE as int))) == v.x as int);
    assert(sat64((v.y as int) + sat64(quot((QSCALE as int) * 0, QSCALE as int))) == v.y as int);
    assert(sat64((v.z as int) + sat64(quot((QSCALE as int) * 0, QSCALE as int))) == v.z as int);
}

/// Every rotation fixes the zero vector.
pub proof fn lemma_rot_zero_vec(w: int, x: int, y: int, z: int)
    ensures
        rot_x_of(w, x, y, z, Vec3 { x: 0, y: 0, z: 0 }) == 0,
        rot_y_of(w, x, y, z, Vec3 { x: 0, y: 0, z: 0 }) == 0,
        rot_z_of(w, x, y, z, Vec3 { x: 0, y: 0, z: 0 }) == 0,
{
    crate::fixed::lemma_quot_zero(QSCALE as int);
    let v = Vec3 { x: 0, y: 0, z: 0 };
    assert(2 * y * 0 - 2 * z * 0 == 0) by (nonlinear_arith);
    assert(2 * z * 0 - 2 * x * 0 == 0) by (nonlinear_arith);
    assert(2 * x * 0 - 2 * y * 0 == 0) by (nonlinear_arith);
    assert(rott_x_of(y, z, v) == 0);
    assert(rott_y_of(z, x, v) == 0);
    assert(rott_z_of(x, y, v) == 0);
    assert(w * 0 == 0) by (nonlinear_arith);
    assert(y * 0 - z * 0 == 0) by (nonlinear_arith);
    assert(z * 0 - x * 0 == 0) by (nonlinear_arith);
    assert(x * 0 - y * 0 == 0) by (nonlinear_arith);
}


/// One renormalised component: with the high-precision norm `m` of a
/// non-degenerate clamped quaternion, the rounded component stays within
/// `QSCALE` (so no saturation occurs) and within half an `m` of exact.
proof fn lemma_renorm_comp(c: int, m: int, nn: int)
    requires
        -(QCLAMP as int) <= c <= QCLAMP as int,
        c * c <= nn,
        1 <= nn,
        is_isqrt(nn * 0x1_0000_0000_0000_0000int, m),
    ensures
        crate::fixed::abs_int(rquot(c * (QK as int), m)) <= QSCALE as int,
        sat64(rquot(c * (QK as int), m)) == rquot(c * (QK as int), m),
        2 * crate::fixed::abs_int(rquot(c * (QK as int), m) * m - c * (QK as int)) <= m,
        m >= 0x1_0000_0000int,
{
    let ac = crate::fixed::abs_int(c);
    assert(0x1_0000_0000int * 0x1_0000_0000int == 0x1_0000_0000_0000_0000int) by (nonlinear_arith);
    assert(QK as int == (QSCALE as int) * 0x1_0000_0000int);
    assert(m >= 0x1_0000_0000int && ac * 0x1_0000_0000int <= m) by (nonlinear_arith)
        requires
            is_isqrt(nn * 0x1_0000_0000_0000_0000int, m),
            0x1_0000_0000int * 0x1_0000_0000int == 0x1_0000_0000_0000_0000int,
            1 <= nn,
            c * c <= nn,
            ac >= 0,
            ac == c || ac == -c;
    crate::fixed::lemma_rquot_err(c * (QK as int), m);
    let r = rquot(c * (QK as int), m);
    let ar = crate::fixed::abs_int(r);
    // |r| m cannot exceed |c| QK + m/2, and |c| QK is at most QSCALE m
    assert(2 * (ar * m) <= 2 * (ac * (QK as int)) + m) by (nonlinear_arith)
        requires
            2 * crate::fixed::abs_int(r * m - c * (QK as int)) <= m,
            crate::fixed::abs_int(r * m - c * (QK as int)) >= (if r * m - c * (QK as int) >= 0 {
                r * m - c * (QK as int)
            } else {
                -(r * m - c * (QK as int))
            }),
            ar == r || ar == -r,
            ac == c || ac == -c,
            ar >= 0,
            ac >= 0,
            m > 0;
    assert(ac * (QK as int) <= (QSCALE as int) * m) by (nonlinear_arith)
        requires
            QK as int == (QSCALE as int) * 0x1_0000_0000int,
            ac * 0x1_0000_0000int <= m,
            ac >= 0;
    assert(ar <= QSCALE as int) by (nonlinear_arith)
        requires
            2 * (ar * m) <= 2 * ((QSCALE as int) * m) + m,
            m > 0,
            ar >= 0;
}

/// For any non-degenerate quaternion the renormalisation candidate lands
/// inside the unit band: the identity fallback can only fire on the zero
/// quaternion.
#[verifier::rlimit(100)]
pub proof fn lemma_renorm_in_band(q: Quat, m: int)
    requires
        1 <= qclamped_sq(q),
        is_isqrt(qclamped_sq(q) * 0x1_0000_0000_0000_0000int, m),
    ensures
        m == renorm_n2(q),
        renorm_ok(q),
{
    crate::fixed::lemma_isqrt_unique(qclamped_sq(q) * 0x1_0000_0000_0000_0000int, m);
    let kk = 0x1_0000_0000int;
    let k2 = 0x1_0000_0000_0000_0000int;
    let qs = QSCALE as int;
    let qkk = QK as int;
    let nn = qclamped_sq(q);
    let cw = qc(q.w as int);
    let cx = qc(q.x as int);
    let cy = qc(q.y as int);
    let cz = qc(q.z as int);
    assert(cw * cw <= nn && cx * cx <= nn && cy * cy <= nn && cz * cz <= nn) by (nonlinear_arith)
        requires
            nn == cw * cw + cx * cx + cy * cy + cz * cz;
    lemma_renorm_comp(cw, m, nn);
    lemma_renorm_comp(cx, m, nn);
    lemma_renorm_comp(cy, m, nn);
    lemma_renorm_comp(cz, m, nn);
    let rw = rquot(cw * qkk, m);
    let rx = rquot(cx * qkk, m);
    let ry = rquot(cy * qkk, m);
    let rz = rquot(cz * qkk, m);
    assert(renorm_w(q) == rw && renorm_x(q) == rx && renorm_y(q) == ry && renorm_z(q) == rz);
    // absolute values, bridged for the nonlinear steps
    let aw = crate::fixed::abs_int(cw);
    let ax = crate::fixed::abs_int(cx);
    let ay = crate::fixed::abs_int(cy);
    let az = crate::fixed::abs_int(cz);
    let sa = aw + ax + ay + az;
    assert(aw * aw == cw * cw) by (nonlinear_arith)
        requires
            aw == cw || aw == -cw;
    assert(ax * ax == cx * cx) by (nonlinear_arith)
        requires
            ax == cx || ax == -cx;
    assert(ay * ay == cy * cy) by (nonlinear_arith)
        requires
            ay == cy || ay == -cy;
    assert(az * az == cz * cz) by (nonlinear_arith)
        requires
            az == cz || az == -cz;
    assert(sa * sa <= 4 * nn) by (nonlinear_arith)
        requires
            nn == cw * cw + cx * cx + cy * cy + cz * cz,
            sa == aw + ax + ay + az,
            aw * aw == cw * cw,
            ax * ax == cx * cx,
            ay * ay == cy * cy,
            az * az == cz * cz,
            aw >= 0,
            ax >= 0,
            ay >= 0,
            az >= 0;
    assert(0x1_0000_0000int * 0x1_0000_0000int == 0x1_0000_0000_0000_0000int) by (nonlinear_arith);
    assert(kk * sa <= 2 * m + 2) by (nonlinear_arith)
        requires
            sa * sa <= 4 * nn,
            is_isqrt(nn * k2, m),
            kk == 0x1_0000_0000int,
            k2 == 0x1_0000_0000_0000_0000int,
            kk * kk == k2,
            sa >= 0,
            m >= 0;
    assert(nn * k2 <= m * m + 2 * m && m * m <= nn * k2) by (nonlinear_arith)
        requires
            is_isqrt(nn * k2, m);
    // expand each component of the squared norm, scaled by (2m)^2
    assert(4 * ((rw * m) * (rw * m)) <= 4 * ((cw * qkk) * (cw * qkk)) + 4 * ((aw * qkk) * m) + m
        * m && 4 * ((rw * m) * (rw * m)) >= 4 * ((cw * qkk) * (cw * qkk)) - 4 * ((aw * qkk) * m))
        by (nonlinear_arith)
        requires
            2 * crate::fixed::abs_int(rw * m - cw * qkk) <= m,
            crate::fixed::abs_int(rw * m - cw * qkk) >= (if rw * m - cw * qkk >= 0 {
                rw * m - cw * qkk
            } else {
                -(rw * m - cw * qkk)
            }),
            aw == cw || aw == -cw,
            aw >= 0,
            m > 0,
            qkk > 0;
    assert(4 * ((rx * m) * (rx * m)) <= 4 * ((cx * qkk) * (cx * qkk)) + 4 * ((ax * qkk) * m) + m
        * m && 4 * ((rx * m) * (rx * m)) >= 4 * ((cx * qkk) * (cx * qkk)) - 4 * ((ax * qkk) * m))
        by (nonlinear_arith)
        requires
            2 * crate::fixed::abs_int(rx * m - cx * qkk) <= m,
            crate::fixed::abs_int(rx * m - cx * qkk) >= (if rx * m - cx * qkk >= 0 {
                rx * m - cx * qkk
            } else {
                -(rx * m - cx * qkk)
            }),
            ax == cx || ax == -cx,
            ax >= 0,
            m > 0,
            qkk > 0;
    assert(4 * ((ry * m) * (ry * m)) <= 4 * ((cy * qkk) * (cy * qkk)) + 4 * ((ay * qkk) * m) + m
        * m && 4 * ((ry * m) * (ry * m)) >= 4 * ((cy * qkk) * (cy * qkk)) - 4 * ((ay * qkk) * m))
        by (nonlinear_arith)
        requires
            2 * crate::fixed::abs_int(ry * m - cy * qkk) <= m,
            crate::fixed::abs_int(ry * m - cy * qkk) >= (if ry * m - cy * qkk >= 0 {
                ry * m - cy * qkk
            } else {
                -(ry * m - cy * qkk)
            }),
            ay == cy || ay == -cy,
            ay >= 0,
            m > 0,
            qkk > 0;
    assert(4 * ((rz * m) * (rz * m)) <= 4 * ((cz * qkk) * (cz * qkk)) + 4 * ((az * qkk) * m) + m
        * m && 4 * ((rz * m) * (rz * m)) >= 4 * ((cz * qkk) * (cz * qkk)) - 4 * ((az * qkk) * m))
        by (nonlinear_arith)
        requires
            2 * crate::fixed::abs_int(rz * m - cz * qkk) <= m,
            crate::fixed::abs_int(rz * m - cz * qkk) >= (if rz * m - cz * qkk >= 0 {
                rz * m - cz * qkk
            } else {
                -(rz * m - cz * qkk)
            }),
            az == cz || az == -cz,
            az >= 0,
            m > 0,
            qkk > 0;
    let ssum = rw * rw + rx * rx + ry * ry + rz * rz;
    assert((rw * m) * (rw * m) == (rw * rw) * (m * m)) by (nonlinear_arith);
    assert((rx * m) * (rx * m) == (rx * rx) * (m * m)) by (nonlinear_arith);
    assert((ry * m) * (ry * m) == (ry * ry) * (m * m)) by (nonlinear_arith);
    assert((rz * m) * (rz * m) == (rz * rz) * (m * m)) by (nonlinear_arith);
    assert(ssum >= 0 && ssum * (m * m) == (rw * rw) * (m * m) + (rx * rx) * (m * m) + (ry * ry) * (
    m * m) + (rz * rz) * (m * m)) by (nonlinear_arith)
        requires
            ssum == rw * rw + rx * rx + ry * ry + rz * rz;
    assert(4 * (ssum * (m * m)) == 4 * ((rw * m) * (rw * m)) + 4 * ((rx * m) * (rx * m)) + 4 * ((ry
        * m) * (ry * m)) + 4 * ((rz * m) * (rz * m)));
    assert((cw * qkk) * (cw * qkk) == (cw * cw) * ((qs * qs) * k2)) by (nonlinear_arith)
        requires
            qkk == qs * kk,
            kk * kk == k2;
    assert((cx * qkk) * (cx * qkk) == (cx * cx) * ((qs * qs) * k2)) by (nonlinear_arith)
        requires
            qkk == qs * kk,
            kk * kk == k2;
    assert((cy * qkk) * (cy * qkk) == (cy * cy) * ((qs * qs) * k2)) by (nonlinear_arith)
        requires
            qkk == qs * kk,
            kk * kk == k2;
    assert((cz * qkk) * (cz * qkk) == (cz * cz) * ((qs * qs) * k2)) by (nonlinear_arith)
        requires
            qkk == qs * kk,
            kk * kk == k2;
    assert((cw * cw) * ((qs * qs) * k2) + (cx * cx) * ((qs * qs) * k2) + (cy * cy) * ((qs * qs)
        * k2) + (cz * cz) * ((qs * qs) * k2) == nn * ((qs * qs) * k2)) by (nonlinear_arith)
        requires
            nn == cw * cw + cx * cx + cy * cy + cz * cz;
    assert(nn * ((qs * qs) * k2) == (qs * qs) * (k2 * nn)) by (nonlinear_arith);
    assert(4 * ((cw * qkk) * (cw * qkk)) + 4 * ((cx * qkk) * (cx * qkk)) + 4 * ((cy * qkk) * (cy
        * qkk)) + 4 * ((cz * qkk) * (cz * qkk)) == 4 * ((qs * qs) * (k2 * nn)));
    assert((aw * qkk) * m == aw * (qkk * m)) by (nonlinear_arith);
    assert((ax * qkk) * m == ax * (qkk * m)) by (nonlinear_arith);
    assert((ay * qkk) * m == ay * (qkk * m)) by (nonlinear_arith);
    assert((az * qkk) * m == az * (qkk * m)) by (nonlinear_arith);
    assert(aw * (qkk * m) + ax * (qkk * m) + ay * (qkk * m) + az * (qkk * m) == sa * (qkk * m))
        by (nonlinear_arith)
        requires
            sa == aw + ax + ay + az;
    assert(sa * (qkk * m) == (qs * (kk * sa)) * m) by (nonlinear_arith)
        requires
            qkk == qs * kk;
    assert((aw * qkk) * m + (ax * qkk) * m + (ay * qkk) * m + (az * qkk) * m == (qs * (kk * sa))
        * m);
    assert(4 * (ssum * (m * m)) <= 4 * ((qs * qs) * (k2 * nn)) + 4 * ((qs * (kk * sa)) * m) + 4 * (
    m * m));
    assert(4 * (ssum * (m * m)) >= 4 * ((qs * qs) * (k2 * nn)) - 4 * ((qs * (kk * sa)) * m));
    // close the band: substitute the norm bracketing and the abs-sum bound
    assert(ssum <= (qs + 8) * (qs + 8)) by (nonlinear_arith)
        requires
            4 * (ssum * (m * m)) <= 4 * ((qs * qs) * (k2 * nn)) + 4 * ((qs * (kk * sa)) * m) + 4
                * (m * m),
            k2 * nn == nn * k2,
            nn * k2 <= m * m + 2 * m,
            kk * sa <= 2 * m + 2,
            m >= kk,
            kk == 0x1_0000_0000int,
            qs == 1_000_000_000,
            ssum >= 0;
    assert(ssum >= (qs - 8) * (qs - 8)) by (nonlinear_arith)
        requires
            4 * (ssum * (m * m)) >= 4 * ((qs * qs) * (k2 * nn)) - 4 * ((qs * (kk * sa)) * m),
            k2 * nn == nn * k2,
            m * m <= nn * k2,
            kk * sa <= 2 * m + 2,
            m >= kk,
            kk == 0x1_0000_0000int,
            qs == 1_000_000_000;
}

} // verus!
