//! Vectors and matrices over fixed-point scalars.
//!
//! Matrix-vector products use the saturating fixed-point algebra of
//! [`crate::fixed`]. The 3x3 normal-matrix computation is exact where it
//! matters: singularity is decided by an exact integer determinant of the
//! raw entries, and each inverse entry is a truncated, saturated ratio of an
//! exact cofactor against that determinant.

use vstd::prelude::*;
use crate::fixed::{
    FX_MAX, FX_ONE, cap_mag, fx_add, fx_clamp, fx_mul, iabs, spec_fx_add64, spec_fx_clamp64,
    spec_fx_mul64,
};

verus! {

#[derive(Clone, Copy, Debug, PartialEq, Eq, Structural)]
pub struct Vec2 {
    pub x: i64,
    pub y: i64,
}

#[derive(Clone, Copy, Debug, PartialEq, Eq, Structural)]
pub struct Vec3 {
    pub x: i64,
    pub y: i64,
    pub z: i64,
}

#[derive(Clone, Copy, Debug, PartialEq, Eq, Structural)]
pub struct Vec4 {
    pub x: i64,
    pub y: i64,
    pub z: i64,
    pub w: i64,
}

/// A 3x3 matrix; `mRC` is the entry in row `R`, column `C`.
#[derive(Clone, Copy, Debug, PartialEq, Eq, Structural)]
pub struct Mat3 {
    pub m11: i64,
    pub m12: i64,
    pub m13: i64,
    pub m21: i64,
    pub m22: i64,
    pub m23: i64,
    pub m31: i64,
    pub m32: i64,
    pub m33: i64,
}

/// A 4x4 matrix; `mRC` is the entry in row `R`, column `C`.
#[derive(Clone, Copy, Debug, PartialEq, Eq, Structural)]
pub struct Mat4 {
    pub m11: i64,
    pub m12: i64,
    pub m13: i64,
    pub m14: i64,
    pub m21: i64,
    pub m22: i64,
    pub m23: i64,
    pub m24: i64,
    pub m31: i64,
    pub m32: i64,
    pub m33: i64,
    pub m34: i64,
    pub m41: i64,
    pub m42: i64,
    pub m43: i64,
    pub m44: i64,
}

pub open spec fn spec_mat3_identity() -> Mat3 {
    Mat3 {
        m11: FX_ONE,
        m12: 0,
        m13: 0,
        m21: 0,
        m22: FX_ONE,
        m23: 0,
        m31: 0,
        m32: 0,
        m33: FX_ONE,
    }
}

/// One row of a matrix-vector product: the saturating fixed-point dot
/// product of the row with the vector.
pub open spec fn spec_row4(a: i64, b: i64, c: i64, d: i64, v: Vec4) -> i64 {
    spec_fx_add64(
        spec_fx_add64(spec_fx_mul64(a, v.x), spec_fx_mul64(b, v.y)),
        spec_fx_add64(spec_fx_mul64(c, v.z), spec_fx_mul64(d, v.w)),
    )
}

pub open spec fn spec_mat4_mul_vec4(m: Mat4, v: Vec4) -> Vec4 {
    Vec4 {
        x: spec_row4(m.m11, m.m12, m.m13, m.m14, v),
        y: spec_row4(m.m21, m.m22, m.m23, m.m24, v),
        z: spec_row4(m.m31, m.m32, m.m33, m.m34, v),
        w: spec_row4(m.m41, m.m42, m.m43, m.m44, v),
    }
}

pub open spec fn spec_row3(a: i64, b: i64, c: i64, v: Vec3) -> i64 {
    spec_fx_add64(spec_fx_add64(spec_fx_mul64(a, v.x), spec_fx_mul64(b, v.y)), spec_fx_mul64(c, v.z))
}

pub open spec fn spec_mat3_mul_vec3(m: Mat3, v: Vec3) -> Vec3 {
    Vec3 {
        x: spec_row3(m.m11, m.m12, m.m13, v),
        y: spec_row3(m.m21, m.m22, m.m23, v),
        z: spec_row3(m.m31, m.m32, m.m33, v),
    }
}

/// The upper-left 3x3 block of a 4x4 matrix, transposed, each entry clamped
/// into the fixed-point range.
pub open spec fn spec_upper3_t(m: Mat4) -> Mat3 {
    Mat3 {
        m11: spec_fx_clamp64(m.m11),
        m12: spec_fx_clamp64(m.m21),
        m13: spec_fx_clamp64(m.m31),
        m21: spec_fx_clamp64(m.m12),
        m22: spec_fx_clamp64(m.m22),
        m23: spec_fx_clamp64(m.m32),
        m31: spec_fx_clamp64(m.m13),
        m32: spec_fx_clamp64(m.m23),
        m33: spec_fx_clamp64(m.m33),
    }
}

/// The exact integer determinant of the raw entries of a 3x3 matrix. It is
/// zero exactly when the matrix of real entries `mRC / 1000` is singular.
pub open spec fn spec_det3_raw(t: Mat3) -> int {
    t.m11 * (t.m22 * t.m33 - t.m23 * t.m32) - t.m12 * (t.m21 * t.m33 - t.m23 * t.m31) + t.m13 * (
    t.m21 * t.m32 - t.m22 * t.m31)
}

/// A truncated, saturated signed ratio: `n / d` rounded toward zero, with
/// the magnitude capped at `FX_MAX`.
pub open spec fn spec_ratio(n: int, d: int) -> int
    recommends
        d != 0,
{
    let m: int = cap_mag(iabs(n) / iabs(d));
    if (n < 0) != (d < 0) {
        -m
    } else {
        m
    }
}

/// The fixed-point inverse of a 3x3 matrix with nonzero raw determinant:
/// each entry is the matching cofactor, rescaled to thousandths, divided by
/// the determinant with truncation and saturation.
pub open spec fn spec_inv3(t: Mat3) -> Mat3 {
    let d: int = spec_det3_raw(t);
    Mat3 {
        m11: spec_ratio((t.m22 * t.m33 - t.m23 * t.m32) * 1000000, d) as i64,
        m12: spec_ratio((t.m13 * t.m32 - t.m12 * t.m33) * 1000000, d) as i64,
        m13: spec_ratio((t.m12 * t.m23 - t.m13 * t.m22) * 1000000, d) as i64,
        m21: spec_ratio((t.m23 * t.m31 - t.m21 * t.m33) * 1000000, d) as i64,
        m22: spec_ratio((t.m11 * t.m33 - t.m13 * t.m31) * 1000000, d) as i64,
        m23: spec_ratio((t.m13 * t.m21 - t.m11 * t.m23) * 1000000, d) as i64,
        m31: spec_ratio((t.m21 * t.m32 - t.m22 * t.m31) * 1000000, d) as i64,
        m32: spec_ratio((t.m12 * t.m31 - t.m11 * t.m32) * 1000000, d) as i64,
        m33: spec_ratio((t.m11 * t.m22 - t.m12 * t.m21) * 1000000, d) as i64,
    }
}

/// The normal matrix of a model matrix: the inverse of the transposed
/// upper-left 3x3 block, or the identity where that block is singular.
pub open spec fn spec_normal_matrix(m: Mat4) -> Mat3 {
    let t = spec_upper3_t(m);
    if spec_det3_raw(t) == 0 {
        spec_mat3_identity()
    } else {
        spec_inv3(t)
    }
}

/// Matrix-vector product in homogeneous coordinates.
pub fn mat4_mul_vec4(m: &Mat4, v: &Vec4) -> (out: Vec4)
    ensures
        out == spec_mat4_mul_vec4(*m, *v),
{
    Vec4 {
        x: fx_add(fx_add(fx_mul(m.m11, v.x), fx_mul(m.m12, v.y)), fx_add(fx_mul(m.m13, v.z), fx_mul(m.m14, v.w))),
        y: fx_add(fx_add(fx_mul(m.m21, v.x), fx_mul(m.m22, v.y)), fx_add(fx_mul(m.m23, v.z), fx_mul(m.m24, v.w))),
        z: fx_add(fx_add(fx_mul(m.m31, v.x), fx_mul(m.m32, v.y)), fx_add(fx_mul(m.m33, v.z), fx_mul(m.m34, v.w))),
        w: fx_add(fx_add(fx_mul(m.m41, v.x), fx_mul(m.m42, v.y)), fx_add(fx_mul(m.m43, v.z), fx_mul(m.m44, v.w))),
    }
}

/// 3x3 matrix-vector product.
pub fn mat3_mul_vec3(m: &Mat3, v: &Vec3) -> (out: Vec3)
    ensures
        out == spec_mat3_mul_vec3(*m, *v),
{
    Vec3 {
        x: fx_add(fx_add(fx_mul(m.m11, v.x), fx_mul(m.m12, v.y)), fx_mul(m.m13, v.z)),
        y: fx_add(fx_add(fx_mul(m.m21, v.x), fx_mul(m.m22, v.y)), fx_mul(m.m23, v.z)),
        z: fx_add(fx_add(fx_mul(m.m31, v.x), fx_mul(m.m32, v.y)), fx_mul(m.m33, v.z)),
    }
}

/// A 2x2 minor `a * b - c * d` of clamped entries, computed exactly.
fn minor2(a: i64, b: i64, c: i64, d: i64) -> (r: i128)
    requires
        -FX_MAX <= a <= FX_MAX,
        -FX_MAX <= b <= FX_MAX,
        -FX_MAX <= c <= FX_MAX,
        -FX_MAX <= d <= FX_MAX,
    ensures
        r as int == a * b - c * d,
        -2000000000000000000000000 <= r <= 2000000000000000000000000,
{
    proof {
        assert(iabs((a as int) * (b as int)) <= 1000000000000000000000000) by (nonlinear_arith)
            requires
                -1000000000000 <= a as int <= 1000000000000,
                -1000000000000 <= b as int <= 1000000000000,
        ;
        assert(iabs((c as int) * (d as int)) <= 1000000000000000000000000) by (nonlinear_arith)
            requires
                -1000000000000 <= c as int <= 1000000000000,
                -1000000000000 <= d as int <= 1000000000000,
        ;
    }
    (a as i128) * (b as i128) - (c as i128) * (d as i128)
}

/// Exact signed ratio, truncated toward zero, magnitude capped at `FX_MAX`.
fn ratio_fx(n: i128, d: i128) -> (r: i64)
    requires
        d != 0,
        -3000000000000000000000000000000 <= n <= 3000000000000000000000000000000,
        -7000000000000000000000000000000000000 <= d <= 7000000000000000000000000000000000000,
    ensures
        r as int == spec_ratio(n as int, d as int),
{
    let nm: u128 = if n >= 0 {
        n as u128
    } else {
        (-n) as u128
    };
    let dm: u128 = if d >= 0 {
        d as u128
    } else {
        (-d) as u128
    };
    let q: u128 = nm / dm;
    let c: u128 = if q > FX_MAX as u128 {
        FX_MAX as u128
    } else {
        q
    };
    if (n < 0) != (d < 0) {
        -(c as i64)
    } else {
        c as i64
    }
}

/// The normal matrix of a model matrix: invert the transposed upper-left
/// 3x3 block; where its exact determinant is zero, substitute the identity
/// rather than failing.
pub fn normal_matrix(m: &Mat4) -> (n: Mat3)
    ensures
        n == spec_normal_matrix(*m),
{
    let t11: i64 = fx_clamp(m.m11);
    let t12: i64 = fx_clamp(m.m21);
    let t13: i64 = fx_clamp(m.m31);
    let t21: i64 = fx_clamp(m.m12);
    let t22: i64 = fx_clamp(m.m22);
    let t23: i64 = fx_clamp(m.m32);
    let t31: i64 = fx_clamp(m.m13);
    let t32: i64 = fx_clamp(m.m23);
    let t33: i64 = fx_clamp(m.m33);
    let c11: i128 = minor2(t22, t33, t23, t32);
    let c12: i128 = minor2(t13, t32, t12, t33);
    let c13: i128 = minor2(t12, t23, t13, t22);
    let c21: i128 = minor2(t23, t31, t21, t33);
    let c22: i128 = minor2(t11, t33, t13, t31);
    let c23: i128 = minor2(t13, t21, t11, t23);
    let c31: i128 = minor2(t21, t32, t22, t31);
    let c32: i128 = minor2(t12, t31, t11, t32);
    let c33: i128 = minor2(t11, t22, t12, t21);
    let ma: i128 = minor2(t22, t33, t23, t32);
    let mb: i128 = minor2(t21, t33, t23, t31);
    let mc: i128 = minor2(t21, t32, t22, t31);
    proof {
        assert(iabs((t11 as int) * (ma as int)) <= 2000000000000000000000000000000000000int)
            by (nonlinear_arith)
            requires
                -1000000000000 <= t11 as int <= 1000000000000,
                -2000000000000000000000000 <= ma as int <= 2000000000000000000000000,
        ;
        assert(iabs((t12 as int) * (mb as int)) <= 2000000000000000000000000000000000000int)
            by (nonlinear_arith)
            requires
                -1000000000000 <= t12 as int <= 1000000000000,
                -2000000000000000000000000 <= mb as int <= 2000000000000000000000000,
        ;
        assert(iabs((t13 as int) * (mc as int)) <= 2000000000000000000000000000000000000int)
            by (nonlinear_arith)
            requires
                -1000000000000 <= t13 as int <= 1000000000000,
                -2000000000000000000000000 <= mc as int <= 2000000000000000000000000,
        ;
    }
    let det: i128 = (t11 as i128) * ma - (t12 as i128) * mb + (t13 as i128) * mc;
    if det == 0 {
        Mat3 {
            m11: FX_ONE,
            m12: 0,
            m13: 0,
            m21: 0,
            m22: FX_ONE,
            m23: 0,
            m31: 0,
            m32: 0,
            m33: FX_ONE,
        }
    } else {
        Mat3 {
            m11: ratio_fx(c11 * 1000000, det),
            m12: ratio_fx(c12 * 1000000, det),
            m13: ratio_fx(c13 * 1000000, det),
            m21: ratio_fx(c21 * 1000000, det),
            m22: ratio_fx(c22 * 1000000, det),
            m23: ratio_fx(c23 * 1000000, det),
            m31: ratio_fx(c31 * 1000000, det),
            m32: ratio_fx(c32 * 1000000, det),
            m33: ratio_fx(c33 * 1000000, det),
        }
    }
}

} // verus!
