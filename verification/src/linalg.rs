//! Fixed-size vectors and matrices over Q32 fixed-point scalars.
//!
//! `V3` is a 3-vector and `M3` a row-major 3x3 matrix. The operations are
//! the usual ones (sum, difference, scaling, dot and cross product, matrix
//! product, transpose), each specified exactly against a spec-level mirror
//! over the saturating fixed-point arithmetic of [`crate::fixed`].

use vstd::prelude::*;
use crate::fixed::{fx_add, fx_add_s, fx_sub, fx_sub_s, fx_neg, fx_neg_s, fx_mul, fx_mul_s, fx_div,
    fx_div_s, fx_sqrt, fx_sqrt_s, FX_ONE};

verus! {

/// A 3-vector of Q32 fixed-point scalars.
#[derive(Clone, Copy, Debug, PartialEq, Eq, Structural)]
pub struct V3 {
    pub x: i64,
    pub y: i64,
    pub z: i64,
}

/// A 3x3 matrix of Q32 fixed-point scalars, row major.
#[derive(Clone, Copy, Debug, PartialEq, Eq, Structural)]
pub struct M3 {
    pub m00: i64,
    pub m01: i64,
    pub m02: i64,
    pub m10: i64,
    pub m11: i64,
    pub m12: i64,
    pub m20: i64,
    pub m21: i64,
    pub m22: i64,
}

/// The identity matrix.
pub open spec fn m3_identity_s() -> M3 {
    M3 {
        m00: FX_ONE,
        m01: 0,
        m02: 0,
        m10: 0,
        m11: FX_ONE,
        m12: 0,
        m20: 0,
        m21: 0,
        m22: FX_ONE,
    }
}

pub fn m3_identity() -> (r: M3)
    ensures
        r == m3_identity_s(),
{
    M3 { m00: FX_ONE, m01: 0, m02: 0, m10: 0, m11: FX_ONE, m12: 0, m20: 0, m21: 0, m22: FX_ONE }
}

pub open spec fn v3_add_s(a: V3, b: V3) -> V3 {
    V3 {
        x: fx_add_s(a.x as int, b.x as int) as i64,
        y: fx_add_s(a.y as int, b.y as int) as i64,
        z: fx_add_s(a.z as int, b.z as int) as i64,
    }
}

pub fn v3_add(a: V3, b: V3) -> (r: V3)
    ensures
        r == v3_add_s(a, b),
{
    V3 { x: fx_add(a.x, b.x), y: fx_add(a.y, b.y), z: fx_add(a.z, b.z) }
}

pub open spec fn v3_sub_s(a: V3, b: V3) -> V3 {
    V3 {
        x: fx_sub_s(a.x as int, b.x as int) as i64,
        y: fx_sub_s(a.y as int, b.y as int) as i64,
        z: fx_sub_s(a.z as int, b.z as int) as i64,
    }
}

pub fn v3_sub(a: V3, b: V3) -> (r: V3)
    ensures
        r == v3_sub_s(a, b),
{
    V3 { x: fx_sub(a.x, b.x), y: fx_sub(a.y, b.y), z: fx_sub(a.z, b.z) }
}

/// Dot product.
pub open spec fn v3_dot_s(a: V3, b: V3) -> int {
    fx_add_s(
        fx_add_s(fx_mul_s(a.x as int, b.x as int), fx_mul_s(a.y as int, b.y as int)),
        fx_mul_s(a.z as int, b.z as int),
    )
}

pub fn v3_dot(a: V3, b: V3) -> (r: i64)
    ensures
        r as int == v3_dot_s(a, b),
{
    fx_add(fx_add(fx_mul(a.x, b.x), fx_mul(a.y, b.y)), fx_mul(a.z, b.z))
}

/// Cross product.
pub open spec fn v3_cross_s(a: V3, b: V3) -> V3 {
    V3 {
        x: fx_sub_s(fx_mul_s(a.y as int, b.z as int), fx_mul_s(a.z as int, b.y as int)) as i64,
        y: fx_sub_s(fx_mul_s(a.z as int, b.x as int), fx_mul_s(a.x as int, b.z as int)) as i64,
        z: fx_sub_s(fx_mul_s(a.x as int, b.y as int), fx_mul_s(a.y as int, b.x as int)) as i64,
    }
}

pub fn v3_cross(a: V3, b: V3) -> (r: V3)
    ensures
        r == v3_cross_s(a, b),
{
    V3 {
        x: fx_sub(fx_mul(a.y, b.z), fx_mul(a.z, b.y)),
        y: fx_sub(fx_mul(a.z, b.x), fx_mul(a.x, b.z)),
        z: fx_sub(fx_mul(a.x, b.y), fx_mul(a.y, b.x)),
    }
}

/// Euclidean norm, through the fixed-point square root of the dot product.
pub open spec fn v3_norm_s(a: V3) -> int {
    fx_sqrt_s(v3_dot_s(a, a))
}

pub fn v3_norm(a: V3) -> (r: i64)
    ensures
        r as int == v3_norm_s(a),
        r >= 0,
{
    let d = v3_dot(a, a);
    proof {
        lemma_v3_dot_self_nonneg(a);
    }
    fx_sqrt(d)
}

/// The dot product of a vector with itself is nonnegative.
pub proof fn lemma_v3_dot_self_nonneg(a: V3)
    ensures
        v3_dot_s(a, a) >= 0,
{
    assert((a.x as int) * (a.x as int) >= 0 && (a.y as int) * (a.y as int) >= 0 && (a.z as int)
        * (a.z as int) >= 0) by (nonlinear_arith);
    vstd::arithmetic::div_mod::lemma_div_pos_is_pos((a.x as int) * (a.x as int), FX_ONE as int);
    vstd::arithmetic::div_mod::lemma_div_pos_is_pos((a.y as int) * (a.y as int), FX_ONE as int);
    vstd::arithmetic::div_mod::lemma_div_pos_is_pos((a.z as int) * (a.z as int), FX_ONE as int);
}

/// Divide every component by a scalar.
pub open spec fn v3_div_scalar_s(a: V3, s: int) -> V3 {
    V3 {
        x: fx_div_s(a.x as int, s) as i64,
        y: fx_div_s(a.y as int, s) as i64,
        z: fx_div_s(a.z as int, s) as i64,
    }
}

pub fn v3_div_scalar(a: V3, s: i64) -> (r: V3)
    requires
        s != 0,
    ensures
        r == v3_div_scalar_s(a, s as int),
{
    V3 { x: fx_div(a.x, s), y: fx_div(a.y, s), z: fx_div(a.z, s) }
}

/// Matrix times vector.
pub open spec fn m3_mul_v3_s(m: M3, v: V3) -> V3 {
    V3 {
        x: fx_add_s(
            fx_add_s(fx_mul_s(m.m00 as int, v.x as int), fx_mul_s(m.m01 as int, v.y as int)),
            fx_mul_s(m.m02 as int, v.z as int),
        ) as i64,
        y: fx_add_s(
            fx_add_s(fx_mul_s(m.m10 as int, v.x as int), fx_mul_s(m.m11 as int, v.y as int)),
            fx_mul_s(m.m12 as int, v.z as int),
        ) as i64,
        z: fx_add_s(
            fx_add_s(fx_mul_s(m.m20 as int, v.x as int), fx_mul_s(m.m21 as int, v.y as int)),
            fx_mul_s(m.m22 as int, v.z as int),
        ) as i64,
    }
}

pub fn m3_mul_v3(m: M3, v: V3) -> (r: V3)
    ensures
        r == m3_mul_v3_s(m, v),
{
    V3 {
        x: fx_add(fx_add(fx_mul(m.m00, v.x), fx_mul(m.m01, v.y)), fx_mul(m.m02, v.z)),
        y: fx_add(fx_add(fx_mul(m.m10, v.x), fx_mul(m.m11, v.y)), fx_mul(m.m12, v.z)),
        z: fx_add(fx_add(fx_mul(m.m20, v.x), fx_mul(m.m21, v.y)), fx_mul(m.m22, v.z)),
    }
}

/// One entry of a matrix product: the dot product of row `(a0 a1 a2)` with
/// column `(b0 b1 b2)`.
pub open spec fn m3_entry_s(a0: int, a1: int, a2: int, b0: int, b1: int, b2: int) -> int {
    fx_add_s(fx_add_s(fx_mul_s(a0, b0), fx_mul_s(a1, b1)), fx_mul_s(a2, b2))
}

fn m3_entry(a0: i64, a1: i64, a2: i64, b0: i64, b1: i64, b2: i64) -> (r: i64)
    ensures
        r as int == m3_entry_s(a0 as int, a1 as int, a2 as int, b0 as int, b1 as int, b2 as int),
{
    fx_add(fx_add(fx_mul(a0, b0), fx_mul(a1, b1)), fx_mul(a2, b2))
}

/// Matrix product.
pub open spec fn m3_mul_s(a: M3, b: M3) -> M3 {
    M3 {
        m00: m3_entry_s(a.m00 as int, a.m01 as int, a.m02 as int, b.m00 as int, b.m10 as int, b.m20 as int) as i64,
        m01: m3_entry_s(a.m00 as int, a.m01 as int, a.m02 as int, b.m01 as int, b.m11 as int, b.m21 as int) as i64,
        m02: m3_entry_s(a.m00 as int, a.m01 as int, a.m02 as int, b.m02 as int, b.m12 as int, b.m22 as int) as i64,
        m10: m3_entry_s(a.m10 as int, a.m11 as int, a.m12 as int, b.m00 as int, b.m10 as int, b.m20 as int) as i64,
        m11: m3_entry_s(a.m10 as int, a.m11 as int, a.m12 as int, b.m01 as int, b.m11 as int, b.m21 as int) as i64,
        m12: m3_entry_s(a.m10 as int, a.m11 as int, a.m12 as int, b.m02 as int, b.m12 as int, b.m22 as int) as i64,
        m20: m3_entry_s(a.m20 as int, a.m21 as int, a.m22 as int, b.m00 as int, b.m10 as int, b.m20 as int) as i64,
        m21: m3_entry_s(a.m20 as int, a.m21 as int, a.m22 as int, b.m01 as int, b.m11 as int, b.m21 as int) as i64,
        m22: m3_entry_s(a.m20 as int, a.m21 as int, a.m22 as int, b.m02 as int, b.m12 as int, b.m22 as int) as i64,
    }
}

pub fn m3_mul(a: M3, b: M3) -> (r: M3)
    ensures
        r == m3_mul_s(a, b),
{
    M3 {
        m00: m3_entry(a.m00, a.m01, a.m02, b.m00, b.m10, b.m20),
        m01: m3_entry(a.m00, a.m01, a.m02, b.m01, b.m11, b.m21),
        m02: m3_entry(a.m00, a.m01, a.m02, b.m02, b.m12, b.m22),
        m10: m3_entry(a.m10, a.m11, a.m12, b.m00, b.m10, b.m20),
        m11: m3_entry(a.m10, a.m11, a.m12, b.m01, b.m11, b.m21),
        m12: m3_entry(a.m10, a.m11, a.m12, b.m02, b.m12, b.m22),
        m20: m3_entry(a.m20, a.m21, a.m22, b.m00, b.m10, b.m20),
        m21: m3_entry(a.m20, a.m21, a.m22, b.m01, b.m11, b.m21),
        m22: m3_entry(a.m20, a.m21, a.m22, b.m02, b.m12, b.m22),
    }
}

/// Transpose.
pub open spec fn m3_transpose_s(a: M3) -> M3 {
    M3 {
        m00: a.m00,
        m01: a.m10,
        m02: a.m20,
        m10: a.m01,
        m11: a.m11,
        m12: a.m21,
        m20: a.m02,
        m21: a.m12,
        m22: a.m22,
    }
}

pub fn m3_transpose(a: M3) -> (r: M3)
    ensures
        r == m3_transpose_s(a),
{
    M3 {
        m00: a.m00,
        m01: a.m10,
        m02: a.m20,
        m10: a.m01,
        m11: a.m11,
        m12: a.m21,
        m20: a.m02,
        m21: a.m12,
        m22: a.m22,
    }
}

/// Entrywise matrix sum.
pub open spec fn m3_add_s(a: M3, b: M3) -> M3 {
    M3 {
        m00: fx_add_s(a.m00 as int, b.m00 as int) as i64,
        m01: fx_add_s(a.m01 as int, b.m01 as int) as i64,
        m02: fx_add_s(a.m02 as int, b.m02 as int) as i64,
        m10: fx_add_s(a.m10 as int, b.m10 as int) as i64,
        m11: fx_add_s(a.m11 as int, b.m11 as int) as i64,
        m12: fx_add_s(a.m12 as int, b.m12 as int) as i64,
        m20: fx_add_s(a.m20 as int, b.m20 as int) as i64,
        m21: fx_add_s(a.m21 as int, b.m21 as int) as i64,
        m22: fx_add_s(a.m22 as int, b.m22 as int) as i64,
    }
}

pub fn m3_add(a: M3, b: M3) -> (r: M3)
    ensures
        r == m3_add_s(a, b),
{
    M3 {
        m00: fx_add(a.m00, b.m00),
        m01: fx_add(a.m01, b.m01),
        m02: fx_add(a.m02, b.m02),
        m10: fx_add(a.m10, b.m10),
        m11: fx_add(a.m11, b.m11),
        m12: fx_add(a.m12, b.m12),
        m20: fx_add(a.m20, b.m20),
        m21: fx_add(a.m21, b.m21),
        m22: fx_add(a.m22, b.m22),
    }
}

/// Multiply every entry by a scalar.
pub open spec fn m3_scale_s(a: M3, s: int) -> M3 {
    M3 {
        m00: fx_mul_s(a.m00 as int, s) as i64,
        m01: fx_mul_s(a.m01 as int, s) as i64,
        m02: fx_mul_s(a.m02 as int, s) as i64,
        m10: fx_mul_s(a.m10 as int, s) as i64,
        m11: fx_mul_s(a.m11 as int, s) as i64,
        m12: fx_mul_s(a.m12 as int, s) as i64,
        m20: fx_mul_s(a.m20 as int, s) as i64,
        m21: fx_mul_s(a.m21 as int, s) as i64,
        m22: fx_mul_s(a.m22 as int, s) as i64,
    }
}

pub fn m3_scale(a: M3, s: i64) -> (r: M3)
    ensures
        r == m3_scale_s(a, s as int),
{
    M3 {
        m00: fx_mul(a.m00, s),
        m01: fx_mul(a.m01, s),
        m02: fx_mul(a.m02, s),
        m10: fx_mul(a.m10, s),
        m11: fx_mul(a.m11, s),
        m12: fx_mul(a.m12, s),
        m20: fx_mul(a.m20, s),
        m21: fx_mul(a.m21, s),
        m22: fx_mul(a.m22, s),
    }
}

/// The skew-symmetric cross-product matrix of a vector.
pub open spec fn m3_skew_s(v: V3) -> M3 {
    M3 {
        m00: 0,
        m01: fx_neg_s(v.z as int) as i64,
        m02: v.y,
        m10: v.z,
        m11: 0,
        m12: fx_neg_s(v.x as int) as i64,
        m20: fx_neg_s(v.y as int) as i64,
        m21: v.x,
        m22: 0,
    }
}

pub fn m3_skew(v: V3) -> (r: M3)
    ensures
        r == m3_skew_s(v),
{
    M3 {
        m00: 0,
        m01: fx_neg(v.z),
        m02: v.y,
        m10: v.z,
        m11: 0,
        m12: fx_neg(v.x),
        m20: fx_neg(v.y),
        m21: v.x,
        m22: 0,
    }
}

} // verus!
