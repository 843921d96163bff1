//! Rotation algebra: Euler-angle conversions and vector alignment.
//!
//! `rotation_from_euler_xyz` composes `Rz(z) * Ry(y) * Rx(x)`;
//! `euler_from_rotation_xyz` decomposes a rotation as `Rx(x) * Ry(y) * Rz(z)`
//! and pins the redundant angle to zero at the gimbal-lock singularity;
//! `align_vectors` builds the minimal rotation taking one direction onto
//! another through Rodrigues' formula, with a guarded 180-degree branch for
//! near-antiparallel inputs. A zero-length input is a degenerate
//! configuration and is reported as an error instead of being divided by.

use vstd::prelude::*;
use crate::fixed::{FX_ONE, abs_s, sat_s, tdiv_s, fx_add, fx_add_s, fx_sub, fx_sub_s, fx_neg, fx_neg_s, fx_abs, fx_abs_s, fx_mul,
    fx_mul_s, fx_div, fx_div_s};
use crate::trig::{FX_HALF_PI, fx_sin, fx_sin_s, fx_cos, fx_cos_s, fx_atan2, fx_atan2_s, fx_asin,
    fx_asin_s};
use crate::linalg::{M3, V3, m3_identity, m3_identity_s, m3_add, m3_add_s, m3_mul, m3_mul_s,
    m3_mul_v3_s,
    m3_scale, m3_scale_s, m3_skew, m3_skew_s, v3_cross, v3_cross_s, v3_div_scalar, v3_div_scalar_s,
    v3_dot, v3_dot_s, v3_norm, v3_norm_s};

verus! {

/// Twice the fixed-point one, for the 180-degree rotation
/// `I + 2 * K * K`.
pub const FX_TWO: i64 = 8589934592;

/// Sine threshold below which the Euler extraction is away from gimbal lock
/// (0.99999 in Q32).
pub const GIMBAL_SIN: i64 = 4294924346;

/// Dot-product threshold above which two unit vectors count as parallel
/// (0.99999 in Q32).
pub const PARALLEL_DOT: i64 = 4294924346;

/// Norm threshold below which a candidate flip axis counts as degenerate
/// (0.001 in Q32).
pub const PERP_EPS: i64 = 4294967;

/// An error of the solver.
#[derive(Clone, Copy, Debug, PartialEq, Eq, Structural)]
pub enum KinError {
    /// A direction that should be normalized has zero length: the commanded
    /// geometry is unreachable.
    UnreachableConfiguration,
}

/// The rotation `Rz(z) * Ry(y) * Rx(x)` built from three Euler angles.
pub open spec fn rotation_from_euler_xyz_s(x: int, y: int, z: int) -> M3 {
    let cx = fx_cos_s(x);
    let sx = fx_sin_s(x);
    let cy = fx_cos_s(y);
    let sy = fx_sin_s(y);
    let cz = fx_cos_s(z);
    let sz = fx_sin_s(z);
    M3 {
        m00: fx_mul_s(cy, cz) as i64,
        m01: fx_sub_s(fx_mul_s(fx_mul_s(cz, sx), sy), fx_mul_s(cx, sz)) as i64,
        m02: fx_add_s(fx_mul_s(fx_mul_s(cx, cz), sy), fx_mul_s(sx, sz)) as i64,
        m10: fx_mul_s(cy, sz) as i64,
        m11: fx_add_s(fx_mul_s(cx, cz), fx_mul_s(fx_mul_s(sx, sy), sz)) as i64,
        m12: fx_sub_s(fx_mul_s(fx_mul_s(cx, sy), sz), fx_mul_s(cz, sx)) as i64,
        m20: fx_neg_s(sy) as i64,
        m21: fx_mul_s(cy, sx) as i64,
        m22: fx_mul_s(cx, cy) as i64,
    }
}

/// Build the rotation matrix of three Euler angles, composed as
/// `Rz(z) * Ry(y) * Rx(x)`.
pub fn rotation_from_euler_xyz(x: i64, y: i64, z: i64) -> (r: M3)
    ensures
        r == rotation_from_euler_xyz_s(x as int, y as int, z as int),
{
    let cx = fx_cos(x);
    let sx = fx_sin(x);
    let cy = fx_cos(y);
    let sy = fx_sin(y);
    let cz = fx_cos(z);
    let sz = fx_sin(z);
    M3 {
        m00: fx_mul(cy, cz),
        m01: fx_sub(fx_mul(fx_mul(cz, sx), sy), fx_mul(cx, sz)),
        m02: fx_add(fx_mul(fx_mul(cx, cz), sy), fx_mul(sx, sz)),
        m10: fx_mul(cy, sz),
        m11: fx_add(fx_mul(cx, cz), fx_mul(fx_mul(sx, sy), sz)),
        m12: fx_sub(fx_mul(fx_mul(cx, sy), sz), fx_mul(cz, sx)),
        m20: fx_neg(sy),
        m21: fx_mul(cy, sx),
        m22: fx_mul(cx, cy),
    }
}

/// Euler angles of a rotation, decomposed as `Rx(x) * Ry(y) * Rz(z)`; at
/// gimbal lock (`|m02|` at least 0.99999) the redundant third angle is pinned
/// to zero by convention.
pub open spec fn euler_from_rotation_xyz_s(m: M3) -> V3 {
    let sy = m.m02 as int;
    if fx_abs_s(sy) < GIMBAL_SIN {
        V3 {
            x: fx_atan2_s(fx_neg_s(m.m12 as int), m.m22 as int) as i64,
            y: fx_asin_s(sy) as i64,
            z: fx_atan2_s(fx_neg_s(m.m01 as int), m.m00 as int) as i64,
        }
    } else {
        V3 {
            x: fx_atan2_s(m.m21 as int, m.m11 as int) as i64,
            y: if sy > 0 {
                FX_HALF_PI
            } else {
                -(FX_HALF_PI as int) as i64
            },
            z: 0,
        }
    }
}

/// Extract Euler angles (x, y, z) from a rotation matrix.
pub fn euler_from_rotation_xyz(m: &M3) -> (r: V3)
    ensures
        r == euler_from_rotation_xyz_s(*m),
{
    let sy = m.m02;
    if fx_abs(sy) < GIMBAL_SIN {
        V3 {
            x: fx_atan2(fx_neg(m.m12), m.m22),
            y: fx_asin(sy),
            z: fx_atan2(fx_neg(m.m01), m.m00),
        }
    } else {
        V3 { x: fx_atan2(m.m21, m.m11), y: if sy > 0 {
            FX_HALF_PI
        } else {
            -FX_HALF_PI
        }, z: 0 }
    }
}

/// The minimal rotation taking direction `from` onto direction `to`:
/// identity for near-parallel unit directions, a 180-degree rotation about a
/// picked perpendicular axis for near-antiparallel ones, and Rodrigues'
/// formula otherwise. A zero-length input (or a degenerate intermediate
/// norm) is an unreachable configuration.
pub open spec fn align_vectors_s(from: V3, to: V3) -> Result<M3, KinError> {
    let nf = v3_norm_s(from);
    let nt = v3_norm_s(to);
    if nf == 0 || nt == 0 {
        Err(KinError::UnreachableConfiguration)
    } else {
        let fu = v3_div_scalar_s(from, nf);
        let tu = v3_div_scalar_s(to, nt);
        let d = v3_dot_s(fu, tu);
        if d > PARALLEL_DOT {
            Ok(m3_identity_s())
        } else if d < -(PARALLEL_DOT as int) {
            let p1 = v3_cross_s(V3 { x: FX_ONE, y: 0, z: 0 }, fu);
            let perp = if v3_norm_s(p1) < PERP_EPS {
                v3_cross_s(V3 { x: 0, y: FX_ONE, z: 0 }, fu)
            } else {
                p1
            };
            let np = v3_norm_s(perp);
            if np == 0 {
                Err(KinError::UnreachableConfiguration)
            } else {
                let k = m3_skew_s(v3_div_scalar_s(perp, np));
                Ok(m3_add_s(m3_identity_s(), m3_scale_s(m3_mul_s(k, k), FX_TWO as int)))
            }
        } else {
            let c = v3_cross_s(fu, tu);
            let sn = v3_norm_s(c);
            let denom = fx_mul_s(sn, sn);
            if denom == 0 {
                Err(KinError::UnreachableConfiguration)
            } else {
                let factor = fx_div_s(fx_sub_s(FX_ONE as int, d), denom);
                let k = m3_skew_s(c);
                Ok(
                    m3_add_s(
                        m3_add_s(m3_identity_s(), k),
                        m3_scale_s(m3_mul_s(k, k), factor),
                    ),
                )
            }
        }
    }
}

/// Find the rotation that aligns `from` to `to`.
pub fn align_vectors(from: &V3, to: &V3) -> (r: Result<M3, KinError>)
    ensures
        r == align_vectors_s(*from, *to),
{
    let nf = v3_norm(*from);
    let nt = v3_norm(*to);
    if nf == 0 || nt == 0 {
        return Err(KinError::UnreachableConfiguration);
    }
    let fu = v3_div_scalar(*from, nf);
    let tu = v3_div_scalar(*to, nt);
    let d = v3_dot(fu, tu);
    if d > PARALLEL_DOT {
        return Ok(m3_identity());
    }
    if d < -PARALLEL_DOT {
        let p1 = v3_cross(V3 { x: FX_ONE, y: 0, z: 0 }, fu);
        let np1 = v3_norm(p1);
        let perp = if np1 < PERP_EPS {
            v3_cross(V3 { x: 0, y: FX_ONE, z: 0 }, fu)
        } else {
            p1
        };
        let np = v3_norm(perp);
        if np == 0 {
            return Err(KinError::UnreachableConfiguration);
        }
        let k = m3_skew(v3_div_scalar(perp, np));
        return Ok(m3_add(m3_identity(), m3_scale(m3_mul(k, k), FX_TWO)));
    }
    let c = v3_cross(fu, tu);
    let sn = v3_norm(c);
    let denom = fx_mul(sn, sn);
    if denom == 0 {
        return Err(KinError::UnreachableConfiguration);
    }
    let factor = fx_div(fx_sub(FX_ONE, d), denom);
    let k = m3_skew(c);
    Ok(m3_add(m3_add(m3_identity(), k), m3_scale(m3_mul(k, k), factor)))
}


/// Floor-division bounds for a nonnegative dividend and positive divisor.
proof fn lemma_div_bounds(p: int, d: int)
    requires
        p >= 0,
        d > 0,
    ensures
        0 <= p / d,
        d * (p / d) <= p,
        p < d * (p / d) + d,
{
    vstd::arithmetic::div_mod::lemma_fundamental_div_mod(p, d);
    vstd::arithmetic::div_mod::lemma_mod_bound(p, d);
    vstd::arithmetic::div_mod::lemma_div_pos_is_pos(p, d);
}

/// The fixed-point square of a bounded scalar, exactly: it is the floor of
/// `a^2 / 2^32`, it is nonnegative, and it does not saturate.
proof fn lemma_fx_square(a: int)
    requires
        abs_s(a) <= 35184372088832,  // 2^45
    ensures
        fx_mul_s(a, a) == (abs_s(a) * abs_s(a)) / (FX_ONE as int),
        0 <= fx_mul_s(a, a) <= 288230376151711744,  // 2^58
        (FX_ONE as int) * ((abs_s(a) * abs_s(a)) / (FX_ONE as int)) <= abs_s(a) * abs_s(a),
        abs_s(a) * abs_s(a) < (FX_ONE as int) * ((abs_s(a) * abs_s(a)) / (FX_ONE as int))
            + (FX_ONE as int),
{
    let s = FX_ONE as int;
    let m = abs_s(a);
    assert(a * a == m * m && m * m <= 1237940039285380274899124224) by (nonlinear_arith)
        requires
            m == abs_s(a),
            m <= 35184372088832,
    ;
    lemma_div_bounds(m * m, s);
    assert((m * m) / s <= 288230376151711744) by {
        vstd::arithmetic::div_mod::lemma_div_is_ordered(
            m * m,
            1237940039285380274899124224,
            s,
        );
    }
    assert(tdiv_s(a * a, s) == (m * m) / s);
}

/// Aligning a well-scaled nonzero vector with itself gives the identity
/// rotation. The direction must have one component of raw magnitude at
/// least 2^16 (so its fixed-point norm does not underflow to zero) and all
/// components of raw magnitude at most 2^45 (so no intermediate saturates).
pub proof fn lemma_align_vectors_self_identity(v: V3)
    requires
        abs_s(v.x as int) <= 35184372088832,
        abs_s(v.y as int) <= 35184372088832,
        abs_s(v.z as int) <= 35184372088832,
        abs_s(v.x as int) >= 65536 || abs_s(v.y as int) >= 65536 || abs_s(v.z as int) >= 65536,
    ensures
        align_vectors_s(v, v) == Ok::<M3, KinError>(m3_identity_s()),
{
    let s = FX_ONE as int;
    let ax = abs_s(v.x as int);
    let ay = abs_s(v.y as int);
    let az = abs_s(v.z as int);
    let dd = ax * ax + ay * ay + az * az;
    let aa = ax + ay + az;

    // The self dot product: exact floors, no saturation.
    lemma_fx_square(v.x as int);
    lemma_fx_square(v.y as int);
    lemma_fx_square(v.z as int);
    let tx = fx_mul_s(v.x as int, v.x as int);
    let ty = fx_mul_s(v.y as int, v.y as int);
    let tz = fx_mul_s(v.z as int, v.z as int);
    let q = v3_dot_s(v, v);
    assert(q == tx + ty + tz);
    assert(q * s <= dd);
    assert(dd < q * s + 3 * s);

    // One component is large, so the dot product is at least one.
    assert(s / s == 1) by {
        vstd::arithmetic::div_mod::lemma_div_by_self(s);
    }
    if ax >= 65536 {
        assert(s <= ax * ax) by (nonlinear_arith)
            requires
                ax >= 65536,
                s == 4294967296,
        ;
        vstd::arithmetic::div_mod::lemma_div_is_ordered(s, ax * ax, s);
    } else if ay >= 65536 {
        assert(s <= ay * ay) by (nonlinear_arith)
            requires
                ay >= 65536,
                s == 4294967296,
        ;
        vstd::arithmetic::div_mod::lemma_div_is_ordered(s, ay * ay, s);
    } else {
        assert(s <= az * az) by (nonlinear_arith)
            requires
                az >= 65536,
                s == 4294967296,
        ;
        vstd::arithmetic::div_mod::lemma_div_is_ordered(s, az * az, s);
    }
    assert(q >= 1);

    // The norm: the floor square root of q * 2^32.
    crate::fixed::lemma_isqrt_exists(q * s);
    let r = crate::fixed::sqrt_floor(q * s);
    assert(v3_norm_s(v) == r);
    assert(r * r <= q * s);
    assert(q * s < (r + 1) * (r + 1));
    assert(r >= 65536) by (nonlinear_arith)
        requires
            q >= 1,
            s == 4294967296,
            q * s < (r + 1) * (r + 1),
            r >= 0,
    ;
    assert(r * r <= dd);

    // The normalized components: floors of a * 2^32 / r, no saturation.
    lemma_div_bounds(ax * s, r);
    lemma_div_bounds(ay * s, r);
    lemma_div_bounds(az * s, r);
    let nx = (ax * s) / r;
    let ny = (ay * s) / r;
    let nz = (az * s) / r;
    assert(nx <= 2305843009213693952 && ny <= 2305843009213693952 && nz
        <= 2305843009213693952) by (nonlinear_arith)
        requires
            r >= 65536,
            ax <= 35184372088832,
            ay <= 35184372088832,
            az <= 35184372088832,
            s == 4294967296,
            nx >= 0,
            ny >= 0,
            nz >= 0,
            r * nx <= ax * s,
            r * ny <= ay * s,
            r * nz <= az * s,
    ;
    let n = v3_div_scalar_s(v, r as int);
    assert(abs_s(n.x as int) == nx && abs_s(n.y as int) == ny && abs_s(n.z as int) == nz) by {
        assert(abs_s((v.x as int) * s) == ax * s);
        assert(abs_s((v.y as int) * s) == ay * s);
        assert(abs_s((v.z as int) * s) == az * s);
    }

    // Each normalized component squared, scaled by r^2, is close to the
    // square of the exact quotient.
    assert(nx * nx * (r * r) >= (ax * s) * (ax * s) - 2 * (ax * s) * r) by (nonlinear_arith)
        requires
            0 <= nx,
            0 < r,
            0 <= ax * s,
            r * nx <= ax * s,
            ax * s < r * nx + r,
    ;
    assert(ny * ny * (r * r) >= (ay * s) * (ay * s) - 2 * (ay * s) * r) by (nonlinear_arith)
        requires
            0 <= ny,
            0 < r,
            0 <= ay * s,
            r * ny <= ay * s,
            ay * s < r * ny + r,
    ;
    assert(nz * nz * (r * r) >= (az * s) * (az * s) - 2 * (az * s) * r) by (nonlinear_arith)
        requires
            0 <= nz,
            0 < r,
            0 <= az * s,
            r * nz <= az * s,
            az * s < r * nz + r,
    ;
    let nsq = nx * nx + ny * ny + nz * nz;
    assert((ax * s) * (ax * s) == (ax * ax) * (s * s)) by (nonlinear_arith);
    assert((ay * s) * (ay * s) == (ay * ay) * (s * s)) by (nonlinear_arith);
    assert((az * s) * (az * s) == (az * az) * (s * s)) by (nonlinear_arith);
    assert(dd * s * s == (ax * ax) * (s * s) + (ay * ay) * (s * s) + (az * az) * (s
        * s)) by (nonlinear_arith)
        requires
            dd == ax * ax + ay * ay + az * az,
    ;
    assert((ax * s) * (ax * s) + (ay * s) * (ay * s) + (az * s) * (az * s) == dd * s * s);
    assert((ax * s) + (ay * s) + (az * s) == aa * s);
    assert(nsq * (r * r) >= dd * s * s - 2 * (aa * s) * r) by (nonlinear_arith)
        requires
            nx * nx * (r * r) >= (ax * s) * (ax * s) - 2 * (ax * s) * r,
            ny * ny * (r * r) >= (ay * s) * (ay * s) - 2 * (ay * s) * r,
            nz * nz * (r * r) >= (az * s) * (az * s) - 2 * (az * s) * r,
            nsq == nx * nx + ny * ny + nz * nz,
            (ax * s) * (ax * s) + (ay * s) * (ay * s) + (az * s) * (az * s) == dd * s * s,
            (ax * s) + (ay * s) + (az * s) == aa * s,
    ;

    // Cauchy-style bound: r * (ax + ay + az) is at most 2 * dd.
    assert(aa * aa <= 3 * dd) by (nonlinear_arith)
        requires
            aa == ax + ay + az,
            dd == ax * ax + ay * ay + az * az,
    ;
    assert(r * aa <= 2 * dd) by (nonlinear_arith)
        requires
            r * r <= dd,
            aa * aa <= 3 * dd,
            0 <= r,
            0 <= aa,
            0 <= dd,
    ;

    // So the squared norm of the normalized vector is nearly one.
    assert(nsq * (r * r) >= (s * s - 4 * s) * (r * r)) by (nonlinear_arith)
        requires
            nsq * (r * r) >= dd * s * s - 2 * (aa * s) * r,
            r * aa <= 2 * dd,
            r * r <= dd,
            s == 4294967296,
    ;
    assert(nsq >= s * s - 4 * s) by (nonlinear_arith)
        requires
            nsq * (r * r) >= (s * s - 4 * s) * (r * r),
            r > 0,
    ;

    // The self dot product of the normalized vector exceeds the parallel
    // threshold, saturation or not.
    let wx = (nx * nx) / s;
    let wy = (ny * ny) / s;
    let wz = (nz * nz) / s;
    assert(nx * nx >= 0 && ny * ny >= 0 && nz * nz >= 0) by (nonlinear_arith)
        requires
            nx >= 0,
            ny >= 0,
            nz >= 0,
    ;
    lemma_div_bounds(nx * nx, s);
    lemma_div_bounds(ny * ny, s);
    lemma_div_bounds(nz * nz, s);
    assert((wx + wy + wz) * s >= nsq - 3 * s);
    assert(wx + wy + wz >= s - 7) by (nonlinear_arith)
        requires
            (wx + wy + wz) * s >= nsq - 3 * s,
            nsq >= s * s - 4 * s,
            s == 4294967296,
    ;
    let ux = fx_mul_s(n.x as int, n.x as int);
    let uy = fx_mul_s(n.y as int, n.y as int);
    let uz = fx_mul_s(n.z as int, n.z as int);
    assert((n.x as int) * (n.x as int) == nx * nx && (n.y as int) * (n.y as int) == ny * ny && (
    n.z as int) * (n.z as int) == nz * nz) by (nonlinear_arith)
        requires
            abs_s(n.x as int) == nx,
            abs_s(n.y as int) == ny,
            abs_s(n.z as int) == nz,
    ;
    assert(ux == sat_s(wx) && uy == sat_s(wy) && uz == sat_s(wz));
    let d = v3_dot_s(n, n);
    assert(d == sat_s(sat_s(ux + uy) + uz));
    assert(d > PARALLEL_DOT);

    // Both inputs have the same nonzero norm and the same normalization, so
    // the parallel branch is taken.
    assert(align_vectors_s(v, v) == Ok::<M3, KinError>(m3_identity_s()));
}


/// Aligning the unit x direction with its negation takes the 180-degree
/// branch and returns a rotation that maps the direction exactly onto its
/// negation: the flip axis falls back from the x axis (whose cross product
/// vanishes) to the y axis, and the result is the half-turn about z.
pub proof fn lemma_align_flip_of_x_axis()
    ensures
        align_vectors_s(V3 { x: FX_ONE, y: 0, z: 0 }, V3 { x: (-FX_ONE) as i64, y: 0, z: 0 }) matches Ok(m)
            && m3_mul_v3_s(m, V3 { x: FX_ONE, y: 0, z: 0 }) == (V3 { x: (-FX_ONE) as i64, y: 0, z: 0 }),
{
    let s = FX_ONE as int;
    let v = V3 { x: FX_ONE, y: 0, z: 0 };
    let w = V3 { x: (-FX_ONE) as i64, y: 0, z: 0 };

    assert(v3_dot_s(v, v) == s);
    assert((w.x as int) * (w.x as int) == s * s) by (nonlinear_arith)
        requires
            w.x as int == -s,
    ;
    assert(v3_dot_s(w, w) == s);
    crate::fixed::lemma_isqrt_exists(s * s);
    crate::fixed::lemma_isqrt_unique(s * s, crate::fixed::sqrt_floor(s * s), s);
    assert(v3_norm_s(v) == s);
    assert(v3_norm_s(w) == s);

    let fu = v3_div_scalar_s(v, s);
    let tu = v3_div_scalar_s(w, s);
    assert(fu == v);
    assert(tu == w);
    assert((fu.x as int) * (tu.x as int) == -(s * s)) by (nonlinear_arith)
        requires
            fu.x as int == s,
            tu.x as int == -s,
    ;
    assert(v3_dot_s(fu, tu) == -s);
    assert(-s < -(PARALLEL_DOT as int));

    let p1 = v3_cross_s(V3 { x: FX_ONE, y: 0, z: 0 }, fu);
    assert(p1 == V3 { x: 0i64, y: 0i64, z: 0i64 });
    crate::fixed::lemma_isqrt_exists(0);
    crate::fixed::lemma_isqrt_unique(0, crate::fixed::sqrt_floor(0), 0);
    assert(v3_norm_s(p1) == 0);
    let perp = v3_cross_s(V3 { x: 0, y: FX_ONE, z: 0 }, fu);
    assert(perp == V3 { x: 0i64, y: 0i64, z: (-FX_ONE) as i64 });
    assert(v3_dot_s(perp, perp) == s);
    assert(v3_norm_s(perp) == s);

    let axis = v3_div_scalar_s(perp, s);
    assert(axis == perp);
    let k = m3_skew_s(axis);
    let k2 = m3_mul_s(k, k);
    assert(k2 == M3 {
        m00: (-FX_ONE) as i64,
        m01: 0i64,
        m02: 0i64,
        m10: 0i64,
        m11: (-FX_ONE) as i64,
        m12: 0i64,
        m20: 0i64,
        m21: 0i64,
        m22: 0i64,
    });
    let m = m3_add_s(m3_identity_s(), m3_scale_s(k2, FX_TWO as int));
    assert(m == M3 {
        m00: (-FX_ONE) as i64,
        m01: 0i64,
        m02: 0i64,
        m10: 0i64,
        m11: (-FX_ONE) as i64,
        m12: 0i64,
        m20: 0i64,
        m21: 0i64,
        m22: FX_ONE,
    });
    assert(align_vectors_s(v, w) == Ok::<M3, KinError>(m));
    assert(m3_mul_v3_s(m, v) == w);
}

} // verus!
