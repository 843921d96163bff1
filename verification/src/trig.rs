//! Trigonometric functions on Q32 fixed-point scalars.
//!
//! Angles are radians times 2^32. Sine and cosine reduce their argument into
//! `[-pi, pi]` and evaluate a Taylor polynomial on `[-pi/2, pi/2]`; the arc
//! tangent reduces to `[0, tan(pi/8)]` and evaluates its Taylor polynomial;
//! the arc sine goes through `atan2(t, sqrt(1 - t^2))`. Every executable
//! function is specified exactly against a spec-level mirror, so the results
//! are fully determined functions of the raw inputs.

use vstd::prelude::*;
use crate::fixed::{
    FX_ONE, fx_add, fx_add_s, fx_sub, fx_sub_s, fx_neg, fx_neg_s, fx_abs, fx_abs_s, fx_mul,
    fx_mul_s, fx_div, fx_div_s, fx_sqrt, fx_sqrt_s, sat_s, tdiv_s,
};

verus! {

/// pi times 2^32.
pub const FX_PI: i64 = 13493037705;

/// 2 pi times 2^32.
pub const FX_TWO_PI: i64 = 26986075409;

/// pi/2 times 2^32.
pub const FX_HALF_PI: i64 = 6746518852;

/// pi/4 times 2^32.
pub const FX_QUARTER_PI: i64 = 3373259426;

/// tan(pi/8) times 2^32.
pub const FX_TAN_PI_8: i64 = 1779033704;

// Reciprocals of the Taylor coefficients, times 2^32.
pub const INV_3F: i64 = 715827883;
pub const INV_5F: i64 = 35791394;
pub const INV_7F: i64 = 852176;
pub const INV_9F: i64 = 11836;
pub const INV_11F: i64 = 108;
pub const INV_2F: i64 = 2147483648;
pub const INV_4F: i64 = 178956971;
pub const INV_6F: i64 = 5965232;
pub const INV_8F: i64 = 106522;
pub const INV_10F: i64 = 1184;
pub const INV_12F: i64 = 9;
pub const INV_3: i64 = 1431655765;
pub const INV_5: i64 = 858993459;
pub const INV_7: i64 = 613566757;
pub const INV_9: i64 = 477218588;
pub const INV_11: i64 = 390451572;
pub const INV_13: i64 = 330382100;

/// Reduce an angle into `[-pi, pi]` by subtracting whole turns.
pub open spec fn reduce_pi_s(x: int) -> int {
    let m = if x >= 0 {
        x % (FX_TWO_PI as int)
    } else {
        let rr = (-x) % (FX_TWO_PI as int);
        if rr == 0 {
            0
        } else {
            FX_TWO_PI - rr
        }
    };
    if m > FX_PI {
        m - FX_TWO_PI
    } else {
        m
    }
}

fn reduce_pi(x: i64) -> (r: i64)
    ensures
        r as int == reduce_pi_s(x as int),
        -FX_PI <= r <= FX_PI,
{
    let m: i64 = if x >= 0 {
        ((x as u128) % (FX_TWO_PI as u128)) as i64
    } else {
        let rr: u128 = ((-(x as i128)) as u128) % (FX_TWO_PI as u128);
        if rr == 0 {
            0
        } else {
            (FX_TWO_PI as u128 - rr) as i64
        }
    };
    if m > FX_PI {
        m - FX_TWO_PI
    } else {
        m
    }
}

/// Taylor polynomial of sine on `[-pi/2, pi/2]` (degree 11).
pub open spec fn sin_core_s(x: int) -> int {
    let x2 = fx_mul_s(x, x);
    let p1 = fx_sub_s(INV_9F as int, fx_mul_s(x2, INV_11F as int));
    let p2 = fx_sub_s(INV_7F as int, fx_mul_s(x2, p1));
    let p3 = fx_sub_s(INV_5F as int, fx_mul_s(x2, p2));
    let p4 = fx_sub_s(INV_3F as int, fx_mul_s(x2, p3));
    let p5 = fx_sub_s(FX_ONE as int, fx_mul_s(x2, p4));
    fx_mul_s(x, p5)
}

fn sin_core(x: i64) -> (r: i64)
    ensures
        r as int == sin_core_s(x as int),
{
    let x2 = fx_mul(x, x);
    let p1 = fx_sub(INV_9F, fx_mul(x2, INV_11F));
    let p2 = fx_sub(INV_7F, fx_mul(x2, p1));
    let p3 = fx_sub(INV_5F, fx_mul(x2, p2));
    let p4 = fx_sub(INV_3F, fx_mul(x2, p3));
    let p5 = fx_sub(FX_ONE, fx_mul(x2, p4));
    fx_mul(x, p5)
}

/// Taylor polynomial of cosine on `[-pi/2, pi/2]` (degree 12).
pub open spec fn cos_core_s(x: int) -> int {
    let x2 = fx_mul_s(x, x);
    let p1 = fx_sub_s(INV_10F as int, fx_mul_s(x2, INV_12F as int));
    let p2 = fx_sub_s(INV_8F as int, fx_mul_s(x2, p1));
    let p3 = fx_sub_s(INV_6F as int, fx_mul_s(x2, p2));
    let p4 = fx_sub_s(INV_4F as int, fx_mul_s(x2, p3));
    let p5 = fx_sub_s(INV_2F as int, fx_mul_s(x2, p4));
    fx_sub_s(FX_ONE as int, fx_mul_s(x2, p5))
}

fn cos_core(x: i64) -> (r: i64)
    ensures
        r as int == cos_core_s(x as int),
{
    let x2 = fx_mul(x, x);
    let p1 = fx_sub(INV_10F, fx_mul(x2, INV_12F));
    let p2 = fx_sub(INV_8F, fx_mul(x2, p1));
    let p3 = fx_sub(INV_6F, fx_mul(x2, p2));
    let p4 = fx_sub(INV_4F, fx_mul(x2, p3));
    let p5 = fx_sub(INV_2F, fx_mul(x2, p4));
    fx_sub(FX_ONE, fx_mul(x2, p5))
}

/// Fixed-point sine of an arbitrary angle.
pub open spec fn fx_sin_s(x: int) -> int {
    let m = reduce_pi_s(x);
    if m > FX_HALF_PI {
        sin_core_s(fx_sub_s(FX_PI as int, m))
    } else if m < -(FX_HALF_PI as int) {
        sin_core_s(fx_sub_s(fx_neg_s(FX_PI as int), m))
    } else {
        sin_core_s(m)
    }
}

pub fn fx_sin(x: i64) -> (r: i64)
    ensures
        r as int == fx_sin_s(x as int),
{
    let m = reduce_pi(x);
    if m > FX_HALF_PI {
        sin_core(fx_sub(FX_PI, m))
    } else if m < -FX_HALF_PI {
        sin_core(fx_sub(fx_neg(FX_PI), m))
    } else {
        sin_core(m)
    }
}

/// Fixed-point cosine of an arbitrary angle.
pub open spec fn fx_cos_s(x: int) -> int {
    let m = reduce_pi_s(x);
    let a = if m >= 0 {
        m
    } else {
        fx_neg_s(m)
    };
    if a > FX_HALF_PI {
        fx_neg_s(cos_core_s(fx_sub_s(FX_PI as int, a)))
    } else {
        cos_core_s(a)
    }
}

pub fn fx_cos(x: i64) -> (r: i64)
    ensures
        r as int == fx_cos_s(x as int),
{
    let m = reduce_pi(x);
    let a = if m >= 0 {
        m
    } else {
        fx_neg(m)
    };
    if a > FX_HALF_PI {
        fx_neg(cos_core(fx_sub(FX_PI, a)))
    } else {
        cos_core(a)
    }
}

/// Taylor polynomial of the arc tangent on `[-tan(pi/8), tan(pi/8)]`
/// (degree 13).
pub open spec fn atan_core_s(t: int) -> int {
    let t2 = fx_mul_s(t, t);
    let p1 = fx_sub_s(INV_11 as int, fx_mul_s(t2, INV_13 as int));
    let p2 = fx_sub_s(INV_9 as int, fx_mul_s(t2, p1));
    let p3 = fx_sub_s(INV_7 as int, fx_mul_s(t2, p2));
    let p4 = fx_sub_s(INV_5 as int, fx_mul_s(t2, p3));
    let p5 = fx_sub_s(INV_3 as int, fx_mul_s(t2, p4));
    let p6 = fx_sub_s(FX_ONE as int, fx_mul_s(t2, p5));
    fx_mul_s(t, p6)
}

fn atan_core(t: i64) -> (r: i64)
    ensures
        r as int == atan_core_s(t as int),
{
    let t2 = fx_mul(t, t);
    let p1 = fx_sub(INV_11, fx_mul(t2, INV_13));
    let p2 = fx_sub(INV_9, fx_mul(t2, p1));
    let p3 = fx_sub(INV_7, fx_mul(t2, p2));
    let p4 = fx_sub(INV_5, fx_mul(t2, p3));
    let p5 = fx_sub(INV_3, fx_mul(t2, p4));
    let p6 = fx_sub(FX_ONE, fx_mul(t2, p5));
    fx_mul(t, p6)
}

/// Arc tangent on `[0, 1]`, reduced to the core polynomial through
/// `atan(t) = pi/4 + atan((t - 1) / (t + 1))`.
pub open spec fn atan01_s(t: int) -> int {
    if t <= FX_TAN_PI_8 {
        atan_core_s(t)
    } else {
        let u = fx_div_s(fx_sub_s(t, FX_ONE as int), fx_add_s(t, FX_ONE as int));
        fx_add_s(FX_QUARTER_PI as int, atan_core_s(u))
    }
}

fn atan01(t: i64) -> (r: i64)
    requires
        0 <= t <= FX_ONE,
    ensures
        r as int == atan01_s(t as int),
{
    if t <= FX_TAN_PI_8 {
        atan_core(t)
    } else {
        let u = fx_div(fx_sub(t, FX_ONE), fx_add(t, FX_ONE));
        fx_add(FX_QUARTER_PI, atan_core(u))
    }
}

/// Fixed-point two-argument arc tangent (`atan2(0, 0) == 0`).
pub open spec fn fx_atan2_s(y: int, x: int) -> int {
    if y == 0 && x == 0 {
        0
    } else {
        let ay = fx_abs_s(y);
        let ax = fx_abs_s(x);
        let a = if x == 0 {
            FX_HALF_PI as int
        } else if ay <= ax {
            atan01_s(fx_div_s(ay, ax))
        } else {
            fx_sub_s(FX_HALF_PI as int, atan01_s(fx_div_s(ax, ay)))
        };
        let b = if x < 0 {
            fx_sub_s(FX_PI as int, a)
        } else {
            a
        };
        if y < 0 {
            fx_neg_s(b)
        } else {
            b
        }
    }
}

pub fn fx_atan2(y: i64, x: i64) -> (r: i64)
    ensures
        r as int == fx_atan2_s(y as int, x as int),
{
    if y == 0 && x == 0 {
        return 0;
    }
    let ay = fx_abs(y);
    let ax = fx_abs(x);
    let a: i64 = if x == 0 {
        FX_HALF_PI
    } else {
        if ay <= ax {
            proof {
                lemma_quotient_in_unit_range(ay as int, ax as int);
            }
            atan01(fx_div(ay, ax))
        } else {
            proof {
                lemma_quotient_in_unit_range(ax as int, ay as int);
            }
            fx_sub(FX_HALF_PI, atan01(fx_div(ax, ay)))
        }
    };
    let b: i64 = if x < 0 {
        fx_sub(FX_PI, a)
    } else {
        a
    };
    if y < 0 {
        fx_neg(b)
    } else {
        b
    }
}

/// For `0 <= n <= d`, the fixed-point quotient `n / d` lies in `[0, 1]`.
proof fn lemma_quotient_in_unit_range(n: int, d: int)
    requires
        0 <= n <= d,
        0 < d,
    ensures
        0 <= fx_div_s(n, d) <= FX_ONE,
{
    let s = FX_ONE as int;
    assert(n * s <= d * s);
    assert(0 <= n * s);
    vstd::arithmetic::div_mod::lemma_div_is_ordered(n * s, d * s, d);
    vstd::arithmetic::div_mod::lemma_div_multiples_vanish(s, d);
    vstd::arithmetic::div_mod::lemma_div_pos_is_pos(n * s, d);
    assert(tdiv_s(n * s, d) == (n * s) / d);
}

/// Fixed-point arc sine through `atan2(t, sqrt(1 - t^2))`.
pub open spec fn fx_asin_s(t: int) -> int {
    let t2 = fx_mul_s(t, t);
    let c = if t2 >= FX_ONE {
        0
    } else {
        fx_sqrt_s(fx_sub_s(FX_ONE as int, t2))
    };
    fx_atan2_s(t, c)
}

pub fn fx_asin(t: i64) -> (r: i64)
    ensures
        r as int == fx_asin_s(t as int),
{
    let t2 = fx_mul(t, t);
    proof {
        lemma_square_fx_nonneg(t as int);
    }
    let c: i64 = if t2 >= FX_ONE {
        0
    } else {
        fx_sqrt(fx_sub(FX_ONE, t2))
    };
    fx_atan2(t, c)
}

/// The fixed-point square of any scalar is nonnegative.
proof fn lemma_square_fx_nonneg(t: int)
    ensures
        fx_mul_s(t, t) >= 0,
{
    assert(t * t >= 0) by (nonlinear_arith);
    vstd::arithmetic::div_mod::lemma_div_pos_is_pos(t * t, FX_ONE as int);
}

} // verus!
