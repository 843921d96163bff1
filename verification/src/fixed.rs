//! Saturating Q32 fixed-point arithmetic on `i64`.
//!
//! A scalar `x: i64` stands for the real number `x / 2^32`. Products and
//! quotients are computed exactly in wide integers and truncated toward zero;
//! results outside the `i64` range are clamped to it. Each executable
//! operation is specified exactly by a spec-level function of the raw
//! integers, so every computation built from these operations is a pure,
//! fully determined function of its inputs.

use vstd::prelude::*;

verus! {

/// The fixed-point representation of 1 (the scale factor 2^32).
pub const FX_ONE: i64 = 4294967296;

/// Clamp an unbounded integer into the `i64` range.
pub open spec fn sat_s(x: int) -> int {
    if x > i64::MAX as int {
        i64::MAX as int
    } else if x < i64::MIN as int {
        i64::MIN as int
    } else {
        x
    }
}

/// Absolute value.
pub open spec fn abs_s(x: int) -> int {
    if x >= 0 {
        x
    } else {
        -x
    }
}

/// Division of `p` by `d` truncated toward zero (meaningful for `d != 0`).
pub open spec fn tdiv_s(p: int, d: int) -> int {
    if (p < 0) != (d < 0) {
        -(abs_s(p) / abs_s(d))
    } else {
        abs_s(p) / abs_s(d)
    }
}

pub open spec fn fx_add_s(a: int, b: int) -> int {
    sat_s(a + b)
}

pub open spec fn fx_sub_s(a: int, b: int) -> int {
    sat_s(a - b)
}

pub open spec fn fx_neg_s(a: int) -> int {
    sat_s(-a)
}

pub open spec fn fx_abs_s(a: int) -> int {
    if a >= 0 {
        a
    } else {
        fx_neg_s(a)
    }
}

/// Fixed-point product: `a * b / 2^32`, truncated toward zero, clamped.
pub open spec fn fx_mul_s(a: int, b: int) -> int {
    sat_s(tdiv_s(a * b, FX_ONE as int))
}

/// Fixed-point quotient: `a * 2^32 / b`, truncated toward zero, clamped.
pub open spec fn fx_div_s(a: int, b: int) -> int {
    sat_s(tdiv_s(a * (FX_ONE as int), b))
}

/// `r` is the floor of the square root of `v`.
pub open spec fn is_isqrt(v: int, r: int) -> bool {
    0 <= r && r * r <= v && v < (r + 1) * (r + 1)
}

/// Floor of the square root of `v` (meaningful for `v >= 0`).
pub open spec fn sqrt_floor(v: int) -> int {
    choose|r: int| is_isqrt(v, r)
}

/// Fixed-point square root: floor(sqrt(x * 2^32)), so that the result again
/// scales by 2^32 (meaningful for `x >= 0`).
pub open spec fn fx_sqrt_s(x: int) -> int {
    sqrt_floor(x * (FX_ONE as int))
}

/// Every nonnegative integer has a floor square root, so `sqrt_floor` is
/// characterized by `is_isqrt` on nonnegative arguments.
pub proof fn lemma_isqrt_exists(v: int)
    requires
        v >= 0,
    ensures
        is_isqrt(v, sqrt_floor(v)),
    decreases v,
{
    if v == 0 {
        assert(is_isqrt(0, 0));
    } else {
        lemma_isqrt_exists(v - 1);
        let r0 = sqrt_floor(v - 1);
        if (r0 + 1) * (r0 + 1) <= v {
            assert(is_isqrt(v, r0 + 1)) by (nonlinear_arith)
                requires
                    0 <= r0,
                    r0 * r0 <= v - 1,
                    v - 1 < (r0 + 1) * (r0 + 1),
                    (r0 + 1) * (r0 + 1) <= v,
            ;
        } else {
            assert(is_isqrt(v, r0));
        }
    }
    assert(exists|r: int| is_isqrt(v, r));
}

/// The floor square root is unique.
pub proof fn lemma_isqrt_unique(v: int, r1: int, r2: int)
    requires
        is_isqrt(v, r1),
        is_isqrt(v, r2),
    ensures
        r1 == r2,
{
    if r1 < r2 {
        assert((r1 + 1) * (r1 + 1) <= r2 * r2) by (nonlinear_arith)
            requires
                0 <= r1,
                r1 < r2,
        ;
    }
    if r2 < r1 {
        assert((r2 + 1) * (r2 + 1) <= r1 * r1) by (nonlinear_arith)
            requires
                0 <= r2,
                r2 < r1,
        ;
    }
}

fn sat64(x: i128) -> (r: i64)
    ensures
        r as int == sat_s(x as int),
{
    if x > i64::MAX as i128 {
        i64::MAX
    } else if x < i64::MIN as i128 {
        i64::MIN
    } else {
        x as i64
    }
}

fn abs_mag(a: i64) -> (r: u128)
    ensures
        r as int == abs_s(a as int),
        r <= 9223372036854775808u128,
{
    if a >= 0 {
        a as u128
    } else {
        (-(a as i128)) as u128
    }
}

pub fn fx_add(a: i64, b: i64) -> (r: i64)
    ensures
        r as int == fx_add_s(a as int, b as int),
{
    sat64((a as i128) + (b as i128))
}

pub fn fx_sub(a: i64, b: i64) -> (r: i64)
    ensures
        r as int == fx_sub_s(a as int, b as int),
{
    sat64((a as i128) - (b as i128))
}

pub fn fx_neg(a: i64) -> (r: i64)
    ensures
        r as int == fx_neg_s(a as int),
{
    sat64(-(a as i128))
}

pub fn fx_abs(a: i64) -> (r: i64)
    ensures
        r as int == fx_abs_s(a as int),
{
    if a >= 0 {
        a
    } else {
        fx_neg(a)
    }
}

pub fn fx_mul(a: i64, b: i64) -> (r: i64)
    ensures
        r as int == fx_mul_s(a as int, b as int),
{
    let ma = abs_mag(a);
    let mb = abs_mag(b);
    proof {
        assert(ma * mb <= 85070591730234615865843651857942052864u128) by (nonlinear_arith)
            requires
                ma <= 9223372036854775808u128,
                mb <= 9223372036854775808u128,
        ;
    }
    let p: u128 = ma * mb;
    let q: u128 = p / (FX_ONE as u128);
    proof {
        vstd::arithmetic::div_mod::lemma_div_nonincreasing(p as int, FX_ONE as int);
        assert(abs_s((a as int) * (b as int)) == p && ((a < 0) != (b < 0) ==> (a as int) * (b as int)
            <= 0) && (!((a < 0) != (b < 0)) ==> (a as int) * (b as int) >= 0)) by (nonlinear_arith)
            requires
                ma == abs_s(a as int),
                mb == abs_s(b as int),
                p == ma * mb,
        ;
    }
    if (a < 0) != (b < 0) {
        sat64(-(q as i128))
    } else {
        sat64(q as i128)
    }
}

pub fn fx_div(a: i64, b: i64) -> (r: i64)
    requires
        b != 0,
    ensures
        r as int == fx_div_s(a as int, b as int),
{
    let ma = abs_mag(a);
    let mb = abs_mag(b);
    proof {
        assert(ma * (FX_ONE as u128) <= 39614081257132168796771975168u128) by (nonlinear_arith)
            requires
                ma <= 9223372036854775808u128,
                FX_ONE == 4294967296i64,
        ;
    }
    let p: u128 = ma * (FX_ONE as u128);
    let q: u128 = p / mb;
    proof {
        vstd::arithmetic::div_mod::lemma_div_nonincreasing(p as int, mb as int);
        assert(abs_s((a as int) * (FX_ONE as int)) == p && ((a < 0) ==> (a as int) * (FX_ONE as int)
            <= 0) && (a >= 0 ==> (a as int) * (FX_ONE as int) >= 0)) by (nonlinear_arith)
            requires
                ma == abs_s(a as int),
                p == ma * (FX_ONE as u128),
                FX_ONE == 4294967296i64,
        ;
    }
    if (a < 0) != (b < 0) {
        sat64(-(q as i128))
    } else {
        sat64(q as i128)
    }
}

pub fn fx_sqrt(x: i64) -> (r: i64)
    requires
        x >= 0,
    ensures
        r as int == fx_sqrt_s(x as int),
        is_isqrt((x as int) * (FX_ONE as int), r as int),
{
    proof {
        assert((x as u128) * (FX_ONE as u128) < 281474976710656u128 * 281474976710656u128)
            by (nonlinear_arith)
            requires
                (x as u128) <= 9223372036854775807u128,
                FX_ONE == 4294967296i64,
        ;
    }
    let v: u128 = (x as u128) * (FX_ONE as u128);
    let mut lo: u128 = 0;
    let mut hi: u128 = 281474976710656;  // 2^48, and x * 2^32 < 2^95 < (2^48)^2
    while hi - lo > 1
        invariant
            lo < hi,
            hi <= 281474976710656,
            lo * lo <= v,
            v < hi * hi,
        decreases hi - lo,
    {
        let mid: u128 = lo + (hi - lo) / 2;
        proof {
            assert(mid * mid < 158456325028528675187087900672u128) by (nonlinear_arith)
                requires
                    mid <= 281474976710656u128,
            ;
        }
        if mid * mid <= v {
            lo = mid;
        } else {
            hi = mid;
        }
    }
    proof {
        assert(is_isqrt(v as int, lo as int));
        let w = sqrt_floor(v as int);
        assert(is_isqrt(v as int, w)) by {
            assert(exists|r: int| is_isqrt(v as int, r)) by {
                assert(is_isqrt(v as int, lo as int));
            }
        }
        lemma_isqrt_unique(v as int, lo as int, w);
    }
    lo as i64
}

} // verus!
