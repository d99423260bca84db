//! Angles and trigonometry in fixed point.
//!
//! Headings are integers in milliradians.  A full turn is [`TAU_MR`];
//! wrapped headings live in `[0, TAU_MR)` and signed angular errors in
//! `[-PI_MR, PI_MR]`.  The sine uses the classical rational
//! approximation `16 a (pi - a) / (5 pi^2 - 4 a (pi - a))` on a half
//! wave, and the arctangent the polynomial `z (pi/4 + k (1 - z))`; both
//! are exact integer computations whose contracts mirror them, with the
//! range bounds the physics relies on proved outright.

use vstd::prelude::*;
use crate::fixed::{FP, div_t, mag, muldiv_t, sq, abs64, div64, muldiv64};

verus! {

/// A quarter turn in milliradians.
pub const HALF_PI_MR: i64 = 1571;

/// A half turn in milliradians.
pub const PI_MR: i64 = 3142;

/// A full turn in milliradians.
pub const TAU_MR: i64 = 6284;

/// A quarter of a half turn in milliradians, the arctangent of one.
pub const QPI_MR: i64 = 785;

/// The linear correction coefficient of the arctangent approximation,
/// 0.273 in fixed point.
pub const ATAN_K: i64 = 273;

/// A heading lies in `[0, TAU_MR)`.
pub open spec fn heading_wf(h: int) -> bool {
    0 <= h < TAU_MR
}

/// Wrap an angle within one turn of the principal range into `[0, TAU_MR)`.
pub open spec fn wrap_full_s(a: int) -> int
    recommends
        -TAU_MR < a < 2 * TAU_MR,
{
    if a < 0 {
        a + TAU_MR
    } else if a >= TAU_MR {
        a - TAU_MR
    } else {
        a
    }
}

/// Wrap an angle in `(-TAU_MR, TAU_MR)` into `[-PI_MR, PI_MR]`.
pub open spec fn wrap_signed_s(a: int) -> int
    recommends
        -TAU_MR < a < TAU_MR,
{
    if a > PI_MR {
        a - TAU_MR
    } else if a < -PI_MR {
        a + TAU_MR
    } else {
        a
    }
}

/// The half-wave rational sine approximation, for angles in `[0, PI_MR]`.
pub open spec fn sin_half_s(a: int) -> int
    recommends
        0 <= a <= PI_MR,
{
    div_t(16 * (a * (PI_MR - a)) * FP, 5 * sq(PI_MR as int) - 4 * (a * (PI_MR - a)))
}

/// Fixed-point sine of a wrapped heading.
pub open spec fn sin_mr_s(a: int) -> int
    recommends
        heading_wf(a),
{
    if a <= PI_MR {
        sin_half_s(a)
    } else {
        -sin_half_s(a - PI_MR)
    }
}

/// Fixed-point cosine of a wrapped heading.
pub open spec fn cos_mr_s(a: int) -> int
    recommends
        heading_wf(a),
{
    sin_mr_s(wrap_full_s(a + HALF_PI_MR))
}

/// The arctangent of the ratio `p / q`, for `0 <= p <= q`, in
/// milliradians within `[0, QPI_MR]`.
pub open spec fn atan_ratio_s(p: int, q: int) -> int
    recommends
        0 <= p <= q,
        q > 0,
{
    let z = div_t(p * FP, q);
    div_t(z * (QPI_MR * FP + ATAN_K * (FP - z)), FP * FP)
}

/// The planar angle of the point `(x, y)`, in `[-PI_MR, PI_MR]`;
/// zero at the positive x axis, counterclockwise positive, and zero for
/// the origin itself.
pub open spec fn atan2_s(y: int, x: int) -> int {
    let ax = mag(x);
    let ay = mag(y);
    if ax == 0 && ay == 0 {
        0
    } else {
        let base = if ax >= ay {
            atan_ratio_s(ay, ax)
        } else {
            HALF_PI_MR - atan_ratio_s(ax, ay)
        };
        let m = if x >= 0 {
            base
        } else {
            PI_MR - base
        };
        if y >= 0 {
            m
        } else {
            -m
        }
    }
}

/// Quotient of non-negative values stays below any bound that the
/// dividend keeps scaled by the divisor.
proof fn lemma_div_t_le_bound(n: int, d: int, q: int)
    by (nonlinear_arith)
    requires
        d > 0,
        q >= 0,
        0 <= n <= d * q,
    ensures
        0 <= div_t(n, d) <= q,
{
}

/// The product `a (p - a)` is non-negative and at most a quarter of
/// `p^2` whenever `a` lies within `[0, p]`.
proof fn lemma_quarter_square(a: int, p: int)
    by (nonlinear_arith)
    requires
        0 <= a <= p,
    ensures
        0 <= a * (p - a),
        4 * (a * (p - a)) <= p * p,
{
}

/// The half-wave sine stays within `[0, FP]`.
pub proof fn lemma_sin_half_bounds(a: int)
    requires
        0 <= a <= PI_MR,
    ensures
        0 <= sin_half_s(a) <= FP,
{
    lemma_quarter_square(a, PI_MR as int);
    let p = a * (PI_MR - a);
    let den = 5 * sq(PI_MR as int) - 4 * p;
    assert(den > 0);
    assert(16 * p <= den);
    assert(16 * p * FP <= den * FP && 16 * p * FP >= 0) by (nonlinear_arith)
        requires
            0 <= 16 * p <= den && FP > 0,
    ;
    lemma_div_t_le_bound(16 * p * FP, den, FP as int);
}

/// The sine of any wrapped heading stays within `[-FP, FP]`.
pub proof fn lemma_sin_bounds(a: int)
    requires
        heading_wf(a),
    ensures
        -FP <= sin_mr_s(a) <= FP,
{
    if a <= PI_MR {
        lemma_sin_half_bounds(a);
    } else {
        lemma_sin_half_bounds(a - PI_MR);
    }
}

/// The cosine of any wrapped heading stays within `[-FP, FP]`.
pub proof fn lemma_cos_bounds(a: int)
    requires
        heading_wf(a),
    ensures
        -FP <= cos_mr_s(a) <= FP,
{
    lemma_sin_bounds(wrap_full_s(a + HALF_PI_MR));
}

/// The arctangent of a ratio at most one stays within `[0, QPI_MR]`.
pub proof fn lemma_atan_ratio_bounds(p: int, q: int)
    requires
        0 <= p <= q,
        q > 0,
    ensures
        0 <= atan_ratio_s(p, q) <= QPI_MR,
{
    assert(0 <= p * FP <= q * FP) by (nonlinear_arith)
        requires
            0 <= p <= q,
    ;
    lemma_div_t_le_bound(p * FP, q, FP as int);
    let z = div_t(p * FP, q);
    assert(z * (QPI_MR * FP + ATAN_K * (FP - z)) >= 0) by (nonlinear_arith)
        requires
            0 <= z <= FP,
    ;
    assert(z * (QPI_MR * FP + ATAN_K * (FP - z)) <= (FP * FP) * QPI_MR) by (nonlinear_arith)
        requires
            0 <= z <= FP,
    ;
    lemma_div_t_le_bound(z * (QPI_MR * FP + ATAN_K * (FP - z)), FP * FP, QPI_MR as int);
}

/// The full arctangent stays within `[-PI_MR, PI_MR]`, with the sign of `y`.
pub proof fn lemma_atan2_bounds(y: int, x: int)
    ensures
        -PI_MR <= atan2_s(y, x) <= PI_MR,
        y >= 0 ==> atan2_s(y, x) >= 0,
        y <= 0 ==> atan2_s(y, x) <= 0 || atan2_s(y, x) == PI_MR,
{
    let ax = mag(x);
    let ay = mag(y);
    if ax == 0 && ay == 0 {
    } else {
        if ax >= ay {
            lemma_atan_ratio_bounds(ay, ax);
        } else {
            lemma_atan_ratio_bounds(ax, ay);
        }
    }
}

/// Wrap an angle within one turn of the principal range into `[0, TAU_MR)`.
pub fn wrap_full(a: i64) -> (r: i64)
    requires
        -TAU_MR < a < 2 * TAU_MR,
    ensures
        r == wrap_full_s(a as int),
        heading_wf(r as int),
{
    if a < 0 {
        a + TAU_MR
    } else if a >= TAU_MR {
        a - TAU_MR
    } else {
        a
    }
}

/// Wrap an angle in `(-TAU_MR, TAU_MR)` into `[-PI_MR, PI_MR]`.
pub fn wrap_signed(a: i64) -> (r: i64)
    requires
        -TAU_MR < a < TAU_MR,
    ensures
        r == wrap_signed_s(a as int),
        -PI_MR <= r <= PI_MR,
{
    if a > PI_MR {
        a - TAU_MR
    } else if a < -PI_MR {
        a + TAU_MR
    } else {
        a
    }
}

/// Fixed-point sine of a wrapped heading.
pub fn sin_mr(a: i64) -> (r: i64)
    requires
        heading_wf(a as int),
    ensures
        r == sin_mr_s(a as int),
        -FP <= r <= FP,
{
    proof {
        lemma_sin_bounds(a as int);
    }
    if a <= PI_MR {
        sin_half(a)
    } else {
        -sin_half(a - PI_MR)
    }
}

/// Fixed-point cosine of a wrapped heading.
pub fn cos_mr(a: i64) -> (r: i64)
    requires
        heading_wf(a as int),
    ensures
        r == cos_mr_s(a as int),
        -FP <= r <= FP,
{
    proof {
        lemma_cos_bounds(a as int);
    }
    let b = wrap_full(a + HALF_PI_MR);
    sin_mr(b)
}

fn sin_half(a: i64) -> (r: i64)
    requires
        0 <= a <= PI_MR,
    ensures
        r == sin_half_s(a as int),
        0 <= r <= FP,
{
    proof {
        lemma_sin_half_bounds(a as int);
        assert(0 <= (a as int) * (PI_MR - a as int) <= sq(PI_MR as int)) by (nonlinear_arith)
            requires
                0 <= a <= PI_MR,
        ;
    }
    let p: i64 = a * (PI_MR - a);
    let den: i64 = 5 * (PI_MR * PI_MR) - 4 * p;
    div64(16 * p * FP, den)
}

fn atan_ratio(p: i64, q: i64) -> (r: i64)
    requires
        0 <= p <= q,
        q > 0,
    ensures
        r == atan_ratio_s(p as int, q as int),
        0 <= r <= QPI_MR,
{
    proof {
        lemma_atan_ratio_bounds(p as int, q as int);
        assert(0 <= (p as int) * (FP as int) <= (q as int) * (FP as int)) by (nonlinear_arith)
            requires
                0 <= p <= q && FP > 0,
        ;
        lemma_div_t_le_bound((p as int) * (FP as int), q as int, FP as int);
    }
    let z: i64 = muldiv64(p, FP, q);
    proof {
        let zi = z as int;
        assert(0 <= zi * (QPI_MR * FP + ATAN_K * (FP - zi)) <= (FP * FP) * QPI_MR)
            by (nonlinear_arith)
            requires
                0 <= zi <= FP,
        ;
    }
    let num: i64 = z * (QPI_MR * FP + ATAN_K * (FP - z));
    div64(num, FP * FP)
}

/// The planar angle of the point `(x, y)` in milliradians.
pub fn atan2_mr(y: i64, x: i64) -> (r: i64)
    requires
        x > i64::MIN,
        y > i64::MIN,
    ensures
        r == atan2_s(y as int, x as int),
        -PI_MR <= r <= PI_MR,
{
    proof {
        lemma_atan2_bounds(y as int, x as int);
    }
    let ax = abs64(x);
    let ay = abs64(y);
    if ax == 0 && ay == 0 {
        0
    } else {
        let base: i64 = if ax >= ay {
            atan_ratio(ay, ax)
        } else {
            HALF_PI_MR - atan_ratio(ax, ay)
        };
        let m: i64 = if x >= 0 {
            base
        } else {
            PI_MR - base
        };
        if y >= 0 {
            m
        } else {
            -m
        }
    }
}

} // verus!
