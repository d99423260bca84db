//! Fixed-point scalar arithmetic.
//!
//! Every physical quantity in the simulation is an `i64` holding a
//! fixed-point number with three decimal places: the constant [`FP`] is
//! the representation of 1.0.  Division in this module truncates toward
//! zero, like Rust's `/` on primitive integers; the spec function
//! [`div_t`] gives that meaning to the contracts.

use vstd::prelude::*;

verus! {

/// The fixed-point unit: the representation of 1.0.
pub const FP: i64 = 1000;

/// Magnitude (absolute value) of a mathematical integer.
pub open spec fn mag(a: int) -> int {
    if a >= 0 {
        a
    } else {
        -a
    }
}

/// Square of a mathematical integer.
pub open spec fn sq(a: int) -> int {
    a * a
}

/// Division truncating toward zero, the semantics of `/` on Rust's
/// signed integers, defined for positive divisors.
pub open spec fn div_t(a: int, b: int) -> int
    recommends
        b > 0,
{
    if a >= 0 {
        a / b
    } else {
        -((-a) / b)
    }
}

/// `a * b / c` with the division truncating toward zero.
pub open spec fn muldiv_t(a: int, b: int, c: int) -> int
    recommends
        c > 0,
{
    div_t(a * b, c)
}

/// Clamp into the inclusive interval `[lo, hi]`.
pub open spec fn clamp_s(a: int, lo: int, hi: int) -> int
    recommends
        lo <= hi,
{
    if a < lo {
        lo
    } else if a > hi {
        hi
    } else {
        a
    }
}

/// The integer square root, rounded down.
pub open spec fn sqrt_floor(n: nat) -> nat
    decreases n,
{
    if n == 0 {
        0
    } else {
        let r = sqrt_floor((n - 1) as nat);
        if sq(r as int + 1) <= n {
            (r + 1) as nat
        } else {
            r
        }
    }
}

/// The integer square root, rounded up.
pub open spec fn sqrt_ceil(n: nat) -> nat {
    if sq(sqrt_floor(n) as int) == n {
        sqrt_floor(n)
    } else {
        (sqrt_floor(n) + 1) as nat
    }
}

pub proof fn lemma_sq_monotone(x: int, y: int)
    by (nonlinear_arith)
    requires
        0 <= x <= y,
    ensures
        sq(x) <= sq(y),
{
}

/// `sqrt_floor(n)` is bracketed by the two neighbouring squares.
pub proof fn lemma_sqrt_floor_bounds(n: nat)
    ensures
        sq(sqrt_floor(n) as int) <= n,
        n < sq(sqrt_floor(n) as int + 1),
    decreases n,
{
    if n == 0 {
        assert(sqrt_floor(0) == 0);
        assert(sq(0) == 0);
        assert(sq(1) == 1);
    } else {
        lemma_sqrt_floor_bounds((n - 1) as nat);
        let r = sqrt_floor((n - 1) as nat) as int;
        if sq(r + 1) <= n {
            assert(sqrt_floor(n) == r + 1);
            assert(n - 1 < sq(r + 1));
            assert(sq(r + 1) < sq(r + 2)) by (nonlinear_arith)
                requires
                    r >= 0,
            ;
            assert(sq(sqrt_floor(n) as int) <= n);
            assert(n < sq(sqrt_floor(n) as int + 1));
        } else {
            assert(sqrt_floor(n) == r);
            assert(sq(r) <= n - 1 <= n);
            assert(sq(sqrt_floor(n) as int) <= n);
            assert(n < sq(sqrt_floor(n) as int + 1));
        }
    }
}

/// Any integer bracketed by the neighbouring squares of `n` is `sqrt_floor(n)`.
pub proof fn lemma_sqrt_floor_unique(n: nat, r: nat)
    requires
        sq(r as int) <= n,
        n < sq(r as int + 1),
    ensures
        r == sqrt_floor(n),
{
    lemma_sqrt_floor_bounds(n);
    let s = sqrt_floor(n);
    if r < s {
        lemma_sq_monotone(r as int + 1, s as int);
        assert(sq(s as int) <= n);
        assert(false);
    }
    if s < r {
        lemma_sq_monotone(s as int + 1, r as int);
        assert(false);
    }
}

/// Magnitude of a product is the product of the magnitudes.
pub proof fn lemma_mag_mul(a: int, b: int)
    by (nonlinear_arith)
    ensures
        mag(a * b) == mag(a) * mag(b),
{
}

/// Magnitude of a truncating quotient, exactly.
pub proof fn lemma_div_t_mag(a: int, c: int)
    requires
        c > 0,
    ensures
        mag(div_t(a, c)) == mag(a) / c,
        a >= 0 ==> div_t(a, c) >= 0,
        a <= 0 ==> div_t(a, c) <= 0,
{
    if a >= 0 {
        vstd::arithmetic::div_mod::lemma_div_basics(c);
        assert(a / c >= 0) by (nonlinear_arith)
            requires
                a >= 0 && c > 0,
        ;
    } else {
        assert((-a) / c >= 0) by (nonlinear_arith)
            requires
                a < 0 && c > 0,
        ;
    }
}

/// Dividing by at least one does not increase the magnitude.
pub proof fn lemma_div_t_shrinks(a: int, c: int)
    requires
        c >= 1,
    ensures
        mag(div_t(a, c)) <= mag(a),
{
    lemma_div_t_mag(a, c);
    assert(mag(a) / c <= mag(a)) by (nonlinear_arith)
        requires
            c >= 1 && mag(a) >= 0,
    ;
}

/// The square of a truncating quotient, scaled back up by the square of
/// the divisor, is at most the square of the dividend.
pub proof fn lemma_div_t_sq(a: int, n: int)
    requires
        n > 0,
    ensures
        sq(div_t(a, n)) * sq(n) <= sq(a),
{
    lemma_div_t_mag(a, n);
    let d = div_t(a, n);
    let q = mag(d);
    assert(q * n <= mag(a)) by (nonlinear_arith)
        requires
            n > 0 && q == mag(a) / n && mag(a) >= 0,
    ;
    assert(sq(q) * sq(n) <= sq(mag(a))) by (nonlinear_arith)
        requires
            q >= 0 && n > 0 && mag(a) >= 0 && q * n <= mag(a),
    ;
    assert(sq(q) == sq(d)) by (nonlinear_arith)
        requires
            q == d || q == -d,
    ;
    assert(sq(mag(a)) == sq(a)) by (nonlinear_arith)
        requires
            mag(a) == a || mag(a) == -a,
    ;
}

/// Rescaling a vector by `m / n` where `n` bounds its length keeps the
/// length at most `m`: the heart of every speed clamp in the simulation.
pub proof fn lemma_scale_cap(x: int, y: int, m: int, n: int)
    requires
        n > 0,
        m >= 0,
        sq(x) + sq(y) <= sq(n),
    ensures
        sq(div_t(x * m, n)) + sq(div_t(y * m, n)) <= sq(m),
{
    lemma_div_t_sq(x * m, n);
    lemma_div_t_sq(y * m, n);
    assert(sq(x * m) + sq(y * m) <= sq(m) * sq(n)) by (nonlinear_arith)
        requires
            sq(x) + sq(y) <= sq(n),
    ;
    let tx = div_t(x * m, n);
    let ty = div_t(y * m, n);
    assert((sq(tx) + sq(ty)) * sq(n) <= sq(m) * sq(n)) by (nonlinear_arith)
        requires
            sq(tx) * sq(n) <= sq(x * m) && sq(ty) * sq(n) <= sq(y * m) && sq(x * m) + sq(y * m)
                <= sq(m) * sq(n),
    ;
    assert(sq(n) > 0) by (nonlinear_arith)
        requires
            n > 0,
    ;
    assert(sq(tx) + sq(ty) <= sq(m)) by (nonlinear_arith)
        requires
            sq(n) > 0 && (sq(tx) + sq(ty)) * sq(n) <= sq(m) * sq(n),
    ;
}

/// Shrinking both coordinates shrinks the squared length.
pub proof fn lemma_norm_shrinks(x1: int, y1: int, x2: int, y2: int)
    by (nonlinear_arith)
    requires
        mag(x1) <= mag(x2),
        mag(y1) <= mag(y2),
    ensures
        sq(x1) + sq(y1) <= sq(x2) + sq(y2),
{
}

/// Multiplying by a factor of at most one (in fixed point) does not
/// increase the magnitude.
pub proof fn lemma_damp_shrinks(v: int, f: int, s: int)
    requires
        s > 0,
        0 <= f <= s,
    ensures
        mag(div_t(v * f, s)) <= mag(v),
{
    lemma_div_t_mag(v * f, s);
    lemma_mag_mul(v, f);
    assert((mag(v) * f) / s <= mag(v)) by (nonlinear_arith)
        requires
            s > 0 && 0 <= f <= s && mag(v) >= 0,
    ;
}

/// Magnitude bound of `a * b / c` from magnitude bounds of the factors.
pub proof fn lemma_muldiv_mag(a: int, b: int, c: int, aa: int, bb: int)
    requires
        c >= 1,
        mag(a) <= aa,
        mag(b) <= bb,
    ensures
        mag(muldiv_t(a, b, c)) <= aa * bb,
        mag(muldiv_t(a, b, c)) <= (aa * bb) / c,
        -(aa * bb) <= muldiv_t(a, b, c) <= aa * bb,
{
    lemma_mag_mul(a, b);
    assert(mag(a) * mag(b) <= aa * bb) by (nonlinear_arith)
        requires
            0 <= mag(a) <= aa && 0 <= mag(b) <= bb,
    ;
    lemma_div_t_shrinks(a * b, c);
    lemma_div_t_mag(a * b, c);
    vstd::arithmetic::div_mod::lemma_div_is_ordered(mag(a * b), aa * bb, c);
}

/// Magnitude bound of a product from magnitude bounds of the factors.
pub proof fn lemma_mul_mag_le(a: int, b: int, aa: int, bb: int)
    by (nonlinear_arith)
    requires
        mag(a) <= aa,
        mag(b) <= bb,
    ensures
        mag(a * b) <= aa * bb,
        -(aa * bb) <= a * b <= aa * bb,
{
}

/// Scaling by a ratio whose numerator magnitude is bounded by the
/// denominator does not increase the magnitude.
pub proof fn lemma_scale_le(a: int, b: int, c: int)
    requires
        c > 0,
        mag(b) <= c,
    ensures
        mag(div_t(a * b, c)) <= mag(a),
{
    lemma_mag_mul(a, b);
    lemma_div_t_mag(a * b, c);
    assert(mag(a) * mag(b) <= mag(a) * c) by (nonlinear_arith)
        requires
            0 <= mag(b) <= c && mag(a) >= 0,
    ;
    vstd::arithmetic::div_mod::lemma_div_is_ordered(mag(a) * mag(b), mag(a) * c, c);
    vstd::arithmetic::div_mod::lemma_div_multiples_vanish(mag(a), c);
}

/// A component of a vector no longer than `d`, rescaled by `f / d`,
/// has magnitude at most `f`.
pub proof fn lemma_unit_comp(x: int, d: int, f: int)
    requires
        d > 0,
        mag(x) <= d,
        f >= 0,
    ensures
        mag(div_t(x * f, d)) <= f,
{
    lemma_mag_mul(x, f);
    lemma_div_t_mag(x * f, d);
    assert(mag(x) * f <= d * f) by (nonlinear_arith)
        requires
            0 <= mag(x) <= d && f >= 0,
    ;
    vstd::arithmetic::div_mod::lemma_div_is_ordered(mag(x) * f, d * f, d);
    assert((d * f) / d == f) by {
        vstd::arithmetic::div_mod::lemma_div_multiples_vanish(f, d);
    }
}

/// Absolute value.
pub fn abs64(a: i64) -> (r: i64)
    requires
        a > i64::MIN,
    ensures
        r == mag(a as int),
{
    if a >= 0 {
        a
    } else {
        -a
    }
}

/// Truncating division of `i64` values, implemented over the unsigned
/// quotient so the contract matches [`div_t`] exactly.
pub fn div64(a: i64, b: i64) -> (r: i64)
    requires
        b > 0,
        a > i64::MIN,
    ensures
        r == div_t(a as int, b as int),
{
    if a >= 0 {
        ((a as u64) / (b as u64)) as i64
    } else {
        let q: u64 = ((-a) as u64) / (b as u64);
        -(q as i64)
    }
}

/// Truncating division of `i128` values.
pub fn div128(a: i128, b: i128) -> (r: i128)
    requires
        b > 0,
        a > i128::MIN,
    ensures
        r == div_t(a as int, b as int),
{
    if a >= 0 {
        ((a as u128) / (b as u128)) as i128
    } else {
        let q: u128 = ((-a) as u128) / (b as u128);
        -(q as i128)
    }
}

/// `a * b / c` over `i64` with the product taken exactly in `i128`.
pub fn muldiv64(a: i64, b: i64, c: i64) -> (r: i64)
    requires
        c > 0,
        -i64::MAX <= muldiv_t(a as int, b as int, c as int) <= i64::MAX,
    ensures
        r == muldiv_t(a as int, b as int, c as int),
{
    proof {
        assert(-0x4000_0000_0000_0000_0000_0000_0000_0000 <= (a as int) * (b as int)
            <= 0x4000_0000_0000_0000_0000_0000_0000_0000) by (nonlinear_arith)
            requires
                i64::MIN <= a <= i64::MAX && i64::MIN <= b <= i64::MAX,
        ;
    }
    let p: i128 = (a as i128) * (b as i128);
    let q: i128 = div128(p, c as i128);
    q as i64
}

/// Clamp into the inclusive interval `[lo, hi]`.
pub fn clamp64(a: i64, lo: i64, hi: i64) -> (r: i64)
    requires
        lo <= hi,
    ensures
        r == clamp_s(a as int, lo as int, hi as int),
        lo <= r <= hi,
{
    if a < lo {
        lo
    } else if a > hi {
        hi
    } else {
        a
    }
}

/// Integer square root of a `u128`, rounded down.
pub fn isqrt(n: u128) -> (r: u64)
    requires
        n < (u64::MAX as int) * (u64::MAX as int),
    ensures
        r == sqrt_floor(n as nat),
        sq(r as int) <= n,
        n < sq(r as int + 1),
{
    let mut lo: u64 = 0;
    let mut hi: u64 = u64::MAX;
    while lo + 1 < hi
        invariant
            lo < hi,
            sq(lo as int) <= n,
            n < sq(hi as int),
        decreases hi - lo,
    {
        let mid: u64 = lo + (hi - lo) / 2;
        proof {
            assert(0 <= (mid as int) * (mid as int) < 0x1_0000_0000_0000_0000_0000_0000_0000_0000)
                by (nonlinear_arith)
                requires
                    0 <= mid <= u64::MAX,
            ;
        }
        if (mid as u128) * (mid as u128) <= n {
            lo = mid;
        } else {
            hi = mid;
        }
    }
    proof {
        lemma_sqrt_floor_unique(n as nat, lo as nat);
    }
    lo
}

/// Integer square root of a `u128`, rounded up.
pub fn isqrt_ceil(n: u128) -> (r: u64)
    requires
        n < (u64::MAX as int) * (u64::MAX as int),
    ensures
        r == sqrt_ceil(n as nat),
        n <= sq(r as int),
        sq(r as int) <= n + 2 * sqrt_floor(n as nat) + 1,
{
    let r0: u64 = isqrt(n);
    proof {
        lemma_sqrt_floor_bounds(n as nat);
        assert(sq(r0 as int + 1) == sq(r0 as int) + 2 * (r0 as int) + 1) by (nonlinear_arith);
        if sq(r0 as int) != n {
            assert(r0 < u64::MAX) by {
                if r0 == u64::MAX {
                    assert(sq(r0 as int) >= (u64::MAX as int) * (u64::MAX as int))
                        by (nonlinear_arith)
                        requires
                            r0 == u64::MAX,
                    ;
                    assert(false);
                }
            }
        }
    }
    if (r0 as u128) * (r0 as u128) == n {
        r0
    } else {
        r0 + 1
    }
}

} // verus!
