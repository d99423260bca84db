//! Planar vectors in fixed-point coordinates.

use vstd::prelude::*;
use crate::fixed::{
    clamp_s, div_t, mag, muldiv_t, sq, sqrt_ceil, sqrt_floor, clamp64, isqrt, isqrt_ceil,
    lemma_div_t_mag, lemma_mag_mul, lemma_norm_shrinks, lemma_scale_cap, lemma_sq_monotone,
    lemma_sqrt_floor_bounds, muldiv64,
};

verus! {

/// Coordinates this large can be added, multiplied pairwise and summed
/// without ever leaving `i128`; every vector the simulation handles
/// stays far below it.
pub const COORD_LIMIT: i64 = 0x1000_0000_0000_0000;

/// A 2D vector of fixed-point scalars.
#[derive(Clone, Copy, PartialEq, Eq, Structural, Debug)]
pub struct Vec2 {
    pub x: i64,
    pub y: i64,
}

/// Squared Euclidean length.
pub open spec fn norm_sq_s(x: int, y: int) -> int {
    sq(x) + sq(y)
}

/// The meaning of [`Vec2::clamp_len`]: unchanged under the cap, else
/// rescaled onto it against the rounded-up length.
pub open spec fn clamp_len_s(x: int, y: int, m: int) -> (int, int) {
    if norm_sq_s(x, y) <= sq(m) {
        (x, y)
    } else {
        let cn = sqrt_ceil(norm_sq_s(x, y) as nat) as int;
        (muldiv_t(x, m, cn), muldiv_t(y, m, cn))
    }
}

impl Vec2 {
    /// Both coordinates have magnitude at most `b`.
    pub open spec fn in_bounds(self, b: int) -> bool {
        mag(self.x as int) <= b && mag(self.y as int) <= b
    }

    /// Squared Euclidean length of this vector.
    pub open spec fn norm_sq(self) -> int {
        norm_sq_s(self.x as int, self.y as int)
    }

    /// Euclidean length, rounded down.
    pub open spec fn norm(self) -> int {
        sqrt_floor(self.norm_sq() as nat) as int
    }

    pub fn zero() -> (r: Vec2)
        ensures
            r.x == 0 && r.y == 0,
    {
        Vec2 { x: 0, y: 0 }
    }

    pub fn new(x: i64, y: i64) -> (r: Vec2)
        ensures
            r.x == x && r.y == y,
    {
        Vec2 { x, y }
    }

    pub fn add(self, o: Vec2) -> (r: Vec2)
        requires
            -i64::MAX <= self.x + o.x <= i64::MAX,
            -i64::MAX <= self.y + o.y <= i64::MAX,
        ensures
            r.x == self.x + o.x,
            r.y == self.y + o.y,
    {
        Vec2 { x: self.x + o.x, y: self.y + o.y }
    }

    pub fn sub(self, o: Vec2) -> (r: Vec2)
        requires
            -i64::MAX <= self.x - o.x <= i64::MAX,
            -i64::MAX <= self.y - o.y <= i64::MAX,
        ensures
            r.x == self.x - o.x,
            r.y == self.y - o.y,
    {
        Vec2 { x: self.x - o.x, y: self.y - o.y }
    }

    pub fn neg(self) -> (r: Vec2)
        requires
            self.x > i64::MIN,
            self.y > i64::MIN,
        ensures
            r.x == -self.x,
            r.y == -self.y,
    {
        Vec2 { x: -self.x, y: -self.y }
    }

    /// Multiply both coordinates by the fixed-point ratio `m / c`.
    pub fn scale_div(self, m: i64, c: i64) -> (r: Vec2)
        requires
            c > 0,
            -i64::MAX <= muldiv_t(self.x as int, m as int, c as int) <= i64::MAX,
            -i64::MAX <= muldiv_t(self.y as int, m as int, c as int) <= i64::MAX,
        ensures
            r.x == muldiv_t(self.x as int, m as int, c as int),
            r.y == muldiv_t(self.y as int, m as int, c as int),
    {
        Vec2 { x: muldiv64(self.x, m, c), y: muldiv64(self.y, m, c) }
    }

    /// Clamp both coordinates into `[-b, b]`.
    pub fn clamp_box(self, b: i64) -> (r: Vec2)
        requires
            b >= 0,
        ensures
            r.x == clamp_s(self.x as int, -b as int, b as int),
            r.y == clamp_s(self.y as int, -b as int, b as int),
            r.in_bounds(b as int),
            r.norm_sq() <= self.norm_sq(),
            self.in_bounds(b as int) ==> r == self,
    {
        let r = Vec2 { x: clamp64(self.x, -b, b), y: clamp64(self.y, -b, b) };
        proof {
            lemma_norm_shrinks(r.x as int, r.y as int, self.x as int, self.y as int);
        }
        r
    }

    /// Dot product, exact in `i128`.
    pub fn dot(self, o: Vec2) -> (r: i128)
        requires
            self.in_bounds(COORD_LIMIT as int),
            o.in_bounds(COORD_LIMIT as int),
        ensures
            r == self.x * o.x + self.y * o.y,
    {
        proof {
            lemma_dot_in_range(self.x as int, self.y as int, o.x as int, o.y as int);
        }
        (self.x as i128) * (o.x as i128) + (self.y as i128) * (o.y as i128)
    }

    /// Squared length, exact in `i128`.
    pub fn norm_sq_exec(self) -> (r: i128)
        requires
            self.in_bounds(COORD_LIMIT as int),
        ensures
            r == self.norm_sq(),
            r >= 0,
    {
        let r = self.dot(self);
        proof {
            lemma_norm_sq_nonneg(self.x as int, self.y as int);
        }
        r
    }

    /// Length, rounded down.
    pub fn norm_exec(self) -> (r: i64)
        requires
            self.in_bounds(COORD_LIMIT as int),
        ensures
            r == self.norm(),
            0 <= r <= 2 * COORD_LIMIT,
            sq(r as int) <= self.norm_sq() < sq(r as int + 1),
    {
        let n2 = self.norm_sq_exec();
        proof {
            lemma_norm_sq_le(self.x as int, self.y as int, COORD_LIMIT as int);
            lemma_sqrt_floor_bounds(self.norm_sq() as nat);
            lemma_norm_le_root(self.norm_sq() as nat, 2 * COORD_LIMIT);
        }
        isqrt(n2 as u128) as i64
    }

    /// Length, rounded up.
    pub fn norm_ceil_exec(self) -> (r: i64)
        requires
            self.in_bounds(COORD_LIMIT as int),
        ensures
            r == sqrt_ceil(self.norm_sq() as nat),
            0 <= r <= 2 * COORD_LIMIT + 1,
            self.norm_sq() <= sq(r as int),
    {
        let n2 = self.norm_sq_exec();
        proof {
            lemma_norm_sq_le(self.x as int, self.y as int, COORD_LIMIT as int);
            lemma_sqrt_floor_bounds(self.norm_sq() as nat);
            lemma_norm_le_root(self.norm_sq() as nat, 2 * COORD_LIMIT);
        }
        isqrt_ceil(n2 as u128) as i64
    }

    /// Cap the Euclidean length at `max`: vectors no longer than `max`
    /// pass through unchanged, longer ones are rescaled onto the cap.
    pub fn clamp_len(self, max: i64) -> (r: Vec2)
        requires
            0 <= max <= COORD_LIMIT,
            self.in_bounds(COORD_LIMIT as int),
        ensures
            r.norm_sq() <= sq(max as int),
            r.norm_sq() <= self.norm_sq(),
            self.norm_sq() <= sq(max as int) ==> r == self,
            r.in_bounds(max as int),
            (r.x as int, r.y as int) == clamp_len_s(self.x as int, self.y as int, max as int),
    {
        let n2 = self.norm_sq_exec();
        proof {
            lemma_sq_in_range(max as int);
        }
        if n2 <= (max as i128) * (max as i128) {
            proof {
                lemma_box_from_norm(self.x as int, self.y as int, max as int);
            }
            self
        } else {
            let cn = self.norm_ceil_exec();
            proof {
                assert(sq(max as int) >= 0) by (nonlinear_arith);
                if cn == 0 {
                    assert(self.norm_sq() <= sq(cn as int));
                    assert(sq(0int) == 0) by (nonlinear_arith);
                    assert(false);
                }
                if cn < max {
                    lemma_sq_monotone(cn as int, max as int);
                    assert(false);
                }
                lemma_scale_cap(self.x as int, self.y as int, max as int, cn as int);
            }
            let r = Vec2 { x: muldiv64_shrink(self.x, max, cn), y: muldiv64_shrink(self.y, max, cn) };
            proof {
                lemma_box_from_norm(r.x as int, r.y as int, max as int);
            }
            r
        }
    }
}

/// `a * b / c` where the quotient magnitude cannot exceed `mag(a)`,
/// because `0 <= b <= c`.
pub fn muldiv64_shrink(a: i64, b: i64, c: i64) -> (r: i64)
    requires
        c > 0,
        0 <= b <= c,
        a > i64::MIN,
    ensures
        r == muldiv_t(a as int, b as int, c as int),
        mag(r as int) <= mag(a as int),
{
    proof {
        crate::fixed::lemma_damp_shrinks(a as int, b as int, c as int);
    }
    muldiv64(a, b, c)
}

proof fn lemma_dot_in_range(ax: int, ay: int, bx: int, by: int)
    by (nonlinear_arith)
    requires
        mag(ax) <= COORD_LIMIT as int,
        mag(ay) <= COORD_LIMIT as int,
        mag(bx) <= COORD_LIMIT as int,
        mag(by) <= COORD_LIMIT as int,
    ensures
        -0x4000_0000_0000_0000_0000_0000_0000_0000 <= ax * bx <= 0x4000_0000_0000_0000_0000_0000_0000_0000,
        -0x4000_0000_0000_0000_0000_0000_0000_0000 <= ay * by <= 0x4000_0000_0000_0000_0000_0000_0000_0000,
        i128::MIN <= ax * bx + ay * by <= i128::MAX,
{
}

proof fn lemma_norm_sq_nonneg(x: int, y: int)
    by (nonlinear_arith)
    ensures
        norm_sq_s(x, y) >= 0,
        sq(x) <= norm_sq_s(x, y),
        sq(y) <= norm_sq_s(x, y),
{
}

/// The squared length of a vector within the coordinate box.
proof fn lemma_norm_sq_le(x: int, y: int, b: int)
    by (nonlinear_arith)
    requires
        mag(x) <= b,
        mag(y) <= b,
        b >= 0,
    ensures
        norm_sq_s(x, y) <= 2 * sq(b),
        2 * sq(b) < sq(2 * b + 1),
{
}

/// A square root of something at most `2 * b * b` is at most `2 * b`... more
/// precisely, bounded by the bracketing of `sqrt_floor`.
proof fn lemma_norm_le_root(n: nat, b: int)
    requires
        0 <= b,
        b + 1 <= 0xffff_ffff_ffff_ffff,
        n < sq(b + 1),
    ensures
        sqrt_floor(n) <= b,
        sqrt_ceil(n) <= b + 1,
        n < (u64::MAX as int) * (u64::MAX as int),
{
    lemma_sqrt_floor_bounds(n);
    if sqrt_floor(n) > b {
        lemma_sq_monotone(b + 1, sqrt_floor(n) as int);
        assert(false);
    }
    lemma_sq_monotone(b + 1, 0xffff_ffff_ffff_ffff);
    assert(sq(0xffff_ffff_ffff_ffffint) < (u64::MAX as int) * (u64::MAX as int) + 1);
}

/// `norm_sq <= max * max` pins each coordinate into the `max` box.
pub proof fn lemma_box_from_norm(x: int, y: int, b: int)
    requires
        b >= 0,
        norm_sq_s(x, y) <= sq(b),
    ensures
        mag(x) <= b,
        mag(y) <= b,
{
    lemma_norm_sq_nonneg(x, y);
    if mag(x) > b {
        assert(sq(x) > sq(b)) by (nonlinear_arith)
            requires
                mag(x) > b >= 0,
        ;
        assert(false);
    }
    if mag(y) > b {
        assert(sq(y) > sq(b)) by (nonlinear_arith)
            requires
                mag(y) > b >= 0,
        ;
        assert(false);
    }
}

proof fn lemma_sq_in_range(m: int)
    by (nonlinear_arith)
    requires
        0 <= m <= COORD_LIMIT as int,
    ensures
        sq(m) <= i128::MAX,
{
}

} // verus!
