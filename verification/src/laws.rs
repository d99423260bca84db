//! Cross-cutting guarantees of the simulation, stated and proved on
//! their own: the collision-cooldown window and projectile fuel
//! exhaustion, and the strict decay that makes dampened bodies
//! converge to rest.  The remaining headline guarantees live directly
//! in the contracts of the functions they concern: the motion
//! integrator's speed clamp and drag monotonicity, the collision
//! pair's energy cap and damage threshold, and the turret's fire
//! gating.

use vstd::prelude::*;
use crate::collision::pair_eligible;
use crate::entity::FUEL_LIMIT;
use crate::fixed::{FP, mag};
use crate::motion::{damp_comp_s, spent_fuel};
use crate::store::EntityStore;
use crate::timer::CountdownTimer;
use crate::vec2::norm_sq_s;

verus! {

/// Drag convergence: under a dampening factor strictly below one, a
/// nonzero velocity strictly loses squared speed every tick.  The
/// squared speed is a non-negative integer, so it reaches zero within
/// at most its own initial value in ticks — dampened bodies converge
/// to rest in bounded time.
pub proof fn lemma_drag_strictly_decays(x: int, y: int, f: int)
    requires
        0 <= f < FP,
        mag(x) <= crate::entity::VEL_LIMIT,
        mag(y) <= crate::entity::VEL_LIMIT,
        x != 0 || y != 0,
    ensures
        norm_sq_s(damp_comp_s(x, f), damp_comp_s(y, f)) < norm_sq_s(x, y),
{
    lemma_damp_comp_strict(x, f);
    lemma_damp_comp_strict(y, f);
    let dx = damp_comp_s(x, f);
    let dy = damp_comp_s(y, f);
    if x != 0 {
        assert(mag(dx) < mag(x));
        crate::fixed::lemma_norm_shrinks(dx, dy, x, y);
        assert(crate::fixed::sq(dx) < crate::fixed::sq(x)) by (nonlinear_arith)
            requires
                mag(dx) < mag(x),
        ;
        assert(crate::fixed::sq(dy) <= crate::fixed::sq(y)) by (nonlinear_arith)
            requires
                mag(dy) <= mag(y),
        ;
    } else {
        assert(dx == 0);
        assert(mag(dy) < mag(y));
        assert(crate::fixed::sq(dy) < crate::fixed::sq(y)) by (nonlinear_arith)
            requires
                mag(dy) < mag(y),
        ;
        assert(crate::fixed::sq(dx) <= crate::fixed::sq(x)) by (nonlinear_arith)
            requires
                mag(dx) <= mag(x),
        ;
    }
}

/// One dampened coordinate strictly shrinks while nonzero, and zero
/// stays zero.
proof fn lemma_damp_comp_strict(v: int, f: int)
    requires
        0 <= f < FP,
        mag(v) <= crate::entity::VEL_LIMIT,
    ensures
        v != 0 ==> mag(damp_comp_s(v, f)) < mag(v),
        v == 0 ==> damp_comp_s(v, f) == 0,
        mag(damp_comp_s(v, f)) <= mag(v),
{
    crate::fixed::lemma_damp_shrinks(v, f, FP as int);
    crate::fixed::lemma_div_t_mag(v * f, FP as int);
    crate::fixed::lemma_mag_mul(v, f);
    if v == 0 {
        assert(v * f == 0) by (nonlinear_arith)
            requires
                v == 0,
        ;
    } else {
        assert(mag(v) * f < mag(v) * FP) by (nonlinear_arith)
            requires
                mag(v) >= 1 && 0 <= f < FP,
        ;
        assert((mag(v) * f) / (FP as int) < mag(v)) by {
            vstd::arithmetic::div_mod::lemma_multiply_divide_lt(mag(v) * f, mag(v), FP as int);
        }
    }
}

/// Collision cooldown idempotence, part one: an entity whose collision
/// cooldown is still running takes part in no pair this tick — it is
/// excluded from detection entirely, not merely exempted from damage.
pub proof fn lemma_cooldown_gates_collision(s: EntityStore, i: int, j: int)
    requires
        0 <= i < s.entities.len(),
        !s.entities[i].collision_cooldown.spec_expired(),
    ensures
        !pair_eligible(s, i, j),
        !pair_eligible(s, j, i),
{
}

/// Collision cooldown idempotence, part two: the cooldown written at
/// resolution keeps the entity out of detection for the whole
/// configured window — a freshly reset timer is still running after
/// any tick shorter than its duration.  With part one, two solids
/// that stay overlapping across consecutive ticks produce at most one
/// collision per cooldown window, not one per tick.
pub proof fn lemma_cooldown_window_holds(t: CountdownTimer, dt: int)
    requires
        t.wf(),
        t.remaining == t.duration,
        0 <= dt < t.duration,
    ensures
        t.spec_after_tick(dt) > 0,
{
    crate::timer::lemma_reset_holds_until_elapsed(t, dt);
}

/// The fuel of a projectile after `n` ticks of burn.
pub open spec fn fuel_after(f: int, per: int, n: nat) -> int
    decreases n,
{
    if n == 0 {
        f
    } else {
        spent_fuel(fuel_after(f, per, (n - 1) as nat), per)
    }
}

/// While no saturation is reached, burning is plain subtraction.
proof fn lemma_fuel_linear(f: int, per: int, n: nat, m: nat)
    requires
        f == n * per,
        0 < per <= FUEL_LIMIT,
        m <= n,
        f <= FUEL_LIMIT,
    ensures
        fuel_after(f, per, m) == f - m * per,
    decreases m,
{
    if m > 0 {
        lemma_fuel_linear(f, per, n, (m - 1) as nat);
        assert(fuel_after(f, per, m) == spent_fuel(fuel_after(f, per, (m - 1) as nat), per));
        assert(fuel_after(f, per, (m - 1) as nat) == f - ((m - 1) as nat) * per);
        assert(f - ((m - 1) as nat) * per - per == f - m * per) by (nonlinear_arith)
            requires
                m >= 1,
        ;
        assert(f - m * per >= 0) by (nonlinear_arith)
            requires
                f == n * per && per > 0 && m <= n,
        ;
        assert(spent_fuel(f - ((m - 1) as nat) * per, per) == f - m * per);
    } else {
        assert(m * per == 0) by (nonlinear_arith)
            requires
                m == 0,
        ;
    }
}

/// Fuel exhaustion: a projectile whose fuel is an exact multiple
/// `n * per` of the per-tick burn still has fuel before each of its
/// first `n - 1` ticks' ends, and hits exactly zero — and so despawns
/// — at tick `n`, not before and not after.
pub proof fn lemma_fuel_exhaustion(f: int, per: int, n: nat)
    requires
        f == n * per,
        n >= 1,
        0 < per <= FUEL_LIMIT,
        f <= FUEL_LIMIT,
    ensures
        forall|m: nat| m < n ==> #[trigger] fuel_after(f, per, m as nat) > 0,
        fuel_after(f, per, n) == 0,
{
    lemma_fuel_linear(f, per, n, n);
    assert(f - n * per == 0) by (nonlinear_arith)
        requires
            f == n * per,
    ;
    assert forall|m: nat| m < n implies #[trigger] fuel_after(f, per, m as nat) > 0 by {
        lemma_fuel_linear(f, per, n, m);
        assert(f - m * per >= per) by (nonlinear_arith)
            requires
                f == n * per && per > 0 && m < n,
        ;
    }
}

} // verus!
