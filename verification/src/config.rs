//! The simulation's tunables, gathered in one immutable configuration
//! value threaded into every component.
//!
//! All values are fixed point with three decimal places.  Speeds are in
//! world units per second, distances in world units, times in seconds,
//! masses in kilograms, energies in joules.

use vstd::prelude::*;
use crate::angle::PI_MR;
use crate::fixed::FP;
use crate::timer::DURATION_LIMIT;

verus! {

/// Upper bound on any configured speed.
pub const SPEED_LIMIT: i64 = 10_000_000;

/// Upper bound on any configured distance threshold.
pub const RANGE_LIMIT: i64 = 1_000_000_000;

/// Upper bound on a thruster force.
pub const FORCE_LIMIT: i64 = 100_000_000_000;

/// Upper bound on the absorbed-energy damage threshold.
pub const ENERGY_THRESHOLD_LIMIT: i64 = 1_000_000_000_000;

/// Upper bound on a single tick's time step: ten seconds.
pub const DT_LIMIT: i64 = 10_000;

#[derive(Clone, Copy, PartialEq, Eq, Structural, Debug)]
pub struct SimConfig {
    /// Hard ceiling on speed, enforced by the motion integrator each tick.
    pub max_speed: i64,
    /// Ceiling applied by AI thrusting (ships may briefly move faster
    /// than the integrator's ceiling right after thrust).
    pub ai_max_speed: i64,
    /// Ceiling for guided missiles, below `ai_max_speed`.
    pub missile_max_speed: i64,
    /// Ceiling for the mine layer's slow cruise.
    pub minelayer_max_speed: i64,
    /// Global dampening factor, as a fraction of `FP`, for entities
    /// that drift rather than decay.
    pub dampening_factor: i64,
    /// Below this speed, drifting entities are no longer dampened.
    pub drift_floor: i64,
    /// Restitution coefficient of collisions, a fraction of `FP` in `(0, FP]`.
    pub restitution: i64,
    /// Small separating nudge applied along the line of impact.
    pub repulsion: i64,
    /// Fraction of `FP` converting absorbed kinetic energy to damage.
    pub ke_to_dmg: i64,
    /// Absorbed kinetic energy below this threshold causes no damage.
    pub damage_threshold: i64,
    /// Tiny slack above the post-collision speed cap, letting
    /// stationary overlapping bodies de-tangle.
    pub cap_epsilon: i64,
    /// Conversion from world speed units to screen translation units.
    pub ms_to_ps: i64,
    /// How far in front of a ship's nose projectiles spawn.
    pub forward_offset: i64,
    /// Collision radius of plain projectiles.
    pub projectile_radius: i64,
    /// Fuel spent by a projectile or missile each tick.
    pub fuel_per_tick: i64,
    /// Cooldown written into a collision cooldown timer on resolution.
    pub collision_cooldown: i64,
    /// Angular tolerance within which the turret fires.
    pub turret_tolerance: i64,
    /// Angular tolerance within which the rammer charges.
    pub rammer_tolerance: i64,
    /// Thrust multiplier of the rammer's charge.
    pub rammer_boost: i64,
    /// Beyond this distance the speedy archetype approaches the player.
    pub speedy_far_range: i64,
    /// Beyond this distance the drone approaches rather than fires.
    pub drone_near_range: i64,
    /// Beyond this distance the rammer approaches rather than charges.
    pub rammer_near_range: i64,
    /// Within this distance the picket retreats from the player.
    pub picket_range: i64,
    /// Blast radius of a detonating guided missile.
    pub explosion_radius: i64,
    /// Damage dealt to every solid body inside the blast radius.
    pub explosion_damage: i64,
}

impl SimConfig {
    /// Every tunable sits in the range the physics proofs rely on.
    pub open spec fn wf(self) -> bool {
        &&& 0 < self.max_speed <= SPEED_LIMIT
        &&& 0 < self.ai_max_speed <= SPEED_LIMIT
        &&& 0 < self.missile_max_speed <= SPEED_LIMIT
        &&& 0 < self.minelayer_max_speed <= SPEED_LIMIT
        &&& 0 <= self.dampening_factor <= FP
        &&& 0 <= self.drift_floor <= SPEED_LIMIT
        &&& 0 < self.restitution <= FP
        &&& 0 <= self.repulsion <= SPEED_LIMIT
        &&& 0 <= self.ke_to_dmg <= FP
        &&& 0 <= self.damage_threshold <= ENERGY_THRESHOLD_LIMIT
        &&& 0 <= self.cap_epsilon <= FP
        &&& 0 < self.ms_to_ps <= 100 * FP
        &&& 0 <= self.forward_offset <= RANGE_LIMIT
        &&& 0 <= self.projectile_radius <= RANGE_LIMIT
        &&& 0 < self.fuel_per_tick <= 1000 * FP
        &&& 0 <= self.collision_cooldown <= DURATION_LIMIT
        &&& 0 <= self.turret_tolerance <= PI_MR
        &&& 0 <= self.rammer_tolerance <= PI_MR
        &&& 1 <= self.rammer_boost <= 1000
        &&& 0 <= self.speedy_far_range <= RANGE_LIMIT
        &&& 0 <= self.drone_near_range <= RANGE_LIMIT
        &&& 0 <= self.rammer_near_range <= RANGE_LIMIT
        &&& 0 <= self.picket_range <= RANGE_LIMIT
        &&& 0 <= self.explosion_radius <= RANGE_LIMIT
        &&& 0 <= self.explosion_damage <= RANGE_LIMIT
    }

    /// The standard tuning of the game.
    pub fn standard() -> (r: SimConfig)
        ensures
            r.wf(),
            r.max_speed == 200_000,
            r.ai_max_speed == 300_000,
            r.missile_max_speed == 200_000,
            r.minelayer_max_speed == 50_000,
            r.dampening_factor == 995,
            r.drift_floor == 250,
            r.restitution == 350,
            r.repulsion == 50,
            r.ke_to_dmg == 1,
            r.damage_threshold == 2_000_000,
            r.cap_epsilon == 1,
            r.ms_to_ps == 3_000,
            r.forward_offset == 26_250,
            r.projectile_radius == 7_000,
            r.fuel_per_tick == 1_000,
            r.collision_cooldown == 100,
            r.turret_tolerance == 150,
            r.rammer_tolerance == 200,
            r.rammer_boost == 10,
            r.speedy_far_range == 500_000,
            r.drone_near_range == 250_000,
            r.rammer_near_range == 250_000,
            r.picket_range == 600_000,
            r.explosion_radius == 200_000,
            r.explosion_damage == 50_000,
    {
        SimConfig {
            max_speed: 200_000,
            ai_max_speed: 300_000,
            missile_max_speed: 200_000,
            minelayer_max_speed: 50_000,
            dampening_factor: 995,
            drift_floor: 250,
            restitution: 350,
            repulsion: 50,
            ke_to_dmg: 1,
            damage_threshold: 2_000_000,
            cap_epsilon: 1,
            ms_to_ps: 3_000,
            forward_offset: 26_250,
            projectile_radius: 7_000,
            fuel_per_tick: 1_000,
            collision_cooldown: 100,
            turret_tolerance: 150,
            rammer_tolerance: 200,
            rammer_boost: 10,
            speedy_far_range: 500_000,
            drone_near_range: 250_000,
            rammer_near_range: 250_000,
            picket_range: 600_000,
            explosion_radius: 200_000,
            explosion_damage: 50_000,
        }
    }
}

} // verus!
