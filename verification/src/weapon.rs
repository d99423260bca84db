//! The weapon system: cooldown-gated projectile launches, and the
//! per-tick timer pass.
//!
//! A fired projectile inherits the platform's speed additively along
//! the firing heading — not the platform's full velocity vector, so a
//! drifting platform's lateral speed is not added to the shot.

use vstd::prelude::*;
use crate::angle::{cos_mr_s, heading_wf, sin_mr_s, cos_mr, sin_mr};
use crate::config::{DT_LIMIT, SPEED_LIMIT, SimConfig};
use crate::entity::{CollisionClass, Entity, POS_LIMIT, Pose, Projectile, Ship, VEL_LIMIT,
    WeaponSystem, pose_wf, projectile_wf, weapon_wf};
use crate::fixed::{FP, clamp_s, muldiv_t, clamp64, lemma_unit_comp, muldiv64};
use crate::store::EntityStore;
use crate::timer::CountdownTimer;
use crate::vec2::Vec2;

verus! {

/// Everything a weapon launch produces: the projectile data, its
/// collision partition, and its initial velocity.
pub struct ProjectileLaunch {
    pub projectile: Projectile,
    pub phase: CollisionClass,
    pub velocity: Vec2,
}

/// One coordinate of the launch velocity: the heading's unit component
/// times the projectile speed plus the platform speed.
pub open spec fn launch_vel_comp_s(unit: int, speed: int, origin_speed: int) -> int {
    muldiv_t(unit, speed + origin_speed, FP as int)
}

/// The full launch a weapon produces at a heading and platform speed.
pub open spec fn launch_of(w: WeaponSystem, heading: int, origin_speed: int) -> ProjectileLaunch {
    ProjectileLaunch {
        projectile: launched_projectile_s(w),
        phase: CollisionClass::Ephemeral,
        velocity: Vec2 {
            x: launch_vel_comp_s(cos_mr_s(heading), w.proj_speed as int, origin_speed) as i64,
            y: launch_vel_comp_s(sin_mr_s(heading), w.proj_speed as int, origin_speed) as i64,
        },
    }
}

/// The projectile a weapon's definition describes.
pub open spec fn launched_projectile_s(w: WeaponSystem) -> Projectile {
    Projectile {
        speed: w.proj_speed,
        fuel: w.proj_fuel,
        projectile_type: w.proj_type,
        damage_type: w.dmg_type,
        damage_value: w.dmg,
        mass: w.proj_mass,
    }
}

impl WeaponSystem {
    /// Launch a projectile along `heading` from a platform moving at
    /// `origin_speed`, resetting this weapon's cooldown.  The caller
    /// gates on the cooldown; firing one slot never touches another.
    pub fn fire(&mut self, heading: i64, origin_speed: i64) -> (r: ProjectileLaunch)
        requires
            weapon_wf(*old(self)),
            heading_wf(heading as int),
            0 <= origin_speed <= SPEED_LIMIT,
        ensures
            weapon_wf(*final(self)),
            r == launch_of(*old(self), heading as int, origin_speed as int),
            *final(self) == (WeaponSystem {
                cd_timer: CountdownTimer {
                    duration: old(self).cd_timer.duration,
                    remaining: old(self).cd_timer.duration,
                },
                ..*old(self)
            }),
            r.projectile == launched_projectile_s(*old(self)),
            projectile_wf(r.projectile),
            r.phase == CollisionClass::Ephemeral,
            r.velocity.x == launch_vel_comp_s(
                cos_mr_s(heading as int),
                old(self).proj_speed as int,
                origin_speed as int,
            ),
            r.velocity.y == launch_vel_comp_s(
                sin_mr_s(heading as int),
                old(self).proj_speed as int,
                origin_speed as int,
            ),
            r.velocity.in_bounds(2 * SPEED_LIMIT as int),
    {
        self.cd_timer.reset();
        let c = cos_mr(heading);
        let s = sin_mr(heading);
        let total: i64 = self.proj_speed + origin_speed;
        proof {
            lemma_unit_comp(c as int, FP as int, total as int);
            lemma_unit_comp(s as int, FP as int, total as int);
        }
        ProjectileLaunch {
            projectile: Projectile {
                speed: self.proj_speed,
                fuel: self.proj_fuel,
                projectile_type: self.proj_type,
                damage_type: self.dmg_type,
                damage_value: self.dmg,
                mass: self.proj_mass,
            },
            phase: CollisionClass::Ephemeral,
            velocity: Vec2 { x: muldiv64(c, total, FP), y: muldiv64(s, total, FP) },
        }
    }
}

/// One coordinate of a point offset forward from a pose.
pub open spec fn forward_pos_comp_s(p: int, unit: int, offset: int) -> int {
    clamp_s(p + muldiv_t(unit, offset, FP as int), -POS_LIMIT as int, POS_LIMIT as int)
}

/// The pose a projectile spawns at: offset forward from the firing
/// ship's nose, aligned with the firing heading.  A negative offset
/// spawns behind the ship — where the mine layer drops its mines.
pub open spec fn spawn_pose_s(pose: Pose, offset: int) -> Pose {
    Pose {
        pos: Vec2 {
            x: forward_pos_comp_s(pose.pos.x as int, cos_mr_s(pose.heading as int), offset) as i64,
            y: forward_pos_comp_s(pose.pos.y as int, sin_mr_s(pose.heading as int), offset) as i64,
        },
        heading: pose.heading,
    }
}

/// Compute the pose a projectile spawns at.
pub fn spawn_pose(pose: &Pose, offset: i64) -> (r: Pose)
    requires
        pose_wf(*pose),
        -POS_LIMIT <= offset <= POS_LIMIT,
    ensures
        r == spawn_pose_s(*pose, offset as int),
        pose_wf(r),
{
    let c = cos_mr(pose.heading);
    let s = sin_mr(pose.heading);
    proof {
        if offset >= 0 {
            lemma_unit_comp(c as int, FP as int, offset as int);
            lemma_unit_comp(s as int, FP as int, offset as int);
        } else {
            crate::fixed::lemma_muldiv_mag(c as int, offset as int, FP as int, FP as int,
                POS_LIMIT as int);
            crate::fixed::lemma_muldiv_mag(s as int, offset as int, FP as int, FP as int,
                POS_LIMIT as int);
        }
    }
    let dx: i64 = muldiv64(c, offset, FP);
    let dy: i64 = muldiv64(s, offset, FP);
    Pose {
        pos: Vec2 {
            x: clamp64(pose.pos.x + dx, -POS_LIMIT, POS_LIMIT),
            y: clamp64(pose.pos.y + dy, -POS_LIMIT, POS_LIMIT),
        },
        heading: pose.heading,
    }
}

/// The value [`projectile_entity`] constructs.
pub open spec fn projectile_entity_s(pose: Pose, launch: ProjectileLaunch) -> Entity {
    Entity {
        vel: Option::Some(launch.velocity),
        projectile: Option::Some(launch.projectile),
        collision_class: Option::Some(launch.phase),
        ..Entity::bare_s(0, pose)
    }
}

/// The entity a projectile launch turns into.
pub fn projectile_entity(pose: Pose, launch: &ProjectileLaunch) -> (r: Entity)
    requires
        pose_wf(pose),
        projectile_wf(launch.projectile),
        launch.velocity.in_bounds(VEL_LIMIT as int),
    ensures
        r == projectile_entity_s(pose, *launch),
        r.wf(),
        r.pose == pose,
        r.vel == Option::Some(launch.velocity),
        r.projectile == Option::Some(launch.projectile),
        r.collision_class == Option::Some(launch.phase),
        r.health is None,
        r.ai is None,
        r.missile is None,
        r.ship is None,
{
    let mut e = Entity::bare(0, pose);
    e.vel = Option::Some(launch.velocity);
    e.projectile = Option::Some(launch.projectile);
    e.collision_class = Option::Some(launch.phase);
    e
}

/// A weapon with its cooldown counted down by `dt`.
pub open spec fn ticked_weapon_s(w: WeaponSystem, dt: int) -> WeaponSystem {
    WeaponSystem {
        cd_timer: CountdownTimer {
            duration: w.cd_timer.duration,
            remaining: w.cd_timer.spec_after_tick(dt) as i64,
        },
        ..w
    }
}

/// An entity with every weapon cooldown, the collision cooldown and
/// the self-destruct timer counted down by `dt`.
pub open spec fn ticked_entity_s(e: Entity, dt: int) -> Entity {
    Entity {
        ship: match e.ship {
            Option::Some(s) => Option::Some(
                Ship {
                    primary_weapon: ticked_weapon_s(s.primary_weapon, dt),
                    secondary_weapon: ticked_weapon_s(s.secondary_weapon, dt),
                    tertiary_weapon: ticked_weapon_s(s.tertiary_weapon, dt),
                    ..s
                },
            ),
            Option::None => Option::None,
        },
        collision_cooldown: CountdownTimer {
            duration: e.collision_cooldown.duration,
            remaining: e.collision_cooldown.spec_after_tick(dt) as i64,
        },
        self_destruct: match e.self_destruct {
            Option::Some(t) => Option::Some(
                CountdownTimer { duration: t.duration, remaining: t.spec_after_tick(dt) as i64 },
            ),
            Option::None => Option::None,
        },
        ..e
    }
}

/// The timer pass: count down every weapon cooldown, collision
/// cooldown and self-destruct timer by this tick's `dt`.  The AI phase
/// clocks tick inside their own behaviour functions instead.
pub fn tick_timers(store: &mut EntityStore, dt: i64)
    requires
        old(store).wf(),
        0 <= dt <= DT_LIMIT,
    ensures
        final(store).wf(),
        final(store).config == old(store).config,
        final(store).next_id == old(store).next_id,
        final(store).entities.len() == old(store).entities.len(),
        forall|k: int|
            0 <= k < old(store).entities.len() ==> #[trigger] final(store).entities[k]
                == ticked_entity_s(old(store).entities[k], dt as int),
        final(store).damage_events == old(store).damage_events,
        final(store).collision_events == old(store).collision_events,
        final(store).missile_spawn_events == old(store).missile_spawn_events,
        final(store).mine_spawn_events == old(store).mine_spawn_events,
        final(store).detonation_events == old(store).detonation_events,
{
    let n = store.entities.len();
    let mut i: usize = 0;
    while i < n
        invariant
            old(store).wf(),
            store.config == old(store).config,
            store.next_id == old(store).next_id,
            store.damage_events == old(store).damage_events,
            store.collision_events == old(store).collision_events,
            store.missile_spawn_events == old(store).missile_spawn_events,
            store.mine_spawn_events == old(store).mine_spawn_events,
            store.detonation_events == old(store).detonation_events,
            0 <= dt <= DT_LIMIT,
            i <= n,
            n == store.entities.len(),
            n == old(store).entities.len(),
            forall|j: int|
                i <= j < n ==> #[trigger] store.entities[j] == old(store).entities[j],
            forall|j: int|
                0 <= j < i ==> #[trigger] store.entities[j] == ticked_entity_s(
                    old(store).entities[j],
                    dt as int,
                ),
            forall|j: int| 0 <= j < n ==> (#[trigger] store.entities[j]).wf(),
            forall|j: int|
                0 <= j < n ==> (#[trigger] store.entities[j]).id == old(store).entities[j].id,
            store.ids_wf(),
            store.events_wf(),
        decreases n - i,
    {
        let mut e = store.entities[i];
        if let Option::Some(s) = &e.ship {
            let mut s2 = *s;
            s2.primary_weapon.cd_timer.tick(dt);
            s2.secondary_weapon.cd_timer.tick(dt);
            s2.tertiary_weapon.cd_timer.tick(dt);
            e.ship = Option::Some(s2);
        }
        e.collision_cooldown.tick(dt);
        if let Option::Some(t) = &e.self_destruct {
            let mut t2 = *t;
            t2.tick(dt);
            e.self_destruct = Option::Some(t2);
        }
        store.entities[i] = e;
        i = i + 1;
    }
}

} // verus!
