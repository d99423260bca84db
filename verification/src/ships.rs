//! Complete entity presets: the enemy archetypes, the player's ship,
//! asteroids, guided missiles and mines.

use vstd::prelude::*;
use crate::entity::{AiRole, CollisionBox, CollisionClass, DragPolicy, Entity, EntityType, Missile,
    MASS_MIN, Pose, Shape, Ship, pose_wf};
use crate::fixed::FP;
use crate::ship_parts::{load_basic_thruster, load_basic_torpedo, load_basic_laser,
    load_basic_cannon, load_blank_weapon, load_drone_laser, load_drone_thruster,
    load_missile_thruster, load_picket_thruster, load_practice_laser};
use crate::timer::CountdownTimer;
use crate::vec2::Vec2;

verus! {

/// The common solid-ship chassis: a circle collision box, a collision
/// cooldown, the per-entity dampening policy and a zero velocity.
fn ship_chassis(
    pose: Pose,
    radius: i64,
    cooldown: i64,
    health: i64,
    mass: i64,
) -> (e: Entity)
    requires
        pose_wf(pose),
        0 <= radius <= crate::entity::RADIUS_LIMIT,
        0 <= cooldown <= crate::timer::DURATION_LIMIT,
        0 <= health <= crate::entity::HEALTH_LIMIT,
        MASS_MIN <= mass <= crate::entity::MASS_LIMIT,
    ensures
        e.wf(),
        e.pose == pose,
        e.vel == Option::Some(Vec2 { x: 0, y: 0 }),
        e.mass == Option::Some(mass),
        e.health == Option::Some(health),
        e.collision == Option::Some(
            CollisionBox { shape: Shape::Circle, width_radius: radius, height: radius },
        ),
        e.collision_class == Option::Some(CollisionClass::Solid),
        e.collision_cooldown.duration == cooldown && e.collision_cooldown.remaining == cooldown,
        e.drag == (DragPolicy::Dampened { factor: 995 }),
        e.enemy,
        !e.player,
        e.ship is None,
        e.ai is None,
        e.projectile is None,
        e.missile is None,
        e.thruster is None,
        e.entity_type == Option::Some(EntityType::Ship),
{
    let mut e = Entity::bare(0, pose);
    e.vel = Option::Some(Vec2::zero());
    e.mass = Option::Some(mass);
    e.health = Option::Some(health);
    e.collision = Option::Some(
        CollisionBox { shape: Shape::Circle, width_radius: radius, height: radius },
    );
    e.collision_class = Option::Some(CollisionClass::Solid);
    e.collision_cooldown = CountdownTimer::from_duration(cooldown);
    e.drag = DragPolicy::Dampened { factor: 995 };
    e.enemy = true;
    e.entity_type = Option::Some(EntityType::Ship);
    e
}

pub fn load_speedy_ship(pose: Pose) -> (e: Entity)
    requires
        pose_wf(pose),
    ensures
        e.wf(),
        e.pose == pose,
        e.enemy && !e.player,
        e.health == Option::Some(10_000i64),
        e.mass == Option::Some(80_000_000i64),
        e.ship matches Option::Some(sh) && sh.turn_speed == 22
            && sh.primary_weapon.name == crate::entity::WeaponName::PracticeLaser,
        e.thruster is Some,
        e.vel is Some,
        e.ai matches Option::Some(AiRole::Speedy { engage, reposition }) && engage.duration
            == 2_000 && engage.remaining == 2_000 && reposition.duration == 1_000
            && reposition.remaining == 1_000,
        e.collision_class == Option::Some(CollisionClass::Solid),
{
    let mut e = ship_chassis(pose, 13_300, 100, 10_000, 80_000_000);
    e.ship = Option::Some(
        Ship {
            turn_speed: 22,
            primary_weapon: load_practice_laser(),
            secondary_weapon: load_blank_weapon(),
            tertiary_weapon: load_blank_weapon(),
        },
    );
    e.thruster = Option::Some(load_basic_thruster());
    e.ai = Option::Some(
        AiRole::Speedy {
            engage: CountdownTimer::from_duration(2_000),
            reposition: CountdownTimer::from_duration(1_000),
        },
    );
    e
}

pub fn load_drone_ship(pose: Pose) -> (e: Entity)
    requires
        pose_wf(pose),
    ensures
        e.wf(),
        e.pose == pose,
        e.enemy && !e.player,
        e.health == Option::Some(100_000i64),
        e.mass == Option::Some(1_000_000i64),
        e.ship matches Option::Some(sh) && sh.turn_speed == 17
            && sh.primary_weapon.name == crate::entity::WeaponName::DroneLaser,
        e.thruster is Some,
        e.vel is Some,
        e.ai == Option::Some(AiRole::Drone),
{
    let mut e = ship_chassis(pose, 13_300, 100, 100_000, 1_000_000);
    e.ship = Option::Some(
        Ship {
            turn_speed: 17,
            primary_weapon: load_drone_laser(),
            secondary_weapon: load_blank_weapon(),
            tertiary_weapon: load_blank_weapon(),
        },
    );
    e.thruster = Option::Some(load_drone_thruster());
    e.ai = Option::Some(AiRole::Drone);
    e
}

pub fn load_rammer_ship(pose: Pose) -> (e: Entity)
    requires
        pose_wf(pose),
    ensures
        e.wf(),
        e.pose == pose,
        e.enemy && !e.player,
        e.health == Option::Some(200_000i64),
        e.mass == Option::Some(200_000_000i64),
        e.ship is Some,
        e.thruster is Some,
        e.vel is Some,
        e.ai matches Option::Some(AiRole::Rammer { ram, recharge }) && ram.duration == 500
            && recharge.duration == 3_000,
{
    let mut e = ship_chassis(pose, 13_300, 1_000, 200_000, 200_000_000);
    e.ship = Option::Some(
        Ship {
            turn_speed: 22,
            primary_weapon: load_practice_laser(),
            secondary_weapon: load_blank_weapon(),
            tertiary_weapon: load_blank_weapon(),
        },
    );
    e.thruster = Option::Some(load_basic_thruster());
    e.ai = Option::Some(
        AiRole::Rammer {
            ram: CountdownTimer::from_duration(500),
            recharge: CountdownTimer::from_duration(3_000),
        },
    );
    e
}

/// The lunker: a heavier speedy-archetype ship with torpedoes.
pub fn load_lunker_ship(pose: Pose) -> (e: Entity)
    requires
        pose_wf(pose),
    ensures
        e.wf(),
        e.pose == pose,
        e.enemy && !e.player,
        e.health == Option::Some(100_000i64),
        e.mass == Option::Some(140_000_000i64),
        e.ship matches Option::Some(sh)
            && sh.primary_weapon.name == crate::entity::WeaponName::BasicTorpedo,
        e.thruster is Some,
        e.vel is Some,
        e.ai matches Option::Some(AiRole::Speedy { .. }),
{
    let mut e = ship_chassis(pose, 19_950, 100, 100_000, 140_000_000);
    e.ship = Option::Some(
        Ship {
            turn_speed: 22,
            primary_weapon: load_basic_torpedo(),
            secondary_weapon: load_blank_weapon(),
            tertiary_weapon: load_blank_weapon(),
        },
    );
    e.thruster = Option::Some(load_basic_thruster());
    e.ai = Option::Some(
        AiRole::Speedy {
            engage: CountdownTimer::from_duration(2_000),
            reposition: CountdownTimer::from_duration(1_000),
        },
    );
    e
}

pub fn load_minelayer_ship(pose: Pose) -> (e: Entity)
    requires
        pose_wf(pose),
    ensures
        e.wf(),
        e.pose == pose,
        e.enemy && !e.player,
        e.health == Option::Some(200_000i64),
        e.mass == Option::Some(250_000_000i64),
        e.thruster is Some,
        e.vel is Some,
        e.ai matches Option::Some(AiRole::MineLayer { drop }) && drop.duration == 2_500,
{
    let mut e = ship_chassis(pose, 13_300, 100, 200_000, 250_000_000);
    e.ship = Option::Some(
        Ship {
            turn_speed: 35,
            primary_weapon: load_practice_laser(),
            secondary_weapon: load_blank_weapon(),
            tertiary_weapon: load_blank_weapon(),
        },
    );
    e.thruster = Option::Some(load_basic_thruster());
    e.ai = Option::Some(AiRole::MineLayer { drop: CountdownTimer::from_duration(2_500) });
    e
}

pub fn load_turret_ship(pose: Pose) -> (e: Entity)
    requires
        pose_wf(pose),
    ensures
        e.wf(),
        e.pose == pose,
        e.enemy && !e.player,
        e.health == Option::Some(50_000i64),
        e.mass == Option::Some(100_000_000i64),
        e.ship matches Option::Some(sh) && sh.turn_speed == 22
            && sh.primary_weapon.name == crate::entity::WeaponName::PracticeLaser,
        e.thruster is Some,
        e.vel is Some,
        e.ai == Option::Some(AiRole::Turret),
{
    let mut e = ship_chassis(pose, 13_300, 100, 50_000, 100_000_000);
    e.ship = Option::Some(
        Ship {
            turn_speed: 22,
            primary_weapon: load_practice_laser(),
            secondary_weapon: load_blank_weapon(),
            tertiary_weapon: load_blank_weapon(),
        },
    );
    e.thruster = Option::Some(load_basic_thruster());
    e.ai = Option::Some(AiRole::Turret);
    e
}

pub fn load_picket_ship(pose: Pose) -> (e: Entity)
    requires
        pose_wf(pose),
    ensures
        e.wf(),
        e.pose == pose,
        e.enemy && !e.player,
        e.health == Option::Some(100_000i64),
        e.mass == Option::Some(80_000_000i64),
        e.ship is Some,
        e.thruster is Some,
        e.vel is Some,
        e.ai matches Option::Some(AiRole::Picket { fire }) && fire.duration == 3_500,
{
    let mut e = ship_chassis(pose, 13_300, 100, 100_000, 80_000_000);
    e.ship = Option::Some(
        Ship {
            turn_speed: 35,
            primary_weapon: load_practice_laser(),
            secondary_weapon: load_blank_weapon(),
            tertiary_weapon: load_blank_weapon(),
        },
    );
    e.thruster = Option::Some(load_picket_thruster());
    e.ai = Option::Some(AiRole::Picket { fire: CountdownTimer::from_duration(3_500) });
    e
}

/// The boss: an immense, immobile hulk.  It carries no behaviour of
/// its own in the core; full dampening pins it in place.
pub fn load_boss_ship(pose: Pose) -> (e: Entity)
    requires
        pose_wf(pose),
    ensures
        e.wf(),
        e.pose == pose,
        e.enemy && !e.player,
        e.health == Option::Some(5_000_000i64),
        e.mass == Option::Some(100_000_000_000i64),
        e.ship is Some,
        e.vel is Some,
        e.drag == (DragPolicy::Dampened { factor: 1_000 }),
{
    let mut e = ship_chassis(pose, 157_500, 1_000, 5_000_000, 100_000_000_000);
    e.ship = Option::Some(
        Ship {
            turn_speed: 22,
            primary_weapon: load_basic_torpedo(),
            secondary_weapon: load_blank_weapon(),
            tertiary_weapon: load_blank_weapon(),
        },
    );
    e.drag = DragPolicy::Dampened { factor: 1_000 };
    e
}

/// The player's ship: the full three-slot loadout.
pub fn load_player_ship(pose: Pose) -> (e: Entity)
    requires
        pose_wf(pose),
    ensures
        e.wf(),
        e.pose == pose,
        e.player && !e.enemy,
        e.health == Option::Some(500_000i64),
        e.mass == Option::Some(100_000_000i64),
        e.ship matches Option::Some(sh)
            && sh.primary_weapon.name == crate::entity::WeaponName::BasicTorpedo
            && sh.secondary_weapon.name == crate::entity::WeaponName::BasicLaser
            && sh.tertiary_weapon.name == crate::entity::WeaponName::BasicCannon,
        e.thruster is Some,
        e.vel == Option::Some(Vec2 { x: 0, y: 0 }),
        e.collision_class == Option::Some(CollisionClass::Solid),
        e.collision_cooldown.duration == 0,
        e.ai is None,
{
    let mut e = ship_chassis(pose, 13_300, 0, 500_000, 100_000_000);
    e.enemy = false;
    e.player = true;
    e.ship = Option::Some(
        Ship {
            turn_speed: 22,
            primary_weapon: load_basic_torpedo(),
            secondary_weapon: load_basic_laser(),
            tertiary_weapon: load_basic_cannon(),
        },
    );
    e.thruster = Option::Some(load_basic_thruster());
    e
}

/// An asteroid, scaled by `scale` (a fraction of `FP`): its radius and
/// mass scale together, and its validity floor keeps the mass positive.
pub fn load_asteroid(pose: Pose, scale: i64, vel: Vec2) -> (e: Entity)
    requires
        pose_wf(pose),
        1 <= scale <= FP,
        vel.in_bounds(crate::entity::VEL_LIMIT as int),
    ensures
        e.wf(),
        e.pose == pose,
        !e.player && !e.enemy,
        e.health == Option::Some(10_000i64),
        e.mass matches Option::Some(m) && m == if crate::fixed::muldiv_t(
            10_000_000,
            scale as int,
            FP as int,
        ) >= MASS_MIN {
            crate::fixed::muldiv_t(10_000_000, scale as int, FP as int)
        } else {
            MASS_MIN as int
        },
        e.vel == Option::Some(vel),
        e.collision_class == Option::Some(CollisionClass::Solid),
        e.entity_type == Option::Some(EntityType::Asteroid),
        e.drag == DragPolicy::DriftFloor,
{
    proof {
        crate::fixed::lemma_muldiv_mag(10_000_000, scale as int, FP as int, 10_000_000, FP as int);
        crate::fixed::lemma_muldiv_mag(14_700, scale as int, FP as int, 14_700, FP as int);
        crate::fixed::lemma_div_t_mag(10_000_000 * (scale as int), FP as int);
        crate::fixed::lemma_div_t_mag(14_700 * (scale as int), FP as int);
        crate::fixed::lemma_mag_mul(10_000_000, scale as int);
        crate::fixed::lemma_mag_mul(14_700, scale as int);
    }
    let m0: i64 = crate::fixed::muldiv64(10_000_000, scale, FP);
    let mass: i64 = if m0 >= MASS_MIN {
        m0
    } else {
        MASS_MIN
    };
    let r0: i64 = crate::fixed::muldiv64(14_700, scale, FP);
    let radius: i64 = if r0 >= 0 {
        r0
    } else {
        0
    };
    let mut e = Entity::bare(0, pose);
    e.vel = Option::Some(vel);
    e.mass = Option::Some(mass);
    e.health = Option::Some(10_000);
    e.collision = Option::Some(
        CollisionBox { shape: Shape::Circle, width_radius: radius, height: radius },
    );
    e.collision_class = Option::Some(CollisionClass::Solid);
    e.collision_cooldown = CountdownTimer::from_duration(150);
    e.entity_type = Option::Some(EntityType::Asteroid);
    e
}

/// The value [`load_guided_missile`] constructs.
pub open spec fn guided_missile_s(pose: Pose) -> Entity {
    Entity {
        vel: Option::Some(Vec2 { x: 0, y: 0 }),
        mass: Option::Some(100_000i64),
        health: Option::Some(10_000i64),
        collision: Option::Some(
            CollisionBox { shape: Shape::Circle, width_radius: 10_500, height: 10_500 },
        ),
        collision_class: Option::Some(CollisionClass::Solid),
        collision_cooldown: crate::timer::CountdownTimer { duration: 500, remaining: 500 },
        drag: DragPolicy::Dampened { factor: 995 },
        thruster: Option::Some(
            crate::entity::Thruster {
                name: crate::entity::ThrusterName::MissileThruster,
                value: 5_000,
                force: 100_000,
            },
        ),
        missile: Option::Some(Missile { turn_speed: 100, fuel: 800_000 }),
        entity_type: Option::Some(EntityType::Missile),
        ..Entity::bare_s(0, pose)
    }
}

/// A guided missile: a solid body that homes on the player until its
/// fuel starves.
pub fn load_guided_missile(pose: Pose) -> (e: Entity)
    requires
        pose_wf(pose),
    ensures
        e == guided_missile_s(pose),
        e.wf(),
        e.pose == pose,
        !e.player && !e.enemy,
        e.health == Option::Some(10_000i64),
        e.mass == Option::Some(100_000i64),
        e.vel == Option::Some(Vec2 { x: 0, y: 0 }),
        e.collision_class == Option::Some(CollisionClass::Solid),
        e.missile == Option::Some(Missile { turn_speed: 100, fuel: 800_000 }),
        e.thruster is Some,
        e.entity_type == Option::Some(EntityType::Missile),
        e.drag == (DragPolicy::Dampened { factor: 995 }),
{
    let mut e = Entity::bare(0, pose);
    e.vel = Option::Some(Vec2::zero());
    e.mass = Option::Some(100_000);
    e.health = Option::Some(10_000);
    e.collision = Option::Some(
        CollisionBox { shape: Shape::Circle, width_radius: 10_500, height: 10_500 },
    );
    e.collision_class = Option::Some(CollisionClass::Solid);
    e.collision_cooldown = CountdownTimer::from_duration(500);
    e.drag = DragPolicy::Dampened { factor: 995 };
    e.thruster = Option::Some(load_missile_thruster());
    e.missile = Option::Some(Missile { turn_speed: 100, fuel: 800_000 });
    e.entity_type = Option::Some(EntityType::Missile);
    e
}

/// The value [`load_mine`] constructs.
pub open spec fn mine_s(pose: Pose) -> Entity {
    Entity {
        vel: Option::Some(Vec2 { x: 0, y: 0 }),
        mass: Option::Some(100_000i64),
        health: Option::Some(10_000i64),
        collision: Option::Some(
            CollisionBox { shape: Shape::Circle, width_radius: 7_000, height: 7_000 },
        ),
        collision_class: Option::Some(CollisionClass::Solid),
        collision_cooldown: crate::timer::CountdownTimer { duration: 0, remaining: 0 },
        drag: DragPolicy::Dampened { factor: 995 },
        missile: Option::Some(Missile { turn_speed: 0, fuel: 0 }),
        entity_type: Option::Some(EntityType::Missile),
        ..Entity::bare_s(0, pose)
    }
}

/// A mine: an inert solid missile body with no thruster, so the
/// guided-missile pass never burns its fuel and it lies in wait.
pub fn load_mine(pose: Pose) -> (e: Entity)
    requires
        pose_wf(pose),
    ensures
        e == mine_s(pose),
        e.wf(),
        e.pose == pose,
        !e.player && !e.enemy,
        e.health == Option::Some(10_000i64),
        e.mass == Option::Some(100_000i64),
        e.vel == Option::Some(Vec2 { x: 0, y: 0 }),
        e.collision_class == Option::Some(CollisionClass::Solid),
        e.missile == Option::Some(Missile { turn_speed: 0, fuel: 0 }),
        e.thruster is None,
        e.entity_type == Option::Some(EntityType::Missile),
{
    let mut e = Entity::bare(0, pose);
    e.vel = Option::Some(Vec2::zero());
    e.mass = Option::Some(100_000);
    e.health = Option::Some(10_000);
    e.collision = Option::Some(
        CollisionBox { shape: Shape::Circle, width_radius: 7_000, height: 7_000 },
    );
    e.collision_class = Option::Some(CollisionClass::Solid);
    e.collision_cooldown = CountdownTimer::from_duration(0);
    e.drag = DragPolicy::Dampened { factor: 995 };
    e.missile = Option::Some(Missile { turn_speed: 0, fuel: 0 });
    e.entity_type = Option::Some(EntityType::Missile);
    e
}

} // verus!
