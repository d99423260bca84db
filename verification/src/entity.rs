//! The entity attribute bag: every component a simulated body can
//! carry, together with the validity bounds the physics proofs rely on.

use vstd::prelude::*;
use crate::angle::{PI_MR, heading_wf};
use crate::config::SPEED_LIMIT;
use crate::fixed::{FP, mag};
use crate::timer::CountdownTimer;
use crate::vec2::Vec2;

verus! {

/// Positions stay inside this box.
pub const POS_LIMIT: i64 = 1_000_000_000_000;

/// Velocity coordinates stay inside this box.
pub const VEL_LIMIT: i64 = 1_000_000_000;

/// Masses lie in `[MASS_MIN, MASS_LIMIT]`: strictly positive, as the
/// impulse formulas divide by them.
pub const MASS_MIN: i64 = 1;

/// Upper bound on any mass.
pub const MASS_LIMIT: i64 = 1_000_000_000_000;

/// Upper bound on a collision radius.
pub const RADIUS_LIMIT: i64 = 1_000_000_000;

/// Health magnitudes stay within this bound; damage saturates there.
pub const HEALTH_LIMIT: i64 = 1_000_000_000_000_000;

/// Upper bound on a single damage event's value.
pub const DAMAGE_LIMIT: i64 = 1_000_000_000_000_000;

/// Upper bound on projectile fuel.
pub const FUEL_LIMIT: i64 = 1_000_000_000;

/// Shape of a collision box; only circles collide in the current rules.
#[derive(Clone, Copy, PartialEq, Eq, Structural, Debug)]
pub enum Shape {
    Circle,
    Square,
}

#[derive(Clone, Copy, PartialEq, Eq, Structural, Debug)]
pub enum DamageType {
    Kinetic,
    Radiant,
}

#[derive(Clone, Copy, PartialEq, Eq, Structural, Debug)]
pub enum ProjectileType {
    Laser,
    Missile,
    Torpedo,
    Shells,
}

#[derive(Clone, Copy, PartialEq, Eq, Structural, Debug)]
pub enum EntityType {
    Player,
    Ship,
    Asteroid,
    Missile,
}

/// The two mutually exclusive collision partitions: `Solid` bodies
/// collide with each other, `Ephemeral` bodies (projectiles, missiles,
/// mines) only against `Solid` ones, never with each other.
#[derive(Clone, Copy, PartialEq, Eq, Structural, Debug)]
pub enum CollisionClass {
    Solid,
    Ephemeral,
}

/// The two dampening policies: a `Dampened` entity decays toward zero
/// under its own factor every tick; a `DriftFloor` entity is dampened
/// by the global factor only above the drift floor, below which it
/// drifts indefinitely.
#[derive(Clone, Copy, PartialEq, Eq, Structural, Debug)]
pub enum DragPolicy {
    Dampened { factor: i64 },
    DriftFloor,
}

#[derive(Clone, Copy, PartialEq, Eq, Structural, Debug)]
pub struct CollisionBox {
    pub shape: Shape,
    pub width_radius: i64,
    pub height: i64,
}

/// Position and heading of a body.  The heading is a wrapped angle in
/// milliradians; its forward unit vector is `(cos, sin)` of it.
#[derive(Clone, Copy, PartialEq, Eq, Structural, Debug)]
pub struct Pose {
    pub pos: Vec2,
    pub heading: i64,
}

#[derive(Clone, Copy, PartialEq, Eq, Structural, Debug)]
pub enum WeaponName {
    NoWeapon,
    BasicTorpedo,
    LunkerTorpedo,
    BasicLaser,
    BasicCannon,
    TestTorpedo,
    PracticeLaser,
    DroneLaser,
}

/// One weapon slot: a projectile description plus a live cooldown.
#[derive(Clone, Copy, PartialEq, Eq, Structural, Debug)]
pub struct WeaponSystem {
    pub name: WeaponName,
    pub value: i64,
    pub proj_speed: i64,
    /// Fuel decrements each tick; the projectile despawns at zero.
    pub proj_fuel: i64,
    pub cooldown: i64,
    pub proj_type: ProjectileType,
    pub proj_mass: i64,
    pub dmg_type: DamageType,
    pub cd_timer: CountdownTimer,
    pub dmg: i64,
}

/// A ship: turn rate and three independent weapon slots.
#[derive(Clone, Copy, PartialEq, Eq, Structural, Debug)]
pub struct Ship {
    pub turn_speed: i64,
    pub primary_weapon: WeaponSystem,
    pub secondary_weapon: WeaponSystem,
    pub tertiary_weapon: WeaponSystem,
}

#[derive(Clone, Copy, PartialEq, Eq, Structural, Debug)]
pub enum ThrusterName {
    BasicThruster,
    DroneThruster,
    MissileThruster,
    PicketThruster,
}

#[derive(Clone, Copy, PartialEq, Eq, Structural, Debug)]
pub struct Thruster {
    pub name: ThrusterName,
    pub value: i64,
    pub force: i64,
}

/// A ballistic projectile in flight.
#[derive(Clone, Copy, PartialEq, Eq, Structural, Debug)]
pub struct Projectile {
    pub speed: i64,
    /// Decrements once per tick; the projectile despawns at zero.
    pub fuel: i64,
    pub projectile_type: ProjectileType,
    pub damage_type: DamageType,
    pub damage_value: i64,
    pub mass: i64,
}

/// A guided missile's own steering data.
#[derive(Clone, Copy, PartialEq, Eq, Structural, Debug)]
pub struct Missile {
    pub turn_speed: i64,
    pub fuel: i64,
}

/// Which behaviour governs an enemy, with the archetype's own phase
/// clocks where its state machine needs them.
#[derive(Clone, Copy, PartialEq, Eq, Structural, Debug)]
pub enum AiRole {
    Turret,
    Drone,
    Speedy { engage: CountdownTimer, reposition: CountdownTimer },
    Rammer { ram: CountdownTimer, recharge: CountdownTimer },
    Picket { fire: CountdownTimer },
    MineLayer { drop: CountdownTimer },
}

/// An entity: an identity plus its attribute bag.  Absent attributes
/// simply exclude the entity from the passes that read them.
#[derive(Clone, Copy, Debug)]
pub struct Entity {
    pub id: u64,
    pub entity_type: Option<EntityType>,
    pub pose: Pose,
    pub vel: Option<Vec2>,
    pub mass: Option<i64>,
    pub health: Option<i64>,
    pub collision: Option<CollisionBox>,
    pub collision_class: Option<CollisionClass>,
    pub collision_cooldown: CountdownTimer,
    pub drag: DragPolicy,
    pub ship: Option<Ship>,
    pub thruster: Option<Thruster>,
    pub projectile: Option<Projectile>,
    pub missile: Option<Missile>,
    pub ai: Option<AiRole>,
    pub self_destruct: Option<CountdownTimer>,
    pub player: bool,
    pub enemy: bool,
}

pub open spec fn weapon_wf(w: WeaponSystem) -> bool {
    &&& w.cd_timer.wf()
    &&& 0 <= w.cooldown <= crate::timer::DURATION_LIMIT
    &&& 0 <= w.value <= RADIUS_LIMIT
    &&& 0 <= w.proj_speed <= SPEED_LIMIT
    &&& 0 <= w.proj_fuel <= FUEL_LIMIT
    &&& 0 <= w.proj_mass <= MASS_LIMIT
    &&& 0 <= w.dmg <= DAMAGE_LIMIT
}

pub open spec fn ship_wf(s: Ship) -> bool {
    &&& 0 <= s.turn_speed <= PI_MR
    &&& weapon_wf(s.primary_weapon)
    &&& weapon_wf(s.secondary_weapon)
    &&& weapon_wf(s.tertiary_weapon)
}

pub open spec fn thruster_wf(t: Thruster) -> bool {
    &&& 0 <= t.value <= RADIUS_LIMIT
    &&& 0 <= t.force <= crate::config::FORCE_LIMIT
}

pub open spec fn projectile_wf(p: Projectile) -> bool {
    &&& 0 <= p.speed <= SPEED_LIMIT
    &&& mag(p.fuel as int) <= FUEL_LIMIT
    &&& 0 <= p.mass <= MASS_LIMIT
    &&& 0 <= p.damage_value <= DAMAGE_LIMIT
}

pub open spec fn missile_wf(m: Missile) -> bool {
    &&& 0 <= m.turn_speed <= PI_MR
    &&& mag(m.fuel as int) <= FUEL_LIMIT
}

pub open spec fn ai_wf(a: AiRole) -> bool {
    match a {
        AiRole::Turret => true,
        AiRole::Drone => true,
        AiRole::Speedy { engage, reposition } => engage.wf() && reposition.wf(),
        AiRole::Rammer { ram, recharge } => ram.wf() && recharge.wf(),
        AiRole::Picket { fire } => fire.wf(),
        AiRole::MineLayer { drop } => drop.wf(),
    }
}

pub open spec fn drag_wf(d: DragPolicy) -> bool {
    match d {
        DragPolicy::Dampened { factor } => 0 <= factor <= FP,
        DragPolicy::DriftFloor => true,
    }
}

pub open spec fn box_wf(b: CollisionBox) -> bool {
    &&& 0 <= b.width_radius <= RADIUS_LIMIT
    &&& 0 <= b.height <= RADIUS_LIMIT
}

pub open spec fn pose_wf(p: Pose) -> bool {
    &&& p.pos.in_bounds(POS_LIMIT as int)
    &&& heading_wf(p.heading as int)
}

impl Entity {
    /// Every attribute present sits in the bounds the physics needs.
    pub open spec fn wf(self) -> bool {
        &&& pose_wf(self.pose)
        &&& match self.vel {
            Option::Some(v) => v.in_bounds(VEL_LIMIT as int),
            Option::None => true,
        }
        &&& match self.mass {
            Option::Some(m) => MASS_MIN <= m <= MASS_LIMIT,
            Option::None => true,
        }
        &&& match self.health {
            Option::Some(h) => mag(h as int) <= HEALTH_LIMIT,
            Option::None => true,
        }
        &&& match self.collision {
            Option::Some(b) => box_wf(b),
            Option::None => true,
        }
        &&& self.collision_cooldown.wf()
        &&& drag_wf(self.drag)
        &&& match self.ship {
            Option::Some(s) => ship_wf(s),
            Option::None => true,
        }
        &&& match self.thruster {
            Option::Some(t) => thruster_wf(t),
            Option::None => true,
        }
        &&& match self.projectile {
            Option::Some(p) => projectile_wf(p),
            Option::None => true,
        }
        &&& match self.missile {
            Option::Some(m) => missile_wf(m),
            Option::None => true,
        }
        &&& match self.ai {
            Option::Some(a) => ai_wf(a),
            Option::None => true,
        }
        &&& match self.self_destruct {
            Option::Some(t) => t.wf(),
            Option::None => true,
        }
    }

    /// Eligible for the solid-versus-solid collision pass: a `Solid`
    /// body carrying all the attributes the impulse physics reads.
    pub open spec fn collidable(self) -> bool {
        &&& self.collision_class == Option::Some(CollisionClass::Solid)
        &&& self.vel is Some
        &&& self.mass is Some
        &&& self.collision is Some
    }

    /// Eligible to be hit by the projectile pass.
    pub open spec fn solid_target(self) -> bool {
        &&& self.collision_class == Option::Some(CollisionClass::Solid)
        &&& self.collision is Some
    }

    /// The value [`Entity::bare`] constructs.
    pub open spec fn bare_s(id: u64, pose: Pose) -> Entity {
        Entity {
            id,
            entity_type: Option::None,
            pose,
            vel: Option::None,
            mass: Option::None,
            health: Option::None,
            collision: Option::None,
            collision_class: Option::None,
            collision_cooldown: CountdownTimer { duration: 0, remaining: 0 },
            drag: DragPolicy::DriftFloor,
            ship: Option::None,
            thruster: Option::None,
            projectile: Option::None,
            missile: Option::None,
            ai: Option::None,
            self_destruct: Option::None,
            player: false,
            enemy: false,
        }
    }

    /// A bare entity at a pose, carrying nothing else.
    pub fn bare(id: u64, pose: Pose) -> (r: Entity)
        requires
            pose_wf(pose),
        ensures
            r == Entity::bare_s(id, pose),
            r.wf(),
            r.id == id,
            r.pose == pose,
            r.entity_type is None,
            r.vel is None,
            r.mass is None,
            r.health is None,
            r.collision is None,
            r.collision_class is None,
            r.collision_cooldown.duration == 0 && r.collision_cooldown.remaining == 0,
            r.drag == DragPolicy::DriftFloor,
            r.ship is None,
            r.thruster is None,
            r.projectile is None,
            r.missile is None,
            r.ai is None,
            r.self_destruct is None,
            !r.player,
            !r.enemy,
    {
        Entity {
            id,
            entity_type: Option::None,
            pose,
            vel: Option::None,
            mass: Option::None,
            health: Option::None,
            collision: Option::None,
            collision_class: Option::None,
            collision_cooldown: CountdownTimer::from_duration(0),
            drag: DragPolicy::DriftFloor,
            ship: Option::None,
            thruster: Option::None,
            projectile: Option::None,
            missile: Option::None,
            ai: Option::None,
            self_destruct: Option::None,
            player: false,
            enemy: false,
        }
    }
}

} // verus!
