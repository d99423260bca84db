//! Transient events produced within one tick and consumed in the same
//! tick: the two-phase compute-then-apply pattern that keeps the
//! collision pass free of read-and-mutate aliasing.

use vstd::prelude::*;
use crate::entity::{DAMAGE_LIMIT, DamageType, Pose, pose_wf};
use crate::vec2::Vec2;
use crate::entity::VEL_LIMIT;

verus! {

/// Damage to apply to one entity's health this tick.
#[derive(Clone, Copy, PartialEq, Eq, Structural, Debug)]
pub struct DamageEvent {
    pub target: u64,
    pub damage_value: i64,
    pub damage_type: DamageType,
}

/// A freshly computed post-collision velocity for one entity.
#[derive(Clone, Copy, PartialEq, Eq, Structural, Debug)]
pub struct CollisionEvent {
    pub entity: u64,
    pub new_velocity: Vec2,
}

/// Request to spawn a guided missile, handed to the spawner.
#[derive(Clone, Copy, PartialEq, Eq, Structural, Debug)]
pub struct SpawnGuidedMissileEvent {
    pub pose: Pose,
}

/// Request to spawn a mine, handed to the spawner.
#[derive(Clone, Copy, PartialEq, Eq, Structural, Debug)]
pub struct SpawnMineEvent {
    pub pose: Pose,
}

/// A guided missile touched a solid body and must detonate.
#[derive(Clone, Copy, PartialEq, Eq, Structural, Debug)]
pub struct MissileDetonationEvent {
    pub entity: u64,
}

pub open spec fn damage_event_wf(e: DamageEvent) -> bool {
    0 <= e.damage_value <= DAMAGE_LIMIT
}

pub open spec fn collision_event_wf(e: CollisionEvent) -> bool {
    e.new_velocity.in_bounds(VEL_LIMIT as int)
}

pub open spec fn spawn_missile_event_wf(e: SpawnGuidedMissileEvent) -> bool {
    pose_wf(e.pose)
}

pub open spec fn spawn_mine_event_wf(e: SpawnMineEvent) -> bool {
    pose_wf(e.pose)
}

} // verus!
