//! The per-tick schedule: the fixed ordering contract between the
//! components.
//!
//! Within one tick: AI decisions and weapon firing first (so newly
//! spawned projectiles move the same tick), then motion integration,
//! then the collision computation pass strictly before the resolution
//! pass (reordering them would reintroduce the stale-read hazard the
//! two-phase design exists to prevent), then the ephemeral passes, the
//! damage pipeline, lifecycle cleanup, and finally the timers.

use vstd::prelude::*;
use crate::config::DT_LIMIT;
use crate::player::PlayerInput;
use crate::store::EntityStore;
use crate::vec2::Vec2;
use crate::entity::POS_LIMIT;

verus! {

/// Decisions and firing: the player's controls, the seven archetype
/// controllers, and the spawners that realise queued requests.
#[verifier::rlimit(60)]
#[verifier::spinoff_prover]
fn player_phase(store: &mut EntityStore, input: PlayerInput, cursor: Vec2, dt: i64)
    requires
        old(store).wf(),
        0 <= dt <= DT_LIMIT,
        cursor.in_bounds(POS_LIMIT as int),
        old(store).next_id <= 0x1000_0000_0000_0000,
        old(store).entities.len() <= 0x1_0000_0000,
    ensures
        final(store).wf(),
        final(store).config == old(store).config,
        final(store).next_id <= old(store).next_id + 3,
        final(store).entities.len() <= old(store).entities.len() + 3,
        final(store).missile_spawn_events == old(store).missile_spawn_events,
        final(store).mine_spawn_events == old(store).mine_spawn_events,
{
    crate::player::update_player_velocity_system(store, input, dt);
    crate::player::player_weapons_system(store, input, cursor);
}

#[verifier::rlimit(60)]
#[verifier::spinoff_prover]
fn gunship_phase(store: &mut EntityStore, dt: i64)
    requires
        old(store).wf(),
        0 <= dt <= DT_LIMIT,
        old(store).next_id <= 0x2000_0000_0000_0000,
        old(store).entities.len() <= 0x1_0000_0100,
    ensures
        final(store).wf(),
        final(store).config == old(store).config,
        final(store).next_id <= old(store).next_id + 7 * old(store).entities.len(),
        final(store).entities.len() <= 8 * old(store).entities.len(),
        final(store).missile_spawn_events == old(store).missile_spawn_events,
        final(store).mine_spawn_events == old(store).mine_spawn_events,
{
    crate::ai::turret_ai_system(store);
    crate::ai::speedy_ai_system(store, dt);
    crate::ai::drone_ai_system(store, dt);
}

#[verifier::rlimit(60)]
#[verifier::spinoff_prover]
fn escort_phase(store: &mut EntityStore, dt: i64)
    requires
        old(store).wf(),
        0 <= dt <= DT_LIMIT,
    ensures
        final(store).wf(),
        final(store).config == old(store).config,
        final(store).next_id == old(store).next_id,
        final(store).entities.len() == old(store).entities.len(),
        final(store).missile_spawn_events.len() <= old(store).missile_spawn_events.len() + old(
            store,
        ).entities.len(),
        final(store).mine_spawn_events.len() <= old(store).mine_spawn_events.len() + old(
            store,
        ).entities.len(),
{
    crate::ai::rammer_ai_system(store, dt);
    crate::ai::picket_ai_system(store, dt);
    crate::ai::minelayer_ai_system(store, dt);
}

#[verifier::rlimit(60)]
#[verifier::spinoff_prover]
fn spawn_phase(store: &mut EntityStore, dt: i64)
    requires
        old(store).wf(),
        0 <= dt <= DT_LIMIT,
        old(store).next_id + old(store).missile_spawn_events.len() + old(
            store,
        ).mine_spawn_events.len() <= crate::store::ID_LIMIT,
    ensures
        final(store).wf(),
        final(store).config == old(store).config,
{
    crate::spawn::spawn_missile_system(store);
    crate::spawn::spawn_mine_system(store);
    crate::ai::guided_missile_ai_system(store, dt);
}

/// Decisions and firing: the player's controls, the seven archetype
/// controllers, and the spawners that realise queued requests.
fn decision_phase(store: &mut EntityStore, input: PlayerInput, cursor: Vec2, dt: i64)
    requires
        old(store).wf(),
        0 <= dt <= DT_LIMIT,
        cursor.in_bounds(POS_LIMIT as int),
        old(store).next_id <= 0x1000_0000_0000_0000,
        old(store).entities.len() <= 0x1_0000_0000,
        old(store).missile_spawn_events.len() <= 0x1_0000_0000,
        old(store).mine_spawn_events.len() <= 0x1_0000_0000,
    ensures
        final(store).wf(),
        final(store).config == old(store).config,
{
    player_phase(store, input, cursor, dt);
    gunship_phase(store, dt);
    escort_phase(store, dt);
    spawn_phase(store, dt);
}

/// Physics and damage: motion, the two-phase collision engine, the
/// ephemeral passes and the damage pipeline.
#[verifier::rlimit(100)]
#[verifier::spinoff_prover]
fn physics_phase(store: &mut EntityStore, dt: i64)
    requires
        old(store).wf(),
        0 <= dt <= DT_LIMIT,
    ensures
        final(store).wf(),
        final(store).config == old(store).config,
        final(store).damage_events.len() == 0,
{
    crate::motion::movement_system(store, dt);
    crate::motion::move_projectiles_system(store, dt);
    crate::collision::collision_calculation_system(store);
    crate::collision::collision_resolution_system(store);
    crate::collision::check_projectile_collisions(store);
    crate::collision::check_missile_collisions_system(store);
    crate::damage::handle_denotation_event_system(store);
    crate::damage::inflict_damage_system(store);
}

/// Run one complete simulation tick in the mandated order.
///
/// Afterwards the world is still well formed and no surviving entity
/// carries zero-or-negative health: the damage pipeline's kills are
/// culled before the tick ends.
pub fn world_tick(store: &mut EntityStore, input: PlayerInput, cursor: Vec2, dt: i64)
    requires
        old(store).wf(),
        0 <= dt <= DT_LIMIT,
        cursor.in_bounds(POS_LIMIT as int),
        old(store).next_id <= 0x1000_0000_0000_0000,
        old(store).entities.len() <= 0x1_0000_0000,
        old(store).missile_spawn_events.len() <= 0x1_0000_0000,
        old(store).mine_spawn_events.len() <= 0x1_0000_0000,
    ensures
        final(store).wf(),
        final(store).config == old(store).config,
        forall|k: int|
            0 <= k < final(store).entities.len()
                ==> ((#[trigger] final(store).entities[k]).health matches Option::Some(h) ==> h
                > 0),
{
    decision_phase(store, input, cursor, dt);
    physics_phase(store, dt);
    let ghost before_cull = *store;
    crate::damage::despawn_dead_system(store);
    proof {
        crate::store::lemma_filter_flags_pred(
            before_cull.entities@,
            crate::damage::alive_flags(before_cull),
            |e: crate::entity::Entity| !crate::damage::dead_s(e),
        );
    }
    let ghost after_cull = *store;
    crate::damage::handle_self_destruct_system(store);
    proof {
        crate::store::lemma_filter_flags_elems(
            after_cull.entities@,
            crate::damage::self_destruct_flags(after_cull),
        );
        assert forall|k: int| 0 <= k < store.entities.len() implies !crate::damage::dead_s(
            #[trigger] store.entities[k],
        ) by {
            assert(crate::store::appears_in(store.entities[k], after_cull.entities@));
            let j = choose|j: int|
                0 <= j < after_cull.entities@.len() && store.entities[k as int]
                    == after_cull.entities@[j];
            assert(!crate::damage::dead_s(after_cull.entities[j]));
        }
    }
    let ghost before_timers = *store;
    crate::weapon::tick_timers(store, dt);
    proof {
        assert forall|k: int| 0 <= k < store.entities.len() implies ((#[trigger] store.entities[k]).health
            matches Option::Some(h) ==> h > 0) by {
            assert(store.entities[k] == crate::weapon::ticked_entity_s(
                before_timers.entities[k],
                dt as int,
            ));
            assert(!crate::damage::dead_s(before_timers.entities[k]));
        }
    }
}

} // verus!
