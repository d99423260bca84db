//! The spawner: turns queued spawn requests into entities.  The
//! surrounding shell attaches sprites and sounds; the core only
//! inserts the physics-relevant attributes.

use vstd::prelude::*;
use crate::entity::Entity;
use crate::store::{EntityStore, ID_LIMIT};

verus! {

/// Consume every queued guided-missile spawn request, inserting a
/// missile entity at each requested pose.
pub fn spawn_missile_system(store: &mut EntityStore)
    requires
        old(store).wf(),
        old(store).next_id + old(store).missile_spawn_events.len() <= ID_LIMIT,
    ensures
        final(store).wf(),
        final(store).config == old(store).config,
        final(store).next_id == old(store).next_id + old(store).missile_spawn_events.len(),
        final(store).entities.len() == old(store).entities.len() + old(
            store,
        ).missile_spawn_events.len(),
        forall|k: int|
            0 <= k < old(store).entities.len() ==> #[trigger] final(store).entities[k] == old(
                store,
            ).entities[k],
        forall|q: int|
            0 <= q < old(store).missile_spawn_events.len()
                ==> #[trigger] final(store).entities[old(store).entities.len() + q] == (Entity {
                id: (old(store).next_id + q) as u64,
                ..crate::ships::guided_missile_s(old(store).missile_spawn_events[q].pose)
            }),
        final(store).missile_spawn_events.len() == 0,
        final(store).damage_events == old(store).damage_events,
        final(store).collision_events == old(store).collision_events,
        final(store).mine_spawn_events == old(store).mine_spawn_events,
        final(store).detonation_events == old(store).detonation_events,
{
    let m = store.missile_spawn_events.len();
    let mut q: usize = 0;
    while q < m
        invariant
            old(store).wf(),
            store.wf(),
            store.config == old(store).config,
            store.missile_spawn_events == old(store).missile_spawn_events,
            store.damage_events == old(store).damage_events,
            store.collision_events == old(store).collision_events,
            store.mine_spawn_events == old(store).mine_spawn_events,
            store.detonation_events == old(store).detonation_events,
            m == old(store).missile_spawn_events.len(),
            q <= m,
            store.next_id == old(store).next_id + q,
            old(store).next_id + m <= ID_LIMIT,
            store.entities.len() == old(store).entities.len() + q,
            forall|k: int|
                0 <= k < old(store).entities.len() ==> #[trigger] store.entities[k] == old(
                    store,
                ).entities[k],
            forall|q2: int|
                0 <= q2 < q ==> #[trigger] store.entities[old(store).entities.len() + q2]
                    == (Entity {
                    id: (old(store).next_id + q2) as u64,
                    ..crate::ships::guided_missile_s(old(store).missile_spawn_events[q2].pose)
                }),
        decreases m - q,
    {
        let ev = store.missile_spawn_events[q];
        let e = crate::ships::load_guided_missile(ev.pose);
        let _ = store.add_entity(e);
        q = q + 1;
    }
    store.missile_spawn_events = Vec::new();
}

/// Consume every queued mine spawn request, inserting a mine entity at
/// each requested pose.
pub fn spawn_mine_system(store: &mut EntityStore)
    requires
        old(store).wf(),
        old(store).next_id + old(store).mine_spawn_events.len() <= ID_LIMIT,
    ensures
        final(store).wf(),
        final(store).config == old(store).config,
        final(store).next_id == old(store).next_id + old(store).mine_spawn_events.len(),
        final(store).entities.len() == old(store).entities.len() + old(
            store,
        ).mine_spawn_events.len(),
        forall|k: int|
            0 <= k < old(store).entities.len() ==> #[trigger] final(store).entities[k] == old(
                store,
            ).entities[k],
        forall|q: int|
            0 <= q < old(store).mine_spawn_events.len()
                ==> #[trigger] final(store).entities[old(store).entities.len() + q] == (Entity {
                id: (old(store).next_id + q) as u64,
                ..crate::ships::mine_s(old(store).mine_spawn_events[q].pose)
            }),
        final(store).mine_spawn_events.len() == 0,
        final(store).damage_events == old(store).damage_events,
        final(store).collision_events == old(store).collision_events,
        final(store).missile_spawn_events == old(store).missile_spawn_events,
        final(store).detonation_events == old(store).detonation_events,
{
    let m = store.mine_spawn_events.len();
    let mut q: usize = 0;
    while q < m
        invariant
            old(store).wf(),
            store.wf(),
            store.config == old(store).config,
            store.mine_spawn_events == old(store).mine_spawn_events,
            store.damage_events == old(store).damage_events,
            store.collision_events == old(store).collision_events,
            store.missile_spawn_events == old(store).missile_spawn_events,
            store.detonation_events == old(store).detonation_events,
            m == old(store).mine_spawn_events.len(),
            q <= m,
            store.next_id == old(store).next_id + q,
            old(store).next_id + m <= ID_LIMIT,
            store.entities.len() == old(store).entities.len() + q,
            forall|k: int|
                0 <= k < old(store).entities.len() ==> #[trigger] store.entities[k] == old(
                    store,
                ).entities[k],
            forall|q2: int|
                0 <= q2 < q ==> #[trigger] store.entities[old(store).entities.len() + q2]
                    == (Entity {
                    id: (old(store).next_id + q2) as u64,
                    ..crate::ships::mine_s(old(store).mine_spawn_events[q2].pose)
                }),
        decreases m - q,
    {
        let ev = store.mine_spawn_events[q];
        let e = crate::ships::load_mine(ev.pose);
        let _ = store.add_entity(e);
        q = q + 1;
    }
    store.mine_spawn_events = Vec::new();
}

} // verus!
