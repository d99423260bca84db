//! The world's entity collection and the tick's event queues.
//!
//! The store owns every entity attribute; systems read entities by
//! index, compute, and write results back or append events that a
//! later pass applies.

use vstd::prelude::*;
use crate::config::SimConfig;
use crate::entity::{Entity, Pose};
use crate::events::{
    CollisionEvent, DamageEvent, MissileDetonationEvent, SpawnGuidedMissileEvent, SpawnMineEvent,
    collision_event_wf, damage_event_wf, spawn_mine_event_wf, spawn_missile_event_wf,
};

verus! {

/// Identities handed out by one store stay below this bound, leaving
/// headroom for any realistic number of spawns.
pub const ID_LIMIT: u64 = 0x4000_0000_0000_0000;

pub struct EntityStore {
    pub config: SimConfig,
    pub next_id: u64,
    pub entities: Vec<Entity>,
    pub damage_events: Vec<DamageEvent>,
    pub collision_events: Vec<CollisionEvent>,
    pub missile_spawn_events: Vec<SpawnGuidedMissileEvent>,
    pub mine_spawn_events: Vec<SpawnMineEvent>,
    pub detonation_events: Vec<MissileDetonationEvent>,
}

impl EntityStore {
    /// Every entity is valid.
    pub open spec fn ents_wf(self) -> bool {
        forall|i: int| 0 <= i < self.entities.len() ==> (#[trigger] self.entities[i]).wf()
    }

    /// Identities are pairwise distinct and below the next to be handed out.
    pub open spec fn ids_wf(self) -> bool {
        &&& forall|i: int|
            0 <= i < self.entities.len() ==> (#[trigger] self.entities[i]).id < self.next_id
        &&& forall|i: int, j: int|
            0 <= i < j < self.entities.len() ==> (#[trigger] self.entities[i]).id != (
            #[trigger] self.entities[j]).id
    }

    /// Queued events are valid.
    pub open spec fn events_wf(self) -> bool {
        &&& forall|i: int|
            0 <= i < self.damage_events.len() ==> damage_event_wf(#[trigger] self.damage_events[i])
        &&& forall|i: int|
            0 <= i < self.collision_events.len() ==> collision_event_wf(
                #[trigger] self.collision_events[i],
            )
        &&& forall|i: int|
            0 <= i < self.missile_spawn_events.len() ==> spawn_missile_event_wf(
                #[trigger] self.missile_spawn_events[i],
            )
        &&& forall|i: int|
            0 <= i < self.mine_spawn_events.len() ==> spawn_mine_event_wf(
                #[trigger] self.mine_spawn_events[i],
            )
    }

    pub open spec fn wf(self) -> bool {
        &&& self.config.wf()
        &&& self.ents_wf()
        &&& self.ids_wf()
        &&& self.events_wf()
    }

    /// An empty world under the given tuning.
    pub fn new(config: SimConfig) -> (r: EntityStore)
        requires
            config.wf(),
        ensures
            r.wf(),
            r.config == config,
            r.entities.len() == 0,
            r.next_id == 0,
            r.damage_events.len() == 0,
            r.collision_events.len() == 0,
            r.missile_spawn_events.len() == 0,
            r.mine_spawn_events.len() == 0,
            r.detonation_events.len() == 0,
    {
        EntityStore {
            config,
            next_id: 0,
            entities: Vec::new(),
            damage_events: Vec::new(),
            collision_events: Vec::new(),
            missile_spawn_events: Vec::new(),
            mine_spawn_events: Vec::new(),
            detonation_events: Vec::new(),
        }
    }

    /// Insert an entity, assigning it the next fresh identity, which
    /// is returned.
    pub fn add_entity(&mut self, e: Entity) -> (id: u64)
        requires
            old(self).wf(),
            old(self).next_id < ID_LIMIT,
            e.wf(),
        ensures
            final(self).wf(),
            id == old(self).next_id,
            final(self).next_id == old(self).next_id + 1,
            final(self).config == old(self).config,
            final(self).entities.len() == old(self).entities.len() + 1,
            forall|i: int|
                0 <= i < old(self).entities.len() ==> final(self).entities[i] == old(
                    self,
                ).entities[i],
            final(self).entities[old(self).entities.len() as int].id == id,
            final(self).entities[old(self).entities.len() as int] == (Entity {
                id,
                ..e
            }),
            final(self).damage_events == old(self).damage_events,
            final(self).collision_events == old(self).collision_events,
            final(self).missile_spawn_events == old(self).missile_spawn_events,
            final(self).mine_spawn_events == old(self).mine_spawn_events,
            final(self).detonation_events == old(self).detonation_events,
    {
        let id = self.next_id;
        let stamped = Entity { id, ..e };
        self.entities.push(stamped);
        self.next_id = self.next_id + 1;
        id
    }

    /// Drop every entity whose flag is false, keeping the order of the
    /// survivors: the shared machinery of every despawn pass.
    pub fn retain_entities(&mut self, keep: &Vec<bool>)
        requires
            old(self).wf(),
            keep.len() == old(self).entities.len(),
        ensures
            final(self).wf(),
            final(self).entities@ == filter_by_flags(old(self).entities@, keep@),
            final(self).config == old(self).config,
            final(self).next_id == old(self).next_id,
            final(self).damage_events == old(self).damage_events,
            final(self).collision_events == old(self).collision_events,
            final(self).missile_spawn_events == old(self).missile_spawn_events,
            final(self).mine_spawn_events == old(self).mine_spawn_events,
            final(self).detonation_events == old(self).detonation_events,
    {
        let n = self.entities.len();
        let mut result: Vec<Entity> = Vec::new();
        let mut i: usize = 0;
        while i < n
            invariant
                old(self).wf(),
                *self == *old(self),
                n == self.entities.len(),
                keep.len() == n,
                i <= n,
                result@ == filter_by_flags(
                    self.entities@.subrange(0, i as int),
                    keep@.subrange(0, i as int),
                ),
            decreases n - i,
        {
            proof {
                assert(self.entities@.subrange(0, i + 1).drop_last() =~= self.entities@.subrange(
                    0,
                    i as int,
                ));
                assert(keep@.subrange(0, i + 1).drop_last() =~= keep@.subrange(0, i as int));
                assert(self.entities@.subrange(0, i + 1).last() == self.entities@[i as int]);
            }
            if keep[i] {
                result.push(self.entities[i]);
            }
            i = i + 1;
        }
        proof {
            assert(self.entities@.subrange(0, n as int) =~= self.entities@);
            assert(keep@.subrange(0, n as int) =~= keep@);
            lemma_filter_flags_elems(self.entities@, keep@);
            lemma_filter_flags_distinct_ids(self.entities@, keep@);
        }
        self.entities = result;
    }

    /// Index of the entity carrying the given identity, if any.
    pub fn index_of(&self, id: u64) -> (r: Option<usize>)
        ensures
            match r {
                Option::Some(i) => i < self.entities.len() && self.entities[i as int].id == id,
                Option::None => forall|j: int|
                    0 <= j < self.entities.len() ==> (#[trigger] self.entities[j]).id != id,
            },
    {
        let n = self.entities.len();
        let mut i: usize = 0;
        while i < n
            invariant
                i <= n,
                n == self.entities.len(),
                forall|j: int| 0 <= j < i ==> (#[trigger] self.entities[j]).id != id,
            decreases n - i,
        {
            if self.entities[i].id == id {
                return Option::Some(i);
            }
            i = i + 1;
        }
        Option::None
    }

    /// The index of the first player entity at or after `i`, or the
    /// entity count where none follows.
    pub open spec fn first_player_from(self, i: int) -> int
        recommends
            0 <= i <= self.entities.len(),
        decreases self.entities.len() - i,
    {
        if i >= self.entities.len() {
            self.entities.len() as int
        } else if self.entities[i].player {
            i
        } else {
            self.first_player_from(i + 1)
        }
    }

    /// The pose the player-relative systems steer by, where a player
    /// exists.
    pub open spec fn player_pose(self) -> Option<Pose> {
        if self.first_player_from(0) < self.entities.len() {
            Option::Some(self.entities[self.first_player_from(0)].pose)
        } else {
            Option::None
        }
    }

    /// Index of the player entity, if one exists.  Zero players is a
    /// valid, handled state; with several, the first is the player.
    pub fn player_index(&self) -> (r: Option<usize>)
        ensures
            match r {
                Option::Some(i) => i == self.first_player_from(0) && i < self.entities.len()
                    && self.entities[i as int].player,
                Option::None => self.first_player_from(0) == self.entities.len() && forall|j: int|
                    0 <= j < self.entities.len() ==> !(#[trigger] self.entities[j]).player,
            },
    {
        let n = self.entities.len();
        let mut i: usize = 0;
        while i < n
            invariant
                i <= n,
                n == self.entities.len(),
                self.first_player_from(0) == self.first_player_from(i as int),
                forall|j: int| 0 <= j < i ==> !(#[trigger] self.entities[j]).player,
            decreases n - i,
        {
            if self.entities[i].player {
                return Option::Some(i);
            }
            i = i + 1;
        }
        Option::None
    }
}

/// The subsequence of `s` at the positions whose flag is true.
pub open spec fn filter_by_flags(s: Seq<Entity>, f: Seq<bool>) -> Seq<Entity>
    recommends
        s.len() == f.len(),
    decreases s.len(),
{
    if s.len() == 0 {
        Seq::empty()
    } else {
        let rest = filter_by_flags(s.drop_last(), f.drop_last());
        if f.last() {
            rest.push(s.last())
        } else {
            rest
        }
    }
}

/// The entity occurs somewhere in the sequence.
pub open spec fn appears_in(e: Entity, s: Seq<Entity>) -> bool {
    exists|j: int| 0 <= j < s.len() && e == s[j]
}

/// Every element the flags keep comes from the original sequence.
pub proof fn lemma_filter_flags_elems(s: Seq<Entity>, f: Seq<bool>)
    requires
        s.len() == f.len(),
    ensures
        filter_by_flags(s, f).len() <= s.len(),
        forall|a: int|
            0 <= a < filter_by_flags(s, f).len() ==> appears_in(
                #[trigger] filter_by_flags(s, f)[a],
                s,
            ),
    decreases s.len(),
{
    if s.len() == 0 {
    } else {
        lemma_filter_flags_elems(s.drop_last(), f.drop_last());
        let rest = filter_by_flags(s.drop_last(), f.drop_last());
        let out = filter_by_flags(s, f);
        assert forall|a: int| 0 <= a < out.len() implies appears_in(#[trigger] out[a], s) by {
            if a < rest.len() {
                assert(out[a] == rest[a]);
                assert(appears_in(rest[a], s.drop_last()));
                let j = choose|j: int| 0 <= j < s.drop_last().len() && rest[a] == s.drop_last()[j];
                assert(s.drop_last()[j] == s[j]);
                assert(0 <= j < s.len() && out[a] == s[j]);
            } else {
                assert(f.last());
                assert(out[a] == s.last());
                assert(out[a] == s[s.len() - 1]);
            }
        }
    }
}

/// Dropping entities keeps the surviving identities pairwise distinct.
pub proof fn lemma_filter_flags_distinct_ids(s: Seq<Entity>, f: Seq<bool>)
    requires
        s.len() == f.len(),
        forall|i: int, j: int| 0 <= i < j < s.len() ==> (#[trigger] s[i]).id != (#[trigger] s[j]).id,
    ensures
        forall|a: int, b: int|
            0 <= a < b < filter_by_flags(s, f).len() ==> (#[trigger] filter_by_flags(s, f)[a]).id
                != (#[trigger] filter_by_flags(s, f)[b]).id,
    decreases s.len(),
{
    if s.len() == 0 {
    } else {
        assert forall|i: int, j: int| 0 <= i < j < s.drop_last().len() implies (
        #[trigger] s.drop_last()[i]).id != (#[trigger] s.drop_last()[j]).id by {
            assert(s.drop_last()[i] == s[i]);
            assert(s.drop_last()[j] == s[j]);
        }
        lemma_filter_flags_distinct_ids(s.drop_last(), f.drop_last());
        lemma_filter_flags_elems(s.drop_last(), f.drop_last());
        let rest = filter_by_flags(s.drop_last(), f.drop_last());
        let out = filter_by_flags(s, f);
        assert forall|a: int, b: int| 0 <= a < b < out.len() implies (#[trigger] out[a]).id != (
        #[trigger] out[b]).id by {
            if b < rest.len() {
                assert(out[a] == rest[a] && out[b] == rest[b]);
            } else {
                assert(f.last() && out[b] == s.last());
                assert(out[a] == rest[a]);
                assert(appears_in(rest[a], s.drop_last()));
                let j = choose|j: int| 0 <= j < s.drop_last().len() && rest[a] == s.drop_last()[j];
                assert(s.drop_last()[j] == s[j]);
                assert(s[j].id != s[s.len() - 1].id);
            }
        }
    }
}

/// Every element the flags keep satisfies any property the true flags
/// certify.
pub proof fn lemma_filter_flags_pred(s: Seq<Entity>, f: Seq<bool>, p: spec_fn(Entity) -> bool)
    requires
        s.len() == f.len(),
        forall|j: int| 0 <= j < s.len() ==> (f[j] ==> p(#[trigger] s[j])),
    ensures
        forall|a: int|
            0 <= a < filter_by_flags(s, f).len() ==> p(#[trigger] filter_by_flags(s, f)[a]),
    decreases s.len(),
{
    if s.len() > 0 {
        assert forall|j: int| 0 <= j < s.drop_last().len() && f.drop_last()[j] implies p(
            #[trigger] s.drop_last()[j],
        ) by {
            assert(s.drop_last()[j] == s[j]);
            assert(f.drop_last()[j] == f[j]);
        }
        lemma_filter_flags_pred(s.drop_last(), f.drop_last(), p);
        let rest = filter_by_flags(s.drop_last(), f.drop_last());
        let out = filter_by_flags(s, f);
        assert forall|a: int| 0 <= a < out.len() implies p(#[trigger] out[a]) by {
            if a < rest.len() {
                assert(out[a] == rest[a]);
            } else {
                assert(f.last() == f[f.len() - 1]);
                assert(s.last() == s[s.len() - 1]);
                assert(out[a] == s.last());
            }
        }
    }
}

} // verus!
