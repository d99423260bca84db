//! The damage pipeline and lifecycle cleanup.
//!
//! Damage events accumulated during the tick are applied to their
//! targets' health — a target that has already despawned is silently
//! ignored, and health is never clamped at zero: negative health is
//! exactly the signal the cleanup pass uses to despawn.  Detonating
//! guided missiles deal area damage before they are removed.

use vstd::prelude::*;
use crate::entity::{CollisionClass, DamageType, Entity, HEALTH_LIMIT};
use crate::events::DamageEvent;
use crate::fixed::sq;
use crate::store::{EntityStore, filter_by_flags};
use crate::vec2::norm_sq_s;

verus! {

/// Health saturates at the representation floor instead of wrapping.
pub open spec fn sat_health(h: int) -> int {
    if h < -HEALTH_LIMIT {
        -HEALTH_LIMIT as int
    } else {
        h
    }
}

/// The total damage queued against one identity.
pub open spec fn dmg_sum(evs: Seq<DamageEvent>, id: u64) -> int
    decreases evs.len(),
{
    if evs.len() == 0 {
        0
    } else {
        dmg_sum(evs.drop_last(), id) + if evs.last().target == id {
            evs.last().damage_value as int
        } else {
            0
        }
    }
}

/// Queued damage is never negative.
pub proof fn lemma_dmg_sum_nonneg(evs: Seq<DamageEvent>, id: u64)
    requires
        forall|q: int| 0 <= q < evs.len() ==> (#[trigger] evs[q]).damage_value >= 0,
    ensures
        dmg_sum(evs, id) >= 0,
    decreases evs.len(),
{
    if evs.len() > 0 {
        assert forall|q: int| 0 <= q < evs.drop_last().len() implies (
        #[trigger] evs.drop_last()[q]).damage_value >= 0 by {
            assert(evs.drop_last()[q] == evs[q]);
        }
        lemma_dmg_sum_nonneg(evs.drop_last(), id);
        assert(evs.last() == evs[evs.len() - 1]);
    }
}

/// The meaning of the damage pass on one entity: all damage queued
/// against its identity comes off its health, saturating at the
/// representation floor; entities without health are untouched.
pub open spec fn damaged_entity_s(e: Entity, evs: Seq<DamageEvent>) -> Entity {
    match e.health {
        Option::Some(h) => Entity {
            health: Option::Some(sat_health(h - dmg_sum(evs, e.id)) as i64),
            ..e
        },
        Option::None => e,
    }
}

/// The damage pass: consume every queued damage event, subtracting its
/// value from the target's health.  Targets that no longer exist or
/// carry no health are silently skipped; health may go negative.
pub fn inflict_damage_system(store: &mut EntityStore)
    requires
        old(store).wf(),
    ensures
        final(store).wf(),
        final(store).config == old(store).config,
        final(store).next_id == old(store).next_id,
        final(store).entities.len() == old(store).entities.len(),
        final(store).damage_events.len() == 0,
        final(store).collision_events == old(store).collision_events,
        final(store).missile_spawn_events == old(store).missile_spawn_events,
        final(store).mine_spawn_events == old(store).mine_spawn_events,
        final(store).detonation_events == old(store).detonation_events,
        forall|k: int|
            0 <= k < old(store).entities.len() ==> #[trigger] final(store).entities[k]
                == damaged_entity_s(old(store).entities[k], old(store).damage_events@),
{
    let m = store.damage_events.len();
    let mut q: usize = 0;
    while q < m
        invariant
            old(store).wf(),
            store.wf(),
            store.config == old(store).config,
            store.next_id == old(store).next_id,
            store.entities.len() == old(store).entities.len(),
            store.damage_events == old(store).damage_events,
            store.collision_events == old(store).collision_events,
            store.missile_spawn_events == old(store).missile_spawn_events,
            store.mine_spawn_events == old(store).mine_spawn_events,
            store.detonation_events == old(store).detonation_events,
            m == old(store).damage_events.len(),
            q <= m,
            forall|k: int|
                0 <= k < old(store).entities.len() ==> #[trigger] store.entities[k]
                    == damaged_entity_s(
                    old(store).entities[k],
                    old(store).damage_events@.subrange(0, q as int),
                ),
        decreases m - q,
    {
        let ghost evs = old(store).damage_events@;
        let ghost qi = q as int;
        let ghost pre = *store;
        proof {
            assert(evs.subrange(0, qi + 1).drop_last() =~= evs.subrange(0, qi));
            assert(evs.subrange(0, qi + 1).last() == evs[qi]);
            assert(damage_events_nonneg(evs));
        }
        let ev = store.damage_events[q];
        match store.index_of(ev.target) {
            Option::Some(i) => {
                let e = store.entities[i];
                match e.health {
                    Option::Some(h) => {
                        proof {
                            lemma_sum_nonneg_prefix(evs, qi, e.id);
                            lemma_sum_nonneg_prefix(evs, qi + 1, e.id);
                        }
                        let floor: i64 = -HEALTH_LIMIT;
                        let nh: i64 = if h - ev.damage_value >= floor {
                            h - ev.damage_value
                        } else {
                            floor
                        };
                        let mut e2 = e;
                        e2.health = Option::Some(nh);
                        store.entities[i] = e2;
                    },
                    Option::None => {},
                }
            },
            Option::None => {},
        }
        proof {
            assert forall|k: int| 0 <= k < old(store).entities.len() implies
                #[trigger] store.entities[k] == damaged_entity_s(
                old(store).entities[k],
                evs.subrange(0, qi + 1),
            ) by {
                let ok = old(store).entities[k];
                assert(pre.entities[k] == damaged_entity_s(ok, evs.subrange(0, qi)));
                if evs[qi].target == ok.id {
                    lemma_sum_nonneg_prefix(evs, qi, ok.id);
                } else {
                    assert(dmg_sum(evs.subrange(0, qi + 1), ok.id) == dmg_sum(
                        evs.subrange(0, qi),
                        ok.id,
                    ));
                }
            }
        }
        q = q + 1;
    }
    proof {
        assert(old(store).damage_events@.subrange(0, m as int) =~= old(store).damage_events@);
    }
    store.damage_events = Vec::new();
}

/// All queued damage values are non-negative.
pub open spec fn damage_events_nonneg(evs: Seq<DamageEvent>) -> bool {
    forall|q: int| 0 <= q < evs.len() ==> (#[trigger] evs[q]).damage_value >= 0
}

proof fn lemma_sum_nonneg_prefix(evs: Seq<DamageEvent>, q: int, id: u64)
    requires
        damage_events_nonneg(evs),
        0 <= q <= evs.len(),
    ensures
        dmg_sum(evs.subrange(0, q), id) >= 0,
{
    assert forall|j: int| 0 <= j < evs.subrange(0, q).len() implies (#[trigger] evs.subrange(
        0,
        q,
    )[j]).damage_value >= 0 by {
        assert(evs.subrange(0, q)[j] == evs[j]);
    }
    lemma_dmg_sum_nonneg(evs.subrange(0, q), id);
}

/// An entity is dead once its health has dropped to or below zero.
pub open spec fn dead_s(e: Entity) -> bool {
    match e.health {
        Option::Some(h) => h <= 0,
        Option::None => false,
    }
}

/// The keep-flags of lifecycle cleanup.
pub open spec fn alive_flags(s: EntityStore) -> Seq<bool> {
    Seq::new(s.entities@.len(), |k: int| !dead_s(s.entities[k]))
}

/// Lifecycle cleanup: every entity whose health is at or below zero is
/// removed from the world; it is never resurrected.
pub fn despawn_dead_system(store: &mut EntityStore)
    requires
        old(store).wf(),
    ensures
        final(store).wf(),
        final(store).config == old(store).config,
        final(store).next_id == old(store).next_id,
        final(store).entities@ == filter_by_flags(old(store).entities@, alive_flags(*old(store))),
        final(store).damage_events == old(store).damage_events,
        final(store).collision_events == old(store).collision_events,
        final(store).missile_spawn_events == old(store).missile_spawn_events,
        final(store).mine_spawn_events == old(store).mine_spawn_events,
        final(store).detonation_events == old(store).detonation_events,
{
    let n = store.entities.len();
    let mut keep: Vec<bool> = Vec::new();
    let mut k: usize = 0;
    while k < n
        invariant
            old(store).wf(),
            *store == *old(store),
            n == store.entities.len(),
            k <= n,
            keep.len() == k,
            forall|j: int| 0 <= j < k ==> keep@[j] == !dead_s(old(store).entities[j]),
        decreases n - k,
    {
        let e = store.entities[k];
        let dead = match e.health {
            Option::Some(h) => h <= 0,
            Option::None => false,
        };
        keep.push(!dead);
        k = k + 1;
    }
    proof {
        assert(keep@ =~= alive_flags(*old(store)));
    }
    store.retain_entities(&keep);
}

/// An entity whose self-destruct timer has expired.
pub open spec fn self_destructed_s(e: Entity) -> bool {
    match e.self_destruct {
        Option::Some(t) => t.spec_expired(),
        Option::None => false,
    }
}

/// The keep-flags of the self-destruct pass.
pub open spec fn self_destruct_flags(s: EntityStore) -> Seq<bool> {
    Seq::new(s.entities@.len(), |k: int| !self_destructed_s(s.entities[k]))
}

/// Remove every entity whose self-destruct timer has run out: the
/// short-lived visual-effect entities clean themselves up.
pub fn handle_self_destruct_system(store: &mut EntityStore)
    requires
        old(store).wf(),
    ensures
        final(store).wf(),
        final(store).config == old(store).config,
        final(store).next_id == old(store).next_id,
        final(store).entities@ == filter_by_flags(
            old(store).entities@,
            self_destruct_flags(*old(store)),
        ),
        final(store).damage_events == old(store).damage_events,
        final(store).collision_events == old(store).collision_events,
        final(store).missile_spawn_events == old(store).missile_spawn_events,
        final(store).mine_spawn_events == old(store).mine_spawn_events,
        final(store).detonation_events == old(store).detonation_events,
{
    let n = store.entities.len();
    let mut keep: Vec<bool> = Vec::new();
    let mut k: usize = 0;
    while k < n
        invariant
            old(store).wf(),
            *store == *old(store),
            n == store.entities.len(),
            k <= n,
            keep.len() == k,
            forall|j: int| 0 <= j < k ==> keep@[j] == !self_destructed_s(old(store).entities[j]),
        decreases n - k,
    {
        let e = store.entities[k];
        let gone = match &e.self_destruct {
            Option::Some(t) => t.is_expired(),
            Option::None => false,
        };
        keep.push(!gone);
        k = k + 1;
    }
    proof {
        assert(keep@ =~= self_destruct_flags(*old(store)));
    }
    store.retain_entities(&keep);
}

/// A missile named by a queued detonation event.
pub open spec fn detonated_s(s: EntityStore, k: int) -> bool {
    &&& 0 <= k < s.entities.len()
    &&& s.entities[k].missile is Some
    &&& exists|q: int|
        0 <= q < s.detonation_events.len() && (#[trigger] s.detonation_events[q]).entity
            == s.entities[k].id
}

/// The keep-flags of the detonation pass.
pub open spec fn detonation_flags(s: EntityStore) -> Seq<bool> {
    Seq::new(s.entities@.len(), |k: int| !detonated_s(s, k))
}

/// A body a detonation's blast reaches: a solid non-missile entity
/// whose circle overlaps the blast radius around `center`.
pub open spec fn blast_target_s(c: Entity, center: crate::vec2::Vec2, cfg: crate::config::SimConfig) -> bool {
    &&& c.collision_class == Option::Some(CollisionClass::Solid)
    &&& c.missile is None
    &&& match c.collision {
        Option::Some(cb) => norm_sq_s(
            center.x - c.pose.pos.x,
            center.y - c.pose.pos.y,
        ) < crate::fixed::sq(cb.width_radius + cfg.explosion_radius),
        Option::None => false,
    }
}

/// The damage events one detonation queues against the first `t`
/// entities: the configured blast damage to every body it reaches.
pub open spec fn burst_events_s(s: EntityStore, k: int, t: int) -> Seq<DamageEvent>
    decreases t,
{
    if t <= 0 {
        Seq::empty()
    } else {
        let rest = burst_events_s(s, k, t - 1);
        if blast_target_s(s.entities[t - 1], s.entities[k].pose.pos, s.config) {
            rest.push(
                DamageEvent {
                    target: s.entities[t - 1].id,
                    damage_value: s.config.explosion_damage,
                    damage_type: DamageType::Kinetic,
                },
            )
        } else {
            rest
        }
    }
}

/// The damage events the detonation pass queues while scanning the
/// first `k` entities: one full blast per detonated missile.
pub open spec fn detonation_damage_s(s: EntityStore, k: int) -> Seq<DamageEvent>
    decreases k,
{
    if k <= 0 {
        Seq::empty()
    } else {
        let rest = detonation_damage_s(s, k - 1);
        if detonated_s(s, k - 1) {
            rest + burst_events_s(s, k - 1, s.entities.len() as int)
        } else {
            rest
        }
    }
}

/// The blast fold reads only the entities and the tuning.
proof fn lemma_burst_congruent(s1: EntityStore, s2: EntityStore, k: int, t: int)
    requires
        s1.entities == s2.entities,
        s1.config == s2.config,
    ensures
        burst_events_s(s1, k, t) == burst_events_s(s2, k, t),
    decreases t,
{
    if t > 0 {
        lemma_burst_congruent(s1, s2, k, t - 1);
    }
}

/// Handle queued detonations: each detonating missile deals the
/// configured explosion damage to every solid body within its blast
/// radius, then despawns; the queue is consumed.
pub fn handle_denotation_event_system(store: &mut EntityStore)
    requires
        old(store).wf(),
    ensures
        final(store).wf(),
        final(store).config == old(store).config,
        final(store).next_id == old(store).next_id,
        final(store).entities@ == filter_by_flags(
            old(store).entities@,
            detonation_flags(*old(store)),
        ),
        final(store).detonation_events.len() == 0,
        final(store).collision_events == old(store).collision_events,
        final(store).missile_spawn_events == old(store).missile_spawn_events,
        final(store).mine_spawn_events == old(store).mine_spawn_events,
        final(store).damage_events@ == old(store).damage_events@ + detonation_damage_s(
            *old(store),
            old(store).entities.len() as int,
        ),
{
    let n = store.entities.len();
    let m = store.detonation_events.len();
    let mut keep: Vec<bool> = Vec::new();
    let mut k: usize = 0;
    proof {
        assert(store.damage_events@ =~= old(store).damage_events@ + detonation_damage_s(
            *old(store),
            0,
        ));
    }
    while k < n
        invariant
            old(store).wf(),
            store.wf(),
            store.config == old(store).config,
            store.next_id == old(store).next_id,
            store.entities == old(store).entities,
            store.detonation_events == old(store).detonation_events,
            store.collision_events == old(store).collision_events,
            store.missile_spawn_events == old(store).missile_spawn_events,
            store.mine_spawn_events == old(store).mine_spawn_events,
            n == store.entities.len(),
            m == store.detonation_events.len(),
            k <= n,
            keep.len() == k,
            store.damage_events@ == old(store).damage_events@ + detonation_damage_s(
                *old(store),
                k as int,
            ),
            forall|j: int| 0 <= j < k ==> keep@[j] == !detonated_s(*old(store), j),
        decreases n - k,
    {
        let ghost pre_evs = detonation_damage_s(*old(store), k as int);
        let e = store.entities[k];
        let mut hit: bool = false;
        if e.missile.is_some() {
            let mut q: usize = 0;
            while q < m
                invariant
                    old(store).wf(),
                    store.wf(),
                    store.config == old(store).config,
                    store.next_id == old(store).next_id,
                    store.entities == old(store).entities,
                    store.detonation_events == old(store).detonation_events,
                    store.collision_events == old(store).collision_events,
                    store.missile_spawn_events == old(store).missile_spawn_events,
                    store.mine_spawn_events == old(store).mine_spawn_events,
                    n == store.entities.len(),
                    m == store.detonation_events.len(),
                    k < n,
                    e == store.entities[k as int],
                    e.missile is Some,
                    q <= m,
                    hit ==> detonated_s(*old(store), k as int),
                    hit ==> store.damage_events@ == old(store).damage_events@ + pre_evs
                        + burst_events_s(*old(store), k as int, n as int),
                    !hit ==> store.damage_events@ == old(store).damage_events@ + pre_evs,
                    !hit ==> forall|q2: int|
                        0 <= q2 < q ==> (#[trigger] store.detonation_events[q2]).entity != e.id,
                decreases m - q,
            {
                if store.detonation_events[q].entity == e.id && !hit {
                    hit = true;
                    let ghost pre_burst = *store;
                    explosion_damage_burst(store, k);
                    proof {
                        lemma_burst_congruent(pre_burst, *old(store), k as int, n as int);
                    }
                }
                q = q + 1;
            }
        }
        keep.push(!hit);
        proof {
            if hit {
                assert(detonation_damage_s(*old(store), k + 1) == pre_evs + burst_events_s(
                    *old(store),
                    k as int,
                    n as int,
                ));
                assert(store.damage_events@ =~= old(store).damage_events@
                    + detonation_damage_s(*old(store), k + 1));
            } else {
                assert(!detonated_s(*old(store), k as int));
                assert(detonation_damage_s(*old(store), k + 1) == pre_evs);
            }
        }
        k = k + 1;
    }
    proof {
        assert(keep@ =~= detonation_flags(*old(store)));
    }
    store.retain_entities(&keep);
    store.detonation_events = Vec::new();
}

/// Queue the explosion damage of the missile at index `k` against
/// every solid body inside its blast radius.
fn explosion_damage_burst(store: &mut EntityStore, k: usize)
    requires
        old(store).wf(),
        k < old(store).entities.len(),
    ensures
        final(store).wf(),
        final(store).config == old(store).config,
        final(store).next_id == old(store).next_id,
        final(store).entities == old(store).entities,
        final(store).detonation_events == old(store).detonation_events,
        final(store).collision_events == old(store).collision_events,
        final(store).missile_spawn_events == old(store).missile_spawn_events,
        final(store).mine_spawn_events == old(store).mine_spawn_events,
        final(store).damage_events@ == old(store).damage_events@ + burst_events_s(
            *old(store),
            k as int,
            old(store).entities.len() as int,
        ),
{
    let n = store.entities.len();
    let center = store.entities[k].pose.pos;
    proof {
        assert(store.damage_events@ =~= old(store).damage_events@ + burst_events_s(
            *old(store),
            k as int,
            0,
        ));
    }
    let mut t: usize = 0;
    while t < n
        invariant
            old(store).wf(),
            store.wf(),
            store.config == old(store).config,
            store.next_id == old(store).next_id,
            store.entities == old(store).entities,
            store.detonation_events == old(store).detonation_events,
            store.collision_events == old(store).collision_events,
            store.missile_spawn_events == old(store).missile_spawn_events,
            store.mine_spawn_events == old(store).mine_spawn_events,
            n == store.entities.len(),
            k < n,
            center == store.entities[k as int].pose.pos,
            t <= n,
            store.damage_events@ == old(store).damage_events@ + burst_events_s(
                *old(store),
                k as int,
                t as int,
            ),
        decreases n - t,
    {
        let ghost pre_burst_evs = burst_events_s(*old(store), k as int, t as int);
        let c = store.entities[t];
        let solid = matches!(c.collision_class, Option::Some(CollisionClass::Solid));
        let not_missile = c.missile.is_none();
        if solid && not_missile {
            match &c.collision {
                Option::Some(cb) => {
                    let d = center.sub(c.pose.pos);
                    let dist_sq: i128 = d.norm_sq_exec();
                    let rsum: i64 = cb.width_radius + store.config.explosion_radius;
                    proof {
                        crate::fixed::lemma_mul_mag_le(
                            rsum as int,
                            rsum as int,
                            2_000_000_000,
                            2_000_000_000,
                        );
                    }
                    if dist_sq < (rsum as i128) * (rsum as i128) {
                        let dmg = store.config.explosion_damage;
                        let id = c.id;
                        store.damage_events.push(
                            DamageEvent {
                                target: id,
                                damage_value: dmg,
                                damage_type: DamageType::Kinetic,
                            },
                        );
                        proof {
                            assert(blast_target_s(
                                old(store).entities[t as int],
                                old(store).entities[k as int].pose.pos,
                                old(store).config,
                            ));
                            assert(store.damage_events@ =~= old(store).damage_events@
                                + burst_events_s(*old(store), k as int, t + 1));
                        }
                    } else {
                        proof {
                            assert(!blast_target_s(
                                old(store).entities[t as int],
                                old(store).entities[k as int].pose.pos,
                                old(store).config,
                            ));
                        }
                    }
                },
                Option::None => {},
            }
        }
        t = t + 1;
    }
}

} // verus!
