//! The motion integrator.
//!
//! Each tick, every entity with a velocity is translated by
//! `velocity * ms_to_ps * dt`, its speed is clamped to the configured
//! ceiling, and dampening is applied: an entity with its own drag
//! factor decays toward zero every tick, an entity without one is
//! dampened by the global factor only above the drift floor, so a slow
//! residual drift persists indefinitely.  Projectiles are integrated
//! separately: their ballistic path is neither clamped nor dampened,
//! and their fuel burns down by a fixed amount per tick until they are
//! removed.

use vstd::prelude::*;
use crate::config::{DT_LIMIT, SimConfig};
use crate::entity::{DragPolicy, Entity, FUEL_LIMIT, POS_LIMIT, Pose, Projectile, VEL_LIMIT};
use crate::fixed::{FP, clamp_s, div_t, mag, muldiv_t, sq, clamp64, lemma_damp_shrinks,
    lemma_muldiv_mag, lemma_norm_shrinks, muldiv64};
use crate::store::EntityStore;
use crate::vec2::{Vec2, clamp_len_s, norm_sq_s};

verus! {

/// One translated coordinate: the position moved by
/// `v * ms_to_ps * dt` (all fixed point), kept inside the world box.
pub open spec fn translate_comp_s(p: int, v: int, cfg: SimConfig, dt: int) -> int {
    clamp_s(
        p + muldiv_t(muldiv_t(v, cfg.ms_to_ps as int, FP as int), dt, FP as int),
        -POS_LIMIT as int,
        POS_LIMIT as int,
    )
}

/// One dampened velocity coordinate.
pub open spec fn damp_comp_s(v: int, f: int) -> int {
    div_t(v * f, FP as int)
}

/// The dampening pass over a velocity, by policy.
pub open spec fn dragged_s(x: int, y: int, drag: DragPolicy, cfg: SimConfig) -> (int, int) {
    match drag {
        DragPolicy::Dampened { factor } => (damp_comp_s(x, factor as int), damp_comp_s(
            y,
            factor as int,
        )),
        DragPolicy::DriftFloor => if norm_sq_s(x, y) > sq(cfg.drift_floor as int) {
            (damp_comp_s(x, cfg.dampening_factor as int), damp_comp_s(
                y,
                cfg.dampening_factor as int,
            ))
        } else {
            (x, y)
        },
    }
}

/// The whole velocity update of one integration step: speed clamp,
/// then dampening.
pub open spec fn motion_vel_s(v: Vec2, drag: DragPolicy, cfg: SimConfig) -> (int, int) {
    let c = clamp_len_s(v.x as int, v.y as int, cfg.max_speed as int);
    dragged_s(c.0, c.1, drag, cfg)
}

/// The meaning of one integration step on a non-projectile entity.
pub open spec fn integrate_spec(e: Entity, cfg: SimConfig, dt: int) -> Entity {
    match e.vel {
        Option::Some(v) => {
            let vv = motion_vel_s(v, e.drag, cfg);
            Entity {
                pose: Pose {
                    pos: Vec2 {
                        x: translate_comp_s(e.pose.pos.x as int, v.x as int, cfg, dt) as i64,
                        y: translate_comp_s(e.pose.pos.y as int, v.y as int, cfg, dt) as i64,
                    },
                    heading: e.pose.heading,
                },
                vel: Option::Some(Vec2 { x: vv.0 as i64, y: vv.1 as i64 }),
                ..e
            }
        },
        Option::None => e,
    }
}

/// Translate one coordinate.
fn translate_comp(p: i64, v: i64, cfg: &SimConfig, dt: i64) -> (r: i64)
    requires
        cfg.wf(),
        0 <= dt <= DT_LIMIT,
        mag(p as int) <= POS_LIMIT,
        mag(v as int) <= VEL_LIMIT,
    ensures
        r == translate_comp_s(p as int, v as int, *cfg, dt as int),
        mag(r as int) <= POS_LIMIT,
{
    proof {
        lemma_muldiv_mag(
            v as int,
            cfg.ms_to_ps as int,
            FP as int,
            VEL_LIMIT as int,
            100 * (FP as int),
        );
        lemma_muldiv_mag(
            muldiv_t(v as int, cfg.ms_to_ps as int, FP as int),
            dt as int,
            FP as int,
            (VEL_LIMIT as int * (100 * (FP as int))) / (FP as int),
            DT_LIMIT as int,
        );
    }
    let step: i64 = muldiv64(v, cfg.ms_to_ps, FP);
    let moved: i64 = muldiv64(step, dt, FP);
    clamp64(p + moved, -POS_LIMIT, POS_LIMIT)
}

/// Apply the dampening policy to an already speed-clamped velocity.
fn apply_drag(v: Vec2, drag: &DragPolicy, cfg: &SimConfig) -> (r: Vec2)
    requires
        cfg.wf(),
        crate::entity::drag_wf(*drag),
        v.in_bounds(VEL_LIMIT as int),
    ensures
        (r.x as int, r.y as int) == dragged_s(v.x as int, v.y as int, *drag, *cfg),
        mag(r.x as int) <= mag(v.x as int),
        mag(r.y as int) <= mag(v.y as int),
        r.norm_sq() <= v.norm_sq(),
    {
    let r = match drag {
        DragPolicy::Dampened { factor } => {
            proof {
                lemma_damp_shrinks(v.x as int, *factor as int, FP as int);
                lemma_damp_shrinks(v.y as int, *factor as int, FP as int);
            }
            Vec2 { x: muldiv64(v.x, *factor, FP), y: muldiv64(v.y, *factor, FP) }
        },
        DragPolicy::DriftFloor => {
            let n2 = v.norm_sq_exec();
            proof {
                assert((cfg.drift_floor as int) * (cfg.drift_floor as int)
                    <= 100_000_000_000_000) by (nonlinear_arith)
                    requires
                        0 <= cfg.drift_floor <= 10_000_000,
                ;
            }
            if n2 > (cfg.drift_floor as i128) * (cfg.drift_floor as i128) {
                proof {
                    lemma_damp_shrinks(v.x as int, cfg.dampening_factor as int, FP as int);
                    lemma_damp_shrinks(v.y as int, cfg.dampening_factor as int, FP as int);
                }
                Vec2 {
                    x: muldiv64(v.x, cfg.dampening_factor, FP),
                    y: muldiv64(v.y, cfg.dampening_factor, FP),
                }
            } else {
                v
            }
        },
    };
    proof {
        if let DragPolicy::Dampened { factor } = *drag {
            lemma_damp_shrinks(v.x as int, factor as int, FP as int);
            lemma_damp_shrinks(v.y as int, factor as int, FP as int);
        } else {
            lemma_damp_shrinks(v.x as int, cfg.dampening_factor as int, FP as int);
            lemma_damp_shrinks(v.y as int, cfg.dampening_factor as int, FP as int);
        }
        lemma_norm_shrinks(r.x as int, r.y as int, v.x as int, v.y as int);
    }
    r
}

/// One integration step of a single non-projectile entity.
///
/// After the step the speed never exceeds the configured ceiling, and
/// where no thrust was applied this tick the speed never grows.
pub fn integrate_entity(e: &mut Entity, cfg: &SimConfig, dt: i64)
    requires
        old(e).wf(),
        cfg.wf(),
        0 <= dt <= DT_LIMIT,
    ensures
        *final(e) == integrate_spec(*old(e), *cfg, dt as int),
        final(e).wf(),
        final(e).id == old(e).id,
        old(e).vel is Some ==> (final(e).vel matches Option::Some(v) && norm_sq_s(
            v.x as int,
            v.y as int,
        ) <= sq(cfg.max_speed as int)),
        match (old(e).vel, final(e).vel) {
            (Option::Some(v0), Option::Some(v1)) => v1.norm_sq() <= v0.norm_sq(),
            _ => true,
        },
{
    let v = match &e.vel {
        Option::Some(v) => *v,
        Option::None => {
            return ;
        },
    };
    let px = translate_comp(e.pose.pos.x, v.x, cfg, dt);
    let py = translate_comp(e.pose.pos.y, v.y, cfg, dt);
    let clamped = v.clamp_len(cfg.max_speed);
    let damped = apply_drag(clamped, &e.drag, cfg);
    proof {
        crate::vec2::lemma_box_from_norm(
            damped.x as int,
            damped.y as int,
            cfg.max_speed as int,
        );
    }
    e.pose = Pose { pos: Vec2 { x: px, y: py }, heading: e.pose.heading };
    e.vel = Option::Some(damped);
}

/// The meaning of one ballistic step on a projectile entity: translate
/// along the unchanged velocity, burn fuel.
pub open spec fn projectile_step_spec(e: Entity, p: Projectile, cfg: SimConfig, dt: int) -> Entity {
    let v = match e.vel {
        Option::Some(v) => v,
        Option::None => Vec2 { x: 0, y: 0 },
    };
    Entity {
        pose: Pose {
            pos: Vec2 {
                x: translate_comp_s(e.pose.pos.x as int, v.x as int, cfg, dt) as i64,
                y: translate_comp_s(e.pose.pos.y as int, v.y as int, cfg, dt) as i64,
            },
            heading: e.pose.heading,
        },
        projectile: Option::Some(
            Projectile { fuel: spent_fuel(p.fuel as int, cfg.fuel_per_tick as int) as i64, ..p },
        ),
        ..e
    }
}

/// Fuel after one tick's burn, saturating at the representation floor.
pub open spec fn spent_fuel(fuel: int, per_tick: int) -> int {
    if fuel - per_tick >= -FUEL_LIMIT {
        fuel - per_tick
    } else {
        -FUEL_LIMIT as int
    }
}

/// One ballistic step of a projectile entity.  Returns whether its
/// fuel is now spent, which despawns it: a projectile with fuel `k`
/// ticks of burn left survives exactly `k - 1` further steps.
pub fn move_projectile_entity(e: &mut Entity, cfg: &SimConfig, dt: i64) -> (expired: bool)
    requires
        old(e).wf(),
        old(e).projectile is Some,
        cfg.wf(),
        0 <= dt <= DT_LIMIT,
    ensures
        final(e).wf(),
        final(e).id == old(e).id,
        old(e).projectile matches Option::Some(p) && *final(e) == projectile_step_spec(
            *old(e),
            p,
            *cfg,
            dt as int,
        ),
        old(e).projectile matches Option::Some(p) && expired == (p.fuel - cfg.fuel_per_tick <= 0),
{
    let p = match &e.projectile {
        Option::Some(p) => *p,
        Option::None => {
            return false;
        },
    };
    let v = match &e.vel {
        Option::Some(v) => *v,
        Option::None => Vec2::zero(),
    };
    let px = translate_comp(e.pose.pos.x, v.x, cfg, dt);
    let py = translate_comp(e.pose.pos.y, v.y, cfg, dt);
    let fuel: i64 = if p.fuel - cfg.fuel_per_tick >= -FUEL_LIMIT {
        p.fuel - cfg.fuel_per_tick
    } else {
        -FUEL_LIMIT
    };
    e.pose = Pose { pos: Vec2 { x: px, y: py }, heading: e.pose.heading };
    e.projectile = Option::Some(Projectile { fuel, ..p });
    fuel <= 0
}

/// The per-tick motion pass over every non-projectile entity with a
/// velocity; entities without one are skipped, projectiles are moved
/// by their own pass.
pub fn movement_system(store: &mut EntityStore, dt: i64)
    requires
        old(store).wf(),
        0 <= dt <= DT_LIMIT,
    ensures
        final(store).wf(),
        final(store).config == old(store).config,
        final(store).next_id == old(store).next_id,
        final(store).entities.len() == old(store).entities.len(),
        forall|i: int|
            0 <= i < old(store).entities.len() ==> #[trigger] final(store).entities[i] == (if old(
                store,
            ).entities[i].projectile is Some {
                old(store).entities[i]
            } else {
                integrate_spec(old(store).entities[i], old(store).config, dt as int)
            }),
        final(store).damage_events == old(store).damage_events,
        final(store).collision_events == old(store).collision_events,
        final(store).missile_spawn_events == old(store).missile_spawn_events,
        final(store).mine_spawn_events == old(store).mine_spawn_events,
        final(store).detonation_events == old(store).detonation_events,
{
    let n = store.entities.len();
    let cfg = store.config;
    let mut i: usize = 0;
    while i < n
        invariant
            old(store).wf(),
            store.config == old(store).config,
            store.next_id == old(store).next_id,
            store.damage_events == old(store).damage_events,
            store.collision_events == old(store).collision_events,
            store.missile_spawn_events == old(store).missile_spawn_events,
            store.mine_spawn_events == old(store).mine_spawn_events,
            store.detonation_events == old(store).detonation_events,
            cfg == old(store).config,
            0 <= dt <= DT_LIMIT,
            i <= n,
            n == store.entities.len(),
            n == old(store).entities.len(),
            forall|j: int|
                i <= j < n ==> #[trigger] store.entities[j] == old(store).entities[j],
            forall|j: int|
                0 <= j < i ==> #[trigger] store.entities[j] == (if old(
                    store,
                ).entities[j].projectile is Some {
                    old(store).entities[j]
                } else {
                    integrate_spec(old(store).entities[j], old(store).config, dt as int)
                }),
            forall|j: int| 0 <= j < n ==> (#[trigger] store.entities[j]).wf(),
            forall|j: int|
                0 <= j < n ==> (#[trigger] store.entities[j]).id == old(store).entities[j].id,
        decreases n - i,
    {
        let mut e = store.entities[i];
        if e.projectile.is_none() {
            integrate_entity(&mut e, &cfg, dt);
            store.entities[i] = e;
        }
        i = i + 1;
    }
}

/// The entities after one ballistic step of every projectile.
pub open spec fn projectiles_stepped_s(s: EntityStore, dt: int) -> Seq<Entity> {
    Seq::new(
        s.entities@.len(),
        |k: int|
            match s.entities[k].projectile {
                Option::Some(p) => projectile_step_spec(s.entities[k], p, s.config, dt),
                Option::None => s.entities[k],
            },
    )
}

/// The keep-flags of the projectile pass: a projectile whose fuel is
/// spent this tick despawns.
pub open spec fn projectile_fuel_flags(s: EntityStore) -> Seq<bool> {
    Seq::new(
        s.entities@.len(),
        |k: int|
            match s.entities[k].projectile {
                Option::Some(p) => p.fuel - s.config.fuel_per_tick > 0,
                Option::None => true,
            },
    )
}

/// The ballistic pass: translate every projectile along its velocity
/// (no drag, no speed clamp — the path stays deterministic and
/// undamped), burn one tick of fuel, and remove the projectiles whose
/// fuel is spent.  A projectile with `k` ticks of fuel is integrated on
/// every tick up through its removal on tick `k`.
pub fn move_projectiles_system(store: &mut EntityStore, dt: i64)
    requires
        old(store).wf(),
        0 <= dt <= DT_LIMIT,
    ensures
        final(store).wf(),
        final(store).config == old(store).config,
        final(store).next_id == old(store).next_id,
        final(store).entities@ == crate::store::filter_by_flags(
            projectiles_stepped_s(*old(store), dt as int),
            projectile_fuel_flags(*old(store)),
        ),
        final(store).damage_events == old(store).damage_events,
        final(store).collision_events == old(store).collision_events,
        final(store).missile_spawn_events == old(store).missile_spawn_events,
        final(store).mine_spawn_events == old(store).mine_spawn_events,
        final(store).detonation_events == old(store).detonation_events,
{
    let n = store.entities.len();
    let cfg = store.config;
    let mut keep: Vec<bool> = Vec::new();
    let mut i: usize = 0;
    while i < n
        invariant
            old(store).wf(),
            store.config == old(store).config,
            store.next_id == old(store).next_id,
            store.damage_events == old(store).damage_events,
            store.collision_events == old(store).collision_events,
            store.missile_spawn_events == old(store).missile_spawn_events,
            store.mine_spawn_events == old(store).mine_spawn_events,
            store.detonation_events == old(store).detonation_events,
            cfg == old(store).config,
            0 <= dt <= DT_LIMIT,
            i <= n,
            n == store.entities.len(),
            n == old(store).entities.len(),
            keep.len() == i,
            forall|j: int|
                i <= j < n ==> #[trigger] store.entities[j] == old(store).entities[j],
            forall|j: int|
                0 <= j < i ==> #[trigger] store.entities[j] == projectiles_stepped_s(
                    *old(store),
                    dt as int,
                )[j],
            forall|j: int|
                0 <= j < i ==> keep@[j] == projectile_fuel_flags(*old(store))[j],
            forall|j: int| 0 <= j < n ==> (#[trigger] store.entities[j]).wf(),
            forall|j: int|
                0 <= j < n ==> (#[trigger] store.entities[j]).id == old(store).entities[j].id,
            store.ids_wf(),
            store.events_wf(),
        decreases n - i,
    {
        let mut e = store.entities[i];
        if e.projectile.is_some() {
            let expired = move_projectile_entity(&mut e, &cfg, dt);
            store.entities[i] = e;
            keep.push(!expired);
        } else {
            keep.push(true);
        }
        i = i + 1;
    }
    proof {
        assert(store.entities@ =~= projectiles_stepped_s(*old(store), dt as int));
        assert(keep@ =~= projectile_fuel_flags(*old(store)));
    }
    store.retain_entities(&keep);
}

/// One coordinate clamped into the playfield's interior margin.
pub open spec fn confine_comp_s(p: int, lo: int, hi: int) -> int {
    clamp_s(p, lo, hi)
}

/// Keep the player inside the viewport: each coordinate is clamped a
/// half-sprite margin away from the edges.  The viewport dimensions
/// come from the shell.
pub fn confine_player_movement_system(store: &mut EntityStore, width: i64, height: i64)
    requires
        old(store).wf(),
        64_000 <= width <= POS_LIMIT,
        64_000 <= height <= POS_LIMIT,
    ensures
        final(store).wf(),
        final(store).config == old(store).config,
        final(store).next_id == old(store).next_id,
        final(store).entities.len() == old(store).entities.len(),
        final(store).damage_events == old(store).damage_events,
        final(store).collision_events == old(store).collision_events,
        final(store).missile_spawn_events == old(store).missile_spawn_events,
        final(store).mine_spawn_events == old(store).mine_spawn_events,
        final(store).detonation_events == old(store).detonation_events,
        forall|k: int|
            0 <= k < old(store).entities.len() && !(#[trigger] old(store).entities[k]).player
                ==> final(store).entities[k] == old(store).entities[k],
        forall|k: int|
            0 <= k < old(store).entities.len() && (#[trigger] old(store).entities[k]).player
                ==> final(store).entities[k] == (Entity {
                pose: Pose {
                    pos: Vec2 {
                        x: confine_comp_s(
                            old(store).entities[k].pose.pos.x as int,
                            32_000,
                            width - 32_000,
                        ) as i64,
                        y: confine_comp_s(
                            old(store).entities[k].pose.pos.y as int,
                            32_000,
                            height - 32_000,
                        ) as i64,
                    },
                    heading: old(store).entities[k].pose.heading,
                },
                ..old(store).entities[k]
            }),
{
    let n = store.entities.len();
    let mut i: usize = 0;
    while i < n
        invariant
            old(store).wf(),
            store.config == old(store).config,
            store.next_id == old(store).next_id,
            store.damage_events == old(store).damage_events,
            store.collision_events == old(store).collision_events,
            store.missile_spawn_events == old(store).missile_spawn_events,
            store.mine_spawn_events == old(store).mine_spawn_events,
            store.detonation_events == old(store).detonation_events,
            64_000 <= width <= POS_LIMIT,
            64_000 <= height <= POS_LIMIT,
            i <= n,
            n == store.entities.len(),
            n == old(store).entities.len(),
            forall|k: int|
                i <= k < n ==> #[trigger] store.entities[k] == old(store).entities[k],
            forall|k: int|
                0 <= k < i && !(#[trigger] old(store).entities[k]).player ==> store.entities[k]
                    == old(store).entities[k],
            forall|k: int|
                0 <= k < i && (#[trigger] old(store).entities[k]).player ==> store.entities[k]
                    == (Entity {
                    pose: Pose {
                        pos: Vec2 {
                            x: confine_comp_s(
                                old(store).entities[k].pose.pos.x as int,
                                32_000,
                                width - 32_000,
                            ) as i64,
                            y: confine_comp_s(
                                old(store).entities[k].pose.pos.y as int,
                                32_000,
                                height - 32_000,
                            ) as i64,
                        },
                        heading: old(store).entities[k].pose.heading,
                    },
                    ..old(store).entities[k]
                }),
            forall|k: int| 0 <= k < n ==> (#[trigger] store.entities[k]).wf(),
            forall|k: int|
                0 <= k < n ==> (#[trigger] store.entities[k]).id == old(store).entities[k].id,
            store.ids_wf(),
            store.events_wf(),
        decreases n - i,
    {
        let e = store.entities[i];
        if e.player {
            let mut e2 = e;
            e2.pose = Pose {
                pos: Vec2 {
                    x: clamp64(e.pose.pos.x, 32_000, width - 32_000),
                    y: clamp64(e.pose.pos.y, 32_000, height - 32_000),
                },
                heading: e.pose.heading,
            };
            store.entities[i] = e2;
        }
        i = i + 1;
    }
}

/// One coordinate wrapped across the viewport edges: past one edge, a
/// body reappears at the other.
pub open spec fn wrap_comp_s(p: int, hi: int) -> int {
    if p < 0 {
        hi
    } else if p > hi {
        0
    } else {
        p
    }
}

/// Wrap every solid body's position across the viewport edges, so
/// ships and asteroids that drift out come back from the other side.
pub fn wrap_clipping_location_system(store: &mut EntityStore, width: i64, height: i64)
    requires
        old(store).wf(),
        0 <= width <= POS_LIMIT,
        0 <= height <= POS_LIMIT,
    ensures
        final(store).wf(),
        final(store).config == old(store).config,
        final(store).next_id == old(store).next_id,
        final(store).entities.len() == old(store).entities.len(),
        final(store).damage_events == old(store).damage_events,
        final(store).collision_events == old(store).collision_events,
        final(store).missile_spawn_events == old(store).missile_spawn_events,
        final(store).mine_spawn_events == old(store).mine_spawn_events,
        final(store).detonation_events == old(store).detonation_events,
        forall|k: int|
            0 <= k < old(store).entities.len() ==> #[trigger] final(store).entities[k] == (if old(
                store,
            ).entities[k].collision_class == Option::Some(
                crate::entity::CollisionClass::Solid,
            ) {
                Entity {
                    pose: Pose {
                        pos: Vec2 {
                            x: wrap_comp_s(
                                old(store).entities[k].pose.pos.x as int,
                                width as int,
                            ) as i64,
                            y: wrap_comp_s(
                                old(store).entities[k].pose.pos.y as int,
                                height as int,
                            ) as i64,
                        },
                        heading: old(store).entities[k].pose.heading,
                    },
                    ..old(store).entities[k]
                }
            } else {
                old(store).entities[k]
            }),
{
    let n = store.entities.len();
    let mut i: usize = 0;
    while i < n
        invariant
            old(store).wf(),
            store.config == old(store).config,
            store.next_id == old(store).next_id,
            store.damage_events == old(store).damage_events,
            store.collision_events == old(store).collision_events,
            store.missile_spawn_events == old(store).missile_spawn_events,
            store.mine_spawn_events == old(store).mine_spawn_events,
            store.detonation_events == old(store).detonation_events,
            0 <= width <= POS_LIMIT,
            0 <= height <= POS_LIMIT,
            i <= n,
            n == store.entities.len(),
            n == old(store).entities.len(),
            forall|k: int|
                i <= k < n ==> #[trigger] store.entities[k] == old(store).entities[k],
            forall|k: int|
                0 <= k < i ==> #[trigger] store.entities[k] == (if old(
                    store,
                ).entities[k].collision_class == Option::Some(
                    crate::entity::CollisionClass::Solid,
                ) {
                    Entity {
                        pose: Pose {
                            pos: Vec2 {
                                x: wrap_comp_s(
                                    old(store).entities[k].pose.pos.x as int,
                                    width as int,
                                ) as i64,
                                y: wrap_comp_s(
                                    old(store).entities[k].pose.pos.y as int,
                                    height as int,
                                ) as i64,
                            },
                            heading: old(store).entities[k].pose.heading,
                        },
                        ..old(store).entities[k]
                    }
                } else {
                    old(store).entities[k]
                }),
            forall|k: int| 0 <= k < n ==> (#[trigger] store.entities[k]).wf(),
            forall|k: int|
                0 <= k < n ==> (#[trigger] store.entities[k]).id == old(store).entities[k].id,
            store.ids_wf(),
            store.events_wf(),
        decreases n - i,
    {
        let e = store.entities[i];
        let solid = matches!(
            e.collision_class,
            Option::Some(crate::entity::CollisionClass::Solid)
        );
        if solid {
            let px: i64 = if e.pose.pos.x < 0 {
                width
            } else if e.pose.pos.x > width {
                0
            } else {
                e.pose.pos.x
            };
            let py: i64 = if e.pose.pos.y < 0 {
                height
            } else if e.pose.pos.y > height {
                0
            } else {
                e.pose.pos.y
            };
            let mut e2 = e;
            e2.pose = Pose { pos: Vec2 { x: px, y: py }, heading: e.pose.heading };
            store.entities[i] = e2;
        }
        i = i + 1;
    }
}

} // verus!
