//! The enemy behaviour controllers.
//!
//! All archetypes share two primitives: a bang-bang turn toward a
//! target (turn by the full turn rate, left or right of the signed
//! angular error), and the signed angular error itself, computed from
//! the arctangent of the bearing minus the own heading.  Each
//! archetype is a function from its own state and the player's pose to
//! its next state and the actions it takes; when no player exists the
//! player-relative archetypes simply do nothing that tick.

use vstd::prelude::*;
use crate::angle::{PI_MR, atan2_s, cos_mr_s, heading_wf, sin_mr_s, wrap_full_s, wrap_signed_s,
    atan2_mr, wrap_full, wrap_signed};
use crate::config::{DT_LIMIT, FORCE_LIMIT, SPEED_LIMIT, SimConfig};
use crate::entity::{Entity, MASS_LIMIT, MASS_MIN, POS_LIMIT, Pose, VEL_LIMIT};
use crate::fixed::{FP, mag, muldiv_t, sq, lemma_muldiv_mag, muldiv64};
use crate::store::EntityStore;
use crate::vec2::{Vec2, clamp_len_s, norm_sq_s};

verus! {

/// The signed angular error from `a`'s heading to the bearing of `b`,
/// in `[-PI_MR, PI_MR]`.
pub open spec fn angle_between_s(a: Pose, b: Pose) -> int {
    wrap_signed_s(
        wrap_full_s(atan2_s(b.pos.y - a.pos.y, b.pos.x - a.pos.x)) - a.heading,
    )
}

/// The squared distance between two poses.
pub open spec fn dist_sq_s(a: Pose, b: Pose) -> int {
    norm_sq_s(b.pos.x - a.pos.x, b.pos.y - a.pos.y)
}

/// A heading after one bang-bang turn toward the target: the full turn
/// rate to the left for a positive error, to the right otherwise.
pub open spec fn turn_toward_s(h: int, turn_speed: int, angle_err: int) -> int {
    if angle_err > 0 {
        wrap_full_s(h + turn_speed)
    } else {
        wrap_full_s(h - turn_speed)
    }
}

/// Compute the signed angular error from `a`'s heading to `b`.
pub fn angle_between(a: &Pose, b: &Pose) -> (r: i64)
    requires
        crate::entity::pose_wf(*a),
        crate::entity::pose_wf(*b),
    ensures
        r == angle_between_s(*a, *b),
        -PI_MR <= r <= PI_MR,
{
    let bearing = atan2_mr(b.pos.y - a.pos.y, b.pos.x - a.pos.x);
    let wrapped = wrap_full(bearing);
    wrap_signed(wrapped - a.heading)
}

/// Turn a heading one bang-bang step toward the target.
pub fn turn_toward(h: i64, turn_speed: i64, angle_err: i64) -> (r: i64)
    requires
        heading_wf(h as int),
        0 <= turn_speed <= PI_MR,
    ensures
        r == turn_toward_s(h as int, turn_speed as int, angle_err as int),
        heading_wf(r as int),
{
    if angle_err > 0 {
        wrap_full(h + turn_speed)
    } else {
        wrap_full(h - turn_speed)
    }
}

/// The velocity change of one tick of thrust along `heading`:
/// `(cos, sin) * (force * boost / mass) * dt`, all in fixed point.
pub open spec fn thrust_delta_s(heading: int, force: int, boost: int, mass: int, dt: int) -> (
    int,
    int,
) {
    let a = muldiv_t(force * boost, FP as int, mass);
    (
        muldiv_t(muldiv_t(cos_mr_s(heading), a, FP as int), dt, FP as int),
        muldiv_t(muldiv_t(sin_mr_s(heading), a, FP as int), dt, FP as int),
    )
}

/// The velocity after one tick of thrust, capped at `cap`.
pub open spec fn thrust_vel_s(
    v: Vec2,
    heading: int,
    force: int,
    boost: int,
    mass: int,
    dt: int,
    cap: int,
) -> (int, int) {
    let d = thrust_delta_s(heading, force, boost, mass, dt);
    clamp_len_s(v.x + d.0, v.y + d.1, cap)
}

/// Compute the thrust velocity change.
fn thrust_delta(heading: i64, force: i64, boost: i64, mass: i64, dt: i64) -> (d: Vec2)
    requires
        heading_wf(heading as int),
        0 <= force <= FORCE_LIMIT,
        1 <= boost <= 1000,
        MASS_MIN <= mass <= MASS_LIMIT,
        0 <= dt <= DT_LIMIT,
    ensures
        (d.x as int, d.y as int) == thrust_delta_s(
            heading as int,
            force as int,
            boost as int,
            mass as int,
            dt as int,
        ),
        d.in_bounds(1_000_000_000_000_000_000),
{
    proof {
        assert(0 <= (force as int) * (boost as int) <= 100_000_000_000_000) by (nonlinear_arith)
            requires
                0 <= force <= 100_000_000_000 && 1 <= boost <= 1000,
        ;
    }
    let fb: i64 = force * boost;
    proof {
        lemma_muldiv_mag(
            fb as int,
            FP as int,
            mass as int,
            100_000_000_000_000,
            FP as int,
        );
        crate::angle::lemma_cos_bounds(heading as int);
        crate::angle::lemma_sin_bounds(heading as int);
    }
    let a: i64 = muldiv64(fb, FP, mass);
    let c = crate::angle::cos_mr(heading);
    let s = crate::angle::sin_mr(heading);
    proof {
        lemma_muldiv_mag(
            c as int,
            a as int,
            FP as int,
            FP as int,
            100_000_000_000_000_000,
        );
        lemma_muldiv_mag(
            s as int,
            a as int,
            FP as int,
            FP as int,
            100_000_000_000_000_000,
        );
        lemma_muldiv_mag(
            muldiv_t(c as int, a as int, FP as int),
            dt as int,
            FP as int,
            (FP as int * 100_000_000_000_000_000) / (FP as int),
            DT_LIMIT as int,
        );
        lemma_muldiv_mag(
            muldiv_t(s as int, a as int, FP as int),
            dt as int,
            FP as int,
            (FP as int * 100_000_000_000_000_000) / (FP as int),
            DT_LIMIT as int,
        );
    }
    let sx: i64 = muldiv64(c, a, FP);
    let sy: i64 = muldiv64(s, a, FP);
    Vec2 { x: muldiv64(sx, dt, FP), y: muldiv64(sy, dt, FP) }
}

/// Apply one tick of thrust along `heading` and cap the speed.
pub fn thrust_clamped(
    v: Vec2,
    heading: i64,
    force: i64,
    boost: i64,
    mass: i64,
    dt: i64,
    cap: i64,
) -> (r: Vec2)
    requires
        v.in_bounds(VEL_LIMIT as int),
        heading_wf(heading as int),
        0 <= force <= FORCE_LIMIT,
        1 <= boost <= 1000,
        MASS_MIN <= mass <= MASS_LIMIT,
        0 <= dt <= DT_LIMIT,
        0 <= cap <= SPEED_LIMIT,
    ensures
        (r.x as int, r.y as int) == thrust_vel_s(
            v,
            heading as int,
            force as int,
            boost as int,
            mass as int,
            dt as int,
            cap as int,
        ),
        r.norm_sq() <= sq(cap as int),
        r.in_bounds(cap as int),
{
    let d = thrust_delta(heading, force, boost, mass, dt);
    let sum = v.add(d);
    sum.clamp_len(cap)
}

/// Apply one tick of thrust with no speed cap, only the representation
/// box: the rammer's charge deliberately overshoots every speed limit.
pub fn thrust_unclamped(v: Vec2, heading: i64, force: i64, boost: i64, mass: i64, dt: i64) -> (r:
    Vec2)
    requires
        v.in_bounds(VEL_LIMIT as int),
        heading_wf(heading as int),
        0 <= force <= FORCE_LIMIT,
        1 <= boost <= 1000,
        MASS_MIN <= mass <= MASS_LIMIT,
        0 <= dt <= DT_LIMIT,
    ensures
        ({
            let d = thrust_delta_s(
                heading as int,
                force as int,
                boost as int,
                mass as int,
                dt as int,
            );
            r.x == crate::fixed::clamp_s(v.x + d.0, -VEL_LIMIT as int, VEL_LIMIT as int) && r.y
                == crate::fixed::clamp_s(v.y + d.1, -VEL_LIMIT as int, VEL_LIMIT as int)
        }),
        r.in_bounds(VEL_LIMIT as int),
{
    let d = thrust_delta(heading, force, boost, mass, dt);
    let sum = v.add(d);
    sum.clamp_box(VEL_LIMIT)
}

/// The platform speed a launch inherits: the length of the velocity,
/// held to the representable speed range.
pub open spec fn origin_speed_s(v: Vec2) -> int {
    let s = crate::fixed::sqrt_floor(v.norm_sq() as nat) as int;
    if s > SPEED_LIMIT {
        SPEED_LIMIT as int
    } else {
        s
    }
}

/// Compute the platform speed a launch inherits.
pub fn origin_speed(v: &Vec2) -> (r: i64)
    requires
        v.in_bounds(VEL_LIMIT as int),
    ensures
        r == origin_speed_s(*v),
        0 <= r <= SPEED_LIMIT,
{
    let s = v.norm_exec();
    proof {
        crate::fixed::lemma_sqrt_floor_bounds(v.norm_sq() as nat);
    }
    if s > SPEED_LIMIT {
        SPEED_LIMIT
    } else {
        s
    }
}


/// The entity with only its heading replaced.
pub open spec fn with_heading(e: Entity, h: int) -> Entity {
    Entity { pose: Pose { pos: e.pose.pos, heading: h as i64 }, ..e }
}

/// The entity with only its velocity replaced.
pub open spec fn with_vel(e: Entity, xy: (int, int)) -> Entity {
    Entity { vel: Option::Some(Vec2 { x: xy.0 as i64, y: xy.1 as i64 }), ..e }
}

/// The fire intent of a weapon aimed along the pose's heading.
pub open spec fn intent_of(w: crate::entity::WeaponSystem, pose: Pose, osp: int, cfg: SimConfig)
    -> FireIntent {
    FireIntent {
        pose: crate::weapon::spawn_pose_s(pose, cfg.forward_offset as int),
        launch: crate::weapon::launch_of(w, pose.heading as int, osp),
    }
}

/// The meaning of one turret tick: the new entity and what it fires.
pub open spec fn turret_step_spec(e: Entity, player: Pose, cfg: SimConfig) -> (
    Entity,
    Option<FireIntent>,
) {
    match e.ship {
        Option::Some(sh) => {
            let ang = angle_between_s(e.pose, player);
            let h2 = turn_toward_s(e.pose.heading as int, sh.turn_speed as int, ang);
            let turned = with_heading(e, h2);
            if -cfg.turret_tolerance < ang < cfg.turret_tolerance
                && sh.primary_weapon.cd_timer.spec_expired() {
                let osp = origin_speed_s(vel_or_zero_s(e));
                (
                    Entity { ship: Option::Some(primary_reset_s(sh)), ..turned },
                    Option::Some(intent_of(sh.primary_weapon, turned.pose, osp, cfg)),
                )
            } else {
                (turned, Option::None)
            }
        },
        Option::None => (e, Option::None),
    }
}

/// The meaning of one drone tick.
pub open spec fn drone_step_spec(e: Entity, player: Pose, cfg: SimConfig, dt: int) -> (
    Entity,
    Option<FireIntent>,
) {
    match (e.ship, e.thruster, e.mass, e.vel) {
        (Option::Some(sh), Option::Some(th), Option::Some(m), Option::Some(v)) => {
            let ang = angle_between_s(e.pose, player);
            let h2 = turn_toward_s(e.pose.heading as int, sh.turn_speed as int, ang);
            let turned = with_heading(e, h2);
            if dist_sq_s(e.pose, player) > sq(cfg.drone_near_range as int) {
                (
                    with_vel(
                        turned,
                        thrust_vel_s(
                            v,
                            h2,
                            th.force as int,
                            1,
                            m as int,
                            dt,
                            cfg.ai_max_speed as int,
                        ),
                    ),
                    Option::None,
                )
            } else if sh.primary_weapon.cd_timer.spec_expired() {
                let osp = origin_speed_s(v);
                (
                    Entity { ship: Option::Some(primary_reset_s(sh)), ..turned },
                    Option::Some(intent_of(sh.primary_weapon, turned.pose, osp, cfg)),
                )
            } else {
                (turned, Option::None)
            }
        },
        _ => (e, Option::None),
    }
}

/// The meaning of one speedy tick.
pub open spec fn speedy_step_spec(e: Entity, player: Pose, cfg: SimConfig, dt: int) -> (
    Entity,
    Option<FireIntent>,
) {
    match (e.ship, e.thruster, e.mass, e.vel, e.ai) {
        (
            Option::Some(sh),
            Option::Some(th),
            Option::Some(m),
            Option::Some(v),
            Option::Some(crate::entity::AiRole::Speedy { engage, reposition }),
        ) => {
            let ang = angle_between_s(e.pose, player);
            let h2 = turn_toward_s(e.pose.heading as int, sh.turn_speed as int, ang);
            if dist_sq_s(e.pose, player) > sq(cfg.speedy_far_range as int) {
                (
                    with_vel(
                        with_heading(e, h2),
                        thrust_vel_s(
                            v,
                            h2,
                            th.force as int,
                            1,
                            m as int,
                            dt,
                            cfg.ai_max_speed as int,
                        ),
                    ),
                    Option::None,
                )
            } else if !engage.spec_expired() {
                let ticked = Entity {
                    ai: Option::Some(
                        crate::entity::AiRole::Speedy {
                            engage: ticked_timer_s(engage, dt),
                            reposition,
                        },
                    ),
                    ..with_heading(e, h2)
                };
                if sh.primary_weapon.cd_timer.spec_expired() {
                    let osp = origin_speed_s(v);
                    (
                        Entity { ship: Option::Some(primary_reset_s(sh)), ..ticked },
                        Option::Some(intent_of(sh.primary_weapon, ticked.pose, osp, cfg)),
                    )
                } else {
                    (ticked, Option::None)
                }
            } else if !reposition.spec_expired() {
                let h3 = wrap_full_s(
                    e.pose.heading + crate::fixed::div_t(sh.turn_speed as int, 2),
                );
                (
                    with_vel(
                        Entity {
                            ai: Option::Some(
                                crate::entity::AiRole::Speedy {
                                    engage,
                                    reposition: ticked_timer_s(reposition, dt),
                                },
                            ),
                            ..with_heading(e, h3)
                        },
                        thrust_vel_s(
                            v,
                            h3,
                            th.force as int,
                            1,
                            m as int,
                            dt,
                            cfg.ai_max_speed as int,
                        ),
                    ),
                    Option::None,
                )
            } else {
                (
                    Entity {
                        ai: Option::Some(
                            crate::entity::AiRole::Speedy {
                                engage: reset_timer_s(engage),
                                reposition: reset_timer_s(reposition),
                            },
                        ),
                        ..e
                    },
                    Option::None,
                )
            }
        },
        _ => (e, Option::None),
    }
}

/// The meaning of one rammer tick.
pub open spec fn rammer_step_spec(e: Entity, player: Pose, cfg: SimConfig, dt: int) -> Entity {
    match (e.ship, e.thruster, e.mass, e.vel, e.ai) {
        (
            Option::Some(sh),
            Option::Some(th),
            Option::Some(m),
            Option::Some(v),
            Option::Some(crate::entity::AiRole::Rammer { ram, recharge }),
        ) => {
            let ang = angle_between_s(e.pose, player);
            let h2 = turn_toward_s(e.pose.heading as int, sh.turn_speed as int, ang);
            if dist_sq_s(e.pose, player) > sq(cfg.rammer_near_range as int) {
                with_vel(
                    with_heading(e, h2),
                    thrust_vel_s(v, h2, th.force as int, 1, m as int, dt, cfg.ai_max_speed as int),
                )
            } else if !ram.spec_expired() && -cfg.rammer_tolerance < ang < cfg.rammer_tolerance {
                let d = thrust_delta_s(
                    h2,
                    th.force as int,
                    cfg.rammer_boost as int,
                    m as int,
                    dt,
                );
                with_vel(
                    Entity {
                        ai: Option::Some(
                            crate::entity::AiRole::Rammer {
                                ram: ticked_timer_s(ram, dt),
                                recharge,
                            },
                        ),
                        ..with_heading(e, h2)
                    },
                    (
                        crate::fixed::clamp_s(v.x + d.0, -VEL_LIMIT as int, VEL_LIMIT as int),
                        crate::fixed::clamp_s(v.y + d.1, -VEL_LIMIT as int, VEL_LIMIT as int),
                    ),
                )
            } else if recharge.spec_expired() {
                Entity {
                    ai: Option::Some(
                        crate::entity::AiRole::Rammer {
                            ram: reset_timer_s(ram),
                            recharge: reset_timer_s(recharge),
                        },
                    ),
                    ..e
                }
            } else {
                Entity {
                    ai: Option::Some(
                        crate::entity::AiRole::Rammer {
                            ram,
                            recharge: ticked_timer_s(recharge, dt),
                        },
                    ),
                    ..with_heading(e, h2)
                }
            }
        },
        _ => e,
    }
}

/// The meaning of one picket tick.
pub open spec fn picket_step_spec(e: Entity, player: Pose, cfg: SimConfig, dt: int) -> (
    Entity,
    Option<crate::events::SpawnGuidedMissileEvent>,
) {
    match (e.ship, e.thruster, e.mass, e.vel, e.ai) {
        (
            Option::Some(sh),
            Option::Some(th),
            Option::Some(m),
            Option::Some(v),
            Option::Some(crate::entity::AiRole::Picket { fire }),
        ) => {
            let ang = angle_between_s(e.pose, player);
            let h2 = turn_toward_s(e.pose.heading as int, sh.turn_speed as int, ang);
            let turned = with_heading(e, h2);
            if dist_sq_s(e.pose, player) < sq(cfg.picket_range as int) {
                (
                    with_vel(
                        turned,
                        thrust_vel_s(
                            v,
                            wrap_full_s(h2 + PI_MR),
                            th.force as int,
                            1,
                            m as int,
                            dt,
                            cfg.ai_max_speed as int,
                        ),
                    ),
                    Option::None,
                )
            } else if fire.spec_expired() {
                let armed = Entity {
                    ai: Option::Some(
                        crate::entity::AiRole::Picket { fire: reset_timer_s(fire) },
                    ),
                    ..turned
                };
                if sh.primary_weapon.cd_timer.spec_expired() {
                    (
                        armed,
                        Option::Some(
                            crate::events::SpawnGuidedMissileEvent {
                                pose: crate::weapon::spawn_pose_s(
                                    armed.pose,
                                    cfg.forward_offset as int,
                                ),
                            },
                        ),
                    )
                } else {
                    (armed, Option::None)
                }
            } else {
                (
                    Entity {
                        ai: Option::Some(
                            crate::entity::AiRole::Picket { fire: ticked_timer_s(fire, dt) },
                        ),
                        ..turned
                    },
                    Option::None,
                )
            }
        },
        _ => (e, Option::None),
    }
}

/// The meaning of one mine-layer tick.
pub open spec fn minelayer_step_spec(e: Entity, cfg: SimConfig, dt: int) -> (
    Entity,
    Option<crate::events::SpawnMineEvent>,
) {
    match (e.thruster, e.mass, e.vel, e.ai) {
        (
            Option::Some(th),
            Option::Some(m),
            Option::Some(v),
            Option::Some(crate::entity::AiRole::MineLayer { drop }),
        ) => {
            let cruising = with_vel(
                e,
                thrust_vel_s(
                    v,
                    e.pose.heading as int,
                    th.force as int,
                    1,
                    m as int,
                    dt,
                    cfg.minelayer_max_speed as int,
                ),
            );
            if drop.spec_expired() {
                (
                    Entity {
                        ai: Option::Some(
                            crate::entity::AiRole::MineLayer { drop: reset_timer_s(drop) },
                        ),
                        ..cruising
                    },
                    Option::Some(
                        crate::events::SpawnMineEvent {
                            pose: crate::weapon::spawn_pose_s(
                                e.pose,
                                -cfg.forward_offset as int,
                            ),
                        },
                    ),
                )
            } else {
                (
                    Entity {
                        ai: Option::Some(
                            crate::entity::AiRole::MineLayer { drop: ticked_timer_s(drop, dt) },
                        ),
                        ..cruising
                    },
                    Option::None,
                )
            }
        },
        _ => (e, Option::None),
    }
}

/// The meaning of one guided-missile tick: the new entity and whether
/// its fuel starved.
pub open spec fn guided_missile_step_spec(
    e: Entity,
    player: Option<Pose>,
    cfg: SimConfig,
    dt: int,
) -> (Entity, bool) {
    match (e.missile, e.thruster, e.mass, e.vel) {
        (Option::Some(ms), Option::Some(th), Option::Some(m), Option::Some(v)) => {
            let fuel2 = crate::motion::spent_fuel(ms.fuel as int, cfg.fuel_per_tick as int);
            let burned = Entity {
                missile: Option::Some(
                    crate::entity::Missile { fuel: fuel2 as i64, ..ms },
                ),
                ..e
            };
            if fuel2 <= 0 {
                (burned, true)
            } else {
                match player {
                    Option::Some(pp) => {
                        let ang = angle_between_s(e.pose, pp);
                        let h2 = turn_toward_s(e.pose.heading as int, ms.turn_speed as int, ang);
                        (
                            with_vel(
                                with_heading(burned, h2),
                                thrust_vel_s(
                                    v,
                                    h2,
                                    th.force as int,
                                    1,
                                    m as int,
                                    dt,
                                    cfg.missile_max_speed as int,
                                ),
                            ),
                            false,
                        )
                    },
                    Option::None => (burned, false),
                }
            }
        },
        _ => (e, false),
    }
}

/// A projectile launch an archetype decided on: where it spawns and
/// what flies.
pub struct FireIntent {
    pub pose: Pose,
    pub launch: crate::weapon::ProjectileLaunch,
}

/// The velocity of an entity, zero when it carries none.
pub open spec fn vel_or_zero_s(e: Entity) -> Vec2 {
    match e.vel {
        Option::Some(v) => v,
        Option::None => Vec2 { x: 0, y: 0 },
    }
}

/// A fire intent is well-formed: a valid spawn pose, a valid
/// projectile, and a representable velocity.
pub open spec fn fire_intent_wf(fi: FireIntent) -> bool {
    &&& crate::entity::pose_wf(fi.pose)
    &&& crate::entity::projectile_wf(fi.launch.projectile)
    &&& fi.launch.velocity.in_bounds(VEL_LIMIT as int)
}

/// A fire intent matches a weapon fired at `h` from a platform at
/// speed `osp`, spawned in front of `pose`.
pub open spec fn fire_intent_matches(
    fi: FireIntent,
    w: crate::entity::WeaponSystem,
    pose: Pose,
    osp: int,
    cfg: SimConfig,
) -> bool {
    &&& fi.pose == crate::weapon::spawn_pose_s(pose, cfg.forward_offset as int)
    &&& fi.launch.projectile == crate::weapon::launched_projectile_s(w)
    &&& fi.launch.phase == crate::entity::CollisionClass::Ephemeral
    &&& fi.launch.velocity.x == crate::weapon::launch_vel_comp_s(
        cos_mr_s(pose.heading as int),
        w.proj_speed as int,
        osp,
    )
    &&& fi.launch.velocity.y == crate::weapon::launch_vel_comp_s(
        sin_mr_s(pose.heading as int),
        w.proj_speed as int,
        osp,
    )
}

/// A ship with its primary weapon's cooldown reset.
pub open spec fn primary_reset_s(sh: crate::entity::Ship) -> crate::entity::Ship {
    crate::entity::Ship {
        primary_weapon: crate::entity::WeaponSystem {
            cd_timer: crate::timer::CountdownTimer {
                duration: sh.primary_weapon.cd_timer.duration,
                remaining: sh.primary_weapon.cd_timer.duration,
            },
            ..sh.primary_weapon
        },
        ..sh
    }
}

/// One tick of the turret: turn toward the player, and fire exactly
/// when the angular error is within the tolerance and the primary
/// cooldown has expired — one projectile per satisfied tick, none
/// otherwise.
pub fn turret_step(e: &mut Entity, player: Pose, cfg: &SimConfig) -> (fire: Option<FireIntent>)
    requires
        old(e).wf(),
        crate::entity::pose_wf(player),
        cfg.wf(),
        old(e).ship is Some,
    ensures
        ({
            let r = turret_step_spec(*old(e), player, *cfg);
            *final(e) == r.0 && fire == r.1
        }),
        fire matches Option::Some(fi) ==> fire_intent_wf(fi),
        final(e).wf(),
        final(e).id == old(e).id,
        final(e).pose.pos == old(e).pose.pos,
        final(e).vel == old(e).vel,
        final(e).ai == old(e).ai,
        final(e).projectile == old(e).projectile,
        final(e).missile == old(e).missile,
        final(e).health == old(e).health,
        old(e).ship matches Option::Some(sh) ==> ({
            let ang = angle_between_s(old(e).pose, player);
            let h2 = turn_toward_s(old(e).pose.heading as int, sh.turn_speed as int, ang);
            &&& final(e).pose.heading == h2
            &&& (fire is Some <==> (-cfg.turret_tolerance < ang < cfg.turret_tolerance
                && sh.primary_weapon.cd_timer.spec_expired()))
            &&& (fire matches Option::Some(fi) ==> fire_intent_matches(
                fi,
                sh.primary_weapon,
                final(e).pose,
                origin_speed_s(vel_or_zero_s(*old(e))),
                *cfg,
            ) && final(e).ship == Option::Some(primary_reset_s(sh)))
            &&& (fire is None ==> final(e).ship == old(e).ship)
        }),
{
    let sh = match &e.ship {
        Option::Some(s) => *s,
        Option::None => {
            return Option::None;
        },
    };
    let ang = angle_between(&e.pose, &player);
    let h2 = turn_toward(e.pose.heading, sh.turn_speed, ang);
    e.pose = Pose { pos: e.pose.pos, heading: h2 };
    if -cfg.turret_tolerance < ang && ang < cfg.turret_tolerance
        && sh.primary_weapon.cd_timer.is_expired() {
        let vz = match &e.vel {
            Option::Some(v) => *v,
            Option::None => Vec2::zero(),
        };
        let osp = origin_speed(&vz);
        let mut sh2 = sh;
        let launch = sh2.primary_weapon.fire(h2, osp);
        e.ship = Option::Some(sh2);
        let pose = crate::weapon::spawn_pose(&e.pose, cfg.forward_offset);
        Option::Some(FireIntent { pose, launch })
    } else {
        Option::None
    }
}

/// One tick of the drone: always turn toward the player; beyond the
/// near range thrust toward the player under the AI speed ceiling,
/// within it fire whenever the primary cooldown allows.
pub fn drone_step(e: &mut Entity, player: Pose, cfg: &SimConfig, dt: i64) -> (fire: Option<
    FireIntent,
>)
    requires
        old(e).wf(),
        crate::entity::pose_wf(player),
        cfg.wf(),
        0 <= dt <= DT_LIMIT,
        old(e).ship is Some,
        old(e).thruster is Some,
        old(e).mass is Some,
        old(e).vel is Some,
    ensures
        ({
            let r = drone_step_spec(*old(e), player, *cfg, dt as int);
            *final(e) == r.0 && fire == r.1
        }),
        fire matches Option::Some(fi) ==> fire_intent_wf(fi),
        final(e).wf(),
        final(e).id == old(e).id,
        final(e).pose.pos == old(e).pose.pos,
        final(e).ai == old(e).ai,
        final(e).health == old(e).health,
        old(e).ship matches Option::Some(sh) ==> old(e).thruster matches Option::Some(th)
            ==> old(e).mass matches Option::Some(m) ==> old(e).vel matches Option::Some(v) ==> ({
            let ang = angle_between_s(old(e).pose, player);
            let h2 = turn_toward_s(old(e).pose.heading as int, sh.turn_speed as int, ang);
            let far = dist_sq_s(old(e).pose, player) > sq(cfg.drone_near_range as int);
            &&& final(e).pose.heading == h2
            &&& (far ==> fire is None && final(e).ship == old(e).ship
                && (final(e).vel matches Option::Some(v2) && (v2.x as int, v2.y as int)
                == thrust_vel_s(
                    v,
                    h2,
                    th.force as int,
                    1,
                    m as int,
                    dt as int,
                    cfg.ai_max_speed as int,
                )))
            &&& (!far ==> final(e).vel == old(e).vel)
            &&& (!far ==> (fire is Some <==> sh.primary_weapon.cd_timer.spec_expired()))
            &&& (fire matches Option::Some(fi) ==> fire_intent_matches(
                fi,
                sh.primary_weapon,
                final(e).pose,
                origin_speed_s(v),
                *cfg,
            ) && final(e).ship == Option::Some(primary_reset_s(sh)))
            &&& (fire is None ==> final(e).ship == old(e).ship)
        }),
{
    let sh = match &e.ship {
        Option::Some(s) => *s,
        Option::None => {
            return Option::None;
        },
    };
    let th = match &e.thruster {
        Option::Some(t) => *t,
        Option::None => {
            return Option::None;
        },
    };
    let m = match &e.mass {
        Option::Some(m) => *m,
        Option::None => {
            return Option::None;
        },
    };
    let v = match &e.vel {
        Option::Some(v) => *v,
        Option::None => {
            return Option::None;
        },
    };
    let ang = angle_between(&e.pose, &player);
    let h2 = turn_toward(e.pose.heading, sh.turn_speed, ang);
    e.pose = Pose { pos: e.pose.pos, heading: h2 };
    let far = far_check(&e.pose, &player, cfg.drone_near_range);
    if far {
        e.vel = Option::Some(thrust_clamped(v, h2, th.force, 1, m, dt, cfg.ai_max_speed));
        Option::None
    } else if sh.primary_weapon.cd_timer.is_expired() {
        let osp = origin_speed(&v);
        let mut sh2 = sh;
        let launch = sh2.primary_weapon.fire(h2, osp);
        e.ship = Option::Some(sh2);
        let pose = crate::weapon::spawn_pose(&e.pose, cfg.forward_offset);
        Option::Some(FireIntent { pose, launch })
    } else {
        Option::None
    }
}

/// Whether two poses are strictly farther apart than `range`.
fn far_check(a: &Pose, b: &Pose, range: i64) -> (r: bool)
    requires
        crate::entity::pose_wf(*a),
        crate::entity::pose_wf(*b),
        0 <= range <= crate::config::RANGE_LIMIT,
    ensures
        r == (dist_sq_s(*a, *b) > sq(range as int)),
{
    let d = b.pos.sub(a.pos);
    let n2 = d.norm_sq_exec();
    proof {
        crate::fixed::lemma_mul_mag_le(range as int, range as int, 1_000_000_000, 1_000_000_000);
    }
    n2 > (range as i128) * (range as i128)
}

/// A countdown timer after one tick.
pub open spec fn ticked_timer_s(t: crate::timer::CountdownTimer, dt: int) -> crate::timer::CountdownTimer {
    crate::timer::CountdownTimer { duration: t.duration, remaining: t.spec_after_tick(dt) as i64 }
}

/// A countdown timer rewound to its full duration.
pub open spec fn reset_timer_s(t: crate::timer::CountdownTimer) -> crate::timer::CountdownTimer {
    crate::timer::CountdownTimer { duration: t.duration, remaining: t.duration }
}

/// Whether two poses are strictly closer than `range`.
fn near_check(a: &Pose, b: &Pose, range: i64) -> (r: bool)
    requires
        crate::entity::pose_wf(*a),
        crate::entity::pose_wf(*b),
        0 <= range <= crate::config::RANGE_LIMIT,
    ensures
        r == (dist_sq_s(*a, *b) < sq(range as int)),
{
    let d = b.pos.sub(a.pos);
    let n2 = d.norm_sq_exec();
    proof {
        crate::fixed::lemma_mul_mag_le(range as int, range as int, 1_000_000_000, 1_000_000_000);
    }
    n2 < (range as i128) * (range as i128)
}

/// One tick of the speedy archetype's three-phase cycle.  Beyond the
/// far range it only approaches: it turns and thrusts, no phase clock
/// ticks and nothing fires.  In range it engages while the engage
/// clock runs — firing whenever the primary cooldown allows — then
/// repositions while the second clock runs, then resets both clocks to
/// loop.
pub fn speedy_step(e: &mut Entity, player: Pose, cfg: &SimConfig, dt: i64) -> (fire: Option<
    FireIntent,
>)
    requires
        old(e).wf(),
        crate::entity::pose_wf(player),
        cfg.wf(),
        0 <= dt <= DT_LIMIT,
        old(e).ship is Some,
        old(e).thruster is Some,
        old(e).mass is Some,
        old(e).vel is Some,
        old(e).ai matches Option::Some(crate::entity::AiRole::Speedy { .. }),
    ensures
        ({
            let r = speedy_step_spec(*old(e), player, *cfg, dt as int);
            *final(e) == r.0 && fire == r.1
        }),
        fire matches Option::Some(fi) ==> fire_intent_wf(fi),
        final(e).wf(),
        final(e).id == old(e).id,
        final(e).pose.pos == old(e).pose.pos,
        final(e).health == old(e).health,
        old(e).ship matches Option::Some(sh) ==> old(e).thruster matches Option::Some(th)
            ==> old(e).mass matches Option::Some(m) ==> old(e).vel matches Option::Some(v)
            ==> old(e).ai matches Option::Some(crate::entity::AiRole::Speedy { engage, reposition })
            ==> ({
            let ang = angle_between_s(old(e).pose, player);
            let h2 = turn_toward_s(old(e).pose.heading as int, sh.turn_speed as int, ang);
            let far = dist_sq_s(old(e).pose, player) > sq(cfg.speedy_far_range as int);
            &&& (far ==> fire is None && final(e).ship == old(e).ship && final(e).ai == old(e).ai
                && final(e).pose.heading == h2
                && (final(e).vel matches Option::Some(v2) && (v2.x as int, v2.y as int)
                == thrust_vel_s(
                    v,
                    h2,
                    th.force as int,
                    1,
                    m as int,
                    dt as int,
                    cfg.ai_max_speed as int,
                )))
            &&& (!far && !engage.spec_expired() ==> final(e).pose.heading == h2 && final(e).vel
                == old(e).vel && final(e).ai == Option::Some(
                crate::entity::AiRole::Speedy {
                    engage: ticked_timer_s(engage, dt as int),
                    reposition,
                },
            ) && (fire is Some <==> sh.primary_weapon.cd_timer.spec_expired()))
            &&& (!far && engage.spec_expired() && !reposition.spec_expired() ==> fire is None
                && final(e).ship == old(e).ship && final(e).pose.heading == wrap_full_s(
                old(e).pose.heading + crate::fixed::div_t(sh.turn_speed as int, 2),
            ) && final(e).ai == Option::Some(
                crate::entity::AiRole::Speedy {
                    engage,
                    reposition: ticked_timer_s(reposition, dt as int),
                },
            ) && (final(e).vel matches Option::Some(v2) && (v2.x as int, v2.y as int)
                == thrust_vel_s(
                    v,
                    wrap_full_s(old(e).pose.heading + crate::fixed::div_t(sh.turn_speed as int, 2)),
                    th.force as int,
                    1,
                    m as int,
                    dt as int,
                    cfg.ai_max_speed as int,
                )))
            &&& (!far && engage.spec_expired() && reposition.spec_expired() ==> fire is None
                && final(e).ship == old(e).ship && final(e).pose == old(e).pose && final(e).vel
                == old(e).vel && final(e).ai == Option::Some(
                crate::entity::AiRole::Speedy {
                    engage: reset_timer_s(engage),
                    reposition: reset_timer_s(reposition),
                },
            ))
            &&& (fire matches Option::Some(fi) ==> fire_intent_matches(
                fi,
                sh.primary_weapon,
                final(e).pose,
                origin_speed_s(v),
                *cfg,
            ) && final(e).ship == Option::Some(primary_reset_s(sh)))
            &&& (fire is None ==> final(e).ship == old(e).ship)
        }),
{
    let sh = match &e.ship {
        Option::Some(s) => *s,
        Option::None => {
            return Option::None;
        },
    };
    let th = match &e.thruster {
        Option::Some(t) => *t,
        Option::None => {
            return Option::None;
        },
    };
    let m = match &e.mass {
        Option::Some(m) => *m,
        Option::None => {
            return Option::None;
        },
    };
    let v = match &e.vel {
        Option::Some(v) => *v,
        Option::None => {
            return Option::None;
        },
    };
    let (engage, reposition) = match &e.ai {
        Option::Some(crate::entity::AiRole::Speedy { engage, reposition }) => (
            *engage,
            *reposition,
        ),
        _ => {
            return Option::None;
        },
    };
    let ang = angle_between(&e.pose, &player);
    let far = far_check(&e.pose, &player, cfg.speedy_far_range);
    if far {
        let h2 = turn_toward(e.pose.heading, sh.turn_speed, ang);
        e.pose = Pose { pos: e.pose.pos, heading: h2 };
        e.vel = Option::Some(thrust_clamped(v, h2, th.force, 1, m, dt, cfg.ai_max_speed));
        Option::None
    } else if !engage.is_expired() {
        let mut engage2 = engage;
        engage2.tick(dt);
        e.ai = Option::Some(crate::entity::AiRole::Speedy { engage: engage2, reposition });
        let h2 = turn_toward(e.pose.heading, sh.turn_speed, ang);
        e.pose = Pose { pos: e.pose.pos, heading: h2 };
        if sh.primary_weapon.cd_timer.is_expired() {
            let osp = origin_speed(&v);
            let mut sh2 = sh;
            let launch = sh2.primary_weapon.fire(h2, osp);
            e.ship = Option::Some(sh2);
            let pose = crate::weapon::spawn_pose(&e.pose, cfg.forward_offset);
            Option::Some(FireIntent { pose, launch })
        } else {
            Option::None
        }
    } else if !reposition.is_expired() {
        let mut reposition2 = reposition;
        reposition2.tick(dt);
        e.ai = Option::Some(crate::entity::AiRole::Speedy { engage, reposition: reposition2 });
        let half: i64 = crate::fixed::div64(sh.turn_speed, 2);
        let h2 = wrap_full(e.pose.heading + half);
        e.pose = Pose { pos: e.pose.pos, heading: h2 };
        e.vel = Option::Some(thrust_clamped(v, h2, th.force, 1, m, dt, cfg.ai_max_speed));
        Option::None
    } else {
        let mut engage2 = engage;
        engage2.reset();
        let mut reposition2 = reposition;
        reposition2.reset();
        e.ai = Option::Some(
            crate::entity::AiRole::Speedy { engage: engage2, reposition: reposition2 },
        );
        Option::None
    }
}

/// One tick of the rammer's cycle: approach from afar; once close and
/// facing the player within the tight tolerance, charge with the
/// boosted, uncapped thrust while the ram clock runs; then wait for
/// the recharge clock, and reset both to loop.
pub fn rammer_step(e: &mut Entity, player: Pose, cfg: &SimConfig, dt: i64)
    requires
        old(e).wf(),
        crate::entity::pose_wf(player),
        cfg.wf(),
        0 <= dt <= DT_LIMIT,
        old(e).ship is Some,
        old(e).thruster is Some,
        old(e).mass is Some,
        old(e).vel is Some,
        old(e).ai matches Option::Some(crate::entity::AiRole::Rammer { .. }),
    ensures
        *final(e) == rammer_step_spec(*old(e), player, *cfg, dt as int),
        final(e).wf(),
        final(e).id == old(e).id,
        final(e).pose.pos == old(e).pose.pos,
        final(e).health == old(e).health,
        final(e).ship == old(e).ship,
        old(e).ship matches Option::Some(sh) ==> old(e).thruster matches Option::Some(th)
            ==> old(e).mass matches Option::Some(m) ==> old(e).vel matches Option::Some(v)
            ==> old(e).ai matches Option::Some(crate::entity::AiRole::Rammer { ram, recharge })
            ==> ({
            let ang = angle_between_s(old(e).pose, player);
            let h2 = turn_toward_s(old(e).pose.heading as int, sh.turn_speed as int, ang);
            let far = dist_sq_s(old(e).pose, player) > sq(cfg.rammer_near_range as int);
            let charging = !far && !ram.spec_expired() && -cfg.rammer_tolerance < ang
                < cfg.rammer_tolerance;
            &&& (far ==> final(e).pose.heading == h2 && final(e).ai == old(e).ai
                && (final(e).vel matches Option::Some(v2) && (v2.x as int, v2.y as int)
                == thrust_vel_s(
                    v,
                    h2,
                    th.force as int,
                    1,
                    m as int,
                    dt as int,
                    cfg.ai_max_speed as int,
                )))
            &&& (charging ==> final(e).pose.heading == h2 && final(e).ai == Option::Some(
                crate::entity::AiRole::Rammer { ram: ticked_timer_s(ram, dt as int), recharge },
            ) && (final(e).vel matches Option::Some(v2) && ({
                let d = thrust_delta_s(
                    h2,
                    th.force as int,
                    cfg.rammer_boost as int,
                    m as int,
                    dt as int,
                );
                v2.x == crate::fixed::clamp_s(v.x + d.0, -VEL_LIMIT as int, VEL_LIMIT as int)
                    && v2.y == crate::fixed::clamp_s(
                    v.y + d.1,
                    -VEL_LIMIT as int,
                    VEL_LIMIT as int,
                )
            })))
            &&& (!far && !charging && recharge.spec_expired() ==> final(e).pose == old(e).pose
                && final(e).vel == old(e).vel && final(e).ai == Option::Some(
                crate::entity::AiRole::Rammer {
                    ram: reset_timer_s(ram),
                    recharge: reset_timer_s(recharge),
                },
            ))
            &&& (!far && !charging && !recharge.spec_expired() ==> final(e).pose.heading == h2
                && final(e).vel == old(e).vel && final(e).ai == Option::Some(
                crate::entity::AiRole::Rammer {
                    ram,
                    recharge: ticked_timer_s(recharge, dt as int),
                },
            ))
        }),
{
    let sh = match &e.ship {
        Option::Some(s) => *s,
        Option::None => {
            return ;
        },
    };
    let th = match &e.thruster {
        Option::Some(t) => *t,
        Option::None => {
            return ;
        },
    };
    let m = match &e.mass {
        Option::Some(m) => *m,
        Option::None => {
            return ;
        },
    };
    let v = match &e.vel {
        Option::Some(v) => *v,
        Option::None => {
            return ;
        },
    };
    let (ram, recharge) = match &e.ai {
        Option::Some(crate::entity::AiRole::Rammer { ram, recharge }) => (*ram, *recharge),
        _ => {
            return ;
        },
    };
    let ang = angle_between(&e.pose, &player);
    let far = far_check(&e.pose, &player, cfg.rammer_near_range);
    if far {
        let h2 = turn_toward(e.pose.heading, sh.turn_speed, ang);
        e.pose = Pose { pos: e.pose.pos, heading: h2 };
        e.vel = Option::Some(thrust_clamped(v, h2, th.force, 1, m, dt, cfg.ai_max_speed));
    } else if !ram.is_expired() && -cfg.rammer_tolerance < ang && ang < cfg.rammer_tolerance {
        let mut ram2 = ram;
        ram2.tick(dt);
        e.ai = Option::Some(crate::entity::AiRole::Rammer { ram: ram2, recharge });
        let h2 = turn_toward(e.pose.heading, sh.turn_speed, ang);
        e.pose = Pose { pos: e.pose.pos, heading: h2 };
        e.vel = Option::Some(thrust_unclamped(v, h2, th.force, cfg.rammer_boost, m, dt));
    } else if recharge.is_expired() {
        let mut ram2 = ram;
        ram2.reset();
        let mut recharge2 = recharge;
        recharge2.reset();
        e.ai = Option::Some(crate::entity::AiRole::Rammer { ram: ram2, recharge: recharge2 });
    } else {
        let h2 = turn_toward(e.pose.heading, sh.turn_speed, ang);
        e.pose = Pose { pos: e.pose.pos, heading: h2 };
        let mut recharge2 = recharge;
        recharge2.tick(dt);
        e.ai = Option::Some(crate::entity::AiRole::Rammer { ram, recharge: recharge2 });
    }
}

/// One tick of the picket: within its range it always retreats — it
/// turns toward the player and thrusts away — and never reaches the
/// missile branch.  Out of range it periodically requests a guided
/// missile launch, gated by its own fire clock and the primary
/// cooldown.
pub fn picket_step(e: &mut Entity, player: Pose, cfg: &SimConfig, dt: i64) -> (launch: Option<
    crate::events::SpawnGuidedMissileEvent,
>)
    requires
        old(e).wf(),
        crate::entity::pose_wf(player),
        cfg.wf(),
        0 <= dt <= DT_LIMIT,
        old(e).ship is Some,
        old(e).thruster is Some,
        old(e).mass is Some,
        old(e).vel is Some,
        old(e).ai matches Option::Some(crate::entity::AiRole::Picket { .. }),
    ensures
        ({
            let r = picket_step_spec(*old(e), player, *cfg, dt as int);
            *final(e) == r.0 && launch == r.1
        }),
        final(e).wf(),
        final(e).id == old(e).id,
        final(e).pose.pos == old(e).pose.pos,
        final(e).health == old(e).health,
        final(e).ship == old(e).ship,
        old(e).ship matches Option::Some(sh) ==> old(e).thruster matches Option::Some(th)
            ==> old(e).mass matches Option::Some(m) ==> old(e).vel matches Option::Some(v)
            ==> old(e).ai matches Option::Some(crate::entity::AiRole::Picket { fire }) ==> ({
            let ang = angle_between_s(old(e).pose, player);
            let h2 = turn_toward_s(old(e).pose.heading as int, sh.turn_speed as int, ang);
            let near = dist_sq_s(old(e).pose, player) < sq(cfg.picket_range as int);
            &&& (near ==> launch is None && final(e).pose.heading == h2 && final(e).ai == old(
                e,
            ).ai && (final(e).vel matches Option::Some(v2) && (v2.x as int, v2.y as int)
                == thrust_vel_s(
                    v,
                    wrap_full_s(h2 + PI_MR),
                    th.force as int,
                    1,
                    m as int,
                    dt as int,
                    cfg.ai_max_speed as int,
                )))
            &&& (!near && fire.spec_expired() ==> final(e).pose.heading == h2 && final(e).vel
                == old(e).vel && final(e).ai == Option::Some(
                crate::entity::AiRole::Picket { fire: reset_timer_s(fire) },
            ) && (launch is Some <==> sh.primary_weapon.cd_timer.spec_expired())
                && (launch matches Option::Some(ev) ==> ev.pose == crate::weapon::spawn_pose_s(
                Pose { pos: old(e).pose.pos, heading: h2 as i64 },
                cfg.forward_offset as int,
            )))
            &&& (!near && !fire.spec_expired() ==> launch is None && final(e).pose.heading == h2
                && final(e).vel == old(e).vel && final(e).ai == Option::Some(
                crate::entity::AiRole::Picket { fire: ticked_timer_s(fire, dt as int) },
            ))
        }),
{
    let sh = match &e.ship {
        Option::Some(s) => *s,
        Option::None => {
            return Option::None;
        },
    };
    let th = match &e.thruster {
        Option::Some(t) => *t,
        Option::None => {
            return Option::None;
        },
    };
    let m = match &e.mass {
        Option::Some(m) => *m,
        Option::None => {
            return Option::None;
        },
    };
    let v = match &e.vel {
        Option::Some(v) => *v,
        Option::None => {
            return Option::None;
        },
    };
    let fire = match &e.ai {
        Option::Some(crate::entity::AiRole::Picket { fire }) => *fire,
        _ => {
            return Option::None;
        },
    };
    let ang = angle_between(&e.pose, &player);
    let near = near_check(&e.pose, &player, cfg.picket_range);
    let h2 = turn_toward(e.pose.heading, sh.turn_speed, ang);
    if near {
        e.pose = Pose { pos: e.pose.pos, heading: h2 };
        let away = wrap_full(h2 + PI_MR);
        e.vel = Option::Some(thrust_clamped(v, away, th.force, 1, m, dt, cfg.ai_max_speed));
        Option::None
    } else if fire.is_expired() {
        let mut fire2 = fire;
        fire2.reset();
        e.ai = Option::Some(crate::entity::AiRole::Picket { fire: fire2 });
        e.pose = Pose { pos: e.pose.pos, heading: h2 };
        if sh.primary_weapon.cd_timer.is_expired() {
            let pose = crate::weapon::spawn_pose(&e.pose, cfg.forward_offset);
            Option::Some(crate::events::SpawnGuidedMissileEvent { pose })
        } else {
            Option::None
        }
    } else {
        e.pose = Pose { pos: e.pose.pos, heading: h2 };
        let mut fire2 = fire;
        fire2.tick(dt);
        e.ai = Option::Some(crate::entity::AiRole::Picket { fire: fire2 });
        Option::None
    }
}

/// One tick of the mine layer: cruise straight ahead under its own,
/// lower speed ceiling — it never tracks the player — and drop a mine
/// behind itself whenever its clock runs out.
pub fn minelayer_step(e: &mut Entity, cfg: &SimConfig, dt: i64) -> (mine: Option<
    crate::events::SpawnMineEvent,
>)
    requires
        old(e).wf(),
        cfg.wf(),
        0 <= dt <= DT_LIMIT,
        old(e).thruster is Some,
        old(e).mass is Some,
        old(e).vel is Some,
        old(e).ai matches Option::Some(crate::entity::AiRole::MineLayer { .. }),
    ensures
        ({
            let r = minelayer_step_spec(*old(e), *cfg, dt as int);
            *final(e) == r.0 && mine == r.1
        }),
        final(e).wf(),
        final(e).id == old(e).id,
        final(e).pose == old(e).pose,
        final(e).health == old(e).health,
        final(e).ship == old(e).ship,
        old(e).thruster matches Option::Some(th) ==> old(e).mass matches Option::Some(m) ==> old(
            e,
        ).vel matches Option::Some(v) ==> old(e).ai matches Option::Some(
            crate::entity::AiRole::MineLayer { drop },
        ) ==> ({
            &&& (final(e).vel matches Option::Some(v2) && (v2.x as int, v2.y as int)
                == thrust_vel_s(
                    v,
                    old(e).pose.heading as int,
                    th.force as int,
                    1,
                    m as int,
                    dt as int,
                    cfg.minelayer_max_speed as int,
                ))
            &&& (mine is Some <==> drop.spec_expired())
            &&& (drop.spec_expired() ==> final(e).ai == Option::Some(
                crate::entity::AiRole::MineLayer { drop: reset_timer_s(drop) },
            ) && (mine matches Option::Some(ev) ==> ev.pose == crate::weapon::spawn_pose_s(
                old(e).pose,
                -cfg.forward_offset as int,
            )))
            &&& (!drop.spec_expired() ==> final(e).ai == Option::Some(
                crate::entity::AiRole::MineLayer { drop: ticked_timer_s(drop, dt as int) },
            ))
        }),
{
    let th = match &e.thruster {
        Option::Some(t) => *t,
        Option::None => {
            return Option::None;
        },
    };
    let m = match &e.mass {
        Option::Some(m) => *m,
        Option::None => {
            return Option::None;
        },
    };
    let v = match &e.vel {
        Option::Some(v) => *v,
        Option::None => {
            return Option::None;
        },
    };
    let drop = match &e.ai {
        Option::Some(crate::entity::AiRole::MineLayer { drop }) => *drop,
        _ => {
            return Option::None;
        },
    };
    e.vel = Option::Some(
        thrust_clamped(v, e.pose.heading, th.force, 1, m, dt, cfg.minelayer_max_speed),
    );
    if drop.is_expired() {
        let mut drop2 = drop;
        drop2.reset();
        e.ai = Option::Some(crate::entity::AiRole::MineLayer { drop: drop2 });
        let pose = crate::weapon::spawn_pose(&e.pose, -cfg.forward_offset);
        Option::Some(crate::events::SpawnMineEvent { pose })
    } else {
        let mut drop2 = drop;
        drop2.tick(dt);
        e.ai = Option::Some(crate::entity::AiRole::MineLayer { drop: drop2 });
        Option::None
    }
}

/// One tick of a guided missile: burn one tick of fuel and despawn
/// silently the moment it runs out; otherwise home on the player at
/// the missile's own turn rate, thrusting constantly under the reduced
/// missile ceiling.
pub fn guided_missile_step(e: &mut Entity, player: Option<Pose>, cfg: &SimConfig, dt: i64) -> (
    expired: bool)
    requires
        old(e).wf(),
        cfg.wf(),
        0 <= dt <= DT_LIMIT,
        match player {
            Option::Some(p) => crate::entity::pose_wf(p),
            Option::None => true,
        },
        old(e).missile is Some,
        old(e).thruster is Some,
        old(e).mass is Some,
        old(e).vel is Some,
    ensures
        ({
            let r = guided_missile_step_spec(*old(e), player, *cfg, dt as int);
            *final(e) == r.0 && expired == r.1
        }),
        final(e).wf(),
        final(e).id == old(e).id,
        final(e).pose.pos == old(e).pose.pos,
        final(e).health == old(e).health,
        old(e).missile matches Option::Some(ms) ==> old(e).thruster matches Option::Some(th)
            ==> old(e).mass matches Option::Some(m) ==> old(e).vel matches Option::Some(v) ==> ({
            let fuel2 = crate::motion::spent_fuel(ms.fuel as int, cfg.fuel_per_tick as int);
            &&& final(e).missile == Option::Some(crate::entity::Missile { fuel: fuel2 as i64, ..ms })
            &&& expired == (fuel2 <= 0)
            &&& (expired ==> final(e).pose == old(e).pose && final(e).vel == old(e).vel)
            &&& (!expired ==> match player {
                Option::Some(pp) => {
                    let ang = angle_between_s(old(e).pose, pp);
                    let h2 = turn_toward_s(old(e).pose.heading as int, ms.turn_speed as int, ang);
                    final(e).pose.heading == h2 && (final(e).vel matches Option::Some(v2) && (
                    v2.x as int,
                    v2.y as int,
                    ) == thrust_vel_s(
                        v,
                        h2,
                        th.force as int,
                        1,
                        m as int,
                        dt as int,
                        cfg.missile_max_speed as int,
                    ))
                },
                Option::None => final(e).pose == old(e).pose && final(e).vel == old(e).vel,
            })
        }),
{
    let ms = match &e.missile {
        Option::Some(ms) => *ms,
        Option::None => {
            return false;
        },
    };
    let th = match &e.thruster {
        Option::Some(t) => *t,
        Option::None => {
            return false;
        },
    };
    let m = match &e.mass {
        Option::Some(m) => *m,
        Option::None => {
            return false;
        },
    };
    let v = match &e.vel {
        Option::Some(v) => *v,
        Option::None => {
            return false;
        },
    };
    let fuel2: i64 = if ms.fuel - cfg.fuel_per_tick >= -crate::entity::FUEL_LIMIT {
        ms.fuel - cfg.fuel_per_tick
    } else {
        -crate::entity::FUEL_LIMIT
    };
    e.missile = Option::Some(crate::entity::Missile { fuel: fuel2, ..ms });
    if fuel2 <= 0 {
        return true;
    }
    match player {
        Option::Some(pp) => {
            let ang = angle_between(&e.pose, &pp);
            let h2 = turn_toward(e.pose.heading, ms.turn_speed, ang);
            e.pose = Pose { pos: e.pose.pos, heading: h2 };
            e.vel = Option::Some(
                thrust_clamped(v, h2, th.force, 1, m, dt, cfg.missile_max_speed),
            );
        },
        Option::None => {},
    }
    false
}

/// An entity the turret pass governs.
pub open spec fn turret_entity(e: Entity) -> bool {
    &&& e.ai == Option::Some(crate::entity::AiRole::Turret)
    &&& e.enemy
    &&& !e.player
    &&& e.ship is Some
}

/// An entity the drone pass governs.
pub open spec fn drone_entity(e: Entity) -> bool {
    &&& e.ai == Option::Some(crate::entity::AiRole::Drone)
    &&& e.enemy
    &&& !e.player
    &&& e.ship is Some
    &&& e.thruster is Some
    &&& e.mass is Some
    &&& e.vel is Some
}

/// An entity the speedy pass governs.
pub open spec fn speedy_entity(e: Entity) -> bool {
    &&& e.ai matches Option::Some(crate::entity::AiRole::Speedy { .. })
    &&& e.enemy
    &&& !e.player
    &&& e.ship is Some
    &&& e.thruster is Some
    &&& e.mass is Some
    &&& e.vel is Some
}

/// An entity the rammer pass governs.
pub open spec fn rammer_entity(e: Entity) -> bool {
    &&& e.ai matches Option::Some(crate::entity::AiRole::Rammer { .. })
    &&& e.enemy
    &&& !e.player
    &&& e.ship is Some
    &&& e.thruster is Some
    &&& e.mass is Some
    &&& e.vel is Some
}

/// An entity the picket pass governs.
pub open spec fn picket_entity(e: Entity) -> bool {
    &&& e.ai matches Option::Some(crate::entity::AiRole::Picket { .. })
    &&& e.enemy
    &&& !e.player
    &&& e.ship is Some
    &&& e.thruster is Some
    &&& e.mass is Some
    &&& e.vel is Some
}

/// An entity the mine layer pass governs.
pub open spec fn minelayer_entity(e: Entity) -> bool {
    &&& e.ai matches Option::Some(crate::entity::AiRole::MineLayer { .. })
    &&& e.enemy
    &&& !e.player
    &&& e.thruster is Some
    &&& e.mass is Some
    &&& e.vel is Some
}

/// An entity the guided-missile pass governs.
pub open spec fn guided_missile_entity(e: Entity) -> bool {
    &&& e.missile is Some
    &&& !e.player
    &&& e.thruster is Some
    &&& e.mass is Some
    &&& e.vel is Some
}

/// Insert a decided projectile launch into the world.
fn spawn_fire(store: &mut EntityStore, intent: &FireIntent)
    requires
        old(store).wf(),
        old(store).next_id < crate::store::ID_LIMIT,
        crate::entity::pose_wf(intent.pose),
        crate::entity::projectile_wf(intent.launch.projectile),
        intent.launch.velocity.in_bounds(VEL_LIMIT as int),
    ensures
        final(store).wf(),
        final(store).config == old(store).config,
        final(store).next_id == old(store).next_id + 1,
        final(store).entities.len() == old(store).entities.len() + 1,
        forall|k: int|
            0 <= k < old(store).entities.len() ==> #[trigger] final(store).entities[k] == old(
                store,
            ).entities[k],
        final(store).entities[old(store).entities.len() as int] == (Entity {
            id: old(store).next_id,
            ..crate::weapon::projectile_entity_s(intent.pose, intent.launch)
        }),
        final(store).damage_events == old(store).damage_events,
        final(store).collision_events == old(store).collision_events,
        final(store).missile_spawn_events == old(store).missile_spawn_events,
        final(store).mine_spawn_events == old(store).mine_spawn_events,
        final(store).detonation_events == old(store).detonation_events,
{
    let e = crate::weapon::projectile_entity(intent.pose, &intent.launch);
    let _ = store.add_entity(e);
}


/// What the turret pass leaves at index `k`.
pub open spec fn turret_pass_entity(s: EntityStore, player: Pose, k: int) -> Entity {
    if turret_entity(s.entities[k]) {
        turret_step_spec(s.entities[k], player, s.config).0
    } else {
        s.entities[k]
    }
}

/// The projectiles the turret pass appends while scanning the first
/// `k` entities, each stamped with the identity it receives.
pub open spec fn turret_spawns_s(s: EntityStore, player: Pose, k: int) -> Seq<Entity>
    decreases k,
{
    if k <= 0 {
        Seq::empty()
    } else {
        let rest = turret_spawns_s(s, player, k - 1);
        if turret_entity(s.entities[k - 1]) {
            match turret_step_spec(s.entities[k - 1], player, s.config).1 {
                Option::Some(fi) => rest.push(
                    Entity {
                        id: (s.next_id + rest.len()) as u64,
                        ..crate::weapon::projectile_entity_s(fi.pose, fi.launch)
                    },
                ),
                Option::None => rest,
            }
        } else {
            rest
        }
    }
}

/// The turret pass: every turret turns toward the player and fires
/// when aligned and loaded; with no player the pass is a no-op.
pub fn turret_ai_system(store: &mut EntityStore)
    requires
        old(store).wf(),
        old(store).next_id + old(store).entities.len() <= crate::store::ID_LIMIT,
    ensures
        final(store).wf(),
        final(store).config == old(store).config,
        final(store).next_id <= old(store).next_id + old(store).entities.len(),
        final(store).entities.len() <= 2 * old(store).entities.len(),
        final(store).entities.len() >= old(store).entities.len(),
        final(store).damage_events == old(store).damage_events,
        final(store).collision_events == old(store).collision_events,
        final(store).missile_spawn_events == old(store).missile_spawn_events,
        final(store).mine_spawn_events == old(store).mine_spawn_events,
        final(store).detonation_events == old(store).detonation_events,
        old(store).player_pose() is None ==> *final(store) == *old(store),
        old(store).player_pose() matches Option::Some(pp) ==> ({
            let n = old(store).entities.len() as int;
            let spawns = turret_spawns_s(*old(store), pp, n);
            &&& forall|k: int|
                0 <= k < n ==> #[trigger] final(store).entities[k] == turret_pass_entity(
                    *old(store),
                    pp,
                    k,
                )
            &&& final(store).entities.len() == n + spawns.len()
            &&& forall|j: int|
                0 <= j < spawns.len() ==> #[trigger] final(store).entities[n + j] == spawns[j]
            &&& final(store).next_id == old(store).next_id + spawns.len()
        }),
{
    let player = match store.player_index() {
        Option::Some(p) => store.entities[p].pose,
        Option::None => {
            return ;
        },
    };
    let n = store.entities.len();
    let cfg = store.config;
    let mut i: usize = 0;
    while i < n
        invariant
            old(store).wf(),
            store.wf(),
            store.config == old(store).config,
            cfg == old(store).config,
            crate::entity::pose_wf(player),
            old(store).player_pose() == Option::Some(player),
            n == old(store).entities.len(),
            i <= n,
            n <= store.entities.len(),
            old(store).next_id + n <= crate::store::ID_LIMIT,
            store.entities.len() == n + turret_spawns_s(*old(store), player, i as int).len(),
            store.next_id == old(store).next_id + turret_spawns_s(
                *old(store),
                player,
                i as int,
            ).len(),
            turret_spawns_s(*old(store), player, i as int).len() <= i,
            forall|k: int|
                i <= k < n ==> #[trigger] store.entities[k] == old(store).entities[k],
            forall|k: int|
                0 <= k < i ==> #[trigger] store.entities[k] == turret_pass_entity(
                    *old(store),
                    player,
                    k,
                ),
            forall|j: int|
                0 <= j < turret_spawns_s(*old(store), player, i as int).len()
                    ==> #[trigger] store.entities[n + j] == turret_spawns_s(
                    *old(store),
                    player,
                    i as int,
                )[j],
            store.damage_events == old(store).damage_events,
            store.collision_events == old(store).collision_events,
            store.missile_spawn_events == old(store).missile_spawn_events,
            store.mine_spawn_events == old(store).mine_spawn_events,
            store.detonation_events == old(store).detonation_events,
        decreases n - i,
    {
        let ghost pre_spawns = turret_spawns_s(*old(store), player, i as int);
        let e = store.entities[i];
        let is_turret = matches!(e.ai, Option::Some(crate::entity::AiRole::Turret)) && e.enemy
            && !e.player && e.ship.is_some();
        if is_turret {
            let mut e2 = e;
            let fire = turret_step(&mut e2, player, &cfg);
            store.entities[i] = e2;
            if let Option::Some(intent) = &fire {
                spawn_fire(store, intent);
            }
        }
        proof {
            let next = turret_spawns_s(*old(store), player, i + 1);
            assert(e == old(store).entities[i as int]);
            if is_turret {
                if turret_step_spec(e, player, cfg).1 is Some {
                    assert(next == pre_spawns.push(
                        Entity {
                            id: (old(store).next_id + pre_spawns.len()) as u64,
                            ..crate::weapon::projectile_entity_s(
                                turret_step_spec(e, player, cfg).1.unwrap().pose,
                                turret_step_spec(e, player, cfg).1.unwrap().launch,
                            )
                        },
                    ));
                } else {
                    assert(next == pre_spawns);
                }
            } else {
                assert(!turret_entity(e));
                assert(next == pre_spawns);
            }
        }
        i = i + 1;
    }
}


/// What the drone pass leaves at index `k`.
pub open spec fn drone_pass_entity(s: EntityStore, player: Pose, dt: int, k: int) -> Entity {
    if drone_entity(s.entities[k]) {
        drone_step_spec(s.entities[k], player, s.config, dt).0
    } else {
        s.entities[k]
    }
}

/// The projectiles the drone pass appends while scanning the first
/// `k` entities, each stamped with the identity it receives.
pub open spec fn drone_spawns_s(s: EntityStore, player: Pose, dt: int, k: int) -> Seq<Entity>
    decreases k,
{
    if k <= 0 {
        Seq::empty()
    } else {
        let rest = drone_spawns_s(s, player, dt, k - 1);
        if drone_entity(s.entities[k - 1]) {
            match drone_step_spec(s.entities[k - 1], player, s.config, dt).1 {
                Option::Some(fi) => rest.push(
                    Entity {
                        id: (s.next_id + rest.len()) as u64,
                        ..crate::weapon::projectile_entity_s(fi.pose, fi.launch)
                    },
                ),
                Option::None => rest,
            }
        } else {
            rest
        }
    }
}

/// The drone pass.
pub fn drone_ai_system(store: &mut EntityStore, dt: i64)
    requires
        old(store).wf(),
        old(store).next_id + old(store).entities.len() <= crate::store::ID_LIMIT,
        0 <= dt <= DT_LIMIT,
    ensures
        final(store).wf(),
        final(store).config == old(store).config,
        final(store).next_id <= old(store).next_id + old(store).entities.len(),
        final(store).entities.len() <= 2 * old(store).entities.len(),
        final(store).entities.len() >= old(store).entities.len(),
        final(store).damage_events == old(store).damage_events,
        final(store).collision_events == old(store).collision_events,
        final(store).missile_spawn_events == old(store).missile_spawn_events,
        final(store).mine_spawn_events == old(store).mine_spawn_events,
        final(store).detonation_events == old(store).detonation_events,
        old(store).player_pose() is None ==> *final(store) == *old(store),
        old(store).player_pose() matches Option::Some(pp) ==> ({
            let n = old(store).entities.len() as int;
            let spawns = drone_spawns_s(*old(store), pp, dt as int, n);
            &&& forall|k: int|
                0 <= k < n ==> #[trigger] final(store).entities[k] == drone_pass_entity(
                    *old(store),
                    pp,
                    dt as int, k,
                )
            &&& final(store).entities.len() == n + spawns.len()
            &&& forall|j: int|
                0 <= j < spawns.len() ==> #[trigger] final(store).entities[n + j] == spawns[j]
            &&& final(store).next_id == old(store).next_id + spawns.len()
        }),
{
    let player = match store.player_index() {
        Option::Some(p) => store.entities[p].pose,
        Option::None => {
            return ;
        },
    };
    let n = store.entities.len();
    let cfg = store.config;
    let mut i: usize = 0;
    while i < n
        invariant
            old(store).wf(),
            store.wf(),
            store.config == old(store).config,
            cfg == old(store).config,
            crate::entity::pose_wf(player),
            old(store).player_pose() == Option::Some(player),
            0 <= dt <= DT_LIMIT,
            n == old(store).entities.len(),
            i <= n,
            n <= store.entities.len(),
            old(store).next_id + n <= crate::store::ID_LIMIT,
            store.entities.len() == n + drone_spawns_s(*old(store), player, dt as int, i as int).len(),
            store.next_id == old(store).next_id + drone_spawns_s(
                *old(store),
                player,
                dt as int, i as int,
            ).len(),
            drone_spawns_s(*old(store), player, dt as int, i as int).len() <= i,
            forall|k: int|
                i <= k < n ==> #[trigger] store.entities[k] == old(store).entities[k],
            forall|k: int|
                0 <= k < i ==> #[trigger] store.entities[k] == drone_pass_entity(
                    *old(store),
                    player,
                    dt as int, k,
                ),
            forall|j: int|
                0 <= j < drone_spawns_s(*old(store), player, dt as int, i as int).len()
                    ==> #[trigger] store.entities[n + j] == drone_spawns_s(
                    *old(store),
                    player,
                    dt as int, i as int,
                )[j],
            store.damage_events == old(store).damage_events,
            store.collision_events == old(store).collision_events,
            store.missile_spawn_events == old(store).missile_spawn_events,
            store.mine_spawn_events == old(store).mine_spawn_events,
            store.detonation_events == old(store).detonation_events,
        decreases n - i,
    {
        let ghost pre_spawns = drone_spawns_s(*old(store), player, dt as int, i as int);
        let e = store.entities[i];
        let governed = matches!(e.ai, Option::Some(crate::entity::AiRole::Drone)) && e.enemy
            && !e.player && e.ship.is_some() && e.thruster.is_some() && e.mass.is_some()
            && e.vel.is_some();
        if governed {
            let mut e2 = e;
            let fire = drone_step(&mut e2, player, &cfg, dt);
            store.entities[i] = e2;
            if let Option::Some(intent) = &fire {
                spawn_fire(store, intent);
            }
        }
        proof {
            let next = drone_spawns_s(*old(store), player, dt as int, i + 1);
            assert(e == old(store).entities[i as int]);
            if governed {
                if drone_step_spec(e, player, cfg, dt as int).1 is Some {
                    assert(next == pre_spawns.push(
                        Entity {
                            id: (old(store).next_id + pre_spawns.len()) as u64,
                            ..crate::weapon::projectile_entity_s(
                                drone_step_spec(e, player, cfg, dt as int).1.unwrap().pose,
                                drone_step_spec(e, player, cfg, dt as int).1.unwrap().launch,
                            )
                        },
                    ));
                } else {
                    assert(next == pre_spawns);
                }
            } else {
                assert(!drone_entity(e));
                assert(next == pre_spawns);
            }
        }
        i = i + 1;
    }
}


/// What the speedy pass leaves at index `k`.
pub open spec fn speedy_pass_entity(s: EntityStore, player: Pose, dt: int, k: int) -> Entity {
    if speedy_entity(s.entities[k]) {
        speedy_step_spec(s.entities[k], player, s.config, dt).0
    } else {
        s.entities[k]
    }
}

/// The projectiles the speedy pass appends while scanning the first
/// `k` entities, each stamped with the identity it receives.
pub open spec fn speedy_spawns_s(s: EntityStore, player: Pose, dt: int, k: int) -> Seq<Entity>
    decreases k,
{
    if k <= 0 {
        Seq::empty()
    } else {
        let rest = speedy_spawns_s(s, player, dt, k - 1);
        if speedy_entity(s.entities[k - 1]) {
            match speedy_step_spec(s.entities[k - 1], player, s.config, dt).1 {
                Option::Some(fi) => rest.push(
                    Entity {
                        id: (s.next_id + rest.len()) as u64,
                        ..crate::weapon::projectile_entity_s(fi.pose, fi.launch)
                    },
                ),
                Option::None => rest,
            }
        } else {
            rest
        }
    }
}

/// The speedy pass.
pub fn speedy_ai_system(store: &mut EntityStore, dt: i64)
    requires
        old(store).wf(),
        old(store).next_id + old(store).entities.len() <= crate::store::ID_LIMIT,
        0 <= dt <= DT_LIMIT,
    ensures
        final(store).wf(),
        final(store).config == old(store).config,
        final(store).next_id <= old(store).next_id + old(store).entities.len(),
        final(store).entities.len() <= 2 * old(store).entities.len(),
        final(store).entities.len() >= old(store).entities.len(),
        final(store).damage_events == old(store).damage_events,
        final(store).collision_events == old(store).collision_events,
        final(store).missile_spawn_events == old(store).missile_spawn_events,
        final(store).mine_spawn_events == old(store).mine_spawn_events,
        final(store).detonation_events == old(store).detonation_events,
        old(store).player_pose() is None ==> *final(store) == *old(store),
        old(store).player_pose() matches Option::Some(pp) ==> ({
            let n = old(store).entities.len() as int;
            let spawns = speedy_spawns_s(*old(store), pp, dt as int, n);
            &&& forall|k: int|
                0 <= k < n ==> #[trigger] final(store).entities[k] == speedy_pass_entity(
                    *old(store),
                    pp,
                    dt as int, k,
                )
            &&& final(store).entities.len() == n + spawns.len()
            &&& forall|j: int|
                0 <= j < spawns.len() ==> #[trigger] final(store).entities[n + j] == spawns[j]
            &&& final(store).next_id == old(store).next_id + spawns.len()
        }),
{
    let player = match store.player_index() {
        Option::Some(p) => store.entities[p].pose,
        Option::None => {
            return ;
        },
    };
    let n = store.entities.len();
    let cfg = store.config;
    let mut i: usize = 0;
    while i < n
        invariant
            old(store).wf(),
            store.wf(),
            store.config == old(store).config,
            cfg == old(store).config,
            crate::entity::pose_wf(player),
            old(store).player_pose() == Option::Some(player),
            0 <= dt <= DT_LIMIT,
            n == old(store).entities.len(),
            i <= n,
            n <= store.entities.len(),
            old(store).next_id + n <= crate::store::ID_LIMIT,
            store.entities.len() == n + speedy_spawns_s(*old(store), player, dt as int, i as int).len(),
            store.next_id == old(store).next_id + speedy_spawns_s(
                *old(store),
                player,
                dt as int, i as int,
            ).len(),
            speedy_spawns_s(*old(store), player, dt as int, i as int).len() <= i,
            forall|k: int|
                i <= k < n ==> #[trigger] store.entities[k] == old(store).entities[k],
            forall|k: int|
                0 <= k < i ==> #[trigger] store.entities[k] == speedy_pass_entity(
                    *old(store),
                    player,
                    dt as int, k,
                ),
            forall|j: int|
                0 <= j < speedy_spawns_s(*old(store), player, dt as int, i as int).len()
                    ==> #[trigger] store.entities[n + j] == speedy_spawns_s(
                    *old(store),
                    player,
                    dt as int, i as int,
                )[j],
            store.damage_events == old(store).damage_events,
            store.collision_events == old(store).collision_events,
            store.missile_spawn_events == old(store).missile_spawn_events,
            store.mine_spawn_events == old(store).mine_spawn_events,
            store.detonation_events == old(store).detonation_events,
        decreases n - i,
    {
        let ghost pre_spawns = speedy_spawns_s(*old(store), player, dt as int, i as int);
        let e = store.entities[i];
        let governed = matches!(e.ai, Option::Some(crate::entity::AiRole::Speedy { .. })) && e.enemy
            && !e.player && e.ship.is_some() && e.thruster.is_some() && e.mass.is_some()
            && e.vel.is_some();
        if governed {
            let mut e2 = e;
            let fire = speedy_step(&mut e2, player, &cfg, dt);
            store.entities[i] = e2;
            if let Option::Some(intent) = &fire {
                spawn_fire(store, intent);
            }
        }
        proof {
            let next = speedy_spawns_s(*old(store), player, dt as int, i + 1);
            assert(e == old(store).entities[i as int]);
            if governed {
                if speedy_step_spec(e, player, cfg, dt as int).1 is Some {
                    assert(next == pre_spawns.push(
                        Entity {
                            id: (old(store).next_id + pre_spawns.len()) as u64,
                            ..crate::weapon::projectile_entity_s(
                                speedy_step_spec(e, player, cfg, dt as int).1.unwrap().pose,
                                speedy_step_spec(e, player, cfg, dt as int).1.unwrap().launch,
                            )
                        },
                    ));
                } else {
                    assert(next == pre_spawns);
                }
            } else {
                assert(!speedy_entity(e));
                assert(next == pre_spawns);
            }
        }
        i = i + 1;
    }
}

/// What the rammer pass leaves at index `k`.
pub open spec fn rammer_pass_entity(s: EntityStore, player: Pose, dt: int, k: int) -> Entity {
    if rammer_entity(s.entities[k]) {
        rammer_step_spec(s.entities[k], player, s.config, dt)
    } else {
        s.entities[k]
    }
}

/// The rammer pass.
pub fn rammer_ai_system(store: &mut EntityStore, dt: i64)
    requires
        old(store).wf(),
        0 <= dt <= DT_LIMIT,
    ensures
        final(store).wf(),
        final(store).config == old(store).config,
        final(store).next_id == old(store).next_id,
        final(store).entities.len() == old(store).entities.len(),
        final(store).damage_events == old(store).damage_events,
        final(store).collision_events == old(store).collision_events,
        final(store).missile_spawn_events == old(store).missile_spawn_events,
        final(store).mine_spawn_events == old(store).mine_spawn_events,
        final(store).detonation_events == old(store).detonation_events,
        old(store).player_pose() is None ==> *final(store) == *old(store),
        old(store).player_pose() matches Option::Some(pp) ==> forall|k: int|
            0 <= k < old(store).entities.len() ==> #[trigger] final(store).entities[k]
                == rammer_pass_entity(*old(store), pp, dt as int, k),
{
    let player = match store.player_index() {
        Option::Some(p) => store.entities[p].pose,
        Option::None => {
            return ;
        },
    };
    let n = store.entities.len();
    let cfg = store.config;
    let mut i: usize = 0;
    while i < n
        invariant
            old(store).wf(),
            store.wf(),
            store.config == old(store).config,
            cfg == old(store).config,
            crate::entity::pose_wf(player),
            old(store).player_pose() == Option::Some(player),
            0 <= dt <= DT_LIMIT,
            n == old(store).entities.len(),
            n == store.entities.len(),
            store.next_id == old(store).next_id,
            i <= n,
            forall|k: int|
                i <= k < n ==> #[trigger] store.entities[k] == old(store).entities[k],
            forall|k: int|
                0 <= k < i ==> #[trigger] store.entities[k] == rammer_pass_entity(
                    *old(store),
                    player,
                    dt as int,
                    k,
                ),
            store.damage_events == old(store).damage_events,
            store.collision_events == old(store).collision_events,
            store.missile_spawn_events == old(store).missile_spawn_events,
            store.mine_spawn_events == old(store).mine_spawn_events,
            store.detonation_events == old(store).detonation_events,
        decreases n - i,
    {
        let e = store.entities[i];
        let is_rammer = matches!(e.ai, Option::Some(crate::entity::AiRole::Rammer { .. }))
            && e.enemy && !e.player && e.ship.is_some() && e.thruster.is_some() && e.mass.is_some()
            && e.vel.is_some();
        if is_rammer {
            let mut e2 = e;
            rammer_step(&mut e2, player, &cfg, dt);
            store.entities[i] = e2;
        }
        i = i + 1;
    }
}

/// What the picket pass leaves at index `k`.
pub open spec fn picket_pass_entity(s: EntityStore, player: Pose, dt: int, k: int) -> Entity {
    if picket_entity(s.entities[k]) {
        picket_step_spec(s.entities[k], player, s.config, dt).0
    } else {
        s.entities[k]
    }
}

/// The guided-missile requests the picket pass queues while scanning
/// the first `k` entities, in order.
pub open spec fn picket_requests_s(s: EntityStore, player: Pose, dt: int, k: int) -> Seq<
    crate::events::SpawnGuidedMissileEvent,
>
    decreases k,
{
    if k <= 0 {
        Seq::empty()
    } else {
        let rest = picket_requests_s(s, player, dt, k - 1);
        if picket_entity(s.entities[k - 1]) {
            match picket_step_spec(s.entities[k - 1], player, s.config, dt).1 {
                Option::Some(ev) => rest.push(ev),
                Option::None => rest,
            }
        } else {
            rest
        }
    }
}

/// The picket pass: requests for guided missiles go to the spawn queue.
pub fn picket_ai_system(store: &mut EntityStore, dt: i64)
    requires
        old(store).wf(),
        0 <= dt <= DT_LIMIT,
    ensures
        final(store).wf(),
        final(store).config == old(store).config,
        final(store).next_id == old(store).next_id,
        final(store).entities.len() == old(store).entities.len(),
        final(store).damage_events == old(store).damage_events,
        final(store).collision_events == old(store).collision_events,
        final(store).mine_spawn_events == old(store).mine_spawn_events,
        final(store).detonation_events == old(store).detonation_events,
        old(store).player_pose() is None ==> *final(store) == *old(store),
        old(store).player_pose() matches Option::Some(pp) ==> ({
            let n = old(store).entities.len() as int;
            &&& forall|k: int|
                0 <= k < n ==> #[trigger] final(store).entities[k] == picket_pass_entity(
                    *old(store),
                    pp,
                    dt as int,
                    k,
                )
            &&& final(store).missile_spawn_events@ == old(store).missile_spawn_events@
                + picket_requests_s(*old(store), pp, dt as int, n)
        }),
        final(store).missile_spawn_events.len() <= old(store).missile_spawn_events.len() + old(
            store,
        ).entities.len(),
{
    let player = match store.player_index() {
        Option::Some(p) => store.entities[p].pose,
        Option::None => {
            return ;
        },
    };
    let n = store.entities.len();
    let cfg = store.config;
    let mut i: usize = 0;
    proof {
        assert(store.missile_spawn_events@ =~= old(store).missile_spawn_events@
            + picket_requests_s(*old(store), player, dt as int, 0));
    }
    while i < n
        invariant
            old(store).wf(),
            store.wf(),
            store.config == old(store).config,
            cfg == old(store).config,
            crate::entity::pose_wf(player),
            old(store).player_pose() == Option::Some(player),
            0 <= dt <= DT_LIMIT,
            n == old(store).entities.len(),
            n == store.entities.len(),
            store.next_id == old(store).next_id,
            i <= n,
            forall|k: int|
                i <= k < n ==> #[trigger] store.entities[k] == old(store).entities[k],
            forall|k: int|
                0 <= k < i ==> #[trigger] store.entities[k] == picket_pass_entity(
                    *old(store),
                    player,
                    dt as int,
                    k,
                ),
            store.missile_spawn_events@ == old(store).missile_spawn_events@ + picket_requests_s(
                *old(store),
                player,
                dt as int,
                i as int,
            ),
            picket_requests_s(*old(store), player, dt as int, i as int).len() <= i,
            store.damage_events == old(store).damage_events,
            store.collision_events == old(store).collision_events,
            store.mine_spawn_events == old(store).mine_spawn_events,
            store.detonation_events == old(store).detonation_events,
        decreases n - i,
    {
        let ghost pre_reqs = picket_requests_s(*old(store), player, dt as int, i as int);
        let e = store.entities[i];
        let is_picket = matches!(e.ai, Option::Some(crate::entity::AiRole::Picket { .. }))
            && e.enemy && !e.player && e.ship.is_some() && e.thruster.is_some() && e.mass.is_some()
            && e.vel.is_some();
        if is_picket {
            let mut e2 = e;
            let launch = picket_step(&mut e2, player, &cfg, dt);
            store.entities[i] = e2;
            if let Option::Some(ev) = &launch {
                store.missile_spawn_events.push(*ev);
            }
        }
        proof {
            let next = picket_requests_s(*old(store), player, dt as int, i + 1);
            assert(e == old(store).entities[i as int]);
            if is_picket {
                if picket_step_spec(e, player, cfg, dt as int).1 is Some {
                    assert(next == pre_reqs.push(
                        picket_step_spec(e, player, cfg, dt as int).1.unwrap(),
                    ));
                    assert(store.missile_spawn_events@ =~= old(store).missile_spawn_events@
                        + next);
                } else {
                    assert(next == pre_reqs);
                }
            } else {
                assert(!picket_entity(e));
                assert(next == pre_reqs);
            }
        }
        i = i + 1;
    }
}

/// What the mine-layer pass leaves at index `k`.
pub open spec fn minelayer_pass_entity(s: EntityStore, dt: int, k: int) -> Entity {
    if minelayer_entity(s.entities[k]) {
        minelayer_step_spec(s.entities[k], s.config, dt).0
    } else {
        s.entities[k]
    }
}

/// The mines the layer pass queues while scanning the first `k`
/// entities, in order.
pub open spec fn mine_requests_s(s: EntityStore, dt: int, k: int) -> Seq<
    crate::events::SpawnMineEvent,
>
    decreases k,
{
    if k <= 0 {
        Seq::empty()
    } else {
        let rest = mine_requests_s(s, dt, k - 1);
        if minelayer_entity(s.entities[k - 1]) {
            match minelayer_step_spec(s.entities[k - 1], s.config, dt).1 {
                Option::Some(ev) => rest.push(ev),
                Option::None => rest,
            }
        } else {
            rest
        }
    }
}

/// The mine-layer pass: no player tracking; mines go to the spawn
/// queue.
pub fn minelayer_ai_system(store: &mut EntityStore, dt: i64)
    requires
        old(store).wf(),
        0 <= dt <= DT_LIMIT,
    ensures
        final(store).wf(),
        final(store).config == old(store).config,
        final(store).next_id == old(store).next_id,
        final(store).entities.len() == old(store).entities.len(),
        final(store).damage_events == old(store).damage_events,
        final(store).collision_events == old(store).collision_events,
        final(store).missile_spawn_events == old(store).missile_spawn_events,
        final(store).detonation_events == old(store).detonation_events,
        forall|k: int|
            0 <= k < old(store).entities.len() ==> #[trigger] final(store).entities[k]
                == minelayer_pass_entity(*old(store), dt as int, k),
        final(store).mine_spawn_events@ == old(store).mine_spawn_events@ + mine_requests_s(
            *old(store),
            dt as int,
            old(store).entities.len() as int,
        ),
        final(store).mine_spawn_events.len() <= old(store).mine_spawn_events.len() + old(
            store,
        ).entities.len(),
{
    let n = store.entities.len();
    let cfg = store.config;
    let mut i: usize = 0;
    proof {
        assert(store.mine_spawn_events@ =~= old(store).mine_spawn_events@ + mine_requests_s(
            *old(store),
            dt as int,
            0,
        ));
    }
    while i < n
        invariant
            old(store).wf(),
            store.wf(),
            store.config == old(store).config,
            cfg == old(store).config,
            0 <= dt <= DT_LIMIT,
            n == old(store).entities.len(),
            n == store.entities.len(),
            store.next_id == old(store).next_id,
            i <= n,
            forall|k: int|
                i <= k < n ==> #[trigger] store.entities[k] == old(store).entities[k],
            forall|k: int|
                0 <= k < i ==> #[trigger] store.entities[k] == minelayer_pass_entity(
                    *old(store),
                    dt as int,
                    k,
                ),
            store.mine_spawn_events@ == old(store).mine_spawn_events@ + mine_requests_s(
                *old(store),
                dt as int,
                i as int,
            ),
            mine_requests_s(*old(store), dt as int, i as int).len() <= i,
            store.damage_events == old(store).damage_events,
            store.collision_events == old(store).collision_events,
            store.missile_spawn_events == old(store).missile_spawn_events,
            store.detonation_events == old(store).detonation_events,
        decreases n - i,
    {
        let ghost pre_reqs = mine_requests_s(*old(store), dt as int, i as int);
        let e = store.entities[i];
        let is_layer = matches!(e.ai, Option::Some(crate::entity::AiRole::MineLayer { .. }))
            && e.enemy && !e.player && e.thruster.is_some() && e.mass.is_some() && e.vel.is_some();
        if is_layer {
            let mut e2 = e;
            let mine = minelayer_step(&mut e2, &cfg, dt);
            store.entities[i] = e2;
            if let Option::Some(ev) = &mine {
                store.mine_spawn_events.push(*ev);
            }
        }
        proof {
            let next = mine_requests_s(*old(store), dt as int, i + 1);
            assert(e == old(store).entities[i as int]);
            if is_layer {
                if minelayer_step_spec(e, cfg, dt as int).1 is Some {
                    assert(next == pre_reqs.push(
                        minelayer_step_spec(e, cfg, dt as int).1.unwrap(),
                    ));
                    assert(store.mine_spawn_events@ =~= old(store).mine_spawn_events@ + next);
                } else {
                    assert(next == pre_reqs);
                }
            } else {
                assert(!minelayer_entity(e));
                assert(next == pre_reqs);
            }
        }
        i = i + 1;
    }
}

/// The entities after one guided-missile tick, before removal.
pub open spec fn missiles_stepped_s(s: EntityStore, player: Option<Pose>, dt: int) -> Seq<Entity> {
    Seq::new(
        s.entities@.len(),
        |k: int|
            if guided_missile_entity(s.entities[k]) {
                guided_missile_step_spec(s.entities[k], player, s.config, dt).0
            } else {
                s.entities[k]
            },
    )
}

/// The keep-flags of the guided-missile pass: a missile whose fuel is
/// spent this tick starves silently.
pub open spec fn missile_fuel_flags(s: EntityStore, player: Option<Pose>, dt: int) -> Seq<bool> {
    Seq::new(
        s.entities@.len(),
        |k: int|
            !(guided_missile_entity(s.entities[k]) && guided_missile_step_spec(
                s.entities[k],
                player,
                s.config,
                dt,
            ).1),
    )
}

/// The guided-missile pass: every missile burns fuel, homes on the
/// player while any remains, and is removed the tick it runs out.
pub fn guided_missile_ai_system(store: &mut EntityStore, dt: i64)
    requires
        old(store).wf(),
        0 <= dt <= DT_LIMIT,
    ensures
        final(store).wf(),
        final(store).config == old(store).config,
        final(store).next_id == old(store).next_id,
        final(store).entities.len() <= old(store).entities.len(),
        final(store).entities@ == crate::store::filter_by_flags(
            missiles_stepped_s(*old(store), old(store).player_pose(), dt as int),
            missile_fuel_flags(*old(store), old(store).player_pose(), dt as int),
        ),
        final(store).damage_events == old(store).damage_events,
        final(store).collision_events == old(store).collision_events,
        final(store).missile_spawn_events == old(store).missile_spawn_events,
        final(store).mine_spawn_events == old(store).mine_spawn_events,
        final(store).detonation_events == old(store).detonation_events,
{
    let player = store.player_index();
    let ppose: Option<Pose> = match player {
        Option::Some(p) => Option::Some(store.entities[p].pose),
        Option::None => Option::None,
    };
    let n = store.entities.len();
    let cfg = store.config;
    let mut keep: Vec<bool> = Vec::new();
    let mut i: usize = 0;
    while i < n
        invariant
            old(store).wf(),
            store.wf(),
            store.config == old(store).config,
            cfg == old(store).config,
            ppose == old(store).player_pose(),
            match ppose {
                Option::Some(p) => crate::entity::pose_wf(p),
                Option::None => true,
            },
            0 <= dt <= DT_LIMIT,
            n == old(store).entities.len(),
            n == store.entities.len(),
            store.next_id == old(store).next_id,
            i <= n,
            keep.len() == i,
            forall|k: int|
                i <= k < n ==> #[trigger] store.entities[k] == old(store).entities[k],
            forall|k: int|
                0 <= k < i ==> #[trigger] store.entities[k] == missiles_stepped_s(
                    *old(store),
                    ppose,
                    dt as int,
                )[k],
            forall|k: int|
                0 <= k < i ==> keep@[k] == missile_fuel_flags(*old(store), ppose, dt as int)[k],
            store.damage_events == old(store).damage_events,
            store.collision_events == old(store).collision_events,
            store.missile_spawn_events == old(store).missile_spawn_events,
            store.mine_spawn_events == old(store).mine_spawn_events,
            store.detonation_events == old(store).detonation_events,
        decreases n - i,
    {
        let e = store.entities[i];
        let is_missile = e.missile.is_some() && !e.player && e.thruster.is_some()
            && e.mass.is_some() && e.vel.is_some();
        if is_missile {
            let mut e2 = e;
            let expired = guided_missile_step(&mut e2, ppose, &cfg, dt);
            store.entities[i] = e2;
            keep.push(!expired);
        } else {
            keep.push(true);
            proof {
                assert(!guided_missile_entity(e));
            }
        }
        i = i + 1;
    }
    proof {
        assert(store.entities@ =~= missiles_stepped_s(*old(store), ppose, dt as int));
        assert(keep@ =~= missile_fuel_flags(*old(store), ppose, dt as int));
    }
    let ghost pre_seq = store.entities@;
    store.retain_entities(&keep);
    proof {
        crate::store::lemma_filter_flags_elems(pre_seq, keep@);
    }
}

} // verus!
