//! The player's controls: turning, thrusting and the three
//! independently cooled weapon slots, driven by plain input flags the
//! surrounding shell reads from the keyboard and mouse.

use vstd::prelude::*;
use crate::ai::{FireIntent, fire_intent_matches, fire_intent_wf, origin_speed, origin_speed_s,
    primary_reset_s, thrust_clamped, thrust_vel_s};
use crate::angle::{atan2_s, heading_wf, wrap_full_s, atan2_mr, wrap_full};
use crate::config::{DT_LIMIT, SimConfig};
use crate::entity::{Entity, POS_LIMIT, Pose};
use crate::fixed::sq;
use crate::store::EntityStore;
use crate::timer::CountdownTimer;
use crate::vec2::Vec2;

verus! {

/// One tick of player input, as plain flags.
#[derive(Clone, Copy, PartialEq, Eq, Structural, Debug)]
pub struct PlayerInput {
    pub thrust: bool,
    pub turn_left: bool,
    pub turn_right: bool,
    pub fire_primary: bool,
    pub fire_secondary: bool,
    pub fire_tertiary: bool,
}

/// The player's heading after this tick's turning input: left first,
/// then right, each by the ship's full turn rate.
pub open spec fn player_heading_s(h: int, turn_speed: int, input: PlayerInput) -> int {
    let h1 = if input.turn_left {
        wrap_full_s(h + turn_speed)
    } else {
        h
    };
    if input.turn_right {
        wrap_full_s(h1 - turn_speed)
    } else {
        h1
    }
}

/// The meaning of one tick of the player's motion controls.
pub open spec fn player_velocity_step_spec(
    e: Entity,
    input: PlayerInput,
    cfg: SimConfig,
    dt: int,
) -> Entity {
    match (e.ship, e.thruster, e.mass, e.vel) {
        (Option::Some(sh), Option::Some(th), Option::Some(m), Option::Some(v)) => {
            let thrusted = if input.thrust {
                crate::ai::with_vel(
                    e,
                    thrust_vel_s(
                        v,
                        e.pose.heading as int,
                        th.force as int,
                        1,
                        m as int,
                        dt,
                        cfg.ai_max_speed as int,
                    ),
                )
            } else {
                e
            };
            crate::ai::with_heading(
                thrusted,
                player_heading_s(e.pose.heading as int, sh.turn_speed as int, input),
            )
        },
        _ => e,
    }
}

/// One tick of the player's motion controls: thrust along the current
/// heading under the AI speed ceiling, then apply the turning input.
pub fn player_velocity_step(e: &mut Entity, input: PlayerInput, cfg: &SimConfig, dt: i64)
    requires
        old(e).wf(),
        cfg.wf(),
        0 <= dt <= DT_LIMIT,
        old(e).ship is Some,
        old(e).thruster is Some,
        old(e).mass is Some,
        old(e).vel is Some,
    ensures
        *final(e) == player_velocity_step_spec(*old(e), input, *cfg, dt as int),
        final(e).wf(),
        final(e).id == old(e).id,
        final(e).pose.pos == old(e).pose.pos,
        final(e).ship == old(e).ship,
        final(e).health == old(e).health,
        final(e).ai == old(e).ai,
        old(e).ship matches Option::Some(sh) ==> old(e).thruster matches Option::Some(th)
            ==> old(e).mass matches Option::Some(m) ==> old(e).vel matches Option::Some(v) ==> ({
            &&& final(e).pose.heading == player_heading_s(
                old(e).pose.heading as int,
                sh.turn_speed as int,
                input,
            )
            &&& (input.thrust ==> (final(e).vel matches Option::Some(v2) && (
            v2.x as int,
            v2.y as int,
            ) == thrust_vel_s(
                v,
                old(e).pose.heading as int,
                th.force as int,
                1,
                m as int,
                dt as int,
                cfg.ai_max_speed as int,
            )))
            &&& (!input.thrust ==> final(e).vel == old(e).vel)
        }),
{
    let sh = match &e.ship {
        Option::Some(s) => *s,
        Option::None => {
            return ;
        },
    };
    let th = match &e.thruster {
        Option::Some(t) => *t,
        Option::None => {
            return ;
        },
    };
    let m = match &e.mass {
        Option::Some(m) => *m,
        Option::None => {
            return ;
        },
    };
    let v = match &e.vel {
        Option::Some(v) => *v,
        Option::None => {
            return ;
        },
    };
    if input.thrust {
        e.vel = Option::Some(
            thrust_clamped(v, e.pose.heading, th.force, 1, m, dt, cfg.ai_max_speed),
        );
    }
    let mut h = e.pose.heading;
    if input.turn_left {
        h = wrap_full(h + sh.turn_speed);
    }
    if input.turn_right {
        h = wrap_full(h - sh.turn_speed);
    }
    e.pose = Pose { pos: e.pose.pos, heading: h };
}

/// The heading of the cursor-aimed tertiary slot: straight from the
/// ship to the supplied world-space cursor point.
pub open spec fn cursor_heading_s(pos: Vec2, cursor: Vec2) -> int {
    wrap_full_s(atan2_s(cursor.y - pos.y, cursor.x - pos.x))
}

/// A weapon with its cooldown rewound to the full duration.
pub open spec fn reset_weapon_s(w: crate::entity::WeaponSystem) -> crate::entity::WeaponSystem {
    crate::entity::WeaponSystem {
        cd_timer: CountdownTimer { duration: w.cd_timer.duration, remaining: w.cd_timer.duration },
        ..w
    }
}

/// The meaning of one tick of the player's weapon controls.
pub open spec fn player_fire_step_spec(e: Entity, input: PlayerInput, cursor: Vec2, cfg: SimConfig)
    -> (Entity, Option<FireIntent>, Option<FireIntent>, Option<FireIntent>) {
    match e.ship {
        Option::Some(sh) => {
            let osp = origin_speed_s(crate::ai::vel_or_zero_s(e));
            let fire0 = input.fire_primary && sh.primary_weapon.cd_timer.spec_expired();
            let fire1 = input.fire_secondary && sh.secondary_weapon.cd_timer.spec_expired();
            let fire2 = input.fire_tertiary && sh.tertiary_weapon.cd_timer.spec_expired();
            let r0 = if fire0 {
                Option::Some(crate::ai::intent_of(sh.primary_weapon, e.pose, osp, cfg))
            } else {
                Option::None
            };
            let r1 = if fire1 {
                Option::Some(crate::ai::intent_of(sh.secondary_weapon, e.pose, osp, cfg))
            } else {
                Option::None
            };
            let aimed = Pose { pos: e.pose.pos, heading: cursor_heading_s(e.pose.pos, cursor) as i64 };
            let r2 = if fire2 {
                Option::Some(crate::ai::intent_of(sh.tertiary_weapon, aimed, osp, cfg))
            } else {
                Option::None
            };
            let sh2 = crate::entity::Ship {
                primary_weapon: if fire0 {
                    reset_weapon_s(sh.primary_weapon)
                } else {
                    sh.primary_weapon
                },
                secondary_weapon: if fire1 {
                    reset_weapon_s(sh.secondary_weapon)
                } else {
                    sh.secondary_weapon
                },
                tertiary_weapon: if fire2 {
                    reset_weapon_s(sh.tertiary_weapon)
                } else {
                    sh.tertiary_weapon
                },
                ..sh
            };
            (Entity { ship: Option::Some(sh2), ..e }, r0, r1, r2)
        },
        Option::None => (e, Option::None, Option::None, Option::None),
    }
}

/// One tick of the player's weapon controls.  Each slot fires exactly
/// when its flag is held and its own cooldown has expired; the slots'
/// cooldowns are independent.  The tertiary slot aims at the cursor
/// rather than along the ship's heading.
pub fn player_fire_step(e: &mut Entity, input: PlayerInput, cursor: Vec2, cfg: &SimConfig) -> (r:
    (Option<FireIntent>, Option<FireIntent>, Option<FireIntent>))
    requires
        old(e).wf(),
        cfg.wf(),
        cursor.in_bounds(POS_LIMIT as int),
        old(e).ship is Some,
    ensures
        ({
            let z = player_fire_step_spec(*old(e), input, cursor, *cfg);
            *final(e) == z.0 && r.0 == z.1 && r.1 == z.2 && r.2 == z.3
        }),
        final(e).wf(),
        final(e).id == old(e).id,
        final(e).pose == old(e).pose,
        final(e).vel == old(e).vel,
        final(e).health == old(e).health,
        r.0 matches Option::Some(fi) ==> fire_intent_wf(fi),
        r.1 matches Option::Some(fi) ==> fire_intent_wf(fi),
        r.2 matches Option::Some(fi) ==> fire_intent_wf(fi),
        old(e).ship matches Option::Some(sh) ==> ({
            &&& (r.0 is Some <==> input.fire_primary && sh.primary_weapon.cd_timer.spec_expired())
            &&& (r.1 is Some <==> input.fire_secondary
                && sh.secondary_weapon.cd_timer.spec_expired())
            &&& (r.2 is Some <==> input.fire_tertiary && sh.tertiary_weapon.cd_timer.spec_expired())
            &&& (r.0 matches Option::Some(fi) ==> fire_intent_matches(
                fi,
                sh.primary_weapon,
                old(e).pose,
                origin_speed_s(crate::ai::vel_or_zero_s(*old(e))),
                *cfg,
            ))
            &&& (final(e).ship matches Option::Some(sh2) && sh2.turn_speed == sh.turn_speed)
        }),
{
    let sh = match &e.ship {
        Option::Some(s) => *s,
        Option::None => {
            return (Option::None, Option::None, Option::None);
        },
    };
    let vz = match &e.vel {
        Option::Some(v) => *v,
        Option::None => Vec2::zero(),
    };
    let osp = origin_speed(&vz);
    let mut sh2 = sh;
    let r0: Option<FireIntent> = if input.fire_primary
        && sh2.primary_weapon.cd_timer.is_expired() {
        let launch = sh2.primary_weapon.fire(e.pose.heading, osp);
        let pose = crate::weapon::spawn_pose(&e.pose, cfg.forward_offset);
        Option::Some(FireIntent { pose, launch })
    } else {
        Option::None
    };
    let r1: Option<FireIntent> = if input.fire_secondary
        && sh2.secondary_weapon.cd_timer.is_expired() {
        let launch = sh2.secondary_weapon.fire(e.pose.heading, osp);
        let pose = crate::weapon::spawn_pose(&e.pose, cfg.forward_offset);
        Option::Some(FireIntent { pose, launch })
    } else {
        Option::None
    };
    let r2: Option<FireIntent> = if input.fire_tertiary
        && sh2.tertiary_weapon.cd_timer.is_expired() {
        let aim = wrap_full(atan2_mr(cursor.y - e.pose.pos.y, cursor.x - e.pose.pos.x));
        let aimed = Pose { pos: e.pose.pos, heading: aim };
        let launch = sh2.tertiary_weapon.fire(aim, osp);
        let pose = crate::weapon::spawn_pose(&aimed, cfg.forward_offset);
        Option::Some(FireIntent { pose, launch })
    } else {
        Option::None
    };
    e.ship = Option::Some(sh2);
    (r0, r1, r2)
}

/// Swap the player's primary weapon for the test torpedo while the
/// toggle is held.
pub fn test_weapon_toggle(store: &mut EntityStore, pressed: bool)
    requires
        old(store).wf(),
    ensures
        final(store).wf(),
        final(store).config == old(store).config,
        final(store).next_id == old(store).next_id,
        final(store).entities.len() == old(store).entities.len(),
        final(store).damage_events == old(store).damage_events,
        final(store).collision_events == old(store).collision_events,
        final(store).missile_spawn_events == old(store).missile_spawn_events,
        final(store).mine_spawn_events == old(store).mine_spawn_events,
        final(store).detonation_events == old(store).detonation_events,
        !pressed ==> *final(store) == *old(store),
        old(store).player_pose() is None ==> *final(store) == *old(store),
        pressed ==> ({
            let p = old(store).first_player_from(0);
            p < old(store).entities.len() ==> forall|k: int|
                0 <= k < old(store).entities.len() ==> #[trigger] final(store).entities[k] == (if k
                    == p {
                    match old(store).entities[p].ship {
                        Option::Some(sh) => Entity {
                            ship: Option::Some(
                                crate::entity::Ship {
                                    primary_weapon: crate::ship_parts::test_torpedo_s(),
                                    ..sh
                                },
                            ),
                            ..old(store).entities[p]
                        },
                        Option::None => old(store).entities[p],
                    }
                } else {
                    old(store).entities[k]
                })
        }),
        forall|k: int|
            0 <= k < old(store).entities.len() && !(#[trigger] old(store).entities[k]).player
                ==> final(store).entities[k] == old(store).entities[k],
{
    if !pressed {
        return ;
    }
    match store.player_index() {
        Option::Some(p) => {
            let e = store.entities[p];
            match &e.ship {
                Option::Some(sh) => {
                    let mut sh2 = *sh;
                    sh2.primary_weapon = crate::ship_parts::load_test_torpedo();
                    let mut e2 = e;
                    e2.ship = Option::Some(sh2);
                    store.entities[p] = e2;
                },
                Option::None => {},
            }
        },
        Option::None => {},
    }
}

/// The player carries everything the motion controls read.
pub open spec fn player_motion_ready(e: Entity) -> bool {
    &&& e.ship is Some
    &&& e.thruster is Some
    &&& e.mass is Some
    &&& e.vel is Some
}

/// The keyboard pass over the player's motion controls: the first
/// player entity is put through [`player_velocity_step`]; everything
/// else is untouched, and a world with no player is left as it is.
pub fn update_player_velocity_system(store: &mut EntityStore, input: PlayerInput, dt: i64)
    requires
        old(store).wf(),
        0 <= dt <= DT_LIMIT,
    ensures
        final(store).wf(),
        final(store).config == old(store).config,
        final(store).next_id == old(store).next_id,
        final(store).entities.len() == old(store).entities.len(),
        final(store).damage_events == old(store).damage_events,
        final(store).collision_events == old(store).collision_events,
        final(store).missile_spawn_events == old(store).missile_spawn_events,
        final(store).mine_spawn_events == old(store).mine_spawn_events,
        final(store).detonation_events == old(store).detonation_events,
        old(store).player_pose() is None ==> *final(store) == *old(store),
        ({
            let p = old(store).first_player_from(0);
            p < old(store).entities.len() ==> forall|k: int|
                0 <= k < old(store).entities.len() ==> #[trigger] final(store).entities[k] == (if k
                    == p && player_motion_ready(old(store).entities[p]) {
                    player_velocity_step_spec(
                        old(store).entities[p],
                        input,
                        old(store).config,
                        dt as int,
                    )
                } else {
                    old(store).entities[k]
                })
        }),
{
    let p = match store.player_index() {
        Option::Some(p) => p,
        Option::None => {
            return ;
        },
    };
    let e = store.entities[p];
    if e.ship.is_some() && e.thruster.is_some() && e.mass.is_some() && e.vel.is_some() {
        let cfg = store.config;
        let mut e2 = e;
        player_velocity_step(&mut e2, input, &cfg, dt);
        store.entities[p] = e2;
    }
}

/// The projectiles the player's weapon pass appends this tick, in
/// slot order, each stamped with the identity it receives.
pub open spec fn player_spawn_list(
    e: Entity,
    input: PlayerInput,
    cursor: Vec2,
    cfg: SimConfig,
    base: u64,
) -> Seq<Entity> {
    let z = player_fire_step_spec(e, input, cursor, cfg);
    let s0 = Seq::<Entity>::empty();
    let s1 = match z.1 {
        Option::Some(fi) => s0.push(
            Entity {
                id: (base + s0.len()) as u64,
                ..crate::weapon::projectile_entity_s(fi.pose, fi.launch)
            },
        ),
        Option::None => s0,
    };
    let s2 = match z.2 {
        Option::Some(fi) => s1.push(
            Entity {
                id: (base + s1.len()) as u64,
                ..crate::weapon::projectile_entity_s(fi.pose, fi.launch)
            },
        ),
        Option::None => s1,
    };
    match z.3 {
        Option::Some(fi) => s2.push(
            Entity {
                id: (base + s2.len()) as u64,
                ..crate::weapon::projectile_entity_s(fi.pose, fi.launch)
            },
        ),
        Option::None => s2,
    }
}

/// The input pass over the player's weapons: the first player entity
/// is put through [`player_fire_step`] and each fired slot's
/// projectile is appended to the world, in slot order.
pub fn player_weapons_system(store: &mut EntityStore, input: PlayerInput, cursor: Vec2)
    requires
        old(store).wf(),
        old(store).next_id + 3 <= crate::store::ID_LIMIT,
        cursor.in_bounds(POS_LIMIT as int),
    ensures
        final(store).wf(),
        final(store).config == old(store).config,
        final(store).next_id <= old(store).next_id + 3,
        old(store).entities.len() <= final(store).entities.len() <= old(store).entities.len() + 3,
        final(store).damage_events == old(store).damage_events,
        final(store).collision_events == old(store).collision_events,
        final(store).missile_spawn_events == old(store).missile_spawn_events,
        final(store).mine_spawn_events == old(store).mine_spawn_events,
        final(store).detonation_events == old(store).detonation_events,
        old(store).player_pose() is None ==> *final(store) == *old(store),
        ({
            let p = old(store).first_player_from(0);
            let n = old(store).entities.len() as int;
            p < n ==> (if old(store).entities[p].ship is Some {
                let z = player_fire_step_spec(
                    old(store).entities[p],
                    input,
                    cursor,
                    old(store).config,
                );
                let spawns = player_spawn_list(
                    old(store).entities[p],
                    input,
                    cursor,
                    old(store).config,
                    old(store).next_id,
                );
                &&& forall|k: int|
                    0 <= k < n ==> #[trigger] final(store).entities[k] == (if k == p {
                        z.0
                    } else {
                        old(store).entities[k]
                    })
                &&& final(store).entities.len() == n + spawns.len()
                &&& forall|j: int|
                    0 <= j < spawns.len() ==> #[trigger] final(store).entities[n + j] == spawns[j]
                &&& final(store).next_id == old(store).next_id + spawns.len()
            } else {
                *final(store) == *old(store)
            })
        }),
{
    let p = match store.player_index() {
        Option::Some(p) => p,
        Option::None => {
            return ;
        },
    };
    let e = store.entities[p];
    if e.ship.is_some() {
        let cfg = store.config;
        let mut e2 = e;
        let (r0, r1, r2) = player_fire_step(&mut e2, input, cursor, &cfg);
        store.entities[p] = e2;
        if let Option::Some(fi) = &r0 {
            let pe = crate::weapon::projectile_entity(fi.pose, &fi.launch);
            let _ = store.add_entity(pe);
        }
        if let Option::Some(fi) = &r1 {
            let pe = crate::weapon::projectile_entity(fi.pose, &fi.launch);
            let _ = store.add_entity(pe);
        }
        if let Option::Some(fi) = &r2 {
            let pe = crate::weapon::projectile_entity(fi.pose, &fi.launch);
            let _ = store.add_entity(pe);
        }
    }
}

} // verus!
