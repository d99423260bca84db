use skirmish_core::ai::{guided_missile_step, minelayer_step, rammer_step, turret_ai_system};
use skirmish_core::config::SimConfig;
use skirmish_core::entity::{AiRole, Pose};
use skirmish_core::motion::{confine_player_movement_system, wrap_clipping_location_system};
use skirmish_core::ships::{load_guided_missile, load_minelayer_ship, load_player_ship,
    load_rammer_ship, load_turret_ship};
use skirmish_core::store::EntityStore;
use skirmish_core::timer::CountdownTimer;
use skirmish_core::vec2::Vec2;

fn cfg() -> SimConfig {
    SimConfig::standard()
}

fn pose_at(x: i64, y: i64) -> Pose {
    Pose { pos: Vec2 { x, y }, heading: 0 }
}

#[test]
fn ai_is_a_no_op_without_a_player() {
    let mut store = EntityStore::new(cfg());
    store.add_entity(load_turret_ship(pose_at(0, 0)));
    let before_heading = store.entities[0].pose.heading;
    turret_ai_system(&mut store);
    assert_eq!(store.entities.len(), 1);
    assert_eq!(store.entities[0].pose.heading, before_heading);
}

#[test]
fn minelayer_drops_mines_behind_itself() {
    let c = cfg();
    let mut e = load_minelayer_ship(pose_at(500_000, 500_000));
    // Force the drop clock to be ready.
    e.ai = Some(AiRole::MineLayer { drop: CountdownTimer { duration: 2_500, remaining: 0 } });
    let mine = minelayer_step(&mut e, &c, 16).expect("a mine should drop");
    // Heading 0 points along +x, so the mine lands at smaller x.
    assert!(mine.pose.pos.x < 500_000);
    // The clock rewinds so the next mine waits its full period.
    match e.ai.unwrap() {
        AiRole::MineLayer { drop } => assert_eq!(drop.remaining, 2_500),
        _ => panic!("mine layer role expected"),
    }
    // The layer cruises forward under its own lower ceiling.
    assert!(e.vel.unwrap().x > 0);
}

#[test]
fn guided_missile_homes_then_starves() {
    let c = cfg();
    let mut e = load_guided_missile(pose_at(0, 0));
    // Thrust builds up toward the player on the +x axis.
    let expired = guided_missile_step(&mut e, Some(pose_at(300_000, 0)), &c, 16);
    assert!(!expired);
    assert!(e.vel.unwrap().x > 0);
    // Starve the fuel: the missile despawns silently at zero.
    if let Some(m) = e.missile {
        let mut m2 = m;
        m2.fuel = 1_000;
        e.missile = Some(m2);
    }
    let expired = guided_missile_step(&mut e, Some(pose_at(300_000, 0)), &c, 16);
    assert!(expired);
}

#[test]
fn rammer_charges_past_the_speed_ceiling() {
    let c = cfg();
    let mut e = load_rammer_ship(pose_at(0, 0));
    // Close, facing the player, ram clock running: the boosted charge
    // is the one thrust in the game with no speed cap.
    let before = e.vel.unwrap().x;
    rammer_step(&mut e, pose_at(100_000, 0), &c, 16);
    let after = e.vel.unwrap().x;
    assert!(after > before);
    match e.ai.unwrap() {
        AiRole::Rammer { ram, .. } => assert_eq!(ram.remaining, 500 - 16),
        _ => panic!("rammer role expected"),
    }
}

#[test]
fn viewport_wrap_and_confine() {
    let mut store = EntityStore::new(cfg());
    store.add_entity(load_player_ship(pose_at(-5_000, 950_000)));
    store.add_entity(load_turret_ship(pose_at(1_250_000, -10_000)));
    wrap_clipping_location_system(&mut store, 1_200_000, 900_000);
    // Solid bodies wrap across the edges.
    assert_eq!(store.entities[0].pose.pos.x, 1_200_000);
    assert_eq!(store.entities[0].pose.pos.y, 0);
    assert_eq!(store.entities[1].pose.pos.x, 0);
    assert_eq!(store.entities[1].pose.pos.y, 900_000);
    // The player is then pinned a half-sprite inside the viewport.
    confine_player_movement_system(&mut store, 1_200_000, 900_000);
    assert_eq!(store.entities[0].pose.pos.x, 1_200_000 - 32_000);
    assert_eq!(store.entities[0].pose.pos.y, 32_000);
    // The non-player turret is not confined.
    assert_eq!(store.entities[1].pose.pos.x, 0);
}

#[test]
fn weapon_slots_cool_independently() {
    let mut store = EntityStore::new(cfg());
    store.add_entity(load_player_ship(pose_at(0, 0)));
    skirmish_core::weapon::tick_timers(&mut store, 250);
    let sh = store.entities[0].ship.unwrap();
    // After 250 ms the 200 ms laser is ready, the 1 s torpedo is not.
    assert!(sh.secondary_weapon.cd_timer.is_expired());
    assert!(!sh.primary_weapon.cd_timer.is_expired());
    assert!(!sh.tertiary_weapon.cd_timer.is_expired() || sh.tertiary_weapon.cd_timer.duration <= 250);
}
