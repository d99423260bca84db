use skirmish_core::ai::{picket_step, speedy_step, turret_step};
use skirmish_core::config::SimConfig;
use skirmish_core::entity::{AiRole, Pose};
use skirmish_core::ships::{load_picket_ship, load_speedy_ship, load_turret_ship};
use skirmish_core::timer::CountdownTimer;
use skirmish_core::vec2::Vec2;

fn cfg() -> SimConfig {
    SimConfig::standard()
}

fn pose_at(x: i64, y: i64) -> Pose {
    Pose { pos: Vec2 { x, y }, heading: 0 }
}

#[test]
fn turret_fires_when_aligned_and_loaded() {
    let c = cfg();
    // Player dead ahead along the heading, cooldown expired.
    let mut e = load_turret_ship(pose_at(0, 0));
    let mut sh = e.ship.unwrap();
    sh.primary_weapon.cd_timer = CountdownTimer { duration: 500, remaining: 0 };
    e.ship = Some(sh);
    let fire = turret_step(&mut e, pose_at(100_000, 0), &c);
    assert!(fire.is_some());
    // The shot spawns in front of the turret and flies forward.
    let fi = fire.unwrap();
    assert!(fi.pose.pos.x > 0);
    assert!(fi.launch.velocity.x > 0);
    // Firing reset the cooldown.
    assert!(!e.ship.unwrap().primary_weapon.cd_timer.is_expired());
}

#[test]
fn turret_holds_fire_while_cooling() {
    let c = cfg();
    // Aligned, but the cooldown is still running: no projectile.
    let mut e = load_turret_ship(pose_at(0, 0));
    let fire = turret_step(&mut e, pose_at(100_000, 0), &c);
    assert!(fire.is_none());
}

#[test]
fn turret_holds_fire_when_misaligned() {
    let c = cfg();
    // Player far off the heading: the turret only turns.
    let mut e = load_turret_ship(pose_at(0, 0));
    let mut sh = e.ship.unwrap();
    sh.primary_weapon.cd_timer = CountdownTimer { duration: 500, remaining: 0 };
    e.ship = Some(sh);
    let before = e.pose.heading;
    let fire = turret_step(&mut e, pose_at(0, 100_000), &c);
    assert!(fire.is_none());
    assert_ne!(e.pose.heading, before);
}

#[test]
fn speedy_approaches_from_afar_without_firing() {
    let c = cfg();
    // 1000 units away, past the 500-unit threshold: turn and thrust
    // only; the engage clock must not tick.
    let mut e = load_speedy_ship(pose_at(0, 0));
    let mut sh = e.ship.unwrap();
    sh.primary_weapon.cd_timer = CountdownTimer { duration: 500, remaining: 0 };
    e.ship = Some(sh);
    let fire = speedy_step(&mut e, pose_at(1_000_000, 0), &c, 16);
    assert!(fire.is_none());
    let v = e.vel.unwrap();
    assert!(v.x > 0);
    match e.ai.unwrap() {
        AiRole::Speedy { engage, .. } => assert_eq!(engage.remaining, 2_000),
        _ => panic!("speedy role expected"),
    }
}

#[test]
fn speedy_engages_in_range() {
    let c = cfg();
    // 400 units away: the engage clock ticks and the ready weapon
    // fires.
    let mut e = load_speedy_ship(pose_at(0, 0));
    let mut sh = e.ship.unwrap();
    sh.primary_weapon.cd_timer = CountdownTimer { duration: 500, remaining: 0 };
    e.ship = Some(sh);
    let fire = speedy_step(&mut e, pose_at(400_000, 0), &c, 16);
    assert!(fire.is_some());
    match e.ai.unwrap() {
        AiRole::Speedy { engage, .. } => assert_eq!(engage.remaining, 2_000 - 16),
        _ => panic!("speedy role expected"),
    }
}

#[test]
fn picket_retreats_inside_its_range() {
    let c = cfg();
    // 400 units from the player, inside the 600-unit threshold: the
    // picket turns toward the player but thrusts away, and however
    // long this goes on it never reaches the missile branch.
    let mut e = load_picket_ship(pose_at(0, 0));
    for _ in 0..600 {
        let launch = picket_step(&mut e, pose_at(400_000, 0), &c, 16);
        assert!(launch.is_none());
        // Reset the position so the scenario stays at distance 400.
        e.pose = Pose { pos: Vec2 { x: 0, y: 0 }, heading: e.pose.heading };
    }
    // The retreat thrust points away from the player.
    let v = e.vel.unwrap();
    assert!(v.x < 0);
}

#[test]
fn picket_requests_missiles_at_long_range() {
    let c = cfg();
    // Far outside the threshold with the fire clock expired and the
    // weapon ready: a guided-missile request is emitted.
    let mut e = load_picket_ship(pose_at(0, 0));
    let mut sh = e.ship.unwrap();
    sh.primary_weapon.cd_timer = CountdownTimer { duration: 500, remaining: 0 };
    e.ship = Some(sh);
    if let Some(AiRole::Picket { .. }) = e.ai {
        e.ai = Some(AiRole::Picket { fire: CountdownTimer { duration: 3_500, remaining: 0 } });
    }
    let launch = picket_step(&mut e, pose_at(800_000, 0), &c, 16);
    assert!(launch.is_some());
}
