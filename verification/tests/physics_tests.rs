use skirmish_core::collision::{collide_pair, projectile_damage};
use skirmish_core::config::SimConfig;
use skirmish_core::entity::{CollisionClass, DamageType, Entity, Pose, Projectile, ProjectileType};
use skirmish_core::fixed::FP;
use skirmish_core::motion::{integrate_entity, move_projectile_entity};
use skirmish_core::timer::CountdownTimer;
use skirmish_core::vec2::Vec2;

fn cfg() -> SimConfig {
    SimConfig::standard()
}

fn pose_at(x: i64, y: i64) -> Pose {
    Pose { pos: Vec2 { x, y }, heading: 0 }
}

fn speed_sq(v: &Vec2) -> i128 {
    (v.x as i128) * (v.x as i128) + (v.y as i128) * (v.y as i128)
}

fn drifting_body(vx: i64, vy: i64) -> Entity {
    let mut e = Entity::bare(1, pose_at(0, 0));
    e.vel = Some(Vec2 { x: vx, y: vy });
    e
}

#[test]
fn motion_clamp_caps_any_speed() {
    let c = cfg();
    // Far above the 200 units/s ceiling in both coordinates.
    let mut e = drifting_body(900_000, -700_000);
    integrate_entity(&mut e, &c, 16);
    let v = e.vel.unwrap();
    let max = c.max_speed as i128;
    assert!(speed_sq(&v) <= max * max);
}

#[test]
fn motion_clamp_leaves_slow_bodies_alone() {
    let c = cfg();
    // Below the drift floor: a DriftFloor body must keep its speed.
    let mut e = drifting_body(200, 100);
    integrate_entity(&mut e, &c, 16);
    let v = e.vel.unwrap();
    assert_eq!(v.x, 200);
    assert_eq!(v.y, 100);
}

#[test]
fn drag_decays_dampened_bodies() {
    let c = cfg();
    let mut e = drifting_body(100_000, 0);
    e.drag = skirmish_core::entity::DragPolicy::Dampened { factor: 995 };
    integrate_entity(&mut e, &c, 16);
    let v = e.vel.unwrap();
    // One tick of the 0.995 factor: 100.0 becomes 99.5.
    assert_eq!(v.x, 99_500);
    assert_eq!(v.y, 0);
}

#[test]
fn drag_monotone_until_below_one() {
    let c = cfg();
    // Factor 0.995 brings an initial speed of 100 below 1 within
    // about 920 ticks, and the speed never grows along the way.
    let mut e = drifting_body(100_000, 0);
    e.drag = skirmish_core::entity::DragPolicy::Dampened { factor: 995 };
    let mut last = speed_sq(&e.vel.unwrap());
    for _ in 0..920 {
        integrate_entity(&mut e, &c, 16);
        let now = speed_sq(&e.vel.unwrap());
        assert!(now <= last);
        last = now;
    }
    let v = e.vel.unwrap();
    assert!(speed_sq(&v) < (FP as i128) * (FP as i128));
}

#[test]
fn head_on_collision_exact_outcome() {
    let c = cfg();
    // Two 1000 kg bodies meeting head on at 100 units/s each.
    let p1 = Vec2 { x: 0, y: 0 };
    let p2 = Vec2 { x: 20_000, y: 0 };
    let v1 = Vec2 { x: 100_000, y: 0 };
    let v2 = Vec2 { x: -100_000, y: 0 };
    let out = collide_pair(p1, v1, 1_000_000, p2, v2, 1_000_000, &c);
    // Restitution 0.35 of the 200 units/s approach speed, plus the
    // 0.05 separating nudge.
    assert_eq!(out.v1.x, -35_050);
    assert_eq!(out.v1.y, 0);
    assert_eq!(out.v2.x, 35_050);
    assert_eq!(out.v2.y, 0);
    assert!(out.damaging);
    // Absorbed energy 8_775 kJ, half converted per participant.
    assert_eq!(out.ke_absorbed, 8_775_000_000);
    assert_eq!(out.damage, 4_387_500);
}

#[test]
fn collision_energy_cap_holds() {
    let c = cfg();
    // Grossly unequal masses: the light body must not leave faster
    // than the combined pre-collision speed plus the epsilon.
    let p1 = Vec2 { x: 0, y: 0 };
    let p2 = Vec2 { x: 5_000, y: 3_000 };
    let v1 = Vec2 { x: 10_000, y: 0 };
    let v2 = Vec2 { x: -1_000, y: 0 };
    let out = collide_pair(p1, v1, 10_000, p2, v2, 1_000_000, &c);
    let cap = (out.cap + c.cap_epsilon) as i128;
    assert!(speed_sq(&out.v1) <= cap * cap);
    assert!(speed_sq(&out.v2) <= cap * cap);
}

#[test]
fn unequal_masses_split_impulse_by_mass() {
    let c = cfg();
    // Mass 10 at (10, 0) against mass 1000 at (-1, 0): the heavy
    // body's velocity barely changes, the light one's changes a lot,
    // and the restitution below one absorbs energy.
    let p1 = Vec2 { x: 0, y: 0 };
    let p2 = Vec2 { x: 10_000, y: 0 };
    let v1 = Vec2 { x: 10_000, y: 0 };
    let v2 = Vec2 { x: -1_000, y: 0 };
    let out = collide_pair(p1, v1, 10_000, p2, v2, 1_000_000, &c);
    let dv1 = (out.v1.x - v1.x).abs();
    let dv2 = (out.v2.x - v2.x).abs();
    assert!(dv1 > 10 * dv2);
    assert!(out.ke_absorbed > 0);
}

#[test]
fn trivial_bump_deals_no_damage() {
    let c = cfg();
    // A gentle touch: absorbed energy below the 2000 J threshold.
    let p1 = Vec2 { x: 0, y: 0 };
    let p2 = Vec2 { x: 20_000, y: 0 };
    let v1 = Vec2 { x: 1_000, y: 0 };
    let v2 = Vec2 { x: -1_000, y: 0 };
    let out = collide_pair(p1, v1, 100_000, p2, v2, 100_000, &c);
    assert!(!out.damaging);
}

#[test]
fn coincident_centres_still_separate() {
    let c = cfg();
    // The degenerate zero-distance case must not blow up: the
    // fallback impact direction pushes the bodies apart.
    let p = Vec2 { x: 0, y: 0 };
    let v = Vec2 { x: 0, y: 0 };
    let out = collide_pair(p, v, 1_000_000, p, v, 1_000_000, &c);
    assert!(out.v1.x != out.v2.x || out.v1.y != out.v2.y);
}

#[test]
fn laser_damage_is_base_damage_only() {
    let c = cfg();
    let p = Projectile {
        speed: 400_000,
        fuel: 300_000,
        projectile_type: ProjectileType::Laser,
        damage_type: DamageType::Radiant,
        damage_value: 50_000,
        mass: 0,
    };
    assert_eq!(projectile_damage(&p, &c), 50_000);
}

#[test]
fn shell_damage_adds_kinetic_energy() {
    let c = cfg();
    // 0.04 kg at 1000 units/s: 20 kJ of kinetic energy on top of the
    // 0.5 base damage.
    let p = Projectile {
        speed: 1_000_000,
        fuel: 300_000,
        projectile_type: ProjectileType::Shells,
        damage_type: DamageType::Kinetic,
        damage_value: 500,
        mass: 40,
    };
    assert_eq!(projectile_damage(&p, &c), 20_500);
}

#[test]
fn projectile_fuel_burns_to_exactly_zero() {
    let c = cfg();
    let mut e = Entity::bare(7, pose_at(0, 0));
    e.vel = Some(Vec2 { x: 50_000, y: 0 });
    e.collision_class = Some(CollisionClass::Ephemeral);
    e.projectile = Some(Projectile {
        speed: 50_000,
        fuel: 3_000,
        projectile_type: ProjectileType::Laser,
        damage_type: DamageType::Radiant,
        damage_value: 1_000,
        mass: 0,
    });
    // Fuel 3.0, burning 1.0 per tick: alive after two ticks, removed
    // at exactly the third, and moving on every tick up to it.
    let mut last_x = e.pose.pos.x;
    for tick in 1..=3 {
        let expired = move_projectile_entity(&mut e, &c, 16);
        assert!(e.pose.pos.x > last_x);
        last_x = e.pose.pos.x;
        assert_eq!(expired, tick == 3);
    }
}

#[test]
fn timers_count_down_and_reset() {
    let mut t = CountdownTimer::from_duration(100);
    assert!(!t.is_expired());
    t.tick(60);
    assert!(!t.is_expired());
    t.tick(60);
    assert!(t.is_expired());
    t.reset();
    assert!(!t.is_expired());
}
