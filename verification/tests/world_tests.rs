use skirmish_core::collision::{collision_calculation_system, collision_resolution_system};
use skirmish_core::config::SimConfig;
use skirmish_core::damage::{despawn_dead_system, inflict_damage_system};
use skirmish_core::entity::{CollisionBox, CollisionClass, Entity, Pose, Shape};
use skirmish_core::events::DamageEvent;
use skirmish_core::player::PlayerInput;
use skirmish_core::ships::load_player_ship;
use skirmish_core::store::EntityStore;
use skirmish_core::tick::world_tick;
use skirmish_core::timer::CountdownTimer;
use skirmish_core::vec2::Vec2;
use skirmish_core::weapon::tick_timers;

fn cfg() -> SimConfig {
    SimConfig::standard()
}

fn pose_at(x: i64, y: i64) -> Pose {
    Pose { pos: Vec2 { x, y }, heading: 0 }
}

fn solid_ball(x: i64, vx: i64) -> Entity {
    let mut e = Entity::bare(0, pose_at(x, 0));
    e.vel = Some(Vec2 { x: vx, y: 0 });
    e.mass = Some(1_000_000);
    e.health = Some(100_000);
    e.collision = Some(CollisionBox { shape: Shape::Circle, width_radius: 15_000, height: 15_000 });
    e.collision_class = Some(CollisionClass::Solid);
    e.collision_cooldown = CountdownTimer { duration: 100, remaining: 0 };
    e
}

#[test]
fn overlapping_pair_collides_once_per_cooldown_window() {
    let mut store = EntityStore::new(cfg());
    store.add_entity(solid_ball(0, 0));
    store.add_entity(solid_ball(10_000, 0));
    // First detection pass: one collision, two velocity events.
    collision_calculation_system(&mut store);
    assert_eq!(store.collision_events.len(), 2);
    collision_resolution_system(&mut store);
    assert_eq!(store.collision_events.len(), 0);
    // Still overlapping next tick, but the cooldown (100 ms) has only
    // counted 16 ms: no further events for the whole window.
    tick_timers(&mut store, 16);
    collision_calculation_system(&mut store);
    assert_eq!(store.collision_events.len(), 0);
    // Once the window has fully elapsed the pair may collide again.
    tick_timers(&mut store, 100);
    collision_calculation_system(&mut store);
    assert_eq!(store.collision_events.len(), 2);
}

#[test]
fn damage_subtracts_and_cleanup_despawns() {
    let mut store = EntityStore::new(cfg());
    let id = store.add_entity(solid_ball(0, 0));
    store.damage_events.push(DamageEvent {
        target: id,
        damage_value: 40_000,
        damage_type: skirmish_core::entity::DamageType::Kinetic,
    });
    inflict_damage_system(&mut store);
    assert_eq!(store.entities[0].health, Some(60_000));
    // A second, overkilling hit leaves negative health, which is the
    // despawn signal; cleanup removes the body.
    store.damage_events.push(DamageEvent {
        target: id,
        damage_value: 90_000,
        damage_type: skirmish_core::entity::DamageType::Kinetic,
    });
    inflict_damage_system(&mut store);
    assert_eq!(store.entities[0].health, Some(-30_000));
    despawn_dead_system(&mut store);
    assert_eq!(store.entities.len(), 0);
}

#[test]
fn damage_against_missing_target_is_ignored() {
    let mut store = EntityStore::new(cfg());
    store.add_entity(solid_ball(0, 0));
    store.damage_events.push(DamageEvent {
        target: 999,
        damage_value: 40_000,
        damage_type: skirmish_core::entity::DamageType::Kinetic,
    });
    inflict_damage_system(&mut store);
    assert_eq!(store.entities[0].health, Some(100_000));
}

#[test]
fn player_fire_spawns_projectile_through_full_tick() {
    let mut store = EntityStore::new(cfg());
    store.add_entity(load_player_ship(pose_at(0, 0)));
    let idle = PlayerInput {
        thrust: false,
        turn_left: false,
        turn_right: false,
        fire_primary: false,
        fire_secondary: false,
        fire_tertiary: false,
    };
    let firing = PlayerInput { fire_primary: true, ..idle };
    let cursor = Vec2 { x: 0, y: 0 };
    // The primary cooldown (1 s) has not elapsed yet: no projectile.
    world_tick(&mut store, firing, cursor, 16);
    assert_eq!(store.entities.len(), 1);
    // Let the cooldown run out over idle ticks, then fire.
    for _ in 0..100 {
        world_tick(&mut store, idle, cursor, 16);
    }
    world_tick(&mut store, firing, cursor, 16);
    assert_eq!(store.entities.len(), 2);
    let shot = &store.entities[1];
    assert!(shot.projectile.is_some());
    assert_eq!(shot.collision_class, Some(CollisionClass::Ephemeral));
    // Forward fire: the shot moves along the +x heading.
    assert!(shot.vel.unwrap().x > 0);
}

#[test]
fn world_tick_keeps_world_sound() {
    let mut store = EntityStore::new(cfg());
    store.add_entity(load_player_ship(pose_at(0, 0)));
    store.add_entity(skirmish_core::ships::load_turret_ship(pose_at(300_000, 0)));
    store.add_entity(skirmish_core::ships::load_drone_ship(pose_at(-400_000, 100_000)));
    let idle = PlayerInput {
        thrust: true,
        turn_left: false,
        turn_right: false,
        fire_primary: false,
        fire_secondary: false,
        fire_tertiary: false,
    };
    let cursor = Vec2 { x: 0, y: 0 };
    for _ in 0..200 {
        world_tick(&mut store, idle, cursor, 16);
    }
    // Nothing with spent health survives a tick.
    for e in store.entities.iter() {
        if let Some(h) = e.health {
            assert!(h > 0);
        }
    }
}

#[test]
fn projectile_hit_despawns_and_damages() {
    let mut store = EntityStore::new(cfg());
    let target = store.add_entity(solid_ball(0, 0));
    // A laser bolt overlapping the solid body.
    let mut shot = Entity::bare(0, pose_at(5_000, 0));
    shot.vel = Some(Vec2 { x: 100_000, y: 0 });
    shot.collision_class = Some(CollisionClass::Ephemeral);
    shot.projectile = Some(skirmish_core::entity::Projectile {
        speed: 400_000,
        fuel: 100_000,
        projectile_type: skirmish_core::entity::ProjectileType::Laser,
        damage_type: skirmish_core::entity::DamageType::Radiant,
        damage_value: 50_000,
        mass: 0,
    });
    store.add_entity(shot);
    skirmish_core::collision::check_projectile_collisions(&mut store);
    // The bolt is gone, the solid body is billed its base damage.
    assert_eq!(store.entities.len(), 1);
    assert_eq!(store.damage_events.len(), 1);
    assert_eq!(store.damage_events[0].target, target);
    assert_eq!(store.damage_events[0].damage_value, 50_000);
}

#[test]
fn projectiles_never_hit_each_other() {
    let mut store = EntityStore::new(cfg());
    for k in 0..2 {
        let mut shot = Entity::bare(0, pose_at(k * 1_000, 0));
        shot.vel = Some(Vec2 { x: 0, y: 0 });
        shot.collision_class = Some(CollisionClass::Ephemeral);
        shot.projectile = Some(skirmish_core::entity::Projectile {
            speed: 0,
            fuel: 100_000,
            projectile_type: skirmish_core::entity::ProjectileType::Laser,
            damage_type: skirmish_core::entity::DamageType::Radiant,
            damage_value: 50_000,
            mass: 0,
        });
        store.add_entity(shot);
    }
    skirmish_core::collision::check_projectile_collisions(&mut store);
    assert_eq!(store.entities.len(), 2);
    assert_eq!(store.damage_events.len(), 0);
}

#[test]
fn missile_contact_detonates_with_area_damage() {
    let mut store = EntityStore::new(cfg());
    let victim = store.add_entity(solid_ball(0, 0));
    store.add_entity(skirmish_core::ships::load_guided_missile(pose_at(20_000, 0)));
    skirmish_core::collision::check_missile_collisions_system(&mut store);
    assert_eq!(store.detonation_events.len(), 1);
    skirmish_core::damage::handle_denotation_event_system(&mut store);
    // The missile despawned, the victim is billed the blast damage.
    assert_eq!(store.entities.len(), 1);
    assert_eq!(store.detonation_events.len(), 0);
    assert_eq!(store.damage_events.len(), 1);
    assert_eq!(store.damage_events[0].target, victim);
    assert_eq!(store.damage_events[0].damage_value, 50_000);
}

#[test]
fn material_collision_bills_both_participants_once() {
    let mut store = EntityStore::new(cfg());
    // A violent head-on overlap: well above the energy threshold.
    store.add_entity(solid_ball(0, 100_000));
    store.add_entity(solid_ball(10_000, -100_000));
    collision_calculation_system(&mut store);
    assert_eq!(store.damage_events.len(), 2);
    assert_eq!(store.damage_events[0].damage_value, store.damage_events[1].damage_value);
    assert!(store.damage_events[0].damage_value > 0);
    assert_ne!(store.damage_events[0].target, store.damage_events[1].target);
}

#[test]
fn gentle_collision_bills_nobody() {
    let mut store = EntityStore::new(cfg());
    // The same overlap at a crawl: below the threshold, no damage,
    // though the velocities are still resolved.
    store.add_entity(solid_ball(0, 1_000));
    store.add_entity(solid_ball(10_000, -1_000));
    collision_calculation_system(&mut store);
    assert_eq!(store.damage_events.len(), 0);
    assert_eq!(store.collision_events.len(), 2);
}
