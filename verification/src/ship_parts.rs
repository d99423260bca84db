//! Preset weapon systems and thrusters: the baselines ships are
//! assembled from.

use vstd::prelude::*;
use crate::entity::{DamageType, ProjectileType, Thruster, ThrusterName, WeaponName, WeaponSystem,
    thruster_wf, weapon_wf};
use crate::timer::CountdownTimer;

verus! {

pub fn load_basic_torpedo() -> (w: WeaponSystem)
    ensures
        weapon_wf(w),
        w == (WeaponSystem {
            name: WeaponName::BasicTorpedo,
            value: 10_000,
            proj_speed: 300_000,
            proj_fuel: 300_000,
            proj_type: ProjectileType::Torpedo,
            proj_mass: 2_200,
            dmg_type: DamageType::Kinetic,
            dmg: 0,
            cooldown: 500,
            cd_timer: CountdownTimer { duration: 1_000, remaining: 1_000 },
        }),
{
    WeaponSystem {
        name: WeaponName::BasicTorpedo,
        value: 10_000,
        proj_speed: 300_000,
        proj_fuel: 300_000,
        proj_type: ProjectileType::Torpedo,
        proj_mass: 2_200,
        dmg_type: DamageType::Kinetic,
        dmg: 0,
        cooldown: 500,
        cd_timer: CountdownTimer::from_duration(1_000),
    }
}

pub fn load_lunker_torpedo() -> (w: WeaponSystem)
    ensures
        weapon_wf(w),
        w.name == WeaponName::LunkerTorpedo,
        w.proj_speed == 250_000,
        w.proj_fuel == 300_000,
        w.proj_type == ProjectileType::Torpedo,
        w.proj_mass == 5_000,
        w.dmg_type == DamageType::Kinetic,
        w.dmg == 0,
        w.cd_timer.duration == 2_500,
{
    WeaponSystem {
        name: WeaponName::LunkerTorpedo,
        value: 5_000,
        proj_speed: 250_000,
        proj_fuel: 300_000,
        proj_type: ProjectileType::Torpedo,
        proj_mass: 5_000,
        dmg_type: DamageType::Kinetic,
        dmg: 0,
        cooldown: 500,
        cd_timer: CountdownTimer::from_duration(2_500),
    }
}

pub fn load_basic_laser() -> (w: WeaponSystem)
    ensures
        weapon_wf(w),
        w.name == WeaponName::BasicLaser,
        w.proj_speed == 400_000,
        w.proj_fuel == 400_000,
        w.proj_type == ProjectileType::Laser,
        w.proj_mass == 0,
        w.dmg_type == DamageType::Radiant,
        w.dmg == 50_000,
        w.cd_timer.duration == 200,
{
    WeaponSystem {
        name: WeaponName::BasicLaser,
        value: 10_000,
        proj_speed: 400_000,
        proj_fuel: 400_000,
        proj_type: ProjectileType::Laser,
        proj_mass: 0,
        dmg_type: DamageType::Radiant,
        dmg: 50_000,
        cooldown: 250,
        cd_timer: CountdownTimer::from_duration(200),
    }
}

pub fn load_basic_cannon() -> (w: WeaponSystem)
    ensures
        weapon_wf(w),
        w.name == WeaponName::BasicCannon,
        w.proj_speed == 1_000_000,
        w.proj_fuel == 300_000,
        w.proj_type == ProjectileType::Shells,
        w.proj_mass == 40,
        w.dmg_type == DamageType::Kinetic,
        w.dmg == 500,
        w.cd_timer.duration == 100,
{
    WeaponSystem {
        name: WeaponName::BasicCannon,
        value: 10_000,
        proj_speed: 1_000_000,
        proj_fuel: 300_000,
        proj_type: ProjectileType::Shells,
        proj_mass: 40,
        dmg_type: DamageType::Kinetic,
        dmg: 500,
        cooldown: 150,
        cd_timer: CountdownTimer::from_duration(100),
    }
}

pub fn load_blank_weapon() -> (w: WeaponSystem)
    ensures
        weapon_wf(w),
        w.name == WeaponName::NoWeapon,
        w.proj_speed == 0,
        w.dmg == 0,
        w.cd_timer.duration == 0,
{
    WeaponSystem {
        name: WeaponName::NoWeapon,
        value: 0,
        proj_speed: 0,
        proj_fuel: 0,
        proj_type: ProjectileType::Shells,
        proj_mass: 0,
        dmg_type: DamageType::Kinetic,
        dmg: 0,
        cooldown: 0,
        cd_timer: CountdownTimer::from_duration(0),
    }
}

/// The value [`load_test_torpedo`] constructs.
pub open spec fn test_torpedo_s() -> WeaponSystem {
    WeaponSystem {
        name: WeaponName::TestTorpedo,
        value: 0,
        proj_speed: 300_000,
        proj_fuel: 300_000,
        proj_type: ProjectileType::Torpedo,
        proj_mass: 5_000,
        dmg_type: DamageType::Kinetic,
        dmg: 0,
        cooldown: 500,
        cd_timer: CountdownTimer { duration: 500, remaining: 500 },
    }
}

pub fn load_test_torpedo() -> (w: WeaponSystem)
    ensures
        weapon_wf(w),
        w == test_torpedo_s(),
        w.name == WeaponName::TestTorpedo,
        w.proj_speed == 300_000,
        w.proj_fuel == 300_000,
        w.proj_type == ProjectileType::Torpedo,
        w.proj_mass == 5_000,
        w.dmg == 0,
        w.cd_timer.duration == 500,
{
    WeaponSystem {
        name: WeaponName::TestTorpedo,
        value: 0,
        proj_speed: 300_000,
        proj_fuel: 300_000,
        proj_type: ProjectileType::Torpedo,
        proj_mass: 5_000,
        dmg_type: DamageType::Kinetic,
        dmg: 0,
        cooldown: 500,
        cd_timer: CountdownTimer::from_duration(500),
    }
}

pub fn load_practice_laser() -> (w: WeaponSystem)
    ensures
        weapon_wf(w),
        w.name == WeaponName::PracticeLaser,
        w.proj_speed == 400_000,
        w.proj_fuel == 300_000,
        w.proj_type == ProjectileType::Laser,
        w.proj_mass == 0,
        w.dmg_type == DamageType::Radiant,
        w.dmg == 0,
        w.cd_timer.duration == 500,
{
    WeaponSystem {
        name: WeaponName::PracticeLaser,
        value: 0,
        proj_speed: 400_000,
        proj_fuel: 300_000,
        proj_type: ProjectileType::Laser,
        proj_mass: 0,
        dmg_type: DamageType::Radiant,
        dmg: 0,
        cooldown: 2_000,
        cd_timer: CountdownTimer::from_duration(500),
    }
}

pub fn load_drone_laser() -> (w: WeaponSystem)
    ensures
        weapon_wf(w),
        w.name == WeaponName::DroneLaser,
        w.proj_speed == 300_000,
        w.proj_fuel == 100_000,
        w.proj_type == ProjectileType::Laser,
        w.proj_mass == 0,
        w.dmg_type == DamageType::Radiant,
        w.dmg == 1_000,
        w.cd_timer.duration == 750,
{
    WeaponSystem {
        name: WeaponName::DroneLaser,
        value: 10_000,
        proj_speed: 300_000,
        proj_fuel: 100_000,
        proj_type: ProjectileType::Laser,
        proj_mass: 0,
        dmg_type: DamageType::Radiant,
        dmg: 1_000,
        cooldown: 1_000,
        cd_timer: CountdownTimer::from_duration(750),
    }
}

pub fn load_basic_thruster() -> (t: Thruster)
    ensures
        thruster_wf(t),
        t == (Thruster { name: ThrusterName::BasicThruster, value: 10_000, force: 100_000_000 }),
{
    Thruster { name: ThrusterName::BasicThruster, value: 10_000, force: 100_000_000 }
}

pub fn load_drone_thruster() -> (t: Thruster)
    ensures
        thruster_wf(t),
        t == (Thruster { name: ThrusterName::DroneThruster, value: 10_000, force: 800_000 }),
{
    Thruster { name: ThrusterName::DroneThruster, value: 10_000, force: 800_000 }
}

pub fn load_missile_thruster() -> (t: Thruster)
    ensures
        thruster_wf(t),
        t == (Thruster { name: ThrusterName::MissileThruster, value: 5_000, force: 100_000 }),
{
    Thruster { name: ThrusterName::MissileThruster, value: 5_000, force: 100_000 }
}

/// The picket's own thruster, tuned like the basic model.
pub fn load_picket_thruster() -> (t: Thruster)
    ensures
        thruster_wf(t),
        t == (Thruster { name: ThrusterName::PicketThruster, value: 10_000, force: 100_000_000 }),
{
    Thruster { name: ThrusterName::PicketThruster, value: 10_000, force: 100_000_000 }
}

} // verus!
