//! Simulation core of a top-down 2D arcade space-combat game.
//!
//! All quantities are fixed-point integers with three decimal places
//! (a value of 1000 stands for 1.0), so that the per-frame physics
//! integration, impulse-based collision resolution, damage pipeline and
//! enemy state machines can be verified exactly.

pub mod fixed;
pub mod vec2;
pub mod timer;
pub mod angle;
pub mod config;
pub mod entity;
pub mod events;
pub mod store;
pub mod motion;
pub mod collision;
pub mod damage;
pub mod weapon;
pub mod ai;
pub mod ship_parts;
pub mod ships;
pub mod player;
pub mod spawn;
pub mod script;
pub mod tick;
pub mod laws;
