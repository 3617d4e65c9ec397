//! Verified core of a small 2D artillery arcade game.
//!
//! The simulation works on fixed-point integers: every world quantity
//! (position, velocity, angle, time) is stored in thousandths of its
//! natural unit, so one world unit is `MILLI` = 1000 and one second of
//! simulated time is 1000 milliseconds.

pub mod ascii_sprite;
pub mod ballistics;
pub mod camera_util;
pub mod collision;
pub mod configuration_properties;
pub mod explosion;
pub mod fixed;
pub mod geometry;
pub mod input;
pub mod map;
pub mod player;
pub mod projectile;
pub mod state;
pub mod world;
