//! Behaviour control for hostile bots of a first-person shooter.
//!
//! The crate decides, tick by tick, what a bot does: which hostile it engages,
//! whether it walks, aims, shoots or strikes, and which poses its two body
//! state machines take. Everything is stated over integers: lengths in
//! millimetres, times in microseconds, angles in thousandths of a degree,
//! health and damage in thousandths of a point, speed factors in thousandths.
//! The scene, the physics world and the navigation mesh stay with the caller,
//! who hands in what was observed and carries out what is returned.

pub mod bot;
pub mod effects;
pub mod geometry;
pub mod handle;
pub mod message;
pub mod options_menu;
mod random;
pub mod smooth_angle;
