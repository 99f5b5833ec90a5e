//! Per-frame entity simulation core of a 2D arcade shooter.
//!
//! The library advances live game objects (player, enemies, boss, bullets,
//! powerups) by a time delta: movement, lifetime expiry, weapon cooldowns,
//! player input response, screen-bound clamping, and kind-specific reactive
//! behaviour such as enemy bullet spawning.
//!
//! All spatial quantities (positions, velocities, sizes, angles) are held as
//! fixed-point integers scaled by [`fixed::SCALE`] sub-units per pixel, so the
//! whole simulation step has an exact arithmetic contract.

pub mod entity;
pub mod fixed;
pub mod laws;
pub mod update;
pub mod world;
