//! Collision-detection and combat-resolution core of an arcade-style
//! top-down shooter.
//!
//! Each simulation tick runs four phases in a fixed order over an entity
//! registry: projectile motion and expiry, pairwise collision detection,
//! combat resolution (damage, score, hit events), and lifecycle reaping of
//! entities whose health is exhausted.  The surrounding engine (windowing,
//! sprites, input) supplies entities and consumes health and score changes;
//! it is not part of this crate.

pub mod collision;
pub mod combat;
pub mod common;
pub mod enemy;
pub mod geometry;
pub mod lifecycle;
pub mod player;
pub mod projectile;
pub mod registry;
pub mod rng;
pub mod tick;
