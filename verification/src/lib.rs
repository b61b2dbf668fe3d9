//! A verified 2D platformer character controller.
//!
//! The crate simulates a single square actor on a tile grid with a fixed
//! logical tick: directional input and jumps feed a three-state movement
//! controller (stopped / walking / falling), positions are integrated from
//! velocities, and a collision resolver samples the four tiles around the
//! actor to land on floors, bounce off ceilings and walls, and clamp to the
//! world bounds.
//!
//! All coordinates, velocities and rule coefficients are fixed-point
//! integers with [`player::UNIT`] sub-steps per world unit, so every tick is
//! exact integer arithmetic. Each public operation carries a contract that
//! pins down the resulting state as a pure function of the old one; the
//! `laws` module proves the global properties of the simulation.

pub mod grid;
pub mod laws;
pub mod player;
