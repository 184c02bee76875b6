//! A small real-time snake game: a moving snake with a growing trail,
//! randomly placed food, static obstacles, and score/speed progression.
//!
//! The library holds the per-frame game-state update rules; drawing and
//! keyboard polling live outside it and exchange plain values with it.
//! Coordinates, cell sizes and the speed multiplier are fixed-point
//! integers with ten subunits per screen unit, so that the three-tenths
//! speed increment is exact.

pub mod controls;
pub mod food;
pub mod obstacle;
pub mod geom;
pub mod rng;
pub mod session;
pub mod snake;
