//! Deterministic fixed-timestep core of a 2D side-view action game.
//!
//! The simulation works in integer fixed-point units so that every tick is
//! exact and every state transition can be specified and proved:
//!
//! * positions are measured in 1/3600 of a pixel,
//! * velocities in 1/60 of a pixel per second,
//! * accelerations in pixels per second squared,
//! * times in 1/3600 of a second.
//!
//! With the fixed 1/60 s tick these scales make the two integration sub-steps
//! (`velocity += acceleration * DT`, `position += velocity * DT`) plain
//! integer additions, with no rounding at all.

pub mod anim;
pub mod bullet;
pub mod combat;
pub mod enemy;
pub mod geom;
pub mod physics;
pub mod player;
pub mod spawn;
pub mod units;
pub mod world;
