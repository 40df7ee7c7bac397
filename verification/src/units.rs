//! The fixed-point units and the tuning constants of the simulation.
//!
//! One time unit is 1/3600 s, one position unit is 1/3600 px, one velocity
//! unit is 1/60 px/s, and accelerations are in px/s^2.  Over one fixed
//! 1/60 s tick a velocity of `v` units moves a body by exactly `v` position
//! units, and an acceleration of `a` units changes a velocity by exactly
//! `a` velocity units, so the integrator needs no division.

use vstd::prelude::*;

verus! {

/// Time units in one second.
pub const TIME_UNITS_PER_SECOND: i64 = 3600;

/// Duration of one simulation tick: 1/60 s.
pub const FIXED_DT: i64 = 60;

/// Position units in one pixel.
pub const POS_UNITS_PER_PIXEL: i64 = 3600;

/// Velocity units in one pixel per second.
pub const VEL_UNITS_PER_PIXEL_PER_SECOND: i64 = 60;

/// Gravity, px/s^2 (equivalently, velocity units per tick), downward.
pub const GRAVITY: i64 = -4096;

/// Magnitude bound assumed of every coordinate and velocity entering the
/// simulation; it leaves ample headroom below `i64::MAX` for a tick's sums.
pub const COORD_LIMIT: i64 = 0x2000_0000_0000;

/// A looser coordinate bound that every mid-tick value respects.
pub const WIDE_LIMIT: i64 = 0x10_0000_0000_0000;

/// Magnitude bound assumed of accelerations.
pub const ACCEL_LIMIT: i64 = 0x1_0000_0000;

/// Bound assumed of time deltas, durations and timer accumulators.
pub const TIME_LIMIT: i64 = 0x100_0000_0000;

/// Bound assumed of half-extents of bounding boxes.
pub const EXTENT_LIMIT: i64 = 0x10_0000_0000;

/// Opacity is reported in thousandths: 0 transparent, 1000 opaque.
pub const ALPHA_OPAQUE: i64 = 1000;

// Player tuning.

/// Maximum and starting player health.
pub const PLAYER_HEALTH_MAX: u32 = 3;

/// Player half-extent: a 128 px square sprite.
pub const PLAYER_HALF: i64 = 64 * POS_UNITS_PER_PIXEL;

/// Horizontal run speed, 768 px/s.
pub const PLAYER_SPEED: i64 = 768 * VEL_UNITS_PER_PIXEL_PER_SECOND;

/// Upward velocity set by a jump, 2048 px/s.
pub const PLAYER_JUMP_SPEED: i64 = 2048 * VEL_UNITS_PER_PIXEL_PER_SECOND;

/// Invincibility window after taking damage: 3 s.
pub const PLAYER_INVINCIBILITY: i64 = 3 * TIME_UNITS_PER_SECOND;

/// Period of the opacity triangle wave while invincible: 1/4 s.
pub const PLAYER_FLASH_PERIOD: i64 = 900;

/// Player bullet half-extent: a 32 px square sprite.
pub const PLAYER_BULLET_HALF: i64 = 16 * POS_UNITS_PER_PIXEL;

/// Player bullet speed along an axis-aligned aim, 1536 px/s.
pub const PLAYER_BULLET_SPEED: i64 = 1536 * VEL_UNITS_PER_PIXEL_PER_SECOND;

/// Per-component player bullet speed on a diagonal aim: the nearest integer
/// to `PLAYER_BULLET_SPEED / sqrt(2)`, so diagonal shots keep the same pace.
pub const PLAYER_BULLET_SPEED_DIAGONAL: i64 = 65167;

/// Player spawn position, x.
pub const PLAYER_START_X: i64 = 960 * POS_UNITS_PER_PIXEL;

/// Player spawn position, y: standing on the arena floor.
pub const PLAYER_START_Y: i64 = 64 * POS_UNITS_PER_PIXEL;

// Enemy tuning.

/// Enemy half-extent on each axis of a 128 px square sprite.
pub const ENEMY_HALF: i64 = 64 * POS_UNITS_PER_PIXEL;

/// Vertical half-extent of the jumper's 128 x 192 px sprite.
pub const JUMPER_HALF_HEIGHT: i64 = 96 * POS_UNITS_PER_PIXEL;

/// Walker horizontal acceleration magnitude, px/s^2.
pub const WALKER_ACCEL: i64 = 768;

/// Walker starting health.
pub const WALKER_HEALTH: u32 = 1;

/// Walker fade-in duration: 1 s.
pub const WALKER_FADE: i64 = TIME_UNITS_PER_SECOND;

/// Shooter horizontal move speed, 256 px/s.
pub const SHOOTER_SPEED: i64 = 256 * VEL_UNITS_PER_PIXEL_PER_SECOND;

/// Shooter bullet speed, 512 px/s.
pub const SHOOTER_BULLET_SPEED: i64 = 512 * VEL_UNITS_PER_PIXEL_PER_SECOND;

/// Interval between shooter shots: 2 s.
pub const SHOOTER_FIRE_PERIOD: i64 = 2 * TIME_UNITS_PER_SECOND;

/// Shooter starting health.
pub const SHOOTER_HEALTH: u32 = 2;

/// Shooter fade-in duration: 1.5 s.
pub const SHOOTER_FADE: i64 = 5400;

/// Enemy bullet half-extents: a 64 x 28 px sprite.
pub const ENEMY_BULLET_HALF_W: i64 = 32 * POS_UNITS_PER_PIXEL;

/// Enemy bullet half-extents, vertical part.
pub const ENEMY_BULLET_HALF_H: i64 = 14 * POS_UNITS_PER_PIXEL;

/// Jumper upward impulse, 2560 px/s.
pub const JUMPER_IMPULSE: i64 = 2560 * VEL_UNITS_PER_PIXEL_PER_SECOND;

/// Jumper horizontal speed, 512 px/s.
pub const JUMPER_SPEED: i64 = 512 * VEL_UNITS_PER_PIXEL_PER_SECOND;

/// Jumper starting health.
pub const JUMPER_HEALTH: u32 = 3;

/// Jumper fade-in duration: 1 s.
pub const JUMPER_FADE: i64 = TIME_UNITS_PER_SECOND;

// Spawn director tuning.

/// Starting interval between spawns: 7.5 s.
pub const SPAWN_INTERVAL_START: i64 = 27000;

/// The floor the spawn interval never drops below: 0.5 s.
pub const SPAWN_INTERVAL_FLOOR: i64 = 1800;

/// The interval is multiplied by `39/40` (0.975) after each spawn.
pub const SPAWN_DECAY_NUM: i64 = 39;

/// Denominator of the spawn interval decay ratio.
pub const SPAWN_DECAY_DEN: i64 = 40;

// Animation clip indices and timings.

/// Player clip shown while standing still.
pub const PLAYER_STAND_CLIP: usize = 0;

/// Player clip shown while moving horizontally.
pub const PLAYER_MOVE_CLIP: usize = 1;

/// Frames in the player's standing clip.
pub const PLAYER_STAND_FRAMES: usize = 1;

/// Frames in the player's moving clip.
pub const PLAYER_MOVE_FRAMES: usize = 2;

/// Frame duration of the player's moving clip: 1/8 s.
pub const PLAYER_MOVE_FRAME_TIME: i64 = 450;

/// Jumper clip shown while falling.
pub const JUMPER_FALL_CLIP: usize = 0;

/// Jumper clip shown right after a jump.
pub const JUMPER_JUMP_CLIP: usize = 1;

/// Frames in the jumper's falling clip.
pub const JUMPER_FALL_FRAMES: usize = 1;

/// Frames in the jumper's jumping clip.
pub const JUMPER_JUMP_FRAMES: usize = 3;

/// Frame duration of the jumper's jumping clip: 1/10 s.
pub const JUMPER_JUMP_FRAME_TIME: i64 = 360;

/// Default frame duration of single-frame clips: 1 s.
pub const DEFAULT_FRAME_TIME: i64 = TIME_UNITS_PER_SECOND;

} // verus!
