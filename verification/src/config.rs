//! Fixed configuration of the playfield and the simulation.
//!
//! Lengths are in thousandths of a pixel ("milli-pixels"), velocities in
//! milli-pixels per frame, speed multipliers in thousandths (so
//! [`MULT_ONE`] means "times one"), and times in milliseconds.

use vstd::prelude::*;

verus! {

/// Width of the playfield.
pub const WIDTH: i64 = 1_920_000;

/// Height of the playfield.
pub const HEIGHT: i64 = 1_080_000;

/// Horizontal centre of the playfield.
pub const CENTER_X: i64 = 960_000;

/// Vertical centre of the playfield.
pub const CENTER_Y: i64 = 540_000;

/// Side length of the (square) ball.
pub const BALL_SIZE: i64 = 20_000;

/// Initial width of the paddle.
pub const BAR_WIDTH: i64 = 150_000;

/// Height of the paddle.
pub const BAR_HEIGHT: i64 = 20_000;

/// Gap kept between the paddle and the bottom edge.
pub const BAR_BOTTOM_MARGIN: i64 = 10_000;

/// Fixed vertical position of the paddle's top edge.
pub const BAR_Y: i64 = 1_050_000;

/// Smallest usable paddle width; the paddle never shrinks below it.
pub const BAR_WIDTH_MIN: i64 = 150_000;

/// Largest usable paddle width; every widening is clamped to it.
pub const BAR_WIDTH_MAX: i64 = 300_000;

/// How much a claimed milestone widens the paddle.
pub const BAR_WIDTH_STEP: i64 = 25_000;

/// Horizontal position a fresh paddle starts from: centred, so
/// `(WIDTH - BAR_WIDTH) / 2`.
pub const BAR_SPAWN_X: i64 = 885_000;

/// Initial horizontal speed of the paddle.
pub const INITIAL_BAR_SPEED: i64 = 10_000;

/// Largest paddle speed; every speed-up is clamped to it.
pub const BAR_SPEED_MAX: i64 = 100_000;

/// Magnitude of each component of a freshly served ball's velocity.
pub const INITIAL_BALL_SPEED: i64 = 5_000;

/// Vertical position a freshly served ball starts from: a third of the
/// way down the playfield.
pub const BALL_SPAWN_Y: i64 = 360_000;

/// Largest magnitude a ball velocity component can take.
pub const VEL_LIMIT: i64 = 50_000;

/// Speed multiplier that means "times one".
pub const MULT_ONE: u64 = 1_000;

/// Smallest speed multiplier; slow-downs are clamped to it.
pub const MULT_MIN: u64 = 100;

/// Largest speed multiplier; speed-ups are clamped to it.
pub const MULT_MAX: u64 = 100_000;

/// Largest distance the ball can travel in one frame
/// (`VEL_LIMIT * MULT_MAX / MULT_ONE`).
pub const STEP_LIMIT: i64 = 5_000_000;

/// Positions are confined to this distance from the origin, so that the
/// integer arithmetic of every step stays comfortably in range.
pub const POS_LIMIT: i64 = 10_000_000;

/// Number of hearts a fresh session starts with.
pub const INITIAL_HEARTS: usize = 3;

/// Every this many points, the game speeds up.
pub const DIFFICULTY_INCREASE_INTERVAL: usize = 5;

/// Side length of a (square) power-up.
pub const POWERUP_SIZE: i64 = 30_000;

/// How long a collected power-up lingers before it is removed.
pub const POWERUP_DURATION_MS: u64 = 10_000;

/// Two paddle hits within this window count as a combo.
pub const COMBO_WINDOW_MS: u64 = 2_000;

/// Length of one countdown tick.
pub const COUNTDOWN_TICK_MS: u64 = 1_000;

/// Value the pre-game countdown starts from.
pub const COUNTDOWN_START: i32 = 3;

/// The session clock saturates here; far beyond any reachable play time,
/// it keeps every deadline computation free of overflow.
pub const TIME_LIMIT_MS: u64 = 1_000_000_000_000_000;

/// Upper bound on the lifetime of a transient text animation.
pub const ANIM_DURATION_LIMIT_MS: u64 = 1_000_000;

/// Upper bound on the magnitude of a text animation's drift per frame.
pub const ANIM_VEL_LIMIT: i64 = 10_000;

} // verus!
