//! Power-ups: pickups that, once the ball overlaps them, change one
//! paddle or ball parameter and then linger briefly before vanishing.

use vstd::prelude::*;
use crate::ball::Ball;
use crate::config::{BALL_SIZE, HEIGHT, POWERUP_SIZE, TIME_LIMIT_MS, WIDTH};

verus! {

/// What a power-up does when collected.
#[derive(Clone, Copy, PartialEq, Eq, Structural, Debug)]
pub enum PowerUpKind {
    /// Widens the paddle by half, up to the configured maximum.
    WidthIncrease,
    /// Speeds the paddle up by half, up to the configured maximum.
    SpeedBoost,
    /// Grants one heart.
    ExtraHeart,
    /// Slows the ball to three quarters, down to the configured minimum.
    SlowBall,
}

/// A pickup on the field. Uncollected while `active_until` is `None`;
/// once collected it holds the session time at which the pickup vanishes.
#[derive(Clone, Copy, Debug)]
pub struct PowerUp {
    /// Horizontal position of the pickup's left edge.
    pub x: i64,
    /// Vertical position of the pickup's top edge.
    pub y: i64,
    /// What collecting it does.
    pub kind: PowerUpKind,
    /// Side length of the (square) pickup.
    pub size: i64,
    /// `None` until collected; then the session time it expires at.
    pub active_until: Option<u64>,
}

/// Whether the pickup is still around at `now`:
/// uncollected ones always are, collected ones until they expire.
pub open spec fn spec_pu_active(p: PowerUp, now: u64) -> bool {
    match p.active_until {
        Option::None => true,
        Option::Some(t) => now < t,
    }
}

/// Axis-aligned overlap between the ball and the pickup.
pub open spec fn spec_overlaps(b: Ball, p: PowerUp) -> bool {
    &&& b.x < p.x + p.size
    &&& b.x + BALL_SIZE > p.x
    &&& b.y < p.y + p.size
    &&& b.y + BALL_SIZE > p.y
}

/// What holds of every freshly spawned pickup, whatever the random draws
/// turn out to be: somewhere in the upper half of the screen, standard
/// size, not yet collected.
pub open spec fn spec_spawned(p: PowerUp) -> bool {
    &&& 0 <= p.x < WIDTH - POWERUP_SIZE
    &&& 0 <= p.y < HEIGHT / 2
    &&& p.size == POWERUP_SIZE
    &&& p.active_until is None
}

impl PowerUp {
    /// Well-formedness: on the playfield, standard size, sane expiry.
    pub open spec fn wf(self) -> bool {
        &&& -WIDTH <= self.x <= WIDTH
        &&& -HEIGHT <= self.y <= HEIGHT
        &&& self.size == POWERUP_SIZE
        &&& match self.active_until {
            Option::None => true,
            Option::Some(t) => t <= TIME_LIMIT_MS + 1_000_000,
        }
    }

    /// A fresh, uncollected pickup.
    pub fn new(x: i64, y: i64, power_type: PowerUpKind) -> (p: PowerUp)
        ensures
            p == (PowerUp { x, y, kind: power_type, size: POWERUP_SIZE, active_until: None }),
    {
        PowerUp { x, y, kind: power_type, size: POWERUP_SIZE, active_until: None }
    }

    /// Whether the pickup is still around at session time `now`.
    pub fn is_active(&self, now: u64) -> (r: bool)
        ensures
            r == spec_pu_active(*self, now),
    {
        match self.active_until {
            None => true,
            Some(t) => now < t,
        }
    }
}

} // verus!
