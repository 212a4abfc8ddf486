//! The ball: position, velocity, and the per-frame motion step.

use vstd::prelude::*;
use crate::config::{
    BALL_SIZE, BALL_SPAWN_Y, INITIAL_BALL_SPEED, MULT_MAX, MULT_MIN, MULT_ONE, POS_LIMIT,
    STEP_LIMIT, VEL_LIMIT, WIDTH,
};

verus! {

/// The ball. Coordinates are milli-pixels, velocities milli-pixels per
/// frame, and the speed multiplier is in thousandths.
#[derive(Clone, Copy, PartialEq, Eq, Structural, Debug)]
pub struct Ball {
    /// Horizontal position of the ball's left edge.
    pub x: i64,
    /// Vertical position of the ball's top edge.
    pub y: i64,
    /// Horizontal velocity.
    pub dx: i64,
    /// Vertical velocity; positive moves down.
    pub dy: i64,
    /// Scales both velocity components, in thousandths.
    pub speed_multiplier: u64,
}

/// Positions are kept within `[-POS_LIMIT, POS_LIMIT]`.
pub open spec fn clamp_pos(v: int) -> int {
    if v < -POS_LIMIT {
        -POS_LIMIT as int
    } else if v > POS_LIMIT {
        POS_LIMIT as int
    } else {
        v
    }
}

/// A velocity component scaled by the speed multiplier, rounded toward
/// zero (for `m >= 0`).
pub open spec fn spec_scaled(v: int, m: int) -> int {
    if v >= 0 {
        (v * m) / (MULT_ONE as int)
    } else {
        -(((-v) * m) / (MULT_ONE as int))
    }
}

/// The ball one motion step later: each position advanced by the scaled
/// velocity and confined to the playfield neighbourhood.
pub open spec fn spec_integrated(b: Ball) -> Ball {
    Ball {
        x: clamp_pos(b.x + spec_scaled(b.dx as int, b.speed_multiplier as int)) as i64,
        y: clamp_pos(b.y + spec_scaled(b.dy as int, b.speed_multiplier as int)) as i64,
        ..b
    }
}

/// Whether the ball touches or crosses the left or right edge.
pub open spec fn spec_hits_side_wall(b: Ball) -> bool {
    b.x <= 0 || b.x + BALL_SIZE >= WIDTH
}

/// Whether the ball touches or crosses the top edge.
pub open spec fn spec_hits_top_wall(b: Ball) -> bool {
    b.y <= 0
}

/// The ball after wall collisions are resolved: a side-wall contact flips
/// the horizontal velocity, a top-wall contact flips the vertical one;
/// positions and the other component are untouched.
pub open spec fn spec_after_walls(b: Ball) -> Ball {
    Ball {
        dx: if spec_hits_side_wall(b) {
            (-(b.dx as int)) as i64
        } else {
            b.dx
        },
        dy: if spec_hits_top_wall(b) {
            (-(b.dy as int)) as i64
        } else {
            b.dy
        },
        ..b
    }
}

/// What holds of every freshly served ball, whatever the random draws
/// turn out to be.
pub open spec fn spec_fresh_ball(b: Ball) -> bool {
    &&& BALL_SIZE <= b.x < WIDTH - BALL_SIZE
    &&& b.y == BALL_SPAWN_Y
    &&& b.dx == INITIAL_BALL_SPEED || b.dx == -INITIAL_BALL_SPEED
    &&& b.dy == INITIAL_BALL_SPEED
    &&& b.speed_multiplier == MULT_ONE
}

/// Confine a position to `[-POS_LIMIT, POS_LIMIT]`.
pub(crate) fn clamped_position(v: i64) -> (r: i64)
    ensures
        r == clamp_pos(v as int),
{
    if v < -POS_LIMIT {
        -POS_LIMIT
    } else if v > POS_LIMIT {
        POS_LIMIT
    } else {
        v
    }
}

/// A velocity component scaled by the speed multiplier.
pub(crate) fn scaled_velocity(v: i64, m: u64) -> (r: i64)
    requires
        -VEL_LIMIT <= v <= VEL_LIMIT,
        MULT_MIN <= m <= MULT_MAX,
    ensures
        r == spec_scaled(v as int, m as int),
        -STEP_LIMIT <= r <= STEP_LIMIT,
{
    let mag: u64 = if v >= 0 {
        v as u64
    } else {
        (-v) as u64
    };
    proof {
        assert(mag * m <= 50_000 * 100_000) by (nonlinear_arith)
            requires
                mag <= 50_000,
                m <= 100_000,
        ;
    }
    let smag: u64 = (mag * m) / MULT_ONE;
    if v >= 0 {
        smag as i64
    } else {
        -(smag as i64)
    }
}

impl Ball {
    /// Basic well-formedness: bounded velocities, multiplier, positions.
    pub open spec fn wf(self) -> bool {
        &&& -VEL_LIMIT <= self.dx <= VEL_LIMIT
        &&& -VEL_LIMIT <= self.dy <= VEL_LIMIT
        &&& MULT_MIN <= self.speed_multiplier <= MULT_MAX
        &&& -POS_LIMIT <= self.x <= POS_LIMIT
        &&& -POS_LIMIT <= self.y <= POS_LIMIT
    }

    /// Serve a fresh ball: random horizontal position inside the side
    /// walls, a third of the way down, moving down and randomly left or
    /// right at the initial speed.
    pub fn new() -> (b: Ball)
        ensures
            b.wf(),
            spec_fresh_ball(b),
    {
        let x = crate::rng::rand_range_i64(BALL_SIZE, WIDTH - BALL_SIZE);
        let dir = crate::rng::rand_range_i64(0, 2);
        Ball {
            x,
            y: BALL_SPAWN_Y,
            dx: if dir == 0 {
                INITIAL_BALL_SPEED
            } else {
                -INITIAL_BALL_SPEED
            },
            dy: INITIAL_BALL_SPEED,
            speed_multiplier: MULT_ONE,
        }
    }

    /// One motion step: advance both positions by the scaled velocity.
    pub fn update(&mut self)
        requires
            old(self).wf(),
        ensures
            *final(self) == spec_integrated(*old(self)),
            final(self).wf(),
    {
        let sx = scaled_velocity(self.dx, self.speed_multiplier);
        let sy = scaled_velocity(self.dy, self.speed_multiplier);
        self.x = clamped_position(self.x + sx);
        self.y = clamped_position(self.y + sy);
    }
}

} // verus!
