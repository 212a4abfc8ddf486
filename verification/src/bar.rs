//! The paddle: a horizontally movable bar clamped to the playfield.

use vstd::prelude::*;
use crate::config::{
    BAR_SPAWN_X, BAR_SPEED_MAX, BAR_WIDTH, BAR_WIDTH_MAX, BAR_WIDTH_MIN, BAR_Y,
    INITIAL_BAR_SPEED, WIDTH,
};

verus! {

/// The paddle. Coordinates are milli-pixels; the speed is how far one
/// held movement key moves it per frame.
#[derive(Clone, Copy, PartialEq, Eq, Structural, Debug)]
pub struct Bar {
    /// Horizontal position of the paddle's left edge.
    pub x: i64,
    /// Vertical position of the paddle's top edge; fixed at `BAR_Y`.
    pub y: i64,
    /// Width of the paddle.
    pub width: i64,
    /// Horizontal speed per frame of held input.
    pub speed: i64,
}

/// Where `move_left` puts the paddle's left edge.
pub open spec fn spec_moved_left(b: Bar) -> int {
    if b.x - b.speed < 0 {
        0
    } else {
        b.x - b.speed
    }
}

/// Where `move_right` puts the paddle's left edge.
pub open spec fn spec_moved_right(b: Bar) -> int {
    if b.x + b.speed + b.width > WIDTH {
        WIDTH - b.width
    } else {
        b.x + b.speed
    }
}

impl Bar {
    /// Well-formedness: on the playfield, usable width, bounded speed,
    /// fixed height.
    pub open spec fn wf(self) -> bool {
        &&& 0 <= self.x
        &&& self.x + self.width <= WIDTH
        &&& BAR_WIDTH_MIN <= self.width <= BAR_WIDTH_MAX
        &&& INITIAL_BAR_SPEED <= self.speed <= BAR_SPEED_MAX
        &&& self.y == BAR_Y
    }

    /// The paddle of a fresh session: initial width and speed, centred.
    pub fn new() -> (b: Bar)
        ensures
            b.wf(),
            b.x == BAR_SPAWN_X,
            b.width == BAR_WIDTH,
            b.speed == INITIAL_BAR_SPEED,
            b.y == BAR_Y,
    {
        Bar { x: BAR_SPAWN_X, y: BAR_Y, width: BAR_WIDTH, speed: INITIAL_BAR_SPEED }
    }

    /// Move one step left, stopping at the left edge.
    pub fn move_left(&mut self)
        requires
            old(self).wf(),
        ensures
            *final(self) == (Bar { x: spec_moved_left(*old(self)) as i64, ..*old(self) }),
            final(self).wf(),
    {
        if self.x < self.speed {
            self.x = 0;
        } else {
            self.x = self.x - self.speed;
        }
    }

    /// Move one step right, stopping at the right edge.
    pub fn move_right(&mut self)
        requires
            old(self).wf(),
        ensures
            *final(self) == (Bar { x: spec_moved_right(*old(self)) as i64, ..*old(self) }),
            final(self).wf(),
    {
        if self.x + self.speed + self.width > WIDTH {
            self.x = WIDTH - self.width;
        } else {
            self.x = self.x + self.speed;
        }
    }
}

} // verus!
