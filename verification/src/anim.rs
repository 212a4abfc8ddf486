//! Transient text overlays. Purely presentational: they drift across the
//! screen for a fixed time and have no effect on the simulation.

use vstd::prelude::*;
use crate::ball::clamp_pos;
use crate::ball::clamped_position;
use crate::config::{ANIM_DURATION_LIMIT_MS, ANIM_VEL_LIMIT, POS_LIMIT, TIME_LIMIT_MS};

verus! {

/// The palette a text overlay can be drawn in.
#[derive(Clone, Copy, PartialEq, Eq, Structural, Debug)]
pub enum TextColor {
    White,
    Green,
    Red,
    Cyan,
    Yellow,
}

/// A short-lived drifting text overlay.
#[derive(Clone, Debug)]
pub struct AnimatedText {
    /// The text to draw.
    pub text: String,
    /// Session time at which the overlay appeared.
    pub start_time: u64,
    /// How long the overlay stays alive, in milliseconds.
    pub duration_ms: u64,
    /// Horizontal position of the overlay's centre.
    pub x: i64,
    /// Vertical position of the overlay's centre.
    pub y: i64,
    /// Horizontal drift per frame.
    pub vx: i64,
    /// Vertical drift per frame.
    pub vy: i64,
    /// Text scale, in thousandths of a pixel per font unit.
    pub scale: u32,
    /// Colour to draw the text in.
    pub color: TextColor,
}

/// The overlay one frame later: drifted by its velocity.
pub open spec fn spec_anim_stepped(a: AnimatedText) -> AnimatedText {
    AnimatedText {
        x: clamp_pos(a.x + a.vx) as i64,
        y: clamp_pos(a.y + a.vy) as i64,
        ..a
    }
}

/// Whether the overlay is still alive at session time `now`
/// (for `a.start_time <= now`).
pub open spec fn spec_anim_active(a: AnimatedText, now: u64) -> bool {
    now - a.start_time < a.duration_ms
}

/// One animation step of a whole overlay list: every overlay drifts, and
/// the ones whose time is up are dropped.
pub open spec fn spec_anims_after(anims: Seq<AnimatedText>, now: u64) -> Seq<AnimatedText>
    decreases anims.len(),
{
    if anims.len() == 0 {
        Seq::empty()
    } else {
        let stepped = spec_anim_stepped(anims.last());
        spec_anims_after(anims.drop_last(), now) + (if spec_anim_active(stepped, now) {
            seq![stepped]
        } else {
            Seq::empty()
        })
    }
}

impl AnimatedText {
    /// Well-formedness: bounded lifetime, drift, position and start time.
    pub open spec fn wf(self) -> bool {
        &&& self.duration_ms <= ANIM_DURATION_LIMIT_MS
        &&& -ANIM_VEL_LIMIT <= self.vx <= ANIM_VEL_LIMIT
        &&& -ANIM_VEL_LIMIT <= self.vy <= ANIM_VEL_LIMIT
        &&& -POS_LIMIT <= self.x <= POS_LIMIT
        &&& -POS_LIMIT <= self.y <= POS_LIMIT
        &&& self.start_time <= TIME_LIMIT_MS
    }

    /// A fresh overlay appearing at session time `now`.
    pub fn new(
        text: String,
        x: i64,
        y: i64,
        duration_secs: u64,
        scale: u32,
        color: TextColor,
        vx: i64,
        vy: i64,
        now: u64,
    ) -> (a: AnimatedText)
        requires
            duration_secs * 1000 <= ANIM_DURATION_LIMIT_MS,
            -ANIM_VEL_LIMIT <= vx <= ANIM_VEL_LIMIT,
            -ANIM_VEL_LIMIT <= vy <= ANIM_VEL_LIMIT,
            -POS_LIMIT <= x <= POS_LIMIT,
            -POS_LIMIT <= y <= POS_LIMIT,
            now <= TIME_LIMIT_MS,
        ensures
            a == (AnimatedText {
                text,
                start_time: now,
                duration_ms: (duration_secs * 1000) as u64,
                x,
                y,
                vx,
                vy,
                scale,
                color,
            }),
            a.wf(),
    {
        AnimatedText {
            text,
            start_time: now,
            duration_ms: duration_secs * 1000,
            x,
            y,
            vx,
            vy,
            scale,
            color,
        }
    }

    /// Drift one frame.
    pub fn update(&mut self)
        requires
            old(self).wf(),
        ensures
            *final(self) == spec_anim_stepped(*old(self)),
            final(self).wf(),
    {
        self.x = clamped_position(self.x + self.vx);
        self.y = clamped_position(self.y + self.vy);
    }

    /// Whether the overlay is still alive at session time `now`.
    pub fn is_active(&self, now: u64) -> (r: bool)
        requires
            self.start_time <= now,
        ensures
            r == spec_anim_active(*self, now),
    {
        now - self.start_time < self.duration_ms
    }
}

} // verus!
