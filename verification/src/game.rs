//! The game session: all mutable state of one sitting, and the
//! transitions that everything but the per-frame physics step performs.

use vstd::prelude::*;
use vstd::string::StringExecFns;
use crate::anim::{AnimatedText, TextColor};
use crate::ball::{spec_fresh_ball, Ball};
use crate::bar::{spec_moved_left, spec_moved_right, Bar};
use crate::config::{
    BAR_SPEED_MAX, BAR_WIDTH_MAX, BAR_WIDTH_STEP, CENTER_X, CENTER_Y, COUNTDOWN_START,
    INITIAL_HEARTS, MULT_MAX, MULT_MIN, POWERUP_SIZE, TIME_LIMIT_MS, WIDTH,
};
use crate::powerup::{PowerUp, PowerUpKind};

verus! {

/// Which phase the session is in.
#[derive(Clone, Copy, PartialEq, Eq, Structural, Debug)]
pub enum GameState {
    /// Pre-game countdown; no physics advances.
    Countdown,
    /// The simulation runs.
    Playing,
    /// Frozen; resumes on the pause toggle.
    Paused,
    /// Terminal until a restart is requested.
    GameOver,
}

/// A sound cue for the presentation shell; fire-and-forget.
#[derive(Clone, Copy, PartialEq, Eq, Structural, Debug)]
pub enum GameEvent {
    /// The ball bounced off the paddle.
    PaddleHit,
    /// The ball collected a power-up.
    PowerUpCollected,
    /// A milestone granted a heart.
    HeartAwarded,
    /// The countdown finished or a restart began.
    GameStart,
    /// The last heart was lost.
    GameOver,
}

/// The movement keys held during one frame.
#[derive(Clone, Copy, PartialEq, Eq, Structural, Debug)]
pub struct InputState {
    /// A "move left" key is held.
    pub left: bool,
    /// A "move right" key is held.
    pub right: bool,
}

/// A discrete key press relevant to the session.
#[derive(Clone, Copy, PartialEq, Eq, Structural, Debug)]
pub enum KeyAction {
    /// Pause or resume.
    PauseToggle,
    /// Flip the fullscreen flag (a presentation concern).
    FullscreenToggle,
    /// Restart after a game over.
    Restart,
}

/// All mutable state of one game session.
#[derive(Clone, Debug)]
pub struct Game {
    /// The ball.
    pub ball: Ball,
    /// The paddle.
    pub bar: Bar,
    /// Paddle hits this session.
    pub score: usize,
    /// Best score over all sessions of this sitting.
    pub high_score: usize,
    /// Lives left.
    pub hearts: usize,
    /// Current phase.
    pub state: GameState,
    /// Session time the running countdown tick started at.
    pub countdown_start: Option<u64>,
    /// Countdown ticks left before play begins.
    pub countdown_value: i32,
    /// Whether the shell should present fullscreen.
    pub fullscreen: bool,
    /// Live text overlays, in spawn order.
    pub animations: Vec<AnimatedText>,
    /// Whether no restart has happened yet this sitting.
    pub first_start: bool,
    /// High score carried into this session by the last restart.
    pub prev_high_score: usize,
    /// How often the game has sped up, plus one.
    pub difficulty_level: usize,
    /// Live pickups, in spawn order.
    pub power_ups: Vec<PowerUp>,
    /// Consecutive paddle hits within the combo window.
    pub combo_count: usize,
    /// Session time of the last paddle hit.
    pub last_hit_time: u64,
    /// Ascending score thresholds not yet claimed.
    pub milestones: Vec<usize>,
    /// Session clock, in milliseconds.
    pub now: u64,
}

/// `n + 1`, except at the very top of `usize`, where it stays put.
pub open spec fn sat_inc(n: usize) -> usize {
    if n == usize::MAX {
        n
    } else {
        (n + 1) as usize
    }
}

/// The milestone list a fresh session starts with.
pub open spec fn initial_milestones() -> Seq<usize> {
    seq![10usize, 20usize, 30usize, 40usize, 50usize]
}

/// The paddle width after a claimed milestone: one step wider, capped.
pub open spec fn spec_milestone_width(w: int) -> int {
    if w + BAR_WIDTH_STEP > BAR_WIDTH_MAX {
        BAR_WIDTH_MAX as int
    } else {
        w + BAR_WIDTH_STEP
    }
}

/// The paddle width after a width power-up: half again as wide, capped.
pub open spec fn spec_widened(w: int) -> int {
    if w * 3 / 2 > BAR_WIDTH_MAX {
        BAR_WIDTH_MAX as int
    } else {
        w * 3 / 2
    }
}

/// The paddle speed after a speed power-up: half again as fast, capped.
pub open spec fn spec_boosted(s: int) -> int {
    if s * 3 / 2 > BAR_SPEED_MAX {
        BAR_SPEED_MAX as int
    } else {
        s * 3 / 2
    }
}

/// The paddle speed after a difficulty step: five percent faster, capped.
pub open spec fn spec_speed_scaled(s: int) -> int {
    if s * 21 / 20 > BAR_SPEED_MAX {
        BAR_SPEED_MAX as int
    } else {
        s * 21 / 20
    }
}

/// The ball multiplier after a difficulty step: ten percent more, capped.
pub open spec fn spec_mult_scaled(m: int) -> int {
    if m * 11 / 10 > MULT_MAX {
        MULT_MAX as int
    } else {
        m * 11 / 10
    }
}

/// The ball multiplier after a slow-ball power-up: three quarters,
/// floored.
pub open spec fn spec_mult_slowed(m: int) -> int {
    if m * 3 / 4 < MULT_MIN {
        MULT_MIN as int
    } else {
        m * 3 / 4
    }
}

/// The paddle with its width set to `w`, slid left if the new width
/// would poke past the right edge.
pub open spec fn spec_bar_with_width(b: Bar, w: int) -> Bar {
    Bar {
        width: w as i64,
        x: if b.x + w > WIDTH {
            (WIDTH - w) as i64
        } else {
            b.x
        },
        ..b
    }
}

/// The ball after one power-up's effect.
pub open spec fn spec_apply_ball(b: Ball, kind: PowerUpKind) -> Ball {
    if kind == PowerUpKind::SlowBall {
        Ball { speed_multiplier: spec_mult_slowed(b.speed_multiplier as int) as u64, ..b }
    } else {
        b
    }
}

/// The paddle after one power-up's effect.
pub open spec fn spec_apply_bar(b: Bar, kind: PowerUpKind) -> Bar {
    if kind == PowerUpKind::WidthIncrease {
        spec_bar_with_width(b, spec_widened(b.width as int))
    } else if kind == PowerUpKind::SpeedBoost {
        Bar { speed: spec_boosted(b.speed as int) as i64, ..b }
    } else {
        b
    }
}

/// The heart count after one power-up's effect.
pub open spec fn spec_apply_hearts(h: usize, kind: PowerUpKind) -> usize {
    if kind == PowerUpKind::ExtraHeart {
        sat_inc(h)
    } else {
        h
    }
}

/// One overlay, characterised completely but for its text, which is
/// given as a sequence of characters.
pub open spec fn is_overlay(
    a: AnimatedText,
    text: Seq<char>,
    x: int,
    y: int,
    duration_ms: int,
    scale: int,
    color: TextColor,
    vy: int,
    now: u64,
) -> bool {
    &&& a.text@ == text
    &&& a.start_time == now
    &&& a.duration_ms == duration_ms
    &&& a.x == x
    &&& a.y == y
    &&& a.vx == 0
    &&& a.vy == vy
    &&& a.scale == scale
    &&& a.color == color
}

/// The "Get Ready!" overlay a fresh session shows.
pub open spec fn is_get_ready_anim(a: AnimatedText, now: u64) -> bool {
    is_overlay(a, "Get Ready!"@, CENTER_X as int, CENTER_Y as int, 2000, 72, TextColor::Cyan, 0, now)
}

/// The celebratory overlay for a new high score.
pub open spec fn is_high_score_anim(a: AnimatedText, now: u64) -> bool {
    is_overlay(
        a,
        "New High Score!"@,
        CENTER_X as int,
        CENTER_Y - 100_000,
        2000,
        48,
        TextColor::Yellow,
        -1000,
        now,
    )
}

/// The overlay shown when a milestone grants a heart.
pub open spec fn is_heart_anim(a: AnimatedText, now: u64) -> bool {
    is_overlay(a, "+1 Heart!"@, CENTER_X as int, CENTER_Y as int, 2000, 48, TextColor::Green, -1000, now)
}

/// The text of a countdown digit overlay.
pub open spec fn spec_digit_text(v: int) -> Seq<char> {
    if v == 1 {
        "1"@
    } else if v == 2 {
        "2"@
    } else {
        "3"@
    }
}

/// A countdown digit overlay.
pub open spec fn is_digit_anim(a: AnimatedText, v: int, now: u64) -> bool {
    is_overlay(
        a,
        spec_digit_text(v),
        CENTER_X as int,
        CENTER_Y - 100_000,
        1000,
        96,
        TextColor::Cyan,
        0,
        now,
    )
}

/// The overlay shown when play begins.
pub open spec fn is_game_start_anim(a: AnimatedText, now: u64) -> bool {
    is_overlay(
        a,
        "Game Start!"@,
        CENTER_X as int,
        CENTER_Y - 50_000,
        2000,
        72,
        TextColor::Green,
        -1000,
        now,
    )
}

/// The pause-hint overlay shown when play begins.
pub open spec fn is_pause_hint_anim(a: AnimatedText, now: u64) -> bool {
    is_overlay(
        a,
        "Press 'P' or SPACE to pause"@,
        CENTER_X as int,
        CENTER_Y + 50_000,
        3000,
        24,
        TextColor::White,
        0,
        now,
    )
}

/// The terminal overlay shown on game over.
pub open spec fn is_game_over_anim(a: AnimatedText, now: u64) -> bool {
    is_overlay(
        a,
        "Game Over!"@,
        CENTER_X as int,
        CENTER_Y - 50_000,
        999_000,
        72,
        TextColor::Red,
        0,
        now,
    )
}

/// The retry-hint overlay shown on game over.
pub open spec fn is_retry_anim(a: AnimatedText, now: u64) -> bool {
    is_overlay(
        a,
        "Press 'R' to retry"@,
        CENTER_X as int,
        CENTER_Y + 50_000,
        999_000,
        36,
        TextColor::White,
        0,
        now,
    )
}

/// The overlay shown while paused.
pub open spec fn is_paused_anim(a: AnimatedText, now: u64) -> bool {
    is_overlay(a, "PAUSED"@, CENTER_X as int, CENTER_Y as int, 999_000, 72, TextColor::Cyan, 0, now)
}

/// What a freshly initialised session looks like, given the values it
/// carries over: the high score, the remembered previous high score, the
/// first-start flag, the fullscreen flag, the clock, and the last hit
/// time.
pub open spec fn spec_session_reset(
    g: Game,
    high: usize,
    prev: usize,
    first: bool,
    fs: bool,
    now: u64,
    last_hit: u64,
) -> bool {
    &&& g.score == 0
    &&& g.hearts == INITIAL_HEARTS
    &&& g.state == GameState::Countdown
    &&& g.countdown_value == COUNTDOWN_START
    &&& g.countdown_start == Some(now)
    &&& g.difficulty_level == 1
    &&& g.combo_count == 0
    &&& g.power_ups@ == Seq::<PowerUp>::empty()
    &&& g.milestones@ == initial_milestones()
    &&& g.animations@.len() == 1
    &&& is_get_ready_anim(g.animations@[0], now)
    &&& spec_fresh_ball(g.ball)
    &&& g.bar == (Bar {
        x: crate::config::BAR_SPAWN_X,
        y: crate::config::BAR_Y,
        width: crate::config::BAR_WIDTH,
        speed: crate::config::INITIAL_BAR_SPEED,
    })
    &&& g.high_score == high
    &&& g.prev_high_score == prev
    &&& g.first_start == first
    &&& g.fullscreen == fs
    &&& g.now == now
    &&& g.last_hit_time == last_hit
}

/// What one scoring check does: a new high score is recorded and
/// celebrated; independently, a reached milestone is claimed — removed
/// from the list for good — granting a heart and widening the paddle.
pub open spec fn spec_scoring_rel(g0: Game, g1: Game, evs: Seq<GameEvent>) -> bool {
    let new_high = g0.score > g0.high_score;
    let claim = g0.milestones@.len() > 0 && g0.score >= g0.milestones@[0];
    &&& (Game {
        high_score: g0.high_score,
        hearts: g0.hearts,
        bar: g0.bar,
        animations: g0.animations,
        milestones: g0.milestones,
        ..g1
    }) == g0
    &&& g1.high_score == if new_high {
        g0.score
    } else {
        g0.high_score
    }
    &&& g1.milestones@ == if claim {
        g0.milestones@.drop_first()
    } else {
        g0.milestones@
    }
    &&& g1.hearts == if claim {
        sat_inc(g0.hearts)
    } else {
        g0.hearts
    }
    &&& g1.bar == if claim {
        spec_bar_with_width(g0.bar, spec_milestone_width(g0.bar.width as int))
    } else {
        g0.bar
    }
    &&& g1.animations@.len() == g0.animations@.len() + (if new_high {
        1int
    } else {
        0int
    }) + (if claim {
        1int
    } else {
        0int
    })
    &&& forall|i: int|
        0 <= i < g0.animations@.len() ==> g1.animations@[i] == g0.animations@[i]
    &&& (new_high ==> is_high_score_anim(g1.animations@[g0.animations@.len() as int], g0.now))
    &&& (claim ==> is_heart_anim(
        g1.animations@[g0.animations@.len() + (if new_high {
            1int
        } else {
            0int
        })],
        g0.now,
    ))
    &&& evs == if claim {
        seq![GameEvent::HeartAwarded]
    } else {
        Seq::<GameEvent>::empty()
    }
}

/// What applying one power-up's effect does.
pub open spec fn spec_apply_rel(g0: Game, g1: Game, kind: PowerUpKind) -> bool {
    &&& (Game { ball: g0.ball, bar: g0.bar, hearts: g0.hearts, ..g1 }) == g0
    &&& g1.ball == spec_apply_ball(g0.ball, kind)
    &&& g1.bar == spec_apply_bar(g0.bar, kind)
    &&& g1.hearts == spec_apply_hearts(g0.hearts, kind)
}

/// What one spawn roll does: either nothing, or one fresh pickup is
/// appended; which of the two, and where the pickup sits, is up to the
/// random draws.
pub open spec fn spec_spawn_rel(g0: Game, g1: Game) -> bool {
    &&& (Game { power_ups: g0.power_ups, ..g1 }) == g0
    &&& (g1.power_ups@ == g0.power_ups@ || {
        &&& g1.power_ups@.len() == g0.power_ups@.len() + 1
        &&& g1.power_ups@.drop_last() == g0.power_ups@
        &&& crate::powerup::spec_spawned(g1.power_ups@.last())
    })
}

/// Where one frame of held input moves the paddle: left first, then
/// right, each clamped to the playfield.
pub open spec fn spec_bar_moved(b: Bar, input: InputState) -> Bar {
    let b1 = if input.left {
        Bar { x: spec_moved_left(b) as i64, ..b }
    } else {
        b
    };
    if input.right {
        Bar { x: spec_moved_right(b1) as i64, ..b1 }
    } else {
        b1
    }
}

/// `n + 1` on the counter types, saturating at the top.
pub(crate) fn sat_inc_usize(n: usize) -> (r: usize)
    ensures
        r == sat_inc(n),
{
    if n == usize::MAX {
        n
    } else {
        n + 1
    }
}

impl Game {
    /// Well-formedness of the whole session.
    pub open spec fn wf(self) -> bool {
        &&& self.ball.wf()
        &&& self.bar.wf()
        &&& self.now <= TIME_LIMIT_MS
        &&& self.last_hit_time <= self.now
        &&& (self.state != GameState::GameOver ==> self.hearts >= 1)
        &&& 0 <= self.countdown_value <= COUNTDOWN_START
        &&& (self.state == GameState::Countdown ==> self.countdown_value >= 1)
        &&& (match self.countdown_start {
            Option::None => true,
            Option::Some(t) => t <= self.now,
        })
        &&& forall|i: int|
            0 <= i < self.animations@.len() ==> (#[trigger] self.animations@[i]).wf()
                && self.animations@[i].start_time <= self.now
        &&& forall|i: int|
            0 <= i < self.power_ups@.len() ==> (#[trigger] self.power_ups@[i]).wf()
        &&& forall|i: int, j: int|
            0 <= i < j < self.milestones@.len()
                ==> #[trigger] self.milestones@[i] < #[trigger] self.milestones@[j]
    }

    /// A fresh session at clock zero.
    pub fn new() -> (g: Game)
        ensures
            g.wf(),
            spec_session_reset(g, 0, 0, true, false, 0, 0),
    {
        let mut g = Game {
            ball: Ball::new(),
            bar: Bar::new(),
            score: 0,
            high_score: 0,
            hearts: INITIAL_HEARTS,
            state: GameState::Countdown,
            countdown_start: Some(0),
            countdown_value: COUNTDOWN_START,
            fullscreen: false,
            animations: Vec::new(),
            first_start: true,
            prev_high_score: 0,
            difficulty_level: 1,
            power_ups: Vec::new(),
            combo_count: 0,
            last_hit_time: 0,
            milestones: vec![10usize, 20usize, 30usize, 40usize, 50usize],
            now: 0,
        };
        g.add_start_animation();
        g
    }

    /// Push the "Get Ready!" overlay.
    fn add_start_animation(&mut self)
        requires
            old(self).now <= TIME_LIMIT_MS,
        ensures
            (Game { animations: old(self).animations, ..*final(self) }) == *old(self),
            final(self).animations@.len() == old(self).animations@.len() + 1,
            forall|i: int|
                0 <= i < old(self).animations@.len()
                    ==> final(self).animations@[i] == old(self).animations@[i],
            is_get_ready_anim(final(self).animations@.last(), old(self).now),
    {
        let a = AnimatedText::new(
            String::from_str("Get Ready!"),
            CENTER_X,
            CENTER_Y,
            2,
            72,
            TextColor::Cyan,
            0,
            0,
            self.now,
        );
        self.animations.push(a);
    }

    /// Reinitialise everything but the values a session carries over:
    /// high score, remembered previous high score, first-start flag,
    /// fullscreen flag, clock, and last hit time.
    pub fn reset(&mut self)
        requires
            old(self).wf(),
        ensures
            final(self).wf(),
            spec_session_reset(
                *final(self),
                old(self).high_score,
                old(self).prev_high_score,
                old(self).first_start,
                old(self).fullscreen,
                old(self).now,
                old(self).last_hit_time,
            ),
    {
        self.ball = Ball::new();
        self.bar = Bar::new();
        self.score = 0;
        self.hearts = INITIAL_HEARTS;
        self.state = GameState::Countdown;
        self.countdown_start = Some(self.now);
        self.countdown_value = COUNTDOWN_START;
        self.animations = Vec::new();
        self.power_ups = Vec::new();
        self.combo_count = 0;
        self.difficulty_level = 1;
        self.milestones = vec![10usize, 20usize, 30usize, 40usize, 50usize];
        self.add_start_animation();
    }

    /// React to one discrete key press.
    ///
    /// The pause toggle swaps `Playing` and `Paused`; a restart request
    /// is honoured only in `GameOver` — asking again during the ensuing
    /// countdown is ignored — and carries the high score forward.
    pub fn key_down(&mut self, key: KeyAction) -> (evs: Vec<GameEvent>)
        requires
            old(self).wf(),
        ensures
            final(self).wf(),
            (key == KeyAction::PauseToggle && old(self).state == GameState::Playing) ==> {
                &&& (Game { animations: old(self).animations, ..*final(self) }) == (Game {
                    state: GameState::Paused,
                    ..*old(self)
                })
                &&& final(self).animations@.len() == old(self).animations@.len() + 1
                &&& forall|i: int|
                    0 <= i < old(self).animations@.len()
                        ==> final(self).animations@[i] == old(self).animations@[i]
                &&& is_paused_anim(final(self).animations@.last(), old(self).now)
                &&& evs@ == Seq::<GameEvent>::empty()
            },
            (key == KeyAction::PauseToggle && old(self).state == GameState::Paused) ==> {
                &&& (Game { animations: old(self).animations, ..*final(self) }) == (Game {
                    state: GameState::Playing,
                    ..*old(self)
                })
                &&& final(self).animations@ == Seq::<AnimatedText>::empty()
                &&& evs@ == Seq::<GameEvent>::empty()
            },
            (key == KeyAction::PauseToggle && old(self).state != GameState::Playing
                && old(self).state != GameState::Paused) ==> {
                &&& *final(self) == *old(self)
                &&& evs@ == Seq::<GameEvent>::empty()
            },
            (key == KeyAction::FullscreenToggle) ==> {
                &&& *final(self) == (Game { fullscreen: !old(self).fullscreen, ..*old(self) })
                &&& evs@ == Seq::<GameEvent>::empty()
            },
            (key == KeyAction::Restart && old(self).state == GameState::GameOver) ==> {
                &&& spec_session_reset(
                    *final(self),
                    old(self).high_score,
                    old(self).high_score,
                    false,
                    old(self).fullscreen,
                    old(self).now,
                    old(self).last_hit_time,
                )
                &&& evs@ == seq![GameEvent::GameStart]
            },
            (key == KeyAction::Restart && old(self).state != GameState::GameOver) ==> {
                &&& *final(self) == *old(self)
                &&& evs@ == Seq::<GameEvent>::empty()
            },
    {
        let mut evs: Vec<GameEvent> = Vec::new();
        match key {
            KeyAction::PauseToggle => {
                if self.state == GameState::Playing {
                    self.state = GameState::Paused;
                    let a = AnimatedText::new(
                        String::from_str("PAUSED"),
                        CENTER_X,
                        CENTER_Y,
                        999,
                        72,
                        TextColor::Cyan,
                        0,
                        0,
                        self.now,
                    );
                    self.animations.push(a);
                } else if self.state == GameState::Paused {
                    self.state = GameState::Playing;
                    self.animations = Vec::new();
                }
            },
            KeyAction::FullscreenToggle => {
                self.fullscreen = !self.fullscreen;
            },
            KeyAction::Restart => {
                if self.state == GameState::GameOver {
                    self.prev_high_score = self.high_score;
                    self.first_start = false;
                    self.reset();
                    evs.push(GameEvent::GameStart);
                }
            },
        }
        evs
    }

    /// Run the high-score and milestone checks after a scoring event.
    pub fn check_high_score(&mut self) -> (evs: Vec<GameEvent>)
        requires
            old(self).wf(),
        ensures
            final(self).wf(),
            spec_scoring_rel(*old(self), *final(self), evs@),
    {
        let mut evs: Vec<GameEvent> = Vec::new();
        if self.score > self.high_score {
            self.high_score = self.score;
            let a = AnimatedText::new(
                String::from_str("New High Score!"),
                CENTER_X,
                CENTER_Y - 100_000,
                2,
                48,
                TextColor::Yellow,
                0,
                -1000,
                self.now,
            );
            self.animations.push(a);
        }
        let claim: bool = if self.milestones.len() > 0 {
            self.score >= self.milestones[0]
        } else {
            false
        };
        if claim {
            self.milestones.remove(0);
            self.hearts = sat_inc_usize(self.hearts);
            let grown = self.bar.width + BAR_WIDTH_STEP;
            self.bar.width = if grown > BAR_WIDTH_MAX {
                BAR_WIDTH_MAX
            } else {
                grown
            };
            if self.bar.x + self.bar.width > WIDTH {
                self.bar.x = WIDTH - self.bar.width;
            }
            let a = AnimatedText::new(
                String::from_str("+1 Heart!"),
                CENTER_X,
                CENTER_Y,
                2,
                48,
                TextColor::Green,
                0,
                -1000,
                self.now,
            );
            self.animations.push(a);
            evs.push(GameEvent::HeartAwarded);
        }
        proof {
            if old(self).milestones@.len() > 0 && old(self).score >= old(self).milestones@[0] {
                assert(self.milestones@ =~= old(self).milestones@.drop_first());
                assert forall|i: int, j: int|
                    0 <= i < j < self.milestones@.len() implies #[trigger] self.milestones@[i]
                    < #[trigger] self.milestones@[j] by {
                    assert(self.milestones@[i] == old(self).milestones@[i + 1]);
                    assert(self.milestones@[j] == old(self).milestones@[j + 1]);
                }
            }
        }
        evs
    }

    /// Apply one collected power-up's effect.
    pub fn apply_power_up(&mut self, kind: PowerUpKind)
        requires
            old(self).ball.wf(),
            old(self).bar.wf(),
        ensures
            final(self).ball.wf(),
            final(self).bar.wf(),
            spec_apply_rel(*old(self), *final(self), kind),
    {
        match kind {
            PowerUpKind::WidthIncrease => {
                let w2 = (self.bar.width as u64) * 3 / 2;
                self.bar.width = if w2 > BAR_WIDTH_MAX as u64 {
                    BAR_WIDTH_MAX
                } else {
                    w2 as i64
                };
                if self.bar.x + self.bar.width > WIDTH {
                    self.bar.x = WIDTH - self.bar.width;
                }
            },
            PowerUpKind::SpeedBoost => {
                let s2 = (self.bar.speed as u64) * 3 / 2;
                self.bar.speed = if s2 > BAR_SPEED_MAX as u64 {
                    BAR_SPEED_MAX
                } else {
                    s2 as i64
                };
            },
            PowerUpKind::ExtraHeart => {
                self.hearts = sat_inc_usize(self.hearts);
            },
            PowerUpKind::SlowBall => {
                let m2 = self.ball.speed_multiplier * 3 / 4;
                self.ball.speed_multiplier = if m2 < MULT_MIN {
                    MULT_MIN
                } else {
                    m2
                };
            },
        }
    }

    /// Roll the spawn dice: with a one-percent chance, drop one random
    /// pickup somewhere in the upper half of the screen.
    pub fn spawn_power_up(&mut self)
        requires
            old(self).wf(),
        ensures
            final(self).wf(),
            spec_spawn_rel(*old(self), *final(self)),
    {
        let roll = crate::rng::rand_range_i64(0, 100);
        if roll == 0 {
            let kr = crate::rng::rand_range_i64(0, 4);
            let kind = if kr == 0 {
                PowerUpKind::WidthIncrease
            } else if kr == 1 {
                PowerUpKind::SpeedBoost
            } else if kr == 2 {
                PowerUpKind::ExtraHeart
            } else {
                PowerUpKind::SlowBall
            };
            let x = crate::rng::rand_range_i64(0, WIDTH - POWERUP_SIZE);
            let y = crate::rng::rand_range_i64(0, CENTER_Y);
            let p = PowerUp::new(x, y, kind);
            self.power_ups.push(p);
            proof {
                assert(self.power_ups@.drop_last() =~= old(self).power_ups@);
            }
        }
    }

    /// Move the paddle by the held input, clamped to the playfield.
    pub fn handle_bar_movement(&mut self, input: InputState)
        requires
            old(self).wf(),
        ensures
            final(self).wf(),
            (Game { bar: old(self).bar, ..*final(self) }) == *old(self),
            final(self).bar == spec_bar_moved(old(self).bar, input),
    {
        if input.left {
            self.bar.move_left();
        }
        if input.right {
            self.bar.move_right();
        }
    }
}

} // verus!
