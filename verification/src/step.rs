//! The per-frame step: physics, collisions, scoring, falling, power-up
//! collection, and the frame dispatcher `Game::update`.

use vstd::prelude::*;
use vstd::string::StringExecFns;
use crate::anim::{spec_anims_after, AnimatedText, TextColor};
use crate::ball::{spec_after_walls, spec_fresh_ball, spec_integrated, Ball};
use crate::bar::Bar;
use crate::config::{
    BALL_SIZE, BAR_SPEED_MAX, CENTER_X, CENTER_Y, COMBO_WINDOW_MS, COUNTDOWN_TICK_MS,
    DIFFICULTY_INCREASE_INTERVAL, HEIGHT, MULT_MAX, POWERUP_DURATION_MS, TIME_LIMIT_MS, WIDTH,
};
use crate::game::{
    is_digit_anim, is_game_over_anim, is_game_start_anim, is_heart_anim, is_high_score_anim,
    is_pause_hint_anim, is_retry_anim, sat_inc, sat_inc_usize, spec_apply_ball, spec_apply_bar,
    spec_apply_hearts, spec_bar_moved, spec_milestone_width, spec_mult_scaled,
    spec_speed_scaled, Game, GameEvent, GameState, InputState,
};
use crate::powerup::{spec_overlaps, spec_pu_active, spec_spawned, PowerUp, PowerUpKind};

verus! {

/// Whether the ball rests on the paddle's top edge, overlaps it
/// horizontally, and is moving down. The downward-motion guard keeps a
/// ball that is already bouncing away from triggering twice.
pub open spec fn spec_paddle_hit(b: Ball, bar: Bar) -> bool {
    &&& b.y + BALL_SIZE >= bar.y
    &&& b.x + BALL_SIZE >= bar.x
    &&& b.x <= bar.x + bar.width
    &&& b.dy > 0
}

/// What one pass over the power-up list leaves behind.
pub ghost struct PuOutcome {
    /// The ball, its multiplier possibly slowed.
    pub ball: Ball,
    /// The paddle, possibly widened or sped up.
    pub bar: Bar,
    /// The heart count, possibly raised.
    pub hearts: usize,
    /// The pickups still alive, in order.
    pub kept: Seq<PowerUp>,
    /// One collection cue per pickup collected, in order.
    pub events: Seq<GameEvent>,
}

/// One pass over the power-up list, front to back: an uncollected pickup
/// the ball overlaps is collected — its effect applied exactly once and
/// its expiry started — and every pickup still alive afterwards is kept.
pub open spec fn spec_pu_fold(
    b: Ball,
    bar: Bar,
    hearts: usize,
    pus: Seq<PowerUp>,
    now: u64,
) -> PuOutcome
    decreases pus.len(),
{
    if pus.len() == 0 {
        PuOutcome { ball: b, bar, hearts, kept: Seq::empty(), events: Seq::empty() }
    } else {
        let prev = spec_pu_fold(b, bar, hearts, pus.drop_last(), now);
        let p = pus.last();
        let collided = p.active_until is None && spec_overlaps(prev.ball, p);
        let p1 = if collided {
            PowerUp { active_until: Some(((now + POWERUP_DURATION_MS) as u64)), ..p }
        } else {
            p
        };
        PuOutcome {
            ball: if collided {
                spec_apply_ball(prev.ball, p.kind)
            } else {
                prev.ball
            },
            bar: if collided {
                spec_apply_bar(prev.bar, p.kind)
            } else {
                prev.bar
            },
            hearts: if collided {
                spec_apply_hearts(prev.hearts, p.kind)
            } else {
                prev.hearts
            },
            kept: prev.kept + (if spec_pu_active(p1, now) {
                seq![p1]
            } else {
                Seq::empty()
            }),
            events: prev.events + (if collided {
                seq![GameEvent::PowerUpCollected]
            } else {
                Seq::empty()
            }),
        }
    }
}

/// The power-up pass keeps the ball's position and velocity, keeps the
/// paddle usable, never loses hearts, and — when no uncollected
/// extra-heart pickup overlaps the ball — keeps the heart count exactly.
pub proof fn lemma_pu_fold_props(b: Ball, bar: Bar, hearts: usize, pus: Seq<PowerUp>, now: u64)
    requires
        b.wf(),
        bar.wf(),
        forall|i: int| 0 <= i < pus.len() ==> (#[trigger] pus[i]).wf(),
        now <= TIME_LIMIT_MS,
    ensures
        ({
            let fr = spec_pu_fold(b, bar, hearts, pus, now);
            &&& fr.ball.wf()
            &&& fr.bar.wf()
            &&& fr.ball.x == b.x
            &&& fr.ball.y == b.y
            &&& fr.ball.dx == b.dx
            &&& fr.ball.dy == b.dy
            &&& fr.hearts >= hearts
            &&& forall|i: int| 0 <= i < fr.kept.len() ==> (#[trigger] fr.kept[i]).wf()
            &&& (forall|i: int|
                0 <= i < pus.len()
                    ==> !((#[trigger] pus[i]).active_until is None && spec_overlaps(b, pus[i])
                    && pus[i].kind == PowerUpKind::ExtraHeart)) ==> fr.hearts == hearts
        }),
    decreases pus.len(),
{
    if pus.len() > 0 {
        assert(forall|i: int|
            0 <= i < pus.drop_last().len() ==> (#[trigger] pus.drop_last()[i]).wf());
        lemma_pu_fold_props(b, bar, hearts, pus.drop_last(), now);
        assert(pus.last().wf());
    }
}

/// Everything one call of the collision step does, for given random
/// outcomes: `sp` is the pickup the spawn roll produced, if any, and
/// `rb` the replacement ball, read only when the ball fell with hearts
/// to spare.
///
/// In order: wall reflection; the paddle bounce with its scoring, combo,
/// high-score, milestone, spawn and difficulty bookkeeping; the
/// fall-off-the-bottom check costing a heart and ending or respawning
/// the session; and the power-up pass.
pub open spec fn spec_collision_rel(
    g0: Game,
    g1: Game,
    evs: Seq<GameEvent>,
    sp: Option<PowerUp>,
    rb: Ball,
) -> bool {
    let b1 = spec_after_walls(g0.ball);
    let hit = spec_paddle_hit(b1, g0.bar);
    let score1 = if hit {
        sat_inc(g0.score)
    } else {
        g0.score
    };
    let combo1 = if hit {
        if g0.now - g0.last_hit_time < COMBO_WINDOW_MS {
            sat_inc(g0.combo_count)
        } else {
            1usize
        }
    } else {
        g0.combo_count
    };
    let last1 = if hit {
        g0.now
    } else {
        g0.last_hit_time
    };
    let new_high = hit && score1 > g0.high_score;
    let high1 = if new_high {
        score1
    } else {
        g0.high_score
    };
    let claim = hit && g0.milestones@.len() > 0 && score1 >= g0.milestones@[0];
    let miles1 = if claim {
        g0.milestones@.drop_first()
    } else {
        g0.milestones@
    };
    let hearts1 = if claim {
        sat_inc(g0.hearts)
    } else {
        g0.hearts
    };
    let bar_claimed = if claim {
        crate::game::spec_bar_with_width(g0.bar, spec_milestone_width(g0.bar.width as int))
    } else {
        g0.bar
    };
    let scaled = hit && score1 % DIFFICULTY_INCREASE_INTERVAL == 0;
    let diff1 = if scaled {
        sat_inc(g0.difficulty_level)
    } else {
        g0.difficulty_level
    };
    let mult1 = if scaled {
        spec_mult_scaled(g0.ball.speed_multiplier as int) as u64
    } else {
        g0.ball.speed_multiplier
    };
    let bar1 = if scaled {
        Bar { speed: spec_speed_scaled(bar_claimed.speed as int) as i64, ..bar_claimed }
    } else {
        bar_claimed
    };
    let b2 = Ball {
        dy: if hit {
            (-(b1.dy as int)) as i64
        } else {
            b1.dy
        },
        speed_multiplier: mult1,
        ..b1
    };
    let fell = b2.y > HEIGHT;
    let dead = fell && hearts1 == 1;
    let respawn = fell && hearts1 != 1;
    let hearts2 = if fell {
        (hearts1 - 1) as usize
    } else {
        hearts1
    };
    let combo2 = if respawn {
        0usize
    } else {
        combo1
    };
    let b3 = if respawn {
        rb
    } else {
        b2
    };
    let pus1 = g0.power_ups@ + (match sp {
        Option::Some(p) => seq![p],
        Option::None => Seq::empty(),
    });
    let fr = spec_pu_fold(b3, bar1, hearts2, pus1, g0.now);
    &&& (match sp {
        Option::Some(p) => hit && spec_spawned(p),
        Option::None => true,
    })
    &&& (respawn ==> spec_fresh_ball(rb))
    &&& g1.ball == fr.ball
    &&& g1.bar == fr.bar
    &&& g1.hearts == fr.hearts
    &&& g1.power_ups@ == fr.kept
    &&& g1.score == score1
    &&& g1.high_score == high1
    &&& g1.milestones@ == miles1
    &&& g1.combo_count == combo2
    &&& g1.last_hit_time == last1
    &&& g1.difficulty_level == diff1
    &&& g1.state == if dead {
        GameState::GameOver
    } else {
        g0.state
    }
    &&& (Game {
        ball: g0.ball,
        bar: g0.bar,
        score: g0.score,
        high_score: g0.high_score,
        hearts: g0.hearts,
        state: g0.state,
        animations: g0.animations,
        difficulty_level: g0.difficulty_level,
        power_ups: g0.power_ups,
        combo_count: g0.combo_count,
        last_hit_time: g0.last_hit_time,
        milestones: g0.milestones,
        ..g1
    }) == g0
    &&& (!fell ==> {
        &&& g1.animations@.len() == g0.animations@.len() + (if new_high {
            1int
        } else {
            0int
        }) + (if claim {
            1int
        } else {
            0int
        })
        &&& forall|i: int|
            0 <= i < g0.animations@.len() ==> g1.animations@[i] == g0.animations@[i]
        &&& (new_high ==> is_high_score_anim(g1.animations@[g0.animations@.len() as int], g0.now))
        &&& (claim ==> is_heart_anim(
            g1.animations@[g0.animations@.len() + (if new_high {
                1int
            } else {
                0int
            })],
            g0.now,
        ))
    })
    &&& (dead ==> {
        &&& g1.animations@.len() == 2
        &&& is_game_over_anim(g1.animations@[0], g0.now)
        &&& is_retry_anim(g1.animations@[1], g0.now)
    })
    &&& ((fell && !dead) ==> g1.animations@ == Seq::<AnimatedText>::empty())
    &&& evs == (if hit {
        seq![GameEvent::PaddleHit]
    } else {
        Seq::<GameEvent>::empty()
    }) + (if claim {
        seq![GameEvent::HeartAwarded]
    } else {
        Seq::<GameEvent>::empty()
    }) + (if dead {
        seq![GameEvent::GameOver]
    } else {
        Seq::<GameEvent>::empty()
    }) + fr.events
}
/// What resolving wall contacts does: reflection only, nothing else.
pub open spec fn spec_walls_rel(g0: Game, g1: Game) -> bool {
    &&& (Game { ball: g0.ball, ..g1 }) == g0
    &&& g1.ball == spec_after_walls(g0.ball)
}

/// What the paddle-bounce branch does, starting from the state with
/// walls already resolved: on a hit, the vertical velocity flips and all
/// scoring bookkeeping runs; otherwise nothing changes. `sp` is the
/// pickup the spawn roll produced, if any.
pub open spec fn spec_paddle_rel(g0: Game, g1: Game, evs: Seq<GameEvent>, sp: Option<PowerUp>) -> bool {
    let hit = spec_paddle_hit(g0.ball, g0.bar);
    let score1 = if hit {
        sat_inc(g0.score)
    } else {
        g0.score
    };
    let combo1 = if hit {
        if g0.now - g0.last_hit_time < COMBO_WINDOW_MS {
            sat_inc(g0.combo_count)
        } else {
            1usize
        }
    } else {
        g0.combo_count
    };
    let new_high = hit && score1 > g0.high_score;
    let claim = hit && g0.milestones@.len() > 0 && score1 >= g0.milestones@[0];
    let bar_claimed = if claim {
        crate::game::spec_bar_with_width(g0.bar, spec_milestone_width(g0.bar.width as int))
    } else {
        g0.bar
    };
    let scaled = hit && score1 % DIFFICULTY_INCREASE_INTERVAL == 0;
    let mult1 = if scaled {
        spec_mult_scaled(g0.ball.speed_multiplier as int) as u64
    } else {
        g0.ball.speed_multiplier
    };
    &&& (match sp {
        Option::Some(p) => hit && spec_spawned(p),
        Option::None => true,
    })
    &&& g1.ball == (Ball {
        dy: if hit {
            (-(g0.ball.dy as int)) as i64
        } else {
            g0.ball.dy
        },
        speed_multiplier: mult1,
        ..g0.ball
    })
    &&& g1.bar == if scaled {
        Bar { speed: spec_speed_scaled(bar_claimed.speed as int) as i64, ..bar_claimed }
    } else {
        bar_claimed
    }
    &&& g1.score == score1
    &&& g1.combo_count == combo1
    &&& g1.last_hit_time == if hit {
        g0.now
    } else {
        g0.last_hit_time
    }
    &&& g1.high_score == if new_high {
        score1
    } else {
        g0.high_score
    }
    &&& g1.milestones@ == if claim {
        g0.milestones@.drop_first()
    } else {
        g0.milestones@
    }
    &&& g1.hearts == if claim {
        sat_inc(g0.hearts)
    } else {
        g0.hearts
    }
    &&& g1.difficulty_level == if scaled {
        sat_inc(g0.difficulty_level)
    } else {
        g0.difficulty_level
    }
    &&& g1.power_ups@ == g0.power_ups@ + (match sp {
        Option::Some(p) => seq![p],
        Option::None => Seq::<PowerUp>::empty(),
    })
    &&& (Game {
        ball: g0.ball,
        bar: g0.bar,
        score: g0.score,
        high_score: g0.high_score,
        hearts: g0.hearts,
        animations: g0.animations,
        difficulty_level: g0.difficulty_level,
        power_ups: g0.power_ups,
        combo_count: g0.combo_count,
        last_hit_time: g0.last_hit_time,
        milestones: g0.milestones,
        ..g1
    }) == g0
    &&& g1.animations@.len() == g0.animations@.len() + (if new_high {
        1int
    } else {
        0int
    }) + (if claim {
        1int
    } else {
        0int
    })
    &&& forall|i: int| 0 <= i < g0.animations@.len() ==> g1.animations@[i] == g0.animations@[i]
    &&& (new_high ==> is_high_score_anim(g1.animations@[g0.animations@.len() as int], g0.now))
    &&& (claim ==> is_heart_anim(
        g1.animations@[g0.animations@.len() + (if new_high {
            1int
        } else {
            0int
        })],
        g0.now,
    ))
    &&& evs == (if hit {
        seq![GameEvent::PaddleHit]
    } else {
        Seq::<GameEvent>::empty()
    }) + (if claim {
        seq![GameEvent::HeartAwarded]
    } else {
        Seq::<GameEvent>::empty()
    })
}

/// What the fall check does, starting from the state with the paddle
/// bounce resolved: past the bottom edge a heart is lost and the session
/// either ends or serves the replacement ball `rb`.
pub open spec fn spec_fall_rel(g0: Game, g1: Game, evs: Seq<GameEvent>, rb: Ball) -> bool {
    let fell = g0.ball.y > HEIGHT;
    let dead = fell && g0.hearts == 1;
    let respawn = fell && g0.hearts != 1;
    &&& (respawn ==> spec_fresh_ball(rb))
    &&& g1.ball == if respawn {
        rb
    } else {
        g0.ball
    }
    &&& g1.hearts == if fell {
        (g0.hearts - 1) as usize
    } else {
        g0.hearts
    }
    &&& g1.state == if dead {
        GameState::GameOver
    } else {
        g0.state
    }
    &&& g1.combo_count == if respawn {
        0usize
    } else {
        g0.combo_count
    }
    &&& (Game {
        ball: g0.ball,
        hearts: g0.hearts,
        state: g0.state,
        combo_count: g0.combo_count,
        animations: g0.animations,
        ..g1
    }) == g0
    &&& (!fell ==> g1.animations@ == g0.animations@)
    &&& (dead ==> {
        &&& g1.animations@.len() == 2
        &&& is_game_over_anim(g1.animations@[0], g0.now)
        &&& is_retry_anim(g1.animations@[1], g0.now)
    })
    &&& (respawn ==> g1.animations@ == Seq::<AnimatedText>::empty())
    &&& evs == if dead {
        seq![GameEvent::GameOver]
    } else {
        Seq::<GameEvent>::empty()
    }
}

/// What the power-up pass does: exactly one fold over the list.
pub open spec fn spec_pu_pass_rel(g0: Game, g1: Game, evs: Seq<GameEvent>) -> bool {
    let fr = spec_pu_fold(g0.ball, g0.bar, g0.hearts, g0.power_ups@, g0.now);
    &&& g1.ball == fr.ball
    &&& g1.bar == fr.bar
    &&& g1.hearts == fr.hearts
    &&& g1.power_ups@ == fr.kept
    &&& (Game { ball: g0.ball, bar: g0.bar, hearts: g0.hearts, power_ups: g0.power_ups, ..g1 })
        == g0
    &&& evs == fr.events
}

/// The four sub-steps of the collision step, run in order, amount to
/// the collision relation as a whole.
pub proof fn lemma_collision_compose(
    g0: Game,
    ga: Game,
    gb: Game,
    gc: Game,
    gd: Game,
    evp: Seq<GameEvent>,
    evf: Seq<GameEvent>,
    evu: Seq<GameEvent>,
    sp: Option<PowerUp>,
    rb: Ball,
)
    requires
        spec_walls_rel(g0, ga),
        spec_paddle_rel(ga, gb, evp, sp),
        spec_fall_rel(gb, gc, evf, rb),
        spec_pu_pass_rel(gc, gd, evu),
    ensures
        spec_collision_rel(g0, gd, evp + evf + evu, sp, rb),
{
    assert(evp + evf + evu =~= evp + (evf + evu));
    let b1 = spec_after_walls(g0.ball);
    let hit = spec_paddle_hit(b1, g0.bar);
    let claim = hit && g0.milestones@.len() > 0 && (if hit {
        sat_inc(g0.score)
    } else {
        g0.score
    }) >= g0.milestones@[0];
    let dead = gb.ball.y > HEIGHT && gb.hearts == 1;
    let fr = spec_pu_fold(gc.ball, gc.bar, gc.hearts, gc.power_ups@, gc.now);
    assert((if hit {
        seq![GameEvent::PaddleHit]
    } else {
        Seq::<GameEvent>::empty()
    }) + (if claim {
        seq![GameEvent::HeartAwarded]
    } else {
        Seq::<GameEvent>::empty()
    }) + (if dead {
        seq![GameEvent::GameOver]
    } else {
        Seq::<GameEvent>::empty()
    }) + fr.events =~= evp + (evf + evu));
}

impl Game {
    /// Reflect the ball off the side and top walls.
    fn resolve_walls(&mut self)
        requires
            old(self).wf(),
        ensures
            final(self).wf(),
            spec_walls_rel(*old(self), *final(self)),
    {
        if self.ball.x <= 0 || self.ball.x + BALL_SIZE >= WIDTH {
            self.ball.dx = -self.ball.dx;
        }
        if self.ball.y <= 0 {
            self.ball.dy = -self.ball.dy;
        }
    }

    /// Resolve a paddle bounce and its bookkeeping: score, combo,
    /// high score, milestone, spawn roll, difficulty scaling.
    fn resolve_paddle_hit(&mut self) -> (r: (Vec<GameEvent>, Ghost<Option<PowerUp>>))
        requires
            old(self).wf(),
        ensures
            final(self).wf(),
            final(self).state == old(self).state,
            spec_paddle_rel(*old(self), *final(self), r.0@, r.1@),
    {
        let mut evs: Vec<GameEvent> = Vec::new();
        let hit = self.ball.y + BALL_SIZE >= self.bar.y && self.ball.x + BALL_SIZE >= self.bar.x
            && self.ball.x <= self.bar.x + self.bar.width && self.ball.dy > 0;
        if hit {
            self.ball.dy = -self.ball.dy;
            self.score = sat_inc_usize(self.score);
            if self.now - self.last_hit_time < COMBO_WINDOW_MS {
                self.combo_count = sat_inc_usize(self.combo_count);
            } else {
                self.combo_count = 1;
            }
            self.last_hit_time = self.now;
            evs.push(GameEvent::PaddleHit);
            let mut scoring_evs = self.check_high_score();
            evs.append(&mut scoring_evs);
            self.spawn_power_up();
            if self.score % DIFFICULTY_INCREASE_INTERVAL == 0 {
                self.difficulty_level = sat_inc_usize(self.difficulty_level);
                let m2 = self.ball.speed_multiplier * 11 / 10;
                self.ball.speed_multiplier = if m2 > MULT_MAX {
                    MULT_MAX
                } else {
                    m2
                };
                let s2 = (self.bar.speed as u64) * 21 / 20;
                self.bar.speed = if s2 > BAR_SPEED_MAX as u64 {
                    BAR_SPEED_MAX
                } else {
                    s2 as i64
                };
            }
        }
        let ghost sp: Option<PowerUp> = if self.power_ups@.len() == old(self).power_ups@.len() {
            Option::None
        } else {
            Option::Some(self.power_ups@.last())
        };
        proof {
            if self.power_ups@.len() != old(self).power_ups@.len() {
                assert(self.power_ups@ =~= old(self).power_ups@ + seq![self.power_ups@.last()]);
            } else {
                assert(self.power_ups@ =~= old(self).power_ups@ + Seq::<PowerUp>::empty());
            }
        }
        (evs, Ghost(sp))
    }

    /// Resolve the ball falling past the bottom edge: lose a heart, and
    /// either end the session or serve a fresh ball.
    fn resolve_fall(&mut self) -> (r: (Vec<GameEvent>, Ghost<Ball>))
        requires
            old(self).wf(),
            old(self).state == GameState::Playing,
        ensures
            final(self).wf(),
            spec_fall_rel(*old(self), *final(self), r.0@, r.1@),
    {
        let mut evs: Vec<GameEvent> = Vec::new();
        if self.ball.y > HEIGHT {
            self.hearts = self.hearts - 1;
            self.animations = Vec::new();
            if self.hearts == 0 {
                self.state = GameState::GameOver;
                let a = AnimatedText::new(
                    String::from_str("Game Over!"),
                    CENTER_X,
                    CENTER_Y - 50_000,
                    999,
                    72,
                    TextColor::Red,
                    0,
                    0,
                    self.now,
                );
                self.animations.push(a);
                let a2 = AnimatedText::new(
                    String::from_str("Press 'R' to retry"),
                    CENTER_X,
                    CENTER_Y + 50_000,
                    999,
                    36,
                    TextColor::White,
                    0,
                    0,
                    self.now,
                );
                self.animations.push(a2);
                evs.push(GameEvent::GameOver);
            } else {
                self.ball = Ball::new();
                self.combo_count = 0;
            }
        }
        let ghost rb = self.ball;
        (evs, Ghost(rb))
    }

    /// Walk the power-up list once: collect what the ball overlaps,
    /// apply each collected effect exactly once, keep what is alive.
    fn resolve_power_ups(&mut self) -> (evs: Vec<GameEvent>)
        requires
            old(self).wf(),
        ensures
            final(self).wf(),
            spec_pu_pass_rel(*old(self), *final(self), evs@),
    {
        let mut evs: Vec<GameEvent> = Vec::new();
        let ghost b3 = self.ball;
        let ghost bar1 = self.bar;
        let ghost hearts2 = self.hearts;
        let ghost pus1 = self.power_ups@;
        let ghost g_pre = *self;
        let mut kept: Vec<PowerUp> = Vec::new();
        let n = self.power_ups.len();
        let mut i: usize = 0;
        while i < n
            invariant
                0 <= i <= n,
                n == pus1.len(),
                self.power_ups@ == pus1,
                self.now == g_pre.now,
                self.now <= TIME_LIMIT_MS,
                self.ball.wf(),
                self.bar.wf(),
                forall|k: int| 0 <= k < pus1.len() ==> (#[trigger] pus1[k]).wf(),
                (Game { ball: g_pre.ball, bar: g_pre.bar, hearts: g_pre.hearts, ..*self })
                    == g_pre,
                ({
                    let fr = spec_pu_fold(b3, bar1, hearts2, pus1.subrange(0, i as int), self.now);
                    &&& self.ball == fr.ball
                    &&& self.bar == fr.bar
                    &&& self.hearts == fr.hearts
                    &&& kept@ == fr.kept
                    &&& evs@ == fr.events
                }),
            decreases n - i,
        {
            let p = self.power_ups[i];
            let collided = p.active_until.is_none() && self.ball.x < p.x + p.size
                && self.ball.x + BALL_SIZE > p.x && self.ball.y < p.y + p.size
                && self.ball.y + BALL_SIZE > p.y;
            let mut p1 = p;
            if collided {
                self.apply_power_up(p.kind);
                evs.push(GameEvent::PowerUpCollected);
                p1.active_until = Some(self.now + POWERUP_DURATION_MS);
            }
            if p1.is_active(self.now) {
                kept.push(p1);
            }
            i = i + 1;
            proof {
                assert(pus1.subrange(0, i as int).drop_last() =~= pus1.subrange(0, i - 1));
                assert(pus1.subrange(0, i as int).last() == pus1[i - 1]);
            }
        }
        proof {
            assert(pus1.subrange(0, n as int) =~= pus1);
        }
        self.power_ups = kept;
        proof {
            lemma_pu_fold_props(b3, bar1, hearts2, pus1, self.now);
        }
        evs
    }

    /// Resolve every collision of one frame and its bookkeeping: walls,
    /// paddle (scoring, combo, high score, milestone, spawn roll,
    /// difficulty), the ball falling off the bottom, and power-ups.
    ///
    /// Which pickup the spawn roll produced and where a respawned ball
    /// starts are up to the random draws; everything else is pinned.
    pub fn handle_ball_collisions(&mut self) -> (evs: Vec<GameEvent>)
        requires
            old(self).wf(),
            old(self).state == GameState::Playing,
        ensures
            final(self).wf(),
            exists|sp: Option<PowerUp>, rb: Ball|
                spec_collision_rel(*old(self), *final(self), evs@, sp, rb),
    {
        self.resolve_walls();
        let ghost ga = *self;
        let (mut evs, Ghost(sp)) = self.resolve_paddle_hit();
        let ghost gb = *self;
        let ghost evp = evs@;
        let (mut fall_evs, Ghost(rb)) = self.resolve_fall();
        let ghost gc = *self;
        let ghost evf = fall_evs@;
        evs.append(&mut fall_evs);
        let mut pu_evs = self.resolve_power_ups();
        let ghost evu = pu_evs@;
        evs.append(&mut pu_evs);
        proof {
            lemma_collision_compose(*old(self), ga, gb, gc, *self, evp, evf, evu, sp, rb);
            assert(evs@ =~= evp + evf + evu);
            assert(spec_collision_rel(*old(self), *self, evs@, sp, rb));
        }
        evs
    }
}

/// The session clock after one frame: advanced by `dt`, saturating at
/// the time limit.
pub open spec fn spec_advance_now(now: u64, dt: u64) -> u64 {
    if now + dt > TIME_LIMIT_MS {
        TIME_LIMIT_MS
    } else {
        (now + dt) as u64
    }
}

/// What the start of every frame does: the clock advances — unless the
/// session is paused, which freezes every timer — and the overlay list
/// takes one animation step against the new clock.
pub open spec fn spec_clock_anim_step(g0: Game, dt: u64, g1: Game) -> bool {
    let now1 = if g0.state == GameState::Paused {
        g0.now
    } else {
        spec_advance_now(g0.now, dt)
    };
    &&& (Game { animations: g0.animations, now: g0.now, ..g1 }) == g0
    &&& g1.now == now1
    &&& g1.animations@ == spec_anims_after(g0.animations@, now1)
}

/// What one countdown check does, starting from the state with the
/// clock and overlays already stepped: once a full tick has elapsed the
/// countdown decrements and either shows the next digit or starts play.
pub open spec fn spec_countdown_rel(g0: Game, g1: Game, evs: Seq<GameEvent>) -> bool {
    let ticked = match g0.countdown_start {
        Option::Some(s) => g0.now - s >= COUNTDOWN_TICK_MS,
        Option::None => false,
    };
    let v1 = g0.countdown_value - 1;
    &&& (!ticked ==> g1 == g0 && evs == Seq::<GameEvent>::empty())
    &&& ((ticked && v1 > 0) ==> {
        &&& (Game {
            countdown_value: g0.countdown_value,
            countdown_start: g0.countdown_start,
            animations: g0.animations,
            ..g1
        }) == g0
        &&& g1.countdown_value as int == v1
        &&& g1.countdown_start == Some(g0.now)
        &&& g1.animations@.len() == 1
        &&& is_digit_anim(g1.animations@[0], v1, g0.now)
        &&& evs == Seq::<GameEvent>::empty()
    })
    &&& ((ticked && v1 <= 0) ==> {
        &&& (Game {
            countdown_value: g0.countdown_value,
            countdown_start: g0.countdown_start,
            animations: g0.animations,
            state: g0.state,
            ..g1
        }) == g0
        &&& g1.countdown_value as int == v1
        &&& g1.countdown_start == Some(g0.now)
        &&& g1.state == GameState::Playing
        &&& g1.animations@.len() == 2
        &&& is_game_start_anim(g1.animations@[0], g0.now)
        &&& is_pause_hint_anim(g1.animations@[1], g0.now)
        &&& evs == seq![GameEvent::GameStart]
    })
}

/// One whole countdown frame: the clock-and-overlay step to `mid`, then
/// the countdown check.
pub open spec fn spec_countdown_frame(
    g0: Game,
    dt: u64,
    g1: Game,
    evs: Seq<GameEvent>,
    mid: Game,
) -> bool {
    &&& spec_clock_anim_step(g0, dt, mid)
    &&& spec_countdown_rel(mid, g1, evs)
}

/// One whole playing frame: the clock-and-overlay step to `mid`, the
/// ball's motion step, the collision step to `post`, and finally the
/// paddle movement from held input.
pub open spec fn spec_playing_frame(
    g0: Game,
    dt: u64,
    input: InputState,
    g1: Game,
    evs: Seq<GameEvent>,
    mid: Game,
    post: Game,
    sp: Option<PowerUp>,
    rb: Ball,
) -> bool {
    &&& spec_clock_anim_step(g0, dt, mid)
    &&& spec_collision_rel(Game { ball: spec_integrated(mid.ball), ..mid }, post, evs, sp, rb)
    &&& (Game { bar: post.bar, ..g1 }) == post
    &&& g1.bar == spec_bar_moved(post.bar, input)
}

/// What one frame does, phase by phase. The existentials name the
/// intermediate states and the random outcomes of the frame.
pub open spec fn spec_update_rel(
    g0: Game,
    dt: u64,
    input: InputState,
    g1: Game,
    evs: Seq<GameEvent>,
) -> bool {
    &&& ((g0.state == GameState::Paused || g0.state == GameState::GameOver) ==> {
        &&& spec_clock_anim_step(g0, dt, g1)
        &&& evs == Seq::<GameEvent>::empty()
    })
    &&& (g0.state == GameState::Countdown ==> exists|mid: Game|
        spec_countdown_frame(g0, dt, g1, evs, mid))
    &&& (g0.state == GameState::Playing ==> exists|mid: Game, post: Game, sp: Option<PowerUp>, rb: Ball|
        spec_playing_frame(g0, dt, input, g1, evs, mid, post, sp, rb))
}

impl Game {
    /// Step every overlay one frame and drop the expired ones.
    fn step_animations(&mut self)
        requires
            old(self).wf(),
        ensures
            final(self).wf(),
            (Game { animations: old(self).animations, ..*final(self) }) == *old(self),
            final(self).animations@ == spec_anims_after(old(self).animations@, old(self).now),
    {
        let ghost anims0 = self.animations@;
        let ghost now0 = self.now;
        let ghost g_pre = *self;
        let mut stepped: Vec<AnimatedText> = Vec::new();
        let n = self.animations.len();
        let mut i: usize = 0;
        while i < n
            invariant
                0 <= i <= n,
                n == anims0.len(),
                *self == g_pre,
                self.animations@ == anims0,
                self.now == now0,
                forall|k: int|
                    0 <= k < anims0.len() ==> (#[trigger] anims0[k]).wf()
                        && anims0[k].start_time <= now0,
                stepped@ == spec_anims_after(anims0.subrange(0, i as int), now0),
                forall|k: int|
                    0 <= k < stepped@.len() ==> (#[trigger] stepped@[k]).wf()
                        && stepped@[k].start_time <= now0,
            decreases n - i,
        {
            let src = &self.animations[i];
            let mut a = AnimatedText {
                text: src.text.clone(),
                start_time: src.start_time,
                duration_ms: src.duration_ms,
                x: src.x,
                y: src.y,
                vx: src.vx,
                vy: src.vy,
                scale: src.scale,
                color: src.color,
            };
            proof {
                assert(a == anims0[i as int]);
            }
            a.update();
            if a.is_active(self.now) {
                stepped.push(a);
            }
            i = i + 1;
            proof {
                assert(anims0.subrange(0, i as int).drop_last() =~= anims0.subrange(0, i - 1));
                assert(anims0.subrange(0, i as int).last() == anims0[i - 1]);
            }
        }
        proof {
            assert(anims0.subrange(0, n as int) =~= anims0);
        }
        self.animations = stepped;
    }

    /// Run one countdown check: after a full tick, decrement and either
    /// show the next digit or start play.
    pub fn update_countdown(&mut self) -> (evs: Vec<GameEvent>)
        requires
            old(self).wf(),
            old(self).state == GameState::Countdown,
        ensures
            final(self).wf(),
            spec_countdown_rel(*old(self), *final(self), evs@),
    {
        let mut evs: Vec<GameEvent> = Vec::new();
        if let Some(start) = self.countdown_start {
            if self.now - start >= COUNTDOWN_TICK_MS {
                self.countdown_value = self.countdown_value - 1;
                self.countdown_start = Some(self.now);
                if self.countdown_value > 0 {
                    self.animations = Vec::new();
                    let txt = if self.countdown_value == 1 {
                        "1"
                    } else if self.countdown_value == 2 {
                        "2"
                    } else {
                        "3"
                    };
                    let a = AnimatedText::new(
                        String::from_str(txt),
                        CENTER_X,
                        CENTER_Y - 100_000,
                        1,
                        96,
                        TextColor::Cyan,
                        0,
                        0,
                        self.now,
                    );
                    self.animations.push(a);
                } else {
                    self.state = GameState::Playing;
                    self.animations = Vec::new();
                    let a = AnimatedText::new(
                        String::from_str("Game Start!"),
                        CENTER_X,
                        CENTER_Y - 50_000,
                        2,
                        72,
                        TextColor::Green,
                        0,
                        -1000,
                        self.now,
                    );
                    self.animations.push(a);
                    let a2 = AnimatedText::new(
                        String::from_str("Press 'P' or SPACE to pause"),
                        CENTER_X,
                        CENTER_Y + 50_000,
                        3,
                        24,
                        TextColor::White,
                        0,
                        0,
                        self.now,
                    );
                    self.animations.push(a2);
                    evs.push(GameEvent::GameStart);
                }
            }
        }
        evs
    }

    /// Advance the session by one frame.
    ///
    /// The clock moves by `dt_ms` (frozen while paused) and overlays
    /// drift; then the current phase acts: the countdown ticks, play
    /// runs the physics step and paddle movement, and a paused or ended
    /// session sits still.
    pub fn update(&mut self, dt_ms: u64, input: InputState) -> (evs: Vec<GameEvent>)
        requires
            old(self).wf(),
        ensures
            final(self).wf(),
            spec_update_rel(*old(self), dt_ms, input, *final(self), evs@),
    {
        if !(self.state == GameState::Paused) {
            if dt_ms > TIME_LIMIT_MS - self.now {
                self.now = TIME_LIMIT_MS;
            } else {
                self.now = self.now + dt_ms;
            }
        }
        self.step_animations();
        let ghost mid = *self;
        match self.state {
            GameState::GameOver => Vec::new(),
            GameState::Paused => Vec::new(),
            GameState::Countdown => {
                let evs = self.update_countdown();
                proof {
                    assert(spec_countdown_frame(*old(self), dt_ms, *self, evs@, mid));
                }
                evs
            },
            GameState::Playing => {
                self.ball.update();
                let ghost midi = *self;
                let evs = self.handle_ball_collisions();
                let ghost post = *self;
                self.handle_bar_movement(input);
                proof {
                    let (sp, rb) = choose|sp: Option<PowerUp>, rb: Ball|
                        spec_collision_rel(midi, post, evs@, sp, rb);
                    assert(midi == (Game { ball: spec_integrated(mid.ball), ..mid }));
                    assert(spec_playing_frame(
                        *old(self),
                        dt_ms,
                        input,
                        *self,
                        evs@,
                        mid,
                        post,
                        sp,
                        rb,
                    ));
                }
                evs
            },
        }
    }
}

} // verus!
