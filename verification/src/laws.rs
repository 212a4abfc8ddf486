//! The general laws of the simulation, stated over the step relations
//! and proved once and for all.

use vstd::prelude::*;
use crate::ball::{spec_after_walls, spec_hits_side_wall, spec_hits_top_wall, Ball};
use crate::bar::Bar;
use crate::config::{HEIGHT, MULT_MAX, MULT_MIN, WIDTH};
use crate::game::{sat_inc, spec_mult_scaled, spec_bar_moved, Game, GameEvent, GameState, InputState};
use crate::powerup::{spec_overlaps, PowerUp, PowerUpKind};
use crate::step::{
    lemma_pu_fold_props, spec_collision_rel, spec_paddle_hit,
};

verus! {

/// Wall reflection flips exactly the velocity component whose wall was
/// touched — strictly changing its sign when it was nonzero — and leaves
/// the orthogonal component, both positions, and the multiplier alone.
pub proof fn lemma_wall_reflection(b: Ball)
    requires
        b.wf(),
    ensures
        spec_hits_side_wall(b) ==> spec_after_walls(b).dx == -b.dx,
        spec_hits_side_wall(b) && b.dx > 0 ==> spec_after_walls(b).dx < 0,
        spec_hits_side_wall(b) && b.dx < 0 ==> spec_after_walls(b).dx > 0,
        !spec_hits_side_wall(b) ==> spec_after_walls(b).dx == b.dx,
        spec_hits_top_wall(b) ==> spec_after_walls(b).dy == -b.dy,
        spec_hits_top_wall(b) && b.dy > 0 ==> spec_after_walls(b).dy < 0,
        spec_hits_top_wall(b) && b.dy < 0 ==> spec_after_walls(b).dy > 0,
        !spec_hits_top_wall(b) ==> spec_after_walls(b).dy == b.dy,
        spec_after_walls(b).x == b.x,
        spec_after_walls(b).y == b.y,
        spec_after_walls(b).speed_multiplier == b.speed_multiplier,
{
}

/// Wherever the paddle starts and whatever keys are held, one movement
/// step leaves it on the playfield: `0 <= x <= WIDTH - width`, with the
/// width untouched.
pub proof fn lemma_bar_movement_in_bounds(b: Bar, input: InputState)
    requires
        b.wf(),
    ensures
        0 <= spec_bar_moved(b, input).x,
        spec_bar_moved(b, input).x + spec_bar_moved(b, input).width <= WIDTH,
        spec_bar_moved(b, input).width == b.width,
{
}

/// After a successful paddle bounce in a frame whose ball stayed above
/// the bottom edge, the ball's vertical velocity is exactly the
/// pre-bounce velocity flipped — negative, that is, moving up — whatever
/// the power-up pass did afterwards.
pub proof fn lemma_paddle_hit_bounces_up(
    g0: Game,
    g1: Game,
    evs: Seq<GameEvent>,
    sp: Option<PowerUp>,
    rb: Ball,
)
    requires
        g0.wf(),
        spec_collision_rel(g0, g1, evs, sp, rb),
        spec_paddle_hit(spec_after_walls(g0.ball), g0.bar),
        spec_after_walls(g0.ball).y <= HEIGHT,
    ensures
        g1.ball.dy == -spec_after_walls(g0.ball).dy,
        g1.ball.dy < 0,
{
    let b1 = spec_after_walls(g0.ball);
    let m0 = g0.ball.speed_multiplier;
    assert(MULT_MIN <= spec_mult_scaled(m0 as int) <= MULT_MAX) by {
        assert(m0 * 11 / 10 >= m0) by (nonlinear_arith)
            requires
                m0 >= 0,
        ;
    }
    let claim_bar = crate::game::spec_bar_with_width(
        g0.bar,
        crate::game::spec_milestone_width(g0.bar.width as int),
    );
    let score1 = sat_inc(g0.score);
    let claim = g0.milestones@.len() > 0 && score1 >= g0.milestones@[0];
    let scaled = score1 % crate::config::DIFFICULTY_INCREASE_INTERVAL == 0;
    let bar_claimed = if claim {
        claim_bar
    } else {
        g0.bar
    };
    let bar1 = if scaled {
        Bar {
            speed: crate::game::spec_speed_scaled(bar_claimed.speed as int) as i64,
            ..bar_claimed
        }
    } else {
        bar_claimed
    };
    assert(bar1.wf()) by {
        assert(bar_claimed.speed * 21 / 20 >= bar_claimed.speed) by (nonlinear_arith)
            requires
                bar_claimed.speed >= 0,
        ;
    }
    let mult1 = if scaled {
        spec_mult_scaled(m0 as int) as u64
    } else {
        m0
    };
    let b2 = Ball { dy: (-(b1.dy as int)) as i64, speed_multiplier: mult1, ..b1 };
    assert(b2.wf());
    let pus1 = g0.power_ups@ + (match sp {
        Option::Some(p) => seq![p],
        Option::None => Seq::<PowerUp>::empty(),
    });
    assert(forall|i: int| 0 <= i < pus1.len() ==> (#[trigger] pus1[i]).wf());
    lemma_pu_fold_props(b2, bar1, (if claim {
        sat_inc(g0.hearts)
    } else {
        g0.hearts
    }), pus1, g0.now);
}

/// Losing the last heart ends the session on that very step, and — when
/// no uncollected extra-heart pickup overlaps the fallen ball — the
/// heart count reads exactly zero. Hearts can never go negative: every
/// decrement is guarded by the check that ends the session at zero.
pub proof fn lemma_zero_hearts_game_over(
    g0: Game,
    g1: Game,
    evs: Seq<GameEvent>,
    sp: Option<PowerUp>,
    rb: Ball,
)
    requires
        g0.wf(),
        g0.state == GameState::Playing,
        spec_collision_rel(g0, g1, evs, sp, rb),
        g0.hearts == 1,
        spec_after_walls(g0.ball).y > HEIGHT,
        // no milestone claim grants a replacement heart on this step:
        !(spec_paddle_hit(spec_after_walls(g0.ball), g0.bar) && g0.milestones@.len() > 0
            && sat_inc(g0.score) >= g0.milestones@[0]),
    ensures
        g1.state == GameState::GameOver,
        (forall|i: int|
            0 <= i < g0.power_ups@.len()
                ==> !((#[trigger] g0.power_ups@[i]).active_until is None
                && spec_overlaps(spec_after_walls(g0.ball), g0.power_ups@[i])
                && g0.power_ups@[i].kind == PowerUpKind::ExtraHeart)) ==> g1.hearts == 0,
{
    let b1 = spec_after_walls(g0.ball);
    let hit = spec_paddle_hit(b1, g0.bar);
    let m0 = g0.ball.speed_multiplier;
    assert(MULT_MIN <= spec_mult_scaled(m0 as int) <= MULT_MAX) by {
        assert(m0 * 11 / 10 >= m0) by (nonlinear_arith)
            requires
                m0 >= 0,
        ;
    }
    let scaled = hit && sat_inc(g0.score) % crate::config::DIFFICULTY_INCREASE_INTERVAL == 0;
    let mult1 = if scaled {
        spec_mult_scaled(m0 as int) as u64
    } else {
        m0
    };
    let b2 = Ball {
        dy: if hit {
            (-(b1.dy as int)) as i64
        } else {
            b1.dy
        },
        speed_multiplier: mult1,
        ..b1
    };
    assert(b2.wf());
    let bar1 = g1.bar;
    let pus1 = g0.power_ups@ + (match sp {
        Option::Some(p) => seq![p],
        Option::None => Seq::<PowerUp>::empty(),
    });
    if forall|i: int|
        0 <= i < g0.power_ups@.len() ==> !((#[trigger] g0.power_ups@[i]).active_until is None
            && spec_overlaps(b1, g0.power_ups@[i])
            && g0.power_ups@[i].kind == PowerUpKind::ExtraHeart) {
        assert forall|i: int|
            0 <= i < pus1.len() implies !((#[trigger] pus1[i]).active_until is None
            && spec_overlaps(b2, pus1[i]) && pus1[i].kind == PowerUpKind::ExtraHeart) by {
            if i < g0.power_ups@.len() {
                assert(pus1[i] == g0.power_ups@[i]);
                assert(spec_overlaps(b2, pus1[i]) == spec_overlaps(b1, pus1[i]));
            } else {
                // a freshly spawned pickup sits in the upper half of the
                // screen, far above a ball that fell past the bottom
                assert(crate::powerup::spec_spawned(pus1[i]));
                assert(!spec_overlaps(b2, pus1[i]));
            }
        }
        let fell_bar = spec_collision_bar_helper(g0, sp);
        assert(fell_bar.wf()) by {
            assert(g0.bar.speed * 21 / 20 >= g0.bar.speed) by (nonlinear_arith)
                requires
                    g0.bar.speed >= 0,
            ;
            assert(crate::game::spec_bar_with_width(
                g0.bar,
                crate::game::spec_milestone_width(g0.bar.width as int),
            ).speed * 21 / 20 >= crate::game::spec_bar_with_width(
                g0.bar,
                crate::game::spec_milestone_width(g0.bar.width as int),
            ).speed) by (nonlinear_arith)
                requires
                    crate::game::spec_bar_with_width(
                        g0.bar,
                        crate::game::spec_milestone_width(g0.bar.width as int),
                    ).speed >= 0,
            ;
        }
        lemma_pu_fold_props(b2, fell_bar, 0, pus1, g0.now);
    }
}

/// The paddle as the collision step hands it to the power-up pass.
pub open spec fn spec_collision_bar_helper(g0: Game, sp: Option<PowerUp>) -> Bar {
    let b1 = spec_after_walls(g0.ball);
    let hit = spec_paddle_hit(b1, g0.bar);
    let score1 = if hit {
        sat_inc(g0.score)
    } else {
        g0.score
    };
    let claim = hit && g0.milestones@.len() > 0 && score1 >= g0.milestones@[0];
    let bar_claimed = if claim {
        crate::game::spec_bar_with_width(g0.bar, crate::game::spec_milestone_width(g0.bar.width as int))
    } else {
        g0.bar
    };
    let scaled = hit && score1 % crate::config::DIFFICULTY_INCREASE_INTERVAL == 0;
    if scaled {
        Bar { speed: crate::game::spec_speed_scaled(bar_claimed.speed as int) as i64, ..bar_claimed }
    } else {
        bar_claimed
    }
}

/// One collision step claims at most one milestone, always from the
/// front of the list, and a claimed threshold is strictly below every
/// threshold that remains — so, since nothing ever adds thresholds, each
/// one can be claimed at most once over the whole session.
pub proof fn lemma_milestone_claimed_once(
    g0: Game,
    g1: Game,
    evs: Seq<GameEvent>,
    sp: Option<PowerUp>,
    rb: Ball,
)
    requires
        g0.wf(),
        spec_collision_rel(g0, g1, evs, sp, rb),
    ensures
        g1.milestones@ == g0.milestones@ || g1.milestones@ == g0.milestones@.drop_first(),
        g1.milestones@ != g0.milestones@ ==> forall|j: int|
            0 <= j < g1.milestones@.len() ==> g0.milestones@[0] < #[trigger] g1.milestones@[j],
{
    if g1.milestones@ != g0.milestones@ {
        assert(g1.milestones@ == g0.milestones@.drop_first());
        assert forall|j: int|
            0 <= j < g1.milestones@.len() implies g0.milestones@[0]
            < #[trigger] g1.milestones@[j] by {
            assert(g1.milestones@[j] == g0.milestones@[j + 1]);
        }
    }
}

} // verus!
