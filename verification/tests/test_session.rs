use bounce_shield::{
    BALL_SIZE, BAR_WIDTH, BAR_WIDTH_MAX, Game, GameEvent, GameState, HEIGHT, INITIAL_HEARTS,
    InputState, KeyAction, MULT_ONE, PowerUp, PowerUpKind, WIDTH,
};

fn no_keys() -> InputState {
    InputState { left: false, right: false }
}

/// A session forced straight into play, with the ball parked somewhere
/// inert: mid-screen, moving up, far from every wall and the paddle.
fn playing_game() -> Game {
    let mut g = Game::new();
    g.state = GameState::Playing;
    g.ball.x = 500_000;
    g.ball.y = 500_000;
    g.ball.dx = 5_000;
    g.ball.dy = -5_000;
    g
}

/// Put the ball one pixel above the paddle's top edge, horizontally
/// centred over it, moving straight down.
fn place_ball_on_paddle(g: &mut Game) {
    g.ball.x = g.bar.x + (g.bar.width - BALL_SIZE) / 2;
    g.ball.y = g.bar.y - BALL_SIZE - 1_000;
    g.ball.dx = 0;
    g.ball.dy = 5_000;
}

#[test]
fn wall_bounce_reverses_horizontal_velocity() {
    // Ball at the left edge moving left: after one update it moves right.
    let mut g = playing_game();
    g.ball.x = 0;
    g.ball.dx = -3_000;
    g.ball.y = 500_000;
    g.ball.dy = -4_000;
    g.update(16, no_keys());
    assert!(g.ball.dx > 0);
    assert_eq!(g.ball.dx, 3_000);
    // The orthogonal component is untouched.
    assert_eq!(g.ball.dy, -4_000);
}

#[test]
fn top_wall_bounce_reverses_vertical_velocity() {
    let mut g = playing_game();
    g.ball.x = 500_000;
    g.ball.dx = 0;
    g.ball.y = 2_000;
    g.ball.dy = -5_000;
    g.update(16, no_keys());
    assert!(g.ball.dy > 0);
    assert_eq!(g.ball.dx, 0);
}

#[test]
fn paddle_hit_scores_and_bounces_up() {
    // Fresh session, ball one pixel above the paddle, centred over it.
    let mut g = playing_game();
    place_ball_on_paddle(&mut g);
    let evs = g.update(16, no_keys());
    assert_eq!(g.score, 1);
    assert!(g.ball.dy < 0);
    assert!(evs.contains(&GameEvent::PaddleHit));
}

#[test]
fn last_heart_falls_to_game_over() {
    // One heart left, ball already past the bottom edge.
    let mut g = playing_game();
    g.hearts = 1;
    g.ball.x = 100_000;
    g.ball.y = HEIGHT + 1_000;
    g.ball.dx = 0;
    g.ball.dy = 5_000;
    let evs = g.update(16, no_keys());
    assert_eq!(g.hearts, 0);
    assert_eq!(g.state, GameState::GameOver);
    assert!(evs.contains(&GameEvent::GameOver));
}

#[test]
fn fall_with_hearts_left_respawns_and_resets_combo() {
    let mut g = playing_game();
    g.combo_count = 4;
    g.ball.x = 100_000;
    g.ball.y = HEIGHT + 1_000;
    g.ball.dx = 0;
    g.ball.dy = 5_000;
    g.update(16, no_keys());
    assert_eq!(g.hearts, INITIAL_HEARTS - 1);
    assert_eq!(g.state, GameState::Playing);
    assert_eq!(g.combo_count, 0);
    // The replacement ball is served fresh.
    assert!(g.ball.y < HEIGHT);
    assert!(g.ball.dy > 0);
}

#[test]
fn milestone_hit_caps_paddle_width_at_maximum() {
    // Paddle already at the configured maximum width; a
    // milestone-qualifying hit must not push it past the cap.
    let mut g = playing_game();
    g.bar.width = BAR_WIDTH_MAX;
    g.score = 9;
    place_ball_on_paddle(&mut g);
    let evs = g.update(16, no_keys());
    assert_eq!(g.score, 10);
    assert_eq!(g.bar.width, BAR_WIDTH_MAX);
    assert_eq!(g.hearts, INITIAL_HEARTS + 1);
    assert!(evs.contains(&GameEvent::HeartAwarded));
}

#[test]
fn milestone_awarded_at_most_once() {
    // Crossing the first threshold awards one heart; the next hit,
    // still below the second threshold, awards nothing.
    let mut g = playing_game();
    g.score = 9;
    place_ball_on_paddle(&mut g);
    let evs = g.update(16, no_keys());
    assert_eq!(g.score, 10);
    assert_eq!(g.hearts, INITIAL_HEARTS + 1);
    assert!(evs.contains(&GameEvent::HeartAwarded));
    assert_eq!(g.milestones[0], 20);

    place_ball_on_paddle(&mut g);
    let evs2 = g.update(16, no_keys());
    assert_eq!(g.score, 11);
    assert_eq!(g.hearts, INITIAL_HEARTS + 1);
    assert!(!evs2.contains(&GameEvent::HeartAwarded));
    assert_eq!(g.milestones[0], 20);
}

#[test]
fn combo_counts_hits_within_window() {
    // Two paddle hits within two seconds raise the combo to 2; a third
    // hit five seconds later resets it to 1.
    let mut g = playing_game();
    place_ball_on_paddle(&mut g);
    g.update(16, no_keys());
    assert_eq!(g.combo_count, 1);

    place_ball_on_paddle(&mut g);
    g.update(100, no_keys());
    assert_eq!(g.combo_count, 2);

    place_ball_on_paddle(&mut g);
    g.update(5_000, no_keys());
    assert_eq!(g.combo_count, 1);
}

#[test]
fn restart_reinitializes_but_keeps_high_score() {
    let mut g = playing_game();
    g.score = 5;
    g.high_score = 7;
    g.hearts = 0;
    g.bar.width = 200_000;
    g.state = GameState::GameOver;
    let evs = g.key_down(KeyAction::Restart);
    assert_eq!(g.score, 0);
    assert_eq!(g.hearts, INITIAL_HEARTS);
    assert_eq!(g.bar.width, BAR_WIDTH);
    assert_eq!(g.state, GameState::Countdown);
    assert_eq!(g.high_score, 7);
    assert_eq!(g.prev_high_score, 7);
    assert!(evs.contains(&GameEvent::GameStart));
}

#[test]
fn restart_request_outside_game_over_is_ignored() {
    let mut g = Game::new();
    let score_before = g.score;
    let evs = g.key_down(KeyAction::Restart);
    assert_eq!(g.state, GameState::Countdown);
    assert_eq!(g.score, score_before);
    assert!(evs.is_empty());
}

#[test]
fn countdown_ticks_down_and_starts_play() {
    let mut g = Game::new();
    assert_eq!(g.state, GameState::Countdown);
    assert_eq!(g.countdown_value, 3);
    g.update(1_000, no_keys());
    assert_eq!(g.countdown_value, 2);
    g.update(1_000, no_keys());
    assert_eq!(g.countdown_value, 1);
    let evs = g.update(1_000, no_keys());
    assert_eq!(g.countdown_value, 0);
    assert_eq!(g.state, GameState::Playing);
    assert!(evs.contains(&GameEvent::GameStart));
}

#[test]
fn pause_freezes_and_resumes() {
    let mut g = playing_game();
    g.key_down(KeyAction::PauseToggle);
    assert_eq!(g.state, GameState::Paused);
    let (x, y) = (g.ball.x, g.ball.y);
    g.update(16, no_keys());
    assert_eq!((g.ball.x, g.ball.y), (x, y));
    g.key_down(KeyAction::PauseToggle);
    assert_eq!(g.state, GameState::Playing);
    assert!(g.animations.is_empty());
}

#[test]
fn held_keys_move_the_paddle_within_bounds() {
    let mut g = playing_game();
    // Plenty of hearts: the drifting ball may fall a few times while
    // the paddle is being driven across the field.
    g.hearts = 1_000;
    let x0 = g.bar.x;
    g.update(16, InputState { left: true, right: false });
    assert_eq!(g.bar.x, x0 - g.bar.speed);
    // Hammering left never leaves the playfield.
    for _ in 0..200 {
        g.update(16, InputState { left: true, right: false });
    }
    assert_eq!(g.bar.x, 0);
    // Same on the right.
    for _ in 0..400 {
        g.update(16, InputState { left: false, right: true });
    }
    assert_eq!(g.bar.x, WIDTH - g.bar.width);
}

#[test]
fn extra_heart_power_up_is_collected_once() {
    let mut g = playing_game();
    g.ball.x = 500_000;
    g.ball.y = 500_000;
    g.ball.dx = 0;
    g.ball.dy = -5_000;
    g.power_ups.push(PowerUp::new(495_000, 490_000, PowerUpKind::ExtraHeart));
    let evs = g.update(16, no_keys());
    assert_eq!(g.hearts, INITIAL_HEARTS + 1);
    assert!(evs.contains(&GameEvent::PowerUpCollected));
    // Collected, not removed: it lingers with an expiry time.
    assert_eq!(g.power_ups.len(), 1);
    assert!(g.power_ups[0].active_until.is_some());
    // Overlapping it again collects nothing further.
    let evs2 = g.update(16, no_keys());
    assert_eq!(g.hearts, INITIAL_HEARTS + 1);
    assert!(!evs2.contains(&GameEvent::PowerUpCollected));
}

#[test]
fn power_up_effects_apply_and_clamp() {
    let mut g = playing_game();
    g.apply_power_up(PowerUpKind::WidthIncrease);
    assert_eq!(g.bar.width, BAR_WIDTH * 3 / 2);
    g.apply_power_up(PowerUpKind::SpeedBoost);
    assert_eq!(g.bar.speed, 15_000);
    g.apply_power_up(PowerUpKind::SlowBall);
    assert_eq!(g.ball.speed_multiplier, MULT_ONE * 3 / 4);
    g.apply_power_up(PowerUpKind::ExtraHeart);
    assert_eq!(g.hearts, INITIAL_HEARTS + 1);
    // Widening is clamped at the configured maximum.
    g.bar.width = BAR_WIDTH_MAX;
    g.apply_power_up(PowerUpKind::WidthIncrease);
    assert_eq!(g.bar.width, BAR_WIDTH_MAX);
}

#[test]
fn collected_power_up_expires() {
    let mut p = PowerUp::new(0, 0, PowerUpKind::SlowBall);
    assert!(p.is_active(123));
    p.active_until = Some(5);
    assert!(p.is_active(4));
    assert!(!p.is_active(5));
}

#[test]
fn difficulty_scales_every_fifth_point() {
    let mut g = playing_game();
    g.score = 4;
    place_ball_on_paddle(&mut g);
    g.update(16, no_keys());
    assert_eq!(g.score, 5);
    assert_eq!(g.difficulty_level, 2);
    assert_eq!(g.ball.speed_multiplier, MULT_ONE * 11 / 10);
}

#[test]
fn fresh_session_starts_ready() {
    let g = Game::new();
    assert_eq!(g.score, 0);
    assert_eq!(g.hearts, INITIAL_HEARTS);
    assert_eq!(g.state, GameState::Countdown);
    assert_eq!(g.milestones, vec![10, 20, 30, 40, 50]);
    assert_eq!(g.animations.len(), 1);
    assert_eq!(g.animations[0].text, "Get Ready!");
}

#[test]
fn countdown_tick_shows_the_next_digit() {
    let mut g = Game::new();
    g.update(1_000, no_keys());
    assert_eq!(g.animations.len(), 1);
    assert_eq!(g.animations[0].text, "2");
}

#[test]
fn beating_the_high_score_is_celebrated() {
    let mut g = playing_game();
    g.score = 3;
    g.high_score = 3;
    place_ball_on_paddle(&mut g);
    g.update(16, no_keys());
    assert_eq!(g.score, 4);
    assert_eq!(g.high_score, 4);
    assert!(g.animations.iter().any(|a| a.text == "New High Score!"));
}

#[test]
fn game_over_session_sits_still() {
    let mut g = playing_game();
    g.hearts = 0;
    g.state = GameState::GameOver;
    let (x, score) = (g.ball.x, g.score);
    let evs = g.update(16, no_keys());
    assert_eq!(g.ball.x, x);
    assert_eq!(g.score, score);
    assert_eq!(g.state, GameState::GameOver);
    assert!(evs.is_empty());
}
