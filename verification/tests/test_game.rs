use bounce_shield::{
    BALL_SIZE, BALL_SPAWN_Y, BAR_WIDTH, Ball, Bar, Game, INITIAL_BALL_SPEED, WIDTH,
};

#[test]
fn test_ball_initialization() {
    let ball = Ball::new();
    assert!(ball.x >= BALL_SIZE && ball.x <= WIDTH - BALL_SIZE);
    assert_eq!(ball.y, BALL_SPAWN_Y);
    assert_eq!(ball.dy, INITIAL_BALL_SPEED);
}

#[test]
fn test_bar_movement() {
    let mut bar = Bar::new();
    bar.move_left();
    assert!(bar.x < (WIDTH - BAR_WIDTH) / 2);
    bar.move_right();
    assert_eq!(bar.x, (WIDTH - BAR_WIDTH) / 2);
}

#[test]
fn test_score_increment() {
    let mut game = Game::new();

    // Check initial score
    let initial_score = game.score;

    // Increment the score
    game.score += 1;

    // Assert the score has increased
    assert_eq!(game.score, initial_score + 1);
}
