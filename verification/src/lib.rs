//! Core of a single-screen paddle-and-ball arcade game, together with a
//! small checked byte-arithmetic module.
//!
//! All geometry is measured in thousandths of a pixel and all time in
//! milliseconds, so that every step of the simulation is exact integer
//! arithmetic with a verified contract.

pub mod anim;
pub mod ball;
pub mod bar;
pub mod config;
pub mod game;
pub mod laws;
pub mod op;
pub mod powerup;
pub mod rng;
pub mod step;

pub use anim::AnimatedText;
pub use anim::TextColor;
pub use ball::Ball;
pub use bar::Bar;
pub use config::BALL_SIZE;
pub use config::BALL_SPAWN_Y;
pub use config::BAR_HEIGHT;
pub use config::BAR_SPAWN_X;
pub use config::BAR_WIDTH;
pub use config::BAR_WIDTH_MAX;
pub use config::BAR_WIDTH_STEP;
pub use config::BAR_Y;
pub use config::COMBO_WINDOW_MS;
pub use config::HEIGHT;
pub use config::INITIAL_BALL_SPEED;
pub use config::INITIAL_BAR_SPEED;
pub use config::INITIAL_HEARTS;
pub use config::MULT_ONE;
pub use config::POWERUP_DURATION_MS;
pub use config::WIDTH;
pub use game::Game;
pub use game::GameEvent;
pub use game::GameState;
pub use game::InputState;
pub use game::KeyAction;
pub use op::add;
pub use op::div;
pub use op::mul;
pub use op::sub;
pub use powerup::PowerUp;
pub use powerup::PowerUpKind;
