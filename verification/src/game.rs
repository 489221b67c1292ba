//! The game: cells, directions, the fruit grid, the snake and the states
//! that drive them.

pub mod board;
pub mod clock;
pub mod config;
pub mod direction;
pub mod grid;
pub mod key;
pub mod motion;
pub mod random;
pub mod segment;
pub mod snake;
pub mod state;

pub use config::ConfigError;
pub use direction::Direction;
pub use grid::Grid;
pub use key::Key;
pub use motion::TickOutcome;
pub use segment::Segment;
pub use snake::Snake;
pub use state::GameState;
