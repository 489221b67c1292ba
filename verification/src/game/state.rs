//! The states of the program: the menu, the running game, and the machine
//! that switches between the two.

pub mod game;
pub mod game_state;
pub mod menu;

pub use game::Game;
pub use game_state::GameState;
pub use game_state::StateResult;
pub use menu::Menu;
