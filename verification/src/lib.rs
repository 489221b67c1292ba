//! Simulation engine of a grid-based snake game.
//!
//! The crate holds the movement, timing and collision rules of the game and
//! nothing of its presentation: a shell reads the clock and the keyboard,
//! hands plain values in, and draws what the accessors hand back.

pub mod game;
