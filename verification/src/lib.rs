//! A two-player pebble-removal game between a human and an automated opponent.
//!
//! Each turn a player removes between one and a configured maximum number of
//! pebbles from a shared pile; whoever removes the last pebble is recorded as
//! the winner. The crate holds the game's state machine and the opponent's
//! move selection, both verified.

pub mod engine;
pub mod game;
pub mod io;
pub mod random;
pub mod rules;

pub use io::{DifficultyLevel, GameError, GameState, PebblesAction, PebblesEvent, PebblesInit, Player};
pub use engine::{program_turn_gen, turn_for_draw};
pub use game::PebbleGame;
pub use random::get_random_u32;
