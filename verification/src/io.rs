//! The values that cross the boundary of the game: commands, replies, the
//! snapshot of a game, and the faults a command can end in.

use vstd::prelude::*;

verus! {

/// How the automated opponent picks its moves.
#[derive(Clone, Copy, Debug, PartialEq, Eq, Structural)]
pub enum DifficultyLevel {
    /// A random legal move, with no lookahead.
    Easy,
    /// The remainder heuristic of the subtraction game, with a random legal
    /// move where the heuristic has nothing to offer.
    Hard,
}

/// One of the two sides.
#[derive(Clone, Copy, Debug, PartialEq, Eq, Structural)]
pub enum Player {
    /// The human side.
    User,
    /// The automated opponent.
    Program,
}

/// The configuration a game is created with.
#[derive(Clone, Copy, Debug, PartialEq, Eq, Structural)]
pub struct PebblesInit {
    pub difficulty: DifficultyLevel,
    pub pebbles_count: u32,
    pub max_pebbles_per_turn: u32,
}

/// A command sent to a running game.
#[derive(Clone, Copy, Debug, PartialEq, Eq, Structural)]
pub enum PebblesAction {
    /// The human removes this many pebbles.
    Turn(u32),
    /// The human passes; the opponent moves on the pile as it stands.
    GiveUp,
    /// The game is replaced by a new one.
    Restart { difficulty: DifficultyLevel, pebbles_count: u32, max_pebbles_per_turn: u32 },
}

/// The single reply to a command that succeeded.
#[derive(Clone, Copy, Debug, PartialEq, Eq, Structural)]
pub enum PebblesEvent {
    /// The opponent removed this many pebbles; zero hands the first move to
    /// the human.
    CounterTurn(u32),
    /// The named side removed the last pebble.
    Won(Player),
}

/// A snapshot of every field of a game.
#[derive(Clone, Copy, Debug, PartialEq, Eq, Structural)]
pub struct GameState {
    /// Size of the pile when the game started.
    pub pebbles_count: u32,
    /// Most pebbles one turn may remove.
    pub max_pebbles_per_turn: u32,
    /// Pebbles still on the pile.
    pub pebbles_remaining: u32,
    /// Pebbles the opponent removed on its latest turn, zero if it has not
    /// moved in this round.
    pub program_lastmove: u32,
    pub difficulty: DifficultyLevel,
    /// The side that moved first.
    pub first_player: Player,
    /// The side that removed the last pebble, once one has.
    pub winner: Option<Player>,
}

/// Why a command was rejected. A rejected command leaves the game as it was.
#[derive(Clone, Copy, Debug, PartialEq, Eq, Structural)]
pub enum GameError {
    /// The turn limit is zero, the pile is empty, or the limit exceeds the pile.
    InvalidConfig,
    /// The human's count is zero, above the turn limit, or above what is left.
    IllegalMove,
    /// The opponent was asked to move on an empty pile.
    GameAlreadyFinished,
    /// The operating system's random generator reported a failure.
    RandomSourceFailed,
}

} // verus!
