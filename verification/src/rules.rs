//! The rules of the game, as functions on snapshots.
//!
//! A command either is rejected, and the game stays as it was, or takes the
//! game to one successor, which the random draws fix. The reply to a command
//! that succeeded is read off its successor.

use vstd::prelude::*;
use crate::engine::{lemma_forced_turn_ignores_draw, lemma_turn_is_legal, turn_for, turn_needs_draw};
use crate::io::{DifficultyLevel, GameError, GameState, PebblesAction, PebblesEvent, Player};

verus! {

/// A pile and a turn limit that a game can start with: the limit is at least
/// one and at most the pile.
pub open spec fn config_ok(pebbles_count: u32, max_pebbles_per_turn: u32) -> bool {
    1 <= max_pebbles_per_turn <= pebbles_count
}

/// What holds of every game, in progress or finished.
pub open spec fn valid(state: GameState) -> bool {
    &&& config_ok(state.pebbles_count, state.max_pebbles_per_turn)
    &&& state.pebbles_remaining <= state.pebbles_count
    &&& state.winner is Some <==> state.pebbles_remaining == 0
    &&& state.program_lastmove <= state.max_pebbles_per_turn
    &&& state.program_lastmove + state.pebbles_remaining <= state.pebbles_count
    &&& state.first_player == Player::Program ==> state.pebbles_remaining < state.pebbles_count
}

/// A count that the human may remove: at least one, at most the turn limit,
/// at most what is left.
pub open spec fn legal_user_move(state: GameState, count: u32) -> bool {
    &&& 1 <= count <= state.max_pebbles_per_turn
    &&& count <= state.pebbles_remaining
}

/// The game before anyone has moved, with the human down as first player.
pub open spec fn fresh_game(
    difficulty: DifficultyLevel,
    pebbles_count: u32,
    max_pebbles_per_turn: u32,
) -> GameState {
    GameState {
        pebbles_count,
        max_pebbles_per_turn,
        pebbles_remaining: pebbles_count,
        program_lastmove: 0,
        difficulty,
        first_player: Player::User,
        winner: None,
    }
}

/// The side that a draw sends first: the human on an even draw, the opponent
/// on an odd one.
pub open spec fn first_player_for(first_draw: u32) -> Player {
    if first_draw as int % 2 == 0 {
        Player::User
    } else {
        Player::Program
    }
}

/// The game after the opponent's move for `draw`, on a pile that is not empty.
pub open spec fn after_program_move(state: GameState, draw: u32) -> GameState {
    let count = turn_for(state.difficulty, state.pebbles_remaining, state.max_pebbles_per_turn, draw);
    let left = (state.pebbles_remaining - count) as u32;
    GameState {
        pebbles_remaining: left,
        program_lastmove: count,
        winner: if left == 0 {
            Some(Player::Program)
        } else {
            None
        },
        ..state
    }
}

/// The game after the human has removed a legal `count` and, unless that
/// emptied the pile, the opponent has answered with its move for `draw`.
pub open spec fn after_user_move(state: GameState, count: u32, draw: u32) -> GameState {
    let left = (state.pebbles_remaining - count) as u32;
    if left == 0 {
        GameState { pebbles_remaining: 0, program_lastmove: 0, winner: Some(Player::User), ..state }
    } else {
        after_program_move(GameState { pebbles_remaining: left, ..state }, draw)
    }
}

/// The game after the first player has been drawn on `game`, and the opponent,
/// if it is first, has made its move for `turn_draw`.
pub open spec fn after_first_play(game: GameState, first_draw: u32, turn_draw: u32) -> GameState {
    match first_player_for(first_draw) {
        Player::User => GameState { first_player: Player::User, ..game },
        Player::Program => after_program_move(
            GameState { first_player: Player::Program, ..game },
            turn_draw,
        ),
    }
}

/// A new game on a configuration that is in order.
pub open spec fn started_game(
    difficulty: DifficultyLevel,
    pebbles_count: u32,
    max_pebbles_per_turn: u32,
    first_draw: u32,
    turn_draw: u32,
) -> GameState {
    after_first_play(fresh_game(difficulty, pebbles_count, max_pebbles_per_turn), first_draw, turn_draw)
}

/// The fault that a command ends in, if it is rejected. No draw has a part
/// in it.
pub open spec fn rejection(state: GameState, action: PebblesAction) -> Option<GameError> {
    match action {
        PebblesAction::Turn(count) => if legal_user_move(state, count) {
            None
        } else {
            Some(GameError::IllegalMove)
        },
        PebblesAction::GiveUp => if state.pebbles_remaining == 0 {
            Some(GameError::GameAlreadyFinished)
        } else {
            None
        },
        PebblesAction::Restart { difficulty, pebbles_count, max_pebbles_per_turn } => if config_ok(
            pebbles_count,
            max_pebbles_per_turn,
        ) {
            None
        } else {
            Some(GameError::InvalidConfig)
        },
    }
}

/// The game after a command that is not rejected.
pub open spec fn successor(state: GameState, action: PebblesAction, first_draw: u32, turn_draw: u32) -> GameState {
    match action {
        PebblesAction::Turn(count) => after_user_move(state, count, turn_draw),
        PebblesAction::GiveUp => after_program_move(state, turn_draw),
        PebblesAction::Restart { difficulty, pebbles_count, max_pebbles_per_turn } => started_game(
            difficulty,
            pebbles_count,
            max_pebbles_per_turn,
            first_draw,
            turn_draw,
        ),
    }
}

/// The reply to a command that took the game to `state`: the winner once
/// there is one, else the opponent's latest move.
pub open spec fn reply_for(state: GameState) -> PebblesEvent {
    match state.winner {
        Some(player) => PebblesEvent::Won(player),
        None => PebblesEvent::CounterTurn(state.program_lastmove),
    }
}

/// Whether the successor of a command depends on the draw for the opponent's
/// move, given that the command is not rejected and the draw for the first
/// player is `first_draw`.
pub open spec fn consults_turn_draw(state: GameState, action: PebblesAction, first_draw: u32) -> bool {
    match action {
        PebblesAction::Turn(count) => state.pebbles_remaining != count && turn_needs_draw(
            state.difficulty,
            (state.pebbles_remaining - count) as u32,
            state.max_pebbles_per_turn,
        ),
        PebblesAction::GiveUp => turn_needs_draw(
            state.difficulty,
            state.pebbles_remaining,
            state.max_pebbles_per_turn,
        ),
        PebblesAction::Restart { difficulty, pebbles_count, max_pebbles_per_turn } => first_player_for(
            first_draw,
        ) == Player::Program && turn_needs_draw(difficulty, pebbles_count, max_pebbles_per_turn),
    }
}

/// The opponent's move on a pile that is not empty removes at least one
/// pebble and exactly what it records as its latest move; it wins if and only
/// if it empties the pile; the game stays within the rules.
pub proof fn lemma_program_move(state: GameState, draw: u32)
    requires
        valid(state),
        state.pebbles_remaining >= 1,
    ensures
        valid(after_program_move(state, draw)),
        after_program_move(state, draw).program_lastmove >= 1,
        after_program_move(state, draw).pebbles_remaining == state.pebbles_remaining - after_program_move(
            state,
            draw,
        ).program_lastmove,
        after_program_move(state, draw).winner == if after_program_move(state, draw).pebbles_remaining
            == 0 {
            Some(Player::Program)
        } else {
            None
        },
        after_program_move(state, draw).pebbles_count == state.pebbles_count,
        after_program_move(state, draw).max_pebbles_per_turn == state.max_pebbles_per_turn,
        after_program_move(state, draw).difficulty == state.difficulty,
        after_program_move(state, draw).first_player == state.first_player,
{
    lemma_turn_is_legal(state.difficulty, state.pebbles_remaining, state.max_pebbles_per_turn, draw);
}

/// A legal move of the human removes its count, and the opponent's answer
/// removes what the game records as its latest move, which is at least one
/// pebble unless the human has emptied the pile. Whoever empties the pile is
/// the winner, and nobody else is. The game stays within the rules.
pub proof fn lemma_user_move(state: GameState, count: u32, draw: u32)
    requires
        valid(state),
        legal_user_move(state, count),
    ensures
        valid(after_user_move(state, count, draw)),
        after_user_move(state, count, draw).pebbles_remaining == state.pebbles_remaining - count
            - after_user_move(state, count, draw).program_lastmove,
        state.pebbles_remaining == count ==> after_user_move(state, count, draw).winner == Some(
            Player::User,
        ) && after_user_move(state, count, draw).program_lastmove == 0,
        state.pebbles_remaining != count ==> after_user_move(state, count, draw).program_lastmove >= 1
            && after_user_move(state, count, draw).winner == if after_user_move(
            state,
            count,
            draw,
        ).pebbles_remaining == 0 {
            Some(Player::Program)
        } else {
            None
        },
        after_user_move(state, count, draw).pebbles_count == state.pebbles_count,
        after_user_move(state, count, draw).max_pebbles_per_turn == state.max_pebbles_per_turn,
        after_user_move(state, count, draw).difficulty == state.difficulty,
        after_user_move(state, count, draw).first_player == state.first_player,
{
    if state.pebbles_remaining != count {
        let reduced = GameState { pebbles_remaining: (state.pebbles_remaining - count) as u32, ..state };
        lemma_program_move(reduced, draw);
    }
}

/// A game started on a configuration that is in order has that
/// configuration, is within the rules, and has lost from its pile exactly the
/// opponent's opening move, if the opponent is first. It is still in progress
/// if the human is first or the pile exceeds the turn limit.
pub proof fn lemma_started_game(
    difficulty: DifficultyLevel,
    pebbles_count: u32,
    max_pebbles_per_turn: u32,
    first_draw: u32,
    turn_draw: u32,
)
    requires
        config_ok(pebbles_count, max_pebbles_per_turn),
    ensures
        ({
            let game = started_game(difficulty, pebbles_count, max_pebbles_per_turn, first_draw, turn_draw);
            &&& valid(game)
            &&& game.pebbles_count == pebbles_count
            &&& game.max_pebbles_per_turn == max_pebbles_per_turn
            &&& game.difficulty == difficulty
            &&& game.first_player == first_player_for(first_draw)
            &&& game.pebbles_remaining == pebbles_count - game.program_lastmove
            &&& game.first_player == Player::User ==> game.program_lastmove == 0
            &&& game.first_player == Player::Program ==> game.program_lastmove >= 1
            &&& game.first_player == Player::User || pebbles_count > max_pebbles_per_turn
                ==> game.winner is None
        }),
{
    if first_player_for(first_draw) == Player::Program {
        lemma_turn_is_legal(difficulty, pebbles_count, max_pebbles_per_turn, turn_draw);
    }
}

/// A command that is not rejected takes a game within the rules to a game
/// within the rules. A move, by either side, leaves fewer pebbles than
/// before and keeps pile size, turn limit, difficulty and first player.
pub proof fn lemma_successor_is_valid(state: GameState, action: PebblesAction, first_draw: u32, turn_draw: u32)
    requires
        valid(state),
        rejection(state, action) is None,
    ensures
        valid(successor(state, action, first_draw, turn_draw)),
        !(action is Restart) ==> {
            let next = successor(state, action, first_draw, turn_draw);
            &&& next.pebbles_remaining < state.pebbles_remaining
            &&& next.pebbles_count == state.pebbles_count
            &&& next.max_pebbles_per_turn == state.max_pebbles_per_turn
            &&& next.difficulty == state.difficulty
            &&& next.first_player == state.first_player
        },
{
    match action {
        PebblesAction::Turn(count) => {
            lemma_user_move(state, count, turn_draw);
        },
        PebblesAction::GiveUp => {
            lemma_program_move(state, turn_draw);
        },
        PebblesAction::Restart { difficulty, pebbles_count, max_pebbles_per_turn } => {
            lemma_started_game(difficulty, pebbles_count, max_pebbles_per_turn, first_draw, turn_draw);
        },
    }
}

/// A draw for the opponent's move that the command does not consult has no
/// influence on the successor.
pub proof fn lemma_unconsulted_draw(
    state: GameState,
    action: PebblesAction,
    first_draw: u32,
    turn_draw: u32,
    other_draw: u32,
)
    requires
        rejection(state, action) is None,
        !consults_turn_draw(state, action, first_draw),
    ensures
        successor(state, action, first_draw, turn_draw) == successor(
            state,
            action,
            first_draw,
            other_draw,
        ),
{
    match action {
        PebblesAction::Turn(count) => {
            if state.pebbles_remaining != count {
                lemma_forced_turn_ignores_draw(
                    state.difficulty,
                    (state.pebbles_remaining - count) as u32,
                    state.max_pebbles_per_turn,
                    turn_draw,
                    other_draw,
                );
            }
        },
        PebblesAction::GiveUp => {
            lemma_forced_turn_ignores_draw(
                state.difficulty,
                state.pebbles_remaining,
                state.max_pebbles_per_turn,
                turn_draw,
                other_draw,
            );
        },
        PebblesAction::Restart { difficulty, pebbles_count, max_pebbles_per_turn } => {
            if first_player_for(first_draw) == Player::Program {
                lemma_forced_turn_ignores_draw(
                    difficulty,
                    pebbles_count,
                    max_pebbles_per_turn,
                    turn_draw,
                    other_draw,
                );
            }
        },
    }
}

/// A count of zero, or one above the turn limit, is rejected as an illegal
/// move whatever the state of the game.
pub proof fn lemma_count_out_of_range_is_rejected(state: GameState, count: u32)
    requires
        count == 0 || count > state.max_pebbles_per_turn,
    ensures
        rejection(state, PebblesAction::Turn(count)) == Some(GameError::IllegalMove),
{
}

/// Once a game within the rules is finished, every command but a restart is
/// rejected.
pub proof fn lemma_finished_game_only_restarts(state: GameState, action: PebblesAction)
    requires
        valid(state),
        state.winner is Some,
        !(action is Restart),
    ensures
        rejection(state, action) is Some,
{
}

} // verus!
