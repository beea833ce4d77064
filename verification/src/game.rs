//! The game itself: a state that only the rules can change.

use vstd::prelude::*;
use crate::engine::{draw_for_turn, turn_for_draw};
use crate::random::get_random_u32;
use crate::io::{DifficultyLevel, GameError, GameState, PebblesAction, PebblesEvent, PebblesInit, Player};
use crate::rules::{
    after_first_play, after_program_move, after_user_move, config_ok, consults_turn_draw, fresh_game,
    legal_user_move, lemma_program_move, lemma_started_game, lemma_unconsulted_draw,
    lemma_user_move, rejection, reply_for, started_game, successor, valid,
};

verus! {

/// A game in progress or finished.
///
/// Its fields are private, and every value of the type satisfies
/// [`valid`]: the view of a game is a snapshot that the rules can reach.
#[derive(Clone, Copy, Debug)]
pub struct PebbleGame {
    pebbles_count: u32,
    max_pebbles_per_turn: u32,
    pebbles_remaining: u32,
    program_lastmove: u32,
    difficulty: DifficultyLevel,
    first_player: Player,
    winner: Option<Player>,
}

impl View for PebbleGame {
    type V = GameState;

    closed spec fn view(&self) -> GameState {
        GameState {
            pebbles_count: self.pebbles_count,
            max_pebbles_per_turn: self.max_pebbles_per_turn,
            pebbles_remaining: self.pebbles_remaining,
            program_lastmove: self.program_lastmove,
            difficulty: self.difficulty,
            first_player: self.first_player,
            winner: self.winner,
        }
    }
}

impl PebbleGame {
    #[verifier::type_invariant]
    spec fn well_formed(self) -> bool {
        valid(self@)
    }

    /// A snapshot of the game. The game is left as it is.
    pub fn state(&self) -> (snapshot: GameState)
        ensures
            snapshot == self@,
            valid(snapshot),
    {
        proof {
            use_type_invariant(self);
        }
        GameState {
            pebbles_count: self.pebbles_count,
            max_pebbles_per_turn: self.max_pebbles_per_turn,
            pebbles_remaining: self.pebbles_remaining,
            program_lastmove: self.program_lastmove,
            difficulty: self.difficulty,
            first_player: self.first_player,
            winner: self.winner,
        }
    }

    /// The opponent moves on the pile as it stands, with its move for `draw`.
    ///
    /// On an empty pile there is no move to make: the command is rejected
    /// with [`GameError::GameAlreadyFinished`]. Otherwise the opponent removes
    /// at least one pebble, records the count as its latest move, and is the
    /// winner if it has emptied the pile.
    pub fn program_move(&mut self, draw: u32) -> (result: Result<PebblesEvent, GameError>)
        ensures
            valid(final(self)@),
            old(self)@.pebbles_remaining == 0 ==> result == Err::<PebblesEvent, GameError>(
                GameError::GameAlreadyFinished,
            ) && final(self)@ == old(self)@,
            old(self)@.pebbles_remaining != 0 ==> final(self)@ == after_program_move(old(self)@, draw)
                && result == Ok::<PebblesEvent, GameError>(reply_for(final(self)@)),
            result is Ok ==> final(self)@.program_lastmove >= 1 && final(self)@.pebbles_remaining == old(
                self,
            )@.pebbles_remaining - final(self)@.program_lastmove,
            result is Ok && final(self)@.pebbles_remaining == 0 ==> final(self)@.winner == Some(
                Player::Program,
            ) && result == Ok::<PebblesEvent, GameError>(PebblesEvent::Won(Player::Program)),
    {
        proof {
            use_type_invariant(&*self);
            if self@.pebbles_remaining != 0 {
                lemma_program_move(self@, draw);
            }
        }
        if self.pebbles_remaining == 0 {
            return Err(GameError::GameAlreadyFinished);
        }
        let count = turn_for_draw(self.difficulty, self.pebbles_remaining, self.max_pebbles_per_turn, draw);
        let left = self.pebbles_remaining - count;
        if left == 0 {
            *self = PebbleGame {
                pebbles_remaining: 0,
                program_lastmove: count,
                winner: Some(Player::Program),
                ..*self
            };
            return Ok(PebblesEvent::Won(Player::Program));
        }
        *self = PebbleGame { pebbles_remaining: left, program_lastmove: count, winner: None, ..*self };
        Ok(PebblesEvent::CounterTurn(count))
    }

    /// The human removes `count` pebbles and, unless that empties the pile,
    /// the opponent answers with its move for `draw`.
    ///
    /// A count of zero, above the turn limit or above what is left is
    /// rejected with [`GameError::IllegalMove`], and the game stays as it
    /// was. If the human empties the pile, the human is the winner and the
    /// opponent's latest move is cleared.
    pub fn user_move(&mut self, count: u32, draw: u32) -> (result: Result<PebblesEvent, GameError>)
        ensures
            valid(final(self)@),
            !legal_user_move(old(self)@, count) ==> result == Err::<PebblesEvent, GameError>(
                GameError::IllegalMove,
            ) && final(self)@ == old(self)@,
            legal_user_move(old(self)@, count) ==> final(self)@ == after_user_move(old(self)@, count, draw)
                && result == Ok::<PebblesEvent, GameError>(reply_for(final(self)@)),
            count == 0 || count > old(self)@.max_pebbles_per_turn ==> result == Err::<
                PebblesEvent,
                GameError,
            >(GameError::IllegalMove) && final(self)@.pebbles_remaining == old(self)@.pebbles_remaining,
            result is Ok ==> count >= 1 && final(self)@.pebbles_remaining == old(self)@.pebbles_remaining
                - count - final(self)@.program_lastmove,
            result is Ok && old(self)@.pebbles_remaining == count ==> final(self)@.winner == Some(
                Player::User,
            ) && result == Ok::<PebblesEvent, GameError>(PebblesEvent::Won(Player::User)),
            result is Ok && old(self)@.pebbles_remaining != count ==> final(self)@.program_lastmove >= 1,
            result is Ok && old(self)@.pebbles_remaining != count && final(self)@.pebbles_remaining == 0
                ==> final(self)@.winner == Some(Player::Program) && result == Ok::<
                PebblesEvent,
                GameError,
            >(PebblesEvent::Won(Player::Program)),
    {
        proof {
            use_type_invariant(&*self);
            if legal_user_move(self@, count) {
                lemma_user_move(self@, count, draw);
            }
        }
        if count < 1 || count > self.max_pebbles_per_turn || count > self.pebbles_remaining {
            return Err(GameError::IllegalMove);
        }
        let left = self.pebbles_remaining - count;
        if left == 0 {
            *self = PebbleGame {
                pebbles_remaining: 0,
                program_lastmove: 0,
                winner: Some(Player::User),
                ..*self
            };
            return Ok(PebblesEvent::Won(Player::User));
        }
        *self = PebbleGame { pebbles_remaining: left, ..*self };
        self.program_move(draw)
    }

    /// Draws the first player of a game in which nobody has moved: the human
    /// on an even `first_draw`, the opponent on an odd one. The opponent, if
    /// first, makes its move for `turn_draw` at once.
    fn first_play(&mut self, first_draw: u32, turn_draw: u32) -> (event: PebblesEvent)
        requires
            old(self)@ == fresh_game(
                old(self)@.difficulty,
                old(self)@.pebbles_count,
                old(self)@.max_pebbles_per_turn,
            ),
        ensures
            final(self)@ == after_first_play(old(self)@, first_draw, turn_draw),
            event == reply_for(final(self)@),
    {
        proof {
            use_type_invariant(&*self);
        }
        if first_draw % 2 == 0 {
            *self = PebbleGame { first_player: Player::User, ..*self };
            PebblesEvent::CounterTurn(0)
        } else {
            let moved = self.program_move(turn_draw);
            *self = PebbleGame { first_player: Player::Program, ..*self };
            moved.unwrap()
        }
    }

    /// Starts a game on `config`, with `first_draw` for the first player and
    /// `turn_draw` for the opponent's opening move, if it has one.
    ///
    /// The configuration is in order if and only if the turn limit is at
    /// least one and at most the pile; any other is rejected with
    /// [`GameError::InvalidConfig`].
    pub fn init_with_draws(config: PebblesInit, first_draw: u32, turn_draw: u32) -> (result: Result<
        (PebbleGame, PebblesEvent),
        GameError,
    >)
        ensures
            result is Ok <==> config_ok(config.pebbles_count, config.max_pebbles_per_turn),
            result matches Err(fault) ==> fault == GameError::InvalidConfig,
            result matches Ok((game, event)) ==> {
                &&& game@ == started_game(
                    config.difficulty,
                    config.pebbles_count,
                    config.max_pebbles_per_turn,
                    first_draw,
                    turn_draw,
                )
                &&& event == reply_for(game@)
                &&& valid(game@)
                &&& game@.pebbles_count == config.pebbles_count
                &&& game@.max_pebbles_per_turn == config.max_pebbles_per_turn
                &&& game@.difficulty == config.difficulty
                &&& game@.pebbles_remaining == config.pebbles_count - game@.program_lastmove
                &&& game@.first_player == Player::User ==> game@.program_lastmove == 0
                &&& game@.first_player == Player::Program ==> game@.program_lastmove >= 1
                &&& game@.first_player == Player::User || config.pebbles_count
                    > config.max_pebbles_per_turn ==> game@.winner is None
            },
    {
        if config.max_pebbles_per_turn < 1 || config.max_pebbles_per_turn > config.pebbles_count {
            return Err(GameError::InvalidConfig);
        }
        proof {
            lemma_started_game(
                config.difficulty,
                config.pebbles_count,
                config.max_pebbles_per_turn,
                first_draw,
                turn_draw,
            );
        }
        let mut game = PebbleGame {
            pebbles_count: config.pebbles_count,
            max_pebbles_per_turn: config.max_pebbles_per_turn,
            pebbles_remaining: config.pebbles_count,
            program_lastmove: 0,
            difficulty: config.difficulty,
            first_player: Player::User,
            winner: None,
        };
        let event = game.first_play(first_draw, turn_draw);
        Ok((game, event))
    }

    /// Replaces the game by a new one, as [`PebbleGame::init_with_draws`]
    /// starts it. A configuration that is not in order is rejected, and the
    /// game in hand stays as it was.
    pub fn restart(
        &mut self,
        difficulty: DifficultyLevel,
        pebbles_count: u32,
        max_pebbles_per_turn: u32,
        first_draw: u32,
        turn_draw: u32,
    ) -> (result: Result<PebblesEvent, GameError>)
        ensures
            valid(final(self)@),
            result is Ok <==> config_ok(pebbles_count, max_pebbles_per_turn),
            result matches Err(fault) ==> fault == GameError::InvalidConfig && final(self)@ == old(self)@,
            result matches Ok(event) ==> {
                &&& final(self)@ == started_game(
                    difficulty,
                    pebbles_count,
                    max_pebbles_per_turn,
                    first_draw,
                    turn_draw,
                )
                &&& event == reply_for(final(self)@)
                &&& final(self)@.pebbles_count == pebbles_count
                &&& final(self)@.max_pebbles_per_turn == max_pebbles_per_turn
                &&& final(self)@.difficulty == difficulty
                &&& final(self)@.pebbles_remaining == pebbles_count - final(self)@.program_lastmove
                &&& final(self)@.first_player == Player::User ==> final(self)@.program_lastmove == 0
                &&& final(self)@.first_player == Player::Program ==> final(self)@.program_lastmove >= 1
                &&& final(self)@.first_player == Player::User || pebbles_count > max_pebbles_per_turn
                    ==> final(self)@.winner is None
            },
    {
        proof {
            use_type_invariant(&*self);
        }
        let config = PebblesInit { difficulty, pebbles_count, max_pebbles_per_turn };
        match PebbleGame::init_with_draws(config, first_draw, turn_draw) {
            Ok((game, event)) => {
                *self = game;
                Ok(event)
            },
            Err(fault) => Err(fault),
        }
    }

    /// Carries out one command, with `first_draw` for the first player of a
    /// restarted game and `turn_draw` for the opponent's move.
    ///
    /// A rejected command leaves the game as it was. One that succeeds takes
    /// it to its successor and replies with the winner, if there is one by
    /// then, and else with the opponent's move.
    pub fn handle_with_draws(&mut self, action: PebblesAction, first_draw: u32, turn_draw: u32) -> (result:
        Result<PebblesEvent, GameError>)
        ensures
            valid(final(self)@),
            rejection(old(self)@, action) matches Some(fault) ==> result == Err::<PebblesEvent, GameError>(
                fault,
            ) && final(self)@ == old(self)@,
            rejection(old(self)@, action) is None ==> final(self)@ == successor(
                old(self)@,
                action,
                first_draw,
                turn_draw,
            ) && result == Ok::<PebblesEvent, GameError>(reply_for(final(self)@)),
    {
        match action {
            PebblesAction::Turn(count) => self.user_move(count, turn_draw),
            PebblesAction::GiveUp => self.program_move(turn_draw),
            PebblesAction::Restart { difficulty, pebbles_count, max_pebbles_per_turn } => self.restart(
                difficulty,
                pebbles_count,
                max_pebbles_per_turn,
                first_draw,
                turn_draw,
            ),
        }
    }

    /// Starts a game on `config`, drawing the first player, and the
    /// opponent's opening move where it is first and its move is left to
    /// chance, from the operating system.
    ///
    /// A configuration that is not in order is rejected before any draw. On
    /// one that is in order the result is the game for some pair of draws,
    /// or the fault of the random source.
    pub fn init(config: PebblesInit) -> (result: Result<(PebbleGame, PebblesEvent), GameError>)
        ensures
            !config_ok(config.pebbles_count, config.max_pebbles_per_turn) ==> result == Err::<
                (PebbleGame, PebblesEvent),
                GameError,
            >(GameError::InvalidConfig),
            result matches Err(fault) ==> fault == GameError::InvalidConfig && !config_ok(
                config.pebbles_count,
                config.max_pebbles_per_turn,
            ) || fault == GameError::RandomSourceFailed && config_ok(
                config.pebbles_count,
                config.max_pebbles_per_turn,
            ),
            result matches Ok((game, event)) ==> {
                &&& config_ok(config.pebbles_count, config.max_pebbles_per_turn)
                &&& exists|first_draw: u32, turn_draw: u32|
                    game@ == #[trigger] started_game(
                        config.difficulty,
                        config.pebbles_count,
                        config.max_pebbles_per_turn,
                        first_draw,
                        turn_draw,
                    )
                &&& event == reply_for(game@)
                &&& valid(game@)
                &&& game@.pebbles_count == config.pebbles_count
                &&& game@.max_pebbles_per_turn == config.max_pebbles_per_turn
                &&& game@.difficulty == config.difficulty
                &&& game@.pebbles_remaining == config.pebbles_count - game@.program_lastmove
                &&& game@.first_player == Player::User ==> game@.program_lastmove == 0
                &&& game@.first_player == Player::Program ==> game@.program_lastmove >= 1
                &&& game@.first_player == Player::User || config.pebbles_count
                    > config.max_pebbles_per_turn ==> game@.winner is None
            },
    {
        if config.max_pebbles_per_turn < 1 || config.max_pebbles_per_turn > config.pebbles_count {
            return Err(GameError::InvalidConfig);
        }
        let first_draw = match get_random_u32() {
            Ok(draw) => draw,
            Err(fault) => {
                return Err(fault);
            },
        };
        let turn_draw = if first_draw % 2 == 0 {
            0
        } else {
            match draw_for_turn(config.difficulty, config.pebbles_count, config.max_pebbles_per_turn) {
                Ok(draw) => draw,
                Err(fault) => {
                    return Err(fault);
                },
            }
        };
        PebbleGame::init_with_draws(config, first_draw, turn_draw)
    }

    /// Carries out one command, drawing from the operating system what the
    /// command consults: the first player of a restarted game, and the
    /// opponent's move where it is left to chance.
    ///
    /// A command that the rules reject is rejected before any draw, and one
    /// that consults no draw cannot fail on the random source. Otherwise the
    /// game goes to its successor for some pair of draws, or stays as it was
    /// with the fault of the random source.
    pub fn handle(&mut self, action: PebblesAction) -> (result: Result<PebblesEvent, GameError>)
        ensures
            valid(final(self)@),
            rejection(old(self)@, action) matches Some(fault) ==> result == Err::<PebblesEvent, GameError>(
                fault,
            ) && final(self)@ == old(self)@,
            rejection(old(self)@, action) is None && !(action is Restart) && !consults_turn_draw(
                old(self)@,
                action,
                0,
            ) ==> final(self)@ == successor(old(self)@, action, 0, 0) && result == Ok::<
                PebblesEvent,
                GameError,
            >(reply_for(final(self)@)),
            result matches Ok(event) ==> {
                &&& rejection(old(self)@, action) is None
                &&& exists|first_draw: u32, turn_draw: u32|
                    final(self)@ == #[trigger] successor(old(self)@, action, first_draw, turn_draw)
                &&& event == reply_for(final(self)@)
            },
            result matches Err(fault) ==> {
                &&& final(self)@ == old(self)@
                &&& rejection(old(self)@, action) == Some(fault) || fault
                    == GameError::RandomSourceFailed && rejection(old(self)@, action) is None
            },
    {
        proof {
            use_type_invariant(&*self);
        }
        match action {
            PebblesAction::Turn(count) => {
                if count < 1 || count > self.max_pebbles_per_turn || count > self.pebbles_remaining {
                    return Err(GameError::IllegalMove);
                }
                let left = self.pebbles_remaining - count;
                let draw = if left == 0 {
                    0
                } else {
                    match draw_for_turn(self.difficulty, left, self.max_pebbles_per_turn) {
                        Ok(draw) => draw,
                        Err(fault) => {
                            return Err(fault);
                        },
                    }
                };
                proof {
                    if !consults_turn_draw(self@, action, 0) {
                        lemma_unconsulted_draw(self@, action, 0, draw, 0);
                    }
                    // the witness: the first draw has no part in a move
                    assert(successor(self@, action, 0, draw) == after_user_move(self@, count, draw));
                }
                self.user_move(count, draw)
            },
            PebblesAction::GiveUp => {
                if self.pebbles_remaining == 0 {
                    return Err(GameError::GameAlreadyFinished);
                }
                let draw = match draw_for_turn(
                    self.difficulty,
                    self.pebbles_remaining,
                    self.max_pebbles_per_turn,
                ) {
                    Ok(draw) => draw,
                    Err(fault) => {
                        return Err(fault);
                    },
                };
                proof {
                    if !consults_turn_draw(self@, action, 0) {
                        lemma_unconsulted_draw(self@, action, 0, draw, 0);
                    }
                    // the witness: the first draw has no part in a move
                    assert(successor(self@, action, 0, draw) == after_program_move(self@, draw));
                }
                self.program_move(draw)
            },
            PebblesAction::Restart { difficulty, pebbles_count, max_pebbles_per_turn } => {
                let config = PebblesInit { difficulty, pebbles_count, max_pebbles_per_turn };
                match PebbleGame::init(config) {
                    Ok((game, event)) => {
                        proof {
                            let (first_draw, turn_draw) = choose|first_draw: u32, turn_draw: u32|
                                game@ == #[trigger] started_game(
                                    difficulty,
                                    pebbles_count,
                                    max_pebbles_per_turn,
                                    first_draw,
                                    turn_draw,
                                );
                            assert(game@ == successor(self@, action, first_draw, turn_draw));
                        }
                        *self = game;
                        Ok(event)
                    },
                    Err(fault) => Err(fault),
                }
            },
        }
    }
}

impl From<PebbleGame> for GameState {
    /// The snapshot of a game.
    fn from(value: PebbleGame) -> (snapshot: GameState) {
        value.state()
    }
}

impl vstd::std_specs::convert::FromSpecImpl<PebbleGame> for GameState {
    open spec fn obeys_from_spec() -> bool {
        true
    }

    open spec fn from_spec(value: PebbleGame) -> GameState {
        value@
    }
}

} // verus!
