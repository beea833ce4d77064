//! The opponent's move selection.
//!
//! A move is a function of the difficulty, the pile, the turn limit and, where
//! the strategy calls for chance, one random draw. [`turn_for`] is that
//! function; [`forced_turn`] is its part that needs no draw.

use vstd::prelude::*;
use crate::io::{DifficultyLevel, GameError};
use crate::random::get_random_u32;

verus! {

/// The move that the pile, the limit and the difficulty fix on their own, if
/// they do.
///
/// With fewer pebbles left than the limit the opponent takes all of them. With
/// a limit of one it takes one. On `Hard` it takes `remaining` modulo
/// `max_per_turn + 1` where that is not zero, which leaves the human a
/// multiple of `max_per_turn + 1`. Otherwise the move is left to chance.
pub open spec fn forced_turn(difficulty: DifficultyLevel, remaining: u32, max_per_turn: u32) -> Option<
    u32,
> {
    if remaining < max_per_turn {
        Some(remaining)
    } else if max_per_turn == 1 {
        Some(1u32)
    } else if difficulty == DifficultyLevel::Hard && remaining as int % (max_per_turn + 1) != 0 {
        Some((remaining as int % (max_per_turn + 1)) as u32)
    } else {
        None
    }
}

/// The move that a draw stands for: the draw modulo the limit, plus one.
pub open spec fn drawn_turn(draw: u32, max_per_turn: u32) -> u32 {
    (draw as int % max_per_turn as int + 1) as u32
}

/// The opponent's move for a given draw.
pub open spec fn turn_for(difficulty: DifficultyLevel, remaining: u32, max_per_turn: u32, draw: u32) -> u32 {
    match forced_turn(difficulty, remaining, max_per_turn) {
        Some(count) => count,
        None => drawn_turn(draw, max_per_turn),
    }
}

/// Whether the opponent's move depends on a draw.
pub open spec fn turn_needs_draw(difficulty: DifficultyLevel, remaining: u32, max_per_turn: u32) -> bool {
    forced_turn(difficulty, remaining, max_per_turn) is None
}

/// On a pile that is not empty the opponent's move is legal: at least one
/// pebble, at most the turn limit, and at most what is left.
pub proof fn lemma_turn_is_legal(difficulty: DifficultyLevel, remaining: u32, max_per_turn: u32, draw: u32)
    requires
        remaining >= 1,
        max_per_turn >= 1,
    ensures
        1 <= turn_for(difficulty, remaining, max_per_turn, draw) <= max_per_turn,
        turn_for(difficulty, remaining, max_per_turn, draw) <= remaining,
{
    let m = max_per_turn as int;
    let r = remaining as int;
    assert(0 <= draw as int % m < m) by (nonlinear_arith)
        requires
            m >= 1,
            draw >= 0,
    ;
    assert(0 <= r % (m + 1) < m + 1) by (nonlinear_arith)
        requires
            m >= 1,
            r >= 0,
    ;
}

/// Where no draw is needed, no draw has any influence on the move.
pub proof fn lemma_forced_turn_ignores_draw(
    difficulty: DifficultyLevel,
    remaining: u32,
    max_per_turn: u32,
    draw: u32,
    other: u32,
)
    requires
        !turn_needs_draw(difficulty, remaining, max_per_turn),
    ensures
        turn_for(difficulty, remaining, max_per_turn, draw) == turn_for(
            difficulty,
            remaining,
            max_per_turn,
            other,
        ),
{
}

/// On `Hard`, from a pile that is no multiple of `max_per_turn + 1`, the
/// opponent's move leaves the human a multiple of `max_per_turn + 1`.
pub proof fn lemma_hard_turn_leaves_multiple(remaining: u32, max_per_turn: u32, draw: u32)
    requires
        max_per_turn >= 1,
        remaining as int % (max_per_turn + 1) != 0,
    ensures
        (remaining - turn_for(DifficultyLevel::Hard, remaining, max_per_turn, draw)) % (max_per_turn + 1)
            == 0,
{
    let m = max_per_turn as int + 1;
    let r = remaining as int;
    assert(0 <= r % m < m && (r - r % m) % m == 0 && 0int % m == 0) by (nonlinear_arith)
        requires
            m >= 2,
            r >= 0,
    ;
}

/// Computes [`forced_turn`].
fn find_forced_turn(difficulty: DifficultyLevel, remaining: u32, max_per_turn: u32) -> (forced: Option<u32>)
    ensures
        forced == forced_turn(difficulty, remaining, max_per_turn),
{
    if remaining < max_per_turn {
        return Some(remaining);
    }
    if max_per_turn == 1 {
        return Some(1);
    }
    match difficulty {
        DifficultyLevel::Easy => None,
        DifficultyLevel::Hard => {
            let modulus: u64 = max_per_turn as u64 + 1;
            let rest: u64 = remaining as u64 % modulus;
            if rest != 0 {
                Some(rest as u32)
            } else {
                None
            }
        },
    }
}

/// The opponent's move for a draw that the caller supplies.
pub fn turn_for_draw(difficulty: DifficultyLevel, remaining: u32, max_per_turn: u32, draw: u32) -> (count: u32)
    requires
        max_per_turn >= 1,
    ensures
        count == turn_for(difficulty, remaining, max_per_turn, draw),
        remaining >= 1 ==> 1 <= count <= max_per_turn && count <= remaining,
{
    proof {
        if remaining >= 1 {
            lemma_turn_is_legal(difficulty, remaining, max_per_turn, draw);
        }
    }
    match find_forced_turn(difficulty, remaining, max_per_turn) {
        Some(count) => count,
        None => draw % max_per_turn + 1,
    }
}

/// A draw for the opponent's move on this pile: one from the operating
/// system where the move is left to chance, and zero, which the move ignores,
/// where it is forced.
///
/// No draw is made, and nothing can fail, where the move is forced.
pub(crate) fn draw_for_turn(difficulty: DifficultyLevel, remaining: u32, max_per_turn: u32) -> (result: Result<
    u32,
    GameError,
>)
    ensures
        !turn_needs_draw(difficulty, remaining, max_per_turn) ==> result == Ok::<u32, GameError>(0),
        result matches Err(fault) ==> fault == GameError::RandomSourceFailed && turn_needs_draw(
            difficulty,
            remaining,
            max_per_turn,
        ),
{
    match find_forced_turn(difficulty, remaining, max_per_turn) {
        Some(_) => Ok(0),
        None => get_random_u32(),
    }
}

/// The opponent's move, with a draw from the operating system where the
/// strategy calls for one.
///
/// Where the move is forced it is returned and no draw is made. Otherwise the
/// result is the move for some draw, or the fault of the random source.
pub fn program_turn_gen(difficulty: DifficultyLevel, remaining: u32, max_per_turn: u32) -> (result: Result<
    u32,
    GameError,
>)
    requires
        max_per_turn >= 1,
    ensures
        forced_turn(difficulty, remaining, max_per_turn) matches Some(count) ==> result == Ok::<
            u32,
            GameError,
        >(count),
        result matches Ok(count) ==> exists|draw: u32|
            count == #[trigger] turn_for(difficulty, remaining, max_per_turn, draw),
        result matches Ok(count) ==> (remaining >= 1 ==> 1 <= count <= max_per_turn && count <= remaining),
        result matches Err(fault) ==> fault == GameError::RandomSourceFailed && turn_needs_draw(
            difficulty,
            remaining,
            max_per_turn,
        ),
{
    match draw_for_turn(difficulty, remaining, max_per_turn) {
        Ok(draw) => Ok(turn_for_draw(difficulty, remaining, max_per_turn, draw)),
        Err(fault) => Err(fault),
    }
}

} // verus!
