//! The opponent's move selection on chosen piles, limits and draws.

use pebbles_game::{program_turn_gen, turn_for_draw, DifficultyLevel};

#[test]
fn hard_takes_the_remainder() {
    for draw in [0u32, 1, 7, u32::MAX] {
        assert_eq!(turn_for_draw(DifficultyLevel::Hard, 9, 5, draw), 3);
        assert_eq!(turn_for_draw(DifficultyLevel::Hard, 11, 5, draw), 5);
        assert_eq!(turn_for_draw(DifficultyLevel::Hard, 13, 5, draw), 1);
    }
    assert_eq!(program_turn_gen(DifficultyLevel::Hard, 9, 5), Ok(3));
    assert_eq!(program_turn_gen(DifficultyLevel::Hard, 11, 5), Ok(5));
    assert_eq!(program_turn_gen(DifficultyLevel::Hard, 13, 5), Ok(1));
}

#[test]
fn hard_on_a_multiple_falls_back_to_the_draw() {
    // six modulo six is zero: the move is the draw modulo five, plus one
    assert_eq!(turn_for_draw(DifficultyLevel::Hard, 6, 5, 0), 1);
    assert_eq!(turn_for_draw(DifficultyLevel::Hard, 6, 5, 4), 5);
    assert_eq!(turn_for_draw(DifficultyLevel::Hard, 6, 5, 5), 1);
    assert_eq!(turn_for_draw(DifficultyLevel::Hard, 6, 5, 12), 3);
    assert_eq!(turn_for_draw(DifficultyLevel::Hard, 12, 5, u32::MAX), 1);
    for _ in 0..200 {
        let count: u32 = program_turn_gen(DifficultyLevel::Hard, 6, 5).expect("the random source");
        assert!(1 <= count && count <= 5);
    }
}

#[test]
fn easy_takes_the_draw_modulo_the_limit_plus_one() {
    assert_eq!(turn_for_draw(DifficultyLevel::Easy, 9, 5, 0), 1);
    assert_eq!(turn_for_draw(DifficultyLevel::Easy, 9, 5, 3), 4);
    assert_eq!(turn_for_draw(DifficultyLevel::Easy, 9, 5, 4), 5);
    assert_eq!(turn_for_draw(DifficultyLevel::Easy, 9, 5, 12), 3);
    assert_eq!(turn_for_draw(DifficultyLevel::Easy, 100, 10, 4_294_967_295), 6);
    assert_eq!(turn_for_draw(DifficultyLevel::Easy, 5, 5, 9), 5);
}

#[test]
fn fewer_pebbles_than_the_limit_are_all_taken() {
    for difficulty in [DifficultyLevel::Easy, DifficultyLevel::Hard] {
        assert_eq!(turn_for_draw(difficulty, 3, 5, 77), 3);
        assert_eq!(turn_for_draw(difficulty, 1, 2, 77), 1);
        assert_eq!(turn_for_draw(difficulty, 0, 4, 77), 0);
        assert_eq!(turn_for_draw(difficulty, u32::MAX - 1, u32::MAX, 77), u32::MAX - 1);
        assert_eq!(program_turn_gen(difficulty, 3, 5), Ok(3));
        assert_eq!(program_turn_gen(difficulty, 0, 4), Ok(0));
    }
}

#[test]
fn a_limit_of_one_takes_one() {
    for difficulty in [DifficultyLevel::Easy, DifficultyLevel::Hard] {
        for remaining in [1u32, 2, 3, 10, u32::MAX] {
            assert_eq!(turn_for_draw(difficulty, remaining, 1, 123_456), 1);
            assert_eq!(program_turn_gen(difficulty, remaining, 1), Ok(1));
        }
    }
}

#[test]
fn the_largest_pile_and_limit_do_not_overflow() {
    // the modulus is two to the thirty-second: the remainder is the pile
    assert_eq!(turn_for_draw(DifficultyLevel::Hard, u32::MAX, u32::MAX, 5), u32::MAX);
    assert_eq!(program_turn_gen(DifficultyLevel::Hard, u32::MAX, u32::MAX), Ok(u32::MAX));
    assert_eq!(turn_for_draw(DifficultyLevel::Easy, u32::MAX, u32::MAX, u32::MAX), 1);
    assert_eq!(turn_for_draw(DifficultyLevel::Easy, u32::MAX, u32::MAX, u32::MAX - 1), u32::MAX);
    assert_eq!(turn_for_draw(DifficultyLevel::Hard, u32::MAX, u32::MAX - 1, 0), 1);
}

#[test]
fn every_move_is_within_the_bounds() {
    let draws: [u32; 7] = [0, 1, 2, 5, 1000, 0x8000_0000, u32::MAX];
    for difficulty in [DifficultyLevel::Easy, DifficultyLevel::Hard] {
        for remaining in 1u32..=40 {
            for limit in 1u32..=12 {
                for draw in draws {
                    let count: u32 = turn_for_draw(difficulty, remaining, limit, draw);
                    assert!(1 <= count);
                    assert!(count <= limit);
                    assert!(count <= remaining);
                }
                let count: u32 = program_turn_gen(difficulty, remaining, limit).expect("the random source");
                assert!(1 <= count && count <= limit && count <= remaining);
            }
        }
    }
}

#[test]
fn hard_leaves_a_multiple_of_the_limit_plus_one() {
    for remaining in 1u32..=60 {
        for limit in 1u32..=9 {
            if remaining % (limit + 1) != 0 {
                let count: u32 = turn_for_draw(DifficultyLevel::Hard, remaining, limit, 31);
                assert_eq!((remaining - count) % (limit + 1), 0);
            }
        }
    }
}

#[test]
fn a_forced_move_is_the_same_for_every_draw() {
    for remaining in 0u32..=30 {
        for limit in 1u32..=8 {
            let forced: bool = remaining < limit || limit == 1 || remaining % (limit + 1) != 0;
            if forced {
                let count: u32 = turn_for_draw(DifficultyLevel::Hard, remaining, limit, 0);
                for draw in [1u32, 2, 3, 99, u32::MAX] {
                    assert_eq!(turn_for_draw(DifficultyLevel::Hard, remaining, limit, draw), count);
                }
                assert_eq!(program_turn_gen(DifficultyLevel::Hard, remaining, limit), Ok(count));
            }
        }
    }
}
