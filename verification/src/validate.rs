//! Validation of the parameters of a new game.

use crate::types::{DifficultyLevel, SetupError};
use vstd::prelude::*;

verus! {

/// A pile of `pebbles_count` pebbles can be played with up to
/// `max_pebbles_per_turn` taken per turn: the bound is at least one and
/// below the size of the pile, so no single move can empty a fresh pile.
pub open spec fn valid_setup(pebbles_count: nat, max_pebbles_per_turn: nat) -> bool {
    1 <= max_pebbles_per_turn < pebbles_count
}

/// The verdict on the parameters of a new game. The pile is judged first,
/// then the turn bound, then the difficulty.
pub open spec fn setup_verdict(
    pebbles_count: nat,
    max_pebbles_per_turn: nat,
    difficulty: DifficultyLevel,
) -> Result<(), SetupError> {
    if pebbles_count < 1 {
        Err(SetupError::InvalidPileSize)
    } else if max_pebbles_per_turn < 1 || max_pebbles_per_turn >= pebbles_count {
        Err(SetupError::InvalidTurnBound)
    } else if !(difficulty is Easy || difficulty is Hard) {
        Err(SetupError::InvalidDifficulty)
    } else {
        Ok(())
    }
}

/// The verdict is favourable exactly on valid setups, and never blames the
/// difficulty: every value of `DifficultyLevel` is a recognized one.
pub proof fn lemma_setup_verdict(
    pebbles_count: nat,
    max_pebbles_per_turn: nat,
    difficulty: DifficultyLevel,
)
    ensures
        setup_verdict(pebbles_count, max_pebbles_per_turn, difficulty) is Ok <==> valid_setup(
            pebbles_count,
            max_pebbles_per_turn,
        ),
        setup_verdict(pebbles_count, max_pebbles_per_turn, difficulty) != Err::<(), SetupError>(
            SetupError::InvalidDifficulty,
        ),
{
}

/// Whether the difficulty is one of the two recognized levels.
pub fn check_difficulty_level(init_msg_difficulty: DifficultyLevel) -> (ok: bool)
    ensures
        ok == (init_msg_difficulty is Easy || init_msg_difficulty is Hard),
        ok,
{
    match init_msg_difficulty {
        DifficultyLevel::Easy => true,
        DifficultyLevel::Hard => true,
    }
}

/// Whether the pile and the turn bound make a playable game.
pub fn check_pebbles_input(init_msg_pebbles_count: u32, init_msg_max_pebbles_per_turn: u32) -> (ok:
    bool)
    ensures
        ok == valid_setup(init_msg_pebbles_count as nat, init_msg_max_pebbles_per_turn as nat),
{
    if init_msg_pebbles_count < 1 || init_msg_max_pebbles_per_turn < 1
        || init_msg_max_pebbles_per_turn >= init_msg_pebbles_count {
        return false;
    }
    true
}

/// Judges the parameters of a new game and names the first fault found.
pub fn validate_setup(
    pebbles_count: u32,
    max_pebbles_per_turn: u32,
    difficulty: DifficultyLevel,
) -> (verdict: Result<(), SetupError>)
    ensures
        verdict == setup_verdict(pebbles_count as nat, max_pebbles_per_turn as nat, difficulty),
        verdict is Ok <==> valid_setup(pebbles_count as nat, max_pebbles_per_turn as nat),
{
    if pebbles_count < 1 {
        return Err(SetupError::InvalidPileSize);
    }
    if !check_pebbles_input(pebbles_count, max_pebbles_per_turn) {
        return Err(SetupError::InvalidTurnBound);
    }
    if !check_difficulty_level(difficulty) {
        return Err(SetupError::InvalidDifficulty);
    }
    Ok(())
}

} // verus!
