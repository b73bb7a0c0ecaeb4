//! The vocabulary of the game: who plays, how hard the program plays, what a
//! player may ask for and what the game answers.

use vstd::prelude::*;

verus! {

/// How the program picks its moves.
#[derive(Debug, Clone, Copy, PartialEq, Eq, Structural)]
pub enum DifficultyLevel {
    /// The program takes a random legal number of pebbles.
    Easy,
    /// The program plays the winning strategy of the subtraction game.
    Hard,
}

/// One of the two sides of a game.
#[derive(Debug, Clone, Copy, PartialEq, Eq, Structural)]
pub enum Player {
    User,
    Program,
}

/// What the user may ask of a running game.
#[derive(Debug, Clone, Copy, PartialEq, Eq, Structural)]
pub enum PebblesAction {
    /// Take this many pebbles; more than the turn bound counts as the bound.
    Turn(u32),
    /// Concede the game to the program.
    GiveUp,
    /// Throw the game away and set up a new one.
    Restart { difficulty: DifficultyLevel, pebbles_count: u32, max_pebbles_per_turn: u32 },
}

/// What a turn or a concession ends in.
#[derive(Debug, Clone, Copy, PartialEq, Eq, Structural)]
pub enum PebblesEvent {
    /// The program has moved and this many pebbles are left for the user.
    CounterTurn(u32),
    /// The game is over and this player has won it.
    Won(Player),
}

/// Why a game could not be set up.
#[derive(Debug, Clone, Copy, PartialEq, Eq, Structural)]
pub enum SetupError {
    /// The pile is empty.
    InvalidPileSize,
    /// The turn bound is zero, or not below the size of the pile.
    InvalidTurnBound,
    /// The difficulty is neither easy nor hard.
    InvalidDifficulty,
}

/// Why a request was abandoned. An abandoned request leaves the game as it was.
#[derive(Debug, Clone, Copy, PartialEq, Eq, Structural)]
pub enum GameError {
    /// The parameters of a new game were refused.
    Setup(SetupError),
    /// The host gave no random seed.
    RandomnessUnavailable,
    /// No game has been set up yet.
    NoActiveGame,
}

} // verus!
