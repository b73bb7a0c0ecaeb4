//! The state of one game and its mathematical model.

use crate::types::{DifficultyLevel, PebblesEvent, Player};
use crate::validate::valid_setup;
use vstd::prelude::*;

verus! {

/// The model of a game: the pile as natural numbers, and who plays.
pub struct GameModel {
    /// The size of the pile when the game was set up.
    pub pebbles_count: nat,
    /// The most pebbles a player may take in one turn.
    pub max_pebbles_per_turn: nat,
    /// The pebbles that are still in the pile.
    pub pebbles_remaining: nat,
    pub difficulty: DifficultyLevel,
    pub first_player: Player,
    /// `None` while the game is being played.
    pub winner: Option<Player>,
}

impl GameModel {
    /// The state that stands in for a game before any was set up: no pile,
    /// no turn bound, nobody has won.
    pub open spec fn blank() -> GameModel {
        GameModel {
            pebbles_count: 0,
            max_pebbles_per_turn: 0,
            pebbles_remaining: 0,
            difficulty: DifficultyLevel::Easy,
            first_player: Player::User,
            winner: None,
        }
    }

    /// No pile was ever set up.
    pub open spec fn has_no_pile(self) -> bool {
        self.pebbles_count == 0 && self.max_pebbles_per_turn == 0 && self.pebbles_remaining == 0
    }

    /// The pile was set up within the bounds of a valid setup and has not grown.
    pub open spec fn has_pile(self) -> bool {
        valid_setup(self.pebbles_count, self.max_pebbles_per_turn) && self.pebbles_remaining
            <= self.pebbles_count
    }

    /// What holds of every game state: it has no pile at all, or a pile
    /// within the bounds of its setup. Either way a legal move exists
    /// whenever pebbles remain.
    pub open spec fn wf(self) -> bool {
        self.has_no_pile() || self.has_pile()
    }

    /// Somebody has won exactly if the pile is empty.
    pub open spec fn consistent(self) -> bool {
        self.winner is Some <==> self.pebbles_remaining == 0
    }

    /// The game with `n` pebbles taken from the pile, or all of them where
    /// fewer are left.
    pub open spec fn take(self, n: nat) -> GameModel {
        GameModel {
            pebbles_remaining: if n < self.pebbles_remaining {
                (self.pebbles_remaining - n) as nat
            } else {
                0
            },
            ..self
        }
    }

    /// The game with `player` as its winner.
    pub open spec fn won_by(self, player: Player) -> GameModel {
        GameModel { winner: Some(player), ..self }
    }

    /// A game that was just set up: the pile is whole and nobody has won.
    pub open spec fn fresh(
        difficulty: DifficultyLevel,
        pebbles_count: nat,
        max_pebbles_per_turn: nat,
        first_player: Player,
    ) -> GameModel {
        GameModel {
            pebbles_count,
            max_pebbles_per_turn,
            pebbles_remaining: pebbles_count,
            difficulty,
            first_player,
            winner: None,
        }
    }
}

/// The state of one game. Its fields are read through the methods below;
/// they change only through the moves of the game.
#[derive(Debug, Clone, Copy, PartialEq, Eq)]
pub struct GameState {
    pebbles_count: u32,
    max_pebbles_per_turn: u32,
    pebbles_remaining: u32,
    difficulty: DifficultyLevel,
    first_player: Player,
    winner: Option<Player>,
}

impl View for GameState {
    type V = GameModel;

    closed spec fn view(&self) -> GameModel {
        GameModel {
            pebbles_count: self.pebbles_count as nat,
            max_pebbles_per_turn: self.max_pebbles_per_turn as nat,
            pebbles_remaining: self.pebbles_remaining as nat,
            difficulty: self.difficulty,
            first_player: self.first_player,
            winner: self.winner,
        }
    }
}

impl GameState {
    /// Holds of every game state that exists when the program runs.
    #[verifier::type_invariant]
    pub open spec fn inv(self) -> bool {
        self@.wf()
    }

    /// The counts of a game state fit in 32 bits.
    pub proof fn lemma_counts_fit(self)
        ensures
            self@.pebbles_count <= u32::MAX,
            self@.max_pebbles_per_turn <= u32::MAX,
            self@.pebbles_remaining <= u32::MAX,
    {
    }

    /// Two states with the same model are the same state.
    pub proof fn lemma_view_injective(a: GameState, b: GameState)
        requires
            a@ == b@,
        ensures
            a == b,
    {
    }

    /// The state that stands in for a game before any was set up.
    pub(crate) fn blank() -> (state: GameState)
        ensures
            state@ == GameModel::blank(),
    {
        GameState {
            pebbles_count: 0,
            max_pebbles_per_turn: 0,
            pebbles_remaining: 0,
            difficulty: DifficultyLevel::Easy,
            first_player: Player::User,
            winner: None,
        }
    }

    /// A game that was just set up: the pile is whole and nobody has won.
    pub(crate) fn fresh(
        difficulty: DifficultyLevel,
        pebbles_count: u32,
        max_pebbles_per_turn: u32,
        first_player: Player,
    ) -> (state: GameState)
        requires
            valid_setup(pebbles_count as nat, max_pebbles_per_turn as nat),
        ensures
            state@ == GameModel::fresh(
                difficulty,
                pebbles_count as nat,
                max_pebbles_per_turn as nat,
                first_player,
            ),
    {
        GameState {
            pebbles_count,
            max_pebbles_per_turn,
            pebbles_remaining: pebbles_count,
            difficulty,
            first_player,
            winner: None,
        }
    }

    /// The size of the pile when the game was set up.
    pub fn pebbles_count(&self) -> (n: u32)
        ensures
            n == self@.pebbles_count,
    {
        self.pebbles_count
    }

    /// The most pebbles a player may take in one turn.
    pub fn max_pebbles_per_turn(&self) -> (n: u32)
        ensures
            n == self@.max_pebbles_per_turn,
    {
        self.max_pebbles_per_turn
    }

    /// The pebbles that are still in the pile.
    pub fn pebbles_remaining(&self) -> (n: u32)
        ensures
            n == self@.pebbles_remaining,
    {
        self.pebbles_remaining
    }

    pub fn difficulty(&self) -> (level: DifficultyLevel)
        ensures
            level == self@.difficulty,
    {
        self.difficulty
    }

    pub fn first_player(&self) -> (player: Player)
        ensures
            player == self@.first_player,
    {
        self.first_player
    }

    /// The winner, or `None` while the game is being played.
    pub fn winner(&self) -> (player: Option<Player>)
        ensures
            player == self@.winner,
    {
        self.winner
    }
}

/// Takes `pebbles_to_remove` pebbles from the pile, or all of them where
/// fewer are left. Nothing else changes, and the pile never grows.
pub(crate) fn remove_pebbles(pebbles_to_remove: u32, pebbles_game: &mut GameState)
    ensures
        final(pebbles_game)@ == old(pebbles_game)@.take(pebbles_to_remove as nat),
        final(pebbles_game)@.pebbles_remaining <= old(pebbles_game)@.pebbles_remaining,
{
    proof {
        use_type_invariant(&*pebbles_game);
    }
    if pebbles_to_remove < pebbles_game.pebbles_remaining {
        pebbles_game.pebbles_remaining -= pebbles_to_remove;
    } else {
        pebbles_game.pebbles_remaining = 0;
    }
}

/// Makes `player` the winner, whatever the pile holds, and announces it.
pub(crate) fn declare_winner(pebbles_game: &mut GameState, player: Player) -> (event: PebblesEvent)
    ensures
        final(pebbles_game)@ == old(pebbles_game)@.won_by(player),
        event == PebblesEvent::Won(player),
{
    proof {
        use_type_invariant(&*pebbles_game);
    }
    pebbles_game.winner = Some(player);
    PebblesEvent::Won(player)
}

} // verus!
