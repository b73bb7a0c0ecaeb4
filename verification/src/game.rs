//! Setting a game up: who moves first, and the program's first move.

use crate::random::get_random_u32;
use crate::state::{remove_pebbles, GameModel, GameState};
use crate::strategy::{choose_pebbles, get_pebbles_to_remove};
use crate::types::{DifficultyLevel, GameError, Player, SetupError};
use crate::validate::{setup_verdict, valid_setup, validate_setup};
use vstd::prelude::*;

verus! {

/// Who moves first for a random `draw`: the user on an even draw, the
/// program on an odd one.
pub open spec fn first_player_for(draw: nat) -> Player {
    if draw % 2 == 0 {
        Player::User
    } else {
        Player::Program
    }
}

impl GameModel {
    /// The game as the user first meets it: freshly set up, and with the
    /// program's first move made where the program moves first.
    pub open spec fn opening(
        difficulty: DifficultyLevel,
        pebbles_count: nat,
        max_pebbles_per_turn: nat,
        first_player: Player,
        draw: nat,
    ) -> GameModel {
        let fresh = GameModel::fresh(difficulty, pebbles_count, max_pebbles_per_turn, first_player);
        if first_player is Program {
            fresh.program_half(draw)
        } else {
            fresh
        }
    }
}

/// Who moves first for a random `draw`.
pub fn first_player_from(draw: u32) -> (player: Player)
    ensures
        player == first_player_for(draw as nat),
{
    if draw % 2 == 0 {
        Player::User
    } else {
        Player::Program
    }
}

/// Draws a random number from the host and lets it decide who moves first.
pub fn init_first_player() -> (player: Result<Player, GameError>)
    ensures
        match player {
            Ok(chosen) => exists|draw: u32| chosen == #[trigger] first_player_for(draw as nat),
            Err(e) => e == GameError::RandomnessUnavailable,
        },
{
    match get_random_u32() {
        Ok(draw) => Ok(first_player_from(draw)),
        Err(e) => Err(e),
    }
}

/// Sets a game up with the first player and the random `draw` at hand. The
/// parameters are validated; where the program moves first it makes its
/// first move, which only on the easy level looks at the draw.
pub fn start_game(
    difficulty: DifficultyLevel,
    pebbles_count: u32,
    max_pebbles_per_turn: u32,
    first_player: Player,
    draw: u32,
) -> (game: Result<GameState, SetupError>)
    ensures
        match game {
            Ok(state) => {
                &&& valid_setup(pebbles_count as nat, max_pebbles_per_turn as nat)
                &&& state@ == GameModel::opening(
                    difficulty,
                    pebbles_count as nat,
                    max_pebbles_per_turn as nat,
                    first_player,
                    draw as nat,
                )
            },
            Err(e) => setup_verdict(pebbles_count as nat, max_pebbles_per_turn as nat, difficulty)
                == Err::<(), SetupError>(e),
        },
{
    match validate_setup(pebbles_count, max_pebbles_per_turn, difficulty) {
        Ok(()) => {},
        Err(e) => {
            return Err(e);
        },
    }
    let mut pebbles_game = GameState::fresh(
        difficulty,
        pebbles_count,
        max_pebbles_per_turn,
        first_player,
    );
    match first_player {
        Player::Program => {
            let pebbles_to_remove = choose_pebbles(&pebbles_game, draw);
            remove_pebbles(pebbles_to_remove, &mut pebbles_game);
        },
        Player::User => {},
    }
    Ok(pebbles_game)
}

/// Sets a game up: validates the parameters, draws the first player from
/// the host and, where that is the program, makes its first move. Nothing
/// is set up unless all of this succeeds.
pub fn restart_game(
    init_msg_difficulty: DifficultyLevel,
    init_msg_pebbles_count: u32,
    init_msg_max_pebbles_per_turn: u32,
) -> (game: Result<GameState, GameError>)
    ensures
        match game {
            Ok(state) => {
                &&& valid_setup(
                    init_msg_pebbles_count as nat,
                    init_msg_max_pebbles_per_turn as nat,
                )
                &&& exists|first_player: Player, draw: u32|
                    state@ == #[trigger] GameModel::opening(
                        init_msg_difficulty,
                        init_msg_pebbles_count as nat,
                        init_msg_max_pebbles_per_turn as nat,
                        first_player,
                        draw as nat,
                    )
            },
            Err(GameError::Setup(e)) => setup_verdict(
                init_msg_pebbles_count as nat,
                init_msg_max_pebbles_per_turn as nat,
                init_msg_difficulty,
            ) == Err::<(), SetupError>(e),
            Err(GameError::RandomnessUnavailable) => valid_setup(
                init_msg_pebbles_count as nat,
                init_msg_max_pebbles_per_turn as nat,
            ),
            Err(GameError::NoActiveGame) => false,
        },
{
    match validate_setup(init_msg_pebbles_count, init_msg_max_pebbles_per_turn, init_msg_difficulty)
    {
        Ok(()) => {},
        Err(e) => {
            return Err(GameError::Setup(e));
        },
    }
    let first_player = match init_first_player() {
        Ok(player) => player,
        Err(e) => {
            return Err(e);
        },
    };
    let mut pebbles_game = GameState::fresh(
        init_msg_difficulty,
        init_msg_pebbles_count,
        init_msg_max_pebbles_per_turn,
        first_player,
    );
    match first_player {
        Player::Program => {
            let ghost fresh = pebbles_game@;
            let pebbles_to_remove = match get_pebbles_to_remove(&mut pebbles_game) {
                Ok(count) => count,
                Err(e) => {
                    return Err(e);
                },
            };
            remove_pebbles(pebbles_to_remove, &mut pebbles_game);
            proof {
                let draw = choose|draw: u32|
                    pebbles_to_remove == #[trigger] fresh.reply(draw as int);
                assert(pebbles_game@ == GameModel::opening(
                    init_msg_difficulty,
                    init_msg_pebbles_count as nat,
                    init_msg_max_pebbles_per_turn as nat,
                    first_player,
                    draw as nat,
                ));
            }
        },
        Player::User => {
            assert(pebbles_game@ == GameModel::opening(
                init_msg_difficulty,
                init_msg_pebbles_count as nat,
                init_msg_max_pebbles_per_turn as nat,
                first_player,
                0u32 as nat,
            ));
        },
    }
    Ok(pebbles_game)
}

} // verus!
