//! Rules engine of the pebbles game: two players take turns removing between
//! one and `K` pebbles from a pile of `N`; whoever takes the last pebble wins.
//! One of the players is the program itself.

pub mod controller;
pub mod game;
pub mod laws;
pub mod random;
pub mod state;
pub mod strategy;
pub mod theory;
pub mod turn;
pub mod types;
pub mod validate;

pub use controller::{GameController, Reply};
pub use game::{first_player_from, init_first_player, restart_game, start_game};
pub use random::{get_random_u32, seed_to_u32};
pub use state::GameState;
pub use strategy::{choose_pebbles, easy_move, get_pebbles_to_remove, hard_move};
pub use turn::{apply_user_move, give_up, play_turn};
pub use types::{DifficultyLevel, GameError, PebblesAction, PebblesEvent, Player, SetupError};
pub use validate::{check_difficulty_level, check_pebbles_input, validate_setup};
