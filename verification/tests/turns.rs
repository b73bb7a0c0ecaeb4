use pebbles_game::{
    apply_user_move, give_up, play_turn, start_game, DifficultyLevel, GameState, PebblesEvent,
    Player, SetupError,
};

fn consistent(game: &GameState) -> bool {
    game.winner().is_some() == (game.pebbles_remaining() == 0)
}

#[test]
fn a_fresh_game_has_its_whole_pile_and_no_winner() {
    let game = start_game(DifficultyLevel::Easy, 15, 2, Player::User, 99).unwrap();
    assert_eq!(game.pebbles_count(), 15);
    assert_eq!(game.max_pebbles_per_turn(), 2);
    assert_eq!(game.pebbles_remaining(), 15);
    assert_eq!(game.difficulty(), DifficultyLevel::Easy);
    assert_eq!(game.first_player(), Player::User);
    assert_eq!(game.winner(), None);
}

#[test]
fn the_program_moves_at_once_where_it_is_first() {
    let hard = start_game(DifficultyLevel::Hard, 10, 3, Player::Program, 0).unwrap();
    assert_eq!(hard.pebbles_remaining(), 8);
    assert_eq!(hard.first_player(), Player::Program);
    assert_eq!(hard.winner(), None);
    let easy = start_game(DifficultyLevel::Easy, 10, 3, Player::Program, 5).unwrap();
    assert_eq!(easy.pebbles_remaining(), 7);
    assert_eq!(easy.pebbles_count(), 10);
    let smallest = start_game(DifficultyLevel::Hard, 2, 1, Player::Program, 0).unwrap();
    assert_eq!(smallest.pebbles_remaining(), 1);
    assert_eq!(smallest.winner(), None);
}

#[test]
fn start_game_refuses_bad_parameters() {
    assert_eq!(
        start_game(DifficultyLevel::Easy, 0, 1, Player::User, 0),
        Err(SetupError::InvalidPileSize)
    );
    assert_eq!(
        start_game(DifficultyLevel::Easy, 15, 16, Player::Program, 0),
        Err(SetupError::InvalidTurnBound)
    );
    assert_eq!(
        start_game(DifficultyLevel::Easy, 15, 0, Player::Program, 0),
        Err(SetupError::InvalidTurnBound)
    );
}

#[test]
fn hard_game_of_five_goes_to_the_program() {
    let mut game = start_game(DifficultyLevel::Hard, 5, 2, Player::User, 0).unwrap();
    assert_eq!(play_turn(1, &mut game, 0), PebblesEvent::CounterTurn(3));
    assert_eq!(game.pebbles_remaining(), 3);
    assert_eq!(game.winner(), None);
    assert_eq!(play_turn(5, &mut game, 0), PebblesEvent::Won(Player::Program));
    assert_eq!(game.pebbles_remaining(), 0);
    assert_eq!(game.winner(), Some(Player::Program));
}

#[test]
fn hard_game_of_five_with_host_free_rounds() {
    let mut game = start_game(DifficultyLevel::Hard, 5, 2, Player::User, 0).unwrap();
    assert_eq!(apply_user_move(1, &mut game), Ok(PebblesEvent::CounterTurn(3)));
    assert_eq!(apply_user_move(5, &mut game), Ok(PebblesEvent::Won(Player::Program)));
    assert_eq!(game.winner(), Some(Player::Program));
    assert_eq!(game.pebbles_remaining(), 0);
}

#[test]
fn the_user_wins_by_taking_the_last_pebble() {
    let mut game = start_game(DifficultyLevel::Hard, 4, 3, Player::Program, 0).unwrap();
    assert_eq!(game.pebbles_remaining(), 3);
    assert_eq!(play_turn(3, &mut game, 0), PebblesEvent::Won(Player::User));
    assert_eq!(game.pebbles_remaining(), 0);
    assert_eq!(game.winner(), Some(Player::User));
}

#[test]
fn an_easy_round_that_the_user_ends_needs_no_host() {
    let mut game = start_game(DifficultyLevel::Easy, 3, 2, Player::User, 0).unwrap();
    assert_eq!(play_turn(1, &mut game, 0), PebblesEvent::CounterTurn(1));
    assert_eq!(apply_user_move(1, &mut game), Ok(PebblesEvent::Won(Player::User)));
    assert_eq!(apply_user_move(1, &mut game), Ok(PebblesEvent::Won(Player::User)));
}

#[test]
fn a_request_of_nothing_removes_nothing() {
    let mut game = start_game(DifficultyLevel::Hard, 10, 3, Player::User, 0).unwrap();
    assert_eq!(play_turn(0, &mut game, 0), PebblesEvent::CounterTurn(8));
    assert_eq!(game.pebbles_remaining(), 8);
}

#[test]
fn an_easy_reply_goes_by_the_draw() {
    let mut game = start_game(DifficultyLevel::Easy, 10, 3, Player::User, 0).unwrap();
    assert_eq!(play_turn(2, &mut game, 4), PebblesEvent::CounterTurn(6));
    assert_eq!(play_turn(3, &mut game, 0), PebblesEvent::CounterTurn(2));
    assert_eq!(game.winner(), None);
    assert_eq!(play_turn(1, &mut game, 7), PebblesEvent::Won(Player::Program));
    assert_eq!(game.pebbles_remaining(), 0);
    let mut other = start_game(DifficultyLevel::Easy, 10, 3, Player::User, 0).unwrap();
    assert_eq!(play_turn(9, &mut other, 0), PebblesEvent::CounterTurn(6));
    assert_eq!(play_turn(3, &mut other, 5), PebblesEvent::Won(Player::Program));
    assert_eq!(other.winner(), Some(Player::Program));
}

#[test]
fn a_won_game_stays_as_it_is() {
    let mut game = start_game(DifficultyLevel::Hard, 5, 2, Player::User, 0).unwrap();
    play_turn(1, &mut game, 0);
    play_turn(2, &mut game, 0);
    assert_eq!(game.winner(), Some(Player::Program));
    let won = game;
    assert_eq!(play_turn(2, &mut game, 7), PebblesEvent::Won(Player::Program));
    assert_eq!(game, won);
    assert_eq!(apply_user_move(0, &mut game), Ok(PebblesEvent::Won(Player::Program)));
    assert_eq!(game, won);
}

#[test]
fn give_up_goes_to_the_program_with_pebbles_left() {
    let mut game = start_game(DifficultyLevel::Easy, 15, 2, Player::User, 0).unwrap();
    play_turn(2, &mut game, 1);
    let left = game.pebbles_remaining();
    assert!(left > 0);
    assert_eq!(give_up(&mut game), PebblesEvent::Won(Player::Program));
    assert_eq!(game.winner(), Some(Player::Program));
    assert_eq!(game.pebbles_remaining(), left);
    assert_eq!(game.pebbles_count(), 15);
}

#[test]
fn give_up_takes_a_win_from_the_user() {
    let mut game = start_game(DifficultyLevel::Hard, 2, 1, Player::Program, 0).unwrap();
    assert_eq!(play_turn(1, &mut game, 0), PebblesEvent::Won(Player::User));
    assert_eq!(give_up(&mut game), PebblesEvent::Won(Player::Program));
    assert_eq!(game.winner(), Some(Player::Program));
    assert_eq!(game.pebbles_remaining(), 0);
}

#[test]
fn a_conceded_game_is_not_played_on() {
    let mut game = start_game(DifficultyLevel::Hard, 9, 2, Player::User, 0).unwrap();
    give_up(&mut game);
    let conceded = game;
    assert_eq!(play_turn(2, &mut game, 0), PebblesEvent::Won(Player::Program));
    assert_eq!(game, conceded);
    assert_eq!(game.pebbles_remaining(), 9);
}

#[test]
fn a_request_above_the_bound_counts_as_the_bound() {
    let mut game = start_game(DifficultyLevel::Hard, 20, 3, Player::User, 0).unwrap();
    assert_eq!(play_turn(4, &mut game, 0), PebblesEvent::CounterTurn(16));
    assert_eq!(play_turn(u32::MAX, &mut game, 0), PebblesEvent::CounterTurn(12));
    assert_eq!(play_turn(3, &mut game, 0), PebblesEvent::CounterTurn(8));
    assert_eq!(play_turn(2, &mut game, 0), PebblesEvent::CounterTurn(4));
    assert_eq!(play_turn(1, &mut game, 0), PebblesEvent::Won(Player::Program));
}

#[test]
fn the_program_never_takes_more_than_is_left() {
    let mut game = start_game(DifficultyLevel::Easy, 7, 6, Player::User, 0).unwrap();
    assert_eq!(play_turn(6, &mut game, 5), PebblesEvent::Won(Player::Program));
    assert_eq!(game.pebbles_remaining(), 0);
    let mut other = start_game(DifficultyLevel::Easy, 7, 6, Player::User, 0).unwrap();
    assert_eq!(play_turn(4, &mut other, 4), PebblesEvent::CounterTurn(1));
    assert_eq!(play_turn(0, &mut other, u32::MAX), PebblesEvent::Won(Player::Program));
}

#[test]
fn the_winner_is_set_exactly_when_the_pile_is_empty() {
    let levels = [DifficultyLevel::Easy, DifficultyLevel::Hard];
    let firsts = [Player::User, Player::Program];
    for level in levels {
        for first in firsts {
            for pebbles_count in 2..14u32 {
                for max in 1..pebbles_count {
                    for seed in 0..5u32 {
                        let mut game = start_game(level, pebbles_count, max, first, seed).unwrap();
                        assert!(consistent(&game));
                        assert!(game.pebbles_remaining() > 0);
                        let mut round = 0u32;
                        while game.winner().is_none() {
                            let before = game.pebbles_remaining();
                            let requested = (seed + round) % (max + 2);
                            let draw = seed.wrapping_mul(2654435761).wrapping_add(round);
                            let event = play_turn(requested, &mut game, draw);
                            assert!(consistent(&game));
                            assert!(game.pebbles_remaining() <= before);
                            assert_eq!(game.pebbles_count(), pebbles_count);
                            assert_eq!(game.max_pebbles_per_turn(), max);
                            assert_eq!(game.difficulty(), level);
                            assert_eq!(game.first_player(), first);
                            match event {
                                PebblesEvent::CounterTurn(left) => {
                                    assert_eq!(left, game.pebbles_remaining());
                                    assert!(left > 0);
                                }
                                PebblesEvent::Won(player) => {
                                    assert_eq!(game.winner(), Some(player));
                                    assert_eq!(game.pebbles_remaining(), 0);
                                }
                            }
                            round += 1;
                            assert!(round <= 2 * pebbles_count + 2);
                        }
                    }
                }
            }
        }
    }
}

#[test]
fn the_hard_program_wins_from_every_winning_pile() {
    for max in 1..6u32 {
        for pebbles_count in (max + 1)..40u32 {
            if pebbles_count % (max + 1) == 0 {
                continue;
            }
            for user_style in 0..4u32 {
                let mut game =
                    start_game(DifficultyLevel::Hard, pebbles_count, max, Player::Program, 0)
                        .unwrap();
                let mut round = 0u32;
                while game.winner().is_none() {
                    let requested = 1 + (user_style + round) % max;
                    play_turn(requested, &mut game, 0);
                    round += 1;
                }
                assert_eq!(game.winner(), Some(Player::Program));
            }
        }
    }
}
