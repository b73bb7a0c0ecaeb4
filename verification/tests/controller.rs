use pebbles_game::{
    DifficultyLevel, GameController, GameError, PebblesAction, PebblesEvent, Player, Reply,
    SetupError,
};

fn restart(difficulty: DifficultyLevel, pebbles_count: u32, max_pebbles_per_turn: u32) -> PebblesAction {
    PebblesAction::Restart { difficulty, pebbles_count, max_pebbles_per_turn }
}

#[test]
fn a_new_controller_has_no_game() {
    let controller = GameController::new();
    assert_eq!(controller.snapshot(), Err(GameError::NoActiveGame));
}

#[test]
fn controller_plays_the_hard_game_of_five() {
    let mut controller = GameController::new();
    let started = controller.apply_action(restart(DifficultyLevel::Hard, 5, 2), Player::User, 0);
    let state = match started {
        Ok(Reply::Started(state)) => state,
        other => panic!("no game was started: {:?}", other),
    };
    assert_eq!(state.pebbles_remaining(), 5);
    assert_eq!(state.first_player(), Player::User);
    assert_eq!(controller.snapshot(), Ok(state));
    assert_eq!(
        controller.apply_action(PebblesAction::Turn(1), Player::User, 0),
        Ok(Reply::Event(PebblesEvent::CounterTurn(3)))
    );
    assert_eq!(controller.snapshot().unwrap().pebbles_remaining(), 3);
    assert_eq!(
        controller.apply_action(PebblesAction::Turn(5), Player::User, 0),
        Ok(Reply::Event(PebblesEvent::Won(Player::Program)))
    );
    let end = controller.snapshot().unwrap();
    assert_eq!(end.pebbles_remaining(), 0);
    assert_eq!(end.winner(), Some(Player::Program));
    assert_eq!(end.pebbles_count(), 5);
    assert_eq!(end.max_pebbles_per_turn(), 2);
}

#[test]
fn snapshot_keeps_the_game() {
    let mut controller = GameController::new();
    controller.apply_action(restart(DifficultyLevel::Easy, 15, 2), Player::Program, 3).unwrap();
    let first = controller.snapshot();
    let second = controller.snapshot();
    assert!(first.is_ok());
    assert_eq!(first, second);
    assert_eq!(first.unwrap().pebbles_remaining(), 13);
}

#[test]
fn give_up_through_the_controller() {
    let mut controller = GameController::new();
    controller.apply_action(restart(DifficultyLevel::Easy, 15, 2), Player::User, 0).unwrap();
    assert_eq!(controller.give_up(), PebblesEvent::Won(Player::Program));
    let state = controller.snapshot().unwrap();
    assert_eq!(state.winner(), Some(Player::Program));
    assert_eq!(state.pebbles_remaining(), 15);
    assert_eq!(
        controller.handle_action(PebblesAction::GiveUp),
        Ok(Reply::Event(PebblesEvent::Won(Player::Program)))
    );
    assert_eq!(
        controller.apply_action(PebblesAction::GiveUp, Player::User, 0),
        Ok(Reply::Event(PebblesEvent::Won(Player::Program)))
    );
    assert_eq!(controller.snapshot(), Ok(state));
}

#[test]
fn a_refused_restart_keeps_the_game_in_play() {
    let mut controller = GameController::new();
    controller.apply_action(restart(DifficultyLevel::Hard, 10, 3), Player::User, 0).unwrap();
    controller.apply_action(PebblesAction::Turn(1), Player::User, 0).unwrap();
    let before = controller.snapshot();
    assert_eq!(
        controller.apply_action(restart(DifficultyLevel::Hard, 0, 1), Player::User, 0),
        Err(SetupError::InvalidPileSize)
    );
    assert_eq!(controller.snapshot(), before);
    assert_eq!(
        controller.apply_action(restart(DifficultyLevel::Hard, 15, 16), Player::User, 0),
        Err(SetupError::InvalidTurnBound)
    );
    assert_eq!(controller.snapshot(), before);
    assert_eq!(
        controller.handle_action(restart(DifficultyLevel::Easy, 15, 15)),
        Err(GameError::Setup(SetupError::InvalidTurnBound))
    );
    assert_eq!(controller.snapshot(), before);
    assert_eq!(
        controller.new_game(0, 1, DifficultyLevel::Easy),
        Err(GameError::Setup(SetupError::InvalidPileSize))
    );
    assert_eq!(
        controller.restart(5, 0, DifficultyLevel::Easy),
        Err(GameError::Setup(SetupError::InvalidTurnBound))
    );
    assert_eq!(controller.snapshot(), before);
}

#[test]
fn a_refused_restart_on_no_game_leaves_no_game() {
    let mut controller = GameController::new();
    assert_eq!(
        controller.apply_action(restart(DifficultyLevel::Hard, 1, 1), Player::User, 0),
        Err(SetupError::InvalidTurnBound)
    );
    assert_eq!(controller.snapshot(), Err(GameError::NoActiveGame));
    assert_eq!(
        controller.handle_action(restart(DifficultyLevel::Hard, 0, 0)),
        Err(GameError::Setup(SetupError::InvalidPileSize))
    );
    assert_eq!(controller.snapshot(), Err(GameError::NoActiveGame));
}

#[test]
fn restart_twice_gives_the_same_game_anew() {
    let mut controller = GameController::new();
    let action = restart(DifficultyLevel::Hard, 10, 3);
    let first = controller.apply_action(action, Player::Program, 0).unwrap();
    controller.apply_action(PebblesAction::Turn(3), Player::User, 0).unwrap();
    controller.apply_action(PebblesAction::Turn(3), Player::User, 0).unwrap();
    let played = controller.snapshot().unwrap();
    assert_eq!(played.winner(), Some(Player::Program));
    assert_eq!(played.pebbles_remaining(), 0);
    let second = controller.apply_action(action, Player::Program, 0).unwrap();
    assert_eq!(first, second);
    let state = controller.snapshot().unwrap();
    assert_eq!(Reply::Started(state), second);
    assert_eq!(state.winner(), None);
    assert_eq!(state.pebbles_remaining(), 8);
    let third = controller.apply_action(action, Player::Program, 0).unwrap();
    assert_eq!(second, third);
    assert_eq!(controller.snapshot(), Ok(state));
}

#[test]
fn a_restart_after_a_concession_starts_afresh() {
    let mut controller = GameController::new();
    controller.apply_action(restart(DifficultyLevel::Easy, 6, 2), Player::User, 0).unwrap();
    controller.give_up();
    controller.apply_action(restart(DifficultyLevel::Hard, 9, 4), Player::User, 0).unwrap();
    let state = controller.snapshot().unwrap();
    assert_eq!(state.winner(), None);
    assert_eq!(state.pebbles_remaining(), 9);
    assert_eq!(state.pebbles_count(), 9);
    assert_eq!(state.max_pebbles_per_turn(), 4);
    assert_eq!(state.difficulty(), DifficultyLevel::Hard);
}

#[test]
fn two_games_do_not_share_a_pile() {
    let mut one = GameController::new();
    let mut other = GameController::new();
    one.apply_action(restart(DifficultyLevel::Hard, 10, 3), Player::User, 0).unwrap();
    other.apply_action(restart(DifficultyLevel::Hard, 10, 3), Player::User, 0).unwrap();
    assert_eq!(one.snapshot(), other.snapshot());
    one.apply_action(PebblesAction::Turn(2), Player::User, 0).unwrap();
    assert_eq!(other.snapshot().unwrap().pebbles_remaining(), 10);
    assert_eq!(one.snapshot().unwrap().pebbles_remaining(), 7);
}

#[test]
fn a_turn_before_any_setup_plays_a_blank_game() {
    let mut controller = GameController::new();
    assert_eq!(
        controller.handle_action(PebblesAction::Turn(3)),
        Ok(Reply::Event(PebblesEvent::Won(Player::User)))
    );
    let state = controller.snapshot().unwrap();
    assert_eq!(state.pebbles_count(), 0);
    assert_eq!(state.max_pebbles_per_turn(), 0);
    assert_eq!(state.pebbles_remaining(), 0);
    assert_eq!(state.difficulty(), DifficultyLevel::Easy);
    assert_eq!(state.first_player(), Player::User);
    assert_eq!(state.winner(), Some(Player::User));
    assert_eq!(
        controller.handle_action(PebblesAction::Turn(1)),
        Ok(Reply::Event(PebblesEvent::Won(Player::User)))
    );
    assert_eq!(controller.snapshot(), Ok(state));
}

#[test]
fn a_concession_before_any_setup_concedes_a_blank_game() {
    let mut controller = GameController::new();
    assert_eq!(
        controller.handle_action(PebblesAction::GiveUp),
        Ok(Reply::Event(PebblesEvent::Won(Player::Program)))
    );
    let state = controller.snapshot().unwrap();
    assert_eq!(state.pebbles_count(), 0);
    assert_eq!(state.pebbles_remaining(), 0);
    assert_eq!(state.winner(), Some(Player::Program));
}

#[test]
fn hard_rounds_through_handle_action_need_no_host() {
    let mut controller = GameController::new();
    controller.apply_action(restart(DifficultyLevel::Hard, 5, 2), Player::User, 0).unwrap();
    assert_eq!(
        controller.handle_action(PebblesAction::Turn(1)),
        Ok(Reply::Event(PebblesEvent::CounterTurn(3)))
    );
    assert_eq!(
        controller.handle_action(PebblesAction::Turn(5)),
        Ok(Reply::Event(PebblesEvent::Won(Player::Program)))
    );
    assert_eq!(
        controller.handle_action(PebblesAction::Turn(1)),
        Ok(Reply::Event(PebblesEvent::Won(Player::Program)))
    );
}
