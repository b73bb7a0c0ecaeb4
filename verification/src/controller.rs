//! The controller: it owns the one game in play and answers the host's
//! requests, each of them to completion before the next.

use crate::game::{restart_game, start_game};
use crate::state::{GameModel, GameState};
use crate::turn::{apply_user_move, give_up, play_turn};
use crate::types::{
    DifficultyLevel, GameError, PebblesAction, PebblesEvent, Player, SetupError,
};
use crate::validate::{setup_verdict, valid_setup};
use vstd::prelude::*;

verus! {

/// What the controller answers to an action.
#[derive(Debug, Clone, Copy, PartialEq, Eq)]
pub enum Reply {
    /// How a turn or a concession ended.
    Event(PebblesEvent),
    /// A new game was set up, and this is how the user meets it.
    Started(GameState),
}

/// The model of a reply.
pub enum ReplyModel {
    Event(PebblesEvent),
    Started(GameModel),
}

impl View for Reply {
    type V = ReplyModel;

    open spec fn view(&self) -> ReplyModel {
        match *self {
            Reply::Event(event) => ReplyModel::Event(event),
            Reply::Started(state) => ReplyModel::Started(state@),
        }
    }
}

/// The game that an action works on: the one in play, or a blank one where
/// none was ever set up.
pub open spec fn game_in_play(game: Option<GameModel>) -> GameModel {
    match game {
        Some(state) => state,
        None => GameModel::blank(),
    }
}

/// What an action does to the game in play and what is answered, with the
/// first player and the random draw that a restart or an easy reply may
/// look at. A refused restart leaves everything as it was.
pub open spec fn step(
    game: Option<GameModel>,
    action: PebblesAction,
    first_player: Player,
    draw: nat,
) -> (Option<GameModel>, Result<ReplyModel, SetupError>) {
    match action {
        PebblesAction::GiveUp => (
            Some(game_in_play(game).won_by(Player::Program)),
            Ok(ReplyModel::Event(PebblesEvent::Won(Player::Program))),
        ),
        PebblesAction::Turn(requested) => (
            Some(game_in_play(game).turn(requested as nat, draw).0),
            Ok(ReplyModel::Event(game_in_play(game).turn(requested as nat, draw).1)),
        ),
        PebblesAction::Restart { difficulty, pebbles_count, max_pebbles_per_turn } => {
            match setup_verdict(pebbles_count as nat, max_pebbles_per_turn as nat, difficulty) {
                Ok(()) => {
                    let opening = GameModel::opening(
                        difficulty,
                        pebbles_count as nat,
                        max_pebbles_per_turn as nat,
                        first_player,
                        draw,
                    );
                    (Some(opening), Ok(ReplyModel::Started(opening)))
                },
                Err(e) => (game, Err(e)),
            }
        },
    }
}

/// The action cannot be carried out without a random number from the host:
/// it is a valid restart, or a turn in which the program replies on the
/// easy level.
pub open spec fn needs_host(game: Option<GameModel>, action: PebblesAction) -> bool {
    match action {
        PebblesAction::GiveUp => false,
        PebblesAction::Turn(requested) => game_in_play(game).needs_draw(requested as nat),
        PebblesAction::Restart { difficulty, pebbles_count, max_pebbles_per_turn } => valid_setup(
            pebbles_count as nat,
            max_pebbles_per_turn as nat,
        ),
    }
}

/// The owner of the one game in play.
pub struct GameController {
    game: Option<GameState>,
}

impl View for GameController {
    type V = Option<GameModel>;

    closed spec fn view(&self) -> Option<GameModel> {
        match self.game {
            Some(state) => Some(state@),
            None => None,
        }
    }
}

impl GameController {
    /// A controller with no game set up yet.
    pub fn new() -> (controller: GameController)
        ensures
            controller@ is None,
    {
        GameController { game: None }
    }

    /// The game that an action works on: the one in play, or a blank one.
    fn current(&self) -> (state: GameState)
        ensures
            state@ == game_in_play(self@),
    {
        match self.game {
            Some(state) => state,
            None => GameState::blank(),
        }
    }

    /// Sets up a new game in place of whatever was in play, drawing the first
    /// player, and an easy first move, from the host. If the parameters are
    /// refused or the host gives no random number, the game in play stays.
    pub fn new_game(
        &mut self,
        pebbles_count: u32,
        max_pebbles_per_turn: u32,
        difficulty: DifficultyLevel,
    ) -> (game: Result<GameState, GameError>)
        ensures
            match game {
                Ok(state) => {
                    &&& final(self)@ == Some(state@)
                    &&& valid_setup(pebbles_count as nat, max_pebbles_per_turn as nat)
                    &&& exists|first_player: Player, draw: u32|
                        state@ == #[trigger] GameModel::opening(
                            difficulty,
                            pebbles_count as nat,
                            max_pebbles_per_turn as nat,
                            first_player,
                            draw as nat,
                        )
                },
                Err(e) => {
                    &&& final(self)@ == old(self)@
                    &&& match e {
                        GameError::Setup(fault) => setup_verdict(
                            pebbles_count as nat,
                            max_pebbles_per_turn as nat,
                            difficulty,
                        ) == Err::<(), SetupError>(fault),
                        GameError::RandomnessUnavailable => valid_setup(
                            pebbles_count as nat,
                            max_pebbles_per_turn as nat,
                        ),
                        GameError::NoActiveGame => false,
                    }
                },
            },
    {
        match restart_game(difficulty, pebbles_count, max_pebbles_per_turn) {
            Ok(state) => {
                self.game = Some(state);
                Ok(state)
            },
            Err(e) => Err(e),
        }
    }

    /// The same as `new_game`: the game in play, won or not, is thrown away
    /// for a new one.
    pub fn restart(
        &mut self,
        pebbles_count: u32,
        max_pebbles_per_turn: u32,
        difficulty: DifficultyLevel,
    ) -> (game: Result<GameState, GameError>)
        ensures
            match game {
                Ok(state) => {
                    &&& final(self)@ == Some(state@)
                    &&& valid_setup(pebbles_count as nat, max_pebbles_per_turn as nat)
                    &&& exists|first_player: Player, draw: u32|
                        state@ == #[trigger] GameModel::opening(
                            difficulty,
                            pebbles_count as nat,
                            max_pebbles_per_turn as nat,
                            first_player,
                            draw as nat,
                        )
                },
                Err(e) => {
                    &&& final(self)@ == old(self)@
                    &&& match e {
                        GameError::Setup(fault) => setup_verdict(
                            pebbles_count as nat,
                            max_pebbles_per_turn as nat,
                            difficulty,
                        ) == Err::<(), SetupError>(fault),
                        GameError::RandomnessUnavailable => valid_setup(
                            pebbles_count as nat,
                            max_pebbles_per_turn as nat,
                        ),
                        GameError::NoActiveGame => false,
                    }
                },
            },
    {
        self.new_game(pebbles_count, max_pebbles_per_turn, difficulty)
    }

    /// Concedes the game in play to the program, whether or not it was still
    /// being played. Where no game was ever set up, a blank one is conceded.
    pub fn give_up(&mut self) -> (event: PebblesEvent)
        ensures
            final(self)@ == Some(game_in_play(old(self)@).won_by(Player::Program)),
            event == PebblesEvent::Won(Player::Program),
    {
        let mut pebbles_game = self.current();
        let event = give_up(&mut pebbles_game);
        self.game = Some(pebbles_game);
        event
    }

    /// The game in play, as it stands. The controller keeps it.
    pub fn snapshot(&self) -> (state: Result<GameState, GameError>)
        ensures
            match state {
                Ok(game) => self@ == Some(game@),
                Err(e) => self@ is None && e == GameError::NoActiveGame,
            },
    {
        match self.game {
            Some(game) => Ok(game),
            None => Err(GameError::NoActiveGame),
        }
    }

    /// Carries out an action with the first player and the random `draw` at
    /// hand. A refused restart leaves the game in play as it was.
    pub fn apply_action(&mut self, action: PebblesAction, first_player: Player, draw: u32) -> (reply:
        Result<Reply, SetupError>)
        ensures
            match reply {
                Ok(answer) => (final(self)@, Ok::<ReplyModel, SetupError>(answer@)) == step(
                    old(self)@,
                    action,
                    first_player,
                    draw as nat,
                ),
                Err(e) => (final(self)@, Err::<ReplyModel, SetupError>(e)) == step(
                    old(self)@,
                    action,
                    first_player,
                    draw as nat,
                ),
            },
    {
        match action {
            PebblesAction::GiveUp => Ok(Reply::Event(self.give_up())),
            PebblesAction::Turn(requested) => {
                let mut pebbles_game = self.current();
                let event = play_turn(requested, &mut pebbles_game, draw);
                self.game = Some(pebbles_game);
                Ok(Reply::Event(event))
            },
            PebblesAction::Restart { difficulty, pebbles_count, max_pebbles_per_turn } => {
                match start_game(difficulty, pebbles_count, max_pebbles_per_turn, first_player, draw)
                {
                    Ok(state) => {
                        self.game = Some(state);
                        Ok(Reply::Started(state))
                    },
                    Err(e) => Err(e),
                }
            },
        }
    }

    /// Carries out an action, drawing from the host what random numbers it
    /// needs. A request that fails leaves the game in play as it was; one
    /// that needs nothing from the host cannot fail.
    pub fn handle_action(&mut self, action: PebblesAction) -> (reply: Result<Reply, GameError>)
        ensures
            match reply {
                Ok(answer) => exists|first_player: Player, draw: u32|
                    (final(self)@, Ok::<ReplyModel, SetupError>(answer@)) == #[trigger] step(
                        old(self)@,
                        action,
                        first_player,
                        draw as nat,
                    ),
                Err(e) => {
                    &&& final(self)@ == old(self)@
                    &&& match e {
                        GameError::Setup(fault) => forall|first_player: Player, draw: nat|
                            #[trigger] step(old(self)@, action, first_player, draw) == (
                                old(self)@,
                                Err::<ReplyModel, SetupError>(fault),
                            ),
                        GameError::RandomnessUnavailable => needs_host(old(self)@, action),
                        GameError::NoActiveGame => false,
                    }
                },
            },
            !needs_host(old(self)@, action) && !(action is Restart) ==> reply is Ok,
    {
        match action {
            PebblesAction::GiveUp => {
                let event = self.give_up();
                assert((self@, Ok::<ReplyModel, SetupError>(ReplyModel::Event(event))) == step(
                    old(self)@,
                    action,
                    Player::User,
                    0u32 as nat,
                ));
                Ok(Reply::Event(event))
            },
            PebblesAction::Turn(requested) => {
                let mut pebbles_game = self.current();
                let ghost before = pebbles_game@;
                match apply_user_move(requested, &mut pebbles_game) {
                    Ok(event) => {
                        self.game = Some(pebbles_game);
                        proof {
                            let draw = choose|draw: u32|
                                (pebbles_game@, event) == #[trigger] before.turn(
                                    requested as nat,
                                    draw as nat,
                                );
                            assert((self@, Ok::<ReplyModel, SetupError>(ReplyModel::Event(event)))
                                == step(old(self)@, action, Player::User, draw as nat));
                        }
                        Ok(Reply::Event(event))
                    },
                    Err(e) => Err(e),
                }
            },
            PebblesAction::Restart { difficulty, pebbles_count, max_pebbles_per_turn } => {
                match restart_game(difficulty, pebbles_count, max_pebbles_per_turn) {
                    Ok(state) => {
                        self.game = Some(state);
                        proof {
                            let (first_player, draw) = choose|first_player: Player, draw: u32|
                                state@ == #[trigger] GameModel::opening(
                                    difficulty,
                                    pebbles_count as nat,
                                    max_pebbles_per_turn as nat,
                                    first_player,
                                    draw as nat,
                                );
                            assert((self@, Ok::<ReplyModel, SetupError>(ReplyModel::Started(state@)))
                                == step(old(self)@, action, first_player, draw as nat));
                        }
                        Ok(Reply::Started(state))
                    },
                    Err(e) => Err(e),
                }
            },
        }
    }
}

} // verus!
