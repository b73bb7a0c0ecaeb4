//! One round of the game: the user's move, then the program's reply.

use crate::state::{declare_winner, remove_pebbles, GameModel, GameState};
use crate::strategy::{choose_pebbles, get_pebbles_to_remove, smaller};
use crate::types::{GameError, PebblesEvent, Player};
use vstd::prelude::*;

verus! {

impl GameModel {
    /// How a half-turn of `player` ends: with an empty pile the player has
    /// won; otherwise the game goes on with what is left.
    pub open spec fn settle(self, player: Player) -> (GameModel, PebblesEvent) {
        if self.pebbles_remaining == 0 {
            (self.won_by(player), PebblesEvent::Won(player))
        } else {
            (self, PebblesEvent::CounterTurn(self.pebbles_remaining as u32))
        }
    }

    /// The game after the user has asked for `requested` pebbles: a request
    /// above the turn bound counts as the bound.
    pub open spec fn user_half(self, requested: nat) -> GameModel {
        self.take(smaller(requested as int, self.max_pebbles_per_turn as int) as nat)
    }

    /// The game after the program has made its move for the random `draw`.
    pub open spec fn program_half(self, draw: nat) -> GameModel {
        self.take(self.reply(draw as int) as nat)
    }

    /// One round. A game that somebody has won stays as it is and the winner
    /// is announced again. Otherwise the user moves; if that empties the pile
    /// the user has won and the program does not move. Otherwise the program
    /// replies, and either wins or hands the pile back.
    pub open spec fn turn(self, requested: nat, draw: nat) -> (GameModel, PebblesEvent) {
        if let Some(winner) = self.winner {
            (self, PebblesEvent::Won(winner))
        } else if self.user_half(requested).pebbles_remaining == 0 {
            self.user_half(requested).settle(Player::User)
        } else {
            self.user_half(requested).program_half(draw).settle(Player::Program)
        }
    }

    /// The round looks at the random draw: the program has to reply, and it
    /// plays on the easy level.
    pub open spec fn needs_draw(self, requested: nat) -> bool {
        &&& self.winner is None
        &&& self.user_half(requested).pebbles_remaining > 0
        &&& self.difficulty is Easy
    }
}

/// A round that does not need the draw ends the same way for every draw.
pub proof fn lemma_turn_ignores_unneeded_draw(
    game: GameModel,
    requested: nat,
    draw: nat,
    other_draw: nat,
)
    requires
        !game.needs_draw(requested),
    ensures
        game.turn(requested, draw) == game.turn(requested, other_draw),
{
}

/// What the user may take when asking for `pebbles_to_remove`: the request,
/// or the turn bound where the request exceeds it.
pub(crate) fn do_user_turn(pebbles_to_remove: u32, pebbles_game: &GameState) -> (allowed: u32)
    ensures
        allowed == smaller(pebbles_to_remove as int, pebbles_game@.max_pebbles_per_turn as int),
{
    if pebbles_to_remove > pebbles_game.max_pebbles_per_turn() {
        pebbles_game.max_pebbles_per_turn()
    } else {
        pebbles_to_remove
    }
}

/// Ends the half-turn of `player_turn`: with an empty pile that player is
/// declared the winner, otherwise the pile is handed on.
pub(crate) fn do_turn(pebbles_game: &mut GameState, player_turn: Player) -> (event: PebblesEvent)
    ensures
        (final(pebbles_game)@, event) == old(pebbles_game)@.settle(player_turn),
{
    if pebbles_game.pebbles_remaining() == 0 {
        declare_winner(pebbles_game, player_turn)
    } else {
        PebblesEvent::CounterTurn(pebbles_game.pebbles_remaining())
    }
}

/// Concedes the game: the program is the winner from here on, whoever was
/// before and whatever the pile holds.
pub fn give_up(pebbles_game: &mut GameState) -> (event: PebblesEvent)
    ensures
        final(pebbles_game)@ == old(pebbles_game)@.won_by(Player::Program),
        event == PebblesEvent::Won(Player::Program),
{
    declare_winner(pebbles_game, Player::Program)
}

/// The user's half of a round. Returns how the round ended if it ended
/// here: the game was over before, or the user has just emptied the pile.
fn user_half_turn(requested: u32, pebbles_game: &mut GameState) -> (ended: Option<PebblesEvent>)
    ensures
        match ended {
            Some(event) => {
                &&& (old(pebbles_game)@.winner is Some || old(pebbles_game)@.user_half(
                    requested as nat,
                ).pebbles_remaining == 0)
                &&& forall|draw: nat|
                    (final(pebbles_game)@, event) == #[trigger] old(pebbles_game)@.turn(
                        requested as nat,
                        draw,
                    )
            },
            None => {
                &&& old(pebbles_game)@.winner is None
                &&& final(pebbles_game)@ == old(pebbles_game)@.user_half(requested as nat)
                &&& final(pebbles_game)@.pebbles_remaining > 0
            },
        },
{
    if let Some(winner) = pebbles_game.winner() {
        return Some(PebblesEvent::Won(winner));
    }
    let allowed = do_user_turn(requested, pebbles_game);
    remove_pebbles(allowed, pebbles_game);
    if pebbles_game.pebbles_remaining() == 0 {
        Some(do_turn(pebbles_game, Player::User))
    } else {
        None
    }
}

/// The program's half of a round, in which it takes `count` pebbles.
fn program_half_turn(count: u32, pebbles_game: &mut GameState) -> (event: PebblesEvent)
    ensures
        (final(pebbles_game)@, event) == old(pebbles_game)@.take(count as nat).settle(
            Player::Program,
        ),
{
    remove_pebbles(count, pebbles_game);
    do_turn(pebbles_game, Player::Program)
}

/// Plays one round with the random `draw` at hand: the user asks for
/// `requested` pebbles and the program replies. Only a reply on the easy
/// level looks at the draw.
pub fn play_turn(requested: u32, pebbles_game: &mut GameState, draw: u32) -> (event: PebblesEvent)
    ensures
        (final(pebbles_game)@, event) == old(pebbles_game)@.turn(requested as nat, draw as nat),
        final(pebbles_game)@.pebbles_remaining <= old(pebbles_game)@.pebbles_remaining,
{
    match user_half_turn(requested, pebbles_game) {
        Some(event) => event,
        None => {
            let count = choose_pebbles(pebbles_game, draw);
            program_half_turn(count, pebbles_game)
        },
    }
}

/// Plays one round: the user asks for `requested` pebbles and the program
/// replies, drawing a random number from the host for an easy reply. If the
/// host gives none, the round is abandoned and the game is as it was.
pub fn apply_user_move(requested: u32, pebbles_game: &mut GameState) -> (outcome: Result<
    PebblesEvent,
    GameError,
>)
    ensures
        match outcome {
            Ok(event) => exists|draw: u32|
                (final(pebbles_game)@, event) == #[trigger] old(pebbles_game)@.turn(
                    requested as nat,
                    draw as nat,
                ),
            Err(e) => {
                &&& e == GameError::RandomnessUnavailable
                &&& old(pebbles_game)@.needs_draw(requested as nat)
                &&& *final(pebbles_game) == *old(pebbles_game)
            },
        },
        !old(pebbles_game)@.needs_draw(requested as nat) ==> outcome is Ok,
        final(pebbles_game)@.pebbles_remaining <= old(pebbles_game)@.pebbles_remaining,
{
    let mut next = *pebbles_game;
    if let Some(event) = user_half_turn(requested, &mut next) {
        *pebbles_game = next;
        assert((pebbles_game@, event) == old(pebbles_game)@.turn(requested as nat, 0u32 as nat));
        return Ok(event);
    }
    let ghost before_reply = next@;
    match get_pebbles_to_remove(&mut next) {
        Ok(count) => {
            let event = program_half_turn(count, &mut next);
            *pebbles_game = next;
            proof {
                let draw = choose|draw: u32| count == #[trigger] before_reply.reply(draw as int);
                assert((pebbles_game@, event) == old(pebbles_game)@.turn(
                    requested as nat,
                    draw as nat,
                ));
            }
            Ok(event)
        },
        Err(e) => Err(e),
    }
}

} // verus!
