//! What holds of every game, however it is played.

use crate::controller::{game_in_play, step, ReplyModel};
use crate::state::GameModel;
use crate::strategy::lemma_choice_is_legal;
use crate::types::{DifficultyLevel, PebblesAction, PebblesEvent, Player, SetupError};
use crate::validate::valid_setup;
use vstd::prelude::*;

verus! {

/// Something that happens to a game in play.
pub enum Move {
    /// A round: the user asks for `requested` pebbles, and the program
    /// replies with the random `draw` at hand.
    Turn { requested: nat, draw: nat },
    /// The user concedes.
    GiveUp,
}

impl GameModel {
    /// The game after one move.
    pub open spec fn act(self, m: Move) -> GameModel {
        match m {
            Move::Turn { requested, draw } => self.turn(requested, draw).0,
            Move::GiveUp => self.won_by(Player::Program),
        }
    }

    /// The game after a run of moves, the first of them first.
    pub open spec fn play(self, moves: Seq<Move>) -> GameModel
        decreases moves.len(),
    {
        if moves.len() == 0 {
            self
        } else {
            self.play(moves.drop_last()).act(moves.last())
        }
    }

    /// The setup of the game: what no move changes.
    pub open spec fn same_setup(self, other: GameModel) -> bool {
        &&& self.pebbles_count == other.pebbles_count
        &&& self.max_pebbles_per_turn == other.max_pebbles_per_turn
        &&& self.difficulty == other.difficulty
        &&& self.first_player == other.first_player
    }
}

/// A move keeps a game well-formed and its setup as it was, never adds a
/// pebble to the pile, and never takes a win back or hands it to the user
/// once somebody has won.
pub proof fn lemma_act(game: GameModel, m: Move)
    requires
        game.wf(),
    ensures
        game.act(m).wf(),
        game.act(m).same_setup(game),
        game.act(m).pebbles_remaining <= game.pebbles_remaining,
        game.winner is Some ==> game.act(m).winner is Some,
        game.winner is Some && m is Turn ==> game.act(m) == game,
{
    if let Move::Turn { requested, draw } = m {
        let after_user = game.user_half(requested);
        if game.winner is None && after_user.pebbles_remaining > 0 {
            lemma_choice_is_legal(
                after_user.difficulty,
                after_user.pebbles_remaining as int,
                after_user.max_pebbles_per_turn as int,
                draw as int,
            );
        }
    }
}

/// A round played on a game where somebody has won exactly if the pile is
/// empty leaves such a game. So does a round played on a blank game.
pub proof fn law_round_keeps_consistent(game: GameModel, requested: nat, draw: nat)
    requires
        game.wf(),
        game.consistent() || game == GameModel::blank(),
    ensures
        game.turn(requested, draw).0.consistent(),
{
}

/// A game as the user first meets it is well-formed and being played:
/// nobody has won, and pebbles remain, for the program's first move cannot
/// empty a pile that is larger than the turn bound.
pub proof fn lemma_opening(
    difficulty: DifficultyLevel,
    pebbles_count: nat,
    max_pebbles_per_turn: nat,
    first_player: Player,
    draw: nat,
)
    requires
        valid_setup(pebbles_count, max_pebbles_per_turn),
    ensures
        ({
            let opening = GameModel::opening(
                difficulty,
                pebbles_count,
                max_pebbles_per_turn,
                first_player,
                draw,
            );
            &&& opening.wf()
            &&& opening.consistent()
            &&& opening.winner is None
            &&& opening.same_setup(
                GameModel::fresh(difficulty, pebbles_count, max_pebbles_per_turn, first_player),
            )
            &&& 0 < opening.pebbles_remaining <= pebbles_count
            &&& first_player is User ==> opening.pebbles_remaining == pebbles_count
            &&& first_player is Program ==> pebbles_count - max_pebbles_per_turn
                <= opening.pebbles_remaining < pebbles_count
        }),
{
    lemma_choice_is_legal(
        difficulty,
        pebbles_count as int,
        max_pebbles_per_turn as int,
        draw as int,
    );
}

/// One request to the controller: an action, with the first player and the
/// random draw that it may look at.
pub struct Request {
    pub action: PebblesAction,
    pub first_player: Player,
    pub draw: nat,
}

/// What the controller holds after a run of requests, the first of them first.
pub open spec fn run(game: Option<GameModel>, requests: Seq<Request>) -> Option<GameModel>
    decreases requests.len(),
{
    if requests.len() == 0 {
        game
    } else {
        step(
            run(game, requests.drop_last()),
            requests.last().action,
            requests.last().first_player,
            requests.last().draw,
        ).0
    }
}

/// The action concedes a game whose pile is not empty.
pub open spec fn concedes_early(game: Option<GameModel>, action: PebblesAction) -> bool {
    action is GiveUp && game is Some && game->0.pebbles_remaining > 0
}

/// The controller holds no game, or a well-formed one in which somebody has
/// won exactly if the pile is empty.
pub open spec fn sound(game: Option<GameModel>) -> bool {
    game matches Some(state) ==> state.wf() && state.consistent()
}

/// A request keeps the controller sound, unless it concedes a game whose
/// pile is not empty: that names a winner while pebbles remain.
pub proof fn lemma_step_keeps_sound(game: Option<GameModel>, request: Request)
    requires
        sound(game),
        !concedes_early(game, request.action),
    ensures
        sound(step(game, request.action, request.first_player, request.draw).0),
{
    match request.action {
        PebblesAction::GiveUp => {},
        PebblesAction::Turn(requested) => {
            lemma_act(
                game_in_play(game),
                Move::Turn { requested: requested as nat, draw: request.draw },
            );
        },
        PebblesAction::Restart { difficulty, pebbles_count, max_pebbles_per_turn } => {
            if valid_setup(pebbles_count as nat, max_pebbles_per_turn as nat) {
                lemma_opening(
                    difficulty,
                    pebbles_count as nat,
                    max_pebbles_per_turn as nat,
                    request.first_player,
                    request.draw,
                );
            }
        },
    }
}

/// In every game that the controller can come to hold, somebody has won
/// exactly if the pile is empty: whatever is requested of a new controller,
/// in whatever order and with whatever draws, as long as no game is
/// conceded while pebbles remain in its pile.
pub proof fn law_winner_iff_pile_empty(requests: Seq<Request>)
    requires
        forall|i: int|
            0 <= i < requests.len() ==> !concedes_early(
                #[trigger] run(None, requests.take(i)),
                requests[i].action,
            ),
    ensures
        sound(run(None, requests)),
    decreases requests.len(),
{
    if requests.len() > 0 {
        let earlier = requests.drop_last();
        assert forall|i: int| 0 <= i < earlier.len() implies !concedes_early(
            #[trigger] run(None, earlier.take(i)),
            earlier[i].action,
        ) by {
            assert(earlier.take(i) == requests.take(i));
            assert(earlier[i] == requests[i]);
        }
        law_winner_iff_pile_empty(earlier);
        assert(requests.take(requests.len() - 1) == earlier);
        assert(!concedes_early(
            run(None, requests.take(requests.len() - 1)),
            requests[requests.len() - 1].action,
        ));
        lemma_step_keeps_sound(run(None, earlier), requests.last());
    }
}

/// However a game is played on, by rounds and concessions in any order, it
/// stays well-formed, its setup stays as it was, its pile never grows, and
/// once somebody has won somebody has won for good.
pub proof fn law_play_never_adds_pebbles(game: GameModel, moves: Seq<Move>)
    requires
        game.wf(),
    ensures
        game.play(moves).wf(),
        game.play(moves).same_setup(game),
        game.play(moves).pebbles_remaining <= game.pebbles_remaining,
        game.winner is Some ==> game.play(moves).winner is Some,
    decreases moves.len(),
{
    if moves.len() > 0 {
        law_play_never_adds_pebbles(game, moves.drop_last());
        lemma_act(game.play(moves.drop_last()), moves.last());
    }
}

/// The pile only ever shrinks over the life of a game: of any two moments
/// in a run of moves, the later one has no more pebbles than the earlier.
pub proof fn law_pile_never_grows(game: GameModel, moves: Seq<Move>, earlier: int, later: int)
    requires
        game.wf(),
        0 <= earlier <= later <= moves.len(),
    ensures
        game.play(moves.take(later)).pebbles_remaining <= game.play(
            moves.take(earlier),
        ).pebbles_remaining,
    decreases later - earlier,
{
    if earlier < later {
        law_pile_never_grows(game, moves, earlier, later - 1);
        law_play_never_adds_pebbles(game, moves.take(later - 1));
        assert(moves.take(later).drop_last() == moves.take(later - 1));
        assert(moves.take(later).last() == moves[later - 1]);
        lemma_act(game.play(moves.take(later - 1)), moves[later - 1]);
    }
}

/// A restart owes nothing to the game it replaces: with the same valid
/// parameters, first player and draw, it sets up the same game whatever was
/// in play before, be it won, conceded, half played or none at all. The new
/// game has nobody as its winner and its own pile.
pub proof fn law_restart_forgets(
    before: Option<GameModel>,
    other_before: Option<GameModel>,
    difficulty: DifficultyLevel,
    pebbles_count: u32,
    max_pebbles_per_turn: u32,
    first_player: Player,
    draw: nat,
)
    requires
        valid_setup(pebbles_count as nat, max_pebbles_per_turn as nat),
    ensures
        ({
            let action = PebblesAction::Restart { difficulty, pebbles_count, max_pebbles_per_turn };
            let opening = GameModel::opening(
                difficulty,
                pebbles_count as nat,
                max_pebbles_per_turn as nat,
                first_player,
                draw,
            );
            &&& step(before, action, first_player, draw) == step(
                other_before,
                action,
                first_player,
                draw,
            )
            &&& step(before, action, first_player, draw) == (
                Some(opening),
                Ok::<ReplyModel, SetupError>(ReplyModel::Started(opening)),
            )
            &&& opening.winner is None
            &&& 0 < opening.pebbles_remaining <= pebbles_count
        }),
{
    lemma_opening(
        difficulty,
        pebbles_count as nat,
        max_pebbles_per_turn as nat,
        first_player,
        draw,
    );
}

/// A refused restart changes nothing: the game in play stays as it was.
pub proof fn law_refused_restart_keeps_game(
    before: Option<GameModel>,
    difficulty: DifficultyLevel,
    pebbles_count: u32,
    max_pebbles_per_turn: u32,
    first_player: Player,
    draw: nat,
)
    requires
        !valid_setup(pebbles_count as nat, max_pebbles_per_turn as nat),
    ensures
        step(
            before,
            PebblesAction::Restart { difficulty, pebbles_count, max_pebbles_per_turn },
            first_player,
            draw,
        ).0 == before,
        step(
            before,
            PebblesAction::Restart { difficulty, pebbles_count, max_pebbles_per_turn },
            first_player,
            draw,
        ).1 is Err,
{
}

/// A concession always goes to the program: whatever the game in play,
/// live or won, with pebbles left or none, the program is the winner
/// afterwards, the answer says so, and the pile is as it was.
pub proof fn law_give_up_goes_to_program(before: Option<GameModel>, first_player: Player, draw: nat)
    ensures
        ({
            let (after, reply) = step(before, PebblesAction::GiveUp, first_player, draw);
            &&& after is Some
            &&& after->0.winner == Some(Player::Program)
            &&& reply == Ok::<ReplyModel, SetupError>(
                ReplyModel::Event(PebblesEvent::Won(Player::Program)),
            )
            &&& before matches Some(game) ==> after->0.pebbles_remaining
                == game.pebbles_remaining && after->0.same_setup(game)
        }),
{
}

} // verus!
