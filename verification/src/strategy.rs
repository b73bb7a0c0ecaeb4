//! How the program chooses its move: at random on the easy level, by the
//! winning strategy of the subtraction game on the hard level.

use crate::random::get_random_u32;
use crate::state::{GameModel, GameState};
use crate::types::{DifficultyLevel, GameError};
use vstd::prelude::*;

verus! {

/// The smaller of two numbers.
pub open spec fn smaller(a: int, b: int) -> int {
    if a <= b {
        a
    } else {
        b
    }
}

/// Taking `count` pebbles is a legal move on a pile of `pebbles_remaining`
/// with the turn bound `max_pebbles_per_turn`.
pub open spec fn legal_move(pebbles_remaining: int, max_pebbles_per_turn: int, count: int) -> bool {
    1 <= count <= smaller(max_pebbles_per_turn, pebbles_remaining)
}

/// The easy move for a random `draw`: the draw reduced to the legal moves,
/// each of which stands for equally many draws, give or take one.
pub open spec fn easy_choice(pebbles_remaining: int, max_pebbles_per_turn: int, draw: int) -> int {
    if max_pebbles_per_turn <= pebbles_remaining {
        draw % max_pebbles_per_turn + 1
    } else {
        draw % pebbles_remaining + 1
    }
}

/// The hard move. A pile within the turn bound is taken whole. Otherwise the
/// pile is brought down to a multiple of the bound plus one, from where the
/// opponent cannot win; where it already is such a multiple no move helps,
/// and one pebble is taken.
pub open spec fn hard_choice(pebbles_remaining: int, max_pebbles_per_turn: int) -> int {
    if pebbles_remaining <= max_pebbles_per_turn {
        pebbles_remaining
    } else if pebbles_remaining % (max_pebbles_per_turn + 1) != 0 {
        pebbles_remaining % (max_pebbles_per_turn + 1)
    } else {
        1
    }
}

/// The program's move on the given level. Only the easy level looks at the draw.
pub open spec fn choice(
    difficulty: DifficultyLevel,
    pebbles_remaining: int,
    max_pebbles_per_turn: int,
    draw: int,
) -> int {
    match difficulty {
        DifficultyLevel::Easy => easy_choice(pebbles_remaining, max_pebbles_per_turn, draw),
        DifficultyLevel::Hard => hard_choice(pebbles_remaining, max_pebbles_per_turn),
    }
}

impl GameModel {
    /// The number of pebbles that the program takes in this game for the
    /// random `draw`.
    pub open spec fn reply(self, draw: int) -> int {
        choice(
            self.difficulty,
            self.pebbles_remaining as int,
            self.max_pebbles_per_turn as int,
            draw,
        )
    }
}

/// Whatever is drawn, the easy move is a legal one.
pub proof fn lemma_easy_choice_is_legal(pebbles_remaining: int, max_pebbles_per_turn: int, draw: int)
    requires
        pebbles_remaining >= 1,
        max_pebbles_per_turn >= 1,
    ensures
        legal_move(
            pebbles_remaining,
            max_pebbles_per_turn,
            easy_choice(pebbles_remaining, max_pebbles_per_turn, draw),
        ),
{
    vstd::arithmetic::div_mod::lemma_mod_bound(
        draw,
        smaller(max_pebbles_per_turn, pebbles_remaining),
    );
}

/// The easy move favours no legal move: every one of them is the move for
/// some draw, and the moves repeat with the number of legal moves as their
/// period, so that among draws that are equally likely the legal moves are
/// too, up to the one incomplete period at the end of the 32-bit range.
pub proof fn lemma_easy_choice_is_even(
    pebbles_remaining: int,
    max_pebbles_per_turn: int,
    count: int,
    draw: int,
)
    requires
        legal_move(pebbles_remaining, max_pebbles_per_turn, count),
        draw >= 0,
    ensures
        easy_choice(pebbles_remaining, max_pebbles_per_turn, count - 1) == count,
        easy_choice(
            pebbles_remaining,
            max_pebbles_per_turn,
            draw + smaller(max_pebbles_per_turn, pebbles_remaining),
        ) == easy_choice(pebbles_remaining, max_pebbles_per_turn, draw),
{
    let limit = smaller(max_pebbles_per_turn, pebbles_remaining);
    vstd::arithmetic::div_mod::lemma_small_mod((count - 1) as nat, limit as nat);
    vstd::arithmetic::div_mod::lemma_mod_add_multiples_vanish(draw, limit);
}

/// The hard move is a legal one.
pub proof fn lemma_hard_choice_is_legal(pebbles_remaining: int, max_pebbles_per_turn: int)
    requires
        pebbles_remaining >= 1,
        max_pebbles_per_turn >= 1,
    ensures
        legal_move(
            pebbles_remaining,
            max_pebbles_per_turn,
            hard_choice(pebbles_remaining, max_pebbles_per_turn),
        ),
{
    vstd::arithmetic::div_mod::lemma_mod_bound(pebbles_remaining, max_pebbles_per_turn + 1);
}

/// The program's move is a legal one on either level, whatever is drawn.
pub proof fn lemma_choice_is_legal(
    difficulty: DifficultyLevel,
    pebbles_remaining: int,
    max_pebbles_per_turn: int,
    draw: int,
)
    requires
        pebbles_remaining >= 1,
        max_pebbles_per_turn >= 1,
    ensures
        legal_move(
            pebbles_remaining,
            max_pebbles_per_turn,
            choice(difficulty, pebbles_remaining, max_pebbles_per_turn, draw),
        ),
{
    lemma_easy_choice_is_legal(pebbles_remaining, max_pebbles_per_turn, draw);
    lemma_hard_choice_is_legal(pebbles_remaining, max_pebbles_per_turn);
}

/// The hard level is deterministic: its move is the same for every draw.
pub proof fn lemma_hard_choice_ignores_draw(
    pebbles_remaining: int,
    max_pebbles_per_turn: int,
    draw: int,
    other_draw: int,
)
    ensures
        choice(DifficultyLevel::Hard, pebbles_remaining, max_pebbles_per_turn, draw) == choice(
            DifficultyLevel::Hard,
            pebbles_remaining,
            max_pebbles_per_turn,
            other_draw,
        ),
{
}

/// The easy move for `draw`: between one and the smaller of the turn bound
/// and the pile.
pub fn easy_move(pebbles_remaining: u32, max_pebbles_per_turn: u32, draw: u32) -> (count: u32)
    requires
        pebbles_remaining >= 1,
        max_pebbles_per_turn >= 1,
    ensures
        count == easy_choice(pebbles_remaining as int, max_pebbles_per_turn as int, draw as int),
        legal_move(pebbles_remaining as int, max_pebbles_per_turn as int, count as int),
{
    let limit: u32 = if max_pebbles_per_turn <= pebbles_remaining {
        max_pebbles_per_turn
    } else {
        pebbles_remaining
    };
    proof {
        lemma_easy_choice_is_legal(
            pebbles_remaining as int,
            max_pebbles_per_turn as int,
            draw as int,
        );
    }
    draw % limit + 1
}

/// The hard move: the whole pile where the turn bound allows it, else what
/// brings the pile down to a multiple of the bound plus one, else one pebble.
pub fn hard_move(pebbles_remaining: u32, max_pebbles_per_turn: u32) -> (count: u32)
    ensures
        count == hard_choice(pebbles_remaining as int, max_pebbles_per_turn as int),
        pebbles_remaining >= 1 && max_pebbles_per_turn >= 1 ==> legal_move(
            pebbles_remaining as int,
            max_pebbles_per_turn as int,
            count as int,
        ),
{
    proof {
        if pebbles_remaining >= 1 && max_pebbles_per_turn >= 1 {
            lemma_hard_choice_is_legal(pebbles_remaining as int, max_pebbles_per_turn as int);
        }
    }
    if pebbles_remaining <= max_pebbles_per_turn {
        pebbles_remaining
    } else {
        let over: u32 = pebbles_remaining % (max_pebbles_per_turn + 1);
        if over != 0 {
            over
        } else {
            1
        }
    }
}

/// The program's move in `game_state` for the random `draw`, which only the
/// easy level looks at.
pub fn choose_pebbles(game_state: &GameState, draw: u32) -> (count: u32)
    requires
        game_state@.pebbles_remaining > 0,
    ensures
        count == game_state@.reply(draw as int),
        legal_move(
            game_state@.pebbles_remaining as int,
            game_state@.max_pebbles_per_turn as int,
            count as int,
        ),
{
    proof {
        use_type_invariant(game_state);
    }
    match game_state.difficulty() {
        DifficultyLevel::Easy => easy_move(
            game_state.pebbles_remaining(),
            game_state.max_pebbles_per_turn(),
            draw,
        ),
        DifficultyLevel::Hard => hard_move(
            game_state.pebbles_remaining(),
            game_state.max_pebbles_per_turn(),
        ),
    }
}

/// The program's move in `game_state`. On the hard level it is the winning
/// strategy's move; on the easy level a number is drawn from the host and
/// reduced to the legal moves. The state is left as it was.
pub fn get_pebbles_to_remove(game_state: &mut GameState) -> (count: Result<u32, GameError>)
    requires
        old(game_state)@.pebbles_remaining > 0,
    ensures
        *final(game_state) == *old(game_state),
        match count {
            Ok(n) => {
                &&& legal_move(
                    old(game_state)@.pebbles_remaining as int,
                    old(game_state)@.max_pebbles_per_turn as int,
                    n as int,
                )
                &&& exists|draw: u32| n == #[trigger] old(game_state)@.reply(draw as int)
            },
            Err(e) => e == GameError::RandomnessUnavailable && old(game_state)@.difficulty is Easy,
        },
        old(game_state)@.difficulty is Hard ==> count is Ok,
{
    match game_state.difficulty() {
        DifficultyLevel::Easy => {
            match get_random_u32() {
                Ok(draw) => Ok(choose_pebbles(game_state, draw)),
                Err(e) => Err(e),
            }
        },
        DifficultyLevel::Hard => Ok(choose_pebbles(game_state, 0)),
    }
}

} // verus!
