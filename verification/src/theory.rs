//! Why the hard level cannot be beaten: the theory of the subtraction game.

use crate::strategy::{hard_choice, legal_move};
use vstd::arithmetic::div_mod::{
    lemma_fundamental_div_mod,
    lemma_fundamental_div_mod_converse_mod,
    lemma_mod_bound,
    lemma_mod_multiples_basic,
};
use vstd::arithmetic::mul::lemma_mul_is_commutative;
use vstd::prelude::*;

verus! {

/// Some legal move on a pile of `pebbles` leaves `left` of them.
pub open spec fn leaves(pebbles: nat, max_pebbles_per_turn: nat, left: nat) -> bool {
    left < pebbles && pebbles - left <= max_pebbles_per_turn
}

/// The player who is to move on a pile of `pebbles` can force a win: some
/// legal move leaves a pile of `left` pebbles from which the opponent
/// cannot. On an empty pile nobody can move, and the player to move has lost.
pub open spec fn mover_wins(pebbles: nat, max_pebbles_per_turn: nat) -> bool
    decreases pebbles,
{
    exists|left: nat| #[trigger]
        leaves(pebbles, max_pebbles_per_turn, left) && !mover_wins(left, max_pebbles_per_turn)
}

/// Taking the remainder of a pile modulo `modulus` leaves a multiple of it.
proof fn lemma_remainder_taken(pebbles: nat, modulus: nat)
    requires
        modulus >= 1,
    ensures
        pebbles % modulus <= pebbles,
        ((pebbles - pebbles % modulus) as nat) % modulus == 0,
{
    let m = modulus as int;
    let p = pebbles as int;
    lemma_mod_bound(p, m);
    lemma_fundamental_div_mod(p, m);
    assert(p / m >= 0) by {
        vstd::arithmetic::div_mod::lemma_div_pos_is_pos(p, m);
    }
    assert(p - p % m == (p / m) * m) by {
        lemma_mul_is_commutative(m, p / m);
    }
    lemma_mod_multiples_basic(p / m, m);
}

/// Taking fewer than `modulus` pebbles, and at least one, from a multiple of
/// `modulus` leaves no multiple of it.
proof fn lemma_multiple_left(pebbles: nat, modulus: nat, count: nat)
    requires
        modulus >= 1,
        pebbles % modulus == 0,
        1 <= count < modulus,
        count <= pebbles,
    ensures
        ((pebbles - count) as nat) % modulus != 0,
{
    let m = modulus as int;
    let p = pebbles as int;
    lemma_fundamental_div_mod(p, m);
    let q = p / m;
    assert(p - count == (q - 1) * m + (m - count)) by {
        lemma_mul_is_commutative(m, q);
        assert((q - 1) * m == q * m - m) by (nonlinear_arith);
    }
    lemma_fundamental_div_mod_converse_mod(p - count, m, q - 1, m - count);
}

/// The player to move loses against best play exactly on the piles that are
/// a multiple of the turn bound plus one.
pub proof fn lemma_losing_positions(pebbles: nat, max_pebbles_per_turn: nat)
    requires
        max_pebbles_per_turn >= 1,
    ensures
        mover_wins(pebbles, max_pebbles_per_turn) <==> pebbles % (max_pebbles_per_turn + 1) != 0,
    decreases pebbles,
{
    let modulus = max_pebbles_per_turn + 1;
    if pebbles % modulus != 0 {
        lemma_mod_bound(pebbles as int, modulus as int);
        lemma_remainder_taken(pebbles, modulus);
        let left = (pebbles - pebbles % modulus) as nat;
        lemma_losing_positions(left, max_pebbles_per_turn);
        assert(leaves(pebbles, max_pebbles_per_turn, left));
    } else {
        assert forall|left: nat| #[trigger]
            leaves(pebbles, max_pebbles_per_turn, left) implies mover_wins(
            left,
            max_pebbles_per_turn,
        ) by {
            lemma_multiple_left(pebbles, modulus, (pebbles - left) as nat);
            lemma_losing_positions(left, max_pebbles_per_turn);
        }
    }
}

/// The hard move is the best there is: wherever the player to move can force
/// a win at all, the hard move is legal and leaves a pile from which the
/// opponent cannot.
pub proof fn lemma_hard_choice_wins(pebbles: nat, max_pebbles_per_turn: nat)
    requires
        max_pebbles_per_turn >= 1,
        mover_wins(pebbles, max_pebbles_per_turn),
    ensures
        legal_move(
            pebbles as int,
            max_pebbles_per_turn as int,
            hard_choice(pebbles as int, max_pebbles_per_turn as int),
        ),
        !mover_wins(
            (pebbles - hard_choice(pebbles as int, max_pebbles_per_turn as int)) as nat,
            max_pebbles_per_turn,
        ),
{
    let modulus = max_pebbles_per_turn + 1;
    let count = hard_choice(pebbles as int, max_pebbles_per_turn as int);
    lemma_losing_positions(pebbles, max_pebbles_per_turn);
    lemma_mod_bound(pebbles as int, modulus as int);
    if pebbles <= max_pebbles_per_turn {
        vstd::arithmetic::div_mod::lemma_small_mod(0, modulus);
    } else {
        lemma_remainder_taken(pebbles, modulus);
    }
    lemma_losing_positions((pebbles - count) as nat, max_pebbles_per_turn);
}

/// From a pile that is a multiple of the turn bound plus one no move helps:
/// whatever is taken, the opponent can force a win.
pub proof fn lemma_no_move_helps(pebbles: nat, max_pebbles_per_turn: nat, count: nat)
    requires
        max_pebbles_per_turn >= 1,
        pebbles % (max_pebbles_per_turn + 1) == 0,
        legal_move(pebbles as int, max_pebbles_per_turn as int, count as int),
    ensures
        mover_wins((pebbles - count) as nat, max_pebbles_per_turn),
{
    lemma_multiple_left(pebbles, max_pebbles_per_turn + 1, count);
    lemma_losing_positions((pebbles - count) as nat, max_pebbles_per_turn);
}

} // verus!
