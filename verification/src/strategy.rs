//! The automated opponent's choice of a move.

use vstd::prelude::*;
use vstd::arithmetic::div_mod::{
    lemma_fundamental_div_mod, lemma_mod_decreases, lemma_mod_multiples_basic, lemma_small_mod,
    lemma_mod_add_multiples_vanish, lemma_sub_mod_noop,
};
use rand::Rng;

verus! {

/// The move of the hard strategy on a pile of `remaining` pebbles when at most
/// `max_per_turn` may be taken: the remainder of `remaining` modulo
/// `max_per_turn + 1`, which leaves the user a multiple of `max_per_turn + 1`.
/// Where that remainder is zero no such move exists, and the strategy takes a
/// single pebble so that the game goes on; from an empty pile it takes nothing.
pub open spec fn spec_hard_move(remaining: u32, max_per_turn: u32) -> u32 {
    let rem = remaining as int % (max_per_turn as int + 1);
    if rem != 0 {
        rem as u32
    } else if remaining > 0 {
        1
    } else {
        0
    }
}

/// Computes the hard strategy's move.
pub fn hard_move(remaining: u32, max_per_turn: u32) -> (pebbles: u32)
    ensures
        pebbles == spec_hard_move(remaining, max_per_turn),
        remaining > 0 && max_per_turn > 0 ==> 1 <= pebbles <= max_per_turn && pebbles <= remaining,
{
    let modulus: u64 = max_per_turn as u64 + 1;
    let rem: u64 = remaining as u64 % modulus;
    proof {
        lemma_mod_decreases(remaining as nat, modulus as nat);
    }
    if rem != 0 {
        rem as u32
    } else if remaining > 0 {
        1
    } else {
        0
    }
}

/// On a pile that is not empty the hard strategy takes at least one pebble,
/// no more than a turn may take and no more than the pile holds. Where the
/// pile is no multiple of `max_per_turn + 1` the move is the remainder of the
/// pile modulo `max_per_turn + 1`; where it is one, the move is a single pebble.
pub proof fn lemma_hard_move_is_legal(remaining: u32, max_per_turn: u32)
    requires
        remaining > 0,
        max_per_turn > 0,
    ensures
        1 <= spec_hard_move(remaining, max_per_turn) <= max_per_turn,
        spec_hard_move(remaining, max_per_turn) <= remaining,
        remaining as int % (max_per_turn as int + 1) != 0 ==> spec_hard_move(
            remaining,
            max_per_turn,
        ) == remaining as int % (max_per_turn as int + 1),
        remaining as int % (max_per_turn as int + 1) == 0 ==> spec_hard_move(
            remaining,
            max_per_turn,
        ) == 1,
{
    lemma_mod_decreases(remaining as nat, (max_per_turn + 1) as nat);
}

/// Where the pile is no multiple of `max_per_turn + 1`, the hard strategy's
/// move leaves one.
pub proof fn lemma_hard_move_leaves_multiple(remaining: u32, max_per_turn: u32)
    requires
        remaining as int % (max_per_turn as int + 1) != 0,
    ensures
        (remaining - spec_hard_move(remaining, max_per_turn)) % (max_per_turn as int + 1) == 0,
        spec_hard_move(remaining, max_per_turn) <= remaining,
{
    let modulus = max_per_turn as int + 1;
    lemma_mod_decreases(remaining as nat, modulus as nat);
    lemma_fundamental_div_mod(remaining as int, modulus);
    lemma_mod_multiples_basic(remaining as int / modulus, modulus);
    assert(remaining - remaining as int % modulus == (remaining as int / modulus) * modulus)
        by (nonlinear_arith)
        requires
            remaining as int == modulus * (remaining as int / modulus) + remaining as int
                % modulus,
    ;
}

/// From a pile that is a multiple of `max_per_turn + 1`, no turn leaves
/// another multiple: whoever faces such a pile cannot hand one back.
pub proof fn lemma_turn_breaks_multiple(remaining: u32, max_per_turn: u32, pebbles: u32)
    requires
        remaining as int % (max_per_turn as int + 1) == 0,
        1 <= pebbles <= max_per_turn,
        pebbles <= remaining,
    ensures
        (remaining - pebbles) % (max_per_turn as int + 1) != 0,
        pebbles < remaining,
{
    let modulus = max_per_turn as int + 1;
    lemma_sub_mod_noop(remaining as int, pebbles as int, modulus);
    lemma_small_mod(pebbles as nat, modulus as nat);
    lemma_mod_add_multiples_vanish(-(pebbles as int), modulus);
    lemma_small_mod((modulus - pebbles) as nat, modulus as nat);
    if pebbles == remaining {
        lemma_small_mod(0, modulus as nat);
    }
}

/// A draw from `rand`'s thread-local generator: `rand::thread_rng()` followed by
/// `Rng::gen_range` on the inclusive range from `low` to `high`. The generator
/// panics on an empty range, which the precondition excludes; of the number
/// drawn nothing is claimed but that it lies in the range.
#[verifier::external_body]
fn random_in_range(low: u32, high: u32) -> (drawn: u32)
    requires
        low <= high,
    ensures
        low <= drawn <= high,
{
    rand::thread_rng().gen_range(low..=high)
}

/// The moves that the easy strategy may make: any number of pebbles that a
/// turn may take, whatever is left on the pile.
pub open spec fn spec_easy_move(max_per_turn: u32, pebbles: u32) -> bool {
    1 <= pebbles <= max_per_turn
}

/// Draws the easy strategy's move at random.
pub fn easy_move(max_per_turn: u32) -> (pebbles: u32)
    requires
        max_per_turn > 0,
    ensures
        spec_easy_move(max_per_turn, pebbles),
{
    random_in_range(1, max_per_turn)
}

} // verus!
