//! Tournament control: how many rounds are played, how many wins clinch the
//! tournament, and who is champion on a given score.
//!
//! The round count is drawn from the inclusive range 1 to 10. An even count can end in a
//! tie, which [`Champion::Undetermined`] covers.

use crate::arith::{div, rem, wrapping_add};
use crate::mixer::{mix_rounds, rounds_entropy};
use crate::word::{lemma_view_bound, modulus, Word};
use vstd::prelude::*;

verus! {

/// The fewest rounds a tournament can have.
pub const MIN_ROUNDS: u64 = 1;

/// The most rounds a tournament can have.
pub const MAX_ROUNDS: u64 = 10;

/// Who has won a tournament, if anyone has.
#[derive(Clone, Copy, Debug, PartialEq, Eq, Structural)]
pub enum Champion {
    Player,
    Computer,
    Undetermined,
}

/// The round count drawn from `seed`: the entropy of the seed reduced into 1 to 10.
pub open spec fn round_count(seed: nat) -> nat {
    rounds_entropy(seed) % (MAX_ROUNDS as nat) + MIN_ROUNDS as nat
}

/// The wins needed to clinch a tournament: `floor(total_rounds / 2) + 1`.
pub open spec fn majority_threshold(total_rounds: nat) -> nat {
    total_rounds / 2 + 1
}

/// The champion on a score: the player on reaching the threshold, else the computer on
/// reaching it, else nobody yet.
pub open spec fn champion(player_wins: nat, computer_wins: nat, total_rounds: nat) -> Champion {
    if player_wins >= majority_threshold(total_rounds) {
        Champion::Player
    } else if computer_wins >= majority_threshold(total_rounds) {
        Champion::Computer
    } else {
        Champion::Undetermined
    }
}

/// Draws the number of rounds of a tournament from `seed`.
pub fn generate_rounds(seed: Word) -> (rounds: Word)
    ensures
        rounds@ == round_count(seed@),
        MIN_ROUNDS <= rounds@ <= MAX_ROUNDS,
{
    let mixed = mix_rounds(seed);
    let slot = rem(mixed, Word::from_u64(MAX_ROUNDS));
    proof {
        vstd::arithmetic::div_mod::lemma_small_mod(slot@ + MIN_ROUNDS as nat, modulus());
    }
    wrapping_add(slot, Word::from_u64(MIN_ROUNDS))
}

/// The wins needed to clinch a tournament of `total_rounds` rounds.
pub fn get_majority_threshold(total_rounds: Word) -> (threshold: Word)
    ensures
        threshold@ == majority_threshold(total_rounds@),
{
    let half = div(total_rounds, Word::from_u64(2));
    proof {
        lemma_view_bound(total_rounds);
        vstd::arithmetic::div_mod::lemma_small_mod(half@ + 1, modulus());
    }
    wrapping_add(half, Word::from_u64(1))
}

/// The champion of a tournament of `total_rounds` rounds on the given score.
pub fn determine_champion(player_wins: Word, computer_wins: Word, total_rounds: Word) -> (winner:
    Champion)
    ensures
        winner == champion(player_wins@, computer_wins@, total_rounds@),
{
    let threshold = get_majority_threshold(total_rounds);
    if !player_wins.lt(&threshold) {
        Champion::Player
    } else if !computer_wins.lt(&threshold) {
        Champion::Computer
    } else {
        Champion::Undetermined
    }
}

/// Every round count lies in the range 1 to 10.
pub proof fn lemma_round_count_in_range(seed: nat)
    ensures
        MIN_ROUNDS <= round_count(seed) <= MAX_ROUNDS,
{
}

/// On a score that fits the tournament, at most one side has reached the threshold.
pub proof fn lemma_single_champion(player_wins: nat, computer_wins: nat, total_rounds: nat)
    requires
        player_wins + computer_wins <= total_rounds,
    ensures
        !(player_wins >= majority_threshold(total_rounds) && computer_wins >= majority_threshold(
            total_rounds,
        )),
        champion(player_wins, computer_wins, total_rounds) == Champion::Computer
            <==> computer_wins >= majority_threshold(total_rounds),
{
}

/// Once every round of an odd-length tournament is decided, there is a champion.
pub proof fn lemma_odd_tournament_is_decided(
    player_wins: nat,
    computer_wins: nat,
    total_rounds: nat,
)
    requires
        total_rounds % 2 == 1,
        player_wins + computer_wins == total_rounds,
    ensures
        champion(player_wins, computer_wins, total_rounds) != Champion::Undetermined,
{
}

} // verus!
