//! Betting advice: the stake the computer recommends, from the running score.
//!
//! The policy is stated over exact natural numbers. The executable code works on
//! 256-bit words whose sums and doubles may pass `2^256`; it detects every such case and
//! still returns the exact policy value, for every score.

use crate::arith::{div, rem, wrapping_add, wrapping_mul, wrapping_sub};
use crate::word::{lemma_view_bound, modulus, Word};
use vstd::prelude::*;

verus! {

/// The stake, in the smallest currency unit, that every recommendation is scaled from.
pub const BASE_STAKE: u64 = 1_000_000_000_000_000;

/// The largest factor by which a leading computer raises the base stake.
pub const MULTIPLIER_CAP: u64 = 3;

/// The number of distinct percentages an even score cycles through.
pub const VARIATION_SPAN: u64 = 20;

/// The lowest percentage of the base stake advised on an even score.
pub const VARIATION_FLOOR: u64 = 90;

/// The factor on the base stake while the computer leads:
/// `1 + 2 * advantage / max(played, 1)`, rounded down and capped.
pub open spec fn stake_multiplier(player_wins: nat, computer_wins: nat) -> nat
    recommends
        computer_wins > player_wins,
{
    let played = player_wins + computer_wins;
    let advantage = (computer_wins - player_wins) as nat;
    let raw = 1 + (advantage * 2) / (if played >= 1 {
        played
    } else {
        1
    });
    if raw > MULTIPLIER_CAP {
        MULTIPLIER_CAP as nat
    } else {
        raw
    }
}

/// The percentage of the base stake advised on an even score: 90 up to 109, by round.
pub open spec fn variation(current_round: nat) -> nat {
    current_round % (VARIATION_SPAN as nat) + VARIATION_FLOOR as nat
}

/// The advised stake. In this order: the base stake before any round is decided; the
/// base stake times [`stake_multiplier`] while the computer leads; half the base stake
/// while the player leads; else [`variation`] percent of the base stake, rounded down.
pub open spec fn advised_stake(player_wins: nat, computer_wins: nat, current_round: nat) -> nat {
    if player_wins + computer_wins == 0 {
        BASE_STAKE as nat
    } else if computer_wins > player_wins {
        BASE_STAKE as nat * stake_multiplier(player_wins, computer_wins)
    } else if player_wins > computer_wins {
        BASE_STAKE as nat / 2
    } else {
        BASE_STAKE as nat * variation(current_round) / 100
    }
}

/// The rounded-down quotient `2 * advantage / played` while the computer leads.
pub open spec fn lead_quotient(player_wins: nat, computer_wins: nat) -> nat
    recommends
        computer_wins > player_wins,
{
    ((computer_wins - player_wins) as nat * 2) / (player_wins + computer_wins)
}

/// While the computer leads, the quotient is 2 against a player without a win, 1 where
/// the computer has at least three times the player's wins, and 0 otherwise; the
/// multiplier is one more, so the cap is never what decides.
pub proof fn lemma_multiplier_by_lead(player_wins: nat, computer_wins: nat)
    requires
        computer_wins > player_wins,
    ensures
        lead_quotient(player_wins, computer_wins) == (if player_wins == 0 {
            2nat
        } else if computer_wins >= 3 * player_wins {
            1nat
        } else {
            0nat
        }),
        stake_multiplier(player_wins, computer_wins) == 1 + lead_quotient(
            player_wins,
            computer_wins,
        ),
{
    let played = (player_wins + computer_wins) as int;
    let doubled = ((computer_wins - player_wins) as nat * 2) as int;
    if player_wins == 0 {
        vstd::arithmetic::div_mod::lemma_fundamental_div_mod_converse(doubled, played, 2, 0);
    } else if computer_wins >= 3 * player_wins {
        vstd::arithmetic::div_mod::lemma_fundamental_div_mod_converse(
            doubled,
            played,
            1,
            doubled - played,
        );
    } else {
        vstd::arithmetic::div_mod::lemma_fundamental_div_mod_converse(doubled, played, 0, doubled);
    }
}

/// What the wrapped sum and the wrapped double of the advantage tell of the exact
/// quotient, case by case of which of the two passed `2^256`.
proof fn lemma_quotient_from_wrapped(
    player_wins: nat,
    computer_wins: nat,
    played: nat,
    doubled: nat,
)
    requires
        player_wins < computer_wins < modulus(),
        played == (player_wins + computer_wins) % modulus(),
        doubled == ((computer_wins - player_wins) as nat * 2) % modulus(),
    ensures
        played >= computer_wins <==> player_wins + computer_wins < modulus(),
        doubled >= computer_wins - player_wins <==> (computer_wins - player_wins) * 2 < modulus(),
        played >= computer_wins && doubled >= computer_wins - player_wins ==> played
            == player_wins + computer_wins && doubled == (computer_wins - player_wins) * 2,
        played < computer_wins && doubled < computer_wins - player_wins ==> lead_quotient(
            player_wins,
            computer_wins,
        ) == (if doubled >= played {
            1nat
        } else {
            0nat
        }),
        played < computer_wins && doubled >= computer_wins - player_wins ==> lead_quotient(
            player_wins,
            computer_wins,
        ) == 0,
        played >= computer_wins && doubled < computer_wins - player_wins ==> lead_quotient(
            player_wins,
            computer_wins,
        ) == (if player_wins == 0 {
            2nat
        } else {
            1nat
        }),
{
    lemma_multiplier_by_lead(player_wins, computer_wins);
    let m = modulus() as int;
    let sum = (player_wins + computer_wins) as int;
    let twice = ((computer_wins - player_wins) * 2) as int;
    if sum < m {
        vstd::arithmetic::div_mod::lemma_small_mod(sum as nat, modulus());
    } else {
        vstd::arithmetic::div_mod::lemma_fundamental_div_mod_converse(sum, m, 1, sum - m);
    }
    if twice < m {
        vstd::arithmetic::div_mod::lemma_small_mod(twice as nat, modulus());
    } else {
        vstd::arithmetic::div_mod::lemma_fundamental_div_mod_converse(twice, m, 1, twice - m);
    }
}

/// While the computer leads, the advised stake is at least the base stake and at most
/// three times the base stake.
pub proof fn lemma_stake_when_computer_leads(
    player_wins: nat,
    computer_wins: nat,
    current_round: nat,
)
    requires
        computer_wins > player_wins,
    ensures
        BASE_STAKE <= advised_stake(player_wins, computer_wins, current_round) <= 3 * BASE_STAKE,
{
    lemma_multiplier_by_lead(player_wins, computer_wins);
}

/// While the player leads, the advised stake is half the base stake, rounded down.
pub proof fn lemma_stake_when_player_leads(
    player_wins: nat,
    computer_wins: nat,
    current_round: nat,
)
    requires
        player_wins > computer_wins,
    ensures
        advised_stake(player_wins, computer_wins, current_round) == BASE_STAKE as nat / 2,
{
}

/// On an even score after at least one decided round, the advised stake lies between
/// 90 and 109 percent of the base stake.
pub proof fn lemma_stake_when_even(wins: nat, current_round: nat)
    requires
        wins > 0,
    ensures
        BASE_STAKE as nat * 90 / 100 <= advised_stake(wins, wins, current_round) <= BASE_STAKE as nat
            * 109 / 100,
{
}

/// The factor on the base stake while the computer leads, exact for every score.
fn leading_multiplier(player_wins: Word, computer_wins: Word) -> (multiplier: Word)
    requires
        computer_wins@ > player_wins@,
    ensures
        multiplier@ == stake_multiplier(player_wins@, computer_wins@),
{
    let advantage = wrapping_sub(computer_wins, player_wins);
    let played = wrapping_add(player_wins, computer_wins);
    let doubled = wrapping_mul(advantage, Word::from_u64(2));
    let played_wrapped = played.lt(&computer_wins);
    let doubled_wrapped = doubled.lt(&advantage);
    let ghost exact = lead_quotient(player_wins@, computer_wins@);
    proof {
        lemma_view_bound(player_wins);
        lemma_view_bound(computer_wins);
        lemma_difference(computer_wins@, player_wins@);
        lemma_multiplier_by_lead(player_wins@, computer_wins@);
        lemma_quotient_from_wrapped(player_wins@, computer_wins@, played@, doubled@);
    }
    let quotient = if !played_wrapped && !doubled_wrapped {
        div(doubled, played)
    } else if played_wrapped && doubled_wrapped {
        if !doubled.lt(&played) {
            Word::from_u64(1)
        } else {
            Word::from_u64(0)
        }
    } else if played_wrapped {
        Word::from_u64(0)
    } else if player_wins.is_zero() {
        Word::from_u64(2)
    } else {
        Word::from_u64(1)
    };
    assert(quotient@ == exact);
    let raw = wrapping_add(Word::from_u64(1), quotient);
    proof {
        vstd::arithmetic::div_mod::lemma_small_mod(1 + exact, modulus());
    }
    let cap = Word::from_u64(MULTIPLIER_CAP);
    if cap.lt(&raw) {
        cap
    } else {
        raw
    }
}

/// The stake advised on the given score in the given round. No score makes it fault:
/// the result is the exact policy value even where the two win counts add up to `2^256`
/// or more.
pub fn advise_stake(player_wins: Word, computer_wins: Word, current_round: Word) -> (stake: Word)
    ensures
        stake@ == advised_stake(player_wins@, computer_wins@, current_round@),
        computer_wins@ > player_wins@ ==> BASE_STAKE <= stake@ <= 3 * BASE_STAKE,
        player_wins@ > computer_wins@ ==> stake@ == BASE_STAKE as nat / 2,
{
    proof {
        if computer_wins@ > player_wins@ {
            lemma_stake_when_computer_leads(player_wins@, computer_wins@, current_round@);
        }
    }
    let base = Word::from_u64(BASE_STAKE);
    if player_wins.is_zero() && computer_wins.is_zero() {
        return base;
    }
    if player_wins.lt(&computer_wins) {
        let multiplier = leading_multiplier(player_wins, computer_wins);
        proof {
            lemma_multiplier_by_lead(player_wins@, computer_wins@);
            lemma_scaled_stake_fits(multiplier@);
        }
        return wrapping_mul(base, multiplier);
    }
    if computer_wins.lt(&player_wins) {
        return div(base, Word::from_u64(2));
    }
    let step = rem(current_round, Word::from_u64(VARIATION_SPAN));
    proof {
        vstd::arithmetic::div_mod::lemma_small_mod(step@ + VARIATION_FLOOR as nat, modulus());
    }
    let percent = wrapping_add(step, Word::from_u64(VARIATION_FLOOR));
    proof {
        lemma_scaled_stake_fits(percent@);
    }
    div(wrapping_mul(base, percent), Word::from_u64(100))
}

/// The base stake times a factor of at most 110 stays far below `2^256`.
proof fn lemma_scaled_stake_fits(factor: nat)
    requires
        factor <= 110,
    ensures
        (BASE_STAKE as nat * factor) % modulus() == BASE_STAKE as nat * factor,
{
    vstd::arithmetic::div_mod::lemma_small_mod(BASE_STAKE as nat * factor, modulus());
}

/// A wraparound difference is exact where nothing is borrowed.
proof fn lemma_difference(a: nat, b: nat)
    requires
        b <= a < modulus(),
    ensures
        (a + modulus() - b) as nat % modulus() == a - b,
{
    vstd::arithmetic::div_mod::lemma_fundamental_div_mod_converse(
        (a + modulus() - b) as int,
        modulus() as int,
        1,
        a - b,
    );
}

} // verus!
