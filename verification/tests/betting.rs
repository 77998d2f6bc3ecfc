use rps_engine::ai::{ComputerAI, ComputerAIAPI};
use rps_engine::betting::{advise_stake, BASE_STAKE};
use rps_engine::word::Word;
use ruint::aliases::U256;

fn w(x: u64) -> Word {
    Word::from_u64(x)
}

fn max_word() -> Word {
    Word::from_limbs(u64::MAX, u64::MAX, u64::MAX, u64::MAX)
}

fn to_outside(x: Word) -> U256 {
    U256::from_limbs([x.l0, x.l1, x.l2, x.l3])
}

fn advice(player_wins: u64, computer_wins: u64, total_rounds: u64, current_round: u64) -> Word {
    ComputerAI::new().get_betting_advice(
        w(player_wins),
        w(computer_wins),
        w(total_rounds),
        w(current_round),
    )
}

fn direct_advice(player_wins: U256, computer_wins: U256, current_round: U256) -> U256 {
    let base = U256::from(1000000000000000u64);
    let played = player_wins + computer_wins;
    if played == U256::from(0) {
        return base;
    }
    if computer_wins > player_wins {
        let advantage = computer_wins - player_wins;
        let multiplier =
            U256::from(1) + (advantage * U256::from(2) / U256::max(played, U256::from(1)));
        let capped = if multiplier > U256::from(3) { U256::from(3) } else { multiplier };
        return base * capped;
    }
    if player_wins > computer_wins {
        return base / U256::from(2);
    }
    let variation = (current_round % U256::from(20)) + U256::from(90);
    base * variation / U256::from(100)
}

#[test]
fn base_stake_is_a_thousandth_of_ten_to_the_eighteenth() {
    assert_eq!(BASE_STAKE, 1_000_000_000_000_000);
}

#[test]
fn before_any_win_the_advice_is_the_base_stake() {
    assert_eq!(advice(0, 0, 5, 0), w(BASE_STAKE));
    assert_eq!(advice(0, 0, 5, 4), w(BASE_STAKE));
    assert_eq!(advice(0, 0, 0, 19), w(BASE_STAKE));
}

#[test]
fn a_leading_computer_raises_the_stake() {
    assert_eq!(advice(0, 1, 5, 1), w(3 * BASE_STAKE));
    assert_eq!(advice(0, 4, 7, 4), w(3 * BASE_STAKE));
    assert_eq!(advice(1, 3, 7, 4), w(2 * BASE_STAKE));
    assert_eq!(advice(1, 4, 7, 5), w(2 * BASE_STAKE));
    assert_eq!(advice(3, 9, 20, 12), w(2 * BASE_STAKE));
    assert_eq!(advice(1, 2, 5, 3), w(BASE_STAKE));
    assert_eq!(advice(2, 5, 9, 7), w(BASE_STAKE));
    assert_eq!(advice(3, 8, 20, 11), w(BASE_STAKE));
    assert_eq!(advice(4, 11, 20, 15), w(BASE_STAKE));
    assert_eq!(advice(4, 12, 20, 16), w(2 * BASE_STAKE));
}

#[test]
fn a_leading_computer_stays_between_one_and_three_base_stakes() {
    for p in 0..25u64 {
        for c in (p + 1)..40u64 {
            let stake = advice(p, c, 40, p + c).to_u64().unwrap();
            assert!(BASE_STAKE <= stake && stake <= 3 * BASE_STAKE);
            assert_eq!(stake % BASE_STAKE, 0);
        }
    }
}

#[test]
fn a_leading_player_halves_the_stake() {
    assert_eq!(advice(1, 0, 5, 1), w(500_000_000_000_000));
    assert_eq!(advice(3, 1, 5, 4), w(500_000_000_000_000));
    for p in 1..30u64 {
        for c in 0..p {
            assert_eq!(advice(p, c, 60, 7), w(BASE_STAKE / 2));
        }
    }
    assert_eq!(
        advise_stake(max_word(), w(0), w(0)),
        w(500_000_000_000_000)
    );
}

#[test]
fn an_even_score_varies_with_the_round() {
    assert_eq!(advice(2, 2, 5, 0), w(900_000_000_000_000));
    assert_eq!(advice(2, 2, 5, 4), w(940_000_000_000_000));
    assert_eq!(advice(1, 1, 5, 10), w(1_000_000_000_000_000));
    assert_eq!(advice(3, 3, 7, 19), w(1_090_000_000_000_000));
    assert_eq!(advice(3, 3, 7, 20), w(900_000_000_000_000));
    assert_eq!(advice(3, 3, 7, 25), w(950_000_000_000_000));
}

#[test]
fn the_length_of_the_tournament_does_not_enter() {
    for total in [0u64, 1, 5, 7, 10, u64::MAX] {
        assert_eq!(advice(1, 3, total, 4), advice(1, 3, 5, 4));
        assert_eq!(advice(2, 2, total, 4), advice(2, 2, 5, 4));
    }
}

#[test]
fn scores_whose_sum_passes_the_word_are_advised_exactly() {
    let half = Word::from_limbs(0, 0, 0, 1 << 63);
    // Both the sum and the doubled advantage pass 2^256.
    assert_eq!(advise_stake(w(1), max_word(), w(0)), w(2 * BASE_STAKE));
    assert_eq!(
        advise_stake(Word::from_limbs(0, 0, 0, 1 << 61), Word::from_limbs(0, 0, 0, 7 << 61), w(0)),
        w(2 * BASE_STAKE)
    );
    // Only the doubled advantage passes 2^256.
    assert_eq!(advise_stake(w(0), max_word(), w(0)), w(3 * BASE_STAKE));
    assert_eq!(
        advise_stake(Word::from_limbs(0, 0, 0, 1 << 62), Word::from_limbs(0, 0, 0, 3 << 62), w(0)),
        w(2 * BASE_STAKE)
    );
    // Only the sum passes 2^256.
    assert_eq!(advise_stake(half, Word::from_limbs(1, 0, 0, 1 << 63), w(0)), w(BASE_STAKE));
    assert_eq!(advise_stake(half, Word::from_limbs(5, 0, 0, 1 << 63), w(0)), w(BASE_STAKE));
    assert_eq!(
        advise_stake(
            Word::from_limbs(1, 0, 0, 1 << 62),
            Word::from_limbs(0, 0, 0, 3 << 62),
            w(0)
        ),
        w(BASE_STAKE)
    );
}

#[test]
fn an_even_score_whose_sum_passes_the_word_is_still_even() {
    let half = Word::from_limbs(0, 0, 0, 1 << 63);
    assert_eq!(advise_stake(half, half, w(3)), w(930_000_000_000_000));
    assert_eq!(advise_stake(max_word(), max_word(), w(19)), w(1_090_000_000_000_000));
}

#[test]
fn the_round_is_reduced_before_it_is_used() {
    // 2^256 - 1 leaves 15 modulo 20.
    assert_eq!(advise_stake(w(1), w(1), max_word()), w(1_050_000_000_000_000));
    assert_eq!(advise_stake(w(1), w(1), Word::from_limbs(0, 1, 0, 0)), w(1_060_000_000_000_000));
}

#[test]
fn advice_agrees_with_wide_integer_arithmetic_where_nothing_wraps() {
    let wins = [
        w(0),
        w(1),
        w(2),
        w(3),
        w(10),
        w(u64::MAX),
        Word::from_limbs(7, 7, 0, 0),
        Word::from_limbs(0, 0, 0, 1 << 60),
    ];
    let rounds = [w(0), w(19), w(20), w(123456789), Word::from_limbs(3, 2, 1, 0)];
    for p in wins {
        for c in wins {
            for r in rounds {
                let expected = direct_advice(to_outside(p), to_outside(c), to_outside(r));
                assert_eq!(to_outside(advise_stake(p, c, r)), expected);
            }
        }
    }
}
