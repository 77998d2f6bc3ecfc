use rps_engine::oracle::{RandomOracle, RandomOracleAPI};
use rps_engine::tournament::{
    determine_champion, generate_rounds, get_majority_threshold, Champion,
};
use rps_engine::word::Word;
use ruint::aliases::U256;

fn w(x: u64) -> Word {
    Word::from_u64(x)
}

fn max_word() -> Word {
    Word::from_limbs(u64::MAX, u64::MAX, u64::MAX, u64::MAX)
}

fn to_outside(x: Word) -> U256 {
    U256::from_limbs([x.l0, x.l1, x.l2, x.l3])
}

fn direct_rounds(seed: U256) -> U256 {
    let mixed = seed.wrapping_mul(U256::from(7919)).wrapping_add(U256::from(12345))
        ^ U256::from(54321);
    (mixed % U256::from(10)) + U256::from(1)
}

#[test]
fn majority_threshold_of_odd_tournaments() {
    assert_eq!(get_majority_threshold(w(5)), w(3));
    assert_eq!(get_majority_threshold(w(7)), w(4));
    assert_eq!(get_majority_threshold(w(3)), w(2));
}

#[test]
fn majority_threshold_at_the_edges() {
    assert_eq!(get_majority_threshold(w(0)), w(1));
    assert_eq!(get_majority_threshold(w(1)), w(1));
    assert_eq!(get_majority_threshold(w(2)), w(2));
    assert_eq!(get_majority_threshold(w(10)), w(6));
    assert_eq!(get_majority_threshold(max_word()), Word::from_limbs(0, 0, 0, 1 << 63));
}

#[test]
fn champion_by_threshold() {
    assert_eq!(determine_champion(w(3), w(0), w(5)), Champion::Player);
    assert_eq!(determine_champion(w(0), w(4), w(7)), Champion::Computer);
    assert_eq!(determine_champion(w(1), w(1), w(5)), Champion::Undetermined);
}

#[test]
fn champion_just_below_and_at_the_threshold() {
    assert_eq!(determine_champion(w(2), w(2), w(5)), Champion::Undetermined);
    assert_eq!(determine_champion(w(2), w(3), w(5)), Champion::Computer);
    assert_eq!(determine_champion(w(3), w(2), w(5)), Champion::Player);
    assert_eq!(determine_champion(w(5), w(5), w(10)), Champion::Undetermined);
    assert_eq!(determine_champion(w(6), w(4), w(10)), Champion::Player);
}

#[test]
fn the_player_is_asked_first_on_a_score_that_does_not_fit() {
    assert_eq!(determine_champion(w(4), w(4), w(5)), Champion::Player);
}

#[test]
fn round_counts_of_known_seeds() {
    assert_eq!(generate_rounds(w(0)), w(7));
    assert_eq!(generate_rounds(w(1)), w(6));
    assert_eq!(generate_rounds(w(77)), w(10));
    assert_eq!(generate_rounds(w(123456789)), w(6));
    assert_eq!(generate_rounds(max_word()), w(6));
}

#[test]
fn round_counts_stay_in_range() {
    let oracle = RandomOracle::new(0, 0);
    let mut seen = [false; 11];
    for s in 0..500u64 {
        let rounds = oracle.generate_rounds(w(s * 7919 + 13)).to_u64().unwrap();
        assert!((1..=10).contains(&rounds));
        seen[rounds as usize] = true;
    }
    for count in 1..=10 {
        assert!(seen[count]);
    }
}

#[test]
fn round_counts_agree_with_wide_integer_arithmetic() {
    let seeds = [
        w(0),
        w(42),
        w(u64::MAX),
        Word::from_limbs(5, 6, 7, 8),
        Word::from_limbs(0, 0, 0, u64::MAX),
        max_word(),
    ];
    for seed in seeds {
        assert_eq!(to_outside(generate_rounds(seed)), direct_rounds(to_outside(seed)));
    }
}

#[test]
fn the_oracle_draws_the_same_round_count() {
    let oracle = RandomOracle::new(1_700_000_000, 99);
    for s in [0u64, 1, 77, 123456789] {
        assert_eq!(oracle.generate_rounds(w(s)), generate_rounds(w(s)));
    }
}
