use rps_engine::mixer::{mix_number, mix_rounds, mix_seed};
use rps_engine::oracle::{RandomOracle, RandomOracleAPI};
use rps_engine::word::Word;
use ruint::aliases::U256;

fn w(x: u64) -> Word {
    Word::from_u64(x)
}

fn max_word() -> Word {
    Word::from_limbs(u64::MAX, u64::MAX, u64::MAX, u64::MAX)
}

fn to_outside(x: Word) -> U256 {
    U256::from_limbs([x.l0, x.l1, x.l2, x.l3])
}

fn direct_number(seed: U256, range: U256) -> U256 {
    if range == U256::from(0) {
        return U256::from(0);
    }
    let mixed = seed.wrapping_add(U256::from(67890)).wrapping_mul(U256::from(6151))
        ^ U256::from(9876);
    mixed % range
}

fn direct_seed(timestamp: u64, number: u64) -> U256 {
    let block_timestamp = U256::from(timestamp);
    let block_number = U256::from(number);
    let primary = block_timestamp.wrapping_mul(block_number).wrapping_add(U256::from(31337))
        ^ block_number.wrapping_add(U256::from(42));
    primary.wrapping_mul(U256::from(6151)).wrapping_add(block_timestamp) ^ U256::from(13579)
}

#[test]
fn a_zero_range_gives_zero() {
    let oracle = RandomOracle::new(0, 0);
    for seed in [w(0), w(1), w(77), w(u64::MAX), Word::from_limbs(1, 2, 3, 4), max_word()] {
        assert_eq!(oracle.get_random_number(seed, w(0)), w(0));
    }
}

#[test]
fn ranged_numbers_of_known_seeds() {
    let oracle = RandomOracle::new(0, 0);
    assert_eq!(oracle.get_random_number(w(0), w(100)), w(42));
    assert_eq!(oracle.get_random_number(w(1), w(100)), w(9));
    assert_eq!(oracle.get_random_number(w(77), w(100)), w(53));
    assert_eq!(oracle.get_random_number(w(77), w(7)), w(2));
    assert_eq!(oracle.get_random_number(max_word(), w(100)), w(75));
    assert_eq!(oracle.get_random_number(w(0), w(1)), w(0));
    assert_eq!(oracle.get_random_number(w(0), max_word()), w(417584842));
}

#[test]
fn ranged_numbers_stay_below_the_range() {
    let oracle = RandomOracle::new(5, 6);
    for seed in 0..200u64 {
        for range in [1u64, 2, 3, 10, 97, 1 << 40] {
            let number = oracle.get_random_number(w(seed * 31 + 1), w(range));
            assert!(number.lt(&w(range)));
        }
    }
}

#[test]
fn ranged_numbers_do_not_depend_on_the_block() {
    let here = RandomOracle::new(1_700_000_000, 1);
    let there = RandomOracle::new(1_800_000_000, 2);
    for seed in 0..50u64 {
        assert_eq!(here.get_random_number(w(seed), w(1000)), there.get_random_number(w(seed), w(1000)));
        assert_eq!(here.generate_rounds(w(seed)), there.generate_rounds(w(seed)));
    }
}

#[test]
fn ranged_numbers_agree_with_wide_integer_arithmetic() {
    let oracle = RandomOracle::new(0, 0);
    let seeds = [w(0), w(99), w(u64::MAX), Word::from_limbs(9, 8, 7, 6), max_word()];
    let ranges = [w(0), w(1), w(6), w(u64::MAX), Word::from_limbs(0, 0, 1, 0), max_word()];
    for seed in seeds {
        for range in ranges {
            let expected = direct_number(to_outside(seed), to_outside(range));
            assert_eq!(to_outside(oracle.get_random_number(seed, range)), expected);
        }
    }
}

#[test]
fn number_entropy_of_known_seeds() {
    assert_eq!(mix_number(w(0)), w(417584842));
    assert_eq!(mix_number(w(1)), w(417607409));
    assert_eq!(mix_number(w(77)), w(418057453));
    assert_eq!(mix_number(max_word()), w(417595075));
}

#[test]
fn rounds_entropy_of_known_seeds() {
    assert_eq!(mix_rounds(w(0)), w(58376));
    assert_eq!(mix_rounds(w(1)), w(39705));
    assert_eq!(mix_rounds(w(77)), w(633389));
    assert_eq!(mix_rounds(w(123456789)), w(977654368485));
    assert_eq!(mix_rounds(max_word()), w(50555));
}

#[test]
fn fresh_seeds_of_known_blocks() {
    assert_eq!(RandomOracle::new(0, 0).get_random_seed(), w(192522974));
    assert_eq!(RandomOracle::new(1, 1).get_random_seed(), w(192502467));
    assert_eq!(
        RandomOracle::new(1_700_000_000, 123_456).get_random_seed(),
        w(1290942357340918814)
    );
    assert_eq!(
        RandomOracle::new(u64::MAX, u64::MAX).get_random_seed(),
        Word::from_limbs(192522975, 18446744073709545466, 6150, 0)
    );
}

#[test]
fn fresh_seeds_agree_with_wide_integer_arithmetic() {
    let values = [0u64, 1, 2, 42, 1_700_000_000, 1 << 32, u64::MAX - 1, u64::MAX];
    for timestamp in values {
        for number in values {
            let oracle = RandomOracle::new(timestamp, number);
            assert_eq!(to_outside(oracle.get_random_seed()), direct_seed(timestamp, number));
            assert_eq!(oracle.get_random_seed(), mix_seed(timestamp, number));
        }
    }
}

#[test]
fn the_same_block_gives_the_same_seed() {
    let oracle = RandomOracle::new(1_700_000_000, 123_456);
    assert_eq!(oracle.get_random_seed(), oracle.get_random_seed());
    assert_eq!(oracle.get_random_seed(), RandomOracle::new(1_700_000_000, 123_456).get_random_seed());
}

#[test]
fn deploying_the_oracle_changes_nothing() {
    let mut oracle = RandomOracle::new(11, 22);
    oracle.deploy();
    assert_eq!(oracle, RandomOracle::new(11, 22));
    assert_eq!(oracle.block_timestamp, 11);
    assert_eq!(oracle.block_number, 22);
}
