//! The randomness oracle: round counts, ranged numbers and fresh seeds.
//!
//! Round counts and ranged numbers are functions of the caller's seed alone. A fresh
//! seed is a function of public block metadata, which the oracle holds as plain numbers:
//! whoever knows the block knows the seed.

use crate::arith::rem;
use crate::mixer::{mix_number, mix_seed, number_entropy, seed_entropy};
use crate::tournament::{round_count, MAX_ROUNDS, MIN_ROUNDS};
use crate::word::Word;
use vstd::prelude::*;

verus! {

/// The calls a randomness oracle answers, with what every oracle owes its caller.
pub trait RandomOracleAPI {
    /// The time of the block the oracle answers in.
    spec fn block_time(&self) -> u64;

    /// The height of the block the oracle answers in.
    spec fn block_height(&self) -> u64;

    /// The number of rounds of a tournament, drawn from `seed`.
    fn generate_rounds(&self, seed: Word) -> (rounds: Word)
        ensures
            rounds@ == round_count(seed@),
            MIN_ROUNDS <= rounds@ <= MAX_ROUNDS,
    ;

    /// A number below `range`, drawn from `seed`. A zero `range` is answered with zero,
    /// not refused.
    fn get_random_number(&self, seed: Word, range: Word) -> (number: Word)
        ensures
            number@ == ranged_number(seed@, range@),
            range@ == 0 ==> number@ == 0,
            range@ > 0 ==> number@ < range@,
    ;

    /// A fresh seed, drawn from the block the oracle answers in.
    fn get_random_seed(&self) -> (seed: Word)
        ensures
            seed@ == seed_entropy(self.block_time(), self.block_height()),
    ;
}

/// The randomness oracle, with the metadata of the block it answers in.
#[derive(Clone, Copy, Debug, PartialEq, Eq, Structural)]
pub struct RandomOracle {
    /// The time of the block.
    pub block_timestamp: u64,
    /// The height of the block.
    pub block_number: u64,
}

/// The number below `range` drawn from `seed`; zero where `range` is zero.
pub open spec fn ranged_number(seed: nat, range: nat) -> nat {
    if range == 0 {
        0
    } else {
        number_entropy(seed) % range
    }
}

impl RandomOracle {
    /// An oracle that answers in the block of the given time and height.
    pub fn new(block_timestamp: u64, block_number: u64) -> (oracle: RandomOracle)
        ensures
            oracle == (RandomOracle { block_timestamp, block_number }),
    {
        RandomOracle { block_timestamp, block_number }
    }

    /// Called once when the oracle is put into service. There is no state to set up.
    pub fn deploy(&mut self)
        ensures
            *final(self) == *old(self),
    {
    }
}

impl RandomOracleAPI for RandomOracle {
    open spec fn block_time(&self) -> u64 {
        self.block_timestamp
    }

    open spec fn block_height(&self) -> u64 {
        self.block_number
    }

    fn generate_rounds(&self, seed: Word) -> (rounds: Word) {
        crate::tournament::generate_rounds(seed)
    }

    fn get_random_number(&self, seed: Word, range: Word) -> (number: Word) {
        if range.is_zero() {
            return Word::zero();
        }
        rem(mix_number(seed), range)
    }

    fn get_random_seed(&self) -> (seed: Word) {
        mix_seed(self.block_timestamp, self.block_number)
    }
}

/// A ranged number is zero on a zero range and below the range otherwise.
pub proof fn lemma_ranged_number_in_range(seed: nat, range: nat)
    ensures
        range == 0 ==> ranged_number(seed, range) == 0,
        range > 0 ==> ranged_number(seed, range) < range,
{
    if range > 0 {
        vstd::arithmetic::div_mod::lemma_mod_bound(number_entropy(seed) as int, range as int);
    }
}

} // verus!
