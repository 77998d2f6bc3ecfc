//! Entropy mixing: integer seeds in, one well-spread 256-bit integer out.
//!
//! Every recipe is wraparound addition and multiplication modulo `2^256` followed by an
//! exclusive-or, so none can fault. The recipes for moves, round counts and ranged
//! numbers read nothing but the caller's seeds; only [`mix_seed`] takes public block
//! metadata, and takes it as plain arguments. All constants of the recipes live here.

use crate::arith::{wrapping_add, wrapping_mul, xor, xor256};
use crate::word::{modulus, wrap, Word};
use vstd::prelude::*;

verus! {

/// What a round index is multiplied by before it is added to the seed of a move.
pub const ROUND_STRIDE: u64 = 7;

/// The prime that spreads the entropy of a move and of a round count.
pub const SPREAD_PRIME: u64 = 7919;

/// The mask that is folded into the entropy of a move and of a round count.
pub const SPREAD_MASK: u64 = 54321;

/// What is added to the spread seed of a round count.
pub const ROUNDS_OFFSET: u64 = 12345;

/// What is added to the seed of a ranged number.
pub const NUMBER_OFFSET: u64 = 67890;

/// The prime that spreads the entropy of a ranged number and of a fresh seed.
pub const NUMBER_PRIME: u64 = 6151;

/// The mask that is folded into the entropy of a ranged number.
pub const NUMBER_MASK: u64 = 9876;

/// What is added to the product of block time and block height.
pub const SEED_OFFSET: u64 = 31337;

/// What is added to the block height before it is folded into a fresh seed.
pub const SEED_HEIGHT_OFFSET: u64 = 42;

/// The mask that is folded into a fresh seed last.
pub const SEED_MASK: u64 = 13579;

/// The entropy behind the computer's move: `((seed + 7 * round) * 7919 mod 2^256) xor 54321`.
pub open spec fn move_entropy(seed: nat, round: nat) -> nat {
    xor256(wrap((seed + round * ROUND_STRIDE as nat) * SPREAD_PRIME as nat), SPREAD_MASK as nat)
}

/// The entropy behind a round count: `((seed * 7919 + 12345) mod 2^256) xor 54321`.
pub open spec fn rounds_entropy(seed: nat) -> nat {
    xor256(wrap(seed * SPREAD_PRIME as nat + ROUNDS_OFFSET as nat), SPREAD_MASK as nat)
}

/// The entropy behind a ranged number: `((seed + 67890) * 6151 mod 2^256) xor 9876`.
pub open spec fn number_entropy(seed: nat) -> nat {
    xor256(wrap((seed + NUMBER_OFFSET as nat) * NUMBER_PRIME as nat), NUMBER_MASK as nat)
}

/// The first stage of a fresh seed: `(time * height + 31337) xor (height + 42)`.
pub open spec fn block_entropy(timestamp: u64, height: u64) -> nat {
    xor256(
        timestamp as nat * height as nat + SEED_OFFSET as nat,
        height as nat + SEED_HEIGHT_OFFSET as nat,
    )
}

/// A fresh seed from block time and block height:
/// `((block_entropy * 6151 + time) mod 2^256) xor 13579`.
pub open spec fn seed_entropy(timestamp: u64, height: u64) -> nat {
    xor256(
        wrap(block_entropy(timestamp, height) * NUMBER_PRIME as nat + timestamp as nat),
        SEED_MASK as nat,
    )
}

/// Reducing a summand before a wraparound addition changes nothing.
pub proof fn lemma_wrap_add(a: nat, b: nat)
    ensures
        wrap(a + wrap(b)) == wrap(a + b),
        wrap(wrap(a) + b) == wrap(a + b),
{
    vstd::arithmetic::div_mod::lemma_add_mod_noop_right(a as int, b as int, modulus() as int);
    vstd::arithmetic::div_mod::lemma_add_mod_noop_right(b as int, a as int, modulus() as int);
}

/// Reducing a factor before a wraparound multiplication changes nothing.
pub proof fn lemma_wrap_mul(a: nat, b: nat)
    ensures
        wrap(wrap(a) * b) == wrap(a * b),
{
    vstd::arithmetic::div_mod::lemma_mul_mod_noop_left(a as int, b as int, modulus() as int);
}

/// Mixes the seed of a match with a round index.
pub fn mix_move(seed: Word, round: Word) -> (mixed: Word)
    ensures
        mixed@ == move_entropy(seed@, round@),
{
    let stride = wrapping_mul(round, Word::from_u64(ROUND_STRIDE));
    let shifted = wrapping_add(seed, stride);
    let spread = wrapping_mul(shifted, Word::from_u64(SPREAD_PRIME));
    proof {
        lemma_wrap_add(seed@, round@ * ROUND_STRIDE as nat);
        lemma_wrap_mul(seed@ + round@ * ROUND_STRIDE as nat, SPREAD_PRIME as nat);
    }
    xor(spread, Word::from_u64(SPREAD_MASK))
}

/// Mixes the seed from which a tournament's round count is drawn.
pub fn mix_rounds(seed: Word) -> (mixed: Word)
    ensures
        mixed@ == rounds_entropy(seed@),
{
    let spread = wrapping_mul(seed, Word::from_u64(SPREAD_PRIME));
    let shifted = wrapping_add(spread, Word::from_u64(ROUNDS_OFFSET));
    proof {
        lemma_wrap_add(ROUNDS_OFFSET as nat, seed@ * SPREAD_PRIME as nat);
    }
    xor(shifted, Word::from_u64(SPREAD_MASK))
}

/// Mixes the seed from which a ranged number is drawn.
pub fn mix_number(seed: Word) -> (mixed: Word)
    ensures
        mixed@ == number_entropy(seed@),
{
    let shifted = wrapping_add(seed, Word::from_u64(NUMBER_OFFSET));
    let spread = wrapping_mul(shifted, Word::from_u64(NUMBER_PRIME));
    proof {
        lemma_wrap_mul(seed@ + NUMBER_OFFSET as nat, NUMBER_PRIME as nat);
    }
    xor(spread, Word::from_u64(NUMBER_MASK))
}

/// The product of two 64-bit values fits in 128 bits.
proof fn lemma_product_bound(a: u64, b: u64)
    ensures
        a as nat * b as nat <= 0xffff_ffff_ffff_ffff * 0xffff_ffff_ffff_ffff,
{
    assert(a as nat * b as nat <= 0xffff_ffff_ffff_ffff * 0xffff_ffff_ffff_ffff)
        by (nonlinear_arith)
        requires
            a <= 0xffff_ffff_ffff_ffff,
            b <= 0xffff_ffff_ffff_ffff,
    ;
}

/// Mixes block time and block height into a fresh seed.
pub fn mix_seed(timestamp: u64, height: u64) -> (mixed: Word)
    ensures
        mixed@ == seed_entropy(timestamp, height),
{
    let time = Word::from_u64(timestamp);
    let number = Word::from_u64(height);
    let product = wrapping_mul(time, number);
    let ghost exact = timestamp as nat * height as nat;
    proof {
        lemma_product_bound(timestamp, height);
        vstd::arithmetic::div_mod::lemma_small_mod(exact, modulus());
        assert(product@ == exact);
    }
    let shifted = wrapping_add(product, Word::from_u64(SEED_OFFSET));
    proof {
        vstd::arithmetic::div_mod::lemma_small_mod(exact + SEED_OFFSET as nat, modulus());
        assert(shifted@ == exact + SEED_OFFSET as nat);
    }
    let folded = wrapping_add(number, Word::from_u64(SEED_HEIGHT_OFFSET));
    proof {
        vstd::arithmetic::div_mod::lemma_small_mod(
            height as nat + SEED_HEIGHT_OFFSET as nat,
            modulus(),
        );
        assert(folded@ == height as nat + SEED_HEIGHT_OFFSET as nat);
    }
    let primary = xor(shifted, folded);
    assert(primary@ == block_entropy(timestamp, height));
    let spread = wrapping_mul(primary, Word::from_u64(NUMBER_PRIME));
    let timed = wrapping_add(spread, time);
    proof {
        lemma_wrap_add(timestamp as nat, primary@ * NUMBER_PRIME as nat);
    }
    xor(timed, Word::from_u64(SEED_MASK))
}

} // verus!
