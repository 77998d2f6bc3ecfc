//! Arithmetic on [`Word`]s, computed by `ruint`'s 256-bit integer.
//!
//! The six functions marked `external_body` are the boundary to `ruint`: each hands its
//! operands over as limbs, makes one call, and takes the limbs of the result back. Their
//! contracts are believed, not proved. Everything else in the engine is proved from them.

use crate::word::{
    lemma_from_nat_of_view, limb0_of, limb1_of, limb2_of, limb3_of, limbs_value, modulus, wrap,
    Word,
};
use ruint::aliases::U256;
use vstd::prelude::*;

verus! {

/// Bitwise exclusive-or of the low 256 bits of `a` and `b`, taken limb by limb.
pub open spec fn xor256(a: nat, b: nat) -> nat {
    (Word {
        l0: limb0_of(a) ^ limb0_of(b),
        l1: limb1_of(a) ^ limb1_of(b),
        l2: limb2_of(a) ^ limb2_of(b),
        l3: limb3_of(a) ^ limb3_of(b),
    })@
}

/// On operands of 64 bits, [`xor256`] is the exclusive-or of 64-bit integers.
pub proof fn lemma_xor256_of_small(a: u64, b: u64)
    ensures
        xor256(a as nat, b as nat) == (a ^ b) as nat,
{
    reveal(limbs_value);
    assert(0u64 ^ 0u64 == 0u64) by (bit_vector);
}

/// Calls `Uint::wrapping_add` of `ruint` on 256-bit operands.
///
/// Claims that the result is the sum reduced modulo `2^256`.
#[verifier::external_body]
pub(crate) fn wrapping_add(a: Word, b: Word) -> (sum: Word)
    ensures
        sum@ == wrap(a@ + b@),
{
    let x = U256::from_limbs([a.l0, a.l1, a.l2, a.l3]);
    let y = U256::from_limbs([b.l0, b.l1, b.l2, b.l3]);
    let [l0, l1, l2, l3] = x.wrapping_add(y).into_limbs();
    Word { l0, l1, l2, l3 }
}

/// Calls `Uint::wrapping_sub` of `ruint` on 256-bit operands.
///
/// Claims that the result is the difference reduced modulo `2^256`: the difference
/// itself where `b` is not above `a`.
#[verifier::external_body]
pub(crate) fn wrapping_sub(a: Word, b: Word) -> (difference: Word)
    ensures
        difference@ == wrap((a@ + modulus() - b@) as nat),
{
    let x = U256::from_limbs([a.l0, a.l1, a.l2, a.l3]);
    let y = U256::from_limbs([b.l0, b.l1, b.l2, b.l3]);
    let [l0, l1, l2, l3] = x.wrapping_sub(y).into_limbs();
    Word { l0, l1, l2, l3 }
}

/// Calls `Uint::wrapping_mul` of `ruint` on 256-bit operands.
///
/// Claims that the result is the product reduced modulo `2^256`.
#[verifier::external_body]
pub(crate) fn wrapping_mul(a: Word, b: Word) -> (product: Word)
    ensures
        product@ == wrap(a@ * b@),
{
    let x = U256::from_limbs([a.l0, a.l1, a.l2, a.l3]);
    let y = U256::from_limbs([b.l0, b.l1, b.l2, b.l3]);
    let [l0, l1, l2, l3] = x.wrapping_mul(y).into_limbs();
    Word { l0, l1, l2, l3 }
}

/// Calls the `/` operator (`Div::div`) of `ruint`'s `Uint` on 256-bit operands.
///
/// Claims that the result is the quotient rounded down. `ruint` panics on a zero
/// divisor, which the precondition leaves out.
#[verifier::external_body]
pub(crate) fn div(a: Word, b: Word) -> (quotient: Word)
    requires
        b@ != 0,
    ensures
        quotient@ == a@ / b@,
{
    let x = U256::from_limbs([a.l0, a.l1, a.l2, a.l3]);
    let y = U256::from_limbs([b.l0, b.l1, b.l2, b.l3]);
    let [l0, l1, l2, l3] = (x / y).into_limbs();
    Word { l0, l1, l2, l3 }
}

/// Calls the `%` operator (`Rem::rem`) of `ruint`'s `Uint` on 256-bit operands.
///
/// Claims that the result is the remainder of the division. `ruint` panics on a zero
/// divisor, which the precondition leaves out.
#[verifier::external_body]
pub(crate) fn rem(a: Word, b: Word) -> (remainder: Word)
    requires
        b@ != 0,
    ensures
        remainder@ == a@ % b@,
{
    let x = U256::from_limbs([a.l0, a.l1, a.l2, a.l3]);
    let y = U256::from_limbs([b.l0, b.l1, b.l2, b.l3]);
    let [l0, l1, l2, l3] = (x % y).into_limbs();
    Word { l0, l1, l2, l3 }
}

/// Calls the `^` operator (`BitXor::bitxor`) of `ruint`'s `Uint` on 256-bit operands.
///
/// Claims that each limb of the result is the exclusive-or of the operands' limbs of
/// the same weight.
#[verifier::external_body]
pub(crate) fn limbwise_xor(a: Word, b: Word) -> (mixed: Word)
    ensures
        mixed.l0 == a.l0 ^ b.l0,
        mixed.l1 == a.l1 ^ b.l1,
        mixed.l2 == a.l2 ^ b.l2,
        mixed.l3 == a.l3 ^ b.l3,
{
    let x = U256::from_limbs([a.l0, a.l1, a.l2, a.l3]);
    let y = U256::from_limbs([b.l0, b.l1, b.l2, b.l3]);
    let [l0, l1, l2, l3] = (x ^ y).into_limbs();
    Word { l0, l1, l2, l3 }
}

/// Bitwise exclusive-or of two words.
pub(crate) fn xor(a: Word, b: Word) -> (mixed: Word)
    ensures
        mixed@ == xor256(a@, b@),
{
    proof {
        lemma_from_nat_of_view(a);
        lemma_from_nat_of_view(b);
    }
    limbwise_xor(a, b)
}

} // verus!
