//! The 256-bit unsigned integer that every argument and result of the engine is made of.
//!
//! A [`Word`] is four 64-bit limbs, least significant first. Its view is the natural
//! number the limbs stand for; every contract of the engine is stated over that number.

use vstd::prelude::*;

verus! {

/// `2^64`, the weight of the second limb.
pub open spec fn limb_base() -> nat {
    0x1_0000_0000_0000_0000nat
}

/// `2^128`, the weight of the third limb.
pub open spec fn limb_base_2() -> nat {
    0x1_0000_0000_0000_0000_0000_0000_0000_0000nat
}

/// `2^192`, the weight of the fourth limb.
pub open spec fn limb_base_3() -> nat {
    0x1_0000_0000_0000_0000_0000_0000_0000_0000_0000_0000_0000_0000nat
}

/// `2^256`: one more than the largest value a [`Word`] holds.
pub open spec fn modulus() -> nat {
    0x1_0000_0000_0000_0000_0000_0000_0000_0000_0000_0000_0000_0000_0000_0000_0000_0000nat
}

/// Reduction modulo `2^256`: what wraparound arithmetic keeps of an exact result.
pub open spec fn wrap(x: nat) -> nat {
    x % modulus()
}

/// The limb of weight `2^0` of `x`.
pub open spec fn limb0_of(x: nat) -> u64 {
    (x % limb_base()) as u64
}

/// The limb of weight `2^64` of `x`.
pub open spec fn limb1_of(x: nat) -> u64 {
    ((x / limb_base()) % limb_base()) as u64
}

/// The limb of weight `2^128` of `x`.
pub open spec fn limb2_of(x: nat) -> u64 {
    ((x / limb_base_2()) % limb_base()) as u64
}

/// The limb of weight `2^192` of `x`.
pub open spec fn limb3_of(x: nat) -> u64 {
    ((x / limb_base_3()) % limb_base()) as u64
}

/// The number that four limbs stand for, least significant first:
/// `l0 + l1 * 2^64 + l2 * 2^128 + l3 * 2^192`.
///
/// Opaque, so that proofs about whole words are not flooded with limb arithmetic;
/// reveal it where the limbs themselves matter.
#[verifier::opaque]
pub open spec fn limbs_value(l0: u64, l1: u64, l2: u64, l3: u64) -> nat {
    l0 as nat + l1 as nat * limb_base() + l2 as nat * limb_base_2() + l3 as nat * limb_base_3()
}

/// A 256-bit unsigned integer, held as four 64-bit limbs, least significant first.
///
/// Every combination of limbs is a value, and two words are equal exactly when their
/// values are: see [`lemma_view_injective`].
#[derive(Clone, Copy, Debug, PartialEq, Eq, Structural)]
pub struct Word {
    /// The limb of weight `2^0`.
    pub l0: u64,
    /// The limb of weight `2^64`.
    pub l1: u64,
    /// The limb of weight `2^128`.
    pub l2: u64,
    /// The limb of weight `2^192`.
    pub l3: u64,
}

impl View for Word {
    type V = nat;

    open spec fn view(&self) -> nat {
        limbs_value(self.l0, self.l1, self.l2, self.l3)
    }
}

impl Word {
    /// The word whose value is `x` reduced modulo `2^256`.
    pub open spec fn from_nat(x: nat) -> Word {
        Word { l0: limb0_of(x), l1: limb1_of(x), l2: limb2_of(x), l3: limb3_of(x) }
    }

    /// The word of value zero.
    pub fn zero() -> (w: Word)
        ensures
            w@ == 0,
    {
        proof {
            reveal(limbs_value);
        }
        Word { l0: 0, l1: 0, l2: 0, l3: 0 }
    }

    /// The word of value `x`.
    pub fn from_u64(x: u64) -> (w: Word)
        ensures
            w@ == x,
            w == (Word { l0: x, l1: 0, l2: 0, l3: 0 }),
    {
        proof {
            reveal(limbs_value);
        }
        Word { l0: x, l1: 0, l2: 0, l3: 0 }
    }

    /// The word made of the four limbs, least significant first.
    pub fn from_limbs(l0: u64, l1: u64, l2: u64, l3: u64) -> (w: Word)
        ensures
            w == (Word { l0, l1, l2, l3 }),
    {
        Word { l0, l1, l2, l3 }
    }

    /// Whether the value is zero.
    pub fn is_zero(&self) -> (z: bool)
        ensures
            z == (self@ == 0),
    {
        proof {
            reveal(limbs_value);
        }
        self.l0 == 0 && self.l1 == 0 && self.l2 == 0 && self.l3 == 0
    }

    /// Whether the value of `self` is strictly below that of `other`.
    pub fn lt(&self, other: &Word) -> (below: bool)
        ensures
            below == (self@ < other@),
    {
        proof {
            reveal(limbs_value);
        }
        if self.l3 != other.l3 {
            self.l3 < other.l3
        } else if self.l2 != other.l2 {
            self.l2 < other.l2
        } else if self.l1 != other.l1 {
            self.l1 < other.l1
        } else {
            self.l0 < other.l0
        }
    }

    /// The value as a `u64`, where it fits.
    pub fn to_u64(&self) -> (small: Option<u64>)
        ensures
            self@ < limb_base() <==> small is Some,
            small matches Some(x) ==> x == self@,
    {
        proof {
            reveal(limbs_value);
        }
        if self.l1 == 0 && self.l2 == 0 && self.l3 == 0 {
            Some(self.l0)
        } else {
            None
        }
    }
}

/// Every word is below `2^256`.
pub proof fn lemma_view_bound(w: Word)
    ensures
        w@ < modulus(),
{
    reveal(limbs_value);
}

/// The limbs of a word are the limbs of its value: a word is recovered from its view.
pub proof fn lemma_from_nat_of_view(w: Word)
    ensures
        Word::from_nat(w@) == w,
{
    reveal(limbs_value);
    let b = limb_base() as int;
    let v = w@ as int;
    let hi1 = w.l1 as int + w.l2 as int * b + w.l3 as int * limb_base_2() as int;
    assert(v == hi1 * b + w.l0 as int);
    vstd::arithmetic::div_mod::lemma_fundamental_div_mod_converse(v, b, hi1, w.l0 as int);
    let hi2 = w.l2 as int + w.l3 as int * b;
    assert(hi1 == hi2 * b + w.l1 as int);
    vstd::arithmetic::div_mod::lemma_fundamental_div_mod_converse(hi1, b, hi2, w.l1 as int);
    assert(v == hi2 * limb_base_2() as int + (w.l0 as int + w.l1 as int * b));
    vstd::arithmetic::div_mod::lemma_fundamental_div_mod_converse(
        v,
        limb_base_2() as int,
        hi2,
        w.l0 as int + w.l1 as int * b,
    );
    vstd::arithmetic::div_mod::lemma_fundamental_div_mod_converse(
        hi2,
        b,
        w.l3 as int,
        w.l2 as int,
    );
    assert(v == w.l3 as int * limb_base_3() as int + (w.l0 as int + w.l1 as int * b + w.l2 as int
        * limb_base_2() as int));
    vstd::arithmetic::div_mod::lemma_fundamental_div_mod_converse(
        v,
        limb_base_3() as int,
        w.l3 as int,
        w.l0 as int + w.l1 as int * b + w.l2 as int * limb_base_2() as int,
    );
    vstd::arithmetic::div_mod::lemma_small_mod(w.l3 as nat, limb_base());
}

/// Two words of the same value are the same word.
pub proof fn lemma_view_injective(a: Word, b: Word)
    requires
        a@ == b@,
    ensures
        a == b,
{
    lemma_from_nat_of_view(a);
    lemma_from_nat_of_view(b);
}

/// The value of the word made from `x` is `x` reduced modulo `2^256`.
pub proof fn lemma_view_of_from_nat(x: nat)
    ensures
        Word::from_nat(x)@ == wrap(x),
{
    reveal(limbs_value);
    let b = limb_base() as int;
    let xi = x as int;
    let q1 = xi / b;
    let q2 = xi / (limb_base_2() as int);
    let q3 = xi / (limb_base_3() as int);
    let q4 = xi / (modulus() as int);
    vstd::arithmetic::div_mod::lemma_fundamental_div_mod(xi, b);
    vstd::arithmetic::div_mod::lemma_fundamental_div_mod(q1, b);
    vstd::arithmetic::div_mod::lemma_fundamental_div_mod(q2, b);
    vstd::arithmetic::div_mod::lemma_fundamental_div_mod(q3, b);
    vstd::arithmetic::div_mod::lemma_div_denominator(xi, b, b);
    vstd::arithmetic::div_mod::lemma_div_denominator(xi, limb_base_2() as int, b);
    vstd::arithmetic::div_mod::lemma_div_denominator(xi, limb_base_3() as int, b);
    assert(b * b == limb_base_2() as int);
    assert(limb_base_2() as int * b == limb_base_3() as int);
    assert(limb_base_3() as int * b == modulus() as int);
    assert(q1 / b == q2);
    assert(q2 / b == q3);
    assert(q3 / b == q4);
    let r = Word::from_nat(x)@ as int;
    assert(xi == q4 * modulus() as int + r);
    vstd::arithmetic::div_mod::lemma_fundamental_div_mod_converse(xi, modulus() as int, q4, r);
}

} // verus!
