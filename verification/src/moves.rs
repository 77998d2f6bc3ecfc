//! The three moves, their integer codes, and the cyclic relation of which beats which.

use crate::error::EngineError;
use crate::word::Word;
use vstd::prelude::*;

verus! {

/// A move of the game. Only the cyclic beats-relation matters, not the order of the codes.
#[derive(Clone, Copy, Debug, PartialEq, Eq, Structural)]
pub enum Move {
    Rock,
    Paper,
    Scissors,
}

/// Whether `code` stands for a move.
pub open spec fn is_move_code(code: nat) -> bool {
    code < 3
}

impl Move {
    /// The integer a move is exchanged as: Rock 0, Paper 1, Scissors 2.
    pub open spec fn code(self) -> nat {
        match self {
            Move::Rock => 0,
            Move::Paper => 1,
            Move::Scissors => 2,
        }
    }

    /// The move that `code` stands for, where it stands for one.
    pub open spec fn from_code(code: nat) -> Move
        recommends
            is_move_code(code),
    {
        if code == 0 {
            Move::Rock
        } else if code == 1 {
            Move::Paper
        } else {
            Move::Scissors
        }
    }

    /// Whether `self` wins against `other`: Rock beats Scissors, Paper beats Rock,
    /// Scissors beats Paper.
    pub open spec fn spec_beats(self, other: Move) -> bool {
        match (self, other) {
            (Move::Rock, Move::Scissors) => true,
            (Move::Paper, Move::Rock) => true,
            (Move::Scissors, Move::Paper) => true,
            _ => false,
        }
    }

    /// The move whose code follows that of `self` cyclically: `(code + 1) mod 3`.
    pub open spec fn spec_counter(self) -> Move {
        Move::from_code((self.code() + 1) % 3)
    }

    /// Whether `self` wins against `other`.
    #[verifier::when_used_as_spec(spec_beats)]
    pub fn beats(self, other: Move) -> (wins: bool)
        ensures
            wins == self.spec_beats(other),
    {
        match (self, other) {
            (Move::Rock, Move::Scissors) => true,
            (Move::Paper, Move::Rock) => true,
            (Move::Scissors, Move::Paper) => true,
            _ => false,
        }
    }

    /// The move that wins against `self`.
    #[verifier::when_used_as_spec(spec_counter)]
    pub fn counter(self) -> (reply: Move)
        ensures
            reply == self.spec_counter(),
            reply.spec_beats(self),
    {
        match self {
            Move::Rock => Move::Paper,
            Move::Paper => Move::Scissors,
            Move::Scissors => Move::Rock,
        }
    }

    /// The move as the integer it is exchanged as.
    pub fn to_word(self) -> (word: Word)
        ensures
            word@ == self.code(),
    {
        match self {
            Move::Rock => Word::from_u64(0),
            Move::Paper => Word::from_u64(1),
            Move::Scissors => Word::from_u64(2),
        }
    }

    /// Reads a move from its integer code, and refuses every other integer.
    pub fn from_word(word: Word) -> (decoded: Result<Move, EngineError>)
        ensures
            is_move_code(word@) ==> decoded == Ok::<Move, EngineError>(Move::from_code(word@)),
            !is_move_code(word@) ==> decoded == Err::<Move, EngineError>(
                EngineError::InvalidMove,
            ),
    {
        match word.to_u64() {
            Some(0) => Ok(Move::Rock),
            Some(1) => Ok(Move::Paper),
            Some(2) => Ok(Move::Scissors),
            _ => Err(EngineError::InvalidMove),
        }
    }
}

/// A move is recovered from its code, and every code below three is the code of a move.
pub proof fn lemma_code_round_trip(m: Move, code: nat)
    ensures
        is_move_code(m.code()),
        Move::from_code(m.code()) == m,
        is_move_code(code) ==> Move::from_code(code).code() == code,
{
}

/// The beats-relation is a cycle: the counter of a move beats it, nothing else does, and
/// no move beats itself.
pub proof fn lemma_beats_is_cyclic(a: Move, b: Move)
    ensures
        a.spec_beats(b) <==> a == b.spec_counter(),
        !a.spec_beats(a),
        a != b ==> (a.spec_beats(b) <==> !b.spec_beats(a)),
{
}

} // verus!
