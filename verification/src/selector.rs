//! Move selection: the computer's move, from mixed entropy and the player's recent moves.
//!
//! With no history the move is the entropy reduced modulo three. Otherwise the computer
//! counters the player's last move in 4 rolls out of 10, counters a repeated last move
//! whenever a roll below 3 reaches that check, and else falls back on the entropy.

use crate::arith::rem;
use crate::error::EngineError;
use crate::mixer::{mix_move, move_entropy};
use crate::moves::{is_move_code, Move};
use crate::word::Word;
use vstd::prelude::*;

verus! {

/// The number of values a roll can take.
pub const ROLL_SIDES: u64 = 10;

/// Rolls below this counter the player's last move.
pub const COUNTER_THRESHOLD: u64 = 4;

/// Rolls below this counter a move that the player has just repeated.
pub const REPEAT_THRESHOLD: u64 = 3;

/// Whether the last two moves of `history` are the same move.
pub open spec fn repeats_last(history: Seq<Move>) -> bool {
    history.len() >= 2 && history[history.len() - 1] == history[history.len() - 2]
}

/// The move that falls out of the entropy alone.
pub open spec fn entropy_move(entropy: nat) -> Move {
    Move::from_code(entropy % 3)
}

/// The computer's move on `entropy` against a player with the given `history`.
pub open spec fn choose_move(entropy: nat, history: Seq<Move>) -> Move {
    let roll = entropy % (ROLL_SIDES as nat);
    if history.len() == 0 {
        entropy_move(entropy)
    } else if roll < COUNTER_THRESHOLD {
        history.last().spec_counter()
    } else if repeats_last(history) && roll < REPEAT_THRESHOLD {
        history.last().spec_counter()
    } else {
        entropy_move(entropy)
    }
}

/// Whether every entry of `codes` stands for a move.
pub open spec fn valid_codes(codes: Seq<Word>) -> bool {
    forall|i: int| 0 <= i < codes.len() ==> is_move_code(#[trigger] codes[i]@)
}

/// The moves that the entries of `codes` stand for.
pub open spec fn decoded(codes: Seq<Word>) -> Seq<Move> {
    Seq::new(codes.len(), |i: int| Move::from_code(codes[i]@))
}

/// The move that falls out of the entropy alone.
pub fn pick_move(entropy: Word) -> (chosen: Move)
    ensures
        chosen == entropy_move(entropy@),
{
    let residue = rem(entropy, Word::from_u64(3));
    if residue.lt(&Word::from_u64(1)) {
        Move::Rock
    } else if residue.lt(&Word::from_u64(2)) {
        Move::Paper
    } else {
        Move::Scissors
    }
}

/// The computer's move on `entropy` against a player with the given `history`.
pub fn select_move(entropy: Word, history: &Vec<Move>) -> (chosen: Move)
    ensures
        chosen == choose_move(entropy@, history@),
{
    let len = history.len();
    if len > 0 {
        let last = history[len - 1];
        let roll = rem(entropy, Word::from_u64(ROLL_SIDES));
        if roll.lt(&Word::from_u64(COUNTER_THRESHOLD)) {
            return last.counter();
        }
        if len >= 2 {
            let before = history[len - 2];
            if last == before && roll.lt(&Word::from_u64(REPEAT_THRESHOLD)) {
                return last.counter();
            }
        }
    }
    pick_move(entropy)
}

/// Reads a history of moves from integer codes. One entry that stands for no move
/// refuses the whole history.
pub fn decode_history(codes: &Vec<Word>) -> (result: Result<Vec<Move>, EngineError>)
    ensures
        valid_codes(codes@) ==> (result matches Ok(moves) && moves@ == decoded(codes@)),
        !valid_codes(codes@) ==> (result matches Err(e) && e == EngineError::InvalidMove),
{
    let mut moves: Vec<Move> = Vec::new();
    let mut i: usize = 0;
    while i < codes.len()
        invariant
            i <= codes.len(),
            moves@.len() == i,
            forall|j: int|
                0 <= j < i ==> is_move_code(#[trigger] codes@[j]@) && moves@[j] == Move::from_code(
                    codes@[j]@,
                ),
        decreases codes.len() - i,
    {
        match Move::from_word(codes[i]) {
            Ok(m) => {
                moves.push(m);
            },
            Err(e) => {
                assert(!is_move_code(codes@[i as int]@));
                return Err(e);
            },
        }
        i += 1;
    }
    assert(moves@ =~= decoded(codes@));
    Ok(moves)
}

/// The computer's move for a round, chosen without regard to any history.
pub fn get_rps_choice(round: Word, seed: Word) -> (choice: Word)
    ensures
        choice@ == move_entropy(seed@, round@) % 3,
        choice@ == choose_move(move_entropy(seed@, round@), Seq::<Move>::empty()).code(),
{
    pick_move(mix_move(seed, round)).to_word()
}

/// Against a player without history, the move is the entropy reduced modulo three.
pub proof fn lemma_opening_move(entropy: nat)
    ensures
        choose_move(entropy, Seq::<Move>::empty()) == entropy_move(entropy),
        choose_move(entropy, Seq::<Move>::empty()).code() == entropy % 3,
{
}

/// Every chosen move either counters the player's last move or is the move that falls
/// out of the entropy alone.
pub proof fn lemma_choice_is_counter_or_entropy(entropy: nat, history: Seq<Move>)
    ensures
        choose_move(entropy, history) == entropy_move(entropy) || (history.len() > 0
            && choose_move(entropy, history) == history.last().spec_counter()),
        history.len() > 0 && entropy % (ROLL_SIDES as nat) < COUNTER_THRESHOLD ==> choose_move(
            entropy,
            history,
        ).spec_beats(history.last()),
{
}

/// The choice reads the history through its last move only: a roll that reaches the
/// check for a repeated move is already too high to counter it.
pub proof fn lemma_choice_reads_last_move(entropy: nat, first: Seq<Move>, second: Seq<Move>)
    requires
        first.len() > 0,
        second.len() > 0,
        first.last() == second.last(),
    ensures
        choose_move(entropy, first) == choose_move(entropy, second),
{
}

} // verus!
