//! The computer opponent: which move it plays and which stake it advises.

use crate::betting::{advise_stake, advised_stake, BASE_STAKE};
use crate::error::EngineError;
use crate::mixer::{mix_move, move_entropy};
use crate::moves::is_move_code;
use crate::selector::{choose_move, decode_history, decoded, select_move, valid_codes};
use crate::word::Word;
use vstd::prelude::*;

verus! {

/// The difficulty level the computer plays at: 0 easy, 1 medium, 2 hard.
pub const DIFFICULTY: u64 = 1;

/// The calls a computer opponent answers, with what every opponent owes its caller.
pub trait ComputerAIAPI {
    /// The computer's move for `round`, against a player whose earlier moves are
    /// `player_history`, oldest first, as integer codes.
    ///
    /// A history with an entry that stands for no move is refused. Otherwise `seed` and
    /// `round` are mixed into entropy, and the answer is the code of the chosen move.
    fn get_move(&self, round: Word, seed: Word, player_history: Vec<Word>) -> (reply: Result<
        Word,
        EngineError,
    >)
        ensures
            valid_codes(player_history@) ==> (reply matches Ok(code) && code@ == choose_move(
                move_entropy(seed@, round@),
                decoded(player_history@),
            ).code()),
            !valid_codes(player_history@) ==> reply == Err::<Word, EngineError>(
                EngineError::InvalidMove,
            ),
            reply matches Ok(code) ==> is_move_code(code@),
            player_history@.len() == 0 ==> (reply matches Ok(code) && code@ == move_entropy(
                seed@,
                round@,
            ) % 3),
    ;

    /// The stake the computer advises on the given score. It depends on the two win
    /// counts and on the round; the length of the tournament does not enter.
    fn get_betting_advice(
        &self,
        player_wins: Word,
        computer_wins: Word,
        total_rounds: Word,
        current_round: Word,
    ) -> (stake: Word)
        ensures
            stake@ == advised_stake(player_wins@, computer_wins@, current_round@),
            computer_wins@ > player_wins@ ==> BASE_STAKE <= stake@ <= 3 * BASE_STAKE,
            player_wins@ > computer_wins@ ==> stake@ == BASE_STAKE as nat / 2,
    ;

    /// The difficulty level the computer plays at.
    fn get_difficulty(&self) -> (level: Word)
        ensures
            level@ == DIFFICULTY,
    ;
}

/// The computer opponent. It keeps no state: every answer is a function of the
/// arguments of the call.
#[derive(Clone, Copy, Debug, PartialEq, Eq, Structural)]
pub struct ComputerAI {}

impl ComputerAI {
    /// A computer opponent.
    pub fn new() -> ComputerAI {
        ComputerAI {}
    }

    /// Called once when the opponent is put into service. There is no state to set up.
    pub fn deploy(&mut self)
        ensures
            *final(self) == *old(self),
    {
    }
}

impl ComputerAIAPI for ComputerAI {
    fn get_move(&self, round: Word, seed: Word, player_history: Vec<Word>) -> (reply: Result<
        Word,
        EngineError,
    >) {
        match decode_history(&player_history) {
            Ok(history) => {
                let entropy = mix_move(seed, round);
                Ok(select_move(entropy, &history).to_word())
            },
            Err(e) => Err(e),
        }
    }

    fn get_betting_advice(
        &self,
        player_wins: Word,
        computer_wins: Word,
        total_rounds: Word,
        current_round: Word,
    ) -> (stake: Word) {
        advise_stake(player_wins, computer_wins, current_round)
    }

    fn get_difficulty(&self) -> (level: Word) {
        Word::from_u64(DIFFICULTY)
    }
}

/// The reply of `get_move` is a function of the values of its arguments: two calls whose
/// rounds, seeds and histories have the same values are refused alike and, where they are
/// not refused, answered with the same move.
pub proof fn lemma_get_move_is_deterministic(
    round: Word,
    seed: Word,
    history: Seq<Word>,
    other_round: Word,
    other_seed: Word,
    other_history: Seq<Word>,
)
    requires
        round@ == other_round@,
        seed@ == other_seed@,
        history.len() == other_history.len(),
        forall|i: int| 0 <= i < history.len() ==> history[i]@ == other_history[i]@,
    ensures
        valid_codes(history) == valid_codes(other_history),
        choose_move(move_entropy(seed@, round@), decoded(history)) == choose_move(
            move_entropy(other_seed@, other_round@),
            decoded(other_history),
        ),
{
    assert(decoded(history) =~= decoded(other_history));
    if valid_codes(history) {
        assert forall|i: int| 0 <= i < other_history.len() implies is_move_code(
            #[trigger] other_history[i]@,
        ) by {
            assert(is_move_code(history[i]@));
        }
    }
    if valid_codes(other_history) {
        assert forall|i: int| 0 <= i < history.len() implies is_move_code(
            #[trigger] history[i]@,
        ) by {
            assert(is_move_code(other_history[i]@));
        }
    }
}

} // verus!
