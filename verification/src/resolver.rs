//! Round resolution: two moves in, the outcome of the round out.

use crate::error::EngineError;
use crate::moves::{is_move_code, Move};
use crate::word::Word;
use vstd::prelude::*;

verus! {

/// How a round ended, seen from the player's side.
#[derive(Clone, Copy, Debug, PartialEq, Eq, Structural)]
pub enum RoundOutcome {
    Draw,
    PlayerWin,
    ComputerWin,
}

/// The outcome of a round: a draw on equal moves, else a win for whoever's move beats
/// the other's.
pub open spec fn outcome(player: Move, computer: Move) -> RoundOutcome {
    if player == computer {
        RoundOutcome::Draw
    } else if player.spec_beats(computer) {
        RoundOutcome::PlayerWin
    } else {
        RoundOutcome::ComputerWin
    }
}

/// Resolves a round between two moves.
pub fn resolve(player: Move, computer: Move) -> (result: RoundOutcome)
    ensures
        result == outcome(player, computer),
{
    if player == computer {
        RoundOutcome::Draw
    } else if player.beats(computer) {
        RoundOutcome::PlayerWin
    } else {
        RoundOutcome::ComputerWin
    }
}

/// Resolves a round between two moves given by their integer codes. A code that stands
/// for no move is refused, never coerced.
pub fn check_round_winner(player_move: Word, computer_move: Word) -> (result: Result<
    RoundOutcome,
    EngineError,
>)
    ensures
        is_move_code(player_move@) && is_move_code(computer_move@) ==> result == Ok::<
            RoundOutcome,
            EngineError,
        >(outcome(Move::from_code(player_move@), Move::from_code(computer_move@))),
        !(is_move_code(player_move@) && is_move_code(computer_move@)) ==> result == Err::<
            RoundOutcome,
            EngineError,
        >(EngineError::InvalidMove),
{
    match Move::from_word(player_move) {
        Ok(player) => match Move::from_word(computer_move) {
            Ok(computer) => Ok(resolve(player, computer)),
            Err(e) => Err(e),
        },
        Err(e) => Err(e),
    }
}

/// Equal moves draw.
pub proof fn lemma_equal_moves_draw(m: Move)
    ensures
        outcome(m, m) == RoundOutcome::Draw,
{
}

/// A round is won by exactly one side unless the moves are equal, and swapping the
/// moves swaps the winner.
pub proof fn lemma_outcome_is_antisymmetric(player: Move, computer: Move)
    ensures
        outcome(player, computer) == RoundOutcome::Draw <==> player == computer,
        outcome(player, computer) == RoundOutcome::PlayerWin <==> outcome(computer, player)
            == RoundOutcome::ComputerWin,
{
}

} // verus!
