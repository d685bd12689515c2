//! Piece-Square Tables (PSTs).
//!
//! A PST is a table with an item for each piece at each square.
//! It grants a fixed value to the evaluation of a position for each piece,
//! granting benefits for being on "good" squares and penalties for pieces on
//! "bad" ones.

use vstd::prelude::*;
use crate::board::Board;
use crate::board::Move;
use crate::board::move_ok;
use crate::board::spec_apply;
use crate::pst_model::delta_table;
use crate::pst_model::eval_table;
use crate::pst_model::lemma_delta_equivalence;
use crate::pst_model::spec_delta;
use crate::pst_model::spec_eval;
use crate::score::Score;
use crate::tables::PST_EG;
use crate::tables::PST_MG;

verus! {

/// Evaluate a board based on its PST value.
/// This is slow, so under most conditions it is recommended to use `delta`
/// instead if you are making moves. The result is the first mover's total
/// minus the second mover's, with the second mover's squares mirrored.
pub fn evaluate(board: &Board) -> (s: Score)
    ensures
        s.mg == spec_eval(PST_MG, *board),
        s.eg == spec_eval(PST_EG, *board),
{
    Score { mg: eval_table(&PST_MG, board), eg: eval_table(&PST_EG, board) }
}

/// Get the difference in PST value which would be generated by making the
/// move `m` on `board`. The delta reflects how the position improves for the
/// player making the move, independent of whether that player moves first or
/// second: callers add it for the first mover and subtract it for the
/// second.
pub fn delta(board: &Board, m: Move) -> (d: Score)
    requires
        board.wf(),
        move_ok(*board, m),
    ensures
        d.mg == spec_delta(PST_MG, *board, m),
        d.eg == spec_delta(PST_EG, *board, m),
{
    Score { mg: delta_table(&PST_MG, board, m), eg: delta_table(&PST_EG, board, m) }
}

/// Applying `delta`'s result to `evaluate`'s old result — added when the
/// first mover moved, subtracted when the second did — gives exactly
/// `evaluate`'s result on the changed board, for every applicable move:
/// ordinary, capture, en passant, castle or promotion.
pub proof fn lemma_delta_equals_from_scratch(b: Board, m: Move)
    requires
        b.wf(),
        move_ok(b, m),
    ensures
        spec_eval(PST_MG, spec_apply(b, m)) == spec_eval(PST_MG, b) + (if b.player.spec_idx()
            == 0 {
            spec_delta(PST_MG, b, m)
        } else {
            -spec_delta(PST_MG, b, m)
        }),
        spec_eval(PST_EG, spec_apply(b, m)) == spec_eval(PST_EG, b) + (if b.player.spec_idx()
            == 0 {
            spec_delta(PST_EG, b, m)
        } else {
            -spec_delta(PST_EG, b, m)
        }),
{
    lemma_delta_equivalence(PST_MG, b, m);
    lemma_delta_equivalence(PST_EG, b, m);
}

} // verus!
