//! The older piece-square-table surface, kept with its own table set: the
//! same evaluation and delta as `evaluate::pst`, over the older hand-tuned
//! values.

use vstd::prelude::*;
use crate::board::Board;
use crate::board::Move;
use crate::board::move_ok;
use crate::board::spec_apply;
use crate::pst_model::delta_table;
use crate::pst_model::eval_table;
use crate::pst_model::lemma_delta_equivalence;
use crate::pst_model::spec_delta;
use crate::pst_model::spec_eval;
use crate::score::Score;
use crate::tables::PESTO_EG;
use crate::tables::PESTO_MG;

verus! {

/// Evaluate a board based on its PST value. This is slow, so under most
/// conditions it is recommended to use `pst_delta` instead if you are making
/// moves. The midgame component comes first, the endgame component second.
pub fn pst_evaluate(board: &Board) -> (s: Score)
    ensures
        s.mg == spec_eval(PESTO_MG, *board),
        s.eg == spec_eval(PESTO_EG, *board),
{
    Score { mg: eval_table(&PESTO_MG, board), eg: eval_table(&PESTO_EG, board) }
}

/// Get the difference in PST value which would be generated by making the
/// move `m` on `board`. The delta reflects how the position improves for the
/// player making the move, independent of whether that player moves first or
/// second.
pub fn pst_delta(board: &Board, m: Move) -> (d: Score)
    requires
        board.wf(),
        move_ok(*board, m),
    ensures
        d.mg == spec_delta(PESTO_MG, *board, m),
        d.eg == spec_delta(PESTO_EG, *board, m),
{
    Score { mg: delta_table(&PESTO_MG, board, m), eg: delta_table(&PESTO_EG, board, m) }
}

/// A move nominator that scores each candidate move by its PST delta.
pub struct PstNominate {}

impl PstNominate {
    /// The PST delta of `m` on `board`, used to order candidate moves.
    pub fn score(m: Move, board: &Board) -> (d: Score)
        requires
            board.wf(),
            move_ok(*board, m),
        ensures
            d.mg == spec_delta(PESTO_MG, *board, m),
            d.eg == spec_delta(PESTO_EG, *board, m),
    {
        pst_delta(board, m)
    }
}

/// Applying `pst_delta`'s result to `pst_evaluate`'s old result — added when
/// the first mover moved, subtracted when the second did — gives exactly
/// `pst_evaluate`'s result on the changed board, for every applicable move.
pub proof fn lemma_pst_delta_equals_from_scratch(b: Board, m: Move)
    requires
        b.wf(),
        move_ok(b, m),
    ensures
        spec_eval(PESTO_MG, spec_apply(b, m)) == spec_eval(PESTO_MG, b) + (if b.player.spec_idx()
            == 0 {
            spec_delta(PESTO_MG, b, m)
        } else {
            -spec_delta(PESTO_MG, b, m)
        }),
        spec_eval(PESTO_EG, spec_apply(b, m)) == spec_eval(PESTO_EG, b) + (if b.player.spec_idx()
            == 0 {
            spec_delta(PESTO_EG, b, m)
        } else {
            -spec_delta(PESTO_EG, b, m)
        }),
{
    lemma_delta_equivalence(PESTO_MG, b, m);
    lemma_delta_equivalence(PESTO_EG, b, m);
}

} // verus!
