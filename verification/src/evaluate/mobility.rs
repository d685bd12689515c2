//! Evaluation of positions based on the mobility of pieces.
//!
//! Mobility counts the squares a piece can move to by pseudo-legal moves:
//! captures and empty squares visible to a piece count towards its score
//! whether or not the piece is pinned. Squares occupied by the piece's own
//! side never count; contested squares held by the enemy do. For each piece
//! kind and each attacked-square count, a fixed bonus is given.

use vstd::prelude::*;
use crate::attacks::bishop_attacks;
use crate::attacks::bishop_attacks_spec;
use crate::attacks::king_attacks;
use crate::attacks::king_attacks_spec;
use crate::attacks::knight_attacks;
use crate::attacks::knight_attacks_spec;
use crate::attacks::pawn_attacks;
use crate::attacks::pawn_attacks_spec;
use crate::attacks::queen_attacks;
use crate::attacks::rook_attacks;
use crate::attacks::rook_attacks_spec;
use crate::bitboard::Bitboard;
use crate::bitboard::bit64;
use crate::bitboard::popcount_below;
use crate::bitboard::lemma_popcount_and_le;
use crate::bitboard::lemma_popcount_below_bounds;
use crate::board::Board;
use crate::piece::Piece;
use crate::score::Score;
use crate::square::Square;
use crate::tables::MOBILITY_EG;
use crate::tables::MOBILITY_MG;

verus! {

/// The mobility-table entry for piece kind `pt` at attack count `c`.
pub open spec fn tbl28(t: [[i16; 28]; 6], pt: int, c: int) -> int
    recommends
        0 <= pt < 6,
        0 <= c < 28,
{
    t[pt][c] as int
}

/// The squares a piece of kind `pt` and side `side` on `sq` attacks on
/// board `b`; the queen's set unites the rook's and the bishop's.
pub open spec fn attack_set(b: Board, pt: int, side: int, sq: int) -> u64 {
    if pt == 1 {
        knight_attacks_spec(sq)
    } else if pt == 2 {
        bishop_attacks_spec(b.spec_occupancy(), sq)
    } else if pt == 3 {
        rook_attacks_spec(b.spec_occupancy(), sq)
    } else if pt == 4 {
        rook_attacks_spec(b.spec_occupancy(), sq) | bishop_attacks_spec(b.spec_occupancy(), sq)
    } else if pt == 0 {
        pawn_attacks_spec(side, sq)
    } else {
        king_attacks_spec(sq)
    }
}

/// How many squares the piece attacks once its own side's squares are
/// removed.
pub open spec fn mob_count(b: Board, pt: int, side: int, sq: int) -> int {
    popcount_below(attack_set(b, pt, side, sq) & !b.sides[side].0, 64)
}

/// The mobility contribution of square `i` for kind `pt` of side `side`.
pub open spec fn mob_term(t: [[i16; 28]; 6], b: Board, pt: int, side: int, i: int) -> int {
    if bit64(b.pieces[pt].0 & b.sides[side].0, i as u64) {
        tbl28(t, pt, mob_count(b, pt, side, i))
    } else {
        0
    }
}

/// The sum of the mobility contributions of squares `0 <= i < n`.
pub open spec fn mob_sum(t: [[i16; 28]; 6], b: Board, pt: int, side: int, n: int) -> int
    decreases n,
{
    if n <= 0 {
        0
    } else {
        mob_sum(t, b, pt, side, n - 1) + mob_term(t, b, pt, side, n - 1)
    }
}

/// The whole-board mobility sum for one table: every knight, bishop, rook,
/// queen and pawn by its square set, each side's king once from its recorded
/// king square; the first mover counts positively, the second negatively.
pub open spec fn spec_mobility(t: [[i16; 28]; 6], b: Board) -> int {
    (mob_sum(t, b, 1, 0, 64) - mob_sum(t, b, 1, 1, 64)) + (mob_sum(t, b, 2, 0, 64) - mob_sum(
        t,
        b,
        2,
        1,
        64,
    )) + (mob_sum(t, b, 3, 0, 64) - mob_sum(t, b, 3, 1, 64)) + (mob_sum(t, b, 4, 0, 64) - mob_sum(
        t,
        b,
        4,
        1,
        64,
    )) + (mob_sum(t, b, 0, 0, 64) - mob_sum(t, b, 0, 1, 64)) + tbl28(
        t,
        5,
        mob_count(b, 5, 0, b.king_sqs[0].idx()),
    ) - tbl28(t, 5, mob_count(b, 5, 1, b.king_sqs[1].idx()))
}

/// The score of a piece of kind `pt` attacking the squares of `attacks`:
/// the mobility-table entry at the set's cardinality, which the table's
/// shape bounds at one less than `MAX_MOBILITY`.
pub fn for_piece(pt: Piece, attacks: Bitboard) -> (s: Score)
    requires
        attacks.spec_count() < 28,
    ensures
        s.mg == tbl28(MOBILITY_MG, pt.spec_idx(), attacks.spec_count()),
        s.eg == tbl28(MOBILITY_EG, pt.spec_idx(), attacks.spec_count()),
{
    let c: usize = attacks.len() as usize;
    let i: usize = pt.idx();
    Score { mg: MOBILITY_MG[i][c] as i32, eg: MOBILITY_EG[i][c] as i32 }
}

/// A mobility sum over `n` squares is bounded by `n` table entries.
proof fn lemma_mob_sum_bounds(t: [[i16; 28]; 6], b: Board, pt: int, side: int, n: int)
    requires
        n >= 0,
    ensures
        -32768 * n <= mob_sum(t, b, pt, side, n) <= 32767 * n,
    decreases n,
{
    if n > 0 {
        lemma_mob_sum_bounds(t, b, pt, side, n - 1);
    }
}

/// The attack set of the piece of kind `pt` and side `side` on `sq`.
fn attacks_for(b: &Board, pt: usize, side: usize, sq: Square) -> (bb: Bitboard)
    requires
        pt < 6,
        side < 2,
        sq.wf(),
    ensures
        bb.0 == attack_set(*b, pt as int, side as int, sq.idx()),
        0 <= bb.spec_count() <= 27,
{
    let occ: u64 = b.sides[0].0 | b.sides[1].0;
    if pt == 1 {
        knight_attacks(sq)
    } else if pt == 2 {
        bishop_attacks(occ, sq)
    } else if pt == 3 {
        rook_attacks(occ, sq)
    } else if pt == 4 {
        queen_attacks(occ, sq)
    } else if pt == 0 {
        pawn_attacks(side, sq)
    } else {
        king_attacks(sq)
    }
}

/// The mobility contributions of every piece of kind `pt` and side `side`,
/// summed over the side's occupied squares in ascending order.
fn mob_sum_exec(t: &[[i16; 28]; 6], b: &Board, pt: usize, side: usize) -> (s: i32)
    requires
        pt < 6,
        side < 2,
    ensures
        s == mob_sum(*t, *b, pt as int, side as int, 64),
        -32768 * 64 <= s <= 32767 * 64,
{
    let mut s: i32 = 0;
    let mut i: u8 = 0;
    let own: u64 = b.sides[side].0;
    while i < 64
        invariant
            pt < 6,
            side < 2,
            own == b.sides[side as int].0,
            i <= 64,
            s == mob_sum(*t, *b, pt as int, side as int, i as int),
            -32768 * i <= s <= 32767 * i,
        decreases 64 - i,
    {
        if ((b.pieces[pt].0 & own) >> (i as u64)) & 1u64 == 1u64 {
            let att = attacks_for(b, pt, side, Square(i));
            let masked: u64 = att.0 & !own;
            let c: u8 = Bitboard(masked).len();
            proof {
                lemma_popcount_and_le(att.0, !own, 64);
                lemma_popcount_below_bounds(masked, 64);
            }
            s = s + (t[pt][c as usize] as i32);
        }
        i = i + 1;
    }
    s
}

/// Get the mobility evaluation of a board: each piece's attacked-square
/// count — own-side squares removed — looks up its kind's bonus, added for
/// the first mover and subtracted for the second; each king is scored once
/// from its side's recorded king square.
pub fn evaluate(b: &Board) -> (s: Score)
    requires
        b.wf(),
    ensures
        s.mg == spec_mobility(MOBILITY_MG, *b),
        s.eg == spec_mobility(MOBILITY_EG, *b),
{
    Score { mg: eval_mob_table(&MOBILITY_MG, b), eg: eval_mob_table(&MOBILITY_EG, b) }
}

/// One pass of the mobility evaluation for a single table.
fn eval_mob_table(t: &[[i16; 28]; 6], b: &Board) -> (s: i32)
    requires
        b.wf(),
    ensures
        s == spec_mobility(*t, *b),
{
    // count knight moves
    let mut s: i32 = mob_sum_exec(t, b, 1, 0) - mob_sum_exec(t, b, 1, 1);
    // count bishop moves
    s = s + mob_sum_exec(t, b, 2, 0) - mob_sum_exec(t, b, 2, 1);
    // count rook moves
    s = s + mob_sum_exec(t, b, 3, 0) - mob_sum_exec(t, b, 3, 1);
    // count queen moves
    s = s + mob_sum_exec(t, b, 4, 0) - mob_sum_exec(t, b, 4, 1);
    // count net pawn moves: pawns are scored on their capture squares only
    s = s + mob_sum_exec(t, b, 0, 0) - mob_sum_exec(t, b, 0, 1);
    // each king is scored once, from its side's recorded king square
    let wk = king_attacks(b.king_sqs[0]);
    let wmask: u64 = wk.0 & !b.sides[0].0;
    let wc: u8 = Bitboard(wmask).len();
    proof {
        lemma_popcount_and_le(wk.0, !b.sides[0].0, 64);
        lemma_popcount_below_bounds(wmask, 64);
    }
    s = s + (t[5][wc as usize] as i32);
    let bk = king_attacks(b.king_sqs[1]);
    let bmask: u64 = bk.0 & !b.sides[1].0;
    let bc: u8 = Bitboard(bmask).len();
    proof {
        lemma_popcount_and_le(bk.0, !b.sides[1].0, 64);
        lemma_popcount_below_bounds(bmask, 64);
    }
    s = s - (t[5][bc as usize] as i32);
    s
}

} // verus!
