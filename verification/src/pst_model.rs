//! The mathematical model of piece-square scoring, shared by both
//! piece-square evaluators: what a full-board sum is, what a single move's
//! delta is, and the proof that applying the delta matches re-summing the
//! board from scratch.

use vstd::prelude::*;
use crate::bitboard::bit64;
use crate::bitboard::lemma_bit_ops;
use crate::board::Board;
use crate::board::Move;
use crate::board::castle_rook_squares;
use crate::board::ep_captured_sq;
use crate::board::move_ok;
use crate::board::spec_apply;
use crate::board::spec_kind_at;
use crate::board::lemma_kind_unique;
use crate::board::new_piece_mask;
use crate::board::new_own_mask;
use crate::board::new_their_mask;
use crate::square::opp_idx;

verus! {

/// The table entry for piece kind `pt` on square `sq`, as an integer.
pub open spec fn tbl(t: [[i16; 64]; 6], pt: int, sq: int) -> int
    recommends
        0 <= pt < 6,
        0 <= sq < 64,
{
    t[pt][sq] as int
}

/// The contribution of square `i` of occupant set `bb` for piece kind `pt`:
/// the table entry at the square — mirrored for the second mover — when the
/// square is occupied, zero otherwise.
pub open spec fn term(t: [[i16; 64]; 6], pt: int, bb: u64, mirror: bool, i: int) -> int {
    if bit64(bb, i as u64) {
        tbl(
            t,
            pt,
            if mirror {
                opp_idx(i)
            } else {
                i
            },
        )
    } else {
        0
    }
}

/// The sum of the contributions of squares `0 <= i < n` of `bb`.
pub open spec fn side_sum(t: [[i16; 64]; 6], pt: int, bb: u64, mirror: bool, n: int) -> int
    decreases n,
{
    if n <= 0 {
        0
    } else {
        side_sum(t, pt, bb, mirror, n - 1) + term(t, pt, bb, mirror, n - 1)
    }
}

/// The net contribution of piece kind `pt` on board `b`: the first mover's
/// occupants count positively at their own squares, the second mover's count
/// negatively at mirrored squares.
pub open spec fn piece_total(t: [[i16; 64]; 6], b: Board, pt: int) -> int {
    side_sum(t, pt, b.pieces[pt].0 & b.sides[0].0, false, 64) - side_sum(
        t,
        pt,
        b.pieces[pt].0 & b.sides[1].0,
        true,
        64,
    )
}

/// The sum of the piece-kind contributions below kind `k`.
pub open spec fn total_below(t: [[i16; 64]; 6], b: Board, k: int) -> int
    decreases k,
{
    if k <= 0 {
        0
    } else {
        total_below(t, b, k - 1) + piece_total(t, b, k - 1)
    }
}

/// The whole-board piece-square sum for one table: first mover minus second
/// mover.
pub open spec fn spec_eval(t: [[i16; 64]; 6], b: Board) -> int {
    total_below(t, b, 6)
}

/// The mover-relative change of the piece-square sum caused by applying move
/// `m` to board `b`: the arriving kind's value at the destination minus the
/// moving kind's value at the origin (both seen from the mover's own
/// viewpoint), plus the captured piece's value at its own mirrored square,
/// plus — for an en-passant capture — the captured pawn's value behind the
/// destination, plus — for a castle — the rook's relocation difference.
pub open spec fn spec_delta(t: [[i16; 64]; 6], b: Board, m: Move) -> int {
    let us = b.player.spec_idx();
    let from = m.from.idx();
    let to = m.to.idx();
    let ptm = spec_kind_at(b, from);
    let pte = match m.promote {
        Some(p) => p.spec_idx(),
        None => ptm,
    };
    let from_alt = if us == 0 {
        from
    } else {
        opp_idx(from)
    };
    let to_alt = if us == 0 {
        to
    } else {
        opp_idx(to)
    };
    tbl(t, pte, to_alt) - tbl(t, ptm, from_alt) + (if b.sides[1 - us].has(to) {
        tbl(t, spec_kind_at(b, to), opp_idx(to_alt))
    } else {
        0
    }) + (if m.en_passant {
        tbl(t, 0, opp_idx(to_alt - 8))
    } else {
        0
    }) + (if m.castle {
        if to % 8 == 2 {
            tbl(t, 3, 3) - tbl(t, 3, 0)
        } else {
            tbl(t, 3, 5) - tbl(t, 3, 7)
        }
    } else {
        0
    })
}

/// The change that applying `m` causes to the moving side's sum for piece
/// kind `pt`: the mover's kind loses its origin entry, the arriving kind
/// gains its destination entry, and a castle relocates the rook — all at
/// table indices seen from the mover's own viewpoint.
pub open spec fn mover_kind_diff(t: [[i16; 64]; 6], b: Board, m: Move, pt: int) -> int {
    let us = b.player.spec_idx();
    let mirror = us == 1;
    let from = m.from.idx();
    let to = m.to.idx();
    let ptm = spec_kind_at(b, from);
    let pte = match m.promote {
        Some(p) => p.spec_idx(),
        None => ptm,
    };
    let from_x = if mirror {
        opp_idx(from)
    } else {
        from
    };
    let to_x = if mirror {
        opp_idx(to)
    } else {
        to
    };
    let rf = castle_rook_squares(us, to).0;
    let rt = castle_rook_squares(us, to).1;
    let rf_x = if mirror {
        opp_idx(rf)
    } else {
        rf
    };
    let rt_x = if mirror {
        opp_idx(rt)
    } else {
        rt
    };
    (if pt == ptm && pt == pte {
        tbl(t, pt, to_x) - tbl(t, pt, from_x)
    } else if pt == ptm {
        -tbl(t, pt, from_x)
    } else if pt == pte {
        tbl(t, pt, to_x)
    } else {
        0
    }) + (if m.castle && pt == 3 {
        tbl(t, 3, rt_x) - tbl(t, 3, rf_x)
    } else {
        0
    })
}

/// The change that applying `m` causes to the opposing side's sum for piece
/// kind `pt`: a captured piece loses its entry at its own viewpoint's index,
/// as does the pawn captured en passant.
pub open spec fn victim_kind_diff(t: [[i16; 64]; 6], b: Board, m: Move, pt: int) -> int {
    let us = b.player.spec_idx();
    let mirror = us == 0;
    let to = m.to.idx();
    let capture = b.sides[1 - us].has(to);
    let capt = spec_kind_at(b, to);
    let ep = ep_captured_sq(us, to);
    let to_y = if mirror {
        opp_idx(to)
    } else {
        to
    };
    let ep_y = if mirror {
        opp_idx(ep)
    } else {
        ep
    };
    (if capture && pt == capt {
        -tbl(t, pt, to_y)
    } else {
        0
    }) + (if m.en_passant && pt == 0 {
        -tbl(t, 0, ep_y)
    } else {
        0
    })
}

/// The change of the net contribution of kind `pt`: the first mover's sum
/// minus the second mover's, each changed on its own side.
pub open spec fn kind_diff(t: [[i16; 64]; 6], b: Board, m: Move, pt: int) -> int {
    if b.player.spec_idx() == 0 {
        mover_kind_diff(t, b, m, pt) - victim_kind_diff(t, b, m, pt)
    } else {
        victim_kind_diff(t, b, m, pt) - mover_kind_diff(t, b, m, pt)
    }
}

/// A side sum over `n` squares is bounded by `n` table entries.
pub proof fn lemma_side_sum_bounds(t: [[i16; 64]; 6], pt: int, bb: u64, mirror: bool, n: int)
    requires
        n >= 0,
    ensures
        -32768 * n <= side_sum(t, pt, bb, mirror, n) <= 32767 * n,
    decreases n,
{
    if n > 0 {
        lemma_side_sum_bounds(t, pt, bb, mirror, n - 1);
    }
}

/// Side sums agree on occupant sets whose bits agree.
pub proof fn lemma_side_sum_congruence(
    t: [[i16; 64]; 6],
    pt: int,
    a: u64,
    b: u64,
    mirror: bool,
    n: int,
)
    requires
        n <= 64,
        forall|i: u64| i < n ==> bit64(a, i) == bit64(b, i),
    ensures
        side_sum(t, pt, a, mirror, n) == side_sum(t, pt, b, mirror, n),
    decreases n,
{
    if n > 0 {
        lemma_side_sum_congruence(t, pt, a, b, mirror, n - 1);
    }
}

/// Two occupant sets that agree everywhere but on square `k` have side sums
/// that differ by exactly the two contributions of `k`.
pub proof fn lemma_side_sum_diff1(
    t: [[i16; 64]; 6],
    pt: int,
    a: u64,
    b: u64,
    k: u64,
    mirror: bool,
    n: int,
)
    requires
        n <= 64,
        k < 64,
        forall|i: u64| i < 64 && i != k ==> bit64(a, i) == bit64(b, i),
    ensures
        side_sum(t, pt, a, mirror, n) - side_sum(t, pt, b, mirror, n) == if k < n {
            term(t, pt, a, mirror, k as int) - term(t, pt, b, mirror, k as int)
        } else {
            0
        },
    decreases n,
{
    if n > 0 {
        lemma_side_sum_diff1(t, pt, a, b, k, mirror, n - 1);
    }
}

/// Two occupant sets that agree everywhere but on squares `k1` and `k2` have
/// side sums that differ by exactly the contributions of those squares.
pub proof fn lemma_side_sum_diff2(
    t: [[i16; 64]; 6],
    pt: int,
    a: u64,
    b: u64,
    k1: u64,
    k2: u64,
    mirror: bool,
    n: int,
)
    requires
        n <= 64,
        k1 < 64,
        k2 < 64,
        k1 != k2,
        forall|i: u64| i < 64 && i != k1 && i != k2 ==> bit64(a, i) == bit64(b, i),
    ensures
        side_sum(t, pt, a, mirror, n) - side_sum(t, pt, b, mirror, n) == (if k1 < n {
            term(t, pt, a, mirror, k1 as int) - term(t, pt, b, mirror, k1 as int)
        } else {
            0
        }) + (if k2 < n {
            term(t, pt, a, mirror, k2 as int) - term(t, pt, b, mirror, k2 as int)
        } else {
            0
        }),
    decreases n,
{
    if n > 0 {
        lemma_side_sum_diff2(t, pt, a, b, k1, k2, mirror, n - 1);
    }
}

/// The whole-board sum unfolded into its six piece-kind contributions.
pub proof fn lemma_total_unfold(t: [[i16; 64]; 6], b: Board)
    ensures
        spec_eval(t, b) == piece_total(t, b, 0) + piece_total(t, b, 1) + piece_total(t, b, 2)
            + piece_total(t, b, 3) + piece_total(t, b, 4) + piece_total(t, b, 5),
{
    assert(total_below(t, b, 0) == 0);
    assert(total_below(t, b, 1) == total_below(t, b, 0) + piece_total(t, b, 0));
    assert(total_below(t, b, 2) == total_below(t, b, 1) + piece_total(t, b, 1));
    assert(total_below(t, b, 3) == total_below(t, b, 2) + piece_total(t, b, 2));
    assert(total_below(t, b, 4) == total_below(t, b, 3) + piece_total(t, b, 3));
    assert(total_below(t, b, 5) == total_below(t, b, 4) + piece_total(t, b, 4));
    assert(total_below(t, b, 6) == total_below(t, b, 5) + piece_total(t, b, 5));
}

/// The eight contributions of the rank that starts at square `lo`.
pub open spec fn chunk8(t: [[i16; 64]; 6], pt: int, bb: u64, mirror: bool, lo: int) -> int {
    term(t, pt, bb, mirror, lo) + term(t, pt, bb, mirror, lo + 1) + term(t, pt, bb, mirror, lo + 2)
        + term(t, pt, bb, mirror, lo + 3) + term(t, pt, bb, mirror, lo + 4) + term(
        t,
        pt,
        bb,
        mirror,
        lo + 5,
    ) + term(t, pt, bb, mirror, lo + 6) + term(t, pt, bb, mirror, lo + 7)
}

/// Eight more squares of a side sum make one more rank chunk.
proof fn lemma_sum_step8(t: [[i16; 64]; 6], pt: int, bb: u64, mirror: bool, lo: int)
    requires
        lo >= 0,
    ensures
        side_sum(t, pt, bb, mirror, lo + 8) == side_sum(t, pt, bb, mirror, lo) + chunk8(
            t,
            pt,
            bb,
            mirror,
            lo,
        ),
{
    assert(side_sum(t, pt, bb, mirror, lo + 1) == side_sum(t, pt, bb, mirror, lo) + term(
        t,
        pt,
        bb,
        mirror,
        lo,
    ));
    assert(side_sum(t, pt, bb, mirror, lo + 2) == side_sum(t, pt, bb, mirror, lo + 1) + term(
        t,
        pt,
        bb,
        mirror,
        lo + 1,
    ));
    assert(side_sum(t, pt, bb, mirror, lo + 3) == side_sum(t, pt, bb, mirror, lo + 2) + term(
        t,
        pt,
        bb,
        mirror,
        lo + 2,
    ));
    assert(side_sum(t, pt, bb, mirror, lo + 4) == side_sum(t, pt, bb, mirror, lo + 3) + term(
        t,
        pt,
        bb,
        mirror,
        lo + 3,
    ));
    assert(side_sum(t, pt, bb, mirror, lo + 5) == side_sum(t, pt, bb, mirror, lo + 4) + term(
        t,
        pt,
        bb,
        mirror,
        lo + 4,
    ));
    assert(side_sum(t, pt, bb, mirror, lo + 6) == side_sum(t, pt, bb, mirror, lo + 5) + term(
        t,
        pt,
        bb,
        mirror,
        lo + 5,
    ));
    assert(side_sum(t, pt, bb, mirror, lo + 7) == side_sum(t, pt, bb, mirror, lo + 6) + term(
        t,
        pt,
        bb,
        mirror,
        lo + 6,
    ));
    assert(side_sum(t, pt, bb, mirror, lo + 8) == side_sum(t, pt, bb, mirror, lo + 7) + term(
        t,
        pt,
        bb,
        mirror,
        lo + 7,
    ));
}

/// A side sum is its eight rank chunks.
proof fn lemma_sum_chunks(t: [[i16; 64]; 6], pt: int, bb: u64, mirror: bool)
    ensures
        side_sum(t, pt, bb, mirror, 64) == chunk8(t, pt, bb, mirror, 0) + chunk8(
            t,
            pt,
            bb,
            mirror,
            8,
        ) + chunk8(t, pt, bb, mirror, 16) + chunk8(t, pt, bb, mirror, 24) + chunk8(
            t,
            pt,
            bb,
            mirror,
            32,
        ) + chunk8(t, pt, bb, mirror, 40) + chunk8(t, pt, bb, mirror, 48) + chunk8(
            t,
            pt,
            bb,
            mirror,
            56,
        ),
{
    lemma_sum_step8(t, pt, bb, mirror, 0);
    lemma_sum_step8(t, pt, bb, mirror, 8);
    lemma_sum_step8(t, pt, bb, mirror, 16);
    lemma_sum_step8(t, pt, bb, mirror, 24);
    lemma_sum_step8(t, pt, bb, mirror, 32);
    lemma_sum_step8(t, pt, bb, mirror, 40);
    lemma_sum_step8(t, pt, bb, mirror, 48);
    lemma_sum_step8(t, pt, bb, mirror, 56);
}

/// A rank chunk of a mirrored occupant set, read mirrored, equals the
/// opposite rank's chunk of the original set read plainly.
#[verifier::rlimit(60)]
proof fn lemma_chunk_mirror(t: [[i16; 64]; 6], pt: int, x: u64, lo: int)
    requires
        0 <= lo <= 56,
        lo % 8 == 0,
    ensures
        chunk8(t, pt, crate::bitboard::mirror_bb(x), true, lo) == chunk8(t, pt, x, false, 56 - lo),
{
    lemma_term_mirror(t, pt, x, lo);
    lemma_term_mirror(t, pt, x, lo + 1);
    lemma_term_mirror(t, pt, x, lo + 2);
    lemma_term_mirror(t, pt, x, lo + 3);
    lemma_term_mirror(t, pt, x, lo + 4);
    lemma_term_mirror(t, pt, x, lo + 5);
    lemma_term_mirror(t, pt, x, lo + 6);
    lemma_term_mirror(t, pt, x, lo + 7);
    crate::square::lemma_opp_idx(lo);
    crate::square::lemma_opp_idx(lo + 1);
    crate::square::lemma_opp_idx(lo + 2);
    crate::square::lemma_opp_idx(lo + 3);
    crate::square::lemma_opp_idx(lo + 4);
    crate::square::lemma_opp_idx(lo + 5);
    crate::square::lemma_opp_idx(lo + 6);
    crate::square::lemma_opp_idx(lo + 7);
}

/// One square's mirrored contribution is the opposite square's plain one.
proof fn lemma_term_mirror(t: [[i16; 64]; 6], pt: int, x: u64, i: int)
    requires
        0 <= i < 64,
    ensures
        term(t, pt, crate::bitboard::mirror_bb(x), true, i) == term(t, pt, x, false, opp_idx(i)),
{
    crate::bitboard::lemma_mirror_bb();
    let mx = crate::bitboard::mirror_bb(x);
    crate::square::lemma_opp_idx(i);
    crate::bitboard::lemma_opp_idx_xor(i as u64);
    assert(bit64(mx, i as u64) == bit64(x, (i as u64) ^ 56));
    assert(((i as u64) ^ 56) == opp_idx(i) as u64);
}

/// Summing a mirrored occupant set from the second mover's viewpoint gives
/// the original set's first-mover sum, and the other way round.
proof fn lemma_mirror_side_sum(t: [[i16; 64]; 6], pt: int, x: u64)
    ensures
        side_sum(t, pt, crate::bitboard::mirror_bb(x), true, 64) == side_sum(t, pt, x, false, 64),
        side_sum(t, pt, crate::bitboard::mirror_bb(x), false, 64) == side_sum(t, pt, x, true, 64),
{
    let mx = crate::bitboard::mirror_bb(x);
    lemma_sum_chunks(t, pt, mx, true);
    lemma_sum_chunks(t, pt, x, false);
    lemma_chunk_mirror(t, pt, x, 0);
    lemma_chunk_mirror(t, pt, x, 8);
    lemma_chunk_mirror(t, pt, x, 16);
    lemma_chunk_mirror(t, pt, x, 24);
    lemma_chunk_mirror(t, pt, x, 32);
    lemma_chunk_mirror(t, pt, x, 40);
    lemma_chunk_mirror(t, pt, x, 48);
    lemma_chunk_mirror(t, pt, x, 56);
    // the reverse direction comes from mirroring being an involution
    crate::bitboard::lemma_mirror_bb();
    lemma_sum_chunks(t, pt, mx, false);
    lemma_sum_chunks(t, pt, x, true);
    lemma_chunk_mirror(t, pt, mx, 0);
    lemma_chunk_mirror(t, pt, mx, 8);
    lemma_chunk_mirror(t, pt, mx, 16);
    lemma_chunk_mirror(t, pt, mx, 24);
    lemma_chunk_mirror(t, pt, mx, 32);
    lemma_chunk_mirror(t, pt, mx, 40);
    lemma_chunk_mirror(t, pt, mx, 48);
    lemma_chunk_mirror(t, pt, mx, 56);
}

/// Mirror symmetry of the piece-square sum: on the colour-flipped,
/// square-mirrored board the whole-board sum is the exact negation of the
/// original's, for every table.
pub proof fn lemma_mirror_eval(t: [[i16; 64]; 6], b: Board)
    ensures
        spec_eval(t, crate::board::spec_mirror(b)) == -spec_eval(t, b),
{
    let mb = crate::board::spec_mirror(b);
    lemma_total_unfold(t, b);
    lemma_total_unfold(t, mb);
    crate::bitboard::lemma_mirror_bb();
    assert forall|pt: int| 0 <= pt < 6 implies piece_total(t, mb, pt) == -piece_total(
        t,
        b,
        pt,
    ) by {
        let p = b.pieces[pt].0;
        assert(mb.pieces[pt].0 == crate::bitboard::mirror_bb(p));
        assert(mb.sides[0].0 == crate::bitboard::mirror_bb(b.sides[1].0));
        assert(mb.sides[1].0 == crate::bitboard::mirror_bb(b.sides[0].0));
        assert(mb.pieces[pt].0 & mb.sides[0].0 == crate::bitboard::mirror_bb(p & b.sides[1].0));
        assert(mb.pieces[pt].0 & mb.sides[1].0 == crate::bitboard::mirror_bb(p & b.sides[0].0));
        lemma_mirror_side_sum(t, pt, p & b.sides[1].0);
        lemma_mirror_side_sum(t, pt, p & b.sides[0].0);
    }
}

/// Applying `m` changes the moving side's sum for kind `pt` by exactly
/// `mover_kind_diff`.
#[verifier::rlimit(60)]
proof fn lemma_mover_side_diff(t: [[i16; 64]; 6], b: Board, m: Move, pt: int)
    requires
        b.wf(),
        move_ok(b, m),
        0 <= pt < 6,
    ensures
        side_sum(
            t,
            pt,
            new_piece_mask(b, m, pt) & new_own_mask(b, m),
            b.player.spec_idx() == 1,
            64,
        ) - side_sum(
            t,
            pt,
            b.pieces[pt].0 & b.sides[b.player.spec_idx()].0,
            b.player.spec_idx() == 1,
            64,
        ) == mover_kind_diff(t, b, m, pt),
{
    lemma_bit_ops();
    let us = b.player.spec_idx();
    let them = 1 - us;
    let mir = us == 1;
    let from = m.from.idx();
    let to = m.to.idx();
    let fromv = from as u64;
    let tov = to as u64;
    let ptm = spec_kind_at(b, from);
    let pte = match m.promote {
        Some(p) => p.spec_idx(),
        None => ptm,
    };
    let capture = b.sides[them].has(to);
    let capt = spec_kind_at(b, to);
    let po = b.pieces[pt].0;
    let pn = new_piece_mask(b, m, pt);
    let so = b.sides[us].0;
    let sn = new_own_mask(b, m);
    let mo = po & so;
    let mn = pn & sn;

    lemma_kind_unique(b, from);
    lemma_kind_unique(b, to);
    crate::bitboard::lemma_disjoint_bits(b.sides[0].0, b.sides[1].0);
    // the origin holds the mover's kind and nothing of the other side
    assert(bit64(so, fromv));
    assert(!bit64(b.sides[them].0, fromv));
    assert(bit64(b.sides[0].0 | b.sides[1].0, fromv));
    assert(ptm < 6);
    // the destination holds no piece of the moving side
    assert(!bit64(so, tov));
    assert(capture == bit64(b.sides[them].0, tov));
    if !capture {
        assert(!bit64(b.sides[0].0 | b.sides[1].0, tov));
        assert(spec_kind_at(b, to) == 6);
    } else {
        assert(capt < 6);
    }
    // en-passant facts
    let epq = ep_captured_sq(us, to);
    let epv = epq as u64;
    if m.en_passant {
        assert(0 <= epq < 64);
        lemma_kind_unique(b, epq);
        assert(bit64(b.pieces[0].0, epv));
        assert(spec_kind_at(b, epq) == 0);
        assert(bit64(b.sides[them].0, epv));
        assert(!bit64(so, epv));
        assert(!capture);
        assert(ptm == 0);
    }
    // castling facts
    let rf = castle_rook_squares(us, to).0;
    let rt = castle_rook_squares(us, to).1;
    let rfv = rf as u64;
    let rtv = rt as u64;
    if m.castle {
        assert(0 <= rf < 64 && 0 <= rt < 64);
        lemma_kind_unique(b, rf);
        lemma_kind_unique(b, rt);
        assert(bit64(b.pieces[3].0, rfv));
        assert(spec_kind_at(b, rf) == 3);
        assert(bit64(so, rfv));
        assert(!bit64(b.sides[0].0 | b.sides[1].0, rtv));
        assert(spec_kind_at(b, rt) == 6);
        assert(ptm == 5);
        assert(pte == 5);
        assert(rf != rt && rf != from && rf != to && rt != from && rt != to);
        assert(!capture);
    }

    if pt == ptm && pt == pte {
        assert forall|i: u64| i < 64 && i != fromv && i != tov implies bit64(mn, i) == bit64(
            mo,
            i,
        ) by {
            if m.en_passant && i == epv {
                assert(!bit64(so, epv));
                assert(!bit64(sn, epv));
            } else if m.castle && (i == rfv || i == rtv) {
                assert(!bit64(po, rfv));
                assert(!bit64(po, rtv));
                assert(!bit64(pn, rfv));
                assert(!bit64(pn, rtv));
            }
        }
        lemma_side_sum_diff2(t, pt, mn, mo, fromv, tov, mir, 64);
        assert(!bit64(pn, fromv));
        assert(bit64(pn, tov) && bit64(sn, tov));
        assert(term(t, pt, mn, mir, from) == 0);
        assert(term(t, pt, mo, mir, from) == tbl(
            t,
            pt,
            if mir {
                opp_idx(from)
            } else {
                from
            },
        ));
        assert(term(t, pt, mn, mir, to) == tbl(
            t,
            pt,
            if mir {
                opp_idx(to)
            } else {
                to
            },
        ));
        assert(term(t, pt, mo, mir, to) == 0);
    } else if pt == ptm {
        assert forall|i: u64| i < 64 && i != fromv implies bit64(mn, i) == bit64(mo, i) by {
            if i == tov {
                assert(!bit64(mo, tov));
                assert(!bit64(pn, tov));
            } else if m.en_passant && i == epv {
                assert(!bit64(so, epv));
                assert(!bit64(sn, epv));
            }
        }
        lemma_side_sum_diff1(t, pt, mn, mo, fromv, mir, 64);
        assert(!bit64(pn, fromv));
        assert(term(t, pt, mn, mir, from) == 0);
        assert(term(t, pt, mo, mir, from) == tbl(
            t,
            pt,
            if mir {
                opp_idx(from)
            } else {
                from
            },
        ));
    } else if pt == pte {
        assert forall|i: u64| i < 64 && i != tov implies bit64(mn, i) == bit64(mo, i) by {
            if i == fromv {
                assert(!bit64(po, fromv));
                assert(!bit64(pn, fromv));
            } else if m.en_passant && i == epv {
                assert(!bit64(so, epv));
                assert(!bit64(sn, epv));
            }
        }
        lemma_side_sum_diff1(t, pt, mn, mo, tov, mir, 64);
        assert(bit64(pn, tov) && bit64(sn, tov));
        assert(term(t, pt, mn, mir, to) == tbl(
            t,
            pt,
            if mir {
                opp_idx(to)
            } else {
                to
            },
        ));
        assert(term(t, pt, mo, mir, to) == 0);
    } else if m.castle && pt == 3 {
        assert forall|i: u64| i < 64 && i != rfv && i != rtv implies bit64(mn, i) == bit64(
            mo,
            i,
        ) by {
            if i == fromv {
                assert(!bit64(po, fromv));
                assert(!bit64(pn, fromv));
            } else if i == tov {
                assert(!bit64(po, tov));
                assert(!bit64(pn, tov));
            }
        }
        lemma_side_sum_diff2(t, pt, mn, mo, rfv, rtv, mir, 64);
        assert(!bit64(pn, rfv));
        assert(bit64(pn, rtv) && bit64(sn, rtv));
        assert(term(t, pt, mn, mir, rf) == 0);
        assert(term(t, pt, mo, mir, rf) == tbl(
            t,
            pt,
            if mir {
                opp_idx(rf)
            } else {
                rf
            },
        ));
        assert(term(t, pt, mn, mir, rt) == tbl(
            t,
            pt,
            if mir {
                opp_idx(rt)
            } else {
                rt
            },
        ));
        assert(term(t, pt, mo, mir, rt) == 0);
    } else {
        assert forall|i: u64| i < 64 implies bit64(mn, i) == bit64(mo, i) by {
            if i == fromv {
                assert(!bit64(po, fromv));
                assert(!bit64(pn, fromv));
            } else if i == tov {
                assert(!bit64(pn, tov));
                assert(!bit64(mo, tov));
            } else if m.en_passant && i == epv {
                assert(!bit64(so, epv));
                assert(!bit64(sn, epv));
            } else if m.castle && (i == rfv || i == rtv) {
                assert(!bit64(po, rfv));
                assert(!bit64(po, rtv));
                assert(!bit64(pn, rfv));
                assert(!bit64(pn, rtv));
            }
        }
        lemma_side_sum_congruence(t, pt, mn, mo, mir, 64);
    }
}

/// Applying `m` changes the opposing side's sum for kind `pt` by exactly
/// `victim_kind_diff`.
#[verifier::rlimit(60)]
proof fn lemma_victim_side_diff(t: [[i16; 64]; 6], b: Board, m: Move, pt: int)
    requires
        b.wf(),
        move_ok(b, m),
        0 <= pt < 6,
    ensures
        side_sum(
            t,
            pt,
            new_piece_mask(b, m, pt) & new_their_mask(b, m),
            b.player.spec_idx() == 0,
            64,
        ) - side_sum(
            t,
            pt,
            b.pieces[pt].0 & b.sides[1 - b.player.spec_idx()].0,
            b.player.spec_idx() == 0,
            64,
        ) == victim_kind_diff(t, b, m, pt),
{
    lemma_bit_ops();
    let us = b.player.spec_idx();
    let them = 1 - us;
    let mir = us == 0;
    let from = m.from.idx();
    let to = m.to.idx();
    let fromv = from as u64;
    let tov = to as u64;
    let ptm = spec_kind_at(b, from);
    let pte = match m.promote {
        Some(p) => p.spec_idx(),
        None => ptm,
    };
    let capture = b.sides[them].has(to);
    let capt = spec_kind_at(b, to);
    let po = b.pieces[pt].0;
    let pn = new_piece_mask(b, m, pt);
    let so = b.sides[them].0;
    let sn = new_their_mask(b, m);
    let vo = po & so;
    let vn = pn & sn;

    lemma_kind_unique(b, from);
    lemma_kind_unique(b, to);
    crate::bitboard::lemma_disjoint_bits(b.sides[0].0, b.sides[1].0);
    assert(bit64(b.sides[us].0, fromv));
    assert(!bit64(so, fromv));
    assert(!bit64(b.sides[us].0, tov));
    assert(capture == bit64(so, tov));
    assert(ptm < 6);
    if !capture {
        assert(!bit64(b.sides[0].0 | b.sides[1].0, tov));
        assert(spec_kind_at(b, to) == 6);
    } else {
        assert(capt < 6);
    }
    let epq = ep_captured_sq(us, to);
    let epv = epq as u64;
    if m.en_passant {
        assert(0 <= epq < 64);
        lemma_kind_unique(b, epq);
        assert(bit64(b.pieces[0].0, epv));
        assert(spec_kind_at(b, epq) == 0);
        assert(bit64(so, epv));
        assert(!capture);
        assert(ptm == 0);
        assert(epv != tov);
        assert(epv != fromv);
    }
    let rf = castle_rook_squares(us, to).0;
    let rt = castle_rook_squares(us, to).1;
    let rfv = rf as u64;
    let rtv = rt as u64;
    if m.castle {
        assert(0 <= rf < 64 && 0 <= rt < 64);
        lemma_kind_unique(b, rf);
        lemma_kind_unique(b, rt);
        assert(bit64(b.pieces[3].0, rfv));
        assert(spec_kind_at(b, rf) == 3);
        assert(bit64(b.sides[us].0, rfv));
        assert(!bit64(so, rfv));
        assert(!bit64(b.sides[0].0 | b.sides[1].0, rtv));
        assert(spec_kind_at(b, rt) == 6);
        assert(!bit64(so, rtv));
        assert(ptm == 5 && pte == 5);
        assert(!capture && !m.en_passant);
    }

    if capture && pt == capt {
        assert forall|i: u64| i < 64 && i != tov implies bit64(vn, i) == bit64(vo, i) by {
            if i == fromv {
                assert(!bit64(so, fromv));
                assert(!bit64(sn, fromv));
            }
        }
        lemma_side_sum_diff1(t, pt, vn, vo, tov, mir, 64);
        assert(bit64(vo, tov));
        assert(!bit64(sn, tov));
        assert(term(t, pt, vn, mir, to) == 0);
        assert(term(t, pt, vo, mir, to) == tbl(
            t,
            pt,
            if mir {
                opp_idx(to)
            } else {
                to
            },
        ));
    } else if m.en_passant && pt == 0 {
        assert forall|i: u64| i < 64 && i != epv implies bit64(vn, i) == bit64(vo, i) by {
            if i == fromv {
                assert(!bit64(so, fromv));
                assert(!bit64(sn, fromv));
            } else if i == tov {
                assert(!bit64(so, tov));
                assert(!bit64(sn, tov));
            }
        }
        lemma_side_sum_diff1(t, pt, vn, vo, epv, mir, 64);
        assert(bit64(vo, epv));
        assert(!bit64(pn, epv));
        assert(term(t, pt, vn, mir, epq) == 0);
        assert(term(t, pt, vo, mir, epq) == tbl(
            t,
            0,
            if mir {
                opp_idx(epq)
            } else {
                epq
            },
        ));
    } else {
        assert forall|i: u64| i < 64 implies bit64(vn, i) == bit64(vo, i) by {
            if i == fromv {
                assert(!bit64(so, fromv));
                assert(!bit64(sn, fromv));
            } else if i == tov {
                if capture {
                    assert(pt != capt);
                    assert(!bit64(po, tov));
                    assert(!bit64(pn, tov) || !bit64(sn, tov));
                } else {
                    assert(!bit64(so, tov));
                    assert(!bit64(sn, tov));
                }
            } else if m.en_passant && i == epv {
                assert(pt != 0);
                assert(!bit64(po, epv));
                assert(!bit64(pn, epv));
            } else if m.castle && (i == rfv || i == rtv) {
                assert(!bit64(so, rfv));
                assert(!bit64(sn, rfv));
                assert(!bit64(so, rtv));
                assert(!bit64(sn, rtv));
            }
        }
        lemma_side_sum_congruence(t, pt, vn, vo, mir, 64);
    }
}

/// Applying `m` changes the net contribution of each piece kind by exactly
/// `kind_diff`.
proof fn lemma_kind_diff_holds(t: [[i16; 64]; 6], b: Board, m: Move, pt: int)
    requires
        b.wf(),
        move_ok(b, m),
        0 <= pt < 6,
    ensures
        piece_total(t, spec_apply(b, m), pt) - piece_total(t, b, pt) == kind_diff(t, b, m, pt),
{
    let b2 = spec_apply(b, m);
    let us = b.player.spec_idx();
    assert(b2.pieces[pt].0 == new_piece_mask(b, m, pt));
    if us == 0 {
        assert(b2.sides[0].0 == new_own_mask(b, m));
        assert(b2.sides[1].0 == new_their_mask(b, m));
    } else {
        assert(b2.sides[0].0 == new_their_mask(b, m));
        assert(b2.sides[1].0 == new_own_mask(b, m));
    }
    lemma_mover_side_diff(t, b, m, pt);
    lemma_victim_side_diff(t, b, m, pt);
}

/// The six kind changes sum to the mover-relative delta, signed positively
/// when the first mover made the move and negatively otherwise.
#[verifier::rlimit(60)]
proof fn lemma_kind_diff_sum(t: [[i16; 64]; 6], b: Board, m: Move)
    requires
        b.wf(),
        move_ok(b, m),
    ensures
        kind_diff(t, b, m, 0) + kind_diff(t, b, m, 1) + kind_diff(t, b, m, 2) + kind_diff(
            t,
            b,
            m,
            3,
        ) + kind_diff(t, b, m, 4) + kind_diff(t, b, m, 5) == if b.player.spec_idx() == 0 {
            spec_delta(t, b, m)
        } else {
            -spec_delta(t, b, m)
        },
{
    let us = b.player.spec_idx();
    let from = m.from.idx();
    let to = m.to.idx();
    let ptm = spec_kind_at(b, from);
    let pte = match m.promote {
        Some(p) => p.spec_idx(),
        None => ptm,
    };
    let capture = b.sides[1 - us].has(to);
    let capt = spec_kind_at(b, to);
    lemma_kind_unique(b, from);
    lemma_kind_unique(b, to);
    assert(ptm < 6);
    if capture {
        assert(capt < 6);
    }
    crate::square::lemma_opp_idx(from);
    crate::square::lemma_opp_idx(to);
    if m.en_passant && us == 1 {
        let to8 = to as u8;
        let e: u8 = (opp_idx(to) - 8) as u8;
        assert(to8 < 64 && to8 / 8 == 2 ==> (to8 ^ 56) >= 8) by (bit_vector);
        assert(e == ((to8 ^ 56) - 8) as u8);
        assert((e ^ 56) == to8 + 8) by (bit_vector)
            requires
                to8 < 64,
                to8 / 8 == 2,
                e == ((to8 ^ 56) - 8) as u8,
        ;
        assert(opp_idx(opp_idx(to) - 8) == to + 8);
    }
    if m.castle && us == 1 {
        assert((56u8 ^ 56) == 0 && (59u8 ^ 56) == 3 && (63u8 ^ 56) == 7 && (61u8 ^ 56) == 5)
            by (bit_vector);
        assert(opp_idx(56) == 0 && opp_idx(59) == 3 && opp_idx(63) == 7 && opp_idx(61) == 5);
    }
    let mir = us == 1;
    let from_x = if mir {
        opp_idx(from)
    } else {
        from
    };
    let to_x = if mir {
        opp_idx(to)
    } else {
        to
    };
    let rf = castle_rook_squares(us, to).0;
    let rt = castle_rook_squares(us, to).1;
    let rf_x = if mir {
        opp_idx(rf)
    } else {
        rf
    };
    let rt_x = if mir {
        opp_idx(rt)
    } else {
        rt
    };
    assert(0 <= ptm < 6 && 0 <= pte < 6);
    assert forall|i: int|
        0 <= i < 6 && i != ptm && i != pte && !(m.castle && i == 3) implies mover_kind_diff(
        t,
        b,
        m,
        i,
    ) == 0 by {}
    if m.castle {
        assert(ptm == 5 && pte == 5);
        assert(mover_kind_diff(t, b, m, 5) == tbl(t, 5, to_x) - tbl(t, 5, from_x));
        assert(mover_kind_diff(t, b, m, 3) == tbl(t, 3, rt_x) - tbl(t, 3, rf_x));
    } else if ptm == pte {
        assert(mover_kind_diff(t, b, m, ptm) == tbl(t, ptm, to_x) - tbl(t, ptm, from_x));
    } else {
        assert(mover_kind_diff(t, b, m, ptm) == -tbl(t, ptm, from_x));
        assert(mover_kind_diff(t, b, m, pte) == tbl(t, pte, to_x));
    }
    assert(mover_kind_diff(t, b, m, 0) + mover_kind_diff(t, b, m, 1) + mover_kind_diff(t, b, m, 2)
        + mover_kind_diff(t, b, m, 3) + mover_kind_diff(t, b, m, 4) + mover_kind_diff(t, b, m, 5)
        == tbl(t, pte, to_x) - tbl(t, ptm, from_x) + (if m.castle {
        tbl(t, 3, rt_x) - tbl(t, 3, rf_x)
    } else {
        0
    }));
    let mirv = us == 0;
    let epq = ep_captured_sq(us, to);
    let to_y = if mirv {
        opp_idx(to)
    } else {
        to
    };
    let ep_y = if mirv {
        opp_idx(epq)
    } else {
        epq
    };
    assert forall|i: int|
        0 <= i < 6 && !(capture && i == capt) && !(m.en_passant && i == 0)
        implies victim_kind_diff(t, b, m, i) == 0 by {}
    if capture {
        assert(!m.en_passant);
        assert(victim_kind_diff(t, b, m, capt) == -tbl(t, capt, to_y));
    }
    if m.en_passant {
        assert(victim_kind_diff(t, b, m, 0) == -tbl(t, 0, ep_y));
    }
    assert(victim_kind_diff(t, b, m, 0) + victim_kind_diff(t, b, m, 1) + victim_kind_diff(
        t,
        b,
        m,
        2,
    ) + victim_kind_diff(t, b, m, 3) + victim_kind_diff(t, b, m, 4) + victim_kind_diff(t, b, m, 5)
        == (if capture {
        -tbl(t, capt, to_y)
    } else {
        0
    }) + (if m.en_passant {
        -tbl(t, 0, ep_y)
    } else {
        0
    }));
}

/// Applying the mover-relative delta to the old whole-board sum gives
/// exactly the new from-scratch whole-board sum: added for the first mover,
/// subtracted for the second, and this holds for every table and for every
/// move category — ordinary moves, captures, en-passant captures, castling
/// and promotion.
pub proof fn lemma_delta_equivalence(t: [[i16; 64]; 6], b: Board, m: Move)
    requires
        b.wf(),
        move_ok(b, m),
    ensures
        spec_eval(t, spec_apply(b, m)) == spec_eval(t, b) + (if b.player.spec_idx() == 0 {
            spec_delta(t, b, m)
        } else {
            -spec_delta(t, b, m)
        }),
{
    let b2 = spec_apply(b, m);
    lemma_total_unfold(t, b);
    lemma_total_unfold(t, b2);
    lemma_kind_diff_holds(t, b, m, 0);
    lemma_kind_diff_holds(t, b, m, 1);
    lemma_kind_diff_holds(t, b, m, 2);
    lemma_kind_diff_holds(t, b, m, 3);
    lemma_kind_diff_holds(t, b, m, 4);
    lemma_kind_diff_holds(t, b, m, 5);
    lemma_kind_diff_sum(t, b, m);
}

/// One pass of the from-scratch evaluation for a single table: the sum of
/// the contributions of every occupant of either side.
pub fn eval_table(t: &[[i16; 64]; 6], b: &Board) -> (s: i32)
    ensures
        s == spec_eval(*t, *b),
{
    let mut s: i32 = 0;
    let mut pt: usize = 0;
    while pt < 6
        invariant
            pt <= 6,
            s == total_below(*t, *b, pt as int),
            -4194304 * pt <= s <= 4194304 * pt,
        decreases 6 - pt,
    {
        let white = side_sum_exec(t, pt, b.pieces[pt].0 & b.sides[0].0, false);
        let black = side_sum_exec(t, pt, b.pieces[pt].0 & b.sides[1].0, true);
        proof {
            lemma_side_sum_bounds(*t, pt as int, b.pieces[pt as int].0 & b.sides[0].0, false, 64);
            lemma_side_sum_bounds(*t, pt as int, b.pieces[pt as int].0 & b.sides[1].0, true, 64);
            assert(-32768 * 64 <= white <= 32767 * 64);
            assert(-32768 * 64 <= black <= 32767 * 64);
            assert(-4194304 * (pt + 1) <= s + white - black <= 4194304 * (pt + 1));
        }
        s = s + white - black;
        pt = pt + 1;
    }
    s
}

/// The mover-relative delta of one table for applying `m` to `b`, computed
/// without re-scanning the board.
pub fn delta_table(t: &[[i16; 64]; 6], b: &Board, m: Move) -> (d: i32)
    requires
        b.wf(),
        move_ok(*b, m),
    ensures
        d == spec_delta(*t, *b, m),
{
    proof {
        lemma_kind_unique(*b, m.from.idx());
        lemma_kind_unique(*b, m.to.idx());
        crate::square::lemma_opp_idx(m.from.idx());
        crate::square::lemma_opp_idx(m.to.idx());
    }
    let us: usize = b.player.idx();
    let from: u8 = m.from.0;
    let to: u8 = m.to.0;
    let mover_idx: usize = match b.type_at_square(m.from) {
        Some(p) => p.idx(),
        None => 0,  // unreachable: move_ok puts a piece on the origin
    };
    let end_idx: usize = match m.promote_type() {
        Some(p) => p.idx(),
        None => mover_idx,
    };
    // the lookup squares from the mover's own viewpoint
    let (from_alt, to_alt): (u8, u8) = if us == 0 {
        (from, to)
    } else {
        (from ^ 56, to ^ 56)
    };
    proof {
        crate::square::lemma_opp_idx_u8(from);
        crate::square::lemma_opp_idx_u8(to);
    }
    // you always lose the value of the square you moved from
    let mut d: i32 = (t[end_idx][to_alt as usize] as i32) - (t[mover_idx][from_alt as usize]
        as i32);

    let them: usize = 1 - us;
    if b.sides[them].contains(m.to) {
        // conventional capture: the opponent loses the captured piece's
        // entry at its own viewpoint's square
        let to_opposite: u8 = to_alt ^ 56;
        proof {
            crate::square::lemma_opp_idx_u8(to_alt);
        }
        let capturee_idx: usize = match b.type_at_square(m.to) {
            Some(p) => p.idx(),
            None => 0,  // unreachable: a capture square carries a kind
        };
        d = d + (t[capturee_idx][to_opposite as usize] as i32);
    }

    if m.is_en_passant() {
        // the captured pawn sits directly behind the destination
        proof {
            if us == 1 {
                crate::square::lemma_opp_idx(m.to.idx());
            }
            assert(to_alt / 8 == 5);
        }
        let behind_raw: u8 = to_alt - 8;
        let behind: u8 = behind_raw ^ 56;
        proof {
            crate::square::lemma_opp_idx_u8(behind_raw);
        }
        d = d + (t[0][behind as usize] as i32);
    }

    if m.is_castle() {
        // the rook relocates between fixed squares of the mover's viewpoint;
        // the queen-side castle is the one whose destination file is 2
        let (rook_from, rook_to): (usize, usize) = if to % 8 == 2 {
            (0, 3)
        } else {
            (7, 5)
        };
        d = d + (t[3][rook_to] as i32) - (t[3][rook_from] as i32);
    }
    d
}

/// The sum of the contributions of the squares of `bb`, walked in ascending
/// order; `mirror` selects the second mover's viewpoint.
fn side_sum_exec(t: &[[i16; 64]; 6], pt: usize, bb: u64, mirror: bool) -> (s: i32)
    requires
        pt < 6,
    ensures
        s == side_sum(*t, pt as int, bb, mirror, 64),
        -32768 * 64 <= s <= 32767 * 64,
{
    let mut s: i32 = 0;
    let mut i: u8 = 0;
    while i < 64
        invariant
            pt < 6,
            i <= 64,
            s == side_sum(*t, pt as int, bb, mirror, i as int),
            -32768 * i <= s <= 32767 * i,
        decreases 64 - i,
    {
        if (bb >> (i as u64)) & 1u64 == 1u64 {
            let idx: usize = if mirror {
                (i ^ 56) as usize
            } else {
                i as usize
            };
            proof {
                let iv = i as u64;
                assert(iv < 64 ==> (iv ^ 56) < 64 && ((i as u8) ^ 56) as u64 == (iv ^ 56))
                    by (bit_vector)
                    requires
                        iv == i as u64,
                ;
                if mirror {
                    assert(idx == opp_idx(i as int));
                }
            }
            s = s + (t[pt][idx] as i32);
        }
        i = i + 1;
    }
    s
}

} // verus!
