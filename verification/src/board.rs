//! The board snapshot and move description that the evaluators consume, with
//! the mathematical account of how applying a move changes the board.

use vstd::prelude::*;
use crate::bitboard::Bitboard;
use crate::bitboard::bit64;
use crate::bitboard::sq_bit;
use crate::bitboard::lemma_bit_ops;
use crate::piece::Color;
use crate::piece::Piece;
use crate::square::Square;

verus! {

/// A position snapshot: per piece kind the set of its occupants of either
/// colour, per side the set of that side's occupants, the side to move, and
/// each side's king square.
#[derive(Clone, Copy, Debug)]
pub struct Board {
    /// Occupants by piece kind, indexed in `Piece` declaration order.
    pub pieces: [Bitboard; 6],
    /// Occupants by side: index 0 the first mover, index 1 the second.
    pub sides: [Bitboard; 2],
    /// The side to move.
    pub player: Color,
    /// The king squares, indexed by side.
    pub king_sqs: [Square; 2],
}

/// A move description: origin, destination, an optional promotion kind, and
/// the two special-move predicates.
#[derive(Clone, Copy, Debug)]
pub struct Move {
    pub from: Square,
    pub to: Square,
    pub promote: Option<Piece>,
    pub en_passant: bool,
    pub castle: bool,
}

impl Move {
    pub fn from_square(self) -> (s: Square)
        ensures
            s == self.from,
    {
        self.from
    }

    pub fn to_square(self) -> (s: Square)
        ensures
            s == self.to,
    {
        self.to
    }

    pub fn promote_type(self) -> (p: Option<Piece>)
        ensures
            p == self.promote,
    {
        self.promote
    }

    pub fn is_en_passant(self) -> (r: bool)
        ensures
            r == self.en_passant,
    {
        self.en_passant
    }

    pub fn is_castle(self) -> (r: bool)
        ensures
            r == self.castle,
    {
        self.castle
    }
}

/// The kind index of the piece on square `sq`, searching kinds from `k` up;
/// 6 when no kind from `k` up occupies the square.
pub open spec fn kind_at_from(b: Board, sq: int, k: int) -> int
    decreases 6 - k,
{
    if k < 0 || k >= 6 {
        6
    } else if b.pieces[k].has(sq) {
        k
    } else {
        kind_at_from(b, sq, k + 1)
    }
}

/// The kind index (0 through 5) of the piece on square `sq`, or 6 when the
/// square is empty.
pub open spec fn spec_kind_at(b: Board, sq: int) -> int {
    kind_at_from(b, sq, 0)
}

impl Board {
    /// The squares occupied by either side.
    pub open spec fn spec_occupancy(self) -> u64 {
        self.sides[0].0 | self.sides[1].0
    }

    /// Well-formedness: no square carries two piece kinds or both colours,
    /// every occupied square carries a piece kind, and each side's recorded
    /// king square holds its king.
    pub open spec fn wf(self) -> bool {
        &&& forall|p1: int, p2: int|
            0 <= p1 < p2 < 6 ==> (#[trigger] self.pieces[p1].0) & (#[trigger] self.pieces[p2].0)
                == 0
        &&& self.sides[0].0 & self.sides[1].0 == 0
        &&& (self.pieces[0].0 | self.pieces[1].0 | self.pieces[2].0 | self.pieces[3].0
            | self.pieces[4].0 | self.pieces[5].0) == self.spec_occupancy()
        &&& self.king_sqs[0].wf()
        &&& self.king_sqs[1].wf()
        &&& Bitboard(self.pieces[5].0 & self.sides[0].0).has(self.king_sqs[0].idx())
        &&& Bitboard(self.pieces[5].0 & self.sides[1].0).has(self.king_sqs[1].idx())
    }

    /// The kind of the piece on `sq`, if any.
    pub fn type_at_square(&self, sq: Square) -> (r: Option<Piece>)
        requires
            sq.wf(),
        ensures
            match r {
                Some(p) => p.spec_idx() == spec_kind_at(*self, sq.idx()),
                None => spec_kind_at(*self, sq.idx()) == 6,
            },
    {
        let mut k: usize = 0;
        while k < 6
            invariant
                k <= 6,
                sq.wf(),
                spec_kind_at(*self, sq.idx()) == kind_at_from(*self, sq.idx(), k as int),
            decreases 6 - k,
        {
            if self.pieces[k].contains(sq) {
                return Some(Piece::from_idx(k));
            }
            k = k + 1;
        }
        None
    }
}

/// What the kind search returns: the first kind from `k` up that occupies
/// the square, with every kind below it missing the square.
proof fn lemma_kind_at_from(b: Board, sq: int, k: int)
    requires
        0 <= k <= 6,
    ensures
        kind_at_from(b, sq, k) < 6 ==> k <= kind_at_from(b, sq, k) && b.pieces[kind_at_from(
            b,
            sq,
            k,
        )].has(sq),
        kind_at_from(b, sq, k) == 6 ==> forall|p: int|
            k <= p < 6 ==> !(#[trigger] b.pieces[p]).has(sq),
        forall|p: int| k <= p < kind_at_from(b, sq, k) ==> !(#[trigger] b.pieces[p]).has(sq),
        kind_at_from(b, sq, k) <= 6,
    decreases 6 - k,
{
    if k < 6 {
        lemma_kind_at_from(b, sq, k + 1);
    }
}

/// On a well-formed board, the kind found at a square is the only kind
/// there, and a square is occupied by a side exactly when some kind holds
/// it.
pub proof fn lemma_kind_unique(b: Board, sq: int)
    requires
        b.wf(),
        0 <= sq < 64,
    ensures
        0 <= spec_kind_at(b, sq) <= 6,
        spec_kind_at(b, sq) < 6 ==> bit64(b.pieces[spec_kind_at(b, sq)].0, sq as u64),
        forall|p: int|
            0 <= p < 6 && p != spec_kind_at(b, sq) ==> !bit64(
                #[trigger] b.pieces[p].0,
                sq as u64,
            ),
        (spec_kind_at(b, sq) < 6) == bit64(b.sides[0].0 | b.sides[1].0, sq as u64),
{
    lemma_kind_at_from(b, sq, 0);
    lemma_bit_ops();
    let k = spec_kind_at(b, sq);
    let occ = b.sides[0].0 | b.sides[1].0;
    let union = b.pieces[0].0 | b.pieces[1].0 | b.pieces[2].0 | b.pieces[3].0 | b.pieces[4].0
        | b.pieces[5].0;
    assert(forall|i: u64|
        i < 64 ==> (#[trigger] bit64(union, i)) == (bit64(b.pieces[0].0, i) || bit64(
            b.pieces[1].0,
            i,
        ) || bit64(b.pieces[2].0, i) || bit64(b.pieces[3].0, i) || bit64(b.pieces[4].0, i)
            || bit64(b.pieces[5].0, i)));
    if k < 6 {
        assert forall|p: int| 0 <= p < 6 && p != k implies !bit64(
            #[trigger] b.pieces[p].0,
            sq as u64,
        ) by {
            if p > k {
                assert(b.pieces[k].0 & b.pieces[p].0 == 0);
                assert(!bit64(0u64, sq as u64));
            }
        }
    }
    assert(bit64(union, sq as u64) == bit64(occ, sq as u64));
}

/// The actual origin and destination squares of the rook in a castling move
/// by side `us` whose king lands on `to`: the queen-side castle is the one
/// whose destination file index is 2.
pub open spec fn castle_rook_squares(us: int, to: int) -> (int, int) {
    let base: int = if us == 0 {
        0
    } else {
        56
    };
    if to % 8 == 2 {
        (base + 0, base + 3)
    } else {
        (base + 7, base + 5)
    }
}

/// The square of the pawn captured en passant: directly behind the
/// destination, in the direction opposite the first mover's pawn push.
pub open spec fn ep_captured_sq(us: int, to: int) -> int {
    if us == 0 {
        to - 8
    } else {
        to + 8
    }
}

/// Whether move `m` is applicable to board `b`: a piece of the side to move
/// stands on the origin, the destination does not hold a piece of that side,
/// a promotion kind is consistent, and the special-move predicates describe
/// the board as they claim.
pub open spec fn move_ok(b: Board, m: Move) -> bool {
    let us = b.player.spec_idx();
    let them = 1 - us;
    let from = m.from.idx();
    let to = m.to.idx();
    &&& m.from.wf()
    &&& m.to.wf()
    &&& from != to
    &&& b.sides[us].has(from)
    &&& !b.sides[us].has(to)
    &&& spec_kind_at(b, from) < 6
    &&& b.sides[them].has(to) ==> spec_kind_at(b, to) < 6
    &&& match m.promote {
        Some(p) => spec_kind_at(b, from) == 0 && p.spec_idx() != 0 && p.spec_idx() != 5,
        None => true,
    }
    &&& !(m.en_passant && m.castle)
    &&& m.en_passant ==> {
        let cap = ep_captured_sq(us, to);
        &&& spec_kind_at(b, from) == 0
        &&& m.promote is None
        &&& !b.sides[them].has(to)
        &&& (if us == 0 {
            to / 8 == 5
        } else {
            to / 8 == 2
        })
        &&& b.pieces[0].has(cap)
        &&& b.sides[them].has(cap)
    }
    &&& m.castle ==> {
        let (rf, rt) = castle_rook_squares(us, to);
        &&& spec_kind_at(b, from) == 5
        &&& m.promote is None
        &&& !b.sides[them].has(to)
        &&& (if us == 0 {
            from == 4 && (to == 6 || to == 2)
        } else {
            from == 60 && (to == 62 || to == 58)
        })
        &&& b.pieces[3].has(rf)
        &&& b.sides[us].has(rf)
        &&& !b.sides[0].has(rt)
        &&& !b.sides[1].has(rt)
    }
}

/// The mask of squares that piece-kind set `pt` loses when `m` is applied to
/// `b`: the origin, a captured piece's square, the pawn captured en passant,
/// and the castling rook's origin.
pub open spec fn clear_mask(b: Board, m: Move, pt: int) -> u64 {
    let us = b.player.spec_idx();
    let them = 1 - us;
    let from = m.from.idx();
    let to = m.to.idx();
    let ptm = spec_kind_at(b, from);
    (if pt == ptm {
        sq_bit(from)
    } else {
        0u64
    }) | (if b.sides[them].has(to) && pt == spec_kind_at(b, to) {
        sq_bit(to)
    } else {
        0u64
    }) | (if m.en_passant && pt == 0 {
        sq_bit(ep_captured_sq(us, to))
    } else {
        0u64
    }) | (if m.castle && pt == 3 {
        sq_bit(castle_rook_squares(us, to).0)
    } else {
        0u64
    })
}

/// The mask of squares that piece-kind set `pt` gains when `m` is applied:
/// the destination for the arriving kind and the castling rook's
/// destination.
pub open spec fn set_mask(b: Board, m: Move, pt: int) -> u64 {
    let from = m.from.idx();
    let to = m.to.idx();
    let ptm = spec_kind_at(b, from);
    let pte = match m.promote {
        Some(p) => p.spec_idx(),
        None => ptm,
    };
    (if pt == pte {
        sq_bit(to)
    } else {
        0u64
    }) | (if m.castle && pt == 3 {
        sq_bit(castle_rook_squares(b.player.spec_idx(), to).1)
    } else {
        0u64
    })
}

/// Piece-kind set `pt` after applying `m` to `b`.
pub open spec fn new_piece_mask(b: Board, m: Move, pt: int) -> u64 {
    (b.pieces[pt].0 & !clear_mask(b, m, pt)) | set_mask(b, m, pt)
}

/// The moving side's occupant set after applying `m`.
pub open spec fn new_own_mask(b: Board, m: Move) -> u64 {
    let us = b.player.spec_idx();
    let from = m.from.idx();
    let to = m.to.idx();
    let cleared = sq_bit(from) | (if m.castle {
        sq_bit(castle_rook_squares(us, to).0)
    } else {
        0u64
    });
    let gained = sq_bit(to) | (if m.castle {
        sq_bit(castle_rook_squares(us, to).1)
    } else {
        0u64
    });
    (b.sides[us].0 & !cleared) | gained
}

/// The opposing side's occupant set after applying `m`.
pub open spec fn new_their_mask(b: Board, m: Move) -> u64 {
    let us = b.player.spec_idx();
    let them = 1 - us;
    let to = m.to.idx();
    let cleared = (if b.sides[them].has(to) {
        sq_bit(to)
    } else {
        0u64
    }) | (if m.en_passant {
        sq_bit(ep_captured_sq(us, to))
    } else {
        0u64
    });
    b.sides[them].0 & !cleared
}

/// The board that results from applying `m` to `b`: every component is the
/// old one with the move's squares cleared and set, the side to move flips,
/// and a king move updates the mover's recorded king square.
pub open spec fn spec_apply(b: Board, m: Move) -> Board {
    let us = b.player.spec_idx();
    let ptm = spec_kind_at(b, m.from.idx());
    Board {
        pieces: [
            Bitboard(new_piece_mask(b, m, 0)),
            Bitboard(new_piece_mask(b, m, 1)),
            Bitboard(new_piece_mask(b, m, 2)),
            Bitboard(new_piece_mask(b, m, 3)),
            Bitboard(new_piece_mask(b, m, 4)),
            Bitboard(new_piece_mask(b, m, 5)),
        ],
        sides: if us == 0 {
            [Bitboard(new_own_mask(b, m)), Bitboard(new_their_mask(b, m))]
        } else {
            [Bitboard(new_their_mask(b, m)), Bitboard(new_own_mask(b, m))]
        },
        player: b.player.spec_other(),
        king_sqs: if ptm == 5 {
            if us == 0 {
                [m.to, b.king_sqs[1]]
            } else {
                [b.king_sqs[0], m.to]
            }
        } else {
            b.king_sqs
        },
    }
}

/// The colour-flipped, square-mirrored counterpart of `b`: every occupant
/// set is rank-mirrored, the two sides swap, the side to move flips, and the
/// king squares swap and mirror.
pub open spec fn spec_mirror(b: Board) -> Board {
    Board {
        pieces: [
            Bitboard(crate::bitboard::mirror_bb(b.pieces[0].0)),
            Bitboard(crate::bitboard::mirror_bb(b.pieces[1].0)),
            Bitboard(crate::bitboard::mirror_bb(b.pieces[2].0)),
            Bitboard(crate::bitboard::mirror_bb(b.pieces[3].0)),
            Bitboard(crate::bitboard::mirror_bb(b.pieces[4].0)),
            Bitboard(crate::bitboard::mirror_bb(b.pieces[5].0)),
        ],
        sides: [
            Bitboard(crate::bitboard::mirror_bb(b.sides[1].0)),
            Bitboard(crate::bitboard::mirror_bb(b.sides[0].0)),
        ],
        player: b.player.spec_other(),
        king_sqs: [b.king_sqs[1].spec_opposite(), b.king_sqs[0].spec_opposite()],
    }
}

impl Board {
    /// Apply move `m` to this board.
    pub fn make_move(&mut self, m: Move)
        requires
            old(self).wf(),
            move_ok(*old(self), m),
        ensures
            *final(self) == spec_apply(*old(self), m),
    {
        let b = *self;
        let us: usize = b.player.idx();
        let them: usize = 1 - us;
        let from: u8 = m.from.0;
        let to: u8 = m.to.0;
        let mf: u64 = 1u64 << (from as u64);
        let mt: u64 = 1u64 << (to as u64);
        let ptm: usize = match b.type_at_square(m.from) {
            Some(p) => p.idx(),
            None => 0,  // unreachable: move_ok puts a piece on the origin
        };
        let pte: usize = match m.promote {
            Some(p) => p.idx(),
            None => ptm,
        };
        let capture: bool = b.sides[them].contains(m.to);
        let capt: usize = if capture {
            match b.type_at_square(m.to) {
                Some(p) => p.idx(),
                None => 0,  // unreachable: an occupied square carries a kind
            }
        } else {
            6
        };
        // castling rook squares, queen-side when the destination file is 2
        let base: u8 = if us == 0 {
            0
        } else {
            56
        };
        let (rf, rt): (u8, u8) = if to % 8 == 2 {
            (base + 0, base + 3)
        } else {
            (base + 7, base + 5)
        };
        let mrf: u64 = 1u64 << (rf as u64);
        let mrt: u64 = 1u64 << (rt as u64);
        // the pawn captured en passant sits directly behind the destination
        let mep: u64 = if m.is_en_passant() {
            let ep: u8 = if us == 0 {
                to - 8
            } else {
                to + 8
            };
            1u64 << (ep as u64)
        } else {
            0u64
        };

        let mut pt: usize = 0;
        while pt < 6
            invariant
                0 <= pt <= 6,
                b == *old(self),
                b.wf(),
                move_ok(b, m),
                us == b.player.spec_idx(),
                them == 1 - us,
                mf == sq_bit(m.from.idx()),
                mt == sq_bit(m.to.idx()),
                ptm == spec_kind_at(b, m.from.idx()),
                pte == (match m.promote {
                    Some(p) => p.spec_idx(),
                    None => ptm as int,
                }),
                capture == b.sides[1 - b.player.spec_idx()].has(m.to.idx()),
                capture ==> capt == spec_kind_at(b, m.to.idx()),
                !capture ==> capt == 6,
                m.castle ==> mrf == sq_bit(castle_rook_squares(us as int, m.to.idx()).0) && mrt
                    == sq_bit(castle_rook_squares(us as int, m.to.idx()).1),
                m.en_passant ==> mep == sq_bit(ep_captured_sq(us as int, m.to.idx())),
                self.sides == b.sides,
                self.player == b.player,
                self.king_sqs == b.king_sqs,
                forall|k: int| 0 <= k < pt ==> self.pieces[k].0 == new_piece_mask(b, m, k),
                forall|k: int| pt <= k < 6 ==> self.pieces[k] == b.pieces[k],
            decreases 6 - pt,
        {
            let old_mask: u64 = self.pieces[pt].0;
            let clear: u64 = (if pt == ptm {
                mf
            } else {
                0u64
            }) | (if capture && pt == capt {
                mt
            } else {
                0u64
            }) | (if m.is_en_passant() && pt == 0 {
                mep
            } else {
                0u64
            }) | (if m.is_castle() && pt == 3 {
                mrf
            } else {
                0u64
            });
            let set: u64 = (if pt == pte {
                mt
            } else {
                0u64
            }) | (if m.is_castle() && pt == 3 {
                mrt
            } else {
                0u64
            });
            self.pieces[pt] = Bitboard((old_mask & !clear) | set);
            assert(self.pieces[pt as int].0 == new_piece_mask(b, m, pt as int));
            pt = pt + 1;
        }

        let own_cleared: u64 = mf | (if m.is_castle() {
            mrf
        } else {
            0u64
        });
        let own_gained: u64 = mt | (if m.is_castle() {
            mrt
        } else {
            0u64
        });
        let their_cleared: u64 = (if capture {
            mt
        } else {
            0u64
        }) | (if m.is_en_passant() {
            mep
        } else {
            0u64
        });
        let new_own = Bitboard((b.sides[us].0 & !own_cleared) | own_gained);
        let new_their = Bitboard(b.sides[them].0 & !their_cleared);
        if us == 0 {
            self.sides = [new_own, new_their];
        } else {
            self.sides = [new_their, new_own];
        }
        self.player = b.player.other();
        if ptm == 5 {
            if us == 0 {
                self.king_sqs = [m.to, b.king_sqs[1]];
            } else {
                self.king_sqs = [b.king_sqs[0], m.to];
            }
        }
        assert(self.pieces =~= spec_apply(b, m).pieces);
        assert(self.sides =~= spec_apply(b, m).sides);
        assert(self.king_sqs =~= spec_apply(b, m).king_sqs);
    }
}

} // verus!
