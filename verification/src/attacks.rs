//! Pseudo-legal attack sets: fixed per-square sets for knight, king and
//! pawn, and occupancy-sensitive ray walks for the sliding pieces.

use vstd::prelude::*;
use crate::bitboard::Bitboard;
use crate::bitboard::bit64;
use crate::bitboard::sq_bit;
use crate::bitboard::popcount_below;
use crate::bitboard::lemma_popcount_below_bounds;
use crate::bitboard::lemma_popcount_or_le;
use crate::bitboard::lemma_popcount_single;
use crate::bitboard::lemma_popcount_zero;
use crate::bitboard::lemma_or_zero;
use crate::square::Square;

verus! {

/// The squares a knight on `sq` attacks.
pub open spec fn knight_attacks_spec(sq: int) -> u64 {
    let r = sq / 8;
    let f = sq % 8;
    (if r <= 5 && f <= 6 {
        sq_bit(sq + 17)
    } else {
        0u64
    }) | (if r <= 5 && f >= 1 {
        sq_bit(sq + 15)
    } else {
        0u64
    }) | (if r <= 6 && f <= 5 {
        sq_bit(sq + 10)
    } else {
        0u64
    }) | (if r <= 6 && f >= 2 {
        sq_bit(sq + 6)
    } else {
        0u64
    }) | (if r >= 1 && f <= 5 {
        sq_bit(sq - 6)
    } else {
        0u64
    }) | (if r >= 1 && f >= 2 {
        sq_bit(sq - 10)
    } else {
        0u64
    }) | (if r >= 2 && f <= 6 {
        sq_bit(sq - 15)
    } else {
        0u64
    }) | (if r >= 2 && f >= 1 {
        sq_bit(sq - 17)
    } else {
        0u64
    })
}

/// The squares a king on `sq` attacks.
pub open spec fn king_attacks_spec(sq: int) -> u64 {
    let r = sq / 8;
    let f = sq % 8;
    (if r <= 6 {
        sq_bit(sq + 8)
    } else {
        0u64
    }) | (if r >= 1 {
        sq_bit(sq - 8)
    } else {
        0u64
    }) | (if f <= 6 {
        sq_bit(sq + 1)
    } else {
        0u64
    }) | (if f >= 1 {
        sq_bit(sq - 1)
    } else {
        0u64
    }) | (if r <= 6 && f <= 6 {
        sq_bit(sq + 9)
    } else {
        0u64
    }) | (if r <= 6 && f >= 1 {
        sq_bit(sq + 7)
    } else {
        0u64
    }) | (if r >= 1 && f <= 6 {
        sq_bit(sq - 7)
    } else {
        0u64
    }) | (if r >= 1 && f >= 1 {
        sq_bit(sq - 9)
    } else {
        0u64
    })
}

/// The squares a pawn of side `side` on `sq` attacks: its two diagonal
/// capture squares, never its push square.
pub open spec fn pawn_attacks_spec(side: int, sq: int) -> u64 {
    let r = sq / 8;
    let f = sq % 8;
    if side == 0 {
        (if r <= 6 && f >= 1 {
            sq_bit(sq + 7)
        } else {
            0u64
        }) | (if r <= 6 && f <= 6 {
            sq_bit(sq + 9)
        } else {
            0u64
        })
    } else {
        (if r >= 1 && f >= 1 {
            sq_bit(sq - 9)
        } else {
            0u64
        }) | (if r >= 1 && f <= 6 {
            sq_bit(sq - 7)
        } else {
            0u64
        })
    }
}

/// The squares a ray from (`r`, `f`) in direction (`dr`, `df`) reaches: each
/// next square until the board's edge, including the first occupied square
/// and nothing beyond it.
pub open spec fn ray_spec(occ: u64, r: int, f: int, dr: int, df: int, fuel: nat) -> u64
    decreases fuel,
{
    if fuel == 0 {
        0u64
    } else {
        let nr = r + dr;
        let nf = f + df;
        if nr < 0 || nr > 7 || nf < 0 || nf > 7 {
            0u64
        } else {
            let b = sq_bit(nr * 8 + nf);
            if bit64(occ, (nr * 8 + nf) as u64) {
                b
            } else {
                b | ray_spec(occ, nr, nf, dr, df, (fuel - 1) as nat)
            }
        }
    }
}

/// The squares a rook on `sq` attacks under occupancy `occ`.
pub open spec fn rook_attacks_spec(occ: u64, sq: int) -> u64 {
    let r = sq / 8;
    let f = sq % 8;
    ray_spec(occ, r, f, 1, 0, 7) | ray_spec(occ, r, f, -1, 0, 7) | ray_spec(occ, r, f, 0, 1, 7)
        | ray_spec(occ, r, f, 0, -1, 7)
}

/// The squares a bishop on `sq` attacks under occupancy `occ`.
pub open spec fn bishop_attacks_spec(occ: u64, sq: int) -> u64 {
    let r = sq / 8;
    let f = sq % 8;
    ray_spec(occ, r, f, 1, 1, 7) | ray_spec(occ, r, f, 1, -1, 7) | ray_spec(occ, r, f, -1, 1, 7)
        | ray_spec(occ, r, f, -1, -1, 7)
}

/// How far a ray from (`r`, `f`) in direction (`dr`, `df`) can run before
/// leaving the board.
pub open spec fn ray_reach(r: int, f: int, dr: int, df: int) -> int {
    let vr = if dr > 0 {
        7 - r
    } else if dr < 0 {
        r
    } else {
        7
    };
    let vf = if df > 0 {
        7 - f
    } else if df < 0 {
        f
    } else {
        7
    };
    if vr <= vf {
        vr
    } else {
        vf
    }
}

/// A ray holds at most as many squares as it can run before the edge.
pub proof fn lemma_ray_count(occ: u64, r: int, f: int, dr: int, df: int, fuel: nat)
    requires
        0 <= r < 8,
        0 <= f < 8,
        -1 <= dr <= 1,
        -1 <= df <= 1,
        !(dr == 0 && df == 0),
    ensures
        0 <= popcount_below(ray_spec(occ, r, f, dr, df, fuel), 64) <= ray_reach(r, f, dr, df),
    decreases fuel,
{
    lemma_popcount_below_bounds(ray_spec(occ, r, f, dr, df, fuel), 64);
    if fuel == 0 {
        lemma_popcount_zero(64);
    } else {
        let nr = r + dr;
        let nf = f + df;
        if nr < 0 || nr > 7 || nf < 0 || nf > 7 {
            lemma_popcount_zero(64);
        } else {
            let j = nr * 8 + nf;
            lemma_popcount_single(j as u64);
            if bit64(occ, j as u64) {
            } else {
                lemma_ray_count(occ, nr, nf, dr, df, (fuel - 1) as nat);
                lemma_popcount_or_le(sq_bit(j), ray_spec(occ, nr, nf, dr, df, (fuel - 1) as nat), 64);
                assert(ray_reach(nr, nf, dr, df) <= ray_reach(r, f, dr, df) - 1);
            }
        }
    }
}

/// A knight attacks at most 8 squares.
pub proof fn lemma_knight_count(sq: int)
    requires
        0 <= sq < 64,
    ensures
        0 <= popcount_below(knight_attacks_spec(sq), 64) <= 8,
{
    lemma_small_union_count(sq, knight_attacks_spec(sq));
}

/// A king attacks at most 8 squares.
pub proof fn lemma_king_count(sq: int)
    requires
        0 <= sq < 64,
    ensures
        0 <= popcount_below(king_attacks_spec(sq), 64) <= 8,
{
    lemma_small_union_count(sq, king_attacks_spec(sq));
}

/// A pawn attacks at most 2 squares.
pub proof fn lemma_pawn_count(side: int, sq: int)
    requires
        0 <= sq < 64,
    ensures
        0 <= popcount_below(pawn_attacks_spec(side, sq), 64) <= 2,
{
    let r = sq / 8;
    let f = sq % 8;
    lemma_cond_bit_count(r <= 6 && f >= 1, sq + 7);
    lemma_cond_bit_count(r <= 6 && f <= 6, sq + 9);
    lemma_cond_bit_count(r >= 1 && f >= 1, sq - 9);
    lemma_cond_bit_count(r >= 1 && f <= 6, sq - 7);
    if side == 0 {
        lemma_popcount_or_le(
            if r <= 6 && f >= 1 {
                sq_bit(sq + 7)
            } else {
                0u64
            },
            if r <= 6 && f <= 6 {
                sq_bit(sq + 9)
            } else {
                0u64
            },
            64,
        );
    } else {
        lemma_popcount_or_le(
            if r >= 1 && f >= 1 {
                sq_bit(sq - 9)
            } else {
                0u64
            },
            if r >= 1 && f <= 6 {
                sq_bit(sq - 7)
            } else {
                0u64
            },
            64,
        );
    }
    lemma_popcount_below_bounds(pawn_attacks_spec(side, sq), 64);
}

/// A conditional single-square mask holds at most one square.
proof fn lemma_cond_bit_count(c: bool, j: int)
    ensures
        0 <= popcount_below(
            if c && 0 <= j < 64 {
                sq_bit(j)
            } else {
                0u64
            },
            64,
        ) <= 1,
        c && 0 <= j < 64 ==> popcount_below(sq_bit(j), 64) == 1,
        popcount_below(0u64, 64) == 0,
{
    lemma_popcount_zero(64);
    if c && 0 <= j < 64 {
        lemma_popcount_single(j as u64);
    }
}

/// An 8-way union of conditional single squares holds at most 8.
#[verifier::rlimit(30)]
proof fn lemma_small_union_count(sq: int, u: u64)
    requires
        0 <= sq < 64,
        u == knight_attacks_spec(sq) || u == king_attacks_spec(sq),
    ensures
        0 <= popcount_below(u, 64) <= 8,
{
    let r = sq / 8;
    let f = sq % 8;
    lemma_popcount_zero(64);
    assert forall|j: int| 0 <= j < 64 implies popcount_below(#[trigger] sq_bit(j), 64) == 1 by {
        lemma_popcount_single(j as u64);
    }
    assert forall|a: u64, b: u64|
        popcount_below(#[trigger] (a | b), 64) <= popcount_below(a, 64) + popcount_below(
            b,
            64,
        ) by {
        lemma_popcount_or_le(a, b, 64);
    }
    lemma_popcount_below_bounds(u, 64);
}

/// The knight's fixed attack set.
pub fn knight_attacks(sq: Square) -> (bb: Bitboard)
    requires
        sq.wf(),
    ensures
        bb.0 == knight_attacks_spec(sq.idx()),
        0 <= bb.spec_count() <= 8,
{
    let r: u8 = sq.0 / 8;
    let f: u8 = sq.0 % 8;
    let mut acc: u64 = 0;
    if r <= 5 && f <= 6 {
        acc = acc | (1u64 << ((sq.0 + 17) as u64));
    }
    if r <= 5 && f >= 1 {
        acc = acc | (1u64 << ((sq.0 + 15) as u64));
    }
    if r <= 6 && f <= 5 {
        acc = acc | (1u64 << ((sq.0 + 10) as u64));
    }
    if r <= 6 && f >= 2 {
        acc = acc | (1u64 << ((sq.0 + 6) as u64));
    }
    if r >= 1 && f <= 5 {
        acc = acc | (1u64 << ((sq.0 - 6) as u64));
    }
    if r >= 1 && f >= 2 {
        acc = acc | (1u64 << ((sq.0 - 10) as u64));
    }
    if r >= 2 && f <= 6 {
        acc = acc | (1u64 << ((sq.0 - 15) as u64));
    }
    if r >= 2 && f >= 1 {
        acc = acc | (1u64 << ((sq.0 - 17) as u64));
    }
    proof {
        lemma_or_zero();
        lemma_knight_count(sq.idx());
    }
    Bitboard(acc)
}

/// The king's fixed attack set.
pub fn king_attacks(sq: Square) -> (bb: Bitboard)
    requires
        sq.wf(),
    ensures
        bb.0 == king_attacks_spec(sq.idx()),
        0 <= bb.spec_count() <= 8,
{
    let r: u8 = sq.0 / 8;
    let f: u8 = sq.0 % 8;
    let mut acc: u64 = 0;
    if r <= 6 {
        acc = acc | (1u64 << ((sq.0 + 8) as u64));
    }
    if r >= 1 {
        acc = acc | (1u64 << ((sq.0 - 8) as u64));
    }
    if f <= 6 {
        acc = acc | (1u64 << ((sq.0 + 1) as u64));
    }
    if f >= 1 {
        acc = acc | (1u64 << ((sq.0 - 1) as u64));
    }
    if r <= 6 && f <= 6 {
        acc = acc | (1u64 << ((sq.0 + 9) as u64));
    }
    if r <= 6 && f >= 1 {
        acc = acc | (1u64 << ((sq.0 + 7) as u64));
    }
    if r >= 1 && f <= 6 {
        acc = acc | (1u64 << ((sq.0 - 7) as u64));
    }
    if r >= 1 && f >= 1 {
        acc = acc | (1u64 << ((sq.0 - 9) as u64));
    }
    proof {
        lemma_or_zero();
        lemma_king_count(sq.idx());
    }
    Bitboard(acc)
}

/// The pawn's fixed capture-attack set for side `side` (0 first mover).
pub fn pawn_attacks(side: usize, sq: Square) -> (bb: Bitboard)
    requires
        side < 2,
        sq.wf(),
    ensures
        bb.0 == pawn_attacks_spec(side as int, sq.idx()),
        0 <= bb.spec_count() <= 2,
{
    let r: u8 = sq.0 / 8;
    let f: u8 = sq.0 % 8;
    let mut acc: u64 = 0;
    if side == 0 {
        if r <= 6 && f >= 1 {
            acc = acc | (1u64 << ((sq.0 + 7) as u64));
        }
        if r <= 6 && f <= 6 {
            acc = acc | (1u64 << ((sq.0 + 9) as u64));
        }
    } else {
        if r >= 1 && f >= 1 {
            acc = acc | (1u64 << ((sq.0 - 9) as u64));
        }
        if r >= 1 && f <= 6 {
            acc = acc | (1u64 << ((sq.0 - 7) as u64));
        }
    }
    proof {
        lemma_or_zero();
        lemma_pawn_count(side as int, sq.idx());
    }
    Bitboard(acc)
}

/// One ray of a sliding piece's attack set.
fn ray_exec(occ: u64, r0: u8, f0: u8, dr: i8, df: i8) -> (bb: u64)
    requires
        r0 < 8,
        f0 < 8,
        -1 <= dr <= 1,
        -1 <= df <= 1,
        !(dr == 0 && df == 0),
    ensures
        bb == ray_spec(occ, r0 as int, f0 as int, dr as int, df as int, 7),
{
    proof {
        lemma_or_zero();
    }
    let mut acc: u64 = 0;
    let mut cr: i16 = r0 as i16;
    let mut cf: i16 = f0 as i16;
    let mut fuel: u8 = 7;
    let mut done: bool = false;
    while !done && fuel > 0
        invariant
            -1 <= dr <= 1,
            -1 <= df <= 1,
            0 <= cr < 8,
            0 <= cf < 8,
            fuel <= 7,
            ray_spec(occ, r0 as int, f0 as int, dr as int, df as int, 7) == acc | (if done {
                0u64
            } else {
                ray_spec(occ, cr as int, cf as int, dr as int, df as int, fuel as nat)
            }),
        decreases fuel, (if done {
            0int
        } else {
            1int
        }),
    {
        proof {
            lemma_or_zero();
        }
        let nr: i16 = cr + (dr as i16);
        let nf: i16 = cf + (df as i16);
        if nr < 0 || nr > 7 || nf < 0 || nf > 7 {
            done = true;
        } else {
            let j: u64 = ((nr * 8 + nf) as u8) as u64;
            acc = acc | (1u64 << j);
            if (occ >> j) & 1u64 == 1u64 {
                done = true;
            } else {
                cr = nr;
                cf = nf;
                fuel = fuel - 1;
            }
        }
    }
    acc
}

/// The rook's attack set under occupancy `occ`.
pub fn rook_attacks(occ: u64, sq: Square) -> (bb: Bitboard)
    requires
        sq.wf(),
    ensures
        bb.0 == rook_attacks_spec(occ, sq.idx()),
        0 <= bb.spec_count() <= 14,
{
    let r: u8 = sq.0 / 8;
    let f: u8 = sq.0 % 8;
    let n = ray_exec(occ, r, f, 1, 0);
    let s = ray_exec(occ, r, f, -1, 0);
    let e = ray_exec(occ, r, f, 0, 1);
    let w = ray_exec(occ, r, f, 0, -1);
    proof {
        let ri = sq.idx() / 8;
        let fi = sq.idx() % 8;
        lemma_ray_count(occ, ri, fi, 1, 0, 7);
        lemma_ray_count(occ, ri, fi, -1, 0, 7);
        lemma_ray_count(occ, ri, fi, 0, 1, 7);
        lemma_ray_count(occ, ri, fi, 0, -1, 7);
        lemma_popcount_or_le(n, s, 64);
        lemma_popcount_or_le(n | s, e, 64);
        lemma_popcount_or_le((n | s) | e, w, 64);
        lemma_popcount_below_bounds(((n | s) | e) | w, 64);
    }
    Bitboard(((n | s) | e) | w)
}

/// The bishop's attack set under occupancy `occ`.
pub fn bishop_attacks(occ: u64, sq: Square) -> (bb: Bitboard)
    requires
        sq.wf(),
    ensures
        bb.0 == bishop_attacks_spec(occ, sq.idx()),
        0 <= bb.spec_count() <= 13,
{
    let r: u8 = sq.0 / 8;
    let f: u8 = sq.0 % 8;
    let a = ray_exec(occ, r, f, 1, 1);
    let b = ray_exec(occ, r, f, 1, -1);
    let c = ray_exec(occ, r, f, -1, 1);
    let d = ray_exec(occ, r, f, -1, -1);
    proof {
        let ri = sq.idx() / 8;
        let fi = sq.idx() % 8;
        lemma_ray_count(occ, ri, fi, 1, 1, 7);
        lemma_ray_count(occ, ri, fi, 1, -1, 7);
        lemma_ray_count(occ, ri, fi, -1, 1, 7);
        lemma_ray_count(occ, ri, fi, -1, -1, 7);
        lemma_popcount_or_le(a, b, 64);
        lemma_popcount_or_le(a | b, c, 64);
        lemma_popcount_or_le((a | b) | c, d, 64);
        lemma_popcount_below_bounds(((a | b) | c) | d, 64);
        // the two diagonals through one square cannot both run the full
        // seven squares: their reaches total at most 13
        assert(ray_reach(ri, fi, 1, 1) + ray_reach(ri, fi, -1, -1) + ray_reach(ri, fi, 1, -1)
            + ray_reach(ri, fi, -1, 1) <= 13);
    }
    Bitboard(((a | b) | c) | d)
}

/// The queen's attack set: the union of the rook's and the bishop's.
pub fn queen_attacks(occ: u64, sq: Square) -> (bb: Bitboard)
    requires
        sq.wf(),
    ensures
        bb.0 == (rook_attacks_spec(occ, sq.idx()) | bishop_attacks_spec(occ, sq.idx())),
        0 <= bb.spec_count() <= 27,
{
    let r = rook_attacks(occ, sq);
    let b = bishop_attacks(occ, sq);
    proof {
        lemma_popcount_or_le(r.0, b.0, 64);
        lemma_popcount_below_bounds(r.0 | b.0, 64);
    }
    Bitboard(r.0 | b.0)
}

} // verus!
