//! Board squares, numbered A1 = 0 through H8 = 63, file-major within rank.

use vstd::prelude::*;

verus! {

/// One of the 64 board cells. Rank `i / 8`, file `i % 8`.
#[derive(Clone, Copy, Debug, PartialEq, Eq, Structural)]
pub struct Square(pub u8);

impl Square {
    /// A well-formed square names one of the 64 cells.
    pub open spec fn wf(self) -> bool {
        self.0 < 64
    }

    /// The square's index as a mathematical integer.
    pub open spec fn idx(self) -> int {
        self.0 as int
    }

    /// The square seen from the other player's viewpoint: same file,
    /// mirrored rank (XOR with 56 flips the three rank bits).
    pub open spec fn spec_opposite(self) -> Square {
        Square(self.0 ^ 56)
    }

    /// Mirror the square for the second player's viewpoint.
    pub fn opposite(self) -> (r: Square)
        ensures
            r == self.spec_opposite(),
    {
        Square(self.0 ^ 56)
    }

    pub open spec fn spec_rank(self) -> int {
        self.0 as int / 8
    }

    pub open spec fn spec_file(self) -> int {
        self.0 as int % 8
    }

    /// The square's rank (row), 0 through 7.
    pub fn rank(self) -> (r: u8)
        ensures
            r == self.spec_rank(),
    {
        self.0 / 8
    }

    /// The square's file (column), 0 through 7.
    pub fn file(self) -> (f: u8)
        ensures
            f == self.spec_file(),
    {
        self.0 % 8
    }
}

/// Mirroring a square index for the second player: same file, mirrored rank.
pub open spec fn opp_idx(i: int) -> int {
    ((i as u8) ^ 56) as int
}

/// Mirroring is an involution, stays within the board, keeps the file and
/// mirrors the rank.
pub proof fn lemma_opp_idx(i: int)
    requires
        0 <= i < 64,
    ensures
        opp_idx(opp_idx(i)) == i,
        0 <= opp_idx(i) < 64,
        opp_idx(i) % 8 == i % 8,
        opp_idx(i) / 8 == 7 - i / 8,
{
    let b = i as u8;
    assert(b < 64 ==> ((b ^ 56) ^ 56) == b && (b ^ 56) < 64 && (b ^ 56) % 8 == b % 8 && (b ^ 56)
        / 8 == 7 - b / 8) by (bit_vector);
}

/// The XOR form of square mirroring agrees with `opp_idx`.
pub proof fn lemma_opp_idx_u8(x: u8)
    requires
        x < 64,
    ensures
        opp_idx(x as int) == (x ^ 56) as int,
        (x ^ 56) < 64,
{
    assert(x < 64 ==> (x ^ 56) < 64) by (bit_vector);
}

/// The opposite of the opposite of any square is the square itself.
pub proof fn lemma_opposite_involution(s: Square)
    requires
        s.wf(),
    ensures
        s.spec_opposite().spec_opposite() == s,
        s.spec_opposite().wf(),
{
    let b = s.0;
    assert(b < 64 ==> ((b ^ 56) ^ 56) == b && (b ^ 56) < 64) by (bit_vector);
}

} // verus!
