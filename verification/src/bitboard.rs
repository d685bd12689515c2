//! A 64-bit set of board squares, one bit per square, A1 as bit 0 through H8
//! as bit 63.

use vstd::prelude::*;
use crate::square::Square;
use crate::square::opp_idx;

verus! {

/// Whether bit `i` of `b` is set. Callers keep `i < 64`.
pub open spec fn bit64(b: u64, i: u64) -> bool {
    (b >> i) & 1u64 == 1u64
}

/// The mask holding exactly the square with index `i`.
pub open spec fn sq_bit(i: int) -> u64 {
    1u64 << (i as u64)
}

/// How many of the bits `0 <= i < n` of `b` are set.
pub open spec fn popcount_below(b: u64, n: int) -> int
    decreases n,
{
    if n <= 0 {
        0
    } else {
        popcount_below(b, n - 1) + if bit64(b, (n - 1) as u64) {
            1int
        } else {
            0int
        }
    }
}

/// A set of board squares as a 64-bit mask.
#[derive(Clone, Copy, Debug, PartialEq, Eq, Structural)]
pub struct Bitboard(pub u64);

impl Bitboard {
    /// Whether the square with index `i` is a member.
    pub open spec fn has(self, i: int) -> bool {
        0 <= i < 64 && bit64(self.0, i as u64)
    }

    /// The number of member squares.
    pub open spec fn spec_count(self) -> int {
        popcount_below(self.0, 64)
    }

    /// The empty set.
    pub fn empty() -> (r: Bitboard)
        ensures
            r == Bitboard(0u64),
    {
        Bitboard(0)
    }

    /// The set holding exactly one square.
    pub fn from_square(s: Square) -> (r: Bitboard)
        requires
            s.wf(),
        ensures
            r == Bitboard(sq_bit(s.idx())),
    {
        Bitboard(1u64 << (s.0 as u64))
    }

    /// Intersection.
    pub fn bitand(self, rhs: Bitboard) -> (r: Bitboard)
        ensures
            r == Bitboard(self.0 & rhs.0),
    {
        Bitboard(self.0 & rhs.0)
    }

    /// Union.
    pub fn bitor(self, rhs: Bitboard) -> (r: Bitboard)
        ensures
            r == Bitboard(self.0 | rhs.0),
    {
        Bitboard(self.0 | rhs.0)
    }

    /// Symmetric difference.
    pub fn bitxor(self, rhs: Bitboard) -> (r: Bitboard)
        ensures
            r == Bitboard(self.0 ^ rhs.0),
    {
        Bitboard(self.0 ^ rhs.0)
    }

    /// Complement over the whole 64-square domain.
    pub fn complement(self) -> (r: Bitboard)
        ensures
            r == Bitboard(!self.0),
    {
        Bitboard(!self.0)
    }

    /// Difference: the members of `self` that are not members of `rhs`.
    pub fn diff(self, rhs: Bitboard) -> (r: Bitboard)
        ensures
            r == Bitboard(self.0 & !rhs.0),
    {
        Bitboard(self.0 & !rhs.0)
    }

    /// Shift the mask left.
    pub fn shl(self, rhs: u8) -> (r: Bitboard)
        requires
            rhs < 64,
        ensures
            r == Bitboard(self.0 << (rhs as u64)),
    {
        Bitboard(self.0 << (rhs as u64))
    }

    /// Shift the mask right.
    pub fn shr(self, rhs: u8) -> (r: Bitboard)
        requires
            rhs < 64,
        ensures
            r == Bitboard(self.0 >> (rhs as u64)),
    {
        Bitboard(self.0 >> (rhs as u64))
    }

    /// Membership test.
    pub fn contains(self, s: Square) -> (r: bool)
        requires
            s.wf(),
        ensures
            r == self.has(s.idx()),
    {
        (self.0 >> (s.0 as u64)) & 1u64 == 1u64
    }

    /// Cardinality: the number of member squares.
    pub fn len(self) -> (r: u8)
        ensures
            r == self.spec_count(),
    {
        let mut i: u8 = 0;
        let mut c: u8 = 0;
        while i < 64
            invariant
                i <= 64,
                c == popcount_below(self.0, i as int),
                c <= i,
            decreases 64 - i,
        {
            if (self.0 >> (i as u64)) & 1u64 == 1u64 {
                c = c + 1;
            }
            i = i + 1;
        }
        c
    }

    /// The member squares in ascending order, A1 before H8.
    pub fn squares(self) -> (v: Vec<Square>)
        ensures
            v@.len() == self.spec_count(),
            forall|k: int|
                0 <= k < v@.len() ==> (#[trigger] v@[k]).wf() && self.has(v@[k].idx()),
            forall|k1: int, k2: int| 0 <= k1 < k2 < v@.len() ==> v@[k1].0 < v@[k2].0,
            forall|i: int| #![auto]
                self.has(i) ==> exists|k: int| 0 <= k < v@.len() && v@[k].idx() == i,
    {
        let mut v: Vec<Square> = Vec::new();
        let mut i: u8 = 0;
        while i < 64
            invariant
                i <= 64,
                v@.len() == popcount_below(self.0, i as int),
                forall|k: int|
                    0 <= k < v@.len() ==> (#[trigger] v@[k]).wf() && self.has(v@[k].idx())
                        && v@[k].0 < i,
                forall|k1: int, k2: int| 0 <= k1 < k2 < v@.len() ==> v@[k1].0 < v@[k2].0,
                forall|j: int| #![auto]
                    0 <= j < i && self.has(j) ==> exists|k: int|
                        0 <= k < v@.len() && v@[k].idx() == j,
            decreases 64 - i,
        {
            let ghost old_v = v@;
            if (self.0 >> (i as u64)) & 1u64 == 1u64 {
                v.push(Square(i));
                proof {
                    assert forall|j: int| #![auto] 0 <= j < i + 1 && self.has(j) implies exists|
                        k: int,
                    | 0 <= k < v@.len() && v@[k].idx() == j by {
                        if j == i as int {
                            assert(v@[v@.len() - 1].idx() == j);
                        } else {
                            let k = choose|k: int| 0 <= k < old_v.len() && old_v[k].idx() == j;
                            assert(v@[k].idx() == j);
                        }
                    }
                }
            }
            i = i + 1;
        }
        v
    }
}

/// A popcount over a prefix counts between 0 and the prefix length.
pub proof fn lemma_popcount_below_bounds(b: u64, n: int)
    ensures
        0 <= popcount_below(b, n) <= if n <= 0 {
            0int
        } else {
            n
        },
    decreases n,
{
    if n > 0 {
        lemma_popcount_below_bounds(b, n - 1);
    }
}

/// How single-square masks, intersection, union and complement act on
/// individual bits.
pub proof fn lemma_bit_ops()
    by (bit_vector)
    ensures
        forall|a: u64, b: u64, i: u64|
            i < 64 ==> #[trigger] bit64(a & b, i) == (bit64(a, i) && bit64(b, i)),
        forall|a: u64, b: u64, i: u64|
            i < 64 ==> #[trigger] bit64(a | b, i) == (bit64(a, i) || bit64(b, i)),
        forall|a: u64, b: u64, i: u64|
            i < 64 ==> #[trigger] bit64(a ^ b, i) == (bit64(a, i) != bit64(b, i)),
        forall|a: u64, i: u64| i < 64 ==> #[trigger] bit64(!a, i) == !bit64(a, i),
        forall|j: u64, i: u64| i < 64 && j < 64 ==> #[trigger] bit64(1u64 << j, i) == (i == j),
        forall|i: u64| i < 64 ==> !(#[trigger] bit64(0u64, i)),
{
}

/// The empty mask is the unit of union, and union is associative and
/// commutative.
pub proof fn lemma_or_zero()
    by (bit_vector)
    ensures
        forall|x: u64| #[trigger] (x | 0u64) == x,
        forall|x: u64| #[trigger] (0u64 | x) == x,
        forall|a: u64, b: u64, c: u64| #[trigger] ((a | b) | c) == a | (b | c),
        forall|a: u64, b: u64| #[trigger] (a | b) == b | a,
{
}

/// Two masks whose intersection is empty share no bit.
pub proof fn lemma_disjoint_bits(a: u64, b: u64)
    requires
        a & b == 0,
    ensures
        forall|i: u64| #![trigger bit64(a, i), bit64(b, i)]
            i < 64 ==> !(bit64(a, i) && bit64(b, i)),
{
    lemma_bit_ops();
    assert forall|i: u64| i < 64 implies !(bit64(a, i) && bit64(b, i)) by {
        assert(bit64(a & b, i) == (bit64(a, i) && bit64(b, i)));
        assert(!bit64(0u64, i));
    }
}

/// Prefix popcounts agree on masks whose bits agree below the prefix.
pub proof fn lemma_popcount_below_congruence(a: u64, b: u64, n: int)
    requires
        forall|i: u64| i < n ==> bit64(a, i) == bit64(b, i),
    ensures
        popcount_below(a, n) == popcount_below(b, n),
    decreases n,
{
    if n > 0 {
        lemma_popcount_below_congruence(a, b, n - 1);
    }
}

/// Popcount is subadditive over union.
pub proof fn lemma_popcount_or_le(a: u64, b: u64, n: int)
    requires
        n <= 64,
    ensures
        popcount_below(a | b, n) <= popcount_below(a, n) + popcount_below(b, n),
    decreases n,
{
    if n > 0 {
        lemma_popcount_or_le(a, b, n - 1);
        lemma_bit_ops();
        lemma_popcount_below_bounds(a, n - 1);
        lemma_popcount_below_bounds(b, n - 1);
    }
}

/// Masking cannot raise the popcount.
pub proof fn lemma_popcount_and_le(a: u64, b: u64, n: int)
    requires
        n <= 64,
    ensures
        popcount_below(a & b, n) <= popcount_below(a, n),
    decreases n,
{
    if n > 0 {
        lemma_popcount_and_le(a, b, n - 1);
        lemma_bit_ops();
    }
}

/// A single-square mask has exactly one member.
pub proof fn lemma_popcount_single(j: u64)
    requires
        j < 64,
    ensures
        popcount_below(1u64 << j, 64) == 1,
{
    lemma_bit_ops();
    lemma_popcount_single_rec(j, 64);
}

proof fn lemma_popcount_single_rec(j: u64, n: int)
    requires
        j < 64,
        n <= 64,
        forall|i: u64| i < 64 ==> #[trigger] bit64(1u64 << j, i) == (i == j),
    ensures
        popcount_below(1u64 << j, n) == if j < n {
            1int
        } else {
            0int
        },
    decreases n,
{
    if n > 0 {
        lemma_popcount_single_rec(j, n - 1);
    }
}

/// The empty set has no members.
pub proof fn lemma_popcount_zero(n: int)
    requires
        n <= 64,
    ensures
        popcount_below(0u64, n) == 0,
    decreases n,
{
    if n > 0 {
        lemma_popcount_zero(n - 1);
        lemma_bit_ops();
    }
}

/// Square-set algebra: a singleton and its complement share no square, a
/// singleton has exactly one member, and union is commutative and
/// associative.
pub proof fn lemma_squareset_algebra(s: Square, a: Bitboard, b: Bitboard, c: Bitboard)
    requires
        s.wf(),
    ensures
        sq_bit(s.idx()) & !sq_bit(s.idx()) == 0u64,
        Bitboard(sq_bit(s.idx())).spec_count() == 1,
        a.0 | b.0 == b.0 | a.0,
        (a.0 | b.0) | c.0 == a.0 | (b.0 | c.0),
{
    let j = s.0 as u64;
    let x = a.0;
    let y = b.0;
    let z = c.0;
    assert((1u64 << j) & !(1u64 << j) == 0u64) by (bit_vector);
    lemma_popcount_single(j);
    assert(x | y == y | x) by (bit_vector);
    assert((x | y) | z == x | (y | z)) by (bit_vector);
}

/// Mirroring a mask for the second player: each rank byte swaps with the
/// opposite rank's byte.
pub open spec fn mirror_bb(x: u64) -> u64 {
    ((x & 0xffu64) << 56) | ((x & 0xff00u64) << 40) | ((x & 0xff_0000u64) << 24) | ((x
        & 0xff00_0000u64) << 8) | ((x >> 8) & 0xff00_0000u64) | ((x >> 24) & 0xff_0000u64) | ((x
        >> 40) & 0xff00u64) | (x >> 56)
}

/// Bit `i` of the mirrored mask is bit `opp_idx(i)` of the original;
/// mirroring twice gives the original back, and mirroring distributes over
/// the set operations.
pub proof fn lemma_mirror_bb()
    ensures
        forall|x: u64, i: u64|
            i < 64 ==> #[trigger] bit64(mirror_bb(x), i) == bit64(x, i ^ 56),
        forall|x: u64| #[trigger] mirror_bb(mirror_bb(x)) == x,
        forall|x: u64, y: u64| #[trigger] mirror_bb(x & y) == mirror_bb(x) & mirror_bb(y),
        forall|x: u64, y: u64| #[trigger] mirror_bb(x | y) == mirror_bb(x) | mirror_bb(y),
        forall|x: u64| #[trigger] mirror_bb(!x) == !mirror_bb(x),
{
    assert(forall|x: u64, i: u64|
        i < 64 ==> #[trigger] bit64(mirror_bb(x), i) == bit64(x, i ^ 56)) by (bit_vector);
    assert(forall|x: u64| #[trigger] mirror_bb(mirror_bb(x)) == x) by (bit_vector);
    assert(forall|x: u64, y: u64| #[trigger] mirror_bb(x & y) == mirror_bb(x) & mirror_bb(y))
        by (bit_vector);
    assert(forall|x: u64, y: u64| #[trigger] mirror_bb(x | y) == mirror_bb(x) | mirror_bb(y))
        by (bit_vector);
    assert(forall|x: u64| #[trigger] mirror_bb(!x) == !mirror_bb(x)) by (bit_vector);
}

/// `opp_idx` agrees with the XOR form used for mask indices.
pub proof fn lemma_opp_idx_xor(i: u64)
    requires
        i < 64,
    ensures
        opp_idx(i as int) == (i ^ 56) as int,
        (i ^ 56) < 64,
{
    assert(i < 64 ==> (i ^ 56) < 64 && ((i as u8) ^ 56) as u64 == (i ^ 56)) by (bit_vector);
}

} // verus!
