//! The paired (midgame, endgame) evaluation value.

use vstd::prelude::*;

verus! {

/// An evaluation in centipawn-scale fixed point, kept separately for the
/// midgame and the endgame; positive favours the first mover. The pair (0, 0)
/// is the neutral "draw" value.
#[derive(Clone, Copy, Debug, PartialEq, Eq, Structural)]
pub struct Score {
    pub mg: i32,
    pub eg: i32,
}

impl Score {
    /// The neutral element: no advantage either way.
    pub fn draw() -> (s: Score)
        ensures
            s == (Score { mg: 0, eg: 0 }),
    {
        Score { mg: 0, eg: 0 }
    }

    pub fn new(mg: i32, eg: i32) -> (s: Score)
        ensures
            s == (Score { mg, eg }),
    {
        Score { mg, eg }
    }

    /// Component-wise addition.
    pub fn add(self, rhs: Score) -> (r: Score)
        requires
            i32::MIN <= self.mg + rhs.mg <= i32::MAX,
            i32::MIN <= self.eg + rhs.eg <= i32::MAX,
        ensures
            r.mg == self.mg + rhs.mg,
            r.eg == self.eg + rhs.eg,
    {
        Score { mg: self.mg + rhs.mg, eg: self.eg + rhs.eg }
    }

    /// Component-wise subtraction.
    pub fn sub(self, rhs: Score) -> (r: Score)
        requires
            i32::MIN <= self.mg - rhs.mg <= i32::MAX,
            i32::MIN <= self.eg - rhs.eg <= i32::MAX,
        ensures
            r.mg == self.mg - rhs.mg,
            r.eg == self.eg - rhs.eg,
    {
        Score { mg: self.mg - rhs.mg, eg: self.eg - rhs.eg }
    }

    /// Component-wise negation.
    pub fn neg(self) -> (r: Score)
        requires
            self.mg != i32::MIN,
            self.eg != i32::MIN,
        ensures
            r.mg == -self.mg,
            r.eg == -self.eg,
    {
        Score { mg: -self.mg, eg: -self.eg }
    }
}

/// On the mathematical model, Score addition is an abelian group operation:
/// commutative, associative, with the draw pair as the neutral element and
/// negation as the inverse.
pub proof fn lemma_score_group_laws(a: Score, b: Score, c: Score)
    ensures
        a.mg + b.mg == b.mg + a.mg && a.eg + b.eg == b.eg + a.eg,
        (a.mg + b.mg) + c.mg == a.mg + (b.mg + c.mg) && (a.eg + b.eg) + c.eg == a.eg + (b.eg
            + c.eg),
        a.mg + 0 == a.mg && a.eg + 0 == a.eg,
        a.mg + (-a.mg) == 0 && a.eg + (-a.eg) == 0,
{
}

} // verus!
