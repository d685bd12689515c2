//! Evaluation of positions: a piece-square-table term and a mobility term,
//! each a paired (midgame, endgame) score.

pub mod mobility;
pub mod pst;
