//! Incremental position-evaluation core for a chess engine.
//!
//! Two cooperating scoring subsystems — a piece-square-table (PST) evaluator
//! and a piece-mobility evaluator — built on a shared 64-bit square-set
//! ("bitboard") abstraction. The PST evaluator can score a position from
//! scratch or produce the exact same score incrementally from a single move,
//! which is proved here for every special-move category: ordinary moves,
//! captures, en-passant captures, castling and promotion.

pub mod attacks;
pub mod bitboard;
pub mod evaluate;
pub mod pst;
pub mod piece;
pub mod pst_model;
pub mod score;
pub mod board;
pub mod square;
pub mod tables;
