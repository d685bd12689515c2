//! The constant evaluation tables.
//!
//! Each piece-square table maps (piece kind, square) to a centipawn value,
//! from the first mover's viewpoint with A1 as the first square; the second
//! mover's lookups mirror the square first. The mobility tables map
//! (piece kind, attacked-square count) to a centipawn value; slots beyond a
//! kind's realistic maximum hold the neutral value. The exact values are
//! hand-tuned calibration data, not an invariant.
//!
//! The outer index is the piece kind in declaration order (Pawn, Knight,
//! Bishop, Rook, Queen, King).

use vstd::prelude::*;

verus! {

/// One more than the largest attacked-square count any piece can reach.
pub const MAX_MOBILITY: usize = 28;

/// Midgame piece-square values.
pub const PST_MG: [[i16; 64]; 6] = [
    [
        0, 0, 0, 0, 0, 0, 0, 0,
        -9, 5, -13, -10, 1, 12, 18, -12,
        -8, -3, -3, -4, 2, 0, 5, -6,
        -7, -1, 1, 9, 9, -2, -3, -13,
        0, 13, 3, 16, 10, 7, 10, -6,
        29, 45, 33, 51, 51, 48, 39, 23,
        49, 44, 63, 88, 85, 60, 47, 27,
        0, 0, 0, 0, 0, 0, 0, 0,
    ],
    [
        -152, -1, -54, -32, -26, -32, -3, -78,
        -84, -58, -15, 5, 5, -18, -34, -36,
        -16, -10, 3, 10, 14, 12, 8, -17,
        -11, -14, 7, 9, 16, 6, 7, -3,
        0, 10, 25, 41, 22, 53, 10, 23,
        -5, 22, 7, 52, 47, 7, 38, 17,
        -23, -14, 51, -4, 23, 22, -3, -2,
        -77, -46, -36, -23, -8, -74, -41, -91,
    ],
    [
        -51, -14, 0, -27, -30, -9, -26, -47,
        -32, 0, -5, -2, 4, -5, 17, -27,
        -10, 0, 9, 8, 6, 9, 2, -12,
        -13, -7, 9, 16, 8, 0, -3, 0,
        -4, 3, 4, 23, 25, 17, 0, 3,
        -15, 7, -19, 17, 2, -40, 25, 6,
        -20, -4, -5, -81, -58, 0, -15, -18,
        -21, -25, -47, -41, -24, -83, -30, -8,
    ],
    [
        -3, -4, -3, 0, 0, 4, -16, -19,
        -28, -20, -9, -6, -4, -3, -7, -30,
        -27, -25, -12, -6, -13, -17, -1, -23,
        -19, -10, -3, -6, -11, -19, -9, -16,
        -7, -15, 2, -1, -2, 0, -11, -7,
        -1, 2, 4, 9, 2, 23, 17, 4,
        8, 15, 33, 31, 28, 33, 34, 21,
        0, 18, 13, 7, 11, -5, 7, 8,
    ],
    [
        -22, -31, -24, 4, -18, -44, -13, -19,
        -74, -46, -3, -1, 6, 0, -6, 0,
        -30, -4, -1, 0, 0, 14, 0, 3,
        -15, -17, -2, 3, 5, 0, 4, 0,
        -21, -16, -1, 13, 24, 27, 14, 17,
        -16, -13, 9, 28, 51, 69, 91, 54,
        -30, -26, 0, 17, 23, 76, 47, 68,
        -11, 8, 19, 11, 36, 29, 35, 38,
    ],
    [
        -44, 4, 2, -31, -12, -25, 15, -30,
        -33, -9, -9, -25, -10, -4, 8, -10,
        -36, -11, -9, -10, -8, -7, -6, -31,
        -38, 0, -4, 0, 0, 0, -4, -38,
        -19, 16, 22, 11, 6, 16, 15, -12,
        -3, 23, 28, 11, 14, 35, 29, 0,
        -4, 22, 24, 13, 18, 23, 39, 8,
        -30, -6, -17, -29, -16, -9, 23, 0,
    ],
];

/// Endgame piece-square values.
pub const PST_EG: [[i16; 64]; 6] = [
    [
        0, 0, 0, 0, 0, 0, 0, 0,
        0, 3, -1, -5, 0, -2, 1, -3,
        -9, 3, -6, 0, -3, -8, -1, -13,
        5, 10, -1, -7, -7, -7, 1, -9,
        23, 20, 9, 3, -1, 3, 9, 8,
        68, 70, 48, 44, 23, 33, 50, 45,
        92, 77, 72, 71, 55, 48, 44, 71,
        0, 0, 0, 0, 0, 0, 0, 0,
    ],
    [
        -46, -18, -17, -13, -22, -18, -17, -33,
        -13, -6, 0, 0, 0, -2, -5, -38,
        -28, 6, 3, 9, 0, 15, -1, -23,
        -25, 1, 10, 16, 0, 1, 0, -17,
        -12, 3, 12, 16, 11, 17, 3, -17,
        -13, 2, 12, 0, 0, 0, -11, -13,
        -28, -18, -15, 2, -5, -8, -15, -33,
        -37, -49, -12, -15, -16, -13, -36, -32,
    ],
    [
        -11, -4, -11, -11, -1, -13, -15, 0,
        -3, -4, -6, 0, 0, 0, -2, -1,
        0, 5, 5, 5, 1, 11, 5, -6,
        -2, -6, 8, 2, -2, -2, -8, -6,
        0, 0, 11, 5, 0, 3, 7, -6,
        -3, -6, 0, 0, -4, 0, -3, -5,
        2, 4, 0, 0, 1, 0, 0, -16,
        -5, 0, 0, 0, -13, 0, -12, -19,
    ],
    [
        4, 6, 5, 1, 0, -1, 0, 2,
        -9, 1, -2, 0, 0, -9, -1, 0,
        0, 3, -1, -8, -2, -5, -6, -5,
        -6, 0, 0, -2, -5, -5, -1, -13,
        -1, -1, 7, -1, -3, -1, -8, -10,
        0, 5, 0, 2, 0, -15, -6, -4,
        6, 10, 10, 6, 0, 0, 3, -2,
        9, 0, 0, 1, 1, 4, -3, 3,
    ],
    [
        -7, -1, 4, 0, 0, 0, 0, -2,
        0, 2, 11, 0, 0, -2, 0, -6,
        0, 0, 9, 2, 8, 3, 0, 0,
        0, 14, 0, 4, 8, 6, 0, 0,
        -3, 1, 0, 0, 0, 0, 0, 0,
        0, 0, 0, 2, 0, 7, -4, -16,
        0, -1, 0, 0, -1, 0, -4, -13,
        -5, 0, 0, 12, 4, 0, 3, -18,
    ],
    [
        -40, -37, -24, -24, -22, -10, -28, -46,
        -27, -23, -14, -9, -3, -5, -17, -17,
        -34, -11, -1, 0, 7, 5, 0, -16,
        -17, -8, 13, 14, 10, 8, -2, -9,
        -22, 9, 11, 21, 16, 15, 10, -12,
        -13, 0, 8, 17, 18, 12, 3, 2,
        -9, -3, 4, 7, 0, 5, -5, -16,
        -27, -36, -17, -7, -6, 4, -28, -28,
    ],
];

/// Midgame piece-square values of the older table set.
pub const PESTO_MG: [[i16; 64]; 6] = [
    [
        0, 0, 0, 0, 0, 0, 0, 0,
        98, 134, 61, 95, 68, 126, 34, -11,
        -6, 7, 26, 31, 65, 56, 25, -20,
        -14, 13, 6, 21, 23, 12, 17, -23,
        -27, -2, -5, 12, 17, 6, 10, -25,
        -26, -4, -4, -10, 3, 3, 33, -12,
        -35, -1, -20, -23, -15, 24, 38, -22,
        0, 0, 0, 0, 0, 0, 0, 0,
    ],
    [
        -167, -89, -34, -49, 61, -97, -15, -107,
        -73, -41, 72, 36, 23, 62, 7, -17,
        -47, 60, 37, 65, 84, 129, 73, 44,
        -9, 17, 19, 53, 37, 69, 18, 22,
        -13, 4, 16, 13, 28, 19, 21, -8,
        -23, -9, 12, 10, 19, 17, 25, -16,
        -29, -53, -12, -3, -1, 18, -14, -19,
        -105, -21, -58, -33, -17, -28, -19, -23,
    ],
    [
        -29, 4, -82, -37, -25, -42, 7, -8,
        -26, 16, -18, -13, 30, 59, 18, -47,
        -16, 37, 43, 40, 35, 50, 37, -2,
        -4, 5, 19, 50, 37, 37, 7, -2,
        -6, 13, 13, 26, 34, 12, 10, 4,
        0, 15, 15, 15, 14, 27, 18, 10,
        4, 15, 16, 0, 7, 21, 33, 1,
        -33, -3, -14, -21, -13, -12, -39, -21,
    ],
    [
        32, 42, 32, 51, 63, 9, 31, 43,
        27, 32, 58, 62, 80, 67, 26, 44,
        -5, 19, 26, 36, 17, 45, 61, 16,
        -24, -11, 7, 26, 24, 35, -8, -20,
        -36, -26, -12, -1, 9, -7, 6, -23,
        -45, -25, -16, -17, 3, 0, -5, -33,
        -44, -16, -20, -9, -1, 11, -6, -71,
        -19, -13, 1, 17, 16, 7, -37, -26,
    ],
    [
        -28, 0, 29, 12, 59, 44, 43, 45,
        -24, -39, -5, 1, -16, 57, 28, 54,
        -13, -17, 7, 8, 29, 56, 47, 57,
        -27, -27, -16, -16, -1, 17, -2, 1,
        -9, -26, -9, -10, -2, -4, 3, -3,
        -14, 2, -11, -2, -5, 2, 14, 5,
        -35, -8, 11, 2, 8, 15, -3, 1,
        -1, -18, -9, 10, -15, -25, -31, -50,
    ],
    [
        -65, 23, 16, -15, -56, -34, 2, 13,
        29, -1, -20, -7, -8, -4, -38, -29,
        -9, 24, 2, -16, -20, 6, 22, -22,
        -17, -20, -12, -27, -30, -25, -14, -36,
        -49, -1, -27, -39, -46, -44, -33, -51,
        -14, -14, -22, -46, -44, -30, -15, -27,
        1, 7, -8, -64, -43, -16, 9, 8,
        -15, 36, 12, -54, 8, -28, 24, 14,
    ],
];

/// Endgame piece-square values of the older table set.
pub const PESTO_EG: [[i16; 64]; 6] = [
    [
        0, 0, 0, 0, 0, 0, 0, 0,
        178, 173, 158, 134, 147, 132, 165, 187,
        94, 100, 85, 67, 56, 53, 82, 84,
        32, 24, 13, 5, -2, 4, 17, 17,
        13, 9, -3, -7, -7, -8, 3, -1,
        4, 7, -6, 1, 0, -5, -1, -8,
        13, 8, 8, 10, 13, 0, 2, -7,
        0, 0, 0, 0, 0, 0, 0, 0,
    ],
    [
        -58, -38, -13, -28, -31, -27, -63, -99,
        -25, -8, -25, -2, -9, -25, -24, -52,
        -24, -20, 10, 9, -1, -9, -19, -41,
        -17, 3, 22, 22, 22, 11, 8, -18,
        -18, -6, 16, 25, 16, 17, 4, -18,
        -23, -3, -1, 15, 10, -3, -20, -22,
        -42, -20, -10, -5, -2, -20, -23, -44,
        -29, -51, -23, -15, -22, -18, -50, -64,
    ],
    [
        -14, -21, -11, -8, -7, -9, -17, -24,
        -8, -4, 7, -12, -3, -13, -4, -14,
        2, -8, 0, -1, -2, 6, 0, 4,
        -3, 9, 12, 9, 14, 10, 3, 2,
        -6, 3, 13, 19, 7, 10, -3, -9,
        -12, -3, 8, 10, 13, 3, -7, -15,
        -14, -18, -7, -1, 4, -9, -15, -27,
        -23, -9, -23, -5, -9, -16, -5, -17,
    ],
    [
        13, 10, 18, 15, 12, 12, 8, 5,
        11, 13, 13, 11, -3, 3, 8, 3,
        7, 7, 7, 5, 4, -3, -5, -3,
        4, 3, 13, 1, 2, 1, -1, 2,
        3, 5, 8, 4, -5, -6, -8, -11,
        -4, 0, -5, -1, -7, -12, -8, -16,
        -6, -6, 0, 2, -9, -9, -11, -3,
        -9, 2, 3, -1, -5, -13, 4, -20,
    ],
    [
        -9, 22, 22, 27, 27, 19, 10, 20,
        -17, 20, 32, 41, 58, 25, 30, 0,
        -20, 6, 9, 49, 47, 35, 19, 9,
        3, 22, 24, 45, 57, 40, 57, 36,
        -18, 28, 19, 47, 31, 34, 39, 23,
        -16, -27, 15, 6, 9, 17, 10, 5,
        -22, -23, -30, -16, -16, -23, -36, -32,
        -33, -28, -22, -43, -5, -32, -20, -41,
    ],
    [
        -74, -35, -18, -18, -11, 15, 4, -17,
        -12, 17, 14, 17, 17, 38, 23, 11,
        10, 17, 23, 15, 20, 45, 44, 13,
        -8, 22, 24, 27, 26, 33, 26, 3,
        -18, -4, 21, 24, 27, 23, 9, -11,
        -19, -3, 11, 21, 23, 16, 7, -9,
        -27, -11, 4, 13, 14, 4, -5, -17,
        -53, -34, -21, -11, -28, -14, -24, -43,
    ],
];

/// Midgame value of attacking a given number of squares.
pub const MOBILITY_MG: [[i16; 28]; 6] = [
    [
        -12, -12, 0, 0, 0, 0, 0,
        0, 0, 0, 0, 0, 0, 0,
        0, 0, 0, 0, 0, 0, 0,
        0, 0, 0, 0, 0, 0, 0,
    ],
    [
        -1, -12, -15, -12, 3, 12, 12,
        18, 17, 0, 0, 0, 0, 0,
        0, 0, 0, 0, 0, 0, 0,
        0, 0, 0, 0, 0, 0, 0,
    ],
    [
        -38, -19, -9, -5, 1, 9, 12,
        13, 19, 19, 11, 8, 1, 1,
        0, 0, 0, 0, 0, 0, 0,
        0, 0, 0, 0, 0, 0, 0,
    ],
    [
        -19, -12, -11, -10, -6, -6, -4,
        -1, 0, 5, 8, 9, 15, 11,
        11, 0, 0, 0, 0, 0, 0,
        0, 0, 0, 0, 0, 0, 0,
    ],
    [
        -8, -7, -5, -6, -6, 0, 0,
        -4, -4, -1, 0, 1, 0, 1,
        0, 0, 3, 3, 4, 4, 2,
        2, 2, 1, 0, 0, 0, 0,
    ],
    [
        0, 12, 3, -1, -10, -13, 2,
        3, 5, 0, 0, 0, 0, 0,
        0, 0, 0, 0, 0, 0, 0,
        0, 0, 0, 0, 0, 0, 0,
    ],
];

/// Endgame value of attacking a given number of squares.
pub const MOBILITY_EG: [[i16; 28]; 6] = [
    [
        6, 18, 0, 0, 0, 0, 0,
        0, 0, 0, 0, 0, 0, 0,
        0, 0, 0, 0, 0, 0, 0,
        0, 0, 0, 0, 0, 0, 0,
    ],
    [
        0, 0, -2, -5, -8, -1, -3,
        6, 1, 0, 0, 0, 0, 0,
        0, 0, 0, 0, 0, 0, 0,
        0, 0, 0, 0, 0, 0, 0,
    ],
    [
        0, -1, -3, -5, -4, -2, -2,
        -2, 2, 0, 2, 0, 0, 0,
        0, 0, 0, 0, 0, 0, 0,
        0, 0, 0, 0, 0, 0, 0,
    ],
    [
        0, 0, 0, 0, 0, 0, 0,
        4, 5, 2, -2, 0, 3, 2,
        8, 0, 0, 0, 0, 0, 0,
        0, 0, 0, 0, 0, 0, 0,
    ],
    [
        0, 0, 0, 0, 0, 0, 0,
        0, 0, 0, 0, 1, 2, 1,
        0, 2, 2, 2, 1, 2, 0,
        0, 0, 0, 0, 0, 0, 0,
    ],
    [
        0, -1, -7, -11, -5, -6, 4,
        16, 11, 0, 0, 0, 0, 0,
        0, 0, 0, 0, 0, 0, 0,
        0, 0, 0, 0, 0, 0, 0,
    ],
];

} // verus!
