//! Integration tests for the evaluation core: the incremental piece-square
//! delta against from-scratch recomputation over whole move lists, the
//! mobility evaluator, mirror symmetry, and the square-set algebra.

use fiddler_eval::attacks::{
    bishop_attacks, king_attacks, knight_attacks, pawn_attacks, queen_attacks, rook_attacks,
};
use fiddler_eval::bitboard::Bitboard;
use fiddler_eval::board::{Board, Move};
use fiddler_eval::evaluate::mobility;
use fiddler_eval::evaluate::pst as epst;
use fiddler_eval::piece::{Color, Piece};
use fiddler_eval::pst::{pst_delta, pst_evaluate, PstNominate};
use fiddler_eval::score::Score;
use fiddler_eval::square::Square;
use fiddler_eval::tables;

/// A parsed position: the board plus the move-generation state that the
/// evaluators themselves do not consume.
struct Position {
    board: Board,
    /// king-side then queen-side castling rights, for White then Black
    rights: [bool; 4],
    /// the en-passant target square, if any
    ep_square: Option<u8>,
}

fn parse_fen(fen: &str) -> Position {
    let mut parts = fen.split_whitespace();
    let placement = parts.next().unwrap();
    let side = parts.next().unwrap();
    let castling = parts.next().unwrap();
    let ep = parts.next().unwrap();

    let mut pieces = [0u64; 6];
    let mut sides = [0u64; 2];
    let mut king_sqs = [0u8; 2];
    let mut rank: i32 = 7;
    let mut file: i32 = 0;
    for c in placement.chars() {
        match c {
            '/' => {
                rank -= 1;
                file = 0;
            }
            '1'..='8' => file += c.to_digit(10).unwrap() as i32,
            _ => {
                let sq = (rank * 8 + file) as u8;
                let color = if c.is_ascii_uppercase() { 0 } else { 1 };
                let kind = match c.to_ascii_lowercase() {
                    'p' => 0,
                    'n' => 1,
                    'b' => 2,
                    'r' => 3,
                    'q' => 4,
                    'k' => 5,
                    _ => panic!("bad piece"),
                };
                pieces[kind] |= 1u64 << sq;
                sides[color] |= 1u64 << sq;
                if kind == 5 {
                    king_sqs[color] = sq;
                }
                file += 1;
            }
        }
    }
    let player = if side == "w" { Color::White } else { Color::Black };
    let rights = [
        castling.contains('K'),
        castling.contains('Q'),
        castling.contains('k'),
        castling.contains('q'),
    ];
    let ep_square = if ep == "-" {
        None
    } else {
        let bytes = ep.as_bytes();
        Some((bytes[0] - b'a') + 8 * (bytes[1] - b'1'))
    };
    Position {
        board: Board {
            pieces: [
                Bitboard(pieces[0]),
                Bitboard(pieces[1]),
                Bitboard(pieces[2]),
                Bitboard(pieces[3]),
                Bitboard(pieces[4]),
                Bitboard(pieces[5]),
            ],
            sides: [Bitboard(sides[0]), Bitboard(sides[1])],
            player,
            king_sqs: [Square(king_sqs[0]), Square(king_sqs[1])],
        },
        rights,
        ep_square,
    }
}

fn squares_of(bb: u64) -> Vec<u8> {
    (0..64).filter(|i| bb >> i & 1 == 1).collect()
}

/// Every pseudo-legal move of the side to move, with castling restricted by
/// the position's castling rights.
fn generate_moves(pos: &Position) -> Vec<Move> {
    let b = &pos.board;
    let us = match b.player {
        Color::White => 0usize,
        Color::Black => 1usize,
    };
    let them = 1 - us;
    let own = b.sides[us].0;
    let enemy = b.sides[them].0;
    let occ = own | enemy;
    let mut moves: Vec<Move> = Vec::new();

    for kind in 1..6usize {
        for from in squares_of(b.pieces[kind].0 & own) {
            let att = match kind {
                1 => knight_attacks(Square(from)),
                2 => bishop_attacks(occ, Square(from)),
                3 => rook_attacks(occ, Square(from)),
                4 => queen_attacks(occ, Square(from)),
                _ => king_attacks(Square(from)),
            };
            for to in squares_of(att.0 & !own) {
                moves.push(Move {
                    from: Square(from),
                    to: Square(to),
                    promote: None,
                    en_passant: false,
                    castle: false,
                });
            }
        }
    }

    // pawns: pushes, captures, promotions, en passant
    let last_rank = if us == 0 { 7 } else { 0 };
    let fwd: i32 = if us == 0 { 8 } else { -8 };
    let start_rank = if us == 0 { 1 } else { 6 };
    for from in squares_of(b.pieces[0].0 & own) {
        let one = (from as i32 + fwd) as u8;
        let mut targets: Vec<(u8, bool)> = Vec::new();
        if occ >> one & 1 == 0 {
            targets.push((one, false));
            if from / 8 == start_rank {
                let two = (from as i32 + 2 * fwd) as u8;
                if occ >> two & 1 == 0 {
                    targets.push((two, false));
                }
            }
        }
        for to in squares_of(pawn_attacks(us, Square(from)).0 & enemy) {
            targets.push((to, false));
        }
        if let Some(ep) = pos.ep_square {
            if pawn_attacks(us, Square(from)).0 >> ep & 1 == 1 {
                targets.push((ep, true));
            }
        }
        for (to, en_passant) in targets {
            if to / 8 == last_rank {
                for promo in [Piece::Knight, Piece::Bishop, Piece::Rook, Piece::Queen] {
                    moves.push(Move {
                        from: Square(from),
                        to: Square(to),
                        promote: Some(promo),
                        en_passant: false,
                        castle: false,
                    });
                }
            } else {
                moves.push(Move {
                    from: Square(from),
                    to: Square(to),
                    promote: None,
                    en_passant,
                    castle: false,
                });
            }
        }
    }

    // castling: rights held, king and rook in place, squares between empty
    let base = 56 * us as u8;
    let king_home = base + 4;
    let king_at_home = (b.pieces[5].0 & own) >> king_home & 1 == 1;
    if king_at_home {
        if pos.rights[2 * us]
            && b.pieces[3].0 & own & (1u64 << (base + 7)) != 0
            && occ & ((1u64 << (base + 5)) | (1u64 << (base + 6))) == 0
        {
            moves.push(Move {
                from: Square(king_home),
                to: Square(base + 6),
                promote: None,
                en_passant: false,
                castle: true,
            });
        }
        if pos.rights[2 * us + 1]
            && b.pieces[3].0 & own & (1u64 << base) != 0
            && occ & ((1u64 << (base + 1)) | (1u64 << (base + 2)) | (1u64 << (base + 3))) == 0
        {
            moves.push(Move {
                from: Square(king_home),
                to: Square(base + 2),
                promote: None,
                en_passant: false,
                castle: true,
            });
        }
    }
    moves
}

/// For every pseudo-legal move of the position, the table delta added for
/// White and subtracted for Black must reproduce the from-scratch score of
/// the changed board, for both piece-square evaluators.
fn delta_helper(fen: &str) {
    let pos = parse_fen(fen);
    let orig = epst::evaluate(&pos.board);
    let orig_old = pst_evaluate(&pos.board);
    let moves = generate_moves(&pos);
    assert!(!moves.is_empty());
    for m in moves {
        let d = epst::delta(&pos.board, m);
        let d_old = pst_delta(&pos.board, m);
        let (exp, exp_old) = match pos.board.player {
            Color::White => (
                (orig.mg + d.mg, orig.eg + d.eg),
                (orig_old.mg + d_old.mg, orig_old.eg + d_old.eg),
            ),
            Color::Black => (
                (orig.mg - d.mg, orig.eg - d.eg),
                (orig_old.mg - d_old.mg, orig_old.eg - d_old.eg),
            ),
        };
        let mut after = pos.board;
        after.make_move(m);
        let fresh = epst::evaluate(&after);
        let fresh_old = pst_evaluate(&after);
        assert_eq!(exp, (fresh.mg, fresh.eg), "move {:?}", m);
        assert_eq!(exp_old, (fresh_old.mg, fresh_old.eg), "move {:?}", m);
    }
}

#[test]
/// Test that adding deltas matches the same result as taking the PST value
/// from scratch.
fn pst_delta_equals_base_result() {
    delta_helper("r1bq1b1r/ppp2kpp/2n5/3np3/2B5/8/PPPP1PPP/RNBQK2R w KQ - 0 7");
}

#[test]
fn delta_captures() {
    delta_helper("r1bq1b1r/ppp2kpp/2n5/3n4/2BPp3/2P5/PP3PPP/RNBQK2R b KQ d3 0 8");
}

#[test]
fn delta_promotion() {
    delta_helper("r4bkr/pPpq2pp/2n1b3/3n4/2BPp3/2P5/1P3PPP/RNBQK2R w KQ - 1 13");
}

#[test]
/// Test that adding deltas matches the same result as taking the PST value
/// from scratch.
fn test_pst_delta_equals_base_result() {
    let pos = parse_fen("r1bq1b1r/ppp2kpp/2n5/3np3/2B5/8/PPPP1PPP/RNBQK2R w KQ - 0 7");
    let pst_original = pst_evaluate(&pos.board);
    for m in generate_moves(&pos) {
        let delta = pst_delta(&pos.board, m);
        let delta_eval = (pst_original.mg + delta.mg, pst_original.eg + delta.eg);
        let mut bcopy = pos.board;
        bcopy.make_move(m);
        let fresh = pst_evaluate(&bcopy);
        assert_eq!(delta_eval, (fresh.mg, fresh.eg));
    }
}

const START_FEN: &str = "rnbqkbnr/pppppppp/8/8/8/8/PPPPPPPP/RNBQKBNR w KQkq - 0 1";

#[test]
/// From the starting position both piece-square evaluators give the neutral
/// score: the symmetric tables cancel exactly.
fn start_position_is_draw() {
    let pos = parse_fen(START_FEN);
    let s = pst_evaluate(&pos.board);
    assert_eq!((s.mg, s.eg), (0, 0));
    let s2 = epst::evaluate(&pos.board);
    assert_eq!((s2.mg, s2.eg), (0, 0));
}

#[test]
/// After the double pawn push e2-e4 the delta is exactly the pawn's stored
/// value at the new square minus the old, with no special-move adjustment.
fn pawn_push_delta_is_table_difference() {
    let pos = parse_fen(START_FEN);
    let e2 = 12u8;
    let e4 = 28u8;
    let m = Move {
        from: Square(e2),
        to: Square(e4),
        promote: None,
        en_passant: false,
        castle: false,
    };
    let d = pst_delta(&pos.board, m);
    let exp_mg =
        tables::PESTO_MG[0][e4 as usize] as i32 - tables::PESTO_MG[0][e2 as usize] as i32;
    let exp_eg =
        tables::PESTO_EG[0][e4 as usize] as i32 - tables::PESTO_EG[0][e2 as usize] as i32;
    assert_eq!((d.mg, d.eg), (exp_mg, exp_eg));
    let d2 = epst::delta(&pos.board, m);
    let exp2_mg = tables::PST_MG[0][e4 as usize] as i32 - tables::PST_MG[0][e2 as usize] as i32;
    let exp2_eg = tables::PST_EG[0][e4 as usize] as i32 - tables::PST_EG[0][e2 as usize] as i32;
    assert_eq!((d2.mg, d2.eg), (exp2_mg, exp2_eg));
}

#[test]
/// A king-side castle changes the score by exactly the king's and the
/// rook's individual stored-table differences, checked against full
/// from-scratch recomputation of the post-move board.
fn kingside_castle_delta() {
    let pos = parse_fen("r1bq1b1r/ppp2kpp/2n5/3np3/2B5/8/PPPP1PPP/RNBQK2R w KQ - 0 7");
    let (e1, g1, h1, f1) = (4usize, 6usize, 7usize, 5usize);
    let m = Move {
        from: Square(e1 as u8),
        to: Square(g1 as u8),
        promote: None,
        en_passant: false,
        castle: true,
    };
    let d = epst::delta(&pos.board, m);
    let exp_mg = (tables::PST_MG[5][g1] as i32 - tables::PST_MG[5][e1] as i32)
        + (tables::PST_MG[3][f1] as i32 - tables::PST_MG[3][h1] as i32);
    let exp_eg = (tables::PST_EG[5][g1] as i32 - tables::PST_EG[5][e1] as i32)
        + (tables::PST_EG[3][f1] as i32 - tables::PST_EG[3][h1] as i32);
    assert_eq!((d.mg, d.eg), (exp_mg, exp_eg));
    // and the delta agrees with re-evaluating the castled board from scratch
    let before = epst::evaluate(&pos.board);
    let mut after = pos.board;
    after.make_move(m);
    let fresh = epst::evaluate(&after);
    assert_eq!((before.mg + d.mg, before.eg + d.eg), (fresh.mg, fresh.eg));
}

fn mirrored(b: &Board) -> Board {
    Board {
        pieces: [
            Bitboard(b.pieces[0].0.swap_bytes()),
            Bitboard(b.pieces[1].0.swap_bytes()),
            Bitboard(b.pieces[2].0.swap_bytes()),
            Bitboard(b.pieces[3].0.swap_bytes()),
            Bitboard(b.pieces[4].0.swap_bytes()),
            Bitboard(b.pieces[5].0.swap_bytes()),
        ],
        sides: [Bitboard(b.sides[1].0.swap_bytes()), Bitboard(b.sides[0].0.swap_bytes())],
        player: match b.player {
            Color::White => Color::Black,
            Color::Black => Color::White,
        },
        king_sqs: [Square(b.king_sqs[1].0 ^ 56), Square(b.king_sqs[0].0 ^ 56)],
    }
}

#[test]
/// On the colour-flipped, square-mirrored counterpart of a position, both
/// piece-square evaluators and the mobility evaluator give the exact sign
/// inversion of the original scores.
fn mirror_symmetry() {
    let pos = parse_fen("r1bq1b1r/ppp2kpp/2n5/3n4/2BPp3/2P5/PP3PPP/RNBQK2R b KQ d3 0 8");
    let m = mirrored(&pos.board);
    let s = epst::evaluate(&pos.board);
    let sm = epst::evaluate(&m);
    assert_eq!((sm.mg, sm.eg), (-s.mg, -s.eg));
    let p = pst_evaluate(&pos.board);
    let pm = pst_evaluate(&m);
    assert_eq!((pm.mg, pm.eg), (-p.mg, -p.eg));
    let mob = mobility::evaluate(&pos.board);
    let mobm = mobility::evaluate(&m);
    assert_eq!((mobm.mg, mobm.eg), (-mob.mg, -mob.eg));
}

#[test]
/// Attack counts exactly at the table's boundaries, 0 and 27, look up the
/// stored entries — including the neutral-valued padding slots — without
/// faulting.
fn mobility_boundary_lookup() {
    let none = Bitboard(0);
    let s = mobility::for_piece(Piece::Knight, none);
    assert_eq!(
        (s.mg, s.eg),
        (tables::MOBILITY_MG[1][0] as i32, tables::MOBILITY_EG[1][0] as i32)
    );
    // 27 attacked squares: the queen's theoretical maximum
    let full27 = Bitboard((1u64 << 27) - 1);
    assert_eq!(full27.len(), 27);
    let q = mobility::for_piece(Piece::Queen, full27);
    assert_eq!(
        (q.mg, q.eg),
        (tables::MOBILITY_MG[4][27] as i32, tables::MOBILITY_EG[4][27] as i32)
    );
    // the padding entries hold the neutral value
    assert_eq!((q.mg, q.eg), (0, 0));
}

#[test]
/// The mobility evaluation of the symmetric starting position is neutral,
/// and a lone knight position matches a hand-computed table lookup.
fn mobility_evaluate_positions() {
    let pos = parse_fen(START_FEN);
    let s = mobility::evaluate(&pos.board);
    assert_eq!((s.mg, s.eg), (0, 0));

    // a lone white knight on a1 beside the two kings: the knight sees b3
    // and c2, and the two kings' contributions cancel
    let lone = parse_fen("4k3/8/8/8/8/8/8/N3K3 w - - 0 1");
    let sl = mobility::evaluate(&lone.board);
    assert_eq!(
        (sl.mg, sl.eg),
        (tables::MOBILITY_MG[1][2] as i32, tables::MOBILITY_EG[1][2] as i32)
    );
}

#[test]
/// The square-set algebra: a singleton meets its complement in the empty
/// set, a singleton has one member, union is commutative and associative,
/// and square mirroring is an involution.
fn squareset_algebra() {
    for i in 0..64u8 {
        let s = Square(i);
        let single = Bitboard::from_square(s);
        assert_eq!(single.bitand(single.complement()).0, 0);
        assert_eq!(single.len(), 1);
        assert_eq!(s.opposite().opposite(), s);
    }
    let a = Bitboard(0x1234_5678_9abc_def0);
    let b = Bitboard(0x0f0f_0f0f_f0f0_f0f0);
    let c = Bitboard(0xffff_0000_ffff_0000);
    assert_eq!(a.bitor(b), b.bitor(a));
    assert_eq!(a.bitor(b).bitor(c), a.bitor(b.bitor(c)));
    // the ascending enumeration of members
    let sqs = Bitboard(0b1010_0001).squares();
    let idx: Vec<u8> = sqs.iter().map(|s| s.0).collect();
    assert_eq!(idx, vec![0, 5, 7]);
}

#[test]
/// The move nominator scores a move by its stored-table delta.
fn nominate_scores_by_delta() {
    let pos = parse_fen(START_FEN);
    let m = Move {
        from: Square(12),
        to: Square(28),
        promote: None,
        en_passant: false,
        castle: false,
    };
    let nominated = PstNominate::score(m, &pos.board);
    let direct = pst_delta(&pos.board, m);
    assert_eq!((nominated.mg, nominated.eg), (direct.mg, direct.eg));
}

#[test]
/// Score arithmetic: addition, subtraction and negation act component-wise
/// and the draw score is neutral.
fn score_arithmetic() {
    let a = Score::new(3, -4);
    let b = Score::new(-1, 9);
    let sum = a.add(b);
    assert_eq!((sum.mg, sum.eg), (2, 5));
    let diff = a.sub(b);
    assert_eq!((diff.mg, diff.eg), (4, -13));
    let neg = a.neg();
    assert_eq!((neg.mg, neg.eg), (-3, 4));
    let z = Score::draw();
    assert_eq!((a.add(z).mg, a.add(z).eg), (a.mg, a.eg));
}
