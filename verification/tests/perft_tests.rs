use laura_core::board::Board;
use laura_core::color::Color;
use laura_core::moves::{Move, MoveType};
use laura_core::perft::{divided_perft_counts, inner_perft, is_move_ok, perft_corpus, MoveGen};
use laura_core::square::Square;
use laura_core::castle_rights::CastleRights;
use laura_core::piece::{Piece, PieceType};
use laura_core::zobrist::Zobrist;

/// A toy generator: one fixed knight move for each side, legal from the
/// starting position and back again.
struct KnightShuffle;

impl MoveGen for KnightShuffle {
    fn gen_moves(&self, board: &Board) -> Vec<Move> {
        match board.side() {
            // G1 -> F3, or back again.
            Color::White => {
                if board.piece_map[6].is_some() {
                    vec![Move::new(Square(6), Square(21), MoveType::Quiet)]
                } else {
                    vec![Move::new(Square(21), Square(6), MoveType::Quiet)]
                }
            },
            // B8 -> C6, or back again.
            Color::Black => {
                if board.piece_map[57].is_some() {
                    vec![Move::new(Square(57), Square(42), MoveType::Quiet)]
                } else {
                    vec![Move::new(Square(42), Square(57), MoveType::Quiet)]
                }
            },
        }
    }
}

/// A generator that hands back a move the position cannot take.
struct BrokenGen;

impl MoveGen for BrokenGen {
    fn gen_moves(&self, board: &Board) -> Vec<Move> {
        let _ = board;
        // A1 -> A2 is no white move of the starting position: A2 is occupied.
        vec![Move::new(Square(0), Square(8), MoveType::Quiet)]
    }
}

#[test]
fn perft_depth_zero_is_one() {
    let board = Board::default();
    assert_eq!(inner_perft(&KnightShuffle, &board, 0), Some(1));
    assert_eq!(inner_perft(&BrokenGen, &board, 0), Some(1));
}

#[test]
fn perft_depth_one_counts_moves() {
    let board = Board::default();
    assert_eq!(inner_perft(&KnightShuffle, &board, 1), Some(1));
}

#[test]
fn perft_descends_through_make_move() {
    let board = Board::default();
    assert_eq!(inner_perft(&KnightShuffle, &board, 2), Some(1));
    assert_eq!(inner_perft(&KnightShuffle, &board, 4), Some(1));
}

#[test]
fn perft_rejects_inadmissible_moves() {
    let board = Board::default();
    assert_eq!(inner_perft(&BrokenGen, &board, 2), None);
}

#[test]
fn divided_perft_reports_subtotals() {
    let board = Board::default();
    let (items, total) = divided_perft_counts(&KnightShuffle, &board, 3).unwrap();
    assert_eq!(total, 1);
    assert_eq!(items.len(), 1);
    assert_eq!(items[0].1, 1);

    // The divided driver answers one at depth zero, with nothing listed.
    let (items, total) = divided_perft_counts(&KnightShuffle, &board, 0).unwrap();
    assert_eq!(total, 1);
    assert!(items.is_empty());
}

#[test]
fn move_admissibility_checks() {
    let board = Board::default();
    // G1 -> F3 is admissible; G1 -> G3 of kind Capture is not: G3 is empty.
    assert!(is_move_ok(&board, Move::new(Square(6), Square(21), MoveType::Quiet)));
    assert!(!is_move_ok(&board, Move::new(Square(6), Square(22), MoveType::Capture)));
    // A move from an empty square, or with equal squares, is never admissible.
    assert!(!is_move_ok(&board, Move::new(Square(20), Square(28), MoveType::Quiet)));
    assert!(!is_move_ok(&board, Move::new(Square(6), Square(6), MoveType::Quiet)));
}

#[test]
fn corpus_has_expected_entries() {
    let corpus = perft_corpus();
    assert_eq!(corpus.len(), 34);
    assert_eq!(
        corpus[0],
        ("rnbqkbnr/pppppppp/8/8/8/8/PPPPPPPP/RNBQKBNR w KQkq - 0 1", 119060324, 6)
    );
    assert_eq!(corpus[33], ("8/5k2/8/5N2/5Q2/2K5/8/8 w - - 0 1", 23527, 4));
}

#[test]
fn move_accessors() {
    let mv = Move::new(Square(48), Square(56), MoveType::PromotionCaptureQueen);
    assert_eq!(mv.get_src(), Square(48));
    assert_eq!(mv.get_dest(), Square(56));
    assert_eq!(mv.get_type(), MoveType::PromotionCaptureQueen);
    assert!(mv.is_capture());
    assert!(mv.is_promotion());
    assert_eq!(
        mv.get_prom(Color::White),
        laura_core::piece::Piece::WQ
    );
    let quiet = Move::new(Square(6), Square(21), MoveType::Quiet);
    assert!(!quiet.is_capture());
    assert!(!quiet.is_promotion());
}

#[test]
fn castle_update_is_idempotent() {
    let r = CastleRights(15);
    let once = r.update(Square(4), Square(6));
    let twice = once.update(Square(4), Square(6));
    assert_eq!(once, twice);
    assert_eq!(once.0, 12);
}

#[test]
fn zobrist_toggles_are_involutions() {
    let mut z = Zobrist(0xDEADBEEF);
    let start = z;
    z.hash_piece(Piece::new(PieceType::Rook, Color::Black), Square(63));
    assert_ne!(z, start);
    z.hash_piece(Piece::new(PieceType::Rook, Color::Black), Square(63));
    assert_eq!(z, start);
    z.hash_enpassant(Square(20));
    z.hash_enpassant(Square(20));
    assert_eq!(z, start);
    z.hash_castle(CastleRights(5));
    z.hash_castle(CastleRights(5));
    assert_eq!(z, start);
    z.hash_side();
    z.hash_side();
    assert_eq!(z, start);
}
