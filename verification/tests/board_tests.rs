use std::str::FromStr;

use laura_core::board::Board;
use laura_core::fen::START_FEN;
use laura_core::moves::{Move, MoveType};
use laura_core::square::Square;
use laura_core::zobrist::Zobrist;

#[test]
fn test_board() {
    let board: Board = Board::new();
    println!("{}", board.to_fen());
}

#[test]
fn test_from_string() {
    let board: Board = Board::from_str(
        "r3k2r/p1ppqpb1/bn2pnp1/3PN3/1p2P3/2N2Q1p/PPPBBPPP/R3K2R w KQkq - 0 1",
    )
    .unwrap();
    println!("{}", board.to_fen());
    println!("{}", board.to_fen());
}

#[test]
fn test_default() {
    let board: Board = Board::from_str("rnbqkbnr/pppppppp/8/8/8/8/PPPPPPPP/RNBQKBNR w KQkq - 0 1")
        .unwrap();
    let board_default: Board = Board::default();
    println!("{}", board.to_fen());
    assert_eq!(board, board_default);
}

#[test]
fn test_move() {
    let board: Board = Board::default();
    // G1 -> F3
    let mv: Move = Move::new(Square(6), Square(21), MoveType::Quiet);
    let board: Board = board.make_move(mv);
    println!("{}", board.to_fen());
    // E7 -> E6
    let mv: Move = Move::new(Square(52), Square(44), MoveType::Quiet);
    let board: Board = board.make_move(mv);
    println!("{}", board.to_fen());
    // B1 -> C3
    let mv: Move = Move::new(Square(1), Square(18), MoveType::Quiet);
    let board: Board = board.make_move(mv);
    println!("{}", board.to_fen());
}

#[test]
fn test_zobrist() {
    let zobrist: Zobrist = Zobrist::null();
    println!("{:016x}", zobrist.0);
}

#[test]
fn quiet_moves_update_fen() {
    let board = Board::default();
    let board = board.make_move(Move::new(Square(6), Square(21), MoveType::Quiet));
    assert_eq!(
        board.to_fen(),
        "rnbqkbnr/pppppppp/8/8/8/5N2/PPPPPPPP/RNBQKB1R b KQkq - 1 1"
    );
}

#[test]
fn double_pawn_sets_enpassant() {
    // E2 -> E4 leaves the stepped-over square E3 as the en-passant square.
    let board = Board::default();
    let board = board.make_move(Move::new(Square(12), Square(28), MoveType::DoublePawn));
    assert_eq!(board.enpassant_square, Some(Square(20)));
    assert_eq!(
        board.to_fen(),
        "rnbqkbnr/pppppppp/8/8/4P3/8/PPPP1PPP/RNBQKBNR b KQkq e3 0 1"
    );
}

#[test]
fn promotion_places_promoted_piece() {
    let board = Board::from_fen("8/P6k/8/8/8/8/8/K7 w - - 0 1").unwrap();
    // A7 -> A8 = Q
    let board = board.make_move(Move::new(Square(48), Square(56), MoveType::PromotionQueen));
    assert_eq!(board.to_fen(), "Q7/7k/8/8/8/8/8/K7 b - - 0 1");
}

#[test]
fn enpassant_capture_removes_beside_pawn() {
    let board = Board::from_fen("4k3/8/8/3pP3/8/8/8/4K3 w - d6 0 1").unwrap();
    // E5 takes D6 en passant; the black pawn on D5 leaves, not one on D6.
    let board = board.make_move(Move::new(Square(36), Square(43), MoveType::EnPassant));
    assert_eq!(board.to_fen(), "4k3/8/3P4/8/8/8/8/4K3 b - - 0 1");
}

#[test]
fn castling_moves_king_and_rook() {
    let board = Board::from_fen("4k3/8/8/8/8/8/8/4K2R w K - 0 1").unwrap();
    // E1 -> G1, the rook jumping H1 -> F1, and white's right is gone.
    let board = board.make_move(Move::new(Square(4), Square(6), MoveType::KingCastle));
    assert_eq!(board.to_fen(), "4k3/8/8/8/8/8/8/5RK1 b - - 1 1");
}

#[test]
fn capture_resets_fifty_move() {
    let board = Board::from_fen("4k3/8/8/3p4/4N3/8/8/4K3 w - - 11 40").unwrap();
    let board = board.make_move(Move::new(Square(28), Square(35), MoveType::Capture));
    assert_eq!(board.fifty_move(), 0);
    assert_eq!(board.to_fen(), "4k3/8/8/3N4/8/8/8/4K3 b - - 0 40");
}

#[test]
fn null_move_restores_zobrist() {
    let board = Board::default();
    let twice = board.null_move().null_move();
    assert_eq!(board.zobrist(), twice.zobrist());
}

#[test]
fn null_move_flips_side_and_clears_enpassant() {
    let board = Board::default()
        .make_move(Move::new(Square(12), Square(28), MoveType::DoublePawn));
    let passed = board.null_move();
    assert_ne!(passed.side(), board.side());
    assert_eq!(passed.enpassant_square, None);
}

#[test]
fn checkers_sees_rook_check() {
    // Black to move, the rook on E3 checks the king on E8.
    let board = Board::from_fen("4k3/8/8/8/8/4R3/8/4K3 b - - 0 1").unwrap();
    assert_eq!(board.checkers().0, 1u64 << 20);
}

#[test]
fn checkers_empty_in_quiet_position() {
    let board = Board::from_fen(START_FEN).unwrap();
    assert_eq!(board.checkers().0, 0);
}

#[test]
fn checkers_sees_knight_and_pawn() {
    // White to move; a black knight on F3 checks the king on E1.
    let board = Board::from_fen("4k3/8/8/8/8/5n2/8/4K3 w - - 0 1").unwrap();
    assert_eq!(board.checkers().0, 1u64 << 21);
    // White to move; a black pawn on D2 checks the king on E1.
    let board = Board::from_fen("4k3/8/8/8/8/8/3p4/4K3 w - - 0 1").unwrap();
    assert_eq!(board.checkers().0, 1u64 << 11);
}
