//! End-to-end node counts: a plain move generator, written here only to
//! exercise the verified board, drives the perft counter over the first
//! plies of the starting position, whose totals are well known. No
//! castling or promotion can occur this early, so the generator covers
//! pushes, captures, en passant and leaps, filtering out moves that leave
//! the mover's king attacked.

use laura_core::board::Board;
use laura_core::color::Color;
use laura_core::moves::{Move, MoveType};
use laura_core::perft::{inner_perft, is_move_ok, MoveGen};
use laura_core::piece::PieceType;
use laura_core::square::Square;

struct SimpleGen;

fn on_board(r: i32, f: i32) -> bool {
    (0..8).contains(&r) && (0..8).contains(&f)
}

fn piece_at(board: &Board, sq: i32) -> Option<laura_core::piece::Piece> {
    board.piece_map[sq as usize]
}

fn push_move(out: &mut Vec<Move>, board: &Board, from: i32, to: i32) {
    let kind = if board.piece_map[to as usize].is_some() {
        MoveType::Capture
    } else {
        MoveType::Quiet
    };
    out.push(Move::new(Square(from as u8), Square(to as u8), kind));
}

/// Every pseudo-legal move of the side to move, early-game kinds only.
fn pseudo_moves(board: &Board) -> Vec<Move> {
    let side = board.side();
    let mut out = Vec::new();
    for from in 0..64i32 {
        let piece = match piece_at(board, from) {
            Some(p) if p.color() == side => p,
            _ => continue,
        };
        let (r, f) = (from / 8, from % 8);
        match piece.piece_type() {
            PieceType::Pawn => {
                let dir: i32 = if side == Color::White { 1 } else { -1 };
                let start_rank = if side == Color::White { 1 } else { 6 };
                let one = from + 8 * dir;
                if on_board(r + dir, f) && piece_at(board, one).is_none() {
                    out.push(Move::new(Square(from as u8), Square(one as u8), MoveType::Quiet));
                    let two = from + 16 * dir;
                    if r == start_rank && piece_at(board, two).is_none() {
                        out.push(Move::new(
                            Square(from as u8),
                            Square(two as u8),
                            MoveType::DoublePawn,
                        ));
                    }
                }
                for df in [-1, 1] {
                    if on_board(r + dir, f + df) {
                        let to = (r + dir) * 8 + f + df;
                        if matches!(piece_at(board, to), Some(q) if q.color() != side) {
                            out.push(Move::new(
                                Square(from as u8),
                                Square(to as u8),
                                MoveType::Capture,
                            ));
                        } else if board.enpassant_square == Some(Square(to as u8)) {
                            out.push(Move::new(
                                Square(from as u8),
                                Square(to as u8),
                                MoveType::EnPassant,
                            ));
                        }
                    }
                }
            },
            PieceType::Knight | PieceType::King => {
                let deltas: &[(i32, i32)] = if piece.piece_type() == PieceType::Knight {
                    &[(-2, -1), (-2, 1), (-1, -2), (-1, 2), (1, -2), (1, 2), (2, -1), (2, 1)]
                } else {
                    &[(-1, -1), (-1, 0), (-1, 1), (0, -1), (0, 1), (1, -1), (1, 0), (1, 1)]
                };
                for (dr, df) in deltas {
                    if on_board(r + dr, f + df) {
                        let to = (r + dr) * 8 + f + df;
                        if !matches!(piece_at(board, to), Some(q) if q.color() == side) {
                            push_move(&mut out, board, from, to);
                        }
                    }
                }
            },
            _ => {
                let dirs: &[(i32, i32)] = match piece.piece_type() {
                    PieceType::Bishop => &[(-1, -1), (-1, 1), (1, -1), (1, 1)],
                    PieceType::Rook => &[(-1, 0), (1, 0), (0, -1), (0, 1)],
                    _ => &[
                        (-1, -1),
                        (-1, 1),
                        (1, -1),
                        (1, 1),
                        (-1, 0),
                        (1, 0),
                        (0, -1),
                        (0, 1),
                    ],
                };
                for (dr, df) in dirs {
                    let (mut nr, mut nf) = (r + dr, f + df);
                    while on_board(nr, nf) {
                        let to = nr * 8 + nf;
                        match piece_at(board, to) {
                            Some(q) => {
                                if q.color() != side {
                                    push_move(&mut out, board, from, to);
                                }
                                break;
                            },
                            None => {
                                push_move(&mut out, board, from, to);
                            },
                        }
                        nr += dr;
                        nf += df;
                    }
                }
            },
        }
    }
    out
}

impl MoveGen for SimpleGen {
    fn gen_moves(&self, board: &Board) -> Vec<Move> {
        let mover = board.side();
        pseudo_moves(board)
            .into_iter()
            .filter(|mv| {
                if !is_move_ok(board, *mv) {
                    return false;
                }
                // Legal when the mover's king is not attacked afterwards.
                let mut child = board.make_move(*mv);
                child.side = mover;
                child.checkers().is_empty()
            })
            .collect()
    }
}

#[test]
fn perft_counts_from_start() {
    let board = Board::default();
    assert_eq!(inner_perft(&SimpleGen, &board, 1), Some(20));
    assert_eq!(inner_perft(&SimpleGen, &board, 2), Some(400));
    assert_eq!(inner_perft(&SimpleGen, &board, 3), Some(8902));
}

#[test]
fn perft_counts_from_endgame() {
    // A pawn endgame from the corpus, shallow enough to avoid promotion:
    // the known totals for the first plies.
    let board = Board::from_fen("8/2p5/3p4/KP5r/1R3p1k/8/4P1P1/8 w - - 0 1").unwrap();
    assert_eq!(inner_perft(&SimpleGen, &board, 1), Some(14));
    assert_eq!(inner_perft(&SimpleGen, &board, 2), Some(191));
}
