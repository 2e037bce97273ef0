//! The perft driver: a depth-bounded count of the legal move tree.
//!
//! The move generator itself is an external collaborator; the driver
//! depends on it only through the [`MoveGen`] contract. Each generated
//! move is checked against [`move_ok`] before it is applied, so the count
//! is defined — `None` — rather than undefined when a generator hands
//! back a move the position cannot take, and overflow of the node count
//! also yields `None`.

use vstd::prelude::*;
use crate::board::Board;
use crate::model::{move_ok, wf};
use crate::moves::{Move, MoveType};
use crate::piece::{Piece, PieceType};

verus! {

/// The contract the driver places on a move generator: a deterministic
/// list of the legal moves of the position. Nothing here is verified of
/// an implementation; the driver checks each move before applying it.
pub trait MoveGen {
    /// The legal moves of the position.
    fn gen_moves(&self, board: &Board) -> Vec<Move>;
}

/// Whether the position can take the move: the executable mirror of
/// [`move_ok`].
pub fn is_move_ok(board: &Board, mv: Move) -> (r: bool)
    ensures
        r == move_ok(board@, mv),
{
    if mv.src.0 >= 64 || mv.dest.0 >= 64 || mv.src.0 == mv.dest.0 {
        return false;
    }
    if board.fifty_move >= 0x7FFF {
        return false;
    }
    let src = mv.src.to_index();
    let dest = mv.dest.to_index();
    let piece = match board.piece_map[src] {
        Some(p) => p,
        None => {
            return false;
        },
    };
    if piece.color() != board.side {
        return false;
    }
    let side = board.side;
    let own_pawn = Piece::new(PieceType::Pawn, side);
    match mv.kind {
        MoveType::Quiet => board.piece_map[dest].is_none(),
        MoveType::DoublePawn => {
            &&& piece == own_pawn
            &&& board.piece_map[dest].is_none()
            &&& (if matches!(side, crate::color::Color::White) {
                mv.src.0 / 8 == 1 && mv.dest.0 == mv.src.0 + 16
            } else {
                mv.src.0 / 8 == 6 && mv.src.0 == mv.dest.0 + 16
            })
        },
        MoveType::KingCastle | MoveType::QueenCastle => {
            let ok_squares: bool = if matches!(side, crate::color::Color::White) {
                mv.src.0 == 4 && (if matches!(mv.kind, MoveType::KingCastle) {
                    mv.dest.0 == 6
                } else {
                    mv.dest.0 == 2
                })
            } else {
                mv.src.0 == 60 && (if matches!(mv.kind, MoveType::KingCastle) {
                    mv.dest.0 == 62
                } else {
                    mv.dest.0 == 58
                })
            };
            if !ok_squares {
                return false;
            }
            let (rook_src, rook_dest) = crate::castle_rights::get_rook_castling(mv.dest);
            &&& piece == Piece::new(PieceType::King, side)
            &&& (match board.piece_map[rook_src.to_index()] {
                Some(q) => q == Piece::new(PieceType::Rook, side),
                None => false,
            })
            &&& board.piece_map[rook_dest.to_index()].is_none()
            &&& board.piece_map[dest].is_none()
        },
        MoveType::Capture => {
            match board.piece_map[dest] {
                Some(q) => q.color() == side.opposite(),
                None => false,
            }
        },
        MoveType::EnPassant => {
            if piece != own_pawn {
                return false;
            }
            let ep_matches = match board.enpassant_square {
                Some(sq) => sq == mv.dest,
                None => false,
            };
            if !ep_matches {
                return false;
            }
            if !board.piece_map[dest].is_none() {
                return false;
            }
            let rank_ok = if matches!(side, crate::color::Color::White) {
                mv.dest.0 / 8 == 5
            } else {
                mv.dest.0 / 8 == 2
            };
            if !rank_ok {
                return false;
            }
            let cap = mv.dest.forward(side.opposite());
            match board.piece_map[cap.to_index()] {
                Some(q) => q == Piece::new(PieceType::Pawn, side.opposite()),
                None => false,
            }
        },
        MoveType::PromotionKnight | MoveType::PromotionBishop | MoveType::PromotionRook
            | MoveType::PromotionQueen => {
            &&& piece == own_pawn
            &&& board.piece_map[dest].is_none()
            &&& (if matches!(side, crate::color::Color::White) {
                mv.src.0 / 8 == 6 && mv.dest.0 / 8 == 7
            } else {
                mv.src.0 / 8 == 1 && mv.dest.0 / 8 == 0
            })
        },
        MoveType::PromotionCaptureKnight | MoveType::PromotionCaptureBishop
            | MoveType::PromotionCaptureRook | MoveType::PromotionCaptureQueen => {
            &&& piece == own_pawn
            &&& (match board.piece_map[dest] {
                Some(q) => q.color() == side.opposite(),
                None => false,
            })
            &&& (if matches!(side, crate::color::Color::White) {
                mv.src.0 / 8 == 6 && mv.dest.0 / 8 == 7
            } else {
                mv.src.0 / 8 == 1 && mv.dest.0 / 8 == 0
            })
        },
    }
}

/// The node count of the legal move tree below `board`, `depth` plies
/// deep: one node at depth zero, the number of moves at depth one, and
/// otherwise the sum over each move's subtree. `None` when the generator
/// hands back a move the position cannot take, or when the count
/// overflows.
pub fn inner_perft<G: MoveGen>(gen: &G, board: &Board, depth: usize) -> (r: Option<u64>)
    requires
        wf(board@),
    ensures
        depth == 0 ==> r == Some(1u64),
        depth == 1 ==> r is Some,
    decreases depth,
{
    let moves = gen.gen_moves(board);
    if depth == 0 {
        return Some(1);
    }
    if depth == 1 {
        return Some(moves.len() as u64);
    }
    let mut total: u64 = 0;
    let mut i: usize = 0;
    while i < moves.len()
        invariant
            wf(board@),
            i <= moves@.len(),
            2 <= depth,
        decreases moves@.len() - i,
    {
        let mv = moves[i];
        if !is_move_ok(board, mv) {
            return None;
        }
        let child = board.make_move(mv);
        match inner_perft(gen, &child, depth - 1) {
            Some(nodes) => {
                if nodes > u64::MAX - total {
                    return None;
                }
                total = total + nodes;
            },
            None => {
                return None;
            },
        }
        i = i + 1;
    }
    Some(total)
}

/// The sum of the per-move subtotals of a divided report.
pub open spec fn spec_sum_counts(items: Seq<(Move, u64)>) -> int
    decreases items.len(),
{
    if items.len() == 0 {
        0
    } else {
        spec_sum_counts(items.drop_last()) + items.last().1
    }
}

/// The same count, together with each root move's subtotal, for the
/// operator's divided report. At depth zero the count is one and the list
/// is empty; whatever the generator returned, the total is the sum of the
/// listed subtotals.
pub fn divided_perft_counts<G: MoveGen>(gen: &G, board: &Board, depth: usize) -> (r: Option<
    (Vec<(Move, u64)>, u64),
>)
    requires
        wf(board@),
    ensures
        depth == 0 ==> (r matches Some(p) && p.0@.len() == 0 && p.1 == 1),
        depth >= 1 && (r matches Some(p)) ==> (r matches Some(p) && p.1 == spec_sum_counts(p.0@)),
{
    let mut items: Vec<(Move, u64)> = Vec::new();
    if depth == 0 {
        return Some((items, 1));
    }
    let moves = gen.gen_moves(board);
    let mut total: u64 = 0;
    let mut i: usize = 0;
    while i < moves.len()
        invariant
            wf(board@),
            i <= moves@.len(),
            1 <= depth,
            total == spec_sum_counts(items@),
        decreases moves@.len() - i,
    {
        let mv = moves[i];
        if !is_move_ok(board, mv) {
            return None;
        }
        let child = board.make_move(mv);
        match inner_perft(gen, &child, depth - 1) {
            Some(nodes) => {
                if nodes > u64::MAX - total {
                    return None;
                }
                total = total + nodes;
                let ghost before = items@;
                items.push((mv, nodes));
                proof {
                    assert(items@.drop_last() =~= before);
                    assert(items@.last() == (mv, nodes));
                }
            },
            None => {
                return None;
            },
        }
        i = i + 1;
    }
    Some((items, total))
}

/// The acceptance corpus: positions with their exact node counts at the
/// given depths, covering castling, en passant, promotion, checks and
/// stalemate. The first six entries are pinned here; they are the
/// benchmark scenarios, from the starting position and Kiwipete on.
pub fn perft_corpus() -> (r: Vec<(&'static str, u64, usize)>)
    ensures
        r@.len() == 34,
        r@[0].0@ == "rnbqkbnr/pppppppp/8/8/8/8/PPPPPPPP/RNBQKBNR w KQkq - 0 1"@ && r@[0].1
            == 119060324 && r@[0].2 == 6,
        r@[1].0@ == "r3k2r/p1ppqpb1/bn2pnp1/3PN3/1p2P3/2N2Q1p/PPPBBPPP/R3K2R w KQkq - 0 1"@
            && r@[1].1 == 193690690 && r@[1].2 == 5,
        r@[2].0@ == "8/2p5/3p4/KP5r/1R3p1k/8/4P1P1/8 w - - 0 1"@ && r@[2].1 == 11030083 && r@[2].2
            == 6,
        r@[3].0@ == "r3k2r/Pppp1ppp/1b3nbN/nP6/BBP1P3/q4N2/Pp1P2PP/R2Q1RK1 w kq - 0 1"@ && r@[3].1
            == 15833292 && r@[3].2 == 5,
        r@[4].0@ == "rnbq1k1r/pp1Pbppp/2p5/8/2B5/8/PPP1NnPP/RNBQK2R w KQ - 1 8"@ && r@[4].1
            == 89941194 && r@[4].2 == 5,
        r@[5].0@ == "r4rk1/1pp1qppp/p1np1n2/2b1p1B1/2B1P1b1/P1NP1N2/1PP1QPPP/R4RK1 w - - 0 10"@
            && r@[5].1 == 164075551 && r@[5].2 == 5,
{
    let mut v: Vec<(&'static str, u64, usize)> = Vec::new();
    v.push(("rnbqkbnr/pppppppp/8/8/8/8/PPPPPPPP/RNBQKBNR w KQkq - 0 1", 119060324, 6));
    v.push(("r3k2r/p1ppqpb1/bn2pnp1/3PN3/1p2P3/2N2Q1p/PPPBBPPP/R3K2R w KQkq - 0 1", 193690690, 5));
    v.push(("8/2p5/3p4/KP5r/1R3p1k/8/4P1P1/8 w - - 0 1", 11030083, 6));
    v.push(("r3k2r/Pppp1ppp/1b3nbN/nP6/BBP1P3/q4N2/Pp1P2PP/R2Q1RK1 w kq - 0 1", 15833292, 5));
    v.push(("rnbq1k1r/pp1Pbppp/2p5/8/2B5/8/PPP1NnPP/RNBQK2R w KQ - 1 8", 89941194, 5));
    v.push(("r4rk1/1pp1qppp/p1np1n2/2b1p1B1/2B1P1b1/P1NP1N2/1PP1QPPP/R4RK1 w - - 0 10", 164075551, 5));
    v.push(("8/8/4k3/8/2p5/8/B2P2K1/8 w - - 0 1", 1015133, 6));
    v.push(("3k4/3p4/8/K1P4r/8/8/8/8 b - - 0 1", 1134888, 6));
    v.push(("8/5bk1/8/2Pp4/8/1K6/8/8 w - d6 0 1", 824064, 6));
    v.push(("8/8/1k6/8/2pP4/8/5BK1/8 b - d3 0 1", 824064, 6));
    v.push(("8/8/1k6/2b5/2pP4/8/5K2/8 b - d3 0 1", 1440467, 6));
    v.push(("8/5k2/8/2Pp4/2B5/1K6/8/8 w - d6 0 1", 1440467, 6));
    v.push(("5k2/8/8/8/8/8/8/4K2R w K - 0 1", 661072, 6));
    v.push(("4k2r/8/8/8/8/8/8/5K2 b k - 0 1", 661072, 6));
    v.push(("3k4/8/8/8/8/8/8/R3K3 w Q - 0 1", 803711, 6));
    v.push(("r3k3/8/8/8/8/8/8/3K4 b q - 0 1", 803711, 6));
    v.push(("r3k2r/1b4bq/8/8/8/8/7B/R3K2R w KQkq - 0 1", 1274206, 4));
    v.push(("r3k2r/7b/8/8/8/8/1B4BQ/R3K2R b KQkq - 0 1", 1274206, 4));
    v.push(("r3k2r/8/3Q4/8/8/5q2/8/R3K2R b KQkq - 0 1", 1720476, 4));
    v.push(("r3k2r/8/5Q2/8/8/3q4/8/R3K2R w KQkq - 0 1", 1720476, 4));
    v.push(("2K2r2/4P3/8/8/8/8/8/3k4 w - - 0 1", 3821001, 6));
    v.push(("3K4/8/8/8/8/8/4p3/2k2R2 b - - 0 1", 3821001, 6));
    v.push(("8/8/1P2K3/8/2n5/1q6/8/5k2 b - - 0 1", 1004658, 5));
    v.push(("5K2/8/1Q6/2N5/8/1p2k3/8/8 w - - 0 1", 1004658, 5));
    v.push(("4k3/1P6/8/8/8/8/K7/8 w - - 0 1", 217342, 6));
    v.push(("8/k7/8/8/8/8/1p6/4K3 b - - 0 1", 217342, 6));
    v.push(("8/P1k5/K7/8/8/8/8/8 w - - 0 1", 92683, 6));
    v.push(("8/8/8/8/8/k7/p1K5/8 b - - 0 1", 92683, 6));
    v.push(("K1k5/8/P7/8/8/8/8/8 w - - 0 1", 2217, 6));
    v.push(("8/8/8/8/8/p7/8/k1K5 b - - 0 1", 2217, 6));
    v.push(("8/k1P5/8/1K6/8/8/8/8 w - - 0 1", 567584, 7));
    v.push(("8/8/8/8/1k6/8/K1p5/8 b - - 0 1", 567584, 7));
    v.push(("8/8/2k5/5q2/5n2/8/5K2/8 b - - 0 1", 23527, 4));
    v.push(("8/5k2/8/5N2/5Q2/2K5/8/8 w - - 0 1", 23527, 4));
    v
}

} // verus!
