//! The mathematical model of a position and of the move transaction.
//!
//! A [`BoardModel`] is the ghost view of a [`crate::board::Board`]: plain
//! sequences in place of arrays, mathematical integers in place of machine
//! ones. The well-formedness predicate [`wf`] gathers the invariants a
//! reachable position satisfies; [`spec_make_move`] and [`spec_null_move`]
//! are the transitions the executable transactions are proved to implement.

use vstd::prelude::*;
use crate::attacks::spec_checkers;
use crate::bitboard::BitBoard;
use crate::castle_rights::{
    spec_rook_castling,
    CastleRights,
    CASTLE_BK,
    CASTLE_BQ,
    CASTLE_WK,
    CASTLE_WQ,
};
use crate::color::Color;
use crate::moves::{Move, MoveType};
use crate::piece::{Piece, PieceType};
use crate::square::Square;
use crate::zobrist::{key_castle, key_enpassant, key_piece_square, KEY_SIDE};

verus! {

/// The ghost view of a position.
#[verifier::ext_equal]
pub struct BoardModel {
    /// One set of squares per piece, indexed by the piece's packed value.
    pub pieces: Seq<BitBoard>,
    /// One set of squares per side, indexed by the color's value.
    pub sides: Seq<BitBoard>,
    /// The piece standing on each square, if any.
    pub piece_map: Seq<Option<Piece>>,
    /// The square a pawn just stepped over, if any.
    pub enpassant: Option<Square>,
    /// The castling rights.
    pub castling: CastleRights,
    /// Half-moves since the last capture or pawn move.
    pub fifty: int,
    /// The full-move number as read from the position's sixth FEN field.
    pub ply: int,
    /// The running position hash.
    pub zobrist: u64,
    /// The side to move.
    pub side: Color,
    /// The pieces giving check to the side to move.
    pub checkers: BitBoard,
}

/// The sequences have their fixed lengths.
pub open spec fn wf_shape(m: BoardModel) -> bool {
    &&& m.pieces.len() == 12
    &&& m.sides.len() == 2
    &&& m.piece_map.len() == 64
}

/// The color of the piece on a square, if any.
pub open spec fn color_at(m: BoardModel, i: int) -> Option<Color> {
    match m.piece_map[i] {
        Some(p) => Some(p.spec_color()),
        None => None,
    }
}

/// The piece bitboards, the side bitboards and the piece map describe one
/// and the same position.
pub open spec fn wf_placement(m: BoardModel) -> bool {
    &&& forall|i: int, p: Piece|
        0 <= i < 64 ==> (#[trigger] m.pieces[p.idx()].has(i) <==> m.piece_map[i] == Some(p))
    &&& forall|i: int|
        0 <= i < 64 ==> (#[trigger] m.sides[0].has(i) <==> color_at(m, i) == Some(Color::White))
    &&& forall|i: int|
        0 <= i < 64 ==> (#[trigger] m.sides[1].has(i) <==> color_at(m, i) == Some(Color::Black))
}

/// The counters lie in the ranges their machine types allow.
pub open spec fn wf_counters(m: BoardModel) -> bool {
    &&& 0 <= m.fifty <= 0x7FFF
    &&& 0 <= m.ply <= 0xFFFF
}

/// The en-passant square, when set, lies just behind a pawn that advanced
/// two: on rank 3 after a white advance, on rank 6 after a black one.
pub open spec fn wf_ep(m: BoardModel) -> bool {
    match m.enpassant {
        Some(s) => s.wf() && (s.rank_idx() == 2 || s.rank_idx() == 5),
        None => true,
    }
}

/// The key a square contributes to the hash: its piece's key, or nothing.
pub open spec fn key_of(o: Option<Piece>, i: int) -> u64 {
    match o {
        Some(p) => key_piece_square(p.idx(), i),
        None => 0,
    }
}

/// The hash of the pieces on squares below `n`.
pub open spec fn pieces_hash_below(pm: Seq<Option<Piece>>, n: int) -> u64
    decreases n,
{
    if n <= 0 {
        0
    } else {
        pieces_hash_below(pm, n - 1) ^ key_of(pm[n - 1], n - 1)
    }
}

/// The key the en-passant square contributes, or nothing.
pub open spec fn ep_hash(ep: Option<Square>) -> u64 {
    match ep {
        Some(s) => key_enpassant(s.idx()),
        None => 0,
    }
}

/// The key the side to move contributes: the side key exactly while white
/// is to move.
pub open spec fn side_hash(c: Color) -> u64 {
    if c == Color::White {
        KEY_SIDE
    } else {
        0
    }
}

/// The position hash recomputed from scratch: one key for each piece on its
/// square, one for the castling mask, one for the en-passant square if any,
/// and the side key while white is to move.
pub open spec fn board_hash(m: BoardModel) -> u64 {
    pieces_hash_below(m.piece_map, 64) ^ key_castle(m.castling.0 as int) ^ ep_hash(m.enpassant)
        ^ side_hash(m.side)
}

/// The running hash equals the hash recomputed from scratch.
pub open spec fn wf_hash(m: BoardModel) -> bool {
    m.zobrist == board_hash(m)
}

/// Each castling right still held is backed by its king and rook standing
/// on their home squares.
pub open spec fn castle_ok(m: BoardModel) -> bool {
    &&& m.castling.has(CASTLE_WK) ==> m.piece_map[4] == Some(Piece::WK) && m.piece_map[7] == Some(
        Piece::WR,
    )
    &&& m.castling.has(CASTLE_WQ) ==> m.piece_map[4] == Some(Piece::WK) && m.piece_map[0] == Some(
        Piece::WR,
    )
    &&& m.castling.has(CASTLE_BK) ==> m.piece_map[60] == Some(Piece::BK) && m.piece_map[63]
        == Some(Piece::BR)
    &&& m.castling.has(CASTLE_BQ) ==> m.piece_map[60] == Some(Piece::BK) && m.piece_map[56]
        == Some(Piece::BR)
}

/// A reachable position: consistent placement, counters and en-passant
/// square in range, a valid castling mask backed by the placement, and the
/// running hash equal to the recomputed one.
pub open spec fn wf(m: BoardModel) -> bool {
    &&& wf_shape(m)
    &&& wf_placement(m)
    &&& wf_counters(m)
    &&& wf_ep(m)
    &&& m.castling.wf()
    &&& castle_ok(m)
    &&& wf_hash(m)
}

/// The model after a piece is put on an empty square: its bitboard and its
/// side's gain the square, the map records it, the hash toggles its key.
pub open spec fn spec_set_piece(m: BoardModel, p: Piece, s: Square) -> BoardModel {
    BoardModel {
        pieces: m.pieces.update(p.idx(), BitBoard(m.pieces[p.idx()].0 | (1u64 << s.0))),
        sides: m.sides.update(
            p.spec_color().idx(),
            BitBoard(m.sides[p.spec_color().idx()].0 | (1u64 << s.0)),
        ),
        piece_map: m.piece_map.update(s.idx(), Some(p)),
        zobrist: m.zobrist ^ key_piece_square(p.idx(), s.idx()),
        ..m
    }
}

/// The model after the piece on an occupied square is taken off: the exact
/// inverse of [`spec_set_piece`] for the piece that was there.
pub open spec fn spec_remove_piece(m: BoardModel, s: Square) -> BoardModel {
    let p = m.piece_map[s.idx()]->Some_0;
    BoardModel {
        pieces: m.pieces.update(p.idx(), BitBoard(m.pieces[p.idx()].0 & !(1u64 << s.0))),
        sides: m.sides.update(
            p.spec_color().idx(),
            BitBoard(m.sides[p.spec_color().idx()].0 & !(1u64 << s.0)),
        ),
        piece_map: m.piece_map.update(s.idx(), None),
        zobrist: m.zobrist ^ key_piece_square(p.idx(), s.idx()),
        ..m
    }
}

/// What the move transaction asks of its move, given the position: the
/// squares differ, the mover's piece stands on the source, and the squares
/// the move touches hold what its kind assumes. Legal moves satisfy all of
/// it; the transaction is undefined on others.
pub open spec fn move_ok(m: BoardModel, mv: Move) -> bool {
    let src = mv.src.idx();
    let dest = mv.dest.idx();
    &&& mv.wf()
    &&& src != dest
    &&& m.piece_map[src] matches Some(p) && p.spec_color() == m.side
    &&& m.fifty < 0x7FFF
    &&& match mv.kind {
        MoveType::Quiet => m.piece_map[dest] is None,
        MoveType::DoublePawn => {
            &&& m.piece_map[src] == Some(Piece::spec_new(PieceType::Pawn, m.side))
            &&& m.piece_map[dest] is None
            &&& (if m.side == Color::White {
                mv.src.rank_idx() == 1 && dest == src + 16
            } else {
                mv.src.rank_idx() == 6 && dest == src - 16
            })
        },
        MoveType::KingCastle => {
            &&& m.piece_map[src] == Some(Piece::spec_new(PieceType::King, m.side))
            &&& (if m.side == Color::White {
                src == 4 && dest == 6
            } else {
                src == 60 && dest == 62
            })
            &&& m.piece_map[spec_rook_castling(mv.dest).0.idx()] == Some(
                Piece::spec_new(PieceType::Rook, m.side),
            )
            &&& m.piece_map[spec_rook_castling(mv.dest).1.idx()] is None
            &&& m.piece_map[dest] is None
        },
        MoveType::QueenCastle => {
            &&& m.piece_map[src] == Some(Piece::spec_new(PieceType::King, m.side))
            &&& (if m.side == Color::White {
                src == 4 && dest == 2
            } else {
                src == 60 && dest == 58
            })
            &&& m.piece_map[spec_rook_castling(mv.dest).0.idx()] == Some(
                Piece::spec_new(PieceType::Rook, m.side),
            )
            &&& m.piece_map[spec_rook_castling(mv.dest).1.idx()] is None
            &&& m.piece_map[dest] is None
        },
        MoveType::Capture => {
            &&& m.piece_map[dest] matches Some(q) && q.spec_color() == m.side.spec_opposite()
        },
        MoveType::EnPassant => {
            &&& m.piece_map[src] == Some(Piece::spec_new(PieceType::Pawn, m.side))
            &&& m.enpassant == Some(mv.dest)
            &&& m.piece_map[dest] is None
            &&& (if m.side == Color::White {
                mv.dest.rank_idx() == 5
            } else {
                mv.dest.rank_idx() == 2
            })
            &&& m.piece_map[mv.dest.spec_forward(m.side.spec_opposite()).idx()] == Some(
                Piece::spec_new(PieceType::Pawn, m.side.spec_opposite()),
            )
        },
        MoveType::PromotionKnight | MoveType::PromotionBishop | MoveType::PromotionRook
            | MoveType::PromotionQueen => {
            &&& m.piece_map[src] == Some(Piece::spec_new(PieceType::Pawn, m.side))
            &&& m.piece_map[dest] is None
            &&& (if m.side == Color::White {
                mv.src.rank_idx() == 6 && mv.dest.rank_idx() == 7
            } else {
                mv.src.rank_idx() == 1 && mv.dest.rank_idx() == 0
            })
        },
        MoveType::PromotionCaptureKnight | MoveType::PromotionCaptureBishop
            | MoveType::PromotionCaptureRook | MoveType::PromotionCaptureQueen => {
            &&& m.piece_map[src] == Some(Piece::spec_new(PieceType::Pawn, m.side))
            &&& (m.piece_map[dest] matches Some(q) && q.spec_color() == m.side.spec_opposite())
            &&& (if m.side == Color::White {
                mv.src.rank_idx() == 6 && mv.dest.rank_idx() == 7
            } else {
                mv.src.rank_idx() == 1 && mv.dest.rank_idx() == 0
            })
        },
    }
}

/// The placement half of the transaction: lift the piece off its source,
/// reset or advance the fifty-move counter, make the kind's auxiliary
/// change, and put the arriving piece down.
pub open spec fn spec_move_placed(m: BoardModel, mv: Move) -> BoardModel {
    let piece = m.piece_map[mv.src.idx()]->Some_0;
    let m1 = spec_remove_piece(m, mv.src);
    let m2 = BoardModel {
        fifty: if mv.kind.spec_is_capture() || piece.spec_piece_type() == PieceType::Pawn {
            0
        } else {
            m.fifty + 1
        },
        ..m1
    };
    let m3 = if mv.kind == MoveType::EnPassant {
        spec_remove_piece(m2, mv.dest.spec_forward(m.side.spec_opposite()))
    } else if mv.kind == MoveType::KingCastle || mv.kind == MoveType::QueenCastle {
        let rook = Piece::spec_new(PieceType::Rook, m.side);
        let pair = spec_rook_castling(mv.dest);
        spec_set_piece(spec_remove_piece(m2, pair.0), rook, pair.1)
    } else if mv.kind.spec_is_capture() {
        spec_remove_piece(m2, mv.dest)
    } else {
        m2
    };
    if mv.kind.spec_is_promotion() {
        spec_set_piece(m3, mv.spec_get_prom(m.side), mv.dest)
    } else {
        spec_set_piece(m3, piece, mv.dest)
    }
}

/// The bookkeeping half of the transaction, applied to the placement
/// half's result `m4`: clear and possibly set the en-passant square,
/// update the castling rights, give the move to the other side, recompute
/// the checkers.
pub open spec fn spec_move_tail(m: BoardModel, mv: Move, m4: BoardModel) -> BoardModel {
    let m5 = match m.enpassant {
        Some(sq) => BoardModel {
            enpassant: None,
            zobrist: m4.zobrist ^ key_enpassant(sq.idx()),
            ..m4
        },
        None => m4,
    };
    let m6 = if mv.kind == MoveType::DoublePawn {
        let target = mv.src.spec_forward(m.side);
        BoardModel {
            enpassant: Some(target),
            zobrist: m5.zobrist ^ key_enpassant(target.idx()),
            ..m5
        }
    } else {
        m5
    };
    let new_castling = m.castling.spec_update(mv.src, mv.dest);
    let m7 = BoardModel {
        castling: new_castling,
        zobrist: m6.zobrist ^ key_castle(m.castling.0 as int) ^ key_castle(new_castling.0 as int),
        ..m6
    };
    let m8 = BoardModel { side: m.side.spec_opposite(), zobrist: m7.zobrist ^ KEY_SIDE, ..m7 };
    BoardModel { checkers: BitBoard(spec_checkers(m8)), ..m8 }
}

/// The transaction as a whole: the placement half, then the bookkeeping
/// half.
pub open spec fn spec_make_move(m: BoardModel, mv: Move) -> BoardModel {
    spec_move_tail(m, mv, spec_move_placed(m, mv))
}

/// Two maps equal below `n` hash equally below `n`.
pub proof fn lemma_hash_congruence(a: Seq<Option<Piece>>, b: Seq<Option<Piece>>, n: int)
    requires
        forall|i: int| 0 <= i < n ==> a[i] == b[i],
    ensures
        pieces_hash_below(a, n) == pieces_hash_below(b, n),
    decreases n,
{
    if n > 0 {
        lemma_hash_congruence(a, b, n - 1);
    }
}

/// Changing one square of the map toggles the old and the new key of that
/// square out of and into the hash.
pub proof fn lemma_hash_update(pm: Seq<Option<Piece>>, j: int, v: Option<Piece>, n: int)
    requires
        0 <= j < n,
        n <= pm.len(),
    ensures
        pieces_hash_below(pm.update(j, v), n) == pieces_hash_below(pm, n) ^ key_of(pm[j], j)
            ^ key_of(v, j),
    decreases n,
{
    crate::bits::lemma_xor_algebra();
    let up = pm.update(j, v);
    if j == n - 1 {
        lemma_hash_congruence(up, pm, n - 1);
    } else {
        lemma_hash_update(pm, j, v, n - 1);
    }
}

/// Every piece has its own packed value.
pub proof fn lemma_piece_idx_injective()
    ensures
        forall|a: Piece, b: Piece| a.idx() == b.idx() ==> a == b,
{
}

/// Putting a piece on an empty square keeps the placement consistent,
/// keeps the running hash equal to the recomputed one, and changes no
/// other component.
pub proof fn lemma_set_piece(m: BoardModel, p: Piece, s: Square)
    requires
        wf_shape(m),
        wf_placement(m),
        s.wf(),
        m.piece_map[s.idx()] is None,
    ensures
        ({
            let mm = spec_set_piece(m, p, s);
            &&& wf_shape(mm)
            &&& wf_placement(mm)
            &&& pieces_hash_below(mm.piece_map, 64) == pieces_hash_below(m.piece_map, 64)
                ^ key_piece_square(p.idx(), s.idx())
            &&& wf_hash(m) ==> wf_hash(mm)
        }),
{
    crate::bits::lemma_xor_algebra();
    lemma_piece_idx_injective();
    let mm = spec_set_piece(m, p, s);
    let word = 1u64 << s.0;
    crate::bits::lemma_nth_single(s.0 as u64);
    crate::bits::lemma_nth_or(m.pieces[p.idx()].0, word);
    crate::bits::lemma_nth_or(m.sides[p.spec_color().idx()].0, word);
    assert forall|i: int, q: Piece| 0 <= i < 64 implies (#[trigger] mm.pieces[q.idx()].has(i)
        <==> mm.piece_map[i] == Some(q)) by {
        assert(m.pieces[q.idx()].has(i) <==> m.piece_map[i] == Some(q));
        if q.idx() == p.idx() {
            assert(q == p);
            assert(mm.pieces[q.idx()].0 == m.pieces[p.idx()].0 | word);
            assert(mm.pieces[q.idx()].has(i) <==> (m.pieces[p.idx()].has(i) || i == s.idx()));
            if i == s.idx() {
                assert(mm.piece_map[i] == Some(p));
            } else {
                assert(mm.piece_map[i] == m.piece_map[i]);
            }
        } else {
            assert(q != p);
            assert(mm.pieces[q.idx()] == m.pieces[q.idx()]);
            if i == s.idx() {
                assert(m.piece_map[i] is None);
                assert(!m.pieces[q.idx()].has(i));
                assert(mm.piece_map[i] == Some(p));
            } else {
                assert(mm.piece_map[i] == m.piece_map[i]);
            }
        }
    }
    assert forall|i: int| 0 <= i < 64 implies (#[trigger] mm.sides[0].has(i) <==> color_at(mm, i)
        == Some(Color::White)) by {
        assert(m.sides[0].has(i) <==> color_at(m, i) == Some(Color::White));
        if p.spec_color().idx() == 0 {
            assert(mm.sides[0].0 == m.sides[0].0 | word);
            assert(mm.sides[0].has(i) <==> (m.sides[0].has(i) || i == s.idx()));
        } else {
            assert(mm.sides[0] == m.sides[0]);
        }
        if i == s.idx() {
            assert(m.piece_map[i] is None);
            assert(color_at(m, i) is None);
            assert(mm.piece_map[i] == Some(p));
        } else {
            assert(mm.piece_map[i] == m.piece_map[i]);
            assert(color_at(mm, i) == color_at(m, i));
        }
    }
    assert forall|i: int| 0 <= i < 64 implies (#[trigger] mm.sides[1].has(i) <==> color_at(mm, i)
        == Some(Color::Black)) by {
        assert(m.sides[1].has(i) <==> color_at(m, i) == Some(Color::Black));
        if p.spec_color().idx() == 1 {
            assert(mm.sides[1].0 == m.sides[1].0 | word);
            assert(mm.sides[1].has(i) <==> (m.sides[1].has(i) || i == s.idx()));
        } else {
            assert(mm.sides[1] == m.sides[1]);
        }
        if i == s.idx() {
            assert(m.piece_map[i] is None);
            assert(color_at(m, i) is None);
            assert(mm.piece_map[i] == Some(p));
        } else {
            assert(mm.piece_map[i] == m.piece_map[i]);
            assert(color_at(mm, i) == color_at(m, i));
        }
    }
    lemma_hash_update(m.piece_map, s.idx(), Some(p), 64);
}

/// Taking the piece off an occupied square keeps the placement consistent,
/// keeps the running hash equal to the recomputed one, and changes no
/// other component.
pub proof fn lemma_remove_piece(m: BoardModel, s: Square)
    requires
        wf_shape(m),
        wf_placement(m),
        s.wf(),
        m.piece_map[s.idx()] is Some,
    ensures
        ({
            let p = m.piece_map[s.idx()]->Some_0;
            let mm = spec_remove_piece(m, s);
            &&& wf_shape(mm)
            &&& wf_placement(mm)
            &&& pieces_hash_below(mm.piece_map, 64) == pieces_hash_below(m.piece_map, 64)
                ^ key_piece_square(p.idx(), s.idx())
            &&& wf_hash(m) ==> wf_hash(mm)
        }),
{
    crate::bits::lemma_xor_algebra();
    lemma_piece_idx_injective();
    let p = m.piece_map[s.idx()]->Some_0;
    let mm = spec_remove_piece(m, s);
    let word = 1u64 << s.0;
    crate::bits::lemma_nth_single(s.0 as u64);
    crate::bits::lemma_nth_and(m.pieces[p.idx()].0, !word);
    crate::bits::lemma_nth_and(m.sides[p.spec_color().idx()].0, !word);
    crate::bits::lemma_nth_not(word);
    assert forall|i: int, q: Piece| 0 <= i < 64 implies (#[trigger] mm.pieces[q.idx()].has(i)
        <==> mm.piece_map[i] == Some(q)) by {
        assert(m.pieces[q.idx()].has(i) <==> m.piece_map[i] == Some(q));
        if q.idx() == p.idx() {
            assert(q == p);
            assert(mm.pieces[q.idx()].0 == m.pieces[p.idx()].0 & !word);
            assert(mm.pieces[q.idx()].has(i) <==> (m.pieces[p.idx()].has(i) && i != s.idx()));
            if i == s.idx() {
                assert(mm.piece_map[i] is None);
            } else {
                assert(mm.piece_map[i] == m.piece_map[i]);
            }
        } else {
            assert(q != p);
            assert(mm.pieces[q.idx()] == m.pieces[q.idx()]);
            if i == s.idx() {
                assert(m.piece_map[i] == Some(p));
                assert(!m.pieces[q.idx()].has(i));
                assert(mm.piece_map[i] is None);
            } else {
                assert(mm.piece_map[i] == m.piece_map[i]);
            }
        }
    }
    assert forall|i: int| 0 <= i < 64 implies (#[trigger] mm.sides[0].has(i) <==> color_at(mm, i)
        == Some(Color::White)) by {
        assert(m.sides[0].has(i) <==> color_at(m, i) == Some(Color::White));
        if p.spec_color().idx() == 0 {
            assert(mm.sides[0].0 == m.sides[0].0 & !word);
            assert(mm.sides[0].has(i) <==> (m.sides[0].has(i) && i != s.idx()));
        } else {
            assert(mm.sides[0] == m.sides[0]);
        }
        if i == s.idx() {
            assert(m.piece_map[i] == Some(p));
            assert(color_at(m, i) == Some(p.spec_color()));
            assert(mm.piece_map[i] is None);
        } else {
            assert(mm.piece_map[i] == m.piece_map[i]);
            assert(color_at(mm, i) == color_at(m, i));
        }
    }
    assert forall|i: int| 0 <= i < 64 implies (#[trigger] mm.sides[1].has(i) <==> color_at(mm, i)
        == Some(Color::Black)) by {
        assert(m.sides[1].has(i) <==> color_at(m, i) == Some(Color::Black));
        if p.spec_color().idx() == 1 {
            assert(mm.sides[1].0 == m.sides[1].0 & !word);
            assert(mm.sides[1].has(i) <==> (m.sides[1].has(i) && i != s.idx()));
        } else {
            assert(mm.sides[1] == m.sides[1]);
        }
        if i == s.idx() {
            assert(m.piece_map[i] == Some(p));
            assert(color_at(m, i) == Some(p.spec_color()));
            assert(mm.piece_map[i] is None);
        } else {
            assert(mm.piece_map[i] == m.piece_map[i]);
            assert(color_at(mm, i) == color_at(m, i));
        }
    }
    lemma_hash_update(m.piece_map, s.idx(), None, 64);
}

/// The squares the kind's auxiliary change touches: the taken pawn's
/// square of an en-passant capture, or the rook's two squares of a
/// castling move.
pub open spec fn aux_touched(m: BoardModel, mv: Move, t: int) -> bool {
    if mv.kind == MoveType::EnPassant {
        t == mv.dest.spec_forward(m.side.spec_opposite()).idx()
    } else if mv.kind == MoveType::KingCastle || mv.kind == MoveType::QueenCastle {
        t == spec_rook_castling(mv.dest).0.idx() || t == spec_rook_castling(mv.dest).1.idx()
    } else {
        false
    }
}

/// The null move: the other side is to move, the en-passant square is
/// cleared, the checkers are cleared; nothing else changes.
pub open spec fn spec_null_move(m: BoardModel) -> BoardModel {
    let m1 = BoardModel { side: m.side.spec_opposite(), zobrist: m.zobrist ^ KEY_SIDE, ..m };
    let m2 = match m.enpassant {
        Some(sq) => BoardModel {
            enpassant: None,
            zobrist: m1.zobrist ^ key_enpassant(sq.idx()),
            ..m1
        },
        None => m1,
    };
    BoardModel { checkers: BitBoard(0), ..m2 }
}

} // verus!
