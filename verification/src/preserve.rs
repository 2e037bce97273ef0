//! Preservation of the position invariants by the move transactions.
//!
//! The placement half of a move is handled one move kind at a time, the
//! bookkeeping half once for all kinds; together they show that the
//! transaction carries a well-formed position to a well-formed position.

use vstd::prelude::*;
use crate::color::Color;
use crate::model::{
    aux_touched,
    board_hash,
    castle_ok,
    ep_hash,
    pieces_hash_below,
    lemma_remove_piece,
    lemma_set_piece,
    move_ok,
    side_hash,
    spec_make_move,
    spec_move_placed,
    spec_move_tail,
    spec_null_move,
    spec_remove_piece,
    spec_set_piece,
    wf,
    wf_counters,
    wf_ep,
    wf_hash,
    wf_placement,
    wf_shape,
    BoardModel,
};
use crate::castle_rights::{
    spec_keep_mask,
    spec_rook_castling,
    CASTLE_BK,
    CASTLE_BQ,
    CASTLE_WK,
    CASTLE_WQ,
};
use crate::moves::{Move, MoveType};
use crate::piece::{Piece, PieceType};
use crate::zobrist::{key_castle, key_enpassant, KEY_SIDE};

verus! {

/// What the placement half leaves behind: consistent placement, the hash
/// in step, the bookkeeping fields untouched, and every square the move
/// does not touch unchanged.
pub open spec fn placed_ok(m: BoardModel, mv: Move, m4: BoardModel) -> bool {
    &&& wf_shape(m4)
    &&& wf_placement(m4)
    &&& wf_hash(m4)
    &&& m4.enpassant == m.enpassant
    &&& m4.castling == m.castling
    &&& m4.side == m.side
    &&& m4.ply == m.ply
    &&& 0 <= m4.fifty <= 0x7FFF
    &&& forall|t: int|
        0 <= t < 64 && t != mv.src.idx() && t != mv.dest.idx() && !aux_touched(m, mv, t)
            ==> m4.piece_map[t] == m.piece_map[t]
}

/// The placement half of a move with no capture and no auxiliary change:
/// a quiet move, a double pawn advance, or a plain promotion.
#[verifier::spinoff_prover]
proof fn lemma_placed_basic(m: BoardModel, mv: Move)
    requires
        wf(m),
        move_ok(m, mv),
        mv.kind == MoveType::Quiet || mv.kind == MoveType::DoublePawn || mv.kind
            == MoveType::PromotionKnight || mv.kind == MoveType::PromotionBishop || mv.kind
            == MoveType::PromotionRook || mv.kind == MoveType::PromotionQueen,
    ensures
        placed_ok(m, mv, spec_move_placed(m, mv)),
{
    let piece = m.piece_map[mv.src.idx()]->Some_0;
    let m1 = spec_remove_piece(m, mv.src);
    lemma_remove_piece(m, mv.src);
    let m2 = BoardModel {
        fifty: if mv.kind.spec_is_capture() || piece.spec_piece_type() == PieceType::Pawn {
            0
        } else {
            m.fifty + 1
        },
        ..m1
    };
    assert(wf_shape(m2) && wf_placement(m2) && wf_hash(m2));
    let arriving = if mv.kind.spec_is_promotion() {
        mv.spec_get_prom(m.side)
    } else {
        piece
    };
    assert(m2.piece_map[mv.dest.idx()] is None);
    lemma_set_piece(m2, arriving, mv.dest);
    assert(spec_move_placed(m, mv) == spec_set_piece(m2, arriving, mv.dest));
}

/// The placement half of a plain or promoting capture: the occupant of the
/// destination square leaves first.
#[verifier::spinoff_prover]
proof fn lemma_placed_capture(m: BoardModel, mv: Move)
    requires
        wf(m),
        move_ok(m, mv),
        mv.kind == MoveType::Capture || mv.kind == MoveType::PromotionCaptureKnight || mv.kind
            == MoveType::PromotionCaptureBishop || mv.kind == MoveType::PromotionCaptureRook
            || mv.kind == MoveType::PromotionCaptureQueen,
    ensures
        placed_ok(m, mv, spec_move_placed(m, mv)),
{
    let piece = m.piece_map[mv.src.idx()]->Some_0;
    let m1 = spec_remove_piece(m, mv.src);
    lemma_remove_piece(m, mv.src);
    let m2 = BoardModel { fifty: 0, ..m1 };
    assert(wf_shape(m2) && wf_placement(m2) && wf_hash(m2));
    assert(m2.piece_map[mv.dest.idx()] is Some);
    lemma_remove_piece(m2, mv.dest);
    let m3 = spec_remove_piece(m2, mv.dest);
    let arriving = if mv.kind.spec_is_promotion() {
        mv.spec_get_prom(m.side)
    } else {
        piece
    };
    assert(m3.piece_map[mv.dest.idx()] is None);
    lemma_set_piece(m3, arriving, mv.dest);
    assert(spec_move_placed(m, mv) == spec_set_piece(m3, arriving, mv.dest));
}

/// The placement half of an en-passant capture: the taken pawn stands
/// beside the destination, one rank toward the mover.
#[verifier::spinoff_prover]
proof fn lemma_placed_enpassant(m: BoardModel, mv: Move)
    requires
        wf(m),
        move_ok(m, mv),
        mv.kind == MoveType::EnPassant,
    ensures
        placed_ok(m, mv, spec_move_placed(m, mv)),
{
    let piece = m.piece_map[mv.src.idx()]->Some_0;
    let m1 = spec_remove_piece(m, mv.src);
    lemma_remove_piece(m, mv.src);
    let m2 = BoardModel { fifty: 0, ..m1 };
    assert(wf_shape(m2) && wf_placement(m2) && wf_hash(m2));
    let cap = mv.dest.spec_forward(m.side.spec_opposite());
    assert(8 <= cap.idx() < 48 && cap.idx() != mv.src.idx() && cap.idx() != mv.dest.idx());
    assert(m2.piece_map[cap.idx()] is Some);
    lemma_remove_piece(m2, cap);
    let m3 = spec_remove_piece(m2, cap);
    assert(m3.piece_map[mv.dest.idx()] is None);
    lemma_set_piece(m3, piece, mv.dest);
    assert(spec_move_placed(m, mv) == spec_set_piece(m3, piece, mv.dest));
}

/// The placement half of a castling move: the king crosses two files and
/// the rook jumps to the square beside it.
#[verifier::spinoff_prover]
proof fn lemma_placed_castle(m: BoardModel, mv: Move)
    requires
        wf(m),
        move_ok(m, mv),
        mv.kind == MoveType::KingCastle || mv.kind == MoveType::QueenCastle,
    ensures
        placed_ok(m, mv, spec_move_placed(m, mv)),
{
    let piece = m.piece_map[mv.src.idx()]->Some_0;
    let m1 = spec_remove_piece(m, mv.src);
    lemma_remove_piece(m, mv.src);
    let m2 = BoardModel { fifty: m.fifty + 1, ..m1 };
    assert(wf_shape(m2) && wf_placement(m2) && wf_hash(m2));
    let rook = Piece::spec_new(PieceType::Rook, m.side);
    let pair = spec_rook_castling(mv.dest);
    assert(pair.0.idx() != mv.src.idx() && pair.0.idx() != mv.dest.idx());
    assert(m2.piece_map[pair.0.idx()] is Some);
    lemma_remove_piece(m2, pair.0);
    let mr = spec_remove_piece(m2, pair.0);
    assert(mr.piece_map[pair.1.idx()] is None);
    lemma_set_piece(mr, rook, pair.1);
    let m3 = spec_set_piece(mr, rook, pair.1);
    assert(wf_shape(m3) && wf_placement(m3) && wf_hash(m3));
    assert(m3.piece_map[mv.dest.idx()] is None);
    lemma_set_piece(m3, piece, mv.dest);
    assert(spec_move_placed(m, mv) == spec_set_piece(m3, piece, mv.dest));
}

/// The placement half of any admissible move keeps the placement
/// consistent and the hash in step, and touches only the move's squares.
pub proof fn lemma_move_placed(m: BoardModel, mv: Move)
    requires
        wf(m),
        move_ok(m, mv),
    ensures
        placed_ok(m, mv, spec_move_placed(m, mv)),
{
    match mv.kind {
        MoveType::Quiet | MoveType::DoublePawn | MoveType::PromotionKnight
            | MoveType::PromotionBishop | MoveType::PromotionRook | MoveType::PromotionQueen => {
            lemma_placed_basic(m, mv);
        },
        MoveType::Capture | MoveType::PromotionCaptureKnight | MoveType::PromotionCaptureBishop
            | MoveType::PromotionCaptureRook | MoveType::PromotionCaptureQueen => {
            lemma_placed_capture(m, mv);
        },
        MoveType::EnPassant => {
            lemma_placed_enpassant(m, mv);
        },
        MoveType::KingCastle | MoveType::QueenCastle => {
            lemma_placed_castle(m, mv);
        },
    }
}

/// The hash algebra of the bookkeeping half, over bare words: toggling the
/// old en-passant key out, the new one in, both castling keys and the side
/// key retargets a consistent hash to the new components.
proof fn lemma_tail_hash_math(z: u64, p: u64, c: u64, c2: u64, eo: u64, en: u64, s: u64, s2: u64)
    by (bit_vector)
    requires
        z == ((p ^ c) ^ eo) ^ s,
    ensures
        ((((z ^ eo) ^ en) ^ c) ^ c2) ^ (s ^ s2) == ((p ^ c2) ^ en) ^ s2,
{
}

/// The bookkeeping half keeps everything but the backing of the castling
/// rights, over any placement result that satisfies [`placed_ok`].
#[verifier::rlimit(60)]
#[verifier::spinoff_prover]
proof fn lemma_tail_wf(m: BoardModel, mv: Move, m4: BoardModel)
    requires
        wf(m),
        move_ok(m, mv),
        placed_ok(m, mv, m4),
    ensures
        ({
            let fin = spec_move_tail(m, mv, m4);
            &&& wf_shape(fin)
            &&& wf_placement(fin)
            &&& wf_counters(fin)
            &&& wf_ep(fin)
            &&& fin.castling.wf()
            &&& wf_hash(fin)
        }),
{
    let fin = spec_move_tail(m, mv, m4);
    let new_castling = m.castling.spec_update(mv.src, mv.dest);
    assert(fin.pieces == m4.pieces && fin.sides == m4.sides && fin.piece_map == m4.piece_map);
    assert(fin.fifty == m4.fifty && fin.ply == m4.ply);
    assert(fin.castling == new_castling && fin.side == m.side.spec_opposite());
    assert(wf_shape(fin));
    assert(wf_placement(fin));
    assert(wf_counters(fin));
    assert(wf_ep(fin));
    assert(new_castling.wf()) by {
        crate::castle_rights::lemma_and_mask_mono();
    }
    let p = pieces_hash_below(m4.piece_map, 64);
    let c = key_castle(m.castling.0 as int);
    let c2 = key_castle(new_castling.0 as int);
    let eo = ep_hash(m.enpassant);
    let en = ep_hash(fin.enpassant);
    let s = side_hash(m.side);
    let s2 = side_hash(fin.side);
    assert(m4.zobrist == ((p ^ c) ^ eo) ^ s);
    lemma_tail_hash_math(m4.zobrist, p, c, c2, eo, en, s, s2);
    assert(KEY_SIDE == s ^ s2) by {
        crate::bits::lemma_xor_algebra();
        if m.side == Color::White {
            assert(s == KEY_SIDE && s2 == 0);
        } else {
            assert(s == 0 && s2 == KEY_SIDE);
        }
    }
    assert(fin.zobrist == (((m4.zobrist ^ eo) ^ en) ^ c) ^ c2 ^ (s ^ s2)) by {
        crate::bits::lemma_xor_algebra();
        let m6z = if mv.kind == MoveType::DoublePawn {
            match m.enpassant {
                Some(sq) => (m4.zobrist ^ key_enpassant(sq.idx())) ^ en,
                None => m4.zobrist ^ en,
            }
        } else {
            match m.enpassant {
                Some(sq) => m4.zobrist ^ key_enpassant(sq.idx()),
                None => m4.zobrist,
            }
        };
        assert(fin.zobrist == ((m6z ^ c) ^ c2) ^ KEY_SIDE);
        assert(m6z == (m4.zobrist ^ eo) ^ en);
    }
    assert(board_hash(fin) == ((p ^ c2) ^ en) ^ s2);
    assert(wf_hash(fin));
}

/// Where a castling right survives the rights update, the move touched
/// neither its king home nor its rook home square, so the right stays
/// backed after the transaction.
#[verifier::spinoff_prover]
proof fn lemma_tail_castle_ok(m: BoardModel, mv: Move, m4: BoardModel)
    requires
        wf(m),
        move_ok(m, mv),
        placed_ok(m, mv, m4),
    ensures
        castle_ok(spec_move_tail(m, mv, m4)),
{
    crate::castle_rights::lemma_and_mask_mono();
    crate::castle_rights::lemma_keep_mask_bits();
    let src = mv.src;
    let dest = mv.dest;
    let fin = spec_move_tail(m, mv, m4);
    assert(fin.piece_map == m4.piece_map);
    let kc = spec_keep_mask(src);
    let kd = spec_keep_mask(dest);
    assert(fin.castling.0 == (m.castling.0 & kc) & kd);
    if mv.kind == MoveType::EnPassant {
        let cap = mv.dest.spec_forward(m.side.spec_opposite());
        assert(8 <= cap.idx() < 48);
    }
    if fin.castling.has(CASTLE_WK) {
        assert(m.castling.0 & CASTLE_WK != 0 && kc & CASTLE_WK != 0 && kd & CASTLE_WK != 0);
        assert(src.idx() != 4 && src.idx() != 7 && dest.idx() != 4 && dest.idx() != 7);
        assert(!aux_touched(m, mv, 4) && !aux_touched(m, mv, 7));
        assert(fin.piece_map[4] == m.piece_map[4] && fin.piece_map[7] == m.piece_map[7]);
    }
    if fin.castling.has(CASTLE_WQ) {
        assert(m.castling.0 & CASTLE_WQ != 0 && kc & CASTLE_WQ != 0 && kd & CASTLE_WQ != 0);
        assert(src.idx() != 4 && src.idx() != 0 && dest.idx() != 4 && dest.idx() != 0);
        assert(!aux_touched(m, mv, 4) && !aux_touched(m, mv, 0));
        assert(fin.piece_map[4] == m.piece_map[4] && fin.piece_map[0] == m.piece_map[0]);
    }
    if fin.castling.has(CASTLE_BK) {
        assert(m.castling.0 & CASTLE_BK != 0 && kc & CASTLE_BK != 0 && kd & CASTLE_BK != 0);
        assert(src.idx() != 60 && src.idx() != 63 && dest.idx() != 60 && dest.idx() != 63);
        assert(!aux_touched(m, mv, 60) && !aux_touched(m, mv, 63));
        assert(fin.piece_map[60] == m.piece_map[60] && fin.piece_map[63] == m.piece_map[63]);
    }
    if fin.castling.has(CASTLE_BQ) {
        assert(m.castling.0 & CASTLE_BQ != 0 && kc & CASTLE_BQ != 0 && kd & CASTLE_BQ != 0);
        assert(src.idx() != 60 && src.idx() != 56 && dest.idx() != 60 && dest.idx() != 56);
        assert(!aux_touched(m, mv, 60) && !aux_touched(m, mv, 56));
        assert(fin.piece_map[60] == m.piece_map[60] && fin.piece_map[56] == m.piece_map[56]);
    }
}

/// A move that satisfies [`move_ok`] takes a well-formed position to a
/// well-formed position: the invariants of [`wf`] are preserved by the
/// whole transaction.
pub proof fn lemma_make_move_wf(m: BoardModel, mv: Move)
    requires
        wf(m),
        move_ok(m, mv),
    ensures
        wf(spec_make_move(m, mv)),
{
    let m4 = spec_move_placed(m, mv);
    lemma_move_placed(m, mv);
    lemma_tail_wf(m, mv, m4);
    lemma_tail_castle_ok(m, mv, m4);
}

/// The null move also takes a well-formed position to a well-formed
/// position.
pub proof fn lemma_null_move_wf(m: BoardModel)
    requires
        wf(m),
    ensures
        wf(spec_null_move(m)),
{
    crate::bits::lemma_xor_algebra();
    let m1 = BoardModel { side: m.side.spec_opposite(), zobrist: m.zobrist ^ KEY_SIDE, ..m };
    assert(wf_hash(m1)) by {
        crate::bits::lemma_xor_algebra();
        if m.side == Color::White {
            assert(side_hash(m.side) == KEY_SIDE && side_hash(m1.side) == 0);
        } else {
            assert(side_hash(m.side) == 0 && side_hash(m1.side) == KEY_SIDE);
        }
    }
    let m2 = match m.enpassant {
        Some(sq) => BoardModel {
            enpassant: None,
            zobrist: m1.zobrist ^ key_enpassant(sq.idx()),
            ..m1
        },
        None => m1,
    };
    assert(wf_hash(m2));
    let fin = spec_null_move(m);
    assert(fin == BoardModel { checkers: crate::bitboard::BitBoard(0), ..m2 });
}

} // verus!
