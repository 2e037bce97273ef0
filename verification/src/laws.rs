//! The laws the library states of itself, each proved once and for all.

use vstd::prelude::*;
use crate::bitboard::BitBoard;
use crate::castle_rights::CastleRights;
use crate::color::Color;
use crate::model::{
    board_hash,
    castle_ok,
    move_ok,
    spec_make_move,
    spec_null_move,
    wf,
    BoardModel,
};
use crate::moves::{Move, MoveType};
use crate::piece::{Piece, PieceType};
use crate::square::Square;
use crate::zobrist::{key_castle, key_enpassant, key_piece_square, KEY_SIDE};

verus! {

/// The side bitboards of a well-formed position are disjoint, and their
/// union is exactly the occupied squares of the piece map.
pub proof fn lemma_sides_partition(m: BoardModel)
    requires
        wf(m),
    ensures
        m.sides[0].0 & m.sides[1].0 == 0,
        forall|i: int|
            0 <= i < 64 ==> (#[trigger] BitBoard(m.sides[0].0 | m.sides[1].0).has(i)
                <==> m.piece_map[i] is Some),
{
    crate::bits::lemma_nth_and(m.sides[0].0, m.sides[1].0);
    crate::bits::lemma_nth_or(m.sides[0].0, m.sides[1].0);
    crate::bits::lemma_nth_zero();
    assert forall|i: u64| i < 64 implies !(#[trigger] crate::bits::nth_bit(
        m.sides[0].0 & m.sides[1].0,
        i,
    )) by {
        assert(m.sides[0].has(i as int) <==> crate::model::color_at(m, i as int) == Some(
            Color::White,
        ));
        assert(m.sides[1].has(i as int) <==> crate::model::color_at(m, i as int) == Some(
            Color::Black,
        ));
    }
    crate::bits::lemma_nth_ext(m.sides[0].0 & m.sides[1].0, 0);
    assert forall|i: int| 0 <= i < 64 implies (#[trigger] BitBoard(m.sides[0].0 | m.sides[1].0).has(
        i,
    ) <==> m.piece_map[i] is Some) by {
        assert(m.sides[0].has(i) <==> crate::model::color_at(m, i) == Some(Color::White));
        assert(m.sides[1].has(i) <==> crate::model::color_at(m, i) == Some(Color::Black));
    }
}

/// The running hash of a well-formed position is the hash recomputed from
/// scratch over its current state.
pub proof fn lemma_zobrist_recomputed(m: BoardModel)
    requires
        wf(m),
    ensures
        m.zobrist == board_hash(m),
{
}

/// In a well-formed position every castling right still held is backed by
/// its king and rook standing on their home squares.
pub proof fn lemma_castle_rights_backed(m: BoardModel)
    requires
        wf(m),
    ensures
        castle_ok(m),
{
}

/// Two null moves in a row restore the hash — and with no en-passant
/// square and no checkers to clear, the whole position.
pub proof fn lemma_null_move_involution(m: BoardModel)
    requires
        m.enpassant is None,
        m.checkers.0 == 0,
    ensures
        spec_null_move(spec_null_move(m)).zobrist == m.zobrist,
        spec_null_move(spec_null_move(m)) == m,
{
    let z = m.zobrist;
    assert((z ^ KEY_SIDE) ^ KEY_SIDE == z) by (bit_vector);
    let n2 = spec_null_move(spec_null_move(m));
    assert(n2.checkers == m.checkers);
    assert(n2 =~= m);
}

/// After any admissible move the resulting position's side bitboards are
/// disjoint, and their union is exactly its occupied squares.
pub proof fn lemma_make_move_partition(m: BoardModel, mv: Move)
    requires
        wf(m),
        move_ok(m, mv),
    ensures
        ({
            let fin = spec_make_move(m, mv);
            &&& fin.sides[0].0 & fin.sides[1].0 == 0
            &&& forall|i: int|
                0 <= i < 64 ==> (#[trigger] BitBoard(fin.sides[0].0 | fin.sides[1].0).has(i)
                    <==> fin.piece_map[i] is Some)
        }),
{
    crate::preserve::lemma_make_move_wf(m, mv);
    lemma_sides_partition(spec_make_move(m, mv));
}

/// After any admissible move the resulting position's running hash equals
/// the hash recomputed from scratch over its state.
pub proof fn lemma_make_move_zobrist_recomputed(m: BoardModel, mv: Move)
    requires
        wf(m),
        move_ok(m, mv),
    ensures
        spec_make_move(m, mv).zobrist == board_hash(spec_make_move(m, mv)),
{
    crate::preserve::lemma_make_move_wf(m, mv);
}

/// After any admissible move every castling right still held in the
/// resulting position is backed by its king and rook at home.
pub proof fn lemma_make_move_castle_backed(m: BoardModel, mv: Move)
    requires
        wf(m),
        move_ok(m, mv),
    ensures
        castle_ok(spec_make_move(m, mv)),
{
    crate::preserve::lemma_make_move_wf(m, mv);
}

/// Updating the castling rights twice with the same touched squares is the
/// same as updating them once.
pub proof fn lemma_castle_update_idempotent(r: CastleRights, s: Square, d: Square)
    ensures
        r.spec_update(s, d).spec_update(s, d) == r.spec_update(s, d),
{
    let a = r.0;
    let x = crate::castle_rights::spec_keep_mask(s);
    let y = crate::castle_rights::spec_keep_mask(d);
    assert((((a & x) & y) & x) & y == (a & x) & y) by (bit_vector);
}

/// Each Zobrist update toggles one key, so applied twice with the same
/// arguments it is a no-op: for the piece-square keys, the en-passant
/// keys, the castling keys and the side key alike.
pub proof fn lemma_zobrist_toggle_involution(z: u64, p: Piece, sq: Square, c: CastleRights)
    ensures
        (z ^ key_piece_square(p.idx(), sq.idx())) ^ key_piece_square(p.idx(), sq.idx()) == z,
        (z ^ key_enpassant(sq.idx())) ^ key_enpassant(sq.idx()) == z,
        (z ^ key_castle(c.0 as int)) ^ key_castle(c.0 as int) == z,
        (z ^ KEY_SIDE) ^ KEY_SIDE == z,
{
    crate::bits::lemma_xor_algebra();
}

/// A promotion puts the promoted piece on the destination square and
/// leaves no pawn behind: the piece map, the promoted piece's bitboard
/// and the side's bitboard all record it.
#[verifier::spinoff_prover]
pub proof fn lemma_promotion_effect(m: BoardModel, mv: Move)
    requires
        wf(m),
        move_ok(m, mv),
        mv.kind.spec_is_promotion(),
    ensures
        ({
            let fin = spec_make_move(m, mv);
            let prom = mv.spec_get_prom(m.side);
            &&& fin.piece_map[mv.dest.idx()] == Some(prom)
            &&& fin.piece_map[mv.src.idx()] is None
            &&& fin.pieces[prom.idx()].has(mv.dest.idx())
            &&& !fin.pieces[Piece::spec_new(PieceType::Pawn, m.side).idx()].has(mv.src.idx())
            &&& fin.sides[m.side.idx()].has(mv.dest.idx())
        }),
{
    crate::preserve::lemma_make_move_wf(m, mv);
    let fin = spec_make_move(m, mv);
    let prom = mv.spec_get_prom(m.side);
    assert(fin.piece_map[mv.dest.idx()] == Some(prom));
    assert(fin.piece_map[mv.src.idx()] is None);
    assert(fin.pieces[prom.idx()].has(mv.dest.idx()));
    assert(!fin.pieces[Piece::spec_new(PieceType::Pawn, m.side).idx()].has(mv.src.idx()));
    assert(crate::model::color_at(fin, mv.dest.idx()) == Some(m.side));
    if m.side == Color::White {
        assert(fin.sides[0].has(mv.dest.idx()));
    } else {
        assert(fin.sides[1].has(mv.dest.idx()));
    }
}

/// An en-passant capture removes the pawn standing beside the destination
/// — one rank toward the mover, on the fifth rank for white capturing and
/// the fourth for black — never a piece on the destination itself.
#[verifier::spinoff_prover]
pub proof fn lemma_enpassant_effect(m: BoardModel, mv: Move)
    requires
        wf(m),
        move_ok(m, mv),
        mv.kind == MoveType::EnPassant,
    ensures
        ({
            let fin = spec_make_move(m, mv);
            let cap = mv.dest.spec_forward(m.side.spec_opposite());
            &&& cap.idx() != mv.dest.idx()
            &&& cap.rank_idx() == (if m.side == Color::White {
                4int
            } else {
                3int
            })
            &&& fin.piece_map[cap.idx()] is None
            &&& fin.piece_map[mv.dest.idx()] == Some(Piece::spec_new(PieceType::Pawn, m.side))
        }),
{
    crate::preserve::lemma_make_move_wf(m, mv);
}

/// A castling move puts the king and the rook on their canonical
/// destinations, empties their homes, and clears both of the moving
/// side's castling rights.
#[verifier::spinoff_prover]
pub proof fn lemma_castling_effect(m: BoardModel, mv: Move)
    requires
        wf(m),
        move_ok(m, mv),
        mv.kind == MoveType::KingCastle || mv.kind == MoveType::QueenCastle,
    ensures
        ({
            let fin = spec_make_move(m, mv);
            let pair = crate::castle_rights::spec_rook_castling(mv.dest);
            &&& fin.piece_map[mv.dest.idx()] == Some(Piece::spec_new(PieceType::King, m.side))
            &&& fin.piece_map[pair.1.idx()] == Some(Piece::spec_new(PieceType::Rook, m.side))
            &&& fin.piece_map[mv.src.idx()] is None
            &&& fin.piece_map[pair.0.idx()] is None
            &&& (if m.side == Color::White {
                fin.castling.0 & 3 == 0
            } else {
                fin.castling.0 & 12 == 0
            })
        }),
{
    crate::preserve::lemma_make_move_wf(m, mv);
    let fin = spec_make_move(m, mv);
    let a = m.castling.0;
    let kd = crate::castle_rights::spec_keep_mask(mv.dest);
    if m.side == Color::White {
        assert(fin.castling.0 == (a & 12) & kd);
        assert(((a & 12) & kd) & 3 == 0) by (bit_vector);
    } else {
        assert(fin.castling.0 == (a & 3) & kd);
        assert(((a & 3) & kd) & 12 == 0) by (bit_vector);
    }
}

/// A double pawn advance records the stepped-over square — one rank ahead
/// of the pawn's origin — as the en-passant square, never the destination
/// itself.
#[verifier::spinoff_prover]
pub proof fn lemma_double_pawn_effect(m: BoardModel, mv: Move)
    requires
        wf(m),
        move_ok(m, mv),
        mv.kind == MoveType::DoublePawn,
    ensures
        ({
            let fin = spec_make_move(m, mv);
            let target = mv.src.spec_forward(m.side);
            &&& fin.enpassant == Some(target)
            &&& target.idx() != mv.dest.idx()
            &&& target.idx() == (mv.src.idx() + mv.dest.idx()) / 2
        }),
{
    crate::preserve::lemma_make_move_wf(m, mv);
}

} // verus!
