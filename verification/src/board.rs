//! The position and its transactions.

use vstd::prelude::*;
use vstd::array::ArrayAdditionalExecFns;
use crate::attacks::{
    bishop_attacks,
    checkers_fold,
    king_attacks,
    knight_attacks,
    pawn_attacks,
    rook_attacks,
    spec_attackers_to,
    spec_checkers,
};
use crate::bitboard::BitBoard;
use crate::castle_rights::{get_rook_castling, CastleRights};
use crate::color::Color;
use crate::model::{
    move_ok,
    spec_make_move,
    spec_null_move,
    spec_remove_piece,
    spec_set_piece,
    wf,
    BoardModel,
};
use crate::moves::{Move, MoveType};
use crate::piece::{Piece, PieceType};
use crate::square::Square;
use crate::zobrist::Zobrist;

verus! {

broadcast use vstd::array::group_array_axioms;

/// A position: piece and side bitboards, a per-square piece map kept
/// redundant with them, the en-passant square, castling rights, the
/// fifty-move counter, the full-move number, the running Zobrist hash, the
/// side to move and the pieces giving check.
#[derive(Clone, Copy, PartialEq, Eq, Debug)]
pub struct Board {
    /// One bitboard per piece, indexed by the piece's packed value.
    pub pieces_bitboard: [BitBoard; 12],
    /// One bitboard per side, indexed by the color's value.
    pub sides_bitboard: [BitBoard; 2],
    /// The piece standing on each square, if any.
    pub piece_map: [Option<Piece>; 64],
    /// The square a pawn just stepped over, if any.
    pub enpassant_square: Option<Square>,
    /// The castling rights of the position.
    pub castling: CastleRights,
    /// Half-moves since the last capture or pawn move.
    pub fifty_move: i16,
    /// The full-move number as read from the position's sixth FEN field.
    pub ply: u16,
    /// The running hash of the position.
    pub zobrist: Zobrist,
    /// The side to move.
    pub side: Color,
    /// The pieces giving check to the side to move.
    pub checkers: BitBoard,
}

impl View for Board {
    type V = BoardModel;

    open spec fn view(&self) -> BoardModel {
        BoardModel {
            pieces: self.pieces_bitboard@,
            sides: self.sides_bitboard@,
            piece_map: self.piece_map@,
            enpassant: self.enpassant_square,
            castling: self.castling,
            fifty: self.fifty_move as int,
            ply: self.ply as int,
            zobrist: self.zobrist.0,
            side: self.side,
            checkers: self.checkers,
        }
    }
}

/// The model of a board with nothing on it and nothing hashed.
pub open spec fn empty_model() -> BoardModel {
    BoardModel {
        pieces: Seq::new(12, |i: int| BitBoard(0)),
        sides: Seq::new(2, |i: int| BitBoard(0)),
        piece_map: Seq::new(64, |i: int| None),
        enpassant: None,
        castling: CastleRights(0),
        fifty: 0,
        ply: 0,
        zobrist: 0,
        side: Color::White,
        checkers: BitBoard(0),
    }
}

impl Board {
    /// A board with no pieces, no rights, no hash: the blank slate the FEN
    /// parser fills in.
    pub fn new() -> (r: Board)
        ensures
            r@ =~= empty_model(),
    {
        let r = Board {
            pieces_bitboard: [BitBoard(0);12],
            sides_bitboard: [BitBoard(0);2],
            piece_map: [None;64],
            enpassant_square: None,
            castling: CastleRights(0),
            fifty_move: 0,
            ply: 0,
            zobrist: Zobrist(0),
            side: Color::White,
            checkers: BitBoard(0),
        };
        proof {
            vstd::array::axiom_spec_array_fill_for_copy_type::<BitBoard, 12>(BitBoard(0));
            vstd::array::axiom_spec_array_fill_for_copy_type::<BitBoard, 2>(BitBoard(0));
            vstd::array::axiom_spec_array_fill_for_copy_type::<Option<Piece>, 64>(None);
            assert forall|i: int| 0 <= i < 12 implies r@.pieces[i] == empty_model().pieces[i] by {
                assert(r@.pieces[i] == BitBoard(0));
            }
            assert forall|i: int| 0 <= i < 2 implies r@.sides[i] == empty_model().sides[i] by {
                assert(r@.sides[i] == BitBoard(0));
            }
            assert forall|i: int| 0 <= i < 64 implies r@.piece_map[i] == empty_model().piece_map[i]
                by {
                assert(r@.piece_map[i] == None::<Piece>);
            }
            assert(r@.pieces =~= empty_model().pieces);
            assert(r@.sides =~= empty_model().sides);
            assert(r@.piece_map =~= empty_model().piece_map);
        }
        r
    }

    /// The piece standing on the square, which must be occupied.
    pub fn piece_on(&self, square: Square) -> (r: Piece)
        requires
            square.wf(),
            self@.piece_map[square.idx()] is Some,
        ensures
            self@.piece_map[square.idx()] == Some(r),
    {
        self.piece_map[square.to_index()].unwrap()
    }

    /// Puts a piece on an empty square, updating the piece's bitboard, its
    /// side's bitboard, the piece map and the hash together.
    pub fn set_piece(&mut self, piece: Piece, square: Square)
        requires
            square.wf(),
            old(self)@.piece_map[square.idx()] is None,
        ensures
            final(self)@ == spec_set_piece(old(self)@, piece, square),
    {
        let index = piece.to_index();
        let color = piece.color().side_index();
        let bb = self.pieces_bitboard[index].set_square(square);
        self.pieces_bitboard.set(index, bb);
        let sb = self.sides_bitboard[color].set_square(square);
        self.sides_bitboard.set(color, sb);
        self.piece_map.set(square.to_index(), Some(piece));
        self.zobrist.hash_piece(piece, square);
    }

    /// Takes the piece off an occupied square: the exact inverse of
    /// `set_piece` for the piece that was there.
    pub fn remove_piece(&mut self, square: Square)
        requires
            square.wf(),
            old(self)@.piece_map[square.idx()] is Some,
        ensures
            final(self)@ == spec_remove_piece(old(self)@, square),
    {
        let piece = self.piece_on(square);
        let index = piece.to_index();
        let color = piece.color().side_index();
        let bb = self.pieces_bitboard[index].pop_square(square);
        self.pieces_bitboard.set(index, bb);
        let sb = self.sides_bitboard[color].pop_square(square);
        self.sides_bitboard.set(color, sb);
        self.piece_map.set(square.to_index(), None);
        self.zobrist.hash_piece(piece, square);
    }

    /// The squares of all white pieces.
    pub fn white_bitboard(&self) -> (r: BitBoard)
        ensures
            r == self@.sides[0],
    {
        self.sides_bitboard[0]
    }

    /// The squares of all black pieces.
    pub fn black_bitboard(&self) -> (r: BitBoard)
        ensures
            r == self@.sides[1],
    {
        self.sides_bitboard[1]
    }

    /// The squares of all pieces of either side.
    pub fn combined_bitboard(&self) -> (r: BitBoard)
        ensures
            r.0 == self@.sides[0].0 | self@.sides[1].0,
    {
        BitBoard(self.white_bitboard().0 | self.black_bitboard().0)
    }

    /// The side to move.
    pub fn side(&self) -> (r: Color)
        ensures
            r == self@.side,
    {
        self.side
    }

    /// The running hash of the position.
    pub fn zobrist(&self) -> (r: Zobrist)
        ensures
            r.0 == self@.zobrist,
    {
        self.zobrist
    }

    /// Half-moves since the last capture or pawn move.
    pub fn fifty_move(&self) -> (r: i16)
        ensures
            r as int == self@.fifty,
    {
        self.fifty_move
    }

    /// The enemy pieces attacking square `k`.
    fn attackers_to(&self, k: usize) -> (r: u64)
        requires
            k < 64,
        ensures
            r == spec_attackers_to(self@, k as int),
    {
        let enemy = self.side.opposite();
        let occ = self.sides_bitboard[0].0 | self.sides_bitboard[1].0;
        let ksq = Square(k as u8);
        let pawns = self.pieces_bitboard[Piece::new(PieceType::Pawn, enemy).to_index()].0;
        let knights = self.pieces_bitboard[Piece::new(PieceType::Knight, enemy).to_index()].0;
        let kings = self.pieces_bitboard[Piece::new(PieceType::King, enemy).to_index()].0;
        let rooks = self.pieces_bitboard[Piece::new(PieceType::Rook, enemy).to_index()].0;
        let bishops = self.pieces_bitboard[Piece::new(PieceType::Bishop, enemy).to_index()].0;
        let queens = self.pieces_bitboard[Piece::new(PieceType::Queen, enemy).to_index()].0;
        (pawn_attacks(self.side, ksq).0 & pawns) | (knight_attacks(ksq).0 & knights) | (
        king_attacks(ksq).0 & kings) | (rook_attacks(occ, ksq).0 & (rooks | queens)) | (
        bishop_attacks(occ, ksq).0 & (bishops | queens))
    }

    /// The pieces giving check: every enemy piece attacking a king of the
    /// side to move.
    pub fn checkers(&self) -> (r: BitBoard)
        ensures
            r.0 == spec_checkers(self@),
    {
        let king = Piece::new(PieceType::King, self.side);
        let mut acc: u64 = 0;
        let mut k: usize = 0;
        while k < 64
            invariant
                k <= 64,
                king == Piece::spec_new(PieceType::King, self@.side),
                acc == checkers_fold(self@, k as int),
            decreases 64 - k,
        {
            let hit = match self.piece_map[k] {
                Some(p) => p == king,
                None => false,
            };
            if hit {
                acc = acc | self.attackers_to(k);
            } else {
                proof {
                    assert(acc | 0u64 == acc) by (bit_vector);
                }
            }
            k = k + 1;
        }
        BitBoard(acc)
    }

    /// Applies a move and returns the position after it; the receiver is
    /// unchanged. The move must satisfy [`move_ok`]: legal moves do.
    pub fn make_move(&self, mv: Move) -> (r: Board)
        requires
            wf(self@),
            move_ok(self@, mv),
        ensures
            r@ == spec_make_move(self@, mv),
            wf(r@),
    {
        proof {
            crate::preserve::lemma_make_move_wf(self@, mv);
        }
        let mut board = self.clone();
        let src = mv.get_src();
        let dest = mv.get_dest();
        let piece = self.piece_on(src);
        let piece_type = piece.piece_type();
        let move_type = mv.get_type();
        let is_capture = mv.is_capture();

        // Lift the moving piece off its source square.
        board.remove_piece(src);

        // A capture or a pawn move restarts the fifty-move count.
        board.fifty_move = if is_capture || piece_type == PieceType::Pawn {
            0
        } else {
            board.fifty_move + 1
        };

        // The kind's auxiliary change: the pawn taken beside the
        // destination, the rook jumping over the king, or the occupant of
        // the destination square.
        match move_type {
            MoveType::EnPassant => {
                board.remove_piece(dest.forward(self.side.opposite()));
            },
            MoveType::KingCastle | MoveType::QueenCastle => {
                let rook = Piece::new(PieceType::Rook, self.side);
                let (rook_src, rook_dest) = get_rook_castling(dest);
                board.remove_piece(rook_src);
                board.set_piece(rook, rook_dest);
            },
            _ => {
                if is_capture {
                    board.remove_piece(dest);
                }
            },
        }

        // Put the arriving piece down: the promoted piece, or the mover.
        if mv.is_promotion() {
            board.set_piece(mv.get_prom(self.side), dest);
        } else {
            board.set_piece(piece, dest);
        }

        // An en-passant square lasts one move: toggle the old one out, and
        // a double pawn advance toggles the stepped-over square in.
        if let Some(square) = self.enpassant_square {
            board.enpassant_square = None;
            board.zobrist.hash_enpassant(square);
        }
        if move_type == MoveType::DoublePawn {
            let target = src.forward(self.side);
            board.enpassant_square = Some(target);
            board.zobrist.hash_enpassant(target);
        }

        // Touched home squares clear their castling rights; the hash swaps
        // the old mask's key for the new one.
        let new_castling = self.castling.update(src, dest);
        board.castling = new_castling;
        board.zobrist.hash_castle(self.castling);
        board.zobrist.hash_castle(new_castling);

        // The move passes to the other side.
        board.side = self.side.opposite();
        board.zobrist.hash_side();

        // What now checks the new side to move.
        board.checkers = board.checkers();

        board
    }

    /// Passes the move to the opponent without moving: clears the
    /// en-passant square and the checkers, flips the side and its hash key.
    /// The side to move must not be in check.
    pub fn null_move(&self) -> (r: Board)
        requires
            wf(self@),
            self@.checkers.0 == 0,
        ensures
            r@ == spec_null_move(self@),
            wf(r@),
    {
        proof {
            crate::preserve::lemma_null_move_wf(self@);
        }
        let mut board = self.clone();
        board.side = self.side.opposite();
        board.zobrist.hash_side();

        board.enpassant_square = None;
        if let Some(square) = self.enpassant_square {
            board.zobrist.hash_enpassant(square);
        }

        board.checkers = BitBoard(0);
        board
    }
}

} // verus!
