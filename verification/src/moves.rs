//! Moves: a source square, a destination square and a move kind.

use vstd::prelude::*;
use crate::color::Color;
use crate::piece::{Piece, PieceType};
use crate::square::Square;

verus! {

/// The kind of a move. The four promotion kinds name the piece the pawn
/// becomes; the capturing variants combine a capture with the promotion.
#[derive(Clone, Copy, PartialEq, Eq, Structural, Debug, Hash)]
pub enum MoveType {
    Quiet,
    DoublePawn,
    KingCastle,
    QueenCastle,
    Capture,
    EnPassant,
    PromotionKnight,
    PromotionBishop,
    PromotionRook,
    PromotionQueen,
    PromotionCaptureKnight,
    PromotionCaptureBishop,
    PromotionCaptureRook,
    PromotionCaptureQueen,
}

impl MoveType {
    /// The kinds that take an enemy piece standing on the destination
    /// square, and en passant, which takes a pawn beside it.
    pub open spec fn spec_is_capture(self) -> bool {
        match self {
            MoveType::Capture | MoveType::EnPassant | MoveType::PromotionCaptureKnight
                | MoveType::PromotionCaptureBishop | MoveType::PromotionCaptureRook
                | MoveType::PromotionCaptureQueen => true,
            _ => false,
        }
    }

    /// The kinds that turn a pawn into another piece.
    pub open spec fn spec_is_promotion(self) -> bool {
        match self {
            MoveType::PromotionKnight | MoveType::PromotionBishop | MoveType::PromotionRook
                | MoveType::PromotionQueen | MoveType::PromotionCaptureKnight
                | MoveType::PromotionCaptureBishop | MoveType::PromotionCaptureRook
                | MoveType::PromotionCaptureQueen => true,
            _ => false,
        }
    }

    /// The kind of piece a promotion of this kind yields.
    pub open spec fn spec_prom_type(self) -> PieceType {
        match self {
            MoveType::PromotionKnight | MoveType::PromotionCaptureKnight => PieceType::Knight,
            MoveType::PromotionBishop | MoveType::PromotionCaptureBishop => PieceType::Bishop,
            MoveType::PromotionRook | MoveType::PromotionCaptureRook => PieceType::Rook,
            MoveType::PromotionQueen | MoveType::PromotionCaptureQueen => PieceType::Queen,
            _ => PieceType::Queen,
        }
    }
}

/// A move: where from, where to, and of what kind.
#[derive(Clone, Copy, PartialEq, Eq, Structural, Debug, Hash)]
pub struct Move {
    pub src: Square,
    pub dest: Square,
    pub kind: MoveType,
}

impl Move {
    /// Both squares are on the board.
    pub open spec fn wf(self) -> bool {
        self.src.wf() && self.dest.wf()
    }

    /// Builds a move.
    pub fn new(src: Square, dest: Square, kind: MoveType) -> (r: Move)
        ensures
            r.src == src,
            r.dest == dest,
            r.kind == kind,
    {
        Move { src, dest, kind }
    }

    /// The source square.
    pub fn get_src(self) -> (r: Square)
        ensures
            r == self.src,
    {
        self.src
    }

    /// The destination square.
    pub fn get_dest(self) -> (r: Square)
        ensures
            r == self.dest,
    {
        self.dest
    }

    /// The move's kind.
    pub fn get_type(self) -> (r: MoveType)
        ensures
            r == self.kind,
    {
        self.kind
    }

    /// Whether the move takes a piece.
    #[verifier::when_used_as_spec(spec_is_capture)]
    pub fn is_capture(self) -> (r: bool)
        ensures
            r == self.kind.spec_is_capture(),
    {
        match self.kind {
            MoveType::Capture | MoveType::EnPassant | MoveType::PromotionCaptureKnight
                | MoveType::PromotionCaptureBishop | MoveType::PromotionCaptureRook
                | MoveType::PromotionCaptureQueen => true,
            _ => false,
        }
    }

    /// Whether the move takes a piece; the spec view of `is_capture`.
    pub open spec fn spec_is_capture(self) -> bool {
        self.kind.spec_is_capture()
    }

    /// Whether the move promotes a pawn.
    #[verifier::when_used_as_spec(spec_is_promotion)]
    pub fn is_promotion(self) -> (r: bool)
        ensures
            r == self.kind.spec_is_promotion(),
    {
        match self.kind {
            MoveType::PromotionKnight | MoveType::PromotionBishop | MoveType::PromotionRook
                | MoveType::PromotionQueen | MoveType::PromotionCaptureKnight
                | MoveType::PromotionCaptureBishop | MoveType::PromotionCaptureRook
                | MoveType::PromotionCaptureQueen => true,
            _ => false,
        }
    }

    /// Whether the move promotes a pawn; the spec view of `is_promotion`.
    pub open spec fn spec_is_promotion(self) -> bool {
        self.kind.spec_is_promotion()
    }

    /// The concrete piece a promotion yields for the given side.
    pub open spec fn spec_get_prom(self, side: Color) -> Piece {
        Piece::spec_new(self.kind.spec_prom_type(), side)
    }

    /// The concrete piece this promotion yields for the given side.
    #[verifier::when_used_as_spec(spec_get_prom)]
    pub fn get_prom(self, side: Color) -> (r: Piece)
        requires
            self.spec_is_promotion(),
        ensures
            r == self.spec_get_prom(side),
    {
        let kind = match self.kind {
            MoveType::PromotionKnight | MoveType::PromotionCaptureKnight => PieceType::Knight,
            MoveType::PromotionBishop | MoveType::PromotionCaptureBishop => PieceType::Bishop,
            MoveType::PromotionRook | MoveType::PromotionCaptureRook => PieceType::Rook,
            _ => PieceType::Queen,
        };
        Piece::new(kind, side)
    }
}

} // verus!
