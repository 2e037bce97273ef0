//! Piece kinds and colored pieces.

use vstd::prelude::*;
use crate::color::Color;

verus! {

/// A kind of piece, without its color.
#[derive(Clone, Copy, PartialEq, Eq, Structural, Debug, Hash)]
pub enum PieceType {
    Pawn,
    Knight,
    Bishop,
    Rook,
    Queen,
    King,
}

impl PieceType {
    /// The packed integer value, 0 (pawn) to 5 (king).
    pub open spec fn idx(self) -> int {
        match self {
            PieceType::Pawn => 0,
            PieceType::Knight => 1,
            PieceType::Bishop => 2,
            PieceType::Rook => 3,
            PieceType::Queen => 4,
            PieceType::King => 5,
        }
    }
}

/// A colored piece: the six white pieces, then the six black ones, packed as
/// `color * 6 + kind`.
#[derive(Clone, Copy, PartialEq, Eq, Structural, Debug, Hash)]
pub enum Piece {
    WP,
    WN,
    WB,
    WR,
    WQ,
    WK,
    BP,
    BN,
    BB,
    BR,
    BQ,
    BK,
}

impl Piece {
    /// The packed integer value, `color * 6 + kind`, 0 to 11.
    pub open spec fn idx(self) -> int {
        match self {
            Piece::WP => 0,
            Piece::WN => 1,
            Piece::WB => 2,
            Piece::WR => 3,
            Piece::WQ => 4,
            Piece::WK => 5,
            Piece::BP => 6,
            Piece::BN => 7,
            Piece::BB => 8,
            Piece::BR => 9,
            Piece::BQ => 10,
            Piece::BK => 11,
        }
    }

    /// The piece's color.
    pub open spec fn spec_color(self) -> Color {
        if self.idx() < 6 {
            Color::White
        } else {
            Color::Black
        }
    }

    /// The piece's kind.
    pub open spec fn spec_piece_type(self) -> PieceType {
        match self {
            Piece::WP | Piece::BP => PieceType::Pawn,
            Piece::WN | Piece::BN => PieceType::Knight,
            Piece::WB | Piece::BB => PieceType::Bishop,
            Piece::WR | Piece::BR => PieceType::Rook,
            Piece::WQ | Piece::BQ => PieceType::Queen,
            Piece::WK | Piece::BK => PieceType::King,
        }
    }

    /// The piece of the given kind and color.
    pub open spec fn spec_new(piece_type: PieceType, color: Color) -> Piece {
        match (color, piece_type) {
            (Color::White, PieceType::Pawn) => Piece::WP,
            (Color::White, PieceType::Knight) => Piece::WN,
            (Color::White, PieceType::Bishop) => Piece::WB,
            (Color::White, PieceType::Rook) => Piece::WR,
            (Color::White, PieceType::Queen) => Piece::WQ,
            (Color::White, PieceType::King) => Piece::WK,
            (Color::Black, PieceType::Pawn) => Piece::BP,
            (Color::Black, PieceType::Knight) => Piece::BN,
            (Color::Black, PieceType::Bishop) => Piece::BB,
            (Color::Black, PieceType::Rook) => Piece::BR,
            (Color::Black, PieceType::Queen) => Piece::BQ,
            (Color::Black, PieceType::King) => Piece::BK,
        }
    }

    /// Builds the piece of the given kind and color.
    #[verifier::when_used_as_spec(spec_new)]
    pub fn new(piece_type: PieceType, color: Color) -> (r: Piece)
        ensures
            r == Piece::spec_new(piece_type, color),
            r.spec_color() == color,
            r.spec_piece_type() == piece_type,
            r.idx() == color.idx() * 6 + piece_type.idx(),
    {
        match (color, piece_type) {
            (Color::White, PieceType::Pawn) => Piece::WP,
            (Color::White, PieceType::Knight) => Piece::WN,
            (Color::White, PieceType::Bishop) => Piece::WB,
            (Color::White, PieceType::Rook) => Piece::WR,
            (Color::White, PieceType::Queen) => Piece::WQ,
            (Color::White, PieceType::King) => Piece::WK,
            (Color::Black, PieceType::Pawn) => Piece::BP,
            (Color::Black, PieceType::Knight) => Piece::BN,
            (Color::Black, PieceType::Bishop) => Piece::BB,
            (Color::Black, PieceType::Rook) => Piece::BR,
            (Color::Black, PieceType::Queen) => Piece::BQ,
            (Color::Black, PieceType::King) => Piece::BK,
        }
    }

    /// The packed integer value, used to index per-piece tables.
    pub fn to_index(self) -> (r: usize)
        ensures
            r == self.idx(),
    {
        match self {
            Piece::WP => 0,
            Piece::WN => 1,
            Piece::WB => 2,
            Piece::WR => 3,
            Piece::WQ => 4,
            Piece::WK => 5,
            Piece::BP => 6,
            Piece::BN => 7,
            Piece::BB => 8,
            Piece::BR => 9,
            Piece::BQ => 10,
            Piece::BK => 11,
        }
    }

    /// The piece of a packed value below 12, or `None` beyond it.
    pub fn from_index(index: usize) -> (r: Option<Piece>)
        ensures
            index < 12 ==> (r matches Some(p) && p.idx() == index),
            index >= 12 ==> r is None,
    {
        match index {
            0 => Some(Piece::WP),
            1 => Some(Piece::WN),
            2 => Some(Piece::WB),
            3 => Some(Piece::WR),
            4 => Some(Piece::WQ),
            5 => Some(Piece::WK),
            6 => Some(Piece::BP),
            7 => Some(Piece::BN),
            8 => Some(Piece::BB),
            9 => Some(Piece::BR),
            10 => Some(Piece::BQ),
            11 => Some(Piece::BK),
            _ => None,
        }
    }

    /// The piece's color.
    #[verifier::when_used_as_spec(spec_color)]
    pub fn color(self) -> (r: Color)
        ensures
            r == self.spec_color(),
    {
        if self.to_index() < 6 {
            Color::White
        } else {
            Color::Black
        }
    }

    /// The piece's kind.
    #[verifier::when_used_as_spec(spec_piece_type)]
    pub fn piece_type(self) -> (r: PieceType)
        ensures
            r == self.spec_piece_type(),
            r.idx() == self.idx() % 6,
    {
        match self {
            Piece::WP | Piece::BP => PieceType::Pawn,
            Piece::WN | Piece::BN => PieceType::Knight,
            Piece::WB | Piece::BB => PieceType::Bishop,
            Piece::WR | Piece::BR => PieceType::Rook,
            Piece::WQ | Piece::BQ => PieceType::Queen,
            Piece::WK | Piece::BK => PieceType::King,
        }
    }

    /// The piece's FEN letter.
    pub open spec fn spec_to_char(self) -> char {
        match self {
            Piece::WP => 'P',
            Piece::WN => 'N',
            Piece::WB => 'B',
            Piece::WR => 'R',
            Piece::WQ => 'Q',
            Piece::WK => 'K',
            Piece::BP => 'p',
            Piece::BN => 'n',
            Piece::BB => 'b',
            Piece::BR => 'r',
            Piece::BQ => 'q',
            Piece::BK => 'k',
        }
    }

    /// The piece's FEN letter: upper case for white, lower case for black.
    pub fn to_char(&self) -> (r: char)
        ensures
            r == self.spec_to_char(),
    {
        match self {
            Piece::WP => 'P',
            Piece::WN => 'N',
            Piece::WB => 'B',
            Piece::WR => 'R',
            Piece::WQ => 'Q',
            Piece::WK => 'K',
            Piece::BP => 'p',
            Piece::BN => 'n',
            Piece::BB => 'b',
            Piece::BR => 'r',
            Piece::BQ => 'q',
            Piece::BK => 'k',
        }
    }

    /// The piece of a FEN letter, or an error on any other character.
    pub fn try_from_char(c: char) -> (r: Result<Piece, &'static str>)
        ensures
            r matches Ok(p) ==> p.spec_to_char() == c,
            r is Err <==> !valid_piece_char(c),
    {
        match c {
            'P' => Ok(Piece::WP),
            'N' => Ok(Piece::WN),
            'B' => Ok(Piece::WB),
            'R' => Ok(Piece::WR),
            'Q' => Ok(Piece::WQ),
            'K' => Ok(Piece::WK),
            'p' => Ok(Piece::BP),
            'n' => Ok(Piece::BN),
            'b' => Ok(Piece::BB),
            'r' => Ok(Piece::BR),
            'q' => Ok(Piece::BQ),
            'k' => Ok(Piece::BK),
            _ => Err("Invalid character for chess piece"),
        }
    }
}

/// Whether the character is a FEN piece letter.
pub open spec fn valid_piece_char(c: char) -> bool {
    c == 'P' || c == 'N' || c == 'B' || c == 'R' || c == 'Q' || c == 'K' || c == 'p' || c == 'n'
        || c == 'b' || c == 'r' || c == 'q' || c == 'k'
}

} // verus!
