//! Files, ranks and squares of the board.
//!
//! A square is numbered `rank * 8 + file` with file 0 the A-file and rank 0
//! white's back rank, so bit `i` of a bitboard is square `i` (the
//! little-endian rank-file layout).

use vstd::prelude::*;
use crate::bitboard::BitBoard;
use crate::color::Color;

verus! {

/// A file (column), 0 for the A-file up to 7 for the H-file.
#[derive(Clone, Copy, PartialEq, Eq, Structural, Debug, Hash)]
pub struct File(pub u8);

/// A rank (row), 0 for white's back rank up to 7 for black's.
#[derive(Clone, Copy, PartialEq, Eq, Structural, Debug, Hash)]
pub struct Rank(pub u8);

/// A square, numbered 0 (A1) to 63 (H8).
#[derive(Clone, Copy, PartialEq, Eq, Structural, Debug, Hash)]
pub struct Square(pub u8);

impl File {
    /// A file holds a value below 8.
    pub open spec fn wf(self) -> bool {
        self.0 < 8
    }

    /// The file one step towards H, wrapping from H back to A; the FEN
    /// parser relies on the wrap to return to the A-file after each rank.
    pub fn right(self) -> (r: File)
        requires
            self.wf(),
        ensures
            r.wf(),
            r.0 == (self.0 + 1) % 8,
    {
        if self.0 < 7 {
            File(self.0 + 1)
        } else {
            File(0)
        }
    }

    /// The file one step towards A, wrapping from A back to H.
    pub fn left(self) -> (r: File)
        requires
            self.wf(),
        ensures
            r.wf(),
            r.0 == (self.0 + 7) % 8,
    {
        if self.0 > 0 {
            File(self.0 - 1)
        } else {
            File(7)
        }
    }

    /// The packed integer value.
    pub fn to_index(self) -> (r: usize)
        ensures
            r == self.0,
    {
        self.0 as usize
    }
}

impl Rank {
    /// A rank holds a value below 8.
    pub open spec fn wf(self) -> bool {
        self.0 < 8
    }

    /// The rank one step up the board, wrapping from the eighth back to the
    /// first.
    pub fn up(self) -> (r: Rank)
        requires
            self.wf(),
        ensures
            r.wf(),
            r.0 == (self.0 + 1) % 8,
    {
        if self.0 < 7 {
            Rank(self.0 + 1)
        } else {
            Rank(0)
        }
    }

    /// The rank one step down the board, wrapping from the first back to the
    /// eighth.
    pub fn down(self) -> (r: Rank)
        requires
            self.wf(),
        ensures
            r.wf(),
            r.0 == (self.0 + 7) % 8,
    {
        if self.0 > 0 {
            Rank(self.0 - 1)
        } else {
            Rank(7)
        }
    }

    /// The packed integer value.
    pub fn to_index(self) -> (r: usize)
        ensures
            r == self.0,
    {
        self.0 as usize
    }
}

impl Square {
    /// A square holds a value below 64.
    pub open spec fn wf(self) -> bool {
        self.0 < 64
    }

    /// The square's index as a mathematical integer.
    pub open spec fn idx(self) -> int {
        self.0 as int
    }

    /// The square's rank index.
    pub open spec fn rank_idx(self) -> int {
        self.0 as int / 8
    }

    /// The square's file index.
    pub open spec fn file_idx(self) -> int {
        self.0 as int % 8
    }

    /// The square on the given file and rank.
    pub fn from_file_rank(file: File, rank: Rank) -> (r: Square)
        requires
            file.wf(),
            rank.wf(),
        ensures
            r.wf(),
            r.0 == rank.0 * 8 + file.0,
            r.rank_idx() == rank.0,
            r.file_idx() == file.0,
    {
        Square(rank.0 * 8 + file.0)
    }

    /// The square of a bounded index; the mask makes the conversion total.
    pub fn from_index(index: usize) -> (r: Square)
        ensures
            r.wf(),
            r.0 == index % 64,
            index < 64 ==> r.0 == index,
    {
        Square((index % 64) as u8)
    }

    /// The packed integer value.
    pub fn to_index(self) -> (r: usize)
        ensures
            r == self.0,
    {
        self.0 as usize
    }

    /// The set holding this square alone.
    pub fn to_bitboard(self) -> (r: BitBoard)
        requires
            self.wf(),
        ensures
            r.0 == 1u64 << self.0,
            r.has_square(self),
    {
        let r = BitBoard(1u64 << self.0);
        proof {
            crate::bits::lemma_nth_single(self.0 as u64);
        }
        r
    }

    /// The square's rank.
    pub fn rank(self) -> (r: Rank)
        requires
            self.wf(),
        ensures
            r.wf(),
            r.0 == self.rank_idx(),
    {
        Rank(self.0 / 8)
    }

    /// The square's file.
    pub fn file(self) -> (r: File)
        requires
            self.wf(),
        ensures
            r.wf(),
            r.0 == self.file_idx(),
    {
        File(self.0 % 8)
    }

    /// The square one rank ahead of `self` from `side`'s point of view:
    /// up the board for white, down for black.
    pub open spec fn spec_forward(self, side: Color) -> Square {
        match side {
            Color::White => Square((self.0 + 8) as u8),
            Color::Black => Square((self.0 - 8) as u8),
        }
    }

    /// The square one rank ahead from `side`'s point of view.
    #[verifier::when_used_as_spec(spec_forward)]
    pub fn forward(self, side: Color) -> (r: Square)
        requires
            self.wf(),
            side == Color::White ==> self.rank_idx() < 7,
            side == Color::Black ==> self.rank_idx() > 0,
        ensures
            r == self.spec_forward(side),
            r.wf(),
            r.rank_idx() == self.rank_idx() + (if side == Color::White { 1int } else { -1 }),
            r.file_idx() == self.file_idx(),
    {
        match side {
            Color::White => Square(self.0 + 8),
            Color::Black => Square(self.0 - 8),
        }
    }
}

} // verus!
