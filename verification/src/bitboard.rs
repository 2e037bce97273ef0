//! A 64-bit set of squares.

use vstd::prelude::*;
use crate::bits::{nth_bit, lemma_nth_or, lemma_nth_and, lemma_nth_not, lemma_nth_single};
use crate::square::Square;

verus! {

// Masks of notable regions of the board, under the little-endian rank-file
// layout: each rank is one byte, the A-file the low bit of every byte.
pub const WHITE_SIDE_BITS: u64 = 0x0000_0000_FFFF_FFFF;
pub const BLACK_SIDE_BITS: u64 = 0xFFFF_FFFF_0000_0000;

pub const FILE_A_BITS: u64 = 0x0101_0101_0101_0101;
pub const FILE_B_BITS: u64 = 0x0202_0202_0202_0202;
pub const FILE_C_BITS: u64 = 0x0404_0404_0404_0404;
pub const FILE_D_BITS: u64 = 0x0808_0808_0808_0808;
pub const FILE_E_BITS: u64 = 0x1010_1010_1010_1010;
pub const FILE_F_BITS: u64 = 0x2020_2020_2020_2020;
pub const FILE_G_BITS: u64 = 0x4040_4040_4040_4040;
pub const FILE_H_BITS: u64 = 0x8080_8080_8080_8080;

pub const RANK_1_BITS: u64 = 0x0000_0000_0000_00FF;
pub const RANK_2_BITS: u64 = 0x0000_0000_0000_FF00;
pub const RANK_3_BITS: u64 = 0x0000_0000_00FF_0000;
pub const RANK_4_BITS: u64 = 0x0000_0000_FF00_0000;
pub const RANK_5_BITS: u64 = 0x0000_00FF_0000_0000;
pub const RANK_6_BITS: u64 = 0x0000_FF00_0000_0000;
pub const RANK_7_BITS: u64 = 0x00FF_0000_0000_0000;
pub const RANK_8_BITS: u64 = 0xFF00_0000_0000_0000;

pub const DARK_SQUARE_BITS: u64 = 0xAA55_AA55_AA55_AA55;
pub const LIGHT_SQUARE_BITS: u64 = 0x55AA_55AA_55AA_55AA;

pub const FULL_BITS: u64 = 0xFFFF_FFFF_FFFF_FFFF;

/// A set of squares as one 64-bit word: bit `i` set means square `i` is in
/// the set.
#[derive(Clone, Copy, PartialEq, Eq, Structural, Debug, Hash)]
pub struct BitBoard(pub u64);

impl BitBoard {
    /// Square `i` is in the set.
    pub open spec fn has(self, i: int) -> bool {
        0 <= i < 64 && nth_bit(self.0, i as u64)
    }

    /// The square is in the set.
    pub open spec fn has_square(self, square: Square) -> bool {
        self.has(square.idx())
    }

    /// The empty set.
    pub fn empty() -> (r: BitBoard)
        ensures
            r.0 == 0,
            forall|i: int| !r.has(i),
    {
        let r = BitBoard(0);
        proof {
            crate::bits::lemma_nth_zero();
        }
        r
    }

    /// The set of all 64 squares.
    pub fn full() -> (r: BitBoard)
        ensures
            r.0 == FULL_BITS,
    {
        BitBoard(FULL_BITS)
    }

    /// The set with `square` added.
    pub fn set_square(self, square: Square) -> (r: BitBoard)
        requires
            square.wf(),
        ensures
            r.0 == self.0 | (1u64 << square.0),
            forall|i: int| #[trigger] r.has(i) <==> (self.has(i) || i == square.idx()),
    {
        let r = BitBoard(self.0 | (1u64 << square.0));
        proof {
            lemma_nth_or(self.0, 1u64 << square.0);
            lemma_nth_single(square.0 as u64);
        }
        r
    }

    /// Whether `square` is in the set.
    pub fn get_square(self, square: Square) -> (r: bool)
        requires
            square.wf(),
        ensures
            r == self.has_square(square),
    {
        let r = (self.0 >> square.0) & 1u64 == 1u64;
        r
    }

    /// The set with `square` removed.
    pub fn pop_square(self, square: Square) -> (r: BitBoard)
        requires
            square.wf(),
        ensures
            r.0 == self.0 & !(1u64 << square.0),
            forall|i: int| #[trigger] r.has(i) <==> (self.has(i) && i != square.idx()),
    {
        let r = BitBoard(self.0 & !(1u64 << square.0));
        proof {
            lemma_nth_and(self.0, !(1u64 << square.0));
            lemma_nth_not(1u64 << square.0);
            lemma_nth_single(square.0 as u64);
        }
        r
    }

    /// The union of the two sets.
    pub fn union(self, other: BitBoard) -> (r: BitBoard)
        ensures
            r.0 == self.0 | other.0,
            forall|i: int| #[trigger] r.has(i) <==> (self.has(i) || other.has(i)),
    {
        let r = BitBoard(self.0 | other.0);
        proof {
            lemma_nth_or(self.0, other.0);
        }
        r
    }

    /// The intersection of the two sets.
    pub fn intersect(self, other: BitBoard) -> (r: BitBoard)
        ensures
            r.0 == self.0 & other.0,
            forall|i: int| #[trigger] r.has(i) <==> (self.has(i) && other.has(i)),
    {
        let r = BitBoard(self.0 & other.0);
        proof {
            lemma_nth_and(self.0, other.0);
        }
        r
    }

    /// The complement of the set within the 64 squares.
    pub fn complement(self) -> (r: BitBoard)
        ensures
            r.0 == !self.0,
            forall|i: int| 0 <= i < 64 ==> (#[trigger] r.has(i) <==> !self.has(i)),
    {
        let r = BitBoard(!self.0);
        proof {
            lemma_nth_not(self.0);
        }
        r
    }

    /// Whether the set is empty.
    pub fn is_empty(self) -> (r: bool)
        ensures
            r == (self.0 == 0),
            r ==> forall|i: int| !self.has(i),
    {
        proof {
            if self.0 == 0 {
                crate::bits::lemma_nth_zero();
            }
        }
        self.0 == 0
    }

    /// The number of squares in the set, counted below position `n`.
    pub open spec fn spec_count_below(b: u64, n: int) -> nat
        decreases n,
    {
        if n <= 0 {
            0
        } else {
            Self::spec_count_below(b, n - 1) + (if nth_bit(b, (n - 1) as u64) {
                1nat
            } else {
                0nat
            })
        }
    }

    /// The number of squares in the set.
    pub open spec fn spec_count(self) -> nat {
        Self::spec_count_below(self.0, 64)
    }

    /// Counts the squares in the set.
    pub fn count_bits(self) -> (r: u32)
        ensures
            r == self.spec_count(),
    {
        let mut n: u32 = 0;
        let mut i: u64 = 0;
        while i < 64
            invariant
                i <= 64,
                n == Self::spec_count_below(self.0, i as int),
                n <= i,
            decreases 64 - i,
        {
            if (self.0 >> i) & 1u64 == 1u64 {
                n = n + 1;
            }
            i = i + 1;
        }
        n
    }

    /// The square of the least-significant set bit; the set must not be
    /// empty.
    pub fn to_square(self) -> (r: Square)
        requires
            self.0 != 0,
        ensures
            r.wf(),
            self.has(r.idx()),
            forall|i: int| 0 <= i < r.idx() ==> !self.has(i),
    {
        proof {
            vstd::std_specs::bits::axiom_u64_trailing_zeros(self.0);
        }
        let tz = self.0.trailing_zeros();
        assert(tz < 64);
        assert(nth_bit(self.0, tz as u64));
        assert(forall|i: int|
            0 <= i < tz ==> !(#[trigger] nth_bit(self.0, i as u64))) by {
            assert(forall|j: u64|
                0 <= j < vstd::std_specs::bits::u64_trailing_zeros(self.0) ==> #[trigger] (self.0
                    >> j) & 1u64 == 0u64);
        }
        Square(tz as u8)
    }

    /// The set mirrored vertically: rank 1 exchanged with rank 8, 2 with 7,
    /// and so on; each rank is one byte of the word.
    pub fn flip(self) -> (r: BitBoard)
        ensures
            forall|i: int|
                0 <= i < 64 ==> (#[trigger] r.has(i) <==> self.has(56 - 8 * (i / 8) + i % 8)),
    {
        let b = self.0;
        let r = BitBoard(
            (b << 56) | ((b & 0xFF00) << 40) | ((b & 0xFF_0000) << 24) | ((b & 0xFF00_0000) << 8)
                | ((b >> 8) & 0xFF00_0000) | ((b >> 24) & 0xFF_0000) | ((b >> 40) & 0xFF00) | (b
                >> 56),
        );
        proof {
            lemma_flip_bits(b);
        }
        r
    }
}

/// Each bit of the byte-reversed word is the mirrored bit of the input word.
proof fn lemma_flip_bits(b: u64)
    by (bit_vector)
    ensures
        forall|i: u64|
            i < 64 ==> (#[trigger] nth_bit(
                (b << 56) | ((b & 0xFF00) << 40) | ((b & 0xFF_0000) << 24) | ((b & 0xFF00_0000)
                    << 8) | ((b >> 8) & 0xFF00_0000) | ((b >> 24) & 0xFF_0000) | ((b >> 40)
                    & 0xFF00) | (b >> 56),
                i,
            ) <==> nth_bit(b, ((56 - 8 * (i / 8)) + i % 8) as u64)),
{
}

} // verus!
