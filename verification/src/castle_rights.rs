//! Castling rights as a four-bit mask.

use vstd::prelude::*;
use crate::square::Square;

verus! {

/// White may castle king-side.
pub const CASTLE_WK: u8 = 1;

/// White may castle queen-side.
pub const CASTLE_WQ: u8 = 2;

/// Black may castle king-side.
pub const CASTLE_BK: u8 = 4;

/// Black may castle queen-side.
pub const CASTLE_BQ: u8 = 8;

/// The four castling rights packed as a mask: bit 0 white king-side, bit 1
/// white queen-side, bit 2 black king-side, bit 3 black queen-side.
#[derive(Clone, Copy, PartialEq, Eq, Structural, Debug, Hash)]
pub struct CastleRights(pub u8);

/// The rights that survive a touch of the given square: any move whose
/// source or destination is a king home square or a rook home square clears
/// the rights that depend on it.
pub open spec fn spec_keep_mask(sq: Square) -> u8 {
    if sq.idx() == 4 {  // E1: all but WK and WQ
        12
    } else if sq.idx() == 0 {  // A1: all but WQ
        13
    } else if sq.idx() == 7 {  // H1: all but WK
        14
    } else if sq.idx() == 60 {  // E8: all but BK and BQ
        3
    } else if sq.idx() == 56 {  // A8: all but BQ
        7
    } else if sq.idx() == 63 {  // H8: all but BK
        11
    } else {
        15
    }
}

impl CastleRights {
    /// The mask holds only the four right bits.
    pub open spec fn wf(self) -> bool {
        self.0 < 16
    }

    /// The given right is held.
    pub open spec fn has(self, right: u8) -> bool {
        self.0 & right != 0
    }

    /// The result of `update(src, dest)`: both touched squares clear the
    /// rights that depend on them.
    pub open spec fn spec_update(self, src: Square, dest: Square) -> CastleRights {
        CastleRights(self.0 & spec_keep_mask(src) & spec_keep_mask(dest))
    }

    /// No rights at all.
    pub fn null() -> (r: CastleRights)
        ensures
            r.0 == 0,
            r.wf(),
    {
        CastleRights(0)
    }

    /// The mask as an index into a sixteen-entry table.
    pub fn to_index(self) -> (r: usize)
        ensures
            r == self.0,
    {
        self.0 as usize
    }

    /// The rights left after a move from `src` to `dest`; clears every right
    /// whose king home or rook home square was touched.
    #[verifier::when_used_as_spec(spec_update)]
    pub fn update(self, src: Square, dest: Square) -> (r: CastleRights)
        requires
            self.wf(),
        ensures
            r == self.spec_update(src, dest),
            r.wf(),
    {
        let r = CastleRights(self.0 & keep_mask(src) & keep_mask(dest));
        proof {
            let a = self.0;
            let m1 = spec_keep_mask(src);
            let m2 = spec_keep_mask(dest);
            assert(a < 16 ==> a & m1 & m2 < 16) by (bit_vector);
        }
        r
    }
}

/// The rights that survive a touch of the given square.
#[verifier::when_used_as_spec(spec_keep_mask)]
pub fn keep_mask(sq: Square) -> (r: u8)
    ensures
        r == spec_keep_mask(sq),
{
    match sq.0 {
        4 => 12,
        0 => 13,
        7 => 14,
        60 => 3,
        56 => 7,
        63 => 11,
        _ => 15,
    }
}

/// Masking can only clear bits: what survives two masks was held before,
/// and was spared by each mask.
pub proof fn lemma_and_mask_mono()
    by (bit_vector)
    ensures
        forall|x: u8, y: u8, m: u8| #[trigger] ((x & y) & m) != 0 ==> (x & m) != 0 && (y & m) != 0,
        forall|x: u8, y: u8| #[trigger] (x & y) <= x,
{
}

/// How each keep mask treats each right, bit by bit.
pub proof fn lemma_keep_mask_bits()
    by (bit_vector)
    ensures
        12u8 & 1 == 0,
        14u8 & 1 == 0,
        13u8 & 1 != 0,
        3u8 & 1 != 0,
        7u8 & 1 != 0,
        11u8 & 1 != 0,
        15u8 & 1 != 0,
        12u8 & 2 == 0,
        13u8 & 2 == 0,
        14u8 & 2 != 0,
        3u8 & 2 != 0,
        7u8 & 2 != 0,
        11u8 & 2 != 0,
        15u8 & 2 != 0,
        3u8 & 4 == 0,
        11u8 & 4 == 0,
        12u8 & 4 != 0,
        13u8 & 4 != 0,
        14u8 & 4 != 0,
        7u8 & 4 != 0,
        15u8 & 4 != 0,
        3u8 & 8 == 0,
        7u8 & 8 == 0,
        12u8 & 8 != 0,
        13u8 & 8 != 0,
        14u8 & 8 != 0,
        11u8 & 8 != 0,
        15u8 & 8 != 0,
{
}

/// The rook's source and destination squares for a castling move, keyed by
/// the king's destination: G1 or C1 for white, G8 or C8 for black.
pub open spec fn spec_rook_castling(dest: Square) -> (Square, Square) {
    if dest.idx() == 6 {  // G1
        (Square(7), Square(5))
    } else if dest.idx() == 2 {  // C1
        (Square(0), Square(3))
    } else if dest.idx() == 62 {  // G8
        (Square(63), Square(61))
    } else {  // C8
        (Square(56), Square(59))
    }
}

/// The rook's source and destination squares for a castling move, keyed by
/// the king's destination: G1, C1, G8 or C8.
#[verifier::when_used_as_spec(spec_rook_castling)]
pub fn get_rook_castling(dest: Square) -> (r: (Square, Square))
    requires
        dest.idx() == 6 || dest.idx() == 2 || dest.idx() == 62 || dest.idx() == 58,
    ensures
        r == spec_rook_castling(dest),
        r.0.wf() && r.1.wf(),
{
    match dest.0 {
        6 => (Square(7), Square(5)),
        2 => (Square(0), Square(3)),
        62 => (Square(63), Square(61)),
        _ => (Square(56), Square(59)),
    }
}

} // verus!
