//! Attack sets: which squares a piece standing on a square attacks, given
//! the occupancy of the board, and from them the set of pieces giving check.
//!
//! Leaper attacks (pawn, knight, king) come from fixed square deltas;
//! sliding attacks (bishop, rook, queen) walk a ray until the first occupied
//! square, which is itself attacked.

use vstd::prelude::*;
use vstd::array::ArrayAdditionalExecFns;
use crate::bitboard::BitBoard;
use crate::bits::{
    lemma_nth_ext,
    lemma_nth_or,
    lemma_nth_single,
    lemma_nth_zero,
    nth_bit,
};
use crate::color::Color;
use crate::model::BoardModel;
use crate::piece::{Piece, PieceType};
use crate::square::Square;

verus! {

/// The rank and file lie on the board.
pub open spec fn on_board(r: int, f: int) -> bool {
    0 <= r < 8 && 0 <= f < 8
}

/// The magnitude of a delta.
pub open spec fn mag(x: int) -> int {
    if x < 0 {
        -x
    } else {
        x
    }
}

/// A pawn of color `c` on square `s` attacks square `t`: one rank ahead of
/// `s` from `c`'s point of view, one file aside.
pub open spec fn pawn_attacks_sq(c: Color, s: int, t: int) -> bool {
    &&& 0 <= s < 64
    &&& 0 <= t < 64
    &&& t / 8 - s / 8 == (if c == Color::White {
        1int
    } else {
        -1int
    })
    &&& mag(t % 8 - s % 8) == 1
}

/// A knight on square `s` attacks square `t`.
pub open spec fn knight_attacks_sq(s: int, t: int) -> bool {
    let dr = mag(t / 8 - s / 8);
    let df = mag(t % 8 - s % 8);
    &&& 0 <= s < 64
    &&& 0 <= t < 64
    &&& ((dr == 1 && df == 2) || (dr == 2 && df == 1))
}

/// A king on square `s` attacks square `t`.
pub open spec fn king_attacks_sq(s: int, t: int) -> bool {
    let dr = mag(t / 8 - s / 8);
    let df = mag(t % 8 - s % 8);
    &&& 0 <= s < 64
    &&& 0 <= t < 64
    &&& dr <= 1
    &&& df <= 1
    &&& s != t
}

/// The word holding bit `i` for each `i` below `n` with `f(i)`.
pub open spec fn bits_matching(f: spec_fn(int) -> bool, n: int) -> u64
    decreases n,
{
    if n <= 0 {
        0
    } else {
        bits_matching(f, n - 1) | (if f(n - 1) {
            1u64 << ((n - 1) as u64)
        } else {
            0u64
        })
    }
}

/// `bits_matching` holds exactly the bits its predicate marks.
pub proof fn lemma_bits_matching(f: spec_fn(int) -> bool, n: int)
    requires
        0 <= n <= 64,
    ensures
        forall|i: u64|
            i < 64 ==> (#[trigger] nth_bit(bits_matching(f, n), i) <==> (i < n && f(i as int))),
    decreases n,
{
    lemma_nth_zero();
    if n > 0 {
        lemma_bits_matching(f, n - 1);
        let tail = if f(n - 1) {
            1u64 << ((n - 1) as u64)
        } else {
            0u64
        };
        lemma_nth_or(bits_matching(f, n - 1), tail);
        lemma_nth_single((n - 1) as u64);
    }
}

/// The squares a pawn of color `c` on square `s` attacks.
pub open spec fn pawn_att_bits(c: Color, s: int) -> u64 {
    bits_matching(|t: int| pawn_attacks_sq(c, s, t), 64)
}

/// The squares a knight on square `s` attacks.
pub open spec fn knight_att_bits(s: int) -> u64 {
    bits_matching(|t: int| knight_attacks_sq(s, t), 64)
}

/// The squares a king on square `s` attacks.
pub open spec fn king_att_bits(s: int) -> u64 {
    bits_matching(|t: int| king_attacks_sq(s, t), 64)
}

/// The squares a slider on rank `r`, file `f` attacks along direction
/// `(dr, df)` given occupancy `occ`: each step until the board's edge or the
/// first occupied square, which is still attacked.
pub open spec fn ray_bits(occ: u64, r: int, f: int, dr: int, df: int, fuel: nat) -> u64
    decreases fuel,
{
    if fuel == 0 {
        0
    } else {
        let nr = r + dr;
        let nf = f + df;
        if !on_board(nr, nf) {
            0
        } else {
            let t = (nr * 8 + nf) as u64;
            if nth_bit(occ, t) {
                1u64 << t
            } else {
                (1u64 << t) | ray_bits(occ, nr, nf, dr, df, (fuel - 1) as nat)
            }
        }
    }
}

/// The squares a rook on square `s` attacks given occupancy `occ`.
pub open spec fn rook_att_bits(occ: u64, s: int) -> u64 {
    ray_bits(occ, s / 8, s % 8, 1, 0, 7) | ray_bits(occ, s / 8, s % 8, -1, 0, 7) | ray_bits(
        occ,
        s / 8,
        s % 8,
        0,
        1,
        7,
    ) | ray_bits(occ, s / 8, s % 8, 0, -1, 7)
}

/// The squares a bishop on square `s` attacks given occupancy `occ`.
pub open spec fn bishop_att_bits(occ: u64, s: int) -> u64 {
    ray_bits(occ, s / 8, s % 8, 1, 1, 7) | ray_bits(occ, s / 8, s % 8, 1, -1, 7) | ray_bits(
        occ,
        s / 8,
        s % 8,
        -1,
        1,
        7,
    ) | ray_bits(occ, s / 8, s % 8, -1, -1, 7)
}

/// All occupied squares of the position.
pub open spec fn occ_word(m: BoardModel) -> u64 {
    m.sides[0].0 | m.sides[1].0
}

/// The enemy pieces of `m.side` that attack square `k`: pawns by the pawn
/// pattern seen from `k`, leapers by their patterns, sliders along clear
/// rays.
pub open spec fn spec_attackers_to(m: BoardModel, k: int) -> u64 {
    let enemy = m.side.spec_opposite();
    let occ = occ_word(m);
    (pawn_att_bits(m.side, k) & m.pieces[Piece::spec_new(PieceType::Pawn, enemy).idx()].0) | (
    knight_att_bits(k) & m.pieces[Piece::spec_new(PieceType::Knight, enemy).idx()].0) | (
    king_att_bits(k) & m.pieces[Piece::spec_new(PieceType::King, enemy).idx()].0) | (rook_att_bits(
        occ,
        k,
    ) & (m.pieces[Piece::spec_new(PieceType::Rook, enemy).idx()].0 | m.pieces[Piece::spec_new(
        PieceType::Queen,
        enemy,
    ).idx()].0)) | (bishop_att_bits(occ, k) & (m.pieces[Piece::spec_new(
        PieceType::Bishop,
        enemy,
    ).idx()].0 | m.pieces[Piece::spec_new(PieceType::Queen, enemy).idx()].0))
}

/// The attackers of every king of `m.side` standing on a square below `n`.
pub open spec fn checkers_fold(m: BoardModel, n: int) -> u64
    decreases n,
{
    if n <= 0 {
        0
    } else {
        checkers_fold(m, n - 1) | (if m.piece_map[n - 1] == Some(
            Piece::spec_new(PieceType::King, m.side),
        ) {
            spec_attackers_to(m, n - 1)
        } else {
            0u64
        })
    }
}

/// The pieces giving check: every enemy piece attacking a king of the side
/// to move.
pub open spec fn spec_checkers(m: BoardModel) -> u64 {
    checkers_fold(m, 64)
}

/// The checkers of a position depend only on the placement and the side
/// to move, not on the recorded checkers field.
pub proof fn lemma_checkers_congruence(a: BoardModel, b: BoardModel)
    requires
        a.piece_map == b.piece_map,
        a.pieces == b.pieces,
        a.sides == b.sides,
        a.side == b.side,
    ensures
        spec_checkers(a) == spec_checkers(b),
{
    lemma_checkers_fold_congruence(a, b, 64);
}

/// The fold behind [`lemma_checkers_congruence`], square by square.
proof fn lemma_checkers_fold_congruence(a: BoardModel, b: BoardModel, n: int)
    requires
        a.piece_map == b.piece_map,
        a.pieces == b.pieces,
        a.sides == b.sides,
        a.side == b.side,
    ensures
        checkers_fold(a, n) == checkers_fold(b, n),
    decreases n,
{
    if n > 0 {
        lemma_checkers_fold_congruence(a, b, n - 1);
        assert(spec_attackers_to(a, n - 1) == spec_attackers_to(b, n - 1));
    }
}

/// One leaper target: the square one `(dr, df)` step away from `s`, when it
/// stays on the board.
pub open spec fn leaper_tgt(s: int, dr: int, df: int, t: int) -> bool {
    &&& on_board(s / 8 + dr, s % 8 + df)
    &&& t == (s / 8 + dr) * 8 + (s % 8 + df)
}

/// Adds the square one `(dr, df)` step from `s` to the set, when it stays on
/// the board.
fn leaper_step(bb: BitBoard, s: Square, dr: i16, df: i16) -> (r: BitBoard)
    requires
        s.wf(),
        -2 <= dr <= 2,
        -2 <= df <= 2,
    ensures
        forall|i: int| #[trigger]
            r.has(i) <==> (bb.has(i) || (0 <= i < 64 && leaper_tgt(s.idx(), dr as int, df as int, i))),
{
    let nr = s.0 as i16 / 8 + dr;
    let nf = s.0 as i16 % 8 + df;
    if 0 <= nr && nr < 8 && 0 <= nf && nf < 8 {
        let t = Square((nr * 8 + nf) as u8);
        assert(t.idx() == (s.idx() / 8 + dr) * 8 + (s.idx() % 8 + df));
        bb.set_square(t)
    } else {
        bb
    }
}

/// The squares a knight on `s` attacks.
pub fn knight_attacks(s: Square) -> (r: BitBoard)
    requires
        s.wf(),
    ensures
        r.0 == knight_att_bits(s.idx()),
{
    let mut bb = BitBoard::empty();
    bb = leaper_step(bb, s, -2, -1);
    bb = leaper_step(bb, s, -2, 1);
    bb = leaper_step(bb, s, -1, -2);
    bb = leaper_step(bb, s, -1, 2);
    bb = leaper_step(bb, s, 1, -2);
    bb = leaper_step(bb, s, 1, 2);
    bb = leaper_step(bb, s, 2, -1);
    bb = leaper_step(bb, s, 2, 1);
    proof {
        let si = s.idx();
        lemma_bits_matching(|t: int| knight_attacks_sq(si, t), 64);
        assert forall|i: u64| i < 64 implies (nth_bit(bb.0, i) <==> nth_bit(
            knight_att_bits(si),
            i,
        )) by {
            let t = i as int;
            assert(t == (t / 8) * 8 + t % 8);
            assert(si == (si / 8) * 8 + si % 8);
            assert(nth_bit(bb.0, i) == bb.has(t));
        }
        lemma_nth_ext(bb.0, knight_att_bits(si));
    }
    bb
}

/// The squares a king on `s` attacks.
pub fn king_attacks(s: Square) -> (r: BitBoard)
    requires
        s.wf(),
    ensures
        r.0 == king_att_bits(s.idx()),
{
    let mut bb = BitBoard::empty();
    bb = leaper_step(bb, s, -1, -1);
    bb = leaper_step(bb, s, -1, 0);
    bb = leaper_step(bb, s, -1, 1);
    bb = leaper_step(bb, s, 0, -1);
    bb = leaper_step(bb, s, 0, 1);
    bb = leaper_step(bb, s, 1, -1);
    bb = leaper_step(bb, s, 1, 0);
    bb = leaper_step(bb, s, 1, 1);
    proof {
        let si = s.idx();
        lemma_bits_matching(|t: int| king_attacks_sq(si, t), 64);
        assert forall|i: u64| i < 64 implies (nth_bit(bb.0, i) <==> nth_bit(
            king_att_bits(si),
            i,
        )) by {
            let t = i as int;
            assert(t == (t / 8) * 8 + t % 8);
            assert(si == (si / 8) * 8 + si % 8);
            assert(nth_bit(bb.0, i) == bb.has(t));
        }
        lemma_nth_ext(bb.0, king_att_bits(si));
    }
    bb
}

/// The squares a pawn of color `c` on `s` attacks.
pub fn pawn_attacks(c: Color, s: Square) -> (r: BitBoard)
    requires
        s.wf(),
    ensures
        r.0 == pawn_att_bits(c, s.idx()),
{
    let dr: i16 = match c {
        Color::White => 1,
        Color::Black => -1,
    };
    let mut bb = BitBoard::empty();
    bb = leaper_step(bb, s, dr, -1);
    bb = leaper_step(bb, s, dr, 1);
    proof {
        let si = s.idx();
        lemma_bits_matching(|t: int| pawn_attacks_sq(c, si, t), 64);
        assert forall|i: u64| i < 64 implies (nth_bit(bb.0, i) <==> nth_bit(
            pawn_att_bits(c, si),
            i,
        )) by {
            let t = i as int;
            assert(t == (t / 8) * 8 + t % 8);
            assert(si == (si / 8) * 8 + si % 8);
            assert(nth_bit(bb.0, i) == bb.has(t));
        }
        lemma_nth_ext(bb.0, pawn_att_bits(c, si));
    }
    bb
}

/// The squares attacked along one ray from rank `r`, file `f`.
fn ray_from(occ: u64, r: i16, f: i16, dr: i16, df: i16, fuel: u8) -> (res: u64)
    requires
        0 <= r < 8,
        0 <= f < 8,
        -1 <= dr <= 1,
        -1 <= df <= 1,
        fuel <= 7,
    ensures
        res == ray_bits(occ, r as int, f as int, dr as int, df as int, fuel as nat),
    decreases fuel,
{
    if fuel == 0 {
        0
    } else {
        let nr = r + dr;
        let nf = f + df;
        if nr < 0 || nr >= 8 || nf < 0 || nf >= 8 {
            0
        } else {
            let t = (nr * 8 + nf) as u64;
            let bit = 1u64 << t;
            if (occ >> t) & 1u64 == 1u64 {
                bit
            } else {
                bit | ray_from(occ, nr, nf, dr, df, fuel - 1)
            }
        }
    }
}

/// The squares a rook on `s` attacks given occupancy `occ`.
pub fn rook_attacks(occ: u64, s: Square) -> (r: BitBoard)
    requires
        s.wf(),
    ensures
        r.0 == rook_att_bits(occ, s.idx()),
{
    let rk = (s.0 / 8) as i16;
    let fl = (s.0 % 8) as i16;
    let r1 = ray_from(occ, rk, fl, 1, 0, 7);
    let r2 = ray_from(occ, rk, fl, -1, 0, 7);
    let r3 = ray_from(occ, rk, fl, 0, 1, 7);
    let r4 = ray_from(occ, rk, fl, 0, -1, 7);
    BitBoard(r1 | r2 | r3 | r4)
}

/// The squares a bishop on `s` attacks given occupancy `occ`.
pub fn bishop_attacks(occ: u64, s: Square) -> (r: BitBoard)
    requires
        s.wf(),
    ensures
        r.0 == bishop_att_bits(occ, s.idx()),
{
    let rk = (s.0 / 8) as i16;
    let fl = (s.0 % 8) as i16;
    let r1 = ray_from(occ, rk, fl, 1, 1, 7);
    let r2 = ray_from(occ, rk, fl, 1, -1, 7);
    let r3 = ray_from(occ, rk, fl, -1, 1, 7);
    let r4 = ray_from(occ, rk, fl, -1, -1, 7);
    BitBoard(r1 | r2 | r3 | r4)
}

/// Generates the precomputed pawn attack tables for both colors and all 64
/// squares, by the same per-square attack computation the rest of the
/// library uses: index 0 holds white's table, index 1 black's.
pub fn gen_pawn_attacks() -> (r: [[BitBoard; 64]; 2])
    ensures
        forall|s: int| 0 <= s < 64 ==> #[trigger] r@[0]@[s].0 == pawn_att_bits(Color::White, s),
        forall|s: int| 0 <= s < 64 ==> #[trigger] r@[1]@[s].0 == pawn_att_bits(Color::Black, s),
{
    let white = gen_pawn_attacks_for(Color::White);
    let black = gen_pawn_attacks_for(Color::Black);
    let mut table: [[BitBoard; 64]; 2] = [white;2];
    table.set(1, black);
    table
}

/// One color's pawn attack table, square by square.
fn gen_pawn_attacks_for(c: Color) -> (r: [BitBoard; 64])
    ensures
        forall|s: int| 0 <= s < 64 ==> #[trigger] r@[s].0 == pawn_att_bits(c, s),
{
    let mut table: [BitBoard; 64] = [BitBoard(0);64];
    let mut s: usize = 0;
    while s < 64
        invariant
            s <= 64,
            forall|j: int| 0 <= j < s ==> #[trigger] table@[j].0 == pawn_att_bits(c, j),
        decreases 64 - s,
    {
        let bb = pawn_attacks(c, Square(s as u8));
        table.set(s, bb);
        s = s + 1;
    }
    table
}

} // verus!
